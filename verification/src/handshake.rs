//! The bring-up handshake as a state machine that performs no I/O.
//!
//! A [`Handshake`] holds the bus, the interrupt line and the writes that are
//! still to be made. Whoever owns the transport repeats three steps: read
//! [`Handshake::pending_write`], perform it on [`Handshake::bus_mut`], and
//! hand the outcome to [`Handshake::advance`]. The first failure ends the
//! handshake; the last success turns it into a [`PersonSensor`].

use crate::person_sensor::{PersonSensor, PersonSensorMode, SensorView};
use core::marker::PhantomData;
use vstd::prelude::*;

verus! {

/// One register write that bring-up asks of the bus.
#[derive(Clone, Copy, Debug, PartialEq, Eq)]
pub enum BusWrite {
    /// Select the operating mode.
    SetMode(PersonSensorMode),
    /// Switch the identification model on or off.
    EnableIdModel(bool),
}

/// A bring-up that is under way: at least one write is still to be made.
pub struct Handshake<I2C, INT, MODE> {
    i2c: I2C,
    interrupt: INT,
    mode: PhantomData<MODE>,
    pending: BusWrite,
    following: Option<BusWrite>,
}

/// Where a handshake stands after a write went through.
pub enum Progress<I2C, INT, MODE> {
    /// Another write is pending.
    Pending(Handshake<I2C, INT, MODE>),
    /// Every write went through; the driver is ready.
    Ready(PersonSensor<I2C, INT, MODE>),
}

/// What a [`Handshake`] is, apart from its mode tag.
pub struct HandshakeView<I2C, INT> {
    pub bus: I2C,
    pub interrupt: INT,
    /// The writes still to be made, the pending one first.
    pub plan: Seq<BusWrite>,
}

/// What a [`Progress`] is, apart from its mode tag.
pub enum ProgressView<I2C, INT> {
    Pending(HandshakeView<I2C, INT>),
    Ready(SensorView<I2C, INT>),
}

/// A handshake driven to its end: the writes that were attempted, in order,
/// and what came of it.
pub struct Run<I2C, INT, E> {
    pub writes: Seq<BusWrite>,
    pub result: Result<SensorView<I2C, INT>, E>,
}

impl<I2C, INT, MODE> View for Handshake<I2C, INT, MODE> {
    type V = HandshakeView<I2C, INT>;

    closed spec fn view(&self) -> HandshakeView<I2C, INT> {
        HandshakeView {
            bus: self.i2c,
            interrupt: self.interrupt,
            plan: match self.following {
                Some(then) => seq![self.pending, then],
                None => seq![self.pending],
            },
        }
    }
}

impl<I2C, INT, MODE> View for Progress<I2C, INT, MODE> {
    type V = ProgressView<I2C, INT>;

    open spec fn view(&self) -> ProgressView<I2C, INT> {
        match self {
            Progress::Pending(handshake) => ProgressView::Pending(handshake@),
            Progress::Ready(sensor) => ProgressView::Ready(sensor@),
        }
    }
}

impl<I2C, INT> HandshakeView<I2C, INT> {
    /// The state after the pending write was attempted with `outcome`: a
    /// failure is handed on as it is, a success moves to the next write or,
    /// after the last one, to the driver.
    pub open spec fn after<E>(self, outcome: Result<(), E>) -> Result<ProgressView<I2C, INT>, E> {
        match outcome {
            Err(e) => Err(e),
            Ok(_) => if self.plan.len() > 1 {
                Ok(ProgressView::Pending(HandshakeView { plan: self.plan.drop_first(), ..self }))
            } else {
                Ok(ProgressView::Ready(SensorView::fresh(self.bus, self.interrupt)))
            },
        }
    }

    /// The handshake driven against a bus that answers the `i`-th write
    /// attempted from here with `answers[i]`.
    pub open spec fn run<E>(self, answers: Seq<Result<(), E>>) -> Run<I2C, INT, E>
        decreases self.plan.len(),
    {
        let attempted = seq![self.plan[0]];
        match self.after(answers[0]) {
            Err(e) => Run { writes: attempted, result: Err(e) },
            Ok(ProgressView::Ready(sensor)) => Run { writes: attempted, result: Ok(sensor) },
            Ok(ProgressView::Pending(next)) => {
                let rest = next.run(answers.drop_first());
                Run { writes: attempted + rest.writes, result: rest.result }
            },
        }
    }

    /// While every write goes through, the handshake attempts the whole plan,
    /// in order and nothing else, and ends in a driver on the same bus and
    /// interrupt line with checksum validation on.
    pub proof fn lemma_run_succeeds<E>(self, answers: Seq<Result<(), E>>)
        requires
            1 <= self.plan.len() <= answers.len(),
            forall|i: int| 0 <= i < self.plan.len() ==> (#[trigger] answers[i]) is Ok,
        ensures
            self.run(answers).writes == self.plan,
            self.run(answers).result == Ok::<SensorView<I2C, INT>, E>(
                SensorView::fresh(self.bus, self.interrupt),
            ),
        decreases self.plan.len(),
    {
        if self.plan.len() > 1 {
            let next = HandshakeView { plan: self.plan.drop_first(), ..self };
            next.lemma_run_succeeds(answers.drop_first());
        }
    }

    /// The first write that fails is the last one attempted, and its error is
    /// the handshake's result, unchanged.
    pub proof fn lemma_run_stops_at_failure<E>(self, answers: Seq<Result<(), E>>, k: int)
        requires
            0 <= k < self.plan.len(),
            k < answers.len(),
            forall|i: int| 0 <= i < k ==> (#[trigger] answers[i]) is Ok,
            answers[k] is Err,
        ensures
            self.run(answers).writes == self.plan.take(k + 1),
            self.run(answers).result == Err::<SensorView<I2C, INT>, E>(answers[k]->Err_0),
        decreases k,
    {
        if k > 0 {
            let next = HandshakeView { plan: self.plan.drop_first(), ..self };
            next.lemma_run_stops_at_failure(answers.drop_first(), k - 1);
        }
    }
}

impl<I2C, INT, MODE> Handshake<I2C, INT, MODE> {
    /// A handshake that will write `first` and, once that went through,
    /// `second`.
    pub(crate) fn begin(
        i2c: I2C,
        interrupt: INT,
        first: BusWrite,
        second: BusWrite,
    ) -> (handshake: Self)
        ensures
            handshake@ == (HandshakeView { bus: i2c, interrupt, plan: seq![first, second] }),
    {
        Handshake { i2c, interrupt, mode: PhantomData, pending: first, following: Some(second) }
    }

    /// A handshake always has a write pending, and never more than two to go.
    pub proof fn lemma_plan_len(self)
        ensures
            1 <= self@.plan.len() <= 2,
    {
    }

    /// The write to perform next.
    pub fn pending_write(&self) -> (write: BusWrite)
        ensures
            self@.plan.len() >= 1,
            write == self@.plan[0],
    {
        self.pending
    }

    /// The bus, to perform the pending write on. The plan cannot be changed
    /// through it.
    pub fn bus_mut(&mut self) -> (bus: &mut I2C)
        ensures
            *bus == old(self)@.bus,
            final(self)@ == (HandshakeView { bus: *final(bus), ..old(self)@ }),
    {
        &mut self.i2c
    }

    /// Takes the outcome of the pending write. An error comes back as it is
    /// and ends the handshake; a success leads to the next write or, after the
    /// last one, to the driver.
    pub fn advance<E>(self, outcome: Result<(), E>) -> (next: Result<Progress<I2C, INT, MODE>, E>)
        ensures
            match next {
                Ok(progress) => self@.after(outcome) == Ok::<ProgressView<I2C, INT>, E>(progress@),
                Err(e) => self@.after(outcome) == Err::<ProgressView<I2C, INT>, E>(e),
            },
    {
        match outcome {
            Err(e) => Err(e),
            Ok(_) => match self.following {
                Some(then) => {
                    let next = Handshake {
                        i2c: self.i2c,
                        interrupt: self.interrupt,
                        mode: PhantomData,
                        pending: then,
                        following: None,
                    };
                    assert(next@.plan =~= self@.plan.drop_first());
                    Ok(Progress::Pending(next))
                },
                None => Ok(Progress::Ready(PersonSensor::new(self.i2c, self.interrupt))),
            },
        }
    }
}

} // verus!
