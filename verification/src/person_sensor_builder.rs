//! Typestate builder for the [`PersonSensor`](crate::person_sensor::PersonSensor)
//! driver.
//!
//! An entry point fixes the mode in the builder's type, `with_interrupt` may
//! add an interrupt line once, and `build` exists only for a builder whose
//! mode is fixed. None of the three touches the bus before `build`, and
//! `build` itself only starts the [`Handshake`] that says what to write.

use crate::handshake::{BusWrite, Handshake, HandshakeView};
use crate::person_sensor::{ContinuousCaptureMode, PersonSensorMode, SensorView, StandbyMode};
use core::marker::PhantomData;
use vstd::prelude::*;

verus! {

/// Builder for the `PersonSensor` driver.
///
/// `INT` is `()` until an interrupt line is attached; `MODE` is the tag of the
/// mode that the entry point chose.
pub struct PersonSensorBuilder<I2C, INT, MODE> {
    i2c: I2C,
    interrupt: INT,
    mode: PhantomData<MODE>,
    id_enabled: bool,
}

/// What a [`PersonSensorBuilder`] is, apart from its mode tag.
pub struct BuilderView<I2C, INT> {
    pub bus: I2C,
    pub interrupt: INT,
    pub id_enabled: bool,
}

impl<I2C, INT, MODE> View for PersonSensorBuilder<I2C, INT, MODE> {
    type V = BuilderView<I2C, INT>;

    closed spec fn view(&self) -> BuilderView<I2C, INT> {
        BuilderView { bus: self.i2c, interrupt: self.interrupt, id_enabled: self.id_enabled }
    }
}

/// The writes that bring the sensor up in `mode`, in order: the mode first,
/// then the identification model. Continuous capture follows the caller's
/// flag; standby switches the model on whatever the flag says.
pub open spec fn bring_up_plan(mode: PersonSensorMode, id_enabled: bool) -> Seq<BusWrite> {
    seq![
        BusWrite::SetMode(mode),
        BusWrite::EnableIdModel(
            match mode {
                PersonSensorMode::Standby => true,
                PersonSensorMode::Continuous => id_enabled,
            },
        ),
    ]
}

impl<I2C, INT> BuilderView<I2C, INT> {
    /// The handshake that finalizing in `mode` starts: same bus, same
    /// interrupt line, and the plan of that mode.
    pub open spec fn handshake(self, mode: PersonSensorMode) -> HandshakeView<I2C, INT> {
        HandshakeView {
            bus: self.bus,
            interrupt: self.interrupt,
            plan: bring_up_plan(mode, self.id_enabled),
        }
    }

    /// When both writes go through, exactly the two writes of the plan were
    /// attempted, mode first, and the driver holds the builder's bus and
    /// interrupt line with checksum validation on.
    pub proof fn lemma_bring_up_succeeds<E>(
        self,
        mode: PersonSensorMode,
        answers: Seq<Result<(), E>>,
    )
        requires
            answers.len() >= 2,
            answers[0] is Ok,
            answers[1] is Ok,
        ensures
            self.handshake(mode).run(answers).writes == bring_up_plan(mode, self.id_enabled),
            self.handshake(mode).run(answers).result == Ok::<SensorView<I2C, INT>, E>(
                SensorView::fresh(self.bus, self.interrupt),
            ),
    {
        self.handshake(mode).lemma_run_succeeds(answers);
    }

    /// When the mode-select write fails, the identification write is never
    /// attempted and the result is that very error.
    pub proof fn lemma_mode_select_failure<E>(
        self,
        mode: PersonSensorMode,
        answers: Seq<Result<(), E>>,
    )
        requires
            answers.len() >= 1,
            answers[0] is Err,
        ensures
            self.handshake(mode).run(answers).writes == seq![BusWrite::SetMode(mode)],
            self.handshake(mode).run(answers).result == Err::<SensorView<I2C, INT>, E>(
                answers[0]->Err_0,
            ),
    {
        self.handshake(mode).lemma_run_stops_at_failure(answers, 0);
    }

    /// When the identification write fails after the mode went through, both
    /// writes were attempted and the result is the second write's error.
    pub proof fn lemma_id_model_failure<E>(
        self,
        mode: PersonSensorMode,
        answers: Seq<Result<(), E>>,
    )
        requires
            answers.len() >= 2,
            answers[0] is Ok,
            answers[1] is Err,
        ensures
            self.handshake(mode).run(answers).writes == bring_up_plan(mode, self.id_enabled),
            self.handshake(mode).run(answers).result == Err::<SensorView<I2C, INT>, E>(
                answers[1]->Err_0,
            ),
    {
        self.handshake(mode).lemma_run_stops_at_failure(answers, 1);
    }
}

impl<I2C> PersonSensorBuilder<I2C, (), ()> {
    /// Starts a builder for a sensor in standby mode. Nothing is written to
    /// the bus.
    pub fn new_standby(
        i2c: I2C,
        id_enabled: bool,
    ) -> (builder: PersonSensorBuilder<I2C, (), StandbyMode>)
        ensures
            builder@ == (BuilderView { bus: i2c, interrupt: (), id_enabled }),
    {
        PersonSensorBuilder { i2c, interrupt: (), mode: PhantomData, id_enabled }
    }

    /// Starts a builder for a sensor in continuous capture mode. Nothing is
    /// written to the bus.
    pub fn new_continuous(
        i2c: I2C,
        id_enabled: bool,
    ) -> (builder: PersonSensorBuilder<I2C, (), ContinuousCaptureMode>)
        ensures
            builder@ == (BuilderView { bus: i2c, interrupt: (), id_enabled }),
    {
        PersonSensorBuilder { i2c, interrupt: (), mode: PhantomData, id_enabled }
    }
}

impl<I2C, MODE> PersonSensorBuilder<I2C, (), MODE> {
    /// Sets an interrupt pin to allow waiting for new sensor results. The
    /// builder keeps its bus, its flag and its mode; nothing is written to the
    /// bus.
    pub fn with_interrupt<INT>(
        self,
        interrupt: INT,
    ) -> (builder: PersonSensorBuilder<I2C, INT, MODE>)
        ensures
            builder@ == (BuilderView {
                bus: self@.bus,
                interrupt,
                id_enabled: self@.id_enabled,
            }),
    {
        PersonSensorBuilder {
            i2c: self.i2c,
            interrupt,
            mode: self.mode,
            id_enabled: self.id_enabled,
        }
    }
}

impl<I2C, INT> PersonSensorBuilder<I2C, INT, ContinuousCaptureMode> {
    /// Starts the bring-up in continuous mode: the mode-select write is
    /// pending, and the identification model will follow the builder's flag.
    pub fn build(self) -> (handshake: Handshake<I2C, INT, ContinuousCaptureMode>)
        ensures
            handshake@ == self@.handshake(PersonSensorMode::Continuous),
    {
        Handshake::begin(
            self.i2c,
            self.interrupt,
            BusWrite::SetMode(PersonSensorMode::Continuous),
            BusWrite::EnableIdModel(self.id_enabled),
        )
    }
}

impl<I2C, INT> PersonSensorBuilder<I2C, INT, StandbyMode> {
    /// Starts the bring-up in standby mode: the mode-select write is pending,
    /// and the identification model will be switched on.
    ///
    /// Unlike continuous capture, standby does not look at the builder's
    /// `id_enabled` flag. A caller that wants the model off in standby has to
    /// switch it off once the driver is ready.
    pub fn build(self) -> (handshake: Handshake<I2C, INT, StandbyMode>)
        ensures
            handshake@ == self@.handshake(PersonSensorMode::Standby),
    {
        Handshake::begin(
            self.i2c,
            self.interrupt,
            BusWrite::SetMode(PersonSensorMode::Standby),
            BusWrite::EnableIdModel(true),
        )
    }
}

} // verus!
