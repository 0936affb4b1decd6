//! The driver handle that a finished bring-up hands out, and the two modes it
//! can be tagged with.

use core::marker::PhantomData;
use vstd::prelude::*;

verus! {

/// Operating regime that a mode-select write puts the sensor in.
#[derive(Clone, Copy, Debug, PartialEq, Eq)]
pub enum PersonSensorMode {
    /// Lowest power; the sensor captures nothing until told to.
    Standby,
    /// The sensor captures and publishes results on its own.
    Continuous,
}

/// Type-level tag of a builder or driver in standby mode.
pub struct StandbyMode;

/// Type-level tag of a builder or driver in continuous capture mode.
pub struct ContinuousCaptureMode;

/// An initialized sensor: the bus it sits on, the interrupt line it was given
/// (`()` when none was), and whether result frames get their checksum checked.
pub struct PersonSensor<I2C, INT, MODE> {
    i2c: I2C,
    interrupt: INT,
    mode: PhantomData<MODE>,
    validate_checksum: bool,
}

/// What a [`PersonSensor`] is, apart from its mode tag.
pub struct SensorView<I2C, INT> {
    pub bus: I2C,
    pub interrupt: INT,
    pub validate_checksum: bool,
}

impl<I2C, INT, MODE> View for PersonSensor<I2C, INT, MODE> {
    type V = SensorView<I2C, INT>;

    closed spec fn view(&self) -> SensorView<I2C, INT> {
        SensorView {
            bus: self.i2c,
            interrupt: self.interrupt,
            validate_checksum: self.validate_checksum,
        }
    }
}

impl<I2C, INT> SensorView<I2C, INT> {
    /// The driver as it leaves bring-up: checksum validation is on.
    pub open spec fn fresh(bus: I2C, interrupt: INT) -> Self {
        SensorView { bus, interrupt, validate_checksum: true }
    }
}

impl<I2C, INT, MODE> PersonSensor<I2C, INT, MODE> {
    /// Wraps the two handles into a driver with checksum validation on.
    pub(crate) fn new(i2c: I2C, interrupt: INT) -> (sensor: Self)
        ensures
            sensor@ == SensorView::fresh(i2c, interrupt),
    {
        PersonSensor { i2c, interrupt, mode: PhantomData, validate_checksum: true }
    }

    /// Whether result frames get their checksum checked.
    pub fn validate_checksum(&self) -> (on: bool)
        ensures
            on == self@.validate_checksum,
    {
        self.validate_checksum
    }

    /// The bus, for the transfers that follow bring-up.
    pub fn bus_mut(&mut self) -> (bus: &mut I2C)
        ensures
            *bus == old(self)@.bus,
            final(self)@ == (SensorView { bus: *final(bus), ..old(self)@ }),
    {
        &mut self.i2c
    }

    /// The interrupt line, to wait on for new results.
    pub fn interrupt_mut(&mut self) -> (interrupt: &mut INT)
        ensures
            *interrupt == old(self)@.interrupt,
            final(self)@ == (SensorView { interrupt: *final(interrupt), ..old(self)@ }),
    {
        &mut self.interrupt
    }

    /// Gives the bus and the interrupt line back.
    pub fn release(self) -> (handles: (I2C, INT))
        ensures
            handles.0 == self@.bus,
            handles.1 == self@.interrupt,
    {
        (self.i2c, self.interrupt)
    }
}

} // verus!
