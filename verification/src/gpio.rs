//! GPIO ports and pins: the identities and the ownership structure.
//!
//! The per-pin register dispatch (mode, speed, pull-up/down, output type) is
//! mechanical datasheet transcription outside this crate's core; what is
//! modeled here is the structure the rest of the chip layer relies on: each
//! port owns its sixteen pins, a port's clock gate, and the wiring step that
//! in the original design gives every pin a back-reference to its enclosing
//! port after both are placed.  In this owned model a pin is reached through
//! its port, so the wiring step only records that it has run.

use vstd::prelude::*;

use crate::rcc::PeripheralClock;

verus! {

/// The GPIO ports this board uses.
#[derive(Clone, Copy, Debug, PartialEq, Eq, Structural)]
pub enum PortId {
    GPIOA,
    GPIOB,
    GPIOD,
    GPIOG,
    GPIOH,
}

/// A pin's position within its port.
#[derive(Clone, Copy, Debug, PartialEq, Eq, Structural)]
pub enum PinId {
    Pin00,
    Pin01,
    Pin02,
    Pin03,
    Pin04,
    Pin05,
    Pin06,
    Pin07,
    Pin08,
    Pin09,
    Pin10,
    Pin11,
    Pin12,
    Pin13,
    Pin14,
    Pin15,
}

/// GPIO pin mode.
#[derive(Clone, Copy, Debug, PartialEq, Eq, Structural)]
pub enum Mode {
    Input,
    GeneralPurposeOutputMode,
    AlternateFunctionMode,
    AnalogMode,
}

/// GPIO alternate function selection.
#[derive(Clone, Copy, Debug, PartialEq, Eq, Structural)]
pub enum AlternateFunction {
    AF0,
    AF1,
    AF2,
    AF3,
    AF4,
    AF5,
    AF6,
    AF7,
    AF8,
    AF9,
    AF10,
    AF11,
    AF12,
    AF13,
    AF14,
    AF15,
}

/// The pin at each position of a port's pin table.
pub open spec fn spec_pin_of_index(i: int) -> PinId {
    if i == 0 {
        PinId::Pin00
    } else if i == 1 {
        PinId::Pin01
    } else if i == 2 {
        PinId::Pin02
    } else if i == 3 {
        PinId::Pin03
    } else if i == 4 {
        PinId::Pin04
    } else if i == 5 {
        PinId::Pin05
    } else if i == 6 {
        PinId::Pin06
    } else if i == 7 {
        PinId::Pin07
    } else if i == 8 {
        PinId::Pin08
    } else if i == 9 {
        PinId::Pin09
    } else if i == 10 {
        PinId::Pin10
    } else if i == 11 {
        PinId::Pin11
    } else if i == 12 {
        PinId::Pin12
    } else if i == 13 {
        PinId::Pin13
    } else if i == 14 {
        PinId::Pin14
    } else {
        PinId::Pin15
    }
}

/// One pin of a port.
#[derive(Clone, Copy, Debug, PartialEq, Eq, Structural)]
pub struct GpioPin {
    pub pinid: PinId,
}

impl GpioPin {
    pub fn new(pinid: PinId) -> (r: GpioPin)
        ensures
            r.pinid == pinid,
    {
        GpioPin { pinid }
    }

    pub fn get_pinid(&self) -> (r: PinId)
        ensures
            r == self.pinid,
    {
        self.pinid
    }
}

/// One GPIO port: its identity, its clock gate, its sixteen pins, and
/// whether the pin-to-port wiring step has run.
pub struct GpioPort {
    pub port_id: PortId,
    pub clock: PeripheralClock,
    pub pins: Vec<GpioPin>,
    /// Whether [`GpioPort::setup_circular_deps`] has run; pin operations are
    /// only meaningful afterwards.
    pub pins_wired: bool,
}

impl GpioPort {
    pub fn new(port_id: PortId) -> (r: GpioPort)
        ensures
            r.port_id == port_id,
            r.clock.enabled,
            !r.pins_wired,
            r.pins@.len() == 16,
            forall|i: int| 0 <= i < 16 ==> (#[trigger] r.pins@[i]).pinid == spec_pin_of_index(i),
    {
        let mut pins: Vec<GpioPin> = Vec::new();
        pins.push(GpioPin::new(PinId::Pin00));
        pins.push(GpioPin::new(PinId::Pin01));
        pins.push(GpioPin::new(PinId::Pin02));
        pins.push(GpioPin::new(PinId::Pin03));
        pins.push(GpioPin::new(PinId::Pin04));
        pins.push(GpioPin::new(PinId::Pin05));
        pins.push(GpioPin::new(PinId::Pin06));
        pins.push(GpioPin::new(PinId::Pin07));
        pins.push(GpioPin::new(PinId::Pin08));
        pins.push(GpioPin::new(PinId::Pin09));
        pins.push(GpioPin::new(PinId::Pin10));
        pins.push(GpioPin::new(PinId::Pin11));
        pins.push(GpioPin::new(PinId::Pin12));
        pins.push(GpioPin::new(PinId::Pin13));
        pins.push(GpioPin::new(PinId::Pin14));
        pins.push(GpioPin::new(PinId::Pin15));
        GpioPort { port_id, clock: PeripheralClock::new(), pins, pins_wired: false }
    }

    pub fn is_enabled_clock(&self) -> (r: bool)
        ensures
            r == self.clock.enabled,
    {
        self.clock.is_enabled()
    }

    pub fn enable_clock(&self) {
        self.clock.enable();
    }

    pub fn disable_clock(&self) {
        self.clock.disable();
    }

    /// Run the wiring step that, in the original design, hands each pin a
    /// back-reference to its enclosing port once both have their final
    /// place.  Pins are reached through their owning port here, so the model
    /// records that the step has run.
    pub fn setup_circular_deps(&mut self)
        ensures
            final(self).pins_wired,
            final(self).port_id == old(self).port_id,
            final(self).clock == old(self).clock,
            final(self).pins@ == old(self).pins@,
    {
        self.pins_wired = true;
    }
}

} // verus!
