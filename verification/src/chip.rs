//! The chip's default peripheral set: one value owning every driver engine
//! of this layer, built in its reset state during bring-up.
//!
//! Interrupt dispatch — mapping a fired interrupt number to the owning
//! engine's handler, reading the hardware status it needs and delivering the
//! completions it returns to the registered clients — belongs to the board
//! glue around this crate, as do the processor-specific pieces (MPU, system
//! call boundary, sleep) of the chip trait.

use vstd::prelude::*;

use crate::gpio::{GpioPort, PortId};
use crate::tim::{Tim, TIMN};
use crate::usart::{Usart, UsartView, USART1_BASE, USART2_BASE, USART3_BASE};

verus! {

/// Every peripheral engine of the chip layer, owned in one place.
pub struct Stm32mp15xxDefaultPeripherals {
    pub usart1: Usart,
    pub usart2: Usart,
    pub usart3: Usart,
    pub tim2: Tim,
    pub tim3: Tim,
    pub tim4: Tim,
    pub tim5: Tim,
    pub gpioa: GpioPort,
    pub gpiob: GpioPort,
    pub gpiod: GpioPort,
    pub gpioh: GpioPort,
}

impl Stm32mp15xxDefaultPeripherals {
    /// Build every engine in its reset state.
    pub fn new() -> (r: Stm32mp15xxDefaultPeripherals)
        ensures
            r.usart1@ == UsartView::init(USART1_BASE),
            r.usart2@ == UsartView::init(USART2_BASE),
            r.usart3@ == UsartView::init(USART3_BASE),
            r.tim2 == Tim::spec_init(TIMN::TIM2),
            r.tim3 == Tim::spec_init(TIMN::TIM3),
            r.tim4 == Tim::spec_init(TIMN::TIM4),
            r.tim5 == Tim::spec_init(TIMN::TIM5),
            r.gpioa.port_id == PortId::GPIOA && !r.gpioa.pins_wired,
            r.gpiob.port_id == PortId::GPIOB && !r.gpiob.pins_wired,
            r.gpiod.port_id == PortId::GPIOD && !r.gpiod.pins_wired,
            r.gpioh.port_id == PortId::GPIOH && !r.gpioh.pins_wired,
    {
        Stm32mp15xxDefaultPeripherals {
            usart1: Usart::new_usart1(),
            usart2: Usart::new_usart2(),
            usart3: Usart::new_usart3(),
            tim2: Tim::new(TIMN::TIM2),
            tim3: Tim::new(TIMN::TIM3),
            tim4: Tim::new(TIMN::TIM4),
            tim5: Tim::new(TIMN::TIM5),
            gpioa: GpioPort::new(PortId::GPIOA),
            gpiob: GpioPort::new(PortId::GPIOB),
            gpiod: GpioPort::new(PortId::GPIOD),
            gpioh: GpioPort::new(PortId::GPIOH),
        }
    }

    /// Run the pin-to-port wiring step of every port, once all peripherals
    /// have their final place.
    pub fn setup_circular_deps(&mut self)
        ensures
            final(self).gpioa.pins_wired,
            final(self).gpiob.pins_wired,
            final(self).gpiod.pins_wired,
            final(self).gpioh.pins_wired,
            final(self).usart1 == old(self).usart1,
            final(self).usart2 == old(self).usart2,
            final(self).usart3 == old(self).usart3,
            final(self).tim2 == old(self).tim2,
            final(self).tim3 == old(self).tim3,
            final(self).tim4 == old(self).tim4,
            final(self).tim5 == old(self).tim5,
    {
        self.gpioa.setup_circular_deps();
        self.gpiob.setup_circular_deps();
        self.gpiod.setup_circular_deps();
        self.gpioh.setup_circular_deps();
    }
}

} // verus!
