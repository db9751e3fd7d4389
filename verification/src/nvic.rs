//! Interrupt numbers of the peripherals this crate drives, as positions in
//! the chip's interrupt vector table.  The vector table itself and the
//! interrupt controller are external collaborators; the engines only hand
//! these numbers out so the dispatcher can route an interrupt back to the
//! owning engine's handler.

use vstd::prelude::*;

verus! {

pub const DMA1_STREAM0: u32 = 11;
pub const DMA1_STREAM1: u32 = 12;
pub const DMA1_STREAM2: u32 = 13;
pub const DMA1_STREAM3: u32 = 14;
pub const DMA1_STREAM4: u32 = 15;
pub const DMA1_STREAM5: u32 = 16;
pub const DMA1_STREAM6: u32 = 17;
pub const TIM2: u32 = 28;
pub const TIM3: u32 = 29;
pub const TIM4: u32 = 30;
pub const USART1: u32 = 37;
pub const USART2: u32 = 38;
pub const USART3: u32 = 39;
pub const DMA1_STREAM7: u32 = 47;
pub const TIM5: u32 = 50;

} // verus!
