//! Timer driver engine: a free-running hardware counter and a one-shot
//! compare-based deadline scheduler.
//!
//! All ordering between ticks is wraparound-safe: two ticks are compared by
//! their wrapping difference, never by raw subtraction, so scheduling stays
//! correct across a counter wrap.  The hardware side of the peripheral — the
//! counter advancing and the compare match latching — is the [`Tim::tick`]
//! transition, so that everything proved of the engine covers every counter
//! state the hardware can produce.

use vstd::prelude::*;

use crate::nvic;
use crate::rcc::PeripheralClock;
use crate::ErrorCode;

verus! {

/// The hardware's minimum schedulable distance, in ticks: a compare value
/// closer to the counter than this could be reached before the write lands.
pub const MINIMUM_DT: u32 = 1;

/// Which general-purpose timer block a [`Tim`] drives.
#[derive(Clone, Copy, Debug, PartialEq, Eq, Structural)]
pub enum TIMN {
    TIM2,
    TIM3,
    TIM4,
    TIM5,
}

/// The timer register bits and words the engine reads and writes, as plain
/// values.  The prescaler and auto-reload programming that scales the
/// physical clock down to the tick rate is mechanical configuration and is
/// not modeled; the counter here advances one tick at a time and wraps at
/// its full 32-bit width.
#[derive(Clone, Copy, Debug, PartialEq, Eq, Structural)]
pub struct TimRegisters {
    /// CR1 CEN: counter enable.
    pub cen: bool,
    /// DIER CC1IE: compare-match interrupt enable.
    pub cc1ie: bool,
    /// SR CC1IF: latched compare-match flag.
    pub cc1if: bool,
    /// CNT: the free-running counter.
    pub cnt: u32,
    /// CCR1: the compare register holding the armed deadline.
    pub ccr1: u32,
}

/// The timer engine, together with the pending bit its interrupt line owns
/// at the interrupt controller.
#[derive(Clone, Copy, Debug, PartialEq, Eq, Structural)]
pub struct Tim {
    pub registers: TimRegisters,
    /// The interrupt controller's latched pending bit for this timer's line.
    pub nvic_pending: bool,
    /// This timer's interrupt number, for the dispatcher.
    pub irqn: u32,
    pub clock: PeripheralClock,
}

/// Wraparound-safe interval test: `now` lies in the half-open interval
/// `[start, end)` of the tick circle.
pub fn within_range(now: u32, start: u32, end: u32) -> (r: bool)
    ensures
        r == (now.wrapping_sub(start) < end.wrapping_sub(start)),
{
    now.wrapping_sub(start) < end.wrapping_sub(start)
}

impl Tim {
    /// The interrupt number of each timer block.
    pub open spec fn spec_irqn(n: TIMN) -> u32 {
        match n {
            TIMN::TIM2 => nvic::TIM2,
            TIMN::TIM3 => nvic::TIM3,
            TIMN::TIM4 => nvic::TIM4,
            TIMN::TIM5 => nvic::TIM5,
        }
    }

    /// One tick of the free-running counter: when the counter runs, it
    /// advances by one, wrapping at its width; reaching the compare value
    /// latches the match flag, and raises the interrupt pending bit when the
    /// compare interrupt is enabled.  This is the hardware's transition.
    pub open spec fn spec_tick(t: Tim) -> Tim {
        if !t.registers.cen {
            t
        } else {
            let cnt2 = t.registers.cnt.wrapping_add(1);
            let fired = cnt2 == t.registers.ccr1;
            Tim {
                registers: TimRegisters {
                    cnt: cnt2,
                    cc1if: t.registers.cc1if || fired,
                    ..t.registers
                },
                nvic_pending: t.nvic_pending || (fired && t.registers.cc1ie),
                ..t
            }
        }
    }

    /// The counter after `k` ticks.
    pub open spec fn spec_ticks(t: Tim, k: nat) -> Tim
        decreases k,
    {
        if k == 0 {
            t
        } else {
            Tim::spec_tick(Tim::spec_ticks(t, (k - 1) as nat))
        }
    }

    /// The deadline actually armed by [`Tim::set_alarm`]: the nominal expiry
    /// `reference + dt`, clamped to `now` when the reference was already
    /// stale, and pushed out by the hardware's minimum schedulable distance
    /// when closer to `now` than that.
    pub open spec fn spec_alarm_expire(now: u32, reference: u32, dt: u32) -> u32 {
        let nominal = reference.wrapping_add(dt);
        let clamped = if now.wrapping_sub(reference) < nominal.wrapping_sub(reference) {
            nominal
        } else {
            now
        };
        if clamped.wrapping_sub(now) < MINIMUM_DT {
            now.wrapping_add(MINIMUM_DT)
        } else {
            clamped
        }
    }

    /// State after [`Tim::set_alarm`]: the previous alarm disarmed and its
    /// pending interrupt cleared, then the clamped deadline written to the
    /// compare register and the compare interrupt enabled.
    pub open spec fn spec_set_alarm(t: Tim, reference: u32, dt: u32) -> Tim {
        Tim {
            registers: TimRegisters {
                ccr1: Tim::spec_alarm_expire(t.registers.cnt, reference, dt),
                cc1ie: true,
                ..t.registers
            },
            nvic_pending: false,
            ..t
        }
    }

    /// State after [`Tim::disarm`]: the compare interrupt disabled and any
    /// already-latched pending interrupt for this line cleared.
    pub open spec fn spec_disarm(t: Tim) -> Tim {
        Tim {
            registers: TimRegisters { cc1ie: false, ..t.registers },
            nvic_pending: false,
            ..t
        }
    }

    /// The reset state of a timer: counter stopped at zero, alarm disarmed,
    /// nothing latched or pending.
    pub open spec fn spec_init(n: TIMN) -> Tim {
        Tim {
            registers: TimRegisters { cen: false, cc1ie: false, cc1if: false, cnt: 0, ccr1: 0 },
            nvic_pending: false,
            irqn: Tim::spec_irqn(n),
            clock: PeripheralClock { enabled: true },
        }
    }

    pub fn new(n: TIMN) -> (r: Tim)
        ensures
            r == Tim::spec_init(n),
    {
        let irqn: u32 = match n {
            TIMN::TIM2 => nvic::TIM2,
            TIMN::TIM3 => nvic::TIM3,
            TIMN::TIM4 => nvic::TIM4,
            TIMN::TIM5 => nvic::TIM5,
        };
        Tim {
            registers: TimRegisters { cen: false, cc1ie: false, cc1if: false, cnt: 0, ccr1: 0 },
            nvic_pending: false,
            irqn,
            clock: PeripheralClock::new(),
        }
    }

    pub fn is_enabled_clock(&self) -> (r: bool)
        ensures
            r == self.clock.enabled,
    {
        self.clock.is_enabled()
    }

    pub fn enable_clock(&self) {
        self.clock.enable();
    }

    pub fn disable_clock(&self) {
        self.clock.disable();
    }

    /// Service a compare-match interrupt: acknowledge the latched flag and
    /// the pending bit at the interrupt controller.  The dispatcher then
    /// invokes the registered callback with no payload; a callback wanting
    /// the tick value re-reads [`Tim::now`] or [`Tim::get_alarm`].
    pub fn handle_interrupt(&mut self)
        ensures
            *final(self) == (Tim {
                registers: TimRegisters { cc1if: false, ..old(self).registers },
                nvic_pending: false,
                ..*old(self)
            }),
    {
        self.registers.cc1if = false;
        self.nvic_pending = false;
    }

    /// Start the counter.  The update event reinitializes it to zero; the
    /// prescaler that scales the peripheral clock down to the tick rate is
    /// applied by the same write and is not part of the model.
    pub fn start(&mut self)
        ensures
            *final(self) == (Tim {
                registers: TimRegisters { cen: true, cnt: 0, ..old(self).registers },
                ..*old(self)
            }),
    {
        self.registers.cnt = 0;
        self.registers.cen = true;
    }

    /// Stop the counter and clear a latched compare match.
    pub fn stop(&mut self) -> (r: Result<(), ErrorCode>)
        ensures
            r is Ok,
            *final(self) == (Tim {
                registers: TimRegisters { cen: false, cc1if: false, ..old(self).registers },
                ..*old(self)
            }),
    {
        self.registers.cen = false;
        self.registers.cc1if = false;
        Ok(())
    }

    /// Reset the counter to zero.
    pub fn reset(&mut self) -> (r: Result<(), ErrorCode>)
        ensures
            r is Ok,
            *final(self) == (Tim {
                registers: TimRegisters { cnt: 0, ..old(self).registers },
                ..*old(self)
            }),
    {
        self.registers.cnt = 0;
        Ok(())
    }

    pub fn is_running(&self) -> (r: bool)
        ensures
            r == self.registers.cen,
    {
        self.registers.cen
    }

    /// The current counter value: unsigned, fixed width, wraps to zero on
    /// overflow.
    pub fn now(&self) -> (r: u32)
        ensures
            r == self.registers.cnt,
    {
        self.registers.cnt
    }

    /// Arm the one-shot alarm at `reference + dt`, wraparound-safe.  When
    /// the current counter does not lie in `[reference, reference + dt)` the
    /// reference was already stale, and the expiry is clamped to now; an
    /// expiry closer than the hardware's minimum schedulable distance is
    /// pushed out by that minimum.  This guards a deadline computed slightly
    /// in the past and a compare value the counter could reach before the
    /// write lands.  The previous alarm is disarmed first.
    pub fn set_alarm(&mut self, reference: u32, dt: u32)
        ensures
            *final(self) == Tim::spec_set_alarm(*old(self), reference, dt),
            final(self).registers.ccr1.wrapping_sub(old(self).registers.cnt) >= MINIMUM_DT,
    {
        let mut expire = reference.wrapping_add(dt);
        let now = self.now();
        if !within_range(now, reference, expire) {
            expire = now;
        }
        if expire.wrapping_sub(now) < self.minimum_dt() {
            expire = now.wrapping_add(self.minimum_dt());
        }
        let _ = self.disarm();
        self.registers.ccr1 = expire;
        self.registers.cc1ie = true;
    }

    /// The armed compare value.
    pub fn get_alarm(&self) -> (r: u32)
        ensures
            r == self.registers.ccr1,
    {
        self.registers.ccr1
    }

    /// Disarm the alarm: disable the compare interrupt, then clear any
    /// already-latched pending interrupt for this source.  On hardware the
    /// two steps run under a global interrupt mask, so no match can latch
    /// between them and fire after the caller believes the alarm is off; in
    /// this sequential model the pair is atomic by construction.
    pub fn disarm(&mut self) -> (r: Result<(), ErrorCode>)
        ensures
            r is Ok,
            *final(self) == Tim::spec_disarm(*old(self)),
    {
        self.registers.cc1ie = false;
        self.nvic_pending = false;
        Ok(())
    }

    /// Whether the alarm is armed: the compare interrupt enable bit.
    pub fn is_armed(&self) -> (r: bool)
        ensures
            r == self.registers.cc1ie,
    {
        self.registers.cc1ie
    }

    /// The hardware's scheduling latency floor: callers must not request
    /// shorter deltas and expect exact timing.
    pub fn minimum_dt(&self) -> (r: u32)
        ensures
            r == MINIMUM_DT,
    {
        MINIMUM_DT
    }

    /// One tick of the hardware counter; see [`Tim::spec_tick`].
    pub fn tick(&mut self)
        ensures
            *final(self) == Tim::spec_tick(*old(self)),
    {
        if self.registers.cen {
            self.registers.cnt = self.registers.cnt.wrapping_add(1);
            if self.registers.cnt == self.registers.ccr1 {
                self.registers.cc1if = true;
                if self.registers.cc1ie {
                    self.nvic_pending = true;
                }
            }
        }
    }

    /// Advance the hardware counter by `n` ticks.
    pub fn advance(&mut self, n: u32)
        ensures
            *final(self) == Tim::spec_ticks(*old(self), n as nat),
    {
        let mut i: u32 = 0;
        while i < n
            invariant
                i <= n,
                *self == Tim::spec_ticks(*old(self), i as nat),
            decreases n - i,
        {
            self.tick();
            i = i + 1;
        }
    }
}

/// The counter is monotonic modulo wraparound: when fewer than half the
/// counter's range of ticks elapse between two reads, the wraparound
/// subtraction of the first read from the second equals the true elapsed
/// tick count.
pub proof fn lemma_now_monotonic(t: Tim, k: nat)
    requires
        t.registers.cen,
        k < 0x8000_0000,
    ensures
        Tim::spec_ticks(t, k).registers.cen,
        Tim::spec_ticks(t, k).registers.cnt.wrapping_sub(t.registers.cnt) == k,
    decreases k,
{
    if k > 0 {
        lemma_now_monotonic(t, (k - 1) as nat);
    }
}

/// A stale reference is not honored at its nominal deadline: when the
/// counter already left `[reference, reference + dt)`, the armed expiry is
/// exactly the minimum schedulable distance away, and the alarm fires —
/// match flag latched, interrupt pending — within that many ticks of the
/// call.
pub proof fn lemma_stale_reference_fires_within_minimum(t: Tim, reference: u32, dt: u32)
    requires
        t.registers.cen,
        !(t.registers.cnt.wrapping_sub(reference) < reference.wrapping_add(dt).wrapping_sub(
            reference,
        )),
    ensures
        Tim::spec_alarm_expire(t.registers.cnt, reference, dt) == t.registers.cnt.wrapping_add(
            MINIMUM_DT,
        ),
        Tim::spec_ticks(Tim::spec_set_alarm(t, reference, dt), MINIMUM_DT as nat).registers.cc1if,
        Tim::spec_ticks(Tim::spec_set_alarm(t, reference, dt), MINIMUM_DT as nat).nvic_pending,
{
    let armed = Tim::spec_set_alarm(t, reference, dt);
    assert(Tim::spec_ticks(armed, 1) == Tim::spec_tick(Tim::spec_ticks(armed, 0)));
    assert(Tim::spec_ticks(armed, 0) == armed);
}

/// An armed alarm fires exactly at its deadline.  From an armed state with
/// the interrupt line quiet, the compare match — flag latched, interrupt
/// pending — happens on the tick that reaches the compare value, at the
/// compare value's wrapping distance from the counter, and no interrupt
/// becomes pending on any earlier tick.
pub proof fn lemma_armed_alarm_fires_at_deadline(t: Tim, k: nat)
    requires
        t.registers.cen,
        t.registers.cc1ie,
        !t.nvic_pending,
        t.registers.ccr1 != t.registers.cnt,
        k <= t.registers.ccr1.wrapping_sub(t.registers.cnt),
    ensures
        Tim::spec_ticks(t, k).registers.cen,
        Tim::spec_ticks(t, k).registers.cc1ie,
        Tim::spec_ticks(t, k).registers.ccr1 == t.registers.ccr1,
        Tim::spec_ticks(t, k).registers.cnt == t.registers.cnt.wrapping_add(k as u32),
        k < t.registers.ccr1.wrapping_sub(t.registers.cnt) ==> !Tim::spec_ticks(t, k).nvic_pending,
        k == t.registers.ccr1.wrapping_sub(t.registers.cnt) ==> (Tim::spec_ticks(
            t,
            k,
        ).registers.cc1if && Tim::spec_ticks(t, k).nvic_pending),
    decreases k,
{
    if k > 0 {
        lemma_armed_alarm_fires_at_deadline(t, (k - 1) as nat);
    }
}

/// Disarming silences the alarm for good: immediately afterwards it reports
/// unarmed and no interrupt is pending — even if a match had already latched
/// before the disarm — and however far the hardware counter advances, no
/// interrupt becomes pending while the alarm stays disarmed.
pub proof fn lemma_disarm_silences(t: Tim, k: nat)
    ensures
        !Tim::spec_disarm(t).registers.cc1ie,
        !Tim::spec_disarm(t).nvic_pending,
        !Tim::spec_ticks(Tim::spec_disarm(t), k).registers.cc1ie,
        !Tim::spec_ticks(Tim::spec_disarm(t), k).nvic_pending,
    decreases k,
{
    if k > 0 {
        lemma_disarm_silences(t, (k - 1) as nat);
        assert(Tim::spec_ticks(Tim::spec_disarm(t), k) == Tim::spec_tick(
            Tim::spec_ticks(Tim::spec_disarm(t), (k - 1) as nat),
        ));
    }
}

} // verus!
