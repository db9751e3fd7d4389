use stm32mp15xx::nvic;
use stm32mp15xx::tim::{Tim, TIMN, MINIMUM_DT};

#[test]
fn new_timer_is_stopped() {
    let t = Tim::new(TIMN::TIM2);
    assert!(!t.is_running());
    assert!(!t.is_armed());
    assert_eq!(t.now(), 0);
    assert_eq!(t.irqn, nvic::TIM2);
    assert!(t.is_enabled_clock());
}

#[test]
fn timer_irq_numbers() {
    assert_eq!(Tim::new(TIMN::TIM2).irqn, 28);
    assert_eq!(Tim::new(TIMN::TIM3).irqn, 29);
    assert_eq!(Tim::new(TIMN::TIM4).irqn, 30);
    assert_eq!(Tim::new(TIMN::TIM5).irqn, 50);
}

#[test]
fn counter_start_stop_reset() {
    let mut t = Tim::new(TIMN::TIM2);
    t.start();
    assert!(t.is_running());
    assert_eq!(t.now(), 0);
    t.advance(7);
    assert_eq!(t.now(), 7);
    assert!(t.stop().is_ok());
    assert!(!t.is_running());
    t.advance(5);
    assert_eq!(t.now(), 7, "a stopped counter does not advance");
    assert!(t.reset().is_ok());
    assert_eq!(t.now(), 0);
}

#[test]
fn minimum_dt_is_one_tick() {
    let t = Tim::new(TIMN::TIM2);
    assert_eq!(t.minimum_dt(), MINIMUM_DT);
    assert_eq!(t.minimum_dt(), 1);
}

#[test]
fn alarm_fires_at_nominal_deadline() {
    let mut t = Tim::new(TIMN::TIM2);
    t.start();
    t.advance(5);
    t.set_alarm(5, 10);
    assert!(t.is_armed());
    assert_eq!(t.get_alarm(), 15);

    t.advance(9);
    assert!(!t.nvic_pending, "one tick early: nothing fires");
    t.advance(1);
    assert!(t.registers.cc1if);
    assert!(t.nvic_pending);

    // The dispatcher routes the interrupt to the handler, which acknowledges
    // it and has the registered callback invoked.
    t.handle_interrupt();
    assert!(!t.registers.cc1if);
    assert!(!t.nvic_pending);
}

#[test]
fn stale_reference_fires_within_minimum_dt() {
    // set_alarm with a reference already behind now fires within minimum_dt
    // of the call, not at the stale nominal deadline.
    let mut t = Tim::new(TIMN::TIM2);
    t.start();
    t.advance(100);
    t.set_alarm(10, 20);
    assert_eq!(t.get_alarm(), 101, "clamped to now and pushed out by the minimum");
    t.advance(MINIMUM_DT);
    assert!(t.registers.cc1if);
    assert!(t.nvic_pending);
}

#[test]
fn zero_delta_fires_within_minimum_dt() {
    let mut t = Tim::new(TIMN::TIM2);
    t.start();
    t.advance(42);
    t.set_alarm(42, 0);
    assert_eq!(t.get_alarm(), 43);
    t.advance(1);
    assert!(t.nvic_pending);
}

#[test]
fn disarm_silences_even_latched_alarm() {
    // disarm() then is_armed() is false at once, and no completion fires
    // later even though a match had latched before the disarm.
    let mut t = Tim::new(TIMN::TIM2);
    t.start();
    t.set_alarm(0, 1);
    t.advance(1);
    assert!(t.nvic_pending, "the match latched before the disarm");

    assert!(t.disarm().is_ok());
    assert!(!t.is_armed());
    assert!(!t.nvic_pending, "the latched interrupt is cleared");

    t.advance(100_000);
    assert!(!t.nvic_pending, "nothing fires while disarmed");
    assert!(!t.is_armed());
}

#[test]
fn rearming_replaces_previous_alarm() {
    let mut t = Tim::new(TIMN::TIM2);
    t.start();
    t.set_alarm(0, 1000);
    t.advance(3);
    t.set_alarm(3, 10);
    assert_eq!(t.get_alarm(), 13);
    t.advance(10);
    assert!(t.nvic_pending);
}

#[test]
fn counter_wraps_and_difference_stays_true() {
    // Monotonic modulo wraparound: fewer than half the range elapsed, so the
    // wrapping difference equals the true elapsed tick count even across the
    // wrap.
    let mut t = Tim::new(TIMN::TIM2);
    t.start();
    t.registers.cnt = u32::MAX - 1;
    let before = t.now();
    t.advance(3);
    let after = t.now();
    assert_eq!(after, 1, "the counter wrapped through zero");
    assert_eq!(after.wrapping_sub(before), 3);
}

#[test]
fn alarm_fires_across_wraparound() {
    let mut t = Tim::new(TIMN::TIM2);
    t.start();
    t.registers.cnt = u32::MAX - 1;
    let now = t.now();
    t.set_alarm(now, 3);
    assert_eq!(t.get_alarm(), 1, "the deadline lies past the wrap");
    t.advance(2);
    assert!(!t.nvic_pending);
    t.advance(1);
    assert!(t.nvic_pending);
}

#[test]
fn stop_clears_latched_match() {
    let mut t = Tim::new(TIMN::TIM2);
    t.start();
    t.set_alarm(0, 2);
    t.advance(2);
    assert!(t.registers.cc1if);
    assert!(t.stop().is_ok());
    assert!(!t.registers.cc1if);
}
