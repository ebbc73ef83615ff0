use feox::interrupts::InterruptQueue;
use feox::timer::Timer;

#[test]
fn new_timer_is_stopped_and_zero() {
    let timer = Timer::new();
    assert_eq!(timer.counter, 0);
    assert_eq!(timer.modulo, 0);
    assert_eq!(timer.divider, 0);
    assert_eq!(timer.control, 0);
    assert_eq!(timer.period(), 256);
}

#[test]
fn control_byte_selects_the_period() {
    let mut timer = Timer::new();
    timer.mode_from_byte(0b100);
    assert_eq!(timer.period(), 256);
    timer.mode_from_byte(0b101);
    assert_eq!(timer.period(), 4);
    timer.mode_from_byte(0b110);
    assert_eq!(timer.period(), 16);
    timer.mode_from_byte(0b111);
    assert_eq!(timer.period(), 64);
}

#[test]
fn stopped_timer_does_not_count() {
    let mut timer = Timer::new();
    let mut interrupts = InterruptQueue::new();
    timer.mode_from_byte(0b001);
    timer.step(1000, &mut interrupts);
    assert_eq!(timer.counter, 0);
    assert_eq!(interrupts.as_byte(), 0);
}

#[test]
fn divider_runs_while_the_counter_is_stopped() {
    let mut timer = Timer::new();
    let mut interrupts = InterruptQueue::new();
    timer.step(99, &mut interrupts);
    assert_eq!(timer.divider, 0);
    timer.step(1, &mut interrupts);
    assert_eq!(timer.divider, 1);
    timer.step(250, &mut interrupts);
    assert_eq!(timer.divider, 3);
    assert_eq!(timer.div_cycles, 50);
}

#[test]
fn divider_wraps_at_256() {
    let mut timer = Timer::new();
    let mut interrupts = InterruptQueue::new();
    timer.divider = 0xFF;
    timer.step(100, &mut interrupts);
    assert_eq!(timer.divider, 0);
    timer.step(25_600, &mut interrupts);
    assert_eq!(timer.divider, 0);
    timer.step(25_700, &mut interrupts);
    assert_eq!(timer.divider, 1);
}

#[test]
fn reset_divider_sets_zero() {
    let mut timer = Timer::new();
    timer.divider = 0x5A;
    timer.reset_divider();
    assert_eq!(timer.divider, 0);
}

#[test]
fn counter_ticks_once_per_period() {
    let mut timer = Timer::new();
    let mut interrupts = InterruptQueue::new();
    timer.mode_from_byte(0b110);
    timer.step(15, &mut interrupts);
    assert_eq!(timer.counter, 0);
    timer.step(1, &mut interrupts);
    assert_eq!(timer.counter, 1);
    timer.step(40, &mut interrupts);
    assert_eq!(timer.counter, 3);
    assert_eq!(timer.cycles, 8);
    assert_eq!(interrupts.as_byte(), 0);
}

#[test]
fn overflow_reloads_modulo_and_requests_timer() {
    // The period of 16 machine cycles: two ticks in 32 cycles take the
    // counter from 0xFE over 0xFF back to the modulo, with one request.
    let mut timer = Timer::new();
    let mut interrupts = InterruptQueue::new();
    timer.mode_from_byte(0b110);
    timer.set_modulo(0xFE);
    timer.set_counter(0xFE);
    timer.step(16, &mut interrupts);
    assert_eq!(timer.counter, 0xFF);
    assert_eq!(interrupts.as_byte(), 0x00);
    timer.step(16, &mut interrupts);
    assert_eq!(timer.counter, 0xFE);
    assert_eq!(interrupts.as_byte(), 0x04);
}

#[test]
fn overflow_with_control_0b101_after_two_periods_of_four() {
    let mut timer = Timer::new();
    let mut interrupts = InterruptQueue::new();
    timer.mode_from_byte(0b101);
    timer.set_modulo(0xFE);
    timer.set_counter(0xFE);
    timer.step(4, &mut interrupts);
    assert_eq!(timer.counter, 0xFF);
    assert_eq!(interrupts.as_byte(), 0x00);
    timer.step(4, &mut interrupts);
    assert_eq!(timer.counter, 0xFE);
    assert_eq!(interrupts.as_byte(), 0x04);
}

#[test]
fn several_overflows_in_one_step() {
    let mut timer = Timer::new();
    let mut interrupts = InterruptQueue::new();
    timer.mode_from_byte(0b101);
    timer.set_modulo(0xFE);
    timer.set_counter(0xFE);
    // 32 machine cycles are eight ticks: FE FF FE FF FE FF FE FF FE.
    timer.step(32, &mut interrupts);
    assert_eq!(timer.counter, 0xFE);
    assert_eq!(interrupts.as_byte(), 0x04);
    timer.step(4, &mut interrupts);
    assert_eq!(timer.counter, 0xFF);
}

#[test]
fn one_step_equals_many_small_steps() {
    let mut whole = Timer::new();
    let mut parts = Timer::new();
    let mut first = InterruptQueue::new();
    let mut second = InterruptQueue::new();
    whole.mode_from_byte(0b111);
    parts.mode_from_byte(0b111);
    whole.set_modulo(0xF0);
    parts.set_modulo(0xF0);
    whole.step(50_000, &mut first);
    for _ in 0..50_000 {
        parts.step(1, &mut second);
    }
    assert_eq!(whole, parts);
    assert_eq!(first, second);
}
