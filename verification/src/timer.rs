//! The divider and the programmable counter.

use vstd::prelude::*;
use crate::interrupts::{lemma_request_twice, Interrupt, InterruptQueue};

verus! {

/// Machine cycles between two increments of the divider.
pub const DIVIDER_PERIOD: u32 = 0x64;

/// The divider register, the counter with its modulo, and the cycles that
/// have not yet added up to an increment of either.
#[derive(Debug, Clone, Copy, PartialEq, Eq, Structural)]
pub struct Timer {
    pub counter: u8,
    pub modulo: u8,
    pub divider: u8,
    /// The control register as last written: bit 2 starts and stops the
    /// counter, bits 0 and 1 choose its period.
    pub control: u8,
    pub cycles: u32,
    pub div_cycles: u32,
}

/// Machine cycles between two increments of the counter, chosen by the low
/// two bits of the control register.
pub open spec fn period_of(select: u8) -> int {
    if select % 4 == 0 {
        256
    } else if select % 4 == 1 {
        4
    } else if select % 4 == 2 {
        16
    } else {
        64
    }
}

/// The counter after one increment: at 0xFF it overflows and takes the
/// value of the modulo.
pub open spec fn next_counter(counter: u8, modulo: u8) -> u8 {
    if counter == 0xFF {
        modulo
    } else {
        (counter + 1) as u8
    }
}

/// The counter after `ticks` increments.
pub open spec fn counter_after(counter: u8, modulo: u8, ticks: nat) -> u8
    decreases ticks,
{
    if ticks == 0 {
        counter
    } else {
        counter_after(next_counter(counter, modulo), modulo, (ticks - 1) as nat)
    }
}

/// Whether the counter overflows at least once within `ticks` increments.
pub open spec fn overflows_within(counter: u8, modulo: u8, ticks: nat) -> bool
    decreases ticks,
{
    if ticks == 0 {
        false
    } else {
        counter == 0xFF || overflows_within(next_counter(counter, modulo), modulo, (ticks - 1) as nat)
    }
}

impl Timer {
    /// Whether the counter is running.
    pub open spec fn enabled(self) -> bool {
        self.control & 0x04 != 0
    }

    /// The number of counter increments that fall into the next `cycles`
    /// machine cycles. A stopped timer counts none.
    pub open spec fn ticks_in(self, cycles: u32) -> nat {
        if self.enabled() {
            ((self.cycles + cycles) / period_of(self.control)) as nat
        } else {
            0
        }
    }

    /// The timer after `cycles` machine cycles.
    pub open spec fn stepped(self, cycles: u32) -> Timer {
        let div_total = self.div_cycles + cycles;
        let divided = Timer {
            divider: ((self.divider + div_total / (DIVIDER_PERIOD as int)) % 256) as u8,
            div_cycles: (div_total % (DIVIDER_PERIOD as int)) as u32,
            ..self
        };
        if self.enabled() {
            Timer {
                counter: counter_after(self.counter, self.modulo, self.ticks_in(cycles)),
                cycles: ((self.cycles + cycles) % period_of(self.control)) as u32,
                ..divided
            }
        } else {
            divided
        }
    }

    /// Whether the counter overflows within the next `cycles` machine cycles.
    pub open spec fn overflows(self, cycles: u32) -> bool {
        overflows_within(self.counter, self.modulo, self.ticks_in(cycles))
    }

    /// The timer after `byte` was written to the control register.
    pub open spec fn with_control(self, byte: u8) -> Timer {
        Timer { control: byte, ..self }
    }

    /// The timer as it is made: stopped, with all registers zero.
    pub open spec fn new_spec() -> Timer {
        Timer {
            counter: 0,
            modulo: 0,
            divider: 0,
            control: 0,
            cycles: 0,
            div_cycles: 0,
        }
    }

    /// A stopped timer with all registers zero.
    pub fn new() -> (t: Timer)
        ensures
            t == Timer::new_spec(),
    {
        Timer {
            counter: 0,
            modulo: 0,
            divider: 0,
            control: 0,
            cycles: 0,
            div_cycles: 0,
        }
    }

    /// The period of the counter in machine cycles.
    pub fn period(&self) -> (p: u32)
        ensures
            p == period_of(self.control),
            p == 256 || p == 4 || p == 16 || p == 64,
    {
        let select = self.control % 4;
        if select == 0 {
            256
        } else if select == 1 {
            4
        } else if select == 2 {
            16
        } else {
            64
        }
    }

    /// Lets `cycles` machine cycles pass. The divider runs whether or not
    /// the counter is enabled. Each overflow of the counter reloads it from
    /// the modulo and requests the timer interrupt.
    pub fn step(&mut self, cycles: u32, interrupts: &mut InterruptQueue)
        ensures
            *final(self) == old(self).stepped(cycles),
            *final(interrupts) == old(interrupts).request_if(
                old(self).overflows(cycles),
                Interrupt::Timer,
            ),
    {
        let div_total: u64 = self.div_cycles as u64 + cycles as u64;
        self.divider = ((self.divider as u64 + div_total / (DIVIDER_PERIOD as u64)) % 256) as u8;
        self.div_cycles = (div_total % (DIVIDER_PERIOD as u64)) as u32;
        if (self.control & 0x04) == 0 {
            return ;
        }
        let period = self.period() as u64;
        let total: u64 = self.cycles as u64 + cycles as u64;
        self.cycles = (total % period) as u32;
        let mut ticks: u64 = total / period;
        let ghost all_ticks = ticks as nat;
        let ghost start = old(self).counter;
        let ghost modulo = self.modulo;
        let ghost queue = *old(interrupts);
        let ghost mut raised = false;
        while ticks > 0
            invariant
                self.modulo == modulo,
                counter_after(self.counter, modulo, ticks as nat) == counter_after(
                    start,
                    modulo,
                    all_ticks,
                ),
                (raised || overflows_within(self.counter, modulo, ticks as nat))
                    == overflows_within(start, modulo, all_ticks),
                *interrupts == if raised {
                    queue.with_request(Interrupt::Timer, true)
                } else {
                    queue
                },
                self.divider == old(self).stepped(cycles).divider,
                self.div_cycles == old(self).stepped(cycles).div_cycles,
                self.cycles == old(self).stepped(cycles).cycles,
                self.control == old(self).control,
            decreases ticks,
        {
            ticks = ticks - 1;
            if self.counter == 0xFF {
                self.counter = self.modulo;
                interrupts.request_interrupt(Interrupt::Timer);
                proof {
                    lemma_request_twice(queue, Interrupt::Timer);
                    raised = true;
                }
            } else {
                self.counter = self.counter + 1;
            }
        }
    }

    /// Sets the divider back to zero, as any write to its register does.
    pub fn reset_divider(&mut self)
        ensures
            *final(self) == (Timer { divider: 0, ..*old(self) }),
    {
        self.divider = 0;
    }

    /// Sets the counter.
    pub fn set_counter(&mut self, value: u8)
        ensures
            *final(self) == (Timer { counter: value, ..*old(self) }),
    {
        self.counter = value;
    }

    /// Sets the modulo that the counter starts from again after an overflow.
    pub fn set_modulo(&mut self, value: u8)
        ensures
            *final(self) == (Timer { modulo: value, ..*old(self) }),
    {
        self.modulo = value;
    }

    /// Takes a byte written to the control register.
    pub fn mode_from_byte(&mut self, byte: u8)
        ensures
            *final(self) == old(self).with_control(byte),
    {
        self.control = byte;
    }
}

/// A counter at 0xFF overflows on its next increment: it takes the value of
/// the modulo and the interrupt is due. Below 0xFF an increment adds one and
/// raises nothing.
pub proof fn lemma_overflow_reloads(counter: u8, modulo: u8)
    ensures
        counter_after(0xFF, modulo, 1) == modulo,
        overflows_within(0xFF, modulo, 1),
        counter < 0xFF ==> counter_after(counter, modulo, 1) == counter + 1,
        counter < 0xFF ==> !overflows_within(counter, modulo, 1),
{
    reveal_with_fuel(counter_after, 2);
    reveal_with_fuel(overflows_within, 2);
}

/// Increments add up: `a + b` of them are `a`, then `b` more.
pub proof fn lemma_ticks_add(counter: u8, modulo: u8, a: nat, b: nat)
    ensures
        counter_after(counter, modulo, a + b) == counter_after(
            counter_after(counter, modulo, a),
            modulo,
            b,
        ),
        overflows_within(counter, modulo, a + b) == (overflows_within(counter, modulo, a)
            || overflows_within(counter_after(counter, modulo, a), modulo, b)),
    decreases a,
{
    if a > 0 {
        lemma_ticks_add(next_counter(counter, modulo), modulo, (a - 1) as nat, b);
    }
}

/// Counting the periods in a stretch of time in two parts gives the same
/// count, and leaves the same remainder, as counting them at once.
proof fn lemma_periods_add(elapsed: int, more: int, period: int)
    requires
        0 <= elapsed,
        0 <= more,
        period == 4 || period == 16 || period == 64 || period == 256 || period == DIVIDER_PERIOD,
    ensures
        elapsed / period + (elapsed % period + more) / period == (elapsed + more) / period,
        (elapsed % period + more) % period == (elapsed + more) % period,
{
    if period == 4 {
        assert(elapsed / 4 + (elapsed % 4 + more) / 4 == (elapsed + more) / 4);
    } else if period == 16 {
        assert(elapsed / 16 + (elapsed % 16 + more) / 16 == (elapsed + more) / 16);
    } else if period == 64 {
        assert(elapsed / 64 + (elapsed % 64 + more) / 64 == (elapsed + more) / 64);
    } else if period == 256 {
        assert(elapsed / 256 + (elapsed % 256 + more) / 256 == (elapsed + more) / 256);
    } else {
        assert(elapsed / 100 + (elapsed % 100 + more) / 100 == (elapsed + more) / 100);
    }
}

/// Time may be handed to the timer in pieces: two steps in a row leave the
/// timer as one step of their sum does, and request the interrupt if that
/// one step does.
pub proof fn lemma_steps_add(timer: Timer, first: u32, second: u32)
    requires
        first + second <= u32::MAX,
    ensures
        timer.stepped(first).stepped(second) == timer.stepped((first + second) as u32),
        timer.overflows((first + second) as u32) == (timer.overflows(first) || timer.stepped(
            first,
        ).overflows(second)),
{
    let period = period_of(timer.control);
    let after = timer.stepped(first);
    let twice = after.stepped(second);
    let both = timer.stepped((first + second) as u32);
    assert(after.control == timer.control && after.modulo == timer.modulo);

    let div_first = (timer.div_cycles + first) / (DIVIDER_PERIOD as int);
    let div_second = (after.div_cycles + second) / (DIVIDER_PERIOD as int);
    lemma_periods_add(timer.div_cycles + first, second as int, DIVIDER_PERIOD as int);
    assert(after.div_cycles == (timer.div_cycles + first) % (DIVIDER_PERIOD as int));
    assert(twice.div_cycles == both.div_cycles);
    assert(div_first + div_second == (timer.div_cycles + first + second) / (DIVIDER_PERIOD as int));
    assert(after.divider == (timer.divider + div_first) % 256);
    assert(twice.divider == (after.divider + div_second) % 256);
    assert(twice.divider == both.divider) by {
        lemma_wrapped_sum(timer.divider as int, div_first, div_second);
    }

    if timer.enabled() {
        assert(after.enabled());
        let ticks_first = timer.ticks_in(first);
        let ticks_second = after.ticks_in(second);
        lemma_periods_add(timer.cycles + first, second as int, period);
        assert(after.cycles == (timer.cycles + first) % period);
        assert(ticks_first == (timer.cycles + first) / period);
        assert(ticks_second == (after.cycles + second) / period);
        assert(ticks_first + ticks_second == timer.ticks_in((first + second) as u32));
        assert(twice.cycles == both.cycles);
        lemma_ticks_add(timer.counter, timer.modulo, ticks_first, ticks_second);
        assert(twice.counter == both.counter);
    } else {
        assert(!after.enabled());
    }
}

/// Wrapping a sum at 256 on the way does not change where it ends.
proof fn lemma_wrapped_sum(start: int, first: int, second: int)
    requires
        0 <= start,
        0 <= first,
        0 <= second,
    ensures
        ((start + first) % 256 + second) % 256 == (start + first + second) % 256,
{
}

} // verus!
