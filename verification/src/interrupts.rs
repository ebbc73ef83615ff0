//! The interrupt controller: one request bit and one enable bit per source.
//!
//! Both sets of bits are kept as the hardware packs them: bit 0 VBlank,
//! bit 1 LCD, bit 2 timer, bit 4 joypad. Bit 3 and bits 5 to 7 belong to no
//! source and read as zero.

use vstd::prelude::*;

verus! {

/// The bits that belong to a source.
pub const SOURCE_BITS: u8 = 0x17;

/// The interrupt sources, highest priority first.
#[derive(Debug, Clone, Copy, PartialEq, Eq, Structural)]
pub enum Interrupt {
    VBlank,
    Lcd,
    Timer,
    Joypad,
}

impl Interrupt {
    /// The address the CPU jumps to when it serves this source.
    pub open spec fn vector(self) -> u16 {
        match self {
            Interrupt::VBlank => 0x40,
            Interrupt::Lcd => 0x48,
            Interrupt::Timer => 0x50,
            Interrupt::Joypad => 0x60,
        }
    }

    /// The bit of this source in the two registers.
    pub open spec fn mask(self) -> u8 {
        match self {
            Interrupt::VBlank => 0x01,
            Interrupt::Lcd => 0x02,
            Interrupt::Timer => 0x04,
            Interrupt::Joypad => 0x10,
        }
    }

    /// The bit of this source in the two registers.
    pub fn bit(self) -> (mask: u8)
        ensures
            mask == self.mask(),
    {
        match self {
            Interrupt::VBlank => 0x01,
            Interrupt::Lcd => 0x02,
            Interrupt::Timer => 0x04,
            Interrupt::Joypad => 0x10,
        }
    }
}

/// Request and enable bits of the four sources.
#[derive(Debug, Clone, Copy, PartialEq, Eq, Structural)]
pub struct InterruptQueue {
    pub requested: u8,
    pub enabled: u8,
}

/// The source of highest priority among the bits of `waiting`.
pub open spec fn first_source(waiting: u8) -> Option<Interrupt> {
    if waiting & 0x01 != 0 {
        Some(Interrupt::VBlank)
    } else if waiting & 0x02 != 0 {
        Some(Interrupt::Lcd)
    } else if waiting & 0x04 != 0 {
        Some(Interrupt::Timer)
    } else if waiting & 0x10 != 0 {
        Some(Interrupt::Joypad)
    } else {
        None
    }
}

impl InterruptQueue {
    /// The sources that are both requested and enabled, as bits.
    pub open spec fn waiting(self) -> u8 {
        self.requested & self.enabled & SOURCE_BITS
    }

    /// Whether some source is both requested and enabled.
    pub open spec fn pending(self) -> bool {
        self.waiting() != 0
    }

    /// The pending source of highest priority, if any.
    pub open spec fn first_pending(self) -> Option<Interrupt> {
        first_source(self.waiting())
    }

    /// Whether `source` is requested.
    pub open spec fn requested(self, source: Interrupt) -> bool {
        self.requested & source.mask() != 0
    }

    /// Whether `source` is enabled.
    pub open spec fn is_enabled(self, source: Interrupt) -> bool {
        self.enabled & source.mask() != 0
    }

    /// The queue with the request bit of `source` set or cleared.
    pub open spec fn with_request(self, source: Interrupt, value: bool) -> InterruptQueue {
        InterruptQueue {
            requested: if value {
                self.requested | source.mask()
            } else {
                self.requested & !source.mask()
            },
            ..self
        }
    }

    /// The queue after `source` was requested, if `condition` holds.
    pub open spec fn request_if(self, condition: bool, source: Interrupt) -> InterruptQueue {
        if condition {
            self.with_request(source, true)
        } else {
            self
        }
    }

    /// The queue after its first pending source was taken out.
    pub open spec fn popped(self) -> InterruptQueue {
        match self.first_pending() {
            Some(s) => self.with_request(s, false),
            None => self,
        }
    }

    /// The request bits as the IF register shows them.
    pub open spec fn request_byte(self) -> u8 {
        self.requested & SOURCE_BITS
    }

    /// The enable bits as the IE register shows them.
    pub open spec fn enable_byte(self) -> u8 {
        self.enabled & SOURCE_BITS
    }

    /// The queue after `byte` was written to the IF register.
    pub open spec fn with_request_byte(self, byte: u8) -> InterruptQueue {
        InterruptQueue { requested: byte, ..self }
    }

    /// The queue after `byte` was written to the IE register.
    pub open spec fn with_enable_byte(self, byte: u8) -> InterruptQueue {
        InterruptQueue { enabled: byte, ..self }
    }

    /// The queue as it is made: nothing requested and nothing enabled.
    pub open spec fn new_spec() -> InterruptQueue {
        InterruptQueue { requested: 0, enabled: 0 }
    }

    /// A queue with nothing requested and nothing enabled.
    pub fn new() -> (q: InterruptQueue)
        ensures
            q == InterruptQueue::new_spec(),
    {
        InterruptQueue { requested: 0, enabled: 0 }
    }

    /// Whether an interrupt waits to be served.
    pub fn peek(&self) -> (r: bool)
        ensures
            r == self.pending(),
            r == self.first_pending().is_some(),
    {
        proof {
            lemma_first_source(self.requested, self.enabled);
        }
        (self.requested & self.enabled & SOURCE_BITS) != 0
    }

    /// Takes out the pending source of highest priority and clears its
    /// request bit. Without a pending source nothing changes.
    pub fn pop(&mut self) -> (r: Option<Interrupt>)
        ensures
            r == old(self).first_pending(),
            *final(self) == old(self).popped(),
            r.is_some() == old(self).pending(),
    {
        proof {
            lemma_first_source(self.requested, self.enabled);
        }
        let waiting = self.requested & self.enabled & SOURCE_BITS;
        if (waiting & 0x01) != 0 {
            self.requested = self.requested & !0x01u8;
            Some(Interrupt::VBlank)
        } else if (waiting & 0x02) != 0 {
            self.requested = self.requested & !0x02u8;
            Some(Interrupt::Lcd)
        } else if (waiting & 0x04) != 0 {
            self.requested = self.requested & !0x04u8;
            Some(Interrupt::Timer)
        } else if (waiting & 0x10) != 0 {
            self.requested = self.requested & !0x10u8;
            Some(Interrupt::Joypad)
        } else {
            None
        }
    }

    /// Sets the request bit of `interrupt`.
    pub fn request_interrupt(&mut self, interrupt: Interrupt)
        ensures
            *final(self) == old(self).with_request(interrupt, true),
    {
        self.requested = self.requested | interrupt.bit();
    }

    /// Loads the request bits from a byte written to the IF register.
    pub fn from_byte(&mut self, byte: u8)
        ensures
            *final(self) == old(self).with_request_byte(byte),
    {
        self.requested = byte;
    }

    /// Loads the enable bits from a byte written to the IE register.
    pub fn flags_from_byte(&mut self, byte: u8)
        ensures
            *final(self) == old(self).with_enable_byte(byte),
    {
        self.enabled = byte;
    }

    /// The IF register.
    pub fn as_byte(&self) -> (byte: u8)
        ensures
            byte == self.request_byte(),
    {
        self.requested & SOURCE_BITS
    }

    /// The IE register.
    pub fn flags_as_byte(&self) -> (byte: u8)
        ensures
            byte == self.enable_byte(),
    {
        self.enabled & SOURCE_BITS
    }
}

proof fn lemma_first_source(requested: u8, enabled: u8)
    by (bit_vector)
    ensures
        (requested & enabled & 0x17u8 != 0) == ((requested & enabled & 0x17u8) & 0x01 != 0 || (
        requested & enabled & 0x17u8) & 0x02 != 0 || (requested & enabled & 0x17u8) & 0x04 != 0 || (
        requested & enabled & 0x17u8) & 0x10 != 0),
        ((requested & enabled & 0x17u8) & 0x01 != 0) == (requested & 0x01 != 0 && enabled & 0x01
            != 0),
        ((requested & enabled & 0x17u8) & 0x02 != 0) == (requested & 0x02 != 0 && enabled & 0x02
            != 0),
        ((requested & enabled & 0x17u8) & 0x04 != 0) == (requested & 0x04 != 0 && enabled & 0x04
            != 0),
        ((requested & enabled & 0x17u8) & 0x10 != 0) == (requested & 0x10 != 0 && enabled & 0x10
            != 0),
{
}

proof fn lemma_request_bit(byte: u8, mask: u8, other: u8)
    by (bit_vector)
    requires
        mask == 0x01 || mask == 0x02 || mask == 0x04 || mask == 0x10,
        other == 0x01 || other == 0x02 || other == 0x04 || other == 0x10,
    ensures
        (byte | mask) & mask != 0,
        (byte & !mask) & mask == 0,
        other != mask ==> (byte | mask) & other == byte & other,
        other != mask ==> (byte & !mask) & other == byte & other,
        (byte & 0x17) & other == byte & other,
        (byte & 0x17) & 0xE8 == 0,
        (byte & 0x17) & 0x17 == byte & 0x17,
{
}

proof fn lemma_or_twice(byte: u8, mask: u8)
    by (bit_vector)
    ensures
        (byte | mask) | mask == byte | mask,
{
}

/// A source that is requested twice is requested.
pub proof fn lemma_request_twice(q: InterruptQueue, source: Interrupt)
    ensures
        q.with_request(source, true).with_request(source, true) == q.with_request(source, true),
{
    lemma_or_twice(q.requested, source.mask());
}

/// Setting or clearing the request of one source leaves the requests of the
/// other sources, and all enable bits, as they were.
pub proof fn lemma_request_touches_one_source(
    q: InterruptQueue,
    source: Interrupt,
    value: bool,
    other: Interrupt,
)
    ensures
        q.with_request(source, value).requested(source) == value,
        other != source ==> q.with_request(source, value).requested(other) == q.requested(other),
        q.with_request(source, value).is_enabled(other) == q.is_enabled(other),
{
    lemma_request_bit(q.requested, source.mask(), other.mask());
    lemma_request_bit(q.requested, source.mask(), source.mask());
}

/// Writing the IF register and reading it back gives the byte written,
/// without the bits that belong to no source; so does IE. Reading either
/// register and writing the byte back leaves every source as it was, and
/// bit 3 and bits 5 to 7 always read as zero.
pub proof fn lemma_register_round_trip(q: InterruptQueue, byte: u8, source: Interrupt)
    ensures
        q.with_request_byte(byte).request_byte() == byte & 0x17,
        q.with_enable_byte(byte).enable_byte() == byte & 0x17,
        q.with_request_byte(q.request_byte()).requested(source) == q.requested(source),
        q.with_enable_byte(q.enable_byte()).is_enabled(source) == q.is_enabled(source),
        q.with_request_byte(q.request_byte()).request_byte() == q.request_byte(),
        q.with_enable_byte(q.enable_byte()).enable_byte() == q.enable_byte(),
        q.request_byte() & 0xE8 == 0,
        q.enable_byte() & 0xE8 == 0,
{
    lemma_request_bit(q.requested, source.mask(), source.mask());
    lemma_request_bit(q.enabled, source.mask(), source.mask());
}

/// Sources are served in the order VBlank, LCD, timer, joypad: the source
/// that `pop` hands out is requested and enabled, no source before it is
/// both, and afterwards it is no longer requested.
pub proof fn lemma_pop_priority(q: InterruptQueue)
    ensures
        q.first_pending() is None <==> !q.pending(),
        q.pending() <==> exists|s: Interrupt| q.requested(s) && q.is_enabled(s),
        q.first_pending() matches Some(s) ==> {
            &&& q.requested(s) && q.is_enabled(s)
            &&& !q.popped().requested(s)
            &&& s != Interrupt::VBlank ==> !(q.requested(Interrupt::VBlank) && q.is_enabled(
                Interrupt::VBlank,
            ))
            &&& (s == Interrupt::Timer || s == Interrupt::Joypad) ==> !(q.requested(Interrupt::Lcd)
                && q.is_enabled(Interrupt::Lcd))
            &&& s == Interrupt::Joypad ==> !(q.requested(Interrupt::Timer) && q.is_enabled(
                Interrupt::Timer,
            ))
        },
{
    lemma_first_source(q.requested, q.enabled);
    match q.first_pending() {
        Some(s) => {
            lemma_request_bit(q.requested, s.mask(), s.mask());
            assert(q.requested(s) && q.is_enabled(s));
        },
        None => {
            assert forall|s: Interrupt| !(q.requested(s) && q.is_enabled(s)) by {
                match s {
                    Interrupt::VBlank => {},
                    Interrupt::Lcd => {},
                    Interrupt::Timer => {},
                    Interrupt::Joypad => {},
                }
            }
        },
    }
}

} // verus!
