//! Zircon object signals as a plain bit mask.
//!
//! The kernel reports the state of an object (readable, writable, peer
//! closed, ...) as a 32-bit mask of signals. `Signals` holds that mask and
//! offers the set operations that the readiness logic needs; each one is
//! proved against its one-line meaning on the mask.
use vstd::prelude::*;

verus! {

/// Bit of `OBJECT_READABLE`: the object has data to read.
pub const OBJECT_READABLE_BITS: u32 = 0x1u32;

/// Bit of `OBJECT_WRITABLE`: the object accepts writes.
pub const OBJECT_WRITABLE_BITS: u32 = 0x2u32;

/// Bit of `OBJECT_PEER_CLOSED`: the other end of the object was closed.
pub const OBJECT_PEER_CLOSED_BITS: u32 = 0x4u32;

/// Every bit that names a signal: the object signals (low 24 bits) and the
/// user signals (high 8 bits) together cover the whole word.
pub const ALL_SIGNAL_BITS: u32 = 0xffff_ffffu32;

/// A set of signals, held as its bit mask.
#[derive(Clone, Copy, Debug, PartialEq, Eq, Structural)]
pub struct Signals {
    pub bits: u32,
}

/// `flag` is wholly set in `mask`.
pub open spec fn has_bits(mask: u32, flag: u32) -> bool {
    mask & flag == flag
}

/// The set holding only `OBJECT_READABLE`.
pub open spec fn readable() -> Signals {
    Signals { bits: OBJECT_READABLE_BITS }
}

/// The set holding only `OBJECT_WRITABLE`.
pub open spec fn writable() -> Signals {
    Signals { bits: OBJECT_WRITABLE_BITS }
}

/// The set holding only `OBJECT_PEER_CLOSED`.
pub open spec fn peer_closed() -> Signals {
    Signals { bits: OBJECT_PEER_CLOSED_BITS }
}

impl Signals {
    /// `self` holds every signal of `other`.
    pub open spec fn has(self, other: Signals) -> bool {
        has_bits(self.bits, other.bits)
    }

    /// The set with no signal.
    pub fn empty() -> (s: Signals)
        ensures
            s.bits == 0,
    {
        Signals { bits: 0 }
    }

    /// `OBJECT_READABLE`.
    pub fn object_readable() -> (s: Signals)
        ensures
            s == readable(),
    {
        Signals { bits: OBJECT_READABLE_BITS }
    }

    /// `OBJECT_WRITABLE`.
    pub fn object_writable() -> (s: Signals)
        ensures
            s == writable(),
    {
        Signals { bits: OBJECT_WRITABLE_BITS }
    }

    /// `OBJECT_PEER_CLOSED`.
    pub fn object_peer_closed() -> (s: Signals)
        ensures
            s == peer_closed(),
    {
        Signals { bits: OBJECT_PEER_CLOSED_BITS }
    }

    /// The set of the signals named in `bits`; bits that name no signal are
    /// dropped (there are none: every bit of the word names one).
    pub fn from_bits_truncate(bits: u32) -> (s: Signals)
        ensures
            s.bits == bits,
    {
        let masked: u32 = bits & ALL_SIGNAL_BITS;
        assert(bits & 0xffff_ffffu32 == bits) by (bit_vector);
        Signals { bits: masked }
    }

    /// The bit mask of the set.
    pub fn bits(&self) -> (b: u32)
        ensures
            b == self.bits,
    {
        self.bits
    }

    /// Whether `self` holds every signal of `other`.
    pub fn contains(&self, other: Signals) -> (r: bool)
        ensures
            r == self.has(other),
            r == (self.bits & other.bits == other.bits),
    {
        (self.bits & other.bits) == other.bits
    }

    /// The signals of either set.
    pub fn union(self, other: Signals) -> (s: Signals)
        ensures
            s.bits == self.bits | other.bits,
    {
        Signals { bits: self.bits | other.bits }
    }

    /// Adds the signals of `other` to `self`.
    pub fn insert(&mut self, other: Signals)
        ensures
            final(self).bits == old(self).bits | other.bits,
    {
        self.bits = self.bits | other.bits;
    }

    /// The signals that are not in `self`.
    pub fn complement(self) -> (s: Signals)
        ensures
            s.bits == !self.bits,
    {
        let c: u32 = !self.bits;
        Signals::from_bits_truncate(c)
    }
}

} // verus!
