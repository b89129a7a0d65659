//! Common small value types of the machine.
//!
//! Addresses and register indices are always masked to their significant
//! bits on construction — out-of-range high bits are silently dropped,
//! never an error — so a well-formed value can be used as an index without
//! any further check.

use vstd::prelude::*;

verus! {

/// A byte (8 bits).
pub type Byte = u8;

/// An absolute memory address.
///
/// Valid values are within `0x000..=0xFFF`; construction masks the input
/// to its low 12 bits.
#[derive(Debug, Copy, Clone, PartialEq, Eq, Structural)]
pub struct Addr(u16);

impl Addr {
    #[verifier::type_invariant]
    closed spec fn inv(self) -> bool {
        self.0 < 0x1000
    }

    /// Create a new `Addr`, ignoring any high bits.
    pub fn new(bits: u16) -> (r: Self)
        ensures
            r@ == bits % 0x1000,
    {
        Self::from(bits)
    }

    /// The address as a number; always below `0x1000`.
    pub fn get(self) -> (r: u16)
        ensures
            r == self@,
            r < 0x1000,
    {
        proof {
            use_type_invariant(self);
        }
        self.0
    }
}

impl View for Addr {
    type V = u16;

    closed spec fn view(&self) -> u16 {
        self.0
    }
}

impl From<u16> for Addr {
    /// Convert from a `u16` to an `Addr`, ignoring any high bits.
    fn from(bits: u16) -> (r: Self) {
        Self(bits % 0x1000)
    }
}

impl vstd::std_specs::convert::FromSpecImpl<u16> for Addr {
    open spec fn obeys_from_spec() -> bool {
        true
    }

    closed spec fn from_spec(bits: u16) -> Addr {
        Addr(bits % 0x1000)
    }
}

impl From<Addr> for usize {
    fn from(addr: Addr) -> (r: usize) {
        addr.0 as usize
    }
}

impl vstd::std_specs::convert::FromSpecImpl<Addr> for usize {
    open spec fn obeys_from_spec() -> bool {
        true
    }

    open spec fn from_spec(addr: Addr) -> usize {
        addr@ as usize
    }
}

/// A nibble (4 bits).
///
/// Valid values are within `0x0..=0xF`; construction masks the input to
/// its low 4 bits.
#[derive(Debug, Copy, Clone, PartialEq, Eq, Structural)]
pub struct Nibble(u8);

impl Nibble {
    #[verifier::type_invariant]
    closed spec fn inv(self) -> bool {
        self.0 < 0x10
    }

    /// Create a new `Nibble`, ignoring any high bits.
    pub fn new(bits: u8) -> (r: Self)
        ensures
            r@ == bits % 0x10,
    {
        Self::from(bits)
    }

    /// The nibble as a number; always below `0x10`.
    pub fn get(self) -> (r: u8)
        ensures
            r == self@,
            r < 0x10,
    {
        proof {
            use_type_invariant(self);
        }
        self.0
    }
}

impl View for Nibble {
    type V = u8;

    closed spec fn view(&self) -> u8 {
        self.0
    }
}

impl From<u8> for Nibble {
    /// Convert from a `u8` to a `Nibble`, ignoring any high bits.
    fn from(bits: u8) -> (r: Self) {
        Self(bits % 0x10)
    }
}

impl vstd::std_specs::convert::FromSpecImpl<u8> for Nibble {
    open spec fn obeys_from_spec() -> bool {
        true
    }

    closed spec fn from_spec(bits: u8) -> Nibble {
        Nibble(bits % 0x10)
    }
}

impl From<Nibble> for usize {
    fn from(nibble: Nibble) -> (r: usize) {
        nibble.0 as usize
    }
}

impl vstd::std_specs::convert::FromSpecImpl<Nibble> for usize {
    open spec fn obeys_from_spec() -> bool {
        true
    }

    open spec fn from_spec(nibble: Nibble) -> usize {
        nibble@ as usize
    }
}

} // verus!
