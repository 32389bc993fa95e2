//! The mode of a file transfer: a small set of flags.

use vstd::prelude::*;

verus! {

/// The bit of the flag that makes a transfer a pull.
pub const READ_BIT: i32 = 0x1;

/// The bit of the flag that lets a transfer enter directories.
pub const RECURSIVE_BIT: i32 = 0x10;

/// Whether `bits` holds flags of a transfer and nothing else.
pub open spec fn known_bits(bits: i32) -> bool {
    bits == 0x0 || bits == 0x1 || bits == 0x10 || bits == 0x11
}

/// How a transfer runs: as a push or a pull, and with or without
/// directories.
///
/// A push has no bit of its own: it is the absence of the read bit. So the
/// modes are the push, the pull, and each of the two with the recursive flag.
#[derive(Debug, Clone, Copy, PartialEq, Eq, Structural)]
pub struct Mode {
    bits: i32,
}

impl Mode {
    #[verifier::type_invariant]
    spec fn only_known_bits(self) -> bool {
        known_bits(self.bits)
    }

    /// The flags as the engine takes them.
    pub closed spec fn bits_spec(&self) -> i32 {
        self.bits
    }

    /// The mode that holds the flags of both.
    pub closed spec fn union(self, other: Mode) -> Mode {
        Mode { bits: self.bits | other.bits }
    }

    /// Upload: the value 0.
    pub fn write() -> (m: Mode)
        ensures
            m.bits_spec() == 0x0,
    {
        Mode { bits: 0x0 }
    }

    /// Download: the value 1.
    pub fn read() -> (m: Mode)
        ensures
            m.bits_spec() == 0x1,
    {
        Mode { bits: READ_BIT }
    }

    /// Directories too: the value 16, to be joined to one of the other two.
    pub fn recursive() -> (m: Mode)
        ensures
            m.bits_spec() == 0x10,
    {
        Mode { bits: RECURSIVE_BIT }
    }

    /// The flags as the engine takes them: 0, 1, 16 or 17.
    #[verifier::when_used_as_spec(bits_spec)]
    pub fn bits(&self) -> (b: i32)
        ensures
            b == self.bits_spec(),
            known_bits(b),
    {
        proof {
            use_type_invariant(self);
        }
        self.bits
    }

    /// The mode with exactly these flags; `None` where `bits` holds a bit
    /// that is no flag.
    pub fn from_bits(bits: i32) -> (m: Option<Mode>)
        ensures
            m is Some <==> known_bits(bits),
            m matches Some(mode) ==> mode.bits_spec() == bits,
    {
        if bits == 0x0 || bits == 0x1 || bits == 0x10 || bits == 0x11 {
            Some(Mode { bits })
        } else {
            None
        }
    }

    /// Whether every flag of `other` is set.
    pub fn contains(&self, other: Mode) -> (b: bool)
        ensures
            b == (self.bits_spec() & other.bits_spec() == other.bits_spec()),
    {
        (self.bits & other.bits) == other.bits
    }

    /// Joining flags is the bitwise or of their values, and never leaves the
    /// four modes.
    pub proof fn lemma_union(a: Mode, b: Mode)
        requires
            known_bits(a.bits_spec()),
            known_bits(b.bits_spec()),
        ensures
            a.union(b).bits_spec() == a.bits_spec() | b.bits_spec(),
            known_bits(a.union(b).bits_spec()),
            b.bits_spec() == 0x0 ==> a.union(b) == a,
    {
        let x = a.bits;
        let y = b.bits;
        assert((x == 0x0 || x == 0x1 || x == 0x10 || x == 0x11) && (y == 0x0 || y == 0x1 || y
            == 0x10 || y == 0x11) ==> (x | y == 0x0 || x | y == 0x1 || x | y == 0x10 || x | y
            == 0x11)) by (bit_vector);
        assert(y == 0x0 ==> x | y == x) by (bit_vector);
    }
}

impl core::ops::BitOr for Mode {
    type Output = Mode;

    /// The mode that holds the flags of both.
    fn bitor(self, other: Mode) -> (m: Mode)
        ensures
            m.bits() == self.bits() | other.bits(),
    {
        proof {
            use_type_invariant(self);
            use_type_invariant(other);
            Mode::lemma_union(self, other);
        }
        Mode { bits: self.bits | other.bits }
    }
}

impl vstd::std_specs::ops::BitOrSpecImpl for Mode {
    open spec fn obeys_bitor_spec() -> bool {
        true
    }

    open spec fn bitor_req(self, other: Mode) -> bool {
        true
    }

    open spec fn bitor_spec(self, other: Mode) -> Mode {
        self.union(other)
    }
}

} // verus!
