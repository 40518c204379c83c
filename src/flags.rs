use vstd::prelude::*;

verus! {

/// Bit 0: open for writing only.
pub const WRONLY_BIT: u32 = 1;

/// Bit 1: open for reading and writing.
pub const RDWR_BIT: u32 = 2;

/// Bit 9: create the file if it is missing.
pub const CREATE_BIT: u32 = 512;

/// Bit 10: truncate the file to size 0 on open.
pub const TRUNC_BIT: u32 = 1024;

/// Every bit that has a meaning.
pub const ALL_BITS: u32 = 1539;

/// Whether every bit of `f` is set in `bits`.
pub open spec fn has_bits(bits: u32, f: u32) -> bool {
    bits & f == f
}

/// The (readable, writable) pair that a flag word grants: no bits is
/// read-only; the write-only bit wins over every other bit; anything else is
/// read-write.
pub open spec fn access_of(bits: u32) -> (bool, bool) {
    if bits == 0 {
        (true, false)
    } else if has_bits(bits, WRONLY_BIT) {
        (false, true)
    } else {
        (true, true)
    }
}

/// The flags argument of the open call: zero or more of the bits above,
/// or-ed together; the value 0 is read-only.
#[derive(Clone, Copy, Debug, PartialEq, Eq, Structural)]
pub struct OpenFlags {
    pub bits: u32,
}

impl OpenFlags {
    /// Read-only: no bits set.
    pub fn rdonly() -> (r: OpenFlags)
        ensures
            r.bits == 0,
    {
        OpenFlags { bits: 0 }
    }

    /// Write-only.
    pub fn wronly() -> (r: OpenFlags)
        ensures
            r.bits == WRONLY_BIT,
    {
        OpenFlags { bits: WRONLY_BIT }
    }

    /// Read and write.
    pub fn rdwr() -> (r: OpenFlags)
        ensures
            r.bits == RDWR_BIT,
    {
        OpenFlags { bits: RDWR_BIT }
    }

    /// Create the file if it is missing.
    pub fn create() -> (r: OpenFlags)
        ensures
            r.bits == CREATE_BIT,
    {
        OpenFlags { bits: CREATE_BIT }
    }

    /// Truncate the file to size 0.
    pub fn trunc() -> (r: OpenFlags)
        ensures
            r.bits == TRUNC_BIT,
    {
        OpenFlags { bits: TRUNC_BIT }
    }

    /// The flags with no bit set.
    pub fn empty() -> (r: OpenFlags)
        ensures
            r.bits == 0,
    {
        OpenFlags { bits: 0 }
    }

    /// The flags of a raw word, or `None` where it holds a bit with no meaning.
    pub fn from_bits(bits: u32) -> (r: Option<OpenFlags>)
        ensures
            r == (if bits & !ALL_BITS == 0 {
                Some(OpenFlags { bits })
            } else {
                None::<OpenFlags>
            }),
    {
        if bits & !ALL_BITS == 0 {
            Some(OpenFlags { bits })
        } else {
            None
        }
    }

    /// The flags of a raw word with the bits that have no meaning dropped.
    pub fn from_bits_truncate(bits: u32) -> (r: OpenFlags)
        ensures
            r.bits == bits & ALL_BITS,
    {
        OpenFlags { bits: bits & ALL_BITS }
    }

    /// The raw word.
    pub fn bits(&self) -> (r: u32)
        ensures
            r == self.bits,
    {
        self.bits
    }

    /// Whether no bit is set.
    pub fn is_empty(&self) -> (r: bool)
        ensures
            r == (self.bits == 0),
    {
        self.bits == 0
    }

    /// Whether every bit of `other` is set here.
    pub fn contains(&self, other: OpenFlags) -> (r: bool)
        ensures
            r == has_bits(self.bits, other.bits),
    {
        self.bits & other.bits == other.bits
    }

    /// The flags with the bits of both.
    pub fn union(&self, other: OpenFlags) -> (r: OpenFlags)
        ensures
            r.bits == self.bits | other.bits,
    {
        OpenFlags { bits: self.bits | other.bits }
    }

    /// Return (readable, writable). Conflicting or unknown bits are not
    /// rejected: they resolve as `access_of` says.
    pub fn read_write(&self) -> (r: (bool, bool))
        ensures
            r == access_of(self.bits),
    {
        if self.is_empty() {
            (true, false)
        } else if self.contains(OpenFlags::wronly()) {
            (false, true)
        } else {
            (true, true)
        }
    }
}

} // verus!
