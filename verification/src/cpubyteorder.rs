//! Decides the CPU byte order from the kernel's byte-order flag file. The
//! trimmed content `little` means little-endian; any other content means
//! big-endian. Reading the file is the caller's job, and a failure to read it
//! is fatal there: no default is silently assumed.

use crate::text::{spec_trim, str_eq, trim};
use vstd::prelude::*;

verus! {

/// CPU byte order.
#[derive(Clone, Copy, Debug, PartialEq, Eq, Structural)]
pub enum Endian {
    LittleEndian,
    BigEndian,
}

/// The byte order that the flag file's content denotes.
pub open spec fn spec_byteorder(content: Seq<char>) -> Endian {
    if spec_trim(content) == "little"@ {
        Endian::LittleEndian
    } else {
        Endian::BigEndian
    }
}

impl Endian {
    /// Display name of the byte order.
    pub fn name(&self) -> (r: &'static str)
        ensures
            self is LittleEndian ==> r@ == "Little Endian"@,
            self is BigEndian ==> r@ == "Big Endian"@,
    {
        match self {
            Endian::LittleEndian => "Little Endian",
            Endian::BigEndian => "Big Endian",
        }
    }
}

/// The machine's byte order, as the kernel reports it.
pub struct CpuByteOrder {
    pub byteorder: Endian,
}

impl CpuByteOrder {
    /// Classifies the content of the byte-order flag file.
    pub fn new(content: &str) -> (r: CpuByteOrder)
        ensures
            r.byteorder == spec_byteorder(content@),
    {
        let trimmed = trim(content);
        if str_eq(trimmed, "little") {
            CpuByteOrder { byteorder: Endian::LittleEndian }
        } else {
            CpuByteOrder { byteorder: Endian::BigEndian }
        }
    }
}

} // verus!
