//! Classifies the build-time architecture tag into the pair of supported
//! execution modes. A 64-bit x86 processor still supports legacy 32-bit
//! execution, so the two mode flags are independent.

use crate::text::str_eq;
use vstd::prelude::*;

verus! {

/// The machine architecture: its tag and which execution modes it supports.
pub struct Architecture {
    pub arch: String,
    pub bit32: bool,
    pub bit64: bool,
}

/// The `(bit32, bit64)` mode pair for a recognized architecture tag, or
/// nothing for an architecture the register probe cannot serve.
pub open spec fn spec_architecture(tag: Seq<char>) -> Option<(bool, bool)> {
    if tag == "x86"@ {
        Some((true, false))
    } else if tag == "x86_64"@ {
        Some((true, true))
    } else {
        None
    }
}

impl Architecture {
    /// Classifies an architecture tag. The caller supplies the build-time
    /// constant; an unrecognized tag is reported as unsupported rather than
    /// guessed at.
    pub fn new(tag: &str) -> (r: Option<Architecture>)
        ensures
            match r {
                Some(a) => spec_architecture(tag@) == Some((a.bit32, a.bit64)) && a.arch@ == tag@,
                None => spec_architecture(tag@) is None,
            },
    {
        if str_eq(tag, "x86") {
            Some(
                Architecture {
                    arch: tag.to_owned(),
                    bit32: true,
                    bit64: false,
                },
            )
        } else if str_eq(tag, "x86_64") {
            Some(
                Architecture {
                    arch: tag.to_owned(),
                    bit32: true,
                    bit64: true,
                },
            )
        } else {
            None
        }
    }
}

} // verus!
