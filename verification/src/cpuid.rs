//! Decodes the raw registers of the CPU identification instruction. Issuing
//! the instruction itself is the caller's job; the functions here interpret
//! the returned register values: the hypervisor presence bit from leaf 1, and
//! the 12-character hypervisor vendor signature from the hypervisor
//! information leaf.

use vstd::prelude::*;

verus! {

/// Bit 31 of the `ecx` output of identification leaf 1: set when running
/// under a hypervisor.
pub const CPUID_FEAT_ECX_HYPERVISOR: u32 = 0x8000_0000;

/// The leaf value that queries the hosting hypervisor's vendor signature.
pub const HYPERVISOR_INFO_LEAF: u32 = 0x4000_0000;

/// Decoders for the identification instruction's register values.
pub struct Cpuid {}

/// The four bytes of `reg`, least significant first, each read as one
/// character.
pub open spec fn spec_register_chars(reg: u32) -> Seq<char> {
    seq![
        (reg & 0xff) as u8 as char,
        ((reg >> 8) & 0xff) as u8 as char,
        ((reg >> 16) & 0xff) as u8 as char,
        ((reg >> 24) & 0xff) as u8 as char,
    ]
}

/// The 12-character vendor signature: the bytes of `ebx`, `ecx`, `edx` in
/// that order, each register least-significant byte first.
pub open spec fn spec_vendor_signature(ebx: u32, ecx: u32, edx: u32) -> Seq<char> {
    spec_register_chars(ebx) + spec_register_chars(ecx) + spec_register_chars(edx)
}

impl Cpuid {
    /// Whether the hypervisor presence bit is set in the `ecx` output of
    /// identification leaf 1.
    pub fn hypervisor_bit(ecx: u32) -> (r: bool)
        ensures
            r == (ecx & CPUID_FEAT_ECX_HYPERVISOR == CPUID_FEAT_ECX_HYPERVISOR),
    {
        ecx & CPUID_FEAT_ECX_HYPERVISOR == CPUID_FEAT_ECX_HYPERVISOR
    }

    /// The four characters held by one register, least-significant byte
    /// first.
    pub fn register_to_str(reg: u32) -> (r: Vec<char>)
        ensures
            r@ == spec_register_chars(reg),
    {
        proof {
            assert(reg & 0xff < 256) by (bit_vector);
            assert((reg >> 8) & 0xff < 256) by (bit_vector);
            assert((reg >> 16) & 0xff < 256) by (bit_vector);
            assert((reg >> 24) & 0xff < 256) by (bit_vector);
        }
        let mut v: Vec<char> = Vec::new();
        v.push((reg & 0xff) as u8 as char);
        v.push(((reg >> 8) & 0xff) as u8 as char);
        v.push(((reg >> 16) & 0xff) as u8 as char);
        v.push(((reg >> 24) & 0xff) as u8 as char);
        proof {
            assert(v@ =~= spec_register_chars(reg));
        }
        v
    }

    /// The vendor signature encoded in the hypervisor information leaf's
    /// `ebx`, `ecx`, `edx` outputs. Meaningful only when the hypervisor bit
    /// is set; on bare metal the leaf returns garbage.
    pub fn hypervisor_vendor(ebx: u32, ecx: u32, edx: u32) -> (r: Vec<char>)
        ensures
            r@ == spec_vendor_signature(ebx, ecx, edx),
    {
        let mut v = Self::register_to_str(ebx);
        let mut c = Self::register_to_str(ecx);
        let mut d = Self::register_to_str(edx);
        v.append(&mut c);
        v.append(&mut d);
        v
    }
}

} // verus!
