//! The hypervisor classifier. It reconciles three signal sources into one
//! `(vendor, type)` classification: the kernel release string (a `Microsoft` marker
//! means a WSL container), the identification instruction's hypervisor bit
//! and vendor signature, and the Xen-specific files (the feature bitmask for
//! guests, the capabilities file for a bare-metal control domain). The checks
//! are ordered and the first match wins: WSL must be decided before the
//! instruction probe, because some WSL kernels set the hypervisor bit with a
//! misleading signature.

use crate::text::{
    all_hex_digits, contains, hex_val, parse_hex_u32, spec_contains, spec_trim, str_eq, trim,
};
use vstd::prelude::*;

verus! {

/// Xen feature bit: the supervisor-mode-kernel feature.
pub const XENFEAT_SUPERVISOR_MODE_KERNEL: u32 = 3;

/// Xen feature bit: page-table updates preserve the accessed/dirty bits.
pub const XENFEAT_MMU_PT_UPDATE_PRESERVE_AD: u32 = 5;

/// Xen feature bit: event delivery through a vector callback.
pub const XENFEAT_HVM_CALLBACK_VECTOR: u32 = 8;

/// Mask of bit `XENFEAT_MMU_PT_UPDATE_PRESERVE_AD`: a paravirtualized guest.
pub const XEN_FEATURES_PV_MASK: u32 = 1u32 << XENFEAT_MMU_PT_UPDATE_PRESERVE_AD;

/// Mask of bits `XENFEAT_SUPERVISOR_MODE_KERNEL` and
/// `XENFEAT_HVM_CALLBACK_VECTOR` together: a PVH guest, also classified as
/// paravirtualized.
pub const XEN_FEATURES_PVH_MASK: u32 = (1u32 << XENFEAT_SUPERVISOR_MODE_KERNEL) | (1u32
    << XENFEAT_HVM_CALLBACK_VECTOR);

/// The hosting hypervisor's vendor.
#[derive(Clone, Copy, Debug, PartialEq, Eq, Structural)]
pub enum HypervisorVendor {
    QEMU,
    KVM,
    HyperV,
    VMware,
    Xen,
    Parallels,
    VirtualBox,
    Bhyve,
    QNX,
    WSL,
    Unknown,
}

/// The virtualization mode, always paired with a vendor. `NoVirtualization`
/// is the Xen control domain, which manages guests while itself running
/// without a virtualization layer.
#[derive(Clone, Copy, Debug, PartialEq, Eq, Structural)]
pub enum HypervisorType {
    Para,
    Full,
    Container,
    NoVirtualization,
}

/// What a classification can fail on: the Xen feature bitmask file, required
/// once the signature names Xen, being absent or not a hexadecimal numeral.
#[derive(Clone, Copy, Debug, PartialEq, Eq, Structural)]
pub enum HypervisorError {
    MissingXenFeatures,
    MalformedXenFeatures,
}

impl HypervisorVendor {
    /// Display name of the vendor.
    pub fn name(&self) -> (r: &'static str)
        ensures
            self is QEMU ==> r@ == "QEMU"@,
            self is KVM ==> r@ == "KVM"@,
            self is HyperV ==> r@ == "Microsoft"@,
            self is VMware ==> r@ == "VMware"@,
            self is Xen ==> r@ == "Xen"@,
            self is Parallels ==> r@ == "Parallels"@,
            self is VirtualBox ==> r@ == "VirtualBox"@,
            self is Bhyve ==> r@ == "bhyve"@,
            self is QNX ==> r@ == "QNX"@,
            self is WSL ==> r@ == "Windows Subsystem for Linux"@,
            self is Unknown ==> r@ == "Unknown"@,
    {
        match self {
            HypervisorVendor::QEMU => "QEMU",
            HypervisorVendor::KVM => "KVM",
            HypervisorVendor::HyperV => "Microsoft",
            HypervisorVendor::VMware => "VMware",
            HypervisorVendor::Xen => "Xen",
            HypervisorVendor::Parallels => "Parallels",
            HypervisorVendor::VirtualBox => "VirtualBox",
            HypervisorVendor::Bhyve => "bhyve",
            HypervisorVendor::QNX => "QNX",
            HypervisorVendor::WSL => "Windows Subsystem for Linux",
            HypervisorVendor::Unknown => "Unknown",
        }
    }
}

impl HypervisorType {
    /// Display name of the virtualization mode.
    pub fn name(&self) -> (r: &'static str)
        ensures
            self is Para ==> r@ == "para"@,
            self is Full ==> r@ == "full"@,
            self is Container ==> r@ == "container"@,
            self is NoVirtualization ==> r@ == "none"@,
    {
        match self {
            HypervisorType::Para => "para",
            HypervisorType::Full => "full",
            HypervisorType::Container => "container",
            HypervisorType::NoVirtualization => "none",
        }
    }
}

/// The fixed vendor table, keyed on the exact 12-character signature. Spaces
/// are part of the signatures: several vendors pad with them. Parallels
/// appears twice because its signature is seen byte-swapped on some query
/// paths. Any signature outside the table is `Unknown`, a legitimate terminal
/// classification and not an error.
pub open spec fn spec_classify_vendor(sig: Seq<char>) -> HypervisorVendor {
    if sig == "TCGTCGTCGTCG"@ {
        HypervisorVendor::QEMU
    } else if sig == " KVMKVMKVM  "@ {
        HypervisorVendor::KVM
    } else if sig == "VMwareVMware"@ {
        HypervisorVendor::VMware
    } else if sig == "VboxVboxVbox"@ {
        HypervisorVendor::VirtualBox
    } else if sig == "XenVMMXenVMM"@ {
        HypervisorVendor::Xen
    } else if sig == "Microsoft Hv"@ {
        HypervisorVendor::HyperV
    } else if sig == " prl hyperv "@ {
        HypervisorVendor::Parallels
    } else if sig == " lrpepyh vr "@ {
        HypervisorVendor::Parallels
    } else if sig == "bhyve bhyve "@ {
        HypervisorVendor::Bhyve
    } else if sig == " QNXQVMBSQG "@ {
        HypervisorVendor::QNX
    } else {
        HypervisorVendor::Unknown
    }
}

/// Looks a vendor signature up in the fixed table.
pub fn classify_vendor(sig: &str) -> (r: HypervisorVendor)
    ensures
        r == spec_classify_vendor(sig@),
{
    if str_eq(sig, "TCGTCGTCGTCG") {
        HypervisorVendor::QEMU
    } else if str_eq(sig, " KVMKVMKVM  ") {
        HypervisorVendor::KVM
    } else if str_eq(sig, "VMwareVMware") {
        HypervisorVendor::VMware
    } else if str_eq(sig, "VboxVboxVbox") {
        HypervisorVendor::VirtualBox
    } else if str_eq(sig, "XenVMMXenVMM") {
        HypervisorVendor::Xen
    } else if str_eq(sig, "Microsoft Hv") {
        HypervisorVendor::HyperV
    } else if str_eq(sig, " prl hyperv ") {
        HypervisorVendor::Parallels
    } else if str_eq(sig, " lrpepyh vr ") {
        HypervisorVendor::Parallels
    } else if str_eq(sig, "bhyve bhyve ") {
        HypervisorVendor::Bhyve
    } else if str_eq(sig, " QNXQVMBSQG ") {
        HypervisorVendor::QNX
    } else {
        HypervisorVendor::Unknown
    }
}

/// The virtualization mode a Xen guest's feature bitmask denotes:
/// paravirtualized when the PV bit is set or the whole PVH mask is set, fully
/// virtualized otherwise.
pub open spec fn spec_xen_type(features: u32) -> HypervisorType {
    if features & XEN_FEATURES_PV_MASK != 0 {
        HypervisorType::Para
    } else if features & XEN_FEATURES_PVH_MASK == XEN_FEATURES_PVH_MASK {
        HypervisorType::Para
    } else {
        HypervisorType::Full
    }
}

/// Classifies a Xen guest's feature bitmask.
pub fn xen_type_from_features(features: u32) -> (r: HypervisorType)
    ensures
        r == spec_xen_type(features),
{
    if features & XEN_FEATURES_PV_MASK != 0 {
        HypervisorType::Para
    } else if features & XEN_FEATURES_PVH_MASK == XEN_FEATURES_PVH_MASK {
        HypervisorType::Para
    } else {
        HypervisorType::Full
    }
}

/// The raw facts the classifier consumes. The caller gathers them: the
/// kernel release string (absent when unreadable — that is a negative
/// signal, not an error), the hypervisor bit from identification leaf 1, the
/// decoded vendor signature (consulted only when the bit is set), the content
/// of the Xen feature bitmask file (absent when unreadable), and the content
/// of the Xen capabilities file (absent when the path does not exist, itself
/// the signal that this is not a bare-metal Xen host).
pub struct SystemFacts {
    pub os_release: Option<String>,
    pub hypervisor_bit: bool,
    pub vendor_signature: String,
    pub xen_features: Option<String>,
    pub xen_capabilities: Option<String>,
}

/// The facts as mathematical values.
pub ghost struct SystemFactsView {
    pub os_release: Option<Seq<char>>,
    pub hypervisor_bit: bool,
    pub vendor_signature: Seq<char>,
    pub xen_features: Option<Seq<char>>,
    pub xen_capabilities: Option<Seq<char>>,
}

impl View for SystemFacts {
    type V = SystemFactsView;

    open spec fn view(&self) -> SystemFactsView {
        SystemFactsView {
            os_release: self.os_release.deep_view(),
            hypervisor_bit: self.hypervisor_bit,
            vendor_signature: self.vendor_signature@,
            xen_features: self.xen_features.deep_view(),
            xen_capabilities: self.xen_capabilities.deep_view(),
        }
    }
}

/// The classifier's outcome.
pub type Outcome = (Option<HypervisorVendor>, Option<HypervisorType>);

/// The ordered decision procedure; the first matching check wins.
///
/// 1. A kernel release string containing `Microsoft` is a WSL container,
///    whatever the instruction probe would say.
/// 2. With the hypervisor bit set, the vendor signature decides; the type is
///    fully virtualized except for Xen, whose trimmed feature bitmask —
///    required, and required to be a hexadecimal numeral — refines it.
/// 3. With the bit clear but the Xen capabilities file present, this is a
///    bare-metal Xen host: the trimmed content `control_d` is the control
///    domain, running without virtualization; anything else is a
///    paravirtualized domain.
/// 4. Otherwise no hypervisor is detected: an empty outcome, the normal
///    outcome on bare metal.
pub open spec fn spec_detect(f: SystemFactsView) -> Result<Outcome, HypervisorError> {
    if f.os_release matches Some(rel) && spec_contains(rel, "Microsoft"@) {
        Ok((Some(HypervisorVendor::WSL), Some(HypervisorType::Container)))
    } else if f.hypervisor_bit {
        let vendor = spec_classify_vendor(f.vendor_signature);
        if vendor is Xen {
            match f.xen_features {
                Option::None => Err(HypervisorError::MissingXenFeatures),
                Option::Some(feat) => {
                    let t = spec_trim(feat);
                    if t.len() > 0 && all_hex_digits(t) && hex_val(t) <= u32::MAX {
                        Ok((Some(HypervisorVendor::Xen), Some(spec_xen_type(hex_val(t) as u32))))
                    } else {
                        Err(HypervisorError::MalformedXenFeatures)
                    }
                },
            }
        } else {
            Ok((Some(vendor), Some(HypervisorType::Full)))
        }
    } else {
        match f.xen_capabilities {
            Option::Some(caps) => Ok(
                (
                    Some(HypervisorVendor::Xen),
                    Some(
                        if spec_trim(caps) == "control_d"@ {
                            HypervisorType::NoVirtualization
                        } else {
                            HypervisorType::Para
                        },
                    ),
                ),
            ),
            Option::None => Ok((Option::None, Option::None)),
        }
    }
}

/// The classification result: both fields absent on a bare-metal non-Xen host.
#[derive(Debug)]
pub struct Hypervisor {
    pub hypervisor_vendor: Option<HypervisorVendor>,
    pub hypervisor_type: Option<HypervisorType>,
}

impl Hypervisor {
    /// Runs the decision procedure of `spec_detect` on the gathered facts.
    pub fn new(facts: &SystemFacts) -> (r: Result<Hypervisor, HypervisorError>)
        ensures
            r is Ok <==> spec_detect(facts@) is Ok,
            r matches Ok(h) ==> spec_detect(facts@) == Ok::<Outcome, HypervisorError>(
                (h.hypervisor_vendor, h.hypervisor_type),
            ),
            r matches Err(e) ==> spec_detect(facts@) == Err::<Outcome, HypervisorError>(e),
    {
        let wsl = match &facts.os_release {
            Some(rel) => contains(rel.as_str(), "Microsoft"),
            None => false,
        };
        if wsl {
            return Ok(
                Hypervisor {
                    hypervisor_vendor: Some(HypervisorVendor::WSL),
                    hypervisor_type: Some(HypervisorType::Container),
                },
            );
        }
        if facts.hypervisor_bit {
            let vendor = classify_vendor(facts.vendor_signature.as_str());
            if vendor == HypervisorVendor::Xen {
                match &facts.xen_features {
                    None => Err(HypervisorError::MissingXenFeatures),
                    Some(feat) => {
                        let t = trim(feat.as_str());
                        match parse_hex_u32(t) {
                            None => Err(HypervisorError::MalformedXenFeatures),
                            Some(bits) => Ok(
                                Hypervisor {
                                    hypervisor_vendor: Some(HypervisorVendor::Xen),
                                    hypervisor_type: Some(xen_type_from_features(bits)),
                                },
                            ),
                        }
                    },
                }
            } else {
                Ok(
                    Hypervisor {
                        hypervisor_vendor: Some(vendor),
                        hypervisor_type: Some(HypervisorType::Full),
                    },
                )
            }
        } else {
            match &facts.xen_capabilities {
                Some(caps) => {
                    let t = trim(caps.as_str());
                    let ty = if str_eq(t, "control_d") {
                        HypervisorType::NoVirtualization
                    } else {
                        HypervisorType::Para
                    };
                    Ok(
                        Hypervisor {
                            hypervisor_vendor: Some(HypervisorVendor::Xen),
                            hypervisor_type: Some(ty),
                        },
                    )
                },
                None => Ok(Hypervisor { hypervisor_vendor: None, hypervisor_type: None }),
            }
        }
    }
}

/// A feature bitmask with the PV bit set is paravirtualized; one with the PV
/// bit clear but both PVH bits set is paravirtualized too; one with all three
/// bits clear is fully virtualized.
pub proof fn lemma_xen_feature_classification(features: u32)
    ensures
        features & (1u32 << XENFEAT_MMU_PT_UPDATE_PRESERVE_AD) != 0 ==> spec_xen_type(features)
            == HypervisorType::Para,
        features & (1u32 << XENFEAT_MMU_PT_UPDATE_PRESERVE_AD) == 0 && features & (1u32
            << XENFEAT_SUPERVISOR_MODE_KERNEL) != 0 && features & (1u32
            << XENFEAT_HVM_CALLBACK_VECTOR) != 0 ==> spec_xen_type(features)
            == HypervisorType::Para,
        features & (1u32 << XENFEAT_MMU_PT_UPDATE_PRESERVE_AD) == 0 && features & (1u32
            << XENFEAT_SUPERVISOR_MODE_KERNEL) == 0 ==> spec_xen_type(features)
            == HypervisorType::Full,
        features & (1u32 << XENFEAT_MMU_PT_UPDATE_PRESERVE_AD) == 0 && features & (1u32
            << XENFEAT_HVM_CALLBACK_VECTOR) == 0 ==> spec_xen_type(features)
            == HypervisorType::Full,
{
    assert(features & (1u32 << 3) != 0 && features & (1u32 << 8) != 0 ==> features & ((1u32 << 3)
        | (1u32 << 8)) == ((1u32 << 3) | (1u32 << 8))) by (bit_vector);
    assert(features & (1u32 << 3) == 0 ==> features & ((1u32 << 3) | (1u32 << 8)) != ((1u32 << 3)
        | (1u32 << 8))) by (bit_vector);
    assert(features & (1u32 << 8) == 0 ==> features & ((1u32 << 3) | (1u32 << 8)) != ((1u32 << 3)
        | (1u32 << 8))) by (bit_vector);
}

/// WSL detection precedes the instruction probe: a kernel release string
/// containing `Microsoft` yields the WSL container outcome whatever the
/// hypervisor bit, the vendor signature and the Xen files hold.
pub proof fn lemma_wsl_precedes_cpuid(f: SystemFactsView)
    requires
        f.os_release matches Some(rel) && spec_contains(rel, "Microsoft"@),
    ensures
        spec_detect(f) == Ok::<Outcome, HypervisorError>(
            (Some(HypervisorVendor::WSL), Some(HypervisorType::Container)),
        ),
{
}

/// A signature outside the vendor table classifies as `Unknown`.
pub proof fn lemma_unlisted_signature_is_unknown(sig: Seq<char>)
    requires
        sig != "TCGTCGTCGTCG"@,
        sig != " KVMKVMKVM  "@,
        sig != "VMwareVMware"@,
        sig != "VboxVboxVbox"@,
        sig != "XenVMMXenVMM"@,
        sig != "Microsoft Hv"@,
        sig != " prl hyperv "@,
        sig != " lrpepyh vr "@,
        sig != "bhyve bhyve "@,
        sig != " QNXQVMBSQG "@,
    ensures
        spec_classify_vendor(sig) == HypervisorVendor::Unknown,
{
}

} // verus!
