//! Tests for the hypervisor classifier, the register decoders, the byte
//! order and the architecture tags.

use cpuprobe::architecture::Architecture;
use cpuprobe::cpubyteorder::{CpuByteOrder, Endian};
use cpuprobe::cpuid::Cpuid;
use cpuprobe::hypervisor::{
    classify_vendor, xen_type_from_features, Hypervisor, HypervisorError, HypervisorType,
    HypervisorVendor, SystemFacts,
};

fn bare_facts() -> SystemFacts {
    SystemFacts {
        os_release: Some(String::from("5.15.0-generic")),
        hypervisor_bit: false,
        vendor_signature: String::new(),
        xen_features: None,
        xen_capabilities: None,
    }
}

#[test]
fn vendor_table_decodes_each_entry() {
    assert_eq!(classify_vendor("TCGTCGTCGTCG"), HypervisorVendor::QEMU);
    assert_eq!(classify_vendor(" KVMKVMKVM  "), HypervisorVendor::KVM);
    assert_eq!(classify_vendor("VMwareVMware"), HypervisorVendor::VMware);
    assert_eq!(classify_vendor("VboxVboxVbox"), HypervisorVendor::VirtualBox);
    assert_eq!(classify_vendor("XenVMMXenVMM"), HypervisorVendor::Xen);
    assert_eq!(classify_vendor("Microsoft Hv"), HypervisorVendor::HyperV);
    assert_eq!(classify_vendor(" prl hyperv "), HypervisorVendor::Parallels);
    assert_eq!(classify_vendor(" lrpepyh vr "), HypervisorVendor::Parallels);
    assert_eq!(classify_vendor("bhyve bhyve "), HypervisorVendor::Bhyve);
    assert_eq!(classify_vendor(" QNXQVMBSQG "), HypervisorVendor::QNX);
}

#[test]
fn vendor_table_rejects_other_signatures() {
    assert_eq!(classify_vendor("twelve chars"), HypervisorVendor::Unknown);
    assert_eq!(classify_vendor(""), HypervisorVendor::Unknown);
    assert_eq!(classify_vendor("TCGTCGTCGTC"), HypervisorVendor::Unknown);
}

#[test]
fn xen_bit5_yields_paravirtualized() {
    assert_eq!(xen_type_from_features(1 << 5), HypervisorType::Para);
    assert_eq!(
        xen_type_from_features((1 << 5) | 0xf000),
        HypervisorType::Para
    );
}

#[test]
fn xen_bits3and8_yield_paravirtualized() {
    assert_eq!(
        xen_type_from_features((1 << 3) | (1 << 8)),
        HypervisorType::Para
    );
}

#[test]
fn xen_bits_clear_yield_fully_virtualized() {
    assert_eq!(xen_type_from_features(0), HypervisorType::Full);
    assert_eq!(xen_type_from_features(1 << 3), HypervisorType::Full);
    assert_eq!(xen_type_from_features(1 << 8), HypervisorType::Full);
    assert_eq!(xen_type_from_features(0xfffffc06), HypervisorType::Full);
}

#[test]
fn wsl_release_precedes_cpuid() {
    let mut facts = bare_facts();
    facts.os_release = Some(String::from("4.4.0-19041-Microsoft"));
    facts.hypervisor_bit = true;
    facts.vendor_signature = String::from("Microsoft Hv");
    let h = Hypervisor::new(&facts).unwrap();
    assert_eq!(h.hypervisor_vendor, Some(HypervisorVendor::WSL));
    assert_eq!(h.hypervisor_type, Some(HypervisorType::Container));
}

#[test]
fn wsl_release_detected_without_hypervisor_bit() {
    let mut facts = bare_facts();
    facts.os_release = Some(String::from("4.4.0-19041-Microsoft"));
    let h = Hypervisor::new(&facts).unwrap();
    assert_eq!(h.hypervisor_vendor, Some(HypervisorVendor::WSL));
    assert_eq!(h.hypervisor_type, Some(HypervisorType::Container));
}

#[test]
fn hypervisor_bit_with_kvm_signature_is_full() {
    let mut facts = bare_facts();
    facts.hypervisor_bit = true;
    facts.vendor_signature = String::from(" KVMKVMKVM  ");
    let h = Hypervisor::new(&facts).unwrap();
    assert_eq!(h.hypervisor_vendor, Some(HypervisorVendor::KVM));
    assert_eq!(h.hypervisor_type, Some(HypervisorType::Full));
}

#[test]
fn xen_guest_reads_feature_mask() {
    let mut facts = bare_facts();
    facts.hypervisor_bit = true;
    facts.vendor_signature = String::from("XenVMMXenVMM");
    facts.xen_features = Some(String::from("20\n"));
    let h = Hypervisor::new(&facts).unwrap();
    assert_eq!(h.hypervisor_vendor, Some(HypervisorVendor::Xen));
    assert_eq!(h.hypervisor_type, Some(HypervisorType::Para));
}

#[test]
fn xen_guest_pvh_mask_is_paravirtualized() {
    let mut facts = bare_facts();
    facts.hypervisor_bit = true;
    facts.vendor_signature = String::from("XenVMMXenVMM");
    facts.xen_features = Some(String::from("108"));
    let h = Hypervisor::new(&facts).unwrap();
    assert_eq!(h.hypervisor_type, Some(HypervisorType::Para));
}

#[test]
fn xen_guest_no_pv_bits_is_full() {
    let mut facts = bare_facts();
    facts.hypervisor_bit = true;
    facts.vendor_signature = String::from("XenVMMXenVMM");
    facts.xen_features = Some(String::from("0"));
    let h = Hypervisor::new(&facts).unwrap();
    assert_eq!(h.hypervisor_type, Some(HypervisorType::Full));
}

#[test]
fn xen_guest_missing_feature_mask_is_fatal() {
    let mut facts = bare_facts();
    facts.hypervisor_bit = true;
    facts.vendor_signature = String::from("XenVMMXenVMM");
    assert_eq!(
        Hypervisor::new(&facts).unwrap_err(),
        HypervisorError::MissingXenFeatures
    );
}

#[test]
fn xen_guest_malformed_feature_mask_is_fatal() {
    let mut facts = bare_facts();
    facts.hypervisor_bit = true;
    facts.vendor_signature = String::from("XenVMMXenVMM");
    facts.xen_features = Some(String::from("zz"));
    assert_eq!(
        Hypervisor::new(&facts).unwrap_err(),
        HypervisorError::MalformedXenFeatures
    );
}

#[test]
fn xen_control_domain_is_type_none() {
    let mut facts = bare_facts();
    facts.xen_capabilities = Some(String::from("control_d\n"));
    let h = Hypervisor::new(&facts).unwrap();
    assert_eq!(h.hypervisor_vendor, Some(HypervisorVendor::Xen));
    assert_eq!(h.hypervisor_type, Some(HypervisorType::NoVirtualization));
}

#[test]
fn xen_other_capabilities_is_paravirtualized() {
    let mut facts = bare_facts();
    facts.xen_capabilities = Some(String::from("guest"));
    let h = Hypervisor::new(&facts).unwrap();
    assert_eq!(h.hypervisor_vendor, Some(HypervisorVendor::Xen));
    assert_eq!(h.hypervisor_type, Some(HypervisorType::Para));
}

#[test]
fn bare_metal_yields_empty_outcome() {
    let facts = bare_facts();
    let h = Hypervisor::new(&facts).unwrap();
    assert_eq!(h.hypervisor_vendor, None);
    assert_eq!(h.hypervisor_type, None);
}

#[test]
fn unreadable_release_is_a_negative_signal() {
    let mut facts = bare_facts();
    facts.os_release = None;
    let h = Hypervisor::new(&facts).unwrap();
    assert_eq!(h.hypervisor_vendor, None);
    assert_eq!(h.hypervisor_type, None);
}

#[test]
fn hypervisor_bit_reads_bit31() {
    assert!(Cpuid::hypervisor_bit(0x8000_0000));
    assert!(Cpuid::hypervisor_bit(0xffff_ffff));
    assert!(!Cpuid::hypervisor_bit(0x7fff_ffff));
    assert!(!Cpuid::hypervisor_bit(0));
}

#[test]
fn register_bytes_least_significant_first() {
    let chars = Cpuid::register_to_str(0x6447_6558);
    assert_eq!(chars, vec!['X', 'e', 'G', 'd']);
}

#[test]
fn vendor_signature_concatenates_three_registers() {
    let chars = Cpuid::hypervisor_vendor(0x566e_6558, 0x6558_4d4d, 0x4d4d_566e);
    let sig: String = chars.into_iter().collect();
    assert_eq!(sig, "XenVMMXenVMM");
    assert_eq!(classify_vendor(&sig), HypervisorVendor::Xen);
}

#[test]
fn byteorder_little_flag_is_little_endian() {
    let b = CpuByteOrder::new("little\n");
    assert_eq!(b.byteorder, Endian::LittleEndian);
    assert_eq!(b.byteorder.name(), "Little Endian");
}

#[test]
fn byteorder_other_flag_is_big_endian() {
    let b = CpuByteOrder::new("big\n");
    assert_eq!(b.byteorder, Endian::BigEndian);
    assert_eq!(b.byteorder.name(), "Big Endian");
}

#[test]
fn architecture_x86_64_supports_both_modes() {
    let a = Architecture::new("x86_64").unwrap();
    assert_eq!(a.arch, "x86_64");
    assert!(a.bit32);
    assert!(a.bit64);
}

#[test]
fn architecture_x86_supports_32bit_only() {
    let a = Architecture::new("x86").unwrap();
    assert_eq!(a.arch, "x86");
    assert!(a.bit32);
    assert!(!a.bit64);
}

#[test]
fn architecture_other_tags_are_unsupported() {
    assert!(Architecture::new("riscv64").is_none());
    assert!(Architecture::new("").is_none());
}

#[test]
fn display_names_match_report_vocabulary() {
    assert_eq!(HypervisorVendor::HyperV.name(), "Microsoft");
    assert_eq!(HypervisorVendor::WSL.name(), "Windows Subsystem for Linux");
    assert_eq!(HypervisorVendor::Bhyve.name(), "bhyve");
    assert_eq!(HypervisorType::Para.name(), "para");
    assert_eq!(HypervisorType::Full.name(), "full");
    assert_eq!(HypervisorType::Container.name(), "container");
    assert_eq!(HypervisorType::NoVirtualization.name(), "none");
}
