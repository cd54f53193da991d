//! Tests for the attribute-block parser, the field conversions and the text
//! primitives.

use cpuprobe::cpuinfo::{
    cpuinfo_parse_bool, cpuinfo_parse_cache_size, cpuinfo_parse_hex, cpuinfo_parse_list,
    cpuinfo_parse_tlb_size, lookup, parse_cpuinfo, CpuInfo, CpuInfoError,
};
use cpuprobe::text::{
    contains, parse_dec_u64, parse_hex_u32, split_whitespace_tokens, str_eq, trim,
};

/// A synthetic attribute block with every key the summary requires.
fn full_record(flags: &str) -> String {
    let mut s = String::new();
    s.push_str("processor\t: 0\n");
    s.push_str("vendor_id\t: GenuineIntel\n");
    s.push_str("cpu family\t: 6\n");
    s.push_str("model\t\t: 142\n");
    s.push_str("model name\t: Intel(R) Core(TM) i7-8650U CPU @ 1.90GHz\n");
    s.push_str("stepping\t: 10\n");
    s.push_str("microcode\t: 0xf4\n");
    s.push_str("cpu MHz\t\t: 1992.002\n");
    s.push_str("cache size\t: 8192 KB\n");
    s.push_str("physical id\t: 0\n");
    s.push_str("siblings\t: 8\n");
    s.push_str("core id\t\t: 0\n");
    s.push_str("cpu cores\t: 4\n");
    s.push_str("apicid\t\t: 0\n");
    s.push_str("initial apicid\t: 0\n");
    s.push_str("fpu\t\t: yes\n");
    s.push_str("fpu_exception\t: yes\n");
    s.push_str("cpuid level\t: 22\n");
    s.push_str("wp\t\t: yes\n");
    s.push_str(&format!("flags\t\t: {}\n", flags));
    s.push_str("bugs\t\t: spectre_v1 spectre_v2\n");
    s.push_str("bogomips\t: 3984.00\n");
    s.push_str("TLB size\t: 2560 4K pages\n");
    s.push_str("clflush size\t: 64\n");
    s.push_str("cache_alignment\t: 64\n");
    s.push_str("address sizes\t: 39 bits physical, 48 bits virtual\n");
    s.push_str("power management:\n");
    s
}

#[test]
fn two_records_with_trailing_blank_line() {
    let text = "processor : 0\nvendor_id : GenuineIntel\n\nprocessor : 1\nvendor_id : GenuineIntel\n\n";
    let recs = parse_cpuinfo(text).unwrap();
    assert_eq!(recs.len(), 2);
    assert_eq!(recs[0][0].0, "processor");
    assert_eq!(recs[0][0].1, "0");
    assert_eq!(recs[1][0].1, "1");
}

#[test]
fn two_records_without_trailing_blank_line() {
    let text = "processor : 0\nvendor_id : GenuineIntel\n\nprocessor : 1\nvendor_id : GenuineIntel";
    let recs = parse_cpuinfo(text).unwrap();
    assert_eq!(recs.len(), 2);
    assert_eq!(recs[1][1].0, "vendor_id");
    assert_eq!(recs[1][1].1, "GenuineIntel");
}

#[test]
fn record_order_is_input_order() {
    let text = "a : 1\n\nb : 2\n\nc : 3\n";
    let recs = parse_cpuinfo(text).unwrap();
    assert_eq!(recs.len(), 3);
    assert_eq!(recs[0][0].0, "a");
    assert_eq!(recs[1][0].0, "b");
    assert_eq!(recs[2][0].0, "c");
}

#[test]
fn carriage_returns_are_stripped() {
    let text = "processor : 0\r\n\r\nprocessor : 1\r\n";
    let recs = parse_cpuinfo(text).unwrap();
    assert_eq!(recs.len(), 2);
    assert_eq!(recs[1][0].1, "1");
}

#[test]
fn consecutive_blank_lines_add_no_records() {
    let text = "a : 1\n\n\n\nb : 2\n";
    let recs = parse_cpuinfo(text).unwrap();
    assert_eq!(recs.len(), 2);
}

#[test]
fn value_keeps_everything_after_first_colon() {
    let text = "model name : Intel(R) CPU @ 1.90GHz : extra\n";
    let recs = parse_cpuinfo(text).unwrap();
    assert_eq!(recs[0][0].1, "Intel(R) CPU @ 1.90GHz : extra");
}

#[test]
fn line_without_colon_is_fatal() {
    let text = "processor : 0\nnot a key value line\n";
    assert_eq!(parse_cpuinfo(text).unwrap_err(), CpuInfoError::MalformedLine);
}

#[test]
fn lookup_last_pair_wins() {
    let text = "k : first\nk : second\n";
    let recs = parse_cpuinfo(text).unwrap();
    let v = lookup(&recs[0], "k").unwrap();
    assert_eq!(v, "second");
}

#[test]
fn bool_yes_is_true() {
    assert!(cpuinfo_parse_bool("yes"));
}

#[test]
fn bool_no_is_false() {
    assert!(!cpuinfo_parse_bool("no"));
}

#[test]
fn bool_empty_is_false() {
    assert!(!cpuinfo_parse_bool(""));
}

#[test]
fn hex_with_prefix_converts() {
    assert_eq!(cpuinfo_parse_hex("0x1a"), Some(26));
}

#[test]
fn hex_without_prefix_is_fatal() {
    assert_eq!(cpuinfo_parse_hex("1a"), None);
}

#[test]
fn hex_prefix_alone_is_fatal() {
    assert_eq!(cpuinfo_parse_hex("0x"), None);
}

#[test]
fn cache_size_takes_leading_number() {
    assert_eq!(cpuinfo_parse_cache_size("8192 KB"), Some(8192));
}

#[test]
fn cache_size_empty_is_fatal() {
    assert_eq!(cpuinfo_parse_cache_size(""), None);
}

#[test]
fn tlb_size_takes_leading_number() {
    assert_eq!(cpuinfo_parse_tlb_size("2560 4K pages"), Some(2560));
}

#[test]
fn list_splits_on_whitespace_in_order() {
    let l = cpuinfo_parse_list(" fpu  vme\tde pse ");
    assert_eq!(l, vec!["fpu", "vme", "de", "pse"]);
}

#[test]
fn full_block_extracts_every_field() {
    let text = full_record("fpu vme de pse vmx");
    let info = CpuInfo::new(&text).unwrap();
    assert_eq!(info.processor, "0");
    assert_eq!(info.vendor_id, "GenuineIntel");
    assert_eq!(info.cpu_family, 6);
    assert_eq!(info.model, 142);
    assert_eq!(info.model_name, "Intel(R) Core(TM) i7-8650U CPU @ 1.90GHz");
    assert_eq!(info.stepping, 10);
    assert_eq!(info.microcode, 0xf4);
    assert_eq!(info.mhz, "1992.002");
    assert_eq!(info.cache_size, 8192);
    assert_eq!(info.physical_id, 0);
    assert_eq!(info.siblings, 8);
    assert_eq!(info.core_id, 0);
    assert_eq!(info.cpu_cores, 4);
    assert_eq!(info.apicid, 0);
    assert_eq!(info.initial_apicid, 0);
    assert!(info.fpu);
    assert!(info.fpu_exception);
    assert_eq!(info.cpuid_level, 22);
    assert!(info.wp);
    assert_eq!(info.flags, vec!["fpu", "vme", "de", "pse", "vmx"]);
    assert_eq!(info.bugs, vec!["spectre_v1", "spectre_v2"]);
    assert_eq!(info.bogomips, "3984.00");
    assert_eq!(info.tlb_size, 2560);
    assert_eq!(info.clflush_size, 64);
    assert_eq!(info.cache_alignment, 64);
    assert_eq!(info.address_sizes, "39 bits physical, 48 bits virtual");
    assert_eq!(info.power_management, Vec::<String>::new());
    assert_eq!(info.ncpus, 1);
}

#[test]
fn two_full_records_count_two_cpus() {
    let one = full_record("fpu");
    let text = format!("{}\n{}", one, one);
    let info = CpuInfo::new(&text).unwrap();
    assert_eq!(info.ncpus, 2);
}

#[test]
fn empty_block_has_no_records() {
    assert_eq!(CpuInfo::new("").unwrap_err(), CpuInfoError::NoRecords);
}

#[test]
fn missing_key_is_fatal() {
    assert_eq!(
        CpuInfo::new("processor : 0\n").unwrap_err(),
        CpuInfoError::MissingKey
    );
}

#[test]
fn bad_numeric_value_is_fatal() {
    let text = full_record("fpu").replace("cpu family\t: 6", "cpu family\t: six");
    assert_eq!(CpuInfo::new(&text).unwrap_err(), CpuInfoError::BadValue);
}

#[test]
fn bad_hex_value_is_fatal() {
    let text = full_record("fpu").replace("microcode\t: 0xf4", "microcode\t: f4");
    assert_eq!(CpuInfo::new(&text).unwrap_err(), CpuInfoError::BadValue);
}

#[test]
fn vmx_flag_reports_vtx_only() {
    let text = full_record("fpu vme vmx de");
    let info = CpuInfo::new(&text).unwrap();
    assert_eq!(info.virtualization_extension(), "VT-x");
}

#[test]
fn svm_flag_reports_amdv() {
    let text = full_record("fpu svm de");
    let info = CpuInfo::new(&text).unwrap();
    assert_eq!(info.virtualization_extension(), "AMD-V");
}

#[test]
fn vmx_wins_over_svm() {
    let text = full_record("svm vmx");
    let info = CpuInfo::new(&text).unwrap();
    assert_eq!(info.virtualization_extension(), "VT-x");
}

#[test]
fn no_virt_flag_reports_nothing() {
    let text = full_record("fpu vme de");
    let info = CpuInfo::new(&text).unwrap();
    assert_eq!(info.virtualization_extension(), "");
}

#[test]
fn trim_removes_surrounding_whitespace() {
    assert_eq!(trim("  a b\t\n"), "a b");
    assert_eq!(trim(""), "");
    assert_eq!(trim(" \t "), "");
}

#[test]
fn str_eq_compares_contents() {
    assert!(str_eq("abc", "abc"));
    assert!(!str_eq("abc", "abd"));
    assert!(!str_eq("abc", "ab"));
}

#[test]
fn contains_finds_substring() {
    assert!(contains("4.4.0-19041-Microsoft", "Microsoft"));
    assert!(!contains("5.15.0-generic", "Microsoft"));
    assert!(contains("anything", ""));
}

#[test]
fn dec_parse_exact_values() {
    assert_eq!(parse_dec_u64("123"), Some(123));
    assert_eq!(parse_dec_u64("0"), Some(0));
    assert_eq!(parse_dec_u64(""), None);
    assert_eq!(parse_dec_u64("12a"), None);
    assert_eq!(parse_dec_u64("18446744073709551615"), Some(u64::MAX));
    assert_eq!(parse_dec_u64("18446744073709551616"), None);
}

#[test]
fn hex_parse_exact_values() {
    assert_eq!(parse_hex_u32("ff"), Some(255));
    assert_eq!(parse_hex_u32("FF"), Some(255));
    assert_eq!(parse_hex_u32("ffffffff"), Some(u32::MAX));
    assert_eq!(parse_hex_u32("100000000"), None);
    assert_eq!(parse_hex_u32(""), None);
    assert_eq!(parse_hex_u32("g1"), None);
}

#[test]
fn whitespace_tokens_in_order() {
    let t = split_whitespace_tokens("one  two\tthree\n");
    assert_eq!(t, vec!["one", "two", "three"]);
    assert_eq!(split_whitespace_tokens(""), Vec::<String>::new());
}
