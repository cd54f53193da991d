//! The parser for the kernel's per-CPU attribute block: records separated by
//! blank lines, each record a group of `key : value` lines split at the first
//! colon with both sides trimmed. A trailing record not followed by a blank
//! line is still included. After the raw records are assembled, typed field
//! conversions turn record 0 — the machine is assumed homogeneous — into one
//! `CpuInfo` summary; any missing key or unconvertible value is fatal, never
//! papered over.

use crate::text::{
    all_digits, all_hex_digits, dec_val, find_char, hex_val, lemma_find_char_scan, parse_dec_i32,
    parse_dec_u32, parse_hex_u32, spec_lines, spec_split_ws, spec_trim, split_lines,
    split_whitespace_tokens, str_eq, trim,
};
use vstd::prelude::*;

verus! {

/// A raw record: its key/value pairs in line order.
pub type RawRecordView = Seq<(Seq<char>, Seq<char>)>;

/// What turning the attribute block into a typed summary can fail on: a
/// non-blank line without a colon, an empty block, a required key that no
/// pair of record 0 holds, and a value that its field conversion rejects.
#[derive(Clone, Copy, Debug, PartialEq, Eq, Structural)]
pub enum CpuInfoError {
    MalformedLine,
    NoRecords,
    MissingKey,
    BadValue,
}

/// A line split at its first colon, both sides trimmed; nothing when the
/// line has no colon.
pub open spec fn spec_split_colon(l: Seq<char>) -> Option<(Seq<char>, Seq<char>)> {
    let k = find_char(l, ':');
    if k == l.len() {
        None
    } else {
        Some((spec_trim(l.take(k as int)), spec_trim(l.skip(k as int + 1))))
    }
}

/// Folds lines into records: a blank line seals the record accumulated so
/// far (an empty one is not emitted), any other line contributes one pair,
/// and a record still open at the end is sealed too. A non-blank line
/// without a colon fails the whole parse.
pub open spec fn spec_parse_records(lines: Seq<Seq<char>>, cur: RawRecordView) -> Option<
    Seq<RawRecordView>,
>
    decreases lines.len(),
{
    if lines.len() == 0 {
        Some(
            if cur.len() == 0 {
                Seq::empty()
            } else {
                seq![cur]
            },
        )
    } else if lines[0].len() == 0 {
        match spec_parse_records(lines.drop_first(), Seq::empty()) {
            Option::None => None,
            Option::Some(rest) => Some(
                if cur.len() == 0 {
                    rest
                } else {
                    seq![cur] + rest
                },
            ),
        }
    } else {
        match spec_split_colon(lines[0]) {
            Option::None => None,
            Option::Some(kv) => spec_parse_records(lines.drop_first(), cur.push(kv)),
        }
    }
}

/// The raw records of the whole attribute block.
pub open spec fn spec_parse_cpuinfo(text: Seq<char>) -> Option<Seq<RawRecordView>> {
    spec_parse_records(spec_lines(text), Seq::empty())
}

/// Splits one non-blank line at its first colon.
fn split_colon_line(line: &str) -> (r: Option<(String, String)>)
    ensures
        match r {
            Some(kv) => spec_split_colon(line@) == Some((kv.0@, kv.1@)),
            None => spec_split_colon(line@) is None,
        },
{
    let len = line.unicode_len();
    let mut k: usize = 0;
    while k < len && line.get_char(k) != ':'
        invariant
            len == line@.len(),
            k <= len,
            forall|l: int| 0 <= l < k ==> line@[l] != ':',
        decreases len - k,
    {
        k += 1;
    }
    proof {
        lemma_find_char_scan(line@, ':', k as int);
    }
    if k == len {
        return None;
    }
    let key = trim(line.substring_char(0, k)).to_owned();
    let value = trim(line.substring_char(k + 1, len)).to_owned();
    proof {
        assert(line@.subrange(0, k as int) =~= line@.take(k as int));
        assert(line@.subrange(k + 1, len as int) =~= line@.skip(k as int + 1));
    }
    Some((key, value))
}

/// Parses the attribute block into its raw records, as `spec_parse_cpuinfo`
/// describes.
pub fn parse_cpuinfo(text: &str) -> (r: Result<Vec<Vec<(String, String)>>, CpuInfoError>)
    ensures
        match r {
            Ok(recs) => spec_parse_cpuinfo(text@) == Some(recs.deep_view()),
            Err(e) => spec_parse_cpuinfo(text@) is None && e == CpuInfoError::MalformedLine,
        },
{
    let lines = split_lines(text);
    let ghost lv = lines.deep_view();
    let mut records: Vec<Vec<(String, String)>> = Vec::new();
    let mut cur: Vec<(String, String)> = Vec::new();
    let mut i: usize = 0;
    proof {
        assert(lv.skip(0) =~= lv);
        assert(records.deep_view() =~= Seq::<RawRecordView>::empty());
        assert(cur.deep_view() =~= Seq::<(Seq<char>, Seq<char>)>::empty());
        match spec_parse_records(lv, cur.deep_view()) {
            Option::Some(rest) => {
                assert(records.deep_view() + rest =~= rest);
            },
            Option::None => {},
        }
    }
    while i < lines.len()
        invariant
            lv == lines.deep_view(),
            lv == spec_lines(text@),
            lines.len() == lv.len(),
            i <= lines.len(),
            spec_parse_records(lv, Seq::empty()) == (match spec_parse_records(
                lv.skip(i as int),
                cur.deep_view(),
            ) {
                Option::None => None::<Seq<RawRecordView>>,
                Option::Some(rest) => Some(records.deep_view() + rest),
            }),
        decreases lines.len() - i,
    {
        let ghost rdv = records.deep_view();
        let ghost cdv = cur.deep_view();
        let line = &lines[i];
        proof {
            assert(lv[i as int] == line@);
            assert(lv.skip(i as int)[0] == lv[i as int]);
            assert(lv.skip(i as int).drop_first() =~= lv.skip(i + 1));
            assert(lv.skip(i as int).len() > 0);
        }
        if line.unicode_len() == 0 {
            proof {
                assert(line@.len() == 0);
                assert(spec_parse_records(lv.skip(i as int), cdv) == (match spec_parse_records(
                    lv.skip(i + 1),
                    Seq::<(Seq<char>, Seq<char>)>::empty(),
                ) {
                    Option::None => None::<Seq<RawRecordView>>,
                    Option::Some(rest) => Some(
                        if cdv.len() == 0 {
                            rest
                        } else {
                            seq![cdv] + rest
                        },
                    ),
                }));
            }
            if cur.len() > 0 {
                let sealed = cur;
                cur = Vec::new();
                records.push(sealed);
                proof {
                    assert(records.deep_view() =~= rdv + seq![cdv]);
                    assert(cur.deep_view() =~= Seq::<(Seq<char>, Seq<char>)>::empty());
                    match spec_parse_records(lv.skip(i + 1), cur.deep_view()) {
                        Option::Some(rest) => {
                            assert((rdv + seq![cdv]) + rest =~= rdv + (seq![cdv] + rest));
                        },
                        Option::None => {},
                    }
                }
            } else {
                proof {
                    assert(cur.deep_view() =~= Seq::<(Seq<char>, Seq<char>)>::empty());
                }
            }
            i += 1;
        } else {
            match split_colon_line(line) {
                None => {
                    proof {
                        assert(spec_split_colon(lv.skip(i as int)[0]) is None);
                        assert(spec_parse_records(lv.skip(i as int), cur.deep_view()) is None);
                        assert(spec_parse_records(lv, Seq::empty()) is None);
                        assert(spec_parse_cpuinfo(text@) == spec_parse_records(lv, Seq::empty()));
                    }
                    return Err(CpuInfoError::MalformedLine);
                },
                Some(kv) => {
                    let ghost kvv = (kv.0@, kv.1@);
                    cur.push(kv);
                    proof {
                        assert(cur.deep_view() =~= cdv.push(kvv));
                        assert(spec_parse_records(lv.skip(i as int), cdv)
                            == spec_parse_records(lv.skip(i + 1), cdv.push(kvv)));
                    }
                    i += 1;
                },
            }
        }
    }
    proof {
        assert(lv.skip(lines.len() as int) =~= Seq::<Seq<char>>::empty());
    }
    if cur.len() > 0 {
        let ghost rdv = records.deep_view();
        let ghost cdv = cur.deep_view();
        records.push(cur);
        proof {
            assert(records.deep_view() =~= rdv + seq![cdv]);
        }
    }
    proof {
        assert(spec_parse_cpuinfo(text@) == Some(records.deep_view()));
    }
    Ok(records)
}

/// The value of the last pair in `rec` whose key is `key`: the pair that
/// would win if the pairs overwrote one another in a map.
pub open spec fn spec_lookup(rec: RawRecordView, key: Seq<char>) -> Option<Seq<char>>
    decreases rec.len(),
{
    if rec.len() == 0 {
        None
    } else if rec.last().0 == key {
        Some(rec.last().1)
    } else {
        spec_lookup(rec.drop_last(), key)
    }
}

/// Looks `key` up in a raw record.
pub fn lookup<'a>(rec: &'a Vec<(String, String)>, key: &str) -> (r: Option<&'a String>)
    ensures
        match r {
            Some(v) => spec_lookup(rec.deep_view(), key@) == Some(v@),
            None => spec_lookup(rec.deep_view(), key@) is None,
        },
{
    let ghost rv = rec.deep_view();
    let mut i: usize = rec.len();
    proof {
        assert(rv.take(rec.len() as int) =~= rv);
    }
    while i > 0
        invariant
            rv == rec.deep_view(),
            rec.len() == rv.len(),
            i <= rec.len(),
            spec_lookup(rv, key@) == spec_lookup(rv.take(i as int), key@),
        decreases i,
    {
        let pair = &rec[i - 1];
        proof {
            assert(rv[i - 1] == (pair.0@, pair.1@));
            assert(rv.take(i as int).last() == rv[i - 1]);
            assert(rv.take(i as int).drop_last() =~= rv.take(i - 1));
        }
        if str_eq(pair.0.as_str(), key) {
            return Some(&pair.1);
        }
        i -= 1;
    }
    proof {
        assert(rv.take(0) =~= Seq::<(Seq<char>, Seq<char>)>::empty());
    }
    None
}

/// Boolean fields: only the literal `yes` is true; `no`, anything else and
/// the empty value are all false.
pub open spec fn spec_parse_bool(v: Seq<char>) -> bool {
    v == "yes"@
}

/// Converts a boolean field.
pub fn cpuinfo_parse_bool(value: &str) -> (r: bool)
    ensures
        r == spec_parse_bool(value@),
{
    str_eq(value, "yes")
}

/// Hexadecimal fields: a `0x` prefix followed by a base-16 numeral in `u32`
/// range; a missing prefix or a malformed numeral converts to nothing.
pub open spec fn spec_parse_hex(v: Seq<char>) -> Option<u32> {
    if v.len() >= 2 && v.take(2) == "0x"@ && v.skip(2).len() > 0 && all_hex_digits(v.skip(2))
        && hex_val(v.skip(2)) <= u32::MAX {
        Some(hex_val(v.skip(2)) as u32)
    } else {
        None
    }
}

/// Converts a hexadecimal field.
pub fn cpuinfo_parse_hex(value: &str) -> (r: Option<u32>)
    ensures
        match r {
            Some(x) => spec_parse_hex(value@) == Some(x),
            None => spec_parse_hex(value@) is None,
        },
{
    let len = value.unicode_len();
    proof {
        reveal_strlit("0x");
    }
    if len < 2 {
        return None;
    }
    if value.get_char(0) != '0' || value.get_char(1) != 'x' {
        proof {
            assert(value@.take(2)[0] == value@[0]);
            assert(value@.take(2)[1] == value@[1]);
        }
        return None;
    }
    proof {
        assert(value@.take(2) =~= "0x"@);
    }
    let rest = value.substring_char(2, len);
    proof {
        assert(value@.subrange(2, len as int) =~= value@.skip(2));
    }
    parse_hex_u32(rest)
}

/// `<number> <unit>` fields: the value of the leading whitespace-separated
/// token read as a base-10 numeral; the unit is discarded. Nothing when
/// there is no token or the first token is not a numeral.
pub open spec fn spec_first_token_val(v: Seq<char>) -> Option<int> {
    let toks = spec_split_ws(v);
    if toks.len() > 0 && toks[0].len() > 0 && all_digits(toks[0]) {
        Some(dec_val(toks[0]))
    } else {
        None
    }
}

/// Converts a cache-size field: the leading numeric token, in kB.
pub fn cpuinfo_parse_cache_size(value: &str) -> (r: Option<u32>)
    ensures
        match r {
            Some(x) => spec_first_token_val(value@) == Some(x as int),
            None => match spec_first_token_val(value@) {
                Option::Some(n) => n > u32::MAX,
                Option::None => true,
            },
        },
{
    let toks = split_whitespace_tokens(value);
    if toks.len() == 0 {
        return None;
    }
    let first = &toks[0];
    proof {
        assert(toks.deep_view()[0] == first@);
    }
    parse_dec_u32(first.as_str())
}

/// Converts a TLB-size field: the leading numeric token, a count of pages.
pub fn cpuinfo_parse_tlb_size(value: &str) -> (r: Option<i32>)
    ensures
        match r {
            Some(x) => spec_first_token_val(value@) == Some(x as int),
            None => match spec_first_token_val(value@) {
                Option::Some(n) => n > i32::MAX,
                Option::None => true,
            },
        },
{
    let toks = split_whitespace_tokens(value);
    if toks.len() == 0 {
        return None;
    }
    let first = &toks[0];
    proof {
        assert(toks.deep_view()[0] == first@);
    }
    parse_dec_i32(first.as_str())
}

/// Converts a space-delimited list field into its tokens, order preserved.
pub fn cpuinfo_parse_list(value: &str) -> (r: Vec<String>)
    ensures
        r.deep_view() == spec_split_ws(value@),
{
    split_whitespace_tokens(value)
}

/// A plain decimal field in `u32` range.
pub open spec fn spec_dec_u32_ok(v: Seq<char>) -> bool {
    v.len() > 0 && all_digits(v) && dec_val(v) <= u32::MAX
}

/// A plain decimal field in `i32` range.
pub open spec fn spec_dec_i32_ok(v: Seq<char>) -> bool {
    v.len() > 0 && all_digits(v) && dec_val(v) <= i32::MAX
}

/// The typed summary of record 0, plus the record count, as mathematical
/// values.
pub ghost struct CpuInfoView {
    pub processor: Seq<char>,
    pub vendor_id: Seq<char>,
    pub cpu_family: i32,
    pub model: u32,
    pub model_name: Seq<char>,
    pub stepping: i32,
    pub microcode: u32,
    pub mhz: Seq<char>,
    pub cache_size: u32,
    pub physical_id: i32,
    pub siblings: i32,
    pub core_id: i32,
    pub cpu_cores: i32,
    pub apicid: i32,
    pub initial_apicid: i32,
    pub fpu: bool,
    pub fpu_exception: bool,
    pub cpuid_level: i32,
    pub wp: bool,
    pub flags: Seq<Seq<char>>,
    pub bugs: Seq<Seq<char>>,
    pub bogomips: Seq<char>,
    pub tlb_size: i32,
    pub clflush_size: u32,
    pub cache_alignment: i32,
    pub address_sizes: Seq<char>,
    pub power_management: Seq<Seq<char>>,
    pub ncpus: nat,
}

/// Every key the summary requires is present in record 0.
pub open spec fn spec_has_all_keys(r0: RawRecordView) -> bool {
    &&& spec_lookup(r0, "processor"@) is Some
    &&& spec_lookup(r0, "vendor_id"@) is Some
    &&& spec_lookup(r0, "cpu family"@) is Some
    &&& spec_lookup(r0, "model"@) is Some
    &&& spec_lookup(r0, "model name"@) is Some
    &&& spec_lookup(r0, "stepping"@) is Some
    &&& spec_lookup(r0, "microcode"@) is Some
    &&& spec_lookup(r0, "cpu MHz"@) is Some
    &&& spec_lookup(r0, "cache size"@) is Some
    &&& spec_lookup(r0, "physical id"@) is Some
    &&& spec_lookup(r0, "siblings"@) is Some
    &&& spec_lookup(r0, "core id"@) is Some
    &&& spec_lookup(r0, "cpu cores"@) is Some
    &&& spec_lookup(r0, "apicid"@) is Some
    &&& spec_lookup(r0, "initial apicid"@) is Some
    &&& spec_lookup(r0, "fpu"@) is Some
    &&& spec_lookup(r0, "fpu_exception"@) is Some
    &&& spec_lookup(r0, "cpuid level"@) is Some
    &&& spec_lookup(r0, "wp"@) is Some
    &&& spec_lookup(r0, "flags"@) is Some
    &&& spec_lookup(r0, "bugs"@) is Some
    &&& spec_lookup(r0, "bogomips"@) is Some
    &&& spec_lookup(r0, "TLB size"@) is Some
    &&& spec_lookup(r0, "clflush size"@) is Some
    &&& spec_lookup(r0, "cache_alignment"@) is Some
    &&& spec_lookup(r0, "address sizes"@) is Some
    &&& spec_lookup(r0, "power management"@) is Some
}

/// Every numeric field of record 0 converts within its target width.
pub open spec fn spec_fields_ok(r0: RawRecordView) -> bool {
    &&& spec_dec_i32_ok(spec_lookup(r0, "cpu family"@)->0)
    &&& spec_dec_u32_ok(spec_lookup(r0, "model"@)->0)
    &&& spec_dec_i32_ok(spec_lookup(r0, "stepping"@)->0)
    &&& spec_parse_hex(spec_lookup(r0, "microcode"@)->0) is Some
    &&& (spec_first_token_val(spec_lookup(r0, "cache size"@)->0) matches Some(n) && n
        <= u32::MAX)
    &&& spec_dec_i32_ok(spec_lookup(r0, "physical id"@)->0)
    &&& spec_dec_i32_ok(spec_lookup(r0, "siblings"@)->0)
    &&& spec_dec_i32_ok(spec_lookup(r0, "core id"@)->0)
    &&& spec_dec_i32_ok(spec_lookup(r0, "cpu cores"@)->0)
    &&& spec_dec_i32_ok(spec_lookup(r0, "apicid"@)->0)
    &&& spec_dec_i32_ok(spec_lookup(r0, "initial apicid"@)->0)
    &&& spec_dec_i32_ok(spec_lookup(r0, "cpuid level"@)->0)
    &&& (spec_first_token_val(spec_lookup(r0, "TLB size"@)->0) matches Some(n) && n
        <= i32::MAX)
    &&& spec_dec_u32_ok(spec_lookup(r0, "clflush size"@)->0)
    &&& spec_dec_i32_ok(spec_lookup(r0, "cache_alignment"@)->0)
}

/// The summary extracted from the records, defined when the keys are present
/// and the numeric fields convert.
pub open spec fn spec_extract(recs: Seq<RawRecordView>) -> CpuInfoView {
    let r0 = recs[0];
    CpuInfoView {
        processor: spec_lookup(r0, "processor"@)->0,
        vendor_id: spec_lookup(r0, "vendor_id"@)->0,
        cpu_family: dec_val(spec_lookup(r0, "cpu family"@)->0) as i32,
        model: dec_val(spec_lookup(r0, "model"@)->0) as u32,
        model_name: spec_lookup(r0, "model name"@)->0,
        stepping: dec_val(spec_lookup(r0, "stepping"@)->0) as i32,
        microcode: spec_parse_hex(spec_lookup(r0, "microcode"@)->0)->0,
        mhz: spec_lookup(r0, "cpu MHz"@)->0,
        cache_size: spec_first_token_val(spec_lookup(r0, "cache size"@)->0)->0 as u32,
        physical_id: dec_val(spec_lookup(r0, "physical id"@)->0) as i32,
        siblings: dec_val(spec_lookup(r0, "siblings"@)->0) as i32,
        core_id: dec_val(spec_lookup(r0, "core id"@)->0) as i32,
        cpu_cores: dec_val(spec_lookup(r0, "cpu cores"@)->0) as i32,
        apicid: dec_val(spec_lookup(r0, "apicid"@)->0) as i32,
        initial_apicid: dec_val(spec_lookup(r0, "initial apicid"@)->0) as i32,
        fpu: spec_parse_bool(spec_lookup(r0, "fpu"@)->0),
        fpu_exception: spec_parse_bool(spec_lookup(r0, "fpu_exception"@)->0),
        cpuid_level: dec_val(spec_lookup(r0, "cpuid level"@)->0) as i32,
        wp: spec_parse_bool(spec_lookup(r0, "wp"@)->0),
        flags: spec_split_ws(spec_lookup(r0, "flags"@)->0),
        bugs: spec_split_ws(spec_lookup(r0, "bugs"@)->0),
        bogomips: spec_lookup(r0, "bogomips"@)->0,
        tlb_size: spec_first_token_val(spec_lookup(r0, "TLB size"@)->0)->0 as i32,
        clflush_size: dec_val(spec_lookup(r0, "clflush size"@)->0) as u32,
        cache_alignment: dec_val(spec_lookup(r0, "cache_alignment"@)->0) as i32,
        address_sizes: spec_lookup(r0, "address sizes"@)->0,
        power_management: spec_split_ws(spec_lookup(r0, "power management"@)->0),
        ncpus: recs.len(),
    }
}

/// The whole pipeline from block text to typed summary: parse failure, an
/// empty block, a missing key and an unconvertible value are fatal, in that
/// order of precedence.
pub open spec fn spec_cpuinfo(text: Seq<char>) -> Result<CpuInfoView, CpuInfoError> {
    match spec_parse_cpuinfo(text) {
        Option::None => Err(CpuInfoError::MalformedLine),
        Option::Some(recs) => if recs.len() == 0 {
            Err(CpuInfoError::NoRecords)
        } else if !spec_has_all_keys(recs[0]) {
            Err(CpuInfoError::MissingKey)
        } else if !spec_fields_ok(recs[0]) {
            Err(CpuInfoError::BadValue)
        } else {
            Ok(spec_extract(recs))
        },
    }
}

/// The typed per-CPU summary: the fields of record 0 and the record count.
#[derive(Debug)]
pub struct CpuInfo {
    pub processor: String,
    pub vendor_id: String,
    pub cpu_family: i32,
    pub model: u32,
    pub model_name: String,
    pub stepping: i32,
    pub microcode: u32,
    pub mhz: String,
    pub cache_size: u32,
    pub physical_id: i32,
    pub siblings: i32,
    pub core_id: i32,
    pub cpu_cores: i32,
    pub apicid: i32,
    pub initial_apicid: i32,
    pub fpu: bool,
    pub fpu_exception: bool,
    pub cpuid_level: i32,
    pub wp: bool,
    pub flags: Vec<String>,
    pub bugs: Vec<String>,
    pub bogomips: String,
    pub tlb_size: i32,
    pub clflush_size: u32,
    pub cache_alignment: i32,
    pub address_sizes: String,
    pub power_management: Vec<String>,
    pub ncpus: usize,
}

impl View for CpuInfo {
    type V = CpuInfoView;

    open spec fn view(&self) -> CpuInfoView {
        CpuInfoView {
            processor: self.processor@,
            vendor_id: self.vendor_id@,
            cpu_family: self.cpu_family,
            model: self.model,
            model_name: self.model_name@,
            stepping: self.stepping,
            microcode: self.microcode,
            mhz: self.mhz@,
            cache_size: self.cache_size,
            physical_id: self.physical_id,
            siblings: self.siblings,
            core_id: self.core_id,
            cpu_cores: self.cpu_cores,
            apicid: self.apicid,
            initial_apicid: self.initial_apicid,
            fpu: self.fpu,
            fpu_exception: self.fpu_exception,
            cpuid_level: self.cpuid_level,
            wp: self.wp,
            flags: self.flags.deep_view(),
            bugs: self.bugs.deep_view(),
            bogomips: self.bogomips@,
            tlb_size: self.tlb_size,
            clflush_size: self.clflush_size,
            cache_alignment: self.cache_alignment,
            address_sizes: self.address_sizes@,
            power_management: self.power_management.deep_view(),
            ncpus: self.ncpus as nat,
        }
    }
}

impl CpuInfo {
    /// Parses the attribute block and types record 0, as `spec_cpuinfo`
    /// describes.
    pub fn new(text: &str) -> (r: Result<CpuInfo, CpuInfoError>)
        ensures
            match r {
                Ok(c) => spec_cpuinfo(text@) == Ok::<CpuInfoView, CpuInfoError>(c@),
                Err(e) => spec_cpuinfo(text@) == Err::<CpuInfoView, CpuInfoError>(e),
            },
    {
        let records = match parse_cpuinfo(text) {
            Ok(v) => v,
            Err(e) => {
                return Err(e);
            },
        };
        if records.len() == 0 {
            return Err(CpuInfoError::NoRecords);
        }
        let r0 = &records[0];
        proof {
            assert(records.deep_view()[0] == r0.deep_view());
        }
        let processor_v = match lookup(r0, "processor") {
            Some(v) => v,
            None => {
                return Err(CpuInfoError::MissingKey);
            },
        };
        let vendor_id_v = match lookup(r0, "vendor_id") {
            Some(v) => v,
            None => {
                return Err(CpuInfoError::MissingKey);
            },
        };
        let cpu_family_v = match lookup(r0, "cpu family") {
            Some(v) => v,
            None => {
                return Err(CpuInfoError::MissingKey);
            },
        };
        let model_v = match lookup(r0, "model") {
            Some(v) => v,
            None => {
                return Err(CpuInfoError::MissingKey);
            },
        };
        let model_name_v = match lookup(r0, "model name") {
            Some(v) => v,
            None => {
                return Err(CpuInfoError::MissingKey);
            },
        };
        let stepping_v = match lookup(r0, "stepping") {
            Some(v) => v,
            None => {
                return Err(CpuInfoError::MissingKey);
            },
        };
        let microcode_v = match lookup(r0, "microcode") {
            Some(v) => v,
            None => {
                return Err(CpuInfoError::MissingKey);
            },
        };
        let mhz_v = match lookup(r0, "cpu MHz") {
            Some(v) => v,
            None => {
                return Err(CpuInfoError::MissingKey);
            },
        };
        let cache_size_v = match lookup(r0, "cache size") {
            Some(v) => v,
            None => {
                return Err(CpuInfoError::MissingKey);
            },
        };
        let physical_id_v = match lookup(r0, "physical id") {
            Some(v) => v,
            None => {
                return Err(CpuInfoError::MissingKey);
            },
        };
        let siblings_v = match lookup(r0, "siblings") {
            Some(v) => v,
            None => {
                return Err(CpuInfoError::MissingKey);
            },
        };
        let core_id_v = match lookup(r0, "core id") {
            Some(v) => v,
            None => {
                return Err(CpuInfoError::MissingKey);
            },
        };
        let cpu_cores_v = match lookup(r0, "cpu cores") {
            Some(v) => v,
            None => {
                return Err(CpuInfoError::MissingKey);
            },
        };
        let apicid_v = match lookup(r0, "apicid") {
            Some(v) => v,
            None => {
                return Err(CpuInfoError::MissingKey);
            },
        };
        let initial_apicid_v = match lookup(r0, "initial apicid") {
            Some(v) => v,
            None => {
                return Err(CpuInfoError::MissingKey);
            },
        };
        let fpu_v = match lookup(r0, "fpu") {
            Some(v) => v,
            None => {
                return Err(CpuInfoError::MissingKey);
            },
        };
        let fpu_exception_v = match lookup(r0, "fpu_exception") {
            Some(v) => v,
            None => {
                return Err(CpuInfoError::MissingKey);
            },
        };
        let cpuid_level_v = match lookup(r0, "cpuid level") {
            Some(v) => v,
            None => {
                return Err(CpuInfoError::MissingKey);
            },
        };
        let wp_v = match lookup(r0, "wp") {
            Some(v) => v,
            None => {
                return Err(CpuInfoError::MissingKey);
            },
        };
        let flags_v = match lookup(r0, "flags") {
            Some(v) => v,
            None => {
                return Err(CpuInfoError::MissingKey);
            },
        };
        let bugs_v = match lookup(r0, "bugs") {
            Some(v) => v,
            None => {
                return Err(CpuInfoError::MissingKey);
            },
        };
        let bogomips_v = match lookup(r0, "bogomips") {
            Some(v) => v,
            None => {
                return Err(CpuInfoError::MissingKey);
            },
        };
        let tlb_size_v = match lookup(r0, "TLB size") {
            Some(v) => v,
            None => {
                return Err(CpuInfoError::MissingKey);
            },
        };
        let clflush_size_v = match lookup(r0, "clflush size") {
            Some(v) => v,
            None => {
                return Err(CpuInfoError::MissingKey);
            },
        };
        let cache_alignment_v = match lookup(r0, "cache_alignment") {
            Some(v) => v,
            None => {
                return Err(CpuInfoError::MissingKey);
            },
        };
        let address_sizes_v = match lookup(r0, "address sizes") {
            Some(v) => v,
            None => {
                return Err(CpuInfoError::MissingKey);
            },
        };
        let power_management_v = match lookup(r0, "power management") {
            Some(v) => v,
            None => {
                return Err(CpuInfoError::MissingKey);
            },
        };
        let cpu_family = match parse_dec_i32(cpu_family_v.as_str()) {
            Some(x) => x,
            None => {
                return Err(CpuInfoError::BadValue);
            },
        };
        let model = match parse_dec_u32(model_v.as_str()) {
            Some(x) => x,
            None => {
                return Err(CpuInfoError::BadValue);
            },
        };
        let stepping = match parse_dec_i32(stepping_v.as_str()) {
            Some(x) => x,
            None => {
                return Err(CpuInfoError::BadValue);
            },
        };
        let microcode = match cpuinfo_parse_hex(microcode_v.as_str()) {
            Some(x) => x,
            None => {
                return Err(CpuInfoError::BadValue);
            },
        };
        let cache_size = match cpuinfo_parse_cache_size(cache_size_v.as_str()) {
            Some(x) => x,
            None => {
                return Err(CpuInfoError::BadValue);
            },
        };
        let physical_id = match parse_dec_i32(physical_id_v.as_str()) {
            Some(x) => x,
            None => {
                return Err(CpuInfoError::BadValue);
            },
        };
        let siblings = match parse_dec_i32(siblings_v.as_str()) {
            Some(x) => x,
            None => {
                return Err(CpuInfoError::BadValue);
            },
        };
        let core_id = match parse_dec_i32(core_id_v.as_str()) {
            Some(x) => x,
            None => {
                return Err(CpuInfoError::BadValue);
            },
        };
        let cpu_cores = match parse_dec_i32(cpu_cores_v.as_str()) {
            Some(x) => x,
            None => {
                return Err(CpuInfoError::BadValue);
            },
        };
        let apicid = match parse_dec_i32(apicid_v.as_str()) {
            Some(x) => x,
            None => {
                return Err(CpuInfoError::BadValue);
            },
        };
        let initial_apicid = match parse_dec_i32(initial_apicid_v.as_str()) {
            Some(x) => x,
            None => {
                return Err(CpuInfoError::BadValue);
            },
        };
        let cpuid_level = match parse_dec_i32(cpuid_level_v.as_str()) {
            Some(x) => x,
            None => {
                return Err(CpuInfoError::BadValue);
            },
        };
        let tlb_size = match cpuinfo_parse_tlb_size(tlb_size_v.as_str()) {
            Some(x) => x,
            None => {
                return Err(CpuInfoError::BadValue);
            },
        };
        let clflush_size = match parse_dec_u32(clflush_size_v.as_str()) {
            Some(x) => x,
            None => {
                return Err(CpuInfoError::BadValue);
            },
        };
        let cache_alignment = match parse_dec_i32(cache_alignment_v.as_str()) {
            Some(x) => x,
            None => {
                return Err(CpuInfoError::BadValue);
            },
        };
        let fpu = cpuinfo_parse_bool(fpu_v.as_str());
        let fpu_exception = cpuinfo_parse_bool(fpu_exception_v.as_str());
        let wp = cpuinfo_parse_bool(wp_v.as_str());
        let flags = cpuinfo_parse_list(flags_v.as_str());
        let bugs = cpuinfo_parse_list(bugs_v.as_str());
        let power_management = cpuinfo_parse_list(power_management_v.as_str());
        let info = CpuInfo {
            processor: processor_v.clone(),
            vendor_id: vendor_id_v.clone(),
            cpu_family,
            model,
            model_name: model_name_v.clone(),
            stepping,
            microcode,
            mhz: mhz_v.clone(),
            cache_size,
            physical_id,
            siblings,
            core_id,
            cpu_cores,
            apicid,
            initial_apicid,
            fpu,
            fpu_exception,
            cpuid_level,
            wp,
            flags,
            bugs,
            bogomips: bogomips_v.clone(),
            tlb_size,
            clflush_size,
            cache_alignment,
            address_sizes: address_sizes_v.clone(),
            power_management,
            ncpus: records.len(),
        };
        proof {
            assert(info@ == spec_extract(records.deep_view()));
        }
        Ok(info)
    }

    /// Whether `token` is one of the feature flags.
    pub fn has_flag(&self, token: &str) -> (r: bool)
        ensures
            r == self.flags.deep_view().contains(token@),
    {
        let ghost fv = self.flags.deep_view();
        let mut i: usize = 0;
        while i < self.flags.len()
            invariant
                fv == self.flags.deep_view(),
                self.flags.len() == fv.len(),
                i <= fv.len(),
                forall|k: int| 0 <= k < i ==> fv[k] != token@,
            decreases fv.len() - i,
        {
            let f = &self.flags[i];
            proof {
                assert(fv[i as int] == f@);
            }
            if str_eq(f.as_str(), token) {
                return true;
            }
            i += 1;
        }
        proof {
            assert(forall|k: int| 0 <= k < fv.len() ==> fv[k] != token@);
        }
        false
    }

    /// The reported virtualization extension: `VT-x` when the `vmx` flag
    /// token is present (it wins even beside `svm`), `AMD-V` when only `svm`
    /// is, empty otherwise.
    pub fn virtualization_extension(&self) -> (r: &'static str)
        ensures
            r@ == spec_virt_extension(self.flags.deep_view()),
    {
        if self.has_flag("vmx") {
            "VT-x"
        } else if self.has_flag("svm") {
            "AMD-V"
        } else {
            proof {
                reveal_strlit("");
                assert(""@ =~= Seq::<char>::empty());
            }
            ""
        }
    }
}

/// A block that does not end with a line terminator parses to the same
/// records as the same block with one appended: the trailing open record is
/// flushed at the end of input, never silently dropped.
pub proof fn lemma_trailing_record_flushed(text: Seq<char>)
    requires
        text.len() > 0,
        text.last() != '\n',
    ensures
        spec_parse_cpuinfo(text.push('\n')) == spec_parse_cpuinfo(text),
{
    crate::text::lemma_lines_trailing_newline(text);
}

/// The virtualization extension a flag set denotes: `VT-x` for `vmx`,
/// `AMD-V` for `svm`, with `vmx` taking precedence, and empty without
/// either.
pub open spec fn spec_virt_extension(flags: Seq<Seq<char>>) -> Seq<char> {
    if flags.contains("vmx"@) {
        "VT-x"@
    } else if flags.contains("svm"@) {
        "AMD-V"@
    } else {
        Seq::empty()
    }
}

} // verus!
