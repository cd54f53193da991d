//! Verified text primitives shared by the parsers: string equality, ASCII
//! whitespace trimming, substring search, and decimal / hexadecimal numeral
//! parsing, each stated against a recursive specification over `Seq<char>`.

use vstd::prelude::*;

verus! {

/// ASCII whitespace as the kernel-exposed text files use it.
pub open spec fn is_space(c: char) -> bool {
    c == ' ' || c == '\t' || c == '\n' || c == '\r'
}

/// `s` with its leading whitespace removed.
pub open spec fn trim_front(s: Seq<char>) -> Seq<char>
    decreases s.len(),
{
    if s.len() > 0 && is_space(s[0]) {
        trim_front(s.drop_first())
    } else {
        s
    }
}

/// `s` with its trailing whitespace removed.
pub open spec fn trim_back(s: Seq<char>) -> Seq<char>
    decreases s.len(),
{
    if s.len() > 0 && is_space(s.last()) {
        trim_back(s.drop_last())
    } else {
        s
    }
}

/// `s` with surrounding whitespace removed.
pub open spec fn spec_trim(s: Seq<char>) -> Seq<char> {
    trim_back(trim_front(s))
}

proof fn lemma_trim_front_is_skip(s: Seq<char>, lo: int)
    requires
        0 <= lo <= s.len(),
        forall|j: int| 0 <= j < lo ==> is_space(s[j]),
        lo == s.len() || !is_space(s[lo]),
    ensures
        trim_front(s) == s.skip(lo),
    decreases lo,
{
    if lo == 0 {
        assert(s.skip(0) =~= s);
    } else {
        assert(is_space(s[0]));
        let t = s.drop_first();
        assert(forall|j: int| 0 <= j < lo - 1 ==> is_space(t[j]));
        lemma_trim_front_is_skip(t, lo - 1);
        assert(t.skip(lo - 1) =~= s.skip(lo));
    }
}

proof fn lemma_trim_back_is_take(s: Seq<char>, hi: int)
    requires
        0 <= hi <= s.len(),
        forall|j: int| hi <= j < s.len() ==> is_space(s[j]),
        hi == 0 || !is_space(s[hi - 1]),
    ensures
        trim_back(s) == s.take(hi),
    decreases s.len() - hi,
{
    if hi == s.len() {
        assert(s.take(hi) =~= s);
    } else {
        assert(is_space(s.last()));
        let t = s.drop_last();
        assert(forall|j: int| hi <= j < t.len() ==> is_space(t[j]));
        lemma_trim_back_is_take(t, hi);
        assert(t.take(hi) =~= s.take(hi));
    }
}

/// Whether `c` is ASCII whitespace.
pub fn is_space_char(c: char) -> (r: bool)
    ensures
        r == is_space(c),
{
    c == ' ' || c == '\t' || c == '\n' || c == '\r'
}

/// `s` with surrounding ASCII whitespace removed.
pub fn trim(s: &str) -> (r: &str)
    ensures
        r@ == spec_trim(s@),
{
    let len = s.unicode_len();
    let mut lo: usize = 0;
    while lo < len && is_space_char(s.get_char(lo))
        invariant
            len == s@.len(),
            lo <= len,
            forall|j: int| 0 <= j < lo ==> is_space(s@[j]),
        decreases len - lo,
    {
        lo += 1;
    }
    let mut hi: usize = len;
    while hi > lo && is_space_char(s.get_char(hi - 1))
        invariant
            len == s@.len(),
            lo <= hi <= len,
            forall|j: int| hi <= j < len ==> is_space(s@[j]),
        decreases hi,
    {
        hi -= 1;
    }
    proof {
        lemma_trim_front_is_skip(s@, lo as int);
        let t = s@.skip(lo as int);
        assert(forall|j: int| hi - lo <= j < t.len() ==> is_space(#[trigger] t[j]));
        assert(hi - lo == 0 || !is_space(t[hi - lo - 1]));
        lemma_trim_back_is_take(t, hi - lo);
        assert(t.take(hi - lo) =~= s@.subrange(lo as int, hi as int));
    }
    s.substring_char(lo, hi)
}

/// `needle` occurs in `hay` starting at offset `i`.
pub open spec fn contains_at(hay: Seq<char>, needle: Seq<char>, i: int) -> bool {
    0 <= i && i + needle.len() <= hay.len() && hay.subrange(i, i + needle.len()) == needle
}

/// `needle` occurs somewhere in `hay`.
pub open spec fn spec_contains(hay: Seq<char>, needle: Seq<char>) -> bool {
    exists|i: int| contains_at(hay, needle, i)
}

/// Naive substring search.
pub fn contains(hay: &str, needle: &str) -> (r: bool)
    ensures
        r == spec_contains(hay@, needle@),
{
    let hlen = hay.unicode_len();
    let nlen = needle.unicode_len();
    if nlen == 0 {
        proof {
            assert(hay@.subrange(0, 0) =~= needle@);
            assert(contains_at(hay@, needle@, 0));
        }
        return true;
    }
    if nlen > hlen {
        assert(!spec_contains(hay@, needle@)) by {
            if spec_contains(hay@, needle@) {
                let i = choose|i: int| contains_at(hay@, needle@, i);
            }
        };
        return false;
    }
    let mut i: usize = 0;
    while i <= hlen - nlen
        invariant
            hlen == hay@.len(),
            nlen == needle@.len(),
            1 <= nlen <= hlen,
            i <= hlen - nlen + 1,
            forall|k: int| 0 <= k < i ==> !contains_at(hay@, needle@, k),
        decreases hlen - i,
    {
        let mut j: usize = 0;
        let mut matched = true;
        while matched && j < nlen
            invariant
                hlen == hay@.len(),
                nlen == needle@.len(),
                i + nlen <= hlen,
                j <= nlen,
                matched ==> forall|l: int| 0 <= l < j ==> hay@[i + l] == needle@[l],
                !matched ==> hay@.subrange(i as int, i + nlen) != needle@,
            decreases nlen - j, (if matched { 1int } else { 0int }),
        {
            if hay.get_char(i + j) != needle.get_char(j) {
                proof {
                    let sub = hay@.subrange(i as int, i + nlen);
                    assert(sub[j as int] == hay@[i + j]);
                }
                matched = false;
            } else {
                j += 1;
            }
        }
        if matched {
            proof {
                assert(hay@.subrange(i as int, i + nlen) =~= needle@);
                assert(contains_at(hay@, needle@, i as int));
            }
            return true;
        }
        proof {
            assert(hay@.subrange(i as int, i + nlen) != needle@);
            assert(!contains_at(hay@, needle@, i as int));
        }
        i += 1;
    }
    proof {
        assert(forall|k: int| contains_at(hay@, needle@, k) ==> 0 <= k <= hlen - nlen);
        assert(!spec_contains(hay@, needle@));
    }
    false
}

/// Character-wise string equality.
pub fn str_eq(a: &str, b: &str) -> (r: bool)
    ensures
        r == (a@ == b@),
{
    let alen = a.unicode_len();
    let blen = b.unicode_len();
    if alen != blen {
        assert(a@ != b@) by {
            if a@ == b@ {
                assert(a@.len() == b@.len());
            }
        };
        return false;
    }
    let mut i: usize = 0;
    while i < alen
        invariant
            alen == a@.len(),
            blen == b@.len(),
            alen == blen,
            i <= alen,
            forall|j: int| 0 <= j < i ==> a@[j] == b@[j],
        decreases alen - i,
    {
        if a.get_char(i) != b.get_char(i) {
            assert(a@ != b@) by {
                if a@ == b@ {
                    assert(a@[i as int] == b@[i as int]);
                }
            };
            return false;
        }
        i += 1;
    }
    proof {
        assert(a@ =~= b@);
    }
    true
}

/// Decimal digit.
pub open spec fn is_digit(c: char) -> bool {
    '0' as u32 <= c as u32 <= '9' as u32
}

/// Value of a decimal digit.
pub open spec fn digit_val(c: char) -> int {
    c as u32 - '0' as u32
}

/// Every character of `s` is a decimal digit.
pub open spec fn all_digits(s: Seq<char>) -> bool {
    forall|i: int| 0 <= i < s.len() ==> is_digit(s[i])
}

/// The value of `s` read as a base-10 numeral.
pub open spec fn dec_val(s: Seq<char>) -> int
    decreases s.len(),
{
    if s.len() == 0 {
        0
    } else {
        dec_val(s.drop_last()) * 10 + digit_val(s.last())
    }
}

/// Hexadecimal digit, either case.
pub open spec fn is_hex_digit(c: char) -> bool {
    ('0' as u32 <= c as u32 <= '9' as u32) || ('a' as u32 <= c as u32 <= 'f' as u32) || (
    'A' as u32 <= c as u32 <= 'F' as u32)
}

/// Value of a hexadecimal digit.
pub open spec fn hex_digit_val(c: char) -> int {
    if '0' as u32 <= c as u32 <= '9' as u32 {
        c as u32 - '0' as u32
    } else if 'a' as u32 <= c as u32 <= 'f' as u32 {
        c as u32 - 'a' as u32 + 10
    } else {
        c as u32 - 'A' as u32 + 10
    }
}

/// Every character of `s` is a hexadecimal digit.
pub open spec fn all_hex_digits(s: Seq<char>) -> bool {
    forall|i: int| 0 <= i < s.len() ==> is_hex_digit(s[i])
}

/// The value of `s` read as a base-16 numeral.
pub open spec fn hex_val(s: Seq<char>) -> int
    decreases s.len(),
{
    if s.len() == 0 {
        0
    } else {
        hex_val(s.drop_last()) * 16 + hex_digit_val(s.last())
    }
}

proof fn lemma_dec_val_nonneg(s: Seq<char>)
    requires
        all_digits(s),
    ensures
        dec_val(s) >= 0,
    decreases s.len(),
{
    if s.len() > 0 {
        assert(all_digits(s.drop_last()));
        lemma_dec_val_nonneg(s.drop_last());
    }
}

proof fn lemma_dec_val_take_le(s: Seq<char>, k: int)
    requires
        all_digits(s),
        0 <= k <= s.len(),
    ensures
        dec_val(s.take(k)) <= dec_val(s),
    decreases s.len(),
{
    if k == s.len() {
        assert(s.take(k) =~= s);
    } else {
        let t = s.drop_last();
        assert(all_digits(t));
        assert(s.take(k) =~= t.take(k));
        lemma_dec_val_take_le(t, k);
        lemma_dec_val_nonneg(t);
    }
}

proof fn lemma_hex_val_nonneg(s: Seq<char>)
    requires
        all_hex_digits(s),
    ensures
        hex_val(s) >= 0,
    decreases s.len(),
{
    if s.len() > 0 {
        assert(all_hex_digits(s.drop_last()));
        lemma_hex_val_nonneg(s.drop_last());
    }
}

proof fn lemma_hex_val_take_le(s: Seq<char>, k: int)
    requires
        all_hex_digits(s),
        0 <= k <= s.len(),
    ensures
        hex_val(s.take(k)) <= hex_val(s),
    decreases s.len(),
{
    if k == s.len() {
        assert(s.take(k) =~= s);
    } else {
        let t = s.drop_last();
        assert(all_hex_digits(t));
        assert(s.take(k) =~= t.take(k));
        lemma_hex_val_take_le(t, k);
        lemma_hex_val_nonneg(t);
    }
}

/// Length of the leading run of non-whitespace characters of `s`.
pub open spec fn run_len(s: Seq<char>) -> nat
    decreases s.len(),
{
    if s.len() == 0 || is_space(s[0]) {
        0
    } else {
        1 + run_len(s.drop_first())
    }
}

proof fn lemma_run_len_le(s: Seq<char>)
    ensures
        run_len(s) <= s.len(),
    decreases s.len(),
{
    if s.len() > 0 && !is_space(s[0]) {
        lemma_run_len_le(s.drop_first());
    }
}

/// The maximal non-whitespace runs of `s`, in order.
pub open spec fn spec_split_ws(s: Seq<char>) -> Seq<Seq<char>>
    decreases s.len(),
    via spec_split_ws_decreases
{
    if s.len() == 0 {
        Seq::empty()
    } else if is_space(s[0]) {
        spec_split_ws(s.drop_first())
    } else {
        seq![s.take(run_len(s) as int)] + spec_split_ws(s.skip(run_len(s) as int))
    }
}

#[via_fn]
proof fn spec_split_ws_decreases(s: Seq<char>) {
    if s.len() > 0 && !is_space(s[0]) {
        lemma_run_len_le(s);
    }
}

proof fn lemma_run_len_scan(s: Seq<char>, k: int)
    requires
        0 <= k <= s.len(),
        forall|l: int| 0 <= l < k ==> !is_space(s[l]),
        k == s.len() || is_space(s[k]),
    ensures
        run_len(s) == k,
    decreases k,
{
    if k == 0 {
    } else {
        let t = s.drop_first();
        assert(forall|l: int| 0 <= l < k - 1 ==> !is_space(t[l]));
        assert(k - 1 == t.len() || is_space(t[k - 1]));
        lemma_run_len_scan(t, k - 1);
    }
}

/// Splits `s` on ASCII whitespace into its non-empty tokens, in order.
pub fn split_whitespace_tokens(s: &str) -> (r: Vec<String>)
    ensures
        r.deep_view() == spec_split_ws(s@),
{
    let len = s.unicode_len();
    let mut tokens: Vec<String> = Vec::new();
    let mut i: usize = 0;
    proof {
        assert(tokens.deep_view() =~= Seq::<Seq<char>>::empty());
        assert(s@.skip(0) =~= s@);
        assert(spec_split_ws(s@) =~= tokens.deep_view() + spec_split_ws(s@.skip(0)));
    }
    while i < len
        invariant
            len == s@.len(),
            i <= len,
            spec_split_ws(s@) == tokens.deep_view() + spec_split_ws(s@.skip(i as int)),
        decreases len - i,
    {
        let c = s.get_char(i);
        if is_space_char(c) {
            proof {
                assert(s@.skip(i as int).drop_first() =~= s@.skip(i + 1));
            }
            i += 1;
        } else {
            let mut j: usize = i + 1;
            while j < len && !is_space_char(s.get_char(j))
                invariant
                    len == s@.len(),
                    i < j <= len,
                    forall|l: int| i <= l < j ==> !is_space(s@[l]),
                decreases len - j,
            {
                j += 1;
            }
            let tok = s.substring_char(i, j).to_owned();
            proof {
                let t = s@.skip(i as int);
                assert(forall|l: int| 0 <= l < j - i ==> !is_space(#[trigger] t[l]));
                assert(j - i == t.len() || is_space(t[j - i]));
                lemma_run_len_scan(t, j - i);
                assert(t.take(j - i) =~= s@.subrange(i as int, j as int));
                assert(t.skip(j - i) =~= s@.skip(j as int));
                assert(spec_split_ws(t) == seq![s@.subrange(i as int, j as int)] + spec_split_ws(
                    s@.skip(j as int),
                ));
            }
            tokens.push(tok);
            proof {
                assert(tokens.deep_view() =~= tokens.deep_view().drop_last() + seq![
                    s@.subrange(i as int, j as int),
                ]);
                assert(spec_split_ws(s@) =~= tokens.deep_view() + spec_split_ws(
                    s@.skip(j as int),
                ));
            }
            i = j;
        }
    }
    proof {
        assert(s@.skip(len as int) =~= Seq::<char>::empty());
        assert(spec_split_ws(s@) =~= tokens.deep_view());
    }
    tokens
}

/// Index of the first occurrence of `c` in `s`, or `s.len()` if there is
/// none.
pub open spec fn find_char(s: Seq<char>, c: char) -> nat
    decreases s.len(),
{
    if s.len() == 0 {
        0
    } else if s[0] == c {
        0
    } else {
        1 + find_char(s.drop_first(), c)
    }
}

pub proof fn lemma_find_char_le(s: Seq<char>, c: char)
    ensures
        find_char(s, c) <= s.len(),
    decreases s.len(),
{
    if s.len() > 0 && s[0] != c {
        lemma_find_char_le(s.drop_first(), c);
    }
}

pub proof fn lemma_find_char_scan(s: Seq<char>, c: char, k: int)
    requires
        0 <= k <= s.len(),
        forall|l: int| 0 <= l < k ==> s[l] != c,
        k == s.len() || s[k] == c,
    ensures
        find_char(s, c) == k,
    decreases k,
{
    if k > 0 {
        let t = s.drop_first();
        assert(forall|l: int| 0 <= l < k - 1 ==> t[l] != c);
        assert(k - 1 == t.len() || t[k - 1] == c);
        lemma_find_char_scan(t, c, k - 1);
    }
}

pub proof fn lemma_find_char_props(s: Seq<char>, c: char)
    ensures
        find_char(s, c) <= s.len(),
        forall|l: int| 0 <= l < find_char(s, c) ==> s[l] != c,
        find_char(s, c) < s.len() ==> s[find_char(s, c) as int] == c,
    decreases s.len(),
{
    if s.len() > 0 && s[0] != c {
        let t = s.drop_first();
        lemma_find_char_props(t, c);
        assert(forall|l: int| 0 <= l < find_char(t, c) ==> t[l] != c);
        assert(forall|l: int| 1 <= l < find_char(s, c) ==> s[l] == t[l - 1]);
    }
}

/// A line with a trailing carriage return has it removed.
pub open spec fn strip_cr(l: Seq<char>) -> Seq<char> {
    if l.len() > 0 && l.last() == '\r' {
        l.drop_last()
    } else {
        l
    }
}

/// The lines of `s`: pieces between line feeds, each with a trailing carriage
/// return removed; a final piece after the last line feed appears only if it
/// is non-empty.
pub open spec fn spec_lines(s: Seq<char>) -> Seq<Seq<char>>
    decreases s.len(),
    via spec_lines_decreases
{
    if s.len() == 0 {
        Seq::empty()
    } else {
        let k = find_char(s, '\n');
        if k == s.len() {
            seq![strip_cr(s)]
        } else {
            seq![strip_cr(s.take(k as int))] + spec_lines(s.skip(k as int + 1))
        }
    }
}

#[via_fn]
proof fn spec_lines_decreases(s: Seq<char>) {
    lemma_find_char_le(s, '\n');
}

/// A text that does not end with a line feed has the same lines as that text
/// with one appended: the final piece is not dropped for want of a
/// terminator.
pub proof fn lemma_lines_trailing_newline(s: Seq<char>)
    requires
        s.len() > 0,
        s.last() != '\n',
    ensures
        spec_lines(s.push('\n')) == spec_lines(s),
    decreases s.len(),
{
    let t = s.push('\n');
    let k = find_char(s, '\n');
    lemma_find_char_props(s, '\n');
    if k == s.len() {
        lemma_find_char_scan(t, '\n', s.len() as int);
        assert(t.take(s.len() as int) =~= s);
        assert(t.skip(s.len() as int + 1) =~= Seq::<char>::empty());
        assert(spec_lines(t) =~= seq![strip_cr(s)] + spec_lines(Seq::<char>::empty()));
        assert(seq![strip_cr(s)] + Seq::<Seq<char>>::empty() =~= seq![strip_cr(s)]);
    } else {
        assert(s[k as int] == '\n');
        assert(k < s.len() - 1);
        assert(forall|l: int| 0 <= l < k ==> t[l] != '\n');
        lemma_find_char_scan(t, '\n', k as int);
        let srest = s.skip(k as int + 1);
        assert(srest.len() > 0);
        assert(srest.last() == s.last());
        lemma_lines_trailing_newline(srest);
        assert(t.take(k as int) =~= s.take(k as int));
        assert(t.skip(k as int + 1) =~= srest.push('\n'));
    }
}

/// Splits `s` into lines, as `spec_lines` describes.
pub fn split_lines(s: &str) -> (r: Vec<String>)
    ensures
        r.deep_view() == spec_lines(s@),
{
    let len = s.unicode_len();
    let mut lines: Vec<String> = Vec::new();
    let mut i: usize = 0;
    proof {
        assert(lines.deep_view() =~= Seq::<Seq<char>>::empty());
        assert(s@.skip(0) =~= s@);
        assert(spec_lines(s@) =~= lines.deep_view() + spec_lines(s@.skip(0)));
    }
    while i < len
        invariant
            len == s@.len(),
            i <= len,
            spec_lines(s@) == lines.deep_view() + spec_lines(s@.skip(i as int)),
        decreases len - i,
    {
        let mut j: usize = i;
        while j < len && s.get_char(j) != '\n'
            invariant
                len == s@.len(),
                i <= j <= len,
                forall|l: int| i <= l < j ==> s@[l] != '\n',
            decreases len - j,
        {
            j += 1;
        }
        let mut e: usize = j;
        if e > i && s.get_char(e - 1) == '\r' {
            e -= 1;
        }
        let line = s.substring_char(i, e).to_owned();
        let ghost t = s@.skip(i as int);
        proof {
            assert(forall|l: int| 0 <= l < j - i ==> #[trigger] t[l] != '\n');
            assert(j - i == t.len() || t[j - i] == '\n');
            lemma_find_char_scan(t, '\n', j - i);
            assert(t.take(j - i) =~= s@.subrange(i as int, j as int));
            assert(strip_cr(s@.subrange(i as int, j as int)) =~= s@.subrange(
                i as int,
                e as int,
            ));
        }
        lines.push(line);
        proof {
            assert(lines.deep_view() =~= lines.deep_view().drop_last() + seq![
                s@.subrange(i as int, e as int),
            ]);
        }
        if j < len {
            proof {
                assert(t.take(j - i) == strip_cr(t.take(j - i)) || t.take(j - i).last() == '\r');
                assert(spec_lines(t) == seq![strip_cr(t.take(j - i))] + spec_lines(
                    t.skip(j - i + 1),
                ));
                assert(t.skip(j - i + 1) =~= s@.skip(j + 1));
                assert(spec_lines(s@) =~= lines.deep_view() + spec_lines(s@.skip(j + 1)));
            }
            i = j + 1;
        } else {
            proof {
                assert(t.take(j - i) =~= t);
                assert(spec_lines(t) == seq![strip_cr(t)]);
                assert(s@.skip(len as int) =~= Seq::<char>::empty());
                assert(spec_lines(s@) =~= lines.deep_view() + spec_lines(s@.skip(len as int)));
            }
            i = j;
        }
    }
    proof {
        assert(s@.skip(len as int) =~= Seq::<char>::empty());
        assert(spec_lines(s@) =~= lines.deep_view());
    }
    lines
}

/// Parses a non-empty all-digit string as a base-10 `u64`.
pub fn parse_dec_u64(s: &str) -> (r: Option<u64>)
    ensures
        r is Some <==> (s@.len() > 0 && all_digits(s@) && dec_val(s@) <= u64::MAX),
        r matches Some(v) ==> v == dec_val(s@),
{
    let len = s.unicode_len();
    if len == 0 {
        return None;
    }
    let mut acc: u64 = 0;
    let mut i: usize = 0;
    while i < len
        invariant
            len == s@.len(),
            i <= len,
            all_digits(s@.take(i as int)),
            acc == dec_val(s@.take(i as int)),
        decreases len - i,
    {
        let c = s.get_char(i);
        let cv: u32 = c as u32;
        if cv < 48 || cv > 57 {
            proof {
                assert(!is_digit(s@[i as int]));
            }
            return None;
        }
        let d: u64 = (cv - 48) as u64;
        proof {
            assert(s@.take(i + 1).drop_last() =~= s@.take(i as int));
            assert(s@.take(i + 1).last() == s@[i as int]);
            assert(all_digits(s@.take(i + 1)));
            assert(dec_val(s@.take(i + 1)) == acc * 10 + d);
        }
        // u64::MAX is 10 * 1844674407370955161 + 5
        if acc > 1844674407370955161u64 || (acc == 1844674407370955161u64 && d > 5) {
            proof {
                assert(dec_val(s@.take(i + 1)) > u64::MAX);
                if all_digits(s@) {
                    lemma_dec_val_take_le(s@, i + 1);
                }
            }
            return None;
        }
        acc = acc * 10 + d;
        i += 1;
    }
    proof {
        assert(s@.take(len as int) =~= s@);
    }
    Some(acc)
}

/// Parses a non-empty all-digit string as a base-10 `u32`.
pub fn parse_dec_u32(s: &str) -> (r: Option<u32>)
    ensures
        r is Some <==> (s@.len() > 0 && all_digits(s@) && dec_val(s@) <= u32::MAX),
        r matches Some(v) ==> v == dec_val(s@),
{
    match parse_dec_u64(s) {
        Some(n) => if n <= 0xffff_ffffu64 {
            Some(n as u32)
        } else {
            None
        },
        None => None,
    }
}

/// Parses a non-empty all-digit string as a base-10 `i32`; no sign is
/// accepted.
pub fn parse_dec_i32(s: &str) -> (r: Option<i32>)
    ensures
        r is Some <==> (s@.len() > 0 && all_digits(s@) && dec_val(s@) <= i32::MAX),
        r matches Some(v) ==> v == dec_val(s@),
{
    match parse_dec_u64(s) {
        Some(n) => if n <= 0x7fff_ffffu64 {
            Some(n as i32)
        } else {
            None
        },
        None => None,
    }
}

/// Parses a non-empty all-hex-digit string (no `0x` prefix, either case) as a
/// base-16 `u32`.
pub fn parse_hex_u32(s: &str) -> (r: Option<u32>)
    ensures
        r is Some <==> (s@.len() > 0 && all_hex_digits(s@) && hex_val(s@) <= u32::MAX),
        r matches Some(v) ==> v == hex_val(s@),
{
    let len = s.unicode_len();
    if len == 0 {
        return None;
    }
    let mut acc: u32 = 0;
    let mut i: usize = 0;
    while i < len
        invariant
            len == s@.len(),
            i <= len,
            all_hex_digits(s@.take(i as int)),
            acc == hex_val(s@.take(i as int)),
        decreases len - i,
    {
        let c = s.get_char(i);
        let cv: u32 = c as u32;
        let d: u32;
        if 48 <= cv && cv <= 57 {
            d = cv - 48;
        } else if 97 <= cv && cv <= 102 {
            d = cv - 97 + 10;
        } else if 65 <= cv && cv <= 70 {
            d = cv - 65 + 10;
        } else {
            proof {
                assert(!is_hex_digit(s@[i as int]));
            }
            return None;
        }
        proof {
            assert(s@.take(i + 1).drop_last() =~= s@.take(i as int));
            assert(s@.take(i + 1).last() == s@[i as int]);
            assert(all_hex_digits(s@.take(i + 1)));
            assert(hex_val(s@.take(i + 1)) == acc * 16 + d);
        }
        // u32::MAX is 16 * 268435455 + 15
        if acc > 268435455u32 {
            proof {
                assert(hex_val(s@.take(i + 1)) > u32::MAX);
                if all_hex_digits(s@) {
                    lemma_hex_val_take_le(s@, i + 1);
                }
            }
            return None;
        }
        acc = acc * 16 + d;
        i += 1;
    }
    proof {
        assert(s@.take(len as int) =~= s@);
    }
    Some(acc)
}

} // verus!
