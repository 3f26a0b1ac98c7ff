//! Recognition of progress lines on the sideband channel.
//!
//! The transport's sideband carries human-readable lines. Some encode a
//! progress report of the form `<Category> objects: NN% (current/total)`
//! for the counting and compressing categories; everything else is
//! diagnostic text. The recognizer scans for the leftmost occurrence of the
//! pattern anywhere in the line, the two runs of digits in parentheses are
//! its captured values, and a value too large for the counters reads as
//! zero.

use vstd::prelude::*;
use vstd::utf8::valid_utf8;

verus! {

use crate::objects::str_from_utf8;
use crate::progress::Category;

/// A decimal digit byte.
pub open spec fn is_digit(b: u8) -> bool {
    '0' as u8 <= b <= '9' as u8
}

/// The number a run of decimal digit bytes denotes, most significant
/// first.
pub open spec fn digits_val(s: Seq<u8>) -> nat
    decreases s.len(),
{
    if s.len() == 0 {
        0
    } else {
        (digits_val(s.drop_last()) * 10 + (s.last() - '0' as u8)) as nat
    }
}

/// A denoted number as a counter value: values beyond the counter range
/// read as zero.
pub open spec fn val64(v: nat) -> u64 {
    if v <= u64::MAX {
        v as u64
    } else {
        0
    }
}

/// The first position at or after `j` that does not hold a space.
pub open spec fn spaces_end(line: Seq<u8>, j: int) -> int
    decreases line.len() - j,
{
    if j < 0 || j >= line.len() || line[j] != ' ' as u8 {
        j
    } else {
        spaces_end(line, j + 1)
    }
}

/// The first position at or after `j` that does not hold a digit.
pub open spec fn digits_end(line: Seq<u8>, j: int) -> int
    decreases line.len() - j,
{
    if j < 0 || j >= line.len() || !is_digit(line[j]) {
        j
    } else {
        digits_end(line, j + 1)
    }
}

/// The lead-in of a counting report.
pub open spec fn count_marker() -> Seq<u8> {
    seq![
        'C' as u8, 'o' as u8, 'u' as u8, 'n' as u8, 't' as u8, 'i' as u8, 'n' as u8, 'g' as u8,
        ' ' as u8, 'o' as u8, 'b' as u8, 'j' as u8, 'e' as u8, 'c' as u8, 't' as u8, 's' as u8,
        ':' as u8,
    ]
}

/// The lead-in of a compressing report.
pub open spec fn compress_marker() -> Seq<u8> {
    seq![
        'C' as u8, 'o' as u8, 'm' as u8, 'p' as u8, 'r' as u8, 'e' as u8, 's' as u8, 's' as u8,
        'i' as u8, 'n' as u8, 'g' as u8, ' ' as u8, 'o' as u8, 'b' as u8, 'j' as u8, 'e' as u8,
        'c' as u8, 't' as u8, 's' as u8, ':' as u8,
    ]
}

/// Whether, right after a lead-in ending at `m`, the line continues with
/// one or more spaces, a run of digits, `% (`, a run of digits, `/`,
/// another run of digits and `)`.
pub open spec fn tail_matches(line: Seq<u8>, m: int) -> bool {
    let s1 = spaces_end(line, m);
    let d1 = digits_end(line, s1);
    let c0 = d1 + 3;
    let c1 = digits_end(line, c0);
    let t0 = c1 + 1;
    let t1 = digits_end(line, t0);
    &&& s1 > m
    &&& d1 > s1
    &&& line.len() - d1 > 2
    &&& line[d1] == '%' as u8
    &&& line[d1 + 1] == ' ' as u8
    &&& line[d1 + 2] == '(' as u8
    &&& c1 > c0
    &&& c1 < line.len()
    &&& line[c1] == '/' as u8
    &&& t1 > t0
    &&& t1 < line.len()
    &&& line[t1] == ')' as u8
}

/// The two captured values of a report whose lead-in ends at `m`.
pub open spec fn tail_values(line: Seq<u8>, m: int) -> (u64, u64) {
    let s1 = spaces_end(line, m);
    let d1 = digits_end(line, s1);
    let c0 = d1 + 3;
    let c1 = digits_end(line, c0);
    let t0 = c1 + 1;
    let t1 = digits_end(line, t0);
    (val64(digits_val(line.subrange(c0, c1))), val64(digits_val(line.subrange(t0, t1))))
}

/// Whether the pattern with lead-in `kw` occurs at position `i`.
pub open spec fn pattern_at(line: Seq<u8>, i: int, kw: Seq<u8>) -> bool {
    &&& 0 <= i
    &&& i + kw.len() <= line.len()
    &&& line.subrange(i, i + kw.len()) == kw
    &&& tail_matches(line, i + kw.len())
}

/// The report recognized at position `i`, if any: its category and its two
/// captured values.
pub open spec fn match_at(line: Seq<u8>, i: int) -> Option<(Category, u64, u64)> {
    if pattern_at(line, i, count_marker()) {
        let v = tail_values(line, i + count_marker().len());
        Option::Some((Category::Count, v.0, v.1))
    } else if pattern_at(line, i, compress_marker()) {
        let v = tail_values(line, i + compress_marker().len());
        Option::Some((Category::Compress, v.0, v.1))
    } else {
        Option::None
    }
}

/// The report found scanning from position `i` rightwards: the first
/// position that matches decides.
pub open spec fn scan_from(line: Seq<u8>, i: int) -> Option<(Category, u64, u64)>
    decreases line.len() - i,
{
    if i < 0 || i >= line.len() {
        Option::None
    } else if match_at(line, i) is Some {
        match_at(line, i)
    } else {
        scan_from(line, i + 1)
    }
}

/// What the recognizer returns on `line`: the report at the leftmost
/// matching position, or nothing when no position matches. A line that is
/// not valid text never reads as a report: undecodable bytes are
/// diagnostic output, whatever they contain.
pub open spec fn sideband_parse(line: Seq<u8>) -> Option<(Category, u64, u64)> {
    if valid_utf8(line) {
        scan_from(line, 0)
    } else {
        Option::None
    }
}

/// Describes [`sideband_parse`] positionally: a recognized report sits on
/// a valid-text line at the leftmost matching position, with earlier
/// positions matching nothing; when nothing is recognized, either the
/// line is not valid text or no position matches at all.
pub open spec fn sideband_report(line: Seq<u8>, r: Option<(Category, u64, u64)>) -> bool {
    match r {
        Option::Some(ev) => valid_utf8(line) && exists|i: int|
            0 <= i <= line.len() && match_at(line, i) == Option::Some(ev) && (forall|j: int|
                0 <= j < i ==> match_at(line, j) is None),
        Option::None => !valid_utf8(line) || forall|i: int| match_at(line, i) is None,
    }
}

/// No pattern fits at a position that leaves no room for a lead-in, so
/// scanning to the end of the line is a complete search.
proof fn lemma_match_out_of_range(line: Seq<u8>, i: int)
    requires
        i < 0 || i >= line.len(),
    ensures
        match_at(line, i) is None,
{
    assert(count_marker().len() == 17);
    assert(compress_marker().len() == 20);
}

/// The scan finds the leftmost match: its result satisfies the positional
/// description of the recognizer.
pub proof fn lemma_sideband_parse_leftmost(line: Seq<u8>)
    ensures
        sideband_report(line, sideband_parse(line)),
{
    if !valid_utf8(line) {
        return ;
    }
    lemma_scan_leftmost(line, 0);
    if sideband_parse(line) is Some {
        let i = choose|i: int|
            0 <= i <= line.len() && match_at(line, i) == sideband_parse(line) && (forall|j: int|
                0 <= j < i ==> match_at(line, j) is None);
    } else {
        assert forall|i: int| match_at(line, i) is None by {
            if 0 <= i < line.len() {
                lemma_scan_none(line, 0, i);
            } else {
                lemma_match_out_of_range(line, i);
            }
        }
    }
}

/// A scan that answers with a report found it at some position whose
/// earlier positions all fail; a scan that answers nothing saw no match.
proof fn lemma_scan_leftmost(line: Seq<u8>, from: int)
    requires
        0 <= from,
    ensures
        scan_from(line, from) matches Option::Some(ev) ==> exists|i: int|
            from <= i <= line.len() && match_at(line, i) == Option::Some(ev) && (forall|j: int|
                from <= j < i ==> match_at(line, j) is None),
    decreases line.len() - from,
{
    if from < line.len() {
        if match_at(line, from) is Some {
            let ev = match_at(line, from)->0;
            assert(from <= from <= line.len() && match_at(line, from) == Option::Some(ev)
                && (forall|j: int| from <= j < from ==> match_at(line, j) is None));
        } else {
            lemma_scan_leftmost(line, from + 1);
            if scan_from(line, from) is Some {
                let ev = scan_from(line, from)->0;
                let i = choose|i: int|
                    from + 1 <= i <= line.len() && match_at(line, i) == Option::Some(ev) && (
                    forall|j: int| from + 1 <= j < i ==> match_at(line, j) is None);
                assert(forall|j: int| from <= j < i ==> match_at(line, j) is None);
            }
        }
    }
}

/// A scan that answers nothing matched at no scanned position.
proof fn lemma_scan_none(line: Seq<u8>, from: int, i: int)
    requires
        0 <= from <= i < line.len(),
        scan_from(line, from) is None,
    ensures
        match_at(line, i) is None,
    decreases i - from,
{
    if from < i {
        lemma_scan_none(line, from + 1, i);
    }
}

/// The counting lead-in as bytes.
fn count_marker_vec() -> (v: Vec<u8>)
    ensures
        v@ == count_marker(),
{
    let mut v: Vec<u8> = Vec::new();
    v.push(('C' as u8));
    v.push(('o' as u8));
    v.push(('u' as u8));
    v.push(('n' as u8));
    v.push(('t' as u8));
    v.push(('i' as u8));
    v.push(('n' as u8));
    v.push(('g' as u8));
    v.push((' ' as u8));
    v.push(('o' as u8));
    v.push(('b' as u8));
    v.push(('j' as u8));
    v.push(('e' as u8));
    v.push(('c' as u8));
    v.push(('t' as u8));
    v.push(('s' as u8));
    v.push((':' as u8));
    proof {
        assert(v@ =~= count_marker());
    }
    v
}

/// The compressing lead-in as bytes.
fn compress_marker_vec() -> (v: Vec<u8>)
    ensures
        v@ == compress_marker(),
{
    let mut v: Vec<u8> = Vec::new();
    v.push(('C' as u8));
    v.push(('o' as u8));
    v.push(('m' as u8));
    v.push(('p' as u8));
    v.push(('r' as u8));
    v.push(('e' as u8));
    v.push(('s' as u8));
    v.push(('s' as u8));
    v.push(('i' as u8));
    v.push(('n' as u8));
    v.push(('g' as u8));
    v.push((' ' as u8));
    v.push(('o' as u8));
    v.push(('b' as u8));
    v.push(('j' as u8));
    v.push(('e' as u8));
    v.push(('c' as u8));
    v.push(('t' as u8));
    v.push(('s' as u8));
    v.push((':' as u8));
    proof {
        assert(v@ =~= compress_marker());
    }
    v
}

/// Whether `pat` occurs in `line` at position `i`.
fn bytes_match(line: &Vec<u8>, i: usize, pat: &Vec<u8>) -> (r: bool)
    requires
        i <= line@.len(),
    ensures
        r == (i + pat@.len() <= line@.len() && line@.subrange(
            i as int,
            i as int + pat@.len() as int,
        ) == pat@),
{
    let n = line.len();
    if n - i < pat.len() {
        return false;
    }
    let mut j: usize = 0;
    while j < pat.len()
        invariant
            0 <= j <= pat@.len(),
            i + pat@.len() <= line@.len(),
            line@.len() <= usize::MAX,
            forall|k: int| 0 <= k < j ==> line@[i + k] == pat@[k],
        decreases pat@.len() - j,
    {
        if line[i + j] != pat[j] {
            proof {
                assert(line@.subrange(i as int, i as int + pat@.len() as int)[j as int]
                    != pat@[j as int]);
            }
            return false;
        }
        j = j + 1;
    }
    proof {
        assert(line@.subrange(i as int, i as int + pat@.len() as int) =~= pat@);
    }
    true
}

/// The first position at or after `j` that does not hold a space.
fn spaces_end_exec(line: &Vec<u8>, j: usize) -> (r: usize)
    requires
        j <= line@.len(),
    ensures
        r == spaces_end(line@, j as int),
        j <= r <= line@.len(),
{
    let mut k: usize = j;
    while k < line.len() && line[k] == (' ' as u8)
        invariant
            j <= k <= line@.len(),
            spaces_end(line@, j as int) == spaces_end(line@, k as int),
        decreases line@.len() - k,
    {
        k = k + 1;
    }
    k
}

/// The first position at or after `j` that does not hold a digit.
fn digits_end_exec(line: &Vec<u8>, j: usize) -> (r: usize)
    requires
        j <= line@.len(),
    ensures
        r == digits_end(line@, j as int),
        j <= r <= line@.len(),
{
    let mut k: usize = j;
    while k < line.len() && ('0' as u8) <= line[k] && line[k] <= ('9' as u8)
        invariant
            j <= k <= line@.len(),
            digits_end(line@, j as int) == digits_end(line@, k as int),
        decreases line@.len() - k,
    {
        k = k + 1;
    }
    k
}

/// Appending one digit multiplies the denoted number by ten and adds the
/// digit.
proof fn lemma_digits_val_push(s: Seq<u8>, b: u8)
    requires
        is_digit(b),
    ensures
        digits_val(s.push(b)) == digits_val(s) * 10 + (b - '0' as u8),
{
    assert(s.push(b).drop_last() =~= s);
    assert(s.push(b).last() == b);
}

/// The value of the digit run `line[from .. to]`, saturating to zero when
/// it does not fit a counter.
fn parse_digits(line: &Vec<u8>, from: usize, to: usize) -> (r: u64)
    requires
        from <= to <= line@.len(),
        forall|k: int| from <= k < to ==> is_digit(line@[k]),
    ensures
        r == val64(digits_val(line@.subrange(from as int, to as int))),
{
    let mut v: u128 = 0;
    let mut over: bool = false;
    let mut j: usize = from;
    while j < to
        invariant
            from <= j <= to <= line@.len(),
            forall|k: int| from <= k < to ==> is_digit(line@[k]),
            !over ==> v == digits_val(line@.subrange(from as int, j as int)) && v <= u64::MAX,
            over ==> digits_val(line@.subrange(from as int, j as int)) > u64::MAX,
        decreases to - j,
    {
        let b = line[j];
        let d: u128 = (b - ('0' as u8)) as u128;
        proof {
            assert(line@.subrange(from as int, j + 1) =~= line@.subrange(
                from as int,
                j as int,
            ).push(line@[j as int]));
            lemma_digits_val_push(line@.subrange(from as int, j as int), line@[j as int]);
        }
        if !over {
            let nv: u128 = v * 10 + d;
            if nv > u64::MAX as u128 {
                over = true;
            } else {
                v = nv;
            }
        }
        j = j + 1;
    }
    if over {
        0
    } else {
        v as u64
    }
}

/// Tries to recognize the tail of a report whose lead-in ends at `m`, and
/// returns its captured values.
fn match_tail(line: &Vec<u8>, m: usize) -> (r: Option<(u64, u64)>)
    requires
        m <= line@.len(),
    ensures
        r is Some <==> tail_matches(line@, m as int),
        r matches Some(v) ==> v == tail_values(line@, m as int),
{
    let s1 = spaces_end_exec(line, m);
    if s1 == m {
        return Option::None;
    }
    let d1 = digits_end_exec(line, s1);
    if d1 == s1 {
        return Option::None;
    }
    if line.len() - d1 <= 2 {
        return Option::None;
    }
    if line[d1] != ('%' as u8) || line[d1 + 1] != (' ' as u8) || line[d1 + 2] != ('(' as u8) {
        return Option::None;
    }
    let c0 = d1 + 3;
    let c1 = digits_end_exec(line, c0);
    if c1 == c0 || c1 == line.len() {
        return Option::None;
    }
    if line[c1] != ('/' as u8) {
        return Option::None;
    }
    let t0 = c1 + 1;
    let t1 = digits_end_exec(line, t0);
    if t1 == t0 || t1 == line.len() {
        return Option::None;
    }
    if line[t1] != (')' as u8) {
        return Option::None;
    }
    proof {
        lemma_run_is_digits(line@, c0 as int);
        lemma_run_is_digits(line@, t0 as int);
    }
    let cur = parse_digits(line, c0, c1);
    let tot = parse_digits(line, t0, t1);
    Option::Some((cur, tot))
}

/// Every byte before the end of a digit run is a digit.
proof fn lemma_run_is_digits(line: Seq<u8>, j: int)
    requires
        0 <= j,
    ensures
        forall|k: int| j <= k < digits_end(line, j) ==> is_digit(line[k]),
        j <= digits_end(line, j) <= line.len() || digits_end(line, j) == j,
    decreases line.len() - j,
{
    if !(j < 0 || j >= line.len() || !is_digit(line[j])) {
        lemma_run_is_digits(line, j + 1);
        assert forall|k: int| j <= k < digits_end(line, j) implies is_digit(line[k]) by {
            if k > j {
                assert(digits_end(line, j) == digits_end(line, j + 1));
            }
        }
    }
}

/// The report recognized at position `i`, if any.
fn match_at_exec(line: &Vec<u8>, i: usize, ckw: &Vec<u8>, pkw: &Vec<u8>) -> (r: Option<
    (Category, u64, u64),
>)
    requires
        i <= line@.len(),
        ckw@ == count_marker(),
        pkw@ == compress_marker(),
    ensures
        r == match_at(line@, i as int),
{
    let n = line.len();
    if bytes_match(line, i, ckw) {
        proof {
            assert(i + ckw@.len() <= n as int);
        }
        let m = i + ckw.len();
        match match_tail(line, m) {
            Option::Some(v) => Option::Some((Category::Count, v.0, v.1)),
            Option::None => Option::None,
        }
    } else if bytes_match(line, i, pkw) {
        proof {
            assert(i + pkw@.len() <= n as int);
        }
        let m = i + pkw.len();
        match match_tail(line, m) {
            Option::Some(v) => Option::Some((Category::Compress, v.0, v.1)),
            Option::None => Option::None,
        }
    } else {
        Option::None
    }
}

/// Scans a sideband line for a progress report: the line must decode as
/// text, and the leftmost occurrence of the recognized pattern then
/// decides the category and the two captured values; a line that does not
/// decode, or holds no occurrence, yields nothing and is diagnostic text.
pub fn parse_sideband_progress(line: &Vec<u8>) -> (r: Option<(Category, u64, u64)>)
    ensures
        r == sideband_parse(line@),
{
    if str_from_utf8(line.as_slice()).is_err() {
        return Option::None;
    }
    let ckw = count_marker_vec();
    let pkw = compress_marker_vec();
    let mut i: usize = 0;
    while i < line.len()
        invariant
            0 <= i <= line@.len(),
            valid_utf8(line@),
            ckw@ == count_marker(),
            pkw@ == compress_marker(),
            scan_from(line@, 0) == scan_from(line@, i as int),
        decreases line@.len() - i,
    {
        let r = match_at_exec(line, i, &ckw, &pkw);
        if r.is_some() {
            return r;
        }
        i = i + 1;
    }
    Option::None
}

} // verus!
