//! LRC lyrics: parsing `[mm:ss.xx] text` lines and finding the line that
//! belongs to a playback position.

use vstd::prelude::*;
use crate::text::{
    chars_of, find_char, find_in, is_trimmed, is_ws, lemma_find_char_bounds,
    lemma_trim_is_trimmed, string_of, trim, trim_range,
};

verus! {

/// One lyric line; `timestamp` is the time at which it is sung, in
/// milliseconds from the start of the track.
#[derive(Debug, Clone, PartialEq, Eq)]
pub struct LyricLine {
    pub timestamp: Option<u128>,
    pub text: String,
}

impl View for LyricLine {
    type V = (Option<u128>, Seq<char>);

    open spec fn view(&self) -> (Option<u128>, Seq<char>) {
        (self.timestamp, self.text@)
    }
}

// ---------------------------------------------------------------------------
// Numbers and timestamps
// ---------------------------------------------------------------------------

/// An ASCII decimal digit.
pub open spec fn is_digit(c: char) -> bool {
    '0' <= c <= '9'
}

/// The value of a string of decimal digits.
pub open spec fn digits_value(s: Seq<char>) -> nat
    decreases s.len(),
{
    if s.len() == 0 {
        0
    } else {
        digits_value(s.drop_last()) * 10 + ((s.last() as u32) - 48) as nat
    }
}

/// Whether every character of `d` is an ASCII digit.
pub open spec fn all_digits(d: Seq<char>) -> bool {
    forall|i: int| 0 <= i < d.len() ==> is_digit(#[trigger] d[i])
}

/// The digits of an unsigned number: `s` without a leading `+` (a lone `+`
/// is kept, and then is no digit).
pub open spec fn unsigned_digits(s: Seq<char>) -> Seq<char> {
    if s.len() > 1 && s[0] == '+' {
        s.skip(1)
    } else {
        s
    }
}

/// One or more ASCII digits whose value fits in a `u64`.
pub open spec fn parse_digits(d: Seq<char>) -> Option<u64> {
    if d.len() > 0 && all_digits(d) && digits_value(d) <= u64::MAX {
        Some(digits_value(d) as u64)
    } else {
        None
    }
}

/// What `str::parse::<u64>` gives for `s`: an optional `+`, then one or more
/// ASCII digits whose value fits in a `u64`.
pub open spec fn parse_u64(s: Seq<char>) -> Option<u64> {
    parse_digits(unsigned_digits(s))
}

/// The number of bytes `c` takes in UTF-8.
pub open spec fn utf8_width(c: char) -> nat {
    let u = c as u32;
    if u < 0x80 {
        1
    } else if u < 0x800 {
        2
    } else if u < 0x10000 {
        3
    } else {
        4
    }
}

/// The number of bytes `s` takes in UTF-8 (what `str::len` returns).
pub open spec fn utf8_len(s: Seq<char>) -> nat
    decreases s.len(),
{
    if s.len() == 0 {
        0
    } else {
        utf8_len(s.drop_last()) + utf8_width(s.last())
    }
}

/// A separator between timestamp fields.
pub open spec fn is_field_sep(c: char) -> bool {
    c == ':' || c == '.'
}

/// The index of the first field separator in `s`, or `s.len()`.
pub open spec fn find_sep(s: Seq<char>) -> nat
    decreases s.len(),
{
    if s.len() == 0 {
        0
    } else if is_field_sep(s[0]) {
        0
    } else {
        1 + find_sep(s.drop_first())
    }
}

/// The pieces of `s` between field separators (`s.split(|c| c == ':' || c == '.')`).
pub open spec fn fields(s: Seq<char>) -> Seq<Seq<char>>
    decreases s.len(),
{
    let k = find_sep(s);
    if k >= s.len() {
        seq![s]
    } else {
        seq![s.take(k as int)] + fields(s.skip((k + 1) as int))
    }
}

/// The sub-second part of a timestamp in milliseconds: a third field of two
/// bytes is hundredths, one of three bytes is milliseconds, any other third
/// field is ignored; `None` when a two- or three-byte field is no number.
pub open spec fn millis_field(p: Seq<Seq<char>>) -> Option<nat> {
    if p.len() >= 3 {
        let sub = p[2];
        if utf8_len(sub) == 2 {
            match parse_u64(sub) {
                Some(v) => Some((v * 10) as nat),
                None => None,
            }
        } else if utf8_len(sub) == 3 {
            match parse_u64(sub) {
                Some(v) => Some(v as nat),
                None => None,
            }
        } else {
            Some(0)
        }
    } else {
        Some(0)
    }
}

/// Whether every field of the timestamp `s` parses: minutes, seconds and the
/// sub-second part.
pub open spec fn timestamp_fields_parse(s: Seq<char>) -> bool {
    let p = fields(s);
    &&& p.len() >= 2
    &&& parse_u64(p[0]) is Some
    &&& parse_u64(p[1]) is Some
    &&& millis_field(p) is Some
}

/// The whole seconds that the timestamp `s` names (`minutes * 60 + seconds`).
pub open spec fn timestamp_seconds(s: Seq<char>) -> int {
    let p = fields(s);
    parse_u64(p[0])->0 * 60 + parse_u64(p[1])->0
}

/// Whether computing the timestamp `s` overflows a `u64` of seconds.
pub open spec fn timestamp_overflows(s: Seq<char>) -> bool {
    timestamp_fields_parse(s) && timestamp_seconds(s) > u64::MAX
}

/// The time that the LRC timestamp `s` (`mm:ss`, `mm:ss.xx`, `mm:ss:xx`,
/// `mm:ss.xxx`) names, in milliseconds.
pub open spec fn spec_parse_timestamp(s: Seq<char>) -> Option<u128> {
    if timestamp_fields_parse(s) {
        Some((timestamp_seconds(s) * 1000 + millis_field(fields(s))->0) as u128)
    } else {
        None
    }
}


/// `find_sep` lies within `s`, no separator comes before it, and one stands
/// at it when it is not the end.
pub proof fn lemma_find_sep_bounds(s: Seq<char>)
    ensures
        find_sep(s) <= s.len(),
        forall|j: int| 0 <= j < find_sep(s) ==> !is_field_sep(s[j]),
        find_sep(s) < s.len() ==> is_field_sep(s[find_sep(s) as int]),
    decreases s.len(),
{
    if s.len() > 0 && !is_field_sep(s[0]) {
        lemma_find_sep_bounds(s.drop_first());
        assert forall|j: int| 0 <= j < find_sep(s) implies !is_field_sep(s[j]) by {
            if j > 0 {
                assert(s[j] == s.drop_first()[j - 1]);
            }
        }
    }
}

/// The first field and, when there is a separator, the fields after it.
pub proof fn lemma_fields_unfold(t: Seq<char>)
    ensures
        find_sep(t) <= t.len(),
        fields(t).len() >= 1,
        fields(t)[0] == t.take(find_sep(t) as int),
        find_sep(t) == t.len() ==> fields(t).len() == 1,
        find_sep(t) < t.len() ==> fields(t).len() == 1 + fields(t.skip(find_sep(t) + 1int)).len(),
        find_sep(t) < t.len() ==> forall|i: int|
            1 <= i < fields(t).len() ==> #[trigger] fields(t)[i] == fields(
                t.skip(find_sep(t) + 1int),
            )[i - 1],
{
    lemma_find_sep_bounds(t);
    assert(t.take(t.len() as int) =~= t);
}

/// A prefix of a digit string has no greater value than the whole.
pub proof fn lemma_digits_value_prefix(s: Seq<char>, i: int)
    requires
        0 <= i <= s.len(),
    ensures
        digits_value(s.take(i)) <= digits_value(s),
    decreases s.len(),
{
    if i < s.len() {
        assert(s.take(i) =~= s.drop_last().take(i));
        lemma_digits_value_prefix(s.drop_last(), i);
    } else {
        assert(s.take(i) =~= s);
    }
}

/// `str::parse::<u64>` on `cs[from..to]`.
pub fn parse_u64_range(cs: &Vec<char>, from: usize, to: usize) -> (r: Option<u64>)
    requires
        from <= to <= cs.len(),
    ensures
        r == parse_u64(cs@.subrange(from as int, to as int)),
{
    let ghost s = cs@.subrange(from as int, to as int);
    let start: usize = if to - from > 1 && cs[from] == '+' {
        from + 1
    } else {
        from
    };
    let ghost d = cs@.subrange(start as int, to as int);
    assert(d =~= unsigned_digits(s));
    if start == to {
        return None;
    }
    let mut acc: u128 = 0;
    let mut i: usize = start;
    while i < to
        invariant
            from <= start <= i <= to <= cs.len(),
            start < to,
            d == cs@.subrange(start as int, to as int),
            s == cs@.subrange(from as int, to as int),
            d == unsigned_digits(s),
            acc == digits_value(cs@.subrange(start as int, i as int)),
            acc <= u64::MAX,
            forall|j: int| start <= j < i ==> is_digit(#[trigger] cs@[j]),
        decreases to - i,
    {
        let c = cs[i];
        if !('0' <= c && c <= '9') {
            assert(d[i - start] == cs@[i as int]);
            assert(!is_digit(d[i - start]));
            return None;
        }
        assert(cs@.subrange(start as int, i + 1).drop_last() =~= cs@.subrange(
            start as int,
            i as int,
        ));
        acc = acc * 10 + ((c as u32) - 48) as u128;
        if acc > u64::MAX as u128 {
            proof {
                assert(d.take(i + 1 - start) =~= cs@.subrange(start as int, i + 1));
                lemma_digits_value_prefix(d, i + 1 - start);
            }
            return None;
        }
        i = i + 1;
    }
    assert(d =~= cs@.subrange(start as int, i as int));
    assert forall|j: int| 0 <= j < d.len() implies is_digit(#[trigger] d[j]) by {
        assert(d[j] == cs@[start + j]);
    }
    Some(acc as u64)
}

/// `min(utf8_len(cs[from..to]), 4)`: enough to tell two and three bytes apart
/// from every other length.
pub fn utf8_len_capped(cs: &Vec<char>, from: usize, to: usize) -> (n: usize)
    requires
        from <= to <= cs.len(),
    ensures
        n == (if utf8_len(cs@.subrange(from as int, to as int)) < 4 {
            utf8_len(cs@.subrange(from as int, to as int))
        } else {
            4
        }),
{
    let mut acc: usize = 0;
    let mut i: usize = from;
    while i < to
        invariant
            from <= i <= to <= cs.len(),
            acc == (if utf8_len(cs@.subrange(from as int, i as int)) < 4 {
                utf8_len(cs@.subrange(from as int, i as int))
            } else {
                4
            }),
        decreases to - i,
    {
        let u = cs[i] as u32;
        let w: usize = if u < 0x80 {
            1
        } else if u < 0x800 {
            2
        } else if u < 0x10000 {
            3
        } else {
            4
        };
        assert(cs@.subrange(from as int, i + 1).drop_last() =~= cs@.subrange(
            from as int,
            i as int,
        ));
        acc = if acc + w > 4 {
            4
        } else {
            acc + w
        };
        i = i + 1;
    }
    acc
}

/// The first index in `from..to` holding `:` or `.`, or `to`.
pub fn find_sep_in(cs: &Vec<char>, from: usize, to: usize) -> (k: usize)
    requires
        from <= to <= cs.len(),
    ensures
        from <= k <= to,
        k == from + find_sep(cs@.subrange(from as int, to as int)),
{
    let mut i = from;
    while i < to && cs[i] != ':' && cs[i] != '.'
        invariant
            from <= i <= to <= cs.len(),
            find_sep(cs@.subrange(from as int, to as int)) == (i - from) + find_sep(
                cs@.subrange(i as int, to as int),
            ),
        decreases to - i,
    {
        assert(cs@.subrange(i as int, to as int).drop_first() =~= cs@.subrange(
            i + 1,
            to as int,
        ));
        i = i + 1;
    }
    i
}


/// The timestamp `cs[from..to]` in milliseconds.
pub fn parse_timestamp_chars(cs: &Vec<char>, from: usize, to: usize) -> (r: Option<u128>)
    requires
        from <= to <= cs.len(),
        !timestamp_overflows(cs@.subrange(from as int, to as int)),
    ensures
        r == spec_parse_timestamp(cs@.subrange(from as int, to as int)),
{
    let ghost s = cs@.subrange(from as int, to as int);
    let k1 = find_sep_in(cs, from, to);
    proof {
        lemma_fields_unfold(s);
        assert(s.take(k1 - from) =~= cs@.subrange(from as int, k1 as int));
    }
    if k1 == to {
        return None;
    }
    let ghost rest1 = cs@.subrange(k1 + 1, to as int);
    proof {
        assert(s.skip(find_sep(s) + 1int) =~= rest1);
    }
    let k2 = find_sep_in(cs, k1 + 1, to);
    proof {
        lemma_fields_unfold(rest1);
        assert(rest1.take(k2 - k1 - 1) =~= cs@.subrange(k1 + 1, k2 as int));
        assert(fields(s)[1] == fields(rest1)[0]);
    }
    let minutes = match parse_u64_range(cs, from, k1) {
        Some(v) => v,
        None => {
            return None;
        },
    };
    let seconds = match parse_u64_range(cs, k1 + 1, k2) {
        Some(v) => v,
        None => {
            return None;
        },
    };
    let mut millis: u128 = 0;
    if k2 < to {
        let ghost rest2 = cs@.subrange(k2 + 1, to as int);
        let k3 = find_sep_in(cs, k2 + 1, to);
        proof {
            assert(rest1.skip(find_sep(rest1) + 1int) =~= rest2);
            lemma_fields_unfold(rest2);
            assert(rest2.take(k3 - k2 - 1) =~= cs@.subrange(k2 + 1, k3 as int));
            assert(fields(s)[2] == fields(rest1)[1]);
            assert(fields(rest1)[1] == fields(rest2)[0]);
        }
        let w = utf8_len_capped(cs, k2 + 1, k3);
        if w == 2 {
            match parse_u64_range(cs, k2 + 1, k3) {
                Some(v) => {
                    millis = (v as u128) * 10;
                },
                None => {
                    return None;
                },
            }
        } else if w == 3 {
            match parse_u64_range(cs, k2 + 1, k3) {
                Some(v) => {
                    millis = v as u128;
                },
                None => {
                    return None;
                },
            }
        }
    }
    let secs: u64 = minutes * 60 + seconds;
    Some((secs as u128) * 1000 + millis)
}

/// Parses an LRC timestamp such as `01:02.50` into milliseconds.
pub fn parse_timestamp(s: &str) -> (r: Option<u128>)
    requires
        !timestamp_overflows(s@),
    ensures
        r == spec_parse_timestamp(s@),
{
    let cs = chars_of(s);
    assert(cs@.subrange(0, cs.len() as int) =~= s@);
    parse_timestamp_chars(&cs, 0, cs.len())
}


// ---------------------------------------------------------------------------
// Lines
// ---------------------------------------------------------------------------

/// The lines of `s`, split at each `'\n'`. (A `'\r'` before the `'\n'` is
/// whitespace and is trimmed with the rest, and empty lines are dropped, so
/// this agrees with `str::lines` wherever the parser looks.)
pub open spec fn split_lines(s: Seq<char>) -> Seq<Seq<char>>
    decreases s.len(),
{
    let k = find_char(s, '\n');
    if k >= s.len() {
        seq![s]
    } else {
        seq![s.take(k as int)] + split_lines(s.skip(k + 1int))
    }
}

/// The index of the `]` that closes a leading `[` of the line `t`.
pub open spec fn closing_bracket(t: Seq<char>) -> nat {
    find_char(t, ']')
}

/// Whether the trimmed line `t` starts with `[timestamp]`, where
/// `timestamp` overflows while it is computed.
pub open spec fn line_overflows(t: Seq<char>) -> bool {
    &&& t.len() > 0
    &&& t[0] == '['
    &&& closing_bracket(t) < t.len()
    &&& timestamp_overflows(t.subrange(1, closing_bracket(t) as int))
}

/// One trimmed, non-empty line: `[timestamp] text` when the part between the
/// first `[` and the first `]` is a timestamp, the whole line as untimed text
/// otherwise.
pub open spec fn parse_line(t: Seq<char>) -> (Option<u128>, Seq<char>) {
    if t.len() > 0 && t[0] == '[' && closing_bracket(t) < t.len() {
        match spec_parse_timestamp(t.subrange(1, closing_bracket(t) as int)) {
            Some(ts) => (Some(ts), trim(t.skip(closing_bracket(t) + 1int))),
            None => (None, t),
        }
    } else {
        (None, t)
    }
}

/// The lyric lines of `ls` in order: each line trimmed, empty ones dropped.
pub open spec fn parse_all(ls: Seq<Seq<char>>) -> Seq<(Option<u128>, Seq<char>)>
    decreases ls.len(),
{
    if ls.len() == 0 {
        seq![]
    } else {
        let t = trim(ls[0]);
        let rest = parse_all(ls.drop_first());
        if t.len() == 0 {
            rest
        } else {
            seq![parse_line(t)] + rest
        }
    }
}

/// Whether no line of `ls` holds a timestamp that overflows.
pub open spec fn lines_fit(ls: Seq<Seq<char>>) -> bool
    decreases ls.len(),
{
    if ls.len() == 0 {
        true
    } else {
        let t = trim(ls[0]);
        (t.len() == 0 || !line_overflows(t)) && lines_fit(ls.drop_first())
    }
}

/// Whether no timestamp in the LRC text `raw` overflows while it is computed.
pub open spec fn lrc_fits(raw: Seq<char>) -> bool {
    lines_fit(split_lines(raw))
}

/// Whether some line carries a timestamp.
pub open spec fn has_timed(ls: Seq<(Option<u128>, Seq<char>)>) -> bool {
    exists|i: int| 0 <= i < ls.len() && (#[trigger] ls[i]).0 is Some
}

/// The time by which a line is ordered; an untimed line counts as zero.
pub open spec fn sort_key(l: (Option<u128>, Seq<char>)) -> int {
    match l.0 {
        Some(t) => t as int,
        None => 0,
    }
}

/// Where a line with key `k` goes in the sorted `t`: after every line whose
/// key is at most `k`.
pub open spec fn insert_pos(t: Seq<(Option<u128>, Seq<char>)>, k: int) -> nat
    decreases t.len(),
{
    if t.len() == 0 {
        0
    } else if sort_key(t.last()) <= k {
        t.len()
    } else {
        insert_pos(t.drop_last(), k)
    }
}

/// `ls` stably sorted by `sort_key`: lines with equal keys keep their order.
pub open spec fn sort_lines(ls: Seq<(Option<u128>, Seq<char>)>) -> Seq<(Option<u128>, Seq<char>)>
    decreases ls.len(),
{
    if ls.len() == 0 {
        ls
    } else {
        let t = sort_lines(ls.drop_last());
        t.insert(insert_pos(t, sort_key(ls.last())) as int, ls.last())
    }
}

/// The lines that `ParsedLyrics::new` keeps for the LRC text `raw`.
pub open spec fn spec_lyric_lines(raw: Seq<char>) -> Seq<(Option<u128>, Seq<char>)> {
    let ls = parse_all(split_lines(raw));
    if has_timed(ls) {
        sort_lines(ls)
    } else {
        ls
    }
}

/// Whether the LRC text `raw` is synced: some line carries a timestamp.
pub open spec fn spec_is_synced(raw: Seq<char>) -> bool {
    has_timed(parse_all(split_lines(raw)))
}

/// Whether the line `l` is due only after `position`.
pub open spec fn is_late(l: (Option<u128>, Seq<char>), position: int) -> bool {
    match l.0 {
        Some(t) => t > position,
        None => false,
    }
}

/// The index of the first line that is due after `position` (`ls.len()`
/// when every timed line is due by then).
pub open spec fn first_late(ls: Seq<(Option<u128>, Seq<char>)>, position: int) -> nat
    decreases ls.len(),
{
    if ls.len() == 0 {
        0
    } else if is_late(ls[0], position) {
        0
    } else {
        1 + first_late(ls.drop_first(), position)
    }
}

/// The index of the last timed line before index `s`, or 0 when there is none.
pub open spec fn last_timed_before(ls: Seq<(Option<u128>, Seq<char>)>, s: int) -> int
    decreases s,
{
    if s <= 0 {
        0
    } else if ls[s - 1].0 is Some {
        s - 1
    } else {
        last_timed_before(ls, s - 1)
    }
}

/// The line being sung at `position`: the last timed line before the first
/// line that is still to come (line 0 when no timed line has come yet);
/// `None` for lyrics that are not synced or have no lines.
pub open spec fn spec_current_index(
    ls: Seq<(Option<u128>, Seq<char>)>,
    is_synced: bool,
    position: int,
) -> Option<usize> {
    if !is_synced || ls.len() == 0 {
        None
    } else {
        Some(last_timed_before(ls, first_late(ls, position) as int) as usize)
    }
}

/// `first_late` is the first index whose line is late.
pub proof fn lemma_first_late_at(ls: Seq<(Option<u128>, Seq<char>)>, position: int, i: int)
    requires
        0 <= i <= ls.len(),
        forall|j: int| 0 <= j < i ==> !is_late(#[trigger] ls[j], position),
        i == ls.len() || is_late(ls[i], position),
    ensures
        first_late(ls, position) == i,
    decreases i,
{
    if i > 0 {
        assert(!is_late(ls[0], position));
        assert forall|j: int| 0 <= j < i - 1 implies !is_late(
            #[trigger] ls.drop_first()[j],
            position,
        ) by {
            assert(ls.drop_first()[j] == ls[j + 1]);
        }
        if i < ls.len() {
            assert(ls.drop_first()[i - 1] == ls[i]);
        }
        lemma_first_late_at(ls.drop_first(), position, i - 1);
    }
}

/// The views of the lines in `v`.
pub open spec fn line_views(v: Seq<LyricLine>) -> Seq<(Option<u128>, Seq<char>)> {
    v.map_values(|l: LyricLine| l@)
}

/// The line `cs[from..to]`, trimmed and non-empty.
fn parse_line_chars(cs: &Vec<char>, from: usize, to: usize) -> (l: LyricLine)
    requires
        from < to <= cs.len(),
        !line_overflows(cs@.subrange(from as int, to as int)),
    ensures
        l@ == parse_line(cs@.subrange(from as int, to as int)),
{
    let ghost t = cs@.subrange(from as int, to as int);
    if cs[from] == '[' {
        let e = find_in(cs, from, to, ']');
        proof {
            lemma_find_char_bounds(t, ']');
        }
        if e < to {
            assert(t.subrange(1, closing_bracket(t) as int) =~= cs@.subrange(
                from + 1,
                e as int,
            ));
            if let Some(ts) = parse_timestamp_chars(cs, from + 1, e) {
                let (a, b) = trim_range(cs, e + 1, to);
                assert(t.skip(closing_bracket(t) + 1int) =~= cs@.subrange(e + 1, to as int));
                let text = string_of(cs, a, b);
                return LyricLine { timestamp: Some(ts), text };
            }
        }
    }
    let text = string_of(cs, from, to);
    LyricLine { timestamp: None, text }
}


/// The key of a line by which synced lyrics are sorted.
fn line_key(l: &LyricLine) -> (k: u128)
    ensures
        k == sort_key(l@),
{
    match l.timestamp {
        Some(t) => t,
        None => 0,
    }
}

/// `lines` stably sorted by time (untimed lines count as time zero), as
/// `sort_by` with that key orders them.
fn sort_by_time(lines: Vec<LyricLine>) -> (res: Vec<LyricLine>)
    ensures
        line_views(res@) == sort_lines(line_views(lines@)),
{
    let ghost orig = line_views(lines@);
    let mut src = lines;
    let mut res: Vec<LyricLine> = Vec::new();
    let ghost mut done: int = 0;
    assert(line_views(src@) =~= orig.skip(0));
    assert(line_views(res@) =~= sort_lines(orig.take(0)));
    while src.len() > 0
        invariant
            0 <= done <= orig.len(),
            done + src.len() == orig.len(),
            line_views(src@) == orig.skip(done),
            line_views(res@) == sort_lines(orig.take(done)),
        decreases src.len(),
    {
        assert(line_views(src@)[0] == src@[0]@);
        let ghost src_before = src@;
        let x = src.remove(0);
        let key = line_key(&x);
        let ghost t = line_views(res@);
        let mut p = res.len();
        assert(t.take(p as int) =~= t);
        while p > 0 && line_key(&res[p - 1]) > key
            invariant
                p <= res.len(),
                t == line_views(res@),
                insert_pos(t, key as int) == insert_pos(t.take(p as int), key as int),
            decreases p,
        {
            assert(t.take(p as int).drop_last() =~= t.take(p - 1));
            assert(t.take(p as int).last() == res@[p - 1]@);
            p = p - 1;
        }
        proof {
            if p > 0 {
                assert(t.take(p as int).last() == res@[p - 1]@);
            }
            assert(insert_pos(t.take(p as int), key as int) == p);
            assert(orig.take(done + 1).drop_last() =~= orig.take(done));
            assert(orig.take(done + 1).last() == orig[done]);
            assert(orig[done] == orig.skip(done)[0]);
        }
        res.insert(p, x);
        proof {
            assert(line_views(res@) =~= t.insert(p as int, x@));
            assert forall|i: int| 0 <= i < src@.len() implies #[trigger] line_views(src@)[i]
                == orig.skip(done + 1)[i] by {
                assert(src@[i] == src_before[i + 1]);
                assert(line_views(src_before)[i + 1] == orig.skip(done)[i + 1]);
            }
            assert(line_views(src@) =~= orig.skip(done + 1));
            done = done + 1;
        }
    }
    assert(orig.take(done) =~= orig);
    res
}

/// Lyrics split into lines; `is_synced` when at least one line is timed.
#[derive(Debug, Clone)]
pub struct ParsedLyrics {
    pub lines: Vec<LyricLine>,
    pub is_synced: bool,
}

impl Default for ParsedLyrics {
    /// No lines, not synced.
    fn default() -> (p: Self)
        ensures
            p.lines@.len() == 0,
            !p.is_synced,
    {
        ParsedLyrics { lines: Vec::new(), is_synced: false }
    }
}

impl ParsedLyrics {
    /// The index of the line being sung at `position`, as
    /// `spec_current_index` describes it.
    pub fn current_index(&self, position: u128) -> (r: Option<usize>)
        ensures
            r == spec_current_index(line_views(self.lines@), self.is_synced, position as int),
    {
        if !self.is_synced || self.lines.len() == 0 {
            return None;
        }
        let ghost ls = line_views(self.lines@);
        let mut current: usize = 0;
        let mut i: usize = 0;
        while i < self.lines.len()
            invariant
                ls == line_views(self.lines@),
                i <= self.lines.len(),
                forall|j: int| 0 <= j < i ==> !is_late(#[trigger] ls[j], position as int),
                current == last_timed_before(ls, i as int),
            ensures
                forall|j: int| 0 <= j < i ==> !is_late(#[trigger] ls[j], position as int),
                current == last_timed_before(ls, i as int),
                i == self.lines.len() || is_late(ls[i as int], position as int),
            decreases self.lines.len() - i,
        {
            assert(ls[i as int] == self.lines@[i as int]@);
            if let Some(ts) = self.lines[i].timestamp {
                if ts <= position {
                    current = i;
                } else {
                    break;
                }
            }
            i = i + 1;
        }
        proof {
            lemma_first_late_at(ls, position as int, i as int);
        }
        Some(current)
    }

    /// Parses LRC text: each non-empty trimmed line becomes a lyric line, timed
    /// when it starts with `[mm:ss.xx]`; synced lyrics come sorted by time.
    pub fn new(raw: &str) -> (res: Self)
        requires
            lrc_fits(raw@),
        ensures
            line_views(res.lines@) == spec_lyric_lines(raw@),
            res.is_synced == spec_is_synced(raw@),
            res.is_synced <==> exists|i: int|
                0 <= i < res.lines@.len() && (#[trigger] res.lines@[i]).timestamp is Some,
    {
        let cs = chars_of(raw);
        let n = cs.len();
        let mut lines: Vec<LyricLine> = Vec::new();
        let mut is_synced = false;
        let mut start: usize = 0;
        let ghost all = parse_all(split_lines(cs@));
        assert(cs@.skip(0) =~= cs@);
        loop
            invariant_except_break
                start <= n == cs.len(),
                line_views(lines@) + parse_all(split_lines(cs@.skip(start as int))) == all,
                lines_fit(split_lines(cs@.skip(start as int))),
            invariant
                all == parse_all(split_lines(cs@)),
                cs@ == raw@,
                is_synced == has_timed(line_views(lines@)),
            ensures
                line_views(lines@) == all,
            decreases n - start,
        {
            let end = find_in(&cs, start, n, '\n');
            let ghost rest = cs@.skip(start as int);
            proof {
                assert(cs@.subrange(start as int, n as int) =~= rest);
                lemma_find_char_bounds(rest, '\n');
                assert(rest.take(end - start) =~= cs@.subrange(start as int, end as int));
                if end < n {
                    assert(rest.skip(end - start + 1) =~= cs@.skip(end + 1));
                }
            }
            let ghost piece = cs@.subrange(start as int, end as int);
            let ghost tail = if end < n { split_lines(cs@.skip(end + 1)) } else { Seq::empty() };
            proof {
                assert(split_lines(rest) =~= seq![piece] + tail);
                assert((seq![piece] + tail).drop_first() =~= tail);
                assert((seq![piece] + tail)[0] == piece);
            }
            let (a, b) = trim_range(&cs, start, end);
            let ghost before = line_views(lines@);
            if a < b {
                assert(cs@.subrange(a as int, b as int) == trim(piece));
                let line = parse_line_chars(&cs, a, b);
                if line.timestamp.is_some() {
                    is_synced = true;
                }
                lines.push(line);
                proof {
                    assert(line_views(lines@) =~= before + seq![parse_line(trim(piece))]);
                    assert(has_timed(line_views(lines@)) == (has_timed(before)
                        || parse_line(trim(piece)).0 is Some)) by {
                        if parse_line(trim(piece)).0 is Some {
                            assert(line_views(lines@)[before.len() as int] == parse_line(
                                trim(piece),
                            ));
                        }
                        if has_timed(line_views(lines@)) {
                            let i = choose|i: int|
                                0 <= i < line_views(lines@).len() && (#[trigger] line_views(
                                    lines@,
                                )[i]).0 is Some;
                            if i < before.len() {
                                assert(before[i] == line_views(lines@)[i]);
                            }
                        }
                        if has_timed(before) {
                            let i = choose|i: int|
                                0 <= i < before.len() && (#[trigger] before[i]).0 is Some;
                            assert(before[i] == line_views(lines@)[i]);
                        }
                    }
                }
            }
            proof {
                if end == n {
                    assert(tail =~= Seq::<Seq<char>>::empty());
                }
                assert(line_views(lines@) + parse_all(tail) =~= all);
            }
            if end == n {
                assert(line_views(lines@) =~= all);
                break;
            }
            start = end + 1;
        }
        let lines = if is_synced {
            sort_by_time(lines)
        } else {
            lines
        };
        proof {
            lemma_synced_iff_timed_line(raw@);
            let vs = line_views(lines@);
            assert forall|i: int| 0 <= i < lines@.len() implies (#[trigger] lines@[i]).timestamp
                == vs[i].0 by {}
            if is_synced {
                let i = choose|i: int| 0 <= i < vs.len() && (#[trigger] vs[i]).0 is Some;
                assert(lines@[i].timestamp is Some);
            }
        }
        ParsedLyrics { lines, is_synced }
    }
}


// ---------------------------------------------------------------------------
// Laws
// ---------------------------------------------------------------------------

/// Whether `ls` is ordered by `sort_key`.
pub open spec fn sorted_by_time(ls: Seq<(Option<u128>, Seq<char>)>) -> bool {
    forall|i: int, j: int| 0 <= i < j < ls.len() ==> sort_key(ls[i]) <= sort_key(ls[j])
}

/// In sorted `t`, the lines before `insert_pos(t, k)` have keys at most `k`
/// and the lines from it on have keys above `k`.
pub proof fn lemma_insert_pos(t: Seq<(Option<u128>, Seq<char>)>, k: int)
    requires
        sorted_by_time(t),
    ensures
        insert_pos(t, k) <= t.len(),
        forall|j: int| 0 <= j < insert_pos(t, k) ==> sort_key(#[trigger] t[j]) <= k,
        forall|j: int| insert_pos(t, k) <= j < t.len() ==> sort_key(#[trigger] t[j]) > k,
    decreases t.len(),
{
    if t.len() > 0 {
        if sort_key(t.last()) <= k {
            assert forall|j: int| 0 <= j < t.len() implies sort_key(#[trigger] t[j]) <= k by {
                if j < t.len() - 1 {
                    assert(sort_key(t[j]) <= sort_key(t[t.len() - 1]));
                }
            }
        } else {
            let d = t.drop_last();
            assert(sorted_by_time(d)) by {
                assert forall|i: int, j: int| 0 <= i < j < d.len() implies sort_key(d[i])
                    <= sort_key(d[j]) by {
                    assert(d[i] == t[i] && d[j] == t[j]);
                }
            }
            lemma_insert_pos(d, k);
            assert forall|j: int| 0 <= j < insert_pos(t, k) implies sort_key(#[trigger] t[j])
                <= k by {
                assert(d[j] == t[j]);
            }
            assert forall|j: int| insert_pos(t, k) <= j < t.len() implies sort_key(
                #[trigger] t[j],
            ) > k by {
                if j < t.len() - 1 {
                    assert(d[j] == t[j]);
                }
            }
        }
    }
}

/// Synced lyrics come out ordered by time.
pub proof fn lemma_sort_lines_sorted(ls: Seq<(Option<u128>, Seq<char>)>)
    ensures
        sorted_by_time(sort_lines(ls)),
        sort_lines(ls).len() == ls.len(),
    decreases ls.len(),
{
    if ls.len() > 0 {
        let t = sort_lines(ls.drop_last());
        lemma_sort_lines_sorted(ls.drop_last());
        let k = sort_key(ls.last());
        lemma_insert_pos(t, k);
        let p = insert_pos(t, k) as int;
        let r = t.insert(p, ls.last());
        assert forall|i: int, j: int| 0 <= i < j < r.len() implies sort_key(r[i]) <= sort_key(
            r[j],
        ) by {
            if j < p {
                assert(r[i] == t[i] && r[j] == t[j]);
            } else if j == p {
                assert(r[i] == t[i]);
            } else if i < p {
                assert(r[i] == t[i] && r[j] == t[j - 1]);
            } else if i == p {
                assert(r[j] == t[j - 1]);
            } else {
                assert(r[i] == t[i - 1] && r[j] == t[j - 1]);
            }
        }
    }
}

/// Sorting keeps every line, each as often as before.
pub proof fn lemma_sort_lines_permutation(ls: Seq<(Option<u128>, Seq<char>)>)
    ensures
        sort_lines(ls).to_multiset() == ls.to_multiset(),
    decreases ls.len(),
{
    broadcast use vstd::seq_lib::to_multiset_build, vstd::seq_lib::to_multiset_insert;

    if ls.len() > 0 {
        let t = sort_lines(ls.drop_last());
        lemma_sort_lines_permutation(ls.drop_last());
        lemma_sort_lines_sorted(ls.drop_last());
        lemma_insert_pos(t, sort_key(ls.last()));
        assert(ls =~= ls.drop_last().push(ls.last()));
    }
}

/// The lines of parsed synced lyrics are ordered by time, and they are the
/// parsed lines, each kept exactly as often as it occurs in the text.
pub proof fn lemma_parsed_lyrics_sorted(raw: Seq<char>)
    ensures
        spec_is_synced(raw) ==> sorted_by_time(spec_lyric_lines(raw)),
        spec_lyric_lines(raw).to_multiset() == parse_all(split_lines(raw)).to_multiset(),
{
    lemma_sort_lines_sorted(parse_all(split_lines(raw)));
    lemma_sort_lines_permutation(parse_all(split_lines(raw)));
}

proof fn lemma_find_sep_digits(t: Seq<char>, c: char, r: Seq<char>)
    requires
        all_digits(t),
        is_field_sep(c),
    ensures
        find_sep(t + seq![c] + r) == t.len(),
        find_sep(t) == t.len(),
    decreases t.len(),
{
    if t.len() > 0 {
        assert(is_digit(t[0]));
        assert((t + seq![c] + r).drop_first() =~= t.drop_first() + seq![c] + r);
        assert(all_digits(t.drop_first()) ) by {
            assert forall|i: int| 0 <= i < t.drop_first().len() implies is_digit(
                #[trigger] t.drop_first()[i],
            ) by {
                assert(t.drop_first()[i] == t[i + 1]);
            }
        }
        lemma_find_sep_digits(t.drop_first(), c, r);
    } else {
        assert((t + seq![c] + r)[0] == c);
    }
}

proof fn lemma_fields_digits(t: Seq<char>, c: char, r: Seq<char>)
    requires
        all_digits(t),
        is_field_sep(c),
    ensures
        fields(t + seq![c] + r) == seq![t] + fields(r),
        fields(t) == seq![t],
{
    lemma_find_sep_digits(t, c, r);
    let u = t + seq![c] + r;
    assert(u.take(t.len() as int) =~= t);
    assert(u.skip(t.len() + 1int) =~= r);
    assert(t.take(t.len() as int) =~= t);
}

proof fn lemma_parse_digit_string(d: Seq<char>)
    requires
        d.len() > 0,
        all_digits(d),
        digits_value(d) <= u64::MAX,
    ensures
        parse_u64(d) == Some(digits_value(d) as u64),
{
    assert(is_digit(d[0]));
}

proof fn lemma_utf8_len_digits(d: Seq<char>)
    requires
        all_digits(d),
    ensures
        utf8_len(d) == d.len(),
    decreases d.len(),
{
    if d.len() > 0 {
        assert(is_digit(d.last()));
        assert(all_digits(d.drop_last())) by {
            assert forall|i: int| 0 <= i < d.drop_last().len() implies is_digit(
                #[trigger] d.drop_last()[i],
            ) by {
                assert(d.drop_last()[i] == d[i]);
            }
        }
        lemma_utf8_len_digits(d.drop_last());
    }
}

/// `10^n`.
pub open spec fn ten_pow(n: nat) -> nat
    decreases n,
{
    if n == 0 {
        1
    } else {
        10 * ten_pow((n - 1) as nat)
    }
}

proof fn lemma_digits_bound(d: Seq<char>)
    requires
        all_digits(d),
    ensures
        digits_value(d) < ten_pow(d.len()),
    decreases d.len(),
{
    if d.len() > 0 {
        assert(is_digit(d.last()));
        assert(all_digits(d.drop_last())) by {
            assert forall|i: int| 0 <= i < d.drop_last().len() implies is_digit(
                #[trigger] d.drop_last()[i],
            ) by {
                assert(d.drop_last()[i] == d[i]);
            }
        }
        lemma_digits_bound(d.drop_last());
    }
}

/// LRC timestamps read as they are written: `mm:ss` is `mm` minutes and
/// `ss` seconds; a third field of two digits (after `.` or `:`) adds
/// hundredths, one of three digits adds milliseconds. Minutes and seconds
/// may have any number of digits.
pub proof fn lemma_timestamp_value(m: Seq<char>, s: Seq<char>, sep: char, f: Seq<char>)
    requires
        m.len() > 0,
        s.len() > 0,
        all_digits(m),
        all_digits(s),
        all_digits(f),
        is_field_sep(sep),
        digits_value(m) * 60 + digits_value(s) <= u64::MAX,
    ensures
        spec_parse_timestamp(m + seq![':'] + s) == Some(
            ((digits_value(m) * 60 + digits_value(s)) * 1000) as u128,
        ),
        f.len() == 2 ==> spec_parse_timestamp(m + seq![':'] + s + seq![sep] + f) == Some(
            ((digits_value(m) * 60 + digits_value(s)) * 1000 + digits_value(f) * 10) as u128,
        ),
        f.len() == 3 ==> spec_parse_timestamp(m + seq![':'] + s + seq![sep] + f) == Some(
            ((digits_value(m) * 60 + digits_value(s)) * 1000 + digits_value(f)) as u128,
        ),
{
    assert(digits_value(m) <= u64::MAX);
    assert(digits_value(s) <= u64::MAX);
    lemma_parse_digit_string(m);
    lemma_parse_digit_string(s);
    lemma_fields_digits(m, ':', s);
    lemma_fields_digits(m, ':', s + seq![sep] + f);
    lemma_fields_digits(s, sep, f);
    lemma_fields_digits(f, sep, f);
    let t2 = m + seq![':'] + s;
    assert(fields(t2) == seq![m, s]);
    let t3 = m + seq![':'] + s + seq![sep] + f;
    assert(t3 =~= m + seq![':'] + (s + seq![sep] + f));
    assert(fields(t3) =~= seq![m, s, f]);
    if f.len() == 2 || f.len() == 3 {
        lemma_utf8_len_digits(f);
        lemma_digits_bound(f);
        reveal_with_fuel(ten_pow, 4);
        lemma_parse_digit_string(f);
    }
}

proof fn lemma_parse_all_trimmed(ls: Seq<Seq<char>>)
    ensures
        forall|i: int|
            0 <= i < parse_all(ls).len() ==> is_trimmed((#[trigger] parse_all(ls)[i]).1) && (
            parse_all(ls)[i].0 is None ==> parse_all(ls)[i].1.len() > 0),
    decreases ls.len(),
{
    if ls.len() > 0 {
        let t = trim(ls[0]);
        lemma_parse_all_trimmed(ls.drop_first());
        lemma_trim_is_trimmed(ls[0]);
        if t.len() > 0 && t[0] == '[' && closing_bracket(t) < t.len() {
            lemma_trim_is_trimmed(t.skip(closing_bracket(t) + 1int));
        }
        let rest = parse_all(ls.drop_first());
        if t.len() > 0 {
            assert forall|i: int| 0 <= i < parse_all(ls).len() implies is_trimmed(
                (#[trigger] parse_all(ls)[i]).1,
            ) && (parse_all(ls)[i].0 is None ==> parse_all(ls)[i].1.len() > 0) by {
                if i > 0 {
                    assert(parse_all(ls)[i] == rest[i - 1]);
                }
            }
        }
    }
}

/// The number of lines of `ls` that are not blank.
pub open spec fn nonblank_count(ls: Seq<Seq<char>>) -> nat
    decreases ls.len(),
{
    if ls.len() == 0 {
        0
    } else {
        nonblank_count(ls.drop_last()) + if trim(ls.last()).len() > 0 {
            1nat
        } else {
            0nat
        }
    }
}

proof fn lemma_parse_all_len(ls: Seq<Seq<char>>)
    ensures
        parse_all(ls).len() == nonblank_count(ls),
    decreases ls.len(),
{
    if ls.len() > 0 {
        lemma_parse_all_len(ls.drop_first());
        lemma_nonblank_count_first(ls);
    }
}

proof fn lemma_nonblank_count_first(ls: Seq<Seq<char>>)
    requires
        ls.len() > 0,
    ensures
        nonblank_count(ls) == nonblank_count(ls.drop_first()) + if trim(ls[0]).len() > 0 {
            1nat
        } else {
            0nat
        },
    decreases ls.len(),
{
    if ls.len() > 1 {
        lemma_nonblank_count_first(ls.drop_last());
        assert(ls.drop_last().drop_first() =~= ls.drop_first().drop_last());
        assert(ls.drop_first().last() == ls.last());
        assert(ls.drop_last()[0] == ls[0]);
        assert(nonblank_count(ls.drop_first()) == nonblank_count(ls.drop_first().drop_last())
            + if trim(ls.drop_first().last()).len() > 0 {
            1nat
        } else {
            0nat
        });
    } else {
        assert(ls.drop_first().len() == 0);
        assert(ls.drop_last().len() == 0);
        assert(ls.last() == ls[0]);
        assert(nonblank_count(ls.drop_last()) == 0);
        assert(nonblank_count(ls.drop_first()) == 0);
    }
}

/// Parsed lyrics keep one line for every line of the text that is not
/// blank, and no more.
pub proof fn lemma_lyric_lines_count(raw: Seq<char>)
    ensures
        spec_lyric_lines(raw).len() == nonblank_count(split_lines(raw)),
{
    let ls = parse_all(split_lines(raw));
    lemma_parse_all_len(split_lines(raw));
    lemma_sort_lines_permutation(ls);
    ls.to_multiset_ensures();
    sort_lines(ls).to_multiset_ensures();
}

/// Every line that parsed lyrics keep has its text trimmed: it neither
/// starts nor ends with whitespace; and an untimed line is never empty (a
/// timed line may have no text, as `[00:12.00]` alone has).
pub proof fn lemma_lyric_lines_trimmed(raw: Seq<char>)
    ensures
        forall|i: int|
            0 <= i < spec_lyric_lines(raw).len() ==> {
                let (ts, text) = #[trigger] spec_lyric_lines(raw)[i];
                &&& text.len() > 0 ==> !is_ws(text[0]) && !is_ws(text.last())
                &&& ts is None ==> text.len() > 0
            },
{
    let ls = parse_all(split_lines(raw));
    let out = spec_lyric_lines(raw);
    lemma_parse_all_trimmed(split_lines(raw));
    if has_timed(ls) {
        lemma_sort_lines_permutation(ls);
        assert forall|i: int| 0 <= i < out.len() implies is_trimmed((#[trigger] out[i]).1) && (
        out[i].0 is None ==> out[i].1.len() > 0) by {
            ls.to_multiset_ensures();
            out.to_multiset_ensures();
            assert(out == sort_lines(ls));
            assert(out.contains(out[i]));
            assert(out.to_multiset().count(out[i]) > 0);
            assert(ls.to_multiset().count(out[i]) > 0);
            assert(ls.contains(out[i]));
            let j = choose|j: int| 0 <= j < ls.len() && ls[j] == out[i];
            assert(is_trimmed(ls[j].1));
        }
    }
}

/// Lyrics are synced exactly when one of the lines they keep carries a
/// timestamp, wherever that line stands (a tag line such as `[ar:Artist]`
/// before it changes nothing).
pub proof fn lemma_synced_iff_timed_line(raw: Seq<char>)
    ensures
        spec_is_synced(raw) <==> exists|i: int|
            0 <= i < spec_lyric_lines(raw).len() && (#[trigger] spec_lyric_lines(raw)[i]).0 is Some,
{
    let ls = parse_all(split_lines(raw));
    let out = spec_lyric_lines(raw);
    if has_timed(ls) {
        let i = choose|i: int| 0 <= i < ls.len() && (#[trigger] ls[i]).0 is Some;
        lemma_sort_lines_permutation(ls);
        ls.to_multiset_ensures();
        out.to_multiset_ensures();
        assert(out == sort_lines(ls));
        assert(ls.contains(ls[i]));
        assert(ls.to_multiset().count(ls[i]) > 0);
        assert(out.to_multiset().count(ls[i]) > 0);
        assert(out.contains(ls[i]));
        let j = choose|j: int| 0 <= j < out.len() && out[j] == ls[i];
        assert(out[j].0 is Some);
    }
}

/// The first line sung after `position` lies within the lines.
pub proof fn lemma_first_late_bound(ls: Seq<(Option<u128>, Seq<char>)>, position: int)
    ensures
        first_late(ls, position) <= ls.len(),
        forall|j: int| 0 <= j < first_late(ls, position) ==> !is_late(#[trigger] ls[j], position),
    decreases ls.len(),
{
    if ls.len() > 0 && !is_late(ls[0], position) {
        lemma_first_late_bound(ls.drop_first(), position);
        assert forall|j: int| 0 <= j < first_late(ls, position) implies !is_late(
            #[trigger] ls[j],
            position,
        ) by {
            if j > 0 {
                assert(ls[j] == ls.drop_first()[j - 1]);
            }
        }
    }
}

/// A later position never finds the first late line earlier.
pub proof fn lemma_first_late_monotone(ls: Seq<(Option<u128>, Seq<char>)>, p1: int, p2: int)
    requires
        p1 <= p2,
    ensures
        first_late(ls, p1) <= first_late(ls, p2),
    decreases ls.len(),
{
    if ls.len() > 0 && !is_late(ls[0], p1) {
        lemma_first_late_monotone(ls.drop_first(), p1, p2);
    }
}

/// Looking at more lines never finds the last timed line earlier.
pub proof fn lemma_last_timed_before(ls: Seq<(Option<u128>, Seq<char>)>, s1: int, s2: int)
    requires
        0 <= s1 <= s2,
    ensures
        last_timed_before(ls, s1) <= last_timed_before(ls, s2),
        s2 > 0 ==> 0 <= last_timed_before(ls, s2) < s2,
        last_timed_before(ls, s2) == 0 || ls[last_timed_before(ls, s2)].0 is Some,
    decreases s2,
{
    if s2 > 0 {
        if s1 < s2 && ls[s2 - 1].0 is None {
            lemma_last_timed_before(ls, s1, s2 - 1);
        } else if s1 < s2 {
            lemma_last_timed_before(ls, s1, s1);
            lemma_last_timed_before(ls, 0, s1);
        } else {
            if ls[s2 - 1].0 is None {
                lemma_last_timed_before(ls, s1 - 1, s2 - 1);
            }
        }
    }
}

proof fn lemma_first_late_stops(ls: Seq<(Option<u128>, Seq<char>)>, position: int)
    ensures
        first_late(ls, position) < ls.len() ==> is_late(ls[first_late(ls, position) as int], position),
    decreases ls.len(),
{
    if ls.len() > 0 && !is_late(ls[0], position) {
        lemma_first_late_stops(ls.drop_first(), position);
        if first_late(ls, position) < ls.len() {
            assert(ls[first_late(ls, position) as int] == ls.drop_first()[first_late(
                ls.drop_first(),
                position,
            ) as int]);
        }
    }
}

proof fn lemma_last_timed_at_least(ls: Seq<(Option<u128>, Seq<char>)>, s: int, j: int)
    requires
        0 <= j < s <= ls.len(),
        ls[j].0 is Some,
    ensures
        last_timed_before(ls, s) >= j,
    decreases s,
{
    if ls[s - 1].0 is None {
        lemma_last_timed_at_least(ls, s - 1, j);
    }
}

/// For lyrics ordered by time, as parsed synced lyrics are, the current line
/// is the last line already due: every timed line after it is still to
/// come, and when any timed line is due the current line is a timed line
/// that is due (otherwise it is line 0). Unsynced or empty lyrics have no
/// current line.
pub proof fn lemma_current_line_is_last_due(ls: Seq<(Option<u128>, Seq<char>)>, position: int)
    requires
        sorted_by_time(ls),
        ls.len() <= usize::MAX,
    ensures
        spec_current_index(ls, false, position) is None,
        ls.len() == 0 ==> spec_current_index(ls, true, position) is None,
        ls.len() > 0 ==> (spec_current_index(ls, true, position) matches Some(r) && {
            &&& r < ls.len()
            &&& forall|j: int|
                r < j < ls.len() && (#[trigger] ls[j]).0 is Some ==> ls[j].0->0 > position
            &&& (exists|j: int|
                0 <= j < ls.len() && (#[trigger] ls[j]).0 is Some && ls[j].0->0 <= position) ==> (
            ls[r as int].0 is Some && ls[r as int].0->0 <= position)
            &&& (forall|j: int|
                0 <= j < ls.len() ==> !((#[trigger] ls[j]).0 is Some && ls[j].0->0 <= position))
                ==> r == 0
        }),
{
    if ls.len() > 0 {
        lemma_first_late_bound(ls, position);
        let f = first_late(ls, position) as int;
        lemma_last_timed_before(ls, f, f);
        lemma_last_timed_before(ls, 0, f);
        let r = last_timed_before(ls, f);
        assert forall|j: int| r < j < ls.len() && (#[trigger] ls[j]).0 is Some implies ls[j].0->0
            > position by {
            if j < f {
                lemma_last_timed_at_least(ls, f, j);
            } else {
                lemma_first_late_stops(ls, position);
                assert(sort_key(ls[f]) <= sort_key(ls[j]));
            }
        }
        if exists|j: int| 0 <= j < ls.len() && (#[trigger] ls[j]).0 is Some && ls[j].0->0 <= position {
            let j = choose|j: int|
                0 <= j < ls.len() && (#[trigger] ls[j]).0 is Some && ls[j].0->0 <= position;
            assert(j <= r);
            if r == 0 {
                assert(j == 0);
            }
        }
        if r > 0 {
            assert(ls[r].0 is Some);
        }
    }
}

/// A later playback position never selects an earlier line, the selected
/// line is a line of the lyrics, and it is already due unless no timed line
/// has come yet (then it is line 0).
pub proof fn lemma_current_index_monotone(
    ls: Seq<(Option<u128>, Seq<char>)>,
    is_synced: bool,
    p1: int,
    p2: int,
)
    requires
        p1 <= p2,
        ls.len() <= usize::MAX,
    ensures
        spec_current_index(ls, is_synced, p1) is Some <==> spec_current_index(ls, is_synced, p2) is Some,
        spec_current_index(ls, is_synced, p1) matches Some(r1) ==> r1 <= spec_current_index(
            ls,
            is_synced,
            p2,
        )->0,
        spec_current_index(ls, is_synced, p1) matches Some(r1) ==> r1 < ls.len() && (r1 == 0
            || !is_late(ls[r1 as int], p1)),
{
    lemma_first_late_monotone(ls, p1, p2);
    lemma_first_late_bound(ls, p1);
    lemma_first_late_bound(ls, p2);
    let s1 = first_late(ls, p1) as int;
    let s2 = first_late(ls, p2) as int;
    lemma_last_timed_before(ls, s1, s2);
    lemma_last_timed_before(ls, 0, s1);
}

} // verus!
