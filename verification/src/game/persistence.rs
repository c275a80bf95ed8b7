//! Saved lifetime statistics: the text format and how a save is read back.
//!
//! A save is one line `high,coins,stars,distance` of decimal numbers. Reading
//! trims surrounding whitespace, splits at every comma and parses each of the
//! four fields as a `u32`, a field that does not parse counting as 0. A save
//! that does not split into exactly four fields falls back to the older
//! single-number high-score save.

use vstd::prelude::*;
use super::state::LifetimeStats;
use crate::text::{append_decimal, decimal, digit_char};

verus! {

// ── Specification of the format ─────────────────────────────────────────

/// Characters with the Unicode `White_Space` property, which trimming removes.
pub open spec fn is_whitespace(c: char) -> bool {
    let u = c as u32;
    ||| 0x09 <= u <= 0x0D
    ||| u == 0x20
    ||| u == 0x85
    ||| u == 0xA0
    ||| u == 0x1680
    ||| 0x2000 <= u <= 0x200A
    ||| u == 0x2028
    ||| u == 0x2029
    ||| u == 0x202F
    ||| u == 0x205F
    ||| u == 0x3000
}

/// The text without its leading whitespace.
pub open spec fn trim_start(s: Seq<char>) -> Seq<char>
    decreases s.len(),
{
    if s.len() > 0 && is_whitespace(s[0]) {
        trim_start(s.drop_first())
    } else {
        s
    }
}

/// The text without its trailing whitespace.
pub open spec fn trim_end(s: Seq<char>) -> Seq<char>
    decreases s.len(),
{
    if s.len() > 0 && is_whitespace(s.last()) {
        trim_end(s.drop_last())
    } else {
        s
    }
}

/// The text without leading and trailing whitespace.
pub open spec fn trim(s: Seq<char>) -> Seq<char> {
    trim_end(trim_start(s))
}

/// The pieces between commas, in order; `n` commas give `n + 1` pieces, some
/// of which may be empty.
pub open spec fn split_commas(s: Seq<char>) -> Seq<Seq<char>>
    decreases s.len(),
{
    if s.len() == 0 {
        seq![Seq::empty()]
    } else {
        let parts = split_commas(s.drop_last());
        if s.last() == ',' {
            parts.push(Seq::empty())
        } else {
            parts.update(parts.len() - 1, parts.last().push(s.last()))
        }
    }
}

/// An ASCII decimal digit.
pub open spec fn is_digit(c: char) -> bool {
    48 <= c as u32 <= 57
}

/// The value of an ASCII decimal digit.
pub open spec fn digit_value(c: char) -> nat {
    (c as u32 - 48) as nat
}

pub open spec fn all_digits(s: Seq<char>) -> bool {
    forall|i: int| 0 <= i < s.len() ==> #[trigger] is_digit(s[i])
}

/// The number written by a string of decimal digits (0 for the empty string).
pub open spec fn decimal_value(s: Seq<char>) -> nat
    decreases s.len(),
{
    if s.len() == 0 {
        0
    } else {
        decimal_value(s.drop_last()) * 10 + digit_value(s.last())
    }
}

/// The digits of a number with an optional leading `+` removed.
pub open spec fn unsigned_digits(s: Seq<char>) -> Seq<char> {
    if s.len() > 0 && s[0] == '+' {
        s.drop_first()
    } else {
        s
    }
}

/// A `u32` written in decimal, as the standard library parses it: an optional
/// `+`, then one or more digits, with a value that fits.
pub open spec fn parse_u32(s: Seq<char>) -> Option<u32> {
    let d = unsigned_digits(s);
    if d.len() > 0 && all_digits(d) && decimal_value(d) <= u32::MAX {
        Some(decimal_value(d) as u32)
    } else {
        None
    }
}

/// A field's value, 0 when it does not parse.
pub open spec fn parse_or_zero(s: Seq<char>) -> u32 {
    match parse_u32(s) {
        Some(v) => v,
        None => 0,
    }
}

/// The statistics a save holds, or `None` when it does not have four fields.
pub open spec fn stats_from_text(s: Seq<char>) -> Option<LifetimeStats> {
    let parts = split_commas(trim(s));
    if parts.len() == 4 {
        Some(
            LifetimeStats {
                high_score: parse_or_zero(parts[0]),
                total_coins: parse_or_zero(parts[1]),
                total_stars: parse_or_zero(parts[2]),
                total_distance: parse_or_zero(parts[3]),
            },
        )
    } else {
        None
    }
}

/// The high score an older single-number save holds.
pub open spec fn highscore_from_text(s: Seq<char>) -> u32 {
    parse_or_zero(trim(s))
}

/// The statistics loaded from the contents of the saves that could be read:
/// the full save when it has four fields, else the older high-score save,
/// else nothing.
pub open spec fn loaded_stats(
    stats_file: Option<Seq<char>>,
    highscore_file: Option<Seq<char>>,
) -> LifetimeStats {
    if stats_file is Some && stats_from_text(stats_file->0) is Some {
        stats_from_text(stats_file->0)->0
    } else if highscore_file is Some {
        LifetimeStats {
            high_score: highscore_from_text(highscore_file->0),
            total_coins: 0,
            total_stars: 0,
            total_distance: 0,
        }
    } else {
        LifetimeStats { high_score: 0, total_coins: 0, total_stars: 0, total_distance: 0 }
    }
}

/// The text a save holds: the four numbers in decimal, separated by commas.
pub open spec fn stats_text(s: LifetimeStats) -> Seq<char> {
    decimal(s.high_score as nat) + seq![','] + decimal(s.total_coins as nat) + seq![',']
        + decimal(s.total_stars as nat) + seq![','] + decimal(s.total_distance as nat)
}

/// The view of an optional string.
pub open spec fn opt_text(o: Option<&str>) -> Option<Seq<char>> {
    match o {
        Some(s) => Some(s@),
        None => None,
    }
}

// ── Reading ─────────────────────────────────────────────────────────────

/// The characters of a string, in order.
fn chars_of(s: &str) -> (v: Vec<char>)
    ensures
        v@ == s@,
{
    let mut v: Vec<char> = Vec::new();
    for c in it: s.chars()
        invariant
            v@ == it.seq().take(it.index() as int),
    {
        v.push(c);
    }
    v
}

fn is_whitespace_char(c: char) -> (b: bool)
    ensures
        b == is_whitespace(c),
{
    let u = c as u32;
    (0x09 <= u && u <= 0x0D) || u == 0x20 || u == 0x85 || u == 0xA0 || u == 0x1680 || (0x2000
        <= u && u <= 0x200A) || u == 0x2028 || u == 0x2029 || u == 0x202F || u == 0x205F || u
        == 0x3000
}

proof fn lemma_trim_start_skip(s: Seq<char>, i: int)
    requires
        0 <= i < s.len(),
        is_whitespace(s[i]),
    ensures
        trim_start(s.skip(i)) == trim_start(s.skip(i + 1)),
{
    assert(s.skip(i).drop_first() =~= s.skip(i + 1));
}

proof fn lemma_trim_end_sub(s: Seq<char>, i: int, j: int)
    requires
        0 <= i < j <= s.len(),
        is_whitespace(s[j - 1]),
    ensures
        trim_end(s.subrange(i, j)) == trim_end(s.subrange(i, j - 1)),
{
    assert(s.subrange(i, j).drop_last() =~= s.subrange(i, j - 1));
}

/// The bounds of the text without surrounding whitespace.
fn trim_bounds(v: &Vec<char>) -> (r: (usize, usize))
    ensures
        r.0 <= r.1 <= v.len(),
        v@.subrange(r.0 as int, r.1 as int) == trim(v@),
{
    let n = v.len();
    let mut i: usize = 0;
    assert(v@.skip(0) =~= v@);
    while i < n && is_whitespace_char(v[i])
        invariant
            i <= n == v.len(),
            trim_start(v@) == trim_start(v@.skip(i as int)),
        decreases n - i,
    {
        proof {
            lemma_trim_start_skip(v@, i as int);
        }
        i += 1;
    }
    assert(trim_start(v@) == v@.subrange(i as int, n as int)) by {
        assert(v@.skip(i as int) =~= v@.subrange(i as int, n as int));
    }
    let mut j: usize = n;
    while j > i && is_whitespace_char(v[j - 1])
        invariant
            i <= j <= n == v.len(),
            trim_end(v@.subrange(i as int, n as int)) == trim_end(v@.subrange(i as int, j as int)),
        decreases j,
    {
        proof {
            lemma_trim_end_sub(v@, i as int, j as int);
        }
        j -= 1;
    }
    (i, j)
}

/// The pieces as views.
pub open spec fn piece_views(ps: Seq<Vec<char>>) -> Seq<Seq<char>> {
    ps.map_values(|p: Vec<char>| p@)
}

/// Splits `v[start..end]` at commas.
fn split_at_commas(v: &Vec<char>, start: usize, end: usize) -> (parts: Vec<Vec<char>>)
    requires
        start <= end <= v.len(),
    ensures
        piece_views(parts@) == split_commas(v@.subrange(start as int, end as int)),
{
    let mut done: Vec<Vec<char>> = Vec::new();
    let mut cur: Vec<char> = Vec::new();
    let mut k: usize = start;
    assert(v@.subrange(start as int, start as int) =~= Seq::<char>::empty());
    assert(piece_views(done@).push(cur@) =~= seq![Seq::<char>::empty()]);
    while k < end
        invariant
            start <= k <= end <= v.len(),
            split_commas(v@.subrange(start as int, k as int)) == piece_views(done@).push(cur@),
        decreases end - k,
    {
        let c = v[k];
        let ghost prefix = v@.subrange(start as int, (k + 1) as int);
        assert(prefix.drop_last() =~= v@.subrange(start as int, k as int));
        assert(prefix.last() == c);
        if c == ',' {
            let ghost before = piece_views(done@);
            let ghost cur_view = cur@;
            done.push(cur);
            cur = Vec::new();
            assert(piece_views(done@) =~= before.push(cur_view));
            assert(piece_views(done@).push(cur@) =~= before.push(cur_view).push(Seq::empty()));
        } else {
            let ghost before = piece_views(done@);
            let ghost old_cur = cur@;
            cur.push(c);
            assert(piece_views(done@).push(cur@) =~= before.push(old_cur).update(
                before.len() as int,
                old_cur.push(c),
            ));
        }
        k += 1;
    }
    let ghost before = piece_views(done@);
    let ghost cur_view = cur@;
    done.push(cur);
    assert(piece_views(done@) =~= before.push(cur_view));
    done
}

proof fn lemma_decimal_prefix_le(s: Seq<char>, k: int)
    requires
        all_digits(s),
        0 <= k <= s.len(),
    ensures
        decimal_value(s.take(k)) <= decimal_value(s),
    decreases s.len(),
{
    if k < s.len() {
        let t = s.drop_last();
        assert(t.take(k) =~= s.take(k));
        assert(all_digits(t)) by {
            assert forall|i: int| 0 <= i < t.len() implies #[trigger] is_digit(t[i]) by {
                assert(is_digit(s[i]));
            }
        }
        lemma_decimal_prefix_le(t, k);
    } else {
        assert(s.take(k) =~= s);
    }
}

/// Parses a `u32` the way the standard library does.
fn parse_u32_chars(s: &Vec<char>) -> (r: Option<u32>)
    ensures
        r == parse_u32(s@),
{
    let n = s.len();
    let mut start: usize = 0;
    if n > 0 && s[0] == '+' {
        start = 1;
    }
    let ghost d = unsigned_digits(s@);
    assert(d =~= s@.subrange(start as int, n as int));
    if start == n {
        return None;
    }
    let mut acc: u64 = 0;
    let mut i: usize = start;
    assert(d.take(0) =~= Seq::<char>::empty());
    while i < n
        invariant
            start <= i <= n == s.len(),
            d == s@.subrange(start as int, n as int),
            d == unsigned_digits(s@),
            acc == decimal_value(d.take(i - start)),
            all_digits(d.take(i - start)),
            acc <= u32::MAX,
        decreases n - i,
    {
        let c = s[i];
        let u = c as u32;
        if u < 48 || u > 57 {
            assert(!is_digit(d[i - start]));
            return None;
        }
        let ghost k = (i - start) as int;
        assert(d.take(k + 1).drop_last() =~= d.take(k));
        assert(d.take(k + 1).last() == c);
        acc = acc * 10 + (u - 48) as u64;
        assert(all_digits(d.take(k + 1))) by {
            assert forall|j: int| 0 <= j < k + 1 implies #[trigger] is_digit(d.take(k + 1)[j]) by {
                if j < k {
                    assert(d.take(k + 1)[j] == d.take(k)[j]);
                }
            }
        }
        if acc > 0xFFFF_FFFF {
            proof {
                if all_digits(d) {
                    lemma_decimal_prefix_le(d, k + 1);
                }
            }
            return None;
        }
        i += 1;
    }
    assert(d.take(n - start) =~= d);
    Some(acc as u32)
}

fn parse_or_zero_chars(s: &Vec<char>) -> (v: u32)
    ensures
        v == parse_or_zero(s@),
{
    match parse_u32_chars(s) {
        Some(v) => v,
        None => 0,
    }
}

/// The statistics a save holds, or `None` when it does not have four
/// comma-separated fields.
pub fn parse_stats(contents: &str) -> (r: Option<LifetimeStats>)
    ensures
        r == stats_from_text(contents@),
{
    let v = chars_of(contents);
    let (start, end) = trim_bounds(&v);
    let parts = split_at_commas(&v, start, end);
    if parts.len() == 4 {
        assert(parts@[0]@ == piece_views(parts@)[0]);
        assert(parts@[1]@ == piece_views(parts@)[1]);
        assert(parts@[2]@ == piece_views(parts@)[2]);
        assert(parts@[3]@ == piece_views(parts@)[3]);
        Some(
            LifetimeStats {
                high_score: parse_or_zero_chars(&parts[0]),
                total_coins: parse_or_zero_chars(&parts[1]),
                total_stars: parse_or_zero_chars(&parts[2]),
                total_distance: parse_or_zero_chars(&parts[3]),
            },
        )
    } else {
        None
    }
}

/// The high score an older single-number save holds, 0 when it does not parse.
pub fn parse_highscore(contents: &str) -> (h: u32)
    ensures
        h == highscore_from_text(contents@),
{
    let v = chars_of(contents);
    let (start, end) = trim_bounds(&v);
    let mut t: Vec<char> = Vec::new();
    let mut k: usize = start;
    while k < end
        invariant
            start <= k <= end <= v.len(),
            t@ == v@.subrange(start as int, k as int),
        decreases end - k,
    {
        t.push(v[k]);
        k += 1;
    }
    parse_or_zero_chars(&t)
}

/// The statistics to start with, from the contents of the full save and of the
/// older high-score save (`None` where a save could not be read): the full
/// save when it has four fields, else the high score alone, else zeros.
pub fn load_stats_from(stats_file: Option<&str>, highscore_file: Option<&str>) -> (r: LifetimeStats)
    ensures
        r == loaded_stats(opt_text(stats_file), opt_text(highscore_file)),
{
    if let Some(contents) = stats_file {
        if let Some(stats) = parse_stats(contents) {
            return stats;
        }
    }
    if let Some(contents) = highscore_file {
        return LifetimeStats {
            high_score: parse_highscore(contents),
            total_coins: 0,
            total_stars: 0,
            total_distance: 0,
        };
    }
    LifetimeStats::default()
}

/// A stored value read as a count: negative values count as 0.
pub open spec fn count_of(v: i32) -> u32 {
    if v < 0 {
        0
    } else {
        v as u32
    }
}

fn count_from(v: i32) -> (c: u32)
    ensures
        c == count_of(v),
{
    if v < 0 {
        0
    } else {
        v as u32
    }
}

/// The statistics from the four values the browser keeps; when all four are
/// 0 nothing was stored yet and the older stored high score is used instead.
pub fn stats_from_stored(
    high_score: i32,
    total_coins: i32,
    total_stars: i32,
    total_distance: i32,
    legacy_high_score: i32,
) -> (r: LifetimeStats)
    ensures
        r == (if high_score == 0 && total_coins == 0 && total_stars == 0 && total_distance == 0 {
            LifetimeStats {
                high_score: count_of(legacy_high_score),
                total_coins: 0,
                total_stars: 0,
                total_distance: 0,
            }
        } else {
            LifetimeStats {
                high_score: count_of(high_score),
                total_coins: count_of(total_coins),
                total_stars: count_of(total_stars),
                total_distance: count_of(total_distance),
            }
        }),
{
    if high_score == 0 && total_coins == 0 && total_stars == 0 && total_distance == 0 {
        return LifetimeStats {
            high_score: count_from(legacy_high_score),
            total_coins: 0,
            total_stars: 0,
            total_distance: 0,
        };
    }
    LifetimeStats {
        high_score: count_from(high_score),
        total_coins: count_from(total_coins),
        total_stars: count_from(total_stars),
        total_distance: count_from(total_distance),
    }
}

// ── Writing ─────────────────────────────────────────────────────────────

/// The text of a save holding `stats`.
pub fn encode_stats(stats: LifetimeStats) -> (s: String)
    ensures
        s@ == stats_text(stats),
{
    let mut s = String::new();
    append_decimal(&mut s, stats.high_score);
    s.append(",");
    append_decimal(&mut s, stats.total_coins);
    s.append(",");
    append_decimal(&mut s, stats.total_stars);
    s.append(",");
    append_decimal(&mut s, stats.total_distance);
    proof {
        reveal_strlit(",");
    }
    assert(s@ =~= stats_text(stats));
    s
}

// ── Laws ────────────────────────────────────────────────────────────────

/// A text without commas.
pub open spec fn comma_free(s: Seq<char>) -> bool {
    forall|i: int| 0 <= i < s.len() ==> s[i] != ','
}

/// Splitting always yields at least one piece.
pub proof fn lemma_split_nonempty(s: Seq<char>)
    ensures
        split_commas(s).len() >= 1,
    decreases s.len(),
{
    if s.len() > 0 {
        lemma_split_nonempty(s.drop_last());
    }
}

/// Text without commas extends the last piece.
pub proof fn lemma_split_append_piece(p: Seq<char>, q: Seq<char>)
    requires
        comma_free(q),
    ensures
        split_commas(p + q) == split_commas(p).update(
            split_commas(p).len() - 1,
            split_commas(p).last() + q,
        ),
    decreases q.len(),
{
    lemma_split_nonempty(p);
    if q.len() == 0 {
        assert(p + q =~= p);
        assert(split_commas(p).last() + q =~= split_commas(p).last());
        assert(split_commas(p).update(split_commas(p).len() - 1, split_commas(p).last())
            =~= split_commas(p));
    } else {
        let q0 = q.drop_last();
        assert(comma_free(q0)) by {
            assert forall|i: int| 0 <= i < q0.len() implies q0[i] != ',' by {
                assert(q0[i] == q[i]);
            }
        }
        lemma_split_append_piece(p, q0);
        assert((p + q).drop_last() =~= p + q0);
        assert((p + q).last() == q.last());
        assert(q.last() != ',');
        let sp = split_commas(p);
        assert(sp.last() + q0 + seq![q.last()] =~= sp.last() + q);
        assert((sp.last() + q0).push(q.last()) =~= sp.last() + q);
        assert(split_commas(p + q) =~= sp.update(sp.len() - 1, sp.last() + q));
    }
}

/// A comma closes the last piece and opens an empty one.
pub proof fn lemma_split_append_comma(p: Seq<char>)
    ensures
        split_commas(p + seq![',']) == split_commas(p).push(Seq::empty()),
{
    assert((p + seq![',']).drop_last() =~= p);
}

proof fn lemma_digit_char(d: nat)
    requires
        d < 10,
    ensures
        is_digit(digit_char(d)),
        digit_value(digit_char(d)) == d,
        digit_char(d) != ',',
        digit_char(d) != '+',
        !is_whitespace(digit_char(d)),
{
}

/// A number written in decimal is a nonempty string of digits that parses
/// back to the number.
pub proof fn lemma_decimal_parses(n: nat)
    ensures
        decimal(n).len() > 0,
        all_digits(decimal(n)),
        comma_free(decimal(n)),
        decimal_value(decimal(n)) == n,
        !is_whitespace(decimal(n)[0]),
        !is_whitespace(decimal(n).last()),
        decimal(n)[0] != '+',
    decreases n,
{
    if n < 10 {
        lemma_digit_char(n);
        let s = decimal(n);
        assert(s == seq![digit_char(n)]);
        assert(s.drop_last() =~= Seq::<char>::empty());
        assert(decimal_value(Seq::<char>::empty()) == 0);
        assert(s.last() == digit_char(n));
        assert(decimal_value(s) == decimal_value(s.drop_last()) * 10 + digit_value(s.last()));
    } else {
        lemma_decimal_parses(n / 10);
        lemma_digit_char(n % 10);
        let t = decimal(n / 10);
        assert(decimal(n).drop_last() =~= t);
        assert(decimal_value(decimal(n)) == decimal_value(t) * 10 + (n % 10));
        assert(n == (n / 10) * 10 + n % 10) by (nonlinear_arith);
        assert(decimal_value(decimal(n)) == n);
        assert(decimal(n)[0] == t[0]);
        assert forall|i: int| 0 <= i < decimal(n).len() implies #[trigger] is_digit(decimal(n)[i]) by {
            if i < t.len() {
                assert(decimal(n)[i] == t[i]);
            }
        }
        assert forall|i: int| 0 <= i < decimal(n).len() implies decimal(n)[i] != ',' by {
            if i < t.len() {
                assert(decimal(n)[i] == t[i]);
            }
        }
    }
}

/// Decimal numbers parse to their values.
pub proof fn lemma_parse_decimal(n: u32)
    ensures
        parse_u32(decimal(n as nat)) == Some(n),
        parse_or_zero(decimal(n as nat)) == n,
{
    lemma_decimal_parses(n as nat);
}

/// What is saved is what is read back: the text of a save parses to the very
/// statistics that were written, and loading prefers it over the older save.
pub proof fn lemma_saved_stats_read_back(stats: LifetimeStats, highscore_file: Option<Seq<char>>)
    ensures
        stats_from_text(stats_text(stats)) == Some(stats),
        loaded_stats(Some(stats_text(stats)), highscore_file) == stats,
{
    let a = decimal(stats.high_score as nat);
    let b = decimal(stats.total_coins as nat);
    let c = decimal(stats.total_stars as nat);
    let d = decimal(stats.total_distance as nat);
    lemma_decimal_parses(stats.high_score as nat);
    lemma_decimal_parses(stats.total_coins as nat);
    lemma_decimal_parses(stats.total_stars as nat);
    lemma_decimal_parses(stats.total_distance as nat);
    lemma_parse_decimal(stats.high_score);
    lemma_parse_decimal(stats.total_coins);
    lemma_parse_decimal(stats.total_stars);
    lemma_parse_decimal(stats.total_distance);
    let t = stats_text(stats);
    // no surrounding whitespace
    assert(t[0] == a[0]);
    assert(t.last() == d.last());
    assert(trim_start(t) == t);
    assert(trim_end(t) == t);
    assert(trim(t) == t);
    // four pieces
    let e = Seq::<char>::empty();
    assert(e + a =~= a);
    lemma_split_append_piece(e, a);
    assert(split_commas(e) == seq![e]);
    assert(split_commas(a) =~= seq![a]);
    let p1 = a + seq![','];
    lemma_split_append_comma(a);
    lemma_split_append_piece(p1, b);
    assert(split_commas(p1 + b) =~= seq![a, b]);
    let p2 = p1 + b + seq![','];
    lemma_split_append_comma(p1 + b);
    lemma_split_append_piece(p2, c);
    assert(split_commas(p2 + c) =~= seq![a, b, c]);
    let p3 = p2 + c + seq![','];
    lemma_split_append_comma(p2 + c);
    lemma_split_append_piece(p3, d);
    assert(split_commas(p3 + d) =~= seq![a, b, c, d]);
    assert(t =~= p3 + d);
}

} // verus!
