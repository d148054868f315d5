//! Verified text building blocks: single-quote escaping for the
//! concatenation manifest, character search, whitespace trimming, and
//! decimal parsing of probe output.

use vstd::prelude::*;
use vstd::string::StrSliceExecFns;

verus! {

/// Relies on `String::push`: appends the given character to the end of
/// the string.
#[verifier::external_body]
pub(crate) fn push_char(s: &mut String, c: char)
    ensures
        final(s)@ == old(s)@.push(c),
{
    s.push(c);
}

/// How one character of a path appears inside the single-quoted
/// manifest directive: a literal single quote becomes the close-quote,
/// escaped-quote, reopen-quote idiom `'\''`; everything else is itself.
pub open spec fn escape_char_spec(c: char) -> Seq<char> {
    if c == '\'' {
        seq!['\'', '\\', '\'', '\'']
    } else {
        seq![c]
    }
}

/// The whole path with every single quote escaped.
pub open spec fn escape_quotes_spec(s: Seq<char>) -> Seq<char>
    decreases s.len(),
{
    if s.len() == 0 {
        Seq::empty()
    } else {
        escape_char_spec(s[0]) + escape_quotes_spec(s.skip(1))
    }
}

proof fn lemma_escape_push(s: Seq<char>, c: char)
    ensures
        escape_quotes_spec(s.push(c)) == escape_quotes_spec(s) + escape_char_spec(c),
    decreases s.len(),
{
    if s.len() == 0 {
        assert(s.push(c).skip(1) =~= Seq::<char>::empty());
        assert(s.push(c)[0] == c);
        assert(escape_quotes_spec(s.push(c)) == escape_char_spec(c) + escape_quotes_spec(
            Seq::<char>::empty(),
        ));
        assert(escape_char_spec(c) + Seq::<char>::empty() =~= escape_char_spec(c));
        assert(escape_quotes_spec(s) + escape_char_spec(c) =~= escape_char_spec(c));
    } else {
        assert(s.push(c).skip(1) =~= s.skip(1).push(c));
        lemma_escape_push(s.skip(1), c);
        assert(s.push(c)[0] == s[0]);
        assert(escape_quotes_spec(s.push(c)) =~= escape_quotes_spec(s) + escape_char_spec(c));
    }
}

/// Escapes every single quote in `s` with the POSIX `'\''` idiom, so
/// that the result can stand inside a single-quoted manifest directive.
pub fn escape_single_quotes(s: &str) -> (r: String)
    ensures
        r@ == escape_quotes_spec(s@),
{
    let n: usize = s.unicode_len();
    let mut out = String::new();
    let mut i: usize = 0;
    while i < n
        invariant
            n == s@.len(),
            i <= n,
            out@ == escape_quotes_spec(s@.take(i as int)),
        decreases n - i,
    {
        let c = s.get_char(i);
        if c == '\'' {
            push_char(&mut out, '\'');
            push_char(&mut out, '\\');
            push_char(&mut out, '\'');
            push_char(&mut out, '\'');
        } else {
            push_char(&mut out, c);
        }
        proof {
            lemma_escape_push(s@.take(i as int), s@[i as int]);
            assert(s@.take(i as int).push(s@[i as int]) =~= s@.take(i + 1 as int));
            assert(out@ =~= escape_quotes_spec(s@.take(i as int)) + escape_char_spec(s@[i as int]));
        }
        i = i + 1;
    }
    proof {
        assert(s@.take(n as int) =~= s@);
    }
    out
}

/// Reader for the escaped form: undoes `escape_quotes_spec`, consuming
/// the four-character `'\''` idiom back into one quote.
pub open spec fn unescape_quotes_spec(s: Seq<char>) -> Seq<char>
    decreases s.len(),
{
    if s.len() == 0 {
        Seq::empty()
    } else if s.len() >= 4 && s[0] == '\'' && s[1] == '\\' && s[2] == '\'' && s[3] == '\'' {
        seq!['\''] + unescape_quotes_spec(s.skip(4))
    } else {
        seq![s[0]] + unescape_quotes_spec(s.skip(1))
    }
}

/// Escaping round-trips: a reader of the manifest's quoting idiom
/// recovers every path exactly, whatever quotes it contains.
pub proof fn lemma_escape_round_trip(s: Seq<char>)
    ensures
        unescape_quotes_spec(escape_quotes_spec(s)) == s,
    decreases s.len(),
{
    if s.len() == 0 {
    } else {
        lemma_escape_round_trip(s.skip(1));
        let e = escape_quotes_spec(s);
        if s[0] == '\'' {
            assert(e.skip(4) =~= escape_quotes_spec(s.skip(1)));
            assert(unescape_quotes_spec(e) =~= seq![s[0]] + s.skip(1));
            assert(seq![s[0]] + s.skip(1) =~= s);
        } else {
            assert(e[0] == s[0]);
            assert(e.skip(1) =~= escape_quotes_spec(s.skip(1)));
            assert(unescape_quotes_spec(e) =~= seq![s[0]] + s.skip(1));
            assert(seq![s[0]] + s.skip(1) =~= s);
        }
    }
}

/// Index of the first occurrence of `c` in `s`, or `s.len()` when `c`
/// does not occur.
pub open spec fn find_char_spec(s: Seq<char>, c: char) -> int
    decreases s.len(),
{
    if s.len() == 0 {
        0
    } else if s[0] == c {
        0
    } else {
        1 + find_char_spec(s.skip(1), c)
    }
}

pub proof fn lemma_find_char_props(s: Seq<char>, c: char)
    ensures
        0 <= find_char_spec(s, c) <= s.len(),
        forall|j: int| 0 <= j < find_char_spec(s, c) ==> s[j] != c,
        find_char_spec(s, c) < s.len() ==> s[find_char_spec(s, c)] == c,
    decreases s.len(),
{
    if s.len() == 0 {
    } else if s[0] == c {
    } else {
        lemma_find_char_props(s.skip(1), c);
        assert forall|j: int| 0 <= j < find_char_spec(s, c) implies s[j] != c by {
            if j > 0 {
                assert(s.skip(1)[j - 1] == s[j]);
            }
        }
    }
}

proof fn lemma_find_char_is(s: Seq<char>, c: char, i: int)
    requires
        0 <= i <= s.len(),
        forall|j: int| 0 <= j < i ==> s[j] != c,
        i < s.len() ==> s[i] == c,
    ensures
        find_char_spec(s, c) == i,
    decreases i,
{
    if s.len() == 0 {
    } else if i == 0 {
    } else {
        assert(s[0] != c);
        assert(forall|j: int| 0 <= j < i - 1 ==> s.skip(1)[j] == s[j + 1] && s[j + 1] != c);
        assert(i - 1 < s.skip(1).len() ==> s.skip(1)[i - 1] == s[i]);
        lemma_find_char_is(s.skip(1), c, i - 1);
    }
}

/// Finds the first occurrence of `c` in `s`, returning `s.len()` in
/// characters when absent.
pub fn find_char(s: &str, c: char) -> (i: usize)
    ensures
        i == find_char_spec(s@, c),
{
    let n: usize = s.unicode_len();
    let mut i: usize = 0;
    while i < n
        invariant
            n == s@.len(),
            i <= n,
            forall|j: int| 0 <= j < i ==> s@[j] != c,
        decreases n - i,
    {
        if s.get_char(i) == c {
            proof {
                lemma_find_char_is(s@, c, i as int);
            }
            return i;
        }
        i = i + 1;
    }
    proof {
        lemma_find_char_is(s@, c, n as int);
    }
    n
}

/// The whitespace the probes strip: the ASCII blanks the external
/// engine may put around its one-line answers.
pub open spec fn is_blank(c: char) -> bool {
    c == ' ' || c == '\t' || c == '\r' || c == '\n'
}

/// `s` without leading and trailing blanks.
pub open spec fn trim_spec(s: Seq<char>) -> Seq<char>
    decreases s.len(),
{
    if s.len() > 0 && is_blank(s[0]) {
        trim_spec(s.skip(1))
    } else if s.len() > 0 && is_blank(s.last()) {
        trim_spec(s.take(s.len() - 1))
    } else {
        s
    }
}

fn is_blank_exec(c: char) -> (r: bool)
    ensures
        r == is_blank(c),
{
    c == ' ' || c == '\t' || c == '\r' || c == '\n'
}

/// Strips leading and trailing ASCII blanks.
pub fn trim_blanks(s: &str) -> (r: String)
    ensures
        r@ == trim_spec(s@),
{
    let n: usize = s.unicode_len();
    proof {
        assert(s@.skip(0) =~= s@);
    }
    let mut start: usize = 0;
    while start < n && is_blank_exec(s.get_char(start))
        invariant
            n == s@.len(),
            start <= n,
            trim_spec(s@) == trim_spec(s@.skip(start as int)),
        decreases n - start,
    {
        proof {
            assert(s@.skip(start as int).skip(1) =~= s@.skip(start + 1 as int));
        }
        start = start + 1;
    }
    let mut end: usize = n;
    while end > start && is_blank_exec(s.get_char(end - 1))
        invariant
            n == s@.len(),
            start <= end <= n,
            start < n ==> !is_blank(s@[start as int]),
            trim_spec(s@) == trim_spec(s@.subrange(start as int, end as int)),
        decreases end,
    {
        proof {
            let sub = s@.subrange(start as int, end as int);
            assert(sub.len() > 0 && sub.last() == s@[end - 1]);
            assert(sub[0] == s@[start as int]);
            assert(sub.take(sub.len() - 1) =~= s@.subrange(start as int, end - 1 as int));
        }
        end = end - 1;
    }
    let mut out = String::new();
    let mut i: usize = start;
    while i < end
        invariant
            n == s@.len(),
            start <= i <= end <= n,
            out@ == s@.subrange(start as int, i as int),
        decreases end - i,
    {
        push_char(&mut out, s.get_char(i));
        proof {
            assert(s@.subrange(start as int, i as int).push(s@[i as int]) =~= s@.subrange(
                start as int,
                i + 1 as int,
            ));
        }
        i = i + 1;
    }
    proof {
        let sub = s@.subrange(start as int, end as int);
        if sub.len() > 0 {
            assert(!is_blank(sub[0]));
            assert(!is_blank(sub.last()));
        }
        assert(trim_spec(sub) == sub);
    }
    out
}

/// Whether `c` is a decimal digit.
pub open spec fn is_digit(c: char) -> bool {
    48 <= c as u32 <= 57
}

/// Whether every character of `s` is a decimal digit.
pub open spec fn all_digits(s: Seq<char>) -> bool {
    forall|i: int| 0 <= i < s.len() ==> is_digit(#[trigger] s[i])
}

/// The numeric value of a digit character.
pub open spec fn digit_val(c: char) -> int {
    c as u32 - 48
}

/// The value of a digit string read in base ten.
pub open spec fn digits_value(s: Seq<char>) -> int
    decreases s.len(),
{
    if s.len() == 0 {
        0
    } else {
        digits_value(s.drop_last()) * 10 + digit_val(s.last())
    }
}

pub proof fn lemma_digits_value_nonneg(s: Seq<char>)
    requires
        all_digits(s),
    ensures
        digits_value(s) >= 0,
    decreases s.len(),
{
    if s.len() > 0 {
        assert(all_digits(s.drop_last())) by {
            assert(forall|i: int| 0 <= i < s.len() - 1 ==> s.drop_last()[i] == s[i]);
        }
        lemma_digits_value_nonneg(s.drop_last());
        assert(is_digit(s.last()));
    }
}

/// A digit string's value only grows as more digits are read.
proof fn lemma_digits_prefix_le(s: Seq<char>, i: int)
    requires
        all_digits(s),
        0 <= i <= s.len(),
    ensures
        digits_value(s.take(i)) <= digits_value(s),
    decreases s.len() - i,
{
    if i == s.len() {
        assert(s.take(i) =~= s);
    } else {
        assert(s.take(i + 1).drop_last() =~= s.take(i));
        assert(s.take(i + 1).last() == s[i]);
        assert(all_digits(s.take(i)));
        lemma_digits_value_nonneg(s.take(i));
        assert(is_digit(s[i]));
        assert(digits_value(s.take(i + 1)) == digits_value(s.take(i)) * 10 + digit_val(s[i]));
        lemma_digits_prefix_le(s, i + 1);
    }
}

/// What `parse_u32` accepts: a non-empty all-digit string whose value
/// fits in a `u32`.
pub open spec fn parse_u32_spec(s: Seq<char>) -> Option<u32> {
    if s.len() > 0 && all_digits(s) && digits_value(s) <= u32::MAX {
        Some(digits_value(s) as u32)
    } else {
        None
    }
}

fn digit_of(c: char) -> (r: Option<u32>)
    ensures
        r is Some <==> is_digit(c),
        r is Some ==> r->0 == digit_val(c),
{
    let v = c as u32;
    if 48 <= v && v <= 57 {
        Some(v - 48)
    } else {
        None
    }
}

/// Parses a plain decimal number, rejecting anything that is not a
/// non-empty digit string with a value that fits in a `u32`.
pub fn parse_u32(s: &str) -> (r: Option<u32>)
    ensures
        r == parse_u32_spec(s@),
{
    let n: usize = s.unicode_len();
    if n == 0 {
        return None;
    }
    let mut acc: u64 = 0;
    let mut i: usize = 0;
    while i < n
        invariant
            n == s@.len(),
            0 < n,
            i <= n,
            all_digits(s@.take(i as int)),
            acc == digits_value(s@.take(i as int)),
            acc <= u32::MAX,
        decreases n - i,
    {
        let c = s.get_char(i);
        proof {
            assert(s@.take(i + 1 as int).drop_last() =~= s@.take(i as int));
            assert(s@.take(i + 1 as int).last() == s@[i as int]);
        }
        match digit_of(c) {
            None => {
                proof {
                    assert(!all_digits(s@));
                }
                return None;
            },
            Some(d) => {
                let next: u64 = acc * 10 + d as u64;
                assert(all_digits(s@.take(i + 1 as int)));
                assert(next == digits_value(s@.take(i + 1 as int)));
                if next > u32::MAX as u64 {
                    proof {
                        if all_digits(s@) {
                            lemma_digits_prefix_le(s@, i + 1 as int);
                        }
                    }
                    return None;
                }
                acc = next;
            },
        }
        i = i + 1;
    }
    proof {
        assert(s@.take(n as int) =~= s@);
    }
    Some(acc as u32)
}

/// The millisecond contribution of a fractional-seconds digit string:
/// its first three digits, padded with zeros on the right.
pub open spec fn frac_millis(f: Seq<char>) -> int {
    if f.len() == 0 {
        0
    } else if f.len() == 1 {
        digit_val(f[0]) * 100
    } else if f.len() == 2 {
        digit_val(f[0]) * 100 + digit_val(f[1]) * 10
    } else {
        digit_val(f[0]) * 100 + digit_val(f[1]) * 10 + digit_val(f[2])
    }
}

/// What `parse_duration_millis` accepts: a plain decimal seconds value,
/// digits with an optional fractional part, read as whole milliseconds
/// (fractional digits beyond the third are ignored). Anything else,
/// including a whole part too large for a millisecond count to fit in a
/// `u64`, is rejected.
pub open spec fn duration_millis_spec(s: Seq<char>) -> Option<u64> {
    let k = find_char_spec(s, '.');
    let whole = s.take(k);
    let frac = if k < s.len() {
        s.subrange(k + 1, s.len() as int)
    } else {
        Seq::empty()
    };
    if whole.len() > 0 && all_digits(whole) && all_digits(frac) && digits_value(whole) <= (u64::MAX
        - 999) / 1000 {
        Some((digits_value(whole) * 1000 + frac_millis(frac)) as u64)
    } else {
        None
    }
}

proof fn lemma_frac_millis_range(f: Seq<char>)
    requires
        all_digits(f),
    ensures
        0 <= frac_millis(f) <= 999,
{
}

/// Parses a bare decimal seconds value, as the external engine prints a
/// container duration, into whole milliseconds.
pub fn parse_duration_millis(s: &str) -> (r: Option<u64>)
    ensures
        r == duration_millis_spec(s@),
{
    let n: usize = s.unicode_len();
    let k: usize = find_char(s, '.');
    proof {
        lemma_find_char_props(s@, '.');
    }
    if k == 0 {
        return None;
    }
    let ghost whole = s@.take(k as int);
    let limit: u64 = (u64::MAX - 999) / 1000;
    let mut acc: u64 = 0;
    let mut i: usize = 0;
    while i < k
        invariant
            n == s@.len(),
            k == find_char_spec(s@, '.'),
            0 < k <= n,
            i <= k,
            whole == s@.take(k as int),
            limit == (u64::MAX - 999) / 1000,
            all_digits(whole.take(i as int)),
            acc == digits_value(whole.take(i as int)),
            acc <= limit,
        decreases k - i,
    {
        let c = s.get_char(i);
        proof {
            assert(whole[i as int] == s@[i as int]);
            assert(whole.take(i + 1 as int).drop_last() =~= whole.take(i as int));
            assert(whole.take(i + 1 as int).last() == whole[i as int]);
        }
        match digit_of(c) {
            None => {
                proof {
                    assert(!all_digits(whole));
                }
                return None;
            },
            Some(d) => {
                let next: u64 = acc * 10 + d as u64;
                assert(all_digits(whole.take(i + 1 as int)));
                assert(next == digits_value(whole.take(i + 1 as int)));
                if next > limit {
                    proof {
                        if all_digits(whole) {
                            lemma_digits_prefix_le(whole, i + 1 as int);
                        }
                    }
                    return None;
                }
                acc = next;
            },
        }
        i = i + 1;
    }
    proof {
        assert(whole.take(k as int) =~= whole);
    }
    let ghost frac = if k < n {
        s@.subrange(k + 1, n as int)
    } else {
        Seq::<char>::empty()
    };
    let mut fr: u64 = 0;
    if k < n {
        let mut j: usize = k + 1;
        while j < n
            invariant
                n == s@.len(),
                k == find_char_spec(s@, '.'),
                0 < k < n,
                k + 1 <= j <= n,
                frac == s@.subrange(k + 1, n as int),
                all_digits(frac.take(j - k - 1 as int)),
                j - k - 1 <= 3 ==> fr == frac_millis(frac.take(j - k - 1 as int)),
                j - k - 1 > 3 ==> fr == frac_millis(frac),
                fr <= 999,
            decreases n - j,
        {
            let c = s.get_char(j);
            let ghost m = j - k - 1;
            proof {
                assert(frac[m as int] == s@[j as int]);
                assert(frac.take(m + 1 as int).drop_last() =~= frac.take(m as int));
            }
            match digit_of(c) {
                None => {
                    proof {
                        assert(!all_digits(frac));
                    }
                    return None;
                },
                Some(d) => {
                    if j - k - 1 == 0 {
                        fr = d as u64 * 100;
                    } else if j - k - 1 == 1 {
                        fr = fr + d as u64 * 10;
                    } else if j - k - 1 == 2 {
                        fr = fr + d as u64;
                    }
                    proof {
                        if m + 1 <= 3 {
                            assert(frac.take(m + 1 as int)[0] == frac[0]);
                            if m + 1 >= 2 {
                                assert(frac.take(m + 1 as int)[1] == frac[1]);
                            }
                            if m + 1 == 3 {
                                assert(frac.take(m + 1 as int)[2] == frac[2]);
                            }
                            assert(fr == frac_millis(frac.take(m + 1 as int)));
                        } else if m + 1 == 4 {
                            assert(frac.take(m as int) =~= frac.take(3));
                            assert(frac.take(3)[0] == frac[0]);
                            assert(frac.take(3)[1] == frac[1]);
                            assert(frac.take(3)[2] == frac[2]);
                            assert(frac_millis(frac.take(3)) == frac_millis(frac));
                        }
                    }
                },
            }
            j = j + 1;
        }
        proof {
            if n - k - 1 <= 3 {
                assert(frac.take(n - k - 1 as int) =~= frac);
            }
        }
    }
    proof {
        lemma_digits_value_nonneg(whole);
        lemma_frac_millis_range(frac);
    }
    Some(acc * 1000 + fr)
}

} // verus!
