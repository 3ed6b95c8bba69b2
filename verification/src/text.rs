//! Verified text utilities: splitting a line on commas, trimming Unicode
//! whitespace, parsing unsigned decimal integers, and string equality.

use vstd::prelude::*;
use vstd::string::*;

verus! {

/// A character with the Unicode `White_Space` property, exactly the set
/// that `str::trim` removes.
pub open spec fn is_ws_char(c: char) -> bool {
    c as u32 == 0x20 || (0x09 <= c as u32 && c as u32 <= 0x0D) || c as u32 == 0x85
        || c as u32 == 0xA0 || c as u32 == 0x1680 || (0x2000 <= c as u32 && c as u32 <= 0x200A)
        || c as u32 == 0x2028 || c as u32 == 0x2029 || c as u32 == 0x202F || c as u32 == 0x205F
        || c as u32 == 0x3000
}

/// Runtime test for [`is_ws_char`].
pub fn is_ws(c: char) -> (r: bool)
    ensures
        r == is_ws_char(c),
{
    let u = c as u32;
    u == 0x20 || (0x09 <= u && u <= 0x0D) || u == 0x85 || u == 0xA0 || u == 0x1680
        || (0x2000 <= u && u <= 0x200A) || u == 0x2028 || u == 0x2029 || u == 0x202F || u == 0x205F
        || u == 0x3000
}

/// The sequence with its leading whitespace removed.
pub open spec fn trim_start_spec(s: Seq<char>) -> Seq<char>
    decreases s.len(),
{
    if s.len() > 0 && is_ws_char(s[0]) {
        trim_start_spec(s.skip(1))
    } else {
        s
    }
}

/// The sequence with its trailing whitespace removed.
pub open spec fn trim_end_spec(s: Seq<char>) -> Seq<char>
    decreases s.len(),
{
    if s.len() > 0 && is_ws_char(s.last()) {
        trim_end_spec(s.drop_last())
    } else {
        s
    }
}

/// The sequence with leading and trailing whitespace removed, as
/// `str::trim` leaves it.
pub open spec fn trim_spec(s: Seq<char>) -> Seq<char> {
    trim_end_spec(trim_start_spec(s))
}

proof fn lemma_trim_start_skip(s: Seq<char>, lo: int)
    requires
        0 <= lo <= s.len(),
        forall|j: int| 0 <= j < lo ==> is_ws_char(s[j]),
    ensures
        trim_start_spec(s) == trim_start_spec(s.skip(lo)),
    decreases lo,
{
    if lo > 0 {
        assert(trim_start_spec(s) == trim_start_spec(s.skip(1)));
        assert(s.skip(1).skip(lo - 1) =~= s.skip(lo));
        lemma_trim_start_skip(s.skip(1), lo - 1);
    } else {
        assert(s.skip(0) =~= s);
    }
}

proof fn lemma_trim_end_sub(s: Seq<char>, hi: int)
    requires
        0 <= hi <= s.len(),
        forall|j: int| hi <= j < s.len() ==> is_ws_char(s[j]),
    ensures
        trim_end_spec(s) == trim_end_spec(s.take(hi)),
    decreases s.len() - hi,
{
    if hi < s.len() {
        assert(trim_end_spec(s) == trim_end_spec(s.drop_last()));
        lemma_trim_end_sub(s.drop_last(), hi);
        assert(s.drop_last().take(hi) =~= s.take(hi));
    } else {
        assert(s.take(hi) =~= s);
    }
}

/// Removes leading and trailing whitespace, as `str::trim` does.
pub fn trim_str<'a>(s: &'a str) -> (r: &'a str)
    ensures
        r@ == trim_spec(s@),
{
    let n: usize = s.unicode_len();
    let mut lo: usize = 0;
    while lo < n && is_ws(s.get_char(lo))
        invariant
            n == s@.len(),
            0 <= lo <= n,
            forall|j: int| 0 <= j < lo ==> is_ws_char(s@[j]),
        decreases n - lo,
    {
        lo = lo + 1;
    }
    proof {
        lemma_trim_start_skip(s@, lo as int);
        if lo < n {
            assert(trim_start_spec(s@.skip(lo as int)) == s@.skip(lo as int));
        } else {
            assert(s@.skip(lo as int) =~= Seq::<char>::empty());
        }
        assert(trim_start_spec(s@) == s@.skip(lo as int));
    }
    let mut hi: usize = n;
    while hi > lo && is_ws(s.get_char(hi - 1))
        invariant
            n == s@.len(),
            0 <= lo <= hi <= n,
            forall|j: int| hi <= j < n ==> is_ws_char(s@[j]),
        decreases hi,
    {
        hi = hi - 1;
    }
    proof {
        let t = s@.skip(lo as int);
        assert(forall|j: int| hi - lo <= j < t.len() ==> is_ws_char(t[j]));
        lemma_trim_end_sub(t, hi - lo);
        assert(t.take(hi - lo) =~= s@.subrange(lo as int, hi as int));
        if hi > lo {
            assert(trim_end_spec(t.take(hi - lo)) == t.take(hi - lo));
        } else {
            assert(t.take(hi - lo) =~= Seq::<char>::empty());
        }
        assert(trim_spec(s@) == s@.subrange(lo as int, hi as int));
    }
    s.substring_char(lo, hi)
}

/// The fields of `s` split on commas, as `str::split(",")` yields them:
/// always at least one field, and an empty input gives one empty field.
pub open spec fn spec_split(s: Seq<char>) -> Seq<Seq<char>>
    decreases s.len(),
{
    if s.len() == 0 {
        seq![Seq::<char>::empty()]
    } else if s[0] as u32 == 0x2C {
        seq![Seq::<char>::empty()] + spec_split(s.skip(1))
    } else {
        let rest = spec_split(s.skip(1));
        seq![seq![s[0]] + rest[0]] + rest.skip(1)
    }
}

/// Splitting never yields an empty field list.
pub proof fn lemma_split_len(s: Seq<char>)
    ensures
        spec_split(s).len() >= 1,
    decreases s.len(),
{
    if s.len() > 0 {
        lemma_split_len(s.skip(1));
    }
}

/// A comma-free sequence is a single field.
pub proof fn lemma_split_no_comma(s: Seq<char>)
    requires
        forall|i: int| 0 <= i < s.len() ==> (s[i] as u32 != 0x2C),
    ensures
        spec_split(s) == seq![s],
    decreases s.len(),
{
    if s.len() == 0 {
        assert(s =~= Seq::<char>::empty());
    } else {
        lemma_split_no_comma(s.skip(1));
        let rest = spec_split(s.skip(1));
        assert(rest == seq![s.skip(1)]);
        assert(seq![s[0]] + s.skip(1) =~= s);
        assert(rest.skip(1) =~= Seq::<Seq<char>>::empty());
        assert(spec_split(s) =~= seq![s]);
    }
}

/// Splitting at the first comma: the head field is everything before it,
/// and the rest splits independently.
pub proof fn lemma_split_first_comma(s: Seq<char>, i: int)
    requires
        0 <= i < s.len(),
        s[i] as u32 == 0x2C,
        forall|j: int| 0 <= j < i ==> (s[j] as u32 != 0x2C),
    ensures
        spec_split(s) == seq![s.take(i)] + spec_split(s.skip(i + 1)),
    decreases i,
{
    if i == 0 {
        assert(s.take(0) =~= Seq::<char>::empty());
        assert(spec_split(s) =~= seq![s.take(0)] + spec_split(s.skip(1)));
    } else {
        lemma_split_first_comma(s.skip(1), i - 1);
        let rest = spec_split(s.skip(1));
        assert(s.skip(1).skip(i) =~= s.skip(i + 1));
        assert(rest == seq![s.skip(1).take(i - 1)] + spec_split(s.skip(i + 1)));
        lemma_split_len(s.skip(i + 1));
        assert(rest[0] == s.skip(1).take(i - 1));
        assert(seq![s[0]] + s.skip(1).take(i - 1) =~= s.take(i));
        assert(rest.skip(1) =~= spec_split(s.skip(i + 1)));
        assert(spec_split(s) =~= seq![s.take(i)] + spec_split(s.skip(i + 1)));
    }
}

/// Splits on commas, as `str::split(",")` does.
pub fn split_commas(s: &str) -> (r: Vec<String>)
    ensures
        r.deep_view() == spec_split(s@),
{
    let n: usize = s.unicode_len();
    let mut fields: Vec<String> = Vec::new();
    let mut start: usize = 0;
    let mut i: usize = 0;
    proof {
        assert(s@.skip(0) =~= s@);
        assert(fields.deep_view() =~= Seq::<Seq<char>>::empty());
        assert(fields.deep_view() + spec_split(s@) =~= spec_split(s@));
    }
    while i < n
        invariant
            n == s@.len(),
            0 <= start <= i <= n,
            forall|j: int| start <= j < i ==> (s@[j] as u32 != 0x2C),
            spec_split(s@) == fields.deep_view() + spec_split(s@.skip(start as int)),
        decreases n - i,
    {
        let c = s.get_char(i);
        if c as u32 == 0x2C {
            let ghost t = s@.skip(start as int);
            proof {
                assert(t[i - start] as u32 == 0x2C);
                assert(forall|j: int| 0 <= j < i - start ==> (t[j] as u32 != 0x2C));
                lemma_split_first_comma(t, i - start);
                assert(t.take(i - start) =~= s@.subrange(start as int, i as int));
                assert(t.skip(i - start + 1) =~= s@.skip(i as int + 1));
            }
            let piece = s.substring_char(start, i);
            let owned: String = piece.to_owned();
            fields.push(owned);
            proof {
                assert(fields.deep_view() =~= fields.deep_view().drop_last() + seq![
                    s@.subrange(start as int, i as int),
                ]);
                assert(spec_split(s@) =~= fields.deep_view() + spec_split(s@.skip(i as int + 1)));
            }
            start = i + 1;
        }
        i = i + 1;
    }
    let ghost t = s@.skip(start as int);
    proof {
        assert(forall|j: int| 0 <= j < t.len() ==> (t[j] as u32 != 0x2C));
        lemma_split_no_comma(t);
        assert(t =~= s@.subrange(start as int, n as int));
    }
    let piece = s.substring_char(start, n);
    let owned: String = piece.to_owned();
    fields.push(owned);
    proof {
        assert(fields.deep_view() =~= fields.deep_view().drop_last() + seq![t]);
        assert(spec_split(s@) =~= fields.deep_view());
    }
    fields
}

/// The fields joined back into one line, a comma between neighbours.
pub open spec fn join_commas(fields: Seq<Seq<char>>) -> Seq<char>
    decreases fields.len(),
{
    if fields.len() == 0 {
        Seq::empty()
    } else if fields.len() == 1 {
        fields[0]
    } else {
        fields[0] + seq![','] + join_commas(fields.skip(1))
    }
}

/// **Round trip**: joining comma-free fields with commas and splitting
/// again gives back exactly those fields.
pub proof fn lemma_split_join(fields: Seq<Seq<char>>)
    requires
        fields.len() >= 1,
        forall|k: int, i: int|
            0 <= k < fields.len() && 0 <= i < fields[k].len() ==> (fields[k][i] as u32 != 0x2C),
    ensures
        spec_split(join_commas(fields)) == fields,
    decreases fields.len(),
{
    let s = join_commas(fields);
    if fields.len() == 1 {
        lemma_split_no_comma(fields[0]);
        assert(seq![fields[0]] =~= fields);
    } else {
        lemma_split_join(fields.skip(1));
        let i = fields[0].len() as int;
        assert(s == fields[0] + seq![','] + join_commas(fields.skip(1)));
        assert(s[i] == ',');
        assert(',' as u32 == 0x2C);
        assert(forall|j: int| 0 <= j < i ==> s[j] == fields[0][j]);
        lemma_split_first_comma(s, i);
        assert(s.take(i) =~= fields[0]);
        assert(s.skip(i + 1) =~= join_commas(fields.skip(1)));
        assert(seq![fields[0]] + fields.skip(1) =~= fields);
    }
}

/// An ASCII decimal digit.
pub open spec fn is_digit_char(c: char) -> bool {
    0x30 <= c as u32 && c as u32 <= 0x39
}

/// The numeric value of a decimal digit.
pub open spec fn digit_val(c: char) -> nat {
    (c as u32 - 0x30) as nat
}

/// A non-empty sequence of decimal digits.
pub open spec fn all_digits(s: Seq<char>) -> bool {
    s.len() > 0 && forall|i: int| 0 <= i < s.len() ==> is_digit_char(s[i])
}

/// The value of a digit sequence read in base ten.
pub open spec fn digits_value(s: Seq<char>) -> nat
    decreases s.len(),
{
    if s.len() == 0 {
        0
    } else {
        digits_value(s.drop_last()) * 10 + digit_val(s.last())
    }
}

proof fn lemma_digits_value_take_mono(s: Seq<char>, k: int)
    requires
        0 <= k <= s.len(),
    ensures
        digits_value(s) >= digits_value(s.take(k)),
    decreases s.len() - k,
{
    if k < s.len() {
        lemma_digits_value_take_mono(s, k + 1);
        assert(s.take(k + 1).drop_last() =~= s.take(k));
        assert(digits_value(s.take(k + 1)) == digits_value(s.take(k)) * 10 + digit_val(
            s.take(k + 1).last(),
        ));
    } else {
        assert(s.take(k) =~= s);
    }
}

/// What `str::parse::<u64>` accepts: an optional leading `+`, then one or
/// more decimal digits whose value fits in a `u64`.
pub open spec fn spec_parse_u64(s: Seq<char>) -> Option<u64> {
    let t = if s.len() > 0 && s[0] as u32 == 0x2B {
        s.skip(1)
    } else {
        s
    };
    if all_digits(t) && digits_value(t) <= u64::MAX {
        Some(digits_value(t) as u64)
    } else {
        None
    }
}

/// Parses an unsigned decimal integer, as `str::parse::<u64>` does.
pub fn parse_u64(s: &str) -> (r: Option<u64>)
    ensures
        r == spec_parse_u64(s@),
{
    let n: usize = s.unicode_len();
    let start: usize = if n > 0 && s.get_char(0) as u32 == 0x2B {
        1
    } else {
        0
    };
    let ghost t = if s@.len() > 0 && s@[0] as u32 == 0x2B {
        s@.skip(1)
    } else {
        s@
    };
    proof {
        assert(t =~= s@.subrange(start as int, n as int));
        assert(spec_parse_u64(s@) == (if all_digits(t) && digits_value(t) <= u64::MAX {
            Some(digits_value(t) as u64)
        } else {
            None
        }));
    }
    if start == n {
        proof {
            assert(!all_digits(t));
        }
        return None;
    }
    let mut acc: u64 = 0;
    let mut i: usize = start;
    while i < n
        invariant
            n == s@.len(),
            start <= i <= n,
            start < n,
            t == s@.subrange(start as int, n as int),
            t == (if s@.len() > 0 && s@[0] as u32 == 0x2B {
                s@.skip(1)
            } else {
                s@
            }),
            forall|j: int| start <= j < i ==> is_digit_char(s@[j]),
            acc == digits_value(t.take(i - start)),
        decreases n - i,
    {
        let c = s.get_char(i);
        let u = c as u32;
        if !(0x30 <= u && u <= 0x39) {
            proof {
                assert(t[i - start] == s@[i as int]);
                assert(!is_digit_char(t[i - start]));
                assert(!all_digits(t));
            }
            return None;
        }
        let d: u64 = (u - 0x30) as u64;
        proof {
            assert(t.take(i - start + 1).drop_last() =~= t.take(i - start));
            assert(t.take(i - start + 1).last() == s@[i as int]);
            assert(digits_value(t.take(i - start + 1)) == digits_value(t.take(i - start)) * 10
                + digit_val(s@[i as int]));
        }
        if acc > (u64::MAX - d) / 10 {
            proof {
                assert(acc * 10 + d > u64::MAX) by {
                    assert(acc >= (u64::MAX - d) / 10 + 1);
                    assert(((u64::MAX - d) / 10 + 1) * 10 == ((u64::MAX - d) / 10) * 10 + 10);
                    assert(((u64::MAX - d) / 10) * 10 + (u64::MAX - d) % 10 == u64::MAX - d);
                };
                assert(digits_value(t.take(i - start + 1)) > u64::MAX);
                lemma_digits_value_take_mono(t, i - start + 1);
                assert(!(digits_value(t) <= u64::MAX));
            }
            return None;
        }
        proof {
            assert(acc * 10 + d <= u64::MAX) by {
                assert(acc <= (u64::MAX - d) / 10);
                assert(acc * 10 <= ((u64::MAX - d) / 10) * 10);
                assert(((u64::MAX - d) / 10) * 10 + (u64::MAX - d) % 10 == u64::MAX - d);
            };
        }
        acc = acc * 10 + d;
        i = i + 1;
    }
    proof {
        assert(t.take(n - start) =~= t);
        assert(forall|j: int| 0 <= j < t.len() ==> is_digit_char(t[j]));
        assert(all_digits(t));
    }
    Some(acc)
}

/// Character-for-character string equality.
pub fn str_eq(a: &str, b: &str) -> (r: bool)
    ensures
        r == (a@ == b@),
{
    let na: usize = a.unicode_len();
    let nb: usize = b.unicode_len();
    if na != nb {
        return false;
    }
    let mut i: usize = 0;
    while i < na
        invariant
            na == a@.len(),
            na == b@.len(),
            0 <= i <= na,
            forall|j: int| 0 <= j < i ==> a@[j] == b@[j],
        decreases na - i,
    {
        if a.get_char(i) != b.get_char(i) {
            return false;
        }
        i = i + 1;
    }
    proof {
        assert(a@ =~= b@);
    }
    true
}

} // verus!
