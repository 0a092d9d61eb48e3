//! Small verified string utilities: comma-splitting with trimming for
//! option values, decimal parsing and rendering, and prefix tests.

use vstd::prelude::*;
use vstd::string::StrSliceExecFns;
use vstd::string::StringExecFns;

verus! {

/// ASCII whitespace, as trimmed from option values.
pub open spec fn is_space(c: char) -> bool {
    c == ' ' || c == '\t' || c == '\n' || c == '\r'
}

/// `s` without its leading whitespace.
pub open spec fn trim_start_spec(s: Seq<char>) -> Seq<char>
    decreases s.len(),
{
    if s.len() > 0 && is_space(s[0]) {
        trim_start_spec(s.skip(1))
    } else {
        s
    }
}

/// `s` without its trailing whitespace.
pub open spec fn trim_end_spec(s: Seq<char>) -> Seq<char>
    decreases s.len(),
{
    if s.len() > 0 && is_space(s.last()) {
        trim_end_spec(s.drop_last())
    } else {
        s
    }
}

/// `s` without leading and trailing whitespace.
pub open spec fn trim_spec(s: Seq<char>) -> Seq<char> {
    trim_end_spec(trim_start_spec(s))
}

/// `s` cut at every comma, char by char.  The result always holds at
/// least one piece; `n` commas yield `n + 1` pieces.
pub open spec fn split_commas(s: Seq<char>) -> Seq<Seq<char>>
    decreases s.len(),
{
    if s.len() == 0 {
        seq![Seq::<char>::empty()]
    } else if s[0] == ',' {
        seq![Seq::<char>::empty()] + split_commas(s.skip(1))
    } else {
        let rest = split_commas(s.skip(1));
        seq![seq![s[0]] + rest[0]] + rest.skip(1)
    }
}

/// The pieces of `s` between commas, each trimmed of surrounding
/// whitespace.
pub open spec fn split_trim_spec(s: Seq<char>) -> Seq<Seq<char>> {
    split_commas(s).map_values(|p: Seq<char>| trim_spec(p))
}

/// [`split_commas`] yields at least one piece.
pub proof fn lemma_split_commas_len(s: Seq<char>)
    ensures
        split_commas(s).len() >= 1,
    decreases s.len(),
{
    if s.len() == 0 {
    } else if s[0] == ',' {
        lemma_split_commas_len(s.skip(1));
    } else {
        lemma_split_commas_len(s.skip(1));
    }
}

/// Cutting at the first comma: when no comma occurs before position
/// `k`, the first piece is `s.take(k)` and the rest are the pieces of
/// what follows the comma at `k` (or there is no further piece when
/// `k` is the end).
proof fn lemma_split_commas_head(s: Seq<char>, k: int)
    requires
        0 <= k <= s.len(),
        forall|i: int| 0 <= i < k ==> s[i] != ',',
        k < s.len() ==> s[k] == ',',
    ensures
        k < s.len() ==> split_commas(s) == seq![s.take(k)] + split_commas(s.skip(k + 1)),
        k == s.len() ==> split_commas(s) == seq![s],
    decreases k,
{
    lemma_split_commas_len(s);
    if k == 0 {
        if s.len() == 0 {
            assert(split_commas(s) == seq![Seq::<char>::empty()]);
            assert(split_commas(s) =~~= seq![s]);
        } else if 0 < s.len() && s[0] == ',' {
            assert(s.take(0) =~= Seq::<char>::empty());
            assert(split_commas(s) =~~= seq![s.take(0)] + split_commas(s.skip(1)));
        } else {
            // k == 0 == s.len() handled in the first branch; here k < s.len()
            // would require s[0] == ',', contradicting the branch.
        }
    } else {
        let t = s.skip(1);
        assert(s[0] != ',');
        lemma_split_commas_head(t, k - 1);
        let rest = split_commas(t);
        if k < s.len() {
            assert(rest == seq![t.take(k - 1)] + split_commas(t.skip(k)));
            assert(rest[0] == t.take(k - 1));
            assert(seq![s[0]] + t.take(k - 1) =~= s.take(k));
            assert(rest.skip(1) =~~= split_commas(t.skip(k)));
            assert(t.skip(k) =~= s.skip(k + 1));
            assert(split_commas(s) =~~= seq![s.take(k)] + split_commas(s.skip(k + 1)));
        } else {
            assert(rest == seq![t]);
            assert(seq![s[0]] + t =~= s);
            assert(rest.skip(1) =~~= Seq::<Seq<char>>::empty());
            assert(split_commas(s) =~~= seq![s]);
        }
    }
}

/// Trim `s` by scanning: returns the trimmed substring.
pub fn trim(s: &str) -> (r: String)
    ensures
        r@ == trim_spec(s@),
{
    let len = s.unicode_len();
    proof {
        assert(s@.skip(0) =~= s@);
    }
    let mut a: usize = 0;
    while a < len && is_space_exec(s.get_char(a))
        invariant
            0 <= a <= len,
            len == s@.len(),
            trim_start_spec(s@) == trim_start_spec(s@.skip(a as int)),
        decreases len - a,
    {
        proof {
            assert(s@.skip(a as int)[0] == s@[a as int]);
            assert(s@.skip(a as int).skip(1) =~= s@.skip(a + 1));
        }
        a += 1;
    }
    proof {
        if a == len {
            assert(s@.skip(a as int) =~= Seq::<char>::empty());
        } else {
            assert(s@.skip(a as int)[0] == s@[a as int]);
        }
        assert(trim_start_spec(s@) == s@.skip(a as int));
    }
    proof {
        assert(s@.skip(a as int).take(len - a as int) =~= s@.skip(a as int));
    }
    let mut b: usize = len;
    while b > a && is_space_exec(s.get_char(b - 1))
        invariant
            a <= b <= len,
            len == s@.len(),
            trim_start_spec(s@) == s@.skip(a as int),
            trim_end_spec(s@.skip(a as int)) == trim_end_spec(
                s@.skip(a as int).take(b - a as int),
            ),
        decreases b,
    {
        proof {
            let t = s@.skip(a as int).take(b - a as int);
            assert(t.last() == s@[b - 1]);
            assert(t.drop_last() =~= s@.skip(a as int).take(b - 1 - a as int));
        }
        b -= 1;
    }
    proof {
        let t = s@.skip(a as int).take(b - a as int);
        if b == a {
            assert(t =~= Seq::<char>::empty());
        } else {
            assert(t.last() == s@[b - 1]);
        }
        assert(trim_end_spec(s@.skip(a as int)) == t);
        assert(t =~= s@.subrange(a as int, b as int));
    }
    let sub = s.substring_char(a, b);
    sub.to_owned()
}

/// Exec test for [`is_space`].
pub fn is_space_exec(c: char) -> (r: bool)
    ensures
        r == is_space(c),
{
    c == ' ' || c == '\t' || c == '\n' || c == '\r'
}

/// Split `s` at commas and trim each piece: the exec counterpart of
/// [`split_trim_spec`].
pub fn split_and_trim(s: &str) -> (r: Vec<String>)
    ensures
        r.deep_view() == split_trim_spec(s@),
{
    let len = s.unicode_len();
    let mut out: Vec<String> = Vec::new();
    proof {
        assert(s@.skip(0) =~= s@);
        assert(out.deep_view() =~~= Seq::<Seq<char>>::empty());
        assert(out.deep_view() + split_trim_spec(s@) =~~= split_trim_spec(s@));
    }
    let mut start: usize = 0;
    let mut i: usize = 0;
    while i < len
        invariant
            0 <= start <= i <= len,
            len == s@.len(),
            forall|k: int| start <= k < i ==> s@[k] != ',',
            split_trim_spec(s@) == out.deep_view() + split_trim_spec(s@.skip(start as int)),
        decreases len - i,
    {
        if s.get_char(i) == ',' {
            let ghost tail = s@.skip(start as int);
            let ghost out0 = out.deep_view();
            let piece = s.substring_char(start, i);
            let trimmed = trim(piece);
            proof {
                lemma_split_commas_head(tail, i - start);
                assert(tail[i - start] == s@[i as int]);
                assert(tail.take(i - start) =~= s@.subrange(start as int, i as int));
                assert(tail.skip(i - start + 1) =~= s@.skip(i + 1));
                assert(split_commas(tail) == seq![s@.subrange(start as int, i as int)]
                    + split_commas(s@.skip(i + 1)));
                assert(split_trim_spec(tail) =~~= seq![
                    trim_spec(s@.subrange(start as int, i as int)),
                ] + split_trim_spec(s@.skip(i + 1)));
            }
            out.push(trimmed);
            proof {
                assert(out.deep_view() =~~= out0.push(
                    trim_spec(s@.subrange(start as int, i as int)),
                ));
                assert(split_trim_spec(s@) =~~= out.deep_view() + split_trim_spec(
                    s@.skip(i + 1),
                ));
            }
            start = i + 1;
        }
        i += 1;
    }
    let ghost tail = s@.skip(start as int);
    let ghost out0 = out.deep_view();
    let piece = s.substring_char(start, len);
    let trimmed = trim(piece);
    proof {
        lemma_split_commas_head(tail, len - start);
        assert(tail =~= s@.subrange(start as int, len as int));
        assert(split_commas(tail) == seq![tail]);
        assert(split_trim_spec(tail) =~~= seq![trim_spec(tail)]);
    }
    out.push(trimmed);
    proof {
        assert(out.deep_view() =~~= out0.push(trim_spec(tail)));
        assert(split_trim_spec(s@) =~~= out.deep_view());
    }
    out
}

/// A decimal digit (code points 48 through 57).
pub open spec fn is_digit(c: char) -> bool {
    48 <= c as int && c as int <= 57
}

/// Numeric value of one digit character.
pub open spec fn digit_val(c: char) -> int {
    c as int - 48
}

/// Every character of `s` is a decimal digit.
pub open spec fn all_digits(s: Seq<char>) -> bool {
    forall|i: int| 0 <= i < s.len() ==> is_digit(#[trigger] s[i])
}

/// The number written in decimal as `s` (most significant digit
/// first); 0 for the empty sequence.
pub open spec fn dec_value(s: Seq<char>) -> int
    decreases s.len(),
{
    if s.len() == 0 {
        0
    } else {
        dec_value(s.drop_last()) * 10 + digit_val(s.last())
    }
}

/// A digit string's value is never negative.
pub proof fn lemma_dec_value_nonneg(s: Seq<char>)
    requires
        all_digits(s),
    ensures
        dec_value(s) >= 0,
    decreases s.len(),
{
    if s.len() > 0 {
        assert(all_digits(s.drop_last())) by {
            assert(forall|i: int| 0 <= i < s.len() - 1 ==> is_digit(#[trigger] s[i]));
        }
        lemma_dec_value_nonneg(s.drop_last());
    }
}

/// A digit string's value never shrinks as the string grows.
proof fn lemma_dec_value_prefix_le(s: Seq<char>, k: int)
    requires
        all_digits(s),
        0 <= k <= s.len(),
    ensures
        dec_value(s.take(k)) <= dec_value(s),
    decreases s.len() - k,
{
    if k < s.len() {
        let t = s.take(k + 1);
        assert(all_digits(t)) by {
            assert(forall|i: int| 0 <= i < t.len() ==> t[i] == s[i]);
        }
        assert(t.drop_last() =~= s.take(k));
        assert(t.last() == s[k]);
        assert(all_digits(s.take(k))) by {
            assert(forall|i: int| 0 <= i < k ==> s.take(k)[i] == s[i]);
        }
        lemma_dec_value_nonneg(s.take(k));
        assert(dec_value(s.take(k)) <= dec_value(s.take(k)) * 10 + digit_val(s[k]));
        lemma_dec_value_prefix_le(s, k + 1);
    } else {
        assert(s.take(k) =~= s);
    }
}

/// Parse a decimal `u64`.  Succeeds exactly on non-empty all-digit
/// strings whose value fits in a `u64`, and then returns that value.
pub fn parse_u64(s: &str) -> (r: Option<u64>)
    ensures
        match r {
            Some(v) => s@.len() > 0 && all_digits(s@) && v == dec_value(s@),
            None => s@.len() == 0 || !all_digits(s@) || dec_value(s@) > u64::MAX,
        },
{
    let len = s.unicode_len();
    if len == 0 {
        return None;
    }
    let mut acc: u64 = 0;
    let mut i: usize = 0;
    while i < len
        invariant
            0 <= i <= len,
            len == s@.len(),
            all_digits(s@.take(i as int)),
            acc == dec_value(s@.take(i as int)),
        decreases len - i,
    {
        let c = s.get_char(i);
        let cu = c as u32;
        if !(cu >= 48 && cu <= 57) {
            assert(!is_digit(s@[i as int]));
            return None;
        }
        let d: u64 = (cu - 48) as u64;
        proof {
            assert(is_digit(s@[i as int]));
            assert(d == digit_val(s@[i as int]));
        }
        let shifted = match acc.checked_mul(10) {
            Some(v) => v,
            None => {
                proof {
                    overflow_means_too_big(s@, i as int);
                }
                return None;
            },
        };
        let next = match shifted.checked_add(d) {
            Some(v) => v,
            None => {
                proof {
                    overflow_means_too_big(s@, i as int);
                }
                return None;
            },
        };
        proof {
            assert(s@.take(i + 1).drop_last() =~= s@.take(i as int));
            assert(s@.take(i + 1).last() == s@[i as int]);
            assert(all_digits(s@.take(i + 1))) by {
                assert(forall|k: int|
                    0 <= k < i + 1 ==> s@.take(i + 1)[k] == s@[k]);
                assert(forall|k: int| 0 <= k < i ==> s@.take(i as int)[k] == s@[k]);
            }
        }
        acc = next;
        i += 1;
    }
    proof {
        assert(s@.take(len as int) =~= s@);
    }
    Some(acc)
}

/// When the next accumulator step overflows, the whole string's value
/// is too big for a `u64` (provided its tail is all digits — if it is
/// not, the disjunctive postcondition holds anyway).
proof fn overflow_means_too_big(s: Seq<char>, i: int)
    requires
        0 <= i < s.len(),
        all_digits(s.take(i)),
        is_digit(s[i]),
        dec_value(s.take(i)) * 10 + digit_val(s[i]) > u64::MAX,
    ensures
        !all_digits(s) || dec_value(s) > u64::MAX,
{
    if all_digits(s) {
        assert(s.take(i + 1).drop_last() =~= s.take(i));
        assert(s.take(i + 1).last() == s[i]);
        assert(dec_value(s.take(i + 1)) == dec_value(s.take(i)) * 10 + digit_val(s[i]));
        lemma_dec_value_prefix_le(s, i + 1);
    }
}

/// The decimal digit character for `d`.
pub open spec fn digit_char(d: int) -> char {
    if d == 0 {
        '0'
    } else if d == 1 {
        '1'
    } else if d == 2 {
        '2'
    } else if d == 3 {
        '3'
    } else if d == 4 {
        '4'
    } else if d == 5 {
        '5'
    } else if d == 6 {
        '6'
    } else if d == 7 {
        '7'
    } else if d == 8 {
        '8'
    } else {
        '9'
    }
}

/// The decimal digits of `n`, most significant first.
pub open spec fn dec_digits(n: int) -> Seq<char>
    decreases n,
{
    if n < 10 {
        seq![digit_char(n)]
    } else {
        dec_digits(n / 10) + seq![digit_char(n % 10)]
    }
}

/// The single-digit string for `d`.
fn digit_str(d: u64) -> (r: &'static str)
    requires
        d < 10,
    ensures
        r@ == seq![digit_char(d as int)],
{
    proof {
        reveal_strlit("0");
        reveal_strlit("1");
        reveal_strlit("2");
        reveal_strlit("3");
        reveal_strlit("4");
        reveal_strlit("5");
        reveal_strlit("6");
        reveal_strlit("7");
        reveal_strlit("8");
        reveal_strlit("9");
    }
    let r: &'static str = if d == 0 {
        "0"
    } else if d == 1 {
        "1"
    } else if d == 2 {
        "2"
    } else if d == 3 {
        "3"
    } else if d == 4 {
        "4"
    } else if d == 5 {
        "5"
    } else if d == 6 {
        "6"
    } else if d == 7 {
        "7"
    } else if d == 8 {
        "8"
    } else {
        "9"
    };
    proof {
        assert(r@ =~= seq![digit_char(d as int)]);
    }
    r
}

/// Render `n` in decimal.
pub fn u64_to_dec(n: u64) -> (r: String)
    ensures
        r@ == dec_digits(n as int),
    decreases n,
{
    if n < 10 {
        digit_str(n).to_owned()
    } else {
        let mut s = u64_to_dec(n / 10);
        s.append(digit_str(n % 10));
        s
    }
}

/// Whether `s` begins with `prefix` (by characters).
pub open spec fn starts_with_spec(s: Seq<char>, prefix: Seq<char>) -> bool {
    s.len() >= prefix.len() && s.take(prefix.len() as int) == prefix
}

/// Exec test for [`starts_with_spec`].
pub fn str_starts_with(s: &str, prefix: &str) -> (r: bool)
    ensures
        r == starts_with_spec(s@, prefix@),
{
    let n = s.unicode_len();
    let m = prefix.unicode_len();
    if n < m {
        return false;
    }
    let mut i: usize = 0;
    while i < m
        invariant
            0 <= i <= m <= n,
            n == s@.len(),
            m == prefix@.len(),
            forall|k: int| 0 <= k < i ==> s@[k] == prefix@[k],
        decreases m - i,
    {
        if s.get_char(i) != prefix.get_char(i) {
            assert(s@.take(m as int)[i as int] != prefix@[i as int]);
            return false;
        }
        i += 1;
    }
    assert(s@.take(m as int) =~= prefix@);
    true
}

/// The rest of `s` after the prefix of length `k`.
pub fn str_skip(s: &str, k: usize) -> (r: String)
    requires
        k <= s@.len(),
    ensures
        r@ == s@.skip(k as int),
{
    let len = s.unicode_len();
    let sub = s.substring_char(k, len);
    proof {
        assert(s@.subrange(k as int, len as int) =~= s@.skip(k as int));
    }
    sub.to_owned()
}

/// Copy a vector of strings, contents preserved.
pub fn clone_string_vec(v: &Vec<String>) -> (r: Vec<String>)
    ensures
        r.deep_view() == v.deep_view(),
{
    let r = v.clone();
    proof {
        assert forall|i: int| 0 <= i < v@.len() implies r@[i] == v@[i] by {
            assert(cloned::<String>(v@[i], r@[i]));
        }
        assert(r@ =~= v@);
    }
    r
}

/// First value stored under `key` in an association list of options.
pub open spec fn opts_get_spec(opts: Seq<(Seq<char>, Seq<char>)>, key: Seq<char>) -> Option<
    Seq<char>,
>
    decreases opts.len(),
{
    if opts.len() == 0 {
        None
    } else if opts[0].0 == key {
        Some(opts[0].1)
    } else {
        opts_get_spec(opts.skip(1), key)
    }
}

/// Look up `key` in an option list (first match wins, as option lists
/// built by the engine never repeat a key).
pub fn opts_get(opts: &Vec<(String, String)>, key: &str) -> (r: Option<String>)
    ensures
        match r {
            Some(v) => opts_get_spec(opts.deep_view(), key@) == Some(v@),
            None => opts_get_spec(opts.deep_view(), key@) is None,
        },
{
    let n = opts.len();
    proof {
        assert(opts.deep_view().skip(0) =~= opts.deep_view());
    }
    let mut i: usize = 0;
    while i < n
        invariant
            0 <= i <= n,
            n == opts@.len(),
            opts_get_spec(opts.deep_view(), key@) == opts_get_spec(
                opts.deep_view().skip(i as int),
                key@,
            ),
        decreases n - i,
    {
        proof {
            assert(opts.deep_view().skip(i as int)[0] == opts.deep_view()[i as int]);
            assert(opts.deep_view().skip(i as int).skip(1) =~= opts.deep_view().skip(i + 1));
        }
        if crate::registry::str_eq(opts[i].0.as_str(), key) {
            let v = opts[i].1.clone();
            return Some(v);
        }
        i += 1;
    }
    proof {
        assert(opts.deep_view().skip(n as int) =~= Seq::<(Seq<char>, Seq<char>)>::empty());
    }
    None
}

} // verus!
