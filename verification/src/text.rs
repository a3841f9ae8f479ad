//! Character-level text utilities: whitespace, trimming, tokenizing,
//! joining, case-insensitive comparison, and conversions between `&str`,
//! `Vec<char>` and `String`.

use vstd::prelude::*;
use vstd::string::StringExecFns;

verus! {

/// The whitespace characters, as Rust's `char::is_whitespace` defines them
/// (the Unicode `White_Space` property).
pub open spec fn spec_is_space(c: char) -> bool {
    ||| c == '\u{0009}'
    ||| c == '\u{000A}'
    ||| c == '\u{000B}'
    ||| c == '\u{000C}'
    ||| c == '\u{000D}'
    ||| c == ' '
    ||| c == '\u{0085}'
    ||| c == '\u{00A0}'
    ||| c == '\u{1680}'
    ||| ('\u{2000}' <= c && c <= '\u{200A}')
    ||| c == '\u{2028}'
    ||| c == '\u{2029}'
    ||| c == '\u{202F}'
    ||| c == '\u{205F}'
    ||| c == '\u{3000}'
}

/// Decides `spec_is_space`.
pub fn is_space(c: char) -> (r: bool)
    ensures
        r == spec_is_space(c),
{
    c == '\u{0009}' || c == '\u{000A}' || c == '\u{000B}' || c == '\u{000C}' || c == '\u{000D}'
        || c == ' ' || c == '\u{0085}' || c == '\u{00A0}' || c == '\u{1680}' || ('\u{2000}' <= c
        && c <= '\u{200A}') || c == '\u{2028}' || c == '\u{2029}' || c == '\u{202F}' || c
        == '\u{205F}' || c == '\u{3000}'
}

/// Lower-cases an ASCII capital letter; leaves every other character alone.
pub open spec fn spec_lower(c: char) -> char {
    if 'A' <= c && c <= 'Z' {
        (((c as u8) + 32) as char)
    } else {
        c
    }
}

/// Case-insensitive equality of two character sequences; only ASCII letters
/// fold, as in `str::eq_ignore_ascii_case`.
pub open spec fn spec_eq_icase(a: Seq<char>, b: Seq<char>) -> bool {
    a.len() == b.len() && (forall|i: int| 0 <= i < a.len() ==> spec_lower(a[i]) == spec_lower(b[i]))
}

/// Decides `spec_lower`.
pub fn lower(c: char) -> (r: char)
    ensures
        r == spec_lower(c),
{
    if 'A' <= c && c <= 'Z' {
        ((c as u8) + 32) as char
    } else {
        c
    }
}

/// Decides `spec_eq_icase` on two string slices.
pub fn str_eq_icase(a: &str, b: &str) -> (r: bool)
    ensures
        r == spec_eq_icase(a@, b@),
{
    let na = a.unicode_len();
    let nb = b.unicode_len();
    if na != nb {
        return false;
    }
    let mut i: usize = 0;
    while i < na
        invariant
            na == a@.len(),
            na == b@.len(),
            i <= na,
            forall|k: int| 0 <= k < i ==> spec_lower(a@[k]) == spec_lower(b@[k]),
        decreases na - i,
    {
        if lower(a.get_char(i)) != lower(b.get_char(i)) {
            return false;
        }
        i = i + 1;
    }
    true
}

/// What is left of `s` once leading whitespace is dropped.
pub open spec fn spec_lstrip(s: Seq<char>) -> Seq<char>
    decreases s.len(),
{
    if s.len() > 0 && spec_is_space(s[0]) {
        spec_lstrip(s.drop_first())
    } else {
        s
    }
}

/// What is left of `s` once trailing whitespace is dropped.
pub open spec fn spec_rstrip(s: Seq<char>) -> Seq<char>
    decreases s.len(),
{
    if s.len() > 0 && spec_is_space(s.last()) {
        spec_rstrip(s.drop_last())
    } else {
        s
    }
}

/// What is left of `s` once surrounding whitespace is dropped, as
/// `str::trim` leaves it.
pub open spec fn spec_trim(s: Seq<char>) -> Seq<char> {
    spec_rstrip(spec_lstrip(s))
}

proof fn lemma_lstrip_skip(s: Seq<char>, i: int)
    requires
        0 <= i <= s.len(),
        forall|k: int| 0 <= k < i ==> spec_is_space(s[k]),
        i == s.len() || !spec_is_space(s[i]),
    ensures
        spec_lstrip(s) == s.skip(i),
    decreases i,
{
    if i == 0 {
        assert(s.skip(0) =~= s);
    } else {
        lemma_lstrip_skip(s.drop_first(), i - 1);
        assert(s.drop_first().skip(i - 1) =~= s.skip(i));
    }
}

proof fn lemma_rstrip_take(s: Seq<char>, i: int)
    requires
        0 <= i <= s.len(),
        forall|k: int| i <= k < s.len() ==> spec_is_space(s[k]),
        i == 0 || !spec_is_space(s[i - 1]),
    ensures
        spec_rstrip(s) == s.take(i),
    decreases s.len(),
{
    if i == s.len() {
        assert(s.take(i) =~= s);
    } else {
        lemma_rstrip_take(s.drop_last(), i);
        assert(s.drop_last().take(i) =~= s.take(i));
    }
}

/// The slice of `s` with surrounding whitespace removed.
pub fn trim_str(s: &str) -> (r: &str)
    ensures
        r@ == spec_trim(s@),
{
    let n = s.unicode_len();
    let mut start: usize = 0;
    while start < n && is_space(s.get_char(start))
        invariant
            n == s@.len(),
            start <= n,
            forall|k: int| 0 <= k < start ==> spec_is_space(s@[k]),
        decreases n - start,
    {
        start = start + 1;
    }
    proof {
        lemma_lstrip_skip(s@, start as int);
    }
    let mut end: usize = n;
    while end > start && is_space(s.get_char(end - 1))
        invariant
            n == s@.len(),
            start <= end <= n,
            forall|k: int| end <= k < n ==> spec_is_space(s@[k]),
            forall|k: int| 0 <= k < start ==> spec_is_space(s@[k]),
            start == n || !spec_is_space(s@[start as int]),
        decreases end,
    {
        end = end - 1;
    }
    proof {
        lemma_rstrip_take(s@.skip(start as int), end - start);
        assert(s@.skip(start as int).take(end - start) =~= s@.subrange(
            start as int,
            end as int,
        ));
    }
    s.substring_char(start, end)
}

/// The position of the first non-whitespace character at or after `i`.
pub open spec fn spec_skip_ws(s: Seq<char>, i: nat) -> nat
    decreases s.len() - i,
    when i <= s.len()
{
    if i < s.len() && spec_is_space(s[i as int]) {
        spec_skip_ws(s, (i + 1) as nat)
    } else {
        i
    }
}

/// The position of the first whitespace character at or after `i`.
pub open spec fn spec_skip_word(s: Seq<char>, i: nat) -> nat
    decreases s.len() - i,
    when i <= s.len()
{
    if i < s.len() && !spec_is_space(s[i as int]) {
        spec_skip_word(s, (i + 1) as nat)
    } else {
        i
    }
}

pub proof fn lemma_skip_ws_bounds(s: Seq<char>, i: nat)
    requires
        i <= s.len(),
    ensures
        i <= spec_skip_ws(s, i) <= s.len(),
        spec_skip_ws(s, i) < s.len() ==> !spec_is_space(s[spec_skip_ws(s, i) as int]),
    decreases s.len() - i,
{
    if i < s.len() && spec_is_space(s[i as int]) {
        lemma_skip_ws_bounds(s, (i + 1) as nat);
    }
}

pub proof fn lemma_skip_word_bounds(s: Seq<char>, i: nat)
    requires
        i <= s.len(),
    ensures
        i <= spec_skip_word(s, i) <= s.len(),
        i < s.len() && !spec_is_space(s[i as int]) ==> i < spec_skip_word(s, i),
    decreases s.len() - i,
{
    if i < s.len() && !spec_is_space(s[i as int]) {
        lemma_skip_word_bounds(s, (i + 1) as nat);
    }
}

/// The whitespace-separated words of `s` from position `i` on, as
/// `str::split_whitespace` yields them.
pub open spec fn spec_tokens_from(s: Seq<char>, i: nat) -> Seq<Seq<char>>
    decreases s.len() - i,
    when i <= s.len()
    via spec_tokens_from_dec
{
    if spec_skip_ws(s, i) >= s.len() {
        Seq::empty()
    } else {
        seq![s.subrange(spec_skip_ws(s, i) as int, spec_skip_word(s, spec_skip_ws(s, i)) as int)]
            + spec_tokens_from(s, spec_skip_word(s, spec_skip_ws(s, i)))
    }
}

#[via_fn]
proof fn spec_tokens_from_dec(s: Seq<char>, i: nat) {
    lemma_skip_ws_bounds(s, i);
    if spec_skip_ws(s, i) < s.len() {
        lemma_skip_word_bounds(s, spec_skip_ws(s, i));
    }
}

/// The whitespace-separated words of `s`.
pub open spec fn spec_tokens(s: Seq<char>) -> Seq<Seq<char>> {
    spec_tokens_from(s, 0)
}

/// Splits `s` into its whitespace-separated words.
pub fn tokenize(s: &str) -> (r: Vec<String>)
    ensures
        r.deep_view() == spec_tokens(s@),
{
    let n = s.unicode_len();
    let mut r: Vec<String> = Vec::new();
    let mut i: usize = 0;
    proof {
        assert(r.deep_view() + spec_tokens_from(s@, 0) =~= spec_tokens(s@));
    }
    while i < n
        invariant
            n == s@.len(),
            i <= n,
            r.deep_view() + spec_tokens_from(s@, i as nat) == spec_tokens(s@),
        decreases n - i,
    {
        let mut j: usize = i;
        while j < n && is_space(s.get_char(j))
            invariant
                n == s@.len(),
                i <= j <= n,
                spec_skip_ws(s@, i as nat) == spec_skip_ws(s@, j as nat),
            decreases n - j,
        {
            j = j + 1;
        }
        if j == n {
            proof {
                assert(r.deep_view() + spec_tokens_from(s@, i as nat) =~= r.deep_view());
            }
            return r;
        }
        let mut k: usize = j;
        let mut word: Vec<char> = Vec::new();
        while k < n && !is_space(s.get_char(k))
            invariant
                n == s@.len(),
                j <= k <= n,
                spec_skip_word(s@, j as nat) == spec_skip_word(s@, k as nat),
                word@ == s@.subrange(j as int, k as int),
            decreases n - k,
        {
            word.push(s.get_char(k));
            k = k + 1;
            proof {
                assert(word@ =~= s@.subrange(j as int, k as int));
            }
        }
        let tok = chars_to_string(&word);
        r.push(tok);
        proof {
            assert(r.deep_view() + spec_tokens_from(s@, k as nat) =~= spec_tokens(s@));
        }
        i = k;
    }
    proof {
        assert(r.deep_view() + spec_tokens_from(s@, i as nat) =~= r.deep_view());
    }
    r
}

/// The parts joined with a single space between consecutive parts.
pub open spec fn spec_join_sp(parts: Seq<Seq<char>>) -> Seq<char>
    decreases parts.len(),
{
    if parts.len() == 0 {
        Seq::empty()
    } else if parts.len() == 1 {
        parts[0]
    } else {
        parts[0] + seq![' '] + spec_join_sp(parts.drop_first())
    }
}

/// Joins `parts[from..]` with single spaces.
pub fn join_from(parts: &Vec<String>, from: usize) -> (r: String)
    requires
        from <= parts.len(),
    ensures
        r@ == spec_join_sp(parts.deep_view().skip(from as int)),
{
    let mut acc: Vec<char> = Vec::new();
    let mut i: usize = from;
    while i < parts.len()
        invariant
            from <= i <= parts.len(),
            i == from ==> acc@.len() == 0,
            from < i < parts.len() ==> spec_join_sp(parts.deep_view().skip(from as int)) == acc@
                + seq![' '] + spec_join_sp(parts.deep_view().skip(i as int)),
            from < i && i == parts.len() ==> spec_join_sp(parts.deep_view().skip(from as int))
                == acc@,
        decreases parts.len() - i,
    {
        let ghost pre = acc@;
        if i > from {
            acc.push(' ');
        }
        push_str_chars(&mut acc, parts[i].as_str());
        proof {
            let d = parts.deep_view();
            assert(d.skip(i as int).drop_first() =~= d.skip(i + 1));
            assert(d.skip(i as int)[0] == d[i as int]);
            assert(d[i as int] == parts@[i as int]@);
            if i == from {
                assert(acc@ =~= d.skip(i as int)[0]);
                if i + 1 < parts.len() {
                    assert(spec_join_sp(d.skip(from as int)) =~= acc@ + seq![' ']
                        + spec_join_sp(d.skip(i + 1)));
                } else {
                    assert(spec_join_sp(d.skip(from as int)) =~= acc@);
                }
            } else {
                assert(acc@ =~= pre + seq![' '] + d[i as int]);
                if i + 1 < parts.len() {
                    assert(spec_join_sp(d.skip(i as int)) =~= d[i as int] + seq![' ']
                        + spec_join_sp(d.skip(i + 1)));
                    assert(spec_join_sp(d.skip(from as int)) =~= acc@ + seq![' ']
                        + spec_join_sp(d.skip(i + 1)));
                } else {
                    assert(spec_join_sp(d.skip(i as int)) =~= d[i as int]);
                    assert(spec_join_sp(d.skip(from as int)) =~= acc@);
                }
            }
        }
        i = i + 1;
    }
    proof {
        if i == from {
            assert(parts.deep_view().skip(from as int).len() == 0);
            assert(acc@ =~= spec_join_sp(parts.deep_view().skip(from as int)));
        }
    }
    chars_to_string(&acc)
}

/// The position of the first occurrence of `sep` at or after `i`, or the
/// length of `s` if there is none.
pub open spec fn spec_find_from(s: Seq<char>, sep: char, i: nat) -> nat
    decreases s.len() - i,
    when i <= s.len()
{
    if i < s.len() && s[i as int] != sep {
        spec_find_from(s, sep, (i + 1) as nat)
    } else {
        i
    }
}

pub proof fn lemma_find_from_bounds(s: Seq<char>, sep: char, i: nat)
    requires
        i <= s.len(),
    ensures
        i <= spec_find_from(s, sep, i) <= s.len(),
    decreases s.len() - i,
{
    if i < s.len() && s[i as int] != sep {
        lemma_find_from_bounds(s, sep, (i + 1) as nat);
    }
}

/// The fields of `s` from position `i` on, cut at every occurrence of
/// `sep`, as `str::split` yields them: `n` separators give `n + 1` fields,
/// and a field may be empty.
pub open spec fn spec_split_from(s: Seq<char>, sep: char, i: nat) -> Seq<Seq<char>>
    decreases s.len() - i,
    when i <= s.len()
    via spec_split_from_dec
{
    if spec_find_from(s, sep, i) >= s.len() {
        seq![s.subrange(i as int, s.len() as int)]
    } else {
        seq![s.subrange(i as int, spec_find_from(s, sep, i) as int)] + spec_split_from(
            s,
            sep,
            (spec_find_from(s, sep, i) + 1) as nat,
        )
    }
}

#[via_fn]
proof fn spec_split_from_dec(s: Seq<char>, sep: char, i: nat) {
    lemma_find_from_bounds(s, sep, i);
}

/// The fields of `s`, cut at every occurrence of `sep`.
pub open spec fn spec_split(s: Seq<char>, sep: char) -> Seq<Seq<char>> {
    spec_split_from(s, sep, 0)
}

fn split_onto(s: &str, sep: char, i: usize, acc: &mut Vec<String>)
    requires
        i <= s@.len(),
    ensures
        final(acc).deep_view() == old(acc).deep_view() + spec_split_from(s@, sep, i as nat),
    decreases s@.len() - i,
{
    let n = s.unicode_len();
    let mut j: usize = i;
    while j < n && s.get_char(j) != sep
        invariant
            n == s@.len(),
            i <= j <= n,
            spec_find_from(s@, sep, i as nat) == spec_find_from(s@, sep, j as nat),
        decreases n - j,
    {
        j = j + 1;
    }
    let field = String::from_str(s.substring_char(i, j));
    acc.push(field);
    if j < n {
        split_onto(s, sep, j + 1, acc);
        proof {
            assert(acc.deep_view() =~= old(acc).deep_view() + spec_split_from(
                s@,
                sep,
                i as nat,
            ));
        }
    } else {
        proof {
            assert(acc.deep_view() =~= old(acc).deep_view() + spec_split_from(
                s@,
                sep,
                i as nat,
            ));
        }
    }
}

/// Splits `s` at every occurrence of `sep`.
pub fn split_str(s: &str, sep: char) -> (r: Vec<String>)
    ensures
        r.deep_view() == spec_split(s@, sep),
{
    let mut r: Vec<String> = Vec::new();
    split_onto(s, sep, 0, &mut r);
    proof {
        assert(r.deep_view() =~= spec_split(s@, sep));
    }
    r
}

/// The decimal digit `d` as a character; meaningful for `d < 10`.
pub open spec fn spec_digit_char(d: nat) -> char {
    (((48 + d) as u8) as char)
}

/// The decimal notation of `n`, without sign or padding.
pub open spec fn spec_decimal(n: nat) -> Seq<char>
    decreases n,
{
    if n < 10 {
        seq![spec_digit_char(n)]
    } else {
        spec_decimal(n / 10) + seq![spec_digit_char(n % 10)]
    }
}

/// Writes the decimal notation of `n` after `acc`.
pub fn push_decimal(acc: &mut Vec<char>, n: usize)
    ensures
        final(acc)@ == old(acc)@ + spec_decimal(n as nat),
    decreases n,
{
    if n < 10 {
        acc.push(((48 + n as u8)) as char);
    } else {
        push_decimal(acc, n / 10);
        acc.push((48 + (n % 10) as u8) as char);
    }
}

/// Builds a `String` out of a vector of characters.
///
/// Relies on `String: FromIterator<char>` from std (for which vstd has no
/// specification): collecting characters yields the string of exactly those
/// characters, in order.
#[verifier::external_body]
pub fn chars_to_string(v: &Vec<char>) -> (r: String)
    ensures
        r@ == v@,
{
    v.iter().collect()
}

/// Appends every character of the slice `s` to `acc`.
pub fn push_str_chars(acc: &mut Vec<char>, s: &str)
    ensures
        final(acc)@ == old(acc)@ + s@,
{
    let n = s.unicode_len();
    let mut i: usize = 0;
    while i < n
        invariant
            n == s@.len(),
            i <= n,
            acc@ == old(acc)@ + s@.subrange(0, i as int),
        decreases n - i,
    {
        acc.push(s.get_char(i));
        i = i + 1;
        proof {
            assert(old(acc)@ + s@.subrange(0, i - 1) + seq![s@[i - 1]] =~= old(acc)@
                + s@.subrange(0, i as int));
        }
    }
    proof {
        assert(old(acc)@ + s@.subrange(0, n as int) =~= old(acc)@ + s@);
    }
}

} // verus!
