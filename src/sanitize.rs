use vstd::prelude::*;
use crate::text::{chars_of, string_of};

verus! {

/// A character that may stand in an output file name: ASCII letters and
/// digits, `_`, `.`, `-` and the space.
pub open spec fn is_name_char(c: char) -> bool {
    ('a' <= c && c <= 'z') || ('A' <= c && c <= 'Z') || ('0' <= c && c <= '9') || c == '_'
        || c == '.' || c == '-' || c == ' '
}

/// Every character of `s` may stand in a file name.
pub open spec fn all_name_chars(s: Seq<char>) -> bool {
    forall|i: int| 0 <= i < s.len() ==> is_name_char(#[trigger] s[i])
}

/// `s` with every character that may not stand in a file name dropped, the
/// rest kept in order.
pub open spec fn name_chars_only(s: Seq<char>) -> Seq<char>
    decreases s.len(),
{
    if s.len() == 0 {
        s
    } else if is_name_char(s[0]) {
        seq![s[0]] + name_chars_only(s.drop_first())
    } else {
        name_chars_only(s.drop_first())
    }
}

/// `s` without its leading spaces.
pub open spec fn strip_leading(s: Seq<char>) -> Seq<char>
    decreases s.len(),
{
    if s.len() > 0 && s[0] == ' ' {
        strip_leading(s.drop_first())
    } else {
        s
    }
}

/// `s` without its trailing spaces.
pub open spec fn strip_trailing(s: Seq<char>) -> Seq<char>
    decreases s.len(),
{
    if s.len() > 0 && s.last() == ' ' {
        strip_trailing(s.drop_last())
    } else {
        s
    }
}

/// `s` without surrounding spaces.
pub open spec fn trimmed(s: Seq<char>) -> Seq<char> {
    strip_trailing(strip_leading(s))
}

/// The file-name stem made from a title: the disallowed characters dropped,
/// then the surrounding whitespace.
pub open spec fn sanitized(title: Seq<char>) -> Seq<char> {
    trimmed(name_chars_only(title))
}

/// Relies on `regex::Regex::replace_all` with the class `[^ a-zA-Z0-9_\.-]`
/// and an empty replacement: each character outside the class is a match of
/// its own and is removed, the others are kept in order. The pattern is a
/// valid literal, so `Regex::new` does not fail.
#[verifier::external_body]
fn strip_disallowed(input: &str) -> (r: String)
    ensures
        r@ == name_chars_only(input@),
{
    let re = regex::Regex::new(r"[^ a-zA-Z0-9_\.-]").unwrap();
    re.replace_all(input, "").to_string()
}

proof fn lemma_name_chars_only_allowed(s: Seq<char>)
    ensures
        all_name_chars(name_chars_only(s)),
    decreases s.len(),
{
    if s.len() > 0 {
        lemma_name_chars_only_allowed(s.drop_first());
        let rest = name_chars_only(s.drop_first());
        if is_name_char(s[0]) {
            assert forall|i: int| 0 <= i < name_chars_only(s).len() implies is_name_char(
                #[trigger] name_chars_only(s)[i],
            ) by {
                if i > 0 {
                    assert(name_chars_only(s)[i] == rest[i - 1]);
                }
            }
        }
    }
}

proof fn lemma_name_chars_only_keeps(s: Seq<char>)
    requires
        all_name_chars(s),
    ensures
        name_chars_only(s) == s,
    decreases s.len(),
{
    if s.len() > 0 {
        assert(all_name_chars(s.drop_first())) by {
            assert forall|i: int| 0 <= i < s.drop_first().len() implies is_name_char(
                #[trigger] s.drop_first()[i],
            ) by {
                assert(s.drop_first()[i] == s[i + 1]);
            }
        }
        lemma_name_chars_only_keeps(s.drop_first());
        assert(is_name_char(s[0]));
        assert(seq![s[0]] + s.drop_first() =~= s);
    }
}

proof fn lemma_strip_leading_shape(s: Seq<char>)
    ensures
        strip_leading(s).len() <= s.len(),
        strip_leading(s) == s.subrange(s.len() - strip_leading(s).len(), s.len() as int),
        strip_leading(s).len() == 0 || strip_leading(s)[0] != ' ',
    decreases s.len(),
{
    if s.len() > 0 && s[0] == ' ' {
        lemma_strip_leading_shape(s.drop_first());
        assert(s.drop_first().subrange(
            s.drop_first().len() - strip_leading(s).len(),
            s.drop_first().len() as int,
        ) =~= s.subrange(s.len() - strip_leading(s).len(), s.len() as int));
    } else {
        assert(s.subrange(0, s.len() as int) =~= s);
    }
}

proof fn lemma_strip_trailing_shape(s: Seq<char>)
    ensures
        strip_trailing(s).len() <= s.len(),
        strip_trailing(s) == s.subrange(0, strip_trailing(s).len() as int),
        strip_trailing(s).len() == 0 || strip_trailing(s).last() != ' ',
    decreases s.len(),
{
    if s.len() > 0 && s.last() == ' ' {
        lemma_strip_trailing_shape(s.drop_last());
        assert(s.drop_last().subrange(0, strip_trailing(s).len() as int) =~= s.subrange(
            0,
            strip_trailing(s).len() as int,
        ));
    } else {
        assert(s.subrange(0, s.len() as int) =~= s);
    }
}

/// What trimming leaves is a piece of the input that neither starts nor ends
/// with a space.
proof fn lemma_trimmed_shape(s: Seq<char>)
    ensures
        exists|a: int|
            0 <= a && a + trimmed(s).len() <= s.len() && #[trigger] s.subrange(
                a,
                a + trimmed(s).len(),
            ) == trimmed(s),
        trimmed(s).len() == 0 || (trimmed(s)[0] != ' ' && trimmed(s).last() != ' '),
{
    let w = strip_leading(s);
    let u = trimmed(s);
    lemma_strip_leading_shape(s);
    lemma_strip_trailing_shape(w);
    let a = s.len() - w.len();
    assert(s.subrange(a, a + u.len()) =~= u);
    if u.len() > 0 {
        assert(u[0] == w[0]);
    }
}

proof fn lemma_trimmed_idempotent(s: Seq<char>)
    ensures
        trimmed(trimmed(s)) == trimmed(s),
{
    let u = trimmed(s);
    lemma_trimmed_shape(s);
    assert(strip_leading(u) == u);
    assert(strip_trailing(u) == u);
}

proof fn lemma_piece_name_chars(s: Seq<char>, a: int, b: int)
    requires
        all_name_chars(s),
        0 <= a <= b <= s.len(),
    ensures
        all_name_chars(s.subrange(a, b)),
{
    assert forall|i: int| 0 <= i < s.subrange(a, b).len() implies is_name_char(
        #[trigger] s.subrange(a, b)[i],
    ) by {
        assert(s.subrange(a, b)[i] == s[a + i]);
    }
}

/// A sanitised stem holds only characters allowed in a file name.
pub proof fn lemma_sanitized_allowed(title: Seq<char>)
    ensures
        all_name_chars(sanitized(title)),
{
    let f = name_chars_only(title);
    lemma_name_chars_only_allowed(title);
    lemma_trimmed_shape(f);
    let a = choose|a: int|
        0 <= a && a + trimmed(f).len() <= f.len() && #[trigger] f.subrange(
            a,
            a + trimmed(f).len(),
        ) == trimmed(f);
    lemma_piece_name_chars(f, a, a + trimmed(f).len());
}

/// A title made only of allowed characters is merely trimmed.
pub proof fn lemma_sanitized_allowed_input(title: Seq<char>)
    requires
        all_name_chars(title),
    ensures
        sanitized(title) == trimmed(title),
{
    lemma_name_chars_only_keeps(title);
}

/// Sanitising twice gives what sanitising once gives.
pub proof fn lemma_sanitized_idempotent(title: Seq<char>)
    ensures
        sanitized(sanitized(title)) == sanitized(title),
{
    lemma_sanitized_allowed(title);
    lemma_name_chars_only_keeps(sanitized(title));
    lemma_trimmed_idempotent(name_chars_only(title));
}

/// `v` without surrounding spaces.
fn trim_spaces(v: &Vec<char>) -> (r: Vec<char>)
    ensures
        r@ == trimmed(v@),
{
    let n = v.len();
    let mut a: usize = 0;
    assert(v@.subrange(0, n as int) =~= v@);
    while a < n && v[a] == ' '
        invariant
            n == v@.len(),
            a <= n,
            strip_leading(v@) == strip_leading(v@.subrange(a as int, n as int)),
        decreases n - a,
    {
        assert(v@.subrange(a as int, n as int).drop_first() =~= v@.subrange(a + 1, n as int));
        a += 1;
    }
    assert(strip_leading(v@) == v@.subrange(a as int, n as int));
    let ghost w = v@.subrange(a as int, n as int);
    let mut b: usize = n;
    while b > a && v[b - 1] == ' '
        invariant
            n == v@.len(),
            a <= b <= n,
            w == v@.subrange(a as int, n as int),
            strip_trailing(w) == strip_trailing(v@.subrange(a as int, b as int)),
        decreases b - a,
    {
        assert(v@.subrange(a as int, b as int).drop_last() =~= v@.subrange(a as int, b - 1));
        b -= 1;
    }
    let mut r: Vec<char> = Vec::new();
    let mut i: usize = a;
    while i < b
        invariant
            a <= i <= b <= n,
            n == v@.len(),
            r@ == v@.subrange(a as int, i as int),
        decreases b - i,
    {
        r.push(v[i]);
        assert(v@.subrange(a as int, i + 1) =~= v@.subrange(a as int, i as int).push(v@[i as int]));
        i += 1;
    }
    r
}

/// The output file-name stem for a title: every character outside
/// `[A-Za-z0-9_. -]` removed, then the surrounding whitespace.
pub fn sanitize_filename(input: &str) -> (r: String)
    ensures
        r@ == sanitized(input@),
{
    let kept = strip_disallowed(input);
    let v = chars_of(kept.as_str());
    let t = trim_spaces(&v);
    string_of(&t)
}

} // verus!
