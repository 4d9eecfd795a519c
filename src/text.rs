use vstd::prelude::*;

verus! {

/// `p` occurs in `s` starting at position `i`.
pub open spec fn occurs_at(s: Seq<char>, p: Seq<char>, i: int) -> bool {
    0 <= i && i + p.len() <= s.len() && s.subrange(i, i + p.len()) == p
}

/// `p` is a contiguous piece of `s`.
pub open spec fn has_piece(s: Seq<char>, p: Seq<char>) -> bool {
    exists|i: int| occurs_at(s, p, i)
}

/// `s` with every non-overlapping occurrence of the non-empty `p` removed,
/// scanning from the left.
pub open spec fn removed_all(s: Seq<char>, p: Seq<char>) -> Seq<char>
    decreases s.len(),
{
    if p.len() == 0 || s.len() < p.len() {
        s
    } else if s.subrange(0, p.len() as int) == p {
        removed_all(s.subrange(p.len() as int, s.len() as int), p)
    } else {
        seq![s[0]] + removed_all(s.subrange(1, s.len() as int), p)
    }
}

/// What follows the last `.` of `s`; all of `s` where it has none.
pub open spec fn after_last_dot(s: Seq<char>) -> Seq<char>
    decreases s.len(),
{
    if s.len() == 0 {
        s
    } else if s.last() == '.' {
        seq![]
    } else {
        after_last_dot(s.drop_last()).push(s.last())
    }
}

/// The ASCII digit for `d < 10`.
pub open spec fn digit_char(d: nat) -> char {
    if d == 0 { '0' } else if d == 1 { '1' } else if d == 2 { '2' } else if d == 3 { '3' }
    else if d == 4 { '4' } else if d == 5 { '5' } else if d == 6 { '6' } else if d == 7 { '7' }
    else if d == 8 { '8' } else { '9' }
}

/// The decimal numeral of `n`, without leading zeros.
pub open spec fn decimal(n: nat) -> Seq<char>
    decreases n,
{
    if n < 10 {
        seq![digit_char(n)]
    } else {
        decimal(n / 10).push(digit_char(n % 10))
    }
}

/// The decimal numeral of `m / 1000`: the whole part, then, where the
/// fraction is not zero, a point and its digits without trailing zeros.
pub open spec fn thousandths(m: nat) -> Seq<char> {
    let w = decimal(m / 1000);
    let f = m % 1000;
    if f == 0 {
        w
    } else if f % 100 == 0 {
        w + seq!['.', digit_char(f / 100)]
    } else if f % 10 == 0 {
        w + seq!['.', digit_char(f / 100), digit_char((f / 10) % 10)]
    } else {
        w + seq!['.', digit_char(f / 100), digit_char((f / 10) % 10), digit_char(f % 10)]
    }
}

fn digit(d: u64) -> (c: char)
    requires
        d < 10,
    ensures
        c == digit_char(d as nat),
{
    if d == 0 { '0' } else if d == 1 { '1' } else if d == 2 { '2' } else if d == 3 { '3' }
    else if d == 4 { '4' } else if d == 5 { '5' } else if d == 6 { '6' } else if d == 7 { '7' }
    else if d == 8 { '8' } else { '9' }
}

/// Append the decimal numeral of `n`.
pub fn push_decimal(s: &mut String, n: u64)
    ensures
        final(s)@ == old(s)@ + decimal(n as nat),
    decreases n,
{
    if n < 10 {
        push_char(s, digit(n));
        assert(old(s)@.push(digit_char(n as nat)) =~= old(s)@ + decimal(n as nat));
    } else {
        push_decimal(s, n / 10);
        push_char(s, digit(n % 10));
        assert(old(s)@ + decimal((n / 10) as nat) + seq![digit_char((n % 10) as nat)] =~= old(s)@
            + decimal(n as nat));
    }
}

/// Append the decimal numeral of `m / 1000`, as `thousandths` gives it.
pub fn push_thousandths(s: &mut String, m: u64)
    ensures
        final(s)@ == old(s)@ + thousandths(m as nat),
{
    push_decimal(s, m / 1000);
    let f = m % 1000;
    let ghost w = old(s)@ + decimal((m / 1000) as nat);
    if f == 0 {
    } else if f % 100 == 0 {
        push_char(s, '.');
        push_char(s, digit(f / 100));
        assert(w.push('.').push(digit_char((f / 100) as nat)) =~= w + seq!['.', digit_char((f / 100) as nat)]);
    } else if f % 10 == 0 {
        push_char(s, '.');
        push_char(s, digit(f / 100));
        push_char(s, digit((f / 10) % 10));
        assert(w.push('.').push(digit_char((f / 100) as nat)).push(digit_char(((f / 10) % 10) as nat))
            =~= w + seq!['.', digit_char((f / 100) as nat), digit_char(((f / 10) % 10) as nat)]);
    } else {
        push_char(s, '.');
        push_char(s, digit(f / 100));
        push_char(s, digit((f / 10) % 10));
        push_char(s, digit(f % 10));
        assert(w.push('.').push(digit_char((f / 100) as nat)).push(digit_char(((f / 10) % 10) as nat)).push(
            digit_char((f % 10) as nat),
        ) =~= w + seq![
            '.',
            digit_char((f / 100) as nat),
            digit_char(((f / 10) % 10) as nat),
            digit_char((f % 10) as nat),
        ]);
    }
}

/// Relies on `String::push`: appends one character.
#[verifier::external_body]
pub(crate) fn push_char(s: &mut String, c: char)
    ensures
        final(s)@ == old(s)@.push(c),
{
    s.push(c);
}

/// Relies on `str::replace` with an empty replacement: every non-overlapping
/// match of `pat`, taken from the left, is dropped.
#[verifier::external_body]
pub(crate) fn remove_matches(s: &str, pat: &str) -> (r: String)
    requires
        pat@.len() > 0,
    ensures
        r@ == removed_all(s@, pat@),
{
    s.replace(pat, "")
}

/// The characters of `s`, one per element.
pub fn chars_of(s: &str) -> (v: Vec<char>)
    ensures
        v@ == s@,
{
    let n = s.unicode_len();
    let mut v: Vec<char> = Vec::new();
    let mut i: usize = 0;
    while i < n
        invariant
            n == s@.len(),
            i <= n,
            v@ == s@.subrange(0, i as int),
        decreases n - i,
    {
        v.push(s.get_char(i));
        i += 1;
    }
    assert(v@ =~= s@);
    v
}

/// A string holding exactly the characters of `v`.
pub fn string_of(v: &Vec<char>) -> (s: String)
    ensures
        s@ == v@,
{
    let mut s = String::new();
    let mut i: usize = 0;
    while i < v.len()
        invariant
            i <= v@.len(),
            s@ == v@.subrange(0, i as int),
        decreases v.len() - i,
    {
        push_char(&mut s, v[i]);
        assert(v@.subrange(0, i + 1) =~= v@.subrange(0, i as int).push(v@[i as int]));
        i += 1;
    }
    assert(v@.subrange(0, v@.len() as int) =~= v@);
    s
}

/// Whether `p` occurs at position `i` of `s`.
fn piece_at(s: &Vec<char>, p: &Vec<char>, i: usize) -> (r: bool)
    requires
        i + p@.len() <= s@.len(),
    ensures
        r == occurs_at(s@, p@, i as int),
{
    let n = s.len();
    let mut j: usize = 0;
    while j < p.len()
        invariant
            n == s@.len(),
            i + p@.len() <= s@.len(),
            j <= p@.len(),
            forall|t: int| 0 <= t < j ==> s@[i + t] == p@[t],
        decreases p.len() - j,
    {
        if s[i + j] != p[j] {
            assert(s@.subrange(i as int, i + p@.len())[j as int] != p@[j as int]);
            return false;
        }
        j += 1;
    }
    assert(s@.subrange(i as int, i + p@.len()) =~= p@);
    true
}

/// Whether `p` is a contiguous piece of `s`.
pub fn contains_text(s: &str, p: &str) -> (r: bool)
    ensures
        r == has_piece(s@, p@),
{
    let sv = chars_of(s);
    let pv = chars_of(p);
    if pv.len() == 0 {
        assert(s@.subrange(0, 0) =~= p@);
        assert(occurs_at(s@, p@, 0));
        return true;
    }
    if pv.len() > sv.len() {
        assert forall|i: int| !occurs_at(s@, p@, i) by {}
        return false;
    }
    let n = sv.len();
    let last = n - pv.len();
    let mut i: usize = 0;
    while i <= last
        invariant
            sv@ == s@,
            pv@ == p@,
            pv@.len() >= 1,
            n == sv@.len(),
            last + pv@.len() == n,
            i <= last + 1,
            forall|k: int| 0 <= k < i ==> !occurs_at(s@, p@, k),
        decreases last + 1 - i,
    {
        if piece_at(&sv, &pv, i) {
            return true;
        }
        i += 1;
    }
    assert forall|k: int| !occurs_at(s@, p@, k) by {
        if 0 <= k < i {
        }
    }
    false
}

/// What follows the last `.` of `s`, or all of `s` where it has none.
pub fn last_extension(s: &str) -> (r: String)
    ensures
        r@ == after_last_dot(s@),
{
    let v = chars_of(s);
    let n = v.len();
    let mut j: usize = n;
    assert(v@.subrange(0, n as int) =~= v@);
    assert(v@.subrange(n as int, n as int) =~= Seq::<char>::empty());
    while j > 0 && v[j - 1] != '.'
        invariant
            n == v@.len(),
            j <= n,
            after_last_dot(v@) == after_last_dot(v@.subrange(0, j as int)) + v@.subrange(
                j as int,
                n as int,
            ),
        decreases j,
    {
        let ghost head = v@.subrange(0, j as int);
        assert(head.drop_last() =~= v@.subrange(0, j - 1));
        assert(head.last() == v@[j - 1]);
        assert(after_last_dot(head) == after_last_dot(v@.subrange(0, j - 1)).push(v@[j - 1]));
        assert(after_last_dot(v@.subrange(0, j - 1)).push(v@[j - 1]) + v@.subrange(j as int, n as int)
            =~= after_last_dot(v@.subrange(0, j - 1)) + v@.subrange(j - 1, n as int));
        j -= 1;
    }
    assert(after_last_dot(v@.subrange(0, j as int)) =~= Seq::<char>::empty());
    assert(after_last_dot(v@) =~= v@.subrange(j as int, n as int));
    let mut tail: Vec<char> = Vec::new();
    let mut i: usize = j;
    while i < n
        invariant
            j <= i <= n,
            n == v@.len(),
            tail@ == v@.subrange(j as int, i as int),
        decreases n - i,
    {
        tail.push(v[i]);
        assert(v@.subrange(j as int, i + 1) =~= v@.subrange(j as int, i as int).push(v@[i as int]));
        i += 1;
    }
    string_of(&tail)
}

} // verus!
