//! Text building blocks: decimal digits, fixed-point numbers printed with a
//! fixed number of fraction digits, and removal of a pattern from a text.
//!
//! Every text is modelled as a `Seq<char>`, the view of `str` and `String`.

use vstd::prelude::*;
use vstd::string::*;

verus! {

/// The character that stands for the decimal digit `d`.
pub open spec fn digit_char(d: nat) -> char {
    if d == 0 {
        '0'
    } else if d == 1 {
        '1'
    } else if d == 2 {
        '2'
    } else if d == 3 {
        '3'
    } else if d == 4 {
        '4'
    } else if d == 5 {
        '5'
    } else if d == 6 {
        '6'
    } else if d == 7 {
        '7'
    } else if d == 8 {
        '8'
    } else {
        '9'
    }
}

/// The decimal digits of `n`, most significant first, without leading zeros
/// (`0` is written "0").
pub open spec fn decimal(n: nat) -> Seq<char>
    decreases n,
{
    if n < 10 {
        seq![digit_char(n)]
    } else {
        decimal(n / 10).push(digit_char(n % 10))
    }
}

/// `q` written as a decimal number whose last `places` digits stand behind
/// the point: `with_fraction(12345, 2)` is "123.45", `with_fraction(7, 2)` is
/// "0.07". With no places there is no point.
pub open spec fn with_fraction(q: nat, places: nat) -> Seq<char>
    decreases places,
{
    if places == 0 {
        decimal(q)
    } else if places == 1 {
        decimal(q / 10).push('.').push(digit_char(q % 10))
    } else {
        with_fraction(q / 10, (places - 1) as nat).push(digit_char(q % 10))
    }
}

/// `n / unit` rounded to the nearest integer; a tie goes to the even
/// neighbour.
pub open spec fn round_half_even(n: nat, unit: nat) -> nat
    recommends
        unit >= 1,
{
    let q = n / unit;
    let r = n % unit;
    if 2 * r > unit || (2 * r == unit && q % 2 == 1) {
        q + 1
    } else {
        q
    }
}

/// The magnitude of `v`.
pub open spec fn magnitude(v: int) -> nat {
    if v < 0 {
        (-v) as nat
    } else {
        v as nat
    }
}

/// The text of `v / (unit * 10^places)` with exactly `places` fraction
/// digits: the magnitude of `v` is divided by `unit` and rounded half to
/// even, and a negative `v` keeps its sign even where it rounds to zero.
pub open spec fn rounded_text(v: int, unit: nat, places: nat) -> Seq<char>
    recommends
        unit >= 1,
{
    let sign = if v < 0 {
        seq!['-']
    } else {
        Seq::<char>::empty()
    };
    sign + with_fraction(round_half_even(magnitude(v), unit), places)
}

/// `s` with every line feed turned into a space.
pub open spec fn unfolded(s: Seq<char>) -> Seq<char> {
    Seq::new(
        s.len(),
        |i: int|
            if s[i] == '\n' {
                ' '
            } else {
                s[i]
            },
    )
}

/// The first `limit` items of `s`, or all of `s` where it has no more.
pub open spec fn truncated<T>(s: Seq<T>, limit: nat) -> Seq<T> {
    if s.len() <= limit {
        s
    } else {
        s.take(limit as int)
    }
}

/// `s` without the occurrences of `pat`, found from the left and never
/// overlapping. An empty `pat` removes nothing.
pub open spec fn remove_all(s: Seq<char>, pat: Seq<char>) -> Seq<char>
    decreases s.len(),
{
    if pat.len() == 0 || s.len() < pat.len() {
        s
    } else if s.subrange(0, pat.len() as int) == pat {
        remove_all(s.subrange(pat.len() as int, s.len() as int), pat)
    } else {
        seq![s[0]] + remove_all(s.subrange(1, s.len() as int), pat)
    }
}

/// Whether `pat` stands in `s` at position `at`.
pub open spec fn occurs_at(s: Seq<char>, at: int, pat: Seq<char>) -> bool {
    &&& 0 <= at
    &&& at + pat.len() <= s.len()
    &&& s.subrange(at, at + pat.len()) == pat
}

/// Appends one character. Trusted: `String::push` of std puts `c` behind
/// what the string holds.
#[verifier::external_body]
pub(crate) fn push_char(s: &mut String, c: char)
    ensures
        final(s)@ == old(s)@.push(c),
{
    s.push(c)
}

/// The characters of `s`.
pub fn chars_of(s: &str) -> (v: Vec<char>)
    ensures
        v@ == s@,
{
    let mut v: Vec<char> = Vec::new();
    for c in it: s.chars()
        invariant
            v@ == it.seq().take(it.index@ as int),
    {
        v.push(c);
    }
    v
}

/// Appends the characters of `chars` to `out`.
pub fn push_chars(out: &mut String, chars: &Vec<char>)
    ensures
        final(out)@ == old(out)@ + chars@,
{
    let mut i: usize = 0;
    while i < chars.len()
        invariant
            i <= chars.len(),
            out@ == old(out)@ + chars@.take(i as int),
        decreases chars.len() - i,
    {
        push_char(out, chars[i]);
        i += 1;
        assert(out@ =~= old(out)@ + chars@.take(i as int));
    }
    assert(chars@.take(i as int) =~= chars@);
}

/// Whether two texts hold the same characters.
pub fn same_text(a: &str, b: &str) -> (r: bool)
    ensures
        r == (a@ == b@),
{
    a.to_owned() == b.to_owned()
}

fn digit(d: u64) -> (c: char)
    requires
        d < 10,
    ensures
        c == digit_char(d as nat),
{
    if d == 0 {
        '0'
    } else if d == 1 {
        '1'
    } else if d == 2 {
        '2'
    } else if d == 3 {
        '3'
    } else if d == 4 {
        '4'
    } else if d == 5 {
        '5'
    } else if d == 6 {
        '6'
    } else if d == 7 {
        '7'
    } else if d == 8 {
        '8'
    } else {
        '9'
    }
}

/// Appends the decimal digits of `n`.
pub fn push_decimal(out: &mut String, n: u64)
    ensures
        final(out)@ == old(out)@ + decimal(n as nat),
    decreases n,
{
    if n >= 10 {
        push_decimal(out, n / 10);
    }
    push_char(out, digit(n % 10));
    assert(out@ =~= old(out)@ + decimal(n as nat));
}

/// Appends `q` with its last `places` digits behind the point.
pub fn push_with_fraction(out: &mut String, q: u64, places: u32)
    ensures
        final(out)@ == old(out)@ + with_fraction(q as nat, places as nat),
    decreases places,
{
    if places == 0 {
        push_decimal(out, q);
    } else {
        if places == 1 {
            push_decimal(out, q / 10);
            push_char(out, '.');
        } else {
            push_with_fraction(out, q / 10, places - 1);
        }
        push_char(out, digit(q % 10));
        assert(out@ =~= old(out)@ + with_fraction(q as nat, places as nat));
    }
}

/// `n / unit`, rounded half to even.
pub fn rounded(n: u64, unit: u64) -> (q: u64)
    requires
        unit >= 1,
    ensures
        q == round_half_even(n as nat, unit as nat),
{
    let q: u64 = n / unit;
    let r: u64 = n % unit;
    // `2 * r > unit` without the doubling, which could overflow.
    let rest: u64 = unit - r;
    if r > rest || (r == rest && q % 2 == 1) {
        // Rounding up needs a remainder, so `unit` is 2 at least and `q` is
        // no more than half of `n`.
        assert(2 * q <= n) by (nonlinear_arith)
            requires
                q == n / unit,
                unit >= 2,
        ;
        q + 1
    } else {
        q
    }
}

/// Appends `v / (unit * 10^places)` with exactly `places` fraction digits.
pub fn push_rounded(out: &mut String, v: i64, unit: u64, places: u32)
    requires
        unit >= 1,
    ensures
        final(out)@ == old(out)@ + rounded_text(v as int, unit as nat, places as nat),
{
    let mag: u64 = if v < 0 {
        push_char(out, '-');
        if v == i64::MIN {
            0x8000_0000_0000_0000
        } else {
            (-v) as u64
        }
    } else {
        v as u64
    };
    assert(mag == magnitude(v as int));
    let q = rounded(mag, unit);
    push_with_fraction(out, q, places);
    assert(out@ =~= old(out)@ + rounded_text(v as int, unit as nat, places as nat));
}

/// Whether `pat` stands in `s` at position `at`.
pub fn found_at(s: &Vec<char>, at: usize, pat: &Vec<char>) -> (r: bool)
    ensures
        r == occurs_at(s@, at as int, pat@),
{
    if pat.len() > s.len() || at > s.len() - pat.len() {
        return false;
    }
    let mut k: usize = 0;
    while k < pat.len()
        invariant
            k <= pat.len(),
            at + pat.len() <= s.len(),
            forall|j: int| 0 <= j < k ==> s@[at + j] == pat@[j],
        decreases pat.len() - k,
    {
        if s[at + k] != pat[k] {
            assert(s@.subrange(at as int, at + pat.len())[k as int] != pat@[k as int]);
            return false;
        }
        k += 1;
    }
    assert(s@.subrange(at as int, at + pat.len()) =~= pat@);
    true
}

/// Unfolding of `remove_all` at a position of `s`.
proof fn lemma_remove_all_step(s: Seq<char>, at: int, pat: Seq<char>)
    requires
        0 <= at < s.len(),
        pat.len() > 0,
    ensures
        occurs_at(s, at, pat) ==> remove_all(s.subrange(at, s.len() as int), pat) == remove_all(
            s.subrange(at + pat.len(), s.len() as int),
            pat,
        ),
        !occurs_at(s, at, pat) ==> remove_all(s.subrange(at, s.len() as int), pat) == seq![
            s[at],
        ] + remove_all(s.subrange(at + 1, s.len() as int), pat),
{
    let rest = s.subrange(at, s.len() as int);
    if occurs_at(s, at, pat) {
        assert(rest.subrange(0, pat.len() as int) =~= s.subrange(at, at + pat.len()));
        assert(rest.subrange(pat.len() as int, rest.len() as int) =~= s.subrange(
            at + pat.len(),
            s.len() as int,
        ));
    } else {
        if rest.len() >= pat.len() {
            assert(rest.subrange(0, pat.len() as int) =~= s.subrange(at, at + pat.len()));
            assert(rest.subrange(1, rest.len() as int) =~= s.subrange(at + 1, s.len() as int));
        } else {
            // Too short for any occurrence: nothing is removed from here on.
            lemma_remove_all_short(rest, pat);
            lemma_remove_all_short(s.subrange(at + 1, s.len() as int), pat);
            assert(rest =~= seq![s[at]] + s.subrange(at + 1, s.len() as int));
        }
    }
}

/// A text shorter than the pattern loses nothing.
proof fn lemma_remove_all_short(s: Seq<char>, pat: Seq<char>)
    requires
        s.len() < pat.len(),
    ensures
        remove_all(s, pat) == s,
{
}

/// `s` without the occurrences of `pat`.
pub fn without(s: &Vec<char>, pat: &Vec<char>) -> (r: Vec<char>)
    ensures
        r@ == remove_all(s@, pat@),
{
    let mut r: Vec<char> = Vec::new();
    if pat.len() == 0 {
        let mut j: usize = 0;
        while j < s.len()
            invariant
                j <= s.len(),
                r@ == s@.take(j as int),
            decreases s.len() - j,
        {
            r.push(s[j]);
            j += 1;
            assert(r@ =~= s@.take(j as int));
        }
        assert(s@.take(j as int) =~= s@);
        return r;
    }
    let mut i: usize = 0;
    assert(s@.subrange(0, s@.len() as int) =~= s@);
    while i < s.len()
        invariant
            i <= s.len(),
            pat.len() > 0,
            remove_all(s@, pat@) == r@ + remove_all(s@.subrange(i as int, s@.len() as int), pat@),
        decreases s.len() - i,
    {
        proof {
            lemma_remove_all_step(s@, i as int, pat@);
        }
        if found_at(s, i, pat) {
            i += pat.len();
        } else {
            let ghost before = r@;
            r.push(s[i]);
            i += 1;
            assert(before + (seq![s@[i - 1]] + remove_all(
                s@.subrange(i as int, s@.len() as int),
                pat@,
            )) =~= r@ + remove_all(s@.subrange(i as int, s@.len() as int), pat@));
        }
    }
    assert(s@.subrange(i as int, s@.len() as int) =~= Seq::<char>::empty());
    assert(r@ + Seq::<char>::empty() =~= r@);
    r
}

} // verus!
