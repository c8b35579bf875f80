use vstd::prelude::*;
use vstd::string::*;

verus! {

/// Relies on `String::push`: appends exactly the given character.
#[verifier::external_body]
pub(crate) fn push_char(s: &mut String, c: char)
    ensures
        final(s)@ == old(s)@.push(c),
{
    s.push(c);
}

/// The decimal digit characters.
pub open spec fn digit_char(d: int) -> char {
    if d == 0 { '0' } else if d == 1 { '1' } else if d == 2 { '2' }
    else if d == 3 { '3' } else if d == 4 { '4' } else if d == 5 { '5' }
    else if d == 6 { '6' } else if d == 7 { '7' } else if d == 8 { '8' }
    else if d == 9 { '9' } else { '0' }
}

/// Produces the character of a decimal digit, as `digit_char` says.
pub(crate) fn digit_to_char(d: u64) -> (c: char)
    requires
        d < 10,
    ensures
        c == digit_char(d as int),
{
    match d {
        0 => '0', 1 => '1', 2 => '2', 3 => '3', 4 => '4',
        5 => '5', 6 => '6', 7 => '7', 8 => '8', _ => '9',
    }
}

/// Distinct digits have distinct characters.
pub proof fn lemma_digit_char_injective(a: int, b: int)
    requires
        0 <= a < 10,
        0 <= b < 10,
        a != b,
    ensures
        digit_char(a) != digit_char(b),
{
}

/// The decimal digits of a nonnegative number, most significant first.
pub open spec fn spec_dec_digits(n: int) -> Seq<char>
    decreases n,
{
    if n < 10 {
        seq![digit_char(n)]
    } else {
        spec_dec_digits(n / 10).push(digit_char(n % 10))
    }
}

/// Appends the decimal representation of `n`, as `spec_dec_digits` says.
pub(crate) fn push_decimal(out: &mut String, n: u64)
    ensures
        final(out)@ == old(out)@ + spec_dec_digits(n as int),
    decreases n,
{
    let ghost start = out@;
    if n < 10 {
        push_char(out, digit_to_char(n));
        proof {
            assert(out@ =~= start + spec_dec_digits(n as int));
        }
    } else {
        proof {
            assert(n / 10 < n);
        }
        push_decimal(out, n / 10);
        push_char(out, digit_to_char(n % 10));
        proof {
            assert(out@ =~= start + spec_dec_digits(n as int));
        }
    }
}

/// Every occurrence of `from` in `s` replaced by `to`, scanning left to
/// right without overlap; an empty pattern leaves the string unchanged.
pub open spec fn spec_replace(s: Seq<char>, from: Seq<char>, to: Seq<char>) -> Seq<char>
    decreases s.len(),
{
    if from.len() == 0 || s.len() < from.len() {
        s
    } else if s.subrange(0, from.len() as int) == from {
        to + spec_replace(s.skip(from.len() as int), from, to)
    } else {
        seq![s[0]] + spec_replace(s.skip(1), from, to)
    }
}

/// Replacement is vacuous on a string in which the pattern never occurs:
/// when no position of `s` starts an occurrence of `from`, the replacement
/// leaves `s` unchanged. In particular a URL without placeholders resolves
/// to itself.
pub proof fn lemma_replace_absent(s: Seq<char>, from: Seq<char>, to: Seq<char>)
    requires
        forall|i: int|
            0 <= i <= s.len() - from.len() ==> #[trigger] s.subrange(i, i + from.len()) != from,
    ensures
        spec_replace(s, from, to) == s,
    decreases s.len(),
{
    if from.len() == 0 || s.len() < from.len() {
    } else {
        assert(s.subrange(0, 0 + from.len() as int) != from);
        assert(s.subrange(0, from.len() as int) == s.subrange(0, 0 + from.len() as int));
        let tail = s.skip(1);
        assert forall|i: int|
            0 <= i <= tail.len() - from.len() implies #[trigger] tail.subrange(
            i,
            i + from.len(),
        ) != from by {
            assert(tail.subrange(i, i + from.len()) =~= s.subrange(i + 1, i + 1 + from.len()));
        }
        lemma_replace_absent(tail, from, to);
        assert(seq![s[0]] + tail =~= s);
    }
}

/// Whether `from` occurs in `s` starting at position `i`.
pub(crate) fn matches_at(s: &str, n: usize, i: usize, from: &str, m: usize) -> (b: bool)
    requires
        n == s@.len(),
        m == from@.len(),
        i <= n,
    ensures
        b == (i + m <= n && s@.subrange(i as int, i + m) == from@),
{
    if m > n - i {
        return false;
    }
    let mut j: usize = 0;
    while j < m
        invariant
            n == s@.len(),
            m == from@.len(),
            i + m <= n,
            j <= m,
            forall|k: int| 0 <= k < j ==> s@.subrange(i as int, i + m)[k] == from@[k],
        decreases m - j,
    {
        if s.get_char(i + j) != from.get_char(j) {
            proof {
                assert(s@.subrange(i as int, i + m)[j as int] != from@[j as int]);
            }
            return false;
        }
        j = j + 1;
    }
    proof {
        assert(s@.subrange(i as int, i + m) =~= from@);
    }
    true
}

/// Replaces every occurrence of `from` by `to`, as `spec_replace` says.
pub fn replace_all(s: &str, from: &str, to: &str) -> (r: String)
    requires
        from@.len() > 0,
    ensures
        r@ == spec_replace(s@, from@, to@),
{
    let n = s.unicode_len();
    let m = from.unicode_len();
    let mut out = String::new();
    let mut i: usize = 0;
    proof {
        assert(s@.skip(0) =~= s@);
        assert(out@ + spec_replace(s@, from@, to@) =~= spec_replace(s@, from@, to@));
    }
    while i < n
        invariant
            n == s@.len(),
            m == from@.len(),
            m > 0,
            i <= n,
            out@ + spec_replace(s@.skip(i as int), from@, to@) == spec_replace(s@, from@, to@),
        decreases n - i,
    {
        let ghost tail = s@.skip(i as int);
        if matches_at(s, n, i, from, m) {
            proof {
                assert(tail.subrange(0, m as int) =~= s@.subrange(i as int, i + m));
                assert(tail.skip(m as int) =~= s@.skip(i + m));
                assert(spec_replace(tail, from@, to@) == to@ + spec_replace(s@.skip(i + m), from@, to@));
            }
            let ghost out0 = out@;
            out.append(to);
            i = i + m;
            proof {
                assert(out@ + spec_replace(s@.skip(i as int), from@, to@) =~= out0
                    + spec_replace(tail, from@, to@));
            }
        } else {
            let c = s.get_char(i);
            proof {
                if tail.len() >= m {
                    assert(tail.subrange(0, m as int) =~= s@.subrange(i as int, i + m));
                    assert(tail.subrange(0, m as int) != from@);
                    assert(tail[0] == s@[i as int]);
                    assert(tail.skip(1) =~= s@.skip(i + 1));
                    assert(spec_replace(tail, from@, to@) == seq![s@[i as int]]
                        + spec_replace(s@.skip(i + 1), from@, to@));
                } else {
                    assert(spec_replace(tail, from@, to@) == tail);
                    assert(spec_replace(s@.skip(i + 1), from@, to@) == s@.skip(i + 1));
                    assert(tail =~= seq![s@[i as int]] + s@.skip(i + 1));
                }
            }
            let ghost out0 = out@;
            push_char(&mut out, c);
            i = i + 1;
            proof {
                assert(out@ =~= out0 + seq![s@[i - 1]]);
                assert(out@ + spec_replace(s@.skip(i as int), from@, to@) =~= out0
                    + spec_replace(s@.skip(i - 1), from@, to@));
            }
        }
    }
    proof {
        assert(s@.skip(n as int) =~= Seq::<char>::empty());
        assert(spec_replace(s@.skip(n as int), from@, to@) == s@.skip(n as int));
        assert(out@ + s@.skip(n as int) =~= out@);
    }
    out
}

} // verus!
