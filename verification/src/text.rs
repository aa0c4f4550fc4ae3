//! Building the text of messages and item descriptions

use vstd::prelude::*;

verus! {

/// Append a character to a string (`String::push`). Claimed, as the standard library documents
/// it: the string afterwards holds its old characters followed by `c`.
#[verifier::external_body]
pub(crate) fn push_char(s: &mut String, c: char)
    ensures
        final(s)@ == old(s)@.push(c),
{
    s.push(c);
}

/// Append a string slice to a string: the string afterwards holds its old characters followed
/// by those of `t`
pub(crate) fn push_str(s: &mut String, t: &str)
    ensures
        final(s)@ == old(s)@ + t@,
{
    s.append(t);
}

/// The decimal digit for `d`
pub open spec fn digit_char(d: nat) -> char {
    ((d % 10) + 48) as char
}

/// The decimal representation of `v`, without leading zeros ("0" for zero)
pub open spec fn decimal(v: nat) -> Seq<char>
    decreases v,
{
    if v < 10 {
        seq![digit_char(v)]
    } else {
        decimal(v / 10).push(digit_char(v % 10))
    }
}

/// The decimal representation of `v` followed by `suffix`, built from the last digit back
spec fn digits_then(v: nat, suffix: Seq<char>) -> Seq<char>
    decreases v,
{
    if v < 10 {
        seq![digit_char(v)] + suffix
    } else {
        digits_then(v / 10, seq![digit_char(v % 10)] + suffix)
    }
}

proof fn lemma_digits_then(v: nat, suffix: Seq<char>)
    ensures
        digits_then(v, suffix) == decimal(v) + suffix,
    decreases v,
{
    if v >= 10 {
        lemma_digits_then(v / 10, seq![digit_char(v % 10)] + suffix);
        assert(decimal(v / 10) + (seq![digit_char(v % 10)] + suffix) =~= decimal(v / 10).push(
            digit_char(v % 10),
        ) + suffix);
    }
}

/// Append the decimal representation of `v` to `s`
pub fn push_decimal(s: &mut String, v: u32)
    ensures
        final(s)@ == old(s)@ + decimal(v as nat),
{
    let mut digits: Vec<char> = Vec::new();
    let mut rest: u32 = v;
    let ghost mut suffix: Seq<char> = Seq::empty();
    loop
        invariant_except_break
            digits_then(rest as nat, suffix) == digits_then(v as nat, Seq::empty()),
        invariant
            rest <= v,
            digits@.reverse() == suffix,
        ensures
            suffix == digits_then(v as nat, Seq::empty()),
            digits@.reverse() == suffix,
        decreases rest,
    {
        let d: u32 = rest % 10;
        let c: char = if d == 0 {
            '0'
        } else if d == 1 {
            '1'
        } else if d == 2 {
            '2'
        } else if d == 3 {
            '3'
        } else if d == 4 {
            '4'
        } else if d == 5 {
            '5'
        } else if d == 6 {
            '6'
        } else if d == 7 {
            '7'
        } else if d == 8 {
            '8'
        } else {
            '9'
        };
        assert(c == digit_char(rest as nat));
        let ghost old_suffix = suffix;
        proof {
            assert(digits@.push(c).reverse() =~= seq![c] + digits@.reverse());
            suffix = seq![c] + suffix;
        }
        digits.push(c);
        if rest < 10 {
            assert(digits_then(rest as nat, old_suffix) == suffix);
            break;
        }
        assert(digits_then(rest as nat, old_suffix) == digits_then((rest / 10) as nat, suffix));
        rest = rest / 10;
    }
    proof {
        lemma_digits_then(v as nat, Seq::empty());
        assert(decimal(v as nat) + Seq::<char>::empty() =~= decimal(v as nat));
    }
    let ghost start = s@;
    let mut i: usize = digits.len();
    while i > 0
        invariant
            i <= digits.len(),
            digits@.reverse() == suffix,
            suffix == decimal(v as nat),
            s@ == start + suffix.subrange(0, (digits.len() - i) as int),
        decreases i,
    {
        i = i - 1;
        let c = digits[i];
        proof {
            assert(suffix[(digits.len() - 1 - i) as int] == c);
            assert(suffix.subrange(0, (digits.len() - i) as int) =~= suffix.subrange(
                0,
                (digits.len() - 1 - i) as int,
            ).push(c));
        }
        push_char(s, c);
    }
    assert(suffix.subrange(0, digits.len() as int) =~= suffix);
}

} // verus!
