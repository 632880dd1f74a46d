//! Decimal notation of unsigned integers.

use vstd::prelude::*;

verus! {

/// The character that denotes the digit `d`, for `d` from 0 to 9.
pub open spec fn digit(d: nat) -> char {
    seq!['0', '1', '2', '3', '4', '5', '6', '7', '8', '9'][d as int]
}

/// The decimal notation of `n`: its digits from the most significant to the
/// least, without leading zeros, and `"0"` for zero.
pub open spec fn decimal(n: nat) -> Seq<char>
    decreases n,
{
    if n < 10 {
        seq![digit(n)]
    } else {
        decimal(n / 10).push(digit(n % 10))
    }
}

/// The number that a sequence of digit characters denotes in decimal
/// notation.
pub open spec fn denoted(digits: Seq<char>) -> nat
    decreases digits.len(),
{
    if digits.len() == 0 {
        0
    } else {
        (10 * denoted(digits.drop_last()) + (digits.last() as nat - '0' as nat)) as nat
    }
}

/// The decimal notation of `n` is made of digit characters, denotes `n`, and
/// starts with a zero only where `n` is zero.
pub proof fn lemma_decimal_denotes(n: nat)
    ensures
        decimal(n).len() >= 1,
        forall|i: int| 0 <= i < decimal(n).len() ==> '0' <= #[trigger] decimal(n)[i] <= '9',
        denoted(decimal(n)) == n,
        decimal(n)[0] == '0' <==> n == 0,
    decreases n,
{
    assert(forall|d: nat| d < 10 ==> #[trigger] digit(d) as nat == '0' as nat + d);
    if n < 10 {
        assert(decimal(n).drop_last() =~= Seq::<char>::empty());
        assert(denoted(decimal(n).drop_last()) == 0);
    } else {
        lemma_decimal_denotes(n / 10);
        assert(decimal(n).drop_last() =~= decimal(n / 10));
    }
}

/// The one-character string that denotes the digit `d`.
fn digit_str(d: u64) -> (s: &'static str)
    requires
        d < 10,
    ensures
        s@ == seq![digit(d as nat)],
{
    proof {
        reveal_strlit("0");
        reveal_strlit("1");
        reveal_strlit("2");
        reveal_strlit("3");
        reveal_strlit("4");
        reveal_strlit("5");
        reveal_strlit("6");
        reveal_strlit("7");
        reveal_strlit("8");
        reveal_strlit("9");
    }
    let s = match d {
        0 => "0",
        1 => "1",
        2 => "2",
        3 => "3",
        4 => "4",
        5 => "5",
        6 => "6",
        7 => "7",
        8 => "8",
        _ => "9",
    };
    assert(s@ =~= seq![digit(d as nat)]);
    s
}

/// Appends the decimal notation of `n` to `out`.
pub fn push_decimal(out: &mut String, n: u64)
    ensures
        final(out)@ == old(out)@ + decimal(n as nat),
    decreases n,
{
    if n >= 10 {
        push_decimal(out, n / 10);
    }
    out.append(digit_str(n % 10));
    assert(out@ =~= old(out)@ + decimal(n as nat));
}

} // verus!
