//! Decimal rendering of integers and indicator names.

use vstd::prelude::*;

verus! {

/// The character of the decimal digit `d` (`0 <= d < 10`).
pub open spec fn digit_char(d: nat) -> char {
    (48 + d) as char
}

/// The decimal representation of `n`, most significant digit first, without
/// leading zeros (zero is written `0`).
pub open spec fn decimal(n: nat) -> Seq<char>
    decreases n,
{
    if n < 10 {
        seq![digit_char(n)]
    } else {
        decimal(n / 10).push(digit_char(n % 10))
    }
}

/// The number that a sequence of decimal digit characters denotes, most
/// significant digit first.
pub open spec fn decimal_value(digits: Seq<char>) -> int
    decreases digits.len(),
{
    if digits.len() == 0 {
        0
    } else {
        decimal_value(digits.drop_last()) * 10 + (digits.last() as int - 48)
    }
}

/// `decimal(n)` is the usual decimal numeral of `n`: it consists of digit
/// characters, denotes `n`, and starts with `0` only when `n` is zero.
pub proof fn lemma_decimal_denotes(n: nat)
    ensures
        decimal_value(decimal(n)) == n,
        decimal(n).len() > 0,
        forall|i: int| 0 <= i < decimal(n).len() ==> '0' <= #[trigger] decimal(n)[i] <= '9',
        decimal(n)[0] == '0' ==> n == 0,
    decreases n,
{
    let d = decimal(n);
    if n >= 10 {
        lemma_decimal_denotes(n / 10);
        assert(d.drop_last() =~= decimal(n / 10));
        assert(d[0] == decimal(n / 10)[0]);
        assert(d.last() as int == 48 + n % 10);
        assert(decimal_value(d) == (n / 10) * 10 + n % 10);
        assert((n / 10) * 10 + n % 10 == n);
    } else {
        assert(d.drop_last() =~= Seq::<char>::empty());
        assert(decimal_value(Seq::<char>::empty()) == 0);
        assert(d.last() as int == 48 + n);
        assert(decimal_value(d) == decimal_value(d.drop_last()) * 10 + (d.last() as int - 48));
    }
}

/// The decimal representations of `values`, separated by commas.
pub open spec fn decimal_list(values: Seq<usize>) -> Seq<char>
    decreases values.len(),
{
    if values.len() == 0 {
        Seq::empty()
    } else if values.len() == 1 {
        decimal(values[0] as nat)
    } else {
        decimal_list(values.drop_last()) + ","@ + decimal(values.last() as nat)
    }
}

/// The display name of an indicator: its label followed by its integer
/// parameters in parentheses, such as `SMA(20)` or `MACD(12,26,9)`.
pub fn indicator_name(label: &str, params: &[usize]) -> (name: String)
    ensures
        name@ == label@ + "("@ + decimal_list(params@) + ")"@,
{
    let mut name = String::from_str(label);
    name.append("(");
    let mut i: usize = 0;
    while i < params.len()
        invariant
            i <= params@.len(),
            name@ == label@ + "("@ + decimal_list(params@.take(i as int)),
        decreases params@.len() - i,
    {
        if i > 0 {
            name.append(",");
        }
        push_decimal(&mut name, params[i]);
        proof {
            let done = params@.take((i + 1) as int);
            assert(done.drop_last() =~= params@.take(i as int));
            if i == 0 {
                assert(params@.take(0) =~= Seq::<usize>::empty());
                assert(decimal_list(params@.take(0)) =~= Seq::<char>::empty());
            }
        }
        i = i + 1;
    }
    assert(params@.take(params@.len() as int) =~= params@);
    name.append(")");
    name
}

/// Appends the character of the decimal digit `d` to `out`.
pub(crate) fn push_digit(out: &mut String, d: usize)
    requires
        d < 10,
    ensures
        final(out)@ == old(out)@.push(digit_char(d as nat)),
{
    let digit = match d {
        0 => "0",
        1 => "1",
        2 => "2",
        3 => "3",
        4 => "4",
        5 => "5",
        6 => "6",
        7 => "7",
        8 => "8",
        _ => "9",
    };
    proof {
        reveal_strlit("0");
        reveal_strlit("1");
        reveal_strlit("2");
        reveal_strlit("3");
        reveal_strlit("4");
        reveal_strlit("5");
        reveal_strlit("6");
        reveal_strlit("7");
        reveal_strlit("8");
        reveal_strlit("9");
        assert(digit@ =~= seq![digit_char(d as nat)]);
    }
    out.append(digit);
}

/// Appends the decimal representation of `n` to `out`.
pub(crate) fn push_decimal(out: &mut String, n: usize)
    ensures
        final(out)@ == old(out)@ + decimal(n as nat),
    decreases n,
{
    if n >= 10 {
        push_decimal(out, n / 10);
    }
    push_digit(out, n % 10);
    proof {
        assert(final(out)@ =~= old(out)@ + decimal(n as nat));
    }
}

} // verus!
