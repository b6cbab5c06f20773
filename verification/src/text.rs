//! Building blocks for the text of a report: runs of one character and
//! decimal numbers, right-aligned in a column.

use vstd::prelude::*;

verus! {

/// A run of `n` copies of `c`.
pub open spec fn repeated(c: char, n: nat) -> Seq<char> {
    Seq::new(n, |i: int| c)
}

/// The character that stands for the digit `d`.
pub open spec fn digit_char(d: nat) -> char {
    if d == 0 {
        '0'
    } else if d == 1 {
        '1'
    } else if d == 2 {
        '2'
    } else if d == 3 {
        '3'
    } else if d == 4 {
        '4'
    } else if d == 5 {
        '5'
    } else if d == 6 {
        '6'
    } else if d == 7 {
        '7'
    } else if d == 8 {
        '8'
    } else {
        '9'
    }
}

/// The decimal notation of `n`, without leading zeros.
pub open spec fn decimal(n: nat) -> Seq<char>
    decreases n,
{
    if n < 10 {
        seq![digit_char(n)]
    } else {
        decimal(n / 10).push(digit_char(n % 10))
    }
}

/// The number of characters that the decimal notation of `n` takes.
pub open spec fn decimal_width(n: nat) -> nat {
    decimal(n).len()
}

/// `n` in decimal notation, preceded by as many spaces as it takes to fill
/// `width` columns. A number that is wider than the column is not cut.
pub open spec fn right_aligned(n: nat, width: nat) -> Seq<char> {
    if decimal_width(n) < width {
        repeated(' ', (width - decimal_width(n)) as nat) + decimal(n)
    } else {
        decimal(n)
    }
}

/// Every number has at least one digit.
pub proof fn lemma_decimal_nonempty(n: nat)
    ensures
        decimal_width(n) >= 1,
    decreases n,
{
    if n >= 10 {
        lemma_decimal_nonempty(n / 10);
    }
}

/// A larger number never has fewer digits.
pub proof fn lemma_decimal_width_monotonic(a: nat, b: nat)
    requires
        a <= b,
    ensures
        decimal_width(a) <= decimal_width(b),
    decreases b,
{
    if b < 10 {
    } else if a < 10 {
        lemma_decimal_nonempty(b / 10);
    } else {
        lemma_decimal_width_monotonic(a / 10, b / 10);
    }
}

/// A number that fits the column fills it exactly.
pub proof fn lemma_right_aligned_width(n: nat, width: nat)
    requires
        decimal_width(n) <= width,
    ensures
        right_aligned(n, width).len() == width,
{
}

/// Appends `n` copies of the one character of `unit` to `out`.
pub fn push_run(out: &mut String, unit: &str, n: usize)
    requires
        unit@.len() == 1,
    ensures
        final(out)@ == old(out)@ + repeated(unit@[0], n as nat),
{
    let mut i: usize = 0;
    while i < n
        invariant
            i <= n,
            unit@.len() == 1,
            out@ == old(out)@ + repeated(unit@[0], i as nat),
        decreases n - i,
    {
        out.append(unit);
        i += 1;
        assert(out@ =~= old(out)@ + repeated(unit@[0], i as nat));
    }
}

/// Appends `n` spaces to `out`.
pub fn push_spaces(out: &mut String, n: usize)
    ensures
        final(out)@ == old(out)@ + repeated(' ', n as nat),
{
    proof {
        reveal_strlit(" ");
    }
    push_run(out, " ", n);
}

/// The one-character string of the digit `d`.
fn digit_str(d: u8) -> (s: &'static str)
    requires
        d < 10,
    ensures
        s@ == seq![digit_char(d as nat)],
{
    proof {
        reveal_strlit("0");
        reveal_strlit("1");
        reveal_strlit("2");
        reveal_strlit("3");
        reveal_strlit("4");
        reveal_strlit("5");
        reveal_strlit("6");
        reveal_strlit("7");
        reveal_strlit("8");
        reveal_strlit("9");
    }
    let s = match d {
        0 => "0",
        1 => "1",
        2 => "2",
        3 => "3",
        4 => "4",
        5 => "5",
        6 => "6",
        7 => "7",
        8 => "8",
        _ => "9",
    };
    assert(s@ =~= seq![digit_char(d as nat)]);
    s
}

/// Appends the decimal notation of `n` to `out`.
pub fn push_decimal(out: &mut String, n: u128)
    ensures
        final(out)@ == old(out)@ + decimal(n as nat),
    decreases n,
{
    if n >= 10 {
        push_decimal(out, n / 10);
    }
    let digit = digit_str((n % 10) as u8);
    out.append(digit);
    assert(out@ =~= old(out)@ + decimal(n as nat));
}

/// Counts the digits of `n`.
pub fn count_digits(n: u128) -> (width: usize)
    ensures
        width == decimal_width(n as nat),
        1 <= width <= 39,
{
    let mut rest: u128 = n;
    let mut width: usize = 1;
    proof {
        reveal_with_fuel(pow10, 40);
        assert(pow10(39) == 1_000_000_000_000_000_000_000_000_000_000_000_000_000nat);
    }
    while rest >= 10
        invariant
            1 <= width <= 39,
            decimal_width(n as nat) == decimal_width(rest as nat) + width - 1,
            rest < pow10((40 - width) as nat),
        decreases rest,
    {
        proof {
            lemma_pow10_step((40 - width) as nat);
        }
        rest = rest / 10;
        width += 1;
    }
    width
}

/// Ten to the power of `e`.
spec fn pow10(e: nat) -> nat
    decreases e,
{
    if e == 0 {
        1
    } else {
        10 * pow10((e - 1) as nat)
    }
}

proof fn lemma_pow10_step(e: nat)
    requires
        e >= 1,
    ensures
        pow10(e) == 10 * pow10((e - 1) as nat),
{
}

/// Appends `n` to `out`, right-aligned in a column of `width` characters.
pub fn push_right_aligned(out: &mut String, n: u128, width: usize)
    ensures
        final(out)@ == old(out)@ + right_aligned(n as nat, width as nat),
{
    let digits = count_digits(n);
    if digits < width {
        push_spaces(out, width - digits);
    }
    push_decimal(out, n);
    assert(out@ =~= old(out)@ + right_aligned(n as nat, width as nat));
}

} // verus!
