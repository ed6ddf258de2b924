use vstd::prelude::*;

verus! {

/// The character of digit value `d` (`0`-`9`, then lower-case `a`-`f`).
pub open spec fn digit_char(d: nat) -> char {
    if d < 10 { ((48 + d) as u8) as char } else { ((87 + d) as u8) as char }
}

/// Digits of `n` in base `radix`, most significant first, without leading zeros.
pub open spec fn radix_digits(n: nat, radix: nat) -> Seq<char>
    recommends
        2 <= radix <= 16,
    decreases n,
{
    if radix < 2 || n < radix {
        seq![digit_char(n)]
    } else {
        proof { lemma_quotient_smaller(n, radix); }
        radix_digits(n / radix, radix) + seq![digit_char(n % radix)]
    }
}

/// `n` in decimal.
pub open spec fn decimal(n: nat) -> Seq<char> {
    radix_digits(n, 10)
}

/// `count` copies of `c`.
pub open spec fn repeat_char(c: char, count: nat) -> Seq<char> {
    Seq::new(count, |i: int| c)
}

/// `n` in lower-case hexadecimal, padded with zeros to at least `width` digits.
pub open spec fn hex_padded(n: nat, width: nat) -> Seq<char> {
    let digits = radix_digits(n, 16);
    if digits.len() < width {
        repeat_char('0', (width - digits.len()) as nat) + digits
    } else {
        digits
    }
}

/// Dividing by a radix no larger than the number makes it smaller.
pub proof fn lemma_quotient_smaller(n: nat, radix: nat)
    requires
        2 <= radix <= n,
    ensures
        n / radix < n,
        n / radix <= n / 2,
{
    assert(n / radix < n) by (nonlinear_arith) requires 2 <= radix <= n;
    assert(n / radix <= n / 2) by (nonlinear_arith) requires 2 <= radix <= n;
}

/// The one-character string of digit value `d`.
fn digit_str(d: u64) -> (s: &'static str)
    requires
        d < 16,
    ensures
        s@ == seq![digit_char(d as nat)],
{
    let s: &'static str = match d {
        0 => "0",
        1 => "1",
        2 => "2",
        3 => "3",
        4 => "4",
        5 => "5",
        6 => "6",
        7 => "7",
        8 => "8",
        9 => "9",
        10 => "a",
        11 => "b",
        12 => "c",
        13 => "d",
        14 => "e",
        _ => "f",
    };
    proof {
        reveal_strlit("0");
        reveal_strlit("1");
        reveal_strlit("2");
        reveal_strlit("3");
        reveal_strlit("4");
        reveal_strlit("5");
        reveal_strlit("6");
        reveal_strlit("7");
        reveal_strlit("8");
        reveal_strlit("9");
        reveal_strlit("a");
        reveal_strlit("b");
        reveal_strlit("c");
        reveal_strlit("d");
        reveal_strlit("e");
        reveal_strlit("f");
        assert(s@ =~= seq![digit_char(d as nat)]);
    }
    s
}

/// Appends the digits of `n` in base `radix`.
pub fn push_radix_digits(out: &mut String, n: u64, radix: u64)
    requires
        2 <= radix <= 16,
    ensures
        final(out)@ == old(out)@ + radix_digits(n as nat, radix as nat),
    decreases n,
{
    if n < radix {
        out.append(digit_str(n));
    } else {
        proof { lemma_quotient_smaller(n as nat, radix as nat); }
        push_radix_digits(out, n / radix, radix);
        out.append(digit_str(n % radix));
        assert(final(out)@ =~= old(out)@ + radix_digits(n as nat, radix as nat));
    }
}

/// Number of digits of `n` in base `radix`.
pub fn radix_digit_count(n: u64, radix: u64) -> (count: u64)
    requires
        2 <= radix <= 16,
    ensures
        count == radix_digits(n as nat, radix as nat).len(),
    decreases n,
{
    if n < radix {
        1
    } else {
        proof {
            lemma_quotient_smaller(n as nat, radix as nat);
            lemma_digit_count_bound(n as nat / radix as nat, radix as nat);
        }
        let rest = radix_digit_count(n / radix, radix);
        rest + 1
    }
}

proof fn lemma_digit_count_bound(n: nat, radix: nat)
    requires
        2 <= radix <= 16,
    ensures
        radix_digits(n, radix).len() <= n + 1,
    decreases n,
{
    if n >= radix {
        lemma_quotient_smaller(n, radix);
        lemma_digit_count_bound(n / radix, radix);
    }
}

/// Appends `n` in decimal.
pub fn push_decimal(out: &mut String, n: u64)
    ensures
        final(out)@ == old(out)@ + decimal(n as nat),
{
    push_radix_digits(out, n, 10);
}

/// Appends `n` in lower-case hexadecimal, zero-padded to at least `width` digits.
pub fn push_hex_padded(out: &mut String, n: u64, width: u64)
    ensures
        final(out)@ == old(out)@ + hex_padded(n as nat, width as nat),
{
    let count = radix_digit_count(n, 16);
    let ghost start = out@;
    let mut pad: u64 = 0;
    if count < width {
        while pad < width - count
            invariant
                count < width,
                pad <= width - count,
                out@ == start + repeat_char('0', pad as nat),
            decreases width - count - pad,
        {
            out.append("0");
            proof { reveal_strlit("0"); }
            pad = pad + 1;
            assert(out@ =~= start + repeat_char('0', pad as nat));
        }
    }
    let ghost padded = out@;
    push_radix_digits(out, n, 16);
    assert(out@ =~= start + hex_padded(n as nat, width as nat));
}

} // verus!
