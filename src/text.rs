use vstd::prelude::*;

verus! {

pub open spec fn digit_char(d: int) -> char {
    if d == 0 {
        '0'
    } else if d == 1 {
        '1'
    } else if d == 2 {
        '2'
    } else if d == 3 {
        '3'
    } else if d == 4 {
        '4'
    } else if d == 5 {
        '5'
    } else if d == 6 {
        '6'
    } else if d == 7 {
        '7'
    } else if d == 8 {
        '8'
    } else {
        '9'
    }
}

/// Decimal digits of `n`, most significant first, without leading zeros.
pub open spec fn decimal(n: nat) -> Seq<char>
    decreases n,
{
    if n < 10 {
        seq![digit_char(n as int)]
    } else {
        decimal(n / 10) + seq![digit_char((n % 10) as int)]
    }
}

/// `acc` followed by one line `label value`.
pub open spec fn with_line(acc: Seq<char>, label: Seq<char>, value: Seq<char>) -> Seq<char> {
    acc + label + value + seq!['\n']
}

fn digit_str(d: u64) -> (r: &'static str)
    requires
        d < 10,
    ensures
        r@ == seq![digit_char(d as int)],
{
    proof {
        reveal_strlit("0");
        reveal_strlit("1");
        reveal_strlit("2");
        reveal_strlit("3");
        reveal_strlit("4");
        reveal_strlit("5");
        reveal_strlit("6");
        reveal_strlit("7");
        reveal_strlit("8");
        reveal_strlit("9");
    }
    let r = match d {
        0 => "0",
        1 => "1",
        2 => "2",
        3 => "3",
        4 => "4",
        5 => "5",
        6 => "6",
        7 => "7",
        8 => "8",
        _ => "9",
    };
    assert(r@ =~= seq![digit_char(d as int)]);
    r
}

/// Appends the decimal digits of `n`.
pub fn push_decimal(s: &mut String, n: u64)
    ensures
        final(s)@ == old(s)@ + decimal(n as nat),
    decreases n,
{
    if n >= 10 {
        push_decimal(s, n / 10);
    }
    s.append(digit_str(n % 10));
    assert(final(s)@ =~= old(s)@ + decimal(n as nat));
}

/// Appends the line `label value`.
pub fn push_line(s: &mut String, label: &str, value: &str)
    ensures
        final(s)@ == with_line(old(s)@, label@, value@),
{
    s.append(label);
    s.append(value);
    s.append("\n");
    proof {
        reveal_strlit("\n");
    }
    assert(final(s)@ =~= with_line(old(s)@, label@, value@));
}

/// Appends the line `label n`, with `n` in decimal.
pub fn push_number_line(s: &mut String, label: &str, n: u64)
    ensures
        final(s)@ == with_line(old(s)@, label@, decimal(n as nat)),
{
    s.append(label);
    push_decimal(s, n);
    s.append("\n");
    proof {
        reveal_strlit("\n");
    }
    assert(final(s)@ =~= with_line(old(s)@, label@, decimal(n as nat)));
}

} // verus!
