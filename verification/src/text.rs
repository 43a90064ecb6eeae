use vstd::prelude::*;

verus! {

/// The character standing for one digit value, covering both the decimal
/// digits and the lowercase hexadecimal ones.
pub open spec fn digit_char(d: nat) -> char {
    if d == 0 {
        '0'
    } else if d == 1 {
        '1'
    } else if d == 2 {
        '2'
    } else if d == 3 {
        '3'
    } else if d == 4 {
        '4'
    } else if d == 5 {
        '5'
    } else if d == 6 {
        '6'
    } else if d == 7 {
        '7'
    } else if d == 8 {
        '8'
    } else if d == 9 {
        '9'
    } else if d == 10 {
        'a'
    } else if d == 11 {
        'b'
    } else if d == 12 {
        'c'
    } else if d == 13 {
        'd'
    } else if d == 14 {
        'e'
    } else {
        'f'
    }
}

/// The decimal rendering of `n`, most significant digit first, with no sign
/// and no leading zeros except for the single digit of zero itself.
pub open spec fn dec_chars(n: nat) -> Seq<char>
    decreases n,
{
    if n < 10 {
        seq![digit_char(n)]
    } else {
        dec_chars(n / 10).push(digit_char(n % 10))
    }
}

/// The lowercase hexadecimal rendering of `n`, most significant digit
/// first, without any prefix and with no leading zeros except for the
/// single digit of zero itself.
pub open spec fn hex_chars(n: nat) -> Seq<char>
    decreases n,
{
    if n < 16 {
        seq![digit_char(n)]
    } else {
        hex_chars(n / 16).push(digit_char(n % 16))
    }
}

/// The one-character string for a single digit value.
fn digit_str(d: u128) -> (s: &'static str)
    requires
        d < 16,
    ensures
        s@ == seq![digit_char(d as nat)],
{
    proof {
        reveal_strlit("0");
        reveal_strlit("1");
        reveal_strlit("2");
        reveal_strlit("3");
        reveal_strlit("4");
        reveal_strlit("5");
        reveal_strlit("6");
        reveal_strlit("7");
        reveal_strlit("8");
        reveal_strlit("9");
        reveal_strlit("a");
        reveal_strlit("b");
        reveal_strlit("c");
        reveal_strlit("d");
        reveal_strlit("e");
        reveal_strlit("f");
    }
    let s: &'static str = if d == 0 {
        "0"
    } else if d == 1 {
        "1"
    } else if d == 2 {
        "2"
    } else if d == 3 {
        "3"
    } else if d == 4 {
        "4"
    } else if d == 5 {
        "5"
    } else if d == 6 {
        "6"
    } else if d == 7 {
        "7"
    } else if d == 8 {
        "8"
    } else if d == 9 {
        "9"
    } else if d == 10 {
        "a"
    } else if d == 11 {
        "b"
    } else if d == 12 {
        "c"
    } else if d == 13 {
        "d"
    } else if d == 14 {
        "e"
    } else {
        "f"
    };
    proof {
        assert(s@ =~= seq![digit_char(d as nat)]);
    }
    s
}

/// Append the decimal rendering of `n` to `out`, digit by digit from the
/// most significant end.
fn push_dec(n: u128, out: &mut String)
    ensures
        final(out)@ == old(out)@ + dec_chars(n as nat),
    decreases n,
{
    if n >= 10 {
        push_dec(n / 10, out);
    }
    out.append(digit_str(n % 10));
    proof {
        assert(out@ =~= old(out)@ + dec_chars(n as nat));
    }
}

/// Append the lowercase hexadecimal rendering of `n` to `out`, digit by
/// digit from the most significant end.
fn push_hex(n: u128, out: &mut String)
    ensures
        final(out)@ == old(out)@ + hex_chars(n as nat),
    decreases n,
{
    if n >= 16 {
        push_hex(n / 16, out);
    }
    out.append(digit_str(n % 16));
    proof {
        assert(out@ =~= old(out)@ + hex_chars(n as nat));
    }
}

/// The decimal text of a 128-bit identifier.
pub fn u128_to_decimal(n: u128) -> (s: String)
    ensures
        s@ == dec_chars(n as nat),
{
    let mut s = String::new();
    push_dec(n, &mut s);
    proof {
        assert(s@ =~= dec_chars(n as nat));
    }
    s
}

/// The lowercase hexadecimal text of a 128-bit identifier, without the
/// `0x` prefix.
pub fn u128_to_hex(n: u128) -> (s: String)
    ensures
        s@ == hex_chars(n as nat),
{
    let mut s = String::new();
    push_hex(n, &mut s);
    proof {
        assert(s@ =~= hex_chars(n as nat));
    }
    s
}

} // verus!
