//! Decimal rendering of the integer operands that appear in printed
//! instructions: register indices, memory offsets, branch targets, table
//! indices and immediate constants.
//!
//! The textual form is fixed and locale-independent: the usual base-ten
//! digit string without padding or grouping, with a single leading `-` for
//! negative values.

use vstd::prelude::*;

verus! {

/// The decimal digit character standing for the value `d`.
pub open spec fn digit_char(d: nat) -> char {
    if d == 0 {
        '0'
    } else if d == 1 {
        '1'
    } else if d == 2 {
        '2'
    } else if d == 3 {
        '3'
    } else if d == 4 {
        '4'
    } else if d == 5 {
        '5'
    } else if d == 6 {
        '6'
    } else if d == 7 {
        '7'
    } else if d == 8 {
        '8'
    } else {
        '9'
    }
}

/// The base-ten digit string of `n`, most significant digit first,
/// without sign, padding or grouping.
pub open spec fn dec_str(n: nat) -> Seq<char>
    decreases n,
{
    if n < 10 {
        seq![digit_char(n)]
    } else {
        dec_str(n / 10).push(digit_char(n % 10))
    }
}

/// The base-ten string of `n`, with a single leading `-` when negative.
pub open spec fn int_str(n: int) -> Seq<char> {
    if n < 0 {
        seq!['-'] + dec_str((-n) as nat)
    } else {
        dec_str(n as nat)
    }
}

/// A decimal digit string holds at least one digit.
pub broadcast proof fn lemma_dec_str_len(n: nat)
    ensures
        #[trigger] dec_str(n).len() >= 1,
    decreases n,
{
    if n >= 10 {
        lemma_dec_str_len(n / 10);
    }
}

/// A signed decimal string holds at least one character.
pub broadcast proof fn lemma_int_str_len(n: int)
    ensures
        #[trigger] int_str(n).len() >= 1,
{
    if n < 0 {
        lemma_dec_str_len((-n) as nat);
    } else {
        lemma_dec_str_len(n as nat);
    }
}

/// Appends the single digit character for `d` to `out`.
fn append_digit(out: &mut String, d: u64)
    requires
        d < 10,
    ensures
        final(out)@ == old(out)@ + seq![digit_char(d as nat)],
{
    let s: &str = if d == 0 {
        "0"
    } else if d == 1 {
        "1"
    } else if d == 2 {
        "2"
    } else if d == 3 {
        "3"
    } else if d == 4 {
        "4"
    } else if d == 5 {
        "5"
    } else if d == 6 {
        "6"
    } else if d == 7 {
        "7"
    } else if d == 8 {
        "8"
    } else {
        "9"
    };
    proof {
        reveal_strlit("0");
        reveal_strlit("1");
        reveal_strlit("2");
        reveal_strlit("3");
        reveal_strlit("4");
        reveal_strlit("5");
        reveal_strlit("6");
        reveal_strlit("7");
        reveal_strlit("8");
        reveal_strlit("9");
        assert(s@ =~= seq![digit_char(d as nat)]);
    }
    out.append(s);
}

/// Appends the decimal digit string of `n` to `out`.
pub fn append_u64(out: &mut String, n: u64)
    ensures
        final(out)@ == old(out)@ + dec_str(n as nat),
    decreases n,
{
    if n >= 10 {
        append_u64(out, n / 10);
        append_digit(out, n % 10);
        proof {
            assert(out@ =~= old(out)@ + dec_str(n as nat));
        }
    } else {
        append_digit(out, n);
    }
}

/// Appends the decimal digit string of `n` to `out`.
pub fn append_u32(out: &mut String, n: u32)
    ensures
        final(out)@ == old(out)@ + dec_str(n as nat),
{
    append_u64(out, n as u64);
}

/// Appends the signed decimal string of `n` to `out`.
pub fn append_i64(out: &mut String, n: i64)
    ensures
        final(out)@ == old(out)@ + int_str(n as int),
{
    if n < 0 {
        out.append("-");
        let wide: i128 = n as i128;
        let magnitude: u64 = (-wide) as u64;
        proof {
            reveal_strlit("-");
            assert(magnitude as nat == (-(n as int)) as nat);
        }
        append_u64(out, magnitude);
        proof {
            assert("-"@ =~= seq!['-']);
            assert(out@ =~= old(out)@ + int_str(n as int));
        }
    } else {
        append_u64(out, n as u64);
    }
}

/// Appends the signed decimal string of `n` to `out`.
pub fn append_i32(out: &mut String, n: i32)
    ensures
        final(out)@ == old(out)@ + int_str(n as int),
{
    append_i64(out, n as i64);
}

} // verus!
