use vstd::prelude::*;

verus! {

/// Relies on std's `String::push`: appends the given character to the
/// end of the string.
#[verifier::external_body]
pub fn push_char(s: &mut String, c: char)
    ensures
        final(s)@ == old(s)@ + seq![c],
{
    s.push(c)
}

/// The character for one decimal digit.
pub open spec fn dec_digit(d: int) -> char {
    if d == 0 {
        '0'
    } else if d == 1 {
        '1'
    } else if d == 2 {
        '2'
    } else if d == 3 {
        '3'
    } else if d == 4 {
        '4'
    } else if d == 5 {
        '5'
    } else if d == 6 {
        '6'
    } else if d == 7 {
        '7'
    } else if d == 8 {
        '8'
    } else {
        '9'
    }
}

/// The usual decimal writing of `n`: most significant digit first, no
/// leading zero except for zero itself.
pub open spec fn dec_rep(n: nat) -> Seq<char>
    decreases n,
{
    if n < 10 {
        seq![dec_digit(n as int)]
    } else {
        dec_rep(n / 10) + seq![dec_digit((n % 10) as int)]
    }
}

pub proof fn lemma_dec_rep_len(n: nat)
    ensures
        dec_rep(n).len() >= 1,
        n >= 10 ==> dec_rep(n).len() >= 2,
    decreases n,
{
    if n >= 10 {
        lemma_dec_rep_len(n / 10);
    }
}

/// Two different numbers never share a decimal writing.
pub proof fn lemma_dec_rep_injective(a: nat, b: nat)
    requires
        dec_rep(a) == dec_rep(b),
    ensures
        a == b,
    decreases a + b,
{
    lemma_dec_rep_len(a);
    lemma_dec_rep_len(b);
    if a < 10 && b < 10 {
        assert(dec_rep(a)[0] == dec_digit(a as int));
        assert(dec_rep(b)[0] == dec_digit(b as int));
    } else if a < 10 && b >= 10 {
        lemma_dec_rep_len(b / 10);
        assert(dec_rep(b).len() >= 2);
    } else if a >= 10 && b < 10 {
        lemma_dec_rep_len(a / 10);
        assert(dec_rep(a).len() >= 2);
    } else {
        let pa = dec_rep(a / 10);
        let pb = dec_rep(b / 10);
        assert(dec_rep(a).last() == dec_digit((a % 10) as int));
        assert(dec_rep(b).last() == dec_digit((b % 10) as int));
        assert(a % 10 == b % 10);
        assert(pa.len() == pb.len());
        assert forall|i: int| 0 <= i < pa.len() implies pa[i] == pb[i] by {
            assert(dec_rep(a)[i] == pa[i]);
            assert(dec_rep(b)[i] == pb[i]);
        }
        assert(pa =~= pb);
        lemma_dec_rep_injective(a / 10, b / 10);
    }
}

fn push_digit(out: &mut String, d: u64)
    requires
        d < 10,
    ensures
        final(out)@ == old(out)@ + seq![dec_digit(d as int)],
{
    let c: char = match d {
        0 => '0',
        1 => '1',
        2 => '2',
        3 => '3',
        4 => '4',
        5 => '5',
        6 => '6',
        7 => '7',
        8 => '8',
        _ => '9',
    };
    push_char(out, c);
}

/// Append the decimal writing of `n`.
pub fn push_decimal(out: &mut String, n: u64)
    ensures
        final(out)@ == old(out)@ + dec_rep(n as nat),
    decreases n,
{
    if n < 10 {
        push_digit(out, n);
    } else {
        push_decimal(out, n / 10);
        push_digit(out, n % 10);
        proof {
            assert(old(out)@ + dec_rep((n / 10) as nat) + seq![dec_digit((n % 10) as int)] =~= old(
                out,
            )@ + dec_rep(n as nat));
        }
    }
}

/// The character for one hexadecimal digit, lower case.
pub open spec fn hex_digit(d: int) -> char {
    if d < 10 {
        dec_digit(d)
    } else if d == 10 {
        'a'
    } else if d == 11 {
        'b'
    } else if d == 12 {
        'c'
    } else if d == 13 {
        'd'
    } else if d == 14 {
        'e'
    } else {
        'f'
    }
}

pub fn push_hex_digit(out: &mut String, d: u32)
    requires
        d < 16,
    ensures
        final(out)@ == old(out)@ + seq![hex_digit(d as int)],
{
    let c: char = match d {
        0 => '0',
        1 => '1',
        2 => '2',
        3 => '3',
        4 => '4',
        5 => '5',
        6 => '6',
        7 => '7',
        8 => '8',
        9 => '9',
        10 => 'a',
        11 => 'b',
        12 => 'c',
        13 => 'd',
        14 => 'e',
        _ => 'f',
    };
    push_char(out, c);
}

/// The decimal writing of a signed number: a minus sign before the
/// magnitude when it is negative.
pub open spec fn signed_dec_rep(n: int) -> Seq<char> {
    if n < 0 {
        seq!['-'] + dec_rep((-n) as nat)
    } else {
        dec_rep(n as nat)
    }
}

/// Append the decimal writing of a signed number.
pub fn push_signed_decimal(out: &mut String, n: i64)
    ensures
        final(out)@ == old(out)@ + signed_dec_rep(n as int),
{
    if n >= 0 {
        push_decimal(out, n as u64);
    } else {
        push_char(out, '-');
        let mag: u64 = ((-(n + 1)) as u64) + 1;
        assert(mag as nat == (-(n as int)) as nat);
        push_decimal(out, mag);
        proof {
            assert(old(out)@ + seq!['-'] + dec_rep(mag as nat) =~= old(out)@ + signed_dec_rep(
                n as int,
            ));
        }
    }
}

} // verus!
