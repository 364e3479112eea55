//! Text forms of numbers and byte strings, as the decoders display them.

use vstd::prelude::*;

verus! {

/// Relies on `String::push`, which appends one character to the end of the string.
pub assume_specification[ String::push ](s: &mut String, ch: char)
    ensures
        final(s)@ == old(s)@.push(ch),
;

/// The parts of `parts` in order, with `sep` between each two neighbours.
pub open spec fn join(parts: Seq<Seq<char>>, sep: Seq<char>) -> Seq<char>
    decreases parts.len(),
{
    if parts.len() == 0 {
        Seq::empty()
    } else if parts.len() == 1 {
        parts[0]
    } else {
        join(parts.drop_last(), sep) + sep + parts.last()
    }
}

/// Joining one more part adds the separator, unless nothing came before.
pub proof fn lemma_join_push(parts: Seq<Seq<char>>, sep: Seq<char>, x: Seq<char>)
    ensures
        join(parts.push(x), sep) == if parts.len() == 0 {
            x
        } else {
            join(parts, sep) + sep + x
        },
{
    assert(parts.push(x).drop_last() =~= parts);
    if parts.len() == 0 {
        assert(parts.push(x)[0] == x);
    }
}

/// The character of digit `d` (below 16) in lower-case hexadecimal.
pub open spec fn digit_char(d: nat) -> char {
    if d < 10 {
        (48 + d) as char
    } else {
        (87 + d) as char
    }
}

/// The decimal digits of `n`, without leading zeros.
pub open spec fn dec_digits(n: nat) -> Seq<char>
    decreases n,
{
    if n < 10 {
        seq![digit_char(n)]
    } else {
        dec_digits(n / 10).push(digit_char(n % 10))
    }
}

/// The lower-case hexadecimal digits of `n`, without leading zeros.
pub open spec fn hex_digits(n: nat) -> Seq<char>
    decreases n,
{
    if n < 16 {
        seq![digit_char(n)]
    } else {
        hex_digits(n / 16).push(digit_char(n % 16))
    }
}

/// `k` zero characters.
pub open spec fn zeros(k: nat) -> Seq<char> {
    Seq::new(k, |i: int| '0')
}

/// The hexadecimal digits of `n`, padded with zeros to at least `width` characters.
pub open spec fn hex_padded(n: nat, width: nat) -> Seq<char> {
    let d = hex_digits(n);
    if d.len() < width {
        zeros((width - d.len()) as nat) + d
    } else {
        d
    }
}

/// `0x` followed by the hexadecimal digits of `n`, padded to `width` digits.
pub open spec fn hex_text(n: nat, width: nat) -> Seq<char> {
    seq!['0', 'x'] + hex_padded(n, width)
}

fn digit(d: u64) -> (c: char)
    requires
        d < 16,
    ensures
        c == digit_char(d as nat),
{
    if d < 10 {
        ((48 + d) as u8) as char
    } else {
        ((87 + d) as u8) as char
    }
}

/// Appends the decimal digits of `n` to `s`.
pub fn push_dec(s: &mut String, n: u64)
    ensures
        final(s)@ == old(s)@ + dec_digits(n as nat),
    decreases n,
{
    if n >= 10 {
        push_dec(s, n / 10);
    }
    s.push(digit(n % 10));
    proof {
        assert(old(s)@ + dec_digits(n as nat) =~= s@);
    }
}

/// Appends the hexadecimal digits of `n` to `s`.
pub fn push_hex(s: &mut String, n: u64)
    ensures
        final(s)@ == old(s)@ + hex_digits(n as nat),
    decreases n,
{
    if n >= 16 {
        push_hex(s, n / 16);
    }
    s.push(digit(n % 16));
    proof {
        assert(old(s)@ + hex_digits(n as nat) =~= s@);
    }
}

/// Sixteen to the power `k`.
pub open spec fn pow16(k: nat) -> nat
    decreases k,
{
    if k == 0 {
        1
    } else {
        16 * pow16((k - 1) as nat)
    }
}

proof fn lemma_hex_digits_len(n: nat, k: nat)
    requires
        n < pow16(k),
        k >= 1,
    ensures
        hex_digits(n).len() <= k,
        hex_digits(n).len() >= 1,
    decreases n,
{
    if n >= 16 {
        if k == 1 {
            assert(pow16(1) == 16 * pow16(0));
        } else {
            assert(n / 16 < pow16((k - 1) as nat));
            lemma_hex_digits_len(n / 16, (k - 1) as nat);
        }
    }
}

/// The number of hexadecimal digits of `n`.
fn hex_len(n: u64) -> (r: usize)
    ensures
        r == hex_digits(n as nat).len(),
    decreases n,
{
    proof {
        reveal_with_fuel(pow16, 17);
        lemma_hex_digits_len(n as nat, 16);
    }
    if n >= 16 {
        hex_len(n / 16) + 1
    } else {
        1
    }
}

/// Appends the hexadecimal digits of `n`, zero-padded to `width` digits.
pub fn push_hex_padded(s: &mut String, n: u64, width: usize)
    ensures
        final(s)@ == old(s)@ + hex_padded(n as nat, width as nat),
{
    let len = hex_len(n);
    let mut k: usize = len;
    while k < width
        invariant
            len <= k,
            len < width ==> k <= width,
            len >= width ==> k == len,
            len == hex_digits(n as nat).len(),
            s@ == old(s)@ + zeros((k - len) as nat),
        decreases width - k,
    {
        s.push('0');
        k = k + 1;
        proof {
            assert(zeros((k - len) as nat) =~= zeros((k - 1 - len) as nat).push('0'));
        }
    }
    push_hex(s, n);
    proof {
        if len >= width {
            assert(zeros(0) =~= Seq::<char>::empty());
        }
        assert(s@ =~= old(s)@ + hex_padded(n as nat, width as nat));
    }
}

/// Appends `0x` and the hexadecimal digits of `n`, zero-padded to `width` digits.
pub fn push_hex_text(s: &mut String, n: u64, width: usize)
    ensures
        final(s)@ == old(s)@ + hex_text(n as nat, width as nat),
{
    s.push('0');
    s.push('x');
    push_hex_padded(s, n, width);
    proof {
        assert(s@ =~= old(s)@ + hex_text(n as nat, width as nat));
    }
}

/// The decimal text of a signed `n`: a minus sign before the digits of a negative one.
pub open spec fn int_digits(n: int) -> Seq<char> {
    if n < 0 {
        seq!['-'] + dec_digits((-n) as nat)
    } else {
        dec_digits(n as nat)
    }
}

/// Appends the signed decimal text of `n`.
pub fn push_int(s: &mut String, n: i64)
    ensures
        final(s)@ == old(s)@ + int_digits(n as int),
{
    if n < 0 {
        s.push('-');
        let m = (-(n as i128)) as u64;
        push_dec(s, m);
        proof {
            assert(s@ =~= old(s)@ + int_digits(n as int));
        }
    } else {
        push_dec(s, n as u64);
    }
}

/// The decimal text of `n`.
pub fn dec_string(n: u64) -> (r: String)
    ensures
        r@ == dec_digits(n as nat),
{
    let mut s = String::new();
    push_dec(&mut s, n);
    s
}

/// `0x` and the hexadecimal digits of `n`, zero-padded to `width` digits.
pub fn hex_string(n: u64, width: usize) -> (r: String)
    ensures
        r@ == hex_text(n as nat, width as nat),
{
    let mut s = String::new();
    push_hex_text(&mut s, n, width);
    s
}

/// A string holding the characters of `lit`.
pub fn text(lit: &str) -> (r: String)
    ensures
        r@ == lit@,
{
    String::from_str(lit)
}

} // verus!
