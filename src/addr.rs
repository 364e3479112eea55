//! Byte-level reads shared by the decoders, and the text forms of hardware and
//! IPv4 addresses.

use vstd::prelude::*;
use crate::text::{dec_digits, hex_digits, hex_padded, join, lemma_join_push, push_dec, push_hex, push_hex_padded};

verus! {

/// The big-endian 16-bit value of the bytes `hi`, `lo`.
pub open spec fn be16(hi: u8, lo: u8) -> nat {
    hi as nat * 256 + lo as nat
}

/// Reads the big-endian 16-bit value of two bytes.
pub fn read_be16(hi: u8, lo: u8) -> (r: u16)
    ensures
        r as nat == be16(hi, lo),
{
    let r = ((hi as u16) << 8) | (lo as u16);
    assert(((hi as u16) << 8) | (lo as u16) == hi as u16 * 256 + lo as u16) by (bit_vector)
        requires
            hi <= 255,
            lo <= 255,
    ;
    r
}

/// The masks and shifts that the decoders use on a byte, as arithmetic.
pub proof fn lemma_byte_bits(x: u8)
    by (bit_vector)
    ensures
        (x & 0xF0) >> 4 == x / 16,
        x & 0x0F == x % 16,
        (x & 0xFC) >> 2 == x / 4,
        x & 0x03 == x % 4,
        (x & 0xE0) >> 5 == x / 32,
        x & 0x1F == x % 32,
        (x & 0x01 != 0) == (x % 2 == 1),
        (x & 0x02 != 0) == ((x / 2) % 2 == 1),
        (x & 0x04 != 0) == ((x / 4) % 2 == 1),
{
}

/// Lower-case two-digit hexadecimal octets separated by colons (`00:1a:2b:3c:4d:5e`).
pub open spec fn mac_text(b: Seq<u8>) -> Seq<char> {
    join(b.map_values(|x: u8| hex_padded(x as nat, 2)), ":"@)
}

/// Decimal octets separated by dots (`192.168.0.1`).
pub open spec fn ipv4_text(b: Seq<u8>) -> Seq<char> {
    join(b.map_values(|x: u8| dec_digits(x as nat)), "."@)
}

/// The eight big-endian 16-bit groups of a 16-byte IPv6 address.
pub open spec fn ipv6_groups(b: Seq<u8>) -> Seq<u16> {
    Seq::new(8, |i: int| be16(b[2 * i], b[2 * i + 1]) as u16)
}

/// The number of zero groups in a row starting at index `i`.
pub open spec fn zero_run(g: Seq<u16>, i: int) -> nat
    decreases g.len() - i,
{
    if 0 <= i < g.len() && g[i] == 0 {
        1 + zero_run(g, i + 1)
    } else {
        0
    }
}

/// Start and length of the first of the longest runs of zero groups that start
/// at or after index `i`; the length is 0 where there is no zero group.
pub open spec fn longest_zero_run(g: Seq<u16>, i: int) -> (int, nat)
    decreases g.len() - i,
{
    if i < 0 || i >= g.len() {
        (g.len() as int, 0)
    } else {
        let rest = longest_zero_run(g, i + 1);
        if zero_run(g, i) > 0 && zero_run(g, i) >= rest.1 {
            (i, zero_run(g, i))
        } else {
            rest
        }
    }
}

/// Groups in lower-case hexadecimal without leading zeros, separated by colons.
pub open spec fn groups_text(g: Seq<u16>) -> Seq<char> {
    join(g.map_values(|x: u16| hex_digits(x as nat)), ":"@)
}

/// Whether a 16-byte address is an IPv4 address mapped into IPv6 (`::ffff:a.b.c.d`).
pub open spec fn ipv4_mapped(g: Seq<u16>) -> bool {
    g[0] == 0 && g[1] == 0 && g[2] == 0 && g[3] == 0 && g[4] == 0 && g[5] == 0xffff
}

/// The text of a 16-byte IPv6 address: an IPv4-mapped address as `::ffff:`
/// and its dotted IPv4 form; otherwise the groups, with the first longest run
/// of two or more zero groups written as `::`.
pub open spec fn ipv6_text(b: Seq<u8>) -> Seq<char> {
    let g = ipv6_groups(b);
    if ipv4_mapped(g) {
        "::ffff:"@ + ipv4_text(b.subrange(12, 16))
    } else {
        let (start, len) = longest_zero_run(g, 0);
        if len > 1 {
            groups_text(g.subrange(0, start)) + "::"@ + groups_text(g.subrange(start + len, 8))
        } else {
            groups_text(g)
        }
    }
}

/// Appends the text of a hardware address.
pub fn push_mac(s: &mut String, b: &[u8])
    ensures
        final(s)@ == old(s)@ + mac_text(b@),
{
    let ghost parts = b@.map_values(|x: u8| hex_padded(x as nat, 2));
    let ghost head = s@;
    let mut i: usize = 0;
    while i < b.len()
        invariant
            i <= b@.len(),
            parts == b@.map_values(|x: u8| hex_padded(x as nat, 2)),
            s@ == head + join(parts.take(i as int), ":"@),
        decreases b@.len() - i,
    {
        proof {
            reveal_strlit(":");
            lemma_join_push(parts.take(i as int), ":"@, parts[i as int]);
            assert(parts.take(i as int).push(parts[i as int]) =~= parts.take(i + 1));
        }
        if i > 0 {
            s.push(':');
        }
        push_hex_padded(s, b[i] as u64, 2);
        i = i + 1;
    }
    proof {
        assert(parts.take(i as int) =~= parts);
    }
}

/// Appends the text of an IPv4 address.
pub fn push_ipv4(s: &mut String, b: &[u8])
    ensures
        final(s)@ == old(s)@ + ipv4_text(b@),
{
    let ghost parts = b@.map_values(|x: u8| dec_digits(x as nat));
    let ghost head = s@;
    let mut i: usize = 0;
    while i < b.len()
        invariant
            i <= b@.len(),
            parts == b@.map_values(|x: u8| dec_digits(x as nat)),
            s@ == head + join(parts.take(i as int), "."@),
        decreases b@.len() - i,
    {
        proof {
            reveal_strlit(".");
            lemma_join_push(parts.take(i as int), "."@, parts[i as int]);
            assert(parts.take(i as int).push(parts[i as int]) =~= parts.take(i + 1));
        }
        if i > 0 {
            s.push('.');
        }
        push_dec(s, b[i] as u64);
        i = i + 1;
    }
    proof {
        assert(parts.take(i as int) =~= parts);
    }
}

/// Appends the text of the groups `g[lo..hi]`.
fn push_groups(s: &mut String, g: &Vec<u16>, lo: usize, hi: usize)
    requires
        lo <= hi <= g@.len(),
    ensures
        final(s)@ == old(s)@ + groups_text(g@.subrange(lo as int, hi as int)),
{
    let ghost parts = g@.subrange(lo as int, hi as int).map_values(|x: u16| hex_digits(x as nat));
    let ghost head = s@;
    let mut i: usize = lo;
    while i < hi
        invariant
            lo <= i <= hi <= g@.len(),
            parts == g@.subrange(lo as int, hi as int).map_values(|x: u16| hex_digits(x as nat)),
            s@ == head + join(parts.take(i - lo), ":"@),
        decreases hi - i,
    {
        proof {
            reveal_strlit(":");
            lemma_join_push(parts.take(i - lo), ":"@, parts[i - lo]);
            assert(parts.take(i - lo).push(parts[i - lo]) =~= parts.take(i + 1 - lo));
        }
        if i > lo {
            s.push(':');
        }
        push_hex(s, g[i] as u64);
        i = i + 1;
    }
    proof {
        assert(parts.take(i - lo) =~= parts);
    }
}

/// Appends the text of a 16-byte IPv6 address.
pub fn push_ipv6(s: &mut String, b: &[u8])
    requires
        b@.len() == 16,
    ensures
        final(s)@ == old(s)@ + ipv6_text(b@),
{
    let ghost gs = ipv6_groups(b@);
    let mut g: Vec<u16> = Vec::new();
    let mut i: usize = 0;
    while i < 8
        invariant
            i <= 8,
            b@.len() == 16,
            gs == ipv6_groups(b@),
            g@ == gs.take(i as int),
        decreases 8 - i,
    {
        let x = read_be16(b[2 * i], b[2 * i + 1]);
        g.push(x);
        i = i + 1;
        assert(g@ =~= gs.take(i as int));
    }
    assert(g@ =~= gs);
    if g[0] == 0 && g[1] == 0 && g[2] == 0 && g[3] == 0 && g[4] == 0 && g[5] == 0xffff {
        s.append("::ffff:");
        let v4 = [b[12], b[13], b[14], b[15]];
        push_ipv4(s, &v4);
        proof {
            assert(v4@ =~= b@.subrange(12, 16));
            assert(s@ =~= old(s)@ + ipv6_text(b@));
        }
        return;
    }
    let mut best_start: usize = 8;
    let mut best_len: usize = 0;
    let mut run: usize = 0;
    let mut j: usize = 8;
    while j > 0
        invariant
            j <= 8,
            g@ == gs,
            gs.len() == 8,
            run as nat == zero_run(gs, j as int),
            run <= 8 - j,
            (best_start as int, best_len as nat) == longest_zero_run(gs, j as int),
            best_len <= 8 - j,
            best_start + best_len <= 8,
        decreases j,
    {
        j = j - 1;
        if g[j] == 0 {
            run = run + 1;
        } else {
            run = 0;
        }
        if run > 0 && run >= best_len {
            best_start = j;
            best_len = run;
        }
        proof {
            if run > 0 {
                assert(run as nat == zero_run(gs, j as int));
            }
        }
    }
    if best_len > 1 {
        push_groups(s, &g, 0, best_start);
        s.append("::");
        push_groups(s, &g, best_start + best_len, 8);
    } else {
        push_groups(s, &g, 0, 8);
        assert(g@.subrange(0, 8) =~= g@);
    }
}

/// The text of a hardware address.
pub fn mac_string(b: &[u8]) -> (r: String)
    ensures
        r@ == mac_text(b@),
{
    let mut s = String::new();
    push_mac(&mut s, b);
    s
}

/// The text of an IPv4 address.
pub fn ipv4_string(b: &[u8]) -> (r: String)
    ensures
        r@ == ipv4_text(b@),
{
    let mut s = String::new();
    push_ipv4(&mut s, b);
    s
}

/// The text of a 16-byte IPv6 address.
pub fn ipv6_string(b: &[u8]) -> (r: String)
    requires
        b@.len() == 16,
    ensures
        r@ == ipv6_text(b@),
{
    let mut s = String::new();
    push_ipv6(&mut s, b);
    s
}

} // verus!
