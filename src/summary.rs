//! The one-line text by which a captured packet is described to the remote
//! security analysis.

use vstd::prelude::*;
use crate::text::{dec_digits, hex_padded, int_digits, join, lemma_join_push, push_dec, push_hex_padded, push_int, text};

verus! {

/// How many leading bytes of a packet the summary shows.
pub const SUMMARY_BYTES: usize = 50;

/// The leading bytes of a packet that the summary shows, in two-digit hexadecimal.
pub open spec fn summary_octets(b: Seq<u8>) -> Seq<Seq<char>> {
    let shown = if b.len() < 50 { b } else { b.take(50) };
    shown.map_values(|x: u8| hex_padded(x as nat, 2))
}

/// `Packet length: <n>, Timestamp: <sec>.<usec>, Data (first 50 bytes, hex): "<octets>"`,
/// the octets separated by single spaces.
pub open spec fn summary_text(b: Seq<u8>, sec: int, usec: int) -> Seq<char> {
    "Packet length: "@ + dec_digits(b.len()) + ", Timestamp: "@ + int_digits(sec) + "."@
        + int_digits(usec) + ", Data (first 50 bytes, hex): \""@
        + join(summary_octets(b), " "@) + "\""@
}

/// Describes a captured packet: its length, its capture time and its first bytes.
pub fn packet_summary(data: &[u8], ts_sec: i64, ts_usec: i64) -> (r: String)
    ensures
        r@ == summary_text(data@, ts_sec as int, ts_usec as int),
{
    let mut s = text("Packet length: ");
    push_dec(&mut s, data.len() as u64);
    s.append(", Timestamp: ");
    push_int(&mut s, ts_sec);
    s.append(".");
    push_int(&mut s, ts_usec);
    s.append(", Data (first 50 bytes, hex): \"");
    let shown = if data.len() < SUMMARY_BYTES {
        data.len()
    } else {
        SUMMARY_BYTES
    };
    let ghost parts = summary_octets(data@);
    let ghost head = s@;
    let mut i: usize = 0;
    while i < shown
        invariant
            i <= shown,
            shown == parts.len(),
            shown <= data@.len(),
            parts == summary_octets(data@),
            s@ == head + join(parts.take(i as int), " "@),
        decreases shown - i,
    {
        proof {
            reveal_strlit(" ");
            lemma_join_push(parts.take(i as int), " "@, parts[i as int]);
            assert(parts.take(i as int).push(parts[i as int]) =~= parts.take(i + 1));
        }
        if i > 0 {
            s.push(' ');
        }
        push_hex_padded(&mut s, data[i] as u64, 2);
        i = i + 1;
    }
    s.append("\"");
    proof {
        assert(parts.take(i as int) =~= parts);
        assert(s@ =~= summary_text(data@, ts_sec as int, ts_usec as int));
    }
    s
}

} // verus!
