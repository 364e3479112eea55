//! The IPv4 header decoder.

use vstd::prelude::*;
use crate::addr::{be16, ipv4_string, ipv4_text, lemma_byte_bits, read_be16};
use crate::frame_control::{fields_view, ControlField, FieldText};
use crate::text::{dec_digits, dec_string, hex_string, hex_text, join, lemma_join_push, push_dec, text};

verus! {

/// The shortest IPv4 header, in bytes.
pub const IPV4_MIN_HEADER: usize = 20;

/// Why a buffer is not an IPv4 header.
#[derive(Debug, PartialEq, Eq, Clone, Copy)]
pub enum IPv4Error {
    /// Fewer than 20 bytes.
    TooShort,
    /// The version nibble is not 4.
    InvalidVersion,
    /// The header length is under 20 bytes, or longer than the buffer.
    InvalidHeaderLength,
}

impl IPv4Error {
    /// A sentence saying what is wrong.
    pub fn message(&self) -> (r: String)
        ensures
            r@ == match *self {
                IPv4Error::TooShort => "Packet too short for IPv4 header"@,
                IPv4Error::InvalidVersion => "Invalid IP version"@,
                IPv4Error::InvalidHeaderLength => "Invalid IPv4 header length"@,
            },
    {
        match self {
            IPv4Error::TooShort => text("Packet too short for IPv4 header"),
            IPv4Error::InvalidVersion => text("Invalid IP version"),
            IPv4Error::InvalidHeaderLength => text("Invalid IPv4 header length"),
        }
    }
}

/// The version nibble (high half of byte 0).
pub open spec fn ipv4_version(b: Seq<u8>) -> nat {
    b[0] as nat / 16
}

/// The header length field (low half of byte 0), in 4-byte words.
pub open spec fn ipv4_ihl(b: Seq<u8>) -> nat {
    b[0] as nat % 16
}

/// Whether `b` starts with an IPv4 header that this decoder accepts.
pub open spec fn ipv4_valid(b: Seq<u8>) -> bool {
    &&& b.len() >= 20
    &&& ipv4_version(b) == 4
    &&& ipv4_ihl(b) >= 5
    &&& ipv4_ihl(b) * 4 <= b.len()
}

/// The error for a buffer that `ipv4_valid` rejects, the first check that fails.
pub open spec fn ipv4_error(b: Seq<u8>) -> IPv4Error {
    if b.len() < 20 {
        IPv4Error::TooShort
    } else if ipv4_version(b) != 4 {
        IPv4Error::InvalidVersion
    } else {
        IPv4Error::InvalidHeaderLength
    }
}

/// The 3-bit flags field (top of byte 6).
pub open spec fn ipv4_flags(b: Seq<u8>) -> nat {
    b[6] as nat / 32
}

/// The 13-bit fragment offset (low 5 bits of byte 6, then byte 7).
pub open spec fn ipv4_fragment_offset(b: Seq<u8>) -> nat {
    (b[6] as nat % 32) * 256 + b[7] as nat
}

/// The name of an IP protocol number.
pub open spec fn ipv4_protocol_name(p: nat) -> Seq<char> {
    if p == 1 {
        "ICMP"@
    } else if p == 2 {
        "IGMP"@
    } else if p == 6 {
        "TCP"@
    } else if p == 17 {
        "UDP"@
    } else {
        "Unknown ("@ + dec_digits(p) + ")"@
    }
}

/// The labels of the flag bits that are set: bit 0, then bit 1, then bit 2.
pub open spec fn flag_labels(f: nat) -> Seq<Seq<char>> {
    (if f % 2 == 1 { seq!["More Fragments"@] } else { seq![] })
    + (if (f / 2) % 2 == 1 { seq!["Don't Fragment"@] } else { seq![] })
    + (if (f / 4) % 2 == 1 { seq!["Reserved"@] } else { seq![] })
}

/// The labels of the set flag bits joined by `, `, or `None` when none is set.
pub open spec fn flags_description(f: nat) -> Seq<char> {
    if flag_labels(f).len() == 0 {
        "None"@
    } else {
        join(flag_labels(f), ", "@)
    }
}

/// The fields of an IPv4 header, in header order.
pub open spec fn ipv4_fields(b: Seq<u8>) -> Seq<FieldText> {
    seq![
        ("IP Version"@, dec_digits(ipv4_version(b)), "Internet Protocol version"@),
        ("Header Length"@, dec_digits(ipv4_ihl(b) * 4), "IP header length in bytes"@),
        ("DSCP"@, dec_digits(b[1] as nat / 4), "Differentiated Services Code Point"@),
        ("ECN"@, dec_digits(b[1] as nat % 4), "Explicit Congestion Notification"@),
        ("Total Length"@, dec_digits(be16(b[2], b[3])), "Total packet length in bytes"@),
        ("Identification"@, hex_text(be16(b[4], b[5]), 4), "Packet identification for fragmentation"@),
        ("Flags"@, hex_text(ipv4_flags(b), 2), flags_description(ipv4_flags(b))),
        ("Fragment Offset"@, dec_digits(ipv4_fragment_offset(b)), "Fragment offset in 8-byte units"@),
        ("TTL"@, dec_digits(b[8] as nat), "Time to Live"@),
        ("Protocol"@, dec_digits(b[9] as nat), ipv4_protocol_name(b[9] as nat)),
        ("Checksum"@, hex_text(be16(b[10], b[11]), 4), "Header checksum"@),
        ("Source IP"@, ipv4_text(b.subrange(12, 16)), "Source IP address"@),
        ("Destination IP"@, ipv4_text(b.subrange(16, 20)), "Destination IP address"@),
    ]
}

/// A read-only view of an IPv4 header at the start of a buffer.
pub struct IPv4Packet<'a> {
    data: &'a [u8],
}

impl<'a> View for IPv4Packet<'a> {
    type V = Seq<u8>;

    closed spec fn view(&self) -> Seq<u8> {
        self.data@
    }
}

impl<'a> IPv4Packet<'a> {
    #[verifier::type_invariant]
    spec fn inv(&self) -> bool {
        ipv4_valid(self.data@)
    }

    /// Checks that `data` starts with an IPv4 header and views it as one.
    pub fn parse(data: &'a [u8]) -> (r: Result<IPv4Packet<'a>, IPv4Error>)
        ensures
            r is Ok <==> ipv4_valid(data@),
            r matches Ok(p) ==> p@ == data@,
            r matches Err(e) ==> e == ipv4_error(data@),
    {
        if data.len() < IPV4_MIN_HEADER {
            return Err(IPv4Error::TooShort);
        }
        proof {
            lemma_byte_bits(data[0]);
        }
        let version = (data[0] & 0xF0) >> 4;
        if version != 4 {
            return Err(IPv4Error::InvalidVersion);
        }
        let ihl = data[0] & 0x0F;
        if ihl < 5 || (ihl as usize) * 4 > data.len() {
            return Err(IPv4Error::InvalidHeaderLength);
        }
        Ok(IPv4Packet { data })
    }

    /// The IP version (high half of byte 0).
    pub fn version(&self) -> (r: u8)
        ensures
            r as nat == ipv4_version(self@),
    {
        proof {
            use_type_invariant(self);
            lemma_byte_bits(self.data[0]);
        }
        (self.data[0] & 0xF0) >> 4
    }

    /// The header length in bytes.
    pub fn header_length(&self) -> (r: u8)
        ensures
            r as nat == ipv4_ihl(self@) * 4,
    {
        proof {
            use_type_invariant(self);
            lemma_byte_bits(self.data[0]);
        }
        (self.data[0] & 0x0F) * 4
    }

    /// The differentiated services code point (top six bits of byte 1).
    pub fn dscp(&self) -> (r: u8)
        ensures
            r as nat == self@[1] as nat / 4,
    {
        proof {
            use_type_invariant(self);
            lemma_byte_bits(self.data[1]);
        }
        (self.data[1] & 0xFC) >> 2
    }

    /// The congestion notification bits (low two bits of byte 1).
    pub fn ecn(&self) -> (r: u8)
        ensures
            r as nat == self@[1] as nat % 4,
    {
        proof {
            use_type_invariant(self);
            lemma_byte_bits(self.data[1]);
        }
        self.data[1] & 0x03
    }

    /// The total packet length in bytes (bytes 2 and 3).
    pub fn total_length(&self) -> (r: u16)
        ensures
            r as nat == be16(self@[2], self@[3]),
    {
        proof { use_type_invariant(self); }
        read_be16(self.data[2], self.data[3])
    }

    /// The identification used in fragmentation (bytes 4 and 5).
    pub fn identification(&self) -> (r: u16)
        ensures
            r as nat == be16(self@[4], self@[5]),
    {
        proof { use_type_invariant(self); }
        read_be16(self.data[4], self.data[5])
    }

    /// The three flag bits (top of byte 6).
    pub fn flags(&self) -> (r: u8)
        ensures
            r as nat == ipv4_flags(self@),
    {
        proof {
            use_type_invariant(self);
            lemma_byte_bits(self.data[6]);
        }
        (self.data[6] & 0xE0) >> 5
    }

    /// The fragment offset in 8-byte units (13 bits from byte 6).
    pub fn fragment_offset(&self) -> (r: u16)
        ensures
            r as nat == ipv4_fragment_offset(self@),
    {
        proof {
            use_type_invariant(self);
            lemma_byte_bits(self.data[6]);
        }
        read_be16(self.data[6] & 0x1F, self.data[7])
    }

    /// The time to live (byte 8).
    pub fn ttl(&self) -> (r: u8)
        ensures
            r == self@[8],
    {
        proof { use_type_invariant(self); }
        self.data[8]
    }

    /// The protocol number of the payload (byte 9).
    pub fn protocol(&self) -> (r: u8)
        ensures
            r == self@[9],
    {
        proof { use_type_invariant(self); }
        self.data[9]
    }

    /// The header checksum as stored (bytes 10 and 11); never checked.
    pub fn checksum(&self) -> (r: u16)
        ensures
            r as nat == be16(self@[10], self@[11]),
    {
        proof { use_type_invariant(self); }
        read_be16(self.data[10], self.data[11])
    }

    /// The four bytes of the source address.
    pub fn source_ip(&self) -> (r: [u8; 4])
        ensures
            r@ == self@.subrange(12, 16),
    {
        proof { use_type_invariant(self); }
        let r = [self.data[12], self.data[13], self.data[14], self.data[15]];
        assert(r@ =~= self@.subrange(12, 16));
        r
    }

    /// The four bytes of the destination address.
    pub fn destination_ip(&self) -> (r: [u8; 4])
        ensures
            r@ == self@.subrange(16, 20),
    {
        proof { use_type_invariant(self); }
        let r = [self.data[16], self.data[17], self.data[18], self.data[19]];
        assert(r@ =~= self@.subrange(16, 20));
        r
    }

    /// The name of the protocol carried, or `Unknown (<number>)`.
    pub fn get_protocol_name(&self) -> (r: String)
        ensures
            r@ == ipv4_protocol_name(self@[9] as nat),
    {
        let p = self.protocol();
        match p {
            1 => text("ICMP"),
            2 => text("IGMP"),
            6 => text("TCP"),
            17 => text("UDP"),
            _ => {
                let mut s = text("Unknown (");
                push_dec(&mut s, p as u64);
                s.append(")");
                s
            },
        }
    }

    /// The set flags, named and joined by `, `, or `None`.
    pub fn get_flags_description(&self) -> (r: String)
        ensures
            r@ == flags_description(ipv4_flags(self@)),
    {
        let flags = self.flags();
        let ghost f = flags as nat;
        let mut s = String::new();
        let mut any = false;
        let ghost mut labels: Seq<Seq<char>> = seq![];
        proof {
            lemma_byte_bits(flags);
            reveal_strlit(", ");
        }
        if flags & 0x01 != 0 {
            proof {
                lemma_join_push(labels, ", "@, "More Fragments"@);
                labels = labels.push("More Fragments"@);
            }
            s.append("More Fragments");
            any = true;
        }
        if flags & 0x02 != 0 {
            proof {
                lemma_join_push(labels, ", "@, "Don't Fragment"@);
            }
            if any {
                s.append(", ");
            }
            proof {
                labels = labels.push("Don't Fragment"@);
            }
            s.append("Don't Fragment");
            any = true;
        }
        if flags & 0x04 != 0 {
            proof {
                lemma_join_push(labels, ", "@, "Reserved"@);
            }
            if any {
                s.append(", ");
            }
            proof {
                labels = labels.push("Reserved"@);
            }
            s.append("Reserved");
            any = true;
        }
        assert(labels =~= flag_labels(f));
        if !any {
            text("None")
        } else {
            s
        }
    }

    /// The header's fields in header order: version, header length, DSCP, ECN,
    /// total length, identification, flags, fragment offset, TTL, protocol,
    /// checksum, source and destination address.
    pub fn get_control_fields(&self) -> (r: Vec<ControlField>)
        ensures
            fields_view(r@) == ipv4_fields(self@),
    {
        let src = self.source_ip();
        let dst = self.destination_ip();
        let mut v: Vec<ControlField> = Vec::new();
        v.push(ControlField::new(
            text("IP Version"),
            dec_string(self.version() as u64),
            text("Internet Protocol version"),
        ));
        v.push(ControlField::new(
            text("Header Length"),
            dec_string(self.header_length() as u64),
            text("IP header length in bytes"),
        ));
        v.push(ControlField::new(
            text("DSCP"),
            dec_string(self.dscp() as u64),
            text("Differentiated Services Code Point"),
        ));
        v.push(ControlField::new(
            text("ECN"),
            dec_string(self.ecn() as u64),
            text("Explicit Congestion Notification"),
        ));
        v.push(ControlField::new(
            text("Total Length"),
            dec_string(self.total_length() as u64),
            text("Total packet length in bytes"),
        ));
        v.push(ControlField::new(
            text("Identification"),
            hex_string(self.identification() as u64, 4),
            text("Packet identification for fragmentation"),
        ));
        v.push(ControlField::new(
            text("Flags"),
            hex_string(self.flags() as u64, 2),
            self.get_flags_description(),
        ));
        v.push(ControlField::new(
            text("Fragment Offset"),
            dec_string(self.fragment_offset() as u64),
            text("Fragment offset in 8-byte units"),
        ));
        v.push(ControlField::new(
            text("TTL"),
            dec_string(self.ttl() as u64),
            text("Time to Live"),
        ));
        v.push(ControlField::new(
            text("Protocol"),
            dec_string(self.protocol() as u64),
            self.get_protocol_name(),
        ));
        v.push(ControlField::new(
            text("Checksum"),
            hex_string(self.checksum() as u64, 4),
            text("Header checksum"),
        ));
        v.push(ControlField::new(
            text("Source IP"),
            ipv4_string(&src),
            text("Source IP address"),
        ));
        v.push(ControlField::new(
            text("Destination IP"),
            ipv4_string(&dst),
            text("Destination IP address"),
        ));
        assert(fields_view(v@) =~= ipv4_fields(self@));
        v
    }
}

} // verus!
