//! The IPv6 header decoder.

use vstd::prelude::*;
use crate::addr::{be16, ipv6_string, ipv6_text, lemma_byte_bits, read_be16};
use crate::frame_control::{fields_view, ControlField, FieldText};
use crate::text::{dec_digits, dec_string, hex_string, hex_text, push_dec, text};

verus! {

/// The length of the fixed IPv6 header, in bytes.
pub const IPV6_HEADER_LEN: usize = 40;

/// Why a buffer is not an IPv6 header.
#[derive(Debug, PartialEq, Eq, Clone, Copy)]
pub enum IPv6Error {
    /// Fewer than 40 bytes.
    TooShort,
    /// The version nibble is not 6.
    InvalidVersion,
}

impl IPv6Error {
    /// A sentence saying what is wrong.
    pub fn message(&self) -> (r: String)
        ensures
            r@ == match *self {
                IPv6Error::TooShort => "Packet too short for IPv6 header"@,
                IPv6Error::InvalidVersion => "Invalid IP version"@,
            },
    {
        match self {
            IPv6Error::TooShort => text("Packet too short for IPv6 header"),
            IPv6Error::InvalidVersion => text("Invalid IP version"),
        }
    }
}

/// The version nibble (high half of byte 0).
pub open spec fn ipv6_version(b: Seq<u8>) -> nat {
    b[0] as nat / 16
}

/// Whether `b` starts with an IPv6 header.
pub open spec fn ipv6_valid(b: Seq<u8>) -> bool {
    b.len() >= 40 && ipv6_version(b) == 6
}

/// The error for a buffer that `ipv6_valid` rejects, the first check that fails.
pub open spec fn ipv6_error(b: Seq<u8>) -> IPv6Error {
    if b.len() < 40 {
        IPv6Error::TooShort
    } else {
        IPv6Error::InvalidVersion
    }
}

/// The 8-bit traffic class: low half of byte 0, then high half of byte 1.
pub open spec fn ipv6_traffic_class(b: Seq<u8>) -> nat {
    (b[0] as nat % 16) * 16 + b[1] as nat / 16
}

/// The 20-bit flow label: low half of byte 1, then bytes 2 and 3.
pub open spec fn ipv6_flow_label(b: Seq<u8>) -> nat {
    (b[1] as nat % 16) * 65536 + b[2] as nat * 256 + b[3] as nat
}

/// The name of a next-header code.
pub open spec fn next_header_name(n: nat) -> Seq<char> {
    if n == 0 {
        "Hop-by-Hop Options"@
    } else if n == 1 {
        "ICMP"@
    } else if n == 6 {
        "TCP"@
    } else if n == 17 {
        "UDP"@
    } else if n == 43 {
        "Routing"@
    } else if n == 44 {
        "Fragment"@
    } else if n == 50 {
        "ESP"@
    } else if n == 51 {
        "AH"@
    } else if n == 58 {
        "ICMPv6"@
    } else if n == 59 {
        "No Next Header"@
    } else if n == 60 {
        "Destination Options"@
    } else {
        "Unknown ("@ + dec_digits(n) + ")"@
    }
}

/// The fields of an IPv6 header, in header order.
pub open spec fn ipv6_fields(b: Seq<u8>) -> Seq<FieldText> {
    seq![
        ("IP Version"@, dec_digits(ipv6_version(b)), "Internet Protocol version"@),
        ("Traffic Class"@, hex_text(ipv6_traffic_class(b), 2), "Traffic class field"@),
        ("Flow Label"@, hex_text(ipv6_flow_label(b), 5), "Flow label field"@),
        ("Payload Length"@, dec_digits(be16(b[4], b[5])), "Length of the payload in bytes"@),
        ("Next Header"@, dec_digits(b[6] as nat), next_header_name(b[6] as nat)),
        ("Hop Limit"@, dec_digits(b[7] as nat), "Hop limit (similar to IPv4 TTL)"@),
        ("Source IP"@, ipv6_text(b.subrange(8, 24)), "Source IPv6 address"@),
        ("Destination IP"@, ipv6_text(b.subrange(24, 40)), "Destination IPv6 address"@),
    ]
}

proof fn lemma_split_bits(x: u8, y: u8)
    by (bit_vector)
    ensures
        ((x & 0x0F) << 4) | ((y & 0xF0) >> 4) == (x % 16) * 16 + y / 16,
{
}

proof fn lemma_flow_bits(y: u32, z: u32, w: u32)
    by (bit_vector)
    requires
        y < 256,
        z < 256,
        w < 256,
    ensures
        ((y & 0x0F) << 16) | (z << 8) | w == (y % 16) * 65536 + z * 256 + w,
{
}

/// A read-only view of an IPv6 header at the start of a buffer.
pub struct IPv6Packet<'a> {
    data: &'a [u8],
}

impl<'a> View for IPv6Packet<'a> {
    type V = Seq<u8>;

    closed spec fn view(&self) -> Seq<u8> {
        self.data@
    }
}

impl<'a> IPv6Packet<'a> {
    #[verifier::type_invariant]
    spec fn inv(&self) -> bool {
        ipv6_valid(self.data@)
    }

    /// Checks that `data` starts with an IPv6 header and views it as one.
    pub fn parse(data: &'a [u8]) -> (r: Result<IPv6Packet<'a>, IPv6Error>)
        ensures
            r is Ok <==> ipv6_valid(data@),
            r matches Ok(p) ==> p@ == data@,
            r matches Err(e) ==> e == ipv6_error(data@),
    {
        if data.len() < IPV6_HEADER_LEN {
            return Err(IPv6Error::TooShort);
        }
        proof {
            lemma_byte_bits(data[0]);
        }
        let version = (data[0] & 0xF0) >> 4;
        if version != 6 {
            return Err(IPv6Error::InvalidVersion);
        }
        Ok(IPv6Packet { data })
    }

    /// The IP version (high half of byte 0).
    pub fn version(&self) -> (r: u8)
        ensures
            r as nat == ipv6_version(self@),
    {
        proof {
            use_type_invariant(self);
            lemma_byte_bits(self.data[0]);
        }
        (self.data[0] & 0xF0) >> 4
    }

    /// The traffic class, split across bytes 0 and 1.
    pub fn traffic_class(&self) -> (r: u8)
        ensures
            r as nat == ipv6_traffic_class(self@),
    {
        proof {
            use_type_invariant(self);
            lemma_split_bits(self.data[0], self.data[1]);
        }
        ((self.data[0] & 0x0F) << 4) | ((self.data[1] & 0xF0) >> 4)
    }

    /// The 20-bit flow label (low half of byte 1, bytes 2 and 3).
    pub fn flow_label(&self) -> (r: u32)
        ensures
            r as nat == ipv6_flow_label(self@),
    {
        proof {
            use_type_invariant(self);
            lemma_flow_bits(self.data[1] as u32, self.data[2] as u32, self.data[3] as u32);
        }
        (((self.data[1] as u32) & 0x0F) << 16) | ((self.data[2] as u32) << 8) | (self.data[3] as u32)
    }

    /// The payload length in bytes (bytes 4 and 5).
    pub fn payload_length(&self) -> (r: u16)
        ensures
            r as nat == be16(self@[4], self@[5]),
    {
        proof { use_type_invariant(self); }
        read_be16(self.data[4], self.data[5])
    }

    /// The code of the next header (byte 6).
    pub fn next_header(&self) -> (r: u8)
        ensures
            r == self@[6],
    {
        proof { use_type_invariant(self); }
        self.data[6]
    }

    /// The hop limit (byte 7).
    pub fn hop_limit(&self) -> (r: u8)
        ensures
            r == self@[7],
    {
        proof { use_type_invariant(self); }
        self.data[7]
    }

    /// The sixteen bytes of the source address.
    pub fn source_ip(&self) -> (r: [u8; 16])
        ensures
            r@ == self@.subrange(8, 24),
    {
        proof { use_type_invariant(self); }
        let d = self.data;
        let r = [d[8], d[9], d[10], d[11], d[12], d[13], d[14], d[15], d[16], d[17], d[18], d[19], d[20], d[21], d[22], d[23]];
        assert(r@ =~= self@.subrange(8, 24));
        r
    }

    /// The sixteen bytes of the destination address.
    pub fn destination_ip(&self) -> (r: [u8; 16])
        ensures
            r@ == self@.subrange(24, 40),
    {
        proof { use_type_invariant(self); }
        let d = self.data;
        let r = [d[24], d[25], d[26], d[27], d[28], d[29], d[30], d[31], d[32], d[33], d[34], d[35], d[36], d[37], d[38], d[39]];
        assert(r@ =~= self@.subrange(24, 40));
        r
    }

    /// The name of the next header's code, or `Unknown (<number>)`.
    pub fn get_next_header_name(&self) -> (r: String)
        ensures
            r@ == next_header_name(self@[6] as nat),
    {
        let n = self.next_header();
        match n {
            0 => text("Hop-by-Hop Options"),
            1 => text("ICMP"),
            6 => text("TCP"),
            17 => text("UDP"),
            43 => text("Routing"),
            44 => text("Fragment"),
            50 => text("ESP"),
            51 => text("AH"),
            58 => text("ICMPv6"),
            59 => text("No Next Header"),
            60 => text("Destination Options"),
            _ => {
                let mut s = text("Unknown (");
                push_dec(&mut s, n as u64);
                s.append(")");
                s
            },
        }
    }

    /// The header's fields in header order: version, traffic class, flow label,
    /// payload length, next header, hop limit, source and destination address.
    pub fn get_control_fields(&self) -> (r: Vec<ControlField>)
        ensures
            fields_view(r@) == ipv6_fields(self@),
    {
        let src = self.source_ip();
        let dst = self.destination_ip();
        let mut v: Vec<ControlField> = Vec::new();
        v.push(ControlField::new(
            text("IP Version"),
            dec_string(self.version() as u64),
            text("Internet Protocol version"),
        ));
        v.push(ControlField::new(
            text("Traffic Class"),
            hex_string(self.traffic_class() as u64, 2),
            text("Traffic class field"),
        ));
        v.push(ControlField::new(
            text("Flow Label"),
            hex_string(self.flow_label() as u64, 5),
            text("Flow label field"),
        ));
        v.push(ControlField::new(
            text("Payload Length"),
            dec_string(self.payload_length() as u64),
            text("Length of the payload in bytes"),
        ));
        v.push(ControlField::new(
            text("Next Header"),
            dec_string(self.next_header() as u64),
            self.get_next_header_name(),
        ));
        v.push(ControlField::new(
            text("Hop Limit"),
            dec_string(self.hop_limit() as u64),
            text("Hop limit (similar to IPv4 TTL)"),
        ));
        v.push(ControlField::new(
            text("Source IP"),
            ipv6_string(&src),
            text("Source IPv6 address"),
        ));
        v.push(ControlField::new(
            text("Destination IP"),
            ipv6_string(&dst),
            text("Destination IPv6 address"),
        ));
        assert(fields_view(v@) =~= ipv6_fields(self@));
        v
    }
}

} // verus!
