//! The Ethernet frame decoder, which hands the payload on to the IPv4 or IPv6
//! decoder by EtherType.

use vstd::prelude::*;
use crate::addr::{be16, mac_string, mac_text, read_be16};
use crate::frame_control::{fields_view, ControlField, FieldText, FrameControlInfo, ProtocolType};
use crate::ipv4::{ipv4_fields, ipv4_valid, IPv4Packet};
use crate::ipv6::{ipv6_fields, ipv6_valid, IPv6Packet};
use crate::text::{hex_string, hex_text, push_hex_text, text};

verus! {

/// The length of the Ethernet header, in bytes.
pub const ETHERNET_HEADER_LEN: usize = 14;

/// The EtherType of IPv4.
pub const ETHERTYPE_IPV4: u16 = 0x0800;

/// The EtherType of IPv6.
pub const ETHERTYPE_IPV6: u16 = 0x86DD;

/// Why a buffer is not an Ethernet frame.
#[derive(Debug, PartialEq, Eq, Clone, Copy)]
pub enum EthernetError {
    /// Fewer than 14 bytes.
    TooShort,
    /// Not produced by this decoder, which accepts any 14 bytes or more.
    InvalidFormat,
}

impl EthernetError {
    /// A sentence saying what is wrong.
    pub fn message(&self) -> (r: String)
        ensures
            r@ == match *self {
                EthernetError::TooShort => "Packet too short for Ethernet frame"@,
                EthernetError::InvalidFormat => "Invalid Ethernet frame format"@,
            },
    {
        match self {
            EthernetError::TooShort => text("Packet too short for Ethernet frame"),
            EthernetError::InvalidFormat => text("Invalid Ethernet frame format"),
        }
    }
}

/// A 6-byte hardware address.
#[derive(Debug, Clone, Copy)]
pub struct MacAddress(pub [u8; 6]);

/// A 16-bit EtherType code.
#[derive(Debug, Clone, Copy)]
pub struct EtherType(pub u16);

/// The description of an EtherType code, or `Unknown (0x....)`.
pub open spec fn ether_type_description(t: nat) -> Seq<char> {
    if t == 0x0800 {
        "IPv4"@
    } else if t == 0x0806 {
        "ARP"@
    } else if t == 0x86DD {
        "IPv6"@
    } else if t == 0x8100 {
        "VLAN"@
    } else if t == 0x88CC {
        "LLDP"@
    } else {
        "Unknown ("@ + hex_text(t, 4) + ")"@
    }
}

/// The EtherType of a frame (bytes 12 and 13).
pub open spec fn frame_ether_type(b: Seq<u8>) -> nat {
    be16(b[12], b[13])
}

/// What follows the Ethernet header.
pub open spec fn frame_payload(b: Seq<u8>) -> Seq<u8> {
    b.subrange(14, b.len() as int)
}

/// The three fields of the Ethernet header: source, destination, EtherType.
pub open spec fn ethernet_fields(b: Seq<u8>) -> Seq<FieldText> {
    seq![
        ("Source MAC"@, mac_text(b.subrange(6, 12)), "Source hardware address"@),
        ("Destination MAC"@, mac_text(b.subrange(0, 6)), "Destination hardware address"@),
        ("EtherType"@, hex_text(frame_ether_type(b), 4), ether_type_description(frame_ether_type(b))),
    ]
}

/// The fields of the layer inside the frame: those of the IPv4 or IPv6 header
/// that the EtherType names, and none where the type is another or the payload
/// does not decode.
pub open spec fn inner_fields(t: nat, p: Seq<u8>) -> Seq<FieldText> {
    if t == 0x0800 && ipv4_valid(p) {
        ipv4_fields(p)
    } else if t == 0x86DD && ipv6_valid(p) {
        ipv6_fields(p)
    } else {
        seq![]
    }
}

/// All fields of a frame: the Ethernet header's, then those of the layer inside.
pub open spec fn frame_fields(b: Seq<u8>) -> Seq<FieldText> {
    ethernet_fields(b) + inner_fields(frame_ether_type(b), frame_payload(b))
}

impl MacAddress {
    /// Lower-case hexadecimal octets separated by colons.
    pub fn to_string(&self) -> (r: String)
        ensures
            r@ == mac_text(self.0@),
    {
        mac_string(&self.0)
    }
}

impl EtherType {
    /// `0x` and four lower-case hexadecimal digits.
    pub fn to_string(&self) -> (r: String)
        ensures
            r@ == hex_text(self.0 as nat, 4),
    {
        hex_string(self.0 as u64, 4)
    }

    /// The protocol that the code names, or `Unknown (0x....)`.
    pub fn get_protocol_description(&self) -> (r: String)
        ensures
            r@ == ether_type_description(self.0 as nat),
    {
        match self.0 {
            0x0800 => text("IPv4"),
            0x0806 => text("ARP"),
            0x86DD => text("IPv6"),
            0x8100 => text("VLAN"),
            0x88CC => text("LLDP"),
            _ => {
                let mut s = text("Unknown (");
                push_hex_text(&mut s, self.0 as u64, 4);
                s.append(")");
                s
            },
        }
    }
}

/// A read-only view of an Ethernet frame.
pub struct EthernetFrame<'a> {
    data: &'a [u8],
}

impl<'a> View for EthernetFrame<'a> {
    type V = Seq<u8>;

    closed spec fn view(&self) -> Seq<u8> {
        self.data@
    }
}

impl<'a> EthernetFrame<'a> {
    #[verifier::type_invariant]
    spec fn inv(&self) -> bool {
        self.data@.len() >= 14
    }

    /// Views `data` as an Ethernet frame; any 14 bytes or more will do.
    pub fn parse(data: &'a [u8]) -> (r: Result<EthernetFrame<'a>, EthernetError>)
        ensures
            r is Ok <==> data@.len() >= 14,
            r matches Ok(f) ==> f@ == data@,
            r matches Err(e) ==> e == EthernetError::TooShort,
    {
        if data.len() < ETHERNET_HEADER_LEN {
            return Err(EthernetError::TooShort);
        }
        Ok(EthernetFrame { data })
    }

    /// The destination address (bytes 0 to 5).
    pub fn dest_mac(&self) -> (r: MacAddress)
        ensures
            r.0@ == self@.subrange(0, 6),
    {
        proof { use_type_invariant(self); }
        let d = self.data;
        let r = MacAddress([d[0], d[1], d[2], d[3], d[4], d[5]]);
        assert(r.0@ =~= self@.subrange(0, 6));
        r
    }

    /// The source address (bytes 6 to 11).
    pub fn src_mac(&self) -> (r: MacAddress)
        ensures
            r.0@ == self@.subrange(6, 12),
    {
        proof { use_type_invariant(self); }
        let d = self.data;
        let r = MacAddress([d[6], d[7], d[8], d[9], d[10], d[11]]);
        assert(r.0@ =~= self@.subrange(6, 12));
        r
    }

    /// The EtherType (bytes 12 and 13, big-endian).
    pub fn ether_type(&self) -> (r: EtherType)
        ensures
            r.0 as nat == frame_ether_type(self@),
    {
        proof { use_type_invariant(self); }
        EtherType(read_be16(self.data[12], self.data[13]))
    }

    /// The bytes after the header; possibly none.
    pub fn payload(&self) -> (r: &'a [u8])
        ensures
            r@ == frame_payload(self@),
    {
        proof { use_type_invariant(self); }
        &self.data[ETHERNET_HEADER_LEN..self.data.len()]
    }

    /// The frame's fields: source address, destination address and EtherType,
    /// then the fields of the IPv4 or IPv6 header inside, where the EtherType
    /// names one and the payload decodes as it.
    pub fn get_frame_control(&self) -> (r: FrameControlInfo)
        ensures
            r.protocol_type is Ethernet,
            fields_view(r.control_fields@) == frame_fields(self@),
    {
        let src = self.src_mac();
        let dst = self.dest_mac();
        let etype = self.ether_type();
        let mut fields: Vec<ControlField> = Vec::new();
        fields.push(ControlField::new(
            text("Source MAC"),
            src.to_string(),
            text("Source hardware address"),
        ));
        fields.push(ControlField::new(
            text("Destination MAC"),
            dst.to_string(),
            text("Destination hardware address"),
        ));
        fields.push(ControlField::new(
            text("EtherType"),
            etype.to_string(),
            etype.get_protocol_description(),
        ));
        assert(fields_view(fields@) =~= ethernet_fields(self@));
        let payload = self.payload();
        let ghost head = fields@;
        match etype.0 {
            ETHERTYPE_IPV4 => {
                if let Ok(ipv4) = IPv4Packet::parse(payload) {
                    let mut inner = ipv4.get_control_fields();
                    fields.append(&mut inner);
                }
            },
            ETHERTYPE_IPV6 => {
                if let Ok(ipv6) = IPv6Packet::parse(payload) {
                    let mut inner = ipv6.get_control_fields();
                    fields.append(&mut inner);
                }
            },
            _ => {},
        }
        proof {
            let t = frame_ether_type(self@);
            let p = frame_payload(self@);
            assert(fields@ == head + (fields@.subrange(head.len() as int, fields@.len() as int)));
            assert(fields_view(fields@) =~= ethernet_fields(self@) + inner_fields(t, p));
        }
        FrameControlInfo { protocol_type: ProtocolType::Ethernet, control_fields: fields }
    }
}

/// Decodes a captured frame, or gives nothing where it is shorter than an
/// Ethernet header.
pub fn analyze_frame_control(data: &[u8]) -> (r: Option<FrameControlInfo>)
    ensures
        r is Some <==> data@.len() >= 14,
        r matches Some(info) ==> info.protocol_type is Ethernet
            && fields_view(info.control_fields@) == frame_fields(data@),
{
    match EthernetFrame::parse(data) {
        Ok(frame) => Some(frame.get_frame_control()),
        Err(_) => None,
    }
}

/// Decoding depends on the bytes alone: two runs of a decoder over the same
/// bytes give the same fields, character for character.
pub proof fn lemma_decoding_repeatable(b: Seq<u8>, r1: Seq<ControlField>, r2: Seq<ControlField>)
    ensures
        fields_view(r1) == frame_fields(b) && fields_view(r2) == frame_fields(b) ==> fields_view(r1)
            == fields_view(r2),
        fields_view(r1) == ipv4_fields(b) && fields_view(r2) == ipv4_fields(b) ==> fields_view(r1)
            == fields_view(r2),
        fields_view(r1) == ipv6_fields(b) && fields_view(r2) == ipv6_fields(b) ==> fields_view(r1)
            == fields_view(r2),
{
}

/// A frame of 14 bytes or more whose EtherType is neither IPv4 nor IPv6 decodes
/// to exactly the three Ethernet fields.
pub proof fn lemma_other_ether_type_fields(b: Seq<u8>)
    requires
        b.len() >= 14,
        frame_ether_type(b) != 0x0800,
        frame_ether_type(b) != 0x86DD,
    ensures
        frame_fields(b) == ethernet_fields(b),
        frame_fields(b).len() == 3,
{
    assert(frame_fields(b) =~= ethernet_fields(b));
}

/// A frame of EtherType 0x0800 followed by an IPv4 header of the minimal
/// length (first byte 0x45) decodes to the three Ethernet fields followed by
/// the thirteen IPv4 fields, in that order.
pub proof fn lemma_ipv4_frame_fields(b: Seq<u8>)
    requires
        b.len() >= 34,
        b[12] == 0x08,
        b[13] == 0x00,
        b[14] == 0x45,
    ensures
        frame_fields(b) == ethernet_fields(b) + ipv4_fields(frame_payload(b)),
        frame_fields(b).len() == 16,
{
    let p = frame_payload(b);
    assert(p[0] == 0x45);
    assert(ipv4_valid(p));
}

} // verus!
