use packet_inspect::ethernet::{analyze_frame_control, EtherType, EthernetError, EthernetFrame, MacAddress};
use packet_inspect::frame_control::{ControlField, FrameControlInfo, ProtocolType};
use packet_inspect::ipv4::{IPv4Error, IPv4Packet};
use packet_inspect::ipv6::{IPv6Error, IPv6Packet};

fn ipv4_header() -> Vec<u8> {
    vec![
        0x45, 0x00, 0x00, 0x3c, 0x1c, 0x46, 0x40, 0x00, 0x40, 0x06, 0xb1, 0xe6, 0xc0, 0xa8, 0x00,
        0x68, 0xc0, 0xa8, 0x00, 0x01,
    ]
}

fn ipv6_header(src: [u8; 16], dst: [u8; 16]) -> Vec<u8> {
    let mut v = vec![0x60, 0x00, 0x00, 0x00, 0x00, 0x20, 0x06, 0x40];
    v.extend_from_slice(&src);
    v.extend_from_slice(&dst);
    v
}

fn ethernet_header(ether_type: [u8; 2]) -> Vec<u8> {
    vec![
        0xff, 0xff, 0xff, 0xff, 0xff, 0xff, 0x00, 0x1a, 0x2b, 0x3c, 0x4d, 0x5e, ether_type[0],
        ether_type[1],
    ]
}

fn names(fields: &[ControlField]) -> Vec<String> {
    fields.iter().map(|f| f.name.clone()).collect()
}

fn value_of(fields: &[ControlField], name: &str) -> (String, String) {
    let f = fields.iter().find(|f| f.name == name).unwrap();
    (f.value.clone(), f.description.clone())
}

fn ipv6_text(addr: [u8; 16]) -> String {
    let v = ipv6_header(addr, [0; 16]);
    let p = IPv6Packet::parse(&v).unwrap();
    value_of(&p.get_control_fields(), "Source IP").0
}

#[test]
fn ethernet_short_buffers_are_too_short() {
    for n in 0..14 {
        let buf = vec![0u8; n];
        assert!(matches!(EthernetFrame::parse(&buf), Err(EthernetError::TooShort)));
    }
}

#[test]
fn ethernet_other_type_gives_three_fields() {
    for n in 14..80 {
        let mut buf = ethernet_header([0x08, 0x06]);
        buf.resize(n, 0x45);
        let frame = EthernetFrame::parse(&buf).unwrap();
        let info = frame.get_frame_control();
        assert!(matches!(info.protocol_type, ProtocolType::Ethernet));
        assert_eq!(names(&info.control_fields), vec!["Source MAC", "Destination MAC", "EtherType"]);
    }
}

#[test]
fn mac_address_renders_lower_case_hex() {
    let mac = MacAddress([0x00, 0x1a, 0x2b, 0x3c, 0x4d, 0x5e]);
    assert_eq!(mac.to_string(), "00:1a:2b:3c:4d:5e");
    let mac = MacAddress([0xff, 0x00, 0x0a, 0xa0, 0x01, 0x10]);
    assert_eq!(mac.to_string(), "ff:00:0a:a0:01:10");
}

#[test]
fn ethernet_accessors_read_fixed_offsets() {
    let mut buf = ethernet_header([0x86, 0xdd]);
    buf.extend_from_slice(&[1, 2, 3]);
    let frame = EthernetFrame::parse(&buf).unwrap();
    assert_eq!(frame.dest_mac().0, [0xff; 6]);
    assert_eq!(frame.src_mac().0, [0x00, 0x1a, 0x2b, 0x3c, 0x4d, 0x5e]);
    assert_eq!(frame.ether_type().0, 0x86dd);
    assert_eq!(frame.payload(), &[1u8, 2, 3][..]);
    let bare = ethernet_header([0x86, 0xdd]);
    assert_eq!(EthernetFrame::parse(&bare).unwrap().payload().len(), 0);
}

#[test]
fn ethernet_with_ipv4_gives_ethernet_then_ipv4_fields() {
    let mut buf = ethernet_header([0x08, 0x00]);
    buf.extend_from_slice(&ipv4_header());
    let info = EthernetFrame::parse(&buf).unwrap().get_frame_control();
    assert_eq!(
        names(&info.control_fields),
        vec![
            "Source MAC", "Destination MAC", "EtherType", "IP Version", "Header Length", "DSCP",
            "ECN", "Total Length", "Identification", "Flags", "Fragment Offset", "TTL",
            "Protocol", "Checksum", "Source IP", "Destination IP",
        ]
    );
    let (v, d) = value_of(&info.control_fields, "EtherType");
    assert_eq!((v.as_str(), d.as_str()), ("0x0800", "IPv4"));
    let (v, _) = value_of(&info.control_fields, "Source MAC");
    assert_eq!(v, "00:1a:2b:3c:4d:5e");
    let (v, _) = value_of(&info.control_fields, "Destination MAC");
    assert_eq!(v, "ff:ff:ff:ff:ff:ff");
}

#[test]
fn ethernet_with_ipv6_gives_ethernet_then_ipv6_fields() {
    let mut buf = ethernet_header([0x86, 0xdd]);
    buf.extend_from_slice(&ipv6_header([0; 16], [0; 16]));
    let info = EthernetFrame::parse(&buf).unwrap().get_frame_control();
    assert_eq!(info.control_fields.len(), 11);
    assert_eq!(info.control_fields[3].name, "IP Version");
    assert_eq!(info.control_fields[3].value, "6");
    assert_eq!(info.control_fields[10].name, "Destination IP");
}

#[test]
fn ethernet_with_bad_inner_header_keeps_three_fields() {
    let mut buf = ethernet_header([0x08, 0x00]);
    buf.extend_from_slice(&[0x45; 19]);
    let info = EthernetFrame::parse(&buf).unwrap().get_frame_control();
    assert_eq!(info.control_fields.len(), 3);
    let mut buf = ethernet_header([0x86, 0xdd]);
    buf.extend_from_slice(&ipv4_header());
    buf.extend_from_slice(&ipv4_header());
    let info = EthernetFrame::parse(&buf).unwrap().get_frame_control();
    assert_eq!(info.control_fields.len(), 3);
}

#[test]
fn ether_type_descriptions() {
    let cases: [(u16, &str); 6] = [
        (0x0800, "IPv4"),
        (0x0806, "ARP"),
        (0x86dd, "IPv6"),
        (0x8100, "VLAN"),
        (0x88cc, "LLDP"),
        (0x1234, "Unknown (0x1234)"),
    ];
    for (code, text) in cases {
        assert_eq!(EtherType(code).get_protocol_description(), text);
    }
    assert_eq!(EtherType(0x0042).get_protocol_description(), "Unknown (0x0042)");
    assert_eq!(EtherType(0x0800).to_string(), "0x0800");
    assert_eq!(EtherType(0xabcd).to_string(), "0xabcd");
}

#[test]
fn vlan_frame_is_not_unwrapped() {
    let mut buf = ethernet_header([0x81, 0x00]);
    buf.extend_from_slice(&[0x00, 0x64, 0x08, 0x00]);
    buf.extend_from_slice(&ipv4_header());
    let info = EthernetFrame::parse(&buf).unwrap().get_frame_control();
    assert_eq!(info.control_fields.len(), 3);
    assert_eq!(info.control_fields[2].description, "VLAN");
}

#[test]
fn ipv4_minimal_header_parses() {
    let buf = ipv4_header();
    let p = IPv4Packet::parse(&buf).unwrap();
    assert_eq!(p.header_length(), 20);
    assert_eq!(p.version(), 4);
}

#[test]
fn ipv4_short_ihl_is_invalid_header_length() {
    let mut buf = ipv4_header();
    buf[0] = 0x44;
    assert!(matches!(IPv4Packet::parse(&buf), Err(IPv4Error::InvalidHeaderLength)));
}

#[test]
fn ipv4_version_five_is_invalid_version() {
    let mut buf = ipv4_header();
    buf[0] = 0x55;
    assert!(matches!(IPv4Packet::parse(&buf), Err(IPv4Error::InvalidVersion)));
}

#[test]
fn ipv4_too_short() {
    let buf = ipv4_header();
    assert!(matches!(IPv4Packet::parse(&buf[..19]), Err(IPv4Error::TooShort)));
    assert!(matches!(IPv4Packet::parse(&[]), Err(IPv4Error::TooShort)));
}

#[test]
fn ipv4_header_longer_than_buffer_is_invalid_header_length() {
    let mut buf = ipv4_header();
    buf[0] = 0x46;
    assert!(matches!(IPv4Packet::parse(&buf), Err(IPv4Error::InvalidHeaderLength)));
    buf.extend_from_slice(&[0, 0, 0, 0]);
    let p = IPv4Packet::parse(&buf).unwrap();
    assert_eq!(p.header_length(), 24);
}

#[test]
fn ipv4_accessors_and_field_values() {
    let mut buf = ipv4_header();
    buf[1] = 0xb9;
    buf[6] = 0x5f;
    buf[7] = 0xa0;
    let p = IPv4Packet::parse(&buf).unwrap();
    assert_eq!(p.dscp(), 0x2e);
    assert_eq!(p.ecn(), 1);
    assert_eq!(p.total_length(), 60);
    assert_eq!(p.identification(), 0x1c46);
    assert_eq!(p.flags(), 2);
    assert_eq!(p.fragment_offset(), 0x1fa0);
    assert_eq!(p.ttl(), 64);
    assert_eq!(p.protocol(), 6);
    assert_eq!(p.checksum(), 0xb1e6);
    assert_eq!(p.source_ip(), [192, 168, 0, 104]);
    assert_eq!(p.destination_ip(), [192, 168, 0, 1]);
    let fields = p.get_control_fields();
    let got: Vec<(String, String, String)> = fields
        .iter()
        .map(|f| (f.name.clone(), f.value.clone(), f.description.clone()))
        .collect();
    let want: Vec<(&str, &str, &str)> = vec![
        ("IP Version", "4", "Internet Protocol version"),
        ("Header Length", "20", "IP header length in bytes"),
        ("DSCP", "46", "Differentiated Services Code Point"),
        ("ECN", "1", "Explicit Congestion Notification"),
        ("Total Length", "60", "Total packet length in bytes"),
        ("Identification", "0x1c46", "Packet identification for fragmentation"),
        ("Flags", "0x02", "Don't Fragment"),
        ("Fragment Offset", "8096", "Fragment offset in 8-byte units"),
        ("TTL", "64", "Time to Live"),
        ("Protocol", "6", "TCP"),
        ("Checksum", "0xb1e6", "Header checksum"),
        ("Source IP", "192.168.0.104", "Source IP address"),
        ("Destination IP", "192.168.0.1", "Destination IP address"),
    ];
    assert_eq!(got.len(), want.len());
    for (g, w) in got.iter().zip(want.iter()) {
        assert_eq!((g.0.as_str(), g.1.as_str(), g.2.as_str()), *w);
    }
}

fn ipv4_with(byte: usize, value: u8) -> Vec<u8> {
    let mut buf = ipv4_header();
    buf[byte] = value;
    buf
}

#[test]
fn ipv4_flags_descriptions() {
    let cases: [(u8, &str); 8] = [
        (0x00, "None"),
        (0x20, "More Fragments"),
        (0x40, "Don't Fragment"),
        (0x60, "More Fragments, Don't Fragment"),
        (0x80, "Reserved"),
        (0xa0, "More Fragments, Reserved"),
        (0xc0, "Don't Fragment, Reserved"),
        (0xff, "More Fragments, Don't Fragment, Reserved"),
    ];
    for (b6, text) in cases {
        let buf = ipv4_with(6, b6);
        let p = IPv4Packet::parse(&buf).unwrap();
        assert_eq!(p.get_flags_description(), text);
        assert_eq!(p.get_flags_description(), p.get_flags_description());
    }
}

#[test]
fn ipv4_protocol_names() {
    let cases: [(u8, &str); 6] = [
        (1, "ICMP"),
        (2, "IGMP"),
        (6, "TCP"),
        (17, "UDP"),
        (99, "Unknown (99)"),
        (0, "Unknown (0)"),
    ];
    for (proto, name) in cases {
        let buf = ipv4_with(9, proto);
        assert_eq!(IPv4Packet::parse(&buf).unwrap().get_protocol_name(), name);
    }
    let buf = ipv4_with(9, 255);
    let p = IPv4Packet::parse(&buf).unwrap();
    assert_eq!(value_of(&p.get_control_fields(), "Protocol"), ("255".to_string(), "Unknown (255)".to_string()));
}

#[test]
fn control_fields_are_the_same_on_every_call() {
    let buf = ipv4_header();
    let p = IPv4Packet::parse(&buf).unwrap();
    let a = p.get_control_fields();
    let b = p.get_control_fields();
    assert_eq!(a.len(), b.len());
    for (x, y) in a.iter().zip(b.iter()) {
        assert_eq!((&x.name, &x.value, &x.description), (&y.name, &y.value, &y.description));
    }
    let v6 = ipv6_header([0x20, 0x01, 0x0d, 0xb8, 0, 0, 0, 0, 0, 0, 0, 0, 0, 0, 0, 1], [0; 16]);
    let q = IPv6Packet::parse(&v6).unwrap();
    let a: Vec<String> = q.get_control_fields().iter().map(|f| f.to_string()).collect();
    let b: Vec<String> = q.get_control_fields().iter().map(|f| f.to_string()).collect();
    assert_eq!(a, b);
}

#[test]
fn ipv6_minimal_header_parses() {
    let buf = ipv6_header([0; 16], [0; 16]);
    let p = IPv6Packet::parse(&buf).unwrap();
    assert_eq!(p.version(), 6);
    assert!(matches!(IPv6Packet::parse(&buf[..39]), Err(IPv6Error::TooShort)));
}

#[test]
fn ipv6_wrong_version() {
    let mut buf = ipv6_header([0; 16], [0; 16]);
    buf[0] = 0x45;
    assert!(matches!(IPv6Packet::parse(&buf), Err(IPv6Error::InvalidVersion)));
}

#[test]
fn ipv6_split_fields() {
    let mut buf = ipv6_header([0; 16], [0; 16]);
    buf[0] = 0x6a;
    buf[1] = 0xbc;
    buf[2] = 0xde;
    buf[3] = 0xf0;
    buf[4] = 0x01;
    buf[5] = 0x02;
    buf[6] = 58;
    buf[7] = 255;
    let p = IPv6Packet::parse(&buf).unwrap();
    assert_eq!(p.traffic_class(), 0xab);
    assert_eq!(p.flow_label(), 0xcdef0);
    assert_eq!(p.payload_length(), 258);
    assert_eq!(p.next_header(), 58);
    assert_eq!(p.hop_limit(), 255);
    let fields = p.get_control_fields();
    assert_eq!(
        names(&fields),
        vec![
            "IP Version", "Traffic Class", "Flow Label", "Payload Length", "Next Header",
            "Hop Limit", "Source IP", "Destination IP",
        ]
    );
    assert_eq!(fields[1].value, "0xab");
    assert_eq!(fields[2].value, "0xcdef0");
    assert_eq!(fields[3].value, "258");
    assert_eq!((fields[4].value.as_str(), fields[4].description.as_str()), ("58", "ICMPv6"));
    assert_eq!(fields[5].description, "Hop limit (similar to IPv4 TTL)");
    buf[1] = 0x00;
    buf[2] = 0x00;
    buf[3] = 0x0a;
    let p = IPv6Packet::parse(&buf).unwrap();
    assert_eq!(p.get_control_fields()[2].value, "0x0000a");
    assert_eq!(p.get_control_fields()[1].value, "0xa0");
}

#[test]
fn ipv6_next_header_names() {
    let cases: [(u8, &str); 13] = [
        (0, "Hop-by-Hop Options"),
        (1, "ICMP"),
        (6, "TCP"),
        (17, "UDP"),
        (43, "Routing"),
        (44, "Fragment"),
        (50, "ESP"),
        (51, "AH"),
        (58, "ICMPv6"),
        (59, "No Next Header"),
        (60, "Destination Options"),
        (2, "Unknown (2)"),
        (200, "Unknown (200)"),
    ];
    for (code, name) in cases {
        let mut buf = ipv6_header([0; 16], [0; 16]);
        buf[6] = code;
        assert_eq!(IPv6Packet::parse(&buf).unwrap().get_next_header_name(), name);
    }
}

#[test]
fn ipv6_addresses_render_compressed() {
    let mut a = [0u8; 16];
    assert_eq!(ipv6_text(a), "::");
    a[15] = 1;
    assert_eq!(ipv6_text(a), "::1");
    let doc = [0x20, 0x01, 0x0d, 0xb8, 0, 0, 0, 0, 0, 0, 0, 0, 0, 0, 0, 1];
    assert_eq!(ipv6_text(doc), "2001:db8::1");
    let tail = [0x20, 0x01, 0x0d, 0xb8, 0, 0, 0, 0, 0, 0, 0, 0, 0, 0, 0, 0];
    assert_eq!(ipv6_text(tail), "2001:db8::");
    let longest = [0xfe, 0x80, 0, 0, 0, 0, 0, 0, 0, 1, 0, 0, 0, 0, 0, 2];
    assert_eq!(ipv6_text(longest), "fe80::1:0:0:2");
    let tie = [0, 1, 0, 0, 0, 0, 0, 2, 0, 0, 0, 0, 0, 3, 0, 4];
    assert_eq!(ipv6_text(tie), "1::2:0:0:3:4");
    let single = [0, 1, 0, 0, 0, 2, 0, 3, 0, 4, 0, 5, 0, 6, 0, 7];
    assert_eq!(ipv6_text(single), "1:0:2:3:4:5:6:7");
    let full = [0x12, 0x34, 0xab, 0xcd, 0x00, 0x10, 0xff, 0xff, 0x0f, 0x00, 0x00, 0xf0, 0xa0, 0x0a, 0x00, 0x01];
    assert_eq!(ipv6_text(full), "1234:abcd:10:ffff:f00:f0:a00a:1");
    let mapped = [0, 0, 0, 0, 0, 0, 0, 0, 0, 0, 0xff, 0xff, 192, 0, 2, 1];
    assert_eq!(ipv6_text(mapped), "::ffff:192.0.2.1");
    let compatible = [0, 0, 0, 0, 0, 0, 0, 0, 0, 0, 0, 0, 192, 0, 2, 1];
    assert_eq!(ipv6_text(compatible), "::c000:201");
}

#[test]
fn frame_control_info_renders_lines() {
    let info = FrameControlInfo {
        protocol_type: ProtocolType::Ethernet,
        control_fields: vec![
            ControlField::new("TTL".to_string(), "64".to_string(), "Time to Live".to_string()),
            ControlField::new("A".to_string(), "b".to_string(), "c".to_string()),
        ],
    };
    assert_eq!(info.to_string(), "Protocol: Ethernet\n  TTL: 64 (Time to Live)\n  A: b (c)\n");
    assert_eq!(info.control_fields[0].to_string(), "TTL: 64");
    let empty = FrameControlInfo { protocol_type: ProtocolType::Other("ARP".to_string()), control_fields: vec![] };
    assert_eq!(empty.to_string(), "Protocol: ARP\n");
    assert_eq!(ProtocolType::IPv6.name(), "IPv6");
}

#[test]
fn analyze_frame_control_declines_short_frames() {
    assert!(analyze_frame_control(&[0u8; 13]).is_none());
    let mut buf = ethernet_header([0x08, 0x00]);
    buf.extend_from_slice(&ipv4_header());
    let info = analyze_frame_control(&buf).unwrap();
    assert_eq!(info.control_fields.len(), 16);
    let text = info.to_string();
    assert!(text.starts_with("Protocol: Ethernet\n  Source MAC: 00:1a:2b:3c:4d:5e (Source hardware address)\n"));
    assert!(text.ends_with("  Destination IP: 192.168.0.1 (Destination IP address)\n"));
}

#[test]
fn decoder_error_messages() {
    assert_eq!(EthernetError::TooShort.message(), "Packet too short for Ethernet frame");
    assert_eq!(EthernetError::InvalidFormat.message(), "Invalid Ethernet frame format");
    assert_eq!(IPv4Error::TooShort.message(), "Packet too short for IPv4 header");
    assert_eq!(IPv4Error::InvalidVersion.message(), "Invalid IP version");
    assert_eq!(IPv4Error::InvalidHeaderLength.message(), "Invalid IPv4 header length");
    assert_eq!(IPv6Error::TooShort.message(), "Packet too short for IPv6 header");
    assert_eq!(IPv6Error::InvalidVersion.message(), "Invalid IP version");
}
