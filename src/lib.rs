//! Decoding of captured link-layer frames into ordered lists of named
//! header fields: Ethernet, with IPv4 and IPv6 beneath it.

pub mod text;
pub mod frame_control;
pub mod addr;
pub mod ipv4;
pub mod ipv6;
pub mod ethernet;
pub mod error;
pub mod capture;
pub mod summary;
