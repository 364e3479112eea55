//! Errors of the capture program around the decoders.

use vstd::prelude::*;
use crate::text::text;

verus! {

/// What went wrong while capturing.
#[derive(Debug)]
pub enum CaptureError {
    NetworkError(String),
    ParseError(String),
    InputError(String),
    PcapError(String),
    InterfaceNotFound(String),
    Other(String),
}

/// The display text of an error: a prefix naming its kind, then its detail.
pub open spec fn capture_error_text(e: CaptureError) -> Seq<char> {
    match e {
        CaptureError::NetworkError(m) => "Network error: "@ + m@,
        CaptureError::ParseError(m) => "Parse error: "@ + m@,
        CaptureError::InputError(m) => "Input error: "@ + m@,
        CaptureError::PcapError(m) => "PCAP error: "@ + m@,
        CaptureError::InterfaceNotFound(m) => "Interface not found: "@ + m@,
        CaptureError::Other(m) => "Error: "@ + m@,
    }
}

impl CaptureError {
    /// The display text: a prefix naming the kind of error, then its detail.
    pub fn message(&self) -> (r: String)
        ensures
            r@ == capture_error_text(*self),
    {
        let (mut s, detail) = match self {
            CaptureError::NetworkError(m) => (text("Network error: "), m),
            CaptureError::ParseError(m) => (text("Parse error: "), m),
            CaptureError::InputError(m) => (text("Input error: "), m),
            CaptureError::PcapError(m) => (text("PCAP error: "), m),
            CaptureError::InterfaceNotFound(m) => (text("Interface not found: "), m),
            CaptureError::Other(m) => (text("Error: "), m),
        };
        s.append(detail.as_str());
        s
    }
}

} // verus!
