//! The shared output of the decoders: named fields, and the per-frame record
//! that collects them.

use vstd::prelude::*;
use crate::text::text;

verus! {

/// The text of one decoded field: its name, its displayed value and what it means.
pub type FieldText = (Seq<char>, Seq<char>, Seq<char>);

/// Which protocol layer a [`FrameControlInfo`] describes.
#[derive(Debug)]
pub enum ProtocolType {
    Ethernet,
    WiFi,
    IPv4,
    IPv6,
    TCP,
    UDP,
    Other(String),
}

/// One decoded header field.
#[derive(Debug)]
pub struct ControlField {
    pub name: String,
    pub value: String,
    pub description: String,
}

/// The decoded header fields of one frame, outer layer first.
#[derive(Debug)]
pub struct FrameControlInfo {
    pub protocol_type: ProtocolType,
    pub control_fields: Vec<ControlField>,
}

impl View for ControlField {
    type V = FieldText;

    open spec fn view(&self) -> FieldText {
        (self.name@, self.value@, self.description@)
    }
}

/// The text of each field of `v`, in order.
pub open spec fn fields_view(v: Seq<ControlField>) -> Seq<FieldText> {
    v.map_values(|f: ControlField| f@)
}

/// The name under which a protocol tag is displayed.
pub open spec fn tag_text(p: ProtocolType) -> Seq<char> {
    match p {
        ProtocolType::Ethernet => "Ethernet"@,
        ProtocolType::WiFi => "WiFi"@,
        ProtocolType::IPv4 => "IPv4"@,
        ProtocolType::IPv6 => "IPv6"@,
        ProtocolType::TCP => "TCP"@,
        ProtocolType::UDP => "UDP"@,
        ProtocolType::Other(name) => name@,
    }
}

/// `name: value`
pub open spec fn field_summary(f: FieldText) -> Seq<char> {
    f.0 + ": "@ + f.1
}

/// One display line of a field: `  name: value (description)` and a line break.
pub open spec fn field_line(f: FieldText) -> Seq<char> {
    "  "@ + f.0 + ": "@ + f.1 + " ("@ + f.2 + ")\n"@
}

/// The display lines of all fields of `fs`, in order.
pub open spec fn field_lines(fs: Seq<FieldText>) -> Seq<char>
    decreases fs.len(),
{
    if fs.len() == 0 {
        Seq::empty()
    } else {
        field_lines(fs.drop_last()) + field_line(fs.last())
    }
}

/// The display text of a decoded frame: a protocol line, then one line per field.
pub open spec fn render(tag: Seq<char>, fs: Seq<FieldText>) -> Seq<char> {
    "Protocol: "@ + tag + "\n"@ + field_lines(fs)
}

impl ProtocolType {
    /// The name under which this tag is displayed.
    pub fn name(&self) -> (r: String)
        ensures
            r@ == tag_text(*self),
    {
        match self {
            ProtocolType::Ethernet => text("Ethernet"),
            ProtocolType::WiFi => text("WiFi"),
            ProtocolType::IPv4 => text("IPv4"),
            ProtocolType::IPv6 => text("IPv6"),
            ProtocolType::TCP => text("TCP"),
            ProtocolType::UDP => text("UDP"),
            ProtocolType::Other(name) => name.clone(),
        }
    }
}

impl ControlField {
    /// A field with the given name, value and description.
    pub fn new(name: String, value: String, description: String) -> (r: ControlField)
        ensures
            r@ == (name@, value@, description@),
    {
        ControlField { name, value, description }
    }

    /// `name: value`
    pub fn to_string(&self) -> (r: String)
        ensures
            r@ == field_summary(self@),
    {
        let mut s = self.name.clone();
        s.append(": ");
        s.append(self.value.as_str());
        s
    }

    fn push_line(&self, s: &mut String)
        ensures
            final(s)@ == old(s)@ + field_line(self@),
    {
        s.append("  ");
        s.append(self.name.as_str());
        s.append(": ");
        s.append(self.value.as_str());
        s.append(" (");
        s.append(self.description.as_str());
        s.append(")\n");
        proof {
            assert(final(s)@ =~= old(s)@ + field_line(self@));
        }
    }
}

impl FrameControlInfo {
    /// The display text: `Protocol: <tag>`, then `  <name>: <value> (<description>)`
    /// for each field in order, each line ending in a line break.
    pub fn to_string(&self) -> (r: String)
        ensures
            r@ == render(tag_text(self.protocol_type), fields_view(self.control_fields@)),
    {
        let mut s = text("Protocol: ");
        let tag = self.protocol_type.name();
        s.append(tag.as_str());
        s.append("\n");
        let ghost head = s@;
        let mut i: usize = 0;
        while i < self.control_fields.len()
            invariant
                i <= self.control_fields@.len(),
                s@ == head + field_lines(fields_view(self.control_fields@.take(i as int))),
            decreases self.control_fields@.len() - i,
        {
            self.control_fields[i].push_line(&mut s);
            proof {
                let fs = fields_view(self.control_fields@.take(i + 1));
                assert(fs.drop_last() =~= fields_view(self.control_fields@.take(i as int)));
            }
            i = i + 1;
        }
        proof {
            assert(self.control_fields@.take(i as int) =~= self.control_fields@);
            assert(s@ =~= render(tag_text(self.protocol_type), fields_view(self.control_fields@)));
        }
        s
    }
}

} // verus!
