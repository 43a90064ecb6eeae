use vstd::prelude::*;

use crate::text::{dec_chars, hex_chars, u128_to_decimal, u128_to_hex};

verus! {

/// One enumerated device, as the report sees it: a human-readable name and
/// a description, either of which may be absent, and the 128-bit class
/// identifier of the device.
pub struct DeviceRecord {
    pub friendly_name: Option<String>,
    pub description: Option<String>,
    pub class_guid: u128,
}

/// The text printed on the name line: the friendly name where there is
/// one, the literal placeholder otherwise.
pub open spec fn name_text(name: Option<Seq<char>>) -> Seq<char> {
    match name {
        Some(s) => s,
        None => "Unknown"@,
    }
}

/// The text printed on the description line: the description where there
/// is one, the literal placeholder otherwise.
pub open spec fn desc_text(desc: Option<Seq<char>>) -> Seq<char> {
    match desc {
        Some(s) => s,
        None => "None"@,
    }
}

/// The full report block for one device: a separator line, the name line,
/// the description line, the class identifier in decimal and again in
/// `0x`-prefixed lowercase hexadecimal, and a closing separator line.
/// Nothing in the name or description is escaped.
pub open spec fn format_spec(
    name: Option<Seq<char>>,
    desc: Option<Seq<char>>,
    class_guid: u128,
) -> Seq<char> {
    "---------------------------\nDev Name: "@ + name_text(name) + "\nDev Desc: "@
        + desc_text(desc) + "\nGUID: "@ + dec_chars(class_guid as nat) + "\nGUID (hex): 0x"@
        + hex_chars(class_guid as nat) + "\n---------------------------"@
}

impl DeviceRecord {
    /// Render the record as its report block.
    pub fn format(&self) -> (out: String)
        ensures
            out@ == format_spec(
                self.friendly_name.deep_view(),
                self.description.deep_view(),
                self.class_guid,
            ),
    {
        let mut out = String::new();
        out.append("---------------------------\nDev Name: ");
        match &self.friendly_name {
            Some(name) => out.append(name.as_str()),
            None => out.append("Unknown"),
        }
        out.append("\nDev Desc: ");
        match &self.description {
            Some(desc) => out.append(desc.as_str()),
            None => out.append("None"),
        }
        out.append("\nGUID: ");
        let dec = u128_to_decimal(self.class_guid);
        out.append(dec.as_str());
        out.append("\nGUID (hex): 0x");
        let hex = u128_to_hex(self.class_guid);
        out.append(hex.as_str());
        out.append("\n---------------------------");
        proof {
            assert(out@ =~= format_spec(
                self.friendly_name.deep_view(),
                self.description.deep_view(),
                self.class_guid,
            ));
        }
        out
    }
}

} // verus!
