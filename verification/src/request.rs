//! The inbound request model and the parsing boundary for the presentation
//! format.  The format arrives as an optional query-string value; it is
//! turned into a closed enumeration right here, and anything absent or
//! unrecognised becomes `None`, which downstream means "deliver nothing,
//! answer success" - deliberately not a client error.

use vstd::prelude::*;
use vstd::string::StringExecFns;

verus! {

/// The three presentation formats a caller may ask for, spelled exactly
/// `Simple`, `Embed` and `Embed2` on the wire (case-sensitive).
#[derive(Clone, Copy, PartialEq, Eq, Structural, Debug)]
pub enum MsgType {
    /// Plain text pushed through the bound handle.
    Simple,
    /// A rich embed posted to the fixed broadcast channel.
    Embed,
    /// A rich embed pushed through the bound handle.
    Embed2,
}

/// What a format string means: one of the three literal spellings maps to
/// its variant, every other string to nothing.
pub open spec fn parse_msg_type_spec(s: Seq<char>) -> Option<MsgType> {
    if s == "Simple"@ {
        Some(MsgType::Simple)
    } else if s == "Embed"@ {
        Some(MsgType::Embed)
    } else if s == "Embed2"@ {
        Some(MsgType::Embed2)
    } else {
        None
    }
}

/// Parses a format string.  Returns a variant exactly for the three literal
/// spellings and `None` for everything else.
pub fn parse_msg_type(s: &str) -> (r: Option<MsgType>)
    ensures
        r == parse_msg_type_spec(s@),
{
    let owned = s.to_owned();
    if owned == String::from_str("Simple") {
        Some(MsgType::Simple)
    } else if owned == String::from_str("Embed") {
        Some(MsgType::Embed)
    } else if owned == String::from_str("Embed2") {
        Some(MsgType::Embed2)
    } else {
        None
    }
}

/// One inbound delivery request, already decoded from the query string:
/// the message text, the optional embed title, the optional per-delivery
/// sender name, and the already-parsed format.
pub struct InboundRequest {
    pub msg: String,
    pub title: Option<String>,
    pub username: Option<String>,
    pub msg_type: Option<MsgType>,
}

impl InboundRequest {
    /// Assembles a request at the HTTP boundary.  The format field is parsed
    /// here: an absent raw value stays absent, a present one is mapped by
    /// `parse_msg_type_spec`, so an unknown spelling lands on `None` as well.
    pub fn from_query(
        msg: String,
        title: Option<String>,
        username: Option<String>,
        msg_type_raw: Option<&str>,
    ) -> (r: InboundRequest)
        ensures
            r.msg == msg,
            r.title == title,
            r.username == username,
            r.msg_type == (match msg_type_raw {
                None => None::<MsgType>,
                Some(raw) => parse_msg_type_spec(raw@),
            }),
    {
        let msg_type = match msg_type_raw {
            None => None,
            Some(raw) => parse_msg_type(raw),
        };
        InboundRequest { msg, title, username, msg_type }
    }
}

} // verus!
