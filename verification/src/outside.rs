//! The outside items the library uses: the outgoing channel of a client
//! (tokio), the WebSocket frame type (tungstenite), JSON string escaping
//! (serde_json) and SDP parsing (webrtc).

use vstd::prelude::*;
use tokio::sync::mpsc::UnboundedSender;
use tokio_tungstenite::tungstenite::Message;
use webrtc::peer_connection::sdp::sdp_type::RTCSdpType;
use webrtc::peer_connection::sdp::session_description::RTCSessionDescription;

verus! {

#[verifier::external_type_specification]
#[verifier::external_body]
#[verifier::reject_recursive_types(T)]
pub struct ExUnboundedSender<T>(UnboundedSender<T>);

#[verifier::external_type_specification]
#[verifier::external_body]
pub struct ExMessage(Message);

#[verifier::external_type_specification]
#[verifier::external_body]
pub struct ExRTCSessionDescription(RTCSessionDescription);

/// The type of a session description.
#[derive(Clone, Copy, Debug, PartialEq, Eq, Structural)]
pub enum SdpType {
    Unspecified,
    Offer,
    Pranswer,
    Answer,
    Rollback,
}

/// A session description as webrtc parsed it, to install on a peer
/// connection.  Only the parsing calls below build one, so its type and SDP
/// text are those of the parse that produced the description it holds.
pub struct RemoteDescription {
    sdp_type: SdpType,
    sdp: String,
    description: RTCSessionDescription,
}

impl RemoteDescription {
    /// The type the parse gave the description.
    pub closed spec fn parsed_type(&self) -> SdpType {
        self.sdp_type
    }

    /// The SDP text the description was parsed from.
    pub closed spec fn parsed_sdp(&self) -> Seq<char> {
        self.sdp@
    }

    /// The type the parse gave the description.
    pub fn sdp_type(&self) -> (t: SdpType)
        ensures
            t == self.parsed_type(),
    {
        self.sdp_type
    }

    /// The SDP text the description was parsed from.
    pub fn sdp(&self) -> (s: &String)
        ensures
            s@ == self.parsed_sdp(),
    {
        &self.sdp
    }

    /// The parsed description itself, to hand to the peer connection.
    pub fn into_description(self) -> RTCSessionDescription {
        self.description
    }
}

/// The lowercase hexadecimal digit of `d` (below 16).
pub open spec fn hex_digit(d: int) -> char {
    if d == 0 { '0' } else if d == 1 { '1' } else if d == 2 { '2' } else if d == 3 { '3' }
    else if d == 4 { '4' } else if d == 5 { '5' } else if d == 6 { '6' } else if d == 7 { '7' }
    else if d == 8 { '8' } else if d == 9 { '9' } else if d == 10 { 'a' } else if d == 11 { 'b' }
    else if d == 12 { 'c' } else if d == 13 { 'd' } else if d == 14 { 'e' } else { 'f' }
}

/// How serde_json writes one character inside a JSON string: a quote and a
/// backslash get a backslash in front; backspace, form feed, line feed,
/// carriage return and tab become `\b \f \n \r \t`; every other character
/// below U+0020 becomes `\u00` and two lowercase hex digits; anything else
/// stands as it is.
pub open spec fn json_escape_char(c: char) -> Seq<char> {
    if c == '"' {
        seq!['\\', '"']
    } else if c == '\\' {
        seq!['\\', '\\']
    } else if c == '\u{8}' {
        seq!['\\', 'b']
    } else if c == '\u{c}' {
        seq!['\\', 'f']
    } else if c == '\n' {
        seq!['\\', 'n']
    } else if c == '\r' {
        seq!['\\', 'r']
    } else if c == '\t' {
        seq!['\\', 't']
    } else if (c as int) < 0x20 {
        seq!['\\', 'u', '0', '0', hex_digit((c as int) / 16), hex_digit((c as int) % 16)]
    } else {
        seq![c]
    }
}

/// The characters of `s`, each written as `json_escape_char` says.
pub open spec fn json_escaped(s: Seq<char>) -> Seq<char>
    decreases s.len(),
{
    if s.len() == 0 {
        Seq::<char>::empty()
    } else {
        json_escaped(s.drop_last()) + json_escape_char(s.last())
    }
}

/// The JSON string literal for `s`: a quote, the escaped characters, a quote.
pub open spec fn json_string_literal(s: Seq<char>) -> Seq<char> {
    seq!['"'] + json_escaped(s) + seq!['"']
}

/// Calls `serde_json::to_string` on a `&str`, which writes the string
/// literal described by `json_string_literal` (serde_json's `ESCAPE` table
/// and `write_char_escape`).  Serialising a string into a `Vec<u8>` has no
/// error path, so the `Err` arm is never taken.
#[verifier::external_body]
pub(crate) fn quote_json(s: &str) -> (out: String)
    ensures
        out@ == json_string_literal(s@),
{
    serde_json::to_string(s).unwrap_or_default()
}

/// Whether webrtc parses `sdp` as a session description
/// (`RTCSessionDescription::offer` succeeds on it).
pub uninterp spec fn sdp_offer_parses(sdp: Seq<char>) -> bool;

/// Whether webrtc parses `sdp` as a session description
/// (`RTCSessionDescription::answer` succeeds on it).
pub uninterp spec fn sdp_answer_parses(sdp: Seq<char>) -> bool;

/// Calls `RTCSessionDescription::offer`, which parses `sdp` and, when the
/// parse succeeds, gives a description with type `Offer` and `sdp` as its
/// text (session_description.rs sets both fields from the call); the type
/// and text are read back from the description's public fields.
#[verifier::external_body]
pub(crate) fn sdp_offer(sdp: String) -> (res: Option<RemoteDescription>)
    ensures
        res is Some <==> sdp_offer_parses(sdp@),
        res matches Some(d) ==> d.parsed_type() == SdpType::Offer && d.parsed_sdp() == sdp@,
{
    let d = RTCSessionDescription::offer(sdp).ok()?;
    let sdp_type = match d.sdp_type {
        RTCSdpType::Unspecified => SdpType::Unspecified,
        RTCSdpType::Offer => SdpType::Offer,
        RTCSdpType::Pranswer => SdpType::Pranswer,
        RTCSdpType::Answer => SdpType::Answer,
        RTCSdpType::Rollback => SdpType::Rollback,
    };
    Some(RemoteDescription { sdp_type, sdp: d.sdp.clone(), description: d })
}

/// Calls `RTCSessionDescription::answer`, which parses `sdp` and, when the
/// parse succeeds, gives a description with type `Answer` and `sdp` as its
/// text (session_description.rs sets both fields from the call); the type
/// and text are read back from the description's public fields.
#[verifier::external_body]
pub(crate) fn sdp_answer(sdp: String) -> (res: Option<RemoteDescription>)
    ensures
        res is Some <==> sdp_answer_parses(sdp@),
        res matches Some(d) ==> d.parsed_type() == SdpType::Answer && d.parsed_sdp() == sdp@,
{
    let d = RTCSessionDescription::answer(sdp).ok()?;
    let sdp_type = match d.sdp_type {
        RTCSdpType::Unspecified => SdpType::Unspecified,
        RTCSdpType::Offer => SdpType::Offer,
        RTCSdpType::Pranswer => SdpType::Pranswer,
        RTCSdpType::Answer => SdpType::Answer,
        RTCSdpType::Rollback => SdpType::Rollback,
    };
    Some(RemoteDescription { sdp_type, sdp: d.sdp.clone(), description: d })
}

} // verus!
