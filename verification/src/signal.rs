//! The signalling messages clients and server exchange, and the JSON text
//! the server writes for each of them.
//!
//! A message is a JSON object whose fields come in the order the structs
//! declare them, written compactly; strings are escaped by serde_json and
//! an absent optional field is written `null`.

use vstd::prelude::*;
use crate::outside::{hex_digit, json_escape_char, json_escaped, json_string_literal, quote_json};
use crate::peer_addr::PeerAddr;

verus! {

/// A text frame for the channel of the client at `to`.  The caller that
/// owns the channels hands `frame` to that client's channel, as a
/// WebSocket text message.
#[derive(Clone, Debug, PartialEq, Eq)]
pub struct Delivery {
    pub to: PeerAddr,
    pub frame: String,
}

/// The clients a list of deliveries goes to, in order.
pub open spec fn delivery_targets(d: Seq<Delivery>) -> Seq<PeerAddr> {
    d.map_values(|x: Delivery| x.to)
}

/// Every delivery in the list carries the frame `text`.
pub open spec fn all_carry(d: Seq<Delivery>, text: Seq<char>) -> bool {
    forall|i: int| 0 <= i < d.len() ==> (#[trigger] d[i]).frame@ == text
}

/// A chat line (also used for a relayed SDP answer): its type tag and text.
pub struct ChatMessage {
    pub msg_type: String,
    pub content: String,
}

/// An SDP offer from a client, or the SDP answer the server sends back.
pub struct OfferSignalMessage {
    pub msg_type: String,
    pub content: String,
}

/// An ICE candidate, in either direction.
pub struct IceCandidateSignalMessage {
    pub msg_type: String,
    pub content: String,
    pub sdp_mid: Option<String>,
    pub sdp_mline_index: Option<u16>,
    pub username_fragment: Option<String>,
}

/// The view of an optional string.
pub open spec fn opt_view(o: Option<String>) -> Option<Seq<char>> {
    match o {
        Some(s) => Some(s@),
        None => None,
    }
}

/// The character of a decimal digit.
pub open spec fn digit_char(d: nat) -> char {
    if d == 0 { '0' }
    else if d == 1 { '1' }
    else if d == 2 { '2' }
    else if d == 3 { '3' }
    else if d == 4 { '4' }
    else if d == 5 { '5' }
    else if d == 6 { '6' }
    else if d == 7 { '7' }
    else if d == 8 { '8' }
    else { '9' }
}

/// The decimal digits of `n`, most significant first, without leading zeros.
pub open spec fn decimal(n: nat) -> Seq<char>
    decreases n,
{
    if n < 10 {
        seq![digit_char(n)]
    } else {
        decimal(n / 10) + seq![digit_char(n % 10)]
    }
}

/// JSON for an optional string: its literal, or `null`.
pub open spec fn json_opt_string(o: Option<Seq<char>>) -> Seq<char> {
    match o {
        Some(s) => json_string_literal(s),
        None => "null"@,
    }
}

/// JSON for an optional number: its decimal digits, or `null`.
pub open spec fn json_opt_number(o: Option<u16>) -> Seq<char> {
    match o {
        Some(n) => decimal(n as nat),
        None => "null"@,
    }
}

/// The frame of a message with a type tag and a content string.
pub open spec fn text_frame(msg_type: Seq<char>, content: Seq<char>) -> Seq<char> {
    "{\"msg_type\":"@ + json_string_literal(msg_type) + ",\"content\":"@
        + json_string_literal(content) + "}"@
}

/// The frame of an ICE candidate message.
pub open spec fn candidate_frame(
    msg_type: Seq<char>,
    content: Seq<char>,
    sdp_mid: Option<Seq<char>>,
    sdp_mline_index: Option<u16>,
    username_fragment: Option<Seq<char>>,
) -> Seq<char> {
    "{\"msg_type\":"@ + json_string_literal(msg_type) + ",\"content\":"@
        + json_string_literal(content) + ",\"sdp_mid\":"@ + json_opt_string(sdp_mid)
        + ",\"sdp_mline_index\":"@ + json_opt_number(sdp_mline_index)
        + ",\"username_fragment\":"@ + json_opt_string(username_fragment) + "}"@
}

/// Two lowercase hex digits are equal only for equal values.
pub proof fn lemma_hex_digit_injective(a: int, b: int)
    requires
        0 <= a < 16,
        0 <= b < 16,
        hex_digit(a) == hex_digit(b),
    ensures
        a == b,
{
}

/// The escape of a character is never empty; it begins with a backslash
/// exactly when the character is escaped.
pub proof fn lemma_escape_char_shape(c: char)
    ensures
        json_escape_char(c).len() >= 1,
        (json_escape_char(c)[0] == '\\') <==> (c == '"' || c == '\\' || (c as int) < 0x20),
        !(c == '"' || c == '\\' || (c as int) < 0x20) ==> json_escape_char(c) == seq![c],
        (c == '"' || c == '\\' || (c as int) < 0x20) ==> json_escape_char(c).len() >= 2,
{
}

/// Two escapes that begin the same text are the escapes of the same
/// character: no escape is a proper prefix of another, and different
/// characters escape differently.
pub proof fn lemma_escape_prefix_free(c1: char, c2: char, r1: Seq<char>, r2: Seq<char>)
    requires
        json_escape_char(c1) + r1 == json_escape_char(c2) + r2,
    ensures
        c1 == c2,
        r1 == r2,
{
    let e1 = json_escape_char(c1);
    let e2 = json_escape_char(c2);
    let t = e1 + r1;
    lemma_escape_char_shape(c1);
    lemma_escape_char_shape(c2);
    assert(t[0] == e1[0]);
    assert(t[0] == e2[0]);
    if e1[0] != '\\' {
        assert(e1 == seq![c1]);
        assert(e2 == seq![c2]);
        assert(c1 == c2);
    } else {
        assert(t[1] == e1[1]);
        assert(t[1] == e2[1]);
        if (c1 as int) < 0x20 && c1 != '\u{8}' && c1 != '\u{c}' && c1 != '\n' && c1 != '\r' && c1 != '\t' {
            assert(e1[1] == 'u');
            assert(e2[1] == 'u');
            assert((c2 as int) < 0x20 && c2 != '\u{8}' && c2 != '\u{c}' && c2 != '\n' && c2 != '\r' && c2 != '\t');
            assert(t[4] == e1[4] && t[4] == e2[4]);
            assert(t[5] == e1[5] && t[5] == e2[5]);
            lemma_hex_digit_injective((c1 as int) / 16, (c2 as int) / 16);
            lemma_hex_digit_injective((c1 as int) % 16, (c2 as int) % 16);
            assert((c1 as int) == (c2 as int));
        }
        assert(c1 == c2);
    }
    assert(r1 =~= t.subrange(e1.len() as int, t.len() as int));
    assert(r2 =~= t.subrange(e2.len() as int, t.len() as int));
}

/// Escaping a text that starts with `c` writes the escape of `c` first.
pub proof fn lemma_escaped_prepend(c: char, s: Seq<char>)
    ensures
        json_escaped(seq![c] + s) == json_escape_char(c) + json_escaped(s),
    decreases s.len(),
{
    let t = seq![c] + s;
    if s.len() == 0 {
        assert(t =~= seq![c]);
        assert(t.drop_last() =~= Seq::<char>::empty());
        assert(json_escaped(t.drop_last()) =~= Seq::<char>::empty());
        assert(t.last() == c);
        assert(json_escaped(t) =~= json_escape_char(c));
        assert(json_escaped(s) =~= Seq::<char>::empty());
    } else {
        lemma_escaped_prepend(c, s.drop_last());
        assert(t.drop_last() =~= seq![c] + s.drop_last());
        assert(t.last() == s.last());
        assert(json_escaped(t) =~= json_escape_char(c) + json_escaped(s));
    }
}

/// Escaping never shortens a text.
pub proof fn lemma_escaped_len(s: Seq<char>)
    ensures
        json_escaped(s).len() >= s.len(),
    decreases s.len(),
{
    if s.len() > 0 {
        lemma_escaped_len(s.drop_last());
        lemma_escape_char_shape(s.last());
    }
}

/// Law: different texts have different escapes.
pub proof fn lemma_escaped_injective(s1: Seq<char>, s2: Seq<char>)
    requires
        json_escaped(s1) == json_escaped(s2),
    ensures
        s1 == s2,
    decreases s1.len(),
{
    lemma_escaped_len(s1);
    lemma_escaped_len(s2);
    if s1.len() == 0 {
        assert(s2.len() == 0);
        assert(s1 =~= s2);
    } else if s2.len() == 0 {
        assert(false);
    } else {
        let t1 = s1.subrange(1, s1.len() as int);
        let t2 = s2.subrange(1, s2.len() as int);
        assert(s1 =~= seq![s1[0]] + t1);
        assert(s2 =~= seq![s2[0]] + t2);
        lemma_escaped_prepend(s1[0], t1);
        lemma_escaped_prepend(s2[0], t2);
        lemma_escape_prefix_free(s1[0], s2[0], json_escaped(t1), json_escaped(t2));
        lemma_escaped_injective(t1, t2);
    }
}

/// Law: different texts have different JSON string literals.
pub proof fn lemma_string_literal_injective(s1: Seq<char>, s2: Seq<char>)
    requires
        json_string_literal(s1) == json_string_literal(s2),
    ensures
        s1 == s2,
{
    let l1 = json_string_literal(s1);
    let l2 = json_string_literal(s2);
    assert(json_escaped(s1) =~= l1.subrange(1, l1.len() - 1));
    assert(json_escaped(s2) =~= l2.subrange(1, l2.len() - 1));
    lemma_escaped_injective(s1, s2);
}

/// Law: a text frame carries its whole content: two frames of the same type
/// are equal only when their contents are, so no two contents, of any
/// length, share a frame; and the frame is longer than the content.
pub proof fn lemma_text_frame_keeps_content(msg_type: Seq<char>, c1: Seq<char>, c2: Seq<char>)
    ensures
        text_frame(msg_type, c1) == text_frame(msg_type, c2) ==> c1 == c2,
        text_frame(msg_type, c1).len() > c1.len(),
{
    let p = "{\"msg_type\":"@ + json_string_literal(msg_type) + ",\"content\":"@;
    let close = "}"@;
    let f1 = text_frame(msg_type, c1);
    let f2 = text_frame(msg_type, c2);
    assert(f1 == p + json_string_literal(c1) + close);
    assert(f2 == p + json_string_literal(c2) + close);
    lemma_escaped_len(c1);
    if f1 == f2 {
        let n = close.len();
        assert(json_string_literal(c1) =~= f1.subrange(p.len() as int, f1.len() - n));
        assert(json_string_literal(c2) =~= f2.subrange(p.len() as int, f2.len() - n));
        lemma_string_literal_injective(c1, c2);
    }
}

fn digit_str(d: u16) -> (s: &'static str)
    requires
        d < 10,
    ensures
        s@ == seq![digit_char(d as nat)],
{
    proof {
        reveal_strlit("0");
        reveal_strlit("1");
        reveal_strlit("2");
        reveal_strlit("3");
        reveal_strlit("4");
        reveal_strlit("5");
        reveal_strlit("6");
        reveal_strlit("7");
        reveal_strlit("8");
        reveal_strlit("9");
    }
    if d == 0 { "0" }
    else if d == 1 { "1" }
    else if d == 2 { "2" }
    else if d == 3 { "3" }
    else if d == 4 { "4" }
    else if d == 5 { "5" }
    else if d == 6 { "6" }
    else if d == 7 { "7" }
    else if d == 8 { "8" }
    else { "9" }
}

/// The decimal digits of `n`.
pub fn decimal_string(n: u16) -> (s: String)
    ensures
        s@ == decimal(n as nat),
    decreases n,
{
    if n < 10 {
        String::from_str(digit_str(n))
    } else {
        let mut s = decimal_string(n / 10);
        s.append(digit_str(n % 10));
        s
    }
}

fn append_opt_string(out: &mut String, o: &Option<String>)
    ensures
        final(out)@ == old(out)@ + json_opt_string(opt_view(*o)),
{
    match o {
        Some(s) => {
            let q = quote_json(s.as_str());
            out.append(q.as_str());
        },
        None => {
            out.append("null");
        },
    }
}

fn append_opt_number(out: &mut String, o: Option<u16>)
    ensures
        final(out)@ == old(out)@ + json_opt_number(o),
{
    match o {
        Some(n) => {
            let d = decimal_string(n);
            out.append(d.as_str());
        },
        None => {
            out.append("null");
        },
    }
}

fn text_frame_exec(msg_type: &str, content: &str) -> (out: String)
    ensures
        out@ == text_frame(msg_type@, content@),
{
    let mut out = String::from_str("{\"msg_type\":");
    let q = quote_json(msg_type);
    out.append(q.as_str());
    out.append(",\"content\":");
    let q = quote_json(content);
    out.append(q.as_str());
    out.append("}");
    out
}

impl ChatMessage {
    /// The JSON text of this message.
    pub fn to_json(&self) -> (out: String)
        ensures
            out@ == text_frame(self.msg_type@, self.content@),
    {
        text_frame_exec(self.msg_type.as_str(), self.content.as_str())
    }
}

impl OfferSignalMessage {
    /// The JSON text of this message.
    pub fn to_json(&self) -> (out: String)
        ensures
            out@ == text_frame(self.msg_type@, self.content@),
    {
        text_frame_exec(self.msg_type.as_str(), self.content.as_str())
    }
}

impl IceCandidateSignalMessage {
    /// The JSON text of this message.
    pub fn to_json(&self) -> (out: String)
        ensures
            out@ == candidate_frame(
                self.msg_type@,
                self.content@,
                opt_view(self.sdp_mid),
                self.sdp_mline_index,
                opt_view(self.username_fragment),
            ),
    {
        let mut out = String::from_str("{\"msg_type\":");
        let q = quote_json(self.msg_type.as_str());
        out.append(q.as_str());
        out.append(",\"content\":");
        let q = quote_json(self.content.as_str());
        out.append(q.as_str());
        out.append(",\"sdp_mid\":");
        append_opt_string(&mut out, &self.sdp_mid);
        out.append(",\"sdp_mline_index\":");
        append_opt_number(&mut out, self.sdp_mline_index);
        out.append(",\"username_fragment\":");
        append_opt_string(&mut out, &self.username_fragment);
        out.append("}");
        out
    }
}

} // verus!
