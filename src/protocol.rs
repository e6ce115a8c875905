use vstd::prelude::*;

verus! {

/// Whether `s` parses as a JSON document of any shape.
pub uninterp spec fn is_json_document(s: Seq<char>) -> bool;

/// Relies on `serde_json::from_str` into `serde_json::Value`: it succeeds
/// exactly on well-formed JSON text, and depends on the text alone.
#[verifier::external_body]
fn parses_as_json(s: &str) -> (r: bool)
    ensures
        r == is_json_document(s@),
{
    serde_json::from_str::<serde_json::Value>(s).is_ok()
}

/// A Socket.IO open packet: the marker `0` followed by a JSON document.
pub open spec fn is_open_packet(text: Seq<char>) -> bool {
    &&& text.len() > 0
    &&& text[0] == '0'
    &&& is_json_document(text.drop_first())
}

/// A Socket.IO ping: any text that starts with the marker `2`.
pub open spec fn is_ping(text: Seq<char>) -> bool {
    text.len() > 0 && text[0] == '2'
}

/// The connect packet sent in answer to the open packet.
pub open spec fn connect_packet() -> Seq<char> {
    seq!['4', '0']
}

/// The pong sent in answer to a ping.
pub open spec fn pong_packet() -> Seq<char> {
    seq!['3']
}

/// The device-selection event `42["meaid",<n>]` for a zero-based index below ten.
pub open spec fn selection_request(mea_index: nat) -> Seq<char> {
    seq!['4', '2', '[', '"', 'm', 'e', 'a', 'i', 'd', '"', ',']
        + seq![(('0' as nat) + mea_index) as char]
        + seq![']']
}

/// Tells whether a text frame is a Socket.IO open packet.
pub fn check_open_packet(text: &str) -> (r: bool)
    ensures
        r == is_open_packet(text@),
{
    let n = text.unicode_len();
    if n == 0 || text.get_char(0) != '0' {
        return false;
    }
    let rest = text.substring_char(1, n);
    assert(rest@ =~= text@.drop_first());
    parses_as_json(rest)
}

/// Tells whether a text frame is a Socket.IO ping.
pub fn check_ping(text: &str) -> (r: bool)
    ensures
        r == is_ping(text@),
{
    text.unicode_len() > 0 && text.get_char(0) == '2'
}

/// The connect packet `40`.
pub fn connect_message() -> (r: String)
    ensures
        r@ == connect_packet(),
{
    proof {
        reveal_strlit("40");
    }
    String::from_str("40")
}

/// The pong packet `3`.
pub fn pong_message() -> (r: String)
    ensures
        r@ == pong_packet(),
{
    proof {
        reveal_strlit("3");
    }
    String::from_str("3")
}

/// The device-selection event for the zero-based device index `mea_index`.
pub fn selection_message(mea_index: u32) -> (r: String)
    requires
        mea_index < 4,
    ensures
        r@ == selection_request(mea_index as nat),
{
    let mut s = String::from_str("42[\"meaid\",");
    let digit = if mea_index == 0 {
        "0"
    } else if mea_index == 1 {
        "1"
    } else if mea_index == 2 {
        "2"
    } else {
        "3"
    };
    s.append(digit);
    s.append("]");
    proof {
        reveal_strlit("42[\"meaid\",");
        reveal_strlit("0");
        reveal_strlit("1");
        reveal_strlit("2");
        reveal_strlit("3");
        reveal_strlit("]");
    }
    assert(s@ =~= selection_request(mea_index as nat));
    s
}

} // verus!
