//! Messages to VRChat's chat box over OSC.
use crate::text::{concat_str, decimal, u64_to_decimal};
use vstd::prelude::*;
use vstd::utf8::encode_utf8;

verus! {

/// The OSC address of VRChat's chat box input.
pub const CHATBOX_ADDRESS: &'static str = "/chatbox/input";

/// `n` rounded up to a multiple of 4.
pub open spec fn padded_len(n: nat) -> nat {
    if n % 4 == 0 {
        n
    } else {
        (n + (4 - n % 4)) as nat
    }
}

/// An OSC string: the bytes, then 1 to 4 zero bytes up to a multiple of 4.
pub open spec fn osc_string(b: Seq<u8>) -> Seq<u8> {
    b + Seq::new((padded_len(b.len() + 1) - b.len()) as nat, |i: int| 0u8)
}

/// The OSC type tag of a boolean argument: `T` or `F`.
pub open spec fn bool_tag(b: bool) -> u8 {
    if b {
        0x54u8
    } else {
        0x46u8
    }
}

/// An OSC message to `addr` with a string argument and two boolean arguments: the
/// address, the type tags `,s` and one tag per boolean (padded with four zero bytes),
/// then the string.
pub open spec fn string_bool_bool_message(addr: Seq<char>, text: Seq<char>, first: bool, second: bool) -> Seq<u8> {
    osc_string(encode_utf8(addr)) + seq![0x2cu8, 0x73u8, bool_tag(first), bool_tag(second), 0u8, 0u8, 0u8, 0u8]
        + osc_string(encode_utf8(text))
}

/// Encodes, with `rosc::encoder::encode`, the message to `addr` whose arguments are
/// `text` and the booleans `first` and `second`. The contract states the encoding that
/// rosc's encoder writes for such a message (address and string as padded OSC strings,
/// booleans as type tags only); for output into a `Vec` it always succeeds.
#[verifier::external_body]
fn encode_string_bool_bool(addr: &str, text: &str, first: bool, second: bool) -> (r: Vec<u8>)
    ensures
        r@ == string_bool_bool_message(addr@, text@, first, second),
{
    let args = vec![
        rosc::OscType::String(text.to_string()),
        rosc::OscType::Bool(first),
        rosc::OscType::Bool(second),
    ];
    let message = rosc::OscMessage { addr: addr.to_string(), args };
    match rosc::encoder::encode(&rosc::OscPacket::Message(message)) {
        Ok(bytes) => bytes,
        Err(_) => Vec::new(),
    }
}

/// The chat box message that shows `text` at once (`true`) without the notification
/// sound (`false`).
pub fn chatbox_packet(text: &str) -> (r: Vec<u8>)
    ensures
        r@ == string_bool_bool_message(CHATBOX_ADDRESS@, text@, true, false),
{
    encode_string_bool_bool(CHATBOX_ADDRESS, text, true, false)
}

/// Where the message goes: `{address}:{port}`.
pub fn osc_target(address: &str, port: u16) -> (r: String)
    ensures
        r@ == address@ + ":"@ + decimal(port as nat),
{
    let head = concat_str(address, ":");
    let p = u64_to_decimal(port as u64);
    head.concat(p.as_str())
}

} // verus!
