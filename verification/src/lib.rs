//! Protocol library for the SA818 single-channel FM transceiver module.
//!
//! The module is driven over a byte-oriented serial transport with a textual
//! AT-command dialect.  This crate covers the protocol layer: the data model
//! of a valid channel configuration (frequency pair, bandwidth, squelch,
//! group-call selector), the encoders that turn that model into the exact
//! command line the module expects, and the reply matchers that turn a raw
//! reply line back into a typed result or a classified error.  The serial
//! transport itself is an external collaborator: callers write the request
//! line returned here, read one reply line, and hand the reply text back to
//! the matcher of the exchange.

use vstd::prelude::*;

pub mod channel;
pub mod error;
pub mod filter_config;
pub mod group_call;
pub mod text;
pub mod textnum;

use vstd::string::StrSliceExecFns;
use vstd::string::StringExecFns;

verus! {

use crate::error::Sa818Error;
use crate::text::find_char;
use crate::text::find_char_from;
use crate::text::str_eq_text;
use crate::text::trim_spec;
use crate::text::trim_text;
use crate::textnum::numeral_val;
use crate::textnum::parse_u32_text;
use crate::textnum::parses_as_u32;

/// Whether a reply line, once trimmed, is exactly the expected
/// acknowledgement.
pub open spec fn exact_reply_accepted(reply: Seq<char>, expected: Seq<char>) -> bool {
    trim_spec(reply) == expected
}

/// The text before the first `sep` of `t`, or all of `t` when `sep` does not
/// occur.
pub open spec fn prefix_token(t: Seq<char>, sep: char) -> Seq<char> {
    t.take(find_char_from(t, sep, 0))
}

/// The text between the first `sep` of `t` and the second one or the end.
pub open spec fn second_token(t: Seq<char>, sep: char) -> Seq<char> {
    let p = find_char_from(t, sep, 0);
    t.subrange(p + 1, find_char_from(t, sep, p + 1))
}

/// Whether a version reply is well-formed: it holds a `:`, and what stands
/// before the first `:` is exactly `+VERSION`.
pub open spec fn version_reply_accepted(reply: Seq<char>) -> bool {
    let t = trim_spec(reply);
    find_char_from(t, ':', 0) < t.len() && prefix_token(t, ':') == "+VERSION"@
}

/// Whether a signal-strength reply is well-formed: it holds a `=`, and what
/// stands before the first `=` is exactly `RSSI`.
pub open spec fn rssi_reply_accepted(reply: Seq<char>) -> bool {
    let t = trim_spec(reply);
    find_char_from(t, '=', 0) < t.len() && prefix_token(t, '=') == "RSSI"@
}

/// The request line of the handshake exchange.
pub fn handshake_request() -> (r: &'static str)
    ensures
        r@ == "AT+DMOCONNECT\r\n"@,
{
    "AT+DMOCONNECT\r\n"
}

/// The request line of the version query.
pub fn version_request() -> (r: &'static str)
    ensures
        r@ == "AT+VERSION\r\n"@,
{
    "AT+VERSION\r\n"
}

/// The request line of the signal-strength query.
pub fn rssi_request() -> (r: &'static str)
    ensures
        r@ == "RSSI?\r\n"@,
{
    "RSSI?\r\n"
}

/// Matches a raw reply line against the exact acknowledgement a command
/// expects.  On a match the raw reply is handed back; anything else is
/// rejected as `UnexpectedReply` carrying the raw text.
pub fn check_reply(expected: &str, reply: &str) -> (r: Result<String, Sa818Error>)
    ensures
        exact_reply_accepted(reply@, expected@) ==> (r matches Ok(s) && s@ == reply@),
        !exact_reply_accepted(reply@, expected@) ==> (r matches Err(e) && e matches
            Sa818Error::UnexpectedReply(t) && t@ == reply@),
{
    let t = trim_text(reply);
    if str_eq_text(t, expected) {
        Ok(String::from_str(reply))
    } else {
        Err(Sa818Error::UnexpectedReply(String::from_str(reply)))
    }
}

/// Decides the handshake exchange: the trimmed reply must be exactly
/// `+DMOCONNECT:0`.
pub fn handshake(reply: &str) -> (r: Result<String, Sa818Error>)
    ensures
        exact_reply_accepted(reply@, "+DMOCONNECT:0"@) ==> (r matches Ok(s) && s@ == reply@),
        !exact_reply_accepted(reply@, "+DMOCONNECT:0"@) ==> (r matches Err(e) && e matches
            Sa818Error::UnexpectedReply(t) && t@ == reply@),
{
    check_reply("+DMOCONNECT:0", reply)
}

/// Decides the version query: the text before the first `:` of the trimmed
/// reply must be `+VERSION`; the text between the first and second `:` (or
/// the end) is the version.
pub fn get_version(reply: &str) -> (r: Result<String, Sa818Error>)
    ensures
        version_reply_accepted(reply@) ==> (r matches Ok(s) && s@ == second_token(
            trim_spec(reply@),
            ':',
        )),
        !version_reply_accepted(reply@) ==> (r matches Err(e) && e matches
            Sa818Error::UnexpectedReply(t) && t@ == reply@),
{
    let t = trim_text(reply);
    let n = t.unicode_len();
    let p = find_char(t, ':', 0);
    if p == n {
        return Err(Sa818Error::UnexpectedReply(String::from_str(reply)));
    }
    let prefix = t.substring_char(0, p);
    if !str_eq_text(prefix, "+VERSION") {
        return Err(Sa818Error::UnexpectedReply(String::from_str(reply)));
    }
    let q = find_char(t, ':', p + 1);
    let token = t.substring_char(p + 1, q);
    Ok(String::from_str(token))
}

/// Decides the signal-strength query: the text before the first `=` of the
/// trimmed reply must be `RSSI`, and the text between the first and second
/// `=` (or the end) must be a decimal numeral no greater than 255.
pub fn get_rssi(reply: &str) -> (r: Result<u8, Sa818Error>)
    ensures
        rssi_reply_accepted(reply@) && parses_as_u32(second_token(trim_spec(reply@), '='))
            && numeral_val(second_token(trim_spec(reply@), '=')) <= 255 ==> r == Ok::<u8, Sa818Error>(
            (numeral_val(second_token(trim_spec(reply@), '=')) as u8),
        ),
        rssi_reply_accepted(reply@) && !(parses_as_u32(second_token(trim_spec(reply@), '='))
            && numeral_val(second_token(trim_spec(reply@), '=')) <= 255) ==> (r matches Err(e)
            && e is MalformedNumber),
        !rssi_reply_accepted(reply@) ==> (r matches Err(e) && e matches
            Sa818Error::UnexpectedReply(t) && t@ == reply@),
{
    let t = trim_text(reply);
    let n = t.unicode_len();
    let p = find_char(t, '=', 0);
    if p == n {
        return Err(Sa818Error::UnexpectedReply(String::from_str(reply)));
    }
    let prefix = t.substring_char(0, p);
    if !str_eq_text(prefix, "RSSI") {
        return Err(Sa818Error::UnexpectedReply(String::from_str(reply)));
    }
    let q = find_char(t, '=', p + 1);
    let token = t.substring_char(p + 1, q);
    match parse_u32_text(token) {
        None => Err(Sa818Error::MalformedNumber),
        Some(value) => {
            if value > 255 {
                Err(Sa818Error::MalformedNumber)
            } else {
                Ok(value as u8)
            }
        },
    }
}

/// The module acknowledges a failed channel programming with
/// `+DMOSETGROUP=1`.  Whatever request that line answers, no exchange of the
/// protocol accepts it: it is not the programming acknowledgement, not the
/// handshake acknowledgement, and it passes neither the version nor the
/// signal-strength prefix rule.
pub proof fn lemma_error_ack_rejected()
    ensures
        !exact_reply_accepted("+DMOSETGROUP=1\r\n"@, "+DMOSETGROUP=0"@),
        !exact_reply_accepted("+DMOSETGROUP=1\r\n"@, "+DMOCONNECT:0"@),
        !version_reply_accepted("+DMOSETGROUP=1\r\n"@),
        !rssi_reply_accepted("+DMOSETGROUP=1\r\n"@),
{
    reveal_strlit("+DMOSETGROUP=1\r\n");
    reveal_strlit("+DMOSETGROUP=0");
    reveal_strlit("+DMOCONNECT:0");
    reveal_strlit("+VERSION");
    reveal_strlit("RSSI");
    let v = "+DMOSETGROUP=1\r\n"@;
    assert(v.len() == 16);
    assert(crate::text::trim_start_spec(v) == v);
    let t = trim_spec(v);
    assert(t =~= v.take(14)) by {
        reveal_with_fuel(crate::text::trim_end_spec, 4);
        assert(v.drop_last() =~= v.take(15));
        assert(v.take(15).drop_last() =~= v.take(14));
    }
    assert(t[13] == '1');
    assert("+DMOSETGROUP=0"@[13] == '0');
    assert(t != "+DMOSETGROUP=0"@);
    assert(t.len() == 14 && "+DMOCONNECT:0"@.len() == 13);
    assert(t != "+DMOCONNECT:0"@);
    assert(find_char_from(t, ':', 0) == 14) by {
        reveal_with_fuel(find_char_from, 16);
    }
    assert(find_char_from(t, '=', 0) == 12) by {
        reveal_with_fuel(find_char_from, 14);
    }
    assert(t.take(12).len() == 12 && "RSSI"@.len() == 4);
    assert(t.take(12) != "RSSI"@);
}

} // verus!
