//! What the dispatcher reads from its configuration before it starts: its
//! identifier, which must be a ULID, and its location.

use vstd::prelude::*;
use vstd::string::*;
use crate::config::DispatcherConfig;
use crate::domain::{DispatcherId, H3Cell};
use crate::ulid_codec::{decode_ulid, ulid_decoding, UlidDecodeError};

verus! {

/// The text that describes why a text is not a ULID.
pub open spec fn decode_error_text(e: UlidDecodeError) -> Seq<char> {
    match e {
        UlidDecodeError::InvalidLength => "invalid length"@,
        UlidDecodeError::InvalidChar => "invalid character"@,
    }
}

/// The message given when the configured identifier is not a ULID.
pub open spec fn invalid_id_text(id: Seq<char>, e: UlidDecodeError) -> Seq<char> {
    "invalid dispatcher ID '"@ + id + "': "@ + decode_error_text(e)
}

/// The text that describes why a text is not a ULID.
pub fn decode_error_message(e: UlidDecodeError) -> (m: &'static str)
    ensures
        m@ == decode_error_text(e),
{
    match e {
        UlidDecodeError::InvalidLength => "invalid length",
        UlidDecodeError::InvalidChar => "invalid character",
    }
}

/// The message given when the configured identifier `id` is not a ULID.
pub fn invalid_id_message(id: &str, e: UlidDecodeError) -> (m: String)
    ensures
        m@ == invalid_id_text(id@, e),
{
    let mut m = String::from_str("invalid dispatcher ID '");
    m.append(id);
    m.append("': ");
    m.append(decode_error_message(e));
    m
}

/// Reads a dispatcher identifier from its ULID text.
pub fn parse_dispatcher_id(text: &str) -> (res: Result<DispatcherId, UlidDecodeError>)
    ensures
        res == (match ulid_decoding(text@) {
            Ok(v) => Ok::<DispatcherId, UlidDecodeError>(DispatcherId(v)),
            Err(e) => Err(e),
        }),
{
    match decode_ulid(text) {
        Ok(v) => Ok(DispatcherId(v)),
        Err(e) => Err(e),
    }
}

/// The dispatcher's identity from its configuration: its identifier and
/// location, or the message that says why the identifier is not a ULID.
pub fn dispatcher_identity(config: &DispatcherConfig) -> (res: Result<(DispatcherId, H3Cell), String>)
    ensures
        match ulid_decoding(config.id@) {
            Ok(v) => res == Ok::<(DispatcherId, H3Cell), String>((DispatcherId(v), H3Cell(config.location))),
            Err(e) => res matches Err(m) && m@ == invalid_id_text(config.id@, e),
        },
{
    let id_text = config.id.as_str();
    match parse_dispatcher_id(id_text) {
        Ok(d) => Ok((d, H3Cell(config.location))),
        Err(e) => Err(invalid_id_message(id_text, e)),
    }
}

} // verus!
