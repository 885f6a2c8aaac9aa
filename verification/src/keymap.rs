//! The interface-wide keymap methods: registering a keymap with the server
//! and fetching one back by its id.
//!
//! A method call goes out, the server answers later; the call and the
//! reading of the answer are separate steps here, and waiting for the
//! answer is left to the caller.
use crate::error::NodeError;
use crate::ids;
use crate::message::{call_to, frame_call, MethodCall};
use crate::wire;
use vstd::prelude::*;

verus! {

/// Whether the wire reader returns (rather than panics) on a received reply
/// that carries a keymap id.
pub open spec fn id_reply_reader_returns(reply: Result<Vec<u8>, String>) -> bool {
    reply matches Ok(data) ==> wire::flex_read_u64(data@) is Some
}

/// Whether the wire reader returns (rather than panics) on a received reply
/// that carries a keymap's text.
pub open spec fn text_reply_reader_returns(reply: Result<Vec<u8>, String>) -> bool {
    reply matches Ok(data) ==> wire::flex_read_string(data@) is Some
}

/// The call that registers `keymap` with the server.
pub fn register_keymap(keymap: String) -> (res: Result<MethodCall, NodeError>)
    ensures
        res is Ok,
        call_to(
            res,
            ids::INTERFACE_NODE_ID,
            ids::INTERFACE_ASPECT_ID,
            ids::REGISTER_KEYMAP,
            wire::flex_write_string(keymap@),
        ),
{
    frame_call(
        ids::INTERFACE_NODE_ID,
        ids::INTERFACE_ASPECT_ID,
        ids::REGISTER_KEYMAP,
        wire::serialize_string(keymap.as_str()),
    )
}

/// Reads the server's answer to `register_keymap`: the keymap's id, or the
/// error the server returned, or the failure to read the answer.
///
/// A received reply must be one the wire reader returns on (the reader
/// panics on some malformed buffers, and nothing can tell those apart
/// before reading).
pub fn register_keymap_reply(reply: Result<Vec<u8>, String>) -> (res: Result<u64, NodeError>)
    requires
        id_reply_reader_returns(reply),
    ensures
        match reply {
            Err(e) => res matches Err(NodeError::ReturnedError { e: r }) && r@ == e@,
            Ok(data) => match wire::flex_read_u64(data@) {
                Some(Some(id)) => res == Ok::<u64, NodeError>(id),
                _ => res matches Err(e) && e is Deserialization,
            },
        },
{
    match reply {
        Err(e) => Err(NodeError::ReturnedError { e }),
        Ok(data) => match wire::deserialize_u64(data.as_slice()) {
            Ok(id) => Ok(id),
            Err(e) => Err(NodeError::Deserialization { e }),
        },
    }
}

/// The call that fetches the keymap registered as `keymap_id`.
pub fn get_keymap(keymap_id: u64) -> (res: Result<MethodCall, NodeError>)
    ensures
        res is Ok,
        call_to(
            res,
            ids::INTERFACE_NODE_ID,
            ids::INTERFACE_ASPECT_ID,
            ids::GET_KEYMAP,
            wire::flex_write_u64(keymap_id),
        ),
{
    frame_call(
        ids::INTERFACE_NODE_ID,
        ids::INTERFACE_ASPECT_ID,
        ids::GET_KEYMAP,
        wire::serialize_u64(keymap_id),
    )
}

/// Reads the server's answer to `get_keymap`: the keymap's text, or the
/// error the server returned, or the failure to read the answer.
///
/// A received reply must be one the wire reader returns on.
pub fn get_keymap_reply(reply: Result<Vec<u8>, String>) -> (res: Result<String, NodeError>)
    requires
        text_reply_reader_returns(reply),
    ensures
        match reply {
            Err(e) => res matches Err(NodeError::ReturnedError { e: r }) && r@ == e@,
            Ok(data) => match wire::flex_read_string(data@) {
                Some(Some(text)) => res matches Ok(s) && s@ == text,
                _ => res matches Err(e) && e is Deserialization,
            },
        },
{
    match reply {
        Err(e) => Err(NodeError::ReturnedError { e }),
        Ok(data) => match wire::deserialize_string(data.as_slice()) {
            Ok(text) => Ok(text),
            Err(e) => Err(NodeError::Deserialization { e }),
        },
    }
}

} // verus!
