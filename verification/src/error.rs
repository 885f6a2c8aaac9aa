//! Error types of the panel item protocol.
use stardust_xr_wire::messenger::MessengerError;
use stardust_xr_wire::scenegraph::ScenegraphError as Wire;
use vstd::prelude::*;

verus! {

/// The error type that the flexbuffers reader reports when a payload does
/// not decode.
#[verifier::external_type_specification]
#[verifier::external_body]
pub struct ExDeserializationError(stardust_xr_wire::flex::flexbuffers::DeserializationError);

/// The error type that the wire serializer reports.
#[verifier::external_type_specification]
#[verifier::external_body]
pub struct ExFlexSerializeError(stardust_xr_wire::flex::FlexSerializeError);

/// An I/O error, which a messenger error can carry.
#[verifier::external_type_specification]
#[verifier::external_body]
pub struct ExIoError(std::io::Error);

/// A flatbuffers verification error, which a messenger error can carry.
#[verifier::external_type_specification]
#[verifier::external_body]
pub struct ExInvalidFlatbuffer(flatbuffers::InvalidFlatbuffer);

/// The error type of the wire messenger, with its variants visible: a
/// dropped receiver, an I/O error, a corrupt message or an out-of-range
/// message type.
#[verifier::external_type_specification]
pub struct ExMessengerError(stardust_xr_wire::messenger::MessengerError);

/// Why a received signal or method call could not be handled.
#[derive(Clone, Debug, PartialEq, Eq)]
pub enum ScenegraphError {
    NodeNotFound,
    BrokenAlias,
    AspectNotFound,
    /// The signal or method id names no member of the aspect.
    MemberNotFound,
    /// The member exists but its payload could not be read.
    MemberError { error: String },
    InternalError(String),
}

/// Why an operation on a node failed.
#[derive(Debug)]
#[allow(inconsistent_fields)]
pub enum NodeError {
    ClientDropped,
    MessengerError { e: stardust_xr_wire::messenger::MessengerError },
    /// The node is not owned by this client, or is gone.
    DoesNotExist,
    NotAliased,
    InvalidPath,
    Serialization { e: stardust_xr_wire::flex::FlexSerializeError },
    Deserialization { e: stardust_xr_wire::flex::flexbuffers::DeserializationError },
    /// The server answered a method call with an error message.
    ReturnedError { e: String },
    OverrideSingleton,
    MapInvalid,
}

/// `stardust_xr_wire`'s conversion of a reader error into a scenegraph
/// error. Its source always builds the `MemberError` variant (with a
/// message that renders the reader error); that variant is all this
/// contract claims, the message text is left unsaid.
#[verifier::external_body]
pub(crate) fn member_error(e: stardust_xr_wire::flex::flexbuffers::DeserializationError) -> (res:
    ScenegraphError)
    ensures
        res is MemberError,
{
    match Wire::from(e) {
        Wire::NodeNotFound => ScenegraphError::NodeNotFound,
        Wire::BrokenAlias => ScenegraphError::BrokenAlias,
        Wire::AspectNotFound => ScenegraphError::AspectNotFound,
        Wire::MemberNotFound => ScenegraphError::MemberNotFound,
        Wire::MemberError { error } => ScenegraphError::MemberError { error },
        Wire::InternalError(s) => ScenegraphError::InternalError(s),
    }
}

/// The error a node reports when the messenger refuses a signal: a dropped
/// receiver means the client is gone; any other messenger error is passed on
/// unchanged.
pub fn signal_delivery_error(e: MessengerError) -> (res: NodeError)
    ensures
        e is ReceiverDropped ==> res is ClientDropped,
        !(e is ReceiverDropped) ==> res == (NodeError::MessengerError { e }),
{
    match e {
        MessengerError::ReceiverDropped => NodeError::ClientDropped,
        other => NodeError::MessengerError { e: other },
    }
}

} // verus!
