//! Messages as a node hands them to the messenger.
use crate::error::NodeError;
use stardust_xr_wire::flex::FlexSerializeError;
use vstd::prelude::*;

verus! {

/// A signal addressed to a member of a node's aspect, with its payload.
#[derive(Clone, Debug, PartialEq, Eq)]
pub struct SignalMessage {
    pub node_id: u64,
    pub aspect: u64,
    pub signal: u64,
    pub data: Vec<u8>,
}

/// A method call addressed to a member of a node's aspect, with its payload.
#[derive(Clone, Debug, PartialEq, Eq)]
pub struct MethodCall {
    pub node_id: u64,
    pub aspect: u64,
    pub method: u64,
    pub data: Vec<u8>,
}

/// `res` is the signal `signal` of aspect `aspect` to node `node_id` with
/// payload `data`, or the failure to write that payload.
pub open spec fn signal_to(
    res: Result<SignalMessage, NodeError>,
    node_id: u64,
    aspect: u64,
    signal: u64,
    data: Seq<u8>,
) -> bool {
    match res {
        Ok(m) => m.node_id == node_id && m.aspect == aspect && m.signal == signal && m.data@ == data,
        Err(e) => e is Serialization,
    }
}

/// `res` is the call of method `method` of aspect `aspect` on node
/// `node_id` with payload `data`, or the failure to write that payload.
pub open spec fn call_to(
    res: Result<MethodCall, NodeError>,
    node_id: u64,
    aspect: u64,
    method: u64,
    data: Seq<u8>,
) -> bool {
    match res {
        Ok(m) => m.node_id == node_id && m.aspect == aspect && m.method == method && m.data@ == data,
        Err(e) => e is Serialization,
    }
}

/// Frames a written payload as a signal; a writer error becomes
/// `NodeError::Serialization`.
pub fn frame_signal(
    node_id: u64,
    aspect: u64,
    signal: u64,
    payload: Result<Vec<u8>, FlexSerializeError>,
) -> (res: Result<SignalMessage, NodeError>)
    ensures
        match payload {
            Ok(data) => res == Ok::<SignalMessage, NodeError>(
                SignalMessage { node_id, aspect, signal, data },
            ),
            Err(e) => res == Err::<SignalMessage, NodeError>(NodeError::Serialization { e }),
        },
{
    match payload {
        Ok(data) => Ok(SignalMessage { node_id, aspect, signal, data }),
        Err(e) => Err(NodeError::Serialization { e }),
    }
}

/// Frames a written payload as a method call; a writer error becomes
/// `NodeError::Serialization`.
pub fn frame_call(
    node_id: u64,
    aspect: u64,
    method: u64,
    payload: Result<Vec<u8>, FlexSerializeError>,
) -> (res: Result<MethodCall, NodeError>)
    ensures
        match payload {
            Ok(data) => res == Ok::<MethodCall, NodeError>(
                MethodCall { node_id, aspect, method, data },
            ),
            Err(e) => res == Err::<MethodCall, NodeError>(NodeError::Serialization { e }),
        },
{
    match payload {
        Ok(data) => Ok(MethodCall { node_id, aspect, method, data }),
        Err(e) => Err(NodeError::Serialization { e }),
    }
}

} // verus!
