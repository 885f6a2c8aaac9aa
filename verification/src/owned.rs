//! The "owned" aspect: nodes this client created, which it can disable or
//! destroy.
use crate::error::{member_error, NodeError, ScenegraphError};
use crate::ids;
use crate::message::{frame_signal, signal_to, SignalMessage};
use crate::wire;
use vstd::prelude::*;

verus! {

/// The signals of the owned aspect.
#[derive(Clone, Copy, Debug, PartialEq, Eq, Structural)]
pub enum OwnedMember {
    SetEnabled,
    Destroy,
}

impl OwnedMember {
    pub open spec fn spec_signal_id(self) -> u64 {
        match self {
            OwnedMember::SetEnabled => ids::OWNED_SET_ENABLED,
            OwnedMember::Destroy => ids::OWNED_DESTROY,
        }
    }

    /// The signal id of this member.
    pub fn signal_id(&self) -> (res: u64)
        ensures
            res == self.spec_signal_id(),
    {
        match self {
            OwnedMember::SetEnabled => ids::OWNED_SET_ENABLED,
            OwnedMember::Destroy => ids::OWNED_DESTROY,
        }
    }

    /// The member whose signal id is `id`, if any.
    pub open spec fn spec_from_signal_id(id: u64) -> Option<OwnedMember> {
        if exists|m: OwnedMember| m.spec_signal_id() == id {
            Some(choose|m: OwnedMember| m.spec_signal_id() == id)
        } else {
            None
        }
    }

    /// The member whose signal id is `id`, if any.
    pub fn from_signal_id(id: u64) -> (res: Option<OwnedMember>)
        ensures
            res == Self::spec_from_signal_id(id),
    {
        let res = if id == ids::OWNED_SET_ENABLED {
            Some(OwnedMember::SetEnabled)
        } else if id == ids::OWNED_DESTROY {
            Some(OwnedMember::Destroy)
        } else {
            None
        };
        proof {
            match res {
                Some(m) => lemma_signal_id_round_trip(m),
                None => {
                    assert forall|q: OwnedMember| q.spec_signal_id() != id by {}
                },
            }
        }
        res
    }
}

/// A signal of the owned aspect, as the server side receives it.
#[derive(Clone, Copy, Debug, PartialEq, Eq, Structural)]
pub enum OwnedEvent {
    SetEnabled { enabled: bool },
    Destroy {},
}

/// Whether the wire reader returns (rather than panics) on the payload
/// `data` of signal `signal_id` (trivially so for an unknown id, whose
/// payload is not read).
pub open spec fn signal_reader_returns(signal_id: u64, data: Seq<u8>) -> bool {
    match OwnedMember::spec_from_signal_id(signal_id) {
        None => true,
        Some(OwnedMember::SetEnabled) => wire::flex_read_bool(data) is Some,
        Some(OwnedMember::Destroy) => wire::flex_read_unit(data) is Some,
    }
}

/// What a signal `signal_id` with payload `data` of the owned aspect is
/// parsed to.
pub open spec fn parsed(signal_id: u64, data: Seq<u8>, res: Result<OwnedEvent, ScenegraphError>) -> bool {
    match OwnedMember::spec_from_signal_id(signal_id) {
        None => res matches Err(e) && e is MemberNotFound,
        Some(OwnedMember::SetEnabled) => match wire::flex_read_bool(data) {
            Some(Some(enabled)) => res == Ok::<OwnedEvent, ScenegraphError>(
                OwnedEvent::SetEnabled { enabled },
            ),
            _ => res matches Err(e) && e is MemberError,
        },
        Some(OwnedMember::Destroy) => if wire::flex_read_unit(data) == Some(true) {
            res == Ok::<OwnedEvent, ScenegraphError>(OwnedEvent::Destroy {})
        } else {
            res matches Err(e) && e is MemberError
        },
    }
}

/// Reads a signal of the owned aspect into an event.
///
/// The payload must be one the wire reader returns on: the flexbuffers
/// reader panics on some malformed buffers, and no function tells those
/// apart before reading. Every payload this library writes is one.
pub fn parse_signal(signal_id: u64, data: &[u8]) -> (res: Result<OwnedEvent, ScenegraphError>)
    requires
        signal_reader_returns(signal_id, data@),
    ensures
        parsed(signal_id, data@, res),
{
    match OwnedMember::from_signal_id(signal_id) {
        None => Err(ScenegraphError::MemberNotFound),
        Some(OwnedMember::SetEnabled) => match wire::deserialize_bool(data) {
            Ok(enabled) => Ok(OwnedEvent::SetEnabled { enabled }),
            Err(e) => Err(member_error(e)),
        },
        Some(OwnedMember::Destroy) => match wire::deserialize_unit(data) {
            Ok(()) => Ok(OwnedEvent::Destroy {}),
            Err(e) => Err(member_error(e)),
        },
    }
}

/// The owned aspect has no methods: every method call is answered with
/// `MemberNotFound`.
pub fn parse_method(method_id: u64, data: &[u8]) -> (res: Result<OwnedEvent, ScenegraphError>)
    ensures
        res matches Err(e) && e is MemberNotFound,
{
    Err(ScenegraphError::MemberNotFound)
}

/// The signal that enables or disables node `node_id`. Disabled drawables
/// don't render, input handlers receive no input.
pub fn set_enabled(node_id: u64, enabled: bool) -> (res: Result<SignalMessage, NodeError>)
    ensures
        signal_to(
            res,
            node_id,
            ids::OWNED_ASPECT_ID,
            ids::OWNED_SET_ENABLED,
            wire::flex_write_bool(enabled),
        ),
        res matches Ok(m) && signal_reader_returns(m.signal, m.data@) && parsed(
            m.signal,
            m.data@,
            Ok::<OwnedEvent, ScenegraphError>(OwnedEvent::SetEnabled { enabled }),
        ),
{
    proof {
        lemma_signal_id_round_trip(OwnedMember::SetEnabled);
    }
    frame_signal(node_id, ids::OWNED_ASPECT_ID, ids::OWNED_SET_ENABLED, wire::serialize_bool(enabled))
}

/// The signal that destroys node `node_id` immediately.
pub fn destroy(node_id: u64) -> (res: Result<SignalMessage, NodeError>)
    ensures
        signal_to(res, node_id, ids::OWNED_ASPECT_ID, ids::OWNED_DESTROY, wire::null_root()),
        res matches Ok(m) && signal_reader_returns(m.signal, m.data@) && parsed(
            m.signal,
            m.data@,
            Ok::<OwnedEvent, ScenegraphError>(OwnedEvent::Destroy {}),
        ),
{
    proof {
        lemma_signal_id_round_trip(OwnedMember::Destroy);
    }
    frame_signal(node_id, ids::OWNED_ASPECT_ID, ids::OWNED_DESTROY, wire::serialize_unit(()))
}

/// Every owned member's signal id dispatches back to that member.
pub proof fn lemma_signal_id_round_trip(m: OwnedMember)
    ensures
        OwnedMember::spec_from_signal_id(m.spec_signal_id()) == Some(m),
{
    assert forall|a: OwnedMember, b: OwnedMember|
        #[trigger] a.spec_signal_id() == #[trigger] b.spec_signal_id() implies a == b by {}
}

/// An id that dispatches to a member is that member's signal id.
pub proof fn lemma_signal_id_dispatch(id: u64, m: OwnedMember)
    requires
        OwnedMember::spec_from_signal_id(id) == Some(m),
    ensures
        m.spec_signal_id() == id,
{
}

} // verus!
