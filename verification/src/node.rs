//! What every node of a panel item connection shares: its id, and whether
//! this client owns it.
use crate::error::NodeError;
use crate::ids;
use crate::message::{signal_to, SignalMessage};
use crate::owned;
use crate::wire;
use vstd::prelude::*;

verus! {

/// The identity of a node: its id, and whether this client created it
/// (only owned nodes can be disabled or destroyed).
#[derive(Clone, Copy, Debug, PartialEq, Eq, Structural)]
pub struct NodeCore {
    pub id: u64,
    pub owned: bool,
}

impl NodeCore {
    pub fn new(id: u64, owned: bool) -> (res: NodeCore)
        ensures
            res.id == id,
            res.owned == owned,
    {
        NodeCore { id, owned }
    }

    /// The node's id (what nodes are compared by).
    pub fn id(&self) -> (res: u64)
        ensures
            res == self.id,
    {
        self.id
    }

    /// The signal that enables or disables this node; a node this client
    /// does not own answers `DoesNotExist`.
    pub fn set_enabled(&self, enabled: bool) -> (res: Result<SignalMessage, NodeError>)
        ensures
            self.owned ==> res is Ok && signal_to(
                res,
                self.id,
                ids::OWNED_ASPECT_ID,
                ids::OWNED_SET_ENABLED,
                wire::flex_write_bool(enabled),
            ),
            !self.owned ==> (res matches Err(e) && e is DoesNotExist),
    {
        if self.owned {
            owned::set_enabled(self.id, enabled)
        } else {
            Err(NodeError::DoesNotExist)
        }
    }

    /// What dropping this node sends: the destroy signal for a node this
    /// client owns, nothing otherwise.
    pub fn drop_signal(&self) -> (res: Option<Result<SignalMessage, NodeError>>)
        ensures
            res is Some <==> self.owned,
            res matches Some(r) ==> r is Ok && signal_to(
                r,
                self.id,
                ids::OWNED_ASPECT_ID,
                ids::OWNED_DESTROY,
                wire::null_root(),
            ),
    {
        if self.owned {
            Some(owned::destroy(self.id))
        } else {
            None
        }
    }
}

} // verus!
