//! Plain data carried by panel item signals.
use vstd::prelude::*;

verus! {

/// A pair of coordinates, laid out like `mint::Vector2`.
#[derive(Clone, Copy, Debug, PartialEq, Eq, Structural)]
pub struct Vector2<T> {
    pub x: T,
    pub y: T,
}

/// Which surface of a panel item an input event goes to.
#[derive(Clone, Copy, Debug, PartialEq, Eq)]
pub enum SurfaceId {
    Toplevel(()),
    Child(u64),
}

/// How a surface id stands on the wire: the variant's index, then its
/// content (nothing for the toplevel, the child's id for a child). This is
/// what the wire writer makes of the surface id's serde form (tagged by
/// `t`, content under `c`): structs become vectors without field names, an
/// enum variant's tag becomes its index, `()` becomes null.
pub type SurfaceWire = (u32, Option<u64>);

impl SurfaceId {
    pub open spec fn wire(self) -> SurfaceWire {
        match self {
            SurfaceId::Toplevel(_) => (0u32, None),
            SurfaceId::Child(c) => (1u32, Some(c)),
        }
    }

    /// The wire form of this surface id.
    pub fn to_wire(&self) -> (res: SurfaceWire)
        ensures
            res == self.wire(),
            *self is Toplevel ==> res == (0u32, None::<u64>),
            forall|c: u64| *self == SurfaceId::Child(c) ==> res == (1u32, Some(c)),
    {
        match self {
            SurfaceId::Toplevel(_) => (0u32, None),
            SurfaceId::Child(c) => (1u32, Some(*c)),
        }
    }
}

/// The wire form names the surface exactly: the toplevel is index 0 with
/// no content, a child is index 1 with the child's full id, and two
/// different surface ids never share a wire form.
pub proof fn lemma_surface_wire_form(s: SurfaceId, t: SurfaceId)
    ensures
        s is Toplevel ==> s.wire() == (0u32, None::<u64>),
        forall|c: u64| s == SurfaceId::Child(c) ==> s.wire() == (1u32, Some(c)),
        s.wire() == t.wire() ==> s == t,
{
}

pub open spec fn optional_surface_wire(s: Option<SurfaceId>) -> Option<SurfaceWire> {
    match s {
        Some(s) => Some(s.wire()),
        None => None,
    }
}

pub fn optional_surface_to_wire(s: &Option<SurfaceId>) -> (res: Option<SurfaceWire>)
    ensures
        res == optional_surface_wire(*s),
{
    match s {
        Some(s) => Some(s.to_wire()),
        None => None,
    }
}

} // verus!
