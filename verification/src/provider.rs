//! The provider's side of the panel item aspect: the signals it receives
//! from acceptors and the events they become.
use crate::acceptor;
use crate::error::{member_error, ScenegraphError};
use crate::ids;
use crate::types::Vector2;
use crate::wire;
use stardust_xr_wire::flex::flexbuffers::DeserializationError;
use vstd::prelude::*;

verus! {

/// The signals of the panel item aspect that a provider receives.
#[derive(Clone, Copy, Debug, PartialEq, Eq, Structural)]
pub enum PanelItemMember {
    PanelItemOutputSpatial,
    AbsolutePointerMotion,
    RelativePointerMotion,
    PointerButton,
    PointerScroll,
    PointerStopScroll,
    KeyboardKey,
    TouchDown,
    TouchMove,
    TouchUp,
    ResetInput,
    CloseToplevel,
    AutoSizeToplevel,
    SetToplevelSize,
    SetToplevelFocusedVisuals,
}

impl PanelItemMember {
    pub open spec fn spec_signal_id(self) -> u64 {
        match self {
            PanelItemMember::PanelItemOutputSpatial => ids::PANEL_ITEM_OUTPUT_SPATIAL,
            PanelItemMember::AbsolutePointerMotion => ids::ABSOLUTE_POINTER_MOTION,
            PanelItemMember::RelativePointerMotion => ids::RELATIVE_POINTER_MOTION,
            PanelItemMember::PointerButton => ids::POINTER_BUTTON,
            PanelItemMember::PointerScroll => ids::POINTER_SCROLL,
            PanelItemMember::PointerStopScroll => ids::POINTER_STOP_SCROLL,
            PanelItemMember::KeyboardKey => ids::KEYBOARD_KEY,
            PanelItemMember::TouchDown => ids::TOUCH_DOWN,
            PanelItemMember::TouchMove => ids::TOUCH_MOVE,
            PanelItemMember::TouchUp => ids::TOUCH_UP,
            PanelItemMember::ResetInput => ids::RESET_INPUT,
            PanelItemMember::CloseToplevel => ids::CLOSE_TOPLEVEL,
            PanelItemMember::AutoSizeToplevel => ids::AUTO_SIZE_TOPLEVEL,
            PanelItemMember::SetToplevelSize => ids::SET_TOPLEVEL_SIZE,
            PanelItemMember::SetToplevelFocusedVisuals => ids::SET_TOPLEVEL_FOCUSED_VISUALS,
        }
    }

    /// The signal id of this member.
    pub fn signal_id(&self) -> (res: u64)
        ensures
            res == self.spec_signal_id(),
    {
        match self {
            PanelItemMember::PanelItemOutputSpatial => ids::PANEL_ITEM_OUTPUT_SPATIAL,
            PanelItemMember::AbsolutePointerMotion => ids::ABSOLUTE_POINTER_MOTION,
            PanelItemMember::RelativePointerMotion => ids::RELATIVE_POINTER_MOTION,
            PanelItemMember::PointerButton => ids::POINTER_BUTTON,
            PanelItemMember::PointerScroll => ids::POINTER_SCROLL,
            PanelItemMember::PointerStopScroll => ids::POINTER_STOP_SCROLL,
            PanelItemMember::KeyboardKey => ids::KEYBOARD_KEY,
            PanelItemMember::TouchDown => ids::TOUCH_DOWN,
            PanelItemMember::TouchMove => ids::TOUCH_MOVE,
            PanelItemMember::TouchUp => ids::TOUCH_UP,
            PanelItemMember::ResetInput => ids::RESET_INPUT,
            PanelItemMember::CloseToplevel => ids::CLOSE_TOPLEVEL,
            PanelItemMember::AutoSizeToplevel => ids::AUTO_SIZE_TOPLEVEL,
            PanelItemMember::SetToplevelSize => ids::SET_TOPLEVEL_SIZE,
            PanelItemMember::SetToplevelFocusedVisuals => ids::SET_TOPLEVEL_FOCUSED_VISUALS,
        }
    }

    /// The member whose signal id is `id`, if any.
    pub open spec fn spec_from_signal_id(id: u64) -> Option<PanelItemMember> {
        if exists|m: PanelItemMember| m.spec_signal_id() == id {
            Some(choose|m: PanelItemMember| m.spec_signal_id() == id)
        } else {
            None
        }
    }

    /// The member whose signal id is `id`, if any.
    pub fn from_signal_id(id: u64) -> (res: Option<PanelItemMember>)
        ensures
            res == Self::spec_from_signal_id(id),
    {
        let res = if id == ids::PANEL_ITEM_OUTPUT_SPATIAL {
            Some(PanelItemMember::PanelItemOutputSpatial)
        } else if id == ids::ABSOLUTE_POINTER_MOTION {
            Some(PanelItemMember::AbsolutePointerMotion)
        } else if id == ids::RELATIVE_POINTER_MOTION {
            Some(PanelItemMember::RelativePointerMotion)
        } else if id == ids::POINTER_BUTTON {
            Some(PanelItemMember::PointerButton)
        } else if id == ids::POINTER_SCROLL {
            Some(PanelItemMember::PointerScroll)
        } else if id == ids::POINTER_STOP_SCROLL {
            Some(PanelItemMember::PointerStopScroll)
        } else if id == ids::KEYBOARD_KEY {
            Some(PanelItemMember::KeyboardKey)
        } else if id == ids::TOUCH_DOWN {
            Some(PanelItemMember::TouchDown)
        } else if id == ids::TOUCH_MOVE {
            Some(PanelItemMember::TouchMove)
        } else if id == ids::TOUCH_UP {
            Some(PanelItemMember::TouchUp)
        } else if id == ids::RESET_INPUT {
            Some(PanelItemMember::ResetInput)
        } else if id == ids::CLOSE_TOPLEVEL {
            Some(PanelItemMember::CloseToplevel)
        } else if id == ids::AUTO_SIZE_TOPLEVEL {
            Some(PanelItemMember::AutoSizeToplevel)
        } else if id == ids::SET_TOPLEVEL_SIZE {
            Some(PanelItemMember::SetToplevelSize)
        } else if id == ids::SET_TOPLEVEL_FOCUSED_VISUALS {
            Some(PanelItemMember::SetToplevelFocusedVisuals)
        } else {
            None
        };
        proof {
            match res {
                Some(m) => lemma_signal_id_round_trip(m),
                None => {
                    assert forall|q: PanelItemMember| q.spec_signal_id() != id by {}
                },
            }
        }
        res
    }
}

/// A signal the provider received, read into its values.
///
/// The input signals carry floating point coordinates or a surface id, and
/// the caller reads those payloads (a surface id with its own serde
/// reader, which takes the variant by index or by name and the tagged map
/// form too); for these this type keeps the payload as received.
#[derive(Clone, Debug, PartialEq, Eq)]
pub enum PanelItemEvent {
    PanelItemOutputSpatial { spaital_ref_uid: u64 },
    AbsolutePointerMotion { payload: Vec<u8> },
    RelativePointerMotion { payload: Vec<u8> },
    PointerButton { payload: Vec<u8> },
    PointerScroll { payload: Vec<u8> },
    PointerStopScroll { payload: Vec<u8> },
    KeyboardKey { payload: Vec<u8> },
    TouchDown { payload: Vec<u8> },
    TouchMove { payload: Vec<u8> },
    TouchUp { payload: Vec<u8> },
    ResetInput { payload: Vec<u8> },
    CloseToplevel {},
    AutoSizeToplevel {},
    SetToplevelSize { size: Vector2<u32> },
    SetToplevelFocusedVisuals { focused: bool },
}

/// The members whose payload carries floating point values or a surface
/// id: the caller reads those payloads.
pub open spec fn read_by_caller(m: PanelItemMember) -> bool {
    ||| m is AbsolutePointerMotion
    ||| m is RelativePointerMotion
    ||| m is PointerButton
    ||| m is PointerScroll
    ||| m is PointerStopScroll
    ||| m is KeyboardKey
    ||| m is TouchDown
    ||| m is TouchMove
    ||| m is TouchUp
    ||| m is ResetInput
}

/// Whether the wire reader returns (rather than panics) on the payload
/// `data` of member `m`, for the members read here.
pub open spec fn reader_returns(m: PanelItemMember, data: Seq<u8>) -> bool {
    match m {
        PanelItemMember::PanelItemOutputSpatial => wire::flex_read_u64(data) is Some,
        PanelItemMember::CloseToplevel => wire::flex_read_unit(data) is Some,
        PanelItemMember::AutoSizeToplevel => wire::flex_read_unit(data) is Some,
        PanelItemMember::SetToplevelSize => wire::flex_read_vector2_u32(data) is Some,
        PanelItemMember::SetToplevelFocusedVisuals => wire::flex_read_bool(data) is Some,
        _ => true,
    }
}

/// Whether the wire reader returns on the payload `data` of signal
/// `signal_id` (trivially so for an unknown id, whose payload is not read).
pub open spec fn signal_reader_returns(signal_id: u64, data: Seq<u8>) -> bool {
    match PanelItemMember::spec_from_signal_id(signal_id) {
        Some(m) => reader_returns(m, data),
        None => true,
    }
}

/// The event that the payload `data` of member `m` reads as, for the
/// members read here; `None` where the payload does not read as the
/// member's tuple.
pub open spec fn decoded(m: PanelItemMember, data: Seq<u8>) -> Option<PanelItemEvent> {
    match m {
        PanelItemMember::PanelItemOutputSpatial => match wire::flex_read_u64(data) {
            Some(Some(v)) => Some(PanelItemEvent::PanelItemOutputSpatial { spaital_ref_uid: v }),
            _ => None,
        },
        PanelItemMember::CloseToplevel => if wire::flex_read_unit(data) == Some(true) {
            Some(PanelItemEvent::CloseToplevel {})
        } else {
            None
        },
        PanelItemMember::AutoSizeToplevel => if wire::flex_read_unit(data) == Some(true) {
            Some(PanelItemEvent::AutoSizeToplevel {})
        } else {
            None
        },
        PanelItemMember::SetToplevelSize => match wire::flex_read_vector2_u32(data) {
            Some(Some((x, y))) => Some(PanelItemEvent::SetToplevelSize { size: Vector2 { x, y } }),
            _ => None,
        },
        PanelItemMember::SetToplevelFocusedVisuals => match wire::flex_read_bool(data) {
            Some(Some(focused)) => Some(PanelItemEvent::SetToplevelFocusedVisuals { focused }),
            _ => None,
        },
        _ => None,
    }
}

/// `ev` is the event of member `m` (one the caller reads) that keeps the
/// payload `data` as received.
pub open spec fn kept_payload(m: PanelItemMember, data: Seq<u8>, ev: PanelItemEvent) -> bool {
    match m {
        PanelItemMember::PointerButton => ev matches PanelItemEvent::PointerButton { payload }
            && payload@ == data,
        PanelItemMember::PointerStopScroll => ev matches PanelItemEvent::PointerStopScroll {
            payload,
        } && payload@ == data,
        PanelItemMember::KeyboardKey => ev matches PanelItemEvent::KeyboardKey { payload }
            && payload@ == data,
        PanelItemMember::TouchUp => ev matches PanelItemEvent::TouchUp { payload } && payload@
            == data,
        PanelItemMember::ResetInput => ev matches PanelItemEvent::ResetInput { payload }
            && payload@ == data,
        PanelItemMember::AbsolutePointerMotion => ev matches PanelItemEvent::AbsolutePointerMotion {
            payload,
        } && payload@ == data,
        PanelItemMember::RelativePointerMotion => ev matches PanelItemEvent::RelativePointerMotion {
            payload,
        } && payload@ == data,
        PanelItemMember::PointerScroll => ev matches PanelItemEvent::PointerScroll { payload }
            && payload@ == data,
        PanelItemMember::TouchDown => ev matches PanelItemEvent::TouchDown { payload } && payload@
            == data,
        PanelItemMember::TouchMove => ev matches PanelItemEvent::TouchMove { payload } && payload@
            == data,
        _ => false,
    }
}

/// What a signal `signal_id` with payload `data` is parsed to: an unknown
/// id is `MemberNotFound`. A member the caller reads is its event with the
/// payload kept where the caller read the payload as the member's tuple
/// (`caller_read_ok`), a `MemberError` otherwise. Any other
/// member is the event its payload reads as, or a `MemberError` where it
/// does not read.
pub open spec fn parsed(
    signal_id: u64,
    data: Seq<u8>,
    caller_read_ok: bool,
    res: Result<PanelItemEvent, ScenegraphError>,
) -> bool {
    match PanelItemMember::spec_from_signal_id(signal_id) {
        None => res matches Err(e) && e is MemberNotFound,
        Some(m) => if read_by_caller(m) {
            if caller_read_ok {
                res matches Ok(ev) && kept_payload(m, data, ev)
            } else {
                res matches Err(e) && e is MemberError
            }
        } else {
            match decoded(m, data) {
                Some(ev) => res == Ok::<PanelItemEvent, ScenegraphError>(ev),
                None => res matches Err(e) && e is MemberError,
            }
        },
    }
}

/// Reads a signal of the panel item aspect into an event.
///
/// The payloads of the input signals hold floating point values or a
/// surface id, which the caller reads with their own serde readers:
/// `caller_read` is the outcome of its reading the payload as the member's
/// tuple (it is not looked at for other members), and a reader error
/// becomes a `MemberError`.
pub fn parse_signal(
    signal_id: u64,
    data: &[u8],
    caller_read: Result<(), DeserializationError>,
) -> (res: Result<PanelItemEvent, ScenegraphError>)
    requires
        signal_reader_returns(signal_id, data@),
    ensures
        parsed(signal_id, data@, caller_read is Ok, res),
        res matches Ok(PanelItemEvent::AbsolutePointerMotion { payload }) ==> payload@ == data@,
        res matches Ok(PanelItemEvent::RelativePointerMotion { payload }) ==> payload@ == data@,
        res matches Ok(PanelItemEvent::PointerButton { payload }) ==> payload@ == data@,
        res matches Ok(PanelItemEvent::PointerScroll { payload }) ==> payload@ == data@,
        res matches Ok(PanelItemEvent::PointerStopScroll { payload }) ==> payload@ == data@,
        res matches Ok(PanelItemEvent::KeyboardKey { payload }) ==> payload@ == data@,
        res matches Ok(PanelItemEvent::TouchDown { payload }) ==> payload@ == data@,
        res matches Ok(PanelItemEvent::TouchMove { payload }) ==> payload@ == data@,
        res matches Ok(PanelItemEvent::TouchUp { payload }) ==> payload@ == data@,
        res matches Ok(PanelItemEvent::ResetInput { payload }) ==> payload@ == data@,
{
    let member = match PanelItemMember::from_signal_id(signal_id) {
        Some(m) => m,
        None => return Err(ScenegraphError::MemberNotFound),
    };
    let kept = match caller_read {
        Ok(()) => Ok(vstd::slice::slice_to_vec(data)),
        Err(e) => Err(member_error(e)),
    };
    match member {
        PanelItemMember::PanelItemOutputSpatial => match wire::deserialize_u64(data) {
            Ok(spaital_ref_uid) => Ok(PanelItemEvent::PanelItemOutputSpatial { spaital_ref_uid }),
            Err(e) => Err(member_error(e)),
        },
        PanelItemMember::AbsolutePointerMotion => match kept {
            Ok(payload) => Ok(PanelItemEvent::AbsolutePointerMotion { payload }),
            Err(e) => Err(e),
        },
        PanelItemMember::RelativePointerMotion => match kept {
            Ok(payload) => Ok(PanelItemEvent::RelativePointerMotion { payload }),
            Err(e) => Err(e),
        },
        PanelItemMember::PointerButton => match kept {
            Ok(payload) => Ok(PanelItemEvent::PointerButton { payload }),
            Err(e) => Err(e),
        },
        PanelItemMember::PointerScroll => match kept {
            Ok(payload) => Ok(PanelItemEvent::PointerScroll { payload }),
            Err(e) => Err(e),
        },
        PanelItemMember::PointerStopScroll => match kept {
            Ok(payload) => Ok(PanelItemEvent::PointerStopScroll { payload }),
            Err(e) => Err(e),
        },
        PanelItemMember::KeyboardKey => match kept {
            Ok(payload) => Ok(PanelItemEvent::KeyboardKey { payload }),
            Err(e) => Err(e),
        },
        PanelItemMember::TouchDown => match kept {
            Ok(payload) => Ok(PanelItemEvent::TouchDown { payload }),
            Err(e) => Err(e),
        },
        PanelItemMember::TouchMove => match kept {
            Ok(payload) => Ok(PanelItemEvent::TouchMove { payload }),
            Err(e) => Err(e),
        },
        PanelItemMember::TouchUp => match kept {
            Ok(payload) => Ok(PanelItemEvent::TouchUp { payload }),
            Err(e) => Err(e),
        },
        PanelItemMember::ResetInput => match kept {
            Ok(payload) => Ok(PanelItemEvent::ResetInput { payload }),
            Err(e) => Err(e),
        },
        PanelItemMember::CloseToplevel => match wire::deserialize_unit(data) {
            Ok(()) => Ok(PanelItemEvent::CloseToplevel {}),
            Err(e) => Err(member_error(e)),
        },
        PanelItemMember::AutoSizeToplevel => match wire::deserialize_unit(data) {
            Ok(()) => Ok(PanelItemEvent::AutoSizeToplevel {}),
            Err(e) => Err(member_error(e)),
        },
        PanelItemMember::SetToplevelSize => match wire::deserialize_vector2_u32(data) {
            Ok((x, y)) => Ok(PanelItemEvent::SetToplevelSize { size: Vector2 { x, y } }),
            Err(e) => Err(member_error(e)),
        },
        PanelItemMember::SetToplevelFocusedVisuals => match wire::deserialize_bool(data) {
            Ok(focused) => Ok(PanelItemEvent::SetToplevelFocusedVisuals { focused }),
            Err(e) => Err(member_error(e)),
        },
    }
}

/// The panel item aspect has no methods: every method call is answered
/// with `MemberNotFound`.
pub fn parse_method(method_id: u64, data: &[u8]) -> (res: Result<PanelItemEvent, ScenegraphError>)
    ensures
        res matches Err(e) && e is MemberNotFound,
{
    Err(ScenegraphError::MemberNotFound)
}

/// A member the caller reads comes back with the received payload
/// unchanged, whatever its length.
pub proof fn lemma_kept_payload_is_received(
    signal_id: u64,
    data: Seq<u8>,
    caller_read_ok: bool,
    res: Result<PanelItemEvent, ScenegraphError>,
)
    requires
        parsed(signal_id, data, caller_read_ok, res),
    ensures
        res matches Ok(PanelItemEvent::AbsolutePointerMotion { payload }) ==> payload@ == data,
        res matches Ok(PanelItemEvent::RelativePointerMotion { payload }) ==> payload@ == data,
        res matches Ok(PanelItemEvent::PointerButton { payload }) ==> payload@ == data,
        res matches Ok(PanelItemEvent::PointerScroll { payload }) ==> payload@ == data,
        res matches Ok(PanelItemEvent::PointerStopScroll { payload }) ==> payload@ == data,
        res matches Ok(PanelItemEvent::KeyboardKey { payload }) ==> payload@ == data,
        res matches Ok(PanelItemEvent::TouchDown { payload }) ==> payload@ == data,
        res matches Ok(PanelItemEvent::TouchMove { payload }) ==> payload@ == data,
        res matches Ok(PanelItemEvent::TouchUp { payload }) ==> payload@ == data,
        res matches Ok(PanelItemEvent::ResetInput { payload }) ==> payload@ == data,
{
}

/// No two members share a signal id.
pub proof fn lemma_signal_ids_distinct()
    ensures
        forall|a: PanelItemMember, b: PanelItemMember|
            #[trigger] a.spec_signal_id() == #[trigger] b.spec_signal_id() ==> a == b,
{
}

/// Every member's signal id dispatches back to that member.
pub proof fn lemma_signal_id_round_trip(m: PanelItemMember)
    ensures
        PanelItemMember::spec_from_signal_id(m.spec_signal_id()) == Some(m),
{
    lemma_signal_ids_distinct();
}

/// An id that dispatches to a member is that member's signal id.
pub proof fn lemma_signal_id_dispatch(id: u64, m: PanelItemMember)
    requires
        PanelItemMember::spec_from_signal_id(id) == Some(m),
    ensures
        m.spec_signal_id() == id,
{
}

/// The panel item aspect's two directions use disjoint signal ids: no
/// signal the panel item sends to an acceptor is read by a provider as one
/// of its own, and no signal an acceptor sends is read by an acceptor.
pub proof fn lemma_directions_disjoint(p: PanelItemMember, a: acceptor::PanelItemMember)
    ensures
        PanelItemMember::spec_from_signal_id(a.spec_signal_id()) is None,
        acceptor::PanelItemMember::spec_from_signal_id(p.spec_signal_id()) is None,
{
    assert forall|q: PanelItemMember| q.spec_signal_id() != a.spec_signal_id() by {}
    assert forall|q: acceptor::PanelItemMember| q.spec_signal_id() != p.spec_signal_id() by {}
}

} // verus!
