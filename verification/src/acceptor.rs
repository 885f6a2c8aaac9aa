//! The acceptor's side of the panel item aspect: the signals the panel
//! item sends to an acceptor and the events they become.
use crate::error::{member_error, ScenegraphError};
use crate::ids;
use crate::types::Vector2;
use crate::wire;
use stardust_xr_wire::flex::flexbuffers::DeserializationError;
use vstd::prelude::*;

verus! {

/// The signals of the panel item aspect that an acceptor receives.
#[derive(Clone, Copy, Debug, PartialEq, Eq, Structural)]
pub enum PanelItemMember {
    UpdateCursorDmatex,
    UpdateSurfaceDmatex,
    ToplevelTitleChanged,
    ToplevelAppIdChanged,
    ToplevelFullscreenActive,
    ToplevelMoveRequest,
    ToplevelResizeRequest,
    ToplevelSizeChanged,
    ExclusiveKeyboardGrab,
    SetCursor,
    HideCursor,
    CreateChild,
    RepositionChild,
    DestroyChild,
}

impl PanelItemMember {
    pub open spec fn spec_signal_id(self) -> u64 {
        match self {
            PanelItemMember::UpdateCursorDmatex => ids::UPDATE_CURSOR_DMATEX,
            PanelItemMember::UpdateSurfaceDmatex => ids::UPDATE_SURFACE_DMATEX,
            PanelItemMember::ToplevelTitleChanged => ids::TOPLEVEL_TITLE_CHANGED,
            PanelItemMember::ToplevelAppIdChanged => ids::TOPLEVEL_APP_ID_CHANGED,
            PanelItemMember::ToplevelFullscreenActive => ids::TOPLEVEL_FULLSCREEN_ACTIVE,
            PanelItemMember::ToplevelMoveRequest => ids::TOPLEVEL_MOVE_REQUEST,
            PanelItemMember::ToplevelResizeRequest => ids::TOPLEVEL_RESIZE_REQUEST,
            PanelItemMember::ToplevelSizeChanged => ids::TOPLEVEL_SIZE_CHANGED,
            PanelItemMember::ExclusiveKeyboardGrab => ids::EXCLUSIVE_KEYBOARD_GRAB,
            PanelItemMember::SetCursor => ids::SET_CURSOR,
            PanelItemMember::HideCursor => ids::HIDE_CURSOR,
            PanelItemMember::CreateChild => ids::CREATE_CHILD,
            PanelItemMember::RepositionChild => ids::REPOSITION_CHILD,
            PanelItemMember::DestroyChild => ids::DESTROY_CHILD,
        }
    }

    /// The signal id of this member.
    pub fn signal_id(&self) -> (res: u64)
        ensures
            res == self.spec_signal_id(),
    {
        match self {
            PanelItemMember::UpdateCursorDmatex => ids::UPDATE_CURSOR_DMATEX,
            PanelItemMember::UpdateSurfaceDmatex => ids::UPDATE_SURFACE_DMATEX,
            PanelItemMember::ToplevelTitleChanged => ids::TOPLEVEL_TITLE_CHANGED,
            PanelItemMember::ToplevelAppIdChanged => ids::TOPLEVEL_APP_ID_CHANGED,
            PanelItemMember::ToplevelFullscreenActive => ids::TOPLEVEL_FULLSCREEN_ACTIVE,
            PanelItemMember::ToplevelMoveRequest => ids::TOPLEVEL_MOVE_REQUEST,
            PanelItemMember::ToplevelResizeRequest => ids::TOPLEVEL_RESIZE_REQUEST,
            PanelItemMember::ToplevelSizeChanged => ids::TOPLEVEL_SIZE_CHANGED,
            PanelItemMember::ExclusiveKeyboardGrab => ids::EXCLUSIVE_KEYBOARD_GRAB,
            PanelItemMember::SetCursor => ids::SET_CURSOR,
            PanelItemMember::HideCursor => ids::HIDE_CURSOR,
            PanelItemMember::CreateChild => ids::CREATE_CHILD,
            PanelItemMember::RepositionChild => ids::REPOSITION_CHILD,
            PanelItemMember::DestroyChild => ids::DESTROY_CHILD,
        }
    }

    /// The member whose signal id is `id`, if any.
    pub open spec fn spec_from_signal_id(id: u64) -> Option<PanelItemMember> {
        if exists|m: PanelItemMember| m.spec_signal_id() == id {
            Some(choose|m: PanelItemMember| m.spec_signal_id() == id)
        } else {
            None
        }
    }

    /// The member whose signal id is `id`, if any.
    pub fn from_signal_id(id: u64) -> (res: Option<PanelItemMember>)
        ensures
            res == Self::spec_from_signal_id(id),
    {
        let res = if id == ids::UPDATE_CURSOR_DMATEX {
            Some(PanelItemMember::UpdateCursorDmatex)
        } else if id == ids::UPDATE_SURFACE_DMATEX {
            Some(PanelItemMember::UpdateSurfaceDmatex)
        } else if id == ids::TOPLEVEL_TITLE_CHANGED {
            Some(PanelItemMember::ToplevelTitleChanged)
        } else if id == ids::TOPLEVEL_APP_ID_CHANGED {
            Some(PanelItemMember::ToplevelAppIdChanged)
        } else if id == ids::TOPLEVEL_FULLSCREEN_ACTIVE {
            Some(PanelItemMember::ToplevelFullscreenActive)
        } else if id == ids::TOPLEVEL_MOVE_REQUEST {
            Some(PanelItemMember::ToplevelMoveRequest)
        } else if id == ids::TOPLEVEL_RESIZE_REQUEST {
            Some(PanelItemMember::ToplevelResizeRequest)
        } else if id == ids::TOPLEVEL_SIZE_CHANGED {
            Some(PanelItemMember::ToplevelSizeChanged)
        } else if id == ids::EXCLUSIVE_KEYBOARD_GRAB {
            Some(PanelItemMember::ExclusiveKeyboardGrab)
        } else if id == ids::SET_CURSOR {
            Some(PanelItemMember::SetCursor)
        } else if id == ids::HIDE_CURSOR {
            Some(PanelItemMember::HideCursor)
        } else if id == ids::CREATE_CHILD {
            Some(PanelItemMember::CreateChild)
        } else if id == ids::REPOSITION_CHILD {
            Some(PanelItemMember::RepositionChild)
        } else if id == ids::DESTROY_CHILD {
            Some(PanelItemMember::DestroyChild)
        } else {
            None
        };
        proof {
            match res {
                Some(m) => lemma_signal_id_round_trip(m),
                None => {
                    assert forall|q: PanelItemMember| q.spec_signal_id() != id by {}
                },
            }
        }
        res
    }
}

/// A signal the acceptor received, read into its values.
///
/// A new child's information carries floating point input regions, and
/// the cursor and child signals carry geometries, which the caller reads
/// with their own serde readers (a geometry is taken as a vector or as a
/// map keyed by field names); for these signals this type keeps the
/// payload as received.
#[derive(Clone, Debug, PartialEq, Eq)]
#[allow(inconsistent_fields)]
pub enum PanelItemEvent {
    UpdateCursorDmatex { dmatex_uid: u64, acquire_point: u64, release_point: u64 },
    UpdateSurfaceDmatex {
        child: Option<u64>,
        dmatex_uid: u64,
        acquire_point: u64,
        release_point: u64,
    },
    ToplevelTitleChanged { title: String },
    ToplevelAppIdChanged { app_id: String },
    ToplevelFullscreenActive { active: bool },
    ToplevelMoveRequest {},
    ToplevelResizeRequest { up: bool, down: bool, left: bool, right: bool },
    ToplevelSizeChanged { size: Vector2<u32> },
    ExclusiveKeyboardGrab { child: u64 },
    SetCursor { payload: Vec<u8> },
    HideCursor {},
    CreateChild { payload: Vec<u8> },
    RepositionChild { payload: Vec<u8> },
    DestroyChild { uid: u64 },
}

/// Whether the wire reader returns (rather than panics) on the payload
/// `data` of member `m`, for the members read here.
pub open spec fn reader_returns(m: PanelItemMember, data: Seq<u8>) -> bool {
    match m {
        PanelItemMember::UpdateCursorDmatex => wire::flex_read_u64_triple(data) is Some,
        PanelItemMember::UpdateSurfaceDmatex => wire::flex_read_surface_dmatex(data) is Some,
        PanelItemMember::ToplevelTitleChanged => wire::flex_read_string(data) is Some,
        PanelItemMember::ToplevelAppIdChanged => wire::flex_read_string(data) is Some,
        PanelItemMember::ToplevelFullscreenActive => wire::flex_read_bool(data) is Some,
        PanelItemMember::ToplevelMoveRequest => wire::flex_read_unit(data) is Some,
        PanelItemMember::ToplevelResizeRequest => wire::flex_read_bool_quad(data) is Some,
        PanelItemMember::ToplevelSizeChanged => wire::flex_read_vector2_u32(data) is Some,
        PanelItemMember::ExclusiveKeyboardGrab => wire::flex_read_u64(data) is Some,
        PanelItemMember::SetCursor => true,
        PanelItemMember::HideCursor => wire::flex_read_unit(data) is Some,
        PanelItemMember::CreateChild => true,
        PanelItemMember::RepositionChild => true,
        PanelItemMember::DestroyChild => wire::flex_read_u64(data) is Some,
    }
}

/// Whether the wire reader returns on the payload `data` of signal
/// `signal_id` (trivially so for an unknown id, whose payload is not read).
pub open spec fn signal_reader_returns(signal_id: u64, data: Seq<u8>) -> bool {
    match PanelItemMember::spec_from_signal_id(signal_id) {
        Some(m) => reader_returns(m, data),
        None => true,
    }
}

/// Whether the payload `data` of member `m` (one read here) reads as the
/// member's tuple.
pub open spec fn payload_reads(m: PanelItemMember, data: Seq<u8>) -> bool {
    match m {
        PanelItemMember::UpdateCursorDmatex => wire::flex_read_u64_triple(data) matches Some(Some(_)),
        PanelItemMember::UpdateSurfaceDmatex => wire::flex_read_surface_dmatex(data) matches Some(Some(_)),
        PanelItemMember::ToplevelTitleChanged => wire::flex_read_string(data) matches Some(Some(_)),
        PanelItemMember::ToplevelAppIdChanged => wire::flex_read_string(data) matches Some(Some(_)),
        PanelItemMember::ToplevelFullscreenActive => wire::flex_read_bool(data) matches Some(Some(_)),
        PanelItemMember::ToplevelMoveRequest => wire::flex_read_unit(data) == Some(true),
        PanelItemMember::ToplevelResizeRequest => wire::flex_read_bool_quad(data) matches Some(Some(_)),
        PanelItemMember::ToplevelSizeChanged => wire::flex_read_vector2_u32(data) matches Some(Some(_)),
        PanelItemMember::ExclusiveKeyboardGrab => wire::flex_read_u64(data) matches Some(Some(_)),
        PanelItemMember::SetCursor => false,
        PanelItemMember::HideCursor => wire::flex_read_unit(data) == Some(true),
        PanelItemMember::CreateChild => false,
        PanelItemMember::RepositionChild => false,
        PanelItemMember::DestroyChild => wire::flex_read_u64(data) matches Some(Some(_)),
    }
}

/// `ev` is the event that the payload `data` of member `m` reads as
/// (meaningful where `payload_reads(m, data)`, or for a member the caller
/// reads, whose payload is kept as received).
pub open spec fn read_event(m: PanelItemMember, data: Seq<u8>, ev: PanelItemEvent) -> bool {
    match m {
        PanelItemMember::UpdateCursorDmatex => {
            let v = wire::flex_read_u64_triple(data).unwrap().unwrap();
            ev == PanelItemEvent::UpdateCursorDmatex {
                dmatex_uid: v.0,
                acquire_point: v.1,
                release_point: v.2,
            }
        },
        PanelItemMember::UpdateSurfaceDmatex => {
            let v = wire::flex_read_surface_dmatex(data).unwrap().unwrap();
            ev == PanelItemEvent::UpdateSurfaceDmatex {
                child: v.0,
                dmatex_uid: v.1,
                acquire_point: v.2,
                release_point: v.3,
            }
        },
        PanelItemMember::ToplevelTitleChanged => ev matches PanelItemEvent::ToplevelTitleChanged {
            title,
        } && title@ == wire::flex_read_string(data).unwrap().unwrap(),
        PanelItemMember::ToplevelAppIdChanged => ev matches PanelItemEvent::ToplevelAppIdChanged {
            app_id,
        } && app_id@ == wire::flex_read_string(data).unwrap().unwrap(),
        PanelItemMember::ToplevelFullscreenActive => ev
            == PanelItemEvent::ToplevelFullscreenActive {
            active: wire::flex_read_bool(data).unwrap().unwrap(),
        },
        PanelItemMember::ToplevelMoveRequest => ev == PanelItemEvent::ToplevelMoveRequest {},
        PanelItemMember::ToplevelResizeRequest => {
            let v = wire::flex_read_bool_quad(data).unwrap().unwrap();
            ev == PanelItemEvent::ToplevelResizeRequest { up: v.0, down: v.1, left: v.2, right: v.3 }
        },
        PanelItemMember::ToplevelSizeChanged => {
            let v = wire::flex_read_vector2_u32(data).unwrap().unwrap();
            ev == PanelItemEvent::ToplevelSizeChanged { size: Vector2 { x: v.0, y: v.1 } }
        },
        PanelItemMember::ExclusiveKeyboardGrab => ev == PanelItemEvent::ExclusiveKeyboardGrab {
            child: wire::flex_read_u64(data).unwrap().unwrap(),
        },
        PanelItemMember::SetCursor => ev matches PanelItemEvent::SetCursor { payload }
            && payload@ == data,
        PanelItemMember::HideCursor => ev == PanelItemEvent::HideCursor {},
        PanelItemMember::CreateChild => ev matches PanelItemEvent::CreateChild { payload }
            && payload@ == data,
        PanelItemMember::RepositionChild => ev matches PanelItemEvent::RepositionChild { payload }
            && payload@ == data,
        PanelItemMember::DestroyChild => ev == PanelItemEvent::DestroyChild {
            uid: wire::flex_read_u64(data).unwrap().unwrap(),
        },
    }
}

/// The members whose payload the caller reads: the cursor geometry, a new
/// child's information and a child's new geometry.
pub open spec fn read_by_caller(m: PanelItemMember) -> bool {
    ||| m is SetCursor
    ||| m is CreateChild
    ||| m is RepositionChild
}

/// What a signal `signal_id` with payload `data` is parsed to: an unknown
/// id is `MemberNotFound`. A member the caller reads is its event with the
/// payload kept where the caller read the payload as the member's tuple
/// (`caller_read_ok`), a `MemberError` otherwise. Any other member is the
/// event its payload reads as, or a `MemberError` where it does not read.
pub open spec fn parsed(
    signal_id: u64,
    data: Seq<u8>,
    caller_read_ok: bool,
    res: Result<PanelItemEvent, ScenegraphError>,
) -> bool {
    match PanelItemMember::spec_from_signal_id(signal_id) {
        None => res matches Err(e) && e is MemberNotFound,
        Some(m) => if read_by_caller(m) {
            if caller_read_ok {
                res matches Ok(ev) && read_event(m, data, ev)
            } else {
                res matches Err(e) && e is MemberError
            }
        } else {
            match res {
                Ok(ev) => payload_reads(m, data) && read_event(m, data, ev),
                Err(e) => !payload_reads(m, data) && e is MemberError,
            }
        },
    }
}

/// Reads a signal of the panel item aspect into an event.
///
/// The cursor and child signals hold geometries (and a new child floating
/// point input regions), which the caller reads with their own serde
/// readers: `caller_read` is the outcome of its reading the payload as the
/// member's tuple (it is not looked at for other members), and a reader
/// error becomes a `MemberError`.
///
/// The payload must be one the wire reader returns on: the flexbuffers
/// reader panics on some malformed buffers, and no function tells those
/// apart before reading. Every payload this library writes is one.
pub fn parse_signal(
    signal_id: u64,
    data: &[u8],
    caller_read: Result<(), DeserializationError>,
) -> (res: Result<PanelItemEvent, ScenegraphError>)
    requires
        signal_reader_returns(signal_id, data@),
    ensures
        parsed(signal_id, data@, caller_read is Ok, res),
        res matches Ok(PanelItemEvent::SetCursor { payload }) ==> payload@ == data@,
        res matches Ok(PanelItemEvent::CreateChild { payload }) ==> payload@ == data@,
        res matches Ok(PanelItemEvent::RepositionChild { payload }) ==> payload@ == data@,
{
    let member = match PanelItemMember::from_signal_id(signal_id) {
        Some(m) => m,
        None => return Err(ScenegraphError::MemberNotFound),
    };
    let kept = match caller_read {
        Ok(()) => Ok(vstd::slice::slice_to_vec(data)),
        Err(e) => Err(member_error(e)),
    };
    match member {
        PanelItemMember::UpdateCursorDmatex => match wire::deserialize_u64_triple(data) {
            Ok((dmatex_uid, acquire_point, release_point)) => Ok(
                PanelItemEvent::UpdateCursorDmatex { dmatex_uid, acquire_point, release_point },
            ),
            Err(e) => Err(member_error(e)),
        },
        PanelItemMember::UpdateSurfaceDmatex => match wire::deserialize_surface_dmatex(data) {
            Ok((child, dmatex_uid, acquire_point, release_point)) => Ok(
                PanelItemEvent::UpdateSurfaceDmatex {
                    child,
                    dmatex_uid,
                    acquire_point,
                    release_point,
                },
            ),
            Err(e) => Err(member_error(e)),
        },
        PanelItemMember::ToplevelTitleChanged => match wire::deserialize_string(data) {
            Ok(title) => Ok(PanelItemEvent::ToplevelTitleChanged { title }),
            Err(e) => Err(member_error(e)),
        },
        PanelItemMember::ToplevelAppIdChanged => match wire::deserialize_string(data) {
            Ok(app_id) => Ok(PanelItemEvent::ToplevelAppIdChanged { app_id }),
            Err(e) => Err(member_error(e)),
        },
        PanelItemMember::ToplevelFullscreenActive => match wire::deserialize_bool(data) {
            Ok(active) => Ok(PanelItemEvent::ToplevelFullscreenActive { active }),
            Err(e) => Err(member_error(e)),
        },
        PanelItemMember::ToplevelMoveRequest => match wire::deserialize_unit(data) {
            Ok(()) => Ok(PanelItemEvent::ToplevelMoveRequest {}),
            Err(e) => Err(member_error(e)),
        },
        PanelItemMember::ToplevelResizeRequest => match wire::deserialize_bool_quad(data) {
            Ok((up, down, left, right)) => Ok(
                PanelItemEvent::ToplevelResizeRequest { up, down, left, right },
            ),
            Err(e) => Err(member_error(e)),
        },
        PanelItemMember::ToplevelSizeChanged => match wire::deserialize_vector2_u32(data) {
            Ok((x, y)) => Ok(PanelItemEvent::ToplevelSizeChanged { size: Vector2 { x, y } }),
            Err(e) => Err(member_error(e)),
        },
        PanelItemMember::ExclusiveKeyboardGrab => match wire::deserialize_u64(data) {
            Ok(child) => Ok(PanelItemEvent::ExclusiveKeyboardGrab { child }),
            Err(e) => Err(member_error(e)),
        },
        PanelItemMember::SetCursor => match kept {
            Ok(payload) => Ok(PanelItemEvent::SetCursor { payload }),
            Err(e) => Err(e),
        },
        PanelItemMember::HideCursor => match wire::deserialize_unit(data) {
            Ok(()) => Ok(PanelItemEvent::HideCursor {}),
            Err(e) => Err(member_error(e)),
        },
        PanelItemMember::CreateChild => match kept {
            Ok(payload) => Ok(PanelItemEvent::CreateChild { payload }),
            Err(e) => Err(e),
        },
        PanelItemMember::RepositionChild => match kept {
            Ok(payload) => Ok(PanelItemEvent::RepositionChild { payload }),
            Err(e) => Err(e),
        },
        PanelItemMember::DestroyChild => match wire::deserialize_u64(data) {
            Ok(uid) => Ok(PanelItemEvent::DestroyChild { uid }),
            Err(e) => Err(member_error(e)),
        },
    }
}

/// The panel item aspect has no methods the acceptor serves: every method
/// call is answered with `MemberNotFound`.
pub fn parse_method(method_id: u64, data: &[u8]) -> (res: Result<PanelItemEvent, ScenegraphError>)
    ensures
        res matches Err(e) && e is MemberNotFound,
{
    Err(ScenegraphError::MemberNotFound)
}

/// A member the caller reads comes back with the received payload
/// unchanged, whatever its length.
pub proof fn lemma_kept_payload_is_received(
    signal_id: u64,
    data: Seq<u8>,
    caller_read_ok: bool,
    res: Result<PanelItemEvent, ScenegraphError>,
)
    requires
        parsed(signal_id, data, caller_read_ok, res),
    ensures
        res matches Ok(PanelItemEvent::SetCursor { payload }) ==> payload@ == data,
        res matches Ok(PanelItemEvent::CreateChild { payload }) ==> payload@ == data,
        res matches Ok(PanelItemEvent::RepositionChild { payload }) ==> payload@ == data,
{
}

/// No two members share a signal id.
pub proof fn lemma_signal_ids_distinct()
    ensures
        forall|a: PanelItemMember, b: PanelItemMember|
            #[trigger] a.spec_signal_id() == #[trigger] b.spec_signal_id() ==> a == b,
{
}

/// Every member's signal id dispatches back to that member.
pub proof fn lemma_signal_id_round_trip(m: PanelItemMember)
    ensures
        PanelItemMember::spec_from_signal_id(m.spec_signal_id()) == Some(m),
{
    lemma_signal_ids_distinct();
}

/// An id that dispatches to a member is that member's signal id.
pub proof fn lemma_signal_id_dispatch(id: u64, m: PanelItemMember)
    requires
        PanelItemMember::spec_from_signal_id(id) == Some(m),
    ensures
        m.spec_signal_id() == id,
{
}

} // verus!
