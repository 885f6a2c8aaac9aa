//! The signals a panel item sends to its acceptor, as the server side
//! writes them.
//!
//! Each function builds the signal of the member of the same name from
//! node `node_id`: the aspect and signal ids, and the payload written in
//! the wire format. Writing these payloads cannot fail, and each function
//! states that the acceptor's reader returns on the payload and reads it
//! back as the matching event with the values it was given.
//!
//! The cursor and child signals carry geometries (and a new child floating
//! point input regions), which the acceptor's caller reads; they are not
//! built here.
use crate::acceptor;
use crate::acceptor::{PanelItemEvent, PanelItemMember};
use crate::error::{NodeError, ScenegraphError};
use crate::ids;
use crate::message::{frame_signal, signal_to, SignalMessage};
use crate::types::Vector2;
use crate::wire;
use vstd::prelude::*;

verus! {

/// `res` is the signal `signal` of the panel item aspect from `node_id`
/// with payload `data`, which the acceptor reads as `ev`.
pub open spec fn acceptor_signal(
    res: Result<SignalMessage, NodeError>,
    node_id: u64,
    signal: u64,
    data: Seq<u8>,
    ev: PanelItemEvent,
) -> bool {
    &&& res is Ok
    &&& signal_to(res, node_id, ids::PANEL_ITEM_ASPECT_ID, signal, data)
    &&& acceptor::signal_reader_returns(signal, data)
    &&& acceptor::parsed(signal, data, true, Ok::<PanelItemEvent, ScenegraphError>(ev))
}

/// The cursor's new image, with its acquire and release points.
pub fn update_cursor_dmatex(
    node_id: u64,
    dmatex_uid: u64,
    acquire_point: u64,
    release_point: u64,
) -> (res: Result<SignalMessage, NodeError>)
    ensures
        acceptor_signal(
            res,
            node_id,
            ids::UPDATE_CURSOR_DMATEX,
            wire::flex_write_u64_triple((dmatex_uid, acquire_point, release_point)),
            PanelItemEvent::UpdateCursorDmatex { dmatex_uid, acquire_point, release_point },
        ),
{
    proof {
        acceptor::lemma_signal_id_round_trip(PanelItemMember::UpdateCursorDmatex);
    }
    frame_signal(
        node_id,
        ids::PANEL_ITEM_ASPECT_ID,
        ids::UPDATE_CURSOR_DMATEX,
        wire::serialize_u64_triple((dmatex_uid, acquire_point, release_point)),
    )
}

/// A surface's new image (the toplevel's where `child` is `None`), with
/// its acquire and release points.
pub fn update_surface_dmatex(
    node_id: u64,
    child: Option<u64>,
    dmatex_uid: u64,
    acquire_point: u64,
    release_point: u64,
) -> (res: Result<SignalMessage, NodeError>)
    ensures
        acceptor_signal(
            res,
            node_id,
            ids::UPDATE_SURFACE_DMATEX,
            wire::flex_write_surface_dmatex((child, dmatex_uid, acquire_point, release_point)),
            PanelItemEvent::UpdateSurfaceDmatex { child, dmatex_uid, acquire_point, release_point },
        ),
{
    proof {
        acceptor::lemma_signal_id_round_trip(PanelItemMember::UpdateSurfaceDmatex);
    }
    frame_signal(
        node_id,
        ids::PANEL_ITEM_ASPECT_ID,
        ids::UPDATE_SURFACE_DMATEX,
        wire::serialize_surface_dmatex((child, dmatex_uid, acquire_point, release_point)),
    )
}

/// The toplevel's new title.
pub fn toplevel_title_changed(
    node_id: u64,
    title: String,
) -> (res: Result<SignalMessage, NodeError>)
    ensures
        acceptor_signal(
            res,
            node_id,
            ids::TOPLEVEL_TITLE_CHANGED,
            wire::flex_write_string(title@),
            PanelItemEvent::ToplevelTitleChanged { title },
        ),
{
    proof {
        acceptor::lemma_signal_id_round_trip(PanelItemMember::ToplevelTitleChanged);
    }
    frame_signal(
        node_id,
        ids::PANEL_ITEM_ASPECT_ID,
        ids::TOPLEVEL_TITLE_CHANGED,
        wire::serialize_string(title.as_str()),
    )
}

/// The toplevel's new application id.
pub fn toplevel_app_id_changed(
    node_id: u64,
    app_id: String,
) -> (res: Result<SignalMessage, NodeError>)
    ensures
        acceptor_signal(
            res,
            node_id,
            ids::TOPLEVEL_APP_ID_CHANGED,
            wire::flex_write_string(app_id@),
            PanelItemEvent::ToplevelAppIdChanged { app_id },
        ),
{
    proof {
        acceptor::lemma_signal_id_round_trip(PanelItemMember::ToplevelAppIdChanged);
    }
    frame_signal(
        node_id,
        ids::PANEL_ITEM_ASPECT_ID,
        ids::TOPLEVEL_APP_ID_CHANGED,
        wire::serialize_string(app_id.as_str()),
    )
}

/// Whether the toplevel is now fullscreen.
pub fn toplevel_fullscreen_active(
    node_id: u64,
    active: bool,
) -> (res: Result<SignalMessage, NodeError>)
    ensures
        acceptor_signal(
            res,
            node_id,
            ids::TOPLEVEL_FULLSCREEN_ACTIVE,
            wire::flex_write_bool(active),
            PanelItemEvent::ToplevelFullscreenActive { active },
        ),
{
    proof {
        acceptor::lemma_signal_id_round_trip(PanelItemMember::ToplevelFullscreenActive);
    }
    frame_signal(
        node_id,
        ids::PANEL_ITEM_ASPECT_ID,
        ids::TOPLEVEL_FULLSCREEN_ACTIVE,
        wire::serialize_bool(active),
    )
}

/// The toplevel asks to be moved.
pub fn toplevel_move_request(node_id: u64) -> (res: Result<SignalMessage, NodeError>)
    ensures
        acceptor_signal(
            res,
            node_id,
            ids::TOPLEVEL_MOVE_REQUEST,
            wire::null_root(),
            PanelItemEvent::ToplevelMoveRequest {},
        ),
{
    proof {
        acceptor::lemma_signal_id_round_trip(PanelItemMember::ToplevelMoveRequest);
    }
    frame_signal(
        node_id,
        ids::PANEL_ITEM_ASPECT_ID,
        ids::TOPLEVEL_MOVE_REQUEST,
        wire::serialize_unit(()),
    )
}

/// The toplevel asks to be resized from the given edges.
pub fn toplevel_resize_request(
    node_id: u64,
    up: bool,
    down: bool,
    left: bool,
    right: bool,
) -> (res: Result<SignalMessage, NodeError>)
    ensures
        acceptor_signal(
            res,
            node_id,
            ids::TOPLEVEL_RESIZE_REQUEST,
            wire::flex_write_bool_quad((up, down, left, right)),
            PanelItemEvent::ToplevelResizeRequest { up, down, left, right },
        ),
{
    proof {
        acceptor::lemma_signal_id_round_trip(PanelItemMember::ToplevelResizeRequest);
    }
    frame_signal(
        node_id,
        ids::PANEL_ITEM_ASPECT_ID,
        ids::TOPLEVEL_RESIZE_REQUEST,
        wire::serialize_bool_quad((up, down, left, right)),
    )
}

/// The toplevel's new size in pixels.
pub fn toplevel_size_changed(
    node_id: u64,
    size: Vector2<u32>,
) -> (res: Result<SignalMessage, NodeError>)
    ensures
        acceptor_signal(
            res,
            node_id,
            ids::TOPLEVEL_SIZE_CHANGED,
            wire::flex_write_vector2_u32((size.x, size.y)),
            PanelItemEvent::ToplevelSizeChanged { size },
        ),
{
    proof {
        acceptor::lemma_signal_id_round_trip(PanelItemMember::ToplevelSizeChanged);
    }
    frame_signal(
        node_id,
        ids::PANEL_ITEM_ASPECT_ID,
        ids::TOPLEVEL_SIZE_CHANGED,
        wire::serialize_vector2_u32((size.x, size.y)),
    )
}

/// The surface `child` grabs the keyboard for itself.
pub fn exclusive_keyboard_grab(node_id: u64, child: u64) -> (res: Result<SignalMessage, NodeError>)
    ensures
        acceptor_signal(
            res,
            node_id,
            ids::EXCLUSIVE_KEYBOARD_GRAB,
            wire::flex_write_u64(child),
            PanelItemEvent::ExclusiveKeyboardGrab { child },
        ),
{
    proof {
        acceptor::lemma_signal_id_round_trip(PanelItemMember::ExclusiveKeyboardGrab);
    }
    frame_signal(
        node_id,
        ids::PANEL_ITEM_ASPECT_ID,
        ids::EXCLUSIVE_KEYBOARD_GRAB,
        wire::serialize_u64(child),
    )
}

/// The cursor is hidden.
pub fn hide_cursor(node_id: u64) -> (res: Result<SignalMessage, NodeError>)
    ensures
        acceptor_signal(
            res,
            node_id,
            ids::HIDE_CURSOR,
            wire::null_root(),
            PanelItemEvent::HideCursor {},
        ),
{
    proof {
        acceptor::lemma_signal_id_round_trip(PanelItemMember::HideCursor);
    }
    frame_signal(
        node_id,
        ids::PANEL_ITEM_ASPECT_ID,
        ids::HIDE_CURSOR,
        wire::serialize_unit(()),
    )
}

/// The child surface `uid` is gone.
pub fn destroy_child(node_id: u64, uid: u64) -> (res: Result<SignalMessage, NodeError>)
    ensures
        acceptor_signal(
            res,
            node_id,
            ids::DESTROY_CHILD,
            wire::flex_write_u64(uid),
            PanelItemEvent::DestroyChild { uid },
        ),
{
    proof {
        acceptor::lemma_signal_id_round_trip(PanelItemMember::DestroyChild);
    }
    frame_signal(
        node_id,
        ids::PANEL_ITEM_ASPECT_ID,
        ids::DESTROY_CHILD,
        wire::serialize_u64(uid),
    )
}

} // verus!
