//! The signals a panel item's aspect sends: input and window management
//! requests from the acceptor to the panel item's provider.
//!
//! Each function builds the signal that the aspect method of the same name
//! sends from node `node_id`: the aspect and signal ids, and the payload
//! written in the wire format. Sending it is left to the caller. Writing
//! these payloads cannot fail, so each function returns its signal; each
//! also states that the provider's reader returns on the payload and reads
//! it back as the matching event with the values it was given, or, for the
//! signals that carry a surface id (which the provider reads with the
//! surface id's own serde reader), keeps it as the matching member's
//! payload.
//!
//! The pointer motion, scroll and touch down/move signals carry floating
//! point coordinates and are not built here.
use crate::error::{NodeError, ScenegraphError};
use crate::ids;
use crate::provider;
use crate::provider::{PanelItemEvent, PanelItemMember};
use crate::message::{frame_signal, signal_to, SignalMessage};
use crate::types::{
    optional_surface_to_wire, optional_surface_wire, SurfaceId,
    Vector2,
};
use crate::wire;
use vstd::prelude::*;

verus! {

/// `res` is the signal `signal` of the panel item aspect from `node_id`
/// with payload `data`, which the provider reads as `ev`.
pub open spec fn provider_signal(
    res: Result<SignalMessage, NodeError>,
    node_id: u64,
    signal: u64,
    data: Seq<u8>,
    ev: PanelItemEvent,
) -> bool {
    &&& res is Ok
    &&& signal_to(res, node_id, ids::PANEL_ITEM_ASPECT_ID, signal, data)
    &&& provider::signal_reader_returns(signal, data)
    &&& provider::parsed(signal, data, true, Ok::<PanelItemEvent, ScenegraphError>(ev))
}

/// `res` is the signal `signal` of the panel item aspect from `node_id`
/// with payload `data`, a member whose payload the provider's caller reads
/// and the provider keeps as received.
pub open spec fn provider_signal_kept(
    res: Result<SignalMessage, NodeError>,
    node_id: u64,
    signal: u64,
    data: Seq<u8>,
) -> bool {
    &&& res is Ok
    &&& signal_to(res, node_id, ids::PANEL_ITEM_ASPECT_ID, signal, data)
    &&& provider::signal_reader_returns(signal, data)
    &&& PanelItemMember::spec_from_signal_id(signal) matches Some(m) && provider::read_by_caller(m)
}

/// Where the panel item will appear on disconnect.
pub fn panel_item_output_spatial(
    node_id: u64,
    spaital_ref_uid: u64,
) -> (res: Result<SignalMessage, NodeError>)
    ensures
        provider_signal(
            res,
            node_id,
            ids::PANEL_ITEM_OUTPUT_SPATIAL,
            wire::flex_write_u64(spaital_ref_uid),
            PanelItemEvent::PanelItemOutputSpatial { spaital_ref_uid },
        ),
{
    proof {
        provider::lemma_signal_id_round_trip(PanelItemMember::PanelItemOutputSpatial);
    }
    frame_signal(
        node_id,
        ids::PANEL_ITEM_ASPECT_ID,
        ids::PANEL_ITEM_OUTPUT_SPATIAL,
        wire::serialize_u64(spaital_ref_uid),
    )
}

/// Sets a pointer button's state (the button code comes from
/// `input_event_codes`).
pub fn pointer_button(
    node_id: u64,
    surface: Option<SurfaceId>,
    button: u32,
    pressed: bool,
) -> (res: Result<SignalMessage, NodeError>)
    ensures
        provider_signal_kept(
            res,
            node_id,
            ids::POINTER_BUTTON,
            wire::flex_write_pointer_button((optional_surface_wire(surface), button, pressed)),
        ),
{
    proof {
        provider::lemma_signal_id_round_trip(PanelItemMember::PointerButton);
    }
    frame_signal(
        node_id,
        ids::PANEL_ITEM_ASPECT_ID,
        ids::POINTER_BUTTON,
        wire::serialize_pointer_button((optional_surface_to_wire(&surface), button, pressed)),
    )
}

/// Stops scrolling the pointer.
pub fn pointer_stop_scroll(
    node_id: u64,
    surface: Option<SurfaceId>,
) -> (res: Result<SignalMessage, NodeError>)
    ensures
        provider_signal_kept(
            res,
            node_id,
            ids::POINTER_STOP_SCROLL,
            wire::flex_write_surface(optional_surface_wire(surface)),
        ),
{
    proof {
        provider::lemma_signal_id_round_trip(PanelItemMember::PointerStopScroll);
    }
    frame_signal(
        node_id,
        ids::PANEL_ITEM_ASPECT_ID,
        ids::POINTER_STOP_SCROLL,
        wire::serialize_surface(optional_surface_to_wire(&surface)),
    )
}

/// Presses or releases a key of the keymap `keymap_id`.
pub fn keyboard_key(
    node_id: u64,
    surface: Option<SurfaceId>,
    keymap_id: u64,
    key: u32,
    pressed: bool,
) -> (res: Result<SignalMessage, NodeError>)
    ensures
        provider_signal_kept(
            res,
            node_id,
            ids::KEYBOARD_KEY,
            wire::flex_write_keyboard_key((optional_surface_wire(surface), keymap_id, key, pressed)),
        ),
{
    proof {
        provider::lemma_signal_id_round_trip(PanelItemMember::KeyboardKey);
    }
    frame_signal(
        node_id,
        ids::PANEL_ITEM_ASPECT_ID,
        ids::KEYBOARD_KEY,
        wire::serialize_keyboard_key((optional_surface_to_wire(&surface), keymap_id, key, pressed)),
    )
}

/// Releases the touch `uid` from its surface.
pub fn touch_up(
    node_id: u64,
    surface: Option<SurfaceId>,
    uid: u32,
) -> (res: Result<SignalMessage, NodeError>)
    ensures
        provider_signal_kept(
            res,
            node_id,
            ids::TOUCH_UP,
            wire::flex_write_touch_up((optional_surface_wire(surface), uid)),
        ),
{
    proof {
        provider::lemma_signal_id_round_trip(PanelItemMember::TouchUp);
    }
    frame_signal(
        node_id,
        ids::PANEL_ITEM_ASPECT_ID,
        ids::TOUCH_UP,
        wire::serialize_touch_up((optional_surface_to_wire(&surface), uid)),
    )
}

/// Resets all input: pressed keys, pointer buttons and touches.
pub fn reset_input(
    node_id: u64,
    surface: Option<SurfaceId>,
) -> (res: Result<SignalMessage, NodeError>)
    ensures
        provider_signal_kept(
            res,
            node_id,
            ids::RESET_INPUT,
            wire::flex_write_surface(optional_surface_wire(surface)),
        ),
{
    proof {
        provider::lemma_signal_id_round_trip(PanelItemMember::ResetInput);
    }
    frame_signal(
        node_id,
        ids::PANEL_ITEM_ASPECT_ID,
        ids::RESET_INPUT,
        wire::serialize_surface(optional_surface_to_wire(&surface)),
    )
}

/// Asks the toplevel to close.
pub fn close_toplevel(node_id: u64) -> (res: Result<SignalMessage, NodeError>)
    ensures
        provider_signal(
            res,
            node_id,
            ids::CLOSE_TOPLEVEL,
            wire::null_root(),
            PanelItemEvent::CloseToplevel {},
        ),
{
    proof {
        provider::lemma_signal_id_round_trip(PanelItemMember::CloseToplevel);
    }
    frame_signal(node_id, ids::PANEL_ITEM_ASPECT_ID, ids::CLOSE_TOPLEVEL, wire::serialize_unit(()))
}

/// Asks the surface to take whatever size the application wants.
pub fn auto_size_toplevel(node_id: u64) -> (res: Result<SignalMessage, NodeError>)
    ensures
        provider_signal(
            res,
            node_id,
            ids::AUTO_SIZE_TOPLEVEL,
            wire::null_root(),
            PanelItemEvent::AutoSizeToplevel {},
        ),
{
    proof {
        provider::lemma_signal_id_round_trip(PanelItemMember::AutoSizeToplevel);
    }
    frame_signal(
        node_id,
        ids::PANEL_ITEM_ASPECT_ID,
        ids::AUTO_SIZE_TOPLEVEL,
        wire::serialize_unit(()),
    )
}

/// Asks for a resize of the surface (in pixels).
pub fn set_toplevel_size(
    node_id: u64,
    size: Vector2<u32>,
) -> (res: Result<SignalMessage, NodeError>)
    ensures
        provider_signal(
            res,
            node_id,
            ids::SET_TOPLEVEL_SIZE,
            wire::flex_write_vector2_u32((size.x, size.y)),
            PanelItemEvent::SetToplevelSize { size },
        ),
{
    proof {
        provider::lemma_signal_id_round_trip(PanelItemMember::SetToplevelSize);
    }
    frame_signal(
        node_id,
        ids::PANEL_ITEM_ASPECT_ID,
        ids::SET_TOPLEVEL_SIZE,
        wire::serialize_vector2_u32((size.x, size.y)),
    )
}

/// Tells the toplevel to look focused (`true`) or unfocused (`false`).
pub fn set_toplevel_focused_visuals(
    node_id: u64,
    focused: bool,
) -> (res: Result<SignalMessage, NodeError>)
    ensures
        provider_signal(
            res,
            node_id,
            ids::SET_TOPLEVEL_FOCUSED_VISUALS,
            wire::flex_write_bool(focused),
            PanelItemEvent::SetToplevelFocusedVisuals { focused },
        ),
{
    proof {
        provider::lemma_signal_id_round_trip(PanelItemMember::SetToplevelFocusedVisuals);
    }
    frame_signal(
        node_id,
        ids::PANEL_ITEM_ASPECT_ID,
        ids::SET_TOPLEVEL_FOCUSED_VISUALS,
        wire::serialize_bool(focused),
    )
}

} // verus!
