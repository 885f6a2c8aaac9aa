//! The numeric identifiers of the panel item protocol: nodes, aspects,
//! signals and methods as they stand in messages.
use vstd::prelude::*;

verus! {

/// Version of the generated node and panel item interfaces.
pub const INTERFACE_VERSION: u32 = 1u32;

/// The node that serves interface-wide methods (keymaps).
pub const INTERFACE_NODE_ID: u64 = 12u64;

/// The aspect under which interface-wide methods are called.
pub const INTERFACE_ASPECT_ID: u64 = 0u64;

/// The node id under which a connection's panel item is created.
pub const PANEL_ITEM_NODE_ID: u64 = 32u64;

/// The first node id that an acceptor hands out for nodes of its own.
pub const ACCEPTOR_FIRST_NODE_ID: u64 = 9223372036854775807u64;

/// The first node id that a provider hands out for nodes of its own.
pub const PROVIDER_FIRST_NODE_ID: u64 = 64u64;

// The "owned" aspect.
pub const OWNED_ASPECT_ID: u64 = 15801764205032075891u64;
pub const OWNED_SET_ENABLED: u64 = 13365497663235993822u64;
pub const OWNED_DESTROY: u64 = 8637450960623370830u64;

// The "panel item" aspect.
pub const PANEL_ITEM_ASPECT_ID: u64 = 16007573185838633179u64;

// Signals the panel item sends to the acceptor.
pub const UPDATE_CURSOR_DMATEX: u64 = 2382773608549259152u64;
pub const UPDATE_SURFACE_DMATEX: u64 = 14640500090763198919u64;
pub const TOPLEVEL_TITLE_CHANGED: u64 = 566483566315648641u64;
pub const TOPLEVEL_APP_ID_CHANGED: u64 = 8706869778156655494u64;
pub const TOPLEVEL_FULLSCREEN_ACTIVE: u64 = 11059551561818960198u64;
pub const TOPLEVEL_MOVE_REQUEST: u64 = 3715781852227007625u64;
pub const TOPLEVEL_RESIZE_REQUEST: u64 = 4540754955116125050u64;
pub const TOPLEVEL_SIZE_CHANGED: u64 = 3665525014775618530u64;
pub const EXCLUSIVE_KEYBOARD_GRAB: u64 = 5830507316813672853u64;
pub const SET_CURSOR: u64 = 6092877811616586203u64;
pub const HIDE_CURSOR: u64 = 12365625385177885025u64;
pub const CREATE_CHILD: u64 = 13878060402106144481u64;
pub const REPOSITION_CHILD: u64 = 4614990113965355127u64;
pub const DESTROY_CHILD: u64 = 7048616010698587017u64;

// Signals the acceptor sends to the panel item's provider.
pub const PANEL_ITEM_OUTPUT_SPATIAL: u64 = 6341428459395007981u64;
pub const ABSOLUTE_POINTER_MOTION: u64 = 16749501366142443858u64;
pub const RELATIVE_POINTER_MOTION: u64 = 8178111286759258039u64;
pub const POINTER_BUTTON: u64 = 1617963334017359776u64;
pub const POINTER_SCROLL: u64 = 18077910517219850499u64;
pub const POINTER_STOP_SCROLL: u64 = 13177724628894942354u64;
pub const KEYBOARD_KEY: u64 = 18230480350930328965u64;
pub const TOUCH_DOWN: u64 = 10543081656468919422u64;
pub const TOUCH_MOVE: u64 = 15126475688563381777u64;
pub const TOUCH_UP: u64 = 6589027081119653997u64;
pub const RESET_INPUT: u64 = 14629122800709746500u64;
pub const CLOSE_TOPLEVEL: u64 = 11149391162473273576u64;
pub const AUTO_SIZE_TOPLEVEL: u64 = 7177229187692151305u64;
pub const SET_TOPLEVEL_SIZE: u64 = 8102855835344875634u64;
pub const SET_TOPLEVEL_FOCUSED_VISUALS: u64 = 3934600665134956080u64;

// Interface-wide methods.
pub const REGISTER_KEYMAP: u64 = 13267771052011565359u64;
pub const GET_KEYMAP: u64 = 18393315648981916968u64;

} // verus!
