use stardust_panel_item::acceptor;
use stardust_panel_item::acceptor::PanelItemMember as AcceptorMember;
use stardust_panel_item::aspect;
use stardust_panel_item::error::ScenegraphError;
use stardust_panel_item::ids;
use stardust_panel_item::owned;
use stardust_panel_item::provider;
use stardust_panel_item::provider::PanelItemMember as ProviderMember;
use stardust_panel_item::types::{SurfaceId, Vector2};
use stardust_panel_item::item;
use stardust_xr_wire::flex::flexbuffers::DeserializationError;
use stardust_xr_wire::flex::{deserialize, serialize};
use stardust_xr_wire::values::Vector2 as WireVector2;

fn bytes<S: serde::Serialize>(v: S) -> Vec<u8> {
    serialize(v).unwrap().0
}

fn accept(id: u64, data: &[u8]) -> Result<acceptor::PanelItemEvent, ScenegraphError> {
    acceptor::parse_signal(id, data, Ok(()))
}

fn provide(id: u64, data: &[u8]) -> Result<provider::PanelItemEvent, ScenegraphError> {
    provider::parse_signal(id, data, Ok(()))
}

fn read_error() -> DeserializationError {
    deserialize::<(u64, u64)>(&bytes(true), Vec::new()).unwrap_err()
}

#[test]
fn acceptor_members_round_trip_through_their_ids() {
    let all = [
        AcceptorMember::UpdateCursorDmatex,
        AcceptorMember::UpdateSurfaceDmatex,
        AcceptorMember::ToplevelTitleChanged,
        AcceptorMember::ToplevelAppIdChanged,
        AcceptorMember::ToplevelFullscreenActive,
        AcceptorMember::ToplevelMoveRequest,
        AcceptorMember::ToplevelResizeRequest,
        AcceptorMember::ToplevelSizeChanged,
        AcceptorMember::ExclusiveKeyboardGrab,
        AcceptorMember::SetCursor,
        AcceptorMember::HideCursor,
        AcceptorMember::CreateChild,
        AcceptorMember::RepositionChild,
        AcceptorMember::DestroyChild,
    ];
    for m in all {
        assert_eq!(AcceptorMember::from_signal_id(m.signal_id()), Some(m));
    }
    assert_eq!(AcceptorMember::SetCursor.signal_id(), 6092877811616586203);
    assert_eq!(AcceptorMember::from_signal_id(42), None);
}

#[test]
fn provider_members_round_trip_through_their_ids() {
    let all = [
        ProviderMember::PanelItemOutputSpatial,
        ProviderMember::AbsolutePointerMotion,
        ProviderMember::RelativePointerMotion,
        ProviderMember::PointerButton,
        ProviderMember::PointerScroll,
        ProviderMember::PointerStopScroll,
        ProviderMember::KeyboardKey,
        ProviderMember::TouchDown,
        ProviderMember::TouchMove,
        ProviderMember::TouchUp,
        ProviderMember::ResetInput,
        ProviderMember::CloseToplevel,
        ProviderMember::AutoSizeToplevel,
        ProviderMember::SetToplevelSize,
        ProviderMember::SetToplevelFocusedVisuals,
    ];
    for m in all {
        assert_eq!(ProviderMember::from_signal_id(m.signal_id()), Some(m));
    }
    assert_eq!(ProviderMember::KeyboardKey.signal_id(), 18230480350930328965);
    assert_eq!(ProviderMember::from_signal_id(ids::SET_CURSOR), None);
}

#[test]
fn unknown_signal_is_member_not_found() {
    assert_eq!(
        accept(1, &bytes(())),
        Err(ScenegraphError::MemberNotFound)
    );
    assert_eq!(
        provide(ids::UPDATE_CURSOR_DMATEX, &bytes((1u64, 2u64, 3u64))),
        Err(ScenegraphError::MemberNotFound)
    );
    assert_eq!(owned::parse_signal(7, &bytes(true)), Err(ScenegraphError::MemberNotFound));
}

#[test]
fn methods_are_never_served() {
    assert_eq!(acceptor::parse_method(0, &[]), Err(ScenegraphError::MemberNotFound));
    assert_eq!(
        provider::parse_method(ids::GET_KEYMAP, &[]),
        Err(ScenegraphError::MemberNotFound)
    );
    assert_eq!(owned::parse_method(3, &[]), Err(ScenegraphError::MemberNotFound));
}

#[test]
fn acceptor_reads_dmatex_updates() {
    assert_eq!(
        accept(ids::UPDATE_CURSOR_DMATEX, &bytes((7u64, 8u64, 9u64))),
        Ok(acceptor::PanelItemEvent::UpdateCursorDmatex {
            dmatex_uid: 7,
            acquire_point: 8,
            release_point: 9
        })
    );
    assert_eq!(
        accept(
            ids::UPDATE_SURFACE_DMATEX,
            &bytes((Some(3u64), 4u64, 5u64, u64::MAX))
        ),
        Ok(acceptor::PanelItemEvent::UpdateSurfaceDmatex {
            child: Some(3),
            dmatex_uid: 4,
            acquire_point: 5,
            release_point: u64::MAX
        })
    );
    assert_eq!(
        accept(ids::UPDATE_SURFACE_DMATEX, &bytes((None::<u64>, 4u64, 5u64, 6u64))),
        Ok(acceptor::PanelItemEvent::UpdateSurfaceDmatex {
            child: None,
            dmatex_uid: 4,
            acquire_point: 5,
            release_point: 6
        })
    );
}

#[test]
fn acceptor_reads_toplevel_changes() {
    assert_eq!(
        accept(ids::TOPLEVEL_TITLE_CHANGED, &bytes("Terminal")),
        Ok(acceptor::PanelItemEvent::ToplevelTitleChanged { title: "Terminal".to_string() })
    );
    assert_eq!(
        accept(ids::TOPLEVEL_APP_ID_CHANGED, &bytes("org.kde.konsole")),
        Ok(acceptor::PanelItemEvent::ToplevelAppIdChanged {
            app_id: "org.kde.konsole".to_string()
        })
    );
    assert_eq!(
        accept(ids::TOPLEVEL_FULLSCREEN_ACTIVE, &bytes(true)),
        Ok(acceptor::PanelItemEvent::ToplevelFullscreenActive { active: true })
    );
    assert_eq!(
        accept(ids::TOPLEVEL_MOVE_REQUEST, &bytes(())),
        Ok(acceptor::PanelItemEvent::ToplevelMoveRequest {})
    );
    assert_eq!(
        accept(ids::TOPLEVEL_RESIZE_REQUEST, &bytes((true, false, false, true))),
        Ok(acceptor::PanelItemEvent::ToplevelResizeRequest {
            up: true,
            down: false,
            left: false,
            right: true
        })
    );
    assert_eq!(
        accept(
            ids::TOPLEVEL_SIZE_CHANGED,
            &bytes(WireVector2 { x: 1920u32, y: 1080u32 })
        ),
        Ok(acceptor::PanelItemEvent::ToplevelSizeChanged { size: Vector2 { x: 1920, y: 1080 } })
    );
    assert_eq!(
        accept(ids::EXCLUSIVE_KEYBOARD_GRAB, &bytes(11u64)),
        Ok(acceptor::PanelItemEvent::ExclusiveKeyboardGrab { child: 11 })
    );
}

#[test]
fn acceptor_keeps_geometry_payloads() {
    let origin = WireVector2 { x: -4i32, y: 10i32 };
    let size = WireVector2 { x: 32u32, y: 48u32 };
    let payload = bytes((origin, size));
    assert_eq!(
        accept(ids::SET_CURSOR, &payload),
        Ok(acceptor::PanelItemEvent::SetCursor { payload: payload.clone() })
    );
    let payload = bytes((5u64, (origin, size)));
    assert_eq!(
        accept(ids::REPOSITION_CHILD, &payload),
        Ok(acceptor::PanelItemEvent::RepositionChild { payload: payload.clone() })
    );
    let res = acceptor::parse_signal(ids::SET_CURSOR, &bytes((origin, 3u64)), Err(read_error()));
    assert!(matches!(res, Err(ScenegraphError::MemberError { .. })));
    let res = acceptor::parse_signal(ids::REPOSITION_CHILD, &bytes(1u64), Err(read_error()));
    assert!(matches!(res, Err(ScenegraphError::MemberError { .. })));
    let payload = bytes((5u64, "opaque"));
    assert_eq!(
        accept(ids::CREATE_CHILD, &payload),
        Ok(acceptor::PanelItemEvent::CreateChild { payload: payload.clone() })
    );
    assert_eq!(
        accept(ids::HIDE_CURSOR, &bytes(())),
        Ok(acceptor::PanelItemEvent::HideCursor {})
    );
    assert_eq!(
        accept(ids::DESTROY_CHILD, &bytes(5u64)),
        Ok(acceptor::PanelItemEvent::DestroyChild { uid: 5 })
    );
}

#[test]
fn acceptor_payload_of_the_wrong_shape_is_member_error() {
    let res = accept(ids::TOPLEVEL_TITLE_CHANGED, &bytes(12u64));
    assert!(matches!(res, Err(ScenegraphError::MemberError { .. })));
    let res = accept(ids::UPDATE_CURSOR_DMATEX, &bytes((1u64, 2u64)));
    assert!(matches!(res, Err(ScenegraphError::MemberError { .. })));
    let res = accept(ids::DESTROY_CHILD, &[]);
    assert!(matches!(res, Err(ScenegraphError::MemberError { .. })));
    let res = acceptor::parse_signal(ids::CREATE_CHILD, &bytes(1u64), Err(read_error()));
    assert!(matches!(res, Err(ScenegraphError::MemberError { .. })));
}

#[test]
fn provider_reads_what_the_acceptor_sends() {
    let surfaces = [None, Some(SurfaceId::Toplevel(())), Some(SurfaceId::Child(9))];
    for surface in surfaces {
        let m = aspect::pointer_button(32, surface, 272, true).unwrap();
        assert_eq!(m.node_id, 32);
        assert_eq!(m.aspect, ids::PANEL_ITEM_ASPECT_ID);
        assert_eq!(m.signal, ids::POINTER_BUTTON);
        assert_eq!(
            provide(m.signal, &m.data),
            Ok(provider::PanelItemEvent::PointerButton { payload: m.data.clone() })
        );

        let m = aspect::keyboard_key(32, surface, 3, 30, false).unwrap();
        assert_eq!(
            provide(m.signal, &m.data),
            Ok(provider::PanelItemEvent::KeyboardKey { payload: m.data.clone() })
        );

        let m = aspect::touch_up(32, surface, 2).unwrap();
        assert_eq!(
            provide(m.signal, &m.data),
            Ok(provider::PanelItemEvent::TouchUp { payload: m.data.clone() })
        );

        let m = aspect::pointer_stop_scroll(32, surface).unwrap();
        assert_eq!(
            provide(m.signal, &m.data),
            Ok(provider::PanelItemEvent::PointerStopScroll { payload: m.data.clone() })
        );

        let m = aspect::reset_input(32, surface).unwrap();
        assert_eq!(
            provide(m.signal, &m.data),
            Ok(provider::PanelItemEvent::ResetInput { payload: m.data.clone() })
        );
    }

    let m = aspect::panel_item_output_spatial(32, 77).unwrap();
    assert_eq!(m.signal, ids::PANEL_ITEM_OUTPUT_SPATIAL);
    assert_eq!(
        provide(m.signal, &m.data),
        Ok(provider::PanelItemEvent::PanelItemOutputSpatial { spaital_ref_uid: 77 })
    );
    let m = aspect::close_toplevel(32).unwrap();
    assert_eq!(
        provide(m.signal, &m.data),
        Ok(provider::PanelItemEvent::CloseToplevel {})
    );
    let m = aspect::auto_size_toplevel(32).unwrap();
    assert_eq!(
        provide(m.signal, &m.data),
        Ok(provider::PanelItemEvent::AutoSizeToplevel {})
    );
    let m = aspect::set_toplevel_size(32, Vector2 { x: 800, y: 600 }).unwrap();
    assert_eq!(
        provide(m.signal, &m.data),
        Ok(provider::PanelItemEvent::SetToplevelSize { size: Vector2 { x: 800, y: 600 } })
    );
    let m = aspect::set_toplevel_focused_visuals(32, true).unwrap();
    assert_eq!(
        provide(m.signal, &m.data),
        Ok(provider::PanelItemEvent::SetToplevelFocusedVisuals { focused: true })
    );
}

#[test]
fn provider_keeps_float_payloads() {
    let payload = bytes((None::<u64>, WireVector2 { x: 1.5f32, y: 2.5f32 }));
    for (id, expected) in [
        (
            ids::ABSOLUTE_POINTER_MOTION,
            provider::PanelItemEvent::AbsolutePointerMotion { payload: payload.clone() },
        ),
        (
            ids::RELATIVE_POINTER_MOTION,
            provider::PanelItemEvent::RelativePointerMotion { payload: payload.clone() },
        ),
        (ids::POINTER_SCROLL, provider::PanelItemEvent::PointerScroll { payload: payload.clone() }),
        (ids::TOUCH_DOWN, provider::PanelItemEvent::TouchDown { payload: payload.clone() }),
        (ids::TOUCH_MOVE, provider::PanelItemEvent::TouchMove { payload: payload.clone() }),
    ] {
        assert_eq!(provide(id, &payload), Ok(expected));
    }
}

#[test]
fn provider_payload_of_the_wrong_shape_is_member_error() {
    let res = provide(ids::SET_TOPLEVEL_FOCUSED_VISUALS, &bytes("yes"));
    assert!(matches!(res, Err(ScenegraphError::MemberError { .. })));
    let res = provide(ids::PANEL_ITEM_OUTPUT_SPATIAL, &bytes(true));
    assert!(matches!(res, Err(ScenegraphError::MemberError { .. })));
    let res = provide(ids::CLOSE_TOPLEVEL, &bytes(1u64));
    assert!(matches!(res, Err(ScenegraphError::MemberError { .. })));
    let res = provide(ids::SET_TOPLEVEL_SIZE, &bytes(1u64));
    assert!(matches!(res, Err(ScenegraphError::MemberError { .. })));
    for id in [
        ids::POINTER_BUTTON,
        ids::KEYBOARD_KEY,
        ids::TOUCH_UP,
        ids::RESET_INPUT,
        ids::POINTER_STOP_SCROLL,
    ] {
        let res = provider::parse_signal(id, &bytes("click"), Err(read_error()));
        assert!(matches!(res, Err(ScenegraphError::MemberError { .. })));
    }
    let payload = bytes((None::<u64>, WireVector2 { x: 1.5f32, y: 2.5f32 }));
    let res = provider::parse_signal(ids::TOUCH_DOWN, &payload, Err(read_error()));
    assert!(matches!(res, Err(ScenegraphError::MemberError { .. })));
}

#[test]
fn provider_keeps_surface_payloads_the_caller_read() {
    let payload = bytes((Some((1u32, 9u64)), 3u32, true));
    assert_eq!(
        provide(ids::POINTER_BUTTON, &payload),
        Ok(provider::PanelItemEvent::PointerButton { payload: payload.clone() })
    );
    let payload = bytes(None::<(u32, u64)>);
    assert_eq!(
        provide(ids::POINTER_STOP_SCROLL, &payload),
        Ok(provider::PanelItemEvent::PointerStopScroll { payload: payload.clone() })
    );
}

#[test]
fn scalars_are_written_at_their_smallest_width() {
    assert_eq!(bytes(77u64), vec![77u8, 8, 1]);
    assert_eq!(bytes(300u64), vec![44u8, 1, 9, 2]);
    assert_eq!(bytes(70000u64), vec![0x70u8, 0x11, 0x01, 0x00, 10, 4]);
    assert_eq!(bytes(u64::MAX), vec![255u8, 255, 255, 255, 255, 255, 255, 255, 11, 8]);
    assert_eq!(bytes(true), vec![1u8, 104, 1]);
    assert_eq!(bytes(false), vec![0u8, 104, 1]);
    assert_eq!(aspect::set_toplevel_focused_visuals(1, true).unwrap().data, vec![1u8, 104, 1]);
    assert_eq!(aspect::panel_item_output_spatial(1, 300).unwrap().data, vec![44u8, 1, 9, 2]);
}

#[test]
fn acceptor_reads_what_the_panel_item_sends() {
    let m = item::update_cursor_dmatex(32, 7, 8, 9).unwrap();
    assert_eq!((m.node_id, m.aspect, m.signal), (32, ids::PANEL_ITEM_ASPECT_ID, ids::UPDATE_CURSOR_DMATEX));
    assert_eq!(
        accept(m.signal, &m.data),
        Ok(acceptor::PanelItemEvent::UpdateCursorDmatex {
            dmatex_uid: 7,
            acquire_point: 8,
            release_point: 9
        })
    );
    let m = item::update_surface_dmatex(32, Some(4), 1, 2, 3).unwrap();
    assert_eq!(
        accept(m.signal, &m.data),
        Ok(acceptor::PanelItemEvent::UpdateSurfaceDmatex {
            child: Some(4),
            dmatex_uid: 1,
            acquire_point: 2,
            release_point: 3
        })
    );
    let m = item::toplevel_title_changed(32, "Files".to_string()).unwrap();
    assert_eq!(
        accept(m.signal, &m.data),
        Ok(acceptor::PanelItemEvent::ToplevelTitleChanged { title: "Files".to_string() })
    );
    let m = item::toplevel_app_id_changed(32, "org.gnome.Nautilus".to_string()).unwrap();
    assert_eq!(
        accept(m.signal, &m.data),
        Ok(acceptor::PanelItemEvent::ToplevelAppIdChanged {
            app_id: "org.gnome.Nautilus".to_string()
        })
    );
    let m = item::toplevel_fullscreen_active(32, false).unwrap();
    assert_eq!(
        accept(m.signal, &m.data),
        Ok(acceptor::PanelItemEvent::ToplevelFullscreenActive { active: false })
    );
    let m = item::toplevel_move_request(32).unwrap();
    assert_eq!(accept(m.signal, &m.data), Ok(acceptor::PanelItemEvent::ToplevelMoveRequest {}));
    let m = item::toplevel_resize_request(32, false, true, true, false).unwrap();
    assert_eq!(
        accept(m.signal, &m.data),
        Ok(acceptor::PanelItemEvent::ToplevelResizeRequest {
            up: false,
            down: true,
            left: true,
            right: false
        })
    );
    let m = item::toplevel_size_changed(32, Vector2 { x: 640, y: 480 }).unwrap();
    assert_eq!(
        accept(m.signal, &m.data),
        Ok(acceptor::PanelItemEvent::ToplevelSizeChanged { size: Vector2 { x: 640, y: 480 } })
    );
    let m = item::exclusive_keyboard_grab(32, 6).unwrap();
    assert_eq!(
        accept(m.signal, &m.data),
        Ok(acceptor::PanelItemEvent::ExclusiveKeyboardGrab { child: 6 })
    );
    let m = item::hide_cursor(32).unwrap();
    assert_eq!(accept(m.signal, &m.data), Ok(acceptor::PanelItemEvent::HideCursor {}));
    let m = item::destroy_child(32, 70000).unwrap();
    assert_eq!(accept(m.signal, &m.data), Ok(acceptor::PanelItemEvent::DestroyChild { uid: 70000 }));
    assert_eq!(m.data, bytes(70000u64));
}

#[test]
fn unit_payloads_are_a_null_root() {
    assert_eq!(bytes(()), vec![0u8, 0, 1]);
    assert_eq!(aspect::close_toplevel(3).unwrap().data, vec![0u8, 0, 1]);
    assert_eq!(owned::destroy(3).unwrap().data, vec![0u8, 0, 1]);
}

#[test]
fn surface_wire_forms() {
    assert_eq!(SurfaceId::Toplevel(()).to_wire(), (0, None));
    assert_eq!(SurfaceId::Child(4).to_wire(), (1, Some(4)));
}

#[test]
fn surfaces_are_written_as_index_and_content() {
    let m = aspect::pointer_button(1, Some(SurfaceId::Child(9)), 1, false).unwrap();
    assert_eq!(m.data, bytes((Some((1u32, 9u64)), 1u32, false)));
    let m = aspect::reset_input(1, Some(SurfaceId::Toplevel(()))).unwrap();
    assert_eq!(m.data, bytes(Some((0u32, ()))));
    let m = aspect::touch_up(1, None, 6).unwrap();
    assert_eq!(m.data, bytes((None::<(u32, u64)>, 6u32)));
}
