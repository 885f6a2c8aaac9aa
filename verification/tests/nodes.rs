use stardust_panel_item::dbus::{acceptor_object_path, PanelItemAcceptorCreateError};
use stardust_panel_item::error::{
    signal_delivery_error, NodeError,
};
use stardust_panel_item::ids;
use stardust_panel_item::keymap;
use stardust_panel_item::node::NodeCore;
use stardust_panel_item::owned;
use stardust_xr_wire::flex::serialize;
use stardust_xr_wire::messenger::MessengerError;

#[test]
fn owned_node_signals_set_enabled() {
    let node = NodeCore::new(70, true);
    assert_eq!(node.id(), 70);
    let m = node.set_enabled(false).unwrap();
    assert_eq!(m.node_id, 70);
    assert_eq!(m.aspect, ids::OWNED_ASPECT_ID);
    assert_eq!(m.signal, ids::OWNED_SET_ENABLED);
    assert_eq!(
        owned::parse_signal(m.signal, &m.data),
        Ok(owned::OwnedEvent::SetEnabled { enabled: false })
    );
}

#[test]
fn unowned_node_does_not_exist() {
    let node = NodeCore::new(32, false);
    assert!(matches!(node.set_enabled(true), Err(NodeError::DoesNotExist)));
    assert!(node.drop_signal().is_none());
}

#[test]
fn dropping_an_owned_node_destroys_it() {
    let node = NodeCore::new(64, true);
    let m = node.drop_signal().unwrap().unwrap();
    assert_eq!(m.node_id, 64);
    assert_eq!(m.signal, ids::OWNED_DESTROY);
    assert_eq!(owned::parse_signal(m.signal, &m.data), Ok(owned::OwnedEvent::Destroy {}));
}

#[test]
fn owned_destroy_round_trip() {
    let m = owned::destroy(5).unwrap();
    assert_eq!(m.aspect, 15801764205032075891);
    assert_eq!(owned::parse_signal(m.signal, &m.data), Ok(owned::OwnedEvent::Destroy {}));
}

#[test]
fn delivery_errors() {
    assert!(matches!(
        signal_delivery_error(MessengerError::ReceiverDropped),
        NodeError::ClientDropped
    ));
    assert!(matches!(
        signal_delivery_error(MessengerError::MessageTypeOutOfBounds),
        NodeError::MessengerError { e: MessengerError::MessageTypeOutOfBounds }
    ));
}

#[test]
fn io_delivery_errors_are_passed_on() {
    let e = std::io::Error::new(std::io::ErrorKind::BrokenPipe, "gone");
    assert!(matches!(
        signal_delivery_error(MessengerError::IOError(e)),
        NodeError::MessengerError { e: MessengerError::IOError(_) }
    ));
}

#[test]
fn keymap_calls_go_to_the_interface_node() {
    let call = keymap::register_keymap("xkb_keymap {}".to_string()).unwrap();
    assert_eq!(call.node_id, 12);
    assert_eq!(call.aspect, 0);
    assert_eq!(call.method, 13267771052011565359);
    assert_eq!(call.data, serialize("xkb_keymap {}").unwrap().0);
    let call = keymap::get_keymap(4).unwrap();
    assert_eq!(call.method, 18393315648981916968);
    assert_eq!(call.data, serialize(4u64).unwrap().0);
}

#[test]
fn keymap_replies() {
    let reply = serialize(9u64).unwrap().0;
    assert_eq!(keymap::register_keymap_reply(Ok(reply)).unwrap(), 9);
    assert!(matches!(
        keymap::register_keymap_reply(Err("no".to_string())),
        Err(NodeError::ReturnedError { e }) if e == "no"
    ));
    assert!(matches!(
        keymap::register_keymap_reply(Ok(serialize("nine").unwrap().0)),
        Err(NodeError::Deserialization { .. })
    ));
    let text = serialize("xkb_keymap {}").unwrap().0;
    assert_eq!(keymap::get_keymap_reply(Ok(text)).unwrap(), "xkb_keymap {}");
    assert!(matches!(
        keymap::get_keymap_reply(Ok(serialize(3u64).unwrap().0)),
        Err(NodeError::Deserialization { .. })
    ));
}

#[test]
fn acceptor_paths() {
    for good in ["/", "/org/stardustxr/Acceptor", "/a_b/C9"] {
        assert_eq!(acceptor_object_path(good).unwrap(), good);
    }
    for bad in ["", "org", "/a/", "//", "/a//b", "/a-b", "/ä"] {
        assert!(
            matches!(acceptor_object_path(bad), Err(PanelItemAcceptorCreateError::InvalidPath(_))),
            "{bad}"
        );
    }
}
