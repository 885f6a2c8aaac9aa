# stardust_panel_item

The panel item protocol of Stardust XR, as a library verified with Verus.

A panel item is a 2D window (a toplevel surface and its children) that a
provider exposes and an acceptor takes over: the acceptor receives the
window's state as signals and sends input and window management requests
back. This crate holds the protocol's decisions with their contracts:

- `src/ids.rs`: node, aspect, signal and method ids.
- `src/acceptor.rs`, `src/provider.rs`, `src/owned.rs`: which signal id is
  which member, and how a received signal is read into an event
  (`MemberNotFound` for unknown ids, `MemberError` for unreadable payloads).
- `src/aspect.rs`, `src/owned.rs`, `src/keymap.rs`: the signals and method
  calls nodes send, with their payloads in the wire format, and the reading
  of method replies.
- `src/node.rs`: owned versus unowned nodes (enable, destroy on drop).
- `src/dbus.rs`: the object path an acceptor is exported at.
- `src/wire.rs`: the calls into the `stardust-xr-wire` reader and writer.

`app/` is the runtime around it: the messenger connection, the node
registry that routes received signals, the D-Bus objects, the asteroids
element, and the payloads that carry floating point values or the serde
forms of the protocol's structs and enums.
