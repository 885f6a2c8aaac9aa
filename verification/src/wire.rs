//! Reading and writing signal payloads in the Stardust wire format.
//!
//! Every function here calls `stardust_xr_wire::flex::deserialize` or
//! `stardust_xr_wire::flex::serialize` at one payload type. What the
//! flexbuffers format makes of a value takes pages to state, so each
//! instantiation's result gets a name below; the names are functions of
//! the payload bytes (or of the written value) alone. Payloads here never
//! carry file descriptors, so none are handed to the reader and the
//! descriptors that the writer collects (always none for these types) are
//! dropped.
//!
//! A reader's name has three outcomes: `None` where the reader does not
//! return at all (the flexbuffers reader indexes its buffer unchecked, so
//! a malformed buffer can make it panic), `Some(None)` where it returns an
//! error, and `Some(Some(v))` where it reads `v`. Each reader requires a
//! payload on which it returns; the flexbuffers crate offers no check that
//! tells these payloads apart before reading.
//!
//! The writer fails only on a map key that is not a string or on an error
//! raised by a value's own serializer; no payload here holds either, so
//! every writer returns its bytes. Where this module has a reader for the
//! written type, the writer also states that the reader gives the written
//! value back (payloads with a surface id are read by the caller, with the
//! surface id's own serde reader): the serializer writes numbers, booleans and strings as
//! flexbuffers scalars, tuples and arrays as vectors and `()`/`None` as
//! null, and the deserializer reads exactly these shapes back (the wire
//! crate's own round-trip test checks this).
use crate::types::SurfaceWire;
use stardust_xr_wire::flex::flexbuffers::DeserializationError;
use stardust_xr_wire::flex::FlexSerializeError;
use stardust_xr_wire::values::Vector2 as WireVector2;
use vstd::prelude::*;

verus! {

// ---------------------------------------------------------------------
// Names of what the reader makes of a payload, one per payload type.
// ---------------------------------------------------------------------

/// The payload read as a `u64`.
pub uninterp spec fn flex_read_u64(data: Seq<u8>) -> Option<Option<u64>>;

/// The payload read as a `bool`.
pub uninterp spec fn flex_read_bool(data: Seq<u8>) -> Option<Option<bool>>;

/// The payload read as a `String`, given as its characters.
pub uninterp spec fn flex_read_string(data: Seq<u8>) -> Option<Option<Seq<char>>>;

/// The payload read as `(u64, u64, u64)`.
pub uninterp spec fn flex_read_u64_triple(data: Seq<u8>) -> Option<Option<(u64, u64, u64)>>;

/// The payload read as `(Option<u64>, u64, u64, u64)`.
pub uninterp spec fn flex_read_surface_dmatex(data: Seq<u8>) -> Option<Option<(Option<u64>, u64, u64, u64)>>;

/// The payload read as `(bool, bool, bool, bool)`.
pub uninterp spec fn flex_read_bool_quad(data: Seq<u8>) -> Option<Option<(bool, bool, bool, bool)>>;

/// The payload read as a `Vector2<u32>`, given as its coordinates.
pub uninterp spec fn flex_read_vector2_u32(data: Seq<u8>) -> Option<Option<(u32, u32)>>;

/// Whether the payload reads as `()` (`None` where the reader does not return).
pub uninterp spec fn flex_read_unit(data: Seq<u8>) -> Option<bool>;

// ---------------------------------------------------------------------
// Names of what the writer makes of a value.
// ---------------------------------------------------------------------

/// The `n` low bytes of `v`, least significant first.
pub open spec fn le_bytes(v: nat, n: nat) -> Seq<u8>
    decreases n,
{
    if n == 0 {
        Seq::empty()
    } else {
        seq![(v % 256) as u8] + le_bytes(v / 256, (n - 1) as nat)
    }
}

/// A `u64` as a flexbuffer: the value's little-endian bytes at the smallest
/// width it fits, then its packed type (unsigned, that width) and the
/// root's width.
pub open spec fn flex_write_u64(v: u64) -> Seq<u8> {
    if v < 0x100 {
        le_bytes(v as nat, 1) + seq![8u8, 1u8]
    } else if v < 0x1_0000 {
        le_bytes(v as nat, 2) + seq![9u8, 2u8]
    } else if v < 0x1_0000_0000 {
        le_bytes(v as nat, 4) + seq![10u8, 4u8]
    } else {
        le_bytes(v as nat, 8) + seq![11u8, 8u8]
    }
}

/// A `bool` as a flexbuffer: one byte (1 or 0), its packed type (boolean,
/// one byte wide) and the root's width.
pub open spec fn flex_write_bool(v: bool) -> Seq<u8> {
    seq![if v { 1u8 } else { 0u8 }, 104u8, 1u8]
}

pub uninterp spec fn flex_write_u64_triple(v: (u64, u64, u64)) -> Seq<u8>;

pub uninterp spec fn flex_write_surface_dmatex(v: (Option<u64>, u64, u64, u64)) -> Seq<u8>;

pub uninterp spec fn flex_write_bool_quad(v: (bool, bool, bool, bool)) -> Seq<u8>;

pub uninterp spec fn flex_write_string(v: Seq<char>) -> Seq<u8>;

pub uninterp spec fn flex_write_vector2_u32(v: (u32, u32)) -> Seq<u8>;

pub uninterp spec fn flex_write_surface(v: Option<SurfaceWire>) -> Seq<u8>;

pub uninterp spec fn flex_write_pointer_button(v: (Option<SurfaceWire>, u32, bool)) -> Seq<u8>;

pub uninterp spec fn flex_write_keyboard_key(v: (Option<SurfaceWire>, u64, u32, bool)) -> Seq<u8>;

pub uninterp spec fn flex_write_touch_up(v: (Option<SurfaceWire>, u32)) -> Seq<u8>;

/// The three bytes of a flexbuffer whose root is null: the null value (one
/// byte), its packed type (null, one byte wide) and the root's width.
pub open spec fn null_root() -> Seq<u8> {
    seq![0u8, 0u8, 1u8]
}

// ---------------------------------------------------------------------
// Readers.
// ---------------------------------------------------------------------

/// `flex::deserialize::<u64>`.
#[verifier::external_body]
pub(crate) fn deserialize_u64(data: &[u8]) -> (res: Result<u64, DeserializationError>)
    requires
        flex_read_u64(data@) is Some,
    ensures
        match res {
            Ok(v) => flex_read_u64(data@) == Some(Some(v)),
            Err(_) => flex_read_u64(data@) == Some(None::<u64>),
        },
{
    stardust_xr_wire::flex::deserialize(data, Vec::new())
}

/// `flex::deserialize::<bool>`.
#[verifier::external_body]
pub(crate) fn deserialize_bool(data: &[u8]) -> (res: Result<bool, DeserializationError>)
    requires
        flex_read_bool(data@) is Some,
    ensures
        match res {
            Ok(v) => flex_read_bool(data@) == Some(Some(v)),
            Err(_) => flex_read_bool(data@) == Some(None::<bool>),
        },
{
    stardust_xr_wire::flex::deserialize(data, Vec::new())
}

/// `flex::deserialize::<String>`.
#[verifier::external_body]
pub(crate) fn deserialize_string(data: &[u8]) -> (res: Result<String, DeserializationError>)
    requires
        flex_read_string(data@) is Some,
    ensures
        match res {
            Ok(v) => flex_read_string(data@) == Some(Some(v@)),
            Err(_) => flex_read_string(data@) == Some(None::<Seq<char>>),
        },
{
    stardust_xr_wire::flex::deserialize(data, Vec::new())
}

/// `flex::deserialize::<(u64, u64, u64)>`.
#[verifier::external_body]
pub(crate) fn deserialize_u64_triple(data: &[u8]) -> (res: Result<(u64, u64, u64), DeserializationError>)
    requires
        flex_read_u64_triple(data@) is Some,
    ensures
        match res {
            Ok(v) => flex_read_u64_triple(data@) == Some(Some(v)),
            Err(_) => flex_read_u64_triple(data@) == Some(None::<(u64, u64, u64)>),
        },
{
    stardust_xr_wire::flex::deserialize(data, Vec::new())
}

/// `flex::deserialize::<(Option<u64>, u64, u64, u64)>`.
#[verifier::external_body]
pub(crate) fn deserialize_surface_dmatex(data: &[u8]) -> (res: Result<(Option<u64>, u64, u64, u64), DeserializationError>)
    requires
        flex_read_surface_dmatex(data@) is Some,
    ensures
        match res {
            Ok(v) => flex_read_surface_dmatex(data@) == Some(Some(v)),
            Err(_) => flex_read_surface_dmatex(data@) == Some(None::<(Option<u64>, u64, u64, u64)>),
        },
{
    stardust_xr_wire::flex::deserialize(data, Vec::new())
}

/// `flex::deserialize::<(bool, bool, bool, bool)>`.
#[verifier::external_body]
pub(crate) fn deserialize_bool_quad(data: &[u8]) -> (res: Result<(bool, bool, bool, bool), DeserializationError>)
    requires
        flex_read_bool_quad(data@) is Some,
    ensures
        match res {
            Ok(v) => flex_read_bool_quad(data@) == Some(Some(v)),
            Err(_) => flex_read_bool_quad(data@) == Some(None::<(bool, bool, bool, bool)>),
        },
{
    stardust_xr_wire::flex::deserialize(data, Vec::new())
}

/// `flex::deserialize::<()>`.
#[verifier::external_body]
pub(crate) fn deserialize_unit(data: &[u8]) -> (res: Result<(), DeserializationError>)
    requires
        flex_read_unit(data@) is Some,
    ensures
        flex_read_unit(data@) == Some(res is Ok),
{
    stardust_xr_wire::flex::deserialize(data, Vec::new())
}

/// `flex::deserialize::<Vector2<u32>>`, the vector given as its coordinates.
#[verifier::external_body]
pub(crate) fn deserialize_vector2_u32(data: &[u8]) -> (res: Result<(u32, u32), DeserializationError>)
    requires
        flex_read_vector2_u32(data@) is Some,
    ensures
        match res {
            Ok(v) => flex_read_vector2_u32(data@) == Some(Some(v)),
            Err(_) => flex_read_vector2_u32(data@) == Some(None::<(u32, u32)>),
        },
{
    match stardust_xr_wire::flex::deserialize::<WireVector2<u32>>(data, Vec::new()) {
        Ok(v) => Ok((v.x, v.y)),
        Err(e) => Err(e),
    }
}

// ---------------------------------------------------------------------
// Writers.
// ---------------------------------------------------------------------

/// `flex::serialize` of a `u64`.
#[verifier::external_body]
pub(crate) fn serialize_u64(v: u64) -> (res: Result<Vec<u8>, FlexSerializeError>)
    ensures
        res is Ok,
        res matches Ok(b) ==> b@ == flex_write_u64(v) && flex_read_u64(b@) == Some(Some(v)),
{
    match stardust_xr_wire::flex::serialize(v) {
        Ok((data, _fds)) => Ok(data),
        Err(e) => Err(e),
    }
}

/// `flex::serialize` of a `bool`.
#[verifier::external_body]
pub(crate) fn serialize_bool(v: bool) -> (res: Result<Vec<u8>, FlexSerializeError>)
    ensures
        res is Ok,
        res matches Ok(b) ==> b@ == flex_write_bool(v) && flex_read_bool(b@) == Some(Some(v)),
{
    match stardust_xr_wire::flex::serialize(v) {
        Ok((data, _fds)) => Ok(data),
        Err(e) => Err(e),
    }
}

/// `flex::serialize` of a `(u64, u64, u64)`.
#[verifier::external_body]
pub(crate) fn serialize_u64_triple(v: (u64, u64, u64)) -> (res: Result<Vec<u8>, FlexSerializeError>)
    ensures
        res is Ok,
        res matches Ok(b) ==> b@ == flex_write_u64_triple(v) && flex_read_u64_triple(b@) == Some(Some(v)),
{
    match stardust_xr_wire::flex::serialize(v) {
        Ok((data, _fds)) => Ok(data),
        Err(e) => Err(e),
    }
}

/// `flex::serialize` of an `(Option<u64>, u64, u64, u64)`.
#[verifier::external_body]
pub(crate) fn serialize_surface_dmatex(v: (Option<u64>, u64, u64, u64)) -> (res: Result<Vec<u8>, FlexSerializeError>)
    ensures
        res is Ok,
        res matches Ok(b) ==> b@ == flex_write_surface_dmatex(v) && flex_read_surface_dmatex(b@) == Some(Some(v)),
{
    match stardust_xr_wire::flex::serialize(v) {
        Ok((data, _fds)) => Ok(data),
        Err(e) => Err(e),
    }
}

/// `flex::serialize` of a `(bool, bool, bool, bool)`.
#[verifier::external_body]
pub(crate) fn serialize_bool_quad(v: (bool, bool, bool, bool)) -> (res: Result<Vec<u8>, FlexSerializeError>)
    ensures
        res is Ok,
        res matches Ok(b) ==> b@ == flex_write_bool_quad(v) && flex_read_bool_quad(b@) == Some(Some(v)),
{
    match stardust_xr_wire::flex::serialize(v) {
        Ok((data, _fds)) => Ok(data),
        Err(e) => Err(e),
    }
}

/// `flex::serialize` of `()`.
#[verifier::external_body]
pub(crate) fn serialize_unit(v: ()) -> (res: Result<Vec<u8>, FlexSerializeError>)
    ensures
        res is Ok,
        res matches Ok(b) ==> b@ == null_root() && flex_read_unit(b@) == Some(true),
{
    match stardust_xr_wire::flex::serialize(v) {
        Ok((data, _fds)) => Ok(data),
        Err(e) => Err(e),
    }
}

/// `flex::serialize` of a string.
#[verifier::external_body]
pub(crate) fn serialize_string(v: &str) -> (res: Result<Vec<u8>, FlexSerializeError>)
    ensures
        res is Ok,
        res matches Ok(b) ==> b@ == flex_write_string(v@) && flex_read_string(b@) == Some(Some(v@)),
{
    match stardust_xr_wire::flex::serialize(v) {
        Ok((data, _fds)) => Ok(data),
        Err(e) => Err(e),
    }
}

/// `flex::serialize` of a `Vector2<u32>` with the given coordinates.
#[verifier::external_body]
pub(crate) fn serialize_vector2_u32(v: (u32, u32)) -> (res: Result<Vec<u8>, FlexSerializeError>)
    ensures
        res is Ok,
        res matches Ok(b) ==> b@ == flex_write_vector2_u32(v) && flex_read_vector2_u32(b@) == Some(Some(v)),
{
    match stardust_xr_wire::flex::serialize(WireVector2 { x: v.0, y: v.1 }) {
        Ok((data, _fds)) => Ok(data),
        Err(e) => Err(e),
    }
}

/// `flex::serialize` of an `Option<(u32, Option<u64>)>`.
#[verifier::external_body]
pub(crate) fn serialize_surface(v: Option<SurfaceWire>) -> (res: Result<Vec<u8>, FlexSerializeError>)
    ensures
        res is Ok,
        res matches Ok(b) ==> b@ == flex_write_surface(v),
{
    match stardust_xr_wire::flex::serialize(v) {
        Ok((data, _fds)) => Ok(data),
        Err(e) => Err(e),
    }
}

/// `flex::serialize` of an `(Option<(u32, Option<u64>)>, u32, bool)`.
#[verifier::external_body]
pub(crate) fn serialize_pointer_button(v: (Option<SurfaceWire>, u32, bool)) -> (res: Result<Vec<u8>, FlexSerializeError>)
    ensures
        res is Ok,
        res matches Ok(b) ==> b@ == flex_write_pointer_button(v),
{
    match stardust_xr_wire::flex::serialize(v) {
        Ok((data, _fds)) => Ok(data),
        Err(e) => Err(e),
    }
}

/// `flex::serialize` of an `(Option<(u32, Option<u64>)>, u64, u32, bool)`.
#[verifier::external_body]
pub(crate) fn serialize_keyboard_key(v: (Option<SurfaceWire>, u64, u32, bool)) -> (res: Result<Vec<u8>, FlexSerializeError>)
    ensures
        res is Ok,
        res matches Ok(b) ==> b@ == flex_write_keyboard_key(v),
{
    match stardust_xr_wire::flex::serialize(v) {
        Ok((data, _fds)) => Ok(data),
        Err(e) => Err(e),
    }
}

/// `flex::serialize` of an `(Option<(u32, Option<u64>)>, u32)`.
#[verifier::external_body]
pub(crate) fn serialize_touch_up(v: (Option<SurfaceWire>, u32)) -> (res: Result<Vec<u8>, FlexSerializeError>)
    ensures
        res is Ok,
        res matches Ok(b) ==> b@ == flex_write_touch_up(v),
{
    match stardust_xr_wire::flex::serialize(v) {
        Ok((data, _fds)) => Ok(data),
        Err(e) => Err(e),
    }
}

} // verus!
