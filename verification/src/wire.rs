//! The wire (serialization) contract.
//!
//! On the way out a container serializes as its payload alone, or as the
//! wire-level null marker for both `Undefined` and `Null`: the wire
//! cannot carry the three-way distinction, by design. (`take` and
//! `value` give a caller exactly that payload-or-nothing reading.)
//!
//! On the way in, the serialization collaborator reads the raw structured
//! value and reports one of the four outcomes of [`WireRead`]; the
//! decision of which state that outcome restores is made and proved here.
//! A malformed or unreadable value is silently downgraded to `Undefined`,
//! never an error: decoding a tri-state field never fails the
//! surrounding deserialization. [`Null::decode_wire_strict`] is the
//! separately named alternative for callers that want malformed input to
//! surface instead of being swallowed.

use vstd::prelude::*;

use crate::Null;

verus! {

/// What the serialization collaborator saw for one field.
#[derive(Copy, Clone, PartialEq, Eq, Debug)]
pub enum WireRead<T> {
    /// The raw structured value itself could not be read.
    Unreadable,
    /// The wire-level null marker.
    NullMarker,
    /// A value was present and parsed as `T`.
    Parsed(T),
    /// A value was present but failed to parse as `T`.
    Malformed,
}

/// The state a wire reading restores: the null marker was an explicit
/// null; a parsed value is a value; anything unreadable or malformed is
/// downgraded to "not provided".
pub open spec fn spec_decode_wire<T>(w: WireRead<T>) -> Null<T> {
    match w {
        WireRead::Unreadable => Null::Undefined,
        WireRead::NullMarker => Null::Null,
        WireRead::Parsed(v) => Null::Value(v),
        WireRead::Malformed => Null::Undefined,
    }
}

impl<T> Null<T> {
    /// Restores a container from a wire reading. Total: malformed and
    /// unreadable input becomes `Undefined`, never an error.
    pub fn decode_wire(w: WireRead<T>) -> (r: Null<T>)
        ensures
            r == spec_decode_wire(w),
    {
        match w {
            WireRead::Unreadable => Null::Undefined,
            WireRead::NullMarker => Null::Null,
            WireRead::Parsed(v) => Null::Value(v),
            WireRead::Malformed => Null::Undefined,
        }
    }

    /// The strict alternative: a present value that failed to parse is
    /// reported as an error instead of being downgraded, while a wholly
    /// unreadable raw value still means "not provided".
    pub fn decode_wire_strict(w: WireRead<T>) -> (r: Result<Null<T>, MalformedWire>)
        ensures
            w is Unreadable ==> r == Ok::<Null<T>, MalformedWire>(Null::Undefined),
            w is NullMarker ==> r == Ok::<Null<T>, MalformedWire>(Null::Null),
            w matches WireRead::Parsed(v) ==> r == Ok::<Null<T>, MalformedWire>(Null::Value(v)),
            w is Malformed ==> r == Err::<Null<T>, MalformedWire>(MalformedWire),
    {
        match w {
            WireRead::Unreadable => Ok(Null::Undefined),
            WireRead::NullMarker => Ok(Null::Null),
            WireRead::Parsed(v) => Ok(Null::Value(v)),
            WireRead::Malformed => Err(MalformedWire),
        }
    }
}

/// The error of the strict wire decode: a value was present on the wire
/// but failed to parse as the payload type.
#[derive(Copy, Clone, PartialEq, Eq, Debug)]
pub struct MalformedWire;

/// Law: the wire decode never fails and restores states as promised.
/// The null marker always restores `Null`; an unreadable or malformed
/// reading is downgraded to `Undefined`, never reported as an error; a
/// parsed value is wrapped unchanged.
pub proof fn lemma_wire_decode_downgrades_malformed<T>(w: WireRead<T>)
    ensures
        w is NullMarker ==> spec_decode_wire(w).spec_is_null(),
        w is Unreadable || w is Malformed ==> spec_decode_wire(w).spec_is_undefined(),
        w matches WireRead::Parsed(v) ==> spec_decode_wire(w) == Null::Value(v),
{
}

/// Law: on the way out the wire cannot carry the three-way distinction.
/// Both non-value states read as "no payload" — the null marker — and a
/// value reads as exactly its payload; `value` and `take` are the
/// payload-or-nothing view a serializer emits.
pub proof fn lemma_wire_encode_collapses<T>(s: Null<T>)
    ensures
        !s.spec_is_value() ==> s.spec_value() is None,
        s matches Null::Value(v) ==> s.spec_value() == Some(v),
{
}

} // verus!
