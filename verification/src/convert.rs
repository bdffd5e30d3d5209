//! Conversions between the tri-state container and the richer or poorer
//! optional shapes it interoperates with: the equivalent "nested
//! optional" `Option<Option<T>>`, and the plain `Option<T>` that cannot
//! express an explicit null.

use vstd::prelude::*;

use crate::Null;

verus! {

/// The nested-optional reading of a container: `Undefined` is `None`,
/// `Null` is `Some(None)`, `Value(v)` is `Some(Some(v))`.
pub open spec fn spec_to_nested<T>(s: Null<T>) -> Option<Option<T>> {
    match s {
        Null::Undefined => None,
        Null::Null => Some(None),
        Null::Value(v) => Some(Some(v)),
    }
}

/// The exact inverse of `spec_to_nested`.
pub open spec fn spec_from_nested<T>(o: Option<Option<T>>) -> Null<T> {
    match o {
        None => Null::Undefined,
        Some(None) => Null::Null,
        Some(Some(v)) => Null::Value(v),
    }
}

/// The embedding of a plain optional: `Some(v)` is `Value(v)`, `None` is
/// `Undefined`. A plain optional has no way to say "explicitly null", so
/// this direction can never produce `Null`.
pub open spec fn spec_from_optional<T>(o: Option<T>) -> Null<T> {
    match o {
        Some(v) => Null::Value(v),
        None => Null::Undefined,
    }
}

impl<T> Null<T> {
    /// Converts to the equivalent nested optional, losslessly.
    pub fn to_nested_optional(self) -> (r: Option<Option<T>>)
        ensures
            r == spec_to_nested(self),
    {
        match self {
            Null::Undefined => None,
            Null::Null => Some(None),
            Null::Value(value) => Some(Some(value)),
        }
    }

    /// Converts from the equivalent nested optional, losslessly; the
    /// exact inverse of `to_nested_optional`.
    pub fn from_nested_optional(o: Option<Option<T>>) -> (r: Null<T>)
        ensures
            r == spec_from_nested(o),
    {
        match o {
            Some(Some(value)) => Null::Value(value),
            Some(None) => Null::Null,
            None => Null::Undefined,
        }
    }

    /// Embeds a plain optional: a missing binary optional means "not
    /// provided", never "explicitly null".
    pub fn from_optional(o: Option<T>) -> (r: Null<T>)
        ensures
            r == spec_from_optional(o),
    {
        match o {
            Some(value) => Null::Value(value),
            None => Null::Undefined,
        }
    }
}

/// Law: the nested-optional representation is lossless in both
/// directions. Converting a container out and back yields the same
/// container, and converting a nested optional in and back yields the
/// same nested optional.
pub proof fn lemma_nested_round_trip<T>(s: Null<T>, o: Option<Option<T>>)
    ensures
        spec_from_nested(spec_to_nested(s)) == s,
        spec_to_nested(spec_from_nested(o)) == o,
{
}

/// Law: embedding a plain optional never yields `Null`, and embeds
/// `None` as `Undefined`.
pub proof fn lemma_from_optional_no_explicit_null<T>(o: Option<T>)
    ensures
        !spec_from_optional(o).spec_is_null(),
        o is None ==> spec_from_optional(o) is Undefined,
{
}

} // verus!
