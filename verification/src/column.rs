//! The persistence (column) contract, and conversions from a fallible
//! row lookup.
//!
//! A tri-state column negotiates types exactly as a column of the payload
//! type would. On write, `Value(v)` encodes as `v`'s own column encoding
//! and both `Undefined` and `Null` encode as SQL NULL (`value` and `take`
//! hand the driver exactly that payload-or-NULL reading). On read, a NULL
//! column always decodes to `Null` — a stored row's column always exists,
//! so "not provided" is not a readable state — and a decode failure of a
//! non-NULL value propagates as an error, unlike the wire decode, which
//! swallows it.

use vstd::prelude::*;

use crate::Null;

verus! {

/// The driver's error type for a failed row lookup.
#[verifier::external_type_specification]
#[verifier::external_body]
pub struct ExSqlxError(sqlx::Error);

/// The driver's transparent single-field JSON wrapper.
#[verifier::external_type_specification]
#[verifier::reject_recursive_types(T)]
pub struct ExJson<T: ?Sized>(sqlx::types::Json<T>);

/// What a column read decodes to: a NULL column (`col` is `None`) is
/// always an explicit null, a decoded value is a value, and a failed
/// decode of a non-NULL value is passed through as the error.
pub open spec fn spec_decode_column<T, E>(col: Option<Result<T, E>>) -> Result<Null<T>, E> {
    match col {
        None => Ok(Null::Null),
        Some(Ok(v)) => Ok(Null::Value(v)),
        Some(Err(e)) => Err(e),
    }
}

impl<T> Null<T> {
    /// Restores a container from a column read: `col` is `None` for a
    /// NULL column, and otherwise carries the payload type's own decode
    /// result. A NULL column always yields `Null`, never `Undefined`; a
    /// failed decode propagates.
    pub fn decode_column<E>(col: Option<Result<T, E>>) -> (r: Result<Null<T>, E>)
        ensures
            r == spec_decode_column(col),
    {
        match col {
            None => Ok(Null::Null),
            Some(Ok(v)) => Ok(Null::Value(v)),
            Some(Err(e)) => Err(e),
        }
    }

    /// Converts a fallible row lookup: a found value is wrapped, and any
    /// error is collapsed to `Null` — the error detail is deliberately
    /// discarded at this boundary, and a failed lookup reads as
    /// "explicitly no value", not as "not provided".
    pub fn from_result(res: Result<T, sqlx::Error>) -> (r: Null<T>)
        ensures
            res matches Ok(v) ==> r == Null::Value(v),
            res is Err ==> r is Null,
    {
        match res {
            Ok(data) => Null::Value(data),
            Err(_) => Null::Null,
        }
    }

    /// Converts a fallible row lookup of a JSON-wrapped value: as
    /// `from_result`, after unwrapping the driver's transparent
    /// single-field wrapper.
    pub fn from_json_result(res: Result<sqlx::types::Json<T>, sqlx::Error>) -> (r: Null<T>)
        ensures
            res matches Ok(j) ==> r == Null::Value(j.0),
            res is Err ==> r is Null,
    {
        match res {
            Ok(data) => Null::Value(data.0),
            Err(_) => Null::Null,
        }
    }
}

/// Law: a NULL column always decodes to the explicit-null state, never
/// to "not provided", whatever the payload type's own decode would do.
pub proof fn lemma_null_column_is_explicit_null<T, E>()
    ensures
        spec_decode_column::<T, E>(None) == Ok::<Null<T>, E>(Null::Null),
        spec_decode_column::<T, E>(None)->Ok_0.spec_is_null(),
{
}

} // verus!
