//! A tri-state optional: a container that distinguishes a field that was
//! never mentioned (`Undefined`), a field that was explicitly cleared
//! (`Null`), and a field that carries a concrete value (`Value`).
//!
//! A plain `Option` collapses the first two states; update-style APIs
//! (partial PATCH bodies, relational UPDATE statements) need all three.
//! The core operations here never panic and never conflate the states;
//! the wire and column codecs in the submodules say exactly where the
//! three-way distinction is collapsed and how it is restored.

use vstd::prelude::*;
use vstd::std_specs::cmp::PartialEqSpec;

pub mod convert;
pub mod wire;
pub mod column;

verus! {

/// The three states an optional update field can be in.
#[derive(Copy, Clone, PartialEq, PartialOrd, Eq, Ord, Debug, Hash)]
pub enum Null<T> {
    /// The field was not mentioned at all: leave any existing value alone.
    Undefined,
    /// The field was explicitly set to "no value": clear it.
    Null,
    /// The field was given the concrete value `T`.
    Value(T),
}

/// Wraps a concrete value.
pub fn new<T>(value: T) -> (r: Null<T>)
    ensures
        r == Null::Value(value),
{
    Null::Value(value)
}

/// The "field not mentioned" state.
pub fn undefined<T>() -> (r: Null<T>)
    ensures
        r is Undefined,
{
    Null::Undefined
}

/// The "field explicitly cleared" state.
pub fn null<T>() -> (r: Null<T>)
    ensures
        r is Null,
{
    Null::Null
}

impl<T> Default for Null<T> {
    /// The default is `Undefined`: saying nothing about a field.
    fn default() -> (r: Self)
        ensures
            r is Undefined,
    {
        Null::Undefined
    }
}

impl<T> Null<T> {
    /// Whether this is the `Undefined` state.
    pub open spec fn spec_is_undefined(self) -> bool {
        self is Undefined
    }

    /// Whether this is the `Null` state.
    pub open spec fn spec_is_null(self) -> bool {
        self is Null
    }

    /// Whether this holds a concrete value.
    pub open spec fn spec_is_value(self) -> bool {
        self is Value
    }

    /// The payload: `Some(v)` exactly when this is `Value(v)`.
    pub open spec fn spec_value(self) -> Option<T> {
        match self {
            Null::Value(v) => Some(v),
            _ => None,
        }
    }

    /// True exactly on `Undefined`.
    pub fn is_undefined(&self) -> (r: bool)
        ensures
            r == self.spec_is_undefined(),
    {
        matches!(self, Null::Undefined)
    }

    /// True exactly on `Null`.
    pub fn is_null(&self) -> (r: bool)
        ensures
            r == self.spec_is_null(),
    {
        matches!(self, Null::Null)
    }

    /// True exactly on `Value(_)`.
    pub fn is_value(&self) -> (r: bool)
        ensures
            r == self.spec_is_value(),
    {
        matches!(self, Null::Value(_))
    }

    /// A reference to the payload: `Some(&v)` exactly when this is
    /// `Value(v)`; never allocates, never panics.
    pub fn value(&self) -> (r: Option<&T>)
        ensures
            r is Some <==> self.spec_is_value(),
            r matches Some(x) ==> Some(*x) == self.spec_value(),
    {
        match self {
            Null::Value(value) => Some(value),
            _ => None,
        }
    }

    /// Consumes the container; the owned payload comes back iff this was
    /// `Value`. `Undefined` and `Null` both yield `None`: callers that
    /// need the distinction must inspect the predicates first.
    pub fn take(self) -> (r: Option<T>)
        ensures
            r == self.spec_value(),
    {
        match self {
            Null::Value(value) => Some(value),
            _ => None,
        }
    }

    /// True iff this is `Value(v)` and `x == v`. The exact outcome of the
    /// comparison is pinned down whenever `U`'s equality obeys its
    /// specification (as every primitive's does).
    pub fn contains_value<U>(&self, x: &U) -> (r: bool) where
        U: PartialEq<T>,

        ensures
            !self.spec_is_value() ==> r == false,
            <U as PartialEqSpec<T>>::obeys_eq_spec() ==> (r <==> ((*self) matches Null::Value(
                y,
            ) && x.eq_spec(&y))),
    {
        match self {
            Null::Value(y) => x == y,
            _ => false,
        }
    }

    /// True iff this is `Value(v)` and `x == Some(v)`, or this is `Null`
    /// and `x` is `None`. `Undefined` compares equal to no optional: "not
    /// provided" carries no comparable value.
    pub fn contains<U>(&self, x: &Option<U>) -> (r: bool) where
        U: PartialEq<T>,

        ensures
            self.spec_is_undefined() ==> r == false,
            self.spec_is_null() ==> (r <==> (*x) is None),
            <U as PartialEqSpec<T>>::obeys_eq_spec() ==> (r <==> match *self {
                Null::Value(y) => (*x) matches Some(v) && v.eq_spec(&y),
                Null::Null => (*x) is None,
                Null::Undefined => false,
            }),
    {
        match self {
            Null::Value(y) => match x {
                Some(v) => v == y,
                None => false,
            },
            Null::Null => x.is_none(),
            Null::Undefined => false,
        }
    }

    /// The general transformer: `f` sees `Some(v)` for `Value(v)` and
    /// `None` for `Null`; its answer `Some(u)` becomes `Value(u)` and
    /// `None` becomes `Null`. For `Undefined` the result is `Undefined`
    /// and `f` is never invoked (no precondition is demanded of it there).
    pub fn map<U, F: FnOnce(Option<T>) -> Option<U>>(self, f: F) -> (r: Null<U>)
        requires
            self is Value ==> call_requires(f, (self.spec_value(),)),
            self is Null ==> call_requires(f, (None::<T>,)),
        ensures
            self is Undefined ==> r is Undefined,
            self is Value ==> exists|o: Option<U>|
                #[trigger] call_ensures(f, (self.spec_value(),), o) && r == reapplied(o),
            self is Null ==> exists|o: Option<U>|
                #[trigger] call_ensures(f, (None::<T>,), o) && r == reapplied(o),
    {
        match self {
            Null::Value(v) => match f(Some(v)) {
                Some(u) => Null::Value(u),
                None => Null::Null,
            },
            Null::Null => match f(None) {
                Some(u) => Null::Value(u),
                None => Null::Null,
            },
            Null::Undefined => Null::Undefined,
        }
    }

    /// The structure-preserving transformer: only a payload is mapped;
    /// `Undefined` and `Null` pass through and `f` is never invoked on
    /// them (no precondition is demanded of it there).
    pub fn map_value<U, F: FnOnce(T) -> U>(self, f: F) -> (r: Null<U>)
        requires
            self matches Null::Value(v) ==> call_requires(f, (v,)),
        ensures
            self is Undefined ==> r is Undefined,
            self is Null ==> r is Null,
            self matches Null::Value(v) ==> (exists|u: U|
                #[trigger] call_ensures(f, (v,), u) && r == Null::Value(u)),
    {
        match self {
            Null::Value(v) => Null::Value(f(v)),
            Null::Null => Null::Null,
            Null::Undefined => Null::Undefined,
        }
    }

    /// Patch semantics, in place: `Value(v)` overwrites the slot with
    /// `Some(v)`, `Null` clears it, `Undefined` leaves it untouched.
    pub fn update_to(self, value: &mut Option<T>)
        ensures
            self matches Null::Value(v) ==> *final (value) == Some(v),
            self is Null ==> *final (value) is None,
            self is Undefined ==> *final (value) == *old(value),
    {
        match self {
            Null::Value(new) => *value = Some(new),
            Null::Null => *value = None,
            Null::Undefined => {},
        }
    }
}

/// How a transformer's decision is read back into the container: an
/// answer `Some(u)` means "a value", `None` means "explicitly no value".
pub open spec fn reapplied<U>(o: Option<U>) -> Null<U> {
    match o {
        Some(u) => Null::Value(u),
        None => Null::Null,
    }
}

/// Law: a wrapped value is observed as one. `new(v)` is in the `Value`
/// state and its payload is exactly `v`, as `value` and `take` report it.
pub proof fn lemma_wrap_observations<T>(v: T)
    ensures
        (Null::Value(v)).spec_is_value(),
        (Null::Value(v)).spec_value() == Some(v),
{
}

/// Law: the three states are mutually exclusive and exhaustive. Exactly
/// one of the predicates holds of any container.
pub proof fn lemma_variants_exclusive<T>(s: Null<T>)
    ensures
        s.spec_is_undefined() || s.spec_is_null() || s.spec_is_value(),
        s.spec_is_undefined() ==> !s.spec_is_null() && !s.spec_is_value(),
        s.spec_is_null() ==> !s.spec_is_undefined() && !s.spec_is_value(),
        s.spec_is_value() ==> !s.spec_is_undefined() && !s.spec_is_null(),
{
}

} // verus!
