use tristate::wire::{MalformedWire, WireRead};
use tristate::{new, null, undefined, Null};

/// Reads a raw wire string the way a serialization collaborator would:
/// unreadable raw input, the null marker, a value that parses as `T`, or
/// a value that does not.
fn read_wire<T: serde::de::DeserializeOwned>(raw: &str) -> WireRead<T> {
    match serde_json::from_str::<serde_json::Value>(raw) {
        Err(_) => WireRead::Unreadable,
        Ok(serde_json::Value::Null) => WireRead::NullMarker,
        Ok(json) => match serde_json::from_value::<T>(json) {
            Ok(v) => WireRead::Parsed(v),
            Err(_) => WireRead::Malformed,
        },
    }
}

#[test]
fn wrap_is_observed_as_value() {
    let s = new(5);
    assert!(s.is_value());
    assert_eq!(s.value(), Some(&5));
    assert_eq!(s.take(), Some(5));
}

#[test]
fn exactly_one_predicate_holds() {
    for s in [Null::Undefined, Null::Null, Null::Value(1)] {
        let flags = [s.is_undefined(), s.is_null(), s.is_value()];
        assert_eq!(flags.iter().filter(|&&b| b).count(), 1);
    }
}

#[test]
fn nested_optional_round_trip() {
    for s in [Null::Undefined, Null::Null, Null::Value(9)] {
        assert_eq!(Null::from_nested_optional(s.to_nested_optional()), s);
    }
    assert_eq!(Null::<i32>::Undefined.to_nested_optional(), None);
    assert_eq!(Null::<i32>::Null.to_nested_optional(), Some(None));
    assert_eq!(Null::Value(9).to_nested_optional(), Some(Some(9)));
    for o in [None, Some(None), Some(Some(4))] {
        assert_eq!(Null::from_nested_optional(o).to_nested_optional(), o);
    }
}

#[test]
fn from_optional_never_explicit_null() {
    assert_eq!(Null::from_optional(Some(7)), Null::Value(7));
    assert!(!Null::from_optional(Some(7)).is_null());
    assert_eq!(Null::<i32>::from_optional(None), Null::Undefined);
}

#[test]
fn update_to_patch_semantics() {
    let mut slot = Some(5);
    Null::Undefined.update_to(&mut slot);
    assert_eq!(slot, Some(5));

    let mut slot = Some(5);
    Null::Null.update_to(&mut slot);
    assert_eq!(slot, None);

    let mut slot = Some(5);
    Null::Value(7).update_to(&mut slot);
    assert_eq!(slot, Some(7));

    let mut slot: Option<i32> = None;
    Null::Undefined.update_to(&mut slot);
    assert_eq!(slot, None);
}

#[test]
fn map_never_invoked_on_undefined() {
    let mut called = false;
    let r = Null::<i32>::Undefined.map(|_| {
        called = true;
        Some(1)
    });
    assert_eq!(r, Null::Undefined);
    assert!(!called);

    let mut called = false;
    let r = Null::<i32>::Undefined.map_value(|v| {
        called = true;
        v + 1
    });
    assert_eq!(r, Null::Undefined);
    assert!(!called);
}

#[test]
fn map_sees_the_right_argument() {
    let mut seen = None;
    let r = Null::Value(5).map(|o| {
        seen = Some(o);
        o.map(|v| v * 2)
    });
    assert_eq!(r, Null::Value(10));
    assert_eq!(seen, Some(Some(5)));

    let mut seen = None;
    let r = Null::<i32>::Null.map(|o| {
        seen = Some(o);
        Some(9)
    });
    assert_eq!(r, Null::Value(9));
    assert_eq!(seen, Some(None));

    assert_eq!(Null::<i32>::Null.map(|_| None::<i32>), Null::Null);
    assert_eq!(Null::Value(3).map(|_| None::<i32>), Null::Null);
}

#[test]
fn map_value_preserves_structure() {
    assert_eq!(Null::Value(5).map_value(|v| v * 2), Null::Value(10));
    assert_eq!(Null::<i32>::Null.map_value(|v| v * 2), Null::Null);
    assert_eq!(Null::<i32>::Undefined.map_value(|v| v * 2), Null::Undefined);
}

#[test]
fn wire_decode_restores_states() {
    assert_eq!(Null::<i32>::decode_wire(read_wire("null")), Null::Null);
    assert_eq!(Null::<i32>::decode_wire(read_wire("42")), Null::Value(42));
    assert_eq!(Null::<i32>::decode_wire(read_wire("\"oops\"")), Null::Undefined);
    assert_eq!(Null::<i32>::decode_wire(read_wire("{")), Null::Undefined);
}

#[test]
fn wire_decode_strict_propagates_malformed() {
    assert_eq!(
        Null::<i32>::decode_wire_strict(read_wire("null")),
        Ok(Null::Null)
    );
    assert_eq!(
        Null::<i32>::decode_wire_strict(read_wire("42")),
        Ok(Null::Value(42))
    );
    assert_eq!(
        Null::<i32>::decode_wire_strict(read_wire("\"oops\"")),
        Err(MalformedWire)
    );
    assert_eq!(
        Null::<i32>::decode_wire_strict(read_wire("{")),
        Ok(Null::Undefined)
    );
}

#[test]
fn column_null_decodes_to_explicit_null() {
    let r: Result<Null<i32>, String> = Null::decode_column(None);
    assert_eq!(r, Ok(Null::Null));
    assert!(!r.unwrap().is_undefined());
}

#[test]
fn column_value_and_error_decode() {
    let r: Result<Null<i32>, String> = Null::decode_column(Some(Ok(7)));
    assert_eq!(r, Ok(Null::Value(7)));
    let r: Result<Null<i32>, String> = Null::decode_column(Some(Err("bad shape".to_string())));
    assert_eq!(r, Err("bad shape".to_string()));
}

#[test]
fn contains_checks_against_optionals() {
    assert!(Null::Value(3).contains(&Some(3)));
    assert!(!Null::Value(3).contains(&Some(4)));
    assert!(!Null::Value(3).contains(&None::<i32>));
    assert!(Null::<i32>::Null.contains(&None::<i32>));
    assert!(!Null::<i32>::Null.contains(&Some(3)));
    assert!(!Null::<i32>::Undefined.contains(&Some(3)));
    assert!(!Null::<i32>::Undefined.contains(&None::<i32>));
}

#[test]
fn contains_value_checks_payload_only() {
    assert!(Null::Value(3).contains_value(&3));
    assert!(!Null::Value(3).contains_value(&4));
    assert!(!Null::<i32>::Null.contains_value(&3));
    assert!(!Null::<i32>::Undefined.contains_value(&3));
}

#[test]
fn lookup_errors_collapse_to_explicit_null() {
    assert_eq!(Null::from_result(Ok(5)), Null::Value(5));
    let failed: Result<i32, sqlx::Error> = Err(sqlx::Error::RowNotFound);
    let collapsed = Null::from_result(failed);
    assert_eq!(collapsed, Null::Null);
    assert!(!collapsed.is_undefined());
}

#[test]
fn json_lookup_unwraps_the_wrapper() {
    let found: Result<sqlx::types::Json<i32>, sqlx::Error> = Ok(sqlx::types::Json(5));
    assert_eq!(Null::from_json_result(found), Null::Value(5));
    let failed: Result<sqlx::types::Json<i32>, sqlx::Error> = Err(sqlx::Error::RowNotFound);
    assert_eq!(Null::from_json_result(failed), Null::Null);
}

#[test]
fn factories_and_default() {
    assert!(undefined::<i32>().is_undefined());
    assert!(null::<i32>().is_null());
    assert_eq!(new(3), Null::Value(3));
    assert!(Null::<i32>::default().is_undefined());
}

#[test]
fn take_discards_the_distinction() {
    assert_eq!(Null::<i32>::Undefined.take(), None);
    assert_eq!(Null::<i32>::Null.take(), None);
    assert_eq!(Null::Value(2).take(), Some(2));
}

#[test]
fn value_borrows_the_payload() {
    assert_eq!(Null::<i32>::Undefined.value(), None);
    assert_eq!(Null::<i32>::Null.value(), None);
    assert_eq!(Null::Value(2).value(), Some(&2));
}

#[test]
fn declared_order_of_variants() {
    assert!(Null::<i32>::Undefined < Null::<i32>::Null);
    assert!(Null::<i32>::Null < Null::Value(i32::MIN));
    assert!(Null::Value(1) < Null::Value(2));
}

#[test]
fn wire_encoding_collapses_to_payload_or_null() {
    // On the way out both non-value states read back as the null marker:
    // the payload-or-nothing view is what a serializer emits.
    assert_eq!(Null::<i32>::Undefined.take(), Null::<i32>::Null.take());
    assert_eq!(Null::Value(8).take(), Some(8));
}
