use ergo_wasm_derive::boundary::{Accessor, BoundaryValue, HandleProperty, Invocation};
use ergo_wasm_derive::downcast::{
    on_accessor, on_handle, on_object, read_handle, Step, ACCESSOR_PROPERTY, HANDLE_PROPERTY,
};
use ergo_wasm_derive::error::DowncastError;

fn tagged(tag: &str, handle: f64) -> BoundaryValue {
    BoundaryValue {
        object_like: true,
        accessor: Accessor::Callable(Invocation::Tag(tag.to_string())),
        handle: HandleProperty::Number(handle.to_bits()),
    }
}

#[test]
fn the_well_known_property_names() {
    assert_eq!(ACCESSOR_PROPERTY, "__getClassname");
    assert_eq!(HANDLE_PROPERTY, "ptr");
}

#[test]
fn a_tagged_object_gives_its_handle() {
    assert_eq!(read_handle(&tagged("Point", 1114120.0), "Point"), Ok(1114120));
    assert_eq!(read_handle(&tagged("Point", 1.0), "Point"), Ok(1));
}

#[test]
fn circle_asked_for_as_point_names_both() {
    let error = read_handle(&tagged("Circle", 8.0), "Point").unwrap_err();
    assert_eq!(
        error,
        DowncastError::TypeMismatch { actual: "Circle".to_string(), expected: "Point".to_string() }
    );
    let message = error.message();
    assert_eq!(message, "Cannot convert Circle to Point");
    assert!(message.contains("Circle"));
    assert!(message.contains("Point"));
}

#[test]
fn the_tag_is_compared_exactly() {
    assert_eq!(
        read_handle(&tagged("point", 8.0), "Point"),
        Err(DowncastError::TypeMismatch {
            actual: "point".to_string(),
            expected: "Point".to_string()
        })
    );
    assert_eq!(
        read_handle(&tagged("Point ", 8.0), "Point"),
        Err(DowncastError::TypeMismatch {
            actual: "Point ".to_string(),
            expected: "Point".to_string()
        })
    );
    assert_eq!(
        read_handle(&tagged("", 8.0), "Point"),
        Err(DowncastError::TypeMismatch { actual: "".to_string(), expected: "Point".to_string() })
    );
}

#[test]
fn a_non_object_fails_whatever_else_it_carries() {
    let mut js = tagged("Point", 8.0);
    js.object_like = false;
    let error = read_handle(&js, "Point").unwrap_err();
    assert_eq!(error, DowncastError::NotAnObject { expected: "Point".to_string() });
    assert_eq!(error.message(), "Value supplied as Point is not an object");

    let bare = BoundaryValue {
        object_like: false,
        accessor: Accessor::Absent,
        handle: HandleProperty::Absent,
    };
    assert_eq!(
        read_handle(&bare, "Point"),
        Err(DowncastError::NotAnObject { expected: "Point".to_string() })
    );

    let other = BoundaryValue {
        object_like: false,
        accessor: Accessor::Callable(Invocation::Tag("Circle".to_string())),
        handle: HandleProperty::NonNumeric,
    };
    assert_eq!(
        read_handle(&other, "Point"),
        Err(DowncastError::NotAnObject { expected: "Point".to_string() })
    );
}

#[test]
fn an_object_without_the_accessor_fails() {
    let js = BoundaryValue {
        object_like: true,
        accessor: Accessor::Absent,
        handle: HandleProperty::Number(8.0f64.to_bits()),
    };
    let error = read_handle(&js, "Point").unwrap_err();
    assert_eq!(error, DowncastError::MissingIdentityAccessor { found: None });
    assert_eq!(
        error.message(),
        "no __getClassname method specified for object; did you forget to derive TryFromJsObject for this type?"
    );
}

#[test]
fn an_accessor_that_cannot_be_called_fails() {
    let js = BoundaryValue {
        object_like: true,
        accessor: Accessor::NotCallable { found: "JsValue(5)".to_string() },
        handle: HandleProperty::Number(8.0f64.to_bits()),
    };
    let error = read_handle(&js, "Point").unwrap_err();
    assert_eq!(
        error,
        DowncastError::MissingIdentityAccessor { found: Some("JsValue(5)".to_string()) }
    );
    assert_eq!(error.message(), "__getClassname is not a function, JsValue(5)");
}

#[test]
fn an_accessor_that_gives_no_tag_fails() {
    for invocation in [Invocation::Failed, Invocation::NonString] {
        let js = BoundaryValue {
            object_like: true,
            accessor: Accessor::Callable(invocation),
            handle: HandleProperty::Number(8.0f64.to_bits()),
        };
        let error = read_handle(&js, "Point").unwrap_err();
        assert_eq!(error, DowncastError::IdentityRetrievalFailed);
        assert_eq!(error.message(), "Failed to get classname");
    }
}

#[test]
fn a_handle_that_is_absent_or_unreadable_fails() {
    let mut js = tagged("Point", 8.0);
    js.handle = HandleProperty::Absent;
    let error = read_handle(&js, "Point").unwrap_err();
    assert_eq!(error, DowncastError::MissingHandle { reason: None });
    assert_eq!(error.message(), "JsValue(null)");

    js.handle = HandleProperty::Unreadable { reason: "JsValue(TypeError: no ptr)".to_string() };
    let error = read_handle(&js, "Point").unwrap_err();
    assert_eq!(
        error,
        DowncastError::MissingHandle { reason: Some("JsValue(TypeError: no ptr)".to_string()) }
    );
    assert_eq!(error.message(), "JsValue(TypeError: no ptr)");
}

#[test]
fn a_handle_that_is_no_number_fails() {
    let mut js = tagged("Point", 8.0);
    js.handle = HandleProperty::NonNumeric;
    let error = read_handle(&js, "Point").unwrap_err();
    assert_eq!(error, DowncastError::InvalidHandle { expected: "Point".to_string(), handle: None });
    assert_eq!(error.message(), "JsValue(null)");
}

#[test]
fn the_mismatch_comes_before_the_handle() {
    let mut js = tagged("Circle", 8.0);
    js.handle = HandleProperty::NonNumeric;
    assert_eq!(
        read_handle(&js, "Point"),
        Err(DowncastError::TypeMismatch {
            actual: "Circle".to_string(),
            expected: "Point".to_string()
        })
    );
}

#[test]
fn the_number_is_cut_off_to_a_handle() {
    assert_eq!(read_handle(&tagged("Point", 8.75), "Point"), Ok(8));
    assert_eq!(read_handle(&tagged("Point", -3.0), "Point"), Ok(0));
    assert_eq!(read_handle(&tagged("Point", f64::NAN), "Point"), Ok(0));
    assert_eq!(read_handle(&tagged("Point", 1e12), "Point"), Ok(u32::MAX));
}

#[test]
fn the_steps_follow_the_order_of_the_checks() {
    assert_eq!(on_object(true, "Point"), Step::ReadAccessor);
    assert_eq!(
        on_object(false, "Point"),
        Step::Done(Err(DowncastError::NotAnObject { expected: "Point".to_string() }))
    );
    assert_eq!(
        on_accessor(&Accessor::Callable(Invocation::Tag("Point".to_string())), "Point"),
        Step::ReadHandle
    );
    assert_eq!(
        on_accessor(&Accessor::Callable(Invocation::Tag("Circle".to_string())), "Point"),
        Step::Done(Err(DowncastError::TypeMismatch {
            actual: "Circle".to_string(),
            expected: "Point".to_string()
        }))
    );
    assert_eq!(
        on_accessor(&Accessor::Absent, "Point"),
        Step::Done(Err(DowncastError::MissingIdentityAccessor { found: None }))
    );
    assert_eq!(
        on_accessor(&Accessor::NotCallable { found: "JsValue(1)".to_string() }, "Point"),
        Step::Done(Err(DowncastError::MissingIdentityAccessor {
            found: Some("JsValue(1)".to_string())
        }))
    );
    assert_eq!(
        on_accessor(&Accessor::Callable(Invocation::Failed), "Point"),
        Step::Done(Err(DowncastError::IdentityRetrievalFailed))
    );
    assert_eq!(
        on_accessor(&Accessor::Callable(Invocation::NonString), "Point"),
        Step::Done(Err(DowncastError::IdentityRetrievalFailed))
    );
    assert_eq!(on_handle(&HandleProperty::Number(5.0f64.to_bits()), "Point"), Step::Done(Ok(5)));
    assert_eq!(
        on_handle(&HandleProperty::Absent, "Point"),
        Step::Done(Err(DowncastError::MissingHandle { reason: None }))
    );
    assert_eq!(
        on_handle(&HandleProperty::Unreadable { reason: "gone".to_string() }, "Point"),
        Step::Done(Err(DowncastError::MissingHandle { reason: Some("gone".to_string()) }))
    );
    assert_eq!(
        on_handle(&HandleProperty::NonNumeric, "Point"),
        Step::Done(Err(DowncastError::InvalidHandle {
            expected: "Point".to_string(),
            handle: None
        }))
    );
}
