use ergo_wasm_derive::boundary::{
    Accessor, BoundaryArray, BoundaryValue, HandleProperty, Invocation,
};
use ergo_wasm_derive::error::{BulkError, DowncastError};
use ergo_wasm_derive::exported::Exported;

#[derive(Clone, Debug, PartialEq)]
struct Point(i32, i32);

#[derive(Clone, Debug, PartialEq)]
struct Circle {
    radius: u64,
    label: String,
}

fn points() -> Exported<Point> {
    Exported::new("Point", "PointArray")
}

fn number(n: f64) -> HandleProperty {
    HandleProperty::Number(n.to_bits())
}

#[test]
fn the_identity_tag_is_the_declared_name() {
    let exported = points();
    assert_eq!(exported.get_classname(), "Point");
    assert_eq!(exported.array_type(), "PointArray");
    assert_eq!(exported.len(), 0);
}

#[test]
fn a_counterpart_is_tagged_and_carries_the_handle() {
    let mut exported = points();
    let first = exported.to_boundary(Point(1, 2));
    let second = exported.to_boundary(Point(3, 4));
    assert_eq!(
        first,
        BoundaryValue {
            object_like: true,
            accessor: Accessor::Callable(Invocation::Tag("Point".to_string())),
            handle: number(1.0),
        }
    );
    assert_eq!(second.handle, number(2.0));
    assert_eq!(exported.len(), 2);
}

#[test]
fn a_value_comes_back_from_its_counterpart() {
    let mut exported = points();
    let js = exported.to_boundary(Point(1, 2));
    assert_eq!(exported.downcast(&js), Ok(Point(1, 2)));
    let other = exported.to_boundary(Point(-7, 9));
    assert_eq!(exported.downcast(&other), Ok(Point(-7, 9)));
    assert_eq!(exported.downcast(&js), Ok(Point(1, 2)));
}

#[test]
fn the_instance_itself_is_found_behind_its_counterpart() {
    let mut exported = points();
    let first = exported.to_boundary(Point(1, 2));
    let second = exported.to_boundary(Point(3, 4));
    assert_eq!(exported.recover(&first), Ok(&Point(1, 2)));
    assert_eq!(exported.recover(&second), Ok(&Point(3, 4)));
    let mut other = second.clone();
    other.accessor = Accessor::Callable(Invocation::Tag("Circle".to_string()));
    assert_eq!(
        exported.recover(&other),
        Err(DowncastError::TypeMismatch {
            actual: "Circle".to_string(),
            expected: "Point".to_string()
        })
    );
    other = second;
    other.handle = number(3.0);
    assert_eq!(
        exported.recover(&other),
        Err(DowncastError::InvalidHandle { expected: "Point".to_string(), handle: Some(3) })
    );
}

#[test]
fn a_value_with_owned_parts_comes_back_equal() {
    let mut circles: Exported<Circle> = Exported::new("Circle", "CircleArray");
    let value = Circle { radius: 3, label: "unit".to_string() };
    let js = circles.to_boundary(value.clone());
    assert_eq!(circles.downcast(&js), Ok(value));
}

#[test]
fn a_circle_is_no_point() {
    let mut circles: Exported<Circle> = Exported::new("Circle", "CircleArray");
    let mut exported = points();
    exported.to_boundary(Point(1, 2));
    let js = circles.to_boundary(Circle { radius: 1, label: String::new() });
    let error = exported.downcast(&js).unwrap_err();
    assert_eq!(
        error,
        DowncastError::TypeMismatch { actual: "Circle".to_string(), expected: "Point".to_string() }
    );
    assert!(error.message().contains("Circle"));
    assert!(error.message().contains("Point"));
}

#[test]
fn a_non_object_is_no_point() {
    let mut exported = points();
    let mut js = exported.to_boundary(Point(1, 2));
    js.object_like = false;
    assert_eq!(
        exported.downcast(&js),
        Err(DowncastError::NotAnObject { expected: "Point".to_string() })
    );
}

#[test]
fn an_object_without_the_accessor_is_no_point() {
    let mut exported = points();
    let mut js = exported.to_boundary(Point(1, 2));
    js.accessor = Accessor::Absent;
    assert_eq!(exported.downcast(&js), Err(DowncastError::MissingIdentityAccessor { found: None }));
}

#[test]
fn a_handle_without_an_instance_fails() {
    let mut exported = points();
    let mut js = exported.to_boundary(Point(1, 2));
    js.handle = number(2.0);
    let error = exported.downcast(&js).unwrap_err();
    assert_eq!(
        error,
        DowncastError::InvalidHandle { expected: "Point".to_string(), handle: Some(2) }
    );
    assert_eq!(error.message(), "ptr does not refer to a live Point");
    js.handle = number(0.0);
    assert_eq!(
        exported.downcast(&js),
        Err(DowncastError::InvalidHandle { expected: "Point".to_string(), handle: Some(0) })
    );
    js.handle = number(f64::NAN);
    assert_eq!(
        exported.downcast(&js),
        Err(DowncastError::InvalidHandle { expected: "Point".to_string(), handle: Some(0) })
    );
    js.handle = number(1.5);
    assert_eq!(exported.downcast(&js), Ok(Point(1, 2)));
}

#[test]
fn points_exported_and_imported_come_back_in_order() {
    let mut exported = points();
    let array = exported.try_into_js_array(vec![Point(1, 2), Point(3, 4)]).unwrap();
    assert_eq!(array.array_type, "PointArray");
    assert_eq!(array.elements.as_ref().map(|elements| elements.len()), Some(2));
    assert_eq!(exported.try_as_vec(&array), Ok(vec![Point(1, 2), Point(3, 4)]));
}

#[test]
fn borrowed_points_exported_and_imported_come_back_in_order() {
    let mut exported = points();
    let values = vec![Point(1, 2), Point(3, 4), Point(5, 6)];
    let array = exported.try_as_js_array(&values).unwrap();
    assert_eq!(array.array_type, "PointArray");
    assert_eq!(exported.try_as_vec(&array), Ok(values.clone()));
    assert_eq!(values, vec![Point(1, 2), Point(3, 4), Point(5, 6)]);
    assert_eq!(exported.len(), 3);
}

#[test]
fn a_second_export_gets_the_following_handles() {
    let mut exported = points();
    let first = exported.try_into_js_array(vec![Point(1, 2), Point(3, 4)]).unwrap();
    let second = exported.try_as_js_array(&vec![Point(5, 6)]).unwrap();
    assert_eq!(
        second.elements,
        Some(vec![BoundaryValue {
            object_like: true,
            accessor: Accessor::Callable(Invocation::Tag("Point".to_string())),
            handle: number(3.0),
        }])
    );
    assert_eq!(exported.try_as_vec(&second), Ok(vec![Point(5, 6)]));
    assert_eq!(exported.try_as_vec(&first), Ok(vec![Point(1, 2), Point(3, 4)]));
}

#[test]
fn an_empty_sequence_crosses_as_an_empty_array() {
    let mut exported = points();
    let array = exported.try_into_js_array(Vec::new()).unwrap();
    assert_eq!(array.elements, Some(Vec::new()));
    assert_eq!(exported.try_as_vec(&array), Ok(Vec::new()));
    let array = exported.try_as_js_array(&Vec::new()).unwrap();
    assert_eq!(array.elements, Some(Vec::new()));
}

#[test]
fn what_is_no_array_is_not_imported() {
    let exported = points();
    let source = BoundaryArray { array_type: "PointArray".to_string(), elements: None };
    let error = exported.try_as_vec(&source).unwrap_err();
    assert_eq!(error, BulkError::NotAnArray);
    assert_eq!(error.message(), "try_as_vec: argument wasn't an array type");
}

#[test]
fn one_malformed_element_fails_the_whole_import() {
    let mut exported = points();
    let mut array = exported
        .try_into_js_array(vec![Point(1, 2), Point(3, 4), Point(5, 6), Point(7, 8)])
        .unwrap();
    if let Some(elements) = array.elements.as_mut() {
        elements[2].accessor = Accessor::Callable(Invocation::Tag("Circle".to_string()));
    }
    let error = exported.try_as_vec(&array).unwrap_err();
    assert_eq!(
        error,
        BulkError::ElementConversionFailed {
            index: 2,
            error: DowncastError::TypeMismatch {
                actual: "Circle".to_string(),
                expected: "Point".to_string()
            },
        }
    );
    assert_eq!(error.message(), "Cannot convert Circle to Point");
}

#[test]
fn the_first_malformed_element_decides() {
    let mut exported = points();
    let mut array =
        exported.try_into_js_array(vec![Point(1, 2), Point(3, 4), Point(5, 6)]).unwrap();
    if let Some(elements) = array.elements.as_mut() {
        elements[1].object_like = false;
        elements[2].accessor = Accessor::Absent;
    }
    assert_eq!(
        exported.try_as_vec(&array),
        Err(BulkError::ElementConversionFailed {
            index: 1,
            error: DowncastError::NotAnObject { expected: "Point".to_string() },
        })
    );
    if let Some(elements) = array.elements.as_mut() {
        elements[0].handle = HandleProperty::NonNumeric;
    }
    assert_eq!(
        exported.try_as_vec(&array),
        Err(BulkError::ElementConversionFailed {
            index: 0,
            error: DowncastError::InvalidHandle { expected: "Point".to_string(), handle: None },
        })
    );
}

#[test]
fn a_malformed_last_element_fails_the_import() {
    let mut exported = points();
    let mut array = exported.try_into_js_array(vec![Point(1, 2), Point(3, 4)]).unwrap();
    if let Some(elements) = array.elements.as_mut() {
        elements[1].handle = number(9.0);
    }
    assert_eq!(
        exported.try_as_vec(&array),
        Err(BulkError::ElementConversionFailed {
            index: 1,
            error: DowncastError::InvalidHandle { expected: "Point".to_string(), handle: Some(9) },
        })
    );
}

#[test]
fn an_array_may_name_an_instance_twice() {
    let mut exported = points();
    let js = exported.to_boundary(Point(1, 2));
    let array = BoundaryArray {
        array_type: "PointArray".to_string(),
        elements: Some(vec![js.clone(), js]),
    };
    assert_eq!(exported.try_as_vec(&array), Ok(vec![Point(1, 2), Point(1, 2)]));
}
