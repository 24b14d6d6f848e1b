use render_core::filters::ceil;
use render_core::filters::divided_by;
use render_core::filters::floor;
use render_core::filters::minus;
use render_core::filters::plus;
use render_core::filters::replace;
use render_core::filters::round;
use render_core::filters::size;
use render_core::filters::times;
use render_core::filters::upcase;
use render_core::filters::Filter;
use render_core::filters::FilterError;
use render_core::value::Value;

fn num(x: f32) -> Value {
    Value::Num(x.to_bits())
}

fn tos(s: &str) -> Value {
    Value::Str(s.to_string())
}

#[test]
fn unit_size() {
    assert_eq!(size(&tos("abc"), &[]).unwrap(), num(3f32));
    assert_eq!(size(&tos("this has 22 characters"), &[]).unwrap(), num(22f32));
}

#[test]
fn unit_upcase() {
    assert_eq!(upcase(&tos("abc"), &[]).unwrap(), tos("ABC"));
    assert_eq!(upcase(&tos("Hello World 21"), &[]).unwrap(), tos("HELLO WORLD 21"));
}

#[test]
fn unit_minus() {
    assert_eq!(minus(&num(2f32), &[num(1f32)]).unwrap(), num(1f32));
    assert_eq!(minus(&num(21.5), &[num(1.25)]).unwrap(), num(20.25));
}

#[test]
fn unit_plus() {
    assert_eq!(plus(&num(2f32), &[num(1f32)]).unwrap(), num(3f32));
    assert_eq!(plus(&num(21.5), &[num(2.25)]).unwrap(), num(23.75));
}

#[test]
fn unit_times() {
    assert_eq!(times(&num(2f32), &[num(3f32)]).unwrap(), num(6f32));
    assert_eq!(times(&num(8.5), &[num(0.5)]).unwrap(), num(4.25));
    assert!(times(&Value::Bool(true), &[num(8.5)]).is_err());
    assert!(times(&num(2.5), &[Value::Bool(true)]).is_err());
    assert!(times(&num(2.5), &[]).is_err());
}

#[test]
fn unit_divided_by() {
    assert_eq!(divided_by(&num(4f32), &[num(2f32)]).unwrap(), num(2f32));
    assert_eq!(divided_by(&num(5f32), &[num(2f32)]).unwrap(), num(2f32));
    assert!(divided_by(&Value::Bool(true), &[num(8.5)]).is_err());
    assert!(divided_by(&num(2.5), &[Value::Bool(true)]).is_err());
    assert!(divided_by(&num(2.5), &[]).is_err());
}

#[test]
fn unit_floor() {
    assert_eq!(floor(&num(1.1f32), &[]).unwrap(), num(1f32));
    assert_eq!(floor(&num(1f32), &[]).unwrap(), num(1f32));
    assert!(floor(&Value::Bool(true), &[]).is_err());
}

#[test]
fn unit_ceil() {
    assert_eq!(ceil(&num(1.1f32), &[]).unwrap(), num(2f32));
    assert_eq!(ceil(&num(1f32), &[]).unwrap(), num(1f32));
    assert!(ceil(&Value::Bool(true), &[]).is_err());
}

#[test]
fn unit_round() {
    assert_eq!(round(&num(1.1f32), &[]).unwrap(), num(1f32));
    assert_eq!(round(&num(1.5f32), &[]).unwrap(), num(2f32));
    assert_eq!(round(&num(2f32), &[]).unwrap(), num(2f32));
    assert!(round(&Value::Bool(true), &[]).is_err());
}

#[test]
fn unit_replace() {
    assert_eq!(replace(&tos("barbar"), &[tos("bar"), tos("foo")]).unwrap(), tos("foofoo"));
}

#[test]
fn size_of_array_and_object() {
    let arr = Value::Array(vec![num(1.0), Value::Bool(false), tos("x")]);
    assert_eq!(size(&arr, &[]).unwrap(), num(3f32));
    let obj = Value::Object(vec![("a".to_string(), num(1.0)), ("b".to_string(), tos("y"))]);
    assert_eq!(size(&obj, &[]).unwrap(), num(2f32));
    let empty = Value::Array(Vec::new());
    assert_eq!(size(&empty, &[]).unwrap(), num(0f32));
}

#[test]
fn wrong_variant_is_invalid_type() {
    assert!(matches!(size(&num(1.0), &[]), Err(FilterError::InvalidType(_))));
    assert!(matches!(size(&Value::Bool(true), &[]), Err(FilterError::InvalidType(_))));
    assert!(matches!(upcase(&num(1.0), &[]), Err(FilterError::InvalidType(_))));
    assert!(matches!(minus(&tos("x"), &[num(1.0)]), Err(FilterError::InvalidType(_))));
    assert!(matches!(plus(&tos("x"), &[num(1.0)]), Err(FilterError::InvalidType(_))));
    assert!(matches!(times(&Value::Bool(true), &[num(8.5)]), Err(FilterError::InvalidType(_))));
    assert!(matches!(divided_by(&tos("x"), &[num(1.0)]), Err(FilterError::InvalidType(_))));
    assert!(matches!(floor(&tos("x"), &[]), Err(FilterError::InvalidType(_))));
    assert!(matches!(ceil(&tos("x"), &[]), Err(FilterError::InvalidType(_))));
    assert!(matches!(round(&tos("x"), &[]), Err(FilterError::InvalidType(_))));
    assert!(
        matches!(replace(&num(1.0), &[tos("a"), tos("b")]), Err(FilterError::InvalidType(_)))
    );
}

#[test]
fn arithmetic_bad_argument_positions() {
    assert!(matches!(minus(&num(2.0), &[]), Err(FilterError::InvalidArgument(0, _))));
    assert!(matches!(plus(&num(2.0), &[tos("x")]), Err(FilterError::InvalidArgument(0, _))));
    assert!(
        matches!(times(&num(2.0), &[Value::Bool(true)]), Err(FilterError::InvalidArgument(0, _)))
    );
    assert!(matches!(divided_by(&num(2.0), &[]), Err(FilterError::InvalidArgument(0, _))));
}

#[test]
fn replace_arity_and_argument_positions() {
    assert!(matches!(replace(&tos("x"), &[]), Err(FilterError::InvalidArgumentCount(_))));
    assert!(matches!(replace(&tos("x"), &[tos("a")]), Err(FilterError::InvalidArgumentCount(_))));
    assert!(matches!(
        replace(&tos("x"), &[tos("a"), tos("b"), tos("c")]),
        Err(FilterError::InvalidArgumentCount(_))
    ));
    // the count check comes first, whatever the input variant
    assert!(matches!(replace(&num(1.0), &[]), Err(FilterError::InvalidArgumentCount(_))));
    match replace(&tos("x"), &[tos("a")]) {
        Err(e) => assert_eq!(e.description(), "expected 2, 1 given"),
        _ => panic!("expected an arity rejection"),
    }
    assert!(
        matches!(replace(&tos("x"), &[num(1.0), tos("b")]), Err(FilterError::InvalidArgument(0, _)))
    );
    assert!(
        matches!(replace(&tos("x"), &[tos("a"), num(1.0)]), Err(FilterError::InvalidArgument(1, _)))
    );
}

#[test]
fn extra_arguments_are_tolerated() {
    assert_eq!(size(&tos("abc"), &[num(1.0), tos("ignored")]).unwrap(), num(3f32));
    assert_eq!(upcase(&tos("abc"), &[num(1.0)]).unwrap(), tos("ABC"));
    assert_eq!(minus(&num(5.0), &[num(2.0), tos("ignored")]).unwrap(), num(3.0));
    assert_eq!(floor(&num(1.5), &[tos("ignored")]).unwrap(), num(1.0));
}

#[test]
fn divided_by_is_floored_float_division() {
    assert_eq!(divided_by(&num(7.0), &[num(2.0)]).unwrap(), num(3.0));
    assert_eq!(divided_by(&num(-5.0), &[num(2.0)]).unwrap(), num(-3.0));
}

#[test]
fn apply_dispatches_by_filter() {
    assert_eq!(Filter::Size.apply(&tos("abcd"), &[]).unwrap(), num(4f32));
    assert_eq!(Filter::Upcase.apply(&tos("ab"), &[]).unwrap(), tos("AB"));
    assert_eq!(Filter::Minus.apply(&num(5.0), &[num(2.0)]).unwrap(), num(3.0));
    assert_eq!(Filter::Plus.apply(&num(5.0), &[num(2.0)]).unwrap(), num(7.0));
    assert_eq!(Filter::Times.apply(&num(5.0), &[num(2.0)]).unwrap(), num(10.0));
    assert_eq!(Filter::DividedBy.apply(&num(5.0), &[num(2.0)]).unwrap(), num(2.0));
    assert_eq!(Filter::Floor.apply(&num(2.7), &[]).unwrap(), num(2.0));
    assert_eq!(Filter::Ceil.apply(&num(2.1), &[]).unwrap(), num(3.0));
    assert_eq!(Filter::Round.apply(&num(2.5), &[]).unwrap(), num(3.0));
    assert_eq!(
        Filter::Replace.apply(&tos("aXa"), &[tos("X"), tos("b")]).unwrap(),
        tos("aba")
    );
}

#[test]
fn error_messages_and_description() {
    let e = FilterError::InvalidArgument(21, "x".to_string());
    assert_eq!(e.message(), "Invalid argument given at position 21 : x");
    assert_eq!(e.description(), "x");
    let t = FilterError::InvalidType("Num expected".to_string());
    assert_eq!(t.message(), "Invalid type : Num expected");
    assert_eq!(t.description(), "Num expected");
    let c = FilterError::InvalidArgumentCount("expected 2 arguments".to_string());
    assert_eq!(c.message(), "Invalid number of arguments : expected 2 arguments");
    assert_eq!(c.description(), "expected 2 arguments");
}

#[test]
fn invalid_type_constructor() {
    let r: Result<Value, FilterError> = FilterError::invalid_type("boom");
    match r {
        Err(FilterError::InvalidType(m)) => assert_eq!(m, "boom"),
        _ => panic!("expected an InvalidType rejection"),
    }
}
