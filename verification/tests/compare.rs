use tea_compiler::aot::compare::{
    conversion_plan, plan_equality, Conversion, EqualityPlan, RuntimeEquality,
};
use tea_compiler::aot::type_debug::debug_value_type;
use tea_compiler::aot::types::ValueType;

fn opt(t: ValueType) -> ValueType {
    ValueType::Optional(Box::new(t))
}

fn error(name: &str, variant: Option<&str>) -> ValueType {
    ValueType::Error { error_name: name.to_string(), variant_name: variant.map(|v| v.to_string()) }
}

#[test]
fn debug_rendering_matches_the_derived_debug() {
    let samples = vec![
        ValueType::Int,
        ValueType::List(Box::new(opt(ValueType::Float))),
        ValueType::Dict(Box::new(ValueType::Bool)),
        ValueType::Function(vec![], Box::new(ValueType::Void)),
        ValueType::Function(vec![ValueType::Int, ValueType::String], Box::new(ValueType::Struct("P".to_string()))),
        ValueType::Struct("Pair[Int,String]".to_string()),
        ValueType::Struct("quote\"back\\slash\ttab\nnl\u{1}bell\u{7f}'".to_string()),
        ValueType::Struct("é café \u{301} 🦀 \u{200b}".to_string()),
        error("IoError", None),
        error("IoError", Some("NotFound")),
    ];
    for t in samples {
        assert_eq!(debug_value_type(&t), format!("{:?}", t));
    }
}

#[test]
fn conversions_follow_the_expected_type() {
    assert!(matches!(conversion_plan(&ValueType::Int, &ValueType::Int), Ok(Conversion::Keep)));
    assert!(matches!(conversion_plan(&ValueType::Void, &opt(ValueType::Int)), Ok(Conversion::Nil)));
    assert!(matches!(
        conversion_plan(&ValueType::Int, &opt(opt(ValueType::Int))),
        Ok(Conversion::Wrap(inner)) if matches!(*inner, Conversion::Wrap(_))
    ));
    assert!(matches!(conversion_plan(&opt(ValueType::Int), &opt(ValueType::Int)), Ok(Conversion::Keep)));
    assert_eq!(
        conversion_plan(&opt(ValueType::Int), &opt(ValueType::String)).unwrap_err(),
        "optional conversion mismatch: expected String, found Int"
    );
    assert_eq!(
        conversion_plan(&ValueType::Bool, &ValueType::List(Box::new(ValueType::Int))).unwrap_err(),
        "type mismatch: expected List(Int), found Bool"
    );
}

#[test]
fn error_values_convert_by_name_and_variant() {
    let target = error("IoError", Some("NotFound"));
    assert!(matches!(conversion_plan(&error("IoError", Some("NotFound")), &target), Ok(Conversion::Keep)));
    assert!(matches!(conversion_plan(&error("IoError", Some("Denied")), &error("IoError", None)), Ok(Conversion::Keep)));
    assert_eq!(
        conversion_plan(&error("ParseError", None), &target).unwrap_err(),
        "error type mismatch: expected error 'IoError', found 'ParseError'"
    );
    assert_eq!(
        conversion_plan(&error("IoError", Some("Denied")), &target).unwrap_err(),
        "error variant mismatch: expected 'IoError.NotFound', found 'IoError.Denied'"
    );
    assert_eq!(
        conversion_plan(&error("IoError", None), &target).unwrap_err(),
        "error variant mismatch: expected 'IoError.NotFound', found 'IoError'"
    );
    assert_eq!(
        conversion_plan(&ValueType::Int, &target).unwrap_err(),
        "expected error value 'IoError', found Int"
    );
}

#[test]
fn equality_is_planned_by_type() {
    assert!(matches!(plan_equality(&ValueType::Int, &ValueType::Int), Ok(EqualityPlan::Integers)));
    assert!(matches!(
        plan_equality(&ValueType::Int, &ValueType::Float),
        Ok(EqualityPlan::Floats { cast_left: true, cast_right: false })
    ));
    assert!(matches!(
        plan_equality(&ValueType::String, &ValueType::String),
        Ok(EqualityPlan::Runtime(RuntimeEquality::String))
    ));
    assert!(matches!(plan_equality(&ValueType::Void, &ValueType::String), Ok(EqualityPlan::NullString)));
    assert!(matches!(
        plan_equality(&ValueType::Void, &opt(ValueType::Int)),
        Ok(EqualityPlan::NilCheck { optional_on_left: false })
    ));
    assert!(matches!(
        plan_equality(&opt(ValueType::Int), &ValueType::Int),
        Ok(EqualityPlan::ConvertRight(Conversion::Wrap(_), _))
    ));
    assert!(matches!(
        plan_equality(&opt(opt(ValueType::Bool)), &opt(opt(ValueType::Bool))),
        Ok(EqualityPlan::Optionals(inner)) if matches!(*inner, EqualityPlan::Optionals(_))
    ));
}

#[test]
fn unsupported_comparisons_are_refused() {
    assert_eq!(
        plan_equality(&opt(ValueType::Int), &opt(ValueType::String)).unwrap_err(),
        "cannot compare optionals with different inner types"
    );
    assert_eq!(
        plan_equality(&ValueType::Struct("A".to_string()), &ValueType::Struct("B".to_string())).unwrap_err(),
        "cannot compare structs 'A' and 'B'"
    );
    assert_eq!(
        plan_equality(&ValueType::Int, &ValueType::String).unwrap_err(),
        "unsupported equality comparison"
    );
    assert_eq!(
        plan_equality(&error("E", None), &error("E", None)).unwrap_err(),
        "unsupported equality comparison"
    );
    assert_eq!(
        plan_equality(&ValueType::String, &opt(ValueType::Int)).unwrap_err(),
        "type mismatch: expected Int, found String"
    );
    assert_eq!(
        plan_equality(&ValueType::String, &ValueType::Int).is_ok(),
        plan_equality(&ValueType::Int, &ValueType::String).is_ok()
    );
}
