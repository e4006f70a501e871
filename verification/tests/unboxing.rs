use tea_compiler::aot::helpers::{
    payload_decoding, tea_value_accessor, tea_value_boxing, tea_value_unboxing, PayloadDecoding,
    PayloadEncoding, Unboxing,
};
use tea_compiler::aot::types::ValueType;

#[test]
fn values_read_back_the_way_they_were_boxed() {
    assert_eq!(tea_value_unboxing(&ValueType::Int), Unboxing::Payload(PayloadDecoding::Integer));
    assert_eq!(tea_value_unboxing(&ValueType::Float), Unboxing::Payload(PayloadDecoding::FloatBits));
    assert_eq!(tea_value_unboxing(&ValueType::Bool), Unboxing::Payload(PayloadDecoding::NonZero));
    assert_eq!(tea_value_unboxing(&ValueType::Struct("P".to_string())), Unboxing::Payload(PayloadDecoding::PointerAddress));
    assert_eq!(tea_value_unboxing(&ValueType::Optional(Box::new(ValueType::Int))), Unboxing::Whole);
    assert_eq!(tea_value_unboxing(&ValueType::Void), Unboxing::Nothing);
    let (_, enc) = tea_value_boxing(&ValueType::Bool).unwrap();
    assert!(matches!(enc, PayloadEncoding::ZeroExtendedBool));
}

#[test]
fn bare_payloads_and_accessors() {
    assert_eq!(payload_decoding(&ValueType::String).unwrap(), PayloadDecoding::PointerAddress);
    assert_eq!(
        payload_decoding(&ValueType::Optional(Box::new(ValueType::Int))).unwrap_err(),
        "payload_to_expr doesn't handle Optional or Void"
    );
    assert_eq!(tea_value_accessor(&ValueType::Dict(Box::new(ValueType::Int))).unwrap(), "tea_value_as_dict");
    assert_eq!(
        tea_value_accessor(&ValueType::Struct("P".to_string())).unwrap_err(),
        "unsupported element type for for-loop: Struct(\"P\")"
    );
}
