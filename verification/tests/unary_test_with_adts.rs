use tonic_rpc::codec::{Scalar, WireValue};
use tonic_rpc::descriptor::{MethodDef, ParamDef, ServiceDef};
use tonic_rpc::generate::{call_unary, tonic_rpc};
use tonic_rpc::services::IncrementService;

fn increment_def() -> ServiceDef {
    ServiceDef {
        name: "Increment".to_string(),
        package: "".to_string(),
        methods: vec![MethodDef {
            name: "increment".to_string(),
            annotations: vec![],
            params: vec![ParamDef {
                name: "arg".to_string(),
                ty: "IncRequest".to_string(),
                receiver: false,
            }],
            ret: Some("IncResult".to_string()),
        }],
    }
}

#[test]
fn test_increment_with_adts() {
    let bindings = tonic_rpc(&"json".to_string(), &increment_def()).expect("Failed to generate");
    let mut server = IncrementService;

    let response = call_unary(&bindings, 0, &WireValue::Single(Scalar::Int(5)), &mut server)
        .expect("Failed to send request");
    assert_eq!(
        WireValue::Variant("Incremented".to_string(), Some(Scalar::Int(6))),
        response
    );

    let response = call_unary(
        &bindings,
        0,
        &WireValue::Single(Scalar::Int(i32::MAX as i64)),
        &mut server,
    )
    .expect("Failed to send request");
    assert_eq!(WireValue::Variant("Overflow".to_string(), None), response);
}
