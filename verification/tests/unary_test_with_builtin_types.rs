use tonic_rpc::codec::{Scalar, WireValue};
use tonic_rpc::descriptor::{MethodDef, ParamDef, ServiceDef};
use tonic_rpc::generate::{call_unary, tonic_rpc};
use tonic_rpc::services::MathService;

fn math_def() -> ServiceDef {
    ServiceDef {
        name: "Math".to_string(),
        package: "".to_string(),
        methods: vec![MethodDef {
            name: "add".to_string(),
            annotations: vec![],
            params: vec![ParamDef {
                name: "args".to_string(),
                ty: "(i32, i32)".to_string(),
                receiver: false,
            }],
            ret: Some("i32".to_string()),
        }],
    }
}

#[test]
fn test_math_with_builtins() {
    let bindings = tonic_rpc(&"json".to_string(), &math_def()).expect("Failed to generate");
    let mut server = MathService;
    let request = WireValue::Tuple(vec![Scalar::Int(42), Scalar::Int(35)]);
    let response = call_unary(&bindings, 0, &request, &mut server)
        .expect("Failed to send request");
    assert_eq!(WireValue::Single(Scalar::Int(77)), response);

    let request = WireValue::Tuple(vec![Scalar::Int(23), Scalar::Int(-23)]);
    let response = call_unary(&bindings, 0, &request, &mut server)
        .expect("Failed to send request");
    assert_eq!(WireValue::Single(Scalar::Int(0)), response);
}
