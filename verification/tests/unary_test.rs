use tonic_rpc::codec::{Scalar, WireValue};
use tonic_rpc::descriptor::{MethodDef, ParamDef, ServiceDef};
use tonic_rpc::generate::{call_unary, tonic_rpc};
use tonic_rpc::services::IncrementService;

fn increment_def() -> ServiceDef {
    ServiceDef {
        name: "Increment".to_string(),
        package: "".to_string(),
        methods: vec![MethodDef {
            name: "increment".to_string(),
            annotations: vec![],
            params: vec![ParamDef {
                name: "x".to_string(),
                ty: "i32".to_string(),
                receiver: false,
            }],
            ret: Some("i32".to_string()),
        }],
    }
}

#[test]
fn test() {
    let bindings = tonic_rpc(&"json".to_string(), &increment_def()).expect("Failed to generate");
    let mut server = IncrementService;
    let request = WireValue::Single(Scalar::Int(5));
    let response = call_unary(&bindings, 0, &request, &mut server)
        .expect("Failed to send request");
    match response {
        WireValue::Variant(name, Some(Scalar::Int(x))) => {
            assert_eq!("Incremented", name);
            assert_eq!(6, x);
        }
        other => panic!("unexpected reply {:?}", other),
    }
}
