use tonic_rpc::codec::{Scalar, WireValue};
use tonic_rpc::descriptor::{MethodDef, ParamDef, ServiceDef};
use tonic_rpc::generate::{call_unary, tonic_rpc, ServiceBindings};
use tonic_rpc::services::MathService;

fn math_def(name: &str) -> ServiceDef {
    ServiceDef {
        name: name.to_string(),
        package: "".to_string(),
        methods: vec![MethodDef {
            name: "add".to_string(),
            annotations: vec![],
            params: vec![
                ParamDef { name: "x".to_string(), ty: "i32".to_string(), receiver: false },
                ParamDef { name: "y".to_string(), ty: "i32".to_string(), receiver: false },
            ],
            ret: Some("i32".to_string()),
        }],
    }
}

fn add_via(bindings: &ServiceBindings, x: i64, y: i64) -> WireValue {
    let request = WireValue::Tuple(vec![Scalar::Int(x), Scalar::Int(y)]);
    let mut server = MathService;
    call_unary(bindings, 0, &request, &mut server).expect("Failed to send request")
}

#[test]
fn test_json_codec() {
    let bindings = tonic_rpc(&"json".to_string(), &math_def("MathJson")).unwrap();
    assert_eq!(WireValue::Single(Scalar::Int(77)), add_via(&bindings, 42, 35));
}

#[test]
fn test_cbor_codec() {
    let bindings = tonic_rpc(&"cbor".to_string(), &math_def("MathCbor")).unwrap();
    assert_eq!(WireValue::Single(Scalar::Int(77)), add_via(&bindings, 42, 35));
}

#[test]
fn test_bincode_codec() {
    let bindings = tonic_rpc(&"bincode".to_string(), &math_def("MathBincode")).unwrap();
    assert_eq!(WireValue::Single(Scalar::Int(77)), add_via(&bindings, 42, 35));
}

#[test]
fn test_message_pack_codec() {
    let bindings = tonic_rpc(&"messagepack".to_string(), &math_def("MathMessagePack")).unwrap();
    assert_eq!(WireValue::Single(Scalar::Int(77)), add_via(&bindings, 42, 35));
}
