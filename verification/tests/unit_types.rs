use tonic_rpc::codec::{codec_round_trip, CodecKind, Scalar, WireValue};
use tonic_rpc::descriptor::{
    MethodDef, ParamDef, ServiceDef, TypeDescriptor,
};
use tonic_rpc::generate::make_service;

fn units_def() -> ServiceDef {
    ServiceDef {
        name: "Units".to_string(),
        package: "".to_string(),
        methods: vec![
            MethodDef {
                name: "send".to_string(),
                annotations: vec![],
                params: vec![ParamDef {
                    name: "arg".to_string(),
                    ty: "()".to_string(),
                    receiver: false,
                }],
                ret: None,
            },
            MethodDef {
                name: "heartbeat".to_string(),
                annotations: vec![],
                params: vec![],
                ret: None,
            },
        ],
    }
}

#[test]
fn test_unit_in_sig() {
    let descriptor = make_service(&units_def()).expect("Failed to generate");
    // `send` takes the unit type as its one (unwrapped) parameter type and
    // has the unit response shape; `heartbeat` has no parameters at all.
    assert_eq!(TypeDescriptor::Named("()".to_string()), descriptor.methods[0].request);
    assert_eq!(TypeDescriptor::Unit, descriptor.methods[0].response);
    assert_eq!(TypeDescriptor::Unit, descriptor.methods[1].request);
    assert_eq!(TypeDescriptor::Unit, descriptor.methods[1].response);

    // The unit value itself crosses the wire and comes back, as the original
    // exchange did under the tag-based binary strategy.
    assert_eq!(
        WireValue::Single(Scalar::Unit),
        codec_round_trip(CodecKind::Cbor, &WireValue::Single(Scalar::Unit))
    );
}
