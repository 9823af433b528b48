use tonic_rpc::codec::{CodecKind, Scalar, WireValue, encode};
use tonic_rpc::descriptor::{
    AnnotationDef, GenerationError, MethodDef, ParamDef, ServiceDef, TypeDescriptor,
};
use tonic_rpc::generate::{make_method, make_rpc, make_service, parse_codec_tag, tonic_rpc};
use tonic_rpc::routing::{dispatch_unary, lookup, StatusOutcome};
use tonic_rpc::services::MathService;

fn plain_method(name: &str, params: Vec<ParamDef>, ret: Option<&str>) -> MethodDef {
    MethodDef {
        name: name.to_string(),
        annotations: vec![],
        params,
        ret: ret.map(|t| t.to_string()),
    }
}

fn param(name: &str, ty: &str) -> ParamDef {
    ParamDef { name: name.to_string(), ty: ty.to_string(), receiver: false }
}

#[test]
fn shape_derivation() {
    // 0 parameters: unit request.
    let d = make_method(&plain_method("heartbeat", vec![], None)).unwrap();
    assert_eq!(TypeDescriptor::Unit, d.request);
    // 1 parameter: that type, unwrapped, with no implicit tuple.
    let d = make_method(&plain_method("count", vec![param("start", "i32")], Some("i32"))).unwrap();
    assert_eq!(TypeDescriptor::Named("i32".to_string()), d.request);
    assert_eq!(TypeDescriptor::Named("i32".to_string()), d.response);
    // N > 1 parameters: an ordered tuple in declaration order.
    let d = make_method(
        &plain_method("publish", vec![param("channel", "String"), param("value", "String")], None),
    )
    .unwrap();
    assert_eq!(
        TypeDescriptor::Tuple(vec!["String".to_string(), "String".to_string()]),
        d.request
    );
    // No declared return type: unit response.
    assert_eq!(TypeDescriptor::Unit, d.response);
}

#[test]
fn identifier_normalization() {
    let d = make_method(&plain_method("increment", vec![param("x", "i32")], Some("i32"))).unwrap();
    assert_eq!("increment", d.name);
    assert_eq!("Increment", d.identifier);
    let d = make_method(&plain_method("count_n", vec![param("start", "i32")], Some("i32")))
        .unwrap();
    assert_eq!("CountN", d.identifier);
}

#[test]
fn streaming_annotations_set_the_flags() {
    let mut m = plain_method("sub", vec![param("channel", "String")], Some("(String, String)"));
    m.annotations = vec![
        AnnotationDef { name: "server_streaming".to_string(), text: String::new() },
        AnnotationDef { name: "client_streaming".to_string(), text: String::new() },
        AnnotationDef { name: "doc".to_string(), text: " Subscribe to a channel.".to_string() },
    ];
    let d = make_method(&m).unwrap();
    assert!(d.server_streaming);
    assert!(d.client_streaming);
    assert_eq!(vec![" Subscribe to a channel.".to_string()], d.comments);
}

#[test]
fn unsupported_annotation_fails_generation() {
    let mut m = plain_method("increment", vec![param("x", "i32")], Some("i32"));
    m.annotations = vec![AnnotationDef { name: "inline".to_string(), text: String::new() }];
    let def = ServiceDef {
        name: "Increment".to_string(),
        package: "".to_string(),
        methods: vec![m],
    };
    let err = make_service(&def).unwrap_err();
    assert_eq!(
        GenerationError::UnsupportedAnnotation {
            method: "increment".to_string(),
            annotation: "inline".to_string(),
        },
        err
    );
    assert_eq!(
        "annotation inline is not supported on method increment",
        err.message()
    );
}

#[test]
fn receiver_parameter_fails_generation() {
    let m = MethodDef {
        name: "increment".to_string(),
        annotations: vec![],
        params: vec![ParamDef { name: "self".to_string(), ty: "Self".to_string(), receiver: true }],
        ret: Some("i32".to_string()),
    };
    let def = ServiceDef {
        name: "Increment".to_string(),
        package: "".to_string(),
        methods: vec![m],
    };
    let err = make_service(&def).unwrap_err();
    assert_eq!(
        GenerationError::InvalidReceiver { method: "increment".to_string() },
        err
    );
}

#[test]
fn normalization_collision_fails_generation() {
    let def = ServiceDef {
        name: "Store".to_string(),
        package: "".to_string(),
        methods: vec![
            plain_method("do_thing", vec![param("x", "i32")], None),
            plain_method("doThing", vec![param("x", "i32")], None),
        ],
    };
    let err = make_service(&def).unwrap_err();
    assert_eq!(
        GenerationError::IdentifierCollision { identifier: "DoThing".to_string() },
        err
    );
}

#[test]
fn codec_tags_select_the_strategies() {
    assert_eq!(Ok(CodecKind::Json), parse_codec_tag(&"json".to_string()));
    assert_eq!(Ok(CodecKind::Bincode), parse_codec_tag(&"bincode".to_string()));
    assert_eq!(Ok(CodecKind::Cbor), parse_codec_tag(&"cbor".to_string()));
    assert_eq!(Ok(CodecKind::MessagePack), parse_codec_tag(&"messagepack".to_string()));
    assert_eq!(Err(GenerationError::MissingCodec), parse_codec_tag(&"".to_string()));
    assert_eq!(
        Err(GenerationError::UnknownCodec { tag: "protobuf".to_string() }),
        parse_codec_tag(&"protobuf".to_string())
    );
}

#[test]
fn wire_paths_follow_the_convention() {
    let def = ServiceDef {
        name: "Count".to_string(),
        package: "counter".to_string(),
        methods: vec![plain_method("count", vec![param("amount", "i32")], Some("i32"))],
    };
    let bindings = make_rpc(&def, CodecKind::Json).unwrap();
    assert_eq!("counter.Count/Count", bindings.routes.entries[0].path);
    assert_eq!("counter.Count/Count", bindings.client_ops[0].path);
    assert_eq!(Some(0), lookup(&bindings.routes, &"counter.Count/Count".to_string()));
    assert_eq!(None, lookup(&bindings.routes, &"counter.Count/Missing".to_string()));
}

#[test]
fn unknown_path_is_unimplemented_and_serving_continues() {
    let def = ServiceDef {
        name: "Math".to_string(),
        package: "".to_string(),
        methods: vec![plain_method(
            "add",
            vec![param("x", "i32"), param("y", "i32")],
            Some("i32"),
        )],
    };
    let bindings = tonic_rpc(&"json".to_string(), &def).unwrap();
    let mut server = MathService;
    let request = WireValue::Tuple(vec![Scalar::Int(42), Scalar::Int(35)]);
    let payload = encode(bindings.codec, &request).unwrap();

    let outcome = dispatch_unary(
        &bindings.routes,
        bindings.codec,
        &"nowhere.Nothing/Nope".to_string(),
        &payload,
        &mut server,
    );
    assert_eq!(StatusOutcome::Unimplemented, outcome);
    assert_eq!(12, outcome.grpc_code());

    // The same table keeps serving registered paths afterwards.
    let good = dispatch_unary(
        &bindings.routes,
        bindings.codec,
        &bindings.routes.entries[0].path.clone(),
        &payload,
        &mut server,
    );
    match good {
        StatusOutcome::Reply(bytes) => {
            assert_eq!(
                WireValue::Single(Scalar::Int(77)),
                tonic_rpc::codec::decode(bindings.codec, &bytes).unwrap()
            );
        }
        other => panic!("unexpected outcome {:?}", other),
    }
}

#[test]
fn codec_failure_is_an_internal_status() {
    let def = ServiceDef {
        name: "Math".to_string(),
        package: "".to_string(),
        methods: vec![plain_method(
            "add",
            vec![param("x", "i32"), param("y", "i32")],
            Some("i32"),
        )],
    };
    let bindings = tonic_rpc(&"json".to_string(), &def).unwrap();
    let mut server = MathService;
    let garbage: Vec<u8> = vec![0x01, 0x02];
    let outcome = dispatch_unary(
        &bindings.routes,
        bindings.codec,
        &bindings.routes.entries[0].path.clone(),
        &garbage,
        &mut server,
    );
    match &outcome {
        StatusOutcome::Internal(diagnostic) => assert!(!diagnostic.is_empty()),
        other => panic!("unexpected outcome {:?}", other),
    }
    assert_eq!(13, outcome.grpc_code());
}

#[test]
fn application_failure_is_propagated() {
    let def = ServiceDef {
        name: "Math".to_string(),
        package: "".to_string(),
        methods: vec![plain_method(
            "add",
            vec![param("x", "i32"), param("y", "i32")],
            Some("i32"),
        )],
    };
    let bindings = tonic_rpc(&"json".to_string(), &def).unwrap();
    let mut server = MathService;
    let request = WireValue::Tuple(vec![
        Scalar::Int(i32::MAX as i64),
        Scalar::Int(1),
    ]);
    let payload = encode(bindings.codec, &request).unwrap();
    let outcome = dispatch_unary(
        &bindings.routes,
        bindings.codec,
        &bindings.routes.entries[0].path.clone(),
        &payload,
        &mut server,
    );
    assert_eq!(StatusOutcome::AppError("add overflow".to_string()), outcome);
    assert_eq!(2, outcome.grpc_code());
}
