//! The binding generator: from an interface definition and a selected codec
//! strategy to a service descriptor, one client operation per method, and the
//! server's routing table.
//!
//! Generation is a pure function of the definition: it either yields the
//! complete binding set or a `GenerationError`, never partial bindings. A
//! method's identifier is its name under a fixed leading-capital casing
//! convention; two names that collide only after that normalization are a
//! deterministic generation failure. Every method is routed under the wire
//! path `<package>.<ServiceIdentifier>/<MethodIdentifier>`.

use vstd::prelude::*;
use vstd::string::StringExecFns;

use crate::calls::{call_shape, shape_spec, CallShape};
use crate::codec::{encode, decode, CodecKind, WireValue};
use crate::descriptor::{
    AnnotationDef, AnnotationVal, GenErrVal, GenerationError, MethodDef, MethodDescVal,
    MethodDescriptor, MethodVal, ParamDef, ParamVal, ServiceDef, ServiceDescVal,
    ServiceDescriptor, ServiceVal, param_types, request_shape, request_shape_spec, response_shape,
    response_shape_spec,
};
use crate::routing::{
    dispatch_unary, lemma_lookup_finds, lookup_spec, RouteEntry, RouteVal, RoutingTable,
    StatusOutcome, StatusVal, UnaryHandler, unary_outcome,
};

verus! {

/// The leading-capital casing normalization of a method name.
pub uninterp spec fn camel_of(s: Seq<char>) -> Seq<char>;

/// Relies on heck's CamelCase conversion for str: the result depends on the
/// input characters alone.
#[verifier::external_body]
fn to_camel_case(s: &String) -> (r: String)
    ensures
        r@ == camel_of(s@),
{
    heck::CamelCase::to_camel_case(s.as_str())
}

/// The streaming flags and documentation drawn from a method's annotations:
/// the two supported flags in either order, documentation text collected in
/// order, and the first annotation outside the supported set as the failure.
pub open spec fn parse_attrs_spec(attrs: Seq<AnnotationVal>) -> Result<
    (bool, bool, Seq<Seq<char>>),
    Seq<char>,
>
    decreases attrs.len(),
{
    if attrs.len() == 0 {
        Ok((false, false, Seq::<Seq<char>>::empty()))
    } else {
        match parse_attrs_spec(attrs.drop_last()) {
            Err(e) => Err(e),
            Ok(t) => {
                let a = attrs.last();
                if a.name == "server_streaming"@ {
                    Ok((true, t.1, t.2))
                } else if a.name == "client_streaming"@ {
                    Ok((t.0, true, t.2))
                } else if a.name == "doc"@ {
                    Ok((t.0, t.1, t.2.push(a.text)))
                } else {
                    Err(a.name)
                }
            }
        }
    }
}

/// A failing prefix settles the whole scan.
proof fn lemma_parse_err_persists(attrs: Seq<AnnotationVal>, j: int)
    requires
        0 <= j <= attrs.len(),
        parse_attrs_spec(attrs.take(j)) is Err,
    ensures
        parse_attrs_spec(attrs) == parse_attrs_spec(attrs.take(j)),
    decreases attrs.len() - j,
{
    if j == attrs.len() {
        assert(attrs.take(j) =~= attrs);
    } else {
        assert(attrs.take(j + 1).drop_last() =~= attrs.take(j));
        lemma_parse_err_persists(attrs, j + 1);
    }
}

/// Scan a method's annotations: return `(server_streaming, client_streaming,
/// documentation)` or the name of the first unsupported annotation.
pub fn parse_attributes(attrs: &Vec<AnnotationDef>) -> (r: Result<(bool, bool, Vec<String>), String>)
    ensures
        ({
            let s = parse_attrs_spec(attrs@.map(|i: int, a: AnnotationDef| a@));
            match r {
                Ok(t) => s == Ok::<(bool, bool, Seq<Seq<char>>), Seq<char>>(
                    (t.0, t.1, t.2@.map(|i: int, d: String| d@)),
                ),
                Err(a) => s == Err::<(bool, bool, Seq<Seq<char>>), Seq<char>>(a@),
            }
        }),
{
    let ghost av = attrs@.map(|i: int, a: AnnotationDef| a@);
    let mut server_streaming: bool = false;
    let mut client_streaming: bool = false;
    let mut doc_comments: Vec<String> = Vec::new();
    proof {
        assert(av.take(0int) =~= Seq::<AnnotationVal>::empty());
        assert(doc_comments@.map(|k: int, d: String| d@) =~= Seq::<Seq<char>>::empty());
    }
    let mut i: usize = 0;
    while i < attrs.len()
        invariant
            i <= attrs.len(),
            av == attrs@.map(|k: int, a: AnnotationDef| a@),
            av.len() == attrs@.len(),
            parse_attrs_spec(av.take(i as int)) == Ok::<(bool, bool, Seq<Seq<char>>), Seq<char>>(
                (server_streaming, client_streaming, doc_comments@.map(|k: int, d: String| d@)),
            ),
        decreases attrs.len() - i,
    {
        proof {
            assert(av.take(i + 1).drop_last() =~= av.take(i as int));
            assert(av.take(i + 1).last() == av[i as int]);
        }
        let a = &attrs[i];
        if a.name == "server_streaming".to_owned() {
            server_streaming = true;
        } else if a.name == "client_streaming".to_owned() {
            client_streaming = true;
        } else if a.name == "doc".to_owned() {
            let ghost before = doc_comments@.map(|k: int, d: String| d@);
            doc_comments.push(a.text.clone());
            proof {
                assert(doc_comments@.map(|k: int, d: String| d@) =~= before.push(a.text@));
            }
        } else {
            proof {
                assert(parse_attrs_spec(av.take(i + 1)) == Err::<
                    (bool, bool, Seq<Seq<char>>),
                    Seq<char>,
                >(av[i as int].name));
                lemma_parse_err_persists(av, i + 1);
            }
            return Err(a.name.clone());
        }
        i = i + 1;
    }
    proof {
        assert(av.take(attrs@.len() as int) =~= av);
    }
    Ok((server_streaming, client_streaming, doc_comments))
}

/// Whether some parameter is a receiver-shaped binding.
pub open spec fn has_receiver(params: Seq<ParamVal>) -> bool {
    exists|k: int| 0 <= k < params.len() && params[k].receiver
}

fn find_receiver(params: &Vec<ParamDef>) -> (r: bool)
    ensures
        r == has_receiver(params@.map(|i: int, p: ParamDef| p@)),
{
    let ghost pv = params@.map(|i: int, p: ParamDef| p@);
    let mut i: usize = 0;
    while i < params.len()
        invariant
            i <= params.len(),
            pv == params@.map(|k: int, p: ParamDef| p@),
            pv.len() == params@.len(),
            forall|k: int| 0 <= k < i ==> !pv[k].receiver,
        decreases params.len() - i,
    {
        if params[i].receiver {
            assert(pv[i as int].receiver);
            return true;
        }
        i = i + 1;
    }
    false
}

/// The descriptor owed for one method, or the failure owed for it: the first
/// unsupported annotation wins over a receiver-shaped parameter.
pub open spec fn make_method_spec(m: MethodVal) -> Result<MethodDescVal, GenErrVal> {
    match parse_attrs_spec(m.annotations) {
        Err(a) => Err(GenErrVal::UnsupportedAnnotation { method: m.name, annotation: a }),
        Ok(t) => if has_receiver(m.params) {
            Err(GenErrVal::InvalidReceiver { method: m.name })
        } else {
            Ok(
                MethodDescVal {
                    name: m.name,
                    identifier: camel_of(m.name),
                    request: request_shape_spec(param_types(m.params)),
                    response: response_shape_spec(m.ret),
                    client_streaming: t.1,
                    server_streaming: t.0,
                    comments: t.2,
                },
            )
        },
    }
}

/// Compile one method of the definition into its descriptor.
pub fn make_method(method: &MethodDef) -> (r: Result<MethodDescriptor, GenerationError>)
    ensures
        match r {
            Ok(d) => make_method_spec(method@) == Ok::<MethodDescVal, GenErrVal>(d@),
            Err(e) => make_method_spec(method@) == Err::<MethodDescVal, GenErrVal>(e@),
        },
{
    match parse_attributes(&method.annotations) {
        Err(a) => Err(
            GenerationError::UnsupportedAnnotation { method: method.name.clone(), annotation: a },
        ),
        Ok(t) => {
            if find_receiver(&method.params) {
                Err(GenerationError::InvalidReceiver { method: method.name.clone() })
            } else {
                let (server_streaming, client_streaming, doc_comments) = t;
                let d = MethodDescriptor {
                    name: method.name.clone(),
                    identifier: to_camel_case(&method.name),
                    request: request_shape(&method.params),
                    response: response_shape(&method.ret),
                    client_streaming,
                    server_streaming,
                    comments: doc_comments,
                };
                Ok(d)
            }
        }
    }
}

/// The descriptors owed for a method list: the earliest failing method wins.
pub open spec fn build_methods_spec(ms: Seq<MethodVal>) -> Result<Seq<MethodDescVal>, GenErrVal>
    decreases ms.len(),
{
    if ms.len() == 0 {
        Ok(Seq::<MethodDescVal>::empty())
    } else {
        match build_methods_spec(ms.drop_last()) {
            Err(e) => Err(e),
            Ok(ds) => match make_method_spec(ms.last()) {
                Err(e) => Err(e),
                Ok(d) => Ok(ds.push(d)),
            },
        }
    }
}

proof fn lemma_build_err_persists(ms: Seq<MethodVal>, j: int)
    requires
        0 <= j <= ms.len(),
        build_methods_spec(ms.take(j)) is Err,
    ensures
        build_methods_spec(ms) == build_methods_spec(ms.take(j)),
    decreases ms.len() - j,
{
    if j == ms.len() {
        assert(ms.take(j) =~= ms);
    } else {
        assert(ms.take(j + 1).drop_last() =~= ms.take(j));
        lemma_build_err_persists(ms, j + 1);
    }
}

/// The identifier under which the earliest post-normalization collision is
/// reported: the second of the first colliding pair, in method order.
pub open spec fn first_collision_spec(ids: Seq<Seq<char>>) -> Option<Seq<char>>
    decreases ids.len(),
{
    if ids.len() == 0 {
        None
    } else {
        match first_collision_spec(ids.drop_last()) {
            Some(x) => Some(x),
            None => if exists|k: int| 0 <= k < ids.len() - 1 && ids[k] == ids.last() {
                Some(ids.last())
            } else {
                None
            },
        }
    }
}

proof fn lemma_collision_persists(ids: Seq<Seq<char>>, j: int)
    requires
        0 <= j <= ids.len(),
        first_collision_spec(ids.take(j)) is Some,
    ensures
        first_collision_spec(ids) == first_collision_spec(ids.take(j)),
    decreases ids.len() - j,
{
    if j == ids.len() {
        assert(ids.take(j) =~= ids);
    } else {
        assert(ids.take(j + 1).drop_last() =~= ids.take(j));
        lemma_collision_persists(ids, j + 1);
    }
}

/// Where no collision is reported, the identifiers are pairwise distinct.
pub proof fn lemma_no_collision_distinct(ids: Seq<Seq<char>>)
    requires
        first_collision_spec(ids) is None,
    ensures
        forall|i: int, j: int| 0 <= i < j < ids.len() ==> ids[i] != ids[j],
    decreases ids.len(),
{
    if ids.len() > 0 {
        lemma_no_collision_distinct(ids.drop_last());
        assert forall|i: int, j: int| 0 <= i < j < ids.len() implies ids[i] != ids[j] by {
            if j < ids.len() - 1 {
                assert(ids.drop_last()[i] == ids[i]);
                assert(ids.drop_last()[j] == ids[j]);
            } else {
                assert(!(exists|k: int| 0 <= k < ids.len() - 1 && ids[k] == ids.last()));
            }
        }
    }
}

/// The descriptor owed for a whole definition: every method compiled in
/// order, then the identifiers checked for post-normalization collisions.
/// The service identifier is the service's own name.
pub open spec fn make_service_spec(s: ServiceVal) -> Result<ServiceDescVal, GenErrVal> {
    match build_methods_spec(s.methods) {
        Err(e) => Err(e),
        Ok(ds) => match first_collision_spec(ds.map(|i: int, d: MethodDescVal| d.identifier)) {
            Some(id) => Err(GenErrVal::IdentifierCollision { identifier: id }),
            None => Ok(
                ServiceDescVal {
                    name: s.name,
                    package: s.package,
                    identifier: s.name,
                    methods: ds,
                },
            ),
        },
    }
}

/// Compile an interface definition into its service descriptor. Generation
/// is deterministic and all-or-nothing: a complete descriptor or the owed
/// failure, never partial output.
pub fn make_service(def: &ServiceDef) -> (r: Result<ServiceDescriptor, GenerationError>)
    ensures
        match r {
            Ok(d) => make_service_spec(def@) == Ok::<ServiceDescVal, GenErrVal>(d@),
            Err(e) => make_service_spec(def@) == Err::<ServiceDescVal, GenErrVal>(e@),
        },
{
    let ghost mv = def@.methods;
    let mut methods: Vec<MethodDescriptor> = Vec::new();
    proof {
        assert(mv.take(0int) =~= Seq::<MethodVal>::empty());
        assert(methods@.map(|k: int, d: MethodDescriptor| d@) =~= Seq::<MethodDescVal>::empty());
    }
    let mut i: usize = 0;
    while i < def.methods.len()
        invariant
            i <= def.methods.len(),
            mv == def@.methods,
            mv.len() == def.methods@.len(),
            mv == def.methods@.map(|k: int, m: MethodDef| m@),
            build_methods_spec(mv.take(i as int)) == Ok::<Seq<MethodDescVal>, GenErrVal>(
                methods@.map(|k: int, d: MethodDescriptor| d@),
            ),
        decreases def.methods.len() - i,
    {
        proof {
            assert(mv.take(i + 1).drop_last() =~= mv.take(i as int));
            assert(mv.take(i + 1).last() == mv[i as int]);
        }
        match make_method(&def.methods[i]) {
            Err(e) => {
                proof {
                    lemma_build_err_persists(mv, i + 1);
                }
                return Err(e);
            }
            Ok(d) => {
                let ghost before = methods@.map(|k: int, d: MethodDescriptor| d@);
                methods.push(d);
                proof {
                    assert(methods@.map(|k: int, d: MethodDescriptor| d@) =~= before.push(d@));
                }
            }
        }
        i = i + 1;
    }
    proof {
        assert(mv.take(mv.len() as int) =~= mv);
    }
    let ghost dsv = methods@.map(|k: int, d: MethodDescriptor| d@);
    let ghost ids = dsv.map(|k: int, d: MethodDescVal| d.identifier);
    if methods.len() > 0 {
        proof {
            assert(ids.take(1int).drop_last() =~= Seq::<Seq<char>>::empty());
            assert(first_collision_spec(Seq::<Seq<char>>::empty()) is None);
            assert(ids.take(1int).len() == 1);
            assert(first_collision_spec(ids.take(1int)) is None);
        }
        let mut j: usize = 1;
        while j < methods.len()
            invariant
                1 <= j <= methods.len(),
                mv == def@.methods,
                dsv == methods@.map(|k: int, d: MethodDescriptor| d@),
                ids == dsv.map(|k: int, d: MethodDescVal| d.identifier),
                ids.len() == methods@.len(),
                build_methods_spec(mv) == Ok::<Seq<MethodDescVal>, GenErrVal>(dsv),
                forall|k: int| 0 <= k < ids.len() ==> ids[k] == #[trigger] methods@[k].identifier@,
                first_collision_spec(ids.take(j as int)) is None,
            decreases methods.len() - j,
        {
            let mut k: usize = 0;
            while k < j
                invariant
                    k <= j,
                    j < methods.len(),
                    mv == def@.methods,
                    dsv == methods@.map(|t: int, d: MethodDescriptor| d@),
                    ids == dsv.map(|t: int, d: MethodDescVal| d.identifier),
                    ids.len() == methods@.len(),
                    build_methods_spec(mv) == Ok::<Seq<MethodDescVal>, GenErrVal>(dsv),
                    forall|t: int| 0 <= t < ids.len() ==> ids[t] == #[trigger] methods@[
                        t
                    ].identifier@,
                    first_collision_spec(ids.take(j as int)) is None,
                    forall|t: int| 0 <= t < k ==> ids[t] != ids[j as int],
                decreases j - k,
            {
                if methods[k].identifier == methods[j].identifier {
                    proof {
                        assert(ids.take(j + 1).drop_last() =~= ids.take(j as int));
                        assert(ids.take(j + 1).last() == ids[j as int]);
                        assert(0 <= k < ids.take(j + 1).len() - 1 && ids.take(j + 1)[k as int]
                            == ids.take(j + 1).last());
                        assert(first_collision_spec(ids.take(j + 1)) == Some(ids[j as int]));
                        lemma_collision_persists(ids, j + 1);
                        assert(ids.take(ids.len() as int) =~= ids);
                        assert(first_collision_spec(ids) == Some(ids[j as int]));
                    }
                    return Err(
                        GenerationError::IdentifierCollision {
                            identifier: methods[j].identifier.clone(),
                        },
                    );
                }
                k = k + 1;
            }
            proof {
                assert(ids.take(j + 1).drop_last() =~= ids.take(j as int));
                assert(ids.take(j + 1).last() == ids[j as int]);
                assert forall|t: int| 0 <= t < j implies #[trigger] ids.take(j + 1)[t] != ids.take(
                    j + 1,
                ).last() by {
                    assert(ids.take(j + 1)[t] == ids[t]);
                }
                assert(first_collision_spec(ids.take(j + 1)) is None);
            }
            j = j + 1;
        }
        proof {
            assert(ids.take(methods@.len() as int) =~= ids);
        }
    }
    proof {
        assert(first_collision_spec(ids) is None);
    }
    Ok(
        ServiceDescriptor {
            name: def.name.clone(),
            package: def.package.clone(),
            identifier: def.name.clone(),
            methods,
        },
    )
}

/// The wire path of one method: `<package>.<ServiceIdentifier>/<MethodIdentifier>`.
pub open spec fn path_of(package: Seq<char>, service_ident: Seq<char>, method_ident: Seq<char>) -> Seq<char> {
    package + "."@ + service_ident + "/"@ + method_ident
}

/// Build a method's wire path.
pub fn method_path(package: &String, service_ident: &String, method_ident: &String) -> (r: String)
    ensures
        r@ == path_of(package@, service_ident@, method_ident@),
{
    let mut s = String::new();
    s.append(package.as_str());
    s.append(".");
    s.append(service_ident.as_str());
    s.append("/");
    s.append(method_ident.as_str());
    proof {
        assert(s@ =~= path_of(package@, service_ident@, method_ident@));
    }
    s
}

/// Distinct method identifiers give distinct wire paths under one package
/// and service.
pub proof fn lemma_path_injective(
    package: Seq<char>,
    service_ident: Seq<char>,
    m1: Seq<char>,
    m2: Seq<char>,
)
    requires
        path_of(package, service_ident, m1) == path_of(package, service_ident, m2),
    ensures
        m1 == m2,
{
    let a = package + "."@ + service_ident + "/"@;
    assert(path_of(package, service_ident, m1) =~= a + m1);
    assert(path_of(package, service_ident, m2) =~= a + m2);
    assert(m1.len() == m2.len());
    assert forall|i: int| 0 <= i < m1.len() implies m1[i] == m2[i] by {
        assert((a + m1)[a.len() + i] == m1[i]);
        assert((a + m2)[a.len() + i] == m2[i]);
    }
    assert(m1 =~= m2);
}

/// One emitted client operation: the method it calls, the wire path it is
/// sent under, and its call shape.
pub struct ClientOp {
    pub method: String,
    pub path: String,
    pub shape: CallShape,
}

/// Model of a `ClientOp`.
pub struct ClientOpVal {
    pub method: Seq<char>,
    pub path: Seq<char>,
    pub shape: CallShape,
}

impl View for ClientOp {
    type V = ClientOpVal;

    open spec fn view(&self) -> ClientOpVal {
        ClientOpVal { method: self.method@, path: self.path@, shape: self.shape }
    }
}

/// The complete output of generation for one service: the immutable
/// descriptor, the bound codec, the server's routing table, and one client
/// operation per method.
pub struct ServiceBindings {
    pub descriptor: ServiceDescriptor,
    pub codec: CodecKind,
    pub routes: RoutingTable,
    pub client_ops: Vec<ClientOp>,
}

impl ServiceBindings {
    /// Every method stands at its own index in the routing table and in the
    /// client operation list, under its wire path and call shape, and
    /// looking its path up finds exactly that method.
    pub open spec fn wf(self) -> bool {
        let d = self.descriptor@;
        &&& self.routes@.len() == d.methods.len()
        &&& self.client_ops@.len() == d.methods.len()
        &&& forall|i: int|
            0 <= i < d.methods.len() ==> {
                let p = path_of(d.package, d.identifier, d.methods[i].identifier);
                &&& (#[trigger] self.routes@[i]) == (RouteVal {
                    path: p,
                    method_index: i,
                    shape: shape_spec(d.methods[i].client_streaming, d.methods[i].server_streaming),
                })
                &&& self.client_ops@[i]@ == (ClientOpVal {
                    method: d.methods[i].name,
                    path: p,
                    shape: shape_spec(d.methods[i].client_streaming, d.methods[i].server_streaming),
                })
                &&& lookup_spec(self.routes@, p) == Some(i)
            }
    }
}

/// Emit the bindings of a service under the selected codec strategy: the
/// descriptor, a routing-table entry per method and a client operation per
/// method, or the generation failure owed for the definition.
pub fn make_rpc(def: &ServiceDef, kind: CodecKind) -> (r: Result<ServiceBindings, GenerationError>)
    ensures
        match r {
            Ok(b) => make_service_spec(def@) matches Ok(d) && b.descriptor@ == d && b.codec == kind
                && b.wf(),
            Err(e) => make_service_spec(def@) == Err::<ServiceDescVal, GenErrVal>(e@),
        },
{
    let sd = match make_service(def) {
        Ok(sd) => sd,
        Err(e) => {
            return Err(e);
        }
    };
    let ghost d = sd@;
    let mut entries: Vec<RouteEntry> = Vec::new();
    let mut client_ops: Vec<ClientOp> = Vec::new();
    let mut i: usize = 0;
    while i < sd.methods.len()
        invariant
            i <= sd.methods.len(),
            d == sd@,
            d.methods.len() == sd.methods@.len(),
            entries@.len() == i,
            client_ops@.len() == i,
            forall|k: int|
                0 <= k < i ==> ((#[trigger] entries@[k])@ == (RouteVal {
                    path: path_of(d.package, d.identifier, d.methods[k].identifier),
                    method_index: k,
                    shape: shape_spec(d.methods[k].client_streaming, d.methods[k].server_streaming),
                }) && client_ops@[k]@ == (ClientOpVal {
                    method: d.methods[k].name,
                    path: path_of(d.package, d.identifier, d.methods[k].identifier),
                    shape: shape_spec(d.methods[k].client_streaming, d.methods[k].server_streaming),
                })),
        decreases sd.methods.len() - i,
    {
        let m = &sd.methods[i];
        let path = method_path(&sd.package, &sd.identifier, &m.identifier);
        let shape = call_shape(m.client_streaming, m.server_streaming);
        entries.push(RouteEntry { path: path.clone(), method_index: i, shape });
        client_ops.push(ClientOp { method: m.name.clone(), path, shape });
        i = i + 1;
    }
    let b = ServiceBindings {
        descriptor: sd,
        codec: kind,
        routes: RoutingTable { entries },
        client_ops,
    };
    proof {
        let ds = build_methods_spec(def@.methods)->Ok_0;
        let ids = ds.map(|k: int, m: MethodDescVal| m.identifier);
        lemma_no_collision_distinct(ids);
        assert(b.routes@.len() == d.methods.len());
        assert forall|k: int| 0 <= k < d.methods.len() implies #[trigger] lookup_spec(
            b.routes@,
            path_of(d.package, d.identifier, d.methods[k].identifier),
        ) == Some(k) by {
            let p = path_of(d.package, d.identifier, d.methods[k].identifier);
            assert forall|t: int| 0 <= t < k implies b.routes@[t].path != p by {
                assert(ids[t] == d.methods[t].identifier);
                assert(ids[k] == d.methods[k].identifier);
                if b.routes@[t].path == p {
                    lemma_path_injective(
                        d.package,
                        d.identifier,
                        d.methods[t].identifier,
                        d.methods[k].identifier,
                    );
                }
            }
            assert(b.routes@[k].path == p);
            lemma_lookup_finds(b.routes@, p, k);
        }
    }
    Ok(b)
}

/// The strategy that a codec tag selects, or the failure owed for it: an
/// empty tag means none was given, any other unknown tag is named in the
/// failure.
pub open spec fn codec_of_tag(tag: Seq<char>) -> Result<CodecKind, GenErrVal> {
    if tag == "json"@ {
        Ok(CodecKind::Json)
    } else if tag == "bincode"@ {
        Ok(CodecKind::Bincode)
    } else if tag == "cbor"@ {
        Ok(CodecKind::Cbor)
    } else if tag == "messagepack"@ {
        Ok(CodecKind::MessagePack)
    } else if tag.len() == 0 {
        Err(GenErrVal::MissingCodec)
    } else {
        Err(GenErrVal::UnknownCodec { tag })
    }
}

/// Select the wire-format strategy named by a codec tag.
pub fn parse_codec_tag(tag: &String) -> (r: Result<CodecKind, GenerationError>)
    ensures
        match r {
            Ok(k) => codec_of_tag(tag@) == Ok::<CodecKind, GenErrVal>(k),
            Err(e) => codec_of_tag(tag@) == Err::<CodecKind, GenErrVal>(e@),
        },
{
    if *tag == "json".to_owned() {
        Ok(CodecKind::Json)
    } else if *tag == "bincode".to_owned() {
        Ok(CodecKind::Bincode)
    } else if *tag == "cbor".to_owned() {
        Ok(CodecKind::Cbor)
    } else if *tag == "messagepack".to_owned() {
        Ok(CodecKind::MessagePack)
    } else if tag.as_str().is_empty() {
        Err(GenerationError::MissingCodec)
    } else {
        Err(GenerationError::UnknownCodec { tag: tag.clone() })
    }
}

/// Turn an interface definition into service bindings, under the strategy
/// that the codec tag selects.
pub fn tonic_rpc(tag: &String, def: &ServiceDef) -> (r: Result<ServiceBindings, GenerationError>)
    ensures
        codec_of_tag(tag@) matches Err(e) ==> (r matches Err(e2) && e2@ == e),
        codec_of_tag(tag@) matches Ok(kind) ==> match r {
            Ok(b) => make_service_spec(def@) matches Ok(d) && b.descriptor@ == d && b.codec == kind
                && b.wf(),
            Err(e) => make_service_spec(def@) == Err::<ServiceDescVal, GenErrVal>(e@),
        },
{
    match parse_codec_tag(tag) {
        Err(e) => Err(e),
        Ok(kind) => make_rpc(def, kind),
    }
}

/// One generated client operation, exercised against an in-process
/// dispatcher: encode the request under the bound codec, route it by the
/// method's wire path, and decode the single reply frame. The result is
/// exactly the application's transition on the request; an
/// application-reported failure is propagated as a status outcome.
pub fn call_unary<H: UnaryHandler>(
    b: &ServiceBindings,
    method_index: usize,
    request: &WireValue,
    server: &mut H,
) -> (r: Result<WireValue, StatusOutcome>)
    requires
        b.wf(),
        method_index < b.descriptor@.methods.len(),
    ensures
        *final(server) == old(server).handle_spec(method_index as int, request@).0,
        match old(server).handle_spec(method_index as int, request@).1 {
            Ok(w) => r matches Ok(x) && x@ == w,
            Err(m) => r matches Err(s) && s@ == StatusVal::AppError(m),
        },
{
    let payload = match encode(b.codec, request) {
        Ok(bytes) => bytes,
        Err(_) => vstd::pervasive::unreached(),
    };
    let path = &b.client_ops[method_index].path;
    let outcome = dispatch_unary(&b.routes, b.codec, path, &payload, server);
    proof {
        let d = b.descriptor@;
        let p = path_of(d.package, d.identifier, d.methods[method_index as int].identifier);
        assert(path@ == p);
        assert(lookup_spec(b.routes@, p) == Some(method_index as int));
        assert(b.routes@[method_index as int].method_index == method_index as int);
        assert(outcome@ == unary_outcome(
            b.codec,
            old(server).handle_spec(method_index as int, request@).1,
        ));
    }
    match outcome {
        StatusOutcome::Reply(bytes) => match decode(b.codec, &bytes) {
            Ok(w) => Ok(w),
            Err(_) => vstd::pervasive::unreached(),
        },
        other => Err(other),
    }
}

} // verus!
