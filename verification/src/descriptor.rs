//! The interface-definition model and the service descriptors derived from
//! it.
//!
//! An interface definition is a named service with an ordered method list;
//! each method has a name, an ordered list of named, typed parameters, an
//! optional return type, and zero or more annotations. Generation turns a
//! definition into an immutable `ServiceDescriptor`, deriving each method's
//! request and response shape by a fixed rule: zero parameters give the unit
//! shape, exactly one parameter gives that parameter's type unwrapped, and
//! two or more give an ordered tuple preserving declaration order; a missing
//! return type gives the unit response shape.

use vstd::prelude::*;
use vstd::string::StringExecFns;

verus! {

/// One declared parameter of a method: its name, the text of its type, and
/// whether it is a receiver-shaped binding, which is not a valid argument.
pub struct ParamDef {
    pub name: String,
    pub ty: String,
    pub receiver: bool,
}

/// Model of a `ParamDef`.
pub struct ParamVal {
    pub name: Seq<char>,
    pub ty: Seq<char>,
    pub receiver: bool,
}

impl View for ParamDef {
    type V = ParamVal;

    open spec fn view(&self) -> ParamVal {
        ParamVal { name: self.name@, ty: self.ty@, receiver: self.receiver }
    }
}

/// One annotation on a method: its name and, for documentation annotations,
/// the documentation text.
pub struct AnnotationDef {
    pub name: String,
    pub text: String,
}

/// Model of an `AnnotationDef`.
pub struct AnnotationVal {
    pub name: Seq<char>,
    pub text: Seq<char>,
}

impl View for AnnotationDef {
    type V = AnnotationVal;

    open spec fn view(&self) -> AnnotationVal {
        AnnotationVal { name: self.name@, text: self.text@ }
    }
}

/// One method of an interface definition.
pub struct MethodDef {
    pub name: String,
    pub annotations: Vec<AnnotationDef>,
    pub params: Vec<ParamDef>,
    pub ret: Option<String>,
}

/// Model of a `MethodDef`.
pub struct MethodVal {
    pub name: Seq<char>,
    pub annotations: Seq<AnnotationVal>,
    pub params: Seq<ParamVal>,
    pub ret: Option<Seq<char>>,
}

pub open spec fn opt_str_view(o: Option<String>) -> Option<Seq<char>> {
    match o {
        Some(s) => Some(s@),
        None => None,
    }
}

impl View for MethodDef {
    type V = MethodVal;

    open spec fn view(&self) -> MethodVal {
        MethodVal {
            name: self.name@,
            annotations: self.annotations@.map(|i: int, a: AnnotationDef| a@),
            params: self.params@.map(|i: int, p: ParamDef| p@),
            ret: opt_str_view(self.ret),
        }
    }
}

/// An interface definition: a named service with an ordered method list.
pub struct ServiceDef {
    pub name: String,
    pub package: String,
    pub methods: Vec<MethodDef>,
}

/// Model of a `ServiceDef`.
pub struct ServiceVal {
    pub name: Seq<char>,
    pub package: Seq<char>,
    pub methods: Seq<MethodVal>,
}

impl View for ServiceDef {
    type V = ServiceVal;

    open spec fn view(&self) -> ServiceVal {
        ServiceVal {
            name: self.name@,
            package: self.package@,
            methods: self.methods@.map(|i: int, m: MethodDef| m@),
        }
    }
}

/// The derived shape of a request or response payload.
#[derive(Debug, Clone, PartialEq, Eq)]
pub enum TypeDescriptor {
    Unit,
    Named(String),
    Tuple(Vec<String>),
}

/// Model of a `TypeDescriptor`.
pub enum TypeDescVal {
    Unit,
    Named(Seq<char>),
    Tuple(Seq<Seq<char>>),
}

impl View for TypeDescriptor {
    type V = TypeDescVal;

    open spec fn view(&self) -> TypeDescVal {
        match self {
            TypeDescriptor::Unit => TypeDescVal::Unit,
            TypeDescriptor::Named(t) => TypeDescVal::Named(t@),
            TypeDescriptor::Tuple(ts) => TypeDescVal::Tuple(ts@.map(|i: int, t: String| t@)),
        }
    }
}

/// The request-shape derivation rule: zero parameter types give the unit
/// shape, one gives that type unwrapped, more give the ordered tuple.
pub open spec fn request_shape_spec(tys: Seq<Seq<char>>) -> TypeDescVal {
    if tys.len() == 0 {
        TypeDescVal::Unit
    } else if tys.len() == 1 {
        TypeDescVal::Named(tys[0])
    } else {
        TypeDescVal::Tuple(tys)
    }
}

/// The response-shape derivation rule: no declared return type gives the
/// unit shape, a declared one gives that type unwrapped.
pub open spec fn response_shape_spec(ret: Option<Seq<char>>) -> TypeDescVal {
    match ret {
        None => TypeDescVal::Unit,
        Some(t) => TypeDescVal::Named(t),
    }
}

/// The parameter types of a method, in declaration order.
pub open spec fn param_types(params: Seq<ParamVal>) -> Seq<Seq<char>> {
    params.map(|i: int, p: ParamVal| p.ty)
}

/// Derive the request shape of a parameter list.
pub fn request_shape(params: &Vec<ParamDef>) -> (r: TypeDescriptor)
    ensures
        r@ == request_shape_spec(param_types(params@.map(|i: int, p: ParamDef| p@))),
{
    let ghost tys = param_types(params@.map(|i: int, p: ParamDef| p@));
    if params.len() == 0 {
        proof {
            assert(tys.len() == 0);
        }
        TypeDescriptor::Unit
    } else if params.len() == 1 {
        TypeDescriptor::Named(params[0].ty.clone())
    } else {
        let mut out: Vec<String> = Vec::new();
        let mut i: usize = 0;
        while i < params.len()
            invariant
                i <= params.len(),
                out@.len() == i,
                forall|k: int| 0 <= k < i ==> #[trigger] out@[k]@ == params@[k]@.ty,
            decreases params.len() - i,
        {
            out.push(params[i].ty.clone());
            i = i + 1;
        }
        let r = TypeDescriptor::Tuple(out);
        proof {
            assert(r@->Tuple_0 =~= tys);
        }
        r
    }
}

/// Derive the response shape of an optional return type.
pub fn response_shape(ret: &Option<String>) -> (r: TypeDescriptor)
    ensures
        r@ == response_shape_spec(opt_str_view(*ret)),
{
    match ret {
        None => TypeDescriptor::Unit,
        Some(t) => TypeDescriptor::Named(t.clone()),
    }
}

/// A method descriptor: the immutable result of generation for one method.
#[derive(Debug, Clone)]
pub struct MethodDescriptor {
    pub name: String,
    pub identifier: String,
    pub request: TypeDescriptor,
    pub response: TypeDescriptor,
    pub client_streaming: bool,
    pub server_streaming: bool,
    pub comments: Vec<String>,
}

/// Model of a `MethodDescriptor`.
pub struct MethodDescVal {
    pub name: Seq<char>,
    pub identifier: Seq<char>,
    pub request: TypeDescVal,
    pub response: TypeDescVal,
    pub client_streaming: bool,
    pub server_streaming: bool,
    pub comments: Seq<Seq<char>>,
}

impl View for MethodDescriptor {
    type V = MethodDescVal;

    open spec fn view(&self) -> MethodDescVal {
        MethodDescVal {
            name: self.name@,
            identifier: self.identifier@,
            request: self.request@,
            response: self.response@,
            client_streaming: self.client_streaming,
            server_streaming: self.server_streaming,
            comments: self.comments@.map(|i: int, c: String| c@),
        }
    }
}

/// A service descriptor: the immutable result of generation for one service.
#[derive(Debug, Clone)]
pub struct ServiceDescriptor {
    pub name: String,
    pub package: String,
    pub identifier: String,
    pub methods: Vec<MethodDescriptor>,
}

/// Model of a `ServiceDescriptor`.
pub struct ServiceDescVal {
    pub name: Seq<char>,
    pub package: Seq<char>,
    pub identifier: Seq<char>,
    pub methods: Seq<MethodDescVal>,
}

impl View for ServiceDescriptor {
    type V = ServiceDescVal;

    open spec fn view(&self) -> ServiceDescVal {
        ServiceDescVal {
            name: self.name@,
            package: self.package@,
            identifier: self.identifier@,
            methods: self.methods@.map(|i: int, m: MethodDescriptor| m@),
        }
    }
}

/// A failure of the generation step. Generation either produces a complete
/// descriptor set or one of these; there are no partial bindings.
#[derive(Debug, Clone, PartialEq, Eq)]
pub enum GenerationError {
    /// A method carries an annotation outside the supported set.
    UnsupportedAnnotation { method: String, annotation: String },
    /// A method has a receiver-shaped parameter.
    InvalidReceiver { method: String },
    /// Two method names collide after identifier normalization.
    IdentifierCollision { identifier: String },
    /// No codec selector was given.
    MissingCodec,
    /// The codec selector names no supported strategy.
    UnknownCodec { tag: String },
}

/// Model of a `GenerationError`.
pub enum GenErrVal {
    UnsupportedAnnotation { method: Seq<char>, annotation: Seq<char> },
    InvalidReceiver { method: Seq<char> },
    IdentifierCollision { identifier: Seq<char> },
    MissingCodec,
    UnknownCodec { tag: Seq<char> },
}

impl View for GenerationError {
    type V = GenErrVal;

    open spec fn view(&self) -> GenErrVal {
        match self {
            GenerationError::UnsupportedAnnotation { method, annotation } => {
                GenErrVal::UnsupportedAnnotation { method: method@, annotation: annotation@ }
            }
            GenerationError::InvalidReceiver { method } => {
                GenErrVal::InvalidReceiver { method: method@ }
            }
            GenerationError::IdentifierCollision { identifier } => {
                GenErrVal::IdentifierCollision { identifier: identifier@ }
            }
            GenerationError::MissingCodec => GenErrVal::MissingCodec,
            GenerationError::UnknownCodec { tag } => GenErrVal::UnknownCodec { tag: tag@ },
        }
    }
}

impl GenerationError {
    /// A descriptive message naming the offending method or annotation.
    pub fn message(&self) -> (r: String)
        ensures
            self matches GenerationError::UnsupportedAnnotation { method, annotation } ==> r@
                == "annotation "@ + annotation@ + " is not supported on method "@ + method@,
            self matches GenerationError::InvalidReceiver { method } ==> r@
                == "invalid argument: receiver bindings are not allowed on method "@ + method@,
            self matches GenerationError::IdentifierCollision { identifier } ==> r@
                == "method identifier collides after normalization: "@ + identifier@,
            self is MissingCodec ==> r@ == "no codec given"@,
            self matches GenerationError::UnknownCodec { tag } ==> r@ == "unrecognized codec "@
                + tag@,
    {
        match self {
            GenerationError::UnsupportedAnnotation { method, annotation } => {
                let mut m = "annotation ".to_owned();
                m.append(annotation.as_str());
                m.append(" is not supported on method ");
                m.append(method.as_str());
                m
            }
            GenerationError::InvalidReceiver { method } => {
                let mut m = "invalid argument: receiver bindings are not allowed on method "
                    .to_owned();
                m.append(method.as_str());
                m
            }
            GenerationError::IdentifierCollision { identifier } => {
                let mut m = "method identifier collides after normalization: ".to_owned();
                m.append(identifier.as_str());
                m
            }
            GenerationError::MissingCodec => "no codec given".to_owned(),
            GenerationError::UnknownCodec { tag } => {
                let mut m = "unrecognized codec ".to_owned();
                m.append(tag.as_str());
                m
            }
        }
    }
}

} // verus!
