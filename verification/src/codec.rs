//! The wire-format layer: one encode/decode contract satisfied by four
//! interchangeable byte formats (JSON, bincode, CBOR, MessagePack).
//!
//! Values on the wire are drawn from a shared shape space: scalars, the unit
//! value, ordered tuples of scalars, and two-variant-style sums (a variant
//! name with an optional payload). A value is lowered to a fixed tuple of
//! standard types (`WirePlain`) and the serialization library of the selected
//! strategy does the byte work; decoding reverses both steps. The central
//! invariant, stated on `encode` and `decode` and demonstrated by
//! `codec_round_trip`, is that decoding what was encoded returns the original
//! value, under every strategy.

use vstd::prelude::*;

verus! {

/// A scalar wire value: the primitives of the shape space.
#[derive(Debug, Clone, PartialEq, Eq)]
pub enum Scalar {
    Unit,
    Bool(bool),
    Int(i64),
    UInt(u64),
    Text(String),
}

/// A value of the request/response shape space: a scalar, an ordered tuple of
/// scalars, or a sum-type value given by a variant name and optional payload.
#[derive(Debug, Clone, PartialEq, Eq)]
pub enum WireValue {
    Single(Scalar),
    Tuple(Vec<Scalar>),
    Variant(String, Option<Scalar>),
}

/// The mathematical model of a `Scalar`.
pub enum ScalarVal {
    Unit,
    Bool(bool),
    Int(i64),
    UInt(u64),
    Text(Seq<char>),
}

/// The mathematical model of a `WireValue`.
pub enum WireVal {
    Single(ScalarVal),
    Tuple(Seq<ScalarVal>),
    Variant(Seq<char>, Option<ScalarVal>),
}

impl View for Scalar {
    type V = ScalarVal;

    open spec fn view(&self) -> ScalarVal {
        match self {
            Scalar::Unit => ScalarVal::Unit,
            Scalar::Bool(b) => ScalarVal::Bool(*b),
            Scalar::Int(i) => ScalarVal::Int(*i),
            Scalar::UInt(u) => ScalarVal::UInt(*u),
            Scalar::Text(s) => ScalarVal::Text(s@),
        }
    }
}

impl View for WireValue {
    type V = WireVal;

    open spec fn view(&self) -> WireVal {
        match self {
            WireValue::Single(s) => WireVal::Single(s@),
            WireValue::Tuple(v) => WireVal::Tuple(v@.map(|i: int, s: Scalar| s@)),
            WireValue::Variant(n, p) => WireVal::Variant(
                n@,
                match p {
                    Some(s) => Some(s@),
                    None => None,
                },
            ),
        }
    }
}

/// The fixed standard-library form in which a scalar crosses the byte
/// boundary: a tag selecting the scalar kind, then one slot per kind.
pub type ScalarPlain = (u32, bool, i64, u64, String);

/// The fixed standard-library form in which a value crosses the byte
/// boundary: a tag selecting the shape, a scalar slot, a tuple slot and a
/// variant-name slot.
pub type WirePlain = (u32, ScalarPlain, Vec<ScalarPlain>, String);

/// Model of `ScalarPlain`.
pub type ScalarPlainV = (u32, bool, i64, u64, Seq<char>);

/// Model of `WirePlain`.
pub type WirePlainV = (u32, ScalarPlainV, Seq<ScalarPlainV>, Seq<char>);

pub open spec fn scalar_plain_view(p: ScalarPlain) -> ScalarPlainV {
    (p.0, p.1, p.2, p.3, p.4@)
}

pub open spec fn wire_plain_view(p: WirePlain) -> WirePlainV {
    (p.0, scalar_plain_view(p.1), p.2@.map(|i: int, s: ScalarPlain| scalar_plain_view(s)), p.3@)
}

pub open spec fn unit_plain_v() -> ScalarPlainV {
    (0u32, false, 0i64, 0u64, Seq::<char>::empty())
}

pub open spec fn scalar_to_plain(s: ScalarVal) -> ScalarPlainV {
    match s {
        ScalarVal::Unit => unit_plain_v(),
        ScalarVal::Bool(b) => (1u32, b, 0i64, 0u64, Seq::<char>::empty()),
        ScalarVal::Int(i) => (2u32, false, i, 0u64, Seq::<char>::empty()),
        ScalarVal::UInt(u) => (3u32, false, 0i64, u, Seq::<char>::empty()),
        ScalarVal::Text(t) => (4u32, false, 0i64, 0u64, t),
    }
}

pub open spec fn wire_to_plain(v: WireVal) -> WirePlainV {
    match v {
        WireVal::Single(s) => (0u32, scalar_to_plain(s), Seq::<ScalarPlainV>::empty(), Seq::<char>::empty()),
        WireVal::Tuple(ss) => (
            1u32,
            unit_plain_v(),
            ss.map(|i: int, s: ScalarVal| scalar_to_plain(s)),
            Seq::<char>::empty(),
        ),
        WireVal::Variant(n, None) => (2u32, unit_plain_v(), Seq::<ScalarPlainV>::empty(), n),
        WireVal::Variant(n, Some(s)) => (3u32, scalar_to_plain(s), Seq::<ScalarPlainV>::empty(), n),
    }
}

pub open spec fn plain_to_scalar(p: ScalarPlainV) -> Option<ScalarVal> {
    if p.0 == 0 {
        Some(ScalarVal::Unit)
    } else if p.0 == 1 {
        Some(ScalarVal::Bool(p.1))
    } else if p.0 == 2 {
        Some(ScalarVal::Int(p.2))
    } else if p.0 == 3 {
        Some(ScalarVal::UInt(p.3))
    } else if p.0 == 4 {
        Some(ScalarVal::Text(p.4))
    } else {
        None
    }
}

pub open spec fn plain_to_wire(p: WirePlainV) -> Option<WireVal> {
    if p.0 == 0 {
        match plain_to_scalar(p.1) {
            Some(s) => Some(WireVal::Single(s)),
            None => None,
        }
    } else if p.0 == 1 {
        if forall|i: int| 0 <= i < p.2.len() ==> #[trigger] plain_to_scalar(p.2[i]) is Some {
            Some(WireVal::Tuple(Seq::new(p.2.len(), |i: int| plain_to_scalar(p.2[i])->0)))
        } else {
            None
        }
    } else if p.0 == 2 {
        Some(WireVal::Variant(p.3, None))
    } else if p.0 == 3 {
        match plain_to_scalar(p.1) {
            Some(s) => Some(WireVal::Variant(p.3, Some(s))),
            None => None,
        }
    } else {
        None
    }
}

/// Lowering a scalar to its plain form and lifting it back is the identity.
pub proof fn lemma_scalar_plain_inverse(s: ScalarVal)
    ensures
        plain_to_scalar(scalar_to_plain(s)) == Some(s),
{
}

/// Lowering a value to its plain form and lifting it back is the identity.
pub proof fn lemma_wire_plain_inverse(v: WireVal)
    ensures
        plain_to_wire(wire_to_plain(v)) == Some(v),
{
    match v {
        WireVal::Single(s) => {
            lemma_scalar_plain_inverse(s);
        }
        WireVal::Tuple(ss) => {
            let mapped = ss.map(|i: int, s: ScalarVal| scalar_to_plain(s));
            assert forall|i: int| 0 <= i < mapped.len() implies #[trigger] plain_to_scalar(
                mapped[i],
            ) is Some by {
                lemma_scalar_plain_inverse(ss[i]);
            }
            let lifted = Seq::new(mapped.len(), |i: int| plain_to_scalar(mapped[i])->0);
            assert forall|i: int| 0 <= i < lifted.len() implies lifted[i] == ss[i] by {
                lemma_scalar_plain_inverse(ss[i]);
            }
            assert(lifted =~= ss);
        }
        WireVal::Variant(n, None) => {
        }
        WireVal::Variant(n, Some(s)) => {
            lemma_scalar_plain_inverse(s);
        }
    }
}

fn scalar_to_plain_exec(s: &Scalar) -> (r: ScalarPlain)
    ensures
        scalar_plain_view(r) == scalar_to_plain(s@),
{
    match s {
        Scalar::Unit => (0u32, false, 0i64, 0u64, String::new()),
        Scalar::Bool(b) => (1u32, *b, 0i64, 0u64, String::new()),
        Scalar::Int(i) => (2u32, false, *i, 0u64, String::new()),
        Scalar::UInt(u) => (3u32, false, 0i64, *u, String::new()),
        Scalar::Text(t) => (4u32, false, 0i64, 0u64, t.clone()),
    }
}

fn unit_plain_exec() -> (r: ScalarPlain)
    ensures
        scalar_plain_view(r) == unit_plain_v(),
{
    (0u32, false, 0i64, 0u64, String::new())
}

fn wire_to_plain_exec(v: &WireValue) -> (r: WirePlain)
    ensures
        wire_plain_view(r) == wire_to_plain(v@),
{
    match v {
        WireValue::Single(s) => {
            let r = (0u32, scalar_to_plain_exec(s), Vec::<ScalarPlain>::new(), String::new());
            proof {
                assert(r.2@.map(|i: int, s: ScalarPlain| scalar_plain_view(s)) =~= Seq::<
                    ScalarPlainV,
                >::empty());
            }
            r
        }
        WireValue::Tuple(ss) => {
            let mut out: Vec<ScalarPlain> = Vec::new();
            let mut i: usize = 0;
            while i < ss.len()
                invariant
                    i <= ss.len(),
                    out@.len() == i,
                    forall|k: int|
                        0 <= k < i ==> scalar_plain_view(#[trigger] out@[k]) == scalar_to_plain(
                            ss@[k]@,
                        ),
                decreases ss.len() - i,
            {
                out.push(scalar_to_plain_exec(&ss[i]));
                i = i + 1;
            }
            let r = (1u32, unit_plain_exec(), out, String::new());
            proof {
                assert(r.2@.map(|k: int, s: ScalarPlain| scalar_plain_view(s)) =~= ss@.map(
                    |k: int, s: Scalar| s@,
                ).map(|k: int, sv: ScalarVal| scalar_to_plain(sv)));
            }
            r
        }
        WireValue::Variant(n, None) => {
            let r = (2u32, unit_plain_exec(), Vec::<ScalarPlain>::new(), n.clone());
            proof {
                assert(r.2@.map(|i: int, s: ScalarPlain| scalar_plain_view(s)) =~= Seq::<
                    ScalarPlainV,
                >::empty());
            }
            r
        }
        WireValue::Variant(n, Some(s)) => {
            let r = (3u32, scalar_to_plain_exec(s), Vec::<ScalarPlain>::new(), n.clone());
            proof {
                assert(r.2@.map(|i: int, s: ScalarPlain| scalar_plain_view(s)) =~= Seq::<
                    ScalarPlainV,
                >::empty());
            }
            r
        }
    }
}

pub open spec fn scalar_opt_view(r: Option<Scalar>) -> Option<ScalarVal> {
    match r {
        Some(s) => Some(s@),
        None => None,
    }
}

pub open spec fn wire_opt_view(r: Option<WireValue>) -> Option<WireVal> {
    match r {
        Some(w) => Some(w@),
        None => None,
    }
}

fn plain_to_scalar_exec(p: &ScalarPlain) -> (r: Option<Scalar>)
    ensures
        scalar_opt_view(r) == plain_to_scalar(scalar_plain_view(*p)),
{
    if p.0 == 0 {
        Some(Scalar::Unit)
    } else if p.0 == 1 {
        Some(Scalar::Bool(p.1))
    } else if p.0 == 2 {
        Some(Scalar::Int(p.2))
    } else if p.0 == 3 {
        Some(Scalar::UInt(p.3))
    } else if p.0 == 4 {
        Some(Scalar::Text(p.4.clone()))
    } else {
        None
    }
}

fn plain_to_wire_exec(p: &WirePlain) -> (r: Option<WireValue>)
    ensures
        wire_opt_view(r) == plain_to_wire(wire_plain_view(*p)),
{
    if p.0 == 0 {
        match plain_to_scalar_exec(&p.1) {
            Some(s) => Some(WireValue::Single(s)),
            None => None,
        }
    } else if p.0 == 1 {
        let mut out: Vec<Scalar> = Vec::new();
        let mut i: usize = 0;
        while i < p.2.len()
            invariant
                i <= p.2.len(),
                out@.len() == i,
                p.0 == 1,
                forall|k: int|
                    0 <= k < i ==> #[trigger] plain_to_scalar(wire_plain_view(*p).2[k]) is Some
                        && out@[k]@ == plain_to_scalar(wire_plain_view(*p).2[k])->0,
            decreases p.2.len() - i,
        {
            match plain_to_scalar_exec(&p.2[i]) {
                Some(s) => {
                    out.push(s);
                    i = i + 1;
                }
                None => {
                    assert(plain_to_scalar(wire_plain_view(*p).2[i as int]) is None);
                    assert(plain_to_wire(wire_plain_view(*p)) is None);
                    return None;
                }
            }
        }
        let r = Some(WireValue::Tuple(out));
        proof {
            let pv = wire_plain_view(*p);
            assert(forall|k: int|
                0 <= k < pv.2.len() ==> #[trigger] plain_to_scalar(pv.2[k]) is Some);
            assert(out@.map(|k: int, s: Scalar| s@) =~= Seq::new(
                pv.2.len(),
                |k: int| plain_to_scalar(pv.2[k])->0,
            ));
        }
        r
    } else if p.0 == 2 {
        Some(WireValue::Variant(p.3.clone(), None))
    } else if p.0 == 3 {
        match plain_to_scalar_exec(&p.1) {
            Some(s) => Some(WireValue::Variant(p.3.clone(), Some(s))),
            None => None,
        }
    } else {
        None
    }
}

/// The bytes that serde_json produces for a plain value.
pub uninterp spec fn json_plain_bytes(p: WirePlainV) -> Seq<u8>;

/// The bytes that bincode produces for a plain value.
pub uninterp spec fn bincode_plain_bytes(p: WirePlainV) -> Seq<u8>;

/// The bytes that serde_cbor produces for a plain value.
pub uninterp spec fn cbor_plain_bytes(p: WirePlainV) -> Seq<u8>;

/// The bytes that rmp_serde produces for a plain value.
pub uninterp spec fn msgpack_plain_bytes(p: WirePlainV) -> Seq<u8>;

/// Relies on serde_json::to_vec: the output is a function of the value alone,
/// and serializing a tuple of integers, booleans, strings and vectors of such
/// cannot fail (no map keys, no floating point, writing to a vector).
#[verifier::external_body]
fn json_write_plain(p: &WirePlain) -> (r: Result<Vec<u8>, String>)
    ensures
        r is Ok,
        r matches Ok(b) ==> b@ == json_plain_bytes(wire_plain_view(*p)),
{
    serde_json::to_vec(p).map_err(|e| e.to_string())
}

/// Relies on serde_json::from_slice: parsing exactly the bytes that
/// serde_json::to_vec produced for a value of this plain tuple type yields
/// that value back. On failure the diagnostic text of serde_json is returned.
#[verifier::external_body]
fn json_read_plain(b: &Vec<u8>) -> (r: Result<WirePlain, String>)
    ensures
        forall|p: WirePlainV| b@ == json_plain_bytes(p) ==> r is Ok && wire_plain_view(r->Ok_0)
            == p,
{
    serde_json::from_slice(b.as_slice()).map_err(|e| e.to_string())
}

/// Relies on bincode::serialize (fixed-width integer encoding): the output is
/// a function of the value alone, and serializing this plain tuple type
/// cannot fail (no size limit is configured).
#[verifier::external_body]
fn bincode_write_plain(p: &WirePlain) -> (r: Result<Vec<u8>, String>)
    ensures
        r is Ok,
        r matches Ok(b) ==> b@ == bincode_plain_bytes(wire_plain_view(*p)),
{
    bincode::serialize(p).map_err(|e| e.to_string())
}

/// Relies on bincode::deserialize: parsing exactly the bytes that
/// bincode::serialize produced for a value of this plain tuple type yields
/// that value back. On failure the diagnostic text of bincode is returned.
#[verifier::external_body]
fn bincode_read_plain(b: &Vec<u8>) -> (r: Result<WirePlain, String>)
    ensures
        forall|p: WirePlainV| b@ == bincode_plain_bytes(p) ==> r is Ok && wire_plain_view(r->Ok_0)
            == p,
{
    bincode::deserialize(b.as_slice()).map_err(|e| e.to_string())
}

/// Relies on serde_cbor::to_vec: the output is a function of the value alone,
/// and serializing this plain tuple type cannot fail.
#[verifier::external_body]
fn cbor_write_plain(p: &WirePlain) -> (r: Result<Vec<u8>, String>)
    ensures
        r is Ok,
        r matches Ok(b) ==> b@ == cbor_plain_bytes(wire_plain_view(*p)),
{
    serde_cbor::to_vec(p).map_err(|e| e.to_string())
}

/// Relies on serde_cbor::from_slice: parsing exactly the bytes that
/// serde_cbor::to_vec produced for a value of this plain tuple type yields
/// that value back. On failure the diagnostic text of serde_cbor is returned.
#[verifier::external_body]
fn cbor_read_plain(b: &Vec<u8>) -> (r: Result<WirePlain, String>)
    ensures
        forall|p: WirePlainV| b@ == cbor_plain_bytes(p) ==> r is Ok && wire_plain_view(r->Ok_0)
            == p,
{
    serde_cbor::from_slice(b.as_slice()).map_err(|e| e.to_string())
}

/// Relies on rmp_serde::to_vec (compact representation): the output is a
/// function of the value alone, and serializing this plain tuple type cannot
/// fail (writing to a vector).
#[verifier::external_body]
fn msgpack_write_plain(p: &WirePlain) -> (r: Result<Vec<u8>, String>)
    ensures
        r is Ok,
        r matches Ok(b) ==> b@ == msgpack_plain_bytes(wire_plain_view(*p)),
{
    rmp_serde::to_vec(p).map_err(|e| e.to_string())
}

/// Relies on rmp_serde::from_slice: parsing exactly the bytes that
/// rmp_serde::to_vec produced for a value of this plain tuple type yields
/// that value back. On failure the diagnostic text of rmp_serde is returned.
#[verifier::external_body]
fn msgpack_read_plain(b: &Vec<u8>) -> (r: Result<WirePlain, String>)
    ensures
        forall|p: WirePlainV| b@ == msgpack_plain_bytes(p) ==> r is Ok && wire_plain_view(r->Ok_0)
            == p,
{
    rmp_serde::from_slice(b.as_slice()).map_err(|e| e.to_string())
}

/// The generation-time selector of a wire format: exactly one of four byte
/// formats, fixed per generated service and never renegotiated per call.
#[derive(Clone, Copy, PartialEq, Eq, Structural, Debug)]
pub enum CodecKind {
    Json,
    Bincode,
    Cbor,
    MessagePack,
}

/// An encode or decode failure, carrying the diagnostic text of the
/// underlying format library.
#[derive(Debug, Clone, PartialEq, Eq)]
pub enum CodecError {
    Encode(String),
    Decode(String),
}

impl CodecError {
    /// The diagnostic text carried by this failure.
    pub fn diagnostic(&self) -> (r: &String) {
        match self {
            CodecError::Encode(m) => m,
            CodecError::Decode(m) => m,
        }
    }
}

/// The bytes that the given strategy produces for a plain value.
pub open spec fn plain_bytes(kind: CodecKind, p: WirePlainV) -> Seq<u8> {
    match kind {
        CodecKind::Json => json_plain_bytes(p),
        CodecKind::Bincode => bincode_plain_bytes(p),
        CodecKind::Cbor => cbor_plain_bytes(p),
        CodecKind::MessagePack => msgpack_plain_bytes(p),
    }
}

/// The bytes that the given strategy produces for a wire value.
pub open spec fn encoded_bytes(kind: CodecKind, v: WireVal) -> Seq<u8> {
    plain_bytes(kind, wire_to_plain(v))
}

fn write_plain(kind: CodecKind, p: &WirePlain) -> (r: Result<Vec<u8>, String>)
    ensures
        r is Ok,
        r matches Ok(b) ==> b@ == plain_bytes(kind, wire_plain_view(*p)),
{
    match kind {
        CodecKind::Json => json_write_plain(p),
        CodecKind::Bincode => bincode_write_plain(p),
        CodecKind::Cbor => cbor_write_plain(p),
        CodecKind::MessagePack => msgpack_write_plain(p),
    }
}

fn read_plain(kind: CodecKind, b: &Vec<u8>) -> (r: Result<WirePlain, String>)
    ensures
        forall|p: WirePlainV| b@ == plain_bytes(kind, p) ==> r is Ok && wire_plain_view(r->Ok_0)
            == p,
{
    match kind {
        CodecKind::Json => json_read_plain(b),
        CodecKind::Bincode => bincode_read_plain(b),
        CodecKind::Cbor => cbor_read_plain(b),
        CodecKind::MessagePack => msgpack_read_plain(b),
    }
}

/// Encode a wire value under the selected strategy. Encoding never fails for
/// a value of the shape space; the bytes are exactly the strategy's encoding
/// of the value.
pub fn encode(kind: CodecKind, v: &WireValue) -> (r: Result<Vec<u8>, CodecError>)
    ensures
        r is Ok,
        r matches Ok(b) ==> b@ == encoded_bytes(kind, v@),
{
    let p = wire_to_plain_exec(v);
    match write_plain(kind, &p) {
        Ok(b) => Ok(b),
        Err(m) => Err(CodecError::Encode(m)),
    }
}

/// Decode a byte sequence under the selected strategy. Whenever the bytes are
/// exactly the encoding of some value of the shape space, that value comes
/// back; any failure carries the underlying library's diagnostic text.
pub fn decode(kind: CodecKind, b: &Vec<u8>) -> (r: Result<WireValue, CodecError>)
    ensures
        forall|v: WireVal| b@ == encoded_bytes(kind, v) ==> r is Ok && r->Ok_0@ == v,
{
    match read_plain(kind, b) {
        Ok(p) => {
            match plain_to_wire_exec(&p) {
                Some(w) => {
                    proof {
                        assert forall|v: WireVal| b@ == encoded_bytes(kind, v) implies w@ == v by {
                            assert(b@ == plain_bytes(kind, wire_to_plain(v)));
                            lemma_wire_plain_inverse(v);
                        }
                    }
                    Ok(w)
                }
                None => {
                    proof {
                        assert forall|v: WireVal| b@ != encoded_bytes(kind, v) by {
                            if b@ == encoded_bytes(kind, v) {
                                assert(b@ == plain_bytes(kind, wire_to_plain(v)));
                                lemma_wire_plain_inverse(v);
                            }
                        }
                    }
                    Err(CodecError::Decode("unrecognized wire value shape".to_owned()))
                }
            }
        }
        Err(m) => {
            proof {
                assert forall|v: WireVal| b@ != encoded_bytes(kind, v) by {
                    if b@ == encoded_bytes(kind, v) {
                        assert(b@ == plain_bytes(kind, wire_to_plain(v)));
                    }
                }
            }
            Err(CodecError::Decode(m))
        }
    }
}

/// An encoder bound to one strategy; the outbound half of a codec.
#[derive(Clone, Copy)]
pub struct Encoder {
    pub kind: CodecKind,
}

impl Encoder {
    pub fn encode(&self, item: &WireValue) -> (r: Result<Vec<u8>, CodecError>)
        ensures
            r is Ok,
            r matches Ok(b) ==> b@ == encoded_bytes(self.kind, item@),
    {
        encode(self.kind, item)
    }
}

/// A decoder bound to one strategy; the inbound half of a codec.
#[derive(Clone, Copy)]
pub struct Decoder {
    pub kind: CodecKind,
}

impl Decoder {
    pub fn decode(&self, src: &Vec<u8>) -> (r: Result<Option<WireValue>, CodecError>)
        ensures
            forall|v: WireVal| src@ == encoded_bytes(self.kind, v) ==> r is Ok && r->Ok_0 is Some
                && r->Ok_0->0@ == v,
    {
        match decode(self.kind, src) {
            Ok(w) => Ok(Some(w)),
            Err(e) => Err(e),
        }
    }
}

/// A codec: an encoder/decoder pair bound to one strategy.
#[derive(Clone, Copy)]
pub struct Codec {
    pub kind: CodecKind,
}

impl Codec {
    pub fn new(kind: CodecKind) -> (r: Codec)
        ensures
            r.kind == kind,
    {
        Codec { kind }
    }

    pub fn encoder(&self) -> (r: Encoder)
        ensures
            r.kind == self.kind,
    {
        Encoder { kind: self.kind }
    }

    pub fn decoder(&self) -> (r: Decoder)
        ensures
            r.kind == self.kind,
    {
        Decoder { kind: self.kind }
    }
}

/// The length-delimited, self-describing text strategy.
pub struct JsonSerdeCodec;

impl JsonSerdeCodec {
    pub fn write(item: &WireValue) -> (r: Result<Vec<u8>, CodecError>)
        ensures
            r is Ok,
            r matches Ok(b) ==> b@ == encoded_bytes(CodecKind::Json, item@),
    {
        encode(CodecKind::Json, item)
    }

    pub fn read(b: &Vec<u8>) -> (r: Result<WireValue, CodecError>)
        ensures
            forall|v: WireVal| b@ == encoded_bytes(CodecKind::Json, v) ==> r is Ok && r->Ok_0@
                == v,
    {
        decode(CodecKind::Json, b)
    }
}

/// The compact binary strategy that is not self-describing.
pub struct BincodeSerdeCodec;

impl BincodeSerdeCodec {
    pub fn write(item: &WireValue) -> (r: Result<Vec<u8>, CodecError>)
        ensures
            r is Ok,
            r matches Ok(b) ==> b@ == encoded_bytes(CodecKind::Bincode, item@),
    {
        encode(CodecKind::Bincode, item)
    }

    pub fn read(b: &Vec<u8>) -> (r: Result<WireValue, CodecError>)
        ensures
            forall|v: WireVal| b@ == encoded_bytes(CodecKind::Bincode, v) ==> r is Ok && r->Ok_0@
                == v,
    {
        decode(CodecKind::Bincode, b)
    }
}

/// The self-describing, tag-based compact binary strategy.
pub struct CborSerdeCodec;

impl CborSerdeCodec {
    pub fn write(item: &WireValue) -> (r: Result<Vec<u8>, CodecError>)
        ensures
            r is Ok,
            r matches Ok(b) ==> b@ == encoded_bytes(CodecKind::Cbor, item@),
    {
        encode(CodecKind::Cbor, item)
    }

    pub fn read(b: &Vec<u8>) -> (r: Result<WireValue, CodecError>)
        ensures
            forall|v: WireVal| b@ == encoded_bytes(CodecKind::Cbor, v) ==> r is Ok && r->Ok_0@
                == v,
    {
        decode(CodecKind::Cbor, b)
    }
}

/// The self-describing compact binary strategy optimized for size.
pub struct MessagePackSerdeCodec;

impl MessagePackSerdeCodec {
    pub fn write(item: &WireValue) -> (r: Result<Vec<u8>, CodecError>)
        ensures
            r is Ok,
            r matches Ok(b) ==> b@ == encoded_bytes(CodecKind::MessagePack, item@),
    {
        encode(CodecKind::MessagePack, item)
    }

    pub fn read(b: &Vec<u8>) -> (r: Result<WireValue, CodecError>)
        ensures
            forall|v: WireVal| b@ == encoded_bytes(CodecKind::MessagePack, v) ==> r is Ok
                && r->Ok_0@ == v,
    {
        decode(CodecKind::MessagePack, b)
    }
}

/// Law: for every strategy and every value of the shape space, decoding what
/// was encoded returns the original value.
pub fn codec_round_trip(kind: CodecKind, v: &WireValue) -> (r: WireValue)
    ensures
        r@ == v@,
{
    match encode(kind, v) {
        Ok(b) => match decode(kind, &b) {
            Ok(w) => w,
            Err(_) => vstd::pervasive::unreached(),
        },
        Err(_) => vstd::pervasive::unreached(),
    }
}

} // verus!
