//! A codec fixed to the self-describing text format, for bindings that do not
//! select a strategy at generation time.

use vstd::prelude::*;

use crate::codec::{encode, decode, encoded_bytes, CodecError, CodecKind, WireVal, WireValue};

verus! {

/// An encoder for the text format.
#[derive(Clone, Copy)]
pub struct Encoder;

impl Encoder {
    pub fn encode(&self, item: &WireValue) -> (r: Result<Vec<u8>, CodecError>)
        ensures
            r is Ok,
            r matches Ok(b) ==> b@ == encoded_bytes(CodecKind::Json, item@),
    {
        encode(CodecKind::Json, item)
    }
}

/// A decoder for the text format.
#[derive(Clone, Copy)]
pub struct Decoder;

impl Decoder {
    pub fn decode(&self, src: &Vec<u8>) -> (r: Result<Option<WireValue>, CodecError>)
        ensures
            forall|v: WireVal| src@ == encoded_bytes(CodecKind::Json, v) ==> r is Ok
                && r->Ok_0 is Some && r->Ok_0->0@ == v,
    {
        match decode(CodecKind::Json, src) {
            Ok(w) => Ok(Some(w)),
            Err(e) => Err(e),
        }
    }
}

/// An encoder/decoder pair for the text format.
#[derive(Clone, Copy)]
pub struct Codec;

impl Default for Codec {
    fn default() -> (r: Codec) {
        Codec
    }
}

impl Codec {
    pub fn encoder(&self) -> (r: Encoder) {
        Encoder
    }

    pub fn decoder(&self) -> (r: Decoder) {
        Decoder
    }
}

} // verus!
