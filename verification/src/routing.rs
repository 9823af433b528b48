//! Path-keyed dispatch: the routing table built once at server construction,
//! the lookup over it, and the unary dispatcher that decodes an inbound
//! payload, invokes the application's implementation and encodes the reply,
//! translating codec failures and application failures into protocol-level
//! status outcomes. A path absent from the table yields a distinguished
//! "unimplemented" outcome; neither the table nor the process is disturbed.

use vstd::prelude::*;

use crate::calls::CallShape;
use crate::codec::{decode, CodecKind, WireVal, WireValue, encoded_bytes};

verus! {

/// One routing entry: a wire path mapped to a handler reference (the index
/// of the method it serves) and the method's call shape. Entries are built
/// once and never mutated afterwards.
pub struct RouteEntry {
    pub path: String,
    pub method_index: usize,
    pub shape: CallShape,
}

/// Model of a `RouteEntry`.
pub struct RouteVal {
    pub path: Seq<char>,
    pub method_index: int,
    pub shape: CallShape,
}

impl View for RouteEntry {
    type V = RouteVal;

    open spec fn view(&self) -> RouteVal {
        RouteVal { path: self.path@, method_index: self.method_index as int, shape: self.shape }
    }
}

/// The routing table of one running server: read-only after construction,
/// entries are only ever looked up.
pub struct RoutingTable {
    pub entries: Vec<RouteEntry>,
}

impl View for RoutingTable {
    type V = Seq<RouteVal>;

    open spec fn view(&self) -> Seq<RouteVal> {
        self.entries@.map(|i: int, e: RouteEntry| e@)
    }
}

/// The index of the first entry carrying the given path, if any.
pub open spec fn lookup_spec(entries: Seq<RouteVal>, path: Seq<char>) -> Option<int>
    decreases entries.len(),
{
    if entries.len() == 0 {
        None
    } else if entries[0].path == path {
        Some(0int)
    } else {
        match lookup_spec(entries.drop_first(), path) {
            Some(i) => Some(i + 1),
            None => None,
        }
    }
}

/// A prefix free of the path shifts the first match past itself.
pub proof fn lemma_lookup_skip(entries: Seq<RouteVal>, path: Seq<char>, i: int)
    requires
        0 <= i <= entries.len(),
        forall|k: int| 0 <= k < i ==> entries[k].path != path,
    ensures
        lookup_spec(entries, path) == match lookup_spec(entries.skip(i), path) {
            Some(j) => Some(i + j),
            None => None::<int>,
        },
    decreases i,
{
    if i == 0 {
        assert(entries.skip(0) =~= entries);
    } else {
        assert(entries.len() > 0);
        assert(entries[0].path != path);
        lemma_lookup_skip(entries.drop_first(), path, i - 1);
        assert(entries.drop_first().skip(i - 1) =~= entries.skip(i));
    }
}

/// Where the first match of a known occurrence stands.
pub proof fn lemma_lookup_finds(entries: Seq<RouteVal>, path: Seq<char>, i: int)
    requires
        0 <= i < entries.len(),
        entries[i].path == path,
        forall|k: int| 0 <= k < i ==> entries[k].path != path,
    ensures
        lookup_spec(entries, path) == Some(i),
{
    lemma_lookup_skip(entries, path, i);
    assert(entries.skip(i)[0] == entries[i]);
}

/// A path that no entry carries is never found.
pub proof fn lemma_lookup_absent(entries: Seq<RouteVal>, path: Seq<char>)
    requires
        forall|k: int| 0 <= k < entries.len() ==> entries[k].path != path,
    ensures
        lookup_spec(entries, path) is None,
{
    lemma_lookup_skip(entries, path, entries.len() as int);
    assert(entries.skip(entries.len() as int) =~= Seq::<RouteVal>::empty());
}

/// Look a path up in the routing table: the first entry carrying it wins.
pub fn lookup(table: &RoutingTable, path: &String) -> (r: Option<usize>)
    ensures
        match r {
            Some(i) => 0 <= i < table@.len() && lookup_spec(table@, path@) == Some(i as int),
            None => lookup_spec(table@, path@) is None,
        },
{
    let mut i: usize = 0;
    while i < table.entries.len()
        invariant
            0 <= i <= table.entries.len(),
            table@.len() == table.entries@.len(),
            forall|k: int| 0 <= k < i ==> #[trigger] table@[k].path != path@,
        decreases table.entries.len() - i,
    {
        if table.entries[i].path == *path {
            proof {
                lemma_lookup_finds(table@, path@, i as int);
            }
            return Some(i);
        }
        i = i + 1;
    }
    proof {
        lemma_lookup_absent(table@, path@);
    }
    None
}

/// The protocol-level outcome of serving one inbound call: a successful
/// reply payload, an application-reported failure propagated unchanged, an
/// internal failure carrying a codec diagnostic, or the distinguished
/// "unimplemented" outcome for a path absent from the table.
#[derive(Debug, Clone, PartialEq, Eq)]
pub enum StatusOutcome {
    Reply(Vec<u8>),
    AppError(String),
    Internal(String),
    Unimplemented,
}

/// Model of a `StatusOutcome`.
pub enum StatusVal {
    Reply(Seq<u8>),
    AppError(Seq<char>),
    Internal(Seq<char>),
    Unimplemented,
}

impl View for StatusOutcome {
    type V = StatusVal;

    open spec fn view(&self) -> StatusVal {
        match self {
            StatusOutcome::Reply(b) => StatusVal::Reply(b@),
            StatusOutcome::AppError(m) => StatusVal::AppError(m@),
            StatusOutcome::Internal(m) => StatusVal::Internal(m@),
            StatusOutcome::Unimplemented => StatusVal::Unimplemented,
        }
    }
}

impl StatusOutcome {
    /// The transport-level status code of this outcome: 0 for a reply, 2
    /// (unknown) for an application failure, 13 (internal) for a codec
    /// failure, 12 for an unimplemented path.
    pub fn grpc_code(&self) -> (r: u32)
        ensures
            self is Reply ==> r == 0,
            self is AppError ==> r == 2,
            self is Internal ==> r == 13,
            self is Unimplemented ==> r == 12,
    {
        match self {
            StatusOutcome::Reply(_) => 0,
            StatusOutcome::AppError(_) => 2,
            StatusOutcome::Internal(_) => 13,
            StatusOutcome::Unimplemented => 12,
        }
    }
}

/// Model of a handler result.
pub open spec fn result_view(r: Result<WireValue, String>) -> Result<WireVal, Seq<char>> {
    match r {
        Ok(w) => Ok(w@),
        Err(m) => Err(m@),
    }
}

/// The server contract for unary methods: the application implements one
/// transition from state and request to next state and reply (or reported
/// failure), and serves it through `call`.
pub trait UnaryHandler: Sized {
    /// The application's transition, as a mathematical function.
    spec fn handle_spec(self, method: int, request: WireVal) -> (Self, Result<WireVal, Seq<char>>);

    /// Serve one decoded request of the method at the given index.
    fn call(&mut self, method_index: usize, request: &WireValue) -> (r: Result<WireValue, String>)
        ensures
            *final(self) == old(self).handle_spec(method_index as int, request@).0,
            result_view(r) == old(self).handle_spec(method_index as int, request@).1,
    ;
}

/// The outcome owed for a handler result: the reply encoded under the bound
/// codec, or the application failure propagated unchanged.
pub open spec fn unary_outcome(kind: CodecKind, res: Result<WireVal, Seq<char>>) -> StatusVal {
    match res {
        Ok(w) => StatusVal::Reply(encoded_bytes(kind, w)),
        Err(m) => StatusVal::AppError(m),
    }
}

/// Encode a handler result under the bound codec, or propagate the reported
/// application failure.
pub fn finish_unary(kind: CodecKind, res: Result<WireValue, String>) -> (r: StatusOutcome)
    ensures
        r@ == unary_outcome(kind, result_view(res)),
{
    match res {
        Ok(w) => match crate::codec::encode(kind, &w) {
            Ok(b) => StatusOutcome::Reply(b),
            Err(e) => StatusOutcome::Internal(e.diagnostic().clone()),
        },
        Err(m) => StatusOutcome::AppError(m),
    }
}

/// Serve one inbound unary call: look the path up, decode the payload with
/// the bound codec, invoke the application's implementation, encode the
/// reply with the same codec, and translate every failure into a status
/// outcome. An unregistered path yields the "unimplemented" outcome and
/// touches nothing; a payload that is the encoding of a request value is
/// owed the outcome of the application's transition on that value.
pub fn dispatch_unary<H: UnaryHandler>(
    table: &RoutingTable,
    kind: CodecKind,
    path: &String,
    payload: &Vec<u8>,
    handler: &mut H,
) -> (r: StatusOutcome)
    ensures
        lookup_spec(table@, path@) is None ==> r@ is Unimplemented && *final(handler) == *old(
            handler,
        ),
        lookup_spec(table@, path@) matches Some(i) ==> forall|v: WireVal|
            payload@ == encoded_bytes(kind, v) ==> (*final(handler) == old(handler).handle_spec(
                table@[i].method_index,
                v,
            ).0 && r@ == unary_outcome(kind, old(handler).handle_spec(table@[i].method_index, v).1)),
{
    match lookup(table, path) {
        None => StatusOutcome::Unimplemented,
        Some(i) => {
            let entry_index: usize = table.entries[i].method_index;
            match decode(kind, payload) {
                Err(e) => {
                    proof {
                        assert forall|v: WireVal| payload@ != encoded_bytes(kind, v) by {}
                    }
                    StatusOutcome::Internal(e.diagnostic().clone())
                }
                Ok(w) => {
                    let res = handler.call(entry_index, &w);
                    finish_unary(kind, res)
                }
            }
        }
    }
}

} // verus!
