//! Small verified services exercising the generated bindings: an
//! overflow-aware increment, a pair adder, a running counter, the frame
//! sources of the two streaming scenarios, and a subscribe/publish broker.

use vstd::prelude::*;

use crate::codec::{Scalar, ScalarVal, WireVal, WireValue};
use crate::routing::{result_view, UnaryHandler};

verus! {

/// The reply owed for an increment request: one more than the 32-bit
/// argument, or the distinguished overflow variant at the 32-bit maximum.
pub open spec fn increment_spec(request: WireVal) -> Result<WireVal, Seq<char>> {
    match request {
        WireVal::Single(ScalarVal::Int(x)) => {
            if x < i32::MIN as i64 || x > i32::MAX as i64 {
                Err("increment argument out of range"@)
            } else if x == i32::MAX as i64 {
                Ok(WireVal::Variant("Overflow"@, None))
            } else {
                Ok(WireVal::Variant("Incremented"@, Some(ScalarVal::Int((x + 1) as i64))))
            }
        }
        _ => Err("increment expects one signed integer"@),
    }
}

/// Serve one increment request under overflow awareness: incrementing the
/// 32-bit maximum reports the overflow variant rather than wrapping.
pub fn increment(request: &WireValue) -> (r: Result<WireValue, String>)
    ensures
        result_view(r) == increment_spec(request@),
{
    match request {
        WireValue::Single(Scalar::Int(x)) => {
            let x: i64 = *x;
            if x < i32::MIN as i64 || x > i32::MAX as i64 {
                Err("increment argument out of range".to_owned())
            } else if x == i32::MAX as i64 {
                Ok(WireValue::Variant("Overflow".to_owned(), None))
            } else {
                Ok(WireValue::Variant("Incremented".to_owned(), Some(Scalar::Int(x + 1))))
            }
        }
        _ => Err("increment expects one signed integer".to_owned()),
    }
}

/// A stateless service with the single method `increment`.
pub struct IncrementService;

impl UnaryHandler for IncrementService {
    open spec fn handle_spec(self, method: int, request: WireVal) -> (
        Self,
        Result<WireVal, Seq<char>>,
    ) {
        (
            self,
            if method == 0 {
                increment_spec(request)
            } else {
                Err("no such method"@)
            },
        )
    }

    fn call(&mut self, method_index: usize, request: &WireValue) -> (r: Result<WireValue, String>) {
        if method_index == 0 {
            increment(request)
        } else {
            Err("no such method".to_owned())
        }
    }
}

/// The reply owed for an addition request: the sum of the two 32-bit
/// arguments, or a reported failure when an argument or the sum leaves the
/// 32-bit range.
pub open spec fn add_spec(request: WireVal) -> Result<WireVal, Seq<char>> {
    match request {
        WireVal::Tuple(ss) => {
            if ss.len() == 2 && ss[0] is Int && ss[1] is Int {
                let x = ss[0]->Int_0;
                let y = ss[1]->Int_0;
                if x < i32::MIN as i64 || x > i32::MAX as i64 || y < i32::MIN as i64 || y
                    > i32::MAX as i64 {
                    Err("add argument out of range"@)
                } else if x + y < i32::MIN as i64 || x + y > i32::MAX as i64 {
                    Err("add overflow"@)
                } else {
                    Ok(WireVal::Single(ScalarVal::Int((x + y) as i64)))
                }
            } else {
                Err("add expects two signed integers"@)
            }
        }
        _ => Err("add expects two signed integers"@),
    }
}

/// Serve one addition request over a two-element tuple.
pub fn add(request: &WireValue) -> (r: Result<WireValue, String>)
    ensures
        result_view(r) == add_spec(request@),
{
    match request {
        WireValue::Tuple(ss) => {
            if ss.len() == 2 {
                let a = &ss[0];
                let b = &ss[1];
                match (a, b) {
                    (Scalar::Int(x), Scalar::Int(y)) => {
                        let x: i64 = *x;
                        let y: i64 = *y;
                        if x < i32::MIN as i64 || x > i32::MAX as i64 || y < i32::MIN as i64 || y
                            > i32::MAX as i64 {
                            Err("add argument out of range".to_owned())
                        } else if x + y < i32::MIN as i64 || x + y > i32::MAX as i64 {
                            Err("add overflow".to_owned())
                        } else {
                            Ok(WireValue::Single(Scalar::Int(x + y)))
                        }
                    }
                    _ => Err("add expects two signed integers".to_owned()),
                }
            } else {
                Err("add expects two signed integers".to_owned())
            }
        }
        _ => Err("add expects two signed integers".to_owned()),
    }
}

/// A stateless service with the single method `add`.
pub struct MathService;

impl UnaryHandler for MathService {
    open spec fn handle_spec(self, method: int, request: WireVal) -> (
        Self,
        Result<WireVal, Seq<char>>,
    ) {
        (
            self,
            if method == 0 {
                add_spec(request)
            } else {
                Err("no such method"@)
            },
        )
    }

    fn call(&mut self, method_index: usize, request: &WireValue) -> (r: Result<WireValue, String>) {
        if method_index == 0 {
            crate::services::add(request)
        } else {
            Err("no such method".to_owned())
        }
    }
}

/// The transition owed for a counting request: the amount is added to the
/// running total and the new total is the reply; on 64-bit overflow the
/// total is kept and a failure reported.
pub open spec fn count_spec(total: i64, request: WireVal) -> (i64, Result<WireVal, Seq<char>>) {
    match request {
        WireVal::Single(ScalarVal::Int(amount)) => {
            if i64::MIN <= total + amount <= i64::MAX {
                (
                    (total + amount) as i64,
                    Ok(WireVal::Single(ScalarVal::Int((total + amount) as i64))),
                )
            } else {
                (total, Err("counter overflow"@))
            }
        }
        _ => (total, Err("count expects one signed integer"@)),
    }
}

/// A stateful counting service with the single method `count`: each request
/// adds its amount to the running total and replies with the new total.
pub struct CountService {
    pub total: i64,
}

impl UnaryHandler for CountService {
    open spec fn handle_spec(self, method: int, request: WireVal) -> (
        Self,
        Result<WireVal, Seq<char>>,
    ) {
        if method == 0 {
            let t = count_spec(self.total, request);
            (CountService { total: t.0 }, t.1)
        } else {
            (self, Err("no such method"@))
        }
    }

    fn call(&mut self, method_index: usize, request: &WireValue) -> (r: Result<WireValue, String>) {
        if method_index == 0 {
            match request {
                WireValue::Single(Scalar::Int(amount)) => {
                    let amount: i64 = *amount;
                    let overflows: bool = if amount >= 0 {
                        self.total > i64::MAX - amount
                    } else {
                        self.total < i64::MIN - amount
                    };
                    if overflows {
                        Err("counter overflow".to_owned())
                    } else {
                        self.total = self.total + amount;
                        Ok(WireValue::Single(Scalar::Int(self.total)))
                    }
                }
                _ => Err("count expects one signed integer".to_owned()),
            }
        } else {
            Err("no such method".to_owned())
        }
    }
}

/// The frames a counting stream owes for `count(start)`: the consecutive
/// values `start, start + 1, …`, as many as were consumed.
pub fn count_frames(start: i32, n: usize) -> (r: Vec<i32>)
    requires
        start + n <= i32::MAX + 1,
    ensures
        r@.len() == n,
        forall|i: int| 0 <= i < n ==> r@[i] == start + i,
{
    let mut out: Vec<i32> = Vec::new();
    let mut i: usize = 0;
    while i < n
        invariant
            i <= n,
            start + n <= i32::MAX + 1,
            out@.len() == i,
            forall|k: int| 0 <= k < i ==> out@[k] == start + k,
        decreases n - i,
    {
        let v: i64 = (start as i64) + (i as i64);
        out.push(v as i32);
        i = i + 1;
    }
    out
}

/// The sum of a sequence of frames.
pub open spec fn seq_sum(s: Seq<u32>) -> int
    decreases s.len(),
{
    if s.len() == 0 {
        0
    } else {
        seq_sum(s.drop_last()) + s.last()
    }
}

proof fn lemma_seq_sum_prefix(s: Seq<u32>, j: int)
    requires
        0 <= j <= s.len(),
    ensures
        seq_sum(s.take(j)) <= seq_sum(s),
    decreases s.len() - j,
{
    if j == s.len() {
        assert(s.take(j) =~= s);
    } else {
        assert(s.take(j + 1).drop_last() =~= s.take(j));
        assert(seq_sum(s.take(j + 1)) == seq_sum(s.take(j)) + s[j]);
        lemma_seq_sum_prefix(s, j + 1);
    }
}

/// The single reply a summing client-streaming call owes once the client
/// half-closes: the sum of every frame sent, or nothing on overflow.
pub fn sum_frames(frames: &Vec<u32>) -> (r: Option<u32>)
    ensures
        seq_sum(frames@) <= u32::MAX ==> (r matches Some(s) && s == seq_sum(frames@)),
        seq_sum(frames@) > u32::MAX ==> r is None,
{
    let mut acc: u64 = 0;
    let mut i: usize = 0;
    proof {
        assert(frames@.take(0int) =~= Seq::<u32>::empty());
    }
    while i < frames.len()
        invariant
            i <= frames.len(),
            acc == seq_sum(frames@.take(i as int)),
            acc <= u32::MAX,
        decreases frames.len() - i,
    {
        proof {
            assert(frames@.take(i + 1).drop_last() =~= frames@.take(i as int));
            assert(frames@.take(i + 1).last() == frames@[i as int]);
        }
        let next: u64 = acc + (frames[i] as u64);
        if next > (u32::MAX as u64) {
            proof {
                lemma_seq_sum_prefix(frames@, i + 1);
            }
            return None;
        }
        acc = next;
        i = i + 1;
    }
    proof {
        assert(frames@.take(frames@.len() as int) =~= frames@);
    }
    Some(acc as u32)
}

/// The retained value of a channel: the value of its last write, if any.
pub open spec fn retained_spec(entries: Seq<(Seq<char>, Seq<char>)>, channel: Seq<char>) -> Option<
    Seq<char>,
>
    decreases entries.len(),
{
    if entries.len() == 0 {
        None
    } else if entries.last().0 == channel {
        Some(entries.last().1)
    } else {
        retained_spec(entries.drop_last(), channel)
    }
}

/// The subscribers of a channel, in subscription order.
pub open spec fn subscribers_of(subs: Seq<(u64, Seq<char>)>, channel: Seq<char>) -> Seq<u64>
    decreases subs.len(),
{
    if subs.len() == 0 {
        Seq::<u64>::empty()
    } else {
        let rest = subscribers_of(subs.drop_last(), channel);
        if subs.last().1 == channel {
            rest.push(subs.last().0)
        } else {
            rest
        }
    }
}

/// Law: a published value is delivered to a subscriber exactly as often as
/// that subscriber subscribed to the published channel; a stream that never
/// subscribed to the channel never sees it.
pub proof fn lemma_delivery_iff_subscribed(subs: Seq<(u64, Seq<char>)>, channel: Seq<char>, x: u64)
    ensures
        subscribers_of(subs, channel).contains(x) <==> exists|k: int|
            0 <= k < subs.len() && subs[k] == (x, channel),
    decreases subs.len(),
{
    if subs.len() > 0 {
        lemma_delivery_iff_subscribed(subs.drop_last(), channel, x);
        let rest = subscribers_of(subs.drop_last(), channel);
        if subscribers_of(subs, channel).contains(x) {
            if subs.last().1 == channel && subs.last().0 == x {
                assert(subs[subs.len() - 1] == (x, channel));
            } else {
                assert(rest.contains(x)) by {
                    if subs.last().1 == channel {
                        let w = choose|w: int|
                            0 <= w < rest.push(subs.last().0).len() && rest.push(subs.last().0)[w]
                                == x;
                        assert(rest[w] == x);
                    }
                }
                let k = choose|k: int|
                    0 <= k < subs.drop_last().len() && subs.drop_last()[k] == (x, channel);
                assert(subs[k] == (x, channel));
            }
        }
        if exists|k: int| 0 <= k < subs.len() && subs[k] == (x, channel) {
            let k = choose|k: int| 0 <= k < subs.len() && subs[k] == (x, channel);
            if k == subs.len() - 1 {
                assert(subscribers_of(subs, channel) == rest.push(x));
                assert(rest.push(x)[rest.len() as int] == x);
            } else {
                assert(subs.drop_last()[k] == (x, channel));
                assert(rest.contains(x));
                let w = choose|w: int| 0 <= w < rest.len() && rest[w] == x;
                if subs.last().1 == channel {
                    assert(rest.push(subs.last().0)[w] == x);
                }
            }
        }
    }
}

pub open spec fn sub_views(s: Seq<(u64, String)>) -> Seq<(u64, Seq<char>)> {
    s.map(|i: int, p: (u64, String)| (p.0, p.1@))
}

pub open spec fn retained_views(s: Seq<(String, String)>) -> Seq<(Seq<char>, Seq<char>)> {
    s.map(|i: int, p: (String, String)| (p.0@, p.1@))
}

/// The broker of the subscribe/publish scenario: who listens to which
/// channel, in subscription order, and the last value written to each
/// channel.
pub struct PubSub {
    pub subs: Vec<(u64, String)>,
    pub retained: Vec<(String, String)>,
}

impl PubSub {
    /// An empty broker: no subscriptions, nothing retained.
    pub fn new() -> (r: PubSub)
        ensures
            sub_views(r.subs@) == Seq::<(u64, Seq<char>)>::empty(),
            retained_views(r.retained@) == Seq::<(Seq<char>, Seq<char>)>::empty(),
    {
        let r = PubSub { subs: Vec::new(), retained: Vec::new() };
        proof {
            assert(sub_views(r.subs@) =~= Seq::<(u64, Seq<char>)>::empty());
            assert(retained_views(r.retained@) =~= Seq::<(Seq<char>, Seq<char>)>::empty());
        }
        r
    }

    /// Subscribe a stream to a channel; the channel's retained value, if
    /// one exists, is delivered at once.
    pub fn subscribe(&mut self, subscriber: u64, channel: &String) -> (r: Option<(String, String)>)
        ensures
            sub_views(final(self).subs@) == sub_views(old(self).subs@).push((subscriber, channel@)),
            final(self).retained == old(self).retained,
            match retained_spec(retained_views(old(self).retained@), channel@) {
                Some(v) => r matches Some(p) && p.0@ == channel@ && p.1@ == v,
                None => r is None,
            },
    {
        self.subs.push((subscriber, channel.clone()));
        proof {
            assert(sub_views(self.subs@) =~= sub_views(old(self).subs@).push(
                (subscriber, channel@),
            ));
        }
        proof {
            assert(retained_views(self.retained@).take(self.retained@.len() as int)
                =~= retained_views(self.retained@));
        }
        let mut i: usize = self.retained.len();
        while i > 0
            invariant
                i <= self.retained.len(),
                sub_views(self.subs@) == sub_views(old(self).subs@).push((subscriber, channel@)),
                self.retained == old(self).retained,
                retained_spec(retained_views(self.retained@), channel@) == retained_spec(
                    retained_views(self.retained@).take(i as int),
                    channel@,
                ),
            decreases i,
        {
            proof {
                assert(retained_views(self.retained@).take(i as int).last() == (
                    self.retained@[i - 1].0@,
                    self.retained@[i - 1].1@,
                ));
                assert(retained_views(self.retained@).take(i as int).drop_last()
                    =~= retained_views(self.retained@).take(i - 1));
            }
            if self.retained[i - 1].0 == *channel {
                return Some((self.retained[i - 1].0.clone(), self.retained[i - 1].1.clone()));
            }
            i = i - 1;
        }
        proof {
            assert(retained_views(self.retained@).take(0int) =~= Seq::<
                (Seq<char>, Seq<char>),
            >::empty());
        }
        None
    }

    /// Publish a value on a channel: the value is retained as the channel's
    /// last write, and the returned deliveries are exactly the subscribers
    /// of that channel, in subscription order, each owed the published pair.
    pub fn publish(&mut self, channel: &String, value: &String) -> (deliveries: Vec<u64>)
        ensures
            final(self).subs == old(self).subs,
            retained_views(final(self).retained@) == retained_views(old(self).retained@).push(
                (channel@, value@),
            ),
            deliveries@ == subscribers_of(sub_views(old(self).subs@), channel@),
    {
        self.retained.push((channel.clone(), value.clone()));
        proof {
            assert(retained_views(self.retained@) =~= retained_views(old(self).retained@).push(
                (channel@, value@),
            ));
        }
        let ghost sv = sub_views(self.subs@);
        let mut deliveries: Vec<u64> = Vec::new();
        proof {
            assert(sv.take(0int) =~= Seq::<(u64, Seq<char>)>::empty());
            assert(deliveries@ =~= subscribers_of(sv.take(0int), channel@));
        }
        let mut i: usize = 0;
        while i < self.subs.len()
            invariant
                i <= self.subs.len(),
                sv == sub_views(self.subs@),
                sv.len() == self.subs@.len(),
                deliveries@ == subscribers_of(sv.take(i as int), channel@),
            decreases self.subs.len() - i,
        {
            proof {
                assert(sv.take(i + 1).drop_last() =~= sv.take(i as int));
                assert(sv.take(i + 1).last() == sv[i as int]);
            }
            if self.subs[i].1 == *channel {
                deliveries.push(self.subs[i].0);
            }
            i = i + 1;
        }
        proof {
            assert(sv.take(self.subs@.len() as int) =~= sv);
        }
        deliveries
    }
}

} // verus!
