//! The wake channel: how a secondary's payload travels to the primary.
//!
//! A secondary connects to the endpoint derived from the key and writes one
//! payload; the primary's dedicated background loop accepts one connection
//! at a time, reads its payload, and hands the read's outcome to the
//! registered callback. A failed read is logged and skipped; the loop never
//! dies of one bad iteration. The channel itself moves bytes untouched, so
//! the model here is a queue of payloads plus the dispatch decision taken
//! on each iteration's event.

use vstd::prelude::*;
use vstd::slice::slice_to_vec;

verus! {

/// A failed wake-channel iteration: a connection whose payload could not be
/// read, or a fault caught inside the iteration.
#[derive(Debug)]
pub struct WakeFault {
    /// The description the loop logs before it continues.
    pub message: String,
}

/// What the dispatch loop does with one iteration's event.
pub enum WakeAction {
    /// Hand this payload to the registered callback.
    Deliver(Vec<u8>),
    /// Log the fault and continue with the next iteration.
    Skip,
}

/// The wake channel as the primary sees it: payloads sent by secondaries
/// and not yet dispatched, in arrival order.
pub struct WakeChannel {
    /// The payloads in flight, oldest first.
    pub pending: Vec<Vec<u8>>,
}

impl WakeChannel {
    /// An idle channel with nothing in flight.
    pub fn new() -> (c: WakeChannel)
        ensures
            c.pending@.len() == 0,
    {
        WakeChannel { pending: Vec::new() }
    }

    /// What a secondary's wake call does: transmits `payload` to the
    /// channel, byte for byte, after everything already in flight.
    pub fn send(&mut self, payload: &[u8]) -> (r: Result<(), WakeFault>)
        ensures
            r is Ok,
            final(self).pending@.len() == old(self).pending@.len() + 1,
            final(self).pending@.last()@ == payload@,
            forall|i: int|
                0 <= i < old(self).pending@.len() ==> final(self).pending@[i] == old(
                    self,
                ).pending@[i],
    {
        self.pending.push(slice_to_vec(payload));
        Ok(())
    }

    /// What one accept of the primary's loop yields: the oldest in-flight
    /// payload, exactly as sent, or nothing when the channel is idle.
    pub fn accept(&mut self) -> (r: Option<Vec<u8>>)
        ensures
            old(self).pending@.len() == 0 ==> r is None && final(self).pending@ == old(
                self,
            ).pending@,
            old(self).pending@.len() > 0 ==> {
                &&& r matches Some(p) && p == old(self).pending@[0]
                &&& final(self).pending@ == old(self).pending@.drop_first()
            },
    {
        if self.pending.len() == 0 {
            None
        } else {
            let p = self.pending.remove(0);
            proof {
                assert(self.pending@ =~= old(self).pending@.drop_first());
            }
            Some(p)
        }
    }
}

/// The payloads a fault-tolerant dispatch loop delivers to the callback,
/// given the events of its iterations in order: every successfully read
/// payload, unmodified and in order; faulted iterations deliver nothing and
/// stop nothing.
pub open spec fn delivered_of(events: Seq<Result<Vec<u8>, WakeFault>>) -> Seq<Seq<u8>>
    decreases events.len(),
{
    if events.len() == 0 {
        Seq::empty()
    } else {
        delivered_of(events.drop_last()) + (match events.last() {
            Ok(p) => seq![p@],
            Err(_) => Seq::<Seq<u8>>::empty(),
        })
    }
}

/// The decision of one iteration of the primary's dispatch loop: a payload
/// that was read in full is handed to the callback unmodified; a failed
/// read is logged and skipped, and the loop goes on.
pub fn dispatch_step(event: Result<Vec<u8>, WakeFault>) -> (a: WakeAction)
    ensures
        event matches Ok(p) ==> a matches WakeAction::Deliver(q) && q == p,
        event is Err ==> a is Skip,
{
    match event {
        Ok(p) => WakeAction::Deliver(p),
        Err(_) => WakeAction::Skip,
    }
}

/// The dispatch loop over a whole run of iteration events: delivers exactly
/// the successfully read payloads, in order, whatever faults lie between.
pub fn run_dispatch(events: Vec<Result<Vec<u8>, WakeFault>>) -> (delivered: Vec<Vec<u8>>)
    ensures
        delivered.deep_view() == delivered_of(events@),
{
    let mut delivered: Vec<Vec<u8>> = Vec::new();
    let n = events.len();
    let mut i: usize = 0;
    while i < n
        invariant
            0 <= i <= n,
            n == events@.len(),
            delivered.deep_view() == delivered_of(events@.subrange(0, i as int)),
        decreases n - i,
    {
        proof {
            assert(events@.subrange(0, i + 1).drop_last() =~= events@.subrange(0, i as int));
            assert(events@.subrange(0, i + 1).last() == events@[i as int]);
        }
        match &events[i] {
            Ok(p) => {
                let q = slice_to_vec(p.as_slice());
                delivered.push(q);
                proof {
                    assert(delivered.deep_view() =~~= delivered_of(events@.subrange(0, i + 1)));
                }
            },
            Err(_) => {
                proof {
                    assert(delivered.deep_view() =~~= delivered_of(events@.subrange(0, i + 1)));
                }
            },
        }
        i = i + 1;
    }
    proof {
        assert(events@.subrange(0, n as int) =~= events@);
    }
    delivered
}

/// A payload reaches the callback unmodified: a successfully read payload
/// heads the deliveries of any run it begins, byte for byte, whatever
/// follows it.
pub proof fn lemma_payload_delivered_exact(p: Vec<u8>, rest: Seq<Result<Vec<u8>, WakeFault>>)
    ensures
        delivered_of(seq![Result::<Vec<u8>, WakeFault>::Ok(p)] + rest) == seq![p@] + delivered_of(
            rest,
        ),
    decreases rest.len(),
{
    let head = seq![Result::<Vec<u8>, WakeFault>::Ok(p)];
    if rest.len() == 0 {
        assert((head + rest) =~= head);
        assert(head.drop_last() =~= Seq::<Result<Vec<u8>, WakeFault>>::empty());
        assert(delivered_of(Seq::<Result<Vec<u8>, WakeFault>>::empty())
            == Seq::<Seq<u8>>::empty());
        assert(delivered_of(head) =~= seq![p@]);
        assert(seq![p@] + delivered_of(rest) =~= seq![p@]);
    } else {
        lemma_payload_delivered_exact(p, rest.drop_last());
        assert((head + rest).drop_last() =~= head + rest.drop_last());
        assert((head + rest).last() == rest.last());
        assert(seq![p@] + delivered_of(rest) =~= (seq![p@] + delivered_of(rest.drop_last()))
            + (match rest.last() {
            Ok(q) => seq![q@],
            Err(_) => Seq::<Seq<u8>>::empty(),
        }));
    }
}

/// A fault stops nothing: a faulted iteration delivers nothing, and every
/// later payload of the run is still delivered exactly as it would have
/// been without the fault.
pub proof fn lemma_fault_does_not_block(e: WakeFault, rest: Seq<Result<Vec<u8>, WakeFault>>)
    ensures
        delivered_of(seq![Result::<Vec<u8>, WakeFault>::Err(e)] + rest) == delivered_of(rest),
    decreases rest.len(),
{
    let head = seq![Result::<Vec<u8>, WakeFault>::Err(e)];
    if rest.len() == 0 {
        assert((head + rest) =~= head);
        assert(head.drop_last() =~= Seq::<Result<Vec<u8>, WakeFault>>::empty());
        assert(delivered_of(Seq::<Result<Vec<u8>, WakeFault>>::empty())
            == Seq::<Seq<u8>>::empty());
        assert(delivered_of(head) =~= delivered_of(rest));
    } else {
        lemma_fault_does_not_block(e, rest.drop_last());
        assert((head + rest).drop_last() =~= head + rest.drop_last());
        assert((head + rest).last() == rest.last());
    }
}

} // verus!
