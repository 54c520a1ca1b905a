//! The stream adapter: projects one subscription onto the numbered event
//! sequence a server-push connection delivers, and manages its lifecycle
//! against an external cancellation signal.
//!
//! The adapter is the decision core of a connection's delivery loop. The loop
//! around it performs the waiting and the wire I/O: it calls [`StreamAdapter::poll`]
//! once per iteration, sends the event it may yield, waits when told to, and
//! stops when the adapter reaches its terminal state. Lag is resynchronised
//! silently: a lagged subscriber skips the missed messages and resumes with
//! the oldest retained one, without a gap event on the wire and without the
//! sequence numbering ever repeating or going backwards.

use vstd::prelude::*;

use crate::broadcast::Broadcaster;
use crate::broadcast::RecvOutcome;
use crate::broadcast::Subscription;
use crate::broadcast::lemma_ordering;

verus! {

/// One externally observable delivery: a per-connection sequence number,
/// assigned from 0 upwards in delivery order, and the published payload,
/// verbatim.
pub struct EventRecord {
    pub sequence: u64,
    pub payload: String,
}

/// What one turn of the delivery loop must do.
pub enum StreamStep {
    /// Deliver this event to the client.
    Event(EventRecord),
    /// The subscriber lagged and skipped this many messages; deliver nothing
    /// and carry on.
    Skipped(u64),
    /// Nothing to deliver yet: wait until a message is published or the
    /// connection is cancelled, then poll again.
    Idle,
    /// Terminal: the subscription has been released; the stream is over.
    End,
}

/// A per-connection adapter: one subscription, the connection's sequence
/// counter, and whether the terminal state has been entered.
pub struct StreamAdapter {
    pub sub: Subscription,
    pub next_seq: u64,
    pub done: bool,
}

impl StreamAdapter {
    /// The events this adapter has emitted, in order: emission index (which
    /// is the sequence number assigned on the wire) paired with the payload.
    pub open spec fn events(&self) -> Seq<(int, Seq<char>)> {
        self.sub.log@.map(|i: int, e: (int, Seq<char>)| (i, e.1))
    }

    /// Well-formedness against the bus: the cursor is well-formed, the
    /// sequence counter equals the number of events emitted, and a finished
    /// adapter has released its subscription.
    pub open spec fn wf_for(&self, b: Broadcaster) -> bool {
        &&& self.sub.wf_for(b)
        &&& self.next_seq as int == self.sub.log@.len()
        &&& (self.done ==> self.sub.closed)
    }

    /// Creates the adapter and subscribes at this point: the stream will
    /// carry exactly the messages published from now on, numbered from 0.
    pub fn open(b: &mut Broadcaster) -> (a: StreamAdapter)
        requires
            old(b).wf(),
            old(b).live < usize::MAX,
        ensures
            final(b).wf(),
            final(b).capacity == old(b).capacity,
            final(b).ring == old(b).ring,
            final(b).total == old(b).total,
            final(b).shut == old(b).shut,
            final(b).hist == old(b).hist,
            final(b).live == old(b).live + 1,
            a.wf_for(*final(b)),
            !a.done,
            a.next_seq == 0,
            !a.sub.closed,
            a.sub.cursor == old(b).total,
            a.sub.joined@ == old(b).total as int,
            a.sub.base@ == old(b).total as int,
            a.sub.log@ =~= Seq::<(int, Seq<char>)>::empty(),
    {
        let sub = b.subscribe();
        StreamAdapter { sub, next_seq: 0, done: false }
    }

    /// One turn of the delivery loop. The caller passes whether the external
    /// cancellation signal (connection drop or server shutdown) has fired;
    /// the adapter checks it before reading, so cancellation is observed at
    /// every iteration boundary. Exactly one of four things happens: the
    /// stream ends (cancelled, closed, or already over), in which case the
    /// subscription is released exactly once; a message is delivered under
    /// the next sequence number; a lag is skipped silently; or there is
    /// nothing to do but wait.
    pub fn poll(&mut self, b: &mut Broadcaster, cancelled: bool) -> (r: StreamStep)
        requires
            old(self).wf_for(*old(b)),
        ensures
            final(self).wf_for(*final(b)),
            final(b).capacity == old(b).capacity,
            final(b).ring == old(b).ring,
            final(b).total == old(b).total,
            final(b).shut == old(b).shut,
            final(b).hist == old(b).hist,
            final(b).live as int == if !old(self).done && !old(self).sub.closed && (cancelled
                || old(b).shut) {
                if old(b).live > 0 {
                    old(b).live - 1
                } else {
                    0
                }
            } else {
                old(b).live as int
            },
            (r is End <==> old(self).done || cancelled || old(self).sub.sees_closed(*old(b))),
            (r is Event <==> !old(self).done && !cancelled && old(self).sub.has_next(*old(b))),
            (r is Skipped <==> !old(self).done && !cancelled && old(self).sub.is_lagged(
                *old(b),
            )),
            (r is Idle <==> !old(self).done && !cancelled && old(self).sub.must_wait(*old(b))),
            r is End ==> final(self).done && final(self).sub.closed,
            old(self).done ==> *final(self) == *old(self) && *final(b) == *old(b),
            r is Idle ==> *final(self) == *old(self) && *final(b) == *old(b),
            r matches StreamStep::Event(rec) ==> {
                &&& rec.sequence == old(self).next_seq
                &&& rec.sequence as int == old(self).sub.log@.len()
                &&& rec.payload@ == old(b).hist@[old(self).sub.cursor as int]
                &&& final(self).next_seq == old(self).next_seq + 1
                &&& final(self).sub.cursor == old(self).sub.cursor + 1
                &&& !final(self).done
                &&& final(self).sub.log@ =~= old(self).sub.log@.push(
                    (old(self).sub.cursor as int, rec.payload@),
                )
            },
            r matches StreamStep::Skipped(n) ==> {
                &&& n as int == old(b).oldest() - old(self).sub.cursor
                &&& final(self).sub.cursor as int == old(b).oldest()
                &&& final(self).next_seq == old(self).next_seq
                &&& !final(self).done
                &&& final(self).sub.log == old(self).sub.log
            },
    {
        if self.done {
            return StreamStep::End;
        }
        if cancelled {
            self.sub.close(b);
            self.done = true;
            return StreamStep::End;
        }
        match self.sub.recv(b) {
            RecvOutcome::Closed => {
                self.sub.close(b);
                self.done = true;
                StreamStep::End
            },
            RecvOutcome::Lagged(n) => StreamStep::Skipped(n),
            RecvOutcome::Pending => StreamStep::Idle,
            RecvOutcome::Received(m) => {
                let sequence = self.next_seq;
                self.next_seq = self.next_seq + 1;
                StreamStep::Event(EventRecord { sequence, payload: m })
            },
        }
    }
}

/// Per-connection numbering: the adapter's events carry the sequence numbers
/// 0, 1, 2, ... in delivery order -- strictly increasing, never repeating --
/// and for an adapter that never lagged the payloads are exactly the messages
/// published since it opened, in publish order.
pub proof fn lemma_stream_numbering(a: StreamAdapter, b: Broadcaster)
    requires
        a.wf_for(b),
    ensures
        a.events().len() == a.next_seq,
        forall|k: int| 0 <= k < a.events().len() ==> (#[trigger] a.events()[k]).0 == k,
        a.sub.base@ == a.sub.joined@ ==> forall|k: int|
            0 <= k < a.events().len() ==> (#[trigger] a.events()[k]).1 == b.hist@[a.sub.joined@
                + k],
{
    if a.sub.base@ == a.sub.joined@ {
        lemma_ordering(a.sub, b);
    }
}

} // verus!
