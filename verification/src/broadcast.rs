//! The broadcast fan-out core: a bounded ring of recent messages shared by an
//! arbitrary, changing set of subscribers, each holding an independent cursor.
//!
//! The broadcaster keeps the last `capacity` published messages. A subscriber
//! whose cursor falls behind the oldest retained message is lagged: its next
//! read reports how many messages it missed and its cursor is fast-forwarded
//! to the oldest message still available. Late joiners only see messages
//! published after they subscribed; the ring is never replayed to them.

use vstd::prelude::*;

verus! {

/// Why a publish call failed. The only failure path is exhaustion of the
/// message counter, the in-memory stand-in for resource exhaustion of the
/// host; no subscriber condition can fail a publish.
#[derive(Debug)]
pub enum PublishError {
    Exhausted,
}

/// One read attempt's outcome, as seen by a subscriber.
pub enum RecvOutcome {
    /// The next message at the cursor, which has been advanced past it.
    Received(String),
    /// The cursor had fallen behind the oldest retained message: this many
    /// messages were missed, and the cursor now points at the oldest message
    /// still available. Not terminal; reading can continue.
    Lagged(u64),
    /// No message is available yet. The caller decides how to wait; a new
    /// message must be published before a read can succeed.
    Pending,
    /// The subscription was closed or the broadcaster shut down. Terminal:
    /// every later read returns this again.
    Closed,
}

/// The shared state of the bus: a bounded ring of the most recent messages,
/// the count of messages ever published, the count of open subscriptions, and
/// the shutdown flag. The ghost `hist` is the full append-only sequence of
/// published payloads; the ring mirrors its suffix.
pub struct Broadcaster {
    pub capacity: usize,
    pub ring: Vec<String>,
    pub total: u64,
    pub live: usize,
    pub shut: bool,
    pub hist: Ghost<Seq<Seq<char>>>,
}

/// A private, independently paced cursor over the shared ring.
///
/// `cursor` is the history index of the next unread message. The ghost fields
/// record what this subscriber has observed: `joined` is the history length at
/// subscribe time, `base` the start of the current contiguous run of reads
/// (reset by a lag), and `log` every observation as a pair of history index
/// and payload, in observation order.
pub struct Subscription {
    pub cursor: u64,
    pub closed: bool,
    pub joined: Ghost<int>,
    pub base: Ghost<int>,
    pub log: Ghost<Seq<(int, Seq<char>)>>,
}

impl Broadcaster {
    /// History index of the oldest message still in the ring.
    pub open spec fn oldest(&self) -> int {
        self.total - self.ring@.len()
    }

    /// Ring length the capacity policy dictates: everything published, up to
    /// `capacity`.
    pub open spec fn retained(&self) -> int {
        if self.total <= self.capacity as u64 {
            self.total as int
        } else {
            self.capacity as int
        }
    }

    /// Well-formedness: the ring holds exactly the last `retained` published
    /// messages, in publish order.
    pub open spec fn wf(&self) -> bool {
        &&& self.capacity >= 1
        &&& self.hist@.len() == self.total
        &&& self.ring@.len() == self.retained()
        &&& forall|i: int|
            0 <= i < self.ring@.len() ==> #[trigger] self.ring@[i]@ == self.hist@[self.oldest()
                + i]
    }

    /// A fresh bus: nothing published, nobody subscribed, not shut down.
    pub fn new(capacity: usize) -> (b: Broadcaster)
        requires
            capacity >= 1,
        ensures
            b.wf(),
            b.capacity == capacity,
            b.total == 0,
            b.live == 0,
            !b.shut,
            b.hist@ =~= Seq::<Seq<char>>::empty(),
    {
        Broadcaster {
            capacity,
            ring: Vec::new(),
            total: 0,
            live: 0,
            shut: false,
            hist: Ghost(Seq::empty()),
        }
    }

    /// Enqueues one message for all current and future subscribers, evicting
    /// the oldest retained message once the ring is full. Never blocks on and
    /// never fails because of subscribers; the returned count of connected
    /// subscribers is informational only.
    pub fn publish(&mut self, payload: String) -> (r: Result<usize, PublishError>)
        requires
            old(self).wf(),
        ensures
            final(self).wf(),
            final(self).capacity == old(self).capacity,
            final(self).live == old(self).live,
            final(self).shut == old(self).shut,
            old(self).total < u64::MAX ==> {
                &&& r matches Ok(n) && n == old(self).live
                &&& final(self).total == old(self).total + 1
                &&& final(self).hist@ =~= old(self).hist@.push(payload@)
            },
            old(self).total == u64::MAX ==> r is Err && *final(self) == *old(self),
    {
        if self.total == u64::MAX {
            return Err(PublishError::Exhausted);
        }
        let ghost p: Seq<char> = payload@;
        if self.ring.len() == self.capacity {
            self.ring.remove(0);
        }
        self.ring.push(payload);
        self.total = self.total + 1;
        self.hist = Ghost(self.hist@.push(p));
        proof {
            assert forall|i: int| 0 <= i < self.ring@.len() implies #[trigger] self.ring@[i]@
                == self.hist@[self.oldest() + i] by {
                if i < self.ring@.len() - 1 {
                    assert(self.ring@[i]@ == old(self).hist@[old(self).oldest() + i + (
                    old(self).ring@.len() - (self.ring@.len() - 1))]);
                }
            }
        }
        Ok(self.live)
    }

    /// Registers a new cursor positioned at "now": it will observe exactly the
    /// messages published after this call.
    pub fn subscribe(&mut self) -> (s: Subscription)
        requires
            old(self).wf(),
            old(self).live < usize::MAX,
        ensures
            final(self).wf(),
            final(self).capacity == old(self).capacity,
            final(self).ring == old(self).ring,
            final(self).total == old(self).total,
            final(self).shut == old(self).shut,
            final(self).hist == old(self).hist,
            final(self).live == old(self).live + 1,
            s.wf_for(*final(self)),
            s.cursor == old(self).total,
            !s.closed,
            s.joined@ == old(self).total as int,
            s.base@ == old(self).total as int,
            s.log@ =~= Seq::<(int, Seq<char>)>::empty(),
    {
        self.live = self.live + 1;
        Subscription {
            cursor: self.total,
            closed: false,
            joined: Ghost(self.total as int),
            base: Ghost(self.total as int),
            log: Ghost(Seq::empty()),
        }
    }

    /// Shuts the bus down: every subscription's next read, on any cursor,
    /// returns the terminal signal. Nothing else changes.
    pub fn shutdown(&mut self)
        ensures
            final(self).shut,
            final(self).capacity == old(self).capacity,
            final(self).ring == old(self).ring,
            final(self).total == old(self).total,
            final(self).live == old(self).live,
            final(self).hist == old(self).hist,
            old(self).wf() ==> final(self).wf(),
    {
        self.shut = true;
    }
}

impl Subscription {
    /// The subscription or the whole bus has ended for this subscriber.
    pub open spec fn sees_closed(&self, b: Broadcaster) -> bool {
        self.closed || b.shut
    }

    /// The cursor fell behind the oldest retained message.
    pub open spec fn is_lagged(&self, b: Broadcaster) -> bool {
        &&& !self.sees_closed(b)
        &&& (self.cursor as int) < b.oldest()
    }

    /// A message is available at the cursor.
    pub open spec fn has_next(&self, b: Broadcaster) -> bool {
        &&& !self.sees_closed(b)
        &&& !self.is_lagged(b)
        &&& self.cursor < b.total
    }

    /// Nothing to read yet: the cursor is at the end of the history.
    pub open spec fn must_wait(&self, b: Broadcaster) -> bool {
        &&& !self.sees_closed(b)
        &&& !self.is_lagged(b)
        &&& self.cursor == b.total
    }

    /// The payloads this subscriber has observed, in observation order.
    pub open spec fn observed(&self) -> Seq<Seq<char>> {
        self.log@.map(|i: int, e: (int, Seq<char>)| e.1)
    }

    /// Well-formedness of this cursor against the bus it was created on:
    /// the cursor sits inside the history at or after the join point; the
    /// observation log records messages of the history, at strictly
    /// increasing indices never before the join point; its tail is the
    /// current contiguous run `base..cursor`; and a subscriber that never
    /// lagged has observed exactly `joined..cursor`.
    pub open spec fn wf_for(&self, b: Broadcaster) -> bool {
        &&& b.wf()
        &&& 0 <= self.joined@ <= self.base@ <= self.cursor as int <= b.total as int
        &&& self.log@.len() >= self.cursor as int - self.base@
        &&& self.log@.len() <= self.cursor as int - self.joined@
        &&& forall|k: int|
            0 <= k < self.log@.len() ==> self.joined@ <= (#[trigger] self.log@[k]).0
                < self.cursor as int
        &&& forall|k: int|
            0 <= k < self.log@.len() ==> (#[trigger] self.log@[k]).1 == b.hist@[self.log@[k].0]
        &&& forall|k1: int, k2: int|
            0 <= k1 < k2 < self.log@.len() ==> (#[trigger] self.log@[k1]).0 < (
            #[trigger] self.log@[k2]).0
        &&& forall|k: int|
            self.log@.len() - (self.cursor as int - self.base@) <= k < self.log@.len() ==> (
            #[trigger] self.log@[k]).0 == self.base@ + k - (self.log@.len() - (self.cursor as int
                - self.base@))
        &&& (self.base@ == self.joined@ ==> self.log@.len() == self.cursor as int - self.base@)
    }

    /// One read attempt. Exactly one of four things happens, decided by the
    /// cursor's position against the bus: the terminal signal if this
    /// subscription is closed or the bus shut down; a lag report that
    /// fast-forwards the cursor to the oldest retained message; nothing, if
    /// the cursor is already at the end of the history; or the message at the
    /// cursor, which advances by one. Waiting for a new message is the
    /// caller's affair: this call never blocks.
    pub fn recv(&mut self, b: &Broadcaster) -> (r: RecvOutcome)
        requires
            old(self).wf_for(*b),
        ensures
            final(self).wf_for(*b),
            final(self).closed == old(self).closed,
            final(self).joined == old(self).joined,
            (r is Closed <==> old(self).sees_closed(*b)),
            (r is Lagged <==> old(self).is_lagged(*b)),
            (r is Received <==> old(self).has_next(*b)),
            (r is Pending <==> old(self).must_wait(*b)),
            old(self).sees_closed(*b) ==> *final(self) == *old(self),
            old(self).must_wait(*b) ==> *final(self) == *old(self),
            r matches RecvOutcome::Lagged(n) ==> {
                &&& n as int == b.oldest() - old(self).cursor
                &&& final(self).cursor as int == b.oldest()
                &&& final(self).base@ == b.oldest()
                &&& final(self).log == old(self).log
            },
            r matches RecvOutcome::Received(m) ==> {
                &&& m@ == b.hist@[old(self).cursor as int]
                &&& final(self).cursor == old(self).cursor + 1
                &&& final(self).base == old(self).base
                &&& final(self).log@ =~= old(self).log@.push(
                    (old(self).cursor as int, m@),
                )
            },
    {
        if self.closed || b.shut {
            return RecvOutcome::Closed;
        }
        let oldest: u64 = b.total - (b.ring.len() as u64);
        if self.cursor < oldest {
            let missed: u64 = oldest - self.cursor;
            self.cursor = oldest;
            self.base = Ghost(oldest as int);
            return RecvOutcome::Lagged(missed);
        }
        if self.cursor == b.total {
            return RecvOutcome::Pending;
        }
        let idx: usize = (self.cursor - oldest) as usize;
        let m: String = b.ring[idx].clone();
        self.log = Ghost(self.log@.push((self.cursor as int, m@)));
        self.cursor = self.cursor + 1;
        RecvOutcome::Received(m)
    }

    /// Releases the cursor. Idempotent: the first call deregisters this
    /// subscriber from the bus, later calls change nothing. Every read after
    /// this returns the terminal signal. Closing one subscription touches
    /// nothing another subscriber's reads depend on.
    pub fn close(&mut self, b: &mut Broadcaster)
        ensures
            final(self).closed,
            final(self).cursor == old(self).cursor,
            final(self).joined == old(self).joined,
            final(self).base == old(self).base,
            final(self).log == old(self).log,
            final(b).capacity == old(b).capacity,
            final(b).ring == old(b).ring,
            final(b).total == old(b).total,
            final(b).shut == old(b).shut,
            final(b).hist == old(b).hist,
            final(b).live as int == if old(self).closed {
                old(b).live as int
            } else if old(b).live > 0 {
                old(b).live - 1
            } else {
                0
            },
            old(b).wf() ==> final(b).wf(),
    {
        if !self.closed {
            self.closed = true;
            if b.live > 0 {
                b.live = b.live - 1;
            }
        }
    }
}

/// Publishing preserves every subscriber's well-formedness: a publish only
/// appends to the history, so everything a cursor has already observed stays
/// where it was.
pub proof fn lemma_publish_preserves_subscriber(
    s: Subscription,
    b0: Broadcaster,
    b1: Broadcaster,
    p: Seq<char>,
)
    requires
        s.wf_for(b0),
        b1.wf(),
        b1.total == b0.total + 1,
        b1.hist@ =~= b0.hist@.push(p),
    ensures
        s.wf_for(b1),
{
    assert forall|k: int| 0 <= k < s.log@.len() implies (#[trigger] s.log@[k]).1
        == b1.hist@[s.log@[k].0] by {
        assert(s.log@[k].0 < b0.total as int);
    }
}

/// Ordering: a subscriber that has never lagged has observed exactly the
/// messages published since it joined, in publish order, each exactly once.
pub proof fn lemma_ordering(s: Subscription, b: Broadcaster)
    requires
        s.wf_for(b),
        s.base@ == s.joined@,
    ensures
        s.log@.len() == s.cursor as int - s.joined@,
        forall|k: int|
            0 <= k < s.log@.len() ==> (#[trigger] s.log@[k]).0 == s.joined@ + k && s.log@[k].1
                == b.hist@[s.joined@ + k],
        s.observed() =~= b.hist@.subrange(s.joined@, s.cursor as int),
{
    assert forall|k: int| 0 <= k < s.log@.len() implies (#[trigger] s.log@[k]).0 == s.joined@ + k
        && s.log@[k].1 == b.hist@[s.joined@ + k] by {
        assert(s.log@[k].0 == s.base@ + k - (s.log@.len() - (s.cursor as int - s.base@)));
    }
}

/// Isolation: a change that touches only the count of open subscriptions --
/// which is all that closing another subscriber does to the bus -- leaves
/// this subscriber's well-formedness and the outcome of its next read
/// untouched.
pub proof fn lemma_isolation(s: Subscription, b0: Broadcaster, b1: Broadcaster)
    requires
        s.wf_for(b0),
        b1.capacity == b0.capacity,
        b1.ring == b0.ring,
        b1.total == b0.total,
        b1.shut == b0.shut,
        b1.hist == b0.hist,
    ensures
        s.wf_for(b1),
        s.sees_closed(b1) == s.sees_closed(b0),
        s.is_lagged(b1) == s.is_lagged(b0),
        s.has_next(b1) == s.has_next(b0),
        s.must_wait(b1) == s.must_wait(b0),
        s.has_next(b1) ==> b1.hist@[s.cursor as int] == b0.hist@[s.cursor as int],
{
}

/// Late-join exclusion: a message published before this subscriber joined
/// never appears in its observations.
pub proof fn lemma_late_join_exclusion(s: Subscription, b: Broadcaster, m: int)
    requires
        s.wf_for(b),
        0 <= m < s.joined@,
    ensures
        forall|k: int| 0 <= k < s.log@.len() ==> (#[trigger] s.log@[k]).0 != m,
{
}

/// Lag correctness: a cursor behind the oldest retained message is reported
/// lagged, the reported count is exactly the number of messages it can no
/// longer read (those published beyond its cursor less those still retained),
/// and its observations -- before and after resynchronisation -- never repeat
/// and never go backwards.
pub proof fn lemma_lag_correctness(s: Subscription, b: Broadcaster)
    requires
        s.wf_for(b),
        !s.closed,
        !b.shut,
        (s.cursor as int) < b.oldest(),
    ensures
        s.is_lagged(b),
        b.oldest() - s.cursor as int == (b.total - s.cursor) - b.ring@.len(),
        forall|k1: int, k2: int|
            0 <= k1 < k2 < s.log@.len() ==> (#[trigger] s.log@[k1]).0 < (#[trigger] s.log@[k2]).0,
{
}

/// Multiplicity: one publish makes the new message the next observation of
/// every subscriber that was open and caught up, independently of all others;
/// the publish itself reported one delivery per connected subscriber. The
/// strictly increasing observation indices rule out a second delivery of the
/// same message to the same subscriber.
pub proof fn lemma_multiplicity(
    s: Subscription,
    b0: Broadcaster,
    b1: Broadcaster,
    p: Seq<char>,
)
    requires
        s.wf_for(b0),
        !s.closed,
        s.cursor == b0.total,
        b1.wf(),
        !b1.shut,
        b1.total == b0.total + 1,
        b1.hist@ =~= b0.hist@.push(p),
    ensures
        s.wf_for(b1),
        s.has_next(b1),
        b1.hist@[s.cursor as int] == p,
{
    lemma_publish_preserves_subscriber(s, b0, b1, p);
}

/// Shutdown: once the bus is shut down every subscription, whatever its
/// cursor, sees only the terminal signal -- no further events, no errors.
pub proof fn lemma_shutdown_terminal(s: Subscription, b: Broadcaster)
    requires
        b.shut,
    ensures
        s.sees_closed(b),
        !s.has_next(b),
        !s.is_lagged(b),
        !s.must_wait(b),
{
}

} // verus!
