//! The state the server endpoints share. The endpoints themselves -- HTTP
//! routing, the wire protocol of the push stream, static files and
//! cross-origin headers -- are plumbing around this core and stay at the I/O
//! edge; they hand payloads in and carry event records out.

use vstd::prelude::*;

use crate::broadcast::Broadcaster;

verus! {

/// How many recent messages the bus retains for slow subscribers.
pub const DEFAULT_CAPACITY: usize = 1000;

/// The process-wide state behind the endpoints: one broadcaster every
/// publisher and every subscriber shares.
pub struct Context {
    pub broadcaster: Broadcaster,
}

impl Context {
    /// Fresh shared state: an empty bus with the default capacity.
    pub fn new() -> (c: Context)
        ensures
            c.broadcaster.wf(),
            c.broadcaster.capacity == DEFAULT_CAPACITY,
            c.broadcaster.total == 0,
            c.broadcaster.live == 0,
            !c.broadcaster.shut,
            c.broadcaster.hist@ =~= Seq::<Seq<char>>::empty(),
    {
        Context { broadcaster: Broadcaster::new(DEFAULT_CAPACITY) }
    }

    /// The ingress operation: accept one published payload and report how
    /// many subscribers it was enqueued for, 0 when the bus could not take
    /// it. A publish with no subscribers succeeds and reports 0.
    pub fn msg(&mut self, payload: String) -> (n: usize)
        requires
            old(self).broadcaster.wf(),
        ensures
            final(self).broadcaster.wf(),
            final(self).broadcaster.capacity == old(self).broadcaster.capacity,
            final(self).broadcaster.live == old(self).broadcaster.live,
            final(self).broadcaster.shut == old(self).broadcaster.shut,
            old(self).broadcaster.total < u64::MAX ==> {
                &&& n == old(self).broadcaster.live
                &&& final(self).broadcaster.total == old(self).broadcaster.total + 1
                &&& final(self).broadcaster.hist@ =~= old(self).broadcaster.hist@.push(payload@)
            },
            old(self).broadcaster.total == u64::MAX ==> n == 0 && final(self).broadcaster == old(
                self,
            ).broadcaster,
    {
        match self.broadcaster.publish(payload) {
            Ok(n) => n,
            Err(_) => 0,
        }
    }
}

/// Assembles the application state the endpoints mount: the part of the
/// launch sequence that is the core's own. Reading the configuration and
/// attaching routes, file serving and cross-origin handling belong to the
/// I/O edge.
pub fn rocket() -> (c: Context)
    ensures
        c.broadcaster.wf(),
        c.broadcaster.capacity == DEFAULT_CAPACITY,
        c.broadcaster.total == 0,
        c.broadcaster.live == 0,
        !c.broadcaster.shut,
        c.broadcaster.hist@ =~= Seq::<Seq<char>>::empty(),
{
    Context::new()
}

} // verus!
