//! The client channel. A channel is a cheaply cloneable handle over a single
//! background worker that exclusively owns either one connection or a
//! balancer; every call goes through one bounded mailbox serviced by that
//! worker, so callers never need exclusive access to the multiplexer
//! underneath. This module models the mailbox, the worker's state and the
//! discovery feed as plain values; the tasks and sockets around them live in
//! the asynchronous shell.

use vstd::prelude::*;
use crate::Error;
use crate::balance::{Balancer, Change, fresh_entry};
use crate::endpoint::Endpoint;
use crate::uri::{Uri, uri_parse};

verus! {

/// The mailbox capacity used when the endpoint does not configure one.
pub const DEFAULT_BUFFER_SIZE: usize = 1024;

/// A bounded queue with one consumer. Submissions are accepted in order as
/// long as there is room; a full queue makes the submitter wait, which is
/// modelled as the submission not being accepted yet.
#[derive(Debug, Clone)]
pub struct Mailbox<T> {
    pub capacity: usize,
    pub queue: Vec<T>,
}

/// The queued items, first to be served first: the first item, then
/// whatever draining the rest yields. Repeatedly taking from a queue yields
/// exactly its items, in order (see `law_mailbox_fifo`).
pub open spec fn drain<T>(q: Seq<T>) -> Seq<T>
    decreases q.len(),
{
    if q.len() == 0 {
        Seq::empty()
    } else {
        seq![q[0]] + drain(q.subrange(1, q.len() as int))
    }
}

/// No accepted submission is lost or reordered: draining a queue yields
/// exactly the submissions it accepted, in submission order.
pub proof fn law_mailbox_fifo<T>(q: Seq<T>)
    ensures
        drain(q) == q,
    decreases q.len(),
{
    if q.len() > 0 {
        let rest = q.subrange(1, q.len() as int);
        law_mailbox_fifo(rest);
        assert(seq![q[0]] + rest =~= q);
    }
}

impl<T> Mailbox<T> {
    /// The queue never holds more than its capacity.
    pub open spec fn wf(&self) -> bool {
        self.queue@.len() <= self.capacity
    }

    pub fn new(capacity: usize) -> (m: Mailbox<T>)
        ensures
            m.wf(),
            m.capacity == capacity,
            m.queue@.len() == 0,
    {
        Mailbox { capacity, queue: Vec::new() }
    }

    /// Submit an item. It is accepted exactly when there is room now; an
    /// accepted item goes to the back of the queue and nothing else moves.
    /// A rejected submitter suspends and submits again later.
    pub fn submit(&mut self, item: T) -> (accepted: bool)
        requires
            old(self).wf(),
        ensures
            final(self).wf(),
            final(self).capacity == old(self).capacity,
            accepted <==> old(self).queue@.len() < old(self).capacity,
            accepted ==> final(self).queue@ == old(self).queue@.push(item),
            !accepted ==> final(self).queue@ == old(self).queue@,
    {
        if self.queue.len() < self.capacity {
            self.queue.push(item);
            true
        } else {
            false
        }
    }

    /// The mailbox closes once the last handle is dropped: the worker takes
    /// every still-queued item at once, in submission order — each queued
    /// call is answered with a closed-channel error rather than dropped —
    /// and exits. Nothing accepted is lost at shutdown.
    pub fn close(&mut self) -> (drained: Vec<T>)
        requires
            old(self).wf(),
        ensures
            final(self).wf(),
            final(self).capacity == old(self).capacity,
            final(self).queue@.len() == 0,
            drained@ == old(self).queue@,
    {
        let mut drained: Vec<T> = Vec::new();
        core::mem::swap(&mut self.queue, &mut drained);
        drained
    }

    /// The worker takes the next item: the one submitted earliest, leaving
    /// the rest in order; an empty mailbox yields nothing.
    pub fn take_next(&mut self) -> (r: Option<T>)
        requires
            old(self).wf(),
        ensures
            final(self).wf(),
            final(self).capacity == old(self).capacity,
            match r {
                Some(item) => old(self).queue@.len() > 0 && item == old(self).queue@[0]
                    && final(self).queue@ == old(self).queue@.subrange(
                    1,
                    old(self).queue@.len() as int,
                ),
                None => old(self).queue@.len() == 0 && final(self).queue@ == old(self).queue@,
            },
    {
        if self.queue.len() > 0 {
            let item = self.queue.remove(0);
            proof {
                assert(self.queue@ =~= old(self).queue@.subrange(1, old(self).queue@.len() as int));
            }
            Some(item)
        } else {
            None
        }
    }
}

/// The connection a channel's worker owns: still waiting for its first call,
/// or negotiated and carrying calls.
#[derive(Debug, Clone, Copy, PartialEq, Eq, Structural)]
pub enum ConnState {
    Lazy,
    Connected,
}

/// What the channel's single worker exclusively owns: one connection, or a
/// balancer over a discovered set of them.
#[derive(Debug, Clone)]
pub enum Backend {
    Single(ConnState),
    Balanced(Balancer),
}

/// The client handle: a bounded mailbox in front of one worker that owns the
/// backend. Clones of a channel share the worker and mailbox; nothing here
/// is per-clone state.
#[derive(Debug, Clone)]
pub struct Channel {
    pub mailbox: Mailbox<u64>,
    pub backend: Backend,
}

/// The mailbox capacity an endpoint asks for: its configured buffer size, or
/// the default.
pub open spec fn buffer_size_of(e: Endpoint) -> int {
    match e.buffer_size {
        Some(n) => n as int,
        None => DEFAULT_BUFFER_SIZE as int,
    }
}

/// Types a channel can be aimed at: anything that yields a target URI.
pub trait IntoUri: Sized {
    /// The characters of the URI text this value carries.
    spec fn uri_chars(&self) -> Seq<char>;

    /// What the value guarantees about itself before conversion.
    spec fn inv(&self) -> bool;

    /// Yield the target URI. Succeeds exactly when the text parses; anything
    /// else is an invalid-URI error carrying the text.
    fn into_uri(self) -> (r: Result<Uri, Error>)
        requires
            self.inv(),
        ensures
            r is Ok <==> uri_parse(self.uri_chars()) is Some,
            match r {
                Ok(u) => u.wf() && u.text@ == self.uri_chars(),
                Err(e) => (e matches Error::InvalidUri(t) && t@ == self.uri_chars()),
            },
    ;
}

impl IntoUri for Uri {
    open spec fn uri_chars(&self) -> Seq<char> {
        self.text@
    }

    open spec fn inv(&self) -> bool {
        self.wf()
    }

    fn into_uri(self) -> (r: Result<Uri, Error>) {
        Ok(self)
    }
}

impl IntoUri for String {
    open spec fn uri_chars(&self) -> Seq<char> {
        self@
    }

    open spec fn inv(&self) -> bool {
        true
    }

    fn into_uri(self) -> (r: Result<Uri, Error>) {
        Uri::parse(self)
    }
}

impl IntoUri for &'static str {
    open spec fn uri_chars(&self) -> Seq<char> {
        self@
    }

    open spec fn inv(&self) -> bool {
        true
    }

    fn into_uri(self) -> (r: Result<Uri, Error>) {
        Uri::parse(self.to_owned())
    }
}

impl Channel {
    /// The mailbox respects its bound and a balanced backend keeps its keys
    /// unique.
    pub open spec fn wf(&self) -> bool {
        &&& self.mailbox.wf()
        &&& (self.backend matches Backend::Balanced(b) ==> b.wf())
    }

    /// An endpoint builder aimed at the given target.
    pub fn builder<U: IntoUri>(uri: U) -> (r: Result<Endpoint, Error>)
        requires
            uri.inv(),
        ensures
            r is Ok <==> uri_parse(uri.uri_chars()) is Some,
            match r {
                Ok(e) => e.wf() && e.uri.text@ == uri.uri_chars() && e.has_default_options(),
                Err(err) => (err matches Error::InvalidUri(t) && t@ == uri.uri_chars()),
            },
    {
        match uri.into_uri() {
            Ok(u) => Endpoint::new(u),
            Err(e) => Err(e),
        }
    }

    /// The channel for a worker that owns one connection in the given state,
    /// with the mailbox the endpoint asks for.
    pub(crate) fn with_single(endpoint: &Endpoint, state: ConnState) -> (c: Channel)
        ensures
            c.wf(),
            c.backend == Backend::Single(state),
            c.mailbox.capacity == buffer_size_of(*endpoint),
            c.mailbox.queue@.len() == 0,
    {
        let capacity: usize = match endpoint.buffer_size {
            Some(n) => n,
            None => DEFAULT_BUFFER_SIZE,
        };
        Channel { mailbox: Mailbox::new(capacity), backend: Backend::Single(state) }
    }

    /// Balance across a fixed list of endpoints: every endpoint is inserted
    /// into the discovery set up front, keyed by its position, before any
    /// call is taken.
    pub fn balance_list(list: Vec<Endpoint>) -> (c: Channel)
        ensures
            c.wf(),
            c.mailbox.capacity == DEFAULT_BUFFER_SIZE,
            c.mailbox.queue@.len() == 0,
            match c.backend {
                Backend::Balanced(b) => b.entries@.len() == list@.len() && (forall|i: int|
                    0 <= i < list@.len() ==> b.entries@[i] == fresh_entry(i as u64, list@[i])),
                Backend::Single(_) => false,
            },
    {
        let ghost orig = list@;
        let mut rest = list;
        let mut balancer = Balancer::new();
        let mut key: u64 = 0;
        while rest.len() > 0
            invariant
                balancer.wf(),
                key <= orig.len(),
                rest@ == orig.subrange(key as int, orig.len() as int),
                balancer.entries@.len() == key,
                forall|i: int|
                    0 <= i < key ==> balancer.entries@[i] == fresh_entry(i as u64, orig[i]),
                forall|i: int| 0 <= i < key ==> (#[trigger] balancer.entries@[i]).key == i,
            decreases rest@.len(),
        {
            let endpoint = rest.remove(0);
            assert(endpoint == orig[key as int]);
            let ghost pre = balancer.entries@;
            proof {
                assert(forall|i: int| 0 <= i < pre.len() ==> (#[trigger] pre[i]).key != key);
            }
            balancer.apply_change(Change::Insert(key, endpoint));
            proof {
                assert(balancer.entries@ == pre.push(fresh_entry(key, endpoint)));
            }
            key = balancer.entries.len() as u64;
            proof {
                assert(rest@ =~= orig.subrange(key as int, orig.len() as int));
            }
        }
        Channel {
            mailbox: Mailbox::new(DEFAULT_BUFFER_SIZE),
            backend: Backend::Balanced(balancer),
        }
    }

    /// Balance across a changing set of endpoints: the channel starts with
    /// nothing discovered, and the returned feed carries the insert and
    /// remove events the balancer will consume, at most `capacity` of them
    /// queued at a time.
    pub fn balance_channel(capacity: usize) -> (r: (Channel, Mailbox<Change>))
        ensures
            r.0.wf(),
            r.0.mailbox.capacity == DEFAULT_BUFFER_SIZE,
            r.0.mailbox.queue@.len() == 0,
            match r.0.backend {
                Backend::Balanced(b) => b.entries@.len() == 0,
                Backend::Single(_) => false,
            },
            r.1.capacity == capacity,
            r.1.queue@.len() == 0,
    {
        let channel = Channel {
            mailbox: Mailbox::new(DEFAULT_BUFFER_SIZE),
            backend: Backend::Balanced(Balancer::new()),
        };
        (channel, Mailbox::new(capacity))
    }

    /// Submit a call into the mailbox: accepted in submission order whenever
    /// there is room, never reordered, and decoupled from the submitter once
    /// accepted.
    pub fn submit_call(&mut self, call: u64) -> (accepted: bool)
        requires
            old(self).wf(),
        ensures
            final(self).wf(),
            final(self).backend == old(self).backend,
            final(self).mailbox.capacity == old(self).mailbox.capacity,
            accepted <==> old(self).mailbox.queue@.len() < old(self).mailbox.capacity,
            accepted ==> final(self).mailbox.queue@ == old(self).mailbox.queue@.push(call),
            !accepted ==> final(self).mailbox.queue@ == old(self).mailbox.queue@,
    {
        self.mailbox.submit(call)
    }

    /// The deferred dial of a lazy connection, performed when its first call
    /// arrives. A completed handshake leaves the worker owning a connected
    /// multiplexer; a failure surfaces as that call's error and leaves the
    /// channel exactly as it was, so a later call simply dials again —
    /// nothing is corrupted for subsequent retries.
    pub fn dial_on_first_call(&mut self, handshake: Result<(), String>) -> (r: Result<(), Error>)
        requires
            old(self).wf(),
            old(self).backend == Backend::Single(ConnState::Lazy),
        ensures
            final(self).wf(),
            final(self).mailbox == old(self).mailbox,
            match handshake {
                Ok(()) => r is Ok && final(self).backend == Backend::Single(ConnState::Connected),
                Err(m) => r == Err::<(), Error>(Error::Other(m)) && final(self).backend == Backend::Single(
                    ConnState::Lazy,
                ),
            },
    {
        match handshake {
            Ok(()) => {
                self.backend = Backend::Single(ConnState::Connected);
                Ok(())
            },
            Err(m) => Err(Error::from_source(m)),
        }
    }

    /// The worker takes the earliest queued call, if any.
    pub fn next_call(&mut self) -> (r: Option<u64>)
        requires
            old(self).wf(),
        ensures
            final(self).wf(),
            final(self).backend == old(self).backend,
            final(self).mailbox.capacity == old(self).mailbox.capacity,
            match r {
                Some(call) => old(self).mailbox.queue@.len() > 0
                    && call == old(self).mailbox.queue@[0]
                    && final(self).mailbox.queue@ == old(self).mailbox.queue@.subrange(
                    1,
                    old(self).mailbox.queue@.len() as int,
                ),
                None => old(self).mailbox.queue@.len() == 0
                    && final(self).mailbox.queue@ == old(self).mailbox.queue@,
            },
    {
        self.mailbox.take_next()
    }
}

} // verus!
