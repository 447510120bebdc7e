//! The daemon's main loop, one event at a time.
//!
//! Listening, sleeping and spawning are the caller's. What is decided here
//! is what each event does to the store and to the backends, and what is
//! written back on a management connection.

use vstd::prelude::*;
use crate::clock::Timestamp;
use crate::server::backend::{Backend, Statistics};
use crate::server::backends::console::{console_flushed, Console};
use crate::server::backends::graphite::{graphite_flushed, Graphite};
use crate::server::buckets::{flushed, ingested, spec_management, Buckets};
use crate::server::config::Config;
use crate::text::{lit, push_bytes};

verus! {

/// What the main loop is woken by. `C` is a management connection that was
/// accepted and not yet read.
pub enum Event<C> {
    FlushTimer,
    UdpMessage(Vec<u8>),
    TcpMessage(C),
}

/// The configured backends, in the order in which they are flushed.
pub struct Backends {
    pub graphite: Option<Graphite>,
    pub console: Option<Console>,
}

impl Backends {
    /// The backends that `config` enables, none of which has flushed yet.
    pub fn of(config: &Config) -> (r: Backends)
        ensures
            r.graphite is Some <==> config.graphite is Some,
            r.console is Some <==> config.console,
            r.graphite matches Some(g) ==> g.last_flush_time == 0 && g.last_flush_length == 0
                && g.prefix@ == Seq::<u8>::empty(),
            r.console matches Some(c) ==> c.last_flush_time == 0 && c.last_flush_length == 0,
    {
        Backends {
            graphite: if config.graphite.is_some() {
                Some(Graphite::new())
            } else {
                None
            },
            console: if config.console {
                Some(Console::new())
            } else {
                None
            },
        }
    }

    /// One flush: Graphite, where it is enabled, is given the store and
    /// `send`; then the console, where it is enabled, is given the store
    /// and `print`; then the store is emptied.
    pub fn flush<F, S, P, Q>(
        &mut self,
        buckets: &mut Buckets,
        show: F,
        summarize: S,
        send: P,
        print: Q,
    ) where
        F: Fn(u64) -> Vec<u8> + Copy,
        S: Fn(Vec<u64>) -> Statistics + Copy,
        P: FnOnce(Vec<u8>),
        Q: FnOnce(Vec<u8>),

        requires
            forall|bits: u64| show.requires((bits,)),
            forall|list: Vec<u64>| summarize.requires((list,)),
            forall|text: Vec<u8>| send.requires((text,)),
            forall|text: Vec<u8>| print.requires((text,)),
        ensures
            final(buckets)@ == flushed(old(buckets)@),
            match old(self).graphite {
                Some(before) => final(self).graphite matches Some(after) && graphite_flushed(
                    before,
                    after,
                    old(buckets)@,
                    show,
                    summarize,
                    send,
                ),
                None => final(self).graphite is None,
            },
            match old(self).console {
                Some(before) => final(self).console matches Some(after) && after.last_flush_time
                    == before.last_flush_time && after.last_flush_length
                    == before.last_flush_length && console_flushed(
                    old(buckets)@,
                    show,
                    summarize,
                    print,
                ),
                None => final(self).console is None,
            },
    {
        match &mut self.graphite {
            Some(graphite) => {
                graphite.flush_buckets(&*buckets, show, summarize, send);
            },
            None => {},
        }
        match &mut self.console {
            Some(console) => {
                console.flush_buckets(&*buckets, show, summarize, print);
            },
            None => {},
        }
        buckets.flush();
    }
}

/// What one management line is answered with on the wire: the response and
/// a newline.
pub fn reply(buckets: &mut Buckets, line: &[u8]) -> (r: (Vec<u8>, bool))
    ensures
        exists|now: Timestamp|
            {
                let answer = #[trigger] spec_management(old(buckets)@, line@, now);
                &&& r.0@ == answer.0 + lit("\n")
                &&& r.1 == answer.1
                &&& final(buckets)@ == answer.2
            },
{
    let (mut response, close) = buckets.do_management_line(line);
    let ghost answered = response@;
    push_bytes(&mut response, "\n".as_bytes());
    proof {
        let now = choose|now: Timestamp|
            (answered, close, final(buckets)@) == #[trigger] spec_management(
                old(buckets)@,
                line@,
                now,
            );
        assert(response@ == spec_management(old(buckets)@, line@, now).0 + lit("\n"));
    }
    (response, close)
}

/// One turn of the main loop. A flush tick flushes the backends and then
/// the store. A datagram is taken into the store. A connection changes
/// nothing and is handed back, for the caller to serve it on the side.
pub fn handle_event<C, N, G, F, S, P, Q>(
    buckets: &mut Buckets,
    backends: &mut Backends,
    event: Event<C>,
    number: N,
    accumulate: G,
    show: F,
    summarize: S,
    send: P,
    print: Q,
) -> (r: Option<C>) where
    N: Fn(Vec<u8>) -> Option<u64>,
    G: Fn(u64, u64, u64) -> u64,
    F: Fn(u64) -> Vec<u8> + Copy,
    S: Fn(Vec<u64>) -> Statistics + Copy,
    P: FnOnce(Vec<u8>),
    Q: FnOnce(Vec<u8>),

    requires
        forall|t: Vec<u8>| number.requires((t,)),
        forall|acc: u64, value: u64, rate: u64| accumulate.requires((acc, value, rate)),
        forall|bits: u64| show.requires((bits,)),
        forall|list: Vec<u64>| summarize.requires((list,)),
        forall|text: Vec<u8>| send.requires((text,)),
        forall|text: Vec<u8>| print.requires((text,)),
    ensures
        match event {
            Event::FlushTimer => {
                &&& r is None
                &&& final(buckets)@ == flushed(old(buckets)@)
                &&& old(backends).graphite matches Some(before) ==> {
                    &&& final(backends).graphite matches Some(after)
                    &&& graphite_flushed(before, after, old(buckets)@, show, summarize, send)
                }
                &&& old(backends).console is Some ==> console_flushed(
                    old(buckets)@,
                    show,
                    summarize,
                    print,
                )
            },
            Event::UdpMessage(bytes) => {
                &&& r is None
                &&& ingested(old(buckets)@, bytes@, number, accumulate, final(buckets)@)
                &&& *final(backends) == *old(backends)
            },
            Event::TcpMessage(connection) => {
                &&& r == Some(connection)
                &&& final(buckets)@ == old(buckets)@
                &&& *final(backends) == *old(backends)
            },
        },
{
    match event {
        Event::FlushTimer => {
            backends.flush(buckets, show, summarize, send, print);
            None
        },
        Event::UdpMessage(bytes) => {
            buckets.handle_message(bytes.as_slice(), number, accumulate);
            None
        },
        Event::TcpMessage(connection) => Some(connection),
    }
}

} // verus!
