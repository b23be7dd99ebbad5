//! The mock server registry: the one owner of the map from collection
//! identifier to running-server record. Starting is split around the bind,
//! which only the surrounding runtime can perform: `take_for_replace` clears
//! the prior entry and hands back its shutdown handle to signal, and
//! `record_started` files the new server once its listener is bound. A failed
//! bind between the two calls leaves no entry behind.
use vstd::prelude::*;

use crate::errors::CoreError;
use crate::router::MockRequestDefinition;
use crate::store::StrMap;

verus! {

/// One running mock server: its bound port, the rule set it serves (read-only
/// for its lifetime), and the handle that signals its graceful shutdown.
#[derive(Debug)]
pub struct RunningServer {
    pub port: u16,
    pub rules: Vec<MockRequestDefinition>,
    pub shutdown: u64,
}

/// The effect of a completed start on the registry's map: last start wins,
/// never additive.
pub open spec fn start_effect(
    m: Map<Seq<char>, RunningServer>,
    id: Seq<char>,
    s: RunningServer,
) -> Map<Seq<char>, RunningServer> {
    m.insert(id, s)
}

/// The registry of running mock servers, keyed by collection identifier.
pub struct MockServerRegistry {
    servers: StrMap<RunningServer>,
}

impl View for MockServerRegistry {
    type V = Map<Seq<char>, RunningServer>;

    closed spec fn view(&self) -> Map<Seq<char>, RunningServer> {
        self.servers@
    }
}

impl MockServerRegistry {
    /// Well-formedness of the backing store; constructors establish it and
    /// every operation preserves it.
    pub closed spec fn wf(&self) -> bool {
        self.servers.wf()
    }

    /// A registry with no running servers.
    pub fn new() -> (r: MockServerRegistry)
        ensures
            r.wf(),
            r@ == Map::<Seq<char>, RunningServer>::empty(),
    {
        MockServerRegistry { servers: StrMap::new() }
    }

    /// Whether a server currently runs for `collection_id`.
    pub fn is_running(&self, collection_id: &String) -> (r: bool)
        requires
            self.wf(),
        ensures
            r == self@.contains_key(collection_id@),
    {
        self.servers.contains_key(collection_id)
    }

    /// The record of the server running for `collection_id`, if any.
    pub fn lookup(&self, collection_id: &String) -> (r: Option<&RunningServer>)
        requires
            self.wf(),
        ensures
            match r {
                Some(s) => self@.contains_key(collection_id@) && *s == self@[collection_id@],
                None => !self@.contains_key(collection_id@),
            },
    {
        self.servers.get(collection_id)
    }

    /// First half of a start: clears any prior server for `collection_id` and
    /// hands back its shutdown handle, to be signalled best-effort before the
    /// new listener binds. Afterward no entry exists for the identifier, so a
    /// bind failure leaves none.
    pub fn take_for_replace(&mut self, collection_id: &String) -> (prior: Option<u64>)
        requires
            old(self).wf(),
        ensures
            final(self).wf(),
            final(self)@ == old(self)@.remove(collection_id@),
            match prior {
                Some(h) => old(self)@.contains_key(collection_id@) && h == old(
                    self,
                )@[collection_id@].shutdown,
                None => !old(self)@.contains_key(collection_id@),
            },
    {
        match self.servers.remove(collection_id) {
            Some(s) => Some(s.shutdown),
            None => None,
        }
    }

    /// Second half of a start, called once the listener is bound: records the
    /// new server under `collection_id`, replacing any prior entry, and leaves
    /// every other collection untouched.
    pub fn record_started(
        &mut self,
        collection_id: &String,
        port: u16,
        rules: Vec<MockRequestDefinition>,
        shutdown: u64,
    )
        requires
            old(self).wf(),
        ensures
            final(self).wf(),
            final(self)@ == start_effect(
                old(self)@,
                collection_id@,
                (RunningServer { port, rules, shutdown }),
            ),
    {
        self.servers.insert(collection_id.clone(), RunningServer { port, rules, shutdown });
    }

    /// Second half of a start, given the outcome of binding the listener: on
    /// success records the new server under its fresh shutdown handle; a bind
    /// failure is surfaced as a bind error, never swallowed, and changes
    /// nothing — right after `take_for_replace` that means no entry at all
    /// remains for the collection.
    pub fn complete_start(
        &mut self,
        collection_id: &String,
        port: u16,
        rules: Vec<MockRequestDefinition>,
        bind: Result<u64, String>,
    ) -> (r: Result<(), CoreError>)
        requires
            old(self).wf(),
        ensures
            final(self).wf(),
            bind matches Result::Ok(h) ==> r is Ok && final(self)@ == start_effect(
                old(self)@,
                collection_id@,
                (RunningServer { port, rules, shutdown: h }),
            ),
            bind matches Result::Err(d) ==> final(self)@ == old(self)@ && (r
                matches Result::Err(e) && e matches CoreError::BindError { port: p, detail }
                && p == port && detail@ == d@),
    {
        match bind {
            Ok(shutdown) => {
                self.record_started(collection_id, port, rules, shutdown);
                Ok(())
            },
            Err(detail) => Err(CoreError::BindError { port, detail }),
        }
    }

    /// Stops the server for `collection_id`: hands back its shutdown handle
    /// and removes the entry. Stopping a collection with no running server is
    /// an error — stop is not idempotent — and changes nothing.
    pub fn stop(&mut self, collection_id: &String) -> (r: Result<u64, CoreError>)
        requires
            old(self).wf(),
        ensures
            final(self).wf(),
            old(self)@.contains_key(collection_id@) ==> r is Ok && r->Ok_0 == old(
                self,
            )@[collection_id@].shutdown && final(self)@ == old(self)@.remove(collection_id@),
            !old(self)@.contains_key(collection_id@) ==> final(self)@ == old(self)@ && (r
                matches Result::Err(e) && e matches CoreError::NotRunning { collection }
                && collection@ == collection_id@),
    {
        match self.servers.remove(collection_id) {
            Some(s) => Ok(s.shutdown),
            None => {
                proof {
                    assert(old(self)@.remove(collection_id@) =~= old(self)@);
                }
                Err(CoreError::NotRunning { collection: collection_id.clone() })
            },
        }
    }
}

/// Starting a mock server for one collection twice — each start clearing the
/// prior entry and then recording its own — leaves exactly one server for
/// that collection, the one recorded last, with the last rule set; every
/// other collection keeps its record.
pub proof fn lemma_last_start_wins(
    m: Map<Seq<char>, RunningServer>,
    id: Seq<char>,
    s1: RunningServer,
    s2: RunningServer,
)
    ensures
        start_effect(start_effect(m.remove(id), id, s1).remove(id), id, s2) == start_effect(
            m.remove(id),
            id,
            s2,
        ),
        start_effect(start_effect(m.remove(id), id, s1).remove(id), id, s2)[id] == s2,
        forall|k: Seq<char>|
            k != id ==> #[trigger] start_effect(
                start_effect(m.remove(id), id, s1).remove(id),
                id,
                s2,
            ).contains_key(k) == m.contains_key(k),
{
    assert(start_effect(start_effect(m.remove(id), id, s1).remove(id), id, s2) =~= start_effect(
        m.remove(id),
        id,
        s2,
    ));
}

} // verus!
