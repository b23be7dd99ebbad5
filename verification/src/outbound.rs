//! The outbound request registry: the one owner of the map from caller-chosen
//! request identifier to the cancellation token its in-flight call races
//! against, plus the resolution of that race. An entry lives exactly as long
//! as its call: `begin` files it right before the call starts and `end`
//! clears it on every exit path, so a later cancel for the same identifier is
//! a no-op rather than a stray signal.
use vstd::prelude::*;

use crate::errors::CoreError;
use crate::http::HttpResponse;
use crate::store::StrMap;

verus! {

/// The in-flight outbound calls that can still be cancelled, keyed by
/// request identifier; the value is the token the call races against.
pub struct OutboundRegistry {
    tokens: StrMap<u64>,
}

impl View for OutboundRegistry {
    type V = Map<Seq<char>, u64>;

    closed spec fn view(&self) -> Map<Seq<char>, u64> {
        self.tokens@
    }
}

impl OutboundRegistry {
    /// Well-formedness of the backing store; constructors establish it and
    /// every operation preserves it.
    pub closed spec fn wf(&self) -> bool {
        self.tokens.wf()
    }

    /// A registry with no in-flight calls.
    pub fn new() -> (r: OutboundRegistry)
        ensures
            r.wf(),
            r@ == Map::<Seq<char>, u64>::empty(),
    {
        OutboundRegistry { tokens: StrMap::new() }
    }

    /// Whether a call under `request_id` can still be cancelled.
    pub fn is_pending(&self, request_id: &String) -> (r: bool)
        requires
            self.wf(),
        ensures
            r == self@.contains_key(request_id@),
    {
        self.tokens.contains_key(request_id)
    }

    /// Files `token` under `request_id` right before its call begins. A call
    /// without an identifier is filed nowhere: no cancel can ever reach its
    /// token, so the call is uncancellable.
    pub fn begin(&mut self, request_id: &Option<String>, token: u64)
        requires
            old(self).wf(),
        ensures
            final(self).wf(),
            match request_id {
                Some(id) => final(self)@ == old(self)@.insert(id@, token),
                None => final(self)@ == old(self)@,
            },
    {
        match request_id {
            Some(id) => self.tokens.insert(id.clone(), token),
            None => (),
        }
    }

    /// Clears the entry for `request_id` once its call finished, failed or
    /// was cancelled. Called exactly once per `begin`, on every exit path,
    /// so no stale entry outlives its call.
    pub fn end(&mut self, request_id: &Option<String>)
        requires
            old(self).wf(),
        ensures
            final(self).wf(),
            match request_id {
                Some(id) => final(self)@ == old(self)@.remove(id@),
                None => final(self)@ == old(self)@,
            },
    {
        match request_id {
            Some(id) => {
                let _ = self.tokens.remove(id);
            },
            None => (),
        }
    }

    /// Cancels the call under `request_id`: hands back the token to fire if
    /// one is filed, and clears the entry. Cancelling an unknown or
    /// already-completed identifier is a silent no-op, never an error, and
    /// has no side effect.
    pub fn cancel(&mut self, request_id: &String) -> (fired: Option<u64>)
        requires
            old(self).wf(),
        ensures
            final(self).wf(),
            final(self)@ == old(self)@.remove(request_id@),
            !final(self)@.contains_key(request_id@),
            match fired {
                Some(t) => old(self)@.contains_key(request_id@) && t == old(self)@[request_id@],
                None => !old(self)@.contains_key(request_id@) && final(self)@ == old(self)@,
            },
    {
        let r = self.tokens.remove(request_id);
        proof {
            if !old(self)@.contains_key(request_id@) {
                assert(old(self)@.remove(request_id@) =~= old(self)@);
            }
        }
        r
    }
}

/// What an outbound call resolves to once the race between the call and its
/// cancellation token settles: whichever completed first wins, and a
/// cancellation that wins is the distinct cancelled outcome, never folded
/// into a transport failure.
pub open spec fn spec_resolve(
    cancelled_first: bool,
    outcome: Result<HttpResponse, CoreError>,
) -> Result<HttpResponse, CoreError> {
    if cancelled_first {
        Result::Err(CoreError::Cancelled)
    } else {
        outcome
    }
}

/// Settles the race between a call's own outcome and its cancellation token.
pub fn resolve_race(cancelled_first: bool, outcome: Result<HttpResponse, CoreError>) -> (r: Result<
    HttpResponse,
    CoreError,
>)
    ensures
        r == spec_resolve(cancelled_first, outcome),
{
    if cancelled_first {
        Err(CoreError::Cancelled)
    } else {
        outcome
    }
}

/// A cancellation fired while its call is still in flight resolves the call
/// to the cancelled outcome — distinguishable from any transport failure —
/// and afterward the registry no longer holds the identifier.
pub proof fn lemma_cancel_wins(
    m: Map<Seq<char>, u64>,
    id: Seq<char>,
    outcome: Result<HttpResponse, CoreError>,
)
    ensures
        spec_resolve(true, outcome) matches Result::Err(e) && e is Cancelled,
        !(spec_resolve(true, outcome) matches Result::Err(e) && e is TransportError),
        !m.remove(id).contains_key(id),
{
}

} // verus!
