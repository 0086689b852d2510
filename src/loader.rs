//! The debounced loader of a section's names.
//!
//! Each request takes a fresh token and overwrites the shared "last
//! requested" token. After the debounce pause a request goes on only if the
//! shared token is still its own: a newer request has superseded it otherwise.
use vstd::prelude::*;
use crate::events::{Event, InternalEvent};

verus! {

/// Relies on `uuid::Uuid::new_v4` (read as `u128` by `Uuid::as_u128`): a
/// random token; nothing is promised of its value.
#[verifier::external_body]
fn new_token() -> (r: u128) {
    uuid::Uuid::new_v4().as_u128()
}

/// A load of `section`, identified by `token`.
#[derive(Clone, Copy, PartialEq, Eq, Structural, Debug)]
pub struct LoadRequest {
    pub token: u128,
    pub section: usize,
}

/// The token of the most recent request.
#[derive(Clone, Copy, PartialEq, Eq, Structural, Debug)]
pub struct Debouncer {
    pub last: u128,
}

/// A request goes on to the fetch when the shared token still names it.
pub open spec fn goes_on(last: u128, req: LoadRequest) -> bool {
    last == req.token
}

/// The shared token after `reqs` were issued in turn, starting from `last`.
pub open spec fn last_after(last: u128, reqs: Seq<LoadRequest>) -> u128 {
    if reqs.len() == 0 {
        last
    } else {
        reqs.last().token
    }
}

impl Debouncer {
    /// A debouncer whose token names no request yet.
    pub fn new() -> (r: Self) {
        Debouncer { last: new_token() }
    }

    /// Issues a load of `section`: a fresh token, which becomes the last one.
    pub fn request(&mut self, section: usize) -> (r: LoadRequest)
        ensures
            r.section == section,
            final(self).last == r.token,
    {
        let token = new_token();
        self.last = token;
        LoadRequest { token, section }
    }

    /// Whether `req`, woken after the pause, should fetch: it is still the
    /// most recent request.
    pub fn should_load(&self, req: &LoadRequest) -> (r: bool)
        ensures
            r == goes_on(self.last, *req),
    {
        self.last == req.token
    }
}

/// The event that delivers the outcome of a fetch for `req`; a failed fetch
/// delivers no names.
pub fn loaded_event(req: &LoadRequest, fetched: Option<Vec<String>>) -> (r: Event)
    ensures
        r matches Event::Internal(InternalEvent::Loaded((names, section))) && section == req.section
            && names@ == match fetched {
            Some(v) => v@,
            None => Seq::<String>::empty(),
        },
{
    let names = match fetched {
        Some(v) => v,
        None => Vec::new(),
    };
    Event::Internal(InternalEvent::Loaded((names, req.section)))
}

/// Of requests issued in quick succession, each with a token of its own,
/// only the last goes on once the pause is over: every earlier one finds the
/// shared token replaced and stops.
pub proof fn lemma_only_latest_goes_on(start: u128, reqs: Seq<LoadRequest>)
    requires
        reqs.len() > 0,
        forall|i: int| 0 <= i < reqs.len() - 1 ==> #[trigger] reqs[i].token != reqs.last().token,
    ensures
        forall|i: int|
            0 <= i < reqs.len() ==> (#[trigger] goes_on(last_after(start, reqs), reqs[i]) <==> i
                == reqs.len() - 1),
{
}

} // verus!
