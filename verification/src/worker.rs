//! The single search worker and the events of the unified stream.
//!
//! One background execution context owns the transport.  Requests reach it
//! through a submission slot of depth one, so a submitter either hands its
//! request over at once or waits until the prior one was taken: natural
//! backpressure, no unbounded queue.  Completed fetches are published as
//! [`AppEvent::Results`] tagged with the request they answer; failed ones
//! are swallowed, leaving the consumer in its prior state.

use vstd::prelude::*;

use crate::crates_io::CrateSearchResponse;
use crate::crates_io::CratesSort;
use crate::input::InputEvent;

verus! {

/// One fetch for the worker, in the remote service's own pagination terms:
/// `page` is the 1-based remote page of `count` records each.
pub struct FetchRequest {
    pub term: String,
    pub page: u32,
    pub count: u32,
    pub sort: CratesSort,
}

/// Why a transport call failed.  Callers treat every variant as the same
/// "fetch failed" outcome; none is fatal, a retry is always allowed.
#[derive(Clone, Copy, Debug, PartialEq, Eq, Structural)]
pub enum TransportError {
    /// The connection could not be made or broke off.
    Connection,
    /// The service answered with a non-success status.
    Status,
    /// The response body could not be decoded.
    MalformedBody,
}

/// One event of the unified stream: the single ordered channel that merges
/// the keyboard decoder, the periodic ticker and the search worker for the
/// one consumer, the UI loop.
pub enum AppEvent {
    /// A key or terminal event.
    Input(InputEvent),
    /// The periodic tick that drives time-based UI state.
    Tick,
    /// A completed fetch: the request it answers and what came back.
    Results(FetchRequest, CrateSearchResponse),
}

/// The worker's bookkeeping: at most one submitted request waiting in the
/// slot and at most one being executed.
pub struct SearchWorker {
    slot: Option<FetchRequest>,
    in_flight: Option<FetchRequest>,
}

impl SearchWorker {
    /// The request submitted and not yet taken up, if any.
    pub closed spec fn spec_slot(&self) -> Option<FetchRequest> {
        self.slot
    }

    /// The request being executed, if any.
    pub closed spec fn spec_in_flight(&self) -> Option<FetchRequest> {
        self.in_flight
    }

    /// An idle worker.
    pub fn new() -> (r: Self)
        ensures
            r.spec_slot() is None,
            r.spec_in_flight() is None,
    {
        SearchWorker { slot: None, in_flight: None }
    }

    /// Offers a request.  It is accepted exactly when the slot is free;
    /// a refused submitter waits and offers it again, which is what bounds
    /// the queue at depth one.
    pub fn try_submit(&mut self, req: FetchRequest) -> (accepted: bool)
        ensures
            accepted == (old(self).spec_slot() is None),
            accepted ==> final(self).spec_slot() == Some(req),
            !accepted ==> final(self).spec_slot() == old(self).spec_slot(),
            final(self).spec_in_flight() == old(self).spec_in_flight(),
    {
        if self.slot.is_none() {
            self.slot = Some(req);
            true
        } else {
            false
        }
    }

    /// Moves the waiting request, if any, into execution.  Only an idle
    /// worker takes up the next request: one fetch is in flight at a time.
    pub fn begin_next(&mut self) -> (started: bool)
        requires
            old(self).spec_in_flight() is None,
        ensures
            started == (old(self).spec_slot() is Some),
            final(self).spec_in_flight() == old(self).spec_slot(),
            final(self).spec_slot() is None,
    {
        self.in_flight = self.slot.take();
        self.in_flight.is_some()
    }

    /// The request being executed, for the caller that performs it.
    pub fn current(&self) -> (r: Option<&FetchRequest>)
        ensures
            match r {
                Some(req) => self.spec_in_flight() == Some(*req),
                None => self.spec_in_flight() is None,
            },
    {
        self.in_flight.as_ref()
    }

    /// Ends the fetch in flight.  A success becomes a `Results` event for
    /// the unified stream, tagged with its request; a failure is swallowed
    /// — no event, the user's recourse is to re-trigger the action.
    pub fn finish(&mut self, outcome: Result<CrateSearchResponse, TransportError>) -> (r: Option<
        AppEvent,
    >)
        requires
            old(self).spec_in_flight() is Some,
        ensures
            final(self).spec_in_flight() is None,
            final(self).spec_slot() == old(self).spec_slot(),
            match outcome {
                Ok(resp) => r == Some(
                    AppEvent::Results(old(self).spec_in_flight()->Some_0, resp),
                ),
                Err(_) => r is None,
            },
    {
        let req = self.in_flight.take().unwrap();
        match outcome {
            Ok(resp) => Some(AppEvent::Results(req, resp)),
            Err(_) => None,
        }
    }
}

} // verus!
