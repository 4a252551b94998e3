//! The ping-pong protocol: round-trip and counter exchanges.
//!
//! Instants travel as milliseconds in unsigned 64-bit form. The protocol
//! state is one exchange counter that advances by one on every processed
//! request, wrapping at the domain boundary.

use vstd::prelude::*;

verus! {

/// A request: either a round-trip probe stamped with the sender's instant,
/// or a query for the exchange count.
pub enum PingPongRequest {
    Roundtrip(Box<PingPongRoundtripRequest>),
    Counter,
}

/// The payload of a round-trip request: the instant it was built, in
/// milliseconds.
pub struct PingPongRoundtripRequest {
    pub instant: u64,
}

/// A response: the round-trip echo, or the exchange count.
pub enum PingPongResponse {
    Roundtrip(Box<PingPongRoundtripResponse>),
    Counter(usize),
}

/// The payload of a round-trip response: the request's instant and the
/// instant the response was decided, in milliseconds.
pub struct PingPongRoundtripResponse {
    pub request_instant: u64,
    pub instant: u64,
}

impl PingPongRoundtripResponse {
    /// The round trip's duration in milliseconds: the response instant less
    /// the request instant, or zero when the request instant lies after the
    /// response instant.
    pub fn calculate_duration(&self) -> (r: u64)
        ensures
            r == if self.instant >= self.request_instant {
                self.instant - self.request_instant
            } else {
                0
            },
    {
        if self.instant >= self.request_instant {
            self.instant - self.request_instant
        } else {
            0
        }
    }
}

/// The failure type of request handling. The protocol has no failure of its
/// own — every request is answerable and the contracts promise `Ok` — but a
/// datatype needs at least one variant, so one uninhabited-in-practice
/// variant stands in.
#[derive(Debug)]
pub enum PingPongError {
    Never,
}

/// Relies on std::time::SystemTime::now and duration_since: the milliseconds
/// elapsed since the Unix epoch, zero if the clock reads earlier than the
/// epoch. The result depends on the clock, so nothing is promised of it.
#[verifier::external_body]
fn current_millis() -> u64 {
    match std::time::SystemTime::now().duration_since(std::time::UNIX_EPOCH) {
        Ok(d) => d.as_millis() as u64,
        Err(_) => 0,
    }
}

/// The ping-pong protocol state: the count of exchanges processed so far.
pub struct PingPongProtocol {
    counter: usize,
}

impl PingPongProtocol {
    /// The count of exchanges processed so far.
    pub closed spec fn count(&self) -> int {
        self.counter as int
    }

    /// A fresh protocol state with the exchange counter at zero.
    pub fn new() -> (r: Self)
        ensures
            r.count() == 0,
    {
        PingPongProtocol { counter: 0 }
    }

    /// Decides the response to one request, read at the given instant: a
    /// round-trip request is echoed back carrying both instants, a counter
    /// request is answered with the count so far. Either way the exchange
    /// counter advances by one, wrapping at the domain boundary.
    pub fn process_request(&mut self, request: PingPongRequest, now_millis: u64) -> (r: Result<
        PingPongResponse,
        PingPongError,
    >)
        ensures
            final(self).count() == if old(self).count() < usize::MAX {
                old(self).count() + 1
            } else {
                0
            },
            match request {
                PingPongRequest::Roundtrip(rr) => r matches Ok(PingPongResponse::Roundtrip(b))
                    && b.request_instant == rr.instant && b.instant == now_millis,
                PingPongRequest::Counter => r matches Ok(PingPongResponse::Counter(c)) && c as int
                    == old(self).count(),
            },
    {
        match request {
            PingPongRequest::Roundtrip(inner) => {
                let request_instant = inner.instant;
                let inner_response = PingPongRoundtripResponse {
                    request_instant,
                    instant: now_millis,
                };
                let response = PingPongResponse::Roundtrip(Box::new(inner_response));
                self.counter = self.counter.wrapping_add(1);
                Ok(response)
            },
            PingPongRequest::Counter => {
                let count = self.counter;
                self.counter = self.counter.wrapping_add(1);
                let response = PingPongResponse::Counter(count);
                Ok(response)
            },
        }
    }

    /// Builds a round-trip request stamped with the given instant.
    pub fn roundtrip_request_at(instant_millis: u64) -> (r: PingPongRequest)
        ensures
            r matches PingPongRequest::Roundtrip(b) && b.instant == instant_millis,
    {
        let inner_request = PingPongRoundtripRequest { instant: instant_millis };
        let boxed_request = Box::new(inner_request);
        PingPongRequest::Roundtrip(boxed_request)
    }

    /// Builds a round-trip request stamped with the current time.
    pub fn roundtrip_request() -> (r: PingPongRequest)
        ensures
            r is Roundtrip,
    {
        let instant = current_millis();
        Self::roundtrip_request_at(instant)
    }

    /// Builds a counter request.
    pub fn counter_request() -> (r: PingPongRequest)
        ensures
            r is Counter,
    {
        PingPongRequest::Counter
    }
}

} // verus!
