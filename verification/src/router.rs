//! The decision a router takes when it attempts the next hop of an envelope.

use crate::delay::RetryPolicy;
use crate::envelope::{Envelope, Malformed};
use crate::lifecycle::{Admission, Status};
use crate::route::Route;
use vstd::prelude::*;

verus! {

/// Why an envelope could not be delivered. A router reports one of these to
/// the producer, and never the state of the endpoint itself.
#[derive(Debug, Clone, Copy, PartialEq, Eq, Structural)]
pub enum DeliveryFailure {
    /// The endpoint of the next hop will not accept envelopes.
    EndpointDown,
    /// The endpoint of the next hop stayed unready for as long as the retry
    /// policy holds an envelope.
    RetriesExhausted,
}

/// What became of an envelope at one attempt to route it.
#[derive(Debug, Clone, PartialEq, Eq)]
pub enum Dispatch {
    /// The hop was completed: the route left the slip and goes to its target.
    Forwarded(Route),
    /// No hop was left: the envelope has reached its final consumer.
    Delivered,
    /// The envelope waits for its release time, this many milliseconds away.
    Delayed(u64),
    /// The endpoint is not ready: the envelope is held for this many
    /// milliseconds and then tried again.
    Held(u64),
    /// The envelope is dropped, and the producer is told why.
    Failed(DeliveryFailure),
    /// The envelope was not fit to be routed, and nothing was done with it.
    Rejected(Malformed),
}

/// A route, marked as completed.
pub open spec fn completed(r: Route) -> Route {
    Route { _routed: true, ..r }
}

/// What becomes of an envelope whose slip holds `routes` when the endpoint of
/// its next hop is in a state of class `target`.
///
/// An empty slip means delivery if routing had started, and a malformed
/// envelope if not. Otherwise the hop on top goes ahead if the endpoint is
/// admissible and the release time has come; the envelope waits if it has
/// not; it is held, as long as `policy` holds it, if the endpoint is
/// temporarily inadmissible; and it fails in every other case.
pub open spec fn dispatch_of(
    routes: Seq<Route>,
    started: bool,
    target: Admission,
    now: u64,
    release_time: u64,
    holds: u32,
    policy: RetryPolicy,
) -> Dispatch {
    if routes.len() == 0 {
        if started {
            Dispatch::Delivered
        } else {
            Dispatch::Rejected(Malformed::EmptySlip)
        }
    } else {
        match target {
            Admission::Admissible => if now >= release_time {
                Dispatch::Forwarded(completed(routes.last()))
            } else {
                Dispatch::Delayed((release_time - now) as u64)
            },
            Admission::TemporarilyInadmissible => match policy.wait_of(holds as nat) {
                Some(wait) => Dispatch::Held(wait),
                None => Dispatch::Failed(DeliveryFailure::RetriesExhausted),
            },
            Admission::TerminallyInadmissible => Dispatch::Failed(DeliveryFailure::EndpointDown),
        }
    }
}

impl Dispatch {
    /// The route that was completed, if one was.
    pub fn into_route(self) -> (r: Option<Route>)
        ensures
            r == match self {
                Dispatch::Forwarded(hop) => Some(hop),
                _ => None::<Route>,
            },
    {
        match self {
            Dispatch::Forwarded(hop) => Some(hop),
            _ => None,
        }
    }
}

/// Attempts the next hop of `env` at time `now`.
///
/// `target` is the state of the endpoint that the current route names,
/// `release_time` the time before which the envelope must not leave, and
/// `holds` the number of times it has been held for this hop already. The
/// slip is looked at anew at every attempt, so that routes added in flight
/// are honoured.
///
/// Only a hop that goes ahead changes the envelope: its route leaves the
/// slip, marked as completed, and the slip counts as started. In every other
/// case the envelope is as it was.
pub fn route<S: Status>(
    env: &mut Envelope,
    target: S,
    now: u64,
    release_time: u64,
    holds: u32,
    policy: &RetryPolicy,
) -> (d: Dispatch)
    ensures
        d == dispatch_of(
            old(env).slip@,
            old(env).slip.started(),
            target.admission_class(),
            now,
            release_time,
            holds,
            *policy,
        ),
        d is Forwarded ==> final(env).slip@ == old(env).slip@.drop_last()
            && final(env).slip.started(),
        !(d is Forwarded) ==> final(env).slip == old(env).slip,
        final(env).id == old(env).id,
        final(env).delay_until == old(env).delay_until,
        final(env).min_delay == old(env).min_delay,
        final(env).max_delay == old(env).max_delay,
        final(env).headers == old(env).headers,
        final(env).payload == old(env).payload,
{
    if env.slip.number_remaining_routes() == 0 {
        return if env.slip.in_progress() {
            Dispatch::Delivered
        } else {
            Dispatch::Rejected(Malformed::EmptySlip)
        };
    }
    match target.admission() {
        Admission::Admissible => {
            if now >= release_time {
                let mut hop = env.slip.end_route().unwrap();
                hop._routed = true;
                env.slip.start();
                Dispatch::Forwarded(hop)
            } else {
                Dispatch::Delayed(release_time - now)
            }
        },
        Admission::TemporarilyInadmissible => match policy.wait(holds) {
            Some(wait) => Dispatch::Held(wait),
            None => Dispatch::Failed(DeliveryFailure::RetriesExhausted),
        },
        Admission::TerminallyInadmissible => Dispatch::Failed(DeliveryFailure::EndpointDown),
    }
}

} // verus!
