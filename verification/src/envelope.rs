//! The envelope: a message with its routing slip and its delay parameters.

use crate::route::Route;
use crate::slip::Slip;
use rand::Rng;
use std::collections::HashMap;
use vstd::prelude::*;

verus! {

/// Why an envelope is not fit to be routed.
#[derive(Debug, Clone, Copy, PartialEq, Eq, Structural)]
pub enum Malformed {
    /// The routing slip holds no route.
    EmptySlip,
    /// The least delay is greater than the greatest.
    DelayRange,
}

/// A message on its way: the payload, the slip of hops it still has to
/// traverse, headers that assist routing, and the delay it asks for.
///
/// Times are in milliseconds. `delay_until` is a point in time since the
/// epoch, `0` for none. At each hop the envelope is kept back until then, and
/// after that for a delay picked between `min_delay` and `max_delay`.
#[derive(Debug)]
pub struct Envelope {
    pub id: u64,
    /// A stack-based routing slip that can be added to at any time before
    /// routing completes.
    pub slip: Slip<Route>,
    pub delay_until: u64,
    pub min_delay: u64,
    pub max_delay: u64,
    /// Metadata that assists routing.
    pub headers: HashMap<String, String>,
    /// The data being sent.
    pub payload: Option<String>,
}

/// Draws an identifier from `rand`'s thread-local generator, by `Rng::gen`.
/// Nothing is claimed of the number drawn.
#[verifier::external_body]
fn fresh_id() -> u64 {
    rand::thread_rng().gen()
}

impl Envelope {
    /// The delay range is in order: the least delay is not greater than the
    /// greatest.
    pub open spec fn well_formed(&self) -> bool {
        self.min_delay <= self.max_delay
    }

    /// The envelope carries nothing yet: no route, no header, no payload.
    pub open spec fn is_blank(&self) -> bool {
        &&& self.slip@ == Seq::<Route>::empty()
        &&& !self.slip.started()
        &&& self.headers@ == Map::<String, String>::empty()
        &&& self.payload is None
    }

    /// What keeps the envelope from being routed, if anything does.
    pub open spec fn defect(&self) -> Option<Malformed> {
        if self.slip@.len() == 0 {
            Some(Malformed::EmptySlip)
        } else if self.min_delay > self.max_delay {
            Some(Malformed::DelayRange)
        } else {
            None
        }
    }

    /// A blank envelope with the identifier and the delay parameters given.
    /// A delay range that is out of order is refused.
    pub fn with_id(id: u64, delay_until: u64, min_delay: u64, max_delay: u64) -> (r: Result<
        Envelope,
        Malformed,
    >)
        ensures
            min_delay > max_delay ==> r == Err::<Envelope, Malformed>(Malformed::DelayRange),
            min_delay <= max_delay ==> r is Ok && r->Ok_0.is_blank() && r->Ok_0.id == id
                && r->Ok_0.delay_until == delay_until && r->Ok_0.min_delay == min_delay
                && r->Ok_0.max_delay == max_delay,
    {
        if min_delay > max_delay {
            return Err(Malformed::DelayRange);
        }
        Ok(
            Envelope {
                id,
                slip: Slip::new(),
                delay_until,
                min_delay,
                max_delay,
                headers: HashMap::new(),
                payload: None,
            },
        )
    }

    /// A blank envelope that asks for no delay, under an identifier drawn at
    /// random.
    pub fn new() -> (env: Box<Envelope>)
        ensures
            env.is_blank(),
            env.delay_until == 0,
            env.min_delay == 0,
            env.max_delay == 0,
    {
        let id = fresh_id();
        Box::new(
            Envelope {
                id,
                slip: Slip::new(),
                delay_until: 0,
                min_delay: 0,
                max_delay: 0,
                headers: HashMap::new(),
                payload: None,
            },
        )
    }

    /// A blank envelope with the delay parameters given, under an identifier
    /// drawn at random. A delay range that is out of order is refused.
    pub fn with_delay(delay_until: u64, min_delay: u64, max_delay: u64) -> (r: Result<
        Box<Envelope>,
        Malformed,
    >)
        ensures
            min_delay > max_delay ==> r == Err::<Box<Envelope>, Malformed>(Malformed::DelayRange),
            min_delay <= max_delay ==> r is Ok && r->Ok_0.is_blank() && r->Ok_0.delay_until
                == delay_until && r->Ok_0.min_delay == min_delay && r->Ok_0.max_delay
                == max_delay,
    {
        let id = fresh_id();
        match Envelope::with_id(id, delay_until, min_delay, max_delay) {
            Ok(env) => Ok(Box::new(env)),
            Err(e) => Err(e),
        }
    }

    /// Says whether the envelope may be handed over for routing: it must hold
    /// at least one route, and its delay range must be in order.
    pub fn validate(&self) -> (r: Result<(), Malformed>)
        ensures
            r == match self.defect() {
                Some(m) => Err::<(), Malformed>(m),
                None => Ok::<(), Malformed>(()),
            },
    {
        if self.slip.number_remaining_routes() == 0 {
            Err(Malformed::EmptySlip)
        } else if self.min_delay > self.max_delay {
            Err(Malformed::DelayRange)
        } else {
            Ok(())
        }
    }

    /// Whether the producer may still take the envelope back: it may until
    /// the last route has been ended.
    pub fn can_retract(&self) -> (b: bool)
        ensures
            b == (self.slip@.len() > 0),
    {
        self.slip.number_remaining_routes() > 0
    }
}

} // verus!
