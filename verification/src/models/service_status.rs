//! Lifecycle states of a service, and the table of its legal transitions.

use crate::lifecycle::{
    legal_path, lemma_visited_is_legal_path, visited, Admission, Command, Status,
};
use vstd::prelude::*;

verus! {

/// The state of a service.
///
/// A service is brought up through `NotInitialized`, `Initializing`,
/// `Waiting` and `Starting` to `Running`, one state at a time. A liveness
/// signal from the running service makes it `Verified`. While it operates it
/// may become impaired and recover, or be paused and resumed. It is torn down
/// through `ShuttingDown` or `GracefullyShuttingDown`, and comes back only
/// through `Restarting` and `Initializing`. `GenError` can follow any state.
#[derive(Debug, Copy, Clone, PartialEq, Eq, Hash, Structural)]
pub enum ServiceStatus {
    /// Unknown, or not registered yet.
    Unregistered,
    /// Registered, nothing set up.
    NotInitialized,
    /// Setting up its configuration.
    Initializing,
    /// Waiting for a service it depends on to run.
    Waiting,
    Starting,
    /// Running normally.
    Running,
    /// Running, and a message from the service has confirmed it.
    Verified,
    /// Running in part, as expected.
    PartiallyRunning,
    /// Running in a degraded manner.
    DegradedRunning,
    /// Kept from being used.
    Blocked,
    /// Running, but likely in need of a restart.
    Unstable,
    /// Queueing new requests while those in process complete.
    Pausing,
    /// Queueing new requests; those from before the pause are done.
    Paused,
    /// Resuming normal operation.
    Unpausing,
    /// Forceful teardown under way: envelopes in flight may be lost.
    ShuttingDown,
    /// Clean teardown under way: every envelope in flight completes or fails
    /// with a notice.
    GracefullyShuttingDown,
    /// Torn down forcefully.
    Shutdown,
    /// Torn down cleanly.
    GracefullyShutdown,
    /// Coming back after a teardown or an error.
    Restarting,
    /// Not installed or not turned on.
    Unavailable,
    /// Failed; recovery goes through `Restarting`.
    GenError,
}

impl ServiceStatus {
    /// The number that stands for this state on the wire.
    pub open spec fn code_of(self) -> u8 {
        match self {
            ServiceStatus::Unregistered => 0,
            ServiceStatus::NotInitialized => 1,
            ServiceStatus::Initializing => 2,
            ServiceStatus::Waiting => 3,
            ServiceStatus::Starting => 4,
            ServiceStatus::Running => 5,
            ServiceStatus::Verified => 6,
            ServiceStatus::PartiallyRunning => 7,
            ServiceStatus::DegradedRunning => 8,
            ServiceStatus::Blocked => 9,
            ServiceStatus::Unstable => 10,
            ServiceStatus::Pausing => 11,
            ServiceStatus::Paused => 12,
            ServiceStatus::Unpausing => 13,
            ServiceStatus::ShuttingDown => 14,
            ServiceStatus::GracefullyShuttingDown => 15,
            ServiceStatus::Shutdown => 16,
            ServiceStatus::GracefullyShutdown => 17,
            ServiceStatus::Restarting => 18,
            ServiceStatus::Unavailable => 19,
            ServiceStatus::GenError => 20,
        }
    }

    /// The state that `code` stands for, if it stands for one.
    pub open spec fn with_code(code: u8) -> Option<ServiceStatus> {
        if code == 0 {
            Some(ServiceStatus::Unregistered)
        } else if code == 1 {
            Some(ServiceStatus::NotInitialized)
        } else if code == 2 {
            Some(ServiceStatus::Initializing)
        } else if code == 3 {
            Some(ServiceStatus::Waiting)
        } else if code == 4 {
            Some(ServiceStatus::Starting)
        } else if code == 5 {
            Some(ServiceStatus::Running)
        } else if code == 6 {
            Some(ServiceStatus::Verified)
        } else if code == 7 {
            Some(ServiceStatus::PartiallyRunning)
        } else if code == 8 {
            Some(ServiceStatus::DegradedRunning)
        } else if code == 9 {
            Some(ServiceStatus::Blocked)
        } else if code == 10 {
            Some(ServiceStatus::Unstable)
        } else if code == 11 {
            Some(ServiceStatus::Pausing)
        } else if code == 12 {
            Some(ServiceStatus::Paused)
        } else if code == 13 {
            Some(ServiceStatus::Unpausing)
        } else if code == 14 {
            Some(ServiceStatus::ShuttingDown)
        } else if code == 15 {
            Some(ServiceStatus::GracefullyShuttingDown)
        } else if code == 16 {
            Some(ServiceStatus::Shutdown)
        } else if code == 17 {
            Some(ServiceStatus::GracefullyShutdown)
        } else if code == 18 {
            Some(ServiceStatus::Restarting)
        } else if code == 19 {
            Some(ServiceStatus::Unavailable)
        } else if code == 20 {
            Some(ServiceStatus::GenError)
        } else {
            None
        }
    }

    /// The name of this state.
    pub open spec fn name(self) -> Seq<char> {
        match self {
            ServiceStatus::Unregistered => "Unregistered"@,
            ServiceStatus::NotInitialized => "NotInitialized"@,
            ServiceStatus::Initializing => "Initializing"@,
            ServiceStatus::Waiting => "Waiting"@,
            ServiceStatus::Starting => "Starting"@,
            ServiceStatus::Running => "Running"@,
            ServiceStatus::Verified => "Verified"@,
            ServiceStatus::PartiallyRunning => "PartiallyRunning"@,
            ServiceStatus::DegradedRunning => "DegradedRunning"@,
            ServiceStatus::Blocked => "Blocked"@,
            ServiceStatus::Unstable => "Unstable"@,
            ServiceStatus::Pausing => "Pausing"@,
            ServiceStatus::Paused => "Paused"@,
            ServiceStatus::Unpausing => "Unpausing"@,
            ServiceStatus::ShuttingDown => "ShuttingDown"@,
            ServiceStatus::GracefullyShuttingDown => "GracefullyShuttingDown"@,
            ServiceStatus::Shutdown => "Shutdown"@,
            ServiceStatus::GracefullyShutdown => "GracefullyShutdown"@,
            ServiceStatus::Restarting => "Restarting"@,
            ServiceStatus::Unavailable => "Unavailable"@,
            ServiceStatus::GenError => "GenError"@,
        }
    }

    /// The service operates, fully or not: it has been brought up and is
    /// neither paused nor being torn down.
    pub open spec fn is_operating(self) -> bool {
        self == ServiceStatus::Running || self == ServiceStatus::Verified || self.is_impaired()
    }

    /// The service operates, but not as it should.
    pub open spec fn is_impaired(self) -> bool {
        self == ServiceStatus::PartiallyRunning || self == ServiceStatus::DegradedRunning || self
            == ServiceStatus::Unstable || self == ServiceStatus::Blocked || self
            == ServiceStatus::Unavailable
    }

    /// A teardown is under way.
    pub open spec fn is_shutting_down(self) -> bool {
        self == ServiceStatus::ShuttingDown || self == ServiceStatus::GracefullyShuttingDown
    }

    /// A teardown has completed.
    pub open spec fn is_shut_down(self) -> bool {
        self == ServiceStatus::Shutdown || self == ServiceStatus::GracefullyShutdown
    }

    /// The service is being torn down, has been torn down, has failed, or is
    /// on its way back: it does not operate, and cannot without a restart.
    pub open spec fn is_down(self) -> bool {
        self.is_shutting_down() || self.is_shut_down() || self == ServiceStatus::Restarting || self
            == ServiceStatus::GenError
    }

    /// The teardown is or was forceful: envelopes in flight at the service
    /// are to be treated as lost.
    pub open spec fn forfeits_in_flight(self) -> bool {
        self == ServiceStatus::ShuttingDown || self == ServiceStatus::Shutdown
    }

    /// The successors of `self` other than `GenError`.
    pub open spec fn successor(self, next: ServiceStatus) -> bool {
        match self {
            ServiceStatus::Unregistered => next == ServiceStatus::NotInitialized,
            ServiceStatus::NotInitialized => next == ServiceStatus::Initializing,
            ServiceStatus::Initializing => next == ServiceStatus::Waiting
                || next.is_shutting_down(),
            ServiceStatus::Waiting => next == ServiceStatus::Starting || next.is_shutting_down(),
            ServiceStatus::Starting => next == ServiceStatus::Running || next.is_shutting_down(),
            ServiceStatus::Running => next == ServiceStatus::Verified || next.is_impaired() || next
                == ServiceStatus::Pausing || next.is_shutting_down(),
            ServiceStatus::Verified => next.is_impaired() || next == ServiceStatus::Pausing
                || next.is_shutting_down(),
            ServiceStatus::PartiallyRunning
            | ServiceStatus::DegradedRunning
            | ServiceStatus::Unstable
            | ServiceStatus::Blocked
            | ServiceStatus::Unavailable => next == ServiceStatus::Running || next.is_impaired()
                || next == ServiceStatus::Pausing || next.is_shutting_down(),
            ServiceStatus::Pausing => next == ServiceStatus::Paused || next.is_shutting_down(),
            ServiceStatus::Paused => next == ServiceStatus::Unpausing || next.is_shutting_down(),
            ServiceStatus::Unpausing => next == ServiceStatus::Running || next.is_shutting_down(),
            ServiceStatus::ShuttingDown => next == ServiceStatus::Shutdown,
            ServiceStatus::GracefullyShuttingDown => next == ServiceStatus::GracefullyShutdown,
            ServiceStatus::Shutdown | ServiceStatus::GracefullyShutdown => next
                == ServiceStatus::Restarting,
            ServiceStatus::Restarting => next == ServiceStatus::Initializing,
            ServiceStatus::GenError => next == ServiceStatus::Restarting
                || next.is_shutting_down(),
        }
    }

    /// The number that stands for this state on the wire.
    pub fn code(self) -> (c: u8)
        ensures
            c == self.code_of(),
    {
        match self {
            ServiceStatus::Unregistered => 0,
            ServiceStatus::NotInitialized => 1,
            ServiceStatus::Initializing => 2,
            ServiceStatus::Waiting => 3,
            ServiceStatus::Starting => 4,
            ServiceStatus::Running => 5,
            ServiceStatus::Verified => 6,
            ServiceStatus::PartiallyRunning => 7,
            ServiceStatus::DegradedRunning => 8,
            ServiceStatus::Blocked => 9,
            ServiceStatus::Unstable => 10,
            ServiceStatus::Pausing => 11,
            ServiceStatus::Paused => 12,
            ServiceStatus::Unpausing => 13,
            ServiceStatus::ShuttingDown => 14,
            ServiceStatus::GracefullyShuttingDown => 15,
            ServiceStatus::Shutdown => 16,
            ServiceStatus::GracefullyShutdown => 17,
            ServiceStatus::Restarting => 18,
            ServiceStatus::Unavailable => 19,
            ServiceStatus::GenError => 20,
        }
    }

    /// The name of this state.
    pub fn as_str(&self) -> (s: &'static str)
        ensures
            s@ == self.name(),
    {
        match *self {
            ServiceStatus::Unregistered => "Unregistered",
            ServiceStatus::NotInitialized => "NotInitialized",
            ServiceStatus::Initializing => "Initializing",
            ServiceStatus::Waiting => "Waiting",
            ServiceStatus::Starting => "Starting",
            ServiceStatus::Running => "Running",
            ServiceStatus::Verified => "Verified",
            ServiceStatus::PartiallyRunning => "PartiallyRunning",
            ServiceStatus::DegradedRunning => "DegradedRunning",
            ServiceStatus::Blocked => "Blocked",
            ServiceStatus::Unstable => "Unstable",
            ServiceStatus::Pausing => "Pausing",
            ServiceStatus::Paused => "Paused",
            ServiceStatus::Unpausing => "Unpausing",
            ServiceStatus::ShuttingDown => "ShuttingDown",
            ServiceStatus::GracefullyShuttingDown => "GracefullyShuttingDown",
            ServiceStatus::Shutdown => "Shutdown",
            ServiceStatus::GracefullyShutdown => "GracefullyShutdown",
            ServiceStatus::Restarting => "Restarting",
            ServiceStatus::Unavailable => "Unavailable",
            ServiceStatus::GenError => "GenError",
        }
    }

    /// Whether envelopes in flight at the service are to be treated as lost.
    pub fn loses_in_flight(self) -> (b: bool)
        ensures
            b == self.forfeits_in_flight(),
    {
        match self {
            ServiceStatus::ShuttingDown | ServiceStatus::Shutdown => true,
            _ => false,
        }
    }
}

impl TryFrom<u8> for ServiceStatus {
    type Error = ();

    fn try_from(code: u8) -> (r: Result<Self, ()>) {
        match code {
            0 => Ok(ServiceStatus::Unregistered),
            1 => Ok(ServiceStatus::NotInitialized),
            2 => Ok(ServiceStatus::Initializing),
            3 => Ok(ServiceStatus::Waiting),
            4 => Ok(ServiceStatus::Starting),
            5 => Ok(ServiceStatus::Running),
            6 => Ok(ServiceStatus::Verified),
            7 => Ok(ServiceStatus::PartiallyRunning),
            8 => Ok(ServiceStatus::DegradedRunning),
            9 => Ok(ServiceStatus::Blocked),
            10 => Ok(ServiceStatus::Unstable),
            11 => Ok(ServiceStatus::Pausing),
            12 => Ok(ServiceStatus::Paused),
            13 => Ok(ServiceStatus::Unpausing),
            14 => Ok(ServiceStatus::ShuttingDown),
            15 => Ok(ServiceStatus::GracefullyShuttingDown),
            16 => Ok(ServiceStatus::Shutdown),
            17 => Ok(ServiceStatus::GracefullyShutdown),
            18 => Ok(ServiceStatus::Restarting),
            19 => Ok(ServiceStatus::Unavailable),
            20 => Ok(ServiceStatus::GenError),
            _ => Err(()),
        }
    }
}

impl vstd::std_specs::convert::TryFromSpecImpl<u8> for ServiceStatus {
    open spec fn obeys_try_from_spec() -> bool {
        true
    }

    open spec fn try_from_spec(v: u8) -> Result<Self, ()> {
        match ServiceStatus::with_code(v) {
            Some(status) => Ok(status),
            None => Err(()),
        }
    }
}

impl Status for ServiceStatus {
    open spec fn permits(self, next: Self) -> bool {
        next != self && (next == ServiceStatus::GenError || self.successor(next))
    }

    open spec fn admission_class(self) -> Admission {
        match self {
            ServiceStatus::Running
            | ServiceStatus::Verified
            | ServiceStatus::PartiallyRunning
            | ServiceStatus::DegradedRunning => Admission::Admissible,
            ServiceStatus::GenError
            | ServiceStatus::Blocked
            | ServiceStatus::Shutdown
            | ServiceStatus::GracefullyShutdown => Admission::TerminallyInadmissible,
            _ => Admission::TemporarilyInadmissible,
        }
    }

    open spec fn entered_by(command: Command) -> Self {
        match command {
            Command::Start => ServiceStatus::Starting,
            Command::Restart => ServiceStatus::Restarting,
            Command::Pause => ServiceStatus::Pausing,
            Command::Unpause => ServiceStatus::Unpausing,
            Command::Stop => ServiceStatus::ShuttingDown,
            Command::GracefulStop => ServiceStatus::GracefullyShuttingDown,
        }
    }

    open spec fn unregistered() -> Self {
        ServiceStatus::Unregistered
    }

    fn can_transition_to(self, next: Self) -> (b: bool) {
        let stopping = match next {
            ServiceStatus::ShuttingDown | ServiceStatus::GracefullyShuttingDown => true,
            _ => false,
        };
        let impaired = match next {
            ServiceStatus::PartiallyRunning
            | ServiceStatus::DegradedRunning
            | ServiceStatus::Unstable
            | ServiceStatus::Blocked
            | ServiceStatus::Unavailable => true,
            _ => false,
        };
        if self == next {
            return false;
        }
        match (self, next) {
            (_, ServiceStatus::GenError) => true,
            (ServiceStatus::Unregistered, ServiceStatus::NotInitialized) => true,
            (ServiceStatus::Unregistered, _) => false,
            (ServiceStatus::NotInitialized, ServiceStatus::Initializing) => true,
            (ServiceStatus::NotInitialized, _) => false,
            (ServiceStatus::ShuttingDown, ServiceStatus::Shutdown) => true,
            (ServiceStatus::ShuttingDown, _) => false,
            (ServiceStatus::GracefullyShuttingDown, ServiceStatus::GracefullyShutdown) => true,
            (ServiceStatus::GracefullyShuttingDown, _) => false,
            (ServiceStatus::Shutdown, ServiceStatus::Restarting) => true,
            (ServiceStatus::Shutdown, _) => false,
            (ServiceStatus::GracefullyShutdown, ServiceStatus::Restarting) => true,
            (ServiceStatus::GracefullyShutdown, _) => false,
            (ServiceStatus::Restarting, ServiceStatus::Initializing) => true,
            (ServiceStatus::Restarting, _) => false,
            (ServiceStatus::GenError, ServiceStatus::Restarting) => true,
            (ServiceStatus::Initializing, ServiceStatus::Waiting) => true,
            (ServiceStatus::Waiting, ServiceStatus::Starting) => true,
            (ServiceStatus::Starting, ServiceStatus::Running) => true,
            (ServiceStatus::Running, ServiceStatus::Verified) => true,
            (ServiceStatus::Pausing, ServiceStatus::Paused) => true,
            (ServiceStatus::Paused, ServiceStatus::Unpausing) => true,
            (ServiceStatus::Unpausing, ServiceStatus::Running) => true,
            (
                ServiceStatus::PartiallyRunning
                | ServiceStatus::DegradedRunning
                | ServiceStatus::Unstable
                | ServiceStatus::Blocked
                | ServiceStatus::Unavailable,
                ServiceStatus::Running,
            ) => true,
            (
                ServiceStatus::Running
                | ServiceStatus::Verified
                | ServiceStatus::PartiallyRunning
                | ServiceStatus::DegradedRunning
                | ServiceStatus::Unstable
                | ServiceStatus::Blocked
                | ServiceStatus::Unavailable,
                _,
            ) => impaired || stopping || next == ServiceStatus::Pausing,
            _ => stopping,
        }
    }

    fn admission(self) -> (a: Admission) {
        match self {
            ServiceStatus::Running
            | ServiceStatus::Verified
            | ServiceStatus::PartiallyRunning
            | ServiceStatus::DegradedRunning => Admission::Admissible,
            ServiceStatus::GenError
            | ServiceStatus::Blocked
            | ServiceStatus::Shutdown
            | ServiceStatus::GracefullyShutdown => Admission::TerminallyInadmissible,
            _ => Admission::TemporarilyInadmissible,
        }
    }

    fn target_of(command: Command) -> (s: Self) {
        match command {
            Command::Start => ServiceStatus::Starting,
            Command::Restart => ServiceStatus::Restarting,
            Command::Pause => ServiceStatus::Pausing,
            Command::Unpause => ServiceStatus::Unpausing,
            Command::Stop => ServiceStatus::ShuttingDown,
            Command::GracefulStop => ServiceStatus::GracefullyShuttingDown,
        }
    }

    fn initial() -> (s: Self) {
        ServiceStatus::Unregistered
    }
}

/// The startup chain is strictly ordered: each of its states has one
/// successor on the way up, so that no state on the way to `Running` is
/// skipped. Besides that successor, only a failure or, once set-up has begun,
/// a teardown can follow.
pub proof fn lemma_service_startup_in_order(next: ServiceStatus)
    ensures
        ServiceStatus::Unregistered.permits(next) ==> next == ServiceStatus::NotInitialized || next
            == ServiceStatus::GenError,
        ServiceStatus::NotInitialized.permits(next) ==> next == ServiceStatus::Initializing || next
            == ServiceStatus::GenError,
        ServiceStatus::Initializing.permits(next) ==> next == ServiceStatus::Waiting || next
            == ServiceStatus::GenError || next.is_shutting_down(),
        ServiceStatus::Waiting.permits(next) ==> next == ServiceStatus::Starting || next
            == ServiceStatus::GenError || next.is_shutting_down(),
        ServiceStatus::Starting.permits(next) ==> next == ServiceStatus::Running || next
            == ServiceStatus::GenError || next.is_shutting_down(),
{
}

/// `Running` is entered only at the end of the startup chain, at the end of a
/// pause, or on recovery of an impaired service; and `Verified` only from
/// `Running`.
pub proof fn lemma_service_running_and_verified_entries(from: ServiceStatus)
    ensures
        from.permits(ServiceStatus::Running) ==> from == ServiceStatus::Starting || from
            == ServiceStatus::Unpausing || from.is_impaired(),
        from.permits(ServiceStatus::Verified) <==> from == ServiceStatus::Running,
{
}

/// The two ways down do not cross: a forceful teardown ends in `Shutdown`
/// and a graceful one in `GracefullyShutdown`, unless it fails. No state
/// permits itself.
pub proof fn lemma_service_teardown_paths(from: ServiceStatus, next: ServiceStatus)
    ensures
        ServiceStatus::ShuttingDown.permits(next) <==> next == ServiceStatus::Shutdown || next == ServiceStatus::GenError,
        ServiceStatus::GracefullyShuttingDown.permits(next) <==> next == ServiceStatus::GracefullyShutdown
            || next == ServiceStatus::GenError,
        next.is_shutting_down() && from.permits(next) ==> !from.is_down() || from
            == ServiceStatus::GenError,
        !from.permits(from),
{
}

/// `GenError` can follow any other state, and leaves only through
/// `Restarting` or a teardown.
pub proof fn lemma_service_error_edges(from: ServiceStatus, next: ServiceStatus)
    ensures
        from != ServiceStatus::GenError ==> from.permits(ServiceStatus::GenError),
        ServiceStatus::GenError.permits(next) <==> next == ServiceStatus::Restarting
            || next.is_shutting_down(),
{
}

/// A service that has been shut down moves in one step only to `Restarting`
/// or to `GenError`: never directly to `Running`.
pub proof fn lemma_service_shut_down_successors(from: ServiceStatus, next: ServiceStatus)
    requires
        from.is_shut_down(),
    ensures
        from.permits(next) <==> next == ServiceStatus::Restarting || next
            == ServiceStatus::GenError,
        !from.permits(ServiceStatus::Running),
{
}

proof fn lemma_service_leaves_down_at(path: Seq<ServiceStatus>, k: int)
    requires
        legal_path(path),
        0 <= k < path.len(),
        path[0].is_down(),
        !path[k].is_down(),
    ensures
        exists|i: int|
            0 <= i < path.len() - 1 && #[trigger] path[i] == ServiceStatus::Restarting && path[i
                + 1] == ServiceStatus::Initializing,
    decreases k,
{
    if path[k - 1].is_down() {
        assert(path[k - 1].permits(path[k]));
        assert(path[k - 1] == ServiceStatus::Restarting && path[k - 1 + 1]
            == ServiceStatus::Initializing);
    } else {
        lemma_service_leaves_down_at(path, k - 1);
    }
}

/// However a service moves, from a state in which it is down (shut down,
/// shutting down, failed or restarting) it reaches a state in which it is not
/// only by passing through `Restarting` and, directly after it,
/// `Initializing`. In particular no sequence of legal transitions leads from
/// `Shutdown` or `GracefullyShutdown` to `Running` in another way.
pub proof fn lemma_service_recovers_through_restart(path: Seq<ServiceStatus>)
    requires
        legal_path(path),
        path.len() > 0,
        path[0].is_down(),
        !path.last().is_down(),
    ensures
        exists|i: int|
            0 <= i < path.len() - 1 && #[trigger] path[i] == ServiceStatus::Restarting && path[i
                + 1] == ServiceStatus::Initializing,
{
    lemma_service_leaves_down_at(path, path.len() - 1);
}

/// A state machine that starts in a state in which the service is down never
/// gets out of it directly: whatever it is asked to do, if it ends in a state
/// in which the service is not down, it has passed through `Restarting` and,
/// directly after it, `Initializing`.
pub proof fn lemma_service_machine_recovers_through_restart(
    start: ServiceStatus,
    requests: Seq<ServiceStatus>,
)
    requires
        start.is_down(),
        !visited(start, requests).last().is_down(),
    ensures
        exists|i: int|
            0 <= i < visited(start, requests).len() - 1 && #[trigger] visited(start, requests)[i]
                == ServiceStatus::Restarting && visited(start, requests)[i + 1]
                == ServiceStatus::Initializing,
{
    lemma_visited_is_legal_path(start, requests);
    lemma_service_recovers_through_restart(visited(start, requests));
}

/// The code of a state stands for that state and for no other, and the codes
/// are the numbers from 0 to 20.
pub proof fn lemma_service_code_round_trip(status: ServiceStatus, code: u8)
    ensures
        ServiceStatus::with_code(status.code_of()) == Some(status),
        ServiceStatus::with_code(code) == Some(status) ==> status.code_of() == code,
        ServiceStatus::with_code(code) is Some <==> code <= 20,
{
}

} // verus!
