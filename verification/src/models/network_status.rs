//! Lifecycle states of a network adapter, and the table of its legal
//! transitions.

use crate::lifecycle::{
    legal_path, lemma_visited_is_legal_path, visited, Admission, Command, Status,
};
use vstd::prelude::*;

verus! {

/// The state of a network adapter.
///
/// An adapter is brought up through `NotInitialized`, `Initializing`,
/// `Waiting` and `Starting`, may then wait for a network it depends on
/// (`NetworkWarmup`) or find its port taken (`NetworkPortConflict`), and goes
/// on through `NetworkConnecting` to `NetworkConnected`. A message received
/// from the network makes it `NetworkVerified`. While connected it may become
/// impaired and recover, or be paused and resumed. It is torn down through
/// `ShuttingDown` or `GracefullyShuttingDown`, and comes back only through
/// `Restarting` and `Initializing`. `GenError` can follow any state.
#[derive(Debug, Copy, Clone, PartialEq, Eq, Hash, Structural)]
pub enum NetworkStatus {
    /// Unknown, or not registered yet.
    Unregistered,
    /// Registered, nothing set up.
    NotInitialized,
    /// Setting up its environment and configuration.
    Initializing,
    /// Starting its networking component.
    Starting,
    /// Waiting for an adapter it depends on to start.
    Waiting,
    /// Waiting for an adapter it depends on to connect.
    NetworkWarmup,
    /// The port it was given could not be opened.
    NetworkPortConflict,
    NetworkConnecting,
    /// Connected, and ready to handle requests.
    NetworkConnected,
    /// Connected, and a message from the network has confirmed it.
    NetworkVerified,
    /// The connection hangs.
    NetworkStopping,
    /// The connection failed.
    NetworkStopped,
    /// The connection is being blocked.
    NetworkBlocked,
    /// The network is not installed or not started.
    NetworkUnavailable,
    /// An error in the network that the adapter may handle itself.
    NetworkError,
    /// Queueing requests while those from before the pause complete.
    Pausing,
    /// Queueing requests; those from before the pause are done.
    Paused,
    /// Letting queued requests go on.
    Unpausing,
    /// Forceful teardown under way: envelopes in flight may be lost.
    ShuttingDown,
    /// Clean teardown under way: every envelope in flight completes or fails
    /// with a notice.
    GracefullyShuttingDown,
    /// Torn down forcefully.
    Shutdown,
    /// Torn down cleanly.
    GracefullyShutdown,
    /// Coming back after a teardown or an error.
    Restarting,
    /// Failed; recovery goes through `Restarting`.
    GenError,
}

impl NetworkStatus {
    /// The number that stands for this state on the wire.
    pub open spec fn code_of(self) -> u8 {
        match self {
            NetworkStatus::Unregistered => 0,
            NetworkStatus::NotInitialized => 1,
            NetworkStatus::Initializing => 2,
            NetworkStatus::Starting => 3,
            NetworkStatus::Waiting => 4,
            NetworkStatus::NetworkWarmup => 5,
            NetworkStatus::NetworkPortConflict => 6,
            NetworkStatus::NetworkConnecting => 7,
            NetworkStatus::NetworkConnected => 8,
            NetworkStatus::NetworkVerified => 9,
            NetworkStatus::NetworkStopping => 10,
            NetworkStatus::NetworkStopped => 11,
            NetworkStatus::NetworkBlocked => 12,
            NetworkStatus::NetworkUnavailable => 13,
            NetworkStatus::NetworkError => 14,
            NetworkStatus::Pausing => 15,
            NetworkStatus::Paused => 16,
            NetworkStatus::Unpausing => 17,
            NetworkStatus::ShuttingDown => 18,
            NetworkStatus::GracefullyShuttingDown => 19,
            NetworkStatus::Shutdown => 20,
            NetworkStatus::GracefullyShutdown => 21,
            NetworkStatus::Restarting => 22,
            NetworkStatus::GenError => 23,
        }
    }

    /// The state that `code` stands for, if it stands for one.
    pub open spec fn with_code(code: u8) -> Option<NetworkStatus> {
        if code == 0 {
            Some(NetworkStatus::Unregistered)
        } else if code == 1 {
            Some(NetworkStatus::NotInitialized)
        } else if code == 2 {
            Some(NetworkStatus::Initializing)
        } else if code == 3 {
            Some(NetworkStatus::Starting)
        } else if code == 4 {
            Some(NetworkStatus::Waiting)
        } else if code == 5 {
            Some(NetworkStatus::NetworkWarmup)
        } else if code == 6 {
            Some(NetworkStatus::NetworkPortConflict)
        } else if code == 7 {
            Some(NetworkStatus::NetworkConnecting)
        } else if code == 8 {
            Some(NetworkStatus::NetworkConnected)
        } else if code == 9 {
            Some(NetworkStatus::NetworkVerified)
        } else if code == 10 {
            Some(NetworkStatus::NetworkStopping)
        } else if code == 11 {
            Some(NetworkStatus::NetworkStopped)
        } else if code == 12 {
            Some(NetworkStatus::NetworkBlocked)
        } else if code == 13 {
            Some(NetworkStatus::NetworkUnavailable)
        } else if code == 14 {
            Some(NetworkStatus::NetworkError)
        } else if code == 15 {
            Some(NetworkStatus::Pausing)
        } else if code == 16 {
            Some(NetworkStatus::Paused)
        } else if code == 17 {
            Some(NetworkStatus::Unpausing)
        } else if code == 18 {
            Some(NetworkStatus::ShuttingDown)
        } else if code == 19 {
            Some(NetworkStatus::GracefullyShuttingDown)
        } else if code == 20 {
            Some(NetworkStatus::Shutdown)
        } else if code == 21 {
            Some(NetworkStatus::GracefullyShutdown)
        } else if code == 22 {
            Some(NetworkStatus::Restarting)
        } else if code == 23 {
            Some(NetworkStatus::GenError)
        } else {
            None
        }
    }

    /// The adapter is connected, fully or not: it has been brought up and is
    /// neither paused nor being torn down.
    pub open spec fn is_operating(self) -> bool {
        self == NetworkStatus::NetworkConnected || self == NetworkStatus::NetworkVerified
            || self.is_impaired()
    }

    /// The adapter was connected, and its connection is not as it should be.
    pub open spec fn is_impaired(self) -> bool {
        self == NetworkStatus::NetworkStopping || self == NetworkStatus::NetworkStopped || self
            == NetworkStatus::NetworkBlocked || self == NetworkStatus::NetworkUnavailable || self
            == NetworkStatus::NetworkError
    }

    /// A teardown is under way.
    pub open spec fn is_shutting_down(self) -> bool {
        self == NetworkStatus::ShuttingDown || self == NetworkStatus::GracefullyShuttingDown
    }

    /// A teardown has completed.
    pub open spec fn is_shut_down(self) -> bool {
        self == NetworkStatus::Shutdown || self == NetworkStatus::GracefullyShutdown
    }

    /// The adapter is being torn down, has been torn down, has failed, or is
    /// on its way back: it is not connected, and cannot be without a restart.
    pub open spec fn is_down(self) -> bool {
        self.is_shutting_down() || self.is_shut_down() || self == NetworkStatus::Restarting || self
            == NetworkStatus::GenError
    }

    /// The teardown is or was forceful: envelopes in flight at the adapter
    /// are to be treated as lost.
    pub open spec fn forfeits_in_flight(self) -> bool {
        self == NetworkStatus::ShuttingDown || self == NetworkStatus::Shutdown
    }

    /// The successors of `self` other than `GenError`.
    pub open spec fn successor(self, next: NetworkStatus) -> bool {
        match self {
            NetworkStatus::Unregistered => next == NetworkStatus::NotInitialized,
            NetworkStatus::NotInitialized => next == NetworkStatus::Initializing,
            NetworkStatus::Initializing => next == NetworkStatus::Waiting
                || next.is_shutting_down(),
            NetworkStatus::Waiting => next == NetworkStatus::Starting || next.is_shutting_down(),
            NetworkStatus::Starting => next == NetworkStatus::NetworkWarmup || next
                == NetworkStatus::NetworkPortConflict || next == NetworkStatus::NetworkConnecting
                || next.is_shutting_down(),
            NetworkStatus::NetworkWarmup => next == NetworkStatus::NetworkPortConflict || next
                == NetworkStatus::NetworkConnecting || next.is_shutting_down(),
            NetworkStatus::NetworkPortConflict => next == NetworkStatus::NetworkConnecting
                || next.is_shutting_down(),
            NetworkStatus::NetworkConnecting => next == NetworkStatus::NetworkConnected
                || next.is_shutting_down(),
            NetworkStatus::NetworkConnected => next == NetworkStatus::NetworkVerified
                || next.is_impaired() || next == NetworkStatus::Pausing
                || next.is_shutting_down(),
            NetworkStatus::NetworkVerified => next.is_impaired() || next == NetworkStatus::Pausing
                || next.is_shutting_down(),
            NetworkStatus::NetworkStopping
            | NetworkStatus::NetworkStopped
            | NetworkStatus::NetworkBlocked
            | NetworkStatus::NetworkUnavailable
            | NetworkStatus::NetworkError => next == NetworkStatus::NetworkConnected
                || next.is_impaired() || next == NetworkStatus::Pausing
                || next.is_shutting_down(),
            NetworkStatus::Pausing => next == NetworkStatus::Paused || next.is_shutting_down(),
            NetworkStatus::Paused => next == NetworkStatus::Unpausing || next.is_shutting_down(),
            NetworkStatus::Unpausing => next == NetworkStatus::NetworkConnected
                || next.is_shutting_down(),
            NetworkStatus::ShuttingDown => next == NetworkStatus::Shutdown,
            NetworkStatus::GracefullyShuttingDown => next == NetworkStatus::GracefullyShutdown,
            NetworkStatus::Shutdown | NetworkStatus::GracefullyShutdown => next
                == NetworkStatus::Restarting,
            NetworkStatus::Restarting => next == NetworkStatus::Initializing,
            NetworkStatus::GenError => next == NetworkStatus::Restarting
                || next.is_shutting_down(),
        }
    }

    /// The number that stands for this state on the wire.
    pub fn code(self) -> (c: u8)
        ensures
            c == self.code_of(),
    {
        match self {
            NetworkStatus::Unregistered => 0,
            NetworkStatus::NotInitialized => 1,
            NetworkStatus::Initializing => 2,
            NetworkStatus::Starting => 3,
            NetworkStatus::Waiting => 4,
            NetworkStatus::NetworkWarmup => 5,
            NetworkStatus::NetworkPortConflict => 6,
            NetworkStatus::NetworkConnecting => 7,
            NetworkStatus::NetworkConnected => 8,
            NetworkStatus::NetworkVerified => 9,
            NetworkStatus::NetworkStopping => 10,
            NetworkStatus::NetworkStopped => 11,
            NetworkStatus::NetworkBlocked => 12,
            NetworkStatus::NetworkUnavailable => 13,
            NetworkStatus::NetworkError => 14,
            NetworkStatus::Pausing => 15,
            NetworkStatus::Paused => 16,
            NetworkStatus::Unpausing => 17,
            NetworkStatus::ShuttingDown => 18,
            NetworkStatus::GracefullyShuttingDown => 19,
            NetworkStatus::Shutdown => 20,
            NetworkStatus::GracefullyShutdown => 21,
            NetworkStatus::Restarting => 22,
            NetworkStatus::GenError => 23,
        }
    }

    /// Whether envelopes in flight at the adapter are to be treated as lost.
    pub fn loses_in_flight(self) -> (b: bool)
        ensures
            b == self.forfeits_in_flight(),
    {
        match self {
            NetworkStatus::ShuttingDown | NetworkStatus::Shutdown => true,
            _ => false,
        }
    }
}

impl TryFrom<u8> for NetworkStatus {
    type Error = ();

    fn try_from(code: u8) -> (r: Result<Self, ()>) {
        match code {
            0 => Ok(NetworkStatus::Unregistered),
            1 => Ok(NetworkStatus::NotInitialized),
            2 => Ok(NetworkStatus::Initializing),
            3 => Ok(NetworkStatus::Starting),
            4 => Ok(NetworkStatus::Waiting),
            5 => Ok(NetworkStatus::NetworkWarmup),
            6 => Ok(NetworkStatus::NetworkPortConflict),
            7 => Ok(NetworkStatus::NetworkConnecting),
            8 => Ok(NetworkStatus::NetworkConnected),
            9 => Ok(NetworkStatus::NetworkVerified),
            10 => Ok(NetworkStatus::NetworkStopping),
            11 => Ok(NetworkStatus::NetworkStopped),
            12 => Ok(NetworkStatus::NetworkBlocked),
            13 => Ok(NetworkStatus::NetworkUnavailable),
            14 => Ok(NetworkStatus::NetworkError),
            15 => Ok(NetworkStatus::Pausing),
            16 => Ok(NetworkStatus::Paused),
            17 => Ok(NetworkStatus::Unpausing),
            18 => Ok(NetworkStatus::ShuttingDown),
            19 => Ok(NetworkStatus::GracefullyShuttingDown),
            20 => Ok(NetworkStatus::Shutdown),
            21 => Ok(NetworkStatus::GracefullyShutdown),
            22 => Ok(NetworkStatus::Restarting),
            23 => Ok(NetworkStatus::GenError),
            _ => Err(()),
        }
    }
}

impl vstd::std_specs::convert::TryFromSpecImpl<u8> for NetworkStatus {
    open spec fn obeys_try_from_spec() -> bool {
        true
    }

    open spec fn try_from_spec(v: u8) -> Result<Self, ()> {
        match NetworkStatus::with_code(v) {
            Some(status) => Ok(status),
            None => Err(()),
        }
    }
}

impl Status for NetworkStatus {
    open spec fn permits(self, next: Self) -> bool {
        next != self && (next == NetworkStatus::GenError || self.successor(next))
    }

    open spec fn admission_class(self) -> Admission {
        match self {
            NetworkStatus::NetworkConnected | NetworkStatus::NetworkVerified => {
                Admission::Admissible
            },
            NetworkStatus::GenError
            | NetworkStatus::NetworkBlocked
            | NetworkStatus::Shutdown
            | NetworkStatus::GracefullyShutdown => Admission::TerminallyInadmissible,
            _ => Admission::TemporarilyInadmissible,
        }
    }

    open spec fn entered_by(command: Command) -> Self {
        match command {
            Command::Start => NetworkStatus::Starting,
            Command::Restart => NetworkStatus::Restarting,
            Command::Pause => NetworkStatus::Pausing,
            Command::Unpause => NetworkStatus::Unpausing,
            Command::Stop => NetworkStatus::ShuttingDown,
            Command::GracefulStop => NetworkStatus::GracefullyShuttingDown,
        }
    }

    open spec fn unregistered() -> Self {
        NetworkStatus::Unregistered
    }

    fn can_transition_to(self, next: Self) -> (b: bool) {
        let stopping = match next {
            NetworkStatus::ShuttingDown | NetworkStatus::GracefullyShuttingDown => true,
            _ => false,
        };
        let impaired = match next {
            NetworkStatus::NetworkStopping
            | NetworkStatus::NetworkStopped
            | NetworkStatus::NetworkBlocked
            | NetworkStatus::NetworkUnavailable
            | NetworkStatus::NetworkError => true,
            _ => false,
        };
        if self == next {
            return false;
        }
        match (self, next) {
            (_, NetworkStatus::GenError) => true,
            (NetworkStatus::Unregistered, NetworkStatus::NotInitialized) => true,
            (NetworkStatus::Unregistered, _) => false,
            (NetworkStatus::NotInitialized, NetworkStatus::Initializing) => true,
            (NetworkStatus::NotInitialized, _) => false,
            (NetworkStatus::ShuttingDown, NetworkStatus::Shutdown) => true,
            (NetworkStatus::ShuttingDown, _) => false,
            (NetworkStatus::GracefullyShuttingDown, NetworkStatus::GracefullyShutdown) => true,
            (NetworkStatus::GracefullyShuttingDown, _) => false,
            (NetworkStatus::Shutdown, NetworkStatus::Restarting) => true,
            (NetworkStatus::Shutdown, _) => false,
            (NetworkStatus::GracefullyShutdown, NetworkStatus::Restarting) => true,
            (NetworkStatus::GracefullyShutdown, _) => false,
            (NetworkStatus::Restarting, NetworkStatus::Initializing) => true,
            (NetworkStatus::Restarting, _) => false,
            (NetworkStatus::GenError, NetworkStatus::Restarting) => true,
            (NetworkStatus::Initializing, NetworkStatus::Waiting) => true,
            (NetworkStatus::Waiting, NetworkStatus::Starting) => true,
            (
                NetworkStatus::Starting,
                NetworkStatus::NetworkWarmup
                | NetworkStatus::NetworkPortConflict
                | NetworkStatus::NetworkConnecting,
            ) => true,
            (
                NetworkStatus::NetworkWarmup,
                NetworkStatus::NetworkPortConflict | NetworkStatus::NetworkConnecting,
            ) => true,
            (NetworkStatus::NetworkPortConflict, NetworkStatus::NetworkConnecting) => true,
            (NetworkStatus::NetworkConnecting, NetworkStatus::NetworkConnected) => true,
            (NetworkStatus::NetworkConnected, NetworkStatus::NetworkVerified) => true,
            (NetworkStatus::Pausing, NetworkStatus::Paused) => true,
            (NetworkStatus::Paused, NetworkStatus::Unpausing) => true,
            (NetworkStatus::Unpausing, NetworkStatus::NetworkConnected) => true,
            (
                NetworkStatus::NetworkStopping
                | NetworkStatus::NetworkStopped
                | NetworkStatus::NetworkBlocked
                | NetworkStatus::NetworkUnavailable
                | NetworkStatus::NetworkError,
                NetworkStatus::NetworkConnected,
            ) => true,
            (
                NetworkStatus::NetworkConnected
                | NetworkStatus::NetworkVerified
                | NetworkStatus::NetworkStopping
                | NetworkStatus::NetworkStopped
                | NetworkStatus::NetworkBlocked
                | NetworkStatus::NetworkUnavailable
                | NetworkStatus::NetworkError,
                _,
            ) => impaired || stopping || next == NetworkStatus::Pausing,
            _ => stopping,
        }
    }

    fn admission(self) -> (a: Admission) {
        match self {
            NetworkStatus::NetworkConnected | NetworkStatus::NetworkVerified => {
                Admission::Admissible
            },
            NetworkStatus::GenError
            | NetworkStatus::NetworkBlocked
            | NetworkStatus::Shutdown
            | NetworkStatus::GracefullyShutdown => Admission::TerminallyInadmissible,
            _ => Admission::TemporarilyInadmissible,
        }
    }

    fn target_of(command: Command) -> (s: Self) {
        match command {
            Command::Start => NetworkStatus::Starting,
            Command::Restart => NetworkStatus::Restarting,
            Command::Pause => NetworkStatus::Pausing,
            Command::Unpause => NetworkStatus::Unpausing,
            Command::Stop => NetworkStatus::ShuttingDown,
            Command::GracefulStop => NetworkStatus::GracefullyShuttingDown,
        }
    }

    fn initial() -> (s: Self) {
        NetworkStatus::Unregistered
    }
}

/// The startup chain is strictly ordered: no state on the way to
/// `NetworkConnected` is skipped, but for `NetworkWarmup` and
/// `NetworkPortConflict`, which an adapter enters only when it has to wait or
/// finds its port taken. Besides the way up, only a failure or, once set-up
/// has begun, a teardown can follow.
pub proof fn lemma_network_startup_in_order(next: NetworkStatus)
    ensures
        NetworkStatus::Unregistered.permits(next) ==> next == NetworkStatus::NotInitialized || next
            == NetworkStatus::GenError,
        NetworkStatus::NotInitialized.permits(next) ==> next == NetworkStatus::Initializing || next
            == NetworkStatus::GenError,
        NetworkStatus::Initializing.permits(next) ==> next == NetworkStatus::Waiting || next
            == NetworkStatus::GenError || next.is_shutting_down(),
        NetworkStatus::Waiting.permits(next) ==> next == NetworkStatus::Starting || next
            == NetworkStatus::GenError || next.is_shutting_down(),
        NetworkStatus::Starting.permits(next) ==> next == NetworkStatus::NetworkWarmup || next
            == NetworkStatus::NetworkPortConflict || next == NetworkStatus::NetworkConnecting
            || next == NetworkStatus::GenError || next.is_shutting_down(),
        NetworkStatus::NetworkWarmup.permits(next) ==> next == NetworkStatus::NetworkPortConflict
            || next == NetworkStatus::NetworkConnecting || next == NetworkStatus::GenError
            || next.is_shutting_down(),
        NetworkStatus::NetworkPortConflict.permits(next) ==> next
            == NetworkStatus::NetworkConnecting || next == NetworkStatus::GenError
            || next.is_shutting_down(),
        NetworkStatus::NetworkConnecting.permits(next) ==> next == NetworkStatus::NetworkConnected
            || next == NetworkStatus::GenError || next.is_shutting_down(),
{
}

/// `NetworkConnected` is entered only at the end of the startup chain, at the
/// end of a pause, or on recovery of an impaired connection; and
/// `NetworkVerified` only from `NetworkConnected`.
pub proof fn lemma_network_connected_and_verified_entries(from: NetworkStatus)
    ensures
        from.permits(NetworkStatus::NetworkConnected) ==> from == NetworkStatus::NetworkConnecting
            || from == NetworkStatus::Unpausing || from.is_impaired(),
        from.permits(NetworkStatus::NetworkVerified) <==> from == NetworkStatus::NetworkConnected,
{
}

/// The two ways down do not cross: a forceful teardown ends in `Shutdown`
/// and a graceful one in `GracefullyShutdown`, unless it fails. No state
/// permits itself.
pub proof fn lemma_network_teardown_paths(from: NetworkStatus, next: NetworkStatus)
    ensures
        NetworkStatus::ShuttingDown.permits(next) <==> next == NetworkStatus::Shutdown || next == NetworkStatus::GenError,
        NetworkStatus::GracefullyShuttingDown.permits(next) <==> next == NetworkStatus::GracefullyShutdown
            || next == NetworkStatus::GenError,
        next.is_shutting_down() && from.permits(next) ==> !from.is_down() || from
            == NetworkStatus::GenError,
        !from.permits(from),
{
}

/// `GenError` can follow any other state, and leaves only through
/// `Restarting` or a teardown.
pub proof fn lemma_network_error_edges(from: NetworkStatus, next: NetworkStatus)
    ensures
        from != NetworkStatus::GenError ==> from.permits(NetworkStatus::GenError),
        NetworkStatus::GenError.permits(next) <==> next == NetworkStatus::Restarting
            || next.is_shutting_down(),
{
}

/// An adapter that has been shut down moves in one step only to `Restarting`
/// or to `GenError`: never directly to `NetworkConnected`.
pub proof fn lemma_network_shut_down_successors(from: NetworkStatus, next: NetworkStatus)
    requires
        from.is_shut_down(),
    ensures
        from.permits(next) <==> next == NetworkStatus::Restarting || next
            == NetworkStatus::GenError,
        !from.permits(NetworkStatus::NetworkConnected),
{
}

proof fn lemma_network_leaves_down_at(path: Seq<NetworkStatus>, k: int)
    requires
        legal_path(path),
        0 <= k < path.len(),
        path[0].is_down(),
        !path[k].is_down(),
    ensures
        exists|i: int|
            0 <= i < path.len() - 1 && #[trigger] path[i] == NetworkStatus::Restarting && path[i
                + 1] == NetworkStatus::Initializing,
    decreases k,
{
    if path[k - 1].is_down() {
        assert(path[k - 1].permits(path[k]));
        assert(path[k - 1] == NetworkStatus::Restarting && path[k - 1 + 1]
            == NetworkStatus::Initializing);
    } else {
        lemma_network_leaves_down_at(path, k - 1);
    }
}

/// However an adapter moves, from a state in which it is down (shut down,
/// shutting down, failed or restarting) it reaches a state in which it is not
/// only by passing through `Restarting` and, directly after it,
/// `Initializing`. In particular no sequence of legal transitions leads from
/// `Shutdown` or `GracefullyShutdown` to `NetworkConnected` in another way.
pub proof fn lemma_network_recovers_through_restart(path: Seq<NetworkStatus>)
    requires
        legal_path(path),
        path.len() > 0,
        path[0].is_down(),
        !path.last().is_down(),
    ensures
        exists|i: int|
            0 <= i < path.len() - 1 && #[trigger] path[i] == NetworkStatus::Restarting && path[i
                + 1] == NetworkStatus::Initializing,
{
    lemma_network_leaves_down_at(path, path.len() - 1);
}

/// A state machine that starts in a state in which the adapter is down never
/// gets out of it directly: whatever it is asked to do, if it ends in a state
/// in which the adapter is not down, it has passed through `Restarting` and,
/// directly after it, `Initializing`.
pub proof fn lemma_network_machine_recovers_through_restart(
    start: NetworkStatus,
    requests: Seq<NetworkStatus>,
)
    requires
        start.is_down(),
        !visited(start, requests).last().is_down(),
    ensures
        exists|i: int|
            0 <= i < visited(start, requests).len() - 1 && #[trigger] visited(start, requests)[i]
                == NetworkStatus::Restarting && visited(start, requests)[i + 1]
                == NetworkStatus::Initializing,
{
    lemma_visited_is_legal_path(start, requests);
    lemma_network_recovers_through_restart(visited(start, requests));
}

/// The code of a state stands for that state and for no other, and the codes
/// are the numbers from 0 to 23.
pub proof fn lemma_network_code_round_trip(status: NetworkStatus, code: u8)
    ensures
        NetworkStatus::with_code(status.code_of()) == Some(status),
        NetworkStatus::with_code(code) == Some(status) ==> status.code_of() == code,
        NetworkStatus::with_code(code) is Some <==> code <= 23,
{
}

} // verus!
