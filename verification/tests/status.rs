use overlay_routing::lifecycle::{Admission, Command, IllegalTransition, Status, StatusMachine};
use overlay_routing::models::{NetworkId, NetworkStatus, PacketType, ServiceStatus};
use overlay_routing::LifeCycle;
use std::convert::TryFrom;

const SERVICE_STATES: [ServiceStatus; 21] = [
    ServiceStatus::Unregistered,
    ServiceStatus::NotInitialized,
    ServiceStatus::Initializing,
    ServiceStatus::Waiting,
    ServiceStatus::Starting,
    ServiceStatus::Running,
    ServiceStatus::Verified,
    ServiceStatus::PartiallyRunning,
    ServiceStatus::DegradedRunning,
    ServiceStatus::Blocked,
    ServiceStatus::Unstable,
    ServiceStatus::Pausing,
    ServiceStatus::Paused,
    ServiceStatus::Unpausing,
    ServiceStatus::ShuttingDown,
    ServiceStatus::GracefullyShuttingDown,
    ServiceStatus::Shutdown,
    ServiceStatus::GracefullyShutdown,
    ServiceStatus::Restarting,
    ServiceStatus::Unavailable,
    ServiceStatus::GenError,
];

const NETWORK_STATES: [NetworkStatus; 24] = [
    NetworkStatus::Unregistered,
    NetworkStatus::NotInitialized,
    NetworkStatus::Initializing,
    NetworkStatus::Starting,
    NetworkStatus::Waiting,
    NetworkStatus::NetworkWarmup,
    NetworkStatus::NetworkPortConflict,
    NetworkStatus::NetworkConnecting,
    NetworkStatus::NetworkConnected,
    NetworkStatus::NetworkVerified,
    NetworkStatus::NetworkStopping,
    NetworkStatus::NetworkStopped,
    NetworkStatus::NetworkBlocked,
    NetworkStatus::NetworkUnavailable,
    NetworkStatus::NetworkError,
    NetworkStatus::Pausing,
    NetworkStatus::Paused,
    NetworkStatus::Unpausing,
    NetworkStatus::ShuttingDown,
    NetworkStatus::GracefullyShuttingDown,
    NetworkStatus::Shutdown,
    NetworkStatus::GracefullyShutdown,
    NetworkStatus::Restarting,
    NetworkStatus::GenError,
];

#[test]
fn models_it_works() {
    assert_eq!(2 + 2, 4);
}

#[test]
fn service_status_codes_round_trip() {
    for (i, s) in SERVICE_STATES.iter().enumerate() {
        assert_eq!(s.code() as usize, i);
        assert_eq!(*s as usize, i);
        assert_eq!(ServiceStatus::try_from(i as u8), Ok(*s));
    }
    for code in 21..=255u8 {
        assert_eq!(ServiceStatus::try_from(code), Err(()));
    }
}

#[test]
fn network_status_codes_round_trip() {
    for (i, s) in NETWORK_STATES.iter().enumerate() {
        assert_eq!(s.code() as usize, i);
        assert_eq!(*s as usize, i);
        assert_eq!(NetworkStatus::try_from(i as u8), Ok(*s));
    }
    assert_eq!(NetworkStatus::try_from(10), Ok(NetworkStatus::NetworkStopping));
    assert_eq!(NetworkStatus::try_from(16), Ok(NetworkStatus::Paused));
    assert_eq!(NetworkStatus::try_from(23), Ok(NetworkStatus::GenError));
    for code in 24..=255u8 {
        assert_eq!(NetworkStatus::try_from(code), Err(()));
    }
}

#[test]
fn network_id_codes_round_trip() {
    let all = [
        NetworkId::IMS,
        NetworkId::LiFi,
        NetworkId::Bluetooth,
        NetworkId::WiFiDirect,
        NetworkId::HTTPS,
        NetworkId::VPN,
        NetworkId::TOR,
        NetworkId::I2P,
        NetworkId::Satellite,
        NetworkId::FSRadio,
    ];
    for (i, n) in all.iter().enumerate() {
        assert_eq!(n.code() as usize, i);
        assert_eq!(NetworkId::try_from(i as u8), Ok(*n));
    }
    assert_eq!(NetworkId::try_from(10), Err(()));
    assert_eq!(NetworkId::try_from(255), Err(()));
}

#[test]
fn packet_type_codes_round_trip() {
    let all =
        [PacketType::Data, PacketType::Fin, PacketType::Ack, PacketType::Reset, PacketType::Syn];
    for (i, k) in all.iter().enumerate() {
        assert_eq!(k.code() as usize, i);
        assert_eq!(PacketType::try_from(i as u8), Ok(*k));
    }
    assert_eq!(PacketType::try_from(5), Err(()));
}

#[test]
fn service_status_names() {
    assert_eq!(ServiceStatus::Unregistered.as_str(), "Unregistered");
    assert_eq!(ServiceStatus::NotInitialized.as_str(), "NotInitialized");
    assert_eq!(ServiceStatus::Initializing.as_str(), "Initializing");
    assert_eq!(ServiceStatus::Waiting.as_str(), "Waiting");
    assert_eq!(ServiceStatus::Starting.as_str(), "Starting");
    assert_eq!(ServiceStatus::Running.as_str(), "Running");
    assert_eq!(ServiceStatus::Verified.as_str(), "Verified");
    assert_eq!(ServiceStatus::PartiallyRunning.as_str(), "PartiallyRunning");
    assert_eq!(ServiceStatus::DegradedRunning.as_str(), "DegradedRunning");
    assert_eq!(ServiceStatus::Blocked.as_str(), "Blocked");
    assert_eq!(ServiceStatus::Unstable.as_str(), "Unstable");
    assert_eq!(ServiceStatus::Pausing.as_str(), "Pausing");
    assert_eq!(ServiceStatus::Paused.as_str(), "Paused");
    assert_eq!(ServiceStatus::Unpausing.as_str(), "Unpausing");
    assert_eq!(ServiceStatus::ShuttingDown.as_str(), "ShuttingDown");
    assert_eq!(ServiceStatus::GracefullyShuttingDown.as_str(), "GracefullyShuttingDown");
    assert_eq!(ServiceStatus::Shutdown.as_str(), "Shutdown");
    assert_eq!(ServiceStatus::GracefullyShutdown.as_str(), "GracefullyShutdown");
    assert_eq!(ServiceStatus::Restarting.as_str(), "Restarting");
    assert_eq!(ServiceStatus::Unavailable.as_str(), "Unavailable");
    assert_eq!(ServiceStatus::GenError.as_str(), "GenError");
}

#[test]
fn only_four_service_states_admit_envelopes() {
    for s in SERVICE_STATES.iter() {
        let expected = matches!(
            s,
            ServiceStatus::Running
                | ServiceStatus::Verified
                | ServiceStatus::PartiallyRunning
                | ServiceStatus::DegradedRunning
        );
        assert_eq!(s.admission() == Admission::Admissible, expected, "{:?}", s);
    }
    assert_eq!(ServiceStatus::GenError.admission(), Admission::TerminallyInadmissible);
    assert_eq!(ServiceStatus::Blocked.admission(), Admission::TerminallyInadmissible);
    assert_eq!(ServiceStatus::Shutdown.admission(), Admission::TerminallyInadmissible);
    assert_eq!(ServiceStatus::GracefullyShutdown.admission(), Admission::TerminallyInadmissible);
    assert_eq!(ServiceStatus::Waiting.admission(), Admission::TemporarilyInadmissible);
    assert_eq!(ServiceStatus::Pausing.admission(), Admission::TemporarilyInadmissible);
    assert_eq!(ServiceStatus::Paused.admission(), Admission::TemporarilyInadmissible);
    assert_eq!(ServiceStatus::Unstable.admission(), Admission::TemporarilyInadmissible);
}

#[test]
fn only_connected_network_states_admit_envelopes() {
    for s in NETWORK_STATES.iter() {
        let expected =
            matches!(s, NetworkStatus::NetworkConnected | NetworkStatus::NetworkVerified);
        assert_eq!(s.admission() == Admission::Admissible, expected, "{:?}", s);
    }
    assert_eq!(NetworkStatus::NetworkWarmup.admission(), Admission::TemporarilyInadmissible);
    assert_eq!(NetworkStatus::NetworkBlocked.admission(), Admission::TerminallyInadmissible);
    assert_eq!(NetworkStatus::GenError.admission(), Admission::TerminallyInadmissible);
    assert_eq!(NetworkStatus::Shutdown.admission(), Admission::TerminallyInadmissible);
}

#[test]
fn no_state_permits_itself_and_every_state_may_fail() {
    for s in SERVICE_STATES.iter() {
        assert!(!s.can_transition_to(*s));
        assert_eq!(s.can_transition_to(ServiceStatus::GenError), *s != ServiceStatus::GenError);
    }
    for s in NETWORK_STATES.iter() {
        assert!(!s.can_transition_to(*s));
        assert_eq!(s.can_transition_to(NetworkStatus::GenError), *s != NetworkStatus::GenError);
    }
}

#[test]
fn service_startup_takes_every_step() {
    let chain = [
        ServiceStatus::Unregistered,
        ServiceStatus::NotInitialized,
        ServiceStatus::Initializing,
        ServiceStatus::Waiting,
        ServiceStatus::Starting,
        ServiceStatus::Running,
        ServiceStatus::Verified,
    ];
    for i in 0..chain.len() {
        for j in 0..chain.len() {
            assert_eq!(chain[i].can_transition_to(chain[j]), j == i + 1, "{} {}", i, j);
        }
    }
    assert!(!ServiceStatus::NotInitialized.can_transition_to(ServiceStatus::Running));
}

#[test]
fn network_startup_takes_every_step() {
    let chain = [
        NetworkStatus::Unregistered,
        NetworkStatus::NotInitialized,
        NetworkStatus::Initializing,
        NetworkStatus::Waiting,
        NetworkStatus::Starting,
        NetworkStatus::NetworkConnecting,
        NetworkStatus::NetworkConnected,
        NetworkStatus::NetworkVerified,
    ];
    for i in 0..chain.len() {
        for j in 0..chain.len() {
            assert_eq!(chain[i].can_transition_to(chain[j]), j == i + 1, "{} {}", i, j);
        }
    }
    assert!(NetworkStatus::Starting.can_transition_to(NetworkStatus::NetworkWarmup));
    assert!(NetworkStatus::Starting.can_transition_to(NetworkStatus::NetworkPortConflict));
    assert!(NetworkStatus::NetworkWarmup.can_transition_to(NetworkStatus::NetworkConnecting));
    assert!(NetworkStatus::NetworkPortConflict.can_transition_to(NetworkStatus::NetworkConnecting));
    assert!(!NetworkStatus::NetworkWarmup.can_transition_to(NetworkStatus::NetworkConnected));
    assert!(!NetworkStatus::NotInitialized.can_transition_to(NetworkStatus::NetworkConnected));
}

#[test]
fn verified_is_entered_only_from_running() {
    for s in SERVICE_STATES.iter() {
        assert_eq!(s.can_transition_to(ServiceStatus::Verified), *s == ServiceStatus::Running);
    }
    for s in NETWORK_STATES.iter() {
        assert_eq!(
            s.can_transition_to(NetworkStatus::NetworkVerified),
            *s == NetworkStatus::NetworkConnected
        );
    }
}

#[test]
fn shut_down_service_comes_back_only_through_restart() {
    for from in [ServiceStatus::Shutdown, ServiceStatus::GracefullyShutdown] {
        for to in SERVICE_STATES.iter() {
            let expected = matches!(to, ServiceStatus::Restarting | ServiceStatus::GenError);
            assert_eq!(from.can_transition_to(*to), expected, "{:?} {:?}", from, to);
        }
    }
    for to in SERVICE_STATES.iter() {
        let expected = matches!(to, ServiceStatus::Initializing | ServiceStatus::GenError);
        assert_eq!(ServiceStatus::Restarting.can_transition_to(*to), expected);
    }
    let mut m: StatusMachine<ServiceStatus> = StatusMachine::new();
    for s in [
        ServiceStatus::NotInitialized,
        ServiceStatus::Initializing,
        ServiceStatus::Waiting,
        ServiceStatus::Starting,
        ServiceStatus::Running,
        ServiceStatus::ShuttingDown,
        ServiceStatus::Shutdown,
    ] {
        assert_eq!(m.transition(s), Ok(()));
    }
    assert_eq!(
        m.transition(ServiceStatus::Running),
        Err(IllegalTransition { from: ServiceStatus::Shutdown, to: ServiceStatus::Running })
    );
    assert_eq!(m.status(), ServiceStatus::Shutdown);
    assert_eq!(m.transition(ServiceStatus::Initializing).is_err(), true);
    assert_eq!(m.transition(ServiceStatus::Restarting), Ok(()));
    assert_eq!(m.transition(ServiceStatus::Running).is_err(), true);
    for s in [
        ServiceStatus::Initializing,
        ServiceStatus::Waiting,
        ServiceStatus::Starting,
        ServiceStatus::Running,
    ] {
        assert_eq!(m.transition(s), Ok(()));
    }
    assert_eq!(m.status(), ServiceStatus::Running);
}

#[test]
fn shut_down_network_comes_back_only_through_restart() {
    for from in [NetworkStatus::Shutdown, NetworkStatus::GracefullyShutdown] {
        for to in NETWORK_STATES.iter() {
            let expected = matches!(to, NetworkStatus::Restarting | NetworkStatus::GenError);
            assert_eq!(from.can_transition_to(*to), expected, "{:?} {:?}", from, to);
        }
    }
    for to in NETWORK_STATES.iter() {
        let expected = matches!(to, NetworkStatus::Initializing | NetworkStatus::GenError);
        assert_eq!(NetworkStatus::Restarting.can_transition_to(*to), expected);
    }
}

#[test]
fn error_recovers_through_restart() {
    for to in SERVICE_STATES.iter() {
        let expected = matches!(
            to,
            ServiceStatus::Restarting
                | ServiceStatus::ShuttingDown
                | ServiceStatus::GracefullyShuttingDown
        );
        assert_eq!(ServiceStatus::GenError.can_transition_to(*to), expected);
    }
    for to in NETWORK_STATES.iter() {
        let expected = matches!(
            to,
            NetworkStatus::Restarting
                | NetworkStatus::ShuttingDown
                | NetworkStatus::GracefullyShuttingDown
        );
        assert_eq!(NetworkStatus::GenError.can_transition_to(*to), expected);
    }
}

#[test]
fn teardown_paths_do_not_cross() {
    assert!(ServiceStatus::ShuttingDown.can_transition_to(ServiceStatus::Shutdown));
    assert!(!ServiceStatus::ShuttingDown.can_transition_to(ServiceStatus::GracefullyShutdown));
    assert!(ServiceStatus::GracefullyShuttingDown
        .can_transition_to(ServiceStatus::GracefullyShutdown));
    assert!(!ServiceStatus::GracefullyShuttingDown.can_transition_to(ServiceStatus::Shutdown));
    assert!(ServiceStatus::ShuttingDown.loses_in_flight());
    assert!(ServiceStatus::Shutdown.loses_in_flight());
    assert!(!ServiceStatus::GracefullyShuttingDown.loses_in_flight());
    assert!(!ServiceStatus::GracefullyShutdown.loses_in_flight());
    assert!(!ServiceStatus::Running.loses_in_flight());
    assert!(NetworkStatus::ShuttingDown.loses_in_flight());
    assert!(NetworkStatus::Shutdown.loses_in_flight());
    assert!(!NetworkStatus::GracefullyShutdown.loses_in_flight());
    assert!(!NetworkStatus::NetworkConnected.loses_in_flight());
}

#[test]
fn pause_cycle_returns_to_running() {
    let mut m: StatusMachine<ServiceStatus> = StatusMachine::new();
    assert_eq!(m.status(), ServiceStatus::Unregistered);
    assert!(!m.accepts_envelopes());
    assert_eq!(m.transition(ServiceStatus::NotInitialized), Ok(()));
    assert_eq!(m.transition(ServiceStatus::Initializing), Ok(()));
    assert_eq!(m.transition(ServiceStatus::Waiting), Ok(()));
    m.pause();
    assert_eq!(m.status(), ServiceStatus::Waiting);
    m.start();
    assert_eq!(m.status(), ServiceStatus::Starting);
    assert_eq!(m.transition(ServiceStatus::Running), Ok(()));
    assert!(m.accepts_envelopes());
    m.unpause();
    assert_eq!(m.status(), ServiceStatus::Running);
    m.pause();
    assert_eq!(m.status(), ServiceStatus::Pausing);
    assert_eq!(m.admission(), Admission::TemporarilyInadmissible);
    assert_eq!(m.transition(ServiceStatus::Paused), Ok(()));
    assert!(!m.accepts_envelopes());
    m.unpause();
    assert_eq!(m.status(), ServiceStatus::Unpausing);
    assert_eq!(m.transition(ServiceStatus::Running), Ok(()));
    assert!(m.accepts_envelopes());
    m.restart();
    assert_eq!(m.status(), ServiceStatus::Running);
    m.graceful_stop();
    assert_eq!(m.status(), ServiceStatus::GracefullyShuttingDown);
    m.stop();
    assert_eq!(m.status(), ServiceStatus::GracefullyShuttingDown);
    assert_eq!(m.transition(ServiceStatus::GracefullyShutdown), Ok(()));
    assert_eq!(m.admission(), Admission::TerminallyInadmissible);
    m.restart();
    assert_eq!(m.status(), ServiceStatus::Restarting);
}

#[test]
fn network_machine_obeys_commands_where_legal() {
    let mut m: StatusMachine<NetworkStatus> = StatusMachine::new();
    assert_eq!(m.status(), NetworkStatus::Unregistered);
    m.stop();
    assert_eq!(m.status(), NetworkStatus::Unregistered);
    for s in [NetworkStatus::NotInitialized, NetworkStatus::Initializing, NetworkStatus::Waiting] {
        assert_eq!(m.transition(s), Ok(()));
    }
    m.obey(Command::Start);
    assert_eq!(m.status(), NetworkStatus::Starting);
    for s in [
        NetworkStatus::NetworkWarmup,
        NetworkStatus::NetworkConnecting,
        NetworkStatus::NetworkConnected,
        NetworkStatus::NetworkVerified,
    ] {
        assert_eq!(m.transition(s), Ok(()));
    }
    assert!(m.accepts_envelopes());
    assert_eq!(m.transition(NetworkStatus::NetworkStopping), Ok(()));
    assert!(!m.accepts_envelopes());
    assert_eq!(m.transition(NetworkStatus::NetworkConnected), Ok(()));
    m.obey(Command::Stop);
    assert_eq!(m.status(), NetworkStatus::ShuttingDown);
    m.obey(Command::GracefulStop);
    assert_eq!(m.status(), NetworkStatus::ShuttingDown);
    assert_eq!(m.transition(NetworkStatus::Shutdown), Ok(()));
    assert_eq!(
        m.transition(NetworkStatus::NetworkConnected),
        Err(IllegalTransition {
            from: NetworkStatus::Shutdown,
            to: NetworkStatus::NetworkConnected
        })
    );
    m.obey(Command::Restart);
    assert_eq!(m.status(), NetworkStatus::Restarting);
    assert_eq!(m.transition(NetworkStatus::Initializing), Ok(()));
}

#[test]
fn commands_name_their_states() {
    assert_eq!(ServiceStatus::target_of(Command::Start), ServiceStatus::Starting);
    assert_eq!(ServiceStatus::target_of(Command::Restart), ServiceStatus::Restarting);
    assert_eq!(ServiceStatus::target_of(Command::Pause), ServiceStatus::Pausing);
    assert_eq!(ServiceStatus::target_of(Command::Unpause), ServiceStatus::Unpausing);
    assert_eq!(ServiceStatus::target_of(Command::Stop), ServiceStatus::ShuttingDown);
    assert_eq!(
        ServiceStatus::target_of(Command::GracefulStop),
        ServiceStatus::GracefullyShuttingDown
    );
    assert_eq!(NetworkStatus::target_of(Command::Start), NetworkStatus::Starting);
    assert_eq!(NetworkStatus::target_of(Command::Restart), NetworkStatus::Restarting);
    assert_eq!(NetworkStatus::target_of(Command::Pause), NetworkStatus::Pausing);
    assert_eq!(NetworkStatus::target_of(Command::Unpause), NetworkStatus::Unpausing);
    assert_eq!(NetworkStatus::target_of(Command::Stop), NetworkStatus::ShuttingDown);
    assert_eq!(
        NetworkStatus::target_of(Command::GracefulStop),
        NetworkStatus::GracefullyShuttingDown
    );
    assert_eq!(ServiceStatus::initial(), ServiceStatus::Unregistered);
    assert_eq!(NetworkStatus::initial(), NetworkStatus::Unregistered);
}
