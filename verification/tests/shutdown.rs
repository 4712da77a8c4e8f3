use switchboard_core::daemon::DaemonKind;
use switchboard_core::pid::parse_pid;
use switchboard_core::shutdown::{ShutdownAction, ShutdownCoordinator};

#[test]
fn exit_sequence_attempts_every_daemon_despite_early_failures() {
    let mut coordinator = ShutdownCoordinator::new();
    // The first three attempts report failure; all six must still occur.
    let outcomes = [false, false, false, true, true, true];
    let mut attempted = Vec::new();
    let mut i = 0;
    while let Some(action) = coordinator.pending() {
        attempted.push(action);
        coordinator.record_outcome(outcomes[i]);
        i += 1;
    }
    assert_eq!(
        attempted,
        vec![
            ShutdownAction::SignalEthereum,
            ShutdownAction::StopRpc { kind: DaemonKind::Testchain },
            ShutdownAction::StopRpc { kind: DaemonKind::Bitassets },
            ShutdownAction::StopRpc { kind: DaemonKind::Bitnames },
            ShutdownAction::StopRpc { kind: DaemonKind::Zcash },
            ShutdownAction::StopRpc { kind: DaemonKind::Mainchain },
        ]
    );
    assert_eq!(coordinator.failures, 3);
    assert!(coordinator.pending().is_none());
}

#[test]
fn exit_sequence_completes_even_when_every_attempt_fails() {
    let mut coordinator = ShutdownCoordinator::new();
    let mut attempts = 0;
    while coordinator.pending().is_some() {
        coordinator.record_outcome(false);
        attempts += 1;
    }
    assert_eq!(attempts, 6);
    assert_eq!(coordinator.failures, 6);
}

#[test]
fn pid_parses_a_plain_lookup_output() {
    assert_eq!(parse_pid(&b"1234\n".to_vec()), Some(1234));
}

#[test]
fn pid_parses_surrounding_whitespace() {
    assert_eq!(parse_pid(&b" \t42\r\n ".to_vec()), Some(42));
}

#[test]
fn pid_rejects_empty_output() {
    assert_eq!(parse_pid(&b"".to_vec()), None);
    assert_eq!(parse_pid(&b" \n\t".to_vec()), None);
}

#[test]
fn pid_rejects_non_digits() {
    assert_eq!(parse_pid(&b"geth\n".to_vec()), None);
    assert_eq!(parse_pid(&b"12a4".to_vec()), None);
    assert_eq!(parse_pid(&b"12 34".to_vec()), None);
    assert_eq!(parse_pid(&b"-5".to_vec()), None);
}

#[test]
fn pid_honours_the_id_type_bound() {
    assert_eq!(parse_pid(&b"4294967295".to_vec()), Some(u32::MAX));
    assert_eq!(parse_pid(&b"4294967296".to_vec()), None);
    assert_eq!(parse_pid(&b"99999999999999999999".to_vec()), None);
}
