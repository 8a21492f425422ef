use kickit::socket::{
    PeerError, Core, Log, Power, Socket, socket_path, socket_mode, relay_ok, relay_err, core_reply, log_reply,
    power_action, PowerAction, str_bytes_newline,
};
use kickit::state::InitState;
use kickit::init::power::Mode;
use kickit::ktctl::socket::response_result;
use kickit::ktctl::ktctl::{init_state, init_pid};

const ALL_ERRORS: [PeerError; 8] = [
    PeerError::Unknown,
    PeerError::Internal,
    PeerError::NotReadReady,
    PeerError::NotWriteReady,
    PeerError::IoRead,
    PeerError::IoWrite,
    PeerError::Unsupported,
    PeerError::BadInput,
];

#[test]
fn peer_error_bytes_round_trip() {
    for e in ALL_ERRORS {
        assert_eq!(PeerError::errorize(e.byte()).unwrap(), e);
    }
    assert_eq!(PeerError::Internal.byte(), 0x0f);
    assert_eq!(PeerError::BadInput.byte(), 0xdc);
}

#[test]
fn unknown_peer_error_byte_is_invalid_input() {
    let err = PeerError::errorize(0x01).unwrap_err();
    assert_eq!(err.kind(), std::io::ErrorKind::InvalidInput);
    assert_eq!(err.to_string(), PeerError::errorize_failure(0x01));
}

#[test]
fn socket_paths() {
    assert_eq!(socket_path("Core", false), "/run/kickit/io.Core");
    assert_eq!(socket_path("Power", true), "/run/kickit/private/io.Power");
    assert_eq!(Core.path(), "/run/kickit/io.Core");
    assert_eq!(Log.path(), "/run/kickit/private/io.Log");
    assert_eq!(Power.path(), "/run/kickit/private/io.Power");
    assert!(!Core.private());
    assert!(Log.private() && Power.private());
    assert_eq!(socket_mode(false), 0o666);
    assert_eq!(socket_mode(true), 0o600);
}

#[test]
fn replies_are_framed() {
    assert_eq!(relay_ok(b"hi"), vec![PeerError::IS_OK, b'h', b'i']);
    assert_eq!(relay_err(PeerError::Internal), vec![PeerError::IS_ERROR, 0x0f]);
    assert_eq!(str_bytes_newline("v"), b"v\n".to_vec());
}

#[test]
fn ok_reply_is_read_back() {
    let reply = relay_ok(b"payload");
    assert_eq!(response_result(&reply).unwrap().unwrap(), b"payload".to_vec());
}

#[test]
fn error_reply_is_read_back() {
    for e in ALL_ERRORS {
        assert_eq!(response_result(&relay_err(e)).unwrap().unwrap_err(), e);
    }
}

#[test]
fn short_and_unframed_replies_are_refused() {
    let e = response_result(&[PeerError::IS_OK]).unwrap_err();
    assert_eq!(e.trace, "Expected at least 2 bytes, got 1");
    let e = response_result(&[0x10, 0x00]).unwrap_err();
    assert_eq!(e.trace, "Expected ok/err, got 16");
    assert!(response_result(&[PeerError::IS_ERROR, 0x01]).is_err());
}

#[test]
fn core_socket_answers() {
    assert_eq!(core_reply(Core::STATE, InitState::Okay, "1", None, None), Some(vec![PeerError::IS_OK, 0x02]));
    assert_eq!(
        core_reply(Core::VERSION, InitState::Okay, "0.1", None, None),
        Some(vec![PeerError::IS_OK, b'0', b'.', b'1', b'\n'])
    );
    assert_eq!(
        core_reply(Core::TARGET, InitState::Okay, "0.1", Some("system"), None),
        Some([vec![PeerError::IS_OK], b"system\n".to_vec()].concat())
    );
    assert_eq!(core_reply(Core::TARGET, InitState::Okay, "0.1", None, None), Some(relay_err(PeerError::Internal)));
    assert_eq!(core_reply(Core::PID, InitState::Okay, "0.1", None, Some(None)), Some(vec![PeerError::IS_OK, 1, 0, 0, 0]));
    assert_eq!(
        core_reply(Core::PID, InitState::Okay, "0.1", None, Some(Some(0x0102))),
        Some(vec![PeerError::IS_OK, 2, 1, 0, 0])
    );
    assert_eq!(core_reply(b'\n', InitState::Okay, "0.1", None, None), None);
    assert_eq!(core_reply(0x33, InitState::Okay, "0.1", None, None), Some(relay_err(PeerError::BadInput)));
}

#[test]
fn log_socket_answers() {
    let log = vec!["one".to_string(), "two".to_string()];
    assert_eq!(log_reply(Log::MASTER, Some(&log)), [vec![PeerError::IS_OK], b"one\ntwo".to_vec()].concat());
    assert_eq!(log_reply(Log::MASTER, None), relay_err(PeerError::Internal));
    assert_eq!(log_reply(0x00, Some(&log)), relay_err(PeerError::Internal));
}

#[test]
fn power_socket_answers() {
    assert!(matches!(power_action(Power::SHUTDOWN, Some(None)), PowerAction::Poweroff(Mode::Shutdown)));
    assert!(matches!(power_action(Power::REBOOT, Some(Some(5))), PowerAction::Poweroff(Mode::Reboot)));
    assert!(matches!(power_action(Power::FORCE_REBOOT, Some(None)), PowerAction::ForcePoweroff(Mode::Reboot)));
    match power_action(Power::FORCE_SHUTDOWN, Some(Some(42))) {
        PowerAction::Refuse(msg, bytes) => {
            assert_eq!(msg, "Force shutdown is not supported when kickit is not ran as the init process!");
            assert_eq!(bytes, relay_err(PeerError::Unsupported));
        },
        _ => panic!("a forced power-off of a second init is refused"),
    }
    assert!(matches!(power_action(0x00, Some(None)), PowerAction::Reply(_)));
}

#[test]
fn init_state_bytes_round_trip() {
    for s in [InitState::Okay, InitState::Emergency, InitState::Stalled, InitState::Down] {
        assert_eq!(InitState::from_byte(s.byte()), s);
        assert_eq!(InitState::from(s.byte()), s);
    }
    assert_eq!(InitState::from_byte(0x77), InitState::Down);
    assert!(InitState::Okay.is_ok());
    assert!(!InitState::Stalled.is_ok());
    assert_eq!(InitState::default(), InitState::Okay);
    assert_eq!(InitState::Emergency.name(), "Emergency");
}

#[test]
fn ktctl_reads_what_the_core_socket_reports() {
    for s in [InitState::Okay, InitState::Emergency, InitState::Stalled, InitState::Down] {
        let state = response_result(&core_reply(Core::STATE, s, "0.1.0", None, None).unwrap()).unwrap().unwrap();
        let version = response_result(&core_reply(Core::VERSION, s, "0.1.0", None, None).unwrap()).unwrap().unwrap();
        assert_eq!(init_state(Some(&state), Some(&version), "0.1.0"), s);
    }
    for (pid, expected) in [(None, 1u32), (Some(4242u32), 4242)] {
        let reply = response_result(&core_reply(Core::PID, InitState::Okay, "0.1.0", None, Some(pid)).unwrap()).unwrap().unwrap();
        assert_eq!(init_pid(&reply).unwrap(), expected);
    }
}
