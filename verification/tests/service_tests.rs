use std::collections::VecDeque;
use kickit::init::console::Error;
use kickit::init::service::{
    Pattern, State, Logger, LogEntry, Config, Sandbox, PathKind, Service, RunOnceOutcome, warden_args, setup_plan,
    SetupStep, encode_log_entry, empty_log, INIT_ENTRY,
};
use kickit::ktctl::service::{PartialService, LogStop, decode_log_entry};

fn config(argv: &[&str], sandbox: Option<Sandbox>, pattern: Option<Pattern>) -> Config {
    Config {
        description: None,
        optional: None,
        shout: Some(true),
        pattern,
        logger: None,
        run_folder: None,
        sandbox,
        argv: argv.iter().map(|s| s.to_string()).collect(),
    }
}

fn sandbox() -> Sandbox {
    Sandbox {
        flags: vec!["NewPid".to_string(), "NewNetwork".to_string()],
        import: vec!["/etc/ssl".to_string(), "/etc/hosts".to_string()],
        bindSystemFs: Some(true),
        bindDbus: None,
        files: None,
    }
}

#[test]
fn pattern_bytes() {
    for p in [Pattern::Standard, Pattern::Forking, Pattern::RunOnce] {
        assert_eq!(Pattern::from_byte(p.byte()), Some(p));
        assert_eq!(Pattern::try_from_byte(p.byte()).unwrap(), p);
    }
    assert_eq!(Pattern::Standard.byte(), 0xa4);
    let e = Pattern::try_from_byte(0x00).unwrap_err();
    assert_eq!(e.kind(), std::io::ErrorKind::InvalidInput);
    assert_eq!(e.to_string(), "Expected valid pattern byte, got: 0");
    assert_eq!(Pattern::default(), Pattern::Standard);
    assert_eq!(State::default(), State::Down);
    assert_eq!(State::Dead(Some(2)).exit_code(), Some(2));
    assert_eq!(State::Up.exit_code(), None);
}

#[test]
fn log_entries_are_encoded() {
    assert_eq!(encode_log_entry(1700000000123, false, "hi"), b"1700000000123hi\n".to_vec());
    let mut init = b"1700000000123".to_vec();
    init.push(INIT_ENTRY);
    init.extend_from_slice(b"Started service\n");
    assert_eq!(encode_log_entry(1700000000123, true, "Started service"), init);
    assert_eq!(LogEntry::Init("x").parts(), ("x", true));
    assert_eq!(LogEntry::Service("y").parts(), ("y", false));
}

#[test]
fn a_recorded_log_is_read_back() {
    let empty: [u8; 13] = [0x28, 0xb5, 0x2f, 0xfd, 0x24, 0x00, 0x01, 0x00, 0x00, 0x99, 0xe9, 0xd8, 0x51];
    let mut logger = Logger::new("svc".to_string(), true);
    let u = logger.record(&empty, 1700000000123, true, "Started service", true).unwrap().unwrap();
    assert!(u.shout.is_none());
    let u = logger.record(&u.frame, 1700000000456, false, "hello world", true).unwrap().unwrap();
    assert_eq!(u.shout, Some("\x1b[1;92m[>]\x1b[0m \x1b[1m(svc):\x1b[0m hello world".to_string()));
    assert_eq!(logger.line(), 2);
    assert!(logger.record(&u.frame, 1, false, "", true).unwrap().is_none());
    let svc = PartialService::from_cache("svc", &[0xa4, 0, 1, 0, 0, 0, 0]).unwrap();
    let (lines, stop) = svc.logs(&u.frame, true, false);
    assert!(matches!(stop, LogStop::Finished));
    assert_eq!(lines.len(), 2);
    assert_eq!(lines[0].entry.timestamp, "1700000000123");
    assert!(lines[0].entry.from_init);
    assert_eq!(lines[0].entry.contents, "Started service");
    assert_eq!(lines[0].millis, None);
    assert_eq!(lines[1].entry.contents, "hello world");
    assert!(!lines[1].entry.from_init);
    let (lines, _) = svc.logs(&u.frame, true, true);
    assert_eq!(lines.len(), 1);
    let (lines, stop) = svc.logs(&u.frame, false, false);
    assert!(matches!(stop, LogStop::Finished));
    assert_eq!(lines[0].millis, Some(1700000000123));
    assert_eq!(lines[1].millis, Some(1700000000456));
}

#[test]
fn the_empty_log_is_read_back_with_what_is_recorded() {
    let empty = empty_log();
    let svc = PartialService::from_cache("svc", &[0xa4, 0, 1, 0, 0, 0, 0]).unwrap();
    let (lines, stop) = svc.logs(&empty, true, false);
    assert!(matches!(stop, LogStop::Finished));
    assert!(lines.is_empty());
    let mut logger = Logger::new("svc".to_string(), false);
    let u = logger.record(&empty, 1700000000789, false, "one line", true).unwrap().unwrap();
    let (lines, stop) = svc.logs(&u.frame, true, false);
    assert!(matches!(stop, LogStop::Finished));
    assert_eq!(lines.len(), 1);
    assert_eq!(lines[0].millis, None);
    assert_eq!(lines[0].entry.timestamp, "1700000000789");
    assert_eq!(lines[0].entry.contents, "one line");
}

#[test]
fn a_broken_log_is_refused() {
    let mut logger = Logger::new("svc".to_string(), false);
    let e = logger.record(b"not zstd", 1700000000123, false, "x", true).unwrap_err();
    assert_eq!(e.kind, Error::ServiceLogCompress);
    assert_eq!(logger.line(), 0);
    let svc = PartialService::from_cache("svc", &[0xa4, 0, 1, 0, 0, 0, 0]).unwrap();
    let (lines, stop) = svc.logs(b"not zstd", true, false);
    assert!(lines.is_empty());
    match stop {
        LogStop::Failed(e) => {
            assert_eq!(e.kind, kickit::ktctl::console::Error::LogAccessFail);
            assert_eq!(e.context, Some("svc".to_string()));
        },
        _ => panic!("a frame without a header is refused"),
    }
}

#[test]
fn log_entries_decode() {
    let l = decode_log_entry(b"1700000000123hello", false).unwrap().unwrap();
    assert_eq!(l.timestamp, "1700000000123");
    assert_eq!(l.contents, "hello");
    let mut init = b"1700000000123".to_vec();
    init.push(INIT_ENTRY);
    init.extend_from_slice(b"note");
    assert!(decode_log_entry(&init, true).unwrap().is_none());
    assert!(decode_log_entry(&init, false).unwrap().unwrap().from_init);
    let mut bad = b"1700000000123".to_vec();
    bad.extend_from_slice(&[0xff, 0xfe]);
    assert_eq!(decode_log_entry(&bad, false).unwrap_err().kind, kickit::ktctl::console::Error::Format);
}

#[test]
fn warden_is_given_the_sandbox() {
    let args = warden_args(
        &sandbox(),
        &[PathKind::Dir, PathKind::File],
        "/run/kickit/service/svc/container",
        &VecDeque::from(vec!["/usr/bin/svc".to_string(), "-f".to_string()]),
    )
    .unwrap();
    let expected: Vec<String> = [
        "--mount-system-fs", "--flag", "NewPid", "--flag", "NewNetwork", "--bind-dir", "/etc/ssl", "--bind-file",
        "/etc/hosts", "/run/kickit/service/svc/container", "/usr/bin/svc", "-f",
    ]
    .iter()
    .map(|s| s.to_string())
    .collect();
    assert_eq!(args, expected);
    let e = warden_args(&sandbox(), &[PathKind::Dir, PathKind::Missing], "/c", &VecDeque::from(vec!["x".to_string()])).unwrap_err();
    assert_eq!(e.trace, "No such file or directory: /etc/hosts");
    let e = warden_args(&sandbox(), &[PathKind::Dir, PathKind::File], "/c", &VecDeque::new()).unwrap_err();
    assert_eq!(e.trace, "No executable in args");
    assert_eq!(e.kind, Error::ServiceSandboxInit);
}

#[test]
fn containers_are_prepared() {
    let steps = setup_plan("/c");
    assert_eq!(steps.len(), 17);
    assert!(matches!(&steps[0], SetupStep::Mkdir(p) if p == "/c"));
    assert!(matches!(&steps[3], SetupStep::Mkdir(p) if p == "/c/usr/bin"));
    assert!(matches!(&steps[12], SetupStep::Symlink(t, l) if t == "lib" && l == "/c/usr/lib64"));
    assert!(matches!(&steps[16], SetupStep::Symlink(t, l) if t == "usr/bin" && l == "/c/bin"));
}

#[test]
fn a_service_lives_and_dies() {
    let e = Service::init("svc", config(&[], None, None), true).unwrap_err();
    assert_eq!(e.kind, Error::FileNotFound);
    let e = Service::init("svc", config(&["/bin/svc"], None, None), false).unwrap_err();
    assert_eq!(e.kind, Error::FileNotFound);
    assert_eq!(e.trace, "Service executable missing: svc");
    let mut s = Service::init("svc", config(&["/bin/svc", "-v"], None, None), true).unwrap();
    assert!(s.logger && !s.optional && s.shout());
    assert_eq!(s.pattern, Pattern::Standard);
    assert_eq!(s.run_path("log"), "/run/kickit/service/svc/log");
    assert!(s.up_check().is_ok());
    assert_eq!(s.pid().unwrap_err().kind, Error::ServiceAccess);
    let (exec, args) = s.command(&[]).unwrap();
    assert_eq!(exec, "/bin/svc");
    assert_eq!(args, vec!["-v".to_string()]);
    assert!(s.started(42).is_ok());
    assert_eq!(s.started(43).unwrap_err().trace, "Failed to set PID for svc");
    assert_eq!(s.state(), State::Up);
    assert_eq!(s.pid().unwrap(), 42);
    let e = s.up_check().unwrap_err();
    assert_eq!(e.trace, "already up!");
    assert_eq!(e.context, Some("svc".to_string()));
    assert_eq!(s.cache(false), vec![0xa4, 0, 42, 0, 0, 0, 0, 0, 0, 0, 0]);
    assert_eq!(s.down_check(false).unwrap(), 42);
    assert_eq!(s.down_check(true).unwrap_err().trace, "Service is not ready to be killed");
}

#[test]
fn a_sandboxed_service_runs_through_warden() {
    let mut s = Service::from_config("svc", config(&["/bin/svc"], Some(sandbox()), None));
    assert!(s.sandboxed());
    let (exec, args) = s.command(&[PathKind::Dir, PathKind::Dir]).unwrap();
    assert_eq!(exec, "/usr/lib/kickit/warden");
    assert_eq!(args[args.len() - 2], "/run/kickit/service/svc/container");
    assert!(!s.sandboxed());
}

#[test]
fn run_once_services_finish() {
    let mut s = Service::from_config("job", config(&["/bin/job"], None, Some(Pattern::RunOnce)));
    assert!(s.finished(RunOnceOutcome::Exited(Some(0), true, "exit status: 0".to_string())).is_ok());
    assert_eq!(s.state(), State::Dead(Some(0)));
    let e = s.finished(RunOnceOutcome::Exited(Some(1), false, "exit status: 1".to_string())).unwrap_err();
    assert_eq!(e.trace, "job exited on error (exit status: 1)");
    assert_eq!(s.finished(RunOnceOutcome::TimedOut).unwrap_err().trace, "Timeout while waiting for job");
    assert_eq!(s.down_check(false).unwrap_err().trace, "Cannot kill a service that isn't alive!");
    let e = Service::from_config("x", config(&[], None, None)).command(&[]).unwrap_err();
    assert_eq!(e.trace, "No executable: x");
}
