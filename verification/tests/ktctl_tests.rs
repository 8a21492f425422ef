use kickit::ktctl::ktctl::{parse_args, Operation, Usage, HelpOutput, power_request, init_state, pretty_state, init_pid, peer_error_trace};
use kickit::ktctl::console::Error;
use kickit::ktctl::service::{CacheInstance, PartialService, listed, log_text, Delimit};
use kickit::init::service::{Pattern, State, cache_bytes};
use kickit::socket::{Power, PeerError};
use kickit::state::InitState;

fn args(v: &[&str]) -> Vec<String> {
    v.iter().map(|s| s.to_string()).collect()
}

#[test]
fn operations_are_read_from_arguments() {
    assert!(matches!(parse_args(args(&["shutdown"])).unwrap(), Operation::Shutdown(false)));
    assert!(matches!(parse_args(args(&["reboot"])).unwrap(), Operation::Reboot(false)));
    assert!(matches!(parse_args(args(&["ktctl"])).unwrap(), Operation::Help(None)));
    assert!(matches!(parse_args(args(&["ktctl", "version"])).unwrap(), Operation::Version));
    assert!(matches!(parse_args(args(&["ktctl", "state"])).unwrap(), Operation::State));
    assert!(matches!(parse_args(args(&["ktctl", "target"])).unwrap(), Operation::TargetInfo));
    assert!(matches!(parse_args(args(&["ktctl", "help", "log"])).unwrap(), Operation::Help(Some(ref n)) if n == "log"));
    assert!(matches!(parse_args(args(&["ktctl", "service"])).unwrap(), Operation::ServiceList(None)));
    match parse_args(args(&["ktctl", "service", "a", "b"])).unwrap() {
        Operation::ServiceList(Some(v)) => assert_eq!(v, args(&["a", "b"])),
        _ => panic!("services are listed by name"),
    }
    assert!(matches!(parse_args(args(&["ktctl", "log", "--init"])).unwrap(), Operation::InitLog));
    match parse_args(args(&["ktctl", "log", "--plain", "sshd"])).unwrap() {
        Operation::Log(n, plain, only) => {
            assert_eq!(n, "sshd");
            assert!(plain && !only);
        },
        _ => panic!("a log is asked for by name"),
    }
    let e = parse_args(args(&["ktctl", "log", "--plain"])).unwrap_err();
    assert_eq!(e.kind, Error::MissingArgument);
    assert!(matches!(parse_args(args(&["ktctl", "shutdown", "--force"])).unwrap(), Operation::Shutdown(true)));
    let e = parse_args(args(&["ktctl", "dance"])).unwrap_err();
    assert_eq!(e.kind, Error::InvalidOperation);
    assert_eq!(e.trace, "dance");
}

#[test]
fn root_and_init_are_checked() {
    let op = Operation::Log("x".to_string(), false, false);
    assert!(op.root() && op.init_only());
    assert!(op.sanity(false, true).is_err());
    assert!(op.sanity(true, false).is_err());
    assert!(op.sanity(true, true).is_ok());
    assert!(!op.asks_init(false));
    assert!(op.asks_init(true));
    assert!(Operation::TargetInfo.asks_init(false));
    assert!(!Operation::Version.root() && !Operation::Version.init_only());
    assert!(Operation::Version.sanity(false, false).is_ok());
}

#[test]
fn help_and_usage() {
    assert!(matches!(Operation::Help(None).help().unwrap(), HelpOutput::Usage(Usage::Main)));
    assert!(matches!(Operation::Help(Some("purr".to_string())).help().unwrap(), HelpOutput::Usage(Usage::Taskitty)));
    assert!(matches!(Operation::Help(Some("state".to_string())).help().unwrap(), HelpOutput::Generic(ref n) if n == "state"));
    assert_eq!(Operation::Help(Some("zzz".to_string())).help().unwrap_err().kind, Error::InvalidOperation);
    assert!(matches!(Operation::Help(Some("shutdown".to_string())).help().unwrap(), HelpOutput::Generic(ref l) if l == "shutdown [--force]"));
    assert!(matches!(Operation::Help(Some("reboot".to_string())).help().unwrap(), HelpOutput::Generic(ref l) if l == "reboot [--force]"));
    assert_eq!(Usage::Service.text("ktctl").unwrap(), "Usage: \x1b[1mktctl\x1b[0m service [NAMEs..]");
    let main = Usage::Main.text("ktctl").unwrap();
    assert!(main.starts_with("Usage: \x1b[1mktctl\x1b[0m [ACTION]\nManage the kickit init system\n\n\x1b[1mActions:\x1b[0m\n"));
    assert!(main.ends_with(" reboot [--force]           Reboot this device safely\n\nTry 'ktctl help [ACTION]' for more info\n"));
    assert!(Usage::Log.text("k").unwrap().contains(" --service-only       Ignore any messages from init\n"));
    assert!(Usage::Taskitty.text("k").is_none());
    assert_eq!(Usage::try_from_flag(""), Ok(Usage::Main));
    assert_eq!(Usage::try_from_flag("nope"), Err(()));
}

#[test]
fn power_requests() {
    assert_eq!(power_request(false, false), Power::SHUTDOWN);
    assert_eq!(power_request(true, false), Power::REBOOT);
    assert_eq!(power_request(false, true), Power::FORCE_SHUTDOWN);
    assert_eq!(power_request(true, true), Power::FORCE_REBOOT);
    assert_eq!(peer_error_trace(PeerError::BadInput).trace, PeerError::BadInput.message());
}

#[test]
fn init_state_needs_matching_versions() {
    assert_eq!(init_state(Some(&[0x02]), Some(b"0.1\n"), "0.1"), InitState::Okay);
    assert_eq!(init_state(Some(&[0x02]), Some(b"0.2\n"), "0.1"), InitState::Down);
    assert_eq!(init_state(Some(&[0x02]), None, "0.1"), InitState::Down);
    assert_eq!(init_state(Some(&[0xdc]), None, "0.1"), InitState::Stalled);
    assert_eq!(init_state(None, None, "0.1"), InitState::Down);
    assert_eq!(pretty_state(InitState::Okay, 1), "\x1b[1;92mOkay\x1b[0m");
    assert_eq!(pretty_state(InitState::Stalled, 300), "\x1b[1;33mStalled\x1b[0m (pid: 300)");
    assert_eq!(init_pid(&[1, 0, 0, 0]).unwrap(), 1);
    assert_eq!(init_pid(&[1, 0]).unwrap_err().trace, "invalid init pid!");
}

#[test]
fn a_cache_is_read_back() {
    let bytes = cache_bytes(Pattern::Forking, true, State::Dead(Some(-3)), 99);
    let s = PartialService::from_cache("svc", &bytes).unwrap();
    assert_eq!(s.name(), "svc");
    assert_eq!(s.pattern(), Pattern::Forking);
    assert!(s.sandboxed());
    assert_eq!(s.status(), Some(-3));
    assert_eq!(s.pid(), 99);
    let c = CacheInstance::read(&bytes).unwrap();
    assert_eq!(c.pid, 99);
    assert_eq!(c.export().unwrap(), (Pattern::Forking, true, 99, Some(-3)));
}

#[test]
fn a_bad_cache_is_refused() {
    let e = PartialService::from_cache("svc", &[0xa4, 0, 1]).unwrap_err();
    assert_eq!(e.kind, Error::ServiceConfig);
    assert_eq!(e.trace, "failed to fill whole buffer");
    assert_eq!(e.context, Some("svc".to_string()));
    let e = PartialService::from_cache("svc", &[0x00, 0, 1, 0, 0, 0, 0]).unwrap_err();
    assert_eq!(e.trace, "Expected valid pattern byte, got: 0");
    let e = PartialService::from_cache("svc", &[0xa4, 7, 1, 0, 0, 0, 0]).unwrap_err();
    assert_eq!(e.trace, "expected 0 or 1 for a boolean, got 7");
}

#[test]
fn services_are_reported() {
    let s = PartialService::from_cache("sshd", &[0xa4, 1, 7, 0, 0, 0, 0]).unwrap();
    assert_eq!(s.path("stat"), "/proc/7/stat");
    assert_eq!(s.path("log"), "/run/kickit/service/sshd/log");
    assert_eq!(s.status_label(Some("7 (sshd) S 1")).0, "Up");
    assert_eq!(s.status_label(Some("7 (sshd) Z 1")).0, "Dead");
    assert_eq!(s.status_label(Some("7 (sshd) W 1")).0, "Unknown");
    assert_eq!(s.status_label(None).0, "Dead");
    let lines = s.report(Some("7 (sshd) R 1"));
    assert_eq!(lines, vec![
        "\x1b[1msshd\x1b[0m".to_string(),
        "├─ Status:    \x1b[1;92mUp\x1b[0m".to_string(),
        "├─ Sandboxed: \x1b[1;92myes\x1b[0m".to_string(),
        "└─ PID:       7".to_string(),
        String::new(),
    ]);
    let job = PartialService::from_cache("job", &cache_bytes(Pattern::RunOnce, false, State::Dead(Some(2)), 0)).unwrap();
    assert_eq!(job.status_label(None).0, "Failed (exit code 2)");
    let done = PartialService::from_cache("job", &cache_bytes(Pattern::RunOnce, false, State::Dead(Some(0)), 0)).unwrap();
    assert_eq!(done.status_label(None).0, "Finished");
    assert!(listed("a", None));
    assert!(listed("a", Some(&["a".to_string()])));
    assert!(!listed("b", Some(&["a".to_string()])));
}

#[test]
fn log_lines_are_shown() {
    assert_eq!(log_text("t", false, true, "msg"), "[t] msg\n");
    assert_eq!(log_text("t", true, true, "msg"), "[t] (kickit) msg\n");
    assert_eq!(log_text("t", true, false, "msg"), "[t] \x1b[1m(kickit) \x1b[0mmsg\n");
}

#[test]
fn records_are_delimited() {
    let mut d = b"ab\n\ncd".to_vec().delimit(b'\n');
    assert_eq!(d.next(), Some(b"ab".to_vec()));
    assert_eq!(d.next(), Some(b"".to_vec()));
    assert_eq!(d.next(), Some(b"cd".to_vec()));
    assert_eq!(d.next(), None);
    let mut d = b"x\n".to_vec().delimit(b'\n');
    assert_eq!(d.next(), Some(b"x".to_vec()));
    assert_eq!(d.next(), None);
}

#[test]
fn ktctl_errors_are_shown() {
    let e = Error::BadService.trace("gone\n").context("svc");
    assert_eq!(e.fatal_text("ktctl"), "ktctl: \x1b[1;31merror:\x1b[0m \x1b[1mService not found\x1b[0m: gone: svc");
    assert_eq!(e.warn_text(), "Service not found: gone");
    assert_eq!(Error::InitNotRunning.fatal_text("k"), format!("k: \x1b[1;31merror:\x1b[0m \x1b[1m{}\x1b[0m", Error::InitNotRunning.message()));
    assert_eq!(kickit::ktctl::console::warn_line("k", "hm"), "k: \x1b[1;33mwarning:\x1b[0m \x1b[1mhm\x1b[0m");
}
