use kickit::console::{Colour, Colourize, FmtString, FmtStr};
use kickit::state::InitState;
use kickit::init::console::{
    Error, Marker, status_line, warn_line, kickToEmergencyShell, NOBODY_GID,
};
use kickit::console::{ErrorResult, ExtendWithContext};
use kickit::init::{EMERGENCY_SHELL, EMERGENCY_SHELL_UID};
use kickit::init::init_console;
use kickit::init::init_console::ErrorResult as OldErrorResult;
use kickit::ktctl::ktctl_console::{KTCtlError, KTCtlErrorTrace, ConvKTCtlError};

#[test]
fn colours_resolve_to_escape_codes() {
    assert_eq!("hi".colour(Colour::Red).resolve(), "\x1b[1;31mhi\x1b[0m");
    assert_eq!("hi".bold().resolve(), "\x1b[1mhi\x1b[0m");
    assert_eq!(String::from("x").colour(Colour::Green).resolve(), "\x1b[1;92mx\x1b[0m");
    assert_eq!(InitState::Stalled.colour(Colour::Orange).resolve(), "\x1b[1;33mStalled\x1b[0m");
    assert_eq!(Colour::Reset.code(), "\x1b[0m");
}

#[test]
fn formatted_strings_build_up() {
    let mut f = FmtString::new().colour(Colour::Bold).colour(Colour::Red);
    f.push_str("abc");
    assert_eq!(f.resolve(), "\x1b[1m\x1b[1;31mabc\x1b[0m");
    let f = f.reset(false);
    assert_eq!(f.resolve(), "\x1b[1m\x1b[1;31mabc");
    let mut g = f.clone();
    g.clear();
    assert_eq!(g.inner(), "");
    assert_eq!(g.resolve(), "\x1b[1m\x1b[1;31m");
    let mut h = FmtString::from_string("t".to_string());
    h.push_colour(Colour::Green);
    assert_eq!(h.as_ref().resolve(), h.resolve());
    assert_eq!(FmtStr::new().resolve(), "\x1b[0m");
    assert_eq!(FmtStr::from_str("plain").to_owned().resolve(), "plain\x1b[0m");
    assert_eq!(FmtStr::from_str("plain").inner(), "plain");
}

#[test]
fn errors_describe_themselves() {
    assert_eq!(Error::default(), Error::Unknown);
    assert_eq!(Error::Unknown.message(), "An unknown error occurred");
    assert_eq!(Error::NotRoot.message(), "Insufficient permissions: kickit can only be ran as root");
    let t = Error::ServiceUp.trace("already up!").context("sshd");
    assert_eq!(t.kind, Error::ServiceUp);
    assert_eq!(t.context, Some("sshd".to_string()));
    assert_eq!(t.trace, "already up!");
    assert_eq!(Error::from(t.clone()), Error::ServiceUp);
    assert_eq!(t.warn_text(), "Failed to start a service: already up!");
    assert_eq!(Error::Time.traceless().warn_text(), "Failed to get the current system time");
}

#[test]
fn results_take_context_and_traces() {
    let r: Result<u8, String> = Err("boom".to_string());
    let t = r.into_trace(Error::Format).context("file").unwrap_err();
    assert_eq!(t.kind, Error::Format);
    assert_eq!(t.trace, "boom");
    assert_eq!(t.context, Some("file".to_string()));
    let ok: Result<u8, String> = Ok(3);
    assert_eq!(ok.into_trace(Error::Format).unwrap(), 3);
    assert!(None::<String>.into_trace(Error::Format).is_ok());
    assert_eq!(Some("why".to_string()).into_trace(Error::Format).unwrap_err().trace, "why");
    assert_eq!("always".to_string().into_trace(Error::Shutdown).unwrap_err().kind, Error::Shutdown);
}

#[test]
fn log_lines_carry_markers() {
    assert_eq!(Marker::Status.text(), "\x1b[1m[*]\x1b[0m");
    assert_eq!(status_line("Starting"), "\x1b[1m[*]\x1b[0m Starting");
    assert_eq!(warn_line("careful"), "\x1b[1;33m[-]\x1b[0m \x1b[1mcareful\x1b[0m");
}

#[test]
fn fatal_errors_are_logged_with_their_trace() {
    assert_eq!(Error::NotInit.fatal_line(), "\x1b[1;31m[!]\x1b[0m \x1b[1;31mkickit must be ran as the init process\x1b[0m");
    let lines = Error::ServiceUp.trace("bad\n").context("svc").fatal_lines();
    assert_eq!(lines, vec![
        "\x1b[1;31m[!]\x1b[0m \x1b[1;31mFailed to start a service\x1b[0m: svc".to_string(),
        "\x1b[1;31m[!]\x1b[0m >> bad".to_string(),
    ]);
    assert_eq!(Error::Time.traceless().fatal_lines().len(), 1);
}

#[test]
fn only_misplaced_starts_skip_the_emergency_shell() {
    assert!(!Error::AlreadyRunning.opens_emergency_shell());
    assert!(!Error::NotInit.opens_emergency_shell());
    assert!(!Error::NotRoot.opens_emergency_shell());
    assert!(Error::ServiceUp.opens_emergency_shell());
}

#[test]
fn emergency_shell_opens_once() {
    let sh = kickToEmergencyShell(Some(InitState::Okay)).unwrap();
    assert_eq!(sh.state, InitState::Emergency);
    assert_eq!(sh.program, "/usr/lib/kickit/emergency_shell");
    assert_eq!(sh.uid, EMERGENCY_SHELL_UID);
    assert_eq!(sh.uid, 490);
    assert_eq!(sh.gid, NOBODY_GID);
    assert_eq!(sh.arg, EMERGENCY_SHELL);
    assert_eq!(sh.before, warn_line("Critical error when starting init, starting unprivileged emergency shell now"));
    assert!(kickToEmergencyShell(Some(InitState::Emergency)).is_none());
    assert!(kickToEmergencyShell(None).is_none());
}

#[test]
fn first_init_console_builds_traces() {
    let t = init_console::ErrorTrace::with_context(init_console::Error::ServiceUp, "svc", "why");
    assert_eq!(t.kind(), init_console::Error::ServiceUp);
    assert_eq!(t.warn_text(), "Failed to start a service: why");
    let d = init_console::ErrorTrace::default();
    assert_eq!(d.kind(), init_console::Error::Unknown);
    assert_eq!(d.warn_text(), "An unknown error occurred");
    let r: Result<(), String> = Err("e".to_string());
    assert_eq!(OldErrorResult::context_trace(r, "ctx", init_console::Error::Socket).unwrap_err().warn_text(), "Failed to read from a socket: e");
    assert_eq!(init_console::Marker::Fatal.text(), Marker::Fatal.text());
    assert!(OldErrorResult::trace(None::<String>, init_console::Error::Format).is_ok());
    assert_eq!(init_console::Error::from(init_console::Error::Cmdline.traceless()), init_console::Error::Cmdline);
}

#[test]
fn ktctl_first_console_builds_traces() {
    let t = KTCtlErrorTrace::with_context(KTCtlError::BadService, "svc", "gone\n");
    assert_eq!(t.kind(), KTCtlError::BadService);
    assert_eq!(t.fatal_text("ktctl"), "ktctl \x1b[1;31m(ERROR):\x1b[1m An unrecognised service was provided\x1b[0m: gone: svc");
    assert_eq!(t.warn_text(), "An unrecognised service was provided: gone");
    assert_eq!(KTCtlError::BadPerms.fatal_text("ktctl"), "ktctl \x1b[1;31m(ERROR):\x1b[1m Permission denied: Root is required for this operation\x1b[0m");
    let r: Result<u8, String> = Err("x".to_string());
    assert_eq!(ConvKTCtlError::trace(r, KTCtlError::FormatFail).unwrap_err().warn_text(), "Invalid file encoding (expected UTF-8): x");
    assert_eq!(ConvKTCtlError::trace(Some(4u8), KTCtlError::FormatFail).unwrap(), 4);
    assert_eq!(ConvKTCtlError::context_trace(None::<u8>, "c", KTCtlError::FormatFail).unwrap_err().fatal_text("k"), "k \x1b[1;31m(ERROR):\x1b[1m Invalid file encoding (expected UTF-8)\x1b[0m: c");
    assert_eq!(ConvKTCtlError::trace("s".to_string(), KTCtlError::SocketAccessFail).unwrap_err().kind(), KTCtlError::SocketAccessFail);
}
