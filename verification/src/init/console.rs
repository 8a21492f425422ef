//! Errors of the init process, and the markers of its log

use vstd::prelude::*;
use vstd::string::*;
use crate::console::{ErrorResult, ExtendWithContext, Colour, Colourize, resolved};
use crate::text::{opt_string, strings, trim_end_seq, trim_end_char};
use crate::state::InitState;

verus! {
/// Every error that can be raised
#[derive(PartialEq, Eq, Clone, Copy, Debug, Structural)]
pub enum Error {
    Unknown,
    AlreadyRunning,
    NotInit,
    NotRoot,
    FileNotFound,
    RunFsFail,
    Cmdline,
    BadCmdline,
    Time,
    Format,
    TargetNotFound,
    TargetMissingValue,
    TargetParse,
    SocketStartup,
    SocketIoRead,
    SocketIoWrite,
    SocketIo,
    ServiceParse,
    ServiceAccess,
    ServiceUp,
    ServiceDown,
    ServiceLog,
    ServiceLogContent,
    ServiceLogCompress,
    ServiceNotRunning,
    ServiceZombified,
    ServiceSandboxBadOpt,
    ServiceSandboxInit,
    AccessLog,
    FstabParse,
    SysFsMount,
    SysFsUnmount,
    Shutdown,
    ProcFs,
    PowerCritical,
}

impl Error {
    pub open spec fn spec_message(self) -> Seq<char> {
        match self {
            Error::Unknown => "An unknown error occurred"@,
            Error::AlreadyRunning => "kickit is already running!"@,
            Error::NotInit => "kickit must be ran as the init process"@,
            Error::NotRoot => "Insufficient permissions: kickit can only be ran as root"@,
            Error::FileNotFound => "File or directory not found"@,
            Error::RunFsFail => "Failed to setup work directory"@,
            Error::Cmdline => "Kernel command-line parameter not found"@,
            Error::BadCmdline => "Invalid command-line parameter"@,
            Error::Time => "Failed to get the current system time"@,
            Error::Format => "Failed to format content in UTF-8"@,
            Error::TargetNotFound => "Target not found, has it been created in the library folder?"@,
            Error::TargetMissingValue => "A required value is missing in target configuration"@,
            Error::TargetParse => "Failed to parse target configuration file"@,
            Error::SocketStartup => "Failed to start up a socket"@,
            Error::SocketIoRead => "Socket read connection failure"@,
            Error::SocketIoWrite => "Socket write connection failure"@,
            Error::SocketIo => "Input/output connections failed on socket"@,
            Error::ServiceParse => "Failed to parse service configuration file"@,
            Error::ServiceAccess => "Failed to access a service's files"@,
            Error::ServiceUp => "Failed to start a service"@,
            Error::ServiceDown => "Failed to stop a service"@,
            Error::ServiceLog => "Failed to start logger for a service"@,
            Error::ServiceLogContent => "Failed to read from the service's logger"@,
            Error::ServiceLogCompress => "Failed to compress/decompress the service's logger"@,
            Error::ServiceNotRunning => "Service was killed or stopped"@,
            Error::ServiceZombified => "Service became a zombie"@,
            Error::ServiceSandboxBadOpt => "Invalid sandboxing option specified"@,
            Error::ServiceSandboxInit => "Failed to initialise sandbox directory"@,
            Error::AccessLog => "Failed to access a logfile"@,
            Error::FstabParse => "Invalid formatted line in fstab"@,
            Error::SysFsMount => "Failed to mount a critical filesystem"@,
            Error::SysFsUnmount => "Failed to unmount a filesystem"@,
            Error::Shutdown => "Failed to shutdown the init system"@,
            Error::ProcFs => "Failed to read from the proc filesystem"@,
            Error::PowerCritical => "A critical error occurred while trying to power down the system"@,
        }
    }

    /// The error's description, as it is displayed
    pub fn message(&self) -> (r: &'static str)
        ensures
            r@ == self.spec_message(),
    {
        match self {
            Error::Unknown => "An unknown error occurred",
            Error::AlreadyRunning => "kickit is already running!",
            Error::NotInit => "kickit must be ran as the init process",
            Error::NotRoot => "Insufficient permissions: kickit can only be ran as root",
            Error::FileNotFound => "File or directory not found",
            Error::RunFsFail => "Failed to setup work directory",
            Error::Cmdline => "Kernel command-line parameter not found",
            Error::BadCmdline => "Invalid command-line parameter",
            Error::Time => "Failed to get the current system time",
            Error::Format => "Failed to format content in UTF-8",
            Error::TargetNotFound => "Target not found, has it been created in the library folder?",
            Error::TargetMissingValue => "A required value is missing in target configuration",
            Error::TargetParse => "Failed to parse target configuration file",
            Error::SocketStartup => "Failed to start up a socket",
            Error::SocketIoRead => "Socket read connection failure",
            Error::SocketIoWrite => "Socket write connection failure",
            Error::SocketIo => "Input/output connections failed on socket",
            Error::ServiceParse => "Failed to parse service configuration file",
            Error::ServiceAccess => "Failed to access a service's files",
            Error::ServiceUp => "Failed to start a service",
            Error::ServiceDown => "Failed to stop a service",
            Error::ServiceLog => "Failed to start logger for a service",
            Error::ServiceLogContent => "Failed to read from the service's logger",
            Error::ServiceLogCompress => "Failed to compress/decompress the service's logger",
            Error::ServiceNotRunning => "Service was killed or stopped",
            Error::ServiceZombified => "Service became a zombie",
            Error::ServiceSandboxBadOpt => "Invalid sandboxing option specified",
            Error::ServiceSandboxInit => "Failed to initialise sandbox directory",
            Error::AccessLog => "Failed to access a logfile",
            Error::FstabParse => "Invalid formatted line in fstab",
            Error::SysFsMount => "Failed to mount a critical filesystem",
            Error::SysFsUnmount => "Failed to unmount a filesystem",
            Error::Shutdown => "Failed to shutdown the init system",
            Error::ProcFs => "Failed to read from the proc filesystem",
            Error::PowerCritical => "A critical error occurred while trying to power down the system",
        }
    }
}

impl Default for Error {
    fn default() -> (r: Error)
        ensures
            r == Error::Unknown,
    {
        Error::Unknown
    }
}

/// An error of kind `kind`, with an optional context (usually the name of what
/// failed) and a trace (the underlying cause, as text)
#[derive(Clone, Debug)]
pub struct ErrorTrace {
    pub kind: Error,
    pub context: Option<String>,
    pub trace: String,
}

/// An `ErrorTrace` with its texts as sequences
pub struct ErrorTraceView {
    pub kind: Error,
    pub context: Option<Seq<char>>,
    pub trace: Seq<char>,
}

impl View for ErrorTrace {
    type V = ErrorTraceView;

    open spec fn view(&self) -> ErrorTraceView {
        ErrorTraceView { kind: self.kind, context: opt_string(self.context), trace: self.trace@ }
    }
}

pub open spec fn traced(kind: Error, trace: Seq<char>) -> ErrorTraceView {
    ErrorTraceView { kind, context: None, trace }
}

/// A result whose error is an `ErrorTrace`
pub type Result<S> = core::result::Result<S, ErrorTrace>;

impl Error {
    /// This error with a trace and no context
    pub fn trace(self, trace: &str) -> (r: ErrorTrace)
        ensures
            r@ == traced(self, trace@),
    {
        ErrorTrace { kind: self, context: None, trace: trace.to_owned() }
    }
}

impl ErrorTrace {
    /// The same error with `context` as its context
    pub fn context(self, context: &str) -> (r: ErrorTrace)
        ensures
            r@ == (ErrorTraceView { kind: self@.kind, context: Some(context@), trace: self@.trace }),
    {
        ErrorTrace { kind: self.kind, context: Some(context.to_owned()), trace: self.trace }
    }

    pub open spec fn spec_warn_text(self) -> Seq<char> {
        if self@.trace.len() == 0 {
            self@.kind.spec_message()
        } else {
            self@.kind.spec_message() + ": "@ + self@.trace
        }
    }

    /// What a warning about this error says: the kind's description, then the
    /// trace when there is one
    pub fn warn_text(&self) -> (r: String)
        ensures
            r@ == self.spec_warn_text(),
    {
        let mut s = String::from_str(self.kind.message());
        if self.trace.as_str().unicode_len() != 0 {
            s.append(": ");
            s.append(self.trace.as_str());
        }
        s
    }
}

/// Strip a traced error down to its kind
impl From<ErrorTrace> for Error {
    fn from(trace: ErrorTrace) -> (r: Error) {
        trace.kind
    }
}

impl vstd::std_specs::convert::FromSpecImpl<ErrorTrace> for Error {
    open spec fn obeys_from_spec() -> bool {
        true
    }

    open spec fn from_spec(trace: ErrorTrace) -> Error {
        trace.kind
    }
}

impl Error {
    /// This error with an empty trace and no context
    pub fn traceless(self) -> (r: ErrorTrace)
        ensures
            r@ == traced(self, Seq::<char>::empty()),
    {
        proof {
            reveal_strlit("");
            assert(""@ =~= Seq::<char>::empty());
        }
        self.trace("")
    }
}

impl<OkType> ExtendWithContext<OkType, ErrorTrace> for Result<OkType> {
    /// If this result is an error, give it `context` as its context
    fn context(self, context: &str) -> (r: Result<OkType>)
        ensures
            match self {
                Ok(v) => r == Ok::<OkType, ErrorTrace>(v),
                Err(e) => r matches Err(e2) && e2@ == (ErrorTraceView {
                    kind: e@.kind,
                    context: Some(context@),
                    trace: e@.trace,
                }),
            },
    {
        match self {
            Ok(ok) => Ok(ok),
            Err(err) => Err(err.context(context)),
        }
    }
}

impl<OkType> ErrorResult<Error, ErrorTrace, OkType> for core::result::Result<OkType, String> {
    /// An error's text becomes the trace of an error of kind `kind`
    fn into_trace(self, kind: Error) -> (r: Result<OkType>)
        ensures
            match self {
                Ok(v) => r == Ok::<OkType, ErrorTrace>(v),
                Err(e) => r matches Err(t) && t@ == traced(kind, e@),
            },
    {
        match self {
            Ok(v) => Ok(v),
            Err(e) => Err(kind.trace(e.as_str())),
        }
    }
}

impl ErrorResult<Error, ErrorTrace, ()> for Option<String> {
    /// The option holds an error: `Some` gives an error of kind `kind` traced with its text
    fn into_trace(self, kind: Error) -> (r: Result<()>)
        ensures
            match self {
                None => r == Ok::<(), ErrorTrace>(()),
                Some(e) => r matches Err(t) && t@ == traced(kind, e@),
            },
    {
        match self {
            Some(e) => Err(kind.trace(e.as_str())),
            None => Ok(()),
        }
    }
}

impl ErrorResult<Error, ErrorTrace, ()> for String {
    /// A text is always an error's trace
    fn into_trace(self, kind: Error) -> (r: Result<()>)
        ensures
            r matches Err(t) && t@ == traced(kind, self@),
    {
        Err(kind.trace(self.as_str()))
    }
}

/// The markers at the head of the lines of the master log
#[derive(PartialEq, Eq, Clone, Copy, Debug, Structural)]
pub enum Marker {
    Status,
    Warn,
    Fatal,
    Service,
}

impl Marker {
    pub open spec fn spec_text(self) -> Seq<char> {
        match self {
            Marker::Status => "\x1b[1m[*]\x1b[0m"@,
            Marker::Warn => "\x1b[1;33m[-]\x1b[0m"@,
            Marker::Fatal => "\x1b[1;31m[!]\x1b[0m"@,
            Marker::Service => "\x1b[1;92m[>]\x1b[0m"@,
        }
    }

    /// The marker as it is displayed
    pub fn text(self) -> (r: &'static str)
        ensures
            r@ == self.spec_text(),
    {
        match self {
            Marker::Status => "\x1b[1m[*]\x1b[0m",
            Marker::Warn => "\x1b[1;33m[-]\x1b[0m",
            Marker::Fatal => "\x1b[1;31m[!]\x1b[0m",
            Marker::Service => "\x1b[1;92m[>]\x1b[0m",
        }
    }
}

/// A status line of the master log: the status marker, then the message
pub fn status_line(message: &str) -> (r: String)
    ensures
        r@ == Marker::Status.spec_text() + " "@ + message@,
{
    let mut s = String::from_str(Marker::Status.text());
    s.append(" ");
    s.append(message);
    s
}

/// A warning line of the master log: the warning marker, then the message in bold
pub fn warn_line(message: &str) -> (r: String)
    ensures
        r@ == Marker::Warn.spec_text() + " "@ + Colour::Bold.spec_code() + message@
            + Colour::Reset.spec_code(),
{
    let mut s = String::from_str(Marker::Warn.text());
    s.append(" ");
    s.append(Colour::Bold.code());
    s.append(message);
    s.append(Colour::Reset.code());
    s
}

impl Error {
    /// Whether a fatal error of this kind opens the emergency shell: all but
    /// the errors of starting kickit in the wrong place do
    pub fn opens_emergency_shell(self) -> (r: bool)
        ensures
            r == !(self == Error::AlreadyRunning || self == Error::NotInit || self == Error::NotRoot),
    {
        match self {
            Error::AlreadyRunning | Error::NotInit | Error::NotRoot => false,
            _ => true,
        }
    }

    /// The line logged when this error, without a trace, is fatal
    pub fn fatal_line(self) -> (r: String)
        ensures
            r@ == Marker::Fatal.spec_text() + " "@ + resolved(
                seq![Colour::Red],
                self.spec_message(),
                false,
            ),
    {
        let mut s = String::from_str(Marker::Fatal.text());
        s.append(" ");
        let c = String::from_str(self.message()).colour(Colour::Red).resolve();
        s.append(c.as_str());
        s
    }
}

impl ErrorTrace {
    pub open spec fn spec_fatal_lines(self) -> Seq<Seq<char>> {
        let first = Marker::Fatal.spec_text() + " "@ + resolved(
            seq![Colour::Red],
            self@.kind.spec_message(),
            false,
        ) + match self@.context {
            Some(c) => ": "@ + c,
            None => Seq::empty(),
        };
        if self@.trace.len() == 0 {
            seq![first]
        } else {
            seq![first, Marker::Fatal.spec_text() + " >> "@ + trim_end_seq(self@.trace, '\n')]
        }
    }

    /// The lines logged when this error is fatal: the kind in red with its
    /// context, then the trace when there is one
    pub fn fatal_lines(&self) -> (r: Vec<String>)
        ensures
            strings(r@) == self.spec_fatal_lines(),
    {
        let mut first = String::from_str(Marker::Fatal.text());
        first.append(" ");
        let c = String::from_str(self.kind.message()).colour(Colour::Red).resolve();
        first.append(c.as_str());
        let ghost head = first@;
        match &self.context {
            Some(ctx) => {
                first.append(": ");
                first.append(ctx.as_str());
                assert(first@ =~= head + (": "@ + ctx@));
            },
            None => {
                assert(first@ =~= head + Seq::<char>::empty());
            },
        }
        assert(first@ == self.spec_fatal_lines()[0]);
        let mut out: Vec<String> = Vec::new();
        out.push(first);
        if self.trace.as_str().unicode_len() != 0 {
            let mut second = String::from_str(Marker::Fatal.text());
            second.append(" >> ");
            let t = trim_end_char(self.trace.as_str(), '\n');
            second.append(t.as_str());
            out.push(second);
            assert(strings(out@) =~= self.spec_fatal_lines());
        } else {
            assert(strings(out@) =~= self.spec_fatal_lines());
        }
        out
    }
}

impl Colourize for Error {
    open spec fn spec_text(&self) -> Seq<char> {
        self.spec_message()
    }

    fn text(&self) -> (r: String) {
        String::from_str(self.message())
    }
}

/// How the emergency shell is opened: the state the init enters before it
/// opens, its wrapper program, run as the unprivileged shell user and the
/// `nobody` group, with the shell to run, and the warnings logged before it
/// opens and after it exits
#[derive(Clone, Debug)]
pub struct EmergencyShell {
    pub state: InitState,
    pub program: &'static str,
    pub uid: u32,
    pub gid: u32,
    pub arg: &'static str,
    pub before: String,
    pub after: String,
}

/// The group ID of `nobody`
pub const NOBODY_GID: u32 = 65534;

/// What a critical error does, given the init's state (none when it cannot
/// be locked): unless the init is in an emergency already, it enters one
/// (the shell's `state`) and the unprivileged emergency shell is opened once; either way the init then
/// hangs, since exiting would panic the kernel
#[allow(non_snake_case)]
pub fn kickToEmergencyShell(state: Option<InitState>) -> (r: Option<EmergencyShell>)
    ensures
        match state {
            Some(s) => if s != InitState::Emergency {
                r matches Some(sh) && sh.state == InitState::Emergency
                    && sh.program@ == "/usr/lib/kickit/emergency_shell"@ && sh.uid
                    == crate::init::EMERGENCY_SHELL_UID && sh.gid == NOBODY_GID && sh.arg@
                    == crate::init::EMERGENCY_SHELL@ && sh.before@ == Marker::Warn.spec_text() + " "@
                    + Colour::Bold.spec_code()
                    + "Critical error when starting init, starting unprivileged emergency shell now"@
                    + Colour::Reset.spec_code() && sh.after@ == Marker::Warn.spec_text() + " "@
                    + Colour::Bold.spec_code() + "Hanging on error, shell was exited!"@
                    + Colour::Reset.spec_code()
            } else {
                r is None
            },
            None => r is None,
        },
{
    match state {
        Some(s) => {
            if s == InitState::Emergency {
                return None;
            }
            let before = warn_line("Critical error when starting init, starting unprivileged emergency shell now");
            let after = warn_line("Hanging on error, shell was exited!");
            Some(
                EmergencyShell {
                    state: InitState::Emergency,
                    program: "/usr/lib/kickit/emergency_shell",
                    uid: crate::init::EMERGENCY_SHELL_UID,
                    gid: NOBODY_GID,
                    arg: crate::init::EMERGENCY_SHELL,
                    before,
                    after,
                },
            )
        },
        None => None,
    }
}

} // verus!
