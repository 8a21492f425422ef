//! The first error handling of the init process: its errors, traced errors
//! built by constructors, and the conversions into them

use vstd::prelude::*;
use vstd::string::*;
use crate::text::opt_string;

verus! {

/// The markers at the head of the lines of the master log
#[derive(PartialEq, Eq, Clone, Copy, Debug, Structural)]
pub enum Marker {
    Status,
    Warn,
    Fatal,
    Service,
}

impl Marker {
    pub open spec fn spec_text(self) -> Seq<char> {
        match self {
            Marker::Status => "\x1b[1m[*]\x1b[0m"@,
            Marker::Warn => "\x1b[1;33m[-]\x1b[0m"@,
            Marker::Fatal => "\x1b[1;31m[!]\x1b[0m"@,
            Marker::Service => "\x1b[1;92m[>]\x1b[0m"@,
        }
    }

    /// The marker as it is displayed
    pub fn text(self) -> (r: &'static str)
        ensures
            r@ == self.spec_text(),
    {
        match self {
            Marker::Status => "\x1b[1m[*]\x1b[0m",
            Marker::Warn => "\x1b[1;33m[-]\x1b[0m",
            Marker::Fatal => "\x1b[1;31m[!]\x1b[0m",
            Marker::Service => "\x1b[1;92m[>]\x1b[0m",
        }
    }
}
/// Every error that can be raised
#[derive(PartialEq, Eq, Clone, Copy, Debug, Structural)]
pub enum Error {
    Unknown,
    AlreadyRunning,
    NotInit,
    NotRoot,
    FileNotFound,
    RunFsFail,
    Cmdline,
    Format,
    TargetMissingValue,
    TargetParse,
    Socket,
    ServiceParse,
    ServiceAccess,
    ServiceUp,
    ServiceDown,
    ServiceLog,
    ServiceNotRunning,
    ServiceZombified,
    AccessLog,
    SysFsMount,
    SysFsUnmount,
    Shutdown,
}

impl Error {
    pub open spec fn spec_message(self) -> Seq<char> {
        match self {
            Error::Unknown => "An unknown error occurred"@,
            Error::AlreadyRunning => "kickit is already running!"@,
            Error::NotInit => "kickit must be ran as the init process"@,
            Error::NotRoot => "Insufficient permissions: kickit can only be ran as root"@,
            Error::FileNotFound => "File or directory not found"@,
            Error::RunFsFail => "Failed to setup work directory"@,
            Error::Cmdline => "Kernel command-line parameter not found"@,
            Error::Format => "Failed to format content in UTF-8"@,
            Error::TargetMissingValue => "A required value is missing in target configuration"@,
            Error::TargetParse => "Failed to parse target configuration file"@,
            Error::Socket => "Failed to read from a socket"@,
            Error::ServiceParse => "Failed to parse service configuration file"@,
            Error::ServiceAccess => "Failed to access a service"@,
            Error::ServiceUp => "Failed to start a service"@,
            Error::ServiceDown => "Failed to stop a service"@,
            Error::ServiceLog => "Failed to start logger for a service"@,
            Error::ServiceNotRunning => "Service was killed or stopped"@,
            Error::ServiceZombified => "Service became a zombie"@,
            Error::AccessLog => "Failed to access a logfile"@,
            Error::SysFsMount => "Failed to mount a critical filesystem"@,
            Error::SysFsUnmount => "Failed to unmount a filesystem"@,
            Error::Shutdown => "Failed to shutdown the init system"@,
        }
    }

    /// The error's description, as it is displayed
    pub fn message(&self) -> (r: &'static str)
        ensures
            r@ == self.spec_message(),
    {
        match self {
            Error::Unknown => "An unknown error occurred",
            Error::AlreadyRunning => "kickit is already running!",
            Error::NotInit => "kickit must be ran as the init process",
            Error::NotRoot => "Insufficient permissions: kickit can only be ran as root",
            Error::FileNotFound => "File or directory not found",
            Error::RunFsFail => "Failed to setup work directory",
            Error::Cmdline => "Kernel command-line parameter not found",
            Error::Format => "Failed to format content in UTF-8",
            Error::TargetMissingValue => "A required value is missing in target configuration",
            Error::TargetParse => "Failed to parse target configuration file",
            Error::Socket => "Failed to read from a socket",
            Error::ServiceParse => "Failed to parse service configuration file",
            Error::ServiceAccess => "Failed to access a service",
            Error::ServiceUp => "Failed to start a service",
            Error::ServiceDown => "Failed to stop a service",
            Error::ServiceLog => "Failed to start logger for a service",
            Error::ServiceNotRunning => "Service was killed or stopped",
            Error::ServiceZombified => "Service became a zombie",
            Error::AccessLog => "Failed to access a logfile",
            Error::SysFsMount => "Failed to mount a critical filesystem",
            Error::SysFsUnmount => "Failed to unmount a filesystem",
            Error::Shutdown => "Failed to shutdown the init system",
        }
    }
}

impl Default for Error {
    fn default() -> (r: Error)
        ensures
            r == Error::Unknown,
    {
        Error::Unknown
    }
}

/// An error of kind `kind`, with an optional context and a trace
#[derive(Clone, Debug)]
pub struct ErrorTrace {
    kind: Error,
    context: Option<String>,
    trace: String,
}

pub struct ErrorTraceView {
    pub kind: Error,
    pub context: Option<Seq<char>>,
    pub trace: Seq<char>,
}

impl View for ErrorTrace {
    type V = ErrorTraceView;

    closed spec fn view(&self) -> ErrorTraceView {
        ErrorTraceView { kind: self.kind, context: opt_string(self.context), trace: self.trace@ }
    }
}

/// A result whose error is an `ErrorTrace`
pub type Result<S> = core::result::Result<S, ErrorTrace>;

impl ErrorTrace {
    /// An error with a trace and no context
    pub fn new(k: Error, t: &str) -> (r: ErrorTrace)
        ensures
            r@ == (ErrorTraceView { kind: k, context: None, trace: t@ }),
    {
        ErrorTrace { kind: k, context: None, trace: t.to_owned() }
    }

    /// An error with a context and a trace
    pub fn with_context(k: Error, c: &str, t: &str) -> (r: ErrorTrace)
        ensures
            r@ == (ErrorTraceView { kind: k, context: Some(c@), trace: t@ }),
    {
        ErrorTrace { kind: k, context: Some(c.to_owned()), trace: t.to_owned() }
    }

    pub fn kind(&self) -> (r: Error)
        ensures
            r == self@.kind,
    {
        self.kind
    }

    pub open spec fn spec_warn_text(self) -> Seq<char> {
        if self@.trace.len() == 0 {
            self@.kind.spec_message()
        } else {
            self@.kind.spec_message() + ": "@ + self@.trace
        }
    }

    /// What a warning about this error says: the kind's description, then the
    /// trace when there is one
    pub fn warn_text(&self) -> (r: String)
        ensures
            r@ == self.spec_warn_text(),
    {
        let mut s = String::from_str(self.kind.message());
        if self.trace.as_str().unicode_len() != 0 {
            s.append(": ");
            s.append(self.trace.as_str());
        }
        s
    }
}

/// A traceless, unknown error is the default
impl Default for ErrorTrace {
    fn default() -> (r: ErrorTrace)
        ensures
            r@ == (ErrorTraceView { kind: Error::Unknown, context: None, trace: Seq::empty() }),
    {
        proof {
            reveal_strlit("");
            assert(""@ =~= Seq::<char>::empty());
        }
        ErrorTrace::new(Error::Unknown, "")
    }
}

/// Strip a traced error down to its kind
impl From<ErrorTrace> for Error {
    fn from(trace: ErrorTrace) -> (r: Error) {
        trace.kind
    }
}

impl vstd::std_specs::convert::FromSpecImpl<ErrorTrace> for Error {
    open spec fn obeys_from_spec() -> bool {
        true
    }

    open spec fn from_spec(trace: ErrorTrace) -> Error {
        trace@.kind
    }
}

impl Error {
    /// This kind as a traced error with an empty trace
    pub fn traceless(self) -> (r: ErrorTrace)
        ensures
            r@ == (ErrorTraceView { kind: self, context: None, trace: Seq::empty() }),
    {
        proof {
            reveal_strlit("");
            assert(""@ =~= Seq::<char>::empty());
        }
        ErrorTrace::new(self, "")
    }

    /// Whether a fatal error of this kind opens the emergency shell: all but
    /// the errors of starting kickit in the wrong place do
    pub fn opens_emergency_shell(self) -> (r: bool)
        ensures
            r == !(self == Error::AlreadyRunning || self == Error::NotInit || self == Error::NotRoot),
    {
        match self {
            Error::AlreadyRunning | Error::NotInit | Error::NotRoot => false,
            _ => true,
        }
    }
}

/// Convert what holds an error's text into a traced error
pub trait ErrorResult<OkType>: Sized {
    /// Convert an error to a trace without context
    ///
    /// # Errors
    /// - The value holds an error
    fn trace(self, kind: Error) -> Result<OkType>;

    /// Convert an error to a trace with context
    ///
    /// # Errors
    /// - The value holds an error
    fn context_trace(self, context: &str, kind: Error) -> Result<OkType>;
}

impl<OkType> ErrorResult<OkType> for core::result::Result<OkType, String> {
    fn trace(self, kind: Error) -> (r: Result<OkType>)
        ensures
            match self {
                Ok(v) => r == Ok::<OkType, ErrorTrace>(v),
                Err(e) => r matches Err(t) && t@ == (ErrorTraceView { kind, context: None, trace: e@ }),
            },
    {
        match self {
            Ok(v) => Ok(v),
            Err(e) => Err(ErrorTrace::new(kind, e.as_str())),
        }
    }

    fn context_trace(self, context: &str, kind: Error) -> (r: Result<OkType>)
        ensures
            match self {
                Ok(v) => r == Ok::<OkType, ErrorTrace>(v),
                Err(e) => r matches Err(t) && t@ == (ErrorTraceView { kind, context: Some(context@), trace: e@ }),
            },
    {
        match self {
            Ok(v) => Ok(v),
            Err(e) => Err(ErrorTrace::with_context(kind, context, e.as_str())),
        }
    }
}

impl ErrorResult<()> for Option<String> {
    fn trace(self, kind: Error) -> (r: Result<()>)
        ensures
            match self {
                None => r == Ok::<(), ErrorTrace>(()),
                Some(e) => r matches Err(t) && t@ == (ErrorTraceView { kind, context: None, trace: e@ }),
            },
    {
        match self {
            Some(e) => Err(ErrorTrace::new(kind, e.as_str())),
            None => Ok(()),
        }
    }

    fn context_trace(self, context: &str, kind: Error) -> (r: Result<()>)
        ensures
            match self {
                None => r == Ok::<(), ErrorTrace>(()),
                Some(e) => r matches Err(t) && t@ == (ErrorTraceView { kind, context: Some(context@), trace: e@ }),
            },
    {
        match self {
            Some(e) => Err(ErrorTrace::with_context(kind, context, e.as_str())),
            None => Ok(()),
        }
    }
}

impl ErrorResult<()> for String {
    fn trace(self, kind: Error) -> (r: Result<()>)
        ensures
            r matches Err(t) && t@ == (ErrorTraceView { kind, context: None, trace: self@ }),
    {
        Err(ErrorTrace::new(kind, self.as_str()))
    }

    fn context_trace(self, context: &str, kind: Error) -> (r: Result<()>)
        ensures
            r matches Err(t) && t@ == (ErrorTraceView { kind, context: Some(context@), trace: self@ }),
    {
        Err(ErrorTrace::with_context(kind, context, self.as_str()))
    }
}

} // verus!
