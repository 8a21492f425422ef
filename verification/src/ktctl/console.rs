//! Errors of ktctl

use vstd::prelude::*;
use vstd::string::*;
use crate::console::{ErrorResult, ExtendWithContext, Colour, Colourize, resolved};
use crate::text::{opt_string, trim_end_seq, trim_end_char};

verus! {
/// Every error that can be raised
#[derive(PartialEq, Eq, Clone, Copy, Debug, Structural)]
pub enum Error {
    Unknown,
    OperationNotPermitted,
    TooManyArgs,
    Time,
    MissingArgument,
    InvalidOperation,
    InvalidArguments,
    InitNotRunning,
    AccessRunFsFail,
    AccessResource,
    BadService,
    ServiceConfig,
    Format,
    LogAccessFail,
    RunFsParseFail,
    SocketAccessFail,
    SocketResponse,
    Socket,
}

impl Error {
    pub open spec fn spec_message(self) -> Seq<char> {
        match self {
            Error::Unknown => "An unknown error occurred"@,
            Error::OperationNotPermitted => "Operation not permitted"@,
            Error::TooManyArgs => "Too much arguments provided for operation"@,
            Error::Time => "Error occurred whilst resolving current time"@,
            Error::MissingArgument => "Missing argument for operation"@,
            Error::InvalidOperation => "Unrecognised operation provided"@,
            Error::InvalidArguments => "Invalid arguments provided"@,
            Error::InitNotRunning => "kickit is not running"@,
            Error::AccessRunFsFail => "Failed to access kickit work directory"@,
            Error::AccessResource => "Failed to access kickit resources"@,
            Error::BadService => "Service not found"@,
            Error::ServiceConfig => "Service configuration is corrupted"@,
            Error::Format => "Invalid file encoding (expected UTF-8)"@,
            Error::LogAccessFail => "Failed to access log file from service"@,
            Error::RunFsParseFail => "Failed to parse init work data"@,
            Error::SocketAccessFail => "Failed to access a socket"@,
            Error::SocketResponse => "Socket gave invalid response"@,
            Error::Socket => "Error when sending request to socket"@,
        }
    }

    /// The error's description, as it is displayed
    pub fn message(&self) -> (r: &'static str)
        ensures
            r@ == self.spec_message(),
    {
        match self {
            Error::Unknown => "An unknown error occurred",
            Error::OperationNotPermitted => "Operation not permitted",
            Error::TooManyArgs => "Too much arguments provided for operation",
            Error::Time => "Error occurred whilst resolving current time",
            Error::MissingArgument => "Missing argument for operation",
            Error::InvalidOperation => "Unrecognised operation provided",
            Error::InvalidArguments => "Invalid arguments provided",
            Error::InitNotRunning => "kickit is not running",
            Error::AccessRunFsFail => "Failed to access kickit work directory",
            Error::AccessResource => "Failed to access kickit resources",
            Error::BadService => "Service not found",
            Error::ServiceConfig => "Service configuration is corrupted",
            Error::Format => "Invalid file encoding (expected UTF-8)",
            Error::LogAccessFail => "Failed to access log file from service",
            Error::RunFsParseFail => "Failed to parse init work data",
            Error::SocketAccessFail => "Failed to access a socket",
            Error::SocketResponse => "Socket gave invalid response",
            Error::Socket => "Error when sending request to socket",
        }
    }
}

impl Default for Error {
    fn default() -> (r: Error)
        ensures
            r == Error::Unknown,
    {
        Error::Unknown
    }
}

/// An error of kind `kind`, with an optional context (usually the name of what
/// failed) and a trace (the underlying cause, as text)
#[derive(Clone, Debug)]
pub struct ErrorTrace {
    pub kind: Error,
    pub context: Option<String>,
    pub trace: String,
}

/// An `ErrorTrace` with its texts as sequences
pub struct ErrorTraceView {
    pub kind: Error,
    pub context: Option<Seq<char>>,
    pub trace: Seq<char>,
}

impl View for ErrorTrace {
    type V = ErrorTraceView;

    open spec fn view(&self) -> ErrorTraceView {
        ErrorTraceView { kind: self.kind, context: opt_string(self.context), trace: self.trace@ }
    }
}

pub open spec fn traced(kind: Error, trace: Seq<char>) -> ErrorTraceView {
    ErrorTraceView { kind, context: None, trace }
}

/// A result whose error is an `ErrorTrace`
pub type Result<S> = core::result::Result<S, ErrorTrace>;

impl Error {
    /// This error with a trace and no context
    pub fn trace(self, trace: &str) -> (r: ErrorTrace)
        ensures
            r@ == traced(self, trace@),
    {
        ErrorTrace { kind: self, context: None, trace: trace.to_owned() }
    }
}

impl ErrorTrace {
    /// The same error with `context` as its context
    pub fn context(self, context: &str) -> (r: ErrorTrace)
        ensures
            r@ == (ErrorTraceView { kind: self@.kind, context: Some(context@), trace: self@.trace }),
    {
        ErrorTrace { kind: self.kind, context: Some(context.to_owned()), trace: self.trace }
    }

    pub open spec fn spec_warn_text(self) -> Seq<char> {
        self@.kind.spec_message() + ": "@ + trim_end_seq(self@.trace, '\n')
    }

    /// What a warning about this error says: the kind's description, then the
    /// trace without its trailing line feeds
    pub fn warn_text(&self) -> (r: String)
        ensures
            r@ == self.spec_warn_text(),
    {
        let mut s = String::from_str(self.kind.message());
        s.append(": ");
        let t = trim_end_char(self.trace.as_str(), '\n');
        s.append(t.as_str());
        s
    }

    pub open spec fn spec_fatal_text(self, binary: Seq<char>) -> Seq<char> {
        let t = trim_end_seq(self@.trace, '\n');
        binary + ": "@ + resolved(seq![Colour::Red], "error:"@, false) + " "@ + resolved(
            seq![Colour::Bold],
            self@.kind.spec_message(),
            false,
        ) + (if t.len() == 0 {
            Seq::empty()
        } else {
            ": "@ + t
        }) + match self@.context {
            Some(c) => ": "@ + c,
            None => Seq::empty(),
        }
    }

    /// The line ktctl prints when this error is fatal: the program's name, the
    /// kind's description in bold, then the trace and the context
    pub fn fatal_text(&self, binary: &str) -> (r: String)
        ensures
            r@ == self.spec_fatal_text(binary@),
    {
        let mut s = String::from_str(binary);
        s.append(": ");
        let e = "error:".colour(Colour::Red).resolve();
        s.append(e.as_str());
        s.append(" ");
        let m = self.kind.message().bold().resolve();
        s.append(m.as_str());
        let ghost head = s@;
        let t = trim_end_char(self.trace.as_str(), '\n');
        if t.as_str().unicode_len() != 0 {
            s.append(": ");
            s.append(t.as_str());
        } else {
            assert(s@ =~= head + Seq::<char>::empty());
        }
        let ghost mid = s@;
        match &self.context {
            Some(c) => {
                s.append(": ");
                s.append(c.as_str());
                assert(s@ =~= mid + (": "@ + c@));
            },
            None => {
                assert(s@ =~= mid + Seq::<char>::empty());
            },
        }
        assert(s@ =~= self.spec_fatal_text(binary@));
        s
    }
}

impl Error {
    pub open spec fn spec_fatal_text(self, binary: Seq<char>) -> Seq<char> {
        binary + ": "@ + resolved(seq![Colour::Red], "error:"@, false) + " "@ + resolved(
            seq![Colour::Bold],
            self.spec_message(),
            false,
        )
    }

    /// The line ktctl prints when this error, without a trace, is fatal
    pub fn fatal_text(&self, binary: &str) -> (r: String)
        ensures
            r@ == self.spec_fatal_text(binary@),
    {
        let mut s = String::from_str(binary);
        s.append(": ");
        let e = "error:".colour(Colour::Red).resolve();
        s.append(e.as_str());
        s.append(" ");
        let m = self.message().bold().resolve();
        s.append(m.as_str());
        s
    }
}

/// A warning line of ktctl: the program's name, then the message in bold
pub fn warn_line(binary: &str, message: &str) -> (r: String)
    ensures
        r@ == binary@ + ": "@ + resolved(seq![Colour::Orange], "warning:"@, false) + " "@ + resolved(
            seq![Colour::Bold],
            message@,
            false,
        ),
{
    let mut s = String::from_str(binary);
    s.append(": ");
    let w = "warning:".colour(Colour::Orange).resolve();
    s.append(w.as_str());
    s.append(" ");
    let m = message.bold().resolve();
    s.append(m.as_str());
    s
}

/// Strip a traced error down to its kind
impl From<ErrorTrace> for Error {
    fn from(trace: ErrorTrace) -> (r: Error) {
        trace.kind
    }
}

impl vstd::std_specs::convert::FromSpecImpl<ErrorTrace> for Error {
    open spec fn obeys_from_spec() -> bool {
        true
    }

    open spec fn from_spec(trace: ErrorTrace) -> Error {
        trace.kind
    }
}

impl Error {
    /// This error with an empty trace and no context
    pub fn traceless(self) -> (r: ErrorTrace)
        ensures
            r@ == traced(self, Seq::<char>::empty()),
    {
        proof {
            reveal_strlit("");
            assert(""@ =~= Seq::<char>::empty());
        }
        self.trace("")
    }
}

impl<OkType> ExtendWithContext<OkType, ErrorTrace> for Result<OkType> {
    /// If this result is an error, give it `context` as its context
    fn context(self, context: &str) -> (r: Result<OkType>)
        ensures
            match self {
                Ok(v) => r == Ok::<OkType, ErrorTrace>(v),
                Err(e) => r matches Err(e2) && e2@ == (ErrorTraceView {
                    kind: e@.kind,
                    context: Some(context@),
                    trace: e@.trace,
                }),
            },
    {
        match self {
            Ok(ok) => Ok(ok),
            Err(err) => Err(err.context(context)),
        }
    }
}

impl<OkType> ErrorResult<Error, ErrorTrace, OkType> for core::result::Result<OkType, String> {
    /// An error's text becomes the trace of an error of kind `kind`
    fn into_trace(self, kind: Error) -> (r: Result<OkType>)
        ensures
            match self {
                Ok(v) => r == Ok::<OkType, ErrorTrace>(v),
                Err(e) => r matches Err(t) && t@ == traced(kind, e@),
            },
    {
        match self {
            Ok(v) => Ok(v),
            Err(e) => Err(kind.trace(e.as_str())),
        }
    }
}

impl ErrorResult<Error, ErrorTrace, ()> for Option<String> {
    /// The option holds an error: `Some` gives an error of kind `kind` traced with its text
    fn into_trace(self, kind: Error) -> (r: Result<()>)
        ensures
            match self {
                None => r == Ok::<(), ErrorTrace>(()),
                Some(e) => r matches Err(t) && t@ == traced(kind, e@),
            },
    {
        match self {
            Some(e) => Err(kind.trace(e.as_str())),
            None => Ok(()),
        }
    }
}

impl ErrorResult<Error, ErrorTrace, ()> for String {
    /// A text is always an error's trace
    fn into_trace(self, kind: Error) -> (r: Result<()>)
        ensures
            r matches Err(t) && t@ == traced(kind, self@),
    {
        Err(kind.trace(self.as_str()))
    }
}

} // verus!

