//! The first error handling of ktctl: its errors, traced errors built by
//! constructors, and the conversions into them

use vstd::prelude::*;
use vstd::string::*;
use crate::text::{opt_string, trim_end_seq, trim_end_char};
use crate::console::Colour;

verus! {
/// Every error ktctl can raise
#[derive(PartialEq, Eq, Clone, Copy, Debug, Structural)]
pub enum KTCtlError {
    BadPerms,
    TooManyArgs,
    MissingArgument,
    InvalidOperation,
    InvalidArguments,
    InitNotRunning,
    AccessRunFsFail,
    BadService,
    FormatFail,
    LogAccessFail,
    RunFsParseFail,
    SocketAccessFail,
}

impl KTCtlError {
    pub open spec fn spec_message(self) -> Seq<char> {
        match self {
            KTCtlError::BadPerms => "Permission denied: Root is required for this operation"@,
            KTCtlError::TooManyArgs => "Too much arguments provided for operation"@,
            KTCtlError::MissingArgument => "Missing argument for operation"@,
            KTCtlError::InvalidOperation => "Unrecognised operation provided"@,
            KTCtlError::InvalidArguments => "Invalid arguments provided"@,
            KTCtlError::InitNotRunning => "kickit is not running"@,
            KTCtlError::AccessRunFsFail => "Failed to access kickit work directory"@,
            KTCtlError::BadService => "An unrecognised service was provided"@,
            KTCtlError::FormatFail => "Invalid file encoding (expected UTF-8)"@,
            KTCtlError::LogAccessFail => "Failed to access log file from service"@,
            KTCtlError::RunFsParseFail => "Failed to parse init work data"@,
            KTCtlError::SocketAccessFail => "Failed to access a socket"@,
        }
    }

    /// The error's description, as it is displayed
    pub fn message(&self) -> (r: &'static str)
        ensures
            r@ == self.spec_message(),
    {
        match self {
            KTCtlError::BadPerms => "Permission denied: Root is required for this operation",
            KTCtlError::TooManyArgs => "Too much arguments provided for operation",
            KTCtlError::MissingArgument => "Missing argument for operation",
            KTCtlError::InvalidOperation => "Unrecognised operation provided",
            KTCtlError::InvalidArguments => "Invalid arguments provided",
            KTCtlError::InitNotRunning => "kickit is not running",
            KTCtlError::AccessRunFsFail => "Failed to access kickit work directory",
            KTCtlError::BadService => "An unrecognised service was provided",
            KTCtlError::FormatFail => "Invalid file encoding (expected UTF-8)",
            KTCtlError::LogAccessFail => "Failed to access log file from service",
            KTCtlError::RunFsParseFail => "Failed to parse init work data",
            KTCtlError::SocketAccessFail => "Failed to access a socket",
        }
    }
}


/// An error of kind `kind`, with an optional context and a trace
#[derive(Clone, Debug)]
pub struct KTCtlErrorTrace {
    kind: KTCtlError,
    context: Option<String>,
    trace: String,
}

pub struct KTCtlErrorTraceView {
    pub kind: KTCtlError,
    pub context: Option<Seq<char>>,
    pub trace: Seq<char>,
}

impl View for KTCtlErrorTrace {
    type V = KTCtlErrorTraceView;

    closed spec fn view(&self) -> KTCtlErrorTraceView {
        KTCtlErrorTraceView { kind: self.kind, context: opt_string(self.context), trace: self.trace@ }
    }
}

/// A result whose error is a `KTCtlErrorTrace`
pub type KTCtlResult<S> = core::result::Result<S, KTCtlErrorTrace>;

impl KTCtlErrorTrace {
    /// An error with a trace and no context
    pub fn new(kind: KTCtlError, trace: &str) -> (r: KTCtlErrorTrace)
        ensures
            r@ == (KTCtlErrorTraceView { kind, context: None, trace: trace@ }),
    {
        KTCtlErrorTrace { kind, context: None, trace: trace.to_owned() }
    }

    /// An error with a context and a trace
    pub fn with_context(kind: KTCtlError, context: &str, trace: &str) -> (r: KTCtlErrorTrace)
        ensures
            r@ == (KTCtlErrorTraceView { kind, context: Some(context@), trace: trace@ }),
    {
        KTCtlErrorTrace { kind, context: Some(context.to_owned()), trace: trace.to_owned() }
    }

    pub fn kind(&self) -> (r: KTCtlError)
        ensures
            r == self@.kind,
    {
        self.kind
    }

    pub open spec fn spec_fatal_text(self, binary: Seq<char>) -> Seq<char> {
        let t = trim_end_seq(self@.trace, '\n');
        binary + " "@ + Colour::Red.spec_code() + "(ERROR):"@ + Colour::Bold.spec_code() + " "@
            + self@.kind.spec_message() + Colour::Reset.spec_code() + (if t.len() == 0 {
            Seq::empty()
        } else {
            ": "@ + t
        }) + match self@.context {
            Some(c) => ": "@ + c,
            None => Seq::empty(),
        }
    }

    /// The line ktctl prints when this error is fatal: the program's name,
    /// the kind's description, then the trace and the context when there are
    pub fn fatal_text(&self, binary: &str) -> (r: String)
        ensures
            r@ == self.spec_fatal_text(binary@),
    {
        let mut s = String::from_str(binary);
        s.append(" ");
        s.append(Colour::Red.code());
        s.append("(ERROR):");
        s.append(Colour::Bold.code());
        s.append(" ");
        s.append(self.kind.message());
        s.append(Colour::Reset.code());
        let ghost head = s@;
        let t = trim_end_char(self.trace.as_str(), '\n');
        if t.as_str().unicode_len() != 0 {
            s.append(": ");
            s.append(t.as_str());
        } else {
            assert(s@ =~= head + Seq::<char>::empty());
        }
        let ghost mid = s@;
        match &self.context {
            Some(c) => {
                s.append(": ");
                s.append(c.as_str());
                assert(s@ =~= mid + (": "@ + c@));
            },
            None => {
                assert(s@ =~= mid + Seq::<char>::empty());
            },
        }
        assert(s@ =~= self.spec_fatal_text(binary@));
        s
    }

    pub open spec fn spec_warn_text(self) -> Seq<char> {
        self@.kind.spec_message() + ": "@ + trim_end_seq(self@.trace, '\n')
    }

    /// What a warning about this error says
    pub fn warn_text(&self) -> (r: String)
        ensures
            r@ == self.spec_warn_text(),
    {
        let mut s = String::from_str(self.kind.message());
        s.append(": ");
        let t = trim_end_char(self.trace.as_str(), '\n');
        s.append(t.as_str());
        s
    }
}

impl KTCtlError {
    pub open spec fn spec_fatal_text(self, binary: Seq<char>) -> Seq<char> {
        binary + " "@ + Colour::Red.spec_code() + "(ERROR):"@ + Colour::Bold.spec_code() + " "@
            + self.spec_message() + Colour::Reset.spec_code()
    }

    /// The line ktctl prints when this error, without a trace, is fatal
    pub fn fatal_text(&self, binary: &str) -> (r: String)
        ensures
            r@ == self.spec_fatal_text(binary@),
    {
        let mut s = String::from_str(binary);
        s.append(" ");
        s.append(Colour::Red.code());
        s.append("(ERROR):");
        s.append(Colour::Bold.code());
        s.append(" ");
        s.append(self.message());
        s.append(Colour::Reset.code());
        s
    }
}

/// Convert what may hold an error into a traced error; by default the error
/// is kept with an empty trace
pub trait ConvKTCtlError: Sized {
    type OK;

    /// An error becomes one of kind `error_kind`, without context; by
    /// default it is always an error, with an empty trace
    ///
    /// # Errors
    /// * The value holds an error
    fn trace(self, error_kind: KTCtlError) -> (r: KTCtlResult<Self::OK>)
        ensures
            r matches Err(t) ==> t@.kind == error_kind && t@.context is None,
        default_ensures
            r matches Err(t) && t@ == (KTCtlErrorTraceView { kind: error_kind, context: None, trace: Seq::empty() }),
    {
        proof {
            reveal_strlit("");
            assert(""@ =~= Seq::<char>::empty());
        }
        Err(KTCtlErrorTrace::new(error_kind, ""))
    }

    /// An error becomes one of kind `error_kind`, with `context`; by default
    /// it is always an error, with an empty trace
    ///
    /// # Errors
    /// * The value holds an error
    fn context_trace(self, context: &str, error_kind: KTCtlError) -> (r: KTCtlResult<Self::OK>)
        ensures
            r matches Err(t) ==> t@.kind == error_kind && t@.context == Some(context@),
        default_ensures
            r matches Err(t) && t@ == (KTCtlErrorTraceView {
                kind: error_kind,
                context: Some(context@),
                trace: Seq::empty(),
            }),
    {
        proof {
            reveal_strlit("");
            assert(""@ =~= Seq::<char>::empty());
        }
        Err(KTCtlErrorTrace::with_context(error_kind, context, ""))
    }
}

impl<S> ConvKTCtlError for core::result::Result<S, String> {
    type OK = S;

    fn trace(self, error_kind: KTCtlError) -> (r: KTCtlResult<S>)
        ensures
            match self {
                Ok(v) => r == Ok::<S, KTCtlErrorTrace>(v),
                Err(e) => r matches Err(t) && t@ == (KTCtlErrorTraceView { kind: error_kind, context: None, trace: e@ }),
            },
    {
        match self {
            Err(e) => Err(KTCtlErrorTrace::new(error_kind, e.as_str())),
            Ok(c) => Ok(c),
        }
    }

    fn context_trace(self, context: &str, error_kind: KTCtlError) -> (r: KTCtlResult<S>)
        ensures
            match self {
                Ok(v) => r == Ok::<S, KTCtlErrorTrace>(v),
                Err(e) => r matches Err(t) && t@ == (KTCtlErrorTraceView {
                    kind: error_kind,
                    context: Some(context@),
                    trace: e@,
                }),
            },
    {
        match self {
            Err(e) => Err(KTCtlErrorTrace::with_context(error_kind, context, e.as_str())),
            Ok(c) => Ok(c),
        }
    }
}

impl<S> ConvKTCtlError for Option<S> {
    type OK = S;

    fn trace(self, error_kind: KTCtlError) -> (r: KTCtlResult<S>)
        ensures
            match self {
                Some(v) => r == Ok::<S, KTCtlErrorTrace>(v),
                None => r matches Err(t) && t@ == (KTCtlErrorTraceView {
                    kind: error_kind,
                    context: None,
                    trace: Seq::empty(),
                }),
            },
    {
        match self {
            Some(contents) => Ok(contents),
            None => {
                proof {
                    reveal_strlit("");
                    assert(""@ =~= Seq::<char>::empty());
                }
                Err(KTCtlErrorTrace::new(error_kind, ""))
            },
        }
    }

    fn context_trace(self, context: &str, error_kind: KTCtlError) -> (r: KTCtlResult<S>)
        ensures
            match self {
                Some(v) => r == Ok::<S, KTCtlErrorTrace>(v),
                None => r matches Err(t) && t@ == (KTCtlErrorTraceView {
                    kind: error_kind,
                    context: Some(context@),
                    trace: Seq::empty(),
                }),
            },
    {
        match self {
            Some(contents) => Ok(contents),
            None => {
                proof {
                    reveal_strlit("");
                    assert(""@ =~= Seq::<char>::empty());
                }
                Err(KTCtlErrorTrace::with_context(error_kind, context, ""))
            },
        }
    }
}

impl ConvKTCtlError for String {
    type OK = ();

    /// A text is always an error's trace
    fn trace(self, error_kind: KTCtlError) -> (r: KTCtlResult<()>)
        ensures
            r matches Err(t) && t@ == (KTCtlErrorTraceView { kind: error_kind, context: None, trace: self@ }),
    {
        Err(KTCtlErrorTrace::new(error_kind, self.as_str()))
    }

    /// A text is always an error, but its context replaces it as the trace is
    /// left empty
    fn context_trace(self, context: &str, error_kind: KTCtlError) -> (r: KTCtlResult<()>)
        ensures
            r matches Err(t) && t@ == (KTCtlErrorTraceView {
                kind: error_kind,
                context: Some(context@),
                trace: Seq::empty(),
            }),
    {
        proof {
            reveal_strlit("");
            assert(""@ =~= Seq::<char>::empty());
        }
        Err(KTCtlErrorTrace::with_context(error_kind, context, ""))
    }
}

} // verus!
