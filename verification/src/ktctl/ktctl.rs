//! ktctl's command line: the operations it offers and how its arguments are read

use vstd::prelude::*;
use vstd::string::*;
use crate::console::{Colour, Colourize, resolved};
use crate::socket::{Power, PeerError};
use crate::state::InitState;
use crate::text::{str_eq, starts_with, is_prefix, seq_has, strings, decimal, u64_to_decimal};
use super::console::{Error, ErrorTrace, ErrorTraceView, traced};

verus! {

/// What ktctl was asked to do
#[derive(Clone, Debug)]
pub enum Operation {
    Help(Option<String>),
    Version,
    ServiceList(Option<Vec<String>>),
    State,
    /// A service's log: the service's name, plain output, skip the init's entries
    Log(String, bool, bool),
    InitLog,
    TargetInfo,
    /// Shut down; forced when true
    Shutdown(bool),
    /// Reboot; forced when true
    Reboot(bool),
}

pub enum OperationView {
    Help(Option<Seq<char>>),
    Version,
    ServiceList(Option<Seq<Seq<char>>>),
    State,
    Log(Seq<char>, bool, bool),
    InitLog,
    TargetInfo,
    Shutdown(bool),
    Reboot(bool),
}

impl View for Operation {
    type V = OperationView;

    open spec fn view(&self) -> OperationView {
        match self {
            Operation::Help(n) => OperationView::Help(
                match n {
                    Some(s) => Some(s@),
                    None => None,
                },
            ),
            Operation::Version => OperationView::Version,
            Operation::ServiceList(l) => OperationView::ServiceList(
                match l {
                    Some(v) => Some(strings(v@)),
                    None => None,
                },
            ),
            Operation::State => OperationView::State,
            Operation::Log(n, u, i) => OperationView::Log(n@, *u, *i),
            Operation::InitLog => OperationView::InitLog,
            Operation::TargetInfo => OperationView::TargetInfo,
            Operation::Shutdown(f) => OperationView::Shutdown(*f),
            Operation::Reboot(f) => OperationView::Reboot(*f),
        }
    }
}

/// The first argument that is not a `--` flag
pub open spec fn first_non_flag(args: Seq<Seq<char>>) -> Option<Seq<char>>
    decreases args.len(),
{
    if args.len() == 0 {
        None
    } else if !is_prefix("--"@, args[0]) {
        Some(args[0])
    } else {
        first_non_flag(args.drop_first())
    }
}

/// How ktctl reads its arguments; `args[0]` is the name it was called by,
/// which alone may ask for a shutdown or a reboot
pub open spec fn spec_parse_args(args: Seq<Seq<char>>) -> Result<OperationView, ErrorTraceView> {
    let a0 = args[0];
    if a0 == "shutdown"@ || a0 == "poweroff"@ {
        Ok(OperationView::Shutdown(false))
    } else if a0 == "reboot"@ {
        Ok(OperationView::Reboot(false))
    } else if args.len() == 1 {
        Ok(OperationView::Help(None))
    } else {
        let a1 = args[1];
        if a1 == "-h"@ || a1 == "--help"@ {
            Ok(OperationView::Help(None))
        } else if a1 == "version"@ {
            Ok(OperationView::Version)
        } else if a1 == "target"@ {
            Ok(OperationView::TargetInfo)
        } else if a1 == "state"@ {
            Ok(OperationView::State)
        } else if a1 == "help"@ {
            if args.len() == 2 {
                Ok(OperationView::Help(None))
            } else {
                Ok(OperationView::Help(Some(args[2])))
            }
        } else if a1 == "service"@ {
            if args.len() == 2 {
                Ok(OperationView::ServiceList(None))
            } else {
                Ok(OperationView::ServiceList(Some(args.skip(2))))
            }
        } else if a1 == "log"@ {
            let rest = args.skip(2);
            if seq_has(rest, "--init"@) {
                Ok(OperationView::InitLog)
            } else {
                match first_non_flag(rest) {
                    Some(name) => Ok(
                        OperationView::Log(
                            name,
                            seq_has(rest, "--plain"@),
                            seq_has(rest, "--service-only"@),
                        ),
                    ),
                    None => Err(traced(Error::MissingArgument, "log"@)),
                }
            }
        } else if a1 == "shutdown"@ {
            Ok(OperationView::Shutdown(seq_has(args, "--force"@)))
        } else if a1 == "reboot"@ {
            Ok(OperationView::Reboot(seq_has(args, "--force"@)))
        } else {
            Err(traced(Error::InvalidOperation, a1))
        }
    }
}

pub open spec fn op_result_view(r: Result<Operation, ErrorTrace>) -> Result<OperationView, ErrorTraceView> {
    match r {
        Ok(o) => Ok(o@),
        Err(e) => Err(e@),
    }
}

/// Whether one of `args[start..]` is `s`
fn has_from(args: &Vec<String>, start: usize, s: &str) -> (r: bool)
    requires
        start <= args.len(),
    ensures
        r == seq_has(strings(args@).skip(start as int), s@),
{
    let ghost l = strings(args@).skip(start as int);
    let mut i = start;
    while i < args.len()
        invariant
            start <= i <= args.len(),
            l == strings(args@).skip(start as int),
            forall|j: int| 0 <= j < i - start ==> l[j] != s@,
        decreases args.len() - i,
    {
        if str_eq(args[i].as_str(), s) {
            assert(l[i - start] == s@);
            return true;
        }
        i = i + 1;
    }
    false
}

/// The first of `args[start..]` that is not a `--` flag
fn first_non_flag_from(args: &Vec<String>, start: usize) -> (r: Option<String>)
    requires
        start <= args.len(),
    ensures
        match r {
            Some(s) => first_non_flag(strings(args@).skip(start as int)) == Some(s@),
            None => first_non_flag(strings(args@).skip(start as int)) is None,
        },
    decreases args.len() - start,
{
    let ghost l = strings(args@).skip(start as int);
    if start == args.len() {
        return None;
    }
    assert(l[0] == args[start as int]@);
    if !starts_with(args[start].as_str(), "--") {
        Some(args[start].clone())
    } else {
        assert(l.drop_first() =~= strings(args@).skip(start + 1));
        first_non_flag_from(args, start + 1)
    }
}

/// Reads ktctl's arguments into an operation
///
/// # Errors
///
/// * `log` without a service's name (`MissingArgument`),
/// * An unknown operation (`InvalidOperation`, traced with its name)
pub fn parse_args(arguments: Vec<String>) -> (r: Result<Operation, ErrorTrace>)
    requires
        arguments.len() >= 1,
    ensures
        op_result_view(r) == spec_parse_args(strings(arguments@)),
{
    let ghost args = strings(arguments@);
    let a0 = arguments[0].as_str();
    if str_eq(a0, "shutdown") || str_eq(a0, "poweroff") {
        return Ok(Operation::Shutdown(false));
    } else if str_eq(a0, "reboot") {
        return Ok(Operation::Reboot(false));
    } else if arguments.len() == 1 {
        return Ok(Operation::Help(None));
    }
    let a1 = arguments[1].as_str();
    if str_eq(a1, "-h") || str_eq(a1, "--help") {
        Ok(Operation::Help(None))
    } else if str_eq(a1, "version") {
        Ok(Operation::Version)
    } else if str_eq(a1, "target") {
        Ok(Operation::TargetInfo)
    } else if str_eq(a1, "state") {
        Ok(Operation::State)
    } else if str_eq(a1, "help") {
        if arguments.len() == 2 {
            Ok(Operation::Help(None))
        } else {
            Ok(Operation::Help(Some(arguments[2].clone())))
        }
    } else if str_eq(a1, "service") {
        if arguments.len() == 2 {
            Ok(Operation::ServiceList(None))
        } else {
            let mut names: Vec<String> = Vec::new();
            let mut i: usize = 2;
            while i < arguments.len()
                invariant
                    2 <= i <= arguments.len(),
                    args == strings(arguments@),
                    strings(names@) == args.subrange(2, i as int),
                decreases arguments.len() - i,
            {
                let ghost before = names@;
                names.push(arguments[i].clone());
                proof {
                    assert(names@ =~= before.push(arguments@[i as int]));
                    assert(strings(names@) =~= strings(before).push(args[i as int]));
                    assert(strings(names@) =~= args.subrange(2, i + 1));
                }
                i = i + 1;
            }
            assert(args.subrange(2, arguments.len() as int) =~= args.skip(2));
            Ok(Operation::ServiceList(Some(names)))
        }
    } else if str_eq(a1, "log") {
        let ugly = has_from(&arguments, 2, "--plain");
        let ignore_init = has_from(&arguments, 2, "--service-only");
        if has_from(&arguments, 2, "--init") {
            return Ok(Operation::InitLog);
        }
        match first_non_flag_from(&arguments, 2) {
            Some(name) => Ok(Operation::Log(name, ugly, ignore_init)),
            None => Err(Error::MissingArgument.trace("log")),
        }
    } else if str_eq(a1, "shutdown") {
        let f = has_from(&arguments, 0, "--force");
        assert(args.skip(0) =~= args);
        Ok(Operation::Shutdown(f))
    } else if str_eq(a1, "reboot") {
        let f = has_from(&arguments, 0, "--force");
        assert(args.skip(0) =~= args);
        Ok(Operation::Reboot(f))
    } else {
        Err(Error::InvalidOperation.trace(a1))
    }
}

impl Operation {
    /// Whether the operation needs root access
    pub fn root(&self) -> (r: bool)
        ensures
            r == (self@ is InitLog || self@ is Log || self@ is Shutdown || self@ is Reboot),
    {
        match self {
            Operation::InitLog | Operation::Log(..) | Operation::Shutdown(..) | Operation::Reboot(..) => true,
            _ => false,
        }
    }

    /// Whether the operation needs the init to be running
    pub fn init_only(&self) -> (r: bool)
        ensures
            r == (self@ is ServiceList || self@ is TargetInfo || self@ is InitLog || self@ is Log
                || self@ is Shutdown || self@ is Reboot),
    {
        match self {
            Operation::ServiceList(..) | Operation::TargetInfo | Operation::InitLog | Operation::Log(..)
            | Operation::Shutdown(..) | Operation::Reboot(..) => true,
            _ => false,
        }
    }

    /// Whether the init must be asked if it is running before the operation
    /// may run: only when the operation needs it, and once root access was
    /// found where the operation needs it (a caller without root access is
    /// refused before the init is asked)
    pub fn asks_init(&self, is_root: bool) -> (r: bool)
        ensures
            r == (self.spec_init_only() && (!self.spec_root() || is_root)),
    {
        self.init_only() && (!self.root() || is_root)
    }

    /// Whether the operation may run: root access when it needs it, then a
    /// running init when it needs one
    ///
    /// # Errors
    ///
    /// * Root access is needed and missing (`OperationNotPermitted`),
    /// * The init is needed and not running (`InitNotRunning`)
    pub fn sanity(&self, is_root: bool, init_running: bool) -> (r: Result<(), ErrorTrace>)
        ensures
            match r {
                Ok(_) => (!self.spec_root() || is_root) && (!self.spec_init_only() || init_running),
                Err(e) => if self.spec_root() && !is_root {
                    e@ == traced(Error::OperationNotPermitted, Seq::empty())
                } else {
                    self.spec_init_only() && !init_running && e@ == traced(
                        Error::InitNotRunning,
                        Seq::empty(),
                    )
                },
            },
    {
        if self.root() && !is_root {
            return Err(Error::OperationNotPermitted.traceless());
        }
        if self.init_only() && !init_running {
            return Err(Error::InitNotRunning.traceless());
        }
        Ok(())
    }

    pub open spec fn spec_root(&self) -> bool {
        self@ is InitLog || self@ is Log || self@ is Shutdown || self@ is Reboot
    }

    pub open spec fn spec_init_only(&self) -> bool {
        self@ is ServiceList || self@ is TargetInfo || self@ is InitLog || self@ is Log
            || self@ is Shutdown || self@ is Reboot
    }
}

/// The usage texts of ktctl
#[derive(PartialEq, Eq, Clone, Copy, Debug, Structural)]
pub enum Usage {
    Main,
    Log,
    Service,
    Taskitty,
}

impl Usage {
    pub open spec fn spec_from_flag(flag: Seq<char>) -> Option<Usage> {
        if flag == ""@ {
            Some(Usage::Main)
        } else if flag == "log"@ {
            Some(Usage::Log)
        } else if flag == "service"@ {
            Some(Usage::Service)
        } else if flag == "purr"@ {
            Some(Usage::Taskitty)
        } else {
            None
        }
    }

    /// The usage text asked for by a name
    ///
    /// # Errors
    ///
    /// * No usage text has that name
    pub fn try_from_flag(flag: &str) -> (r: Result<Usage, ()>)
        ensures
            match r {
                Ok(u) => Usage::spec_from_flag(flag@) == Some(u),
                Err(_) => Usage::spec_from_flag(flag@) is None,
            },
    {
        if str_eq(flag, "") {
            Ok(Usage::Main)
        } else if str_eq(flag, "log") {
            Ok(Usage::Log)
        } else if str_eq(flag, "service") {
            Ok(Usage::Service)
        } else if str_eq(flag, "purr") {
            Ok(Usage::Taskitty)
        } else {
            Err(())
        }
    }
}

/// What `ktctl help` prints
#[derive(Clone, Debug)]
pub enum HelpOutput {
    /// One of the usage texts
    Usage(Usage),
    /// A one-line usage for an operation without more to say: what follows
    /// the program's name
    Generic(String),
}

pub enum HelpOutputView {
    Usage(Usage),
    Generic(Seq<char>),
}

impl View for HelpOutput {
    type V = HelpOutputView;

    open spec fn view(&self) -> HelpOutputView {
        match self {
            HelpOutput::Usage(u) => HelpOutputView::Usage(*u),
            HelpOutput::Generic(s) => HelpOutputView::Generic(s@),
        }
    }
}

pub open spec fn spec_help(op: OperationView) -> Result<HelpOutputView, ErrorTraceView> {
    match op {
        OperationView::Help(Some(name)) => match Usage::spec_from_flag(name) {
            Some(u) => Ok(HelpOutputView::Usage(u)),
            None => if name == "help"@ || name == "version"@ || name == "state"@ || name
                == "target"@ {
                Ok(HelpOutputView::Generic(name))
            } else if name == "shutdown"@ || name == "reboot"@ {
                Ok(HelpOutputView::Generic(name + " [--force]"@))
            } else {
                Err(traced(Error::InvalidOperation, name))
            },
        },
        _ => Ok(HelpOutputView::Usage(Usage::Main)),
    }
}

impl Operation {
    /// What the help operation prints
    ///
    /// # Errors
    ///
    /// * Help was asked about an unknown operation (`InvalidOperation`)
    pub fn help(&self) -> (r: Result<HelpOutput, ErrorTrace>)
        ensures
            match r {
                Ok(h) => spec_help(self@) == Ok::<HelpOutputView, ErrorTraceView>(h@),
                Err(e) => spec_help(self@) == Err::<HelpOutputView, ErrorTraceView>(e@),
            },
    {
        match self {
            Operation::Help(Some(name)) => match Usage::try_from_flag(name.as_str()) {
                Ok(u) => Ok(HelpOutput::Usage(u)),
                Err(_) => {
                    let n = name.as_str();
                    if str_eq(n, "help") || str_eq(n, "version") || str_eq(n, "state") || str_eq(n, "target") {
                        Ok(HelpOutput::Generic(name.clone()))
                    } else if str_eq(n, "shutdown") || str_eq(n, "reboot") {
                        let mut line = name.clone();
                        line.append(" [--force]");
                        Ok(HelpOutput::Generic(line))
                    } else {
                        Err(Error::InvalidOperation.trace(n))
                    }
                },
            },
            _ => Ok(HelpOutput::Usage(Usage::Main)),
        }
    }
}

/// The request byte sent to the power socket
pub fn power_request(reboot: bool, force: bool) -> (r: u8)
    ensures
        r == if reboot {
            if force {
                Power::FORCE_REBOOT
            } else {
                Power::REBOOT
            }
        } else {
            if force {
                Power::FORCE_SHUTDOWN
            } else {
                Power::SHUTDOWN
            }
        },
{
    if reboot {
        if force {
            Power::FORCE_REBOOT
        } else {
            Power::REBOOT
        }
    } else {
        if force {
            Power::FORCE_SHUTDOWN
        } else {
            Power::SHUTDOWN
        }
    }
}

/// The error an error byte from the init becomes: a socket error traced with
/// the error's description
pub fn peer_error_trace(e: PeerError) -> (r: ErrorTrace)
    ensures
        r@ == traced(Error::Socket, e.spec_message()),
{
    Error::Socket.trace(e.message())
}

/// The init's state as ktctl judges it, from the reply to the state request
/// (its payload, when the request succeeded) and the reply to the version
/// request: a running init is `Okay` only when its version is ktctl's own
pub open spec fn spec_init_state(state: Option<Seq<u8>>, version_reply: Option<Seq<u8>>, version: Seq<char>) -> InitState {
    match state {
        Some(s) => {
            let st = InitState::spec_from_byte(s[0]);
            if st == InitState::Okay {
                if version_reply == Some(crate::socket::with_newline(version)) {
                    InitState::Okay
                } else {
                    InitState::Down
                }
            } else {
                st
            }
        },
        None => InitState::Down,
    }
}

fn bytes_eq(a: &[u8], b: &[u8]) -> (r: bool)
    ensures
        r == (a@ == b@),
{
    if a.len() != b.len() {
        return false;
    }
    let mut i: usize = 0;
    while i < a.len()
        invariant
            a.len() == b.len(),
            0 <= i <= a.len(),
            forall|j: int| 0 <= j < i ==> a@[j] == b@[j],
        decreases a.len() - i,
    {
        if a[i] != b[i] {
            return false;
        }
        i = i + 1;
    }
    assert(a@ =~= b@);
    true
}

pub fn init_state(state: Option<&[u8]>, version_reply: Option<&[u8]>, version: &str) -> (r: InitState)
    requires
        state matches Some(s) ==> s@.len() >= 1,
    ensures
        r == spec_init_state(
            match state {
                Some(s) => Some(s@),
                None => None,
            },
            match version_reply {
                Some(v) => Some(v@),
                None => None,
            },
            version@,
        ),
{
    match state {
        Some(s) => {
            let st = InitState::from_byte(s[0]);
            if st.is_ok() {
                match version_reply {
                    Some(v) => {
                        let expected = crate::socket::str_bytes_newline(version);
                        if bytes_eq(v, expected.as_slice()) {
                            InitState::Okay
                        } else {
                            InitState::Down
                        }
                    },
                    None => InitState::Down,
                }
            } else {
                st
            }
        },
        None => InitState::Down,
    }
}

/// The colour a state is shown in
pub open spec fn state_colour(state: InitState) -> Colour {
    match state {
        InitState::Emergency | InitState::Down => Colour::Red,
        InitState::Stalled => Colour::Orange,
        InitState::Okay => Colour::Green,
    }
}

/// The line `ktctl state` prints: the state in its colour, and the init's PID
/// when kickit is not the init process
pub fn pretty_state(state: InitState, pid: u32) -> (r: String)
    ensures
        r@ == resolved(seq![state_colour(state)], state.spec_name(), false) + if pid == 1 {
            Seq::empty()
        } else {
            " (pid: "@ + decimal(pid as int) + ")"@
        },
{
    let colour = match state {
        InitState::Emergency | InitState::Down => Colour::Red,
        InitState::Stalled => Colour::Orange,
        InitState::Okay => Colour::Green,
    };
    let mut s = state.colour(colour).resolve();
    if pid != 1 {
        s.append(" (pid: ");
        let d = u64_to_decimal(pid as u64);
        s.append(d.as_str());
        s.append(")");
    } else {
        assert(s@ =~= s@ + Seq::<char>::empty());
    }
    s
}

pub open spec fn bold(t: Seq<char>) -> Seq<char> {
    resolved(seq![Colour::Bold], t, false)
}

pub open spec fn main_usage_lines() -> Seq<Seq<char>> {
    seq![
        " help                       Show this help prompt or prompt for an action"@,
        " version                    Version of this ktctl"@,
        " service [SERVICEs]         List all services or selected services"@,
        " log (--init) SERVICE       Read a service's logs"@,
        " state                      Current state of the init system"@,
        " target                     Show current loaded target"@,
        " shutdown [--force]         Shutdown this device safely"@,
        " reboot [--force]           Reboot this device safely"@,
    ]
}

impl Usage {
    /// The usage text, for the program named `binary`; the cat has none here
    pub open spec fn spec_text(self, binary: Seq<char>) -> Option<Seq<char>> {
        match self {
            Usage::Main => Some(
                "Usage: "@ + bold(binary) + " [ACTION]\n"@ + "Manage the kickit init system\n"@ + "\n"@
                    + bold("Actions:"@) + "\n"@ + main_usage_lines()[0] + "\n"@ + main_usage_lines()[1]
                    + "\n"@ + main_usage_lines()[2] + "\n"@ + main_usage_lines()[3] + "\n"@
                    + main_usage_lines()[4] + "\n"@ + main_usage_lines()[5] + "\n"@ + main_usage_lines()[6]
                    + "\n"@ + main_usage_lines()[7] + "\n\n"@ + "Try 'ktctl help [ACTION]' for more info\n"@,
            ),
            Usage::Log => Some(
                "Usage: "@ + bold(binary) + " log [ARGUMENTs..] [SERVICE]\n"@
                    + "View a service's or init's logs (requires root access)\n"@ + "\n"@ + bold("Arguments:"@)
                    + "\n"@ + " --plain              Plain output (no colours + timestamp as millis)\n"@
                    + " --init               View the init's master log\n"@
                    + " --service-only       Ignore any messages from init\n"@,
            ),
            Usage::Service => Some("Usage: "@ + bold(binary) + " service [NAMEs..]"@),
            Usage::Taskitty => None,
        }
    }

    /// The usage text, for the program named `binary`
    pub fn text(self, binary: &str) -> (r: Option<String>)
        ensures
            match r {
                Some(t) => self.spec_text(binary@) == Some(t@),
                None => self.spec_text(binary@) is None,
            },
    {
        let b = binary.bold().resolve();
        match self {
            Usage::Main => {
                let mut s = String::from_str("Usage: ");
                s.append(b.as_str());
                s.append(" [ACTION]\n");
                s.append("Manage the kickit init system\n");
                s.append("\n");
                let a = "Actions:".bold().resolve();
                s.append(a.as_str());
                s.append("\n");
                s.append(" help                       Show this help prompt or prompt for an action");
                s.append("\n");
                s.append(" version                    Version of this ktctl");
                s.append("\n");
                s.append(" service [SERVICEs]         List all services or selected services");
                s.append("\n");
                s.append(" log (--init) SERVICE       Read a service's logs");
                s.append("\n");
                s.append(" state                      Current state of the init system");
                s.append("\n");
                s.append(" target                     Show current loaded target");
                s.append("\n");
                s.append(" shutdown [--force]         Shutdown this device safely");
                s.append("\n");
                s.append(" reboot [--force]           Reboot this device safely");
                s.append("\n\n");
                s.append("Try 'ktctl help [ACTION]' for more info\n");
                Some(s)
            },
            Usage::Log => {
                let mut s = String::from_str("Usage: ");
                s.append(b.as_str());
                s.append(" log [ARGUMENTs..] [SERVICE]\n");
                s.append("View a service's or init's logs (requires root access)\n");
                s.append("\n");
                let a = "Arguments:".bold().resolve();
                s.append(a.as_str());
                s.append("\n");
                s.append(" --plain              Plain output (no colours + timestamp as millis)\n");
                s.append(" --init               View the init's master log\n");
                s.append(" --service-only       Ignore any messages from init\n");
                Some(s)
            },
            Usage::Service => {
                let mut s = String::from_str("Usage: ");
                s.append(b.as_str());
                s.append(" service [NAMEs..]");
                Some(s)
            },
            Usage::Taskitty => None,
        }
    }
}

/// The init's PID, from the reply of the core socket: four bytes in
/// little-endian order
///
/// # Errors
///
/// * The reply is not four bytes long (`Format`)
pub fn init_pid(reply: &[u8]) -> (r: Result<u32, ErrorTrace>)
    ensures
        match r {
            Ok(p) => reply@.len() == 4 && p == crate::text::u32_from_le(reply@),
            Err(e) => reply@.len() != 4 && e@ == traced(Error::Format, "invalid init pid!"@),
        },
{
    if reply.len() != 4 {
        return Err(Error::Format.trace("invalid init pid!"));
    }
    let p = crate::text::u32_from_le_bytes(reply[0], reply[1], reply[2], reply[3]);
    assert(seq![reply@[0], reply@[1], reply@[2], reply@[3]] =~= reply@);
    Ok(p)
}

/// The state the init reports over its core socket is the state ktctl
/// reads, when both have the same version.
pub proof fn law_state_read_back(s: InitState, version: Seq<char>, target: Option<Seq<char>>, pid: Option<Option<u32>>)
    ensures
        ({
            let reply = crate::socket::spec_core_reply(crate::socket::Core::STATE, s, version, target, pid)->Some_0;
            let vreply = crate::socket::spec_core_reply(crate::socket::Core::VERSION, s, version, target, pid)->Some_0;
            &&& crate::ktctl::socket::spec_response(reply) matches Ok(Ok(state))
            &&& crate::ktctl::socket::spec_response(vreply) matches Ok(Ok(v))
            &&& spec_init_state(Some(state), Some(v), version) == s
        }),
{
    crate::ktctl::socket::law_ok_reply_read_back(seq![s.spec_byte()]);
    crate::ktctl::socket::law_ok_reply_read_back(crate::socket::with_newline(version));
    crate::state::law_state_byte_roundtrip(s);
}

/// The PID the init reports over its core socket is the PID ktctl reads:
/// its own when it runs alongside another init, else 1.
pub proof fn law_pid_read_back(s: InitState, version: Seq<char>, target: Option<Seq<char>>, pid: Option<u32>)
    ensures
        ({
            let reply = crate::socket::spec_core_reply(crate::socket::Core::PID, s, version, target, Some(pid))->Some_0;
            &&& crate::ktctl::socket::spec_response(reply) matches Ok(Ok(payload))
            &&& payload.len() == 4
            &&& crate::text::u32_from_le(payload) == match pid {
                Some(p) => p,
                None => 1u32,
            }
        }),
{
    let p = match pid {
        Some(x) => x,
        None => 1u32,
    };
    crate::text::lemma_u32_le_roundtrip(p);
    crate::ktctl::socket::law_ok_reply_read_back(crate::text::le_bytes_u32(p));
}

/// Whether `--force` is among the arguments
pub open spec fn forced(args: Seq<Seq<char>>) -> bool {
    exists|i: int| 0 <= i < args.len() && args[i] == "--force"@
}

/// `ktctl shutdown` and `ktctl reboot` ask for what they name, forced exactly
/// when `--force` is among the arguments, wherever it stands; called by the
/// name `shutdown`, `poweroff` or `reboot` instead, ktctl asks for that
/// power-off, never forced.
pub proof fn law_power_operations_forced(args: Seq<Seq<char>>)
    requires
        args.len() >= 1,
    ensures
        (args[0] == "shutdown"@ || args[0] == "poweroff"@) ==> spec_parse_args(args) == Ok::<
            OperationView,
            ErrorTraceView,
        >(OperationView::Shutdown(false)),
        args[0] == "reboot"@ ==> spec_parse_args(args) == Ok::<OperationView, ErrorTraceView>(
            OperationView::Reboot(false),
        ),
        (args.len() >= 2 && args[0] != "shutdown"@ && args[0] != "poweroff"@ && args[0] != "reboot"@
            && args[1] == "shutdown"@) ==> spec_parse_args(args) == Ok::<OperationView, ErrorTraceView>(
            OperationView::Shutdown(forced(args)),
        ),
        (args.len() >= 2 && args[0] != "shutdown"@ && args[0] != "poweroff"@ && args[0] != "reboot"@
            && args[1] == "reboot"@) ==> spec_parse_args(args) == Ok::<OperationView, ErrorTraceView>(
            OperationView::Reboot(forced(args)),
        ),
{
    reveal_strlit("shutdown");
    reveal_strlit("poweroff");
    reveal_strlit("reboot");
    reveal_strlit("-h");
    reveal_strlit("--help");
    reveal_strlit("version");
    reveal_strlit("target");
    reveal_strlit("state");
    reveal_strlit("help");
    reveal_strlit("service");
    reveal_strlit("log");
    assert("reboot"@.len() == 6 && "shutdown"@.len() == 8);
    assert("-h"@.len() == 2 && "--help"@.len() == 6 && "version"@.len() == 7 && "target"@.len() == 6
        && "state"@.len() == 5 && "help"@.len() == 4 && "service"@.len() == 7 && "log"@.len() == 3);
    assert("reboot"@[0] != "--help"@[0]);
    assert("reboot"@[0] != "target"@[0]);
    assert("shutdown"@[0] != "--help"@[0]);
    assert("shutdown"@ != "reboot"@);
}

} // verus!
