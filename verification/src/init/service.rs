//! Services: their configuration, their states, and what the init writes of them

use vstd::prelude::*;
use vstd::string::*;
use std::collections::VecDeque;
use crate::text::{le_bytes_u32, le_bytes_i32, u32_to_le, i32_to_le, decimal, u64_to_decimal, i64_to_decimal, strings, opt_string, join_path, spec_join_path};
use crate::socket::{invalid_input_error, io_error_invalid_input};
use crate::text::decimal_nat;
use crate::zstd::{zstd_compressed, zstd_decompressed, zstd_header_ok, compress_fastest, decompress};
use crate::console::{Colour};
use vstd::utf8::{
    char_is_scalar, encode_scalar, encode_utf8, has_width_1_encoding, has_width_2_encoding,
    has_width_3_encoding, is_ascii_chars, is_ascii_chars_encode_utf8, encode_utf8_valid_utf8,
    encode_utf8_decode_utf8,
};
use super::console::{Error, ErrorTrace, ErrorTraceView, Marker, traced};

verus! {

/// The byte that marks a log entry as coming from the init
pub const INIT_ENTRY: u8 = 0x8f;

/// How a service runs:
/// Standard -> Service runs in background, supervised by kickit,
/// Forking  -> Service spawns children & then exits, treated as standard but not supervised,
/// RunOnce  -> Service runs in the foreground; kickit waits until it exits
#[derive(PartialEq, Eq, Clone, Copy, Debug, Structural)]
pub enum Pattern {
    /// The regular-type daemon, that runs forever until shutdown
    Standard,
    /// Creates fork(s) of the process, kickit makes sure to not kill the service
    Forking,
    /// Run command(s) once & then exit
    RunOnce,
}

impl Pattern {
    pub open spec fn spec_byte(self) -> u8 {
        match self {
            Pattern::Standard => 0xa4,
            Pattern::Forking => 0xef,
            Pattern::RunOnce => 0xe9,
        }
    }

    pub open spec fn spec_from_byte(b: u8) -> Option<Pattern> {
        if b == 0xa4 {
            Some(Pattern::Standard)
        } else if b == 0xef {
            Some(Pattern::Forking)
        } else if b == 0xe9 {
            Some(Pattern::RunOnce)
        } else {
            None
        }
    }

    /// The byte that stands for this pattern in a service's cache
    pub fn byte(self) -> (r: u8)
        ensures
            r == self.spec_byte(),
    {
        match self {
            Pattern::Standard => 0xa4,
            Pattern::Forking => 0xef,
            Pattern::RunOnce => 0xe9,
        }
    }

    /// The pattern a byte stands for, if any
    pub fn from_byte(b: u8) -> (r: Option<Pattern>)
        ensures
            r == Pattern::spec_from_byte(b),
    {
        if b == 0xa4 {
            Some(Pattern::Standard)
        } else if b == 0xef {
            Some(Pattern::Forking)
        } else if b == 0xe9 {
            Some(Pattern::RunOnce)
        } else {
            None
        }
    }

    pub open spec fn bad_byte_message(b: u8) -> Seq<char> {
        "Expected valid pattern byte, got: "@ + decimal(b as int)
    }

    /// The text of the error for a byte that stands for no pattern
    pub fn bad_byte_text(b: u8) -> (r: String)
        ensures
            r@ == Pattern::bad_byte_message(b),
    {
        let mut m = String::from_str("Expected valid pattern byte, got: ");
        let d = u64_to_decimal(b as u64);
        m.append(d.as_str());
        m
    }

    /// The pattern a byte stands for
    ///
    /// # Errors
    ///
    /// * The byte stands for no pattern (an `InvalidInput` error)
    pub fn try_from_byte(b: u8) -> (r: Result<Pattern, std::io::Error>)
        ensures
            r is Ok <==> Pattern::spec_from_byte(b) is Some,
            r matches Ok(p) ==> Pattern::spec_from_byte(b) == Some(p),
            r matches Err(e) ==> io_error_invalid_input(e),
    {
        match Pattern::from_byte(b) {
            Some(p) => Ok(p),
            None => Err(invalid_input_error(Pattern::bad_byte_text(b))),
        }
    }
}

impl Default for Pattern {
    fn default() -> (r: Pattern)
        ensures
            r == Pattern::Standard,
    {
        Pattern::Standard
    }
}

/// The state of a service: up, down, or exited with an exit code (none when
/// a signal ended it)
#[derive(PartialEq, Eq, Clone, Copy, Debug, Structural)]
pub enum State {
    Up,
    Down,
    Dead(Option<i32>),
}

impl State {
    pub open spec fn spec_exit_code(self) -> Option<i32> {
        match self {
            State::Up | State::Down => None,
            State::Dead(code) => code,
        }
    }

    /// The exit code of a service that has exited, if it has one
    pub fn exit_code(self) -> (r: Option<i32>)
        ensures
            r == self.spec_exit_code(),
    {
        match self {
            State::Up | State::Down => None,
            State::Dead(code) => code,
        }
    }
}

impl Default for State {
    fn default() -> (r: State)
        ensures
            r == State::Down,
    {
        State::Down
    }
}

/// What the init caches of a started service for ktctl: its pattern's byte,
/// whether it is sandboxed, its PID in little-endian order, then a switch byte
/// 1 and the exit code in little-endian order when it has one, or five zero bytes
pub open spec fn spec_cache(pattern: Pattern, sandboxed: bool, state: State, pid: u32) -> Seq<u8> {
    seq![pattern.spec_byte(), if sandboxed { 1u8 } else { 0u8 }] + le_bytes_u32(pid) + match state.spec_exit_code() {
        Some(code) => seq![1u8] + le_bytes_i32(code),
        None => seq![0u8, 0u8, 0u8, 0u8, 0u8],
    }
}

/// The bytes of a service's cache
pub fn cache_bytes(pattern: Pattern, sandboxed: bool, state: State, pid: u32) -> (r: Vec<u8>)
    ensures
        r@ == spec_cache(pattern, sandboxed, state, pid),
{
    let mut out: Vec<u8> = Vec::new();
    out.push(pattern.byte());
    out.push(if sandboxed { 1u8 } else { 0u8 });
    let mut p = u32_to_le(pid);
    out.append(&mut p);
    match state.exit_code() {
        Some(code) => {
            out.push(1u8);
            let mut c = i32_to_le(code);
            out.append(&mut c);
        },
        None => {
            out.push(0u8);
            out.push(0u8);
            out.push(0u8);
            out.push(0u8);
            out.push(0u8);
        },
    }
    assert(out@ =~= spec_cache(pattern, sandboxed, state, pid));
    out
}

/// The bytes of one log entry, without its line feed: the timestamp's text, the
/// init's marker byte when the entry comes from the init, then the entry's text
pub open spec fn spec_entry_body(timestamp: Seq<char>, from_init: bool, line: Seq<char>) -> Seq<u8> {
    vstd::utf8::encode_utf8(timestamp) + (if from_init {
        seq![INIT_ENTRY]
    } else {
        Seq::empty()
    }) + vstd::utf8::encode_utf8(line)
}

/// A log entry as it is appended to a service's log: the body, then a line feed
pub fn encode_log_entry(millis: u64, from_init: bool, line: &str) -> (r: Vec<u8>)
    ensures
        r@ == spec_entry_body(decimal_nat(millis as nat), from_init, line@).push(10u8),
{
    let ts = u64_to_decimal(millis);
    let mut out = ts.as_str().as_bytes_vec();
    if from_init {
        out.push(INIT_ENTRY);
    }
    let mut body = line.as_bytes_vec();
    out.append(&mut body);
    out.push(10u8);
    proof {
        assert(out@ =~= spec_entry_body(decimal_nat(millis as nat), from_init, line@).push(10u8));
    }
    out
}

/// The line shown on the init's console when a shouting service logs `line`
pub open spec fn spec_shout_line(name: Seq<char>, line: Seq<char>) -> Seq<char> {
    Marker::Service.spec_text() + " "@ + Colour::Bold.spec_code() + "("@ + name + "):"@
        + Colour::Reset.spec_code() + " "@ + line
}

/// The log of a service before its first entry: a Zstandard frame of no data
pub fn empty_log() -> (r: Vec<u8>)
    ensures
        r@ == zstd_compressed(Seq::empty()),
        zstd_decompressed(r@) == Some(Seq::<u8>::empty()),
        zstd_header_ok(r@),
{
    let nothing: Vec<u8> = Vec::new();
    compress_fastest(nothing.as_slice())
}

/// The logger of a service: appends entries to the service's compressed log
#[derive(Clone, Debug)]
pub struct Logger {
    name: String,
    shout: bool,
    /// The number of entries written so far
    line: usize,
}

pub struct LoggerView {
    pub name: Seq<char>,
    pub shout: bool,
    pub line: nat,
}

impl View for Logger {
    type V = LoggerView;

    closed spec fn view(&self) -> LoggerView {
        LoggerView { name: self.name@, shout: self.shout, line: self.line as nat }
    }
}

/// What appending an entry to a log gives: the new log, and the line to show on
/// the console, if any
#[derive(Clone, Debug)]
pub struct LogUpdate {
    pub frame: Vec<u8>,
    pub shout: Option<String>,
}

impl Logger {
    pub const INIT_ENTRY: u8 = 0x8f;

    pub fn new(name: String, shout: bool) -> (r: Logger)
        ensures
            r@ == (LoggerView { name: name@, shout, line: 0 }),
    {
        Logger { name, shout, line: 0 }
    }

    pub fn line(&self) -> (r: usize)
        ensures
            r == self@.line,
    {
        self.line
    }

    /// Appends a line to the log held in `log` (a Zstandard frame), stamped
    /// with `millis` milliseconds since the epoch. An empty line changes
    /// nothing (`Ok(None)`). The new log is the old one's contents followed by
    /// the entry, compressed again; the console line is given when the service
    /// shouts, the entry is its own and the init is in a good state.
    ///
    /// # Errors
    ///
    /// * The log cannot be decompressed (an error of kind `ServiceLogCompress`)
    pub fn record(&mut self, log: &[u8], millis: u64, from_init: bool, line: &str, state_ok: bool) -> (r: Result<Option<LogUpdate>, ErrorTrace>)
        requires
            !line@.contains('\n'),
            old(self)@.line < usize::MAX,
        ensures
            line@.len() == 0 ==> (r matches Ok(None) && final(self)@ == old(self)@),
            line@.len() > 0 ==> (r is Ok <==> zstd_decompressed(log@) is Some),
            line@.len() > 0 ==> match r {
                Ok(Some(u)) => {
                    let contents = zstd_decompressed(log@)->0 + spec_entry_body(
                        decimal_nat(millis as nat),
                        from_init,
                        line@,
                    ).push(10u8);
                    &&& u.frame@ == zstd_compressed(contents)
                    &&& zstd_decompressed(u.frame@) == Some(contents)
                    &&& zstd_header_ok(u.frame@)
                    &&& match u.shout {
                        Some(s) => state_ok && !from_init && old(self)@.shout && s@ == spec_shout_line(
                            old(self)@.name,
                            line@,
                        ),
                        None => !(state_ok && !from_init && old(self)@.shout),
                    }
                    &&& final(self)@ == (LoggerView {
                        name: old(self)@.name,
                        shout: old(self)@.shout,
                        line: old(self)@.line + 1,
                    })
                },
                Ok(None) => false,
                Err(e) => e@.kind == Error::ServiceLogCompress && e@.context is None && final(self)@
                    == old(self)@,
            },
    {
        if line.unicode_len() == 0 {
            return Ok(None);
        }
        let mut contents = match decompress(log) {
            Ok(c) => c,
            Err(e) => return Err(Error::ServiceLogCompress.trace(e.as_str())),
        };
        let mut entry = encode_log_entry(millis, from_init, line);
        contents.append(&mut entry);
        let shout = if state_ok && !from_init && self.shout {
            let mut s = String::from_str(Marker::Service.text());
            s.append(" ");
            s.append(Colour::Bold.code());
            s.append("(");
            s.append(self.name.as_str());
            s.append("):");
            s.append(Colour::Reset.code());
            s.append(" ");
            s.append(line);
            Some(s)
        } else {
            None
        };
        let frame = compress_fastest(contents.as_slice());
        self.line = self.line + 1;
        Ok(Some(LogUpdate { frame, shout }))
    }
}

// ---------------------------------------------------------------------------
// Configuration

/// A directory created in `/run` for a service
#[derive(Clone, Debug)]
pub struct RunDirectory {
    pub name: String,
    pub group: u32,
    pub owner: u32,
    pub mode: u32,
}

/// The sandbox options of a service
#[allow(non_snake_case)]
#[derive(Clone, Debug)]
pub struct Sandbox {
    /// Namespace flags by name, such as "ShareVm" or "NewUser"
    pub flags: Vec<String>,
    /// The files and directories the container will use
    pub import: Vec<String>,
    /// Bind mount the system pseudo filesystems
    pub bindSystemFs: Option<bool>,
    /// Bind mount the dbus socket
    pub bindDbus: Option<bool>,
    /// Share the sandboxed files with the rest of the system
    pub files: Option<String>,
}

/// A service's configuration file, as read
#[derive(Clone, Debug)]
pub struct Config {
    pub description: Option<String>,
    pub optional: Option<bool>,
    pub shout: Option<bool>,
    pub pattern: Option<Pattern>,
    pub logger: Option<bool>,
    pub run_folder: Option<RunDirectory>,
    pub sandbox: Option<Sandbox>,
    /// The executable, then its arguments
    pub argv: VecDeque<String>,
}

/// A line for a service's log
#[derive(PartialEq, Eq, Clone, Debug)]
pub enum LogEntry<'entry> {
    /// Regular entry from the service's output
    Service(&'entry str),
    /// Special entry from the init
    Init(&'entry str),
}

impl<'entry> LogEntry<'entry> {
    /// The entry's text, and whether it comes from the init
    pub fn parts(&self) -> (r: (&'entry str, bool))
        ensures
            match self {
                LogEntry::Init(t) => r.0@ == t@ && r.1,
                LogEntry::Service(t) => r.0@ == t@ && !r.1,
            },
    {
        match self {
            LogEntry::Init(t) => (*t, true),
            LogEntry::Service(t) => (*t, false),
        }
    }
}

/// What a path of the filesystem is
#[derive(PartialEq, Eq, Clone, Copy, Debug, Structural)]
pub enum PathKind {
    Dir,
    File,
    Missing,
}

/// A service of the init
#[derive(Clone, Debug)]
pub struct Service {
    pub name: String,
    /// Optional services won't cause an init error if they exit/fail
    pub optional: bool,
    pub pattern: Pattern,
    /// Whether the service's output is logged
    pub logger: bool,
    /// The process's ID, set when the service is started
    pub pid: Option<u32>,
    shout: bool,
    sandbox: Option<Sandbox>,
    run_folder: Option<RunDirectory>,
    argv: VecDeque<String>,
    state: State,
}

pub struct ServiceView {
    pub name: Seq<char>,
    pub optional: bool,
    pub pattern: Pattern,
    pub logger: bool,
    pub pid: Option<u32>,
    pub shout: bool,
    pub sandbox: Option<Sandbox>,
    pub run_folder: Option<RunDirectory>,
    pub argv: Seq<Seq<char>>,
    pub state: State,
}

impl View for Service {
    type V = ServiceView;

    closed spec fn view(&self) -> ServiceView {
        ServiceView {
            name: self.name@,
            optional: self.optional,
            pattern: self.pattern,
            logger: self.logger,
            pid: self.pid,
            shout: self.shout,
            sandbox: self.sandbox,
            run_folder: self.run_folder,
            argv: strings(self.argv@),
            state: self.state,
        }
    }
}

/// The arguments `warden` is started with for a sandboxed service: the
/// sandbox's switches, each namespace flag, each imported path by its kind,
/// the container, then the service's executable and arguments
pub open spec fn spec_warden_switches(sandbox: Sandbox) -> Seq<Seq<char>> {
    (if sandbox.bindSystemFs == Some(true) {
        seq!["--mount-system-fs"@]
    } else {
        Seq::empty()
    }) + (if sandbox.bindDbus == Some(true) {
        seq!["--dbus"@]
    } else {
        Seq::empty()
    }) + flag_args(strings(sandbox.flags@))
}

pub open spec fn flag_args(flags: Seq<Seq<char>>) -> Seq<Seq<char>>
    decreases flags.len(),
{
    if flags.len() == 0 {
        Seq::empty()
    } else {
        flag_args(flags.drop_last()) + seq!["--flag"@, flags.last()]
    }
}

/// The import arguments, or the first import that is missing
pub open spec fn import_args(imports: Seq<Seq<char>>, kinds: Seq<PathKind>) -> Result<Seq<Seq<char>>, Seq<char>>
    decreases imports.len(),
{
    if imports.len() == 0 {
        Ok(Seq::empty())
    } else {
        match import_args(imports.drop_last(), kinds.drop_last()) {
            Err(m) => Err(m),
            Ok(prev) => match kinds.last() {
                PathKind::Dir => Ok(prev + seq!["--bind-dir"@, imports.last()]),
                PathKind::File => Ok(prev + seq!["--bind-file"@, imports.last()]),
                PathKind::Missing => Err(imports.last()),
            },
        }
    }
}

pub open spec fn spec_warden_args(sandbox: Sandbox, kinds: Seq<PathKind>, container: Seq<char>, argv: Seq<Seq<char>>) -> Result<Seq<Seq<char>>, ErrorTraceView> {
    match import_args(strings(sandbox.import@), kinds) {
        Err(missing) => Err(
            traced(Error::ServiceSandboxInit, "No such file or directory: "@ + missing),
        ),
        Ok(imports) => if argv.len() == 0 {
            Err(traced(Error::ServiceSandboxInit, "No executable in args"@))
        } else {
            Ok(spec_warden_switches(sandbox) + imports + seq![container] + argv)
        },
    }
}

pub open spec fn args_view(r: Result<Vec<String>, ErrorTrace>) -> Result<Seq<Seq<char>>, ErrorTraceView> {
    match r {
        Ok(v) => Ok(strings(v@)),
        Err(e) => Err(e@),
    }
}

/// The arguments `warden` is started with, given the kind of each imported
/// path (looked at on the filesystem, directories first)
///
/// # Errors
///
/// * An imported path is neither a directory nor a file (`ServiceSandboxInit`),
/// * There is no executable (`ServiceSandboxInit`)
pub fn warden_args(sandbox: &Sandbox, kinds: &[PathKind], container: &str, argv: &VecDeque<String>) -> (r: Result<Vec<String>, ErrorTrace>)
    requires
        kinds@.len() == sandbox.import@.len(),
    ensures
        args_view(r) == spec_warden_args(*sandbox, kinds@, container@, strings(argv@)),
{
    let mut out: Vec<String> = Vec::new();
    let ghost empty: Seq<Seq<char>> = Seq::empty();
    if sandbox.bindSystemFs == Some(true) {
        out.push(String::from_str("--mount-system-fs"));
    }
    if sandbox.bindDbus == Some(true) {
        out.push(String::from_str("--dbus"));
    }
    let ghost head = strings(out@);
    proof {
        assert(head =~= (if sandbox.bindSystemFs == Some(true) {
            seq!["--mount-system-fs"@]
        } else {
            empty
        }) + (if sandbox.bindDbus == Some(true) {
            seq!["--dbus"@]
        } else {
            empty
        }));
    }
    let mut i: usize = 0;
    assert(strings(sandbox.flags@).take(0) =~= empty);
    while i < sandbox.flags.len()
        invariant
            0 <= i <= sandbox.flags.len(),
            strings(out@) == head + flag_args(strings(sandbox.flags@).take(i as int)),
        decreases sandbox.flags.len() - i,
    {
        let ghost before = strings(out@);
        out.push(String::from_str("--flag"));
        out.push(sandbox.flags[i].clone());
        proof {
            let fl = strings(sandbox.flags@);
            assert(fl.take(i + 1).drop_last() =~= fl.take(i as int));
            assert(fl.take(i + 1).last() == sandbox.flags@[i as int]@);
            assert(strings(out@) =~= before + seq!["--flag"@, sandbox.flags@[i as int]@]);
        }
        i = i + 1;
    }
    assert(strings(sandbox.flags@).take(i as int) =~= strings(sandbox.flags@));
    let ghost switches = strings(out@);
    let ghost imps = strings(sandbox.import@);
    let mut j: usize = 0;
    assert(imps.take(0) =~= empty);
    assert(kinds@.take(0) =~= Seq::<PathKind>::empty());
    while j < sandbox.import.len()
        invariant
            0 <= j <= sandbox.import.len(),
            kinds@.len() == sandbox.import@.len(),
            imps == strings(sandbox.import@),
            import_args(imps.take(j as int), kinds@.take(j as int)) is Ok,
            strings(out@) == switches + import_args(imps.take(j as int), kinds@.take(j as int))->Ok_0,
        decreases sandbox.import.len() - j,
    {
        proof {
            assert(imps.take(j + 1).drop_last() =~= imps.take(j as int));
            assert(kinds@.take(j + 1).drop_last() =~= kinds@.take(j as int));
            assert(imps.take(j + 1).last() == sandbox.import@[j as int]@);
            assert(kinds@.take(j + 1).last() == kinds@[j as int]);
        }
        let ghost before = strings(out@);
        match kinds[j] {
            PathKind::Dir => {
                out.push(String::from_str("--bind-dir"));
            },
            PathKind::File => {
                out.push(String::from_str("--bind-file"));
            },
            PathKind::Missing => {
                let mut m = String::from_str("No such file or directory: ");
                m.append(sandbox.import[j].as_str());
                proof {
                    lemma_import_args_err(imps, kinds@, j as int);
                }
                return Err(Error::ServiceSandboxInit.trace(m.as_str()));
            },
        }
        out.push(sandbox.import[j].clone());
        proof {
            assert(strings(out@) =~= before + seq![strings(out@)[before.len() as int], sandbox.import@[j as int]@]);
        }
        j = j + 1;
    }
    assert(imps.take(j as int) =~= imps);
    assert(kinds@.take(j as int) =~= kinds@);
    if argv.len() == 0 {
        return Err(Error::ServiceSandboxInit.trace("No executable in args"));
    }
    let ghost before = strings(out@);
    out.push(String::from_str(container));
    let mut k: usize = 0;
    while k < argv.len()
        invariant
            0 <= k <= argv.len(),
            strings(out@) == before + seq![container@] + strings(argv@).take(k as int),
        decreases argv.len() - k,
    {
        let ghost b2 = strings(out@);
        out.push(argv[k].clone());
        proof {
            assert(strings(out@) =~= b2.push(argv@[k as int]@));
            assert(strings(argv@).take(k + 1) =~= strings(argv@).take(k as int).push(argv@[k as int]@));
        }
        k = k + 1;
    }
    assert(strings(argv@).take(k as int) =~= strings(argv@));
    Ok(out)
}

proof fn lemma_import_args_err(imps: Seq<Seq<char>>, kinds: Seq<PathKind>, j: int)
    requires
        0 <= j < imps.len(),
        kinds.len() == imps.len(),
        kinds[j] == PathKind::Missing,
        import_args(imps.take(j), kinds.take(j)) is Ok,
    ensures
        import_args(imps, kinds) == Err::<Seq<Seq<char>>, Seq<char>>(imps[j]),
    decreases imps.len() - j,
{
    lemma_import_args_err_at(imps.take(j + 1), kinds.take(j + 1), imps, kinds, j);
}

proof fn lemma_import_args_err_at(pi: Seq<Seq<char>>, pk: Seq<PathKind>, imps: Seq<Seq<char>>, kinds: Seq<PathKind>, j: int)
    requires
        0 <= j < imps.len(),
        kinds.len() == imps.len(),
        pi == imps.take(j + 1),
        pk == kinds.take(j + 1),
        kinds[j] == PathKind::Missing,
        import_args(imps.take(j), kinds.take(j)) is Ok,
    ensures
        import_args(imps, kinds) == Err::<Seq<Seq<char>>, Seq<char>>(imps[j]),
    decreases imps.len() - j,
{
    assert(pi.drop_last() =~= imps.take(j));
    assert(pk.drop_last() =~= kinds.take(j));
    assert(import_args(pi, pk) == Err::<Seq<Seq<char>>, Seq<char>>(imps[j]));
    lemma_import_args_extend(imps, kinds, j + 1);
}

/// Once the imports up to `n` fail, all of them fail the same way
proof fn lemma_import_args_extend(imps: Seq<Seq<char>>, kinds: Seq<PathKind>, n: int)
    requires
        0 < n <= imps.len(),
        kinds.len() == imps.len(),
        import_args(imps.take(n), kinds.take(n)) is Err,
    ensures
        import_args(imps, kinds) == import_args(imps.take(n), kinds.take(n)),
    decreases imps.len() - n,
{
    if n == imps.len() {
        assert(imps.take(n) =~= imps);
        assert(kinds.take(n) =~= kinds);
    } else {
        assert(imps.take(n + 1).drop_last() =~= imps.take(n));
        assert(kinds.take(n + 1).drop_last() =~= kinds.take(n));
        lemma_import_args_extend(imps, kinds, n + 1);
    }
}

/// One step of preparing a sandbox's container
#[derive(Clone, Debug)]
pub enum SetupStep {
    /// Create a directory
    Mkdir(String),
    /// Change the working directory
    Chdir(String),
    /// Create a symbolic link: its target, then where the link is made
    Symlink(String, String),
}

pub enum SetupStepView {
    Mkdir(Seq<char>),
    Chdir(Seq<char>),
    Symlink(Seq<char>, Seq<char>),
}

impl View for SetupStep {
    type V = SetupStepView;

    open spec fn view(&self) -> SetupStepView {
        match self {
            SetupStep::Mkdir(p) => SetupStepView::Mkdir(p@),
            SetupStep::Chdir(p) => SetupStepView::Chdir(p@),
            SetupStep::Symlink(t, l) => SetupStepView::Symlink(t@, l@),
        }
    }
}

pub open spec fn under(c: Seq<char>, p: Seq<char>) -> Seq<char> {
    spec_join_path(c, p)
}

/// How a container's root is prepared: its directories, then the links from
/// `lib`, `lib64` and `bin` into `usr`, made from inside the container so that
/// they hold both inside and outside it
pub open spec fn spec_setup_plan(c: Seq<char>) -> Seq<SetupStepView> {
    seq![
        SetupStepView::Mkdir(c),
        SetupStepView::Mkdir(under(c, "etc"@)),
        SetupStepView::Mkdir(under(c, "usr"@)),
        SetupStepView::Mkdir(under(under(c, "usr"@), "bin"@)),
        SetupStepView::Mkdir(under(under(c, "usr"@), "lib"@)),
        SetupStepView::Mkdir(under(under(c, "usr"@), "share"@)),
        SetupStepView::Mkdir(under(c, "sys"@)),
        SetupStepView::Mkdir(under(c, "dev"@)),
        SetupStepView::Mkdir(under(c, "proc"@)),
        SetupStepView::Mkdir(under(c, "run"@)),
        SetupStepView::Mkdir(under(c, "tmp"@)),
        SetupStepView::Chdir(under(c, "usr"@)),
        SetupStepView::Symlink("lib"@, under(under(c, "usr"@), "lib64"@)),
        SetupStepView::Chdir(c),
        SetupStepView::Symlink("usr/lib"@, under(c, "lib"@)),
        SetupStepView::Symlink("usr/lib"@, under(c, "lib64"@)),
        SetupStepView::Symlink("usr/bin"@, under(c, "bin"@)),
    ]
}

/// The steps that prepare a sandbox's container at `container`
pub fn setup_plan(container: &str) -> (r: Vec<SetupStep>)
    ensures
        r@.map_values(|s: SetupStep| s@) == spec_setup_plan(container@),
{
    let usr = join_path(container, "usr");
    let mut v: Vec<SetupStep> = Vec::new();
    v.push(SetupStep::Mkdir(String::from_str(container)));
    v.push(SetupStep::Mkdir(join_path(container, "etc")));
    v.push(SetupStep::Mkdir(join_path(container, "usr")));
    v.push(SetupStep::Mkdir(join_path(usr.as_str(), "bin")));
    v.push(SetupStep::Mkdir(join_path(usr.as_str(), "lib")));
    v.push(SetupStep::Mkdir(join_path(usr.as_str(), "share")));
    v.push(SetupStep::Mkdir(join_path(container, "sys")));
    v.push(SetupStep::Mkdir(join_path(container, "dev")));
    v.push(SetupStep::Mkdir(join_path(container, "proc")));
    v.push(SetupStep::Mkdir(join_path(container, "run")));
    v.push(SetupStep::Mkdir(join_path(container, "tmp")));
    v.push(SetupStep::Chdir(join_path(container, "usr")));
    v.push(SetupStep::Symlink(String::from_str("lib"), join_path(usr.as_str(), "lib64")));
    v.push(SetupStep::Chdir(String::from_str(container)));
    v.push(SetupStep::Symlink(String::from_str("usr/lib"), join_path(container, "lib")));
    v.push(SetupStep::Symlink(String::from_str("usr/lib"), join_path(container, "lib64")));
    v.push(SetupStep::Symlink(String::from_str("usr/bin"), join_path(container, "bin")));
    assert(v@.map_values(|s: SetupStep| s@) =~= spec_setup_plan(container@));
    v
}

/// What waiting for a RunOnce service gave
#[derive(Clone, Debug)]
pub enum RunOnceOutcome {
    /// The service exited: its exit code (none after a signal), whether it
    /// succeeded, and its exit status as displayed
    Exited(Option<i32>, bool, String),
    /// Waiting failed, with the error's text
    WaitFailed(String),
    /// The service did not finish within the target's timeout
    TimedOut,
}

/// What a supervisor saw of its service's process: its exit code, or the text
/// of the error of waiting for it
#[derive(Clone, Debug)]
pub enum SupervisedExit {
    Exited(Option<i32>),
    WaitFailed(String),
}

pub open spec fn run_path_spec(name: Seq<char>, of: Seq<char>) -> Seq<char> {
    "/run/kickit/service/"@ + name + "/"@ + of
}

impl Service {
    pub open spec fn from_config_spec(name: Seq<char>, config: Config) -> ServiceView {
        ServiceView {
            name,
            optional: config.optional == Some(true),
            pattern: match config.pattern {
                Some(p) => p,
                None => Pattern::Standard,
            },
            logger: config.logger != Some(false),
            pid: None,
            shout: config.shout == Some(true),
            sandbox: config.sandbox,
            run_folder: config.run_folder,
            argv: strings(config.argv@),
            state: State::Down,
        }
    }

    /// A service as configured: not optional, silent and `Standard` unless the
    /// configuration says otherwise, logged unless it says otherwise, and down
    pub fn from_config(name: &str, config: Config) -> (r: Service)
        ensures
            r@ == Service::from_config_spec(name@, config),
            r@.name == name@,
            r@.optional == (config.optional == Some(true)),
            r@.shout == (config.shout == Some(true)),
            r@.pattern == match config.pattern {
                Some(p) => p,
                None => Pattern::Standard,
            },
            r@.logger == (config.logger != Some(false)),
            r@.sandbox == config.sandbox,
            r@.argv == strings(config.argv@),
            r@.state == State::Down,
            r@.pid is None,
    {
        let optional = match config.optional {
            Some(b) => b,
            None => false,
        };
        let shout = match config.shout {
            Some(b) => b,
            None => false,
        };
        let pattern = match config.pattern {
            Some(p) => p,
            None => Pattern::Standard,
        };
        let logger = match config.logger {
            Some(b) => b,
            None => true,
        };
        Service {
            name: String::from_str(name),
            optional,
            shout,
            sandbox: config.sandbox,
            run_folder: config.run_folder,
            pattern,
            logger,
            argv: config.argv,
            state: State::Down,
            pid: None,
        }
    }

    /// A service read from its configuration, once its executable (the first
    /// of its arguments) was looked for on the filesystem; `executable_exists`
    /// tells whether it was found. A configuration without arguments names
    /// no executable, which is then missing.
    ///
    /// # Errors
    ///
    /// * The executable is missing (`FileNotFound`)
    pub fn init(name: &str, config: Config, executable_exists: bool) -> (r: Result<Service, ErrorTrace>)
        ensures
            match r {
                Ok(s) => executable_exists && config.argv@.len() > 0 && s@ == Service::from_config_spec(name@, config),
                Err(e) => !(executable_exists && config.argv@.len() > 0) && e@ == traced(
                    Error::FileNotFound,
                    "Service executable missing: "@ + name@,
                ),
            },
    {
        if !executable_exists || config.argv.len() == 0 {
            let mut m = String::from_str("Service executable missing: ");
            m.append(name);
            return Err(Error::FileNotFound.trace(m.as_str()));
        }
        Ok(Service::from_config(name, config))
    }

    pub fn state(&self) -> (r: State)
        ensures
            r == self@.state,
    {
        self.state
    }

    pub fn shout(&self) -> (r: bool)
        ensures
            r == self@.shout,
    {
        self.shout
    }

    pub fn sandboxed(&self) -> (r: bool)
        ensures
            r == self@.sandbox is Some,
    {
        self.sandbox.is_some()
    }

    pub fn sandbox(&self) -> (r: &Option<Sandbox>)
        ensures
            *r == self@.sandbox,
    {
        &self.sandbox
    }

    pub fn run_folder(&self) -> (r: &Option<RunDirectory>)
        ensures
            *r == self@.run_folder,
    {
        &self.run_folder
    }

    /// A file of the service in its run directory
    pub fn run_path(&self, of: &str) -> (r: String)
        ensures
            r@ == run_path_spec(self@.name, of@),
    {
        let mut p = String::from_str("/run/kickit/service/");
        p.append(self.name.as_str());
        p.append("/");
        p.append(of);
        p
    }

    /// A service can only be started when it is down
    ///
    /// # Errors
    ///
    /// * The service is not down (`ServiceUp`, with its name as context)
    pub fn up_check(&self) -> (r: Result<(), ErrorTrace>)
        ensures
            r is Ok <==> self@.state == State::Down,
            r matches Err(e) ==> e@ == (ErrorTraceView {
                kind: Error::ServiceUp,
                context: Some(self@.name),
                trace: "already up!"@,
            }),
    {
        if self.state != State::Down {
            return Err(Error::ServiceUp.trace("already up!").context(self.name.as_str()));
        }
        Ok(())
    }

    /// The executable and arguments the service is started with; the
    /// service's command and sandbox are handed over. A sandboxed service is
    /// started through `warden` with its container in the run directory.
    ///
    /// # Errors
    ///
    /// * See `warden_args` for a sandboxed service,
    /// * There is no executable (`ServiceSandboxInit`)
    pub fn command(&mut self, kinds: &[PathKind]) -> (r: Result<(String, VecDeque<String>), ErrorTrace>)
        requires
            old(self)@.sandbox matches Some(sb) ==> kinds@.len() == sb.import@.len(),
        ensures
            final(self)@ == (ServiceView { argv: Seq::empty(), sandbox: None, ..old(self)@ }),
            match old(self)@.sandbox {
                Some(sb) => match r {
                    Ok((argv, args)) => argv@ == "/usr/lib/kickit/warden"@ && spec_warden_args(
                        sb,
                        kinds@,
                        run_path_spec(old(self)@.name, "container"@),
                        old(self)@.argv,
                    ) == Ok::<Seq<Seq<char>>, ErrorTraceView>(strings(args@)),
                    Err(e) => spec_warden_args(
                        sb,
                        kinds@,
                        run_path_spec(old(self)@.name, "container"@),
                        old(self)@.argv,
                    ) == Err::<Seq<Seq<char>>, ErrorTraceView>(e@),
                },
                None => match r {
                    Ok((argv, args)) => old(self)@.argv.len() > 0 && argv@ == old(self)@.argv[0]
                        && strings(args@) == old(self)@.argv.drop_first(),
                    Err(e) => old(self)@.argv.len() == 0 && e@ == traced(
                        Error::ServiceSandboxInit,
                        "No executable: "@ + old(self)@.name,
                    ),
                },
            },
    {
        let mut argv: VecDeque<String> = VecDeque::new();
        std::mem::swap(&mut argv, &mut self.argv);
        let mut sandbox: Option<Sandbox> = None;
        std::mem::swap(&mut sandbox, &mut self.sandbox);
        assert(strings(self.argv@) =~= Seq::<Seq<char>>::empty());
        match sandbox {
            Some(sb) => {
                let container = self.run_path("container");
                let r = warden_args(&sb, kinds, container.as_str(), &argv);
                let path = join_path(crate::PREFIX, "warden");
                proof {
                    reveal_strlit("/usr/lib/kickit");
                    reveal_strlit("warden");
                    reveal_strlit("/");
                    reveal_strlit("/usr/lib/kickit/warden");
                    assert(path@ =~= "/usr/lib/kickit/warden"@);
                }
                match r {
                    Ok(args) => {
                        let mut out: VecDeque<String> = VecDeque::new();
                        let mut i: usize = 0;
                        while i < args.len()
                            invariant
                                0 <= i <= args.len(),
                                strings(out@) == strings(args@).take(i as int),
                            decreases args.len() - i,
                        {
                            let ghost b = strings(out@);
                            out.push_back(args[i].clone());
                            proof {
                                assert(strings(out@) =~= b.push(args@[i as int]@));
                                assert(strings(args@).take(i + 1) =~= strings(args@).take(i as int).push(args@[i as int]@));
                            }
                            i = i + 1;
                        }
                        assert(strings(args@).take(i as int) =~= strings(args@));
                        Ok((path, out))
                    },
                    Err(e) => Err(e),
                }
            },
            None => {
                let ghost all = strings(argv@);
                match argv.pop_front() {
                    Some(first) => {
                        assert(strings(argv@) =~= all.drop_first());
                        Ok((first, argv))
                    },
                    None => {
                        let mut m = String::from_str("No executable: ");
                        m.append(self.name.as_str());
                        Err(Error::ServiceSandboxInit.trace(m.as_str()))
                    },
                }
            },
        }
    }

    /// A standard or forking service has been spawned with the given PID: it is up
    ///
    /// # Errors
    ///
    /// * A PID was already set (`Unknown`)
    pub fn started(&mut self, pid: u32) -> (r: Result<(), ErrorTrace>)
        ensures
            match r {
                Ok(_) => old(self)@.pid is None && final(self)@ == (ServiceView {
                    pid: Some(pid),
                    state: State::Up,
                    ..old(self)@
                }),
                Err(e) => old(self)@.pid is Some && final(self)@ == old(self)@ && e@ == traced(
                    Error::Unknown,
                    "Failed to set PID for "@ + old(self)@.name,
                ),
            },
    {
        if self.pid.is_some() {
            let mut m = String::from_str("Failed to set PID for ");
            m.append(self.name.as_str());
            return Err(Error::Unknown.trace(m.as_str()));
        }
        self.pid = Some(pid);
        self.state = State::Up;
        Ok(())
    }

    /// A RunOnce service has been waited for: when it exited it is dead with
    /// its exit code, and it failed unless it exited successfully
    ///
    /// # Errors
    ///
    /// * The service exited unsuccessfully, waiting failed, or it timed out (`ServiceUp`)
    pub fn finished(&mut self, outcome: RunOnceOutcome) -> (r: Result<(), ErrorTrace>)
        ensures
            match outcome {
                RunOnceOutcome::Exited(code, success, status) => final(self)@ == (ServiceView {
                    state: State::Dead(code),
                    ..old(self)@
                }) && match r {
                    Ok(_) => success,
                    Err(e) => !success && e@ == traced(
                        Error::ServiceUp,
                        old(self)@.name + " exited on error ("@ + status@ + ")"@,
                    ),
                },
                RunOnceOutcome::WaitFailed(msg) => final(self)@ == old(self)@ && (r matches Err(e)
                    && e@ == traced(Error::ServiceUp, msg@)),
                RunOnceOutcome::TimedOut => final(self)@ == old(self)@ && (r matches Err(e) && e@
                    == traced(Error::ServiceUp, "Timeout while waiting for "@ + old(self)@.name)),
            },
    {
        match outcome {
            RunOnceOutcome::Exited(code, success, status) => {
                self.state = State::Dead(code);
                if !success {
                    let mut m = self.name.clone();
                    m.append(" exited on error (");
                    m.append(status.as_str());
                    m.append(")");
                    return Err(Error::ServiceUp.trace(m.as_str()));
                }
                Ok(())
            },
            RunOnceOutcome::WaitFailed(msg) => Err(Error::ServiceUp.trace(msg.as_str())),
            RunOnceOutcome::TimedOut => {
                let mut m = String::from_str("Timeout while waiting for ");
                m.append(self.name.as_str());
                Err(Error::ServiceUp.trace(m.as_str()))
            },
        }
    }

    /// The service's PID
    ///
    /// # Errors
    ///
    /// * The service is down (`ServiceAccess`),
    /// * No PID was set (`Unknown`)
    pub fn pid(&self) -> (r: Result<u32, ErrorTrace>)
        ensures
            match r {
                Ok(p) => self@.state != State::Down && self@.pid == Some(p),
                Err(e) => if self@.state == State::Down {
                    e@ == traced(Error::ServiceAccess, "Service is down, cannot get PID"@)
                } else {
                    self@.pid is None && e@ == traced(Error::Unknown, "OnceLock value has not been set yet!"@)
                },
            },
    {
        if self.state == State::Down {
            return Err(Error::ServiceAccess.trace("Service is down, cannot get PID"));
        }
        match self.pid {
            Some(p) => Ok(p),
            None => Err(Error::Unknown.trace("OnceLock value has not been set yet!")),
        }
    }

    /// The cache written for ktctl once the service is started
    pub fn cache(&self, sandboxed: bool) -> (r: Vec<u8>)
        ensures
            r@ == spec_cache(
                self@.pattern,
                sandboxed,
                self@.state,
                match (self@.state, self@.pid) {
                    (State::Down, _) => 0u32,
                    (_, Some(p)) => p,
                    (_, None) => 0u32,
                },
            ),
    {
        let pid = match self.pid() {
            Ok(p) => p,
            Err(_) => 0,
        };
        cache_bytes(self.pattern, sandboxed, self.state, pid)
    }

    /// Whether the service may be killed, and the PID to signal: it must be up,
    /// and its process must have been handed to its supervisor
    ///
    /// # Errors
    ///
    /// * The service is not up, or its process was not handed over (`ServiceDown`),
    /// * See `pid`
    pub fn down_check(&self, process_held: bool) -> (r: Result<i32, ErrorTrace>)
        ensures
            match r {
                Ok(p) => self@.state == State::Up && !process_held && self@.pid == Some(p as u32),
                Err(e) => if self@.state != State::Up {
                    e@ == traced(Error::ServiceDown, "Cannot kill a service that isn't alive!"@)
                } else if process_held {
                    e@ == traced(Error::ServiceDown, "Service is not ready to be killed"@)
                } else {
                    self@.pid is None
                },
            },
    {
        if self.state != State::Up {
            return Err(Error::ServiceDown.trace("Cannot kill a service that isn't alive!"));
        }
        if process_held {
            return Err(Error::ServiceDown.trace("Service is not ready to be killed"));
        }
        let pid = self.pid()?;
        assert((pid as i32) as u32 == pid) by (bit_vector);
        Ok(pid as i32)
    }
}

/// What a supervisor reports when its service's process ends: while the
/// system powers off nothing, else an error (even after a successful exit)
pub fn supervise_result(name: &str, exit: SupervisedExit, power_off_ready: bool) -> (r: Result<(), ErrorTrace>)
    ensures
        power_off_ready ==> r is Ok,
        !power_off_ready ==> match exit {
            SupervisedExit::Exited(Some(code)) => r matches Err(e) && e@ == traced(
                Error::ServiceDown,
                "Service "@ + name@ + " has died: "@ + decimal(code as int),
            ),
            SupervisedExit::Exited(None) => r matches Err(e) && e@ == traced(
                Error::ServiceDown,
                "Service "@ + name@ + " has died: code is unavailable!"@,
            ),
            SupervisedExit::WaitFailed(msg) => r matches Err(e) && e@ == (ErrorTraceView {
                kind: Error::ServiceDown,
                context: Some(name@),
                trace: msg@,
            }),
        },
{
    let err = match exit {
        SupervisedExit::Exited(code) => {
            let mut m = String::from_str("Service ");
            m.append(name);
            match code {
                Some(c) => {
                    m.append(" has died: ");
                    let d = i64_to_decimal(c as i64);
                    m.append(d.as_str());
                },
                None => {
                    m.append(" has died: code is unavailable!");
                },
            }
            Error::ServiceDown.trace(m.as_str())
        },
        SupervisedExit::WaitFailed(msg) => Error::ServiceDown.trace(msg.as_str()).context(name),
    };
    if power_off_ready {
        Ok(())
    } else {
        Err(err)
    }
}

// ---------------------------------------------------------------------------
// Facts on the bytes of log entries

pub open spec fn pow10(k: nat) -> nat
    decreases k,
{
    if k == 0 {
        1
    } else {
        10 * pow10((k - 1) as nat)
    }
}

proof fn lemma_decimal_digits(n: nat)
    ensures
        forall|i: int| 0 <= i < decimal_nat(n).len() ==> '0' <= #[trigger] decimal_nat(n)[i] <= '9',
    decreases n,
{
    if n >= 10 {
        lemma_decimal_digits(n / 10);
        let a = decimal_nat(n / 10);
        let d = crate::text::digit_char(n % 10);
        assert(decimal_nat(n) == a + seq![d]);
        assert forall|i: int| 0 <= i < decimal_nat(n).len() implies '0' <= #[trigger] decimal_nat(n)[i] <= '9' by {
            if i < a.len() {
                assert(decimal_nat(n)[i] == a[i]);
            }
        }
    }
}

proof fn lemma_decimal_len(n: nat, k: nat)
    requires
        pow10(k) <= n < pow10(k + 1),
    ensures
        decimal_nat(n).len() == k + 1,
    decreases k,
{
    if k == 0 {
        assert(n < 10);
    } else {
        assert(pow10((k - 1) as nat) <= n / 10 < pow10(k)) by (nonlinear_arith)
            requires
                pow10(k) <= n < pow10(k + 1),
                pow10(k) == 10 * pow10((k - 1) as nat),
                pow10(k + 1) == 10 * pow10(k),
        ;
        assert(pow10(k) >= 10) by {
            lemma_pow10_ge_1((k - 1) as nat);
        }
        lemma_decimal_len(n / 10, (k - 1) as nat);
    }
}

proof fn lemma_pow10_ge_1(k: nat)
    ensures
        pow10(k) >= 1,
    decreases k,
{
    if k > 0 {
        lemma_pow10_ge_1((k - 1) as nat);
    }
}

/// The bytes of one character: the first is never a continuation byte, and
/// none is a line feed unless the character is one
proof fn lemma_scalar_bytes(c: char)
    ensures
        vstd::utf8::encode_scalar(c as u32).len() >= 1,
        vstd::utf8::encode_scalar(c as u32)[0] != INIT_ENTRY,
        c != '\n' ==> forall|i: int|
            0 <= i < vstd::utf8::encode_scalar(c as u32).len() ==> #[trigger] vstd::utf8::encode_scalar(
                c as u32,
            )[i] != 10u8,
{
    let s = c as u32;
    char_is_scalar(c);
    if has_width_1_encoding(s) {
        assert((s & 0x7F) as u8 != 0x8fu8) by (bit_vector)
            requires
                s <= 0x7f,
        ;
        assert(s != 10u32 ==> (s & 0x7F) as u8 != 10u8) by (bit_vector)
            requires
                s <= 0x7f,
        ;
        assert((c as u32) != 10u32 <== c != '\n');
    } else if has_width_2_encoding(s) {
        assert((0xC0u8 | ((s >> 6) & 0x1F) as u8) != 0x8fu8 && (0xC0u8 | ((s >> 6) & 0x1F) as u8)
            != 10u8) by (bit_vector);
        assert((0x80u8 | (s & 0x3F) as u8) != 10u8) by (bit_vector);
    } else if has_width_3_encoding(s) {
        assert((0xE0u8 | ((s >> 12) & 0x0F) as u8) != 0x8fu8 && (0xE0u8 | ((s >> 12) & 0x0F) as u8)
            != 10u8) by (bit_vector);
        assert((0x80u8 | ((s >> 6) & 0x3F) as u8) != 10u8) by (bit_vector);
        assert((0x80u8 | (s & 0x3F) as u8) != 10u8) by (bit_vector);
    } else {
        assert((0xF0u8 | ((s >> 18) & 0x7) as u8) != 0x8fu8 && (0xF0u8 | ((s >> 18) & 0x7) as u8)
            != 10u8) by (bit_vector);
        assert((0x80u8 | ((s >> 12) & 0x3F) as u8) != 10u8) by (bit_vector);
        assert((0x80u8 | ((s >> 6) & 0x3F) as u8) != 10u8) by (bit_vector);
        assert((0x80u8 | (s & 0x3F) as u8) != 10u8) by (bit_vector);
    }
}

/// The UTF-8 bytes of a text without line feeds hold no line-feed byte, and a
/// text that is not empty does not start with the init's marker byte
proof fn lemma_text_bytes(chars: Seq<char>)
    ensures
        chars.len() > 0 ==> vstd::utf8::encode_utf8(chars).len() > 0 && vstd::utf8::encode_utf8(chars)[0]
            != INIT_ENTRY,
        !chars.contains('\n') ==> forall|i: int|
            0 <= i < vstd::utf8::encode_utf8(chars).len() ==> #[trigger] vstd::utf8::encode_utf8(chars)[i]
                != 10u8,
    decreases chars.len(),
{
    if chars.len() > 0 {
        let head = encode_scalar(chars[0] as u32);
        let rest = chars.drop_first();
        lemma_scalar_bytes(chars[0]);
        lemma_text_bytes(rest);
        let e = encode_utf8(chars);
        assert(e == head + encode_utf8(rest));
        assert(e[0] == head[0]);
        if !chars.contains('\n') {
            assert(chars[0] != '\n') by {
                if chars[0] == '\n' {
                    assert(chars.contains('\n'));
                }
            }
            assert(!rest.contains('\n')) by {
                if rest.contains('\n') {
                    let j = choose|j: int| 0 <= j < rest.len() && rest[j] == '\n';
                    assert(chars[j + 1] == '\n');
                }
            }
            assert forall|i: int| 0 <= i < e.len() implies #[trigger] e[i] != 10u8 by {
                if i < head.len() {
                    assert(e[i] == head[i]);
                } else {
                    assert(e[i] == encode_utf8(rest)[i - head.len()]);
                }
            }
        }
    }
}

/// An entry body with a thirteen-digit timestamp and a line that is not
/// empty is at least fourteen bytes long
pub proof fn lemma_body_len(millis: u64, from_init: bool, line: Seq<char>)
    requires
        1_000_000_000_000 <= millis < 10_000_000_000_000,
        line.len() > 0,
    ensures
        spec_entry_body(decimal_nat(millis as nat), from_init, line).len() >= 14,
{
    let ts = decimal_nat(millis as nat);
    assert(pow10(13) == 10_000_000_000_000 && pow10(12) == 1_000_000_000_000) by {
        reveal_with_fuel(pow10, 14);
    }
    lemma_decimal_len(millis as nat, 12);
    lemma_decimal_digits(millis as nat);
    assert(is_ascii_chars(ts));
    is_ascii_chars_encode_utf8(ts);
    lemma_text_bytes(line);
}

/// An entry the logger writes is read back by ktctl as the same timestamp,
/// origin and text, for timestamps of thirteen digits (milliseconds between
/// September 2001 and November 2286) and lines that are not empty.
pub proof fn law_log_entry_read_back(millis: u64, from_init: bool, line: Seq<char>)
    requires
        1_000_000_000_000 <= millis < 10_000_000_000_000,
        line.len() > 0,
    ensures
        crate::ktctl::service::spec_decode_entry(
            spec_entry_body(decimal_nat(millis as nat), from_init, line),
            false,
        ) == Ok::<Option<(Seq<char>, bool, Seq<char>)>, ()>(
            Some((decimal_nat(millis as nat), from_init, line)),
        ),
        from_init ==> crate::ktctl::service::spec_decode_entry(
            spec_entry_body(decimal_nat(millis as nat), from_init, line),
            true,
        ) == Ok::<Option<(Seq<char>, bool, Seq<char>)>, ()>(None),
{
    let ts = decimal_nat(millis as nat);
    assert(pow10(13) == 10_000_000_000_000 && pow10(12) == 1_000_000_000_000) by {
        reveal_with_fuel(pow10, 14);
    }
    lemma_decimal_len(millis as nat, 12);
    lemma_decimal_digits(millis as nat);
    assert(is_ascii_chars(ts));
    is_ascii_chars_encode_utf8(ts);
    let tb = encode_utf8(ts);
    let lb = encode_utf8(line);
    let body = spec_entry_body(ts, from_init, line);
    lemma_text_bytes(line);
    encode_utf8_valid_utf8(ts);
    encode_utf8_valid_utf8(line);
    encode_utf8_decode_utf8(ts);
    encode_utf8_decode_utf8(line);
    assert(body.take(13) =~= tb);
    if from_init {
        assert(body[13] == INIT_ENTRY);
        assert(body.skip(14) =~= lb);
    } else {
        assert(body[13] == lb[0]);
        assert(body.skip(13) =~= lb);
    }
}

/// Entry bodies hold no line feed when their line holds none, so the records
/// of a log are its entries.
pub proof fn law_entry_body_has_no_feed(millis: u64, from_init: bool, line: Seq<char>)
    requires
        !line.contains('\n'),
    ensures
        forall|i: int|
            0 <= i < spec_entry_body(decimal_nat(millis as nat), from_init, line).len() ==> #[trigger] spec_entry_body(
                decimal_nat(millis as nat),
                from_init,
                line,
            )[i] != 10u8,
{
    let ts = decimal_nat(millis as nat);
    lemma_decimal_digits(millis as nat);
    assert(is_ascii_chars(ts));
    is_ascii_chars_encode_utf8(ts);
    lemma_text_bytes(line);
    let tb = encode_utf8(ts);
    let mid: Seq<u8> = if from_init {
        seq![INIT_ENTRY]
    } else {
        Seq::empty()
    };
    let body = spec_entry_body(ts, from_init, line);
    assert forall|i: int| 0 <= i < body.len() implies #[trigger] body[i] != 10u8 by {
        if i < tb.len() {
            assert(body[i] == tb[i]);
            assert(ts[i] as u8 == tb[i]);
        } else if i < tb.len() + mid.len() {
            assert(body[i] == mid[i - tb.len()]);
        } else {
            assert(body[i] == encode_utf8(line)[i - tb.len() - mid.len()]);
        }
    }
}

} // verus!
