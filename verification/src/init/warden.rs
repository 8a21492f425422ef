//! warden, the sandboxer of services: its namespace flags, its arguments, and
//! the steps that build and tear down a sandbox

use vstd::prelude::*;
use vstd::string::*;
use crate::text::{str_eq, strings, join_seq, opt_string, spec_join_path, join_path};
use crate::console::{Colour, Colourize, resolved};
use crate::{delim_iter, delim_pieces, concat, law_delim_iter_joins};
use crate::init::service::{PathKind, flag_args, import_args, spec_warden_args, spec_warden_switches};

verus! {

/// An error of warden, wrapping whatever went wrong
#[derive(Debug)]
pub struct Error<Inner>(pub Inner);

impl<E> From<E> for Error<E> {
    fn from(input: E) -> (r: Self) {
        Error(input)
    }
}

impl<E> vstd::std_specs::convert::FromSpecImpl<E> for Error<E> {
    open spec fn obeys_from_spec() -> bool {
        true
    }

    open spec fn from_spec(v: E) -> Self {
        Error(v)
    }
}

/// Turn the error of a result into a warden error
pub trait StandardizeError<OkType, ErrorType>: Sized {
    fn errorize(self) -> Result<OkType, Error<ErrorType>>;
}

impl<OkType, ErrorType> StandardizeError<OkType, ErrorType> for Result<OkType, ErrorType> {
    fn errorize(self) -> (r: Result<OkType, Error<ErrorType>>)
        ensures
            match self {
                Ok(v) => r == Ok::<OkType, Error<ErrorType>>(v),
                Err(e) => r == Err::<OkType, Error<ErrorType>>(Error(e)),
            },
    {
        match self {
            Ok(ok) => Ok(ok),
            Err(err) => Err(Error::<ErrorType>::from(err)),
        }
    }
}

pub open spec fn spec_fatal_line(message: Seq<char>) -> Seq<char> {
    "warden "@ + resolved(seq![Colour::Red], "(error):"@, false) + " "@ + resolved(
        seq![Colour::Bold],
        message,
        false,
    )
}

pub open spec fn spec_warn_line(message: Seq<char>) -> Seq<char> {
    "warden "@ + resolved(seq![Colour::Orange], "(warning):"@, false) + " "@ + resolved(
        seq![Colour::Bold],
        message,
        false,
    )
}

/// The line warden prints before it exits on an error
pub fn fatal_line(message: &str) -> (r: String)
    ensures
        r@ == spec_fatal_line(message@),
{
    let mut s = String::from_str("warden ");
    let head = "(error):".colour(Colour::Red).resolve();
    s.append(head.as_str());
    s.append(" ");
    let body = message.bold().resolve();
    s.append(body.as_str());
    s
}

/// The line warden prints on a warning
pub fn warn_line(message: &str) -> (r: String)
    ensures
        r@ == spec_warn_line(message@),
{
    let mut s = String::from_str("warden ");
    let head = "(warning):".colour(Colour::Orange).resolve();
    s.append(head.as_str());
    s.append(" ");
    let body = message.bold().resolve();
    s.append(body.as_str());
    s
}

/// Namespace flags for `unshare`, named as in a service's sandbox options
#[derive(Copy, Clone, PartialEq, Eq, Debug, Structural)]
pub enum NsFlag {
    /// Share memory space between caller and child
    ShareVm,
    /// Share System-V semaphore adjustment values between caller and child
    ShareVSem,
    /// Share filesystem info between caller and child
    ShareFs,
    /// Share the file-descriptor table between caller and child
    ShareFiles,
    /// Share the signal handlers between caller and child
    ShareSignalHandler,
    /// A tracing process cannot call ptrace on the child
    ShareUntraced,
    /// If the caller is traced, the child will be as well
    SharePTrace,
    /// The caller is suspended until the child releases its memory
    ShareVFork,
    /// The parent of the child is the caller's
    ShareParent,
    /// Share the thread group between caller and child
    ShareThread,
    /// Share the input/output context between caller and child
    ShareIo,
    /// A new mount namespace
    NewMount,
    /// A new cgroup namespace
    NewCGroup,
    /// A new UTS namespace
    NewUts,
    /// A new IPC namespace
    NewIpc,
    /// A new user namespace
    NewUser,
    /// A new PID namespace
    NewPid,
    /// A new network namespace
    NewNetwork,
}

impl NsFlag {
    /// The flag's bit among Linux's `CLONE_*` flags
    pub open spec fn spec_bits(self) -> i32 {
        match self {
            NsFlag::ShareVm => 0x100,
            NsFlag::ShareVSem => 0x40000,
            NsFlag::ShareFs => 0x200,
            NsFlag::ShareFiles => 0x400,
            NsFlag::ShareSignalHandler => 0x800,
            NsFlag::ShareUntraced => 0x800000,
            NsFlag::SharePTrace => 0x2000,
            NsFlag::ShareVFork => 0x4000,
            NsFlag::ShareParent => 0x8000,
            NsFlag::ShareThread => 0x10000,
            NsFlag::ShareIo => i32::MIN,
            NsFlag::NewMount => 0x20000,
            NsFlag::NewCGroup => 0x2000000,
            NsFlag::NewUts => 0x4000000,
            NsFlag::NewIpc => 0x8000000,
            NsFlag::NewUser => 0x10000000,
            NsFlag::NewPid => 0x20000000,
            NsFlag::NewNetwork => 0x40000000,
        }
    }

    /// The flag's bit
    pub fn bits(self) -> (r: i32)
        ensures
            r == self.spec_bits(),
    {
        match self {
            NsFlag::ShareVm => 0x100,
            NsFlag::ShareVSem => 0x40000,
            NsFlag::ShareFs => 0x200,
            NsFlag::ShareFiles => 0x400,
            NsFlag::ShareSignalHandler => 0x800,
            NsFlag::ShareUntraced => 0x800000,
            NsFlag::SharePTrace => 0x2000,
            NsFlag::ShareVFork => 0x4000,
            NsFlag::ShareParent => 0x8000,
            NsFlag::ShareThread => 0x10000,
            NsFlag::ShareIo => i32::MIN,
            NsFlag::NewMount => 0x20000,
            NsFlag::NewCGroup => 0x2000000,
            NsFlag::NewUts => 0x4000000,
            NsFlag::NewIpc => 0x8000000,
            NsFlag::NewUser => 0x10000000,
            NsFlag::NewPid => 0x20000000,
            NsFlag::NewNetwork => 0x40000000,
        }
    }

    pub open spec fn spec_name(self) -> Seq<char> {
        match self {
            NsFlag::ShareVm => "ShareVm"@,
            NsFlag::ShareVSem => "ShareVSem"@,
            NsFlag::ShareFs => "ShareFs"@,
            NsFlag::ShareFiles => "ShareFiles"@,
            NsFlag::ShareSignalHandler => "ShareSignalHandler"@,
            NsFlag::ShareUntraced => "ShareUntraced"@,
            NsFlag::SharePTrace => "SharePTrace"@,
            NsFlag::ShareVFork => "ShareVFork"@,
            NsFlag::ShareParent => "ShareParent"@,
            NsFlag::ShareThread => "ShareThread"@,
            NsFlag::ShareIo => "ShareIo"@,
            NsFlag::NewMount => "NewMount"@,
            NsFlag::NewCGroup => "NewCGroup"@,
            NsFlag::NewUts => "NewUts"@,
            NsFlag::NewIpc => "NewIpc"@,
            NsFlag::NewUser => "NewUser"@,
            NsFlag::NewPid => "NewPid"@,
            NsFlag::NewNetwork => "NewNetwork"@,
        }
    }

    /// The flag's name
    pub fn name(self) -> (r: &'static str)
        ensures
            r@ == self.spec_name(),
    {
        match self {
            NsFlag::ShareVm => "ShareVm",
            NsFlag::ShareVSem => "ShareVSem",
            NsFlag::ShareFs => "ShareFs",
            NsFlag::ShareFiles => "ShareFiles",
            NsFlag::ShareSignalHandler => "ShareSignalHandler",
            NsFlag::ShareUntraced => "ShareUntraced",
            NsFlag::SharePTrace => "SharePTrace",
            NsFlag::ShareVFork => "ShareVFork",
            NsFlag::ShareParent => "ShareParent",
            NsFlag::ShareThread => "ShareThread",
            NsFlag::ShareIo => "ShareIo",
            NsFlag::NewMount => "NewMount",
            NsFlag::NewCGroup => "NewCGroup",
            NsFlag::NewUts => "NewUts",
            NsFlag::NewIpc => "NewIpc",
            NsFlag::NewUser => "NewUser",
            NsFlag::NewPid => "NewPid",
            NsFlag::NewNetwork => "NewNetwork",
        }
    }

    /// All the flags, in the order they are listed
    pub open spec fn spec_all() -> Seq<NsFlag> {
        seq![
            NsFlag::ShareVm,
            NsFlag::ShareVSem,
            NsFlag::ShareFs,
            NsFlag::ShareFiles,
            NsFlag::ShareSignalHandler,
            NsFlag::ShareUntraced,
            NsFlag::SharePTrace,
            NsFlag::ShareVFork,
            NsFlag::ShareParent,
            NsFlag::ShareThread,
            NsFlag::ShareIo,
            NsFlag::NewMount,
            NsFlag::NewCGroup,
            NsFlag::NewUts,
            NsFlag::NewIpc,
            NsFlag::NewUser,
            NsFlag::NewPid,
            NsFlag::NewNetwork,
        ]
    }

    pub fn all() -> (r: Vec<NsFlag>)
        ensures
            r@ == NsFlag::spec_all(),
    {
        let mut v: Vec<NsFlag> = Vec::new();
        v.push(NsFlag::ShareVm);
        v.push(NsFlag::ShareVSem);
        v.push(NsFlag::ShareFs);
        v.push(NsFlag::ShareFiles);
        v.push(NsFlag::ShareSignalHandler);
        v.push(NsFlag::ShareUntraced);
        v.push(NsFlag::SharePTrace);
        v.push(NsFlag::ShareVFork);
        v.push(NsFlag::ShareParent);
        v.push(NsFlag::ShareThread);
        v.push(NsFlag::ShareIo);
        v.push(NsFlag::NewMount);
        v.push(NsFlag::NewCGroup);
        v.push(NsFlag::NewUts);
        v.push(NsFlag::NewIpc);
        v.push(NsFlag::NewUser);
        v.push(NsFlag::NewPid);
        v.push(NsFlag::NewNetwork);
        assert(v@ =~= NsFlag::spec_all());
        v
    }

    pub open spec fn spec_new(name: Seq<char>) -> Option<NsFlag> {
        if name == "ShareVm"@ {
            Some(NsFlag::ShareVm)
        } else if name == "ShareVSem"@ {
            Some(NsFlag::ShareVSem)
        } else if name == "ShareFs"@ {
            Some(NsFlag::ShareFs)
        } else if name == "ShareFiles"@ {
            Some(NsFlag::ShareFiles)
        } else if name == "ShareSignalHandler"@ {
            Some(NsFlag::ShareSignalHandler)
        } else if name == "ShareUntraced"@ {
            Some(NsFlag::ShareUntraced)
        } else if name == "SharePTrace"@ {
            Some(NsFlag::SharePTrace)
        } else if name == "ShareVFork"@ {
            Some(NsFlag::ShareVFork)
        } else if name == "ShareParent"@ {
            Some(NsFlag::ShareParent)
        } else if name == "ShareThread"@ {
            Some(NsFlag::ShareThread)
        } else if name == "ShareIo"@ {
            Some(NsFlag::ShareIo)
        } else if name == "NewMount"@ {
            Some(NsFlag::NewMount)
        } else if name == "NewCGroup"@ {
            Some(NsFlag::NewCGroup)
        } else if name == "NewUts"@ {
            Some(NsFlag::NewUts)
        } else if name == "NewIpc"@ {
            Some(NsFlag::NewIpc)
        } else if name == "NewUser"@ {
            Some(NsFlag::NewUser)
        } else if name == "NewPid"@ {
            Some(NsFlag::NewPid)
        } else if name == "NewNetwork"@ {
            Some(NsFlag::NewNetwork)
        } else {
            None
        }
    }

    /// The flag of that name
    pub fn new(input: &str) -> (r: Option<NsFlag>)
        ensures
            r == NsFlag::spec_new(input@),
    {
        if str_eq(input, "ShareVm") {
            Some(NsFlag::ShareVm)
        } else if str_eq(input, "ShareVSem") {
            Some(NsFlag::ShareVSem)
        } else if str_eq(input, "ShareFs") {
            Some(NsFlag::ShareFs)
        } else if str_eq(input, "ShareFiles") {
            Some(NsFlag::ShareFiles)
        } else if str_eq(input, "ShareSignalHandler") {
            Some(NsFlag::ShareSignalHandler)
        } else if str_eq(input, "ShareUntraced") {
            Some(NsFlag::ShareUntraced)
        } else if str_eq(input, "SharePTrace") {
            Some(NsFlag::SharePTrace)
        } else if str_eq(input, "ShareVFork") {
            Some(NsFlag::ShareVFork)
        } else if str_eq(input, "ShareParent") {
            Some(NsFlag::ShareParent)
        } else if str_eq(input, "ShareThread") {
            Some(NsFlag::ShareThread)
        } else if str_eq(input, "ShareIo") {
            Some(NsFlag::ShareIo)
        } else if str_eq(input, "NewMount") {
            Some(NsFlag::NewMount)
        } else if str_eq(input, "NewCGroup") {
            Some(NsFlag::NewCGroup)
        } else if str_eq(input, "NewUts") {
            Some(NsFlag::NewUts)
        } else if str_eq(input, "NewIpc") {
            Some(NsFlag::NewIpc)
        } else if str_eq(input, "NewUser") {
            Some(NsFlag::NewUser)
        } else if str_eq(input, "NewPid") {
            Some(NsFlag::NewPid)
        } else if str_eq(input, "NewNetwork") {
            Some(NsFlag::NewNetwork)
        } else {
            None
        }
    }
}

/// The names of all the flags, in the order they are listed
pub open spec fn spec_flag_names() -> Seq<Seq<char>> {
    NsFlag::spec_all().map_values(|f: NsFlag| f.spec_name())
}

/// What `--list` prints: a bold heading, then one flag name a line
pub open spec fn spec_flag_list() -> Seq<char> {
    resolved(seq![Colour::Bold], "Flags:"@, false) + "\n"@ + "* "@ + join_seq(spec_flag_names(), ",\n* "@)
        + "\n"@
}

/// The text `--list` prints
pub fn list_flags() -> (r: String)
    ensures
        r@ == spec_flag_list(),
{
    let all = NsFlag::all();
    let mut names: Vec<String> = Vec::new();
    let mut i: usize = 0;
    while i < all.len()
        invariant
            0 <= i <= all.len(),
            all@ == NsFlag::spec_all(),
            strings(names@) == spec_flag_names().take(i as int),
        decreases all.len() - i,
    {
        let ghost before = strings(names@);
        names.push(String::from_str(all[i].name()));
        proof {
            assert(spec_flag_names()[i as int] == all@[i as int].spec_name());
            assert(strings(names@) =~= before.push(all@[i as int].spec_name()));
            assert(spec_flag_names().take(i + 1) =~= spec_flag_names().take(i as int).push(
                spec_flag_names()[i as int],
            ));
        }
        i = i + 1;
    }
    assert(spec_flag_names().take(i as int) =~= spec_flag_names());
    let mut out = "Flags:".bold().resolve();
    out.append("\n");
    out.append("* ");
    let ghost head = out@;
    let delim: &'static str = ",\n* ";
    let mut it = delim_iter(names, delim);
    proof {
        law_delim_iter_joins(spec_flag_names(), delim@);
    }
    let ghost total = concat(delim_pieces(delim@, spec_flag_names()));
    loop
        invariant
            it@.delim == delim@,
            out@ + concat(delim_pieces(it@.delim, it@.rest)) == head + total,
        ensures
            out@ == head + total,
        decreases it@.rest.len(),
    {
        let ghost before = it@;
        match it.next() {
            Some(piece) => {
                proof {
                    let ps = delim_pieces(before.delim, before.rest);
                    assert(ps.drop_first() =~= delim_pieces(before.delim, before.rest.drop_first()));
                    assert(ps[0] == piece@);
                }
                out.append(piece.as_str());
            },
            None => {
                proof {
                    assert(delim_pieces(before.delim, before.rest) =~= Seq::<Seq<char>>::empty());
                    assert(out@ + Seq::<char>::empty() =~= out@);
                }
                break ;
            },
        }
    }
    out.append("\n");
    assert(out@ =~= spec_flag_list());
    out
}

/// Namespace flags added together, as `unshare` takes them
#[derive(Copy, Clone, PartialEq, Eq, Debug, Structural)]
pub struct NsFlags(pub i32);

impl Default for NsFlags {
    fn default() -> (r: Self)
        ensures
            r.0 == 0,
    {
        NsFlags(0)
    }
}

/// The sum of the flags' bits
pub open spec fn flag_sum(flags: Seq<NsFlag>) -> int
    decreases flags.len(),
{
    if flags.len() == 0 {
        0
    } else {
        flag_sum(flags.drop_last()) + flags.last().spec_bits()
    }
}

/// Adding the flags one after the other never leaves the range of `i32`
pub open spec fn sums_fit(flags: Seq<NsFlag>) -> bool {
    forall|k: int| 0 <= k <= flags.len() ==> i32::MIN <= #[trigger] flag_sum(flags.take(k)) <= i32::MAX
}

impl NsFlags {
    /// The flags' value
    pub fn bits(&self) -> (r: i32)
        ensures
            r == self.0,
    {
        self.0
    }

    /// Adds a flag's bit
    pub fn push(&mut self, add: NsFlag)
        requires
            i32::MIN <= old(self).0 + add.spec_bits() <= i32::MAX,
        ensures
            final(self).0 == old(self).0 + add.spec_bits(),
    {
        self.0 = self.0 + add.bits();
    }

    /// Whether the flags can be added one after the other
    pub fn fits(flags: &[NsFlag]) -> (r: bool)
        ensures
            r == sums_fit(flags@),
    {
        let mut acc: i64 = 0;
        let mut i: usize = 0;
        assert(flags@.take(0) =~= Seq::<NsFlag>::empty());
        while i < flags.len()
            invariant
                0 <= i <= flags.len(),
                acc == flag_sum(flags@.take(i as int)),
                forall|k: int| 0 <= k <= i ==> i32::MIN <= #[trigger] flag_sum(flags@.take(k)) <= i32::MAX,
            decreases flags.len() - i,
        {
            assert(flags@.take(i + 1).drop_last() =~= flags@.take(i as int));
            acc = acc + flags[i].bits() as i64;
            if acc < -2147483648 || acc > 2147483647 {
                assert(!(i32::MIN <= flag_sum(flags@.take(i + 1)) <= i32::MAX));
                assert(!sums_fit(flags@));
                return false;
            }
            i = i + 1;
        }
        assert(flags@.take(i as int) =~= flags@);
        true
    }

    /// The flags added together
    pub fn of(flags: &[NsFlag]) -> (r: NsFlags)
        requires
            sums_fit(flags@),
        ensures
            r.0 == flag_sum(flags@),
    {
        let mut acc = NsFlags(0);
        let mut i: usize = 0;
        assert(flags@.take(0) =~= Seq::<NsFlag>::empty());
        while i < flags.len()
            invariant
                0 <= i <= flags.len(),
                sums_fit(flags@),
                acc.0 == flag_sum(flags@.take(i as int)),
            decreases flags.len() - i,
        {
            assert(flags@.take(i + 1).drop_last() =~= flags@.take(i as int));
            assert(i32::MIN <= flag_sum(flags@.take(i + 1)) <= i32::MAX);
            acc.push(flags[i]);
            i = i + 1;
        }
        assert(flags@.take(i as int) =~= flags@);
        acc
    }
}

/// The files and directories shared with a container by bind mounting
#[derive(Clone, Debug, Default)]
pub struct BindMounts {
    pub files: Vec<String>,
    pub dirs: Vec<String>,
}

// ---------------------------------------------------------------------------
// Arguments

/// What warden was asked to do
#[derive(Clone, Debug)]
pub enum Invocation {
    /// Print the usage and exit
    Usage,
    /// Print the flags and exit
    ListFlags,
    /// Run a program in a sandbox
    Run(WardenRun),
}

/// A program to run in a sandbox
#[derive(Clone, Debug)]
pub struct WardenRun {
    /// The container's root
    pub root: String,
    /// The program, then its arguments
    pub program: String,
    pub args: Vec<String>,
    pub bind: BindMounts,
    /// The namespace flags, in the order they were given
    pub flags: Vec<NsFlag>,
    /// Mount the system pseudo filesystems in the container
    pub mount_system_fs: bool,
    /// Share the dbus socket's directory with the container
    pub link_dbus: bool,
}

pub struct ParseState {
    pub files: Seq<Seq<char>>,
    pub dirs: Seq<Seq<char>>,
    pub flags: Seq<NsFlag>,
    pub sys: bool,
    pub dbus: bool,
}

pub struct WardenRunView {
    pub root: Seq<char>,
    pub program: Seq<char>,
    pub args: Seq<Seq<char>>,
    pub state: ParseState,
}

pub enum InvocationView {
    Usage,
    ListFlags,
    Run(WardenRunView),
}

impl View for Invocation {
    type V = InvocationView;

    open spec fn view(&self) -> InvocationView {
        match self {
            Invocation::Usage => InvocationView::Usage,
            Invocation::ListFlags => InvocationView::ListFlags,
            Invocation::Run(r) => InvocationView::Run(
                WardenRunView {
                    root: r.root@,
                    program: r.program@,
                    args: strings(r.args@),
                    state: ParseState {
                        files: strings(r.bind.files@),
                        dirs: strings(r.bind.dirs@),
                        flags: r.flags@,
                        sys: r.mount_system_fs,
                        dbus: r.link_dbus,
                    },
                },
            ),
        }
    }
}

pub open spec fn no_option() -> Seq<char> {
    "Expected an option for this argument!"@
}

pub open spec fn set_twice() -> Seq<char> {
    "Failed to set an argument's value!"@
}

/// How warden reads its arguments from `i` on: switches until the first
/// other argument, which is the container's root; the program and its
/// arguments follow the root. An error is the message warden exits with.
pub open spec fn spec_parse(args: Seq<Seq<char>>, i: int, st: ParseState) -> Result<InvocationView, Seq<char>>
    decreases args.len() - i,
{
    if i < 0 || i >= args.len() {
        Ok(InvocationView::Usage)
    } else {
        let a = args[i];
        if a == "-h"@ || a == "--help"@ || a == "help"@ {
            Ok(InvocationView::Usage)
        } else if a == "-l"@ || a == "--list"@ {
            Ok(InvocationView::ListFlags)
        } else if a == "-b"@ || a == "--bind-file"@ {
            if i + 1 >= args.len() {
                Err(no_option())
            } else {
                spec_parse(args, i + 2, ParseState { files: st.files.push(args[i + 1]), ..st })
            }
        } else if a == "-B"@ || a == "--bind-dir"@ {
            if i + 1 >= args.len() {
                Err(no_option())
            } else {
                spec_parse(args, i + 2, ParseState { dirs: st.dirs.push(args[i + 1]), ..st })
            }
        } else if a == "-S"@ || a == "--mount-system-fs"@ {
            if st.sys {
                Err(set_twice())
            } else {
                spec_parse(args, i + 1, ParseState { sys: true, ..st })
            }
        } else if a == "-d"@ || a == "--dbus"@ {
            if st.dbus {
                Err(set_twice())
            } else {
                spec_parse(args, i + 1, ParseState { dbus: true, ..st })
            }
        } else if a == "-f"@ || a == "--flag"@ {
            if i + 1 >= args.len() {
                Err(no_option())
            } else {
                match NsFlag::spec_new(args[i + 1]) {
                    Some(f) => spec_parse(args, i + 2, ParseState { flags: st.flags.push(f), ..st }),
                    None => Err("Invalid flag: "@ + args[i + 1]),
                }
            }
        } else if i + 1 >= args.len() {
            Err("Provide an executable!"@)
        } else {
            Ok(InvocationView::Run(WardenRunView { root: a, program: args[i + 1], args: args.skip(i + 2), state: st }))
        }
    }
}

pub open spec fn fresh_state() -> ParseState {
    ParseState { files: Seq::empty(), dirs: Seq::empty(), flags: Seq::empty(), sys: false, dbus: false }
}

pub open spec fn invocation_view(r: Result<Invocation, String>) -> Result<InvocationView, Seq<char>> {
    match r {
        Ok(v) => Ok(v@),
        Err(m) => Err(m@),
    }
}

/// Reads warden's arguments (the program's own name left out)
///
/// # Errors
///
/// The message warden exits with: a switch lacks its option, a switch is
/// given twice, a flag has no such name, or there is no program to run
pub fn parse_args(args: &Vec<String>) -> (r: Result<Invocation, String>)
    ensures
        invocation_view(r) == spec_parse(strings(args@), 0, fresh_state()),
{
    let ghost sa = strings(args@);
    let n = args.len();
    let mut files: Vec<String> = Vec::new();
    let mut dirs: Vec<String> = Vec::new();
    let mut flags: Vec<NsFlag> = Vec::new();
    let mut sys = false;
    let mut dbus = false;
    let mut i: usize = 0;
    assert(strings(files@) =~= Seq::<Seq<char>>::empty());
    assert(strings(dirs@) =~= Seq::<Seq<char>>::empty());
    assert(flags@ =~= Seq::<NsFlag>::empty());
    while i < n
        invariant
            n == args@.len(),
            sa == strings(args@),
            0 <= i <= n,
            spec_parse(sa, i as int, ParseState {
                files: strings(files@),
                dirs: strings(dirs@),
                flags: flags@,
                sys,
                dbus,
            }) == spec_parse(sa, 0, fresh_state()),
        decreases n - i,
    {
        let a = args[i].as_str();
        assert(sa[i as int] == a@);
        if str_eq(a, "-h") || str_eq(a, "--help") || str_eq(a, "help") {
            return Ok(Invocation::Usage);
        } else if str_eq(a, "-l") || str_eq(a, "--list") {
            return Ok(Invocation::ListFlags);
        } else if str_eq(a, "-b") || str_eq(a, "--bind-file") {
            if i + 1 >= n {
                return Err(String::from_str("Expected an option for this argument!"));
            }
            let ghost before = strings(files@);
            files.push(args[i + 1].clone());
            proof {
                assert(strings(files@) =~= before.push(sa[i + 1]));
            }
            i = i + 2;
        } else if str_eq(a, "-B") || str_eq(a, "--bind-dir") {
            if i + 1 >= n {
                return Err(String::from_str("Expected an option for this argument!"));
            }
            let ghost before = strings(dirs@);
            dirs.push(args[i + 1].clone());
            proof {
                assert(strings(dirs@) =~= before.push(sa[i + 1]));
            }
            i = i + 2;
        } else if str_eq(a, "-S") || str_eq(a, "--mount-system-fs") {
            if sys {
                return Err(String::from_str("Failed to set an argument's value!"));
            }
            sys = true;
            i = i + 1;
        } else if str_eq(a, "-d") || str_eq(a, "--dbus") {
            if dbus {
                return Err(String::from_str("Failed to set an argument's value!"));
            }
            dbus = true;
            i = i + 1;
        } else if str_eq(a, "-f") || str_eq(a, "--flag") {
            if i + 1 >= n {
                return Err(String::from_str("Expected an option for this argument!"));
            }
            let next = args[i + 1].as_str();
            match NsFlag::new(next) {
                Some(f) => {
                    flags.push(f);
                },
                None => {
                    let mut m = String::from_str("Invalid flag: ");
                    m.append(next);
                    return Err(m);
                },
            }
            i = i + 2;
        } else {
            if i + 1 >= n {
                return Err(String::from_str("Provide an executable!"));
            }
            let root = args[i].clone();
            let program = args[i + 1].clone();
            let mut rest: Vec<String> = Vec::new();
            let mut k: usize = i + 2;
            while k < n
                invariant
                    n == args@.len(),
                    i + 2 <= k <= n,
                    strings(rest@) == strings(args@).subrange(i + 2, k as int),
                decreases n - k,
            {
                let ghost before = strings(rest@);
                rest.push(args[k].clone());
                proof {
                    assert(strings(rest@) =~= before.push(args@[k as int]@));
                    assert(strings(args@).subrange(i + 2, k + 1) =~= strings(args@).subrange(
                        i + 2,
                        k as int,
                    ).push(args@[k as int]@));
                }
                k = k + 1;
            }
            assert(strings(args@).subrange(i + 2, n as int) =~= sa.skip(i + 2));
            let run = WardenRun {
                root,
                program,
                args: rest,
                bind: BindMounts { files, dirs },
                flags,
                mount_system_fs: sys,
                link_dbus: dbus,
            };
            return Ok(Invocation::Run(run));
        }
    }
    Ok(Invocation::Usage)
}

// ---------------------------------------------------------------------------
// The sandbox

/// Mount flags of the kernel (`MS_*`)
pub const MS_RDONLY: u64 = 1;
pub const MS_NOSUID: u64 = 2;
pub const MS_NODEV: u64 = 4;
pub const MS_NOEXEC: u64 = 8;
pub const MS_BIND: u64 = 4096;
pub const MS_REC: u64 = 16384;
pub const MS_SILENT: u64 = 32768;
pub const MS_PRIVATE: u64 = 262144;

/// How shared files are mounted in a container: read-only private binds
pub const BIND_FLAGS: u64 = MS_BIND | MS_PRIVATE | MS_RDONLY | MS_SILENT | MS_REC;

/// How the system pseudo filesystems are bound in a container
pub const SYS_FLAGS: u64 = MS_BIND | MS_PRIVATE | MS_NOSUID | MS_NOEXEC | MS_SILENT;

/// How the temporary filesystems of a container are mounted
pub const TMP_FLAGS: u64 = MS_NOSUID | MS_NODEV;

/// The architectures whose dynamic linker warden knows
#[derive(Copy, Clone, PartialEq, Eq, Debug, Structural)]
pub enum Arch {
    X86_64,
    Aarch64,
}

/// A mount call: source, mountpoint, filesystem type and flags
#[derive(Clone, Debug)]
pub struct MountCall {
    pub source: String,
    pub target: String,
    pub fs_type: Option<String>,
    pub flags: u64,
}

pub struct MountCallView {
    pub source: Seq<char>,
    pub target: Seq<char>,
    pub fs_type: Option<Seq<char>>,
    pub flags: u64,
}

impl View for MountCall {
    type V = MountCallView;

    open spec fn view(&self) -> MountCallView {
        MountCallView { source: self.source@, target: self.target@, fs_type: opt_string(self.fs_type), flags: self.flags }
    }
}

/// One step of spawning a program in a sandbox; each one that fails stops
/// the spawn with its error
#[derive(Clone, Debug)]
pub enum SandboxStep {
    /// Unshare the namespaces of these flags
    Unshare(i32),
    /// Create a new, empty file
    CreateFile(String),
    /// Create a directory and its parents
    CreateDirAll(String),
    /// Create a directory
    CreateDir(String),
    Mount(MountCall),
    /// Change the root directory
    Chroot(String),
    /// Spawn the program, in the directory `/`
    Spawn,
}

pub enum SandboxStepView {
    Unshare(i32),
    CreateFile(Seq<char>),
    CreateDirAll(Seq<char>),
    CreateDir(Seq<char>),
    Mount(MountCallView),
    Chroot(Seq<char>),
    Spawn,
}

impl View for SandboxStep {
    type V = SandboxStepView;

    open spec fn view(&self) -> SandboxStepView {
        match self {
            SandboxStep::Unshare(b) => SandboxStepView::Unshare(*b),
            SandboxStep::CreateFile(p) => SandboxStepView::CreateFile(p@),
            SandboxStep::CreateDirAll(p) => SandboxStepView::CreateDirAll(p@),
            SandboxStep::CreateDir(p) => SandboxStepView::CreateDir(p@),
            SandboxStep::Mount(m) => SandboxStepView::Mount(m@),
            SandboxStep::Chroot(p) => SandboxStepView::Chroot(p@),
            SandboxStep::Spawn => SandboxStepView::Spawn,
        }
    }
}

pub open spec fn steps_view(v: Seq<SandboxStep>) -> Seq<SandboxStepView> {
    v.map_values(|s: SandboxStep| s@)
}

/// The parent of a path, as `std::path::Path::parent` gives it
pub uninterp spec fn path_parent(p: Seq<char>) -> Option<Seq<char>>;

/// `std::path::Path::parent`, displayed: the path without its final
/// component, or `None` when the path ends in a root or is empty
#[verifier::external_body]
fn parent_of(p: &str) -> (r: Option<String>)
    ensures
        opt_string(r) == path_parent(p@),
{
    match std::path::Path::new(p).parent() {
        Some(q) => Some(q.display().to_string()),
        None => None,
    }
}

/// A container's root, then a path inside it, as text
pub open spec fn inside(root: Seq<char>, p: Seq<char>) -> Seq<char> {
    root + "/"@ + p
}

fn inside_exec(root: &str, p: &str) -> (r: String)
    ensures
        r@ == inside(root@, p@),
{
    let mut s = String::from_str(root);
    s.append("/");
    s.append(p);
    s
}

/// The steps that prepare the bound files: each file's parent directory in
/// the container when it has one, then the file itself
pub open spec fn file_steps(root: Seq<char>, files: Seq<Seq<char>>) -> Seq<SandboxStepView>
    decreases files.len(),
{
    if files.len() == 0 {
        Seq::empty()
    } else {
        file_steps(root, files.drop_last()) + match path_parent(files.last()) {
            Some(p) => seq![SandboxStepView::CreateDirAll(inside(root, p))],
            None => Seq::empty(),
        } + seq![SandboxStepView::CreateFile(inside(root, files.last()))]
    }
}

pub open spec fn dir_steps(root: Seq<char>, dirs: Seq<Seq<char>>) -> Seq<SandboxStepView> {
    dirs.map_values(|d: Seq<char>| SandboxStepView::CreateDirAll(inside(root, d)))
}

pub open spec fn bind_call(root: Seq<char>, file: Seq<char>) -> MountCallView {
    MountCallView { source: "/"@ + file, target: inside(root, file), fs_type: None, flags: BIND_FLAGS }
}

pub open spec fn bind_steps(root: Seq<char>, binds: Seq<Seq<char>>) -> Seq<SandboxStepView> {
    binds.map_values(|b: Seq<char>| SandboxStepView::Mount(bind_call(root, b)))
}

/// The mounts of the system pseudo filesystems, then the dbus socket's
/// directory when it is shared and exists
pub open spec fn system_steps(root: Seq<char>, sys: bool, dbus: bool, dbus_dir: bool) -> Seq<SandboxStepView> {
    if !sys {
        Seq::empty()
    } else {
        seq![
            SandboxStepView::Mount(MountCallView { source: "/sys"@, target: inside(root, "sys"@), fs_type: None, flags: SYS_FLAGS | MS_NODEV }),
            SandboxStepView::Mount(MountCallView { source: "/proc"@, target: inside(root, "proc"@), fs_type: None, flags: SYS_FLAGS | MS_NODEV }),
            SandboxStepView::Mount(MountCallView { source: "/dev"@, target: inside(root, "dev"@), fs_type: None, flags: SYS_FLAGS }),
            SandboxStepView::Mount(MountCallView { source: "tmpfs"@, target: inside(root, "tmp"@), fs_type: Some("tmpfs"@), flags: TMP_FLAGS }),
            SandboxStepView::Mount(MountCallView { source: "tmpfs"@, target: inside(root, "run"@), fs_type: Some("tmpfs"@), flags: TMP_FLAGS }),
        ] + if dbus && dbus_dir {
            seq![
                SandboxStepView::CreateDir(inside(root, "run/dbus"@)),
                SandboxStepView::Mount(MountCallView { source: "/run/dbus"@, target: inside(root, "run/dbus"@), fs_type: None, flags: MS_BIND }),
            ]
        } else {
            Seq::empty()
        }
    }
}

/// A program's sandbox: the container's root, what is shared with it, and
/// the namespaces it does not share
#[derive(Clone, Debug)]
pub struct Sandbox {
    root: String,
    bind: BindMounts,
    flags: NsFlags,
    mount_system_fs: bool,
    link_dbus: bool,
}

pub struct SandboxView {
    pub root: Seq<char>,
    pub files: Seq<Seq<char>>,
    pub dirs: Seq<Seq<char>>,
    pub flags: i32,
    pub sys: bool,
    pub dbus: bool,
}

impl View for Sandbox {
    type V = SandboxView;

    closed spec fn view(&self) -> SandboxView {
        SandboxView {
            root: self.root@,
            files: strings(self.bind.files@),
            dirs: strings(self.bind.dirs@),
            flags: self.flags.0,
            sys: self.mount_system_fs,
            dbus: self.link_dbus,
        }
    }
}

pub open spec fn spec_dynamic_ld(arch: Arch) -> Seq<char> {
    match arch {
        Arch::X86_64 => "usr/lib/ld-linux-x86-64.so.2"@,
        Arch::Aarch64 => "usr/lib/ld-linux-aarch64.so.1"@,
    }
}

/// The steps that spawn a sandboxed program, in order
pub open spec fn spec_spawn_steps(s: SandboxView, arch: Arch, dbus_dir: bool) -> Seq<SandboxStepView> {
    let ld = spec_dynamic_ld(arch);
    seq![SandboxStepView::Unshare(s.flags), SandboxStepView::CreateFile(spec_join_path(s.root, ld))]
        + file_steps(s.root, s.files) + dir_steps(s.root, s.dirs) + bind_steps(
        s.root,
        seq![ld] + s.files + s.dirs,
    ) + system_steps(s.root, s.sys, s.dbus, dbus_dir) + seq![
        SandboxStepView::Chroot(s.root),
        SandboxStepView::Spawn,
    ]
}

/// What is unmounted once the program has exited, in order
pub open spec fn spec_cleanup(s: SandboxView, arch: Arch) -> Seq<Seq<char>> {
    (if s.dbus {
        seq!["/run/dbus"@]
    } else {
        Seq::empty()
    }) + (if s.sys {
        seq!["/run"@, "/tmp"@, "/sys"@, "/proc"@, "/dev"@]
    } else {
        Seq::empty()
    }) + s.files + s.dirs + seq![inside(s.root, spec_dynamic_ld(arch))]
}

fn push_mount(steps: &mut Vec<SandboxStep>, source: &str, target: String, fs_type: Option<&str>, flags: u64)
    ensures
        steps_view(final(steps)@) == steps_view(old(steps)@).push(
            SandboxStepView::Mount(
                MountCallView {
                    source: source@,
                    target: target@,
                    fs_type: match fs_type {
                        Some(t) => Some(t@),
                        None => None,
                    },
                    flags,
                },
            ),
        ),
{
    let t = match fs_type {
        Some(t) => Some(String::from_str(t)),
        None => None,
    };
    let ghost before = steps_view(steps@);
    steps.push(SandboxStep::Mount(MountCall { source: String::from_str(source), target, fs_type: t, flags }));
    assert(steps_view(steps@) =~= before.push(steps@.last()@));
}

impl Sandbox {
    /// A sandbox for a program: its root, what is bound into it, its
    /// namespace flags, and whether the system filesystems and the dbus
    /// socket are shared
    pub fn new(root: String, bind: BindMounts, flags: NsFlags, mount_system_fs: bool, link_dbus: bool) -> (r: Sandbox)
        ensures
            r@ == (SandboxView {
                root: root@,
                files: strings(bind.files@),
                dirs: strings(bind.dirs@),
                flags: flags.0,
                sys: mount_system_fs,
                dbus: link_dbus,
            }),
    {
        Sandbox { root, bind, flags, mount_system_fs, link_dbus }
    }

    /// The dynamic linker, inside a container
    pub fn dynamic_ld(arch: Arch) -> (r: &'static str)
        ensures
            r@ == spec_dynamic_ld(arch),
    {
        match arch {
            Arch::X86_64 => "usr/lib/ld-linux-x86-64.so.2",
            Arch::Aarch64 => "usr/lib/ld-linux-aarch64.so.1",
        }
    }

    /// The read-only binds of files from the system into the container
    pub fn bind_files(root: &str, files: &Vec<String>) -> (r: Vec<MountCall>)
        ensures
            r@.map_values(|m: MountCall| m@) == strings(files@).map_values(|f: Seq<char>| bind_call(root@, f)),
    {
        let mut out: Vec<MountCall> = Vec::new();
        let mut i: usize = 0;
        while i < files.len()
            invariant
                0 <= i <= files.len(),
                out@.map_values(|m: MountCall| m@) == strings(files@).take(i as int).map_values(
                    |f: Seq<char>| bind_call(root@, f),
                ),
            decreases files.len() - i,
        {
            let mut src = String::from_str("/");
            src.append(files[i].as_str());
            let dest = inside_exec(root, files[i].as_str());
            let ghost before = out@.map_values(|m: MountCall| m@);
            out.push(MountCall { source: src, target: dest, fs_type: None, flags: BIND_FLAGS });
            proof {
                let g = |f: Seq<char>| bind_call(root@, f);
                assert(out@.map_values(|m: MountCall| m@) =~= before.push(bind_call(root@, files@[i as int]@)));
                assert(strings(files@).take(i + 1) =~= strings(files@).take(i as int).push(files@[i as int]@));
                assert(strings(files@).take(i + 1).map_values(g) =~= strings(files@).take(i as int).map_values(g).push(
                    bind_call(root@, files@[i as int]@),
                ));
            }
            i = i + 1;
        }
        assert(strings(files@).take(i as int) =~= strings(files@));
        out
    }

    /// The steps that spawn the program in this sandbox, on this thread:
    /// unshare, make the dynamic linker and the bound files and directories in
    /// the container, bind them, mount the system filesystems when asked, then
    /// change root and spawn. Whether `/run/dbus` is a directory is given.
    pub fn spawn_here(&self, arch: Arch, dbus_dir: bool) -> (r: Vec<SandboxStep>)
        ensures
            steps_view(r@) == spec_spawn_steps(self@, arch, dbus_dir),
    {
        let root = self.root.as_str();
        let ld = Sandbox::dynamic_ld(arch);
        let mut steps: Vec<SandboxStep> = Vec::new();
        steps.push(SandboxStep::Unshare(self.flags.0));
        steps.push(SandboxStep::CreateFile(join_path(root, ld)));
        let ghost head = steps_view(steps@);
        assert(head =~= seq![SandboxStepView::Unshare(self@.flags), SandboxStepView::CreateFile(spec_join_path(self@.root, ld@))]);
        let ghost files = strings(self.bind.files@);
        let mut i: usize = 0;
        assert(files.take(0) =~= Seq::<Seq<char>>::empty());
        assert(head + file_steps(self@.root, files.take(0)) =~= head);
        while i < self.bind.files.len()
            invariant
                0 <= i <= self.bind.files.len(),
                files == strings(self.bind.files@),
                root@ == self@.root,
                steps_view(steps@) == head + file_steps(self@.root, files.take(i as int)),
            decreases self.bind.files.len() - i,
        {
            let ghost before = steps_view(steps@);
            let f = self.bind.files[i].as_str();
            assert(files.take(i + 1).drop_last() =~= files.take(i as int));
            assert(files.take(i + 1).last() == f@);
            let parent = parent_of(f);
            match parent {
                Some(p) => {
                    steps.push(SandboxStep::CreateDirAll(inside_exec(root, p.as_str())));
                },
                None => {},
            }
            steps.push(SandboxStep::CreateFile(inside_exec(root, f)));
            proof {
                let mid: Seq<SandboxStepView> = match path_parent(f@) {
                    Some(p) => seq![SandboxStepView::CreateDirAll(inside(root@, p))],
                    None => Seq::empty(),
                };
                assert(steps_view(steps@) =~= before + mid + seq![SandboxStepView::CreateFile(inside(root@, f@))]);
            }
            i = i + 1;
        }
        assert(files.take(i as int) =~= files);
        let ghost after_files = steps_view(steps@);
        let ghost dirs = strings(self.bind.dirs@);
        let mut j: usize = 0;
        while j < self.bind.dirs.len()
            invariant
                0 <= j <= self.bind.dirs.len(),
                dirs == strings(self.bind.dirs@),
                root@ == self@.root,
                steps_view(steps@) == after_files + dir_steps(self@.root, dirs.take(j as int)),
            decreases self.bind.dirs.len() - j,
        {
            let ghost before = steps_view(steps@);
            steps.push(SandboxStep::CreateDirAll(inside_exec(root, self.bind.dirs[j].as_str())));
            proof {
                assert(steps_view(steps@) =~= before.push(SandboxStepView::CreateDirAll(inside(root@, dirs[j as int]))));
                assert(dir_steps(self@.root, dirs.take(j + 1)) =~= dir_steps(self@.root, dirs.take(j as int)).push(
                    SandboxStepView::CreateDirAll(inside(root@, dirs[j as int])),
                ));
            }
            j = j + 1;
        }
        assert(dirs.take(j as int) =~= dirs);
        let mut binds: Vec<String> = Vec::new();
        binds.push(String::from_str(ld));
        let mut k: usize = 0;
        while k < self.bind.files.len()
            invariant
                0 <= k <= self.bind.files.len(),
                files == strings(self.bind.files@),
                strings(binds@) == seq![ld@] + files.take(k as int),
            decreases self.bind.files.len() - k,
        {
            let ghost before = strings(binds@);
            binds.push(self.bind.files[k].clone());
            proof {
                assert(strings(binds@) =~= before.push(files[k as int]));
                assert(files.take(k + 1) =~= files.take(k as int).push(files[k as int]));
                assert(seq![ld@] + files.take(k + 1) =~= (seq![ld@] + files.take(k as int)).push(files[k as int]));
            }
            k = k + 1;
        }
        assert(files.take(k as int) =~= files);
        let mut m: usize = 0;
        while m < self.bind.dirs.len()
            invariant
                0 <= m <= self.bind.dirs.len(),
                dirs == strings(self.bind.dirs@),
                strings(binds@) == seq![ld@] + files + dirs.take(m as int),
            decreases self.bind.dirs.len() - m,
        {
            let ghost before = strings(binds@);
            binds.push(self.bind.dirs[m].clone());
            proof {
                assert(strings(binds@) =~= before.push(dirs[m as int]));
                assert(dirs.take(m + 1) =~= dirs.take(m as int).push(dirs[m as int]));
                assert(seq![ld@] + files + dirs.take(m + 1) =~= (seq![ld@] + files + dirs.take(m as int)).push(dirs[m as int]));
            }
            m = m + 1;
        }
        assert(dirs.take(m as int) =~= dirs);
        let calls = Sandbox::bind_files(root, &binds);
        let ghost after_dirs = steps_view(steps@);
        assert(calls@.len() == binds@.len()) by {
            assert(calls@.map_values(|x: MountCall| x@).len() == calls@.len());
        }
        assert(strings(binds@).take(0) =~= Seq::<Seq<char>>::empty());
        assert(bind_steps(self@.root, Seq::<Seq<char>>::empty()) =~= Seq::<SandboxStepView>::empty());
        assert(after_dirs + Seq::<SandboxStepView>::empty() =~= after_dirs);
        let mut c: usize = 0;
        while c < calls.len()
            invariant
                0 <= c <= calls.len(),
                calls@.len() == binds@.len(),
                calls@.map_values(|x: MountCall| x@) == strings(binds@).map_values(|f: Seq<char>| bind_call(root@, f)),
                root@ == self@.root,
                steps_view(steps@) == after_dirs + bind_steps(self@.root, strings(binds@).take(c as int)),
            decreases calls.len() - c,
        {
            let ghost before = steps_view(steps@);
            assert(calls@.map_values(|x: MountCall| x@)[c as int] == calls@[c as int]@);
            assert(calls@[c as int]@ == bind_call(root@, strings(binds@)[c as int]));
            let call = MountCall {
                source: calls[c].source.clone(),
                target: calls[c].target.clone(),
                fs_type: None,
                flags: calls[c].flags,
            };
            assert(call@ == calls@[c as int]@);
            steps.push(SandboxStep::Mount(call));
            proof {
                assert(steps_view(steps@) =~= before.push(SandboxStepView::Mount(calls@[c as int]@)));
                assert(strings(binds@).take(c + 1) =~= strings(binds@).take(c as int).push(strings(binds@)[c as int]));
                assert(bind_steps(self@.root, strings(binds@).take(c + 1)) =~= bind_steps(self@.root, strings(binds@).take(c as int)).push(
                    SandboxStepView::Mount(bind_call(root@, strings(binds@)[c as int])),
                ));
            }
            c = c + 1;
        }
        assert(strings(binds@).take(c as int) =~= strings(binds@));
        let ghost after_binds = steps_view(steps@);
        if self.mount_system_fs {
            push_mount(&mut steps, "/sys", inside_exec(root, "sys"), None, SYS_FLAGS | MS_NODEV);
            push_mount(&mut steps, "/proc", inside_exec(root, "proc"), None, SYS_FLAGS | MS_NODEV);
            push_mount(&mut steps, "/dev", inside_exec(root, "dev"), None, SYS_FLAGS);
            push_mount(&mut steps, "tmpfs", inside_exec(root, "tmp"), Some("tmpfs"), TMP_FLAGS);
            push_mount(&mut steps, "tmpfs", inside_exec(root, "run"), Some("tmpfs"), TMP_FLAGS);
            if self.link_dbus && dbus_dir {
                let ghost b = steps_view(steps@);
                steps.push(SandboxStep::CreateDir(inside_exec(root, "run/dbus")));
                assert(steps_view(steps@) =~= b.push(SandboxStepView::CreateDir(inside(root@, "run/dbus"@))));
                push_mount(&mut steps, "/run/dbus", inside_exec(root, "run/dbus"), None, MS_BIND);
            }
        }
        assert(steps_view(steps@) =~= after_binds + system_steps(self@.root, self@.sys, self@.dbus, dbus_dir));
        let ghost b2 = steps_view(steps@);
        steps.push(SandboxStep::Chroot(self.root.clone()));
        steps.push(SandboxStep::Spawn);
        assert(steps_view(steps@) =~= b2 + seq![SandboxStepView::Chroot(self@.root), SandboxStepView::Spawn]);
        assert(steps_view(steps@) =~= spec_spawn_steps(self@, arch, dbus_dir));
        steps
    }

    /// What is unmounted once the program has exited: the dbus directory and
    /// the system filesystems when they were shared, the bound files and
    /// directories, then the dynamic linker
    pub fn cleanup(&self, arch: Arch) -> (r: Vec<String>)
        ensures
            strings(r@) == spec_cleanup(self@, arch),
    {
        let mut out: Vec<String> = Vec::new();
        if self.link_dbus {
            out.push(String::from_str("/run/dbus"));
        }
        if self.mount_system_fs {
            out.push(String::from_str("/run"));
            out.push(String::from_str("/tmp"));
            out.push(String::from_str("/sys"));
            out.push(String::from_str("/proc"));
            out.push(String::from_str("/dev"));
        }
        let ghost head = strings(out@);
        assert(head =~= (if self@.dbus {
            seq!["/run/dbus"@]
        } else {
            Seq::empty()
        }) + (if self@.sys {
            seq!["/run"@, "/tmp"@, "/sys"@, "/proc"@, "/dev"@]
        } else {
            Seq::empty()
        }));
        let mut i: usize = 0;
        while i < self.bind.files.len()
            invariant
                0 <= i <= self.bind.files.len(),
                strings(out@) == head + strings(self.bind.files@).take(i as int),
            decreases self.bind.files.len() - i,
        {
            let ghost before = strings(out@);
            out.push(self.bind.files[i].clone());
            proof {
                assert(strings(out@) =~= before.push(self.bind.files@[i as int]@));
                assert(strings(self.bind.files@).take(i + 1) =~= strings(self.bind.files@).take(i as int).push(self.bind.files@[i as int]@));
                assert(head + strings(self.bind.files@).take(i + 1) =~= (head + strings(self.bind.files@).take(i as int)).push(self.bind.files@[i as int]@));
            }
            i = i + 1;
        }
        assert(strings(self.bind.files@).take(i as int) =~= strings(self.bind.files@));
        let mut j: usize = 0;
        while j < self.bind.dirs.len()
            invariant
                0 <= j <= self.bind.dirs.len(),
                strings(out@) == head + strings(self.bind.files@) + strings(self.bind.dirs@).take(j as int),
            decreases self.bind.dirs.len() - j,
        {
            let ghost before = strings(out@);
            out.push(self.bind.dirs[j].clone());
            proof {
                assert(strings(out@) =~= before.push(self.bind.dirs@[j as int]@));
                assert(strings(self.bind.dirs@).take(j + 1) =~= strings(self.bind.dirs@).take(j as int).push(self.bind.dirs@[j as int]@));
                assert(head + strings(self.bind.files@) + strings(self.bind.dirs@).take(j + 1) =~= (head + strings(self.bind.files@) + strings(self.bind.dirs@).take(j as int)).push(self.bind.dirs@[j as int]@));
            }
            j = j + 1;
        }
        assert(strings(self.bind.dirs@).take(j as int) =~= strings(self.bind.dirs@));
        out.push(inside_exec(self.root.as_str(), Sandbox::dynamic_ld(arch)));
        assert(strings(out@) =~= spec_cleanup(self@, arch));
        out
    }
}

/// Each flag is read back from its own name.
pub proof fn law_ns_flag_name_roundtrip(f: NsFlag)
    ensures
        NsFlag::spec_new(f.spec_name()) == Some(f),
{
    reveal_strlit("ShareVm");
    reveal_strlit("ShareVSem");
    reveal_strlit("ShareFs");
    reveal_strlit("ShareFiles");
    reveal_strlit("ShareSignalHandler");
    reveal_strlit("ShareUntraced");
    reveal_strlit("SharePTrace");
    reveal_strlit("ShareVFork");
    reveal_strlit("ShareParent");
    reveal_strlit("ShareThread");
    reveal_strlit("ShareIo");
    reveal_strlit("NewMount");
    reveal_strlit("NewCGroup");
    reveal_strlit("NewUts");
    reveal_strlit("NewIpc");
    reveal_strlit("NewUser");
    reveal_strlit("NewPid");
    reveal_strlit("NewNetwork");
    match f {
        NsFlag::ShareVm => {
        },
        NsFlag::ShareVSem => {
            assert("ShareVSem"@.len() != "ShareVm"@.len());
        },
        NsFlag::ShareFs => {
            assert("ShareFs"@[5] != "ShareVm"@[5]);
            assert("ShareFs"@.len() != "ShareVSem"@.len());
        },
        NsFlag::ShareFiles => {
            assert("ShareFiles"@.len() != "ShareVm"@.len());
            assert("ShareFiles"@.len() != "ShareVSem"@.len());
            assert("ShareFiles"@.len() != "ShareFs"@.len());
        },
        NsFlag::ShareSignalHandler => {
            assert("ShareSignalHandler"@.len() != "ShareVm"@.len());
            assert("ShareSignalHandler"@.len() != "ShareVSem"@.len());
            assert("ShareSignalHandler"@.len() != "ShareFs"@.len());
            assert("ShareSignalHandler"@.len() != "ShareFiles"@.len());
        },
        NsFlag::ShareUntraced => {
            assert("ShareUntraced"@.len() != "ShareVm"@.len());
            assert("ShareUntraced"@.len() != "ShareVSem"@.len());
            assert("ShareUntraced"@.len() != "ShareFs"@.len());
            assert("ShareUntraced"@.len() != "ShareFiles"@.len());
            assert("ShareUntraced"@.len() != "ShareSignalHandler"@.len());
        },
        NsFlag::SharePTrace => {
            assert("SharePTrace"@.len() != "ShareVm"@.len());
            assert("SharePTrace"@.len() != "ShareVSem"@.len());
            assert("SharePTrace"@.len() != "ShareFs"@.len());
            assert("SharePTrace"@.len() != "ShareFiles"@.len());
            assert("SharePTrace"@.len() != "ShareSignalHandler"@.len());
            assert("SharePTrace"@.len() != "ShareUntraced"@.len());
        },
        NsFlag::ShareVFork => {
            assert("ShareVFork"@.len() != "ShareVm"@.len());
            assert("ShareVFork"@.len() != "ShareVSem"@.len());
            assert("ShareVFork"@.len() != "ShareFs"@.len());
            assert("ShareVFork"@[5] != "ShareFiles"@[5]);
            assert("ShareVFork"@.len() != "ShareSignalHandler"@.len());
            assert("ShareVFork"@.len() != "ShareUntraced"@.len());
            assert("ShareVFork"@.len() != "SharePTrace"@.len());
        },
        NsFlag::ShareParent => {
            assert("ShareParent"@.len() != "ShareVm"@.len());
            assert("ShareParent"@.len() != "ShareVSem"@.len());
            assert("ShareParent"@.len() != "ShareFs"@.len());
            assert("ShareParent"@.len() != "ShareFiles"@.len());
            assert("ShareParent"@.len() != "ShareSignalHandler"@.len());
            assert("ShareParent"@.len() != "ShareUntraced"@.len());
            assert("ShareParent"@[6] != "SharePTrace"@[6]);
            assert("ShareParent"@.len() != "ShareVFork"@.len());
        },
        NsFlag::ShareThread => {
            assert("ShareThread"@.len() != "ShareVm"@.len());
            assert("ShareThread"@.len() != "ShareVSem"@.len());
            assert("ShareThread"@.len() != "ShareFs"@.len());
            assert("ShareThread"@.len() != "ShareFiles"@.len());
            assert("ShareThread"@.len() != "ShareSignalHandler"@.len());
            assert("ShareThread"@.len() != "ShareUntraced"@.len());
            assert("ShareThread"@[5] != "SharePTrace"@[5]);
            assert("ShareThread"@.len() != "ShareVFork"@.len());
            assert("ShareThread"@[5] != "ShareParent"@[5]);
        },
        NsFlag::ShareIo => {
            assert("ShareIo"@[5] != "ShareVm"@[5]);
            assert("ShareIo"@.len() != "ShareVSem"@.len());
            assert("ShareIo"@[5] != "ShareFs"@[5]);
            assert("ShareIo"@.len() != "ShareFiles"@.len());
            assert("ShareIo"@.len() != "ShareSignalHandler"@.len());
            assert("ShareIo"@.len() != "ShareUntraced"@.len());
            assert("ShareIo"@.len() != "SharePTrace"@.len());
            assert("ShareIo"@.len() != "ShareVFork"@.len());
            assert("ShareIo"@.len() != "ShareParent"@.len());
            assert("ShareIo"@.len() != "ShareThread"@.len());
        },
        NsFlag::NewMount => {
            assert("NewMount"@.len() != "ShareVm"@.len());
            assert("NewMount"@.len() != "ShareVSem"@.len());
            assert("NewMount"@.len() != "ShareFs"@.len());
            assert("NewMount"@.len() != "ShareFiles"@.len());
            assert("NewMount"@.len() != "ShareSignalHandler"@.len());
            assert("NewMount"@.len() != "ShareUntraced"@.len());
            assert("NewMount"@.len() != "SharePTrace"@.len());
            assert("NewMount"@.len() != "ShareVFork"@.len());
            assert("NewMount"@.len() != "ShareParent"@.len());
            assert("NewMount"@.len() != "ShareThread"@.len());
            assert("NewMount"@.len() != "ShareIo"@.len());
        },
        NsFlag::NewCGroup => {
            assert("NewCGroup"@.len() != "ShareVm"@.len());
            assert("NewCGroup"@[0] != "ShareVSem"@[0]);
            assert("NewCGroup"@.len() != "ShareFs"@.len());
            assert("NewCGroup"@.len() != "ShareFiles"@.len());
            assert("NewCGroup"@.len() != "ShareSignalHandler"@.len());
            assert("NewCGroup"@.len() != "ShareUntraced"@.len());
            assert("NewCGroup"@.len() != "SharePTrace"@.len());
            assert("NewCGroup"@.len() != "ShareVFork"@.len());
            assert("NewCGroup"@.len() != "ShareParent"@.len());
            assert("NewCGroup"@.len() != "ShareThread"@.len());
            assert("NewCGroup"@.len() != "ShareIo"@.len());
            assert("NewCGroup"@.len() != "NewMount"@.len());
        },
        NsFlag::NewUts => {
            assert("NewUts"@.len() != "ShareVm"@.len());
            assert("NewUts"@.len() != "ShareVSem"@.len());
            assert("NewUts"@.len() != "ShareFs"@.len());
            assert("NewUts"@.len() != "ShareFiles"@.len());
            assert("NewUts"@.len() != "ShareSignalHandler"@.len());
            assert("NewUts"@.len() != "ShareUntraced"@.len());
            assert("NewUts"@.len() != "SharePTrace"@.len());
            assert("NewUts"@.len() != "ShareVFork"@.len());
            assert("NewUts"@.len() != "ShareParent"@.len());
            assert("NewUts"@.len() != "ShareThread"@.len());
            assert("NewUts"@.len() != "ShareIo"@.len());
            assert("NewUts"@.len() != "NewMount"@.len());
            assert("NewUts"@.len() != "NewCGroup"@.len());
        },
        NsFlag::NewIpc => {
            assert("NewIpc"@.len() != "ShareVm"@.len());
            assert("NewIpc"@.len() != "ShareVSem"@.len());
            assert("NewIpc"@.len() != "ShareFs"@.len());
            assert("NewIpc"@.len() != "ShareFiles"@.len());
            assert("NewIpc"@.len() != "ShareSignalHandler"@.len());
            assert("NewIpc"@.len() != "ShareUntraced"@.len());
            assert("NewIpc"@.len() != "SharePTrace"@.len());
            assert("NewIpc"@.len() != "ShareVFork"@.len());
            assert("NewIpc"@.len() != "ShareParent"@.len());
            assert("NewIpc"@.len() != "ShareThread"@.len());
            assert("NewIpc"@.len() != "ShareIo"@.len());
            assert("NewIpc"@.len() != "NewMount"@.len());
            assert("NewIpc"@.len() != "NewCGroup"@.len());
            assert("NewIpc"@[3] != "NewUts"@[3]);
        },
        NsFlag::NewUser => {
            assert("NewUser"@[0] != "ShareVm"@[0]);
            assert("NewUser"@.len() != "ShareVSem"@.len());
            assert("NewUser"@[0] != "ShareFs"@[0]);
            assert("NewUser"@.len() != "ShareFiles"@.len());
            assert("NewUser"@.len() != "ShareSignalHandler"@.len());
            assert("NewUser"@.len() != "ShareUntraced"@.len());
            assert("NewUser"@.len() != "SharePTrace"@.len());
            assert("NewUser"@.len() != "ShareVFork"@.len());
            assert("NewUser"@.len() != "ShareParent"@.len());
            assert("NewUser"@.len() != "ShareThread"@.len());
            assert("NewUser"@[0] != "ShareIo"@[0]);
            assert("NewUser"@.len() != "NewMount"@.len());
            assert("NewUser"@.len() != "NewCGroup"@.len());
            assert("NewUser"@.len() != "NewUts"@.len());
            assert("NewUser"@.len() != "NewIpc"@.len());
        },
        NsFlag::NewPid => {
            assert("NewPid"@.len() != "ShareVm"@.len());
            assert("NewPid"@.len() != "ShareVSem"@.len());
            assert("NewPid"@.len() != "ShareFs"@.len());
            assert("NewPid"@.len() != "ShareFiles"@.len());
            assert("NewPid"@.len() != "ShareSignalHandler"@.len());
            assert("NewPid"@.len() != "ShareUntraced"@.len());
            assert("NewPid"@.len() != "SharePTrace"@.len());
            assert("NewPid"@.len() != "ShareVFork"@.len());
            assert("NewPid"@.len() != "ShareParent"@.len());
            assert("NewPid"@.len() != "ShareThread"@.len());
            assert("NewPid"@.len() != "ShareIo"@.len());
            assert("NewPid"@.len() != "NewMount"@.len());
            assert("NewPid"@.len() != "NewCGroup"@.len());
            assert("NewPid"@[3] != "NewUts"@[3]);
            assert("NewPid"@[3] != "NewIpc"@[3]);
            assert("NewPid"@.len() != "NewUser"@.len());
        },
        NsFlag::NewNetwork => {
            assert("NewNetwork"@.len() != "ShareVm"@.len());
            assert("NewNetwork"@.len() != "ShareVSem"@.len());
            assert("NewNetwork"@.len() != "ShareFs"@.len());
            assert("NewNetwork"@[0] != "ShareFiles"@[0]);
            assert("NewNetwork"@.len() != "ShareSignalHandler"@.len());
            assert("NewNetwork"@.len() != "ShareUntraced"@.len());
            assert("NewNetwork"@.len() != "SharePTrace"@.len());
            assert("NewNetwork"@[0] != "ShareVFork"@[0]);
            assert("NewNetwork"@.len() != "ShareParent"@.len());
            assert("NewNetwork"@.len() != "ShareThread"@.len());
            assert("NewNetwork"@.len() != "ShareIo"@.len());
            assert("NewNetwork"@.len() != "NewMount"@.len());
            assert("NewNetwork"@.len() != "NewCGroup"@.len());
            assert("NewNetwork"@.len() != "NewUts"@.len());
            assert("NewNetwork"@.len() != "NewIpc"@.len());
            assert("NewNetwork"@.len() != "NewUser"@.len());
            assert("NewNetwork"@.len() != "NewPid"@.len());
        },
    }
}

/// Distinct flags are distinct bits.
pub proof fn law_ns_flag_bits_distinct(f: NsFlag, g: NsFlag)
    requires
        f != g,
    ensures
        f.spec_bits() != g.spec_bits(),
{
}

// ---------------------------------------------------------------------------
// What the init asks of warden

/// The switch words warden reads: none is a container's absolute path
pub open spec fn is_switch(a: Seq<char>) -> bool {
    a == "-h"@ || a == "--help"@ || a == "help"@ || a == "-l"@ || a == "--list"@ || a == "-b"@ || a
        == "--bind-file"@ || a == "-B"@ || a == "--bind-dir"@ || a == "-S"@ || a == "--mount-system-fs"@
        || a == "-d"@ || a == "--dbus"@ || a == "-f"@ || a == "--flag"@
}

proof fn lemma_absolute_not_switch(a: Seq<char>)
    requires
        a.len() > 0,
        a[0] == '/',
    ensures
        !is_switch(a),
{
    reveal_strlit("-h");
    reveal_strlit("--help");
    reveal_strlit("help");
    reveal_strlit("-l");
    reveal_strlit("--list");
    reveal_strlit("-b");
    reveal_strlit("--bind-file");
    reveal_strlit("-B");
    reveal_strlit("--bind-dir");
    reveal_strlit("-S");
    reveal_strlit("--mount-system-fs");
    reveal_strlit("-d");
    reveal_strlit("--dbus");
    reveal_strlit("-f");
    reveal_strlit("--flag");
    assert("-h"@[0] != '/' && "--help"@[0] != '/' && "help"@[0] != '/' && "-l"@[0] != '/' && "--list"@[0] != '/');
    assert("-b"@[0] != '/' && "--bind-file"@[0] != '/' && "-B"@[0] != '/' && "--bind-dir"@[0] != '/');
    assert("-S"@[0] != '/' && "--mount-system-fs"@[0] != '/' && "-d"@[0] != '/' && "--dbus"@[0] != '/');
    assert("-f"@[0] != '/' && "--flag"@[0] != '/');
}

/// What warden reads from `i` on depends only on the arguments from `i` on
proof fn lemma_parse_shift(args: Seq<Seq<char>>, i: int, st: ParseState)
    requires
        0 <= i <= args.len(),
    ensures
        spec_parse(args, i, st) == spec_parse(args.skip(i), 0, st),
    decreases args.len() - i,
{
    let t = args.skip(i);
    if i < args.len() {
        assert(t[0] == args[i]);
        if i + 1 < args.len() {
            assert(t[1] == args[i + 1]);
            assert(t.skip(2) =~= args.skip(i + 2));
            let a = args[i];
            let nx = args[i + 1];
            let fs = ParseState { files: st.files.push(nx), ..st };
            let ds = ParseState { dirs: st.dirs.push(nx), ..st };
            lemma_parse_shift(args, i + 2, fs);
            lemma_parse_shift(t, 2, fs);
            lemma_parse_shift(args, i + 2, ds);
            lemma_parse_shift(t, 2, ds);
            match NsFlag::spec_new(nx) {
                Some(f) => {
                    let gs = ParseState { flags: st.flags.push(f), ..st };
                    lemma_parse_shift(args, i + 2, gs);
                    lemma_parse_shift(t, 2, gs);
                },
                None => {},
            }
            assert(args.skip(i + 2) =~= t.skip(2));
        }
        assert(t.skip(1) =~= args.skip(i + 1));
        let ss = ParseState { sys: true, ..st };
        let bs = ParseState { dbus: true, ..st };
        lemma_parse_shift(args, i + 1, ss);
        lemma_parse_shift(t, 1, ss);
        lemma_parse_shift(args, i + 1, bs);
        lemma_parse_shift(t, 1, bs);
    }
}

/// The switch words are distinct
proof fn lemma_switches_distinct()
    ensures
        "-h"@ != "--help"@,
        "-h"@ != "help"@,
        "-h"@ != "-l"@,
        "-h"@ != "--list"@,
        "-h"@ != "-b"@,
        "-h"@ != "--bind-file"@,
        "-h"@ != "-B"@,
        "-h"@ != "--bind-dir"@,
        "-h"@ != "-S"@,
        "-h"@ != "--mount-system-fs"@,
        "-h"@ != "-d"@,
        "-h"@ != "--dbus"@,
        "-h"@ != "-f"@,
        "-h"@ != "--flag"@,
        "--help"@ != "help"@,
        "--help"@ != "-l"@,
        "--help"@ != "--list"@,
        "--help"@ != "-b"@,
        "--help"@ != "--bind-file"@,
        "--help"@ != "-B"@,
        "--help"@ != "--bind-dir"@,
        "--help"@ != "-S"@,
        "--help"@ != "--mount-system-fs"@,
        "--help"@ != "-d"@,
        "--help"@ != "--dbus"@,
        "--help"@ != "-f"@,
        "--help"@ != "--flag"@,
        "help"@ != "-l"@,
        "help"@ != "--list"@,
        "help"@ != "-b"@,
        "help"@ != "--bind-file"@,
        "help"@ != "-B"@,
        "help"@ != "--bind-dir"@,
        "help"@ != "-S"@,
        "help"@ != "--mount-system-fs"@,
        "help"@ != "-d"@,
        "help"@ != "--dbus"@,
        "help"@ != "-f"@,
        "help"@ != "--flag"@,
        "-l"@ != "--list"@,
        "-l"@ != "-b"@,
        "-l"@ != "--bind-file"@,
        "-l"@ != "-B"@,
        "-l"@ != "--bind-dir"@,
        "-l"@ != "-S"@,
        "-l"@ != "--mount-system-fs"@,
        "-l"@ != "-d"@,
        "-l"@ != "--dbus"@,
        "-l"@ != "-f"@,
        "-l"@ != "--flag"@,
        "--list"@ != "-b"@,
        "--list"@ != "--bind-file"@,
        "--list"@ != "-B"@,
        "--list"@ != "--bind-dir"@,
        "--list"@ != "-S"@,
        "--list"@ != "--mount-system-fs"@,
        "--list"@ != "-d"@,
        "--list"@ != "--dbus"@,
        "--list"@ != "-f"@,
        "--list"@ != "--flag"@,
        "-b"@ != "--bind-file"@,
        "-b"@ != "-B"@,
        "-b"@ != "--bind-dir"@,
        "-b"@ != "-S"@,
        "-b"@ != "--mount-system-fs"@,
        "-b"@ != "-d"@,
        "-b"@ != "--dbus"@,
        "-b"@ != "-f"@,
        "-b"@ != "--flag"@,
        "--bind-file"@ != "-B"@,
        "--bind-file"@ != "--bind-dir"@,
        "--bind-file"@ != "-S"@,
        "--bind-file"@ != "--mount-system-fs"@,
        "--bind-file"@ != "-d"@,
        "--bind-file"@ != "--dbus"@,
        "--bind-file"@ != "-f"@,
        "--bind-file"@ != "--flag"@,
        "-B"@ != "--bind-dir"@,
        "-B"@ != "-S"@,
        "-B"@ != "--mount-system-fs"@,
        "-B"@ != "-d"@,
        "-B"@ != "--dbus"@,
        "-B"@ != "-f"@,
        "-B"@ != "--flag"@,
        "--bind-dir"@ != "-S"@,
        "--bind-dir"@ != "--mount-system-fs"@,
        "--bind-dir"@ != "-d"@,
        "--bind-dir"@ != "--dbus"@,
        "--bind-dir"@ != "-f"@,
        "--bind-dir"@ != "--flag"@,
        "-S"@ != "--mount-system-fs"@,
        "-S"@ != "-d"@,
        "-S"@ != "--dbus"@,
        "-S"@ != "-f"@,
        "-S"@ != "--flag"@,
        "--mount-system-fs"@ != "-d"@,
        "--mount-system-fs"@ != "--dbus"@,
        "--mount-system-fs"@ != "-f"@,
        "--mount-system-fs"@ != "--flag"@,
        "-d"@ != "--dbus"@,
        "-d"@ != "-f"@,
        "-d"@ != "--flag"@,
        "--dbus"@ != "-f"@,
        "--dbus"@ != "--flag"@,
        "-f"@ != "--flag"@,
{
    reveal_strlit("-h");
    reveal_strlit("--help");
    reveal_strlit("help");
    reveal_strlit("-l");
    reveal_strlit("--list");
    reveal_strlit("-b");
    reveal_strlit("--bind-file");
    reveal_strlit("-B");
    reveal_strlit("--bind-dir");
    reveal_strlit("-S");
    reveal_strlit("--mount-system-fs");
    reveal_strlit("-d");
    reveal_strlit("--dbus");
    reveal_strlit("-f");
    reveal_strlit("--flag");
    assert("-h"@.len() != "--help"@.len());
    assert("-h"@.len() != "help"@.len());
    assert("-h"@[1] != "-l"@[1]);
    assert("-h"@.len() != "--list"@.len());
    assert("-h"@[1] != "-b"@[1]);
    assert("-h"@.len() != "--bind-file"@.len());
    assert("-h"@[1] != "-B"@[1]);
    assert("-h"@.len() != "--bind-dir"@.len());
    assert("-h"@[1] != "-S"@[1]);
    assert("-h"@.len() != "--mount-system-fs"@.len());
    assert("-h"@[1] != "-d"@[1]);
    assert("-h"@.len() != "--dbus"@.len());
    assert("-h"@[1] != "-f"@[1]);
    assert("-h"@.len() != "--flag"@.len());
    assert("--help"@.len() != "help"@.len());
    assert("--help"@.len() != "-l"@.len());
    assert("--help"@[2] != "--list"@[2]);
    assert("--help"@.len() != "-b"@.len());
    assert("--help"@.len() != "--bind-file"@.len());
    assert("--help"@.len() != "-B"@.len());
    assert("--help"@.len() != "--bind-dir"@.len());
    assert("--help"@.len() != "-S"@.len());
    assert("--help"@.len() != "--mount-system-fs"@.len());
    assert("--help"@.len() != "-d"@.len());
    assert("--help"@[2] != "--dbus"@[2]);
    assert("--help"@.len() != "-f"@.len());
    assert("--help"@[2] != "--flag"@[2]);
    assert("help"@.len() != "-l"@.len());
    assert("help"@.len() != "--list"@.len());
    assert("help"@.len() != "-b"@.len());
    assert("help"@.len() != "--bind-file"@.len());
    assert("help"@.len() != "-B"@.len());
    assert("help"@.len() != "--bind-dir"@.len());
    assert("help"@.len() != "-S"@.len());
    assert("help"@.len() != "--mount-system-fs"@.len());
    assert("help"@.len() != "-d"@.len());
    assert("help"@.len() != "--dbus"@.len());
    assert("help"@.len() != "-f"@.len());
    assert("help"@.len() != "--flag"@.len());
    assert("-l"@.len() != "--list"@.len());
    assert("-l"@[1] != "-b"@[1]);
    assert("-l"@.len() != "--bind-file"@.len());
    assert("-l"@[1] != "-B"@[1]);
    assert("-l"@.len() != "--bind-dir"@.len());
    assert("-l"@[1] != "-S"@[1]);
    assert("-l"@.len() != "--mount-system-fs"@.len());
    assert("-l"@[1] != "-d"@[1]);
    assert("-l"@.len() != "--dbus"@.len());
    assert("-l"@[1] != "-f"@[1]);
    assert("-l"@.len() != "--flag"@.len());
    assert("--list"@.len() != "-b"@.len());
    assert("--list"@.len() != "--bind-file"@.len());
    assert("--list"@.len() != "-B"@.len());
    assert("--list"@.len() != "--bind-dir"@.len());
    assert("--list"@.len() != "-S"@.len());
    assert("--list"@.len() != "--mount-system-fs"@.len());
    assert("--list"@.len() != "-d"@.len());
    assert("--list"@[2] != "--dbus"@[2]);
    assert("--list"@.len() != "-f"@.len());
    assert("--list"@[2] != "--flag"@[2]);
    assert("-b"@.len() != "--bind-file"@.len());
    assert("-b"@[1] != "-B"@[1]);
    assert("-b"@.len() != "--bind-dir"@.len());
    assert("-b"@[1] != "-S"@[1]);
    assert("-b"@.len() != "--mount-system-fs"@.len());
    assert("-b"@[1] != "-d"@[1]);
    assert("-b"@.len() != "--dbus"@.len());
    assert("-b"@[1] != "-f"@[1]);
    assert("-b"@.len() != "--flag"@.len());
    assert("--bind-file"@.len() != "-B"@.len());
    assert("--bind-file"@.len() != "--bind-dir"@.len());
    assert("--bind-file"@.len() != "-S"@.len());
    assert("--bind-file"@.len() != "--mount-system-fs"@.len());
    assert("--bind-file"@.len() != "-d"@.len());
    assert("--bind-file"@.len() != "--dbus"@.len());
    assert("--bind-file"@.len() != "-f"@.len());
    assert("--bind-file"@.len() != "--flag"@.len());
    assert("-B"@.len() != "--bind-dir"@.len());
    assert("-B"@[1] != "-S"@[1]);
    assert("-B"@.len() != "--mount-system-fs"@.len());
    assert("-B"@[1] != "-d"@[1]);
    assert("-B"@.len() != "--dbus"@.len());
    assert("-B"@[1] != "-f"@[1]);
    assert("-B"@.len() != "--flag"@.len());
    assert("--bind-dir"@.len() != "-S"@.len());
    assert("--bind-dir"@.len() != "--mount-system-fs"@.len());
    assert("--bind-dir"@.len() != "-d"@.len());
    assert("--bind-dir"@.len() != "--dbus"@.len());
    assert("--bind-dir"@.len() != "-f"@.len());
    assert("--bind-dir"@.len() != "--flag"@.len());
    assert("-S"@.len() != "--mount-system-fs"@.len());
    assert("-S"@[1] != "-d"@[1]);
    assert("-S"@.len() != "--dbus"@.len());
    assert("-S"@[1] != "-f"@[1]);
    assert("-S"@.len() != "--flag"@.len());
    assert("--mount-system-fs"@.len() != "-d"@.len());
    assert("--mount-system-fs"@.len() != "--dbus"@.len());
    assert("--mount-system-fs"@.len() != "-f"@.len());
    assert("--mount-system-fs"@.len() != "--flag"@.len());
    assert("-d"@.len() != "--dbus"@.len());
    assert("-d"@[1] != "-f"@[1]);
    assert("-d"@.len() != "--flag"@.len());
    assert("--dbus"@.len() != "-f"@.len());
    assert("--dbus"@[2] != "--flag"@[2]);
    assert("-f"@.len() != "--flag"@.len());
}

/// Every name is a flag's
pub open spec fn all_flag_names(names: Seq<Seq<char>>) -> bool {
    forall|i: int| 0 <= i < names.len() ==> (#[trigger] NsFlag::spec_new(names[i])) is Some
}

/// The flags of the names
pub open spec fn flags_named(names: Seq<Seq<char>>) -> Seq<NsFlag> {
    names.map_values(|n: Seq<char>| match NsFlag::spec_new(n) {
        Some(f) => f,
        None => NsFlag::ShareVm,
    })
}

/// The imports of one kind, in order
pub open spec fn imports_of(imports: Seq<Seq<char>>, kinds: Seq<PathKind>, kind: PathKind) -> Seq<Seq<char>>
    decreases imports.len(),
{
    if imports.len() == 0 {
        Seq::empty()
    } else {
        imports_of(imports.drop_last(), kinds.drop_last(), kind) + if kinds.last() == kind {
            seq![imports.last()]
        } else {
            Seq::empty()
        }
    }
}

proof fn lemma_parse_flags(names: Seq<Seq<char>>, r: Seq<Seq<char>>, st: ParseState)
    requires
        all_flag_names(names),
    ensures
        spec_parse(flag_args(names) + r, 0, st) == spec_parse(
            r,
            0,
            ParseState { flags: st.flags + flags_named(names), ..st },
        ),
    decreases names.len(),
{
    if names.len() == 0 {
        assert(flag_args(names) + r =~= r);
        assert(st.flags + flags_named(names) =~= st.flags);
    } else {
        let init = names.drop_last();
        let last = names.last();
        let r2 = seq!["--flag"@, last] + r;
        assert(flag_args(names) + r =~= flag_args(init) + r2);
        assert forall|i: int| 0 <= i < init.len() implies (#[trigger] NsFlag::spec_new(init[i])) is Some by {
            assert(init[i] == names[i]);
        }
        lemma_parse_flags(init, r2, st);
        let st1 = ParseState { flags: st.flags + flags_named(init), ..st };
        assert(NsFlag::spec_new(names[names.len() - 1]) is Some);
        let f = NsFlag::spec_new(last)->Some_0;
        let st2 = ParseState { flags: st1.flags.push(f), ..st1 };
        lemma_switches_distinct();
        assert(r2[0] == "--flag"@);
        assert(r2[1] == last);
        lemma_parse_shift(r2, 2, st2);
        assert(r2.skip(2) =~= r);
        assert(st1.flags.push(f) =~= st.flags + flags_named(names));
    }
}

proof fn lemma_parse_imports(imports: Seq<Seq<char>>, kinds: Seq<PathKind>, r: Seq<Seq<char>>, st: ParseState)
    requires
        kinds.len() == imports.len(),
        forall|i: int| 0 <= i < kinds.len() ==> kinds[i] != PathKind::Missing,
    ensures
        import_args(imports, kinds) is Ok,
        spec_parse(import_args(imports, kinds)->Ok_0 + r, 0, st) == spec_parse(
            r,
            0,
            ParseState {
                files: st.files + imports_of(imports, kinds, PathKind::File),
                dirs: st.dirs + imports_of(imports, kinds, PathKind::Dir),
                ..st
            },
        ),
    decreases imports.len(),
{
    if imports.len() == 0 {
        assert(import_args(imports, kinds)->Ok_0 + r =~= r);
        assert(st.files + imports_of(imports, kinds, PathKind::File) =~= st.files);
        assert(st.dirs + imports_of(imports, kinds, PathKind::Dir) =~= st.dirs);
    } else {
        let init = imports.drop_last();
        let kinit = kinds.drop_last();
        let last = imports.last();
        let k = kinds.last();
        assert(kinds[kinds.len() - 1] != PathKind::Missing);
        let word = if k == PathKind::Dir {
            "--bind-dir"@
        } else {
            "--bind-file"@
        };
        let r2 = seq![word, last] + r;
        lemma_parse_imports(init, kinit, r2, st);
        let prev = import_args(init, kinit)->Ok_0;
        assert(import_args(imports, kinds)->Ok_0 + r =~= prev + r2);
        let st1 = ParseState {
            files: st.files + imports_of(init, kinit, PathKind::File),
            dirs: st.dirs + imports_of(init, kinit, PathKind::Dir),
            ..st
        };
        lemma_switches_distinct();
        assert(r2[0] == word);
        assert(r2[1] == last);
        assert(r2.skip(2) =~= r);
        if k == PathKind::Dir {
            let st2 = ParseState { dirs: st1.dirs.push(last), ..st1 };
            lemma_parse_shift(r2, 2, st2);
            assert(st1.dirs.push(last) =~= st.dirs + imports_of(imports, kinds, PathKind::Dir));
            assert(st1.files =~= st.files + imports_of(imports, kinds, PathKind::File));
        } else {
            let st2 = ParseState { files: st1.files.push(last), ..st1 };
            lemma_parse_shift(r2, 2, st2);
            assert(st1.files.push(last) =~= st.files + imports_of(imports, kinds, PathKind::File));
            assert(st1.dirs =~= st.dirs + imports_of(imports, kinds, PathKind::Dir));
        }
    }
}

/// The arguments the init gives warden for a sandboxed service are read
/// back by warden as the sandbox the service asked for: the container as the
/// root, the service's program and arguments, the imported files and
/// directories by their kind, the namespace flags in order, and the system
/// filesystems and the dbus socket when asked for. This holds for sandboxes
/// whose flags all name a flag and whose imports all exist, an absolute
/// container path, and a program to run.
pub proof fn law_warden_reads_its_arguments(
    sb: crate::init::service::Sandbox,
    kinds: Seq<PathKind>,
    container: Seq<char>,
    argv: Seq<Seq<char>>,
)
    requires
        kinds.len() == sb.import@.len(),
        forall|i: int| 0 <= i < kinds.len() ==> kinds[i] != PathKind::Missing,
        all_flag_names(strings(sb.flags@)),
        container.len() > 0,
        container[0] == '/',
        argv.len() > 0,
    ensures
        spec_warden_args(sb, kinds, container, argv) matches Ok(args) && spec_parse(args, 0, fresh_state())
            == Ok::<InvocationView, Seq<char>>(
            InvocationView::Run(
                WardenRunView {
                    root: container,
                    program: argv[0],
                    args: argv.drop_first(),
                    state: ParseState {
                        files: imports_of(strings(sb.import@), kinds, PathKind::File),
                        dirs: imports_of(strings(sb.import@), kinds, PathKind::Dir),
                        flags: flags_named(strings(sb.flags@)),
                        sys: sb.bindSystemFs == Some(true),
                        dbus: sb.bindDbus == Some(true),
                    },
                },
            ),
        ),
{
    let imps = strings(sb.import@);
    let names = strings(sb.flags@);
    let tail = seq![container] + argv;
    lemma_parse_imports(imps, kinds, tail, fresh_state());
    let ia = import_args(imps, kinds)->Ok_0;
    let sys = sb.bindSystemFs == Some(true);
    let dbus = sb.bindDbus == Some(true);
    let st_f = ParseState { sys, dbus, ..fresh_state() };
    let st_i = ParseState { flags: st_f.flags + flags_named(names), ..st_f };
    lemma_parse_imports(imps, kinds, tail, st_i);
    lemma_parse_flags(names, ia + tail, st_f);
    let rest = flag_args(names) + (ia + tail);
    let head: Seq<Seq<char>> = (if sys {
        seq!["--mount-system-fs"@]
    } else {
        Seq::empty()
    }) + (if dbus {
        seq!["--dbus"@]
    } else {
        Seq::empty()
    });
    let args = spec_warden_switches(sb) + ia + seq![container] + argv;
    assert(args =~= head + rest);
    lemma_switches_distinct();
    let st_d = ParseState { dbus, ..fresh_state() };
    if dbus {
        let r1 = seq!["--dbus"@] + rest;
        assert(r1[0] == "--dbus"@);
        lemma_parse_shift(r1, 1, st_f);
        assert(r1.skip(1) =~= rest);
        if sys {
            let r0 = seq!["--mount-system-fs"@] + r1;
            assert(r0 =~= args);
            assert(r0[0] == "--mount-system-fs"@);
            lemma_parse_shift(r0, 1, ParseState { sys: true, ..fresh_state() });
            assert(r0.skip(1) =~= r1);
        } else {
            assert(r1 =~= args);
        }
    } else {
        if sys {
            let r0 = seq!["--mount-system-fs"@] + rest;
            assert(r0 =~= args);
            assert(r0[0] == "--mount-system-fs"@);
            lemma_parse_shift(r0, 1, st_f);
            assert(r0.skip(1) =~= rest);
        } else {
            assert(rest =~= args);
        }
    }
    lemma_absolute_not_switch(container);
    assert(tail[0] == container);
    assert(tail[1] == argv[0]);
    assert(tail.skip(2) =~= argv.drop_first());
    assert(st_i.flags =~= flags_named(names));
    assert(Seq::<Seq<char>>::empty() + imports_of(imps, kinds, PathKind::File) =~= imports_of(imps, kinds, PathKind::File));
    assert(Seq::<Seq<char>>::empty() + imports_of(imps, kinds, PathKind::Dir) =~= imports_of(imps, kinds, PathKind::Dir));
}

/// Everything shared with a container is bound read-only: the dynamic
/// linker, the bound files and the bound directories.
pub proof fn law_binds_read_only(s: SandboxView, arch: Arch, dbus_dir: bool)
    ensures
        forall|i: int|
            0 <= i < bind_steps(s.root, seq![spec_dynamic_ld(arch)] + s.files + s.dirs).len() ==> {
                let step = #[trigger] bind_steps(s.root, seq![spec_dynamic_ld(arch)] + s.files + s.dirs)[i];
                step matches SandboxStepView::Mount(m) && m.flags & MS_RDONLY == MS_RDONLY && m.flags & MS_BIND
                    == MS_BIND
            },
{
    assert(BIND_FLAGS & MS_RDONLY == MS_RDONLY && BIND_FLAGS & MS_BIND == MS_BIND) by (bit_vector)
        requires
            BIND_FLAGS == MS_BIND | MS_PRIVATE | MS_RDONLY | MS_SILENT | MS_REC,
            MS_BIND == 4096u64,
            MS_PRIVATE == 262144u64,
            MS_RDONLY == 1u64,
            MS_SILENT == 32768u64,
            MS_REC == 16384u64,
    ;
}

/// A sandboxed program is spawned last, right after the root was changed to
/// its container, and the namespaces are unshared first, before anything is
/// made or mounted.
pub proof fn law_spawn_order(s: SandboxView, arch: Arch, dbus_dir: bool)
    ensures
        ({
            let steps = spec_spawn_steps(s, arch, dbus_dir);
            &&& steps.len() >= 4
            &&& steps[0] == SandboxStepView::Unshare(s.flags)
            &&& steps[steps.len() - 2] == SandboxStepView::Chroot(s.root)
            &&& steps[steps.len() - 1] == SandboxStepView::Spawn
            &&& forall|i: int| 0 <= i < steps.len() - 1 ==> !(#[trigger] steps[i] is Spawn)
            &&& forall|i: int| 0 < i < steps.len() ==> !(#[trigger] steps[i] is Unshare)
            &&& forall|i: int| 0 <= i < steps.len() - 2 ==> !(#[trigger] steps[i] is Chroot)
        }),
{
    let ld = spec_dynamic_ld(arch);
    let head = seq![SandboxStepView::Unshare(s.flags), SandboxStepView::CreateFile(spec_join_path(s.root, ld))];
    let fs = file_steps(s.root, s.files);
    let ds = dir_steps(s.root, s.dirs);
    let bs = bind_steps(s.root, seq![ld] + s.files + s.dirs);
    let ss = system_steps(s.root, s.sys, s.dbus, dbus_dir);
    let tail = seq![SandboxStepView::Chroot(s.root), SandboxStepView::Spawn];
    let mid = fs + ds + bs + ss;
    lemma_file_steps_kinds(s.root, s.files);
    let steps = spec_spawn_steps(s, arch, dbus_dir);
    assert(steps =~= head + mid + tail);
    assert forall|i: int| 0 <= i < mid.len() implies {
        let st = #[trigger] mid[i];
        st is CreateFile || st is CreateDirAll || st is CreateDir || st is Mount
    } by {
        if i < fs.len() {
            assert(mid[i] == fs[i]);
        } else if i < fs.len() + ds.len() {
            assert(mid[i] == ds[i - fs.len()]);
        } else if i < fs.len() + ds.len() + bs.len() {
            assert(mid[i] == bs[i - fs.len() - ds.len()]);
        } else {
            assert(mid[i] == ss[i - fs.len() - ds.len() - bs.len()]);
        }
    }
    assert forall|i: int| 0 <= i < steps.len() - 1 implies !(#[trigger] steps[i] is Spawn) by {
        if 2 <= i < 2 + mid.len() {
            assert(steps[i] == mid[i - 2]);
        }
    }
    assert forall|i: int| 0 < i < steps.len() implies !(#[trigger] steps[i] is Unshare) by {
        if 2 <= i < 2 + mid.len() {
            assert(steps[i] == mid[i - 2]);
        }
    }
    assert forall|i: int| 0 <= i < steps.len() - 2 implies !(#[trigger] steps[i] is Chroot) by {
        if 2 <= i < 2 + mid.len() {
            assert(steps[i] == mid[i - 2]);
        }
    }
}

proof fn lemma_file_steps_kinds(root: Seq<char>, files: Seq<Seq<char>>)
    ensures
        forall|i: int|
            0 <= i < file_steps(root, files).len() ==> (#[trigger] file_steps(root, files)[i] is CreateFile
                || file_steps(root, files)[i] is CreateDirAll),
    decreases files.len(),
{
    if files.len() > 0 {
        lemma_file_steps_kinds(root, files.drop_last());
        let prev = file_steps(root, files.drop_last());
        let mid: Seq<SandboxStepView> = match path_parent(files.last()) {
            Some(p) => seq![SandboxStepView::CreateDirAll(inside(root, p))],
            None => Seq::empty(),
        };
        let all = file_steps(root, files);
        assert(all =~= prev + mid + seq![SandboxStepView::CreateFile(inside(root, files.last()))]);
        assert forall|i: int| 0 <= i < all.len() implies (#[trigger] all[i] is CreateFile || all[i] is CreateDirAll) by {
            if i < prev.len() {
                assert(all[i] == prev[i]);
            } else if i < prev.len() + mid.len() {
                assert(all[i] == mid[i - prev.len()]);
            }
        }
    }
}

} // verus!
