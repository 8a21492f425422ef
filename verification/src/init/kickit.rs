//! The decisions of the init's start-up: its checks, its options, its work
//! directory, the system filesystems it mounts and how each service is kept

use vstd::prelude::*;
use vstd::string::*;
use crate::text::{str_eq, strings, decimal_nat, u64_to_decimal, spec_join_path, join_path};
use super::console::{Error, ErrorTrace, ErrorTraceView, traced};
use super::mount::{Flag, Flags, flags_bits};
use super::service::Pattern;

verus! {

/// Whether the init runs alongside another one: then its first argument is
/// `--no-init`, and it keeps its own PID for itself
pub fn no_init_pid(args: &Vec<String>, own_pid: u32) -> (r: Option<u32>)
    ensures
        r == (if args@.len() > 1 && args@[1]@ == "--no-init"@ {
            Some(own_pid)
        } else {
            None::<u32>
        }),
{
    if args.len() > 1 && str_eq(args[1].as_str(), "--no-init") {
        Some(own_pid)
    } else {
        None
    }
}

/// The checks before the init starts: it is not already running, it runs as
/// root, and, as the init of the system, it is process 1 unless those checks
/// are bypassed. `Ok(true)` tells that they were bypassed.
///
/// # Errors
///
/// * `/run/kickit` exists (`AlreadyRunning`),
/// * The user is not root (`NotRoot`),
/// * The init of the system is not process 1 (`NotInit`)
pub fn sanity(run_fs_exists: bool, is_root: bool, no_init_pid: Option<Option<u32>>, own_pid: u32, bypass_init_check: bool) -> (r: Result<bool, ErrorTrace>)
    ensures
        match r {
            Ok(bypassed) => !run_fs_exists && is_root && bypassed == (no_init_pid == Some(None::<u32>)
                && bypass_init_check) && (no_init_pid == Some(None::<u32>) && !bypass_init_check
                ==> own_pid == 1),
            Err(e) => e@ == traced(
                if run_fs_exists {
                    Error::AlreadyRunning
                } else if !is_root {
                    Error::NotRoot
                } else {
                    Error::NotInit
                },
                Seq::empty(),
            ) && (run_fs_exists || !is_root || (no_init_pid == Some(None::<u32>) && !bypass_init_check
                && own_pid != 1)),
        },
{
    if run_fs_exists {
        return Err(Error::AlreadyRunning.traceless());
    }
    if !is_root {
        return Err(Error::NotRoot.traceless());
    }
    match no_init_pid {
        Some(None) => {
            if bypass_init_check {
                Ok(true)
            } else if own_pid != 1 {
                Err(Error::NotInit.traceless())
            } else {
                Ok(false)
            }
        },
        _ => Ok(false),
    }
}

/// The init is quiet when the kernel command line holds a bare `quiet` and it
/// is the init of the system
pub fn quiet(quiet_param: &Result<Option<String>, ErrorTrace>, no_init_pid: Option<u32>) -> (r: bool)
    ensures
        r == ((*quiet_param matches Ok(None)) && no_init_pid is None),
{
    match quiet_param {
        Ok(None) => no_init_pid.is_none(),
        _ => false,
    }
}

/// The target to start, after the kernel command line's `init.target`: its
/// value, or `system` when the parameter is missing or cannot be read
///
/// # Errors
///
/// * `init.target` is given without a value (`BadCmdline`)
pub fn target_name(target_param: Result<Option<String>, ErrorTrace>) -> (r: Result<String, ErrorTrace>)
    ensures
        match target_param {
            Ok(Some(t)) => r matches Ok(n) && n@ == t@,
            Ok(None) => r matches Err(e) && e@ == traced(
                Error::BadCmdline,
                "init.target requires a target name to be provided!"@,
            ),
            Err(_) => r matches Ok(n) && n@ == "system"@,
        },
{
    match target_param {
        Ok(Some(t)) => Ok(t),
        Ok(None) => Err(Error::BadCmdline.trace("init.target requires a target name to be provided!")),
        Err(_) => Ok(String::from_str("system")),
    }
}

/// A step of creating the init's work directory
#[derive(Clone, Debug)]
pub enum RunFsStep {
    CreateDir(String),
    /// Create a directory and its parents
    CreateDirAll(String),
    /// Create a symbolic link: its target, then the link
    Symlink(String, String),
    /// Set a path's permissions
    SetMode(String, u32),
}

pub enum RunFsStepView {
    CreateDir(Seq<char>),
    CreateDirAll(Seq<char>),
    Symlink(Seq<char>, Seq<char>),
    SetMode(Seq<char>, u32),
}

impl View for RunFsStep {
    type V = RunFsStepView;

    open spec fn view(&self) -> RunFsStepView {
        match self {
            RunFsStep::CreateDir(p) => RunFsStepView::CreateDir(p@),
            RunFsStep::CreateDirAll(p) => RunFsStepView::CreateDirAll(p@),
            RunFsStep::Symlink(t, l) => RunFsStepView::Symlink(t@, l@),
            RunFsStep::SetMode(p, m) => RunFsStepView::SetMode(p@, *m),
        }
    }
}

pub open spec fn run_fs_view(v: Seq<RunFsStep>) -> Seq<RunFsStepView> {
    v.map_values(|s: RunFsStep| s@)
}

/// How the work directory `/run/kickit` is made: a directory, or, for a
/// debug dump of a debug build, a link to a new directory of
/// `/var/lib/kickit` named by the time; then its `service` and `private`
/// directories, `private` readable by root only, and one directory for each
/// service
pub open spec fn spec_setup_run_fs(services: Seq<Seq<char>>, debug_dump: bool, debug_build: bool, millis: u64) -> Seq<RunFsStepView> {
    let dump = spec_join_path("/var/lib/kickit"@, decimal_nat(millis as nat));
    (if !debug_dump {
        seq![RunFsStepView::CreateDir("/run/kickit"@)]
    } else if debug_build {
        seq![RunFsStepView::CreateDirAll(dump), RunFsStepView::Symlink(dump, "/run/kickit"@)]
    } else {
        Seq::empty()
    }) + seq![
        RunFsStepView::CreateDir("/run/kickit/service"@),
        RunFsStepView::CreateDir("/run/kickit/private"@),
        RunFsStepView::SetMode("/run/kickit/private"@, 0o600),
    ] + services.map_values(|s: Seq<char>| RunFsStepView::CreateDir(spec_join_path("/run/kickit/service"@, s)))
}

/// The steps that make the work directory; `millis` is the time, which only a
/// debug dump uses
pub fn setup_run_fs(services: &[String], debug_dump: bool, debug_build: bool, millis: u64) -> (r: Vec<RunFsStep>)
    ensures
        run_fs_view(r@) == spec_setup_run_fs(strings(services@), debug_dump, debug_build, millis),
{
    let mut steps: Vec<RunFsStep> = Vec::new();
    if !debug_dump {
        steps.push(RunFsStep::CreateDir(String::from_str("/run/kickit")));
    } else if debug_build {
        let time = u64_to_decimal(millis);
        let dump = join_path("/var/lib/kickit", time.as_str());
        steps.push(RunFsStep::CreateDirAll(dump.clone()));
        steps.push(RunFsStep::Symlink(dump, String::from_str("/run/kickit")));
    }
    steps.push(RunFsStep::CreateDir(String::from_str("/run/kickit/service")));
    steps.push(RunFsStep::CreateDir(String::from_str("/run/kickit/private")));
    steps.push(RunFsStep::SetMode(String::from_str("/run/kickit/private"), 0o600));
    let ghost head = run_fs_view(steps@);
    let ghost names = strings(services@);
    let ghost f = |s: Seq<char>| RunFsStepView::CreateDir(spec_join_path("/run/kickit/service"@, s));
    let mut i: usize = 0;
    assert(names.take(0).map_values(f) =~= Seq::<RunFsStepView>::empty());
    assert(head + names.take(0).map_values(f) =~= head);
    while i < services.len()
        invariant
            0 <= i <= services.len(),
            names == strings(services@),
            f == (|s: Seq<char>| RunFsStepView::CreateDir(spec_join_path("/run/kickit/service"@, s))),
            run_fs_view(steps@) == head + names.take(i as int).map_values(f),
        decreases services.len() - i,
    {
        let ghost before = run_fs_view(steps@);
        steps.push(RunFsStep::CreateDir(join_path("/run/kickit/service", services[i].as_str())));
        proof {
            assert(run_fs_view(steps@) =~= before.push(f(names[i as int])));
            assert(names.take(i + 1).map_values(f) =~= names.take(i as int).map_values(f).push(f(names[i as int])));
        }
        i = i + 1;
    }
    assert(names.take(i as int) =~= names);
    assert(run_fs_view(steps@) =~= spec_setup_run_fs(names, debug_dump, debug_build, millis));
    steps
}

/// A system filesystem to mount at boot
#[derive(Clone, Debug)]
pub struct SysMount {
    /// The source, none for a remount
    pub source: Option<&'static str>,
    pub target: &'static str,
    pub fs_type: Option<&'static str>,
    pub flags: Flags,
}

pub struct SysMountView {
    pub source: Option<Seq<char>>,
    pub target: Seq<char>,
    pub fs_type: Option<Seq<char>>,
    pub flags: u64,
}

pub open spec fn opt_text(o: Option<&'static str>) -> Option<Seq<char>> {
    match o {
        Some(s) => Some(s@),
        None => None,
    }
}

impl View for SysMount {
    type V = SysMountView;

    open spec fn view(&self) -> SysMountView {
        SysMountView {
            source: opt_text(self.source),
            target: self.target@,
            fs_type: opt_text(self.fs_type),
            flags: self.flags.0,
        }
    }
}

pub open spec fn sys_mount(source: Option<Seq<char>>, target: Seq<char>, fs_type: Option<Seq<char>>, flags: Seq<Flag>) -> SysMountView {
    SysMountView { source, target, fs_type, flags: flags_bits(flags) }
}

/// The system filesystems the init mounts: `/proc`, `/sys`, `/dev`, `/run`
/// and `/tmp`, then the root filesystem is remounted private
pub open spec fn spec_sys_filesystems() -> Seq<SysMountView> {
    seq![
        sys_mount(Some("proc"@), "/proc"@, Some("proc"@), seq![Flag::NoSuid, Flag::NoDev, Flag::NoExec]),
        sys_mount(Some("sysfs"@), "/sys"@, Some("sysfs"@), seq![Flag::NoSuid, Flag::NoDev, Flag::NoExec]),
        sys_mount(Some("dev"@), "/dev"@, Some("devtmpfs"@), seq![Flag::NoSuid]),
        sys_mount(Some("tmpfs"@), "/run"@, Some("tmpfs"@), seq![Flag::NoSuid]),
        sys_mount(Some("tmpfs"@), "/tmp"@, Some("tmpfs"@), seq![Flag::NoSuid, Flag::NoDev]),
        sys_mount(None, "/"@, None, seq![Flag::Private, Flag::Remount]),
    ]
}

/// The system filesystems, in the order they are mounted. Each but the last
/// is mounted unless it is already mounted and unmounting it fails (see
/// `SysMount::needs_mount`); the last, the remount of `/`, always is.
#[allow(non_snake_case)]
pub fn mountSysFilesystems() -> (r: Vec<SysMount>)
    ensures
        r@.map_values(|m: SysMount| m@) == spec_sys_filesystems(),
{
    let mut v: Vec<SysMount> = Vec::new();
    let a = [Flag::NoSuid, Flag::NoDev, Flag::NoExec];
    let b = [Flag::NoSuid];
    let c = [Flag::NoSuid, Flag::NoDev];
    let d = [Flag::Private, Flag::Remount];
    let fa = Flags::of(&a);
    let fb = Flags::of(&b);
    let fc = Flags::of(&c);
    let fd = Flags::of(&d);
    assert(a@ =~= seq![Flag::NoSuid, Flag::NoDev, Flag::NoExec]);
    assert(b@ =~= seq![Flag::NoSuid]);
    assert(c@ =~= seq![Flag::NoSuid, Flag::NoDev]);
    assert(d@ =~= seq![Flag::Private, Flag::Remount]);
    v.push(SysMount { source: Some("proc"), target: "/proc", fs_type: Some("proc"), flags: fa });
    v.push(SysMount { source: Some("sysfs"), target: "/sys", fs_type: Some("sysfs"), flags: fa });
    v.push(SysMount { source: Some("dev"), target: "/dev", fs_type: Some("devtmpfs"), flags: fb });
    v.push(SysMount { source: Some("tmpfs"), target: "/run", fs_type: Some("tmpfs"), flags: fb });
    v.push(SysMount { source: Some("tmpfs"), target: "/tmp", fs_type: Some("tmpfs"), flags: fc });
    v.push(SysMount { source: None, target: "/", fs_type: None, flags: fd });
    assert(v@.map_values(|m: SysMount| m@) =~= spec_sys_filesystems());
    v
}

impl SysMount {
    /// A filesystem is mounted unless it is mounted already and could not be
    /// unmounted; whether unmounting failed only counts when it was mounted
    pub fn needs_mount(mounted: bool, unmount_failed: bool) -> (r: bool)
        ensures
            r == !(mounted && unmount_failed),
    {
        !(mounted && unmount_failed)
    }
}

/// What the init does with a service it has tried to start
#[derive(Clone, Debug)]
pub struct StartPlan {
    /// The error of starting an optional service, which is only warned about
    pub warning: Option<ErrorTrace>,
    /// Watch the service's log
    pub watch_log: bool,
    /// Supervise the service's process
    pub supervise: bool,
    /// Keep the service, to stop it when powering off
    pub keep: bool,
}

/// The lifetime of a started service: an optional service that failed to
/// start is warned about, any other failure stops the init. Unless it runs
/// once, its log is watched; only a standard service is supervised and kept.
///
/// # Errors
///
/// * The service is not optional and failed to start (that error)
pub fn start_decision(up: Result<(), ErrorTrace>, optional: bool, pattern: Pattern) -> (r: Result<StartPlan, ErrorTrace>)
    ensures
        match up {
            Err(e) => if !optional {
                r matches Err(e2) && e2@ == e@
            } else {
                r matches Ok(p) && p.watch_log == (pattern != Pattern::RunOnce) && p.supervise == (pattern
                    == Pattern::Standard) && p.keep == (pattern == Pattern::Standard) && (p.warning matches Some(w)
                    && w@ == e@)
            },
            Ok(_) => r matches Ok(p) && p.watch_log == (pattern != Pattern::RunOnce) && p.supervise == (
            pattern == Pattern::Standard) && p.keep == (pattern == Pattern::Standard) && p.warning is None,
        },
{
    let warning = match up {
        Err(e) => {
            if !optional {
                return Err(e);
            }
            Some(e)
        },
        Ok(_) => None,
    };
    let watch_log = pattern != Pattern::RunOnce;
    let standard = pattern == Pattern::Standard;
    Ok(StartPlan { warning, watch_log, supervise: standard, keep: standard })
}

/// How the result of a service's task is judged
#[derive(Clone, Debug)]
pub enum Assessment<T> {
    /// It went well
    Value(T),
    /// It failed, and is only warned about
    Warn(ErrorTrace),
    /// It failed, and the failure is fatal
    Fatal(ErrorTrace),
}

/// A result of an optional service's task is only warned about when it
/// failed; any other failure is fatal
pub fn assess<T>(r: Result<T, ErrorTrace>, optional: bool) -> (a: Assessment<T>)
    ensures
        match r {
            Ok(v) => a == Assessment::<T>::Value(v),
            Err(e) => if optional {
                a == Assessment::<T>::Warn(e)
            } else {
                a == Assessment::<T>::Fatal(e)
            },
        },
{
    match r {
        Ok(v) => Assessment::Value(v),
        Err(e) => if optional {
            Assessment::Warn(e)
        } else {
            Assessment::Fatal(e)
        },
    }
}

} // verus!
