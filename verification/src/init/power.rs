//! Shutdown & reboot safely: which services are stopped and which filesystems
//! are unmounted

use vstd::prelude::*;
use vstd::string::*;
use crate::text::{lines_seq, split_lines, split_words, words, starts_with, is_prefix, str_eq, strings, u32_from_le, u32_from_le_bytes};
use super::console::{Error, ErrorTrace, ErrorTraceView, traced};

verus! {

/// How the machine is brought down
#[derive(PartialEq, Eq, Clone, Copy, Debug, Structural)]
pub enum Mode {
    Shutdown,
    Reboot,
}

/// The PID a service's PID file holds: four bytes in little-endian order
///
/// # Errors
///
/// * The file does not hold exactly four bytes (`Format`, with the service's
///   name as context)
pub fn pid_from_file(bytes: &[u8], name: &str) -> (r: Result<u32, ErrorTrace>)
    ensures
        match r {
            Ok(pid) => bytes@.len() == 4 && pid == u32_from_le(bytes@),
            Err(e) => bytes@.len() != 4 && e@ == (ErrorTraceView {
                kind: Error::Format,
                context: Some(name@),
                trace: "Bad pid contents!"@,
            }),
        },
{
    if bytes.len() != 4 {
        return Err(Error::Format.trace("Bad pid contents!").context(name));
    }
    let pid = u32_from_le_bytes(bytes[0], bytes[1], bytes[2], bytes[3]);
    assert(seq![bytes[0], bytes[1], bytes[2], bytes[3]] =~= bytes@);
    Ok(pid)
}

/// How hard powering off tries to stop a service's process or to unmount a
/// filesystem: first gently (`SIGQUIT`, a plain unmount), then by force
/// (`SIGKILL`, a lazy unmount)
#[derive(PartialEq, Eq, Clone, Copy, Debug, Structural)]
pub enum Attempt {
    Gentle,
    Forced,
}

/// The next attempt at stopping a process or unmounting a filesystem, given
/// the last one and whether it failed: the gentle one first, the forced one
/// only when the gentle one failed, then none
pub fn next_attempt(last: Option<(Attempt, bool)>) -> (r: Option<Attempt>)
    ensures
        r == match last {
            None => Some(Attempt::Gentle),
            Some((Attempt::Gentle, true)) => Some(Attempt::Forced),
            _ => None::<Attempt>,
        },
{
    match last {
        None => Some(Attempt::Gentle),
        Some((Attempt::Gentle, true)) => Some(Attempt::Forced),
        _ => None,
    }
}

/// The mountpoints never unmounted when powering off: the system's pseudo
/// filesystems
pub open spec fn is_system_mount(m: Seq<char>) -> bool {
    m == "/dev"@ || m == "/dev/pts"@ || m == "/proc"@ || m == "/sys"@ || m == "/sys/fs/cgroup"@
        || m == "/run"@
}

fn system_mount(m: &str) -> (r: bool)
    ensures
        r == is_system_mount(m@),
{
    str_eq(m, "/dev") || str_eq(m, "/dev/pts") || str_eq(m, "/proc") || str_eq(m, "/sys") || str_eq(
        m,
        "/sys/fs/cgroup",
    ) || str_eq(m, "/run")
}

/// What is done with one line of `/proc/mounts` when powering off: the
/// mountpoint to unmount, nothing, or an error when the line has no
/// mountpoint. Without the init process only kickit's own mounts are touched.
pub open spec fn spec_mount_line(line: Seq<char>, no_init: bool) -> Result<Option<Seq<char>>, ErrorTraceView> {
    let w = words(line);
    if w.len() < 2 {
        Err(traced(Error::ProcFs, "Missing mountpoint specifier in /proc/mounts"@))
    } else {
        let m = w[1];
        if no_init && !is_prefix("/run/kickit/"@, m) {
            Ok(None)
        } else if is_system_mount(m) {
            Ok(None)
        } else {
            Ok(Some(m))
        }
    }
}

/// The mountpoints to unmount, in order, for the lines of `/proc/mounts`, and
/// the error of the first line that has no mountpoint (the lines after it are
/// not looked at)
pub open spec fn spec_unmount_plan(lines: Seq<Seq<char>>, no_init: bool) -> (Seq<Seq<char>>, Option<ErrorTraceView>)
    decreases lines.len(),
{
    if lines.len() == 0 {
        (Seq::empty(), None)
    } else {
        match spec_mount_line(lines[0], no_init) {
            Err(e) => (Seq::empty(), Some(e)),
            Ok(found) => {
                let (rest, err) = spec_unmount_plan(lines.drop_first(), no_init);
                match found {
                    Some(m) => (seq![m] + rest, err),
                    None => (rest, err),
                }
            },
        }
    }
}

/// Which filesystems a power-off unmounts, from the contents of `/proc/mounts`
pub fn unmount_plan(proc_mounts: &str, no_init: bool) -> (r: (Vec<String>, Option<ErrorTrace>))
    ensures
        (strings(r.0@), match r.1 {
            Some(e) => Some(e@),
            None => None,
        }) == spec_unmount_plan(lines_seq(proc_mounts@), no_init),
{
    let lines = split_lines(proc_mounts);
    let ghost ls = lines.deep_view();
    let mut targets: Vec<String> = Vec::new();
    let mut i: usize = 0;
    assert(ls.skip(0) =~= ls);
    while i < lines.len()
        invariant
            0 <= i <= lines.len(),
            ls == lines.deep_view(),
            ls == lines_seq(proc_mounts@),
            ({
                let (rest, err) = spec_unmount_plan(ls.skip(i as int), no_init);
                spec_unmount_plan(ls, no_init) == (strings(targets@) + rest, err)
            }),
        decreases lines.len() - i,
    {
        let ghost rest = ls.skip(i as int);
        assert(rest[0] == lines[i as int]@);
        assert(rest.drop_first() =~= ls.skip(i + 1));
        let w = split_words(lines[i].as_str());
        if w.len() < 2 {
            let e = Error::ProcFs.trace("Missing mountpoint specifier in /proc/mounts");
            assert(strings(targets@) + Seq::<Seq<char>>::empty() =~= strings(targets@));
            return (targets, Some(e));
        }
        let m = w[1].as_str();
        if no_init && !starts_with(m, "/run/kickit/") {
        } else if system_mount(m) {
        } else {
            let ghost before = strings(targets@);
            targets.push(w[1].clone());
            proof {
                assert(strings(targets@) =~= before.push(m@));
                let (r2, e2) = spec_unmount_plan(ls.skip(i + 1), no_init);
                assert(before + (seq![m@] + r2) =~= before.push(m@) + r2);
            }
        }
        i = i + 1;
    }
    proof {
        assert(ls.skip(i as int) =~= Seq::<Seq<char>>::empty());
        assert(strings(targets@) + Seq::<Seq<char>>::empty() =~= strings(targets@));
    }
    (targets, None)
}

/// The system's pseudo filesystems, named one by one
pub open spec fn pseudo_filesystem(m: Seq<char>) -> bool {
    ||| m == "/dev"@
    ||| m == "/dev/pts"@
    ||| m == "/proc"@
    ||| m == "/sys"@
    ||| m == "/sys/fs/cgroup"@
    ||| m == "/run"@
}

/// Whether `m` is the mountpoint (second field) of one of `lines`
pub open spec fn listed_mountpoint(lines: Seq<Seq<char>>, m: Seq<char>) -> bool {
    exists|j: int| 0 <= j < lines.len() && words(#[trigger] lines[j]).len() >= 2 && words(lines[j])[1] == m
}

/// A power-off never unmounts `/dev`, `/dev/pts`, `/proc`, `/sys`,
/// `/sys/fs/cgroup` or `/run`, whatever `/proc/mounts` holds; every
/// filesystem it does unmount is the mountpoint (second field) of one of its
/// lines, and without the init process it is one of kickit's own, under
/// `/run/kickit/`.
pub proof fn law_unmount_spares_system(lines: Seq<Seq<char>>, no_init: bool)
    ensures
        forall|i: int| 0 <= i < spec_unmount_plan(lines, no_init).0.len() ==> !pseudo_filesystem(
            #[trigger] spec_unmount_plan(lines, no_init).0[i],
        ),
        forall|i: int| 0 <= i < spec_unmount_plan(lines, no_init).0.len() ==> listed_mountpoint(
            lines,
            #[trigger] spec_unmount_plan(lines, no_init).0[i],
        ),
        no_init ==> forall|i: int| 0 <= i < spec_unmount_plan(lines, no_init).0.len() ==> is_prefix(
            "/run/kickit/"@,
            #[trigger] spec_unmount_plan(lines, no_init).0[i],
        ),
    decreases lines.len(),
{
    if lines.len() > 0 {
        let rest = lines.drop_first();
        law_unmount_spares_system(rest, no_init);
        let (tail, _) = spec_unmount_plan(rest, no_init);
        let plan = spec_unmount_plan(lines, no_init).0;
        match spec_mount_line(lines[0], no_init) {
            Err(_) => {},
            Ok(found) => {
                let off: int = if found is Some { 1 } else { 0 };
                assert forall|i: int| 0 <= i < plan.len() implies listed_mountpoint(lines, #[trigger] plan[i]) by {
                    if i < off {
                        assert(words(lines[0])[1] == plan[i]);
                        assert(words(lines[0]).len() >= 2);
                    } else {
                        assert(plan[i] == tail[i - off]);
                        assert(listed_mountpoint(rest, tail[i - off]));
                        let j = choose|j: int|
                            0 <= j < rest.len() && words(#[trigger] rest[j]).len() >= 2 && words(rest[j])[1]
                                == tail[i - off];
                        assert(lines[j + 1] == rest[j]);
                    }
                }
                assert forall|i: int| 0 <= i < plan.len() implies !pseudo_filesystem(#[trigger] plan[i]) by {
                    if i >= off {
                        assert(plan[i] == tail[i - off]);
                    }
                }
                if no_init {
                    assert forall|i: int| 0 <= i < plan.len() implies is_prefix("/run/kickit/"@, #[trigger] plan[i]) by {
                        if i >= off {
                            assert(plan[i] == tail[i - off]);
                        }
                    }
                }
            },
        }
    }
}

} // verus!
