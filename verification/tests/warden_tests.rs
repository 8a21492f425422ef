use kickit::init::warden::{
    NsFlag, NsFlags, parse_args, Invocation, list_flags, fatal_line, warn_line, Sandbox, BindMounts, Arch, SandboxStep,
    MS_BIND, MS_REC, MS_SILENT, MS_PRIVATE, MS_RDONLY, MS_NOSUID, MS_NODEV, MS_NOEXEC, BIND_FLAGS, SYS_FLAGS, TMP_FLAGS,
    Error, StandardizeError,
};
use nix::sched::CloneFlags;
use kickit::init::service::{Sandbox as Options, PathKind, warden_args};
use nix::mount::MsFlags;

fn args(v: &[&str]) -> Vec<String> {
    v.iter().map(|s| s.to_string()).collect()
}

#[test]
fn flags_are_the_kernels() {
    let pairs = [
        (NsFlag::ShareVm, CloneFlags::CLONE_VM),
        (NsFlag::ShareVSem, CloneFlags::CLONE_SYSVSEM),
        (NsFlag::ShareFs, CloneFlags::CLONE_FS),
        (NsFlag::ShareFiles, CloneFlags::CLONE_FILES),
        (NsFlag::ShareSignalHandler, CloneFlags::CLONE_SIGHAND),
        (NsFlag::ShareUntraced, CloneFlags::CLONE_UNTRACED),
        (NsFlag::SharePTrace, CloneFlags::CLONE_PTRACE),
        (NsFlag::ShareVFork, CloneFlags::CLONE_VFORK),
        (NsFlag::ShareParent, CloneFlags::CLONE_PARENT),
        (NsFlag::ShareThread, CloneFlags::CLONE_THREAD),
        (NsFlag::ShareIo, CloneFlags::CLONE_IO),
        (NsFlag::NewMount, CloneFlags::CLONE_NEWNS),
        (NsFlag::NewCGroup, CloneFlags::CLONE_NEWCGROUP),
        (NsFlag::NewUts, CloneFlags::CLONE_NEWUTS),
        (NsFlag::NewIpc, CloneFlags::CLONE_NEWIPC),
        (NsFlag::NewUser, CloneFlags::CLONE_NEWUSER),
        (NsFlag::NewPid, CloneFlags::CLONE_NEWPID),
        (NsFlag::NewNetwork, CloneFlags::CLONE_NEWNET),
    ];
    for (f, c) in pairs {
        assert_eq!(f.bits(), c.bits());
    }
    assert_eq!(NsFlag::all().len(), 18);
}

#[test]
fn warden_mount_flags_are_the_kernels() {
    assert_eq!(MS_RDONLY, MsFlags::MS_RDONLY.bits() as u64);
    assert_eq!(MS_NOSUID, MsFlags::MS_NOSUID.bits() as u64);
    assert_eq!(MS_NODEV, MsFlags::MS_NODEV.bits() as u64);
    assert_eq!(MS_NOEXEC, MsFlags::MS_NOEXEC.bits() as u64);
    assert_eq!(MS_BIND, MsFlags::MS_BIND.bits() as u64);
    assert_eq!(MS_REC, MsFlags::MS_REC.bits() as u64);
    assert_eq!(MS_SILENT, MsFlags::MS_SILENT.bits() as u64);
    assert_eq!(MS_PRIVATE, MsFlags::MS_PRIVATE.bits() as u64);
    let bind = MsFlags::MS_BIND | MsFlags::MS_PRIVATE | MsFlags::MS_RDONLY | MsFlags::MS_SILENT | MsFlags::MS_REC;
    assert_eq!(BIND_FLAGS, bind.bits() as u64);
    let sys = MsFlags::MS_BIND | MsFlags::MS_PRIVATE | MsFlags::MS_NOSUID | MsFlags::MS_NOEXEC | MsFlags::MS_SILENT;
    assert_eq!(SYS_FLAGS, sys.bits() as u64);
    assert_eq!(TMP_FLAGS, (MsFlags::MS_NOSUID | MsFlags::MS_NODEV).bits() as u64);
}

#[test]
fn flag_names_round_trip() {
    for f in NsFlag::all() {
        assert_eq!(NsFlag::new(f.name()), Some(f));
    }
    assert_eq!(NsFlag::new("NewNet"), None);
}

#[test]
fn flags_add_up() {
    let mut f = NsFlags::default();
    f.push(NsFlag::NewPid);
    f.push(NsFlag::NewUts);
    assert_eq!(f.bits(), 0x20000000 + 0x4000000);
    assert_eq!(NsFlags::of(&[NsFlag::NewPid, NsFlag::NewUts]), f);
    assert!(NsFlags::fits(&[NsFlag::NewNetwork, NsFlag::ShareIo]));
    assert!(!NsFlags::fits(&[NsFlag::NewNetwork, NsFlag::NewNetwork]));
    assert!(!NsFlags::fits(&[NsFlag::ShareIo, NsFlag::ShareIo]));
}

#[test]
fn arguments_are_read() {
    assert!(matches!(parse_args(&args(&[])).unwrap(), Invocation::Usage));
    assert!(matches!(parse_args(&args(&["-h", "x"])).unwrap(), Invocation::Usage));
    assert!(matches!(parse_args(&args(&["--list"])).unwrap(), Invocation::ListFlags));
    match parse_args(&args(&["-S", "-d", "-f", "NewPid", "-b", "etc/hosts", "-B", "etc/ssl", "/root", "/bin/sh", "-c", "x"])).unwrap() {
        Invocation::Run(r) => {
            assert_eq!(r.root, "/root");
            assert_eq!(r.program, "/bin/sh");
            assert_eq!(r.args, args(&["-c", "x"]));
            assert_eq!(r.bind.files, args(&["etc/hosts"]));
            assert_eq!(r.bind.dirs, args(&["etc/ssl"]));
            assert_eq!(r.flags, vec![NsFlag::NewPid]);
            assert!(r.mount_system_fs && r.link_dbus);
        },
        _ => panic!("a program is run"),
    }
}

#[test]
fn bad_arguments_are_fatal() {
    assert_eq!(parse_args(&args(&["-b"])).unwrap_err(), "Expected an option for this argument!");
    assert_eq!(parse_args(&args(&["-S", "-S", "/r", "x"])).unwrap_err(), "Failed to set an argument's value!");
    assert_eq!(parse_args(&args(&["-f", "Nope", "/r", "x"])).unwrap_err(), "Invalid flag: Nope");
    assert_eq!(parse_args(&args(&["/root"])).unwrap_err(), "Provide an executable!");
}

#[test]
fn warden_messages() {
    assert_eq!(fatal_line("bad"), "warden \x1b[1;31m(error):\x1b[0m \x1b[1mbad\x1b[0m");
    assert_eq!(warn_line("meh"), "warden \x1b[1;33m(warning):\x1b[0m \x1b[1mmeh\x1b[0m");
    let flags = list_flags();
    assert!(flags.starts_with("\x1b[1mFlags:\x1b[0m\n* ShareVm,\n* ShareVSem,\n"));
    assert!(flags.ends_with("* NewPid,\n* NewNetwork\n"));
    let e: Result<u8, Error<&str>> = Err::<u8, &str>("x").errorize();
    assert_eq!(e.unwrap_err().0, "x");
    let ok: Result<u8, &str> = Ok(1);
    assert_eq!(ok.errorize().unwrap(), 1);
}

#[test]
fn sandboxes_are_spawned_step_by_step() {
    let bind = BindMounts { files: args(&["etc/hosts"]), dirs: args(&["etc/ssl"]) };
    let s = Sandbox::new("/c".to_string(), bind, NsFlags::of(&[NsFlag::NewPid]), true, true);
    let steps = s.spawn_here(Arch::X86_64, true);
    assert!(matches!(steps[0], SandboxStep::Unshare(0x20000000)));
    assert!(matches!(&steps[1], SandboxStep::CreateFile(p) if p == "/c/usr/lib/ld-linux-x86-64.so.2"));
    assert!(matches!(&steps[2], SandboxStep::CreateDirAll(p) if p == "/c/etc"));
    assert!(matches!(&steps[3], SandboxStep::CreateFile(p) if p == "/c/etc/hosts"));
    assert!(matches!(&steps[4], SandboxStep::CreateDirAll(p) if p == "/c/etc/ssl"));
    match &steps[5] {
        SandboxStep::Mount(m) => {
            assert_eq!(m.source, "/usr/lib/ld-linux-x86-64.so.2");
            assert_eq!(m.target, "/c/usr/lib/ld-linux-x86-64.so.2");
            assert_eq!(m.flags, BIND_FLAGS);
        },
        _ => panic!("the dynamic linker is bound first"),
    }
    assert!(matches!(&steps[13], SandboxStep::CreateDir(p) if p == "/c/run/dbus"));
    assert!(matches!(&steps[steps.len() - 2], SandboxStep::Chroot(p) if p == "/c"));
    assert!(matches!(steps[steps.len() - 1], SandboxStep::Spawn));
    assert_eq!(steps.len(), 17);
    let without_dbus = s.spawn_here(Arch::Aarch64, false);
    assert_eq!(without_dbus.len(), 15);
    assert_eq!(
        s.cleanup(Arch::X86_64),
        args(&["/run/dbus", "/run", "/tmp", "/sys", "/proc", "/dev", "etc/hosts", "etc/ssl", "/c/usr/lib/ld-linux-x86-64.so.2"])
    );
    assert_eq!(Sandbox::dynamic_ld(Arch::Aarch64), "usr/lib/ld-linux-aarch64.so.1");
}

#[test]
fn warden_reads_what_the_init_asks() {
    let options = Options {
        flags: args(&["NewPid", "ShareIo"]),
        import: args(&["/etc/ssl", "/etc/hosts"]),
        bindSystemFs: Some(true),
        bindDbus: Some(true),
        files: None,
    };
    let given = warden_args(
        &options,
        &[PathKind::Dir, PathKind::File],
        "/run/kickit/service/svc/container",
        &args(&["/usr/bin/svc", "--flag", "x"]).into(),
    )
    .unwrap();
    match parse_args(&given).unwrap() {
        Invocation::Run(r) => {
            assert_eq!(r.root, "/run/kickit/service/svc/container");
            assert_eq!(r.program, "/usr/bin/svc");
            assert_eq!(r.args, args(&["--flag", "x"]));
            assert_eq!(r.bind.dirs, args(&["/etc/ssl"]));
            assert_eq!(r.bind.files, args(&["/etc/hosts"]));
            assert_eq!(r.flags, vec![NsFlag::NewPid, NsFlag::ShareIo]);
            assert!(r.mount_system_fs && r.link_dbus);
        },
        _ => panic!("warden runs the service"),
    }
}

#[test]
fn shared_files_are_read_only_and_the_program_comes_last() {
    let bind = BindMounts { files: args(&["etc/a", "etc/b"]), dirs: args(&["usr/share/x"]) };
    let s = Sandbox::new("/c".to_string(), bind, NsFlags::default(), false, false);
    let steps = s.spawn_here(Arch::X86_64, false);
    let mut binds = 0;
    for step in &steps {
        if let SandboxStep::Mount(m) = step {
            assert_eq!(m.flags & MS_RDONLY, MS_RDONLY);
            assert_eq!(m.flags & MS_BIND, MS_BIND);
            binds += 1;
        }
    }
    assert_eq!(binds, 4);
    assert!(matches!(steps[0], SandboxStep::Unshare(0)));
    assert_eq!(steps.iter().filter(|s| matches!(s, SandboxStep::Unshare(_))).count(), 1);
    assert!(matches!(steps.last(), Some(SandboxStep::Spawn)));
}

#[test]
fn distinct_flags_are_distinct_bits() {
    let all = NsFlag::all();
    for (i, f) in all.iter().enumerate() {
        for g in &all[i + 1..] {
            assert_ne!(f.bits(), g.bits());
            assert_eq!(f.bits() & g.bits(), 0);
        }
    }
}
