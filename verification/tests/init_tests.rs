use kickit::init::cmdline;
use kickit::init::console::Error;
use kickit::init::mount::{Flag, Flags, UnmountFlag, UnmountFlags, Opts, mounted, LookupKind, FstabSource, parse_fstab_line, fstab_flags_fit};
use kickit::init::power::{pid_from_file, unmount_plan, next_attempt, Attempt};
use kickit::init::target::{Config as TargetConfig, source};
use kickit::init::kickit::{
    no_init_pid, sanity, quiet, target_name, setup_run_fs, RunFsStep, mountSysFilesystems, SysMount, start_decision, assess,
    Assessment,
};
use kickit::init::service::{Pattern, State, cache_bytes, supervise_result, SupervisedExit};
use nix::mount::{MsFlags, MntFlags};

#[test]
fn cmdline_finds_values_and_bare_parameters() {
    let line = "root=/dev/sda1 quiet init.target=rescue splash\n";
    assert_eq!(cmdline(line, "init.target").unwrap(), Some("rescue".to_string()));
    assert_eq!(cmdline(line, "quiet").unwrap(), None);
    assert_eq!(cmdline(line, "root").unwrap(), Some("/dev/sda1".to_string()));
    let e = cmdline(line, "nothing").unwrap_err();
    assert_eq!(e.kind, Error::Cmdline);
    assert_eq!(e.trace, "nothing");
    // The last parameter is found without the kernel's line feed
    assert_eq!(cmdline(line, "splash").unwrap(), None);
    assert_eq!(cmdline("a=1\n", "a").unwrap(), Some("1".to_string()));
}

#[test]
fn mount_flags_are_the_kernels() {
    assert_eq!(Flag::ReadOnly.value(), MsFlags::MS_RDONLY.bits() as u64);
    assert_eq!(Flag::NoSuid.value(), MsFlags::MS_NOSUID.bits() as u64);
    assert_eq!(Flag::NoDev.value(), MsFlags::MS_NODEV.bits() as u64);
    assert_eq!(Flag::NoExec.value(), MsFlags::MS_NOEXEC.bits() as u64);
    assert_eq!(Flag::Remount.value(), MsFlags::MS_REMOUNT.bits() as u64);
    assert_eq!(Flag::Bind.value(), MsFlags::MS_BIND.bits() as u64);
    assert_eq!(Flag::Private.value(), MsFlags::MS_PRIVATE.bits() as u64);
    assert_eq!(UnmountFlag::Force.value(), MntFlags::MNT_FORCE.bits());
    assert_eq!(UnmountFlag::Lazy.value(), MntFlags::MNT_DETACH.bits());
    assert_eq!(UnmountFlags::of(&[UnmountFlag::Lazy]).bits(), 2);
    assert_eq!(Flags::of(&[Flag::NoSuid, Flag::NoDev, Flag::NoExec]).bits(), 14);
    assert_eq!(Flags::default().bits(), 0);
}

#[test]
fn mount_flag_names_round_trip() {
    for f in [Flag::ReadOnly, Flag::NoSuid, Flag::NoDev, Flag::NoExec, Flag::Remount, Flag::Bind, Flag::Private] {
        assert_eq!(Flag::from_name(f.name()), Some(f));
    }
    let e = Flag::try_from_name("noatime").unwrap_err();
    assert_eq!(e.trace, "Unrecognised mount flag: noatime");
}

#[test]
fn options_join_with_commas() {
    let mut o = Opts::new();
    assert!(o.clone().empty_none().is_none());
    o.push("size=10M".to_string());
    o.push("mode=755".to_string());
    assert_eq!(o.join(), "size=10M,mode=755");
    assert_eq!(o.to_text(), "size=10M,mode=755");
}

#[test]
fn proc_mounts_are_searched_by_mountpoint() {
    let m = "proc /proc proc rw 0 0\ntmpfs /run tmpfs rw 0 0\n";
    assert!(mounted(m, "/run"));
    assert!(!mounted(m, "/tmp"));
}

#[test]
fn fstab_lines_are_read() {
    assert!(parse_fstab_line("# comment").unwrap().is_none());
    let line = "UUID=abcd / ext4 ro,noatime,defaults 0 1";
    assert!(fstab_flags_fit(line));
    let e = parse_fstab_line(line).unwrap().unwrap();
    assert!(matches!(e.source, FstabSource::Lookup(LookupKind::Uuid, ref id) if id == "abcd"));
    assert_eq!(e.dest, "/");
    assert_eq!(e.fs_type, Some("ext4".to_string()));
    assert_eq!(e.flags.bits(), Flag::ReadOnly.value());
    assert_eq!(e.opts.unwrap().0, vec!["noatime".to_string()]);
    let e = parse_fstab_line("none /tmp tmpfs nosuid 0 0").unwrap().unwrap();
    assert!(matches!(e.source, FstabSource::Infer));
    assert_eq!(e.fs_type, Some("tmpfs".to_string()));
    assert!(e.opts.is_none());
    let e = parse_fstab_line("/dev/sda2 /home auto defaults 0 2").unwrap().unwrap();
    assert!(matches!(e.source, FstabSource::Path(ref p) if p == "/dev/sda2"));
    assert_eq!(e.fs_type, None);
    let bad = parse_fstab_line("only three fields").unwrap_err();
    assert_eq!(bad.kind, Error::FstabParse);
    assert_eq!(bad.trace, "Expected a line with 6 elements, but found 3");
    let bad = parse_fstab_line("SERIAL=x /mnt ext4 defaults 0 0").unwrap_err();
    assert_eq!(bad.trace, "Unknown lookup type: SERIAL");
}

#[test]
fn device_lookups() {
    assert_eq!(LookupKind::from_key("PARTUUID"), Some(LookupKind::PartUuid));
    assert_eq!(
        LookupKind::Label.candidates("root"),
        ("/dev/disk/by-label/root".to_string(), "/dev/block/by-label/root".to_string())
    );
    assert_eq!(LookupKind::Id.not_found("x").trace, "Lookup id=x failed, no target was found!");
}

#[test]
fn pid_files_hold_four_bytes() {
    assert_eq!(pid_from_file(&[0x39, 0x05, 0, 0], "svc").unwrap(), 1337);
    let e = pid_from_file(&[1, 2, 3], "svc").unwrap_err();
    assert_eq!(e.kind, Error::Format);
    assert_eq!(e.context, Some("svc".to_string()));
    assert_eq!(e.trace, "Bad pid contents!");
}

#[test]
fn poweroff_unmounts_all_but_system_filesystems() {
    let m = "proc /proc proc rw 0 0\n/dev/sda1 / ext4 rw 0 0\n/dev/sdb1 /home ext4 rw 0 0\ntmpfs /run/kickit/x tmpfs rw 0 0\n";
    let (targets, err) = unmount_plan(m, false);
    assert!(err.is_none());
    assert_eq!(targets, vec!["/".to_string(), "/home".to_string(), "/run/kickit/x".to_string()]);
    let (targets, _) = unmount_plan(m, true);
    assert_eq!(targets, vec!["/run/kickit/x".to_string()]);
    let (targets, err) = unmount_plan("a /mnt\nbroken\n", false);
    assert_eq!(targets, vec!["/mnt".to_string()]);
    assert_eq!(err.unwrap().trace, "Missing mountpoint specifier in /proc/mounts");
}

#[test]
fn targets_take_defaults() {
    let cfg = TargetConfig { services: Some(vec!["a".to_string()]), hostname: None, debug_dump: None, service_timeout: None };
    let t = source("system".to_string(), cfg).unwrap();
    assert_eq!(t.name, "system");
    assert_eq!(t.hostname, "localhost");
    assert_eq!(t.serviceTimeout, 5);
    assert!(!t.debugDump);
    let cfg = TargetConfig { services: None, hostname: Some("box".to_string()), debug_dump: Some(true), service_timeout: Some(9) };
    let e = source("test".to_string(), cfg).unwrap_err();
    assert_eq!(e.kind, Error::TargetMissingValue);
    assert_eq!(e.trace, "services missing from test");
}

#[test]
fn start_up_checks() {
    assert_eq!(no_init_pid(&vec!["kickit".to_string(), "--no-init".to_string()], 77), Some(77));
    assert_eq!(no_init_pid(&vec!["kickit".to_string()], 77), None);
    assert_eq!(sanity(true, true, Some(None), 1, false).unwrap_err().kind, Error::AlreadyRunning);
    assert_eq!(sanity(false, false, Some(None), 1, false).unwrap_err().kind, Error::NotRoot);
    assert_eq!(sanity(false, true, Some(None), 5, false).unwrap_err().kind, Error::NotInit);
    assert_eq!(sanity(false, true, Some(None), 1, false).unwrap(), false);
    assert_eq!(sanity(false, true, Some(None), 5, true).unwrap(), true);
    assert_eq!(sanity(false, true, Some(Some(5)), 5, false).unwrap(), false);
    assert!(quiet(&Ok(None), None));
    assert!(!quiet(&Ok(None), Some(3)));
    assert!(!quiet(&Ok(Some("1".to_string())), None));
    assert_eq!(target_name(Ok(Some("rescue".to_string()))).unwrap(), "rescue");
    assert_eq!(target_name(Err(Error::Cmdline.trace("init.target"))).unwrap(), "system");
    assert_eq!(target_name(Ok(None)).unwrap_err().kind, Error::BadCmdline);
}

#[test]
fn work_directory_steps() {
    let steps = setup_run_fs(&["sshd".to_string()], false, true, 0);
    assert_eq!(steps.len(), 5);
    assert!(matches!(&steps[0], RunFsStep::CreateDir(p) if p == "/run/kickit"));
    assert!(matches!(&steps[3], RunFsStep::SetMode(p, 0o600) if p == "/run/kickit/private"));
    assert!(matches!(&steps[4], RunFsStep::CreateDir(p) if p == "/run/kickit/service/sshd"));
    let steps = setup_run_fs(&[], true, true, 1700000000123);
    assert!(matches!(&steps[0], RunFsStep::CreateDirAll(p) if p == "/var/lib/kickit/1700000000123"));
    assert!(matches!(&steps[1], RunFsStep::Symlink(t, l) if t == "/var/lib/kickit/1700000000123" && l == "/run/kickit"));
    assert_eq!(setup_run_fs(&[], true, false, 0).len(), 3);
}

#[test]
fn system_filesystems_in_order() {
    let m = mountSysFilesystems();
    let targets: Vec<&str> = m.iter().map(|x| x.target).collect();
    assert_eq!(targets, vec!["/proc", "/sys", "/dev", "/run", "/tmp", "/"]);
    assert_eq!(m[1].fs_type, Some("sysfs"));
    assert_eq!(m[2].fs_type, Some("devtmpfs"));
    assert_eq!(m[0].flags.bits(), 14);
    assert_eq!(m[5].source, None);
    assert_eq!(m[5].flags.bits(), (MsFlags::MS_PRIVATE | MsFlags::MS_REMOUNT).bits() as u64);
    assert!(SysMount::needs_mount(false, true));
    assert!(SysMount::needs_mount(true, false));
    assert!(!SysMount::needs_mount(true, true));
}

#[test]
fn started_services_are_kept_when_standard() {
    let p = start_decision(Ok(()), false, Pattern::Standard).unwrap();
    assert!(p.watch_log && p.supervise && p.keep && p.warning.is_none());
    let p = start_decision(Ok(()), false, Pattern::RunOnce).unwrap();
    assert!(!p.watch_log && !p.supervise && !p.keep);
    let p = start_decision(Ok(()), false, Pattern::Forking).unwrap();
    assert!(p.watch_log && !p.supervise && !p.keep);
    let p = start_decision(Err(Error::ServiceUp.trace("x")), true, Pattern::Forking).unwrap();
    assert_eq!(p.warning.unwrap().trace, "x");
    assert_eq!(start_decision(Err(Error::ServiceUp.trace("x")), false, Pattern::Standard).unwrap_err().kind, Error::ServiceUp);
    assert!(matches!(assess(Ok::<u8, _>(1), false), Assessment::Value(1)));
    assert!(matches!(assess::<u8>(Err(Error::Unknown.traceless()), true), Assessment::Warn(_)));
    assert!(matches!(assess::<u8>(Err(Error::Unknown.traceless()), false), Assessment::Fatal(_)));
}

#[test]
fn caches_hold_pattern_pid_and_status() {
    assert_eq!(cache_bytes(Pattern::Standard, true, State::Up, 0x01020304), vec![0xa4, 1, 4, 3, 2, 1, 0, 0, 0, 0, 0]);
    assert_eq!(cache_bytes(Pattern::RunOnce, false, State::Dead(Some(-1)), 0), vec![0xe9, 0, 0, 0, 0, 0, 1, 0xff, 0xff, 0xff, 0xff]);
}

#[test]
fn supervisors_report_deaths_unless_powering_off() {
    let e = supervise_result("sshd", SupervisedExit::Exited(Some(3)), false).unwrap_err();
    assert_eq!(e.kind, Error::ServiceDown);
    assert_eq!(e.trace, "Service sshd has died: 3");
    let e = supervise_result("sshd", SupervisedExit::Exited(None), false).unwrap_err();
    assert_eq!(e.trace, "Service sshd has died: code is unavailable!");
    let e = supervise_result("sshd", SupervisedExit::WaitFailed("io".to_string()), false).unwrap_err();
    assert_eq!(e.context, Some("sshd".to_string()));
    assert!(supervise_result("sshd", SupervisedExit::Exited(Some(0)), true).is_ok());
}

#[test]
fn power_off_forces_only_after_a_gentle_failure() {
    assert_eq!(next_attempt(None), Some(Attempt::Gentle));
    assert_eq!(next_attempt(Some((Attempt::Gentle, true))), Some(Attempt::Forced));
    assert_eq!(next_attempt(Some((Attempt::Gentle, false))), None);
    assert_eq!(next_attempt(Some((Attempt::Forced, true))), None);
    assert_eq!(next_attempt(Some((Attempt::Forced, false))), None);
}
