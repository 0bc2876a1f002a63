use isolate::config::{Action, ChildPlan, Config, IdMap, Namespace, Progress, Step};
use isolate::error::ErrorKind;
use isolate::mount::{Mount, MountFlags, MsFlag};

fn empty_config() -> Config {
    Config {
        namespaces: Vec::new(),
        uid: None,
        gid: None,
        uid_map: Vec::new(),
        gid_map: Vec::new(),
        mounts: Vec::new(),
        hostname: None,
        chroot_dir: None,
        working_dir: None,
    }
}

#[test]
fn uses_root_false_when_nothing_privileged() {
    let mut c = empty_config();
    c.uid = Some(1000);
    c.gid = Some(1000);
    c.namespaces = vec![Namespace::User, Namespace::Pid];
    assert!(!c.uses_root());
}

#[test]
fn uses_root_for_each_privileged_field() {
    let mut c = empty_config();
    c.hostname = Some("box".to_string());
    assert!(c.uses_root());

    let mut c = empty_config();
    c.chroot_dir = Some("/jail".to_string());
    assert!(c.uses_root());

    let mut c = empty_config();
    c.mounts = vec![Mount::shared("/")];
    assert!(c.uses_root());
}

#[test]
fn unprivileged_launch_gets_configured_ids() {
    let mut c = empty_config();
    c.uid = Some(1000);
    c.gid = Some(100);
    c.namespaces = vec![Namespace::User];
    c.uid_map = vec![IdMap { inside: 0, outside: 1000, count: 1 }];
    let plan = c.unshare(None, Some("/usr/bin/newgidmap".to_string()));
    assert_eq!(plan.uid, Some(1000));
    assert_eq!(plan.gid, Some(100));
    assert_eq!(plan.namespaces, vec![Namespace::User]);
    assert_eq!(plan.uid_map, vec![IdMap { inside: 0, outside: 1000, count: 1 }]);
    assert!(plan.gid_map.is_empty());
    assert!(plan.id_map_commands.is_none());

    let mut c = empty_config();
    c.uid = Some(1000);
    c.gid = Some(100);
    c.working_dir = Some("/tmp".to_string());
    let steps = c.configure().steps;
    assert_eq!(steps.len(), 1);
    assert!(matches!(&steps[0], Step::EnterWorkingDir(w) if w == "/tmp"));
}

#[test]
fn privileged_launch_starts_as_root() {
    let mut c = empty_config();
    c.uid = Some(1000);
    c.gid = Some(100);
    c.hostname = Some("box".to_string());
    let plan = c.unshare(
        Some("/usr/bin/newuidmap".to_string()),
        Some("/usr/bin/newgidmap".to_string()),
    );
    assert_eq!(plan.uid, Some(0));
    assert_eq!(plan.gid, Some(0));
    assert_eq!(
        plan.id_map_commands,
        Some(("/usr/bin/newuidmap".to_string(), "/usr/bin/newgidmap".to_string()))
    );
}

#[test]
fn launch_without_ids_sets_none() {
    let c = empty_config();
    let plan = c.unshare(None, None);
    assert_eq!(plan.uid, None);
    assert_eq!(plan.gid, None);
}

#[test]
fn implied_flags_of_each_variant() {
    assert_eq!(Mount::bind("/a", "/b").flags(), vec![MsFlag::Bind]);
    assert_eq!(Mount::recursive_bind("/a", "/b").flags(), vec![MsFlag::Bind, MsFlag::Rec]);
    assert_eq!(Mount::remount("/b").flags(), vec![MsFlag::Remount]);
    assert_eq!(Mount::shared("/b").flags(), vec![MsFlag::Shared]);
    assert_eq!(Mount::private("/b").flags(), vec![MsFlag::Private]);
    assert_eq!(Mount::slave("/b").flags(), vec![MsFlag::Slave]);
    assert_eq!(Mount::unbindable("/b").flags(), vec![MsFlag::Unbindable]);
    assert_eq!(Mount::relocate("/a", "/b").flags(), vec![MsFlag::Move]);
    assert_eq!(Mount::new("/dev/sda1", "/mnt", "ext4").flags(), Vec::<MsFlag>::new());
}

#[test]
fn explicit_flags_come_before_implied_ones() {
    let m = Mount::bind("/a", "/b")
        .add_flag(MountFlags::ReadOnly)
        .add_flag(MountFlags::NoExecute);
    assert_eq!(m.flags(), vec![MsFlag::Rdonly, MsFlag::Noexec, MsFlag::Bind]);
    let m = Mount::remount("/home").add_flag(MountFlags::Bind).add_flag(MountFlags::ReadOnly);
    assert_eq!(m.flags(), vec![MsFlag::Bind, MsFlag::Rdonly, MsFlag::Remount]);
}

#[test]
fn each_option_maps_to_its_bit() {
    let pairs = [
        (MountFlags::Bind, MsFlag::Bind),
        (MountFlags::SynchronousDirectories, MsFlag::Dirsync),
        (MountFlags::MandatoryLock, MsFlag::Mandlock),
        (MountFlags::NoAccessTime, MsFlag::Noatime),
        (MountFlags::NoDevices, MsFlag::Nodev),
        (MountFlags::NoDirectoryAccessTime, MsFlag::Nodiratime),
        (MountFlags::NoExecute, MsFlag::Noexec),
        (MountFlags::NoSuid, MsFlag::Nosuid),
        (MountFlags::ReadOnly, MsFlag::Rdonly),
        (MountFlags::RelativeAccessTime, MsFlag::Relatime),
        (MountFlags::Silent, MsFlag::Silent),
        (MountFlags::StrictAccessTime, MsFlag::Strictatime),
        (MountFlags::Synchronous, MsFlag::Synchronous),
    ];
    for (f, b) in pairs {
        assert_eq!(f.ms_flag(), b);
    }
}

#[test]
fn constructors_fill_the_fields() {
    let m = Mount::new("/dev/sda1", "/mnt", "ext4");
    assert_eq!(m.source().map(|s| s.as_str()), Some("/dev/sda1"));
    assert_eq!(m.target(), "/mnt");
    assert_eq!(m.filesystem_type().map(|s| s.as_str()), Some("ext4"));
    assert!(!m.should_make_dir());

    let m = Mount::remount("/home");
    assert!(m.source().is_none());
    assert!(m.filesystem_type().is_none());
    assert_eq!(m.target(), "/home");

    let m = Mount::relocate("/old", "/new");
    assert_eq!(m.source().map(|s| s.as_str()), Some("/old"));
    assert!(m.filesystem_type().is_none());
}

#[test]
fn make_target_dir_only_where_there_is_a_target_to_make() {
    assert!(Mount::bind("/a", "/b").make_target_dir().should_make_dir());
    assert!(Mount::new("/a", "/b", "tmpfs").make_target_dir().should_make_dir());
    assert!(Mount::recursive_bind("/a", "/b").make_target_dir().should_make_dir());
    assert!(Mount::relocate("/a", "/b").make_target_dir().should_make_dir());
    let m = Mount::private("/b").make_target_dir();
    assert!(!m.should_make_dir());
    assert!(matches!(m, Mount::Private { .. }));
    let m = Mount::bind("/a", "/b").add_flag(MountFlags::ReadOnly).make_target_dir();
    assert_eq!(m.flags(), vec![MsFlag::Rdonly, MsFlag::Bind]);
    assert_eq!(m.target(), "/b");
}

#[test]
fn mount_call_of_a_new_mount() {
    let call = Mount::new("proc", "/jail/proc", "proc").add_flag(MountFlags::NoSuid).mount();
    assert!(!call.make_target_dir);
    assert_eq!(call.source.as_deref(), Some("proc"));
    assert_eq!(call.target, "/jail/proc");
    assert_eq!(call.filesystem_type.as_deref(), Some("proc"));
    assert_eq!(call.flags, vec![MsFlag::Nosuid]);

    let call = Mount::slave("/").mount();
    assert!(call.source.is_none());
    assert!(call.filesystem_type.is_none());
    assert_eq!(call.flags, vec![MsFlag::Slave]);
}

#[test]
fn setup_runs_in_order() {
    let mut c = empty_config();
    c.hostname = Some("box".to_string());
    c.mounts = vec![Mount::bind("/lib", "/jail/lib"), Mount::private("/jail")];
    c.chroot_dir = Some("/jail".to_string());
    c.working_dir = Some("/home".to_string());
    c.gid = Some(100);
    c.uid = Some(1000);
    let plan = c.configure();
    assert!(plan.rejection.is_none());
    let s = &plan.steps;
    assert_eq!(s.len(), 7);
    assert!(matches!(&s[0], Step::SetHostName(h) if h == "box"));
    assert!(matches!(&s[1], Step::ApplyMount(Mount::Bind { .. })));
    assert!(matches!(&s[2], Step::ApplyMount(Mount::Private { .. })));
    assert!(matches!(&s[3], Step::EnterChroot(d) if d == "/jail"));
    assert!(matches!(&s[4], Step::EnterWorkingDir(d) if d == "/home"));
    assert!(matches!(&s[5], Step::SetGroup(100)));
    assert!(matches!(&s[6], Step::SetUser(1000)));
}

#[test]
fn relative_workdir_with_chroot_is_rejected() {
    let mut c = empty_config();
    c.mounts = vec![Mount::private("/")];
    c.chroot_dir = Some("/jail".to_string());
    c.working_dir = Some("home".to_string());
    c.uid = Some(1000);
    let plan = c.configure();
    assert_eq!(plan.rejection, Some(ErrorKind::RelativeWorkingDir));
    assert_eq!(plan.steps.len(), 2);
    assert!(matches!(&plan.steps[1], Step::EnterChroot(_)));

    let mut p = Progress::start();
    assert_eq!(plan.next_action(&p), Action::Perform(0));
    plan.record(&mut p, true);
    assert_eq!(plan.next_action(&p), Action::Perform(1));
    plan.record(&mut p, true);
    assert_eq!(plan.next_action(&p), Action::Fail(ErrorKind::RelativeWorkingDir));
}

#[test]
fn relative_workdir_without_chroot_is_accepted() {
    let mut c = empty_config();
    c.working_dir = Some("sub".to_string());
    let plan = c.configure();
    assert!(plan.rejection.is_none());
    assert!(matches!(&plan.steps[0], Step::EnterWorkingDir(d) if d == "sub"));
}

#[test]
fn bind_into_jail_then_chroot() {
    let mut c = empty_config();
    c.mounts = vec![Mount::bind("/lib", "/jail/lib").make_target_dir()];
    c.chroot_dir = Some("/jail".to_string());
    let plan = c.configure();
    assert!(plan.rejection.is_none());
    assert_eq!(plan.steps.len(), 2);
    match &plan.steps[0] {
        Step::ApplyMount(m) => {
            let call = m.mount();
            assert!(call.make_target_dir);
            assert_eq!(call.source.as_deref(), Some("/lib"));
            assert_eq!(call.target, "/jail/lib");
            assert!(call.filesystem_type.is_none());
            assert_eq!(call.flags, vec![MsFlag::Bind]);
        }
        _ => panic!("first step is not a mount"),
    }
    assert!(matches!(&plan.steps[1], Step::EnterChroot(d) if d == "/jail"));
}

#[test]
fn run_stops_at_first_failed_mount() {
    let plan = ChildPlan {
        steps: vec![
            Step::ApplyMount(Mount::private("/")),
            Step::ApplyMount(Mount::bind("/missing", "/jail/x")),
            Step::ApplyMount(Mount::shared("/jail")),
        ],
        rejection: None,
    };
    let mut p = Progress::start();
    assert_eq!(plan.next_action(&p), Action::Perform(0));
    plan.record(&mut p, true);
    assert_eq!(plan.next_action(&p), Action::Perform(1));
    plan.record(&mut p, false);
    assert_eq!(plan.next_action(&p), Action::Fail(ErrorKind::SetMount));
    assert_eq!(p.done, 1);
    assert_eq!(p.failure, Some(ErrorKind::SetMount));
}

#[test]
fn run_finishes_when_every_step_succeeds() {
    let plan = ChildPlan { steps: vec![Step::SetHostName("box".to_string())], rejection: None };
    let mut p = Progress::start();
    plan.record(&mut p, true);
    assert_eq!(plan.next_action(&p), Action::Finish);
}

#[test]
fn step_errors() {
    assert_eq!(Step::SetHostName("h".to_string()).error(), ErrorKind::SetHostName);
    assert_eq!(Step::ApplyMount(Mount::shared("/")).error(), ErrorKind::SetMount);
    assert_eq!(Step::EnterChroot("/j".to_string()).error(), ErrorKind::EnterChroot);
    assert_eq!(Step::EnterWorkingDir("/w".to_string()).error(), ErrorKind::EnterWorkingDir);
    assert_eq!(Step::SetGroup(1).error(), ErrorKind::SetUser);
    assert_eq!(Step::SetUser(1).error(), ErrorKind::SetUser);
}

#[test]
fn privilege_drop_only_after_root_launch() {
    let mut c = empty_config();
    c.chroot_dir = Some("/jail".to_string());
    c.uid = Some(7);
    let plan = c.configure();
    assert_eq!(plan.steps.len(), 2);
    assert!(matches!(&plan.steps[1], Step::SetUser(7)));
}
