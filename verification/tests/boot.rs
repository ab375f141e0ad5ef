use tmpfs_init::boot::{Action, Boot, Outcome};
use tmpfs_init::errors::{CallError, Fatal};
use tmpfs_init::exec::ExecCall;
use tmpfs_init::mount::MountCall;

const MOUNT_LINE: u32 = 85;
const EXEC_LINE: u32 = 106;

/// Stands in for the caller: reports the scripted outcomes one by one and
/// collects every action that the machine hands out.
fn drive(script: &[Outcome]) -> Vec<Action> {
    let mut boot = Boot::new();
    let mut actions = vec![boot.action()];
    for outcome in script {
        actions.push(boot.report(*outcome));
    }
    actions
}

fn good(action: &Action) -> Outcome {
    match action {
        Action::CreateDir { .. } => Outcome::DirCreated,
        Action::Mount { .. } => Outcome::Returned { ret: 0, line: MOUNT_LINE, errno: 0 },
        Action::Exec { .. } => Outcome::Returned { ret: 0, line: EXEC_LINE, errno: 0 },
        Action::Abort { .. } => Outcome::DirCreated,
    }
}

fn bad(action: &Action, errno: i32) -> Outcome {
    match action {
        Action::CreateDir { .. } => Outcome::DirFailed,
        Action::Mount { .. } => Outcome::Returned { ret: -1, line: MOUNT_LINE, errno },
        Action::Exec { .. } => Outcome::Returned { ret: -1, line: EXEC_LINE, errno },
        Action::Abort { .. } => Outcome::DirFailed,
    }
}

/// A run in which everything succeeds before step `failing`, which fails;
/// `extra` more reports of success follow it.
fn run_failing_at(failing: usize, errno: i32, extra: usize) -> Vec<Action> {
    let mut boot = Boot::new();
    let mut actions = vec![boot.action()];
    for step in 0..=failing + extra {
        let last = &actions[actions.len() - 1];
        let outcome = if step == failing { bad(last, errno) } else { good(last) };
        actions.push(boot.report(outcome));
    }
    actions
}

fn dir(path: &str) -> Action {
    Action::CreateDir { path: path.to_string() }
}

fn mounting(source: &str, target: &str, fstype: &str, flags: u64, data: &str) -> Action {
    Action::Mount {
        call: MountCall {
            source: source.to_string(),
            target: target.to_string(),
            fstype: fstype.to_string(),
            flags,
            data: data.to_string(),
        },
    }
}

fn handoff() -> Action {
    Action::Exec {
        handoff: ExecCall {
            program: "/usr/sbin/chroot".to_string(),
            argv: vec![
                "/usr/sbin/chroot".to_string(),
                "/mnt/tmpfs-init/root/".to_string(),
                "/sbin/init".to_string(),
            ],
        },
    }
}

fn whole_plan() -> Vec<Action> {
    vec![
        dir("/mnt/tmpfs-init"),
        mounting("tmpfs", "/mnt/tmpfs-init", "tmpfs", 0, "size=4G"),
        dir("/mnt/tmpfs-init/work"),
        dir("/mnt/tmpfs-init/write"),
        dir("/mnt/tmpfs-init/root"),
        mounting(
            "overlay",
            "/mnt/tmpfs-init/root",
            "overlay",
            0,
            "lowerdir=/,upperdir=/mnt/tmpfs-init/write,workdir=/mnt/tmpfs-init/work",
        ),
        mounting("/dev", "/mnt/tmpfs-init/root/dev", "bind", 4096, ""),
        mounting("sysfs", "/mnt/tmpfs-init/root/sys", "sysfs", 0, ""),
        mounting("proc", "/mnt/tmpfs-init/root/proc", "proc", 0, ""),
        handoff(),
    ]
}

fn successes(count: usize) -> Vec<Outcome> {
    let plan = whole_plan();
    (0..count).map(|i| good(&plan[i])).collect()
}

#[test]
fn a_new_boot_hands_out_the_first_step() {
    let boot = Boot::new();
    assert!(!boot.is_halted());
    assert_eq!(boot.action(), dir("/mnt/tmpfs-init"));
    assert_eq!(boot.action(), dir("/mnt/tmpfs-init"));
}

#[test]
fn a_run_without_failure_follows_the_whole_plan() {
    assert_eq!(drive(&successes(9)), whole_plan());
}

#[test]
fn a_run_without_failure_makes_five_mounts_in_order() {
    let mounts: Vec<(String, String, String, u64)> = drive(&successes(9))
        .into_iter()
        .filter_map(|action| match action {
            Action::Mount { call } => Some((call.fstype, call.target, call.data, call.flags)),
            _ => None,
        })
        .collect();
    let expected = vec![
        ("tmpfs".to_string(), "/mnt/tmpfs-init".to_string(), "size=4G".to_string(), 0),
        (
            "overlay".to_string(),
            "/mnt/tmpfs-init/root".to_string(),
            "lowerdir=/,upperdir=/mnt/tmpfs-init/write,workdir=/mnt/tmpfs-init/work".to_string(),
            0,
        ),
        ("bind".to_string(), "/mnt/tmpfs-init/root/dev".to_string(), String::new(), 4096),
        ("sysfs".to_string(), "/mnt/tmpfs-init/root/sys".to_string(), String::new(), 0),
        ("proc".to_string(), "/mnt/tmpfs-init/root/proc".to_string(), String::new(), 0),
    ];
    assert_eq!(mounts, expected);
}

#[test]
fn the_bind_mount_carries_the_bind_flag_of_the_system() {
    let actions = drive(&successes(9));
    match &actions[6] {
        Action::Mount { call } => {
            assert_eq!(call.fstype, "bind");
            assert_eq!(call.flags, u64::from(libc::MS_BIND));
        }
        other => panic!("not a mount: {other:?}"),
    }
}

#[test]
fn the_overlay_is_mounted_before_anything_inside_it() {
    let actions = drive(&successes(9));
    let overlay = actions
        .iter()
        .position(|action| {
            matches!(action, Action::Mount { call }
                if call.fstype == "overlay" && call.target == "/mnt/tmpfs-init/root")
        })
        .expect("the overlay is mounted");
    let mut inner = 0;
    for (at, action) in actions.iter().enumerate() {
        if let Action::Mount { call } = action {
            if call.target.starts_with("/mnt/tmpfs-init/root/") {
                assert!(overlay < at);
                inner += 1;
            }
        }
    }
    assert_eq!(inner, 3);
}

#[test]
fn the_layers_are_created_before_the_overlay_names_them() {
    let actions = drive(&successes(9));
    let place = |wanted: &Action| actions.iter().position(|a| a == wanted).expect("in the run");
    let tmpfs = place(&mounting("tmpfs", "/mnt/tmpfs-init", "tmpfs", 0, "size=4G"));
    let overlay = actions
        .iter()
        .position(|a| matches!(a, Action::Mount { call } if call.fstype == "overlay"))
        .expect("the overlay is mounted");
    for path in ["/mnt/tmpfs-init/work", "/mnt/tmpfs-init/write", "/mnt/tmpfs-init/root"] {
        let made = place(&dir(path));
        assert!(tmpfs < made);
        assert!(made < overlay);
    }
    assert!(place(&dir("/mnt/tmpfs-init")) < tmpfs);
}

#[test]
fn a_failure_at_any_step_stops_everything_after_it() {
    let plan = whole_plan();
    for failing in 0..plan.len() {
        let actions = run_failing_at(failing, 13, 12);
        assert_eq!(&actions[..=failing], &plan[..=failing]);
        for later in &actions[failing + 1..] {
            assert!(matches!(later, Action::Abort { .. }));
        }
        assert_eq!(actions.len(), failing + 14);
        let first_abort = &actions[failing + 1];
        for later in &actions[failing + 1..] {
            assert_eq!(later, first_abort);
        }
    }
}

#[test]
fn a_failed_mount_is_reported_with_line_code_and_error_number() {
    let actions = run_failing_at(5, 22, 0);
    let expected = CallError { line: MOUNT_LINE, ret: -1, errno: 22 };
    assert_eq!(actions[6], Action::Abort { cause: Fatal::Call(expected) });
    assert_eq!(expected.message(), "Line: 85, Ret: -1, Errorno: 22");
}

#[test]
fn a_failed_directory_halts_the_run() {
    let actions = drive(&[Outcome::DirFailed, Outcome::DirCreated]);
    assert_eq!(
        actions,
        vec![
            dir("/mnt/tmpfs-init"),
            Action::Abort { cause: Fatal::Directory },
            Action::Abort { cause: Fatal::Directory },
        ]
    );
    let later = run_failing_at(3, 0, 1);
    assert_eq!(later[3], dir("/mnt/tmpfs-init/write"));
    assert_eq!(later[4], Action::Abort { cause: Fatal::Directory });
    assert_eq!(later[5], Action::Abort { cause: Fatal::Directory });
}

#[test]
fn when_the_memory_backed_mount_fails_nothing_follows() {
    let denied = Outcome::Returned { ret: -1, line: MOUNT_LINE, errno: 1 };
    let mut boot = Boot::new();
    assert_eq!(boot.action(), dir("/mnt/tmpfs-init"));
    assert_eq!(
        boot.report(Outcome::DirCreated),
        mounting("tmpfs", "/mnt/tmpfs-init", "tmpfs", 0, "size=4G")
    );
    let cause = Fatal::Call(CallError { line: MOUNT_LINE, ret: -1, errno: 1 });
    assert_eq!(boot.report(denied), Action::Abort { cause });
    assert!(boot.is_halted());
    assert_eq!(boot.action(), Action::Abort { cause });
    for _ in 0..10 {
        let next = boot.report(Outcome::DirCreated);
        assert_eq!(next, Action::Abort { cause });
        assert!(!matches!(next, Action::CreateDir { .. } | Action::Mount { .. } | Action::Exec { .. }));
    }
    match boot.action() {
        Action::Abort { cause: Fatal::Call(failure) } => {
            assert_eq!(failure.message(), "Line: 85, Ret: -1, Errorno: 1");
        }
        other => panic!("not halted by the mount: {other:?}"),
    }
}

#[test]
fn when_the_handoff_fails_init_is_never_started() {
    let mut script = successes(9);
    script.push(Outcome::Returned { ret: -1, line: EXEC_LINE, errno: 2 });
    script.push(Outcome::Returned { ret: 0, line: EXEC_LINE, errno: 0 });
    let actions = drive(&script);
    assert_eq!(&actions[..10], &whole_plan()[..]);
    let cause = Fatal::Call(CallError { line: EXEC_LINE, ret: -1, errno: 2 });
    assert_eq!(actions[10], Action::Abort { cause });
    assert_eq!(actions[11], Action::Abort { cause });
    let handoffs = actions.iter().filter(|a| matches!(a, Action::Exec { .. })).count();
    assert_eq!(handoffs, 1);
    assert_eq!(
        CallError { line: EXEC_LINE, ret: -1, errno: 2 }.message(),
        "Line: 106, Ret: -1, Errorno: 2"
    );
}

#[test]
fn a_handoff_that_comes_back_is_a_failure_whatever_it_reports() {
    let mut script = successes(9);
    script.push(Outcome::Returned { ret: 0, line: EXEC_LINE, errno: 0 });
    let actions = drive(&script);
    assert_eq!(actions[9], handoff());
    assert_eq!(actions[10], Action::Abort { cause: Fatal::HandoffReturned });

    let mut script = successes(9);
    script.push(Outcome::DirCreated);
    assert_eq!(drive(&script)[10], Action::Abort { cause: Fatal::HandoffReturned });

    let mut script = successes(9);
    script.push(Outcome::DirFailed);
    assert_eq!(drive(&script)[10], Action::Abort { cause: Fatal::Directory });
}

#[test]
fn the_handoff_is_attempted_only_after_every_mount() {
    for reported in 0..9 {
        let actions = drive(&successes(reported));
        assert!(actions.iter().all(|a| !matches!(a, Action::Exec { .. })));
    }
    let actions = drive(&successes(9));
    assert_eq!(actions.iter().position(|a| matches!(a, Action::Exec { .. })), Some(9));
    let mounts_before = actions[..9].iter().filter(|a| matches!(a, Action::Mount { .. })).count();
    assert_eq!(mounts_before, 5);
}

#[test]
fn a_second_run_starts_from_the_first_step_again() {
    assert_eq!(drive(&successes(9)), whole_plan());
    let again = Boot::new();
    assert_eq!(again.action(), dir("/mnt/tmpfs-init"));
}

#[test]
fn a_second_run_halts_where_the_system_refuses() {
    // The staging root is there already and cannot be made.
    let refused_dir = drive(&[Outcome::DirFailed]);
    assert_eq!(refused_dir[1], Action::Abort { cause: Fatal::Directory });

    // The staging root is busy (16) or exists (17): no error number passes
    // for success.
    for errno in [16, 17] {
        let actions = run_failing_at(1, errno, 3);
        let cause = Fatal::Call(CallError { line: MOUNT_LINE, ret: -1, errno });
        assert_eq!(actions[2], Action::Abort { cause });
        assert!(actions[2..].iter().all(|a| matches!(a, Action::Abort { .. })));
        assert!(!actions.contains(&dir("/mnt/tmpfs-init/work")));
        assert!(actions.iter().all(|a| !matches!(a, Action::Mount { call } if call.fstype == "overlay")));
    }
}

#[test]
fn the_first_failure_gives_the_cause() {
    let script = [
        Outcome::DirCreated,
        Outcome::Returned { ret: -1, line: MOUNT_LINE, errno: 12 },
        Outcome::DirFailed,
        Outcome::Returned { ret: -2, line: 1, errno: 5 },
    ];
    let actions = drive(&script);
    let cause = Fatal::Call(CallError { line: MOUNT_LINE, ret: -1, errno: 12 });
    assert_eq!(actions[2], Action::Abort { cause });
    assert_eq!(actions[3], Action::Abort { cause });
    assert_eq!(actions[4], Action::Abort { cause });
}

#[test]
fn a_positive_code_is_a_failure_too() {
    let actions = drive(&[Outcome::DirCreated, Outcome::Returned { ret: 1, line: 3, errno: 0 }]);
    assert_eq!(
        actions[2],
        Action::Abort { cause: Fatal::Call(CallError { line: 3, ret: 1, errno: 0 }) }
    );
}

#[test]
fn is_halted_tells_a_halted_run_from_a_running_one() {
    let mut boot = Boot::new();
    assert!(!boot.is_halted());
    boot.report(Outcome::DirCreated);
    assert!(!boot.is_halted());
    boot.report(Outcome::Returned { ret: 0, line: MOUNT_LINE, errno: 0 });
    assert!(!boot.is_halted());
    boot.report(Outcome::DirFailed);
    assert!(boot.is_halted());
    boot.report(Outcome::DirCreated);
    assert!(boot.is_halted());
}
