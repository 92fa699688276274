use trimorph::backend::build_bubblewrap_invocation;
use trimorph::backend::build_nspawn_invocation;
use trimorph::config::JailConfig;
use trimorph::init::InitSystem;
use trimorph::runner::classify_exit;
use trimorph::runner::spawn_failure_message;
use trimorph::runner::JailRunner;

fn cfg(root: &str, pkgmgr: &str, pkgmgr_args: &str, mounts: Vec<&str>, env: Vec<&str>) -> JailConfig {
    JailConfig {
        name: "j".to_string(),
        root: root.to_string(),
        pkgmgr: pkgmgr.to_string(),
        pkgmgr_args: pkgmgr_args.to_string(),
        mounts: mounts.into_iter().map(|s| s.to_string()).collect(),
        env: env.into_iter().map(|s| s.to_string()).collect(),
    }
}

fn strings(v: Vec<&str>) -> Vec<String> {
    v.into_iter().map(|s| s.to_string()).collect()
}

#[test]
fn apt_names_select_the_apt_cache_bind() {
    let inv = build_nspawn_invocation(&cfg("/r", "apt-get", "", vec![], vec![]), "j", 1, &vec![]);
    assert!(inv.args.contains(&"--bind=/var/cache/apt/archives".to_string()));
    assert!(!inv.args.contains(&"--bind=/var/cache/pacman/pkg".to_string()));
}

#[test]
fn pacman_names_select_the_pacman_cache_bind() {
    let inv = build_nspawn_invocation(&cfg("/r", "pacman", "", vec![], vec![]), "j", 1, &vec![]);
    assert!(inv.args.contains(&"--bind=/var/cache/pacman/pkg".to_string()));
    assert!(!inv.args.contains(&"--bind=/var/cache/apt/archives".to_string()));
}

#[test]
fn other_names_select_no_cache_bind() {
    let inv = build_nspawn_invocation(&cfg("/r", "dnf", "", vec![], vec![]), "j", 1, &vec![]);
    assert!(!inv.args.contains(&"--bind=/var/cache/apt/archives".to_string()));
    assert!(!inv.args.contains(&"--bind=/var/cache/pacman/pkg".to_string()));
}

#[test]
fn env_handling_differs_between_backends() {
    let c = cfg("/r", "x", "", vec![], vec!["NOEQUALS", "FOO=bar"]);
    let nspawn = build_nspawn_invocation(&c, "j", 1, &vec![]);
    let pos = nspawn
        .args
        .iter()
        .position(|a| a == "NOEQUALS")
        .expect("overlay backend forwards every env entry");
    assert_eq!(nspawn.args[pos - 1], "--setenv");
    assert!(nspawn.args.contains(&"FOO=bar".to_string()));
    let bwrap = build_bubblewrap_invocation(&c, &vec![], false, false);
    assert_eq!(bwrap.env, vec![("FOO".to_string(), "bar".to_string())]);
}

#[test]
fn namespace_backend_splits_on_the_first_equals_only() {
    let c = cfg("/r", "x", "", vec![], vec!["A=b=c"]);
    let bwrap = build_bubblewrap_invocation(&c, &vec![], false, false);
    assert_eq!(bwrap.env, vec![("A".to_string(), "b=c".to_string())]);
    let nspawn = build_nspawn_invocation(&c, "j", 1, &vec![]);
    assert!(nspawn.args.contains(&"A=b=c".to_string()));
}

#[test]
fn systemd_end_to_end_invocation() {
    let config = cfg(
        "/srv/j1",
        "apt-get",
        "install -y {root}/pkg.deb",
        vec!["/data"],
        vec!["FOO=bar"],
    );
    let command = strings(vec!["echo", "hi"]);
    let inv = build_nspawn_invocation(&config, "j1", 4242, &command);
    assert_eq!(inv.program, "systemd-nspawn");
    let expected = strings(vec![
        "--quiet",
        "--directory",
        "/srv/j1",
        "--overlay",
        "/srv/j1:/var/tmp/trimorph_j1_upper_4242:/var/tmp/trimorph_j1_work_4242",
        "--bind-ro=/tmp/.X11-unix",
        "--bind-ro=/dev/dri",
        "--bind-ro=/etc/resolv.conf",
        "--bind=/var/cache/apt/archives",
        "--bind-ro",
        "/data",
        "--setenv",
        "FOO=bar",
        "apt-get",
        "install",
        "-y",
        "/srv/j1/pkg.deb",
        "echo",
        "hi",
    ]);
    assert_eq!(inv.args, expected);
    assert!(inv.env.is_empty());
}

#[test]
fn run_command_in_jail_parses_and_plans() {
    let runner = JailRunner {
        init_system: InitSystem::Systemd,
    };
    let text = "root=/srv/j1\npkgmgr=apt-get\npkgmgr_args=install -y {root}/pkg.deb\nmounts=/data\nenv=FOO=bar\n";
    let command = strings(vec!["echo", "hi"]);
    let inv = match runner.run_command_in_jail("j1", &command, Some(text), 7) {
        Ok(inv) => inv,
        Err(e) => panic!("planning failed: {}", e),
    };
    assert_eq!(inv.program, "systemd-nspawn");
    assert!(inv
        .args
        .contains(&"/srv/j1:/var/tmp/trimorph_j1_upper_7:/var/tmp/trimorph_j1_work_7".to_string()));
    let n = inv.args.len();
    assert_eq!(
        inv.args[n - 6..].to_vec(),
        strings(vec!["apt-get", "install", "-y", "/srv/j1/pkg.deb", "echo", "hi"])
    );
}

#[test]
fn bubblewrap_base_and_conditional_binds() {
    let c = cfg("/srv/j2", "pacman", "-S {root}/x", vec![], vec![]);
    let inv = build_bubblewrap_invocation(&c, &strings(vec!["ls"]), true, false);
    assert_eq!(inv.program, "bwrap");
    let head = strings(vec![
        "--unshare-all",
        "--share-net",
        "--ro-bind",
        "/usr",
        "/usr",
        "--ro-bind",
        "/lib",
        "/lib",
        "--ro-bind",
        "/lib64",
        "/lib64",
        "--bind",
        "/srv/j2",
        "/",
        "--bind",
        "/tmp",
        "/tmp",
        "--bind",
        "/dev",
        "/dev",
        "--bind",
        "/proc",
        "/proc",
        "--bind",
        "/sys",
        "/sys",
        "--bind",
        "/run",
        "/run",
        "--bind",
        "/etc/resolv.conf",
        "/etc/resolv.conf",
        "--bind",
        "/tmp/.X11-unix",
        "/tmp/.X11-unix",
    ]);
    assert_eq!(inv.args[..head.len()].to_vec(), head);
    assert!(!inv.args.contains(&"/dev/dri".to_string()));
    assert_eq!(
        inv.args[head.len()..].to_vec(),
        strings(vec!["pacman", "-S", "/srv/j2/x", "ls"])
    );
}

#[test]
fn missing_config_is_terminal_for_both_backends() {
    let command = strings(vec!["echo", "hi"]);
    for init_system in [InitSystem::Systemd, InitSystem::OpenRC] {
        let runner = JailRunner { init_system };
        match runner.run_command_in_jail("nonexistent-jail", &command, None, 1) {
            Err(e) => assert_eq!(e, "Jail config for nonexistent-jail not found"),
            Ok(_) => panic!("expected a missing-config error"),
        }
    }
}

#[test]
fn unknown_init_system_is_terminal() {
    let runner = JailRunner {
        init_system: InitSystem::Unknown,
    };
    match runner.run_command_in_jail("j", &strings(vec!["x"]), Some("root=/r"), 1) {
        Err(e) => assert_eq!(e, "Unknown init system"),
        Ok(_) => panic!("expected an unknown-init-system error"),
    }
}

#[test]
fn overlay_scratch_paths_with_pid_zero() {
    let inv = build_nspawn_invocation(&cfg("/r", "x", "", vec![], vec![]), "j", 0, &vec![]);
    assert_eq!(inv.args[4], "/r:/var/tmp/trimorph_j_upper_0:/var/tmp/trimorph_j_work_0");
}

#[test]
fn outcome_classification() {
    assert!(classify_exit(true, "").is_ok());
    match classify_exit(false, "boom") {
        Err(e) => assert_eq!(e, "Command failed: boom"),
        Ok(_) => panic!("expected a failure report"),
    }
    assert_eq!(
        spawn_failure_message("bubblewrap", "No such file"),
        "Failed to execute bubblewrap: No such file"
    );
}
