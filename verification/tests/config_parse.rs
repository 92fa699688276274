use trimorph::config::config_path;
use trimorph::config::parse_jail_config;
use trimorph::init::InitSystem;
use trimorph::runner::JailRunner;

#[test]
fn parses_every_recognized_key() {
    let text = "name=demo\nroot=/srv/demo\npkgmgr=apt-get\npkgmgr_args=install -y {root}/pkg.deb\nmounts=/data, /media\nenv=FOO=bar, BAZ=qux\n";
    let cfg = parse_jail_config("demo-key", text);
    assert_eq!(cfg.name, "demo");
    assert_eq!(cfg.root, "/srv/demo");
    assert_eq!(cfg.pkgmgr, "apt-get");
    assert_eq!(cfg.pkgmgr_args, "install -y {root}/pkg.deb");
    assert_eq!(cfg.mounts, vec!["/data".to_string(), "/media".to_string()]);
    assert_eq!(cfg.env, vec!["FOO=bar".to_string(), "BAZ=qux".to_string()]);
}

#[test]
fn name_defaults_to_lookup_key() {
    let cfg = parse_jail_config("alpha", "root=/srv/a");
    assert_eq!(cfg.name, "alpha");
    assert_eq!(cfg.root, "/srv/a");
}

#[test]
fn splits_line_on_first_equals_only() {
    let cfg = parse_jail_config("j", "env=FOO=1,BAR=2");
    assert_eq!(cfg.env, vec!["FOO=1".to_string(), "BAR=2".to_string()]);
}

#[test]
fn parsing_is_total_on_arbitrary_text() {
    let runner = JailRunner { init_system: InitSystem::Unknown };
    let garbage = "===\nno separator here\n\u{7f}\u{0}strange=\n  =value\n[section]\nmounts=";
    let cfg = runner.load_jail_config("g", Some(garbage)).unwrap();
    assert_eq!(cfg.name, "g");
    assert_eq!(cfg.root, "");
    assert_eq!(cfg.pkgmgr, "");
    assert_eq!(cfg.pkgmgr_args, "");
    assert_eq!(cfg.mounts, vec!["".to_string()]);
    assert!(cfg.env.is_empty());
}

#[test]
fn missing_content_loads_nothing() {
    let runner = JailRunner { init_system: InitSystem::Unknown };
    assert!(runner.load_jail_config("nope", None).is_none());
}

#[test]
fn trims_keys_and_values() {
    let cfg = parse_jail_config("j", "  root =  /srv/x  \n\tpkgmgr\t=\tpacman\t");
    assert_eq!(cfg.root, "/srv/x");
    assert_eq!(cfg.pkgmgr, "pacman");
}

#[test]
fn repeated_list_keys_accumulate() {
    let cfg = parse_jail_config("j", "mounts=/a\nmounts=/b,/c");
    assert_eq!(
        cfg.mounts,
        vec!["/a".to_string(), "/b".to_string(), "/c".to_string()]
    );
}

#[test]
fn later_scalar_value_wins() {
    let cfg = parse_jail_config("j", "root=/first\nroot=/second");
    assert_eq!(cfg.root, "/second");
}

#[test]
fn carriage_returns_and_unknown_keys_are_harmless() {
    let cfg = parse_jail_config("j", "root=/x\r\ncolor=blue\r\n");
    assert_eq!(cfg.root, "/x");
    assert_eq!(cfg.pkgmgr, "");
}

#[test]
fn config_path_is_derived_from_the_name() {
    assert_eq!(config_path("j1"), "/etc/trimorph/jails.d/j1.conf");
}
