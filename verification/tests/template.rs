use trimorph::init::InitSystem;
use trimorph::runner::JailRunner;

fn runner() -> JailRunner {
    JailRunner { init_system: InitSystem::Unknown }
}

#[test]
fn expands_root_placeholder_into_tokens() {
    let toks = runner().parse_pkgmgr_args("install -y {root}/pkg.deb", "/srv/j1");
    assert_eq!(
        toks,
        vec![
            "install".to_string(),
            "-y".to_string(),
            "/srv/j1/pkg.deb".to_string()
        ]
    );
}

#[test]
fn expands_every_occurrence() {
    let toks = runner().parse_pkgmgr_args("{root} cp {root}/a {root}/b", "/r");
    assert_eq!(
        toks,
        vec![
            "/r".to_string(),
            "cp".to_string(),
            "/r/a".to_string(),
            "/r/b".to_string()
        ]
    );
}

#[test]
fn whitespace_runs_yield_no_empty_tokens() {
    let toks = runner().parse_pkgmgr_args("  a\t\t b  ", "/r");
    assert_eq!(toks, vec!["a".to_string(), "b".to_string()]);
}

#[test]
fn empty_template_yields_no_tokens() {
    let toks = runner().parse_pkgmgr_args("", "/r");
    assert!(toks.is_empty());
}

#[test]
fn a_root_containing_a_space_is_split() {
    let toks = runner().parse_pkgmgr_args("ls {root}/pkg", "/srv/my jail");
    assert_eq!(
        toks,
        vec!["ls".to_string(), "/srv/my".to_string(), "jail/pkg".to_string()]
    );
}

#[test]
fn incomplete_placeholder_is_left_alone() {
    let toks = runner().parse_pkgmgr_args("{root {roo} root}", "/r");
    assert_eq!(
        toks,
        vec!["{root".to_string(), "{roo}".to_string(), "root}".to_string()]
    );
}
