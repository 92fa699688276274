use trimorph::init::InitSystem;
use trimorph::runner::JailRunner;

#[test]
fn test_detect_init_system() {
    let init_system = JailRunner::detect_init_system();
    assert!(
        init_system == InitSystem::Systemd || init_system == InitSystem::OpenRC
            || init_system == InitSystem::Unknown
    );
}

#[test]
fn from_marker_classifies_both_ways() {
    assert_eq!(InitSystem::from_marker(true), InitSystem::Systemd);
    assert_eq!(InitSystem::from_marker(false), InitSystem::OpenRC);
}

#[test]
fn new_runner_never_caches_unknown() {
    let runner = JailRunner::new();
    assert_ne!(runner.init_system, InitSystem::Unknown);
}

#[test]
fn launcher_labels() {
    assert_eq!(InitSystem::Systemd.launcher_label(), "systemd-nspawn");
    assert_eq!(InitSystem::OpenRC.launcher_label(), "bubblewrap");
}
