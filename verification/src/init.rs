//! The init-system families a host can present, and their classification.

use vstd::prelude::*;

verus! {

/// The init-system family detected on the host. The family decides which
/// sandbox backend is used. `Unknown` is kept as a guard variant: no
/// classification path currently produces it, so backend dispatch treats
/// it as a terminal error rather than guessing a backend.
#[derive(Clone, Copy, Debug, PartialEq, Eq, Structural)]
pub enum InitSystem {
    Systemd,
    OpenRC,
    Unknown,
}

impl InitSystem {
    /// Classifies the host from one observation: whether the well-known
    /// systemd runtime marker directory is present. Absence is read as
    /// OpenRC by deliberate heuristic fallback, not verified detection.
    pub fn from_marker(marker_present: bool) -> (r: InitSystem)
        ensures
            r == (if marker_present {
                InitSystem::Systemd
            } else {
                InitSystem::OpenRC
            }),
    {
        if marker_present {
            InitSystem::Systemd
        } else {
            InitSystem::OpenRC
        }
    }

    /// The name under which the matching launcher is reported in
    /// spawn-failure messages.
    pub fn launcher_label(&self) -> (r: &'static str)
        ensures
            *self == InitSystem::Systemd ==> r@ == "systemd-nspawn"@,
            *self == InitSystem::OpenRC ==> r@ == "bubblewrap"@,
            *self == InitSystem::Unknown ==> r@ == "unknown"@,
    {
        match self {
            InitSystem::Systemd => "systemd-nspawn",
            InitSystem::OpenRC => "bubblewrap",
            InitSystem::Unknown => "unknown",
        }
    }
}

} // verus!
