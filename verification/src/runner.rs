//! The orchestrator: detect the init system once, load the named jail's
//! configuration, dispatch to the matching backend, and classify the
//! outcome.
//!
//! The runner computes; it does not touch the filesystem beyond the
//! existence probes and it spawns nothing. The surrounding program reads
//! the configuration file and hands its text in (or `None` where the
//! file is missing or unreadable — the two are deliberately not
//! distinguished), supplies the process id the overlay scratch paths are
//! named by, receives the fully built launcher invocation back, spawns
//! it, and reports the outcome through `classify_exit`.

use vstd::prelude::*;
use vstd::string::*;

use crate::backend::build_bubblewrap_invocation;
use crate::backend::build_nspawn_invocation;
use crate::backend::bwrap_invocation_spec;
use crate::backend::nspawn_invocation_spec;
use crate::config::JailConfig;
use crate::config::parse_config_spec;
use crate::config::parse_jail_config;
use crate::host::path_is_dir;
use crate::init::InitSystem;
use crate::invocation::Invocation;
use crate::split::expand_root;
use crate::split::expand_root_spec;
use crate::split::split_whitespace_tokens;
use crate::split::split_ws_spec;

verus! {

/// The error text for a jail whose configuration cannot be loaded.
pub open spec fn missing_config_msg_spec(jail: Seq<char>) -> Seq<char> {
    "Jail config for "@ + jail + " not found"@
}

/// Runs commands in jails with the backend the host's init system calls
/// for, detected once at construction and cached for the runner's
/// lifetime.
pub struct JailRunner {
    pub init_system: InitSystem,
}

impl JailRunner {
    /// Creates a runner; detection runs exactly once, here.
    pub fn new() -> (r: JailRunner)
        ensures
            r.init_system != InitSystem::Unknown,
    {
        let init_system = Self::detect_init_system();
        JailRunner { init_system }
    }

    /// Detects the active init system on the host by probing for the
    /// well-known systemd runtime marker directory; its absence is read
    /// as OpenRC by deliberate fallback. The `Unknown` variant is never
    /// produced by this path.
    pub fn detect_init_system() -> (r: InitSystem)
        ensures
            r != InitSystem::Unknown,
    {
        let present = path_is_dir("/run/systemd/system");
        InitSystem::from_marker(present)
    }

    /// The compute half of configuration loading: `content` is the text
    /// of the jail's configuration file, or `None` where the file is
    /// missing or unreadable. Given any text at all, a configuration
    /// comes back; parsing never fails.
    pub fn load_jail_config(&self, jail_name: &str, content: Option<&str>) -> (r: Option<
        JailConfig,
    >)
        ensures
            match content {
                Option::None => r is None,
                Option::Some(text) => r matches Some(c) && c@ == parse_config_spec(
                    jail_name@,
                    text@,
                ),
            },
    {
        match content {
            Option::None => Option::None,
            Option::Some(text) => Option::Some(parse_jail_config(jail_name, text)),
        }
    }

    /// Expands every `{root}` placeholder in the argument template and
    /// splits the result on runs of whitespace. No quoting or escaping
    /// is honored: a value containing a space becomes several tokens, a
    /// known limitation.
    pub fn parse_pkgmgr_args(&self, args: &str, root: &str) -> (r: Vec<String>)
        ensures
            r.deep_view() == split_ws_spec(expand_root_spec(args@, root@)),
    {
        let expanded = expand_root(args, root);
        split_whitespace_tokens(expanded.as_str())
    }

    /// Plans the overlay-backend invocation for the named jail, or
    /// reports the missing configuration.
    pub fn run_with_systemd_nspawn(
        &self,
        jail_name: &str,
        command: &Vec<String>,
        content: Option<&str>,
        pid: u32,
    ) -> (r: Result<Invocation, String>)
        ensures
            match content {
                Option::None => r matches Err(e) && e@ == missing_config_msg_spec(jail_name@),
                Option::Some(text) => r matches Ok(inv) && inv@ == nspawn_invocation_spec(
                    parse_config_spec(jail_name@, text@),
                    jail_name@,
                    pid as nat,
                    command.deep_view(),
                ),
            },
    {
        let config = match self.load_jail_config(jail_name, content) {
            Option::Some(c) => c,
            Option::None => {
                return Result::Err(missing_config_msg(jail_name));
            },
        };
        Result::Ok(build_nspawn_invocation(&config, jail_name, pid, command))
    }

    /// Plans the namespace-backend invocation for the named jail, or
    /// reports the missing configuration. The display and GPU binds
    /// depend on what the host filesystem shows at this moment, so the
    /// invocation is pinned down only up to those two probes.
    pub fn run_with_bubblewrap(
        &self,
        jail_name: &str,
        command: &Vec<String>,
        content: Option<&str>,
    ) -> (r: Result<Invocation, String>)
        ensures
            match content {
                Option::None => r matches Err(e) && e@ == missing_config_msg_spec(jail_name@),
                Option::Some(text) => r matches Ok(inv) && exists|x11: bool, dri: bool|
                    inv@ == bwrap_invocation_spec(
                        parse_config_spec(jail_name@, text@),
                        command.deep_view(),
                        x11,
                        dri,
                    ),
            },
    {
        let config = match self.load_jail_config(jail_name, content) {
            Option::Some(c) => c,
            Option::None => {
                return Result::Err(missing_config_msg(jail_name));
            },
        };
        let x11 = path_is_dir("/tmp/.X11-unix");
        let dri = path_is_dir("/dev/dri");
        let inv = build_bubblewrap_invocation(&config, command, x11, dri);
        proof {
            assert(inv@ == bwrap_invocation_spec(
                parse_config_spec(jail_name@, content->Some_0@),
                command.deep_view(),
                x11,
                dri,
            ));
        }
        Result::Ok(inv)
    }

    /// Loads the named jail's configuration and plans the invocation of
    /// the backend matching the cached init system. A missing
    /// configuration and an unrecognized init system are terminal
    /// errors; no backend is invoked for either, and no fallback to the
    /// other backend is ever attempted.
    pub fn run_command_in_jail(
        &self,
        jail_name: &str,
        command: &Vec<String>,
        content: Option<&str>,
        pid: u32,
    ) -> (r: Result<Invocation, String>)
        ensures
            self.init_system == InitSystem::Unknown ==> (r matches Err(e) && e@
                == "Unknown init system"@),
            self.init_system == InitSystem::Systemd ==> match content {
                Option::None => r matches Err(e) && e@ == missing_config_msg_spec(jail_name@),
                Option::Some(text) => r matches Ok(inv) && inv@ == nspawn_invocation_spec(
                    parse_config_spec(jail_name@, text@),
                    jail_name@,
                    pid as nat,
                    command.deep_view(),
                ),
            },
            self.init_system == InitSystem::OpenRC ==> match content {
                Option::None => r matches Err(e) && e@ == missing_config_msg_spec(jail_name@),
                Option::Some(text) => r matches Ok(inv) && exists|x11: bool, dri: bool|
                    inv@ == bwrap_invocation_spec(
                        parse_config_spec(jail_name@, text@),
                        command.deep_view(),
                        x11,
                        dri,
                    ),
            },
    {
        match self.init_system {
            InitSystem::Systemd => self.run_with_systemd_nspawn(jail_name, command, content, pid),
            InitSystem::OpenRC => self.run_with_bubblewrap(jail_name, command, content),
            InitSystem::Unknown => Result::Err(String::from_str("Unknown init system")),
        }
    }
}

/// The message naming a jail whose configuration could not be loaded.
pub fn missing_config_msg(jail_name: &str) -> (r: String)
    ensures
        r@ == missing_config_msg_spec(jail_name@),
{
    let mut m = String::from_str("Jail config for ");
    m.append(jail_name);
    m.append(" not found");
    m
}

/// Classifies the spawned launcher's exit: success is reported as `Ok`,
/// anything else wraps the captured standard-error text verbatim.
pub fn classify_exit(success: bool, stderr: &str) -> (r: Result<(), String>)
    ensures
        success ==> r is Ok,
        !success ==> (r matches Err(e) && e@ == "Command failed: "@ + stderr@),
{
    if success {
        Result::Ok(())
    } else {
        let mut m = String::from_str("Command failed: ");
        m.append(stderr);
        Result::Err(m)
    }
}

/// The message for a launcher that could not be started at all, carrying
/// the underlying OS failure text.
pub fn spawn_failure_message(launcher: &str, detail: &str) -> (r: String)
    ensures
        r@ == "Failed to execute "@ + launcher@ + ": "@ + detail@,
{
    let mut m = String::from_str("Failed to execute ");
    m.append(launcher);
    m.append(": ");
    m.append(detail);
    m
}

} // verus!
