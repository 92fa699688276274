//! The two sandbox backends: the overlay-root container launcher and the
//! namespace sandbox launcher. Each turns a loaded configuration and a
//! user command into the complete launcher invocation; the argument lists
//! are pinned down token for token by the spec functions here.
//!
//! The backends are deliberately not equivalent: the overlay backend
//! stacks a per-invocation writable upper layer over the jail root so the
//! base image is never mutated, while the namespace backend binds the
//! jail root directly, so writes inside the sandbox persist. They also
//! treat `env` entries differently: the overlay backend forwards every
//! entry unconditionally as a `--setenv` argument, while the namespace
//! backend parses entries and silently drops malformed ones.

use vstd::prelude::*;
use vstd::string::*;

use crate::config::ConfigView;
use crate::config::JailConfig;
use crate::invocation::Invocation;
use crate::invocation::InvocationView;
use crate::invocation::push_arg;
use crate::invocation::push_arg_string;
use crate::split::expand_root;
use crate::split::expand_root_spec;
use crate::split::split_whitespace_tokens;
use crate::split::split_ws_spec;
use crate::text::contains_seq;
use crate::text::dec_str;
use crate::text::find_pos;
use crate::text::str_contains;
use crate::text::u32_dec_string;

verus! {

/// The per-invocation overlay upper directory, named after the jail and
/// the process id so same-instant invocations do not collide. Nothing
/// ever reclaims these paths; a crashed prior run can leave them behind,
/// and no pre-existence check is made.
pub open spec fn overlay_upper_spec(jail: Seq<char>, pid: nat) -> Seq<char> {
    "/var/tmp/trimorph_"@ + jail + "_upper_"@ + dec_str(pid)
}

/// The per-invocation overlay work directory; see `overlay_upper_spec`.
pub open spec fn overlay_work_spec(jail: Seq<char>, pid: nat) -> Seq<char> {
    "/var/tmp/trimorph_"@ + jail + "_work_"@ + dec_str(pid)
}

/// The overlay specification argument: lower layer (the jail root),
/// upper layer, and work directory, colon-separated.
pub open spec fn overlay_arg_spec(root: Seq<char>, jail: Seq<char>, pid: nat) -> Seq<char> {
    root + ":"@ + overlay_upper_spec(jail, pid) + ":"@ + overlay_work_spec(jail, pid)
}

/// The host package-manager cache exposed read-write, chosen by a pure
/// substring match on the package-manager name: any name containing
/// `apt` gets the apt archive cache, else any containing `pacman` gets
/// the pacman package cache, else no cache is bound. Exactly these two
/// entries exist by design.
pub open spec fn cache_bind_spec(pkgmgr: Seq<char>) -> Seq<Seq<char>> {
    if contains_seq(pkgmgr, "apt"@) {
        seq!["--bind=/var/cache/apt/archives"@]
    } else if contains_seq(pkgmgr, "pacman"@) {
        seq!["--bind=/var/cache/pacman/pkg"@]
    } else {
        Seq::empty()
    }
}

/// A read-only bind argument pair for each configured mount, in list
/// order.
pub open spec fn ro_bind_args(mounts: Seq<Seq<char>>) -> Seq<Seq<char>>
    decreases mounts.len(),
{
    if mounts.len() == 0 {
        Seq::empty()
    } else {
        ro_bind_args(mounts.drop_last()) + seq!["--bind-ro"@, mounts.last()]
    }
}

/// A `--setenv` argument pair for each `env` entry, in list order,
/// forwarded without any validation of the `KEY=VALUE` shape.
pub open spec fn setenv_args(env: Seq<Seq<char>>) -> Seq<Seq<char>>
    decreases env.len(),
{
    if env.len() == 0 {
        Seq::empty()
    } else {
        setenv_args(env.drop_last()) + seq!["--setenv"@, env.last()]
    }
}

/// The whitespace tokens of the package-manager argument template after
/// `{root}` expansion.
pub open spec fn template_tokens(c: ConfigView) -> Seq<Seq<char>> {
    split_ws_spec(expand_root_spec(c.pkgmgr_args, c.root))
}

/// The full overlay-backend argument list.
pub open spec fn nspawn_args_spec(
    c: ConfigView,
    jail: Seq<char>,
    pid: nat,
    cmd: Seq<Seq<char>>,
) -> Seq<Seq<char>> {
    seq![
        "--quiet"@,
        "--directory"@,
        c.root,
        "--overlay"@,
        overlay_arg_spec(c.root, jail, pid),
        "--bind-ro=/tmp/.X11-unix"@,
        "--bind-ro=/dev/dri"@,
        "--bind-ro=/etc/resolv.conf"@,
    ] + cache_bind_spec(c.pkgmgr) + ro_bind_args(c.mounts) + setenv_args(c.env) + seq![c.pkgmgr]
        + template_tokens(c) + cmd
}

/// The complete overlay-backend invocation: environment injections ride
/// along as `--setenv` arguments, so the spawned launcher itself gets
/// none.
pub open spec fn nspawn_invocation_spec(
    c: ConfigView,
    jail: Seq<char>,
    pid: nat,
    cmd: Seq<Seq<char>>,
) -> InvocationView {
    InvocationView {
        program: "systemd-nspawn"@,
        args: nspawn_args_spec(c, jail, pid, cmd),
        env: Seq::empty(),
    }
}

/// The fixed namespace-backend preamble: unshare every namespace, then
/// re-share the network one; bind the host userland read-only; bind the
/// jail root as the sandbox root; and bind the common runtime paths and
/// the DNS resolver file.
pub open spec fn bwrap_base_args(root: Seq<char>) -> Seq<Seq<char>> {
    seq![
        "--unshare-all"@,
        "--share-net"@,
        "--ro-bind"@,
        "/usr"@,
        "/usr"@,
        "--ro-bind"@,
        "/lib"@,
        "/lib"@,
        "--ro-bind"@,
        "/lib64"@,
        "/lib64"@,
        "--bind"@,
        root,
        "/"@,
        "--bind"@,
        "/tmp"@,
        "/tmp"@,
        "--bind"@,
        "/dev"@,
        "/dev"@,
        "--bind"@,
        "/proc"@,
        "/proc"@,
        "--bind"@,
        "/sys"@,
        "/sys"@,
        "--bind"@,
        "/run"@,
        "/run"@,
        "--bind"@,
        "/etc/resolv.conf"@,
        "/etc/resolv.conf"@,
    ]
}

/// The display socket bind, present only when the host path exists.
pub open spec fn display_bind_args(x11: bool) -> Seq<Seq<char>> {
    if x11 {
        seq!["--bind"@, "/tmp/.X11-unix"@, "/tmp/.X11-unix"@]
    } else {
        Seq::empty()
    }
}

/// The GPU device bind, present only when the host path exists.
pub open spec fn dri_bind_args(dri: bool) -> Seq<Seq<char>> {
    if dri {
        seq!["--bind"@, "/dev/dri"@, "/dev/dri"@]
    } else {
        Seq::empty()
    }
}

/// The full namespace-backend argument list, given whether the display
/// socket and GPU device directories exist on the host.
pub open spec fn bwrap_args_spec(
    c: ConfigView,
    cmd: Seq<Seq<char>>,
    x11: bool,
    dri: bool,
) -> Seq<Seq<char>> {
    bwrap_base_args(c.root) + display_bind_args(x11) + dri_bind_args(dri) + seq![c.pkgmgr]
        + template_tokens(c) + cmd
}

/// The environment injections one `env` entry contributes: the entry is
/// parsed as `KEY=VALUE` by splitting on the first `=` only, so the
/// value may itself contain `=`; an entry with no `=` at all is
/// malformed and silently dropped.
pub open spec fn env_pair_args(e: Seq<char>) -> Seq<(Seq<char>, Seq<char>)> {
    let p = find_pos(e, '=');
    if p == e.len() {
        Seq::empty()
    } else {
        seq![(e.subrange(0, p), e.subrange(p + 1, e.len() as int))]
    }
}

/// The environment injections of the namespace backend, in list order.
pub open spec fn bwrap_env_spec(env: Seq<Seq<char>>) -> Seq<(Seq<char>, Seq<char>)>
    decreases env.len(),
{
    if env.len() == 0 {
        Seq::empty()
    } else {
        bwrap_env_spec(env.drop_last()) + env_pair_args(env.last())
    }
}

/// The complete namespace-backend invocation.
pub open spec fn bwrap_invocation_spec(
    c: ConfigView,
    cmd: Seq<Seq<char>>,
    x11: bool,
    dri: bool,
) -> InvocationView {
    InvocationView {
        program: "bwrap"@,
        args: bwrap_args_spec(c, cmd, x11, dri),
        env: bwrap_env_spec(c.env),
    }
}

/// Law: cache-bind selection is a pure substring predicate on the
/// package-manager name. A name containing `apt` binds the apt archive
/// cache; otherwise a name containing `pacman` binds the pacman package
/// cache; any other name binds no cache at all.
pub proof fn lemma_cache_bind_selection(pkgmgr: Seq<char>)
    ensures
        contains_seq(pkgmgr, "apt"@) ==> cache_bind_spec(pkgmgr) == seq![
            "--bind=/var/cache/apt/archives"@,
        ],
        !contains_seq(pkgmgr, "apt"@) && contains_seq(pkgmgr, "pacman"@) ==> cache_bind_spec(
            pkgmgr,
        ) == seq!["--bind=/var/cache/pacman/pkg"@],
        !contains_seq(pkgmgr, "apt"@) && !contains_seq(pkgmgr, "pacman"@) ==> cache_bind_spec(
            pkgmgr,
        ) == Seq::<Seq<char>>::empty(),
{
}

/// Law: the two backends treat one further `env` entry asymmetrically.
/// The overlay backend always forwards it as a `--setenv` argument pair,
/// whatever its shape; the namespace backend splits it on the first `=`
/// and injects the key/value pair on either side — the value keeping any
/// further `=` — while an entry with no `=` is dropped without a trace.
pub proof fn lemma_env_entry_asymmetry(env: Seq<Seq<char>>, e: Seq<char>)
    ensures
        setenv_args(env.push(e)) == setenv_args(env) + seq!["--setenv"@, e],
        find_pos(e, '=') < e.len() ==> bwrap_env_spec(env.push(e)) == bwrap_env_spec(env) + seq![
            (e.subrange(0, find_pos(e, '=')), e.subrange(find_pos(e, '=') + 1, e.len() as int)),
        ],
        find_pos(e, '=') == e.len() ==> bwrap_env_spec(env.push(e)) == bwrap_env_spec(env),
{
    crate::text::lemma_find_pos(e, '=');
    assert(env.push(e).drop_last() =~= env);
    assert(env.push(e).last() == e);
    if find_pos(e, '=') == e.len() {
        assert(bwrap_env_spec(env) + env_pair_args(e) =~= bwrap_env_spec(env));
    }
}

/// Builds the colon-separated overlay specification argument.
fn overlay_arg(root: &str, jail_name: &str, pid: u32) -> (r: String)
    ensures
        r@ == overlay_arg_spec(root@, jail_name@, pid as nat),
{
    let pid_dec = u32_dec_string(pid);
    let mut s = String::from_str(root);
    s.append(":");
    s.append("/var/tmp/trimorph_");
    s.append(jail_name);
    s.append("_upper_");
    s.append(pid_dec.as_str());
    s.append(":");
    s.append("/var/tmp/trimorph_");
    s.append(jail_name);
    s.append("_work_");
    s.append(pid_dec.as_str());
    proof {
        assert(s@ =~= overlay_arg_spec(root@, jail_name@, pid as nat));
    }
    s
}

/// Appends each element of `extra`, in order.
fn push_all(args: &mut Vec<String>, extra: &Vec<String>)
    ensures
        final(args).deep_view() == old(args).deep_view() + extra.deep_view(),
{
    let ghost base = args.deep_view();
    let ghost eseq = extra.deep_view();
    let mut i: usize = 0;
    proof {
        assert(base + eseq.take(0) =~= base);
    }
    while i < extra.len()
        invariant
            i <= extra.len(),
            extra.deep_view() == eseq,
            args.deep_view() == base + eseq.take(i as int),
        decreases extra.len() - i,
    {
        let ghost pre = args.deep_view();
        push_arg_string(args, extra[i].clone());
        proof {
            assert(eseq.take(i + 1) =~= eseq.take(i as int).push(eseq[i as int]));
            assert(base + eseq.take(i + 1) =~= pre.push(eseq[i as int]));
        }
        i += 1;
    }
    proof {
        assert(eseq.take(extra.len() as int) =~= eseq);
    }
}

/// Appends the in-sandbox program, the expanded template tokens, and the
/// user command, the trailing argv both backends share.
fn push_command_tail(args: &mut Vec<String>, config: &JailConfig, command: &Vec<String>)
    ensures
        final(args).deep_view() == old(args).deep_view() + seq![config.pkgmgr@] + template_tokens(
            config@,
        ) + command.deep_view(),
{
    push_arg_string(args, config.pkgmgr.clone());
    proof {
        assert(old(args).deep_view().push(config.pkgmgr@) =~= old(args).deep_view() + seq![
            config.pkgmgr@,
        ]);
    }
    let expanded = expand_root(config.pkgmgr_args.as_str(), config.root.as_str());
    let tokens = split_whitespace_tokens(expanded.as_str());
    push_all(args, &tokens);
    push_all(args, command);
}

/// Builds the overlay-backend invocation, as `nspawn_invocation_spec`
/// describes.
pub fn build_nspawn_invocation(
    config: &JailConfig,
    jail_name: &str,
    pid: u32,
    command: &Vec<String>,
) -> (r: Invocation)
    ensures
        r@ == nspawn_invocation_spec(config@, jail_name@, pid as nat, command.deep_view()),
{
    let mut args: Vec<String> = Vec::new();
    push_arg(&mut args, "--quiet");
    push_arg(&mut args, "--directory");
    push_arg_string(&mut args, config.root.clone());
    push_arg(&mut args, "--overlay");
    push_arg_string(&mut args, overlay_arg(config.root.as_str(), jail_name, pid));
    push_arg(&mut args, "--bind-ro=/tmp/.X11-unix");
    push_arg(&mut args, "--bind-ro=/dev/dri");
    push_arg(&mut args, "--bind-ro=/etc/resolv.conf");
    let ghost head = seq![
        "--quiet"@,
        "--directory"@,
        config@.root,
        "--overlay"@,
        overlay_arg_spec(config@.root, jail_name@, pid as nat),
        "--bind-ro=/tmp/.X11-unix"@,
        "--bind-ro=/dev/dri"@,
        "--bind-ro=/etc/resolv.conf"@,
    ];
    proof {
        assert(args.deep_view() =~= head);
    }
    if str_contains(config.pkgmgr.as_str(), "apt") {
        push_arg(&mut args, "--bind=/var/cache/apt/archives");
    } else if str_contains(config.pkgmgr.as_str(), "pacman") {
        push_arg(&mut args, "--bind=/var/cache/pacman/pkg");
    }
    let ghost with_cache = head + cache_bind_spec(config@.pkgmgr);
    proof {
        assert(args.deep_view() =~= with_cache);
    }
    let ghost mseq = config.mounts.deep_view();
    let mut i: usize = 0;
    proof {
        assert(with_cache + ro_bind_args(mseq.take(0)) =~= with_cache);
    }
    while i < config.mounts.len()
        invariant
            i <= config.mounts.len(),
            config.mounts.deep_view() == mseq,
            args.deep_view() == with_cache + ro_bind_args(mseq.take(i as int)),
        decreases config.mounts.len() - i,
    {
        let ghost pre = args.deep_view();
        push_arg(&mut args, "--bind-ro");
        push_arg_string(&mut args, config.mounts[i].clone());
        proof {
            assert(mseq.take(i + 1).drop_last() =~= mseq.take(i as int));
            assert(ro_bind_args(mseq.take(i + 1)) =~= ro_bind_args(mseq.take(i as int)) + seq![
                "--bind-ro"@,
                mseq[i as int],
            ]);
            assert(with_cache + ro_bind_args(mseq.take(i + 1)) =~= pre.push("--bind-ro"@).push(
                mseq[i as int],
            ));
        }
        i += 1;
    }
    let ghost with_mounts = with_cache + ro_bind_args(mseq);
    proof {
        assert(mseq.take(config.mounts.len() as int) =~= mseq);
    }
    let ghost eseq = config.env.deep_view();
    let mut j: usize = 0;
    proof {
        assert(with_mounts + setenv_args(eseq.take(0)) =~= with_mounts);
    }
    while j < config.env.len()
        invariant
            j <= config.env.len(),
            config.env.deep_view() == eseq,
            args.deep_view() == with_mounts + setenv_args(eseq.take(j as int)),
        decreases config.env.len() - j,
    {
        let ghost pre = args.deep_view();
        push_arg(&mut args, "--setenv");
        push_arg_string(&mut args, config.env[j].clone());
        proof {
            assert(eseq.take(j + 1).drop_last() =~= eseq.take(j as int));
            assert(setenv_args(eseq.take(j + 1)) =~= setenv_args(eseq.take(j as int)) + seq![
                "--setenv"@,
                eseq[j as int],
            ]);
            assert(with_mounts + setenv_args(eseq.take(j + 1)) =~= pre.push("--setenv"@).push(
                eseq[j as int],
            ));
        }
        j += 1;
    }
    proof {
        assert(eseq.take(config.env.len() as int) =~= eseq);
    }
    push_command_tail(&mut args, config, command);
    let r = Invocation { program: String::from_str("systemd-nspawn"), args, env: Vec::new() };
    proof {
        assert(r.env.deep_view() =~= Seq::<(Seq<char>, Seq<char>)>::empty());
        assert(r@ =~= nspawn_invocation_spec(
            config@,
            jail_name@,
            pid as nat,
            command.deep_view(),
        ));
    }
    r
}

/// Builds the namespace-backend invocation, as `bwrap_invocation_spec`
/// describes; `x11` and `dri` say whether the corresponding host paths
/// exist.
pub fn build_bubblewrap_invocation(
    config: &JailConfig,
    command: &Vec<String>,
    x11: bool,
    dri: bool,
) -> (r: Invocation)
    ensures
        r@ == bwrap_invocation_spec(config@, command.deep_view(), x11, dri),
{
    let mut args: Vec<String> = Vec::new();
    push_arg(&mut args, "--unshare-all");
    push_arg(&mut args, "--share-net");
    push_arg(&mut args, "--ro-bind");
    push_arg(&mut args, "/usr");
    push_arg(&mut args, "/usr");
    push_arg(&mut args, "--ro-bind");
    push_arg(&mut args, "/lib");
    push_arg(&mut args, "/lib");
    push_arg(&mut args, "--ro-bind");
    push_arg(&mut args, "/lib64");
    push_arg(&mut args, "/lib64");
    push_arg(&mut args, "--bind");
    push_arg_string(&mut args, config.root.clone());
    push_arg(&mut args, "/");
    push_arg(&mut args, "--bind");
    push_arg(&mut args, "/tmp");
    push_arg(&mut args, "/tmp");
    push_arg(&mut args, "--bind");
    push_arg(&mut args, "/dev");
    push_arg(&mut args, "/dev");
    push_arg(&mut args, "--bind");
    push_arg(&mut args, "/proc");
    push_arg(&mut args, "/proc");
    push_arg(&mut args, "--bind");
    push_arg(&mut args, "/sys");
    push_arg(&mut args, "/sys");
    push_arg(&mut args, "--bind");
    push_arg(&mut args, "/run");
    push_arg(&mut args, "/run");
    push_arg(&mut args, "--bind");
    push_arg(&mut args, "/etc/resolv.conf");
    push_arg(&mut args, "/etc/resolv.conf");
    proof {
        assert(args.deep_view() =~= bwrap_base_args(config@.root));
    }
    if x11 {
        push_arg(&mut args, "--bind");
        push_arg(&mut args, "/tmp/.X11-unix");
        push_arg(&mut args, "/tmp/.X11-unix");
    }
    let ghost with_x11 = bwrap_base_args(config@.root) + display_bind_args(x11);
    proof {
        assert(args.deep_view() =~= with_x11);
    }
    if dri {
        push_arg(&mut args, "--bind");
        push_arg(&mut args, "/dev/dri");
        push_arg(&mut args, "/dev/dri");
    }
    let ghost with_dri = with_x11 + dri_bind_args(dri);
    proof {
        assert(args.deep_view() =~= with_dri);
    }
    push_command_tail(&mut args, config, command);
    let mut env: Vec<(String, String)> = Vec::new();
    let ghost eseq = config.env.deep_view();
    let mut j: usize = 0;
    proof {
        assert(env.deep_view() =~= bwrap_env_spec(eseq.take(0)));
    }
    while j < config.env.len()
        invariant
            j <= config.env.len(),
            config.env.deep_view() == eseq,
            env.deep_view() == bwrap_env_spec(eseq.take(j as int)),
        decreases config.env.len() - j,
    {
        let entry = config.env[j].as_str();
        let elen = entry.unicode_len();
        let p = crate::text::find_char(entry, '=');
        proof {
            crate::text::lemma_find_pos(entry@, '=');
        }
        let ghost pre = env.deep_view();
        if p < elen {
            let key = String::from_str(entry.substring_char(0, p));
            let value = String::from_str(entry.substring_char(p + 1, elen));
            env.push((key, value));
            proof {
                assert(env.deep_view() =~= pre.push(
                    (
                        eseq[j as int].subrange(0, find_pos(eseq[j as int], '=')),
                        eseq[j as int].subrange(
                            find_pos(eseq[j as int], '=') + 1,
                            eseq[j as int].len() as int,
                        ),
                    ),
                ));
                assert(pre + env_pair_args(eseq[j as int]) =~= env.deep_view());
            }
        } else {
            proof {
                assert(pre + env_pair_args(eseq[j as int]) =~= pre);
            }
        }
        proof {
            assert(eseq.take(j + 1).drop_last() =~= eseq.take(j as int));
            assert(bwrap_env_spec(eseq.take(j + 1)) =~= bwrap_env_spec(eseq.take(j as int))
                + env_pair_args(eseq[j as int]));
        }
        j += 1;
    }
    proof {
        assert(eseq.take(config.env.len() as int) =~= eseq);
    }
    let r = Invocation { program: String::from_str("bwrap"), args, env };
    proof {
        assert(r@ =~= bwrap_invocation_spec(config@, command.deep_view(), x11, dri));
    }
    r
}

} // verus!
