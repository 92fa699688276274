//! The declarative per-jail configuration and its line-oriented parser.
//!
//! A configuration file is UTF-8 text, one `key=value` pair per line,
//! split on the first `=` only. Unrecognized keys and lines without `=`
//! are silently ignored, so parsing is total: any text yields a fully
//! populated `JailConfig`, with the lookup key as the default `name` and
//! empty strings and lists for everything unspecified. Validation (an
//! existing root, well-shaped `env` entries) is deliberately deferred to
//! backend invocation.

use vstd::prelude::*;
use vstd::string::*;

use crate::split::split_on;
use crate::split::split_on_spec;
use crate::text::find_char;
use crate::text::find_pos;
use crate::text::str_eq;
use crate::text::trim;
use crate::text::trim_spec;

verus! {

/// One jail's fully resolved configuration.
pub struct JailConfig {
    pub name: String,
    pub root: String,
    pub pkgmgr: String,
    pub pkgmgr_args: String,
    pub mounts: Vec<String>,
    pub env: Vec<String>,
}

/// The mathematical content of a `JailConfig`.
#[verifier::ext_equal]
pub ghost struct ConfigView {
    pub name: Seq<char>,
    pub root: Seq<char>,
    pub pkgmgr: Seq<char>,
    pub pkgmgr_args: Seq<char>,
    pub mounts: Seq<Seq<char>>,
    pub env: Seq<Seq<char>>,
}

impl View for JailConfig {
    type V = ConfigView;

    open spec fn view(&self) -> ConfigView {
        ConfigView {
            name: self.name@,
            root: self.root@,
            pkgmgr: self.pkgmgr@,
            pkgmgr_args: self.pkgmgr_args@,
            mounts: self.mounts.deep_view(),
            env: self.env.deep_view(),
        }
    }
}

/// The configuration a jail has before any line of its file is read:
/// the lookup key as its name, everything else empty.
pub open spec fn initial_config_view(jail: Seq<char>) -> ConfigView {
    ConfigView {
        name: jail,
        root: Seq::empty(),
        pkgmgr: Seq::empty(),
        pkgmgr_args: Seq::empty(),
        mounts: Seq::empty(),
        env: Seq::empty(),
    }
}

/// The comma-separated segments of `val`, each trimmed, in order.
pub open spec fn list_segments(val: Seq<char>) -> Seq<Seq<char>> {
    split_on_spec(val, ',').map_values(|m: Seq<char>| trim_spec(m))
}

/// The effect of one configuration line: split on the first `=`, trim
/// key and value, then either overwrite a scalar field, extend a list
/// field, or—for an unrecognized key or a line without `=`—change
/// nothing.
pub open spec fn apply_line(c: ConfigView, line: Seq<char>) -> ConfigView {
    let p = find_pos(line, '=');
    if p == line.len() {
        c
    } else {
        let key = trim_spec(line.subrange(0, p));
        let val = trim_spec(line.subrange(p + 1, line.len() as int));
        if key == "name"@ {
            ConfigView { name: val, ..c }
        } else if key == "root"@ {
            ConfigView { root: val, ..c }
        } else if key == "pkgmgr"@ {
            ConfigView { pkgmgr: val, ..c }
        } else if key == "pkgmgr_args"@ {
            ConfigView { pkgmgr_args: val, ..c }
        } else if key == "mounts"@ {
            ConfigView { mounts: c.mounts + list_segments(val), ..c }
        } else if key == "env"@ {
            ConfigView { env: c.env + list_segments(val), ..c }
        } else {
            c
        }
    }
}

/// The lines applied in file order.
pub open spec fn apply_lines(c: ConfigView, lines: Seq<Seq<char>>) -> ConfigView
    decreases lines.len(),
{
    if lines.len() == 0 {
        c
    } else {
        apply_line(apply_lines(c, lines.drop_last()), lines.last())
    }
}

/// What parsing `content` under the lookup key `jail` yields.
pub open spec fn parse_config_spec(jail: Seq<char>, content: Seq<char>) -> ConfigView {
    apply_lines(initial_config_view(jail), split_on_spec(content, '\n'))
}

/// Appends the trimmed comma-separated segments of `val` to `dst`.
fn push_list_segments(dst: &mut Vec<String>, val: &str)
    ensures
        final(dst).deep_view() == old(dst).deep_view() + list_segments(val@),
{
    let segs = split_on(val, ',');
    let ghost sseq = segs.deep_view();
    let mut i: usize = 0;
    proof {
        assert(sseq.take(0).map_values(|m: Seq<char>| trim_spec(m)) =~= Seq::<Seq<char>>::empty());
        assert(dst.deep_view() + Seq::<Seq<char>>::empty() =~= dst.deep_view());
    }
    while i < segs.len()
        invariant
            i <= segs.len(),
            sseq == split_on_spec(val@, ','),
            segs.deep_view() == sseq,
            dst.deep_view() == old(dst).deep_view() + sseq.take(i as int).map_values(
                |m: Seq<char>| trim_spec(m),
            ),
        decreases segs.len() - i,
    {
        let t = trim(segs[i].as_str());
        let ghost pre = dst.deep_view();
        dst.push(t);
        proof {
            assert(dst.deep_view() =~= pre.push(trim_spec(sseq[i as int])));
            assert(sseq.take(i + 1) =~= sseq.take(i as int).push(sseq[i as int]));
            assert(sseq.take(i + 1).map_values(|m: Seq<char>| trim_spec(m)) =~= sseq.take(
                i as int,
            ).map_values(|m: Seq<char>| trim_spec(m)).push(trim_spec(sseq[i as int])));
            assert(old(dst).deep_view() + sseq.take(i + 1).map_values(|m: Seq<char>| trim_spec(m))
                =~= pre.push(trim_spec(sseq[i as int])));
        }
        i += 1;
    }
    proof {
        assert(sseq.take(segs.len() as int) =~= sseq);
    }
}

/// Applies one configuration line to `cfg`, as `apply_line` describes.
fn apply_config_line(cfg: &mut JailConfig, line: &str)
    ensures
        final(cfg)@ == apply_line(old(cfg)@, line@),
{
    let len = line.unicode_len();
    let p = find_char(line, '=');
    proof {
        crate::text::lemma_find_pos(line@, '=');
    }
    if p == len {
        return ;
    }
    let key = trim(line.substring_char(0, p));
    let val = trim(line.substring_char(p + 1, len));
    if str_eq(key.as_str(), "name") {
        cfg.name = val;
    } else if str_eq(key.as_str(), "root") {
        cfg.root = val;
    } else if str_eq(key.as_str(), "pkgmgr") {
        cfg.pkgmgr = val;
    } else if str_eq(key.as_str(), "pkgmgr_args") {
        cfg.pkgmgr_args = val;
    } else if str_eq(key.as_str(), "mounts") {
        push_list_segments(&mut cfg.mounts, val.as_str());
    } else if str_eq(key.as_str(), "env") {
        push_list_segments(&mut cfg.env, val.as_str());
    }
    proof {
        assert(final(cfg)@ =~= apply_line(old(cfg)@, line@));
    }
}

/// Parses `content` as the configuration of the jail looked up under
/// `jail_name`. Total: every input yields a configuration, as
/// `parse_config_spec` describes.
pub fn parse_jail_config(jail_name: &str, content: &str) -> (r: JailConfig)
    ensures
        r@ == parse_config_spec(jail_name@, content@),
{
    let mut cfg = JailConfig {
        name: String::from_str(jail_name),
        root: String::new(),
        pkgmgr: String::new(),
        pkgmgr_args: String::new(),
        mounts: Vec::new(),
        env: Vec::new(),
    };
    proof {
        assert(cfg.mounts.deep_view() =~= Seq::<Seq<char>>::empty());
        assert(cfg.env.deep_view() =~= Seq::<Seq<char>>::empty());
        assert(cfg@ =~= initial_config_view(jail_name@));
    }
    let lines = split_on(content, '\n');
    let ghost lseq = lines.deep_view();
    let mut i: usize = 0;
    proof {
        assert(lseq.take(0) =~= Seq::<Seq<char>>::empty());
    }
    while i < lines.len()
        invariant
            i <= lines.len(),
            lines.deep_view() == lseq,
            lseq == split_on_spec(content@, '\n'),
            cfg@ == apply_lines(initial_config_view(jail_name@), lseq.take(i as int)),
        decreases lines.len() - i,
    {
        apply_config_line(&mut cfg, lines[i].as_str());
        proof {
            assert(lseq.take(i + 1).drop_last() =~= lseq.take(i as int));
            assert(lseq.take(i + 1).last() == lseq[i as int]);
        }
        i += 1;
    }
    proof {
        assert(lseq.take(lines.len() as int) =~= lseq);
    }
    cfg
}

/// The fixed location of a jail's configuration file, derived from its
/// name.
pub fn config_path(jail_name: &str) -> (r: String)
    ensures
        r@ == "/etc/trimorph/jails.d/"@ + jail_name@ + ".conf"@,
{
    let mut p = String::from_str("/etc/trimorph/jails.d/");
    p.append(jail_name);
    p.append(".conf");
    p
}

} // verus!
