//! Splitting strings into segments and tokens, and expanding the `{root}`
//! placeholder of the package-manager argument template.
//!
//! The splitting specs are written as left folds over the characters,
//! carrying the segment built so far and the segments already finished;
//! the executable loops mirror them one character at a time.

use vstd::prelude::*;
use vstd::string::*;

use crate::text::is_space;
use crate::text::is_space_char;

verus! {

/// One step per character: a delimiter closes the current segment, any
/// other character extends it; the final segment is always emitted, so a
/// split has one segment more than delimiters, empty segments included.
pub open spec fn split_char_rec(
    s: Seq<char>,
    c: char,
    cur: Seq<char>,
    acc: Seq<Seq<char>>,
) -> Seq<Seq<char>>
    decreases s.len(),
{
    if s.len() == 0 {
        acc.push(cur)
    } else if s[0] == c {
        split_char_rec(s.drop_first(), c, Seq::empty(), acc.push(cur))
    } else {
        split_char_rec(s.drop_first(), c, cur.push(s[0]), acc)
    }
}

/// The segments of `s` between occurrences of `c`, in order, with empty
/// segments kept.
pub open spec fn split_on_spec(s: Seq<char>, c: char) -> Seq<Seq<char>> {
    split_char_rec(s, c, Seq::empty(), Seq::empty())
}

/// Splits `s` on every occurrence of `c`, as `split_on_spec` describes.
pub fn split_on(s: &str, c: char) -> (r: Vec<String>)
    ensures
        r.deep_view() == split_on_spec(s@, c),
{
    let len = s.unicode_len();
    let mut acc: Vec<String> = Vec::new();
    let mut start: usize = 0;
    let mut i: usize = 0;
    proof {
        assert(s@.subrange(0, len as int) =~= s@);
        assert(s@.subrange(0, 0) =~= Seq::<char>::empty());
        assert(acc.deep_view() =~= Seq::<Seq<char>>::empty());
    }
    while i < len
        invariant
            start <= i <= len,
            len == s@.len(),
            split_char_rec(
                s@.subrange(i as int, len as int),
                c,
                s@.subrange(start as int, i as int),
                acc.deep_view(),
            ) == split_on_spec(s@, c),
        decreases len - i,
    {
        let ch = s.get_char(i);
        proof {
            assert(s@.subrange(i as int, len as int)[0] == s@[i as int]);
            assert(s@.subrange(i as int, len as int).drop_first() =~= s@.subrange(
                i + 1,
                len as int,
            ));
        }
        if ch == c {
            let piece = String::from_str(s.substring_char(start, i));
            let ghost pre = acc.deep_view();
            acc.push(piece);
            proof {
                assert(acc.deep_view() =~= pre.push(piece@));
                assert(s@.subrange(i + 1, i + 1) =~= Seq::<char>::empty());
            }
            start = i + 1;
            i += 1;
        } else {
            proof {
                assert(s@.subrange(start as int, i as int).push(s@[i as int]) =~= s@.subrange(
                    start as int,
                    i + 1,
                ));
            }
            i += 1;
        }
    }
    let piece = String::from_str(s.substring_char(start, len));
    let ghost pre = acc.deep_view();
    acc.push(piece);
    proof {
        assert(acc.deep_view() =~= pre.push(piece@));
    }
    acc
}

/// One step per character: whitespace closes the current token (dropped
/// when empty), any other character extends it; runs of whitespace thus
/// yield no empty tokens.
pub open spec fn split_ws_rec(s: Seq<char>, cur: Seq<char>, acc: Seq<Seq<char>>) -> Seq<
    Seq<char>,
>
    decreases s.len(),
{
    if s.len() == 0 {
        if cur.len() == 0 {
            acc
        } else {
            acc.push(cur)
        }
    } else if is_space_char(s[0]) {
        if cur.len() == 0 {
            split_ws_rec(s.drop_first(), Seq::empty(), acc)
        } else {
            split_ws_rec(s.drop_first(), Seq::empty(), acc.push(cur))
        }
    } else {
        split_ws_rec(s.drop_first(), cur.push(s[0]), acc)
    }
}

/// The maximal runs of non-whitespace characters of `s`, in order.
pub open spec fn split_ws_spec(s: Seq<char>) -> Seq<Seq<char>> {
    split_ws_rec(s, Seq::empty(), Seq::empty())
}

/// Splits `s` on runs of whitespace, as `split_ws_spec` describes.
pub fn split_whitespace_tokens(s: &str) -> (r: Vec<String>)
    ensures
        r.deep_view() == split_ws_spec(s@),
{
    let len = s.unicode_len();
    let mut acc: Vec<String> = Vec::new();
    let mut start: usize = 0;
    let mut i: usize = 0;
    proof {
        assert(s@.subrange(0, len as int) =~= s@);
        assert(s@.subrange(0, 0) =~= Seq::<char>::empty());
        assert(acc.deep_view() =~= Seq::<Seq<char>>::empty());
    }
    while i < len
        invariant
            start <= i <= len,
            len == s@.len(),
            split_ws_rec(
                s@.subrange(i as int, len as int),
                s@.subrange(start as int, i as int),
                acc.deep_view(),
            ) == split_ws_spec(s@),
        decreases len - i,
    {
        let ch = s.get_char(i);
        proof {
            assert(s@.subrange(i as int, len as int)[0] == s@[i as int]);
            assert(s@.subrange(i as int, len as int).drop_first() =~= s@.subrange(
                i + 1,
                len as int,
            ));
        }
        if is_space(ch) {
            if start < i {
                let piece = String::from_str(s.substring_char(start, i));
                let ghost pre = acc.deep_view();
                acc.push(piece);
                proof {
                    assert(acc.deep_view() =~= pre.push(piece@));
                }
            }
            proof {
                assert(s@.subrange(i + 1, i + 1) =~= Seq::<char>::empty());
            }
            start = i + 1;
            i += 1;
        } else {
            proof {
                assert(s@.subrange(start as int, i as int).push(s@[i as int]) =~= s@.subrange(
                    start as int,
                    i + 1,
                ));
            }
            i += 1;
        }
    }
    if start < len {
        let piece = String::from_str(s.substring_char(start, len));
        let ghost pre = acc.deep_view();
        acc.push(piece);
        proof {
            assert(acc.deep_view() =~= pre.push(piece@));
        }
    }
    acc
}

/// The placeholder token `{root}`.
pub open spec fn root_pat() -> Seq<char> {
    seq!['{', 'r', 'o', 'o', 't', '}']
}

/// `s` with every occurrence of `{root}` replaced by `root`, scanning
/// left to right without overlap, exactly as a plain string replacement
/// behaves.
pub open spec fn expand_root_spec(s: Seq<char>, root: Seq<char>) -> Seq<char>
    decreases s.len(),
{
    if s.len() == 0 {
        Seq::empty()
    } else if s.len() >= 6 && s.subrange(0, 6) == root_pat() {
        root + expand_root_spec(s.subrange(6, s.len() as int), root)
    } else {
        seq![s[0]] + expand_root_spec(s.drop_first(), root)
    }
}

/// The placeholder occurs in `s` exactly at position `at`.
fn root_pat_at(s: &str, at: usize) -> (r: bool)
    requires
        at + 6 <= s@.len(),
    ensures
        r == (s@.subrange(at as int, at + 6) == root_pat()),
{
    let _slen = s.unicode_len();
    let r = s.get_char(at) == '{' && s.get_char(at + 1) == 'r' && s.get_char(at + 2) == 'o'
        && s.get_char(at + 3) == 'o' && s.get_char(at + 4) == 't' && s.get_char(at + 5) == '}';
    proof {
        let sub = s@.subrange(at as int, at + 6);
        assert(sub[0] == s@[at as int]);
        assert(sub[1] == s@[at + 1]);
        assert(sub[2] == s@[at + 2]);
        assert(sub[3] == s@[at + 3]);
        assert(sub[4] == s@[at + 4]);
        assert(sub[5] == s@[at + 5]);
        if r {
            assert(sub =~= root_pat());
        }
    }
    r
}

/// Replaces every `{root}` placeholder in `template` by `root`, as
/// `expand_root_spec` describes.
pub fn expand_root(template: &str, root: &str) -> (r: String)
    ensures
        r@ == expand_root_spec(template@, root@),
{
    let len = template.unicode_len();
    let mut out = String::new();
    let mut i: usize = 0;
    proof {
        assert(template@.subrange(0, len as int) =~= template@);
    }
    while i < len
        invariant
            i <= len,
            len == template@.len(),
            out@ + expand_root_spec(template@.subrange(i as int, len as int), root@)
                == expand_root_spec(template@, root@),
        decreases len - i,
    {
        let ghost rest = template@.subrange(i as int, len as int);
        let ghost pre = out@;
        if len >= 6 && i <= len - 6 && root_pat_at(template, i) {
            out.append(root);
            proof {
                assert(rest.subrange(0, 6) =~= template@.subrange(i as int, i + 6));
                assert(rest.subrange(6, rest.len() as int) =~= template@.subrange(
                    i + 6,
                    len as int,
                ));
                assert((pre + root@) + expand_root_spec(template@.subrange(i + 6, len as int), root@)
                    =~= pre + (root@ + expand_root_spec(
                    template@.subrange(i + 6, len as int),
                    root@,
                )));
            }
            i += 6;
        } else {
            let piece = template.substring_char(i, i + 1);
            out.append(piece);
            proof {
                assert(rest[0] == template@[i as int]);
                assert(rest.drop_first() =~= template@.subrange(i + 1, len as int));
                assert(piece@ =~= seq![rest[0]]);
                if rest.len() >= 6 {
                    assert(rest.subrange(0, 6) =~= template@.subrange(i as int, i + 6));
                }
                assert((pre + piece@) + expand_root_spec(template@.subrange(i + 1, len as int), root@)
                    =~= pre + (seq![rest[0]] + expand_root_spec(
                    template@.subrange(i + 1, len as int),
                    root@,
                )));
            }
            i += 1;
        }
    }
    proof {
        assert(template@.subrange(len as int, len as int) =~= Seq::<char>::empty());
        assert(out@ + Seq::<char>::empty() =~= out@);
    }
    out
}

} // verus!
