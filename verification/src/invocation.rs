//! The concrete child-process invocation a backend builds: the launcher
//! program, its full argument list, and the environment injections to
//! apply to the spawned process. The surrounding program spawns it; the
//! library only constructs it.

use vstd::prelude::*;

verus! {

/// A fully built launcher invocation.
pub struct Invocation {
    pub program: String,
    pub args: Vec<String>,
    pub env: Vec<(String, String)>,
}

/// The mathematical content of an `Invocation`.
#[verifier::ext_equal]
pub ghost struct InvocationView {
    pub program: Seq<char>,
    pub args: Seq<Seq<char>>,
    pub env: Seq<(Seq<char>, Seq<char>)>,
}

impl View for Invocation {
    type V = InvocationView;

    open spec fn view(&self) -> InvocationView {
        InvocationView {
            program: self.program@,
            args: self.args.deep_view(),
            env: self.env.deep_view(),
        }
    }
}

/// Appends one literal argument.
pub(crate) fn push_arg(args: &mut Vec<String>, a: &str)
    ensures
        final(args).deep_view() == old(args).deep_view().push(a@),
{
    args.push(String::from_str(a));
    proof {
        assert(args.deep_view() =~= old(args).deep_view().push(a@));
    }
}

/// Appends one owned argument.
pub(crate) fn push_arg_string(args: &mut Vec<String>, a: String)
    ensures
        final(args).deep_view() == old(args).deep_view().push(a@),
{
    args.push(a);
    proof {
        assert(args.deep_view() =~= old(args).deep_view().push(a@));
    }
}

} // verus!
