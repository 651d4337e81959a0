//! Definition of the `__new__` method: the object-construction entry point.

use vstd::prelude::*;
use crate::annotation::{
    Arg, spec_arg_render, spec_args_imports, spec_args_tail, spec_comma_join, spec_option_text,
    lemma_args_imports_complete, lemma_args_imports_congruent, lemma_args_render_congruent,
    lemma_receiver_params_are_comma_join,
};
use crate::imports::ImportSet;
use crate::text::{indent_str, spec_indent};

verus! {

/// Registration descriptor for a constructor, supplied by the registration
/// mechanism before stub generation begins.
pub struct NewInfo {
    /// The declared parameters, in order, the receiver excluded.
    pub args: Vec<Arg>,
}

impl NewInfo {
    /// A validated descriptor: well-formed argument annotations.
    pub open spec fn wf(&self) -> bool {
        forall|j: int| 0 <= j < self.args@.len() ==> (#[trigger] self.args@[j]).wf()
    }
}

/// Definition of the `__new__` method.
pub struct NewDef {
    /// The declared parameters, in order, the receiver excluded.
    pub args: Vec<Arg>,
}

/// The stub text of a constructor nested `depth` levels deep: always the
/// single line `def __new__(cls, <args>): ...`. The receiver is always
/// `cls`, a `", "` separator precedes every declared argument, a body
/// placeholder always terminates the line, and no documentation block is
/// ever emitted.
pub open spec fn spec_new_render(n: NewDef, depth: nat) -> Seq<char> {
    spec_indent(depth) + "def __new__("@ + "cls"@ + spec_args_tail(n.args@) + "): ...\n"@
}

impl NewDef {
    /// A well-formed constructor: well-formed argument annotations.
    pub open spec fn wf(&self) -> bool {
        forall|j: int| 0 <= j < self.args@.len() ==> (#[trigger] self.args@[j]).wf()
    }

    /// Converts a registration descriptor into a constructor declaration.
    pub fn from(info: &NewInfo) -> (r: NewDef)
        requires
            info.wf(),
        ensures
            r.wf(),
            r.args@.len() == info.args@.len(),
            forall|j: int| 0 <= j < info.args@.len() ==> {
                &&& (#[trigger] r.args@[j]).name@ == info.args@[j].name@
                &&& r.args@[j].ty.name@ == info.args@[j].ty.name@
                &&& r.args@[j].ty.import@ == info.args@[j].ty.import@
                &&& spec_option_text(r.args@[j].default) == spec_option_text(info.args@[j].default)
                &&& spec_arg_render(r.args@[j]) == spec_arg_render(info.args@[j])
            },
            spec_args_tail(r.args@) == spec_args_tail(info.args@),
            spec_args_imports(r.args@) == spec_args_imports(info.args@),
    {
        let n = info.args.len();
        let mut args: Vec<Arg> = Vec::new();
        let mut k: usize = 0;
        while k < n
            invariant
                k <= n,
                n == info.args@.len(),
                forall|j: int| 0 <= j < info.args@.len() ==> (#[trigger] info.args@[j]).wf(),
                args@.len() == k,
                forall|j: int| 0 <= j < k ==> {
                    &&& (#[trigger] args@[j]).wf()
                    &&& args@[j].name@ == info.args@[j].name@
                    &&& args@[j].ty.name@ == info.args@[j].ty.name@
                    &&& args@[j].ty.import@ == info.args@[j].ty.import@
                    &&& spec_option_text(args@[j].default) == spec_option_text(info.args@[j].default)
                    &&& spec_arg_render(args@[j]) == spec_arg_render(info.args@[j])
                },
            decreases n - k,
        {
            args.push(info.args[k].duplicate());
            k = k + 1;
        }
        proof {
            lemma_args_render_congruent(args@, info.args@);
            lemma_args_imports_congruent(args@, info.args@);
        }
        NewDef { args }
    }

    /// The modules required by every declared argument, as one set.
    pub fn import(&self) -> (r: ImportSet)
        requires
            self.wf(),
        ensures
            r.wf(),
            r@ == spec_args_imports(self.args@),
    {
        let mut acc = ImportSet::new();
        let n = self.args.len();
        let mut k: usize = 0;
        while k < n
            invariant
                k <= n,
                n == self.args@.len(),
                forall|j: int| 0 <= j < self.args@.len() ==> (#[trigger] self.args@[j]).wf(),
                acc.wf(),
                acc@ == spec_args_imports(self.args@.take(k as int)),
            decreases n - k,
        {
            acc.extend_from(&self.args[k].ty.import);
            proof {
                assert(self.args@.take(k as int + 1).drop_last() =~= self.args@.take(k as int));
                assert(self.args@.take(k as int + 1).last() == self.args@[k as int]);
            }
            k = k + 1;
        }
        proof {
            assert(self.args@.take(n as int) =~= self.args@);
        }
        acc
    }

    /// The stub text of this constructor at nesting depth `depth`.
    pub fn render(&self, depth: usize) -> (r: String)
        ensures
            r@ == spec_new_render(*self, depth as nat),
    {
        let ind = indent_str(depth);
        let mut out = String::new();
        out.append(ind.as_str());
        out.append("def __new__(");
        out.append("cls");
        let ghost head = spec_indent(depth as nat) + "def __new__("@ + "cls"@;
        proof {
            assert(out@ =~= head);
        }
        let n = self.args.len();
        let mut k: usize = 0;
        while k < n
            invariant
                k <= n,
                n == self.args@.len(),
                out@ == head + spec_args_tail(self.args@.take(k as int)),
            decreases n - k,
        {
            proof {
                assert(self.args@.take(k as int + 1).drop_last() =~= self.args@.take(k as int));
                assert(self.args@.take(k as int + 1).last() == self.args@[k as int]);
            }
            out.append(", ");
            let atext = self.args[k].render();
            out.append(atext.as_str());
            proof {
                assert(out@ =~= head + spec_args_tail(self.args@.take(k as int + 1)));
            }
            k = k + 1;
        }
        proof {
            assert(self.args@.take(n as int) =~= self.args@);
        }
        out.append("): ...\n");
        proof {
            assert(out@ =~= spec_new_render(*self, depth as nat));
        }
        out
    }
}

/// A constructor always binds `cls` first: its parameter list is exactly
/// the comma-separated join of `cls` and the declared arguments' own
/// renderings, and its whole rendering is the one signature line closed by
/// a body placeholder — no documentation block is ever emitted, whatever
/// documentation the originating descriptor carried elsewhere.
pub proof fn lemma_constructor_shape(n: NewDef, depth: nat)
    ensures
        spec_new_render(n, depth) == spec_indent(depth) + "def __new__("@ + ("cls"@
            + spec_args_tail(n.args@)) + "): ...\n"@,
        "cls"@ + spec_args_tail(n.args@) == spec_comma_join(
            seq!["cls"@] + n.args@.map_values(|a: Arg| spec_arg_render(a)),
        ),
{
    lemma_receiver_params_are_comma_join("cls"@, n.args@);
    assert(spec_new_render(n, depth) =~= spec_indent(depth) + "def __new__("@ + ("cls"@
        + spec_args_tail(n.args@)) + "): ...\n"@);
}

/// A module is required by a constructor exactly when some declared
/// argument's type annotation requires it.
pub proof fn lemma_constructor_imports_complete(n: NewDef, x: Seq<char>)
    ensures
        spec_args_imports(n.args@).contains(x) <==> exists|j: int|
            0 <= j < n.args@.len() && (#[trigger] n.args@[j]).ty.import@.contains(x),
{
    lemma_args_imports_complete(n.args@, x);
}

} // verus!
