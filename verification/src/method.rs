//! Definition of a class method: a callable member with a receiver binding.

use vstd::prelude::*;
use crate::annotation::{
    Arg, TypeInfo, spec_arg_render, spec_args_alone, spec_args_imports, spec_args_tail,
    spec_comma_join, lemma_args_alone_is_comma_join, lemma_args_imports_complete,
    lemma_args_imports_congruent, lemma_args_render_congruent,
    lemma_receiver_params_are_comma_join,
};
use crate::imports::ImportSet;
use crate::annotation::spec_option_text;
use crate::text::{indent_str, lines_block, spec_doc_lines, spec_indent, spec_lines_block};

verus! {

/// Registration descriptor for a class method, supplied by the registration
/// mechanism before stub generation begins.
pub struct MethodInfo {
    /// The method name.
    pub name: &'static str,
    /// The declared parameters, in order, the receiver excluded.
    pub args: Vec<Arg>,
    /// The resolved return type annotation.
    pub ret: TypeInfo,
    /// The documentation text; empty means no documentation block.
    pub doc: &'static str,
    /// Whether the method is a static method, bound to no receiver.
    pub is_static: bool,
    /// Whether the method is a class method, bound to `cls`.
    pub is_class: bool,
}

impl MethodInfo {
    /// A validated descriptor: a non-empty name, well-formed annotations,
    /// and at most one of the two receiver flags set.
    pub open spec fn wf(&self) -> bool {
        &&& self.name@.len() > 0
        &&& !(self.is_static && self.is_class)
        &&& self.ret.wf()
        &&& forall|j: int| 0 <= j < self.args@.len() ==> (#[trigger] self.args@[j]).wf()
    }
}

/// Definition of a class method.
pub struct MethodDef {
    /// The method name.
    pub name: &'static str,
    /// The declared parameters, in order, the receiver excluded.
    pub args: Vec<Arg>,
    /// The return type annotation.
    pub ret: TypeInfo,
    /// The documentation text; empty means no documentation block.
    pub doc: &'static str,
    /// Whether the method is a static method, bound to no receiver.
    pub is_static: bool,
    /// Whether the method is a class method, bound to `cls`.
    pub is_class: bool,
}

/// The decorator line of a method: the static-method marker, the
/// class-method marker, or nothing.
pub open spec fn spec_method_decorator(m: MethodDef, depth: nat) -> Seq<char> {
    if m.is_static {
        spec_indent(depth) + "@staticmethod\n"@
    } else if m.is_class {
        spec_indent(depth) + "@classmethod\n"@
    } else {
        Seq::empty()
    }
}

/// The parameter-list text of a method: no receiver for a static method,
/// `cls` first for a class method, `self` first otherwise, with a `", "`
/// separator before every entry that is not the first token of the list.
pub open spec fn spec_method_params(m: MethodDef) -> Seq<char> {
    if m.is_static {
        spec_args_alone(m.args@)
    } else if m.is_class {
        "cls"@ + spec_args_tail(m.args@)
    } else {
        "self"@ + spec_args_tail(m.args@)
    }
}

/// A raw documentation block standing in for a method body: an opening
/// delimiter line, every line of the documentation verbatim at the indent
/// `ind`, and a closing delimiter line.
pub open spec fn spec_method_doc_block(doc: Seq<char>, ind: Seq<char>) -> Seq<char> {
    ind + "r\"\"\"\n"@ + spec_lines_block(spec_doc_lines(doc), ind) + ind + "\"\"\"\n"@
}

/// The stub text of a class method nested `depth` levels deep: the
/// decorator line, if any, then the signature
/// `def <name>(<params>) -> <return>:`. Empty documentation puts a body
/// placeholder on the signature line; non-empty documentation is emitted as
/// a raw documentation block one level deeper, which itself serves as the
/// body, and no placeholder follows.
pub open spec fn spec_method_render(m: MethodDef, depth: nat) -> Seq<char> {
    spec_method_decorator(m, depth) + spec_indent(depth) + "def "@ + m.name@ + "("@
        + spec_method_params(m) + ") -> "@ + m.ret.name@ + ":"@ + (if m.doc@.len() == 0 {
        " ...\n"@
    } else {
        "\n"@ + spec_method_doc_block(m.doc@, spec_indent(depth + 1))
    })
}

/// Renders a raw documentation block whose every line is led by `ind`.
fn method_doc_block(doc: &str, ind: &str) -> (r: String)
    ensures
        r@ == spec_method_doc_block(doc@, ind@),
{
    let body = lines_block(doc, ind);
    let mut out = String::from_str(ind);
    out.append("r\"\"\"\n");
    out.append(body.as_str());
    out.append(ind);
    out.append("\"\"\"\n");
    out
}

impl MethodDef {
    /// A well-formed method: a non-empty name, well-formed annotations, and
    /// at most one of the two receiver flags set.
    pub open spec fn wf(&self) -> bool {
        &&& self.name@.len() > 0
        &&& !(self.is_static && self.is_class)
        &&& self.ret.wf()
        &&& forall|j: int| 0 <= j < self.args@.len() ==> (#[trigger] self.args@[j]).wf()
    }

    /// Converts a registration descriptor into a method declaration.
    pub fn from(info: &MethodInfo) -> (r: MethodDef)
        requires
            info.wf(),
        ensures
            r.wf(),
            r.name@ == info.name@,
            r.doc@ == info.doc@,
            r.is_static == info.is_static,
            r.is_class == info.is_class,
            r.ret.name@ == info.ret.name@,
            r.ret.import@ == info.ret.import@,
            r.args@.len() == info.args@.len(),
            forall|j: int| 0 <= j < info.args@.len() ==> {
                &&& (#[trigger] r.args@[j]).name@ == info.args@[j].name@
                &&& r.args@[j].ty.name@ == info.args@[j].ty.name@
                &&& r.args@[j].ty.import@ == info.args@[j].ty.import@
                &&& spec_option_text(r.args@[j].default) == spec_option_text(info.args@[j].default)
                &&& spec_arg_render(r.args@[j]) == spec_arg_render(info.args@[j])
            },
            spec_args_tail(r.args@) == spec_args_tail(info.args@),
            spec_args_alone(r.args@) == spec_args_alone(info.args@),
            spec_args_imports(r.args@) == spec_args_imports(info.args@),
    {
        let n = info.args.len();
        let mut args: Vec<Arg> = Vec::new();
        let mut k: usize = 0;
        while k < n
            invariant
                k <= n,
                n == info.args@.len(),
                forall|j: int| 0 <= j < info.args@.len() ==> (#[trigger] info.args@[j]).wf(),
                args@.len() == k,
                forall|j: int| 0 <= j < k ==> {
                    &&& (#[trigger] args@[j]).wf()
                    &&& args@[j].name@ == info.args@[j].name@
                    &&& args@[j].ty.name@ == info.args@[j].ty.name@
                    &&& args@[j].ty.import@ == info.args@[j].ty.import@
                    &&& spec_option_text(args@[j].default) == spec_option_text(info.args@[j].default)
                    &&& spec_arg_render(args@[j]) == spec_arg_render(info.args@[j])
                },
            decreases n - k,
        {
            args.push(info.args[k].duplicate());
            k = k + 1;
        }
        proof {
            lemma_args_render_congruent(args@, info.args@);
            lemma_args_imports_congruent(args@, info.args@);
        }
        MethodDef {
            name: info.name,
            args,
            ret: info.ret.duplicate(),
            doc: info.doc,
            is_static: info.is_static,
            is_class: info.is_class,
        }
    }

    /// The modules required by the return type annotation and by every
    /// declared argument, as one set.
    pub fn import(&self) -> (r: ImportSet)
        requires
            self.ret.wf(),
            forall|j: int| 0 <= j < self.args@.len() ==> (#[trigger] self.args@[j]).wf(),
        ensures
            r.wf(),
            r@ == self.ret.import@ + spec_args_imports(self.args@),
    {
        let mut acc = self.ret.import.duplicate();
        let n = self.args.len();
        let mut k: usize = 0;
        while k < n
            invariant
                k <= n,
                n == self.args@.len(),
                forall|j: int| 0 <= j < self.args@.len() ==> (#[trigger] self.args@[j]).wf(),
                acc.wf(),
                acc@ == self.ret.import@ + spec_args_imports(self.args@.take(k as int)),
            decreases n - k,
        {
            acc.extend_from(&self.args[k].ty.import);
            proof {
                assert(self.args@.take(k as int + 1).drop_last() =~= self.args@.take(k as int));
                assert(self.args@.take(k as int + 1).last() == self.args@[k as int]);
                assert((self.ret.import@ + spec_args_imports(self.args@.take(k as int)))
                    + self.args@[k as int].ty.import@ =~= self.ret.import@ + spec_args_imports(
                    self.args@.take(k as int + 1),
                ));
            }
            k = k + 1;
        }
        proof {
            assert(self.args@.take(n as int) =~= self.args@);
        }
        acc
    }

    /// The stub text of this method at nesting depth `depth`.
    pub fn render(&self, depth: usize) -> (r: String)
        requires
            !(self.is_static && self.is_class),
        ensures
            r@ == spec_method_render(*self, depth as nat),
    {
        let ind = indent_str(depth);
        let mut deeper = String::from_str(ind.as_str());
        deeper.append("    ");
        proof {
            assert(deeper@ == spec_indent(depth as nat + 1));
        }
        let mut out = String::new();
        let mut needs_comma: bool = false;
        if self.is_static {
            out.append(ind.as_str());
            out.append("@staticmethod\n");
            out.append(ind.as_str());
            out.append("def ");
            out.append(self.name);
            out.append("(");
        } else if self.is_class {
            out.append(ind.as_str());
            out.append("@classmethod\n");
            out.append(ind.as_str());
            out.append("def ");
            out.append(self.name);
            out.append("(");
            out.append("cls");
            needs_comma = true;
        } else {
            out.append(ind.as_str());
            out.append("def ");
            out.append(self.name);
            out.append("(");
            out.append("self");
            needs_comma = true;
        }
        let ghost head = spec_method_decorator(*self, depth as nat) + spec_indent(depth as nat)
            + "def "@ + self.name@ + "("@;
        let ghost recv: Seq<char> = if self.is_static {
            Seq::empty()
        } else if self.is_class {
            "cls"@
        } else {
            "self"@
        };
        proof {
            if self.is_static {
                assert(out@ =~= head + recv);
            } else if self.is_class {
                assert(out@ =~= head + recv);
            } else {
                assert(out@ =~= head + recv);
            }
        }
        let n = self.args.len();
        let mut k: usize = 0;
        while k < n
            invariant
                k <= n,
                n == self.args@.len(),
                !(self.is_static && self.is_class),
                needs_comma == (if self.is_static { k > 0 } else { true }),
                recv == (if self.is_static {
                    Seq::<char>::empty()
                } else if self.is_class {
                    "cls"@
                } else {
                    "self"@
                }),
                out@ == head + recv + (if self.is_static {
                    spec_args_alone(self.args@.take(k as int))
                } else {
                    spec_args_tail(self.args@.take(k as int))
                }),
            decreases n - k,
        {
            proof {
                assert(self.args@.take(k as int + 1).drop_last() =~= self.args@.take(k as int));
                assert(self.args@.take(k as int + 1).last() == self.args@[k as int]);
            }
            if needs_comma {
                out.append(", ");
            }
            let atext = self.args[k].render();
            out.append(atext.as_str());
            proof {
                if self.is_static && k == 0 {
                    assert(self.args@.take(1int).len() == 1);
                    assert(spec_args_alone(self.args@.take(1int)) == spec_arg_render(
                        self.args@[0int],
                    ));
                    assert(out@ =~= head + recv + spec_args_alone(self.args@.take(1int)));
                } else {
                    assert(out@ =~= head + recv + (if self.is_static {
                        spec_args_alone(self.args@.take(k as int + 1))
                    } else {
                        spec_args_tail(self.args@.take(k as int + 1))
                    }));
                }
            }
            needs_comma = true;
            k = k + 1;
        }
        proof {
            assert(self.args@.take(n as int) =~= self.args@);
            assert(out@ =~= head + spec_method_params(*self));
        }
        out.append(") -> ");
        out.append(self.ret.name.as_str());
        out.append(":");
        if self.doc.is_empty() {
            out.append(" ...\n");
        } else {
            out.append("\n");
            let block = method_doc_block(self.doc, deeper.as_str());
            out.append(block.as_str());
        }
        proof {
            assert(out@ =~= spec_method_render(*self, depth as nat));
        }
        out
    }
}

/// A static method's rendering carries the static-method marker as its
/// decorator line and binds no receiver: its parameter list is exactly the
/// comma-separated join of the declared arguments' own renderings, with no
/// leading or trailing separator.
pub proof fn lemma_static_method_shape(m: MethodDef, depth: nat)
    requires
        m.is_static,
        !m.is_class,
    ensures
        spec_method_decorator(m, depth) == spec_indent(depth) + "@staticmethod\n"@,
        spec_method_params(m) == spec_comma_join(
            m.args@.map_values(|a: Arg| spec_arg_render(a)),
        ),
{
    lemma_args_alone_is_comma_join(m.args@);
}

/// A class method's rendering carries the class-method marker as its
/// decorator line and binds `cls` first: its parameter list is exactly the
/// comma-separated join of `cls` and the declared arguments' own renderings.
pub proof fn lemma_class_method_shape(m: MethodDef, depth: nat)
    requires
        m.is_class,
        !m.is_static,
    ensures
        spec_method_decorator(m, depth) == spec_indent(depth) + "@classmethod\n"@,
        spec_method_params(m) == spec_comma_join(
            seq!["cls"@] + m.args@.map_values(|a: Arg| spec_arg_render(a)),
        ),
{
    lemma_receiver_params_are_comma_join("cls"@, m.args@);
}

/// An instance method's rendering carries no decorator line and binds
/// `self` first: its parameter list is exactly the comma-separated join of
/// `self` and the declared arguments' own renderings.
pub proof fn lemma_instance_method_shape(m: MethodDef, depth: nat)
    requires
        !m.is_static,
        !m.is_class,
    ensures
        spec_method_decorator(m, depth) == Seq::<char>::empty(),
        spec_method_render(m, depth) == spec_indent(depth) + "def "@ + m.name@ + "("@
            + spec_method_params(m) + ") -> "@ + m.ret.name@ + ":"@ + (if m.doc@.len() == 0 {
            " ...\n"@
        } else {
            "\n"@ + spec_method_doc_block(m.doc@, spec_indent(depth + 1))
        }),
        spec_method_params(m) == spec_comma_join(
            seq!["self"@] + m.args@.map_values(|a: Arg| spec_arg_render(a)),
        ),
{
    lemma_receiver_params_are_comma_join("self"@, m.args@);
    assert(spec_method_render(m, depth) =~= spec_indent(depth) + "def "@ + m.name@ + "("@
        + spec_method_params(m) + ") -> "@ + m.ret.name@ + ":"@ + (if m.doc@.len() == 0 {
        " ...\n"@
    } else {
        "\n"@ + spec_method_doc_block(m.doc@, spec_indent(depth + 1))
    }));
}

/// A module is required by a method exactly when its return type requires
/// it or some declared argument's type requires it: import aggregation is
/// complete and set-valued.
pub proof fn lemma_method_imports_complete(m: MethodDef, x: Seq<char>)
    ensures
        (m.ret.import@ + spec_args_imports(m.args@)).contains(x) <==> (m.ret.import@.contains(x)
            || exists|j: int| 0 <= j < m.args@.len() && (#[trigger] m.args@[j]).ty.import@.contains(
            x,
        )),
{
    lemma_args_imports_complete(m.args@, x);
}

} // verus!
