//! Definition of a class member: one instance attribute or property.

use vstd::prelude::*;
use crate::annotation::TypeInfo;
use crate::imports::ImportSet;
use crate::text::{indent_str, join_doc_lines, spec_indent, spec_replace_newlines};

verus! {

/// Registration descriptor for a class member, supplied by the registration
/// mechanism before stub generation begins.
pub struct MemberInfo {
    /// The member name.
    pub name: &'static str,
    /// The resolved type annotation of the member.
    pub ty: TypeInfo,
    /// The documentation text; empty means no documentation block.
    pub doc: &'static str,
}

impl MemberInfo {
    /// A validated descriptor: a non-empty name and a well-formed annotation.
    pub open spec fn wf(&self) -> bool {
        self.name@.len() > 0 && self.ty.wf()
    }
}

/// Definition of a class member.
pub struct MemberDef {
    /// Whether the member renders as a property accessor rather than a
    /// plain typed attribute.
    pub is_property: bool,
    /// The member name.
    pub name: &'static str,
    /// The member's type annotation.
    pub ty: TypeInfo,
    /// The documentation text; empty means no documentation block.
    pub doc: &'static str,
}

/// An attached documentation block: the text wrapped in triple-quote
/// delimiters, every line led by the indent `ind`.
pub open spec fn spec_member_doc_block(doc: Seq<char>, ind: Seq<char>) -> Seq<char> {
    ind + "\"\"\""@ + spec_replace_newlines(doc, "\n"@ + ind) + "\"\"\""@ + "\n"@
}

/// The stub text of a class member nested `depth` levels deep.
///
/// A plain attribute is the one line `<name>: <type>` followed by its
/// documentation block, if any; no decorator and no body placeholder is
/// emitted. A property is the property-decorator line, the accessor
/// signature `def <name>(self) -> <type>:`, the documentation block, if
/// any, and always a body placeholder line, each block one level deeper.
pub open spec fn spec_member_render(m: MemberDef, depth: nat) -> Seq<char> {
    if m.is_property {
        spec_indent(depth) + "@property\n"@ + spec_indent(depth) + "def "@ + m.name@
            + "(self) -> "@ + m.ty.name@ + ":\n"@ + (if m.doc@.len() == 0 {
            Seq::<char>::empty()
        } else {
            spec_member_doc_block(m.doc@, spec_indent(depth + 1))
        }) + spec_indent(depth + 1) + "...\n"@
    } else {
        spec_indent(depth) + m.name@ + ": "@ + m.ty.name@ + "\n"@ + (if m.doc@.len() == 0 {
            Seq::<char>::empty()
        } else {
            spec_member_doc_block(m.doc@, spec_indent(depth + 1))
        })
    }
}

/// Renders a documentation block whose every line is led by `ind`.
fn member_doc_block(doc: &str, ind: &str) -> (r: String)
    ensures
        r@ == spec_member_doc_block(doc@, ind@),
{
    let mut cont = String::from_str("\n");
    cont.append(ind);
    let body = join_doc_lines(doc, cont.as_str());
    let mut out = String::from_str(ind);
    out.append("\"\"\"");
    out.append(body.as_str());
    out.append("\"\"\"");
    out.append("\n");
    out
}

impl MemberDef {
    /// A well-formed member: a non-empty name and a well-formed annotation.
    pub open spec fn wf(&self) -> bool {
        self.name@.len() > 0 && self.ty.wf()
    }

    /// Converts a registration descriptor into a plain-attribute member.
    pub fn from(info: &MemberInfo) -> (r: MemberDef)
        requires
            info.wf(),
        ensures
            r.wf(),
            !r.is_property,
            r.name@ == info.name@,
            r.ty.name@ == info.ty.name@,
            r.ty.import@ == info.ty.import@,
            r.doc@ == info.doc@,
    {
        MemberDef { is_property: false, name: info.name, ty: info.ty.duplicate(), doc: info.doc }
    }

    /// The modules this member's type annotation requires.
    pub fn import(&self) -> (r: ImportSet)
        requires
            self.ty.wf(),
        ensures
            r.wf(),
            r@ == self.ty.import@,
    {
        self.ty.import.duplicate()
    }

    /// The stub text of this member at nesting depth `depth`.
    pub fn render(&self, depth: usize) -> (r: String)
        ensures
            r@ == spec_member_render(*self, depth as nat),
    {
        let ind = indent_str(depth);
        let mut deeper = String::from_str(ind.as_str());
        deeper.append("    ");
        proof {
            assert(deeper@ == spec_indent(depth as nat + 1));
        }
        let mut out = String::new();
        if self.is_property {
            out.append(ind.as_str());
            out.append("@property\n");
            out.append(ind.as_str());
            out.append("def ");
            out.append(self.name);
            out.append("(self) -> ");
            out.append(self.ty.name.as_str());
            out.append(":\n");
            if !self.doc.is_empty() {
                let block = member_doc_block(self.doc, deeper.as_str());
                out.append(block.as_str());
            }
            out.append(deeper.as_str());
            out.append("...\n");
            proof {
                assert(out@ =~= spec_member_render(*self, depth as nat));
            }
        } else {
            out.append(ind.as_str());
            out.append(self.name);
            out.append(": ");
            out.append(self.ty.name.as_str());
            out.append("\n");
            if !self.doc.is_empty() {
                let block = member_doc_block(self.doc, deeper.as_str());
                out.append(block.as_str());
            }
            proof {
                assert(out@ =~= spec_member_render(*self, depth as nat));
            }
        }
        out
    }
}

/// A plain attribute renders as its attribute line `<name>: <type>` followed
/// by its documentation block and nothing else: no property decorator and no
/// body placeholder is ever emitted for it.
pub proof fn lemma_plain_member_shape(m: MemberDef, depth: nat)
    requires
        !m.is_property,
    ensures
        spec_member_render(m, depth) == spec_indent(depth) + m.name@ + ": "@ + m.ty.name@ + "\n"@
            + (if m.doc@.len() == 0 {
            Seq::<char>::empty()
        } else {
            spec_member_doc_block(m.doc@, spec_indent(depth + 1))
        }),
        m.doc@.len() == 0 ==> spec_member_render(m, depth) == spec_indent(depth) + m.name@ + ": "@
            + m.ty.name@ + "\n"@,
{
    if m.doc@.len() == 0 {
        assert(spec_member_render(m, depth) =~= spec_indent(depth) + m.name@ + ": "@ + m.ty.name@
            + "\n"@);
    }
}

/// A property renders as the property-decorator line, the accessor signature
/// `def <name>(self) -> <type>:`, its documentation block when the
/// documentation is non-empty, and then always the body placeholder line.
pub proof fn lemma_property_member_shape(m: MemberDef, depth: nat)
    requires
        m.is_property,
    ensures
        spec_member_render(m, depth) == spec_indent(depth) + "@property\n"@ + spec_indent(depth)
            + "def "@ + m.name@ + "(self) -> "@ + m.ty.name@ + ":\n"@ + (if m.doc@.len() == 0 {
            Seq::<char>::empty()
        } else {
            spec_member_doc_block(m.doc@, spec_indent(depth + 1))
        }) + spec_indent(depth + 1) + "...\n"@,
        m.doc@.len() == 0 ==> spec_member_render(m, depth) == spec_indent(depth) + "@property\n"@
            + spec_indent(depth) + "def "@ + m.name@ + "(self) -> "@ + m.ty.name@ + ":\n"@
            + spec_indent(depth + 1) + "...\n"@,
{
    if m.doc@.len() == 0 {
        assert(spec_member_render(m, depth) =~= spec_indent(depth) + "@property\n"@ + spec_indent(
            depth,
        ) + "def "@ + m.name@ + "(self) -> "@ + m.ty.name@ + ":\n"@ + spec_indent(depth + 1)
            + "...\n"@);
    }
}

} // verus!
