//! Type annotations and argument declarations referenced by class members.

use vstd::prelude::*;
use crate::imports::ImportSet;

verus! {

/// A textual Python type annotation together with the modules it requires.
pub struct TypeInfo {
    /// The annotation text, for example `int` or `pathlib.Path`.
    pub name: String,
    /// The modules that must be imported for the annotation to resolve.
    pub import: ImportSet,
}

impl TypeInfo {
    /// The import entries never repeat a module.
    pub open spec fn wf(&self) -> bool {
        self.import.wf()
    }

    /// An annotation with the given text and no required module.
    pub fn unqualified(name: String) -> (r: TypeInfo)
        ensures
            r.name@ == name@,
            r.import@ == Set::<Seq<char>>::empty(),
            r.wf(),
    {
        TypeInfo { name, import: ImportSet::new() }
    }

    /// An annotation with the given text that requires the one module `module`.
    pub fn qualified(name: String, module: String) -> (r: TypeInfo)
        ensures
            r.name@ == name@,
            r.import@ == Set::<Seq<char>>::empty().insert(module@),
            r.wf(),
    {
        TypeInfo { name, import: ImportSet::single(module) }
    }

    /// An independent copy of the annotation.
    pub fn duplicate(&self) -> (r: TypeInfo)
        requires
            self.wf(),
        ensures
            r.name@ == self.name@,
            r.import@ == self.import@,
            r.wf(),
    {
        TypeInfo { name: clone_string(&self.name), import: self.import.duplicate() }
    }
}

/// One declared parameter of a method or constructor.
pub struct Arg {
    /// The parameter name.
    pub name: String,
    /// The parameter's type annotation.
    pub ty: TypeInfo,
    /// The rendered default value, if the parameter has one.
    pub default: Option<String>,
}

/// The text of one parameter entry: `name: type`, with ` = default` appended
/// when a default value is present.
pub open spec fn spec_arg_render(a: Arg) -> Seq<char> {
    a.name@ + ": "@ + a.ty.name@ + match a.default {
        Some(d) => " = "@ + d@,
        None => Seq::<char>::empty(),
    }
}

/// The parameter-list text of `args` when a receiver token precedes them:
/// a `", "` separator before every entry.
pub open spec fn spec_args_tail(args: Seq<Arg>) -> Seq<char>
    decreases args.len(),
{
    if args.len() == 0 {
        Seq::empty()
    } else {
        spec_args_tail(args.drop_last()) + ", "@ + spec_arg_render(args.last())
    }
}

/// The parameter-list text of `args` standing alone: `", "` between
/// consecutive entries, none leading and none trailing.
pub open spec fn spec_args_alone(args: Seq<Arg>) -> Seq<char>
    decreases args.len(),
{
    if args.len() == 0 {
        Seq::empty()
    } else if args.len() == 1 {
        spec_arg_render(args[0])
    } else {
        spec_args_alone(args.drop_last()) + ", "@ + spec_arg_render(args.last())
    }
}

/// Texts joined by a `", "` separator between consecutive entries, with no
/// leading and no trailing separator.
pub open spec fn spec_comma_join(items: Seq<Seq<char>>) -> Seq<char>
    decreases items.len(),
{
    if items.len() == 0 {
        Seq::empty()
    } else if items.len() == 1 {
        items[0]
    } else {
        spec_comma_join(items.drop_last()) + ", "@ + items.last()
    }
}

/// A parameter list without a receiver is the comma-separated join of each
/// argument's own rendering.
pub proof fn lemma_args_alone_is_comma_join(args: Seq<Arg>)
    ensures
        spec_args_alone(args) == spec_comma_join(
            args.map_values(|a: Arg| spec_arg_render(a)),
        ),
    decreases args.len(),
{
    let items = args.map_values(|a: Arg| spec_arg_render(a));
    if args.len() > 1 {
        lemma_args_alone_is_comma_join(args.drop_last());
        assert(items.drop_last() =~= args.drop_last().map_values(|a: Arg| spec_arg_render(a)));
        assert(items.last() == spec_arg_render(args.last()));
    } else if args.len() == 1 {
        assert(items[0] == spec_arg_render(args[0]));
    }
}

/// A parameter list led by a receiver token is the comma-separated join of
/// the receiver and each argument's own rendering, in order.
pub proof fn lemma_receiver_params_are_comma_join(recv: Seq<char>, args: Seq<Arg>)
    ensures
        recv + spec_args_tail(args) == spec_comma_join(
            seq![recv] + args.map_values(|a: Arg| spec_arg_render(a)),
        ),
    decreases args.len(),
{
    let items = seq![recv] + args.map_values(|a: Arg| spec_arg_render(a));
    if args.len() == 0 {
        assert(items.len() == 1);
        assert(items[0] == recv);
        assert(recv + spec_args_tail(args) =~= recv);
    } else {
        lemma_receiver_params_are_comma_join(recv, args.drop_last());
        assert(items.len() >= 2);
        assert(items.drop_last() =~= seq![recv] + args.drop_last().map_values(
            |a: Arg| spec_arg_render(a),
        ));
        assert(items.last() == spec_arg_render(args.last()));
        assert(recv + spec_args_tail(args) =~= (recv + spec_args_tail(args.drop_last())) + ", "@
            + spec_arg_render(args.last()));
    }
}

/// Argument lists whose entries render alike produce the same list text.
pub proof fn lemma_args_render_congruent(a: Seq<Arg>, b: Seq<Arg>)
    requires
        a.len() == b.len(),
        forall|j: int| 0 <= j < a.len() ==> spec_arg_render(#[trigger] a[j]) == spec_arg_render(
            b[j],
        ),
    ensures
        spec_args_tail(a) == spec_args_tail(b),
        spec_args_alone(a) == spec_args_alone(b),
    decreases a.len(),
{
    if a.len() > 0 {
        assert(forall|j: int| 0 <= j < a.drop_last().len() ==> spec_arg_render(
            #[trigger] a.drop_last()[j],
        ) == spec_arg_render(b.drop_last()[j]));
        lemma_args_render_congruent(a.drop_last(), b.drop_last());
        assert(spec_arg_render(a.last()) == spec_arg_render(b.last()));
    }
}

/// Argument lists whose entries require the same modules require the same
/// union of modules.
pub proof fn lemma_args_imports_congruent(a: Seq<Arg>, b: Seq<Arg>)
    requires
        a.len() == b.len(),
        forall|j: int| 0 <= j < a.len() ==> (#[trigger] a[j]).ty.import@ == b[j].ty.import@,
    ensures
        spec_args_imports(a) == spec_args_imports(b),
    decreases a.len(),
{
    if a.len() > 0 {
        assert(forall|j: int| 0 <= j < a.drop_last().len() ==> (#[trigger] a.drop_last()[j]).ty.import@
            == b.drop_last()[j].ty.import@);
        lemma_args_imports_congruent(a.drop_last(), b.drop_last());
        assert(a.last().ty.import@ == b.last().ty.import@);
    }
}

/// The union of the modules required by each argument's type annotation.
pub open spec fn spec_args_imports(args: Seq<Arg>) -> Set<Seq<char>>
    decreases args.len(),
{
    if args.len() == 0 {
        Set::empty()
    } else {
        spec_args_imports(args.drop_last()) + args.last().ty.import@
    }
}

/// A module is required by an argument list exactly when some argument's
/// type annotation requires it.
pub proof fn lemma_args_imports_complete(args: Seq<Arg>, m: Seq<char>)
    ensures
        spec_args_imports(args).contains(m) <==> exists|j: int|
            0 <= j < args.len() && args[j].ty.import@.contains(m),
    decreases args.len(),
{
    if args.len() > 0 {
        lemma_args_imports_complete(args.drop_last(), m);
        if args.last().ty.import@.contains(m) {
            assert(args[args.len() - 1].ty.import@.contains(m));
        } else if spec_args_imports(args.drop_last()).contains(m) {
            let j = choose|j: int|
                0 <= j < args.drop_last().len() && args.drop_last()[j].ty.import@.contains(m);
            assert(args[j].ty.import@.contains(m));
        } else if exists|j: int| 0 <= j < args.len() && args[j].ty.import@.contains(m) {
            let j = choose|j: int| 0 <= j < args.len() && args[j].ty.import@.contains(m);
            if j < args.len() - 1 {
                assert(args.drop_last()[j].ty.import@.contains(m));
            }
        }
    }
}

impl Arg {
    /// The argument's import entries never repeat a module.
    pub open spec fn wf(&self) -> bool {
        self.ty.wf()
    }

    /// An argument without a default value.
    pub fn plain(name: String, ty: TypeInfo) -> (r: Arg)
        ensures
            r.name@ == name@,
            r.ty == ty,
            r.default is None,
    {
        Arg { name, ty, default: None }
    }

    /// An argument carrying a rendered default value.
    pub fn with_default(name: String, ty: TypeInfo, default: String) -> (r: Arg)
        ensures
            r.name@ == name@,
            r.ty == ty,
            r.default matches Some(d) && d@ == default@,
    {
        Arg { name, ty, default: Some(default) }
    }

    /// The modules this argument's type annotation requires.
    pub fn import(&self) -> (r: ImportSet)
        requires
            self.wf(),
        ensures
            r.wf(),
            r@ == self.ty.import@,
    {
        self.ty.import.duplicate()
    }

    /// The text of this parameter entry.
    pub fn render(&self) -> (r: String)
        ensures
            r@ == spec_arg_render(*self),
    {
        let mut out = clone_string(&self.name);
        out.append(": ");
        out.append(self.ty.name.as_str());
        match &self.default {
            Some(d) => {
                out.append(" = ");
                out.append(d.as_str());
            },
            None => {},
        }
        out
    }

    /// An independent copy of the argument.
    pub fn duplicate(&self) -> (r: Arg)
        requires
            self.wf(),
        ensures
            r.name@ == self.name@,
            r.ty.name@ == self.ty.name@,
            r.ty.import@ == self.ty.import@,
            spec_option_text(r.default) == spec_option_text(self.default),
            spec_arg_render(r) == spec_arg_render(*self),
            r.wf(),
    {
        let default = match &self.default {
            Some(d) => Some(clone_string(d)),
            None => None,
        };
        Arg { name: clone_string(&self.name), ty: self.ty.duplicate(), default }
    }
}

/// The text of an optional rendered value: `None` when absent.
pub open spec fn spec_option_text(o: Option<String>) -> Option<Seq<char>> {
    match o {
        Some(s) => Some(s@),
        None => None,
    }
}

/// An owned copy of one string.
fn clone_string(s: &String) -> (r: String)
    ensures
        r@ == s@,
{
    s.clone()
}

} // verus!
