//! The self-substitution pass of the type-expression rewriter: every
//! occurrence of the reserved self-referencing type name is replaced by a
//! supplied concrete identifier, recursively, including inside generic
//! arguments and equality constraints.
//!
//! A trait object with exactly one bound, that bound a trait path,
//! additionally collapses into the bare substituted path.  This supports
//! constructor-style methods declared to return "a type satisfying this
//! interface", where the intended concrete answer is the mock type itself;
//! the pass assumes the sole bound is the mocked interface and does not
//! check it, so on an unrelated sole bound the collapse still happens.
//! Trait objects with zero or several bounds keep their shape and have
//! their inner paths substituted.

use vstd::prelude::*;

use crate::ast::{
    Bound, BoundV, DiagKind, Diagnostic, GenericArg, GenericArgV, Ident, Path, PathSegV, PathV,
    PathSegment, TypeExpr, TypeExprV, bound_v, bounds_v, generic_arg_v, generic_args_v,
    lemma_bounds_v, lemma_generic_args_v, lemma_path_segs_v, lemma_type_exprs_v, path_seg_v,
    path_segs_v, self_name, type_expr_v, type_exprs_v,
};
use crate::shape::{
    lemma_rewrite_safe_args, lemma_rewrite_safe_bounds, lemma_rewrite_safe_segs,
    lemma_rewrite_safe_seq, rewrite_safe, rewrite_safe_arg, rewrite_safe_args,
    rewrite_safe_bound, rewrite_safe_bounds, rewrite_safe_path, rewrite_safe_segs,
    rewrite_safe_seq,
};
use crate::util::{dup_chars, dup_ident, is_self_name};

verus! {

// ---------------------------------------------------------------------------
// The self-substitution pass
// ---------------------------------------------------------------------------

/// A trait-object bound list that the pass collapses: exactly one bound,
/// and that bound a trait path.
pub open spec fn collapsible(bs: Seq<BoundV>) -> bool {
    bs.len() == 1 && bs[0] is Trait
}

/// What substituting `a` for the reserved self-name yields, recursively in
/// every type position.  A trait object with a sole trait bound collapses
/// into the bare substituted path; any other trait object keeps its shape
/// and has its inner paths substituted.
pub open spec fn deselfify_s(t: TypeExprV, a: Seq<char>) -> TypeExprV
    decreases t,
{
    match t {
        TypeExprV::Slice(e) => TypeExprV::Slice(Box::new(deselfify_s(*e, a))),
        TypeExprV::Array { elem, len } => TypeExprV::Array {
            elem: Box::new(deselfify_s(*elem, a)),
            len,
        },
        TypeExprV::Ptr { mutable, elem } => TypeExprV::Ptr {
            mutable,
            elem: Box::new(deselfify_s(*elem, a)),
        },
        TypeExprV::Reference { lifetime, mutable, elem } => TypeExprV::Reference {
            lifetime,
            mutable,
            elem: Box::new(deselfify_s(*elem, a)),
        },
        TypeExprV::BareFn => TypeExprV::BareFn,
        TypeExprV::Tuple(es) => TypeExprV::Tuple(deselfify_seq_s(es, a)),
        TypeExprV::NamedPath { qself, path } => TypeExprV::NamedPath {
            qself,
            path: deselfify_path_s(path, a),
        },
        TypeExprV::Grouping(e) => TypeExprV::Grouping(Box::new(deselfify_s(*e, a))),
        TypeExprV::ImplTrait(bs) => TypeExprV::ImplTrait(bs),
        TypeExprV::TraitObject(bs) => {
            if collapsible(bs) {
                TypeExprV::NamedPath {
                    qself: false,
                    path: deselfify_bounds_s(bs, a)[0]->Trait_0,
                }
            } else {
                TypeExprV::TraitObject(deselfify_bounds_s(bs, a))
            }
        },
        TypeExprV::MacroFragment => TypeExprV::MacroFragment,
        TypeExprV::Verbatim => TypeExprV::Verbatim,
        TypeExprV::Infer => TypeExprV::Infer,
        TypeExprV::Never => TypeExprV::Never,
    }
}

pub open spec fn deselfify_seq_s(s: Seq<TypeExprV>, a: Seq<char>) -> Seq<TypeExprV>
    decreases s,
{
    if s.len() == 0 {
        Seq::empty()
    } else {
        deselfify_seq_s(s.drop_last(), a).push(deselfify_s(s.last(), a))
    }
}

pub open spec fn deselfify_path_s(p: PathV, a: Seq<char>) -> PathV
    decreases p,
{
    PathV { segments: deselfify_segs_s(p.segments, a) }
}

pub open spec fn deselfify_segs_s(s: Seq<PathSegV>, a: Seq<char>) -> Seq<PathSegV>
    decreases s,
{
    if s.len() == 0 {
        Seq::empty()
    } else {
        deselfify_segs_s(s.drop_last(), a).push(deselfify_seg_s(s.last(), a))
    }
}

pub open spec fn deselfify_seg_s(s: PathSegV, a: Seq<char>) -> PathSegV
    decreases s,
{
    PathSegV {
        name: if s.name == self_name() {
            a
        } else {
            s.name
        },
        args: deselfify_args_s(s.args, a),
    }
}

pub open spec fn deselfify_args_s(s: Seq<GenericArgV>, a: Seq<char>) -> Seq<GenericArgV>
    decreases s,
{
    if s.len() == 0 {
        Seq::empty()
    } else {
        deselfify_args_s(s.drop_last(), a).push(deselfify_arg_s(s.last(), a))
    }
}

pub open spec fn deselfify_arg_s(g: GenericArgV, a: Seq<char>) -> GenericArgV
    decreases g,
{
    match g {
        GenericArgV::TypeArg(t) => GenericArgV::TypeArg(deselfify_s(t, a)),
        GenericArgV::Binding { name, ty } => GenericArgV::Binding {
            name,
            ty: deselfify_s(ty, a),
        },
        GenericArgV::LifetimeArg(l) => GenericArgV::LifetimeArg(l),
    }
}

pub open spec fn deselfify_bounds_s(s: Seq<BoundV>, a: Seq<char>) -> Seq<BoundV>
    decreases s,
{
    if s.len() == 0 {
        Seq::empty()
    } else {
        deselfify_bounds_s(s.drop_last(), a).push(deselfify_bound_s(s.last(), a))
    }
}

pub open spec fn deselfify_bound_s(b: BoundV, a: Seq<char>) -> BoundV
    decreases b,
{
    match b {
        BoundV::Trait(p) => BoundV::Trait(deselfify_path_s(p, a)),
        BoundV::Lifetime(l) => BoundV::Lifetime(l),
    }
}

pub proof fn lemma_deselfify_seq_s(s: Seq<TypeExprV>, a: Seq<char>)
    ensures
        deselfify_seq_s(s, a).len() == s.len(),
        forall|j: int| 0 <= j < s.len() ==> deselfify_seq_s(s, a)[j] == deselfify_s(s[j], a),
    decreases s.len(),
{
    if s.len() > 0 {
        lemma_deselfify_seq_s(s.drop_last(), a);
    }
}

pub proof fn lemma_deselfify_segs_s(s: Seq<PathSegV>, a: Seq<char>)
    ensures
        deselfify_segs_s(s, a).len() == s.len(),
        forall|j: int| 0 <= j < s.len() ==> deselfify_segs_s(s, a)[j] == deselfify_seg_s(s[j], a),
    decreases s.len(),
{
    if s.len() > 0 {
        lemma_deselfify_segs_s(s.drop_last(), a);
    }
}

pub proof fn lemma_deselfify_args_s(s: Seq<GenericArgV>, a: Seq<char>)
    ensures
        deselfify_args_s(s, a).len() == s.len(),
        forall|j: int| 0 <= j < s.len() ==> deselfify_args_s(s, a)[j] == deselfify_arg_s(s[j], a),
    decreases s.len(),
{
    if s.len() > 0 {
        lemma_deselfify_args_s(s.drop_last(), a);
    }
}

pub proof fn lemma_deselfify_bounds_s(s: Seq<BoundV>, a: Seq<char>)
    ensures
        deselfify_bounds_s(s, a).len() == s.len(),
        forall|j: int|
            0 <= j < s.len() ==> deselfify_bounds_s(s, a)[j] == deselfify_bound_s(s[j], a),
    decreases s.len(),
{
    if s.len() > 0 {
        lemma_deselfify_bounds_s(s.drop_last(), a);
    }
}

// The diagnostics the pass reports, in the order it visits the tree: a
// qualified-self prefix, then whatever the children report; a macro or
// verbatim fragment cannot be substituted inside and is reported once.

pub open spec fn deselfify_diags(t: TypeExpr) -> Seq<Diagnostic>
    decreases t,
{
    match t {
        TypeExpr::Slice(e) => deselfify_diags(*e),
        TypeExpr::Array { elem, .. } => deselfify_diags(*elem),
        TypeExpr::Ptr { elem, .. } => deselfify_diags(*elem),
        TypeExpr::Reference { elem, .. } => deselfify_diags(*elem),
        TypeExpr::BareFn { .. } => Seq::empty(),
        TypeExpr::Tuple(es) => deselfify_diags_seq(es@),
        TypeExpr::NamedPath { qself, path } => {
            (match qself {
                Option::Some(loc) => seq![
                    Diagnostic { kind: DiagKind::QualifiedSelfPath, loc },
                ],
                Option::None => Seq::empty(),
            }) + deselfify_diags_path(path)
        },
        TypeExpr::Grouping(e) => deselfify_diags(*e),
        TypeExpr::ImplTrait { .. } => Seq::empty(),
        TypeExpr::TraitObject { bounds, .. } => deselfify_diags_bounds(bounds@),
        TypeExpr::MacroFragment { loc } => seq![
            Diagnostic { kind: DiagKind::UnsupportedReturnTypeShape, loc },
        ],
        TypeExpr::Verbatim { loc } => seq![
            Diagnostic { kind: DiagKind::UnsupportedReturnTypeShape, loc },
        ],
        TypeExpr::Infer => Seq::empty(),
        TypeExpr::Never => Seq::empty(),
    }
}

pub open spec fn deselfify_diags_seq(s: Seq<TypeExpr>) -> Seq<Diagnostic>
    decreases s,
{
    if s.len() == 0 {
        Seq::empty()
    } else {
        deselfify_diags_seq(s.drop_last()) + deselfify_diags(s.last())
    }
}

pub open spec fn deselfify_diags_path(p: Path) -> Seq<Diagnostic>
    decreases p,
{
    deselfify_diags_segs(p.segments@)
}

pub open spec fn deselfify_diags_segs(s: Seq<PathSegment>) -> Seq<Diagnostic>
    decreases s,
{
    if s.len() == 0 {
        Seq::empty()
    } else {
        deselfify_diags_segs(s.drop_last()) + deselfify_diags_args(s.last().args@)
    }
}

pub open spec fn deselfify_diags_args(s: Seq<GenericArg>) -> Seq<Diagnostic>
    decreases s,
{
    if s.len() == 0 {
        Seq::empty()
    } else {
        deselfify_diags_args(s.drop_last()) + deselfify_diags_arg(s.last())
    }
}

pub open spec fn deselfify_diags_arg(g: GenericArg) -> Seq<Diagnostic>
    decreases g,
{
    match g {
        GenericArg::TypeArg(t) => deselfify_diags(t),
        GenericArg::Binding { ty, .. } => deselfify_diags(ty),
        GenericArg::LifetimeArg(_) => Seq::empty(),
    }
}

pub open spec fn deselfify_diags_bounds(s: Seq<Bound>) -> Seq<Diagnostic>
    decreases s,
{
    if s.len() == 0 {
        Seq::empty()
    } else {
        deselfify_diags_bounds(s.drop_last()) + deselfify_diags_bound(s.last())
    }
}

pub open spec fn deselfify_diags_bound(b: Bound) -> Seq<Diagnostic>
    decreases b,
{
    match b {
        Bound::Trait(p) => deselfify_diags_path(p),
        Bound::Lifetime(_) => Seq::empty(),
    }
}

/// Replaces every occurrence of the reserved self-referencing name with
/// `actual`, recursively, reporting qualified-self prefixes and opaque
/// fragments as it goes.
#[verifier::loop_isolation(false)]
#[verifier::rlimit(60)]
pub fn deselfify(t: &TypeExpr, actual: &Ident, diags: &mut Vec<Diagnostic>) -> (r: TypeExpr)
    requires
        rewrite_safe(t@),
    ensures
        r@ == deselfify_s(t@, actual@),
        final(diags)@ == old(diags)@ + deselfify_diags(*t),
    decreases t, 1int,
{
    match t {
        TypeExpr::Slice(e) => TypeExpr::Slice(Box::new(deselfify(&**e, actual, diags))),
        TypeExpr::Array { elem, len } => TypeExpr::Array {
            elem: Box::new(deselfify(&**elem, actual, diags)),
            len: *len,
        },
        TypeExpr::Ptr { mutable, elem } => TypeExpr::Ptr {
            mutable: *mutable,
            elem: Box::new(deselfify(&**elem, actual, diags)),
        },
        TypeExpr::Reference { lifetime, mutable, elem } => {
            let lt = match lifetime {
                Option::Some(i) => Option::Some(dup_ident(i)),
                Option::None => Option::None,
            };
            TypeExpr::Reference {
                lifetime: lt,
                mutable: *mutable,
                elem: Box::new(deselfify(&**elem, actual, diags)),
            }
        },
        TypeExpr::BareFn { .. } => {
            proof {
                assert(false);
            }
            TypeExpr::Never
        },
        TypeExpr::Tuple(elems) => {
            proof {
                lemma_type_exprs_v(elems@);
                lemma_rewrite_safe_seq(type_exprs_v(elems@));
            }
            let mut out: Vec<TypeExpr> = Vec::new();
            let n = elems.len();
            let mut i: usize = 0;
            while i < n
                invariant
                    n == elems@.len(),
                    i <= n,
                    out@.len() == i,
                    forall|j: int|
                        0 <= j < i ==> type_expr_v(out@[j]) == deselfify_s(
                            type_expr_v(elems@[j]),
                            actual@,
                        ),
                    diags@ == old(diags)@ + deselfify_diags_seq(elems@.take(i as int)),
                decreases n - i,
            {
                proof {
                    assert(decreases_to!(*t => t->Tuple_0));
                    assert(decreases_to!(t->Tuple_0 => t->Tuple_0@));
                    assert(decreases_to!(t->Tuple_0@ => t->Tuple_0@[i as int]));
                    assert(rewrite_safe(type_exprs_v(elems@)[i as int]));
                }
                let d = deselfify(&elems[i], actual, diags);
                out.push(d);
                proof {
                    assert(elems@.take(i + 1).drop_last() =~= elems@.take(i as int));
                    assert(diags@ =~= old(diags)@ + deselfify_diags_seq(elems@.take(i + 1)));
                }
                i += 1;
            }
            proof {
                assert(elems@.take(n as int) =~= elems@);
                lemma_type_exprs_v(out@);
                lemma_deselfify_seq_s(type_exprs_v(elems@), actual@);
                assert(type_exprs_v(out@) =~= deselfify_seq_s(type_exprs_v(elems@), actual@));
            }
            TypeExpr::Tuple(out)
        },
        TypeExpr::NamedPath { qself, path } => {
            match qself {
                Option::Some(loc) => {
                    diags.push(Diagnostic { kind: DiagKind::QualifiedSelfPath, loc: *loc });
                },
                Option::None => {},
            }
            let ghost mid = diags@;
            let np = deselfify_path(path, actual, diags);
            proof {
                assert(diags@ =~= old(diags)@ + deselfify_diags(*t));
            }
            TypeExpr::NamedPath { qself: *qself, path: np }
        },
        TypeExpr::Grouping(e) => TypeExpr::Grouping(Box::new(deselfify(&**e, actual, diags))),
        TypeExpr::ImplTrait { .. } => {
            proof {
                assert(false);
            }
            TypeExpr::Never
        },
        TypeExpr::TraitObject { bounds, loc } => {
            proof {
                lemma_bounds_v(bounds@);
                lemma_rewrite_safe_bounds(bounds_v(bounds@));
            }
            if bounds.len() == 1 {
                let collapse = match &bounds[0] {
                    Bound::Trait(_) => true,
                    Bound::Lifetime(_) => false,
                };
                if collapse {
                    match &bounds[0] {
                        Bound::Trait(p) => {
                            proof {
                                assert(bound_v(bounds@[0]) == bounds_v(bounds@)[0]);
                                assert(collapsible(bounds_v(bounds@)));
                                assert(decreases_to!(*t => t->TraitObject_bounds));
                                assert(decreases_to!(
                                    t->TraitObject_bounds => t->TraitObject_bounds@));
                                assert(decreases_to!(
                                    t->TraitObject_bounds@ => t->TraitObject_bounds@[0]));
                                assert(decreases_to!(
                                    t->TraitObject_bounds@[0]
                                        => t->TraitObject_bounds@[0]->Trait_0));
                            }
                            proof {
                                assert(rewrite_safe_bound(bounds_v(bounds@)[0]));
                            }
                            let np = deselfify_path(p, actual, diags);
                            proof {
                                lemma_deselfify_bounds_s(bounds_v(bounds@), actual@);
                                assert(deselfify_bounds_s(bounds_v(bounds@), actual@)[0]
                                    == deselfify_bound_s(bound_v(bounds@[0]), actual@));
                                assert(bounds@.last() == bounds@[0]);
                                assert(bounds@.drop_last().len() == 0);
                                assert(deselfify_diags_bounds(bounds@.drop_last()) =~=
                                    Seq::<Diagnostic>::empty());
                                assert(deselfify_diags_bound(bounds@[0]) ==
                                    deselfify_diags_path(*p));
                                assert(deselfify_diags_bounds(bounds@) =~=
                                    deselfify_diags_bound(bounds@[0]));
                                assert(diags@ =~= old(diags)@ + deselfify_diags(*t));
                            }
                            TypeExpr::NamedPath { qself: Option::None, path: np }
                        },
                        Bound::Lifetime(_) => {
                            proof {
                                assert(false);
                            }
                            TypeExpr::Never
                        },
                    }
                } else {
                    let nb = deselfify_bounds(t, bounds, actual, diags);
                    TypeExpr::TraitObject { bounds: nb, loc: *loc }
                }
            } else {
                let nb = deselfify_bounds(t, bounds, actual, diags);
                TypeExpr::TraitObject { bounds: nb, loc: *loc }
            }
        },
        TypeExpr::MacroFragment { loc } => {
            diags.push(Diagnostic { kind: DiagKind::UnsupportedReturnTypeShape, loc: *loc });
            proof {
                assert(diags@ =~= old(diags)@ + deselfify_diags(*t));
            }
            TypeExpr::MacroFragment { loc: *loc }
        },
        TypeExpr::Verbatim { loc } => {
            diags.push(Diagnostic { kind: DiagKind::UnsupportedReturnTypeShape, loc: *loc });
            proof {
                assert(diags@ =~= old(diags)@ + deselfify_diags(*t));
            }
            TypeExpr::Verbatim { loc: *loc }
        },
        TypeExpr::Infer => TypeExpr::Infer,
        TypeExpr::Never => TypeExpr::Never,
    }
}

/// The bounds of a trait object that keeps its shape, substituted one by
/// one.  `t` is the owning trait object, passed along for termination.
#[verifier::loop_isolation(false)]
#[verifier::rlimit(60)]
fn deselfify_bounds(
    t: &TypeExpr,
    bounds: &Vec<Bound>,
    actual: &Ident,
    diags: &mut Vec<Diagnostic>,
) -> (r: Vec<Bound>)
    requires
        *t matches TypeExpr::TraitObject { bounds: tb, .. } && tb == *bounds,
        rewrite_safe_bounds(bounds_v(bounds@)),
    ensures
        bounds_v(r@) == deselfify_bounds_s(bounds_v(bounds@), actual@),
        final(diags)@ == old(diags)@ + deselfify_diags_bounds(bounds@),
    decreases t, 0int,
{
    proof {
        lemma_bounds_v(bounds@);
        lemma_rewrite_safe_bounds(bounds_v(bounds@));
    }
    let mut out: Vec<Bound> = Vec::new();
    let n = bounds.len();
    let mut i: usize = 0;
    while i < n
        invariant
            n == bounds@.len(),
            i <= n,
            out@.len() == i,
            forall|j: int|
                0 <= j < i ==> bound_v(out@[j]) == deselfify_bound_s(bound_v(bounds@[j]), actual@),
            diags@ == old(diags)@ + deselfify_diags_bounds(bounds@.take(i as int)),
        decreases n - i,
    {
        proof {
            assert(decreases_to!(*t => t->TraitObject_bounds));
            assert(decreases_to!(t->TraitObject_bounds => t->TraitObject_bounds@));
            assert(decreases_to!(t->TraitObject_bounds@ => t->TraitObject_bounds@[i as int]));
            assert(rewrite_safe_bound(bounds_v(bounds@)[i as int]));
        }
        let nb = match &bounds[i] {
            Bound::Trait(p) => {
                proof {
                    assert(decreases_to!(t->TraitObject_bounds@[i as int]
                        => t->TraitObject_bounds@[i as int]->Trait_0));
                }
                let q = deselfify_path(p, actual, diags);
                proof {
                    assert(deselfify_diags_bound(bounds@[i as int])
                        == deselfify_diags_path(*p));
                }
                Bound::Trait(q)
            },
            Bound::Lifetime(l) => {
                proof {
                    assert(deselfify_diags_bound(bounds@[i as int]) =~=
                        Seq::<Diagnostic>::empty());
                }
                Bound::Lifetime(dup_ident(l))
            },
        };
        out.push(nb);
        proof {
            assert(bounds@.take(i + 1).drop_last() =~= bounds@.take(i as int));
            assert(diags@ =~= old(diags)@ + deselfify_diags_bounds(bounds@.take(i + 1)));
        }
        i += 1;
    }
    proof {
        assert(bounds@.take(n as int) =~= bounds@);
        lemma_bounds_v(out@);
        lemma_deselfify_bounds_s(bounds_v(bounds@), actual@);
        assert(bounds_v(out@) =~= deselfify_bounds_s(bounds_v(bounds@), actual@));
    }
    out
}

#[verifier::loop_isolation(false)]
#[verifier::rlimit(60)]
pub fn deselfify_path(p: &Path, actual: &Ident, diags: &mut Vec<Diagnostic>) -> (r: Path)
    requires
        rewrite_safe_path(p@),
    ensures
        r@ == deselfify_path_s(p@, actual@),
        final(diags)@ == old(diags)@ + deselfify_diags_path(*p),
    decreases p, 1int,
{
    proof {
        lemma_path_segs_v(p.segments@);
        lemma_rewrite_safe_segs(path_segs_v(p.segments@));
    }
    let mut out: Vec<PathSegment> = Vec::new();
    let n = p.segments.len();
    let mut i: usize = 0;
    while i < n
        invariant
            n == p.segments@.len(),
            i <= n,
            out@.len() == i,
            forall|j: int|
                0 <= j < i ==> path_seg_v(out@[j]) == deselfify_seg_s(
                    path_seg_v(p.segments@[j]),
                    actual@,
                ),
            diags@ == old(diags)@ + deselfify_diags_segs(p.segments@.take(i as int)),
        decreases n - i,
    {
        proof {
            assert(decreases_to!(*p => p.segments));
            assert(decreases_to!(p.segments => p.segments@));
            assert(decreases_to!(p.segments@ => p.segments@[i as int]));
            assert(rewrite_safe_args(path_segs_v(p.segments@)[i as int].args));
        }
        let ns = deselfify_segment(&p.segments[i], actual, diags);
        out.push(ns);
        proof {
            assert(p.segments@.take(i + 1).drop_last() =~= p.segments@.take(i as int));
            assert(diags@ =~= old(diags)@ + deselfify_diags_segs(p.segments@.take(i + 1)));
        }
        i += 1;
    }
    proof {
        assert(p.segments@.take(n as int) =~= p.segments@);
        lemma_path_segs_v(out@);
        lemma_deselfify_segs_s(path_segs_v(p.segments@), actual@);
        assert(path_segs_v(out@) =~= deselfify_segs_s(path_segs_v(p.segments@), actual@));
    }
    Path { segments: out }
}

#[verifier::loop_isolation(false)]
#[verifier::rlimit(60)]
fn deselfify_segment(s: &PathSegment, actual: &Ident, diags: &mut Vec<Diagnostic>) -> (r:
    PathSegment)
    requires
        rewrite_safe_args(path_seg_v(*s).args),
    ensures
        path_seg_v(r) == deselfify_seg_s(path_seg_v(*s), actual@),
        final(diags)@ == old(diags)@ + deselfify_diags_args(s.args@),
    decreases s, 1int,
{
    proof {
        lemma_generic_args_v(s.args@);
        lemma_rewrite_safe_args(generic_args_v(s.args@));
    }
    let ident = if is_self_name(&s.ident.name) {
        Ident { name: dup_chars(&actual.name), loc: s.ident.loc }
    } else {
        dup_ident(&s.ident)
    };
    let mut out: Vec<GenericArg> = Vec::new();
    let n = s.args.len();
    let mut i: usize = 0;
    while i < n
        invariant
            n == s.args@.len(),
            i <= n,
            out@.len() == i,
            forall|j: int|
                0 <= j < i ==> generic_arg_v(out@[j]) == deselfify_arg_s(
                    generic_arg_v(s.args@[j]),
                    actual@,
                ),
            diags@ == old(diags)@ + deselfify_diags_args(s.args@.take(i as int)),
        decreases n - i,
    {
        proof {
            assert(decreases_to!(*s => s.args));
            assert(decreases_to!(s.args => s.args@));
            assert(decreases_to!(s.args@ => s.args@[i as int]));
            assert(rewrite_safe_arg(generic_args_v(s.args@)[i as int]));
        }
        let na = match &s.args[i] {
            GenericArg::TypeArg(ty) => {
                proof {
                    assert(decreases_to!(s.args@[i as int] => s.args@[i as int]->TypeArg_0));
                }
                let d2 = deselfify(ty, actual, diags);
                proof {
                    assert(deselfify_diags_arg(s.args@[i as int]) == deselfify_diags(*ty));
                }
                GenericArg::TypeArg(d2)
            },
            GenericArg::Binding { name, ty } => {
                proof {
                    assert(decreases_to!(s.args@[i as int] => s.args@[i as int]->Binding_ty));
                }
                let d2 = deselfify(ty, actual, diags);
                proof {
                    assert(deselfify_diags_arg(s.args@[i as int]) == deselfify_diags(*ty));
                }
                GenericArg::Binding { name: dup_ident(name), ty: d2 }
            },
            GenericArg::LifetimeArg(l) => {
                proof {
                    assert(deselfify_diags_arg(s.args@[i as int]) =~=
                        Seq::<Diagnostic>::empty());
                }
                GenericArg::LifetimeArg(dup_ident(l))
            },
        };
        out.push(na);
        proof {
            assert(s.args@.take(i + 1).drop_last() =~= s.args@.take(i as int));
            assert(s.args@.take(i + 1).last() == s.args@[i as int]);
            assert(diags@ =~= old(diags)@ + deselfify_diags_args(s.args@.take(i + 1)));
        }
        i += 1;
    }
    proof {
        assert(s.args@.take(n as int) =~= s.args@);
        lemma_generic_args_v(out@);
        lemma_deselfify_args_s(generic_args_v(s.args@), actual@);
        assert(generic_args_v(out@) =~= deselfify_args_s(generic_args_v(s.args@), actual@));
    }
    PathSegment { ident, args: out }
}

} // verus!
