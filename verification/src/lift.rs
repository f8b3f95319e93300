//! The path-lift pass of the type-expression rewriter: a named path whose
//! first segment is the reserved parent-module segment gains two more
//! parent-module segments in front, so that an item emitted one module
//! level deeper than its declaration site still reaches the same target.
//! Paths not beginning with that segment are left unchanged.  The pass
//! recurses into every child position that can hold a type, generic
//! arguments and trait-object bound paths included.

use vstd::prelude::*;

use crate::ast::{
    Bound, BoundV, DiagKind, Diagnostic, GenericArg, GenericArgV, Path, PathSegV, PathV,
    PathSegment, TypeExpr, TypeExprV, bound_v, bounds_v, generic_arg_v, generic_args_v,
    lemma_bounds_v, lemma_generic_args_v, lemma_path_segs_v, lemma_type_exprs_v, path_seg_v,
    path_segs_v, super_name, type_expr_v, type_exprs_v,
};
use crate::shape::{
    lemma_rewrite_safe_args, lemma_rewrite_safe_bounds, lemma_rewrite_safe_segs,
    lemma_rewrite_safe_seq, rewrite_safe, rewrite_safe_arg, rewrite_safe_args,
    rewrite_safe_bound, rewrite_safe_bounds, rewrite_safe_path, rewrite_safe_segs,
    rewrite_safe_seq,
};
use crate::util::{dup_ident, dup_path_segment, is_super_name};
use crate::visibility::super_ident;

verus! {

// ---------------------------------------------------------------------------
// Lifting a single path
// ---------------------------------------------------------------------------

/// Does the path begin with the reserved parent-module segment?
pub open spec fn path_starts_super(p: PathV) -> bool {
    p.segments.len() > 0 && p.segments[0].name == super_name()
}

/// A bare parent-module segment.
pub open spec fn super_seg_v() -> PathSegV {
    PathSegV { name: super_name(), args: Seq::empty() }
}

/// `n` applications of the lift: a path beginning with the parent-module
/// segment gains `2 * n` such segments in front; any other path is
/// unchanged.
pub open spec fn lift_path_n(p: PathV, n: nat) -> PathV {
    if path_starts_super(p) {
        PathV { segments: Seq::new(2 * n, |i: int| super_seg_v()) + p.segments }
    } else {
        p
    }
}

/// Applying the lift twice is the same as lifting by the sum: each
/// application adds two parent-module hops to a qualifying path, and a path
/// not beginning with the parent-module segment is a no-op however often
/// the pass runs.
pub proof fn lemma_path_lift_composes(p: PathV, m: nat, n: nat)
    requires
        m >= 1,
        n >= 1,
    ensures
        lift_path_n(lift_path_n(p, m), n) == lift_path_n(p, m + n),
        !path_starts_super(p) ==> lift_path_n(p, m) == p,
{
    if path_starts_super(p) {
        let once = lift_path_n(p, m);
        assert(once.segments[0] == super_seg_v());
        assert(path_starts_super(once));
        assert(Seq::new(2 * n, |i: int| super_seg_v()) + once.segments =~= Seq::new(
            2 * (m + n),
            |i: int| super_seg_v(),
        ) + p.segments);
    }
}

/// Lifts one named path, without touching its generic arguments: two
/// parent-module segments are prepended exactly when the first segment is
/// the parent-module segment.
pub fn supersuperfy_path(p: &Path) -> (r: Path)
    ensures
        r@ == lift_path_n(p@, 1),
{
    proof {
        lemma_path_segs_v(p.segments@);
    }
    let starts = p.segments.len() > 0 && is_super_name(&p.segments[0].ident.name);
    let mut out: Vec<PathSegment> = Vec::new();
    if starts {
        let loc = p.segments[0].ident.loc;
        let s1 = PathSegment { ident: super_ident(loc), args: Vec::new() };
        let s2 = PathSegment { ident: super_ident(loc), args: Vec::new() };
        proof {
            assert(path_seg_v(s1) =~= super_seg_v());
        }
        out.push(s1);
        out.push(s2);
    }
    let base: usize = out.len();
    let n = p.segments.len();
    let mut i: usize = 0;
    while i < n
        invariant
            n == p.segments@.len(),
            i <= n,
            out@.len() == base + i,
            base <= 2,
            forall|j: int| 0 <= j < base ==> path_seg_v(out@[j]) == super_seg_v(),
            forall|j: int|
                0 <= j < i ==> path_seg_v(out@[base + j]) == path_seg_v(p.segments@[j]),
        decreases n - i,
    {
        let d = dup_path_segment(&p.segments[i]);
        out.push(d);
        i += 1;
    }
    proof {
        lemma_path_segs_v(out@);
        if starts {
            assert(path_segs_v(out@) =~= Seq::new(2, |k: int| super_seg_v()) + path_segs_v(
                p.segments@,
            ));
        } else {
            assert(path_segs_v(out@) =~= path_segs_v(p.segments@));
        }
    }
    Path { segments: out }
}

// ---------------------------------------------------------------------------
// Lifting a whole tree
// ---------------------------------------------------------------------------

pub open spec fn supersuperfy_s(t: TypeExprV) -> TypeExprV
    decreases t,
{
    match t {
        TypeExprV::Slice(e) => TypeExprV::Slice(Box::new(supersuperfy_s(*e))),
        TypeExprV::Array { elem, len } => TypeExprV::Array {
            elem: Box::new(supersuperfy_s(*elem)),
            len,
        },
        TypeExprV::Ptr { mutable, elem } => TypeExprV::Ptr {
            mutable,
            elem: Box::new(supersuperfy_s(*elem)),
        },
        TypeExprV::Reference { lifetime, mutable, elem } => TypeExprV::Reference {
            lifetime,
            mutable,
            elem: Box::new(supersuperfy_s(*elem)),
        },
        TypeExprV::BareFn => TypeExprV::BareFn,
        TypeExprV::Tuple(es) => TypeExprV::Tuple(supersuperfy_seq_s(es)),
        TypeExprV::NamedPath { qself, path } => TypeExprV::NamedPath {
            qself,
            path: supersuperfy_path_s(path),
        },
        TypeExprV::Grouping(e) => TypeExprV::Grouping(Box::new(supersuperfy_s(*e))),
        TypeExprV::ImplTrait(bs) => TypeExprV::ImplTrait(bs),
        TypeExprV::TraitObject(bs) => TypeExprV::TraitObject(supersuperfy_bounds_s(bs)),
        TypeExprV::MacroFragment => TypeExprV::MacroFragment,
        TypeExprV::Verbatim => TypeExprV::Verbatim,
        TypeExprV::Infer => TypeExprV::Infer,
        TypeExprV::Never => TypeExprV::Never,
    }
}

pub open spec fn supersuperfy_seq_s(s: Seq<TypeExprV>) -> Seq<TypeExprV>
    decreases s,
{
    if s.len() == 0 {
        Seq::empty()
    } else {
        supersuperfy_seq_s(s.drop_last()).push(supersuperfy_s(s.last()))
    }
}

/// The lift applied to a path inside a tree: its segments' generic
/// arguments are lifted recursively, and the path itself gains its
/// parent-module hops.
pub open spec fn supersuperfy_path_s(p: PathV) -> PathV
    decreases p,
{
    lift_path_n(PathV { segments: supersuperfy_segs_s(p.segments) }, 1)
}

pub open spec fn supersuperfy_segs_s(s: Seq<PathSegV>) -> Seq<PathSegV>
    decreases s,
{
    if s.len() == 0 {
        Seq::empty()
    } else {
        supersuperfy_segs_s(s.drop_last()).push(supersuperfy_seg_s(s.last()))
    }
}

pub open spec fn supersuperfy_seg_s(s: PathSegV) -> PathSegV
    decreases s,
{
    PathSegV { name: s.name, args: supersuperfy_args_s(s.args) }
}

pub open spec fn supersuperfy_args_s(s: Seq<GenericArgV>) -> Seq<GenericArgV>
    decreases s,
{
    if s.len() == 0 {
        Seq::empty()
    } else {
        supersuperfy_args_s(s.drop_last()).push(supersuperfy_arg_s(s.last()))
    }
}

pub open spec fn supersuperfy_arg_s(g: GenericArgV) -> GenericArgV
    decreases g,
{
    match g {
        GenericArgV::TypeArg(t) => GenericArgV::TypeArg(supersuperfy_s(t)),
        GenericArgV::Binding { name, ty } => GenericArgV::Binding {
            name,
            ty: supersuperfy_s(ty),
        },
        GenericArgV::LifetimeArg(l) => GenericArgV::LifetimeArg(l),
    }
}

pub open spec fn supersuperfy_bounds_s(s: Seq<BoundV>) -> Seq<BoundV>
    decreases s,
{
    if s.len() == 0 {
        Seq::empty()
    } else {
        supersuperfy_bounds_s(s.drop_last()).push(supersuperfy_bound_s(s.last()))
    }
}

pub open spec fn supersuperfy_bound_s(b: BoundV) -> BoundV
    decreases b,
{
    match b {
        BoundV::Trait(p) => BoundV::Trait(supersuperfy_path_s(p)),
        BoundV::Lifetime(l) => BoundV::Lifetime(l),
    }
}

pub proof fn lemma_supersuperfy_seq_s(s: Seq<TypeExprV>)
    ensures
        supersuperfy_seq_s(s).len() == s.len(),
        forall|j: int| 0 <= j < s.len() ==> supersuperfy_seq_s(s)[j] == supersuperfy_s(s[j]),
    decreases s.len(),
{
    if s.len() > 0 {
        lemma_supersuperfy_seq_s(s.drop_last());
    }
}

pub proof fn lemma_supersuperfy_segs_s(s: Seq<PathSegV>)
    ensures
        supersuperfy_segs_s(s).len() == s.len(),
        forall|j: int| 0 <= j < s.len() ==> supersuperfy_segs_s(s)[j] == supersuperfy_seg_s(s[j]),
    decreases s.len(),
{
    if s.len() > 0 {
        lemma_supersuperfy_segs_s(s.drop_last());
    }
}

pub proof fn lemma_supersuperfy_args_s(s: Seq<GenericArgV>)
    ensures
        supersuperfy_args_s(s).len() == s.len(),
        forall|j: int| 0 <= j < s.len() ==> supersuperfy_args_s(s)[j] == supersuperfy_arg_s(s[j]),
    decreases s.len(),
{
    if s.len() > 0 {
        lemma_supersuperfy_args_s(s.drop_last());
    }
}

pub proof fn lemma_supersuperfy_bounds_s(s: Seq<BoundV>)
    ensures
        supersuperfy_bounds_s(s).len() == s.len(),
        forall|j: int|
            0 <= j < s.len() ==> supersuperfy_bounds_s(s)[j] == supersuperfy_bound_s(s[j]),
    decreases s.len(),
{
    if s.len() > 0 {
        lemma_supersuperfy_bounds_s(s.drop_last());
    }
}

// The diagnostics the pass reports, in visiting order: a qualified-self
// prefix, and each macro or verbatim fragment, which cannot be rewritten
// inside.

pub open spec fn supersuperfy_diags(t: TypeExpr) -> Seq<Diagnostic>
    decreases t,
{
    match t {
        TypeExpr::Slice(e) => supersuperfy_diags(*e),
        TypeExpr::Array { elem, .. } => supersuperfy_diags(*elem),
        TypeExpr::Ptr { elem, .. } => supersuperfy_diags(*elem),
        TypeExpr::Reference { elem, .. } => supersuperfy_diags(*elem),
        TypeExpr::BareFn { .. } => Seq::empty(),
        TypeExpr::Tuple(es) => supersuperfy_diags_seq(es@),
        TypeExpr::NamedPath { qself, path } => {
            (match qself {
                Option::Some(loc) => seq![
                    Diagnostic { kind: DiagKind::QualifiedSelfPath, loc },
                ],
                Option::None => Seq::empty(),
            }) + supersuperfy_diags_path(path)
        },
        TypeExpr::Grouping(e) => supersuperfy_diags(*e),
        TypeExpr::ImplTrait { .. } => Seq::empty(),
        TypeExpr::TraitObject { bounds, .. } => supersuperfy_diags_bounds(bounds@),
        TypeExpr::MacroFragment { loc } => seq![
            Diagnostic { kind: DiagKind::UnsupportedTypePosition, loc },
        ],
        TypeExpr::Verbatim { loc } => seq![
            Diagnostic { kind: DiagKind::UnsupportedTypePosition, loc },
        ],
        TypeExpr::Infer => Seq::empty(),
        TypeExpr::Never => Seq::empty(),
    }
}

pub open spec fn supersuperfy_diags_seq(s: Seq<TypeExpr>) -> Seq<Diagnostic>
    decreases s,
{
    if s.len() == 0 {
        Seq::empty()
    } else {
        supersuperfy_diags_seq(s.drop_last()) + supersuperfy_diags(s.last())
    }
}

pub open spec fn supersuperfy_diags_path(p: Path) -> Seq<Diagnostic>
    decreases p,
{
    supersuperfy_diags_segs(p.segments@)
}

pub open spec fn supersuperfy_diags_segs(s: Seq<PathSegment>) -> Seq<Diagnostic>
    decreases s,
{
    if s.len() == 0 {
        Seq::empty()
    } else {
        supersuperfy_diags_segs(s.drop_last()) + supersuperfy_diags_args(s.last().args@)
    }
}

pub open spec fn supersuperfy_diags_args(s: Seq<GenericArg>) -> Seq<Diagnostic>
    decreases s,
{
    if s.len() == 0 {
        Seq::empty()
    } else {
        supersuperfy_diags_args(s.drop_last()) + supersuperfy_diags_arg(s.last())
    }
}

pub open spec fn supersuperfy_diags_arg(g: GenericArg) -> Seq<Diagnostic>
    decreases g,
{
    match g {
        GenericArg::TypeArg(t) => supersuperfy_diags(t),
        GenericArg::Binding { ty, .. } => supersuperfy_diags(ty),
        GenericArg::LifetimeArg(_) => Seq::empty(),
    }
}

pub open spec fn supersuperfy_diags_bounds(s: Seq<Bound>) -> Seq<Diagnostic>
    decreases s,
{
    if s.len() == 0 {
        Seq::empty()
    } else {
        supersuperfy_diags_bounds(s.drop_last()) + supersuperfy_diags_bound(s.last())
    }
}

pub open spec fn supersuperfy_diags_bound(b: Bound) -> Seq<Diagnostic>
    decreases b,
{
    match b {
        Bound::Trait(p) => supersuperfy_diags_path(p),
        Bound::Lifetime(_) => Seq::empty(),
    }
}

/// Replaces every parent-module-rooted path in the tree with one lifted by
/// two more parent-module hops, recursively, reporting qualified-self
/// prefixes and opaque fragments as it goes.
#[verifier::loop_isolation(false)]
#[verifier::rlimit(60)]
pub fn supersuperfy(t: &TypeExpr, diags: &mut Vec<Diagnostic>) -> (r: TypeExpr)
    requires
        rewrite_safe(t@),
    ensures
        r@ == supersuperfy_s(t@),
        final(diags)@ == old(diags)@ + supersuperfy_diags(*t),
    decreases t, 1int,
{
    match t {
        TypeExpr::Slice(e) => TypeExpr::Slice(Box::new(supersuperfy(&**e, diags))),
        TypeExpr::Array { elem, len } => TypeExpr::Array {
            elem: Box::new(supersuperfy(&**elem, diags)),
            len: *len,
        },
        TypeExpr::Ptr { mutable, elem } => TypeExpr::Ptr {
            mutable: *mutable,
            elem: Box::new(supersuperfy(&**elem, diags)),
        },
        TypeExpr::Reference { lifetime, mutable, elem } => {
            let lt = match lifetime {
                Option::Some(i) => Option::Some(dup_ident(i)),
                Option::None => Option::None,
            };
            TypeExpr::Reference {
                lifetime: lt,
                mutable: *mutable,
                elem: Box::new(supersuperfy(&**elem, diags)),
            }
        },
        TypeExpr::BareFn { .. } => {
            proof {
                assert(false);
            }
            TypeExpr::Never
        },
        TypeExpr::Tuple(elems) => {
            proof {
                lemma_type_exprs_v(elems@);
                lemma_rewrite_safe_seq(type_exprs_v(elems@));
            }
            let mut out: Vec<TypeExpr> = Vec::new();
            let n = elems.len();
            let mut i: usize = 0;
            while i < n
                invariant
                    n == elems@.len(),
                    i <= n,
                    out@.len() == i,
                    forall|j: int|
                        0 <= j < i ==> type_expr_v(out@[j]) == supersuperfy_s(
                            type_expr_v(elems@[j]),
                        ),
                    diags@ == old(diags)@ + supersuperfy_diags_seq(elems@.take(i as int)),
                decreases n - i,
            {
                proof {
                    assert(decreases_to!(*t => t->Tuple_0));
                    assert(decreases_to!(t->Tuple_0 => t->Tuple_0@));
                    assert(decreases_to!(t->Tuple_0@ => t->Tuple_0@[i as int]));
                    assert(rewrite_safe(type_exprs_v(elems@)[i as int]));
                }
                let d = supersuperfy(&elems[i], diags);
                out.push(d);
                proof {
                    assert(elems@.take(i + 1).drop_last() =~= elems@.take(i as int));
                    assert(diags@ =~= old(diags)@ + supersuperfy_diags_seq(elems@.take(i + 1)));
                }
                i += 1;
            }
            proof {
                assert(elems@.take(n as int) =~= elems@);
                lemma_type_exprs_v(out@);
                lemma_supersuperfy_seq_s(type_exprs_v(elems@));
                assert(type_exprs_v(out@) =~= supersuperfy_seq_s(type_exprs_v(elems@)));
            }
            TypeExpr::Tuple(out)
        },
        TypeExpr::NamedPath { qself, path } => {
            match qself {
                Option::Some(loc) => {
                    diags.push(Diagnostic { kind: DiagKind::QualifiedSelfPath, loc: *loc });
                },
                Option::None => {},
            }
            let np = supersuperfy_inner_path(path, diags);
            proof {
                assert(diags@ =~= old(diags)@ + supersuperfy_diags(*t));
            }
            TypeExpr::NamedPath { qself: *qself, path: np }
        },
        TypeExpr::Grouping(e) => TypeExpr::Grouping(Box::new(supersuperfy(&**e, diags))),
        TypeExpr::ImplTrait { .. } => {
            proof {
                assert(false);
            }
            TypeExpr::Never
        },
        TypeExpr::TraitObject { bounds, loc } => {
            proof {
                lemma_bounds_v(bounds@);
                lemma_rewrite_safe_bounds(bounds_v(bounds@));
            }
            let mut out: Vec<Bound> = Vec::new();
            let n = bounds.len();
            let mut i: usize = 0;
            while i < n
                invariant
                    n == bounds@.len(),
                    i <= n,
                    out@.len() == i,
                    forall|j: int|
                        0 <= j < i ==> bound_v(out@[j]) == supersuperfy_bound_s(
                            bound_v(bounds@[j]),
                        ),
                    diags@ == old(diags)@ + supersuperfy_diags_bounds(bounds@.take(i as int)),
                decreases n - i,
            {
                proof {
                    assert(decreases_to!(*t => t->TraitObject_bounds));
                    assert(decreases_to!(t->TraitObject_bounds => t->TraitObject_bounds@));
                    assert(decreases_to!(
                        t->TraitObject_bounds@ => t->TraitObject_bounds@[i as int]));
                    assert(rewrite_safe_bound(bounds_v(bounds@)[i as int]));
                }
                let nb = match &bounds[i] {
                    Bound::Trait(p) => {
                        proof {
                            assert(decreases_to!(t->TraitObject_bounds@[i as int]
                                => t->TraitObject_bounds@[i as int]->Trait_0));
                        }
                        let q = supersuperfy_inner_path(p, diags);
                        proof {
                            assert(supersuperfy_diags_bound(bounds@[i as int])
                                == supersuperfy_diags_path(*p));
                        }
                        Bound::Trait(q)
                    },
                    Bound::Lifetime(l) => {
                        proof {
                            assert(supersuperfy_diags_bound(bounds@[i as int]) =~=
                                Seq::<Diagnostic>::empty());
                        }
                        Bound::Lifetime(dup_ident(l))
                    },
                };
                out.push(nb);
                proof {
                    assert(bounds@.take(i + 1).drop_last() =~= bounds@.take(i as int));
                    assert(bounds@.take(i + 1).last() == bounds@[i as int]);
                    assert(diags@ =~= old(diags)@ + supersuperfy_diags_bounds(
                        bounds@.take(i + 1),
                    ));
                }
                i += 1;
            }
            proof {
                assert(bounds@.take(n as int) =~= bounds@);
                lemma_bounds_v(out@);
                lemma_supersuperfy_bounds_s(bounds_v(bounds@));
                assert(bounds_v(out@) =~= supersuperfy_bounds_s(bounds_v(bounds@)));
            }
            TypeExpr::TraitObject { bounds: out, loc: *loc }
        },
        TypeExpr::MacroFragment { loc } => {
            diags.push(Diagnostic { kind: DiagKind::UnsupportedTypePosition, loc: *loc });
            proof {
                assert(diags@ =~= old(diags)@ + supersuperfy_diags(*t));
            }
            TypeExpr::MacroFragment { loc: *loc }
        },
        TypeExpr::Verbatim { loc } => {
            diags.push(Diagnostic { kind: DiagKind::UnsupportedTypePosition, loc: *loc });
            proof {
                assert(diags@ =~= old(diags)@ + supersuperfy_diags(*t));
            }
            TypeExpr::Verbatim { loc: *loc }
        },
        TypeExpr::Infer => TypeExpr::Infer,
        TypeExpr::Never => TypeExpr::Never,
    }
}

/// A path inside the tree: its segments' arguments are lifted recursively,
/// then the path itself gains its hops.
#[verifier::loop_isolation(false)]
#[verifier::rlimit(60)]
fn supersuperfy_inner_path(p: &Path, diags: &mut Vec<Diagnostic>) -> (r: Path)
    requires
        rewrite_safe_path(p@),
    ensures
        r@ == supersuperfy_path_s(p@),
        final(diags)@ == old(diags)@ + supersuperfy_diags_path(*p),
    decreases p, 1int,
{
    proof {
        lemma_path_segs_v(p.segments@);
        lemma_rewrite_safe_segs(path_segs_v(p.segments@));
    }
    let starts = p.segments.len() > 0 && is_super_name(&p.segments[0].ident.name);
    let mut out: Vec<PathSegment> = Vec::new();
    if starts {
        let loc = p.segments[0].ident.loc;
        let s1 = PathSegment { ident: super_ident(loc), args: Vec::new() };
        let s2 = PathSegment { ident: super_ident(loc), args: Vec::new() };
        proof {
            assert(path_seg_v(s1) =~= super_seg_v());
        }
        out.push(s1);
        out.push(s2);
    }
    let base: usize = out.len();
    let n = p.segments.len();
    let mut i: usize = 0;
    while i < n
        invariant
            n == p.segments@.len(),
            i <= n,
            out@.len() == base + i,
            base <= 2,
            forall|j: int| 0 <= j < base ==> path_seg_v(out@[j]) == super_seg_v(),
            forall|j: int|
                0 <= j < i ==> path_seg_v(out@[base + j]) == supersuperfy_seg_s(
                    path_seg_v(p.segments@[j]),
                ),
            diags@ == old(diags)@ + supersuperfy_diags_segs(p.segments@.take(i as int)),
        decreases n - i,
    {
        proof {
            assert(decreases_to!(*p => p.segments));
            assert(decreases_to!(p.segments => p.segments@));
            assert(decreases_to!(p.segments@ => p.segments@[i as int]));
            assert(rewrite_safe_args(path_segs_v(p.segments@)[i as int].args));
        }
        let ns = supersuperfy_segment(&p.segments[i], diags);
        out.push(ns);
        proof {
            assert(p.segments@.take(i + 1).drop_last() =~= p.segments@.take(i as int));
            assert(diags@ =~= old(diags)@ + supersuperfy_diags_segs(p.segments@.take(i + 1)));
        }
        i += 1;
    }
    proof {
        assert(p.segments@.take(n as int) =~= p.segments@);
        lemma_path_segs_v(out@);
        lemma_supersuperfy_segs_s(path_segs_v(p.segments@));
        let lifted = supersuperfy_segs_s(path_segs_v(p.segments@));
        assert(starts ==> lifted.len() > 0 && lifted[0].name == super_name());
        assert(!starts && lifted.len() > 0 ==> lifted[0].name != super_name());
        if starts {
            assert(path_segs_v(out@) =~= Seq::new(2, |k: int| super_seg_v()) + lifted);
        } else {
            assert(path_segs_v(out@) =~= lifted);
        }
    }
    Path { segments: out }
}

/// One path segment: its name is kept and each generic argument lifted.
#[verifier::loop_isolation(false)]
#[verifier::rlimit(60)]
fn supersuperfy_segment(s: &PathSegment, diags: &mut Vec<Diagnostic>) -> (r: PathSegment)
    requires
        rewrite_safe_args(path_seg_v(*s).args),
    ensures
        path_seg_v(r) == supersuperfy_seg_s(path_seg_v(*s)),
        final(diags)@ == old(diags)@ + supersuperfy_diags_args(s.args@),
    decreases s, 1int,
{
    proof {
        lemma_generic_args_v(s.args@);
        lemma_rewrite_safe_args(generic_args_v(s.args@));
    }
    let ident = dup_ident(&s.ident);
    let mut out: Vec<GenericArg> = Vec::new();
    let n = s.args.len();
    let mut i: usize = 0;
    while i < n
        invariant
            n == s.args@.len(),
            i <= n,
            out@.len() == i,
            forall|j: int|
                0 <= j < i ==> generic_arg_v(out@[j]) == supersuperfy_arg_s(
                    generic_arg_v(s.args@[j]),
                ),
            diags@ == old(diags)@ + supersuperfy_diags_args(s.args@.take(i as int)),
        decreases n - i,
    {
        proof {
            assert(decreases_to!(*s => s.args));
            assert(decreases_to!(s.args => s.args@));
            assert(decreases_to!(s.args@ => s.args@[i as int]));
            assert(rewrite_safe_arg(generic_args_v(s.args@)[i as int]));
        }
        let na = match &s.args[i] {
            GenericArg::TypeArg(ty) => {
                proof {
                    assert(decreases_to!(s.args@[i as int] => s.args@[i as int]->TypeArg_0));
                }
                let d2 = supersuperfy(ty, diags);
                proof {
                    assert(supersuperfy_diags_arg(s.args@[i as int]) == supersuperfy_diags(
                        *ty,
                    ));
                }
                GenericArg::TypeArg(d2)
            },
            GenericArg::Binding { name, ty } => {
                proof {
                    assert(decreases_to!(s.args@[i as int] => s.args@[i as int]->Binding_ty));
                }
                let d2 = supersuperfy(ty, diags);
                proof {
                    assert(supersuperfy_diags_arg(s.args@[i as int]) == supersuperfy_diags(
                        *ty,
                    ));
                }
                GenericArg::Binding { name: dup_ident(name), ty: d2 }
            },
            GenericArg::LifetimeArg(l) => {
                proof {
                    assert(supersuperfy_diags_arg(s.args@[i as int]) =~=
                        Seq::<Diagnostic>::empty());
                }
                GenericArg::LifetimeArg(dup_ident(l))
            },
        };
        out.push(na);
        proof {
            assert(s.args@.take(i + 1).drop_last() =~= s.args@.take(i as int));
            assert(s.args@.take(i + 1).last() == s.args@[i as int]);
            assert(diags@ =~= old(diags)@ + supersuperfy_diags_args(s.args@.take(i + 1)));
        }
        i += 1;
    }
    proof {
        assert(s.args@.take(n as int) =~= s.args@);
        lemma_generic_args_v(out@);
        lemma_supersuperfy_args_s(generic_args_v(s.args@));
        assert(generic_args_v(out@) =~= supersuperfy_args_s(generic_args_v(s.args@)));
    }
    PathSegment { ident, args: out }
}

} // verus!
