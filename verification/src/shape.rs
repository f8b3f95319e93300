//! The shapes a rewrite pass can work on, and the test for the two fatal
//! ones.
//!
//! Function-pointer children are unsupported by every pass, and an opaque
//! trait shape must have been erased from a return position before any
//! other pass touches it; meeting either mid-tree is a driver contract
//! violation, not a user error.  The passes therefore require shape-safe
//! input, and a caller that cannot prove it tests with
//! [`has_unsupported_shape`] first and aborts generation on `true`.

use vstd::prelude::*;

use crate::ast::{
    Bound, BoundV, GenericArg, GenericArgV, Path, PathSegV, PathV, PathSegment, TypeExpr,
    TypeExprV, bound_v, bounds_v, generic_arg_v, generic_args_v, lemma_bounds_v,
    lemma_generic_args_v, lemma_path_segs_v, lemma_type_exprs_v, path_seg_v, path_segs_v,
    type_expr_v, type_exprs_v,
};

verus! {

pub open spec fn rewrite_safe(t: TypeExprV) -> bool
    decreases t,
{
    match t {
        TypeExprV::Slice(e) => rewrite_safe(*e),
        TypeExprV::Array { elem, .. } => rewrite_safe(*elem),
        TypeExprV::Ptr { elem, .. } => rewrite_safe(*elem),
        TypeExprV::Reference { elem, .. } => rewrite_safe(*elem),
        TypeExprV::BareFn => false,
        TypeExprV::Tuple(es) => rewrite_safe_seq(es),
        TypeExprV::NamedPath { path, .. } => rewrite_safe_path(path),
        TypeExprV::Grouping(e) => rewrite_safe(*e),
        TypeExprV::ImplTrait(_) => false,
        TypeExprV::TraitObject(bs) => rewrite_safe_bounds(bs),
        TypeExprV::MacroFragment => true,
        TypeExprV::Verbatim => true,
        TypeExprV::Infer => true,
        TypeExprV::Never => true,
    }
}

pub open spec fn rewrite_safe_seq(s: Seq<TypeExprV>) -> bool
    decreases s,
{
    if s.len() == 0 {
        true
    } else {
        rewrite_safe_seq(s.drop_last()) && rewrite_safe(s.last())
    }
}

pub open spec fn rewrite_safe_path(p: PathV) -> bool
    decreases p,
{
    rewrite_safe_segs(p.segments)
}

pub open spec fn rewrite_safe_segs(s: Seq<PathSegV>) -> bool
    decreases s,
{
    if s.len() == 0 {
        true
    } else {
        rewrite_safe_segs(s.drop_last()) && rewrite_safe_args(s.last().args)
    }
}

pub open spec fn rewrite_safe_args(s: Seq<GenericArgV>) -> bool
    decreases s,
{
    if s.len() == 0 {
        true
    } else {
        rewrite_safe_args(s.drop_last()) && rewrite_safe_arg(s.last())
    }
}

pub open spec fn rewrite_safe_arg(a: GenericArgV) -> bool
    decreases a,
{
    match a {
        GenericArgV::TypeArg(t) => rewrite_safe(t),
        GenericArgV::Binding { ty, .. } => rewrite_safe(ty),
        GenericArgV::LifetimeArg(_) => true,
    }
}

pub open spec fn rewrite_safe_bounds(s: Seq<BoundV>) -> bool
    decreases s,
{
    if s.len() == 0 {
        true
    } else {
        rewrite_safe_bounds(s.drop_last()) && rewrite_safe_bound(s.last())
    }
}

pub open spec fn rewrite_safe_bound(b: BoundV) -> bool
    decreases b,
{
    match b {
        BoundV::Trait(p) => rewrite_safe_path(p),
        BoundV::Lifetime(_) => true,
    }
}

pub proof fn lemma_rewrite_safe_seq(s: Seq<TypeExprV>)
    ensures
        rewrite_safe_seq(s) <==> (forall|j: int| 0 <= j < s.len() ==> rewrite_safe(s[j])),
    decreases s.len(),
{
    if s.len() > 0 {
        lemma_rewrite_safe_seq(s.drop_last());
        assert(forall|j: int| 0 <= j < s.len() - 1 ==> s.drop_last()[j] == s[j]);
        if rewrite_safe_seq(s) {
            assert forall|j: int| 0 <= j < s.len() implies rewrite_safe(s[j]) by {
                if j < s.len() - 1 {
                    assert(rewrite_safe(s.drop_last()[j]));
                } else {
                    assert(rewrite_safe(s.last()));
                }
            }
        } else {
            if forall|j: int| 0 <= j < s.len() ==> rewrite_safe(s[j]) {
                assert(forall|j: int|
                    0 <= j < s.drop_last().len() ==> rewrite_safe(s.drop_last()[j]));
                assert(rewrite_safe(s.last()));
                assert(false);
            }
        }
    }
}

pub proof fn lemma_rewrite_safe_segs(s: Seq<PathSegV>)
    ensures
        rewrite_safe_segs(s) <==> (forall|j: int| 0 <= j < s.len() ==> rewrite_safe_args(s[j].args)),
    decreases s.len(),
{
    if s.len() > 0 {
        lemma_rewrite_safe_segs(s.drop_last());
        assert(forall|j: int| 0 <= j < s.len() - 1 ==> s.drop_last()[j] == s[j]);
        if rewrite_safe_segs(s) {
            assert forall|j: int| 0 <= j < s.len() implies rewrite_safe_args(s[j].args) by {
                if j < s.len() - 1 {
                    assert(s[j] == s.drop_last()[j]);
                } else {
                    assert(s[j] == s.last());
                }
            }
        } else {
            if forall|j: int| 0 <= j < s.len() ==> rewrite_safe_args(s[j].args) {
                assert(forall|j: int|
                    0 <= j < s.drop_last().len() ==> s.drop_last()[j] == s[j]);
                assert(false);
            }
        }
    }
}

pub proof fn lemma_rewrite_safe_args(s: Seq<GenericArgV>)
    ensures
        rewrite_safe_args(s) <==> (forall|j: int| 0 <= j < s.len() ==> rewrite_safe_arg(s[j])),
    decreases s.len(),
{
    if s.len() > 0 {
        lemma_rewrite_safe_args(s.drop_last());
        assert(forall|j: int| 0 <= j < s.len() - 1 ==> s.drop_last()[j] == s[j]);
        if rewrite_safe_args(s) {
            assert forall|j: int| 0 <= j < s.len() implies rewrite_safe_arg(s[j]) by {
                if j < s.len() - 1 {
                    assert(s[j] == s.drop_last()[j]);
                } else {
                    assert(s[j] == s.last());
                }
            }
        } else {
            if forall|j: int| 0 <= j < s.len() ==> rewrite_safe_arg(s[j]) {
                assert(forall|j: int|
                    0 <= j < s.drop_last().len() ==> s.drop_last()[j] == s[j]);
                assert(false);
            }
        }
    }
}

pub proof fn lemma_rewrite_safe_bounds(s: Seq<BoundV>)
    ensures
        rewrite_safe_bounds(s) <==> (forall|j: int| 0 <= j < s.len() ==> rewrite_safe_bound(s[j])),
    decreases s.len(),
{
    if s.len() > 0 {
        lemma_rewrite_safe_bounds(s.drop_last());
        assert(forall|j: int| 0 <= j < s.len() - 1 ==> s.drop_last()[j] == s[j]);
        if rewrite_safe_bounds(s) {
            assert forall|j: int| 0 <= j < s.len() implies rewrite_safe_bound(s[j]) by {
                if j < s.len() - 1 {
                    assert(s[j] == s.drop_last()[j]);
                } else {
                    assert(s[j] == s.last());
                }
            }
        } else {
            if forall|j: int| 0 <= j < s.len() ==> rewrite_safe_bound(s[j]) {
                assert(forall|j: int|
                    0 <= j < s.drop_last().len() ==> s.drop_last()[j] == s[j]);
                assert(false);
            }
        }
    }
}

// ---------------------------------------------------------------------------
// Testing a tree for the fatal shapes
// ---------------------------------------------------------------------------

/// Does the tree hold a function-pointer type or an opaque trait shape in
/// any position a pass would visit?  A driver that cannot rule these out
/// must test before invoking a pass; on `true` the pass's contract is not
/// met and generation must abort.
#[verifier::loop_isolation(false)]
#[verifier::rlimit(30)]
pub fn has_unsupported_shape(t: &TypeExpr) -> (r: bool)
    ensures
        r == !rewrite_safe(t@),
    decreases t,
{
    match t {
        TypeExpr::Slice(e) => has_unsupported_shape(&**e),
        TypeExpr::Array { elem, .. } => has_unsupported_shape(&**elem),
        TypeExpr::Ptr { elem, .. } => has_unsupported_shape(&**elem),
        TypeExpr::Reference { elem, .. } => has_unsupported_shape(&**elem),
        TypeExpr::BareFn { .. } => true,
        TypeExpr::Tuple(elems) => {
            proof {
                lemma_type_exprs_v(elems@);
                lemma_rewrite_safe_seq(type_exprs_v(elems@));
            }
            let n = elems.len();
            let mut i: usize = 0;
            while i < n
                invariant
                    n == elems@.len(),
                    i <= n,
                    forall|j: int| 0 <= j < i ==> rewrite_safe(type_expr_v(elems@[j])),
                decreases n - i,
            {
                proof {
                    assert(decreases_to!(*t => t->Tuple_0));
                    assert(decreases_to!(t->Tuple_0 => t->Tuple_0@));
                    assert(decreases_to!(t->Tuple_0@ => t->Tuple_0@[i as int]));
                }
                if has_unsupported_shape(&elems[i]) {
                    proof {
                        assert(!rewrite_safe(type_exprs_v(elems@)[i as int]));
                    }
                    return true;
                }
                i += 1;
            }
            proof {
                assert(forall|j: int|
                    0 <= j < elems@.len() ==> rewrite_safe(type_exprs_v(elems@)[j]));
            }
            false
        },
        TypeExpr::NamedPath { path, .. } => has_unsupported_shape_path(path),
        TypeExpr::Grouping(e) => has_unsupported_shape(&**e),
        TypeExpr::ImplTrait { .. } => true,
        TypeExpr::TraitObject { bounds, .. } => {
            proof {
                lemma_bounds_v(bounds@);
                lemma_rewrite_safe_bounds(bounds_v(bounds@));
            }
            let n = bounds.len();
            let mut i: usize = 0;
            while i < n
                invariant
                    n == bounds@.len(),
                    i <= n,
                    forall|j: int| 0 <= j < i ==> rewrite_safe_bound(bound_v(bounds@[j])),
                decreases n - i,
            {
                proof {
                    assert(decreases_to!(*t => t->TraitObject_bounds));
                    assert(decreases_to!(t->TraitObject_bounds => t->TraitObject_bounds@));
                    assert(decreases_to!(
                        t->TraitObject_bounds@ => t->TraitObject_bounds@[i as int]));
                }
                let unsupported = match &bounds[i] {
                    Bound::Trait(p) => has_unsupported_shape_path(p),
                    Bound::Lifetime(_) => false,
                };
                if unsupported {
                    proof {
                        assert(!rewrite_safe_bound(bounds_v(bounds@)[i as int]));
                    }
                    return true;
                }
                i += 1;
            }
            proof {
                assert(forall|j: int|
                    0 <= j < bounds@.len() ==> rewrite_safe_bound(bounds_v(bounds@)[j]));
            }
            false
        },
        TypeExpr::MacroFragment { .. } => false,
        TypeExpr::Verbatim { .. } => false,
        TypeExpr::Infer => false,
        TypeExpr::Never => false,
    }
}

#[verifier::loop_isolation(false)]
pub fn has_unsupported_shape_path(p: &Path) -> (r: bool)
    ensures
        r == !rewrite_safe_path(p@),
    decreases p,
{
    proof {
        lemma_path_segs_v(p.segments@);
        lemma_rewrite_safe_segs(path_segs_v(p.segments@));
    }
    let n = p.segments.len();
    let mut i: usize = 0;
    while i < n
        invariant
            n == p.segments@.len(),
            i <= n,
            forall|j: int| 0 <= j < i ==> rewrite_safe_args(path_seg_v(p.segments@[j]).args),
        decreases n - i,
    {
        if has_unsupported_shape_seg(&p.segments[i]) {
            proof {
                assert(!rewrite_safe_args(path_segs_v(p.segments@)[i as int].args));
            }
            return true;
        }
        i += 1;
    }
    proof {
        assert(forall|j: int|
            0 <= j < p.segments@.len() ==> rewrite_safe_args(path_segs_v(p.segments@)[j].args));
    }
    false
}

#[verifier::loop_isolation(false)]
pub fn has_unsupported_shape_seg(s: &PathSegment) -> (r: bool)
    ensures
        r == !rewrite_safe_args(path_seg_v(*s).args),
    decreases s,
{
    proof {
        lemma_generic_args_v(s.args@);
        lemma_rewrite_safe_args(generic_args_v(s.args@));
    }
    let n = s.args.len();
    let mut i: usize = 0;
    while i < n
        invariant
            n == s.args@.len(),
            i <= n,
            forall|j: int| 0 <= j < i ==> rewrite_safe_arg(generic_arg_v(s.args@[j])),
        decreases n - i,
    {
        let unsupported = match &s.args[i] {
            GenericArg::TypeArg(ty) => has_unsupported_shape(ty),
            GenericArg::Binding { ty, .. } => has_unsupported_shape(ty),
            GenericArg::LifetimeArg(_) => false,
        };
        if unsupported {
            proof {
                assert(!rewrite_safe_arg(generic_args_v(s.args@)[i as int]));
            }
            return true;
        }
        i += 1;
    }
    proof {
        assert(forall|j: int|
            0 <= j < s.args@.len() ==> rewrite_safe_arg(generic_args_v(s.args@)[j]));
    }
    false
}

} // verus!
