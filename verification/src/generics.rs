//! The generics merger: unions two generic-parameter/constraint sets.
//!
//! The union is syntactic and left-biased.  Parameters are identified by
//! their kind and identifier only; where-predicates by their left-hand
//! operand only.  Bounds are never reconciled: callers remain responsible
//! for keeping them satisfiable.

use vstd::prelude::*;

use crate::ast::{
    GenericParam, GenericParamV, GenericsSet, GenericsSetV, WherePredicate, WherePredicateV,
    generic_param_v, generic_params_v, lemma_generic_params_v, lemma_where_predicates_v,
    where_predicate_v, where_predicates_v,
};
use crate::util::{chars_eq, dup_ident, dup_idents, dup_type_expr, type_expr_eq};

verus! {

// ---------------------------------------------------------------------------
// Merge identities
// ---------------------------------------------------------------------------

/// Do two parameters share a merge key, that is, kind and identifier?
pub open spec fn gp_same_key(a: GenericParamV, b: GenericParamV) -> bool {
    match (a, b) {
        (
            GenericParamV::TypeParam { name: n1, .. },
            GenericParamV::TypeParam { name: n2, .. },
        ) => n1 == n2,
        (
            GenericParamV::LifetimeParam { name: n1, .. },
            GenericParamV::LifetimeParam { name: n2, .. },
        ) => n1 == n2,
        (
            GenericParamV::ConstParam { name: n1 },
            GenericParamV::ConstParam { name: n2 },
        ) => n1 == n2,
        _ => false,
    }
}

/// Does some entry of `s` share its key with `p`?
pub open spec fn has_param_key(s: Seq<GenericParamV>, p: GenericParamV) -> bool {
    exists|i: int| 0 <= i < s.len() && gp_same_key(s[i], p)
}

/// Do two where-predicates share their dedup key, the left-hand operand?
pub open spec fn wp_same_key(a: WherePredicateV, b: WherePredicateV) -> bool {
    match (a, b) {
        (
            WherePredicateV::TypeBound { bounded_ty: t1, .. },
            WherePredicateV::TypeBound { bounded_ty: t2, .. },
        ) => t1 == t2,
        (
            WherePredicateV::LifetimeBound { lifetime: l1, .. },
            WherePredicateV::LifetimeBound { lifetime: l2, .. },
        ) => l1 == l2,
        (
            WherePredicateV::EqualityConstraint { lhs_ty: t1, .. },
            WherePredicateV::EqualityConstraint { lhs_ty: t2, .. },
        ) => t1 == t2,
        _ => false,
    }
}

/// Does some entry of `s` share its key with `p`?
pub open spec fn has_pred_key(s: Seq<WherePredicateV>, p: WherePredicateV) -> bool {
    exists|i: int| 0 <= i < s.len() && wp_same_key(s[i], p)
}

/// All of `xs`, then every entry of `ys` whose key is absent from `xs`,
/// in order.
pub open spec fn merge_params_s(
    xs: Seq<GenericParamV>,
    ys: Seq<GenericParamV>,
) -> Seq<GenericParamV>
    decreases ys.len(),
{
    if ys.len() == 0 {
        xs
    } else {
        let rest = merge_params_s(xs, ys.drop_last());
        if has_param_key(xs, ys.last()) {
            rest
        } else {
            rest.push(ys.last())
        }
    }
}

/// All of `xs`, then every entry of `ys` whose key is absent from `xs`,
/// in order.
pub open spec fn merge_preds_s(
    xs: Seq<WherePredicateV>,
    ys: Seq<WherePredicateV>,
) -> Seq<WherePredicateV>
    decreases ys.len(),
{
    if ys.len() == 0 {
        xs
    } else {
        let rest = merge_preds_s(xs, ys.drop_last());
        if has_pred_key(xs, ys.last()) {
            rest
        } else {
            rest.push(ys.last())
        }
    }
}

/// The distinguished empty state: no parameter brackets at all.
pub open spec fn empty_generics() -> GenericsSetV {
    GenericsSetV { present: false, params: Seq::empty(), preds: Option::None }
}

/// A set without brackets carries nothing else.
pub open spec fn generics_wf(g: GenericsSetV) -> bool {
    !g.present ==> g.params.len() == 0 && g.preds is None
}

/// What the merge yields.  Either empty state is the identity; otherwise
/// parameters and where-predicates are unioned left-biased, keyed as above.
pub open spec fn merge_generics_s(x: GenericsSetV, y: GenericsSetV) -> GenericsSetV {
    if !x.present {
        y
    } else if !y.present {
        x
    } else {
        GenericsSetV {
            present: true,
            params: merge_params_s(x.params, y.params),
            preds: match (x.preds, y.preds) {
                (Option::None, yp) => yp,
                (Option::Some(xp), Option::None) => Option::Some(xp),
                (Option::Some(xp), Option::Some(yp)) => Option::Some(merge_preds_s(xp, yp)),
            },
        }
    }
}

// ---------------------------------------------------------------------------
// Executable comparisons and copies
// ---------------------------------------------------------------------------

/// Compares two parameters by kind and identifier only.
pub fn gp_key_eq(a: &GenericParam, b: &GenericParam) -> (r: bool)
    ensures
        r == gp_same_key(generic_param_v(*a), generic_param_v(*b)),
{
    match (a, b) {
        (
            GenericParam::TypeParam { ident: i1, .. },
            GenericParam::TypeParam { ident: i2, .. },
        ) => chars_eq(&i1.name, &i2.name),
        (
            GenericParam::LifetimeParam { ident: i1, .. },
            GenericParam::LifetimeParam { ident: i2, .. },
        ) => chars_eq(&i1.name, &i2.name),
        (
            GenericParam::ConstParam { ident: i1 },
            GenericParam::ConstParam { ident: i2 },
        ) => chars_eq(&i1.name, &i2.name),
        _ => false,
    }
}

/// Compares two where-predicates by left-hand operand only.
pub fn wp_key_eq(a: &WherePredicate, b: &WherePredicate) -> (r: bool)
    ensures
        r == wp_same_key(where_predicate_v(*a), where_predicate_v(*b)),
{
    match (a, b) {
        (
            WherePredicate::TypeBound { bounded_ty: t1, .. },
            WherePredicate::TypeBound { bounded_ty: t2, .. },
        ) => type_expr_eq(t1, t2),
        (
            WherePredicate::LifetimeBound { lifetime: l1, .. },
            WherePredicate::LifetimeBound { lifetime: l2, .. },
        ) => chars_eq(&l1.name, &l2.name),
        (
            WherePredicate::EqualityConstraint { lhs_ty: t1, .. },
            WherePredicate::EqualityConstraint { lhs_ty: t2, .. },
        ) => type_expr_eq(t1, t2),
        _ => false,
    }
}

fn params_contain_key(xs: &Vec<GenericParam>, p: &GenericParam) -> (r: bool)
    ensures
        r == has_param_key(generic_params_v(xs@), generic_param_v(*p)),
{
    proof {
        lemma_generic_params_v(xs@);
    }
    let n = xs.len();
    let mut i: usize = 0;
    while i < n
        invariant
            n == xs@.len(),
            i <= n,
            generic_params_v(xs@).len() == xs@.len(),
            forall|j: int|
                0 <= j < xs@.len() ==> generic_params_v(xs@)[j] == generic_param_v(xs@[j]),
            forall|j: int|
                0 <= j < i ==> !gp_same_key(generic_param_v(xs@[j]), generic_param_v(*p)),
        decreases n - i,
    {
        if gp_key_eq(&xs[i], p) {
            proof {
                assert(gp_same_key(generic_params_v(xs@)[i as int], generic_param_v(*p)));
            }
            return true;
        }
        i += 1;
    }
    false
}

fn preds_contain_key(xs: &Vec<WherePredicate>, p: &WherePredicate) -> (r: bool)
    ensures
        r == has_pred_key(where_predicates_v(xs@), where_predicate_v(*p)),
{
    proof {
        lemma_where_predicates_v(xs@);
    }
    let n = xs.len();
    let mut i: usize = 0;
    while i < n
        invariant
            n == xs@.len(),
            i <= n,
            where_predicates_v(xs@).len() == xs@.len(),
            forall|j: int|
                0 <= j < xs@.len() ==> where_predicates_v(xs@)[j] == where_predicate_v(xs@[j]),
            forall|j: int|
                0 <= j < i ==> !wp_same_key(where_predicate_v(xs@[j]), where_predicate_v(*p)),
        decreases n - i,
    {
        if wp_key_eq(&xs[i], p) {
            proof {
                assert(wp_same_key(where_predicates_v(xs@)[i as int], where_predicate_v(*p)));
            }
            return true;
        }
        i += 1;
    }
    false
}

pub fn dup_generic_param(p: &GenericParam) -> (r: GenericParam)
    ensures
        generic_param_v(r) == generic_param_v(*p),
{
    match p {
        GenericParam::TypeParam { ident, bounds } => GenericParam::TypeParam {
            ident: dup_ident(ident),
            bounds: dup_idents(bounds),
        },
        GenericParam::LifetimeParam { ident, bounds } => GenericParam::LifetimeParam {
            ident: dup_ident(ident),
            bounds: dup_idents(bounds),
        },
        GenericParam::ConstParam { ident } => GenericParam::ConstParam {
            ident: dup_ident(ident),
        },
    }
}

pub fn dup_where_predicate(p: &WherePredicate) -> (r: WherePredicate)
    ensures
        where_predicate_v(r) == where_predicate_v(*p),
{
    match p {
        WherePredicate::TypeBound { bounded_ty, bounds } => WherePredicate::TypeBound {
            bounded_ty: dup_type_expr(bounded_ty),
            bounds: dup_idents(bounds),
        },
        WherePredicate::LifetimeBound { lifetime, bounds } => WherePredicate::LifetimeBound {
            lifetime: dup_ident(lifetime),
            bounds: dup_idents(bounds),
        },
        WherePredicate::EqualityConstraint { lhs_ty, rhs_ty } => {
            WherePredicate::EqualityConstraint {
                lhs_ty: dup_type_expr(lhs_ty),
                rhs_ty: dup_type_expr(rhs_ty),
            }
        },
    }
}

pub fn dup_generic_params(v: &Vec<GenericParam>) -> (r: Vec<GenericParam>)
    ensures
        generic_params_v(r@) == generic_params_v(v@),
{
    let mut r: Vec<GenericParam> = Vec::new();
    let n = v.len();
    let mut i: usize = 0;
    while i < n
        invariant
            n == v@.len(),
            i <= n,
            r@.len() == i,
            forall|j: int|
                0 <= j < i ==> generic_param_v(r@[j]) == generic_param_v(v@[j]),
        decreases n - i,
    {
        let d = dup_generic_param(&v[i]);
        r.push(d);
        i += 1;
    }
    proof {
        lemma_generic_params_v(r@);
        lemma_generic_params_v(v@);
        assert(generic_params_v(r@) =~= generic_params_v(v@));
    }
    r
}

pub fn dup_where_predicates(v: &Vec<WherePredicate>) -> (r: Vec<WherePredicate>)
    ensures
        where_predicates_v(r@) == where_predicates_v(v@),
{
    let mut r: Vec<WherePredicate> = Vec::new();
    let n = v.len();
    let mut i: usize = 0;
    while i < n
        invariant
            n == v@.len(),
            i <= n,
            r@.len() == i,
            forall|j: int|
                0 <= j < i ==> where_predicate_v(r@[j]) == where_predicate_v(v@[j]),
        decreases n - i,
    {
        let d = dup_where_predicate(&v[i]);
        r.push(d);
        i += 1;
    }
    proof {
        lemma_where_predicates_v(r@);
        lemma_where_predicates_v(v@);
        assert(where_predicates_v(r@) =~= where_predicates_v(v@));
    }
    r
}

pub fn dup_generics_set(g: &GenericsSet) -> (r: GenericsSet)
    ensures
        r@ == g@,
{
    let preds = match &g.preds {
        Option::Some(ps) => Option::Some(dup_where_predicates(ps)),
        Option::None => Option::None,
    };
    GenericsSet { present: g.present, params: dup_generic_params(&g.params), preds }
}

// ---------------------------------------------------------------------------
// The merge
// ---------------------------------------------------------------------------

/// Combines two generic-parameter sets into one holding the union of their
/// parameters and where-predicates.  The output's bounds are taken verbatim
/// from the inputs, left-biased; they are not reconciled.
#[verifier::loop_isolation(false)]
pub fn merge_generics(x: &GenericsSet, y: &GenericsSet) -> (r: GenericsSet)
    ensures
        r@ == merge_generics_s(x@, y@),
{
    if !x.present {
        let r = dup_generics_set(y);
        return r;
    }
    if !y.present {
        let r = dup_generics_set(x);
        return r;
    }
    let ghost xs = generic_params_v(x.params@);
    let ghost ys = generic_params_v(y.params@);
    proof {
        lemma_generic_params_v(x.params@);
        lemma_generic_params_v(y.params@);
    }
    let mut params = dup_generic_params(&x.params);
    proof {
        assert(ys.take(0) =~= Seq::empty());
        assert(generic_params_v(params@) == merge_params_s(xs, ys.take(0)));
    }
    let m = y.params.len();
    let mut k: usize = 0;
    while k < m
        invariant
            m == y.params@.len(),
            k <= m,
            generic_params_v(params@) == merge_params_s(xs, ys.take(k as int)),
        decreases m - k,
    {
        let ghost before = generic_params_v(params@);
        let ghost prev_ps = params@;
        if !params_contain_key(&x.params, &y.params[k]) {
            let d = dup_generic_param(&y.params[k]);
            params.push(d);
            proof {
                lemma_generic_params_v(params@);
                lemma_generic_params_v(prev_ps);
                assert(params@ == prev_ps.push(d));
                assert(generic_params_v(params@) =~= before.push(
                    generic_param_v(y.params@[k as int]),
                ));
            }
        }
        proof {
            assert(ys.take(k + 1).drop_last() =~= ys.take(k as int));
            assert(ys.take(k + 1).last() == generic_param_v(y.params@[k as int]));
        }
        k += 1;
    }
    proof {
        assert(ys.take(m as int) =~= ys);
    }
    let preds = match (&x.preds, &y.preds) {
        (Option::None, Option::None) => Option::None,
        (Option::None, Option::Some(yp)) => Option::Some(dup_where_predicates(yp)),
        (Option::Some(xp), Option::None) => Option::Some(dup_where_predicates(xp)),
        (Option::Some(xp), Option::Some(yp)) => {
            let ghost xps = where_predicates_v(xp@);
            let ghost yps = where_predicates_v(yp@);
            proof {
                lemma_where_predicates_v(xp@);
                lemma_where_predicates_v(yp@);
            }
            let mut out = dup_where_predicates(xp);
            proof {
                assert(yps.take(0) =~= Seq::empty());
            }
            let pn = yp.len();
            let mut i: usize = 0;
            while i < pn
                invariant
                    pn == yp@.len(),
                    i <= pn,
                    where_predicates_v(out@) == merge_preds_s(xps, yps.take(i as int)),
                decreases pn - i,
            {
                let ghost before = where_predicates_v(out@);
                let ghost prev_ps = out@;
                if !preds_contain_key(xp, &yp[i]) {
                    let d = dup_where_predicate(&yp[i]);
                    out.push(d);
                    proof {
                        lemma_where_predicates_v(out@);
                        lemma_where_predicates_v(prev_ps);
                        assert(out@ == prev_ps.push(d));
                        assert(where_predicates_v(out@) =~= before.push(
                            where_predicate_v(yp@[i as int]),
                        ));
                    }
                }
                proof {
                    assert(yps.take(i + 1).drop_last() =~= yps.take(i as int));
                    assert(yps.take(i + 1).last() == where_predicate_v(yp@[i as int]));
                }
                i += 1;
            }
            proof {
                assert(yps.take(pn as int) =~= yps);
            }
            Option::Some(out)
        },
    };
    GenericsSet { present: true, params, preds }
}

/// No two entries share a merge key.
pub open spec fn distinct_keys(s: Seq<GenericParamV>) -> bool {
    forall|i: int, j: int| 0 <= i < j < s.len() ==> !gp_same_key(s[i], s[j])
}

/// Either empty state is the identity element of the merge.
pub proof fn lemma_merge_identity(x: GenericsSetV)
    requires
        generics_wf(x),
    ensures
        merge_generics_s(empty_generics(), x) == x,
        merge_generics_s(x, empty_generics()) == x,
{
    if !x.present {
        assert(x.params =~= empty_generics().params);
    }
}

/// The merged parameter list keeps all of the left operand's entries, in
/// their order and positions; appends exactly the right operand's novel
/// entries; and, when neither operand repeats a key internally, repeats no
/// key itself.
pub proof fn lemma_merge_params_dedup(xs: Seq<GenericParamV>, ys: Seq<GenericParamV>)
    requires
        distinct_keys(xs),
        distinct_keys(ys),
    ensures
        merge_params_s(xs, ys).len() >= xs.len(),
        forall|i: int| 0 <= i < xs.len() ==> merge_params_s(xs, ys)[i] == xs[i],
        forall|i: int|
            xs.len() <= i < merge_params_s(xs, ys).len() ==> ys.contains(
                merge_params_s(xs, ys)[i],
            ) && !has_param_key(xs, merge_params_s(xs, ys)[i]),
        forall|p: GenericParamV|
            ys.contains(p) && !has_param_key(xs, p) ==> merge_params_s(xs, ys).contains(p),
        distinct_keys(merge_params_s(xs, ys)),
    decreases ys.len(),
{
    if ys.len() == 0 {
    } else {
        let ysp = ys.drop_last();
        let p = ys.last();
        assert(distinct_keys(ysp));
        lemma_merge_params_dedup(xs, ysp);
        let rest = merge_params_s(xs, ysp);
        let full = merge_params_s(xs, ys);
        assert(forall|q: GenericParamV| ysp.contains(q) ==> ys.contains(q));
        if has_param_key(xs, p) {
            assert(full == rest);
            assert forall|q: GenericParamV|
                ys.contains(q) && !has_param_key(xs, q) implies full.contains(q) by {
                let w = choose|w: int| 0 <= w < ys.len() && ys[w] == q;
                if w < ys.len() - 1 {
                    assert(ysp[w] == q);
                    assert(ysp.contains(q));
                }
            }
        } else {
            assert(full == rest.push(p));
            assert(forall|i: int| 0 <= i < rest.len() ==> full[i] == rest[i]);
            assert forall|i: int, j: int|
                0 <= i < j < full.len() implies !gp_same_key(full[i], full[j]) by {
                if j < full.len() - 1 {
                } else {
                    // `j` is the pushed entry `p`.
                    if i < xs.len() {
                        assert(full[i] == xs[i]);
                        assert(!has_param_key(xs, p));
                    } else {
                        let q = full[i];
                        assert(rest[i] == q);
                        assert(ysp.contains(q));
                        let w = choose|w: int| 0 <= w < ysp.len() && ysp[w] == q;
                        assert(ys[w] == q);
                        assert(!gp_same_key(ys[w], ys[ys.len() - 1]));
                    }
                }
            }
            assert forall|q: GenericParamV|
                ys.contains(q) && !has_param_key(xs, q) implies full.contains(q) by {
                let w = choose|w: int| 0 <= w < ys.len() && ys[w] == q;
                if w < ys.len() - 1 {
                    assert(ysp[w] == q);
                    assert(ysp.contains(q));
                    let u = choose|u: int| 0 <= u < rest.len() && rest[u] == q;
                    assert(full[u] == q);
                } else {
                    assert(full[full.len() - 1] == q);
                }
            }
        }
    }
}

/// The dedup law lifted to whole generics sets.
pub proof fn lemma_merge_generics_dedup(x: GenericsSetV, y: GenericsSetV)
    requires
        distinct_keys(x.params),
        distinct_keys(y.params),
    ensures
        distinct_keys(merge_generics_s(x, y).params),
{
    if x.present && y.present {
        lemma_merge_params_dedup(x.params, y.params);
    }
}

} // verus!
