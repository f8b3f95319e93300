//! Small executable helpers shared by the passes: copying trees, comparing
//! trees by their mirrors (that is, ignoring source locations), and
//! recognising the reserved names.

use vstd::prelude::*;

use crate::ast::{
    Bound, GenericArg, Ident, Path, PathSegment, TypeExpr,
    bound_v, bounds_v, generic_arg_v, generic_args_v, ident_v, idents_v, lifetime_v,
    path_seg_v, path_segs_v, type_expr_v, type_exprs_v,
    lemma_bounds_v, lemma_generic_args_v, lemma_idents_v, lemma_path_segs_v,
    lemma_type_exprs_v,
    crate_name, self_name, static_name, super_name,
};

verus! {

// ---------------------------------------------------------------------------
// Character sequences
// ---------------------------------------------------------------------------

/// Structural equality of two character vectors.
pub fn chars_eq(a: &Vec<char>, b: &Vec<char>) -> (r: bool)
    ensures
        r == (a@ == b@),
{
    if a.len() != b.len() {
        return false;
    }
    let n = a.len();
    let mut i: usize = 0;
    while i < n
        invariant
            n == a@.len(),
            a@.len() == b@.len(),
            i <= n,
            forall|j: int| 0 <= j < i ==> a@[j] == b@[j],
        decreases n - i,
    {
        if a[i] != b[i] {
            return false;
        }
        i += 1;
    }
    proof {
        assert(a@ =~= b@);
    }
    true
}

/// A fresh copy of a character vector.
pub fn dup_chars(v: &Vec<char>) -> (r: Vec<char>)
    ensures
        r@ == v@,
{
    let mut r: Vec<char> = Vec::new();
    let n = v.len();
    let mut i: usize = 0;
    while i < n
        invariant
            n == v@.len(),
            i <= n,
            r@ == v@.take(i as int),
        decreases n - i,
    {
        r.push(v[i]);
        proof {
            assert(r@ =~= v@.take(i as int + 1));
        }
        i += 1;
    }
    proof {
        assert(v@.take(v@.len() as int) =~= v@);
    }
    r
}

/// Appends a copy of `src` to `dst`.
pub fn push_chars(dst: &mut Vec<char>, src: &Vec<char>)
    ensures
        final(dst)@ == old(dst)@ + src@,
{
    let n = src.len();
    let mut i: usize = 0;
    while i < n
        invariant
            n == src@.len(),
            i <= n,
            dst@ == old(dst)@ + src@.take(i as int),
        decreases n - i,
    {
        dst.push(src[i]);
        proof {
            assert(old(dst)@ + src@.take(i as int + 1) =~= (old(dst)@ + src@.take(i as int)).push(
                src@[i as int],
            ));
        }
        i += 1;
    }
    proof {
        assert(src@.take(src@.len() as int) =~= src@);
    }
}

// ---------------------------------------------------------------------------
// Reserved-name recognisers
// ---------------------------------------------------------------------------

/// Does this name read `Self`?
pub fn is_self_name(v: &Vec<char>) -> (r: bool)
    ensures
        r == (v@ == self_name()),
{
    let r = v.len() == 4 && v[0] == 'S' && v[1] == 'e' && v[2] == 'l' && v[3] == 'f';
    proof {
        if r {
            assert(v@ =~= self_name());
        } else {
            if v@ == self_name() {
                assert(v@.len() == 4);
                assert(v@[0] == 'S' && v@[1] == 'e' && v@[2] == 'l' && v@[3] == 'f');
            }
        }
    }
    r
}

/// Does this name read `super`?
pub fn is_super_name(v: &Vec<char>) -> (r: bool)
    ensures
        r == (v@ == super_name()),
{
    let r = v.len() == 5 && v[0] == 's' && v[1] == 'u' && v[2] == 'p' && v[3] == 'e' && v[4]
        == 'r';
    proof {
        if r {
            assert(v@ =~= super_name());
        } else {
            if v@ == super_name() {
                assert(v@.len() == 5);
                assert(v@[0] == 's' && v@[1] == 'u' && v@[2] == 'p' && v@[3] == 'e' && v@[4]
                    == 'r');
            }
        }
    }
    r
}

/// Does this name read `crate`?
pub fn is_crate_name(v: &Vec<char>) -> (r: bool)
    ensures
        r == (v@ == crate_name()),
{
    let r = v.len() == 5 && v[0] == 'c' && v[1] == 'r' && v[2] == 'a' && v[3] == 't' && v[4]
        == 'e';
    proof {
        if r {
            assert(v@ =~= crate_name());
        } else {
            if v@ == crate_name() {
                assert(v@.len() == 5);
                assert(v@[0] == 'c' && v@[1] == 'r' && v@[2] == 'a' && v@[3] == 't' && v@[4]
                    == 'e');
            }
        }
    }
    r
}

/// Does this name read `static`?
pub fn is_static_name(v: &Vec<char>) -> (r: bool)
    ensures
        r == (v@ == static_name()),
{
    let r = v.len() == 6 && v[0] == 's' && v[1] == 't' && v[2] == 'a' && v[3] == 't' && v[4]
        == 'i' && v[5] == 'c';
    proof {
        if r {
            assert(v@ =~= static_name());
        } else {
            if v@ == static_name() {
                assert(v@.len() == 6);
                assert(v@[0] == 's' && v@[1] == 't' && v@[2] == 'a' && v@[3] == 't' && v@[4]
                    == 'i' && v@[5] == 'c');
            }
        }
    }
    r
}

// ---------------------------------------------------------------------------
// Deep copies
// ---------------------------------------------------------------------------

/// A fresh identifier with the same name and location.
pub fn dup_ident(i: &Ident) -> (r: Ident)
    ensures
        r@ == i@,
        r.loc == i.loc,
{
    Ident { name: dup_chars(&i.name), loc: i.loc }
}

pub fn dup_idents(v: &Vec<Ident>) -> (r: Vec<Ident>)
    ensures
        idents_v(r@) == idents_v(v@),
{
    let mut r: Vec<Ident> = Vec::new();
    let n = v.len();
    let mut i: usize = 0;
    while i < n
        invariant
            n == v@.len(),
            i <= n,
            r@.len() == i,
            forall|j: int| 0 <= j < i ==> ident_v(r@[j]) == ident_v(v@[j]),
        decreases n - i,
    {
        let d = dup_ident(&v[i]);
        r.push(d);
        i += 1;
    }
    proof {
        lemma_idents_v(r@);
        lemma_idents_v(v@);
        assert(idents_v(r@) =~= idents_v(v@));
    }
    r
}

#[verifier::loop_isolation(false)]
pub fn dup_type_expr(t: &TypeExpr) -> (r: TypeExpr)
    ensures
        r@ == t@,
    decreases t,
{
    match t {
        TypeExpr::Slice(e) => TypeExpr::Slice(Box::new(dup_type_expr(&**e))),
        TypeExpr::Array { elem, len } => TypeExpr::Array {
            elem: Box::new(dup_type_expr(&**elem)),
            len: *len,
        },
        TypeExpr::Ptr { mutable, elem } => TypeExpr::Ptr {
            mutable: *mutable,
            elem: Box::new(dup_type_expr(&**elem)),
        },
        TypeExpr::Reference { lifetime, mutable, elem } => {
            let lt = match lifetime {
                Option::Some(i) => Option::Some(dup_ident(i)),
                Option::None => Option::None,
            };
            TypeExpr::Reference {
                lifetime: lt,
                mutable: *mutable,
                elem: Box::new(dup_type_expr(&**elem)),
            }
        },
        TypeExpr::BareFn { loc } => TypeExpr::BareFn { loc: *loc },
        TypeExpr::Tuple(elems) => {
            let mut out: Vec<TypeExpr> = Vec::new();
            let n = elems.len();
            let mut i: usize = 0;
            while i < n
                invariant
                    n == elems@.len(),
                    i <= n,
                    out@.len() == i,
                    forall|j: int|
                        0 <= j < i ==> type_expr_v(out@[j]) == type_expr_v(elems@[j]),
                decreases n - i,
            {
                proof {
                    assert(*elems == t->Tuple_0);
                    assert(decreases_to!(*t => t->Tuple_0));
                    assert(decreases_to!(t->Tuple_0 => t->Tuple_0@));
                    assert(decreases_to!(t->Tuple_0@ => t->Tuple_0@[i as int]));
                }
                let d = dup_type_expr(&elems[i]);
                out.push(d);
                i += 1;
            }
            proof {
                lemma_type_exprs_v(out@);
                lemma_type_exprs_v(elems@);
                assert(type_exprs_v(out@) =~= type_exprs_v(elems@));
            }
            TypeExpr::Tuple(out)
        },
        TypeExpr::NamedPath { qself, path } => TypeExpr::NamedPath {
            qself: *qself,
            path: dup_path(path),
        },
        TypeExpr::Grouping(e) => TypeExpr::Grouping(Box::new(dup_type_expr(&**e))),
        TypeExpr::ImplTrait { bounds, loc } => TypeExpr::ImplTrait {
            bounds: dup_bounds(bounds),
            loc: *loc,
        },
        TypeExpr::TraitObject { bounds, loc } => TypeExpr::TraitObject {
            bounds: dup_bounds(bounds),
            loc: *loc,
        },
        TypeExpr::MacroFragment { loc } => TypeExpr::MacroFragment { loc: *loc },
        TypeExpr::Verbatim { loc } => TypeExpr::Verbatim { loc: *loc },
        TypeExpr::Infer => TypeExpr::Infer,
        TypeExpr::Never => TypeExpr::Never,
    }
}

pub fn dup_generic_arg(a: &GenericArg) -> (r: GenericArg)
    ensures
        generic_arg_v(r) == generic_arg_v(*a),
    decreases a,
{
    match a {
        GenericArg::TypeArg(t) => GenericArg::TypeArg(dup_type_expr(t)),
        GenericArg::Binding { name, ty } => GenericArg::Binding {
            name: dup_ident(name),
            ty: dup_type_expr(ty),
        },
        GenericArg::LifetimeArg(i) => GenericArg::LifetimeArg(dup_ident(i)),
    }
}

pub fn dup_path_segment(s: &PathSegment) -> (r: PathSegment)
    ensures
        path_seg_v(r) == path_seg_v(*s),
    decreases s,
{
    let mut out: Vec<GenericArg> = Vec::new();
    let n = s.args.len();
    let mut i: usize = 0;
    while i < n
        invariant
            n == s.args@.len(),
            i <= n,
            out@.len() == i,
            forall|j: int| 0 <= j < i ==> generic_arg_v(out@[j]) == generic_arg_v(s.args@[j]),
        decreases n - i,
    {
        let d = dup_generic_arg(&s.args[i]);
        out.push(d);
        i += 1;
    }
    proof {
        lemma_generic_args_v(out@);
        lemma_generic_args_v(s.args@);
        assert(generic_args_v(out@) =~= generic_args_v(s.args@));
    }
    PathSegment { ident: dup_ident(&s.ident), args: out }
}

pub fn dup_path(p: &Path) -> (r: Path)
    ensures
        r@ == p@,
    decreases p,
{
    let mut out: Vec<PathSegment> = Vec::new();
    let n = p.segments.len();
    let mut i: usize = 0;
    while i < n
        invariant
            n == p.segments@.len(),
            i <= n,
            out@.len() == i,
            forall|j: int| 0 <= j < i ==> path_seg_v(out@[j]) == path_seg_v(p.segments@[j]),
        decreases n - i,
    {
        let d = dup_path_segment(&p.segments[i]);
        out.push(d);
        i += 1;
    }
    proof {
        lemma_path_segs_v(out@);
        lemma_path_segs_v(p.segments@);
        assert(path_segs_v(out@) =~= path_segs_v(p.segments@));
    }
    Path { segments: out }
}

pub fn dup_bound(b: &Bound) -> (r: Bound)
    ensures
        bound_v(r) == bound_v(*b),
    decreases b,
{
    match b {
        Bound::Trait(p) => Bound::Trait(dup_path(p)),
        Bound::Lifetime(i) => Bound::Lifetime(dup_ident(i)),
    }
}

pub fn dup_bounds(v: &Vec<Bound>) -> (r: Vec<Bound>)
    ensures
        bounds_v(r@) == bounds_v(v@),
    decreases v,
{
    let mut out: Vec<Bound> = Vec::new();
    let n = v.len();
    let mut i: usize = 0;
    while i < n
        invariant
            n == v@.len(),
            i <= n,
            out@.len() == i,
            forall|j: int| 0 <= j < i ==> bound_v(out@[j]) == bound_v(v@[j]),
        decreases n - i,
    {
        let d = dup_bound(&v[i]);
        out.push(d);
        i += 1;
    }
    proof {
        lemma_bounds_v(out@);
        lemma_bounds_v(v@);
        assert(bounds_v(out@) =~= bounds_v(v@));
    }
    out
}

// ---------------------------------------------------------------------------
// Deep equality, by the mirrors (locations ignored)
// ---------------------------------------------------------------------------

pub fn ident_eq(a: &Ident, b: &Ident) -> (r: bool)
    ensures
        r == (a@ == b@),
{
    chars_eq(&a.name, &b.name)
}

pub fn lifetime_eq(a: &Option<Ident>, b: &Option<Ident>) -> (r: bool)
    ensures
        r == (lifetime_v(*a) == lifetime_v(*b)),
{
    match (a, b) {
        (Option::None, Option::None) => true,
        (Option::Some(x), Option::Some(y)) => ident_eq(x, y),
        _ => false,
    }
}

pub fn type_expr_eq(a: &TypeExpr, b: &TypeExpr) -> (r: bool)
    ensures
        r == (a@ == b@),
    decreases a,
{
    match (a, b) {
        (TypeExpr::Slice(e1), TypeExpr::Slice(e2)) => type_expr_eq(&**e1, &**e2),
        (TypeExpr::Array { elem: e1, len: l1 }, TypeExpr::Array { elem: e2, len: l2 }) => {
            *l1 == *l2 && type_expr_eq(&**e1, &**e2)
        },
        (TypeExpr::Ptr { mutable: m1, elem: e1 }, TypeExpr::Ptr { mutable: m2, elem: e2 }) => {
            *m1 == *m2 && type_expr_eq(&**e1, &**e2)
        },
        (
            TypeExpr::Reference { lifetime: lt1, mutable: m1, elem: e1 },
            TypeExpr::Reference { lifetime: lt2, mutable: m2, elem: e2 },
        ) => {
            *m1 == *m2 && lifetime_eq(lt1, lt2) && type_expr_eq(&**e1, &**e2)
        },
        (TypeExpr::BareFn { .. }, TypeExpr::BareFn { .. }) => true,
        (TypeExpr::Tuple(x), TypeExpr::Tuple(y)) => type_exprs_eq(x, y),
        (
            TypeExpr::NamedPath { qself: q1, path: p1 },
            TypeExpr::NamedPath { qself: q2, path: p2 },
        ) => {
            (q1.is_some() == q2.is_some()) && path_eq(p1, p2)
        },
        (TypeExpr::Grouping(e1), TypeExpr::Grouping(e2)) => type_expr_eq(&**e1, &**e2),
        (
            TypeExpr::ImplTrait { bounds: b1, .. },
            TypeExpr::ImplTrait { bounds: b2, .. },
        ) => bounds_eq(b1, b2),
        (
            TypeExpr::TraitObject { bounds: b1, .. },
            TypeExpr::TraitObject { bounds: b2, .. },
        ) => bounds_eq(b1, b2),
        (TypeExpr::MacroFragment { .. }, TypeExpr::MacroFragment { .. }) => true,
        (TypeExpr::Verbatim { .. }, TypeExpr::Verbatim { .. }) => true,
        (TypeExpr::Infer, TypeExpr::Infer) => true,
        (TypeExpr::Never, TypeExpr::Never) => true,
        _ => false,
    }
}

pub fn type_exprs_eq(a: &Vec<TypeExpr>, b: &Vec<TypeExpr>) -> (r: bool)
    ensures
        r == (type_exprs_v(a@) == type_exprs_v(b@)),
    decreases a,
{
    proof {
        lemma_type_exprs_v(a@);
        lemma_type_exprs_v(b@);
    }
    if a.len() != b.len() {
        return false;
    }
    let n = a.len();
    let mut i: usize = 0;
    while i < n
        invariant
            n == a@.len(),
            a@.len() == b@.len(),
            i <= n,
            type_exprs_v(a@).len() == a@.len(),
            type_exprs_v(b@).len() == b@.len(),
            forall|j: int|
                0 <= j < a@.len() ==> type_exprs_v(a@)[j] == type_expr_v(a@[j]),
            forall|j: int|
                0 <= j < b@.len() ==> type_exprs_v(b@)[j] == type_expr_v(b@[j]),
            forall|j: int| 0 <= j < i ==> type_expr_v(a@[j]) == type_expr_v(b@[j]),
        decreases n - i,
    {
        if !type_expr_eq(&a[i], &b[i]) {
            proof {
                assert(type_exprs_v(a@)[i as int] != type_exprs_v(b@)[i as int]);
            }
            return false;
        }
        i += 1;
    }
    proof {
        assert(type_exprs_v(a@) =~= type_exprs_v(b@));
    }
    true
}

pub fn generic_arg_eq(a: &GenericArg, b: &GenericArg) -> (r: bool)
    ensures
        r == (generic_arg_v(*a) == generic_arg_v(*b)),
    decreases a,
{
    match (a, b) {
        (GenericArg::TypeArg(t1), GenericArg::TypeArg(t2)) => type_expr_eq(t1, t2),
        (
            GenericArg::Binding { name: n1, ty: t1 },
            GenericArg::Binding { name: n2, ty: t2 },
        ) => {
            ident_eq(n1, n2) && type_expr_eq(t1, t2)
        },
        (GenericArg::LifetimeArg(i1), GenericArg::LifetimeArg(i2)) => ident_eq(i1, i2),
        _ => false,
    }
}

pub fn path_segment_eq(a: &PathSegment, b: &PathSegment) -> (r: bool)
    ensures
        r == (path_seg_v(*a) == path_seg_v(*b)),
    decreases a,
{
    proof {
        lemma_generic_args_v(a.args@);
        lemma_generic_args_v(b.args@);
    }
    if !ident_eq(&a.ident, &b.ident) {
        return false;
    }
    if a.args.len() != b.args.len() {
        return false;
    }
    let n = a.args.len();
    let mut i: usize = 0;
    while i < n
        invariant
            n == a.args@.len(),
            a.args@.len() == b.args@.len(),
            i <= n,
            generic_args_v(a.args@).len() == a.args@.len(),
            generic_args_v(b.args@).len() == b.args@.len(),
            forall|j: int|
                0 <= j < a.args@.len() ==> generic_args_v(a.args@)[j] == generic_arg_v(
                    a.args@[j],
                ),
            forall|j: int|
                0 <= j < b.args@.len() ==> generic_args_v(b.args@)[j] == generic_arg_v(
                    b.args@[j],
                ),
            forall|j: int| 0 <= j < i ==> generic_arg_v(a.args@[j]) == generic_arg_v(b.args@[j]),
        decreases n - i,
    {
        if !generic_arg_eq(&a.args[i], &b.args[i]) {
            proof {
                assert(generic_args_v(a.args@)[i as int] != generic_args_v(b.args@)[i as int]);
            }
            return false;
        }
        i += 1;
    }
    proof {
        assert(generic_args_v(a.args@) =~= generic_args_v(b.args@));
    }
    true
}

pub fn path_eq(a: &Path, b: &Path) -> (r: bool)
    ensures
        r == (a@ == b@),
    decreases a,
{
    proof {
        lemma_path_segs_v(a.segments@);
        lemma_path_segs_v(b.segments@);
    }
    if a.segments.len() != b.segments.len() {
        return false;
    }
    let n = a.segments.len();
    let mut i: usize = 0;
    while i < n
        invariant
            n == a.segments@.len(),
            a.segments@.len() == b.segments@.len(),
            i <= n,
            path_segs_v(a.segments@).len() == a.segments@.len(),
            path_segs_v(b.segments@).len() == b.segments@.len(),
            forall|j: int|
                0 <= j < a.segments@.len() ==> path_segs_v(a.segments@)[j] == path_seg_v(
                    a.segments@[j],
                ),
            forall|j: int|
                0 <= j < b.segments@.len() ==> path_segs_v(b.segments@)[j] == path_seg_v(
                    b.segments@[j],
                ),
            forall|j: int|
                0 <= j < i ==> path_seg_v(a.segments@[j]) == path_seg_v(b.segments@[j]),
        decreases n - i,
    {
        if !path_segment_eq(&a.segments[i], &b.segments[i]) {
            proof {
                assert(path_segs_v(a.segments@)[i as int] != path_segs_v(b.segments@)[i as int]);
            }
            return false;
        }
        i += 1;
    }
    proof {
        assert(path_segs_v(a.segments@) =~= path_segs_v(b.segments@));
    }
    true
}

pub fn bound_eq(a: &Bound, b: &Bound) -> (r: bool)
    ensures
        r == (bound_v(*a) == bound_v(*b)),
    decreases a,
{
    match (a, b) {
        (Bound::Trait(p1), Bound::Trait(p2)) => path_eq(p1, p2),
        (Bound::Lifetime(i1), Bound::Lifetime(i2)) => ident_eq(i1, i2),
        _ => false,
    }
}

pub fn bounds_eq(a: &Vec<Bound>, b: &Vec<Bound>) -> (r: bool)
    ensures
        r == (bounds_v(a@) == bounds_v(b@)),
    decreases a,
{
    proof {
        lemma_bounds_v(a@);
        lemma_bounds_v(b@);
    }
    if a.len() != b.len() {
        return false;
    }
    let n = a.len();
    let mut i: usize = 0;
    while i < n
        invariant
            n == a@.len(),
            a@.len() == b@.len(),
            i <= n,
            bounds_v(a@).len() == a@.len(),
            bounds_v(b@).len() == b@.len(),
            forall|j: int| 0 <= j < a@.len() ==> bounds_v(a@)[j] == bound_v(a@[j]),
            forall|j: int| 0 <= j < b@.len() ==> bounds_v(b@)[j] == bound_v(b@[j]),
            forall|j: int| 0 <= j < i ==> bound_v(a@[j]) == bound_v(b@[j]),
        decreases n - i,
    {
        if !bound_eq(&a[i], &b[i]) {
            proof {
                assert(bounds_v(a@)[i as int] != bounds_v(b@)[i as int]);
            }
            return false;
        }
        i += 1;
    }
    proof {
        assert(bounds_v(a@) =~= bounds_v(b@));
    }
    true
}

} // verus!
