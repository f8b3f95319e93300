//! The self-substitution identity: substituting a concrete identifier into
//! a type expression that never mentions the reserved self-referencing name
//! returns the expression unchanged.
//!
//! Trait objects with a sole trait bound are excluded: the pass collapses
//! those into the bare bound path whether or not the self name occurs, so
//! the identity does not hold of them (`dyn Foo` becomes `Foo`).

use vstd::prelude::*;

use crate::ast::{BoundV, GenericArgV, PathSegV, PathV, TypeExprV, self_name};
use crate::substitute::{
    collapsible, deselfify_arg_s, deselfify_args_s, deselfify_bound_s, deselfify_bounds_s,
    deselfify_path_s, deselfify_s, deselfify_seg_s, deselfify_segs_s, deselfify_seq_s,
};

verus! {

// ---------------------------------------------------------------------------
// Trees the substitution cannot touch
// ---------------------------------------------------------------------------

/// No path segment names the reserved self name, and no trait object
/// carries a sole trait bound (the one shape the pass rewrites even
/// without a self occurrence).
pub open spec fn self_sub_inert(t: TypeExprV) -> bool
    decreases t,
{
    match t {
        TypeExprV::Slice(e) => self_sub_inert(*e),
        TypeExprV::Array { elem, .. } => self_sub_inert(*elem),
        TypeExprV::Ptr { elem, .. } => self_sub_inert(*elem),
        TypeExprV::Reference { elem, .. } => self_sub_inert(*elem),
        TypeExprV::BareFn => true,
        TypeExprV::Tuple(es) => self_sub_inert_seq(es),
        TypeExprV::NamedPath { path, .. } => self_sub_inert_path(path),
        TypeExprV::Grouping(e) => self_sub_inert(*e),
        TypeExprV::ImplTrait(_) => true,
        TypeExprV::TraitObject(bs) => !collapsible(bs) && self_sub_inert_bounds(bs),
        TypeExprV::MacroFragment => true,
        TypeExprV::Verbatim => true,
        TypeExprV::Infer => true,
        TypeExprV::Never => true,
    }
}

pub open spec fn self_sub_inert_seq(s: Seq<TypeExprV>) -> bool
    decreases s,
{
    if s.len() == 0 {
        true
    } else {
        self_sub_inert_seq(s.drop_last()) && self_sub_inert(s.last())
    }
}

pub open spec fn self_sub_inert_path(p: PathV) -> bool
    decreases p,
{
    self_sub_inert_segs(p.segments)
}

pub open spec fn self_sub_inert_segs(s: Seq<PathSegV>) -> bool
    decreases s,
{
    if s.len() == 0 {
        true
    } else {
        self_sub_inert_segs(s.drop_last()) && self_sub_inert_seg(s.last())
    }
}

pub open spec fn self_sub_inert_seg(s: PathSegV) -> bool
    decreases s,
{
    s.name != self_name() && self_sub_inert_args(s.args)
}

pub open spec fn self_sub_inert_args(s: Seq<GenericArgV>) -> bool
    decreases s,
{
    if s.len() == 0 {
        true
    } else {
        self_sub_inert_args(s.drop_last()) && self_sub_inert_arg(s.last())
    }
}

pub open spec fn self_sub_inert_arg(a: GenericArgV) -> bool
    decreases a,
{
    match a {
        GenericArgV::TypeArg(t) => self_sub_inert(t),
        GenericArgV::Binding { ty, .. } => self_sub_inert(ty),
        GenericArgV::LifetimeArg(_) => true,
    }
}

pub open spec fn self_sub_inert_bounds(s: Seq<BoundV>) -> bool
    decreases s,
{
    if s.len() == 0 {
        true
    } else {
        self_sub_inert_bounds(s.drop_last()) && self_sub_inert_bound(s.last())
    }
}

pub open spec fn self_sub_inert_bound(b: BoundV) -> bool
    decreases b,
{
    match b {
        BoundV::Trait(p) => self_sub_inert_path(p),
        BoundV::Lifetime(_) => true,
    }
}

// ---------------------------------------------------------------------------
// The identity
// ---------------------------------------------------------------------------

/// Substituting a target identifier into a type expression containing no
/// occurrence of the reserved self name returns the input unchanged.
pub proof fn lemma_deselfify_identity(t: TypeExprV, a: Seq<char>)
    requires
        self_sub_inert(t),
    ensures
        deselfify_s(t, a) == t,
    decreases t,
{
    match t {
        TypeExprV::Slice(e) => {
            lemma_deselfify_identity(*e, a);
        },
        TypeExprV::Array { elem, .. } => {
            lemma_deselfify_identity(*elem, a);
        },
        TypeExprV::Ptr { elem, .. } => {
            lemma_deselfify_identity(*elem, a);
        },
        TypeExprV::Reference { elem, .. } => {
            lemma_deselfify_identity(*elem, a);
        },
        TypeExprV::Tuple(es) => {
            lemma_deselfify_identity_seq(es, a);
        },
        TypeExprV::NamedPath { path, .. } => {
            lemma_deselfify_identity_path(path, a);
        },
        TypeExprV::Grouping(e) => {
            lemma_deselfify_identity(*e, a);
        },
        TypeExprV::TraitObject(bs) => {
            lemma_deselfify_identity_bounds(bs, a);
        },
        _ => {},
    }
}

pub proof fn lemma_deselfify_identity_seq(s: Seq<TypeExprV>, a: Seq<char>)
    requires
        self_sub_inert_seq(s),
    ensures
        deselfify_seq_s(s, a) == s,
    decreases s,
{
    if s.len() > 0 {
        lemma_deselfify_identity_seq(s.drop_last(), a);
        lemma_deselfify_identity(s.last(), a);
        assert(deselfify_seq_s(s, a) =~= s);
    } else {
        assert(deselfify_seq_s(s, a) =~= s);
    }
}

pub proof fn lemma_deselfify_identity_path(p: PathV, a: Seq<char>)
    requires
        self_sub_inert_path(p),
    ensures
        deselfify_path_s(p, a) == p,
    decreases p,
{
    lemma_deselfify_identity_segs(p.segments, a);
    assert(deselfify_path_s(p, a) =~= p);
}

pub proof fn lemma_deselfify_identity_segs(s: Seq<PathSegV>, a: Seq<char>)
    requires
        self_sub_inert_segs(s),
    ensures
        deselfify_segs_s(s, a) == s,
    decreases s,
{
    if s.len() > 0 {
        lemma_deselfify_identity_segs(s.drop_last(), a);
        assert(self_sub_inert_seg(s.last()));
        lemma_deselfify_identity_args(s.last().args, a);
        assert(deselfify_seg_s(s.last(), a) =~= s.last());
        assert(deselfify_segs_s(s, a) =~= s);
    } else {
        assert(deselfify_segs_s(s, a) =~= s);
    }
}

pub proof fn lemma_deselfify_identity_args(s: Seq<GenericArgV>, a: Seq<char>)
    requires
        self_sub_inert_args(s),
    ensures
        deselfify_args_s(s, a) == s,
    decreases s,
{
    if s.len() > 0 {
        lemma_deselfify_identity_args(s.drop_last(), a);
        assert(self_sub_inert_arg(s.last()));
        match s.last() {
            GenericArgV::TypeArg(t) => {
                lemma_deselfify_identity(t, a);
            },
            GenericArgV::Binding { ty, .. } => {
                lemma_deselfify_identity(ty, a);
            },
            GenericArgV::LifetimeArg(_) => {},
        }
        assert(deselfify_arg_s(s.last(), a) =~= s.last());
        assert(deselfify_args_s(s, a) =~= s);
    } else {
        assert(deselfify_args_s(s, a) =~= s);
    }
}

pub proof fn lemma_deselfify_identity_bounds(s: Seq<BoundV>, a: Seq<char>)
    requires
        self_sub_inert_bounds(s),
    ensures
        deselfify_bounds_s(s, a) == s,
    decreases s,
{
    if s.len() > 0 {
        lemma_deselfify_identity_bounds(s.drop_last(), a);
        assert(self_sub_inert_bound(s.last()));
        match s.last() {
            BoundV::Trait(p) => {
                lemma_deselfify_identity_path(p, a);
            },
            BoundV::Lifetime(_) => {},
        }
        assert(deselfify_bound_s(s.last(), a) =~= s.last());
        assert(deselfify_bounds_s(s, a) =~= s);
    } else {
        assert(deselfify_bounds_s(s, a) =~= s);
    }
}

} // verus!
