//! The erase-impl-trait pass of the type-expression rewriter.
//!
//! A bare opaque trait-bound return position becomes an owned,
//! heap-indirected trait object of the same bounds.  The pass must run on a
//! method's return type before any other pass touches that type; every
//! other return type passes through unchanged.

use vstd::prelude::*;

use crate::util::{dup_bounds, dup_type_expr};
use crate::ast::{
    GenericArg, GenericArgV, Ident, Path, PathSegV, PathV, PathSegment, TypeExpr, TypeExprV,
    bounds_v, generic_args_v, lemma_generic_args_v, lemma_path_segs_v, path_segs_v,
    path_v, return_type_v, type_expr_v,
};

verus! {

// ---------------------------------------------------------------------------
// The erase-impl-trait pass
// ---------------------------------------------------------------------------

/// The name of the owning heap indirection an opaque return is wrapped in.
pub open spec fn box_name() -> Seq<char> {
    seq!['B', 'o', 'x']
}

/// What erasing yields: a bare opaque trait-bound return position becomes
/// an owned, heap-indirected trait object of the same bounds; every other
/// return type is untouched.
pub open spec fn deimplify_s(o: Option<TypeExprV>) -> Option<TypeExprV> {
    match o {
        Option::Some(TypeExprV::ImplTrait(bs)) => Option::Some(
            TypeExprV::NamedPath {
                qself: false,
                path: PathV {
                    segments: seq![
                        PathSegV {
                            name: box_name(),
                            args: seq![GenericArgV::TypeArg(TypeExprV::TraitObject(bs))],
                        },
                    ],
                },
            },
        ),
        _ => o,
    }
}

/// Erases an opaque trait-bound return type into an owned trait object of
/// the same bounds.  It must run on a method's return type before any
/// other pass touches that type; the other passes refuse the opaque shape.
pub fn deimplify(rt: &Option<TypeExpr>) -> (r: Option<TypeExpr>)
    ensures
        return_type_v(r) == deimplify_s(return_type_v(*rt)),
{
    match rt {
        Option::Some(TypeExpr::ImplTrait { bounds, loc }) => {
            let ghost bs = bounds_v(bounds@);
            let mut name: Vec<char> = Vec::new();
            name.push('B');
            name.push('o');
            name.push('x');
            proof {
                assert(name@ =~= box_name());
            }
            let inner = TypeExpr::TraitObject { bounds: dup_bounds(bounds), loc: *loc };
            let mut args: Vec<GenericArg> = Vec::new();
            args.push(GenericArg::TypeArg(inner));
            let seg = PathSegment { ident: Ident { name, loc: *loc }, args };
            let mut segments: Vec<PathSegment> = Vec::new();
            segments.push(seg);
            let ghost segv = segments@;
            proof {
                lemma_generic_args_v(segv[0].args@);
                lemma_path_segs_v(segv);
                assert(generic_args_v(segv[0].args@) =~= seq![
                    GenericArgV::TypeArg(TypeExprV::TraitObject(bs)),
                ]);
                assert(path_segs_v(segv) =~= seq![
                    PathSegV {
                        name: box_name(),
                        args: seq![GenericArgV::TypeArg(TypeExprV::TraitObject(bs))],
                    },
                ]);
            }
            let path_obj = Path { segments };
            proof {
                assert(path_obj.segments@ == segv);
                assert(path_v(path_obj) == PathV { segments: path_segs_v(segv) });
            }
            let ghost pv = path_v(path_obj);
            let r = TypeExpr::NamedPath { qself: Option::None, path: path_obj };
            proof {
                assert(return_type_v(*rt) == Option::Some(TypeExprV::ImplTrait(bs)));
                assert(type_expr_v(r) == TypeExprV::NamedPath { qself: false, path: pv });
            }
            Option::Some(r)
        },
        Option::Some(other) => Option::Some(dup_type_expr(other)),
        Option::None => Option::None,
    }
}

} // verus!
