//! The argument normalizer: validates and simplifies method-parameter
//! bindings.
//!
//! A by-value receiver loses its mutability qualifier, and so does every
//! named binding (mutability is a local-variable concern, irrelevant to a
//! method's external shape).  Wildcard bindings, by-reference bindings and
//! bindings with a sub-pattern are each rejected with a diagnostic naming
//! the construct; the offending binding is passed through unchanged so that
//! one run can surface several errors at once.

use vstd::prelude::*;

use crate::ast::{
    ArgBinding, ArgBindingV, DiagKind, Diagnostic, FnArg, FnArgV, Pattern, PatternV,
    arg_binding_v, fn_arg_v, fn_args_v, lemma_fn_args_v,
};
use crate::util::{dup_ident, dup_type_expr};

verus! {

// ---------------------------------------------------------------------------
// What normalization yields
// ---------------------------------------------------------------------------

/// A named binding loses its mutability; every other pattern is unchanged.
pub open spec fn demutify_arg_s(b: ArgBindingV) -> ArgBindingV {
    match b.pat {
        PatternV::Binding { by_ref, mutable, name, subpat } => ArgBindingV {
            pat: PatternV::Binding { by_ref, mutable: false, name, subpat },
            ty: b.ty,
        },
        _ => b,
    }
}

/// A by-value receiver loses its mutability; a reference receiver keeps
/// its; an ordinary parameter is normalized as above.
pub open spec fn demutify_fn_arg_s(a: FnArgV) -> FnArgV {
    match a {
        FnArgV::SelfRef { mutable } => FnArgV::SelfRef { mutable },
        FnArgV::SelfValue { .. } => FnArgV::SelfValue { mutable: false },
        FnArgV::Captured(b) => FnArgV::Captured(demutify_arg_s(b)),
    }
}

pub open spec fn demutify_s(args: Seq<FnArgV>) -> Seq<FnArgV> {
    args.map_values(|a: FnArgV| demutify_fn_arg_s(a))
}

/// The diagnostics one binding draws: a wildcard, a by-reference binding and
/// a sub-pattern are each named; an unsupported pattern form is reported as
/// such.
pub open spec fn demutify_arg_diags(b: ArgBinding) -> Seq<Diagnostic> {
    match b.pat {
        Pattern::Wild { loc } => seq![Diagnostic { kind: DiagKind::WildcardBinding, loc }],
        Pattern::Binding { by_ref, mutable: _, ident, subpat } => {
            let d1: Seq<Diagnostic> = if by_ref {
                seq![Diagnostic { kind: DiagKind::ByRefBinding, loc: ident.loc }]
            } else {
                Seq::empty()
            };
            let d2: Seq<Diagnostic> = if subpat {
                seq![Diagnostic { kind: DiagKind::SubpatternBinding, loc: ident.loc }]
            } else {
                Seq::empty()
            };
            d1 + d2
        },
        Pattern::Other { loc } => seq![Diagnostic { kind: DiagKind::UnsupportedBinding, loc }],
    }
}

pub open spec fn demutify_fn_arg_diags(a: FnArg) -> Seq<Diagnostic> {
    match a {
        FnArg::Captured(b) => demutify_arg_diags(b),
        _ => Seq::empty(),
    }
}

pub open spec fn demutify_diags(args: Seq<FnArg>) -> Seq<Diagnostic>
    decreases args.len(),
{
    if args.len() == 0 {
        Seq::empty()
    } else {
        demutify_diags(args.drop_last()) + demutify_fn_arg_diags(args.last())
    }
}

// ---------------------------------------------------------------------------
// The normalizer
// ---------------------------------------------------------------------------

/// Normalizes one ordinary parameter, reporting each unsupported construct.
pub fn demutify_arg(b: &ArgBinding, diags: &mut Vec<Diagnostic>) -> (r: ArgBinding)
    ensures
        arg_binding_v(r) == demutify_arg_s(arg_binding_v(*b)),
        final(diags)@ == old(diags)@ + demutify_arg_diags(*b),
{
    match &b.pat {
        Pattern::Wild { loc } => {
            diags.push(Diagnostic { kind: DiagKind::WildcardBinding, loc: *loc });
            proof {
                assert(diags@ =~= old(diags)@ + demutify_arg_diags(*b));
            }
            ArgBinding { pat: Pattern::Wild { loc: *loc }, ty: dup_type_expr(&b.ty) }
        },
        Pattern::Binding { by_ref, mutable: _, ident, subpat } => {
            if *by_ref {
                diags.push(Diagnostic { kind: DiagKind::ByRefBinding, loc: ident.loc });
            }
            if *subpat {
                diags.push(Diagnostic { kind: DiagKind::SubpatternBinding, loc: ident.loc });
            }
            proof {
                assert(diags@ =~= old(diags)@ + demutify_arg_diags(*b));
            }
            ArgBinding {
                pat: Pattern::Binding {
                    by_ref: *by_ref,
                    mutable: false,
                    ident: dup_ident(ident),
                    subpat: *subpat,
                },
                ty: dup_type_expr(&b.ty),
            }
        },
        Pattern::Other { loc } => {
            diags.push(Diagnostic { kind: DiagKind::UnsupportedBinding, loc: *loc });
            proof {
                assert(diags@ =~= old(diags)@ + demutify_arg_diags(*b));
            }
            ArgBinding { pat: Pattern::Other { loc: *loc }, ty: dup_type_expr(&b.ty) }
        },
    }
}

/// Normalizes a whole parameter list, receiver included, reporting every
/// unsupported construct it meets and rejecting none of the rest.
pub fn demutify(args: &Vec<FnArg>, diags: &mut Vec<Diagnostic>) -> (r: Vec<FnArg>)
    ensures
        fn_args_v(r@) == demutify_s(fn_args_v(args@)),
        final(diags)@ == old(diags)@ + demutify_diags(args@),
{
    let mut out: Vec<FnArg> = Vec::new();
    let n = args.len();
    let mut i: usize = 0;
    while i < n
        invariant
            n == args@.len(),
            i <= n,
            out@.len() == i,
            forall|j: int|
                0 <= j < i ==> fn_arg_v(out@[j]) == demutify_fn_arg_s(fn_arg_v(args@[j])),
            diags@ == old(diags)@ + demutify_diags(args@.take(i as int)),
        decreases n - i,
    {
        match &args[i] {
            FnArg::SelfRef { mutable } => {
                out.push(FnArg::SelfRef { mutable: *mutable });
            },
            FnArg::SelfValue { .. } => {
                out.push(FnArg::SelfValue { mutable: false });
            },
            FnArg::Captured(b) => {
                let nb = demutify_arg(b, diags);
                out.push(FnArg::Captured(nb));
            },
        }
        proof {
            assert(args@.take(i + 1).drop_last() =~= args@.take(i as int));
            assert(args@.take(i + 1).last() == args@[i as int]);
            assert(diags@ =~= old(diags)@ + demutify_diags(args@.take(i + 1)));
        }
        i += 1;
    }
    proof {
        assert(args@.take(n as int) =~= args@);
        lemma_fn_args_v(out@);
        lemma_fn_args_v(args@);
        assert(fn_args_v(out@) =~= demutify_s(fn_args_v(args@)));
    }
    out
}

} // verus!
