//! The signature classifier: consumes one method declaration, plus the
//! optional generics of its enclosing type, and produces everything
//! downstream synthesis needs — the static flag, the per-method synthesized
//! type names, the call-dispatch variant, the alternate argument list for
//! the user-supplied callback, and one borrowing expression per argument.
//!
//! Errors are reported diagnostics tied to the offending argument or
//! return type, and classification continues best-effort afterwards so one
//! declaration can surface several problems at once.

use vstd::prelude::*;

use crate::ast::{
    ArgBinding, ArgBindingV, CallKind, DiagKind, Diagnostic, FnArg, FnArgV, GenericArg,
    GenericArgV, GenericParam, GenericParamV, GenericsSet, GenericsSetV, Ident, MatchExpr,
    MatchExprV, MethodSig, MethodSigV, MethodTypes, MethodTypesV, Path, PathSegV, PathV,
    PathSegment, Pattern, PatternV, TypeExpr, TypeExprV, arg_binding_v, arg_bindings_v,
    fn_arg_v, fn_args_v, generic_param_v, generic_params_v, lemma_arg_bindings_v,
    lemma_fn_args_v, lemma_generic_args_v, lemma_generic_params_v, lemma_match_exprs_v,
    lemma_path_segs_v, match_expr_v, match_exprs_v, method_sig_v, method_types_v, path_seg_v,
    path_segs_v,
    static_name, type_expr_v,
};
use crate::generics::{dup_generics_set, merge_generics, merge_generics_s};
use crate::util::{dup_chars, dup_ident, dup_type_expr, is_static_name};

verus! {

// ---------------------------------------------------------------------------
// Names and positional identifiers
// ---------------------------------------------------------------------------

/// The fixed name of the per-method single-expectation type.
pub open spec fn expectation_name() -> Seq<char> {
    seq!['E', 'x', 'p', 'e', 'c', 't', 'a', 't', 'i', 'o', 'n']
}

/// The fixed name of the expectation collection for a non-generic method.
pub open spec fn expectations_name() -> Seq<char> {
    seq!['E', 'x', 'p', 'e', 'c', 't', 'a', 't', 'i', 'o', 'n', 's']
}

/// The fixed name of the type-erased collection for a generic method.
pub open spec fn generic_expectations_name() -> Seq<char> {
    seq!['G', 'e', 'n', 'e', 'r', 'i', 'c'] + expectations_name()
}

pub open spec fn digit_char(d: nat) -> char {
    if d == 0 {
        '0'
    } else if d == 1 {
        '1'
    } else if d == 2 {
        '2'
    } else if d == 3 {
        '3'
    } else if d == 4 {
        '4'
    } else if d == 5 {
        '5'
    } else if d == 6 {
        '6'
    } else if d == 7 {
        '7'
    } else if d == 8 {
        '8'
    } else {
        '9'
    }
}

/// The decimal spelling of a number, most significant digit first.
pub open spec fn dec_digits(n: nat) -> Seq<char>
    decreases n,
{
    if n < 10 {
        seq![digit_char(n)]
    } else {
        dec_digits(n / 10).push(digit_char(n % 10))
    }
}

/// The synthesized positional name of the argument at input position `k`.
pub open spec fn alt_name(k: nat) -> Seq<char> {
    seq!['p'] + dec_digits(k)
}

fn digit_of(d: usize) -> (c: char)
    requires
        d < 10,
    ensures
        c == digit_char(d as nat),
{
    if d == 0 {
        '0'
    } else if d == 1 {
        '1'
    } else if d == 2 {
        '2'
    } else if d == 3 {
        '3'
    } else if d == 4 {
        '4'
    } else if d == 5 {
        '5'
    } else if d == 6 {
        '6'
    } else if d == 7 {
        '7'
    } else if d == 8 {
        '8'
    } else {
        '9'
    }
}

fn dec_chars(n: usize) -> (r: Vec<char>)
    ensures
        r@ == dec_digits(n as nat),
    decreases n,
{
    if n < 10 {
        let mut r: Vec<char> = Vec::new();
        r.push(digit_of(n));
        proof {
            assert(r@ =~= dec_digits(n as nat));
        }
        r
    } else {
        let mut r = dec_chars(n / 10);
        r.push(digit_of(n % 10));
        r
    }
}

fn alt_ident(k: usize, loc: u64) -> (r: Ident)
    ensures
        r@ == alt_name(k as nat),
        r.loc == loc,
{
    let mut name: Vec<char> = Vec::new();
    name.push('p');
    let digits = dec_chars(k);
    let dn = digits.len();
    let mut i: usize = 0;
    while i < dn
        invariant
            dn == digits@.len(),
            i <= dn,
            name@ == seq!['p'] + digits@.take(i as int),
        decreases dn - i,
    {
        name.push(digits[i]);
        proof {
            assert(name@ =~= seq!['p'] + digits@.take(i + 1));
        }
        i += 1;
    }
    proof {
        assert(digits@.take(dn as int) =~= digits@);
    }
    Ident { name, loc }
}

// ---------------------------------------------------------------------------
// What classification yields
// ---------------------------------------------------------------------------

/// Is some entry of the parameter list a receiver?
pub open spec fn has_receiver(inputs: Seq<FnArgV>) -> bool {
    exists|i: int| 0 <= i < inputs.len() && !(inputs[i] is Captured)
}

/// The owned type the user callback receives for one argument: a reference
/// argument contributes its pointee, anything else its own type.
pub open spec fn alt_ty(t: TypeExprV) -> TypeExprV {
    match t {
        TypeExprV::Reference { elem, .. } => *elem,
        _ => t,
    }
}

/// The alternate binding for the argument at input position `k`.
pub open spec fn alt_binding(k: nat, b: ArgBindingV) -> ArgBindingV {
    ArgBindingV {
        pat: PatternV::Binding {
            by_ref: false,
            mutable: false,
            name: alt_name(k),
            subpat: false,
        },
        ty: alt_ty(b.ty),
    }
}

/// The expression that borrows one argument, exactly one level deep: an
/// argument that is already a reference is reused directly, any other is
/// borrowed immutably.
pub open spec fn match_expr_of(b: ArgBindingV) -> MatchExprV {
    match b.pat {
        PatternV::Binding { name, .. } => {
            if b.ty is Reference {
                MatchExprV::Direct(name)
            } else {
                MatchExprV::Borrow(name)
            }
        },
        _ => MatchExprV::Borrow(Seq::empty()),
    }
}

/// The alternate bindings of all classifiable arguments from position `k`
/// on: receivers and arguments without a plain named binding contribute
/// nothing.
pub open spec fn altargs_from(inputs: Seq<FnArgV>, k: int) -> Seq<ArgBindingV>
    decreases inputs.len() - k,
{
    if k < 0 || k >= inputs.len() {
        Seq::empty()
    } else {
        match inputs[k] {
            FnArgV::Captured(b) => {
                if b.pat is Binding {
                    seq![alt_binding(k as nat, b)] + altargs_from(inputs, k + 1)
                } else {
                    altargs_from(inputs, k + 1)
                }
            },
            _ => altargs_from(inputs, k + 1),
        }
    }
}

/// The matching expressions of all classifiable arguments from position
/// `k` on.
pub open spec fn matchexprs_from(inputs: Seq<FnArgV>, k: int) -> Seq<MatchExprV>
    decreases inputs.len() - k,
{
    if k < 0 || k >= inputs.len() {
        Seq::empty()
    } else {
        match inputs[k] {
            FnArgV::Captured(b) => {
                if b.pat is Binding {
                    seq![match_expr_of(b)] + matchexprs_from(inputs, k + 1)
                } else {
                    matchexprs_from(inputs, k + 1)
                }
            },
            _ => matchexprs_from(inputs, k + 1),
        }
    }
}

/// One diagnostic per argument whose pattern is not a plain named binding.
pub open spec fn arg_diags_from(inputs: Seq<FnArg>, k: int) -> Seq<Diagnostic>
    decreases inputs.len() - k,
{
    if k < 0 || k >= inputs.len() {
        Seq::empty()
    } else {
        (match inputs[k] {
            FnArg::Captured(b) => match b.pat {
                Pattern::Binding { .. } => Seq::empty(),
                Pattern::Wild { loc } => seq![
                    Diagnostic { kind: DiagKind::UnexpectedArgumentPattern, loc },
                ],
                Pattern::Other { loc } => seq![
                    Diagnostic { kind: DiagKind::UnexpectedArgumentPattern, loc },
                ],
            },
            _ => Seq::empty(),
        }) + arg_diags_from(inputs, k + 1)
    }
}

/// A returned reference may carry no lifetime or the unbounded one; any
/// other named lifetime cannot be represented by a stored value.
pub open spec fn return_diags(output: Option<TypeExpr>) -> Seq<Diagnostic> {
    match output {
        Option::Some(TypeExpr::Reference { lifetime: Option::Some(lt), .. }) => {
            if lt.name@ == static_name() {
                Seq::empty()
            } else {
                seq![Diagnostic { kind: DiagKind::NonStaticReturnLifetime, loc: lt.loc }]
            }
        },
        _ => Seq::empty(),
    }
}

pub open spec fn classify_diags(sig: MethodSig) -> Seq<Diagnostic> {
    arg_diags_from(sig.inputs@, 0) + return_diags(sig.output)
}

/// The dispatch variant: a mutable-reference return dispatches by mutable
/// reference, everything else (any other return, or none) by value.
pub open spec fn call_kind_s(output: Option<TypeExprV>) -> CallKind {
    match output {
        Option::Some(TypeExprV::Reference { mutable: true, .. }) => CallKind::CallMut,
        _ => CallKind::Call,
    }
}

/// The merged generics as a generic-argument list, one argument per
/// parameter, in order.
pub open spec fn tg_args(params: Seq<GenericParamV>) -> Seq<GenericArgV>
    decreases params.len(),
{
    if params.len() == 0 {
        Seq::empty()
    } else {
        tg_args(params.drop_last()).push(tg_arg(params.last()))
    }
}

pub open spec fn tg_arg(p: GenericParamV) -> GenericArgV {
    match p {
        GenericParamV::LifetimeParam { name, .. } => GenericArgV::LifetimeArg(name),
        GenericParamV::TypeParam { name, .. } => GenericArgV::TypeArg(param_path(name)),
        GenericParamV::ConstParam { name } => GenericArgV::TypeArg(param_path(name)),
    }
}

pub open spec fn param_path(name: Seq<char>) -> TypeExprV {
    TypeExprV::NamedPath {
        qself: false,
        path: PathV { segments: seq![PathSegV { name, args: Seq::empty() }] },
    }
}

/// A two-segment synthesized type path: the method's name, then the
/// synthesized type's name carrying the given generic arguments.
pub open spec fn method_path(
    first: Seq<char>,
    second: Seq<char>,
    args: Seq<GenericArgV>,
) -> TypeExprV {
    TypeExprV::NamedPath {
        qself: false,
        path: PathV {
            segments: seq![
                PathSegV { name: first, args: Seq::empty() },
                PathSegV { name: second, args },
            ],
        },
    }
}

pub open spec fn enclosing_v(g: Option<GenericsSetV>) -> GenericsSetV {
    match g {
        Option::Some(e) => e,
        Option::None => GenericsSetV {
            present: false,
            params: Seq::empty(),
            preds: Option::None,
        },
    }
}

/// Everything the classifier yields, as a function of the declaration and
/// the optional enclosing generics: the static flag from the receiver; the
/// generic flag from the method's own, pre-merge parameter list; the
/// alternate bindings and matching expressions of the arguments, in order;
/// the dispatch variant from the return type's shape; and the synthesized
/// expectation, collection and stored-object types, parameterized by the
/// merged generics exactly when the method itself is not generic.
pub open spec fn method_types_s(sig: MethodSigV, enclosing: Option<GenericsSetV>) -> MethodTypesV {
    let is_generic = sig.generics.params.len() > 0;
    let merged = match enclosing {
        Option::Some(g) => merge_generics_s(g, sig.generics),
        Option::None => sig.generics,
    };
    let tg = tg_args(merged.params);
    let coll_name = if is_generic {
        generic_expectations_name()
    } else {
        expectations_name()
    };
    MethodTypesV {
        is_static: !has_receiver(sig.inputs),
        is_generic,
        expectation: method_path(sig.name, expectation_name(), tg),
        expectations: method_path(sig.name, coll_name, Seq::empty()),
        expect_obj: if is_generic {
            method_path(sig.name, coll_name, Seq::empty())
        } else {
            method_path(sig.name, coll_name, tg)
        },
        call: call_kind_s(sig.output),
        altargs: altargs_from(sig.inputs, 0),
        matchexprs: matchexprs_from(sig.inputs, 0),
    }
}

// ---------------------------------------------------------------------------
// The classifier
// ---------------------------------------------------------------------------

fn name_segment(name: Ident) -> (r: PathSegment)
    ensures
        path_seg_v(r) == (PathSegV { name: name@, args: Seq::empty() }),
{
    let r = PathSegment { ident: name, args: Vec::new() };
    proof {
        lemma_generic_args_v(r.args@);
        assert(path_seg_v(r).args =~= Seq::<GenericArgV>::empty());
    }
    r
}

fn two_segment_path(first: &Ident, second: Ident, args: Vec<GenericArg>) -> (r: TypeExpr)
    ensures
        type_expr_v(r) == method_path(
            first@,
            second@,
            crate::ast::generic_args_v(args@),
        ),
{
    let ghost argsv = crate::ast::generic_args_v(args@);
    let ghost secondv = second@;
    let seg1 = name_segment(dup_ident(first));
    let seg2 = PathSegment { ident: second, args };
    proof {
        assert(path_seg_v(seg2) == (PathSegV { name: secondv, args: argsv }));
    }
    let mut segments: Vec<PathSegment> = Vec::new();
    segments.push(seg1);
    segments.push(seg2);
    let ghost segv = segments@;
    proof {
        lemma_path_segs_v(segv);
        assert(path_segs_v(segv) =~= seq![
            PathSegV { name: first@, args: Seq::<GenericArgV>::empty() },
            PathSegV { name: secondv, args: argsv },
        ]);
    }
    let path_obj = Path { segments };
    proof {
        assert(path_obj.segments@ == segv);
        assert(crate::ast::path_v(path_obj) == (PathV { segments: path_segs_v(segv) }));
    }
    let ghost pv = crate::ast::path_v(path_obj);
    let r = TypeExpr::NamedPath { qself: Option::None, path: path_obj };
    proof {
        assert(type_expr_v(r) == TypeExprV::NamedPath { qself: false, path: pv });
    }
    r
}

/// Extracts everything downstream synthesis needs from one method
/// declaration.  `enclosing` is the generics of the method's parent trait
/// or structure, not of the method itself.
#[verifier::loop_isolation(false)]
#[verifier::rlimit(100)]
pub fn method_types(
    sig: &MethodSig,
    enclosing: Option<&GenericsSet>,
    diags: &mut Vec<Diagnostic>,
) -> (r: MethodTypes)
    ensures
        method_types_v(r) == method_types_s(
            sig@,
            match enclosing {
                Option::Some(g) => Option::Some(g@),
                Option::None => Option::None,
            },
        ),
        final(diags)@ == old(diags)@ + classify_diags(*sig),
{
    let ghost inputs_v = fn_args_v(sig.inputs@);
    proof {
        lemma_fn_args_v(sig.inputs@);
    }
    let is_generic = sig.generics.params.len() > 0;
    let merged = match enclosing {
        Option::Some(g) => merge_generics(g, &sig.generics),
        Option::None => dup_generics_set(&sig.generics),
    };
    let mut is_static = true;
    let mut altargs: Vec<ArgBinding> = Vec::new();
    let mut matchexprs: Vec<MatchExpr> = Vec::new();
    let n = sig.inputs.len();
    let mut i: usize = 0;
    while i < n
        invariant
            n == sig.inputs@.len(),
            i <= n,
            inputs_v.len() == n,
            is_static == !(exists|j: int| 0 <= j < i && !(inputs_v[j] is Captured)),
            arg_bindings_v(altargs@) + altargs_from(inputs_v, i as int) == altargs_from(
                inputs_v,
                0,
            ),
            match_exprs_v(matchexprs@) + matchexprs_from(inputs_v, i as int) == matchexprs_from(
                inputs_v,
                0,
            ),
            diags@ + arg_diags_from(sig.inputs@, i as int) == old(diags)@ + arg_diags_from(
                sig.inputs@,
                0,
            ),
        decreases n - i,
    {
        let ghost alts_before = arg_bindings_v(altargs@);
        let ghost mes_before = match_exprs_v(matchexprs@);
        match &sig.inputs[i] {
            FnArg::SelfRef { .. } => {
                is_static = false;
            },
            FnArg::SelfValue { .. } => {
                is_static = false;
            },
            FnArg::Captured(b) => {
                match &b.pat {
                    Pattern::Binding { ident, .. } => {
                        let is_ref = match &b.ty {
                            TypeExpr::Reference { .. } => true,
                            _ => false,
                        };
                        let me = if is_ref {
                            MatchExpr::Direct(dup_ident(ident))
                        } else {
                            MatchExpr::Borrow(dup_ident(ident))
                        };
                        let aty = match &b.ty {
                            TypeExpr::Reference { elem, .. } => dup_type_expr(&**elem),
                            other => dup_type_expr(other),
                        };
                        let ab = ArgBinding {
                            pat: Pattern::Binding {
                                by_ref: false,
                                mutable: false,
                                ident: alt_ident(i, ident.loc),
                                subpat: false,
                            },
                            ty: aty,
                        };
                        proof {
                            assert(arg_binding_v(ab) == alt_binding(
                                i as nat,
                                arg_binding_v(*b),
                            ));
                            assert(match_expr_v(me) == match_expr_of(arg_binding_v(*b)));
                        }
                        let ghost prev_alt = altargs@;
                        let ghost prev_me = matchexprs@;
                        matchexprs.push(me);
                        altargs.push(ab);
                        proof {
                            lemma_arg_bindings_v(altargs@);
                            lemma_arg_bindings_v(prev_alt);
                            lemma_match_exprs_v(matchexprs@);
                            lemma_match_exprs_v(prev_me);
                            assert(altargs@ == prev_alt.push(ab));
                            assert(matchexprs@ == prev_me.push(me));
                            assert(arg_bindings_v(altargs@) =~= alts_before.push(
                                alt_binding(i as nat, arg_binding_v(*b)),
                            ));
                            assert(match_exprs_v(matchexprs@) =~= mes_before.push(
                                match_expr_of(arg_binding_v(*b)),
                            ));
                        }
                    },
                    Pattern::Wild { loc } => {
                        diags.push(Diagnostic {
                            kind: DiagKind::UnexpectedArgumentPattern,
                            loc: *loc,
                        });
                    },
                    Pattern::Other { loc } => {
                        diags.push(Diagnostic {
                            kind: DiagKind::UnexpectedArgumentPattern,
                            loc: *loc,
                        });
                    },
                }
            },
        }
        proof {
            assert(inputs_v[i as int] == fn_arg_v(sig.inputs@[i as int]));
            assert(arg_bindings_v(altargs@) + altargs_from(inputs_v, i + 1) =~= altargs_from(
                inputs_v,
                0,
            ));
            assert(match_exprs_v(matchexprs@) + matchexprs_from(inputs_v, i + 1)
                =~= matchexprs_from(inputs_v, 0));
            assert(diags@ + arg_diags_from(sig.inputs@, i + 1) =~= old(diags)@ + arg_diags_from(
                sig.inputs@,
                0,
            ));
        }
        i += 1;
    }
    proof {
        assert(altargs_from(inputs_v, n as int) =~= Seq::<ArgBindingV>::empty());
        assert(arg_bindings_v(altargs@) =~= altargs_from(inputs_v, 0));
        assert(match_exprs_v(matchexprs@) =~= matchexprs_from(inputs_v, 0));
        assert(arg_diags_from(sig.inputs@, n as int) =~= Seq::<Diagnostic>::empty());
        assert(diags@ =~= old(diags)@ + arg_diags_from(sig.inputs@, 0));
        assert(is_static == !has_receiver(inputs_v));
    }
    let call = match &sig.output {
        Option::Some(TypeExpr::Reference { lifetime, mutable, .. }) => {
            match lifetime {
                Option::Some(lt) => {
                    if !is_static_name(&lt.name) {
                        diags.push(Diagnostic {
                            kind: DiagKind::NonStaticReturnLifetime,
                            loc: lt.loc,
                        });
                    }
                },
                Option::None => {},
            }
            if *mutable {
                CallKind::CallMut
            } else {
                CallKind::Call
            }
        },
        _ => CallKind::Call,
    };
    proof {
        assert(diags@ =~= old(diags)@ + classify_diags(*sig));
    }
    let ghost mergedv = match enclosing {
        Option::Some(g) => merge_generics_s(g@, sig.generics@),
        Option::None => sig.generics@,
    };
    proof {
        assert(generic_params_v(merged.params@) == mergedv.params);
    }
    let tg = tg_vec(&merged.params);
    let exp_ident = expectation_ident(sig.ident.loc);
    let expectation = two_segment_path(&sig.ident, exp_ident, tg);
    if is_generic {
        let coll_a = generic_expectations_ident(sig.ident.loc);
        let coll_b = generic_expectations_ident(sig.ident.loc);
        let expectations = two_segment_path(&sig.ident, coll_a, Vec::new());
        let expect_obj = two_segment_path(&sig.ident, coll_b, Vec::new());
        MethodTypes {
            is_static,
            is_generic,
            expectation,
            expectations,
            expect_obj,
            call,
            altargs,
            matchexprs,
        }
    } else {
        let coll_a = expectations_ident(sig.ident.loc);
        let coll_b = expectations_ident(sig.ident.loc);
        let tg2 = tg_vec(&merged.params);
        let expectations = two_segment_path(&sig.ident, coll_a, Vec::new());
        let expect_obj = two_segment_path(&sig.ident, coll_b, tg2);
        MethodTypes {
            is_static,
            is_generic,
            expectation,
            expectations,
            expect_obj,
            call,
            altargs,
            matchexprs,
        }
    }
}

/// The merged parameters spelled as generic arguments, one per parameter.
fn tg_vec(params: &Vec<GenericParam>) -> (r: Vec<GenericArg>)
    ensures
        crate::ast::generic_args_v(r@) == tg_args(generic_params_v(params@)),
{
    proof {
        lemma_generic_params_v(params@);
    }
    let mut tg: Vec<GenericArg> = Vec::new();
    let pn = params.len();
    let mut k: usize = 0;
    while k < pn
        invariant
            pn == params@.len(),
            k <= pn,
            tg@.len() == k,
            forall|j: int|
                0 <= j < k ==> crate::ast::generic_arg_v(tg@[j]) == tg_arg(
                    generic_param_v(params@[j]),
                ),
        decreases pn - k,
    {
        let a = match &params[k] {
            GenericParam::LifetimeParam { ident, .. } => {
                GenericArg::LifetimeArg(dup_ident(ident))
            },
            GenericParam::TypeParam { ident, .. } => {
                let seg = name_segment(dup_ident(ident));
                let mut segments: Vec<PathSegment> = Vec::new();
                segments.push(seg);
                proof {
                    lemma_path_segs_v(segments@);
                    assert(path_segs_v(segments@) =~= seq![
                        PathSegV { name: ident@, args: Seq::<GenericArgV>::empty() },
                    ]);
                }
                GenericArg::TypeArg(TypeExpr::NamedPath {
                    qself: Option::None,
                    path: Path { segments },
                })
            },
            GenericParam::ConstParam { ident } => {
                let seg = name_segment(dup_ident(ident));
                let mut segments: Vec<PathSegment> = Vec::new();
                segments.push(seg);
                proof {
                    lemma_path_segs_v(segments@);
                    assert(path_segs_v(segments@) =~= seq![
                        PathSegV { name: ident@, args: Seq::<GenericArgV>::empty() },
                    ]);
                }
                GenericArg::TypeArg(TypeExpr::NamedPath {
                    qself: Option::None,
                    path: Path { segments },
                })
            },
        };
        tg.push(a);
        k += 1;
    }
    proof {
        crate::ast::lemma_generic_args_v(tg@);
        lemma_tg_args(generic_params_v(params@));
        assert(crate::ast::generic_args_v(tg@) =~= tg_args(generic_params_v(params@)));
    }
    tg
}

pub proof fn lemma_tg_args(params: Seq<GenericParamV>)
    ensures
        tg_args(params).len() == params.len(),
        forall|j: int| 0 <= j < params.len() ==> tg_args(params)[j] == tg_arg(params[j]),
    decreases params.len(),
{
    if params.len() > 0 {
        lemma_tg_args(params.drop_last());
    }
}

fn expectation_ident(loc: u64) -> (r: Ident)
    ensures
        r@ == expectation_name(),
        r.loc == loc,
{
    let mut name: Vec<char> = Vec::new();
    name.push('E');
    name.push('x');
    name.push('p');
    name.push('e');
    name.push('c');
    name.push('t');
    name.push('a');
    name.push('t');
    name.push('i');
    name.push('o');
    name.push('n');
    proof {
        assert(name@ =~= expectation_name());
    }
    Ident { name, loc }
}

fn expectations_ident(loc: u64) -> (r: Ident)
    ensures
        r@ == expectations_name(),
        r.loc == loc,
{
    let mut name = expectation_ident(loc).name;
    name.push('s');
    proof {
        assert(name@ =~= expectations_name());
    }
    Ident { name, loc }
}

fn generic_expectations_ident(loc: u64) -> (r: Ident)
    ensures
        r@ == generic_expectations_name(),
        r.loc == loc,
{
    let mut name: Vec<char> = Vec::new();
    name.push('G');
    name.push('e');
    name.push('n');
    name.push('e');
    name.push('r');
    name.push('i');
    name.push('c');
    let tail = expectations_ident(loc);
    crate::util::push_chars(&mut name, &tail.name);
    proof {
        assert(name@ =~= generic_expectations_name());
    }
    Ident { name, loc }
}

} // verus!
