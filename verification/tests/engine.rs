//! Tests of the mock-synthesis engine's verified passes on concrete trees.

use mock_synth::ast::{
    Bound, DiagKind, Diagnostic, FnArg, GenericArg, GenericParam, GenericsSet, Ident, Path,
    PathSegment, Pattern, TypeExpr, Visibility,
};
use mock_synth::ast::{CallKind, MatchExpr, MethodSig};
use mock_synth::classify::method_types;
use mock_synth::lift::{supersuperfy, supersuperfy_path};
use mock_synth::rewrite::deimplify;
use mock_synth::substitute::deselfify;
use mock_synth::generics::merge_generics;
use mock_synth::names::{gen_mock_ident, gen_mod_ident};
use mock_synth::normalize::demutify;
use mock_synth::util::chars_eq;
use mock_synth::visibility::expectation_visibility;

fn id(s: &str) -> Ident {
    Ident { name: s.chars().collect(), loc: 7 }
}

fn name_of(i: &Ident) -> String {
    i.name.iter().collect()
}

fn type_param(name: &str) -> GenericParam {
    GenericParam::TypeParam { ident: id(name), bounds: Vec::new() }
}

fn lifetime_param(name: &str) -> GenericParam {
    GenericParam::LifetimeParam { ident: id(name), bounds: Vec::new() }
}

fn empty_generics() -> GenericsSet {
    GenericsSet { present: false, params: Vec::new(), preds: None }
}

fn param_names(g: &GenericsSet) -> Vec<String> {
    g.params
        .iter()
        .map(|p| match p {
            GenericParam::TypeParam { ident, .. } => name_of(ident),
            GenericParam::LifetimeParam { ident, .. } => name_of(ident),
            GenericParam::ConstParam { ident } => name_of(ident),
        })
        .collect()
}

#[test]
fn mock_ident_prepends_prefix() {
    let r = gen_mock_ident(&id("Foo"));
    assert_eq!(name_of(&r), "MockFoo");
    assert_eq!(r.loc, 7);
}

#[test]
fn mod_ident_for_bare_item() {
    let r = gen_mod_ident(&id("Foo"), None);
    assert_eq!(name_of(&r), "__mock_Foo");
}

#[test]
fn mod_ident_for_type_with_interface() {
    let tr = id("Bar");
    let r = gen_mod_ident(&id("Foo"), Some(&tr));
    assert_eq!(name_of(&r), "__mock_Foo_Bar");
}

#[test]
fn chars_eq_compares_contents() {
    let a: Vec<char> = "Self".chars().collect();
    let b: Vec<char> = "Self".chars().collect();
    let c: Vec<char> = "self".chars().collect();
    assert!(chars_eq(&a, &b));
    assert!(!chars_eq(&a, &c));
}

#[test]
fn merge_empty_is_identity() {
    let x = GenericsSet {
        present: true,
        params: vec![type_param("T"), lifetime_param("a")],
        preds: None,
    };
    let l = merge_generics(&empty_generics(), &x);
    assert_eq!(param_names(&l), vec!["T".to_string(), "a".to_string()]);
    assert!(l.present);
    let r = merge_generics(&x, &empty_generics());
    assert_eq!(param_names(&r), vec!["T".to_string(), "a".to_string()]);
    assert!(r.present);
    let e = merge_generics(&empty_generics(), &empty_generics());
    assert!(!e.present);
    assert!(e.params.is_empty());
}

#[test]
fn merge_dedups_by_kind_and_identifier() {
    let x = GenericsSet {
        present: true,
        params: vec![type_param("T"), type_param("U")],
        preds: None,
    };
    let y = GenericsSet {
        present: true,
        params: vec![type_param("U"), type_param("V"), lifetime_param("T")],
        preds: None,
    };
    let m = merge_generics(&x, &y);
    // U collides and is dropped; the lifetime T has a different kind, so it
    // survives beside the type parameter T.
    assert_eq!(
        param_names(&m),
        vec!["T".to_string(), "U".to_string(), "V".to_string(), "T".to_string()]
    );
}

#[test]
fn private_gains_one_super_per_level() {
    for depth in 1u32..=3 {
        let r = expectation_visibility(&Visibility::Private { loc: 3 }, depth);
        match r {
            Visibility::PublicInPath { path } => {
                assert_eq!(path.len(), depth as usize);
                for seg in &path {
                    assert_eq!(name_of(seg), "super");
                }
            },
            _ => panic!("expected a path visibility"),
        }
    }
}

#[test]
fn crate_rooted_path_is_unchanged() {
    let vis = Visibility::PublicInPath { path: vec![id("crate"), id("util")] };
    let r = expectation_visibility(&vis, 2);
    match r {
        Visibility::PublicInPath { path } => {
            assert_eq!(path.len(), 2);
            assert_eq!(name_of(&path[0]), "crate");
            assert_eq!(name_of(&path[1]), "util");
        },
        _ => panic!("expected a path visibility"),
    }
}

#[test]
fn relative_path_is_rerooted() {
    let vis = Visibility::PublicInPath { path: vec![id("self")] };
    let r = expectation_visibility(&vis, 2);
    match r {
        Visibility::PublicInPath { path } => {
            assert_eq!(path.len(), 3);
            assert_eq!(name_of(&path[0]), "super");
            assert_eq!(name_of(&path[1]), "super");
            assert_eq!(name_of(&path[2]), "self");
        },
        _ => panic!("expected a path visibility"),
    }
}

#[test]
fn crate_wide_visibility_is_depth_invariant() {
    for depth in 1u32..=3 {
        match expectation_visibility(&Visibility::PublicInCrate, depth) {
            Visibility::PublicInCrate => {},
            _ => panic!("crate-wide visibility must not change"),
        }
    }
}

fn named_arg(name: &str, mutable: bool) -> FnArg {
    FnArg::Captured(mock_synth::ast::ArgBinding {
        pat: Pattern::Binding { by_ref: false, mutable, ident: id(name), subpat: false },
        ty: TypeExpr::Infer,
    })
}

#[test]
fn demutify_clears_mutability() {
    let args = vec![FnArg::SelfValue { mutable: true }, named_arg("x", true)];
    let mut diags: Vec<Diagnostic> = Vec::new();
    let out = demutify(&args, &mut diags);
    assert!(diags.is_empty());
    match &out[0] {
        FnArg::SelfValue { mutable } => assert!(!mutable),
        _ => panic!("receiver kept"),
    }
    match &out[1] {
        FnArg::Captured(b) => match &b.pat {
            Pattern::Binding { mutable, by_ref, subpat, ident } => {
                assert!(!mutable);
                assert!(!by_ref);
                assert!(!subpat);
                assert_eq!(name_of(ident), "x");
            },
            _ => panic!("binding kept"),
        },
        _ => panic!("argument kept"),
    }
}

#[test]
fn demutify_rejects_each_unsupported_binding() {
    let wild = FnArg::Captured(mock_synth::ast::ArgBinding {
        pat: Pattern::Wild { loc: 11 },
        ty: TypeExpr::Infer,
    });
    let by_ref = FnArg::Captured(mock_synth::ast::ArgBinding {
        pat: Pattern::Binding { by_ref: true, mutable: false, ident: id("r"), subpat: false },
        ty: TypeExpr::Infer,
    });
    let sub = FnArg::Captured(mock_synth::ast::ArgBinding {
        pat: Pattern::Binding { by_ref: false, mutable: false, ident: id("s"), subpat: true },
        ty: TypeExpr::Infer,
    });
    let good = named_arg("ok", false);
    let args = vec![wild, by_ref, sub, good];
    let mut diags: Vec<Diagnostic> = Vec::new();
    let out = demutify(&args, &mut diags);
    let kinds: Vec<DiagKind> = diags.iter().map(|d| d.kind).collect();
    assert_eq!(
        kinds,
        vec![DiagKind::WildcardBinding, DiagKind::ByRefBinding, DiagKind::SubpatternBinding]
    );
    assert_eq!(diags[0].loc, 11);
    // The valid binding in the same signature still normalizes.
    match &out[3] {
        FnArg::Captured(b) => match &b.pat {
            Pattern::Binding { ident, .. } => assert_eq!(name_of(ident), "ok"),
            _ => panic!("binding kept"),
        },
        _ => panic!("argument kept"),
    }
    assert_eq!(out.len(), 4);
}

#[test]
fn deimplify_erases_opaque_return() {
    let bound_path = Path { segments: vec![PathSegment { ident: id("Foo"), args: Vec::new() }] };
    let opaque = TypeExpr::ImplTrait { bounds: vec![Bound::Trait(bound_path)], loc: 5 };
    let r = deimplify(&Some(opaque));
    match r {
        Some(TypeExpr::NamedPath { qself, path }) => {
            assert!(qself.is_none());
            assert_eq!(path.segments.len(), 1);
            assert_eq!(name_of(&path.segments[0].ident), "Box");
            match &path.segments[0].args[0] {
                GenericArg::TypeArg(TypeExpr::TraitObject { bounds, .. }) => {
                    match &bounds[0] {
                        Bound::Trait(p) => assert_eq!(name_of(&p.segments[0].ident), "Foo"),
                        _ => panic!("trait bound kept"),
                    }
                },
                _ => panic!("expected the trait object argument"),
            }
        },
        _ => panic!("expected an owned trait-object path"),
    }
}

#[test]
fn deimplify_leaves_other_returns_alone() {
    match deimplify(&Some(TypeExpr::Never)) {
        Some(TypeExpr::Never) => {},
        _ => panic!("plain return type must pass through"),
    }
    assert!(deimplify(&None).is_none());
}

fn plain_path(name: &str) -> TypeExpr {
    TypeExpr::NamedPath {
        qself: None,
        path: Path { segments: vec![PathSegment { ident: id(name), args: Vec::new() }] },
    }
}

fn first_seg_name(t: &TypeExpr) -> String {
    match t {
        TypeExpr::NamedPath { path, .. } => name_of(&path.segments[0].ident),
        _ => panic!("expected a path"),
    }
}

#[test]
fn deselfify_substitutes_at_depth() {
    let inner = plain_path("Self");
    let t = TypeExpr::Slice(Box::new(inner));
    let mut diags: Vec<Diagnostic> = Vec::new();
    let r = deselfify(&t, &id("MockFoo"), &mut diags);
    assert!(diags.is_empty());
    match r {
        TypeExpr::Slice(e) => assert_eq!(first_seg_name(&e), "MockFoo"),
        _ => panic!("shape kept"),
    }
}

#[test]
fn deselfify_collapses_single_bound_object() {
    let t = TypeExpr::TraitObject {
        bounds: vec![Bound::Trait(Path {
            segments: vec![PathSegment { ident: id("Self"), args: Vec::new() }],
        })],
        loc: 0,
    };
    let mut diags: Vec<Diagnostic> = Vec::new();
    let r = deselfify(&t, &id("MockFoo"), &mut diags);
    assert_eq!(first_seg_name(&r), "MockFoo");
}

#[test]
fn deselfify_reports_qualified_self() {
    let t = TypeExpr::NamedPath {
        qself: Some(9),
        path: Path { segments: vec![PathSegment { ident: id("Output"), args: Vec::new() }] },
    };
    let mut diags: Vec<Diagnostic> = Vec::new();
    let _ = deselfify(&t, &id("MockFoo"), &mut diags);
    assert_eq!(diags, vec![Diagnostic { kind: DiagKind::QualifiedSelfPath, loc: 9 }]);
}

fn seg_names(p: &Path) -> Vec<String> {
    p.segments.iter().map(|s| name_of(&s.ident)).collect()
}

#[test]
fn path_lift_adds_two_hops_per_application() {
    let p = Path { segments: vec![id("super"), id("inner")].into_iter().map(|i| PathSegment { ident: i, args: Vec::new() }).collect() };
    let once = supersuperfy_path(&p);
    assert_eq!(seg_names(&once), vec!["super", "super", "super", "inner"]);
    let twice = supersuperfy_path(&once);
    assert_eq!(
        seg_names(&twice),
        vec!["super", "super", "super", "super", "super", "inner"]
    );
}

#[test]
fn path_lift_is_noop_without_leading_super() {
    let p = Path { segments: vec![PathSegment { ident: id("inner"), args: Vec::new() }] };
    let once = supersuperfy_path(&p);
    assert_eq!(seg_names(&once), vec!["inner"]);
    let twice = supersuperfy_path(&once);
    assert_eq!(seg_names(&twice), vec!["inner"]);
}

#[test]
fn lift_pass_rewrites_nested_paths() {
    let t = TypeExpr::Tuple(vec![TypeExpr::NamedPath {
        qself: None,
        path: Path {
            segments: vec![
                PathSegment { ident: id("super"), args: Vec::new() },
                PathSegment { ident: id("T"), args: Vec::new() },
            ],
        },
    }]);
    let mut diags: Vec<Diagnostic> = Vec::new();
    let r = supersuperfy(&t, &mut diags);
    assert!(diags.is_empty());
    match r {
        TypeExpr::Tuple(es) => match &es[0] {
            TypeExpr::NamedPath { path, .. } => {
                assert_eq!(seg_names(path), vec!["super", "super", "super", "T"]);
            },
            _ => panic!("path kept"),
        },
        _ => panic!("tuple kept"),
    }
}

fn sig_of(inputs: Vec<FnArg>, output: Option<TypeExpr>) -> MethodSig {
    MethodSig {
        ident: id("foo"),
        inputs,
        generics: GenericsSet { present: false, params: Vec::new(), preds: None },
        output,
        vis: Visibility::Private { loc: 0 },
    }
}

#[test]
fn static_detection_from_receiver() {
    let mut diags: Vec<Diagnostic> = Vec::new();
    let stat = method_types(&sig_of(vec![named_arg("x", false)], None), None, &mut diags);
    assert!(stat.is_static);
    let inst = method_types(
        &sig_of(vec![FnArg::SelfRef { mutable: false }, named_arg("x", false)], None),
        None,
        &mut diags,
    );
    assert!(!inst.is_static);
    assert!(diags.is_empty());
}

#[test]
fn call_dispatch_variant_from_return_shape() {
    let mut diags: Vec<Diagnostic> = Vec::new();
    let mut_ref = Some(TypeExpr::Reference {
        lifetime: None,
        mutable: true,
        elem: Box::new(plain_path("u32")),
    });
    let r = method_types(&sig_of(Vec::new(), mut_ref), None, &mut diags);
    assert_eq!(r.call, CallKind::CallMut);
    assert!(diags.is_empty());
    let plain = method_types(&sig_of(Vec::new(), Some(plain_path("u64"))), None, &mut diags);
    assert_eq!(plain.call, CallKind::Call);
    let none = method_types(&sig_of(Vec::new(), None), None, &mut diags);
    assert_eq!(none.call, CallKind::Call);
    assert!(diags.is_empty());
    let named_lt = Some(TypeExpr::Reference {
        lifetime: Some(id("a")),
        mutable: false,
        elem: Box::new(plain_path("u32")),
    });
    let _ = method_types(&sig_of(Vec::new(), named_lt), None, &mut diags);
    assert_eq!(diags.len(), 1);
    assert_eq!(diags[0].kind, DiagKind::NonStaticReturnLifetime);
}

#[test]
fn matching_expressions_borrow_exactly_once() {
    let by_value = named_arg("x", false);
    let by_ref = FnArg::Captured(mock_synth::ast::ArgBinding {
        pat: Pattern::Binding { by_ref: false, mutable: false, ident: id("y"), subpat: false },
        ty: TypeExpr::Reference {
            lifetime: None,
            mutable: false,
            elem: Box::new(plain_path("u32")),
        },
    });
    let mut diags: Vec<Diagnostic> = Vec::new();
    let r = method_types(
        &sig_of(vec![FnArg::SelfRef { mutable: false }, by_value, by_ref], None),
        None,
        &mut diags,
    );
    assert!(diags.is_empty());
    // A by-value argument is borrowed once; a reference argument is reused
    // directly, so every matching expression is one reference deep.
    match &r.matchexprs[0] {
        MatchExpr::Borrow(i) => assert_eq!(name_of(i), "x"),
        _ => panic!("by-value argument must gain one borrow"),
    }
    match &r.matchexprs[1] {
        MatchExpr::Direct(i) => assert_eq!(name_of(i), "y"),
        _ => panic!("reference argument must be reused directly"),
    }
    // Positional names count receiver positions; the reference argument's
    // alternate binding owns the pointee type.
    match &r.altargs[0].pat {
        Pattern::Binding { ident, .. } => assert_eq!(name_of(ident), "p1"),
        _ => panic!("named binding expected"),
    }
    match &r.altargs[1].pat {
        Pattern::Binding { ident, .. } => assert_eq!(name_of(ident), "p2"),
        _ => panic!("named binding expected"),
    }
    assert_eq!(first_seg_name(&r.altargs[1].ty), "u32");
    // The synthesized type names hang off the method's own name.
    assert_eq!(first_seg_name(&r.expectation), "foo");
}

#[test]
fn deselfify_without_self_occurrence_is_identity() {
    let t = TypeExpr::Tuple(vec![
        TypeExpr::Reference {
            lifetime: None,
            mutable: false,
            elem: Box::new(plain_path("u32")),
        },
        TypeExpr::NamedPath {
            qself: None,
            path: Path {
                segments: vec![PathSegment {
                    ident: id("Foo"),
                    args: vec![GenericArg::TypeArg(plain_path("T"))],
                }],
            },
        },
    ]);
    let copy = mock_synth::util::dup_type_expr(&t);
    let mut diags: Vec<Diagnostic> = Vec::new();
    let r = deselfify(&t, &id("MockFoo"), &mut diags);
    assert!(diags.is_empty());
    assert!(mock_synth::util::type_expr_eq(&r, &copy));
}
