//! The syntax-tree data model that every pass of the engine works on.
//!
//! Executable trees carry identifier names together with a source
//! location used only for error reporting.  Each executable type has a
//! mathematical mirror (the `...V` types) in which names are character
//! sequences and locations are erased: two trees are "the same type expression" exactly
//! when their mirrors are equal, matching the rule that identifiers are never
//! compared by location.

use vstd::prelude::*;

verus! {

// ---------------------------------------------------------------------------
// Executable syntax trees
// ---------------------------------------------------------------------------

/// An opaque name plus its originating source location.
pub struct Ident {
    pub name: Vec<char>,
    pub loc: u64,
}

/// One generic argument inside angle brackets of a path segment.
pub enum GenericArg {
    /// A type argument, e.g. the `T` of `Vec<T>`.
    TypeArg(TypeExpr),
    /// An equality binding, e.g. `Item = T`.
    Binding { name: Ident, ty: TypeExpr },
    /// A lifetime argument, never rewritten by any pass.
    LifetimeArg(Ident),
}

/// One segment of a named path, optionally carrying generic arguments.
pub struct PathSegment {
    pub ident: Ident,
    pub args: Vec<GenericArg>,
}

/// A named path: a non-empty run of segments.
pub struct Path {
    pub segments: Vec<PathSegment>,
}

/// One bound of a trait object or of an opaque return type.
pub enum Bound {
    Trait(Path),
    Lifetime(Ident),
}

/// A recursive type expression, one tag active at a time.
pub enum TypeExpr {
    /// `[T]`
    Slice(Box<TypeExpr>),
    /// `[T; len]`
    Array { elem: Box<TypeExpr>, len: u64 },
    /// `*const T` / `*mut T`
    Ptr { mutable: bool, elem: Box<TypeExpr> },
    /// `&T`, `&'a mut T`, ...
    Reference { lifetime: Option<Ident>, mutable: bool, elem: Box<TypeExpr> },
    /// A function-pointer type; no pass can rewrite one.
    BareFn { loc: u64 },
    /// `(A, B, C)`
    Tuple(Vec<TypeExpr>),
    /// `a::b::C<D>`; `qself` holds the location of a qualified-self prefix
    /// when one is present.
    NamedPath { qself: Option<u64>, path: Path },
    /// A parenthesis or invisible-group wrapper around another type.
    Grouping(Box<TypeExpr>),
    /// An opaque return type given only by its bounds.
    ImplTrait { bounds: Vec<Bound>, loc: u64 },
    /// `dyn Bound + ...`
    TraitObject { bounds: Vec<Bound>, loc: u64 },
    /// A macro invocation in type position; the engine cannot see inside it.
    MacroFragment { loc: u64 },
    /// An opaque verbatim fragment; the engine cannot see inside it.
    Verbatim { loc: u64 },
    /// `_`
    Infer,
    /// `!`
    Never,
}

/// The binding pattern of one method parameter.
pub enum Pattern {
    /// `_`
    Wild { loc: u64 },
    /// A named binding, possibly `ref`, `mut` or carrying a sub-pattern.
    Binding { by_ref: bool, mutable: bool, ident: Ident, subpat: bool },
    /// Any other pattern form (tuples, structs, ...), unsupported.
    Other { loc: u64 },
}

/// A non-receiver method parameter: pattern plus declared type.
pub struct ArgBinding {
    pub pat: Pattern,
    pub ty: TypeExpr,
}

/// One entry of a method's parameter list.
pub enum FnArg {
    /// `&self` / `&mut self`
    SelfRef { mutable: bool },
    /// `self` / `mut self`
    SelfValue { mutable: bool },
    /// An ordinary parameter.
    Captured(ArgBinding),
}

/// One generic parameter; merge identity is the pair (kind, identifier).
pub enum GenericParam {
    TypeParam { ident: Ident, bounds: Vec<Ident> },
    LifetimeParam { ident: Ident, bounds: Vec<Ident> },
    ConstParam { ident: Ident },
}

/// One predicate of a where-clause; dedup identity is the left-hand operand.
pub enum WherePredicate {
    TypeBound { bounded_ty: TypeExpr, bounds: Vec<Ident> },
    LifetimeBound { lifetime: Ident, bounds: Vec<Ident> },
    EqualityConstraint { lhs_ty: TypeExpr, rhs_ty: TypeExpr },
}

/// An ordered generic-parameter set plus optional where-clause.
///
/// `present` distinguishes "no parameter brackets at all" from "brackets
/// with zero parameters"; the merge treats only the former as its identity
/// element.
pub struct GenericsSet {
    pub present: bool,
    pub params: Vec<GenericParam>,
    pub preds: Option<Vec<WherePredicate>>,
}

/// A declared accessibility modifier.
pub enum Visibility {
    /// No modifier; `loc` is where the item was declared.
    Private { loc: u64 },
    /// `pub(in path)` / `pub(super)` / `pub(self)` spelled as its path.
    PublicInPath { path: Vec<Ident> },
    /// `pub(crate)`
    PublicInCrate,
    /// `pub`
    Public,
}

/// One method declaration as handed in by the synthesis driver.
pub struct MethodSig {
    pub ident: Ident,
    pub inputs: Vec<FnArg>,
    pub generics: GenericsSet,
    pub output: Option<TypeExpr>,
    pub vis: Visibility,
}

/// Which run-time dispatch method the generated code must call.
#[derive(Clone, Copy, PartialEq, Eq, Structural, Debug)]
pub enum CallKind {
    /// Return by value (or no return).
    Call,
    /// Return by mutable reference.
    CallMut,
}

/// An expression that borrows one argument, exactly one level deep,
/// so it can be handed to a run-time argument matcher.
pub enum MatchExpr {
    /// The argument itself, already a reference.
    Direct(Ident),
    /// An immutable borrow of a by-value argument.
    Borrow(Ident),
}

/// Everything downstream synthesis needs to know about one method.
pub struct MethodTypes {
    pub is_static: bool,
    pub is_generic: bool,
    /// Type of the single-expectation object returned by the expect method.
    pub expectation: TypeExpr,
    /// Type of the expectation collection, without its generics applied.
    pub expectations: TypeExpr,
    /// Type of the collection object stored on the mock, with generics
    /// applied when the method itself is not generic.
    pub expect_obj: TypeExpr,
    /// Dispatch variant chosen from the return type's shape.
    pub call: CallKind,
    /// Alternate argument list with positional names and owned types.
    pub altargs: Vec<ArgBinding>,
    /// One borrowing expression per original argument.
    pub matchexprs: Vec<MatchExpr>,
}

/// What a reported diagnostic complains about.
#[derive(Clone, Copy, PartialEq, Eq, Structural, Debug)]
pub enum DiagKind {
    /// A `_` binding where a named argument is required.
    WildcardBinding,
    /// A `ref` binding.
    ByRefBinding,
    /// A binding with a sub-pattern.
    SubpatternBinding,
    /// A pattern form that is not a plain binding at all.
    UnsupportedBinding,
    /// A qualified-self path, which no pass can rewrite.
    QualifiedSelfPath,
    /// A macro or verbatim fragment in a return type.
    UnsupportedReturnTypeShape,
    /// A macro or verbatim fragment in a rewritten position.
    UnsupportedTypePosition,
    /// A non-binding pattern met while classifying arguments.
    UnexpectedArgumentPattern,
    /// A returned reference with a named, non-static lifetime.
    NonStaticReturnLifetime,
}

/// A reported diagnostic: what went wrong and where.
#[derive(Clone, Copy, PartialEq, Eq, Structural, Debug)]
pub struct Diagnostic {
    pub kind: DiagKind,
    pub loc: u64,
}

// ---------------------------------------------------------------------------
// Mathematical mirrors
// ---------------------------------------------------------------------------

#[verifier::ext_equal]
pub enum GenericArgV {
    TypeArg(TypeExprV),
    Binding { name: Seq<char>, ty: TypeExprV },
    LifetimeArg(Seq<char>),
}

#[verifier::ext_equal]
pub struct PathSegV {
    pub name: Seq<char>,
    pub args: Seq<GenericArgV>,
}

#[verifier::ext_equal]
pub struct PathV {
    pub segments: Seq<PathSegV>,
}

#[verifier::ext_equal]
pub enum BoundV {
    Trait(PathV),
    Lifetime(Seq<char>),
}

#[verifier::ext_equal]
pub enum TypeExprV {
    Slice(Box<TypeExprV>),
    Array { elem: Box<TypeExprV>, len: u64 },
    Ptr { mutable: bool, elem: Box<TypeExprV> },
    Reference { lifetime: Option<Seq<char>>, mutable: bool, elem: Box<TypeExprV> },
    BareFn,
    Tuple(Seq<TypeExprV>),
    NamedPath { qself: bool, path: PathV },
    Grouping(Box<TypeExprV>),
    ImplTrait(Seq<BoundV>),
    TraitObject(Seq<BoundV>),
    MacroFragment,
    Verbatim,
    Infer,
    Never,
}

#[verifier::ext_equal]
pub enum PatternV {
    Wild,
    Binding { by_ref: bool, mutable: bool, name: Seq<char>, subpat: bool },
    Other,
}

#[verifier::ext_equal]
pub struct ArgBindingV {
    pub pat: PatternV,
    pub ty: TypeExprV,
}

#[verifier::ext_equal]
pub enum FnArgV {
    SelfRef { mutable: bool },
    SelfValue { mutable: bool },
    Captured(ArgBindingV),
}

#[verifier::ext_equal]
pub enum GenericParamV {
    TypeParam { name: Seq<char>, bounds: Seq<Seq<char>> },
    LifetimeParam { name: Seq<char>, bounds: Seq<Seq<char>> },
    ConstParam { name: Seq<char> },
}

#[verifier::ext_equal]
pub enum WherePredicateV {
    TypeBound { bounded_ty: TypeExprV, bounds: Seq<Seq<char>> },
    LifetimeBound { lifetime: Seq<char>, bounds: Seq<Seq<char>> },
    EqualityConstraint { lhs_ty: TypeExprV, rhs_ty: TypeExprV },
}

#[verifier::ext_equal]
pub struct GenericsSetV {
    pub present: bool,
    pub params: Seq<GenericParamV>,
    pub preds: Option<Seq<WherePredicateV>>,
}

#[verifier::ext_equal]
pub enum VisibilityV {
    Private,
    PublicInPath(Seq<Seq<char>>),
    PublicInCrate,
    Public,
}

#[verifier::ext_equal]
pub struct MethodSigV {
    pub name: Seq<char>,
    pub inputs: Seq<FnArgV>,
    pub generics: GenericsSetV,
    pub output: Option<TypeExprV>,
    pub vis: VisibilityV,
}

#[verifier::ext_equal]
pub enum MatchExprV {
    Direct(Seq<char>),
    Borrow(Seq<char>),
}

#[verifier::ext_equal]
pub struct MethodTypesV {
    pub is_static: bool,
    pub is_generic: bool,
    pub expectation: TypeExprV,
    pub expectations: TypeExprV,
    pub expect_obj: TypeExprV,
    pub call: CallKind,
    pub altargs: Seq<ArgBindingV>,
    pub matchexprs: Seq<MatchExprV>,
}

// ---------------------------------------------------------------------------
// View functions: executable tree -> mirror
// ---------------------------------------------------------------------------

pub open spec fn ident_v(i: Ident) -> Seq<char> {
    i.name@
}

pub open spec fn idents_v(s: Seq<Ident>) -> Seq<Seq<char>>
    decreases s.len(),
{
    if s.len() == 0 {
        Seq::empty()
    } else {
        idents_v(s.drop_last()).push(ident_v(s.last()))
    }
}

pub open spec fn lifetime_v(l: Option<Ident>) -> Option<Seq<char>> {
    match l {
        Option::None => Option::None,
        Option::Some(i) => Option::Some(ident_v(i)),
    }
}

pub open spec fn type_expr_v(t: TypeExpr) -> TypeExprV
    decreases t,
{
    match t {
        TypeExpr::Slice(e) => TypeExprV::Slice(Box::new(type_expr_v(*e))),
        TypeExpr::Array { elem, len } => TypeExprV::Array {
            elem: Box::new(type_expr_v(*elem)),
            len,
        },
        TypeExpr::Ptr { mutable, elem } => TypeExprV::Ptr {
            mutable,
            elem: Box::new(type_expr_v(*elem)),
        },
        TypeExpr::Reference { lifetime, mutable, elem } => TypeExprV::Reference {
            lifetime: lifetime_v(lifetime),
            mutable,
            elem: Box::new(type_expr_v(*elem)),
        },
        TypeExpr::BareFn { .. } => TypeExprV::BareFn,
        TypeExpr::Tuple(elems) => TypeExprV::Tuple(type_exprs_v(elems@)),
        TypeExpr::NamedPath { qself, path } => TypeExprV::NamedPath {
            qself: qself is Some,
            path: path_v(path),
        },
        TypeExpr::Grouping(e) => TypeExprV::Grouping(Box::new(type_expr_v(*e))),
        TypeExpr::ImplTrait { bounds, .. } => TypeExprV::ImplTrait(bounds_v(bounds@)),
        TypeExpr::TraitObject { bounds, .. } => TypeExprV::TraitObject(bounds_v(bounds@)),
        TypeExpr::MacroFragment { .. } => TypeExprV::MacroFragment,
        TypeExpr::Verbatim { .. } => TypeExprV::Verbatim,
        TypeExpr::Infer => TypeExprV::Infer,
        TypeExpr::Never => TypeExprV::Never,
    }
}

pub open spec fn type_exprs_v(s: Seq<TypeExpr>) -> Seq<TypeExprV>
    decreases s,
{
    if s.len() == 0 {
        Seq::empty()
    } else {
        type_exprs_v(s.drop_last()).push(type_expr_v(s.last()))
    }
}

pub open spec fn generic_arg_v(a: GenericArg) -> GenericArgV
    decreases a,
{
    match a {
        GenericArg::TypeArg(t) => GenericArgV::TypeArg(type_expr_v(t)),
        GenericArg::Binding { name, ty } => GenericArgV::Binding {
            name: ident_v(name),
            ty: type_expr_v(ty),
        },
        GenericArg::LifetimeArg(i) => GenericArgV::LifetimeArg(ident_v(i)),
    }
}

pub open spec fn generic_args_v(s: Seq<GenericArg>) -> Seq<GenericArgV>
    decreases s,
{
    if s.len() == 0 {
        Seq::empty()
    } else {
        generic_args_v(s.drop_last()).push(generic_arg_v(s.last()))
    }
}

pub open spec fn path_seg_v(s: PathSegment) -> PathSegV
    decreases s,
{
    PathSegV { name: ident_v(s.ident), args: generic_args_v(s.args@) }
}

pub open spec fn path_segs_v(s: Seq<PathSegment>) -> Seq<PathSegV>
    decreases s,
{
    if s.len() == 0 {
        Seq::empty()
    } else {
        path_segs_v(s.drop_last()).push(path_seg_v(s.last()))
    }
}

pub open spec fn path_v(p: Path) -> PathV
    decreases p,
{
    PathV { segments: path_segs_v(p.segments@) }
}

pub open spec fn bound_v(b: Bound) -> BoundV
    decreases b,
{
    match b {
        Bound::Trait(p) => BoundV::Trait(path_v(p)),
        Bound::Lifetime(i) => BoundV::Lifetime(ident_v(i)),
    }
}

pub open spec fn bounds_v(s: Seq<Bound>) -> Seq<BoundV>
    decreases s,
{
    if s.len() == 0 {
        Seq::empty()
    } else {
        bounds_v(s.drop_last()).push(bound_v(s.last()))
    }
}

pub open spec fn return_type_v(o: Option<TypeExpr>) -> Option<TypeExprV> {
    match o {
        Option::None => Option::None,
        Option::Some(t) => Option::Some(type_expr_v(t)),
    }
}

pub open spec fn pattern_v(p: Pattern) -> PatternV {
    match p {
        Pattern::Wild { .. } => PatternV::Wild,
        Pattern::Binding { by_ref, mutable, ident, subpat } => PatternV::Binding {
            by_ref,
            mutable,
            name: ident_v(ident),
            subpat,
        },
        Pattern::Other { .. } => PatternV::Other,
    }
}

pub open spec fn arg_binding_v(b: ArgBinding) -> ArgBindingV {
    ArgBindingV { pat: pattern_v(b.pat), ty: type_expr_v(b.ty) }
}

pub open spec fn fn_arg_v(a: FnArg) -> FnArgV {
    match a {
        FnArg::SelfRef { mutable } => FnArgV::SelfRef { mutable },
        FnArg::SelfValue { mutable } => FnArgV::SelfValue { mutable },
        FnArg::Captured(b) => FnArgV::Captured(arg_binding_v(b)),
    }
}

pub open spec fn fn_args_v(s: Seq<FnArg>) -> Seq<FnArgV>
    decreases s.len(),
{
    if s.len() == 0 {
        Seq::empty()
    } else {
        fn_args_v(s.drop_last()).push(fn_arg_v(s.last()))
    }
}

pub open spec fn generic_param_v(p: GenericParam) -> GenericParamV {
    match p {
        GenericParam::TypeParam { ident, bounds } => GenericParamV::TypeParam {
            name: ident_v(ident),
            bounds: idents_v(bounds@),
        },
        GenericParam::LifetimeParam { ident, bounds } => GenericParamV::LifetimeParam {
            name: ident_v(ident),
            bounds: idents_v(bounds@),
        },
        GenericParam::ConstParam { ident } => GenericParamV::ConstParam {
            name: ident_v(ident),
        },
    }
}

pub open spec fn generic_params_v(s: Seq<GenericParam>) -> Seq<GenericParamV>
    decreases s.len(),
{
    if s.len() == 0 {
        Seq::empty()
    } else {
        generic_params_v(s.drop_last()).push(generic_param_v(s.last()))
    }
}

pub open spec fn where_predicate_v(p: WherePredicate) -> WherePredicateV {
    match p {
        WherePredicate::TypeBound { bounded_ty, bounds } => WherePredicateV::TypeBound {
            bounded_ty: type_expr_v(bounded_ty),
            bounds: idents_v(bounds@),
        },
        WherePredicate::LifetimeBound { lifetime, bounds } => WherePredicateV::LifetimeBound {
            lifetime: ident_v(lifetime),
            bounds: idents_v(bounds@),
        },
        WherePredicate::EqualityConstraint { lhs_ty, rhs_ty } => {
            WherePredicateV::EqualityConstraint {
                lhs_ty: type_expr_v(lhs_ty),
                rhs_ty: type_expr_v(rhs_ty),
            }
        },
    }
}

pub open spec fn where_predicates_v(s: Seq<WherePredicate>) -> Seq<WherePredicateV>
    decreases s.len(),
{
    if s.len() == 0 {
        Seq::empty()
    } else {
        where_predicates_v(s.drop_last()).push(where_predicate_v(s.last()))
    }
}

pub open spec fn generics_set_v(g: GenericsSet) -> GenericsSetV {
    GenericsSetV {
        present: g.present,
        params: generic_params_v(g.params@),
        preds: match g.preds {
            Option::None => Option::None,
            Option::Some(ps) => Option::Some(where_predicates_v(ps@)),
        },
    }
}

pub open spec fn visibility_v(v: Visibility) -> VisibilityV {
    match v {
        Visibility::Private { .. } => VisibilityV::Private,
        Visibility::PublicInPath { path } => VisibilityV::PublicInPath(idents_v(path@)),
        Visibility::PublicInCrate => VisibilityV::PublicInCrate,
        Visibility::Public => VisibilityV::Public,
    }
}

pub open spec fn method_sig_v(s: MethodSig) -> MethodSigV {
    MethodSigV {
        name: ident_v(s.ident),
        inputs: fn_args_v(s.inputs@),
        generics: generics_set_v(s.generics),
        output: return_type_v(s.output),
        vis: visibility_v(s.vis),
    }
}

pub open spec fn match_expr_v(m: MatchExpr) -> MatchExprV {
    match m {
        MatchExpr::Direct(i) => MatchExprV::Direct(ident_v(i)),
        MatchExpr::Borrow(i) => MatchExprV::Borrow(ident_v(i)),
    }
}

pub open spec fn match_exprs_v(s: Seq<MatchExpr>) -> Seq<MatchExprV>
    decreases s.len(),
{
    if s.len() == 0 {
        Seq::empty()
    } else {
        match_exprs_v(s.drop_last()).push(match_expr_v(s.last()))
    }
}

pub open spec fn arg_bindings_v(s: Seq<ArgBinding>) -> Seq<ArgBindingV>
    decreases s.len(),
{
    if s.len() == 0 {
        Seq::empty()
    } else {
        arg_bindings_v(s.drop_last()).push(arg_binding_v(s.last()))
    }
}

pub open spec fn method_types_v(m: MethodTypes) -> MethodTypesV {
    MethodTypesV {
        is_static: m.is_static,
        is_generic: m.is_generic,
        expectation: type_expr_v(m.expectation),
        expectations: type_expr_v(m.expectations),
        expect_obj: type_expr_v(m.expect_obj),
        call: m.call,
        altargs: arg_bindings_v(m.altargs@),
        matchexprs: match_exprs_v(m.matchexprs@),
    }
}

impl View for Ident {
    type V = Seq<char>;

    open spec fn view(&self) -> Seq<char> {
        ident_v(*self)
    }
}

impl View for TypeExpr {
    type V = TypeExprV;

    open spec fn view(&self) -> TypeExprV {
        type_expr_v(*self)
    }
}

impl View for Path {
    type V = PathV;

    open spec fn view(&self) -> PathV {
        path_v(*self)
    }
}

impl View for GenericsSet {
    type V = GenericsSetV;

    open spec fn view(&self) -> GenericsSetV {
        generics_set_v(*self)
    }
}

impl View for Visibility {
    type V = VisibilityV;

    open spec fn view(&self) -> VisibilityV {
        visibility_v(*self)
    }
}

impl View for MethodSig {
    type V = MethodSigV;

    open spec fn view(&self) -> MethodSigV {
        method_sig_v(*self)
    }
}

impl View for MethodTypes {
    type V = MethodTypesV;

    open spec fn view(&self) -> MethodTypesV {
        method_types_v(*self)
    }
}

// ---------------------------------------------------------------------------
// How the sequence views act on single elements
// ---------------------------------------------------------------------------

pub proof fn lemma_idents_v(s: Seq<Ident>)
    ensures
        idents_v(s).len() == s.len(),
        forall|j: int| 0 <= j < s.len() ==> idents_v(s)[j] == ident_v(s[j]),
    decreases s.len(),
{
    if s.len() > 0 {
        lemma_idents_v(s.drop_last());
    }
}

pub proof fn lemma_type_exprs_v(s: Seq<TypeExpr>)
    ensures
        type_exprs_v(s).len() == s.len(),
        forall|j: int| 0 <= j < s.len() ==> type_exprs_v(s)[j] == type_expr_v(s[j]),
    decreases s.len(),
{
    if s.len() > 0 {
        lemma_type_exprs_v(s.drop_last());
    }
}

pub proof fn lemma_generic_args_v(s: Seq<GenericArg>)
    ensures
        generic_args_v(s).len() == s.len(),
        forall|j: int| 0 <= j < s.len() ==> generic_args_v(s)[j] == generic_arg_v(s[j]),
    decreases s.len(),
{
    if s.len() > 0 {
        lemma_generic_args_v(s.drop_last());
    }
}

pub proof fn lemma_path_segs_v(s: Seq<PathSegment>)
    ensures
        path_segs_v(s).len() == s.len(),
        forall|j: int| 0 <= j < s.len() ==> path_segs_v(s)[j] == path_seg_v(s[j]),
    decreases s.len(),
{
    if s.len() > 0 {
        lemma_path_segs_v(s.drop_last());
    }
}

pub proof fn lemma_bounds_v(s: Seq<Bound>)
    ensures
        bounds_v(s).len() == s.len(),
        forall|j: int| 0 <= j < s.len() ==> bounds_v(s)[j] == bound_v(s[j]),
    decreases s.len(),
{
    if s.len() > 0 {
        lemma_bounds_v(s.drop_last());
    }
}

pub proof fn lemma_fn_args_v(s: Seq<FnArg>)
    ensures
        fn_args_v(s).len() == s.len(),
        forall|j: int| 0 <= j < s.len() ==> fn_args_v(s)[j] == fn_arg_v(s[j]),
    decreases s.len(),
{
    if s.len() > 0 {
        lemma_fn_args_v(s.drop_last());
    }
}

pub proof fn lemma_generic_params_v(s: Seq<GenericParam>)
    ensures
        generic_params_v(s).len() == s.len(),
        forall|j: int| 0 <= j < s.len() ==> generic_params_v(s)[j] == generic_param_v(s[j]),
    decreases s.len(),
{
    if s.len() > 0 {
        lemma_generic_params_v(s.drop_last());
    }
}

pub proof fn lemma_where_predicates_v(s: Seq<WherePredicate>)
    ensures
        where_predicates_v(s).len() == s.len(),
        forall|j: int| 0 <= j < s.len() ==> where_predicates_v(s)[j] == where_predicate_v(s[j]),
    decreases s.len(),
{
    if s.len() > 0 {
        lemma_where_predicates_v(s.drop_last());
    }
}

pub proof fn lemma_arg_bindings_v(s: Seq<ArgBinding>)
    ensures
        arg_bindings_v(s).len() == s.len(),
        forall|j: int| 0 <= j < s.len() ==> arg_bindings_v(s)[j] == arg_binding_v(s[j]),
    decreases s.len(),
{
    if s.len() > 0 {
        lemma_arg_bindings_v(s.drop_last());
    }
}

pub proof fn lemma_match_exprs_v(s: Seq<MatchExpr>)
    ensures
        match_exprs_v(s).len() == s.len(),
        forall|j: int| 0 <= j < s.len() ==> match_exprs_v(s)[j] == match_expr_v(s[j]),
    decreases s.len(),
{
    if s.len() > 0 {
        lemma_match_exprs_v(s.drop_last());
    }
}

// ---------------------------------------------------------------------------
// Reserved names
// ---------------------------------------------------------------------------

/// The reserved self-referencing type name, `Self`.
pub open spec fn self_name() -> Seq<char> {
    seq!['S', 'e', 'l', 'f']
}

/// The reserved parent-module path segment, `super`.
pub open spec fn super_name() -> Seq<char> {
    seq!['s', 'u', 'p', 'e', 'r']
}

/// The whole-crate path marker, `crate`.
pub open spec fn crate_name() -> Seq<char> {
    seq!['c', 'r', 'a', 't', 'e']
}

/// The unbounded lifetime name, `static`.
pub open spec fn static_name() -> Seq<char> {
    seq!['s', 't', 'a', 't', 'i', 'c']
}

} // verus!
