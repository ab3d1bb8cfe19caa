//! The syntax tree that the transformation works on.
//!
//! Pieces of source that the transformation never looks inside (types,
//! signatures, bodies, attributes, bounds) are held as token text. Each type
//! has a view into a spec-level twin in which texts are `Seq<char>` and
//! vectors are `Seq`s, and the contracts of the crate are stated over views.
use vstd::prelude::*;

verus! {

/// The views of a vector of texts.
pub open spec fn texts(v: Seq<String>) -> Seq<Seq<char>> {
    v.map_values(|s: String| s@)
}

/// The view of an optional text (a visibility qualifier, a `for<..>` binder).
pub open spec fn opt_text(o: Option<String>) -> Option<Seq<char>> {
    match o {
        Some(s) => Some(s@),
        None => None,
    }
}

/// A generic parameter of an impl block, with its inline bounds.
#[derive(Clone, Debug, PartialEq, Eq)]
pub enum GenericParam {
    Type { ident: String, bounds: Vec<String> },
    Lifetime { lifetime: String, bounds: Vec<String> },
    Const { ident: String, ty: String },
}

pub enum GenericParamView {
    Type { ident: Seq<char>, bounds: Seq<Seq<char>> },
    Lifetime { lifetime: Seq<char>, bounds: Seq<Seq<char>> },
    Const { ident: Seq<char>, ty: Seq<char> },
}

impl View for GenericParam {
    type V = GenericParamView;

    open spec fn view(&self) -> GenericParamView {
        match self {
            GenericParam::Type { ident, bounds } => GenericParamView::Type {
                ident: ident@,
                bounds: texts(bounds@),
            },
            GenericParam::Lifetime { lifetime, bounds } => GenericParamView::Lifetime {
                lifetime: lifetime@,
                bounds: texts(bounds@),
            },
            GenericParam::Const { ident, ty } => GenericParamView::Const { ident: ident@, ty: ty@ },
        }
    }
}

/// A generic argument: how a parameter is referred to once declared.
#[derive(Clone, Debug, PartialEq, Eq)]
pub enum GenericArg {
    Type(String),
    Lifetime(String),
    Const(String),
}

pub enum GenericArgView {
    Type(Seq<char>),
    Lifetime(Seq<char>),
    Const(Seq<char>),
}

impl View for GenericArg {
    type V = GenericArgView;

    open spec fn view(&self) -> GenericArgView {
        match self {
            GenericArg::Type(t) => GenericArgView::Type(t@),
            GenericArg::Lifetime(l) => GenericArgView::Lifetime(l@),
            GenericArg::Const(c) => GenericArgView::Const(c@),
        }
    }
}

/// A predicate of a where-clause: a bounded type or lifetime and its bounds.
#[derive(Clone, Debug, PartialEq, Eq)]
pub enum Constraint {
    Type { lifetimes: Option<String>, bounded_ty: String, bounds: Vec<String> },
    Lifetime { lifetime: String, bounds: Vec<String> },
}

pub enum ConstraintView {
    Type { lifetimes: Option<Seq<char>>, bounded_ty: Seq<char>, bounds: Seq<Seq<char>> },
    Lifetime { lifetime: Seq<char>, bounds: Seq<Seq<char>> },
}

impl View for Constraint {
    type V = ConstraintView;

    open spec fn view(&self) -> ConstraintView {
        match self {
            Constraint::Type { lifetimes, bounded_ty, bounds } => ConstraintView::Type {
                lifetimes: opt_text(*lifetimes),
                bounded_ty: bounded_ty@,
                bounds: texts(bounds@),
            },
            Constraint::Lifetime { lifetime, bounds } => ConstraintView::Lifetime {
                lifetime: lifetime@,
                bounds: texts(bounds@),
            },
        }
    }
}

pub open spec fn params_view(v: Seq<GenericParam>) -> Seq<GenericParamView> {
    v.map_values(|p: GenericParam| p@)
}

pub open spec fn args_view(v: Seq<GenericArg>) -> Seq<GenericArgView> {
    v.map_values(|a: GenericArg| a@)
}

pub open spec fn constraints_view(v: Seq<Constraint>) -> Seq<ConstraintView> {
    v.map_values(|c: Constraint| c@)
}

/// Generic parameters in declaration order, and the where-clause if any.
#[derive(Clone, Debug, PartialEq, Eq)]
pub struct Generics {
    pub params: Vec<GenericParam>,
    pub where_clause: Option<Vec<Constraint>>,
}

pub struct GenericsView {
    pub params: Seq<GenericParamView>,
    pub where_clause: Option<Seq<ConstraintView>>,
}

impl View for Generics {
    type V = GenericsView;

    open spec fn view(&self) -> GenericsView {
        GenericsView {
            params: params_view(self.params@),
            where_clause: match self.where_clause {
                Some(w) => Some(constraints_view(w@)),
                None => None,
            },
        }
    }
}

/// A member of an impl block. `Other` is a member of a shape that the
/// transformation does not handle; it holds the member's text.
#[derive(Clone, Debug, PartialEq, Eq)]
pub enum Member {
    Method { attrs: Vec<String>, vis: Option<String>, sig: String, block: String },
    Const { attrs: Vec<String>, vis: Option<String>, ident: String, ty: String, expr: String },
    Type {
        attrs: Vec<String>,
        vis: Option<String>,
        ident: String,
        generics: Generics,
        bounds: Vec<String>,
        ty: String,
    },
    Macro { attrs: Vec<String>, mac: String, semi: bool },
    Verbatim(String),
    Other(String),
}

pub enum MemberView {
    Method { attrs: Seq<Seq<char>>, vis: Option<Seq<char>>, sig: Seq<char>, block: Seq<char> },
    Const {
        attrs: Seq<Seq<char>>,
        vis: Option<Seq<char>>,
        ident: Seq<char>,
        ty: Seq<char>,
        expr: Seq<char>,
    },
    Type {
        attrs: Seq<Seq<char>>,
        vis: Option<Seq<char>>,
        ident: Seq<char>,
        generics: GenericsView,
        bounds: Seq<Seq<char>>,
        ty: Seq<char>,
    },
    Macro { attrs: Seq<Seq<char>>, mac: Seq<char>, semi: bool },
    Verbatim(Seq<char>),
    Other(Seq<char>),
}

impl View for Member {
    type V = MemberView;

    open spec fn view(&self) -> MemberView {
        match self {
            Member::Method { attrs, vis, sig, block } => MemberView::Method {
                attrs: texts(attrs@),
                vis: opt_text(*vis),
                sig: sig@,
                block: block@,
            },
            Member::Const { attrs, vis, ident, ty, expr } => MemberView::Const {
                attrs: texts(attrs@),
                vis: opt_text(*vis),
                ident: ident@,
                ty: ty@,
                expr: expr@,
            },
            Member::Type { attrs, vis, ident, generics, bounds, ty } => MemberView::Type {
                attrs: texts(attrs@),
                vis: opt_text(*vis),
                ident: ident@,
                generics: generics@,
                bounds: texts(bounds@),
                ty: ty@,
            },
            Member::Macro { attrs, mac, semi } => MemberView::Macro {
                attrs: texts(attrs@),
                mac: mac@,
                semi: *semi,
            },
            Member::Verbatim(t) => MemberView::Verbatim(t@),
            Member::Other(t) => MemberView::Other(t@),
        }
    }
}

/// A member of a trait declaration: a signature without body or value.
#[derive(Clone, Debug, PartialEq, Eq)]
pub enum TraitMember {
    Method { attrs: Vec<String>, sig: String },
    Const { attrs: Vec<String>, ident: String, ty: String },
    Type { attrs: Vec<String>, ident: String, generics: Generics, bounds: Vec<String> },
    Macro { attrs: Vec<String>, mac: String, semi: bool },
    Verbatim(String),
}

pub enum TraitMemberView {
    Method { attrs: Seq<Seq<char>>, sig: Seq<char> },
    Const { attrs: Seq<Seq<char>>, ident: Seq<char>, ty: Seq<char> },
    Type { attrs: Seq<Seq<char>>, ident: Seq<char>, generics: GenericsView, bounds: Seq<Seq<char>> },
    Macro { attrs: Seq<Seq<char>>, mac: Seq<char>, semi: bool },
    Verbatim(Seq<char>),
}

impl View for TraitMember {
    type V = TraitMemberView;

    open spec fn view(&self) -> TraitMemberView {
        match self {
            TraitMember::Method { attrs, sig } => TraitMemberView::Method {
                attrs: texts(attrs@),
                sig: sig@,
            },
            TraitMember::Const { attrs, ident, ty } => TraitMemberView::Const {
                attrs: texts(attrs@),
                ident: ident@,
                ty: ty@,
            },
            TraitMember::Type { attrs, ident, generics, bounds } => TraitMemberView::Type {
                attrs: texts(attrs@),
                ident: ident@,
                generics: generics@,
                bounds: texts(bounds@),
            },
            TraitMember::Macro { attrs, mac, semi } => TraitMemberView::Macro {
                attrs: texts(attrs@),
                mac: mac@,
                semi: *semi,
            },
            TraitMember::Verbatim(t) => TraitMemberView::Verbatim(t@),
        }
    }
}

pub open spec fn members_view(v: Seq<Member>) -> Seq<MemberView> {
    v.map_values(|m: Member| m@)
}

pub open spec fn trait_members_view(v: Seq<TraitMember>) -> Seq<TraitMemberView> {
    v.map_values(|m: TraitMember| m@)
}

/// The trait an impl block implements: a path, and generic arguments that
/// follow its last segment.
#[derive(Clone, Debug, PartialEq, Eq)]
pub struct TraitRef {
    pub path: String,
    pub args: Vec<GenericArg>,
}

pub struct TraitRefView {
    pub path: Seq<char>,
    pub args: Seq<GenericArgView>,
}

impl View for TraitRef {
    type V = TraitRefView;

    open spec fn view(&self) -> TraitRefView {
        TraitRefView { path: self.path@, args: args_view(self.args@) }
    }
}

/// An impl block: `unsafe impl<generics> Trait for SelfTy where .. { items }`,
/// inherent when `trait_` is `None`.
#[derive(Clone, Debug, PartialEq, Eq)]
pub struct ImplBlock {
    pub attrs: Vec<String>,
    pub unsafety: bool,
    pub generics: Generics,
    pub trait_: Option<TraitRef>,
    pub self_ty: String,
    pub items: Vec<Member>,
}

pub struct ImplBlockView {
    pub attrs: Seq<Seq<char>>,
    pub unsafety: bool,
    pub generics: GenericsView,
    pub trait_: Option<TraitRefView>,
    pub self_ty: Seq<char>,
    pub items: Seq<MemberView>,
}

impl View for ImplBlock {
    type V = ImplBlockView;

    open spec fn view(&self) -> ImplBlockView {
        ImplBlockView {
            attrs: texts(self.attrs@),
            unsafety: self.unsafety,
            generics: self.generics@,
            trait_: match self.trait_ {
                Some(t) => Some(t@),
                None => None,
            },
            self_ty: self.self_ty@,
            items: members_view(self.items@),
        }
    }
}

/// A trait declaration: `vis unsafe trait Ident<generics> where .. { items }`.
#[derive(Clone, Debug, PartialEq, Eq)]
pub struct TraitDecl {
    pub attrs: Vec<String>,
    pub vis: Option<String>,
    pub unsafety: bool,
    pub ident: String,
    pub generics: Generics,
    pub items: Vec<TraitMember>,
}

pub struct TraitDeclView {
    pub attrs: Seq<Seq<char>>,
    pub vis: Option<Seq<char>>,
    pub unsafety: bool,
    pub ident: Seq<char>,
    pub generics: GenericsView,
    pub items: Seq<TraitMemberView>,
}

impl View for TraitDecl {
    type V = TraitDeclView;

    open spec fn view(&self) -> TraitDeclView {
        TraitDeclView {
            attrs: texts(self.attrs@),
            vis: opt_text(self.vis),
            unsafety: self.unsafety,
            ident: self.ident@,
            generics: self.generics@,
            items: trait_members_view(self.items@),
        }
    }
}

/// Why a block cannot be turned into a trait and its impl.
#[derive(Clone, Debug, PartialEq, Eq)]
pub enum ExtError {
    /// The input could not be read as an impl block; holds the parser's message.
    MalformedInput(String),
    /// The block already implements a trait.
    AlreadyImplementsInterface,
    /// A member of a shape that cannot be declared in a trait; holds its text.
    UnsupportedMember(String),
    /// The arguments are neither empty, a visibility, a name, nor both.
    AmbiguousNameArguments(String),
}

pub enum ExtErrorView {
    MalformedInput(Seq<char>),
    AlreadyImplementsInterface,
    UnsupportedMember(Seq<char>),
    AmbiguousNameArguments(Seq<char>),
}

impl View for ExtError {
    type V = ExtErrorView;

    open spec fn view(&self) -> ExtErrorView {
        match self {
            ExtError::MalformedInput(m) => ExtErrorView::MalformedInput(m@),
            ExtError::AlreadyImplementsInterface => ExtErrorView::AlreadyImplementsInterface,
            ExtError::UnsupportedMember(t) => ExtErrorView::UnsupportedMember(t@),
            ExtError::AmbiguousNameArguments(m) => ExtErrorView::AmbiguousNameArguments(m@),
        }
    }
}

/// A copy of a vector of texts.
pub fn copy_texts(v: &Vec<String>) -> (r: Vec<String>)
    ensures
        texts(r@) == texts(v@),
{
    let mut r: Vec<String> = Vec::new();
    let mut i: usize = 0;
    while i < v.len()
        invariant
            i <= v.len(),
            r@.len() == i,
            forall|j: int| 0 <= j < i ==> r@[j]@ == v@[j]@,
        decreases v.len() - i,
    {
        r.push(v[i].clone());
        i += 1;
    }
    assert(texts(r@) =~= texts(v@));
    r
}

/// A copy of an optional text.
pub fn copy_opt_text(o: &Option<String>) -> (r: Option<String>)
    ensures
        opt_text(r) == opt_text(*o),
{
    match o {
        Some(s) => Some(s.clone()),
        None => None,
    }
}

impl GenericParam {
    pub fn copy(&self) -> (r: GenericParam)
        ensures
            r@ == self@,
    {
        match self {
            GenericParam::Type { ident, bounds } => GenericParam::Type {
                ident: ident.clone(),
                bounds: copy_texts(bounds),
            },
            GenericParam::Lifetime { lifetime, bounds } => GenericParam::Lifetime {
                lifetime: lifetime.clone(),
                bounds: copy_texts(bounds),
            },
            GenericParam::Const { ident, ty } => GenericParam::Const {
                ident: ident.clone(),
                ty: ty.clone(),
            },
        }
    }
}

impl Constraint {
    pub fn copy(&self) -> (r: Constraint)
        ensures
            r@ == self@,
    {
        match self {
            Constraint::Type { lifetimes, bounded_ty, bounds } => Constraint::Type {
                lifetimes: copy_opt_text(lifetimes),
                bounded_ty: bounded_ty.clone(),
                bounds: copy_texts(bounds),
            },
            Constraint::Lifetime { lifetime, bounds } => Constraint::Lifetime {
                lifetime: lifetime.clone(),
                bounds: copy_texts(bounds),
            },
        }
    }
}

/// A copy of a list of constraints.
pub fn copy_constraints(v: &Vec<Constraint>) -> (r: Vec<Constraint>)
    ensures
        constraints_view(r@) == constraints_view(v@),
{
    let mut r: Vec<Constraint> = Vec::new();
    let mut i: usize = 0;
    while i < v.len()
        invariant
            i <= v.len(),
            r@.len() == i,
            forall|j: int| 0 <= j < i ==> r@[j]@ == v@[j]@,
        decreases v.len() - i,
    {
        r.push(v[i].copy());
        i += 1;
    }
    assert(constraints_view(r@) =~= constraints_view(v@));
    r
}

impl Generics {
    pub fn copy(&self) -> (r: Generics)
        ensures
            r@ == self@,
    {
        let mut params: Vec<GenericParam> = Vec::new();
        let mut i: usize = 0;
        while i < self.params.len()
            invariant
                i <= self.params.len(),
                params@.len() == i,
                forall|j: int| 0 <= j < i ==> params@[j]@ == self.params@[j]@,
            decreases self.params.len() - i,
        {
            params.push(self.params[i].copy());
            i += 1;
        }
        assert(params_view(params@) =~= params_view(self.params@));
        let where_clause = match &self.where_clause {
            Some(w) => Some(copy_constraints(w)),
            None => None,
        };
        Generics { params, where_clause }
    }
}

} // verus!
