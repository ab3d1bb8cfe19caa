use ext_trait::expand::{ext, Expansion};
use ext_trait::impl_to_trait::{convert_item, to_trait};
use ext_trait::model::{
    Constraint, ExtError, GenericArg, GenericParam, Generics, ImplBlock, Member, TraitDecl,
    TraitMember, TraitRef,
};
use ext_trait::naming::{hash, hash_seeded, ExtArgs};
use ext_trait::process_impl::{
    convert_generic_param_to_args, copy_appropriate_where_clause_type_from_and_to_self,
    make_trait_impl, move_bounds_to_where_clause, where_predicate_from_take_generic_bounds,
};
use ext_trait::vec_ext::Vec as RefVec;

fn s(t: &str) -> String {
    t.to_string()
}

fn ss(ts: &[&str]) -> Vec<String> {
    ts.iter().map(|t| t.to_string()).collect()
}

fn no_generics() -> Generics {
    Generics { params: vec![], where_clause: None }
}

fn block(self_ty: &str, generics: Generics, items: Vec<Member>) -> ImplBlock {
    ImplBlock {
        attrs: vec![],
        unsafety: false,
        generics,
        trait_: None,
        self_ty: s(self_ty),
        items,
    }
}

fn method(vis: Option<&str>, sig: &str, body: &str) -> Member {
    Member::Method { attrs: vec![], vis: vis.map(s), sig: s(sig), block: s(body) }
}

fn constant(ident: &str, ty: &str, expr: &str) -> Member {
    Member::Const { attrs: vec![], vis: None, ident: s(ident), ty: s(ty), expr: s(expr) }
}

fn named(ident: &str) -> ExtArgs {
    ExtArgs { vis: None, ident: Some(s(ident)) }
}

fn unnamed() -> ExtArgs {
    ExtArgs { vis: None, ident: None }
}

fn widget() -> ImplBlock {
    block(
        "Widget",
        no_generics(),
        vec![
            constant("SIZE", "usize", "4"),
            method(Some("pub"), "fn describe(&self) -> usize", "{ self.size() }"),
        ],
    )
}

#[test]
fn widget_ext_example() {
    let out = ext(named("WidgetExt"), widget(), b"impl Widget { }").unwrap();
    let expected_trait = TraitDecl {
        attrs: vec![],
        vis: None,
        unsafety: false,
        ident: s("WidgetExt"),
        generics: no_generics(),
        items: vec![
            TraitMember::Const { attrs: vec![], ident: s("SIZE"), ty: s("usize") },
            TraitMember::Method { attrs: vec![], sig: s("fn describe(&self) -> usize") },
        ],
    };
    let expected_impl = ImplBlock {
        attrs: vec![],
        unsafety: false,
        generics: no_generics(),
        trait_: Some(TraitRef { path: s("WidgetExt"), args: vec![] }),
        self_ty: s("Widget"),
        items: vec![
            constant("SIZE", "usize", "4"),
            method(None, "fn describe(&self) -> usize", "{ self.size() }"),
        ],
    };
    assert_eq!(out, Expansion { trait_def: expected_trait, item: expected_impl });
}

#[test]
fn derived_name_is_deterministic() {
    let raw = b"impl Widget { const SIZE: usize = 4; }";
    let a = ext(unnamed(), widget(), raw).unwrap();
    let b = ext(ExtArgs { vis: Some(s("pub")), ident: None }, widget(), raw).unwrap();
    assert_eq!(a.trait_def.ident, b.trait_def.ident);
    assert_eq!(a.trait_def.ident, format!("__ExtTrait{}", hash(raw)));
    assert_eq!(b.trait_def.vis, Some(s("pub")));
    let c = ext(unnamed(), widget(), b"impl Widget { const SIZE: usize = 5; }").unwrap();
    assert_ne!(a.trait_def.ident, c.trait_def.ident);
    assert_eq!(a.item.trait_.unwrap().path, a.trait_def.ident);
}

#[test]
fn hash_matches_fnv1a_vectors() {
    assert_eq!(hash(b""), 0xcbf29ce484222325);
    assert_eq!(hash(b"a"), 0xaf63dc4c8601ec8c);
    assert_eq!(hash(b"foobar"), 0x85944171f73967e8);
    assert_eq!(hash_seeded(0, b""), 0);
    assert_ne!(hash_seeded(1, b"a"), hash(b"a"));
}

#[test]
fn trait_ident_given_or_derived() {
    assert_eq!(named("MyExt").trait_ident(7), s("MyExt"));
    assert_eq!(unnamed().trait_ident(0), s("__ExtTrait0"));
    assert_eq!(unnamed().trait_ident(12345), s("__ExtTrait12345"));
    assert_eq!(unnamed().trait_ident(u64::MAX), s("__ExtTrait18446744073709551615"));
}

fn abc_generics() -> Generics {
    Generics {
        params: vec![
            GenericParam::Type { ident: s("A"), bounds: vec![] },
            GenericParam::Type { ident: s("B"), bounds: ss(&["SomeBound"]) },
            GenericParam::Lifetime { lifetime: s("'c"), bounds: vec![] },
        ],
        where_clause: None,
    }
}

#[test]
fn projection_keeps_declaration_order() {
    let out = ext(named("Ext"), block("Foo < A , B >", abc_generics(), vec![]), b"").unwrap();
    let args = vec![GenericArg::Type(s("A")), GenericArg::Type(s("B")), GenericArg::Lifetime(s("'c"))];
    assert_eq!(out.item.trait_, Some(TraitRef { path: s("Ext"), args }));
    assert_eq!(
        out.item.generics.where_clause,
        Some(vec![Constraint::Type {
            lifetimes: None,
            bounded_ty: s("B"),
            bounds: ss(&["SomeBound"]),
        }])
    );
    assert_eq!(out.trait_def.generics, out.item.generics);
}

#[test]
fn generic_param_to_arg() {
    let c = GenericParam::Const { ident: s("N"), ty: s("usize") };
    assert_eq!(convert_generic_param_to_args(&c), GenericArg::Const(s("N")));
    let l = GenericParam::Lifetime { lifetime: s("'a"), bounds: ss(&["'b"]) };
    assert_eq!(convert_generic_param_to_args(&l), GenericArg::Lifetime(s("'a")));
}

#[test]
fn take_bounds_from_param() {
    let mut t = GenericParam::Type { ident: s("T"), bounds: ss(&["Clone", "Eq"]) };
    let c = where_predicate_from_take_generic_bounds(&mut t);
    assert_eq!(t, GenericParam::Type { ident: s("T"), bounds: vec![] });
    assert_eq!(
        c,
        Some(Constraint::Type { lifetimes: None, bounded_ty: s("T"), bounds: ss(&["Clone", "Eq"]) })
    );
    let mut l = GenericParam::Lifetime { lifetime: s("'a"), bounds: ss(&["'b"]) };
    let c = where_predicate_from_take_generic_bounds(&mut l);
    assert_eq!(c, Some(Constraint::Lifetime { lifetime: s("'a"), bounds: ss(&["'b"]) }));
    let mut n = GenericParam::Const { ident: s("N"), ty: s("usize") };
    assert_eq!(where_predicate_from_take_generic_bounds(&mut n), None);
    let mut u = GenericParam::Type { ident: s("U"), bounds: vec![] };
    assert_eq!(where_predicate_from_take_generic_bounds(&mut u), None);
}

#[test]
fn bounds_move_after_existing_where_clause() {
    let generics = Generics {
        params: vec![
            GenericParam::Lifetime { lifetime: s("'a"), bounds: ss(&["'b"]) },
            GenericParam::Lifetime { lifetime: s("'b"), bounds: vec![] },
            GenericParam::Type { ident: s("T"), bounds: ss(&["Eq"]) },
        ],
        where_clause: Some(vec![Constraint::Type {
            lifetimes: None,
            bounded_ty: s("T"),
            bounds: ss(&["std :: fmt :: Debug"]),
        }]),
    };
    let mut item = block("Vec < & 'a T >", generics, vec![]);
    move_bounds_to_where_clause(&mut item);
    assert_eq!(
        item.generics.params,
        vec![
            GenericParam::Lifetime { lifetime: s("'a"), bounds: vec![] },
            GenericParam::Lifetime { lifetime: s("'b"), bounds: vec![] },
            GenericParam::Type { ident: s("T"), bounds: vec![] },
        ]
    );
    assert_eq!(
        item.generics.where_clause,
        Some(vec![
            Constraint::Type { lifetimes: None, bounded_ty: s("T"), bounds: ss(&["std :: fmt :: Debug"]) },
            Constraint::Lifetime { lifetime: s("'a"), bounds: ss(&["'b"]) },
            Constraint::Type { lifetimes: None, bounded_ty: s("T"), bounds: ss(&["Eq"]) },
        ])
    );
}

#[test]
fn no_bounds_no_where_clause() {
    let generics = Generics {
        params: vec![GenericParam::Type { ident: s("T"), bounds: vec![] }],
        where_clause: None,
    };
    let mut item = block("T", generics.clone(), vec![]);
    move_bounds_to_where_clause(&mut item);
    assert_eq!(item.generics, generics);
}

#[test]
fn self_constraints_are_linked_both_ways() {
    let generics = Generics {
        params: vec![GenericParam::Type { ident: s("T"), bounds: vec![] }],
        where_clause: Some(vec![
            Constraint::Type { lifetimes: None, bounded_ty: s("Vec < T >"), bounds: ss(&["Clone"]) },
            Constraint::Type { lifetimes: Some(s("for < 'x >")), bounded_ty: s("Self"), bounds: ss(&["Debug"]) },
            Constraint::Type { lifetimes: None, bounded_ty: s("T"), bounds: ss(&["Eq"]) },
            Constraint::Lifetime { lifetime: s("'a"), bounds: ss(&["'static"]) },
        ]),
    };
    let mut item = block("Vec < T >", generics, vec![]);
    copy_appropriate_where_clause_type_from_and_to_self(&mut item);
    assert_eq!(
        item.generics.where_clause,
        Some(vec![
            Constraint::Type { lifetimes: None, bounded_ty: s("Vec < T >"), bounds: ss(&["Clone"]) },
            Constraint::Type { lifetimes: Some(s("for < 'x >")), bounded_ty: s("Self"), bounds: ss(&["Debug"]) },
            Constraint::Type { lifetimes: None, bounded_ty: s("T"), bounds: ss(&["Eq"]) },
            Constraint::Lifetime { lifetime: s("'a"), bounds: ss(&["'static"]) },
            Constraint::Type { lifetimes: None, bounded_ty: s("Self"), bounds: ss(&["Clone"]) },
            Constraint::Type { lifetimes: Some(s("for < 'x >")), bounded_ty: s("Vec < T >"), bounds: ss(&["Debug"]) },
        ])
    );
}

#[test]
fn relinking_without_where_clause_changes_nothing() {
    let mut item = block("u8", no_generics(), vec![]);
    copy_appropriate_where_clause_type_from_and_to_self(&mut item);
    assert_eq!(item, block("u8", no_generics(), vec![]));
}

#[test]
fn trait_impls_are_refused() {
    let mut input = widget();
    input.trait_ = Some(TraitRef { path: s("Display"), args: vec![] });
    assert_eq!(ext(named("X"), input, b"").unwrap_err(), ExtError::AlreadyImplementsInterface);
}

#[test]
fn unsupported_member_is_reported() {
    let input = block(
        "u8",
        no_generics(),
        vec![constant("A", "u8", "1"), Member::Other(s("weird item")), Member::Other(s("second"))],
    );
    assert_eq!(
        ext(unnamed(), input.clone(), b"").unwrap_err(),
        ExtError::UnsupportedMember(s("weird item"))
    );
    let mut item = input.clone();
    assert_eq!(make_trait_impl(&mut item, s("T")), Err(ExtError::UnsupportedMember(s("weird item"))));
    assert_eq!(item, input);
    assert_eq!(to_trait(&input, None, s("T")), Err(ExtError::UnsupportedMember(s("weird item"))));
    assert_eq!(convert_item(&Member::Other(s("x"))), Err(ExtError::UnsupportedMember(s("x"))));
}

fn all_kinds() -> Vec<Member> {
    vec![
        Member::Type {
            attrs: ss(&["# [doc = \"t\"]"]),
            vis: Some(s("pub (crate)")),
            ident: s("Foo"),
            generics: Generics {
                params: vec![GenericParam::Lifetime { lifetime: s("'x"), bounds: vec![] }],
                where_clause: None,
            },
            bounds: vec![],
            ty: s("usize"),
        },
        constant("FOO", "usize", "1"),
        Member::Macro { attrs: vec![], mac: s("foo ! ()"), semi: true },
        method(Some("pub"), "fn foo (& self) -> usize", "{ 1 }"),
        Member::Verbatim(s("some tokens")),
    ]
}

#[test]
fn members_keep_count_and_order() {
    let out = ext(named("MyVecU8Ext"), block("Vec < u8 >", no_generics(), all_kinds()), b"").unwrap();
    assert_eq!(
        out.trait_def.items,
        vec![
            TraitMember::Type {
                attrs: ss(&["# [doc = \"t\"]"]),
                ident: s("Foo"),
                generics: Generics {
                    params: vec![GenericParam::Lifetime { lifetime: s("'x"), bounds: vec![] }],
                    where_clause: None,
                },
                bounds: vec![],
            },
            TraitMember::Const { attrs: vec![], ident: s("FOO"), ty: s("usize") },
            TraitMember::Macro { attrs: vec![], mac: s("foo ! ()"), semi: true },
            TraitMember::Method { attrs: vec![], sig: s("fn foo (& self) -> usize") },
            TraitMember::Verbatim(s("some tokens")),
        ]
    );
    let mut stripped = all_kinds();
    if let Member::Type { vis, .. } = &mut stripped[0] {
        *vis = None;
    }
    stripped[3] = method(None, "fn foo (& self) -> usize", "{ 1 }");
    assert_eq!(out.item.items, stripped);
}

#[test]
fn to_trait_copies_header() {
    let mut input = block("u16", abc_generics(), vec![method(None, "fn bar (self) -> u16", "{ self + 2 }")]);
    input.attrs = ss(&["# [allow (dead_code)]"]);
    input.unsafety = true;
    let t = to_trait(&input, Some(s("pub")), s("U16Ext")).unwrap();
    assert_eq!(t.attrs, input.attrs);
    assert!(t.unsafety);
    assert_eq!(t.vis, Some(s("pub")));
    assert_eq!(t.ident, s("U16Ext"));
    assert_eq!(t.generics, abc_generics());
    assert_eq!(t.items, vec![TraitMember::Method { attrs: vec![], sig: s("fn bar (self) -> u16") }]);
}

#[test]
fn convert_item_keeps_associated_type_bounds() {
    let m = Member::Type {
        attrs: vec![],
        vis: None,
        ident: s("X"),
        generics: no_generics(),
        bounds: ss(&["Clone"]),
        ty: s("AssertTrait < T >"),
    };
    assert_eq!(
        convert_item(&m),
        Ok(TraitMember::Type { attrs: vec![], ident: s("X"), generics: no_generics(), bounds: ss(&["Clone"]) })
    );
}

#[test]
fn first_of_vec_of_refs() {
    let v = RefVec::<()> { items: Vec::new() };
    assert_eq!(v.foo(), None);
    let v = RefVec { items: vec![&()] };
    assert_eq!(v.foo(), Some(&()));
}
