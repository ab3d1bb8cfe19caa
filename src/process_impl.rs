//! Rewriting the impl block: bounds into the where-clause, the block onto
//! the new trait, and constraints on the self type under both spellings.
use crate::model::{
    args_view, constraints_view, copy_opt_text, copy_texts, members_view, opt_text, params_view,
    Constraint, ConstraintView, ExtError, ExtErrorView, GenericArg, GenericArgView, GenericParam,
    GenericParamView, Generics, GenericsView, ImplBlock, ImplBlockView, Member, MemberView,
    TraitRef, TraitRefView,
};
use vstd::prelude::*;

verus! {

/// How a parameter is referred to once declared: its name alone.
pub open spec fn param_arg(p: GenericParamView) -> GenericArgView {
    match p {
        GenericParamView::Type { ident, .. } => GenericArgView::Type(ident),
        GenericParamView::Lifetime { lifetime, .. } => GenericArgView::Lifetime(lifetime),
        GenericParamView::Const { ident, .. } => GenericArgView::Const(ident),
    }
}

/// The generic arguments that refer to `ps`, in the same order.
pub open spec fn project(ps: Seq<GenericParamView>) -> Seq<GenericArgView> {
    ps.map_values(|p: GenericParamView| param_arg(p))
}

/// A parameter without its inline bounds.
pub open spec fn unbounded(p: GenericParamView) -> GenericParamView {
    match p {
        GenericParamView::Type { ident, .. } => GenericParamView::Type { ident, bounds: seq![] },
        GenericParamView::Lifetime { lifetime, .. } => GenericParamView::Lifetime {
            lifetime,
            bounds: seq![],
        },
        GenericParamView::Const { ident, ty } => GenericParamView::Const { ident, ty },
    }
}

/// The constraint that states a parameter's inline bounds, if it has any.
pub open spec fn bound_constraint(p: GenericParamView) -> Option<ConstraintView> {
    match p {
        GenericParamView::Type { ident, bounds } => if bounds.len() == 0 {
            None
        } else {
            Some(ConstraintView::Type { lifetimes: None, bounded_ty: ident, bounds })
        },
        GenericParamView::Lifetime { lifetime, bounds } => if bounds.len() == 0 {
            None
        } else {
            Some(ConstraintView::Lifetime { lifetime, bounds })
        },
        GenericParamView::Const { .. } => None,
    }
}

/// The constraints that state the inline bounds of `ps`, in parameter order.
pub open spec fn moved_constraints(ps: Seq<GenericParamView>) -> Seq<ConstraintView>
    decreases ps.len(),
{
    if ps.len() == 0 {
        seq![]
    } else {
        let front = moved_constraints(ps.drop_last());
        match bound_constraint(ps.last()) {
            Some(c) => front.push(c),
            None => front,
        }
    }
}

/// A where-clause with `extra` appended; one is made only when `extra` is
/// not empty.
pub open spec fn with_constraints(
    w: Option<Seq<ConstraintView>>,
    extra: Seq<ConstraintView>,
) -> Option<Seq<ConstraintView>> {
    if extra.len() == 0 {
        w
    } else {
        match w {
            Some(c) => Some(c + extra),
            None => Some(extra),
        }
    }
}

/// Generics whose inline bounds have all moved into the where-clause.
pub open spec fn normalized(g: GenericsView) -> GenericsView {
    GenericsView {
        params: g.params.map_values(|p: GenericParamView| unbounded(p)),
        where_clause: with_constraints(g.where_clause, moved_constraints(g.params)),
    }
}

/// The spelling `Self`.
pub open spec fn self_alias() -> Seq<char> {
    seq!['S', 'e', 'l', 'f']
}

/// The copy of `c` under the other spelling of the implementing type, when
/// `c` bounds the type `self_ty` or `Self`.
pub open spec fn linked_copy(c: ConstraintView, self_ty: Seq<char>) -> Option<ConstraintView> {
    match c {
        ConstraintView::Type { lifetimes, bounded_ty, bounds } => if bounded_ty == self_ty {
            Some(ConstraintView::Type { lifetimes, bounded_ty: self_alias(), bounds })
        } else if bounded_ty == self_alias() {
            Some(ConstraintView::Type { lifetimes, bounded_ty: self_ty, bounds })
        } else {
            None
        },
        ConstraintView::Lifetime { .. } => None,
    }
}

/// The linked copies of the constraints of `cs`, in order.
pub open spec fn linked_copies(cs: Seq<ConstraintView>, self_ty: Seq<char>) -> Seq<
    ConstraintView,
>
    decreases cs.len(),
{
    if cs.len() == 0 {
        seq![]
    } else {
        let front = linked_copies(cs.drop_last(), self_ty);
        match linked_copy(cs.last(), self_ty) {
            Some(c) => front.push(c),
            None => front,
        }
    }
}

/// Generics whose where-clause is followed by the linked copies of its
/// constraints.
pub open spec fn relinked(g: GenericsView, self_ty: Seq<char>) -> GenericsView {
    GenericsView {
        params: g.params,
        where_clause: match g.where_clause {
            Some(w) => Some(w + linked_copies(w, self_ty)),
            None => None,
        },
    }
}

/// A member as it stands in a trait impl: without a visibility.
pub open spec fn stripped(m: MemberView) -> MemberView {
    match m {
        MemberView::Method { attrs, sig, block, .. } => MemberView::Method {
            attrs,
            vis: None,
            sig,
            block,
        },
        MemberView::Const { attrs, ident, ty, expr, .. } => MemberView::Const {
            attrs,
            vis: None,
            ident,
            ty,
            expr,
        },
        MemberView::Type { attrs, ident, generics, bounds, ty, .. } => MemberView::Type {
            attrs,
            vis: None,
            ident,
            generics,
            bounds,
            ty,
        },
        _ => m,
    }
}

/// The text of the first member of `s` from index `i` on whose shape is not
/// handled.
pub open spec fn first_unsupported_from(s: Seq<MemberView>, i: int) -> Option<Seq<char>>
    decreases s.len() - i,
{
    if i < 0 || i >= s.len() {
        None
    } else {
        match s[i] {
            MemberView::Other(t) => Some(t),
            _ => first_unsupported_from(s, i + 1),
        }
    }
}

/// The text of the first member of `s` whose shape is not handled.
pub open spec fn first_unsupported(s: Seq<MemberView>) -> Option<Seq<char>> {
    first_unsupported_from(s, 0)
}

/// Where no member of `s` is unsupported, the one at `k` is not.
pub proof fn lemma_supported_at(s: Seq<MemberView>, k: int)
    requires
        first_unsupported(s) is None,
        0 <= k < s.len(),
    ensures
        !(s[k] is Other),
{
    lemma_supported_from(s, 0, k);
}

proof fn lemma_supported_from(s: Seq<MemberView>, i: int, k: int)
    requires
        first_unsupported_from(s, i) is None,
        0 <= i <= k < s.len(),
    ensures
        !(s[k] is Other),
    decreases k - i,
{
    if i < k {
        lemma_supported_from(s, i + 1, k);
    }
}

/// `b` turned into an impl of the trait `name`, whose generic arguments
/// refer to the block's own parameters.
pub open spec fn retargeted(b: ImplBlockView, name: Seq<char>) -> ImplBlockView {
    ImplBlockView {
        trait_: Some(TraitRefView { path: name, args: project(b.generics.params) }),
        items: b.items.map_values(|m: MemberView| stripped(m)),
        ..b
    }
}

/// The generic argument that refers to `p`.
pub fn convert_generic_param_to_args(p: &GenericParam) -> (r: GenericArg)
    ensures
        r@ == param_arg(p@),
{
    match p {
        GenericParam::Type { ident, .. } => GenericArg::Type(ident.clone()),
        GenericParam::Lifetime { lifetime, .. } => GenericArg::Lifetime(lifetime.clone()),
        GenericParam::Const { ident, .. } => GenericArg::Const(ident.clone()),
    }
}

/// Takes the inline bounds off `g`, and returns the constraint that states
/// them, if there were any.
pub fn where_predicate_from_take_generic_bounds(g: &mut GenericParam) -> (r: Option<Constraint>)
    ensures
        final(g)@ == unbounded(old(g)@),
        match r {
            Some(c) => bound_constraint(old(g)@) == Some(c@),
            None => bound_constraint(old(g)@) is None,
        },
{
    let ghost empty: Seq<Seq<char>> = seq![];
    match g {
        GenericParam::Type { ident, bounds } => {
            if bounds.len() == 0 {
                assert(texts_of(bounds) =~= empty);
                None
            } else {
                let mut taken: Vec<String> = Vec::new();
                std::mem::swap(&mut taken, bounds);
                assert(texts_of(bounds) =~= empty);
                Some(Constraint::Type { lifetimes: None, bounded_ty: ident.clone(), bounds: taken })
            }
        },
        GenericParam::Lifetime { lifetime, bounds } => {
            if bounds.len() == 0 {
                assert(texts_of(bounds) =~= empty);
                None
            } else {
                let mut taken: Vec<String> = Vec::new();
                std::mem::swap(&mut taken, bounds);
                assert(texts_of(bounds) =~= empty);
                Some(Constraint::Lifetime { lifetime: lifetime.clone(), bounds: taken })
            }
        },
        GenericParam::Const { .. } => None,
    }
}

spec fn texts_of(v: &Vec<String>) -> Seq<Seq<char>> {
    crate::model::texts(v@)
}

/// Moves the inline bounds of the block's generic parameters into its
/// where-clause, in parameter order.
pub fn move_bounds_to_where_clause(item: &mut ImplBlock)
    ensures
        final(item)@ == (ImplBlockView { generics: normalized(old(item)@.generics), ..old(item)@ }),
{
    let ghost before = old(item)@;
    let mut params: Vec<GenericParam> = Vec::new();
    std::mem::swap(&mut params, &mut item.generics.params);
    let mut moved: Vec<Constraint> = Vec::new();
    let mut kept: Vec<GenericParam> = Vec::new();
    let mut i: usize = 0;
    while i < params.len()
        invariant
            i <= params.len(),
            params_view(params@) == before.generics.params,
            kept@.len() == i,
            forall|j: int| 0 <= j < i ==> kept@[j]@ == unbounded(params@[j]@),
            constraints_view(moved@) == moved_constraints(
                params_view(params@).subrange(0, i as int),
            ),
        decreases params.len() - i,
    {
        let mut p = params[i].copy();
        let c = where_predicate_from_take_generic_bounds(&mut p);
        let ghost prefix = params_view(params@).subrange(0, i + 1);
        assert(prefix.drop_last() =~= params_view(params@).subrange(0, i as int));
        match c {
            Some(c) => {
                moved.push(c);
                assert(constraints_view(moved@) =~= moved_constraints(prefix));
            },
            None => {},
        }
        kept.push(p);
        i += 1;
    }
    assert(params_view(params@).subrange(0, params@.len() as int) =~= params_view(params@));
    assert(params_view(kept@) =~= before.generics.params.map_values(
        |p: GenericParamView| unbounded(p),
    ));
    item.generics.params = kept;
    let mut wc: Option<Vec<Constraint>> = None;
    std::mem::swap(&mut wc, &mut item.generics.where_clause);
    if moved.len() > 0 {
        match wc {
            Some(mut w) => {
                let ghost w0 = constraints_view(w@);
                w.append(&mut moved);
                assert(constraints_view(w@) =~= w0 + moved_constraints(before.generics.params));
                item.generics.where_clause = Some(w);
            },
            None => {
                item.generics.where_clause = Some(moved);
            },
        }
    } else {
        item.generics.where_clause = wc;
    }
    assert(item.generics@ == normalized(before.generics));
}

/// The same member without a visibility.
fn strip_visibility(m: &Member) -> (r: Member)
    ensures
        r@ == stripped(m@),
{
    match m {
        Member::Method { attrs, sig, block, .. } => Member::Method {
            attrs: copy_texts(attrs),
            vis: None,
            sig: sig.clone(),
            block: block.clone(),
        },
        Member::Const { attrs, ident, ty, expr, .. } => Member::Const {
            attrs: copy_texts(attrs),
            vis: None,
            ident: ident.clone(),
            ty: ty.clone(),
            expr: expr.clone(),
        },
        Member::Type { attrs, ident, generics, bounds, ty, .. } => Member::Type {
            attrs: copy_texts(attrs),
            vis: None,
            ident: ident.clone(),
            generics: generics.copy(),
            bounds: copy_texts(bounds),
            ty: ty.clone(),
        },
        Member::Macro { attrs, mac, semi } => Member::Macro {
            attrs: copy_texts(attrs),
            mac: mac.clone(),
            semi: *semi,
        },
        Member::Verbatim(t) => Member::Verbatim(t.clone()),
        Member::Other(t) => Member::Other(t.clone()),
    }
}

/// The text of the first member whose shape is not handled, if any.
pub fn find_unsupported(items: &Vec<Member>) -> (r: Option<String>)
    ensures
        opt_text(r) == first_unsupported(members_view(items@)),
{
    let ghost s = members_view(items@);
    let mut i: usize = 0;
    while i < items.len()
        invariant
            i <= items@.len(),
            s == members_view(items@),
            first_unsupported_from(s, 0) == first_unsupported_from(s, i as int),
        decreases items.len() - i,
    {
        match &items[i] {
            Member::Other(t) => {
                return Some(t.clone());
            },
            _ => {},
        }
        i += 1;
    }
    None
}

/// Turns the inherent block into an impl of the trait `trait_ident`: the
/// trait's generic arguments name the block's parameters in order, and the
/// members lose their visibility. A member whose shape is not handled leaves
/// the block as it was and is reported.
pub fn make_trait_impl(item: &mut ImplBlock, trait_ident: String) -> (r: Result<(), ExtError>)
    ensures
        match first_unsupported(old(item)@.items) {
            Some(t) => {
                &&& r matches Err(e) && e@ == ExtErrorView::UnsupportedMember(t)
                &&& final(item)@ == old(item)@
            },
            None => r is Ok && final(item)@ == retargeted(old(item)@, trait_ident@),
        },
{
    match find_unsupported(&item.items) {
        Some(t) => {
            return Err(ExtError::UnsupportedMember(t));
        },
        None => {},
    }
    let ghost before = old(item)@;
    let mut items: Vec<Member> = Vec::new();
    let mut i: usize = 0;
    while i < item.items.len()
        invariant
            i <= item.items@.len(),
            item@ == before,
            items@.len() == i,
            forall|j: int| 0 <= j < i ==> items@[j]@ == stripped(item.items@[j]@),
        decreases item.items.len() - i,
    {
        items.push(strip_visibility(&item.items[i]));
        i += 1;
    }
    assert(members_view(items@) =~= before.items.map_values(|m: MemberView| stripped(m)));
    let mut args: Vec<GenericArg> = Vec::new();
    let mut k: usize = 0;
    while k < item.generics.params.len()
        invariant
            k <= item.generics.params@.len(),
            item@ == before,
            args@.len() == k,
            forall|j: int| 0 <= j < k ==> args@[j]@ == param_arg(item.generics.params@[j]@),
        decreases item.generics.params.len() - k,
    {
        args.push(convert_generic_param_to_args(&item.generics.params[k]));
        k += 1;
    }
    assert(args_view(args@) =~= project(before.generics.params));
    item.items = items;
    item.trait_ = Some(TraitRef { path: trait_ident, args });
    Ok(())
}

/// For each type constraint of the where-clause that bounds the self type,
/// adds the same constraint on `Self`, and for each one on `Self`, the same
/// on the self type. The copies follow the existing constraints, in order.
pub fn copy_appropriate_where_clause_type_from_and_to_self(item: &mut ImplBlock)
    ensures
        final(item)@ == (ImplBlockView {
            generics: relinked(old(item)@.generics, old(item)@.self_ty),
            ..old(item)@
        }),
{
    let ghost before = old(item)@;
    let mut alias = String::new();
    proof {
        reveal_strlit("Self");
    }
    alias.append("Self");
    assert(alias@ =~= self_alias());
    let mut wc: Option<Vec<Constraint>> = None;
    std::mem::swap(&mut wc, &mut item.generics.where_clause);
    match wc {
        Some(mut w) => {
            let ghost w0 = constraints_view(w@);
            let mut extra: Vec<Constraint> = Vec::new();
            let mut i: usize = 0;
            while i < w.len()
                invariant
                    i <= w@.len(),
                    constraints_view(w@) == w0,
                    alias@ == self_alias(),
                    item.self_ty@ == before.self_ty,
                    constraints_view(extra@) == linked_copies(
                        w0.subrange(0, i as int),
                        before.self_ty,
                    ),
                decreases w.len() - i,
            {
                let ghost prefix = w0.subrange(0, i + 1);
                assert(prefix.drop_last() =~= w0.subrange(0, i as int));
                match &w[i] {
                    Constraint::Type { lifetimes, bounded_ty, bounds } => {
                        if *bounded_ty == item.self_ty {
                            extra.push(
                                Constraint::Type {
                                    lifetimes: copy_opt_text(lifetimes),
                                    bounded_ty: alias.clone(),
                                    bounds: copy_texts(bounds),
                                },
                            );
                        } else if *bounded_ty == alias {
                            extra.push(
                                Constraint::Type {
                                    lifetimes: copy_opt_text(lifetimes),
                                    bounded_ty: item.self_ty.clone(),
                                    bounds: copy_texts(bounds),
                                },
                            );
                        }
                    },
                    Constraint::Lifetime { .. } => {},
                }
                assert(constraints_view(extra@) =~= linked_copies(prefix, before.self_ty));
                i += 1;
            }
            assert(w0.subrange(0, w@.len() as int) =~= w0);
            w.append(&mut extra);
            assert(constraints_view(w@) =~= w0 + linked_copies(w0, before.self_ty));
            item.generics.where_clause = Some(w);
        },
        None => {
            item.generics.where_clause = None;
        },
    }
    assert(item.generics@ == relinked(before.generics, before.self_ty));
}

} // verus!
