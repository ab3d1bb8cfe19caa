//! Properties of the transformation as a whole.
use crate::expand::{expanded_block, ext_result};
use crate::impl_to_trait::declared;
use crate::model::{
    ConstraintView, ExtErrorView, GenericParamView, GenericsView, ImplBlockView, MemberView,
    TraitMemberView, TraitRefView,
};
use crate::naming::{derived_name, fingerprint, trait_name, ExtArgsView};
use crate::process_impl::{
    lemma_supported_at, linked_copies, linked_copy, normalized, param_arg, project,
    self_alias, stripped, unbounded,
};
use vstd::prelude::*;

verus! {

/// A block that already implements a trait is refused, and nothing is made.
pub proof fn lemma_rejects_trait_impls(args: ExtArgsView, input: ImplBlockView, raw: Seq<u8>)
    requires
        input.trait_ is Some,
    ensures
        ext_result(args, input, raw) == Err::<crate::expand::ExpansionView, ExtErrorView>(
            ExtErrorView::AlreadyImplementsInterface,
        ),
{
}

/// Without a given name, the trait's name depends on the block's source text
/// alone: two transformations of the same text name their traits alike,
/// whatever the visibility asked for and however the text was parsed.
pub proof fn lemma_derived_name_deterministic(
    a1: ExtArgsView,
    a2: ExtArgsView,
    b1: ImplBlockView,
    b2: ImplBlockView,
    raw: Seq<u8>,
)
    requires
        a1.ident is None,
        a2.ident is None,
        ext_result(a1, b1, raw) is Ok,
        ext_result(a2, b2, raw) is Ok,
    ensures
        ext_result(a1, b1, raw)->Ok_0.trait_def.ident == ext_result(a2, b2, raw)->Ok_0.trait_def.ident,
        ext_result(a1, b1, raw)->Ok_0.trait_def.ident == derived_name(fingerprint(raw)),
{
}

/// The trait and the impl have as many members as the block, each at the
/// position of the member it comes from: the trait declares it, the impl
/// keeps it without its visibility.
pub proof fn lemma_members_in_order(args: ExtArgsView, input: ImplBlockView, raw: Seq<u8>)
    requires
        ext_result(args, input, raw) is Ok,
    ensures
        ext_result(args, input, raw)->Ok_0.trait_def.items.len() == input.items.len(),
        ext_result(args, input, raw)->Ok_0.item.items.len() == input.items.len(),
        forall|i: int|
            0 <= i < input.items.len() ==> {
                &&& #[trigger] ext_result(args, input, raw)->Ok_0.trait_def.items[i] == declared(
                    input.items[i],
                )
                &&& ext_result(args, input, raw)->Ok_0.item.items[i] == stripped(input.items[i])
            },
{
}

/// A trait member and an impl member have the same signature: the same
/// attributes, and the same signature of a method, name and type of a
/// constant, name, generics and bounds of an associated type, or the same
/// macro invocation or verbatim text.
pub open spec fn same_signature(d: TraitMemberView, m: MemberView) -> bool {
    match (d, m) {
        (TraitMemberView::Method { attrs, sig }, MemberView::Method { attrs: a, sig: s, .. }) => {
            attrs == a && sig == s
        },
        (
            TraitMemberView::Const { attrs, ident, ty },
            MemberView::Const { attrs: a, ident: i, ty: t, .. },
        ) => attrs == a && ident == i && ty == t,
        (
            TraitMemberView::Type { attrs, ident, generics, bounds },
            MemberView::Type { attrs: a, ident: i, generics: g, bounds: b, .. },
        ) => attrs == a && ident == i && generics == g && bounds == b,
        (TraitMemberView::Macro { attrs, mac, semi }, MemberView::Macro { attrs: a, mac: x, semi: s }) => {
            attrs == a && mac == x && semi == s
        },
        (TraitMemberView::Verbatim(t), MemberView::Verbatim(u)) => t == u,
        _ => false,
    }
}

/// Each member of the trait has the signature of the impl member at its
/// position; the impl member is the block's member, its visibility removed,
/// its body, value or definition untouched.
pub proof fn lemma_signature_fidelity(args: ExtArgsView, input: ImplBlockView, raw: Seq<u8>)
    requires
        ext_result(args, input, raw) is Ok,
    ensures
        forall|i: int|
            0 <= i < input.items.len() ==> same_signature(
                #[trigger] ext_result(args, input, raw)->Ok_0.trait_def.items[i],
                ext_result(args, input, raw)->Ok_0.item.items[i],
            ),
        forall|i: int|
            0 <= i < input.items.len() ==> {
                let m = #[trigger] ext_result(args, input, raw)->Ok_0.item.items[i];
                match (input.items[i], m) {
                    (MemberView::Method { attrs, sig, block, .. }, MemberView::Method { attrs: a, vis, sig: s, block: b }) => {
                        attrs == a && sig == s && block == b && vis is None
                    },
                    (MemberView::Const { attrs, ident, ty, expr, .. }, MemberView::Const { attrs: a, vis, ident: n, ty: t, expr: e }) => {
                        attrs == a && ident == n && ty == t && expr == e && vis is None
                    },
                    (MemberView::Type { attrs, ident, generics, bounds, ty, .. }, MemberView::Type { attrs: a, vis, ident: n, generics: g, bounds: b, ty: t }) => {
                        attrs == a && ident == n && generics == g && bounds == b && ty == t && vis is None
                    },
                    (MemberView::Macro { .. }, _) | (MemberView::Verbatim(_), _) => m == input.items[i],
                    _ => false,
                }
            },
{
    let x = ext_result(args, input, raw)->Ok_0;
    assert forall|i: int| 0 <= i < input.items.len() implies same_signature(
        #[trigger] x.trait_def.items[i],
        x.item.items[i],
    ) by {
        assert(!(input.items[i] is Other)) by {
            lemma_supported_at(input.items, i);
        }
    }
    assert forall|i: int| 0 <= i < input.items.len() implies {
        let m = #[trigger] x.item.items[i];
        match (input.items[i], m) {
            (MemberView::Method { attrs, sig, block, .. }, MemberView::Method { attrs: a, vis, sig: s, block: b }) => {
                attrs == a && sig == s && block == b && vis is None
            },
            (MemberView::Const { attrs, ident, ty, expr, .. }, MemberView::Const { attrs: a, vis, ident: n, ty: t, expr: e }) => {
                attrs == a && ident == n && ty == t && expr == e && vis is None
            },
            (MemberView::Type { attrs, ident, generics, bounds, ty, .. }, MemberView::Type { attrs: a, vis, ident: n, generics: g, bounds: b, ty: t }) => {
                attrs == a && ident == n && generics == g && bounds == b && ty == t && vis is None
            },
            (MemberView::Macro { .. }, _) | (MemberView::Verbatim(_), _) => m == input.items[i],
            _ => false,
        }
    } by {
        lemma_supported_at(input.items, i);
    }
}

/// The impl names the trait with one argument per generic parameter of the
/// block, in declaration order, each the parameter's name alone: where a
/// parameter's bounds were written does not change the arguments.
pub proof fn lemma_projection_order(args: ExtArgsView, input: ImplBlockView, raw: Seq<u8>)
    requires
        ext_result(args, input, raw) is Ok,
    ensures
        ext_result(args, input, raw)->Ok_0.item.trait_ == Some(
            TraitRefView {
                path: trait_name(args.ident, fingerprint(raw)),
                args: project(input.generics.params),
            },
        ),
        project(input.generics.params).len() == input.generics.params.len(),
        forall|i: int|
            0 <= i < input.generics.params.len() ==> #[trigger] project(input.generics.params)[i]
                == param_arg(input.generics.params[i]),
{
    lemma_projection_ignores_bounds(input.generics.params);
}

/// Taking the bounds off the parameters leaves their projection unchanged.
pub proof fn lemma_projection_ignores_bounds(ps: Seq<GenericParamView>)
    ensures
        project(normalized(GenericsView { params: ps, where_clause: None }).params) == project(ps),
{
    let us = ps.map_values(|p: GenericParamView| unbounded(p));
    assert(project(us) =~= project(ps));
}

/// The same constraint on the type `ty`.
pub open spec fn respelled(c: ConstraintView, ty: Seq<char>) -> ConstraintView {
    match c {
        ConstraintView::Type { lifetimes, bounds, .. } => ConstraintView::Type {
            lifetimes,
            bounded_ty: ty,
            bounds,
        },
        _ => c,
    }
}

/// Whether `c` bounds the type `ty`.
pub open spec fn bounds_type(c: ConstraintView, ty: Seq<char>) -> bool {
    c matches ConstraintView::Type { bounded_ty, .. } && bounded_ty == ty
}

/// Every linked copy comes from a constraint of `cs`, and every constraint
/// with a linked copy has it in the list.
proof fn lemma_linked_copies(cs: Seq<ConstraintView>, self_ty: Seq<char>)
    ensures
        forall|k: int|
            0 <= k < linked_copies(cs, self_ty).len() ==> exists|i: int|
                0 <= i < cs.len() && linked_copy(#[trigger] cs[i], self_ty) == Some(
                    #[trigger] linked_copies(cs, self_ty)[k],
                ),
        forall|i: int|
            0 <= i < cs.len() && (#[trigger] linked_copy(cs[i], self_ty)) is Some ==> linked_copies(
                cs,
                self_ty,
            ).contains(linked_copy(cs[i], self_ty)->Some_0),
    decreases cs.len(),
{
    if cs.len() > 0 {
        let front = cs.drop_last();
        lemma_linked_copies(front, self_ty);
        let lc = linked_copies(cs, self_ty);
        let lf = linked_copies(front, self_ty);
        assert forall|k: int| 0 <= k < lc.len() implies exists|i: int|
            0 <= i < cs.len() && linked_copy(#[trigger] cs[i], self_ty) == Some(
                #[trigger] lc[k],
            ) by {
            if k < lf.len() {
                assert(lc[k] == lf[k]);
                let i = choose|i: int|
                    0 <= i < front.len() && linked_copy(#[trigger] front[i], self_ty) == Some(
                        #[trigger] lf[k],
                    );
                assert(cs[i] == front[i]);
            } else {
                assert(cs[cs.len() - 1] == cs.last());
            }
        }
        assert forall|i: int|
            0 <= i < cs.len() && (#[trigger] linked_copy(cs[i], self_ty)) is Some implies lc.contains(
            linked_copy(cs[i], self_ty)->Some_0,
        ) by {
            let c = linked_copy(cs[i], self_ty)->Some_0;
            if i < front.len() {
                assert(front[i] == cs[i]);
                assert(lf.contains(c));
                let k = choose|k: int| 0 <= k < lf.len() && lf[k] == c;
                assert(lc[k] == lf[k]);
            } else {
                assert(lc[lc.len() - 1] == c);
            }
        }
    }
}

/// After the transformation, every type constraint on the block's self type
/// has its twin on `Self`, with the same binder and bounds, and every one on
/// `Self` its twin on the self type. The where-clause starts with the
/// constraints it had before, and each added constraint bounds the self type
/// or `Self`: none unrelated to them is repeated.
pub proof fn lemma_constraint_symmetry(args: ExtArgsView, input: ImplBlockView, raw: Seq<u8>)
    requires
        ext_result(args, input, raw) is Ok,
    ensures
        ({
            let g = ext_result(args, input, raw)->Ok_0.item.generics;
            let before = normalized(input.generics).where_clause;
            match g.where_clause {
                Some(w) => {
                    &&& before is Some
                    &&& w.subrange(0, before->Some_0.len() as int) == before->Some_0
                    &&& forall|i: int|
                        before->Some_0.len() <= i < w.len() ==> bounds_type(#[trigger] w[i], input.self_ty)
                            || bounds_type(w[i], self_alias())
                    &&& forall|i: int|
                        0 <= i < w.len() && bounds_type(#[trigger] w[i], input.self_ty) ==> w.contains(
                            respelled(w[i], self_alias()),
                        )
                    &&& forall|i: int|
                        0 <= i < w.len() && bounds_type(#[trigger] w[i], self_alias()) ==> w.contains(
                            respelled(w[i], input.self_ty),
                        )
                },
                None => before is None,
            }
        }),
{
    let name = trait_name(args.ident, fingerprint(raw));
    let item = expanded_block(input, name);
    let before = normalized(input.generics).where_clause;
    if let Some(cs) = before {
        let st = input.self_ty;
        let lc = linked_copies(cs, st);
        let w = cs + lc;
        assert(item.generics.where_clause == Some(w));
        lemma_linked_copies(cs, st);
        assert(w.subrange(0, cs.len() as int) =~= cs);
        assert forall|i: int| cs.len() <= i < w.len() implies bounds_type(#[trigger] w[i], st)
            || bounds_type(w[i], self_alias()) by {
            let k = i - cs.len();
            assert(w[i] == lc[k]);
            let j = choose|j: int| 0 <= j < cs.len() && linked_copy(#[trigger] cs[j], st) == Some(#[trigger] lc[k]);
        }
        assert forall|i: int| 0 <= i < w.len() && bounds_type(#[trigger] w[i], st) implies w.contains(
            respelled(w[i], self_alias()),
        ) by {
            lemma_twin(cs, st, i, true);
        }
        assert forall|i: int| 0 <= i < w.len() && bounds_type(#[trigger] w[i], self_alias()) implies w.contains(
            respelled(w[i], st),
        ) by {
            lemma_twin(cs, st, i, false);
        }
    }
}

/// The twin of the `i`-th constraint of `cs` followed by its linked copies.
proof fn lemma_twin(cs: Seq<ConstraintView>, st: Seq<char>, i: int, on_self_ty: bool)
    requires
        0 <= i < cs.len() + linked_copies(cs, st).len(),
        on_self_ty ==> bounds_type((cs + linked_copies(cs, st))[i], st),
        !on_self_ty ==> bounds_type((cs + linked_copies(cs, st))[i], self_alias()),
    ensures
        ({
            let w = cs + linked_copies(cs, st);
            let other = if on_self_ty { self_alias() } else { st };
            w.contains(respelled(w[i], other))
        }),
{
    lemma_linked_copies(cs, st);
    let lc = linked_copies(cs, st);
    let w = cs + lc;
    let other = if on_self_ty { self_alias() } else { st };
    let target = respelled(w[i], other);
    if st == self_alias() {
        assert(target == w[i]);
        assert(w[i] == w[i]);
    } else if i < cs.len() {
        assert(w[i] == cs[i]);
        assert(linked_copy(cs[i], st) == Some(target));
        let k = choose|k: int| 0 <= k < lc.len() && lc[k] == target;
        assert(w[cs.len() + k] == target);
    } else {
        let k = i - cs.len();
        assert(w[i] == lc[k]);
        let j = choose|j: int| 0 <= j < cs.len() && linked_copy(#[trigger] cs[j], st) == Some(#[trigger] lc[k]);
        assert(w[j] == cs[j]);
        assert(cs[j] == target);
    }
}

} // verus!
