//! The trait declaration made out of an impl block.
use crate::model::{
    copy_texts, opt_text, trait_members_view, ExtError, ExtErrorView, ImplBlock,
    ImplBlockView, Member, MemberView, TraitDecl, TraitDeclView, TraitMember, TraitMemberView,
};
use crate::process_impl::{find_unsupported, first_unsupported, lemma_supported_at};
use vstd::prelude::*;

verus! {

/// The declaration of a member in a trait: a method keeps its signature, a
/// constant its name and type, an associated type its name, generics and
/// bounds; macro invocations and verbatim members are kept whole.
pub open spec fn declared(m: MemberView) -> TraitMemberView
    recommends
        !(m is Other),
{
    match m {
        MemberView::Method { attrs, sig, .. } => TraitMemberView::Method { attrs, sig },
        MemberView::Const { attrs, ident, ty, .. } => TraitMemberView::Const { attrs, ident, ty },
        MemberView::Type { attrs, ident, generics, bounds, .. } => TraitMemberView::Type {
            attrs,
            ident,
            generics,
            bounds,
        },
        MemberView::Macro { attrs, mac, semi } => TraitMemberView::Macro { attrs, mac, semi },
        MemberView::Verbatim(t) => TraitMemberView::Verbatim(t),
        MemberView::Other(_) => arbitrary(),
    }
}

/// The trait declared by the block `b`, under the name `name`.
pub open spec fn trait_of(b: ImplBlockView, vis: Option<Seq<char>>, name: Seq<char>) -> TraitDeclView {
    TraitDeclView {
        attrs: b.attrs,
        vis,
        unsafety: b.unsafety,
        ident: name,
        generics: b.generics,
        items: b.items.map_values(|m: MemberView| declared(m)),
    }
}

fn convert_method(m: &Member) -> (r: TraitMember)
    requires
        m is Method,
    ensures
        r@ == declared(m@),
{
    match m {
        Member::Method { attrs, sig, .. } => TraitMember::Method {
            attrs: copy_texts(attrs),
            sig: sig.clone(),
        },
        _ => {
            proof {
                assert(false);
            }
            TraitMember::Verbatim(String::new())
        },
    }
}

fn convert_constant(c: &Member) -> (r: TraitMember)
    requires
        c is Const,
    ensures
        r@ == declared(c@),
{
    match c {
        Member::Const { attrs, ident, ty, .. } => TraitMember::Const {
            attrs: copy_texts(attrs),
            ident: ident.clone(),
            ty: ty.clone(),
        },
        _ => {
            proof {
                assert(false);
            }
            TraitMember::Verbatim(String::new())
        },
    }
}

fn convert_type(t: &Member) -> (r: TraitMember)
    requires
        t is Type,
    ensures
        r@ == declared(t@),
{
    match t {
        Member::Type { attrs, ident, generics, bounds, .. } => TraitMember::Type {
            attrs: copy_texts(attrs),
            ident: ident.clone(),
            generics: generics.copy(),
            bounds: copy_texts(bounds),
        },
        _ => {
            proof {
                assert(false);
            }
            TraitMember::Verbatim(String::new())
        },
    }
}

fn convert_macro(m: &Member) -> (r: TraitMember)
    requires
        m is Macro,
    ensures
        r@ == declared(m@),
{
    match m {
        Member::Macro { attrs, mac, semi } => TraitMember::Macro {
            attrs: copy_texts(attrs),
            mac: mac.clone(),
            semi: *semi,
        },
        _ => {
            proof {
                assert(false);
            }
            TraitMember::Verbatim(String::new())
        },
    }
}

/// The declaration of the member `i` in a trait, or the error that names it
/// when its shape is not handled.
pub fn convert_item(i: &Member) -> (r: Result<TraitMember, ExtError>)
    ensures
        match i@ {
            MemberView::Other(t) => r matches Err(e) && e@ == ExtErrorView::UnsupportedMember(t),
            _ => r matches Ok(d) && d@ == declared(i@),
        },
{
    match i {
        Member::Const { .. } => Ok(convert_constant(i)),
        Member::Method { .. } => Ok(convert_method(i)),
        Member::Type { .. } => Ok(convert_type(i)),
        Member::Macro { .. } => Ok(convert_macro(i)),
        Member::Verbatim(s) => Ok(TraitMember::Verbatim(s.clone())),
        Member::Other(s) => Err(ExtError::UnsupportedMember(s.clone())),
    }
}

/// The trait `trait_ident` with visibility `vis` that declares the members
/// of the block `i`, with the block's attributes, safety and generics.
pub fn to_trait(i: &ImplBlock, vis: Option<String>, trait_ident: String) -> (r: Result<
    TraitDecl,
    ExtError,
>)
    ensures
        match first_unsupported(i@.items) {
            Some(t) => r matches Err(e) && e@ == ExtErrorView::UnsupportedMember(t),
            None => r matches Ok(d) && d@ == trait_of(i@, opt_text(vis), trait_ident@),
        },
{
    match find_unsupported(&i.items) {
        Some(t) => {
            return Err(ExtError::UnsupportedMember(t));
        },
        None => {},
    }
    let mut items: Vec<TraitMember> = Vec::new();
    let mut k: usize = 0;
    while k < i.items.len()
        invariant
            k <= i.items@.len(),
            first_unsupported(i@.items) is None,
            items@.len() == k,
            forall|j: int| 0 <= j < k ==> items@[j]@ == declared(i.items@[j]@),
        decreases i.items.len() - k,
    {
        proof {
            lemma_supported_at(i@.items, k as int);
        }
        match convert_item(&i.items[k]) {
            Ok(d) => items.push(d),
            Err(e) => {
                proof {
                    assert(false);
                }
                return Err(e);
            },
        }
        k += 1;
    }
    assert(trait_members_view(items@) =~= i@.items.map_values(|m: MemberView| declared(m)));
    Ok(
        TraitDecl {
            attrs: copy_texts(&i.attrs),
            vis,
            unsafety: i.unsafety,
            ident: trait_ident,
            generics: i.generics.copy(),
            items,
        },
    )
}

} // verus!
