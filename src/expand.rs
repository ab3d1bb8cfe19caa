//! The whole transformation: an inherent impl block in, a trait declaration
//! and the block's impl of it out.
use crate::impl_to_trait::{to_trait, trait_of};
use crate::model::{
    ExtError, ExtErrorView, ImplBlock, ImplBlockView, MemberView, TraitDecl, TraitDeclView,
};
use crate::naming::{fingerprint, hash, trait_name, ExtArgs, ExtArgsView};
use crate::process_impl::{
    copy_appropriate_where_clause_type_from_and_to_self, first_unsupported,
    first_unsupported_from, make_trait_impl, move_bounds_to_where_clause, normalized, relinked,
    retargeted, stripped,
};
use vstd::prelude::*;

verus! {

/// The output of the transformation: the trait declaration, to be emitted
/// first, and the impl of it that the block became.
#[derive(Clone, Debug, PartialEq, Eq)]
pub struct Expansion {
    pub trait_def: TraitDecl,
    pub item: ImplBlock,
}

pub struct ExpansionView {
    pub trait_def: TraitDeclView,
    pub item: ImplBlockView,
}

impl View for Expansion {
    type V = ExpansionView;

    open spec fn view(&self) -> ExpansionView {
        ExpansionView { trait_def: self.trait_def@, item: self.item@ }
    }
}

pub open spec fn result_view(r: Result<Expansion, ExtError>) -> Result<ExpansionView, ExtErrorView> {
    match r {
        Ok(x) => Ok(x@),
        Err(e) => Err(e@),
    }
}

/// The block `input` as the impl of the trait `name`: bounds moved into the
/// where-clause, the trait target set, members without visibility, and
/// constraints on the self type under both spellings.
pub open spec fn expanded_block(input: ImplBlockView, name: Seq<char>) -> ImplBlockView {
    let target = retargeted(ImplBlockView { generics: normalized(input.generics), ..input }, name);
    ImplBlockView { generics: relinked(target.generics, target.self_ty), ..target }
}

/// What the transformation gives for the arguments `args`, the parsed block
/// `input` and the block's source text `raw`.
pub open spec fn ext_result(args: ExtArgsView, input: ImplBlockView, raw: Seq<u8>) -> Result<
    ExpansionView,
    ExtErrorView,
> {
    if input.trait_ is Some {
        Err(ExtErrorView::AlreadyImplementsInterface)
    } else {
        match first_unsupported(input.items) {
            Some(t) => Err(ExtErrorView::UnsupportedMember(t)),
            None => {
                let name = trait_name(args.ident, fingerprint(raw));
                let item = expanded_block(input, name);
                Ok(ExpansionView { trait_def: trait_of(item, args.vis, name), item })
            },
        }
    }
}

/// Where no member of `s` is unsupported, none of the same members without
/// visibility is.
proof fn lemma_stripped_supported(s: Seq<MemberView>)
    requires
        first_unsupported(s) is None,
    ensures
        first_unsupported(s.map_values(|m: MemberView| stripped(m))) is None,
{
    let t = s.map_values(|m: MemberView| stripped(m));
    lemma_stripped_supported_from(s, t, 0);
}

proof fn lemma_stripped_supported_from(s: Seq<MemberView>, t: Seq<MemberView>, i: int)
    requires
        0 <= i,
        first_unsupported_from(s, i) is None,
        t == s.map_values(|m: MemberView| stripped(m)),
    ensures
        first_unsupported_from(t, i) is None,
    decreases s.len() - i,
{
    if i < s.len() {
        lemma_stripped_supported_from(s, t, i + 1);
    }
}

/// Turns the inherent block `input` into a trait declaration and an impl of
/// that trait for the block's type. `raw` is the block's source text, whose
/// fingerprint names the trait when `args` gives no name.
pub fn ext(args: ExtArgs, input: ImplBlock, raw: &[u8]) -> (r: Result<Expansion, ExtError>)
    ensures
        result_view(r) == ext_result(args@, input@, raw@),
{
    let input_hash = hash(raw);
    let mut item = input;
    if item.trait_.is_some() {
        return Err(ExtError::AlreadyImplementsInterface);
    }
    move_bounds_to_where_clause(&mut item);
    let name = args.trait_ident(input_hash);
    let ghost normal = item@;
    match make_trait_impl(&mut item, name.clone()) {
        Ok(()) => {},
        Err(e) => {
            return Err(e);
        },
    }
    copy_appropriate_where_clause_type_from_and_to_self(&mut item);
    proof {
        lemma_stripped_supported(normal.items);
    }
    match to_trait(&item, args.vis, name) {
        Ok(trait_def) => Ok(Expansion { trait_def, item }),
        Err(e) => {
            proof {
                assert(false);
            }
            Err(e)
        },
    }
}

} // verus!
