//! The name of the generated trait: given by the caller, or derived from a
//! fingerprint of the block's source text.
use vstd::prelude::*;

verus! {

/// The offset basis of 64-bit FNV-1a, the seed that `hash` uses.
pub const FNV_OFFSET_BASIS: u64 = 0xcbf29ce484222325;

/// The prime of 64-bit FNV-1a.
pub const FNV_PRIME: u64 = 0x100000001b3;

/// 64-bit FNV-1a over `s`, starting from `seed`.
pub open spec fn fnv1a(seed: u64, s: Seq<u8>) -> u64
    decreases s.len(),
{
    if s.len() == 0 {
        seed
    } else {
        (fnv1a(seed, s.drop_last()) ^ (s.last() as u64)).wrapping_mul(FNV_PRIME)
    }
}

/// The fingerprint of a block's source text.
pub open spec fn fingerprint(s: Seq<u8>) -> u64 {
    fnv1a(FNV_OFFSET_BASIS, s)
}

/// Fingerprint of `bytes` by 64-bit FNV-1a, starting from `seed` in place of
/// the standard offset basis.
pub fn hash_seeded(seed: u64, bytes: &[u8]) -> (r: u64)
    ensures
        r == fnv1a(seed, bytes@),
{
    let mut h: u64 = seed;
    let mut i: usize = 0;
    while i < bytes.len()
        invariant
            i <= bytes@.len(),
            h == fnv1a(seed, bytes@.subrange(0, i as int)),
        decreases bytes.len() - i,
    {
        proof {
            let next = bytes@.subrange(0, i + 1);
            assert(next.drop_last() =~= bytes@.subrange(0, i as int));
        }
        h = (h ^ (bytes[i] as u64)).wrapping_mul(FNV_PRIME);
        i += 1;
    }
    assert(bytes@.subrange(0, bytes@.len() as int) =~= bytes@);
    h
}

/// The fingerprint of a block's source text: identical texts give identical
/// fingerprints.
pub fn hash(bytes: &[u8]) -> (r: u64)
    ensures
        r == fingerprint(bytes@),
{
    hash_seeded(FNV_OFFSET_BASIS, bytes)
}

/// The decimal digit `d`, for `d < 10`.
pub open spec fn digit_char(d: nat) -> char {
    seq!['0', '1', '2', '3', '4', '5', '6', '7', '8', '9'][d as int]
}

/// The decimal representation of `n`, without leading zeros.
pub open spec fn decimal(n: nat) -> Seq<char>
    decreases n,
{
    if n < 10 {
        seq![digit_char(n)]
    } else {
        decimal(n / 10).push(digit_char(n % 10))
    }
}

/// The prefix of every derived trait name.
pub open spec fn derived_prefix() -> Seq<char> {
    seq!['_', '_', 'E', 'x', 't', 'T', 'r', 'a', 'i', 't']
}

/// The trait name derived from a fingerprint.
pub open spec fn derived_name(fp: u64) -> Seq<char> {
    derived_prefix() + decimal(fp as nat)
}

fn digit_str(d: u64) -> (r: &'static str)
    requires
        d < 10,
    ensures
        r@ == seq![digit_char(d as nat)],
{
    proof {
        reveal_strlit("0");
        reveal_strlit("1");
        reveal_strlit("2");
        reveal_strlit("3");
        reveal_strlit("4");
        reveal_strlit("5");
        reveal_strlit("6");
        reveal_strlit("7");
        reveal_strlit("8");
        reveal_strlit("9");
    }
    let r = match d {
        0 => "0",
        1 => "1",
        2 => "2",
        3 => "3",
        4 => "4",
        5 => "5",
        6 => "6",
        7 => "7",
        8 => "8",
        _ => "9",
    };
    assert(r@ =~= seq![digit_char(d as nat)]);
    r
}

/// Appends the decimal representation of `n` to `s`.
fn push_decimal(s: &mut String, n: u64)
    ensures
        final(s)@ == old(s)@ + decimal(n as nat),
    decreases n,
{
    if n >= 10 {
        push_decimal(s, n / 10);
    }
    s.append(digit_str(n % 10));
    assert(final(s)@ =~= old(s)@ + decimal(n as nat));
}

/// The arguments of the transformation: the visibility of the trait, and
/// its name when the caller gives one.
#[derive(Clone, Debug, PartialEq, Eq)]
pub struct ExtArgs {
    pub vis: Option<String>,
    pub ident: Option<String>,
}

pub struct ExtArgsView {
    pub vis: Option<Seq<char>>,
    pub ident: Option<Seq<char>>,
}

impl View for ExtArgs {
    type V = ExtArgsView;

    open spec fn view(&self) -> ExtArgsView {
        ExtArgsView { vis: crate::model::opt_text(self.vis), ident: crate::model::opt_text(self.ident) }
    }
}

/// The name of the trait: the one given, else the name derived from the
/// fingerprint of the block's text.
pub open spec fn trait_name(ident: Option<Seq<char>>, input_hash: u64) -> Seq<char> {
    match ident {
        Some(i) => i,
        None => derived_name(input_hash),
    }
}

impl ExtArgs {
    /// The trait's name, given `input_hash`, the fingerprint of the block.
    pub fn trait_ident(&self, input_hash: u64) -> (r: String)
        ensures
            r@ == trait_name(self@.ident, input_hash),
    {
        match &self.ident {
            Some(i) => i.clone(),
            None => {
                let mut s = String::new();
                proof {
                    reveal_strlit("__ExtTrait");
                }
                s.append("__ExtTrait");
                push_decimal(&mut s, input_hash);
                assert(s@ =~= derived_name(input_hash));
                s
            },
        }
    }
}

} // verus!
