//! The addresses of this program and of the programs it works with, and the
//! seeds from which the fanout's own addresses derive.
use vstd::prelude::*;
use vstd::slice::slice_to_vec;
use vstd::utf8::encode_utf8;
use crate::instructions::initialize_fanout_v0::hash_name;
use crate::outside::{seeds_view, sha256};
use crate::pubkey::Pubkey;
use crate::state::FanoutV0;

verus! {

/// The address of this program: `fanqeMu3fw8R4LwKNbahPtYXJsyLL6NXyfe2BqzhfB6`.
pub const ID: [u8; 32] = [
    9, 226, 71, 15, 191, 173, 55, 15, 225, 163, 224, 185, 49, 213, 222, 60,
    170, 58, 88, 52, 231, 192, 84, 23, 228, 205, 62, 190, 211, 188, 108, 113,
];

/// The address of the token program:
/// `TokenkegQfeZyiNwAJbNbGKPFXCWuBvf9Ss623VQ5DA`.
pub const TOKEN_PROGRAM_ID: [u8; 32] = [
    6, 221, 246, 225, 215, 101, 161, 147, 217, 203, 225, 70, 206, 235, 121, 172,
    28, 180, 133, 237, 95, 91, 55, 145, 58, 140, 245, 133, 126, 255, 0, 169,
];

/// The address of the associated token account program:
/// `ATokenGPvbdGVxr1b2hvZbsiqW5xWH25efTNsLJA8knL`.
pub const ASSOCIATED_TOKEN_PROGRAM_ID: [u8; 32] = [
    140, 151, 37, 143, 78, 36, 137, 241, 187, 61, 16, 41, 20, 142, 13, 131,
    11, 90, 19, 153, 218, 255, 16, 132, 4, 142, 123, 216, 219, 233, 248, 89,
];

/// The address of this program.
pub fn id() -> (r: Pubkey)
    ensures
        r.bytes == ID,
{
    Pubkey { bytes: ID }
}

/// The seeds from which the address of `fanout` derives: the word `fanout`,
/// the digest of its name, and its bump seed.
pub open spec fn fanout_seeds_of(fanout: FanoutV0) -> Seq<Seq<u8>> {
    seq![encode_utf8("fanout"@), sha256(encode_utf8(fanout.name@)), seq![fanout.bump]]
}

/// The seeds from which the address of the queue authority derives: the
/// words `queue_authority` and the bump seed that `fanout` holds for it.
pub open spec fn queue_authority_seeds_of(fanout: FanoutV0) -> Seq<Seq<u8>> {
    seq![encode_utf8("queue_authority"@), seq![fanout.queue_authority_bump]]
}

/// The seeds with which `fanout` signs for its own address.
pub fn fanout_seeds(fanout: &FanoutV0) -> (r: Vec<Vec<u8>>)
    ensures
        seeds_view(r@) == fanout_seeds_of(*fanout),
{
    let digest = hash_name(fanout.name.as_str());
    let mut bump: Vec<u8> = Vec::new();
    bump.push(fanout.bump);
    let mut seeds: Vec<Vec<u8>> = Vec::new();
    seeds.push(slice_to_vec("fanout".as_bytes()));
    seeds.push(slice_to_vec(digest.as_slice()));
    seeds.push(bump);
    assert(seeds_view(seeds@) =~= fanout_seeds_of(*fanout));
    seeds
}

/// The seeds with which `fanout` signs for the queue authority.
pub fn queue_authority_seeds(fanout: &FanoutV0) -> (r: Vec<Vec<u8>>)
    ensures
        seeds_view(r@) == queue_authority_seeds_of(*fanout),
{
    let mut bump: Vec<u8> = Vec::new();
    bump.push(fanout.queue_authority_bump);
    let mut seeds: Vec<Vec<u8>> = Vec::new();
    seeds.push(slice_to_vec("queue_authority".as_bytes()));
    seeds.push(bump);
    assert(seeds_view(seeds@) =~= queue_authority_seeds_of(*fanout));
    seeds
}

} // verus!
