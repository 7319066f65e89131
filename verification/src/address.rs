//! Program-derived addresses: the seed layouts this program uses, and the derivation
//! itself, which the Solana address library computes.
use vstd::prelude::*;

use crate::pubkey::Pubkey;
use crate::state::Battle;

verus! {

/// What `Pubkey::try_find_program_address` returns for these seed bytes and this
/// program id, as plain values: the derived address's bytes and its bump seed, or
/// `None` when no bump seed gives a valid address.
pub uninterp spec fn derived_program_address(seeds: Seq<Seq<u8>>, program_id: Seq<u8>) -> Option<
    (Seq<u8>, u8),
>;

/// An address and bump found at run time, as plain values.
pub open spec fn derivation_view(found: Option<(Pubkey, u8)>) -> Option<(Seq<u8>, u8)> {
    match found {
        Some((address, bump)) => Some((address@, bump)),
        None => None,
    }
}

/// Calls `Pubkey::try_find_program_address` of the Solana address library (re-exported
/// by `anchor_lang`). The contract claims only that the result is a function of the seed
/// bytes and the program id, named `derived_program_address`; the SHA-256 search for a
/// bump seed that puts the address off the ed25519 curve is not restated here.
#[verifier::external_body]
fn try_find_program_address(seeds: &Vec<Vec<u8>>, program_id: &Pubkey) -> (res: Option<
    (Pubkey, u8),
>)
    ensures
        derivation_view(res) == derived_program_address(seeds.deep_view(), program_id@),
{
    let seed_slices: Vec<&[u8]> = seeds.iter().map(|seed| seed.as_slice()).collect();
    let program = anchor_lang::prelude::Pubkey::new_from_array(program_id.bytes);
    match anchor_lang::prelude::Pubkey::try_find_program_address(&seed_slices, &program) {
        Some((address, bump)) => Some((Pubkey { bytes: address.to_bytes() }, bump)),
        None => None,
    }
}

/// The ASCII bytes of `vault`.
pub open spec fn vault_tag() -> Seq<u8> {
    seq![118u8, 97, 117, 108, 116]
}

/// The ASCII bytes of `asset_vault`.
pub open spec fn asset_vault_tag() -> Seq<u8> {
    seq![97u8, 115, 115, 101, 116, 95, 118, 97, 117, 108, 116]
}

/// The ASCII bytes of `battle`.
pub open spec fn battle_tag() -> Seq<u8> {
    seq![98u8, 97, 116, 116, 108, 101]
}

/// The ASCII bytes of `pool`.
pub open spec fn pool_tag() -> Seq<u8> {
    seq![112u8, 111, 111, 108]
}

/// Seeds of a trader's settlement-token vault in one battle.
pub open spec fn vault_seeds(battle: Pubkey, trader: Pubkey) -> Seq<Seq<u8>> {
    seq![vault_tag(), battle@, trader@]
}

/// Seeds of a trader's vault for a non-settlement mint in one battle.
pub open spec fn asset_vault_seeds(battle: Pubkey, trader: Pubkey, mint: Pubkey) -> Seq<Seq<u8>> {
    seq![asset_vault_tag(), battle@, trader@, mint@]
}

/// Seeds of a battle account.
pub open spec fn battle_seeds(battle_id: [u8; 32]) -> Seq<Seq<u8>> {
    seq![battle_tag(), battle_id@]
}

/// Seeds of the mock router's pool authority.
pub open spec fn pool_seeds() -> Seq<Seq<u8>> {
    seq![pool_tag()]
}

/// Seeds of the vault in which `trader` holds `mint` during `battle`: the settlement
/// vault for the battle's settlement mint, an asset vault for any other mint.
pub open spec fn player_vault_seeds(battle: Battle, battle_key: Pubkey, trader: Pubkey, mint: Pubkey) -> Seq<
    Seq<u8>,
> {
    if mint == battle.settlement_mint {
        vault_seeds(battle_key, trader)
    } else {
        asset_vault_seeds(battle_key, trader, mint)
    }
}

/// Seeds with the bump seed appended, as a program signs with them.
pub open spec fn with_bump(seeds: Seq<Seq<u8>>, bump: u8) -> Seq<Seq<u8>> {
    seeds.push(seq![bump])
}

proof fn lemma_byte_vec_deep_view(v: Vec<u8>)
    ensures
        v.deep_view() == v@,
{
    assert(v.deep_view() =~= v@);
}

/// A seed list's bytes, seed by seed.
proof fn lemma_seed_list_deep_view(s: Vec<Vec<u8>>)
    ensures
        s.deep_view() =~= Seq::new(s.len() as nat, |i: int| s@[i]@),
{
    assert forall|i: int| 0 <= i < s.len() implies s.deep_view()[i] == s@[i]@ by {
        lemma_byte_vec_deep_view(s@[i]);
    }
}

/// The 32 bytes as a vector.
fn bytes_vec(bytes: &[u8; 32]) -> (v: Vec<u8>)
    ensures
        v@ == bytes@,
{
    let mut v: Vec<u8> = Vec::new();
    let mut i: usize = 0;
    while i < 32
        invariant
            i <= 32,
            v@ == bytes@.take(i as int),
        decreases 32 - i,
    {
        v.push(bytes[i]);
        i = i + 1;
        assert(v@ =~= bytes@.take(i as int));
    }
    assert(bytes@.take(32) =~= bytes@);
    v
}

fn vault_tag_vec() -> (v: Vec<u8>)
    ensures
        v@ == vault_tag(),
{
    let v = vec![118u8, 97, 117, 108, 116];
    assert(v@ =~= vault_tag());
    v
}

fn asset_vault_tag_vec() -> (v: Vec<u8>)
    ensures
        v@ == asset_vault_tag(),
{
    let v = vec![97u8, 115, 115, 101, 116, 95, 118, 97, 117, 108, 116];
    assert(v@ =~= asset_vault_tag());
    v
}

fn battle_tag_vec() -> (v: Vec<u8>)
    ensures
        v@ == battle_tag(),
{
    let v = vec![98u8, 97, 116, 116, 108, 101];
    assert(v@ =~= battle_tag());
    v
}

fn pool_tag_vec() -> (v: Vec<u8>)
    ensures
        v@ == pool_tag(),
{
    let v = vec![112u8, 111, 111, 108];
    assert(v@ =~= pool_tag());
    v
}

/// The seeds of a trader's settlement-token vault, as bytes.
pub fn vault_seed_bytes(battle: &Pubkey, trader: &Pubkey) -> (s: Vec<Vec<u8>>)
    ensures
        s.deep_view() == vault_seeds(*battle, *trader),
{
    let mut s: Vec<Vec<u8>> = Vec::new();
    s.push(vault_tag_vec());
    s.push(bytes_vec(&battle.bytes));
    s.push(bytes_vec(&trader.bytes));
    proof {
        lemma_seed_list_deep_view(s);
    }
    assert(s.deep_view() =~= vault_seeds(*battle, *trader));
    s
}

/// The seeds of a trader's asset vault, as bytes.
pub fn asset_vault_seed_bytes(battle: &Pubkey, trader: &Pubkey, mint: &Pubkey) -> (s: Vec<Vec<u8>>)
    ensures
        s.deep_view() == asset_vault_seeds(*battle, *trader, *mint),
{
    let mut s: Vec<Vec<u8>> = Vec::new();
    s.push(asset_vault_tag_vec());
    s.push(bytes_vec(&battle.bytes));
    s.push(bytes_vec(&trader.bytes));
    s.push(bytes_vec(&mint.bytes));
    proof {
        lemma_seed_list_deep_view(s);
    }
    assert(s.deep_view() =~= asset_vault_seeds(*battle, *trader, *mint));
    s
}

/// The seeds of the mock router's pool authority, as bytes.
pub fn pool_seed_bytes() -> (s: Vec<Vec<u8>>)
    ensures
        s.deep_view() == pool_seeds(),
{
    let mut s: Vec<Vec<u8>> = Vec::new();
    s.push(pool_tag_vec());
    proof {
        lemma_seed_list_deep_view(s);
    }
    assert(s.deep_view() =~= pool_seeds());
    s
}

/// Appends the bump seed to `seeds`.
pub fn push_bump(seeds: &mut Vec<Vec<u8>>, bump: u8)
    ensures
        final(seeds).deep_view() == with_bump(old(seeds).deep_view(), bump),
{
    let ghost before = seeds.deep_view();
    let b = vec![bump];
    assert(b@ =~= seq![bump]);
    proof {
        lemma_byte_vec_deep_view(b);
    }
    seeds.push(b);
    assert(seeds.deep_view() =~= with_bump(before, bump));
}

/// The seeds of the vault in which `trader` holds `mint` during `battle`, as bytes.
pub fn player_vault_seed_bytes(battle: &Battle, battle_key: &Pubkey, trader: &Pubkey, mint: &Pubkey) -> (s: Vec<Vec<u8>>)
    ensures
        s.deep_view() == player_vault_seeds(*battle, *battle_key, *trader, *mint),
{
    if *mint == battle.settlement_mint {
        vault_seed_bytes(battle_key, trader)
    } else {
        asset_vault_seed_bytes(battle_key, trader, mint)
    }
}

/// The address and bump of the vault in which `actor` holds `mint` during the battle
/// stored at `battle_key`, derived under `program_id`; `None` when no bump seed gives a
/// valid address.
pub fn expected_player_vault(
    battle: &Battle,
    battle_key: &Pubkey,
    actor: &Pubkey,
    mint: &Pubkey,
    program_id: &Pubkey,
) -> (r: Option<(Pubkey, u8)>)
    ensures
        derivation_view(r) == derived_program_address(
            player_vault_seeds(*battle, *battle_key, *actor, *mint),
            program_id@,
        ),
{
    let seeds = player_vault_seed_bytes(battle, battle_key, actor, mint);
    try_find_program_address(&seeds, program_id)
}

/// The address and bump of the battle account for `battle_id`, derived under `program_id`.
pub fn battle_address(battle_id: &[u8; 32], program_id: &Pubkey) -> (r: Option<(Pubkey, u8)>)
    ensures
        derivation_view(r) == derived_program_address(battle_seeds(*battle_id), program_id@),
{
    let mut seeds: Vec<Vec<u8>> = Vec::new();
    seeds.push(battle_tag_vec());
    seeds.push(bytes_vec(battle_id));
    proof {
        lemma_seed_list_deep_view(seeds);
    }
    assert(seeds.deep_view() =~= battle_seeds(*battle_id));
    try_find_program_address(&seeds, program_id)
}

} // verus!
