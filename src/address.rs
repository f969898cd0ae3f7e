use vstd::prelude::*;

use crate::keys::Key;
use spl_tlv_account_resolution::solana_pubkey::Pubkey;

verus! {

/// The program address and bump that the host derives from `seeds` under
/// `program_id`, where one exists.
pub uninterp spec fn program_address(seeds: Seq<Seq<u8>>, program_id: Seq<u8>) -> Option<(Seq<u8>, u8)>;

/// The seeds as byte sequences.
pub open spec fn seeds_view(seeds: Seq<Vec<u8>>) -> Seq<Seq<u8>> {
    seeds.map_values(|s: Vec<u8>| s@)
}

/// Relies on solana-address's `Address::try_find_program_address`: the
/// first viable bump from 255 down, with its address, as a function of the
/// seeds and the program id alone; `None` where no bump is viable.
#[verifier::external_body]
fn try_find_program_address(seeds: &Vec<Vec<u8>>, program_id: &Key) -> (r: Option<(Key, u8)>)
    ensures
        r matches Some((k, b)) ==> program_address(seeds_view(seeds@), program_id@) == Some((k@, b)),
        r is None ==> program_address(seeds_view(seeds@), program_id@) is None,
{
    let refs: Vec<&[u8]> = seeds.iter().map(|s| s.as_slice()).collect();
    Pubkey::try_find_program_address(&refs, &Pubkey::new_from_array(*program_id))
        .map(|(a, b)| (a.to_bytes(), b))
}

/// The literal that starts a list record's seeds.
pub open spec fn list_config_prefix() -> Seq<u8> {
    seq![108u8, 105, 115, 116, 95, 99, 111, 110, 102, 105, 103]
}

/// The literal that starts a membership record's seeds.
pub open spec fn wallet_entry_prefix() -> Seq<u8> {
    seq![119u8, 97, 108, 108, 101, 116, 95, 101, 110, 116, 114, 121]
}

/// The literal that starts the seeds of a mint's extra-reference list.
pub open spec fn thaw_extra_metas_prefix() -> Seq<u8> {
    seq![
        116u8, 104, 97, 119, 95, 101, 120, 116, 114, 97, 95, 97, 99, 99, 111, 117, 110, 116, 95,
        109, 101, 116, 97, 115,
    ]
}

pub fn list_config_prefix_bytes() -> (r: Vec<u8>)
    ensures
        r@ == list_config_prefix(),
{
    let r: Vec<u8> = vec![108u8, 105, 115, 116, 95, 99, 111, 110, 102, 105, 103];
    assert(r@ =~= list_config_prefix());
    r
}

pub fn wallet_entry_prefix_bytes() -> (r: Vec<u8>)
    ensures
        r@ == wallet_entry_prefix(),
{
    let r: Vec<u8> = vec![119u8, 97, 108, 108, 101, 116, 95, 101, 110, 116, 114, 121];
    assert(r@ =~= wallet_entry_prefix());
    r
}

/// Relies on token-acl-interface's `THAW_EXTRA_ACCOUNT_METAS_SEED`, the
/// literal `thaw_extra_account_metas`.
#[verifier::external_body]
fn thaw_extra_metas_prefix_bytes() -> (r: Vec<u8>)
    ensures
        r@ == thaw_extra_metas_prefix(),
{
    token_acl_interface::THAW_EXTRA_ACCOUNT_METAS_SEED.to_vec()
}

/// The seeds of the list of `authority` made with `seed`.
pub open spec fn list_config_seeds(authority: Key, seed: Key) -> Seq<Seq<u8>> {
    seq![list_config_prefix(), authority@, seed@]
}

/// The seeds of the membership record of `wallet` under the list at `list`.
pub open spec fn wallet_entry_seeds(list: Key, wallet: Key) -> Seq<Seq<u8>> {
    seq![wallet_entry_prefix(), list@, wallet@]
}

/// The seeds of the extra-reference list of `mint`.
pub open spec fn extra_metas_seeds(mint: Key) -> Seq<Seq<u8>> {
    seq![thaw_extra_metas_prefix(), mint@]
}

/// Whether `r` is what derivation from `seeds` under `program_id` gives.
pub open spec fn derived(r: Option<(Key, u8)>, seeds: Seq<Seq<u8>>, program_id: Key) -> bool {
    match r {
        Some((k, b)) => program_address(seeds, program_id@) == Some((k@, b)),
        None => program_address(seeds, program_id@) is None,
    }
}

fn key_vec(k: &Key) -> (r: Vec<u8>)
    ensures
        r@ == k@,
{
    let mut r: Vec<u8> = Vec::new();
    crate::keys::push_key(&mut r, k);
    assert(r@ =~= k@);
    r
}

fn find(seeds: Vec<Vec<u8>>, program_id: &Key, expected: Ghost<Seq<Seq<u8>>>) -> (r: Option<(Key, u8)>)
    requires
        seeds_view(seeds@) =~= expected@,
    ensures
        derived(r, expected@, *program_id),
{
    try_find_program_address(&seeds, program_id)
}

/// The address (and bump) of the list record of `authority` made with `seed`.
pub fn list_config_address(program_id: &Key, authority: &Key, seed: &Key) -> (r: Option<(Key, u8)>)
    ensures
        derived(r, list_config_seeds(*authority, *seed), *program_id),
{
    let seeds: Vec<Vec<u8>> = vec![list_config_prefix_bytes(), key_vec(authority), key_vec(seed)];
    find(seeds, program_id, Ghost(list_config_seeds(*authority, *seed)))
}

/// The address (and bump) of the membership record of `wallet` under `list`.
pub fn wallet_entry_address(program_id: &Key, list: &Key, wallet: &Key) -> (r: Option<(Key, u8)>)
    ensures
        derived(r, wallet_entry_seeds(*list, *wallet), *program_id),
{
    let seeds: Vec<Vec<u8>> = vec![wallet_entry_prefix_bytes(), key_vec(list), key_vec(wallet)];
    find(seeds, program_id, Ghost(wallet_entry_seeds(*list, *wallet)))
}

/// The address (and bump) of the extra-reference list of `mint`.
pub fn extra_metas_address(program_id: &Key, mint: &Key) -> (r: Option<(Key, u8)>)
    ensures
        derived(r, extra_metas_seeds(*mint), *program_id),
{
    let seeds: Vec<Vec<u8>> = vec![thaw_extra_metas_prefix_bytes(), key_vec(mint)];
    find(seeds, program_id, Ghost(extra_metas_seeds(*mint)))
}

} // verus!
