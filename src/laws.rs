//! Properties that relate several operations, proved over the contracts of
//! the operations.

use vstd::prelude::*;

use crate::error::{ABLError, ProgramError};
use crate::instructions::add_wallet::{count_moved, entry_bytes};
use crate::instructions::can_thaw_permissionless::{decide_pairs, is_on_curve, pair_verdict};
use crate::address::list_config_seeds;
use crate::instructions::create_list::{create_list_outcome, create_request_valid, created_list_bytes};
use crate::instructions::is_derived_key;
use crate::instructions::delete_list::{delete_list_outcome, is_list_authority, stored_count};
use crate::instructions::setup_extra_metas::{
    configured, configured_value, keys_of, lists_check, pair_bytes, pairs_bytes, setup_extra_metas_outcome,
    MintConfig, MAX_LISTS,
};
use crate::ledger::{rent_exempt_minimum, MAX_LAMPORTS_PER_BYTE};
use crate::metas::meta_list_size;
use crate::state::LIST_CONFIG_LEN;
use crate::keys::Key;
use crate::ledger::{Account, Runtime};
use crate::state::{is_valid_record, ListConfig, Mode, Transmutable, WalletEntry};

verus! {

/// A list created for `authority` with `seed` and `mode` reads back as a
/// list of that authority, seed and mode, with no members.
pub proof fn create_then_inspect(authority: Key, seed: Key, mode: u8, c: ListConfig)
    requires
        mode <= 2,
        c.decodes_from(created_list_bytes(authority, seq![mode] + seed@)),
    ensures
        is_valid_record::<ListConfig>(created_list_bytes(authority, seq![mode] + seed@)),
        create_request_valid(seq![mode] + seed@),
        c.wallets_count == 0,
        c.mode == mode,
        c.get_mode_spec().spec_code() == mode,
        c.authority == authority,
        c.seed == seed,
{
    let data = seq![mode] + seed@;
    assert(data.subrange(1, 33) =~= seed@);
    let fresh = ListConfig::fresh(authority, seed, mode);
    assert(fresh.spec_bytes() =~= created_list_bytes(authority, data));
    fresh.lemma_round_trip(created_list_bytes(authority, data));
    vstd::bytes::lemma_auto_spec_u64_to_from_le_bytes();
    assert(c.authority@ =~= authority@);
    assert(c.seed@ =~= seed@);
}

/// A creation request with a valid mode and a 32-byte seed succeeds when
/// the host accepts the rent rate, the list account is the one derived
/// from the authority and the seed and holds nothing yet, and the authority
/// signed and can pay the minimum balance.
pub proof fn create_succeeds(rt: Runtime, authority: Account, list_config: Account, seed: Key, mode: u8)
    requires
        mode <= 2,
        rt.lamports_per_byte <= MAX_LAMPORTS_PER_BYTE,
        is_derived_key(list_config.key, list_config_seeds(authority.key, seed), rt.program_id),
        authority.is_signer,
        list_config.is_empty(),
        authority.lamports >= rent_exempt_minimum(rt.lamports_per_byte, LIST_CONFIG_LEN as nat),
    ensures
        create_list_outcome(rt, authority, list_config, seq![mode] + seed@) is Ok,
{
    let data = seq![mode] + seed@;
    assert(data.subrange(1, 33) =~= seed@);
    assert(list_config_seeds(authority.key, seed) =~= seq![
        crate::address::list_config_prefix(),
        authority.key@,
        data.subrange(1, 33),
    ]);
}

/// Deleting a list fails with `ListNotEmpty` whenever the list has members,
/// whoever asks; once it has none, its signing authority deletes it
/// (unless the authority's balance would overflow).
pub proof fn delete_requires_empty(authority: Account, list_config: Account)
    requires
        is_valid_record::<ListConfig>(list_config.data@),
    ensures
        stored_count(list_config.data@) > 0 ==> delete_list_outcome(authority, list_config) == Err::<
            (),
            ProgramError,
        >(ProgramError::Custom(ABLError::ListNotEmpty)),
        stored_count(list_config.data@) == 0 && is_list_authority(authority, list_config.data@)
            && authority.lamports + list_config.lamports <= u64::MAX ==> delete_list_outcome(
            authority,
            list_config,
        ) is Ok,
{
}

/// Adding a wallet and then removing its record gives the list back the
/// bytes, and so the member count, it had before, and leaves no record
/// that reads as a membership.
pub proof fn add_then_remove_restores(before: Seq<u8>, mid: Seq<u8>, after: Seq<u8>, entry_after: Seq<u8>)
    requires
        is_valid_record::<ListConfig>(before),
        count_moved(before, mid, 1),
        count_moved(mid, after, -1),
        entry_after.len() == 0,
    ensures
        after == before,
        stored_count(after) == stored_count(before),
        !is_valid_record::<WalletEntry>(entry_after),
{
    vstd::bytes::lemma_auto_spec_u64_to_from_le_bytes();
    let tail_a = after.subrange(66, 74);
    let tail_b = before.subrange(66, 74);
    assert(tail_a.len() == 8 && tail_b.len() == 8);
    assert(vstd::bytes::spec_u64_to_le_bytes(vstd::bytes::spec_u64_from_le_bytes(tail_a)) == tail_a);
    assert(vstd::bytes::spec_u64_to_le_bytes(vstd::bytes::spec_u64_from_le_bytes(tail_b)) == tail_b);
    assert(tail_a == tail_b);
    assert(after =~= after.subrange(0, 66) + tail_a);
    assert(before =~= before.subrange(0, 66) + tail_b);
}

/// A record written by adding a wallet reads as a membership record of
/// that wallet in that list.
pub proof fn added_record_is_member(wallet: Key, list: Key, e: WalletEntry)
    requires
        e.decodes_from(entry_bytes(wallet, list)),
    ensures
        is_valid_record::<WalletEntry>(entry_bytes(wallet, list)),
        e.wallet_address == wallet,
        e.list_config == list,
{
    let written = WalletEntry { discriminator: crate::state::WALLET_ENTRY_TAG, wallet_address: wallet, list_config: list };
    written.lemma_round_trip();
    assert(written.spec_bytes() =~= entry_bytes(wallet, list));
    assert(e.wallet_address@ =~= wallet@);
    assert(e.list_config@ =~= list@);
}

/// The stored mode byte of a list record.
pub open spec fn stored_mode(list_data: Seq<u8>) -> Mode {
    Mode::from_code(list_data[65])
}

/// How each mode treats a wallet with and without a membership record.
pub proof fn mode_semantics(list_data: Seq<u8>, owner: Key, list: Key, no_record: Seq<u8>)
    requires
        is_valid_record::<ListConfig>(list_data),
        no_record.len() == 0,
    ensures
        stored_mode(list_data) == Mode::Allow ==> pair_verdict(list_data, owner, no_record) == Err::<
            (),
            ProgramError,
        >(ProgramError::Custom(ABLError::AccountBlocked)) && pair_verdict(
            list_data,
            owner,
            entry_bytes(owner, list),
        ) is Ok,
        stored_mode(list_data) == Mode::Block ==> pair_verdict(list_data, owner, no_record) is Ok
            && pair_verdict(list_data, owner, entry_bytes(owner, list)) == Err::<(), ProgramError>(
            ProgramError::Custom(ABLError::AccountBlocked),
        ),
        stored_mode(list_data) == Mode::AllowAllEoas && is_on_curve(owner@) ==> pair_verdict(
            list_data,
            owner,
            no_record,
        ) is Ok && pair_verdict(list_data, owner, entry_bytes(owner, list)) is Ok,
        stored_mode(list_data) == Mode::AllowAllEoas && !is_on_curve(owner@) ==> pair_verdict(
            list_data,
            owner,
            no_record,
        ) == Err::<(), ProgramError>(ProgramError::Custom(ABLError::AccountBlocked)) && pair_verdict(
            list_data,
            owner,
            entry_bytes(owner, list),
        ) is Ok,
{
}

/// A block list that holds the wallet vetoes the thaw, whatever the lists
/// after it would say.
pub proof fn block_list_vetoes(pairs: Seq<Account>, owner: Key)
    requires
        pairs.len() >= 2,
        is_valid_record::<ListConfig>(pairs[0].data@),
        stored_mode(pairs[0].data@) == Mode::Block,
        is_valid_record::<WalletEntry>(pairs[1].data@),
    ensures
        decide_pairs(pairs, owner) == Err::<(), ProgramError>(ProgramError::Custom(ABLError::AccountBlocked)),
{
}

/// The thaw is allowed exactly where every pair allows it; no pairs at all
/// allow it.
pub proof fn decide_is_conjunction(pairs: Seq<Account>, owner: Key)
    requires
        pairs.len() % 2 == 0,
    ensures
        decide_pairs(pairs, owner) is Ok <==> forall|i: int|
            0 <= i < pairs.len() / 2 ==> #[trigger] pair_verdict(pairs[2 * i].data@, owner, pairs[2 * i + 1].data@) is Ok,
    decreases pairs.len(),
{
    if pairs.len() > 0 {
        let rest = pairs.skip(2);
        decide_is_conjunction(rest, owner);
        if decide_pairs(pairs, owner) is Ok {
            assert forall|i: int| 0 <= i < pairs.len() / 2 implies #[trigger] pair_verdict(
                pairs[2 * i].data@,
                owner,
                pairs[2 * i + 1].data@,
            ) is Ok by {
                if i > 0 {
                    let j = i - 1;
                    assert(pair_verdict(rest[2 * j].data@, owner, rest[2 * j + 1].data@) is Ok);
                }
            }
        } else {
            if pair_verdict(pairs[0].data@, owner, pairs[1].data@) is Ok {
                let j = choose|j: int| 0 <= j < rest.len() / 2 && !(#[trigger] pair_verdict(
                    rest[2 * j].data@,
                    owner,
                    rest[2 * j + 1].data@,
                ) is Ok);
                assert(!(pair_verdict(pairs[2 * (j + 1)].data@, owner, pairs[2 * (j + 1) + 1].data@) is Ok));
            } else {
                assert(!(pair_verdict(pairs[2 * 0int].data@, owner, pairs[2 * 0int + 1].data@) is Ok));
            }
        }
    }
}

/// The extra-reference list of `N` lists holds exactly `2N` entries: its
/// entry part is 70 bytes per list, and the list at position `i` has its
/// two entries at position `i`, in list order.
pub proof fn configured_entries_in_order(keys: Seq<Seq<u8>>)
    requires
        forall|i: int| 0 <= i < keys.len() ==> (#[trigger] keys[i]).len() == 32,
    ensures
        pairs_bytes(keys).len() == 70 * keys.len(),
        configured_value(keys).len() == 8 + 70 * keys.len(),
        forall|i: int| 0 <= i < keys.len() ==> #[trigger] pairs_bytes(keys).subrange(70 * i, 70 * i + 70)
            == pair_bytes(keys[i], i),
    decreases keys.len(),
{
    if keys.len() > 0 {
        let prefix = keys.drop_last();
        configured_entries_in_order(prefix);
        let whole = pairs_bytes(keys);
        let n = keys.len() - 1;
        assert(pair_bytes(keys.last(), n).len() == 70);
        assert forall|i: int| 0 <= i < keys.len() implies #[trigger] pairs_bytes(keys).subrange(70 * i, 70 * i + 70)
            == pair_bytes(keys[i], i) by {
            if i < n {
                assert(whole.subrange(70 * i, 70 * i + 70) =~= pairs_bytes(prefix).subrange(70 * i, 70 * i + 70));
                assert(prefix[i] == keys[i]);
            } else {
                assert(whole.subrange(70 * i, 70 * i + 70) =~= pair_bytes(keys.last(), n));
            }
        }
    }
    vstd::bytes::lemma_auto_spec_u32_to_from_le_bytes();
}

/// A configuration by the mint's freeze authority of at most five valid
/// lists succeeds when the authority signed and can settle the balance:
/// where the record exists, the two balances together cover the minimum
/// and fit in a `u64`; where it does not, the target holds nothing and the
/// authority can pay the minimum.
pub proof fn configure_succeeds(
    rt: Runtime,
    authority: Account,
    mint: Account,
    extra_metas: Account,
    lists: Seq<Account>,
    mint_config: MintConfig,
)
    requires
        mint_config.mint@ == mint.key@,
        mint_config.freeze_authority@ == authority.key@,
        lists.len() <= MAX_LISTS,
        lists_check(lists, rt.program_id) is Ok,
        rt.lamports_per_byte <= MAX_LAMPORTS_PER_BYTE,
        authority.is_signer,
        extra_metas.owner@ == rt.program_id@ ==> {
            let min = rent_exempt_minimum(rt.lamports_per_byte, meta_list_size(2 * lists.len()));
            &&& authority.lamports + extra_metas.lamports >= min
            &&& authority.lamports + extra_metas.lamports <= u64::MAX
        },
        extra_metas.owner@ != rt.program_id@ ==> extra_metas.is_empty() && authority.lamports
            >= rent_exempt_minimum(rt.lamports_per_byte, meta_list_size(2 * lists.len())),
    ensures
        setup_extra_metas_outcome(rt, authority, mint, extra_metas, lists, Some(mint_config)) is Ok,
{
}

/// Two configurations of the same lists leave the same record, byte for
/// byte, and the same balance on the extra-reference list, whatever it held
/// before each: a configuration replaces what was there, never merges.
pub proof fn configure_replaces(rt: Runtime, before1: Seq<Account>, after1: Seq<Account>, before2: Seq<Account>, after2: Seq<Account>)
    requires
        configured(rt, before1, after1),
        configured(rt, before2, after2),
        keys_of(before1.skip(5)) == keys_of(before2.skip(5)),
    ensures
        after1[3].data@ == after2[3].data@,
        after1[3].lamports == after2[3].lamports,
{
    assert(before1.skip(5).len() == keys_of(before1.skip(5)).len());
    assert(before2.skip(5).len() == keys_of(before2.skip(5)).len());
}

/// Configuring more lists than the bound fails with `InvalidData` once the
/// caller is the mint's freeze authority.
pub proof fn too_many_lists_rejected(
    rt: Runtime,
    authority: Account,
    mint: Account,
    extra_metas: Account,
    lists: Seq<Account>,
    mint_config: MintConfig,
)
    requires
        lists.len() > MAX_LISTS,
        mint_config.mint@ == mint.key@,
        mint_config.freeze_authority@ == authority.key@,
    ensures
        setup_extra_metas_outcome(rt, authority, mint, extra_metas, lists, Some(mint_config)) == Err::<
            (),
            ProgramError,
        >(ProgramError::Custom(ABLError::InvalidData)),
{
}

} // verus!
