use vstd::bytes::spec_u32_to_le_bytes;
use vstd::prelude::*;

use crate::keys::Key;
use spl_tlv_account_resolution::account::ExtraAccountMeta;
use spl_tlv_account_resolution::seeds::Seed;
use spl_tlv_account_resolution::solana_pubkey::Pubkey;
use spl_tlv_account_resolution::state::ExtraAccountMetaList;

verus! {

/// One descriptor of an extra-reference list, byte for byte as stored: a
/// kind (0 for a fixed address, 1 for a derived-address recipe), 32 bytes of
/// address or packed seeds, and the signer and writable flags.
#[derive(Clone, Copy, Debug, PartialEq, Eq)]
pub struct ExtraMeta {
    pub discriminator: u8,
    pub address_config: Key,
    pub is_signer: u8,
    pub is_writable: u8,
}

/// The byte size of one stored descriptor.
pub const EXTRA_META_LEN: usize = 35;

/// One part of a derived-address recipe.
#[derive(Clone, Debug)]
pub enum SeedSpec {
    /// Fixed bytes.
    Literal { bytes: Vec<u8> },
    /// The address of the account at `index` of the hook's account list.
    AccountKey { index: u8 },
    /// `length` bytes from offset `data_index` of the data of the account at
    /// `account_index`.
    AccountData { account_index: u8, data_index: u8, length: u8 },
}

impl ExtraMeta {
    pub open spec fn spec_bytes(self) -> Seq<u8> {
        seq![self.discriminator] + self.address_config@ + seq![self.is_signer, self.is_writable]
    }
}

impl SeedSpec {
    /// The seed's packed form: a type byte, then its operands.
    pub open spec fn packed(&self) -> Seq<u8> {
        match self {
            SeedSpec::Literal { bytes } => seq![1u8, bytes@.len() as u8] + bytes@,
            SeedSpec::AccountKey { index } => seq![3u8, *index],
            SeedSpec::AccountData { account_index, data_index, length } => seq![
                4u8,
                *account_index,
                *data_index,
                *length,
            ],
        }
    }

    /// Whether the seed's own size fits in a byte.
    pub open spec fn small(&self) -> bool {
        match self {
            SeedSpec::Literal { bytes } => bytes@.len() <= 30,
            _ => true,
        }
    }
}

/// The packed seeds, one after another.
pub open spec fn packed_seeds(seeds: Seq<SeedSpec>) -> Seq<u8>
    decreases seeds.len(),
{
    if seeds.len() == 0 {
        Seq::empty()
    } else {
        packed_seeds(seeds.drop_last()) + seeds.last().packed()
    }
}

/// `bytes` followed by zeroes up to 32 bytes.
pub open spec fn pad32(bytes: Seq<u8>) -> Seq<u8> {
    bytes + Seq::new((32 - bytes.len()) as nat, |i: int| 0u8)
}

/// The stored entries one after another.
pub open spec fn metas_bytes(metas: Seq<ExtraMeta>) -> Seq<u8>
    decreases metas.len(),
{
    if metas.len() == 0 {
        Seq::empty()
    } else {
        metas_bytes(metas.drop_last()) + metas.last().spec_bytes()
    }
}

/// The bytes of an extra-reference list that follow its 8-byte type tag:
/// the value length, the entry count, then the entries.
pub open spec fn meta_list_value(metas: Seq<ExtraMeta>) -> Seq<u8> {
    spec_u32_to_le_bytes((4 + EXTRA_META_LEN * metas.len()) as u32)
        + spec_u32_to_le_bytes(metas.len() as u32) + metas_bytes(metas)
}

/// The type tag of the can-thaw entry of token-acl-interface: the first 8
/// bytes of the SHA-256 digest of
/// `efficient-allow-block-list-standard:can-thaw-permissionless`.
pub open spec fn can_thaw_tag() -> Seq<u8> {
    seq![8u8, 175, 169, 129, 137, 74, 61, 241]
}

/// The byte size of an extra-reference list of `n` entries.
pub open spec fn meta_list_size(n: nat) -> nat {
    (16 + EXTRA_META_LEN * n) as nat
}

/// Relies on `ExtraAccountMeta::new_with_pubkey`: kind 0, the address as
/// given, the two flags stored as 0 or 1; it never fails.
#[verifier::external_body]
pub(crate) fn meta_with_pubkey(key: &Key, is_signer: bool, is_writable: bool) -> (r: ExtraMeta)
    ensures
        r == (ExtraMeta {
            discriminator: 0,
            address_config: *key,
            is_signer: if is_signer { 1 } else { 0 },
            is_writable: if is_writable { 1 } else { 0 },
        }),
{
    let m = ExtraAccountMeta::new_with_pubkey(&Pubkey::new_from_array(*key), is_signer, is_writable)
        .unwrap_or_default();
    ExtraMeta {
        discriminator: m.discriminator,
        address_config: m.address_config,
        is_signer: m.is_signer.0,
        is_writable: m.is_writable.0,
    }
}

/// Relies on `ExtraAccountMeta::new_with_seeds` and
/// `Seed::pack_into_address_config`: kind 1, the packed seeds followed by
/// zeroes, the two flags stored as 0 or 1; it fails only where the packed
/// seeds exceed 32 bytes.
#[verifier::external_body]
pub(crate) fn meta_with_seeds(seeds: &Vec<SeedSpec>, is_signer: bool, is_writable: bool) -> (r: ExtraMeta)
    requires
        forall|i: int| 0 <= i < seeds@.len() ==> (#[trigger] seeds@[i]).small(),
        packed_seeds(seeds@).len() <= 32,
    ensures
        r.discriminator == 1,
        r.address_config@ == pad32(packed_seeds(seeds@)),
        r.is_signer == (if is_signer { 1u8 } else { 0u8 }),
        r.is_writable == (if is_writable { 1u8 } else { 0u8 }),
{
    let outside: Vec<Seed> = seeds.iter().map(|s| match s {
        SeedSpec::Literal { bytes } => Seed::Literal { bytes: bytes.clone() },
        SeedSpec::AccountKey { index } => Seed::AccountKey { index: *index },
        SeedSpec::AccountData { account_index: a, data_index: d, length: l } =>
            Seed::AccountData { account_index: *a, data_index: *d, length: *l },
    }).collect();
    let m = ExtraAccountMeta::new_with_seeds(&outside, is_signer, is_writable).unwrap_or_default();
    ExtraMeta {
        discriminator: m.discriminator,
        address_config: m.address_config,
        is_signer: m.is_signer.0,
        is_writable: m.is_writable.0,
    }
}

/// Relies on `ExtraAccountMetaList::size_of`: an 8-byte type tag, a 4-byte
/// length, a 4-byte count, and 35 bytes for each entry.
#[verifier::external_body]
pub(crate) fn extra_metas_size(n: usize) -> (r: usize)
    requires
        n <= 10,
    ensures
        r == meta_list_size(n as nat),
{
    ExtraAccountMetaList::size_of(n).unwrap_or_default()
}

/// Relies on `ExtraAccountMetaList::init` for the can-thaw instruction of
/// token-acl-interface: on zeroed data of exactly the list's size it writes
/// the instruction's 8-byte tag (its `SplDiscriminate` derive), then the
/// value length, the entry count and the entries, and keeps the data's
/// length.
#[verifier::external_body]
pub(crate) fn init_extra_metas(data: &mut Vec<u8>, metas: &Vec<ExtraMeta>)
    requires
        metas@.len() <= 10,
        forall|i: int| 0 <= i < metas@.len() ==> #[trigger] metas@[i].is_signer <= 1
            && metas@[i].is_writable <= 1,
        old(data)@ == Seq::new(meta_list_size(metas@.len()), |i: int| 0u8),
    ensures
        final(data)@.len() == old(data)@.len(),
        final(data)@.subrange(0, 8) == can_thaw_tag(),
        final(data)@.subrange(8, final(data)@.len() as int) == meta_list_value(metas@),
{
    let outside: Vec<ExtraAccountMeta> = metas.iter().map(|m| ExtraAccountMeta {
        discriminator: m.discriminator,
        address_config: m.address_config,
        is_signer: (m.is_signer != 0).into(),
        is_writable: (m.is_writable != 0).into(),
    }).collect();
    let _ = ExtraAccountMetaList::init::<
        token_acl_interface::instruction::CanThawPermissionlessInstruction,
    >(data.as_mut_slice(), &outside);
}

} // verus!
