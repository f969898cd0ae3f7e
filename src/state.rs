use vstd::bytes::{spec_u64_from_le_bytes, spec_u64_to_le_bytes, u64_from_le_bytes, u64_to_le_bytes};
use vstd::prelude::*;
use vstd::slice::slice_subrange;

use crate::error::{ABLError, ProgramError};
use crate::keys::{push_key, read_key, Key};

verus! {

/// A record with a fixed byte length and a layout that can be decoded from
/// exactly that many bytes.
pub trait Transmutable: Sized {
    /// The record's byte length.
    spec fn byte_len() -> nat;

    /// Whether `self` is what the bytes of a record of this kind hold.
    spec fn decodes_from(&self, bytes: Seq<u8>) -> bool;

    fn len() -> (r: usize)
        ensures
            r as nat == Self::byte_len(),
    ;

    fn decode(bytes: &[u8]) -> (r: Self)
        requires
            bytes@.len() == Self::byte_len(),
        ensures
            r.decodes_from(bytes@),
    ;
}

/// A record whose first byte tells that it has been initialized.
pub trait Discriminator: Transmutable {
    spec fn tag() -> u8;

    spec fn spec_is_initialized(&self) -> bool;

    fn discriminator() -> (r: u8)
        ensures
            r == Self::tag(),
    ;

    fn is_initialized(&self) -> (r: bool)
        ensures
            r == self.spec_is_initialized(),
    ;

    proof fn lemma_initialized_iff_tag(&self, bytes: Seq<u8>)
        requires
            self.decodes_from(bytes),
            bytes.len() == Self::byte_len(),
        ensures
            bytes.len() > 0,
            self.spec_is_initialized() <==> bytes[0] == Self::tag(),
    ;
}

/// Whether `bytes` has the length of a `T` record and starts with its tag.
pub open spec fn is_valid_record<T: Discriminator>(bytes: Seq<u8>) -> bool {
    bytes.len() == T::byte_len() && bytes.len() > 0 && bytes[0] == T::tag()
}

/// Decodes a `T` from bytes of exactly its length, without looking at the tag.
pub fn load_unchecked<T: Transmutable>(bytes: &[u8]) -> (r: Result<T, ABLError>)
    ensures
        r is Ok <==> bytes@.len() == T::byte_len(),
        r matches Ok(t) ==> t.decodes_from(bytes@),
        r matches Err(e) ==> e == ABLError::InvalidAccountData,
{
    if bytes.len() != T::len() {
        return Err(ABLError::InvalidAccountData);
    }
    Ok(T::decode(bytes))
}

/// Decodes an initialized `T`: the length must match and the tag must be set.
pub fn load<T: Discriminator>(bytes: &[u8]) -> (r: Result<T, ABLError>)
    ensures
        r is Ok <==> is_valid_record::<T>(bytes@),
        r matches Ok(t) ==> t.decodes_from(bytes@),
        r matches Err(e) ==> e == ABLError::InvalidAccountData,
{
    match load_unchecked::<T>(bytes) {
        Ok(t) => {
            proof {
                t.lemma_initialized_iff_tag(bytes@);
            }
            if t.is_initialized() {
                Ok(t)
            } else {
                Err(ABLError::InvalidAccountData)
            }
        },
        Err(e) => Err(e),
    }
}

/// How a list decides whether a wallet may thaw.
#[derive(Clone, Copy, Debug, PartialEq, Eq, Structural)]
pub enum Mode {
    /// Only wallets with a membership record may thaw.
    Allow,
    /// Wallets on the signature curve may thaw; others need a membership record.
    AllowAllEoas,
    /// Wallets with a membership record may not thaw.
    Block,
}

impl Mode {
    /// The mode a stored mode byte stands for.
    pub open spec fn from_code(code: u8) -> Mode {
        if code == 0 {
            Mode::Allow
        } else if code == 1 {
            Mode::AllowAllEoas
        } else {
            Mode::Block
        }
    }

    /// The byte under which a mode is stored.
    pub open spec fn spec_code(self) -> u8 {
        match self {
            Mode::Allow => 0,
            Mode::AllowAllEoas => 1,
            Mode::Block => 2,
        }
    }

    pub fn code(self) -> (r: u8)
        ensures
            r == self.spec_code(),
            Mode::from_code(r) == self,
    {
        match self {
            Mode::Allow => 0,
            Mode::AllowAllEoas => 1,
            Mode::Block => 2,
        }
    }
}

/// An authorization list: who may change it, the seed its address comes
/// from, its mode and how many membership records it has.
#[derive(Clone, Copy, Debug, PartialEq, Eq)]
pub struct ListConfig {
    pub discriminator: u8,
    pub authority: Key,
    pub seed: Key,
    pub mode: u8,
    pub wallets_count: u64,
}

/// The tag of an initialized list record.
pub const LIST_CONFIG_TAG: u8 = 1;

/// The byte length of a list record.
pub const LIST_CONFIG_LEN: usize = 74;

/// The tag of an initialized membership record.
pub const WALLET_ENTRY_TAG: u8 = 2;

/// The byte length of a membership record.
pub const WALLET_ENTRY_LEN: usize = 65;

impl ListConfig {
    /// The record's bytes: tag, authority, seed, mode, then the member count
    /// in little-endian order.
    pub open spec fn spec_bytes(&self) -> Seq<u8> {
        seq![self.discriminator] + self.authority@ + self.seed@ + seq![self.mode]
            + spec_u64_to_le_bytes(self.wallets_count)
    }

    /// A freshly initialized list of the given authority, seed and mode.
    pub open spec fn fresh(authority: Key, seed: Key, mode: u8) -> ListConfig {
        ListConfig {
            discriminator: LIST_CONFIG_TAG,
            authority,
            seed,
            mode,
            wallets_count: 0,
        }
    }

    pub fn new(authority: Key, seed: Key, mode: u8) -> (r: ListConfig)
        ensures
            r == ListConfig::fresh(authority, seed, mode),
    {
        ListConfig { discriminator: LIST_CONFIG_TAG, authority, seed, mode, wallets_count: 0 }
    }

    /// The list's mode.
    pub open spec fn get_mode_spec(&self) -> Mode {
        Mode::from_code(self.mode)
    }

    pub fn get_mode(&self) -> (r: Mode)
        ensures
            r == Mode::from_code(self.mode),
    {
        if self.mode == 0 {
            Mode::Allow
        } else if self.mode == 1 {
            Mode::AllowAllEoas
        } else {
            Mode::Block
        }
    }

    pub fn set_mode(&mut self, mode: Mode)
        ensures
            *final(self) == (ListConfig { mode: mode.spec_code(), ..*old(self) }),
    {
        self.mode = mode.code();
    }

    pub fn get_wallets_count(&self) -> (r: u64)
        ensures
            r == self.wallets_count,
    {
        self.wallets_count
    }

    /// Adds one member; fails, leaving the count as it was, where the count
    /// is already the largest `u64`.
    pub fn increment_wallets_count(&mut self) -> (r: Result<(), ProgramError>)
        ensures
            r is Err ==> r == Err::<(), ProgramError>(ProgramError::ArithmeticOverflow),
            r is Ok <==> old(self).wallets_count < u64::MAX,
            r is Ok ==> *final(self) == (ListConfig {
                wallets_count: (old(self).wallets_count + 1) as u64,
                ..*old(self)
            }),
            r is Err ==> *final(self) == *old(self),
    {
        match self.wallets_count.checked_add(1) {
            Some(n) => {
                self.wallets_count = n;
                Ok(())
            },
            None => Err(ProgramError::ArithmeticOverflow),
        }
    }

    /// Removes one member; fails, leaving the count as it was, where the
    /// count is already zero.
    pub fn decrement_wallets_count(&mut self) -> (r: Result<(), ProgramError>)
        ensures
            r is Err ==> r == Err::<(), ProgramError>(ProgramError::ArithmeticOverflow),
            r is Ok <==> old(self).wallets_count > 0,
            r is Ok ==> *final(self) == (ListConfig {
                wallets_count: (old(self).wallets_count - 1) as u64,
                ..*old(self)
            }),
            r is Err ==> *final(self) == *old(self),
    {
        match self.wallets_count.checked_sub(1) {
            Some(n) => {
                self.wallets_count = n;
                Ok(())
            },
            None => Err(ProgramError::ArithmeticOverflow),
        }
    }

    /// A list's bytes decode to the list, and bytes that decode to a list
    /// are that list's bytes.
    pub proof fn lemma_round_trip(&self, bytes: Seq<u8>)
        ensures
            self.decodes_from(self.spec_bytes()),
            self.decodes_from(bytes) ==> bytes == self.spec_bytes(),
    {
        vstd::bytes::lemma_auto_spec_u64_to_from_le_bytes();
        let b = self.spec_bytes();
        assert(b.subrange(1, 33) =~= self.authority@);
        assert(b.subrange(33, 65) =~= self.seed@);
        assert(b.subrange(66, 74) =~= spec_u64_to_le_bytes(self.wallets_count));
        if self.decodes_from(bytes) {
            assert(bytes =~= b);
        }
    }

    pub fn to_bytes(&self) -> (r: Vec<u8>)
        ensures
            r@ == self.spec_bytes(),
            r@.len() == LIST_CONFIG_LEN,
    {
        let mut out: Vec<u8> = Vec::new();
        out.push(self.discriminator);
        push_key(&mut out, &self.authority);
        push_key(&mut out, &self.seed);
        out.push(self.mode);
        let count = u64_to_le_bytes(self.wallets_count);
        let mut i: usize = 0;
        let ghost before = out@;
        while i < 8
            invariant
                0 <= i <= 8,
                count@.len() == 8,
                out@ == before + count@.subrange(0, i as int),
            decreases 8 - i,
        {
            out.push(count[i]);
            assert(count@.subrange(0, i + 1) =~= count@.subrange(0, i as int).push(count@[i as int]));
            i = i + 1;
        }
        assert(count@.subrange(0, 8) =~= count@);
        assert(out@ =~= self.spec_bytes());
        out
    }
}

impl Transmutable for ListConfig {
    open spec fn byte_len() -> nat {
        LIST_CONFIG_LEN as nat
    }

    open spec fn decodes_from(&self, bytes: Seq<u8>) -> bool {
        &&& bytes.len() == LIST_CONFIG_LEN
        &&& self.discriminator == bytes[0]
        &&& self.authority@ == bytes.subrange(1, 33)
        &&& self.seed@ == bytes.subrange(33, 65)
        &&& self.mode == bytes[65]
        &&& self.wallets_count == spec_u64_from_le_bytes(bytes.subrange(66, 74))
    }

    fn len() -> (r: usize) {
        LIST_CONFIG_LEN
    }

    fn decode(bytes: &[u8]) -> (r: ListConfig) {
        let authority = read_key(bytes, 1);
        let seed = read_key(bytes, 33);
        let count = u64_from_le_bytes(slice_subrange(bytes, 66, 74));
        ListConfig {
            discriminator: bytes[0],
            authority,
            seed,
            mode: bytes[65],
            wallets_count: count,
        }
    }
}

impl Discriminator for ListConfig {
    open spec fn tag() -> u8 {
        LIST_CONFIG_TAG
    }

    open spec fn spec_is_initialized(&self) -> bool {
        self.discriminator == LIST_CONFIG_TAG
    }

    fn discriminator() -> (r: u8) {
        LIST_CONFIG_TAG
    }

    fn is_initialized(&self) -> (r: bool) {
        self.discriminator == LIST_CONFIG_TAG
    }

    proof fn lemma_initialized_iff_tag(&self, bytes: Seq<u8>) {
    }
}

/// A membership record: its presence under a list is the membership.
#[derive(Clone, Copy, Debug, PartialEq, Eq)]
pub struct WalletEntry {
    pub discriminator: u8,
    pub wallet_address: Key,
    pub list_config: Key,
}

impl WalletEntry {
    /// The record's bytes: tag, wallet address, then the list's address.
    pub open spec fn spec_bytes(&self) -> Seq<u8> {
        seq![self.discriminator] + self.wallet_address@ + self.list_config@
    }

    pub fn new(wallet_address: Key, list_config: Key) -> (r: WalletEntry)
        ensures
            r == (WalletEntry { discriminator: WALLET_ENTRY_TAG, wallet_address, list_config }),
    {
        WalletEntry { discriminator: WALLET_ENTRY_TAG, wallet_address, list_config }
    }

    /// An entry's bytes decode to the entry.
    pub proof fn lemma_round_trip(&self)
        ensures
            self.decodes_from(self.spec_bytes()),
    {
        let b = self.spec_bytes();
        assert(b.subrange(1, 33) =~= self.wallet_address@);
        assert(b.subrange(33, 65) =~= self.list_config@);
    }

    pub fn to_bytes(&self) -> (r: Vec<u8>)
        ensures
            r@ == self.spec_bytes(),
            r@.len() == WALLET_ENTRY_LEN,
    {
        let mut out: Vec<u8> = Vec::new();
        out.push(self.discriminator);
        push_key(&mut out, &self.wallet_address);
        push_key(&mut out, &self.list_config);
        assert(out@ =~= self.spec_bytes());
        out
    }
}

impl Transmutable for WalletEntry {
    open spec fn byte_len() -> nat {
        WALLET_ENTRY_LEN as nat
    }

    open spec fn decodes_from(&self, bytes: Seq<u8>) -> bool {
        &&& bytes.len() == WALLET_ENTRY_LEN
        &&& self.discriminator == bytes[0]
        &&& self.wallet_address@ == bytes.subrange(1, 33)
        &&& self.list_config@ == bytes.subrange(33, 65)
    }

    fn len() -> (r: usize) {
        WALLET_ENTRY_LEN
    }

    fn decode(bytes: &[u8]) -> (r: WalletEntry) {
        WalletEntry {
            discriminator: bytes[0],
            wallet_address: read_key(bytes, 1),
            list_config: read_key(bytes, 33),
        }
    }
}

impl Discriminator for WalletEntry {
    open spec fn tag() -> u8 {
        WALLET_ENTRY_TAG
    }

    open spec fn spec_is_initialized(&self) -> bool {
        self.discriminator == WALLET_ENTRY_TAG
    }

    fn discriminator() -> (r: u8) {
        WALLET_ENTRY_TAG
    }

    fn is_initialized(&self) -> (r: bool) {
        self.discriminator == WALLET_ENTRY_TAG
    }

    proof fn lemma_initialized_iff_tag(&self, bytes: Seq<u8>) {
    }
}

} // verus!
