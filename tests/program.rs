use std::collections::BTreeMap;

use allow_block_list::{
    extra_metas_address, list_config_address, load, process_instruction, thaw_verdict,
    wallet_entry_address, ABLError, Account, Key, ListConfig, MintConfig, Mode, ProgramError,
    Runtime, WalletEntry, LIST_CONFIG_LEN, WALLET_ENTRY_LEN,
};

const PROGRAM_ID: Key = [7u8; 32];
const SYSTEM_ID: Key = [0u8; 32];
const LAMPORTS_PER_BYTE: u64 = 6960;
const AUTH: Key = [42u8; 32];
const MINT: Key = [9u8; 32];
const MINT_CONFIG: Key = [10u8; 32];
const TOKEN_ACCOUNT: Key = [11u8; 32];
const START_BALANCE: u64 = 10_000_000_000;

/// The compressed base point of the signature curve: a wallet that a key controls.
fn eoa() -> Key {
    let mut k = [0x66u8; 32];
    k[0] = 0x58;
    k
}

fn min_balance(len: usize) -> u64 {
    (128 + len as u64) * LAMPORTS_PER_BYTE
}

struct Vm {
    rt: Runtime,
    accounts: BTreeMap<Key, Account>,
}

impl Vm {
    fn new() -> Vm {
        let mut vm = Vm {
            rt: Runtime {
                program_id: PROGRAM_ID,
                system_program_id: SYSTEM_ID,
                lamports_per_byte: LAMPORTS_PER_BYTE,
            },
            accounts: BTreeMap::new(),
        };
        let mut auth = vm.get(&AUTH);
        auth.lamports = START_BALANCE;
        vm.accounts.insert(AUTH, auth);
        vm
    }

    fn get(&self, key: &Key) -> Account {
        match self.accounts.get(key) {
            Some(a) => a.clone(),
            None => Account {
                key: *key,
                owner: SYSTEM_ID,
                lamports: 0,
                data: Vec::new(),
                is_signer: false,
                is_writable: false,
            },
        }
    }

    fn run(
        &mut self,
        keys: &[(Key, bool, bool)],
        data: &[u8],
        mint_config: Option<MintConfig>,
    ) -> Result<(), ProgramError> {
        let accounts: Vec<Account> = keys
            .iter()
            .map(|(k, signer, writable)| {
                let mut a = self.get(k);
                a.is_signer = *signer;
                a.is_writable = *writable;
                a
            })
            .collect();
        let before = accounts.clone();
        let out = process_instruction(&self.rt, accounts, data, mint_config)?;
        for (a, b) in out.into_iter().zip(before.iter()) {
            let changed = a.lamports != b.lamports || a.data != b.data || a.owner != b.owner;
            if changed || !self.accounts.contains_key(&a.key) {
                self.accounts.insert(a.key, a);
            }
        }
        Ok(())
    }

    fn create_list_with_seed(&mut self, mode: Mode, seed: Key) -> Result<Key, ProgramError> {
        let (list, _) = list_config_address(&PROGRAM_ID, &AUTH, &seed).unwrap();
        let mut data = vec![mode as u8];
        data.extend_from_slice(&seed);
        self.run(
            &[(AUTH, true, true), (list, false, true), (SYSTEM_ID, false, false)],
            &[&[1u8][..], &data[..]].concat(),
            None,
        )?;
        Ok(list)
    }

    fn create_list(&mut self, mode: Mode) -> Key {
        let seed = [self.accounts.len() as u8 + 100; 32];
        self.create_list_with_seed(mode, seed).unwrap()
    }

    fn add_wallet(&mut self, list: &Key, wallet: &Key) -> Result<Key, ProgramError> {
        let (entry, _) = wallet_entry_address(&PROGRAM_ID, list, wallet).unwrap();
        self.run(
            &[
                (AUTH, true, true),
                (*list, false, true),
                (*wallet, false, false),
                (entry, false, true),
                (SYSTEM_ID, false, false),
            ],
            &[2u8],
            None,
        )?;
        Ok(entry)
    }

    fn remove_wallet(&mut self, list: &Key, wallet: &Key) -> Result<(), ProgramError> {
        let (entry, _) = wallet_entry_address(&PROGRAM_ID, list, wallet).unwrap();
        self.run(&[(AUTH, true, true), (*list, false, true), (entry, false, true)], &[3u8], None)
    }

    fn delete_list(&mut self, list: &Key) -> Result<(), ProgramError> {
        self.run(&[(AUTH, true, true), (*list, false, true)], &[5u8], None)
    }

    fn setup_extra_metas(&mut self, lists: &[Key]) -> Result<Key, ProgramError> {
        let (extra, _) = extra_metas_address(&PROGRAM_ID, &MINT).unwrap();
        let mut keys = vec![
            (AUTH, true, true),
            (MINT_CONFIG, false, false),
            (MINT, false, false),
            (extra, false, true),
            (SYSTEM_ID, false, false),
        ];
        for l in lists {
            keys.push((*l, false, false));
        }
        let cfg = MintConfig { mint: MINT, freeze_authority: AUTH };
        self.run(&keys, &[4u8], Some(cfg))?;
        Ok(extra)
    }

    /// Runs the thaw check for `owner`, resolving each configured list's
    /// membership record as the host does.
    fn thaw(&mut self, owner: &Key, lists: &[Key]) -> Result<(), ProgramError> {
        let (extra, _) = extra_metas_address(&PROGRAM_ID, &MINT).unwrap();
        let mut keys = vec![
            (AUTH, false, false),
            (TOKEN_ACCOUNT, false, false),
            (MINT, false, false),
            (*owner, false, false),
            (extra, false, false),
        ];
        for l in lists {
            let (entry, _) = wallet_entry_address(&PROGRAM_ID, l, owner).unwrap();
            keys.push((*l, false, false));
            keys.push((entry, false, false));
        }
        self.run(&keys, &[8u8], None)
    }

    fn config(&self, list: &Key) -> ListConfig {
        load::<ListConfig>(&self.get(list).data).unwrap()
    }
}

fn blocked() -> Result<(), ProgramError> {
    Err(ProgramError::Custom(ABLError::AccountBlocked))
}

#[test]
fn creates_list() {
    let mut vm = Vm::new();
    let seed = [5u8; 32];
    let list = vm.create_list_with_seed(Mode::Allow, seed).unwrap();
    let config = vm.config(&list);
    assert_eq!(config.authority, AUTH);
    assert_eq!(config.seed, seed);
    assert_eq!(config.mode, Mode::Allow as u8);
    assert_eq!(config.wallets_count, 0);
    let account = vm.get(&list);
    assert_eq!(account.data.len(), LIST_CONFIG_LEN);
    assert_eq!(account.owner, PROGRAM_ID);
    assert_eq!(account.lamports, min_balance(LIST_CONFIG_LEN));
    assert_eq!(vm.get(&AUTH).lamports, START_BALANCE - min_balance(LIST_CONFIG_LEN));
}

#[test]
fn creates_list_with_different_mode() {
    let mut vm = Vm::new();
    let list = vm.create_list(Mode::Block);
    let config = vm.config(&list);
    assert_eq!(config.authority, AUTH);
    assert_eq!(config.mode, Mode::Block as u8);
    assert_eq!(config.get_mode(), Mode::Block);
    let list = vm.create_list(Mode::AllowAllEoas);
    let config = vm.config(&list);
    assert_eq!(config.authority, AUTH);
    assert_eq!(config.mode, Mode::AllowAllEoas as u8);
    assert_eq!(config.get_mode(), Mode::AllowAllEoas);
}

#[test]
fn create_list_rejects_bad_mode_and_seed() {
    let mut vm = Vm::new();
    let (list, _) = list_config_address(&PROGRAM_ID, &AUTH, &[1u8; 32]).unwrap();
    let accounts = [(AUTH, true, true), (list, false, true), (SYSTEM_ID, false, false)];
    let mut data = vec![1u8, 3u8];
    data.extend_from_slice(&[1u8; 32]);
    assert_eq!(vm.run(&accounts, &data, None), Err(ProgramError::Custom(ABLError::InvalidData)));
    assert_eq!(vm.run(&accounts, &[1u8, 0u8, 1u8], None), Err(ProgramError::Custom(ABLError::InvalidData)));
    assert_eq!(vm.run(&accounts, &[1u8], None), Err(ProgramError::Custom(ABLError::InvalidData)));
    assert_eq!(vm.get(&list).lamports, 0);
}

#[test]
fn create_list_at_wrong_address_fails() {
    let mut vm = Vm::new();
    let mut data = vec![1u8, 0u8];
    data.extend_from_slice(&[1u8; 32]);
    let wrong: Key = [77u8; 32];
    let res = vm.run(&[(AUTH, true, true), (wrong, false, true), (SYSTEM_ID, false, false)], &data, None);
    assert_eq!(res, Err(ProgramError::InvalidSeeds));
    let res = vm.run(&[(AUTH, true, true), (wrong, false, true), (wrong, false, false)], &data, None);
    assert_eq!(res, Err(ProgramError::Custom(ABLError::InvalidSystemProgram)));
}

#[test]
fn create_list_twice_fails() {
    let mut vm = Vm::new();
    vm.create_list_with_seed(Mode::Allow, [3u8; 32]).unwrap();
    assert_eq!(vm.create_list_with_seed(Mode::Block, [3u8; 32]), Err(ProgramError::AccountAlreadyInUse));
}

#[test]
fn deletes_list() {
    let mut vm = Vm::new();
    let list = vm.create_list(Mode::Allow);
    assert!(vm.delete_list(&list).is_ok());
    let account = vm.get(&list);
    assert_eq!(account.data.len(), 0);
    assert_eq!(account.lamports, 0);
    assert_eq!(vm.get(&AUTH).lamports, START_BALANCE);
}

#[test]
fn delete_non_empty_list_fails() {
    let mut vm = Vm::new();
    let list = vm.create_list(Mode::Block);
    vm.add_wallet(&list, &eoa()).unwrap();
    assert_eq!(vm.delete_list(&list), Err(ProgramError::Custom(ABLError::ListNotEmpty)));
    let res = vm.run(&[(AUTH, false, true), (list, false, true)], &[5u8], None);
    assert_eq!(res, Err(ProgramError::Custom(ABLError::ListNotEmpty)));
    vm.remove_wallet(&list, &eoa()).unwrap();
    assert!(vm.delete_list(&list).is_ok());
}

#[test]
fn delete_list_checks_owner_and_authority() {
    let mut vm = Vm::new();
    let list = vm.create_list(Mode::Allow);
    let res = vm.run(&[(AUTH, false, true), (list, false, true)], &[5u8], None);
    assert_eq!(res, Err(ProgramError::Custom(ABLError::InvalidAuthority)));
    let stranger: Key = [55u8; 32];
    let res = vm.run(&[(AUTH, true, true), (stranger, false, true)], &[5u8], None);
    assert_eq!(res, Err(ProgramError::Custom(ABLError::InvalidConfigAccount)));
    let res = vm.run(&[(AUTH, true, true)], &[5u8], None);
    assert_eq!(res, Err(ProgramError::Custom(ABLError::NotEnoughAccounts)));
}

#[test]
fn adds_wallet() {
    let mut vm = Vm::new();
    let wallet: Key = [21u8; 32];
    let list = vm.create_list(Mode::Allow);
    let entry = vm.add_wallet(&list, &wallet).unwrap();
    let record = load::<WalletEntry>(&vm.get(&entry).data).unwrap();
    assert_eq!(record.wallet_address, wallet);
    assert_eq!(record.list_config, list);
    assert_eq!(vm.get(&entry).lamports, min_balance(WALLET_ENTRY_LEN));
    assert_eq!(vm.config(&list).wallets_count, 1);
}

#[test]
fn add_wallet_checks_authority_and_writability() {
    let mut vm = Vm::new();
    let wallet: Key = [21u8; 32];
    let list = vm.create_list(Mode::Allow);
    let (entry, _) = wallet_entry_address(&PROGRAM_ID, &list, &wallet).unwrap();
    let other: Key = [43u8; 32];
    let res = vm.run(
        &[(other, true, true), (list, false, true), (wallet, false, false), (entry, false, true), (SYSTEM_ID, false, false)],
        &[2u8],
        None,
    );
    assert_eq!(res, Err(ProgramError::Custom(ABLError::InvalidAuthority)));
    let res = vm.run(
        &[(AUTH, true, true), (list, false, false), (wallet, false, false), (entry, false, true), (SYSTEM_ID, false, false)],
        &[2u8],
        None,
    );
    assert_eq!(res, Err(ProgramError::Custom(ABLError::AccountNotWritable)));
    assert_eq!(vm.config(&list).wallets_count, 0);
}

#[test]
fn removes_wallet() {
    let mut vm = Vm::new();
    let wallet: Key = [22u8; 32];
    let list = vm.create_list(Mode::Allow);
    let entry = vm.add_wallet(&list, &wallet).unwrap();
    assert_eq!(vm.config(&list).wallets_count, 1);
    assert!(vm.remove_wallet(&list, &wallet).is_ok());
    let account = vm.get(&entry);
    assert_eq!(account.data.len(), 0);
    assert_eq!(account.lamports, 0);
    assert_eq!(vm.config(&list).wallets_count, 0);
    assert!(load::<WalletEntry>(&account.data).is_err());
}

#[test]
fn remove_missing_wallet_fails() {
    let mut vm = Vm::new();
    let list = vm.create_list(Mode::Allow);
    assert_eq!(vm.remove_wallet(&list, &[23u8; 32]), Err(ProgramError::Custom(ABLError::InvalidAccountData)));
}

#[test]
fn add_then_remove_restores_count() {
    let mut vm = Vm::new();
    let list = vm.create_list(Mode::Block);
    vm.add_wallet(&list, &[1u8; 32]).unwrap();
    let before = vm.get(&list).data.clone();
    vm.add_wallet(&list, &[2u8; 32]).unwrap();
    assert_eq!(vm.config(&list).wallets_count, 2);
    vm.remove_wallet(&list, &[2u8; 32]).unwrap();
    assert_eq!(vm.get(&list).data, before);
    assert_eq!(vm.config(&list).wallets_count, 1);
}

fn entries(data: &[u8]) -> (u32, u32, Vec<Vec<u8>>) {
    let value_len = u32::from_le_bytes([data[8], data[9], data[10], data[11]]);
    let count = u32::from_le_bytes([data[12], data[13], data[14], data[15]]);
    let metas = data[16..].chunks(35).map(|c| c.to_vec()).collect();
    (value_len, count, metas)
}

fn recipe(slot: u8) -> Vec<u8> {
    let mut v = vec![1u8];
    let mut config = vec![1u8, 12];
    config.extend_from_slice(b"wallet_entry");
    config.extend_from_slice(&[3, slot, 4, 1, 32, 32]);
    config.resize(32, 0);
    v.extend_from_slice(&config);
    v.extend_from_slice(&[0, 0]);
    v
}

fn fixed(key: &Key) -> Vec<u8> {
    let mut v = vec![0u8];
    v.extend_from_slice(key);
    v.extend_from_slice(&[0, 0]);
    v
}

#[test]
fn setup_list_extra_metas() {
    let mut vm = Vm::new();
    let list = vm.create_list(Mode::Allow);
    let extra = vm.setup_extra_metas(&[list]).unwrap();
    let account = vm.get(&extra);
    assert_eq!(account.data.len(), 16 + 70);
    assert_eq!(account.owner, PROGRAM_ID);
    assert_eq!(account.lamports, min_balance(16 + 70));
    let (value_len, count, metas) = entries(&account.data);
    assert_eq!(account.data[..8], [8u8, 175, 169, 129, 137, 74, 61, 241]);
    assert_eq!(value_len, 4 + 70);
    assert_eq!(count, 2);
    assert_eq!(metas, vec![fixed(&list), recipe(5)]);
}

#[test]
fn setup_list_extra_metas_with_multiple_lists() {
    let mut vm = Vm::new();
    let l1 = vm.create_list(Mode::Allow);
    let l2 = vm.create_list(Mode::Block);
    let l3 = vm.create_list(Mode::AllowAllEoas);
    let extra = vm.setup_extra_metas(&[l1, l2, l3]).unwrap();
    let account = vm.get(&extra);
    assert_eq!(account.data.len(), 16 + 3 * 70);
    let (value_len, count, metas) = entries(&account.data);
    assert_eq!(value_len, 4 + 3 * 70);
    assert_eq!(count, 6);
    assert_eq!(metas, vec![fixed(&l1), recipe(5), fixed(&l2), recipe(7), fixed(&l3), recipe(9)]);
}

#[test]
fn setup_list_extra_metas_multiple_times() {
    let mut vm = Vm::new();
    let l1 = vm.create_list(Mode::Allow);
    let l2 = vm.create_list(Mode::Block);
    let l3 = vm.create_list(Mode::AllowAllEoas);
    let total = |vm: &Vm, extra: &Key| vm.get(&AUTH).lamports + vm.get(extra).lamports;
    let extra = vm.setup_extra_metas(&[l1]).unwrap();
    let sum = total(&vm, &extra);
    vm.setup_extra_metas(&[l1, l2, l3]).unwrap();
    assert_eq!(vm.get(&extra).lamports, min_balance(16 + 210));
    assert_eq!(total(&vm, &extra), sum);
    vm.setup_extra_metas(&[l1, l2]).unwrap();
    assert_eq!(vm.get(&extra).lamports, min_balance(16 + 140));
    let fresh = {
        let mut other = Vm::new();
        let a = other.create_list(Mode::Allow);
        let b = other.create_list(Mode::Block);
        let e = other.setup_extra_metas(&[a, b]).unwrap();
        (a, b, other.get(&e).data)
    };
    let (_, count, metas) = entries(&vm.get(&extra).data);
    assert_eq!((fresh.0, fresh.1), (l1, l2));
    assert_eq!(vm.get(&extra).data, fresh.2);
    assert_eq!(count, 4);
    assert_eq!(metas, vec![fixed(&l1), recipe(5), fixed(&l2), recipe(7)]);
    vm.setup_extra_metas(&[]).unwrap();
    let account = vm.get(&extra);
    assert_eq!(account.data.len(), 16);
    assert_eq!(account.lamports, min_balance(16));
    assert_eq!(entries(&account.data).1, 0);
    assert_eq!(total(&vm, &extra), sum);
}

#[test]
fn setup_extra_metas_rejects_more_than_five_lists() {
    let mut vm = Vm::new();
    let lists: Vec<Key> = (0..6).map(|_| vm.create_list(Mode::Allow)).collect();
    assert_eq!(vm.setup_extra_metas(&lists), Err(ProgramError::Custom(ABLError::InvalidData)));
    assert!(vm.setup_extra_metas(&lists[..5]).is_ok());
}

#[test]
fn setup_extra_metas_checks_mint_config_and_lists() {
    let mut vm = Vm::new();
    let list = vm.create_list(Mode::Allow);
    let (extra, _) = extra_metas_address(&PROGRAM_ID, &MINT).unwrap();
    let keys = [
        (AUTH, true, true),
        (MINT_CONFIG, false, false),
        (MINT, false, false),
        (extra, false, true),
        (SYSTEM_ID, false, false),
        (list, false, false),
    ];
    assert_eq!(vm.run(&keys, &[4u8], None), Err(ProgramError::Custom(ABLError::InvalidMintConfig)));
    let other = MintConfig { mint: MINT, freeze_authority: [1u8; 32] };
    assert_eq!(vm.run(&keys, &[4u8], Some(other)), Err(ProgramError::Custom(ABLError::InvalidAuthority)));
    let mut bad = keys.to_vec();
    bad[5] = (TOKEN_ACCOUNT, false, false);
    let cfg = MintConfig { mint: MINT, freeze_authority: AUTH };
    assert_eq!(vm.run(&bad, &[4u8], Some(cfg)), Err(ProgramError::Custom(ABLError::InvalidConfigAccount)));
    let mut wrong = keys.to_vec();
    wrong[3] = (TOKEN_ACCOUNT, false, true);
    assert_eq!(vm.run(&wrong, &[4u8], Some(cfg)), Err(ProgramError::Custom(ABLError::InvalidExtraMetasAccount)));
}

#[test]
fn fails_to_thaw_non_whitelisted_wallet() {
    let mut vm = Vm::new();
    let list = vm.create_list(Mode::Allow);
    vm.setup_extra_metas(&[list]).unwrap();
    assert_eq!(vm.thaw(&eoa(), &[list]), blocked());
}

#[test]
fn thaws_whitelisted_wallet() {
    let mut vm = Vm::new();
    let list = vm.create_list(Mode::Allow);
    vm.setup_extra_metas(&[list]).unwrap();
    vm.add_wallet(&list, &eoa()).unwrap();
    assert!(vm.thaw(&eoa(), &[list]).is_ok());
}

#[test]
fn thaws_non_blocked_wallet() {
    let mut vm = Vm::new();
    let list = vm.create_list(Mode::Block);
    vm.setup_extra_metas(&[list]).unwrap();
    assert!(vm.thaw(&eoa(), &[list]).is_ok());
}

#[test]
fn fails_to_thaw_blocked_wallet() {
    let mut vm = Vm::new();
    let list = vm.create_list(Mode::Block);
    vm.setup_extra_metas(&[list]).unwrap();
    vm.add_wallet(&list, &eoa()).unwrap();
    assert_eq!(vm.thaw(&eoa(), &[list]), blocked());
}

#[test]
fn fails_to_thaw_non_eoa_wallet() {
    let mut vm = Vm::new();
    let list = vm.create_list(Mode::AllowAllEoas);
    vm.setup_extra_metas(&[list]).unwrap();
    assert_eq!(vm.thaw(&list, &[list]), blocked());
}

#[test]
fn thaws_non_eoa_added_owner() {
    let mut vm = Vm::new();
    let list = vm.create_list(Mode::AllowAllEoas);
    vm.setup_extra_metas(&[list]).unwrap();
    vm.add_wallet(&list, &list).unwrap();
    assert!(vm.thaw(&list, &[list]).is_ok());
}

#[test]
fn thaws_eoa_wallet() {
    let mut vm = Vm::new();
    let list = vm.create_list(Mode::AllowAllEoas);
    vm.setup_extra_metas(&[list]).unwrap();
    assert!(vm.thaw(&eoa(), &[list]).is_ok());
}

#[test]
fn thaws_eoa_wallet_on_ata_creation() {
    let mut vm = Vm::new();
    let list = vm.create_list(Mode::AllowAllEoas);
    vm.setup_extra_metas(&[list]).unwrap();
    let mut owner = vm.get(&eoa());
    owner.lamports = 1_000_000_000;
    vm.accounts.insert(eoa(), owner);
    assert!(vm.thaw(&eoa(), &[list]).is_ok());
    assert!(vm.thaw(&eoa(), &[list]).is_ok());
}

#[test]
fn setups_composite_lists() {
    let mut vm = Vm::new();
    let allow = vm.create_list(Mode::Allow);
    let block = vm.create_list(Mode::Block);
    let eoas = vm.create_list(Mode::AllowAllEoas);
    assert!(vm.setup_extra_metas(&[allow, block, eoas]).is_ok());
}

#[test]
fn thaws_eoa_wallet_in_composite_lists() {
    let mut vm = Vm::new();
    let block = vm.create_list(Mode::Block);
    let eoas = vm.create_list(Mode::AllowAllEoas);
    vm.setup_extra_metas(&[block, eoas]).unwrap();
    assert!(vm.thaw(&eoa(), &[block, eoas]).is_ok());
}

#[test]
fn fails_thaw_blocked_eoa_wallet_in_composite_lists() {
    let mut vm = Vm::new();
    let block = vm.create_list(Mode::Block);
    let eoas = vm.create_list(Mode::AllowAllEoas);
    vm.setup_extra_metas(&[block, eoas]).unwrap();
    vm.add_wallet(&block, &eoa()).unwrap();
    assert_eq!(vm.thaw(&eoa(), &[block, eoas]), blocked());
}

#[test]
fn fails_thaw_non_allowed_eoa_wallet_in_composite_lists() {
    let mut vm = Vm::new();
    let allow = vm.create_list(Mode::Allow);
    let eoas = vm.create_list(Mode::AllowAllEoas);
    vm.setup_extra_metas(&[allow, eoas]).unwrap();
    assert_eq!(vm.thaw(&eoa(), &[allow, eoas]), blocked());
}

#[test]
fn fails_thaw_non_eoa_wallet_in_composite_lists() {
    let mut vm = Vm::new();
    let block = vm.create_list(Mode::Block);
    let eoas = vm.create_list(Mode::AllowAllEoas);
    vm.setup_extra_metas(&[block, eoas]).unwrap();
    assert_eq!(vm.thaw(&block, &[block, eoas]), blocked());
}

#[test]
fn thaws_non_eoa_wallet_in_composite_lists() {
    let mut vm = Vm::new();
    let block = vm.create_list(Mode::Block);
    let eoas = vm.create_list(Mode::AllowAllEoas);
    let eoas_with_pda = vm.create_list(Mode::AllowAllEoas);
    vm.setup_extra_metas(&[block, eoas, eoas_with_pda]).unwrap();
    vm.add_wallet(&eoas_with_pda, &block).unwrap();
    assert_eq!(vm.thaw(&block, &[block, eoas, eoas_with_pda]), blocked());
}

#[test]
fn block_list_member_vetoes_despite_other_lists() {
    let mut vm = Vm::new();
    let pda = vm.create_list(Mode::Allow);
    let block = vm.create_list(Mode::Block);
    let eoas = vm.create_list(Mode::AllowAllEoas);
    vm.add_wallet(&block, &pda).unwrap();
    vm.add_wallet(&eoas, &pda).unwrap();
    assert!(vm.thaw(&pda, &[eoas]).is_ok());
    assert_eq!(vm.thaw(&pda, &[block, eoas]), blocked());
}

#[test]
fn no_lists_allow_thaw() {
    let mut vm = Vm::new();
    assert!(vm.thaw(&eoa(), &[]).is_ok());
}

#[test]
fn thaw_with_dangling_list_fails() {
    let mut vm = Vm::new();
    let list = vm.create_list(Mode::Block);
    let (extra, _) = extra_metas_address(&PROGRAM_ID, &MINT).unwrap();
    let keys = [
        (AUTH, false, false),
        (TOKEN_ACCOUNT, false, false),
        (MINT, false, false),
        (eoa(), false, false),
        (extra, false, false),
        (list, false, false),
    ];
    assert_eq!(vm.run(&keys, &[8u8], None), Err(ProgramError::Custom(ABLError::NotEnoughAccounts)));
    assert_eq!(vm.run(&keys[..3], &[8u8], None), Err(ProgramError::Custom(ABLError::NotEnoughAccounts)));
}

#[test]
fn thaw_verdict_table() {
    let b = Err(ABLError::AccountBlocked);
    assert_eq!(thaw_verdict(Mode::Allow, true, false), b);
    assert_eq!(thaw_verdict(Mode::Allow, false, true), Ok(()));
    assert_eq!(thaw_verdict(Mode::Block, true, false), Ok(()));
    assert_eq!(thaw_verdict(Mode::Block, true, true), b);
    assert_eq!(thaw_verdict(Mode::AllowAllEoas, true, false), Ok(()));
    assert_eq!(thaw_verdict(Mode::AllowAllEoas, false, false), b);
    assert_eq!(thaw_verdict(Mode::AllowAllEoas, false, true), Ok(()));
}

#[test]
fn unknown_and_empty_opcodes_fail() {
    let mut vm = Vm::new();
    assert_eq!(vm.run(&[(AUTH, true, true)], &[], None), Err(ProgramError::Custom(ABLError::InvalidInstruction)));
    assert_eq!(vm.run(&[(AUTH, true, true)], &[6u8], None), Err(ProgramError::InvalidInstructionData));
}

#[test]
fn derived_addresses_differ_by_input() {
    let a = list_config_address(&PROGRAM_ID, &AUTH, &[1u8; 32]).unwrap();
    let b = list_config_address(&PROGRAM_ID, &AUTH, &[2u8; 32]).unwrap();
    let c = list_config_address(&PROGRAM_ID, &[3u8; 32], &[1u8; 32]).unwrap();
    assert_ne!(a.0, b.0);
    assert_ne!(a.0, c.0);
    assert_eq!(a, list_config_address(&PROGRAM_ID, &AUTH, &[1u8; 32]).unwrap());
    assert_ne!(a.0, [1u8; 32]);
}

#[test]
fn codec_round_trips_and_checks_length_and_tag() {
    let config = ListConfig::new([4u8; 32], [5u8; 32], 2);
    let mut bytes = config.to_bytes();
    assert_eq!(bytes.len(), LIST_CONFIG_LEN);
    assert_eq!(load::<ListConfig>(&bytes), Ok(config));
    assert_eq!(bytes[66..74], [0u8; 8]);
    let mut bumped = config;
    bumped.increment_wallets_count().unwrap();
    assert_eq!(bumped.to_bytes()[66], 1);
    bytes[0] = 2;
    assert_eq!(load::<ListConfig>(&bytes), Err(ABLError::InvalidAccountData));
    assert_eq!(load::<ListConfig>(&bytes[..73]), Err(ABLError::InvalidAccountData));
    let mut full = ListConfig::new([0u8; 32], [0u8; 32], 0);
    full.wallets_count = u64::MAX;
    assert!(full.increment_wallets_count().is_err());
    let mut empty = ListConfig::new([0u8; 32], [0u8; 32], 0);
    assert!(empty.decrement_wallets_count().is_err());
    assert_eq!(empty.wallets_count, 0);
}
