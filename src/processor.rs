use vstd::prelude::*;

use crate::error::{ABLError, ProgramError};
use crate::instructions::add_wallet::{add_wallet_check, add_wallet_outcome, added, AddWallet};
use crate::instructions::can_thaw_permissionless::{decide_pairs, CanThawPermissionless};
use crate::instructions::create_list::{create_list_outcome, created, CreateList};
use crate::instructions::delete_list::{delete_list_outcome, deleted, DeleteList};
use crate::instructions::remove_wallet::{remove_wallet_check, remove_wallet_outcome, removed, RemoveWallet};
use crate::instructions::setup_extra_metas::{
    configured, setup_extra_metas_check, setup_extra_metas_outcome, MintConfig, SetupExtraMetas,
};
use crate::ledger::{Account, Runtime};

verus! {

/// Whether `r` is what an operation gives whose structural checks gave
/// `check` and whose processing, once they pass, gives `outcome`.
pub open spec fn dispatched(
    r: Result<Vec<Account>, ProgramError>,
    check: Result<(), ABLError>,
    outcome: Result<(), ProgramError>,
) -> bool {
    match check {
        Err(e) => r == Err::<Vec<Account>, ProgramError>(ProgramError::Custom(e)),
        Ok(_) => match outcome {
            Err(e) => r == Err::<Vec<Account>, ProgramError>(e),
            Ok(_) => r is Ok,
        },
    }
}

/// The structural checks of a list creation, in order.
pub open spec fn create_list_check(rt: Runtime, a: Seq<Account>) -> Result<(), ABLError> {
    if a.len() != 3 {
        Err(ABLError::NotEnoughAccounts)
    } else if a[2].key@ != rt.system_program_id@ {
        Err(ABLError::InvalidSystemProgram)
    } else {
        Ok(())
    }
}

/// The structural checks of a list deletion, in order.
pub open spec fn delete_list_check(rt: Runtime, a: Seq<Account>) -> Result<(), ABLError> {
    if a.len() != 2 {
        Err(ABLError::NotEnoughAccounts)
    } else if a[1].owner@ != rt.program_id@ {
        Err(ABLError::InvalidConfigAccount)
    } else {
        Ok(())
    }
}

/// The accounts of a list creation, from the accounts in host order.
pub open spec fn create_list_of(a: Seq<Account>) -> CreateList {
    CreateList { authority: a[0], list_config: a[1], system_program: a[2] }
}

/// The accounts of a list deletion, from the accounts in host order.
pub open spec fn delete_list_of(a: Seq<Account>) -> DeleteList {
    DeleteList { authority: a[0], list_config: a[1] }
}

/// The accounts of a membership addition, from the accounts in host order.
pub open spec fn add_wallet_of(a: Seq<Account>) -> AddWallet {
    AddWallet { authority: a[0], list_config: a[1], wallet: a[2], wallet_entry: a[3], system_program: a[4] }
}

/// The accounts of a membership removal, from the accounts in host order.
pub open spec fn remove_wallet_of(a: Seq<Account>) -> RemoveWallet {
    RemoveWallet { authority: a[0], list_config: a[1], wallet_entry: a[2] }
}

/// Runs the operation that the first byte of `instruction_data` selects on
/// `accounts`, and hands back the accounts as the operation left them, in
/// the order they came. `mint_config` is the decoded mint configuration
/// record, which only configuration reads: the record's layout belongs to
/// the token access-control program, so its owner decodes it and passes
/// `None` where it does not decode.
pub fn process_instruction(
    rt: &Runtime,
    accounts: Vec<Account>,
    instruction_data: &[u8],
    mint_config: Option<MintConfig>,
) -> (r: Result<Vec<Account>, ProgramError>)
    ensures
        instruction_data@.len() == 0 ==> r == Err::<Vec<Account>, ProgramError>(
            ProgramError::Custom(ABLError::InvalidInstruction),
        ),
        instruction_data@.len() > 0 ==> {
            let op = instruction_data@[0];
            let a = accounts@;
            &&& op == 8 ==> dispatched(
                r,
                if a.len() >= 5 { Ok(()) } else { Err(ABLError::NotEnoughAccounts) },
                decide_pairs(a.skip(5), a[3].key),
            )
            &&& op == 8 ==> (r matches Ok(v) ==> v@ == a)
            &&& op == 1 ==> dispatched(
                r,
                create_list_check(*rt, a),
                create_list_outcome(*rt, a[0], a[1], instruction_data@.skip(1)),
            )
            &&& op == 1 ==> (r matches Ok(v) ==> v@.len() == 3 && created(
                *rt,
                create_list_of(a),
                create_list_of(v@),
                instruction_data@.skip(1),
            ))
            &&& op == 5 ==> dispatched(r, delete_list_check(*rt, a), delete_list_outcome(a[0], a[1]))
            &&& op == 5 ==> (r matches Ok(v) ==> v@.len() == 2 && deleted(delete_list_of(a), delete_list_of(v@)))
            &&& op == 2 ==> (r matches Ok(v) ==> v@.len() == 5 && added(*rt, add_wallet_of(a), add_wallet_of(v@)))
            &&& op == 3 ==> (r matches Ok(v) ==> v@.len() == 3 && removed(remove_wallet_of(a), remove_wallet_of(v@)))
            &&& op == 4 ==> (r matches Ok(v) ==> configured(*rt, a, v@))
            &&& op == 2 ==> dispatched(
                r,
                add_wallet_check(*rt, a),
                add_wallet_outcome(*rt, add_wallet_of(a)),
            )
            &&& op == 3 ==> dispatched(
                r,
                remove_wallet_check(*rt, a),
                remove_wallet_outcome(remove_wallet_of(a)),
            )
            &&& op == 4 ==> dispatched(
                r,
                setup_extra_metas_check(*rt, a),
                setup_extra_metas_outcome(*rt, a[0], a[2], a[3], a.skip(5), mint_config),
            )
            &&& op != 1 && op != 2 && op != 3 && op != 4 && op != 5 && op != 8 ==> r
                == Err::<Vec<Account>, ProgramError>(ProgramError::InvalidInstructionData)
        },
{
    if instruction_data.len() == 0 {
        return Err(ProgramError::Custom(ABLError::InvalidInstruction));
    }
    let op = instruction_data[0];
    if op == CanThawPermissionless::DISCRIMINATOR {
        run_can_thaw(accounts)
    } else if op == CreateList::DISCRIMINATOR {
        let data = vstd::slice::slice_subrange(instruction_data, 1, instruction_data.len());
        assert(data@ =~= instruction_data@.skip(1));
        run_create_list(rt, accounts, data)
    } else if op == DeleteList::DISCRIMINATOR {
        run_delete_list(rt, accounts)
    } else if op == AddWallet::DISCRIMINATOR {
        run_add_wallet(rt, accounts)
    } else if op == RemoveWallet::DISCRIMINATOR {
        run_remove_wallet(rt, accounts)
    } else if op == SetupExtraMetas::DISCRIMINATOR {
        run_setup_extra_metas(rt, accounts, mint_config)
    } else {
        Err(ProgramError::InvalidInstructionData)
    }
}

fn run_can_thaw(accounts: Vec<Account>) -> (r: Result<Vec<Account>, ProgramError>)
    ensures
        dispatched(
            r,
            if accounts@.len() >= 5 { Ok(()) } else { Err(ABLError::NotEnoughAccounts) },
            decide_pairs(accounts@.skip(5), accounts@[3].key),
        ),
        r matches Ok(v) ==> v@ == accounts@,
{
    let ghost a = accounts@;
    let check = match CanThawPermissionless::try_from(accounts) {
        Ok(c) => c,
        Err(e) => return Err(ProgramError::Custom(e)),
    };
    if let Err(e) = check.process() {
        return Err(e);
    }
    let mut out: Vec<Account> = vec![check.authority, check.token_account, check.mint, check.owner, check.extra_metas];
    let mut rest = check.remaining_accounts;
    out.append(&mut rest);
    assert(out@ =~= a);
    Ok(out)
}

fn run_create_list(rt: &Runtime, accounts: Vec<Account>, data: &[u8]) -> (r: Result<Vec<Account>, ProgramError>)
    ensures
        dispatched(r, create_list_check(*rt, accounts@), create_list_outcome(*rt, accounts@[0], accounts@[1], data@)),
        r matches Ok(v) ==> v@.len() == 3 && created(*rt, create_list_of(accounts@), create_list_of(v@), data@),
{
    let mut create = match CreateList::try_from(accounts, rt) {
        Ok(c) => c,
        Err(e) => return Err(ProgramError::Custom(e)),
    };
    if let Err(e) = create.process(rt, data) {
        return Err(e);
    }
    Ok(vec![create.authority, create.list_config, create.system_program])
}

fn run_delete_list(rt: &Runtime, accounts: Vec<Account>) -> (r: Result<Vec<Account>, ProgramError>)
    ensures
        dispatched(r, delete_list_check(*rt, accounts@), delete_list_outcome(accounts@[0], accounts@[1])),
        r matches Ok(v) ==> v@.len() == 2 && deleted(delete_list_of(accounts@), delete_list_of(v@)),
{
    let mut delete = match DeleteList::try_from(accounts, rt) {
        Ok(d) => d,
        Err(e) => return Err(ProgramError::Custom(e)),
    };
    if let Err(e) = delete.process() {
        return Err(e);
    }
    Ok(vec![delete.authority, delete.list_config])
}

fn run_add_wallet(rt: &Runtime, accounts: Vec<Account>) -> (r: Result<Vec<Account>, ProgramError>)
    ensures
        dispatched(
            r,
            add_wallet_check(*rt, accounts@),
            add_wallet_outcome(*rt, add_wallet_of(accounts@)),
        ),
        r matches Ok(v) ==> v@.len() == 5 && added(*rt, add_wallet_of(accounts@), add_wallet_of(v@)),
{
    let mut add = match AddWallet::try_from(accounts, rt) {
        Ok(w) => w,
        Err(e) => return Err(ProgramError::Custom(e)),
    };
    if let Err(e) = add.process(rt) {
        return Err(e);
    }
    Ok(vec![add.authority, add.list_config, add.wallet, add.wallet_entry, add.system_program])
}

fn run_remove_wallet(rt: &Runtime, accounts: Vec<Account>) -> (r: Result<Vec<Account>, ProgramError>)
    ensures
        dispatched(
            r,
            remove_wallet_check(*rt, accounts@),
            remove_wallet_outcome(remove_wallet_of(accounts@)),
        ),
        r matches Ok(v) ==> v@.len() == 3 && removed(remove_wallet_of(accounts@), remove_wallet_of(v@)),
{
    let mut remove = match RemoveWallet::try_from(accounts, rt) {
        Ok(w) => w,
        Err(e) => return Err(ProgramError::Custom(e)),
    };
    if let Err(e) = remove.process() {
        return Err(e);
    }
    Ok(vec![remove.authority, remove.list_config, remove.wallet_entry])
}

fn run_setup_extra_metas(rt: &Runtime, accounts: Vec<Account>, mint_config: Option<MintConfig>) -> (r: Result<
    Vec<Account>,
    ProgramError,
>)
    ensures
        dispatched(
            r,
            setup_extra_metas_check(*rt, accounts@),
            setup_extra_metas_outcome(*rt, accounts@[0], accounts@[2], accounts@[3], accounts@.skip(5), mint_config),
        ),
        r matches Ok(v) ==> configured(*rt, accounts@, v@),
{
    let ghost a = accounts@;
    let mut setup = match SetupExtraMetas::try_from(accounts, rt) {
        Ok(s) => s,
        Err(e) => return Err(ProgramError::Custom(e)),
    };
    assert(setup.accounts_view() =~= a);
    if let Err(e) = setup.process(rt, mint_config) {
        return Err(e);
    }
    let ghost view = setup.accounts_view();
    let mut out: Vec<Account> = vec![setup.authority, setup.mint_config, setup.mint, setup.extra_metas, setup.system_program];
    let mut rest = setup.remaining_accounts;
    out.append(&mut rest);
    assert(out@ =~= view);
    Ok(out)
}

} // verus!
