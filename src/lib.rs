//! Allow/block list policy engine for gating token unfreezes.
//!
//! Authorization lists and per-wallet membership records live as fixed-layout
//! records on a ledger of accounts; the instruction handlers create, mutate and
//! destroy them, and the hook entry point decides whether a wallet may thaw.

pub mod address;
pub mod error;
pub mod instructions;
pub mod keys;
pub mod laws;
pub mod ledger;
pub mod metas;
pub mod processor;
pub mod state;

pub use address::{extra_metas_address, list_config_address, wallet_entry_address};
pub use error::{ABLError, ProgramError};
pub use instructions::add_wallet::AddWallet;
pub use instructions::can_thaw_permissionless::{thaw_verdict, CanThawPermissionless};
pub use instructions::create_list::CreateList;
pub use instructions::delete_list::DeleteList;
pub use instructions::remove_wallet::RemoveWallet;
pub use instructions::setup_extra_metas::{MintConfig, SetupExtraMetas, MAX_LISTS};
pub use keys::Key;
pub use ledger::{Account, Runtime};
pub use metas::ExtraMeta;
pub use processor::process_instruction;
pub use state::{
    load, load_unchecked, Discriminator, ListConfig, Mode, Transmutable, WalletEntry,
    LIST_CONFIG_LEN, WALLET_ENTRY_LEN,
};
