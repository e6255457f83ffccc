//! On-ledger record and mint program: instruction decoding, program-address
//! derivation, the record's binary layout, and the validation that precedes
//! every account creation.
pub mod address;
pub mod error;
pub mod instruction;
pub mod processor;
pub mod state;

pub use address::{find_program_address, Address};
pub use error::OnchainAccountError;
pub use instruction::OnchainAccountInstruction;
pub use processor::{
    process_create_onchain_account, process_initialize_mint, process_instruction, AccountRef,
    Action, CreateAccountRequest, KnownPrograms, MintCreation, RecordCreation, MINT_ACCOUNT_LEN,
    MINT_DECIMALS,
};
pub use state::{OnchainAccountState, MAX_RECORD_ID, RECORD_ACCOUNT_LEN, RECORD_OVERHEAD};
