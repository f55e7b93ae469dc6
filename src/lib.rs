//! Validation and dispatch for an instruction gateway in front of an asset protocol.
//!
//! A raw payload is decoded into one operation, the instruction's accounts are
//! bound to that operation's roles under its capability table, and only then is
//! the single call into the asset protocol settled.
pub mod account;
pub mod binding;
pub mod checks;
pub mod codec;
pub mod instructions;
pub mod processor;

pub use account::{AccountRef, ProgramIds};
pub use binding::{BindError, Role};
pub use checks::{CheckError, Requirement};
pub use codec::{
    CreateNftV1InstructionData, DataState, DecodeError, Instructions, PluginList,
    UpdateNftV1InstructionData,
};
pub use instructions::create_nft_v1::{CreateNftV1, CreateNftV1Accounts, CreateV1Call};
pub use instructions::transfer_nft_v1::{TransferNftV1, TransferNftV1Accounts, TransferV1Call};
pub use instructions::update_nft_v1::{UpdateNftV1, UpdateNftV1Accounts, UpdateV1Call};
pub use processor::{process_entrypoint, GatewayError, Invocation};
