pub mod base58;
pub mod create;
pub mod error;
pub mod flow;
pub mod indexer;
pub mod instruction;
pub mod json;
pub mod keypair;
pub mod mint;
pub mod pda;
pub mod pubkey;
pub mod transaction;
pub mod transfer;
pub mod tree_size;

pub use crate::base58::{decode_32, encode_32};
pub use crate::create::create_tree_config;
pub use crate::error::{Error, IndexerQuery, KeyFault, LedgerCall, ResolutionFault};
pub use crate::flow::{
    advance, begin_create_tree, begin_mint, begin_transfer, Action, Delivery, Event, Flow, Outcome,
    Signing,
};
pub use crate::indexer::{
    asset_query, get_asset, get_asset_query, get_proof, get_proof_query, AssetState, IndexerReply,
    ProofPath,
};
pub use crate::instruction::{AccountRef, Instruction};
pub use crate::json::{JsonMember, JsonValue};
pub use crate::keypair::{KeyEncoding, KeypairWrapper};
pub use crate::mint::{mint_v1, Creator, Metadata, TokenProgramVersion, TokenStandard};
pub use crate::pda::{derive_asset_id, derive_tree_config};
pub use crate::pubkey::PubkeyWrapper;
pub use crate::transaction::{
    assemble, confirm, serialize_unsigned, submission_bytes, LedgerReply, Receipt, Transaction,
};
pub use crate::transfer::{build_transfer, transfer};
pub use crate::tree_size::{compute_tree_size, default_tree_size, is_supported_depth_buffer};
