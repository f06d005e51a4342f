//! A minimal hash-linked ledger: blocks that commit to their predecessor by
//! digest, and a validator for chains of such blocks.
//!
//! A block's digest is the SHA-256 digest of its index, its predecessor's
//! digest, the second of its timestamp and its payload. A chain is valid when
//! it starts with the genesis block and every later block names the stored
//! digest of the block before it, carries the next index, and stores the
//! digest of its own fields.

pub mod args;
pub mod block;
pub mod chain;
pub mod encoding;
pub mod error;
pub mod sha;
pub mod time;

pub use crate::args::BlockArgs;
pub use crate::block::Block;
pub use crate::block::BlockView;
pub use crate::block::LinkFault;
pub use crate::chain::check_chain;
pub use crate::chain::is_valid_chain;
pub use crate::chain::ChainStatus;
pub use crate::error::BlockError;
pub use crate::time::Timestamp;
