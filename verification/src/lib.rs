//! Building blocks for parachain block production.
//!
//! - [`block_weight`]: the dynamic block weight of a parachain, which decides
//!   whether a block may use a fraction of a relay core or the whole of it.
//! - [`max_parachain_block_weight`]: the same with a target number of blocks
//!   that the caller names.
//! - [`system`], [`digest`], [`dispatch`], [`weight`]: the block under
//!   construction and what is read from it and written to it.
//! - [`collator`]: the decisions of a collator that turns blocks into a
//!   collation.
//! - [`evm`]: admission of EVM contract code.
//! - [`block_builder`]: the rate at which a chain builds its blocks.

pub mod block_builder;
pub mod block_weight;
pub mod collator;
pub mod digest;
pub mod dispatch;
pub mod evm;
pub mod max_parachain_block_weight;
pub mod system;
pub mod weight;
