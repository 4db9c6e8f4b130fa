//! An atomic two-party token-swap escrow.
//!
//! One party (the initializer) deposits token A into a custody account and
//! records the token B amount and destination it expects in return; a second
//! party (the taker) later completes the swap atomically. The crate holds the
//! on-chain core: decoding untrusted instruction bytes, the fixed-layout
//! escrow record codec, and the state machine that validates every supplied
//! account and constructs the custody-transfer requests that the external
//! token-custody program carries out.

pub mod authority;
pub mod bytes;
pub mod error;
pub mod instruction;
pub mod processor;
pub mod state;
pub mod token_account;
