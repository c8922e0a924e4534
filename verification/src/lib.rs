//! System hooks of the ZKsync OS execution environment, with their
//! contracts.
//!
//! Each hook (contract deployer, L1 messenger, L2 base token, nonce holder,
//! known codes) is a short sequence of steps over plain byte values: a step
//! either ends the call with a [`outcome::CallOutcome`] or tells its host
//! what outside data it needs next (an account balance, a bytecode, the price
//! of an L1 message) and is resumed with it.
pub mod words;
pub mod gas;
pub mod outcome;
pub mod chain;
pub mod request;
pub mod l1_messenger;
pub mod l2_base_token;
pub mod l2_base_token_v1;
pub mod deployer;
pub mod deployer_v1;
pub mod nonce_holder;
pub mod known_codes;
pub mod precompiles;
pub mod transaction;
pub mod laws;
