//! Client-side model of the Apricot lending protocol: the wire layout of its
//! accounts and commands, the catalogue of its pools, the derivation of its
//! account addresses and the assembly of its instructions.
//!
//! Nothing here talks to a network. A caller fetches the bytes of an account,
//! has them read here, and signs and sends the instructions that are built
//! here.

pub mod anchor;
pub mod client;
pub mod codec;
pub mod config;
pub mod consts;
pub mod error;
pub mod instructions;
pub mod pubkey;
pub mod samples;
pub mod state;
pub mod utils;
