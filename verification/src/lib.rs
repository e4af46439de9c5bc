//! Binary command codec for a custodial, multi-asset liquidity-pool program.
//!
//! A pool is driven by seven command kinds, each carried on the wire as a
//! single flat byte buffer: one tag byte followed by the command's fields,
//! all multi-byte integers little-endian. This crate holds the command data
//! model, the decoder ([`instruction::PoolInstruction::unpack`]), the encoder
//! ([`instruction::PoolInstruction::pack`]), and the builders that bundle an
//! encoded command with its ordered participant account list.
//!
//! The encoder and decoder are proved to be exact inverses of one another
//! against a single mathematical description of the wire format
//! ([`codec::spec_encode`] and [`codec::spec_decode`]); the proved laws stand
//! in [`laws`].

pub mod accounts;
pub mod codec;
pub mod error;
pub mod instruction;
pub mod laws;
pub mod types;
