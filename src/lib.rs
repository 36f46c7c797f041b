//! Decoding of on-chain instruction call-trees into canonical events for a
//! family of AMM and launch programs.
//!
//! - `bytes`: little-endian field readers and the decode errors.
//! - `tree`: transactions, their instruction trees and the pre-order walk.
//! - `logs`, `source`: where an instruction's event record is found, as a
//!   CPI echo among its children or as a data log line.
//! - `pumpfun_amm`, `pumpswap`, `frens`: one decoder set per program family,
//!   each with its tag tables, account-role schemas and event normalizers,
//!   up to whole transactions and blocks.
pub mod bytes;
pub mod tree;
mod codec;
pub mod logs;
pub mod source;
pub mod pumpfun_amm;
pub mod pumpswap;
pub mod frens;
