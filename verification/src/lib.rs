//! Decision logic of a cross-exchange arbitrage engine for EVM chains:
//! pool quoting arithmetic, route evaluation, risk filters, endpoint failover
//! and transaction planning, each with a machine-checked contract.

pub mod address;
pub mod approvals;
pub mod calldata;
pub mod config;
pub mod dex;
pub mod discover;
pub mod error;
pub mod exec;
pub mod legs;
pub mod mev;
pub mod network;
pub mod normalize;
pub mod route;
pub mod router;
pub mod scan;
pub mod text;
pub mod uint;
pub mod utils;
pub mod utils_gas;
