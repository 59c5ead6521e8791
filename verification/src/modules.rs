//! The components of the distributor, one file each.

pub mod oracle_mcp;
pub mod registries;
pub mod utils;
pub mod voucher;
