//! The operations of the ledger, one module per area.

pub mod governance;
pub mod group;
pub mod marketplace;
pub mod platform;
pub mod post;
pub mod shares;
pub mod social;
pub mod subscription;
pub mod user;
