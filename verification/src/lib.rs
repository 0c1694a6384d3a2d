//! Verified state machines of the CarbonLedger contracts: credit issuance and
//! retirement, the credit marketplace, the price and monitoring oracle, and the
//! project registry.

pub mod common;
pub mod decimal;
pub mod history;
pub mod table;
pub mod serial_index;
pub mod credit;
pub mod credit_laws;
pub mod marketplace;
pub mod market_laws;
pub mod registry;
pub mod registry_laws;
pub mod oracle;
pub mod oracle_laws;
