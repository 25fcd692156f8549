//! A terminal trading dashboard: account and ledger records, a catalog of
//! cached price series, and the interactive session that drives it.
pub mod catalog;
pub mod decimal;
pub mod records;
pub mod render;
pub mod session;
pub mod text;
