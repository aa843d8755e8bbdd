//! Write-ahead-log record framing and the column planning of record types.
pub mod record;
pub mod serdes;
pub mod wal;
