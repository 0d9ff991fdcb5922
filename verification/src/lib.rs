//! Assembly of contract-amendment filings into a canonical document model,
//! together with the line-oriented correction pass that keeps EDI segment
//! counters accurate after address segments are stripped.

pub mod assemble;
pub mod codes;
pub mod config;
pub mod control_number;
pub mod dates;
pub mod digits;
pub mod edi;
pub mod payload;
pub mod records;
pub mod text;
