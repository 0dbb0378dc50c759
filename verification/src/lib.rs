//! Command line layer of jsonl-peek, quick health checks for JSONL datasets:
//! argument scanning, number parsing, messages, exit statuses and the usage text.

pub mod decimal;
pub mod text;
pub mod fail;
pub mod options;
pub mod scan;
pub mod command;
pub mod session;
pub mod laws;
pub mod option_laws;
