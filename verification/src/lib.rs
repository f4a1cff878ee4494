//! Small demonstrations of ownership, duplication and borrowing, each of
//! which hands back the exact text it shows so that a caller can print it.

pub mod console;
pub mod decimal;
pub mod ownership;
pub mod references;
