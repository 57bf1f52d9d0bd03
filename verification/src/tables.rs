//! Readers of single tables.

pub mod head;
pub mod os2;
