//! The 6502 processor.
pub mod opcodes;
pub mod status_flags;
pub mod spec;
pub mod cpu2;
pub mod labels;
pub mod addressing_type;
pub mod compare_logs;
