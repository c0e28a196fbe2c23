//! Terminal viewer library for a fixed binary capture format: a 16-byte file
//! header followed by self-describing records (16-byte record header plus a
//! variable-length payload). The library parses a capture buffer, classifies
//! every byte offset by the structural region that owns it, renders hex-dump
//! lines with annotation columns, and tracks a pagination viewport.

pub mod args;
pub mod classify;
pub mod display;
pub mod error;
pub mod hex_display;
pub mod keyboard;
pub mod pagination;
pub mod parser;
pub mod terminal;
pub mod textfmt;
pub mod timestamp;
pub mod viewer;
