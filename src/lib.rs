//! Diagnostic decoding for a live microcontroller debug session: status
//! classification, chip identity, debug-unit catalog rendering, trace state
//! and register annotation, all on plain values read by the caller.
pub mod components;
pub mod identity;
pub mod progress;
pub mod registers;
pub mod report;
pub mod session;
pub mod status;
pub mod text;
pub mod trace;
