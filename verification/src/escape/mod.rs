//! Byte constants and helpers for Telnet and ANSI escape sequences.
pub mod ansi;
pub mod telnet;
