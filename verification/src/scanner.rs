//! Scanning of one url.

pub mod ferox_scanner;
