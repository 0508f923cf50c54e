//! Decision logic of a dynamic DNS updater that keeps Route53 A/AAAA
//! records in line with the addresses of local network interfaces.
pub mod config;
pub mod dns;
pub mod error;
pub mod resolve;
pub mod text;
