//! Admission checks for a reverse-tunnel server: the handshake that a client's
//! first message goes through before its connection may carry traffic.
pub mod account;
pub mod digest;
pub mod handshake;
pub mod hello;
pub mod subdomain;
pub mod text;
pub mod token;
