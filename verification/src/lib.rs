//! Core logic of a bidirectional UDP proxy that obfuscates datagram payloads.
//!
//! The proxy listens on one or more UDP sockets, runs every datagram
//! through a reversible transform and forwards it to an upstream; replies
//! take the same way back. Two proxies with the same transform, one behind
//! the other, form a tunnel that hands payloads on unchanged while the
//! traffic between them is obfuscated.
//!
//! This crate holds what such a proxy decides and computes: the transforms,
//! the flow table, the choice of addresses and the steps of its loops. It
//! opens no socket and starts no task; the program around it does, and puts
//! each event to the function here that says what follows.

pub mod addr;
pub mod common;
pub mod config;
pub mod conntrack;
pub mod dns;
pub mod filters;
pub mod init_logging;
pub mod privileges;
pub mod proxy;
