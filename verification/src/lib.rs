//! Extension hooks for a DNS resolver.
//!
//! Operator-supplied modules may inspect, rewrite or drop DNS packets at two
//! points of a request: when a packet is received and just before it is
//! delivered. This crate holds the logic of that framework: the vocabulary
//! of stages and actions, the decision of what to do with each discovered
//! module file, the registry of loaded services, and the protocol around a
//! hook call. Loading foreign code and calling into it are left to the
//! caller; every decision around those two steps is made, and proved, here.
//!
//! At startup the caller makes a registry with `Hooks::new`, lists the files
//! that match `Hooks::pattern`, asks `ModuleFile::examine` what to do with
//! each, loads every module that it is told to open, and hands files and
//! loads to `Hooks::load_libraries`, which keeps the master module and
//! reports each file that was skipped. On each request it calls
//! `apply_clientside` or
//! `apply_serverside`; where a hook call is due it invokes the entry point
//! on the packet and hands the status to `Invocation::complete`.

pub mod action;
pub mod hooks;
pub mod lemmas;
pub mod loader;
pub mod packet;
pub mod service;
pub mod text;
pub mod trie;
