//! The core of a container engine for FreeBSD jails, ZFS and pf: the data
//! model, the parsers and the decisions, each function with a contract
//! that Verus proves.
//!
//! The library does no input or output. Where the host has to work (a
//! program, a system call, a file, a download), the library hands out a
//! plan that says what to do, and takes the outcome back to decide what
//! follows.

pub mod api;
pub mod bootstrap;
pub mod cli;
pub mod command;
pub mod config;
pub mod container;
pub mod handler;
pub mod ids;
pub mod image;
pub mod image_builder;
pub mod jail;
pub mod manager;
pub mod networking;
pub mod number;
pub mod path;
pub mod restart;
pub mod rows;
pub mod server;
pub mod store;
pub mod strmap;
pub mod text;
pub mod tracker;
pub mod zfs;

pub use manager::JailManager;
