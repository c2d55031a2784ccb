//! Settings that tell a documentation build how to run the d2 diagram renderer.
//!
//! A settings document is read into a typed [`config::Config`]; whatever the
//! document leaves out takes the value given in [`default`].

pub mod accept;
pub mod config;
pub mod default;
pub mod document;
pub mod emit;
pub mod error;
pub mod parse;
pub mod schema;
