//! A verified model of a layered preference store, together with the value
//! decoding and scope-resolution logic of a small preference-probing tool.
//!
//! The platform's preference subsystem is reached only from unverified driver
//! code; everything here works on plain modeled values, so the decoding and
//! resolution rules are proved once and hold for any backing store.

pub mod render;
pub mod resolver;
pub mod scope;
pub mod store;
pub mod value;
