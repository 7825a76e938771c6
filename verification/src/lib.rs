//! Bounds-checked binary images, their header layout, and reversible byte
//! patches for a running process.
//!
//! - [`exe`] holds an image as bytes and reads and writes them with every
//!   access checked; [`exe::headers`] reads the header layout of an image.
//! - [`pod`] is the little-endian encoding of the values that images and
//!   processes hold.
//! - [`handler`] finds the target process and checks that it is the
//!   supported build; [`handler::compact_patch`] and [`handler::filters`]
//!   are the features that patch it.
//! - [`patches`] is the reversible patch itself, with what it does to the
//!   memory it is written to; [`memory`] is the list of requests that a
//!   patch comes down to, and the run of such a list.
//! - [`plugin`] and [`plugins`] are the features as a host application
//!   loads, shows and stores them; [`config`] is what it stores, and
//!   [`shell`] what else it shows and asks.
//!
//! The library asks nothing of the operating system itself. It says what
//! is to be asked, and decides on what comes back.

pub mod config;
pub mod exe;
pub mod handler;
pub mod memory;
pub mod patches;
pub mod plugin;
pub mod plugins;
pub mod pod;
pub mod shell;
pub mod utils;
