//! A memory-safe layer over a native, non-reentrant ephemeris and geometry library.
//!
//! The native library keeps global mutable state (a sticky failure flag, error modes, loaded
//! kernels) and tolerates no concurrent entry. This crate holds the logic that makes it safe to
//! depend on:
//!
//! * [`lock`]: the access serializer, which alone hands out the [`Spice`] access token;
//! * [`error`]: the error bridge, which turns the sticky failure flag into a one-shot `Result`;
//! * [`string`]: the string bridge between host text and nul-terminated native buffers.
//!
//! Around them stand the native names of the library's enums ([`common`]), kernel loading
//! ([`data`]), the layout of native cells ([`cell`]), and the text of times and dates ([`time`]).
//!
//! The native entry points themselves are performed by the host program, which hands their
//! results back to the functions here.
pub mod cell;
pub mod common;
pub mod data;
pub mod error;
pub mod lock;
pub mod string;
pub mod time;

pub use crate::error::Error;
pub use crate::lock::{Spice, SpiceLock, SpiceLockError};
pub use crate::string::SpiceString;
