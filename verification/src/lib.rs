//! A greeting, and the conversion that lets a C caller ask for one.
//!
//! [`hello`] builds the line that greets a name. [`c_hello`] does the same for
//! a name that arrives as a NUL-terminated byte string: it decodes the bytes
//! as UTF-8 and refuses them when they are not text.
//!
//! The functions here compute; writing the line out, and taking a raw pointer
//! from a foreign caller, is left to the code around this crate.
//!
//! - [`greeting`]: the text of a greeting.
//! - [`foreign`]: foreign byte strings, their decoding, and how the two ways
//!   of asking for a greeting agree.
//! - [`encoding`]: why a NUL-terminated string can carry any text but U+0000.
//! - [`error`]: the reason for which a foreign name is refused.

pub mod encoding;
pub mod error;
pub mod foreign;
pub mod greeting;

pub use error::BoundaryError;
pub use foreign::{c_hello, decode_foreign, is_nul_terminated};
pub use greeting::hello;
