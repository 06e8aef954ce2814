//! Helpers for UEFI shell tools: UCS-2 text decoding, error context, and
//! the byte-level logic of the variable, form-browser and HII database tools.

pub mod error;

pub use error::{Error, InnerError, Result, UefiStatus, WithContext};
pub mod text;

pub use text::ucs2_decode;
pub mod handles;
pub mod efivar;
pub mod decimal;
