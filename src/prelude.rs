//! The extension traits, for a glob import.

pub use crate::ext::{DisplayExt, IntoIteratorExt};
pub use crate::joined::IntoIteratorByRefExt;
