//! Lazily evaluated text producers: a self-exhausting sequence adapter,
//! and combinators that join or repeat renderable values.

mod consumed;
mod ext;
mod join;
mod joined;
mod render;
mod repeated;

pub mod prelude;

pub use crate::consumed::Consumed;
pub use crate::ext::{DisplayExt, IntoIteratorExt};
pub use crate::join::join_texts;
pub use crate::joined::{item_texts, lemma_joined_empty, lemma_joined_single, IntoIteratorByRefExt, Joined};
pub use crate::render::{decimal, digit_char, signed_decimal, Render};
pub use crate::repeated::{lemma_repeat_none_or_once, repeat_text, Repeated};
