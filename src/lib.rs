//! A typed, layered value container for configuration entries.
//!
//! A [`Value`] pairs an optional payload with its [`ValueType`] tag and may
//! point at the value it overrides. Override chains live in a [`Layers`]
//! arena, where each shadow link is an index to an earlier entry.
pub mod kind;
pub mod layers;
pub mod value;

pub use kind::{classify, kind_of, Float64, Typed, ValueType};
pub use layers::Layers;
pub use value::{Readable, Value};
