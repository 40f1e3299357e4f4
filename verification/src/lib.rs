//! Producers of text and the buffer that they render into.
//!
//! A producer is anything that can write its text into a `TemplateBuilder`:
//! a string, which is escaped; `Raw` content, which is not; a `Renderer`
//! made of a callable; a reference to a producer, a box of one, or an
//! optional one. The traits `RenderOnce`, `RenderMut` and `Render` say how
//! often a producer can be rendered, and through what kind of access.

pub mod boxed;
pub mod render;
pub mod renderer;
pub mod template;

pub use crate::boxed::RenderBox;
pub use crate::render::{Raw, Render, RenderMut, RenderOnce, Text};
pub use crate::renderer::{Renderer, __new_boxed_renderer, __new_renderer};
pub use crate::template::{Template, TemplateBuilder};
