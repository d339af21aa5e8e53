//! A retained-rendering toolkit for character-grid terminal interfaces.
//!
//! The crate models a screen region as a grid of styled character cells
//! ([`canvas::Canvas`]), composes regions with transparent overlay
//! ([`runes::Rune`]), resolves shared resources and mutable state from a
//! type-keyed registry ([`container::Container`]), renders nested component
//! functions into freshly allocated sub-regions ([`context::ViewContext`]),
//! and sequences children along an axis with cross-axis alignment
//! ([`stack::Stack`]). The composition laws the toolkit is built around —
//! clipping, overlay transparency, region isolation, and stack
//! sequencing — are stated and proved in [`laws`].

pub mod canvas;
pub mod container;
pub mod context;
pub mod geometry;
pub mod laws;
pub mod prelude;
pub mod runes;
pub mod stack;
pub mod theme;
