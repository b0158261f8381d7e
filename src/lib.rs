//! Tracking and resolving a pointer-driven selection over a grid of character cells.
//!
//! A [`Selection`] records an anchored start endpoint and a movable end endpoint, each
//! tagged with the half of its cell the pointer was nearest. [`Selection::span`] turns
//! that into a canonical [`Span`] whose front never comes after its tail, and the span
//! converts into boundary points or a flattened inclusive range for a grid of a given
//! width.
pub mod index;
pub mod selection;

pub use index::{Column, Line, Linear, Point, Side};
pub use selection::{Selection, Span, SpanType};
