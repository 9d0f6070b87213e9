//! A renderer-agnostic widget and layout core.
//!
//! The crate provides the pieces that let arbitrary widget kinds take part in
//! a declarative GUI toolkit: integer geometry primitives, box constraints
//! ([`layout::Limits`]) with a clamping `resolve` step, layout trees
//! ([`layout::Node`]), a shared alignment rule, an order-sensitive structural
//! fingerprint for change detection, and a cache that reuses a previous
//! layout tree whenever the fingerprint is unchanged.

pub mod alignment;
pub mod button;
pub mod cache;
pub mod color;
pub mod geometry;
pub mod hasher;
pub mod label_text;
pub mod layout;
pub mod length;
pub mod renderer;
pub mod settings;
pub mod text;
pub mod widget;
