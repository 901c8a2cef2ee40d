//! Placement logic of an animated sprite overlay that follows one application
//! window of a Sway session.
pub mod geometry;
pub mod tree;
pub mod tracker;
pub mod sprite;
pub mod animation;
pub mod overlay;
pub mod behaviour;
