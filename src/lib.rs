//! A popover menu: a trigger element with a floating menu anchored to it,
//! modelled as plain state that survives frames, plus the geometry that
//! places the menu on screen.
pub mod geometry;
pub mod anchor;
pub mod menu;
pub mod registry;
pub mod element;
pub mod canvas;
