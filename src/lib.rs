//! A modal overlay: content centered above a backdrop that turns a press
//! outside the content, or the Escape key, into an application message.
//!
//! Geometry is held in whole layout units, and the content's centered origin
//! in half units. The host toolkit's widget tree, renderer and event loop stay
//! outside this library: it decides where the content goes, what an input
//! event does and in which order the overlay is painted.
pub mod geometry;
pub mod modal;
