//! A terminal slideshow engine: a growing registry of image paths, a tick-driven
//! controller that cycles through it in one of two display modes, and the
//! decisions of a background producer that feeds new images into the registry.

pub mod registry;
pub mod mode;
pub mod signal;
pub mod slideshow;
pub mod producer;
pub mod layout;
pub mod options;
pub mod app;
pub mod ascii;
pub mod display_image;
pub mod non_ascii;
