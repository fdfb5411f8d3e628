//! Core of an image browser: the image collection with its navigation and
//! lazily loaded resources, the aspect-preserving viewport fitter, and the
//! decisions of the windowing host's event loop.

pub mod app_state;
pub mod files;
pub mod image_viewer;
pub mod images;
pub mod paths;
pub mod text;
pub mod viewport;
pub mod window;
