//! Interruptible periodic wallpaper rotation: the scheduler's state machine,
//! the image selector, and the small pieces of text handling around them.
pub mod config;
pub mod desktop;
pub mod images;
pub mod laws;
pub mod rotation;
pub mod scheduler;
