//! The menu that a running match opens on Escape: resume, save, load or leave.

pub mod fs;
pub mod load_handler;
pub mod save_handler;
pub mod screen;
