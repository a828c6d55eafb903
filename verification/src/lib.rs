//! The core of a terminal file browser: where the browser stands, what it
//! lists, which entry is hovered, how key presses move it between its input
//! modes, and what the preview pane shows for the hovered entry.
//!
//! The library performs no input or output. Whatever has to touch the file
//! system or the terminal is handed to the caller as a plain value, and the
//! caller reports what came of it.

pub mod laws;
pub mod line;
pub mod location;
pub mod manager;
pub mod mode;
pub mod raster;
pub mod selection;
pub mod text;
