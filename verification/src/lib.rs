//! Composition of the Himawari-8 earth picture into a desktop wallpaper,
//! the naming of the downloaded frames, and the tray application's
//! decisions, with their contracts.

pub mod raster;
pub mod layout;
pub mod decimal;
pub mod frame;
pub mod wide;
pub mod tray;
