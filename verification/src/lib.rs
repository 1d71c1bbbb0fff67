pub mod color;
pub mod raster;
pub mod scheduler;
pub mod settings;
