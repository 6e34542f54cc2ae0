pub mod devices;
pub mod filters;
pub mod stream;
