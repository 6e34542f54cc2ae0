pub mod blanked;
pub mod settings;
