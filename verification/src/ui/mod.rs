pub mod components;
pub mod library;
pub mod settings;
pub mod troubleshooting;
