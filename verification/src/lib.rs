//! Micround: the decision logic of a live microscope wallpaper application.
pub mod text;
pub mod clock;
pub mod app_core;
pub mod capture;
pub mod config;
pub mod engine;
pub mod dispatch;
pub mod platform;
