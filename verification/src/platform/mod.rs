//! Platform abstractions: displays, desktop windows, system events,
//! permissions, paths, autostart and the wallpaper.
pub mod display;
pub mod window;
pub mod system;
pub mod system_windows;
pub mod permissions;
pub mod paths;
pub mod autostart;
pub mod autostart_windows;
pub mod wallpaper;
