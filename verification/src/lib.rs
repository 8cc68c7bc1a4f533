pub mod errors;
pub mod model;
pub mod session;
pub mod walker;
pub mod capture;
pub mod laws;
pub mod results;
pub mod gateways;
pub mod window_system;
pub mod fs;
pub mod list_windows_usecase;
pub mod take_screen_shot_usecase;
pub mod presenter;
pub mod presenter_adapter;
