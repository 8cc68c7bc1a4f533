pub mod fake_window_session;
pub mod session_window_system_adapter;
pub mod fake_window_system_adapter;
