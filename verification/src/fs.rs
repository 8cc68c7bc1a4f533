pub mod fake_file_system_adapter;
