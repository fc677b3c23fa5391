pub mod byte_text;
pub mod std_text;
pub mod monitor_label;
pub mod reader_input;
pub mod r10_protocol;
pub mod r10_remote_policy;
pub mod r10_input_bridge;
pub mod r10_ble_transport;
pub mod r10_ble_probe;
pub mod r10_ble_device_task;
pub mod r10_ble_device_task_x4;
pub mod r10_ble_reader_remote_guard;
pub mod r10_ble_settings_ui;
pub mod r10_ble_esp32c3_backend;
pub mod r10_ble_esp32c3_operations;
pub mod r10_ble_esp32c3_runner;
pub mod r10_ble_host;
pub mod r10_ble_live_central;
pub mod le_bytes;
pub mod key_value_text;
pub mod prepared_cache;
pub mod prepared_gen;
pub mod prepared_output;
pub mod font_roundtrip;
pub mod font_checks;
