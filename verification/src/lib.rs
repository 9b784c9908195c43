//! Classification of wireless adapter notifications into roam and reconnect
//! outcomes.

pub mod available_network_list;
pub mod bss_entry_list;
pub mod error;
pub mod metric_tracker;
pub mod network;
pub mod notification_text;
pub mod retry_count;
pub mod roaming;
pub mod roaming_windows;
pub mod text;
pub mod utils;
pub mod windows_api_client;
pub mod windows_type_wrappers;

pub use network::Network;
