//! Draconis: a run-scoped snapshot cache for machine metrics and a runtime
//! that drives data-producing plugins through their lifecycle.
//!
//! Platform collectors and plugin modules live outside this crate. They hand
//! their answers over in the boundary encoding (a numeric status code, raw
//! sentinel values, absent text), and everything that is decided about such
//! an answer is decided, and proved, here.
//!
//! - `error`: the failure kinds and their numeric codes.
//! - `text`: text that may be absent, and the check for the NUL character.
//! - `metrics`: the metric values and their views.
//! - `wire`: replies and raw records, and their decoding.
//! - `cache`: the snapshot cache and the dispatch of metric requests.
//! - `fields`: the key-to-text mapping of a plugin's data.
//! - `registry`: the static plugin registry, the search paths, discovery.
//! - `plugin`: loading a plugin and driving it through its lifecycle.
//!
//! Whatever stands for the outside is passed in as a function: a collector,
//! a loader, a module's operation. An operation demands such a function's
//! precondition only where it calls it, so its contract also says when the
//! outside is left alone.

pub mod cache;
pub mod error;
pub mod fields;
pub mod metrics;
pub mod plugin;
pub mod registry;
pub mod text;
pub mod wire;

pub use crate::cache::{
    get_battery_info, get_cpu_cores, get_cpu_model, get_desktop_environment, get_disk_usage,
    get_disks, get_gpu_model, get_host, get_kernel_version, get_mem_info, get_network_interfaces,
    get_operating_system, get_outputs, get_primary_network_interface, get_primary_output,
    get_shell, get_system_disk, get_uptime, get_window_manager, CacheManager, Metric, MetricKind,
};
pub use crate::error::{
    DracErrorCode, ErrorCode, DRAC_ERROR_API_UNAVAILABLE, DRAC_ERROR_CONFIGURATION_ERROR,
    DRAC_ERROR_CORRUPTED_DATA, DRAC_ERROR_INTERNAL_ERROR, DRAC_ERROR_INVALID_ARGUMENT,
    DRAC_ERROR_IO_ERROR, DRAC_ERROR_NETWORK_ERROR, DRAC_ERROR_NOT_FOUND,
    DRAC_ERROR_NOT_SUPPORTED, DRAC_ERROR_OTHER, DRAC_ERROR_OUT_OF_MEMORY, DRAC_ERROR_PARSE_ERROR,
    DRAC_ERROR_PERMISSION_DENIED, DRAC_ERROR_PERMISSION_REQUIRED, DRAC_ERROR_PLATFORM_SPECIFIC,
    DRAC_ERROR_RESOURCE_EXHAUSTED, DRAC_ERROR_TIMEOUT, DRAC_ERROR_UNAVAILABLE_FEATURE,
    DRAC_SUCCESS,
};
pub use crate::fields::{FieldMap, PluginField, RawPluginField};
pub use crate::metrics::{
    Battery, BatteryStatus, CPUCores, DiskInfo, DisplayInfo, DracBatteryStatus, NetworkInterface,
    OSInfo, ResourceUsage, DRAC_BATTERY_CHARGING, DRAC_BATTERY_DISCHARGING, DRAC_BATTERY_FULL,
    DRAC_BATTERY_NOT_PRESENT, DRAC_BATTERY_UNKNOWN,
};
pub use crate::plugin::{
    CollectReply, InitReply, Plugin, PluginState, COLLECTION_FAILED, NOT_INITIALIZED,
};
pub use crate::registry::{
    add_plugin_search_path, discover_plugins, init_static_plugins, PluginInfo, PluginManager,
    PluginOrigin, RawPluginInfo,
};
pub use crate::wire::{RawBattery, RawDiskInfo, RawNetworkInterface, RawOSInfo, Reply};
