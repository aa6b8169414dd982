//! Control plane for a multi-instance download-manager daemon: a tool
//! catalog with dynamic enablement, instance routing for incoming calls,
//! a JSON-RPC request/response model, and a bandwidth scheduler that
//! resolves day/time windows to named rate-limit profiles.

pub mod args;
pub mod config;
pub mod dispatch;
pub mod error;
pub mod json;
pub mod pool;
pub mod resources;
pub mod rpc;
pub mod scheduler;
pub mod strutil;
pub mod tools;

pub use args::{parse_log_level, Args, ArgsError};
pub use config::{Aria2Instance, BandwidthProfile, BandwidthSchedule, Config, ProfileEntry,
    TransportType};
pub use error::{Error, RpcError, ToolError};
pub use json::{JsonV, JsonValue};
pub use resources::{ActiveDownloadsResource, GlobalStatusResource, RecentLogsResource};
pub use rpc::RpcRequest;
pub use scheduler::{get_active_profile, SchedulerState, TickDecision};
pub use tools::bulk_manage_downloads::{BulkManageDownloadsArgs, BulkManageDownloadsTool};
pub use tools::check_health::CheckHealthTool;
pub use tools::configure_aria2::ConfigureAria2Tool;
pub use tools::inspect_download::{InspectAction, InspectDownloadParams, InspectDownloadTool};
pub use tools::manage_all_instances::ManageAllInstancesTool;
pub use tools::manage_downloads::{DownloadCommand, ManageDownloadsArgs, ManageDownloadsTool};
pub use tools::manage_torrent::{ManageTorrentArgs, ManageTorrentTool};
pub use tools::monitor_queue::{MonitorQueueArgs, MonitorQueueTool};
pub use tools::organize_completed::{OrganizeCompletedArgs, OrganizeCompletedTool, Rule};
pub use tools::registry::{ToolDescriptor, ToolInfo, ToolRegistry};
pub use tools::schedule_limits::ScheduleLimitsTool;
pub use tools::search_downloads::{SearchDownloadsArgs, SearchDownloadsTool};
