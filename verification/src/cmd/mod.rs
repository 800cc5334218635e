pub mod cpu_stats;
pub mod destroy;
pub mod iface_list;
pub mod nodeinfo;
pub mod pool_event;
pub mod qemu_agent_command;
pub mod start;
pub mod version;
pub mod vol_download;
pub mod vol_upload;
