//! The records that travel as call arguments, replies and events.
use vstd::prelude::*;
pub use crate::procedure::{RemoteAuthType, RemoteProcedure};

verus! {

pub const REMOTE_STRING_MAX: u32 = 4194304u32;
pub const REMOTE_CONNECT_IDENTITY_PARAMS_MAX: u32 = 20u32;
pub const REMOTE_DOMAIN_LIST_MAX: u32 = 16384u32;
pub const REMOTE_CPUMAP_MAX: u32 = 2048u32;
pub const REMOTE_VCPUINFO_MAX: u32 = 16384u32;
pub const REMOTE_CPUMAPS_MAX: u32 = 8388608u32;
pub const REMOTE_IOTHREAD_INFO_MAX: u32 = 16384u32;
pub const REMOTE_MIGRATE_COOKIE_MAX: u32 = 4194304u32;
pub const REMOTE_NETWORK_LIST_MAX: u32 = 16384u32;
pub const REMOTE_NETWORK_PORT_LIST_MAX: u32 = 16384u32;
pub const REMOTE_INTERFACE_LIST_MAX: u32 = 16384u32;
pub const REMOTE_STORAGE_POOL_LIST_MAX: u32 = 16384u32;
pub const REMOTE_STORAGE_VOL_LIST_MAX: u32 = 16384u32;
pub const REMOTE_NODE_DEVICE_LIST_MAX: u32 = 65536u32;
pub const REMOTE_NODE_DEVICE_CAPS_LIST_MAX: u32 = 65536u32;
pub const REMOTE_NWFILTER_LIST_MAX: u32 = 16384u32;
pub const REMOTE_NWFILTER_BINDING_LIST_MAX: u32 = 16384u32;
pub const REMOTE_DOMAIN_SCHEDULER_PARAMETERS_MAX: u32 = 16u32;
pub const REMOTE_DOMAIN_BLKIO_PARAMETERS_MAX: u32 = 16u32;
pub const REMOTE_DOMAIN_MEMORY_PARAMETERS_MAX: u32 = 16u32;
pub const REMOTE_DOMAIN_BLOCK_IO_TUNE_PARAMETERS_MAX: u32 = 32u32;
pub const REMOTE_DOMAIN_NUMA_PARAMETERS_MAX: u32 = 16u32;
pub const REMOTE_DOMAIN_PERF_EVENTS_MAX: u32 = 64u32;
pub const REMOTE_DOMAIN_BLOCK_COPY_PARAMETERS_MAX: u32 = 16u32;
pub const REMOTE_NODE_CPU_STATS_MAX: u32 = 16u32;
pub const REMOTE_NODE_MEMORY_STATS_MAX: u32 = 16u32;
pub const REMOTE_DOMAIN_BLOCK_STATS_PARAMETERS_MAX: u32 = 16u32;
pub const REMOTE_NODE_MAX_CELLS: u32 = 1024u32;
pub const REMOTE_AUTH_SASL_DATA_MAX: u32 = 65536u32;
pub const REMOTE_AUTH_TYPE_LIST_MAX: u32 = 20u32;
pub const REMOTE_DOMAIN_MEMORY_STATS_MAX: u32 = 1024u32;
pub const REMOTE_DOMAIN_CHECKPOINT_LIST_MAX: u32 = 16384u32;
pub const REMOTE_DOMAIN_SNAPSHOT_LIST_MAX: u32 = 16384u32;
pub const REMOTE_DOMAIN_BLOCK_PEEK_BUFFER_MAX: u32 = 4194304u32;
pub const REMOTE_DOMAIN_MEMORY_PEEK_BUFFER_MAX: u32 = 4194304u32;
pub const REMOTE_SECURITY_LABEL_LIST_MAX: u32 = 64u32;
pub const REMOTE_SECURITY_MODEL_MAX: u32 = VIR_SECURITY_MODEL_BUFLEN;
pub const REMOTE_SECURITY_LABEL_MAX: u32 = VIR_SECURITY_LABEL_BUFLEN;
pub const REMOTE_SECURITY_DOI_MAX: u32 = VIR_SECURITY_DOI_BUFLEN;
pub const REMOTE_SECRET_VALUE_MAX: u32 = 65536u32;
pub const REMOTE_SECRET_LIST_MAX: u32 = 16384u32;
pub const REMOTE_CPU_BASELINE_MAX: u32 = 256u32;
pub const REMOTE_DOMAIN_SEND_KEY_MAX: u32 = 16u32;
pub const REMOTE_DOMAIN_INTERFACE_PARAMETERS_MAX: u32 = 16u32;
pub const REMOTE_DOMAIN_GET_CPU_STATS_NCPUS_MAX: u32 = 128u32;
pub const REMOTE_DOMAIN_GET_CPU_STATS_MAX: u32 = 2048u32;
pub const REMOTE_DOMAIN_DISK_ERRORS_MAX: u32 = 256u32;
pub const REMOTE_NODE_MEMORY_PARAMETERS_MAX: u32 = 64u32;
pub const REMOTE_DOMAIN_MIGRATE_PARAM_LIST_MAX: u32 = 64u32;
pub const REMOTE_DOMAIN_JOB_STATS_MAX: u32 = 64u32;
pub const REMOTE_CONNECT_CPU_MODELS_MAX: u32 = 8192u32;
pub const REMOTE_DOMAIN_FSFREEZE_MOUNTPOINTS_MAX: u32 = 256u32;
pub const REMOTE_NETWORK_DHCP_LEASES_MAX: u32 = 65536u32;
pub const REMOTE_CONNECT_GET_ALL_DOMAIN_STATS_MAX: u32 = 262144u32;
pub const REMOTE_DOMAIN_EVENT_TUNABLE_MAX: u32 = 2048u32;
pub const REMOTE_DOMAIN_FSINFO_MAX: u32 = 256u32;
pub const REMOTE_DOMAIN_FSINFO_DISKS_MAX: u32 = 256u32;
pub const REMOTE_DOMAIN_INTERFACE_MAX: u32 = 2048u32;
pub const REMOTE_DOMAIN_IP_ADDR_MAX: u32 = 2048u32;
pub const REMOTE_DOMAIN_GUEST_VCPU_PARAMS_MAX: u32 = 64u32;
pub const REMOTE_DOMAIN_IOTHREAD_PARAMS_MAX: u32 = 64u32;
pub const REMOTE_NODE_SEV_INFO_MAX: u32 = 64u32;
pub const REMOTE_DOMAIN_LAUNCH_SECURITY_INFO_PARAMS_MAX: u32 = 64u32;
pub const REMOTE_DOMAIN_LAUNCH_SECURITY_STATE_PARAMS_MAX: u32 = 64u32;
pub const REMOTE_DOMAIN_GUEST_INFO_PARAMS_MAX: u32 = 2048u32;
pub const REMOTE_NETWORK_PORT_PARAMETERS_MAX: u32 = 16u32;
pub const REMOTE_DOMAIN_AUTHORIZED_SSH_KEYS_MAX: u32 = 2048u32;
pub const REMOTE_DOMAIN_MESSAGES_MAX: u32 = 2048u32;
pub const REMOTE_DOMAIN_EVENT_GRAPHICS_IDENTITY_MAX: u32 = 20u32;
pub const REMOTE_PROGRAM: u32 = 536903814u32;
pub const REMOTE_PROTOCOL_VERSION: u32 = 1u32;
pub const VIR_SECURITY_MODEL_BUFLEN: u32 = 256u32;
pub const VIR_SECURITY_LABEL_BUFLEN: u32 = 4096u32;
pub const VIR_SECURITY_DOI_BUFLEN: u32 = 256u32;
pub const VIR_UUID_BUFLEN: u32 = 16u32;
pub const VIR_TYPED_PARAM_INT: u32 = 1u32;
pub const VIR_TYPED_PARAM_UINT: u32 = 2u32;
pub const VIR_TYPED_PARAM_LLONG: u32 = 3u32;
pub const VIR_TYPED_PARAM_ULLONG: u32 = 4u32;
pub const VIR_TYPED_PARAM_DOUBLE: u32 = 5u32;
pub const VIR_TYPED_PARAM_BOOLEAN: u32 = 6u32;
pub const VIR_TYPED_PARAM_STRING: u32 = 7u32;

#[derive(Clone, Debug)]
pub struct RemoteNonnullDomain {
    pub name: String,
    pub uuid: [u8; 16],
    pub id: i32,
}

#[derive(Clone, Debug)]
pub struct RemoteNonnullNetwork {
    pub name: String,
    pub uuid: [u8; 16],
}

#[derive(Clone, Debug)]
pub struct RemoteNonnullNetworkPort {
    pub net: RemoteNonnullNetwork,
    pub uuid: [u8; 16],
}

#[derive(Clone, Debug)]
pub struct RemoteNonnullNwfilter {
    pub name: String,
    pub uuid: [u8; 16],
}

#[derive(Clone, Debug)]
pub struct RemoteNonnullNwfilterBinding {
    pub portdev: String,
    pub filtername: String,
}

#[derive(Clone, Debug)]
pub struct RemoteNonnullInterface {
    pub name: String,
    pub mac: String,
}

#[derive(Clone, Debug)]
pub struct RemoteNonnullStoragePool {
    pub name: String,
    pub uuid: [u8; 16],
}

#[derive(Clone, Debug)]
pub struct RemoteNonnullStorageVol {
    pub pool: String,
    pub name: String,
    pub key: String,
}

#[derive(Clone, Debug)]
pub struct RemoteNonnullNodeDevice {
    pub name: String,
}

#[derive(Clone, Debug)]
pub struct RemoteNonnullSecret {
    pub uuid: [u8; 16],
    pub usage_type: i32,
    pub usage_id: String,
}

#[derive(Clone, Debug)]
pub struct RemoteNonnullDomainCheckpoint {
    pub name: String,
    pub dom: RemoteNonnullDomain,
}

#[derive(Clone, Debug)]
pub struct RemoteNonnullDomainSnapshot {
    pub name: String,
    pub dom: RemoteNonnullDomain,
}

#[derive(Clone, Debug)]
pub struct RemoteError {
    pub code: i32,
    pub domain: i32,
    pub message: Option<String>,
    pub level: i32,
    pub dom: Option<RemoteNonnullDomain>,
    pub str1: Option<String>,
    pub str2: Option<String>,
    pub str3: Option<String>,
    pub int1: i32,
    pub int2: i32,
    pub net: Option<RemoteNonnullNetwork>,
}

#[derive(Clone, Debug)]
pub struct RemoteVcpuInfo {
    pub number: u32,
    pub state: i32,
    pub cpu_time: u64,
    pub cpu: i32,
}

#[derive(Clone, Debug)]
pub struct RemoteNodeGetCpuStats {
    pub field: String,
    pub value: u64,
}

#[derive(Clone, Debug)]
pub struct RemoteNodeGetMemoryStats {
    pub field: String,
    pub value: u64,
}

#[derive(Clone, Debug)]
pub struct RemoteDomainDiskError {
    pub disk: String,
    pub error: i32,
}

#[derive(Clone, Debug)]
pub struct RemoteConnectOpenArgs {
    pub name: Option<String>,
    pub flags: u32,
}

#[derive(Clone, Debug)]
pub struct RemoteConnectSupportsFeatureArgs {
    pub feature: i32,
}

#[derive(Clone, Debug)]
pub struct RemoteConnectSupportsFeatureRet {
    pub supported: i32,
}

#[derive(Clone, Debug)]
pub struct RemoteConnectGetTypeRet {
    pub type_: String,
}

#[derive(Clone, Debug)]
pub struct RemoteConnectGetVersionRet {
    pub hv_ver: u64,
}

#[derive(Clone, Debug)]
pub struct RemoteConnectGetLibVersionRet {
    pub lib_ver: u64,
}

#[derive(Clone, Debug)]
pub struct RemoteConnectGetHostnameRet {
    pub hostname: String,
}

#[derive(Clone, Debug)]
pub struct RemoteConnectGetSysinfoArgs {
    pub flags: u32,
}

#[derive(Clone, Debug)]
pub struct RemoteConnectGetSysinfoRet {
    pub sysinfo: String,
}

#[derive(Clone, Debug)]
pub struct RemoteConnectGetUriRet {
    pub uri: String,
}

#[derive(Clone, Debug)]
pub struct RemoteConnectGetMaxVcpusArgs {
    pub type_: Option<String>,
}

#[derive(Clone, Debug)]
pub struct RemoteConnectGetMaxVcpusRet {
    pub max_vcpus: i32,
}

#[derive(Clone, Debug)]
pub struct RemoteNodeGetInfoRet {
    pub model: [i8; 32],
    pub memory: u64,
    pub cpus: i32,
    pub mhz: i32,
    pub nodes: i32,
    pub sockets: i32,
    pub cores: i32,
    pub threads: i32,
}

#[derive(Clone, Debug)]
pub struct RemoteConnectGetCapabilitiesRet {
    pub capabilities: String,
}

#[derive(Clone, Debug)]
pub struct RemoteConnectGetDomainCapabilitiesArgs {
    pub emulatorbin: Option<String>,
    pub arch: Option<String>,
    pub machine: Option<String>,
    pub virttype: Option<String>,
    pub flags: u32,
}

#[derive(Clone, Debug)]
pub struct RemoteConnectGetDomainCapabilitiesRet {
    pub capabilities: String,
}

#[derive(Clone, Debug)]
pub struct RemoteNodeGetCpuStatsArgs {
    pub cpu_num: i32,
    pub nparams: i32,
    pub flags: u32,
}

#[derive(Clone, Debug)]
pub struct RemoteNodeGetCpuStatsRet {
    pub params: Vec<RemoteNodeGetCpuStats>,
    pub nparams: i32,
}

#[derive(Clone, Debug)]
pub struct RemoteNodeGetMemoryStatsArgs {
    pub nparams: i32,
    pub cell_num: i32,
    pub flags: u32,
}

#[derive(Clone, Debug)]
pub struct RemoteNodeGetMemoryStatsRet {
    pub params: Vec<RemoteNodeGetMemoryStats>,
    pub nparams: i32,
}

#[derive(Clone, Debug)]
pub struct RemoteNodeGetCellsFreeMemoryArgs {
    pub start_cell: i32,
    pub maxcells: i32,
}

#[derive(Clone, Debug)]
pub struct RemoteNodeGetCellsFreeMemoryRet {
    pub cells: Vec<u64>,
}

#[derive(Clone, Debug)]
pub struct RemoteNodeGetFreeMemoryRet {
    pub free_mem: u64,
}

#[derive(Clone, Debug)]
pub struct RemoteDomainGetSchedulerTypeArgs {
    pub dom: RemoteNonnullDomain,
}

#[derive(Clone, Debug)]
pub struct RemoteDomainGetSchedulerTypeRet {
    pub type_: String,
    pub nparams: i32,
}

#[derive(Clone, Debug)]
pub struct RemoteDomainGetSchedulerParametersArgs {
    pub dom: RemoteNonnullDomain,
    pub nparams: i32,
}

#[derive(Clone, Debug)]
pub struct RemoteDomainGetSchedulerParametersFlagsArgs {
    pub dom: RemoteNonnullDomain,
    pub nparams: i32,
    pub flags: u32,
}

#[derive(Clone, Debug)]
pub struct RemoteDomainGetBlkioParametersArgs {
    pub dom: RemoteNonnullDomain,
    pub nparams: i32,
    pub flags: u32,
}

#[derive(Clone, Debug)]
pub struct RemoteDomainGetMemoryParametersArgs {
    pub dom: RemoteNonnullDomain,
    pub nparams: i32,
    pub flags: u32,
}

#[derive(Clone, Debug)]
pub struct RemoteDomainBlockResizeArgs {
    pub dom: RemoteNonnullDomain,
    pub disk: String,
    pub size: u64,
    pub flags: u32,
}

#[derive(Clone, Debug)]
pub struct RemoteDomainGetNumaParametersArgs {
    pub dom: RemoteNonnullDomain,
    pub nparams: i32,
    pub flags: u32,
}

#[derive(Clone, Debug)]
pub struct RemoteDomainGetPerfEventsArgs {
    pub dom: RemoteNonnullDomain,
    pub flags: u32,
}

#[derive(Clone, Debug)]
pub struct RemoteDomainBlockStatsArgs {
    pub dom: RemoteNonnullDomain,
    pub path: String,
}

#[derive(Clone, Debug)]
pub struct RemoteDomainBlockStatsRet {
    pub rd_req: i64,
    pub rd_bytes: i64,
    pub wr_req: i64,
    pub wr_bytes: i64,
    pub errs: i64,
}

#[derive(Clone, Debug)]
pub struct RemoteDomainBlockStatsFlagsArgs {
    pub dom: RemoteNonnullDomain,
    pub path: String,
    pub nparams: i32,
    pub flags: u32,
}

#[derive(Clone, Debug)]
pub struct RemoteDomainInterfaceStatsArgs {
    pub dom: RemoteNonnullDomain,
    pub device: String,
}

#[derive(Clone, Debug)]
pub struct RemoteDomainInterfaceStatsRet {
    pub rx_bytes: i64,
    pub rx_packets: i64,
    pub rx_errs: i64,
    pub rx_drop: i64,
    pub tx_bytes: i64,
    pub tx_packets: i64,
    pub tx_errs: i64,
    pub tx_drop: i64,
}

#[derive(Clone, Debug)]
pub struct RemoteDomainGetInterfaceParametersArgs {
    pub dom: RemoteNonnullDomain,
    pub device: String,
    pub nparams: i32,
    pub flags: u32,
}

#[derive(Clone, Debug)]
pub struct RemoteDomainMemoryStatsArgs {
    pub dom: RemoteNonnullDomain,
    pub max_stats: u32,
    pub flags: u32,
}

#[derive(Clone, Debug)]
pub struct RemoteDomainMemoryStat {
    pub tag: i32,
    pub val: u64,
}

#[derive(Clone, Debug)]
pub struct RemoteDomainMemoryStatsRet {
    pub stats: Vec<RemoteDomainMemoryStat>,
}

#[derive(Clone, Debug)]
pub struct RemoteDomainBlockPeekArgs {
    pub dom: RemoteNonnullDomain,
    pub path: String,
    pub offset: u64,
    pub size: u32,
    pub flags: u32,
}

#[derive(Clone, Debug)]
pub struct RemoteDomainBlockPeekRet {
    pub buffer: Vec<u8>,
}

#[derive(Clone, Debug)]
pub struct RemoteDomainMemoryPeekArgs {
    pub dom: RemoteNonnullDomain,
    pub offset: u64,
    pub size: u32,
    pub flags: u32,
}

#[derive(Clone, Debug)]
pub struct RemoteDomainMemoryPeekRet {
    pub buffer: Vec<u8>,
}

#[derive(Clone, Debug)]
pub struct RemoteDomainGetBlockInfoArgs {
    pub dom: RemoteNonnullDomain,
    pub path: String,
    pub flags: u32,
}

#[derive(Clone, Debug)]
pub struct RemoteDomainGetBlockInfoRet {
    pub allocation: u64,
    pub capacity: u64,
    pub physical: u64,
}

#[derive(Clone, Debug)]
pub struct RemoteConnectListDomainsArgs {
    pub maxids: i32,
}

#[derive(Clone, Debug)]
pub struct RemoteConnectListDomainsRet {
    pub ids: Vec<i32>,
}

#[derive(Clone, Debug)]
pub struct RemoteConnectNumOfDomainsRet {
    pub num: i32,
}

#[derive(Clone, Debug)]
pub struct RemoteDomainCreateXmlArgs {
    pub xml_desc: String,
    pub flags: u32,
}

#[derive(Clone, Debug)]
pub struct RemoteDomainCreateXmlRet {
    pub dom: RemoteNonnullDomain,
}

#[derive(Clone, Debug)]
pub struct RemoteDomainCreateXmlWithFilesArgs {
    pub xml_desc: String,
    pub flags: u32,
}

#[derive(Clone, Debug)]
pub struct RemoteDomainCreateXmlWithFilesRet {
    pub dom: RemoteNonnullDomain,
}

#[derive(Clone, Debug)]
pub struct RemoteDomainLookupByIdArgs {
    pub id: i32,
}

#[derive(Clone, Debug)]
pub struct RemoteDomainLookupByIdRet {
    pub dom: RemoteNonnullDomain,
}

#[derive(Clone, Debug)]
pub struct RemoteDomainLookupByUuidArgs {
    pub uuid: [u8; 16],
}

#[derive(Clone, Debug)]
pub struct RemoteDomainLookupByUuidRet {
    pub dom: RemoteNonnullDomain,
}

#[derive(Clone, Debug)]
pub struct RemoteDomainLookupByNameArgs {
    pub name: String,
}

#[derive(Clone, Debug)]
pub struct RemoteDomainLookupByNameRet {
    pub dom: RemoteNonnullDomain,
}

#[derive(Clone, Debug)]
pub struct RemoteDomainSuspendArgs {
    pub dom: RemoteNonnullDomain,
}

#[derive(Clone, Debug)]
pub struct RemoteDomainResumeArgs {
    pub dom: RemoteNonnullDomain,
}

#[derive(Clone, Debug)]
pub struct RemoteDomainPmSuspendForDurationArgs {
    pub dom: RemoteNonnullDomain,
    pub target: u32,
    pub duration: u64,
    pub flags: u32,
}

#[derive(Clone, Debug)]
pub struct RemoteDomainPmWakeupArgs {
    pub dom: RemoteNonnullDomain,
    pub flags: u32,
}

#[derive(Clone, Debug)]
pub struct RemoteDomainShutdownArgs {
    pub dom: RemoteNonnullDomain,
}

#[derive(Clone, Debug)]
pub struct RemoteDomainRebootArgs {
    pub dom: RemoteNonnullDomain,
    pub flags: u32,
}

#[derive(Clone, Debug)]
pub struct RemoteDomainResetArgs {
    pub dom: RemoteNonnullDomain,
    pub flags: u32,
}

#[derive(Clone, Debug)]
pub struct RemoteDomainDestroyArgs {
    pub dom: RemoteNonnullDomain,
}

#[derive(Clone, Debug)]
pub struct RemoteDomainDestroyFlagsArgs {
    pub dom: RemoteNonnullDomain,
    pub flags: u32,
}

#[derive(Clone, Debug)]
pub struct RemoteDomainGetOsTypeArgs {
    pub dom: RemoteNonnullDomain,
}

#[derive(Clone, Debug)]
pub struct RemoteDomainGetOsTypeRet {
    pub type_: String,
}

#[derive(Clone, Debug)]
pub struct RemoteDomainGetMaxMemoryArgs {
    pub dom: RemoteNonnullDomain,
}

#[derive(Clone, Debug)]
pub struct RemoteDomainGetMaxMemoryRet {
    pub memory: u64,
}

#[derive(Clone, Debug)]
pub struct RemoteDomainSetMaxMemoryArgs {
    pub dom: RemoteNonnullDomain,
    pub memory: u64,
}

#[derive(Clone, Debug)]
pub struct RemoteDomainSetMemoryArgs {
    pub dom: RemoteNonnullDomain,
    pub memory: u64,
}

#[derive(Clone, Debug)]
pub struct RemoteDomainSetMemoryFlagsArgs {
    pub dom: RemoteNonnullDomain,
    pub memory: u64,
    pub flags: u32,
}

#[derive(Clone, Debug)]
pub struct RemoteDomainSetMemoryStatsPeriodArgs {
    pub dom: RemoteNonnullDomain,
    pub period: i32,
    pub flags: u32,
}

#[derive(Clone, Debug)]
pub struct RemoteDomainGetInfoArgs {
    pub dom: RemoteNonnullDomain,
}

#[derive(Clone, Debug)]
pub struct RemoteDomainGetInfoRet {
    pub state: u8,
    pub max_mem: u64,
    pub memory: u64,
    pub nr_virt_cpu: u16,
    pub cpu_time: u64,
}

#[derive(Clone, Debug)]
pub struct RemoteDomainSaveArgs {
    pub dom: RemoteNonnullDomain,
    pub to: String,
}

#[derive(Clone, Debug)]
pub struct RemoteDomainSaveFlagsArgs {
    pub dom: RemoteNonnullDomain,
    pub to: String,
    pub dxml: Option<String>,
    pub flags: u32,
}

#[derive(Clone, Debug)]
pub struct RemoteDomainRestoreArgs {
    pub from: String,
}

#[derive(Clone, Debug)]
pub struct RemoteDomainRestoreFlagsArgs {
    pub from: String,
    pub dxml: Option<String>,
    pub flags: u32,
}

#[derive(Clone, Debug)]
pub struct RemoteDomainSaveImageGetXmlDescArgs {
    pub file: String,
    pub flags: u32,
}

#[derive(Clone, Debug)]
pub struct RemoteDomainSaveImageGetXmlDescRet {
    pub xml: String,
}

#[derive(Clone, Debug)]
pub struct RemoteDomainSaveImageDefineXmlArgs {
    pub file: String,
    pub dxml: String,
    pub flags: u32,
}

#[derive(Clone, Debug)]
pub struct RemoteDomainCoreDumpArgs {
    pub dom: RemoteNonnullDomain,
    pub to: String,
    pub flags: u32,
}

#[derive(Clone, Debug)]
pub struct RemoteDomainCoreDumpWithFormatArgs {
    pub dom: RemoteNonnullDomain,
    pub to: String,
    pub dumpformat: u32,
    pub flags: u32,
}

#[derive(Clone, Debug)]
pub struct RemoteDomainScreenshotArgs {
    pub dom: RemoteNonnullDomain,
    pub screen: u32,
    pub flags: u32,
}

#[derive(Clone, Debug)]
pub struct RemoteDomainScreenshotRet {
    pub mime: Option<String>,
}

#[derive(Clone, Debug)]
pub struct RemoteDomainGetXmlDescArgs {
    pub dom: RemoteNonnullDomain,
    pub flags: u32,
}

#[derive(Clone, Debug)]
pub struct RemoteDomainGetXmlDescRet {
    pub xml: String,
}

#[derive(Clone, Debug)]
pub struct RemoteDomainMigratePrepareArgs {
    pub uri_in: Option<String>,
    pub flags: u64,
    pub dname: Option<String>,
    pub resource: u64,
}

#[derive(Clone, Debug)]
pub struct RemoteDomainMigratePrepareRet {
    pub cookie: Vec<u8>,
    pub uri_out: Option<String>,
}

#[derive(Clone, Debug)]
pub struct RemoteDomainMigratePerformArgs {
    pub dom: RemoteNonnullDomain,
    pub cookie: Vec<u8>,
    pub uri: String,
    pub flags: u64,
    pub dname: Option<String>,
    pub resource: u64,
}

#[derive(Clone, Debug)]
pub struct RemoteDomainMigrateFinishArgs {
    pub dname: String,
    pub cookie: Vec<u8>,
    pub uri: String,
    pub flags: u64,
}

#[derive(Clone, Debug)]
pub struct RemoteDomainMigrateFinishRet {
    pub ddom: RemoteNonnullDomain,
}

#[derive(Clone, Debug)]
pub struct RemoteDomainMigratePrepare2Args {
    pub uri_in: Option<String>,
    pub flags: u64,
    pub dname: Option<String>,
    pub resource: u64,
    pub dom_xml: String,
}

#[derive(Clone, Debug)]
pub struct RemoteDomainMigratePrepare2Ret {
    pub cookie: Vec<u8>,
    pub uri_out: Option<String>,
}

#[derive(Clone, Debug)]
pub struct RemoteDomainMigrateFinish2Args {
    pub dname: String,
    pub cookie: Vec<u8>,
    pub uri: String,
    pub flags: u64,
    pub retcode: i32,
}

#[derive(Clone, Debug)]
pub struct RemoteDomainMigrateFinish2Ret {
    pub ddom: RemoteNonnullDomain,
}

#[derive(Clone, Debug)]
pub struct RemoteConnectListDefinedDomainsArgs {
    pub maxnames: i32,
}

#[derive(Clone, Debug)]
pub struct RemoteConnectListDefinedDomainsRet {
    pub names: Vec<String>,
}

#[derive(Clone, Debug)]
pub struct RemoteConnectNumOfDefinedDomainsRet {
    pub num: i32,
}

#[derive(Clone, Debug)]
pub struct RemoteDomainCreateArgs {
    pub dom: RemoteNonnullDomain,
}

#[derive(Clone, Debug)]
pub struct RemoteDomainCreateWithFlagsArgs {
    pub dom: RemoteNonnullDomain,
    pub flags: u32,
}

#[derive(Clone, Debug)]
pub struct RemoteDomainCreateWithFlagsRet {
    pub dom: RemoteNonnullDomain,
}

#[derive(Clone, Debug)]
pub struct RemoteDomainCreateWithFilesArgs {
    pub dom: RemoteNonnullDomain,
    pub flags: u32,
}

#[derive(Clone, Debug)]
pub struct RemoteDomainCreateWithFilesRet {
    pub dom: RemoteNonnullDomain,
}

#[derive(Clone, Debug)]
pub struct RemoteDomainDefineXmlArgs {
    pub xml: String,
}

#[derive(Clone, Debug)]
pub struct RemoteDomainDefineXmlRet {
    pub dom: RemoteNonnullDomain,
}

#[derive(Clone, Debug)]
pub struct RemoteDomainDefineXmlFlagsArgs {
    pub xml: String,
    pub flags: u32,
}

#[derive(Clone, Debug)]
pub struct RemoteDomainDefineXmlFlagsRet {
    pub dom: RemoteNonnullDomain,
}

#[derive(Clone, Debug)]
pub struct RemoteDomainUndefineArgs {
    pub dom: RemoteNonnullDomain,
}

#[derive(Clone, Debug)]
pub struct RemoteDomainUndefineFlagsArgs {
    pub dom: RemoteNonnullDomain,
    pub flags: u32,
}

#[derive(Clone, Debug)]
pub struct RemoteDomainInjectNmiArgs {
    pub dom: RemoteNonnullDomain,
    pub flags: u32,
}

#[derive(Clone, Debug)]
pub struct RemoteDomainSendKeyArgs {
    pub dom: RemoteNonnullDomain,
    pub codeset: u32,
    pub holdtime: u32,
    pub keycodes: Vec<u32>,
    pub flags: u32,
}

#[derive(Clone, Debug)]
pub struct RemoteDomainSendProcessSignalArgs {
    pub dom: RemoteNonnullDomain,
    pub pid_value: i64,
    pub signum: u32,
    pub flags: u32,
}

#[derive(Clone, Debug)]
pub struct RemoteDomainSetVcpusArgs {
    pub dom: RemoteNonnullDomain,
    pub nvcpus: u32,
}

#[derive(Clone, Debug)]
pub struct RemoteDomainSetVcpusFlagsArgs {
    pub dom: RemoteNonnullDomain,
    pub nvcpus: u32,
    pub flags: u32,
}

#[derive(Clone, Debug)]
pub struct RemoteDomainGetVcpusFlagsArgs {
    pub dom: RemoteNonnullDomain,
    pub flags: u32,
}

#[derive(Clone, Debug)]
pub struct RemoteDomainGetVcpusFlagsRet {
    pub num: i32,
}

#[derive(Clone, Debug)]
pub struct RemoteDomainPinVcpuArgs {
    pub dom: RemoteNonnullDomain,
    pub vcpu: u32,
    pub cpumap: Vec<u8>,
}

#[derive(Clone, Debug)]
pub struct RemoteDomainPinVcpuFlagsArgs {
    pub dom: RemoteNonnullDomain,
    pub vcpu: u32,
    pub cpumap: Vec<u8>,
    pub flags: u32,
}

#[derive(Clone, Debug)]
pub struct RemoteDomainGetVcpuPinInfoArgs {
    pub dom: RemoteNonnullDomain,
    pub ncpumaps: i32,
    pub maplen: i32,
    pub flags: u32,
}

#[derive(Clone, Debug)]
pub struct RemoteDomainGetVcpuPinInfoRet {
    pub cpumaps: Vec<u8>,
    pub num: i32,
}

#[derive(Clone, Debug)]
pub struct RemoteDomainPinEmulatorArgs {
    pub dom: RemoteNonnullDomain,
    pub cpumap: Vec<u8>,
    pub flags: u32,
}

#[derive(Clone, Debug)]
pub struct RemoteDomainGetEmulatorPinInfoArgs {
    pub dom: RemoteNonnullDomain,
    pub maplen: i32,
    pub flags: u32,
}

#[derive(Clone, Debug)]
pub struct RemoteDomainGetEmulatorPinInfoRet {
    pub cpumaps: Vec<u8>,
    pub ret: i32,
}

#[derive(Clone, Debug)]
pub struct RemoteDomainGetVcpusArgs {
    pub dom: RemoteNonnullDomain,
    pub maxinfo: i32,
    pub maplen: i32,
}

#[derive(Clone, Debug)]
pub struct RemoteDomainGetVcpusRet {
    pub info: Vec<RemoteVcpuInfo>,
    pub cpumaps: Vec<u8>,
}

#[derive(Clone, Debug)]
pub struct RemoteDomainGetMaxVcpusArgs {
    pub dom: RemoteNonnullDomain,
}

#[derive(Clone, Debug)]
pub struct RemoteDomainGetMaxVcpusRet {
    pub num: i32,
}

#[derive(Clone, Debug)]
pub struct RemoteDomainIothreadInfo {
    pub iothread_id: u32,
    pub cpumap: Vec<u8>,
}

#[derive(Clone, Debug)]
pub struct RemoteDomainGetIothreadInfoArgs {
    pub dom: RemoteNonnullDomain,
    pub flags: u32,
}

#[derive(Clone, Debug)]
pub struct RemoteDomainGetIothreadInfoRet {
    pub info: Vec<RemoteDomainIothreadInfo>,
    pub ret: u32,
}

#[derive(Clone, Debug)]
pub struct RemoteDomainPinIothreadArgs {
    pub dom: RemoteNonnullDomain,
    pub iothreads_id: u32,
    pub cpumap: Vec<u8>,
    pub flags: u32,
}

#[derive(Clone, Debug)]
pub struct RemoteDomainAddIothreadArgs {
    pub dom: RemoteNonnullDomain,
    pub iothread_id: u32,
    pub flags: u32,
}

#[derive(Clone, Debug)]
pub struct RemoteDomainDelIothreadArgs {
    pub dom: RemoteNonnullDomain,
    pub iothread_id: u32,
    pub flags: u32,
}

#[derive(Clone, Debug)]
pub struct RemoteDomainGetSecurityLabelArgs {
    pub dom: RemoteNonnullDomain,
}

#[derive(Clone, Debug)]
pub struct RemoteDomainGetSecurityLabelRet {
    pub label: Vec<i8>,
    pub enforcing: i32,
}

#[derive(Clone, Debug)]
pub struct RemoteDomainGetSecurityLabelListArgs {
    pub dom: RemoteNonnullDomain,
}

#[derive(Clone, Debug)]
pub struct RemoteDomainGetSecurityLabelListRet {
    pub labels: Vec<RemoteDomainGetSecurityLabelRet>,
    pub ret: i32,
}

#[derive(Clone, Debug)]
pub struct RemoteNodeGetSecurityModelRet {
    pub model: Vec<i8>,
    pub doi: Vec<i8>,
}

#[derive(Clone, Debug)]
pub struct RemoteDomainAttachDeviceArgs {
    pub dom: RemoteNonnullDomain,
    pub xml: String,
}

#[derive(Clone, Debug)]
pub struct RemoteDomainAttachDeviceFlagsArgs {
    pub dom: RemoteNonnullDomain,
    pub xml: String,
    pub flags: u32,
}

#[derive(Clone, Debug)]
pub struct RemoteDomainDetachDeviceArgs {
    pub dom: RemoteNonnullDomain,
    pub xml: String,
}

#[derive(Clone, Debug)]
pub struct RemoteDomainDetachDeviceFlagsArgs {
    pub dom: RemoteNonnullDomain,
    pub xml: String,
    pub flags: u32,
}

#[derive(Clone, Debug)]
pub struct RemoteDomainUpdateDeviceFlagsArgs {
    pub dom: RemoteNonnullDomain,
    pub xml: String,
    pub flags: u32,
}

#[derive(Clone, Debug)]
pub struct RemoteDomainDetachDeviceAliasArgs {
    pub dom: RemoteNonnullDomain,
    pub alias: String,
    pub flags: u32,
}

#[derive(Clone, Debug)]
pub struct RemoteDomainGetAutostartArgs {
    pub dom: RemoteNonnullDomain,
}

#[derive(Clone, Debug)]
pub struct RemoteDomainGetAutostartRet {
    pub autostart: i32,
}

#[derive(Clone, Debug)]
pub struct RemoteDomainSetAutostartArgs {
    pub dom: RemoteNonnullDomain,
    pub autostart: i32,
}

#[derive(Clone, Debug)]
pub struct RemoteDomainSetMetadataArgs {
    pub dom: RemoteNonnullDomain,
    pub type_: i32,
    pub metadata: Option<String>,
    pub key: Option<String>,
    pub uri: Option<String>,
    pub flags: u32,
}

#[derive(Clone, Debug)]
pub struct RemoteDomainGetMetadataArgs {
    pub dom: RemoteNonnullDomain,
    pub type_: i32,
    pub uri: Option<String>,
    pub flags: u32,
}

#[derive(Clone, Debug)]
pub struct RemoteDomainGetMetadataRet {
    pub metadata: String,
}

#[derive(Clone, Debug)]
pub struct RemoteDomainBlockJobAbortArgs {
    pub dom: RemoteNonnullDomain,
    pub path: String,
    pub flags: u32,
}

#[derive(Clone, Debug)]
pub struct RemoteDomainGetBlockJobInfoArgs {
    pub dom: RemoteNonnullDomain,
    pub path: String,
    pub flags: u32,
}

#[derive(Clone, Debug)]
pub struct RemoteDomainGetBlockJobInfoRet {
    pub found: i32,
    pub type_: i32,
    pub bandwidth: u64,
    pub cur: u64,
    pub end: u64,
}

#[derive(Clone, Debug)]
pub struct RemoteDomainBlockJobSetSpeedArgs {
    pub dom: RemoteNonnullDomain,
    pub path: String,
    pub bandwidth: u64,
    pub flags: u32,
}

#[derive(Clone, Debug)]
pub struct RemoteDomainBlockPullArgs {
    pub dom: RemoteNonnullDomain,
    pub path: String,
    pub bandwidth: u64,
    pub flags: u32,
}

#[derive(Clone, Debug)]
pub struct RemoteDomainBlockRebaseArgs {
    pub dom: RemoteNonnullDomain,
    pub path: String,
    pub base: Option<String>,
    pub bandwidth: u64,
    pub flags: u32,
}

#[derive(Clone, Debug)]
pub struct RemoteDomainBlockCommitArgs {
    pub dom: RemoteNonnullDomain,
    pub disk: String,
    pub base: Option<String>,
    pub top: Option<String>,
    pub bandwidth: u64,
    pub flags: u32,
}

#[derive(Clone, Debug)]
pub struct RemoteDomainGetBlockIoTuneArgs {
    pub dom: RemoteNonnullDomain,
    pub disk: Option<String>,
    pub nparams: i32,
    pub flags: u32,
}

#[derive(Clone, Debug)]
pub struct RemoteDomainGetCpuStatsArgs {
    pub dom: RemoteNonnullDomain,
    pub nparams: u32,
    pub start_cpu: i32,
    pub ncpus: u32,
    pub flags: u32,
}

#[derive(Clone, Debug)]
pub struct RemoteDomainGetHostnameArgs {
    pub dom: RemoteNonnullDomain,
    pub flags: u32,
}

#[derive(Clone, Debug)]
pub struct RemoteDomainGetHostnameRet {
    pub hostname: String,
}

#[derive(Clone, Debug)]
pub struct RemoteConnectNumOfNetworksRet {
    pub num: i32,
}

#[derive(Clone, Debug)]
pub struct RemoteConnectListNetworksArgs {
    pub maxnames: i32,
}

#[derive(Clone, Debug)]
pub struct RemoteConnectListNetworksRet {
    pub names: Vec<String>,
}

#[derive(Clone, Debug)]
pub struct RemoteConnectNumOfDefinedNetworksRet {
    pub num: i32,
}

#[derive(Clone, Debug)]
pub struct RemoteConnectListDefinedNetworksArgs {
    pub maxnames: i32,
}

#[derive(Clone, Debug)]
pub struct RemoteConnectListDefinedNetworksRet {
    pub names: Vec<String>,
}

#[derive(Clone, Debug)]
pub struct RemoteNetworkLookupByUuidArgs {
    pub uuid: [u8; 16],
}

#[derive(Clone, Debug)]
pub struct RemoteNetworkLookupByUuidRet {
    pub net: RemoteNonnullNetwork,
}

#[derive(Clone, Debug)]
pub struct RemoteNetworkLookupByNameArgs {
    pub name: String,
}

#[derive(Clone, Debug)]
pub struct RemoteNetworkLookupByNameRet {
    pub net: RemoteNonnullNetwork,
}

#[derive(Clone, Debug)]
pub struct RemoteNetworkCreateXmlArgs {
    pub xml: String,
}

#[derive(Clone, Debug)]
pub struct RemoteNetworkCreateXmlRet {
    pub net: RemoteNonnullNetwork,
}

#[derive(Clone, Debug)]
pub struct RemoteNetworkCreateXmlFlagsArgs {
    pub xml: String,
    pub flags: u32,
}

#[derive(Clone, Debug)]
pub struct RemoteNetworkCreateXmlFlagsRet {
    pub net: RemoteNonnullNetwork,
}

#[derive(Clone, Debug)]
pub struct RemoteNetworkDefineXmlArgs {
    pub xml: String,
}

#[derive(Clone, Debug)]
pub struct RemoteNetworkDefineXmlRet {
    pub net: RemoteNonnullNetwork,
}

#[derive(Clone, Debug)]
pub struct RemoteNetworkDefineXmlFlagsArgs {
    pub xml: String,
    pub flags: u32,
}

#[derive(Clone, Debug)]
pub struct RemoteNetworkDefineXmlFlagsRet {
    pub net: RemoteNonnullNetwork,
}

#[derive(Clone, Debug)]
pub struct RemoteNetworkUndefineArgs {
    pub net: RemoteNonnullNetwork,
}

#[derive(Clone, Debug)]
pub struct RemoteNetworkUpdateArgs {
    pub net: RemoteNonnullNetwork,
    pub command: u32,
    pub section: u32,
    pub parent_index: i32,
    pub xml: String,
    pub flags: u32,
}

#[derive(Clone, Debug)]
pub struct RemoteNetworkCreateArgs {
    pub net: RemoteNonnullNetwork,
}

#[derive(Clone, Debug)]
pub struct RemoteNetworkDestroyArgs {
    pub net: RemoteNonnullNetwork,
}

#[derive(Clone, Debug)]
pub struct RemoteNetworkGetXmlDescArgs {
    pub net: RemoteNonnullNetwork,
    pub flags: u32,
}

#[derive(Clone, Debug)]
pub struct RemoteNetworkGetXmlDescRet {
    pub xml: String,
}

#[derive(Clone, Debug)]
pub struct RemoteNetworkGetBridgeNameArgs {
    pub net: RemoteNonnullNetwork,
}

#[derive(Clone, Debug)]
pub struct RemoteNetworkGetBridgeNameRet {
    pub name: String,
}

#[derive(Clone, Debug)]
pub struct RemoteNetworkGetAutostartArgs {
    pub net: RemoteNonnullNetwork,
}

#[derive(Clone, Debug)]
pub struct RemoteNetworkGetAutostartRet {
    pub autostart: i32,
}

#[derive(Clone, Debug)]
pub struct RemoteNetworkSetAutostartArgs {
    pub net: RemoteNonnullNetwork,
    pub autostart: i32,
}

#[derive(Clone, Debug)]
pub struct RemoteConnectNumOfNwfiltersRet {
    pub num: i32,
}

#[derive(Clone, Debug)]
pub struct RemoteConnectListNwfiltersArgs {
    pub maxnames: i32,
}

#[derive(Clone, Debug)]
pub struct RemoteConnectListNwfiltersRet {
    pub names: Vec<String>,
}

#[derive(Clone, Debug)]
pub struct RemoteNwfilterLookupByUuidArgs {
    pub uuid: [u8; 16],
}

#[derive(Clone, Debug)]
pub struct RemoteNwfilterLookupByUuidRet {
    pub nwfilter: RemoteNonnullNwfilter,
}

#[derive(Clone, Debug)]
pub struct RemoteNwfilterLookupByNameArgs {
    pub name: String,
}

#[derive(Clone, Debug)]
pub struct RemoteNwfilterLookupByNameRet {
    pub nwfilter: RemoteNonnullNwfilter,
}

#[derive(Clone, Debug)]
pub struct RemoteNwfilterDefineXmlArgs {
    pub xml: String,
}

#[derive(Clone, Debug)]
pub struct RemoteNwfilterDefineXmlRet {
    pub nwfilter: RemoteNonnullNwfilter,
}

#[derive(Clone, Debug)]
pub struct RemoteNwfilterDefineXmlFlagsArgs {
    pub xml: String,
    pub flags: u32,
}

#[derive(Clone, Debug)]
pub struct RemoteNwfilterDefineXmlFlagsRet {
    pub nwfilter: RemoteNonnullNwfilter,
}

#[derive(Clone, Debug)]
pub struct RemoteNwfilterUndefineArgs {
    pub nwfilter: RemoteNonnullNwfilter,
}

#[derive(Clone, Debug)]
pub struct RemoteNwfilterGetXmlDescArgs {
    pub nwfilter: RemoteNonnullNwfilter,
    pub flags: u32,
}

#[derive(Clone, Debug)]
pub struct RemoteNwfilterGetXmlDescRet {
    pub xml: String,
}

#[derive(Clone, Debug)]
pub struct RemoteConnectNumOfInterfacesRet {
    pub num: i32,
}

#[derive(Clone, Debug)]
pub struct RemoteConnectListInterfacesArgs {
    pub maxnames: i32,
}

#[derive(Clone, Debug)]
pub struct RemoteConnectListInterfacesRet {
    pub names: Vec<String>,
}

#[derive(Clone, Debug)]
pub struct RemoteConnectNumOfDefinedInterfacesRet {
    pub num: i32,
}

#[derive(Clone, Debug)]
pub struct RemoteConnectListDefinedInterfacesArgs {
    pub maxnames: i32,
}

#[derive(Clone, Debug)]
pub struct RemoteConnectListDefinedInterfacesRet {
    pub names: Vec<String>,
}

#[derive(Clone, Debug)]
pub struct RemoteInterfaceLookupByNameArgs {
    pub name: String,
}

#[derive(Clone, Debug)]
pub struct RemoteInterfaceLookupByNameRet {
    pub iface: RemoteNonnullInterface,
}

#[derive(Clone, Debug)]
pub struct RemoteInterfaceLookupByMacStringArgs {
    pub mac: String,
}

#[derive(Clone, Debug)]
pub struct RemoteInterfaceLookupByMacStringRet {
    pub iface: RemoteNonnullInterface,
}

#[derive(Clone, Debug)]
pub struct RemoteInterfaceGetXmlDescArgs {
    pub iface: RemoteNonnullInterface,
    pub flags: u32,
}

#[derive(Clone, Debug)]
pub struct RemoteInterfaceGetXmlDescRet {
    pub xml: String,
}

#[derive(Clone, Debug)]
pub struct RemoteInterfaceDefineXmlArgs {
    pub xml: String,
    pub flags: u32,
}

#[derive(Clone, Debug)]
pub struct RemoteInterfaceDefineXmlRet {
    pub iface: RemoteNonnullInterface,
}

#[derive(Clone, Debug)]
pub struct RemoteInterfaceUndefineArgs {
    pub iface: RemoteNonnullInterface,
}

#[derive(Clone, Debug)]
pub struct RemoteInterfaceCreateArgs {
    pub iface: RemoteNonnullInterface,
    pub flags: u32,
}

#[derive(Clone, Debug)]
pub struct RemoteInterfaceDestroyArgs {
    pub iface: RemoteNonnullInterface,
    pub flags: u32,
}

#[derive(Clone, Debug)]
pub struct RemoteInterfaceChangeBeginArgs {
    pub flags: u32,
}

#[derive(Clone, Debug)]
pub struct RemoteInterfaceChangeCommitArgs {
    pub flags: u32,
}

#[derive(Clone, Debug)]
pub struct RemoteInterfaceChangeRollbackArgs {
    pub flags: u32,
}

#[derive(Clone, Debug)]
pub struct RemoteAuthListRet {
    pub types: Vec<RemoteAuthType>,
}

#[derive(Clone, Debug)]
pub struct RemoteAuthSaslInitRet {
    pub mechlist: String,
}

#[derive(Clone, Debug)]
pub struct RemoteAuthSaslStartArgs {
    pub mech: String,
    pub nil: i32,
    pub data: Vec<i8>,
}

#[derive(Clone, Debug)]
pub struct RemoteAuthSaslStartRet {
    pub complete: i32,
    pub nil: i32,
    pub data: Vec<i8>,
}

#[derive(Clone, Debug)]
pub struct RemoteAuthSaslStepArgs {
    pub nil: i32,
    pub data: Vec<i8>,
}

#[derive(Clone, Debug)]
pub struct RemoteAuthSaslStepRet {
    pub complete: i32,
    pub nil: i32,
    pub data: Vec<i8>,
}

#[derive(Clone, Debug)]
pub struct RemoteAuthPolkitRet {
    pub complete: i32,
}

#[derive(Clone, Debug)]
pub struct RemoteConnectNumOfStoragePoolsRet {
    pub num: i32,
}

#[derive(Clone, Debug)]
pub struct RemoteConnectListStoragePoolsArgs {
    pub maxnames: i32,
}

#[derive(Clone, Debug)]
pub struct RemoteConnectListStoragePoolsRet {
    pub names: Vec<String>,
}

#[derive(Clone, Debug)]
pub struct RemoteConnectNumOfDefinedStoragePoolsRet {
    pub num: i32,
}

#[derive(Clone, Debug)]
pub struct RemoteConnectListDefinedStoragePoolsArgs {
    pub maxnames: i32,
}

#[derive(Clone, Debug)]
pub struct RemoteConnectListDefinedStoragePoolsRet {
    pub names: Vec<String>,
}

#[derive(Clone, Debug)]
pub struct RemoteConnectFindStoragePoolSourcesArgs {
    pub type_: String,
    pub src_spec: Option<String>,
    pub flags: u32,
}

#[derive(Clone, Debug)]
pub struct RemoteConnectFindStoragePoolSourcesRet {
    pub xml: String,
}

#[derive(Clone, Debug)]
pub struct RemoteStoragePoolLookupByUuidArgs {
    pub uuid: [u8; 16],
}

#[derive(Clone, Debug)]
pub struct RemoteStoragePoolLookupByUuidRet {
    pub pool: RemoteNonnullStoragePool,
}

#[derive(Clone, Debug)]
pub struct RemoteStoragePoolLookupByNameArgs {
    pub name: String,
}

#[derive(Clone, Debug)]
pub struct RemoteStoragePoolLookupByNameRet {
    pub pool: RemoteNonnullStoragePool,
}

#[derive(Clone, Debug)]
pub struct RemoteStoragePoolLookupByVolumeArgs {
    pub vol: RemoteNonnullStorageVol,
}

#[derive(Clone, Debug)]
pub struct RemoteStoragePoolLookupByVolumeRet {
    pub pool: RemoteNonnullStoragePool,
}

#[derive(Clone, Debug)]
pub struct RemoteStoragePoolLookupByTargetPathArgs {
    pub path: String,
}

#[derive(Clone, Debug)]
pub struct RemoteStoragePoolLookupByTargetPathRet {
    pub pool: RemoteNonnullStoragePool,
}

#[derive(Clone, Debug)]
pub struct RemoteStoragePoolCreateXmlArgs {
    pub xml: String,
    pub flags: u32,
}

#[derive(Clone, Debug)]
pub struct RemoteStoragePoolCreateXmlRet {
    pub pool: RemoteNonnullStoragePool,
}

#[derive(Clone, Debug)]
pub struct RemoteStoragePoolDefineXmlArgs {
    pub xml: String,
    pub flags: u32,
}

#[derive(Clone, Debug)]
pub struct RemoteStoragePoolDefineXmlRet {
    pub pool: RemoteNonnullStoragePool,
}

#[derive(Clone, Debug)]
pub struct RemoteStoragePoolBuildArgs {
    pub pool: RemoteNonnullStoragePool,
    pub flags: u32,
}

#[derive(Clone, Debug)]
pub struct RemoteStoragePoolUndefineArgs {
    pub pool: RemoteNonnullStoragePool,
}

#[derive(Clone, Debug)]
pub struct RemoteStoragePoolCreateArgs {
    pub pool: RemoteNonnullStoragePool,
    pub flags: u32,
}

#[derive(Clone, Debug)]
pub struct RemoteStoragePoolDestroyArgs {
    pub pool: RemoteNonnullStoragePool,
}

#[derive(Clone, Debug)]
pub struct RemoteStoragePoolDeleteArgs {
    pub pool: RemoteNonnullStoragePool,
    pub flags: u32,
}

#[derive(Clone, Debug)]
pub struct RemoteStoragePoolRefreshArgs {
    pub pool: RemoteNonnullStoragePool,
    pub flags: u32,
}

#[derive(Clone, Debug)]
pub struct RemoteStoragePoolGetXmlDescArgs {
    pub pool: RemoteNonnullStoragePool,
    pub flags: u32,
}

#[derive(Clone, Debug)]
pub struct RemoteStoragePoolGetXmlDescRet {
    pub xml: String,
}

#[derive(Clone, Debug)]
pub struct RemoteStoragePoolGetInfoArgs {
    pub pool: RemoteNonnullStoragePool,
}

#[derive(Clone, Debug)]
pub struct RemoteStoragePoolGetInfoRet {
    pub state: u8,
    pub capacity: u64,
    pub allocation: u64,
    pub available: u64,
}

#[derive(Clone, Debug)]
pub struct RemoteStoragePoolGetAutostartArgs {
    pub pool: RemoteNonnullStoragePool,
}

#[derive(Clone, Debug)]
pub struct RemoteStoragePoolGetAutostartRet {
    pub autostart: i32,
}

#[derive(Clone, Debug)]
pub struct RemoteStoragePoolSetAutostartArgs {
    pub pool: RemoteNonnullStoragePool,
    pub autostart: i32,
}

#[derive(Clone, Debug)]
pub struct RemoteStoragePoolNumOfVolumesArgs {
    pub pool: RemoteNonnullStoragePool,
}

#[derive(Clone, Debug)]
pub struct RemoteStoragePoolNumOfVolumesRet {
    pub num: i32,
}

#[derive(Clone, Debug)]
pub struct RemoteStoragePoolListVolumesArgs {
    pub pool: RemoteNonnullStoragePool,
    pub maxnames: i32,
}

#[derive(Clone, Debug)]
pub struct RemoteStoragePoolListVolumesRet {
    pub names: Vec<String>,
}

#[derive(Clone, Debug)]
pub struct RemoteStorageVolLookupByNameArgs {
    pub pool: RemoteNonnullStoragePool,
    pub name: String,
}

#[derive(Clone, Debug)]
pub struct RemoteStorageVolLookupByNameRet {
    pub vol: RemoteNonnullStorageVol,
}

#[derive(Clone, Debug)]
pub struct RemoteStorageVolLookupByKeyArgs {
    pub key: String,
}

#[derive(Clone, Debug)]
pub struct RemoteStorageVolLookupByKeyRet {
    pub vol: RemoteNonnullStorageVol,
}

#[derive(Clone, Debug)]
pub struct RemoteStorageVolLookupByPathArgs {
    pub path: String,
}

#[derive(Clone, Debug)]
pub struct RemoteStorageVolLookupByPathRet {
    pub vol: RemoteNonnullStorageVol,
}

#[derive(Clone, Debug)]
pub struct RemoteStorageVolCreateXmlArgs {
    pub pool: RemoteNonnullStoragePool,
    pub xml: String,
    pub flags: u32,
}

#[derive(Clone, Debug)]
pub struct RemoteStorageVolCreateXmlRet {
    pub vol: RemoteNonnullStorageVol,
}

#[derive(Clone, Debug)]
pub struct RemoteStorageVolCreateXmlFromArgs {
    pub pool: RemoteNonnullStoragePool,
    pub xml: String,
    pub clonevol: RemoteNonnullStorageVol,
    pub flags: u32,
}

#[derive(Clone, Debug)]
pub struct RemoteStorageVolCreateXmlFromRet {
    pub vol: RemoteNonnullStorageVol,
}

#[derive(Clone, Debug)]
pub struct RemoteStorageVolDeleteArgs {
    pub vol: RemoteNonnullStorageVol,
    pub flags: u32,
}

#[derive(Clone, Debug)]
pub struct RemoteStorageVolWipeArgs {
    pub vol: RemoteNonnullStorageVol,
    pub flags: u32,
}

#[derive(Clone, Debug)]
pub struct RemoteStorageVolWipePatternArgs {
    pub vol: RemoteNonnullStorageVol,
    pub algorithm: u32,
    pub flags: u32,
}

#[derive(Clone, Debug)]
pub struct RemoteStorageVolGetXmlDescArgs {
    pub vol: RemoteNonnullStorageVol,
    pub flags: u32,
}

#[derive(Clone, Debug)]
pub struct RemoteStorageVolGetXmlDescRet {
    pub xml: String,
}

#[derive(Clone, Debug)]
pub struct RemoteStorageVolGetInfoArgs {
    pub vol: RemoteNonnullStorageVol,
}

#[derive(Clone, Debug)]
pub struct RemoteStorageVolGetInfoRet {
    pub type_: i8,
    pub capacity: u64,
    pub allocation: u64,
}

#[derive(Clone, Debug)]
pub struct RemoteStorageVolGetInfoFlagsArgs {
    pub vol: RemoteNonnullStorageVol,
    pub flags: u32,
}

#[derive(Clone, Debug)]
pub struct RemoteStorageVolGetInfoFlagsRet {
    pub type_: i8,
    pub capacity: u64,
    pub allocation: u64,
}

#[derive(Clone, Debug)]
pub struct RemoteStorageVolGetPathArgs {
    pub vol: RemoteNonnullStorageVol,
}

#[derive(Clone, Debug)]
pub struct RemoteStorageVolGetPathRet {
    pub name: String,
}

#[derive(Clone, Debug)]
pub struct RemoteStorageVolResizeArgs {
    pub vol: RemoteNonnullStorageVol,
    pub capacity: u64,
    pub flags: u32,
}

#[derive(Clone, Debug)]
pub struct RemoteNodeNumOfDevicesArgs {
    pub cap: Option<String>,
    pub flags: u32,
}

#[derive(Clone, Debug)]
pub struct RemoteNodeNumOfDevicesRet {
    pub num: i32,
}

#[derive(Clone, Debug)]
pub struct RemoteNodeListDevicesArgs {
    pub cap: Option<String>,
    pub maxnames: i32,
    pub flags: u32,
}

#[derive(Clone, Debug)]
pub struct RemoteNodeListDevicesRet {
    pub names: Vec<String>,
}

#[derive(Clone, Debug)]
pub struct RemoteNodeDeviceLookupByNameArgs {
    pub name: String,
}

#[derive(Clone, Debug)]
pub struct RemoteNodeDeviceLookupByNameRet {
    pub dev: RemoteNonnullNodeDevice,
}

#[derive(Clone, Debug)]
pub struct RemoteNodeDeviceLookupScsiHostByWwnArgs {
    pub wwnn: String,
    pub wwpn: String,
    pub flags: u32,
}

#[derive(Clone, Debug)]
pub struct RemoteNodeDeviceLookupScsiHostByWwnRet {
    pub dev: RemoteNonnullNodeDevice,
}

#[derive(Clone, Debug)]
pub struct RemoteNodeDeviceGetXmlDescArgs {
    pub name: String,
    pub flags: u32,
}

#[derive(Clone, Debug)]
pub struct RemoteNodeDeviceGetXmlDescRet {
    pub xml: String,
}

#[derive(Clone, Debug)]
pub struct RemoteNodeDeviceGetParentArgs {
    pub name: String,
}

#[derive(Clone, Debug)]
pub struct RemoteNodeDeviceGetParentRet {
    pub parent_name: Option<String>,
}

#[derive(Clone, Debug)]
pub struct RemoteNodeDeviceNumOfCapsArgs {
    pub name: String,
}

#[derive(Clone, Debug)]
pub struct RemoteNodeDeviceNumOfCapsRet {
    pub num: i32,
}

#[derive(Clone, Debug)]
pub struct RemoteNodeDeviceListCapsArgs {
    pub name: String,
    pub maxnames: i32,
}

#[derive(Clone, Debug)]
pub struct RemoteNodeDeviceListCapsRet {
    pub names: Vec<String>,
}

#[derive(Clone, Debug)]
pub struct RemoteNodeDeviceDettachArgs {
    pub name: String,
}

#[derive(Clone, Debug)]
pub struct RemoteNodeDeviceDetachFlagsArgs {
    pub name: String,
    pub driver_name: Option<String>,
    pub flags: u32,
}

#[derive(Clone, Debug)]
pub struct RemoteNodeDeviceReAttachArgs {
    pub name: String,
}

#[derive(Clone, Debug)]
pub struct RemoteNodeDeviceResetArgs {
    pub name: String,
}

#[derive(Clone, Debug)]
pub struct RemoteNodeDeviceCreateXmlArgs {
    pub xml_desc: String,
    pub flags: u32,
}

#[derive(Clone, Debug)]
pub struct RemoteNodeDeviceCreateXmlRet {
    pub dev: RemoteNonnullNodeDevice,
}

#[derive(Clone, Debug)]
pub struct RemoteNodeDeviceDestroyArgs {
    pub name: String,
}

#[derive(Clone, Debug)]
pub struct RemoteNodeDeviceDefineXmlArgs {
    pub xml_desc: String,
    pub flags: u32,
}

#[derive(Clone, Debug)]
pub struct RemoteNodeDeviceDefineXmlRet {
    pub dev: RemoteNonnullNodeDevice,
}

#[derive(Clone, Debug)]
pub struct RemoteNodeDeviceUndefineArgs {
    pub name: String,
    pub flags: u32,
}

#[derive(Clone, Debug)]
pub struct RemoteNodeDeviceCreateArgs {
    pub name: String,
    pub flags: u32,
}

#[derive(Clone, Debug)]
pub struct RemoteNodeDeviceGetAutostartArgs {
    pub name: String,
}

#[derive(Clone, Debug)]
pub struct RemoteNodeDeviceGetAutostartRet {
    pub autostart: i32,
}

#[derive(Clone, Debug)]
pub struct RemoteNodeDeviceSetAutostartArgs {
    pub name: String,
    pub autostart: i32,
}

#[derive(Clone, Debug)]
pub struct RemoteNodeDeviceIsPersistentArgs {
    pub name: String,
}

#[derive(Clone, Debug)]
pub struct RemoteNodeDeviceIsPersistentRet {
    pub persistent: i32,
}

#[derive(Clone, Debug)]
pub struct RemoteNodeDeviceIsActiveArgs {
    pub name: String,
}

#[derive(Clone, Debug)]
pub struct RemoteNodeDeviceIsActiveRet {
    pub active: i32,
}

#[derive(Clone, Debug)]
pub struct RemoteConnectDomainEventRegisterRet {
    pub cb_registered: i32,
}

#[derive(Clone, Debug)]
pub struct RemoteConnectDomainEventDeregisterRet {
    pub cb_registered: i32,
}

#[derive(Clone, Debug)]
pub struct RemoteDomainEventLifecycleMsg {
    pub dom: RemoteNonnullDomain,
    pub event: i32,
    pub detail: i32,
}

#[derive(Clone, Debug)]
pub struct RemoteDomainEventCallbackLifecycleMsg {
    pub callback_id: i32,
    pub msg: RemoteDomainEventLifecycleMsg,
}

#[derive(Clone, Debug)]
pub struct RemoteConnectDomainXmlFromNativeArgs {
    pub native_format: String,
    pub native_config: String,
    pub flags: u32,
}

#[derive(Clone, Debug)]
pub struct RemoteConnectDomainXmlFromNativeRet {
    pub domain_xml: String,
}

#[derive(Clone, Debug)]
pub struct RemoteConnectDomainXmlToNativeArgs {
    pub native_format: String,
    pub domain_xml: String,
    pub flags: u32,
}

#[derive(Clone, Debug)]
pub struct RemoteConnectDomainXmlToNativeRet {
    pub native_config: String,
}

#[derive(Clone, Debug)]
pub struct RemoteConnectNumOfSecretsRet {
    pub num: i32,
}

#[derive(Clone, Debug)]
pub struct RemoteConnectListSecretsArgs {
    pub maxuuids: i32,
}

#[derive(Clone, Debug)]
pub struct RemoteConnectListSecretsRet {
    pub uuids: Vec<String>,
}

#[derive(Clone, Debug)]
pub struct RemoteSecretLookupByUuidArgs {
    pub uuid: [u8; 16],
}

#[derive(Clone, Debug)]
pub struct RemoteSecretLookupByUuidRet {
    pub secret: RemoteNonnullSecret,
}

#[derive(Clone, Debug)]
pub struct RemoteSecretDefineXmlArgs {
    pub xml: String,
    pub flags: u32,
}

#[derive(Clone, Debug)]
pub struct RemoteSecretDefineXmlRet {
    pub secret: RemoteNonnullSecret,
}

#[derive(Clone, Debug)]
pub struct RemoteSecretGetXmlDescArgs {
    pub secret: RemoteNonnullSecret,
    pub flags: u32,
}

#[derive(Clone, Debug)]
pub struct RemoteSecretGetXmlDescRet {
    pub xml: String,
}

#[derive(Clone, Debug)]
pub struct RemoteSecretSetValueArgs {
    pub secret: RemoteNonnullSecret,
    pub value: Vec<u8>,
    pub flags: u32,
}

#[derive(Clone, Debug)]
pub struct RemoteSecretGetValueArgs {
    pub secret: RemoteNonnullSecret,
    pub flags: u32,
}

#[derive(Clone, Debug)]
pub struct RemoteSecretGetValueRet {
    pub value: Vec<u8>,
}

#[derive(Clone, Debug)]
pub struct RemoteSecretUndefineArgs {
    pub secret: RemoteNonnullSecret,
}

#[derive(Clone, Debug)]
pub struct RemoteSecretLookupByUsageArgs {
    pub usage_type: i32,
    pub usage_id: String,
}

#[derive(Clone, Debug)]
pub struct RemoteSecretLookupByUsageRet {
    pub secret: RemoteNonnullSecret,
}

#[derive(Clone, Debug)]
pub struct RemoteDomainMigratePrepareTunnelArgs {
    pub flags: u64,
    pub dname: Option<String>,
    pub resource: u64,
    pub dom_xml: String,
}

#[derive(Clone, Debug)]
pub struct RemoteConnectIsSecureRet {
    pub secure: i32,
}

#[derive(Clone, Debug)]
pub struct RemoteDomainIsActiveArgs {
    pub dom: RemoteNonnullDomain,
}

#[derive(Clone, Debug)]
pub struct RemoteDomainIsActiveRet {
    pub active: i32,
}

#[derive(Clone, Debug)]
pub struct RemoteDomainIsPersistentArgs {
    pub dom: RemoteNonnullDomain,
}

#[derive(Clone, Debug)]
pub struct RemoteDomainIsPersistentRet {
    pub persistent: i32,
}

#[derive(Clone, Debug)]
pub struct RemoteDomainIsUpdatedArgs {
    pub dom: RemoteNonnullDomain,
}

#[derive(Clone, Debug)]
pub struct RemoteDomainIsUpdatedRet {
    pub updated: i32,
}

#[derive(Clone, Debug)]
pub struct RemoteNetworkIsActiveArgs {
    pub net: RemoteNonnullNetwork,
}

#[derive(Clone, Debug)]
pub struct RemoteNetworkIsActiveRet {
    pub active: i32,
}

#[derive(Clone, Debug)]
pub struct RemoteNetworkIsPersistentArgs {
    pub net: RemoteNonnullNetwork,
}

#[derive(Clone, Debug)]
pub struct RemoteNetworkIsPersistentRet {
    pub persistent: i32,
}

#[derive(Clone, Debug)]
pub struct RemoteStoragePoolIsActiveArgs {
    pub pool: RemoteNonnullStoragePool,
}

#[derive(Clone, Debug)]
pub struct RemoteStoragePoolIsActiveRet {
    pub active: i32,
}

#[derive(Clone, Debug)]
pub struct RemoteStoragePoolIsPersistentArgs {
    pub pool: RemoteNonnullStoragePool,
}

#[derive(Clone, Debug)]
pub struct RemoteStoragePoolIsPersistentRet {
    pub persistent: i32,
}

#[derive(Clone, Debug)]
pub struct RemoteInterfaceIsActiveArgs {
    pub iface: RemoteNonnullInterface,
}

#[derive(Clone, Debug)]
pub struct RemoteInterfaceIsActiveRet {
    pub active: i32,
}

#[derive(Clone, Debug)]
pub struct RemoteConnectCompareCpuArgs {
    pub xml: String,
    pub flags: u32,
}

#[derive(Clone, Debug)]
pub struct RemoteConnectCompareCpuRet {
    pub result: i32,
}

#[derive(Clone, Debug)]
pub struct RemoteConnectBaselineCpuArgs {
    pub xml_cpus: Vec<String>,
    pub flags: u32,
}

#[derive(Clone, Debug)]
pub struct RemoteConnectBaselineCpuRet {
    pub cpu: String,
}

#[derive(Clone, Debug)]
pub struct RemoteDomainGetJobInfoArgs {
    pub dom: RemoteNonnullDomain,
}

#[derive(Clone, Debug)]
pub struct RemoteDomainGetJobInfoRet {
    pub type_: i32,
    pub time_elapsed: u64,
    pub time_remaining: u64,
    pub data_total: u64,
    pub data_processed: u64,
    pub data_remaining: u64,
    pub mem_total: u64,
    pub mem_processed: u64,
    pub mem_remaining: u64,
    pub file_total: u64,
    pub file_processed: u64,
    pub file_remaining: u64,
}

#[derive(Clone, Debug)]
pub struct RemoteDomainGetJobStatsArgs {
    pub dom: RemoteNonnullDomain,
    pub flags: u32,
}

#[derive(Clone, Debug)]
pub struct RemoteDomainAbortJobArgs {
    pub dom: RemoteNonnullDomain,
}

#[derive(Clone, Debug)]
pub struct RemoteDomainMigrateGetMaxDowntimeArgs {
    pub dom: RemoteNonnullDomain,
    pub flags: u32,
}

#[derive(Clone, Debug)]
pub struct RemoteDomainMigrateGetMaxDowntimeRet {
    pub downtime: u64,
}

#[derive(Clone, Debug)]
pub struct RemoteDomainMigrateSetMaxDowntimeArgs {
    pub dom: RemoteNonnullDomain,
    pub downtime: u64,
    pub flags: u32,
}

#[derive(Clone, Debug)]
pub struct RemoteDomainMigrateGetCompressionCacheArgs {
    pub dom: RemoteNonnullDomain,
    pub flags: u32,
}

#[derive(Clone, Debug)]
pub struct RemoteDomainMigrateGetCompressionCacheRet {
    pub cache_size: u64,
}

#[derive(Clone, Debug)]
pub struct RemoteDomainMigrateSetCompressionCacheArgs {
    pub dom: RemoteNonnullDomain,
    pub cache_size: u64,
    pub flags: u32,
}

#[derive(Clone, Debug)]
pub struct RemoteDomainMigrateSetMaxSpeedArgs {
    pub dom: RemoteNonnullDomain,
    pub bandwidth: u64,
    pub flags: u32,
}

#[derive(Clone, Debug)]
pub struct RemoteDomainMigrateGetMaxSpeedArgs {
    pub dom: RemoteNonnullDomain,
    pub flags: u32,
}

#[derive(Clone, Debug)]
pub struct RemoteDomainMigrateGetMaxSpeedRet {
    pub bandwidth: u64,
}

#[derive(Clone, Debug)]
pub struct RemoteConnectDomainEventRegisterAnyArgs {
    pub event_id: i32,
}

#[derive(Clone, Debug)]
pub struct RemoteConnectDomainEventDeregisterAnyArgs {
    pub event_id: i32,
}

#[derive(Clone, Debug)]
pub struct RemoteConnectDomainEventCallbackRegisterAnyArgs {
    pub event_id: i32,
    pub dom: Option<RemoteNonnullDomain>,
}

#[derive(Clone, Debug)]
pub struct RemoteConnectDomainEventCallbackRegisterAnyRet {
    pub callback_id: i32,
}

#[derive(Clone, Debug)]
pub struct RemoteConnectDomainEventCallbackDeregisterAnyArgs {
    pub callback_id: i32,
}

#[derive(Clone, Debug)]
pub struct RemoteDomainEventRebootMsg {
    pub dom: RemoteNonnullDomain,
}

#[derive(Clone, Debug)]
pub struct RemoteDomainEventCallbackRebootMsg {
    pub callback_id: i32,
    pub msg: RemoteDomainEventRebootMsg,
}

#[derive(Clone, Debug)]
pub struct RemoteDomainEventRtcChangeMsg {
    pub dom: RemoteNonnullDomain,
    pub offset: i64,
}

#[derive(Clone, Debug)]
pub struct RemoteDomainEventCallbackRtcChangeMsg {
    pub callback_id: i32,
    pub msg: RemoteDomainEventRtcChangeMsg,
}

#[derive(Clone, Debug)]
pub struct RemoteDomainEventWatchdogMsg {
    pub dom: RemoteNonnullDomain,
    pub action: i32,
}

#[derive(Clone, Debug)]
pub struct RemoteDomainEventCallbackWatchdogMsg {
    pub callback_id: i32,
    pub msg: RemoteDomainEventWatchdogMsg,
}

#[derive(Clone, Debug)]
pub struct RemoteDomainEventIoErrorMsg {
    pub dom: RemoteNonnullDomain,
    pub src_path: String,
    pub dev_alias: String,
    pub action: i32,
}

#[derive(Clone, Debug)]
pub struct RemoteDomainEventCallbackIoErrorMsg {
    pub callback_id: i32,
    pub msg: RemoteDomainEventIoErrorMsg,
}

#[derive(Clone, Debug)]
pub struct RemoteDomainEventIoErrorReasonMsg {
    pub dom: RemoteNonnullDomain,
    pub src_path: String,
    pub dev_alias: String,
    pub action: i32,
    pub reason: String,
}

#[derive(Clone, Debug)]
pub struct RemoteDomainEventCallbackIoErrorReasonMsg {
    pub callback_id: i32,
    pub msg: RemoteDomainEventIoErrorReasonMsg,
}

#[derive(Clone, Debug)]
pub struct RemoteDomainEventGraphicsAddress {
    pub family: i32,
    pub node: String,
    pub service: String,
}

#[derive(Clone, Debug)]
pub struct RemoteDomainEventGraphicsIdentity {
    pub type_: String,
    pub name: String,
}

#[derive(Clone, Debug)]
pub struct RemoteDomainEventGraphicsMsg {
    pub dom: RemoteNonnullDomain,
    pub phase: i32,
    pub local: RemoteDomainEventGraphicsAddress,
    pub remote: RemoteDomainEventGraphicsAddress,
    pub auth_scheme: String,
    pub subject: Vec<RemoteDomainEventGraphicsIdentity>,
}

#[derive(Clone, Debug)]
pub struct RemoteDomainEventCallbackGraphicsMsg {
    pub callback_id: i32,
    pub msg: RemoteDomainEventGraphicsMsg,
}

#[derive(Clone, Debug)]
pub struct RemoteDomainEventBlockJobMsg {
    pub dom: RemoteNonnullDomain,
    pub path: String,
    pub type_: i32,
    pub status: i32,
}

#[derive(Clone, Debug)]
pub struct RemoteDomainEventCallbackBlockJobMsg {
    pub callback_id: i32,
    pub msg: RemoteDomainEventBlockJobMsg,
}

#[derive(Clone, Debug)]
pub struct RemoteDomainEventDiskChangeMsg {
    pub dom: RemoteNonnullDomain,
    pub old_src_path: Option<String>,
    pub new_src_path: Option<String>,
    pub dev_alias: String,
    pub reason: i32,
}

#[derive(Clone, Debug)]
pub struct RemoteDomainEventCallbackDiskChangeMsg {
    pub callback_id: i32,
    pub msg: RemoteDomainEventDiskChangeMsg,
}

#[derive(Clone, Debug)]
pub struct RemoteDomainEventTrayChangeMsg {
    pub dom: RemoteNonnullDomain,
    pub dev_alias: String,
    pub reason: i32,
}

#[derive(Clone, Debug)]
pub struct RemoteDomainEventCallbackTrayChangeMsg {
    pub callback_id: i32,
    pub msg: RemoteDomainEventTrayChangeMsg,
}

#[derive(Clone, Debug)]
pub struct RemoteDomainEventPmwakeupMsg {
    pub dom: RemoteNonnullDomain,
}

#[derive(Clone, Debug)]
pub struct RemoteDomainEventCallbackPmwakeupMsg {
    pub callback_id: i32,
    pub reason: i32,
    pub msg: RemoteDomainEventPmwakeupMsg,
}

#[derive(Clone, Debug)]
pub struct RemoteDomainEventPmsuspendMsg {
    pub dom: RemoteNonnullDomain,
}

#[derive(Clone, Debug)]
pub struct RemoteDomainEventCallbackPmsuspendMsg {
    pub callback_id: i32,
    pub reason: i32,
    pub msg: RemoteDomainEventPmsuspendMsg,
}

#[derive(Clone, Debug)]
pub struct RemoteDomainEventBalloonChangeMsg {
    pub dom: RemoteNonnullDomain,
    pub actual: u64,
}

#[derive(Clone, Debug)]
pub struct RemoteDomainEventCallbackBalloonChangeMsg {
    pub callback_id: i32,
    pub msg: RemoteDomainEventBalloonChangeMsg,
}

#[derive(Clone, Debug)]
pub struct RemoteDomainEventPmsuspendDiskMsg {
    pub dom: RemoteNonnullDomain,
}

#[derive(Clone, Debug)]
pub struct RemoteDomainEventCallbackPmsuspendDiskMsg {
    pub callback_id: i32,
    pub reason: i32,
    pub msg: RemoteDomainEventPmsuspendDiskMsg,
}

#[derive(Clone, Debug)]
pub struct RemoteDomainManagedSaveArgs {
    pub dom: RemoteNonnullDomain,
    pub flags: u32,
}

#[derive(Clone, Debug)]
pub struct RemoteDomainHasManagedSaveImageArgs {
    pub dom: RemoteNonnullDomain,
    pub flags: u32,
}

#[derive(Clone, Debug)]
pub struct RemoteDomainHasManagedSaveImageRet {
    pub result: i32,
}

#[derive(Clone, Debug)]
pub struct RemoteDomainManagedSaveRemoveArgs {
    pub dom: RemoteNonnullDomain,
    pub flags: u32,
}

#[derive(Clone, Debug)]
pub struct RemoteDomainManagedSaveGetXmlDescArgs {
    pub dom: RemoteNonnullDomain,
    pub flags: u32,
}

#[derive(Clone, Debug)]
pub struct RemoteDomainManagedSaveGetXmlDescRet {
    pub xml: String,
}

#[derive(Clone, Debug)]
pub struct RemoteDomainManagedSaveDefineXmlArgs {
    pub dom: RemoteNonnullDomain,
    pub dxml: Option<String>,
    pub flags: u32,
}

#[derive(Clone, Debug)]
pub struct RemoteDomainSnapshotCreateXmlArgs {
    pub dom: RemoteNonnullDomain,
    pub xml_desc: String,
    pub flags: u32,
}

#[derive(Clone, Debug)]
pub struct RemoteDomainSnapshotCreateXmlRet {
    pub snap: RemoteNonnullDomainSnapshot,
}

#[derive(Clone, Debug)]
pub struct RemoteDomainSnapshotGetXmlDescArgs {
    pub snap: RemoteNonnullDomainSnapshot,
    pub flags: u32,
}

#[derive(Clone, Debug)]
pub struct RemoteDomainSnapshotGetXmlDescRet {
    pub xml: String,
}

#[derive(Clone, Debug)]
pub struct RemoteDomainSnapshotNumArgs {
    pub dom: RemoteNonnullDomain,
    pub flags: u32,
}

#[derive(Clone, Debug)]
pub struct RemoteDomainSnapshotNumRet {
    pub num: i32,
}

#[derive(Clone, Debug)]
pub struct RemoteDomainSnapshotListNamesArgs {
    pub dom: RemoteNonnullDomain,
    pub maxnames: i32,
    pub flags: u32,
}

#[derive(Clone, Debug)]
pub struct RemoteDomainSnapshotListNamesRet {
    pub names: Vec<String>,
}

#[derive(Clone, Debug)]
pub struct RemoteDomainListAllSnapshotsArgs {
    pub dom: RemoteNonnullDomain,
    pub need_results: i32,
    pub flags: u32,
}

#[derive(Clone, Debug)]
pub struct RemoteDomainListAllSnapshotsRet {
    pub snapshots: Vec<RemoteNonnullDomainSnapshot>,
    pub ret: i32,
}

#[derive(Clone, Debug)]
pub struct RemoteDomainSnapshotNumChildrenArgs {
    pub snap: RemoteNonnullDomainSnapshot,
    pub flags: u32,
}

#[derive(Clone, Debug)]
pub struct RemoteDomainSnapshotNumChildrenRet {
    pub num: i32,
}

#[derive(Clone, Debug)]
pub struct RemoteDomainSnapshotListChildrenNamesArgs {
    pub snap: RemoteNonnullDomainSnapshot,
    pub maxnames: i32,
    pub flags: u32,
}

#[derive(Clone, Debug)]
pub struct RemoteDomainSnapshotListChildrenNamesRet {
    pub names: Vec<String>,
}

#[derive(Clone, Debug)]
pub struct RemoteDomainSnapshotListAllChildrenArgs {
    pub snapshot: RemoteNonnullDomainSnapshot,
    pub need_results: i32,
    pub flags: u32,
}

#[derive(Clone, Debug)]
pub struct RemoteDomainSnapshotListAllChildrenRet {
    pub snapshots: Vec<RemoteNonnullDomainSnapshot>,
    pub ret: i32,
}

#[derive(Clone, Debug)]
pub struct RemoteDomainSnapshotLookupByNameArgs {
    pub dom: RemoteNonnullDomain,
    pub name: String,
    pub flags: u32,
}

#[derive(Clone, Debug)]
pub struct RemoteDomainSnapshotLookupByNameRet {
    pub snap: RemoteNonnullDomainSnapshot,
}

#[derive(Clone, Debug)]
pub struct RemoteDomainHasCurrentSnapshotArgs {
    pub dom: RemoteNonnullDomain,
    pub flags: u32,
}

#[derive(Clone, Debug)]
pub struct RemoteDomainHasCurrentSnapshotRet {
    pub result: i32,
}

#[derive(Clone, Debug)]
pub struct RemoteDomainSnapshotGetParentArgs {
    pub snap: RemoteNonnullDomainSnapshot,
    pub flags: u32,
}

#[derive(Clone, Debug)]
pub struct RemoteDomainSnapshotGetParentRet {
    pub snap: RemoteNonnullDomainSnapshot,
}

#[derive(Clone, Debug)]
pub struct RemoteDomainSnapshotCurrentArgs {
    pub dom: RemoteNonnullDomain,
    pub flags: u32,
}

#[derive(Clone, Debug)]
pub struct RemoteDomainSnapshotCurrentRet {
    pub snap: RemoteNonnullDomainSnapshot,
}

#[derive(Clone, Debug)]
pub struct RemoteDomainSnapshotIsCurrentArgs {
    pub snap: RemoteNonnullDomainSnapshot,
    pub flags: u32,
}

#[derive(Clone, Debug)]
pub struct RemoteDomainSnapshotIsCurrentRet {
    pub current: i32,
}

#[derive(Clone, Debug)]
pub struct RemoteDomainSnapshotHasMetadataArgs {
    pub snap: RemoteNonnullDomainSnapshot,
    pub flags: u32,
}

#[derive(Clone, Debug)]
pub struct RemoteDomainSnapshotHasMetadataRet {
    pub metadata: i32,
}

#[derive(Clone, Debug)]
pub struct RemoteDomainRevertToSnapshotArgs {
    pub snap: RemoteNonnullDomainSnapshot,
    pub flags: u32,
}

#[derive(Clone, Debug)]
pub struct RemoteDomainSnapshotDeleteArgs {
    pub snap: RemoteNonnullDomainSnapshot,
    pub flags: u32,
}

#[derive(Clone, Debug)]
pub struct RemoteDomainOpenConsoleArgs {
    pub dom: RemoteNonnullDomain,
    pub dev_name: Option<String>,
    pub flags: u32,
}

#[derive(Clone, Debug)]
pub struct RemoteDomainOpenChannelArgs {
    pub dom: RemoteNonnullDomain,
    pub name: Option<String>,
    pub flags: u32,
}

#[derive(Clone, Debug)]
pub struct RemoteStorageVolUploadArgs {
    pub vol: RemoteNonnullStorageVol,
    pub offset: u64,
    pub length: u64,
    pub flags: u32,
}

#[derive(Clone, Debug)]
pub struct RemoteStorageVolDownloadArgs {
    pub vol: RemoteNonnullStorageVol,
    pub offset: u64,
    pub length: u64,
    pub flags: u32,
}

#[derive(Clone, Debug)]
pub struct RemoteDomainGetStateArgs {
    pub dom: RemoteNonnullDomain,
    pub flags: u32,
}

#[derive(Clone, Debug)]
pub struct RemoteDomainGetStateRet {
    pub state: i32,
    pub reason: i32,
}

#[derive(Clone, Debug)]
pub struct RemoteDomainMigrateBegin3Args {
    pub dom: RemoteNonnullDomain,
    pub xmlin: Option<String>,
    pub flags: u64,
    pub dname: Option<String>,
    pub resource: u64,
}

#[derive(Clone, Debug)]
pub struct RemoteDomainMigrateBegin3Ret {
    pub cookie_out: Vec<u8>,
    pub xml: String,
}

#[derive(Clone, Debug)]
pub struct RemoteDomainMigratePrepare3Args {
    pub cookie_in: Vec<u8>,
    pub uri_in: Option<String>,
    pub flags: u64,
    pub dname: Option<String>,
    pub resource: u64,
    pub dom_xml: String,
}

#[derive(Clone, Debug)]
pub struct RemoteDomainMigratePrepare3Ret {
    pub cookie_out: Vec<u8>,
    pub uri_out: Option<String>,
}

#[derive(Clone, Debug)]
pub struct RemoteDomainMigratePrepareTunnel3Args {
    pub cookie_in: Vec<u8>,
    pub flags: u64,
    pub dname: Option<String>,
    pub resource: u64,
    pub dom_xml: String,
}

#[derive(Clone, Debug)]
pub struct RemoteDomainMigratePrepareTunnel3Ret {
    pub cookie_out: Vec<u8>,
}

#[derive(Clone, Debug)]
pub struct RemoteDomainMigratePerform3Args {
    pub dom: RemoteNonnullDomain,
    pub xmlin: Option<String>,
    pub cookie_in: Vec<u8>,
    pub dconnuri: Option<String>,
    pub uri: Option<String>,
    pub flags: u64,
    pub dname: Option<String>,
    pub resource: u64,
}

#[derive(Clone, Debug)]
pub struct RemoteDomainMigratePerform3Ret {
    pub cookie_out: Vec<u8>,
}

#[derive(Clone, Debug)]
pub struct RemoteDomainMigrateFinish3Args {
    pub dname: String,
    pub cookie_in: Vec<u8>,
    pub dconnuri: Option<String>,
    pub uri: Option<String>,
    pub flags: u64,
    pub cancelled: i32,
}

#[derive(Clone, Debug)]
pub struct RemoteDomainMigrateFinish3Ret {
    pub dom: RemoteNonnullDomain,
    pub cookie_out: Vec<u8>,
}

#[derive(Clone, Debug)]
pub struct RemoteDomainMigrateConfirm3Args {
    pub dom: RemoteNonnullDomain,
    pub cookie_in: Vec<u8>,
    pub flags: u64,
    pub cancelled: i32,
}

#[derive(Clone, Debug)]
pub struct RemoteDomainEventControlErrorMsg {
    pub dom: RemoteNonnullDomain,
}

#[derive(Clone, Debug)]
pub struct RemoteDomainEventCallbackControlErrorMsg {
    pub callback_id: i32,
    pub msg: RemoteDomainEventControlErrorMsg,
}

#[derive(Clone, Debug)]
pub struct RemoteDomainGetControlInfoArgs {
    pub dom: RemoteNonnullDomain,
    pub flags: u32,
}

#[derive(Clone, Debug)]
pub struct RemoteDomainGetControlInfoRet {
    pub state: u32,
    pub details: u32,
    pub state_time: u64,
}

#[derive(Clone, Debug)]
pub struct RemoteDomainOpenGraphicsArgs {
    pub dom: RemoteNonnullDomain,
    pub idx: u32,
    pub flags: u32,
}

#[derive(Clone, Debug)]
pub struct RemoteDomainOpenGraphicsFdArgs {
    pub dom: RemoteNonnullDomain,
    pub idx: u32,
    pub flags: u32,
}

#[derive(Clone, Debug)]
pub struct RemoteNodeSuspendForDurationArgs {
    pub target: u32,
    pub duration: u64,
    pub flags: u32,
}

#[derive(Clone, Debug)]
pub struct RemoteDomainShutdownFlagsArgs {
    pub dom: RemoteNonnullDomain,
    pub flags: u32,
}

#[derive(Clone, Debug)]
pub struct RemoteDomainGetDiskErrorsArgs {
    pub dom: RemoteNonnullDomain,
    pub maxerrors: u32,
    pub flags: u32,
}

#[derive(Clone, Debug)]
pub struct RemoteDomainGetDiskErrorsRet {
    pub errors: Vec<RemoteDomainDiskError>,
    pub nerrors: i32,
}

#[derive(Clone, Debug)]
pub struct RemoteConnectListAllDomainsArgs {
    pub need_results: i32,
    pub flags: u32,
}

#[derive(Clone, Debug)]
pub struct RemoteConnectListAllDomainsRet {
    pub domains: Vec<RemoteNonnullDomain>,
    pub ret: u32,
}

#[derive(Clone, Debug)]
pub struct RemoteConnectListAllStoragePoolsArgs {
    pub need_results: i32,
    pub flags: u32,
}

#[derive(Clone, Debug)]
pub struct RemoteConnectListAllStoragePoolsRet {
    pub pools: Vec<RemoteNonnullStoragePool>,
    pub ret: u32,
}

#[derive(Clone, Debug)]
pub struct RemoteStoragePoolListAllVolumesArgs {
    pub pool: RemoteNonnullStoragePool,
    pub need_results: i32,
    pub flags: u32,
}

#[derive(Clone, Debug)]
pub struct RemoteStoragePoolListAllVolumesRet {
    pub vols: Vec<RemoteNonnullStorageVol>,
    pub ret: u32,
}

#[derive(Clone, Debug)]
pub struct RemoteConnectListAllNetworksArgs {
    pub need_results: i32,
    pub flags: u32,
}

#[derive(Clone, Debug)]
pub struct RemoteConnectListAllNetworksRet {
    pub nets: Vec<RemoteNonnullNetwork>,
    pub ret: u32,
}

#[derive(Clone, Debug)]
pub struct RemoteConnectListAllInterfacesArgs {
    pub need_results: i32,
    pub flags: u32,
}

#[derive(Clone, Debug)]
pub struct RemoteConnectListAllInterfacesRet {
    pub ifaces: Vec<RemoteNonnullInterface>,
    pub ret: u32,
}

#[derive(Clone, Debug)]
pub struct RemoteConnectListAllNodeDevicesArgs {
    pub need_results: i32,
    pub flags: u32,
}

#[derive(Clone, Debug)]
pub struct RemoteConnectListAllNodeDevicesRet {
    pub devices: Vec<RemoteNonnullNodeDevice>,
    pub ret: u32,
}

#[derive(Clone, Debug)]
pub struct RemoteConnectListAllNwfiltersArgs {
    pub need_results: i32,
    pub flags: u32,
}

#[derive(Clone, Debug)]
pub struct RemoteConnectListAllNwfiltersRet {
    pub filters: Vec<RemoteNonnullNwfilter>,
    pub ret: u32,
}

#[derive(Clone, Debug)]
pub struct RemoteConnectListAllSecretsArgs {
    pub need_results: i32,
    pub flags: u32,
}

#[derive(Clone, Debug)]
pub struct RemoteConnectListAllSecretsRet {
    pub secrets: Vec<RemoteNonnullSecret>,
    pub ret: u32,
}

#[derive(Clone, Debug)]
pub struct RemoteNodeGetMemoryParametersArgs {
    pub nparams: i32,
    pub flags: u32,
}

#[derive(Clone, Debug)]
pub struct RemoteNodeGetCpuMapArgs {
    pub need_map: i32,
    pub need_online: i32,
    pub flags: u32,
}

#[derive(Clone, Debug)]
pub struct RemoteNodeGetCpuMapRet {
    pub cpumap: Vec<u8>,
    pub online: u32,
    pub ret: i32,
}

#[derive(Clone, Debug)]
pub struct RemoteDomainFstrimArgs {
    pub dom: RemoteNonnullDomain,
    pub mount_point: Option<String>,
    pub minimum: u64,
    pub flags: u32,
}

#[derive(Clone, Debug)]
pub struct RemoteDomainGetTimeArgs {
    pub dom: RemoteNonnullDomain,
    pub flags: u32,
}

#[derive(Clone, Debug)]
pub struct RemoteDomainGetTimeRet {
    pub seconds: i64,
    pub nseconds: u32,
}

#[derive(Clone, Debug)]
pub struct RemoteDomainSetTimeArgs {
    pub dom: RemoteNonnullDomain,
    pub seconds: i64,
    pub nseconds: u32,
    pub flags: u32,
}

#[derive(Clone, Debug)]
pub struct RemoteDomainMigrateBegin3ParamsRet {
    pub cookie_out: Vec<u8>,
    pub xml: String,
}

#[derive(Clone, Debug)]
pub struct RemoteDomainMigratePrepare3ParamsRet {
    pub cookie_out: Vec<u8>,
    pub uri_out: Option<String>,
}

#[derive(Clone, Debug)]
pub struct RemoteDomainMigratePrepareTunnel3ParamsRet {
    pub cookie_out: Vec<u8>,
}

#[derive(Clone, Debug)]
pub struct RemoteDomainMigratePerform3ParamsRet {
    pub cookie_out: Vec<u8>,
}

#[derive(Clone, Debug)]
pub struct RemoteDomainMigrateFinish3ParamsRet {
    pub dom: RemoteNonnullDomain,
    pub cookie_out: Vec<u8>,
}

#[derive(Clone, Debug)]
pub struct RemoteDomainEventDeviceRemovedMsg {
    pub dom: RemoteNonnullDomain,
    pub dev_alias: String,
}

#[derive(Clone, Debug)]
pub struct RemoteDomainEventCallbackDeviceRemovedMsg {
    pub callback_id: i32,
    pub msg: RemoteDomainEventDeviceRemovedMsg,
}

#[derive(Clone, Debug)]
pub struct RemoteDomainEventBlockJob2Msg {
    pub callback_id: i32,
    pub dom: RemoteNonnullDomain,
    pub dst: String,
    pub type_: i32,
    pub status: i32,
}

#[derive(Clone, Debug)]
pub struct RemoteDomainEventBlockThresholdMsg {
    pub callback_id: i32,
    pub dom: RemoteNonnullDomain,
    pub dev: String,
    pub path: Option<String>,
    pub threshold: u64,
    pub excess: u64,
}

#[derive(Clone, Debug)]
pub struct RemoteDomainEventCallbackDeviceAddedMsg {
    pub callback_id: i32,
    pub dom: RemoteNonnullDomain,
    pub dev_alias: String,
}

#[derive(Clone, Debug)]
pub struct RemoteConnectEventConnectionClosedMsg {
    pub reason: i32,
}

#[derive(Clone, Debug)]
pub struct RemoteConnectGetCpuModelNamesArgs {
    pub arch: String,
    pub need_results: i32,
    pub flags: u32,
}

#[derive(Clone, Debug)]
pub struct RemoteConnectGetCpuModelNamesRet {
    pub models: Vec<String>,
    pub ret: i32,
}

#[derive(Clone, Debug)]
pub struct RemoteConnectNetworkEventRegisterAnyArgs {
    pub event_id: i32,
    pub net: Option<RemoteNonnullNetwork>,
}

#[derive(Clone, Debug)]
pub struct RemoteConnectNetworkEventRegisterAnyRet {
    pub callback_id: i32,
}

#[derive(Clone, Debug)]
pub struct RemoteConnectNetworkEventDeregisterAnyArgs {
    pub callback_id: i32,
}

#[derive(Clone, Debug)]
pub struct RemoteNetworkEventLifecycleMsg {
    pub callback_id: i32,
    pub net: RemoteNonnullNetwork,
    pub event: i32,
    pub detail: i32,
}

#[derive(Clone, Debug)]
pub struct RemoteConnectStoragePoolEventRegisterAnyArgs {
    pub event_id: i32,
    pub pool: Option<RemoteNonnullStoragePool>,
}

#[derive(Clone, Debug)]
pub struct RemoteConnectStoragePoolEventRegisterAnyRet {
    pub callback_id: i32,
}

#[derive(Clone, Debug)]
pub struct RemoteConnectStoragePoolEventDeregisterAnyArgs {
    pub callback_id: i32,
}

#[derive(Clone, Debug)]
pub struct RemoteStoragePoolEventLifecycleMsg {
    pub callback_id: i32,
    pub pool: RemoteNonnullStoragePool,
    pub event: i32,
    pub detail: i32,
}

#[derive(Clone, Debug)]
pub struct RemoteStoragePoolEventRefreshMsg {
    pub callback_id: i32,
    pub pool: RemoteNonnullStoragePool,
}

#[derive(Clone, Debug)]
pub struct RemoteConnectNodeDeviceEventRegisterAnyArgs {
    pub event_id: i32,
    pub dev: Option<RemoteNonnullNodeDevice>,
}

#[derive(Clone, Debug)]
pub struct RemoteConnectNodeDeviceEventRegisterAnyRet {
    pub callback_id: i32,
}

#[derive(Clone, Debug)]
pub struct RemoteConnectNodeDeviceEventDeregisterAnyArgs {
    pub callback_id: i32,
}

#[derive(Clone, Debug)]
pub struct RemoteNodeDeviceEventLifecycleMsg {
    pub callback_id: i32,
    pub dev: RemoteNonnullNodeDevice,
    pub event: i32,
    pub detail: i32,
}

#[derive(Clone, Debug)]
pub struct RemoteNodeDeviceEventUpdateMsg {
    pub callback_id: i32,
    pub dev: RemoteNonnullNodeDevice,
}

#[derive(Clone, Debug)]
pub struct RemoteDomainFsfreezeArgs {
    pub dom: RemoteNonnullDomain,
    pub mountpoints: Vec<String>,
    pub flags: u32,
}

#[derive(Clone, Debug)]
pub struct RemoteDomainFsfreezeRet {
    pub filesystems: i32,
}

#[derive(Clone, Debug)]
pub struct RemoteDomainFsthawArgs {
    pub dom: RemoteNonnullDomain,
    pub mountpoints: Vec<String>,
    pub flags: u32,
}

#[derive(Clone, Debug)]
pub struct RemoteDomainFsthawRet {
    pub filesystems: i32,
}

#[derive(Clone, Debug)]
pub struct RemoteNodeGetFreePagesArgs {
    pub pages: Vec<u32>,
    pub start_cell: i32,
    pub cell_count: u32,
    pub flags: u32,
}

#[derive(Clone, Debug)]
pub struct RemoteNodeGetFreePagesRet {
    pub counts: Vec<u64>,
}

#[derive(Clone, Debug)]
pub struct RemoteNodeAllocPagesArgs {
    pub page_sizes: Vec<u32>,
    pub page_counts: Vec<u64>,
    pub start_cell: i32,
    pub cell_count: u32,
    pub flags: u32,
}

#[derive(Clone, Debug)]
pub struct RemoteNodeAllocPagesRet {
    pub ret: i32,
}

#[derive(Clone, Debug)]
pub struct RemoteNetworkDhcpLease {
    pub iface: String,
    pub expirytime: i64,
    pub type_: i32,
    pub mac: Option<String>,
    pub iaid: Option<String>,
    pub ipaddr: String,
    pub prefix: u32,
    pub hostname: Option<String>,
    pub clientid: Option<String>,
}

#[derive(Clone, Debug)]
pub struct RemoteNetworkGetDhcpLeasesArgs {
    pub net: RemoteNonnullNetwork,
    pub mac: Option<String>,
    pub need_results: i32,
    pub flags: u32,
}

#[derive(Clone, Debug)]
pub struct RemoteNetworkGetDhcpLeasesRet {
    pub leases: Vec<RemoteNetworkDhcpLease>,
    pub ret: u32,
}

#[derive(Clone, Debug)]
pub struct RemoteConnectGetAllDomainStatsArgs {
    pub doms: Vec<RemoteNonnullDomain>,
    pub stats: u32,
    pub flags: u32,
}

#[derive(Clone, Debug)]
pub struct RemoteDomainEventCallbackAgentLifecycleMsg {
    pub callback_id: i32,
    pub dom: RemoteNonnullDomain,
    pub state: i32,
    pub reason: i32,
}

#[derive(Clone, Debug)]
pub struct RemoteDomainFsinfo {
    pub mountpoint: String,
    pub name: String,
    pub fstype: String,
    pub dev_aliases: Vec<String>,
}

#[derive(Clone, Debug)]
pub struct RemoteDomainGetFsinfoArgs {
    pub dom: RemoteNonnullDomain,
    pub flags: u32,
}

#[derive(Clone, Debug)]
pub struct RemoteDomainGetFsinfoRet {
    pub info: Vec<RemoteDomainFsinfo>,
    pub ret: u32,
}

#[derive(Clone, Debug)]
pub struct RemoteDomainIpAddr {
    pub type_: i32,
    pub addr: String,
    pub prefix: u32,
}

#[derive(Clone, Debug)]
pub struct RemoteDomainInterface {
    pub name: String,
    pub hwaddr: Option<String>,
    pub addrs: Vec<RemoteDomainIpAddr>,
}

#[derive(Clone, Debug)]
pub struct RemoteDomainInterfaceAddressesArgs {
    pub dom: RemoteNonnullDomain,
    pub source: u32,
    pub flags: u32,
}

#[derive(Clone, Debug)]
pub struct RemoteDomainInterfaceAddressesRet {
    pub ifaces: Vec<RemoteDomainInterface>,
}

#[derive(Clone, Debug)]
pub struct RemoteDomainSetUserPasswordArgs {
    pub dom: RemoteNonnullDomain,
    pub user: Option<String>,
    pub password: Option<String>,
    pub flags: u32,
}

#[derive(Clone, Debug)]
pub struct RemoteDomainRenameArgs {
    pub dom: RemoteNonnullDomain,
    pub new_name: Option<String>,
    pub flags: u32,
}

#[derive(Clone, Debug)]
pub struct RemoteDomainRenameRet {
    pub retcode: i32,
}

#[derive(Clone, Debug)]
pub struct RemoteDomainEventCallbackMigrationIterationMsg {
    pub callback_id: i32,
    pub dom: RemoteNonnullDomain,
    pub iteration: i32,
}

#[derive(Clone, Debug)]
pub struct RemoteDomainMigrateStartPostCopyArgs {
    pub dom: RemoteNonnullDomain,
    pub flags: u32,
}

#[derive(Clone, Debug)]
pub struct RemoteDomainEventCallbackDeviceRemovalFailedMsg {
    pub callback_id: i32,
    pub dom: RemoteNonnullDomain,
    pub dev_alias: String,
}

#[derive(Clone, Debug)]
pub struct RemoteDomainGetGuestVcpusArgs {
    pub dom: RemoteNonnullDomain,
    pub flags: u32,
}

#[derive(Clone, Debug)]
pub struct RemoteDomainSetGuestVcpusArgs {
    pub dom: RemoteNonnullDomain,
    pub cpumap: String,
    pub state: i32,
    pub flags: u32,
}

#[derive(Clone, Debug)]
pub struct RemoteDomainSetVcpuArgs {
    pub dom: RemoteNonnullDomain,
    pub cpumap: String,
    pub state: i32,
    pub flags: u32,
}

#[derive(Clone, Debug)]
pub struct RemoteDomainEventCallbackMetadataChangeMsg {
    pub callback_id: i32,
    pub dom: RemoteNonnullDomain,
    pub type_: i32,
    pub nsuri: Option<String>,
}

#[derive(Clone, Debug)]
pub struct RemoteDomainEventMemoryFailureMsg {
    pub callback_id: i32,
    pub dom: RemoteNonnullDomain,
    pub recipient: i32,
    pub action: i32,
    pub flags: u32,
}

#[derive(Clone, Debug)]
pub struct RemoteConnectSecretEventRegisterAnyArgs {
    pub event_id: i32,
    pub secret: Option<RemoteNonnullSecret>,
}

#[derive(Clone, Debug)]
pub struct RemoteConnectSecretEventRegisterAnyRet {
    pub callback_id: i32,
}

#[derive(Clone, Debug)]
pub struct RemoteConnectSecretEventDeregisterAnyArgs {
    pub callback_id: i32,
}

#[derive(Clone, Debug)]
pub struct RemoteSecretEventLifecycleMsg {
    pub callback_id: i32,
    pub secret: RemoteNonnullSecret,
    pub event: i32,
    pub detail: i32,
}

#[derive(Clone, Debug)]
pub struct RemoteSecretEventValueChangedMsg {
    pub callback_id: i32,
    pub secret: RemoteNonnullSecret,
}

#[derive(Clone, Debug)]
pub struct RemoteDomainSetBlockThresholdArgs {
    pub dom: RemoteNonnullDomain,
    pub dev: String,
    pub threshold: u64,
    pub flags: u32,
}

#[derive(Clone, Debug)]
pub struct RemoteDomainSetLifecycleActionArgs {
    pub dom: RemoteNonnullDomain,
    pub type_: u32,
    pub action: u32,
    pub flags: u32,
}

#[derive(Clone, Debug)]
pub struct RemoteConnectCompareHypervisorCpuArgs {
    pub emulator: Option<String>,
    pub arch: Option<String>,
    pub machine: Option<String>,
    pub virttype: Option<String>,
    pub xml_cpu: String,
    pub flags: u32,
}

#[derive(Clone, Debug)]
pub struct RemoteConnectCompareHypervisorCpuRet {
    pub result: i32,
}

#[derive(Clone, Debug)]
pub struct RemoteConnectBaselineHypervisorCpuArgs {
    pub emulator: Option<String>,
    pub arch: Option<String>,
    pub machine: Option<String>,
    pub virttype: Option<String>,
    pub xml_cpus: Vec<String>,
    pub flags: u32,
}

#[derive(Clone, Debug)]
pub struct RemoteConnectBaselineHypervisorCpuRet {
    pub cpu: String,
}

#[derive(Clone, Debug)]
pub struct RemoteNodeGetSevInfoArgs {
    pub nparams: i32,
    pub flags: u32,
}

#[derive(Clone, Debug)]
pub struct RemoteDomainGetLaunchSecurityInfoArgs {
    pub dom: RemoteNonnullDomain,
    pub flags: u32,
}

#[derive(Clone, Debug)]
pub struct RemoteNwfilterBindingLookupByPortDevArgs {
    pub name: String,
}

#[derive(Clone, Debug)]
pub struct RemoteNwfilterBindingLookupByPortDevRet {
    pub nwfilter: RemoteNonnullNwfilterBinding,
}

#[derive(Clone, Debug)]
pub struct RemoteNwfilterBindingCreateXmlArgs {
    pub xml: String,
    pub flags: u32,
}

#[derive(Clone, Debug)]
pub struct RemoteNwfilterBindingCreateXmlRet {
    pub nwfilter: RemoteNonnullNwfilterBinding,
}

#[derive(Clone, Debug)]
pub struct RemoteNwfilterBindingDeleteArgs {
    pub nwfilter: RemoteNonnullNwfilterBinding,
}

#[derive(Clone, Debug)]
pub struct RemoteNwfilterBindingGetXmlDescArgs {
    pub nwfilter: RemoteNonnullNwfilterBinding,
    pub flags: u32,
}

#[derive(Clone, Debug)]
pub struct RemoteNwfilterBindingGetXmlDescRet {
    pub xml: String,
}

#[derive(Clone, Debug)]
pub struct RemoteConnectListAllNwfilterBindingsArgs {
    pub need_results: i32,
    pub flags: u32,
}

#[derive(Clone, Debug)]
pub struct RemoteConnectListAllNwfilterBindingsRet {
    pub bindings: Vec<RemoteNonnullNwfilterBinding>,
    pub ret: u32,
}

#[derive(Clone, Debug)]
pub struct RemoteConnectGetStoragePoolCapabilitiesArgs {
    pub flags: u32,
}

#[derive(Clone, Debug)]
pub struct RemoteConnectGetStoragePoolCapabilitiesRet {
    pub capabilities: String,
}

#[derive(Clone, Debug)]
pub struct RemoteNetworkListAllPortsArgs {
    pub network: RemoteNonnullNetwork,
    pub need_results: i32,
    pub flags: u32,
}

#[derive(Clone, Debug)]
pub struct RemoteNetworkListAllPortsRet {
    pub ports: Vec<RemoteNonnullNetworkPort>,
    pub ret: u32,
}

#[derive(Clone, Debug)]
pub struct RemoteNetworkPortLookupByUuidArgs {
    pub network: RemoteNonnullNetwork,
    pub uuid: [u8; 16],
}

#[derive(Clone, Debug)]
pub struct RemoteNetworkPortLookupByUuidRet {
    pub port: RemoteNonnullNetworkPort,
}

#[derive(Clone, Debug)]
pub struct RemoteNetworkPortCreateXmlArgs {
    pub network: RemoteNonnullNetwork,
    pub xml: String,
    pub flags: u32,
}

#[derive(Clone, Debug)]
pub struct RemoteNetworkPortCreateXmlRet {
    pub port: RemoteNonnullNetworkPort,
}

#[derive(Clone, Debug)]
pub struct RemoteNetworkPortGetParametersArgs {
    pub port: RemoteNonnullNetworkPort,
    pub nparams: i32,
    pub flags: u32,
}

#[derive(Clone, Debug)]
pub struct RemoteNetworkPortGetXmlDescArgs {
    pub port: RemoteNonnullNetworkPort,
    pub flags: u32,
}

#[derive(Clone, Debug)]
pub struct RemoteNetworkPortGetXmlDescRet {
    pub xml: String,
}

#[derive(Clone, Debug)]
pub struct RemoteNetworkPortDeleteArgs {
    pub port: RemoteNonnullNetworkPort,
    pub flags: u32,
}

#[derive(Clone, Debug)]
pub struct RemoteDomainCheckpointCreateXmlArgs {
    pub dom: RemoteNonnullDomain,
    pub xml_desc: String,
    pub flags: u32,
}

#[derive(Clone, Debug)]
pub struct RemoteDomainCheckpointCreateXmlRet {
    pub checkpoint: RemoteNonnullDomainCheckpoint,
}

#[derive(Clone, Debug)]
pub struct RemoteDomainCheckpointGetXmlDescArgs {
    pub checkpoint: RemoteNonnullDomainCheckpoint,
    pub flags: u32,
}

#[derive(Clone, Debug)]
pub struct RemoteDomainCheckpointGetXmlDescRet {
    pub xml: String,
}

#[derive(Clone, Debug)]
pub struct RemoteDomainListAllCheckpointsArgs {
    pub dom: RemoteNonnullDomain,
    pub need_results: i32,
    pub flags: u32,
}

#[derive(Clone, Debug)]
pub struct RemoteDomainListAllCheckpointsRet {
    pub checkpoints: Vec<RemoteNonnullDomainCheckpoint>,
    pub ret: i32,
}

#[derive(Clone, Debug)]
pub struct RemoteDomainCheckpointListAllChildrenArgs {
    pub checkpoint: RemoteNonnullDomainCheckpoint,
    pub need_results: i32,
    pub flags: u32,
}

#[derive(Clone, Debug)]
pub struct RemoteDomainCheckpointListAllChildrenRet {
    pub checkpoints: Vec<RemoteNonnullDomainCheckpoint>,
    pub ret: i32,
}

#[derive(Clone, Debug)]
pub struct RemoteDomainCheckpointLookupByNameArgs {
    pub dom: RemoteNonnullDomain,
    pub name: String,
    pub flags: u32,
}

#[derive(Clone, Debug)]
pub struct RemoteDomainCheckpointLookupByNameRet {
    pub checkpoint: RemoteNonnullDomainCheckpoint,
}

#[derive(Clone, Debug)]
pub struct RemoteDomainCheckpointGetParentArgs {
    pub checkpoint: RemoteNonnullDomainCheckpoint,
    pub flags: u32,
}

#[derive(Clone, Debug)]
pub struct RemoteDomainCheckpointGetParentRet {
    pub parent: RemoteNonnullDomainCheckpoint,
}

#[derive(Clone, Debug)]
pub struct RemoteDomainCheckpointDeleteArgs {
    pub checkpoint: RemoteNonnullDomainCheckpoint,
    pub flags: u32,
}

#[derive(Clone, Debug)]
pub struct RemoteDomainGetGuestInfoArgs {
    pub dom: RemoteNonnullDomain,
    pub types: u32,
    pub flags: u32,
}

#[derive(Clone, Debug)]
pub struct RemoteDomainAgentSetResponseTimeoutArgs {
    pub dom: RemoteNonnullDomain,
    pub timeout: i32,
    pub flags: u32,
}

#[derive(Clone, Debug)]
pub struct RemoteDomainAgentSetResponseTimeoutRet {
    pub result: i32,
}

#[derive(Clone, Debug)]
pub struct RemoteDomainBackupBeginArgs {
    pub dom: RemoteNonnullDomain,
    pub backup_xml: String,
    pub checkpoint_xml: Option<String>,
    pub flags: u32,
}

#[derive(Clone, Debug)]
pub struct RemoteDomainBackupGetXmlDescArgs {
    pub dom: RemoteNonnullDomain,
    pub flags: u32,
}

#[derive(Clone, Debug)]
pub struct RemoteDomainBackupGetXmlDescRet {
    pub xml: String,
}

#[derive(Clone, Debug)]
pub struct RemoteDomainAuthorizedSshKeysGetArgs {
    pub dom: RemoteNonnullDomain,
    pub user: String,
    pub flags: u32,
}

#[derive(Clone, Debug)]
pub struct RemoteDomainAuthorizedSshKeysGetRet {
    pub keys: Vec<String>,
}

#[derive(Clone, Debug)]
pub struct RemoteDomainAuthorizedSshKeysSetArgs {
    pub dom: RemoteNonnullDomain,
    pub user: String,
    pub keys: Vec<String>,
    pub flags: u32,
}

#[derive(Clone, Debug)]
pub struct RemoteDomainGetMessagesArgs {
    pub dom: RemoteNonnullDomain,
    pub flags: u32,
}

#[derive(Clone, Debug)]
pub struct RemoteDomainGetMessagesRet {
    pub msgs: Vec<String>,
}

#[derive(Clone, Debug)]
pub struct RemoteDomainStartDirtyRateCalcArgs {
    pub dom: RemoteNonnullDomain,
    pub seconds: i32,
    pub flags: u32,
}

#[derive(Clone, Debug)]
pub struct RemoteDomainEventMemoryDeviceSizeChangeMsg {
    pub callback_id: i32,
    pub dom: RemoteNonnullDomain,
    pub alias: String,
    pub size: u64,
}

} // verus!
