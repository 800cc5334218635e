//! Procedure numbers of the remote program and the authentication types.
use vstd::prelude::*;

verus! {

/// The procedures of the remote program, in the order of their numbers.
#[derive(Clone, Copy, Debug, PartialEq, Eq, Structural)]
pub enum RemoteProcedure {
    _Reserved0,
    RemoteProcConnectOpen,
    RemoteProcConnectClose,
    RemoteProcConnectGetType,
    RemoteProcConnectGetVersion,
    RemoteProcConnectGetMaxVcpus,
    RemoteProcNodeGetInfo,
    RemoteProcConnectGetCapabilities,
    RemoteProcDomainAttachDevice,
    RemoteProcDomainCreate,
    RemoteProcDomainCreateXml,
    RemoteProcDomainDefineXml,
    RemoteProcDomainDestroy,
    RemoteProcDomainDetachDevice,
    RemoteProcDomainGetXmlDesc,
    RemoteProcDomainGetAutostart,
    RemoteProcDomainGetInfo,
    RemoteProcDomainGetMaxMemory,
    RemoteProcDomainGetMaxVcpus,
    RemoteProcDomainGetOsType,
    RemoteProcDomainGetVcpus,
    RemoteProcConnectListDefinedDomains,
    RemoteProcDomainLookupById,
    RemoteProcDomainLookupByName,
    RemoteProcDomainLookupByUuid,
    RemoteProcConnectNumOfDefinedDomains,
    RemoteProcDomainPinVcpu,
    RemoteProcDomainReboot,
    RemoteProcDomainResume,
    RemoteProcDomainSetAutostart,
    RemoteProcDomainSetMaxMemory,
    RemoteProcDomainSetMemory,
    RemoteProcDomainSetVcpus,
    RemoteProcDomainShutdown,
    RemoteProcDomainSuspend,
    RemoteProcDomainUndefine,
    RemoteProcConnectListDefinedNetworks,
    RemoteProcConnectListDomains,
    RemoteProcConnectListNetworks,
    RemoteProcNetworkCreate,
    RemoteProcNetworkCreateXml,
    RemoteProcNetworkDefineXml,
    RemoteProcNetworkDestroy,
    RemoteProcNetworkGetXmlDesc,
    RemoteProcNetworkGetAutostart,
    RemoteProcNetworkGetBridgeName,
    RemoteProcNetworkLookupByName,
    RemoteProcNetworkLookupByUuid,
    RemoteProcNetworkSetAutostart,
    RemoteProcNetworkUndefine,
    RemoteProcConnectNumOfDefinedNetworks,
    RemoteProcConnectNumOfDomains,
    RemoteProcConnectNumOfNetworks,
    RemoteProcDomainCoreDump,
    RemoteProcDomainRestore,
    RemoteProcDomainSave,
    RemoteProcDomainGetSchedulerType,
    RemoteProcDomainGetSchedulerParameters,
    RemoteProcDomainSetSchedulerParameters,
    RemoteProcConnectGetHostname,
    RemoteProcConnectSupportsFeature,
    RemoteProcDomainMigratePrepare,
    RemoteProcDomainMigratePerform,
    RemoteProcDomainMigrateFinish,
    RemoteProcDomainBlockStats,
    RemoteProcDomainInterfaceStats,
    RemoteProcAuthList,
    RemoteProcAuthSaslInit,
    RemoteProcAuthSaslStart,
    RemoteProcAuthSaslStep,
    RemoteProcAuthPolkit,
    RemoteProcConnectNumOfStoragePools,
    RemoteProcConnectListStoragePools,
    RemoteProcConnectNumOfDefinedStoragePools,
    RemoteProcConnectListDefinedStoragePools,
    RemoteProcConnectFindStoragePoolSources,
    RemoteProcStoragePoolCreateXml,
    RemoteProcStoragePoolDefineXml,
    RemoteProcStoragePoolCreate,
    RemoteProcStoragePoolBuild,
    RemoteProcStoragePoolDestroy,
    RemoteProcStoragePoolDelete,
    RemoteProcStoragePoolUndefine,
    RemoteProcStoragePoolRefresh,
    RemoteProcStoragePoolLookupByName,
    RemoteProcStoragePoolLookupByUuid,
    RemoteProcStoragePoolLookupByVolume,
    RemoteProcStoragePoolGetInfo,
    RemoteProcStoragePoolGetXmlDesc,
    RemoteProcStoragePoolGetAutostart,
    RemoteProcStoragePoolSetAutostart,
    RemoteProcStoragePoolNumOfVolumes,
    RemoteProcStoragePoolListVolumes,
    RemoteProcStorageVolCreateXml,
    RemoteProcStorageVolDelete,
    RemoteProcStorageVolLookupByName,
    RemoteProcStorageVolLookupByKey,
    RemoteProcStorageVolLookupByPath,
    RemoteProcStorageVolGetInfo,
    RemoteProcStorageVolGetXmlDesc,
    RemoteProcStorageVolGetPath,
    RemoteProcNodeGetCellsFreeMemory,
    RemoteProcNodeGetFreeMemory,
    RemoteProcDomainBlockPeek,
    RemoteProcDomainMemoryPeek,
    RemoteProcConnectDomainEventRegister,
    RemoteProcConnectDomainEventDeregister,
    RemoteProcDomainEventLifecycle,
    RemoteProcDomainMigratePrepare2,
    RemoteProcDomainMigrateFinish2,
    RemoteProcConnectGetUri,
    RemoteProcNodeNumOfDevices,
    RemoteProcNodeListDevices,
    RemoteProcNodeDeviceLookupByName,
    RemoteProcNodeDeviceGetXmlDesc,
    RemoteProcNodeDeviceGetParent,
    RemoteProcNodeDeviceNumOfCaps,
    RemoteProcNodeDeviceListCaps,
    RemoteProcNodeDeviceDettach,
    RemoteProcNodeDeviceReAttach,
    RemoteProcNodeDeviceReset,
    RemoteProcDomainGetSecurityLabel,
    RemoteProcNodeGetSecurityModel,
    RemoteProcNodeDeviceCreateXml,
    RemoteProcNodeDeviceDestroy,
    RemoteProcStorageVolCreateXmlFrom,
    RemoteProcConnectNumOfInterfaces,
    RemoteProcConnectListInterfaces,
    RemoteProcInterfaceLookupByName,
    RemoteProcInterfaceLookupByMacString,
    RemoteProcInterfaceGetXmlDesc,
    RemoteProcInterfaceDefineXml,
    RemoteProcInterfaceUndefine,
    RemoteProcInterfaceCreate,
    RemoteProcInterfaceDestroy,
    RemoteProcConnectDomainXmlFromNative,
    RemoteProcConnectDomainXmlToNative,
    RemoteProcConnectNumOfDefinedInterfaces,
    RemoteProcConnectListDefinedInterfaces,
    RemoteProcConnectNumOfSecrets,
    RemoteProcConnectListSecrets,
    RemoteProcSecretLookupByUuid,
    RemoteProcSecretDefineXml,
    RemoteProcSecretGetXmlDesc,
    RemoteProcSecretSetValue,
    RemoteProcSecretGetValue,
    RemoteProcSecretUndefine,
    RemoteProcSecretLookupByUsage,
    RemoteProcDomainMigratePrepareTunnel,
    RemoteProcConnectIsSecure,
    RemoteProcDomainIsActive,
    RemoteProcDomainIsPersistent,
    RemoteProcNetworkIsActive,
    RemoteProcNetworkIsPersistent,
    RemoteProcStoragePoolIsActive,
    RemoteProcStoragePoolIsPersistent,
    RemoteProcInterfaceIsActive,
    RemoteProcConnectGetLibVersion,
    RemoteProcConnectCompareCpu,
    RemoteProcDomainMemoryStats,
    RemoteProcDomainAttachDeviceFlags,
    RemoteProcDomainDetachDeviceFlags,
    RemoteProcConnectBaselineCpu,
    RemoteProcDomainGetJobInfo,
    RemoteProcDomainAbortJob,
    RemoteProcStorageVolWipe,
    RemoteProcDomainMigrateSetMaxDowntime,
    RemoteProcConnectDomainEventRegisterAny,
    RemoteProcConnectDomainEventDeregisterAny,
    RemoteProcDomainEventReboot,
    RemoteProcDomainEventRtcChange,
    RemoteProcDomainEventWatchdog,
    RemoteProcDomainEventIoError,
    RemoteProcDomainEventGraphics,
    RemoteProcDomainUpdateDeviceFlags,
    RemoteProcNwfilterLookupByName,
    RemoteProcNwfilterLookupByUuid,
    RemoteProcNwfilterGetXmlDesc,
    RemoteProcConnectNumOfNwfilters,
    RemoteProcConnectListNwfilters,
    RemoteProcNwfilterDefineXml,
    RemoteProcNwfilterUndefine,
    RemoteProcDomainManagedSave,
    RemoteProcDomainHasManagedSaveImage,
    RemoteProcDomainManagedSaveRemove,
    RemoteProcDomainSnapshotCreateXml,
    RemoteProcDomainSnapshotGetXmlDesc,
    RemoteProcDomainSnapshotNum,
    RemoteProcDomainSnapshotListNames,
    RemoteProcDomainSnapshotLookupByName,
    RemoteProcDomainHasCurrentSnapshot,
    RemoteProcDomainSnapshotCurrent,
    RemoteProcDomainRevertToSnapshot,
    RemoteProcDomainSnapshotDelete,
    RemoteProcDomainGetBlockInfo,
    RemoteProcDomainEventIoErrorReason,
    RemoteProcDomainCreateWithFlags,
    RemoteProcDomainSetMemoryParameters,
    RemoteProcDomainGetMemoryParameters,
    RemoteProcDomainSetVcpusFlags,
    RemoteProcDomainGetVcpusFlags,
    RemoteProcDomainOpenConsole,
    RemoteProcDomainIsUpdated,
    RemoteProcConnectGetSysinfo,
    RemoteProcDomainSetMemoryFlags,
    RemoteProcDomainSetBlkioParameters,
    RemoteProcDomainGetBlkioParameters,
    RemoteProcDomainMigrateSetMaxSpeed,
    RemoteProcStorageVolUpload,
    RemoteProcStorageVolDownload,
    RemoteProcDomainInjectNmi,
    RemoteProcDomainScreenshot,
    RemoteProcDomainGetState,
    RemoteProcDomainMigrateBegin3,
    RemoteProcDomainMigratePrepare3,
    RemoteProcDomainMigratePrepareTunnel3,
    RemoteProcDomainMigratePerform3,
    RemoteProcDomainMigrateFinish3,
    RemoteProcDomainMigrateConfirm3,
    RemoteProcDomainSetSchedulerParametersFlags,
    RemoteProcInterfaceChangeBegin,
    RemoteProcInterfaceChangeCommit,
    RemoteProcInterfaceChangeRollback,
    RemoteProcDomainGetSchedulerParametersFlags,
    RemoteProcDomainEventControlError,
    RemoteProcDomainPinVcpuFlags,
    RemoteProcDomainSendKey,
    RemoteProcNodeGetCpuStats,
    RemoteProcNodeGetMemoryStats,
    RemoteProcDomainGetControlInfo,
    RemoteProcDomainGetVcpuPinInfo,
    RemoteProcDomainUndefineFlags,
    RemoteProcDomainSaveFlags,
    RemoteProcDomainRestoreFlags,
    RemoteProcDomainDestroyFlags,
    RemoteProcDomainSaveImageGetXmlDesc,
    RemoteProcDomainSaveImageDefineXml,
    RemoteProcDomainBlockJobAbort,
    RemoteProcDomainGetBlockJobInfo,
    RemoteProcDomainBlockJobSetSpeed,
    RemoteProcDomainBlockPull,
    RemoteProcDomainEventBlockJob,
    RemoteProcDomainMigrateGetMaxSpeed,
    RemoteProcDomainBlockStatsFlags,
    RemoteProcDomainSnapshotGetParent,
    RemoteProcDomainReset,
    RemoteProcDomainSnapshotNumChildren,
    RemoteProcDomainSnapshotListChildrenNames,
    RemoteProcDomainEventDiskChange,
    RemoteProcDomainOpenGraphics,
    RemoteProcNodeSuspendForDuration,
    RemoteProcDomainBlockResize,
    RemoteProcDomainSetBlockIoTune,
    RemoteProcDomainGetBlockIoTune,
    RemoteProcDomainSetNumaParameters,
    RemoteProcDomainGetNumaParameters,
    RemoteProcDomainSetInterfaceParameters,
    RemoteProcDomainGetInterfaceParameters,
    RemoteProcDomainShutdownFlags,
    RemoteProcStorageVolWipePattern,
    RemoteProcStorageVolResize,
    RemoteProcDomainPmSuspendForDuration,
    RemoteProcDomainGetCpuStats,
    RemoteProcDomainGetDiskErrors,
    RemoteProcDomainSetMetadata,
    RemoteProcDomainGetMetadata,
    RemoteProcDomainBlockRebase,
    RemoteProcDomainPmWakeup,
    RemoteProcDomainEventTrayChange,
    RemoteProcDomainEventPmwakeup,
    RemoteProcDomainEventPmsuspend,
    RemoteProcDomainSnapshotIsCurrent,
    RemoteProcDomainSnapshotHasMetadata,
    RemoteProcConnectListAllDomains,
    RemoteProcDomainListAllSnapshots,
    RemoteProcDomainSnapshotListAllChildren,
    RemoteProcDomainEventBalloonChange,
    RemoteProcDomainGetHostname,
    RemoteProcDomainGetSecurityLabelList,
    RemoteProcDomainPinEmulator,
    RemoteProcDomainGetEmulatorPinInfo,
    RemoteProcConnectListAllStoragePools,
    RemoteProcStoragePoolListAllVolumes,
    RemoteProcConnectListAllNetworks,
    RemoteProcConnectListAllInterfaces,
    RemoteProcConnectListAllNodeDevices,
    RemoteProcConnectListAllNwfilters,
    RemoteProcConnectListAllSecrets,
    RemoteProcNodeSetMemoryParameters,
    RemoteProcNodeGetMemoryParameters,
    RemoteProcDomainBlockCommit,
    RemoteProcNetworkUpdate,
    RemoteProcDomainEventPmsuspendDisk,
    RemoteProcNodeGetCpuMap,
    RemoteProcDomainFstrim,
    RemoteProcDomainSendProcessSignal,
    RemoteProcDomainOpenChannel,
    RemoteProcNodeDeviceLookupScsiHostByWwn,
    RemoteProcDomainGetJobStats,
    RemoteProcDomainMigrateGetCompressionCache,
    RemoteProcDomainMigrateSetCompressionCache,
    RemoteProcNodeDeviceDetachFlags,
    RemoteProcDomainMigrateBegin3Params,
    RemoteProcDomainMigratePrepare3Params,
    RemoteProcDomainMigratePrepareTunnel3Params,
    RemoteProcDomainMigratePerform3Params,
    RemoteProcDomainMigrateFinish3Params,
    RemoteProcDomainMigrateConfirm3Params,
    RemoteProcDomainSetMemoryStatsPeriod,
    RemoteProcDomainCreateXmlWithFiles,
    RemoteProcDomainCreateWithFiles,
    RemoteProcDomainEventDeviceRemoved,
    RemoteProcConnectGetCpuModelNames,
    RemoteProcConnectNetworkEventRegisterAny,
    RemoteProcConnectNetworkEventDeregisterAny,
    RemoteProcNetworkEventLifecycle,
    RemoteProcConnectDomainEventCallbackRegisterAny,
    RemoteProcConnectDomainEventCallbackDeregisterAny,
    RemoteProcDomainEventCallbackLifecycle,
    RemoteProcDomainEventCallbackReboot,
    RemoteProcDomainEventCallbackRtcChange,
    RemoteProcDomainEventCallbackWatchdog,
    RemoteProcDomainEventCallbackIoError,
    RemoteProcDomainEventCallbackGraphics,
    RemoteProcDomainEventCallbackIoErrorReason,
    RemoteProcDomainEventCallbackControlError,
    RemoteProcDomainEventCallbackBlockJob,
    RemoteProcDomainEventCallbackDiskChange,
    RemoteProcDomainEventCallbackTrayChange,
    RemoteProcDomainEventCallbackPmwakeup,
    RemoteProcDomainEventCallbackPmsuspend,
    RemoteProcDomainEventCallbackBalloonChange,
    RemoteProcDomainEventCallbackPmsuspendDisk,
    RemoteProcDomainEventCallbackDeviceRemoved,
    RemoteProcDomainCoreDumpWithFormat,
    RemoteProcDomainFsfreeze,
    RemoteProcDomainFsthaw,
    RemoteProcDomainGetTime,
    RemoteProcDomainSetTime,
    RemoteProcDomainEventBlockJob2,
    RemoteProcNodeGetFreePages,
    RemoteProcNetworkGetDhcpLeases,
    RemoteProcConnectGetDomainCapabilities,
    RemoteProcDomainOpenGraphicsFd,
    RemoteProcConnectGetAllDomainStats,
    RemoteProcDomainBlockCopy,
    RemoteProcDomainEventCallbackTunable,
    RemoteProcNodeAllocPages,
    RemoteProcDomainEventCallbackAgentLifecycle,
    RemoteProcDomainGetFsinfo,
    RemoteProcDomainDefineXmlFlags,
    RemoteProcDomainGetIothreadInfo,
    RemoteProcDomainPinIothread,
    RemoteProcDomainInterfaceAddresses,
    RemoteProcDomainEventCallbackDeviceAdded,
    RemoteProcDomainAddIothread,
    RemoteProcDomainDelIothread,
    RemoteProcDomainSetUserPassword,
    RemoteProcDomainRename,
    RemoteProcDomainEventCallbackMigrationIteration,
    RemoteProcConnectRegisterCloseCallback,
    RemoteProcConnectUnregisterCloseCallback,
    RemoteProcConnectEventConnectionClosed,
    RemoteProcDomainEventCallbackJobCompleted,
    RemoteProcDomainMigrateStartPostCopy,
    RemoteProcDomainGetPerfEvents,
    RemoteProcDomainSetPerfEvents,
    RemoteProcDomainEventCallbackDeviceRemovalFailed,
    RemoteProcConnectStoragePoolEventRegisterAny,
    RemoteProcConnectStoragePoolEventDeregisterAny,
    RemoteProcStoragePoolEventLifecycle,
    RemoteProcDomainGetGuestVcpus,
    RemoteProcDomainSetGuestVcpus,
    RemoteProcStoragePoolEventRefresh,
    RemoteProcConnectNodeDeviceEventRegisterAny,
    RemoteProcConnectNodeDeviceEventDeregisterAny,
    RemoteProcNodeDeviceEventLifecycle,
    RemoteProcNodeDeviceEventUpdate,
    RemoteProcStorageVolGetInfoFlags,
    RemoteProcDomainEventCallbackMetadataChange,
    RemoteProcConnectSecretEventRegisterAny,
    RemoteProcConnectSecretEventDeregisterAny,
    RemoteProcSecretEventLifecycle,
    RemoteProcSecretEventValueChanged,
    RemoteProcDomainSetVcpu,
    RemoteProcDomainEventBlockThreshold,
    RemoteProcDomainSetBlockThreshold,
    RemoteProcDomainMigrateGetMaxDowntime,
    RemoteProcDomainManagedSaveGetXmlDesc,
    RemoteProcDomainManagedSaveDefineXml,
    RemoteProcDomainSetLifecycleAction,
    RemoteProcStoragePoolLookupByTargetPath,
    RemoteProcDomainDetachDeviceAlias,
    RemoteProcConnectCompareHypervisorCpu,
    RemoteProcConnectBaselineHypervisorCpu,
    RemoteProcNodeGetSevInfo,
    RemoteProcDomainGetLaunchSecurityInfo,
    RemoteProcNwfilterBindingLookupByPortDev,
    RemoteProcNwfilterBindingGetXmlDesc,
    RemoteProcNwfilterBindingCreateXml,
    RemoteProcNwfilterBindingDelete,
    RemoteProcConnectListAllNwfilterBindings,
    RemoteProcDomainSetIothreadParams,
    RemoteProcConnectGetStoragePoolCapabilities,
    RemoteProcNetworkListAllPorts,
    RemoteProcNetworkPortLookupByUuid,
    RemoteProcNetworkPortCreateXml,
    RemoteProcNetworkPortGetParameters,
    RemoteProcNetworkPortSetParameters,
    RemoteProcNetworkPortGetXmlDesc,
    RemoteProcNetworkPortDelete,
    RemoteProcDomainCheckpointCreateXml,
    RemoteProcDomainCheckpointGetXmlDesc,
    RemoteProcDomainListAllCheckpoints,
    RemoteProcDomainCheckpointListAllChildren,
    RemoteProcDomainCheckpointLookupByName,
    RemoteProcDomainCheckpointGetParent,
    RemoteProcDomainCheckpointDelete,
    RemoteProcDomainGetGuestInfo,
    RemoteProcConnectSetIdentity,
    RemoteProcDomainAgentSetResponseTimeout,
    RemoteProcDomainBackupBegin,
    RemoteProcDomainBackupGetXmlDesc,
    RemoteProcDomainEventMemoryFailure,
    RemoteProcDomainAuthorizedSshKeysGet,
    RemoteProcDomainAuthorizedSshKeysSet,
    RemoteProcDomainGetMessages,
    RemoteProcDomainStartDirtyRateCalc,
    RemoteProcNodeDeviceDefineXml,
    RemoteProcNodeDeviceUndefine,
    RemoteProcNodeDeviceCreate,
    RemoteProcNwfilterDefineXmlFlags,
    RemoteProcNetworkDefineXmlFlags,
    RemoteProcNodeDeviceGetAutostart,
    RemoteProcNodeDeviceSetAutostart,
    RemoteProcNodeDeviceIsPersistent,
    RemoteProcNodeDeviceIsActive,
    RemoteProcNetworkCreateXmlFlags,
    RemoteProcDomainEventMemoryDeviceSizeChange,
    RemoteProcDomainSetLaunchSecurityState,
}

/// How a client proves who it is.
#[derive(Clone, Copy, Debug, PartialEq, Eq, Structural)]
pub enum RemoteAuthType {
    RemoteAuthNone,
    RemoteAuthSasl,
    RemoteAuthPolkit,
}

/// The number by which a procedure is called on the wire.
pub open spec fn procedure_number(p: RemoteProcedure) -> i32 {
    match p {
        RemoteProcedure::_Reserved0 => 0,
        RemoteProcedure::RemoteProcConnectOpen => 1,
        RemoteProcedure::RemoteProcConnectClose => 2,
        RemoteProcedure::RemoteProcConnectGetType => 3,
        RemoteProcedure::RemoteProcConnectGetVersion => 4,
        RemoteProcedure::RemoteProcConnectGetMaxVcpus => 5,
        RemoteProcedure::RemoteProcNodeGetInfo => 6,
        RemoteProcedure::RemoteProcConnectGetCapabilities => 7,
        RemoteProcedure::RemoteProcDomainAttachDevice => 8,
        RemoteProcedure::RemoteProcDomainCreate => 9,
        RemoteProcedure::RemoteProcDomainCreateXml => 10,
        RemoteProcedure::RemoteProcDomainDefineXml => 11,
        RemoteProcedure::RemoteProcDomainDestroy => 12,
        RemoteProcedure::RemoteProcDomainDetachDevice => 13,
        RemoteProcedure::RemoteProcDomainGetXmlDesc => 14,
        RemoteProcedure::RemoteProcDomainGetAutostart => 15,
        RemoteProcedure::RemoteProcDomainGetInfo => 16,
        RemoteProcedure::RemoteProcDomainGetMaxMemory => 17,
        RemoteProcedure::RemoteProcDomainGetMaxVcpus => 18,
        RemoteProcedure::RemoteProcDomainGetOsType => 19,
        RemoteProcedure::RemoteProcDomainGetVcpus => 20,
        RemoteProcedure::RemoteProcConnectListDefinedDomains => 21,
        RemoteProcedure::RemoteProcDomainLookupById => 22,
        RemoteProcedure::RemoteProcDomainLookupByName => 23,
        RemoteProcedure::RemoteProcDomainLookupByUuid => 24,
        RemoteProcedure::RemoteProcConnectNumOfDefinedDomains => 25,
        RemoteProcedure::RemoteProcDomainPinVcpu => 26,
        RemoteProcedure::RemoteProcDomainReboot => 27,
        RemoteProcedure::RemoteProcDomainResume => 28,
        RemoteProcedure::RemoteProcDomainSetAutostart => 29,
        RemoteProcedure::RemoteProcDomainSetMaxMemory => 30,
        RemoteProcedure::RemoteProcDomainSetMemory => 31,
        RemoteProcedure::RemoteProcDomainSetVcpus => 32,
        RemoteProcedure::RemoteProcDomainShutdown => 33,
        RemoteProcedure::RemoteProcDomainSuspend => 34,
        RemoteProcedure::RemoteProcDomainUndefine => 35,
        RemoteProcedure::RemoteProcConnectListDefinedNetworks => 36,
        RemoteProcedure::RemoteProcConnectListDomains => 37,
        RemoteProcedure::RemoteProcConnectListNetworks => 38,
        RemoteProcedure::RemoteProcNetworkCreate => 39,
        RemoteProcedure::RemoteProcNetworkCreateXml => 40,
        RemoteProcedure::RemoteProcNetworkDefineXml => 41,
        RemoteProcedure::RemoteProcNetworkDestroy => 42,
        RemoteProcedure::RemoteProcNetworkGetXmlDesc => 43,
        RemoteProcedure::RemoteProcNetworkGetAutostart => 44,
        RemoteProcedure::RemoteProcNetworkGetBridgeName => 45,
        RemoteProcedure::RemoteProcNetworkLookupByName => 46,
        RemoteProcedure::RemoteProcNetworkLookupByUuid => 47,
        RemoteProcedure::RemoteProcNetworkSetAutostart => 48,
        RemoteProcedure::RemoteProcNetworkUndefine => 49,
        RemoteProcedure::RemoteProcConnectNumOfDefinedNetworks => 50,
        RemoteProcedure::RemoteProcConnectNumOfDomains => 51,
        RemoteProcedure::RemoteProcConnectNumOfNetworks => 52,
        RemoteProcedure::RemoteProcDomainCoreDump => 53,
        RemoteProcedure::RemoteProcDomainRestore => 54,
        RemoteProcedure::RemoteProcDomainSave => 55,
        RemoteProcedure::RemoteProcDomainGetSchedulerType => 56,
        RemoteProcedure::RemoteProcDomainGetSchedulerParameters => 57,
        RemoteProcedure::RemoteProcDomainSetSchedulerParameters => 58,
        RemoteProcedure::RemoteProcConnectGetHostname => 59,
        RemoteProcedure::RemoteProcConnectSupportsFeature => 60,
        RemoteProcedure::RemoteProcDomainMigratePrepare => 61,
        RemoteProcedure::RemoteProcDomainMigratePerform => 62,
        RemoteProcedure::RemoteProcDomainMigrateFinish => 63,
        RemoteProcedure::RemoteProcDomainBlockStats => 64,
        RemoteProcedure::RemoteProcDomainInterfaceStats => 65,
        RemoteProcedure::RemoteProcAuthList => 66,
        RemoteProcedure::RemoteProcAuthSaslInit => 67,
        RemoteProcedure::RemoteProcAuthSaslStart => 68,
        RemoteProcedure::RemoteProcAuthSaslStep => 69,
        RemoteProcedure::RemoteProcAuthPolkit => 70,
        RemoteProcedure::RemoteProcConnectNumOfStoragePools => 71,
        RemoteProcedure::RemoteProcConnectListStoragePools => 72,
        RemoteProcedure::RemoteProcConnectNumOfDefinedStoragePools => 73,
        RemoteProcedure::RemoteProcConnectListDefinedStoragePools => 74,
        RemoteProcedure::RemoteProcConnectFindStoragePoolSources => 75,
        RemoteProcedure::RemoteProcStoragePoolCreateXml => 76,
        RemoteProcedure::RemoteProcStoragePoolDefineXml => 77,
        RemoteProcedure::RemoteProcStoragePoolCreate => 78,
        RemoteProcedure::RemoteProcStoragePoolBuild => 79,
        RemoteProcedure::RemoteProcStoragePoolDestroy => 80,
        RemoteProcedure::RemoteProcStoragePoolDelete => 81,
        RemoteProcedure::RemoteProcStoragePoolUndefine => 82,
        RemoteProcedure::RemoteProcStoragePoolRefresh => 83,
        RemoteProcedure::RemoteProcStoragePoolLookupByName => 84,
        RemoteProcedure::RemoteProcStoragePoolLookupByUuid => 85,
        RemoteProcedure::RemoteProcStoragePoolLookupByVolume => 86,
        RemoteProcedure::RemoteProcStoragePoolGetInfo => 87,
        RemoteProcedure::RemoteProcStoragePoolGetXmlDesc => 88,
        RemoteProcedure::RemoteProcStoragePoolGetAutostart => 89,
        RemoteProcedure::RemoteProcStoragePoolSetAutostart => 90,
        RemoteProcedure::RemoteProcStoragePoolNumOfVolumes => 91,
        RemoteProcedure::RemoteProcStoragePoolListVolumes => 92,
        RemoteProcedure::RemoteProcStorageVolCreateXml => 93,
        RemoteProcedure::RemoteProcStorageVolDelete => 94,
        RemoteProcedure::RemoteProcStorageVolLookupByName => 95,
        RemoteProcedure::RemoteProcStorageVolLookupByKey => 96,
        RemoteProcedure::RemoteProcStorageVolLookupByPath => 97,
        RemoteProcedure::RemoteProcStorageVolGetInfo => 98,
        RemoteProcedure::RemoteProcStorageVolGetXmlDesc => 99,
        RemoteProcedure::RemoteProcStorageVolGetPath => 100,
        RemoteProcedure::RemoteProcNodeGetCellsFreeMemory => 101,
        RemoteProcedure::RemoteProcNodeGetFreeMemory => 102,
        RemoteProcedure::RemoteProcDomainBlockPeek => 103,
        RemoteProcedure::RemoteProcDomainMemoryPeek => 104,
        RemoteProcedure::RemoteProcConnectDomainEventRegister => 105,
        RemoteProcedure::RemoteProcConnectDomainEventDeregister => 106,
        RemoteProcedure::RemoteProcDomainEventLifecycle => 107,
        RemoteProcedure::RemoteProcDomainMigratePrepare2 => 108,
        RemoteProcedure::RemoteProcDomainMigrateFinish2 => 109,
        RemoteProcedure::RemoteProcConnectGetUri => 110,
        RemoteProcedure::RemoteProcNodeNumOfDevices => 111,
        RemoteProcedure::RemoteProcNodeListDevices => 112,
        RemoteProcedure::RemoteProcNodeDeviceLookupByName => 113,
        RemoteProcedure::RemoteProcNodeDeviceGetXmlDesc => 114,
        RemoteProcedure::RemoteProcNodeDeviceGetParent => 115,
        RemoteProcedure::RemoteProcNodeDeviceNumOfCaps => 116,
        RemoteProcedure::RemoteProcNodeDeviceListCaps => 117,
        RemoteProcedure::RemoteProcNodeDeviceDettach => 118,
        RemoteProcedure::RemoteProcNodeDeviceReAttach => 119,
        RemoteProcedure::RemoteProcNodeDeviceReset => 120,
        RemoteProcedure::RemoteProcDomainGetSecurityLabel => 121,
        RemoteProcedure::RemoteProcNodeGetSecurityModel => 122,
        RemoteProcedure::RemoteProcNodeDeviceCreateXml => 123,
        RemoteProcedure::RemoteProcNodeDeviceDestroy => 124,
        RemoteProcedure::RemoteProcStorageVolCreateXmlFrom => 125,
        RemoteProcedure::RemoteProcConnectNumOfInterfaces => 126,
        RemoteProcedure::RemoteProcConnectListInterfaces => 127,
        RemoteProcedure::RemoteProcInterfaceLookupByName => 128,
        RemoteProcedure::RemoteProcInterfaceLookupByMacString => 129,
        RemoteProcedure::RemoteProcInterfaceGetXmlDesc => 130,
        RemoteProcedure::RemoteProcInterfaceDefineXml => 131,
        RemoteProcedure::RemoteProcInterfaceUndefine => 132,
        RemoteProcedure::RemoteProcInterfaceCreate => 133,
        RemoteProcedure::RemoteProcInterfaceDestroy => 134,
        RemoteProcedure::RemoteProcConnectDomainXmlFromNative => 135,
        RemoteProcedure::RemoteProcConnectDomainXmlToNative => 136,
        RemoteProcedure::RemoteProcConnectNumOfDefinedInterfaces => 137,
        RemoteProcedure::RemoteProcConnectListDefinedInterfaces => 138,
        RemoteProcedure::RemoteProcConnectNumOfSecrets => 139,
        RemoteProcedure::RemoteProcConnectListSecrets => 140,
        RemoteProcedure::RemoteProcSecretLookupByUuid => 141,
        RemoteProcedure::RemoteProcSecretDefineXml => 142,
        RemoteProcedure::RemoteProcSecretGetXmlDesc => 143,
        RemoteProcedure::RemoteProcSecretSetValue => 144,
        RemoteProcedure::RemoteProcSecretGetValue => 145,
        RemoteProcedure::RemoteProcSecretUndefine => 146,
        RemoteProcedure::RemoteProcSecretLookupByUsage => 147,
        RemoteProcedure::RemoteProcDomainMigratePrepareTunnel => 148,
        RemoteProcedure::RemoteProcConnectIsSecure => 149,
        RemoteProcedure::RemoteProcDomainIsActive => 150,
        RemoteProcedure::RemoteProcDomainIsPersistent => 151,
        RemoteProcedure::RemoteProcNetworkIsActive => 152,
        RemoteProcedure::RemoteProcNetworkIsPersistent => 153,
        RemoteProcedure::RemoteProcStoragePoolIsActive => 154,
        RemoteProcedure::RemoteProcStoragePoolIsPersistent => 155,
        RemoteProcedure::RemoteProcInterfaceIsActive => 156,
        RemoteProcedure::RemoteProcConnectGetLibVersion => 157,
        RemoteProcedure::RemoteProcConnectCompareCpu => 158,
        RemoteProcedure::RemoteProcDomainMemoryStats => 159,
        RemoteProcedure::RemoteProcDomainAttachDeviceFlags => 160,
        RemoteProcedure::RemoteProcDomainDetachDeviceFlags => 161,
        RemoteProcedure::RemoteProcConnectBaselineCpu => 162,
        RemoteProcedure::RemoteProcDomainGetJobInfo => 163,
        RemoteProcedure::RemoteProcDomainAbortJob => 164,
        RemoteProcedure::RemoteProcStorageVolWipe => 165,
        RemoteProcedure::RemoteProcDomainMigrateSetMaxDowntime => 166,
        RemoteProcedure::RemoteProcConnectDomainEventRegisterAny => 167,
        RemoteProcedure::RemoteProcConnectDomainEventDeregisterAny => 168,
        RemoteProcedure::RemoteProcDomainEventReboot => 169,
        RemoteProcedure::RemoteProcDomainEventRtcChange => 170,
        RemoteProcedure::RemoteProcDomainEventWatchdog => 171,
        RemoteProcedure::RemoteProcDomainEventIoError => 172,
        RemoteProcedure::RemoteProcDomainEventGraphics => 173,
        RemoteProcedure::RemoteProcDomainUpdateDeviceFlags => 174,
        RemoteProcedure::RemoteProcNwfilterLookupByName => 175,
        RemoteProcedure::RemoteProcNwfilterLookupByUuid => 176,
        RemoteProcedure::RemoteProcNwfilterGetXmlDesc => 177,
        RemoteProcedure::RemoteProcConnectNumOfNwfilters => 178,
        RemoteProcedure::RemoteProcConnectListNwfilters => 179,
        RemoteProcedure::RemoteProcNwfilterDefineXml => 180,
        RemoteProcedure::RemoteProcNwfilterUndefine => 181,
        RemoteProcedure::RemoteProcDomainManagedSave => 182,
        RemoteProcedure::RemoteProcDomainHasManagedSaveImage => 183,
        RemoteProcedure::RemoteProcDomainManagedSaveRemove => 184,
        RemoteProcedure::RemoteProcDomainSnapshotCreateXml => 185,
        RemoteProcedure::RemoteProcDomainSnapshotGetXmlDesc => 186,
        RemoteProcedure::RemoteProcDomainSnapshotNum => 187,
        RemoteProcedure::RemoteProcDomainSnapshotListNames => 188,
        RemoteProcedure::RemoteProcDomainSnapshotLookupByName => 189,
        RemoteProcedure::RemoteProcDomainHasCurrentSnapshot => 190,
        RemoteProcedure::RemoteProcDomainSnapshotCurrent => 191,
        RemoteProcedure::RemoteProcDomainRevertToSnapshot => 192,
        RemoteProcedure::RemoteProcDomainSnapshotDelete => 193,
        RemoteProcedure::RemoteProcDomainGetBlockInfo => 194,
        RemoteProcedure::RemoteProcDomainEventIoErrorReason => 195,
        RemoteProcedure::RemoteProcDomainCreateWithFlags => 196,
        RemoteProcedure::RemoteProcDomainSetMemoryParameters => 197,
        RemoteProcedure::RemoteProcDomainGetMemoryParameters => 198,
        RemoteProcedure::RemoteProcDomainSetVcpusFlags => 199,
        RemoteProcedure::RemoteProcDomainGetVcpusFlags => 200,
        RemoteProcedure::RemoteProcDomainOpenConsole => 201,
        RemoteProcedure::RemoteProcDomainIsUpdated => 202,
        RemoteProcedure::RemoteProcConnectGetSysinfo => 203,
        RemoteProcedure::RemoteProcDomainSetMemoryFlags => 204,
        RemoteProcedure::RemoteProcDomainSetBlkioParameters => 205,
        RemoteProcedure::RemoteProcDomainGetBlkioParameters => 206,
        RemoteProcedure::RemoteProcDomainMigrateSetMaxSpeed => 207,
        RemoteProcedure::RemoteProcStorageVolUpload => 208,
        RemoteProcedure::RemoteProcStorageVolDownload => 209,
        RemoteProcedure::RemoteProcDomainInjectNmi => 210,
        RemoteProcedure::RemoteProcDomainScreenshot => 211,
        RemoteProcedure::RemoteProcDomainGetState => 212,
        RemoteProcedure::RemoteProcDomainMigrateBegin3 => 213,
        RemoteProcedure::RemoteProcDomainMigratePrepare3 => 214,
        RemoteProcedure::RemoteProcDomainMigratePrepareTunnel3 => 215,
        RemoteProcedure::RemoteProcDomainMigratePerform3 => 216,
        RemoteProcedure::RemoteProcDomainMigrateFinish3 => 217,
        RemoteProcedure::RemoteProcDomainMigrateConfirm3 => 218,
        RemoteProcedure::RemoteProcDomainSetSchedulerParametersFlags => 219,
        RemoteProcedure::RemoteProcInterfaceChangeBegin => 220,
        RemoteProcedure::RemoteProcInterfaceChangeCommit => 221,
        RemoteProcedure::RemoteProcInterfaceChangeRollback => 222,
        RemoteProcedure::RemoteProcDomainGetSchedulerParametersFlags => 223,
        RemoteProcedure::RemoteProcDomainEventControlError => 224,
        RemoteProcedure::RemoteProcDomainPinVcpuFlags => 225,
        RemoteProcedure::RemoteProcDomainSendKey => 226,
        RemoteProcedure::RemoteProcNodeGetCpuStats => 227,
        RemoteProcedure::RemoteProcNodeGetMemoryStats => 228,
        RemoteProcedure::RemoteProcDomainGetControlInfo => 229,
        RemoteProcedure::RemoteProcDomainGetVcpuPinInfo => 230,
        RemoteProcedure::RemoteProcDomainUndefineFlags => 231,
        RemoteProcedure::RemoteProcDomainSaveFlags => 232,
        RemoteProcedure::RemoteProcDomainRestoreFlags => 233,
        RemoteProcedure::RemoteProcDomainDestroyFlags => 234,
        RemoteProcedure::RemoteProcDomainSaveImageGetXmlDesc => 235,
        RemoteProcedure::RemoteProcDomainSaveImageDefineXml => 236,
        RemoteProcedure::RemoteProcDomainBlockJobAbort => 237,
        RemoteProcedure::RemoteProcDomainGetBlockJobInfo => 238,
        RemoteProcedure::RemoteProcDomainBlockJobSetSpeed => 239,
        RemoteProcedure::RemoteProcDomainBlockPull => 240,
        RemoteProcedure::RemoteProcDomainEventBlockJob => 241,
        RemoteProcedure::RemoteProcDomainMigrateGetMaxSpeed => 242,
        RemoteProcedure::RemoteProcDomainBlockStatsFlags => 243,
        RemoteProcedure::RemoteProcDomainSnapshotGetParent => 244,
        RemoteProcedure::RemoteProcDomainReset => 245,
        RemoteProcedure::RemoteProcDomainSnapshotNumChildren => 246,
        RemoteProcedure::RemoteProcDomainSnapshotListChildrenNames => 247,
        RemoteProcedure::RemoteProcDomainEventDiskChange => 248,
        RemoteProcedure::RemoteProcDomainOpenGraphics => 249,
        RemoteProcedure::RemoteProcNodeSuspendForDuration => 250,
        RemoteProcedure::RemoteProcDomainBlockResize => 251,
        RemoteProcedure::RemoteProcDomainSetBlockIoTune => 252,
        RemoteProcedure::RemoteProcDomainGetBlockIoTune => 253,
        RemoteProcedure::RemoteProcDomainSetNumaParameters => 254,
        RemoteProcedure::RemoteProcDomainGetNumaParameters => 255,
        RemoteProcedure::RemoteProcDomainSetInterfaceParameters => 256,
        RemoteProcedure::RemoteProcDomainGetInterfaceParameters => 257,
        RemoteProcedure::RemoteProcDomainShutdownFlags => 258,
        RemoteProcedure::RemoteProcStorageVolWipePattern => 259,
        RemoteProcedure::RemoteProcStorageVolResize => 260,
        RemoteProcedure::RemoteProcDomainPmSuspendForDuration => 261,
        RemoteProcedure::RemoteProcDomainGetCpuStats => 262,
        RemoteProcedure::RemoteProcDomainGetDiskErrors => 263,
        RemoteProcedure::RemoteProcDomainSetMetadata => 264,
        RemoteProcedure::RemoteProcDomainGetMetadata => 265,
        RemoteProcedure::RemoteProcDomainBlockRebase => 266,
        RemoteProcedure::RemoteProcDomainPmWakeup => 267,
        RemoteProcedure::RemoteProcDomainEventTrayChange => 268,
        RemoteProcedure::RemoteProcDomainEventPmwakeup => 269,
        RemoteProcedure::RemoteProcDomainEventPmsuspend => 270,
        RemoteProcedure::RemoteProcDomainSnapshotIsCurrent => 271,
        RemoteProcedure::RemoteProcDomainSnapshotHasMetadata => 272,
        RemoteProcedure::RemoteProcConnectListAllDomains => 273,
        RemoteProcedure::RemoteProcDomainListAllSnapshots => 274,
        RemoteProcedure::RemoteProcDomainSnapshotListAllChildren => 275,
        RemoteProcedure::RemoteProcDomainEventBalloonChange => 276,
        RemoteProcedure::RemoteProcDomainGetHostname => 277,
        RemoteProcedure::RemoteProcDomainGetSecurityLabelList => 278,
        RemoteProcedure::RemoteProcDomainPinEmulator => 279,
        RemoteProcedure::RemoteProcDomainGetEmulatorPinInfo => 280,
        RemoteProcedure::RemoteProcConnectListAllStoragePools => 281,
        RemoteProcedure::RemoteProcStoragePoolListAllVolumes => 282,
        RemoteProcedure::RemoteProcConnectListAllNetworks => 283,
        RemoteProcedure::RemoteProcConnectListAllInterfaces => 284,
        RemoteProcedure::RemoteProcConnectListAllNodeDevices => 285,
        RemoteProcedure::RemoteProcConnectListAllNwfilters => 286,
        RemoteProcedure::RemoteProcConnectListAllSecrets => 287,
        RemoteProcedure::RemoteProcNodeSetMemoryParameters => 288,
        RemoteProcedure::RemoteProcNodeGetMemoryParameters => 289,
        RemoteProcedure::RemoteProcDomainBlockCommit => 290,
        RemoteProcedure::RemoteProcNetworkUpdate => 291,
        RemoteProcedure::RemoteProcDomainEventPmsuspendDisk => 292,
        RemoteProcedure::RemoteProcNodeGetCpuMap => 293,
        RemoteProcedure::RemoteProcDomainFstrim => 294,
        RemoteProcedure::RemoteProcDomainSendProcessSignal => 295,
        RemoteProcedure::RemoteProcDomainOpenChannel => 296,
        RemoteProcedure::RemoteProcNodeDeviceLookupScsiHostByWwn => 297,
        RemoteProcedure::RemoteProcDomainGetJobStats => 298,
        RemoteProcedure::RemoteProcDomainMigrateGetCompressionCache => 299,
        RemoteProcedure::RemoteProcDomainMigrateSetCompressionCache => 300,
        RemoteProcedure::RemoteProcNodeDeviceDetachFlags => 301,
        RemoteProcedure::RemoteProcDomainMigrateBegin3Params => 302,
        RemoteProcedure::RemoteProcDomainMigratePrepare3Params => 303,
        RemoteProcedure::RemoteProcDomainMigratePrepareTunnel3Params => 304,
        RemoteProcedure::RemoteProcDomainMigratePerform3Params => 305,
        RemoteProcedure::RemoteProcDomainMigrateFinish3Params => 306,
        RemoteProcedure::RemoteProcDomainMigrateConfirm3Params => 307,
        RemoteProcedure::RemoteProcDomainSetMemoryStatsPeriod => 308,
        RemoteProcedure::RemoteProcDomainCreateXmlWithFiles => 309,
        RemoteProcedure::RemoteProcDomainCreateWithFiles => 310,
        RemoteProcedure::RemoteProcDomainEventDeviceRemoved => 311,
        RemoteProcedure::RemoteProcConnectGetCpuModelNames => 312,
        RemoteProcedure::RemoteProcConnectNetworkEventRegisterAny => 313,
        RemoteProcedure::RemoteProcConnectNetworkEventDeregisterAny => 314,
        RemoteProcedure::RemoteProcNetworkEventLifecycle => 315,
        RemoteProcedure::RemoteProcConnectDomainEventCallbackRegisterAny => 316,
        RemoteProcedure::RemoteProcConnectDomainEventCallbackDeregisterAny => 317,
        RemoteProcedure::RemoteProcDomainEventCallbackLifecycle => 318,
        RemoteProcedure::RemoteProcDomainEventCallbackReboot => 319,
        RemoteProcedure::RemoteProcDomainEventCallbackRtcChange => 320,
        RemoteProcedure::RemoteProcDomainEventCallbackWatchdog => 321,
        RemoteProcedure::RemoteProcDomainEventCallbackIoError => 322,
        RemoteProcedure::RemoteProcDomainEventCallbackGraphics => 323,
        RemoteProcedure::RemoteProcDomainEventCallbackIoErrorReason => 324,
        RemoteProcedure::RemoteProcDomainEventCallbackControlError => 325,
        RemoteProcedure::RemoteProcDomainEventCallbackBlockJob => 326,
        RemoteProcedure::RemoteProcDomainEventCallbackDiskChange => 327,
        RemoteProcedure::RemoteProcDomainEventCallbackTrayChange => 328,
        RemoteProcedure::RemoteProcDomainEventCallbackPmwakeup => 329,
        RemoteProcedure::RemoteProcDomainEventCallbackPmsuspend => 330,
        RemoteProcedure::RemoteProcDomainEventCallbackBalloonChange => 331,
        RemoteProcedure::RemoteProcDomainEventCallbackPmsuspendDisk => 332,
        RemoteProcedure::RemoteProcDomainEventCallbackDeviceRemoved => 333,
        RemoteProcedure::RemoteProcDomainCoreDumpWithFormat => 334,
        RemoteProcedure::RemoteProcDomainFsfreeze => 335,
        RemoteProcedure::RemoteProcDomainFsthaw => 336,
        RemoteProcedure::RemoteProcDomainGetTime => 337,
        RemoteProcedure::RemoteProcDomainSetTime => 338,
        RemoteProcedure::RemoteProcDomainEventBlockJob2 => 339,
        RemoteProcedure::RemoteProcNodeGetFreePages => 340,
        RemoteProcedure::RemoteProcNetworkGetDhcpLeases => 341,
        RemoteProcedure::RemoteProcConnectGetDomainCapabilities => 342,
        RemoteProcedure::RemoteProcDomainOpenGraphicsFd => 343,
        RemoteProcedure::RemoteProcConnectGetAllDomainStats => 344,
        RemoteProcedure::RemoteProcDomainBlockCopy => 345,
        RemoteProcedure::RemoteProcDomainEventCallbackTunable => 346,
        RemoteProcedure::RemoteProcNodeAllocPages => 347,
        RemoteProcedure::RemoteProcDomainEventCallbackAgentLifecycle => 348,
        RemoteProcedure::RemoteProcDomainGetFsinfo => 349,
        RemoteProcedure::RemoteProcDomainDefineXmlFlags => 350,
        RemoteProcedure::RemoteProcDomainGetIothreadInfo => 351,
        RemoteProcedure::RemoteProcDomainPinIothread => 352,
        RemoteProcedure::RemoteProcDomainInterfaceAddresses => 353,
        RemoteProcedure::RemoteProcDomainEventCallbackDeviceAdded => 354,
        RemoteProcedure::RemoteProcDomainAddIothread => 355,
        RemoteProcedure::RemoteProcDomainDelIothread => 356,
        RemoteProcedure::RemoteProcDomainSetUserPassword => 357,
        RemoteProcedure::RemoteProcDomainRename => 358,
        RemoteProcedure::RemoteProcDomainEventCallbackMigrationIteration => 359,
        RemoteProcedure::RemoteProcConnectRegisterCloseCallback => 360,
        RemoteProcedure::RemoteProcConnectUnregisterCloseCallback => 361,
        RemoteProcedure::RemoteProcConnectEventConnectionClosed => 362,
        RemoteProcedure::RemoteProcDomainEventCallbackJobCompleted => 363,
        RemoteProcedure::RemoteProcDomainMigrateStartPostCopy => 364,
        RemoteProcedure::RemoteProcDomainGetPerfEvents => 365,
        RemoteProcedure::RemoteProcDomainSetPerfEvents => 366,
        RemoteProcedure::RemoteProcDomainEventCallbackDeviceRemovalFailed => 367,
        RemoteProcedure::RemoteProcConnectStoragePoolEventRegisterAny => 368,
        RemoteProcedure::RemoteProcConnectStoragePoolEventDeregisterAny => 369,
        RemoteProcedure::RemoteProcStoragePoolEventLifecycle => 370,
        RemoteProcedure::RemoteProcDomainGetGuestVcpus => 371,
        RemoteProcedure::RemoteProcDomainSetGuestVcpus => 372,
        RemoteProcedure::RemoteProcStoragePoolEventRefresh => 373,
        RemoteProcedure::RemoteProcConnectNodeDeviceEventRegisterAny => 374,
        RemoteProcedure::RemoteProcConnectNodeDeviceEventDeregisterAny => 375,
        RemoteProcedure::RemoteProcNodeDeviceEventLifecycle => 376,
        RemoteProcedure::RemoteProcNodeDeviceEventUpdate => 377,
        RemoteProcedure::RemoteProcStorageVolGetInfoFlags => 378,
        RemoteProcedure::RemoteProcDomainEventCallbackMetadataChange => 379,
        RemoteProcedure::RemoteProcConnectSecretEventRegisterAny => 380,
        RemoteProcedure::RemoteProcConnectSecretEventDeregisterAny => 381,
        RemoteProcedure::RemoteProcSecretEventLifecycle => 382,
        RemoteProcedure::RemoteProcSecretEventValueChanged => 383,
        RemoteProcedure::RemoteProcDomainSetVcpu => 384,
        RemoteProcedure::RemoteProcDomainEventBlockThreshold => 385,
        RemoteProcedure::RemoteProcDomainSetBlockThreshold => 386,
        RemoteProcedure::RemoteProcDomainMigrateGetMaxDowntime => 387,
        RemoteProcedure::RemoteProcDomainManagedSaveGetXmlDesc => 388,
        RemoteProcedure::RemoteProcDomainManagedSaveDefineXml => 389,
        RemoteProcedure::RemoteProcDomainSetLifecycleAction => 390,
        RemoteProcedure::RemoteProcStoragePoolLookupByTargetPath => 391,
        RemoteProcedure::RemoteProcDomainDetachDeviceAlias => 392,
        RemoteProcedure::RemoteProcConnectCompareHypervisorCpu => 393,
        RemoteProcedure::RemoteProcConnectBaselineHypervisorCpu => 394,
        RemoteProcedure::RemoteProcNodeGetSevInfo => 395,
        RemoteProcedure::RemoteProcDomainGetLaunchSecurityInfo => 396,
        RemoteProcedure::RemoteProcNwfilterBindingLookupByPortDev => 397,
        RemoteProcedure::RemoteProcNwfilterBindingGetXmlDesc => 398,
        RemoteProcedure::RemoteProcNwfilterBindingCreateXml => 399,
        RemoteProcedure::RemoteProcNwfilterBindingDelete => 400,
        RemoteProcedure::RemoteProcConnectListAllNwfilterBindings => 401,
        RemoteProcedure::RemoteProcDomainSetIothreadParams => 402,
        RemoteProcedure::RemoteProcConnectGetStoragePoolCapabilities => 403,
        RemoteProcedure::RemoteProcNetworkListAllPorts => 404,
        RemoteProcedure::RemoteProcNetworkPortLookupByUuid => 405,
        RemoteProcedure::RemoteProcNetworkPortCreateXml => 406,
        RemoteProcedure::RemoteProcNetworkPortGetParameters => 407,
        RemoteProcedure::RemoteProcNetworkPortSetParameters => 408,
        RemoteProcedure::RemoteProcNetworkPortGetXmlDesc => 409,
        RemoteProcedure::RemoteProcNetworkPortDelete => 410,
        RemoteProcedure::RemoteProcDomainCheckpointCreateXml => 411,
        RemoteProcedure::RemoteProcDomainCheckpointGetXmlDesc => 412,
        RemoteProcedure::RemoteProcDomainListAllCheckpoints => 413,
        RemoteProcedure::RemoteProcDomainCheckpointListAllChildren => 414,
        RemoteProcedure::RemoteProcDomainCheckpointLookupByName => 415,
        RemoteProcedure::RemoteProcDomainCheckpointGetParent => 416,
        RemoteProcedure::RemoteProcDomainCheckpointDelete => 417,
        RemoteProcedure::RemoteProcDomainGetGuestInfo => 418,
        RemoteProcedure::RemoteProcConnectSetIdentity => 419,
        RemoteProcedure::RemoteProcDomainAgentSetResponseTimeout => 420,
        RemoteProcedure::RemoteProcDomainBackupBegin => 421,
        RemoteProcedure::RemoteProcDomainBackupGetXmlDesc => 422,
        RemoteProcedure::RemoteProcDomainEventMemoryFailure => 423,
        RemoteProcedure::RemoteProcDomainAuthorizedSshKeysGet => 424,
        RemoteProcedure::RemoteProcDomainAuthorizedSshKeysSet => 425,
        RemoteProcedure::RemoteProcDomainGetMessages => 426,
        RemoteProcedure::RemoteProcDomainStartDirtyRateCalc => 427,
        RemoteProcedure::RemoteProcNodeDeviceDefineXml => 428,
        RemoteProcedure::RemoteProcNodeDeviceUndefine => 429,
        RemoteProcedure::RemoteProcNodeDeviceCreate => 430,
        RemoteProcedure::RemoteProcNwfilterDefineXmlFlags => 431,
        RemoteProcedure::RemoteProcNetworkDefineXmlFlags => 432,
        RemoteProcedure::RemoteProcNodeDeviceGetAutostart => 433,
        RemoteProcedure::RemoteProcNodeDeviceSetAutostart => 434,
        RemoteProcedure::RemoteProcNodeDeviceIsPersistent => 435,
        RemoteProcedure::RemoteProcNodeDeviceIsActive => 436,
        RemoteProcedure::RemoteProcNetworkCreateXmlFlags => 437,
        RemoteProcedure::RemoteProcDomainEventMemoryDeviceSizeChange => 438,
        RemoteProcedure::RemoteProcDomainSetLaunchSecurityState => 439,
    }
}

/// The procedure called by number `n`, if any.
pub open spec fn procedure_of_number(n: i32) -> Option<RemoteProcedure> {
    match n {
        0 => Some(RemoteProcedure::_Reserved0),
        1 => Some(RemoteProcedure::RemoteProcConnectOpen),
        2 => Some(RemoteProcedure::RemoteProcConnectClose),
        3 => Some(RemoteProcedure::RemoteProcConnectGetType),
        4 => Some(RemoteProcedure::RemoteProcConnectGetVersion),
        5 => Some(RemoteProcedure::RemoteProcConnectGetMaxVcpus),
        6 => Some(RemoteProcedure::RemoteProcNodeGetInfo),
        7 => Some(RemoteProcedure::RemoteProcConnectGetCapabilities),
        8 => Some(RemoteProcedure::RemoteProcDomainAttachDevice),
        9 => Some(RemoteProcedure::RemoteProcDomainCreate),
        10 => Some(RemoteProcedure::RemoteProcDomainCreateXml),
        11 => Some(RemoteProcedure::RemoteProcDomainDefineXml),
        12 => Some(RemoteProcedure::RemoteProcDomainDestroy),
        13 => Some(RemoteProcedure::RemoteProcDomainDetachDevice),
        14 => Some(RemoteProcedure::RemoteProcDomainGetXmlDesc),
        15 => Some(RemoteProcedure::RemoteProcDomainGetAutostart),
        16 => Some(RemoteProcedure::RemoteProcDomainGetInfo),
        17 => Some(RemoteProcedure::RemoteProcDomainGetMaxMemory),
        18 => Some(RemoteProcedure::RemoteProcDomainGetMaxVcpus),
        19 => Some(RemoteProcedure::RemoteProcDomainGetOsType),
        20 => Some(RemoteProcedure::RemoteProcDomainGetVcpus),
        21 => Some(RemoteProcedure::RemoteProcConnectListDefinedDomains),
        22 => Some(RemoteProcedure::RemoteProcDomainLookupById),
        23 => Some(RemoteProcedure::RemoteProcDomainLookupByName),
        24 => Some(RemoteProcedure::RemoteProcDomainLookupByUuid),
        25 => Some(RemoteProcedure::RemoteProcConnectNumOfDefinedDomains),
        26 => Some(RemoteProcedure::RemoteProcDomainPinVcpu),
        27 => Some(RemoteProcedure::RemoteProcDomainReboot),
        28 => Some(RemoteProcedure::RemoteProcDomainResume),
        29 => Some(RemoteProcedure::RemoteProcDomainSetAutostart),
        30 => Some(RemoteProcedure::RemoteProcDomainSetMaxMemory),
        31 => Some(RemoteProcedure::RemoteProcDomainSetMemory),
        32 => Some(RemoteProcedure::RemoteProcDomainSetVcpus),
        33 => Some(RemoteProcedure::RemoteProcDomainShutdown),
        34 => Some(RemoteProcedure::RemoteProcDomainSuspend),
        35 => Some(RemoteProcedure::RemoteProcDomainUndefine),
        36 => Some(RemoteProcedure::RemoteProcConnectListDefinedNetworks),
        37 => Some(RemoteProcedure::RemoteProcConnectListDomains),
        38 => Some(RemoteProcedure::RemoteProcConnectListNetworks),
        39 => Some(RemoteProcedure::RemoteProcNetworkCreate),
        40 => Some(RemoteProcedure::RemoteProcNetworkCreateXml),
        41 => Some(RemoteProcedure::RemoteProcNetworkDefineXml),
        42 => Some(RemoteProcedure::RemoteProcNetworkDestroy),
        43 => Some(RemoteProcedure::RemoteProcNetworkGetXmlDesc),
        44 => Some(RemoteProcedure::RemoteProcNetworkGetAutostart),
        45 => Some(RemoteProcedure::RemoteProcNetworkGetBridgeName),
        46 => Some(RemoteProcedure::RemoteProcNetworkLookupByName),
        47 => Some(RemoteProcedure::RemoteProcNetworkLookupByUuid),
        48 => Some(RemoteProcedure::RemoteProcNetworkSetAutostart),
        49 => Some(RemoteProcedure::RemoteProcNetworkUndefine),
        50 => Some(RemoteProcedure::RemoteProcConnectNumOfDefinedNetworks),
        51 => Some(RemoteProcedure::RemoteProcConnectNumOfDomains),
        52 => Some(RemoteProcedure::RemoteProcConnectNumOfNetworks),
        53 => Some(RemoteProcedure::RemoteProcDomainCoreDump),
        54 => Some(RemoteProcedure::RemoteProcDomainRestore),
        55 => Some(RemoteProcedure::RemoteProcDomainSave),
        56 => Some(RemoteProcedure::RemoteProcDomainGetSchedulerType),
        57 => Some(RemoteProcedure::RemoteProcDomainGetSchedulerParameters),
        58 => Some(RemoteProcedure::RemoteProcDomainSetSchedulerParameters),
        59 => Some(RemoteProcedure::RemoteProcConnectGetHostname),
        60 => Some(RemoteProcedure::RemoteProcConnectSupportsFeature),
        61 => Some(RemoteProcedure::RemoteProcDomainMigratePrepare),
        62 => Some(RemoteProcedure::RemoteProcDomainMigratePerform),
        63 => Some(RemoteProcedure::RemoteProcDomainMigrateFinish),
        64 => Some(RemoteProcedure::RemoteProcDomainBlockStats),
        65 => Some(RemoteProcedure::RemoteProcDomainInterfaceStats),
        66 => Some(RemoteProcedure::RemoteProcAuthList),
        67 => Some(RemoteProcedure::RemoteProcAuthSaslInit),
        68 => Some(RemoteProcedure::RemoteProcAuthSaslStart),
        69 => Some(RemoteProcedure::RemoteProcAuthSaslStep),
        70 => Some(RemoteProcedure::RemoteProcAuthPolkit),
        71 => Some(RemoteProcedure::RemoteProcConnectNumOfStoragePools),
        72 => Some(RemoteProcedure::RemoteProcConnectListStoragePools),
        73 => Some(RemoteProcedure::RemoteProcConnectNumOfDefinedStoragePools),
        74 => Some(RemoteProcedure::RemoteProcConnectListDefinedStoragePools),
        75 => Some(RemoteProcedure::RemoteProcConnectFindStoragePoolSources),
        76 => Some(RemoteProcedure::RemoteProcStoragePoolCreateXml),
        77 => Some(RemoteProcedure::RemoteProcStoragePoolDefineXml),
        78 => Some(RemoteProcedure::RemoteProcStoragePoolCreate),
        79 => Some(RemoteProcedure::RemoteProcStoragePoolBuild),
        80 => Some(RemoteProcedure::RemoteProcStoragePoolDestroy),
        81 => Some(RemoteProcedure::RemoteProcStoragePoolDelete),
        82 => Some(RemoteProcedure::RemoteProcStoragePoolUndefine),
        83 => Some(RemoteProcedure::RemoteProcStoragePoolRefresh),
        84 => Some(RemoteProcedure::RemoteProcStoragePoolLookupByName),
        85 => Some(RemoteProcedure::RemoteProcStoragePoolLookupByUuid),
        86 => Some(RemoteProcedure::RemoteProcStoragePoolLookupByVolume),
        87 => Some(RemoteProcedure::RemoteProcStoragePoolGetInfo),
        88 => Some(RemoteProcedure::RemoteProcStoragePoolGetXmlDesc),
        89 => Some(RemoteProcedure::RemoteProcStoragePoolGetAutostart),
        90 => Some(RemoteProcedure::RemoteProcStoragePoolSetAutostart),
        91 => Some(RemoteProcedure::RemoteProcStoragePoolNumOfVolumes),
        92 => Some(RemoteProcedure::RemoteProcStoragePoolListVolumes),
        93 => Some(RemoteProcedure::RemoteProcStorageVolCreateXml),
        94 => Some(RemoteProcedure::RemoteProcStorageVolDelete),
        95 => Some(RemoteProcedure::RemoteProcStorageVolLookupByName),
        96 => Some(RemoteProcedure::RemoteProcStorageVolLookupByKey),
        97 => Some(RemoteProcedure::RemoteProcStorageVolLookupByPath),
        98 => Some(RemoteProcedure::RemoteProcStorageVolGetInfo),
        99 => Some(RemoteProcedure::RemoteProcStorageVolGetXmlDesc),
        100 => Some(RemoteProcedure::RemoteProcStorageVolGetPath),
        101 => Some(RemoteProcedure::RemoteProcNodeGetCellsFreeMemory),
        102 => Some(RemoteProcedure::RemoteProcNodeGetFreeMemory),
        103 => Some(RemoteProcedure::RemoteProcDomainBlockPeek),
        104 => Some(RemoteProcedure::RemoteProcDomainMemoryPeek),
        105 => Some(RemoteProcedure::RemoteProcConnectDomainEventRegister),
        106 => Some(RemoteProcedure::RemoteProcConnectDomainEventDeregister),
        107 => Some(RemoteProcedure::RemoteProcDomainEventLifecycle),
        108 => Some(RemoteProcedure::RemoteProcDomainMigratePrepare2),
        109 => Some(RemoteProcedure::RemoteProcDomainMigrateFinish2),
        110 => Some(RemoteProcedure::RemoteProcConnectGetUri),
        111 => Some(RemoteProcedure::RemoteProcNodeNumOfDevices),
        112 => Some(RemoteProcedure::RemoteProcNodeListDevices),
        113 => Some(RemoteProcedure::RemoteProcNodeDeviceLookupByName),
        114 => Some(RemoteProcedure::RemoteProcNodeDeviceGetXmlDesc),
        115 => Some(RemoteProcedure::RemoteProcNodeDeviceGetParent),
        116 => Some(RemoteProcedure::RemoteProcNodeDeviceNumOfCaps),
        117 => Some(RemoteProcedure::RemoteProcNodeDeviceListCaps),
        118 => Some(RemoteProcedure::RemoteProcNodeDeviceDettach),
        119 => Some(RemoteProcedure::RemoteProcNodeDeviceReAttach),
        120 => Some(RemoteProcedure::RemoteProcNodeDeviceReset),
        121 => Some(RemoteProcedure::RemoteProcDomainGetSecurityLabel),
        122 => Some(RemoteProcedure::RemoteProcNodeGetSecurityModel),
        123 => Some(RemoteProcedure::RemoteProcNodeDeviceCreateXml),
        124 => Some(RemoteProcedure::RemoteProcNodeDeviceDestroy),
        125 => Some(RemoteProcedure::RemoteProcStorageVolCreateXmlFrom),
        126 => Some(RemoteProcedure::RemoteProcConnectNumOfInterfaces),
        127 => Some(RemoteProcedure::RemoteProcConnectListInterfaces),
        128 => Some(RemoteProcedure::RemoteProcInterfaceLookupByName),
        129 => Some(RemoteProcedure::RemoteProcInterfaceLookupByMacString),
        130 => Some(RemoteProcedure::RemoteProcInterfaceGetXmlDesc),
        131 => Some(RemoteProcedure::RemoteProcInterfaceDefineXml),
        132 => Some(RemoteProcedure::RemoteProcInterfaceUndefine),
        133 => Some(RemoteProcedure::RemoteProcInterfaceCreate),
        134 => Some(RemoteProcedure::RemoteProcInterfaceDestroy),
        135 => Some(RemoteProcedure::RemoteProcConnectDomainXmlFromNative),
        136 => Some(RemoteProcedure::RemoteProcConnectDomainXmlToNative),
        137 => Some(RemoteProcedure::RemoteProcConnectNumOfDefinedInterfaces),
        138 => Some(RemoteProcedure::RemoteProcConnectListDefinedInterfaces),
        139 => Some(RemoteProcedure::RemoteProcConnectNumOfSecrets),
        140 => Some(RemoteProcedure::RemoteProcConnectListSecrets),
        141 => Some(RemoteProcedure::RemoteProcSecretLookupByUuid),
        142 => Some(RemoteProcedure::RemoteProcSecretDefineXml),
        143 => Some(RemoteProcedure::RemoteProcSecretGetXmlDesc),
        144 => Some(RemoteProcedure::RemoteProcSecretSetValue),
        145 => Some(RemoteProcedure::RemoteProcSecretGetValue),
        146 => Some(RemoteProcedure::RemoteProcSecretUndefine),
        147 => Some(RemoteProcedure::RemoteProcSecretLookupByUsage),
        148 => Some(RemoteProcedure::RemoteProcDomainMigratePrepareTunnel),
        149 => Some(RemoteProcedure::RemoteProcConnectIsSecure),
        150 => Some(RemoteProcedure::RemoteProcDomainIsActive),
        151 => Some(RemoteProcedure::RemoteProcDomainIsPersistent),
        152 => Some(RemoteProcedure::RemoteProcNetworkIsActive),
        153 => Some(RemoteProcedure::RemoteProcNetworkIsPersistent),
        154 => Some(RemoteProcedure::RemoteProcStoragePoolIsActive),
        155 => Some(RemoteProcedure::RemoteProcStoragePoolIsPersistent),
        156 => Some(RemoteProcedure::RemoteProcInterfaceIsActive),
        157 => Some(RemoteProcedure::RemoteProcConnectGetLibVersion),
        158 => Some(RemoteProcedure::RemoteProcConnectCompareCpu),
        159 => Some(RemoteProcedure::RemoteProcDomainMemoryStats),
        160 => Some(RemoteProcedure::RemoteProcDomainAttachDeviceFlags),
        161 => Some(RemoteProcedure::RemoteProcDomainDetachDeviceFlags),
        162 => Some(RemoteProcedure::RemoteProcConnectBaselineCpu),
        163 => Some(RemoteProcedure::RemoteProcDomainGetJobInfo),
        164 => Some(RemoteProcedure::RemoteProcDomainAbortJob),
        165 => Some(RemoteProcedure::RemoteProcStorageVolWipe),
        166 => Some(RemoteProcedure::RemoteProcDomainMigrateSetMaxDowntime),
        167 => Some(RemoteProcedure::RemoteProcConnectDomainEventRegisterAny),
        168 => Some(RemoteProcedure::RemoteProcConnectDomainEventDeregisterAny),
        169 => Some(RemoteProcedure::RemoteProcDomainEventReboot),
        170 => Some(RemoteProcedure::RemoteProcDomainEventRtcChange),
        171 => Some(RemoteProcedure::RemoteProcDomainEventWatchdog),
        172 => Some(RemoteProcedure::RemoteProcDomainEventIoError),
        173 => Some(RemoteProcedure::RemoteProcDomainEventGraphics),
        174 => Some(RemoteProcedure::RemoteProcDomainUpdateDeviceFlags),
        175 => Some(RemoteProcedure::RemoteProcNwfilterLookupByName),
        176 => Some(RemoteProcedure::RemoteProcNwfilterLookupByUuid),
        177 => Some(RemoteProcedure::RemoteProcNwfilterGetXmlDesc),
        178 => Some(RemoteProcedure::RemoteProcConnectNumOfNwfilters),
        179 => Some(RemoteProcedure::RemoteProcConnectListNwfilters),
        180 => Some(RemoteProcedure::RemoteProcNwfilterDefineXml),
        181 => Some(RemoteProcedure::RemoteProcNwfilterUndefine),
        182 => Some(RemoteProcedure::RemoteProcDomainManagedSave),
        183 => Some(RemoteProcedure::RemoteProcDomainHasManagedSaveImage),
        184 => Some(RemoteProcedure::RemoteProcDomainManagedSaveRemove),
        185 => Some(RemoteProcedure::RemoteProcDomainSnapshotCreateXml),
        186 => Some(RemoteProcedure::RemoteProcDomainSnapshotGetXmlDesc),
        187 => Some(RemoteProcedure::RemoteProcDomainSnapshotNum),
        188 => Some(RemoteProcedure::RemoteProcDomainSnapshotListNames),
        189 => Some(RemoteProcedure::RemoteProcDomainSnapshotLookupByName),
        190 => Some(RemoteProcedure::RemoteProcDomainHasCurrentSnapshot),
        191 => Some(RemoteProcedure::RemoteProcDomainSnapshotCurrent),
        192 => Some(RemoteProcedure::RemoteProcDomainRevertToSnapshot),
        193 => Some(RemoteProcedure::RemoteProcDomainSnapshotDelete),
        194 => Some(RemoteProcedure::RemoteProcDomainGetBlockInfo),
        195 => Some(RemoteProcedure::RemoteProcDomainEventIoErrorReason),
        196 => Some(RemoteProcedure::RemoteProcDomainCreateWithFlags),
        197 => Some(RemoteProcedure::RemoteProcDomainSetMemoryParameters),
        198 => Some(RemoteProcedure::RemoteProcDomainGetMemoryParameters),
        199 => Some(RemoteProcedure::RemoteProcDomainSetVcpusFlags),
        200 => Some(RemoteProcedure::RemoteProcDomainGetVcpusFlags),
        201 => Some(RemoteProcedure::RemoteProcDomainOpenConsole),
        202 => Some(RemoteProcedure::RemoteProcDomainIsUpdated),
        203 => Some(RemoteProcedure::RemoteProcConnectGetSysinfo),
        204 => Some(RemoteProcedure::RemoteProcDomainSetMemoryFlags),
        205 => Some(RemoteProcedure::RemoteProcDomainSetBlkioParameters),
        206 => Some(RemoteProcedure::RemoteProcDomainGetBlkioParameters),
        207 => Some(RemoteProcedure::RemoteProcDomainMigrateSetMaxSpeed),
        208 => Some(RemoteProcedure::RemoteProcStorageVolUpload),
        209 => Some(RemoteProcedure::RemoteProcStorageVolDownload),
        210 => Some(RemoteProcedure::RemoteProcDomainInjectNmi),
        211 => Some(RemoteProcedure::RemoteProcDomainScreenshot),
        212 => Some(RemoteProcedure::RemoteProcDomainGetState),
        213 => Some(RemoteProcedure::RemoteProcDomainMigrateBegin3),
        214 => Some(RemoteProcedure::RemoteProcDomainMigratePrepare3),
        215 => Some(RemoteProcedure::RemoteProcDomainMigratePrepareTunnel3),
        216 => Some(RemoteProcedure::RemoteProcDomainMigratePerform3),
        217 => Some(RemoteProcedure::RemoteProcDomainMigrateFinish3),
        218 => Some(RemoteProcedure::RemoteProcDomainMigrateConfirm3),
        219 => Some(RemoteProcedure::RemoteProcDomainSetSchedulerParametersFlags),
        220 => Some(RemoteProcedure::RemoteProcInterfaceChangeBegin),
        221 => Some(RemoteProcedure::RemoteProcInterfaceChangeCommit),
        222 => Some(RemoteProcedure::RemoteProcInterfaceChangeRollback),
        223 => Some(RemoteProcedure::RemoteProcDomainGetSchedulerParametersFlags),
        224 => Some(RemoteProcedure::RemoteProcDomainEventControlError),
        225 => Some(RemoteProcedure::RemoteProcDomainPinVcpuFlags),
        226 => Some(RemoteProcedure::RemoteProcDomainSendKey),
        227 => Some(RemoteProcedure::RemoteProcNodeGetCpuStats),
        228 => Some(RemoteProcedure::RemoteProcNodeGetMemoryStats),
        229 => Some(RemoteProcedure::RemoteProcDomainGetControlInfo),
        230 => Some(RemoteProcedure::RemoteProcDomainGetVcpuPinInfo),
        231 => Some(RemoteProcedure::RemoteProcDomainUndefineFlags),
        232 => Some(RemoteProcedure::RemoteProcDomainSaveFlags),
        233 => Some(RemoteProcedure::RemoteProcDomainRestoreFlags),
        234 => Some(RemoteProcedure::RemoteProcDomainDestroyFlags),
        235 => Some(RemoteProcedure::RemoteProcDomainSaveImageGetXmlDesc),
        236 => Some(RemoteProcedure::RemoteProcDomainSaveImageDefineXml),
        237 => Some(RemoteProcedure::RemoteProcDomainBlockJobAbort),
        238 => Some(RemoteProcedure::RemoteProcDomainGetBlockJobInfo),
        239 => Some(RemoteProcedure::RemoteProcDomainBlockJobSetSpeed),
        240 => Some(RemoteProcedure::RemoteProcDomainBlockPull),
        241 => Some(RemoteProcedure::RemoteProcDomainEventBlockJob),
        242 => Some(RemoteProcedure::RemoteProcDomainMigrateGetMaxSpeed),
        243 => Some(RemoteProcedure::RemoteProcDomainBlockStatsFlags),
        244 => Some(RemoteProcedure::RemoteProcDomainSnapshotGetParent),
        245 => Some(RemoteProcedure::RemoteProcDomainReset),
        246 => Some(RemoteProcedure::RemoteProcDomainSnapshotNumChildren),
        247 => Some(RemoteProcedure::RemoteProcDomainSnapshotListChildrenNames),
        248 => Some(RemoteProcedure::RemoteProcDomainEventDiskChange),
        249 => Some(RemoteProcedure::RemoteProcDomainOpenGraphics),
        250 => Some(RemoteProcedure::RemoteProcNodeSuspendForDuration),
        251 => Some(RemoteProcedure::RemoteProcDomainBlockResize),
        252 => Some(RemoteProcedure::RemoteProcDomainSetBlockIoTune),
        253 => Some(RemoteProcedure::RemoteProcDomainGetBlockIoTune),
        254 => Some(RemoteProcedure::RemoteProcDomainSetNumaParameters),
        255 => Some(RemoteProcedure::RemoteProcDomainGetNumaParameters),
        256 => Some(RemoteProcedure::RemoteProcDomainSetInterfaceParameters),
        257 => Some(RemoteProcedure::RemoteProcDomainGetInterfaceParameters),
        258 => Some(RemoteProcedure::RemoteProcDomainShutdownFlags),
        259 => Some(RemoteProcedure::RemoteProcStorageVolWipePattern),
        260 => Some(RemoteProcedure::RemoteProcStorageVolResize),
        261 => Some(RemoteProcedure::RemoteProcDomainPmSuspendForDuration),
        262 => Some(RemoteProcedure::RemoteProcDomainGetCpuStats),
        263 => Some(RemoteProcedure::RemoteProcDomainGetDiskErrors),
        264 => Some(RemoteProcedure::RemoteProcDomainSetMetadata),
        265 => Some(RemoteProcedure::RemoteProcDomainGetMetadata),
        266 => Some(RemoteProcedure::RemoteProcDomainBlockRebase),
        267 => Some(RemoteProcedure::RemoteProcDomainPmWakeup),
        268 => Some(RemoteProcedure::RemoteProcDomainEventTrayChange),
        269 => Some(RemoteProcedure::RemoteProcDomainEventPmwakeup),
        270 => Some(RemoteProcedure::RemoteProcDomainEventPmsuspend),
        271 => Some(RemoteProcedure::RemoteProcDomainSnapshotIsCurrent),
        272 => Some(RemoteProcedure::RemoteProcDomainSnapshotHasMetadata),
        273 => Some(RemoteProcedure::RemoteProcConnectListAllDomains),
        274 => Some(RemoteProcedure::RemoteProcDomainListAllSnapshots),
        275 => Some(RemoteProcedure::RemoteProcDomainSnapshotListAllChildren),
        276 => Some(RemoteProcedure::RemoteProcDomainEventBalloonChange),
        277 => Some(RemoteProcedure::RemoteProcDomainGetHostname),
        278 => Some(RemoteProcedure::RemoteProcDomainGetSecurityLabelList),
        279 => Some(RemoteProcedure::RemoteProcDomainPinEmulator),
        280 => Some(RemoteProcedure::RemoteProcDomainGetEmulatorPinInfo),
        281 => Some(RemoteProcedure::RemoteProcConnectListAllStoragePools),
        282 => Some(RemoteProcedure::RemoteProcStoragePoolListAllVolumes),
        283 => Some(RemoteProcedure::RemoteProcConnectListAllNetworks),
        284 => Some(RemoteProcedure::RemoteProcConnectListAllInterfaces),
        285 => Some(RemoteProcedure::RemoteProcConnectListAllNodeDevices),
        286 => Some(RemoteProcedure::RemoteProcConnectListAllNwfilters),
        287 => Some(RemoteProcedure::RemoteProcConnectListAllSecrets),
        288 => Some(RemoteProcedure::RemoteProcNodeSetMemoryParameters),
        289 => Some(RemoteProcedure::RemoteProcNodeGetMemoryParameters),
        290 => Some(RemoteProcedure::RemoteProcDomainBlockCommit),
        291 => Some(RemoteProcedure::RemoteProcNetworkUpdate),
        292 => Some(RemoteProcedure::RemoteProcDomainEventPmsuspendDisk),
        293 => Some(RemoteProcedure::RemoteProcNodeGetCpuMap),
        294 => Some(RemoteProcedure::RemoteProcDomainFstrim),
        295 => Some(RemoteProcedure::RemoteProcDomainSendProcessSignal),
        296 => Some(RemoteProcedure::RemoteProcDomainOpenChannel),
        297 => Some(RemoteProcedure::RemoteProcNodeDeviceLookupScsiHostByWwn),
        298 => Some(RemoteProcedure::RemoteProcDomainGetJobStats),
        299 => Some(RemoteProcedure::RemoteProcDomainMigrateGetCompressionCache),
        300 => Some(RemoteProcedure::RemoteProcDomainMigrateSetCompressionCache),
        301 => Some(RemoteProcedure::RemoteProcNodeDeviceDetachFlags),
        302 => Some(RemoteProcedure::RemoteProcDomainMigrateBegin3Params),
        303 => Some(RemoteProcedure::RemoteProcDomainMigratePrepare3Params),
        304 => Some(RemoteProcedure::RemoteProcDomainMigratePrepareTunnel3Params),
        305 => Some(RemoteProcedure::RemoteProcDomainMigratePerform3Params),
        306 => Some(RemoteProcedure::RemoteProcDomainMigrateFinish3Params),
        307 => Some(RemoteProcedure::RemoteProcDomainMigrateConfirm3Params),
        308 => Some(RemoteProcedure::RemoteProcDomainSetMemoryStatsPeriod),
        309 => Some(RemoteProcedure::RemoteProcDomainCreateXmlWithFiles),
        310 => Some(RemoteProcedure::RemoteProcDomainCreateWithFiles),
        311 => Some(RemoteProcedure::RemoteProcDomainEventDeviceRemoved),
        312 => Some(RemoteProcedure::RemoteProcConnectGetCpuModelNames),
        313 => Some(RemoteProcedure::RemoteProcConnectNetworkEventRegisterAny),
        314 => Some(RemoteProcedure::RemoteProcConnectNetworkEventDeregisterAny),
        315 => Some(RemoteProcedure::RemoteProcNetworkEventLifecycle),
        316 => Some(RemoteProcedure::RemoteProcConnectDomainEventCallbackRegisterAny),
        317 => Some(RemoteProcedure::RemoteProcConnectDomainEventCallbackDeregisterAny),
        318 => Some(RemoteProcedure::RemoteProcDomainEventCallbackLifecycle),
        319 => Some(RemoteProcedure::RemoteProcDomainEventCallbackReboot),
        320 => Some(RemoteProcedure::RemoteProcDomainEventCallbackRtcChange),
        321 => Some(RemoteProcedure::RemoteProcDomainEventCallbackWatchdog),
        322 => Some(RemoteProcedure::RemoteProcDomainEventCallbackIoError),
        323 => Some(RemoteProcedure::RemoteProcDomainEventCallbackGraphics),
        324 => Some(RemoteProcedure::RemoteProcDomainEventCallbackIoErrorReason),
        325 => Some(RemoteProcedure::RemoteProcDomainEventCallbackControlError),
        326 => Some(RemoteProcedure::RemoteProcDomainEventCallbackBlockJob),
        327 => Some(RemoteProcedure::RemoteProcDomainEventCallbackDiskChange),
        328 => Some(RemoteProcedure::RemoteProcDomainEventCallbackTrayChange),
        329 => Some(RemoteProcedure::RemoteProcDomainEventCallbackPmwakeup),
        330 => Some(RemoteProcedure::RemoteProcDomainEventCallbackPmsuspend),
        331 => Some(RemoteProcedure::RemoteProcDomainEventCallbackBalloonChange),
        332 => Some(RemoteProcedure::RemoteProcDomainEventCallbackPmsuspendDisk),
        333 => Some(RemoteProcedure::RemoteProcDomainEventCallbackDeviceRemoved),
        334 => Some(RemoteProcedure::RemoteProcDomainCoreDumpWithFormat),
        335 => Some(RemoteProcedure::RemoteProcDomainFsfreeze),
        336 => Some(RemoteProcedure::RemoteProcDomainFsthaw),
        337 => Some(RemoteProcedure::RemoteProcDomainGetTime),
        338 => Some(RemoteProcedure::RemoteProcDomainSetTime),
        339 => Some(RemoteProcedure::RemoteProcDomainEventBlockJob2),
        340 => Some(RemoteProcedure::RemoteProcNodeGetFreePages),
        341 => Some(RemoteProcedure::RemoteProcNetworkGetDhcpLeases),
        342 => Some(RemoteProcedure::RemoteProcConnectGetDomainCapabilities),
        343 => Some(RemoteProcedure::RemoteProcDomainOpenGraphicsFd),
        344 => Some(RemoteProcedure::RemoteProcConnectGetAllDomainStats),
        345 => Some(RemoteProcedure::RemoteProcDomainBlockCopy),
        346 => Some(RemoteProcedure::RemoteProcDomainEventCallbackTunable),
        347 => Some(RemoteProcedure::RemoteProcNodeAllocPages),
        348 => Some(RemoteProcedure::RemoteProcDomainEventCallbackAgentLifecycle),
        349 => Some(RemoteProcedure::RemoteProcDomainGetFsinfo),
        350 => Some(RemoteProcedure::RemoteProcDomainDefineXmlFlags),
        351 => Some(RemoteProcedure::RemoteProcDomainGetIothreadInfo),
        352 => Some(RemoteProcedure::RemoteProcDomainPinIothread),
        353 => Some(RemoteProcedure::RemoteProcDomainInterfaceAddresses),
        354 => Some(RemoteProcedure::RemoteProcDomainEventCallbackDeviceAdded),
        355 => Some(RemoteProcedure::RemoteProcDomainAddIothread),
        356 => Some(RemoteProcedure::RemoteProcDomainDelIothread),
        357 => Some(RemoteProcedure::RemoteProcDomainSetUserPassword),
        358 => Some(RemoteProcedure::RemoteProcDomainRename),
        359 => Some(RemoteProcedure::RemoteProcDomainEventCallbackMigrationIteration),
        360 => Some(RemoteProcedure::RemoteProcConnectRegisterCloseCallback),
        361 => Some(RemoteProcedure::RemoteProcConnectUnregisterCloseCallback),
        362 => Some(RemoteProcedure::RemoteProcConnectEventConnectionClosed),
        363 => Some(RemoteProcedure::RemoteProcDomainEventCallbackJobCompleted),
        364 => Some(RemoteProcedure::RemoteProcDomainMigrateStartPostCopy),
        365 => Some(RemoteProcedure::RemoteProcDomainGetPerfEvents),
        366 => Some(RemoteProcedure::RemoteProcDomainSetPerfEvents),
        367 => Some(RemoteProcedure::RemoteProcDomainEventCallbackDeviceRemovalFailed),
        368 => Some(RemoteProcedure::RemoteProcConnectStoragePoolEventRegisterAny),
        369 => Some(RemoteProcedure::RemoteProcConnectStoragePoolEventDeregisterAny),
        370 => Some(RemoteProcedure::RemoteProcStoragePoolEventLifecycle),
        371 => Some(RemoteProcedure::RemoteProcDomainGetGuestVcpus),
        372 => Some(RemoteProcedure::RemoteProcDomainSetGuestVcpus),
        373 => Some(RemoteProcedure::RemoteProcStoragePoolEventRefresh),
        374 => Some(RemoteProcedure::RemoteProcConnectNodeDeviceEventRegisterAny),
        375 => Some(RemoteProcedure::RemoteProcConnectNodeDeviceEventDeregisterAny),
        376 => Some(RemoteProcedure::RemoteProcNodeDeviceEventLifecycle),
        377 => Some(RemoteProcedure::RemoteProcNodeDeviceEventUpdate),
        378 => Some(RemoteProcedure::RemoteProcStorageVolGetInfoFlags),
        379 => Some(RemoteProcedure::RemoteProcDomainEventCallbackMetadataChange),
        380 => Some(RemoteProcedure::RemoteProcConnectSecretEventRegisterAny),
        381 => Some(RemoteProcedure::RemoteProcConnectSecretEventDeregisterAny),
        382 => Some(RemoteProcedure::RemoteProcSecretEventLifecycle),
        383 => Some(RemoteProcedure::RemoteProcSecretEventValueChanged),
        384 => Some(RemoteProcedure::RemoteProcDomainSetVcpu),
        385 => Some(RemoteProcedure::RemoteProcDomainEventBlockThreshold),
        386 => Some(RemoteProcedure::RemoteProcDomainSetBlockThreshold),
        387 => Some(RemoteProcedure::RemoteProcDomainMigrateGetMaxDowntime),
        388 => Some(RemoteProcedure::RemoteProcDomainManagedSaveGetXmlDesc),
        389 => Some(RemoteProcedure::RemoteProcDomainManagedSaveDefineXml),
        390 => Some(RemoteProcedure::RemoteProcDomainSetLifecycleAction),
        391 => Some(RemoteProcedure::RemoteProcStoragePoolLookupByTargetPath),
        392 => Some(RemoteProcedure::RemoteProcDomainDetachDeviceAlias),
        393 => Some(RemoteProcedure::RemoteProcConnectCompareHypervisorCpu),
        394 => Some(RemoteProcedure::RemoteProcConnectBaselineHypervisorCpu),
        395 => Some(RemoteProcedure::RemoteProcNodeGetSevInfo),
        396 => Some(RemoteProcedure::RemoteProcDomainGetLaunchSecurityInfo),
        397 => Some(RemoteProcedure::RemoteProcNwfilterBindingLookupByPortDev),
        398 => Some(RemoteProcedure::RemoteProcNwfilterBindingGetXmlDesc),
        399 => Some(RemoteProcedure::RemoteProcNwfilterBindingCreateXml),
        400 => Some(RemoteProcedure::RemoteProcNwfilterBindingDelete),
        401 => Some(RemoteProcedure::RemoteProcConnectListAllNwfilterBindings),
        402 => Some(RemoteProcedure::RemoteProcDomainSetIothreadParams),
        403 => Some(RemoteProcedure::RemoteProcConnectGetStoragePoolCapabilities),
        404 => Some(RemoteProcedure::RemoteProcNetworkListAllPorts),
        405 => Some(RemoteProcedure::RemoteProcNetworkPortLookupByUuid),
        406 => Some(RemoteProcedure::RemoteProcNetworkPortCreateXml),
        407 => Some(RemoteProcedure::RemoteProcNetworkPortGetParameters),
        408 => Some(RemoteProcedure::RemoteProcNetworkPortSetParameters),
        409 => Some(RemoteProcedure::RemoteProcNetworkPortGetXmlDesc),
        410 => Some(RemoteProcedure::RemoteProcNetworkPortDelete),
        411 => Some(RemoteProcedure::RemoteProcDomainCheckpointCreateXml),
        412 => Some(RemoteProcedure::RemoteProcDomainCheckpointGetXmlDesc),
        413 => Some(RemoteProcedure::RemoteProcDomainListAllCheckpoints),
        414 => Some(RemoteProcedure::RemoteProcDomainCheckpointListAllChildren),
        415 => Some(RemoteProcedure::RemoteProcDomainCheckpointLookupByName),
        416 => Some(RemoteProcedure::RemoteProcDomainCheckpointGetParent),
        417 => Some(RemoteProcedure::RemoteProcDomainCheckpointDelete),
        418 => Some(RemoteProcedure::RemoteProcDomainGetGuestInfo),
        419 => Some(RemoteProcedure::RemoteProcConnectSetIdentity),
        420 => Some(RemoteProcedure::RemoteProcDomainAgentSetResponseTimeout),
        421 => Some(RemoteProcedure::RemoteProcDomainBackupBegin),
        422 => Some(RemoteProcedure::RemoteProcDomainBackupGetXmlDesc),
        423 => Some(RemoteProcedure::RemoteProcDomainEventMemoryFailure),
        424 => Some(RemoteProcedure::RemoteProcDomainAuthorizedSshKeysGet),
        425 => Some(RemoteProcedure::RemoteProcDomainAuthorizedSshKeysSet),
        426 => Some(RemoteProcedure::RemoteProcDomainGetMessages),
        427 => Some(RemoteProcedure::RemoteProcDomainStartDirtyRateCalc),
        428 => Some(RemoteProcedure::RemoteProcNodeDeviceDefineXml),
        429 => Some(RemoteProcedure::RemoteProcNodeDeviceUndefine),
        430 => Some(RemoteProcedure::RemoteProcNodeDeviceCreate),
        431 => Some(RemoteProcedure::RemoteProcNwfilterDefineXmlFlags),
        432 => Some(RemoteProcedure::RemoteProcNetworkDefineXmlFlags),
        433 => Some(RemoteProcedure::RemoteProcNodeDeviceGetAutostart),
        434 => Some(RemoteProcedure::RemoteProcNodeDeviceSetAutostart),
        435 => Some(RemoteProcedure::RemoteProcNodeDeviceIsPersistent),
        436 => Some(RemoteProcedure::RemoteProcNodeDeviceIsActive),
        437 => Some(RemoteProcedure::RemoteProcNetworkCreateXmlFlags),
        438 => Some(RemoteProcedure::RemoteProcDomainEventMemoryDeviceSizeChange),
        439 => Some(RemoteProcedure::RemoteProcDomainSetLaunchSecurityState),
        _ => None,
    }
}

impl RemoteProcedure {
    /// The number by which the procedure is called on the wire.
    pub fn number(&self) -> (r: i32)
        ensures
            r == procedure_number(*self),
    {
        match self {
            RemoteProcedure::_Reserved0 => 0,
            RemoteProcedure::RemoteProcConnectOpen => 1,
            RemoteProcedure::RemoteProcConnectClose => 2,
            RemoteProcedure::RemoteProcConnectGetType => 3,
            RemoteProcedure::RemoteProcConnectGetVersion => 4,
            RemoteProcedure::RemoteProcConnectGetMaxVcpus => 5,
            RemoteProcedure::RemoteProcNodeGetInfo => 6,
            RemoteProcedure::RemoteProcConnectGetCapabilities => 7,
            RemoteProcedure::RemoteProcDomainAttachDevice => 8,
            RemoteProcedure::RemoteProcDomainCreate => 9,
            RemoteProcedure::RemoteProcDomainCreateXml => 10,
            RemoteProcedure::RemoteProcDomainDefineXml => 11,
            RemoteProcedure::RemoteProcDomainDestroy => 12,
            RemoteProcedure::RemoteProcDomainDetachDevice => 13,
            RemoteProcedure::RemoteProcDomainGetXmlDesc => 14,
            RemoteProcedure::RemoteProcDomainGetAutostart => 15,
            RemoteProcedure::RemoteProcDomainGetInfo => 16,
            RemoteProcedure::RemoteProcDomainGetMaxMemory => 17,
            RemoteProcedure::RemoteProcDomainGetMaxVcpus => 18,
            RemoteProcedure::RemoteProcDomainGetOsType => 19,
            RemoteProcedure::RemoteProcDomainGetVcpus => 20,
            RemoteProcedure::RemoteProcConnectListDefinedDomains => 21,
            RemoteProcedure::RemoteProcDomainLookupById => 22,
            RemoteProcedure::RemoteProcDomainLookupByName => 23,
            RemoteProcedure::RemoteProcDomainLookupByUuid => 24,
            RemoteProcedure::RemoteProcConnectNumOfDefinedDomains => 25,
            RemoteProcedure::RemoteProcDomainPinVcpu => 26,
            RemoteProcedure::RemoteProcDomainReboot => 27,
            RemoteProcedure::RemoteProcDomainResume => 28,
            RemoteProcedure::RemoteProcDomainSetAutostart => 29,
            RemoteProcedure::RemoteProcDomainSetMaxMemory => 30,
            RemoteProcedure::RemoteProcDomainSetMemory => 31,
            RemoteProcedure::RemoteProcDomainSetVcpus => 32,
            RemoteProcedure::RemoteProcDomainShutdown => 33,
            RemoteProcedure::RemoteProcDomainSuspend => 34,
            RemoteProcedure::RemoteProcDomainUndefine => 35,
            RemoteProcedure::RemoteProcConnectListDefinedNetworks => 36,
            RemoteProcedure::RemoteProcConnectListDomains => 37,
            RemoteProcedure::RemoteProcConnectListNetworks => 38,
            RemoteProcedure::RemoteProcNetworkCreate => 39,
            RemoteProcedure::RemoteProcNetworkCreateXml => 40,
            RemoteProcedure::RemoteProcNetworkDefineXml => 41,
            RemoteProcedure::RemoteProcNetworkDestroy => 42,
            RemoteProcedure::RemoteProcNetworkGetXmlDesc => 43,
            RemoteProcedure::RemoteProcNetworkGetAutostart => 44,
            RemoteProcedure::RemoteProcNetworkGetBridgeName => 45,
            RemoteProcedure::RemoteProcNetworkLookupByName => 46,
            RemoteProcedure::RemoteProcNetworkLookupByUuid => 47,
            RemoteProcedure::RemoteProcNetworkSetAutostart => 48,
            RemoteProcedure::RemoteProcNetworkUndefine => 49,
            RemoteProcedure::RemoteProcConnectNumOfDefinedNetworks => 50,
            RemoteProcedure::RemoteProcConnectNumOfDomains => 51,
            RemoteProcedure::RemoteProcConnectNumOfNetworks => 52,
            RemoteProcedure::RemoteProcDomainCoreDump => 53,
            RemoteProcedure::RemoteProcDomainRestore => 54,
            RemoteProcedure::RemoteProcDomainSave => 55,
            RemoteProcedure::RemoteProcDomainGetSchedulerType => 56,
            RemoteProcedure::RemoteProcDomainGetSchedulerParameters => 57,
            RemoteProcedure::RemoteProcDomainSetSchedulerParameters => 58,
            RemoteProcedure::RemoteProcConnectGetHostname => 59,
            RemoteProcedure::RemoteProcConnectSupportsFeature => 60,
            RemoteProcedure::RemoteProcDomainMigratePrepare => 61,
            RemoteProcedure::RemoteProcDomainMigratePerform => 62,
            RemoteProcedure::RemoteProcDomainMigrateFinish => 63,
            RemoteProcedure::RemoteProcDomainBlockStats => 64,
            RemoteProcedure::RemoteProcDomainInterfaceStats => 65,
            RemoteProcedure::RemoteProcAuthList => 66,
            RemoteProcedure::RemoteProcAuthSaslInit => 67,
            RemoteProcedure::RemoteProcAuthSaslStart => 68,
            RemoteProcedure::RemoteProcAuthSaslStep => 69,
            RemoteProcedure::RemoteProcAuthPolkit => 70,
            RemoteProcedure::RemoteProcConnectNumOfStoragePools => 71,
            RemoteProcedure::RemoteProcConnectListStoragePools => 72,
            RemoteProcedure::RemoteProcConnectNumOfDefinedStoragePools => 73,
            RemoteProcedure::RemoteProcConnectListDefinedStoragePools => 74,
            RemoteProcedure::RemoteProcConnectFindStoragePoolSources => 75,
            RemoteProcedure::RemoteProcStoragePoolCreateXml => 76,
            RemoteProcedure::RemoteProcStoragePoolDefineXml => 77,
            RemoteProcedure::RemoteProcStoragePoolCreate => 78,
            RemoteProcedure::RemoteProcStoragePoolBuild => 79,
            RemoteProcedure::RemoteProcStoragePoolDestroy => 80,
            RemoteProcedure::RemoteProcStoragePoolDelete => 81,
            RemoteProcedure::RemoteProcStoragePoolUndefine => 82,
            RemoteProcedure::RemoteProcStoragePoolRefresh => 83,
            RemoteProcedure::RemoteProcStoragePoolLookupByName => 84,
            RemoteProcedure::RemoteProcStoragePoolLookupByUuid => 85,
            RemoteProcedure::RemoteProcStoragePoolLookupByVolume => 86,
            RemoteProcedure::RemoteProcStoragePoolGetInfo => 87,
            RemoteProcedure::RemoteProcStoragePoolGetXmlDesc => 88,
            RemoteProcedure::RemoteProcStoragePoolGetAutostart => 89,
            RemoteProcedure::RemoteProcStoragePoolSetAutostart => 90,
            RemoteProcedure::RemoteProcStoragePoolNumOfVolumes => 91,
            RemoteProcedure::RemoteProcStoragePoolListVolumes => 92,
            RemoteProcedure::RemoteProcStorageVolCreateXml => 93,
            RemoteProcedure::RemoteProcStorageVolDelete => 94,
            RemoteProcedure::RemoteProcStorageVolLookupByName => 95,
            RemoteProcedure::RemoteProcStorageVolLookupByKey => 96,
            RemoteProcedure::RemoteProcStorageVolLookupByPath => 97,
            RemoteProcedure::RemoteProcStorageVolGetInfo => 98,
            RemoteProcedure::RemoteProcStorageVolGetXmlDesc => 99,
            RemoteProcedure::RemoteProcStorageVolGetPath => 100,
            RemoteProcedure::RemoteProcNodeGetCellsFreeMemory => 101,
            RemoteProcedure::RemoteProcNodeGetFreeMemory => 102,
            RemoteProcedure::RemoteProcDomainBlockPeek => 103,
            RemoteProcedure::RemoteProcDomainMemoryPeek => 104,
            RemoteProcedure::RemoteProcConnectDomainEventRegister => 105,
            RemoteProcedure::RemoteProcConnectDomainEventDeregister => 106,
            RemoteProcedure::RemoteProcDomainEventLifecycle => 107,
            RemoteProcedure::RemoteProcDomainMigratePrepare2 => 108,
            RemoteProcedure::RemoteProcDomainMigrateFinish2 => 109,
            RemoteProcedure::RemoteProcConnectGetUri => 110,
            RemoteProcedure::RemoteProcNodeNumOfDevices => 111,
            RemoteProcedure::RemoteProcNodeListDevices => 112,
            RemoteProcedure::RemoteProcNodeDeviceLookupByName => 113,
            RemoteProcedure::RemoteProcNodeDeviceGetXmlDesc => 114,
            RemoteProcedure::RemoteProcNodeDeviceGetParent => 115,
            RemoteProcedure::RemoteProcNodeDeviceNumOfCaps => 116,
            RemoteProcedure::RemoteProcNodeDeviceListCaps => 117,
            RemoteProcedure::RemoteProcNodeDeviceDettach => 118,
            RemoteProcedure::RemoteProcNodeDeviceReAttach => 119,
            RemoteProcedure::RemoteProcNodeDeviceReset => 120,
            RemoteProcedure::RemoteProcDomainGetSecurityLabel => 121,
            RemoteProcedure::RemoteProcNodeGetSecurityModel => 122,
            RemoteProcedure::RemoteProcNodeDeviceCreateXml => 123,
            RemoteProcedure::RemoteProcNodeDeviceDestroy => 124,
            RemoteProcedure::RemoteProcStorageVolCreateXmlFrom => 125,
            RemoteProcedure::RemoteProcConnectNumOfInterfaces => 126,
            RemoteProcedure::RemoteProcConnectListInterfaces => 127,
            RemoteProcedure::RemoteProcInterfaceLookupByName => 128,
            RemoteProcedure::RemoteProcInterfaceLookupByMacString => 129,
            RemoteProcedure::RemoteProcInterfaceGetXmlDesc => 130,
            RemoteProcedure::RemoteProcInterfaceDefineXml => 131,
            RemoteProcedure::RemoteProcInterfaceUndefine => 132,
            RemoteProcedure::RemoteProcInterfaceCreate => 133,
            RemoteProcedure::RemoteProcInterfaceDestroy => 134,
            RemoteProcedure::RemoteProcConnectDomainXmlFromNative => 135,
            RemoteProcedure::RemoteProcConnectDomainXmlToNative => 136,
            RemoteProcedure::RemoteProcConnectNumOfDefinedInterfaces => 137,
            RemoteProcedure::RemoteProcConnectListDefinedInterfaces => 138,
            RemoteProcedure::RemoteProcConnectNumOfSecrets => 139,
            RemoteProcedure::RemoteProcConnectListSecrets => 140,
            RemoteProcedure::RemoteProcSecretLookupByUuid => 141,
            RemoteProcedure::RemoteProcSecretDefineXml => 142,
            RemoteProcedure::RemoteProcSecretGetXmlDesc => 143,
            RemoteProcedure::RemoteProcSecretSetValue => 144,
            RemoteProcedure::RemoteProcSecretGetValue => 145,
            RemoteProcedure::RemoteProcSecretUndefine => 146,
            RemoteProcedure::RemoteProcSecretLookupByUsage => 147,
            RemoteProcedure::RemoteProcDomainMigratePrepareTunnel => 148,
            RemoteProcedure::RemoteProcConnectIsSecure => 149,
            RemoteProcedure::RemoteProcDomainIsActive => 150,
            RemoteProcedure::RemoteProcDomainIsPersistent => 151,
            RemoteProcedure::RemoteProcNetworkIsActive => 152,
            RemoteProcedure::RemoteProcNetworkIsPersistent => 153,
            RemoteProcedure::RemoteProcStoragePoolIsActive => 154,
            RemoteProcedure::RemoteProcStoragePoolIsPersistent => 155,
            RemoteProcedure::RemoteProcInterfaceIsActive => 156,
            RemoteProcedure::RemoteProcConnectGetLibVersion => 157,
            RemoteProcedure::RemoteProcConnectCompareCpu => 158,
            RemoteProcedure::RemoteProcDomainMemoryStats => 159,
            RemoteProcedure::RemoteProcDomainAttachDeviceFlags => 160,
            RemoteProcedure::RemoteProcDomainDetachDeviceFlags => 161,
            RemoteProcedure::RemoteProcConnectBaselineCpu => 162,
            RemoteProcedure::RemoteProcDomainGetJobInfo => 163,
            RemoteProcedure::RemoteProcDomainAbortJob => 164,
            RemoteProcedure::RemoteProcStorageVolWipe => 165,
            RemoteProcedure::RemoteProcDomainMigrateSetMaxDowntime => 166,
            RemoteProcedure::RemoteProcConnectDomainEventRegisterAny => 167,
            RemoteProcedure::RemoteProcConnectDomainEventDeregisterAny => 168,
            RemoteProcedure::RemoteProcDomainEventReboot => 169,
            RemoteProcedure::RemoteProcDomainEventRtcChange => 170,
            RemoteProcedure::RemoteProcDomainEventWatchdog => 171,
            RemoteProcedure::RemoteProcDomainEventIoError => 172,
            RemoteProcedure::RemoteProcDomainEventGraphics => 173,
            RemoteProcedure::RemoteProcDomainUpdateDeviceFlags => 174,
            RemoteProcedure::RemoteProcNwfilterLookupByName => 175,
            RemoteProcedure::RemoteProcNwfilterLookupByUuid => 176,
            RemoteProcedure::RemoteProcNwfilterGetXmlDesc => 177,
            RemoteProcedure::RemoteProcConnectNumOfNwfilters => 178,
            RemoteProcedure::RemoteProcConnectListNwfilters => 179,
            RemoteProcedure::RemoteProcNwfilterDefineXml => 180,
            RemoteProcedure::RemoteProcNwfilterUndefine => 181,
            RemoteProcedure::RemoteProcDomainManagedSave => 182,
            RemoteProcedure::RemoteProcDomainHasManagedSaveImage => 183,
            RemoteProcedure::RemoteProcDomainManagedSaveRemove => 184,
            RemoteProcedure::RemoteProcDomainSnapshotCreateXml => 185,
            RemoteProcedure::RemoteProcDomainSnapshotGetXmlDesc => 186,
            RemoteProcedure::RemoteProcDomainSnapshotNum => 187,
            RemoteProcedure::RemoteProcDomainSnapshotListNames => 188,
            RemoteProcedure::RemoteProcDomainSnapshotLookupByName => 189,
            RemoteProcedure::RemoteProcDomainHasCurrentSnapshot => 190,
            RemoteProcedure::RemoteProcDomainSnapshotCurrent => 191,
            RemoteProcedure::RemoteProcDomainRevertToSnapshot => 192,
            RemoteProcedure::RemoteProcDomainSnapshotDelete => 193,
            RemoteProcedure::RemoteProcDomainGetBlockInfo => 194,
            RemoteProcedure::RemoteProcDomainEventIoErrorReason => 195,
            RemoteProcedure::RemoteProcDomainCreateWithFlags => 196,
            RemoteProcedure::RemoteProcDomainSetMemoryParameters => 197,
            RemoteProcedure::RemoteProcDomainGetMemoryParameters => 198,
            RemoteProcedure::RemoteProcDomainSetVcpusFlags => 199,
            RemoteProcedure::RemoteProcDomainGetVcpusFlags => 200,
            RemoteProcedure::RemoteProcDomainOpenConsole => 201,
            RemoteProcedure::RemoteProcDomainIsUpdated => 202,
            RemoteProcedure::RemoteProcConnectGetSysinfo => 203,
            RemoteProcedure::RemoteProcDomainSetMemoryFlags => 204,
            RemoteProcedure::RemoteProcDomainSetBlkioParameters => 205,
            RemoteProcedure::RemoteProcDomainGetBlkioParameters => 206,
            RemoteProcedure::RemoteProcDomainMigrateSetMaxSpeed => 207,
            RemoteProcedure::RemoteProcStorageVolUpload => 208,
            RemoteProcedure::RemoteProcStorageVolDownload => 209,
            RemoteProcedure::RemoteProcDomainInjectNmi => 210,
            RemoteProcedure::RemoteProcDomainScreenshot => 211,
            RemoteProcedure::RemoteProcDomainGetState => 212,
            RemoteProcedure::RemoteProcDomainMigrateBegin3 => 213,
            RemoteProcedure::RemoteProcDomainMigratePrepare3 => 214,
            RemoteProcedure::RemoteProcDomainMigratePrepareTunnel3 => 215,
            RemoteProcedure::RemoteProcDomainMigratePerform3 => 216,
            RemoteProcedure::RemoteProcDomainMigrateFinish3 => 217,
            RemoteProcedure::RemoteProcDomainMigrateConfirm3 => 218,
            RemoteProcedure::RemoteProcDomainSetSchedulerParametersFlags => 219,
            RemoteProcedure::RemoteProcInterfaceChangeBegin => 220,
            RemoteProcedure::RemoteProcInterfaceChangeCommit => 221,
            RemoteProcedure::RemoteProcInterfaceChangeRollback => 222,
            RemoteProcedure::RemoteProcDomainGetSchedulerParametersFlags => 223,
            RemoteProcedure::RemoteProcDomainEventControlError => 224,
            RemoteProcedure::RemoteProcDomainPinVcpuFlags => 225,
            RemoteProcedure::RemoteProcDomainSendKey => 226,
            RemoteProcedure::RemoteProcNodeGetCpuStats => 227,
            RemoteProcedure::RemoteProcNodeGetMemoryStats => 228,
            RemoteProcedure::RemoteProcDomainGetControlInfo => 229,
            RemoteProcedure::RemoteProcDomainGetVcpuPinInfo => 230,
            RemoteProcedure::RemoteProcDomainUndefineFlags => 231,
            RemoteProcedure::RemoteProcDomainSaveFlags => 232,
            RemoteProcedure::RemoteProcDomainRestoreFlags => 233,
            RemoteProcedure::RemoteProcDomainDestroyFlags => 234,
            RemoteProcedure::RemoteProcDomainSaveImageGetXmlDesc => 235,
            RemoteProcedure::RemoteProcDomainSaveImageDefineXml => 236,
            RemoteProcedure::RemoteProcDomainBlockJobAbort => 237,
            RemoteProcedure::RemoteProcDomainGetBlockJobInfo => 238,
            RemoteProcedure::RemoteProcDomainBlockJobSetSpeed => 239,
            RemoteProcedure::RemoteProcDomainBlockPull => 240,
            RemoteProcedure::RemoteProcDomainEventBlockJob => 241,
            RemoteProcedure::RemoteProcDomainMigrateGetMaxSpeed => 242,
            RemoteProcedure::RemoteProcDomainBlockStatsFlags => 243,
            RemoteProcedure::RemoteProcDomainSnapshotGetParent => 244,
            RemoteProcedure::RemoteProcDomainReset => 245,
            RemoteProcedure::RemoteProcDomainSnapshotNumChildren => 246,
            RemoteProcedure::RemoteProcDomainSnapshotListChildrenNames => 247,
            RemoteProcedure::RemoteProcDomainEventDiskChange => 248,
            RemoteProcedure::RemoteProcDomainOpenGraphics => 249,
            RemoteProcedure::RemoteProcNodeSuspendForDuration => 250,
            RemoteProcedure::RemoteProcDomainBlockResize => 251,
            RemoteProcedure::RemoteProcDomainSetBlockIoTune => 252,
            RemoteProcedure::RemoteProcDomainGetBlockIoTune => 253,
            RemoteProcedure::RemoteProcDomainSetNumaParameters => 254,
            RemoteProcedure::RemoteProcDomainGetNumaParameters => 255,
            RemoteProcedure::RemoteProcDomainSetInterfaceParameters => 256,
            RemoteProcedure::RemoteProcDomainGetInterfaceParameters => 257,
            RemoteProcedure::RemoteProcDomainShutdownFlags => 258,
            RemoteProcedure::RemoteProcStorageVolWipePattern => 259,
            RemoteProcedure::RemoteProcStorageVolResize => 260,
            RemoteProcedure::RemoteProcDomainPmSuspendForDuration => 261,
            RemoteProcedure::RemoteProcDomainGetCpuStats => 262,
            RemoteProcedure::RemoteProcDomainGetDiskErrors => 263,
            RemoteProcedure::RemoteProcDomainSetMetadata => 264,
            RemoteProcedure::RemoteProcDomainGetMetadata => 265,
            RemoteProcedure::RemoteProcDomainBlockRebase => 266,
            RemoteProcedure::RemoteProcDomainPmWakeup => 267,
            RemoteProcedure::RemoteProcDomainEventTrayChange => 268,
            RemoteProcedure::RemoteProcDomainEventPmwakeup => 269,
            RemoteProcedure::RemoteProcDomainEventPmsuspend => 270,
            RemoteProcedure::RemoteProcDomainSnapshotIsCurrent => 271,
            RemoteProcedure::RemoteProcDomainSnapshotHasMetadata => 272,
            RemoteProcedure::RemoteProcConnectListAllDomains => 273,
            RemoteProcedure::RemoteProcDomainListAllSnapshots => 274,
            RemoteProcedure::RemoteProcDomainSnapshotListAllChildren => 275,
            RemoteProcedure::RemoteProcDomainEventBalloonChange => 276,
            RemoteProcedure::RemoteProcDomainGetHostname => 277,
            RemoteProcedure::RemoteProcDomainGetSecurityLabelList => 278,
            RemoteProcedure::RemoteProcDomainPinEmulator => 279,
            RemoteProcedure::RemoteProcDomainGetEmulatorPinInfo => 280,
            RemoteProcedure::RemoteProcConnectListAllStoragePools => 281,
            RemoteProcedure::RemoteProcStoragePoolListAllVolumes => 282,
            RemoteProcedure::RemoteProcConnectListAllNetworks => 283,
            RemoteProcedure::RemoteProcConnectListAllInterfaces => 284,
            RemoteProcedure::RemoteProcConnectListAllNodeDevices => 285,
            RemoteProcedure::RemoteProcConnectListAllNwfilters => 286,
            RemoteProcedure::RemoteProcConnectListAllSecrets => 287,
            RemoteProcedure::RemoteProcNodeSetMemoryParameters => 288,
            RemoteProcedure::RemoteProcNodeGetMemoryParameters => 289,
            RemoteProcedure::RemoteProcDomainBlockCommit => 290,
            RemoteProcedure::RemoteProcNetworkUpdate => 291,
            RemoteProcedure::RemoteProcDomainEventPmsuspendDisk => 292,
            RemoteProcedure::RemoteProcNodeGetCpuMap => 293,
            RemoteProcedure::RemoteProcDomainFstrim => 294,
            RemoteProcedure::RemoteProcDomainSendProcessSignal => 295,
            RemoteProcedure::RemoteProcDomainOpenChannel => 296,
            RemoteProcedure::RemoteProcNodeDeviceLookupScsiHostByWwn => 297,
            RemoteProcedure::RemoteProcDomainGetJobStats => 298,
            RemoteProcedure::RemoteProcDomainMigrateGetCompressionCache => 299,
            RemoteProcedure::RemoteProcDomainMigrateSetCompressionCache => 300,
            RemoteProcedure::RemoteProcNodeDeviceDetachFlags => 301,
            RemoteProcedure::RemoteProcDomainMigrateBegin3Params => 302,
            RemoteProcedure::RemoteProcDomainMigratePrepare3Params => 303,
            RemoteProcedure::RemoteProcDomainMigratePrepareTunnel3Params => 304,
            RemoteProcedure::RemoteProcDomainMigratePerform3Params => 305,
            RemoteProcedure::RemoteProcDomainMigrateFinish3Params => 306,
            RemoteProcedure::RemoteProcDomainMigrateConfirm3Params => 307,
            RemoteProcedure::RemoteProcDomainSetMemoryStatsPeriod => 308,
            RemoteProcedure::RemoteProcDomainCreateXmlWithFiles => 309,
            RemoteProcedure::RemoteProcDomainCreateWithFiles => 310,
            RemoteProcedure::RemoteProcDomainEventDeviceRemoved => 311,
            RemoteProcedure::RemoteProcConnectGetCpuModelNames => 312,
            RemoteProcedure::RemoteProcConnectNetworkEventRegisterAny => 313,
            RemoteProcedure::RemoteProcConnectNetworkEventDeregisterAny => 314,
            RemoteProcedure::RemoteProcNetworkEventLifecycle => 315,
            RemoteProcedure::RemoteProcConnectDomainEventCallbackRegisterAny => 316,
            RemoteProcedure::RemoteProcConnectDomainEventCallbackDeregisterAny => 317,
            RemoteProcedure::RemoteProcDomainEventCallbackLifecycle => 318,
            RemoteProcedure::RemoteProcDomainEventCallbackReboot => 319,
            RemoteProcedure::RemoteProcDomainEventCallbackRtcChange => 320,
            RemoteProcedure::RemoteProcDomainEventCallbackWatchdog => 321,
            RemoteProcedure::RemoteProcDomainEventCallbackIoError => 322,
            RemoteProcedure::RemoteProcDomainEventCallbackGraphics => 323,
            RemoteProcedure::RemoteProcDomainEventCallbackIoErrorReason => 324,
            RemoteProcedure::RemoteProcDomainEventCallbackControlError => 325,
            RemoteProcedure::RemoteProcDomainEventCallbackBlockJob => 326,
            RemoteProcedure::RemoteProcDomainEventCallbackDiskChange => 327,
            RemoteProcedure::RemoteProcDomainEventCallbackTrayChange => 328,
            RemoteProcedure::RemoteProcDomainEventCallbackPmwakeup => 329,
            RemoteProcedure::RemoteProcDomainEventCallbackPmsuspend => 330,
            RemoteProcedure::RemoteProcDomainEventCallbackBalloonChange => 331,
            RemoteProcedure::RemoteProcDomainEventCallbackPmsuspendDisk => 332,
            RemoteProcedure::RemoteProcDomainEventCallbackDeviceRemoved => 333,
            RemoteProcedure::RemoteProcDomainCoreDumpWithFormat => 334,
            RemoteProcedure::RemoteProcDomainFsfreeze => 335,
            RemoteProcedure::RemoteProcDomainFsthaw => 336,
            RemoteProcedure::RemoteProcDomainGetTime => 337,
            RemoteProcedure::RemoteProcDomainSetTime => 338,
            RemoteProcedure::RemoteProcDomainEventBlockJob2 => 339,
            RemoteProcedure::RemoteProcNodeGetFreePages => 340,
            RemoteProcedure::RemoteProcNetworkGetDhcpLeases => 341,
            RemoteProcedure::RemoteProcConnectGetDomainCapabilities => 342,
            RemoteProcedure::RemoteProcDomainOpenGraphicsFd => 343,
            RemoteProcedure::RemoteProcConnectGetAllDomainStats => 344,
            RemoteProcedure::RemoteProcDomainBlockCopy => 345,
            RemoteProcedure::RemoteProcDomainEventCallbackTunable => 346,
            RemoteProcedure::RemoteProcNodeAllocPages => 347,
            RemoteProcedure::RemoteProcDomainEventCallbackAgentLifecycle => 348,
            RemoteProcedure::RemoteProcDomainGetFsinfo => 349,
            RemoteProcedure::RemoteProcDomainDefineXmlFlags => 350,
            RemoteProcedure::RemoteProcDomainGetIothreadInfo => 351,
            RemoteProcedure::RemoteProcDomainPinIothread => 352,
            RemoteProcedure::RemoteProcDomainInterfaceAddresses => 353,
            RemoteProcedure::RemoteProcDomainEventCallbackDeviceAdded => 354,
            RemoteProcedure::RemoteProcDomainAddIothread => 355,
            RemoteProcedure::RemoteProcDomainDelIothread => 356,
            RemoteProcedure::RemoteProcDomainSetUserPassword => 357,
            RemoteProcedure::RemoteProcDomainRename => 358,
            RemoteProcedure::RemoteProcDomainEventCallbackMigrationIteration => 359,
            RemoteProcedure::RemoteProcConnectRegisterCloseCallback => 360,
            RemoteProcedure::RemoteProcConnectUnregisterCloseCallback => 361,
            RemoteProcedure::RemoteProcConnectEventConnectionClosed => 362,
            RemoteProcedure::RemoteProcDomainEventCallbackJobCompleted => 363,
            RemoteProcedure::RemoteProcDomainMigrateStartPostCopy => 364,
            RemoteProcedure::RemoteProcDomainGetPerfEvents => 365,
            RemoteProcedure::RemoteProcDomainSetPerfEvents => 366,
            RemoteProcedure::RemoteProcDomainEventCallbackDeviceRemovalFailed => 367,
            RemoteProcedure::RemoteProcConnectStoragePoolEventRegisterAny => 368,
            RemoteProcedure::RemoteProcConnectStoragePoolEventDeregisterAny => 369,
            RemoteProcedure::RemoteProcStoragePoolEventLifecycle => 370,
            RemoteProcedure::RemoteProcDomainGetGuestVcpus => 371,
            RemoteProcedure::RemoteProcDomainSetGuestVcpus => 372,
            RemoteProcedure::RemoteProcStoragePoolEventRefresh => 373,
            RemoteProcedure::RemoteProcConnectNodeDeviceEventRegisterAny => 374,
            RemoteProcedure::RemoteProcConnectNodeDeviceEventDeregisterAny => 375,
            RemoteProcedure::RemoteProcNodeDeviceEventLifecycle => 376,
            RemoteProcedure::RemoteProcNodeDeviceEventUpdate => 377,
            RemoteProcedure::RemoteProcStorageVolGetInfoFlags => 378,
            RemoteProcedure::RemoteProcDomainEventCallbackMetadataChange => 379,
            RemoteProcedure::RemoteProcConnectSecretEventRegisterAny => 380,
            RemoteProcedure::RemoteProcConnectSecretEventDeregisterAny => 381,
            RemoteProcedure::RemoteProcSecretEventLifecycle => 382,
            RemoteProcedure::RemoteProcSecretEventValueChanged => 383,
            RemoteProcedure::RemoteProcDomainSetVcpu => 384,
            RemoteProcedure::RemoteProcDomainEventBlockThreshold => 385,
            RemoteProcedure::RemoteProcDomainSetBlockThreshold => 386,
            RemoteProcedure::RemoteProcDomainMigrateGetMaxDowntime => 387,
            RemoteProcedure::RemoteProcDomainManagedSaveGetXmlDesc => 388,
            RemoteProcedure::RemoteProcDomainManagedSaveDefineXml => 389,
            RemoteProcedure::RemoteProcDomainSetLifecycleAction => 390,
            RemoteProcedure::RemoteProcStoragePoolLookupByTargetPath => 391,
            RemoteProcedure::RemoteProcDomainDetachDeviceAlias => 392,
            RemoteProcedure::RemoteProcConnectCompareHypervisorCpu => 393,
            RemoteProcedure::RemoteProcConnectBaselineHypervisorCpu => 394,
            RemoteProcedure::RemoteProcNodeGetSevInfo => 395,
            RemoteProcedure::RemoteProcDomainGetLaunchSecurityInfo => 396,
            RemoteProcedure::RemoteProcNwfilterBindingLookupByPortDev => 397,
            RemoteProcedure::RemoteProcNwfilterBindingGetXmlDesc => 398,
            RemoteProcedure::RemoteProcNwfilterBindingCreateXml => 399,
            RemoteProcedure::RemoteProcNwfilterBindingDelete => 400,
            RemoteProcedure::RemoteProcConnectListAllNwfilterBindings => 401,
            RemoteProcedure::RemoteProcDomainSetIothreadParams => 402,
            RemoteProcedure::RemoteProcConnectGetStoragePoolCapabilities => 403,
            RemoteProcedure::RemoteProcNetworkListAllPorts => 404,
            RemoteProcedure::RemoteProcNetworkPortLookupByUuid => 405,
            RemoteProcedure::RemoteProcNetworkPortCreateXml => 406,
            RemoteProcedure::RemoteProcNetworkPortGetParameters => 407,
            RemoteProcedure::RemoteProcNetworkPortSetParameters => 408,
            RemoteProcedure::RemoteProcNetworkPortGetXmlDesc => 409,
            RemoteProcedure::RemoteProcNetworkPortDelete => 410,
            RemoteProcedure::RemoteProcDomainCheckpointCreateXml => 411,
            RemoteProcedure::RemoteProcDomainCheckpointGetXmlDesc => 412,
            RemoteProcedure::RemoteProcDomainListAllCheckpoints => 413,
            RemoteProcedure::RemoteProcDomainCheckpointListAllChildren => 414,
            RemoteProcedure::RemoteProcDomainCheckpointLookupByName => 415,
            RemoteProcedure::RemoteProcDomainCheckpointGetParent => 416,
            RemoteProcedure::RemoteProcDomainCheckpointDelete => 417,
            RemoteProcedure::RemoteProcDomainGetGuestInfo => 418,
            RemoteProcedure::RemoteProcConnectSetIdentity => 419,
            RemoteProcedure::RemoteProcDomainAgentSetResponseTimeout => 420,
            RemoteProcedure::RemoteProcDomainBackupBegin => 421,
            RemoteProcedure::RemoteProcDomainBackupGetXmlDesc => 422,
            RemoteProcedure::RemoteProcDomainEventMemoryFailure => 423,
            RemoteProcedure::RemoteProcDomainAuthorizedSshKeysGet => 424,
            RemoteProcedure::RemoteProcDomainAuthorizedSshKeysSet => 425,
            RemoteProcedure::RemoteProcDomainGetMessages => 426,
            RemoteProcedure::RemoteProcDomainStartDirtyRateCalc => 427,
            RemoteProcedure::RemoteProcNodeDeviceDefineXml => 428,
            RemoteProcedure::RemoteProcNodeDeviceUndefine => 429,
            RemoteProcedure::RemoteProcNodeDeviceCreate => 430,
            RemoteProcedure::RemoteProcNwfilterDefineXmlFlags => 431,
            RemoteProcedure::RemoteProcNetworkDefineXmlFlags => 432,
            RemoteProcedure::RemoteProcNodeDeviceGetAutostart => 433,
            RemoteProcedure::RemoteProcNodeDeviceSetAutostart => 434,
            RemoteProcedure::RemoteProcNodeDeviceIsPersistent => 435,
            RemoteProcedure::RemoteProcNodeDeviceIsActive => 436,
            RemoteProcedure::RemoteProcNetworkCreateXmlFlags => 437,
            RemoteProcedure::RemoteProcDomainEventMemoryDeviceSizeChange => 438,
            RemoteProcedure::RemoteProcDomainSetLaunchSecurityState => 439,
        }
    }

    /// The procedure called by number `n`; `None` for a number no procedure has.
    pub fn from_number(n: i32) -> (r: Option<RemoteProcedure>)
        ensures
            r == procedure_of_number(n),
    {
        match n {
            0 => Some(RemoteProcedure::_Reserved0),
            1 => Some(RemoteProcedure::RemoteProcConnectOpen),
            2 => Some(RemoteProcedure::RemoteProcConnectClose),
            3 => Some(RemoteProcedure::RemoteProcConnectGetType),
            4 => Some(RemoteProcedure::RemoteProcConnectGetVersion),
            5 => Some(RemoteProcedure::RemoteProcConnectGetMaxVcpus),
            6 => Some(RemoteProcedure::RemoteProcNodeGetInfo),
            7 => Some(RemoteProcedure::RemoteProcConnectGetCapabilities),
            8 => Some(RemoteProcedure::RemoteProcDomainAttachDevice),
            9 => Some(RemoteProcedure::RemoteProcDomainCreate),
            10 => Some(RemoteProcedure::RemoteProcDomainCreateXml),
            11 => Some(RemoteProcedure::RemoteProcDomainDefineXml),
            12 => Some(RemoteProcedure::RemoteProcDomainDestroy),
            13 => Some(RemoteProcedure::RemoteProcDomainDetachDevice),
            14 => Some(RemoteProcedure::RemoteProcDomainGetXmlDesc),
            15 => Some(RemoteProcedure::RemoteProcDomainGetAutostart),
            16 => Some(RemoteProcedure::RemoteProcDomainGetInfo),
            17 => Some(RemoteProcedure::RemoteProcDomainGetMaxMemory),
            18 => Some(RemoteProcedure::RemoteProcDomainGetMaxVcpus),
            19 => Some(RemoteProcedure::RemoteProcDomainGetOsType),
            20 => Some(RemoteProcedure::RemoteProcDomainGetVcpus),
            21 => Some(RemoteProcedure::RemoteProcConnectListDefinedDomains),
            22 => Some(RemoteProcedure::RemoteProcDomainLookupById),
            23 => Some(RemoteProcedure::RemoteProcDomainLookupByName),
            24 => Some(RemoteProcedure::RemoteProcDomainLookupByUuid),
            25 => Some(RemoteProcedure::RemoteProcConnectNumOfDefinedDomains),
            26 => Some(RemoteProcedure::RemoteProcDomainPinVcpu),
            27 => Some(RemoteProcedure::RemoteProcDomainReboot),
            28 => Some(RemoteProcedure::RemoteProcDomainResume),
            29 => Some(RemoteProcedure::RemoteProcDomainSetAutostart),
            30 => Some(RemoteProcedure::RemoteProcDomainSetMaxMemory),
            31 => Some(RemoteProcedure::RemoteProcDomainSetMemory),
            32 => Some(RemoteProcedure::RemoteProcDomainSetVcpus),
            33 => Some(RemoteProcedure::RemoteProcDomainShutdown),
            34 => Some(RemoteProcedure::RemoteProcDomainSuspend),
            35 => Some(RemoteProcedure::RemoteProcDomainUndefine),
            36 => Some(RemoteProcedure::RemoteProcConnectListDefinedNetworks),
            37 => Some(RemoteProcedure::RemoteProcConnectListDomains),
            38 => Some(RemoteProcedure::RemoteProcConnectListNetworks),
            39 => Some(RemoteProcedure::RemoteProcNetworkCreate),
            40 => Some(RemoteProcedure::RemoteProcNetworkCreateXml),
            41 => Some(RemoteProcedure::RemoteProcNetworkDefineXml),
            42 => Some(RemoteProcedure::RemoteProcNetworkDestroy),
            43 => Some(RemoteProcedure::RemoteProcNetworkGetXmlDesc),
            44 => Some(RemoteProcedure::RemoteProcNetworkGetAutostart),
            45 => Some(RemoteProcedure::RemoteProcNetworkGetBridgeName),
            46 => Some(RemoteProcedure::RemoteProcNetworkLookupByName),
            47 => Some(RemoteProcedure::RemoteProcNetworkLookupByUuid),
            48 => Some(RemoteProcedure::RemoteProcNetworkSetAutostart),
            49 => Some(RemoteProcedure::RemoteProcNetworkUndefine),
            50 => Some(RemoteProcedure::RemoteProcConnectNumOfDefinedNetworks),
            51 => Some(RemoteProcedure::RemoteProcConnectNumOfDomains),
            52 => Some(RemoteProcedure::RemoteProcConnectNumOfNetworks),
            53 => Some(RemoteProcedure::RemoteProcDomainCoreDump),
            54 => Some(RemoteProcedure::RemoteProcDomainRestore),
            55 => Some(RemoteProcedure::RemoteProcDomainSave),
            56 => Some(RemoteProcedure::RemoteProcDomainGetSchedulerType),
            57 => Some(RemoteProcedure::RemoteProcDomainGetSchedulerParameters),
            58 => Some(RemoteProcedure::RemoteProcDomainSetSchedulerParameters),
            59 => Some(RemoteProcedure::RemoteProcConnectGetHostname),
            60 => Some(RemoteProcedure::RemoteProcConnectSupportsFeature),
            61 => Some(RemoteProcedure::RemoteProcDomainMigratePrepare),
            62 => Some(RemoteProcedure::RemoteProcDomainMigratePerform),
            63 => Some(RemoteProcedure::RemoteProcDomainMigrateFinish),
            64 => Some(RemoteProcedure::RemoteProcDomainBlockStats),
            65 => Some(RemoteProcedure::RemoteProcDomainInterfaceStats),
            66 => Some(RemoteProcedure::RemoteProcAuthList),
            67 => Some(RemoteProcedure::RemoteProcAuthSaslInit),
            68 => Some(RemoteProcedure::RemoteProcAuthSaslStart),
            69 => Some(RemoteProcedure::RemoteProcAuthSaslStep),
            70 => Some(RemoteProcedure::RemoteProcAuthPolkit),
            71 => Some(RemoteProcedure::RemoteProcConnectNumOfStoragePools),
            72 => Some(RemoteProcedure::RemoteProcConnectListStoragePools),
            73 => Some(RemoteProcedure::RemoteProcConnectNumOfDefinedStoragePools),
            74 => Some(RemoteProcedure::RemoteProcConnectListDefinedStoragePools),
            75 => Some(RemoteProcedure::RemoteProcConnectFindStoragePoolSources),
            76 => Some(RemoteProcedure::RemoteProcStoragePoolCreateXml),
            77 => Some(RemoteProcedure::RemoteProcStoragePoolDefineXml),
            78 => Some(RemoteProcedure::RemoteProcStoragePoolCreate),
            79 => Some(RemoteProcedure::RemoteProcStoragePoolBuild),
            80 => Some(RemoteProcedure::RemoteProcStoragePoolDestroy),
            81 => Some(RemoteProcedure::RemoteProcStoragePoolDelete),
            82 => Some(RemoteProcedure::RemoteProcStoragePoolUndefine),
            83 => Some(RemoteProcedure::RemoteProcStoragePoolRefresh),
            84 => Some(RemoteProcedure::RemoteProcStoragePoolLookupByName),
            85 => Some(RemoteProcedure::RemoteProcStoragePoolLookupByUuid),
            86 => Some(RemoteProcedure::RemoteProcStoragePoolLookupByVolume),
            87 => Some(RemoteProcedure::RemoteProcStoragePoolGetInfo),
            88 => Some(RemoteProcedure::RemoteProcStoragePoolGetXmlDesc),
            89 => Some(RemoteProcedure::RemoteProcStoragePoolGetAutostart),
            90 => Some(RemoteProcedure::RemoteProcStoragePoolSetAutostart),
            91 => Some(RemoteProcedure::RemoteProcStoragePoolNumOfVolumes),
            92 => Some(RemoteProcedure::RemoteProcStoragePoolListVolumes),
            93 => Some(RemoteProcedure::RemoteProcStorageVolCreateXml),
            94 => Some(RemoteProcedure::RemoteProcStorageVolDelete),
            95 => Some(RemoteProcedure::RemoteProcStorageVolLookupByName),
            96 => Some(RemoteProcedure::RemoteProcStorageVolLookupByKey),
            97 => Some(RemoteProcedure::RemoteProcStorageVolLookupByPath),
            98 => Some(RemoteProcedure::RemoteProcStorageVolGetInfo),
            99 => Some(RemoteProcedure::RemoteProcStorageVolGetXmlDesc),
            100 => Some(RemoteProcedure::RemoteProcStorageVolGetPath),
            101 => Some(RemoteProcedure::RemoteProcNodeGetCellsFreeMemory),
            102 => Some(RemoteProcedure::RemoteProcNodeGetFreeMemory),
            103 => Some(RemoteProcedure::RemoteProcDomainBlockPeek),
            104 => Some(RemoteProcedure::RemoteProcDomainMemoryPeek),
            105 => Some(RemoteProcedure::RemoteProcConnectDomainEventRegister),
            106 => Some(RemoteProcedure::RemoteProcConnectDomainEventDeregister),
            107 => Some(RemoteProcedure::RemoteProcDomainEventLifecycle),
            108 => Some(RemoteProcedure::RemoteProcDomainMigratePrepare2),
            109 => Some(RemoteProcedure::RemoteProcDomainMigrateFinish2),
            110 => Some(RemoteProcedure::RemoteProcConnectGetUri),
            111 => Some(RemoteProcedure::RemoteProcNodeNumOfDevices),
            112 => Some(RemoteProcedure::RemoteProcNodeListDevices),
            113 => Some(RemoteProcedure::RemoteProcNodeDeviceLookupByName),
            114 => Some(RemoteProcedure::RemoteProcNodeDeviceGetXmlDesc),
            115 => Some(RemoteProcedure::RemoteProcNodeDeviceGetParent),
            116 => Some(RemoteProcedure::RemoteProcNodeDeviceNumOfCaps),
            117 => Some(RemoteProcedure::RemoteProcNodeDeviceListCaps),
            118 => Some(RemoteProcedure::RemoteProcNodeDeviceDettach),
            119 => Some(RemoteProcedure::RemoteProcNodeDeviceReAttach),
            120 => Some(RemoteProcedure::RemoteProcNodeDeviceReset),
            121 => Some(RemoteProcedure::RemoteProcDomainGetSecurityLabel),
            122 => Some(RemoteProcedure::RemoteProcNodeGetSecurityModel),
            123 => Some(RemoteProcedure::RemoteProcNodeDeviceCreateXml),
            124 => Some(RemoteProcedure::RemoteProcNodeDeviceDestroy),
            125 => Some(RemoteProcedure::RemoteProcStorageVolCreateXmlFrom),
            126 => Some(RemoteProcedure::RemoteProcConnectNumOfInterfaces),
            127 => Some(RemoteProcedure::RemoteProcConnectListInterfaces),
            128 => Some(RemoteProcedure::RemoteProcInterfaceLookupByName),
            129 => Some(RemoteProcedure::RemoteProcInterfaceLookupByMacString),
            130 => Some(RemoteProcedure::RemoteProcInterfaceGetXmlDesc),
            131 => Some(RemoteProcedure::RemoteProcInterfaceDefineXml),
            132 => Some(RemoteProcedure::RemoteProcInterfaceUndefine),
            133 => Some(RemoteProcedure::RemoteProcInterfaceCreate),
            134 => Some(RemoteProcedure::RemoteProcInterfaceDestroy),
            135 => Some(RemoteProcedure::RemoteProcConnectDomainXmlFromNative),
            136 => Some(RemoteProcedure::RemoteProcConnectDomainXmlToNative),
            137 => Some(RemoteProcedure::RemoteProcConnectNumOfDefinedInterfaces),
            138 => Some(RemoteProcedure::RemoteProcConnectListDefinedInterfaces),
            139 => Some(RemoteProcedure::RemoteProcConnectNumOfSecrets),
            140 => Some(RemoteProcedure::RemoteProcConnectListSecrets),
            141 => Some(RemoteProcedure::RemoteProcSecretLookupByUuid),
            142 => Some(RemoteProcedure::RemoteProcSecretDefineXml),
            143 => Some(RemoteProcedure::RemoteProcSecretGetXmlDesc),
            144 => Some(RemoteProcedure::RemoteProcSecretSetValue),
            145 => Some(RemoteProcedure::RemoteProcSecretGetValue),
            146 => Some(RemoteProcedure::RemoteProcSecretUndefine),
            147 => Some(RemoteProcedure::RemoteProcSecretLookupByUsage),
            148 => Some(RemoteProcedure::RemoteProcDomainMigratePrepareTunnel),
            149 => Some(RemoteProcedure::RemoteProcConnectIsSecure),
            150 => Some(RemoteProcedure::RemoteProcDomainIsActive),
            151 => Some(RemoteProcedure::RemoteProcDomainIsPersistent),
            152 => Some(RemoteProcedure::RemoteProcNetworkIsActive),
            153 => Some(RemoteProcedure::RemoteProcNetworkIsPersistent),
            154 => Some(RemoteProcedure::RemoteProcStoragePoolIsActive),
            155 => Some(RemoteProcedure::RemoteProcStoragePoolIsPersistent),
            156 => Some(RemoteProcedure::RemoteProcInterfaceIsActive),
            157 => Some(RemoteProcedure::RemoteProcConnectGetLibVersion),
            158 => Some(RemoteProcedure::RemoteProcConnectCompareCpu),
            159 => Some(RemoteProcedure::RemoteProcDomainMemoryStats),
            160 => Some(RemoteProcedure::RemoteProcDomainAttachDeviceFlags),
            161 => Some(RemoteProcedure::RemoteProcDomainDetachDeviceFlags),
            162 => Some(RemoteProcedure::RemoteProcConnectBaselineCpu),
            163 => Some(RemoteProcedure::RemoteProcDomainGetJobInfo),
            164 => Some(RemoteProcedure::RemoteProcDomainAbortJob),
            165 => Some(RemoteProcedure::RemoteProcStorageVolWipe),
            166 => Some(RemoteProcedure::RemoteProcDomainMigrateSetMaxDowntime),
            167 => Some(RemoteProcedure::RemoteProcConnectDomainEventRegisterAny),
            168 => Some(RemoteProcedure::RemoteProcConnectDomainEventDeregisterAny),
            169 => Some(RemoteProcedure::RemoteProcDomainEventReboot),
            170 => Some(RemoteProcedure::RemoteProcDomainEventRtcChange),
            171 => Some(RemoteProcedure::RemoteProcDomainEventWatchdog),
            172 => Some(RemoteProcedure::RemoteProcDomainEventIoError),
            173 => Some(RemoteProcedure::RemoteProcDomainEventGraphics),
            174 => Some(RemoteProcedure::RemoteProcDomainUpdateDeviceFlags),
            175 => Some(RemoteProcedure::RemoteProcNwfilterLookupByName),
            176 => Some(RemoteProcedure::RemoteProcNwfilterLookupByUuid),
            177 => Some(RemoteProcedure::RemoteProcNwfilterGetXmlDesc),
            178 => Some(RemoteProcedure::RemoteProcConnectNumOfNwfilters),
            179 => Some(RemoteProcedure::RemoteProcConnectListNwfilters),
            180 => Some(RemoteProcedure::RemoteProcNwfilterDefineXml),
            181 => Some(RemoteProcedure::RemoteProcNwfilterUndefine),
            182 => Some(RemoteProcedure::RemoteProcDomainManagedSave),
            183 => Some(RemoteProcedure::RemoteProcDomainHasManagedSaveImage),
            184 => Some(RemoteProcedure::RemoteProcDomainManagedSaveRemove),
            185 => Some(RemoteProcedure::RemoteProcDomainSnapshotCreateXml),
            186 => Some(RemoteProcedure::RemoteProcDomainSnapshotGetXmlDesc),
            187 => Some(RemoteProcedure::RemoteProcDomainSnapshotNum),
            188 => Some(RemoteProcedure::RemoteProcDomainSnapshotListNames),
            189 => Some(RemoteProcedure::RemoteProcDomainSnapshotLookupByName),
            190 => Some(RemoteProcedure::RemoteProcDomainHasCurrentSnapshot),
            191 => Some(RemoteProcedure::RemoteProcDomainSnapshotCurrent),
            192 => Some(RemoteProcedure::RemoteProcDomainRevertToSnapshot),
            193 => Some(RemoteProcedure::RemoteProcDomainSnapshotDelete),
            194 => Some(RemoteProcedure::RemoteProcDomainGetBlockInfo),
            195 => Some(RemoteProcedure::RemoteProcDomainEventIoErrorReason),
            196 => Some(RemoteProcedure::RemoteProcDomainCreateWithFlags),
            197 => Some(RemoteProcedure::RemoteProcDomainSetMemoryParameters),
            198 => Some(RemoteProcedure::RemoteProcDomainGetMemoryParameters),
            199 => Some(RemoteProcedure::RemoteProcDomainSetVcpusFlags),
            200 => Some(RemoteProcedure::RemoteProcDomainGetVcpusFlags),
            201 => Some(RemoteProcedure::RemoteProcDomainOpenConsole),
            202 => Some(RemoteProcedure::RemoteProcDomainIsUpdated),
            203 => Some(RemoteProcedure::RemoteProcConnectGetSysinfo),
            204 => Some(RemoteProcedure::RemoteProcDomainSetMemoryFlags),
            205 => Some(RemoteProcedure::RemoteProcDomainSetBlkioParameters),
            206 => Some(RemoteProcedure::RemoteProcDomainGetBlkioParameters),
            207 => Some(RemoteProcedure::RemoteProcDomainMigrateSetMaxSpeed),
            208 => Some(RemoteProcedure::RemoteProcStorageVolUpload),
            209 => Some(RemoteProcedure::RemoteProcStorageVolDownload),
            210 => Some(RemoteProcedure::RemoteProcDomainInjectNmi),
            211 => Some(RemoteProcedure::RemoteProcDomainScreenshot),
            212 => Some(RemoteProcedure::RemoteProcDomainGetState),
            213 => Some(RemoteProcedure::RemoteProcDomainMigrateBegin3),
            214 => Some(RemoteProcedure::RemoteProcDomainMigratePrepare3),
            215 => Some(RemoteProcedure::RemoteProcDomainMigratePrepareTunnel3),
            216 => Some(RemoteProcedure::RemoteProcDomainMigratePerform3),
            217 => Some(RemoteProcedure::RemoteProcDomainMigrateFinish3),
            218 => Some(RemoteProcedure::RemoteProcDomainMigrateConfirm3),
            219 => Some(RemoteProcedure::RemoteProcDomainSetSchedulerParametersFlags),
            220 => Some(RemoteProcedure::RemoteProcInterfaceChangeBegin),
            221 => Some(RemoteProcedure::RemoteProcInterfaceChangeCommit),
            222 => Some(RemoteProcedure::RemoteProcInterfaceChangeRollback),
            223 => Some(RemoteProcedure::RemoteProcDomainGetSchedulerParametersFlags),
            224 => Some(RemoteProcedure::RemoteProcDomainEventControlError),
            225 => Some(RemoteProcedure::RemoteProcDomainPinVcpuFlags),
            226 => Some(RemoteProcedure::RemoteProcDomainSendKey),
            227 => Some(RemoteProcedure::RemoteProcNodeGetCpuStats),
            228 => Some(RemoteProcedure::RemoteProcNodeGetMemoryStats),
            229 => Some(RemoteProcedure::RemoteProcDomainGetControlInfo),
            230 => Some(RemoteProcedure::RemoteProcDomainGetVcpuPinInfo),
            231 => Some(RemoteProcedure::RemoteProcDomainUndefineFlags),
            232 => Some(RemoteProcedure::RemoteProcDomainSaveFlags),
            233 => Some(RemoteProcedure::RemoteProcDomainRestoreFlags),
            234 => Some(RemoteProcedure::RemoteProcDomainDestroyFlags),
            235 => Some(RemoteProcedure::RemoteProcDomainSaveImageGetXmlDesc),
            236 => Some(RemoteProcedure::RemoteProcDomainSaveImageDefineXml),
            237 => Some(RemoteProcedure::RemoteProcDomainBlockJobAbort),
            238 => Some(RemoteProcedure::RemoteProcDomainGetBlockJobInfo),
            239 => Some(RemoteProcedure::RemoteProcDomainBlockJobSetSpeed),
            240 => Some(RemoteProcedure::RemoteProcDomainBlockPull),
            241 => Some(RemoteProcedure::RemoteProcDomainEventBlockJob),
            242 => Some(RemoteProcedure::RemoteProcDomainMigrateGetMaxSpeed),
            243 => Some(RemoteProcedure::RemoteProcDomainBlockStatsFlags),
            244 => Some(RemoteProcedure::RemoteProcDomainSnapshotGetParent),
            245 => Some(RemoteProcedure::RemoteProcDomainReset),
            246 => Some(RemoteProcedure::RemoteProcDomainSnapshotNumChildren),
            247 => Some(RemoteProcedure::RemoteProcDomainSnapshotListChildrenNames),
            248 => Some(RemoteProcedure::RemoteProcDomainEventDiskChange),
            249 => Some(RemoteProcedure::RemoteProcDomainOpenGraphics),
            250 => Some(RemoteProcedure::RemoteProcNodeSuspendForDuration),
            251 => Some(RemoteProcedure::RemoteProcDomainBlockResize),
            252 => Some(RemoteProcedure::RemoteProcDomainSetBlockIoTune),
            253 => Some(RemoteProcedure::RemoteProcDomainGetBlockIoTune),
            254 => Some(RemoteProcedure::RemoteProcDomainSetNumaParameters),
            255 => Some(RemoteProcedure::RemoteProcDomainGetNumaParameters),
            256 => Some(RemoteProcedure::RemoteProcDomainSetInterfaceParameters),
            257 => Some(RemoteProcedure::RemoteProcDomainGetInterfaceParameters),
            258 => Some(RemoteProcedure::RemoteProcDomainShutdownFlags),
            259 => Some(RemoteProcedure::RemoteProcStorageVolWipePattern),
            260 => Some(RemoteProcedure::RemoteProcStorageVolResize),
            261 => Some(RemoteProcedure::RemoteProcDomainPmSuspendForDuration),
            262 => Some(RemoteProcedure::RemoteProcDomainGetCpuStats),
            263 => Some(RemoteProcedure::RemoteProcDomainGetDiskErrors),
            264 => Some(RemoteProcedure::RemoteProcDomainSetMetadata),
            265 => Some(RemoteProcedure::RemoteProcDomainGetMetadata),
            266 => Some(RemoteProcedure::RemoteProcDomainBlockRebase),
            267 => Some(RemoteProcedure::RemoteProcDomainPmWakeup),
            268 => Some(RemoteProcedure::RemoteProcDomainEventTrayChange),
            269 => Some(RemoteProcedure::RemoteProcDomainEventPmwakeup),
            270 => Some(RemoteProcedure::RemoteProcDomainEventPmsuspend),
            271 => Some(RemoteProcedure::RemoteProcDomainSnapshotIsCurrent),
            272 => Some(RemoteProcedure::RemoteProcDomainSnapshotHasMetadata),
            273 => Some(RemoteProcedure::RemoteProcConnectListAllDomains),
            274 => Some(RemoteProcedure::RemoteProcDomainListAllSnapshots),
            275 => Some(RemoteProcedure::RemoteProcDomainSnapshotListAllChildren),
            276 => Some(RemoteProcedure::RemoteProcDomainEventBalloonChange),
            277 => Some(RemoteProcedure::RemoteProcDomainGetHostname),
            278 => Some(RemoteProcedure::RemoteProcDomainGetSecurityLabelList),
            279 => Some(RemoteProcedure::RemoteProcDomainPinEmulator),
            280 => Some(RemoteProcedure::RemoteProcDomainGetEmulatorPinInfo),
            281 => Some(RemoteProcedure::RemoteProcConnectListAllStoragePools),
            282 => Some(RemoteProcedure::RemoteProcStoragePoolListAllVolumes),
            283 => Some(RemoteProcedure::RemoteProcConnectListAllNetworks),
            284 => Some(RemoteProcedure::RemoteProcConnectListAllInterfaces),
            285 => Some(RemoteProcedure::RemoteProcConnectListAllNodeDevices),
            286 => Some(RemoteProcedure::RemoteProcConnectListAllNwfilters),
            287 => Some(RemoteProcedure::RemoteProcConnectListAllSecrets),
            288 => Some(RemoteProcedure::RemoteProcNodeSetMemoryParameters),
            289 => Some(RemoteProcedure::RemoteProcNodeGetMemoryParameters),
            290 => Some(RemoteProcedure::RemoteProcDomainBlockCommit),
            291 => Some(RemoteProcedure::RemoteProcNetworkUpdate),
            292 => Some(RemoteProcedure::RemoteProcDomainEventPmsuspendDisk),
            293 => Some(RemoteProcedure::RemoteProcNodeGetCpuMap),
            294 => Some(RemoteProcedure::RemoteProcDomainFstrim),
            295 => Some(RemoteProcedure::RemoteProcDomainSendProcessSignal),
            296 => Some(RemoteProcedure::RemoteProcDomainOpenChannel),
            297 => Some(RemoteProcedure::RemoteProcNodeDeviceLookupScsiHostByWwn),
            298 => Some(RemoteProcedure::RemoteProcDomainGetJobStats),
            299 => Some(RemoteProcedure::RemoteProcDomainMigrateGetCompressionCache),
            300 => Some(RemoteProcedure::RemoteProcDomainMigrateSetCompressionCache),
            301 => Some(RemoteProcedure::RemoteProcNodeDeviceDetachFlags),
            302 => Some(RemoteProcedure::RemoteProcDomainMigrateBegin3Params),
            303 => Some(RemoteProcedure::RemoteProcDomainMigratePrepare3Params),
            304 => Some(RemoteProcedure::RemoteProcDomainMigratePrepareTunnel3Params),
            305 => Some(RemoteProcedure::RemoteProcDomainMigratePerform3Params),
            306 => Some(RemoteProcedure::RemoteProcDomainMigrateFinish3Params),
            307 => Some(RemoteProcedure::RemoteProcDomainMigrateConfirm3Params),
            308 => Some(RemoteProcedure::RemoteProcDomainSetMemoryStatsPeriod),
            309 => Some(RemoteProcedure::RemoteProcDomainCreateXmlWithFiles),
            310 => Some(RemoteProcedure::RemoteProcDomainCreateWithFiles),
            311 => Some(RemoteProcedure::RemoteProcDomainEventDeviceRemoved),
            312 => Some(RemoteProcedure::RemoteProcConnectGetCpuModelNames),
            313 => Some(RemoteProcedure::RemoteProcConnectNetworkEventRegisterAny),
            314 => Some(RemoteProcedure::RemoteProcConnectNetworkEventDeregisterAny),
            315 => Some(RemoteProcedure::RemoteProcNetworkEventLifecycle),
            316 => Some(RemoteProcedure::RemoteProcConnectDomainEventCallbackRegisterAny),
            317 => Some(RemoteProcedure::RemoteProcConnectDomainEventCallbackDeregisterAny),
            318 => Some(RemoteProcedure::RemoteProcDomainEventCallbackLifecycle),
            319 => Some(RemoteProcedure::RemoteProcDomainEventCallbackReboot),
            320 => Some(RemoteProcedure::RemoteProcDomainEventCallbackRtcChange),
            321 => Some(RemoteProcedure::RemoteProcDomainEventCallbackWatchdog),
            322 => Some(RemoteProcedure::RemoteProcDomainEventCallbackIoError),
            323 => Some(RemoteProcedure::RemoteProcDomainEventCallbackGraphics),
            324 => Some(RemoteProcedure::RemoteProcDomainEventCallbackIoErrorReason),
            325 => Some(RemoteProcedure::RemoteProcDomainEventCallbackControlError),
            326 => Some(RemoteProcedure::RemoteProcDomainEventCallbackBlockJob),
            327 => Some(RemoteProcedure::RemoteProcDomainEventCallbackDiskChange),
            328 => Some(RemoteProcedure::RemoteProcDomainEventCallbackTrayChange),
            329 => Some(RemoteProcedure::RemoteProcDomainEventCallbackPmwakeup),
            330 => Some(RemoteProcedure::RemoteProcDomainEventCallbackPmsuspend),
            331 => Some(RemoteProcedure::RemoteProcDomainEventCallbackBalloonChange),
            332 => Some(RemoteProcedure::RemoteProcDomainEventCallbackPmsuspendDisk),
            333 => Some(RemoteProcedure::RemoteProcDomainEventCallbackDeviceRemoved),
            334 => Some(RemoteProcedure::RemoteProcDomainCoreDumpWithFormat),
            335 => Some(RemoteProcedure::RemoteProcDomainFsfreeze),
            336 => Some(RemoteProcedure::RemoteProcDomainFsthaw),
            337 => Some(RemoteProcedure::RemoteProcDomainGetTime),
            338 => Some(RemoteProcedure::RemoteProcDomainSetTime),
            339 => Some(RemoteProcedure::RemoteProcDomainEventBlockJob2),
            340 => Some(RemoteProcedure::RemoteProcNodeGetFreePages),
            341 => Some(RemoteProcedure::RemoteProcNetworkGetDhcpLeases),
            342 => Some(RemoteProcedure::RemoteProcConnectGetDomainCapabilities),
            343 => Some(RemoteProcedure::RemoteProcDomainOpenGraphicsFd),
            344 => Some(RemoteProcedure::RemoteProcConnectGetAllDomainStats),
            345 => Some(RemoteProcedure::RemoteProcDomainBlockCopy),
            346 => Some(RemoteProcedure::RemoteProcDomainEventCallbackTunable),
            347 => Some(RemoteProcedure::RemoteProcNodeAllocPages),
            348 => Some(RemoteProcedure::RemoteProcDomainEventCallbackAgentLifecycle),
            349 => Some(RemoteProcedure::RemoteProcDomainGetFsinfo),
            350 => Some(RemoteProcedure::RemoteProcDomainDefineXmlFlags),
            351 => Some(RemoteProcedure::RemoteProcDomainGetIothreadInfo),
            352 => Some(RemoteProcedure::RemoteProcDomainPinIothread),
            353 => Some(RemoteProcedure::RemoteProcDomainInterfaceAddresses),
            354 => Some(RemoteProcedure::RemoteProcDomainEventCallbackDeviceAdded),
            355 => Some(RemoteProcedure::RemoteProcDomainAddIothread),
            356 => Some(RemoteProcedure::RemoteProcDomainDelIothread),
            357 => Some(RemoteProcedure::RemoteProcDomainSetUserPassword),
            358 => Some(RemoteProcedure::RemoteProcDomainRename),
            359 => Some(RemoteProcedure::RemoteProcDomainEventCallbackMigrationIteration),
            360 => Some(RemoteProcedure::RemoteProcConnectRegisterCloseCallback),
            361 => Some(RemoteProcedure::RemoteProcConnectUnregisterCloseCallback),
            362 => Some(RemoteProcedure::RemoteProcConnectEventConnectionClosed),
            363 => Some(RemoteProcedure::RemoteProcDomainEventCallbackJobCompleted),
            364 => Some(RemoteProcedure::RemoteProcDomainMigrateStartPostCopy),
            365 => Some(RemoteProcedure::RemoteProcDomainGetPerfEvents),
            366 => Some(RemoteProcedure::RemoteProcDomainSetPerfEvents),
            367 => Some(RemoteProcedure::RemoteProcDomainEventCallbackDeviceRemovalFailed),
            368 => Some(RemoteProcedure::RemoteProcConnectStoragePoolEventRegisterAny),
            369 => Some(RemoteProcedure::RemoteProcConnectStoragePoolEventDeregisterAny),
            370 => Some(RemoteProcedure::RemoteProcStoragePoolEventLifecycle),
            371 => Some(RemoteProcedure::RemoteProcDomainGetGuestVcpus),
            372 => Some(RemoteProcedure::RemoteProcDomainSetGuestVcpus),
            373 => Some(RemoteProcedure::RemoteProcStoragePoolEventRefresh),
            374 => Some(RemoteProcedure::RemoteProcConnectNodeDeviceEventRegisterAny),
            375 => Some(RemoteProcedure::RemoteProcConnectNodeDeviceEventDeregisterAny),
            376 => Some(RemoteProcedure::RemoteProcNodeDeviceEventLifecycle),
            377 => Some(RemoteProcedure::RemoteProcNodeDeviceEventUpdate),
            378 => Some(RemoteProcedure::RemoteProcStorageVolGetInfoFlags),
            379 => Some(RemoteProcedure::RemoteProcDomainEventCallbackMetadataChange),
            380 => Some(RemoteProcedure::RemoteProcConnectSecretEventRegisterAny),
            381 => Some(RemoteProcedure::RemoteProcConnectSecretEventDeregisterAny),
            382 => Some(RemoteProcedure::RemoteProcSecretEventLifecycle),
            383 => Some(RemoteProcedure::RemoteProcSecretEventValueChanged),
            384 => Some(RemoteProcedure::RemoteProcDomainSetVcpu),
            385 => Some(RemoteProcedure::RemoteProcDomainEventBlockThreshold),
            386 => Some(RemoteProcedure::RemoteProcDomainSetBlockThreshold),
            387 => Some(RemoteProcedure::RemoteProcDomainMigrateGetMaxDowntime),
            388 => Some(RemoteProcedure::RemoteProcDomainManagedSaveGetXmlDesc),
            389 => Some(RemoteProcedure::RemoteProcDomainManagedSaveDefineXml),
            390 => Some(RemoteProcedure::RemoteProcDomainSetLifecycleAction),
            391 => Some(RemoteProcedure::RemoteProcStoragePoolLookupByTargetPath),
            392 => Some(RemoteProcedure::RemoteProcDomainDetachDeviceAlias),
            393 => Some(RemoteProcedure::RemoteProcConnectCompareHypervisorCpu),
            394 => Some(RemoteProcedure::RemoteProcConnectBaselineHypervisorCpu),
            395 => Some(RemoteProcedure::RemoteProcNodeGetSevInfo),
            396 => Some(RemoteProcedure::RemoteProcDomainGetLaunchSecurityInfo),
            397 => Some(RemoteProcedure::RemoteProcNwfilterBindingLookupByPortDev),
            398 => Some(RemoteProcedure::RemoteProcNwfilterBindingGetXmlDesc),
            399 => Some(RemoteProcedure::RemoteProcNwfilterBindingCreateXml),
            400 => Some(RemoteProcedure::RemoteProcNwfilterBindingDelete),
            401 => Some(RemoteProcedure::RemoteProcConnectListAllNwfilterBindings),
            402 => Some(RemoteProcedure::RemoteProcDomainSetIothreadParams),
            403 => Some(RemoteProcedure::RemoteProcConnectGetStoragePoolCapabilities),
            404 => Some(RemoteProcedure::RemoteProcNetworkListAllPorts),
            405 => Some(RemoteProcedure::RemoteProcNetworkPortLookupByUuid),
            406 => Some(RemoteProcedure::RemoteProcNetworkPortCreateXml),
            407 => Some(RemoteProcedure::RemoteProcNetworkPortGetParameters),
            408 => Some(RemoteProcedure::RemoteProcNetworkPortSetParameters),
            409 => Some(RemoteProcedure::RemoteProcNetworkPortGetXmlDesc),
            410 => Some(RemoteProcedure::RemoteProcNetworkPortDelete),
            411 => Some(RemoteProcedure::RemoteProcDomainCheckpointCreateXml),
            412 => Some(RemoteProcedure::RemoteProcDomainCheckpointGetXmlDesc),
            413 => Some(RemoteProcedure::RemoteProcDomainListAllCheckpoints),
            414 => Some(RemoteProcedure::RemoteProcDomainCheckpointListAllChildren),
            415 => Some(RemoteProcedure::RemoteProcDomainCheckpointLookupByName),
            416 => Some(RemoteProcedure::RemoteProcDomainCheckpointGetParent),
            417 => Some(RemoteProcedure::RemoteProcDomainCheckpointDelete),
            418 => Some(RemoteProcedure::RemoteProcDomainGetGuestInfo),
            419 => Some(RemoteProcedure::RemoteProcConnectSetIdentity),
            420 => Some(RemoteProcedure::RemoteProcDomainAgentSetResponseTimeout),
            421 => Some(RemoteProcedure::RemoteProcDomainBackupBegin),
            422 => Some(RemoteProcedure::RemoteProcDomainBackupGetXmlDesc),
            423 => Some(RemoteProcedure::RemoteProcDomainEventMemoryFailure),
            424 => Some(RemoteProcedure::RemoteProcDomainAuthorizedSshKeysGet),
            425 => Some(RemoteProcedure::RemoteProcDomainAuthorizedSshKeysSet),
            426 => Some(RemoteProcedure::RemoteProcDomainGetMessages),
            427 => Some(RemoteProcedure::RemoteProcDomainStartDirtyRateCalc),
            428 => Some(RemoteProcedure::RemoteProcNodeDeviceDefineXml),
            429 => Some(RemoteProcedure::RemoteProcNodeDeviceUndefine),
            430 => Some(RemoteProcedure::RemoteProcNodeDeviceCreate),
            431 => Some(RemoteProcedure::RemoteProcNwfilterDefineXmlFlags),
            432 => Some(RemoteProcedure::RemoteProcNetworkDefineXmlFlags),
            433 => Some(RemoteProcedure::RemoteProcNodeDeviceGetAutostart),
            434 => Some(RemoteProcedure::RemoteProcNodeDeviceSetAutostart),
            435 => Some(RemoteProcedure::RemoteProcNodeDeviceIsPersistent),
            436 => Some(RemoteProcedure::RemoteProcNodeDeviceIsActive),
            437 => Some(RemoteProcedure::RemoteProcNetworkCreateXmlFlags),
            438 => Some(RemoteProcedure::RemoteProcDomainEventMemoryDeviceSizeChange),
            439 => Some(RemoteProcedure::RemoteProcDomainSetLaunchSecurityState),
            _ => None,
        }
    }
}

/// The number by which an authentication type travels.
pub open spec fn auth_type_code(a: RemoteAuthType) -> i32 {
    match a {
        RemoteAuthType::RemoteAuthNone => 0,
        RemoteAuthType::RemoteAuthSasl => 1,
        RemoteAuthType::RemoteAuthPolkit => 2,
    }
}

/// The authentication type that travels as `n`, if any.
pub open spec fn auth_type_of_code(n: i32) -> Option<RemoteAuthType> {
    if n == 0 {
        Some(RemoteAuthType::RemoteAuthNone)
    } else if n == 1 {
        Some(RemoteAuthType::RemoteAuthSasl)
    } else if n == 2 {
        Some(RemoteAuthType::RemoteAuthPolkit)
    } else {
        None
    }
}

impl RemoteAuthType {
    pub fn code(&self) -> (r: i32)
        ensures
            r == auth_type_code(*self),
    {
        match self {
            RemoteAuthType::RemoteAuthNone => 0,
            RemoteAuthType::RemoteAuthSasl => 1,
            RemoteAuthType::RemoteAuthPolkit => 2,
        }
    }

    pub fn from_code(n: i32) -> (r: Option<RemoteAuthType>)
        ensures
            r == auth_type_of_code(n),
    {
        if n == 0 {
            Some(RemoteAuthType::RemoteAuthNone)
        } else if n == 1 {
            Some(RemoteAuthType::RemoteAuthSasl)
        } else if n == 2 {
            Some(RemoteAuthType::RemoteAuthPolkit)
        } else {
            None
        }
    }
}

/// Every authentication type reads back from its code, and every code that
/// names a type is that type's code.
pub proof fn lemma_auth_type_code_roundtrip(a: RemoteAuthType, n: i32)
    ensures
        auth_type_of_code(auth_type_code(a)) == Some(a),
        auth_type_of_code(n) matches Some(b) ==> auth_type_code(b) == n,
{
}

/// Procedure numbers run from 0 to 439 and name each procedure once: a
/// procedure reads back from its number, and a number that names a procedure
/// is that procedure's number.
#[verifier::rlimit(100)]
pub proof fn lemma_procedure_number_roundtrip(p: RemoteProcedure, n: i32)
    ensures
        0 <= procedure_number(p) < 440,
        procedure_of_number(procedure_number(p)) == Some(p),
        procedure_of_number(n) is Some <==> 0 <= n < 440,
        procedure_of_number(n) matches Some(q) ==> procedure_number(q) == n,
{
}


/// Each procedure is called by the number the remote protocol declares for
/// it: the procedures are numbered in the order they are declared, from 0.
#[verifier::rlimit(100)]
pub proof fn lemma_procedure_numbers_declared()
    ensures
        procedure_number(RemoteProcedure::_Reserved0) == 0,
        procedure_number(RemoteProcedure::RemoteProcConnectOpen) == 1,
        procedure_number(RemoteProcedure::RemoteProcConnectClose) == 2,
        procedure_number(RemoteProcedure::RemoteProcConnectGetType) == 3,
        procedure_number(RemoteProcedure::RemoteProcConnectGetVersion) == 4,
        procedure_number(RemoteProcedure::RemoteProcConnectGetMaxVcpus) == 5,
        procedure_number(RemoteProcedure::RemoteProcNodeGetInfo) == 6,
        procedure_number(RemoteProcedure::RemoteProcConnectGetCapabilities) == 7,
        procedure_number(RemoteProcedure::RemoteProcDomainAttachDevice) == 8,
        procedure_number(RemoteProcedure::RemoteProcDomainCreate) == 9,
        procedure_number(RemoteProcedure::RemoteProcDomainCreateXml) == 10,
        procedure_number(RemoteProcedure::RemoteProcDomainDefineXml) == 11,
        procedure_number(RemoteProcedure::RemoteProcDomainDestroy) == 12,
        procedure_number(RemoteProcedure::RemoteProcDomainDetachDevice) == 13,
        procedure_number(RemoteProcedure::RemoteProcDomainGetXmlDesc) == 14,
        procedure_number(RemoteProcedure::RemoteProcDomainGetAutostart) == 15,
        procedure_number(RemoteProcedure::RemoteProcDomainGetInfo) == 16,
        procedure_number(RemoteProcedure::RemoteProcDomainGetMaxMemory) == 17,
        procedure_number(RemoteProcedure::RemoteProcDomainGetMaxVcpus) == 18,
        procedure_number(RemoteProcedure::RemoteProcDomainGetOsType) == 19,
        procedure_number(RemoteProcedure::RemoteProcDomainGetVcpus) == 20,
        procedure_number(RemoteProcedure::RemoteProcConnectListDefinedDomains) == 21,
        procedure_number(RemoteProcedure::RemoteProcDomainLookupById) == 22,
        procedure_number(RemoteProcedure::RemoteProcDomainLookupByName) == 23,
        procedure_number(RemoteProcedure::RemoteProcDomainLookupByUuid) == 24,
        procedure_number(RemoteProcedure::RemoteProcConnectNumOfDefinedDomains) == 25,
        procedure_number(RemoteProcedure::RemoteProcDomainPinVcpu) == 26,
        procedure_number(RemoteProcedure::RemoteProcDomainReboot) == 27,
        procedure_number(RemoteProcedure::RemoteProcDomainResume) == 28,
        procedure_number(RemoteProcedure::RemoteProcDomainSetAutostart) == 29,
        procedure_number(RemoteProcedure::RemoteProcDomainSetMaxMemory) == 30,
        procedure_number(RemoteProcedure::RemoteProcDomainSetMemory) == 31,
        procedure_number(RemoteProcedure::RemoteProcDomainSetVcpus) == 32,
        procedure_number(RemoteProcedure::RemoteProcDomainShutdown) == 33,
        procedure_number(RemoteProcedure::RemoteProcDomainSuspend) == 34,
        procedure_number(RemoteProcedure::RemoteProcDomainUndefine) == 35,
        procedure_number(RemoteProcedure::RemoteProcConnectListDefinedNetworks) == 36,
        procedure_number(RemoteProcedure::RemoteProcConnectListDomains) == 37,
        procedure_number(RemoteProcedure::RemoteProcConnectListNetworks) == 38,
        procedure_number(RemoteProcedure::RemoteProcNetworkCreate) == 39,
        procedure_number(RemoteProcedure::RemoteProcNetworkCreateXml) == 40,
        procedure_number(RemoteProcedure::RemoteProcNetworkDefineXml) == 41,
        procedure_number(RemoteProcedure::RemoteProcNetworkDestroy) == 42,
        procedure_number(RemoteProcedure::RemoteProcNetworkGetXmlDesc) == 43,
        procedure_number(RemoteProcedure::RemoteProcNetworkGetAutostart) == 44,
        procedure_number(RemoteProcedure::RemoteProcNetworkGetBridgeName) == 45,
        procedure_number(RemoteProcedure::RemoteProcNetworkLookupByName) == 46,
        procedure_number(RemoteProcedure::RemoteProcNetworkLookupByUuid) == 47,
        procedure_number(RemoteProcedure::RemoteProcNetworkSetAutostart) == 48,
        procedure_number(RemoteProcedure::RemoteProcNetworkUndefine) == 49,
        procedure_number(RemoteProcedure::RemoteProcConnectNumOfDefinedNetworks) == 50,
        procedure_number(RemoteProcedure::RemoteProcConnectNumOfDomains) == 51,
        procedure_number(RemoteProcedure::RemoteProcConnectNumOfNetworks) == 52,
        procedure_number(RemoteProcedure::RemoteProcDomainCoreDump) == 53,
        procedure_number(RemoteProcedure::RemoteProcDomainRestore) == 54,
        procedure_number(RemoteProcedure::RemoteProcDomainSave) == 55,
        procedure_number(RemoteProcedure::RemoteProcDomainGetSchedulerType) == 56,
        procedure_number(RemoteProcedure::RemoteProcDomainGetSchedulerParameters) == 57,
        procedure_number(RemoteProcedure::RemoteProcDomainSetSchedulerParameters) == 58,
        procedure_number(RemoteProcedure::RemoteProcConnectGetHostname) == 59,
        procedure_number(RemoteProcedure::RemoteProcConnectSupportsFeature) == 60,
        procedure_number(RemoteProcedure::RemoteProcDomainMigratePrepare) == 61,
        procedure_number(RemoteProcedure::RemoteProcDomainMigratePerform) == 62,
        procedure_number(RemoteProcedure::RemoteProcDomainMigrateFinish) == 63,
        procedure_number(RemoteProcedure::RemoteProcDomainBlockStats) == 64,
        procedure_number(RemoteProcedure::RemoteProcDomainInterfaceStats) == 65,
        procedure_number(RemoteProcedure::RemoteProcAuthList) == 66,
        procedure_number(RemoteProcedure::RemoteProcAuthSaslInit) == 67,
        procedure_number(RemoteProcedure::RemoteProcAuthSaslStart) == 68,
        procedure_number(RemoteProcedure::RemoteProcAuthSaslStep) == 69,
        procedure_number(RemoteProcedure::RemoteProcAuthPolkit) == 70,
        procedure_number(RemoteProcedure::RemoteProcConnectNumOfStoragePools) == 71,
        procedure_number(RemoteProcedure::RemoteProcConnectListStoragePools) == 72,
        procedure_number(RemoteProcedure::RemoteProcConnectNumOfDefinedStoragePools) == 73,
        procedure_number(RemoteProcedure::RemoteProcConnectListDefinedStoragePools) == 74,
        procedure_number(RemoteProcedure::RemoteProcConnectFindStoragePoolSources) == 75,
        procedure_number(RemoteProcedure::RemoteProcStoragePoolCreateXml) == 76,
        procedure_number(RemoteProcedure::RemoteProcStoragePoolDefineXml) == 77,
        procedure_number(RemoteProcedure::RemoteProcStoragePoolCreate) == 78,
        procedure_number(RemoteProcedure::RemoteProcStoragePoolBuild) == 79,
        procedure_number(RemoteProcedure::RemoteProcStoragePoolDestroy) == 80,
        procedure_number(RemoteProcedure::RemoteProcStoragePoolDelete) == 81,
        procedure_number(RemoteProcedure::RemoteProcStoragePoolUndefine) == 82,
        procedure_number(RemoteProcedure::RemoteProcStoragePoolRefresh) == 83,
        procedure_number(RemoteProcedure::RemoteProcStoragePoolLookupByName) == 84,
        procedure_number(RemoteProcedure::RemoteProcStoragePoolLookupByUuid) == 85,
        procedure_number(RemoteProcedure::RemoteProcStoragePoolLookupByVolume) == 86,
        procedure_number(RemoteProcedure::RemoteProcStoragePoolGetInfo) == 87,
        procedure_number(RemoteProcedure::RemoteProcStoragePoolGetXmlDesc) == 88,
        procedure_number(RemoteProcedure::RemoteProcStoragePoolGetAutostart) == 89,
        procedure_number(RemoteProcedure::RemoteProcStoragePoolSetAutostart) == 90,
        procedure_number(RemoteProcedure::RemoteProcStoragePoolNumOfVolumes) == 91,
        procedure_number(RemoteProcedure::RemoteProcStoragePoolListVolumes) == 92,
        procedure_number(RemoteProcedure::RemoteProcStorageVolCreateXml) == 93,
        procedure_number(RemoteProcedure::RemoteProcStorageVolDelete) == 94,
        procedure_number(RemoteProcedure::RemoteProcStorageVolLookupByName) == 95,
        procedure_number(RemoteProcedure::RemoteProcStorageVolLookupByKey) == 96,
        procedure_number(RemoteProcedure::RemoteProcStorageVolLookupByPath) == 97,
        procedure_number(RemoteProcedure::RemoteProcStorageVolGetInfo) == 98,
        procedure_number(RemoteProcedure::RemoteProcStorageVolGetXmlDesc) == 99,
        procedure_number(RemoteProcedure::RemoteProcStorageVolGetPath) == 100,
        procedure_number(RemoteProcedure::RemoteProcNodeGetCellsFreeMemory) == 101,
        procedure_number(RemoteProcedure::RemoteProcNodeGetFreeMemory) == 102,
        procedure_number(RemoteProcedure::RemoteProcDomainBlockPeek) == 103,
        procedure_number(RemoteProcedure::RemoteProcDomainMemoryPeek) == 104,
        procedure_number(RemoteProcedure::RemoteProcConnectDomainEventRegister) == 105,
        procedure_number(RemoteProcedure::RemoteProcConnectDomainEventDeregister) == 106,
        procedure_number(RemoteProcedure::RemoteProcDomainEventLifecycle) == 107,
        procedure_number(RemoteProcedure::RemoteProcDomainMigratePrepare2) == 108,
        procedure_number(RemoteProcedure::RemoteProcDomainMigrateFinish2) == 109,
        procedure_number(RemoteProcedure::RemoteProcConnectGetUri) == 110,
        procedure_number(RemoteProcedure::RemoteProcNodeNumOfDevices) == 111,
        procedure_number(RemoteProcedure::RemoteProcNodeListDevices) == 112,
        procedure_number(RemoteProcedure::RemoteProcNodeDeviceLookupByName) == 113,
        procedure_number(RemoteProcedure::RemoteProcNodeDeviceGetXmlDesc) == 114,
        procedure_number(RemoteProcedure::RemoteProcNodeDeviceGetParent) == 115,
        procedure_number(RemoteProcedure::RemoteProcNodeDeviceNumOfCaps) == 116,
        procedure_number(RemoteProcedure::RemoteProcNodeDeviceListCaps) == 117,
        procedure_number(RemoteProcedure::RemoteProcNodeDeviceDettach) == 118,
        procedure_number(RemoteProcedure::RemoteProcNodeDeviceReAttach) == 119,
        procedure_number(RemoteProcedure::RemoteProcNodeDeviceReset) == 120,
        procedure_number(RemoteProcedure::RemoteProcDomainGetSecurityLabel) == 121,
        procedure_number(RemoteProcedure::RemoteProcNodeGetSecurityModel) == 122,
        procedure_number(RemoteProcedure::RemoteProcNodeDeviceCreateXml) == 123,
        procedure_number(RemoteProcedure::RemoteProcNodeDeviceDestroy) == 124,
        procedure_number(RemoteProcedure::RemoteProcStorageVolCreateXmlFrom) == 125,
        procedure_number(RemoteProcedure::RemoteProcConnectNumOfInterfaces) == 126,
        procedure_number(RemoteProcedure::RemoteProcConnectListInterfaces) == 127,
        procedure_number(RemoteProcedure::RemoteProcInterfaceLookupByName) == 128,
        procedure_number(RemoteProcedure::RemoteProcInterfaceLookupByMacString) == 129,
        procedure_number(RemoteProcedure::RemoteProcInterfaceGetXmlDesc) == 130,
        procedure_number(RemoteProcedure::RemoteProcInterfaceDefineXml) == 131,
        procedure_number(RemoteProcedure::RemoteProcInterfaceUndefine) == 132,
        procedure_number(RemoteProcedure::RemoteProcInterfaceCreate) == 133,
        procedure_number(RemoteProcedure::RemoteProcInterfaceDestroy) == 134,
        procedure_number(RemoteProcedure::RemoteProcConnectDomainXmlFromNative) == 135,
        procedure_number(RemoteProcedure::RemoteProcConnectDomainXmlToNative) == 136,
        procedure_number(RemoteProcedure::RemoteProcConnectNumOfDefinedInterfaces) == 137,
        procedure_number(RemoteProcedure::RemoteProcConnectListDefinedInterfaces) == 138,
        procedure_number(RemoteProcedure::RemoteProcConnectNumOfSecrets) == 139,
        procedure_number(RemoteProcedure::RemoteProcConnectListSecrets) == 140,
        procedure_number(RemoteProcedure::RemoteProcSecretLookupByUuid) == 141,
        procedure_number(RemoteProcedure::RemoteProcSecretDefineXml) == 142,
        procedure_number(RemoteProcedure::RemoteProcSecretGetXmlDesc) == 143,
        procedure_number(RemoteProcedure::RemoteProcSecretSetValue) == 144,
        procedure_number(RemoteProcedure::RemoteProcSecretGetValue) == 145,
        procedure_number(RemoteProcedure::RemoteProcSecretUndefine) == 146,
        procedure_number(RemoteProcedure::RemoteProcSecretLookupByUsage) == 147,
        procedure_number(RemoteProcedure::RemoteProcDomainMigratePrepareTunnel) == 148,
        procedure_number(RemoteProcedure::RemoteProcConnectIsSecure) == 149,
        procedure_number(RemoteProcedure::RemoteProcDomainIsActive) == 150,
        procedure_number(RemoteProcedure::RemoteProcDomainIsPersistent) == 151,
        procedure_number(RemoteProcedure::RemoteProcNetworkIsActive) == 152,
        procedure_number(RemoteProcedure::RemoteProcNetworkIsPersistent) == 153,
        procedure_number(RemoteProcedure::RemoteProcStoragePoolIsActive) == 154,
        procedure_number(RemoteProcedure::RemoteProcStoragePoolIsPersistent) == 155,
        procedure_number(RemoteProcedure::RemoteProcInterfaceIsActive) == 156,
        procedure_number(RemoteProcedure::RemoteProcConnectGetLibVersion) == 157,
        procedure_number(RemoteProcedure::RemoteProcConnectCompareCpu) == 158,
        procedure_number(RemoteProcedure::RemoteProcDomainMemoryStats) == 159,
        procedure_number(RemoteProcedure::RemoteProcDomainAttachDeviceFlags) == 160,
        procedure_number(RemoteProcedure::RemoteProcDomainDetachDeviceFlags) == 161,
        procedure_number(RemoteProcedure::RemoteProcConnectBaselineCpu) == 162,
        procedure_number(RemoteProcedure::RemoteProcDomainGetJobInfo) == 163,
        procedure_number(RemoteProcedure::RemoteProcDomainAbortJob) == 164,
        procedure_number(RemoteProcedure::RemoteProcStorageVolWipe) == 165,
        procedure_number(RemoteProcedure::RemoteProcDomainMigrateSetMaxDowntime) == 166,
        procedure_number(RemoteProcedure::RemoteProcConnectDomainEventRegisterAny) == 167,
        procedure_number(RemoteProcedure::RemoteProcConnectDomainEventDeregisterAny) == 168,
        procedure_number(RemoteProcedure::RemoteProcDomainEventReboot) == 169,
        procedure_number(RemoteProcedure::RemoteProcDomainEventRtcChange) == 170,
        procedure_number(RemoteProcedure::RemoteProcDomainEventWatchdog) == 171,
        procedure_number(RemoteProcedure::RemoteProcDomainEventIoError) == 172,
        procedure_number(RemoteProcedure::RemoteProcDomainEventGraphics) == 173,
        procedure_number(RemoteProcedure::RemoteProcDomainUpdateDeviceFlags) == 174,
        procedure_number(RemoteProcedure::RemoteProcNwfilterLookupByName) == 175,
        procedure_number(RemoteProcedure::RemoteProcNwfilterLookupByUuid) == 176,
        procedure_number(RemoteProcedure::RemoteProcNwfilterGetXmlDesc) == 177,
        procedure_number(RemoteProcedure::RemoteProcConnectNumOfNwfilters) == 178,
        procedure_number(RemoteProcedure::RemoteProcConnectListNwfilters) == 179,
        procedure_number(RemoteProcedure::RemoteProcNwfilterDefineXml) == 180,
        procedure_number(RemoteProcedure::RemoteProcNwfilterUndefine) == 181,
        procedure_number(RemoteProcedure::RemoteProcDomainManagedSave) == 182,
        procedure_number(RemoteProcedure::RemoteProcDomainHasManagedSaveImage) == 183,
        procedure_number(RemoteProcedure::RemoteProcDomainManagedSaveRemove) == 184,
        procedure_number(RemoteProcedure::RemoteProcDomainSnapshotCreateXml) == 185,
        procedure_number(RemoteProcedure::RemoteProcDomainSnapshotGetXmlDesc) == 186,
        procedure_number(RemoteProcedure::RemoteProcDomainSnapshotNum) == 187,
        procedure_number(RemoteProcedure::RemoteProcDomainSnapshotListNames) == 188,
        procedure_number(RemoteProcedure::RemoteProcDomainSnapshotLookupByName) == 189,
        procedure_number(RemoteProcedure::RemoteProcDomainHasCurrentSnapshot) == 190,
        procedure_number(RemoteProcedure::RemoteProcDomainSnapshotCurrent) == 191,
        procedure_number(RemoteProcedure::RemoteProcDomainRevertToSnapshot) == 192,
        procedure_number(RemoteProcedure::RemoteProcDomainSnapshotDelete) == 193,
        procedure_number(RemoteProcedure::RemoteProcDomainGetBlockInfo) == 194,
        procedure_number(RemoteProcedure::RemoteProcDomainEventIoErrorReason) == 195,
        procedure_number(RemoteProcedure::RemoteProcDomainCreateWithFlags) == 196,
        procedure_number(RemoteProcedure::RemoteProcDomainSetMemoryParameters) == 197,
        procedure_number(RemoteProcedure::RemoteProcDomainGetMemoryParameters) == 198,
        procedure_number(RemoteProcedure::RemoteProcDomainSetVcpusFlags) == 199,
        procedure_number(RemoteProcedure::RemoteProcDomainGetVcpusFlags) == 200,
        procedure_number(RemoteProcedure::RemoteProcDomainOpenConsole) == 201,
        procedure_number(RemoteProcedure::RemoteProcDomainIsUpdated) == 202,
        procedure_number(RemoteProcedure::RemoteProcConnectGetSysinfo) == 203,
        procedure_number(RemoteProcedure::RemoteProcDomainSetMemoryFlags) == 204,
        procedure_number(RemoteProcedure::RemoteProcDomainSetBlkioParameters) == 205,
        procedure_number(RemoteProcedure::RemoteProcDomainGetBlkioParameters) == 206,
        procedure_number(RemoteProcedure::RemoteProcDomainMigrateSetMaxSpeed) == 207,
        procedure_number(RemoteProcedure::RemoteProcStorageVolUpload) == 208,
        procedure_number(RemoteProcedure::RemoteProcStorageVolDownload) == 209,
        procedure_number(RemoteProcedure::RemoteProcDomainInjectNmi) == 210,
        procedure_number(RemoteProcedure::RemoteProcDomainScreenshot) == 211,
        procedure_number(RemoteProcedure::RemoteProcDomainGetState) == 212,
        procedure_number(RemoteProcedure::RemoteProcDomainMigrateBegin3) == 213,
        procedure_number(RemoteProcedure::RemoteProcDomainMigratePrepare3) == 214,
        procedure_number(RemoteProcedure::RemoteProcDomainMigratePrepareTunnel3) == 215,
        procedure_number(RemoteProcedure::RemoteProcDomainMigratePerform3) == 216,
        procedure_number(RemoteProcedure::RemoteProcDomainMigrateFinish3) == 217,
        procedure_number(RemoteProcedure::RemoteProcDomainMigrateConfirm3) == 218,
        procedure_number(RemoteProcedure::RemoteProcDomainSetSchedulerParametersFlags) == 219,
        procedure_number(RemoteProcedure::RemoteProcInterfaceChangeBegin) == 220,
        procedure_number(RemoteProcedure::RemoteProcInterfaceChangeCommit) == 221,
        procedure_number(RemoteProcedure::RemoteProcInterfaceChangeRollback) == 222,
        procedure_number(RemoteProcedure::RemoteProcDomainGetSchedulerParametersFlags) == 223,
        procedure_number(RemoteProcedure::RemoteProcDomainEventControlError) == 224,
        procedure_number(RemoteProcedure::RemoteProcDomainPinVcpuFlags) == 225,
        procedure_number(RemoteProcedure::RemoteProcDomainSendKey) == 226,
        procedure_number(RemoteProcedure::RemoteProcNodeGetCpuStats) == 227,
        procedure_number(RemoteProcedure::RemoteProcNodeGetMemoryStats) == 228,
        procedure_number(RemoteProcedure::RemoteProcDomainGetControlInfo) == 229,
        procedure_number(RemoteProcedure::RemoteProcDomainGetVcpuPinInfo) == 230,
        procedure_number(RemoteProcedure::RemoteProcDomainUndefineFlags) == 231,
        procedure_number(RemoteProcedure::RemoteProcDomainSaveFlags) == 232,
        procedure_number(RemoteProcedure::RemoteProcDomainRestoreFlags) == 233,
        procedure_number(RemoteProcedure::RemoteProcDomainDestroyFlags) == 234,
        procedure_number(RemoteProcedure::RemoteProcDomainSaveImageGetXmlDesc) == 235,
        procedure_number(RemoteProcedure::RemoteProcDomainSaveImageDefineXml) == 236,
        procedure_number(RemoteProcedure::RemoteProcDomainBlockJobAbort) == 237,
        procedure_number(RemoteProcedure::RemoteProcDomainGetBlockJobInfo) == 238,
        procedure_number(RemoteProcedure::RemoteProcDomainBlockJobSetSpeed) == 239,
        procedure_number(RemoteProcedure::RemoteProcDomainBlockPull) == 240,
        procedure_number(RemoteProcedure::RemoteProcDomainEventBlockJob) == 241,
        procedure_number(RemoteProcedure::RemoteProcDomainMigrateGetMaxSpeed) == 242,
        procedure_number(RemoteProcedure::RemoteProcDomainBlockStatsFlags) == 243,
        procedure_number(RemoteProcedure::RemoteProcDomainSnapshotGetParent) == 244,
        procedure_number(RemoteProcedure::RemoteProcDomainReset) == 245,
        procedure_number(RemoteProcedure::RemoteProcDomainSnapshotNumChildren) == 246,
        procedure_number(RemoteProcedure::RemoteProcDomainSnapshotListChildrenNames) == 247,
        procedure_number(RemoteProcedure::RemoteProcDomainEventDiskChange) == 248,
        procedure_number(RemoteProcedure::RemoteProcDomainOpenGraphics) == 249,
        procedure_number(RemoteProcedure::RemoteProcNodeSuspendForDuration) == 250,
        procedure_number(RemoteProcedure::RemoteProcDomainBlockResize) == 251,
        procedure_number(RemoteProcedure::RemoteProcDomainSetBlockIoTune) == 252,
        procedure_number(RemoteProcedure::RemoteProcDomainGetBlockIoTune) == 253,
        procedure_number(RemoteProcedure::RemoteProcDomainSetNumaParameters) == 254,
        procedure_number(RemoteProcedure::RemoteProcDomainGetNumaParameters) == 255,
        procedure_number(RemoteProcedure::RemoteProcDomainSetInterfaceParameters) == 256,
        procedure_number(RemoteProcedure::RemoteProcDomainGetInterfaceParameters) == 257,
        procedure_number(RemoteProcedure::RemoteProcDomainShutdownFlags) == 258,
        procedure_number(RemoteProcedure::RemoteProcStorageVolWipePattern) == 259,
        procedure_number(RemoteProcedure::RemoteProcStorageVolResize) == 260,
        procedure_number(RemoteProcedure::RemoteProcDomainPmSuspendForDuration) == 261,
        procedure_number(RemoteProcedure::RemoteProcDomainGetCpuStats) == 262,
        procedure_number(RemoteProcedure::RemoteProcDomainGetDiskErrors) == 263,
        procedure_number(RemoteProcedure::RemoteProcDomainSetMetadata) == 264,
        procedure_number(RemoteProcedure::RemoteProcDomainGetMetadata) == 265,
        procedure_number(RemoteProcedure::RemoteProcDomainBlockRebase) == 266,
        procedure_number(RemoteProcedure::RemoteProcDomainPmWakeup) == 267,
        procedure_number(RemoteProcedure::RemoteProcDomainEventTrayChange) == 268,
        procedure_number(RemoteProcedure::RemoteProcDomainEventPmwakeup) == 269,
        procedure_number(RemoteProcedure::RemoteProcDomainEventPmsuspend) == 270,
        procedure_number(RemoteProcedure::RemoteProcDomainSnapshotIsCurrent) == 271,
        procedure_number(RemoteProcedure::RemoteProcDomainSnapshotHasMetadata) == 272,
        procedure_number(RemoteProcedure::RemoteProcConnectListAllDomains) == 273,
        procedure_number(RemoteProcedure::RemoteProcDomainListAllSnapshots) == 274,
        procedure_number(RemoteProcedure::RemoteProcDomainSnapshotListAllChildren) == 275,
        procedure_number(RemoteProcedure::RemoteProcDomainEventBalloonChange) == 276,
        procedure_number(RemoteProcedure::RemoteProcDomainGetHostname) == 277,
        procedure_number(RemoteProcedure::RemoteProcDomainGetSecurityLabelList) == 278,
        procedure_number(RemoteProcedure::RemoteProcDomainPinEmulator) == 279,
        procedure_number(RemoteProcedure::RemoteProcDomainGetEmulatorPinInfo) == 280,
        procedure_number(RemoteProcedure::RemoteProcConnectListAllStoragePools) == 281,
        procedure_number(RemoteProcedure::RemoteProcStoragePoolListAllVolumes) == 282,
        procedure_number(RemoteProcedure::RemoteProcConnectListAllNetworks) == 283,
        procedure_number(RemoteProcedure::RemoteProcConnectListAllInterfaces) == 284,
        procedure_number(RemoteProcedure::RemoteProcConnectListAllNodeDevices) == 285,
        procedure_number(RemoteProcedure::RemoteProcConnectListAllNwfilters) == 286,
        procedure_number(RemoteProcedure::RemoteProcConnectListAllSecrets) == 287,
        procedure_number(RemoteProcedure::RemoteProcNodeSetMemoryParameters) == 288,
        procedure_number(RemoteProcedure::RemoteProcNodeGetMemoryParameters) == 289,
        procedure_number(RemoteProcedure::RemoteProcDomainBlockCommit) == 290,
        procedure_number(RemoteProcedure::RemoteProcNetworkUpdate) == 291,
        procedure_number(RemoteProcedure::RemoteProcDomainEventPmsuspendDisk) == 292,
        procedure_number(RemoteProcedure::RemoteProcNodeGetCpuMap) == 293,
        procedure_number(RemoteProcedure::RemoteProcDomainFstrim) == 294,
        procedure_number(RemoteProcedure::RemoteProcDomainSendProcessSignal) == 295,
        procedure_number(RemoteProcedure::RemoteProcDomainOpenChannel) == 296,
        procedure_number(RemoteProcedure::RemoteProcNodeDeviceLookupScsiHostByWwn) == 297,
        procedure_number(RemoteProcedure::RemoteProcDomainGetJobStats) == 298,
        procedure_number(RemoteProcedure::RemoteProcDomainMigrateGetCompressionCache) == 299,
        procedure_number(RemoteProcedure::RemoteProcDomainMigrateSetCompressionCache) == 300,
        procedure_number(RemoteProcedure::RemoteProcNodeDeviceDetachFlags) == 301,
        procedure_number(RemoteProcedure::RemoteProcDomainMigrateBegin3Params) == 302,
        procedure_number(RemoteProcedure::RemoteProcDomainMigratePrepare3Params) == 303,
        procedure_number(RemoteProcedure::RemoteProcDomainMigratePrepareTunnel3Params) == 304,
        procedure_number(RemoteProcedure::RemoteProcDomainMigratePerform3Params) == 305,
        procedure_number(RemoteProcedure::RemoteProcDomainMigrateFinish3Params) == 306,
        procedure_number(RemoteProcedure::RemoteProcDomainMigrateConfirm3Params) == 307,
        procedure_number(RemoteProcedure::RemoteProcDomainSetMemoryStatsPeriod) == 308,
        procedure_number(RemoteProcedure::RemoteProcDomainCreateXmlWithFiles) == 309,
        procedure_number(RemoteProcedure::RemoteProcDomainCreateWithFiles) == 310,
        procedure_number(RemoteProcedure::RemoteProcDomainEventDeviceRemoved) == 311,
        procedure_number(RemoteProcedure::RemoteProcConnectGetCpuModelNames) == 312,
        procedure_number(RemoteProcedure::RemoteProcConnectNetworkEventRegisterAny) == 313,
        procedure_number(RemoteProcedure::RemoteProcConnectNetworkEventDeregisterAny) == 314,
        procedure_number(RemoteProcedure::RemoteProcNetworkEventLifecycle) == 315,
        procedure_number(RemoteProcedure::RemoteProcConnectDomainEventCallbackRegisterAny) == 316,
        procedure_number(RemoteProcedure::RemoteProcConnectDomainEventCallbackDeregisterAny) == 317,
        procedure_number(RemoteProcedure::RemoteProcDomainEventCallbackLifecycle) == 318,
        procedure_number(RemoteProcedure::RemoteProcDomainEventCallbackReboot) == 319,
        procedure_number(RemoteProcedure::RemoteProcDomainEventCallbackRtcChange) == 320,
        procedure_number(RemoteProcedure::RemoteProcDomainEventCallbackWatchdog) == 321,
        procedure_number(RemoteProcedure::RemoteProcDomainEventCallbackIoError) == 322,
        procedure_number(RemoteProcedure::RemoteProcDomainEventCallbackGraphics) == 323,
        procedure_number(RemoteProcedure::RemoteProcDomainEventCallbackIoErrorReason) == 324,
        procedure_number(RemoteProcedure::RemoteProcDomainEventCallbackControlError) == 325,
        procedure_number(RemoteProcedure::RemoteProcDomainEventCallbackBlockJob) == 326,
        procedure_number(RemoteProcedure::RemoteProcDomainEventCallbackDiskChange) == 327,
        procedure_number(RemoteProcedure::RemoteProcDomainEventCallbackTrayChange) == 328,
        procedure_number(RemoteProcedure::RemoteProcDomainEventCallbackPmwakeup) == 329,
        procedure_number(RemoteProcedure::RemoteProcDomainEventCallbackPmsuspend) == 330,
        procedure_number(RemoteProcedure::RemoteProcDomainEventCallbackBalloonChange) == 331,
        procedure_number(RemoteProcedure::RemoteProcDomainEventCallbackPmsuspendDisk) == 332,
        procedure_number(RemoteProcedure::RemoteProcDomainEventCallbackDeviceRemoved) == 333,
        procedure_number(RemoteProcedure::RemoteProcDomainCoreDumpWithFormat) == 334,
        procedure_number(RemoteProcedure::RemoteProcDomainFsfreeze) == 335,
        procedure_number(RemoteProcedure::RemoteProcDomainFsthaw) == 336,
        procedure_number(RemoteProcedure::RemoteProcDomainGetTime) == 337,
        procedure_number(RemoteProcedure::RemoteProcDomainSetTime) == 338,
        procedure_number(RemoteProcedure::RemoteProcDomainEventBlockJob2) == 339,
        procedure_number(RemoteProcedure::RemoteProcNodeGetFreePages) == 340,
        procedure_number(RemoteProcedure::RemoteProcNetworkGetDhcpLeases) == 341,
        procedure_number(RemoteProcedure::RemoteProcConnectGetDomainCapabilities) == 342,
        procedure_number(RemoteProcedure::RemoteProcDomainOpenGraphicsFd) == 343,
        procedure_number(RemoteProcedure::RemoteProcConnectGetAllDomainStats) == 344,
        procedure_number(RemoteProcedure::RemoteProcDomainBlockCopy) == 345,
        procedure_number(RemoteProcedure::RemoteProcDomainEventCallbackTunable) == 346,
        procedure_number(RemoteProcedure::RemoteProcNodeAllocPages) == 347,
        procedure_number(RemoteProcedure::RemoteProcDomainEventCallbackAgentLifecycle) == 348,
        procedure_number(RemoteProcedure::RemoteProcDomainGetFsinfo) == 349,
        procedure_number(RemoteProcedure::RemoteProcDomainDefineXmlFlags) == 350,
        procedure_number(RemoteProcedure::RemoteProcDomainGetIothreadInfo) == 351,
        procedure_number(RemoteProcedure::RemoteProcDomainPinIothread) == 352,
        procedure_number(RemoteProcedure::RemoteProcDomainInterfaceAddresses) == 353,
        procedure_number(RemoteProcedure::RemoteProcDomainEventCallbackDeviceAdded) == 354,
        procedure_number(RemoteProcedure::RemoteProcDomainAddIothread) == 355,
        procedure_number(RemoteProcedure::RemoteProcDomainDelIothread) == 356,
        procedure_number(RemoteProcedure::RemoteProcDomainSetUserPassword) == 357,
        procedure_number(RemoteProcedure::RemoteProcDomainRename) == 358,
        procedure_number(RemoteProcedure::RemoteProcDomainEventCallbackMigrationIteration) == 359,
        procedure_number(RemoteProcedure::RemoteProcConnectRegisterCloseCallback) == 360,
        procedure_number(RemoteProcedure::RemoteProcConnectUnregisterCloseCallback) == 361,
        procedure_number(RemoteProcedure::RemoteProcConnectEventConnectionClosed) == 362,
        procedure_number(RemoteProcedure::RemoteProcDomainEventCallbackJobCompleted) == 363,
        procedure_number(RemoteProcedure::RemoteProcDomainMigrateStartPostCopy) == 364,
        procedure_number(RemoteProcedure::RemoteProcDomainGetPerfEvents) == 365,
        procedure_number(RemoteProcedure::RemoteProcDomainSetPerfEvents) == 366,
        procedure_number(RemoteProcedure::RemoteProcDomainEventCallbackDeviceRemovalFailed) == 367,
        procedure_number(RemoteProcedure::RemoteProcConnectStoragePoolEventRegisterAny) == 368,
        procedure_number(RemoteProcedure::RemoteProcConnectStoragePoolEventDeregisterAny) == 369,
        procedure_number(RemoteProcedure::RemoteProcStoragePoolEventLifecycle) == 370,
        procedure_number(RemoteProcedure::RemoteProcDomainGetGuestVcpus) == 371,
        procedure_number(RemoteProcedure::RemoteProcDomainSetGuestVcpus) == 372,
        procedure_number(RemoteProcedure::RemoteProcStoragePoolEventRefresh) == 373,
        procedure_number(RemoteProcedure::RemoteProcConnectNodeDeviceEventRegisterAny) == 374,
        procedure_number(RemoteProcedure::RemoteProcConnectNodeDeviceEventDeregisterAny) == 375,
        procedure_number(RemoteProcedure::RemoteProcNodeDeviceEventLifecycle) == 376,
        procedure_number(RemoteProcedure::RemoteProcNodeDeviceEventUpdate) == 377,
        procedure_number(RemoteProcedure::RemoteProcStorageVolGetInfoFlags) == 378,
        procedure_number(RemoteProcedure::RemoteProcDomainEventCallbackMetadataChange) == 379,
        procedure_number(RemoteProcedure::RemoteProcConnectSecretEventRegisterAny) == 380,
        procedure_number(RemoteProcedure::RemoteProcConnectSecretEventDeregisterAny) == 381,
        procedure_number(RemoteProcedure::RemoteProcSecretEventLifecycle) == 382,
        procedure_number(RemoteProcedure::RemoteProcSecretEventValueChanged) == 383,
        procedure_number(RemoteProcedure::RemoteProcDomainSetVcpu) == 384,
        procedure_number(RemoteProcedure::RemoteProcDomainEventBlockThreshold) == 385,
        procedure_number(RemoteProcedure::RemoteProcDomainSetBlockThreshold) == 386,
        procedure_number(RemoteProcedure::RemoteProcDomainMigrateGetMaxDowntime) == 387,
        procedure_number(RemoteProcedure::RemoteProcDomainManagedSaveGetXmlDesc) == 388,
        procedure_number(RemoteProcedure::RemoteProcDomainManagedSaveDefineXml) == 389,
        procedure_number(RemoteProcedure::RemoteProcDomainSetLifecycleAction) == 390,
        procedure_number(RemoteProcedure::RemoteProcStoragePoolLookupByTargetPath) == 391,
        procedure_number(RemoteProcedure::RemoteProcDomainDetachDeviceAlias) == 392,
        procedure_number(RemoteProcedure::RemoteProcConnectCompareHypervisorCpu) == 393,
        procedure_number(RemoteProcedure::RemoteProcConnectBaselineHypervisorCpu) == 394,
        procedure_number(RemoteProcedure::RemoteProcNodeGetSevInfo) == 395,
        procedure_number(RemoteProcedure::RemoteProcDomainGetLaunchSecurityInfo) == 396,
        procedure_number(RemoteProcedure::RemoteProcNwfilterBindingLookupByPortDev) == 397,
        procedure_number(RemoteProcedure::RemoteProcNwfilterBindingGetXmlDesc) == 398,
        procedure_number(RemoteProcedure::RemoteProcNwfilterBindingCreateXml) == 399,
        procedure_number(RemoteProcedure::RemoteProcNwfilterBindingDelete) == 400,
        procedure_number(RemoteProcedure::RemoteProcConnectListAllNwfilterBindings) == 401,
        procedure_number(RemoteProcedure::RemoteProcDomainSetIothreadParams) == 402,
        procedure_number(RemoteProcedure::RemoteProcConnectGetStoragePoolCapabilities) == 403,
        procedure_number(RemoteProcedure::RemoteProcNetworkListAllPorts) == 404,
        procedure_number(RemoteProcedure::RemoteProcNetworkPortLookupByUuid) == 405,
        procedure_number(RemoteProcedure::RemoteProcNetworkPortCreateXml) == 406,
        procedure_number(RemoteProcedure::RemoteProcNetworkPortGetParameters) == 407,
        procedure_number(RemoteProcedure::RemoteProcNetworkPortSetParameters) == 408,
        procedure_number(RemoteProcedure::RemoteProcNetworkPortGetXmlDesc) == 409,
        procedure_number(RemoteProcedure::RemoteProcNetworkPortDelete) == 410,
        procedure_number(RemoteProcedure::RemoteProcDomainCheckpointCreateXml) == 411,
        procedure_number(RemoteProcedure::RemoteProcDomainCheckpointGetXmlDesc) == 412,
        procedure_number(RemoteProcedure::RemoteProcDomainListAllCheckpoints) == 413,
        procedure_number(RemoteProcedure::RemoteProcDomainCheckpointListAllChildren) == 414,
        procedure_number(RemoteProcedure::RemoteProcDomainCheckpointLookupByName) == 415,
        procedure_number(RemoteProcedure::RemoteProcDomainCheckpointGetParent) == 416,
        procedure_number(RemoteProcedure::RemoteProcDomainCheckpointDelete) == 417,
        procedure_number(RemoteProcedure::RemoteProcDomainGetGuestInfo) == 418,
        procedure_number(RemoteProcedure::RemoteProcConnectSetIdentity) == 419,
        procedure_number(RemoteProcedure::RemoteProcDomainAgentSetResponseTimeout) == 420,
        procedure_number(RemoteProcedure::RemoteProcDomainBackupBegin) == 421,
        procedure_number(RemoteProcedure::RemoteProcDomainBackupGetXmlDesc) == 422,
        procedure_number(RemoteProcedure::RemoteProcDomainEventMemoryFailure) == 423,
        procedure_number(RemoteProcedure::RemoteProcDomainAuthorizedSshKeysGet) == 424,
        procedure_number(RemoteProcedure::RemoteProcDomainAuthorizedSshKeysSet) == 425,
        procedure_number(RemoteProcedure::RemoteProcDomainGetMessages) == 426,
        procedure_number(RemoteProcedure::RemoteProcDomainStartDirtyRateCalc) == 427,
        procedure_number(RemoteProcedure::RemoteProcNodeDeviceDefineXml) == 428,
        procedure_number(RemoteProcedure::RemoteProcNodeDeviceUndefine) == 429,
        procedure_number(RemoteProcedure::RemoteProcNodeDeviceCreate) == 430,
        procedure_number(RemoteProcedure::RemoteProcNwfilterDefineXmlFlags) == 431,
        procedure_number(RemoteProcedure::RemoteProcNetworkDefineXmlFlags) == 432,
        procedure_number(RemoteProcedure::RemoteProcNodeDeviceGetAutostart) == 433,
        procedure_number(RemoteProcedure::RemoteProcNodeDeviceSetAutostart) == 434,
        procedure_number(RemoteProcedure::RemoteProcNodeDeviceIsPersistent) == 435,
        procedure_number(RemoteProcedure::RemoteProcNodeDeviceIsActive) == 436,
        procedure_number(RemoteProcedure::RemoteProcNetworkCreateXmlFlags) == 437,
        procedure_number(RemoteProcedure::RemoteProcDomainEventMemoryDeviceSizeChange) == 438,
        procedure_number(RemoteProcedure::RemoteProcDomainSetLaunchSecurityState) == 439,
{
}

/// Each authentication type travels as the code the protocol declares for it.
pub proof fn lemma_auth_type_codes_declared()
    ensures
        auth_type_code(RemoteAuthType::RemoteAuthNone) == 0,
        auth_type_code(RemoteAuthType::RemoteAuthSasl) == 1,
        auth_type_code(RemoteAuthType::RemoteAuthPolkit) == 2,
{
}

} // verus!
