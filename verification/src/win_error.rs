//! Windows error codes usable as exception codes.
//!
//! Every enumeration here maps raw integer codes to named symbols and back.
//! Unknown raw values are legal throughout the format, so `from_*` returns
//! `None` for them rather than an error, and the caller keeps the raw value;
//! `to_*` gives the raw value a symbol re-encodes to.

use vstd::prelude::*;

verus! {

/// Values of an exception record's `exception_code` field drawn from the
/// Windows error table.
///
/// The same raw value can mean different things to different producer
/// ecosystems for the same field, so the caller disambiguates by context
/// (which field, which platform) rather than assuming one universal
/// mapping; this table is the Windows-error reading.
#[derive(Copy, Clone, PartialEq, Eq, Structural, Debug)]
pub enum WinErrorWindows {
    ERROR_SUCCESS,
    ERROR_INVALID_FUNCTION,
    ERROR_FILE_NOT_FOUND,
    ERROR_PATH_NOT_FOUND,
    ERROR_TOO_MANY_OPEN_FILES,
    ERROR_ACCESS_DENIED,
    ERROR_INVALID_HANDLE,
    ERROR_ARENA_TRASHED,
    ERROR_NOT_ENOUGH_MEMORY,
    ERROR_INVALID_BLOCK,
    ERROR_BAD_ENVIRONMENT,
    ERROR_BAD_FORMAT,
    ERROR_INVALID_ACCESS,
    ERROR_INVALID_DATA,
    ERROR_OUTOFMEMORY,
    ERROR_INVALID_DRIVE,
    ERROR_CURRENT_DIRECTORY,
    ERROR_NOT_SAME_DEVICE,
    ERROR_NO_MORE_FILES,
    ERROR_WRITE_PROTECT,
    ERROR_BAD_UNIT,
    ERROR_NOT_READY,
    ERROR_BAD_COMMAND,
    ERROR_CRC,
    ERROR_BAD_LENGTH,
    ERROR_SEEK,
    ERROR_NOT_DOS_DISK,
    ERROR_SECTOR_NOT_FOUND,
    ERROR_OUT_OF_PAPER,
    ERROR_WRITE_FAULT,
    ERROR_READ_FAULT,
    ERROR_GEN_FAILURE,
    ERROR_SHARING_VIOLATION,
    ERROR_LOCK_VIOLATION,
    ERROR_WRONG_DISK,
    ERROR_SHARING_BUFFER_EXCEEDED,
    ERROR_HANDLE_EOF,
    ERROR_HANDLE_DISK_FULL,
    ERROR_NOT_SUPPORTED,
    ERROR_REM_NOT_LIST,
    ERROR_DUP_NAME,
    ERROR_BAD_NETPATH,
    ERROR_NETWORK_BUSY,
    ERROR_DEV_NOT_EXIST,
    ERROR_TOO_MANY_CMDS,
    ERROR_ADAP_HDW_ERR,
    ERROR_BAD_NET_RESP,
    ERROR_UNEXP_NET_ERR,
    ERROR_BAD_REM_ADAP,
    ERROR_PRINTQ_FULL,
    ERROR_NO_SPOOL_SPACE,
    ERROR_PRINT_CANCELLED,
    ERROR_NETNAME_DELETED,
    ERROR_NETWORK_ACCESS_DENIED,
    ERROR_BAD_DEV_TYPE,
    ERROR_BAD_NET_NAME,
    ERROR_TOO_MANY_NAMES,
    ERROR_TOO_MANY_SESS,
    ERROR_SHARING_PAUSED,
    ERROR_REQ_NOT_ACCEP,
    ERROR_REDIR_PAUSED,
    ERROR_FILE_EXISTS,
    ERROR_CANNOT_MAKE,
    ERROR_FAIL_I24,
    ERROR_OUT_OF_STRUCTURES,
    ERROR_ALREADY_ASSIGNED,
    ERROR_INVALID_PASSWORD,
    ERROR_INVALID_PARAMETER,
    ERROR_NET_WRITE_FAULT,
    ERROR_NO_PROC_SLOTS,
    ERROR_TOO_MANY_SEMAPHORES,
    ERROR_EXCL_SEM_ALREADY_OWNED,
    ERROR_SEM_IS_SET,
    ERROR_TOO_MANY_SEM_REQUESTS,
    ERROR_INVALID_AT_INTERRUPT_TIME,
    ERROR_SEM_OWNER_DIED,
    ERROR_SEM_USER_LIMIT,
    ERROR_DISK_CHANGE,
    ERROR_DRIVE_LOCKED,
    ERROR_BROKEN_PIPE,
    ERROR_OPEN_FAILED,
    ERROR_BUFFER_OVERFLOW,
    ERROR_DISK_FULL,
    ERROR_NO_MORE_SEARCH_HANDLES,
    ERROR_INVALID_TARGET_HANDLE,
    ERROR_INVALID_CATEGORY,
    ERROR_INVALID_VERIFY_SWITCH,
    ERROR_BAD_DRIVER_LEVEL,
    ERROR_CALL_NOT_IMPLEMENTED,
    ERROR_SEM_TIMEOUT,
    ERROR_INSUFFICIENT_BUFFER,
    ERROR_INVALID_NAME,
    ERROR_INVALID_LEVEL,
    ERROR_NO_VOLUME_LABEL,
    ERROR_MOD_NOT_FOUND,
    ERROR_PROC_NOT_FOUND,
    ERROR_WAIT_NO_CHILDREN,
    ERROR_CHILD_NOT_COMPLETE,
    ERROR_DIRECT_ACCESS_HANDLE,
    ERROR_NEGATIVE_SEEK,
    ERROR_SEEK_ON_DEVICE,
    ERROR_IS_JOIN_TARGET,
    ERROR_IS_JOINED,
    ERROR_IS_SUBSTED,
    ERROR_NOT_JOINED,
    ERROR_NOT_SUBSTED,
    ERROR_JOIN_TO_JOIN,
    ERROR_SUBST_TO_SUBST,
    ERROR_JOIN_TO_SUBST,
    ERROR_SUBST_TO_JOIN,
    ERROR_BUSY_DRIVE,
    ERROR_SAME_DRIVE,
    ERROR_DIR_NOT_ROOT,
    ERROR_DIR_NOT_EMPTY,
    ERROR_IS_SUBST_PATH,
    ERROR_IS_JOIN_PATH,
    ERROR_PATH_BUSY,
    ERROR_IS_SUBST_TARGET,
    ERROR_SYSTEM_TRACE,
    ERROR_INVALID_EVENT_COUNT,
    ERROR_TOO_MANY_MUXWAITERS,
    ERROR_INVALID_LIST_FORMAT,
    ERROR_LABEL_TOO_LONG,
    ERROR_TOO_MANY_TCBS,
    ERROR_SIGNAL_REFUSED,
    ERROR_DISCARDED,
    ERROR_NOT_LOCKED,
    ERROR_BAD_THREADID_ADDR,
    ERROR_BAD_ARGUMENTS,
    ERROR_BAD_PATHNAME,
    ERROR_SIGNAL_PENDING,
    ERROR_MAX_THRDS_REACHED,
    ERROR_LOCK_FAILED,
    ERROR_BUSY,
    ERROR_DEVICE_SUPPORT_IN_PROGRESS,
    ERROR_CANCEL_VIOLATION,
    ERROR_ATOMIC_LOCKS_NOT_SUPPORTED,
    ERROR_INVALID_SEGMENT_NUMBER,
    ERROR_INVALID_ORDINAL,
    ERROR_ALREADY_EXISTS,
    ERROR_INVALID_FLAG_NUMBER,
    ERROR_SEM_NOT_FOUND,
    ERROR_INVALID_STARTING_CODESEG,
    ERROR_INVALID_STACKSEG,
    ERROR_INVALID_MODULETYPE,
    ERROR_INVALID_EXE_SIGNATURE,
    ERROR_EXE_MARKED_INVALID,
    ERROR_BAD_EXE_FORMAT,
    ERROR_INVALID_MINALLOCSIZE,
    ERROR_DYNLINK_FROM_INVALID_RING,
    ERROR_IOPL_NOT_ENABLED,
    ERROR_INVALID_SEGDPL,
    ERROR_RING2SEG_MUST_BE_MOVABLE,
    ERROR_RELOC_CHAIN_XEEDS_SEGLIM,
    ERROR_INFLOOP_IN_RELOC_CHAIN,
    ERROR_ENVVAR_NOT_FOUND,
    ERROR_NO_SIGNAL_SENT,
    ERROR_FILENAME_EXCED_RANGE,
    ERROR_RING2_STACK_IN_USE,
    ERROR_META_EXPANSION_TOO_LONG,
    ERROR_INVALID_SIGNAL_NUMBER,
    ERROR_THREAD_1_INACTIVE,
    ERROR_LOCKED,
    ERROR_TOO_MANY_MODULES,
    ERROR_NESTING_NOT_ALLOWED,
    ERROR_EXE_MACHINE_TYPE_MISMATCH,
    ERROR_EXE_CANNOT_MODIFY_SIGNED_BINARY,
    ERROR_EXE_CANNOT_MODIFY_STRONG_SIGNED_BINARY,
    ERROR_FILE_CHECKED_OUT,
    ERROR_CHECKOUT_REQUIRED,
    ERROR_BAD_FILE_TYPE,
    ERROR_FILE_TOO_LARGE,
    ERROR_FORMS_AUTH_REQUIRED,
    ERROR_VIRUS_INFECTED,
    ERROR_VIRUS_DELETED,
    ERROR_PIPE_LOCAL,
    ERROR_BAD_PIPE,
    ERROR_PIPE_BUSY,
    ERROR_NO_DATA,
    ERROR_PIPE_NOT_CONNECTED,
    ERROR_MORE_DATA,
    ERROR_NO_WORK_DONE,
    ERROR_VC_DISCONNECTED,
    ERROR_INVALID_EA_NAME,
    ERROR_EA_LIST_INCONSISTENT,
    ERROR_NO_MORE_ITEMS,
    ERROR_CANNOT_COPY,
    ERROR_DIRECTORY,
    ERROR_EAS_DIDNT_FIT,
    ERROR_EA_FILE_CORRUPT,
    ERROR_EA_TABLE_FULL,
    ERROR_INVALID_EA_HANDLE,
    ERROR_EAS_NOT_SUPPORTED,
    ERROR_NOT_OWNER,
    ERROR_TOO_MANY_POSTS,
    ERROR_PARTIAL_COPY,
    ERROR_OPLOCK_NOT_GRANTED,
    ERROR_INVALID_OPLOCK_PROTOCOL,
    ERROR_DISK_TOO_FRAGMENTED,
    ERROR_DELETE_PENDING,
    ERROR_INCOMPATIBLE_WITH_GLOBAL_SHORT_NAME_REGISTRY_SETTING,
    ERROR_SHORT_NAMES_NOT_ENABLED_ON_VOLUME,
    ERROR_SECURITY_STREAM_IS_INCONSISTENT,
    ERROR_INVALID_LOCK_RANGE,
    ERROR_IMAGE_SUBSYSTEM_NOT_PRESENT,
    ERROR_NOTIFICATION_GUID_ALREADY_DEFINED,
    ERROR_INVALID_EXCEPTION_HANDLER,
    ERROR_DUPLICATE_PRIVILEGES,
    ERROR_NO_RANGES_PROCESSED,
    ERROR_NOT_ALLOWED_ON_SYSTEM_FILE,
    ERROR_DISK_RESOURCES_EXHAUSTED,
    ERROR_INVALID_TOKEN,
    ERROR_DEVICE_FEATURE_NOT_SUPPORTED,
    ERROR_MR_MID_NOT_FOUND,
    ERROR_SCOPE_NOT_FOUND,
    ERROR_UNDEFINED_SCOPE,
    ERROR_INVALID_CAP,
    ERROR_DEVICE_UNREACHABLE,
    ERROR_DEVICE_NO_RESOURCES,
    ERROR_DATA_CHECKSUM_ERROR,
    ERROR_INTERMIXED_KERNEL_EA_OPERATION,
    ERROR_FILE_LEVEL_TRIM_NOT_SUPPORTED,
    ERROR_OFFSET_ALIGNMENT_VIOLATION,
    ERROR_INVALID_FIELD_IN_PARAMETER_LIST,
    ERROR_OPERATION_IN_PROGRESS,
    ERROR_BAD_DEVICE_PATH,
    ERROR_TOO_MANY_DESCRIPTORS,
    ERROR_SCRUB_DATA_DISABLED,
    ERROR_NOT_REDUNDANT_STORAGE,
    ERROR_RESIDENT_FILE_NOT_SUPPORTED,
    ERROR_COMPRESSED_FILE_NOT_SUPPORTED,
    ERROR_DIRECTORY_NOT_SUPPORTED,
    ERROR_NOT_READ_FROM_COPY,
    ERROR_FT_WRITE_FAILURE,
    ERROR_FT_DI_SCAN_REQUIRED,
    ERROR_INVALID_KERNEL_INFO_VERSION,
    ERROR_INVALID_PEP_INFO_VERSION,
    ERROR_OBJECT_NOT_EXTERNALLY_BACKED,
    ERROR_EXTERNAL_BACKING_PROVIDER_UNKNOWN,
    ERROR_COMPRESSION_NOT_BENEFICIAL,
    ERROR_STORAGE_TOPOLOGY_ID_MISMATCH,
    ERROR_BLOCKED_BY_PARENTAL_CONTROLS,
    ERROR_BLOCK_TOO_MANY_REFERENCES,
    ERROR_MARKED_TO_DISALLOW_WRITES,
    ERROR_ENCLAVE_FAILURE,
    ERROR_FAIL_NOACTION_REBOOT,
    ERROR_FAIL_SHUTDOWN,
    ERROR_FAIL_RESTART,
    ERROR_MAX_SESSIONS_REACHED,
    ERROR_NETWORK_ACCESS_DENIED_EDP,
    ERROR_DEVICE_HINT_NAME_BUFFER_TOO_SMALL,
    ERROR_EDP_POLICY_DENIES_OPERATION,
    ERROR_EDP_DPL_POLICY_CANT_BE_SATISFIED,
    ERROR_CLOUD_FILE_SYNC_ROOT_METADATA_CORRUPT,
    ERROR_DEVICE_IN_MAINTENANCE,
    ERROR_NOT_SUPPORTED_ON_DAX,
    ERROR_DAX_MAPPING_EXISTS,
    ERROR_CLOUD_FILE_PROVIDER_NOT_RUNNING,
    ERROR_CLOUD_FILE_METADATA_CORRUPT,
    ERROR_CLOUD_FILE_METADATA_TOO_LARGE,
    ERROR_CLOUD_FILE_PROPERTY_BLOB_TOO_LARGE,
    ERROR_CLOUD_FILE_PROPERTY_BLOB_CHECKSUM_MISMATCH,
    ERROR_CHILD_PROCESS_BLOCKED,
    ERROR_STORAGE_LOST_DATA_PERSISTENCE,
    ERROR_FILE_SYSTEM_VIRTUALIZATION_UNAVAILABLE,
    ERROR_FILE_SYSTEM_VIRTUALIZATION_METADATA_CORRUPT,
    ERROR_FILE_SYSTEM_VIRTUALIZATION_BUSY,
    ERROR_FILE_SYSTEM_VIRTUALIZATION_PROVIDER_UNKNOWN,
    ERROR_GDI_HANDLE_LEAK,
    ERROR_CLOUD_FILE_TOO_MANY_PROPERTY_BLOBS,
    ERROR_CLOUD_FILE_PROPERTY_VERSION_NOT_SUPPORTED,
    ERROR_NOT_A_CLOUD_FILE,
    ERROR_CLOUD_FILE_NOT_IN_SYNC,
    ERROR_CLOUD_FILE_ALREADY_CONNECTED,
    ERROR_CLOUD_FILE_NOT_SUPPORTED,
    ERROR_CLOUD_FILE_INVALID_REQUEST,
    ERROR_CLOUD_FILE_READ_ONLY_VOLUME,
    ERROR_CLOUD_FILE_CONNECTED_PROVIDER_ONLY,
    ERROR_CLOUD_FILE_VALIDATION_FAILED,
    ERROR_SMB1_NOT_AVAILABLE,
    ERROR_FILE_SYSTEM_VIRTUALIZATION_INVALID_OPERATION,
    ERROR_CLOUD_FILE_AUTHENTICATION_FAILED,
    ERROR_CLOUD_FILE_INSUFFICIENT_RESOURCES,
    ERROR_CLOUD_FILE_NETWORK_UNAVAILABLE,
    ERROR_CLOUD_FILE_UNSUCCESSFUL,
    ERROR_CLOUD_FILE_NOT_UNDER_SYNC_ROOT,
    ERROR_CLOUD_FILE_IN_USE,
    ERROR_CLOUD_FILE_PINNED,
    ERROR_CLOUD_FILE_REQUEST_ABORTED,
    ERROR_CLOUD_FILE_PROPERTY_CORRUPT,
    ERROR_CLOUD_FILE_ACCESS_DENIED,
    ERROR_CLOUD_FILE_INCOMPATIBLE_HARDLINKS,
    ERROR_CLOUD_FILE_PROPERTY_LOCK_CONFLICT,
    ERROR_CLOUD_FILE_REQUEST_CANCELED,
    ERROR_EXTERNAL_SYSKEY_NOT_SUPPORTED,
    ERROR_THREAD_MODE_ALREADY_BACKGROUND,
    ERROR_THREAD_MODE_NOT_BACKGROUND,
    ERROR_PROCESS_MODE_ALREADY_BACKGROUND,
    ERROR_PROCESS_MODE_NOT_BACKGROUND,
    ERROR_CLOUD_FILE_PROVIDER_TERMINATED,
    ERROR_NOT_A_CLOUD_SYNC_ROOT,
    ERROR_FILE_PROTECTED_UNDER_DPL,
    ERROR_VOLUME_NOT_CLUSTER_ALIGNED,
    ERROR_NO_PHYSICALLY_ALIGNED_FREE_SPACE_FOUND,
    ERROR_APPX_FILE_NOT_ENCRYPTED,
    ERROR_RWRAW_ENCRYPTED_FILE_NOT_ENCRYPTED,
    ERROR_RWRAW_ENCRYPTED_INVALID_EDATAINFO_FILEOFFSET,
    ERROR_RWRAW_ENCRYPTED_INVALID_EDATAINFO_FILERANGE,
    ERROR_RWRAW_ENCRYPTED_INVALID_EDATAINFO_PARAMETER,
    ERROR_LINUX_SUBSYSTEM_NOT_PRESENT,
    ERROR_FT_READ_FAILURE,
    ERROR_STORAGE_RESERVE_ID_INVALID,
    ERROR_STORAGE_RESERVE_DOES_NOT_EXIST,
    ERROR_STORAGE_RESERVE_ALREADY_EXISTS,
    ERROR_STORAGE_RESERVE_NOT_EMPTY,
    ERROR_NOT_A_DAX_VOLUME,
    ERROR_NOT_DAX_MAPPABLE,
    ERROR_TIME_SENSITIVE_THREAD,
    ERROR_DPL_NOT_SUPPORTED_FOR_USER,
    ERROR_CASE_DIFFERING_NAMES_IN_DIR,
    ERROR_FILE_NOT_SUPPORTED,
    ERROR_CLOUD_FILE_REQUEST_TIMEOUT,
    ERROR_NO_TASK_QUEUE,
    ERROR_SRC_SRV_DLL_LOAD_FAILED,
    ERROR_NOT_SUPPORTED_WITH_BTT,
    ERROR_ENCRYPTION_DISABLED,
    ERROR_ENCRYPTING_METADATA_DISALLOWED,
    ERROR_CANT_CLEAR_ENCRYPTION_FLAG,
    ERROR_NO_SUCH_DEVICE,
    ERROR_CLOUD_FILE_DEHYDRATION_DISALLOWED,
    ERROR_FILE_SNAP_IN_PROGRESS,
    ERROR_FILE_SNAP_USER_SECTION_NOT_SUPPORTED,
    ERROR_FILE_SNAP_MODIFY_NOT_SUPPORTED,
    ERROR_FILE_SNAP_IO_NOT_COORDINATED,
    ERROR_FILE_SNAP_UNEXPECTED_ERROR,
    ERROR_FILE_SNAP_INVALID_PARAMETER,
    ERROR_UNSATISFIED_DEPENDENCIES,
    ERROR_CASE_SENSITIVE_PATH,
    ERROR_UNEXPECTED_NTCACHEMANAGER_ERROR,
    ERROR_LINUX_SUBSYSTEM_UPDATE_REQUIRED,
    ERROR_DLP_POLICY_WARNS_AGAINST_OPERATION,
    ERROR_DLP_POLICY_DENIES_OPERATION,
    ERROR_DLP_POLICY_SILENTLY_FAIL,
    ERROR_CAPAUTHZ_NOT_DEVUNLOCKED,
    ERROR_CAPAUTHZ_CHANGE_TYPE,
    ERROR_CAPAUTHZ_NOT_PROVISIONED,
    ERROR_CAPAUTHZ_NOT_AUTHORIZED,
    ERROR_CAPAUTHZ_NO_POLICY,
    ERROR_CAPAUTHZ_DB_CORRUPTED,
    ERROR_CAPAUTHZ_SCCD_INVALID_CATALOG,
    ERROR_CAPAUTHZ_SCCD_NO_AUTH_ENTITY,
    ERROR_CAPAUTHZ_SCCD_PARSE_ERROR,
    ERROR_CAPAUTHZ_SCCD_DEV_MODE_REQUIRED,
    ERROR_CAPAUTHZ_SCCD_NO_CAPABILITY_MATCH,
    ERROR_CIMFS_IMAGE_CORRUPT,
    ERROR_PNP_QUERY_REMOVE_DEVICE_TIMEOUT,
    ERROR_PNP_QUERY_REMOVE_RELATED_DEVICE_TIMEOUT,
    ERROR_PNP_QUERY_REMOVE_UNRELATED_DEVICE_TIMEOUT,
    ERROR_DEVICE_HARDWARE_ERROR,
    ERROR_INVALID_ADDRESS,
    ERROR_HAS_SYSTEM_CRITICAL_FILES,
    ERROR_USER_PROFILE_LOAD,
    ERROR_ARITHMETIC_OVERFLOW,
    ERROR_PIPE_CONNECTED,
    ERROR_PIPE_LISTENING,
    ERROR_VERIFIER_STOP,
    ERROR_ABIOS_ERROR,
    ERROR_WX86_WARNING,
    ERROR_WX86_ERROR,
    ERROR_TIMER_NOT_CANCELED,
    ERROR_UNWIND,
    ERROR_BAD_STACK,
    ERROR_INVALID_UNWIND_TARGET,
    ERROR_INVALID_PORT_ATTRIBUTES,
    ERROR_PORT_MESSAGE_TOO_LONG,
    ERROR_INVALID_QUOTA_LOWER,
    ERROR_DEVICE_ALREADY_ATTACHED,
    ERROR_INSTRUCTION_MISALIGNMENT,
    ERROR_PROFILING_NOT_STARTED,
    ERROR_PROFILING_NOT_STOPPED,
    ERROR_COULD_NOT_INTERPRET,
    ERROR_PROFILING_AT_LIMIT,
    ERROR_CANT_WAIT,
    ERROR_CANT_TERMINATE_SELF,
    ERROR_UNEXPECTED_MM_CREATE_ERR,
    ERROR_UNEXPECTED_MM_MAP_ERROR,
    ERROR_UNEXPECTED_MM_EXTEND_ERR,
    ERROR_BAD_FUNCTION_TABLE,
    ERROR_NO_GUID_TRANSLATION,
    ERROR_INVALID_LDT_SIZE,
    ERROR_INVALID_LDT_OFFSET,
    ERROR_INVALID_LDT_DESCRIPTOR,
    ERROR_TOO_MANY_THREADS,
    ERROR_THREAD_NOT_IN_PROCESS,
    ERROR_PAGEFILE_QUOTA_EXCEEDED,
    ERROR_LOGON_SERVER_CONFLICT,
    ERROR_SYNCHRONIZATION_REQUIRED,
    ERROR_NET_OPEN_FAILED,
    ERROR_IO_PRIVILEGE_FAILED,
    ERROR_CONTROL_C_EXIT,
    ERROR_MISSING_SYSTEMFILE,
    ERROR_UNHANDLED_EXCEPTION,
    ERROR_APP_INIT_FAILURE,
    ERROR_PAGEFILE_CREATE_FAILED,
    ERROR_INVALID_IMAGE_HASH,
    ERROR_NO_PAGEFILE,
    ERROR_ILLEGAL_FLOAT_CONTEXT,
    ERROR_NO_EVENT_PAIR,
    ERROR_DOMAIN_CTRLR_CONFIG_ERROR,
    ERROR_ILLEGAL_CHARACTER,
    ERROR_UNDEFINED_CHARACTER,
    ERROR_FLOPPY_VOLUME,
    ERROR_BIOS_FAILED_TO_CONNECT_INTERRUPT,
    ERROR_BACKUP_CONTROLLER,
    ERROR_MUTANT_LIMIT_EXCEEDED,
    ERROR_FS_DRIVER_REQUIRED,
    ERROR_CANNOT_LOAD_REGISTRY_FILE,
    ERROR_DEBUG_ATTACH_FAILED,
    ERROR_SYSTEM_PROCESS_TERMINATED,
    ERROR_DATA_NOT_ACCEPTED,
    ERROR_VDM_HARD_ERROR,
    ERROR_DRIVER_CANCEL_TIMEOUT,
    ERROR_REPLY_MESSAGE_MISMATCH,
    ERROR_LOST_WRITEBEHIND_DATA,
    ERROR_CLIENT_SERVER_PARAMETERS_INVALID,
    ERROR_NOT_TINY_STREAM,
    ERROR_STACK_OVERFLOW_READ,
    ERROR_CONVERT_TO_LARGE,
    ERROR_FOUND_OUT_OF_SCOPE,
    ERROR_ALLOCATE_BUCKET,
    ERROR_MARSHALL_OVERFLOW,
    ERROR_INVALID_VARIANT,
    ERROR_BAD_COMPRESSION_BUFFER,
    ERROR_AUDIT_FAILED,
    ERROR_TIMER_RESOLUTION_NOT_SET,
    ERROR_INSUFFICIENT_LOGON_INFO,
    ERROR_BAD_DLL_ENTRYPOINT,
    ERROR_BAD_SERVICE_ENTRYPOINT,
    ERROR_IP_ADDRESS_CONFLICT1,
    ERROR_IP_ADDRESS_CONFLICT2,
    ERROR_REGISTRY_QUOTA_LIMIT,
    ERROR_NO_CALLBACK_ACTIVE,
    ERROR_PWD_TOO_SHORT,
    ERROR_PWD_TOO_RECENT,
    ERROR_PWD_HISTORY_CONFLICT,
    ERROR_UNSUPPORTED_COMPRESSION,
    ERROR_INVALID_HW_PROFILE,
    ERROR_INVALID_PLUGPLAY_DEVICE_PATH,
    ERROR_QUOTA_LIST_INCONSISTENT,
    ERROR_EVALUATION_EXPIRATION,
    ERROR_ILLEGAL_DLL_RELOCATION,
    ERROR_DLL_INIT_FAILED_LOGOFF,
    ERROR_VALIDATE_CONTINUE,
    ERROR_NO_MORE_MATCHES,
    ERROR_RANGE_LIST_CONFLICT,
    ERROR_SERVER_SID_MISMATCH,
    ERROR_CANT_ENABLE_DENY_ONLY,
    ERROR_FLOAT_MULTIPLE_FAULTS,
    ERROR_FLOAT_MULTIPLE_TRAPS,
    ERROR_NOINTERFACE,
    ERROR_DRIVER_FAILED_SLEEP,
    ERROR_CORRUPT_SYSTEM_FILE,
    ERROR_COMMITMENT_MINIMUM,
    ERROR_PNP_RESTART_ENUMERATION,
    ERROR_SYSTEM_IMAGE_BAD_SIGNATURE,
    ERROR_PNP_REBOOT_REQUIRED,
    ERROR_INSUFFICIENT_POWER,
    ERROR_MULTIPLE_FAULT_VIOLATION,
    ERROR_SYSTEM_SHUTDOWN,
    ERROR_PORT_NOT_SET,
    ERROR_DS_VERSION_CHECK_FAILURE,
    ERROR_RANGE_NOT_FOUND,
    ERROR_NOT_SAFE_MODE_DRIVER,
    ERROR_FAILED_DRIVER_ENTRY,
    ERROR_DEVICE_ENUMERATION_ERROR,
    ERROR_MOUNT_POINT_NOT_RESOLVED,
    ERROR_INVALID_DEVICE_OBJECT_PARAMETER,
    ERROR_MCA_OCCURED,
    ERROR_DRIVER_DATABASE_ERROR,
    ERROR_SYSTEM_HIVE_TOO_LARGE,
    ERROR_DRIVER_FAILED_PRIOR_UNLOAD,
    ERROR_VOLSNAP_PREPARE_HIBERNATE,
    ERROR_HIBERNATION_FAILURE,
    ERROR_PWD_TOO_LONG,
    ERROR_FILE_SYSTEM_LIMITATION,
    ERROR_ASSERTION_FAILURE,
    ERROR_ACPI_ERROR,
    ERROR_WOW_ASSERTION,
    ERROR_PNP_BAD_MPS_TABLE,
    ERROR_PNP_TRANSLATION_FAILED,
    ERROR_PNP_IRQ_TRANSLATION_FAILED,
    ERROR_PNP_INVALID_ID,
    ERROR_WAKE_SYSTEM_DEBUGGER,
    ERROR_HANDLES_CLOSED,
    ERROR_EXTRANEOUS_INFORMATION,
    ERROR_RXACT_COMMIT_NECESSARY,
    ERROR_MEDIA_CHECK,
    ERROR_GUID_SUBSTITUTION_MADE,
    ERROR_STOPPED_ON_SYMLINK,
    ERROR_LONGJUMP,
    ERROR_PLUGPLAY_QUERY_VETOED,
    ERROR_UNWIND_CONSOLIDATE,
    ERROR_REGISTRY_HIVE_RECOVERED,
    ERROR_DLL_MIGHT_BE_INSECURE,
    ERROR_DLL_MIGHT_BE_INCOMPATIBLE,
    ERROR_DBG_EXCEPTION_NOT_HANDLED,
    ERROR_DBG_REPLY_LATER,
    ERROR_DBG_UNABLE_TO_PROVIDE_HANDLE,
    ERROR_DBG_TERMINATE_THREAD,
    ERROR_DBG_TERMINATE_PROCESS,
    ERROR_DBG_CONTROL_C,
    ERROR_DBG_PRINTEXCEPTION_C,
    ERROR_DBG_RIPEXCEPTION,
    ERROR_DBG_CONTROL_BREAK,
    ERROR_DBG_COMMAND_EXCEPTION,
    ERROR_OBJECT_NAME_EXISTS,
    ERROR_THREAD_WAS_SUSPENDED,
    ERROR_IMAGE_NOT_AT_BASE,
    ERROR_RXACT_STATE_CREATED,
    ERROR_SEGMENT_NOTIFICATION,
    ERROR_BAD_CURRENT_DIRECTORY,
    ERROR_FT_READ_RECOVERY_FROM_BACKUP,
    ERROR_FT_WRITE_RECOVERY,
    ERROR_IMAGE_MACHINE_TYPE_MISMATCH,
    ERROR_RECEIVE_PARTIAL,
    ERROR_RECEIVE_EXPEDITED,
    ERROR_RECEIVE_PARTIAL_EXPEDITED,
    ERROR_EVENT_DONE,
    ERROR_EVENT_PENDING,
    ERROR_CHECKING_FILE_SYSTEM,
    ERROR_FATAL_APP_EXIT,
    ERROR_PREDEFINED_HANDLE,
    ERROR_WAS_UNLOCKED,
    ERROR_SERVICE_NOTIFICATION,
    ERROR_WAS_LOCKED,
    ERROR_LOG_HARD_ERROR,
    ERROR_ALREADY_WIN32,
    ERROR_IMAGE_MACHINE_TYPE_MISMATCH_EXE,
    ERROR_NO_YIELD_PERFORMED,
    ERROR_TIMER_RESUME_IGNORED,
    ERROR_ARBITRATION_UNHANDLED,
    ERROR_CARDBUS_NOT_SUPPORTED,
    ERROR_MP_PROCESSOR_MISMATCH,
    ERROR_HIBERNATED,
    ERROR_RESUME_HIBERNATION,
    ERROR_FIRMWARE_UPDATED,
    ERROR_DRIVERS_LEAKING_LOCKED_PAGES,
    ERROR_WAKE_SYSTEM,
    ERROR_WAIT_1,
    ERROR_WAIT_2,
    ERROR_WAIT_3,
    ERROR_WAIT_63,
    ERROR_ABANDONED_WAIT_0,
    ERROR_ABANDONED_WAIT_63,
    ERROR_USER_APC,
    ERROR_KERNEL_APC,
    ERROR_ALERTED,
    ERROR_ELEVATION_REQUIRED,
    ERROR_REPARSE,
    ERROR_OPLOCK_BREAK_IN_PROGRESS,
    ERROR_VOLUME_MOUNTED,
    ERROR_RXACT_COMMITTED,
    ERROR_NOTIFY_CLEANUP,
    ERROR_PRIMARY_TRANSPORT_CONNECT_FAILED,
    ERROR_PAGE_FAULT_TRANSITION,
    ERROR_PAGE_FAULT_DEMAND_ZERO,
    ERROR_PAGE_FAULT_COPY_ON_WRITE,
    ERROR_PAGE_FAULT_GUARD_PAGE,
    ERROR_PAGE_FAULT_PAGING_FILE,
    ERROR_CACHE_PAGE_LOCKED,
    ERROR_CRASH_DUMP,
    ERROR_BUFFER_ALL_ZEROS,
    ERROR_REPARSE_OBJECT,
    ERROR_RESOURCE_REQUIREMENTS_CHANGED,
    ERROR_TRANSLATION_COMPLETE,
    ERROR_NOTHING_TO_TERMINATE,
    ERROR_PROCESS_NOT_IN_JOB,
    ERROR_PROCESS_IN_JOB,
    ERROR_VOLSNAP_HIBERNATE_READY,
    ERROR_FSFILTER_OP_COMPLETED_SUCCESSFULLY,
    ERROR_INTERRUPT_VECTOR_ALREADY_CONNECTED,
    ERROR_INTERRUPT_STILL_CONNECTED,
    ERROR_WAIT_FOR_OPLOCK,
    ERROR_DBG_EXCEPTION_HANDLED,
    ERROR_DBG_CONTINUE,
    ERROR_CALLBACK_POP_STACK,
    ERROR_COMPRESSION_DISABLED,
    ERROR_CANTFETCHBACKWARDS,
    ERROR_CANTSCROLLBACKWARDS,
    ERROR_ROWSNOTRELEASED,
    ERROR_BAD_ACCESSOR_FLAGS,
    ERROR_ERRORS_ENCOUNTERED,
    ERROR_NOT_CAPABLE,
    ERROR_REQUEST_OUT_OF_SEQUENCE,
    ERROR_VERSION_PARSE_ERROR,
    ERROR_BADSTARTPOSITION,
    ERROR_MEMORY_HARDWARE,
    ERROR_DISK_REPAIR_DISABLED,
    ERROR_INSUFFICIENT_RESOURCE_FOR_SPECIFIED_SHARED_SECTION_SIZE,
    ERROR_SYSTEM_POWERSTATE_TRANSITION,
    ERROR_SYSTEM_POWERSTATE_COMPLEX_TRANSITION,
    ERROR_MCA_EXCEPTION,
    ERROR_ACCESS_AUDIT_BY_POLICY,
    ERROR_ACCESS_DISABLED_NO_SAFER_UI_BY_POLICY,
    ERROR_ABANDON_HIBERFILE,
    ERROR_LOST_WRITEBEHIND_DATA_NETWORK_DISCONNECTED,
    ERROR_LOST_WRITEBEHIND_DATA_NETWORK_SERVER_ERROR,
    ERROR_LOST_WRITEBEHIND_DATA_LOCAL_DISK_ERROR,
    ERROR_BAD_MCFG_TABLE,
    ERROR_DISK_REPAIR_REDIRECTED,
    ERROR_DISK_REPAIR_UNSUCCESSFUL,
    ERROR_CORRUPT_LOG_OVERFULL,
    ERROR_CORRUPT_LOG_CORRUPTED,
    ERROR_CORRUPT_LOG_UNAVAILABLE,
    ERROR_CORRUPT_LOG_DELETED_FULL,
    ERROR_CORRUPT_LOG_CLEARED,
    ERROR_ORPHAN_NAME_EXHAUSTED,
    ERROR_OPLOCK_SWITCHED_TO_NEW_HANDLE,
    ERROR_CANNOT_GRANT_REQUESTED_OPLOCK,
    ERROR_CANNOT_BREAK_OPLOCK,
    ERROR_OPLOCK_HANDLE_CLOSED,
    ERROR_NO_ACE_CONDITION,
    ERROR_INVALID_ACE_CONDITION,
    ERROR_FILE_HANDLE_REVOKED,
    ERROR_IMAGE_AT_DIFFERENT_BASE,
    ERROR_ENCRYPTED_IO_NOT_POSSIBLE,
    ERROR_FILE_METADATA_OPTIMIZATION_IN_PROGRESS,
    ERROR_QUOTA_ACTIVITY,
    ERROR_HANDLE_REVOKED,
    ERROR_CALLBACK_INVOKE_INLINE,
    ERROR_CPU_SET_INVALID,
    ERROR_ENCLAVE_NOT_TERMINATED,
    ERROR_ENCLAVE_VIOLATION,
    ERROR_EA_ACCESS_DENIED,
    ERROR_OPERATION_ABORTED,
    ERROR_IO_INCOMPLETE,
    ERROR_IO_PENDING,
    ERROR_NOACCESS,
    ERROR_SWAPERROR,
    ERROR_STACK_OVERFLOW,
    ERROR_INVALID_MESSAGE,
    ERROR_CAN_NOT_COMPLETE,
    ERROR_INVALID_FLAGS,
    ERROR_UNRECOGNIZED_VOLUME,
    ERROR_FILE_INVALID,
    ERROR_FULLSCREEN_MODE,
    ERROR_NO_TOKEN,
    ERROR_BADDB,
    ERROR_BADKEY,
    ERROR_CANTOPEN,
    ERROR_CANTREAD,
    ERROR_CANTWRITE,
    ERROR_REGISTRY_RECOVERED,
    ERROR_REGISTRY_CORRUPT,
    ERROR_REGISTRY_IO_FAILED,
    ERROR_NOT_REGISTRY_FILE,
    ERROR_KEY_DELETED,
    ERROR_NO_LOG_SPACE,
    ERROR_KEY_HAS_CHILDREN,
    ERROR_CHILD_MUST_BE_VOLATILE,
    ERROR_NOTIFY_ENUM_DIR,
    ERROR_DEPENDENT_SERVICES_RUNNING,
    ERROR_INVALID_SERVICE_CONTROL,
    ERROR_SERVICE_REQUEST_TIMEOUT,
    ERROR_SERVICE_NO_THREAD,
    ERROR_SERVICE_DATABASE_LOCKED,
    ERROR_SERVICE_ALREADY_RUNNING,
    ERROR_INVALID_SERVICE_ACCOUNT,
    ERROR_SERVICE_DISABLED,
    ERROR_CIRCULAR_DEPENDENCY,
    ERROR_SERVICE_DOES_NOT_EXIST,
    ERROR_SERVICE_CANNOT_ACCEPT_CTRL,
    ERROR_SERVICE_NOT_ACTIVE,
    ERROR_FAILED_SERVICE_CONTROLLER_CONNECT,
    ERROR_EXCEPTION_IN_SERVICE,
    ERROR_DATABASE_DOES_NOT_EXIST,
    ERROR_SERVICE_SPECIFIC_ERROR,
    ERROR_PROCESS_ABORTED,
    ERROR_SERVICE_DEPENDENCY_FAIL,
    ERROR_SERVICE_LOGON_FAILED,
    ERROR_SERVICE_START_HANG,
    ERROR_INVALID_SERVICE_LOCK,
    ERROR_SERVICE_MARKED_FOR_DELETE,
    ERROR_SERVICE_EXISTS,
    ERROR_ALREADY_RUNNING_LKG,
    ERROR_SERVICE_DEPENDENCY_DELETED,
    ERROR_BOOT_ALREADY_ACCEPTED,
    ERROR_SERVICE_NEVER_STARTED,
    ERROR_DUPLICATE_SERVICE_NAME,
    ERROR_DIFFERENT_SERVICE_ACCOUNT,
    ERROR_CANNOT_DETECT_DRIVER_FAILURE,
    ERROR_CANNOT_DETECT_PROCESS_ABORT,
    ERROR_NO_RECOVERY_PROGRAM,
    ERROR_SERVICE_NOT_IN_EXE,
    ERROR_NOT_SAFEBOOT_SERVICE,
    ERROR_END_OF_MEDIA,
    ERROR_FILEMARK_DETECTED,
    ERROR_BEGINNING_OF_MEDIA,
    ERROR_SETMARK_DETECTED,
    ERROR_NO_DATA_DETECTED,
    ERROR_PARTITION_FAILURE,
    ERROR_INVALID_BLOCK_LENGTH,
    ERROR_DEVICE_NOT_PARTITIONED,
    ERROR_UNABLE_TO_LOCK_MEDIA,
    ERROR_UNABLE_TO_UNLOAD_MEDIA,
    ERROR_MEDIA_CHANGED,
    ERROR_BUS_RESET,
    ERROR_NO_MEDIA_IN_DRIVE,
    ERROR_NO_UNICODE_TRANSLATION,
    ERROR_DLL_INIT_FAILED,
    ERROR_SHUTDOWN_IN_PROGRESS,
    ERROR_NO_SHUTDOWN_IN_PROGRESS,
    ERROR_IO_DEVICE,
    ERROR_SERIAL_NO_DEVICE,
    ERROR_IRQ_BUSY,
    ERROR_MORE_WRITES,
    ERROR_COUNTER_TIMEOUT,
    ERROR_FLOPPY_ID_MARK_NOT_FOUND,
    ERROR_FLOPPY_WRONG_CYLINDER,
    ERROR_FLOPPY_UNKNOWN_ERROR,
    ERROR_FLOPPY_BAD_REGISTERS,
    ERROR_DISK_RECALIBRATE_FAILED,
    ERROR_DISK_OPERATION_FAILED,
    ERROR_DISK_RESET_FAILED,
    ERROR_EOM_OVERFLOW,
    ERROR_NOT_ENOUGH_SERVER_MEMORY,
    ERROR_POSSIBLE_DEADLOCK,
    ERROR_MAPPED_ALIGNMENT,
    ERROR_SET_POWER_STATE_VETOED,
    ERROR_SET_POWER_STATE_FAILED,
    ERROR_TOO_MANY_LINKS,
    ERROR_OLD_WIN_VERSION,
    ERROR_APP_WRONG_OS,
    ERROR_SINGLE_INSTANCE_APP,
    ERROR_RMODE_APP,
    ERROR_INVALID_DLL,
    ERROR_NO_ASSOCIATION,
    ERROR_DDE_FAIL,
    ERROR_DLL_NOT_FOUND,
    ERROR_NO_MORE_USER_HANDLES,
    ERROR_MESSAGE_SYNC_ONLY,
    ERROR_SOURCE_ELEMENT_EMPTY,
    ERROR_DESTINATION_ELEMENT_FULL,
    ERROR_ILLEGAL_ELEMENT_ADDRESS,
    ERROR_MAGAZINE_NOT_PRESENT,
    ERROR_DEVICE_REINITIALIZATION_NEEDED,
    ERROR_DEVICE_REQUIRES_CLEANING,
    ERROR_DEVICE_DOOR_OPEN,
    ERROR_DEVICE_NOT_CONNECTED,
    ERROR_NOT_FOUND,
    ERROR_NO_MATCH,
    ERROR_SET_NOT_FOUND,
    ERROR_POINT_NOT_FOUND,
    ERROR_NO_TRACKING_SERVICE,
    ERROR_NO_VOLUME_ID,
    ERROR_UNABLE_TO_REMOVE_REPLACED,
    ERROR_UNABLE_TO_MOVE_REPLACEMENT,
    ERROR_UNABLE_TO_MOVE_REPLACEMENT_2,
    ERROR_JOURNAL_DELETE_IN_PROGRESS,
    ERROR_JOURNAL_NOT_ACTIVE,
    ERROR_POTENTIAL_FILE_FOUND,
    ERROR_JOURNAL_ENTRY_DELETED,
    ERROR_VRF_CFG_AND_IO_ENABLED,
    ERROR_PARTITION_TERMINATING,
    ERROR_SHUTDOWN_IS_SCHEDULED,
    ERROR_SHUTDOWN_USERS_LOGGED_ON,
    ERROR_BAD_DEVICE,
    ERROR_CONNECTION_UNAVAIL,
    ERROR_DEVICE_ALREADY_REMEMBERED,
    ERROR_NO_NET_OR_BAD_PATH,
    ERROR_BAD_PROVIDER,
    ERROR_CANNOT_OPEN_PROFILE,
    ERROR_BAD_PROFILE,
    ERROR_NOT_CONTAINER,
    ERROR_EXTENDED_ERROR,
    ERROR_INVALID_GROUPNAME,
    ERROR_INVALID_COMPUTERNAME,
    ERROR_INVALID_EVENTNAME,
    ERROR_INVALID_DOMAINNAME,
    ERROR_INVALID_SERVICENAME,
    ERROR_INVALID_NETNAME,
    ERROR_INVALID_SHARENAME,
    ERROR_INVALID_PASSWORDNAME,
    ERROR_INVALID_MESSAGENAME,
    ERROR_INVALID_MESSAGEDEST,
    ERROR_SESSION_CREDENTIAL_CONFLICT,
    ERROR_REMOTE_SESSION_LIMIT_EXCEEDED,
    ERROR_DUP_DOMAINNAME,
    ERROR_NO_NETWORK,
    ERROR_CANCELLED,
    ERROR_USER_MAPPED_FILE,
    ERROR_CONNECTION_REFUSED,
    ERROR_GRACEFUL_DISCONNECT,
    ERROR_ADDRESS_ALREADY_ASSOCIATED,
    ERROR_ADDRESS_NOT_ASSOCIATED,
    ERROR_CONNECTION_INVALID,
    ERROR_CONNECTION_ACTIVE,
    ERROR_NETWORK_UNREACHABLE,
    ERROR_HOST_UNREACHABLE,
    ERROR_PROTOCOL_UNREACHABLE,
    ERROR_PORT_UNREACHABLE,
    ERROR_REQUEST_ABORTED,
    ERROR_CONNECTION_ABORTED,
    ERROR_RETRY,
    ERROR_CONNECTION_COUNT_LIMIT,
    ERROR_LOGIN_TIME_RESTRICTION,
    ERROR_LOGIN_WKSTA_RESTRICTION,
    ERROR_INCORRECT_ADDRESS,
    ERROR_ALREADY_REGISTERED,
    ERROR_SERVICE_NOT_FOUND,
    ERROR_NOT_AUTHENTICATED,
    ERROR_NOT_LOGGED_ON,
    ERROR_CONTINUE,
    ERROR_ALREADY_INITIALIZED,
    ERROR_NO_MORE_DEVICES,
    ERROR_NO_SUCH_SITE,
    ERROR_DOMAIN_CONTROLLER_EXISTS,
    ERROR_ONLY_IF_CONNECTED,
    ERROR_OVERRIDE_NOCHANGES,
    ERROR_BAD_USER_PROFILE,
    ERROR_NOT_SUPPORTED_ON_SBS,
    ERROR_SERVER_SHUTDOWN_IN_PROGRESS,
    ERROR_HOST_DOWN,
    ERROR_NON_ACCOUNT_SID,
    ERROR_NON_DOMAIN_SID,
    ERROR_APPHELP_BLOCK,
    ERROR_ACCESS_DISABLED_BY_POLICY,
    ERROR_REG_NAT_CONSUMPTION,
    ERROR_CSCSHARE_OFFLINE,
    ERROR_PKINIT_FAILURE,
    ERROR_SMARTCARD_SUBSYSTEM_FAILURE,
    ERROR_DOWNGRADE_DETECTED,
    ERROR_MACHINE_LOCKED,
    ERROR_SMB_GUEST_LOGON_BLOCKED,
    ERROR_CALLBACK_SUPPLIED_INVALID_DATA,
    ERROR_SYNC_FOREGROUND_REFRESH_REQUIRED,
    ERROR_DRIVER_BLOCKED,
    ERROR_INVALID_IMPORT_OF_NON_DLL,
    ERROR_ACCESS_DISABLED_WEBBLADE,
    ERROR_ACCESS_DISABLED_WEBBLADE_TAMPER,
    ERROR_RECOVERY_FAILURE,
    ERROR_ALREADY_FIBER,
    ERROR_ALREADY_THREAD,
    ERROR_STACK_BUFFER_OVERRUN,
    ERROR_PARAMETER_QUOTA_EXCEEDED,
    ERROR_DEBUGGER_INACTIVE,
    ERROR_DELAY_LOAD_FAILED,
    ERROR_VDM_DISALLOWED,
    ERROR_UNIDENTIFIED_ERROR,
    ERROR_INVALID_CRUNTIME_PARAMETER,
    ERROR_BEYOND_VDL,
    ERROR_INCOMPATIBLE_SERVICE_SID_TYPE,
    ERROR_DRIVER_PROCESS_TERMINATED,
    ERROR_IMPLEMENTATION_LIMIT,
    ERROR_PROCESS_IS_PROTECTED,
    ERROR_SERVICE_NOTIFY_CLIENT_LAGGING,
    ERROR_DISK_QUOTA_EXCEEDED,
    ERROR_CONTENT_BLOCKED,
    ERROR_INCOMPATIBLE_SERVICE_PRIVILEGE,
    ERROR_APP_HANG,
    ERROR_INVALID_LABEL,
    ERROR_NOT_ALL_ASSIGNED,
    ERROR_SOME_NOT_MAPPED,
    ERROR_NO_QUOTAS_FOR_ACCOUNT,
    ERROR_LOCAL_USER_SESSION_KEY,
    ERROR_NULL_LM_PASSWORD,
    ERROR_UNKNOWN_REVISION,
    ERROR_REVISION_MISMATCH,
    ERROR_INVALID_OWNER,
    ERROR_INVALID_PRIMARY_GROUP,
    ERROR_NO_IMPERSONATION_TOKEN,
    ERROR_CANT_DISABLE_MANDATORY,
    ERROR_NO_LOGON_SERVERS,
    ERROR_NO_SUCH_LOGON_SESSION,
    ERROR_NO_SUCH_PRIVILEGE,
    ERROR_PRIVILEGE_NOT_HELD,
    ERROR_INVALID_ACCOUNT_NAME,
    ERROR_USER_EXISTS,
    ERROR_NO_SUCH_USER,
    ERROR_GROUP_EXISTS,
    ERROR_NO_SUCH_GROUP,
    ERROR_MEMBER_IN_GROUP,
    ERROR_MEMBER_NOT_IN_GROUP,
    ERROR_LAST_ADMIN,
    ERROR_WRONG_PASSWORD,
    ERROR_ILL_FORMED_PASSWORD,
    ERROR_PASSWORD_RESTRICTION,
    ERROR_LOGON_FAILURE,
    ERROR_ACCOUNT_RESTRICTION,
    ERROR_INVALID_LOGON_HOURS,
    ERROR_INVALID_WORKSTATION,
    ERROR_PASSWORD_EXPIRED,
    ERROR_ACCOUNT_DISABLED,
    ERROR_NONE_MAPPED,
    ERROR_TOO_MANY_LUIDS_REQUESTED,
    ERROR_LUIDS_EXHAUSTED,
    ERROR_INVALID_SUB_AUTHORITY,
    ERROR_INVALID_ACL,
    ERROR_INVALID_SID,
    ERROR_INVALID_SECURITY_DESCR,
    ERROR_BAD_INHERITANCE_ACL,
    ERROR_SERVER_DISABLED,
    ERROR_SERVER_NOT_DISABLED,
    ERROR_INVALID_ID_AUTHORITY,
    ERROR_ALLOTTED_SPACE_EXCEEDED,
    ERROR_INVALID_GROUP_ATTRIBUTES,
    ERROR_BAD_IMPERSONATION_LEVEL,
    ERROR_CANT_OPEN_ANONYMOUS,
    ERROR_BAD_VALIDATION_CLASS,
    ERROR_BAD_TOKEN_TYPE,
    ERROR_NO_SECURITY_ON_OBJECT,
    ERROR_CANT_ACCESS_DOMAIN_INFO,
    ERROR_INVALID_SERVER_STATE,
    ERROR_INVALID_DOMAIN_STATE,
    ERROR_INVALID_DOMAIN_ROLE,
    ERROR_NO_SUCH_DOMAIN,
    ERROR_DOMAIN_EXISTS,
    ERROR_DOMAIN_LIMIT_EXCEEDED,
    ERROR_INTERNAL_DB_CORRUPTION,
    ERROR_INTERNAL_ERROR,
    ERROR_GENERIC_NOT_MAPPED,
    ERROR_BAD_DESCRIPTOR_FORMAT,
    ERROR_NOT_LOGON_PROCESS,
    ERROR_LOGON_SESSION_EXISTS,
    ERROR_NO_SUCH_PACKAGE,
    ERROR_BAD_LOGON_SESSION_STATE,
    ERROR_LOGON_SESSION_COLLISION,
    ERROR_INVALID_LOGON_TYPE,
    ERROR_CANNOT_IMPERSONATE,
    ERROR_RXACT_INVALID_STATE,
    ERROR_RXACT_COMMIT_FAILURE,
    ERROR_SPECIAL_ACCOUNT,
    ERROR_SPECIAL_GROUP,
    ERROR_SPECIAL_USER,
    ERROR_MEMBERS_PRIMARY_GROUP,
    ERROR_TOKEN_ALREADY_IN_USE,
    ERROR_NO_SUCH_ALIAS,
    ERROR_MEMBER_NOT_IN_ALIAS,
    ERROR_MEMBER_IN_ALIAS,
    ERROR_ALIAS_EXISTS,
    ERROR_LOGON_NOT_GRANTED,
    ERROR_TOO_MANY_SECRETS,
    ERROR_SECRET_TOO_LONG,
    ERROR_INTERNAL_DB_ERROR,
    ERROR_TOO_MANY_CONTEXT_IDS,
    ERROR_LOGON_TYPE_NOT_GRANTED,
    ERROR_NT_CROSS_ENCRYPTION_REQUIRED,
    ERROR_NO_SUCH_MEMBER,
    ERROR_INVALID_MEMBER,
    ERROR_TOO_MANY_SIDS,
    ERROR_LM_CROSS_ENCRYPTION_REQUIRED,
    ERROR_NO_INHERITANCE,
    ERROR_FILE_CORRUPT,
    ERROR_DISK_CORRUPT,
    ERROR_NO_USER_SESSION_KEY,
    ERROR_LICENSE_QUOTA_EXCEEDED,
    ERROR_WRONG_TARGET_NAME,
    ERROR_MUTUAL_AUTH_FAILED,
    ERROR_TIME_SKEW,
    ERROR_CURRENT_DOMAIN_NOT_ALLOWED,
    ERROR_INVALID_WINDOW_HANDLE,
    ERROR_INVALID_MENU_HANDLE,
    ERROR_INVALID_CURSOR_HANDLE,
    ERROR_INVALID_ACCEL_HANDLE,
    ERROR_INVALID_HOOK_HANDLE,
    ERROR_INVALID_DWP_HANDLE,
    ERROR_TLW_WITH_WSCHILD,
    ERROR_CANNOT_FIND_WND_CLASS,
    ERROR_WINDOW_OF_OTHER_THREAD,
    ERROR_HOTKEY_ALREADY_REGISTERED,
    ERROR_CLASS_ALREADY_EXISTS,
    ERROR_CLASS_DOES_NOT_EXIST,
    ERROR_CLASS_HAS_WINDOWS,
    ERROR_INVALID_INDEX,
    ERROR_INVALID_ICON_HANDLE,
    ERROR_PRIVATE_DIALOG_INDEX,
    ERROR_LISTBOX_ID_NOT_FOUND,
    ERROR_NO_WILDCARD_CHARACTERS,
    ERROR_CLIPBOARD_NOT_OPEN,
    ERROR_HOTKEY_NOT_REGISTERED,
    ERROR_WINDOW_NOT_DIALOG,
    ERROR_CONTROL_ID_NOT_FOUND,
    ERROR_INVALID_COMBOBOX_MESSAGE,
    ERROR_WINDOW_NOT_COMBOBOX,
    ERROR_INVALID_EDIT_HEIGHT,
    ERROR_DC_NOT_FOUND,
    ERROR_INVALID_HOOK_FILTER,
    ERROR_INVALID_FILTER_PROC,
    ERROR_HOOK_NEEDS_HMOD,
    ERROR_GLOBAL_ONLY_HOOK,
    ERROR_JOURNAL_HOOK_SET,
    ERROR_HOOK_NOT_INSTALLED,
    ERROR_INVALID_LB_MESSAGE,
    ERROR_SETCOUNT_ON_BAD_LB,
    ERROR_LB_WITHOUT_TABSTOPS,
    ERROR_DESTROY_OBJECT_OF_OTHER_THREAD,
    ERROR_CHILD_WINDOW_MENU,
    ERROR_NO_SYSTEM_MENU,
    ERROR_INVALID_MSGBOX_STYLE,
    ERROR_INVALID_SPI_VALUE,
    ERROR_SCREEN_ALREADY_LOCKED,
    ERROR_HWNDS_HAVE_DIFF_PARENT,
    ERROR_NOT_CHILD_WINDOW,
    ERROR_INVALID_GW_COMMAND,
    ERROR_INVALID_THREAD_ID,
    ERROR_NON_MDICHILD_WINDOW,
    ERROR_POPUP_ALREADY_ACTIVE,
    ERROR_NO_SCROLLBARS,
    ERROR_INVALID_SCROLLBAR_RANGE,
    ERROR_INVALID_SHOWWIN_COMMAND,
    ERROR_NO_SYSTEM_RESOURCES,
    ERROR_NONPAGED_SYSTEM_RESOURCES,
    ERROR_PAGED_SYSTEM_RESOURCES,
    ERROR_WORKING_SET_QUOTA,
    ERROR_PAGEFILE_QUOTA,
    ERROR_COMMITMENT_LIMIT,
    ERROR_MENU_ITEM_NOT_FOUND,
    ERROR_INVALID_KEYBOARD_HANDLE,
    ERROR_HOOK_TYPE_NOT_ALLOWED,
    ERROR_REQUIRES_INTERACTIVE_WINDOWSTATION,
    ERROR_TIMEOUT,
    ERROR_INVALID_MONITOR_HANDLE,
    ERROR_INCORRECT_SIZE,
    ERROR_SYMLINK_CLASS_DISABLED,
    ERROR_SYMLINK_NOT_SUPPORTED,
    ERROR_XML_PARSE_ERROR,
    ERROR_XMLDSIG_ERROR,
    ERROR_RESTART_APPLICATION,
    ERROR_WRONG_COMPARTMENT,
    ERROR_AUTHIP_FAILURE,
    ERROR_NO_NVRAM_RESOURCES,
    ERROR_NOT_GUI_PROCESS,
    ERROR_EVENTLOG_FILE_CORRUPT,
    ERROR_EVENTLOG_CANT_START,
    ERROR_LOG_FILE_FULL,
    ERROR_EVENTLOG_FILE_CHANGED,
    ERROR_CONTAINER_ASSIGNED,
    ERROR_JOB_NO_CONTAINER,
    ERROR_INVALID_TASK_NAME,
    ERROR_INVALID_TASK_INDEX,
    ERROR_THREAD_ALREADY_IN_TASK,
    ERROR_INSTALL_SERVICE_FAILURE,
    ERROR_INSTALL_USEREXIT,
    ERROR_INSTALL_FAILURE,
    ERROR_INSTALL_SUSPEND,
    ERROR_UNKNOWN_PRODUCT,
    ERROR_UNKNOWN_FEATURE,
    ERROR_UNKNOWN_COMPONENT,
    ERROR_UNKNOWN_PROPERTY,
    ERROR_INVALID_HANDLE_STATE,
    ERROR_BAD_CONFIGURATION,
    ERROR_INDEX_ABSENT,
    ERROR_INSTALL_SOURCE_ABSENT,
    ERROR_INSTALL_PACKAGE_VERSION,
    ERROR_PRODUCT_UNINSTALLED,
    ERROR_BAD_QUERY_SYNTAX,
    ERROR_INVALID_FIELD,
    ERROR_DEVICE_REMOVED,
    ERROR_INSTALL_ALREADY_RUNNING,
    ERROR_INSTALL_PACKAGE_OPEN_FAILED,
    ERROR_INSTALL_PACKAGE_INVALID,
    ERROR_INSTALL_UI_FAILURE,
    ERROR_INSTALL_LOG_FAILURE,
    ERROR_INSTALL_LANGUAGE_UNSUPPORTED,
    ERROR_INSTALL_TRANSFORM_FAILURE,
    ERROR_INSTALL_PACKAGE_REJECTED,
    ERROR_FUNCTION_NOT_CALLED,
    ERROR_FUNCTION_FAILED,
    ERROR_INVALID_TABLE,
    ERROR_DATATYPE_MISMATCH,
    ERROR_UNSUPPORTED_TYPE,
    ERROR_CREATE_FAILED,
    ERROR_INSTALL_TEMP_UNWRITABLE,
    ERROR_INSTALL_PLATFORM_UNSUPPORTED,
    ERROR_INSTALL_NOTUSED,
    ERROR_PATCH_PACKAGE_OPEN_FAILED,
    ERROR_PATCH_PACKAGE_INVALID,
    ERROR_PATCH_PACKAGE_UNSUPPORTED,
    ERROR_PRODUCT_VERSION,
    ERROR_INVALID_COMMAND_LINE,
    ERROR_INSTALL_REMOTE_DISALLOWED,
    ERROR_SUCCESS_REBOOT_INITIATED,
    ERROR_PATCH_TARGET_NOT_FOUND,
    ERROR_PATCH_PACKAGE_REJECTED,
    ERROR_INSTALL_TRANSFORM_REJECTED,
    ERROR_INSTALL_REMOTE_PROHIBITED,
    ERROR_PATCH_REMOVAL_UNSUPPORTED,
    ERROR_UNKNOWN_PATCH,
    ERROR_PATCH_NO_SEQUENCE,
    ERROR_PATCH_REMOVAL_DISALLOWED,
    ERROR_INVALID_PATCH_XML,
    ERROR_PATCH_MANAGED_ADVERTISED_PRODUCT,
    ERROR_INSTALL_SERVICE_SAFEBOOT,
    ERROR_FAIL_FAST_EXCEPTION,
    ERROR_INSTALL_REJECTED,
    ERROR_DYNAMIC_CODE_BLOCKED,
    ERROR_NOT_SAME_OBJECT,
    ERROR_STRICT_CFG_VIOLATION,
    ERROR_SET_CONTEXT_DENIED,
    ERROR_CROSS_PARTITION_VIOLATION,
    ERROR_RETURN_ADDRESS_HIJACK_ATTEMPT,
    RPC_S_INVALID_STRING_BINDING,
    RPC_S_WRONG_KIND_OF_BINDING,
    RPC_S_INVALID_BINDING,
    RPC_S_PROTSEQ_NOT_SUPPORTED,
    RPC_S_INVALID_RPC_PROTSEQ,
    RPC_S_INVALID_STRING_UUID,
    RPC_S_INVALID_ENDPOINT_FORMAT,
    RPC_S_INVALID_NET_ADDR,
    RPC_S_NO_ENDPOINT_FOUND,
    RPC_S_INVALID_TIMEOUT,
    RPC_S_OBJECT_NOT_FOUND,
    RPC_S_ALREADY_REGISTERED,
    RPC_S_TYPE_ALREADY_REGISTERED,
    RPC_S_ALREADY_LISTENING,
    RPC_S_NO_PROTSEQS_REGISTERED,
    RPC_S_NOT_LISTENING,
    RPC_S_UNKNOWN_MGR_TYPE,
    RPC_S_UNKNOWN_IF,
    RPC_S_NO_BINDINGS,
    RPC_S_NO_PROTSEQS,
    RPC_S_CANT_CREATE_ENDPOINT,
    RPC_S_OUT_OF_RESOURCES,
    RPC_S_SERVER_UNAVAILABLE,
    RPC_S_SERVER_TOO_BUSY,
    RPC_S_INVALID_NETWORK_OPTIONS,
    RPC_S_NO_CALL_ACTIVE,
    RPC_S_CALL_FAILED,
    RPC_S_CALL_FAILED_DNE,
    RPC_S_PROTOCOL_ERROR,
    RPC_S_PROXY_ACCESS_DENIED,
    RPC_S_UNSUPPORTED_TRANS_SYN,
    RPC_S_UNSUPPORTED_TYPE,
    RPC_S_INVALID_TAG,
    RPC_S_INVALID_BOUND,
    RPC_S_NO_ENTRY_NAME,
    RPC_S_INVALID_NAME_SYNTAX,
    RPC_S_UNSUPPORTED_NAME_SYNTAX,
    RPC_S_UUID_NO_ADDRESS,
    RPC_S_DUPLICATE_ENDPOINT,
    RPC_S_UNKNOWN_AUTHN_TYPE,
    RPC_S_MAX_CALLS_TOO_SMALL,
    RPC_S_STRING_TOO_LONG,
    RPC_S_PROTSEQ_NOT_FOUND,
    RPC_S_PROCNUM_OUT_OF_RANGE,
    RPC_S_BINDING_HAS_NO_AUTH,
    RPC_S_UNKNOWN_AUTHN_SERVICE,
    RPC_S_UNKNOWN_AUTHN_LEVEL,
    RPC_S_INVALID_AUTH_IDENTITY,
    RPC_S_UNKNOWN_AUTHZ_SERVICE,
    RPC_S_NOTHING_TO_EXPORT,
    RPC_S_INCOMPLETE_NAME,
    RPC_S_INVALID_VERS_OPTION,
    RPC_S_NO_MORE_MEMBERS,
    RPC_S_NOT_ALL_OBJS_UNEXPORTED,
    RPC_S_INTERFACE_NOT_FOUND,
    RPC_S_ENTRY_ALREADY_EXISTS,
    RPC_S_ENTRY_NOT_FOUND,
    RPC_S_NAME_SERVICE_UNAVAILABLE,
    RPC_S_INVALID_NAF_ID,
    RPC_S_CANNOT_SUPPORT,
    RPC_S_NO_CONTEXT_AVAILABLE,
    RPC_S_INTERNAL_ERROR,
    RPC_S_ZERO_DIVIDE,
    RPC_S_ADDRESS_ERROR,
    RPC_S_FP_DIV_ZERO,
    RPC_S_FP_UNDERFLOW,
    RPC_S_FP_OVERFLOW,
    RPC_X_NO_MORE_ENTRIES,
    RPC_X_SS_CHAR_TRANS_OPEN_FAIL,
    RPC_X_SS_CHAR_TRANS_SHORT_FILE,
    RPC_X_SS_IN_NULL_CONTEXT,
    RPC_X_SS_CONTEXT_DAMAGED,
    RPC_X_SS_HANDLES_MISMATCH,
    RPC_X_SS_CANNOT_GET_CALL_HANDLE,
    RPC_X_NULL_REF_POINTER,
    RPC_X_ENUM_VALUE_OUT_OF_RANGE,
    RPC_X_BYTE_COUNT_TOO_SMALL,
    RPC_X_BAD_STUB_DATA,
    ERROR_INVALID_USER_BUFFER,
    ERROR_UNRECOGNIZED_MEDIA,
    ERROR_NO_TRUST_LSA_SECRET,
    ERROR_NO_TRUST_SAM_ACCOUNT,
    ERROR_TRUSTED_DOMAIN_FAILURE,
    ERROR_TRUSTED_RELATIONSHIP_FAILURE,
    ERROR_TRUST_FAILURE,
    RPC_S_CALL_IN_PROGRESS,
    ERROR_NETLOGON_NOT_STARTED,
    ERROR_ACCOUNT_EXPIRED,
    ERROR_REDIRECTOR_HAS_OPEN_HANDLES,
    ERROR_PRINTER_DRIVER_ALREADY_INSTALLED,
    ERROR_UNKNOWN_PORT,
    ERROR_UNKNOWN_PRINTER_DRIVER,
    ERROR_UNKNOWN_PRINTPROCESSOR,
    ERROR_INVALID_SEPARATOR_FILE,
    ERROR_INVALID_PRIORITY,
    ERROR_INVALID_PRINTER_NAME,
    ERROR_PRINTER_ALREADY_EXISTS,
    ERROR_INVALID_PRINTER_COMMAND,
    ERROR_INVALID_DATATYPE,
    ERROR_INVALID_ENVIRONMENT,
    RPC_S_NO_MORE_BINDINGS,
    ERROR_NOLOGON_INTERDOMAIN_TRUST_ACCOUNT,
    ERROR_NOLOGON_WORKSTATION_TRUST_ACCOUNT,
    ERROR_NOLOGON_SERVER_TRUST_ACCOUNT,
    ERROR_DOMAIN_TRUST_INCONSISTENT,
    ERROR_SERVER_HAS_OPEN_HANDLES,
    ERROR_RESOURCE_DATA_NOT_FOUND,
    ERROR_RESOURCE_TYPE_NOT_FOUND,
    ERROR_RESOURCE_NAME_NOT_FOUND,
    ERROR_RESOURCE_LANG_NOT_FOUND,
    ERROR_NOT_ENOUGH_QUOTA,
    RPC_S_NO_INTERFACES,
    RPC_S_CALL_CANCELLED,
    RPC_S_BINDING_INCOMPLETE,
    RPC_S_COMM_FAILURE,
    RPC_S_UNSUPPORTED_AUTHN_LEVEL,
    RPC_S_NO_PRINC_NAME,
    RPC_S_NOT_RPC_ERROR,
    RPC_S_UUID_LOCAL_ONLY,
    RPC_S_SEC_PKG_ERROR,
    RPC_S_NOT_CANCELLED,
    RPC_X_INVALID_ES_ACTION,
    RPC_X_WRONG_ES_VERSION,
    RPC_X_WRONG_STUB_VERSION,
    RPC_X_INVALID_PIPE_OBJECT,
    RPC_X_WRONG_PIPE_ORDER,
    RPC_X_WRONG_PIPE_VERSION,
    RPC_S_COOKIE_AUTH_FAILED,
    RPC_S_DO_NOT_DISTURB,
    RPC_S_SYSTEM_HANDLE_COUNT_EXCEEDED,
    RPC_S_SYSTEM_HANDLE_TYPE_MISMATCH,
    RPC_S_GROUP_MEMBER_NOT_FOUND,
    RPC_S_INVALID_OBJECT,
    ERROR_INVALID_TIME,
    ERROR_INVALID_FORM_NAME,
    ERROR_INVALID_FORM_SIZE,
    ERROR_ALREADY_WAITING,
    ERROR_PRINTER_DELETED,
    ERROR_INVALID_PRINTER_STATE,
    ERROR_PASSWORD_MUST_CHANGE,
    ERROR_DOMAIN_CONTROLLER_NOT_FOUND,
    ERROR_ACCOUNT_LOCKED_OUT,
    RPC_S_SEND_INCOMPLETE,
    RPC_S_INVALID_ASYNC_HANDLE,
    RPC_S_INVALID_ASYNC_CALL,
    RPC_X_PIPE_CLOSED,
    RPC_X_PIPE_DISCIPLINE_ERROR,
    RPC_X_PIPE_EMPTY,
    ERROR_NO_SITENAME,
    ERROR_CANT_ACCESS_FILE,
    ERROR_CANT_RESOLVE_FILENAME,
    RPC_S_ENTRY_TYPE_MISMATCH,
    RPC_S_NOT_ALL_OBJS_EXPORTED,
    RPC_S_INTERFACE_NOT_EXPORTED,
    RPC_S_PROFILE_NOT_ADDED,
    RPC_S_PRF_ELT_NOT_ADDED,
    RPC_S_PRF_ELT_NOT_REMOVED,
    RPC_S_GRP_ELT_NOT_ADDED,
    RPC_S_GRP_ELT_NOT_REMOVED,
    ERROR_KM_DRIVER_BLOCKED,
    ERROR_CONTEXT_EXPIRED,
    ERROR_PER_USER_TRUST_QUOTA_EXCEEDED,
    ERROR_ALL_USER_TRUST_QUOTA_EXCEEDED,
    ERROR_USER_DELETE_TRUST_QUOTA_EXCEEDED,
    ERROR_AUTHENTICATION_FIREWALL_FAILED,
    ERROR_REMOTE_PRINT_CONNECTIONS_BLOCKED,
    ERROR_NTLM_BLOCKED,
    ERROR_PASSWORD_CHANGE_REQUIRED,
    ERROR_LOST_MODE_LOGON_RESTRICTION,
    ERROR_INVALID_PIXEL_FORMAT,
    ERROR_BAD_DRIVER,
    ERROR_INVALID_WINDOW_STYLE,
    ERROR_METAFILE_NOT_SUPPORTED,
    ERROR_TRANSFORM_NOT_SUPPORTED,
    ERROR_CLIPPING_NOT_SUPPORTED,
    ERROR_INVALID_CMM,
    ERROR_INVALID_PROFILE,
    ERROR_TAG_NOT_FOUND,
    ERROR_TAG_NOT_PRESENT,
    ERROR_DUPLICATE_TAG,
    ERROR_PROFILE_NOT_ASSOCIATED_WITH_DEVICE,
    ERROR_PROFILE_NOT_FOUND,
    ERROR_INVALID_COLORSPACE,
    ERROR_ICM_NOT_ENABLED,
    ERROR_DELETING_ICM_XFORM,
    ERROR_INVALID_TRANSFORM,
    ERROR_COLORSPACE_MISMATCH,
    ERROR_INVALID_COLORINDEX,
    ERROR_PROFILE_DOES_NOT_MATCH_DEVICE,
    ERROR_CONNECTED_OTHER_PASSWORD,
    ERROR_CONNECTED_OTHER_PASSWORD_DEFAULT,
    ERROR_BAD_USERNAME,
    ERROR_NOT_CONNECTED,
    ERROR_OPEN_FILES,
    ERROR_ACTIVE_CONNECTIONS,
    ERROR_DEVICE_IN_USE,
    ERROR_UNKNOWN_PRINT_MONITOR,
    ERROR_PRINTER_DRIVER_IN_USE,
    ERROR_SPOOL_FILE_NOT_FOUND,
    ERROR_SPL_NO_STARTDOC,
    ERROR_SPL_NO_ADDJOB,
    ERROR_PRINT_PROCESSOR_ALREADY_INSTALLED,
    ERROR_PRINT_MONITOR_ALREADY_INSTALLED,
    ERROR_INVALID_PRINT_MONITOR,
    ERROR_PRINT_MONITOR_IN_USE,
    ERROR_PRINTER_HAS_JOBS_QUEUED,
    ERROR_SUCCESS_REBOOT_REQUIRED,
    ERROR_SUCCESS_RESTART_REQUIRED,
    ERROR_PRINTER_NOT_FOUND,
    ERROR_PRINTER_DRIVER_WARNED,
    ERROR_PRINTER_DRIVER_BLOCKED,
    ERROR_PRINTER_DRIVER_PACKAGE_IN_USE,
    ERROR_CORE_DRIVER_PACKAGE_NOT_FOUND,
    ERROR_FAIL_REBOOT_REQUIRED,
    ERROR_FAIL_REBOOT_INITIATED,
    ERROR_PRINTER_DRIVER_DOWNLOAD_NEEDED,
    ERROR_PRINT_JOB_RESTART_REQUIRED,
    ERROR_INVALID_PRINTER_DRIVER_MANIFEST,
    ERROR_PRINTER_NOT_SHAREABLE,
    ERROR_REQUEST_PAUSED,
    ERROR_APPEXEC_CONDITION_NOT_SATISFIED,
    ERROR_APPEXEC_HANDLE_INVALIDATED,
    ERROR_APPEXEC_INVALID_HOST_GENERATION,
    ERROR_APPEXEC_UNEXPECTED_PROCESS_REGISTRATION,
    ERROR_APPEXEC_INVALID_HOST_STATE,
    ERROR_APPEXEC_NO_DONOR,
    ERROR_APPEXEC_HOST_ID_MISMATCH,
    ERROR_APPEXEC_UNKNOWN_USER,
    ERROR_IO_REISSUE_AS_CACHED,
    ERROR_WINS_INTERNAL,
    ERROR_CAN_NOT_DEL_LOCAL_WINS,
    ERROR_STATIC_INIT,
    ERROR_INC_BACKUP,
    ERROR_FULL_BACKUP,
    ERROR_REC_NON_EXISTENT,
    ERROR_RPL_NOT_ALLOWED,
    ERROR_DHCP_ADDRESS_CONFLICT,
    ERROR_WMI_GUID_NOT_FOUND,
    ERROR_WMI_INSTANCE_NOT_FOUND,
    ERROR_WMI_ITEMID_NOT_FOUND,
    ERROR_WMI_TRY_AGAIN,
    ERROR_WMI_DP_NOT_FOUND,
    ERROR_WMI_UNRESOLVED_INSTANCE_REF,
    ERROR_WMI_ALREADY_ENABLED,
    ERROR_WMI_GUID_DISCONNECTED,
    ERROR_WMI_SERVER_UNAVAILABLE,
    ERROR_WMI_DP_FAILED,
    ERROR_WMI_INVALID_MOF,
    ERROR_WMI_INVALID_REGINFO,
    ERROR_WMI_ALREADY_DISABLED,
    ERROR_WMI_READ_ONLY,
    ERROR_WMI_SET_FAILURE,
    ERROR_NOT_APPCONTAINER,
    ERROR_APPCONTAINER_REQUIRED,
    ERROR_NOT_SUPPORTED_IN_APPCONTAINER,
    ERROR_INVALID_PACKAGE_SID_LENGTH,
    ERROR_INVALID_MEDIA,
    ERROR_INVALID_LIBRARY,
    ERROR_INVALID_MEDIA_POOL,
    ERROR_DRIVE_MEDIA_MISMATCH,
    ERROR_MEDIA_OFFLINE,
    ERROR_LIBRARY_OFFLINE,
    ERROR_EMPTY,
    ERROR_NOT_EMPTY,
    ERROR_MEDIA_UNAVAILABLE,
    ERROR_RESOURCE_DISABLED,
    ERROR_INVALID_CLEANER,
    ERROR_UNABLE_TO_CLEAN,
    ERROR_OBJECT_NOT_FOUND,
    ERROR_DATABASE_FAILURE,
    ERROR_DATABASE_FULL,
    ERROR_MEDIA_INCOMPATIBLE,
    ERROR_RESOURCE_NOT_PRESENT,
    ERROR_INVALID_OPERATION,
    ERROR_MEDIA_NOT_AVAILABLE,
    ERROR_DEVICE_NOT_AVAILABLE,
    ERROR_REQUEST_REFUSED,
    ERROR_INVALID_DRIVE_OBJECT,
    ERROR_LIBRARY_FULL,
    ERROR_MEDIUM_NOT_ACCESSIBLE,
    ERROR_UNABLE_TO_LOAD_MEDIUM,
    ERROR_UNABLE_TO_INVENTORY_DRIVE,
    ERROR_UNABLE_TO_INVENTORY_SLOT,
    ERROR_UNABLE_TO_INVENTORY_TRANSPORT,
    ERROR_TRANSPORT_FULL,
    ERROR_CONTROLLING_IEPORT,
    ERROR_UNABLE_TO_EJECT_MOUNTED_MEDIA,
    ERROR_CLEANER_SLOT_SET,
    ERROR_CLEANER_SLOT_NOT_SET,
    ERROR_CLEANER_CARTRIDGE_SPENT,
    ERROR_UNEXPECTED_OMID,
    ERROR_CANT_DELETE_LAST_ITEM,
    ERROR_MESSAGE_EXCEEDS_MAX_SIZE,
    ERROR_VOLUME_CONTAINS_SYS_FILES,
    ERROR_INDIGENOUS_TYPE,
    ERROR_NO_SUPPORTING_DRIVES,
    ERROR_CLEANER_CARTRIDGE_INSTALLED,
    ERROR_IEPORT_FULL,
    ERROR_FILE_OFFLINE,
    ERROR_REMOTE_STORAGE_NOT_ACTIVE,
    ERROR_REMOTE_STORAGE_MEDIA_ERROR,
    ERROR_NOT_A_REPARSE_POINT,
    ERROR_REPARSE_ATTRIBUTE_CONFLICT,
    ERROR_INVALID_REPARSE_DATA,
    ERROR_REPARSE_TAG_INVALID,
    ERROR_REPARSE_TAG_MISMATCH,
    ERROR_REPARSE_POINT_ENCOUNTERED,
    ERROR_APP_DATA_NOT_FOUND,
    ERROR_APP_DATA_EXPIRED,
    ERROR_APP_DATA_CORRUPT,
    ERROR_APP_DATA_LIMIT_EXCEEDED,
    ERROR_APP_DATA_REBOOT_REQUIRED,
    ERROR_SECUREBOOT_ROLLBACK_DETECTED,
    ERROR_SECUREBOOT_POLICY_VIOLATION,
    ERROR_SECUREBOOT_INVALID_POLICY,
    ERROR_SECUREBOOT_POLICY_PUBLISHER_NOT_FOUND,
    ERROR_SECUREBOOT_POLICY_NOT_SIGNED,
    ERROR_SECUREBOOT_NOT_ENABLED,
    ERROR_SECUREBOOT_FILE_REPLACED,
    ERROR_SECUREBOOT_POLICY_NOT_AUTHORIZED,
    ERROR_SECUREBOOT_POLICY_UNKNOWN,
    ERROR_SECUREBOOT_POLICY_MISSING_ANTIROLLBACKVERSION,
    ERROR_SECUREBOOT_PLATFORM_ID_MISMATCH,
    ERROR_SECUREBOOT_POLICY_ROLLBACK_DETECTED,
    ERROR_SECUREBOOT_POLICY_UPGRADE_MISMATCH,
    ERROR_SECUREBOOT_REQUIRED_POLICY_FILE_MISSING,
    ERROR_SECUREBOOT_NOT_BASE_POLICY,
    ERROR_SECUREBOOT_NOT_SUPPLEMENTAL_POLICY,
    ERROR_OFFLOAD_READ_FLT_NOT_SUPPORTED,
    ERROR_OFFLOAD_WRITE_FLT_NOT_SUPPORTED,
    ERROR_OFFLOAD_READ_FILE_NOT_SUPPORTED,
    ERROR_OFFLOAD_WRITE_FILE_NOT_SUPPORTED,
    ERROR_ALREADY_HAS_STREAM_ID,
    ERROR_SMR_GARBAGE_COLLECTION_REQUIRED,
    ERROR_WOF_WIM_HEADER_CORRUPT,
    ERROR_WOF_WIM_RESOURCE_TABLE_CORRUPT,
    ERROR_WOF_FILE_RESOURCE_TABLE_CORRUPT,
    ERROR_VOLUME_NOT_SIS_ENABLED,
    ERROR_SYSTEM_INTEGRITY_ROLLBACK_DETECTED,
    ERROR_SYSTEM_INTEGRITY_POLICY_VIOLATION,
    ERROR_SYSTEM_INTEGRITY_INVALID_POLICY,
    ERROR_SYSTEM_INTEGRITY_POLICY_NOT_SIGNED,
    ERROR_SYSTEM_INTEGRITY_TOO_MANY_POLICIES,
    ERROR_SYSTEM_INTEGRITY_SUPPLEMENTAL_POLICY_NOT_AUTHORIZED,
    ERROR_VSM_NOT_INITIALIZED,
    ERROR_VSM_DMA_PROTECTION_NOT_IN_USE,
    ERROR_PLATFORM_MANIFEST_NOT_AUTHORIZED,
    ERROR_PLATFORM_MANIFEST_INVALID,
    ERROR_PLATFORM_MANIFEST_FILE_NOT_AUTHORIZED,
    ERROR_PLATFORM_MANIFEST_CATALOG_NOT_AUTHORIZED,
    ERROR_PLATFORM_MANIFEST_BINARY_ID_NOT_FOUND,
    ERROR_PLATFORM_MANIFEST_NOT_ACTIVE,
    ERROR_PLATFORM_MANIFEST_NOT_SIGNED,
    ERROR_DEPENDENT_RESOURCE_EXISTS,
    ERROR_DEPENDENCY_NOT_FOUND,
    ERROR_DEPENDENCY_ALREADY_EXISTS,
    ERROR_RESOURCE_NOT_ONLINE,
    ERROR_HOST_NODE_NOT_AVAILABLE,
    ERROR_RESOURCE_NOT_AVAILABLE,
    ERROR_RESOURCE_NOT_FOUND,
    ERROR_SHUTDOWN_CLUSTER,
    ERROR_CANT_EVICT_ACTIVE_NODE,
    ERROR_OBJECT_ALREADY_EXISTS,
    ERROR_OBJECT_IN_LIST,
    ERROR_GROUP_NOT_AVAILABLE,
    ERROR_GROUP_NOT_FOUND,
    ERROR_GROUP_NOT_ONLINE,
    ERROR_HOST_NODE_NOT_RESOURCE_OWNER,
    ERROR_HOST_NODE_NOT_GROUP_OWNER,
    ERROR_RESMON_CREATE_FAILED,
    ERROR_RESMON_ONLINE_FAILED,
    ERROR_RESOURCE_ONLINE,
    ERROR_QUORUM_RESOURCE,
    ERROR_NOT_QUORUM_CAPABLE,
    ERROR_CLUSTER_SHUTTING_DOWN,
    ERROR_INVALID_STATE,
    ERROR_RESOURCE_PROPERTIES_STORED,
    ERROR_NOT_QUORUM_CLASS,
    ERROR_CORE_RESOURCE,
    ERROR_QUORUM_RESOURCE_ONLINE_FAILED,
    ERROR_QUORUMLOG_OPEN_FAILED,
    ERROR_CLUSTERLOG_CORRUPT,
    ERROR_CLUSTERLOG_RECORD_EXCEEDS_MAXSIZE,
    ERROR_CLUSTERLOG_EXCEEDS_MAXSIZE,
    ERROR_CLUSTERLOG_CHKPOINT_NOT_FOUND,
    ERROR_CLUSTERLOG_NOT_ENOUGH_SPACE,
    ERROR_QUORUM_OWNER_ALIVE,
    ERROR_NETWORK_NOT_AVAILABLE,
    ERROR_NODE_NOT_AVAILABLE,
    ERROR_ALL_NODES_NOT_AVAILABLE,
    ERROR_RESOURCE_FAILED,
    ERROR_CLUSTER_INVALID_NODE,
    ERROR_CLUSTER_NODE_EXISTS,
    ERROR_CLUSTER_JOIN_IN_PROGRESS,
    ERROR_CLUSTER_NODE_NOT_FOUND,
    ERROR_CLUSTER_LOCAL_NODE_NOT_FOUND,
    ERROR_CLUSTER_NETWORK_EXISTS,
    ERROR_CLUSTER_NETWORK_NOT_FOUND,
    ERROR_CLUSTER_NETINTERFACE_EXISTS,
    ERROR_CLUSTER_NETINTERFACE_NOT_FOUND,
    ERROR_CLUSTER_INVALID_REQUEST,
    ERROR_CLUSTER_INVALID_NETWORK_PROVIDER,
    ERROR_CLUSTER_NODE_DOWN,
    ERROR_CLUSTER_NODE_UNREACHABLE,
    ERROR_CLUSTER_NODE_NOT_MEMBER,
    ERROR_CLUSTER_JOIN_NOT_IN_PROGRESS,
    ERROR_CLUSTER_INVALID_NETWORK,
    ERROR_CLUSTER_NODE_UP,
    ERROR_CLUSTER_IPADDR_IN_USE,
    ERROR_CLUSTER_NODE_NOT_PAUSED,
    ERROR_CLUSTER_NO_SECURITY_CONTEXT,
    ERROR_CLUSTER_NETWORK_NOT_INTERNAL,
    ERROR_CLUSTER_NODE_ALREADY_UP,
    ERROR_CLUSTER_NODE_ALREADY_DOWN,
    ERROR_CLUSTER_NETWORK_ALREADY_ONLINE,
    ERROR_CLUSTER_NETWORK_ALREADY_OFFLINE,
    ERROR_CLUSTER_NODE_ALREADY_MEMBER,
    ERROR_CLUSTER_LAST_INTERNAL_NETWORK,
    ERROR_CLUSTER_NETWORK_HAS_DEPENDENTS,
    ERROR_INVALID_OPERATION_ON_QUORUM,
    ERROR_DEPENDENCY_NOT_ALLOWED,
    ERROR_CLUSTER_NODE_PAUSED,
    ERROR_NODE_CANT_HOST_RESOURCE,
    ERROR_CLUSTER_NODE_NOT_READY,
    ERROR_CLUSTER_NODE_SHUTTING_DOWN,
    ERROR_CLUSTER_JOIN_ABORTED,
    ERROR_CLUSTER_INCOMPATIBLE_VERSIONS,
    ERROR_CLUSTER_MAXNUM_OF_RESOURCES_EXCEEDED,
    ERROR_CLUSTER_SYSTEM_CONFIG_CHANGED,
    ERROR_CLUSTER_RESOURCE_TYPE_NOT_FOUND,
    ERROR_CLUSTER_RESTYPE_NOT_SUPPORTED,
    ERROR_CLUSTER_RESNAME_NOT_FOUND,
    ERROR_CLUSTER_NO_RPC_PACKAGES_REGISTERED,
    ERROR_CLUSTER_OWNER_NOT_IN_PREFLIST,
    ERROR_CLUSTER_DATABASE_SEQMISMATCH,
    ERROR_RESMON_INVALID_STATE,
    ERROR_CLUSTER_GUM_NOT_LOCKER,
    ERROR_QUORUM_DISK_NOT_FOUND,
    ERROR_DATABASE_BACKUP_CORRUPT,
    ERROR_CLUSTER_NODE_ALREADY_HAS_DFS_ROOT,
    ERROR_RESOURCE_PROPERTY_UNCHANGEABLE,
    ERROR_NO_ADMIN_ACCESS_POINT,
    ERROR_CLUSTER_MEMBERSHIP_INVALID_STATE,
    ERROR_CLUSTER_QUORUMLOG_NOT_FOUND,
    ERROR_CLUSTER_MEMBERSHIP_HALT,
    ERROR_CLUSTER_INSTANCE_ID_MISMATCH,
    ERROR_CLUSTER_NETWORK_NOT_FOUND_FOR_IP,
    ERROR_CLUSTER_PROPERTY_DATA_TYPE_MISMATCH,
    ERROR_CLUSTER_EVICT_WITHOUT_CLEANUP,
    ERROR_CLUSTER_PARAMETER_MISMATCH,
    ERROR_NODE_CANNOT_BE_CLUSTERED,
    ERROR_CLUSTER_WRONG_OS_VERSION,
    ERROR_CLUSTER_CANT_CREATE_DUP_CLUSTER_NAME,
    ERROR_CLUSCFG_ALREADY_COMMITTED,
    ERROR_CLUSCFG_ROLLBACK_FAILED,
    ERROR_CLUSCFG_SYSTEM_DISK_DRIVE_LETTER_CONFLICT,
    ERROR_CLUSTER_OLD_VERSION,
    ERROR_CLUSTER_MISMATCHED_COMPUTER_ACCT_NAME,
    ERROR_CLUSTER_NO_NET_ADAPTERS,
    ERROR_CLUSTER_POISONED,
    ERROR_CLUSTER_GROUP_MOVING,
    ERROR_CLUSTER_RESOURCE_TYPE_BUSY,
    ERROR_RESOURCE_CALL_TIMED_OUT,
    ERROR_INVALID_CLUSTER_IPV6_ADDRESS,
    ERROR_CLUSTER_INTERNAL_INVALID_FUNCTION,
    ERROR_CLUSTER_PARAMETER_OUT_OF_BOUNDS,
    ERROR_CLUSTER_PARTIAL_SEND,
    ERROR_CLUSTER_REGISTRY_INVALID_FUNCTION,
    ERROR_CLUSTER_INVALID_STRING_TERMINATION,
    ERROR_CLUSTER_INVALID_STRING_FORMAT,
    ERROR_CLUSTER_DATABASE_TRANSACTION_IN_PROGRESS,
    ERROR_CLUSTER_DATABASE_TRANSACTION_NOT_IN_PROGRESS,
    ERROR_CLUSTER_NULL_DATA,
    ERROR_CLUSTER_PARTIAL_READ,
    ERROR_CLUSTER_PARTIAL_WRITE,
    ERROR_CLUSTER_CANT_DESERIALIZE_DATA,
    ERROR_DEPENDENT_RESOURCE_PROPERTY_CONFLICT,
    ERROR_CLUSTER_NO_QUORUM,
    ERROR_CLUSTER_INVALID_IPV6_NETWORK,
    ERROR_CLUSTER_INVALID_IPV6_TUNNEL_NETWORK,
    ERROR_QUORUM_NOT_ALLOWED_IN_THIS_GROUP,
    ERROR_DEPENDENCY_TREE_TOO_COMPLEX,
    ERROR_EXCEPTION_IN_RESOURCE_CALL,
    ERROR_CLUSTER_RHS_FAILED_INITIALIZATION,
    ERROR_CLUSTER_NOT_INSTALLED,
    ERROR_CLUSTER_RESOURCES_MUST_BE_ONLINE_ON_THE_SAME_NODE,
    ERROR_CLUSTER_MAX_NODES_IN_CLUSTER,
    ERROR_CLUSTER_TOO_MANY_NODES,
    ERROR_CLUSTER_OBJECT_ALREADY_USED,
    ERROR_NONCORE_GROUPS_FOUND,
    ERROR_FILE_SHARE_RESOURCE_CONFLICT,
    ERROR_CLUSTER_EVICT_INVALID_REQUEST,
    ERROR_CLUSTER_SINGLETON_RESOURCE,
    ERROR_CLUSTER_GROUP_SINGLETON_RESOURCE,
    ERROR_CLUSTER_RESOURCE_PROVIDER_FAILED,
    ERROR_CLUSTER_RESOURCE_CONFIGURATION_ERROR,
    ERROR_CLUSTER_GROUP_BUSY,
    ERROR_CLUSTER_NOT_SHARED_VOLUME,
    ERROR_CLUSTER_INVALID_SECURITY_DESCRIPTOR,
    ERROR_CLUSTER_SHARED_VOLUMES_IN_USE,
    ERROR_CLUSTER_USE_SHARED_VOLUMES_API,
    ERROR_CLUSTER_BACKUP_IN_PROGRESS,
    ERROR_NON_CSV_PATH,
    ERROR_CSV_VOLUME_NOT_LOCAL,
    ERROR_CLUSTER_WATCHDOG_TERMINATING,
    ERROR_CLUSTER_RESOURCE_VETOED_MOVE_INCOMPATIBLE_NODES,
    ERROR_CLUSTER_INVALID_NODE_WEIGHT,
    ERROR_CLUSTER_RESOURCE_VETOED_CALL,
    ERROR_RESMON_SYSTEM_RESOURCES_LACKING,
    ERROR_CLUSTER_RESOURCE_VETOED_MOVE_NOT_ENOUGH_RESOURCES_ON_DESTINATION,
    ERROR_CLUSTER_RESOURCE_VETOED_MOVE_NOT_ENOUGH_RESOURCES_ON_SOURCE,
    ERROR_CLUSTER_GROUP_QUEUED,
    ERROR_CLUSTER_RESOURCE_LOCKED_STATUS,
    ERROR_CLUSTER_SHARED_VOLUME_FAILOVER_NOT_ALLOWED,
    ERROR_CLUSTER_NODE_DRAIN_IN_PROGRESS,
    ERROR_CLUSTER_DISK_NOT_CONNECTED,
    ERROR_DISK_NOT_CSV_CAPABLE,
    ERROR_RESOURCE_NOT_IN_AVAILABLE_STORAGE,
    ERROR_CLUSTER_SHARED_VOLUME_REDIRECTED,
    ERROR_CLUSTER_SHARED_VOLUME_NOT_REDIRECTED,
    ERROR_CLUSTER_CANNOT_RETURN_PROPERTIES,
    ERROR_CLUSTER_RESOURCE_CONTAINS_UNSUPPORTED_DIFF_AREA_FOR_SHARED_VOLUMES,
    ERROR_CLUSTER_RESOURCE_IS_IN_MAINTENANCE_MODE,
    ERROR_CLUSTER_AFFINITY_CONFLICT,
    ERROR_CLUSTER_RESOURCE_IS_REPLICA_VIRTUAL_MACHINE,
    ERROR_CLUSTER_UPGRADE_INCOMPATIBLE_VERSIONS,
    ERROR_CLUSTER_UPGRADE_FIX_QUORUM_NOT_SUPPORTED,
    ERROR_CLUSTER_UPGRADE_RESTART_REQUIRED,
    ERROR_CLUSTER_UPGRADE_IN_PROGRESS,
    ERROR_CLUSTER_UPGRADE_INCOMPLETE,
    ERROR_CLUSTER_NODE_IN_GRACE_PERIOD,
    ERROR_CLUSTER_CSV_IO_PAUSE_TIMEOUT,
    ERROR_NODE_NOT_ACTIVE_CLUSTER_MEMBER,
    ERROR_CLUSTER_RESOURCE_NOT_MONITORED,
    ERROR_CLUSTER_RESOURCE_DOES_NOT_SUPPORT_UNMONITORED,
    ERROR_CLUSTER_RESOURCE_IS_REPLICATED,
    ERROR_CLUSTER_NODE_ISOLATED,
    ERROR_CLUSTER_NODE_QUARANTINED,
    ERROR_CLUSTER_DATABASE_UPDATE_CONDITION_FAILED,
    ERROR_CLUSTER_SPACE_DEGRADED,
    ERROR_CLUSTER_TOKEN_DELEGATION_NOT_SUPPORTED,
    ERROR_CLUSTER_CSV_INVALID_HANDLE,
    ERROR_CLUSTER_CSV_SUPPORTED_ONLY_ON_COORDINATOR,
    ERROR_GROUPSET_NOT_AVAILABLE,
    ERROR_GROUPSET_NOT_FOUND,
    ERROR_GROUPSET_CANT_PROVIDE,
    ERROR_CLUSTER_FAULT_DOMAIN_PARENT_NOT_FOUND,
    ERROR_CLUSTER_FAULT_DOMAIN_INVALID_HIERARCHY,
    ERROR_CLUSTER_FAULT_DOMAIN_FAILED_S2D_VALIDATION,
    ERROR_CLUSTER_FAULT_DOMAIN_S2D_CONNECTIVITY_LOSS,
    ERROR_CLUSTER_INVALID_INFRASTRUCTURE_FILESERVER_NAME,
    ERROR_CLUSTERSET_MANAGEMENT_CLUSTER_UNREACHABLE,
    ERROR_ENCRYPTION_FAILED,
    ERROR_DECRYPTION_FAILED,
    ERROR_FILE_ENCRYPTED,
    ERROR_NO_RECOVERY_POLICY,
    ERROR_NO_EFS,
    ERROR_WRONG_EFS,
    ERROR_NO_USER_KEYS,
    ERROR_FILE_NOT_ENCRYPTED,
    ERROR_NOT_EXPORT_FORMAT,
    ERROR_FILE_READ_ONLY,
    ERROR_DIR_EFS_DISALLOWED,
    ERROR_EFS_SERVER_NOT_TRUSTED,
    ERROR_BAD_RECOVERY_POLICY,
    ERROR_EFS_ALG_BLOB_TOO_BIG,
    ERROR_VOLUME_NOT_SUPPORT_EFS,
    ERROR_EFS_DISABLED,
    ERROR_EFS_VERSION_NOT_SUPPORT,
    ERROR_CS_ENCRYPTION_INVALID_SERVER_RESPONSE,
    ERROR_CS_ENCRYPTION_UNSUPPORTED_SERVER,
    ERROR_CS_ENCRYPTION_EXISTING_ENCRYPTED_FILE,
    ERROR_CS_ENCRYPTION_NEW_ENCRYPTED_FILE,
    ERROR_CS_ENCRYPTION_FILE_NOT_CSE,
    ERROR_ENCRYPTION_POLICY_DENIES_OPERATION,
    ERROR_WIP_ENCRYPTION_FAILED,
    ERROR_NO_BROWSER_SERVERS_FOUND,
    ERROR_CLUSTER_OBJECT_IS_CLUSTER_SET_VM,
    ERROR_LOG_SECTOR_INVALID,
    ERROR_LOG_SECTOR_PARITY_INVALID,
    ERROR_LOG_SECTOR_REMAPPED,
    ERROR_LOG_BLOCK_INCOMPLETE,
    ERROR_LOG_INVALID_RANGE,
    ERROR_LOG_BLOCKS_EXHAUSTED,
    ERROR_LOG_READ_CONTEXT_INVALID,
    ERROR_LOG_RESTART_INVALID,
    ERROR_LOG_BLOCK_VERSION,
    ERROR_LOG_BLOCK_INVALID,
    ERROR_LOG_READ_MODE_INVALID,
    ERROR_LOG_NO_RESTART,
    ERROR_LOG_METADATA_CORRUPT,
    ERROR_LOG_METADATA_INVALID,
    ERROR_LOG_METADATA_INCONSISTENT,
    ERROR_LOG_RESERVATION_INVALID,
    ERROR_LOG_CANT_DELETE,
    ERROR_LOG_CONTAINER_LIMIT_EXCEEDED,
    ERROR_LOG_START_OF_LOG,
    ERROR_LOG_POLICY_ALREADY_INSTALLED,
    ERROR_LOG_POLICY_NOT_INSTALLED,
    ERROR_LOG_POLICY_INVALID,
    ERROR_LOG_POLICY_CONFLICT,
    ERROR_LOG_PINNED_ARCHIVE_TAIL,
    ERROR_LOG_RECORD_NONEXISTENT,
    ERROR_LOG_RECORDS_RESERVED_INVALID,
    ERROR_LOG_SPACE_RESERVED_INVALID,
    ERROR_LOG_TAIL_INVALID,
    ERROR_LOG_FULL,
    ERROR_COULD_NOT_RESIZE_LOG,
    ERROR_LOG_MULTIPLEXED,
    ERROR_LOG_DEDICATED,
    ERROR_LOG_ARCHIVE_NOT_IN_PROGRESS,
    ERROR_LOG_ARCHIVE_IN_PROGRESS,
    ERROR_LOG_EPHEMERAL,
    ERROR_LOG_NOT_ENOUGH_CONTAINERS,
    ERROR_LOG_CLIENT_ALREADY_REGISTERED,
    ERROR_LOG_CLIENT_NOT_REGISTERED,
    ERROR_LOG_FULL_HANDLER_IN_PROGRESS,
    ERROR_LOG_CONTAINER_READ_FAILED,
    ERROR_LOG_CONTAINER_WRITE_FAILED,
    ERROR_LOG_CONTAINER_OPEN_FAILED,
    ERROR_LOG_CONTAINER_STATE_INVALID,
    ERROR_LOG_STATE_INVALID,
    ERROR_LOG_PINNED,
    ERROR_LOG_METADATA_FLUSH_FAILED,
    ERROR_LOG_INCONSISTENT_SECURITY,
    ERROR_LOG_APPENDED_FLUSH_FAILED,
    ERROR_LOG_PINNED_RESERVATION,
    ERROR_INVALID_TRANSACTION,
    ERROR_TRANSACTION_NOT_ACTIVE,
    ERROR_TRANSACTION_REQUEST_NOT_VALID,
    ERROR_TRANSACTION_NOT_REQUESTED,
    ERROR_TRANSACTION_ALREADY_ABORTED,
    ERROR_TRANSACTION_ALREADY_COMMITTED,
    ERROR_TM_INITIALIZATION_FAILED,
    ERROR_RESOURCEMANAGER_READ_ONLY,
    ERROR_TRANSACTION_NOT_JOINED,
    ERROR_TRANSACTION_SUPERIOR_EXISTS,
    ERROR_CRM_PROTOCOL_ALREADY_EXISTS,
    ERROR_TRANSACTION_PROPAGATION_FAILED,
    ERROR_CRM_PROTOCOL_NOT_FOUND,
    ERROR_TRANSACTION_INVALID_MARSHALL_BUFFER,
    ERROR_CURRENT_TRANSACTION_NOT_VALID,
    ERROR_TRANSACTION_NOT_FOUND,
    ERROR_RESOURCEMANAGER_NOT_FOUND,
    ERROR_ENLISTMENT_NOT_FOUND,
    ERROR_TRANSACTIONMANAGER_NOT_FOUND,
    ERROR_TRANSACTIONMANAGER_NOT_ONLINE,
    ERROR_TRANSACTIONMANAGER_RECOVERY_NAME_COLLISION,
    ERROR_TRANSACTION_NOT_ROOT,
    ERROR_TRANSACTION_OBJECT_EXPIRED,
    ERROR_TRANSACTION_RESPONSE_NOT_ENLISTED,
    ERROR_TRANSACTION_RECORD_TOO_LONG,
    ERROR_IMPLICIT_TRANSACTION_NOT_SUPPORTED,
    ERROR_TRANSACTION_INTEGRITY_VIOLATED,
    ERROR_TRANSACTIONMANAGER_IDENTITY_MISMATCH,
    ERROR_RM_CANNOT_BE_FROZEN_FOR_SNAPSHOT,
    ERROR_TRANSACTION_MUST_WRITETHROUGH,
    ERROR_TRANSACTION_NO_SUPERIOR,
    ERROR_HEURISTIC_DAMAGE_POSSIBLE,
    ERROR_TRANSACTIONAL_CONFLICT,
    ERROR_RM_NOT_ACTIVE,
    ERROR_RM_METADATA_CORRUPT,
    ERROR_DIRECTORY_NOT_RM,
    ERROR_TRANSACTIONS_UNSUPPORTED_REMOTE,
    ERROR_LOG_RESIZE_INVALID_SIZE,
    ERROR_OBJECT_NO_LONGER_EXISTS,
    ERROR_STREAM_MINIVERSION_NOT_FOUND,
    ERROR_STREAM_MINIVERSION_NOT_VALID,
    ERROR_MINIVERSION_INACCESSIBLE_FROM_SPECIFIED_TRANSACTION,
    ERROR_CANT_OPEN_MINIVERSION_WITH_MODIFY_INTENT,
    ERROR_CANT_CREATE_MORE_STREAM_MINIVERSIONS,
    ERROR_REMOTE_FILE_VERSION_MISMATCH,
    ERROR_HANDLE_NO_LONGER_VALID,
    ERROR_NO_TXF_METADATA,
    ERROR_LOG_CORRUPTION_DETECTED,
    ERROR_CANT_RECOVER_WITH_HANDLE_OPEN,
    ERROR_RM_DISCONNECTED,
    ERROR_ENLISTMENT_NOT_SUPERIOR,
    ERROR_RECOVERY_NOT_NEEDED,
    ERROR_RM_ALREADY_STARTED,
    ERROR_FILE_IDENTITY_NOT_PERSISTENT,
    ERROR_CANT_BREAK_TRANSACTIONAL_DEPENDENCY,
    ERROR_CANT_CROSS_RM_BOUNDARY,
    ERROR_TXF_DIR_NOT_EMPTY,
    ERROR_INDOUBT_TRANSACTIONS_EXIST,
    ERROR_TM_VOLATILE,
    ERROR_ROLLBACK_TIMER_EXPIRED,
    ERROR_TXF_ATTRIBUTE_CORRUPT,
    ERROR_EFS_NOT_ALLOWED_IN_TRANSACTION,
    ERROR_TRANSACTIONAL_OPEN_NOT_ALLOWED,
    ERROR_LOG_GROWTH_FAILED,
    ERROR_TRANSACTED_MAPPING_UNSUPPORTED_REMOTE,
    ERROR_TXF_METADATA_ALREADY_PRESENT,
    ERROR_TRANSACTION_SCOPE_CALLBACKS_NOT_SET,
    ERROR_TRANSACTION_REQUIRED_PROMOTION,
    ERROR_CANNOT_EXECUTE_FILE_IN_TRANSACTION,
    ERROR_TRANSACTIONS_NOT_FROZEN,
    ERROR_TRANSACTION_FREEZE_IN_PROGRESS,
    ERROR_NOT_SNAPSHOT_VOLUME,
    ERROR_NO_SAVEPOINT_WITH_OPEN_FILES,
    ERROR_DATA_LOST_REPAIR,
    ERROR_SPARSE_NOT_ALLOWED_IN_TRANSACTION,
    ERROR_TM_IDENTITY_MISMATCH,
    ERROR_FLOATED_SECTION,
    ERROR_CANNOT_ACCEPT_TRANSACTED_WORK,
    ERROR_CANNOT_ABORT_TRANSACTIONS,
    ERROR_BAD_CLUSTERS,
    ERROR_COMPRESSION_NOT_ALLOWED_IN_TRANSACTION,
    ERROR_VOLUME_DIRTY,
    ERROR_NO_LINK_TRACKING_IN_TRANSACTION,
    ERROR_OPERATION_NOT_SUPPORTED_IN_TRANSACTION,
    ERROR_EXPIRED_HANDLE,
    ERROR_TRANSACTION_NOT_ENLISTED,
    ERROR_CTX_WINSTATION_NAME_INVALID,
    ERROR_CTX_INVALID_PD,
    ERROR_CTX_PD_NOT_FOUND,
    ERROR_CTX_WD_NOT_FOUND,
    ERROR_CTX_CANNOT_MAKE_EVENTLOG_ENTRY,
    ERROR_CTX_SERVICE_NAME_COLLISION,
    ERROR_CTX_CLOSE_PENDING,
    ERROR_CTX_NO_OUTBUF,
    ERROR_CTX_MODEM_INF_NOT_FOUND,
    ERROR_CTX_INVALID_MODEMNAME,
    ERROR_CTX_MODEM_RESPONSE_ERROR,
    ERROR_CTX_MODEM_RESPONSE_TIMEOUT,
    ERROR_CTX_MODEM_RESPONSE_NO_CARRIER,
    ERROR_CTX_MODEM_RESPONSE_NO_DIALTONE,
    ERROR_CTX_MODEM_RESPONSE_BUSY,
    ERROR_CTX_MODEM_RESPONSE_VOICE,
    ERROR_CTX_TD_ERROR,
    ERROR_CTX_WINSTATION_NOT_FOUND,
    ERROR_CTX_WINSTATION_ALREADY_EXISTS,
    ERROR_CTX_WINSTATION_BUSY,
    ERROR_CTX_BAD_VIDEO_MODE,
    ERROR_CTX_GRAPHICS_INVALID,
    ERROR_CTX_LOGON_DISABLED,
    ERROR_CTX_NOT_CONSOLE,
    ERROR_CTX_CLIENT_QUERY_TIMEOUT,
    ERROR_CTX_CONSOLE_DISCONNECT,
    ERROR_CTX_CONSOLE_CONNECT,
    ERROR_CTX_SHADOW_DENIED,
    ERROR_CTX_WINSTATION_ACCESS_DENIED,
    ERROR_CTX_INVALID_WD,
    ERROR_CTX_SHADOW_INVALID,
    ERROR_CTX_SHADOW_DISABLED,
    ERROR_CTX_CLIENT_LICENSE_IN_USE,
    ERROR_CTX_CLIENT_LICENSE_NOT_SET,
    ERROR_CTX_LICENSE_NOT_AVAILABLE,
    ERROR_CTX_LICENSE_CLIENT_INVALID,
    ERROR_CTX_LICENSE_EXPIRED,
    ERROR_CTX_SHADOW_NOT_RUNNING,
    ERROR_CTX_SHADOW_ENDED_BY_MODE_CHANGE,
    ERROR_ACTIVATION_COUNT_EXCEEDED,
    ERROR_CTX_WINSTATIONS_DISABLED,
    ERROR_CTX_ENCRYPTION_LEVEL_REQUIRED,
    ERROR_CTX_SESSION_IN_USE,
    ERROR_CTX_NO_FORCE_LOGOFF,
    ERROR_CTX_ACCOUNT_RESTRICTION,
    ERROR_RDP_PROTOCOL_ERROR,
    ERROR_CTX_CDM_CONNECT,
    ERROR_CTX_CDM_DISCONNECT,
    ERROR_CTX_SECURITY_LAYER_ERROR,
    ERROR_TS_INCOMPATIBLE_SESSIONS,
    ERROR_TS_VIDEO_SUBSYSTEM_ERROR,
    ERROR_DS_NOT_INSTALLED,
    ERROR_DS_MEMBERSHIP_EVALUATED_LOCALLY,
    ERROR_DS_NO_ATTRIBUTE_OR_VALUE,
    ERROR_DS_INVALID_ATTRIBUTE_SYNTAX,
    ERROR_DS_ATTRIBUTE_TYPE_UNDEFINED,
    ERROR_DS_ATTRIBUTE_OR_VALUE_EXISTS,
    ERROR_DS_BUSY,
    ERROR_DS_UNAVAILABLE,
    ERROR_DS_NO_RIDS_ALLOCATED,
    ERROR_DS_NO_MORE_RIDS,
    ERROR_DS_INCORRECT_ROLE_OWNER,
    ERROR_DS_RIDMGR_INIT_ERROR,
    ERROR_DS_OBJ_CLASS_VIOLATION,
    ERROR_DS_CANT_ON_NON_LEAF,
    ERROR_DS_CANT_ON_RDN,
    ERROR_DS_CANT_MOD_OBJ_CLASS,
    ERROR_DS_CROSS_DOM_MOVE_ERROR,
    ERROR_DS_GC_NOT_AVAILABLE,
    ERROR_SHARED_POLICY,
    ERROR_POLICY_OBJECT_NOT_FOUND,
    ERROR_POLICY_ONLY_IN_DS,
    ERROR_PROMOTION_ACTIVE,
    ERROR_NO_PROMOTION_ACTIVE,
    ERROR_DS_OPERATIONS_ERROR,
    ERROR_DS_PROTOCOL_ERROR,
    ERROR_DS_TIMELIMIT_EXCEEDED,
    ERROR_DS_SIZELIMIT_EXCEEDED,
    ERROR_DS_ADMIN_LIMIT_EXCEEDED,
    ERROR_DS_COMPARE_FALSE,
    ERROR_DS_COMPARE_TRUE,
    ERROR_DS_AUTH_METHOD_NOT_SUPPORTED,
    ERROR_DS_STRONG_AUTH_REQUIRED,
    ERROR_DS_INAPPROPRIATE_AUTH,
    ERROR_DS_AUTH_UNKNOWN,
    ERROR_DS_REFERRAL,
    ERROR_DS_UNAVAILABLE_CRIT_EXTENSION,
    ERROR_DS_CONFIDENTIALITY_REQUIRED,
    ERROR_DS_INAPPROPRIATE_MATCHING,
    ERROR_DS_CONSTRAINT_VIOLATION,
    ERROR_DS_NO_SUCH_OBJECT,
    ERROR_DS_ALIAS_PROBLEM,
    ERROR_DS_INVALID_DN_SYNTAX,
    ERROR_DS_IS_LEAF,
    ERROR_DS_ALIAS_DEREF_PROBLEM,
    ERROR_DS_UNWILLING_TO_PERFORM,
    ERROR_DS_LOOP_DETECT,
    ERROR_DS_NAMING_VIOLATION,
    ERROR_DS_OBJECT_RESULTS_TOO_LARGE,
    ERROR_DS_AFFECTS_MULTIPLE_DSAS,
    ERROR_DS_SERVER_DOWN,
    ERROR_DS_LOCAL_ERROR,
    ERROR_DS_ENCODING_ERROR,
    ERROR_DS_DECODING_ERROR,
    ERROR_DS_FILTER_UNKNOWN,
    ERROR_DS_PARAM_ERROR,
    ERROR_DS_NOT_SUPPORTED,
    ERROR_DS_NO_RESULTS_RETURNED,
    ERROR_DS_CONTROL_NOT_FOUND,
    ERROR_DS_CLIENT_LOOP,
    ERROR_DS_REFERRAL_LIMIT_EXCEEDED,
    ERROR_DS_SORT_CONTROL_MISSING,
    ERROR_DS_OFFSET_RANGE_ERROR,
    ERROR_DS_RIDMGR_DISABLED,
    ERROR_DS_ROOT_MUST_BE_NC,
    ERROR_DS_ADD_REPLICA_INHIBITED,
    ERROR_DS_ATT_NOT_DEF_IN_SCHEMA,
    ERROR_DS_MAX_OBJ_SIZE_EXCEEDED,
    ERROR_DS_OBJ_STRING_NAME_EXISTS,
    ERROR_DS_NO_RDN_DEFINED_IN_SCHEMA,
    ERROR_DS_RDN_DOESNT_MATCH_SCHEMA,
    ERROR_DS_NO_REQUESTED_ATTS_FOUND,
    ERROR_DS_USER_BUFFER_TO_SMALL,
    ERROR_DS_ATT_IS_NOT_ON_OBJ,
    ERROR_DS_ILLEGAL_MOD_OPERATION,
    ERROR_DS_OBJ_TOO_LARGE,
    ERROR_DS_BAD_INSTANCE_TYPE,
    ERROR_DS_MASTERDSA_REQUIRED,
    ERROR_DS_OBJECT_CLASS_REQUIRED,
    ERROR_DS_MISSING_REQUIRED_ATT,
    ERROR_DS_ATT_NOT_DEF_FOR_CLASS,
    ERROR_DS_ATT_ALREADY_EXISTS,
    ERROR_DS_CANT_ADD_ATT_VALUES,
    ERROR_DS_SINGLE_VALUE_CONSTRAINT,
    ERROR_DS_RANGE_CONSTRAINT,
    ERROR_DS_ATT_VAL_ALREADY_EXISTS,
    ERROR_DS_CANT_REM_MISSING_ATT,
    ERROR_DS_CANT_REM_MISSING_ATT_VAL,
    ERROR_DS_ROOT_CANT_BE_SUBREF,
    ERROR_DS_NO_CHAINING,
    ERROR_DS_NO_CHAINED_EVAL,
    ERROR_DS_NO_PARENT_OBJECT,
    ERROR_DS_PARENT_IS_AN_ALIAS,
    ERROR_DS_CANT_MIX_MASTER_AND_REPS,
    ERROR_DS_CHILDREN_EXIST,
    ERROR_DS_OBJ_NOT_FOUND,
    ERROR_DS_ALIASED_OBJ_MISSING,
    ERROR_DS_BAD_NAME_SYNTAX,
    ERROR_DS_ALIAS_POINTS_TO_ALIAS,
    ERROR_DS_CANT_DEREF_ALIAS,
    ERROR_DS_OUT_OF_SCOPE,
    ERROR_DS_OBJECT_BEING_REMOVED,
    ERROR_DS_CANT_DELETE_DSA_OBJ,
    ERROR_DS_GENERIC_ERROR,
    ERROR_DS_DSA_MUST_BE_INT_MASTER,
    ERROR_DS_CLASS_NOT_DSA,
    ERROR_DS_INSUFF_ACCESS_RIGHTS,
    ERROR_DS_ILLEGAL_SUPERIOR,
    ERROR_DS_ATTRIBUTE_OWNED_BY_SAM,
    ERROR_DS_NAME_TOO_MANY_PARTS,
    ERROR_DS_NAME_TOO_LONG,
    ERROR_DS_NAME_VALUE_TOO_LONG,
    ERROR_DS_NAME_UNPARSEABLE,
    ERROR_DS_NAME_TYPE_UNKNOWN,
    ERROR_DS_NOT_AN_OBJECT,
    ERROR_DS_SEC_DESC_TOO_SHORT,
    ERROR_DS_SEC_DESC_INVALID,
    ERROR_DS_NO_DELETED_NAME,
    ERROR_DS_SUBREF_MUST_HAVE_PARENT,
    ERROR_DS_NCNAME_MUST_BE_NC,
    ERROR_DS_CANT_ADD_SYSTEM_ONLY,
    ERROR_DS_CLASS_MUST_BE_CONCRETE,
    ERROR_DS_INVALID_DMD,
    ERROR_DS_OBJ_GUID_EXISTS,
    ERROR_DS_NOT_ON_BACKLINK,
    ERROR_DS_NO_CROSSREF_FOR_NC,
    ERROR_DS_SHUTTING_DOWN,
    ERROR_DS_UNKNOWN_OPERATION,
    ERROR_DS_INVALID_ROLE_OWNER,
    ERROR_DS_COULDNT_CONTACT_FSMO,
    ERROR_DS_CROSS_NC_DN_RENAME,
    ERROR_DS_CANT_MOD_SYSTEM_ONLY,
    ERROR_DS_REPLICATOR_ONLY,
    ERROR_DS_OBJ_CLASS_NOT_DEFINED,
    ERROR_DS_OBJ_CLASS_NOT_SUBCLASS,
    ERROR_DS_NAME_REFERENCE_INVALID,
    ERROR_DS_CROSS_REF_EXISTS,
    ERROR_DS_CANT_DEL_MASTER_CROSSREF,
    ERROR_DS_SUBTREE_NOTIFY_NOT_NC_HEAD,
    ERROR_DS_NOTIFY_FILTER_TOO_COMPLEX,
    ERROR_DS_DUP_RDN,
    ERROR_DS_DUP_OID,
    ERROR_DS_DUP_MAPI_ID,
    ERROR_DS_DUP_SCHEMA_ID_GUID,
    ERROR_DS_DUP_LDAP_DISPLAY_NAME,
    ERROR_DS_SEMANTIC_ATT_TEST,
    ERROR_DS_SYNTAX_MISMATCH,
    ERROR_DS_EXISTS_IN_MUST_HAVE,
    ERROR_DS_EXISTS_IN_MAY_HAVE,
    ERROR_DS_NONEXISTENT_MAY_HAVE,
    ERROR_DS_NONEXISTENT_MUST_HAVE,
    ERROR_DS_AUX_CLS_TEST_FAIL,
    ERROR_DS_NONEXISTENT_POSS_SUP,
    ERROR_DS_SUB_CLS_TEST_FAIL,
    ERROR_DS_BAD_RDN_ATT_ID_SYNTAX,
    ERROR_DS_EXISTS_IN_AUX_CLS,
    ERROR_DS_EXISTS_IN_SUB_CLS,
    ERROR_DS_EXISTS_IN_POSS_SUP,
    ERROR_DS_RECALCSCHEMA_FAILED,
    ERROR_DS_TREE_DELETE_NOT_FINISHED,
    ERROR_DS_CANT_DELETE,
    ERROR_DS_ATT_SCHEMA_REQ_ID,
    ERROR_DS_BAD_ATT_SCHEMA_SYNTAX,
    ERROR_DS_CANT_CACHE_ATT,
    ERROR_DS_CANT_CACHE_CLASS,
    ERROR_DS_CANT_REMOVE_ATT_CACHE,
    ERROR_DS_CANT_REMOVE_CLASS_CACHE,
    ERROR_DS_CANT_RETRIEVE_DN,
    ERROR_DS_MISSING_SUPREF,
    ERROR_DS_CANT_RETRIEVE_INSTANCE,
    ERROR_DS_CODE_INCONSISTENCY,
    ERROR_DS_DATABASE_ERROR,
    ERROR_DS_GOVERNSID_MISSING,
    ERROR_DS_MISSING_EXPECTED_ATT,
    ERROR_DS_NCNAME_MISSING_CR_REF,
    ERROR_DS_SECURITY_CHECKING_ERROR,
    ERROR_DS_SCHEMA_NOT_LOADED,
    ERROR_DS_SCHEMA_ALLOC_FAILED,
    ERROR_DS_ATT_SCHEMA_REQ_SYNTAX,
    ERROR_DS_GCVERIFY_ERROR,
    ERROR_DS_DRA_SCHEMA_MISMATCH,
    ERROR_DS_CANT_FIND_DSA_OBJ,
    ERROR_DS_CANT_FIND_EXPECTED_NC,
    ERROR_DS_CANT_FIND_NC_IN_CACHE,
    ERROR_DS_CANT_RETRIEVE_CHILD,
    ERROR_DS_SECURITY_ILLEGAL_MODIFY,
    ERROR_DS_CANT_REPLACE_HIDDEN_REC,
    ERROR_DS_BAD_HIERARCHY_FILE,
    ERROR_DS_BUILD_HIERARCHY_TABLE_FAILED,
    ERROR_DS_CONFIG_PARAM_MISSING,
    ERROR_DS_COUNTING_AB_INDICES_FAILED,
    ERROR_DS_HIERARCHY_TABLE_MALLOC_FAILED,
    ERROR_DS_INTERNAL_FAILURE,
    ERROR_DS_UNKNOWN_ERROR,
    ERROR_DS_ROOT_REQUIRES_CLASS_TOP,
    ERROR_DS_REFUSING_FSMO_ROLES,
    ERROR_DS_MISSING_FSMO_SETTINGS,
    ERROR_DS_UNABLE_TO_SURRENDER_ROLES,
    ERROR_DS_DRA_GENERIC,
    ERROR_DS_DRA_INVALID_PARAMETER,
    ERROR_DS_DRA_BUSY,
    ERROR_DS_DRA_BAD_DN,
    ERROR_DS_DRA_BAD_NC,
    ERROR_DS_DRA_DN_EXISTS,
    ERROR_DS_DRA_INTERNAL_ERROR,
    ERROR_DS_DRA_INCONSISTENT_DIT,
    ERROR_DS_DRA_CONNECTION_FAILED,
    ERROR_DS_DRA_BAD_INSTANCE_TYPE,
    ERROR_DS_DRA_OUT_OF_MEM,
    ERROR_DS_DRA_MAIL_PROBLEM,
    ERROR_DS_DRA_REF_ALREADY_EXISTS,
    ERROR_DS_DRA_REF_NOT_FOUND,
    ERROR_DS_DRA_OBJ_IS_REP_SOURCE,
    ERROR_DS_DRA_DB_ERROR,
    ERROR_DS_DRA_NO_REPLICA,
    ERROR_DS_DRA_ACCESS_DENIED,
    ERROR_DS_DRA_NOT_SUPPORTED,
    ERROR_DS_DRA_RPC_CANCELLED,
    ERROR_DS_DRA_SOURCE_DISABLED,
    ERROR_DS_DRA_SINK_DISABLED,
    ERROR_DS_DRA_NAME_COLLISION,
    ERROR_DS_DRA_SOURCE_REINSTALLED,
    ERROR_DS_DRA_MISSING_PARENT,
    ERROR_DS_DRA_PREEMPTED,
    ERROR_DS_DRA_ABANDON_SYNC,
    ERROR_DS_DRA_SHUTDOWN,
    ERROR_DS_DRA_INCOMPATIBLE_PARTIAL_SET,
    ERROR_DS_DRA_SOURCE_IS_PARTIAL_REPLICA,
    ERROR_DS_DRA_EXTN_CONNECTION_FAILED,
    ERROR_DS_INSTALL_SCHEMA_MISMATCH,
    ERROR_DS_DUP_LINK_ID,
    ERROR_DS_NAME_ERROR_RESOLVING,
    ERROR_DS_NAME_ERROR_NOT_FOUND,
    ERROR_DS_NAME_ERROR_NOT_UNIQUE,
    ERROR_DS_NAME_ERROR_NO_MAPPING,
    ERROR_DS_NAME_ERROR_DOMAIN_ONLY,
    ERROR_DS_NAME_ERROR_NO_SYNTACTICAL_MAPPING,
    ERROR_DS_CONSTRUCTED_ATT_MOD,
    ERROR_DS_WRONG_OM_OBJ_CLASS,
    ERROR_DS_DRA_REPL_PENDING,
    ERROR_DS_DS_REQUIRED,
    ERROR_DS_INVALID_LDAP_DISPLAY_NAME,
    ERROR_DS_NON_BASE_SEARCH,
    ERROR_DS_CANT_RETRIEVE_ATTS,
    ERROR_DS_BACKLINK_WITHOUT_LINK,
    ERROR_DS_EPOCH_MISMATCH,
    ERROR_DS_SRC_NAME_MISMATCH,
    ERROR_DS_SRC_AND_DST_NC_IDENTICAL,
    ERROR_DS_DST_NC_MISMATCH,
    ERROR_DS_NOT_AUTHORITIVE_FOR_DST_NC,
    ERROR_DS_SRC_GUID_MISMATCH,
    ERROR_DS_CANT_MOVE_DELETED_OBJECT,
    ERROR_DS_PDC_OPERATION_IN_PROGRESS,
    ERROR_DS_CROSS_DOMAIN_CLEANUP_REQD,
    ERROR_DS_ILLEGAL_XDOM_MOVE_OPERATION,
    ERROR_DS_CANT_WITH_ACCT_GROUP_MEMBERSHPS,
    ERROR_DS_NC_MUST_HAVE_NC_PARENT,
    ERROR_DS_CR_IMPOSSIBLE_TO_VALIDATE,
    ERROR_DS_DST_DOMAIN_NOT_NATIVE,
    ERROR_DS_MISSING_INFRASTRUCTURE_CONTAINER,
    ERROR_DS_CANT_MOVE_ACCOUNT_GROUP,
    ERROR_DS_CANT_MOVE_RESOURCE_GROUP,
    ERROR_DS_INVALID_SEARCH_FLAG,
    ERROR_DS_NO_TREE_DELETE_ABOVE_NC,
    ERROR_DS_COULDNT_LOCK_TREE_FOR_DELETE,
    ERROR_DS_COULDNT_IDENTIFY_OBJECTS_FOR_TREE_DELETE,
    ERROR_DS_SAM_INIT_FAILURE,
    ERROR_DS_SENSITIVE_GROUP_VIOLATION,
    ERROR_DS_CANT_MOD_PRIMARYGROUPID,
    ERROR_DS_ILLEGAL_BASE_SCHEMA_MOD,
    ERROR_DS_NONSAFE_SCHEMA_CHANGE,
    ERROR_DS_SCHEMA_UPDATE_DISALLOWED,
    ERROR_DS_CANT_CREATE_UNDER_SCHEMA,
    ERROR_DS_INSTALL_NO_SRC_SCH_VERSION,
    ERROR_DS_INSTALL_NO_SCH_VERSION_IN_INIFILE,
    ERROR_DS_INVALID_GROUP_TYPE,
    ERROR_DS_NO_NEST_GLOBALGROUP_IN_MIXEDDOMAIN,
    ERROR_DS_NO_NEST_LOCALGROUP_IN_MIXEDDOMAIN,
    ERROR_DS_GLOBAL_CANT_HAVE_LOCAL_MEMBER,
    ERROR_DS_GLOBAL_CANT_HAVE_UNIVERSAL_MEMBER,
    ERROR_DS_UNIVERSAL_CANT_HAVE_LOCAL_MEMBER,
    ERROR_DS_GLOBAL_CANT_HAVE_CROSSDOMAIN_MEMBER,
    ERROR_DS_LOCAL_CANT_HAVE_CROSSDOMAIN_LOCAL_MEMBER,
    ERROR_DS_HAVE_PRIMARY_MEMBERS,
    ERROR_DS_STRING_SD_CONVERSION_FAILED,
    ERROR_DS_NAMING_MASTER_GC,
    ERROR_DS_DNS_LOOKUP_FAILURE,
    ERROR_DS_COULDNT_UPDATE_SPNS,
    ERROR_DS_CANT_RETRIEVE_SD,
    ERROR_DS_KEY_NOT_UNIQUE,
    ERROR_DS_WRONG_LINKED_ATT_SYNTAX,
    ERROR_DS_SAM_NEED_BOOTKEY_PASSWORD,
    ERROR_DS_SAM_NEED_BOOTKEY_FLOPPY,
    ERROR_DS_CANT_START,
    ERROR_DS_INIT_FAILURE,
    ERROR_DS_NO_PKT_PRIVACY_ON_CONNECTION,
    ERROR_DS_SOURCE_DOMAIN_IN_FOREST,
    ERROR_DS_DESTINATION_DOMAIN_NOT_IN_FOREST,
    ERROR_DS_DESTINATION_AUDITING_NOT_ENABLED,
    ERROR_DS_CANT_FIND_DC_FOR_SRC_DOMAIN,
    ERROR_DS_SRC_OBJ_NOT_GROUP_OR_USER,
    ERROR_DS_SRC_SID_EXISTS_IN_FOREST,
    ERROR_DS_SRC_AND_DST_OBJECT_CLASS_MISMATCH,
    ERROR_SAM_INIT_FAILURE,
    ERROR_DS_DRA_SCHEMA_INFO_SHIP,
    ERROR_DS_DRA_SCHEMA_CONFLICT,
    ERROR_DS_DRA_EARLIER_SCHEMA_CONFLICT,
    ERROR_DS_DRA_OBJ_NC_MISMATCH,
    ERROR_DS_NC_STILL_HAS_DSAS,
    ERROR_DS_GC_REQUIRED,
    ERROR_DS_LOCAL_MEMBER_OF_LOCAL_ONLY,
    ERROR_DS_NO_FPO_IN_UNIVERSAL_GROUPS,
    ERROR_DS_CANT_ADD_TO_GC,
    ERROR_DS_NO_CHECKPOINT_WITH_PDC,
    ERROR_DS_SOURCE_AUDITING_NOT_ENABLED,
    ERROR_DS_CANT_CREATE_IN_NONDOMAIN_NC,
    ERROR_DS_INVALID_NAME_FOR_SPN,
    ERROR_DS_FILTER_USES_CONTRUCTED_ATTRS,
    ERROR_DS_UNICODEPWD_NOT_IN_QUOTES,
    ERROR_DS_MACHINE_ACCOUNT_QUOTA_EXCEEDED,
    ERROR_DS_MUST_BE_RUN_ON_DST_DC,
    ERROR_DS_SRC_DC_MUST_BE_SP4_OR_GREATER,
    ERROR_DS_CANT_TREE_DELETE_CRITICAL_OBJ,
    ERROR_DS_INIT_FAILURE_CONSOLE,
    ERROR_DS_SAM_INIT_FAILURE_CONSOLE,
    ERROR_DS_FOREST_VERSION_TOO_HIGH,
    ERROR_DS_DOMAIN_VERSION_TOO_HIGH,
    ERROR_DS_FOREST_VERSION_TOO_LOW,
    ERROR_DS_DOMAIN_VERSION_TOO_LOW,
    ERROR_DS_INCOMPATIBLE_VERSION,
    ERROR_DS_LOW_DSA_VERSION,
    ERROR_DS_NO_BEHAVIOR_VERSION_IN_MIXEDDOMAIN,
    ERROR_DS_NOT_SUPPORTED_SORT_ORDER,
    ERROR_DS_NAME_NOT_UNIQUE,
    ERROR_DS_MACHINE_ACCOUNT_CREATED_PRENT4,
    ERROR_DS_OUT_OF_VERSION_STORE,
    ERROR_DS_INCOMPATIBLE_CONTROLS_USED,
    ERROR_DS_NO_REF_DOMAIN,
    ERROR_DS_RESERVED_LINK_ID,
    ERROR_DS_LINK_ID_NOT_AVAILABLE,
    ERROR_DS_AG_CANT_HAVE_UNIVERSAL_MEMBER,
    ERROR_DS_MODIFYDN_DISALLOWED_BY_INSTANCE_TYPE,
    ERROR_DS_NO_OBJECT_MOVE_IN_SCHEMA_NC,
    ERROR_DS_MODIFYDN_DISALLOWED_BY_FLAG,
    ERROR_DS_MODIFYDN_WRONG_GRANDPARENT,
    ERROR_DS_NAME_ERROR_TRUST_REFERRAL,
    ERROR_NOT_SUPPORTED_ON_STANDARD_SERVER,
    ERROR_DS_CANT_ACCESS_REMOTE_PART_OF_AD,
    ERROR_DS_CR_IMPOSSIBLE_TO_VALIDATE_V2,
    ERROR_DS_THREAD_LIMIT_EXCEEDED,
    ERROR_DS_NOT_CLOSEST,
    ERROR_DS_CANT_DERIVE_SPN_WITHOUT_SERVER_REF,
    ERROR_DS_SINGLE_USER_MODE_FAILED,
    ERROR_DS_NTDSCRIPT_SYNTAX_ERROR,
    ERROR_DS_NTDSCRIPT_PROCESS_ERROR,
    ERROR_DS_DIFFERENT_REPL_EPOCHS,
    ERROR_DS_DRS_EXTENSIONS_CHANGED,
    ERROR_DS_REPLICA_SET_CHANGE_NOT_ALLOWED_ON_DISABLED_CR,
    ERROR_DS_NO_MSDS_INTID,
    ERROR_DS_DUP_MSDS_INTID,
    ERROR_DS_EXISTS_IN_RDNATTID,
    ERROR_DS_AUTHORIZATION_FAILED,
    ERROR_DS_INVALID_SCRIPT,
    ERROR_DS_REMOTE_CROSSREF_OP_FAILED,
    ERROR_DS_CROSS_REF_BUSY,
    ERROR_DS_CANT_DERIVE_SPN_FOR_DELETED_DOMAIN,
    ERROR_DS_CANT_DEMOTE_WITH_WRITEABLE_NC,
    ERROR_DS_DUPLICATE_ID_FOUND,
    ERROR_DS_INSUFFICIENT_ATTR_TO_CREATE_OBJECT,
    ERROR_DS_GROUP_CONVERSION_ERROR,
    ERROR_DS_CANT_MOVE_APP_BASIC_GROUP,
    ERROR_DS_CANT_MOVE_APP_QUERY_GROUP,
    ERROR_DS_ROLE_NOT_VERIFIED,
    ERROR_DS_WKO_CONTAINER_CANNOT_BE_SPECIAL,
    ERROR_DS_DOMAIN_RENAME_IN_PROGRESS,
    ERROR_DS_EXISTING_AD_CHILD_NC,
    ERROR_DS_REPL_LIFETIME_EXCEEDED,
    ERROR_DS_DISALLOWED_IN_SYSTEM_CONTAINER,
    ERROR_DS_LDAP_SEND_QUEUE_FULL,
    ERROR_DS_DRA_OUT_SCHEDULE_WINDOW,
    ERROR_DS_POLICY_NOT_KNOWN,
    ERROR_NO_SITE_SETTINGS_OBJECT,
    ERROR_NO_SECRETS,
    ERROR_NO_WRITABLE_DC_FOUND,
    ERROR_DS_NO_SERVER_OBJECT,
    ERROR_DS_NO_NTDSA_OBJECT,
    ERROR_DS_NON_ASQ_SEARCH,
    ERROR_DS_AUDIT_FAILURE,
    ERROR_DS_INVALID_SEARCH_FLAG_SUBTREE,
    ERROR_DS_INVALID_SEARCH_FLAG_TUPLE,
    ERROR_DS_HIERARCHY_TABLE_TOO_DEEP,
    ERROR_DS_DRA_CORRUPT_UTD_VECTOR,
    ERROR_DS_DRA_SECRETS_DENIED,
    ERROR_DS_RESERVED_MAPI_ID,
    ERROR_DS_MAPI_ID_NOT_AVAILABLE,
    ERROR_DS_DRA_MISSING_KRBTGT_SECRET,
    ERROR_DS_DOMAIN_NAME_EXISTS_IN_FOREST,
    ERROR_DS_FLAT_NAME_EXISTS_IN_FOREST,
    ERROR_INVALID_USER_PRINCIPAL_NAME,
    ERROR_DS_OID_MAPPED_GROUP_CANT_HAVE_MEMBERS,
    ERROR_DS_OID_NOT_FOUND,
    ERROR_DS_DRA_RECYCLED_TARGET,
    ERROR_DS_DISALLOWED_NC_REDIRECT,
    ERROR_DS_HIGH_ADLDS_FFL,
    ERROR_DS_HIGH_DSA_VERSION,
    ERROR_DS_LOW_ADLDS_FFL,
    ERROR_DOMAIN_SID_SAME_AS_LOCAL_WORKSTATION,
    ERROR_DS_UNDELETE_SAM_VALIDATION_FAILED,
    ERROR_INCORRECT_ACCOUNT_TYPE,
    ERROR_DS_SPN_VALUE_NOT_UNIQUE_IN_FOREST,
    ERROR_DS_UPN_VALUE_NOT_UNIQUE_IN_FOREST,
    ERROR_DS_MISSING_FOREST_TRUST,
    ERROR_DS_VALUE_KEY_NOT_UNIQUE,
    ERROR_IPSEC_QM_POLICY_EXISTS,
    ERROR_IPSEC_QM_POLICY_NOT_FOUND,
    ERROR_IPSEC_QM_POLICY_IN_USE,
    ERROR_IPSEC_MM_POLICY_EXISTS,
    ERROR_IPSEC_MM_POLICY_NOT_FOUND,
    ERROR_IPSEC_MM_POLICY_IN_USE,
    ERROR_IPSEC_MM_FILTER_EXISTS,
    ERROR_IPSEC_MM_FILTER_NOT_FOUND,
    ERROR_IPSEC_TRANSPORT_FILTER_EXISTS,
    ERROR_IPSEC_TRANSPORT_FILTER_NOT_FOUND,
    ERROR_IPSEC_MM_AUTH_EXISTS,
    ERROR_IPSEC_MM_AUTH_NOT_FOUND,
    ERROR_IPSEC_MM_AUTH_IN_USE,
    ERROR_IPSEC_DEFAULT_MM_POLICY_NOT_FOUND,
    ERROR_IPSEC_DEFAULT_MM_AUTH_NOT_FOUND,
    ERROR_IPSEC_DEFAULT_QM_POLICY_NOT_FOUND,
    ERROR_IPSEC_TUNNEL_FILTER_EXISTS,
    ERROR_IPSEC_TUNNEL_FILTER_NOT_FOUND,
    ERROR_IPSEC_MM_FILTER_PENDING_DELETION,
    ERROR_IPSEC_TRANSPORT_FILTER_PENDING_DELETION,
    ERROR_IPSEC_TUNNEL_FILTER_PENDING_DELETION,
    ERROR_IPSEC_MM_POLICY_PENDING_DELETION,
    ERROR_IPSEC_MM_AUTH_PENDING_DELETION,
    ERROR_IPSEC_QM_POLICY_PENDING_DELETION,
    ERROR_IPSEC_IKE_NEG_STATUS_BEGIN,
    ERROR_IPSEC_IKE_AUTH_FAIL,
    ERROR_IPSEC_IKE_ATTRIB_FAIL,
    ERROR_IPSEC_IKE_NEGOTIATION_PENDING,
    ERROR_IPSEC_IKE_GENERAL_PROCESSING_ERROR,
    ERROR_IPSEC_IKE_TIMED_OUT,
    ERROR_IPSEC_IKE_NO_CERT,
    ERROR_IPSEC_IKE_SA_DELETED,
    ERROR_IPSEC_IKE_SA_REAPED,
    ERROR_IPSEC_IKE_MM_ACQUIRE_DROP,
    ERROR_IPSEC_IKE_QM_ACQUIRE_DROP,
    ERROR_IPSEC_IKE_QUEUE_DROP_MM,
    ERROR_IPSEC_IKE_QUEUE_DROP_NO_MM,
    ERROR_IPSEC_IKE_DROP_NO_RESPONSE,
    ERROR_IPSEC_IKE_MM_DELAY_DROP,
    ERROR_IPSEC_IKE_QM_DELAY_DROP,
    ERROR_IPSEC_IKE_ERROR,
    ERROR_IPSEC_IKE_CRL_FAILED,
    ERROR_IPSEC_IKE_INVALID_KEY_USAGE,
    ERROR_IPSEC_IKE_INVALID_CERT_TYPE,
    ERROR_IPSEC_IKE_NO_PRIVATE_KEY,
    ERROR_IPSEC_IKE_SIMULTANEOUS_REKEY,
    ERROR_IPSEC_IKE_DH_FAIL,
    ERROR_IPSEC_IKE_CRITICAL_PAYLOAD_NOT_RECOGNIZED,
    ERROR_IPSEC_IKE_INVALID_HEADER,
    ERROR_IPSEC_IKE_NO_POLICY,
    ERROR_IPSEC_IKE_INVALID_SIGNATURE,
    ERROR_IPSEC_IKE_KERBEROS_ERROR,
    ERROR_IPSEC_IKE_NO_PUBLIC_KEY,
    ERROR_IPSEC_IKE_PROCESS_ERR,
    ERROR_IPSEC_IKE_PROCESS_ERR_SA,
    ERROR_IPSEC_IKE_PROCESS_ERR_PROP,
    ERROR_IPSEC_IKE_PROCESS_ERR_TRANS,
    ERROR_IPSEC_IKE_PROCESS_ERR_KE,
    ERROR_IPSEC_IKE_PROCESS_ERR_ID,
    ERROR_IPSEC_IKE_PROCESS_ERR_CERT,
    ERROR_IPSEC_IKE_PROCESS_ERR_CERT_REQ,
    ERROR_IPSEC_IKE_PROCESS_ERR_HASH,
    ERROR_IPSEC_IKE_PROCESS_ERR_SIG,
    ERROR_IPSEC_IKE_PROCESS_ERR_NONCE,
    ERROR_IPSEC_IKE_PROCESS_ERR_NOTIFY,
    ERROR_IPSEC_IKE_PROCESS_ERR_DELETE,
    ERROR_IPSEC_IKE_PROCESS_ERR_VENDOR,
    ERROR_IPSEC_IKE_INVALID_PAYLOAD,
    ERROR_IPSEC_IKE_LOAD_SOFT_SA,
    ERROR_IPSEC_IKE_SOFT_SA_TORN_DOWN,
    ERROR_IPSEC_IKE_INVALID_COOKIE,
    ERROR_IPSEC_IKE_NO_PEER_CERT,
    ERROR_IPSEC_IKE_PEER_CRL_FAILED,
    ERROR_IPSEC_IKE_POLICY_CHANGE,
    ERROR_IPSEC_IKE_NO_MM_POLICY,
    ERROR_IPSEC_IKE_NOTCBPRIV,
    ERROR_IPSEC_IKE_SECLOADFAIL,
    ERROR_IPSEC_IKE_FAILSSPINIT,
    ERROR_IPSEC_IKE_FAILQUERYSSP,
    ERROR_IPSEC_IKE_SRVACQFAIL,
    ERROR_IPSEC_IKE_SRVQUERYCRED,
    ERROR_IPSEC_IKE_GETSPIFAIL,
    ERROR_IPSEC_IKE_INVALID_FILTER,
    ERROR_IPSEC_IKE_OUT_OF_MEMORY,
    ERROR_IPSEC_IKE_ADD_UPDATE_KEY_FAILED,
    ERROR_IPSEC_IKE_INVALID_POLICY,
    ERROR_IPSEC_IKE_UNKNOWN_DOI,
    ERROR_IPSEC_IKE_INVALID_SITUATION,
    ERROR_IPSEC_IKE_DH_FAILURE,
    ERROR_IPSEC_IKE_INVALID_GROUP,
    ERROR_IPSEC_IKE_ENCRYPT,
    ERROR_IPSEC_IKE_DECRYPT,
    ERROR_IPSEC_IKE_POLICY_MATCH,
    ERROR_IPSEC_IKE_UNSUPPORTED_ID,
    ERROR_IPSEC_IKE_INVALID_HASH,
    ERROR_IPSEC_IKE_INVALID_HASH_ALG,
    ERROR_IPSEC_IKE_INVALID_HASH_SIZE,
    ERROR_IPSEC_IKE_INVALID_ENCRYPT_ALG,
    ERROR_IPSEC_IKE_INVALID_AUTH_ALG,
    ERROR_IPSEC_IKE_INVALID_SIG,
    ERROR_IPSEC_IKE_LOAD_FAILED,
    ERROR_IPSEC_IKE_RPC_DELETE,
    ERROR_IPSEC_IKE_BENIGN_REINIT,
    ERROR_IPSEC_IKE_INVALID_RESPONDER_LIFETIME_NOTIFY,
    ERROR_IPSEC_IKE_INVALID_MAJOR_VERSION,
    ERROR_IPSEC_IKE_INVALID_CERT_KEYLEN,
    ERROR_IPSEC_IKE_MM_LIMIT,
    ERROR_IPSEC_IKE_NEGOTIATION_DISABLED,
    ERROR_IPSEC_IKE_QM_LIMIT,
    ERROR_IPSEC_IKE_MM_EXPIRED,
    ERROR_IPSEC_IKE_PEER_MM_ASSUMED_INVALID,
    ERROR_IPSEC_IKE_CERT_CHAIN_POLICY_MISMATCH,
    ERROR_IPSEC_IKE_UNEXPECTED_MESSAGE_ID,
    ERROR_IPSEC_IKE_INVALID_AUTH_PAYLOAD,
    ERROR_IPSEC_IKE_DOS_COOKIE_SENT,
    ERROR_IPSEC_IKE_SHUTTING_DOWN,
    ERROR_IPSEC_IKE_CGA_AUTH_FAILED,
    ERROR_IPSEC_IKE_PROCESS_ERR_NATOA,
    ERROR_IPSEC_IKE_INVALID_MM_FOR_QM,
    ERROR_IPSEC_IKE_QM_EXPIRED,
    ERROR_IPSEC_IKE_TOO_MANY_FILTERS,
    ERROR_IPSEC_IKE_NEG_STATUS_END,
    ERROR_IPSEC_IKE_KILL_DUMMY_NAP_TUNNEL,
    ERROR_IPSEC_IKE_INNER_IP_ASSIGNMENT_FAILURE,
    ERROR_IPSEC_IKE_REQUIRE_CP_PAYLOAD_MISSING,
    ERROR_IPSEC_KEY_MODULE_IMPERSONATION_NEGOTIATION_PENDING,
    ERROR_IPSEC_IKE_COEXISTENCE_SUPPRESS,
    ERROR_IPSEC_IKE_RATELIMIT_DROP,
    ERROR_IPSEC_IKE_PEER_DOESNT_SUPPORT_MOBIKE,
    ERROR_IPSEC_IKE_AUTHORIZATION_FAILURE,
    ERROR_IPSEC_IKE_STRONG_CRED_AUTHORIZATION_FAILURE,
    ERROR_IPSEC_IKE_AUTHORIZATION_FAILURE_WITH_OPTIONAL_RETRY,
    ERROR_IPSEC_IKE_STRONG_CRED_AUTHORIZATION_AND_CERTMAP_FAILURE,
    ERROR_IPSEC_IKE_NEG_STATUS_EXTENDED_END,
    ERROR_IPSEC_BAD_SPI,
    ERROR_IPSEC_SA_LIFETIME_EXPIRED,
    ERROR_IPSEC_WRONG_SA,
    ERROR_IPSEC_REPLAY_CHECK_FAILED,
    ERROR_IPSEC_INVALID_PACKET,
    ERROR_IPSEC_INTEGRITY_CHECK_FAILED,
    ERROR_IPSEC_CLEAR_TEXT_DROP,
    ERROR_IPSEC_AUTH_FIREWALL_DROP,
    ERROR_IPSEC_THROTTLE_DROP,
    ERROR_IPSEC_DOSP_BLOCK,
    ERROR_IPSEC_DOSP_RECEIVED_MULTICAST,
    ERROR_IPSEC_DOSP_INVALID_PACKET,
    ERROR_IPSEC_DOSP_STATE_LOOKUP_FAILED,
    ERROR_IPSEC_DOSP_MAX_ENTRIES,
    ERROR_IPSEC_DOSP_KEYMOD_NOT_ALLOWED,
    ERROR_IPSEC_DOSP_NOT_INSTALLED,
    ERROR_IPSEC_DOSP_MAX_PER_IP_RATELIMIT_QUEUES,
    ERROR_SXS_SECTION_NOT_FOUND,
    ERROR_SXS_CANT_GEN_ACTCTX,
    ERROR_SXS_INVALID_ACTCTXDATA_FORMAT,
    ERROR_SXS_ASSEMBLY_NOT_FOUND,
    ERROR_SXS_MANIFEST_FORMAT_ERROR,
    ERROR_SXS_MANIFEST_PARSE_ERROR,
    ERROR_SXS_ACTIVATION_CONTEXT_DISABLED,
    ERROR_SXS_KEY_NOT_FOUND,
    ERROR_SXS_VERSION_CONFLICT,
    ERROR_SXS_WRONG_SECTION_TYPE,
    ERROR_SXS_THREAD_QUERIES_DISABLED,
    ERROR_SXS_PROCESS_DEFAULT_ALREADY_SET,
    ERROR_SXS_UNKNOWN_ENCODING_GROUP,
    ERROR_SXS_UNKNOWN_ENCODING,
    ERROR_SXS_INVALID_XML_NAMESPACE_URI,
    ERROR_SXS_ROOT_MANIFEST_DEPENDENCY_NOT_INSTALLED,
    ERROR_SXS_LEAF_MANIFEST_DEPENDENCY_NOT_INSTALLED,
    ERROR_SXS_INVALID_ASSEMBLY_IDENTITY_ATTRIBUTE,
    ERROR_SXS_MANIFEST_MISSING_REQUIRED_DEFAULT_NAMESPACE,
    ERROR_SXS_MANIFEST_INVALID_REQUIRED_DEFAULT_NAMESPACE,
    ERROR_SXS_PRIVATE_MANIFEST_CROSS_PATH_WITH_REPARSE_POINT,
    ERROR_SXS_DUPLICATE_DLL_NAME,
    ERROR_SXS_DUPLICATE_WINDOWCLASS_NAME,
    ERROR_SXS_DUPLICATE_CLSID,
    ERROR_SXS_DUPLICATE_IID,
    ERROR_SXS_DUPLICATE_TLBID,
    ERROR_SXS_DUPLICATE_PROGID,
    ERROR_SXS_DUPLICATE_ASSEMBLY_NAME,
    ERROR_SXS_FILE_HASH_MISMATCH,
    ERROR_SXS_POLICY_PARSE_ERROR,
    ERROR_SXS_XML_E_MISSINGQUOTE,
    ERROR_SXS_XML_E_COMMENTSYNTAX,
    ERROR_SXS_XML_E_BADSTARTNAMECHAR,
    ERROR_SXS_XML_E_BADNAMECHAR,
    ERROR_SXS_XML_E_BADCHARINSTRING,
    ERROR_SXS_XML_E_XMLDECLSYNTAX,
    ERROR_SXS_XML_E_BADCHARDATA,
    ERROR_SXS_XML_E_MISSINGWHITESPACE,
    ERROR_SXS_XML_E_EXPECTINGTAGEND,
    ERROR_SXS_XML_E_MISSINGSEMICOLON,
    ERROR_SXS_XML_E_UNBALANCEDPAREN,
    ERROR_SXS_XML_E_INTERNALERROR,
    ERROR_SXS_XML_E_UNEXPECTED_WHITESPACE,
    ERROR_SXS_XML_E_INCOMPLETE_ENCODING,
    ERROR_SXS_XML_E_MISSING_PAREN,
    ERROR_SXS_XML_E_EXPECTINGCLOSEQUOTE,
    ERROR_SXS_XML_E_MULTIPLE_COLONS,
    ERROR_SXS_XML_E_INVALID_DECIMAL,
    ERROR_SXS_XML_E_INVALID_HEXIDECIMAL,
    ERROR_SXS_XML_E_INVALID_UNICODE,
    ERROR_SXS_XML_E_WHITESPACEORQUESTIONMARK,
    ERROR_SXS_XML_E_UNEXPECTEDENDTAG,
    ERROR_SXS_XML_E_UNCLOSEDTAG,
    ERROR_SXS_XML_E_DUPLICATEATTRIBUTE,
    ERROR_SXS_XML_E_MULTIPLEROOTS,
    ERROR_SXS_XML_E_INVALIDATROOTLEVEL,
    ERROR_SXS_XML_E_BADXMLDECL,
    ERROR_SXS_XML_E_MISSINGROOT,
    ERROR_SXS_XML_E_UNEXPECTEDEOF,
    ERROR_SXS_XML_E_BADPEREFINSUBSET,
    ERROR_SXS_XML_E_UNCLOSEDSTARTTAG,
    ERROR_SXS_XML_E_UNCLOSEDENDTAG,
    ERROR_SXS_XML_E_UNCLOSEDSTRING,
    ERROR_SXS_XML_E_UNCLOSEDCOMMENT,
    ERROR_SXS_XML_E_UNCLOSEDDECL,
    ERROR_SXS_XML_E_UNCLOSEDCDATA,
    ERROR_SXS_XML_E_RESERVEDNAMESPACE,
    ERROR_SXS_XML_E_INVALIDENCODING,
    ERROR_SXS_XML_E_INVALIDSWITCH,
    ERROR_SXS_XML_E_BADXMLCASE,
    ERROR_SXS_XML_E_INVALID_STANDALONE,
    ERROR_SXS_XML_E_UNEXPECTED_STANDALONE,
    ERROR_SXS_XML_E_INVALID_VERSION,
    ERROR_SXS_XML_E_MISSINGEQUALS,
    ERROR_SXS_PROTECTION_RECOVERY_FAILED,
    ERROR_SXS_PROTECTION_PUBLIC_KEY_TOO_SHORT,
    ERROR_SXS_PROTECTION_CATALOG_NOT_VALID,
    ERROR_SXS_UNTRANSLATABLE_HRESULT,
    ERROR_SXS_PROTECTION_CATALOG_FILE_MISSING,
    ERROR_SXS_MISSING_ASSEMBLY_IDENTITY_ATTRIBUTE,
    ERROR_SXS_INVALID_ASSEMBLY_IDENTITY_ATTRIBUTE_NAME,
    ERROR_SXS_ASSEMBLY_MISSING,
    ERROR_SXS_CORRUPT_ACTIVATION_STACK,
    ERROR_SXS_CORRUPTION,
    ERROR_SXS_EARLY_DEACTIVATION,
    ERROR_SXS_INVALID_DEACTIVATION,
    ERROR_SXS_MULTIPLE_DEACTIVATION,
    ERROR_SXS_PROCESS_TERMINATION_REQUESTED,
    ERROR_SXS_RELEASE_ACTIVATION_CONTEXT,
    ERROR_SXS_SYSTEM_DEFAULT_ACTIVATION_CONTEXT_EMPTY,
    ERROR_SXS_INVALID_IDENTITY_ATTRIBUTE_VALUE,
    ERROR_SXS_INVALID_IDENTITY_ATTRIBUTE_NAME,
    ERROR_SXS_IDENTITY_DUPLICATE_ATTRIBUTE,
    ERROR_SXS_IDENTITY_PARSE_ERROR,
    ERROR_MALFORMED_SUBSTITUTION_STRING,
    ERROR_SXS_INCORRECT_PUBLIC_KEY_TOKEN,
    ERROR_UNMAPPED_SUBSTITUTION_STRING,
    ERROR_SXS_ASSEMBLY_NOT_LOCKED,
    ERROR_SXS_COMPONENT_STORE_CORRUPT,
    ERROR_ADVANCED_INSTALLER_FAILED,
    ERROR_XML_ENCODING_MISMATCH,
    ERROR_SXS_MANIFEST_IDENTITY_SAME_BUT_CONTENTS_DIFFERENT,
    ERROR_SXS_IDENTITIES_DIFFERENT,
    ERROR_SXS_ASSEMBLY_IS_NOT_A_DEPLOYMENT,
    ERROR_SXS_FILE_NOT_PART_OF_ASSEMBLY,
    ERROR_SXS_MANIFEST_TOO_BIG,
    ERROR_SXS_SETTING_NOT_REGISTERED,
    ERROR_SXS_TRANSACTION_CLOSURE_INCOMPLETE,
    ERROR_SMI_PRIMITIVE_INSTALLER_FAILED,
    ERROR_GENERIC_COMMAND_FAILED,
    ERROR_SXS_FILE_HASH_MISSING,
    ERROR_SXS_DUPLICATE_ACTIVATABLE_CLASS,
    ERROR_EVT_INVALID_CHANNEL_PATH,
    ERROR_EVT_INVALID_QUERY,
    ERROR_EVT_PUBLISHER_METADATA_NOT_FOUND,
    ERROR_EVT_EVENT_TEMPLATE_NOT_FOUND,
    ERROR_EVT_INVALID_PUBLISHER_NAME,
    ERROR_EVT_INVALID_EVENT_DATA,
    ERROR_EVT_CHANNEL_NOT_FOUND,
    ERROR_EVT_MALFORMED_XML_TEXT,
    ERROR_EVT_SUBSCRIPTION_TO_DIRECT_CHANNEL,
    ERROR_EVT_CONFIGURATION_ERROR,
    ERROR_EVT_QUERY_RESULT_STALE,
    ERROR_EVT_QUERY_RESULT_INVALID_POSITION,
    ERROR_EVT_NON_VALIDATING_MSXML,
    ERROR_EVT_FILTER_ALREADYSCOPED,
    ERROR_EVT_FILTER_NOTELTSET,
    ERROR_EVT_FILTER_INVARG,
    ERROR_EVT_FILTER_INVTEST,
    ERROR_EVT_FILTER_INVTYPE,
    ERROR_EVT_FILTER_PARSEERR,
    ERROR_EVT_FILTER_UNSUPPORTEDOP,
    ERROR_EVT_FILTER_UNEXPECTEDTOKEN,
    ERROR_EVT_INVALID_OPERATION_OVER_ENABLED_DIRECT_CHANNEL,
    ERROR_EVT_INVALID_CHANNEL_PROPERTY_VALUE,
    ERROR_EVT_INVALID_PUBLISHER_PROPERTY_VALUE,
    ERROR_EVT_CHANNEL_CANNOT_ACTIVATE,
    ERROR_EVT_FILTER_TOO_COMPLEX,
    ERROR_EVT_MESSAGE_NOT_FOUND,
    ERROR_EVT_MESSAGE_ID_NOT_FOUND,
    ERROR_EVT_UNRESOLVED_VALUE_INSERT,
    ERROR_EVT_UNRESOLVED_PARAMETER_INSERT,
    ERROR_EVT_MAX_INSERTS_REACHED,
    ERROR_EVT_EVENT_DEFINITION_NOT_FOUND,
    ERROR_EVT_MESSAGE_LOCALE_NOT_FOUND,
    ERROR_EVT_VERSION_TOO_OLD,
    ERROR_EVT_VERSION_TOO_NEW,
    ERROR_EVT_CANNOT_OPEN_CHANNEL_OF_QUERY,
    ERROR_EVT_PUBLISHER_DISABLED,
    ERROR_EVT_FILTER_OUT_OF_RANGE,
    ERROR_EC_SUBSCRIPTION_CANNOT_ACTIVATE,
    ERROR_EC_LOG_DISABLED,
    ERROR_EC_CIRCULAR_FORWARDING,
    ERROR_EC_CREDSTORE_FULL,
    ERROR_EC_CRED_NOT_FOUND,
    ERROR_EC_NO_ACTIVE_CHANNEL,
    ERROR_MUI_FILE_NOT_FOUND,
    ERROR_MUI_INVALID_FILE,
    ERROR_MUI_INVALID_RC_CONFIG,
    ERROR_MUI_INVALID_LOCALE_NAME,
    ERROR_MUI_INVALID_ULTIMATEFALLBACK_NAME,
    ERROR_MUI_FILE_NOT_LOADED,
    ERROR_RESOURCE_ENUM_USER_STOP,
    ERROR_MUI_INTLSETTINGS_UILANG_NOT_INSTALLED,
    ERROR_MUI_INTLSETTINGS_INVALID_LOCALE_NAME,
    ERROR_MRM_RUNTIME_NO_DEFAULT_OR_NEUTRAL_RESOURCE,
    ERROR_MRM_INVALID_PRICONFIG,
    ERROR_MRM_INVALID_FILE_TYPE,
    ERROR_MRM_UNKNOWN_QUALIFIER,
    ERROR_MRM_INVALID_QUALIFIER_VALUE,
    ERROR_MRM_NO_CANDIDATE,
    ERROR_MRM_NO_MATCH_OR_DEFAULT_CANDIDATE,
    ERROR_MRM_RESOURCE_TYPE_MISMATCH,
    ERROR_MRM_DUPLICATE_MAP_NAME,
    ERROR_MRM_DUPLICATE_ENTRY,
    ERROR_MRM_INVALID_RESOURCE_IDENTIFIER,
    ERROR_MRM_FILEPATH_TOO_LONG,
    ERROR_MRM_UNSUPPORTED_DIRECTORY_TYPE,
    ERROR_MRM_INVALID_PRI_FILE,
    ERROR_MRM_NAMED_RESOURCE_NOT_FOUND,
    ERROR_MRM_MAP_NOT_FOUND,
    ERROR_MRM_UNSUPPORTED_PROFILE_TYPE,
    ERROR_MRM_INVALID_QUALIFIER_OPERATOR,
    ERROR_MRM_INDETERMINATE_QUALIFIER_VALUE,
    ERROR_MRM_AUTOMERGE_ENABLED,
    ERROR_MRM_TOO_MANY_RESOURCES,
    ERROR_MRM_UNSUPPORTED_FILE_TYPE_FOR_MERGE,
    ERROR_MRM_UNSUPPORTED_FILE_TYPE_FOR_LOAD_UNLOAD_PRI_FILE,
    ERROR_MRM_NO_CURRENT_VIEW_ON_THREAD,
    ERROR_DIFFERENT_PROFILE_RESOURCE_MANAGER_EXIST,
    ERROR_OPERATION_NOT_ALLOWED_FROM_SYSTEM_COMPONENT,
    ERROR_MRM_DIRECT_REF_TO_NON_DEFAULT_RESOURCE,
    ERROR_MRM_GENERATION_COUNT_MISMATCH,
    ERROR_PRI_MERGE_VERSION_MISMATCH,
    ERROR_PRI_MERGE_MISSING_SCHEMA,
    ERROR_PRI_MERGE_LOAD_FILE_FAILED,
    ERROR_PRI_MERGE_ADD_FILE_FAILED,
    ERROR_PRI_MERGE_WRITE_FILE_FAILED,
    ERROR_PRI_MERGE_MULTIPLE_PACKAGE_FAMILIES_NOT_ALLOWED,
    ERROR_PRI_MERGE_MULTIPLE_MAIN_PACKAGES_NOT_ALLOWED,
    ERROR_PRI_MERGE_BUNDLE_PACKAGES_NOT_ALLOWED,
    ERROR_PRI_MERGE_MAIN_PACKAGE_REQUIRED,
    ERROR_PRI_MERGE_RESOURCE_PACKAGE_REQUIRED,
    ERROR_PRI_MERGE_INVALID_FILE_NAME,
    ERROR_MRM_PACKAGE_NOT_FOUND,
    ERROR_MRM_MISSING_DEFAULT_LANGUAGE,
    ERROR_MCA_INVALID_CAPABILITIES_STRING,
    ERROR_MCA_INVALID_VCP_VERSION,
    ERROR_MCA_MONITOR_VIOLATES_MCCS_SPECIFICATION,
    ERROR_MCA_MCCS_VERSION_MISMATCH,
    ERROR_MCA_UNSUPPORTED_MCCS_VERSION,
    ERROR_MCA_INTERNAL_ERROR,
    ERROR_MCA_INVALID_TECHNOLOGY_TYPE_RETURNED,
    ERROR_MCA_UNSUPPORTED_COLOR_TEMPERATURE,
    ERROR_AMBIGUOUS_SYSTEM_DEVICE,
    ERROR_SYSTEM_DEVICE_NOT_FOUND,
    ERROR_HASH_NOT_SUPPORTED,
    ERROR_HASH_NOT_PRESENT,
    ERROR_SECONDARY_IC_PROVIDER_NOT_REGISTERED,
    ERROR_GPIO_CLIENT_INFORMATION_INVALID,
    ERROR_GPIO_VERSION_NOT_SUPPORTED,
    ERROR_GPIO_INVALID_REGISTRATION_PACKET,
    ERROR_GPIO_OPERATION_DENIED,
    ERROR_GPIO_INCOMPATIBLE_CONNECT_MODE,
    ERROR_GPIO_INTERRUPT_ALREADY_UNMASKED,
    ERROR_CANNOT_SWITCH_RUNLEVEL,
    ERROR_INVALID_RUNLEVEL_SETTING,
    ERROR_RUNLEVEL_SWITCH_TIMEOUT,
    ERROR_RUNLEVEL_SWITCH_AGENT_TIMEOUT,
    ERROR_RUNLEVEL_SWITCH_IN_PROGRESS,
    ERROR_SERVICES_FAILED_AUTOSTART,
    ERROR_COM_TASK_STOP_PENDING,
    ERROR_INSTALL_OPEN_PACKAGE_FAILED,
    ERROR_INSTALL_PACKAGE_NOT_FOUND,
    ERROR_INSTALL_INVALID_PACKAGE,
    ERROR_INSTALL_RESOLVE_DEPENDENCY_FAILED,
    ERROR_INSTALL_OUT_OF_DISK_SPACE,
    ERROR_INSTALL_NETWORK_FAILURE,
    ERROR_INSTALL_REGISTRATION_FAILURE,
    ERROR_INSTALL_DEREGISTRATION_FAILURE,
    ERROR_INSTALL_CANCEL,
    ERROR_INSTALL_FAILED,
    ERROR_REMOVE_FAILED,
    ERROR_PACKAGE_ALREADY_EXISTS,
    ERROR_NEEDS_REMEDIATION,
    ERROR_INSTALL_PREREQUISITE_FAILED,
    ERROR_PACKAGE_REPOSITORY_CORRUPTED,
    ERROR_INSTALL_POLICY_FAILURE,
    ERROR_PACKAGE_UPDATING,
    ERROR_DEPLOYMENT_BLOCKED_BY_POLICY,
    ERROR_PACKAGES_IN_USE,
    ERROR_RECOVERY_FILE_CORRUPT,
    ERROR_INVALID_STAGED_SIGNATURE,
    ERROR_DELETING_EXISTING_APPLICATIONDATA_STORE_FAILED,
    ERROR_INSTALL_PACKAGE_DOWNGRADE,
    ERROR_SYSTEM_NEEDS_REMEDIATION,
    ERROR_APPX_INTEGRITY_FAILURE_CLR_NGEN,
    ERROR_RESILIENCY_FILE_CORRUPT,
    ERROR_INSTALL_FIREWALL_SERVICE_NOT_RUNNING,
    ERROR_PACKAGE_MOVE_FAILED,
    ERROR_INSTALL_VOLUME_NOT_EMPTY,
    ERROR_INSTALL_VOLUME_OFFLINE,
    ERROR_INSTALL_VOLUME_CORRUPT,
    ERROR_NEEDS_REGISTRATION,
    ERROR_INSTALL_WRONG_PROCESSOR_ARCHITECTURE,
    ERROR_DEV_SIDELOAD_LIMIT_EXCEEDED,
    ERROR_INSTALL_OPTIONAL_PACKAGE_REQUIRES_MAIN_PACKAGE,
    ERROR_PACKAGE_NOT_SUPPORTED_ON_FILESYSTEM,
    ERROR_PACKAGE_MOVE_BLOCKED_BY_STREAMING,
    ERROR_INSTALL_OPTIONAL_PACKAGE_APPLICATIONID_NOT_UNIQUE,
    ERROR_PACKAGE_STAGING_ONHOLD,
    ERROR_INSTALL_INVALID_RELATED_SET_UPDATE,
    ERROR_INSTALL_OPTIONAL_PACKAGE_REQUIRES_MAIN_PACKAGE_FULLTRUST_CAPABILITY,
    ERROR_DEPLOYMENT_BLOCKED_BY_USER_LOG_OFF,
    ERROR_PROVISION_OPTIONAL_PACKAGE_REQUIRES_MAIN_PACKAGE_PROVISIONED,
    ERROR_PACKAGES_REPUTATION_CHECK_FAILED,
    ERROR_PACKAGES_REPUTATION_CHECK_TIMEDOUT,
    ERROR_DEPLOYMENT_OPTION_NOT_SUPPORTED,
    ERROR_APPINSTALLER_ACTIVATION_BLOCKED,
    ERROR_REGISTRATION_FROM_REMOTE_DRIVE_NOT_SUPPORTED,
    ERROR_APPX_RAW_DATA_WRITE_FAILED,
    ERROR_DEPLOYMENT_BLOCKED_BY_VOLUME_POLICY_PACKAGE,
    ERROR_DEPLOYMENT_BLOCKED_BY_VOLUME_POLICY_MACHINE,
    ERROR_DEPLOYMENT_BLOCKED_BY_PROFILE_POLICY,
    ERROR_DEPLOYMENT_FAILED_CONFLICTING_MUTABLE_PACKAGE_DIRECTORY,
    ERROR_SINGLETON_RESOURCE_INSTALLED_IN_ACTIVE_USER,
    ERROR_DIFFERENT_VERSION_OF_PACKAGED_SERVICE_INSTALLED,
    ERROR_SERVICE_EXISTS_AS_NON_PACKAGED_SERVICE,
    ERROR_PACKAGED_SERVICE_REQUIRES_ADMIN_PRIVILEGES,
    ERROR_REDIRECTION_TO_DEFAULT_ACCOUNT_NOT_ALLOWED,
    ERROR_PACKAGE_LACKS_CAPABILITY_TO_DEPLOY_ON_HOST,
    ERROR_UNSIGNED_PACKAGE_INVALID_CONTENT,
    ERROR_UNSIGNED_PACKAGE_INVALID_PUBLISHER_NAMESPACE,
    ERROR_SIGNED_PACKAGE_INVALID_PUBLISHER_NAMESPACE,
    ERROR_PACKAGE_EXTERNAL_LOCATION_NOT_ALLOWED,
    ERROR_INSTALL_FULLTRUST_HOSTRUNTIME_REQUIRES_MAIN_PACKAGE_FULLTRUST_CAPABILITY,
    ERROR_STATE_LOAD_STORE_FAILED,
    ERROR_STATE_GET_VERSION_FAILED,
    ERROR_STATE_SET_VERSION_FAILED,
    ERROR_STATE_STRUCTURED_RESET_FAILED,
    ERROR_STATE_OPEN_CONTAINER_FAILED,
    ERROR_STATE_CREATE_CONTAINER_FAILED,
    ERROR_STATE_DELETE_CONTAINER_FAILED,
    ERROR_STATE_READ_SETTING_FAILED,
    ERROR_STATE_WRITE_SETTING_FAILED,
    ERROR_STATE_DELETE_SETTING_FAILED,
    ERROR_STATE_QUERY_SETTING_FAILED,
    ERROR_STATE_READ_COMPOSITE_SETTING_FAILED,
    ERROR_STATE_WRITE_COMPOSITE_SETTING_FAILED,
    ERROR_STATE_ENUMERATE_CONTAINER_FAILED,
    ERROR_STATE_ENUMERATE_SETTINGS_FAILED,
    ERROR_STATE_COMPOSITE_SETTING_VALUE_SIZE_LIMIT_EXCEEDED,
    ERROR_STATE_SETTING_VALUE_SIZE_LIMIT_EXCEEDED,
    ERROR_STATE_SETTING_NAME_SIZE_LIMIT_EXCEEDED,
    ERROR_STATE_CONTAINER_NAME_SIZE_LIMIT_EXCEEDED,
    ERROR_API_UNAVAILABLE,
}

impl WinErrorWindows {
    /// One slice of the symbol table: the raw value of this symbol,
    /// where this slice holds it.
    pub open spec fn spec_to_u32_part0(self) -> Option<u32> {
        match self {
            WinErrorWindows::ERROR_SUCCESS => Some(0),
            WinErrorWindows::ERROR_INVALID_FUNCTION => Some(1),
            WinErrorWindows::ERROR_FILE_NOT_FOUND => Some(2),
            WinErrorWindows::ERROR_PATH_NOT_FOUND => Some(3),
            WinErrorWindows::ERROR_TOO_MANY_OPEN_FILES => Some(4),
            WinErrorWindows::ERROR_ACCESS_DENIED => Some(5),
            WinErrorWindows::ERROR_INVALID_HANDLE => Some(6),
            WinErrorWindows::ERROR_ARENA_TRASHED => Some(7),
            WinErrorWindows::ERROR_NOT_ENOUGH_MEMORY => Some(8),
            WinErrorWindows::ERROR_INVALID_BLOCK => Some(9),
            WinErrorWindows::ERROR_BAD_ENVIRONMENT => Some(10),
            WinErrorWindows::ERROR_BAD_FORMAT => Some(11),
            WinErrorWindows::ERROR_INVALID_ACCESS => Some(12),
            WinErrorWindows::ERROR_INVALID_DATA => Some(13),
            WinErrorWindows::ERROR_OUTOFMEMORY => Some(14),
            WinErrorWindows::ERROR_INVALID_DRIVE => Some(15),
            WinErrorWindows::ERROR_CURRENT_DIRECTORY => Some(16),
            WinErrorWindows::ERROR_NOT_SAME_DEVICE => Some(17),
            WinErrorWindows::ERROR_NO_MORE_FILES => Some(18),
            WinErrorWindows::ERROR_WRITE_PROTECT => Some(19),
            WinErrorWindows::ERROR_BAD_UNIT => Some(20),
            WinErrorWindows::ERROR_NOT_READY => Some(21),
            WinErrorWindows::ERROR_BAD_COMMAND => Some(22),
            WinErrorWindows::ERROR_CRC => Some(23),
            WinErrorWindows::ERROR_BAD_LENGTH => Some(24),
            WinErrorWindows::ERROR_SEEK => Some(25),
            WinErrorWindows::ERROR_NOT_DOS_DISK => Some(26),
            WinErrorWindows::ERROR_SECTOR_NOT_FOUND => Some(27),
            WinErrorWindows::ERROR_OUT_OF_PAPER => Some(28),
            WinErrorWindows::ERROR_WRITE_FAULT => Some(29),
            WinErrorWindows::ERROR_READ_FAULT => Some(30),
            WinErrorWindows::ERROR_GEN_FAILURE => Some(31),
            WinErrorWindows::ERROR_SHARING_VIOLATION => Some(32),
            WinErrorWindows::ERROR_LOCK_VIOLATION => Some(33),
            WinErrorWindows::ERROR_WRONG_DISK => Some(34),
            WinErrorWindows::ERROR_SHARING_BUFFER_EXCEEDED => Some(36),
            WinErrorWindows::ERROR_HANDLE_EOF => Some(38),
            WinErrorWindows::ERROR_HANDLE_DISK_FULL => Some(39),
            WinErrorWindows::ERROR_NOT_SUPPORTED => Some(50),
            WinErrorWindows::ERROR_REM_NOT_LIST => Some(51),
            WinErrorWindows::ERROR_DUP_NAME => Some(52),
            WinErrorWindows::ERROR_BAD_NETPATH => Some(53),
            WinErrorWindows::ERROR_NETWORK_BUSY => Some(54),
            WinErrorWindows::ERROR_DEV_NOT_EXIST => Some(55),
            WinErrorWindows::ERROR_TOO_MANY_CMDS => Some(56),
            WinErrorWindows::ERROR_ADAP_HDW_ERR => Some(57),
            WinErrorWindows::ERROR_BAD_NET_RESP => Some(58),
            WinErrorWindows::ERROR_UNEXP_NET_ERR => Some(59),
            WinErrorWindows::ERROR_BAD_REM_ADAP => Some(60),
            WinErrorWindows::ERROR_PRINTQ_FULL => Some(61),
            _ => None,
        }
    }

    /// One slice of the symbol table: the symbol this slice gives a
    /// raw value, where it holds one.
    pub open spec fn spec_from_u32_part0(raw: u32) -> Option<WinErrorWindows> {
        match raw {
            0 => Some(WinErrorWindows::ERROR_SUCCESS),
            1 => Some(WinErrorWindows::ERROR_INVALID_FUNCTION),
            2 => Some(WinErrorWindows::ERROR_FILE_NOT_FOUND),
            3 => Some(WinErrorWindows::ERROR_PATH_NOT_FOUND),
            4 => Some(WinErrorWindows::ERROR_TOO_MANY_OPEN_FILES),
            5 => Some(WinErrorWindows::ERROR_ACCESS_DENIED),
            6 => Some(WinErrorWindows::ERROR_INVALID_HANDLE),
            7 => Some(WinErrorWindows::ERROR_ARENA_TRASHED),
            8 => Some(WinErrorWindows::ERROR_NOT_ENOUGH_MEMORY),
            9 => Some(WinErrorWindows::ERROR_INVALID_BLOCK),
            10 => Some(WinErrorWindows::ERROR_BAD_ENVIRONMENT),
            11 => Some(WinErrorWindows::ERROR_BAD_FORMAT),
            12 => Some(WinErrorWindows::ERROR_INVALID_ACCESS),
            13 => Some(WinErrorWindows::ERROR_INVALID_DATA),
            14 => Some(WinErrorWindows::ERROR_OUTOFMEMORY),
            15 => Some(WinErrorWindows::ERROR_INVALID_DRIVE),
            16 => Some(WinErrorWindows::ERROR_CURRENT_DIRECTORY),
            17 => Some(WinErrorWindows::ERROR_NOT_SAME_DEVICE),
            18 => Some(WinErrorWindows::ERROR_NO_MORE_FILES),
            19 => Some(WinErrorWindows::ERROR_WRITE_PROTECT),
            20 => Some(WinErrorWindows::ERROR_BAD_UNIT),
            21 => Some(WinErrorWindows::ERROR_NOT_READY),
            22 => Some(WinErrorWindows::ERROR_BAD_COMMAND),
            23 => Some(WinErrorWindows::ERROR_CRC),
            24 => Some(WinErrorWindows::ERROR_BAD_LENGTH),
            25 => Some(WinErrorWindows::ERROR_SEEK),
            26 => Some(WinErrorWindows::ERROR_NOT_DOS_DISK),
            27 => Some(WinErrorWindows::ERROR_SECTOR_NOT_FOUND),
            28 => Some(WinErrorWindows::ERROR_OUT_OF_PAPER),
            29 => Some(WinErrorWindows::ERROR_WRITE_FAULT),
            30 => Some(WinErrorWindows::ERROR_READ_FAULT),
            31 => Some(WinErrorWindows::ERROR_GEN_FAILURE),
            32 => Some(WinErrorWindows::ERROR_SHARING_VIOLATION),
            33 => Some(WinErrorWindows::ERROR_LOCK_VIOLATION),
            34 => Some(WinErrorWindows::ERROR_WRONG_DISK),
            36 => Some(WinErrorWindows::ERROR_SHARING_BUFFER_EXCEEDED),
            38 => Some(WinErrorWindows::ERROR_HANDLE_EOF),
            39 => Some(WinErrorWindows::ERROR_HANDLE_DISK_FULL),
            50 => Some(WinErrorWindows::ERROR_NOT_SUPPORTED),
            51 => Some(WinErrorWindows::ERROR_REM_NOT_LIST),
            52 => Some(WinErrorWindows::ERROR_DUP_NAME),
            53 => Some(WinErrorWindows::ERROR_BAD_NETPATH),
            54 => Some(WinErrorWindows::ERROR_NETWORK_BUSY),
            55 => Some(WinErrorWindows::ERROR_DEV_NOT_EXIST),
            56 => Some(WinErrorWindows::ERROR_TOO_MANY_CMDS),
            57 => Some(WinErrorWindows::ERROR_ADAP_HDW_ERR),
            58 => Some(WinErrorWindows::ERROR_BAD_NET_RESP),
            59 => Some(WinErrorWindows::ERROR_UNEXP_NET_ERR),
            60 => Some(WinErrorWindows::ERROR_BAD_REM_ADAP),
            61 => Some(WinErrorWindows::ERROR_PRINTQ_FULL),
            _ => None,
        }
    }

    /// One slice of the symbol table.
    #[verifier::spinoff_prover]
    #[verifier::rlimit(100)]
    fn to_u32_part0(self) -> (r: Option<u32>)
        ensures
            r == self.spec_to_u32_part0(),
    {
        match self {
            WinErrorWindows::ERROR_SUCCESS => Some(0),
            WinErrorWindows::ERROR_INVALID_FUNCTION => Some(1),
            WinErrorWindows::ERROR_FILE_NOT_FOUND => Some(2),
            WinErrorWindows::ERROR_PATH_NOT_FOUND => Some(3),
            WinErrorWindows::ERROR_TOO_MANY_OPEN_FILES => Some(4),
            WinErrorWindows::ERROR_ACCESS_DENIED => Some(5),
            WinErrorWindows::ERROR_INVALID_HANDLE => Some(6),
            WinErrorWindows::ERROR_ARENA_TRASHED => Some(7),
            WinErrorWindows::ERROR_NOT_ENOUGH_MEMORY => Some(8),
            WinErrorWindows::ERROR_INVALID_BLOCK => Some(9),
            WinErrorWindows::ERROR_BAD_ENVIRONMENT => Some(10),
            WinErrorWindows::ERROR_BAD_FORMAT => Some(11),
            WinErrorWindows::ERROR_INVALID_ACCESS => Some(12),
            WinErrorWindows::ERROR_INVALID_DATA => Some(13),
            WinErrorWindows::ERROR_OUTOFMEMORY => Some(14),
            WinErrorWindows::ERROR_INVALID_DRIVE => Some(15),
            WinErrorWindows::ERROR_CURRENT_DIRECTORY => Some(16),
            WinErrorWindows::ERROR_NOT_SAME_DEVICE => Some(17),
            WinErrorWindows::ERROR_NO_MORE_FILES => Some(18),
            WinErrorWindows::ERROR_WRITE_PROTECT => Some(19),
            WinErrorWindows::ERROR_BAD_UNIT => Some(20),
            WinErrorWindows::ERROR_NOT_READY => Some(21),
            WinErrorWindows::ERROR_BAD_COMMAND => Some(22),
            WinErrorWindows::ERROR_CRC => Some(23),
            WinErrorWindows::ERROR_BAD_LENGTH => Some(24),
            WinErrorWindows::ERROR_SEEK => Some(25),
            WinErrorWindows::ERROR_NOT_DOS_DISK => Some(26),
            WinErrorWindows::ERROR_SECTOR_NOT_FOUND => Some(27),
            WinErrorWindows::ERROR_OUT_OF_PAPER => Some(28),
            WinErrorWindows::ERROR_WRITE_FAULT => Some(29),
            WinErrorWindows::ERROR_READ_FAULT => Some(30),
            WinErrorWindows::ERROR_GEN_FAILURE => Some(31),
            WinErrorWindows::ERROR_SHARING_VIOLATION => Some(32),
            WinErrorWindows::ERROR_LOCK_VIOLATION => Some(33),
            WinErrorWindows::ERROR_WRONG_DISK => Some(34),
            WinErrorWindows::ERROR_SHARING_BUFFER_EXCEEDED => Some(36),
            WinErrorWindows::ERROR_HANDLE_EOF => Some(38),
            WinErrorWindows::ERROR_HANDLE_DISK_FULL => Some(39),
            WinErrorWindows::ERROR_NOT_SUPPORTED => Some(50),
            WinErrorWindows::ERROR_REM_NOT_LIST => Some(51),
            WinErrorWindows::ERROR_DUP_NAME => Some(52),
            WinErrorWindows::ERROR_BAD_NETPATH => Some(53),
            WinErrorWindows::ERROR_NETWORK_BUSY => Some(54),
            WinErrorWindows::ERROR_DEV_NOT_EXIST => Some(55),
            WinErrorWindows::ERROR_TOO_MANY_CMDS => Some(56),
            WinErrorWindows::ERROR_ADAP_HDW_ERR => Some(57),
            WinErrorWindows::ERROR_BAD_NET_RESP => Some(58),
            WinErrorWindows::ERROR_UNEXP_NET_ERR => Some(59),
            WinErrorWindows::ERROR_BAD_REM_ADAP => Some(60),
            WinErrorWindows::ERROR_PRINTQ_FULL => Some(61),
            _ => None,
        }
    }

    /// One slice of the symbol table.
    #[verifier::spinoff_prover]
    #[verifier::rlimit(100)]
    fn from_u32_part0(raw: u32) -> (r: Option<WinErrorWindows>)
        ensures
            r == WinErrorWindows::spec_from_u32_part0(raw),
    {
        match raw {
            0 => Some(WinErrorWindows::ERROR_SUCCESS),
            1 => Some(WinErrorWindows::ERROR_INVALID_FUNCTION),
            2 => Some(WinErrorWindows::ERROR_FILE_NOT_FOUND),
            3 => Some(WinErrorWindows::ERROR_PATH_NOT_FOUND),
            4 => Some(WinErrorWindows::ERROR_TOO_MANY_OPEN_FILES),
            5 => Some(WinErrorWindows::ERROR_ACCESS_DENIED),
            6 => Some(WinErrorWindows::ERROR_INVALID_HANDLE),
            7 => Some(WinErrorWindows::ERROR_ARENA_TRASHED),
            8 => Some(WinErrorWindows::ERROR_NOT_ENOUGH_MEMORY),
            9 => Some(WinErrorWindows::ERROR_INVALID_BLOCK),
            10 => Some(WinErrorWindows::ERROR_BAD_ENVIRONMENT),
            11 => Some(WinErrorWindows::ERROR_BAD_FORMAT),
            12 => Some(WinErrorWindows::ERROR_INVALID_ACCESS),
            13 => Some(WinErrorWindows::ERROR_INVALID_DATA),
            14 => Some(WinErrorWindows::ERROR_OUTOFMEMORY),
            15 => Some(WinErrorWindows::ERROR_INVALID_DRIVE),
            16 => Some(WinErrorWindows::ERROR_CURRENT_DIRECTORY),
            17 => Some(WinErrorWindows::ERROR_NOT_SAME_DEVICE),
            18 => Some(WinErrorWindows::ERROR_NO_MORE_FILES),
            19 => Some(WinErrorWindows::ERROR_WRITE_PROTECT),
            20 => Some(WinErrorWindows::ERROR_BAD_UNIT),
            21 => Some(WinErrorWindows::ERROR_NOT_READY),
            22 => Some(WinErrorWindows::ERROR_BAD_COMMAND),
            23 => Some(WinErrorWindows::ERROR_CRC),
            24 => Some(WinErrorWindows::ERROR_BAD_LENGTH),
            25 => Some(WinErrorWindows::ERROR_SEEK),
            26 => Some(WinErrorWindows::ERROR_NOT_DOS_DISK),
            27 => Some(WinErrorWindows::ERROR_SECTOR_NOT_FOUND),
            28 => Some(WinErrorWindows::ERROR_OUT_OF_PAPER),
            29 => Some(WinErrorWindows::ERROR_WRITE_FAULT),
            30 => Some(WinErrorWindows::ERROR_READ_FAULT),
            31 => Some(WinErrorWindows::ERROR_GEN_FAILURE),
            32 => Some(WinErrorWindows::ERROR_SHARING_VIOLATION),
            33 => Some(WinErrorWindows::ERROR_LOCK_VIOLATION),
            34 => Some(WinErrorWindows::ERROR_WRONG_DISK),
            36 => Some(WinErrorWindows::ERROR_SHARING_BUFFER_EXCEEDED),
            38 => Some(WinErrorWindows::ERROR_HANDLE_EOF),
            39 => Some(WinErrorWindows::ERROR_HANDLE_DISK_FULL),
            50 => Some(WinErrorWindows::ERROR_NOT_SUPPORTED),
            51 => Some(WinErrorWindows::ERROR_REM_NOT_LIST),
            52 => Some(WinErrorWindows::ERROR_DUP_NAME),
            53 => Some(WinErrorWindows::ERROR_BAD_NETPATH),
            54 => Some(WinErrorWindows::ERROR_NETWORK_BUSY),
            55 => Some(WinErrorWindows::ERROR_DEV_NOT_EXIST),
            56 => Some(WinErrorWindows::ERROR_TOO_MANY_CMDS),
            57 => Some(WinErrorWindows::ERROR_ADAP_HDW_ERR),
            58 => Some(WinErrorWindows::ERROR_BAD_NET_RESP),
            59 => Some(WinErrorWindows::ERROR_UNEXP_NET_ERR),
            60 => Some(WinErrorWindows::ERROR_BAD_REM_ADAP),
            61 => Some(WinErrorWindows::ERROR_PRINTQ_FULL),
            _ => None,
        }
    }

    /// One slice of the symbol table: the raw value of this symbol,
    /// where this slice holds it.
    pub open spec fn spec_to_u32_part1(self) -> Option<u32> {
        match self {
            WinErrorWindows::ERROR_NO_SPOOL_SPACE => Some(62),
            WinErrorWindows::ERROR_PRINT_CANCELLED => Some(63),
            WinErrorWindows::ERROR_NETNAME_DELETED => Some(64),
            WinErrorWindows::ERROR_NETWORK_ACCESS_DENIED => Some(65),
            WinErrorWindows::ERROR_BAD_DEV_TYPE => Some(66),
            WinErrorWindows::ERROR_BAD_NET_NAME => Some(67),
            WinErrorWindows::ERROR_TOO_MANY_NAMES => Some(68),
            WinErrorWindows::ERROR_TOO_MANY_SESS => Some(69),
            WinErrorWindows::ERROR_SHARING_PAUSED => Some(70),
            WinErrorWindows::ERROR_REQ_NOT_ACCEP => Some(71),
            WinErrorWindows::ERROR_REDIR_PAUSED => Some(72),
            WinErrorWindows::ERROR_FILE_EXISTS => Some(80),
            WinErrorWindows::ERROR_CANNOT_MAKE => Some(82),
            WinErrorWindows::ERROR_FAIL_I24 => Some(83),
            WinErrorWindows::ERROR_OUT_OF_STRUCTURES => Some(84),
            WinErrorWindows::ERROR_ALREADY_ASSIGNED => Some(85),
            WinErrorWindows::ERROR_INVALID_PASSWORD => Some(86),
            WinErrorWindows::ERROR_INVALID_PARAMETER => Some(87),
            WinErrorWindows::ERROR_NET_WRITE_FAULT => Some(88),
            WinErrorWindows::ERROR_NO_PROC_SLOTS => Some(89),
            WinErrorWindows::ERROR_TOO_MANY_SEMAPHORES => Some(100),
            WinErrorWindows::ERROR_EXCL_SEM_ALREADY_OWNED => Some(101),
            WinErrorWindows::ERROR_SEM_IS_SET => Some(102),
            WinErrorWindows::ERROR_TOO_MANY_SEM_REQUESTS => Some(103),
            WinErrorWindows::ERROR_INVALID_AT_INTERRUPT_TIME => Some(104),
            WinErrorWindows::ERROR_SEM_OWNER_DIED => Some(105),
            WinErrorWindows::ERROR_SEM_USER_LIMIT => Some(106),
            WinErrorWindows::ERROR_DISK_CHANGE => Some(107),
            WinErrorWindows::ERROR_DRIVE_LOCKED => Some(108),
            WinErrorWindows::ERROR_BROKEN_PIPE => Some(109),
            WinErrorWindows::ERROR_OPEN_FAILED => Some(110),
            WinErrorWindows::ERROR_BUFFER_OVERFLOW => Some(111),
            WinErrorWindows::ERROR_DISK_FULL => Some(112),
            WinErrorWindows::ERROR_NO_MORE_SEARCH_HANDLES => Some(113),
            WinErrorWindows::ERROR_INVALID_TARGET_HANDLE => Some(114),
            WinErrorWindows::ERROR_INVALID_CATEGORY => Some(117),
            WinErrorWindows::ERROR_INVALID_VERIFY_SWITCH => Some(118),
            WinErrorWindows::ERROR_BAD_DRIVER_LEVEL => Some(119),
            WinErrorWindows::ERROR_CALL_NOT_IMPLEMENTED => Some(120),
            WinErrorWindows::ERROR_SEM_TIMEOUT => Some(121),
            WinErrorWindows::ERROR_INSUFFICIENT_BUFFER => Some(122),
            WinErrorWindows::ERROR_INVALID_NAME => Some(123),
            WinErrorWindows::ERROR_INVALID_LEVEL => Some(124),
            WinErrorWindows::ERROR_NO_VOLUME_LABEL => Some(125),
            WinErrorWindows::ERROR_MOD_NOT_FOUND => Some(126),
            WinErrorWindows::ERROR_PROC_NOT_FOUND => Some(127),
            WinErrorWindows::ERROR_WAIT_NO_CHILDREN => Some(128),
            WinErrorWindows::ERROR_CHILD_NOT_COMPLETE => Some(129),
            WinErrorWindows::ERROR_DIRECT_ACCESS_HANDLE => Some(130),
            WinErrorWindows::ERROR_NEGATIVE_SEEK => Some(131),
            _ => None,
        }
    }

    /// One slice of the symbol table: the symbol this slice gives a
    /// raw value, where it holds one.
    pub open spec fn spec_from_u32_part1(raw: u32) -> Option<WinErrorWindows> {
        match raw {
            62 => Some(WinErrorWindows::ERROR_NO_SPOOL_SPACE),
            63 => Some(WinErrorWindows::ERROR_PRINT_CANCELLED),
            64 => Some(WinErrorWindows::ERROR_NETNAME_DELETED),
            65 => Some(WinErrorWindows::ERROR_NETWORK_ACCESS_DENIED),
            66 => Some(WinErrorWindows::ERROR_BAD_DEV_TYPE),
            67 => Some(WinErrorWindows::ERROR_BAD_NET_NAME),
            68 => Some(WinErrorWindows::ERROR_TOO_MANY_NAMES),
            69 => Some(WinErrorWindows::ERROR_TOO_MANY_SESS),
            70 => Some(WinErrorWindows::ERROR_SHARING_PAUSED),
            71 => Some(WinErrorWindows::ERROR_REQ_NOT_ACCEP),
            72 => Some(WinErrorWindows::ERROR_REDIR_PAUSED),
            80 => Some(WinErrorWindows::ERROR_FILE_EXISTS),
            82 => Some(WinErrorWindows::ERROR_CANNOT_MAKE),
            83 => Some(WinErrorWindows::ERROR_FAIL_I24),
            84 => Some(WinErrorWindows::ERROR_OUT_OF_STRUCTURES),
            85 => Some(WinErrorWindows::ERROR_ALREADY_ASSIGNED),
            86 => Some(WinErrorWindows::ERROR_INVALID_PASSWORD),
            87 => Some(WinErrorWindows::ERROR_INVALID_PARAMETER),
            88 => Some(WinErrorWindows::ERROR_NET_WRITE_FAULT),
            89 => Some(WinErrorWindows::ERROR_NO_PROC_SLOTS),
            100 => Some(WinErrorWindows::ERROR_TOO_MANY_SEMAPHORES),
            101 => Some(WinErrorWindows::ERROR_EXCL_SEM_ALREADY_OWNED),
            102 => Some(WinErrorWindows::ERROR_SEM_IS_SET),
            103 => Some(WinErrorWindows::ERROR_TOO_MANY_SEM_REQUESTS),
            104 => Some(WinErrorWindows::ERROR_INVALID_AT_INTERRUPT_TIME),
            105 => Some(WinErrorWindows::ERROR_SEM_OWNER_DIED),
            106 => Some(WinErrorWindows::ERROR_SEM_USER_LIMIT),
            107 => Some(WinErrorWindows::ERROR_DISK_CHANGE),
            108 => Some(WinErrorWindows::ERROR_DRIVE_LOCKED),
            109 => Some(WinErrorWindows::ERROR_BROKEN_PIPE),
            110 => Some(WinErrorWindows::ERROR_OPEN_FAILED),
            111 => Some(WinErrorWindows::ERROR_BUFFER_OVERFLOW),
            112 => Some(WinErrorWindows::ERROR_DISK_FULL),
            113 => Some(WinErrorWindows::ERROR_NO_MORE_SEARCH_HANDLES),
            114 => Some(WinErrorWindows::ERROR_INVALID_TARGET_HANDLE),
            117 => Some(WinErrorWindows::ERROR_INVALID_CATEGORY),
            118 => Some(WinErrorWindows::ERROR_INVALID_VERIFY_SWITCH),
            119 => Some(WinErrorWindows::ERROR_BAD_DRIVER_LEVEL),
            120 => Some(WinErrorWindows::ERROR_CALL_NOT_IMPLEMENTED),
            121 => Some(WinErrorWindows::ERROR_SEM_TIMEOUT),
            122 => Some(WinErrorWindows::ERROR_INSUFFICIENT_BUFFER),
            123 => Some(WinErrorWindows::ERROR_INVALID_NAME),
            124 => Some(WinErrorWindows::ERROR_INVALID_LEVEL),
            125 => Some(WinErrorWindows::ERROR_NO_VOLUME_LABEL),
            126 => Some(WinErrorWindows::ERROR_MOD_NOT_FOUND),
            127 => Some(WinErrorWindows::ERROR_PROC_NOT_FOUND),
            128 => Some(WinErrorWindows::ERROR_WAIT_NO_CHILDREN),
            129 => Some(WinErrorWindows::ERROR_CHILD_NOT_COMPLETE),
            130 => Some(WinErrorWindows::ERROR_DIRECT_ACCESS_HANDLE),
            131 => Some(WinErrorWindows::ERROR_NEGATIVE_SEEK),
            _ => None,
        }
    }

    /// One slice of the symbol table.
    #[verifier::spinoff_prover]
    #[verifier::rlimit(100)]
    fn to_u32_part1(self) -> (r: Option<u32>)
        ensures
            r == self.spec_to_u32_part1(),
    {
        match self {
            WinErrorWindows::ERROR_NO_SPOOL_SPACE => Some(62),
            WinErrorWindows::ERROR_PRINT_CANCELLED => Some(63),
            WinErrorWindows::ERROR_NETNAME_DELETED => Some(64),
            WinErrorWindows::ERROR_NETWORK_ACCESS_DENIED => Some(65),
            WinErrorWindows::ERROR_BAD_DEV_TYPE => Some(66),
            WinErrorWindows::ERROR_BAD_NET_NAME => Some(67),
            WinErrorWindows::ERROR_TOO_MANY_NAMES => Some(68),
            WinErrorWindows::ERROR_TOO_MANY_SESS => Some(69),
            WinErrorWindows::ERROR_SHARING_PAUSED => Some(70),
            WinErrorWindows::ERROR_REQ_NOT_ACCEP => Some(71),
            WinErrorWindows::ERROR_REDIR_PAUSED => Some(72),
            WinErrorWindows::ERROR_FILE_EXISTS => Some(80),
            WinErrorWindows::ERROR_CANNOT_MAKE => Some(82),
            WinErrorWindows::ERROR_FAIL_I24 => Some(83),
            WinErrorWindows::ERROR_OUT_OF_STRUCTURES => Some(84),
            WinErrorWindows::ERROR_ALREADY_ASSIGNED => Some(85),
            WinErrorWindows::ERROR_INVALID_PASSWORD => Some(86),
            WinErrorWindows::ERROR_INVALID_PARAMETER => Some(87),
            WinErrorWindows::ERROR_NET_WRITE_FAULT => Some(88),
            WinErrorWindows::ERROR_NO_PROC_SLOTS => Some(89),
            WinErrorWindows::ERROR_TOO_MANY_SEMAPHORES => Some(100),
            WinErrorWindows::ERROR_EXCL_SEM_ALREADY_OWNED => Some(101),
            WinErrorWindows::ERROR_SEM_IS_SET => Some(102),
            WinErrorWindows::ERROR_TOO_MANY_SEM_REQUESTS => Some(103),
            WinErrorWindows::ERROR_INVALID_AT_INTERRUPT_TIME => Some(104),
            WinErrorWindows::ERROR_SEM_OWNER_DIED => Some(105),
            WinErrorWindows::ERROR_SEM_USER_LIMIT => Some(106),
            WinErrorWindows::ERROR_DISK_CHANGE => Some(107),
            WinErrorWindows::ERROR_DRIVE_LOCKED => Some(108),
            WinErrorWindows::ERROR_BROKEN_PIPE => Some(109),
            WinErrorWindows::ERROR_OPEN_FAILED => Some(110),
            WinErrorWindows::ERROR_BUFFER_OVERFLOW => Some(111),
            WinErrorWindows::ERROR_DISK_FULL => Some(112),
            WinErrorWindows::ERROR_NO_MORE_SEARCH_HANDLES => Some(113),
            WinErrorWindows::ERROR_INVALID_TARGET_HANDLE => Some(114),
            WinErrorWindows::ERROR_INVALID_CATEGORY => Some(117),
            WinErrorWindows::ERROR_INVALID_VERIFY_SWITCH => Some(118),
            WinErrorWindows::ERROR_BAD_DRIVER_LEVEL => Some(119),
            WinErrorWindows::ERROR_CALL_NOT_IMPLEMENTED => Some(120),
            WinErrorWindows::ERROR_SEM_TIMEOUT => Some(121),
            WinErrorWindows::ERROR_INSUFFICIENT_BUFFER => Some(122),
            WinErrorWindows::ERROR_INVALID_NAME => Some(123),
            WinErrorWindows::ERROR_INVALID_LEVEL => Some(124),
            WinErrorWindows::ERROR_NO_VOLUME_LABEL => Some(125),
            WinErrorWindows::ERROR_MOD_NOT_FOUND => Some(126),
            WinErrorWindows::ERROR_PROC_NOT_FOUND => Some(127),
            WinErrorWindows::ERROR_WAIT_NO_CHILDREN => Some(128),
            WinErrorWindows::ERROR_CHILD_NOT_COMPLETE => Some(129),
            WinErrorWindows::ERROR_DIRECT_ACCESS_HANDLE => Some(130),
            WinErrorWindows::ERROR_NEGATIVE_SEEK => Some(131),
            _ => None,
        }
    }

    /// One slice of the symbol table.
    #[verifier::spinoff_prover]
    #[verifier::rlimit(100)]
    fn from_u32_part1(raw: u32) -> (r: Option<WinErrorWindows>)
        ensures
            r == WinErrorWindows::spec_from_u32_part1(raw),
    {
        match raw {
            62 => Some(WinErrorWindows::ERROR_NO_SPOOL_SPACE),
            63 => Some(WinErrorWindows::ERROR_PRINT_CANCELLED),
            64 => Some(WinErrorWindows::ERROR_NETNAME_DELETED),
            65 => Some(WinErrorWindows::ERROR_NETWORK_ACCESS_DENIED),
            66 => Some(WinErrorWindows::ERROR_BAD_DEV_TYPE),
            67 => Some(WinErrorWindows::ERROR_BAD_NET_NAME),
            68 => Some(WinErrorWindows::ERROR_TOO_MANY_NAMES),
            69 => Some(WinErrorWindows::ERROR_TOO_MANY_SESS),
            70 => Some(WinErrorWindows::ERROR_SHARING_PAUSED),
            71 => Some(WinErrorWindows::ERROR_REQ_NOT_ACCEP),
            72 => Some(WinErrorWindows::ERROR_REDIR_PAUSED),
            80 => Some(WinErrorWindows::ERROR_FILE_EXISTS),
            82 => Some(WinErrorWindows::ERROR_CANNOT_MAKE),
            83 => Some(WinErrorWindows::ERROR_FAIL_I24),
            84 => Some(WinErrorWindows::ERROR_OUT_OF_STRUCTURES),
            85 => Some(WinErrorWindows::ERROR_ALREADY_ASSIGNED),
            86 => Some(WinErrorWindows::ERROR_INVALID_PASSWORD),
            87 => Some(WinErrorWindows::ERROR_INVALID_PARAMETER),
            88 => Some(WinErrorWindows::ERROR_NET_WRITE_FAULT),
            89 => Some(WinErrorWindows::ERROR_NO_PROC_SLOTS),
            100 => Some(WinErrorWindows::ERROR_TOO_MANY_SEMAPHORES),
            101 => Some(WinErrorWindows::ERROR_EXCL_SEM_ALREADY_OWNED),
            102 => Some(WinErrorWindows::ERROR_SEM_IS_SET),
            103 => Some(WinErrorWindows::ERROR_TOO_MANY_SEM_REQUESTS),
            104 => Some(WinErrorWindows::ERROR_INVALID_AT_INTERRUPT_TIME),
            105 => Some(WinErrorWindows::ERROR_SEM_OWNER_DIED),
            106 => Some(WinErrorWindows::ERROR_SEM_USER_LIMIT),
            107 => Some(WinErrorWindows::ERROR_DISK_CHANGE),
            108 => Some(WinErrorWindows::ERROR_DRIVE_LOCKED),
            109 => Some(WinErrorWindows::ERROR_BROKEN_PIPE),
            110 => Some(WinErrorWindows::ERROR_OPEN_FAILED),
            111 => Some(WinErrorWindows::ERROR_BUFFER_OVERFLOW),
            112 => Some(WinErrorWindows::ERROR_DISK_FULL),
            113 => Some(WinErrorWindows::ERROR_NO_MORE_SEARCH_HANDLES),
            114 => Some(WinErrorWindows::ERROR_INVALID_TARGET_HANDLE),
            117 => Some(WinErrorWindows::ERROR_INVALID_CATEGORY),
            118 => Some(WinErrorWindows::ERROR_INVALID_VERIFY_SWITCH),
            119 => Some(WinErrorWindows::ERROR_BAD_DRIVER_LEVEL),
            120 => Some(WinErrorWindows::ERROR_CALL_NOT_IMPLEMENTED),
            121 => Some(WinErrorWindows::ERROR_SEM_TIMEOUT),
            122 => Some(WinErrorWindows::ERROR_INSUFFICIENT_BUFFER),
            123 => Some(WinErrorWindows::ERROR_INVALID_NAME),
            124 => Some(WinErrorWindows::ERROR_INVALID_LEVEL),
            125 => Some(WinErrorWindows::ERROR_NO_VOLUME_LABEL),
            126 => Some(WinErrorWindows::ERROR_MOD_NOT_FOUND),
            127 => Some(WinErrorWindows::ERROR_PROC_NOT_FOUND),
            128 => Some(WinErrorWindows::ERROR_WAIT_NO_CHILDREN),
            129 => Some(WinErrorWindows::ERROR_CHILD_NOT_COMPLETE),
            130 => Some(WinErrorWindows::ERROR_DIRECT_ACCESS_HANDLE),
            131 => Some(WinErrorWindows::ERROR_NEGATIVE_SEEK),
            _ => None,
        }
    }

    /// One slice of the symbol table: the raw value of this symbol,
    /// where this slice holds it.
    pub open spec fn spec_to_u32_part2(self) -> Option<u32> {
        match self {
            WinErrorWindows::ERROR_SEEK_ON_DEVICE => Some(132),
            WinErrorWindows::ERROR_IS_JOIN_TARGET => Some(133),
            WinErrorWindows::ERROR_IS_JOINED => Some(134),
            WinErrorWindows::ERROR_IS_SUBSTED => Some(135),
            WinErrorWindows::ERROR_NOT_JOINED => Some(136),
            WinErrorWindows::ERROR_NOT_SUBSTED => Some(137),
            WinErrorWindows::ERROR_JOIN_TO_JOIN => Some(138),
            WinErrorWindows::ERROR_SUBST_TO_SUBST => Some(139),
            WinErrorWindows::ERROR_JOIN_TO_SUBST => Some(140),
            WinErrorWindows::ERROR_SUBST_TO_JOIN => Some(141),
            WinErrorWindows::ERROR_BUSY_DRIVE => Some(142),
            WinErrorWindows::ERROR_SAME_DRIVE => Some(143),
            WinErrorWindows::ERROR_DIR_NOT_ROOT => Some(144),
            WinErrorWindows::ERROR_DIR_NOT_EMPTY => Some(145),
            WinErrorWindows::ERROR_IS_SUBST_PATH => Some(146),
            WinErrorWindows::ERROR_IS_JOIN_PATH => Some(147),
            WinErrorWindows::ERROR_PATH_BUSY => Some(148),
            WinErrorWindows::ERROR_IS_SUBST_TARGET => Some(149),
            WinErrorWindows::ERROR_SYSTEM_TRACE => Some(150),
            WinErrorWindows::ERROR_INVALID_EVENT_COUNT => Some(151),
            WinErrorWindows::ERROR_TOO_MANY_MUXWAITERS => Some(152),
            WinErrorWindows::ERROR_INVALID_LIST_FORMAT => Some(153),
            WinErrorWindows::ERROR_LABEL_TOO_LONG => Some(154),
            WinErrorWindows::ERROR_TOO_MANY_TCBS => Some(155),
            WinErrorWindows::ERROR_SIGNAL_REFUSED => Some(156),
            WinErrorWindows::ERROR_DISCARDED => Some(157),
            WinErrorWindows::ERROR_NOT_LOCKED => Some(158),
            WinErrorWindows::ERROR_BAD_THREADID_ADDR => Some(159),
            WinErrorWindows::ERROR_BAD_ARGUMENTS => Some(160),
            WinErrorWindows::ERROR_BAD_PATHNAME => Some(161),
            WinErrorWindows::ERROR_SIGNAL_PENDING => Some(162),
            WinErrorWindows::ERROR_MAX_THRDS_REACHED => Some(164),
            WinErrorWindows::ERROR_LOCK_FAILED => Some(167),
            WinErrorWindows::ERROR_BUSY => Some(170),
            WinErrorWindows::ERROR_DEVICE_SUPPORT_IN_PROGRESS => Some(171),
            WinErrorWindows::ERROR_CANCEL_VIOLATION => Some(173),
            WinErrorWindows::ERROR_ATOMIC_LOCKS_NOT_SUPPORTED => Some(174),
            WinErrorWindows::ERROR_INVALID_SEGMENT_NUMBER => Some(180),
            WinErrorWindows::ERROR_INVALID_ORDINAL => Some(182),
            WinErrorWindows::ERROR_ALREADY_EXISTS => Some(183),
            WinErrorWindows::ERROR_INVALID_FLAG_NUMBER => Some(186),
            WinErrorWindows::ERROR_SEM_NOT_FOUND => Some(187),
            WinErrorWindows::ERROR_INVALID_STARTING_CODESEG => Some(188),
            WinErrorWindows::ERROR_INVALID_STACKSEG => Some(189),
            WinErrorWindows::ERROR_INVALID_MODULETYPE => Some(190),
            WinErrorWindows::ERROR_INVALID_EXE_SIGNATURE => Some(191),
            WinErrorWindows::ERROR_EXE_MARKED_INVALID => Some(192),
            WinErrorWindows::ERROR_BAD_EXE_FORMAT => Some(193),
            WinErrorWindows::ERROR_INVALID_MINALLOCSIZE => Some(195),
            WinErrorWindows::ERROR_DYNLINK_FROM_INVALID_RING => Some(196),
            _ => None,
        }
    }

    /// One slice of the symbol table: the symbol this slice gives a
    /// raw value, where it holds one.
    pub open spec fn spec_from_u32_part2(raw: u32) -> Option<WinErrorWindows> {
        match raw {
            132 => Some(WinErrorWindows::ERROR_SEEK_ON_DEVICE),
            133 => Some(WinErrorWindows::ERROR_IS_JOIN_TARGET),
            134 => Some(WinErrorWindows::ERROR_IS_JOINED),
            135 => Some(WinErrorWindows::ERROR_IS_SUBSTED),
            136 => Some(WinErrorWindows::ERROR_NOT_JOINED),
            137 => Some(WinErrorWindows::ERROR_NOT_SUBSTED),
            138 => Some(WinErrorWindows::ERROR_JOIN_TO_JOIN),
            139 => Some(WinErrorWindows::ERROR_SUBST_TO_SUBST),
            140 => Some(WinErrorWindows::ERROR_JOIN_TO_SUBST),
            141 => Some(WinErrorWindows::ERROR_SUBST_TO_JOIN),
            142 => Some(WinErrorWindows::ERROR_BUSY_DRIVE),
            143 => Some(WinErrorWindows::ERROR_SAME_DRIVE),
            144 => Some(WinErrorWindows::ERROR_DIR_NOT_ROOT),
            145 => Some(WinErrorWindows::ERROR_DIR_NOT_EMPTY),
            146 => Some(WinErrorWindows::ERROR_IS_SUBST_PATH),
            147 => Some(WinErrorWindows::ERROR_IS_JOIN_PATH),
            148 => Some(WinErrorWindows::ERROR_PATH_BUSY),
            149 => Some(WinErrorWindows::ERROR_IS_SUBST_TARGET),
            150 => Some(WinErrorWindows::ERROR_SYSTEM_TRACE),
            151 => Some(WinErrorWindows::ERROR_INVALID_EVENT_COUNT),
            152 => Some(WinErrorWindows::ERROR_TOO_MANY_MUXWAITERS),
            153 => Some(WinErrorWindows::ERROR_INVALID_LIST_FORMAT),
            154 => Some(WinErrorWindows::ERROR_LABEL_TOO_LONG),
            155 => Some(WinErrorWindows::ERROR_TOO_MANY_TCBS),
            156 => Some(WinErrorWindows::ERROR_SIGNAL_REFUSED),
            157 => Some(WinErrorWindows::ERROR_DISCARDED),
            158 => Some(WinErrorWindows::ERROR_NOT_LOCKED),
            159 => Some(WinErrorWindows::ERROR_BAD_THREADID_ADDR),
            160 => Some(WinErrorWindows::ERROR_BAD_ARGUMENTS),
            161 => Some(WinErrorWindows::ERROR_BAD_PATHNAME),
            162 => Some(WinErrorWindows::ERROR_SIGNAL_PENDING),
            164 => Some(WinErrorWindows::ERROR_MAX_THRDS_REACHED),
            167 => Some(WinErrorWindows::ERROR_LOCK_FAILED),
            170 => Some(WinErrorWindows::ERROR_BUSY),
            171 => Some(WinErrorWindows::ERROR_DEVICE_SUPPORT_IN_PROGRESS),
            173 => Some(WinErrorWindows::ERROR_CANCEL_VIOLATION),
            174 => Some(WinErrorWindows::ERROR_ATOMIC_LOCKS_NOT_SUPPORTED),
            180 => Some(WinErrorWindows::ERROR_INVALID_SEGMENT_NUMBER),
            182 => Some(WinErrorWindows::ERROR_INVALID_ORDINAL),
            183 => Some(WinErrorWindows::ERROR_ALREADY_EXISTS),
            186 => Some(WinErrorWindows::ERROR_INVALID_FLAG_NUMBER),
            187 => Some(WinErrorWindows::ERROR_SEM_NOT_FOUND),
            188 => Some(WinErrorWindows::ERROR_INVALID_STARTING_CODESEG),
            189 => Some(WinErrorWindows::ERROR_INVALID_STACKSEG),
            190 => Some(WinErrorWindows::ERROR_INVALID_MODULETYPE),
            191 => Some(WinErrorWindows::ERROR_INVALID_EXE_SIGNATURE),
            192 => Some(WinErrorWindows::ERROR_EXE_MARKED_INVALID),
            193 => Some(WinErrorWindows::ERROR_BAD_EXE_FORMAT),
            195 => Some(WinErrorWindows::ERROR_INVALID_MINALLOCSIZE),
            196 => Some(WinErrorWindows::ERROR_DYNLINK_FROM_INVALID_RING),
            _ => None,
        }
    }

    /// One slice of the symbol table.
    #[verifier::spinoff_prover]
    #[verifier::rlimit(100)]
    fn to_u32_part2(self) -> (r: Option<u32>)
        ensures
            r == self.spec_to_u32_part2(),
    {
        match self {
            WinErrorWindows::ERROR_SEEK_ON_DEVICE => Some(132),
            WinErrorWindows::ERROR_IS_JOIN_TARGET => Some(133),
            WinErrorWindows::ERROR_IS_JOINED => Some(134),
            WinErrorWindows::ERROR_IS_SUBSTED => Some(135),
            WinErrorWindows::ERROR_NOT_JOINED => Some(136),
            WinErrorWindows::ERROR_NOT_SUBSTED => Some(137),
            WinErrorWindows::ERROR_JOIN_TO_JOIN => Some(138),
            WinErrorWindows::ERROR_SUBST_TO_SUBST => Some(139),
            WinErrorWindows::ERROR_JOIN_TO_SUBST => Some(140),
            WinErrorWindows::ERROR_SUBST_TO_JOIN => Some(141),
            WinErrorWindows::ERROR_BUSY_DRIVE => Some(142),
            WinErrorWindows::ERROR_SAME_DRIVE => Some(143),
            WinErrorWindows::ERROR_DIR_NOT_ROOT => Some(144),
            WinErrorWindows::ERROR_DIR_NOT_EMPTY => Some(145),
            WinErrorWindows::ERROR_IS_SUBST_PATH => Some(146),
            WinErrorWindows::ERROR_IS_JOIN_PATH => Some(147),
            WinErrorWindows::ERROR_PATH_BUSY => Some(148),
            WinErrorWindows::ERROR_IS_SUBST_TARGET => Some(149),
            WinErrorWindows::ERROR_SYSTEM_TRACE => Some(150),
            WinErrorWindows::ERROR_INVALID_EVENT_COUNT => Some(151),
            WinErrorWindows::ERROR_TOO_MANY_MUXWAITERS => Some(152),
            WinErrorWindows::ERROR_INVALID_LIST_FORMAT => Some(153),
            WinErrorWindows::ERROR_LABEL_TOO_LONG => Some(154),
            WinErrorWindows::ERROR_TOO_MANY_TCBS => Some(155),
            WinErrorWindows::ERROR_SIGNAL_REFUSED => Some(156),
            WinErrorWindows::ERROR_DISCARDED => Some(157),
            WinErrorWindows::ERROR_NOT_LOCKED => Some(158),
            WinErrorWindows::ERROR_BAD_THREADID_ADDR => Some(159),
            WinErrorWindows::ERROR_BAD_ARGUMENTS => Some(160),
            WinErrorWindows::ERROR_BAD_PATHNAME => Some(161),
            WinErrorWindows::ERROR_SIGNAL_PENDING => Some(162),
            WinErrorWindows::ERROR_MAX_THRDS_REACHED => Some(164),
            WinErrorWindows::ERROR_LOCK_FAILED => Some(167),
            WinErrorWindows::ERROR_BUSY => Some(170),
            WinErrorWindows::ERROR_DEVICE_SUPPORT_IN_PROGRESS => Some(171),
            WinErrorWindows::ERROR_CANCEL_VIOLATION => Some(173),
            WinErrorWindows::ERROR_ATOMIC_LOCKS_NOT_SUPPORTED => Some(174),
            WinErrorWindows::ERROR_INVALID_SEGMENT_NUMBER => Some(180),
            WinErrorWindows::ERROR_INVALID_ORDINAL => Some(182),
            WinErrorWindows::ERROR_ALREADY_EXISTS => Some(183),
            WinErrorWindows::ERROR_INVALID_FLAG_NUMBER => Some(186),
            WinErrorWindows::ERROR_SEM_NOT_FOUND => Some(187),
            WinErrorWindows::ERROR_INVALID_STARTING_CODESEG => Some(188),
            WinErrorWindows::ERROR_INVALID_STACKSEG => Some(189),
            WinErrorWindows::ERROR_INVALID_MODULETYPE => Some(190),
            WinErrorWindows::ERROR_INVALID_EXE_SIGNATURE => Some(191),
            WinErrorWindows::ERROR_EXE_MARKED_INVALID => Some(192),
            WinErrorWindows::ERROR_BAD_EXE_FORMAT => Some(193),
            WinErrorWindows::ERROR_INVALID_MINALLOCSIZE => Some(195),
            WinErrorWindows::ERROR_DYNLINK_FROM_INVALID_RING => Some(196),
            _ => None,
        }
    }

    /// One slice of the symbol table.
    #[verifier::spinoff_prover]
    #[verifier::rlimit(100)]
    fn from_u32_part2(raw: u32) -> (r: Option<WinErrorWindows>)
        ensures
            r == WinErrorWindows::spec_from_u32_part2(raw),
    {
        match raw {
            132 => Some(WinErrorWindows::ERROR_SEEK_ON_DEVICE),
            133 => Some(WinErrorWindows::ERROR_IS_JOIN_TARGET),
            134 => Some(WinErrorWindows::ERROR_IS_JOINED),
            135 => Some(WinErrorWindows::ERROR_IS_SUBSTED),
            136 => Some(WinErrorWindows::ERROR_NOT_JOINED),
            137 => Some(WinErrorWindows::ERROR_NOT_SUBSTED),
            138 => Some(WinErrorWindows::ERROR_JOIN_TO_JOIN),
            139 => Some(WinErrorWindows::ERROR_SUBST_TO_SUBST),
            140 => Some(WinErrorWindows::ERROR_JOIN_TO_SUBST),
            141 => Some(WinErrorWindows::ERROR_SUBST_TO_JOIN),
            142 => Some(WinErrorWindows::ERROR_BUSY_DRIVE),
            143 => Some(WinErrorWindows::ERROR_SAME_DRIVE),
            144 => Some(WinErrorWindows::ERROR_DIR_NOT_ROOT),
            145 => Some(WinErrorWindows::ERROR_DIR_NOT_EMPTY),
            146 => Some(WinErrorWindows::ERROR_IS_SUBST_PATH),
            147 => Some(WinErrorWindows::ERROR_IS_JOIN_PATH),
            148 => Some(WinErrorWindows::ERROR_PATH_BUSY),
            149 => Some(WinErrorWindows::ERROR_IS_SUBST_TARGET),
            150 => Some(WinErrorWindows::ERROR_SYSTEM_TRACE),
            151 => Some(WinErrorWindows::ERROR_INVALID_EVENT_COUNT),
            152 => Some(WinErrorWindows::ERROR_TOO_MANY_MUXWAITERS),
            153 => Some(WinErrorWindows::ERROR_INVALID_LIST_FORMAT),
            154 => Some(WinErrorWindows::ERROR_LABEL_TOO_LONG),
            155 => Some(WinErrorWindows::ERROR_TOO_MANY_TCBS),
            156 => Some(WinErrorWindows::ERROR_SIGNAL_REFUSED),
            157 => Some(WinErrorWindows::ERROR_DISCARDED),
            158 => Some(WinErrorWindows::ERROR_NOT_LOCKED),
            159 => Some(WinErrorWindows::ERROR_BAD_THREADID_ADDR),
            160 => Some(WinErrorWindows::ERROR_BAD_ARGUMENTS),
            161 => Some(WinErrorWindows::ERROR_BAD_PATHNAME),
            162 => Some(WinErrorWindows::ERROR_SIGNAL_PENDING),
            164 => Some(WinErrorWindows::ERROR_MAX_THRDS_REACHED),
            167 => Some(WinErrorWindows::ERROR_LOCK_FAILED),
            170 => Some(WinErrorWindows::ERROR_BUSY),
            171 => Some(WinErrorWindows::ERROR_DEVICE_SUPPORT_IN_PROGRESS),
            173 => Some(WinErrorWindows::ERROR_CANCEL_VIOLATION),
            174 => Some(WinErrorWindows::ERROR_ATOMIC_LOCKS_NOT_SUPPORTED),
            180 => Some(WinErrorWindows::ERROR_INVALID_SEGMENT_NUMBER),
            182 => Some(WinErrorWindows::ERROR_INVALID_ORDINAL),
            183 => Some(WinErrorWindows::ERROR_ALREADY_EXISTS),
            186 => Some(WinErrorWindows::ERROR_INVALID_FLAG_NUMBER),
            187 => Some(WinErrorWindows::ERROR_SEM_NOT_FOUND),
            188 => Some(WinErrorWindows::ERROR_INVALID_STARTING_CODESEG),
            189 => Some(WinErrorWindows::ERROR_INVALID_STACKSEG),
            190 => Some(WinErrorWindows::ERROR_INVALID_MODULETYPE),
            191 => Some(WinErrorWindows::ERROR_INVALID_EXE_SIGNATURE),
            192 => Some(WinErrorWindows::ERROR_EXE_MARKED_INVALID),
            193 => Some(WinErrorWindows::ERROR_BAD_EXE_FORMAT),
            195 => Some(WinErrorWindows::ERROR_INVALID_MINALLOCSIZE),
            196 => Some(WinErrorWindows::ERROR_DYNLINK_FROM_INVALID_RING),
            _ => None,
        }
    }

    /// One slice of the symbol table: the raw value of this symbol,
    /// where this slice holds it.
    pub open spec fn spec_to_u32_part3(self) -> Option<u32> {
        match self {
            WinErrorWindows::ERROR_IOPL_NOT_ENABLED => Some(197),
            WinErrorWindows::ERROR_INVALID_SEGDPL => Some(198),
            WinErrorWindows::ERROR_RING2SEG_MUST_BE_MOVABLE => Some(200),
            WinErrorWindows::ERROR_RELOC_CHAIN_XEEDS_SEGLIM => Some(201),
            WinErrorWindows::ERROR_INFLOOP_IN_RELOC_CHAIN => Some(202),
            WinErrorWindows::ERROR_ENVVAR_NOT_FOUND => Some(203),
            WinErrorWindows::ERROR_NO_SIGNAL_SENT => Some(205),
            WinErrorWindows::ERROR_FILENAME_EXCED_RANGE => Some(206),
            WinErrorWindows::ERROR_RING2_STACK_IN_USE => Some(207),
            WinErrorWindows::ERROR_META_EXPANSION_TOO_LONG => Some(208),
            WinErrorWindows::ERROR_INVALID_SIGNAL_NUMBER => Some(209),
            WinErrorWindows::ERROR_THREAD_1_INACTIVE => Some(210),
            WinErrorWindows::ERROR_LOCKED => Some(212),
            WinErrorWindows::ERROR_TOO_MANY_MODULES => Some(214),
            WinErrorWindows::ERROR_NESTING_NOT_ALLOWED => Some(215),
            WinErrorWindows::ERROR_EXE_MACHINE_TYPE_MISMATCH => Some(216),
            WinErrorWindows::ERROR_EXE_CANNOT_MODIFY_SIGNED_BINARY => Some(217),
            WinErrorWindows::ERROR_EXE_CANNOT_MODIFY_STRONG_SIGNED_BINARY => Some(218),
            WinErrorWindows::ERROR_FILE_CHECKED_OUT => Some(220),
            WinErrorWindows::ERROR_CHECKOUT_REQUIRED => Some(221),
            WinErrorWindows::ERROR_BAD_FILE_TYPE => Some(222),
            WinErrorWindows::ERROR_FILE_TOO_LARGE => Some(223),
            WinErrorWindows::ERROR_FORMS_AUTH_REQUIRED => Some(224),
            WinErrorWindows::ERROR_VIRUS_INFECTED => Some(225),
            WinErrorWindows::ERROR_VIRUS_DELETED => Some(226),
            WinErrorWindows::ERROR_PIPE_LOCAL => Some(229),
            WinErrorWindows::ERROR_BAD_PIPE => Some(230),
            WinErrorWindows::ERROR_PIPE_BUSY => Some(231),
            WinErrorWindows::ERROR_NO_DATA => Some(232),
            WinErrorWindows::ERROR_PIPE_NOT_CONNECTED => Some(233),
            WinErrorWindows::ERROR_MORE_DATA => Some(234),
            WinErrorWindows::ERROR_NO_WORK_DONE => Some(235),
            WinErrorWindows::ERROR_VC_DISCONNECTED => Some(240),
            WinErrorWindows::ERROR_INVALID_EA_NAME => Some(254),
            WinErrorWindows::ERROR_EA_LIST_INCONSISTENT => Some(255),
            WinErrorWindows::ERROR_NO_MORE_ITEMS => Some(259),
            WinErrorWindows::ERROR_CANNOT_COPY => Some(266),
            WinErrorWindows::ERROR_DIRECTORY => Some(267),
            WinErrorWindows::ERROR_EAS_DIDNT_FIT => Some(275),
            WinErrorWindows::ERROR_EA_FILE_CORRUPT => Some(276),
            WinErrorWindows::ERROR_EA_TABLE_FULL => Some(277),
            WinErrorWindows::ERROR_INVALID_EA_HANDLE => Some(278),
            WinErrorWindows::ERROR_EAS_NOT_SUPPORTED => Some(282),
            WinErrorWindows::ERROR_NOT_OWNER => Some(288),
            WinErrorWindows::ERROR_TOO_MANY_POSTS => Some(298),
            WinErrorWindows::ERROR_PARTIAL_COPY => Some(299),
            WinErrorWindows::ERROR_OPLOCK_NOT_GRANTED => Some(300),
            WinErrorWindows::ERROR_INVALID_OPLOCK_PROTOCOL => Some(301),
            WinErrorWindows::ERROR_DISK_TOO_FRAGMENTED => Some(302),
            WinErrorWindows::ERROR_DELETE_PENDING => Some(303),
            _ => None,
        }
    }

    /// One slice of the symbol table: the symbol this slice gives a
    /// raw value, where it holds one.
    pub open spec fn spec_from_u32_part3(raw: u32) -> Option<WinErrorWindows> {
        match raw {
            197 => Some(WinErrorWindows::ERROR_IOPL_NOT_ENABLED),
            198 => Some(WinErrorWindows::ERROR_INVALID_SEGDPL),
            200 => Some(WinErrorWindows::ERROR_RING2SEG_MUST_BE_MOVABLE),
            201 => Some(WinErrorWindows::ERROR_RELOC_CHAIN_XEEDS_SEGLIM),
            202 => Some(WinErrorWindows::ERROR_INFLOOP_IN_RELOC_CHAIN),
            203 => Some(WinErrorWindows::ERROR_ENVVAR_NOT_FOUND),
            205 => Some(WinErrorWindows::ERROR_NO_SIGNAL_SENT),
            206 => Some(WinErrorWindows::ERROR_FILENAME_EXCED_RANGE),
            207 => Some(WinErrorWindows::ERROR_RING2_STACK_IN_USE),
            208 => Some(WinErrorWindows::ERROR_META_EXPANSION_TOO_LONG),
            209 => Some(WinErrorWindows::ERROR_INVALID_SIGNAL_NUMBER),
            210 => Some(WinErrorWindows::ERROR_THREAD_1_INACTIVE),
            212 => Some(WinErrorWindows::ERROR_LOCKED),
            214 => Some(WinErrorWindows::ERROR_TOO_MANY_MODULES),
            215 => Some(WinErrorWindows::ERROR_NESTING_NOT_ALLOWED),
            216 => Some(WinErrorWindows::ERROR_EXE_MACHINE_TYPE_MISMATCH),
            217 => Some(WinErrorWindows::ERROR_EXE_CANNOT_MODIFY_SIGNED_BINARY),
            218 => Some(WinErrorWindows::ERROR_EXE_CANNOT_MODIFY_STRONG_SIGNED_BINARY),
            220 => Some(WinErrorWindows::ERROR_FILE_CHECKED_OUT),
            221 => Some(WinErrorWindows::ERROR_CHECKOUT_REQUIRED),
            222 => Some(WinErrorWindows::ERROR_BAD_FILE_TYPE),
            223 => Some(WinErrorWindows::ERROR_FILE_TOO_LARGE),
            224 => Some(WinErrorWindows::ERROR_FORMS_AUTH_REQUIRED),
            225 => Some(WinErrorWindows::ERROR_VIRUS_INFECTED),
            226 => Some(WinErrorWindows::ERROR_VIRUS_DELETED),
            229 => Some(WinErrorWindows::ERROR_PIPE_LOCAL),
            230 => Some(WinErrorWindows::ERROR_BAD_PIPE),
            231 => Some(WinErrorWindows::ERROR_PIPE_BUSY),
            232 => Some(WinErrorWindows::ERROR_NO_DATA),
            233 => Some(WinErrorWindows::ERROR_PIPE_NOT_CONNECTED),
            234 => Some(WinErrorWindows::ERROR_MORE_DATA),
            235 => Some(WinErrorWindows::ERROR_NO_WORK_DONE),
            240 => Some(WinErrorWindows::ERROR_VC_DISCONNECTED),
            254 => Some(WinErrorWindows::ERROR_INVALID_EA_NAME),
            255 => Some(WinErrorWindows::ERROR_EA_LIST_INCONSISTENT),
            259 => Some(WinErrorWindows::ERROR_NO_MORE_ITEMS),
            266 => Some(WinErrorWindows::ERROR_CANNOT_COPY),
            267 => Some(WinErrorWindows::ERROR_DIRECTORY),
            275 => Some(WinErrorWindows::ERROR_EAS_DIDNT_FIT),
            276 => Some(WinErrorWindows::ERROR_EA_FILE_CORRUPT),
            277 => Some(WinErrorWindows::ERROR_EA_TABLE_FULL),
            278 => Some(WinErrorWindows::ERROR_INVALID_EA_HANDLE),
            282 => Some(WinErrorWindows::ERROR_EAS_NOT_SUPPORTED),
            288 => Some(WinErrorWindows::ERROR_NOT_OWNER),
            298 => Some(WinErrorWindows::ERROR_TOO_MANY_POSTS),
            299 => Some(WinErrorWindows::ERROR_PARTIAL_COPY),
            300 => Some(WinErrorWindows::ERROR_OPLOCK_NOT_GRANTED),
            301 => Some(WinErrorWindows::ERROR_INVALID_OPLOCK_PROTOCOL),
            302 => Some(WinErrorWindows::ERROR_DISK_TOO_FRAGMENTED),
            303 => Some(WinErrorWindows::ERROR_DELETE_PENDING),
            _ => None,
        }
    }

    /// One slice of the symbol table.
    #[verifier::spinoff_prover]
    #[verifier::rlimit(100)]
    fn to_u32_part3(self) -> (r: Option<u32>)
        ensures
            r == self.spec_to_u32_part3(),
    {
        match self {
            WinErrorWindows::ERROR_IOPL_NOT_ENABLED => Some(197),
            WinErrorWindows::ERROR_INVALID_SEGDPL => Some(198),
            WinErrorWindows::ERROR_RING2SEG_MUST_BE_MOVABLE => Some(200),
            WinErrorWindows::ERROR_RELOC_CHAIN_XEEDS_SEGLIM => Some(201),
            WinErrorWindows::ERROR_INFLOOP_IN_RELOC_CHAIN => Some(202),
            WinErrorWindows::ERROR_ENVVAR_NOT_FOUND => Some(203),
            WinErrorWindows::ERROR_NO_SIGNAL_SENT => Some(205),
            WinErrorWindows::ERROR_FILENAME_EXCED_RANGE => Some(206),
            WinErrorWindows::ERROR_RING2_STACK_IN_USE => Some(207),
            WinErrorWindows::ERROR_META_EXPANSION_TOO_LONG => Some(208),
            WinErrorWindows::ERROR_INVALID_SIGNAL_NUMBER => Some(209),
            WinErrorWindows::ERROR_THREAD_1_INACTIVE => Some(210),
            WinErrorWindows::ERROR_LOCKED => Some(212),
            WinErrorWindows::ERROR_TOO_MANY_MODULES => Some(214),
            WinErrorWindows::ERROR_NESTING_NOT_ALLOWED => Some(215),
            WinErrorWindows::ERROR_EXE_MACHINE_TYPE_MISMATCH => Some(216),
            WinErrorWindows::ERROR_EXE_CANNOT_MODIFY_SIGNED_BINARY => Some(217),
            WinErrorWindows::ERROR_EXE_CANNOT_MODIFY_STRONG_SIGNED_BINARY => Some(218),
            WinErrorWindows::ERROR_FILE_CHECKED_OUT => Some(220),
            WinErrorWindows::ERROR_CHECKOUT_REQUIRED => Some(221),
            WinErrorWindows::ERROR_BAD_FILE_TYPE => Some(222),
            WinErrorWindows::ERROR_FILE_TOO_LARGE => Some(223),
            WinErrorWindows::ERROR_FORMS_AUTH_REQUIRED => Some(224),
            WinErrorWindows::ERROR_VIRUS_INFECTED => Some(225),
            WinErrorWindows::ERROR_VIRUS_DELETED => Some(226),
            WinErrorWindows::ERROR_PIPE_LOCAL => Some(229),
            WinErrorWindows::ERROR_BAD_PIPE => Some(230),
            WinErrorWindows::ERROR_PIPE_BUSY => Some(231),
            WinErrorWindows::ERROR_NO_DATA => Some(232),
            WinErrorWindows::ERROR_PIPE_NOT_CONNECTED => Some(233),
            WinErrorWindows::ERROR_MORE_DATA => Some(234),
            WinErrorWindows::ERROR_NO_WORK_DONE => Some(235),
            WinErrorWindows::ERROR_VC_DISCONNECTED => Some(240),
            WinErrorWindows::ERROR_INVALID_EA_NAME => Some(254),
            WinErrorWindows::ERROR_EA_LIST_INCONSISTENT => Some(255),
            WinErrorWindows::ERROR_NO_MORE_ITEMS => Some(259),
            WinErrorWindows::ERROR_CANNOT_COPY => Some(266),
            WinErrorWindows::ERROR_DIRECTORY => Some(267),
            WinErrorWindows::ERROR_EAS_DIDNT_FIT => Some(275),
            WinErrorWindows::ERROR_EA_FILE_CORRUPT => Some(276),
            WinErrorWindows::ERROR_EA_TABLE_FULL => Some(277),
            WinErrorWindows::ERROR_INVALID_EA_HANDLE => Some(278),
            WinErrorWindows::ERROR_EAS_NOT_SUPPORTED => Some(282),
            WinErrorWindows::ERROR_NOT_OWNER => Some(288),
            WinErrorWindows::ERROR_TOO_MANY_POSTS => Some(298),
            WinErrorWindows::ERROR_PARTIAL_COPY => Some(299),
            WinErrorWindows::ERROR_OPLOCK_NOT_GRANTED => Some(300),
            WinErrorWindows::ERROR_INVALID_OPLOCK_PROTOCOL => Some(301),
            WinErrorWindows::ERROR_DISK_TOO_FRAGMENTED => Some(302),
            WinErrorWindows::ERROR_DELETE_PENDING => Some(303),
            _ => None,
        }
    }

    /// One slice of the symbol table.
    #[verifier::spinoff_prover]
    #[verifier::rlimit(100)]
    fn from_u32_part3(raw: u32) -> (r: Option<WinErrorWindows>)
        ensures
            r == WinErrorWindows::spec_from_u32_part3(raw),
    {
        match raw {
            197 => Some(WinErrorWindows::ERROR_IOPL_NOT_ENABLED),
            198 => Some(WinErrorWindows::ERROR_INVALID_SEGDPL),
            200 => Some(WinErrorWindows::ERROR_RING2SEG_MUST_BE_MOVABLE),
            201 => Some(WinErrorWindows::ERROR_RELOC_CHAIN_XEEDS_SEGLIM),
            202 => Some(WinErrorWindows::ERROR_INFLOOP_IN_RELOC_CHAIN),
            203 => Some(WinErrorWindows::ERROR_ENVVAR_NOT_FOUND),
            205 => Some(WinErrorWindows::ERROR_NO_SIGNAL_SENT),
            206 => Some(WinErrorWindows::ERROR_FILENAME_EXCED_RANGE),
            207 => Some(WinErrorWindows::ERROR_RING2_STACK_IN_USE),
            208 => Some(WinErrorWindows::ERROR_META_EXPANSION_TOO_LONG),
            209 => Some(WinErrorWindows::ERROR_INVALID_SIGNAL_NUMBER),
            210 => Some(WinErrorWindows::ERROR_THREAD_1_INACTIVE),
            212 => Some(WinErrorWindows::ERROR_LOCKED),
            214 => Some(WinErrorWindows::ERROR_TOO_MANY_MODULES),
            215 => Some(WinErrorWindows::ERROR_NESTING_NOT_ALLOWED),
            216 => Some(WinErrorWindows::ERROR_EXE_MACHINE_TYPE_MISMATCH),
            217 => Some(WinErrorWindows::ERROR_EXE_CANNOT_MODIFY_SIGNED_BINARY),
            218 => Some(WinErrorWindows::ERROR_EXE_CANNOT_MODIFY_STRONG_SIGNED_BINARY),
            220 => Some(WinErrorWindows::ERROR_FILE_CHECKED_OUT),
            221 => Some(WinErrorWindows::ERROR_CHECKOUT_REQUIRED),
            222 => Some(WinErrorWindows::ERROR_BAD_FILE_TYPE),
            223 => Some(WinErrorWindows::ERROR_FILE_TOO_LARGE),
            224 => Some(WinErrorWindows::ERROR_FORMS_AUTH_REQUIRED),
            225 => Some(WinErrorWindows::ERROR_VIRUS_INFECTED),
            226 => Some(WinErrorWindows::ERROR_VIRUS_DELETED),
            229 => Some(WinErrorWindows::ERROR_PIPE_LOCAL),
            230 => Some(WinErrorWindows::ERROR_BAD_PIPE),
            231 => Some(WinErrorWindows::ERROR_PIPE_BUSY),
            232 => Some(WinErrorWindows::ERROR_NO_DATA),
            233 => Some(WinErrorWindows::ERROR_PIPE_NOT_CONNECTED),
            234 => Some(WinErrorWindows::ERROR_MORE_DATA),
            235 => Some(WinErrorWindows::ERROR_NO_WORK_DONE),
            240 => Some(WinErrorWindows::ERROR_VC_DISCONNECTED),
            254 => Some(WinErrorWindows::ERROR_INVALID_EA_NAME),
            255 => Some(WinErrorWindows::ERROR_EA_LIST_INCONSISTENT),
            259 => Some(WinErrorWindows::ERROR_NO_MORE_ITEMS),
            266 => Some(WinErrorWindows::ERROR_CANNOT_COPY),
            267 => Some(WinErrorWindows::ERROR_DIRECTORY),
            275 => Some(WinErrorWindows::ERROR_EAS_DIDNT_FIT),
            276 => Some(WinErrorWindows::ERROR_EA_FILE_CORRUPT),
            277 => Some(WinErrorWindows::ERROR_EA_TABLE_FULL),
            278 => Some(WinErrorWindows::ERROR_INVALID_EA_HANDLE),
            282 => Some(WinErrorWindows::ERROR_EAS_NOT_SUPPORTED),
            288 => Some(WinErrorWindows::ERROR_NOT_OWNER),
            298 => Some(WinErrorWindows::ERROR_TOO_MANY_POSTS),
            299 => Some(WinErrorWindows::ERROR_PARTIAL_COPY),
            300 => Some(WinErrorWindows::ERROR_OPLOCK_NOT_GRANTED),
            301 => Some(WinErrorWindows::ERROR_INVALID_OPLOCK_PROTOCOL),
            302 => Some(WinErrorWindows::ERROR_DISK_TOO_FRAGMENTED),
            303 => Some(WinErrorWindows::ERROR_DELETE_PENDING),
            _ => None,
        }
    }

    /// One slice of the symbol table: the raw value of this symbol,
    /// where this slice holds it.
    pub open spec fn spec_to_u32_part4(self) -> Option<u32> {
        match self {
            WinErrorWindows::ERROR_INCOMPATIBLE_WITH_GLOBAL_SHORT_NAME_REGISTRY_SETTING => Some(304),
            WinErrorWindows::ERROR_SHORT_NAMES_NOT_ENABLED_ON_VOLUME => Some(305),
            WinErrorWindows::ERROR_SECURITY_STREAM_IS_INCONSISTENT => Some(306),
            WinErrorWindows::ERROR_INVALID_LOCK_RANGE => Some(307),
            WinErrorWindows::ERROR_IMAGE_SUBSYSTEM_NOT_PRESENT => Some(308),
            WinErrorWindows::ERROR_NOTIFICATION_GUID_ALREADY_DEFINED => Some(309),
            WinErrorWindows::ERROR_INVALID_EXCEPTION_HANDLER => Some(310),
            WinErrorWindows::ERROR_DUPLICATE_PRIVILEGES => Some(311),
            WinErrorWindows::ERROR_NO_RANGES_PROCESSED => Some(312),
            WinErrorWindows::ERROR_NOT_ALLOWED_ON_SYSTEM_FILE => Some(313),
            WinErrorWindows::ERROR_DISK_RESOURCES_EXHAUSTED => Some(314),
            WinErrorWindows::ERROR_INVALID_TOKEN => Some(315),
            WinErrorWindows::ERROR_DEVICE_FEATURE_NOT_SUPPORTED => Some(316),
            WinErrorWindows::ERROR_MR_MID_NOT_FOUND => Some(317),
            WinErrorWindows::ERROR_SCOPE_NOT_FOUND => Some(318),
            WinErrorWindows::ERROR_UNDEFINED_SCOPE => Some(319),
            WinErrorWindows::ERROR_INVALID_CAP => Some(320),
            WinErrorWindows::ERROR_DEVICE_UNREACHABLE => Some(321),
            WinErrorWindows::ERROR_DEVICE_NO_RESOURCES => Some(322),
            WinErrorWindows::ERROR_DATA_CHECKSUM_ERROR => Some(323),
            WinErrorWindows::ERROR_INTERMIXED_KERNEL_EA_OPERATION => Some(324),
            WinErrorWindows::ERROR_FILE_LEVEL_TRIM_NOT_SUPPORTED => Some(326),
            WinErrorWindows::ERROR_OFFSET_ALIGNMENT_VIOLATION => Some(327),
            WinErrorWindows::ERROR_INVALID_FIELD_IN_PARAMETER_LIST => Some(328),
            WinErrorWindows::ERROR_OPERATION_IN_PROGRESS => Some(329),
            WinErrorWindows::ERROR_BAD_DEVICE_PATH => Some(330),
            WinErrorWindows::ERROR_TOO_MANY_DESCRIPTORS => Some(331),
            WinErrorWindows::ERROR_SCRUB_DATA_DISABLED => Some(332),
            WinErrorWindows::ERROR_NOT_REDUNDANT_STORAGE => Some(333),
            WinErrorWindows::ERROR_RESIDENT_FILE_NOT_SUPPORTED => Some(334),
            WinErrorWindows::ERROR_COMPRESSED_FILE_NOT_SUPPORTED => Some(335),
            WinErrorWindows::ERROR_DIRECTORY_NOT_SUPPORTED => Some(336),
            WinErrorWindows::ERROR_NOT_READ_FROM_COPY => Some(337),
            WinErrorWindows::ERROR_FT_WRITE_FAILURE => Some(338),
            WinErrorWindows::ERROR_FT_DI_SCAN_REQUIRED => Some(339),
            WinErrorWindows::ERROR_INVALID_KERNEL_INFO_VERSION => Some(340),
            WinErrorWindows::ERROR_INVALID_PEP_INFO_VERSION => Some(341),
            WinErrorWindows::ERROR_OBJECT_NOT_EXTERNALLY_BACKED => Some(342),
            WinErrorWindows::ERROR_EXTERNAL_BACKING_PROVIDER_UNKNOWN => Some(343),
            WinErrorWindows::ERROR_COMPRESSION_NOT_BENEFICIAL => Some(344),
            WinErrorWindows::ERROR_STORAGE_TOPOLOGY_ID_MISMATCH => Some(345),
            WinErrorWindows::ERROR_BLOCKED_BY_PARENTAL_CONTROLS => Some(346),
            WinErrorWindows::ERROR_BLOCK_TOO_MANY_REFERENCES => Some(347),
            WinErrorWindows::ERROR_MARKED_TO_DISALLOW_WRITES => Some(348),
            WinErrorWindows::ERROR_ENCLAVE_FAILURE => Some(349),
            WinErrorWindows::ERROR_FAIL_NOACTION_REBOOT => Some(350),
            WinErrorWindows::ERROR_FAIL_SHUTDOWN => Some(351),
            WinErrorWindows::ERROR_FAIL_RESTART => Some(352),
            WinErrorWindows::ERROR_MAX_SESSIONS_REACHED => Some(353),
            WinErrorWindows::ERROR_NETWORK_ACCESS_DENIED_EDP => Some(354),
            _ => None,
        }
    }

    /// One slice of the symbol table: the symbol this slice gives a
    /// raw value, where it holds one.
    pub open spec fn spec_from_u32_part4(raw: u32) -> Option<WinErrorWindows> {
        match raw {
            304 => Some(WinErrorWindows::ERROR_INCOMPATIBLE_WITH_GLOBAL_SHORT_NAME_REGISTRY_SETTING),
            305 => Some(WinErrorWindows::ERROR_SHORT_NAMES_NOT_ENABLED_ON_VOLUME),
            306 => Some(WinErrorWindows::ERROR_SECURITY_STREAM_IS_INCONSISTENT),
            307 => Some(WinErrorWindows::ERROR_INVALID_LOCK_RANGE),
            308 => Some(WinErrorWindows::ERROR_IMAGE_SUBSYSTEM_NOT_PRESENT),
            309 => Some(WinErrorWindows::ERROR_NOTIFICATION_GUID_ALREADY_DEFINED),
            310 => Some(WinErrorWindows::ERROR_INVALID_EXCEPTION_HANDLER),
            311 => Some(WinErrorWindows::ERROR_DUPLICATE_PRIVILEGES),
            312 => Some(WinErrorWindows::ERROR_NO_RANGES_PROCESSED),
            313 => Some(WinErrorWindows::ERROR_NOT_ALLOWED_ON_SYSTEM_FILE),
            314 => Some(WinErrorWindows::ERROR_DISK_RESOURCES_EXHAUSTED),
            315 => Some(WinErrorWindows::ERROR_INVALID_TOKEN),
            316 => Some(WinErrorWindows::ERROR_DEVICE_FEATURE_NOT_SUPPORTED),
            317 => Some(WinErrorWindows::ERROR_MR_MID_NOT_FOUND),
            318 => Some(WinErrorWindows::ERROR_SCOPE_NOT_FOUND),
            319 => Some(WinErrorWindows::ERROR_UNDEFINED_SCOPE),
            320 => Some(WinErrorWindows::ERROR_INVALID_CAP),
            321 => Some(WinErrorWindows::ERROR_DEVICE_UNREACHABLE),
            322 => Some(WinErrorWindows::ERROR_DEVICE_NO_RESOURCES),
            323 => Some(WinErrorWindows::ERROR_DATA_CHECKSUM_ERROR),
            324 => Some(WinErrorWindows::ERROR_INTERMIXED_KERNEL_EA_OPERATION),
            326 => Some(WinErrorWindows::ERROR_FILE_LEVEL_TRIM_NOT_SUPPORTED),
            327 => Some(WinErrorWindows::ERROR_OFFSET_ALIGNMENT_VIOLATION),
            328 => Some(WinErrorWindows::ERROR_INVALID_FIELD_IN_PARAMETER_LIST),
            329 => Some(WinErrorWindows::ERROR_OPERATION_IN_PROGRESS),
            330 => Some(WinErrorWindows::ERROR_BAD_DEVICE_PATH),
            331 => Some(WinErrorWindows::ERROR_TOO_MANY_DESCRIPTORS),
            332 => Some(WinErrorWindows::ERROR_SCRUB_DATA_DISABLED),
            333 => Some(WinErrorWindows::ERROR_NOT_REDUNDANT_STORAGE),
            334 => Some(WinErrorWindows::ERROR_RESIDENT_FILE_NOT_SUPPORTED),
            335 => Some(WinErrorWindows::ERROR_COMPRESSED_FILE_NOT_SUPPORTED),
            336 => Some(WinErrorWindows::ERROR_DIRECTORY_NOT_SUPPORTED),
            337 => Some(WinErrorWindows::ERROR_NOT_READ_FROM_COPY),
            338 => Some(WinErrorWindows::ERROR_FT_WRITE_FAILURE),
            339 => Some(WinErrorWindows::ERROR_FT_DI_SCAN_REQUIRED),
            340 => Some(WinErrorWindows::ERROR_INVALID_KERNEL_INFO_VERSION),
            341 => Some(WinErrorWindows::ERROR_INVALID_PEP_INFO_VERSION),
            342 => Some(WinErrorWindows::ERROR_OBJECT_NOT_EXTERNALLY_BACKED),
            343 => Some(WinErrorWindows::ERROR_EXTERNAL_BACKING_PROVIDER_UNKNOWN),
            344 => Some(WinErrorWindows::ERROR_COMPRESSION_NOT_BENEFICIAL),
            345 => Some(WinErrorWindows::ERROR_STORAGE_TOPOLOGY_ID_MISMATCH),
            346 => Some(WinErrorWindows::ERROR_BLOCKED_BY_PARENTAL_CONTROLS),
            347 => Some(WinErrorWindows::ERROR_BLOCK_TOO_MANY_REFERENCES),
            348 => Some(WinErrorWindows::ERROR_MARKED_TO_DISALLOW_WRITES),
            349 => Some(WinErrorWindows::ERROR_ENCLAVE_FAILURE),
            350 => Some(WinErrorWindows::ERROR_FAIL_NOACTION_REBOOT),
            351 => Some(WinErrorWindows::ERROR_FAIL_SHUTDOWN),
            352 => Some(WinErrorWindows::ERROR_FAIL_RESTART),
            353 => Some(WinErrorWindows::ERROR_MAX_SESSIONS_REACHED),
            354 => Some(WinErrorWindows::ERROR_NETWORK_ACCESS_DENIED_EDP),
            _ => None,
        }
    }

    /// One slice of the symbol table.
    #[verifier::spinoff_prover]
    #[verifier::rlimit(100)]
    fn to_u32_part4(self) -> (r: Option<u32>)
        ensures
            r == self.spec_to_u32_part4(),
    {
        match self {
            WinErrorWindows::ERROR_INCOMPATIBLE_WITH_GLOBAL_SHORT_NAME_REGISTRY_SETTING => Some(304),
            WinErrorWindows::ERROR_SHORT_NAMES_NOT_ENABLED_ON_VOLUME => Some(305),
            WinErrorWindows::ERROR_SECURITY_STREAM_IS_INCONSISTENT => Some(306),
            WinErrorWindows::ERROR_INVALID_LOCK_RANGE => Some(307),
            WinErrorWindows::ERROR_IMAGE_SUBSYSTEM_NOT_PRESENT => Some(308),
            WinErrorWindows::ERROR_NOTIFICATION_GUID_ALREADY_DEFINED => Some(309),
            WinErrorWindows::ERROR_INVALID_EXCEPTION_HANDLER => Some(310),
            WinErrorWindows::ERROR_DUPLICATE_PRIVILEGES => Some(311),
            WinErrorWindows::ERROR_NO_RANGES_PROCESSED => Some(312),
            WinErrorWindows::ERROR_NOT_ALLOWED_ON_SYSTEM_FILE => Some(313),
            WinErrorWindows::ERROR_DISK_RESOURCES_EXHAUSTED => Some(314),
            WinErrorWindows::ERROR_INVALID_TOKEN => Some(315),
            WinErrorWindows::ERROR_DEVICE_FEATURE_NOT_SUPPORTED => Some(316),
            WinErrorWindows::ERROR_MR_MID_NOT_FOUND => Some(317),
            WinErrorWindows::ERROR_SCOPE_NOT_FOUND => Some(318),
            WinErrorWindows::ERROR_UNDEFINED_SCOPE => Some(319),
            WinErrorWindows::ERROR_INVALID_CAP => Some(320),
            WinErrorWindows::ERROR_DEVICE_UNREACHABLE => Some(321),
            WinErrorWindows::ERROR_DEVICE_NO_RESOURCES => Some(322),
            WinErrorWindows::ERROR_DATA_CHECKSUM_ERROR => Some(323),
            WinErrorWindows::ERROR_INTERMIXED_KERNEL_EA_OPERATION => Some(324),
            WinErrorWindows::ERROR_FILE_LEVEL_TRIM_NOT_SUPPORTED => Some(326),
            WinErrorWindows::ERROR_OFFSET_ALIGNMENT_VIOLATION => Some(327),
            WinErrorWindows::ERROR_INVALID_FIELD_IN_PARAMETER_LIST => Some(328),
            WinErrorWindows::ERROR_OPERATION_IN_PROGRESS => Some(329),
            WinErrorWindows::ERROR_BAD_DEVICE_PATH => Some(330),
            WinErrorWindows::ERROR_TOO_MANY_DESCRIPTORS => Some(331),
            WinErrorWindows::ERROR_SCRUB_DATA_DISABLED => Some(332),
            WinErrorWindows::ERROR_NOT_REDUNDANT_STORAGE => Some(333),
            WinErrorWindows::ERROR_RESIDENT_FILE_NOT_SUPPORTED => Some(334),
            WinErrorWindows::ERROR_COMPRESSED_FILE_NOT_SUPPORTED => Some(335),
            WinErrorWindows::ERROR_DIRECTORY_NOT_SUPPORTED => Some(336),
            WinErrorWindows::ERROR_NOT_READ_FROM_COPY => Some(337),
            WinErrorWindows::ERROR_FT_WRITE_FAILURE => Some(338),
            WinErrorWindows::ERROR_FT_DI_SCAN_REQUIRED => Some(339),
            WinErrorWindows::ERROR_INVALID_KERNEL_INFO_VERSION => Some(340),
            WinErrorWindows::ERROR_INVALID_PEP_INFO_VERSION => Some(341),
            WinErrorWindows::ERROR_OBJECT_NOT_EXTERNALLY_BACKED => Some(342),
            WinErrorWindows::ERROR_EXTERNAL_BACKING_PROVIDER_UNKNOWN => Some(343),
            WinErrorWindows::ERROR_COMPRESSION_NOT_BENEFICIAL => Some(344),
            WinErrorWindows::ERROR_STORAGE_TOPOLOGY_ID_MISMATCH => Some(345),
            WinErrorWindows::ERROR_BLOCKED_BY_PARENTAL_CONTROLS => Some(346),
            WinErrorWindows::ERROR_BLOCK_TOO_MANY_REFERENCES => Some(347),
            WinErrorWindows::ERROR_MARKED_TO_DISALLOW_WRITES => Some(348),
            WinErrorWindows::ERROR_ENCLAVE_FAILURE => Some(349),
            WinErrorWindows::ERROR_FAIL_NOACTION_REBOOT => Some(350),
            WinErrorWindows::ERROR_FAIL_SHUTDOWN => Some(351),
            WinErrorWindows::ERROR_FAIL_RESTART => Some(352),
            WinErrorWindows::ERROR_MAX_SESSIONS_REACHED => Some(353),
            WinErrorWindows::ERROR_NETWORK_ACCESS_DENIED_EDP => Some(354),
            _ => None,
        }
    }

    /// One slice of the symbol table.
    #[verifier::spinoff_prover]
    #[verifier::rlimit(100)]
    fn from_u32_part4(raw: u32) -> (r: Option<WinErrorWindows>)
        ensures
            r == WinErrorWindows::spec_from_u32_part4(raw),
    {
        match raw {
            304 => Some(WinErrorWindows::ERROR_INCOMPATIBLE_WITH_GLOBAL_SHORT_NAME_REGISTRY_SETTING),
            305 => Some(WinErrorWindows::ERROR_SHORT_NAMES_NOT_ENABLED_ON_VOLUME),
            306 => Some(WinErrorWindows::ERROR_SECURITY_STREAM_IS_INCONSISTENT),
            307 => Some(WinErrorWindows::ERROR_INVALID_LOCK_RANGE),
            308 => Some(WinErrorWindows::ERROR_IMAGE_SUBSYSTEM_NOT_PRESENT),
            309 => Some(WinErrorWindows::ERROR_NOTIFICATION_GUID_ALREADY_DEFINED),
            310 => Some(WinErrorWindows::ERROR_INVALID_EXCEPTION_HANDLER),
            311 => Some(WinErrorWindows::ERROR_DUPLICATE_PRIVILEGES),
            312 => Some(WinErrorWindows::ERROR_NO_RANGES_PROCESSED),
            313 => Some(WinErrorWindows::ERROR_NOT_ALLOWED_ON_SYSTEM_FILE),
            314 => Some(WinErrorWindows::ERROR_DISK_RESOURCES_EXHAUSTED),
            315 => Some(WinErrorWindows::ERROR_INVALID_TOKEN),
            316 => Some(WinErrorWindows::ERROR_DEVICE_FEATURE_NOT_SUPPORTED),
            317 => Some(WinErrorWindows::ERROR_MR_MID_NOT_FOUND),
            318 => Some(WinErrorWindows::ERROR_SCOPE_NOT_FOUND),
            319 => Some(WinErrorWindows::ERROR_UNDEFINED_SCOPE),
            320 => Some(WinErrorWindows::ERROR_INVALID_CAP),
            321 => Some(WinErrorWindows::ERROR_DEVICE_UNREACHABLE),
            322 => Some(WinErrorWindows::ERROR_DEVICE_NO_RESOURCES),
            323 => Some(WinErrorWindows::ERROR_DATA_CHECKSUM_ERROR),
            324 => Some(WinErrorWindows::ERROR_INTERMIXED_KERNEL_EA_OPERATION),
            326 => Some(WinErrorWindows::ERROR_FILE_LEVEL_TRIM_NOT_SUPPORTED),
            327 => Some(WinErrorWindows::ERROR_OFFSET_ALIGNMENT_VIOLATION),
            328 => Some(WinErrorWindows::ERROR_INVALID_FIELD_IN_PARAMETER_LIST),
            329 => Some(WinErrorWindows::ERROR_OPERATION_IN_PROGRESS),
            330 => Some(WinErrorWindows::ERROR_BAD_DEVICE_PATH),
            331 => Some(WinErrorWindows::ERROR_TOO_MANY_DESCRIPTORS),
            332 => Some(WinErrorWindows::ERROR_SCRUB_DATA_DISABLED),
            333 => Some(WinErrorWindows::ERROR_NOT_REDUNDANT_STORAGE),
            334 => Some(WinErrorWindows::ERROR_RESIDENT_FILE_NOT_SUPPORTED),
            335 => Some(WinErrorWindows::ERROR_COMPRESSED_FILE_NOT_SUPPORTED),
            336 => Some(WinErrorWindows::ERROR_DIRECTORY_NOT_SUPPORTED),
            337 => Some(WinErrorWindows::ERROR_NOT_READ_FROM_COPY),
            338 => Some(WinErrorWindows::ERROR_FT_WRITE_FAILURE),
            339 => Some(WinErrorWindows::ERROR_FT_DI_SCAN_REQUIRED),
            340 => Some(WinErrorWindows::ERROR_INVALID_KERNEL_INFO_VERSION),
            341 => Some(WinErrorWindows::ERROR_INVALID_PEP_INFO_VERSION),
            342 => Some(WinErrorWindows::ERROR_OBJECT_NOT_EXTERNALLY_BACKED),
            343 => Some(WinErrorWindows::ERROR_EXTERNAL_BACKING_PROVIDER_UNKNOWN),
            344 => Some(WinErrorWindows::ERROR_COMPRESSION_NOT_BENEFICIAL),
            345 => Some(WinErrorWindows::ERROR_STORAGE_TOPOLOGY_ID_MISMATCH),
            346 => Some(WinErrorWindows::ERROR_BLOCKED_BY_PARENTAL_CONTROLS),
            347 => Some(WinErrorWindows::ERROR_BLOCK_TOO_MANY_REFERENCES),
            348 => Some(WinErrorWindows::ERROR_MARKED_TO_DISALLOW_WRITES),
            349 => Some(WinErrorWindows::ERROR_ENCLAVE_FAILURE),
            350 => Some(WinErrorWindows::ERROR_FAIL_NOACTION_REBOOT),
            351 => Some(WinErrorWindows::ERROR_FAIL_SHUTDOWN),
            352 => Some(WinErrorWindows::ERROR_FAIL_RESTART),
            353 => Some(WinErrorWindows::ERROR_MAX_SESSIONS_REACHED),
            354 => Some(WinErrorWindows::ERROR_NETWORK_ACCESS_DENIED_EDP),
            _ => None,
        }
    }

    /// One slice of the symbol table: the raw value of this symbol,
    /// where this slice holds it.
    pub open spec fn spec_to_u32_part5(self) -> Option<u32> {
        match self {
            WinErrorWindows::ERROR_DEVICE_HINT_NAME_BUFFER_TOO_SMALL => Some(355),
            WinErrorWindows::ERROR_EDP_POLICY_DENIES_OPERATION => Some(356),
            WinErrorWindows::ERROR_EDP_DPL_POLICY_CANT_BE_SATISFIED => Some(357),
            WinErrorWindows::ERROR_CLOUD_FILE_SYNC_ROOT_METADATA_CORRUPT => Some(358),
            WinErrorWindows::ERROR_DEVICE_IN_MAINTENANCE => Some(359),
            WinErrorWindows::ERROR_NOT_SUPPORTED_ON_DAX => Some(360),
            WinErrorWindows::ERROR_DAX_MAPPING_EXISTS => Some(361),
            WinErrorWindows::ERROR_CLOUD_FILE_PROVIDER_NOT_RUNNING => Some(362),
            WinErrorWindows::ERROR_CLOUD_FILE_METADATA_CORRUPT => Some(363),
            WinErrorWindows::ERROR_CLOUD_FILE_METADATA_TOO_LARGE => Some(364),
            WinErrorWindows::ERROR_CLOUD_FILE_PROPERTY_BLOB_TOO_LARGE => Some(365),
            WinErrorWindows::ERROR_CLOUD_FILE_PROPERTY_BLOB_CHECKSUM_MISMATCH => Some(366),
            WinErrorWindows::ERROR_CHILD_PROCESS_BLOCKED => Some(367),
            WinErrorWindows::ERROR_STORAGE_LOST_DATA_PERSISTENCE => Some(368),
            WinErrorWindows::ERROR_FILE_SYSTEM_VIRTUALIZATION_UNAVAILABLE => Some(369),
            WinErrorWindows::ERROR_FILE_SYSTEM_VIRTUALIZATION_METADATA_CORRUPT => Some(370),
            WinErrorWindows::ERROR_FILE_SYSTEM_VIRTUALIZATION_BUSY => Some(371),
            WinErrorWindows::ERROR_FILE_SYSTEM_VIRTUALIZATION_PROVIDER_UNKNOWN => Some(372),
            WinErrorWindows::ERROR_GDI_HANDLE_LEAK => Some(373),
            WinErrorWindows::ERROR_CLOUD_FILE_TOO_MANY_PROPERTY_BLOBS => Some(374),
            WinErrorWindows::ERROR_CLOUD_FILE_PROPERTY_VERSION_NOT_SUPPORTED => Some(375),
            WinErrorWindows::ERROR_NOT_A_CLOUD_FILE => Some(376),
            WinErrorWindows::ERROR_CLOUD_FILE_NOT_IN_SYNC => Some(377),
            WinErrorWindows::ERROR_CLOUD_FILE_ALREADY_CONNECTED => Some(378),
            WinErrorWindows::ERROR_CLOUD_FILE_NOT_SUPPORTED => Some(379),
            WinErrorWindows::ERROR_CLOUD_FILE_INVALID_REQUEST => Some(380),
            WinErrorWindows::ERROR_CLOUD_FILE_READ_ONLY_VOLUME => Some(381),
            WinErrorWindows::ERROR_CLOUD_FILE_CONNECTED_PROVIDER_ONLY => Some(382),
            WinErrorWindows::ERROR_CLOUD_FILE_VALIDATION_FAILED => Some(383),
            WinErrorWindows::ERROR_SMB1_NOT_AVAILABLE => Some(384),
            WinErrorWindows::ERROR_FILE_SYSTEM_VIRTUALIZATION_INVALID_OPERATION => Some(385),
            WinErrorWindows::ERROR_CLOUD_FILE_AUTHENTICATION_FAILED => Some(386),
            WinErrorWindows::ERROR_CLOUD_FILE_INSUFFICIENT_RESOURCES => Some(387),
            WinErrorWindows::ERROR_CLOUD_FILE_NETWORK_UNAVAILABLE => Some(388),
            WinErrorWindows::ERROR_CLOUD_FILE_UNSUCCESSFUL => Some(389),
            WinErrorWindows::ERROR_CLOUD_FILE_NOT_UNDER_SYNC_ROOT => Some(390),
            WinErrorWindows::ERROR_CLOUD_FILE_IN_USE => Some(391),
            WinErrorWindows::ERROR_CLOUD_FILE_PINNED => Some(392),
            WinErrorWindows::ERROR_CLOUD_FILE_REQUEST_ABORTED => Some(393),
            WinErrorWindows::ERROR_CLOUD_FILE_PROPERTY_CORRUPT => Some(394),
            WinErrorWindows::ERROR_CLOUD_FILE_ACCESS_DENIED => Some(395),
            WinErrorWindows::ERROR_CLOUD_FILE_INCOMPATIBLE_HARDLINKS => Some(396),
            WinErrorWindows::ERROR_CLOUD_FILE_PROPERTY_LOCK_CONFLICT => Some(397),
            WinErrorWindows::ERROR_CLOUD_FILE_REQUEST_CANCELED => Some(398),
            WinErrorWindows::ERROR_EXTERNAL_SYSKEY_NOT_SUPPORTED => Some(399),
            WinErrorWindows::ERROR_THREAD_MODE_ALREADY_BACKGROUND => Some(400),
            WinErrorWindows::ERROR_THREAD_MODE_NOT_BACKGROUND => Some(401),
            WinErrorWindows::ERROR_PROCESS_MODE_ALREADY_BACKGROUND => Some(402),
            WinErrorWindows::ERROR_PROCESS_MODE_NOT_BACKGROUND => Some(403),
            WinErrorWindows::ERROR_CLOUD_FILE_PROVIDER_TERMINATED => Some(404),
            _ => None,
        }
    }

    /// One slice of the symbol table: the symbol this slice gives a
    /// raw value, where it holds one.
    pub open spec fn spec_from_u32_part5(raw: u32) -> Option<WinErrorWindows> {
        match raw {
            355 => Some(WinErrorWindows::ERROR_DEVICE_HINT_NAME_BUFFER_TOO_SMALL),
            356 => Some(WinErrorWindows::ERROR_EDP_POLICY_DENIES_OPERATION),
            357 => Some(WinErrorWindows::ERROR_EDP_DPL_POLICY_CANT_BE_SATISFIED),
            358 => Some(WinErrorWindows::ERROR_CLOUD_FILE_SYNC_ROOT_METADATA_CORRUPT),
            359 => Some(WinErrorWindows::ERROR_DEVICE_IN_MAINTENANCE),
            360 => Some(WinErrorWindows::ERROR_NOT_SUPPORTED_ON_DAX),
            361 => Some(WinErrorWindows::ERROR_DAX_MAPPING_EXISTS),
            362 => Some(WinErrorWindows::ERROR_CLOUD_FILE_PROVIDER_NOT_RUNNING),
            363 => Some(WinErrorWindows::ERROR_CLOUD_FILE_METADATA_CORRUPT),
            364 => Some(WinErrorWindows::ERROR_CLOUD_FILE_METADATA_TOO_LARGE),
            365 => Some(WinErrorWindows::ERROR_CLOUD_FILE_PROPERTY_BLOB_TOO_LARGE),
            366 => Some(WinErrorWindows::ERROR_CLOUD_FILE_PROPERTY_BLOB_CHECKSUM_MISMATCH),
            367 => Some(WinErrorWindows::ERROR_CHILD_PROCESS_BLOCKED),
            368 => Some(WinErrorWindows::ERROR_STORAGE_LOST_DATA_PERSISTENCE),
            369 => Some(WinErrorWindows::ERROR_FILE_SYSTEM_VIRTUALIZATION_UNAVAILABLE),
            370 => Some(WinErrorWindows::ERROR_FILE_SYSTEM_VIRTUALIZATION_METADATA_CORRUPT),
            371 => Some(WinErrorWindows::ERROR_FILE_SYSTEM_VIRTUALIZATION_BUSY),
            372 => Some(WinErrorWindows::ERROR_FILE_SYSTEM_VIRTUALIZATION_PROVIDER_UNKNOWN),
            373 => Some(WinErrorWindows::ERROR_GDI_HANDLE_LEAK),
            374 => Some(WinErrorWindows::ERROR_CLOUD_FILE_TOO_MANY_PROPERTY_BLOBS),
            375 => Some(WinErrorWindows::ERROR_CLOUD_FILE_PROPERTY_VERSION_NOT_SUPPORTED),
            376 => Some(WinErrorWindows::ERROR_NOT_A_CLOUD_FILE),
            377 => Some(WinErrorWindows::ERROR_CLOUD_FILE_NOT_IN_SYNC),
            378 => Some(WinErrorWindows::ERROR_CLOUD_FILE_ALREADY_CONNECTED),
            379 => Some(WinErrorWindows::ERROR_CLOUD_FILE_NOT_SUPPORTED),
            380 => Some(WinErrorWindows::ERROR_CLOUD_FILE_INVALID_REQUEST),
            381 => Some(WinErrorWindows::ERROR_CLOUD_FILE_READ_ONLY_VOLUME),
            382 => Some(WinErrorWindows::ERROR_CLOUD_FILE_CONNECTED_PROVIDER_ONLY),
            383 => Some(WinErrorWindows::ERROR_CLOUD_FILE_VALIDATION_FAILED),
            384 => Some(WinErrorWindows::ERROR_SMB1_NOT_AVAILABLE),
            385 => Some(WinErrorWindows::ERROR_FILE_SYSTEM_VIRTUALIZATION_INVALID_OPERATION),
            386 => Some(WinErrorWindows::ERROR_CLOUD_FILE_AUTHENTICATION_FAILED),
            387 => Some(WinErrorWindows::ERROR_CLOUD_FILE_INSUFFICIENT_RESOURCES),
            388 => Some(WinErrorWindows::ERROR_CLOUD_FILE_NETWORK_UNAVAILABLE),
            389 => Some(WinErrorWindows::ERROR_CLOUD_FILE_UNSUCCESSFUL),
            390 => Some(WinErrorWindows::ERROR_CLOUD_FILE_NOT_UNDER_SYNC_ROOT),
            391 => Some(WinErrorWindows::ERROR_CLOUD_FILE_IN_USE),
            392 => Some(WinErrorWindows::ERROR_CLOUD_FILE_PINNED),
            393 => Some(WinErrorWindows::ERROR_CLOUD_FILE_REQUEST_ABORTED),
            394 => Some(WinErrorWindows::ERROR_CLOUD_FILE_PROPERTY_CORRUPT),
            395 => Some(WinErrorWindows::ERROR_CLOUD_FILE_ACCESS_DENIED),
            396 => Some(WinErrorWindows::ERROR_CLOUD_FILE_INCOMPATIBLE_HARDLINKS),
            397 => Some(WinErrorWindows::ERROR_CLOUD_FILE_PROPERTY_LOCK_CONFLICT),
            398 => Some(WinErrorWindows::ERROR_CLOUD_FILE_REQUEST_CANCELED),
            399 => Some(WinErrorWindows::ERROR_EXTERNAL_SYSKEY_NOT_SUPPORTED),
            400 => Some(WinErrorWindows::ERROR_THREAD_MODE_ALREADY_BACKGROUND),
            401 => Some(WinErrorWindows::ERROR_THREAD_MODE_NOT_BACKGROUND),
            402 => Some(WinErrorWindows::ERROR_PROCESS_MODE_ALREADY_BACKGROUND),
            403 => Some(WinErrorWindows::ERROR_PROCESS_MODE_NOT_BACKGROUND),
            404 => Some(WinErrorWindows::ERROR_CLOUD_FILE_PROVIDER_TERMINATED),
            _ => None,
        }
    }

    /// One slice of the symbol table.
    #[verifier::spinoff_prover]
    #[verifier::rlimit(100)]
    fn to_u32_part5(self) -> (r: Option<u32>)
        ensures
            r == self.spec_to_u32_part5(),
    {
        match self {
            WinErrorWindows::ERROR_DEVICE_HINT_NAME_BUFFER_TOO_SMALL => Some(355),
            WinErrorWindows::ERROR_EDP_POLICY_DENIES_OPERATION => Some(356),
            WinErrorWindows::ERROR_EDP_DPL_POLICY_CANT_BE_SATISFIED => Some(357),
            WinErrorWindows::ERROR_CLOUD_FILE_SYNC_ROOT_METADATA_CORRUPT => Some(358),
            WinErrorWindows::ERROR_DEVICE_IN_MAINTENANCE => Some(359),
            WinErrorWindows::ERROR_NOT_SUPPORTED_ON_DAX => Some(360),
            WinErrorWindows::ERROR_DAX_MAPPING_EXISTS => Some(361),
            WinErrorWindows::ERROR_CLOUD_FILE_PROVIDER_NOT_RUNNING => Some(362),
            WinErrorWindows::ERROR_CLOUD_FILE_METADATA_CORRUPT => Some(363),
            WinErrorWindows::ERROR_CLOUD_FILE_METADATA_TOO_LARGE => Some(364),
            WinErrorWindows::ERROR_CLOUD_FILE_PROPERTY_BLOB_TOO_LARGE => Some(365),
            WinErrorWindows::ERROR_CLOUD_FILE_PROPERTY_BLOB_CHECKSUM_MISMATCH => Some(366),
            WinErrorWindows::ERROR_CHILD_PROCESS_BLOCKED => Some(367),
            WinErrorWindows::ERROR_STORAGE_LOST_DATA_PERSISTENCE => Some(368),
            WinErrorWindows::ERROR_FILE_SYSTEM_VIRTUALIZATION_UNAVAILABLE => Some(369),
            WinErrorWindows::ERROR_FILE_SYSTEM_VIRTUALIZATION_METADATA_CORRUPT => Some(370),
            WinErrorWindows::ERROR_FILE_SYSTEM_VIRTUALIZATION_BUSY => Some(371),
            WinErrorWindows::ERROR_FILE_SYSTEM_VIRTUALIZATION_PROVIDER_UNKNOWN => Some(372),
            WinErrorWindows::ERROR_GDI_HANDLE_LEAK => Some(373),
            WinErrorWindows::ERROR_CLOUD_FILE_TOO_MANY_PROPERTY_BLOBS => Some(374),
            WinErrorWindows::ERROR_CLOUD_FILE_PROPERTY_VERSION_NOT_SUPPORTED => Some(375),
            WinErrorWindows::ERROR_NOT_A_CLOUD_FILE => Some(376),
            WinErrorWindows::ERROR_CLOUD_FILE_NOT_IN_SYNC => Some(377),
            WinErrorWindows::ERROR_CLOUD_FILE_ALREADY_CONNECTED => Some(378),
            WinErrorWindows::ERROR_CLOUD_FILE_NOT_SUPPORTED => Some(379),
            WinErrorWindows::ERROR_CLOUD_FILE_INVALID_REQUEST => Some(380),
            WinErrorWindows::ERROR_CLOUD_FILE_READ_ONLY_VOLUME => Some(381),
            WinErrorWindows::ERROR_CLOUD_FILE_CONNECTED_PROVIDER_ONLY => Some(382),
            WinErrorWindows::ERROR_CLOUD_FILE_VALIDATION_FAILED => Some(383),
            WinErrorWindows::ERROR_SMB1_NOT_AVAILABLE => Some(384),
            WinErrorWindows::ERROR_FILE_SYSTEM_VIRTUALIZATION_INVALID_OPERATION => Some(385),
            WinErrorWindows::ERROR_CLOUD_FILE_AUTHENTICATION_FAILED => Some(386),
            WinErrorWindows::ERROR_CLOUD_FILE_INSUFFICIENT_RESOURCES => Some(387),
            WinErrorWindows::ERROR_CLOUD_FILE_NETWORK_UNAVAILABLE => Some(388),
            WinErrorWindows::ERROR_CLOUD_FILE_UNSUCCESSFUL => Some(389),
            WinErrorWindows::ERROR_CLOUD_FILE_NOT_UNDER_SYNC_ROOT => Some(390),
            WinErrorWindows::ERROR_CLOUD_FILE_IN_USE => Some(391),
            WinErrorWindows::ERROR_CLOUD_FILE_PINNED => Some(392),
            WinErrorWindows::ERROR_CLOUD_FILE_REQUEST_ABORTED => Some(393),
            WinErrorWindows::ERROR_CLOUD_FILE_PROPERTY_CORRUPT => Some(394),
            WinErrorWindows::ERROR_CLOUD_FILE_ACCESS_DENIED => Some(395),
            WinErrorWindows::ERROR_CLOUD_FILE_INCOMPATIBLE_HARDLINKS => Some(396),
            WinErrorWindows::ERROR_CLOUD_FILE_PROPERTY_LOCK_CONFLICT => Some(397),
            WinErrorWindows::ERROR_CLOUD_FILE_REQUEST_CANCELED => Some(398),
            WinErrorWindows::ERROR_EXTERNAL_SYSKEY_NOT_SUPPORTED => Some(399),
            WinErrorWindows::ERROR_THREAD_MODE_ALREADY_BACKGROUND => Some(400),
            WinErrorWindows::ERROR_THREAD_MODE_NOT_BACKGROUND => Some(401),
            WinErrorWindows::ERROR_PROCESS_MODE_ALREADY_BACKGROUND => Some(402),
            WinErrorWindows::ERROR_PROCESS_MODE_NOT_BACKGROUND => Some(403),
            WinErrorWindows::ERROR_CLOUD_FILE_PROVIDER_TERMINATED => Some(404),
            _ => None,
        }
    }

    /// One slice of the symbol table.
    #[verifier::spinoff_prover]
    #[verifier::rlimit(100)]
    fn from_u32_part5(raw: u32) -> (r: Option<WinErrorWindows>)
        ensures
            r == WinErrorWindows::spec_from_u32_part5(raw),
    {
        match raw {
            355 => Some(WinErrorWindows::ERROR_DEVICE_HINT_NAME_BUFFER_TOO_SMALL),
            356 => Some(WinErrorWindows::ERROR_EDP_POLICY_DENIES_OPERATION),
            357 => Some(WinErrorWindows::ERROR_EDP_DPL_POLICY_CANT_BE_SATISFIED),
            358 => Some(WinErrorWindows::ERROR_CLOUD_FILE_SYNC_ROOT_METADATA_CORRUPT),
            359 => Some(WinErrorWindows::ERROR_DEVICE_IN_MAINTENANCE),
            360 => Some(WinErrorWindows::ERROR_NOT_SUPPORTED_ON_DAX),
            361 => Some(WinErrorWindows::ERROR_DAX_MAPPING_EXISTS),
            362 => Some(WinErrorWindows::ERROR_CLOUD_FILE_PROVIDER_NOT_RUNNING),
            363 => Some(WinErrorWindows::ERROR_CLOUD_FILE_METADATA_CORRUPT),
            364 => Some(WinErrorWindows::ERROR_CLOUD_FILE_METADATA_TOO_LARGE),
            365 => Some(WinErrorWindows::ERROR_CLOUD_FILE_PROPERTY_BLOB_TOO_LARGE),
            366 => Some(WinErrorWindows::ERROR_CLOUD_FILE_PROPERTY_BLOB_CHECKSUM_MISMATCH),
            367 => Some(WinErrorWindows::ERROR_CHILD_PROCESS_BLOCKED),
            368 => Some(WinErrorWindows::ERROR_STORAGE_LOST_DATA_PERSISTENCE),
            369 => Some(WinErrorWindows::ERROR_FILE_SYSTEM_VIRTUALIZATION_UNAVAILABLE),
            370 => Some(WinErrorWindows::ERROR_FILE_SYSTEM_VIRTUALIZATION_METADATA_CORRUPT),
            371 => Some(WinErrorWindows::ERROR_FILE_SYSTEM_VIRTUALIZATION_BUSY),
            372 => Some(WinErrorWindows::ERROR_FILE_SYSTEM_VIRTUALIZATION_PROVIDER_UNKNOWN),
            373 => Some(WinErrorWindows::ERROR_GDI_HANDLE_LEAK),
            374 => Some(WinErrorWindows::ERROR_CLOUD_FILE_TOO_MANY_PROPERTY_BLOBS),
            375 => Some(WinErrorWindows::ERROR_CLOUD_FILE_PROPERTY_VERSION_NOT_SUPPORTED),
            376 => Some(WinErrorWindows::ERROR_NOT_A_CLOUD_FILE),
            377 => Some(WinErrorWindows::ERROR_CLOUD_FILE_NOT_IN_SYNC),
            378 => Some(WinErrorWindows::ERROR_CLOUD_FILE_ALREADY_CONNECTED),
            379 => Some(WinErrorWindows::ERROR_CLOUD_FILE_NOT_SUPPORTED),
            380 => Some(WinErrorWindows::ERROR_CLOUD_FILE_INVALID_REQUEST),
            381 => Some(WinErrorWindows::ERROR_CLOUD_FILE_READ_ONLY_VOLUME),
            382 => Some(WinErrorWindows::ERROR_CLOUD_FILE_CONNECTED_PROVIDER_ONLY),
            383 => Some(WinErrorWindows::ERROR_CLOUD_FILE_VALIDATION_FAILED),
            384 => Some(WinErrorWindows::ERROR_SMB1_NOT_AVAILABLE),
            385 => Some(WinErrorWindows::ERROR_FILE_SYSTEM_VIRTUALIZATION_INVALID_OPERATION),
            386 => Some(WinErrorWindows::ERROR_CLOUD_FILE_AUTHENTICATION_FAILED),
            387 => Some(WinErrorWindows::ERROR_CLOUD_FILE_INSUFFICIENT_RESOURCES),
            388 => Some(WinErrorWindows::ERROR_CLOUD_FILE_NETWORK_UNAVAILABLE),
            389 => Some(WinErrorWindows::ERROR_CLOUD_FILE_UNSUCCESSFUL),
            390 => Some(WinErrorWindows::ERROR_CLOUD_FILE_NOT_UNDER_SYNC_ROOT),
            391 => Some(WinErrorWindows::ERROR_CLOUD_FILE_IN_USE),
            392 => Some(WinErrorWindows::ERROR_CLOUD_FILE_PINNED),
            393 => Some(WinErrorWindows::ERROR_CLOUD_FILE_REQUEST_ABORTED),
            394 => Some(WinErrorWindows::ERROR_CLOUD_FILE_PROPERTY_CORRUPT),
            395 => Some(WinErrorWindows::ERROR_CLOUD_FILE_ACCESS_DENIED),
            396 => Some(WinErrorWindows::ERROR_CLOUD_FILE_INCOMPATIBLE_HARDLINKS),
            397 => Some(WinErrorWindows::ERROR_CLOUD_FILE_PROPERTY_LOCK_CONFLICT),
            398 => Some(WinErrorWindows::ERROR_CLOUD_FILE_REQUEST_CANCELED),
            399 => Some(WinErrorWindows::ERROR_EXTERNAL_SYSKEY_NOT_SUPPORTED),
            400 => Some(WinErrorWindows::ERROR_THREAD_MODE_ALREADY_BACKGROUND),
            401 => Some(WinErrorWindows::ERROR_THREAD_MODE_NOT_BACKGROUND),
            402 => Some(WinErrorWindows::ERROR_PROCESS_MODE_ALREADY_BACKGROUND),
            403 => Some(WinErrorWindows::ERROR_PROCESS_MODE_NOT_BACKGROUND),
            404 => Some(WinErrorWindows::ERROR_CLOUD_FILE_PROVIDER_TERMINATED),
            _ => None,
        }
    }

    /// One slice of the symbol table: the raw value of this symbol,
    /// where this slice holds it.
    pub open spec fn spec_to_u32_part6(self) -> Option<u32> {
        match self {
            WinErrorWindows::ERROR_NOT_A_CLOUD_SYNC_ROOT => Some(405),
            WinErrorWindows::ERROR_FILE_PROTECTED_UNDER_DPL => Some(406),
            WinErrorWindows::ERROR_VOLUME_NOT_CLUSTER_ALIGNED => Some(407),
            WinErrorWindows::ERROR_NO_PHYSICALLY_ALIGNED_FREE_SPACE_FOUND => Some(408),
            WinErrorWindows::ERROR_APPX_FILE_NOT_ENCRYPTED => Some(409),
            WinErrorWindows::ERROR_RWRAW_ENCRYPTED_FILE_NOT_ENCRYPTED => Some(410),
            WinErrorWindows::ERROR_RWRAW_ENCRYPTED_INVALID_EDATAINFO_FILEOFFSET => Some(411),
            WinErrorWindows::ERROR_RWRAW_ENCRYPTED_INVALID_EDATAINFO_FILERANGE => Some(412),
            WinErrorWindows::ERROR_RWRAW_ENCRYPTED_INVALID_EDATAINFO_PARAMETER => Some(413),
            WinErrorWindows::ERROR_LINUX_SUBSYSTEM_NOT_PRESENT => Some(414),
            WinErrorWindows::ERROR_FT_READ_FAILURE => Some(415),
            WinErrorWindows::ERROR_STORAGE_RESERVE_ID_INVALID => Some(416),
            WinErrorWindows::ERROR_STORAGE_RESERVE_DOES_NOT_EXIST => Some(417),
            WinErrorWindows::ERROR_STORAGE_RESERVE_ALREADY_EXISTS => Some(418),
            WinErrorWindows::ERROR_STORAGE_RESERVE_NOT_EMPTY => Some(419),
            WinErrorWindows::ERROR_NOT_A_DAX_VOLUME => Some(420),
            WinErrorWindows::ERROR_NOT_DAX_MAPPABLE => Some(421),
            WinErrorWindows::ERROR_TIME_SENSITIVE_THREAD => Some(422),
            WinErrorWindows::ERROR_DPL_NOT_SUPPORTED_FOR_USER => Some(423),
            WinErrorWindows::ERROR_CASE_DIFFERING_NAMES_IN_DIR => Some(424),
            WinErrorWindows::ERROR_FILE_NOT_SUPPORTED => Some(425),
            WinErrorWindows::ERROR_CLOUD_FILE_REQUEST_TIMEOUT => Some(426),
            WinErrorWindows::ERROR_NO_TASK_QUEUE => Some(427),
            WinErrorWindows::ERROR_SRC_SRV_DLL_LOAD_FAILED => Some(428),
            WinErrorWindows::ERROR_NOT_SUPPORTED_WITH_BTT => Some(429),
            WinErrorWindows::ERROR_ENCRYPTION_DISABLED => Some(430),
            WinErrorWindows::ERROR_ENCRYPTING_METADATA_DISALLOWED => Some(431),
            WinErrorWindows::ERROR_CANT_CLEAR_ENCRYPTION_FLAG => Some(432),
            WinErrorWindows::ERROR_NO_SUCH_DEVICE => Some(433),
            WinErrorWindows::ERROR_CLOUD_FILE_DEHYDRATION_DISALLOWED => Some(434),
            WinErrorWindows::ERROR_FILE_SNAP_IN_PROGRESS => Some(435),
            WinErrorWindows::ERROR_FILE_SNAP_USER_SECTION_NOT_SUPPORTED => Some(436),
            WinErrorWindows::ERROR_FILE_SNAP_MODIFY_NOT_SUPPORTED => Some(437),
            WinErrorWindows::ERROR_FILE_SNAP_IO_NOT_COORDINATED => Some(438),
            WinErrorWindows::ERROR_FILE_SNAP_UNEXPECTED_ERROR => Some(439),
            WinErrorWindows::ERROR_FILE_SNAP_INVALID_PARAMETER => Some(440),
            WinErrorWindows::ERROR_UNSATISFIED_DEPENDENCIES => Some(441),
            WinErrorWindows::ERROR_CASE_SENSITIVE_PATH => Some(442),
            WinErrorWindows::ERROR_UNEXPECTED_NTCACHEMANAGER_ERROR => Some(443),
            WinErrorWindows::ERROR_LINUX_SUBSYSTEM_UPDATE_REQUIRED => Some(444),
            WinErrorWindows::ERROR_DLP_POLICY_WARNS_AGAINST_OPERATION => Some(445),
            WinErrorWindows::ERROR_DLP_POLICY_DENIES_OPERATION => Some(446),
            WinErrorWindows::ERROR_DLP_POLICY_SILENTLY_FAIL => Some(449),
            WinErrorWindows::ERROR_CAPAUTHZ_NOT_DEVUNLOCKED => Some(450),
            WinErrorWindows::ERROR_CAPAUTHZ_CHANGE_TYPE => Some(451),
            WinErrorWindows::ERROR_CAPAUTHZ_NOT_PROVISIONED => Some(452),
            WinErrorWindows::ERROR_CAPAUTHZ_NOT_AUTHORIZED => Some(453),
            WinErrorWindows::ERROR_CAPAUTHZ_NO_POLICY => Some(454),
            WinErrorWindows::ERROR_CAPAUTHZ_DB_CORRUPTED => Some(455),
            WinErrorWindows::ERROR_CAPAUTHZ_SCCD_INVALID_CATALOG => Some(456),
            _ => None,
        }
    }

    /// One slice of the symbol table: the symbol this slice gives a
    /// raw value, where it holds one.
    pub open spec fn spec_from_u32_part6(raw: u32) -> Option<WinErrorWindows> {
        match raw {
            405 => Some(WinErrorWindows::ERROR_NOT_A_CLOUD_SYNC_ROOT),
            406 => Some(WinErrorWindows::ERROR_FILE_PROTECTED_UNDER_DPL),
            407 => Some(WinErrorWindows::ERROR_VOLUME_NOT_CLUSTER_ALIGNED),
            408 => Some(WinErrorWindows::ERROR_NO_PHYSICALLY_ALIGNED_FREE_SPACE_FOUND),
            409 => Some(WinErrorWindows::ERROR_APPX_FILE_NOT_ENCRYPTED),
            410 => Some(WinErrorWindows::ERROR_RWRAW_ENCRYPTED_FILE_NOT_ENCRYPTED),
            411 => Some(WinErrorWindows::ERROR_RWRAW_ENCRYPTED_INVALID_EDATAINFO_FILEOFFSET),
            412 => Some(WinErrorWindows::ERROR_RWRAW_ENCRYPTED_INVALID_EDATAINFO_FILERANGE),
            413 => Some(WinErrorWindows::ERROR_RWRAW_ENCRYPTED_INVALID_EDATAINFO_PARAMETER),
            414 => Some(WinErrorWindows::ERROR_LINUX_SUBSYSTEM_NOT_PRESENT),
            415 => Some(WinErrorWindows::ERROR_FT_READ_FAILURE),
            416 => Some(WinErrorWindows::ERROR_STORAGE_RESERVE_ID_INVALID),
            417 => Some(WinErrorWindows::ERROR_STORAGE_RESERVE_DOES_NOT_EXIST),
            418 => Some(WinErrorWindows::ERROR_STORAGE_RESERVE_ALREADY_EXISTS),
            419 => Some(WinErrorWindows::ERROR_STORAGE_RESERVE_NOT_EMPTY),
            420 => Some(WinErrorWindows::ERROR_NOT_A_DAX_VOLUME),
            421 => Some(WinErrorWindows::ERROR_NOT_DAX_MAPPABLE),
            422 => Some(WinErrorWindows::ERROR_TIME_SENSITIVE_THREAD),
            423 => Some(WinErrorWindows::ERROR_DPL_NOT_SUPPORTED_FOR_USER),
            424 => Some(WinErrorWindows::ERROR_CASE_DIFFERING_NAMES_IN_DIR),
            425 => Some(WinErrorWindows::ERROR_FILE_NOT_SUPPORTED),
            426 => Some(WinErrorWindows::ERROR_CLOUD_FILE_REQUEST_TIMEOUT),
            427 => Some(WinErrorWindows::ERROR_NO_TASK_QUEUE),
            428 => Some(WinErrorWindows::ERROR_SRC_SRV_DLL_LOAD_FAILED),
            429 => Some(WinErrorWindows::ERROR_NOT_SUPPORTED_WITH_BTT),
            430 => Some(WinErrorWindows::ERROR_ENCRYPTION_DISABLED),
            431 => Some(WinErrorWindows::ERROR_ENCRYPTING_METADATA_DISALLOWED),
            432 => Some(WinErrorWindows::ERROR_CANT_CLEAR_ENCRYPTION_FLAG),
            433 => Some(WinErrorWindows::ERROR_NO_SUCH_DEVICE),
            434 => Some(WinErrorWindows::ERROR_CLOUD_FILE_DEHYDRATION_DISALLOWED),
            435 => Some(WinErrorWindows::ERROR_FILE_SNAP_IN_PROGRESS),
            436 => Some(WinErrorWindows::ERROR_FILE_SNAP_USER_SECTION_NOT_SUPPORTED),
            437 => Some(WinErrorWindows::ERROR_FILE_SNAP_MODIFY_NOT_SUPPORTED),
            438 => Some(WinErrorWindows::ERROR_FILE_SNAP_IO_NOT_COORDINATED),
            439 => Some(WinErrorWindows::ERROR_FILE_SNAP_UNEXPECTED_ERROR),
            440 => Some(WinErrorWindows::ERROR_FILE_SNAP_INVALID_PARAMETER),
            441 => Some(WinErrorWindows::ERROR_UNSATISFIED_DEPENDENCIES),
            442 => Some(WinErrorWindows::ERROR_CASE_SENSITIVE_PATH),
            443 => Some(WinErrorWindows::ERROR_UNEXPECTED_NTCACHEMANAGER_ERROR),
            444 => Some(WinErrorWindows::ERROR_LINUX_SUBSYSTEM_UPDATE_REQUIRED),
            445 => Some(WinErrorWindows::ERROR_DLP_POLICY_WARNS_AGAINST_OPERATION),
            446 => Some(WinErrorWindows::ERROR_DLP_POLICY_DENIES_OPERATION),
            449 => Some(WinErrorWindows::ERROR_DLP_POLICY_SILENTLY_FAIL),
            450 => Some(WinErrorWindows::ERROR_CAPAUTHZ_NOT_DEVUNLOCKED),
            451 => Some(WinErrorWindows::ERROR_CAPAUTHZ_CHANGE_TYPE),
            452 => Some(WinErrorWindows::ERROR_CAPAUTHZ_NOT_PROVISIONED),
            453 => Some(WinErrorWindows::ERROR_CAPAUTHZ_NOT_AUTHORIZED),
            454 => Some(WinErrorWindows::ERROR_CAPAUTHZ_NO_POLICY),
            455 => Some(WinErrorWindows::ERROR_CAPAUTHZ_DB_CORRUPTED),
            456 => Some(WinErrorWindows::ERROR_CAPAUTHZ_SCCD_INVALID_CATALOG),
            _ => None,
        }
    }

    /// One slice of the symbol table.
    #[verifier::spinoff_prover]
    #[verifier::rlimit(100)]
    fn to_u32_part6(self) -> (r: Option<u32>)
        ensures
            r == self.spec_to_u32_part6(),
    {
        match self {
            WinErrorWindows::ERROR_NOT_A_CLOUD_SYNC_ROOT => Some(405),
            WinErrorWindows::ERROR_FILE_PROTECTED_UNDER_DPL => Some(406),
            WinErrorWindows::ERROR_VOLUME_NOT_CLUSTER_ALIGNED => Some(407),
            WinErrorWindows::ERROR_NO_PHYSICALLY_ALIGNED_FREE_SPACE_FOUND => Some(408),
            WinErrorWindows::ERROR_APPX_FILE_NOT_ENCRYPTED => Some(409),
            WinErrorWindows::ERROR_RWRAW_ENCRYPTED_FILE_NOT_ENCRYPTED => Some(410),
            WinErrorWindows::ERROR_RWRAW_ENCRYPTED_INVALID_EDATAINFO_FILEOFFSET => Some(411),
            WinErrorWindows::ERROR_RWRAW_ENCRYPTED_INVALID_EDATAINFO_FILERANGE => Some(412),
            WinErrorWindows::ERROR_RWRAW_ENCRYPTED_INVALID_EDATAINFO_PARAMETER => Some(413),
            WinErrorWindows::ERROR_LINUX_SUBSYSTEM_NOT_PRESENT => Some(414),
            WinErrorWindows::ERROR_FT_READ_FAILURE => Some(415),
            WinErrorWindows::ERROR_STORAGE_RESERVE_ID_INVALID => Some(416),
            WinErrorWindows::ERROR_STORAGE_RESERVE_DOES_NOT_EXIST => Some(417),
            WinErrorWindows::ERROR_STORAGE_RESERVE_ALREADY_EXISTS => Some(418),
            WinErrorWindows::ERROR_STORAGE_RESERVE_NOT_EMPTY => Some(419),
            WinErrorWindows::ERROR_NOT_A_DAX_VOLUME => Some(420),
            WinErrorWindows::ERROR_NOT_DAX_MAPPABLE => Some(421),
            WinErrorWindows::ERROR_TIME_SENSITIVE_THREAD => Some(422),
            WinErrorWindows::ERROR_DPL_NOT_SUPPORTED_FOR_USER => Some(423),
            WinErrorWindows::ERROR_CASE_DIFFERING_NAMES_IN_DIR => Some(424),
            WinErrorWindows::ERROR_FILE_NOT_SUPPORTED => Some(425),
            WinErrorWindows::ERROR_CLOUD_FILE_REQUEST_TIMEOUT => Some(426),
            WinErrorWindows::ERROR_NO_TASK_QUEUE => Some(427),
            WinErrorWindows::ERROR_SRC_SRV_DLL_LOAD_FAILED => Some(428),
            WinErrorWindows::ERROR_NOT_SUPPORTED_WITH_BTT => Some(429),
            WinErrorWindows::ERROR_ENCRYPTION_DISABLED => Some(430),
            WinErrorWindows::ERROR_ENCRYPTING_METADATA_DISALLOWED => Some(431),
            WinErrorWindows::ERROR_CANT_CLEAR_ENCRYPTION_FLAG => Some(432),
            WinErrorWindows::ERROR_NO_SUCH_DEVICE => Some(433),
            WinErrorWindows::ERROR_CLOUD_FILE_DEHYDRATION_DISALLOWED => Some(434),
            WinErrorWindows::ERROR_FILE_SNAP_IN_PROGRESS => Some(435),
            WinErrorWindows::ERROR_FILE_SNAP_USER_SECTION_NOT_SUPPORTED => Some(436),
            WinErrorWindows::ERROR_FILE_SNAP_MODIFY_NOT_SUPPORTED => Some(437),
            WinErrorWindows::ERROR_FILE_SNAP_IO_NOT_COORDINATED => Some(438),
            WinErrorWindows::ERROR_FILE_SNAP_UNEXPECTED_ERROR => Some(439),
            WinErrorWindows::ERROR_FILE_SNAP_INVALID_PARAMETER => Some(440),
            WinErrorWindows::ERROR_UNSATISFIED_DEPENDENCIES => Some(441),
            WinErrorWindows::ERROR_CASE_SENSITIVE_PATH => Some(442),
            WinErrorWindows::ERROR_UNEXPECTED_NTCACHEMANAGER_ERROR => Some(443),
            WinErrorWindows::ERROR_LINUX_SUBSYSTEM_UPDATE_REQUIRED => Some(444),
            WinErrorWindows::ERROR_DLP_POLICY_WARNS_AGAINST_OPERATION => Some(445),
            WinErrorWindows::ERROR_DLP_POLICY_DENIES_OPERATION => Some(446),
            WinErrorWindows::ERROR_DLP_POLICY_SILENTLY_FAIL => Some(449),
            WinErrorWindows::ERROR_CAPAUTHZ_NOT_DEVUNLOCKED => Some(450),
            WinErrorWindows::ERROR_CAPAUTHZ_CHANGE_TYPE => Some(451),
            WinErrorWindows::ERROR_CAPAUTHZ_NOT_PROVISIONED => Some(452),
            WinErrorWindows::ERROR_CAPAUTHZ_NOT_AUTHORIZED => Some(453),
            WinErrorWindows::ERROR_CAPAUTHZ_NO_POLICY => Some(454),
            WinErrorWindows::ERROR_CAPAUTHZ_DB_CORRUPTED => Some(455),
            WinErrorWindows::ERROR_CAPAUTHZ_SCCD_INVALID_CATALOG => Some(456),
            _ => None,
        }
    }

    /// One slice of the symbol table.
    #[verifier::spinoff_prover]
    #[verifier::rlimit(100)]
    fn from_u32_part6(raw: u32) -> (r: Option<WinErrorWindows>)
        ensures
            r == WinErrorWindows::spec_from_u32_part6(raw),
    {
        match raw {
            405 => Some(WinErrorWindows::ERROR_NOT_A_CLOUD_SYNC_ROOT),
            406 => Some(WinErrorWindows::ERROR_FILE_PROTECTED_UNDER_DPL),
            407 => Some(WinErrorWindows::ERROR_VOLUME_NOT_CLUSTER_ALIGNED),
            408 => Some(WinErrorWindows::ERROR_NO_PHYSICALLY_ALIGNED_FREE_SPACE_FOUND),
            409 => Some(WinErrorWindows::ERROR_APPX_FILE_NOT_ENCRYPTED),
            410 => Some(WinErrorWindows::ERROR_RWRAW_ENCRYPTED_FILE_NOT_ENCRYPTED),
            411 => Some(WinErrorWindows::ERROR_RWRAW_ENCRYPTED_INVALID_EDATAINFO_FILEOFFSET),
            412 => Some(WinErrorWindows::ERROR_RWRAW_ENCRYPTED_INVALID_EDATAINFO_FILERANGE),
            413 => Some(WinErrorWindows::ERROR_RWRAW_ENCRYPTED_INVALID_EDATAINFO_PARAMETER),
            414 => Some(WinErrorWindows::ERROR_LINUX_SUBSYSTEM_NOT_PRESENT),
            415 => Some(WinErrorWindows::ERROR_FT_READ_FAILURE),
            416 => Some(WinErrorWindows::ERROR_STORAGE_RESERVE_ID_INVALID),
            417 => Some(WinErrorWindows::ERROR_STORAGE_RESERVE_DOES_NOT_EXIST),
            418 => Some(WinErrorWindows::ERROR_STORAGE_RESERVE_ALREADY_EXISTS),
            419 => Some(WinErrorWindows::ERROR_STORAGE_RESERVE_NOT_EMPTY),
            420 => Some(WinErrorWindows::ERROR_NOT_A_DAX_VOLUME),
            421 => Some(WinErrorWindows::ERROR_NOT_DAX_MAPPABLE),
            422 => Some(WinErrorWindows::ERROR_TIME_SENSITIVE_THREAD),
            423 => Some(WinErrorWindows::ERROR_DPL_NOT_SUPPORTED_FOR_USER),
            424 => Some(WinErrorWindows::ERROR_CASE_DIFFERING_NAMES_IN_DIR),
            425 => Some(WinErrorWindows::ERROR_FILE_NOT_SUPPORTED),
            426 => Some(WinErrorWindows::ERROR_CLOUD_FILE_REQUEST_TIMEOUT),
            427 => Some(WinErrorWindows::ERROR_NO_TASK_QUEUE),
            428 => Some(WinErrorWindows::ERROR_SRC_SRV_DLL_LOAD_FAILED),
            429 => Some(WinErrorWindows::ERROR_NOT_SUPPORTED_WITH_BTT),
            430 => Some(WinErrorWindows::ERROR_ENCRYPTION_DISABLED),
            431 => Some(WinErrorWindows::ERROR_ENCRYPTING_METADATA_DISALLOWED),
            432 => Some(WinErrorWindows::ERROR_CANT_CLEAR_ENCRYPTION_FLAG),
            433 => Some(WinErrorWindows::ERROR_NO_SUCH_DEVICE),
            434 => Some(WinErrorWindows::ERROR_CLOUD_FILE_DEHYDRATION_DISALLOWED),
            435 => Some(WinErrorWindows::ERROR_FILE_SNAP_IN_PROGRESS),
            436 => Some(WinErrorWindows::ERROR_FILE_SNAP_USER_SECTION_NOT_SUPPORTED),
            437 => Some(WinErrorWindows::ERROR_FILE_SNAP_MODIFY_NOT_SUPPORTED),
            438 => Some(WinErrorWindows::ERROR_FILE_SNAP_IO_NOT_COORDINATED),
            439 => Some(WinErrorWindows::ERROR_FILE_SNAP_UNEXPECTED_ERROR),
            440 => Some(WinErrorWindows::ERROR_FILE_SNAP_INVALID_PARAMETER),
            441 => Some(WinErrorWindows::ERROR_UNSATISFIED_DEPENDENCIES),
            442 => Some(WinErrorWindows::ERROR_CASE_SENSITIVE_PATH),
            443 => Some(WinErrorWindows::ERROR_UNEXPECTED_NTCACHEMANAGER_ERROR),
            444 => Some(WinErrorWindows::ERROR_LINUX_SUBSYSTEM_UPDATE_REQUIRED),
            445 => Some(WinErrorWindows::ERROR_DLP_POLICY_WARNS_AGAINST_OPERATION),
            446 => Some(WinErrorWindows::ERROR_DLP_POLICY_DENIES_OPERATION),
            449 => Some(WinErrorWindows::ERROR_DLP_POLICY_SILENTLY_FAIL),
            450 => Some(WinErrorWindows::ERROR_CAPAUTHZ_NOT_DEVUNLOCKED),
            451 => Some(WinErrorWindows::ERROR_CAPAUTHZ_CHANGE_TYPE),
            452 => Some(WinErrorWindows::ERROR_CAPAUTHZ_NOT_PROVISIONED),
            453 => Some(WinErrorWindows::ERROR_CAPAUTHZ_NOT_AUTHORIZED),
            454 => Some(WinErrorWindows::ERROR_CAPAUTHZ_NO_POLICY),
            455 => Some(WinErrorWindows::ERROR_CAPAUTHZ_DB_CORRUPTED),
            456 => Some(WinErrorWindows::ERROR_CAPAUTHZ_SCCD_INVALID_CATALOG),
            _ => None,
        }
    }

    /// One slice of the symbol table: the raw value of this symbol,
    /// where this slice holds it.
    pub open spec fn spec_to_u32_part7(self) -> Option<u32> {
        match self {
            WinErrorWindows::ERROR_CAPAUTHZ_SCCD_NO_AUTH_ENTITY => Some(457),
            WinErrorWindows::ERROR_CAPAUTHZ_SCCD_PARSE_ERROR => Some(458),
            WinErrorWindows::ERROR_CAPAUTHZ_SCCD_DEV_MODE_REQUIRED => Some(459),
            WinErrorWindows::ERROR_CAPAUTHZ_SCCD_NO_CAPABILITY_MATCH => Some(460),
            WinErrorWindows::ERROR_CIMFS_IMAGE_CORRUPT => Some(470),
            WinErrorWindows::ERROR_PNP_QUERY_REMOVE_DEVICE_TIMEOUT => Some(480),
            WinErrorWindows::ERROR_PNP_QUERY_REMOVE_RELATED_DEVICE_TIMEOUT => Some(481),
            WinErrorWindows::ERROR_PNP_QUERY_REMOVE_UNRELATED_DEVICE_TIMEOUT => Some(482),
            WinErrorWindows::ERROR_DEVICE_HARDWARE_ERROR => Some(483),
            WinErrorWindows::ERROR_INVALID_ADDRESS => Some(487),
            WinErrorWindows::ERROR_HAS_SYSTEM_CRITICAL_FILES => Some(488),
            WinErrorWindows::ERROR_USER_PROFILE_LOAD => Some(500),
            WinErrorWindows::ERROR_ARITHMETIC_OVERFLOW => Some(534),
            WinErrorWindows::ERROR_PIPE_CONNECTED => Some(535),
            WinErrorWindows::ERROR_PIPE_LISTENING => Some(536),
            WinErrorWindows::ERROR_VERIFIER_STOP => Some(537),
            WinErrorWindows::ERROR_ABIOS_ERROR => Some(538),
            WinErrorWindows::ERROR_WX86_WARNING => Some(539),
            WinErrorWindows::ERROR_WX86_ERROR => Some(540),
            WinErrorWindows::ERROR_TIMER_NOT_CANCELED => Some(541),
            WinErrorWindows::ERROR_UNWIND => Some(542),
            WinErrorWindows::ERROR_BAD_STACK => Some(543),
            WinErrorWindows::ERROR_INVALID_UNWIND_TARGET => Some(544),
            WinErrorWindows::ERROR_INVALID_PORT_ATTRIBUTES => Some(545),
            WinErrorWindows::ERROR_PORT_MESSAGE_TOO_LONG => Some(546),
            WinErrorWindows::ERROR_INVALID_QUOTA_LOWER => Some(547),
            WinErrorWindows::ERROR_DEVICE_ALREADY_ATTACHED => Some(548),
            WinErrorWindows::ERROR_INSTRUCTION_MISALIGNMENT => Some(549),
            WinErrorWindows::ERROR_PROFILING_NOT_STARTED => Some(550),
            WinErrorWindows::ERROR_PROFILING_NOT_STOPPED => Some(551),
            WinErrorWindows::ERROR_COULD_NOT_INTERPRET => Some(552),
            WinErrorWindows::ERROR_PROFILING_AT_LIMIT => Some(553),
            WinErrorWindows::ERROR_CANT_WAIT => Some(554),
            WinErrorWindows::ERROR_CANT_TERMINATE_SELF => Some(555),
            WinErrorWindows::ERROR_UNEXPECTED_MM_CREATE_ERR => Some(556),
            WinErrorWindows::ERROR_UNEXPECTED_MM_MAP_ERROR => Some(557),
            WinErrorWindows::ERROR_UNEXPECTED_MM_EXTEND_ERR => Some(558),
            WinErrorWindows::ERROR_BAD_FUNCTION_TABLE => Some(559),
            WinErrorWindows::ERROR_NO_GUID_TRANSLATION => Some(560),
            WinErrorWindows::ERROR_INVALID_LDT_SIZE => Some(561),
            WinErrorWindows::ERROR_INVALID_LDT_OFFSET => Some(563),
            WinErrorWindows::ERROR_INVALID_LDT_DESCRIPTOR => Some(564),
            WinErrorWindows::ERROR_TOO_MANY_THREADS => Some(565),
            WinErrorWindows::ERROR_THREAD_NOT_IN_PROCESS => Some(566),
            WinErrorWindows::ERROR_PAGEFILE_QUOTA_EXCEEDED => Some(567),
            WinErrorWindows::ERROR_LOGON_SERVER_CONFLICT => Some(568),
            WinErrorWindows::ERROR_SYNCHRONIZATION_REQUIRED => Some(569),
            WinErrorWindows::ERROR_NET_OPEN_FAILED => Some(570),
            WinErrorWindows::ERROR_IO_PRIVILEGE_FAILED => Some(571),
            WinErrorWindows::ERROR_CONTROL_C_EXIT => Some(572),
            _ => None,
        }
    }

    /// One slice of the symbol table: the symbol this slice gives a
    /// raw value, where it holds one.
    pub open spec fn spec_from_u32_part7(raw: u32) -> Option<WinErrorWindows> {
        match raw {
            457 => Some(WinErrorWindows::ERROR_CAPAUTHZ_SCCD_NO_AUTH_ENTITY),
            458 => Some(WinErrorWindows::ERROR_CAPAUTHZ_SCCD_PARSE_ERROR),
            459 => Some(WinErrorWindows::ERROR_CAPAUTHZ_SCCD_DEV_MODE_REQUIRED),
            460 => Some(WinErrorWindows::ERROR_CAPAUTHZ_SCCD_NO_CAPABILITY_MATCH),
            470 => Some(WinErrorWindows::ERROR_CIMFS_IMAGE_CORRUPT),
            480 => Some(WinErrorWindows::ERROR_PNP_QUERY_REMOVE_DEVICE_TIMEOUT),
            481 => Some(WinErrorWindows::ERROR_PNP_QUERY_REMOVE_RELATED_DEVICE_TIMEOUT),
            482 => Some(WinErrorWindows::ERROR_PNP_QUERY_REMOVE_UNRELATED_DEVICE_TIMEOUT),
            483 => Some(WinErrorWindows::ERROR_DEVICE_HARDWARE_ERROR),
            487 => Some(WinErrorWindows::ERROR_INVALID_ADDRESS),
            488 => Some(WinErrorWindows::ERROR_HAS_SYSTEM_CRITICAL_FILES),
            500 => Some(WinErrorWindows::ERROR_USER_PROFILE_LOAD),
            534 => Some(WinErrorWindows::ERROR_ARITHMETIC_OVERFLOW),
            535 => Some(WinErrorWindows::ERROR_PIPE_CONNECTED),
            536 => Some(WinErrorWindows::ERROR_PIPE_LISTENING),
            537 => Some(WinErrorWindows::ERROR_VERIFIER_STOP),
            538 => Some(WinErrorWindows::ERROR_ABIOS_ERROR),
            539 => Some(WinErrorWindows::ERROR_WX86_WARNING),
            540 => Some(WinErrorWindows::ERROR_WX86_ERROR),
            541 => Some(WinErrorWindows::ERROR_TIMER_NOT_CANCELED),
            542 => Some(WinErrorWindows::ERROR_UNWIND),
            543 => Some(WinErrorWindows::ERROR_BAD_STACK),
            544 => Some(WinErrorWindows::ERROR_INVALID_UNWIND_TARGET),
            545 => Some(WinErrorWindows::ERROR_INVALID_PORT_ATTRIBUTES),
            546 => Some(WinErrorWindows::ERROR_PORT_MESSAGE_TOO_LONG),
            547 => Some(WinErrorWindows::ERROR_INVALID_QUOTA_LOWER),
            548 => Some(WinErrorWindows::ERROR_DEVICE_ALREADY_ATTACHED),
            549 => Some(WinErrorWindows::ERROR_INSTRUCTION_MISALIGNMENT),
            550 => Some(WinErrorWindows::ERROR_PROFILING_NOT_STARTED),
            551 => Some(WinErrorWindows::ERROR_PROFILING_NOT_STOPPED),
            552 => Some(WinErrorWindows::ERROR_COULD_NOT_INTERPRET),
            553 => Some(WinErrorWindows::ERROR_PROFILING_AT_LIMIT),
            554 => Some(WinErrorWindows::ERROR_CANT_WAIT),
            555 => Some(WinErrorWindows::ERROR_CANT_TERMINATE_SELF),
            556 => Some(WinErrorWindows::ERROR_UNEXPECTED_MM_CREATE_ERR),
            557 => Some(WinErrorWindows::ERROR_UNEXPECTED_MM_MAP_ERROR),
            558 => Some(WinErrorWindows::ERROR_UNEXPECTED_MM_EXTEND_ERR),
            559 => Some(WinErrorWindows::ERROR_BAD_FUNCTION_TABLE),
            560 => Some(WinErrorWindows::ERROR_NO_GUID_TRANSLATION),
            561 => Some(WinErrorWindows::ERROR_INVALID_LDT_SIZE),
            563 => Some(WinErrorWindows::ERROR_INVALID_LDT_OFFSET),
            564 => Some(WinErrorWindows::ERROR_INVALID_LDT_DESCRIPTOR),
            565 => Some(WinErrorWindows::ERROR_TOO_MANY_THREADS),
            566 => Some(WinErrorWindows::ERROR_THREAD_NOT_IN_PROCESS),
            567 => Some(WinErrorWindows::ERROR_PAGEFILE_QUOTA_EXCEEDED),
            568 => Some(WinErrorWindows::ERROR_LOGON_SERVER_CONFLICT),
            569 => Some(WinErrorWindows::ERROR_SYNCHRONIZATION_REQUIRED),
            570 => Some(WinErrorWindows::ERROR_NET_OPEN_FAILED),
            571 => Some(WinErrorWindows::ERROR_IO_PRIVILEGE_FAILED),
            572 => Some(WinErrorWindows::ERROR_CONTROL_C_EXIT),
            _ => None,
        }
    }

    /// One slice of the symbol table.
    #[verifier::spinoff_prover]
    #[verifier::rlimit(100)]
    fn to_u32_part7(self) -> (r: Option<u32>)
        ensures
            r == self.spec_to_u32_part7(),
    {
        match self {
            WinErrorWindows::ERROR_CAPAUTHZ_SCCD_NO_AUTH_ENTITY => Some(457),
            WinErrorWindows::ERROR_CAPAUTHZ_SCCD_PARSE_ERROR => Some(458),
            WinErrorWindows::ERROR_CAPAUTHZ_SCCD_DEV_MODE_REQUIRED => Some(459),
            WinErrorWindows::ERROR_CAPAUTHZ_SCCD_NO_CAPABILITY_MATCH => Some(460),
            WinErrorWindows::ERROR_CIMFS_IMAGE_CORRUPT => Some(470),
            WinErrorWindows::ERROR_PNP_QUERY_REMOVE_DEVICE_TIMEOUT => Some(480),
            WinErrorWindows::ERROR_PNP_QUERY_REMOVE_RELATED_DEVICE_TIMEOUT => Some(481),
            WinErrorWindows::ERROR_PNP_QUERY_REMOVE_UNRELATED_DEVICE_TIMEOUT => Some(482),
            WinErrorWindows::ERROR_DEVICE_HARDWARE_ERROR => Some(483),
            WinErrorWindows::ERROR_INVALID_ADDRESS => Some(487),
            WinErrorWindows::ERROR_HAS_SYSTEM_CRITICAL_FILES => Some(488),
            WinErrorWindows::ERROR_USER_PROFILE_LOAD => Some(500),
            WinErrorWindows::ERROR_ARITHMETIC_OVERFLOW => Some(534),
            WinErrorWindows::ERROR_PIPE_CONNECTED => Some(535),
            WinErrorWindows::ERROR_PIPE_LISTENING => Some(536),
            WinErrorWindows::ERROR_VERIFIER_STOP => Some(537),
            WinErrorWindows::ERROR_ABIOS_ERROR => Some(538),
            WinErrorWindows::ERROR_WX86_WARNING => Some(539),
            WinErrorWindows::ERROR_WX86_ERROR => Some(540),
            WinErrorWindows::ERROR_TIMER_NOT_CANCELED => Some(541),
            WinErrorWindows::ERROR_UNWIND => Some(542),
            WinErrorWindows::ERROR_BAD_STACK => Some(543),
            WinErrorWindows::ERROR_INVALID_UNWIND_TARGET => Some(544),
            WinErrorWindows::ERROR_INVALID_PORT_ATTRIBUTES => Some(545),
            WinErrorWindows::ERROR_PORT_MESSAGE_TOO_LONG => Some(546),
            WinErrorWindows::ERROR_INVALID_QUOTA_LOWER => Some(547),
            WinErrorWindows::ERROR_DEVICE_ALREADY_ATTACHED => Some(548),
            WinErrorWindows::ERROR_INSTRUCTION_MISALIGNMENT => Some(549),
            WinErrorWindows::ERROR_PROFILING_NOT_STARTED => Some(550),
            WinErrorWindows::ERROR_PROFILING_NOT_STOPPED => Some(551),
            WinErrorWindows::ERROR_COULD_NOT_INTERPRET => Some(552),
            WinErrorWindows::ERROR_PROFILING_AT_LIMIT => Some(553),
            WinErrorWindows::ERROR_CANT_WAIT => Some(554),
            WinErrorWindows::ERROR_CANT_TERMINATE_SELF => Some(555),
            WinErrorWindows::ERROR_UNEXPECTED_MM_CREATE_ERR => Some(556),
            WinErrorWindows::ERROR_UNEXPECTED_MM_MAP_ERROR => Some(557),
            WinErrorWindows::ERROR_UNEXPECTED_MM_EXTEND_ERR => Some(558),
            WinErrorWindows::ERROR_BAD_FUNCTION_TABLE => Some(559),
            WinErrorWindows::ERROR_NO_GUID_TRANSLATION => Some(560),
            WinErrorWindows::ERROR_INVALID_LDT_SIZE => Some(561),
            WinErrorWindows::ERROR_INVALID_LDT_OFFSET => Some(563),
            WinErrorWindows::ERROR_INVALID_LDT_DESCRIPTOR => Some(564),
            WinErrorWindows::ERROR_TOO_MANY_THREADS => Some(565),
            WinErrorWindows::ERROR_THREAD_NOT_IN_PROCESS => Some(566),
            WinErrorWindows::ERROR_PAGEFILE_QUOTA_EXCEEDED => Some(567),
            WinErrorWindows::ERROR_LOGON_SERVER_CONFLICT => Some(568),
            WinErrorWindows::ERROR_SYNCHRONIZATION_REQUIRED => Some(569),
            WinErrorWindows::ERROR_NET_OPEN_FAILED => Some(570),
            WinErrorWindows::ERROR_IO_PRIVILEGE_FAILED => Some(571),
            WinErrorWindows::ERROR_CONTROL_C_EXIT => Some(572),
            _ => None,
        }
    }

    /// One slice of the symbol table.
    #[verifier::spinoff_prover]
    #[verifier::rlimit(100)]
    fn from_u32_part7(raw: u32) -> (r: Option<WinErrorWindows>)
        ensures
            r == WinErrorWindows::spec_from_u32_part7(raw),
    {
        match raw {
            457 => Some(WinErrorWindows::ERROR_CAPAUTHZ_SCCD_NO_AUTH_ENTITY),
            458 => Some(WinErrorWindows::ERROR_CAPAUTHZ_SCCD_PARSE_ERROR),
            459 => Some(WinErrorWindows::ERROR_CAPAUTHZ_SCCD_DEV_MODE_REQUIRED),
            460 => Some(WinErrorWindows::ERROR_CAPAUTHZ_SCCD_NO_CAPABILITY_MATCH),
            470 => Some(WinErrorWindows::ERROR_CIMFS_IMAGE_CORRUPT),
            480 => Some(WinErrorWindows::ERROR_PNP_QUERY_REMOVE_DEVICE_TIMEOUT),
            481 => Some(WinErrorWindows::ERROR_PNP_QUERY_REMOVE_RELATED_DEVICE_TIMEOUT),
            482 => Some(WinErrorWindows::ERROR_PNP_QUERY_REMOVE_UNRELATED_DEVICE_TIMEOUT),
            483 => Some(WinErrorWindows::ERROR_DEVICE_HARDWARE_ERROR),
            487 => Some(WinErrorWindows::ERROR_INVALID_ADDRESS),
            488 => Some(WinErrorWindows::ERROR_HAS_SYSTEM_CRITICAL_FILES),
            500 => Some(WinErrorWindows::ERROR_USER_PROFILE_LOAD),
            534 => Some(WinErrorWindows::ERROR_ARITHMETIC_OVERFLOW),
            535 => Some(WinErrorWindows::ERROR_PIPE_CONNECTED),
            536 => Some(WinErrorWindows::ERROR_PIPE_LISTENING),
            537 => Some(WinErrorWindows::ERROR_VERIFIER_STOP),
            538 => Some(WinErrorWindows::ERROR_ABIOS_ERROR),
            539 => Some(WinErrorWindows::ERROR_WX86_WARNING),
            540 => Some(WinErrorWindows::ERROR_WX86_ERROR),
            541 => Some(WinErrorWindows::ERROR_TIMER_NOT_CANCELED),
            542 => Some(WinErrorWindows::ERROR_UNWIND),
            543 => Some(WinErrorWindows::ERROR_BAD_STACK),
            544 => Some(WinErrorWindows::ERROR_INVALID_UNWIND_TARGET),
            545 => Some(WinErrorWindows::ERROR_INVALID_PORT_ATTRIBUTES),
            546 => Some(WinErrorWindows::ERROR_PORT_MESSAGE_TOO_LONG),
            547 => Some(WinErrorWindows::ERROR_INVALID_QUOTA_LOWER),
            548 => Some(WinErrorWindows::ERROR_DEVICE_ALREADY_ATTACHED),
            549 => Some(WinErrorWindows::ERROR_INSTRUCTION_MISALIGNMENT),
            550 => Some(WinErrorWindows::ERROR_PROFILING_NOT_STARTED),
            551 => Some(WinErrorWindows::ERROR_PROFILING_NOT_STOPPED),
            552 => Some(WinErrorWindows::ERROR_COULD_NOT_INTERPRET),
            553 => Some(WinErrorWindows::ERROR_PROFILING_AT_LIMIT),
            554 => Some(WinErrorWindows::ERROR_CANT_WAIT),
            555 => Some(WinErrorWindows::ERROR_CANT_TERMINATE_SELF),
            556 => Some(WinErrorWindows::ERROR_UNEXPECTED_MM_CREATE_ERR),
            557 => Some(WinErrorWindows::ERROR_UNEXPECTED_MM_MAP_ERROR),
            558 => Some(WinErrorWindows::ERROR_UNEXPECTED_MM_EXTEND_ERR),
            559 => Some(WinErrorWindows::ERROR_BAD_FUNCTION_TABLE),
            560 => Some(WinErrorWindows::ERROR_NO_GUID_TRANSLATION),
            561 => Some(WinErrorWindows::ERROR_INVALID_LDT_SIZE),
            563 => Some(WinErrorWindows::ERROR_INVALID_LDT_OFFSET),
            564 => Some(WinErrorWindows::ERROR_INVALID_LDT_DESCRIPTOR),
            565 => Some(WinErrorWindows::ERROR_TOO_MANY_THREADS),
            566 => Some(WinErrorWindows::ERROR_THREAD_NOT_IN_PROCESS),
            567 => Some(WinErrorWindows::ERROR_PAGEFILE_QUOTA_EXCEEDED),
            568 => Some(WinErrorWindows::ERROR_LOGON_SERVER_CONFLICT),
            569 => Some(WinErrorWindows::ERROR_SYNCHRONIZATION_REQUIRED),
            570 => Some(WinErrorWindows::ERROR_NET_OPEN_FAILED),
            571 => Some(WinErrorWindows::ERROR_IO_PRIVILEGE_FAILED),
            572 => Some(WinErrorWindows::ERROR_CONTROL_C_EXIT),
            _ => None,
        }
    }

    /// One slice of the symbol table: the raw value of this symbol,
    /// where this slice holds it.
    pub open spec fn spec_to_u32_part8(self) -> Option<u32> {
        match self {
            WinErrorWindows::ERROR_MISSING_SYSTEMFILE => Some(573),
            WinErrorWindows::ERROR_UNHANDLED_EXCEPTION => Some(574),
            WinErrorWindows::ERROR_APP_INIT_FAILURE => Some(575),
            WinErrorWindows::ERROR_PAGEFILE_CREATE_FAILED => Some(576),
            WinErrorWindows::ERROR_INVALID_IMAGE_HASH => Some(577),
            WinErrorWindows::ERROR_NO_PAGEFILE => Some(578),
            WinErrorWindows::ERROR_ILLEGAL_FLOAT_CONTEXT => Some(579),
            WinErrorWindows::ERROR_NO_EVENT_PAIR => Some(580),
            WinErrorWindows::ERROR_DOMAIN_CTRLR_CONFIG_ERROR => Some(581),
            WinErrorWindows::ERROR_ILLEGAL_CHARACTER => Some(582),
            WinErrorWindows::ERROR_UNDEFINED_CHARACTER => Some(583),
            WinErrorWindows::ERROR_FLOPPY_VOLUME => Some(584),
            WinErrorWindows::ERROR_BIOS_FAILED_TO_CONNECT_INTERRUPT => Some(585),
            WinErrorWindows::ERROR_BACKUP_CONTROLLER => Some(586),
            WinErrorWindows::ERROR_MUTANT_LIMIT_EXCEEDED => Some(587),
            WinErrorWindows::ERROR_FS_DRIVER_REQUIRED => Some(588),
            WinErrorWindows::ERROR_CANNOT_LOAD_REGISTRY_FILE => Some(589),
            WinErrorWindows::ERROR_DEBUG_ATTACH_FAILED => Some(590),
            WinErrorWindows::ERROR_SYSTEM_PROCESS_TERMINATED => Some(591),
            WinErrorWindows::ERROR_DATA_NOT_ACCEPTED => Some(592),
            WinErrorWindows::ERROR_VDM_HARD_ERROR => Some(593),
            WinErrorWindows::ERROR_DRIVER_CANCEL_TIMEOUT => Some(594),
            WinErrorWindows::ERROR_REPLY_MESSAGE_MISMATCH => Some(595),
            WinErrorWindows::ERROR_LOST_WRITEBEHIND_DATA => Some(596),
            WinErrorWindows::ERROR_CLIENT_SERVER_PARAMETERS_INVALID => Some(597),
            WinErrorWindows::ERROR_NOT_TINY_STREAM => Some(598),
            WinErrorWindows::ERROR_STACK_OVERFLOW_READ => Some(599),
            WinErrorWindows::ERROR_CONVERT_TO_LARGE => Some(600),
            WinErrorWindows::ERROR_FOUND_OUT_OF_SCOPE => Some(601),
            WinErrorWindows::ERROR_ALLOCATE_BUCKET => Some(602),
            WinErrorWindows::ERROR_MARSHALL_OVERFLOW => Some(603),
            WinErrorWindows::ERROR_INVALID_VARIANT => Some(604),
            WinErrorWindows::ERROR_BAD_COMPRESSION_BUFFER => Some(605),
            WinErrorWindows::ERROR_AUDIT_FAILED => Some(606),
            WinErrorWindows::ERROR_TIMER_RESOLUTION_NOT_SET => Some(607),
            WinErrorWindows::ERROR_INSUFFICIENT_LOGON_INFO => Some(608),
            WinErrorWindows::ERROR_BAD_DLL_ENTRYPOINT => Some(609),
            WinErrorWindows::ERROR_BAD_SERVICE_ENTRYPOINT => Some(610),
            WinErrorWindows::ERROR_IP_ADDRESS_CONFLICT1 => Some(611),
            WinErrorWindows::ERROR_IP_ADDRESS_CONFLICT2 => Some(612),
            WinErrorWindows::ERROR_REGISTRY_QUOTA_LIMIT => Some(613),
            WinErrorWindows::ERROR_NO_CALLBACK_ACTIVE => Some(614),
            WinErrorWindows::ERROR_PWD_TOO_SHORT => Some(615),
            WinErrorWindows::ERROR_PWD_TOO_RECENT => Some(616),
            WinErrorWindows::ERROR_PWD_HISTORY_CONFLICT => Some(617),
            WinErrorWindows::ERROR_UNSUPPORTED_COMPRESSION => Some(618),
            WinErrorWindows::ERROR_INVALID_HW_PROFILE => Some(619),
            WinErrorWindows::ERROR_INVALID_PLUGPLAY_DEVICE_PATH => Some(620),
            WinErrorWindows::ERROR_QUOTA_LIST_INCONSISTENT => Some(621),
            WinErrorWindows::ERROR_EVALUATION_EXPIRATION => Some(622),
            _ => None,
        }
    }

    /// One slice of the symbol table: the symbol this slice gives a
    /// raw value, where it holds one.
    pub open spec fn spec_from_u32_part8(raw: u32) -> Option<WinErrorWindows> {
        match raw {
            573 => Some(WinErrorWindows::ERROR_MISSING_SYSTEMFILE),
            574 => Some(WinErrorWindows::ERROR_UNHANDLED_EXCEPTION),
            575 => Some(WinErrorWindows::ERROR_APP_INIT_FAILURE),
            576 => Some(WinErrorWindows::ERROR_PAGEFILE_CREATE_FAILED),
            577 => Some(WinErrorWindows::ERROR_INVALID_IMAGE_HASH),
            578 => Some(WinErrorWindows::ERROR_NO_PAGEFILE),
            579 => Some(WinErrorWindows::ERROR_ILLEGAL_FLOAT_CONTEXT),
            580 => Some(WinErrorWindows::ERROR_NO_EVENT_PAIR),
            581 => Some(WinErrorWindows::ERROR_DOMAIN_CTRLR_CONFIG_ERROR),
            582 => Some(WinErrorWindows::ERROR_ILLEGAL_CHARACTER),
            583 => Some(WinErrorWindows::ERROR_UNDEFINED_CHARACTER),
            584 => Some(WinErrorWindows::ERROR_FLOPPY_VOLUME),
            585 => Some(WinErrorWindows::ERROR_BIOS_FAILED_TO_CONNECT_INTERRUPT),
            586 => Some(WinErrorWindows::ERROR_BACKUP_CONTROLLER),
            587 => Some(WinErrorWindows::ERROR_MUTANT_LIMIT_EXCEEDED),
            588 => Some(WinErrorWindows::ERROR_FS_DRIVER_REQUIRED),
            589 => Some(WinErrorWindows::ERROR_CANNOT_LOAD_REGISTRY_FILE),
            590 => Some(WinErrorWindows::ERROR_DEBUG_ATTACH_FAILED),
            591 => Some(WinErrorWindows::ERROR_SYSTEM_PROCESS_TERMINATED),
            592 => Some(WinErrorWindows::ERROR_DATA_NOT_ACCEPTED),
            593 => Some(WinErrorWindows::ERROR_VDM_HARD_ERROR),
            594 => Some(WinErrorWindows::ERROR_DRIVER_CANCEL_TIMEOUT),
            595 => Some(WinErrorWindows::ERROR_REPLY_MESSAGE_MISMATCH),
            596 => Some(WinErrorWindows::ERROR_LOST_WRITEBEHIND_DATA),
            597 => Some(WinErrorWindows::ERROR_CLIENT_SERVER_PARAMETERS_INVALID),
            598 => Some(WinErrorWindows::ERROR_NOT_TINY_STREAM),
            599 => Some(WinErrorWindows::ERROR_STACK_OVERFLOW_READ),
            600 => Some(WinErrorWindows::ERROR_CONVERT_TO_LARGE),
            601 => Some(WinErrorWindows::ERROR_FOUND_OUT_OF_SCOPE),
            602 => Some(WinErrorWindows::ERROR_ALLOCATE_BUCKET),
            603 => Some(WinErrorWindows::ERROR_MARSHALL_OVERFLOW),
            604 => Some(WinErrorWindows::ERROR_INVALID_VARIANT),
            605 => Some(WinErrorWindows::ERROR_BAD_COMPRESSION_BUFFER),
            606 => Some(WinErrorWindows::ERROR_AUDIT_FAILED),
            607 => Some(WinErrorWindows::ERROR_TIMER_RESOLUTION_NOT_SET),
            608 => Some(WinErrorWindows::ERROR_INSUFFICIENT_LOGON_INFO),
            609 => Some(WinErrorWindows::ERROR_BAD_DLL_ENTRYPOINT),
            610 => Some(WinErrorWindows::ERROR_BAD_SERVICE_ENTRYPOINT),
            611 => Some(WinErrorWindows::ERROR_IP_ADDRESS_CONFLICT1),
            612 => Some(WinErrorWindows::ERROR_IP_ADDRESS_CONFLICT2),
            613 => Some(WinErrorWindows::ERROR_REGISTRY_QUOTA_LIMIT),
            614 => Some(WinErrorWindows::ERROR_NO_CALLBACK_ACTIVE),
            615 => Some(WinErrorWindows::ERROR_PWD_TOO_SHORT),
            616 => Some(WinErrorWindows::ERROR_PWD_TOO_RECENT),
            617 => Some(WinErrorWindows::ERROR_PWD_HISTORY_CONFLICT),
            618 => Some(WinErrorWindows::ERROR_UNSUPPORTED_COMPRESSION),
            619 => Some(WinErrorWindows::ERROR_INVALID_HW_PROFILE),
            620 => Some(WinErrorWindows::ERROR_INVALID_PLUGPLAY_DEVICE_PATH),
            621 => Some(WinErrorWindows::ERROR_QUOTA_LIST_INCONSISTENT),
            622 => Some(WinErrorWindows::ERROR_EVALUATION_EXPIRATION),
            _ => None,
        }
    }

    /// One slice of the symbol table.
    #[verifier::spinoff_prover]
    #[verifier::rlimit(100)]
    fn to_u32_part8(self) -> (r: Option<u32>)
        ensures
            r == self.spec_to_u32_part8(),
    {
        match self {
            WinErrorWindows::ERROR_MISSING_SYSTEMFILE => Some(573),
            WinErrorWindows::ERROR_UNHANDLED_EXCEPTION => Some(574),
            WinErrorWindows::ERROR_APP_INIT_FAILURE => Some(575),
            WinErrorWindows::ERROR_PAGEFILE_CREATE_FAILED => Some(576),
            WinErrorWindows::ERROR_INVALID_IMAGE_HASH => Some(577),
            WinErrorWindows::ERROR_NO_PAGEFILE => Some(578),
            WinErrorWindows::ERROR_ILLEGAL_FLOAT_CONTEXT => Some(579),
            WinErrorWindows::ERROR_NO_EVENT_PAIR => Some(580),
            WinErrorWindows::ERROR_DOMAIN_CTRLR_CONFIG_ERROR => Some(581),
            WinErrorWindows::ERROR_ILLEGAL_CHARACTER => Some(582),
            WinErrorWindows::ERROR_UNDEFINED_CHARACTER => Some(583),
            WinErrorWindows::ERROR_FLOPPY_VOLUME => Some(584),
            WinErrorWindows::ERROR_BIOS_FAILED_TO_CONNECT_INTERRUPT => Some(585),
            WinErrorWindows::ERROR_BACKUP_CONTROLLER => Some(586),
            WinErrorWindows::ERROR_MUTANT_LIMIT_EXCEEDED => Some(587),
            WinErrorWindows::ERROR_FS_DRIVER_REQUIRED => Some(588),
            WinErrorWindows::ERROR_CANNOT_LOAD_REGISTRY_FILE => Some(589),
            WinErrorWindows::ERROR_DEBUG_ATTACH_FAILED => Some(590),
            WinErrorWindows::ERROR_SYSTEM_PROCESS_TERMINATED => Some(591),
            WinErrorWindows::ERROR_DATA_NOT_ACCEPTED => Some(592),
            WinErrorWindows::ERROR_VDM_HARD_ERROR => Some(593),
            WinErrorWindows::ERROR_DRIVER_CANCEL_TIMEOUT => Some(594),
            WinErrorWindows::ERROR_REPLY_MESSAGE_MISMATCH => Some(595),
            WinErrorWindows::ERROR_LOST_WRITEBEHIND_DATA => Some(596),
            WinErrorWindows::ERROR_CLIENT_SERVER_PARAMETERS_INVALID => Some(597),
            WinErrorWindows::ERROR_NOT_TINY_STREAM => Some(598),
            WinErrorWindows::ERROR_STACK_OVERFLOW_READ => Some(599),
            WinErrorWindows::ERROR_CONVERT_TO_LARGE => Some(600),
            WinErrorWindows::ERROR_FOUND_OUT_OF_SCOPE => Some(601),
            WinErrorWindows::ERROR_ALLOCATE_BUCKET => Some(602),
            WinErrorWindows::ERROR_MARSHALL_OVERFLOW => Some(603),
            WinErrorWindows::ERROR_INVALID_VARIANT => Some(604),
            WinErrorWindows::ERROR_BAD_COMPRESSION_BUFFER => Some(605),
            WinErrorWindows::ERROR_AUDIT_FAILED => Some(606),
            WinErrorWindows::ERROR_TIMER_RESOLUTION_NOT_SET => Some(607),
            WinErrorWindows::ERROR_INSUFFICIENT_LOGON_INFO => Some(608),
            WinErrorWindows::ERROR_BAD_DLL_ENTRYPOINT => Some(609),
            WinErrorWindows::ERROR_BAD_SERVICE_ENTRYPOINT => Some(610),
            WinErrorWindows::ERROR_IP_ADDRESS_CONFLICT1 => Some(611),
            WinErrorWindows::ERROR_IP_ADDRESS_CONFLICT2 => Some(612),
            WinErrorWindows::ERROR_REGISTRY_QUOTA_LIMIT => Some(613),
            WinErrorWindows::ERROR_NO_CALLBACK_ACTIVE => Some(614),
            WinErrorWindows::ERROR_PWD_TOO_SHORT => Some(615),
            WinErrorWindows::ERROR_PWD_TOO_RECENT => Some(616),
            WinErrorWindows::ERROR_PWD_HISTORY_CONFLICT => Some(617),
            WinErrorWindows::ERROR_UNSUPPORTED_COMPRESSION => Some(618),
            WinErrorWindows::ERROR_INVALID_HW_PROFILE => Some(619),
            WinErrorWindows::ERROR_INVALID_PLUGPLAY_DEVICE_PATH => Some(620),
            WinErrorWindows::ERROR_QUOTA_LIST_INCONSISTENT => Some(621),
            WinErrorWindows::ERROR_EVALUATION_EXPIRATION => Some(622),
            _ => None,
        }
    }

    /// One slice of the symbol table.
    #[verifier::spinoff_prover]
    #[verifier::rlimit(100)]
    fn from_u32_part8(raw: u32) -> (r: Option<WinErrorWindows>)
        ensures
            r == WinErrorWindows::spec_from_u32_part8(raw),
    {
        match raw {
            573 => Some(WinErrorWindows::ERROR_MISSING_SYSTEMFILE),
            574 => Some(WinErrorWindows::ERROR_UNHANDLED_EXCEPTION),
            575 => Some(WinErrorWindows::ERROR_APP_INIT_FAILURE),
            576 => Some(WinErrorWindows::ERROR_PAGEFILE_CREATE_FAILED),
            577 => Some(WinErrorWindows::ERROR_INVALID_IMAGE_HASH),
            578 => Some(WinErrorWindows::ERROR_NO_PAGEFILE),
            579 => Some(WinErrorWindows::ERROR_ILLEGAL_FLOAT_CONTEXT),
            580 => Some(WinErrorWindows::ERROR_NO_EVENT_PAIR),
            581 => Some(WinErrorWindows::ERROR_DOMAIN_CTRLR_CONFIG_ERROR),
            582 => Some(WinErrorWindows::ERROR_ILLEGAL_CHARACTER),
            583 => Some(WinErrorWindows::ERROR_UNDEFINED_CHARACTER),
            584 => Some(WinErrorWindows::ERROR_FLOPPY_VOLUME),
            585 => Some(WinErrorWindows::ERROR_BIOS_FAILED_TO_CONNECT_INTERRUPT),
            586 => Some(WinErrorWindows::ERROR_BACKUP_CONTROLLER),
            587 => Some(WinErrorWindows::ERROR_MUTANT_LIMIT_EXCEEDED),
            588 => Some(WinErrorWindows::ERROR_FS_DRIVER_REQUIRED),
            589 => Some(WinErrorWindows::ERROR_CANNOT_LOAD_REGISTRY_FILE),
            590 => Some(WinErrorWindows::ERROR_DEBUG_ATTACH_FAILED),
            591 => Some(WinErrorWindows::ERROR_SYSTEM_PROCESS_TERMINATED),
            592 => Some(WinErrorWindows::ERROR_DATA_NOT_ACCEPTED),
            593 => Some(WinErrorWindows::ERROR_VDM_HARD_ERROR),
            594 => Some(WinErrorWindows::ERROR_DRIVER_CANCEL_TIMEOUT),
            595 => Some(WinErrorWindows::ERROR_REPLY_MESSAGE_MISMATCH),
            596 => Some(WinErrorWindows::ERROR_LOST_WRITEBEHIND_DATA),
            597 => Some(WinErrorWindows::ERROR_CLIENT_SERVER_PARAMETERS_INVALID),
            598 => Some(WinErrorWindows::ERROR_NOT_TINY_STREAM),
            599 => Some(WinErrorWindows::ERROR_STACK_OVERFLOW_READ),
            600 => Some(WinErrorWindows::ERROR_CONVERT_TO_LARGE),
            601 => Some(WinErrorWindows::ERROR_FOUND_OUT_OF_SCOPE),
            602 => Some(WinErrorWindows::ERROR_ALLOCATE_BUCKET),
            603 => Some(WinErrorWindows::ERROR_MARSHALL_OVERFLOW),
            604 => Some(WinErrorWindows::ERROR_INVALID_VARIANT),
            605 => Some(WinErrorWindows::ERROR_BAD_COMPRESSION_BUFFER),
            606 => Some(WinErrorWindows::ERROR_AUDIT_FAILED),
            607 => Some(WinErrorWindows::ERROR_TIMER_RESOLUTION_NOT_SET),
            608 => Some(WinErrorWindows::ERROR_INSUFFICIENT_LOGON_INFO),
            609 => Some(WinErrorWindows::ERROR_BAD_DLL_ENTRYPOINT),
            610 => Some(WinErrorWindows::ERROR_BAD_SERVICE_ENTRYPOINT),
            611 => Some(WinErrorWindows::ERROR_IP_ADDRESS_CONFLICT1),
            612 => Some(WinErrorWindows::ERROR_IP_ADDRESS_CONFLICT2),
            613 => Some(WinErrorWindows::ERROR_REGISTRY_QUOTA_LIMIT),
            614 => Some(WinErrorWindows::ERROR_NO_CALLBACK_ACTIVE),
            615 => Some(WinErrorWindows::ERROR_PWD_TOO_SHORT),
            616 => Some(WinErrorWindows::ERROR_PWD_TOO_RECENT),
            617 => Some(WinErrorWindows::ERROR_PWD_HISTORY_CONFLICT),
            618 => Some(WinErrorWindows::ERROR_UNSUPPORTED_COMPRESSION),
            619 => Some(WinErrorWindows::ERROR_INVALID_HW_PROFILE),
            620 => Some(WinErrorWindows::ERROR_INVALID_PLUGPLAY_DEVICE_PATH),
            621 => Some(WinErrorWindows::ERROR_QUOTA_LIST_INCONSISTENT),
            622 => Some(WinErrorWindows::ERROR_EVALUATION_EXPIRATION),
            _ => None,
        }
    }

    /// One slice of the symbol table: the raw value of this symbol,
    /// where this slice holds it.
    pub open spec fn spec_to_u32_part9(self) -> Option<u32> {
        match self {
            WinErrorWindows::ERROR_ILLEGAL_DLL_RELOCATION => Some(623),
            WinErrorWindows::ERROR_DLL_INIT_FAILED_LOGOFF => Some(624),
            WinErrorWindows::ERROR_VALIDATE_CONTINUE => Some(625),
            WinErrorWindows::ERROR_NO_MORE_MATCHES => Some(626),
            WinErrorWindows::ERROR_RANGE_LIST_CONFLICT => Some(627),
            WinErrorWindows::ERROR_SERVER_SID_MISMATCH => Some(628),
            WinErrorWindows::ERROR_CANT_ENABLE_DENY_ONLY => Some(629),
            WinErrorWindows::ERROR_FLOAT_MULTIPLE_FAULTS => Some(630),
            WinErrorWindows::ERROR_FLOAT_MULTIPLE_TRAPS => Some(631),
            WinErrorWindows::ERROR_NOINTERFACE => Some(632),
            WinErrorWindows::ERROR_DRIVER_FAILED_SLEEP => Some(633),
            WinErrorWindows::ERROR_CORRUPT_SYSTEM_FILE => Some(634),
            WinErrorWindows::ERROR_COMMITMENT_MINIMUM => Some(635),
            WinErrorWindows::ERROR_PNP_RESTART_ENUMERATION => Some(636),
            WinErrorWindows::ERROR_SYSTEM_IMAGE_BAD_SIGNATURE => Some(637),
            WinErrorWindows::ERROR_PNP_REBOOT_REQUIRED => Some(638),
            WinErrorWindows::ERROR_INSUFFICIENT_POWER => Some(639),
            WinErrorWindows::ERROR_MULTIPLE_FAULT_VIOLATION => Some(640),
            WinErrorWindows::ERROR_SYSTEM_SHUTDOWN => Some(641),
            WinErrorWindows::ERROR_PORT_NOT_SET => Some(642),
            WinErrorWindows::ERROR_DS_VERSION_CHECK_FAILURE => Some(643),
            WinErrorWindows::ERROR_RANGE_NOT_FOUND => Some(644),
            WinErrorWindows::ERROR_NOT_SAFE_MODE_DRIVER => Some(646),
            WinErrorWindows::ERROR_FAILED_DRIVER_ENTRY => Some(647),
            WinErrorWindows::ERROR_DEVICE_ENUMERATION_ERROR => Some(648),
            WinErrorWindows::ERROR_MOUNT_POINT_NOT_RESOLVED => Some(649),
            WinErrorWindows::ERROR_INVALID_DEVICE_OBJECT_PARAMETER => Some(650),
            WinErrorWindows::ERROR_MCA_OCCURED => Some(651),
            WinErrorWindows::ERROR_DRIVER_DATABASE_ERROR => Some(652),
            WinErrorWindows::ERROR_SYSTEM_HIVE_TOO_LARGE => Some(653),
            WinErrorWindows::ERROR_DRIVER_FAILED_PRIOR_UNLOAD => Some(654),
            WinErrorWindows::ERROR_VOLSNAP_PREPARE_HIBERNATE => Some(655),
            WinErrorWindows::ERROR_HIBERNATION_FAILURE => Some(656),
            WinErrorWindows::ERROR_PWD_TOO_LONG => Some(657),
            WinErrorWindows::ERROR_FILE_SYSTEM_LIMITATION => Some(665),
            WinErrorWindows::ERROR_ASSERTION_FAILURE => Some(668),
            WinErrorWindows::ERROR_ACPI_ERROR => Some(669),
            WinErrorWindows::ERROR_WOW_ASSERTION => Some(670),
            WinErrorWindows::ERROR_PNP_BAD_MPS_TABLE => Some(671),
            WinErrorWindows::ERROR_PNP_TRANSLATION_FAILED => Some(672),
            WinErrorWindows::ERROR_PNP_IRQ_TRANSLATION_FAILED => Some(673),
            WinErrorWindows::ERROR_PNP_INVALID_ID => Some(674),
            WinErrorWindows::ERROR_WAKE_SYSTEM_DEBUGGER => Some(675),
            WinErrorWindows::ERROR_HANDLES_CLOSED => Some(676),
            WinErrorWindows::ERROR_EXTRANEOUS_INFORMATION => Some(677),
            WinErrorWindows::ERROR_RXACT_COMMIT_NECESSARY => Some(678),
            WinErrorWindows::ERROR_MEDIA_CHECK => Some(679),
            WinErrorWindows::ERROR_GUID_SUBSTITUTION_MADE => Some(680),
            WinErrorWindows::ERROR_STOPPED_ON_SYMLINK => Some(681),
            WinErrorWindows::ERROR_LONGJUMP => Some(682),
            _ => None,
        }
    }

    /// One slice of the symbol table: the symbol this slice gives a
    /// raw value, where it holds one.
    pub open spec fn spec_from_u32_part9(raw: u32) -> Option<WinErrorWindows> {
        match raw {
            623 => Some(WinErrorWindows::ERROR_ILLEGAL_DLL_RELOCATION),
            624 => Some(WinErrorWindows::ERROR_DLL_INIT_FAILED_LOGOFF),
            625 => Some(WinErrorWindows::ERROR_VALIDATE_CONTINUE),
            626 => Some(WinErrorWindows::ERROR_NO_MORE_MATCHES),
            627 => Some(WinErrorWindows::ERROR_RANGE_LIST_CONFLICT),
            628 => Some(WinErrorWindows::ERROR_SERVER_SID_MISMATCH),
            629 => Some(WinErrorWindows::ERROR_CANT_ENABLE_DENY_ONLY),
            630 => Some(WinErrorWindows::ERROR_FLOAT_MULTIPLE_FAULTS),
            631 => Some(WinErrorWindows::ERROR_FLOAT_MULTIPLE_TRAPS),
            632 => Some(WinErrorWindows::ERROR_NOINTERFACE),
            633 => Some(WinErrorWindows::ERROR_DRIVER_FAILED_SLEEP),
            634 => Some(WinErrorWindows::ERROR_CORRUPT_SYSTEM_FILE),
            635 => Some(WinErrorWindows::ERROR_COMMITMENT_MINIMUM),
            636 => Some(WinErrorWindows::ERROR_PNP_RESTART_ENUMERATION),
            637 => Some(WinErrorWindows::ERROR_SYSTEM_IMAGE_BAD_SIGNATURE),
            638 => Some(WinErrorWindows::ERROR_PNP_REBOOT_REQUIRED),
            639 => Some(WinErrorWindows::ERROR_INSUFFICIENT_POWER),
            640 => Some(WinErrorWindows::ERROR_MULTIPLE_FAULT_VIOLATION),
            641 => Some(WinErrorWindows::ERROR_SYSTEM_SHUTDOWN),
            642 => Some(WinErrorWindows::ERROR_PORT_NOT_SET),
            643 => Some(WinErrorWindows::ERROR_DS_VERSION_CHECK_FAILURE),
            644 => Some(WinErrorWindows::ERROR_RANGE_NOT_FOUND),
            646 => Some(WinErrorWindows::ERROR_NOT_SAFE_MODE_DRIVER),
            647 => Some(WinErrorWindows::ERROR_FAILED_DRIVER_ENTRY),
            648 => Some(WinErrorWindows::ERROR_DEVICE_ENUMERATION_ERROR),
            649 => Some(WinErrorWindows::ERROR_MOUNT_POINT_NOT_RESOLVED),
            650 => Some(WinErrorWindows::ERROR_INVALID_DEVICE_OBJECT_PARAMETER),
            651 => Some(WinErrorWindows::ERROR_MCA_OCCURED),
            652 => Some(WinErrorWindows::ERROR_DRIVER_DATABASE_ERROR),
            653 => Some(WinErrorWindows::ERROR_SYSTEM_HIVE_TOO_LARGE),
            654 => Some(WinErrorWindows::ERROR_DRIVER_FAILED_PRIOR_UNLOAD),
            655 => Some(WinErrorWindows::ERROR_VOLSNAP_PREPARE_HIBERNATE),
            656 => Some(WinErrorWindows::ERROR_HIBERNATION_FAILURE),
            657 => Some(WinErrorWindows::ERROR_PWD_TOO_LONG),
            665 => Some(WinErrorWindows::ERROR_FILE_SYSTEM_LIMITATION),
            668 => Some(WinErrorWindows::ERROR_ASSERTION_FAILURE),
            669 => Some(WinErrorWindows::ERROR_ACPI_ERROR),
            670 => Some(WinErrorWindows::ERROR_WOW_ASSERTION),
            671 => Some(WinErrorWindows::ERROR_PNP_BAD_MPS_TABLE),
            672 => Some(WinErrorWindows::ERROR_PNP_TRANSLATION_FAILED),
            673 => Some(WinErrorWindows::ERROR_PNP_IRQ_TRANSLATION_FAILED),
            674 => Some(WinErrorWindows::ERROR_PNP_INVALID_ID),
            675 => Some(WinErrorWindows::ERROR_WAKE_SYSTEM_DEBUGGER),
            676 => Some(WinErrorWindows::ERROR_HANDLES_CLOSED),
            677 => Some(WinErrorWindows::ERROR_EXTRANEOUS_INFORMATION),
            678 => Some(WinErrorWindows::ERROR_RXACT_COMMIT_NECESSARY),
            679 => Some(WinErrorWindows::ERROR_MEDIA_CHECK),
            680 => Some(WinErrorWindows::ERROR_GUID_SUBSTITUTION_MADE),
            681 => Some(WinErrorWindows::ERROR_STOPPED_ON_SYMLINK),
            682 => Some(WinErrorWindows::ERROR_LONGJUMP),
            _ => None,
        }
    }

    /// One slice of the symbol table.
    #[verifier::spinoff_prover]
    #[verifier::rlimit(100)]
    fn to_u32_part9(self) -> (r: Option<u32>)
        ensures
            r == self.spec_to_u32_part9(),
    {
        match self {
            WinErrorWindows::ERROR_ILLEGAL_DLL_RELOCATION => Some(623),
            WinErrorWindows::ERROR_DLL_INIT_FAILED_LOGOFF => Some(624),
            WinErrorWindows::ERROR_VALIDATE_CONTINUE => Some(625),
            WinErrorWindows::ERROR_NO_MORE_MATCHES => Some(626),
            WinErrorWindows::ERROR_RANGE_LIST_CONFLICT => Some(627),
            WinErrorWindows::ERROR_SERVER_SID_MISMATCH => Some(628),
            WinErrorWindows::ERROR_CANT_ENABLE_DENY_ONLY => Some(629),
            WinErrorWindows::ERROR_FLOAT_MULTIPLE_FAULTS => Some(630),
            WinErrorWindows::ERROR_FLOAT_MULTIPLE_TRAPS => Some(631),
            WinErrorWindows::ERROR_NOINTERFACE => Some(632),
            WinErrorWindows::ERROR_DRIVER_FAILED_SLEEP => Some(633),
            WinErrorWindows::ERROR_CORRUPT_SYSTEM_FILE => Some(634),
            WinErrorWindows::ERROR_COMMITMENT_MINIMUM => Some(635),
            WinErrorWindows::ERROR_PNP_RESTART_ENUMERATION => Some(636),
            WinErrorWindows::ERROR_SYSTEM_IMAGE_BAD_SIGNATURE => Some(637),
            WinErrorWindows::ERROR_PNP_REBOOT_REQUIRED => Some(638),
            WinErrorWindows::ERROR_INSUFFICIENT_POWER => Some(639),
            WinErrorWindows::ERROR_MULTIPLE_FAULT_VIOLATION => Some(640),
            WinErrorWindows::ERROR_SYSTEM_SHUTDOWN => Some(641),
            WinErrorWindows::ERROR_PORT_NOT_SET => Some(642),
            WinErrorWindows::ERROR_DS_VERSION_CHECK_FAILURE => Some(643),
            WinErrorWindows::ERROR_RANGE_NOT_FOUND => Some(644),
            WinErrorWindows::ERROR_NOT_SAFE_MODE_DRIVER => Some(646),
            WinErrorWindows::ERROR_FAILED_DRIVER_ENTRY => Some(647),
            WinErrorWindows::ERROR_DEVICE_ENUMERATION_ERROR => Some(648),
            WinErrorWindows::ERROR_MOUNT_POINT_NOT_RESOLVED => Some(649),
            WinErrorWindows::ERROR_INVALID_DEVICE_OBJECT_PARAMETER => Some(650),
            WinErrorWindows::ERROR_MCA_OCCURED => Some(651),
            WinErrorWindows::ERROR_DRIVER_DATABASE_ERROR => Some(652),
            WinErrorWindows::ERROR_SYSTEM_HIVE_TOO_LARGE => Some(653),
            WinErrorWindows::ERROR_DRIVER_FAILED_PRIOR_UNLOAD => Some(654),
            WinErrorWindows::ERROR_VOLSNAP_PREPARE_HIBERNATE => Some(655),
            WinErrorWindows::ERROR_HIBERNATION_FAILURE => Some(656),
            WinErrorWindows::ERROR_PWD_TOO_LONG => Some(657),
            WinErrorWindows::ERROR_FILE_SYSTEM_LIMITATION => Some(665),
            WinErrorWindows::ERROR_ASSERTION_FAILURE => Some(668),
            WinErrorWindows::ERROR_ACPI_ERROR => Some(669),
            WinErrorWindows::ERROR_WOW_ASSERTION => Some(670),
            WinErrorWindows::ERROR_PNP_BAD_MPS_TABLE => Some(671),
            WinErrorWindows::ERROR_PNP_TRANSLATION_FAILED => Some(672),
            WinErrorWindows::ERROR_PNP_IRQ_TRANSLATION_FAILED => Some(673),
            WinErrorWindows::ERROR_PNP_INVALID_ID => Some(674),
            WinErrorWindows::ERROR_WAKE_SYSTEM_DEBUGGER => Some(675),
            WinErrorWindows::ERROR_HANDLES_CLOSED => Some(676),
            WinErrorWindows::ERROR_EXTRANEOUS_INFORMATION => Some(677),
            WinErrorWindows::ERROR_RXACT_COMMIT_NECESSARY => Some(678),
            WinErrorWindows::ERROR_MEDIA_CHECK => Some(679),
            WinErrorWindows::ERROR_GUID_SUBSTITUTION_MADE => Some(680),
            WinErrorWindows::ERROR_STOPPED_ON_SYMLINK => Some(681),
            WinErrorWindows::ERROR_LONGJUMP => Some(682),
            _ => None,
        }
    }

    /// One slice of the symbol table.
    #[verifier::spinoff_prover]
    #[verifier::rlimit(100)]
    fn from_u32_part9(raw: u32) -> (r: Option<WinErrorWindows>)
        ensures
            r == WinErrorWindows::spec_from_u32_part9(raw),
    {
        match raw {
            623 => Some(WinErrorWindows::ERROR_ILLEGAL_DLL_RELOCATION),
            624 => Some(WinErrorWindows::ERROR_DLL_INIT_FAILED_LOGOFF),
            625 => Some(WinErrorWindows::ERROR_VALIDATE_CONTINUE),
            626 => Some(WinErrorWindows::ERROR_NO_MORE_MATCHES),
            627 => Some(WinErrorWindows::ERROR_RANGE_LIST_CONFLICT),
            628 => Some(WinErrorWindows::ERROR_SERVER_SID_MISMATCH),
            629 => Some(WinErrorWindows::ERROR_CANT_ENABLE_DENY_ONLY),
            630 => Some(WinErrorWindows::ERROR_FLOAT_MULTIPLE_FAULTS),
            631 => Some(WinErrorWindows::ERROR_FLOAT_MULTIPLE_TRAPS),
            632 => Some(WinErrorWindows::ERROR_NOINTERFACE),
            633 => Some(WinErrorWindows::ERROR_DRIVER_FAILED_SLEEP),
            634 => Some(WinErrorWindows::ERROR_CORRUPT_SYSTEM_FILE),
            635 => Some(WinErrorWindows::ERROR_COMMITMENT_MINIMUM),
            636 => Some(WinErrorWindows::ERROR_PNP_RESTART_ENUMERATION),
            637 => Some(WinErrorWindows::ERROR_SYSTEM_IMAGE_BAD_SIGNATURE),
            638 => Some(WinErrorWindows::ERROR_PNP_REBOOT_REQUIRED),
            639 => Some(WinErrorWindows::ERROR_INSUFFICIENT_POWER),
            640 => Some(WinErrorWindows::ERROR_MULTIPLE_FAULT_VIOLATION),
            641 => Some(WinErrorWindows::ERROR_SYSTEM_SHUTDOWN),
            642 => Some(WinErrorWindows::ERROR_PORT_NOT_SET),
            643 => Some(WinErrorWindows::ERROR_DS_VERSION_CHECK_FAILURE),
            644 => Some(WinErrorWindows::ERROR_RANGE_NOT_FOUND),
            646 => Some(WinErrorWindows::ERROR_NOT_SAFE_MODE_DRIVER),
            647 => Some(WinErrorWindows::ERROR_FAILED_DRIVER_ENTRY),
            648 => Some(WinErrorWindows::ERROR_DEVICE_ENUMERATION_ERROR),
            649 => Some(WinErrorWindows::ERROR_MOUNT_POINT_NOT_RESOLVED),
            650 => Some(WinErrorWindows::ERROR_INVALID_DEVICE_OBJECT_PARAMETER),
            651 => Some(WinErrorWindows::ERROR_MCA_OCCURED),
            652 => Some(WinErrorWindows::ERROR_DRIVER_DATABASE_ERROR),
            653 => Some(WinErrorWindows::ERROR_SYSTEM_HIVE_TOO_LARGE),
            654 => Some(WinErrorWindows::ERROR_DRIVER_FAILED_PRIOR_UNLOAD),
            655 => Some(WinErrorWindows::ERROR_VOLSNAP_PREPARE_HIBERNATE),
            656 => Some(WinErrorWindows::ERROR_HIBERNATION_FAILURE),
            657 => Some(WinErrorWindows::ERROR_PWD_TOO_LONG),
            665 => Some(WinErrorWindows::ERROR_FILE_SYSTEM_LIMITATION),
            668 => Some(WinErrorWindows::ERROR_ASSERTION_FAILURE),
            669 => Some(WinErrorWindows::ERROR_ACPI_ERROR),
            670 => Some(WinErrorWindows::ERROR_WOW_ASSERTION),
            671 => Some(WinErrorWindows::ERROR_PNP_BAD_MPS_TABLE),
            672 => Some(WinErrorWindows::ERROR_PNP_TRANSLATION_FAILED),
            673 => Some(WinErrorWindows::ERROR_PNP_IRQ_TRANSLATION_FAILED),
            674 => Some(WinErrorWindows::ERROR_PNP_INVALID_ID),
            675 => Some(WinErrorWindows::ERROR_WAKE_SYSTEM_DEBUGGER),
            676 => Some(WinErrorWindows::ERROR_HANDLES_CLOSED),
            677 => Some(WinErrorWindows::ERROR_EXTRANEOUS_INFORMATION),
            678 => Some(WinErrorWindows::ERROR_RXACT_COMMIT_NECESSARY),
            679 => Some(WinErrorWindows::ERROR_MEDIA_CHECK),
            680 => Some(WinErrorWindows::ERROR_GUID_SUBSTITUTION_MADE),
            681 => Some(WinErrorWindows::ERROR_STOPPED_ON_SYMLINK),
            682 => Some(WinErrorWindows::ERROR_LONGJUMP),
            _ => None,
        }
    }

    /// One slice of the symbol table: the raw value of this symbol,
    /// where this slice holds it.
    pub open spec fn spec_to_u32_part10(self) -> Option<u32> {
        match self {
            WinErrorWindows::ERROR_PLUGPLAY_QUERY_VETOED => Some(683),
            WinErrorWindows::ERROR_UNWIND_CONSOLIDATE => Some(684),
            WinErrorWindows::ERROR_REGISTRY_HIVE_RECOVERED => Some(685),
            WinErrorWindows::ERROR_DLL_MIGHT_BE_INSECURE => Some(686),
            WinErrorWindows::ERROR_DLL_MIGHT_BE_INCOMPATIBLE => Some(687),
            WinErrorWindows::ERROR_DBG_EXCEPTION_NOT_HANDLED => Some(688),
            WinErrorWindows::ERROR_DBG_REPLY_LATER => Some(689),
            WinErrorWindows::ERROR_DBG_UNABLE_TO_PROVIDE_HANDLE => Some(690),
            WinErrorWindows::ERROR_DBG_TERMINATE_THREAD => Some(691),
            WinErrorWindows::ERROR_DBG_TERMINATE_PROCESS => Some(692),
            WinErrorWindows::ERROR_DBG_CONTROL_C => Some(693),
            WinErrorWindows::ERROR_DBG_PRINTEXCEPTION_C => Some(694),
            WinErrorWindows::ERROR_DBG_RIPEXCEPTION => Some(695),
            WinErrorWindows::ERROR_DBG_CONTROL_BREAK => Some(696),
            WinErrorWindows::ERROR_DBG_COMMAND_EXCEPTION => Some(697),
            WinErrorWindows::ERROR_OBJECT_NAME_EXISTS => Some(698),
            WinErrorWindows::ERROR_THREAD_WAS_SUSPENDED => Some(699),
            WinErrorWindows::ERROR_IMAGE_NOT_AT_BASE => Some(700),
            WinErrorWindows::ERROR_RXACT_STATE_CREATED => Some(701),
            WinErrorWindows::ERROR_SEGMENT_NOTIFICATION => Some(702),
            WinErrorWindows::ERROR_BAD_CURRENT_DIRECTORY => Some(703),
            WinErrorWindows::ERROR_FT_READ_RECOVERY_FROM_BACKUP => Some(704),
            WinErrorWindows::ERROR_FT_WRITE_RECOVERY => Some(705),
            WinErrorWindows::ERROR_IMAGE_MACHINE_TYPE_MISMATCH => Some(706),
            WinErrorWindows::ERROR_RECEIVE_PARTIAL => Some(707),
            WinErrorWindows::ERROR_RECEIVE_EXPEDITED => Some(708),
            WinErrorWindows::ERROR_RECEIVE_PARTIAL_EXPEDITED => Some(709),
            WinErrorWindows::ERROR_EVENT_DONE => Some(710),
            WinErrorWindows::ERROR_EVENT_PENDING => Some(711),
            WinErrorWindows::ERROR_CHECKING_FILE_SYSTEM => Some(712),
            WinErrorWindows::ERROR_FATAL_APP_EXIT => Some(713),
            WinErrorWindows::ERROR_PREDEFINED_HANDLE => Some(714),
            WinErrorWindows::ERROR_WAS_UNLOCKED => Some(715),
            WinErrorWindows::ERROR_SERVICE_NOTIFICATION => Some(716),
            WinErrorWindows::ERROR_WAS_LOCKED => Some(717),
            WinErrorWindows::ERROR_LOG_HARD_ERROR => Some(718),
            WinErrorWindows::ERROR_ALREADY_WIN32 => Some(719),
            WinErrorWindows::ERROR_IMAGE_MACHINE_TYPE_MISMATCH_EXE => Some(720),
            WinErrorWindows::ERROR_NO_YIELD_PERFORMED => Some(721),
            WinErrorWindows::ERROR_TIMER_RESUME_IGNORED => Some(722),
            WinErrorWindows::ERROR_ARBITRATION_UNHANDLED => Some(723),
            WinErrorWindows::ERROR_CARDBUS_NOT_SUPPORTED => Some(724),
            WinErrorWindows::ERROR_MP_PROCESSOR_MISMATCH => Some(725),
            WinErrorWindows::ERROR_HIBERNATED => Some(726),
            WinErrorWindows::ERROR_RESUME_HIBERNATION => Some(727),
            WinErrorWindows::ERROR_FIRMWARE_UPDATED => Some(728),
            WinErrorWindows::ERROR_DRIVERS_LEAKING_LOCKED_PAGES => Some(729),
            WinErrorWindows::ERROR_WAKE_SYSTEM => Some(730),
            WinErrorWindows::ERROR_WAIT_1 => Some(731),
            WinErrorWindows::ERROR_WAIT_2 => Some(732),
            _ => None,
        }
    }

    /// One slice of the symbol table: the symbol this slice gives a
    /// raw value, where it holds one.
    pub open spec fn spec_from_u32_part10(raw: u32) -> Option<WinErrorWindows> {
        match raw {
            683 => Some(WinErrorWindows::ERROR_PLUGPLAY_QUERY_VETOED),
            684 => Some(WinErrorWindows::ERROR_UNWIND_CONSOLIDATE),
            685 => Some(WinErrorWindows::ERROR_REGISTRY_HIVE_RECOVERED),
            686 => Some(WinErrorWindows::ERROR_DLL_MIGHT_BE_INSECURE),
            687 => Some(WinErrorWindows::ERROR_DLL_MIGHT_BE_INCOMPATIBLE),
            688 => Some(WinErrorWindows::ERROR_DBG_EXCEPTION_NOT_HANDLED),
            689 => Some(WinErrorWindows::ERROR_DBG_REPLY_LATER),
            690 => Some(WinErrorWindows::ERROR_DBG_UNABLE_TO_PROVIDE_HANDLE),
            691 => Some(WinErrorWindows::ERROR_DBG_TERMINATE_THREAD),
            692 => Some(WinErrorWindows::ERROR_DBG_TERMINATE_PROCESS),
            693 => Some(WinErrorWindows::ERROR_DBG_CONTROL_C),
            694 => Some(WinErrorWindows::ERROR_DBG_PRINTEXCEPTION_C),
            695 => Some(WinErrorWindows::ERROR_DBG_RIPEXCEPTION),
            696 => Some(WinErrorWindows::ERROR_DBG_CONTROL_BREAK),
            697 => Some(WinErrorWindows::ERROR_DBG_COMMAND_EXCEPTION),
            698 => Some(WinErrorWindows::ERROR_OBJECT_NAME_EXISTS),
            699 => Some(WinErrorWindows::ERROR_THREAD_WAS_SUSPENDED),
            700 => Some(WinErrorWindows::ERROR_IMAGE_NOT_AT_BASE),
            701 => Some(WinErrorWindows::ERROR_RXACT_STATE_CREATED),
            702 => Some(WinErrorWindows::ERROR_SEGMENT_NOTIFICATION),
            703 => Some(WinErrorWindows::ERROR_BAD_CURRENT_DIRECTORY),
            704 => Some(WinErrorWindows::ERROR_FT_READ_RECOVERY_FROM_BACKUP),
            705 => Some(WinErrorWindows::ERROR_FT_WRITE_RECOVERY),
            706 => Some(WinErrorWindows::ERROR_IMAGE_MACHINE_TYPE_MISMATCH),
            707 => Some(WinErrorWindows::ERROR_RECEIVE_PARTIAL),
            708 => Some(WinErrorWindows::ERROR_RECEIVE_EXPEDITED),
            709 => Some(WinErrorWindows::ERROR_RECEIVE_PARTIAL_EXPEDITED),
            710 => Some(WinErrorWindows::ERROR_EVENT_DONE),
            711 => Some(WinErrorWindows::ERROR_EVENT_PENDING),
            712 => Some(WinErrorWindows::ERROR_CHECKING_FILE_SYSTEM),
            713 => Some(WinErrorWindows::ERROR_FATAL_APP_EXIT),
            714 => Some(WinErrorWindows::ERROR_PREDEFINED_HANDLE),
            715 => Some(WinErrorWindows::ERROR_WAS_UNLOCKED),
            716 => Some(WinErrorWindows::ERROR_SERVICE_NOTIFICATION),
            717 => Some(WinErrorWindows::ERROR_WAS_LOCKED),
            718 => Some(WinErrorWindows::ERROR_LOG_HARD_ERROR),
            719 => Some(WinErrorWindows::ERROR_ALREADY_WIN32),
            720 => Some(WinErrorWindows::ERROR_IMAGE_MACHINE_TYPE_MISMATCH_EXE),
            721 => Some(WinErrorWindows::ERROR_NO_YIELD_PERFORMED),
            722 => Some(WinErrorWindows::ERROR_TIMER_RESUME_IGNORED),
            723 => Some(WinErrorWindows::ERROR_ARBITRATION_UNHANDLED),
            724 => Some(WinErrorWindows::ERROR_CARDBUS_NOT_SUPPORTED),
            725 => Some(WinErrorWindows::ERROR_MP_PROCESSOR_MISMATCH),
            726 => Some(WinErrorWindows::ERROR_HIBERNATED),
            727 => Some(WinErrorWindows::ERROR_RESUME_HIBERNATION),
            728 => Some(WinErrorWindows::ERROR_FIRMWARE_UPDATED),
            729 => Some(WinErrorWindows::ERROR_DRIVERS_LEAKING_LOCKED_PAGES),
            730 => Some(WinErrorWindows::ERROR_WAKE_SYSTEM),
            731 => Some(WinErrorWindows::ERROR_WAIT_1),
            732 => Some(WinErrorWindows::ERROR_WAIT_2),
            _ => None,
        }
    }

    /// One slice of the symbol table.
    #[verifier::spinoff_prover]
    #[verifier::rlimit(100)]
    fn to_u32_part10(self) -> (r: Option<u32>)
        ensures
            r == self.spec_to_u32_part10(),
    {
        match self {
            WinErrorWindows::ERROR_PLUGPLAY_QUERY_VETOED => Some(683),
            WinErrorWindows::ERROR_UNWIND_CONSOLIDATE => Some(684),
            WinErrorWindows::ERROR_REGISTRY_HIVE_RECOVERED => Some(685),
            WinErrorWindows::ERROR_DLL_MIGHT_BE_INSECURE => Some(686),
            WinErrorWindows::ERROR_DLL_MIGHT_BE_INCOMPATIBLE => Some(687),
            WinErrorWindows::ERROR_DBG_EXCEPTION_NOT_HANDLED => Some(688),
            WinErrorWindows::ERROR_DBG_REPLY_LATER => Some(689),
            WinErrorWindows::ERROR_DBG_UNABLE_TO_PROVIDE_HANDLE => Some(690),
            WinErrorWindows::ERROR_DBG_TERMINATE_THREAD => Some(691),
            WinErrorWindows::ERROR_DBG_TERMINATE_PROCESS => Some(692),
            WinErrorWindows::ERROR_DBG_CONTROL_C => Some(693),
            WinErrorWindows::ERROR_DBG_PRINTEXCEPTION_C => Some(694),
            WinErrorWindows::ERROR_DBG_RIPEXCEPTION => Some(695),
            WinErrorWindows::ERROR_DBG_CONTROL_BREAK => Some(696),
            WinErrorWindows::ERROR_DBG_COMMAND_EXCEPTION => Some(697),
            WinErrorWindows::ERROR_OBJECT_NAME_EXISTS => Some(698),
            WinErrorWindows::ERROR_THREAD_WAS_SUSPENDED => Some(699),
            WinErrorWindows::ERROR_IMAGE_NOT_AT_BASE => Some(700),
            WinErrorWindows::ERROR_RXACT_STATE_CREATED => Some(701),
            WinErrorWindows::ERROR_SEGMENT_NOTIFICATION => Some(702),
            WinErrorWindows::ERROR_BAD_CURRENT_DIRECTORY => Some(703),
            WinErrorWindows::ERROR_FT_READ_RECOVERY_FROM_BACKUP => Some(704),
            WinErrorWindows::ERROR_FT_WRITE_RECOVERY => Some(705),
            WinErrorWindows::ERROR_IMAGE_MACHINE_TYPE_MISMATCH => Some(706),
            WinErrorWindows::ERROR_RECEIVE_PARTIAL => Some(707),
            WinErrorWindows::ERROR_RECEIVE_EXPEDITED => Some(708),
            WinErrorWindows::ERROR_RECEIVE_PARTIAL_EXPEDITED => Some(709),
            WinErrorWindows::ERROR_EVENT_DONE => Some(710),
            WinErrorWindows::ERROR_EVENT_PENDING => Some(711),
            WinErrorWindows::ERROR_CHECKING_FILE_SYSTEM => Some(712),
            WinErrorWindows::ERROR_FATAL_APP_EXIT => Some(713),
            WinErrorWindows::ERROR_PREDEFINED_HANDLE => Some(714),
            WinErrorWindows::ERROR_WAS_UNLOCKED => Some(715),
            WinErrorWindows::ERROR_SERVICE_NOTIFICATION => Some(716),
            WinErrorWindows::ERROR_WAS_LOCKED => Some(717),
            WinErrorWindows::ERROR_LOG_HARD_ERROR => Some(718),
            WinErrorWindows::ERROR_ALREADY_WIN32 => Some(719),
            WinErrorWindows::ERROR_IMAGE_MACHINE_TYPE_MISMATCH_EXE => Some(720),
            WinErrorWindows::ERROR_NO_YIELD_PERFORMED => Some(721),
            WinErrorWindows::ERROR_TIMER_RESUME_IGNORED => Some(722),
            WinErrorWindows::ERROR_ARBITRATION_UNHANDLED => Some(723),
            WinErrorWindows::ERROR_CARDBUS_NOT_SUPPORTED => Some(724),
            WinErrorWindows::ERROR_MP_PROCESSOR_MISMATCH => Some(725),
            WinErrorWindows::ERROR_HIBERNATED => Some(726),
            WinErrorWindows::ERROR_RESUME_HIBERNATION => Some(727),
            WinErrorWindows::ERROR_FIRMWARE_UPDATED => Some(728),
            WinErrorWindows::ERROR_DRIVERS_LEAKING_LOCKED_PAGES => Some(729),
            WinErrorWindows::ERROR_WAKE_SYSTEM => Some(730),
            WinErrorWindows::ERROR_WAIT_1 => Some(731),
            WinErrorWindows::ERROR_WAIT_2 => Some(732),
            _ => None,
        }
    }

    /// One slice of the symbol table.
    #[verifier::spinoff_prover]
    #[verifier::rlimit(100)]
    fn from_u32_part10(raw: u32) -> (r: Option<WinErrorWindows>)
        ensures
            r == WinErrorWindows::spec_from_u32_part10(raw),
    {
        match raw {
            683 => Some(WinErrorWindows::ERROR_PLUGPLAY_QUERY_VETOED),
            684 => Some(WinErrorWindows::ERROR_UNWIND_CONSOLIDATE),
            685 => Some(WinErrorWindows::ERROR_REGISTRY_HIVE_RECOVERED),
            686 => Some(WinErrorWindows::ERROR_DLL_MIGHT_BE_INSECURE),
            687 => Some(WinErrorWindows::ERROR_DLL_MIGHT_BE_INCOMPATIBLE),
            688 => Some(WinErrorWindows::ERROR_DBG_EXCEPTION_NOT_HANDLED),
            689 => Some(WinErrorWindows::ERROR_DBG_REPLY_LATER),
            690 => Some(WinErrorWindows::ERROR_DBG_UNABLE_TO_PROVIDE_HANDLE),
            691 => Some(WinErrorWindows::ERROR_DBG_TERMINATE_THREAD),
            692 => Some(WinErrorWindows::ERROR_DBG_TERMINATE_PROCESS),
            693 => Some(WinErrorWindows::ERROR_DBG_CONTROL_C),
            694 => Some(WinErrorWindows::ERROR_DBG_PRINTEXCEPTION_C),
            695 => Some(WinErrorWindows::ERROR_DBG_RIPEXCEPTION),
            696 => Some(WinErrorWindows::ERROR_DBG_CONTROL_BREAK),
            697 => Some(WinErrorWindows::ERROR_DBG_COMMAND_EXCEPTION),
            698 => Some(WinErrorWindows::ERROR_OBJECT_NAME_EXISTS),
            699 => Some(WinErrorWindows::ERROR_THREAD_WAS_SUSPENDED),
            700 => Some(WinErrorWindows::ERROR_IMAGE_NOT_AT_BASE),
            701 => Some(WinErrorWindows::ERROR_RXACT_STATE_CREATED),
            702 => Some(WinErrorWindows::ERROR_SEGMENT_NOTIFICATION),
            703 => Some(WinErrorWindows::ERROR_BAD_CURRENT_DIRECTORY),
            704 => Some(WinErrorWindows::ERROR_FT_READ_RECOVERY_FROM_BACKUP),
            705 => Some(WinErrorWindows::ERROR_FT_WRITE_RECOVERY),
            706 => Some(WinErrorWindows::ERROR_IMAGE_MACHINE_TYPE_MISMATCH),
            707 => Some(WinErrorWindows::ERROR_RECEIVE_PARTIAL),
            708 => Some(WinErrorWindows::ERROR_RECEIVE_EXPEDITED),
            709 => Some(WinErrorWindows::ERROR_RECEIVE_PARTIAL_EXPEDITED),
            710 => Some(WinErrorWindows::ERROR_EVENT_DONE),
            711 => Some(WinErrorWindows::ERROR_EVENT_PENDING),
            712 => Some(WinErrorWindows::ERROR_CHECKING_FILE_SYSTEM),
            713 => Some(WinErrorWindows::ERROR_FATAL_APP_EXIT),
            714 => Some(WinErrorWindows::ERROR_PREDEFINED_HANDLE),
            715 => Some(WinErrorWindows::ERROR_WAS_UNLOCKED),
            716 => Some(WinErrorWindows::ERROR_SERVICE_NOTIFICATION),
            717 => Some(WinErrorWindows::ERROR_WAS_LOCKED),
            718 => Some(WinErrorWindows::ERROR_LOG_HARD_ERROR),
            719 => Some(WinErrorWindows::ERROR_ALREADY_WIN32),
            720 => Some(WinErrorWindows::ERROR_IMAGE_MACHINE_TYPE_MISMATCH_EXE),
            721 => Some(WinErrorWindows::ERROR_NO_YIELD_PERFORMED),
            722 => Some(WinErrorWindows::ERROR_TIMER_RESUME_IGNORED),
            723 => Some(WinErrorWindows::ERROR_ARBITRATION_UNHANDLED),
            724 => Some(WinErrorWindows::ERROR_CARDBUS_NOT_SUPPORTED),
            725 => Some(WinErrorWindows::ERROR_MP_PROCESSOR_MISMATCH),
            726 => Some(WinErrorWindows::ERROR_HIBERNATED),
            727 => Some(WinErrorWindows::ERROR_RESUME_HIBERNATION),
            728 => Some(WinErrorWindows::ERROR_FIRMWARE_UPDATED),
            729 => Some(WinErrorWindows::ERROR_DRIVERS_LEAKING_LOCKED_PAGES),
            730 => Some(WinErrorWindows::ERROR_WAKE_SYSTEM),
            731 => Some(WinErrorWindows::ERROR_WAIT_1),
            732 => Some(WinErrorWindows::ERROR_WAIT_2),
            _ => None,
        }
    }

    /// One slice of the symbol table: the raw value of this symbol,
    /// where this slice holds it.
    pub open spec fn spec_to_u32_part11(self) -> Option<u32> {
        match self {
            WinErrorWindows::ERROR_WAIT_3 => Some(733),
            WinErrorWindows::ERROR_WAIT_63 => Some(734),
            WinErrorWindows::ERROR_ABANDONED_WAIT_0 => Some(735),
            WinErrorWindows::ERROR_ABANDONED_WAIT_63 => Some(736),
            WinErrorWindows::ERROR_USER_APC => Some(737),
            WinErrorWindows::ERROR_KERNEL_APC => Some(738),
            WinErrorWindows::ERROR_ALERTED => Some(739),
            WinErrorWindows::ERROR_ELEVATION_REQUIRED => Some(740),
            WinErrorWindows::ERROR_REPARSE => Some(741),
            WinErrorWindows::ERROR_OPLOCK_BREAK_IN_PROGRESS => Some(742),
            WinErrorWindows::ERROR_VOLUME_MOUNTED => Some(743),
            WinErrorWindows::ERROR_RXACT_COMMITTED => Some(744),
            WinErrorWindows::ERROR_NOTIFY_CLEANUP => Some(745),
            WinErrorWindows::ERROR_PRIMARY_TRANSPORT_CONNECT_FAILED => Some(746),
            WinErrorWindows::ERROR_PAGE_FAULT_TRANSITION => Some(747),
            WinErrorWindows::ERROR_PAGE_FAULT_DEMAND_ZERO => Some(748),
            WinErrorWindows::ERROR_PAGE_FAULT_COPY_ON_WRITE => Some(749),
            WinErrorWindows::ERROR_PAGE_FAULT_GUARD_PAGE => Some(750),
            WinErrorWindows::ERROR_PAGE_FAULT_PAGING_FILE => Some(751),
            WinErrorWindows::ERROR_CACHE_PAGE_LOCKED => Some(752),
            WinErrorWindows::ERROR_CRASH_DUMP => Some(753),
            WinErrorWindows::ERROR_BUFFER_ALL_ZEROS => Some(754),
            WinErrorWindows::ERROR_REPARSE_OBJECT => Some(755),
            WinErrorWindows::ERROR_RESOURCE_REQUIREMENTS_CHANGED => Some(756),
            WinErrorWindows::ERROR_TRANSLATION_COMPLETE => Some(757),
            WinErrorWindows::ERROR_NOTHING_TO_TERMINATE => Some(758),
            WinErrorWindows::ERROR_PROCESS_NOT_IN_JOB => Some(759),
            WinErrorWindows::ERROR_PROCESS_IN_JOB => Some(760),
            WinErrorWindows::ERROR_VOLSNAP_HIBERNATE_READY => Some(761),
            WinErrorWindows::ERROR_FSFILTER_OP_COMPLETED_SUCCESSFULLY => Some(762),
            WinErrorWindows::ERROR_INTERRUPT_VECTOR_ALREADY_CONNECTED => Some(763),
            WinErrorWindows::ERROR_INTERRUPT_STILL_CONNECTED => Some(764),
            WinErrorWindows::ERROR_WAIT_FOR_OPLOCK => Some(765),
            WinErrorWindows::ERROR_DBG_EXCEPTION_HANDLED => Some(766),
            WinErrorWindows::ERROR_DBG_CONTINUE => Some(767),
            WinErrorWindows::ERROR_CALLBACK_POP_STACK => Some(768),
            WinErrorWindows::ERROR_COMPRESSION_DISABLED => Some(769),
            WinErrorWindows::ERROR_CANTFETCHBACKWARDS => Some(770),
            WinErrorWindows::ERROR_CANTSCROLLBACKWARDS => Some(771),
            WinErrorWindows::ERROR_ROWSNOTRELEASED => Some(772),
            WinErrorWindows::ERROR_BAD_ACCESSOR_FLAGS => Some(773),
            WinErrorWindows::ERROR_ERRORS_ENCOUNTERED => Some(774),
            WinErrorWindows::ERROR_NOT_CAPABLE => Some(775),
            WinErrorWindows::ERROR_REQUEST_OUT_OF_SEQUENCE => Some(776),
            WinErrorWindows::ERROR_VERSION_PARSE_ERROR => Some(777),
            WinErrorWindows::ERROR_BADSTARTPOSITION => Some(778),
            WinErrorWindows::ERROR_MEMORY_HARDWARE => Some(779),
            WinErrorWindows::ERROR_DISK_REPAIR_DISABLED => Some(780),
            WinErrorWindows::ERROR_INSUFFICIENT_RESOURCE_FOR_SPECIFIED_SHARED_SECTION_SIZE => Some(781),
            WinErrorWindows::ERROR_SYSTEM_POWERSTATE_TRANSITION => Some(782),
            _ => None,
        }
    }

    /// One slice of the symbol table: the symbol this slice gives a
    /// raw value, where it holds one.
    pub open spec fn spec_from_u32_part11(raw: u32) -> Option<WinErrorWindows> {
        match raw {
            733 => Some(WinErrorWindows::ERROR_WAIT_3),
            734 => Some(WinErrorWindows::ERROR_WAIT_63),
            735 => Some(WinErrorWindows::ERROR_ABANDONED_WAIT_0),
            736 => Some(WinErrorWindows::ERROR_ABANDONED_WAIT_63),
            737 => Some(WinErrorWindows::ERROR_USER_APC),
            738 => Some(WinErrorWindows::ERROR_KERNEL_APC),
            739 => Some(WinErrorWindows::ERROR_ALERTED),
            740 => Some(WinErrorWindows::ERROR_ELEVATION_REQUIRED),
            741 => Some(WinErrorWindows::ERROR_REPARSE),
            742 => Some(WinErrorWindows::ERROR_OPLOCK_BREAK_IN_PROGRESS),
            743 => Some(WinErrorWindows::ERROR_VOLUME_MOUNTED),
            744 => Some(WinErrorWindows::ERROR_RXACT_COMMITTED),
            745 => Some(WinErrorWindows::ERROR_NOTIFY_CLEANUP),
            746 => Some(WinErrorWindows::ERROR_PRIMARY_TRANSPORT_CONNECT_FAILED),
            747 => Some(WinErrorWindows::ERROR_PAGE_FAULT_TRANSITION),
            748 => Some(WinErrorWindows::ERROR_PAGE_FAULT_DEMAND_ZERO),
            749 => Some(WinErrorWindows::ERROR_PAGE_FAULT_COPY_ON_WRITE),
            750 => Some(WinErrorWindows::ERROR_PAGE_FAULT_GUARD_PAGE),
            751 => Some(WinErrorWindows::ERROR_PAGE_FAULT_PAGING_FILE),
            752 => Some(WinErrorWindows::ERROR_CACHE_PAGE_LOCKED),
            753 => Some(WinErrorWindows::ERROR_CRASH_DUMP),
            754 => Some(WinErrorWindows::ERROR_BUFFER_ALL_ZEROS),
            755 => Some(WinErrorWindows::ERROR_REPARSE_OBJECT),
            756 => Some(WinErrorWindows::ERROR_RESOURCE_REQUIREMENTS_CHANGED),
            757 => Some(WinErrorWindows::ERROR_TRANSLATION_COMPLETE),
            758 => Some(WinErrorWindows::ERROR_NOTHING_TO_TERMINATE),
            759 => Some(WinErrorWindows::ERROR_PROCESS_NOT_IN_JOB),
            760 => Some(WinErrorWindows::ERROR_PROCESS_IN_JOB),
            761 => Some(WinErrorWindows::ERROR_VOLSNAP_HIBERNATE_READY),
            762 => Some(WinErrorWindows::ERROR_FSFILTER_OP_COMPLETED_SUCCESSFULLY),
            763 => Some(WinErrorWindows::ERROR_INTERRUPT_VECTOR_ALREADY_CONNECTED),
            764 => Some(WinErrorWindows::ERROR_INTERRUPT_STILL_CONNECTED),
            765 => Some(WinErrorWindows::ERROR_WAIT_FOR_OPLOCK),
            766 => Some(WinErrorWindows::ERROR_DBG_EXCEPTION_HANDLED),
            767 => Some(WinErrorWindows::ERROR_DBG_CONTINUE),
            768 => Some(WinErrorWindows::ERROR_CALLBACK_POP_STACK),
            769 => Some(WinErrorWindows::ERROR_COMPRESSION_DISABLED),
            770 => Some(WinErrorWindows::ERROR_CANTFETCHBACKWARDS),
            771 => Some(WinErrorWindows::ERROR_CANTSCROLLBACKWARDS),
            772 => Some(WinErrorWindows::ERROR_ROWSNOTRELEASED),
            773 => Some(WinErrorWindows::ERROR_BAD_ACCESSOR_FLAGS),
            774 => Some(WinErrorWindows::ERROR_ERRORS_ENCOUNTERED),
            775 => Some(WinErrorWindows::ERROR_NOT_CAPABLE),
            776 => Some(WinErrorWindows::ERROR_REQUEST_OUT_OF_SEQUENCE),
            777 => Some(WinErrorWindows::ERROR_VERSION_PARSE_ERROR),
            778 => Some(WinErrorWindows::ERROR_BADSTARTPOSITION),
            779 => Some(WinErrorWindows::ERROR_MEMORY_HARDWARE),
            780 => Some(WinErrorWindows::ERROR_DISK_REPAIR_DISABLED),
            781 => Some(WinErrorWindows::ERROR_INSUFFICIENT_RESOURCE_FOR_SPECIFIED_SHARED_SECTION_SIZE),
            782 => Some(WinErrorWindows::ERROR_SYSTEM_POWERSTATE_TRANSITION),
            _ => None,
        }
    }

    /// One slice of the symbol table.
    #[verifier::spinoff_prover]
    #[verifier::rlimit(100)]
    fn to_u32_part11(self) -> (r: Option<u32>)
        ensures
            r == self.spec_to_u32_part11(),
    {
        match self {
            WinErrorWindows::ERROR_WAIT_3 => Some(733),
            WinErrorWindows::ERROR_WAIT_63 => Some(734),
            WinErrorWindows::ERROR_ABANDONED_WAIT_0 => Some(735),
            WinErrorWindows::ERROR_ABANDONED_WAIT_63 => Some(736),
            WinErrorWindows::ERROR_USER_APC => Some(737),
            WinErrorWindows::ERROR_KERNEL_APC => Some(738),
            WinErrorWindows::ERROR_ALERTED => Some(739),
            WinErrorWindows::ERROR_ELEVATION_REQUIRED => Some(740),
            WinErrorWindows::ERROR_REPARSE => Some(741),
            WinErrorWindows::ERROR_OPLOCK_BREAK_IN_PROGRESS => Some(742),
            WinErrorWindows::ERROR_VOLUME_MOUNTED => Some(743),
            WinErrorWindows::ERROR_RXACT_COMMITTED => Some(744),
            WinErrorWindows::ERROR_NOTIFY_CLEANUP => Some(745),
            WinErrorWindows::ERROR_PRIMARY_TRANSPORT_CONNECT_FAILED => Some(746),
            WinErrorWindows::ERROR_PAGE_FAULT_TRANSITION => Some(747),
            WinErrorWindows::ERROR_PAGE_FAULT_DEMAND_ZERO => Some(748),
            WinErrorWindows::ERROR_PAGE_FAULT_COPY_ON_WRITE => Some(749),
            WinErrorWindows::ERROR_PAGE_FAULT_GUARD_PAGE => Some(750),
            WinErrorWindows::ERROR_PAGE_FAULT_PAGING_FILE => Some(751),
            WinErrorWindows::ERROR_CACHE_PAGE_LOCKED => Some(752),
            WinErrorWindows::ERROR_CRASH_DUMP => Some(753),
            WinErrorWindows::ERROR_BUFFER_ALL_ZEROS => Some(754),
            WinErrorWindows::ERROR_REPARSE_OBJECT => Some(755),
            WinErrorWindows::ERROR_RESOURCE_REQUIREMENTS_CHANGED => Some(756),
            WinErrorWindows::ERROR_TRANSLATION_COMPLETE => Some(757),
            WinErrorWindows::ERROR_NOTHING_TO_TERMINATE => Some(758),
            WinErrorWindows::ERROR_PROCESS_NOT_IN_JOB => Some(759),
            WinErrorWindows::ERROR_PROCESS_IN_JOB => Some(760),
            WinErrorWindows::ERROR_VOLSNAP_HIBERNATE_READY => Some(761),
            WinErrorWindows::ERROR_FSFILTER_OP_COMPLETED_SUCCESSFULLY => Some(762),
            WinErrorWindows::ERROR_INTERRUPT_VECTOR_ALREADY_CONNECTED => Some(763),
            WinErrorWindows::ERROR_INTERRUPT_STILL_CONNECTED => Some(764),
            WinErrorWindows::ERROR_WAIT_FOR_OPLOCK => Some(765),
            WinErrorWindows::ERROR_DBG_EXCEPTION_HANDLED => Some(766),
            WinErrorWindows::ERROR_DBG_CONTINUE => Some(767),
            WinErrorWindows::ERROR_CALLBACK_POP_STACK => Some(768),
            WinErrorWindows::ERROR_COMPRESSION_DISABLED => Some(769),
            WinErrorWindows::ERROR_CANTFETCHBACKWARDS => Some(770),
            WinErrorWindows::ERROR_CANTSCROLLBACKWARDS => Some(771),
            WinErrorWindows::ERROR_ROWSNOTRELEASED => Some(772),
            WinErrorWindows::ERROR_BAD_ACCESSOR_FLAGS => Some(773),
            WinErrorWindows::ERROR_ERRORS_ENCOUNTERED => Some(774),
            WinErrorWindows::ERROR_NOT_CAPABLE => Some(775),
            WinErrorWindows::ERROR_REQUEST_OUT_OF_SEQUENCE => Some(776),
            WinErrorWindows::ERROR_VERSION_PARSE_ERROR => Some(777),
            WinErrorWindows::ERROR_BADSTARTPOSITION => Some(778),
            WinErrorWindows::ERROR_MEMORY_HARDWARE => Some(779),
            WinErrorWindows::ERROR_DISK_REPAIR_DISABLED => Some(780),
            WinErrorWindows::ERROR_INSUFFICIENT_RESOURCE_FOR_SPECIFIED_SHARED_SECTION_SIZE => Some(781),
            WinErrorWindows::ERROR_SYSTEM_POWERSTATE_TRANSITION => Some(782),
            _ => None,
        }
    }

    /// One slice of the symbol table.
    #[verifier::spinoff_prover]
    #[verifier::rlimit(100)]
    fn from_u32_part11(raw: u32) -> (r: Option<WinErrorWindows>)
        ensures
            r == WinErrorWindows::spec_from_u32_part11(raw),
    {
        match raw {
            733 => Some(WinErrorWindows::ERROR_WAIT_3),
            734 => Some(WinErrorWindows::ERROR_WAIT_63),
            735 => Some(WinErrorWindows::ERROR_ABANDONED_WAIT_0),
            736 => Some(WinErrorWindows::ERROR_ABANDONED_WAIT_63),
            737 => Some(WinErrorWindows::ERROR_USER_APC),
            738 => Some(WinErrorWindows::ERROR_KERNEL_APC),
            739 => Some(WinErrorWindows::ERROR_ALERTED),
            740 => Some(WinErrorWindows::ERROR_ELEVATION_REQUIRED),
            741 => Some(WinErrorWindows::ERROR_REPARSE),
            742 => Some(WinErrorWindows::ERROR_OPLOCK_BREAK_IN_PROGRESS),
            743 => Some(WinErrorWindows::ERROR_VOLUME_MOUNTED),
            744 => Some(WinErrorWindows::ERROR_RXACT_COMMITTED),
            745 => Some(WinErrorWindows::ERROR_NOTIFY_CLEANUP),
            746 => Some(WinErrorWindows::ERROR_PRIMARY_TRANSPORT_CONNECT_FAILED),
            747 => Some(WinErrorWindows::ERROR_PAGE_FAULT_TRANSITION),
            748 => Some(WinErrorWindows::ERROR_PAGE_FAULT_DEMAND_ZERO),
            749 => Some(WinErrorWindows::ERROR_PAGE_FAULT_COPY_ON_WRITE),
            750 => Some(WinErrorWindows::ERROR_PAGE_FAULT_GUARD_PAGE),
            751 => Some(WinErrorWindows::ERROR_PAGE_FAULT_PAGING_FILE),
            752 => Some(WinErrorWindows::ERROR_CACHE_PAGE_LOCKED),
            753 => Some(WinErrorWindows::ERROR_CRASH_DUMP),
            754 => Some(WinErrorWindows::ERROR_BUFFER_ALL_ZEROS),
            755 => Some(WinErrorWindows::ERROR_REPARSE_OBJECT),
            756 => Some(WinErrorWindows::ERROR_RESOURCE_REQUIREMENTS_CHANGED),
            757 => Some(WinErrorWindows::ERROR_TRANSLATION_COMPLETE),
            758 => Some(WinErrorWindows::ERROR_NOTHING_TO_TERMINATE),
            759 => Some(WinErrorWindows::ERROR_PROCESS_NOT_IN_JOB),
            760 => Some(WinErrorWindows::ERROR_PROCESS_IN_JOB),
            761 => Some(WinErrorWindows::ERROR_VOLSNAP_HIBERNATE_READY),
            762 => Some(WinErrorWindows::ERROR_FSFILTER_OP_COMPLETED_SUCCESSFULLY),
            763 => Some(WinErrorWindows::ERROR_INTERRUPT_VECTOR_ALREADY_CONNECTED),
            764 => Some(WinErrorWindows::ERROR_INTERRUPT_STILL_CONNECTED),
            765 => Some(WinErrorWindows::ERROR_WAIT_FOR_OPLOCK),
            766 => Some(WinErrorWindows::ERROR_DBG_EXCEPTION_HANDLED),
            767 => Some(WinErrorWindows::ERROR_DBG_CONTINUE),
            768 => Some(WinErrorWindows::ERROR_CALLBACK_POP_STACK),
            769 => Some(WinErrorWindows::ERROR_COMPRESSION_DISABLED),
            770 => Some(WinErrorWindows::ERROR_CANTFETCHBACKWARDS),
            771 => Some(WinErrorWindows::ERROR_CANTSCROLLBACKWARDS),
            772 => Some(WinErrorWindows::ERROR_ROWSNOTRELEASED),
            773 => Some(WinErrorWindows::ERROR_BAD_ACCESSOR_FLAGS),
            774 => Some(WinErrorWindows::ERROR_ERRORS_ENCOUNTERED),
            775 => Some(WinErrorWindows::ERROR_NOT_CAPABLE),
            776 => Some(WinErrorWindows::ERROR_REQUEST_OUT_OF_SEQUENCE),
            777 => Some(WinErrorWindows::ERROR_VERSION_PARSE_ERROR),
            778 => Some(WinErrorWindows::ERROR_BADSTARTPOSITION),
            779 => Some(WinErrorWindows::ERROR_MEMORY_HARDWARE),
            780 => Some(WinErrorWindows::ERROR_DISK_REPAIR_DISABLED),
            781 => Some(WinErrorWindows::ERROR_INSUFFICIENT_RESOURCE_FOR_SPECIFIED_SHARED_SECTION_SIZE),
            782 => Some(WinErrorWindows::ERROR_SYSTEM_POWERSTATE_TRANSITION),
            _ => None,
        }
    }

    /// One slice of the symbol table: the raw value of this symbol,
    /// where this slice holds it.
    pub open spec fn spec_to_u32_part12(self) -> Option<u32> {
        match self {
            WinErrorWindows::ERROR_SYSTEM_POWERSTATE_COMPLEX_TRANSITION => Some(783),
            WinErrorWindows::ERROR_MCA_EXCEPTION => Some(784),
            WinErrorWindows::ERROR_ACCESS_AUDIT_BY_POLICY => Some(785),
            WinErrorWindows::ERROR_ACCESS_DISABLED_NO_SAFER_UI_BY_POLICY => Some(786),
            WinErrorWindows::ERROR_ABANDON_HIBERFILE => Some(787),
            WinErrorWindows::ERROR_LOST_WRITEBEHIND_DATA_NETWORK_DISCONNECTED => Some(788),
            WinErrorWindows::ERROR_LOST_WRITEBEHIND_DATA_NETWORK_SERVER_ERROR => Some(789),
            WinErrorWindows::ERROR_LOST_WRITEBEHIND_DATA_LOCAL_DISK_ERROR => Some(790),
            WinErrorWindows::ERROR_BAD_MCFG_TABLE => Some(791),
            WinErrorWindows::ERROR_DISK_REPAIR_REDIRECTED => Some(792),
            WinErrorWindows::ERROR_DISK_REPAIR_UNSUCCESSFUL => Some(793),
            WinErrorWindows::ERROR_CORRUPT_LOG_OVERFULL => Some(794),
            WinErrorWindows::ERROR_CORRUPT_LOG_CORRUPTED => Some(795),
            WinErrorWindows::ERROR_CORRUPT_LOG_UNAVAILABLE => Some(796),
            WinErrorWindows::ERROR_CORRUPT_LOG_DELETED_FULL => Some(797),
            WinErrorWindows::ERROR_CORRUPT_LOG_CLEARED => Some(798),
            WinErrorWindows::ERROR_ORPHAN_NAME_EXHAUSTED => Some(799),
            WinErrorWindows::ERROR_OPLOCK_SWITCHED_TO_NEW_HANDLE => Some(800),
            WinErrorWindows::ERROR_CANNOT_GRANT_REQUESTED_OPLOCK => Some(801),
            WinErrorWindows::ERROR_CANNOT_BREAK_OPLOCK => Some(802),
            WinErrorWindows::ERROR_OPLOCK_HANDLE_CLOSED => Some(803),
            WinErrorWindows::ERROR_NO_ACE_CONDITION => Some(804),
            WinErrorWindows::ERROR_INVALID_ACE_CONDITION => Some(805),
            WinErrorWindows::ERROR_FILE_HANDLE_REVOKED => Some(806),
            WinErrorWindows::ERROR_IMAGE_AT_DIFFERENT_BASE => Some(807),
            WinErrorWindows::ERROR_ENCRYPTED_IO_NOT_POSSIBLE => Some(808),
            WinErrorWindows::ERROR_FILE_METADATA_OPTIMIZATION_IN_PROGRESS => Some(809),
            WinErrorWindows::ERROR_QUOTA_ACTIVITY => Some(810),
            WinErrorWindows::ERROR_HANDLE_REVOKED => Some(811),
            WinErrorWindows::ERROR_CALLBACK_INVOKE_INLINE => Some(812),
            WinErrorWindows::ERROR_CPU_SET_INVALID => Some(813),
            WinErrorWindows::ERROR_ENCLAVE_NOT_TERMINATED => Some(814),
            WinErrorWindows::ERROR_ENCLAVE_VIOLATION => Some(815),
            WinErrorWindows::ERROR_EA_ACCESS_DENIED => Some(994),
            WinErrorWindows::ERROR_OPERATION_ABORTED => Some(995),
            WinErrorWindows::ERROR_IO_INCOMPLETE => Some(996),
            WinErrorWindows::ERROR_IO_PENDING => Some(997),
            WinErrorWindows::ERROR_NOACCESS => Some(998),
            WinErrorWindows::ERROR_SWAPERROR => Some(999),
            WinErrorWindows::ERROR_STACK_OVERFLOW => Some(1001),
            WinErrorWindows::ERROR_INVALID_MESSAGE => Some(1002),
            WinErrorWindows::ERROR_CAN_NOT_COMPLETE => Some(1003),
            WinErrorWindows::ERROR_INVALID_FLAGS => Some(1004),
            WinErrorWindows::ERROR_UNRECOGNIZED_VOLUME => Some(1005),
            WinErrorWindows::ERROR_FILE_INVALID => Some(1006),
            WinErrorWindows::ERROR_FULLSCREEN_MODE => Some(1007),
            WinErrorWindows::ERROR_NO_TOKEN => Some(1008),
            WinErrorWindows::ERROR_BADDB => Some(1009),
            WinErrorWindows::ERROR_BADKEY => Some(1010),
            WinErrorWindows::ERROR_CANTOPEN => Some(1011),
            _ => None,
        }
    }

    /// One slice of the symbol table: the symbol this slice gives a
    /// raw value, where it holds one.
    pub open spec fn spec_from_u32_part12(raw: u32) -> Option<WinErrorWindows> {
        match raw {
            783 => Some(WinErrorWindows::ERROR_SYSTEM_POWERSTATE_COMPLEX_TRANSITION),
            784 => Some(WinErrorWindows::ERROR_MCA_EXCEPTION),
            785 => Some(WinErrorWindows::ERROR_ACCESS_AUDIT_BY_POLICY),
            786 => Some(WinErrorWindows::ERROR_ACCESS_DISABLED_NO_SAFER_UI_BY_POLICY),
            787 => Some(WinErrorWindows::ERROR_ABANDON_HIBERFILE),
            788 => Some(WinErrorWindows::ERROR_LOST_WRITEBEHIND_DATA_NETWORK_DISCONNECTED),
            789 => Some(WinErrorWindows::ERROR_LOST_WRITEBEHIND_DATA_NETWORK_SERVER_ERROR),
            790 => Some(WinErrorWindows::ERROR_LOST_WRITEBEHIND_DATA_LOCAL_DISK_ERROR),
            791 => Some(WinErrorWindows::ERROR_BAD_MCFG_TABLE),
            792 => Some(WinErrorWindows::ERROR_DISK_REPAIR_REDIRECTED),
            793 => Some(WinErrorWindows::ERROR_DISK_REPAIR_UNSUCCESSFUL),
            794 => Some(WinErrorWindows::ERROR_CORRUPT_LOG_OVERFULL),
            795 => Some(WinErrorWindows::ERROR_CORRUPT_LOG_CORRUPTED),
            796 => Some(WinErrorWindows::ERROR_CORRUPT_LOG_UNAVAILABLE),
            797 => Some(WinErrorWindows::ERROR_CORRUPT_LOG_DELETED_FULL),
            798 => Some(WinErrorWindows::ERROR_CORRUPT_LOG_CLEARED),
            799 => Some(WinErrorWindows::ERROR_ORPHAN_NAME_EXHAUSTED),
            800 => Some(WinErrorWindows::ERROR_OPLOCK_SWITCHED_TO_NEW_HANDLE),
            801 => Some(WinErrorWindows::ERROR_CANNOT_GRANT_REQUESTED_OPLOCK),
            802 => Some(WinErrorWindows::ERROR_CANNOT_BREAK_OPLOCK),
            803 => Some(WinErrorWindows::ERROR_OPLOCK_HANDLE_CLOSED),
            804 => Some(WinErrorWindows::ERROR_NO_ACE_CONDITION),
            805 => Some(WinErrorWindows::ERROR_INVALID_ACE_CONDITION),
            806 => Some(WinErrorWindows::ERROR_FILE_HANDLE_REVOKED),
            807 => Some(WinErrorWindows::ERROR_IMAGE_AT_DIFFERENT_BASE),
            808 => Some(WinErrorWindows::ERROR_ENCRYPTED_IO_NOT_POSSIBLE),
            809 => Some(WinErrorWindows::ERROR_FILE_METADATA_OPTIMIZATION_IN_PROGRESS),
            810 => Some(WinErrorWindows::ERROR_QUOTA_ACTIVITY),
            811 => Some(WinErrorWindows::ERROR_HANDLE_REVOKED),
            812 => Some(WinErrorWindows::ERROR_CALLBACK_INVOKE_INLINE),
            813 => Some(WinErrorWindows::ERROR_CPU_SET_INVALID),
            814 => Some(WinErrorWindows::ERROR_ENCLAVE_NOT_TERMINATED),
            815 => Some(WinErrorWindows::ERROR_ENCLAVE_VIOLATION),
            994 => Some(WinErrorWindows::ERROR_EA_ACCESS_DENIED),
            995 => Some(WinErrorWindows::ERROR_OPERATION_ABORTED),
            996 => Some(WinErrorWindows::ERROR_IO_INCOMPLETE),
            997 => Some(WinErrorWindows::ERROR_IO_PENDING),
            998 => Some(WinErrorWindows::ERROR_NOACCESS),
            999 => Some(WinErrorWindows::ERROR_SWAPERROR),
            1001 => Some(WinErrorWindows::ERROR_STACK_OVERFLOW),
            1002 => Some(WinErrorWindows::ERROR_INVALID_MESSAGE),
            1003 => Some(WinErrorWindows::ERROR_CAN_NOT_COMPLETE),
            1004 => Some(WinErrorWindows::ERROR_INVALID_FLAGS),
            1005 => Some(WinErrorWindows::ERROR_UNRECOGNIZED_VOLUME),
            1006 => Some(WinErrorWindows::ERROR_FILE_INVALID),
            1007 => Some(WinErrorWindows::ERROR_FULLSCREEN_MODE),
            1008 => Some(WinErrorWindows::ERROR_NO_TOKEN),
            1009 => Some(WinErrorWindows::ERROR_BADDB),
            1010 => Some(WinErrorWindows::ERROR_BADKEY),
            1011 => Some(WinErrorWindows::ERROR_CANTOPEN),
            _ => None,
        }
    }

    /// One slice of the symbol table.
    #[verifier::spinoff_prover]
    #[verifier::rlimit(100)]
    fn to_u32_part12(self) -> (r: Option<u32>)
        ensures
            r == self.spec_to_u32_part12(),
    {
        match self {
            WinErrorWindows::ERROR_SYSTEM_POWERSTATE_COMPLEX_TRANSITION => Some(783),
            WinErrorWindows::ERROR_MCA_EXCEPTION => Some(784),
            WinErrorWindows::ERROR_ACCESS_AUDIT_BY_POLICY => Some(785),
            WinErrorWindows::ERROR_ACCESS_DISABLED_NO_SAFER_UI_BY_POLICY => Some(786),
            WinErrorWindows::ERROR_ABANDON_HIBERFILE => Some(787),
            WinErrorWindows::ERROR_LOST_WRITEBEHIND_DATA_NETWORK_DISCONNECTED => Some(788),
            WinErrorWindows::ERROR_LOST_WRITEBEHIND_DATA_NETWORK_SERVER_ERROR => Some(789),
            WinErrorWindows::ERROR_LOST_WRITEBEHIND_DATA_LOCAL_DISK_ERROR => Some(790),
            WinErrorWindows::ERROR_BAD_MCFG_TABLE => Some(791),
            WinErrorWindows::ERROR_DISK_REPAIR_REDIRECTED => Some(792),
            WinErrorWindows::ERROR_DISK_REPAIR_UNSUCCESSFUL => Some(793),
            WinErrorWindows::ERROR_CORRUPT_LOG_OVERFULL => Some(794),
            WinErrorWindows::ERROR_CORRUPT_LOG_CORRUPTED => Some(795),
            WinErrorWindows::ERROR_CORRUPT_LOG_UNAVAILABLE => Some(796),
            WinErrorWindows::ERROR_CORRUPT_LOG_DELETED_FULL => Some(797),
            WinErrorWindows::ERROR_CORRUPT_LOG_CLEARED => Some(798),
            WinErrorWindows::ERROR_ORPHAN_NAME_EXHAUSTED => Some(799),
            WinErrorWindows::ERROR_OPLOCK_SWITCHED_TO_NEW_HANDLE => Some(800),
            WinErrorWindows::ERROR_CANNOT_GRANT_REQUESTED_OPLOCK => Some(801),
            WinErrorWindows::ERROR_CANNOT_BREAK_OPLOCK => Some(802),
            WinErrorWindows::ERROR_OPLOCK_HANDLE_CLOSED => Some(803),
            WinErrorWindows::ERROR_NO_ACE_CONDITION => Some(804),
            WinErrorWindows::ERROR_INVALID_ACE_CONDITION => Some(805),
            WinErrorWindows::ERROR_FILE_HANDLE_REVOKED => Some(806),
            WinErrorWindows::ERROR_IMAGE_AT_DIFFERENT_BASE => Some(807),
            WinErrorWindows::ERROR_ENCRYPTED_IO_NOT_POSSIBLE => Some(808),
            WinErrorWindows::ERROR_FILE_METADATA_OPTIMIZATION_IN_PROGRESS => Some(809),
            WinErrorWindows::ERROR_QUOTA_ACTIVITY => Some(810),
            WinErrorWindows::ERROR_HANDLE_REVOKED => Some(811),
            WinErrorWindows::ERROR_CALLBACK_INVOKE_INLINE => Some(812),
            WinErrorWindows::ERROR_CPU_SET_INVALID => Some(813),
            WinErrorWindows::ERROR_ENCLAVE_NOT_TERMINATED => Some(814),
            WinErrorWindows::ERROR_ENCLAVE_VIOLATION => Some(815),
            WinErrorWindows::ERROR_EA_ACCESS_DENIED => Some(994),
            WinErrorWindows::ERROR_OPERATION_ABORTED => Some(995),
            WinErrorWindows::ERROR_IO_INCOMPLETE => Some(996),
            WinErrorWindows::ERROR_IO_PENDING => Some(997),
            WinErrorWindows::ERROR_NOACCESS => Some(998),
            WinErrorWindows::ERROR_SWAPERROR => Some(999),
            WinErrorWindows::ERROR_STACK_OVERFLOW => Some(1001),
            WinErrorWindows::ERROR_INVALID_MESSAGE => Some(1002),
            WinErrorWindows::ERROR_CAN_NOT_COMPLETE => Some(1003),
            WinErrorWindows::ERROR_INVALID_FLAGS => Some(1004),
            WinErrorWindows::ERROR_UNRECOGNIZED_VOLUME => Some(1005),
            WinErrorWindows::ERROR_FILE_INVALID => Some(1006),
            WinErrorWindows::ERROR_FULLSCREEN_MODE => Some(1007),
            WinErrorWindows::ERROR_NO_TOKEN => Some(1008),
            WinErrorWindows::ERROR_BADDB => Some(1009),
            WinErrorWindows::ERROR_BADKEY => Some(1010),
            WinErrorWindows::ERROR_CANTOPEN => Some(1011),
            _ => None,
        }
    }

    /// One slice of the symbol table.
    #[verifier::spinoff_prover]
    #[verifier::rlimit(100)]
    fn from_u32_part12(raw: u32) -> (r: Option<WinErrorWindows>)
        ensures
            r == WinErrorWindows::spec_from_u32_part12(raw),
    {
        match raw {
            783 => Some(WinErrorWindows::ERROR_SYSTEM_POWERSTATE_COMPLEX_TRANSITION),
            784 => Some(WinErrorWindows::ERROR_MCA_EXCEPTION),
            785 => Some(WinErrorWindows::ERROR_ACCESS_AUDIT_BY_POLICY),
            786 => Some(WinErrorWindows::ERROR_ACCESS_DISABLED_NO_SAFER_UI_BY_POLICY),
            787 => Some(WinErrorWindows::ERROR_ABANDON_HIBERFILE),
            788 => Some(WinErrorWindows::ERROR_LOST_WRITEBEHIND_DATA_NETWORK_DISCONNECTED),
            789 => Some(WinErrorWindows::ERROR_LOST_WRITEBEHIND_DATA_NETWORK_SERVER_ERROR),
            790 => Some(WinErrorWindows::ERROR_LOST_WRITEBEHIND_DATA_LOCAL_DISK_ERROR),
            791 => Some(WinErrorWindows::ERROR_BAD_MCFG_TABLE),
            792 => Some(WinErrorWindows::ERROR_DISK_REPAIR_REDIRECTED),
            793 => Some(WinErrorWindows::ERROR_DISK_REPAIR_UNSUCCESSFUL),
            794 => Some(WinErrorWindows::ERROR_CORRUPT_LOG_OVERFULL),
            795 => Some(WinErrorWindows::ERROR_CORRUPT_LOG_CORRUPTED),
            796 => Some(WinErrorWindows::ERROR_CORRUPT_LOG_UNAVAILABLE),
            797 => Some(WinErrorWindows::ERROR_CORRUPT_LOG_DELETED_FULL),
            798 => Some(WinErrorWindows::ERROR_CORRUPT_LOG_CLEARED),
            799 => Some(WinErrorWindows::ERROR_ORPHAN_NAME_EXHAUSTED),
            800 => Some(WinErrorWindows::ERROR_OPLOCK_SWITCHED_TO_NEW_HANDLE),
            801 => Some(WinErrorWindows::ERROR_CANNOT_GRANT_REQUESTED_OPLOCK),
            802 => Some(WinErrorWindows::ERROR_CANNOT_BREAK_OPLOCK),
            803 => Some(WinErrorWindows::ERROR_OPLOCK_HANDLE_CLOSED),
            804 => Some(WinErrorWindows::ERROR_NO_ACE_CONDITION),
            805 => Some(WinErrorWindows::ERROR_INVALID_ACE_CONDITION),
            806 => Some(WinErrorWindows::ERROR_FILE_HANDLE_REVOKED),
            807 => Some(WinErrorWindows::ERROR_IMAGE_AT_DIFFERENT_BASE),
            808 => Some(WinErrorWindows::ERROR_ENCRYPTED_IO_NOT_POSSIBLE),
            809 => Some(WinErrorWindows::ERROR_FILE_METADATA_OPTIMIZATION_IN_PROGRESS),
            810 => Some(WinErrorWindows::ERROR_QUOTA_ACTIVITY),
            811 => Some(WinErrorWindows::ERROR_HANDLE_REVOKED),
            812 => Some(WinErrorWindows::ERROR_CALLBACK_INVOKE_INLINE),
            813 => Some(WinErrorWindows::ERROR_CPU_SET_INVALID),
            814 => Some(WinErrorWindows::ERROR_ENCLAVE_NOT_TERMINATED),
            815 => Some(WinErrorWindows::ERROR_ENCLAVE_VIOLATION),
            994 => Some(WinErrorWindows::ERROR_EA_ACCESS_DENIED),
            995 => Some(WinErrorWindows::ERROR_OPERATION_ABORTED),
            996 => Some(WinErrorWindows::ERROR_IO_INCOMPLETE),
            997 => Some(WinErrorWindows::ERROR_IO_PENDING),
            998 => Some(WinErrorWindows::ERROR_NOACCESS),
            999 => Some(WinErrorWindows::ERROR_SWAPERROR),
            1001 => Some(WinErrorWindows::ERROR_STACK_OVERFLOW),
            1002 => Some(WinErrorWindows::ERROR_INVALID_MESSAGE),
            1003 => Some(WinErrorWindows::ERROR_CAN_NOT_COMPLETE),
            1004 => Some(WinErrorWindows::ERROR_INVALID_FLAGS),
            1005 => Some(WinErrorWindows::ERROR_UNRECOGNIZED_VOLUME),
            1006 => Some(WinErrorWindows::ERROR_FILE_INVALID),
            1007 => Some(WinErrorWindows::ERROR_FULLSCREEN_MODE),
            1008 => Some(WinErrorWindows::ERROR_NO_TOKEN),
            1009 => Some(WinErrorWindows::ERROR_BADDB),
            1010 => Some(WinErrorWindows::ERROR_BADKEY),
            1011 => Some(WinErrorWindows::ERROR_CANTOPEN),
            _ => None,
        }
    }

    /// One slice of the symbol table: the raw value of this symbol,
    /// where this slice holds it.
    pub open spec fn spec_to_u32_part13(self) -> Option<u32> {
        match self {
            WinErrorWindows::ERROR_CANTREAD => Some(1012),
            WinErrorWindows::ERROR_CANTWRITE => Some(1013),
            WinErrorWindows::ERROR_REGISTRY_RECOVERED => Some(1014),
            WinErrorWindows::ERROR_REGISTRY_CORRUPT => Some(1015),
            WinErrorWindows::ERROR_REGISTRY_IO_FAILED => Some(1016),
            WinErrorWindows::ERROR_NOT_REGISTRY_FILE => Some(1017),
            WinErrorWindows::ERROR_KEY_DELETED => Some(1018),
            WinErrorWindows::ERROR_NO_LOG_SPACE => Some(1019),
            WinErrorWindows::ERROR_KEY_HAS_CHILDREN => Some(1020),
            WinErrorWindows::ERROR_CHILD_MUST_BE_VOLATILE => Some(1021),
            WinErrorWindows::ERROR_NOTIFY_ENUM_DIR => Some(1022),
            WinErrorWindows::ERROR_DEPENDENT_SERVICES_RUNNING => Some(1051),
            WinErrorWindows::ERROR_INVALID_SERVICE_CONTROL => Some(1052),
            WinErrorWindows::ERROR_SERVICE_REQUEST_TIMEOUT => Some(1053),
            WinErrorWindows::ERROR_SERVICE_NO_THREAD => Some(1054),
            WinErrorWindows::ERROR_SERVICE_DATABASE_LOCKED => Some(1055),
            WinErrorWindows::ERROR_SERVICE_ALREADY_RUNNING => Some(1056),
            WinErrorWindows::ERROR_INVALID_SERVICE_ACCOUNT => Some(1057),
            WinErrorWindows::ERROR_SERVICE_DISABLED => Some(1058),
            WinErrorWindows::ERROR_CIRCULAR_DEPENDENCY => Some(1059),
            WinErrorWindows::ERROR_SERVICE_DOES_NOT_EXIST => Some(1060),
            WinErrorWindows::ERROR_SERVICE_CANNOT_ACCEPT_CTRL => Some(1061),
            WinErrorWindows::ERROR_SERVICE_NOT_ACTIVE => Some(1062),
            WinErrorWindows::ERROR_FAILED_SERVICE_CONTROLLER_CONNECT => Some(1063),
            WinErrorWindows::ERROR_EXCEPTION_IN_SERVICE => Some(1064),
            WinErrorWindows::ERROR_DATABASE_DOES_NOT_EXIST => Some(1065),
            WinErrorWindows::ERROR_SERVICE_SPECIFIC_ERROR => Some(1066),
            WinErrorWindows::ERROR_PROCESS_ABORTED => Some(1067),
            WinErrorWindows::ERROR_SERVICE_DEPENDENCY_FAIL => Some(1068),
            WinErrorWindows::ERROR_SERVICE_LOGON_FAILED => Some(1069),
            WinErrorWindows::ERROR_SERVICE_START_HANG => Some(1070),
            WinErrorWindows::ERROR_INVALID_SERVICE_LOCK => Some(1071),
            WinErrorWindows::ERROR_SERVICE_MARKED_FOR_DELETE => Some(1072),
            WinErrorWindows::ERROR_SERVICE_EXISTS => Some(1073),
            WinErrorWindows::ERROR_ALREADY_RUNNING_LKG => Some(1074),
            WinErrorWindows::ERROR_SERVICE_DEPENDENCY_DELETED => Some(1075),
            WinErrorWindows::ERROR_BOOT_ALREADY_ACCEPTED => Some(1076),
            WinErrorWindows::ERROR_SERVICE_NEVER_STARTED => Some(1077),
            WinErrorWindows::ERROR_DUPLICATE_SERVICE_NAME => Some(1078),
            WinErrorWindows::ERROR_DIFFERENT_SERVICE_ACCOUNT => Some(1079),
            WinErrorWindows::ERROR_CANNOT_DETECT_DRIVER_FAILURE => Some(1080),
            WinErrorWindows::ERROR_CANNOT_DETECT_PROCESS_ABORT => Some(1081),
            WinErrorWindows::ERROR_NO_RECOVERY_PROGRAM => Some(1082),
            WinErrorWindows::ERROR_SERVICE_NOT_IN_EXE => Some(1083),
            WinErrorWindows::ERROR_NOT_SAFEBOOT_SERVICE => Some(1084),
            WinErrorWindows::ERROR_END_OF_MEDIA => Some(1100),
            WinErrorWindows::ERROR_FILEMARK_DETECTED => Some(1101),
            WinErrorWindows::ERROR_BEGINNING_OF_MEDIA => Some(1102),
            WinErrorWindows::ERROR_SETMARK_DETECTED => Some(1103),
            WinErrorWindows::ERROR_NO_DATA_DETECTED => Some(1104),
            _ => None,
        }
    }

    /// One slice of the symbol table: the symbol this slice gives a
    /// raw value, where it holds one.
    pub open spec fn spec_from_u32_part13(raw: u32) -> Option<WinErrorWindows> {
        match raw {
            1012 => Some(WinErrorWindows::ERROR_CANTREAD),
            1013 => Some(WinErrorWindows::ERROR_CANTWRITE),
            1014 => Some(WinErrorWindows::ERROR_REGISTRY_RECOVERED),
            1015 => Some(WinErrorWindows::ERROR_REGISTRY_CORRUPT),
            1016 => Some(WinErrorWindows::ERROR_REGISTRY_IO_FAILED),
            1017 => Some(WinErrorWindows::ERROR_NOT_REGISTRY_FILE),
            1018 => Some(WinErrorWindows::ERROR_KEY_DELETED),
            1019 => Some(WinErrorWindows::ERROR_NO_LOG_SPACE),
            1020 => Some(WinErrorWindows::ERROR_KEY_HAS_CHILDREN),
            1021 => Some(WinErrorWindows::ERROR_CHILD_MUST_BE_VOLATILE),
            1022 => Some(WinErrorWindows::ERROR_NOTIFY_ENUM_DIR),
            1051 => Some(WinErrorWindows::ERROR_DEPENDENT_SERVICES_RUNNING),
            1052 => Some(WinErrorWindows::ERROR_INVALID_SERVICE_CONTROL),
            1053 => Some(WinErrorWindows::ERROR_SERVICE_REQUEST_TIMEOUT),
            1054 => Some(WinErrorWindows::ERROR_SERVICE_NO_THREAD),
            1055 => Some(WinErrorWindows::ERROR_SERVICE_DATABASE_LOCKED),
            1056 => Some(WinErrorWindows::ERROR_SERVICE_ALREADY_RUNNING),
            1057 => Some(WinErrorWindows::ERROR_INVALID_SERVICE_ACCOUNT),
            1058 => Some(WinErrorWindows::ERROR_SERVICE_DISABLED),
            1059 => Some(WinErrorWindows::ERROR_CIRCULAR_DEPENDENCY),
            1060 => Some(WinErrorWindows::ERROR_SERVICE_DOES_NOT_EXIST),
            1061 => Some(WinErrorWindows::ERROR_SERVICE_CANNOT_ACCEPT_CTRL),
            1062 => Some(WinErrorWindows::ERROR_SERVICE_NOT_ACTIVE),
            1063 => Some(WinErrorWindows::ERROR_FAILED_SERVICE_CONTROLLER_CONNECT),
            1064 => Some(WinErrorWindows::ERROR_EXCEPTION_IN_SERVICE),
            1065 => Some(WinErrorWindows::ERROR_DATABASE_DOES_NOT_EXIST),
            1066 => Some(WinErrorWindows::ERROR_SERVICE_SPECIFIC_ERROR),
            1067 => Some(WinErrorWindows::ERROR_PROCESS_ABORTED),
            1068 => Some(WinErrorWindows::ERROR_SERVICE_DEPENDENCY_FAIL),
            1069 => Some(WinErrorWindows::ERROR_SERVICE_LOGON_FAILED),
            1070 => Some(WinErrorWindows::ERROR_SERVICE_START_HANG),
            1071 => Some(WinErrorWindows::ERROR_INVALID_SERVICE_LOCK),
            1072 => Some(WinErrorWindows::ERROR_SERVICE_MARKED_FOR_DELETE),
            1073 => Some(WinErrorWindows::ERROR_SERVICE_EXISTS),
            1074 => Some(WinErrorWindows::ERROR_ALREADY_RUNNING_LKG),
            1075 => Some(WinErrorWindows::ERROR_SERVICE_DEPENDENCY_DELETED),
            1076 => Some(WinErrorWindows::ERROR_BOOT_ALREADY_ACCEPTED),
            1077 => Some(WinErrorWindows::ERROR_SERVICE_NEVER_STARTED),
            1078 => Some(WinErrorWindows::ERROR_DUPLICATE_SERVICE_NAME),
            1079 => Some(WinErrorWindows::ERROR_DIFFERENT_SERVICE_ACCOUNT),
            1080 => Some(WinErrorWindows::ERROR_CANNOT_DETECT_DRIVER_FAILURE),
            1081 => Some(WinErrorWindows::ERROR_CANNOT_DETECT_PROCESS_ABORT),
            1082 => Some(WinErrorWindows::ERROR_NO_RECOVERY_PROGRAM),
            1083 => Some(WinErrorWindows::ERROR_SERVICE_NOT_IN_EXE),
            1084 => Some(WinErrorWindows::ERROR_NOT_SAFEBOOT_SERVICE),
            1100 => Some(WinErrorWindows::ERROR_END_OF_MEDIA),
            1101 => Some(WinErrorWindows::ERROR_FILEMARK_DETECTED),
            1102 => Some(WinErrorWindows::ERROR_BEGINNING_OF_MEDIA),
            1103 => Some(WinErrorWindows::ERROR_SETMARK_DETECTED),
            1104 => Some(WinErrorWindows::ERROR_NO_DATA_DETECTED),
            _ => None,
        }
    }

    /// One slice of the symbol table.
    #[verifier::spinoff_prover]
    #[verifier::rlimit(100)]
    fn to_u32_part13(self) -> (r: Option<u32>)
        ensures
            r == self.spec_to_u32_part13(),
    {
        match self {
            WinErrorWindows::ERROR_CANTREAD => Some(1012),
            WinErrorWindows::ERROR_CANTWRITE => Some(1013),
            WinErrorWindows::ERROR_REGISTRY_RECOVERED => Some(1014),
            WinErrorWindows::ERROR_REGISTRY_CORRUPT => Some(1015),
            WinErrorWindows::ERROR_REGISTRY_IO_FAILED => Some(1016),
            WinErrorWindows::ERROR_NOT_REGISTRY_FILE => Some(1017),
            WinErrorWindows::ERROR_KEY_DELETED => Some(1018),
            WinErrorWindows::ERROR_NO_LOG_SPACE => Some(1019),
            WinErrorWindows::ERROR_KEY_HAS_CHILDREN => Some(1020),
            WinErrorWindows::ERROR_CHILD_MUST_BE_VOLATILE => Some(1021),
            WinErrorWindows::ERROR_NOTIFY_ENUM_DIR => Some(1022),
            WinErrorWindows::ERROR_DEPENDENT_SERVICES_RUNNING => Some(1051),
            WinErrorWindows::ERROR_INVALID_SERVICE_CONTROL => Some(1052),
            WinErrorWindows::ERROR_SERVICE_REQUEST_TIMEOUT => Some(1053),
            WinErrorWindows::ERROR_SERVICE_NO_THREAD => Some(1054),
            WinErrorWindows::ERROR_SERVICE_DATABASE_LOCKED => Some(1055),
            WinErrorWindows::ERROR_SERVICE_ALREADY_RUNNING => Some(1056),
            WinErrorWindows::ERROR_INVALID_SERVICE_ACCOUNT => Some(1057),
            WinErrorWindows::ERROR_SERVICE_DISABLED => Some(1058),
            WinErrorWindows::ERROR_CIRCULAR_DEPENDENCY => Some(1059),
            WinErrorWindows::ERROR_SERVICE_DOES_NOT_EXIST => Some(1060),
            WinErrorWindows::ERROR_SERVICE_CANNOT_ACCEPT_CTRL => Some(1061),
            WinErrorWindows::ERROR_SERVICE_NOT_ACTIVE => Some(1062),
            WinErrorWindows::ERROR_FAILED_SERVICE_CONTROLLER_CONNECT => Some(1063),
            WinErrorWindows::ERROR_EXCEPTION_IN_SERVICE => Some(1064),
            WinErrorWindows::ERROR_DATABASE_DOES_NOT_EXIST => Some(1065),
            WinErrorWindows::ERROR_SERVICE_SPECIFIC_ERROR => Some(1066),
            WinErrorWindows::ERROR_PROCESS_ABORTED => Some(1067),
            WinErrorWindows::ERROR_SERVICE_DEPENDENCY_FAIL => Some(1068),
            WinErrorWindows::ERROR_SERVICE_LOGON_FAILED => Some(1069),
            WinErrorWindows::ERROR_SERVICE_START_HANG => Some(1070),
            WinErrorWindows::ERROR_INVALID_SERVICE_LOCK => Some(1071),
            WinErrorWindows::ERROR_SERVICE_MARKED_FOR_DELETE => Some(1072),
            WinErrorWindows::ERROR_SERVICE_EXISTS => Some(1073),
            WinErrorWindows::ERROR_ALREADY_RUNNING_LKG => Some(1074),
            WinErrorWindows::ERROR_SERVICE_DEPENDENCY_DELETED => Some(1075),
            WinErrorWindows::ERROR_BOOT_ALREADY_ACCEPTED => Some(1076),
            WinErrorWindows::ERROR_SERVICE_NEVER_STARTED => Some(1077),
            WinErrorWindows::ERROR_DUPLICATE_SERVICE_NAME => Some(1078),
            WinErrorWindows::ERROR_DIFFERENT_SERVICE_ACCOUNT => Some(1079),
            WinErrorWindows::ERROR_CANNOT_DETECT_DRIVER_FAILURE => Some(1080),
            WinErrorWindows::ERROR_CANNOT_DETECT_PROCESS_ABORT => Some(1081),
            WinErrorWindows::ERROR_NO_RECOVERY_PROGRAM => Some(1082),
            WinErrorWindows::ERROR_SERVICE_NOT_IN_EXE => Some(1083),
            WinErrorWindows::ERROR_NOT_SAFEBOOT_SERVICE => Some(1084),
            WinErrorWindows::ERROR_END_OF_MEDIA => Some(1100),
            WinErrorWindows::ERROR_FILEMARK_DETECTED => Some(1101),
            WinErrorWindows::ERROR_BEGINNING_OF_MEDIA => Some(1102),
            WinErrorWindows::ERROR_SETMARK_DETECTED => Some(1103),
            WinErrorWindows::ERROR_NO_DATA_DETECTED => Some(1104),
            _ => None,
        }
    }

    /// One slice of the symbol table.
    #[verifier::spinoff_prover]
    #[verifier::rlimit(100)]
    fn from_u32_part13(raw: u32) -> (r: Option<WinErrorWindows>)
        ensures
            r == WinErrorWindows::spec_from_u32_part13(raw),
    {
        match raw {
            1012 => Some(WinErrorWindows::ERROR_CANTREAD),
            1013 => Some(WinErrorWindows::ERROR_CANTWRITE),
            1014 => Some(WinErrorWindows::ERROR_REGISTRY_RECOVERED),
            1015 => Some(WinErrorWindows::ERROR_REGISTRY_CORRUPT),
            1016 => Some(WinErrorWindows::ERROR_REGISTRY_IO_FAILED),
            1017 => Some(WinErrorWindows::ERROR_NOT_REGISTRY_FILE),
            1018 => Some(WinErrorWindows::ERROR_KEY_DELETED),
            1019 => Some(WinErrorWindows::ERROR_NO_LOG_SPACE),
            1020 => Some(WinErrorWindows::ERROR_KEY_HAS_CHILDREN),
            1021 => Some(WinErrorWindows::ERROR_CHILD_MUST_BE_VOLATILE),
            1022 => Some(WinErrorWindows::ERROR_NOTIFY_ENUM_DIR),
            1051 => Some(WinErrorWindows::ERROR_DEPENDENT_SERVICES_RUNNING),
            1052 => Some(WinErrorWindows::ERROR_INVALID_SERVICE_CONTROL),
            1053 => Some(WinErrorWindows::ERROR_SERVICE_REQUEST_TIMEOUT),
            1054 => Some(WinErrorWindows::ERROR_SERVICE_NO_THREAD),
            1055 => Some(WinErrorWindows::ERROR_SERVICE_DATABASE_LOCKED),
            1056 => Some(WinErrorWindows::ERROR_SERVICE_ALREADY_RUNNING),
            1057 => Some(WinErrorWindows::ERROR_INVALID_SERVICE_ACCOUNT),
            1058 => Some(WinErrorWindows::ERROR_SERVICE_DISABLED),
            1059 => Some(WinErrorWindows::ERROR_CIRCULAR_DEPENDENCY),
            1060 => Some(WinErrorWindows::ERROR_SERVICE_DOES_NOT_EXIST),
            1061 => Some(WinErrorWindows::ERROR_SERVICE_CANNOT_ACCEPT_CTRL),
            1062 => Some(WinErrorWindows::ERROR_SERVICE_NOT_ACTIVE),
            1063 => Some(WinErrorWindows::ERROR_FAILED_SERVICE_CONTROLLER_CONNECT),
            1064 => Some(WinErrorWindows::ERROR_EXCEPTION_IN_SERVICE),
            1065 => Some(WinErrorWindows::ERROR_DATABASE_DOES_NOT_EXIST),
            1066 => Some(WinErrorWindows::ERROR_SERVICE_SPECIFIC_ERROR),
            1067 => Some(WinErrorWindows::ERROR_PROCESS_ABORTED),
            1068 => Some(WinErrorWindows::ERROR_SERVICE_DEPENDENCY_FAIL),
            1069 => Some(WinErrorWindows::ERROR_SERVICE_LOGON_FAILED),
            1070 => Some(WinErrorWindows::ERROR_SERVICE_START_HANG),
            1071 => Some(WinErrorWindows::ERROR_INVALID_SERVICE_LOCK),
            1072 => Some(WinErrorWindows::ERROR_SERVICE_MARKED_FOR_DELETE),
            1073 => Some(WinErrorWindows::ERROR_SERVICE_EXISTS),
            1074 => Some(WinErrorWindows::ERROR_ALREADY_RUNNING_LKG),
            1075 => Some(WinErrorWindows::ERROR_SERVICE_DEPENDENCY_DELETED),
            1076 => Some(WinErrorWindows::ERROR_BOOT_ALREADY_ACCEPTED),
            1077 => Some(WinErrorWindows::ERROR_SERVICE_NEVER_STARTED),
            1078 => Some(WinErrorWindows::ERROR_DUPLICATE_SERVICE_NAME),
            1079 => Some(WinErrorWindows::ERROR_DIFFERENT_SERVICE_ACCOUNT),
            1080 => Some(WinErrorWindows::ERROR_CANNOT_DETECT_DRIVER_FAILURE),
            1081 => Some(WinErrorWindows::ERROR_CANNOT_DETECT_PROCESS_ABORT),
            1082 => Some(WinErrorWindows::ERROR_NO_RECOVERY_PROGRAM),
            1083 => Some(WinErrorWindows::ERROR_SERVICE_NOT_IN_EXE),
            1084 => Some(WinErrorWindows::ERROR_NOT_SAFEBOOT_SERVICE),
            1100 => Some(WinErrorWindows::ERROR_END_OF_MEDIA),
            1101 => Some(WinErrorWindows::ERROR_FILEMARK_DETECTED),
            1102 => Some(WinErrorWindows::ERROR_BEGINNING_OF_MEDIA),
            1103 => Some(WinErrorWindows::ERROR_SETMARK_DETECTED),
            1104 => Some(WinErrorWindows::ERROR_NO_DATA_DETECTED),
            _ => None,
        }
    }

    /// One slice of the symbol table: the raw value of this symbol,
    /// where this slice holds it.
    pub open spec fn spec_to_u32_part14(self) -> Option<u32> {
        match self {
            WinErrorWindows::ERROR_PARTITION_FAILURE => Some(1105),
            WinErrorWindows::ERROR_INVALID_BLOCK_LENGTH => Some(1106),
            WinErrorWindows::ERROR_DEVICE_NOT_PARTITIONED => Some(1107),
            WinErrorWindows::ERROR_UNABLE_TO_LOCK_MEDIA => Some(1108),
            WinErrorWindows::ERROR_UNABLE_TO_UNLOAD_MEDIA => Some(1109),
            WinErrorWindows::ERROR_MEDIA_CHANGED => Some(1110),
            WinErrorWindows::ERROR_BUS_RESET => Some(1111),
            WinErrorWindows::ERROR_NO_MEDIA_IN_DRIVE => Some(1112),
            WinErrorWindows::ERROR_NO_UNICODE_TRANSLATION => Some(1113),
            WinErrorWindows::ERROR_DLL_INIT_FAILED => Some(1114),
            WinErrorWindows::ERROR_SHUTDOWN_IN_PROGRESS => Some(1115),
            WinErrorWindows::ERROR_NO_SHUTDOWN_IN_PROGRESS => Some(1116),
            WinErrorWindows::ERROR_IO_DEVICE => Some(1117),
            WinErrorWindows::ERROR_SERIAL_NO_DEVICE => Some(1118),
            WinErrorWindows::ERROR_IRQ_BUSY => Some(1119),
            WinErrorWindows::ERROR_MORE_WRITES => Some(1120),
            WinErrorWindows::ERROR_COUNTER_TIMEOUT => Some(1121),
            WinErrorWindows::ERROR_FLOPPY_ID_MARK_NOT_FOUND => Some(1122),
            WinErrorWindows::ERROR_FLOPPY_WRONG_CYLINDER => Some(1123),
            WinErrorWindows::ERROR_FLOPPY_UNKNOWN_ERROR => Some(1124),
            WinErrorWindows::ERROR_FLOPPY_BAD_REGISTERS => Some(1125),
            WinErrorWindows::ERROR_DISK_RECALIBRATE_FAILED => Some(1126),
            WinErrorWindows::ERROR_DISK_OPERATION_FAILED => Some(1127),
            WinErrorWindows::ERROR_DISK_RESET_FAILED => Some(1128),
            WinErrorWindows::ERROR_EOM_OVERFLOW => Some(1129),
            WinErrorWindows::ERROR_NOT_ENOUGH_SERVER_MEMORY => Some(1130),
            WinErrorWindows::ERROR_POSSIBLE_DEADLOCK => Some(1131),
            WinErrorWindows::ERROR_MAPPED_ALIGNMENT => Some(1132),
            WinErrorWindows::ERROR_SET_POWER_STATE_VETOED => Some(1140),
            WinErrorWindows::ERROR_SET_POWER_STATE_FAILED => Some(1141),
            WinErrorWindows::ERROR_TOO_MANY_LINKS => Some(1142),
            WinErrorWindows::ERROR_OLD_WIN_VERSION => Some(1150),
            WinErrorWindows::ERROR_APP_WRONG_OS => Some(1151),
            WinErrorWindows::ERROR_SINGLE_INSTANCE_APP => Some(1152),
            WinErrorWindows::ERROR_RMODE_APP => Some(1153),
            WinErrorWindows::ERROR_INVALID_DLL => Some(1154),
            WinErrorWindows::ERROR_NO_ASSOCIATION => Some(1155),
            WinErrorWindows::ERROR_DDE_FAIL => Some(1156),
            WinErrorWindows::ERROR_DLL_NOT_FOUND => Some(1157),
            WinErrorWindows::ERROR_NO_MORE_USER_HANDLES => Some(1158),
            WinErrorWindows::ERROR_MESSAGE_SYNC_ONLY => Some(1159),
            WinErrorWindows::ERROR_SOURCE_ELEMENT_EMPTY => Some(1160),
            WinErrorWindows::ERROR_DESTINATION_ELEMENT_FULL => Some(1161),
            WinErrorWindows::ERROR_ILLEGAL_ELEMENT_ADDRESS => Some(1162),
            WinErrorWindows::ERROR_MAGAZINE_NOT_PRESENT => Some(1163),
            WinErrorWindows::ERROR_DEVICE_REINITIALIZATION_NEEDED => Some(1164),
            WinErrorWindows::ERROR_DEVICE_REQUIRES_CLEANING => Some(1165),
            WinErrorWindows::ERROR_DEVICE_DOOR_OPEN => Some(1166),
            WinErrorWindows::ERROR_DEVICE_NOT_CONNECTED => Some(1167),
            WinErrorWindows::ERROR_NOT_FOUND => Some(1168),
            _ => None,
        }
    }

    /// One slice of the symbol table: the symbol this slice gives a
    /// raw value, where it holds one.
    pub open spec fn spec_from_u32_part14(raw: u32) -> Option<WinErrorWindows> {
        match raw {
            1105 => Some(WinErrorWindows::ERROR_PARTITION_FAILURE),
            1106 => Some(WinErrorWindows::ERROR_INVALID_BLOCK_LENGTH),
            1107 => Some(WinErrorWindows::ERROR_DEVICE_NOT_PARTITIONED),
            1108 => Some(WinErrorWindows::ERROR_UNABLE_TO_LOCK_MEDIA),
            1109 => Some(WinErrorWindows::ERROR_UNABLE_TO_UNLOAD_MEDIA),
            1110 => Some(WinErrorWindows::ERROR_MEDIA_CHANGED),
            1111 => Some(WinErrorWindows::ERROR_BUS_RESET),
            1112 => Some(WinErrorWindows::ERROR_NO_MEDIA_IN_DRIVE),
            1113 => Some(WinErrorWindows::ERROR_NO_UNICODE_TRANSLATION),
            1114 => Some(WinErrorWindows::ERROR_DLL_INIT_FAILED),
            1115 => Some(WinErrorWindows::ERROR_SHUTDOWN_IN_PROGRESS),
            1116 => Some(WinErrorWindows::ERROR_NO_SHUTDOWN_IN_PROGRESS),
            1117 => Some(WinErrorWindows::ERROR_IO_DEVICE),
            1118 => Some(WinErrorWindows::ERROR_SERIAL_NO_DEVICE),
            1119 => Some(WinErrorWindows::ERROR_IRQ_BUSY),
            1120 => Some(WinErrorWindows::ERROR_MORE_WRITES),
            1121 => Some(WinErrorWindows::ERROR_COUNTER_TIMEOUT),
            1122 => Some(WinErrorWindows::ERROR_FLOPPY_ID_MARK_NOT_FOUND),
            1123 => Some(WinErrorWindows::ERROR_FLOPPY_WRONG_CYLINDER),
            1124 => Some(WinErrorWindows::ERROR_FLOPPY_UNKNOWN_ERROR),
            1125 => Some(WinErrorWindows::ERROR_FLOPPY_BAD_REGISTERS),
            1126 => Some(WinErrorWindows::ERROR_DISK_RECALIBRATE_FAILED),
            1127 => Some(WinErrorWindows::ERROR_DISK_OPERATION_FAILED),
            1128 => Some(WinErrorWindows::ERROR_DISK_RESET_FAILED),
            1129 => Some(WinErrorWindows::ERROR_EOM_OVERFLOW),
            1130 => Some(WinErrorWindows::ERROR_NOT_ENOUGH_SERVER_MEMORY),
            1131 => Some(WinErrorWindows::ERROR_POSSIBLE_DEADLOCK),
            1132 => Some(WinErrorWindows::ERROR_MAPPED_ALIGNMENT),
            1140 => Some(WinErrorWindows::ERROR_SET_POWER_STATE_VETOED),
            1141 => Some(WinErrorWindows::ERROR_SET_POWER_STATE_FAILED),
            1142 => Some(WinErrorWindows::ERROR_TOO_MANY_LINKS),
            1150 => Some(WinErrorWindows::ERROR_OLD_WIN_VERSION),
            1151 => Some(WinErrorWindows::ERROR_APP_WRONG_OS),
            1152 => Some(WinErrorWindows::ERROR_SINGLE_INSTANCE_APP),
            1153 => Some(WinErrorWindows::ERROR_RMODE_APP),
            1154 => Some(WinErrorWindows::ERROR_INVALID_DLL),
            1155 => Some(WinErrorWindows::ERROR_NO_ASSOCIATION),
            1156 => Some(WinErrorWindows::ERROR_DDE_FAIL),
            1157 => Some(WinErrorWindows::ERROR_DLL_NOT_FOUND),
            1158 => Some(WinErrorWindows::ERROR_NO_MORE_USER_HANDLES),
            1159 => Some(WinErrorWindows::ERROR_MESSAGE_SYNC_ONLY),
            1160 => Some(WinErrorWindows::ERROR_SOURCE_ELEMENT_EMPTY),
            1161 => Some(WinErrorWindows::ERROR_DESTINATION_ELEMENT_FULL),
            1162 => Some(WinErrorWindows::ERROR_ILLEGAL_ELEMENT_ADDRESS),
            1163 => Some(WinErrorWindows::ERROR_MAGAZINE_NOT_PRESENT),
            1164 => Some(WinErrorWindows::ERROR_DEVICE_REINITIALIZATION_NEEDED),
            1165 => Some(WinErrorWindows::ERROR_DEVICE_REQUIRES_CLEANING),
            1166 => Some(WinErrorWindows::ERROR_DEVICE_DOOR_OPEN),
            1167 => Some(WinErrorWindows::ERROR_DEVICE_NOT_CONNECTED),
            1168 => Some(WinErrorWindows::ERROR_NOT_FOUND),
            _ => None,
        }
    }

    /// One slice of the symbol table.
    #[verifier::spinoff_prover]
    #[verifier::rlimit(100)]
    fn to_u32_part14(self) -> (r: Option<u32>)
        ensures
            r == self.spec_to_u32_part14(),
    {
        match self {
            WinErrorWindows::ERROR_PARTITION_FAILURE => Some(1105),
            WinErrorWindows::ERROR_INVALID_BLOCK_LENGTH => Some(1106),
            WinErrorWindows::ERROR_DEVICE_NOT_PARTITIONED => Some(1107),
            WinErrorWindows::ERROR_UNABLE_TO_LOCK_MEDIA => Some(1108),
            WinErrorWindows::ERROR_UNABLE_TO_UNLOAD_MEDIA => Some(1109),
            WinErrorWindows::ERROR_MEDIA_CHANGED => Some(1110),
            WinErrorWindows::ERROR_BUS_RESET => Some(1111),
            WinErrorWindows::ERROR_NO_MEDIA_IN_DRIVE => Some(1112),
            WinErrorWindows::ERROR_NO_UNICODE_TRANSLATION => Some(1113),
            WinErrorWindows::ERROR_DLL_INIT_FAILED => Some(1114),
            WinErrorWindows::ERROR_SHUTDOWN_IN_PROGRESS => Some(1115),
            WinErrorWindows::ERROR_NO_SHUTDOWN_IN_PROGRESS => Some(1116),
            WinErrorWindows::ERROR_IO_DEVICE => Some(1117),
            WinErrorWindows::ERROR_SERIAL_NO_DEVICE => Some(1118),
            WinErrorWindows::ERROR_IRQ_BUSY => Some(1119),
            WinErrorWindows::ERROR_MORE_WRITES => Some(1120),
            WinErrorWindows::ERROR_COUNTER_TIMEOUT => Some(1121),
            WinErrorWindows::ERROR_FLOPPY_ID_MARK_NOT_FOUND => Some(1122),
            WinErrorWindows::ERROR_FLOPPY_WRONG_CYLINDER => Some(1123),
            WinErrorWindows::ERROR_FLOPPY_UNKNOWN_ERROR => Some(1124),
            WinErrorWindows::ERROR_FLOPPY_BAD_REGISTERS => Some(1125),
            WinErrorWindows::ERROR_DISK_RECALIBRATE_FAILED => Some(1126),
            WinErrorWindows::ERROR_DISK_OPERATION_FAILED => Some(1127),
            WinErrorWindows::ERROR_DISK_RESET_FAILED => Some(1128),
            WinErrorWindows::ERROR_EOM_OVERFLOW => Some(1129),
            WinErrorWindows::ERROR_NOT_ENOUGH_SERVER_MEMORY => Some(1130),
            WinErrorWindows::ERROR_POSSIBLE_DEADLOCK => Some(1131),
            WinErrorWindows::ERROR_MAPPED_ALIGNMENT => Some(1132),
            WinErrorWindows::ERROR_SET_POWER_STATE_VETOED => Some(1140),
            WinErrorWindows::ERROR_SET_POWER_STATE_FAILED => Some(1141),
            WinErrorWindows::ERROR_TOO_MANY_LINKS => Some(1142),
            WinErrorWindows::ERROR_OLD_WIN_VERSION => Some(1150),
            WinErrorWindows::ERROR_APP_WRONG_OS => Some(1151),
            WinErrorWindows::ERROR_SINGLE_INSTANCE_APP => Some(1152),
            WinErrorWindows::ERROR_RMODE_APP => Some(1153),
            WinErrorWindows::ERROR_INVALID_DLL => Some(1154),
            WinErrorWindows::ERROR_NO_ASSOCIATION => Some(1155),
            WinErrorWindows::ERROR_DDE_FAIL => Some(1156),
            WinErrorWindows::ERROR_DLL_NOT_FOUND => Some(1157),
            WinErrorWindows::ERROR_NO_MORE_USER_HANDLES => Some(1158),
            WinErrorWindows::ERROR_MESSAGE_SYNC_ONLY => Some(1159),
            WinErrorWindows::ERROR_SOURCE_ELEMENT_EMPTY => Some(1160),
            WinErrorWindows::ERROR_DESTINATION_ELEMENT_FULL => Some(1161),
            WinErrorWindows::ERROR_ILLEGAL_ELEMENT_ADDRESS => Some(1162),
            WinErrorWindows::ERROR_MAGAZINE_NOT_PRESENT => Some(1163),
            WinErrorWindows::ERROR_DEVICE_REINITIALIZATION_NEEDED => Some(1164),
            WinErrorWindows::ERROR_DEVICE_REQUIRES_CLEANING => Some(1165),
            WinErrorWindows::ERROR_DEVICE_DOOR_OPEN => Some(1166),
            WinErrorWindows::ERROR_DEVICE_NOT_CONNECTED => Some(1167),
            WinErrorWindows::ERROR_NOT_FOUND => Some(1168),
            _ => None,
        }
    }

    /// One slice of the symbol table.
    #[verifier::spinoff_prover]
    #[verifier::rlimit(100)]
    fn from_u32_part14(raw: u32) -> (r: Option<WinErrorWindows>)
        ensures
            r == WinErrorWindows::spec_from_u32_part14(raw),
    {
        match raw {
            1105 => Some(WinErrorWindows::ERROR_PARTITION_FAILURE),
            1106 => Some(WinErrorWindows::ERROR_INVALID_BLOCK_LENGTH),
            1107 => Some(WinErrorWindows::ERROR_DEVICE_NOT_PARTITIONED),
            1108 => Some(WinErrorWindows::ERROR_UNABLE_TO_LOCK_MEDIA),
            1109 => Some(WinErrorWindows::ERROR_UNABLE_TO_UNLOAD_MEDIA),
            1110 => Some(WinErrorWindows::ERROR_MEDIA_CHANGED),
            1111 => Some(WinErrorWindows::ERROR_BUS_RESET),
            1112 => Some(WinErrorWindows::ERROR_NO_MEDIA_IN_DRIVE),
            1113 => Some(WinErrorWindows::ERROR_NO_UNICODE_TRANSLATION),
            1114 => Some(WinErrorWindows::ERROR_DLL_INIT_FAILED),
            1115 => Some(WinErrorWindows::ERROR_SHUTDOWN_IN_PROGRESS),
            1116 => Some(WinErrorWindows::ERROR_NO_SHUTDOWN_IN_PROGRESS),
            1117 => Some(WinErrorWindows::ERROR_IO_DEVICE),
            1118 => Some(WinErrorWindows::ERROR_SERIAL_NO_DEVICE),
            1119 => Some(WinErrorWindows::ERROR_IRQ_BUSY),
            1120 => Some(WinErrorWindows::ERROR_MORE_WRITES),
            1121 => Some(WinErrorWindows::ERROR_COUNTER_TIMEOUT),
            1122 => Some(WinErrorWindows::ERROR_FLOPPY_ID_MARK_NOT_FOUND),
            1123 => Some(WinErrorWindows::ERROR_FLOPPY_WRONG_CYLINDER),
            1124 => Some(WinErrorWindows::ERROR_FLOPPY_UNKNOWN_ERROR),
            1125 => Some(WinErrorWindows::ERROR_FLOPPY_BAD_REGISTERS),
            1126 => Some(WinErrorWindows::ERROR_DISK_RECALIBRATE_FAILED),
            1127 => Some(WinErrorWindows::ERROR_DISK_OPERATION_FAILED),
            1128 => Some(WinErrorWindows::ERROR_DISK_RESET_FAILED),
            1129 => Some(WinErrorWindows::ERROR_EOM_OVERFLOW),
            1130 => Some(WinErrorWindows::ERROR_NOT_ENOUGH_SERVER_MEMORY),
            1131 => Some(WinErrorWindows::ERROR_POSSIBLE_DEADLOCK),
            1132 => Some(WinErrorWindows::ERROR_MAPPED_ALIGNMENT),
            1140 => Some(WinErrorWindows::ERROR_SET_POWER_STATE_VETOED),
            1141 => Some(WinErrorWindows::ERROR_SET_POWER_STATE_FAILED),
            1142 => Some(WinErrorWindows::ERROR_TOO_MANY_LINKS),
            1150 => Some(WinErrorWindows::ERROR_OLD_WIN_VERSION),
            1151 => Some(WinErrorWindows::ERROR_APP_WRONG_OS),
            1152 => Some(WinErrorWindows::ERROR_SINGLE_INSTANCE_APP),
            1153 => Some(WinErrorWindows::ERROR_RMODE_APP),
            1154 => Some(WinErrorWindows::ERROR_INVALID_DLL),
            1155 => Some(WinErrorWindows::ERROR_NO_ASSOCIATION),
            1156 => Some(WinErrorWindows::ERROR_DDE_FAIL),
            1157 => Some(WinErrorWindows::ERROR_DLL_NOT_FOUND),
            1158 => Some(WinErrorWindows::ERROR_NO_MORE_USER_HANDLES),
            1159 => Some(WinErrorWindows::ERROR_MESSAGE_SYNC_ONLY),
            1160 => Some(WinErrorWindows::ERROR_SOURCE_ELEMENT_EMPTY),
            1161 => Some(WinErrorWindows::ERROR_DESTINATION_ELEMENT_FULL),
            1162 => Some(WinErrorWindows::ERROR_ILLEGAL_ELEMENT_ADDRESS),
            1163 => Some(WinErrorWindows::ERROR_MAGAZINE_NOT_PRESENT),
            1164 => Some(WinErrorWindows::ERROR_DEVICE_REINITIALIZATION_NEEDED),
            1165 => Some(WinErrorWindows::ERROR_DEVICE_REQUIRES_CLEANING),
            1166 => Some(WinErrorWindows::ERROR_DEVICE_DOOR_OPEN),
            1167 => Some(WinErrorWindows::ERROR_DEVICE_NOT_CONNECTED),
            1168 => Some(WinErrorWindows::ERROR_NOT_FOUND),
            _ => None,
        }
    }

    /// One slice of the symbol table: the raw value of this symbol,
    /// where this slice holds it.
    pub open spec fn spec_to_u32_part15(self) -> Option<u32> {
        match self {
            WinErrorWindows::ERROR_NO_MATCH => Some(1169),
            WinErrorWindows::ERROR_SET_NOT_FOUND => Some(1170),
            WinErrorWindows::ERROR_POINT_NOT_FOUND => Some(1171),
            WinErrorWindows::ERROR_NO_TRACKING_SERVICE => Some(1172),
            WinErrorWindows::ERROR_NO_VOLUME_ID => Some(1173),
            WinErrorWindows::ERROR_UNABLE_TO_REMOVE_REPLACED => Some(1175),
            WinErrorWindows::ERROR_UNABLE_TO_MOVE_REPLACEMENT => Some(1176),
            WinErrorWindows::ERROR_UNABLE_TO_MOVE_REPLACEMENT_2 => Some(1177),
            WinErrorWindows::ERROR_JOURNAL_DELETE_IN_PROGRESS => Some(1178),
            WinErrorWindows::ERROR_JOURNAL_NOT_ACTIVE => Some(1179),
            WinErrorWindows::ERROR_POTENTIAL_FILE_FOUND => Some(1180),
            WinErrorWindows::ERROR_JOURNAL_ENTRY_DELETED => Some(1181),
            WinErrorWindows::ERROR_VRF_CFG_AND_IO_ENABLED => Some(1183),
            WinErrorWindows::ERROR_PARTITION_TERMINATING => Some(1184),
            WinErrorWindows::ERROR_SHUTDOWN_IS_SCHEDULED => Some(1190),
            WinErrorWindows::ERROR_SHUTDOWN_USERS_LOGGED_ON => Some(1191),
            WinErrorWindows::ERROR_BAD_DEVICE => Some(1200),
            WinErrorWindows::ERROR_CONNECTION_UNAVAIL => Some(1201),
            WinErrorWindows::ERROR_DEVICE_ALREADY_REMEMBERED => Some(1202),
            WinErrorWindows::ERROR_NO_NET_OR_BAD_PATH => Some(1203),
            WinErrorWindows::ERROR_BAD_PROVIDER => Some(1204),
            WinErrorWindows::ERROR_CANNOT_OPEN_PROFILE => Some(1205),
            WinErrorWindows::ERROR_BAD_PROFILE => Some(1206),
            WinErrorWindows::ERROR_NOT_CONTAINER => Some(1207),
            WinErrorWindows::ERROR_EXTENDED_ERROR => Some(1208),
            WinErrorWindows::ERROR_INVALID_GROUPNAME => Some(1209),
            WinErrorWindows::ERROR_INVALID_COMPUTERNAME => Some(1210),
            WinErrorWindows::ERROR_INVALID_EVENTNAME => Some(1211),
            WinErrorWindows::ERROR_INVALID_DOMAINNAME => Some(1212),
            WinErrorWindows::ERROR_INVALID_SERVICENAME => Some(1213),
            WinErrorWindows::ERROR_INVALID_NETNAME => Some(1214),
            WinErrorWindows::ERROR_INVALID_SHARENAME => Some(1215),
            WinErrorWindows::ERROR_INVALID_PASSWORDNAME => Some(1216),
            WinErrorWindows::ERROR_INVALID_MESSAGENAME => Some(1217),
            WinErrorWindows::ERROR_INVALID_MESSAGEDEST => Some(1218),
            WinErrorWindows::ERROR_SESSION_CREDENTIAL_CONFLICT => Some(1219),
            WinErrorWindows::ERROR_REMOTE_SESSION_LIMIT_EXCEEDED => Some(1220),
            WinErrorWindows::ERROR_DUP_DOMAINNAME => Some(1221),
            WinErrorWindows::ERROR_NO_NETWORK => Some(1222),
            WinErrorWindows::ERROR_CANCELLED => Some(1223),
            WinErrorWindows::ERROR_USER_MAPPED_FILE => Some(1224),
            WinErrorWindows::ERROR_CONNECTION_REFUSED => Some(1225),
            WinErrorWindows::ERROR_GRACEFUL_DISCONNECT => Some(1226),
            WinErrorWindows::ERROR_ADDRESS_ALREADY_ASSOCIATED => Some(1227),
            WinErrorWindows::ERROR_ADDRESS_NOT_ASSOCIATED => Some(1228),
            WinErrorWindows::ERROR_CONNECTION_INVALID => Some(1229),
            WinErrorWindows::ERROR_CONNECTION_ACTIVE => Some(1230),
            WinErrorWindows::ERROR_NETWORK_UNREACHABLE => Some(1231),
            WinErrorWindows::ERROR_HOST_UNREACHABLE => Some(1232),
            WinErrorWindows::ERROR_PROTOCOL_UNREACHABLE => Some(1233),
            _ => None,
        }
    }

    /// One slice of the symbol table: the symbol this slice gives a
    /// raw value, where it holds one.
    pub open spec fn spec_from_u32_part15(raw: u32) -> Option<WinErrorWindows> {
        match raw {
            1169 => Some(WinErrorWindows::ERROR_NO_MATCH),
            1170 => Some(WinErrorWindows::ERROR_SET_NOT_FOUND),
            1171 => Some(WinErrorWindows::ERROR_POINT_NOT_FOUND),
            1172 => Some(WinErrorWindows::ERROR_NO_TRACKING_SERVICE),
            1173 => Some(WinErrorWindows::ERROR_NO_VOLUME_ID),
            1175 => Some(WinErrorWindows::ERROR_UNABLE_TO_REMOVE_REPLACED),
            1176 => Some(WinErrorWindows::ERROR_UNABLE_TO_MOVE_REPLACEMENT),
            1177 => Some(WinErrorWindows::ERROR_UNABLE_TO_MOVE_REPLACEMENT_2),
            1178 => Some(WinErrorWindows::ERROR_JOURNAL_DELETE_IN_PROGRESS),
            1179 => Some(WinErrorWindows::ERROR_JOURNAL_NOT_ACTIVE),
            1180 => Some(WinErrorWindows::ERROR_POTENTIAL_FILE_FOUND),
            1181 => Some(WinErrorWindows::ERROR_JOURNAL_ENTRY_DELETED),
            1183 => Some(WinErrorWindows::ERROR_VRF_CFG_AND_IO_ENABLED),
            1184 => Some(WinErrorWindows::ERROR_PARTITION_TERMINATING),
            1190 => Some(WinErrorWindows::ERROR_SHUTDOWN_IS_SCHEDULED),
            1191 => Some(WinErrorWindows::ERROR_SHUTDOWN_USERS_LOGGED_ON),
            1200 => Some(WinErrorWindows::ERROR_BAD_DEVICE),
            1201 => Some(WinErrorWindows::ERROR_CONNECTION_UNAVAIL),
            1202 => Some(WinErrorWindows::ERROR_DEVICE_ALREADY_REMEMBERED),
            1203 => Some(WinErrorWindows::ERROR_NO_NET_OR_BAD_PATH),
            1204 => Some(WinErrorWindows::ERROR_BAD_PROVIDER),
            1205 => Some(WinErrorWindows::ERROR_CANNOT_OPEN_PROFILE),
            1206 => Some(WinErrorWindows::ERROR_BAD_PROFILE),
            1207 => Some(WinErrorWindows::ERROR_NOT_CONTAINER),
            1208 => Some(WinErrorWindows::ERROR_EXTENDED_ERROR),
            1209 => Some(WinErrorWindows::ERROR_INVALID_GROUPNAME),
            1210 => Some(WinErrorWindows::ERROR_INVALID_COMPUTERNAME),
            1211 => Some(WinErrorWindows::ERROR_INVALID_EVENTNAME),
            1212 => Some(WinErrorWindows::ERROR_INVALID_DOMAINNAME),
            1213 => Some(WinErrorWindows::ERROR_INVALID_SERVICENAME),
            1214 => Some(WinErrorWindows::ERROR_INVALID_NETNAME),
            1215 => Some(WinErrorWindows::ERROR_INVALID_SHARENAME),
            1216 => Some(WinErrorWindows::ERROR_INVALID_PASSWORDNAME),
            1217 => Some(WinErrorWindows::ERROR_INVALID_MESSAGENAME),
            1218 => Some(WinErrorWindows::ERROR_INVALID_MESSAGEDEST),
            1219 => Some(WinErrorWindows::ERROR_SESSION_CREDENTIAL_CONFLICT),
            1220 => Some(WinErrorWindows::ERROR_REMOTE_SESSION_LIMIT_EXCEEDED),
            1221 => Some(WinErrorWindows::ERROR_DUP_DOMAINNAME),
            1222 => Some(WinErrorWindows::ERROR_NO_NETWORK),
            1223 => Some(WinErrorWindows::ERROR_CANCELLED),
            1224 => Some(WinErrorWindows::ERROR_USER_MAPPED_FILE),
            1225 => Some(WinErrorWindows::ERROR_CONNECTION_REFUSED),
            1226 => Some(WinErrorWindows::ERROR_GRACEFUL_DISCONNECT),
            1227 => Some(WinErrorWindows::ERROR_ADDRESS_ALREADY_ASSOCIATED),
            1228 => Some(WinErrorWindows::ERROR_ADDRESS_NOT_ASSOCIATED),
            1229 => Some(WinErrorWindows::ERROR_CONNECTION_INVALID),
            1230 => Some(WinErrorWindows::ERROR_CONNECTION_ACTIVE),
            1231 => Some(WinErrorWindows::ERROR_NETWORK_UNREACHABLE),
            1232 => Some(WinErrorWindows::ERROR_HOST_UNREACHABLE),
            1233 => Some(WinErrorWindows::ERROR_PROTOCOL_UNREACHABLE),
            _ => None,
        }
    }

    /// One slice of the symbol table.
    #[verifier::spinoff_prover]
    #[verifier::rlimit(100)]
    fn to_u32_part15(self) -> (r: Option<u32>)
        ensures
            r == self.spec_to_u32_part15(),
    {
        match self {
            WinErrorWindows::ERROR_NO_MATCH => Some(1169),
            WinErrorWindows::ERROR_SET_NOT_FOUND => Some(1170),
            WinErrorWindows::ERROR_POINT_NOT_FOUND => Some(1171),
            WinErrorWindows::ERROR_NO_TRACKING_SERVICE => Some(1172),
            WinErrorWindows::ERROR_NO_VOLUME_ID => Some(1173),
            WinErrorWindows::ERROR_UNABLE_TO_REMOVE_REPLACED => Some(1175),
            WinErrorWindows::ERROR_UNABLE_TO_MOVE_REPLACEMENT => Some(1176),
            WinErrorWindows::ERROR_UNABLE_TO_MOVE_REPLACEMENT_2 => Some(1177),
            WinErrorWindows::ERROR_JOURNAL_DELETE_IN_PROGRESS => Some(1178),
            WinErrorWindows::ERROR_JOURNAL_NOT_ACTIVE => Some(1179),
            WinErrorWindows::ERROR_POTENTIAL_FILE_FOUND => Some(1180),
            WinErrorWindows::ERROR_JOURNAL_ENTRY_DELETED => Some(1181),
            WinErrorWindows::ERROR_VRF_CFG_AND_IO_ENABLED => Some(1183),
            WinErrorWindows::ERROR_PARTITION_TERMINATING => Some(1184),
            WinErrorWindows::ERROR_SHUTDOWN_IS_SCHEDULED => Some(1190),
            WinErrorWindows::ERROR_SHUTDOWN_USERS_LOGGED_ON => Some(1191),
            WinErrorWindows::ERROR_BAD_DEVICE => Some(1200),
            WinErrorWindows::ERROR_CONNECTION_UNAVAIL => Some(1201),
            WinErrorWindows::ERROR_DEVICE_ALREADY_REMEMBERED => Some(1202),
            WinErrorWindows::ERROR_NO_NET_OR_BAD_PATH => Some(1203),
            WinErrorWindows::ERROR_BAD_PROVIDER => Some(1204),
            WinErrorWindows::ERROR_CANNOT_OPEN_PROFILE => Some(1205),
            WinErrorWindows::ERROR_BAD_PROFILE => Some(1206),
            WinErrorWindows::ERROR_NOT_CONTAINER => Some(1207),
            WinErrorWindows::ERROR_EXTENDED_ERROR => Some(1208),
            WinErrorWindows::ERROR_INVALID_GROUPNAME => Some(1209),
            WinErrorWindows::ERROR_INVALID_COMPUTERNAME => Some(1210),
            WinErrorWindows::ERROR_INVALID_EVENTNAME => Some(1211),
            WinErrorWindows::ERROR_INVALID_DOMAINNAME => Some(1212),
            WinErrorWindows::ERROR_INVALID_SERVICENAME => Some(1213),
            WinErrorWindows::ERROR_INVALID_NETNAME => Some(1214),
            WinErrorWindows::ERROR_INVALID_SHARENAME => Some(1215),
            WinErrorWindows::ERROR_INVALID_PASSWORDNAME => Some(1216),
            WinErrorWindows::ERROR_INVALID_MESSAGENAME => Some(1217),
            WinErrorWindows::ERROR_INVALID_MESSAGEDEST => Some(1218),
            WinErrorWindows::ERROR_SESSION_CREDENTIAL_CONFLICT => Some(1219),
            WinErrorWindows::ERROR_REMOTE_SESSION_LIMIT_EXCEEDED => Some(1220),
            WinErrorWindows::ERROR_DUP_DOMAINNAME => Some(1221),
            WinErrorWindows::ERROR_NO_NETWORK => Some(1222),
            WinErrorWindows::ERROR_CANCELLED => Some(1223),
            WinErrorWindows::ERROR_USER_MAPPED_FILE => Some(1224),
            WinErrorWindows::ERROR_CONNECTION_REFUSED => Some(1225),
            WinErrorWindows::ERROR_GRACEFUL_DISCONNECT => Some(1226),
            WinErrorWindows::ERROR_ADDRESS_ALREADY_ASSOCIATED => Some(1227),
            WinErrorWindows::ERROR_ADDRESS_NOT_ASSOCIATED => Some(1228),
            WinErrorWindows::ERROR_CONNECTION_INVALID => Some(1229),
            WinErrorWindows::ERROR_CONNECTION_ACTIVE => Some(1230),
            WinErrorWindows::ERROR_NETWORK_UNREACHABLE => Some(1231),
            WinErrorWindows::ERROR_HOST_UNREACHABLE => Some(1232),
            WinErrorWindows::ERROR_PROTOCOL_UNREACHABLE => Some(1233),
            _ => None,
        }
    }

    /// One slice of the symbol table.
    #[verifier::spinoff_prover]
    #[verifier::rlimit(100)]
    fn from_u32_part15(raw: u32) -> (r: Option<WinErrorWindows>)
        ensures
            r == WinErrorWindows::spec_from_u32_part15(raw),
    {
        match raw {
            1169 => Some(WinErrorWindows::ERROR_NO_MATCH),
            1170 => Some(WinErrorWindows::ERROR_SET_NOT_FOUND),
            1171 => Some(WinErrorWindows::ERROR_POINT_NOT_FOUND),
            1172 => Some(WinErrorWindows::ERROR_NO_TRACKING_SERVICE),
            1173 => Some(WinErrorWindows::ERROR_NO_VOLUME_ID),
            1175 => Some(WinErrorWindows::ERROR_UNABLE_TO_REMOVE_REPLACED),
            1176 => Some(WinErrorWindows::ERROR_UNABLE_TO_MOVE_REPLACEMENT),
            1177 => Some(WinErrorWindows::ERROR_UNABLE_TO_MOVE_REPLACEMENT_2),
            1178 => Some(WinErrorWindows::ERROR_JOURNAL_DELETE_IN_PROGRESS),
            1179 => Some(WinErrorWindows::ERROR_JOURNAL_NOT_ACTIVE),
            1180 => Some(WinErrorWindows::ERROR_POTENTIAL_FILE_FOUND),
            1181 => Some(WinErrorWindows::ERROR_JOURNAL_ENTRY_DELETED),
            1183 => Some(WinErrorWindows::ERROR_VRF_CFG_AND_IO_ENABLED),
            1184 => Some(WinErrorWindows::ERROR_PARTITION_TERMINATING),
            1190 => Some(WinErrorWindows::ERROR_SHUTDOWN_IS_SCHEDULED),
            1191 => Some(WinErrorWindows::ERROR_SHUTDOWN_USERS_LOGGED_ON),
            1200 => Some(WinErrorWindows::ERROR_BAD_DEVICE),
            1201 => Some(WinErrorWindows::ERROR_CONNECTION_UNAVAIL),
            1202 => Some(WinErrorWindows::ERROR_DEVICE_ALREADY_REMEMBERED),
            1203 => Some(WinErrorWindows::ERROR_NO_NET_OR_BAD_PATH),
            1204 => Some(WinErrorWindows::ERROR_BAD_PROVIDER),
            1205 => Some(WinErrorWindows::ERROR_CANNOT_OPEN_PROFILE),
            1206 => Some(WinErrorWindows::ERROR_BAD_PROFILE),
            1207 => Some(WinErrorWindows::ERROR_NOT_CONTAINER),
            1208 => Some(WinErrorWindows::ERROR_EXTENDED_ERROR),
            1209 => Some(WinErrorWindows::ERROR_INVALID_GROUPNAME),
            1210 => Some(WinErrorWindows::ERROR_INVALID_COMPUTERNAME),
            1211 => Some(WinErrorWindows::ERROR_INVALID_EVENTNAME),
            1212 => Some(WinErrorWindows::ERROR_INVALID_DOMAINNAME),
            1213 => Some(WinErrorWindows::ERROR_INVALID_SERVICENAME),
            1214 => Some(WinErrorWindows::ERROR_INVALID_NETNAME),
            1215 => Some(WinErrorWindows::ERROR_INVALID_SHARENAME),
            1216 => Some(WinErrorWindows::ERROR_INVALID_PASSWORDNAME),
            1217 => Some(WinErrorWindows::ERROR_INVALID_MESSAGENAME),
            1218 => Some(WinErrorWindows::ERROR_INVALID_MESSAGEDEST),
            1219 => Some(WinErrorWindows::ERROR_SESSION_CREDENTIAL_CONFLICT),
            1220 => Some(WinErrorWindows::ERROR_REMOTE_SESSION_LIMIT_EXCEEDED),
            1221 => Some(WinErrorWindows::ERROR_DUP_DOMAINNAME),
            1222 => Some(WinErrorWindows::ERROR_NO_NETWORK),
            1223 => Some(WinErrorWindows::ERROR_CANCELLED),
            1224 => Some(WinErrorWindows::ERROR_USER_MAPPED_FILE),
            1225 => Some(WinErrorWindows::ERROR_CONNECTION_REFUSED),
            1226 => Some(WinErrorWindows::ERROR_GRACEFUL_DISCONNECT),
            1227 => Some(WinErrorWindows::ERROR_ADDRESS_ALREADY_ASSOCIATED),
            1228 => Some(WinErrorWindows::ERROR_ADDRESS_NOT_ASSOCIATED),
            1229 => Some(WinErrorWindows::ERROR_CONNECTION_INVALID),
            1230 => Some(WinErrorWindows::ERROR_CONNECTION_ACTIVE),
            1231 => Some(WinErrorWindows::ERROR_NETWORK_UNREACHABLE),
            1232 => Some(WinErrorWindows::ERROR_HOST_UNREACHABLE),
            1233 => Some(WinErrorWindows::ERROR_PROTOCOL_UNREACHABLE),
            _ => None,
        }
    }

    /// One slice of the symbol table: the raw value of this symbol,
    /// where this slice holds it.
    pub open spec fn spec_to_u32_part16(self) -> Option<u32> {
        match self {
            WinErrorWindows::ERROR_PORT_UNREACHABLE => Some(1234),
            WinErrorWindows::ERROR_REQUEST_ABORTED => Some(1235),
            WinErrorWindows::ERROR_CONNECTION_ABORTED => Some(1236),
            WinErrorWindows::ERROR_RETRY => Some(1237),
            WinErrorWindows::ERROR_CONNECTION_COUNT_LIMIT => Some(1238),
            WinErrorWindows::ERROR_LOGIN_TIME_RESTRICTION => Some(1239),
            WinErrorWindows::ERROR_LOGIN_WKSTA_RESTRICTION => Some(1240),
            WinErrorWindows::ERROR_INCORRECT_ADDRESS => Some(1241),
            WinErrorWindows::ERROR_ALREADY_REGISTERED => Some(1242),
            WinErrorWindows::ERROR_SERVICE_NOT_FOUND => Some(1243),
            WinErrorWindows::ERROR_NOT_AUTHENTICATED => Some(1244),
            WinErrorWindows::ERROR_NOT_LOGGED_ON => Some(1245),
            WinErrorWindows::ERROR_CONTINUE => Some(1246),
            WinErrorWindows::ERROR_ALREADY_INITIALIZED => Some(1247),
            WinErrorWindows::ERROR_NO_MORE_DEVICES => Some(1248),
            WinErrorWindows::ERROR_NO_SUCH_SITE => Some(1249),
            WinErrorWindows::ERROR_DOMAIN_CONTROLLER_EXISTS => Some(1250),
            WinErrorWindows::ERROR_ONLY_IF_CONNECTED => Some(1251),
            WinErrorWindows::ERROR_OVERRIDE_NOCHANGES => Some(1252),
            WinErrorWindows::ERROR_BAD_USER_PROFILE => Some(1253),
            WinErrorWindows::ERROR_NOT_SUPPORTED_ON_SBS => Some(1254),
            WinErrorWindows::ERROR_SERVER_SHUTDOWN_IN_PROGRESS => Some(1255),
            WinErrorWindows::ERROR_HOST_DOWN => Some(1256),
            WinErrorWindows::ERROR_NON_ACCOUNT_SID => Some(1257),
            WinErrorWindows::ERROR_NON_DOMAIN_SID => Some(1258),
            WinErrorWindows::ERROR_APPHELP_BLOCK => Some(1259),
            WinErrorWindows::ERROR_ACCESS_DISABLED_BY_POLICY => Some(1260),
            WinErrorWindows::ERROR_REG_NAT_CONSUMPTION => Some(1261),
            WinErrorWindows::ERROR_CSCSHARE_OFFLINE => Some(1262),
            WinErrorWindows::ERROR_PKINIT_FAILURE => Some(1263),
            WinErrorWindows::ERROR_SMARTCARD_SUBSYSTEM_FAILURE => Some(1264),
            WinErrorWindows::ERROR_DOWNGRADE_DETECTED => Some(1265),
            WinErrorWindows::ERROR_MACHINE_LOCKED => Some(1271),
            WinErrorWindows::ERROR_SMB_GUEST_LOGON_BLOCKED => Some(1272),
            WinErrorWindows::ERROR_CALLBACK_SUPPLIED_INVALID_DATA => Some(1273),
            WinErrorWindows::ERROR_SYNC_FOREGROUND_REFRESH_REQUIRED => Some(1274),
            WinErrorWindows::ERROR_DRIVER_BLOCKED => Some(1275),
            WinErrorWindows::ERROR_INVALID_IMPORT_OF_NON_DLL => Some(1276),
            WinErrorWindows::ERROR_ACCESS_DISABLED_WEBBLADE => Some(1277),
            WinErrorWindows::ERROR_ACCESS_DISABLED_WEBBLADE_TAMPER => Some(1278),
            WinErrorWindows::ERROR_RECOVERY_FAILURE => Some(1279),
            WinErrorWindows::ERROR_ALREADY_FIBER => Some(1280),
            WinErrorWindows::ERROR_ALREADY_THREAD => Some(1281),
            WinErrorWindows::ERROR_STACK_BUFFER_OVERRUN => Some(1282),
            WinErrorWindows::ERROR_PARAMETER_QUOTA_EXCEEDED => Some(1283),
            WinErrorWindows::ERROR_DEBUGGER_INACTIVE => Some(1284),
            WinErrorWindows::ERROR_DELAY_LOAD_FAILED => Some(1285),
            WinErrorWindows::ERROR_VDM_DISALLOWED => Some(1286),
            WinErrorWindows::ERROR_UNIDENTIFIED_ERROR => Some(1287),
            WinErrorWindows::ERROR_INVALID_CRUNTIME_PARAMETER => Some(1288),
            _ => None,
        }
    }

    /// One slice of the symbol table: the symbol this slice gives a
    /// raw value, where it holds one.
    pub open spec fn spec_from_u32_part16(raw: u32) -> Option<WinErrorWindows> {
        match raw {
            1234 => Some(WinErrorWindows::ERROR_PORT_UNREACHABLE),
            1235 => Some(WinErrorWindows::ERROR_REQUEST_ABORTED),
            1236 => Some(WinErrorWindows::ERROR_CONNECTION_ABORTED),
            1237 => Some(WinErrorWindows::ERROR_RETRY),
            1238 => Some(WinErrorWindows::ERROR_CONNECTION_COUNT_LIMIT),
            1239 => Some(WinErrorWindows::ERROR_LOGIN_TIME_RESTRICTION),
            1240 => Some(WinErrorWindows::ERROR_LOGIN_WKSTA_RESTRICTION),
            1241 => Some(WinErrorWindows::ERROR_INCORRECT_ADDRESS),
            1242 => Some(WinErrorWindows::ERROR_ALREADY_REGISTERED),
            1243 => Some(WinErrorWindows::ERROR_SERVICE_NOT_FOUND),
            1244 => Some(WinErrorWindows::ERROR_NOT_AUTHENTICATED),
            1245 => Some(WinErrorWindows::ERROR_NOT_LOGGED_ON),
            1246 => Some(WinErrorWindows::ERROR_CONTINUE),
            1247 => Some(WinErrorWindows::ERROR_ALREADY_INITIALIZED),
            1248 => Some(WinErrorWindows::ERROR_NO_MORE_DEVICES),
            1249 => Some(WinErrorWindows::ERROR_NO_SUCH_SITE),
            1250 => Some(WinErrorWindows::ERROR_DOMAIN_CONTROLLER_EXISTS),
            1251 => Some(WinErrorWindows::ERROR_ONLY_IF_CONNECTED),
            1252 => Some(WinErrorWindows::ERROR_OVERRIDE_NOCHANGES),
            1253 => Some(WinErrorWindows::ERROR_BAD_USER_PROFILE),
            1254 => Some(WinErrorWindows::ERROR_NOT_SUPPORTED_ON_SBS),
            1255 => Some(WinErrorWindows::ERROR_SERVER_SHUTDOWN_IN_PROGRESS),
            1256 => Some(WinErrorWindows::ERROR_HOST_DOWN),
            1257 => Some(WinErrorWindows::ERROR_NON_ACCOUNT_SID),
            1258 => Some(WinErrorWindows::ERROR_NON_DOMAIN_SID),
            1259 => Some(WinErrorWindows::ERROR_APPHELP_BLOCK),
            1260 => Some(WinErrorWindows::ERROR_ACCESS_DISABLED_BY_POLICY),
            1261 => Some(WinErrorWindows::ERROR_REG_NAT_CONSUMPTION),
            1262 => Some(WinErrorWindows::ERROR_CSCSHARE_OFFLINE),
            1263 => Some(WinErrorWindows::ERROR_PKINIT_FAILURE),
            1264 => Some(WinErrorWindows::ERROR_SMARTCARD_SUBSYSTEM_FAILURE),
            1265 => Some(WinErrorWindows::ERROR_DOWNGRADE_DETECTED),
            1271 => Some(WinErrorWindows::ERROR_MACHINE_LOCKED),
            1272 => Some(WinErrorWindows::ERROR_SMB_GUEST_LOGON_BLOCKED),
            1273 => Some(WinErrorWindows::ERROR_CALLBACK_SUPPLIED_INVALID_DATA),
            1274 => Some(WinErrorWindows::ERROR_SYNC_FOREGROUND_REFRESH_REQUIRED),
            1275 => Some(WinErrorWindows::ERROR_DRIVER_BLOCKED),
            1276 => Some(WinErrorWindows::ERROR_INVALID_IMPORT_OF_NON_DLL),
            1277 => Some(WinErrorWindows::ERROR_ACCESS_DISABLED_WEBBLADE),
            1278 => Some(WinErrorWindows::ERROR_ACCESS_DISABLED_WEBBLADE_TAMPER),
            1279 => Some(WinErrorWindows::ERROR_RECOVERY_FAILURE),
            1280 => Some(WinErrorWindows::ERROR_ALREADY_FIBER),
            1281 => Some(WinErrorWindows::ERROR_ALREADY_THREAD),
            1282 => Some(WinErrorWindows::ERROR_STACK_BUFFER_OVERRUN),
            1283 => Some(WinErrorWindows::ERROR_PARAMETER_QUOTA_EXCEEDED),
            1284 => Some(WinErrorWindows::ERROR_DEBUGGER_INACTIVE),
            1285 => Some(WinErrorWindows::ERROR_DELAY_LOAD_FAILED),
            1286 => Some(WinErrorWindows::ERROR_VDM_DISALLOWED),
            1287 => Some(WinErrorWindows::ERROR_UNIDENTIFIED_ERROR),
            1288 => Some(WinErrorWindows::ERROR_INVALID_CRUNTIME_PARAMETER),
            _ => None,
        }
    }

    /// One slice of the symbol table.
    #[verifier::spinoff_prover]
    #[verifier::rlimit(100)]
    fn to_u32_part16(self) -> (r: Option<u32>)
        ensures
            r == self.spec_to_u32_part16(),
    {
        match self {
            WinErrorWindows::ERROR_PORT_UNREACHABLE => Some(1234),
            WinErrorWindows::ERROR_REQUEST_ABORTED => Some(1235),
            WinErrorWindows::ERROR_CONNECTION_ABORTED => Some(1236),
            WinErrorWindows::ERROR_RETRY => Some(1237),
            WinErrorWindows::ERROR_CONNECTION_COUNT_LIMIT => Some(1238),
            WinErrorWindows::ERROR_LOGIN_TIME_RESTRICTION => Some(1239),
            WinErrorWindows::ERROR_LOGIN_WKSTA_RESTRICTION => Some(1240),
            WinErrorWindows::ERROR_INCORRECT_ADDRESS => Some(1241),
            WinErrorWindows::ERROR_ALREADY_REGISTERED => Some(1242),
            WinErrorWindows::ERROR_SERVICE_NOT_FOUND => Some(1243),
            WinErrorWindows::ERROR_NOT_AUTHENTICATED => Some(1244),
            WinErrorWindows::ERROR_NOT_LOGGED_ON => Some(1245),
            WinErrorWindows::ERROR_CONTINUE => Some(1246),
            WinErrorWindows::ERROR_ALREADY_INITIALIZED => Some(1247),
            WinErrorWindows::ERROR_NO_MORE_DEVICES => Some(1248),
            WinErrorWindows::ERROR_NO_SUCH_SITE => Some(1249),
            WinErrorWindows::ERROR_DOMAIN_CONTROLLER_EXISTS => Some(1250),
            WinErrorWindows::ERROR_ONLY_IF_CONNECTED => Some(1251),
            WinErrorWindows::ERROR_OVERRIDE_NOCHANGES => Some(1252),
            WinErrorWindows::ERROR_BAD_USER_PROFILE => Some(1253),
            WinErrorWindows::ERROR_NOT_SUPPORTED_ON_SBS => Some(1254),
            WinErrorWindows::ERROR_SERVER_SHUTDOWN_IN_PROGRESS => Some(1255),
            WinErrorWindows::ERROR_HOST_DOWN => Some(1256),
            WinErrorWindows::ERROR_NON_ACCOUNT_SID => Some(1257),
            WinErrorWindows::ERROR_NON_DOMAIN_SID => Some(1258),
            WinErrorWindows::ERROR_APPHELP_BLOCK => Some(1259),
            WinErrorWindows::ERROR_ACCESS_DISABLED_BY_POLICY => Some(1260),
            WinErrorWindows::ERROR_REG_NAT_CONSUMPTION => Some(1261),
            WinErrorWindows::ERROR_CSCSHARE_OFFLINE => Some(1262),
            WinErrorWindows::ERROR_PKINIT_FAILURE => Some(1263),
            WinErrorWindows::ERROR_SMARTCARD_SUBSYSTEM_FAILURE => Some(1264),
            WinErrorWindows::ERROR_DOWNGRADE_DETECTED => Some(1265),
            WinErrorWindows::ERROR_MACHINE_LOCKED => Some(1271),
            WinErrorWindows::ERROR_SMB_GUEST_LOGON_BLOCKED => Some(1272),
            WinErrorWindows::ERROR_CALLBACK_SUPPLIED_INVALID_DATA => Some(1273),
            WinErrorWindows::ERROR_SYNC_FOREGROUND_REFRESH_REQUIRED => Some(1274),
            WinErrorWindows::ERROR_DRIVER_BLOCKED => Some(1275),
            WinErrorWindows::ERROR_INVALID_IMPORT_OF_NON_DLL => Some(1276),
            WinErrorWindows::ERROR_ACCESS_DISABLED_WEBBLADE => Some(1277),
            WinErrorWindows::ERROR_ACCESS_DISABLED_WEBBLADE_TAMPER => Some(1278),
            WinErrorWindows::ERROR_RECOVERY_FAILURE => Some(1279),
            WinErrorWindows::ERROR_ALREADY_FIBER => Some(1280),
            WinErrorWindows::ERROR_ALREADY_THREAD => Some(1281),
            WinErrorWindows::ERROR_STACK_BUFFER_OVERRUN => Some(1282),
            WinErrorWindows::ERROR_PARAMETER_QUOTA_EXCEEDED => Some(1283),
            WinErrorWindows::ERROR_DEBUGGER_INACTIVE => Some(1284),
            WinErrorWindows::ERROR_DELAY_LOAD_FAILED => Some(1285),
            WinErrorWindows::ERROR_VDM_DISALLOWED => Some(1286),
            WinErrorWindows::ERROR_UNIDENTIFIED_ERROR => Some(1287),
            WinErrorWindows::ERROR_INVALID_CRUNTIME_PARAMETER => Some(1288),
            _ => None,
        }
    }

    /// One slice of the symbol table.
    #[verifier::spinoff_prover]
    #[verifier::rlimit(100)]
    fn from_u32_part16(raw: u32) -> (r: Option<WinErrorWindows>)
        ensures
            r == WinErrorWindows::spec_from_u32_part16(raw),
    {
        match raw {
            1234 => Some(WinErrorWindows::ERROR_PORT_UNREACHABLE),
            1235 => Some(WinErrorWindows::ERROR_REQUEST_ABORTED),
            1236 => Some(WinErrorWindows::ERROR_CONNECTION_ABORTED),
            1237 => Some(WinErrorWindows::ERROR_RETRY),
            1238 => Some(WinErrorWindows::ERROR_CONNECTION_COUNT_LIMIT),
            1239 => Some(WinErrorWindows::ERROR_LOGIN_TIME_RESTRICTION),
            1240 => Some(WinErrorWindows::ERROR_LOGIN_WKSTA_RESTRICTION),
            1241 => Some(WinErrorWindows::ERROR_INCORRECT_ADDRESS),
            1242 => Some(WinErrorWindows::ERROR_ALREADY_REGISTERED),
            1243 => Some(WinErrorWindows::ERROR_SERVICE_NOT_FOUND),
            1244 => Some(WinErrorWindows::ERROR_NOT_AUTHENTICATED),
            1245 => Some(WinErrorWindows::ERROR_NOT_LOGGED_ON),
            1246 => Some(WinErrorWindows::ERROR_CONTINUE),
            1247 => Some(WinErrorWindows::ERROR_ALREADY_INITIALIZED),
            1248 => Some(WinErrorWindows::ERROR_NO_MORE_DEVICES),
            1249 => Some(WinErrorWindows::ERROR_NO_SUCH_SITE),
            1250 => Some(WinErrorWindows::ERROR_DOMAIN_CONTROLLER_EXISTS),
            1251 => Some(WinErrorWindows::ERROR_ONLY_IF_CONNECTED),
            1252 => Some(WinErrorWindows::ERROR_OVERRIDE_NOCHANGES),
            1253 => Some(WinErrorWindows::ERROR_BAD_USER_PROFILE),
            1254 => Some(WinErrorWindows::ERROR_NOT_SUPPORTED_ON_SBS),
            1255 => Some(WinErrorWindows::ERROR_SERVER_SHUTDOWN_IN_PROGRESS),
            1256 => Some(WinErrorWindows::ERROR_HOST_DOWN),
            1257 => Some(WinErrorWindows::ERROR_NON_ACCOUNT_SID),
            1258 => Some(WinErrorWindows::ERROR_NON_DOMAIN_SID),
            1259 => Some(WinErrorWindows::ERROR_APPHELP_BLOCK),
            1260 => Some(WinErrorWindows::ERROR_ACCESS_DISABLED_BY_POLICY),
            1261 => Some(WinErrorWindows::ERROR_REG_NAT_CONSUMPTION),
            1262 => Some(WinErrorWindows::ERROR_CSCSHARE_OFFLINE),
            1263 => Some(WinErrorWindows::ERROR_PKINIT_FAILURE),
            1264 => Some(WinErrorWindows::ERROR_SMARTCARD_SUBSYSTEM_FAILURE),
            1265 => Some(WinErrorWindows::ERROR_DOWNGRADE_DETECTED),
            1271 => Some(WinErrorWindows::ERROR_MACHINE_LOCKED),
            1272 => Some(WinErrorWindows::ERROR_SMB_GUEST_LOGON_BLOCKED),
            1273 => Some(WinErrorWindows::ERROR_CALLBACK_SUPPLIED_INVALID_DATA),
            1274 => Some(WinErrorWindows::ERROR_SYNC_FOREGROUND_REFRESH_REQUIRED),
            1275 => Some(WinErrorWindows::ERROR_DRIVER_BLOCKED),
            1276 => Some(WinErrorWindows::ERROR_INVALID_IMPORT_OF_NON_DLL),
            1277 => Some(WinErrorWindows::ERROR_ACCESS_DISABLED_WEBBLADE),
            1278 => Some(WinErrorWindows::ERROR_ACCESS_DISABLED_WEBBLADE_TAMPER),
            1279 => Some(WinErrorWindows::ERROR_RECOVERY_FAILURE),
            1280 => Some(WinErrorWindows::ERROR_ALREADY_FIBER),
            1281 => Some(WinErrorWindows::ERROR_ALREADY_THREAD),
            1282 => Some(WinErrorWindows::ERROR_STACK_BUFFER_OVERRUN),
            1283 => Some(WinErrorWindows::ERROR_PARAMETER_QUOTA_EXCEEDED),
            1284 => Some(WinErrorWindows::ERROR_DEBUGGER_INACTIVE),
            1285 => Some(WinErrorWindows::ERROR_DELAY_LOAD_FAILED),
            1286 => Some(WinErrorWindows::ERROR_VDM_DISALLOWED),
            1287 => Some(WinErrorWindows::ERROR_UNIDENTIFIED_ERROR),
            1288 => Some(WinErrorWindows::ERROR_INVALID_CRUNTIME_PARAMETER),
            _ => None,
        }
    }

    /// One slice of the symbol table: the raw value of this symbol,
    /// where this slice holds it.
    pub open spec fn spec_to_u32_part17(self) -> Option<u32> {
        match self {
            WinErrorWindows::ERROR_BEYOND_VDL => Some(1289),
            WinErrorWindows::ERROR_INCOMPATIBLE_SERVICE_SID_TYPE => Some(1290),
            WinErrorWindows::ERROR_DRIVER_PROCESS_TERMINATED => Some(1291),
            WinErrorWindows::ERROR_IMPLEMENTATION_LIMIT => Some(1292),
            WinErrorWindows::ERROR_PROCESS_IS_PROTECTED => Some(1293),
            WinErrorWindows::ERROR_SERVICE_NOTIFY_CLIENT_LAGGING => Some(1294),
            WinErrorWindows::ERROR_DISK_QUOTA_EXCEEDED => Some(1295),
            WinErrorWindows::ERROR_CONTENT_BLOCKED => Some(1296),
            WinErrorWindows::ERROR_INCOMPATIBLE_SERVICE_PRIVILEGE => Some(1297),
            WinErrorWindows::ERROR_APP_HANG => Some(1298),
            WinErrorWindows::ERROR_INVALID_LABEL => Some(1299),
            WinErrorWindows::ERROR_NOT_ALL_ASSIGNED => Some(1300),
            WinErrorWindows::ERROR_SOME_NOT_MAPPED => Some(1301),
            WinErrorWindows::ERROR_NO_QUOTAS_FOR_ACCOUNT => Some(1302),
            WinErrorWindows::ERROR_LOCAL_USER_SESSION_KEY => Some(1303),
            WinErrorWindows::ERROR_NULL_LM_PASSWORD => Some(1304),
            WinErrorWindows::ERROR_UNKNOWN_REVISION => Some(1305),
            WinErrorWindows::ERROR_REVISION_MISMATCH => Some(1306),
            WinErrorWindows::ERROR_INVALID_OWNER => Some(1307),
            WinErrorWindows::ERROR_INVALID_PRIMARY_GROUP => Some(1308),
            WinErrorWindows::ERROR_NO_IMPERSONATION_TOKEN => Some(1309),
            WinErrorWindows::ERROR_CANT_DISABLE_MANDATORY => Some(1310),
            WinErrorWindows::ERROR_NO_LOGON_SERVERS => Some(1311),
            WinErrorWindows::ERROR_NO_SUCH_LOGON_SESSION => Some(1312),
            WinErrorWindows::ERROR_NO_SUCH_PRIVILEGE => Some(1313),
            WinErrorWindows::ERROR_PRIVILEGE_NOT_HELD => Some(1314),
            WinErrorWindows::ERROR_INVALID_ACCOUNT_NAME => Some(1315),
            WinErrorWindows::ERROR_USER_EXISTS => Some(1316),
            WinErrorWindows::ERROR_NO_SUCH_USER => Some(1317),
            WinErrorWindows::ERROR_GROUP_EXISTS => Some(1318),
            WinErrorWindows::ERROR_NO_SUCH_GROUP => Some(1319),
            WinErrorWindows::ERROR_MEMBER_IN_GROUP => Some(1320),
            WinErrorWindows::ERROR_MEMBER_NOT_IN_GROUP => Some(1321),
            WinErrorWindows::ERROR_LAST_ADMIN => Some(1322),
            WinErrorWindows::ERROR_WRONG_PASSWORD => Some(1323),
            WinErrorWindows::ERROR_ILL_FORMED_PASSWORD => Some(1324),
            WinErrorWindows::ERROR_PASSWORD_RESTRICTION => Some(1325),
            WinErrorWindows::ERROR_LOGON_FAILURE => Some(1326),
            WinErrorWindows::ERROR_ACCOUNT_RESTRICTION => Some(1327),
            WinErrorWindows::ERROR_INVALID_LOGON_HOURS => Some(1328),
            WinErrorWindows::ERROR_INVALID_WORKSTATION => Some(1329),
            WinErrorWindows::ERROR_PASSWORD_EXPIRED => Some(1330),
            WinErrorWindows::ERROR_ACCOUNT_DISABLED => Some(1331),
            WinErrorWindows::ERROR_NONE_MAPPED => Some(1332),
            WinErrorWindows::ERROR_TOO_MANY_LUIDS_REQUESTED => Some(1333),
            WinErrorWindows::ERROR_LUIDS_EXHAUSTED => Some(1334),
            WinErrorWindows::ERROR_INVALID_SUB_AUTHORITY => Some(1335),
            WinErrorWindows::ERROR_INVALID_ACL => Some(1336),
            WinErrorWindows::ERROR_INVALID_SID => Some(1337),
            WinErrorWindows::ERROR_INVALID_SECURITY_DESCR => Some(1338),
            _ => None,
        }
    }

    /// One slice of the symbol table: the symbol this slice gives a
    /// raw value, where it holds one.
    pub open spec fn spec_from_u32_part17(raw: u32) -> Option<WinErrorWindows> {
        match raw {
            1289 => Some(WinErrorWindows::ERROR_BEYOND_VDL),
            1290 => Some(WinErrorWindows::ERROR_INCOMPATIBLE_SERVICE_SID_TYPE),
            1291 => Some(WinErrorWindows::ERROR_DRIVER_PROCESS_TERMINATED),
            1292 => Some(WinErrorWindows::ERROR_IMPLEMENTATION_LIMIT),
            1293 => Some(WinErrorWindows::ERROR_PROCESS_IS_PROTECTED),
            1294 => Some(WinErrorWindows::ERROR_SERVICE_NOTIFY_CLIENT_LAGGING),
            1295 => Some(WinErrorWindows::ERROR_DISK_QUOTA_EXCEEDED),
            1296 => Some(WinErrorWindows::ERROR_CONTENT_BLOCKED),
            1297 => Some(WinErrorWindows::ERROR_INCOMPATIBLE_SERVICE_PRIVILEGE),
            1298 => Some(WinErrorWindows::ERROR_APP_HANG),
            1299 => Some(WinErrorWindows::ERROR_INVALID_LABEL),
            1300 => Some(WinErrorWindows::ERROR_NOT_ALL_ASSIGNED),
            1301 => Some(WinErrorWindows::ERROR_SOME_NOT_MAPPED),
            1302 => Some(WinErrorWindows::ERROR_NO_QUOTAS_FOR_ACCOUNT),
            1303 => Some(WinErrorWindows::ERROR_LOCAL_USER_SESSION_KEY),
            1304 => Some(WinErrorWindows::ERROR_NULL_LM_PASSWORD),
            1305 => Some(WinErrorWindows::ERROR_UNKNOWN_REVISION),
            1306 => Some(WinErrorWindows::ERROR_REVISION_MISMATCH),
            1307 => Some(WinErrorWindows::ERROR_INVALID_OWNER),
            1308 => Some(WinErrorWindows::ERROR_INVALID_PRIMARY_GROUP),
            1309 => Some(WinErrorWindows::ERROR_NO_IMPERSONATION_TOKEN),
            1310 => Some(WinErrorWindows::ERROR_CANT_DISABLE_MANDATORY),
            1311 => Some(WinErrorWindows::ERROR_NO_LOGON_SERVERS),
            1312 => Some(WinErrorWindows::ERROR_NO_SUCH_LOGON_SESSION),
            1313 => Some(WinErrorWindows::ERROR_NO_SUCH_PRIVILEGE),
            1314 => Some(WinErrorWindows::ERROR_PRIVILEGE_NOT_HELD),
            1315 => Some(WinErrorWindows::ERROR_INVALID_ACCOUNT_NAME),
            1316 => Some(WinErrorWindows::ERROR_USER_EXISTS),
            1317 => Some(WinErrorWindows::ERROR_NO_SUCH_USER),
            1318 => Some(WinErrorWindows::ERROR_GROUP_EXISTS),
            1319 => Some(WinErrorWindows::ERROR_NO_SUCH_GROUP),
            1320 => Some(WinErrorWindows::ERROR_MEMBER_IN_GROUP),
            1321 => Some(WinErrorWindows::ERROR_MEMBER_NOT_IN_GROUP),
            1322 => Some(WinErrorWindows::ERROR_LAST_ADMIN),
            1323 => Some(WinErrorWindows::ERROR_WRONG_PASSWORD),
            1324 => Some(WinErrorWindows::ERROR_ILL_FORMED_PASSWORD),
            1325 => Some(WinErrorWindows::ERROR_PASSWORD_RESTRICTION),
            1326 => Some(WinErrorWindows::ERROR_LOGON_FAILURE),
            1327 => Some(WinErrorWindows::ERROR_ACCOUNT_RESTRICTION),
            1328 => Some(WinErrorWindows::ERROR_INVALID_LOGON_HOURS),
            1329 => Some(WinErrorWindows::ERROR_INVALID_WORKSTATION),
            1330 => Some(WinErrorWindows::ERROR_PASSWORD_EXPIRED),
            1331 => Some(WinErrorWindows::ERROR_ACCOUNT_DISABLED),
            1332 => Some(WinErrorWindows::ERROR_NONE_MAPPED),
            1333 => Some(WinErrorWindows::ERROR_TOO_MANY_LUIDS_REQUESTED),
            1334 => Some(WinErrorWindows::ERROR_LUIDS_EXHAUSTED),
            1335 => Some(WinErrorWindows::ERROR_INVALID_SUB_AUTHORITY),
            1336 => Some(WinErrorWindows::ERROR_INVALID_ACL),
            1337 => Some(WinErrorWindows::ERROR_INVALID_SID),
            1338 => Some(WinErrorWindows::ERROR_INVALID_SECURITY_DESCR),
            _ => None,
        }
    }

    /// One slice of the symbol table.
    #[verifier::spinoff_prover]
    #[verifier::rlimit(100)]
    fn to_u32_part17(self) -> (r: Option<u32>)
        ensures
            r == self.spec_to_u32_part17(),
    {
        match self {
            WinErrorWindows::ERROR_BEYOND_VDL => Some(1289),
            WinErrorWindows::ERROR_INCOMPATIBLE_SERVICE_SID_TYPE => Some(1290),
            WinErrorWindows::ERROR_DRIVER_PROCESS_TERMINATED => Some(1291),
            WinErrorWindows::ERROR_IMPLEMENTATION_LIMIT => Some(1292),
            WinErrorWindows::ERROR_PROCESS_IS_PROTECTED => Some(1293),
            WinErrorWindows::ERROR_SERVICE_NOTIFY_CLIENT_LAGGING => Some(1294),
            WinErrorWindows::ERROR_DISK_QUOTA_EXCEEDED => Some(1295),
            WinErrorWindows::ERROR_CONTENT_BLOCKED => Some(1296),
            WinErrorWindows::ERROR_INCOMPATIBLE_SERVICE_PRIVILEGE => Some(1297),
            WinErrorWindows::ERROR_APP_HANG => Some(1298),
            WinErrorWindows::ERROR_INVALID_LABEL => Some(1299),
            WinErrorWindows::ERROR_NOT_ALL_ASSIGNED => Some(1300),
            WinErrorWindows::ERROR_SOME_NOT_MAPPED => Some(1301),
            WinErrorWindows::ERROR_NO_QUOTAS_FOR_ACCOUNT => Some(1302),
            WinErrorWindows::ERROR_LOCAL_USER_SESSION_KEY => Some(1303),
            WinErrorWindows::ERROR_NULL_LM_PASSWORD => Some(1304),
            WinErrorWindows::ERROR_UNKNOWN_REVISION => Some(1305),
            WinErrorWindows::ERROR_REVISION_MISMATCH => Some(1306),
            WinErrorWindows::ERROR_INVALID_OWNER => Some(1307),
            WinErrorWindows::ERROR_INVALID_PRIMARY_GROUP => Some(1308),
            WinErrorWindows::ERROR_NO_IMPERSONATION_TOKEN => Some(1309),
            WinErrorWindows::ERROR_CANT_DISABLE_MANDATORY => Some(1310),
            WinErrorWindows::ERROR_NO_LOGON_SERVERS => Some(1311),
            WinErrorWindows::ERROR_NO_SUCH_LOGON_SESSION => Some(1312),
            WinErrorWindows::ERROR_NO_SUCH_PRIVILEGE => Some(1313),
            WinErrorWindows::ERROR_PRIVILEGE_NOT_HELD => Some(1314),
            WinErrorWindows::ERROR_INVALID_ACCOUNT_NAME => Some(1315),
            WinErrorWindows::ERROR_USER_EXISTS => Some(1316),
            WinErrorWindows::ERROR_NO_SUCH_USER => Some(1317),
            WinErrorWindows::ERROR_GROUP_EXISTS => Some(1318),
            WinErrorWindows::ERROR_NO_SUCH_GROUP => Some(1319),
            WinErrorWindows::ERROR_MEMBER_IN_GROUP => Some(1320),
            WinErrorWindows::ERROR_MEMBER_NOT_IN_GROUP => Some(1321),
            WinErrorWindows::ERROR_LAST_ADMIN => Some(1322),
            WinErrorWindows::ERROR_WRONG_PASSWORD => Some(1323),
            WinErrorWindows::ERROR_ILL_FORMED_PASSWORD => Some(1324),
            WinErrorWindows::ERROR_PASSWORD_RESTRICTION => Some(1325),
            WinErrorWindows::ERROR_LOGON_FAILURE => Some(1326),
            WinErrorWindows::ERROR_ACCOUNT_RESTRICTION => Some(1327),
            WinErrorWindows::ERROR_INVALID_LOGON_HOURS => Some(1328),
            WinErrorWindows::ERROR_INVALID_WORKSTATION => Some(1329),
            WinErrorWindows::ERROR_PASSWORD_EXPIRED => Some(1330),
            WinErrorWindows::ERROR_ACCOUNT_DISABLED => Some(1331),
            WinErrorWindows::ERROR_NONE_MAPPED => Some(1332),
            WinErrorWindows::ERROR_TOO_MANY_LUIDS_REQUESTED => Some(1333),
            WinErrorWindows::ERROR_LUIDS_EXHAUSTED => Some(1334),
            WinErrorWindows::ERROR_INVALID_SUB_AUTHORITY => Some(1335),
            WinErrorWindows::ERROR_INVALID_ACL => Some(1336),
            WinErrorWindows::ERROR_INVALID_SID => Some(1337),
            WinErrorWindows::ERROR_INVALID_SECURITY_DESCR => Some(1338),
            _ => None,
        }
    }

    /// One slice of the symbol table.
    #[verifier::spinoff_prover]
    #[verifier::rlimit(100)]
    fn from_u32_part17(raw: u32) -> (r: Option<WinErrorWindows>)
        ensures
            r == WinErrorWindows::spec_from_u32_part17(raw),
    {
        match raw {
            1289 => Some(WinErrorWindows::ERROR_BEYOND_VDL),
            1290 => Some(WinErrorWindows::ERROR_INCOMPATIBLE_SERVICE_SID_TYPE),
            1291 => Some(WinErrorWindows::ERROR_DRIVER_PROCESS_TERMINATED),
            1292 => Some(WinErrorWindows::ERROR_IMPLEMENTATION_LIMIT),
            1293 => Some(WinErrorWindows::ERROR_PROCESS_IS_PROTECTED),
            1294 => Some(WinErrorWindows::ERROR_SERVICE_NOTIFY_CLIENT_LAGGING),
            1295 => Some(WinErrorWindows::ERROR_DISK_QUOTA_EXCEEDED),
            1296 => Some(WinErrorWindows::ERROR_CONTENT_BLOCKED),
            1297 => Some(WinErrorWindows::ERROR_INCOMPATIBLE_SERVICE_PRIVILEGE),
            1298 => Some(WinErrorWindows::ERROR_APP_HANG),
            1299 => Some(WinErrorWindows::ERROR_INVALID_LABEL),
            1300 => Some(WinErrorWindows::ERROR_NOT_ALL_ASSIGNED),
            1301 => Some(WinErrorWindows::ERROR_SOME_NOT_MAPPED),
            1302 => Some(WinErrorWindows::ERROR_NO_QUOTAS_FOR_ACCOUNT),
            1303 => Some(WinErrorWindows::ERROR_LOCAL_USER_SESSION_KEY),
            1304 => Some(WinErrorWindows::ERROR_NULL_LM_PASSWORD),
            1305 => Some(WinErrorWindows::ERROR_UNKNOWN_REVISION),
            1306 => Some(WinErrorWindows::ERROR_REVISION_MISMATCH),
            1307 => Some(WinErrorWindows::ERROR_INVALID_OWNER),
            1308 => Some(WinErrorWindows::ERROR_INVALID_PRIMARY_GROUP),
            1309 => Some(WinErrorWindows::ERROR_NO_IMPERSONATION_TOKEN),
            1310 => Some(WinErrorWindows::ERROR_CANT_DISABLE_MANDATORY),
            1311 => Some(WinErrorWindows::ERROR_NO_LOGON_SERVERS),
            1312 => Some(WinErrorWindows::ERROR_NO_SUCH_LOGON_SESSION),
            1313 => Some(WinErrorWindows::ERROR_NO_SUCH_PRIVILEGE),
            1314 => Some(WinErrorWindows::ERROR_PRIVILEGE_NOT_HELD),
            1315 => Some(WinErrorWindows::ERROR_INVALID_ACCOUNT_NAME),
            1316 => Some(WinErrorWindows::ERROR_USER_EXISTS),
            1317 => Some(WinErrorWindows::ERROR_NO_SUCH_USER),
            1318 => Some(WinErrorWindows::ERROR_GROUP_EXISTS),
            1319 => Some(WinErrorWindows::ERROR_NO_SUCH_GROUP),
            1320 => Some(WinErrorWindows::ERROR_MEMBER_IN_GROUP),
            1321 => Some(WinErrorWindows::ERROR_MEMBER_NOT_IN_GROUP),
            1322 => Some(WinErrorWindows::ERROR_LAST_ADMIN),
            1323 => Some(WinErrorWindows::ERROR_WRONG_PASSWORD),
            1324 => Some(WinErrorWindows::ERROR_ILL_FORMED_PASSWORD),
            1325 => Some(WinErrorWindows::ERROR_PASSWORD_RESTRICTION),
            1326 => Some(WinErrorWindows::ERROR_LOGON_FAILURE),
            1327 => Some(WinErrorWindows::ERROR_ACCOUNT_RESTRICTION),
            1328 => Some(WinErrorWindows::ERROR_INVALID_LOGON_HOURS),
            1329 => Some(WinErrorWindows::ERROR_INVALID_WORKSTATION),
            1330 => Some(WinErrorWindows::ERROR_PASSWORD_EXPIRED),
            1331 => Some(WinErrorWindows::ERROR_ACCOUNT_DISABLED),
            1332 => Some(WinErrorWindows::ERROR_NONE_MAPPED),
            1333 => Some(WinErrorWindows::ERROR_TOO_MANY_LUIDS_REQUESTED),
            1334 => Some(WinErrorWindows::ERROR_LUIDS_EXHAUSTED),
            1335 => Some(WinErrorWindows::ERROR_INVALID_SUB_AUTHORITY),
            1336 => Some(WinErrorWindows::ERROR_INVALID_ACL),
            1337 => Some(WinErrorWindows::ERROR_INVALID_SID),
            1338 => Some(WinErrorWindows::ERROR_INVALID_SECURITY_DESCR),
            _ => None,
        }
    }

    /// One slice of the symbol table: the raw value of this symbol,
    /// where this slice holds it.
    pub open spec fn spec_to_u32_part18(self) -> Option<u32> {
        match self {
            WinErrorWindows::ERROR_BAD_INHERITANCE_ACL => Some(1340),
            WinErrorWindows::ERROR_SERVER_DISABLED => Some(1341),
            WinErrorWindows::ERROR_SERVER_NOT_DISABLED => Some(1342),
            WinErrorWindows::ERROR_INVALID_ID_AUTHORITY => Some(1343),
            WinErrorWindows::ERROR_ALLOTTED_SPACE_EXCEEDED => Some(1344),
            WinErrorWindows::ERROR_INVALID_GROUP_ATTRIBUTES => Some(1345),
            WinErrorWindows::ERROR_BAD_IMPERSONATION_LEVEL => Some(1346),
            WinErrorWindows::ERROR_CANT_OPEN_ANONYMOUS => Some(1347),
            WinErrorWindows::ERROR_BAD_VALIDATION_CLASS => Some(1348),
            WinErrorWindows::ERROR_BAD_TOKEN_TYPE => Some(1349),
            WinErrorWindows::ERROR_NO_SECURITY_ON_OBJECT => Some(1350),
            WinErrorWindows::ERROR_CANT_ACCESS_DOMAIN_INFO => Some(1351),
            WinErrorWindows::ERROR_INVALID_SERVER_STATE => Some(1352),
            WinErrorWindows::ERROR_INVALID_DOMAIN_STATE => Some(1353),
            WinErrorWindows::ERROR_INVALID_DOMAIN_ROLE => Some(1354),
            WinErrorWindows::ERROR_NO_SUCH_DOMAIN => Some(1355),
            WinErrorWindows::ERROR_DOMAIN_EXISTS => Some(1356),
            WinErrorWindows::ERROR_DOMAIN_LIMIT_EXCEEDED => Some(1357),
            WinErrorWindows::ERROR_INTERNAL_DB_CORRUPTION => Some(1358),
            WinErrorWindows::ERROR_INTERNAL_ERROR => Some(1359),
            WinErrorWindows::ERROR_GENERIC_NOT_MAPPED => Some(1360),
            WinErrorWindows::ERROR_BAD_DESCRIPTOR_FORMAT => Some(1361),
            WinErrorWindows::ERROR_NOT_LOGON_PROCESS => Some(1362),
            WinErrorWindows::ERROR_LOGON_SESSION_EXISTS => Some(1363),
            WinErrorWindows::ERROR_NO_SUCH_PACKAGE => Some(1364),
            WinErrorWindows::ERROR_BAD_LOGON_SESSION_STATE => Some(1365),
            WinErrorWindows::ERROR_LOGON_SESSION_COLLISION => Some(1366),
            WinErrorWindows::ERROR_INVALID_LOGON_TYPE => Some(1367),
            WinErrorWindows::ERROR_CANNOT_IMPERSONATE => Some(1368),
            WinErrorWindows::ERROR_RXACT_INVALID_STATE => Some(1369),
            WinErrorWindows::ERROR_RXACT_COMMIT_FAILURE => Some(1370),
            WinErrorWindows::ERROR_SPECIAL_ACCOUNT => Some(1371),
            WinErrorWindows::ERROR_SPECIAL_GROUP => Some(1372),
            WinErrorWindows::ERROR_SPECIAL_USER => Some(1373),
            WinErrorWindows::ERROR_MEMBERS_PRIMARY_GROUP => Some(1374),
            WinErrorWindows::ERROR_TOKEN_ALREADY_IN_USE => Some(1375),
            WinErrorWindows::ERROR_NO_SUCH_ALIAS => Some(1376),
            WinErrorWindows::ERROR_MEMBER_NOT_IN_ALIAS => Some(1377),
            WinErrorWindows::ERROR_MEMBER_IN_ALIAS => Some(1378),
            WinErrorWindows::ERROR_ALIAS_EXISTS => Some(1379),
            WinErrorWindows::ERROR_LOGON_NOT_GRANTED => Some(1380),
            WinErrorWindows::ERROR_TOO_MANY_SECRETS => Some(1381),
            WinErrorWindows::ERROR_SECRET_TOO_LONG => Some(1382),
            WinErrorWindows::ERROR_INTERNAL_DB_ERROR => Some(1383),
            WinErrorWindows::ERROR_TOO_MANY_CONTEXT_IDS => Some(1384),
            WinErrorWindows::ERROR_LOGON_TYPE_NOT_GRANTED => Some(1385),
            WinErrorWindows::ERROR_NT_CROSS_ENCRYPTION_REQUIRED => Some(1386),
            WinErrorWindows::ERROR_NO_SUCH_MEMBER => Some(1387),
            WinErrorWindows::ERROR_INVALID_MEMBER => Some(1388),
            WinErrorWindows::ERROR_TOO_MANY_SIDS => Some(1389),
            _ => None,
        }
    }

    /// One slice of the symbol table: the symbol this slice gives a
    /// raw value, where it holds one.
    pub open spec fn spec_from_u32_part18(raw: u32) -> Option<WinErrorWindows> {
        match raw {
            1340 => Some(WinErrorWindows::ERROR_BAD_INHERITANCE_ACL),
            1341 => Some(WinErrorWindows::ERROR_SERVER_DISABLED),
            1342 => Some(WinErrorWindows::ERROR_SERVER_NOT_DISABLED),
            1343 => Some(WinErrorWindows::ERROR_INVALID_ID_AUTHORITY),
            1344 => Some(WinErrorWindows::ERROR_ALLOTTED_SPACE_EXCEEDED),
            1345 => Some(WinErrorWindows::ERROR_INVALID_GROUP_ATTRIBUTES),
            1346 => Some(WinErrorWindows::ERROR_BAD_IMPERSONATION_LEVEL),
            1347 => Some(WinErrorWindows::ERROR_CANT_OPEN_ANONYMOUS),
            1348 => Some(WinErrorWindows::ERROR_BAD_VALIDATION_CLASS),
            1349 => Some(WinErrorWindows::ERROR_BAD_TOKEN_TYPE),
            1350 => Some(WinErrorWindows::ERROR_NO_SECURITY_ON_OBJECT),
            1351 => Some(WinErrorWindows::ERROR_CANT_ACCESS_DOMAIN_INFO),
            1352 => Some(WinErrorWindows::ERROR_INVALID_SERVER_STATE),
            1353 => Some(WinErrorWindows::ERROR_INVALID_DOMAIN_STATE),
            1354 => Some(WinErrorWindows::ERROR_INVALID_DOMAIN_ROLE),
            1355 => Some(WinErrorWindows::ERROR_NO_SUCH_DOMAIN),
            1356 => Some(WinErrorWindows::ERROR_DOMAIN_EXISTS),
            1357 => Some(WinErrorWindows::ERROR_DOMAIN_LIMIT_EXCEEDED),
            1358 => Some(WinErrorWindows::ERROR_INTERNAL_DB_CORRUPTION),
            1359 => Some(WinErrorWindows::ERROR_INTERNAL_ERROR),
            1360 => Some(WinErrorWindows::ERROR_GENERIC_NOT_MAPPED),
            1361 => Some(WinErrorWindows::ERROR_BAD_DESCRIPTOR_FORMAT),
            1362 => Some(WinErrorWindows::ERROR_NOT_LOGON_PROCESS),
            1363 => Some(WinErrorWindows::ERROR_LOGON_SESSION_EXISTS),
            1364 => Some(WinErrorWindows::ERROR_NO_SUCH_PACKAGE),
            1365 => Some(WinErrorWindows::ERROR_BAD_LOGON_SESSION_STATE),
            1366 => Some(WinErrorWindows::ERROR_LOGON_SESSION_COLLISION),
            1367 => Some(WinErrorWindows::ERROR_INVALID_LOGON_TYPE),
            1368 => Some(WinErrorWindows::ERROR_CANNOT_IMPERSONATE),
            1369 => Some(WinErrorWindows::ERROR_RXACT_INVALID_STATE),
            1370 => Some(WinErrorWindows::ERROR_RXACT_COMMIT_FAILURE),
            1371 => Some(WinErrorWindows::ERROR_SPECIAL_ACCOUNT),
            1372 => Some(WinErrorWindows::ERROR_SPECIAL_GROUP),
            1373 => Some(WinErrorWindows::ERROR_SPECIAL_USER),
            1374 => Some(WinErrorWindows::ERROR_MEMBERS_PRIMARY_GROUP),
            1375 => Some(WinErrorWindows::ERROR_TOKEN_ALREADY_IN_USE),
            1376 => Some(WinErrorWindows::ERROR_NO_SUCH_ALIAS),
            1377 => Some(WinErrorWindows::ERROR_MEMBER_NOT_IN_ALIAS),
            1378 => Some(WinErrorWindows::ERROR_MEMBER_IN_ALIAS),
            1379 => Some(WinErrorWindows::ERROR_ALIAS_EXISTS),
            1380 => Some(WinErrorWindows::ERROR_LOGON_NOT_GRANTED),
            1381 => Some(WinErrorWindows::ERROR_TOO_MANY_SECRETS),
            1382 => Some(WinErrorWindows::ERROR_SECRET_TOO_LONG),
            1383 => Some(WinErrorWindows::ERROR_INTERNAL_DB_ERROR),
            1384 => Some(WinErrorWindows::ERROR_TOO_MANY_CONTEXT_IDS),
            1385 => Some(WinErrorWindows::ERROR_LOGON_TYPE_NOT_GRANTED),
            1386 => Some(WinErrorWindows::ERROR_NT_CROSS_ENCRYPTION_REQUIRED),
            1387 => Some(WinErrorWindows::ERROR_NO_SUCH_MEMBER),
            1388 => Some(WinErrorWindows::ERROR_INVALID_MEMBER),
            1389 => Some(WinErrorWindows::ERROR_TOO_MANY_SIDS),
            _ => None,
        }
    }

    /// One slice of the symbol table.
    #[verifier::spinoff_prover]
    #[verifier::rlimit(100)]
    fn to_u32_part18(self) -> (r: Option<u32>)
        ensures
            r == self.spec_to_u32_part18(),
    {
        match self {
            WinErrorWindows::ERROR_BAD_INHERITANCE_ACL => Some(1340),
            WinErrorWindows::ERROR_SERVER_DISABLED => Some(1341),
            WinErrorWindows::ERROR_SERVER_NOT_DISABLED => Some(1342),
            WinErrorWindows::ERROR_INVALID_ID_AUTHORITY => Some(1343),
            WinErrorWindows::ERROR_ALLOTTED_SPACE_EXCEEDED => Some(1344),
            WinErrorWindows::ERROR_INVALID_GROUP_ATTRIBUTES => Some(1345),
            WinErrorWindows::ERROR_BAD_IMPERSONATION_LEVEL => Some(1346),
            WinErrorWindows::ERROR_CANT_OPEN_ANONYMOUS => Some(1347),
            WinErrorWindows::ERROR_BAD_VALIDATION_CLASS => Some(1348),
            WinErrorWindows::ERROR_BAD_TOKEN_TYPE => Some(1349),
            WinErrorWindows::ERROR_NO_SECURITY_ON_OBJECT => Some(1350),
            WinErrorWindows::ERROR_CANT_ACCESS_DOMAIN_INFO => Some(1351),
            WinErrorWindows::ERROR_INVALID_SERVER_STATE => Some(1352),
            WinErrorWindows::ERROR_INVALID_DOMAIN_STATE => Some(1353),
            WinErrorWindows::ERROR_INVALID_DOMAIN_ROLE => Some(1354),
            WinErrorWindows::ERROR_NO_SUCH_DOMAIN => Some(1355),
            WinErrorWindows::ERROR_DOMAIN_EXISTS => Some(1356),
            WinErrorWindows::ERROR_DOMAIN_LIMIT_EXCEEDED => Some(1357),
            WinErrorWindows::ERROR_INTERNAL_DB_CORRUPTION => Some(1358),
            WinErrorWindows::ERROR_INTERNAL_ERROR => Some(1359),
            WinErrorWindows::ERROR_GENERIC_NOT_MAPPED => Some(1360),
            WinErrorWindows::ERROR_BAD_DESCRIPTOR_FORMAT => Some(1361),
            WinErrorWindows::ERROR_NOT_LOGON_PROCESS => Some(1362),
            WinErrorWindows::ERROR_LOGON_SESSION_EXISTS => Some(1363),
            WinErrorWindows::ERROR_NO_SUCH_PACKAGE => Some(1364),
            WinErrorWindows::ERROR_BAD_LOGON_SESSION_STATE => Some(1365),
            WinErrorWindows::ERROR_LOGON_SESSION_COLLISION => Some(1366),
            WinErrorWindows::ERROR_INVALID_LOGON_TYPE => Some(1367),
            WinErrorWindows::ERROR_CANNOT_IMPERSONATE => Some(1368),
            WinErrorWindows::ERROR_RXACT_INVALID_STATE => Some(1369),
            WinErrorWindows::ERROR_RXACT_COMMIT_FAILURE => Some(1370),
            WinErrorWindows::ERROR_SPECIAL_ACCOUNT => Some(1371),
            WinErrorWindows::ERROR_SPECIAL_GROUP => Some(1372),
            WinErrorWindows::ERROR_SPECIAL_USER => Some(1373),
            WinErrorWindows::ERROR_MEMBERS_PRIMARY_GROUP => Some(1374),
            WinErrorWindows::ERROR_TOKEN_ALREADY_IN_USE => Some(1375),
            WinErrorWindows::ERROR_NO_SUCH_ALIAS => Some(1376),
            WinErrorWindows::ERROR_MEMBER_NOT_IN_ALIAS => Some(1377),
            WinErrorWindows::ERROR_MEMBER_IN_ALIAS => Some(1378),
            WinErrorWindows::ERROR_ALIAS_EXISTS => Some(1379),
            WinErrorWindows::ERROR_LOGON_NOT_GRANTED => Some(1380),
            WinErrorWindows::ERROR_TOO_MANY_SECRETS => Some(1381),
            WinErrorWindows::ERROR_SECRET_TOO_LONG => Some(1382),
            WinErrorWindows::ERROR_INTERNAL_DB_ERROR => Some(1383),
            WinErrorWindows::ERROR_TOO_MANY_CONTEXT_IDS => Some(1384),
            WinErrorWindows::ERROR_LOGON_TYPE_NOT_GRANTED => Some(1385),
            WinErrorWindows::ERROR_NT_CROSS_ENCRYPTION_REQUIRED => Some(1386),
            WinErrorWindows::ERROR_NO_SUCH_MEMBER => Some(1387),
            WinErrorWindows::ERROR_INVALID_MEMBER => Some(1388),
            WinErrorWindows::ERROR_TOO_MANY_SIDS => Some(1389),
            _ => None,
        }
    }

    /// One slice of the symbol table.
    #[verifier::spinoff_prover]
    #[verifier::rlimit(100)]
    fn from_u32_part18(raw: u32) -> (r: Option<WinErrorWindows>)
        ensures
            r == WinErrorWindows::spec_from_u32_part18(raw),
    {
        match raw {
            1340 => Some(WinErrorWindows::ERROR_BAD_INHERITANCE_ACL),
            1341 => Some(WinErrorWindows::ERROR_SERVER_DISABLED),
            1342 => Some(WinErrorWindows::ERROR_SERVER_NOT_DISABLED),
            1343 => Some(WinErrorWindows::ERROR_INVALID_ID_AUTHORITY),
            1344 => Some(WinErrorWindows::ERROR_ALLOTTED_SPACE_EXCEEDED),
            1345 => Some(WinErrorWindows::ERROR_INVALID_GROUP_ATTRIBUTES),
            1346 => Some(WinErrorWindows::ERROR_BAD_IMPERSONATION_LEVEL),
            1347 => Some(WinErrorWindows::ERROR_CANT_OPEN_ANONYMOUS),
            1348 => Some(WinErrorWindows::ERROR_BAD_VALIDATION_CLASS),
            1349 => Some(WinErrorWindows::ERROR_BAD_TOKEN_TYPE),
            1350 => Some(WinErrorWindows::ERROR_NO_SECURITY_ON_OBJECT),
            1351 => Some(WinErrorWindows::ERROR_CANT_ACCESS_DOMAIN_INFO),
            1352 => Some(WinErrorWindows::ERROR_INVALID_SERVER_STATE),
            1353 => Some(WinErrorWindows::ERROR_INVALID_DOMAIN_STATE),
            1354 => Some(WinErrorWindows::ERROR_INVALID_DOMAIN_ROLE),
            1355 => Some(WinErrorWindows::ERROR_NO_SUCH_DOMAIN),
            1356 => Some(WinErrorWindows::ERROR_DOMAIN_EXISTS),
            1357 => Some(WinErrorWindows::ERROR_DOMAIN_LIMIT_EXCEEDED),
            1358 => Some(WinErrorWindows::ERROR_INTERNAL_DB_CORRUPTION),
            1359 => Some(WinErrorWindows::ERROR_INTERNAL_ERROR),
            1360 => Some(WinErrorWindows::ERROR_GENERIC_NOT_MAPPED),
            1361 => Some(WinErrorWindows::ERROR_BAD_DESCRIPTOR_FORMAT),
            1362 => Some(WinErrorWindows::ERROR_NOT_LOGON_PROCESS),
            1363 => Some(WinErrorWindows::ERROR_LOGON_SESSION_EXISTS),
            1364 => Some(WinErrorWindows::ERROR_NO_SUCH_PACKAGE),
            1365 => Some(WinErrorWindows::ERROR_BAD_LOGON_SESSION_STATE),
            1366 => Some(WinErrorWindows::ERROR_LOGON_SESSION_COLLISION),
            1367 => Some(WinErrorWindows::ERROR_INVALID_LOGON_TYPE),
            1368 => Some(WinErrorWindows::ERROR_CANNOT_IMPERSONATE),
            1369 => Some(WinErrorWindows::ERROR_RXACT_INVALID_STATE),
            1370 => Some(WinErrorWindows::ERROR_RXACT_COMMIT_FAILURE),
            1371 => Some(WinErrorWindows::ERROR_SPECIAL_ACCOUNT),
            1372 => Some(WinErrorWindows::ERROR_SPECIAL_GROUP),
            1373 => Some(WinErrorWindows::ERROR_SPECIAL_USER),
            1374 => Some(WinErrorWindows::ERROR_MEMBERS_PRIMARY_GROUP),
            1375 => Some(WinErrorWindows::ERROR_TOKEN_ALREADY_IN_USE),
            1376 => Some(WinErrorWindows::ERROR_NO_SUCH_ALIAS),
            1377 => Some(WinErrorWindows::ERROR_MEMBER_NOT_IN_ALIAS),
            1378 => Some(WinErrorWindows::ERROR_MEMBER_IN_ALIAS),
            1379 => Some(WinErrorWindows::ERROR_ALIAS_EXISTS),
            1380 => Some(WinErrorWindows::ERROR_LOGON_NOT_GRANTED),
            1381 => Some(WinErrorWindows::ERROR_TOO_MANY_SECRETS),
            1382 => Some(WinErrorWindows::ERROR_SECRET_TOO_LONG),
            1383 => Some(WinErrorWindows::ERROR_INTERNAL_DB_ERROR),
            1384 => Some(WinErrorWindows::ERROR_TOO_MANY_CONTEXT_IDS),
            1385 => Some(WinErrorWindows::ERROR_LOGON_TYPE_NOT_GRANTED),
            1386 => Some(WinErrorWindows::ERROR_NT_CROSS_ENCRYPTION_REQUIRED),
            1387 => Some(WinErrorWindows::ERROR_NO_SUCH_MEMBER),
            1388 => Some(WinErrorWindows::ERROR_INVALID_MEMBER),
            1389 => Some(WinErrorWindows::ERROR_TOO_MANY_SIDS),
            _ => None,
        }
    }

    /// One slice of the symbol table: the raw value of this symbol,
    /// where this slice holds it.
    pub open spec fn spec_to_u32_part19(self) -> Option<u32> {
        match self {
            WinErrorWindows::ERROR_LM_CROSS_ENCRYPTION_REQUIRED => Some(1390),
            WinErrorWindows::ERROR_NO_INHERITANCE => Some(1391),
            WinErrorWindows::ERROR_FILE_CORRUPT => Some(1392),
            WinErrorWindows::ERROR_DISK_CORRUPT => Some(1393),
            WinErrorWindows::ERROR_NO_USER_SESSION_KEY => Some(1394),
            WinErrorWindows::ERROR_LICENSE_QUOTA_EXCEEDED => Some(1395),
            WinErrorWindows::ERROR_WRONG_TARGET_NAME => Some(1396),
            WinErrorWindows::ERROR_MUTUAL_AUTH_FAILED => Some(1397),
            WinErrorWindows::ERROR_TIME_SKEW => Some(1398),
            WinErrorWindows::ERROR_CURRENT_DOMAIN_NOT_ALLOWED => Some(1399),
            WinErrorWindows::ERROR_INVALID_WINDOW_HANDLE => Some(1400),
            WinErrorWindows::ERROR_INVALID_MENU_HANDLE => Some(1401),
            WinErrorWindows::ERROR_INVALID_CURSOR_HANDLE => Some(1402),
            WinErrorWindows::ERROR_INVALID_ACCEL_HANDLE => Some(1403),
            WinErrorWindows::ERROR_INVALID_HOOK_HANDLE => Some(1404),
            WinErrorWindows::ERROR_INVALID_DWP_HANDLE => Some(1405),
            WinErrorWindows::ERROR_TLW_WITH_WSCHILD => Some(1406),
            WinErrorWindows::ERROR_CANNOT_FIND_WND_CLASS => Some(1407),
            WinErrorWindows::ERROR_WINDOW_OF_OTHER_THREAD => Some(1408),
            WinErrorWindows::ERROR_HOTKEY_ALREADY_REGISTERED => Some(1409),
            WinErrorWindows::ERROR_CLASS_ALREADY_EXISTS => Some(1410),
            WinErrorWindows::ERROR_CLASS_DOES_NOT_EXIST => Some(1411),
            WinErrorWindows::ERROR_CLASS_HAS_WINDOWS => Some(1412),
            WinErrorWindows::ERROR_INVALID_INDEX => Some(1413),
            WinErrorWindows::ERROR_INVALID_ICON_HANDLE => Some(1414),
            WinErrorWindows::ERROR_PRIVATE_DIALOG_INDEX => Some(1415),
            WinErrorWindows::ERROR_LISTBOX_ID_NOT_FOUND => Some(1416),
            WinErrorWindows::ERROR_NO_WILDCARD_CHARACTERS => Some(1417),
            WinErrorWindows::ERROR_CLIPBOARD_NOT_OPEN => Some(1418),
            WinErrorWindows::ERROR_HOTKEY_NOT_REGISTERED => Some(1419),
            WinErrorWindows::ERROR_WINDOW_NOT_DIALOG => Some(1420),
            WinErrorWindows::ERROR_CONTROL_ID_NOT_FOUND => Some(1421),
            WinErrorWindows::ERROR_INVALID_COMBOBOX_MESSAGE => Some(1422),
            WinErrorWindows::ERROR_WINDOW_NOT_COMBOBOX => Some(1423),
            WinErrorWindows::ERROR_INVALID_EDIT_HEIGHT => Some(1424),
            WinErrorWindows::ERROR_DC_NOT_FOUND => Some(1425),
            WinErrorWindows::ERROR_INVALID_HOOK_FILTER => Some(1426),
            WinErrorWindows::ERROR_INVALID_FILTER_PROC => Some(1427),
            WinErrorWindows::ERROR_HOOK_NEEDS_HMOD => Some(1428),
            WinErrorWindows::ERROR_GLOBAL_ONLY_HOOK => Some(1429),
            WinErrorWindows::ERROR_JOURNAL_HOOK_SET => Some(1430),
            WinErrorWindows::ERROR_HOOK_NOT_INSTALLED => Some(1431),
            WinErrorWindows::ERROR_INVALID_LB_MESSAGE => Some(1432),
            WinErrorWindows::ERROR_SETCOUNT_ON_BAD_LB => Some(1433),
            WinErrorWindows::ERROR_LB_WITHOUT_TABSTOPS => Some(1434),
            WinErrorWindows::ERROR_DESTROY_OBJECT_OF_OTHER_THREAD => Some(1435),
            WinErrorWindows::ERROR_CHILD_WINDOW_MENU => Some(1436),
            WinErrorWindows::ERROR_NO_SYSTEM_MENU => Some(1437),
            WinErrorWindows::ERROR_INVALID_MSGBOX_STYLE => Some(1438),
            WinErrorWindows::ERROR_INVALID_SPI_VALUE => Some(1439),
            _ => None,
        }
    }

    /// One slice of the symbol table: the symbol this slice gives a
    /// raw value, where it holds one.
    pub open spec fn spec_from_u32_part19(raw: u32) -> Option<WinErrorWindows> {
        match raw {
            1390 => Some(WinErrorWindows::ERROR_LM_CROSS_ENCRYPTION_REQUIRED),
            1391 => Some(WinErrorWindows::ERROR_NO_INHERITANCE),
            1392 => Some(WinErrorWindows::ERROR_FILE_CORRUPT),
            1393 => Some(WinErrorWindows::ERROR_DISK_CORRUPT),
            1394 => Some(WinErrorWindows::ERROR_NO_USER_SESSION_KEY),
            1395 => Some(WinErrorWindows::ERROR_LICENSE_QUOTA_EXCEEDED),
            1396 => Some(WinErrorWindows::ERROR_WRONG_TARGET_NAME),
            1397 => Some(WinErrorWindows::ERROR_MUTUAL_AUTH_FAILED),
            1398 => Some(WinErrorWindows::ERROR_TIME_SKEW),
            1399 => Some(WinErrorWindows::ERROR_CURRENT_DOMAIN_NOT_ALLOWED),
            1400 => Some(WinErrorWindows::ERROR_INVALID_WINDOW_HANDLE),
            1401 => Some(WinErrorWindows::ERROR_INVALID_MENU_HANDLE),
            1402 => Some(WinErrorWindows::ERROR_INVALID_CURSOR_HANDLE),
            1403 => Some(WinErrorWindows::ERROR_INVALID_ACCEL_HANDLE),
            1404 => Some(WinErrorWindows::ERROR_INVALID_HOOK_HANDLE),
            1405 => Some(WinErrorWindows::ERROR_INVALID_DWP_HANDLE),
            1406 => Some(WinErrorWindows::ERROR_TLW_WITH_WSCHILD),
            1407 => Some(WinErrorWindows::ERROR_CANNOT_FIND_WND_CLASS),
            1408 => Some(WinErrorWindows::ERROR_WINDOW_OF_OTHER_THREAD),
            1409 => Some(WinErrorWindows::ERROR_HOTKEY_ALREADY_REGISTERED),
            1410 => Some(WinErrorWindows::ERROR_CLASS_ALREADY_EXISTS),
            1411 => Some(WinErrorWindows::ERROR_CLASS_DOES_NOT_EXIST),
            1412 => Some(WinErrorWindows::ERROR_CLASS_HAS_WINDOWS),
            1413 => Some(WinErrorWindows::ERROR_INVALID_INDEX),
            1414 => Some(WinErrorWindows::ERROR_INVALID_ICON_HANDLE),
            1415 => Some(WinErrorWindows::ERROR_PRIVATE_DIALOG_INDEX),
            1416 => Some(WinErrorWindows::ERROR_LISTBOX_ID_NOT_FOUND),
            1417 => Some(WinErrorWindows::ERROR_NO_WILDCARD_CHARACTERS),
            1418 => Some(WinErrorWindows::ERROR_CLIPBOARD_NOT_OPEN),
            1419 => Some(WinErrorWindows::ERROR_HOTKEY_NOT_REGISTERED),
            1420 => Some(WinErrorWindows::ERROR_WINDOW_NOT_DIALOG),
            1421 => Some(WinErrorWindows::ERROR_CONTROL_ID_NOT_FOUND),
            1422 => Some(WinErrorWindows::ERROR_INVALID_COMBOBOX_MESSAGE),
            1423 => Some(WinErrorWindows::ERROR_WINDOW_NOT_COMBOBOX),
            1424 => Some(WinErrorWindows::ERROR_INVALID_EDIT_HEIGHT),
            1425 => Some(WinErrorWindows::ERROR_DC_NOT_FOUND),
            1426 => Some(WinErrorWindows::ERROR_INVALID_HOOK_FILTER),
            1427 => Some(WinErrorWindows::ERROR_INVALID_FILTER_PROC),
            1428 => Some(WinErrorWindows::ERROR_HOOK_NEEDS_HMOD),
            1429 => Some(WinErrorWindows::ERROR_GLOBAL_ONLY_HOOK),
            1430 => Some(WinErrorWindows::ERROR_JOURNAL_HOOK_SET),
            1431 => Some(WinErrorWindows::ERROR_HOOK_NOT_INSTALLED),
            1432 => Some(WinErrorWindows::ERROR_INVALID_LB_MESSAGE),
            1433 => Some(WinErrorWindows::ERROR_SETCOUNT_ON_BAD_LB),
            1434 => Some(WinErrorWindows::ERROR_LB_WITHOUT_TABSTOPS),
            1435 => Some(WinErrorWindows::ERROR_DESTROY_OBJECT_OF_OTHER_THREAD),
            1436 => Some(WinErrorWindows::ERROR_CHILD_WINDOW_MENU),
            1437 => Some(WinErrorWindows::ERROR_NO_SYSTEM_MENU),
            1438 => Some(WinErrorWindows::ERROR_INVALID_MSGBOX_STYLE),
            1439 => Some(WinErrorWindows::ERROR_INVALID_SPI_VALUE),
            _ => None,
        }
    }

    /// One slice of the symbol table.
    #[verifier::spinoff_prover]
    #[verifier::rlimit(100)]
    fn to_u32_part19(self) -> (r: Option<u32>)
        ensures
            r == self.spec_to_u32_part19(),
    {
        match self {
            WinErrorWindows::ERROR_LM_CROSS_ENCRYPTION_REQUIRED => Some(1390),
            WinErrorWindows::ERROR_NO_INHERITANCE => Some(1391),
            WinErrorWindows::ERROR_FILE_CORRUPT => Some(1392),
            WinErrorWindows::ERROR_DISK_CORRUPT => Some(1393),
            WinErrorWindows::ERROR_NO_USER_SESSION_KEY => Some(1394),
            WinErrorWindows::ERROR_LICENSE_QUOTA_EXCEEDED => Some(1395),
            WinErrorWindows::ERROR_WRONG_TARGET_NAME => Some(1396),
            WinErrorWindows::ERROR_MUTUAL_AUTH_FAILED => Some(1397),
            WinErrorWindows::ERROR_TIME_SKEW => Some(1398),
            WinErrorWindows::ERROR_CURRENT_DOMAIN_NOT_ALLOWED => Some(1399),
            WinErrorWindows::ERROR_INVALID_WINDOW_HANDLE => Some(1400),
            WinErrorWindows::ERROR_INVALID_MENU_HANDLE => Some(1401),
            WinErrorWindows::ERROR_INVALID_CURSOR_HANDLE => Some(1402),
            WinErrorWindows::ERROR_INVALID_ACCEL_HANDLE => Some(1403),
            WinErrorWindows::ERROR_INVALID_HOOK_HANDLE => Some(1404),
            WinErrorWindows::ERROR_INVALID_DWP_HANDLE => Some(1405),
            WinErrorWindows::ERROR_TLW_WITH_WSCHILD => Some(1406),
            WinErrorWindows::ERROR_CANNOT_FIND_WND_CLASS => Some(1407),
            WinErrorWindows::ERROR_WINDOW_OF_OTHER_THREAD => Some(1408),
            WinErrorWindows::ERROR_HOTKEY_ALREADY_REGISTERED => Some(1409),
            WinErrorWindows::ERROR_CLASS_ALREADY_EXISTS => Some(1410),
            WinErrorWindows::ERROR_CLASS_DOES_NOT_EXIST => Some(1411),
            WinErrorWindows::ERROR_CLASS_HAS_WINDOWS => Some(1412),
            WinErrorWindows::ERROR_INVALID_INDEX => Some(1413),
            WinErrorWindows::ERROR_INVALID_ICON_HANDLE => Some(1414),
            WinErrorWindows::ERROR_PRIVATE_DIALOG_INDEX => Some(1415),
            WinErrorWindows::ERROR_LISTBOX_ID_NOT_FOUND => Some(1416),
            WinErrorWindows::ERROR_NO_WILDCARD_CHARACTERS => Some(1417),
            WinErrorWindows::ERROR_CLIPBOARD_NOT_OPEN => Some(1418),
            WinErrorWindows::ERROR_HOTKEY_NOT_REGISTERED => Some(1419),
            WinErrorWindows::ERROR_WINDOW_NOT_DIALOG => Some(1420),
            WinErrorWindows::ERROR_CONTROL_ID_NOT_FOUND => Some(1421),
            WinErrorWindows::ERROR_INVALID_COMBOBOX_MESSAGE => Some(1422),
            WinErrorWindows::ERROR_WINDOW_NOT_COMBOBOX => Some(1423),
            WinErrorWindows::ERROR_INVALID_EDIT_HEIGHT => Some(1424),
            WinErrorWindows::ERROR_DC_NOT_FOUND => Some(1425),
            WinErrorWindows::ERROR_INVALID_HOOK_FILTER => Some(1426),
            WinErrorWindows::ERROR_INVALID_FILTER_PROC => Some(1427),
            WinErrorWindows::ERROR_HOOK_NEEDS_HMOD => Some(1428),
            WinErrorWindows::ERROR_GLOBAL_ONLY_HOOK => Some(1429),
            WinErrorWindows::ERROR_JOURNAL_HOOK_SET => Some(1430),
            WinErrorWindows::ERROR_HOOK_NOT_INSTALLED => Some(1431),
            WinErrorWindows::ERROR_INVALID_LB_MESSAGE => Some(1432),
            WinErrorWindows::ERROR_SETCOUNT_ON_BAD_LB => Some(1433),
            WinErrorWindows::ERROR_LB_WITHOUT_TABSTOPS => Some(1434),
            WinErrorWindows::ERROR_DESTROY_OBJECT_OF_OTHER_THREAD => Some(1435),
            WinErrorWindows::ERROR_CHILD_WINDOW_MENU => Some(1436),
            WinErrorWindows::ERROR_NO_SYSTEM_MENU => Some(1437),
            WinErrorWindows::ERROR_INVALID_MSGBOX_STYLE => Some(1438),
            WinErrorWindows::ERROR_INVALID_SPI_VALUE => Some(1439),
            _ => None,
        }
    }

    /// One slice of the symbol table.
    #[verifier::spinoff_prover]
    #[verifier::rlimit(100)]
    fn from_u32_part19(raw: u32) -> (r: Option<WinErrorWindows>)
        ensures
            r == WinErrorWindows::spec_from_u32_part19(raw),
    {
        match raw {
            1390 => Some(WinErrorWindows::ERROR_LM_CROSS_ENCRYPTION_REQUIRED),
            1391 => Some(WinErrorWindows::ERROR_NO_INHERITANCE),
            1392 => Some(WinErrorWindows::ERROR_FILE_CORRUPT),
            1393 => Some(WinErrorWindows::ERROR_DISK_CORRUPT),
            1394 => Some(WinErrorWindows::ERROR_NO_USER_SESSION_KEY),
            1395 => Some(WinErrorWindows::ERROR_LICENSE_QUOTA_EXCEEDED),
            1396 => Some(WinErrorWindows::ERROR_WRONG_TARGET_NAME),
            1397 => Some(WinErrorWindows::ERROR_MUTUAL_AUTH_FAILED),
            1398 => Some(WinErrorWindows::ERROR_TIME_SKEW),
            1399 => Some(WinErrorWindows::ERROR_CURRENT_DOMAIN_NOT_ALLOWED),
            1400 => Some(WinErrorWindows::ERROR_INVALID_WINDOW_HANDLE),
            1401 => Some(WinErrorWindows::ERROR_INVALID_MENU_HANDLE),
            1402 => Some(WinErrorWindows::ERROR_INVALID_CURSOR_HANDLE),
            1403 => Some(WinErrorWindows::ERROR_INVALID_ACCEL_HANDLE),
            1404 => Some(WinErrorWindows::ERROR_INVALID_HOOK_HANDLE),
            1405 => Some(WinErrorWindows::ERROR_INVALID_DWP_HANDLE),
            1406 => Some(WinErrorWindows::ERROR_TLW_WITH_WSCHILD),
            1407 => Some(WinErrorWindows::ERROR_CANNOT_FIND_WND_CLASS),
            1408 => Some(WinErrorWindows::ERROR_WINDOW_OF_OTHER_THREAD),
            1409 => Some(WinErrorWindows::ERROR_HOTKEY_ALREADY_REGISTERED),
            1410 => Some(WinErrorWindows::ERROR_CLASS_ALREADY_EXISTS),
            1411 => Some(WinErrorWindows::ERROR_CLASS_DOES_NOT_EXIST),
            1412 => Some(WinErrorWindows::ERROR_CLASS_HAS_WINDOWS),
            1413 => Some(WinErrorWindows::ERROR_INVALID_INDEX),
            1414 => Some(WinErrorWindows::ERROR_INVALID_ICON_HANDLE),
            1415 => Some(WinErrorWindows::ERROR_PRIVATE_DIALOG_INDEX),
            1416 => Some(WinErrorWindows::ERROR_LISTBOX_ID_NOT_FOUND),
            1417 => Some(WinErrorWindows::ERROR_NO_WILDCARD_CHARACTERS),
            1418 => Some(WinErrorWindows::ERROR_CLIPBOARD_NOT_OPEN),
            1419 => Some(WinErrorWindows::ERROR_HOTKEY_NOT_REGISTERED),
            1420 => Some(WinErrorWindows::ERROR_WINDOW_NOT_DIALOG),
            1421 => Some(WinErrorWindows::ERROR_CONTROL_ID_NOT_FOUND),
            1422 => Some(WinErrorWindows::ERROR_INVALID_COMBOBOX_MESSAGE),
            1423 => Some(WinErrorWindows::ERROR_WINDOW_NOT_COMBOBOX),
            1424 => Some(WinErrorWindows::ERROR_INVALID_EDIT_HEIGHT),
            1425 => Some(WinErrorWindows::ERROR_DC_NOT_FOUND),
            1426 => Some(WinErrorWindows::ERROR_INVALID_HOOK_FILTER),
            1427 => Some(WinErrorWindows::ERROR_INVALID_FILTER_PROC),
            1428 => Some(WinErrorWindows::ERROR_HOOK_NEEDS_HMOD),
            1429 => Some(WinErrorWindows::ERROR_GLOBAL_ONLY_HOOK),
            1430 => Some(WinErrorWindows::ERROR_JOURNAL_HOOK_SET),
            1431 => Some(WinErrorWindows::ERROR_HOOK_NOT_INSTALLED),
            1432 => Some(WinErrorWindows::ERROR_INVALID_LB_MESSAGE),
            1433 => Some(WinErrorWindows::ERROR_SETCOUNT_ON_BAD_LB),
            1434 => Some(WinErrorWindows::ERROR_LB_WITHOUT_TABSTOPS),
            1435 => Some(WinErrorWindows::ERROR_DESTROY_OBJECT_OF_OTHER_THREAD),
            1436 => Some(WinErrorWindows::ERROR_CHILD_WINDOW_MENU),
            1437 => Some(WinErrorWindows::ERROR_NO_SYSTEM_MENU),
            1438 => Some(WinErrorWindows::ERROR_INVALID_MSGBOX_STYLE),
            1439 => Some(WinErrorWindows::ERROR_INVALID_SPI_VALUE),
            _ => None,
        }
    }

    /// One slice of the symbol table: the raw value of this symbol,
    /// where this slice holds it.
    pub open spec fn spec_to_u32_part20(self) -> Option<u32> {
        match self {
            WinErrorWindows::ERROR_SCREEN_ALREADY_LOCKED => Some(1440),
            WinErrorWindows::ERROR_HWNDS_HAVE_DIFF_PARENT => Some(1441),
            WinErrorWindows::ERROR_NOT_CHILD_WINDOW => Some(1442),
            WinErrorWindows::ERROR_INVALID_GW_COMMAND => Some(1443),
            WinErrorWindows::ERROR_INVALID_THREAD_ID => Some(1444),
            WinErrorWindows::ERROR_NON_MDICHILD_WINDOW => Some(1445),
            WinErrorWindows::ERROR_POPUP_ALREADY_ACTIVE => Some(1446),
            WinErrorWindows::ERROR_NO_SCROLLBARS => Some(1447),
            WinErrorWindows::ERROR_INVALID_SCROLLBAR_RANGE => Some(1448),
            WinErrorWindows::ERROR_INVALID_SHOWWIN_COMMAND => Some(1449),
            WinErrorWindows::ERROR_NO_SYSTEM_RESOURCES => Some(1450),
            WinErrorWindows::ERROR_NONPAGED_SYSTEM_RESOURCES => Some(1451),
            WinErrorWindows::ERROR_PAGED_SYSTEM_RESOURCES => Some(1452),
            WinErrorWindows::ERROR_WORKING_SET_QUOTA => Some(1453),
            WinErrorWindows::ERROR_PAGEFILE_QUOTA => Some(1454),
            WinErrorWindows::ERROR_COMMITMENT_LIMIT => Some(1455),
            WinErrorWindows::ERROR_MENU_ITEM_NOT_FOUND => Some(1456),
            WinErrorWindows::ERROR_INVALID_KEYBOARD_HANDLE => Some(1457),
            WinErrorWindows::ERROR_HOOK_TYPE_NOT_ALLOWED => Some(1458),
            WinErrorWindows::ERROR_REQUIRES_INTERACTIVE_WINDOWSTATION => Some(1459),
            WinErrorWindows::ERROR_TIMEOUT => Some(1460),
            WinErrorWindows::ERROR_INVALID_MONITOR_HANDLE => Some(1461),
            WinErrorWindows::ERROR_INCORRECT_SIZE => Some(1462),
            WinErrorWindows::ERROR_SYMLINK_CLASS_DISABLED => Some(1463),
            WinErrorWindows::ERROR_SYMLINK_NOT_SUPPORTED => Some(1464),
            WinErrorWindows::ERROR_XML_PARSE_ERROR => Some(1465),
            WinErrorWindows::ERROR_XMLDSIG_ERROR => Some(1466),
            WinErrorWindows::ERROR_RESTART_APPLICATION => Some(1467),
            WinErrorWindows::ERROR_WRONG_COMPARTMENT => Some(1468),
            WinErrorWindows::ERROR_AUTHIP_FAILURE => Some(1469),
            WinErrorWindows::ERROR_NO_NVRAM_RESOURCES => Some(1470),
            WinErrorWindows::ERROR_NOT_GUI_PROCESS => Some(1471),
            WinErrorWindows::ERROR_EVENTLOG_FILE_CORRUPT => Some(1500),
            WinErrorWindows::ERROR_EVENTLOG_CANT_START => Some(1501),
            WinErrorWindows::ERROR_LOG_FILE_FULL => Some(1502),
            WinErrorWindows::ERROR_EVENTLOG_FILE_CHANGED => Some(1503),
            WinErrorWindows::ERROR_CONTAINER_ASSIGNED => Some(1504),
            WinErrorWindows::ERROR_JOB_NO_CONTAINER => Some(1505),
            WinErrorWindows::ERROR_INVALID_TASK_NAME => Some(1550),
            WinErrorWindows::ERROR_INVALID_TASK_INDEX => Some(1551),
            WinErrorWindows::ERROR_THREAD_ALREADY_IN_TASK => Some(1552),
            WinErrorWindows::ERROR_INSTALL_SERVICE_FAILURE => Some(1601),
            WinErrorWindows::ERROR_INSTALL_USEREXIT => Some(1602),
            WinErrorWindows::ERROR_INSTALL_FAILURE => Some(1603),
            WinErrorWindows::ERROR_INSTALL_SUSPEND => Some(1604),
            WinErrorWindows::ERROR_UNKNOWN_PRODUCT => Some(1605),
            WinErrorWindows::ERROR_UNKNOWN_FEATURE => Some(1606),
            WinErrorWindows::ERROR_UNKNOWN_COMPONENT => Some(1607),
            WinErrorWindows::ERROR_UNKNOWN_PROPERTY => Some(1608),
            WinErrorWindows::ERROR_INVALID_HANDLE_STATE => Some(1609),
            _ => None,
        }
    }

    /// One slice of the symbol table: the symbol this slice gives a
    /// raw value, where it holds one.
    pub open spec fn spec_from_u32_part20(raw: u32) -> Option<WinErrorWindows> {
        match raw {
            1440 => Some(WinErrorWindows::ERROR_SCREEN_ALREADY_LOCKED),
            1441 => Some(WinErrorWindows::ERROR_HWNDS_HAVE_DIFF_PARENT),
            1442 => Some(WinErrorWindows::ERROR_NOT_CHILD_WINDOW),
            1443 => Some(WinErrorWindows::ERROR_INVALID_GW_COMMAND),
            1444 => Some(WinErrorWindows::ERROR_INVALID_THREAD_ID),
            1445 => Some(WinErrorWindows::ERROR_NON_MDICHILD_WINDOW),
            1446 => Some(WinErrorWindows::ERROR_POPUP_ALREADY_ACTIVE),
            1447 => Some(WinErrorWindows::ERROR_NO_SCROLLBARS),
            1448 => Some(WinErrorWindows::ERROR_INVALID_SCROLLBAR_RANGE),
            1449 => Some(WinErrorWindows::ERROR_INVALID_SHOWWIN_COMMAND),
            1450 => Some(WinErrorWindows::ERROR_NO_SYSTEM_RESOURCES),
            1451 => Some(WinErrorWindows::ERROR_NONPAGED_SYSTEM_RESOURCES),
            1452 => Some(WinErrorWindows::ERROR_PAGED_SYSTEM_RESOURCES),
            1453 => Some(WinErrorWindows::ERROR_WORKING_SET_QUOTA),
            1454 => Some(WinErrorWindows::ERROR_PAGEFILE_QUOTA),
            1455 => Some(WinErrorWindows::ERROR_COMMITMENT_LIMIT),
            1456 => Some(WinErrorWindows::ERROR_MENU_ITEM_NOT_FOUND),
            1457 => Some(WinErrorWindows::ERROR_INVALID_KEYBOARD_HANDLE),
            1458 => Some(WinErrorWindows::ERROR_HOOK_TYPE_NOT_ALLOWED),
            1459 => Some(WinErrorWindows::ERROR_REQUIRES_INTERACTIVE_WINDOWSTATION),
            1460 => Some(WinErrorWindows::ERROR_TIMEOUT),
            1461 => Some(WinErrorWindows::ERROR_INVALID_MONITOR_HANDLE),
            1462 => Some(WinErrorWindows::ERROR_INCORRECT_SIZE),
            1463 => Some(WinErrorWindows::ERROR_SYMLINK_CLASS_DISABLED),
            1464 => Some(WinErrorWindows::ERROR_SYMLINK_NOT_SUPPORTED),
            1465 => Some(WinErrorWindows::ERROR_XML_PARSE_ERROR),
            1466 => Some(WinErrorWindows::ERROR_XMLDSIG_ERROR),
            1467 => Some(WinErrorWindows::ERROR_RESTART_APPLICATION),
            1468 => Some(WinErrorWindows::ERROR_WRONG_COMPARTMENT),
            1469 => Some(WinErrorWindows::ERROR_AUTHIP_FAILURE),
            1470 => Some(WinErrorWindows::ERROR_NO_NVRAM_RESOURCES),
            1471 => Some(WinErrorWindows::ERROR_NOT_GUI_PROCESS),
            1500 => Some(WinErrorWindows::ERROR_EVENTLOG_FILE_CORRUPT),
            1501 => Some(WinErrorWindows::ERROR_EVENTLOG_CANT_START),
            1502 => Some(WinErrorWindows::ERROR_LOG_FILE_FULL),
            1503 => Some(WinErrorWindows::ERROR_EVENTLOG_FILE_CHANGED),
            1504 => Some(WinErrorWindows::ERROR_CONTAINER_ASSIGNED),
            1505 => Some(WinErrorWindows::ERROR_JOB_NO_CONTAINER),
            1550 => Some(WinErrorWindows::ERROR_INVALID_TASK_NAME),
            1551 => Some(WinErrorWindows::ERROR_INVALID_TASK_INDEX),
            1552 => Some(WinErrorWindows::ERROR_THREAD_ALREADY_IN_TASK),
            1601 => Some(WinErrorWindows::ERROR_INSTALL_SERVICE_FAILURE),
            1602 => Some(WinErrorWindows::ERROR_INSTALL_USEREXIT),
            1603 => Some(WinErrorWindows::ERROR_INSTALL_FAILURE),
            1604 => Some(WinErrorWindows::ERROR_INSTALL_SUSPEND),
            1605 => Some(WinErrorWindows::ERROR_UNKNOWN_PRODUCT),
            1606 => Some(WinErrorWindows::ERROR_UNKNOWN_FEATURE),
            1607 => Some(WinErrorWindows::ERROR_UNKNOWN_COMPONENT),
            1608 => Some(WinErrorWindows::ERROR_UNKNOWN_PROPERTY),
            1609 => Some(WinErrorWindows::ERROR_INVALID_HANDLE_STATE),
            _ => None,
        }
    }

    /// One slice of the symbol table.
    #[verifier::spinoff_prover]
    #[verifier::rlimit(100)]
    fn to_u32_part20(self) -> (r: Option<u32>)
        ensures
            r == self.spec_to_u32_part20(),
    {
        match self {
            WinErrorWindows::ERROR_SCREEN_ALREADY_LOCKED => Some(1440),
            WinErrorWindows::ERROR_HWNDS_HAVE_DIFF_PARENT => Some(1441),
            WinErrorWindows::ERROR_NOT_CHILD_WINDOW => Some(1442),
            WinErrorWindows::ERROR_INVALID_GW_COMMAND => Some(1443),
            WinErrorWindows::ERROR_INVALID_THREAD_ID => Some(1444),
            WinErrorWindows::ERROR_NON_MDICHILD_WINDOW => Some(1445),
            WinErrorWindows::ERROR_POPUP_ALREADY_ACTIVE => Some(1446),
            WinErrorWindows::ERROR_NO_SCROLLBARS => Some(1447),
            WinErrorWindows::ERROR_INVALID_SCROLLBAR_RANGE => Some(1448),
            WinErrorWindows::ERROR_INVALID_SHOWWIN_COMMAND => Some(1449),
            WinErrorWindows::ERROR_NO_SYSTEM_RESOURCES => Some(1450),
            WinErrorWindows::ERROR_NONPAGED_SYSTEM_RESOURCES => Some(1451),
            WinErrorWindows::ERROR_PAGED_SYSTEM_RESOURCES => Some(1452),
            WinErrorWindows::ERROR_WORKING_SET_QUOTA => Some(1453),
            WinErrorWindows::ERROR_PAGEFILE_QUOTA => Some(1454),
            WinErrorWindows::ERROR_COMMITMENT_LIMIT => Some(1455),
            WinErrorWindows::ERROR_MENU_ITEM_NOT_FOUND => Some(1456),
            WinErrorWindows::ERROR_INVALID_KEYBOARD_HANDLE => Some(1457),
            WinErrorWindows::ERROR_HOOK_TYPE_NOT_ALLOWED => Some(1458),
            WinErrorWindows::ERROR_REQUIRES_INTERACTIVE_WINDOWSTATION => Some(1459),
            WinErrorWindows::ERROR_TIMEOUT => Some(1460),
            WinErrorWindows::ERROR_INVALID_MONITOR_HANDLE => Some(1461),
            WinErrorWindows::ERROR_INCORRECT_SIZE => Some(1462),
            WinErrorWindows::ERROR_SYMLINK_CLASS_DISABLED => Some(1463),
            WinErrorWindows::ERROR_SYMLINK_NOT_SUPPORTED => Some(1464),
            WinErrorWindows::ERROR_XML_PARSE_ERROR => Some(1465),
            WinErrorWindows::ERROR_XMLDSIG_ERROR => Some(1466),
            WinErrorWindows::ERROR_RESTART_APPLICATION => Some(1467),
            WinErrorWindows::ERROR_WRONG_COMPARTMENT => Some(1468),
            WinErrorWindows::ERROR_AUTHIP_FAILURE => Some(1469),
            WinErrorWindows::ERROR_NO_NVRAM_RESOURCES => Some(1470),
            WinErrorWindows::ERROR_NOT_GUI_PROCESS => Some(1471),
            WinErrorWindows::ERROR_EVENTLOG_FILE_CORRUPT => Some(1500),
            WinErrorWindows::ERROR_EVENTLOG_CANT_START => Some(1501),
            WinErrorWindows::ERROR_LOG_FILE_FULL => Some(1502),
            WinErrorWindows::ERROR_EVENTLOG_FILE_CHANGED => Some(1503),
            WinErrorWindows::ERROR_CONTAINER_ASSIGNED => Some(1504),
            WinErrorWindows::ERROR_JOB_NO_CONTAINER => Some(1505),
            WinErrorWindows::ERROR_INVALID_TASK_NAME => Some(1550),
            WinErrorWindows::ERROR_INVALID_TASK_INDEX => Some(1551),
            WinErrorWindows::ERROR_THREAD_ALREADY_IN_TASK => Some(1552),
            WinErrorWindows::ERROR_INSTALL_SERVICE_FAILURE => Some(1601),
            WinErrorWindows::ERROR_INSTALL_USEREXIT => Some(1602),
            WinErrorWindows::ERROR_INSTALL_FAILURE => Some(1603),
            WinErrorWindows::ERROR_INSTALL_SUSPEND => Some(1604),
            WinErrorWindows::ERROR_UNKNOWN_PRODUCT => Some(1605),
            WinErrorWindows::ERROR_UNKNOWN_FEATURE => Some(1606),
            WinErrorWindows::ERROR_UNKNOWN_COMPONENT => Some(1607),
            WinErrorWindows::ERROR_UNKNOWN_PROPERTY => Some(1608),
            WinErrorWindows::ERROR_INVALID_HANDLE_STATE => Some(1609),
            _ => None,
        }
    }

    /// One slice of the symbol table.
    #[verifier::spinoff_prover]
    #[verifier::rlimit(100)]
    fn from_u32_part20(raw: u32) -> (r: Option<WinErrorWindows>)
        ensures
            r == WinErrorWindows::spec_from_u32_part20(raw),
    {
        match raw {
            1440 => Some(WinErrorWindows::ERROR_SCREEN_ALREADY_LOCKED),
            1441 => Some(WinErrorWindows::ERROR_HWNDS_HAVE_DIFF_PARENT),
            1442 => Some(WinErrorWindows::ERROR_NOT_CHILD_WINDOW),
            1443 => Some(WinErrorWindows::ERROR_INVALID_GW_COMMAND),
            1444 => Some(WinErrorWindows::ERROR_INVALID_THREAD_ID),
            1445 => Some(WinErrorWindows::ERROR_NON_MDICHILD_WINDOW),
            1446 => Some(WinErrorWindows::ERROR_POPUP_ALREADY_ACTIVE),
            1447 => Some(WinErrorWindows::ERROR_NO_SCROLLBARS),
            1448 => Some(WinErrorWindows::ERROR_INVALID_SCROLLBAR_RANGE),
            1449 => Some(WinErrorWindows::ERROR_INVALID_SHOWWIN_COMMAND),
            1450 => Some(WinErrorWindows::ERROR_NO_SYSTEM_RESOURCES),
            1451 => Some(WinErrorWindows::ERROR_NONPAGED_SYSTEM_RESOURCES),
            1452 => Some(WinErrorWindows::ERROR_PAGED_SYSTEM_RESOURCES),
            1453 => Some(WinErrorWindows::ERROR_WORKING_SET_QUOTA),
            1454 => Some(WinErrorWindows::ERROR_PAGEFILE_QUOTA),
            1455 => Some(WinErrorWindows::ERROR_COMMITMENT_LIMIT),
            1456 => Some(WinErrorWindows::ERROR_MENU_ITEM_NOT_FOUND),
            1457 => Some(WinErrorWindows::ERROR_INVALID_KEYBOARD_HANDLE),
            1458 => Some(WinErrorWindows::ERROR_HOOK_TYPE_NOT_ALLOWED),
            1459 => Some(WinErrorWindows::ERROR_REQUIRES_INTERACTIVE_WINDOWSTATION),
            1460 => Some(WinErrorWindows::ERROR_TIMEOUT),
            1461 => Some(WinErrorWindows::ERROR_INVALID_MONITOR_HANDLE),
            1462 => Some(WinErrorWindows::ERROR_INCORRECT_SIZE),
            1463 => Some(WinErrorWindows::ERROR_SYMLINK_CLASS_DISABLED),
            1464 => Some(WinErrorWindows::ERROR_SYMLINK_NOT_SUPPORTED),
            1465 => Some(WinErrorWindows::ERROR_XML_PARSE_ERROR),
            1466 => Some(WinErrorWindows::ERROR_XMLDSIG_ERROR),
            1467 => Some(WinErrorWindows::ERROR_RESTART_APPLICATION),
            1468 => Some(WinErrorWindows::ERROR_WRONG_COMPARTMENT),
            1469 => Some(WinErrorWindows::ERROR_AUTHIP_FAILURE),
            1470 => Some(WinErrorWindows::ERROR_NO_NVRAM_RESOURCES),
            1471 => Some(WinErrorWindows::ERROR_NOT_GUI_PROCESS),
            1500 => Some(WinErrorWindows::ERROR_EVENTLOG_FILE_CORRUPT),
            1501 => Some(WinErrorWindows::ERROR_EVENTLOG_CANT_START),
            1502 => Some(WinErrorWindows::ERROR_LOG_FILE_FULL),
            1503 => Some(WinErrorWindows::ERROR_EVENTLOG_FILE_CHANGED),
            1504 => Some(WinErrorWindows::ERROR_CONTAINER_ASSIGNED),
            1505 => Some(WinErrorWindows::ERROR_JOB_NO_CONTAINER),
            1550 => Some(WinErrorWindows::ERROR_INVALID_TASK_NAME),
            1551 => Some(WinErrorWindows::ERROR_INVALID_TASK_INDEX),
            1552 => Some(WinErrorWindows::ERROR_THREAD_ALREADY_IN_TASK),
            1601 => Some(WinErrorWindows::ERROR_INSTALL_SERVICE_FAILURE),
            1602 => Some(WinErrorWindows::ERROR_INSTALL_USEREXIT),
            1603 => Some(WinErrorWindows::ERROR_INSTALL_FAILURE),
            1604 => Some(WinErrorWindows::ERROR_INSTALL_SUSPEND),
            1605 => Some(WinErrorWindows::ERROR_UNKNOWN_PRODUCT),
            1606 => Some(WinErrorWindows::ERROR_UNKNOWN_FEATURE),
            1607 => Some(WinErrorWindows::ERROR_UNKNOWN_COMPONENT),
            1608 => Some(WinErrorWindows::ERROR_UNKNOWN_PROPERTY),
            1609 => Some(WinErrorWindows::ERROR_INVALID_HANDLE_STATE),
            _ => None,
        }
    }

    /// One slice of the symbol table: the raw value of this symbol,
    /// where this slice holds it.
    pub open spec fn spec_to_u32_part21(self) -> Option<u32> {
        match self {
            WinErrorWindows::ERROR_BAD_CONFIGURATION => Some(1610),
            WinErrorWindows::ERROR_INDEX_ABSENT => Some(1611),
            WinErrorWindows::ERROR_INSTALL_SOURCE_ABSENT => Some(1612),
            WinErrorWindows::ERROR_INSTALL_PACKAGE_VERSION => Some(1613),
            WinErrorWindows::ERROR_PRODUCT_UNINSTALLED => Some(1614),
            WinErrorWindows::ERROR_BAD_QUERY_SYNTAX => Some(1615),
            WinErrorWindows::ERROR_INVALID_FIELD => Some(1616),
            WinErrorWindows::ERROR_DEVICE_REMOVED => Some(1617),
            WinErrorWindows::ERROR_INSTALL_ALREADY_RUNNING => Some(1618),
            WinErrorWindows::ERROR_INSTALL_PACKAGE_OPEN_FAILED => Some(1619),
            WinErrorWindows::ERROR_INSTALL_PACKAGE_INVALID => Some(1620),
            WinErrorWindows::ERROR_INSTALL_UI_FAILURE => Some(1621),
            WinErrorWindows::ERROR_INSTALL_LOG_FAILURE => Some(1622),
            WinErrorWindows::ERROR_INSTALL_LANGUAGE_UNSUPPORTED => Some(1623),
            WinErrorWindows::ERROR_INSTALL_TRANSFORM_FAILURE => Some(1624),
            WinErrorWindows::ERROR_INSTALL_PACKAGE_REJECTED => Some(1625),
            WinErrorWindows::ERROR_FUNCTION_NOT_CALLED => Some(1626),
            WinErrorWindows::ERROR_FUNCTION_FAILED => Some(1627),
            WinErrorWindows::ERROR_INVALID_TABLE => Some(1628),
            WinErrorWindows::ERROR_DATATYPE_MISMATCH => Some(1629),
            WinErrorWindows::ERROR_UNSUPPORTED_TYPE => Some(1630),
            WinErrorWindows::ERROR_CREATE_FAILED => Some(1631),
            WinErrorWindows::ERROR_INSTALL_TEMP_UNWRITABLE => Some(1632),
            WinErrorWindows::ERROR_INSTALL_PLATFORM_UNSUPPORTED => Some(1633),
            WinErrorWindows::ERROR_INSTALL_NOTUSED => Some(1634),
            WinErrorWindows::ERROR_PATCH_PACKAGE_OPEN_FAILED => Some(1635),
            WinErrorWindows::ERROR_PATCH_PACKAGE_INVALID => Some(1636),
            WinErrorWindows::ERROR_PATCH_PACKAGE_UNSUPPORTED => Some(1637),
            WinErrorWindows::ERROR_PRODUCT_VERSION => Some(1638),
            WinErrorWindows::ERROR_INVALID_COMMAND_LINE => Some(1639),
            WinErrorWindows::ERROR_INSTALL_REMOTE_DISALLOWED => Some(1640),
            WinErrorWindows::ERROR_SUCCESS_REBOOT_INITIATED => Some(1641),
            WinErrorWindows::ERROR_PATCH_TARGET_NOT_FOUND => Some(1642),
            WinErrorWindows::ERROR_PATCH_PACKAGE_REJECTED => Some(1643),
            WinErrorWindows::ERROR_INSTALL_TRANSFORM_REJECTED => Some(1644),
            WinErrorWindows::ERROR_INSTALL_REMOTE_PROHIBITED => Some(1645),
            WinErrorWindows::ERROR_PATCH_REMOVAL_UNSUPPORTED => Some(1646),
            WinErrorWindows::ERROR_UNKNOWN_PATCH => Some(1647),
            WinErrorWindows::ERROR_PATCH_NO_SEQUENCE => Some(1648),
            WinErrorWindows::ERROR_PATCH_REMOVAL_DISALLOWED => Some(1649),
            WinErrorWindows::ERROR_INVALID_PATCH_XML => Some(1650),
            WinErrorWindows::ERROR_PATCH_MANAGED_ADVERTISED_PRODUCT => Some(1651),
            WinErrorWindows::ERROR_INSTALL_SERVICE_SAFEBOOT => Some(1652),
            WinErrorWindows::ERROR_FAIL_FAST_EXCEPTION => Some(1653),
            WinErrorWindows::ERROR_INSTALL_REJECTED => Some(1654),
            WinErrorWindows::ERROR_DYNAMIC_CODE_BLOCKED => Some(1655),
            WinErrorWindows::ERROR_NOT_SAME_OBJECT => Some(1656),
            WinErrorWindows::ERROR_STRICT_CFG_VIOLATION => Some(1657),
            WinErrorWindows::ERROR_SET_CONTEXT_DENIED => Some(1660),
            WinErrorWindows::ERROR_CROSS_PARTITION_VIOLATION => Some(1661),
            _ => None,
        }
    }

    /// One slice of the symbol table: the symbol this slice gives a
    /// raw value, where it holds one.
    pub open spec fn spec_from_u32_part21(raw: u32) -> Option<WinErrorWindows> {
        match raw {
            1610 => Some(WinErrorWindows::ERROR_BAD_CONFIGURATION),
            1611 => Some(WinErrorWindows::ERROR_INDEX_ABSENT),
            1612 => Some(WinErrorWindows::ERROR_INSTALL_SOURCE_ABSENT),
            1613 => Some(WinErrorWindows::ERROR_INSTALL_PACKAGE_VERSION),
            1614 => Some(WinErrorWindows::ERROR_PRODUCT_UNINSTALLED),
            1615 => Some(WinErrorWindows::ERROR_BAD_QUERY_SYNTAX),
            1616 => Some(WinErrorWindows::ERROR_INVALID_FIELD),
            1617 => Some(WinErrorWindows::ERROR_DEVICE_REMOVED),
            1618 => Some(WinErrorWindows::ERROR_INSTALL_ALREADY_RUNNING),
            1619 => Some(WinErrorWindows::ERROR_INSTALL_PACKAGE_OPEN_FAILED),
            1620 => Some(WinErrorWindows::ERROR_INSTALL_PACKAGE_INVALID),
            1621 => Some(WinErrorWindows::ERROR_INSTALL_UI_FAILURE),
            1622 => Some(WinErrorWindows::ERROR_INSTALL_LOG_FAILURE),
            1623 => Some(WinErrorWindows::ERROR_INSTALL_LANGUAGE_UNSUPPORTED),
            1624 => Some(WinErrorWindows::ERROR_INSTALL_TRANSFORM_FAILURE),
            1625 => Some(WinErrorWindows::ERROR_INSTALL_PACKAGE_REJECTED),
            1626 => Some(WinErrorWindows::ERROR_FUNCTION_NOT_CALLED),
            1627 => Some(WinErrorWindows::ERROR_FUNCTION_FAILED),
            1628 => Some(WinErrorWindows::ERROR_INVALID_TABLE),
            1629 => Some(WinErrorWindows::ERROR_DATATYPE_MISMATCH),
            1630 => Some(WinErrorWindows::ERROR_UNSUPPORTED_TYPE),
            1631 => Some(WinErrorWindows::ERROR_CREATE_FAILED),
            1632 => Some(WinErrorWindows::ERROR_INSTALL_TEMP_UNWRITABLE),
            1633 => Some(WinErrorWindows::ERROR_INSTALL_PLATFORM_UNSUPPORTED),
            1634 => Some(WinErrorWindows::ERROR_INSTALL_NOTUSED),
            1635 => Some(WinErrorWindows::ERROR_PATCH_PACKAGE_OPEN_FAILED),
            1636 => Some(WinErrorWindows::ERROR_PATCH_PACKAGE_INVALID),
            1637 => Some(WinErrorWindows::ERROR_PATCH_PACKAGE_UNSUPPORTED),
            1638 => Some(WinErrorWindows::ERROR_PRODUCT_VERSION),
            1639 => Some(WinErrorWindows::ERROR_INVALID_COMMAND_LINE),
            1640 => Some(WinErrorWindows::ERROR_INSTALL_REMOTE_DISALLOWED),
            1641 => Some(WinErrorWindows::ERROR_SUCCESS_REBOOT_INITIATED),
            1642 => Some(WinErrorWindows::ERROR_PATCH_TARGET_NOT_FOUND),
            1643 => Some(WinErrorWindows::ERROR_PATCH_PACKAGE_REJECTED),
            1644 => Some(WinErrorWindows::ERROR_INSTALL_TRANSFORM_REJECTED),
            1645 => Some(WinErrorWindows::ERROR_INSTALL_REMOTE_PROHIBITED),
            1646 => Some(WinErrorWindows::ERROR_PATCH_REMOVAL_UNSUPPORTED),
            1647 => Some(WinErrorWindows::ERROR_UNKNOWN_PATCH),
            1648 => Some(WinErrorWindows::ERROR_PATCH_NO_SEQUENCE),
            1649 => Some(WinErrorWindows::ERROR_PATCH_REMOVAL_DISALLOWED),
            1650 => Some(WinErrorWindows::ERROR_INVALID_PATCH_XML),
            1651 => Some(WinErrorWindows::ERROR_PATCH_MANAGED_ADVERTISED_PRODUCT),
            1652 => Some(WinErrorWindows::ERROR_INSTALL_SERVICE_SAFEBOOT),
            1653 => Some(WinErrorWindows::ERROR_FAIL_FAST_EXCEPTION),
            1654 => Some(WinErrorWindows::ERROR_INSTALL_REJECTED),
            1655 => Some(WinErrorWindows::ERROR_DYNAMIC_CODE_BLOCKED),
            1656 => Some(WinErrorWindows::ERROR_NOT_SAME_OBJECT),
            1657 => Some(WinErrorWindows::ERROR_STRICT_CFG_VIOLATION),
            1660 => Some(WinErrorWindows::ERROR_SET_CONTEXT_DENIED),
            1661 => Some(WinErrorWindows::ERROR_CROSS_PARTITION_VIOLATION),
            _ => None,
        }
    }

    /// One slice of the symbol table.
    #[verifier::spinoff_prover]
    #[verifier::rlimit(100)]
    fn to_u32_part21(self) -> (r: Option<u32>)
        ensures
            r == self.spec_to_u32_part21(),
    {
        match self {
            WinErrorWindows::ERROR_BAD_CONFIGURATION => Some(1610),
            WinErrorWindows::ERROR_INDEX_ABSENT => Some(1611),
            WinErrorWindows::ERROR_INSTALL_SOURCE_ABSENT => Some(1612),
            WinErrorWindows::ERROR_INSTALL_PACKAGE_VERSION => Some(1613),
            WinErrorWindows::ERROR_PRODUCT_UNINSTALLED => Some(1614),
            WinErrorWindows::ERROR_BAD_QUERY_SYNTAX => Some(1615),
            WinErrorWindows::ERROR_INVALID_FIELD => Some(1616),
            WinErrorWindows::ERROR_DEVICE_REMOVED => Some(1617),
            WinErrorWindows::ERROR_INSTALL_ALREADY_RUNNING => Some(1618),
            WinErrorWindows::ERROR_INSTALL_PACKAGE_OPEN_FAILED => Some(1619),
            WinErrorWindows::ERROR_INSTALL_PACKAGE_INVALID => Some(1620),
            WinErrorWindows::ERROR_INSTALL_UI_FAILURE => Some(1621),
            WinErrorWindows::ERROR_INSTALL_LOG_FAILURE => Some(1622),
            WinErrorWindows::ERROR_INSTALL_LANGUAGE_UNSUPPORTED => Some(1623),
            WinErrorWindows::ERROR_INSTALL_TRANSFORM_FAILURE => Some(1624),
            WinErrorWindows::ERROR_INSTALL_PACKAGE_REJECTED => Some(1625),
            WinErrorWindows::ERROR_FUNCTION_NOT_CALLED => Some(1626),
            WinErrorWindows::ERROR_FUNCTION_FAILED => Some(1627),
            WinErrorWindows::ERROR_INVALID_TABLE => Some(1628),
            WinErrorWindows::ERROR_DATATYPE_MISMATCH => Some(1629),
            WinErrorWindows::ERROR_UNSUPPORTED_TYPE => Some(1630),
            WinErrorWindows::ERROR_CREATE_FAILED => Some(1631),
            WinErrorWindows::ERROR_INSTALL_TEMP_UNWRITABLE => Some(1632),
            WinErrorWindows::ERROR_INSTALL_PLATFORM_UNSUPPORTED => Some(1633),
            WinErrorWindows::ERROR_INSTALL_NOTUSED => Some(1634),
            WinErrorWindows::ERROR_PATCH_PACKAGE_OPEN_FAILED => Some(1635),
            WinErrorWindows::ERROR_PATCH_PACKAGE_INVALID => Some(1636),
            WinErrorWindows::ERROR_PATCH_PACKAGE_UNSUPPORTED => Some(1637),
            WinErrorWindows::ERROR_PRODUCT_VERSION => Some(1638),
            WinErrorWindows::ERROR_INVALID_COMMAND_LINE => Some(1639),
            WinErrorWindows::ERROR_INSTALL_REMOTE_DISALLOWED => Some(1640),
            WinErrorWindows::ERROR_SUCCESS_REBOOT_INITIATED => Some(1641),
            WinErrorWindows::ERROR_PATCH_TARGET_NOT_FOUND => Some(1642),
            WinErrorWindows::ERROR_PATCH_PACKAGE_REJECTED => Some(1643),
            WinErrorWindows::ERROR_INSTALL_TRANSFORM_REJECTED => Some(1644),
            WinErrorWindows::ERROR_INSTALL_REMOTE_PROHIBITED => Some(1645),
            WinErrorWindows::ERROR_PATCH_REMOVAL_UNSUPPORTED => Some(1646),
            WinErrorWindows::ERROR_UNKNOWN_PATCH => Some(1647),
            WinErrorWindows::ERROR_PATCH_NO_SEQUENCE => Some(1648),
            WinErrorWindows::ERROR_PATCH_REMOVAL_DISALLOWED => Some(1649),
            WinErrorWindows::ERROR_INVALID_PATCH_XML => Some(1650),
            WinErrorWindows::ERROR_PATCH_MANAGED_ADVERTISED_PRODUCT => Some(1651),
            WinErrorWindows::ERROR_INSTALL_SERVICE_SAFEBOOT => Some(1652),
            WinErrorWindows::ERROR_FAIL_FAST_EXCEPTION => Some(1653),
            WinErrorWindows::ERROR_INSTALL_REJECTED => Some(1654),
            WinErrorWindows::ERROR_DYNAMIC_CODE_BLOCKED => Some(1655),
            WinErrorWindows::ERROR_NOT_SAME_OBJECT => Some(1656),
            WinErrorWindows::ERROR_STRICT_CFG_VIOLATION => Some(1657),
            WinErrorWindows::ERROR_SET_CONTEXT_DENIED => Some(1660),
            WinErrorWindows::ERROR_CROSS_PARTITION_VIOLATION => Some(1661),
            _ => None,
        }
    }

    /// One slice of the symbol table.
    #[verifier::spinoff_prover]
    #[verifier::rlimit(100)]
    fn from_u32_part21(raw: u32) -> (r: Option<WinErrorWindows>)
        ensures
            r == WinErrorWindows::spec_from_u32_part21(raw),
    {
        match raw {
            1610 => Some(WinErrorWindows::ERROR_BAD_CONFIGURATION),
            1611 => Some(WinErrorWindows::ERROR_INDEX_ABSENT),
            1612 => Some(WinErrorWindows::ERROR_INSTALL_SOURCE_ABSENT),
            1613 => Some(WinErrorWindows::ERROR_INSTALL_PACKAGE_VERSION),
            1614 => Some(WinErrorWindows::ERROR_PRODUCT_UNINSTALLED),
            1615 => Some(WinErrorWindows::ERROR_BAD_QUERY_SYNTAX),
            1616 => Some(WinErrorWindows::ERROR_INVALID_FIELD),
            1617 => Some(WinErrorWindows::ERROR_DEVICE_REMOVED),
            1618 => Some(WinErrorWindows::ERROR_INSTALL_ALREADY_RUNNING),
            1619 => Some(WinErrorWindows::ERROR_INSTALL_PACKAGE_OPEN_FAILED),
            1620 => Some(WinErrorWindows::ERROR_INSTALL_PACKAGE_INVALID),
            1621 => Some(WinErrorWindows::ERROR_INSTALL_UI_FAILURE),
            1622 => Some(WinErrorWindows::ERROR_INSTALL_LOG_FAILURE),
            1623 => Some(WinErrorWindows::ERROR_INSTALL_LANGUAGE_UNSUPPORTED),
            1624 => Some(WinErrorWindows::ERROR_INSTALL_TRANSFORM_FAILURE),
            1625 => Some(WinErrorWindows::ERROR_INSTALL_PACKAGE_REJECTED),
            1626 => Some(WinErrorWindows::ERROR_FUNCTION_NOT_CALLED),
            1627 => Some(WinErrorWindows::ERROR_FUNCTION_FAILED),
            1628 => Some(WinErrorWindows::ERROR_INVALID_TABLE),
            1629 => Some(WinErrorWindows::ERROR_DATATYPE_MISMATCH),
            1630 => Some(WinErrorWindows::ERROR_UNSUPPORTED_TYPE),
            1631 => Some(WinErrorWindows::ERROR_CREATE_FAILED),
            1632 => Some(WinErrorWindows::ERROR_INSTALL_TEMP_UNWRITABLE),
            1633 => Some(WinErrorWindows::ERROR_INSTALL_PLATFORM_UNSUPPORTED),
            1634 => Some(WinErrorWindows::ERROR_INSTALL_NOTUSED),
            1635 => Some(WinErrorWindows::ERROR_PATCH_PACKAGE_OPEN_FAILED),
            1636 => Some(WinErrorWindows::ERROR_PATCH_PACKAGE_INVALID),
            1637 => Some(WinErrorWindows::ERROR_PATCH_PACKAGE_UNSUPPORTED),
            1638 => Some(WinErrorWindows::ERROR_PRODUCT_VERSION),
            1639 => Some(WinErrorWindows::ERROR_INVALID_COMMAND_LINE),
            1640 => Some(WinErrorWindows::ERROR_INSTALL_REMOTE_DISALLOWED),
            1641 => Some(WinErrorWindows::ERROR_SUCCESS_REBOOT_INITIATED),
            1642 => Some(WinErrorWindows::ERROR_PATCH_TARGET_NOT_FOUND),
            1643 => Some(WinErrorWindows::ERROR_PATCH_PACKAGE_REJECTED),
            1644 => Some(WinErrorWindows::ERROR_INSTALL_TRANSFORM_REJECTED),
            1645 => Some(WinErrorWindows::ERROR_INSTALL_REMOTE_PROHIBITED),
            1646 => Some(WinErrorWindows::ERROR_PATCH_REMOVAL_UNSUPPORTED),
            1647 => Some(WinErrorWindows::ERROR_UNKNOWN_PATCH),
            1648 => Some(WinErrorWindows::ERROR_PATCH_NO_SEQUENCE),
            1649 => Some(WinErrorWindows::ERROR_PATCH_REMOVAL_DISALLOWED),
            1650 => Some(WinErrorWindows::ERROR_INVALID_PATCH_XML),
            1651 => Some(WinErrorWindows::ERROR_PATCH_MANAGED_ADVERTISED_PRODUCT),
            1652 => Some(WinErrorWindows::ERROR_INSTALL_SERVICE_SAFEBOOT),
            1653 => Some(WinErrorWindows::ERROR_FAIL_FAST_EXCEPTION),
            1654 => Some(WinErrorWindows::ERROR_INSTALL_REJECTED),
            1655 => Some(WinErrorWindows::ERROR_DYNAMIC_CODE_BLOCKED),
            1656 => Some(WinErrorWindows::ERROR_NOT_SAME_OBJECT),
            1657 => Some(WinErrorWindows::ERROR_STRICT_CFG_VIOLATION),
            1660 => Some(WinErrorWindows::ERROR_SET_CONTEXT_DENIED),
            1661 => Some(WinErrorWindows::ERROR_CROSS_PARTITION_VIOLATION),
            _ => None,
        }
    }

    /// One slice of the symbol table: the raw value of this symbol,
    /// where this slice holds it.
    pub open spec fn spec_to_u32_part22(self) -> Option<u32> {
        match self {
            WinErrorWindows::ERROR_RETURN_ADDRESS_HIJACK_ATTEMPT => Some(1662),
            WinErrorWindows::RPC_S_INVALID_STRING_BINDING => Some(1700),
            WinErrorWindows::RPC_S_WRONG_KIND_OF_BINDING => Some(1701),
            WinErrorWindows::RPC_S_INVALID_BINDING => Some(1702),
            WinErrorWindows::RPC_S_PROTSEQ_NOT_SUPPORTED => Some(1703),
            WinErrorWindows::RPC_S_INVALID_RPC_PROTSEQ => Some(1704),
            WinErrorWindows::RPC_S_INVALID_STRING_UUID => Some(1705),
            WinErrorWindows::RPC_S_INVALID_ENDPOINT_FORMAT => Some(1706),
            WinErrorWindows::RPC_S_INVALID_NET_ADDR => Some(1707),
            WinErrorWindows::RPC_S_NO_ENDPOINT_FOUND => Some(1708),
            WinErrorWindows::RPC_S_INVALID_TIMEOUT => Some(1709),
            WinErrorWindows::RPC_S_OBJECT_NOT_FOUND => Some(1710),
            WinErrorWindows::RPC_S_ALREADY_REGISTERED => Some(1711),
            WinErrorWindows::RPC_S_TYPE_ALREADY_REGISTERED => Some(1712),
            WinErrorWindows::RPC_S_ALREADY_LISTENING => Some(1713),
            WinErrorWindows::RPC_S_NO_PROTSEQS_REGISTERED => Some(1714),
            WinErrorWindows::RPC_S_NOT_LISTENING => Some(1715),
            WinErrorWindows::RPC_S_UNKNOWN_MGR_TYPE => Some(1716),
            WinErrorWindows::RPC_S_UNKNOWN_IF => Some(1717),
            WinErrorWindows::RPC_S_NO_BINDINGS => Some(1718),
            WinErrorWindows::RPC_S_NO_PROTSEQS => Some(1719),
            WinErrorWindows::RPC_S_CANT_CREATE_ENDPOINT => Some(1720),
            WinErrorWindows::RPC_S_OUT_OF_RESOURCES => Some(1721),
            WinErrorWindows::RPC_S_SERVER_UNAVAILABLE => Some(1722),
            WinErrorWindows::RPC_S_SERVER_TOO_BUSY => Some(1723),
            WinErrorWindows::RPC_S_INVALID_NETWORK_OPTIONS => Some(1724),
            WinErrorWindows::RPC_S_NO_CALL_ACTIVE => Some(1725),
            WinErrorWindows::RPC_S_CALL_FAILED => Some(1726),
            WinErrorWindows::RPC_S_CALL_FAILED_DNE => Some(1727),
            WinErrorWindows::RPC_S_PROTOCOL_ERROR => Some(1728),
            WinErrorWindows::RPC_S_PROXY_ACCESS_DENIED => Some(1729),
            WinErrorWindows::RPC_S_UNSUPPORTED_TRANS_SYN => Some(1730),
            WinErrorWindows::RPC_S_UNSUPPORTED_TYPE => Some(1732),
            WinErrorWindows::RPC_S_INVALID_TAG => Some(1733),
            WinErrorWindows::RPC_S_INVALID_BOUND => Some(1734),
            WinErrorWindows::RPC_S_NO_ENTRY_NAME => Some(1735),
            WinErrorWindows::RPC_S_INVALID_NAME_SYNTAX => Some(1736),
            WinErrorWindows::RPC_S_UNSUPPORTED_NAME_SYNTAX => Some(1737),
            WinErrorWindows::RPC_S_UUID_NO_ADDRESS => Some(1739),
            WinErrorWindows::RPC_S_DUPLICATE_ENDPOINT => Some(1740),
            WinErrorWindows::RPC_S_UNKNOWN_AUTHN_TYPE => Some(1741),
            WinErrorWindows::RPC_S_MAX_CALLS_TOO_SMALL => Some(1742),
            WinErrorWindows::RPC_S_STRING_TOO_LONG => Some(1743),
            WinErrorWindows::RPC_S_PROTSEQ_NOT_FOUND => Some(1744),
            WinErrorWindows::RPC_S_PROCNUM_OUT_OF_RANGE => Some(1745),
            WinErrorWindows::RPC_S_BINDING_HAS_NO_AUTH => Some(1746),
            WinErrorWindows::RPC_S_UNKNOWN_AUTHN_SERVICE => Some(1747),
            WinErrorWindows::RPC_S_UNKNOWN_AUTHN_LEVEL => Some(1748),
            WinErrorWindows::RPC_S_INVALID_AUTH_IDENTITY => Some(1749),
            WinErrorWindows::RPC_S_UNKNOWN_AUTHZ_SERVICE => Some(1750),
            _ => None,
        }
    }

    /// One slice of the symbol table: the symbol this slice gives a
    /// raw value, where it holds one.
    pub open spec fn spec_from_u32_part22(raw: u32) -> Option<WinErrorWindows> {
        match raw {
            1662 => Some(WinErrorWindows::ERROR_RETURN_ADDRESS_HIJACK_ATTEMPT),
            1700 => Some(WinErrorWindows::RPC_S_INVALID_STRING_BINDING),
            1701 => Some(WinErrorWindows::RPC_S_WRONG_KIND_OF_BINDING),
            1702 => Some(WinErrorWindows::RPC_S_INVALID_BINDING),
            1703 => Some(WinErrorWindows::RPC_S_PROTSEQ_NOT_SUPPORTED),
            1704 => Some(WinErrorWindows::RPC_S_INVALID_RPC_PROTSEQ),
            1705 => Some(WinErrorWindows::RPC_S_INVALID_STRING_UUID),
            1706 => Some(WinErrorWindows::RPC_S_INVALID_ENDPOINT_FORMAT),
            1707 => Some(WinErrorWindows::RPC_S_INVALID_NET_ADDR),
            1708 => Some(WinErrorWindows::RPC_S_NO_ENDPOINT_FOUND),
            1709 => Some(WinErrorWindows::RPC_S_INVALID_TIMEOUT),
            1710 => Some(WinErrorWindows::RPC_S_OBJECT_NOT_FOUND),
            1711 => Some(WinErrorWindows::RPC_S_ALREADY_REGISTERED),
            1712 => Some(WinErrorWindows::RPC_S_TYPE_ALREADY_REGISTERED),
            1713 => Some(WinErrorWindows::RPC_S_ALREADY_LISTENING),
            1714 => Some(WinErrorWindows::RPC_S_NO_PROTSEQS_REGISTERED),
            1715 => Some(WinErrorWindows::RPC_S_NOT_LISTENING),
            1716 => Some(WinErrorWindows::RPC_S_UNKNOWN_MGR_TYPE),
            1717 => Some(WinErrorWindows::RPC_S_UNKNOWN_IF),
            1718 => Some(WinErrorWindows::RPC_S_NO_BINDINGS),
            1719 => Some(WinErrorWindows::RPC_S_NO_PROTSEQS),
            1720 => Some(WinErrorWindows::RPC_S_CANT_CREATE_ENDPOINT),
            1721 => Some(WinErrorWindows::RPC_S_OUT_OF_RESOURCES),
            1722 => Some(WinErrorWindows::RPC_S_SERVER_UNAVAILABLE),
            1723 => Some(WinErrorWindows::RPC_S_SERVER_TOO_BUSY),
            1724 => Some(WinErrorWindows::RPC_S_INVALID_NETWORK_OPTIONS),
            1725 => Some(WinErrorWindows::RPC_S_NO_CALL_ACTIVE),
            1726 => Some(WinErrorWindows::RPC_S_CALL_FAILED),
            1727 => Some(WinErrorWindows::RPC_S_CALL_FAILED_DNE),
            1728 => Some(WinErrorWindows::RPC_S_PROTOCOL_ERROR),
            1729 => Some(WinErrorWindows::RPC_S_PROXY_ACCESS_DENIED),
            1730 => Some(WinErrorWindows::RPC_S_UNSUPPORTED_TRANS_SYN),
            1732 => Some(WinErrorWindows::RPC_S_UNSUPPORTED_TYPE),
            1733 => Some(WinErrorWindows::RPC_S_INVALID_TAG),
            1734 => Some(WinErrorWindows::RPC_S_INVALID_BOUND),
            1735 => Some(WinErrorWindows::RPC_S_NO_ENTRY_NAME),
            1736 => Some(WinErrorWindows::RPC_S_INVALID_NAME_SYNTAX),
            1737 => Some(WinErrorWindows::RPC_S_UNSUPPORTED_NAME_SYNTAX),
            1739 => Some(WinErrorWindows::RPC_S_UUID_NO_ADDRESS),
            1740 => Some(WinErrorWindows::RPC_S_DUPLICATE_ENDPOINT),
            1741 => Some(WinErrorWindows::RPC_S_UNKNOWN_AUTHN_TYPE),
            1742 => Some(WinErrorWindows::RPC_S_MAX_CALLS_TOO_SMALL),
            1743 => Some(WinErrorWindows::RPC_S_STRING_TOO_LONG),
            1744 => Some(WinErrorWindows::RPC_S_PROTSEQ_NOT_FOUND),
            1745 => Some(WinErrorWindows::RPC_S_PROCNUM_OUT_OF_RANGE),
            1746 => Some(WinErrorWindows::RPC_S_BINDING_HAS_NO_AUTH),
            1747 => Some(WinErrorWindows::RPC_S_UNKNOWN_AUTHN_SERVICE),
            1748 => Some(WinErrorWindows::RPC_S_UNKNOWN_AUTHN_LEVEL),
            1749 => Some(WinErrorWindows::RPC_S_INVALID_AUTH_IDENTITY),
            1750 => Some(WinErrorWindows::RPC_S_UNKNOWN_AUTHZ_SERVICE),
            _ => None,
        }
    }

    /// One slice of the symbol table.
    #[verifier::spinoff_prover]
    #[verifier::rlimit(100)]
    fn to_u32_part22(self) -> (r: Option<u32>)
        ensures
            r == self.spec_to_u32_part22(),
    {
        match self {
            WinErrorWindows::ERROR_RETURN_ADDRESS_HIJACK_ATTEMPT => Some(1662),
            WinErrorWindows::RPC_S_INVALID_STRING_BINDING => Some(1700),
            WinErrorWindows::RPC_S_WRONG_KIND_OF_BINDING => Some(1701),
            WinErrorWindows::RPC_S_INVALID_BINDING => Some(1702),
            WinErrorWindows::RPC_S_PROTSEQ_NOT_SUPPORTED => Some(1703),
            WinErrorWindows::RPC_S_INVALID_RPC_PROTSEQ => Some(1704),
            WinErrorWindows::RPC_S_INVALID_STRING_UUID => Some(1705),
            WinErrorWindows::RPC_S_INVALID_ENDPOINT_FORMAT => Some(1706),
            WinErrorWindows::RPC_S_INVALID_NET_ADDR => Some(1707),
            WinErrorWindows::RPC_S_NO_ENDPOINT_FOUND => Some(1708),
            WinErrorWindows::RPC_S_INVALID_TIMEOUT => Some(1709),
            WinErrorWindows::RPC_S_OBJECT_NOT_FOUND => Some(1710),
            WinErrorWindows::RPC_S_ALREADY_REGISTERED => Some(1711),
            WinErrorWindows::RPC_S_TYPE_ALREADY_REGISTERED => Some(1712),
            WinErrorWindows::RPC_S_ALREADY_LISTENING => Some(1713),
            WinErrorWindows::RPC_S_NO_PROTSEQS_REGISTERED => Some(1714),
            WinErrorWindows::RPC_S_NOT_LISTENING => Some(1715),
            WinErrorWindows::RPC_S_UNKNOWN_MGR_TYPE => Some(1716),
            WinErrorWindows::RPC_S_UNKNOWN_IF => Some(1717),
            WinErrorWindows::RPC_S_NO_BINDINGS => Some(1718),
            WinErrorWindows::RPC_S_NO_PROTSEQS => Some(1719),
            WinErrorWindows::RPC_S_CANT_CREATE_ENDPOINT => Some(1720),
            WinErrorWindows::RPC_S_OUT_OF_RESOURCES => Some(1721),
            WinErrorWindows::RPC_S_SERVER_UNAVAILABLE => Some(1722),
            WinErrorWindows::RPC_S_SERVER_TOO_BUSY => Some(1723),
            WinErrorWindows::RPC_S_INVALID_NETWORK_OPTIONS => Some(1724),
            WinErrorWindows::RPC_S_NO_CALL_ACTIVE => Some(1725),
            WinErrorWindows::RPC_S_CALL_FAILED => Some(1726),
            WinErrorWindows::RPC_S_CALL_FAILED_DNE => Some(1727),
            WinErrorWindows::RPC_S_PROTOCOL_ERROR => Some(1728),
            WinErrorWindows::RPC_S_PROXY_ACCESS_DENIED => Some(1729),
            WinErrorWindows::RPC_S_UNSUPPORTED_TRANS_SYN => Some(1730),
            WinErrorWindows::RPC_S_UNSUPPORTED_TYPE => Some(1732),
            WinErrorWindows::RPC_S_INVALID_TAG => Some(1733),
            WinErrorWindows::RPC_S_INVALID_BOUND => Some(1734),
            WinErrorWindows::RPC_S_NO_ENTRY_NAME => Some(1735),
            WinErrorWindows::RPC_S_INVALID_NAME_SYNTAX => Some(1736),
            WinErrorWindows::RPC_S_UNSUPPORTED_NAME_SYNTAX => Some(1737),
            WinErrorWindows::RPC_S_UUID_NO_ADDRESS => Some(1739),
            WinErrorWindows::RPC_S_DUPLICATE_ENDPOINT => Some(1740),
            WinErrorWindows::RPC_S_UNKNOWN_AUTHN_TYPE => Some(1741),
            WinErrorWindows::RPC_S_MAX_CALLS_TOO_SMALL => Some(1742),
            WinErrorWindows::RPC_S_STRING_TOO_LONG => Some(1743),
            WinErrorWindows::RPC_S_PROTSEQ_NOT_FOUND => Some(1744),
            WinErrorWindows::RPC_S_PROCNUM_OUT_OF_RANGE => Some(1745),
            WinErrorWindows::RPC_S_BINDING_HAS_NO_AUTH => Some(1746),
            WinErrorWindows::RPC_S_UNKNOWN_AUTHN_SERVICE => Some(1747),
            WinErrorWindows::RPC_S_UNKNOWN_AUTHN_LEVEL => Some(1748),
            WinErrorWindows::RPC_S_INVALID_AUTH_IDENTITY => Some(1749),
            WinErrorWindows::RPC_S_UNKNOWN_AUTHZ_SERVICE => Some(1750),
            _ => None,
        }
    }

    /// One slice of the symbol table.
    #[verifier::spinoff_prover]
    #[verifier::rlimit(100)]
    fn from_u32_part22(raw: u32) -> (r: Option<WinErrorWindows>)
        ensures
            r == WinErrorWindows::spec_from_u32_part22(raw),
    {
        match raw {
            1662 => Some(WinErrorWindows::ERROR_RETURN_ADDRESS_HIJACK_ATTEMPT),
            1700 => Some(WinErrorWindows::RPC_S_INVALID_STRING_BINDING),
            1701 => Some(WinErrorWindows::RPC_S_WRONG_KIND_OF_BINDING),
            1702 => Some(WinErrorWindows::RPC_S_INVALID_BINDING),
            1703 => Some(WinErrorWindows::RPC_S_PROTSEQ_NOT_SUPPORTED),
            1704 => Some(WinErrorWindows::RPC_S_INVALID_RPC_PROTSEQ),
            1705 => Some(WinErrorWindows::RPC_S_INVALID_STRING_UUID),
            1706 => Some(WinErrorWindows::RPC_S_INVALID_ENDPOINT_FORMAT),
            1707 => Some(WinErrorWindows::RPC_S_INVALID_NET_ADDR),
            1708 => Some(WinErrorWindows::RPC_S_NO_ENDPOINT_FOUND),
            1709 => Some(WinErrorWindows::RPC_S_INVALID_TIMEOUT),
            1710 => Some(WinErrorWindows::RPC_S_OBJECT_NOT_FOUND),
            1711 => Some(WinErrorWindows::RPC_S_ALREADY_REGISTERED),
            1712 => Some(WinErrorWindows::RPC_S_TYPE_ALREADY_REGISTERED),
            1713 => Some(WinErrorWindows::RPC_S_ALREADY_LISTENING),
            1714 => Some(WinErrorWindows::RPC_S_NO_PROTSEQS_REGISTERED),
            1715 => Some(WinErrorWindows::RPC_S_NOT_LISTENING),
            1716 => Some(WinErrorWindows::RPC_S_UNKNOWN_MGR_TYPE),
            1717 => Some(WinErrorWindows::RPC_S_UNKNOWN_IF),
            1718 => Some(WinErrorWindows::RPC_S_NO_BINDINGS),
            1719 => Some(WinErrorWindows::RPC_S_NO_PROTSEQS),
            1720 => Some(WinErrorWindows::RPC_S_CANT_CREATE_ENDPOINT),
            1721 => Some(WinErrorWindows::RPC_S_OUT_OF_RESOURCES),
            1722 => Some(WinErrorWindows::RPC_S_SERVER_UNAVAILABLE),
            1723 => Some(WinErrorWindows::RPC_S_SERVER_TOO_BUSY),
            1724 => Some(WinErrorWindows::RPC_S_INVALID_NETWORK_OPTIONS),
            1725 => Some(WinErrorWindows::RPC_S_NO_CALL_ACTIVE),
            1726 => Some(WinErrorWindows::RPC_S_CALL_FAILED),
            1727 => Some(WinErrorWindows::RPC_S_CALL_FAILED_DNE),
            1728 => Some(WinErrorWindows::RPC_S_PROTOCOL_ERROR),
            1729 => Some(WinErrorWindows::RPC_S_PROXY_ACCESS_DENIED),
            1730 => Some(WinErrorWindows::RPC_S_UNSUPPORTED_TRANS_SYN),
            1732 => Some(WinErrorWindows::RPC_S_UNSUPPORTED_TYPE),
            1733 => Some(WinErrorWindows::RPC_S_INVALID_TAG),
            1734 => Some(WinErrorWindows::RPC_S_INVALID_BOUND),
            1735 => Some(WinErrorWindows::RPC_S_NO_ENTRY_NAME),
            1736 => Some(WinErrorWindows::RPC_S_INVALID_NAME_SYNTAX),
            1737 => Some(WinErrorWindows::RPC_S_UNSUPPORTED_NAME_SYNTAX),
            1739 => Some(WinErrorWindows::RPC_S_UUID_NO_ADDRESS),
            1740 => Some(WinErrorWindows::RPC_S_DUPLICATE_ENDPOINT),
            1741 => Some(WinErrorWindows::RPC_S_UNKNOWN_AUTHN_TYPE),
            1742 => Some(WinErrorWindows::RPC_S_MAX_CALLS_TOO_SMALL),
            1743 => Some(WinErrorWindows::RPC_S_STRING_TOO_LONG),
            1744 => Some(WinErrorWindows::RPC_S_PROTSEQ_NOT_FOUND),
            1745 => Some(WinErrorWindows::RPC_S_PROCNUM_OUT_OF_RANGE),
            1746 => Some(WinErrorWindows::RPC_S_BINDING_HAS_NO_AUTH),
            1747 => Some(WinErrorWindows::RPC_S_UNKNOWN_AUTHN_SERVICE),
            1748 => Some(WinErrorWindows::RPC_S_UNKNOWN_AUTHN_LEVEL),
            1749 => Some(WinErrorWindows::RPC_S_INVALID_AUTH_IDENTITY),
            1750 => Some(WinErrorWindows::RPC_S_UNKNOWN_AUTHZ_SERVICE),
            _ => None,
        }
    }

    /// One slice of the symbol table: the raw value of this symbol,
    /// where this slice holds it.
    pub open spec fn spec_to_u32_part23(self) -> Option<u32> {
        match self {
            WinErrorWindows::RPC_S_NOTHING_TO_EXPORT => Some(1754),
            WinErrorWindows::RPC_S_INCOMPLETE_NAME => Some(1755),
            WinErrorWindows::RPC_S_INVALID_VERS_OPTION => Some(1756),
            WinErrorWindows::RPC_S_NO_MORE_MEMBERS => Some(1757),
            WinErrorWindows::RPC_S_NOT_ALL_OBJS_UNEXPORTED => Some(1758),
            WinErrorWindows::RPC_S_INTERFACE_NOT_FOUND => Some(1759),
            WinErrorWindows::RPC_S_ENTRY_ALREADY_EXISTS => Some(1760),
            WinErrorWindows::RPC_S_ENTRY_NOT_FOUND => Some(1761),
            WinErrorWindows::RPC_S_NAME_SERVICE_UNAVAILABLE => Some(1762),
            WinErrorWindows::RPC_S_INVALID_NAF_ID => Some(1763),
            WinErrorWindows::RPC_S_CANNOT_SUPPORT => Some(1764),
            WinErrorWindows::RPC_S_NO_CONTEXT_AVAILABLE => Some(1765),
            WinErrorWindows::RPC_S_INTERNAL_ERROR => Some(1766),
            WinErrorWindows::RPC_S_ZERO_DIVIDE => Some(1767),
            WinErrorWindows::RPC_S_ADDRESS_ERROR => Some(1768),
            WinErrorWindows::RPC_S_FP_DIV_ZERO => Some(1769),
            WinErrorWindows::RPC_S_FP_UNDERFLOW => Some(1770),
            WinErrorWindows::RPC_S_FP_OVERFLOW => Some(1771),
            WinErrorWindows::RPC_X_NO_MORE_ENTRIES => Some(1772),
            WinErrorWindows::RPC_X_SS_CHAR_TRANS_OPEN_FAIL => Some(1773),
            WinErrorWindows::RPC_X_SS_CHAR_TRANS_SHORT_FILE => Some(1774),
            WinErrorWindows::RPC_X_SS_IN_NULL_CONTEXT => Some(1775),
            WinErrorWindows::RPC_X_SS_CONTEXT_DAMAGED => Some(1777),
            WinErrorWindows::RPC_X_SS_HANDLES_MISMATCH => Some(1778),
            WinErrorWindows::RPC_X_SS_CANNOT_GET_CALL_HANDLE => Some(1779),
            WinErrorWindows::RPC_X_NULL_REF_POINTER => Some(1780),
            WinErrorWindows::RPC_X_ENUM_VALUE_OUT_OF_RANGE => Some(1781),
            WinErrorWindows::RPC_X_BYTE_COUNT_TOO_SMALL => Some(1782),
            WinErrorWindows::RPC_X_BAD_STUB_DATA => Some(1783),
            WinErrorWindows::ERROR_INVALID_USER_BUFFER => Some(1784),
            WinErrorWindows::ERROR_UNRECOGNIZED_MEDIA => Some(1785),
            WinErrorWindows::ERROR_NO_TRUST_LSA_SECRET => Some(1786),
            WinErrorWindows::ERROR_NO_TRUST_SAM_ACCOUNT => Some(1787),
            WinErrorWindows::ERROR_TRUSTED_DOMAIN_FAILURE => Some(1788),
            WinErrorWindows::ERROR_TRUSTED_RELATIONSHIP_FAILURE => Some(1789),
            WinErrorWindows::ERROR_TRUST_FAILURE => Some(1790),
            WinErrorWindows::RPC_S_CALL_IN_PROGRESS => Some(1791),
            WinErrorWindows::ERROR_NETLOGON_NOT_STARTED => Some(1792),
            WinErrorWindows::ERROR_ACCOUNT_EXPIRED => Some(1793),
            WinErrorWindows::ERROR_REDIRECTOR_HAS_OPEN_HANDLES => Some(1794),
            WinErrorWindows::ERROR_PRINTER_DRIVER_ALREADY_INSTALLED => Some(1795),
            WinErrorWindows::ERROR_UNKNOWN_PORT => Some(1796),
            WinErrorWindows::ERROR_UNKNOWN_PRINTER_DRIVER => Some(1797),
            WinErrorWindows::ERROR_UNKNOWN_PRINTPROCESSOR => Some(1798),
            WinErrorWindows::ERROR_INVALID_SEPARATOR_FILE => Some(1799),
            WinErrorWindows::ERROR_INVALID_PRIORITY => Some(1800),
            WinErrorWindows::ERROR_INVALID_PRINTER_NAME => Some(1801),
            WinErrorWindows::ERROR_PRINTER_ALREADY_EXISTS => Some(1802),
            WinErrorWindows::ERROR_INVALID_PRINTER_COMMAND => Some(1803),
            WinErrorWindows::ERROR_INVALID_DATATYPE => Some(1804),
            _ => None,
        }
    }

    /// One slice of the symbol table: the symbol this slice gives a
    /// raw value, where it holds one.
    pub open spec fn spec_from_u32_part23(raw: u32) -> Option<WinErrorWindows> {
        match raw {
            1754 => Some(WinErrorWindows::RPC_S_NOTHING_TO_EXPORT),
            1755 => Some(WinErrorWindows::RPC_S_INCOMPLETE_NAME),
            1756 => Some(WinErrorWindows::RPC_S_INVALID_VERS_OPTION),
            1757 => Some(WinErrorWindows::RPC_S_NO_MORE_MEMBERS),
            1758 => Some(WinErrorWindows::RPC_S_NOT_ALL_OBJS_UNEXPORTED),
            1759 => Some(WinErrorWindows::RPC_S_INTERFACE_NOT_FOUND),
            1760 => Some(WinErrorWindows::RPC_S_ENTRY_ALREADY_EXISTS),
            1761 => Some(WinErrorWindows::RPC_S_ENTRY_NOT_FOUND),
            1762 => Some(WinErrorWindows::RPC_S_NAME_SERVICE_UNAVAILABLE),
            1763 => Some(WinErrorWindows::RPC_S_INVALID_NAF_ID),
            1764 => Some(WinErrorWindows::RPC_S_CANNOT_SUPPORT),
            1765 => Some(WinErrorWindows::RPC_S_NO_CONTEXT_AVAILABLE),
            1766 => Some(WinErrorWindows::RPC_S_INTERNAL_ERROR),
            1767 => Some(WinErrorWindows::RPC_S_ZERO_DIVIDE),
            1768 => Some(WinErrorWindows::RPC_S_ADDRESS_ERROR),
            1769 => Some(WinErrorWindows::RPC_S_FP_DIV_ZERO),
            1770 => Some(WinErrorWindows::RPC_S_FP_UNDERFLOW),
            1771 => Some(WinErrorWindows::RPC_S_FP_OVERFLOW),
            1772 => Some(WinErrorWindows::RPC_X_NO_MORE_ENTRIES),
            1773 => Some(WinErrorWindows::RPC_X_SS_CHAR_TRANS_OPEN_FAIL),
            1774 => Some(WinErrorWindows::RPC_X_SS_CHAR_TRANS_SHORT_FILE),
            1775 => Some(WinErrorWindows::RPC_X_SS_IN_NULL_CONTEXT),
            1777 => Some(WinErrorWindows::RPC_X_SS_CONTEXT_DAMAGED),
            1778 => Some(WinErrorWindows::RPC_X_SS_HANDLES_MISMATCH),
            1779 => Some(WinErrorWindows::RPC_X_SS_CANNOT_GET_CALL_HANDLE),
            1780 => Some(WinErrorWindows::RPC_X_NULL_REF_POINTER),
            1781 => Some(WinErrorWindows::RPC_X_ENUM_VALUE_OUT_OF_RANGE),
            1782 => Some(WinErrorWindows::RPC_X_BYTE_COUNT_TOO_SMALL),
            1783 => Some(WinErrorWindows::RPC_X_BAD_STUB_DATA),
            1784 => Some(WinErrorWindows::ERROR_INVALID_USER_BUFFER),
            1785 => Some(WinErrorWindows::ERROR_UNRECOGNIZED_MEDIA),
            1786 => Some(WinErrorWindows::ERROR_NO_TRUST_LSA_SECRET),
            1787 => Some(WinErrorWindows::ERROR_NO_TRUST_SAM_ACCOUNT),
            1788 => Some(WinErrorWindows::ERROR_TRUSTED_DOMAIN_FAILURE),
            1789 => Some(WinErrorWindows::ERROR_TRUSTED_RELATIONSHIP_FAILURE),
            1790 => Some(WinErrorWindows::ERROR_TRUST_FAILURE),
            1791 => Some(WinErrorWindows::RPC_S_CALL_IN_PROGRESS),
            1792 => Some(WinErrorWindows::ERROR_NETLOGON_NOT_STARTED),
            1793 => Some(WinErrorWindows::ERROR_ACCOUNT_EXPIRED),
            1794 => Some(WinErrorWindows::ERROR_REDIRECTOR_HAS_OPEN_HANDLES),
            1795 => Some(WinErrorWindows::ERROR_PRINTER_DRIVER_ALREADY_INSTALLED),
            1796 => Some(WinErrorWindows::ERROR_UNKNOWN_PORT),
            1797 => Some(WinErrorWindows::ERROR_UNKNOWN_PRINTER_DRIVER),
            1798 => Some(WinErrorWindows::ERROR_UNKNOWN_PRINTPROCESSOR),
            1799 => Some(WinErrorWindows::ERROR_INVALID_SEPARATOR_FILE),
            1800 => Some(WinErrorWindows::ERROR_INVALID_PRIORITY),
            1801 => Some(WinErrorWindows::ERROR_INVALID_PRINTER_NAME),
            1802 => Some(WinErrorWindows::ERROR_PRINTER_ALREADY_EXISTS),
            1803 => Some(WinErrorWindows::ERROR_INVALID_PRINTER_COMMAND),
            1804 => Some(WinErrorWindows::ERROR_INVALID_DATATYPE),
            _ => None,
        }
    }

    /// One slice of the symbol table.
    #[verifier::spinoff_prover]
    #[verifier::rlimit(100)]
    fn to_u32_part23(self) -> (r: Option<u32>)
        ensures
            r == self.spec_to_u32_part23(),
    {
        match self {
            WinErrorWindows::RPC_S_NOTHING_TO_EXPORT => Some(1754),
            WinErrorWindows::RPC_S_INCOMPLETE_NAME => Some(1755),
            WinErrorWindows::RPC_S_INVALID_VERS_OPTION => Some(1756),
            WinErrorWindows::RPC_S_NO_MORE_MEMBERS => Some(1757),
            WinErrorWindows::RPC_S_NOT_ALL_OBJS_UNEXPORTED => Some(1758),
            WinErrorWindows::RPC_S_INTERFACE_NOT_FOUND => Some(1759),
            WinErrorWindows::RPC_S_ENTRY_ALREADY_EXISTS => Some(1760),
            WinErrorWindows::RPC_S_ENTRY_NOT_FOUND => Some(1761),
            WinErrorWindows::RPC_S_NAME_SERVICE_UNAVAILABLE => Some(1762),
            WinErrorWindows::RPC_S_INVALID_NAF_ID => Some(1763),
            WinErrorWindows::RPC_S_CANNOT_SUPPORT => Some(1764),
            WinErrorWindows::RPC_S_NO_CONTEXT_AVAILABLE => Some(1765),
            WinErrorWindows::RPC_S_INTERNAL_ERROR => Some(1766),
            WinErrorWindows::RPC_S_ZERO_DIVIDE => Some(1767),
            WinErrorWindows::RPC_S_ADDRESS_ERROR => Some(1768),
            WinErrorWindows::RPC_S_FP_DIV_ZERO => Some(1769),
            WinErrorWindows::RPC_S_FP_UNDERFLOW => Some(1770),
            WinErrorWindows::RPC_S_FP_OVERFLOW => Some(1771),
            WinErrorWindows::RPC_X_NO_MORE_ENTRIES => Some(1772),
            WinErrorWindows::RPC_X_SS_CHAR_TRANS_OPEN_FAIL => Some(1773),
            WinErrorWindows::RPC_X_SS_CHAR_TRANS_SHORT_FILE => Some(1774),
            WinErrorWindows::RPC_X_SS_IN_NULL_CONTEXT => Some(1775),
            WinErrorWindows::RPC_X_SS_CONTEXT_DAMAGED => Some(1777),
            WinErrorWindows::RPC_X_SS_HANDLES_MISMATCH => Some(1778),
            WinErrorWindows::RPC_X_SS_CANNOT_GET_CALL_HANDLE => Some(1779),
            WinErrorWindows::RPC_X_NULL_REF_POINTER => Some(1780),
            WinErrorWindows::RPC_X_ENUM_VALUE_OUT_OF_RANGE => Some(1781),
            WinErrorWindows::RPC_X_BYTE_COUNT_TOO_SMALL => Some(1782),
            WinErrorWindows::RPC_X_BAD_STUB_DATA => Some(1783),
            WinErrorWindows::ERROR_INVALID_USER_BUFFER => Some(1784),
            WinErrorWindows::ERROR_UNRECOGNIZED_MEDIA => Some(1785),
            WinErrorWindows::ERROR_NO_TRUST_LSA_SECRET => Some(1786),
            WinErrorWindows::ERROR_NO_TRUST_SAM_ACCOUNT => Some(1787),
            WinErrorWindows::ERROR_TRUSTED_DOMAIN_FAILURE => Some(1788),
            WinErrorWindows::ERROR_TRUSTED_RELATIONSHIP_FAILURE => Some(1789),
            WinErrorWindows::ERROR_TRUST_FAILURE => Some(1790),
            WinErrorWindows::RPC_S_CALL_IN_PROGRESS => Some(1791),
            WinErrorWindows::ERROR_NETLOGON_NOT_STARTED => Some(1792),
            WinErrorWindows::ERROR_ACCOUNT_EXPIRED => Some(1793),
            WinErrorWindows::ERROR_REDIRECTOR_HAS_OPEN_HANDLES => Some(1794),
            WinErrorWindows::ERROR_PRINTER_DRIVER_ALREADY_INSTALLED => Some(1795),
            WinErrorWindows::ERROR_UNKNOWN_PORT => Some(1796),
            WinErrorWindows::ERROR_UNKNOWN_PRINTER_DRIVER => Some(1797),
            WinErrorWindows::ERROR_UNKNOWN_PRINTPROCESSOR => Some(1798),
            WinErrorWindows::ERROR_INVALID_SEPARATOR_FILE => Some(1799),
            WinErrorWindows::ERROR_INVALID_PRIORITY => Some(1800),
            WinErrorWindows::ERROR_INVALID_PRINTER_NAME => Some(1801),
            WinErrorWindows::ERROR_PRINTER_ALREADY_EXISTS => Some(1802),
            WinErrorWindows::ERROR_INVALID_PRINTER_COMMAND => Some(1803),
            WinErrorWindows::ERROR_INVALID_DATATYPE => Some(1804),
            _ => None,
        }
    }

    /// One slice of the symbol table.
    #[verifier::spinoff_prover]
    #[verifier::rlimit(100)]
    fn from_u32_part23(raw: u32) -> (r: Option<WinErrorWindows>)
        ensures
            r == WinErrorWindows::spec_from_u32_part23(raw),
    {
        match raw {
            1754 => Some(WinErrorWindows::RPC_S_NOTHING_TO_EXPORT),
            1755 => Some(WinErrorWindows::RPC_S_INCOMPLETE_NAME),
            1756 => Some(WinErrorWindows::RPC_S_INVALID_VERS_OPTION),
            1757 => Some(WinErrorWindows::RPC_S_NO_MORE_MEMBERS),
            1758 => Some(WinErrorWindows::RPC_S_NOT_ALL_OBJS_UNEXPORTED),
            1759 => Some(WinErrorWindows::RPC_S_INTERFACE_NOT_FOUND),
            1760 => Some(WinErrorWindows::RPC_S_ENTRY_ALREADY_EXISTS),
            1761 => Some(WinErrorWindows::RPC_S_ENTRY_NOT_FOUND),
            1762 => Some(WinErrorWindows::RPC_S_NAME_SERVICE_UNAVAILABLE),
            1763 => Some(WinErrorWindows::RPC_S_INVALID_NAF_ID),
            1764 => Some(WinErrorWindows::RPC_S_CANNOT_SUPPORT),
            1765 => Some(WinErrorWindows::RPC_S_NO_CONTEXT_AVAILABLE),
            1766 => Some(WinErrorWindows::RPC_S_INTERNAL_ERROR),
            1767 => Some(WinErrorWindows::RPC_S_ZERO_DIVIDE),
            1768 => Some(WinErrorWindows::RPC_S_ADDRESS_ERROR),
            1769 => Some(WinErrorWindows::RPC_S_FP_DIV_ZERO),
            1770 => Some(WinErrorWindows::RPC_S_FP_UNDERFLOW),
            1771 => Some(WinErrorWindows::RPC_S_FP_OVERFLOW),
            1772 => Some(WinErrorWindows::RPC_X_NO_MORE_ENTRIES),
            1773 => Some(WinErrorWindows::RPC_X_SS_CHAR_TRANS_OPEN_FAIL),
            1774 => Some(WinErrorWindows::RPC_X_SS_CHAR_TRANS_SHORT_FILE),
            1775 => Some(WinErrorWindows::RPC_X_SS_IN_NULL_CONTEXT),
            1777 => Some(WinErrorWindows::RPC_X_SS_CONTEXT_DAMAGED),
            1778 => Some(WinErrorWindows::RPC_X_SS_HANDLES_MISMATCH),
            1779 => Some(WinErrorWindows::RPC_X_SS_CANNOT_GET_CALL_HANDLE),
            1780 => Some(WinErrorWindows::RPC_X_NULL_REF_POINTER),
            1781 => Some(WinErrorWindows::RPC_X_ENUM_VALUE_OUT_OF_RANGE),
            1782 => Some(WinErrorWindows::RPC_X_BYTE_COUNT_TOO_SMALL),
            1783 => Some(WinErrorWindows::RPC_X_BAD_STUB_DATA),
            1784 => Some(WinErrorWindows::ERROR_INVALID_USER_BUFFER),
            1785 => Some(WinErrorWindows::ERROR_UNRECOGNIZED_MEDIA),
            1786 => Some(WinErrorWindows::ERROR_NO_TRUST_LSA_SECRET),
            1787 => Some(WinErrorWindows::ERROR_NO_TRUST_SAM_ACCOUNT),
            1788 => Some(WinErrorWindows::ERROR_TRUSTED_DOMAIN_FAILURE),
            1789 => Some(WinErrorWindows::ERROR_TRUSTED_RELATIONSHIP_FAILURE),
            1790 => Some(WinErrorWindows::ERROR_TRUST_FAILURE),
            1791 => Some(WinErrorWindows::RPC_S_CALL_IN_PROGRESS),
            1792 => Some(WinErrorWindows::ERROR_NETLOGON_NOT_STARTED),
            1793 => Some(WinErrorWindows::ERROR_ACCOUNT_EXPIRED),
            1794 => Some(WinErrorWindows::ERROR_REDIRECTOR_HAS_OPEN_HANDLES),
            1795 => Some(WinErrorWindows::ERROR_PRINTER_DRIVER_ALREADY_INSTALLED),
            1796 => Some(WinErrorWindows::ERROR_UNKNOWN_PORT),
            1797 => Some(WinErrorWindows::ERROR_UNKNOWN_PRINTER_DRIVER),
            1798 => Some(WinErrorWindows::ERROR_UNKNOWN_PRINTPROCESSOR),
            1799 => Some(WinErrorWindows::ERROR_INVALID_SEPARATOR_FILE),
            1800 => Some(WinErrorWindows::ERROR_INVALID_PRIORITY),
            1801 => Some(WinErrorWindows::ERROR_INVALID_PRINTER_NAME),
            1802 => Some(WinErrorWindows::ERROR_PRINTER_ALREADY_EXISTS),
            1803 => Some(WinErrorWindows::ERROR_INVALID_PRINTER_COMMAND),
            1804 => Some(WinErrorWindows::ERROR_INVALID_DATATYPE),
            _ => None,
        }
    }

    /// One slice of the symbol table: the raw value of this symbol,
    /// where this slice holds it.
    pub open spec fn spec_to_u32_part24(self) -> Option<u32> {
        match self {
            WinErrorWindows::ERROR_INVALID_ENVIRONMENT => Some(1805),
            WinErrorWindows::RPC_S_NO_MORE_BINDINGS => Some(1806),
            WinErrorWindows::ERROR_NOLOGON_INTERDOMAIN_TRUST_ACCOUNT => Some(1807),
            WinErrorWindows::ERROR_NOLOGON_WORKSTATION_TRUST_ACCOUNT => Some(1808),
            WinErrorWindows::ERROR_NOLOGON_SERVER_TRUST_ACCOUNT => Some(1809),
            WinErrorWindows::ERROR_DOMAIN_TRUST_INCONSISTENT => Some(1810),
            WinErrorWindows::ERROR_SERVER_HAS_OPEN_HANDLES => Some(1811),
            WinErrorWindows::ERROR_RESOURCE_DATA_NOT_FOUND => Some(1812),
            WinErrorWindows::ERROR_RESOURCE_TYPE_NOT_FOUND => Some(1813),
            WinErrorWindows::ERROR_RESOURCE_NAME_NOT_FOUND => Some(1814),
            WinErrorWindows::ERROR_RESOURCE_LANG_NOT_FOUND => Some(1815),
            WinErrorWindows::ERROR_NOT_ENOUGH_QUOTA => Some(1816),
            WinErrorWindows::RPC_S_NO_INTERFACES => Some(1817),
            WinErrorWindows::RPC_S_CALL_CANCELLED => Some(1818),
            WinErrorWindows::RPC_S_BINDING_INCOMPLETE => Some(1819),
            WinErrorWindows::RPC_S_COMM_FAILURE => Some(1820),
            WinErrorWindows::RPC_S_UNSUPPORTED_AUTHN_LEVEL => Some(1821),
            WinErrorWindows::RPC_S_NO_PRINC_NAME => Some(1822),
            WinErrorWindows::RPC_S_NOT_RPC_ERROR => Some(1823),
            WinErrorWindows::RPC_S_UUID_LOCAL_ONLY => Some(1824),
            WinErrorWindows::RPC_S_SEC_PKG_ERROR => Some(1825),
            WinErrorWindows::RPC_S_NOT_CANCELLED => Some(1826),
            WinErrorWindows::RPC_X_INVALID_ES_ACTION => Some(1827),
            WinErrorWindows::RPC_X_WRONG_ES_VERSION => Some(1828),
            WinErrorWindows::RPC_X_WRONG_STUB_VERSION => Some(1829),
            WinErrorWindows::RPC_X_INVALID_PIPE_OBJECT => Some(1830),
            WinErrorWindows::RPC_X_WRONG_PIPE_ORDER => Some(1831),
            WinErrorWindows::RPC_X_WRONG_PIPE_VERSION => Some(1832),
            WinErrorWindows::RPC_S_COOKIE_AUTH_FAILED => Some(1833),
            WinErrorWindows::RPC_S_DO_NOT_DISTURB => Some(1834),
            WinErrorWindows::RPC_S_SYSTEM_HANDLE_COUNT_EXCEEDED => Some(1835),
            WinErrorWindows::RPC_S_SYSTEM_HANDLE_TYPE_MISMATCH => Some(1836),
            WinErrorWindows::RPC_S_GROUP_MEMBER_NOT_FOUND => Some(1898),
            WinErrorWindows::RPC_S_INVALID_OBJECT => Some(1900),
            WinErrorWindows::ERROR_INVALID_TIME => Some(1901),
            WinErrorWindows::ERROR_INVALID_FORM_NAME => Some(1902),
            WinErrorWindows::ERROR_INVALID_FORM_SIZE => Some(1903),
            WinErrorWindows::ERROR_ALREADY_WAITING => Some(1904),
            WinErrorWindows::ERROR_PRINTER_DELETED => Some(1905),
            WinErrorWindows::ERROR_INVALID_PRINTER_STATE => Some(1906),
            WinErrorWindows::ERROR_PASSWORD_MUST_CHANGE => Some(1907),
            WinErrorWindows::ERROR_DOMAIN_CONTROLLER_NOT_FOUND => Some(1908),
            WinErrorWindows::ERROR_ACCOUNT_LOCKED_OUT => Some(1909),
            WinErrorWindows::RPC_S_SEND_INCOMPLETE => Some(1913),
            WinErrorWindows::RPC_S_INVALID_ASYNC_HANDLE => Some(1914),
            WinErrorWindows::RPC_S_INVALID_ASYNC_CALL => Some(1915),
            WinErrorWindows::RPC_X_PIPE_CLOSED => Some(1916),
            WinErrorWindows::RPC_X_PIPE_DISCIPLINE_ERROR => Some(1917),
            WinErrorWindows::RPC_X_PIPE_EMPTY => Some(1918),
            WinErrorWindows::ERROR_NO_SITENAME => Some(1919),
            _ => None,
        }
    }

    /// One slice of the symbol table: the symbol this slice gives a
    /// raw value, where it holds one.
    pub open spec fn spec_from_u32_part24(raw: u32) -> Option<WinErrorWindows> {
        match raw {
            1805 => Some(WinErrorWindows::ERROR_INVALID_ENVIRONMENT),
            1806 => Some(WinErrorWindows::RPC_S_NO_MORE_BINDINGS),
            1807 => Some(WinErrorWindows::ERROR_NOLOGON_INTERDOMAIN_TRUST_ACCOUNT),
            1808 => Some(WinErrorWindows::ERROR_NOLOGON_WORKSTATION_TRUST_ACCOUNT),
            1809 => Some(WinErrorWindows::ERROR_NOLOGON_SERVER_TRUST_ACCOUNT),
            1810 => Some(WinErrorWindows::ERROR_DOMAIN_TRUST_INCONSISTENT),
            1811 => Some(WinErrorWindows::ERROR_SERVER_HAS_OPEN_HANDLES),
            1812 => Some(WinErrorWindows::ERROR_RESOURCE_DATA_NOT_FOUND),
            1813 => Some(WinErrorWindows::ERROR_RESOURCE_TYPE_NOT_FOUND),
            1814 => Some(WinErrorWindows::ERROR_RESOURCE_NAME_NOT_FOUND),
            1815 => Some(WinErrorWindows::ERROR_RESOURCE_LANG_NOT_FOUND),
            1816 => Some(WinErrorWindows::ERROR_NOT_ENOUGH_QUOTA),
            1817 => Some(WinErrorWindows::RPC_S_NO_INTERFACES),
            1818 => Some(WinErrorWindows::RPC_S_CALL_CANCELLED),
            1819 => Some(WinErrorWindows::RPC_S_BINDING_INCOMPLETE),
            1820 => Some(WinErrorWindows::RPC_S_COMM_FAILURE),
            1821 => Some(WinErrorWindows::RPC_S_UNSUPPORTED_AUTHN_LEVEL),
            1822 => Some(WinErrorWindows::RPC_S_NO_PRINC_NAME),
            1823 => Some(WinErrorWindows::RPC_S_NOT_RPC_ERROR),
            1824 => Some(WinErrorWindows::RPC_S_UUID_LOCAL_ONLY),
            1825 => Some(WinErrorWindows::RPC_S_SEC_PKG_ERROR),
            1826 => Some(WinErrorWindows::RPC_S_NOT_CANCELLED),
            1827 => Some(WinErrorWindows::RPC_X_INVALID_ES_ACTION),
            1828 => Some(WinErrorWindows::RPC_X_WRONG_ES_VERSION),
            1829 => Some(WinErrorWindows::RPC_X_WRONG_STUB_VERSION),
            1830 => Some(WinErrorWindows::RPC_X_INVALID_PIPE_OBJECT),
            1831 => Some(WinErrorWindows::RPC_X_WRONG_PIPE_ORDER),
            1832 => Some(WinErrorWindows::RPC_X_WRONG_PIPE_VERSION),
            1833 => Some(WinErrorWindows::RPC_S_COOKIE_AUTH_FAILED),
            1834 => Some(WinErrorWindows::RPC_S_DO_NOT_DISTURB),
            1835 => Some(WinErrorWindows::RPC_S_SYSTEM_HANDLE_COUNT_EXCEEDED),
            1836 => Some(WinErrorWindows::RPC_S_SYSTEM_HANDLE_TYPE_MISMATCH),
            1898 => Some(WinErrorWindows::RPC_S_GROUP_MEMBER_NOT_FOUND),
            1900 => Some(WinErrorWindows::RPC_S_INVALID_OBJECT),
            1901 => Some(WinErrorWindows::ERROR_INVALID_TIME),
            1902 => Some(WinErrorWindows::ERROR_INVALID_FORM_NAME),
            1903 => Some(WinErrorWindows::ERROR_INVALID_FORM_SIZE),
            1904 => Some(WinErrorWindows::ERROR_ALREADY_WAITING),
            1905 => Some(WinErrorWindows::ERROR_PRINTER_DELETED),
            1906 => Some(WinErrorWindows::ERROR_INVALID_PRINTER_STATE),
            1907 => Some(WinErrorWindows::ERROR_PASSWORD_MUST_CHANGE),
            1908 => Some(WinErrorWindows::ERROR_DOMAIN_CONTROLLER_NOT_FOUND),
            1909 => Some(WinErrorWindows::ERROR_ACCOUNT_LOCKED_OUT),
            1913 => Some(WinErrorWindows::RPC_S_SEND_INCOMPLETE),
            1914 => Some(WinErrorWindows::RPC_S_INVALID_ASYNC_HANDLE),
            1915 => Some(WinErrorWindows::RPC_S_INVALID_ASYNC_CALL),
            1916 => Some(WinErrorWindows::RPC_X_PIPE_CLOSED),
            1917 => Some(WinErrorWindows::RPC_X_PIPE_DISCIPLINE_ERROR),
            1918 => Some(WinErrorWindows::RPC_X_PIPE_EMPTY),
            1919 => Some(WinErrorWindows::ERROR_NO_SITENAME),
            _ => None,
        }
    }

    /// One slice of the symbol table.
    #[verifier::spinoff_prover]
    #[verifier::rlimit(100)]
    fn to_u32_part24(self) -> (r: Option<u32>)
        ensures
            r == self.spec_to_u32_part24(),
    {
        match self {
            WinErrorWindows::ERROR_INVALID_ENVIRONMENT => Some(1805),
            WinErrorWindows::RPC_S_NO_MORE_BINDINGS => Some(1806),
            WinErrorWindows::ERROR_NOLOGON_INTERDOMAIN_TRUST_ACCOUNT => Some(1807),
            WinErrorWindows::ERROR_NOLOGON_WORKSTATION_TRUST_ACCOUNT => Some(1808),
            WinErrorWindows::ERROR_NOLOGON_SERVER_TRUST_ACCOUNT => Some(1809),
            WinErrorWindows::ERROR_DOMAIN_TRUST_INCONSISTENT => Some(1810),
            WinErrorWindows::ERROR_SERVER_HAS_OPEN_HANDLES => Some(1811),
            WinErrorWindows::ERROR_RESOURCE_DATA_NOT_FOUND => Some(1812),
            WinErrorWindows::ERROR_RESOURCE_TYPE_NOT_FOUND => Some(1813),
            WinErrorWindows::ERROR_RESOURCE_NAME_NOT_FOUND => Some(1814),
            WinErrorWindows::ERROR_RESOURCE_LANG_NOT_FOUND => Some(1815),
            WinErrorWindows::ERROR_NOT_ENOUGH_QUOTA => Some(1816),
            WinErrorWindows::RPC_S_NO_INTERFACES => Some(1817),
            WinErrorWindows::RPC_S_CALL_CANCELLED => Some(1818),
            WinErrorWindows::RPC_S_BINDING_INCOMPLETE => Some(1819),
            WinErrorWindows::RPC_S_COMM_FAILURE => Some(1820),
            WinErrorWindows::RPC_S_UNSUPPORTED_AUTHN_LEVEL => Some(1821),
            WinErrorWindows::RPC_S_NO_PRINC_NAME => Some(1822),
            WinErrorWindows::RPC_S_NOT_RPC_ERROR => Some(1823),
            WinErrorWindows::RPC_S_UUID_LOCAL_ONLY => Some(1824),
            WinErrorWindows::RPC_S_SEC_PKG_ERROR => Some(1825),
            WinErrorWindows::RPC_S_NOT_CANCELLED => Some(1826),
            WinErrorWindows::RPC_X_INVALID_ES_ACTION => Some(1827),
            WinErrorWindows::RPC_X_WRONG_ES_VERSION => Some(1828),
            WinErrorWindows::RPC_X_WRONG_STUB_VERSION => Some(1829),
            WinErrorWindows::RPC_X_INVALID_PIPE_OBJECT => Some(1830),
            WinErrorWindows::RPC_X_WRONG_PIPE_ORDER => Some(1831),
            WinErrorWindows::RPC_X_WRONG_PIPE_VERSION => Some(1832),
            WinErrorWindows::RPC_S_COOKIE_AUTH_FAILED => Some(1833),
            WinErrorWindows::RPC_S_DO_NOT_DISTURB => Some(1834),
            WinErrorWindows::RPC_S_SYSTEM_HANDLE_COUNT_EXCEEDED => Some(1835),
            WinErrorWindows::RPC_S_SYSTEM_HANDLE_TYPE_MISMATCH => Some(1836),
            WinErrorWindows::RPC_S_GROUP_MEMBER_NOT_FOUND => Some(1898),
            WinErrorWindows::RPC_S_INVALID_OBJECT => Some(1900),
            WinErrorWindows::ERROR_INVALID_TIME => Some(1901),
            WinErrorWindows::ERROR_INVALID_FORM_NAME => Some(1902),
            WinErrorWindows::ERROR_INVALID_FORM_SIZE => Some(1903),
            WinErrorWindows::ERROR_ALREADY_WAITING => Some(1904),
            WinErrorWindows::ERROR_PRINTER_DELETED => Some(1905),
            WinErrorWindows::ERROR_INVALID_PRINTER_STATE => Some(1906),
            WinErrorWindows::ERROR_PASSWORD_MUST_CHANGE => Some(1907),
            WinErrorWindows::ERROR_DOMAIN_CONTROLLER_NOT_FOUND => Some(1908),
            WinErrorWindows::ERROR_ACCOUNT_LOCKED_OUT => Some(1909),
            WinErrorWindows::RPC_S_SEND_INCOMPLETE => Some(1913),
            WinErrorWindows::RPC_S_INVALID_ASYNC_HANDLE => Some(1914),
            WinErrorWindows::RPC_S_INVALID_ASYNC_CALL => Some(1915),
            WinErrorWindows::RPC_X_PIPE_CLOSED => Some(1916),
            WinErrorWindows::RPC_X_PIPE_DISCIPLINE_ERROR => Some(1917),
            WinErrorWindows::RPC_X_PIPE_EMPTY => Some(1918),
            WinErrorWindows::ERROR_NO_SITENAME => Some(1919),
            _ => None,
        }
    }

    /// One slice of the symbol table.
    #[verifier::spinoff_prover]
    #[verifier::rlimit(100)]
    fn from_u32_part24(raw: u32) -> (r: Option<WinErrorWindows>)
        ensures
            r == WinErrorWindows::spec_from_u32_part24(raw),
    {
        match raw {
            1805 => Some(WinErrorWindows::ERROR_INVALID_ENVIRONMENT),
            1806 => Some(WinErrorWindows::RPC_S_NO_MORE_BINDINGS),
            1807 => Some(WinErrorWindows::ERROR_NOLOGON_INTERDOMAIN_TRUST_ACCOUNT),
            1808 => Some(WinErrorWindows::ERROR_NOLOGON_WORKSTATION_TRUST_ACCOUNT),
            1809 => Some(WinErrorWindows::ERROR_NOLOGON_SERVER_TRUST_ACCOUNT),
            1810 => Some(WinErrorWindows::ERROR_DOMAIN_TRUST_INCONSISTENT),
            1811 => Some(WinErrorWindows::ERROR_SERVER_HAS_OPEN_HANDLES),
            1812 => Some(WinErrorWindows::ERROR_RESOURCE_DATA_NOT_FOUND),
            1813 => Some(WinErrorWindows::ERROR_RESOURCE_TYPE_NOT_FOUND),
            1814 => Some(WinErrorWindows::ERROR_RESOURCE_NAME_NOT_FOUND),
            1815 => Some(WinErrorWindows::ERROR_RESOURCE_LANG_NOT_FOUND),
            1816 => Some(WinErrorWindows::ERROR_NOT_ENOUGH_QUOTA),
            1817 => Some(WinErrorWindows::RPC_S_NO_INTERFACES),
            1818 => Some(WinErrorWindows::RPC_S_CALL_CANCELLED),
            1819 => Some(WinErrorWindows::RPC_S_BINDING_INCOMPLETE),
            1820 => Some(WinErrorWindows::RPC_S_COMM_FAILURE),
            1821 => Some(WinErrorWindows::RPC_S_UNSUPPORTED_AUTHN_LEVEL),
            1822 => Some(WinErrorWindows::RPC_S_NO_PRINC_NAME),
            1823 => Some(WinErrorWindows::RPC_S_NOT_RPC_ERROR),
            1824 => Some(WinErrorWindows::RPC_S_UUID_LOCAL_ONLY),
            1825 => Some(WinErrorWindows::RPC_S_SEC_PKG_ERROR),
            1826 => Some(WinErrorWindows::RPC_S_NOT_CANCELLED),
            1827 => Some(WinErrorWindows::RPC_X_INVALID_ES_ACTION),
            1828 => Some(WinErrorWindows::RPC_X_WRONG_ES_VERSION),
            1829 => Some(WinErrorWindows::RPC_X_WRONG_STUB_VERSION),
            1830 => Some(WinErrorWindows::RPC_X_INVALID_PIPE_OBJECT),
            1831 => Some(WinErrorWindows::RPC_X_WRONG_PIPE_ORDER),
            1832 => Some(WinErrorWindows::RPC_X_WRONG_PIPE_VERSION),
            1833 => Some(WinErrorWindows::RPC_S_COOKIE_AUTH_FAILED),
            1834 => Some(WinErrorWindows::RPC_S_DO_NOT_DISTURB),
            1835 => Some(WinErrorWindows::RPC_S_SYSTEM_HANDLE_COUNT_EXCEEDED),
            1836 => Some(WinErrorWindows::RPC_S_SYSTEM_HANDLE_TYPE_MISMATCH),
            1898 => Some(WinErrorWindows::RPC_S_GROUP_MEMBER_NOT_FOUND),
            1900 => Some(WinErrorWindows::RPC_S_INVALID_OBJECT),
            1901 => Some(WinErrorWindows::ERROR_INVALID_TIME),
            1902 => Some(WinErrorWindows::ERROR_INVALID_FORM_NAME),
            1903 => Some(WinErrorWindows::ERROR_INVALID_FORM_SIZE),
            1904 => Some(WinErrorWindows::ERROR_ALREADY_WAITING),
            1905 => Some(WinErrorWindows::ERROR_PRINTER_DELETED),
            1906 => Some(WinErrorWindows::ERROR_INVALID_PRINTER_STATE),
            1907 => Some(WinErrorWindows::ERROR_PASSWORD_MUST_CHANGE),
            1908 => Some(WinErrorWindows::ERROR_DOMAIN_CONTROLLER_NOT_FOUND),
            1909 => Some(WinErrorWindows::ERROR_ACCOUNT_LOCKED_OUT),
            1913 => Some(WinErrorWindows::RPC_S_SEND_INCOMPLETE),
            1914 => Some(WinErrorWindows::RPC_S_INVALID_ASYNC_HANDLE),
            1915 => Some(WinErrorWindows::RPC_S_INVALID_ASYNC_CALL),
            1916 => Some(WinErrorWindows::RPC_X_PIPE_CLOSED),
            1917 => Some(WinErrorWindows::RPC_X_PIPE_DISCIPLINE_ERROR),
            1918 => Some(WinErrorWindows::RPC_X_PIPE_EMPTY),
            1919 => Some(WinErrorWindows::ERROR_NO_SITENAME),
            _ => None,
        }
    }

    /// One slice of the symbol table: the raw value of this symbol,
    /// where this slice holds it.
    pub open spec fn spec_to_u32_part25(self) -> Option<u32> {
        match self {
            WinErrorWindows::ERROR_CANT_ACCESS_FILE => Some(1920),
            WinErrorWindows::ERROR_CANT_RESOLVE_FILENAME => Some(1921),
            WinErrorWindows::RPC_S_ENTRY_TYPE_MISMATCH => Some(1922),
            WinErrorWindows::RPC_S_NOT_ALL_OBJS_EXPORTED => Some(1923),
            WinErrorWindows::RPC_S_INTERFACE_NOT_EXPORTED => Some(1924),
            WinErrorWindows::RPC_S_PROFILE_NOT_ADDED => Some(1925),
            WinErrorWindows::RPC_S_PRF_ELT_NOT_ADDED => Some(1926),
            WinErrorWindows::RPC_S_PRF_ELT_NOT_REMOVED => Some(1927),
            WinErrorWindows::RPC_S_GRP_ELT_NOT_ADDED => Some(1928),
            WinErrorWindows::RPC_S_GRP_ELT_NOT_REMOVED => Some(1929),
            WinErrorWindows::ERROR_KM_DRIVER_BLOCKED => Some(1930),
            WinErrorWindows::ERROR_CONTEXT_EXPIRED => Some(1931),
            WinErrorWindows::ERROR_PER_USER_TRUST_QUOTA_EXCEEDED => Some(1932),
            WinErrorWindows::ERROR_ALL_USER_TRUST_QUOTA_EXCEEDED => Some(1933),
            WinErrorWindows::ERROR_USER_DELETE_TRUST_QUOTA_EXCEEDED => Some(1934),
            WinErrorWindows::ERROR_AUTHENTICATION_FIREWALL_FAILED => Some(1935),
            WinErrorWindows::ERROR_REMOTE_PRINT_CONNECTIONS_BLOCKED => Some(1936),
            WinErrorWindows::ERROR_NTLM_BLOCKED => Some(1937),
            WinErrorWindows::ERROR_PASSWORD_CHANGE_REQUIRED => Some(1938),
            WinErrorWindows::ERROR_LOST_MODE_LOGON_RESTRICTION => Some(1939),
            WinErrorWindows::ERROR_INVALID_PIXEL_FORMAT => Some(2000),
            WinErrorWindows::ERROR_BAD_DRIVER => Some(2001),
            WinErrorWindows::ERROR_INVALID_WINDOW_STYLE => Some(2002),
            WinErrorWindows::ERROR_METAFILE_NOT_SUPPORTED => Some(2003),
            WinErrorWindows::ERROR_TRANSFORM_NOT_SUPPORTED => Some(2004),
            WinErrorWindows::ERROR_CLIPPING_NOT_SUPPORTED => Some(2005),
            WinErrorWindows::ERROR_INVALID_CMM => Some(2010),
            WinErrorWindows::ERROR_INVALID_PROFILE => Some(2011),
            WinErrorWindows::ERROR_TAG_NOT_FOUND => Some(2012),
            WinErrorWindows::ERROR_TAG_NOT_PRESENT => Some(2013),
            WinErrorWindows::ERROR_DUPLICATE_TAG => Some(2014),
            WinErrorWindows::ERROR_PROFILE_NOT_ASSOCIATED_WITH_DEVICE => Some(2015),
            WinErrorWindows::ERROR_PROFILE_NOT_FOUND => Some(2016),
            WinErrorWindows::ERROR_INVALID_COLORSPACE => Some(2017),
            WinErrorWindows::ERROR_ICM_NOT_ENABLED => Some(2018),
            WinErrorWindows::ERROR_DELETING_ICM_XFORM => Some(2019),
            WinErrorWindows::ERROR_INVALID_TRANSFORM => Some(2020),
            WinErrorWindows::ERROR_COLORSPACE_MISMATCH => Some(2021),
            WinErrorWindows::ERROR_INVALID_COLORINDEX => Some(2022),
            WinErrorWindows::ERROR_PROFILE_DOES_NOT_MATCH_DEVICE => Some(2023),
            WinErrorWindows::ERROR_CONNECTED_OTHER_PASSWORD => Some(2108),
            WinErrorWindows::ERROR_CONNECTED_OTHER_PASSWORD_DEFAULT => Some(2109),
            WinErrorWindows::ERROR_BAD_USERNAME => Some(2202),
            WinErrorWindows::ERROR_NOT_CONNECTED => Some(2250),
            WinErrorWindows::ERROR_OPEN_FILES => Some(2401),
            WinErrorWindows::ERROR_ACTIVE_CONNECTIONS => Some(2402),
            WinErrorWindows::ERROR_DEVICE_IN_USE => Some(2404),
            WinErrorWindows::ERROR_UNKNOWN_PRINT_MONITOR => Some(3000),
            WinErrorWindows::ERROR_PRINTER_DRIVER_IN_USE => Some(3001),
            WinErrorWindows::ERROR_SPOOL_FILE_NOT_FOUND => Some(3002),
            _ => None,
        }
    }

    /// One slice of the symbol table: the symbol this slice gives a
    /// raw value, where it holds one.
    pub open spec fn spec_from_u32_part25(raw: u32) -> Option<WinErrorWindows> {
        match raw {
            1920 => Some(WinErrorWindows::ERROR_CANT_ACCESS_FILE),
            1921 => Some(WinErrorWindows::ERROR_CANT_RESOLVE_FILENAME),
            1922 => Some(WinErrorWindows::RPC_S_ENTRY_TYPE_MISMATCH),
            1923 => Some(WinErrorWindows::RPC_S_NOT_ALL_OBJS_EXPORTED),
            1924 => Some(WinErrorWindows::RPC_S_INTERFACE_NOT_EXPORTED),
            1925 => Some(WinErrorWindows::RPC_S_PROFILE_NOT_ADDED),
            1926 => Some(WinErrorWindows::RPC_S_PRF_ELT_NOT_ADDED),
            1927 => Some(WinErrorWindows::RPC_S_PRF_ELT_NOT_REMOVED),
            1928 => Some(WinErrorWindows::RPC_S_GRP_ELT_NOT_ADDED),
            1929 => Some(WinErrorWindows::RPC_S_GRP_ELT_NOT_REMOVED),
            1930 => Some(WinErrorWindows::ERROR_KM_DRIVER_BLOCKED),
            1931 => Some(WinErrorWindows::ERROR_CONTEXT_EXPIRED),
            1932 => Some(WinErrorWindows::ERROR_PER_USER_TRUST_QUOTA_EXCEEDED),
            1933 => Some(WinErrorWindows::ERROR_ALL_USER_TRUST_QUOTA_EXCEEDED),
            1934 => Some(WinErrorWindows::ERROR_USER_DELETE_TRUST_QUOTA_EXCEEDED),
            1935 => Some(WinErrorWindows::ERROR_AUTHENTICATION_FIREWALL_FAILED),
            1936 => Some(WinErrorWindows::ERROR_REMOTE_PRINT_CONNECTIONS_BLOCKED),
            1937 => Some(WinErrorWindows::ERROR_NTLM_BLOCKED),
            1938 => Some(WinErrorWindows::ERROR_PASSWORD_CHANGE_REQUIRED),
            1939 => Some(WinErrorWindows::ERROR_LOST_MODE_LOGON_RESTRICTION),
            2000 => Some(WinErrorWindows::ERROR_INVALID_PIXEL_FORMAT),
            2001 => Some(WinErrorWindows::ERROR_BAD_DRIVER),
            2002 => Some(WinErrorWindows::ERROR_INVALID_WINDOW_STYLE),
            2003 => Some(WinErrorWindows::ERROR_METAFILE_NOT_SUPPORTED),
            2004 => Some(WinErrorWindows::ERROR_TRANSFORM_NOT_SUPPORTED),
            2005 => Some(WinErrorWindows::ERROR_CLIPPING_NOT_SUPPORTED),
            2010 => Some(WinErrorWindows::ERROR_INVALID_CMM),
            2011 => Some(WinErrorWindows::ERROR_INVALID_PROFILE),
            2012 => Some(WinErrorWindows::ERROR_TAG_NOT_FOUND),
            2013 => Some(WinErrorWindows::ERROR_TAG_NOT_PRESENT),
            2014 => Some(WinErrorWindows::ERROR_DUPLICATE_TAG),
            2015 => Some(WinErrorWindows::ERROR_PROFILE_NOT_ASSOCIATED_WITH_DEVICE),
            2016 => Some(WinErrorWindows::ERROR_PROFILE_NOT_FOUND),
            2017 => Some(WinErrorWindows::ERROR_INVALID_COLORSPACE),
            2018 => Some(WinErrorWindows::ERROR_ICM_NOT_ENABLED),
            2019 => Some(WinErrorWindows::ERROR_DELETING_ICM_XFORM),
            2020 => Some(WinErrorWindows::ERROR_INVALID_TRANSFORM),
            2021 => Some(WinErrorWindows::ERROR_COLORSPACE_MISMATCH),
            2022 => Some(WinErrorWindows::ERROR_INVALID_COLORINDEX),
            2023 => Some(WinErrorWindows::ERROR_PROFILE_DOES_NOT_MATCH_DEVICE),
            2108 => Some(WinErrorWindows::ERROR_CONNECTED_OTHER_PASSWORD),
            2109 => Some(WinErrorWindows::ERROR_CONNECTED_OTHER_PASSWORD_DEFAULT),
            2202 => Some(WinErrorWindows::ERROR_BAD_USERNAME),
            2250 => Some(WinErrorWindows::ERROR_NOT_CONNECTED),
            2401 => Some(WinErrorWindows::ERROR_OPEN_FILES),
            2402 => Some(WinErrorWindows::ERROR_ACTIVE_CONNECTIONS),
            2404 => Some(WinErrorWindows::ERROR_DEVICE_IN_USE),
            3000 => Some(WinErrorWindows::ERROR_UNKNOWN_PRINT_MONITOR),
            3001 => Some(WinErrorWindows::ERROR_PRINTER_DRIVER_IN_USE),
            3002 => Some(WinErrorWindows::ERROR_SPOOL_FILE_NOT_FOUND),
            _ => None,
        }
    }

    /// One slice of the symbol table.
    #[verifier::spinoff_prover]
    #[verifier::rlimit(100)]
    fn to_u32_part25(self) -> (r: Option<u32>)
        ensures
            r == self.spec_to_u32_part25(),
    {
        match self {
            WinErrorWindows::ERROR_CANT_ACCESS_FILE => Some(1920),
            WinErrorWindows::ERROR_CANT_RESOLVE_FILENAME => Some(1921),
            WinErrorWindows::RPC_S_ENTRY_TYPE_MISMATCH => Some(1922),
            WinErrorWindows::RPC_S_NOT_ALL_OBJS_EXPORTED => Some(1923),
            WinErrorWindows::RPC_S_INTERFACE_NOT_EXPORTED => Some(1924),
            WinErrorWindows::RPC_S_PROFILE_NOT_ADDED => Some(1925),
            WinErrorWindows::RPC_S_PRF_ELT_NOT_ADDED => Some(1926),
            WinErrorWindows::RPC_S_PRF_ELT_NOT_REMOVED => Some(1927),
            WinErrorWindows::RPC_S_GRP_ELT_NOT_ADDED => Some(1928),
            WinErrorWindows::RPC_S_GRP_ELT_NOT_REMOVED => Some(1929),
            WinErrorWindows::ERROR_KM_DRIVER_BLOCKED => Some(1930),
            WinErrorWindows::ERROR_CONTEXT_EXPIRED => Some(1931),
            WinErrorWindows::ERROR_PER_USER_TRUST_QUOTA_EXCEEDED => Some(1932),
            WinErrorWindows::ERROR_ALL_USER_TRUST_QUOTA_EXCEEDED => Some(1933),
            WinErrorWindows::ERROR_USER_DELETE_TRUST_QUOTA_EXCEEDED => Some(1934),
            WinErrorWindows::ERROR_AUTHENTICATION_FIREWALL_FAILED => Some(1935),
            WinErrorWindows::ERROR_REMOTE_PRINT_CONNECTIONS_BLOCKED => Some(1936),
            WinErrorWindows::ERROR_NTLM_BLOCKED => Some(1937),
            WinErrorWindows::ERROR_PASSWORD_CHANGE_REQUIRED => Some(1938),
            WinErrorWindows::ERROR_LOST_MODE_LOGON_RESTRICTION => Some(1939),
            WinErrorWindows::ERROR_INVALID_PIXEL_FORMAT => Some(2000),
            WinErrorWindows::ERROR_BAD_DRIVER => Some(2001),
            WinErrorWindows::ERROR_INVALID_WINDOW_STYLE => Some(2002),
            WinErrorWindows::ERROR_METAFILE_NOT_SUPPORTED => Some(2003),
            WinErrorWindows::ERROR_TRANSFORM_NOT_SUPPORTED => Some(2004),
            WinErrorWindows::ERROR_CLIPPING_NOT_SUPPORTED => Some(2005),
            WinErrorWindows::ERROR_INVALID_CMM => Some(2010),
            WinErrorWindows::ERROR_INVALID_PROFILE => Some(2011),
            WinErrorWindows::ERROR_TAG_NOT_FOUND => Some(2012),
            WinErrorWindows::ERROR_TAG_NOT_PRESENT => Some(2013),
            WinErrorWindows::ERROR_DUPLICATE_TAG => Some(2014),
            WinErrorWindows::ERROR_PROFILE_NOT_ASSOCIATED_WITH_DEVICE => Some(2015),
            WinErrorWindows::ERROR_PROFILE_NOT_FOUND => Some(2016),
            WinErrorWindows::ERROR_INVALID_COLORSPACE => Some(2017),
            WinErrorWindows::ERROR_ICM_NOT_ENABLED => Some(2018),
            WinErrorWindows::ERROR_DELETING_ICM_XFORM => Some(2019),
            WinErrorWindows::ERROR_INVALID_TRANSFORM => Some(2020),
            WinErrorWindows::ERROR_COLORSPACE_MISMATCH => Some(2021),
            WinErrorWindows::ERROR_INVALID_COLORINDEX => Some(2022),
            WinErrorWindows::ERROR_PROFILE_DOES_NOT_MATCH_DEVICE => Some(2023),
            WinErrorWindows::ERROR_CONNECTED_OTHER_PASSWORD => Some(2108),
            WinErrorWindows::ERROR_CONNECTED_OTHER_PASSWORD_DEFAULT => Some(2109),
            WinErrorWindows::ERROR_BAD_USERNAME => Some(2202),
            WinErrorWindows::ERROR_NOT_CONNECTED => Some(2250),
            WinErrorWindows::ERROR_OPEN_FILES => Some(2401),
            WinErrorWindows::ERROR_ACTIVE_CONNECTIONS => Some(2402),
            WinErrorWindows::ERROR_DEVICE_IN_USE => Some(2404),
            WinErrorWindows::ERROR_UNKNOWN_PRINT_MONITOR => Some(3000),
            WinErrorWindows::ERROR_PRINTER_DRIVER_IN_USE => Some(3001),
            WinErrorWindows::ERROR_SPOOL_FILE_NOT_FOUND => Some(3002),
            _ => None,
        }
    }

    /// One slice of the symbol table.
    #[verifier::spinoff_prover]
    #[verifier::rlimit(100)]
    fn from_u32_part25(raw: u32) -> (r: Option<WinErrorWindows>)
        ensures
            r == WinErrorWindows::spec_from_u32_part25(raw),
    {
        match raw {
            1920 => Some(WinErrorWindows::ERROR_CANT_ACCESS_FILE),
            1921 => Some(WinErrorWindows::ERROR_CANT_RESOLVE_FILENAME),
            1922 => Some(WinErrorWindows::RPC_S_ENTRY_TYPE_MISMATCH),
            1923 => Some(WinErrorWindows::RPC_S_NOT_ALL_OBJS_EXPORTED),
            1924 => Some(WinErrorWindows::RPC_S_INTERFACE_NOT_EXPORTED),
            1925 => Some(WinErrorWindows::RPC_S_PROFILE_NOT_ADDED),
            1926 => Some(WinErrorWindows::RPC_S_PRF_ELT_NOT_ADDED),
            1927 => Some(WinErrorWindows::RPC_S_PRF_ELT_NOT_REMOVED),
            1928 => Some(WinErrorWindows::RPC_S_GRP_ELT_NOT_ADDED),
            1929 => Some(WinErrorWindows::RPC_S_GRP_ELT_NOT_REMOVED),
            1930 => Some(WinErrorWindows::ERROR_KM_DRIVER_BLOCKED),
            1931 => Some(WinErrorWindows::ERROR_CONTEXT_EXPIRED),
            1932 => Some(WinErrorWindows::ERROR_PER_USER_TRUST_QUOTA_EXCEEDED),
            1933 => Some(WinErrorWindows::ERROR_ALL_USER_TRUST_QUOTA_EXCEEDED),
            1934 => Some(WinErrorWindows::ERROR_USER_DELETE_TRUST_QUOTA_EXCEEDED),
            1935 => Some(WinErrorWindows::ERROR_AUTHENTICATION_FIREWALL_FAILED),
            1936 => Some(WinErrorWindows::ERROR_REMOTE_PRINT_CONNECTIONS_BLOCKED),
            1937 => Some(WinErrorWindows::ERROR_NTLM_BLOCKED),
            1938 => Some(WinErrorWindows::ERROR_PASSWORD_CHANGE_REQUIRED),
            1939 => Some(WinErrorWindows::ERROR_LOST_MODE_LOGON_RESTRICTION),
            2000 => Some(WinErrorWindows::ERROR_INVALID_PIXEL_FORMAT),
            2001 => Some(WinErrorWindows::ERROR_BAD_DRIVER),
            2002 => Some(WinErrorWindows::ERROR_INVALID_WINDOW_STYLE),
            2003 => Some(WinErrorWindows::ERROR_METAFILE_NOT_SUPPORTED),
            2004 => Some(WinErrorWindows::ERROR_TRANSFORM_NOT_SUPPORTED),
            2005 => Some(WinErrorWindows::ERROR_CLIPPING_NOT_SUPPORTED),
            2010 => Some(WinErrorWindows::ERROR_INVALID_CMM),
            2011 => Some(WinErrorWindows::ERROR_INVALID_PROFILE),
            2012 => Some(WinErrorWindows::ERROR_TAG_NOT_FOUND),
            2013 => Some(WinErrorWindows::ERROR_TAG_NOT_PRESENT),
            2014 => Some(WinErrorWindows::ERROR_DUPLICATE_TAG),
            2015 => Some(WinErrorWindows::ERROR_PROFILE_NOT_ASSOCIATED_WITH_DEVICE),
            2016 => Some(WinErrorWindows::ERROR_PROFILE_NOT_FOUND),
            2017 => Some(WinErrorWindows::ERROR_INVALID_COLORSPACE),
            2018 => Some(WinErrorWindows::ERROR_ICM_NOT_ENABLED),
            2019 => Some(WinErrorWindows::ERROR_DELETING_ICM_XFORM),
            2020 => Some(WinErrorWindows::ERROR_INVALID_TRANSFORM),
            2021 => Some(WinErrorWindows::ERROR_COLORSPACE_MISMATCH),
            2022 => Some(WinErrorWindows::ERROR_INVALID_COLORINDEX),
            2023 => Some(WinErrorWindows::ERROR_PROFILE_DOES_NOT_MATCH_DEVICE),
            2108 => Some(WinErrorWindows::ERROR_CONNECTED_OTHER_PASSWORD),
            2109 => Some(WinErrorWindows::ERROR_CONNECTED_OTHER_PASSWORD_DEFAULT),
            2202 => Some(WinErrorWindows::ERROR_BAD_USERNAME),
            2250 => Some(WinErrorWindows::ERROR_NOT_CONNECTED),
            2401 => Some(WinErrorWindows::ERROR_OPEN_FILES),
            2402 => Some(WinErrorWindows::ERROR_ACTIVE_CONNECTIONS),
            2404 => Some(WinErrorWindows::ERROR_DEVICE_IN_USE),
            3000 => Some(WinErrorWindows::ERROR_UNKNOWN_PRINT_MONITOR),
            3001 => Some(WinErrorWindows::ERROR_PRINTER_DRIVER_IN_USE),
            3002 => Some(WinErrorWindows::ERROR_SPOOL_FILE_NOT_FOUND),
            _ => None,
        }
    }

    /// One slice of the symbol table: the raw value of this symbol,
    /// where this slice holds it.
    pub open spec fn spec_to_u32_part26(self) -> Option<u32> {
        match self {
            WinErrorWindows::ERROR_SPL_NO_STARTDOC => Some(3003),
            WinErrorWindows::ERROR_SPL_NO_ADDJOB => Some(3004),
            WinErrorWindows::ERROR_PRINT_PROCESSOR_ALREADY_INSTALLED => Some(3005),
            WinErrorWindows::ERROR_PRINT_MONITOR_ALREADY_INSTALLED => Some(3006),
            WinErrorWindows::ERROR_INVALID_PRINT_MONITOR => Some(3007),
            WinErrorWindows::ERROR_PRINT_MONITOR_IN_USE => Some(3008),
            WinErrorWindows::ERROR_PRINTER_HAS_JOBS_QUEUED => Some(3009),
            WinErrorWindows::ERROR_SUCCESS_REBOOT_REQUIRED => Some(3010),
            WinErrorWindows::ERROR_SUCCESS_RESTART_REQUIRED => Some(3011),
            WinErrorWindows::ERROR_PRINTER_NOT_FOUND => Some(3012),
            WinErrorWindows::ERROR_PRINTER_DRIVER_WARNED => Some(3013),
            WinErrorWindows::ERROR_PRINTER_DRIVER_BLOCKED => Some(3014),
            WinErrorWindows::ERROR_PRINTER_DRIVER_PACKAGE_IN_USE => Some(3015),
            WinErrorWindows::ERROR_CORE_DRIVER_PACKAGE_NOT_FOUND => Some(3016),
            WinErrorWindows::ERROR_FAIL_REBOOT_REQUIRED => Some(3017),
            WinErrorWindows::ERROR_FAIL_REBOOT_INITIATED => Some(3018),
            WinErrorWindows::ERROR_PRINTER_DRIVER_DOWNLOAD_NEEDED => Some(3019),
            WinErrorWindows::ERROR_PRINT_JOB_RESTART_REQUIRED => Some(3020),
            WinErrorWindows::ERROR_INVALID_PRINTER_DRIVER_MANIFEST => Some(3021),
            WinErrorWindows::ERROR_PRINTER_NOT_SHAREABLE => Some(3022),
            WinErrorWindows::ERROR_REQUEST_PAUSED => Some(3050),
            WinErrorWindows::ERROR_APPEXEC_CONDITION_NOT_SATISFIED => Some(3060),
            WinErrorWindows::ERROR_APPEXEC_HANDLE_INVALIDATED => Some(3061),
            WinErrorWindows::ERROR_APPEXEC_INVALID_HOST_GENERATION => Some(3062),
            WinErrorWindows::ERROR_APPEXEC_UNEXPECTED_PROCESS_REGISTRATION => Some(3063),
            WinErrorWindows::ERROR_APPEXEC_INVALID_HOST_STATE => Some(3064),
            WinErrorWindows::ERROR_APPEXEC_NO_DONOR => Some(3065),
            WinErrorWindows::ERROR_APPEXEC_HOST_ID_MISMATCH => Some(3066),
            WinErrorWindows::ERROR_APPEXEC_UNKNOWN_USER => Some(3067),
            WinErrorWindows::ERROR_IO_REISSUE_AS_CACHED => Some(3950),
            WinErrorWindows::ERROR_WINS_INTERNAL => Some(4000),
            WinErrorWindows::ERROR_CAN_NOT_DEL_LOCAL_WINS => Some(4001),
            WinErrorWindows::ERROR_STATIC_INIT => Some(4002),
            WinErrorWindows::ERROR_INC_BACKUP => Some(4003),
            WinErrorWindows::ERROR_FULL_BACKUP => Some(4004),
            WinErrorWindows::ERROR_REC_NON_EXISTENT => Some(4005),
            WinErrorWindows::ERROR_RPL_NOT_ALLOWED => Some(4006),
            WinErrorWindows::ERROR_DHCP_ADDRESS_CONFLICT => Some(4100),
            WinErrorWindows::ERROR_WMI_GUID_NOT_FOUND => Some(4200),
            WinErrorWindows::ERROR_WMI_INSTANCE_NOT_FOUND => Some(4201),
            WinErrorWindows::ERROR_WMI_ITEMID_NOT_FOUND => Some(4202),
            WinErrorWindows::ERROR_WMI_TRY_AGAIN => Some(4203),
            WinErrorWindows::ERROR_WMI_DP_NOT_FOUND => Some(4204),
            WinErrorWindows::ERROR_WMI_UNRESOLVED_INSTANCE_REF => Some(4205),
            WinErrorWindows::ERROR_WMI_ALREADY_ENABLED => Some(4206),
            WinErrorWindows::ERROR_WMI_GUID_DISCONNECTED => Some(4207),
            WinErrorWindows::ERROR_WMI_SERVER_UNAVAILABLE => Some(4208),
            WinErrorWindows::ERROR_WMI_DP_FAILED => Some(4209),
            WinErrorWindows::ERROR_WMI_INVALID_MOF => Some(4210),
            WinErrorWindows::ERROR_WMI_INVALID_REGINFO => Some(4211),
            _ => None,
        }
    }

    /// One slice of the symbol table: the symbol this slice gives a
    /// raw value, where it holds one.
    pub open spec fn spec_from_u32_part26(raw: u32) -> Option<WinErrorWindows> {
        match raw {
            3003 => Some(WinErrorWindows::ERROR_SPL_NO_STARTDOC),
            3004 => Some(WinErrorWindows::ERROR_SPL_NO_ADDJOB),
            3005 => Some(WinErrorWindows::ERROR_PRINT_PROCESSOR_ALREADY_INSTALLED),
            3006 => Some(WinErrorWindows::ERROR_PRINT_MONITOR_ALREADY_INSTALLED),
            3007 => Some(WinErrorWindows::ERROR_INVALID_PRINT_MONITOR),
            3008 => Some(WinErrorWindows::ERROR_PRINT_MONITOR_IN_USE),
            3009 => Some(WinErrorWindows::ERROR_PRINTER_HAS_JOBS_QUEUED),
            3010 => Some(WinErrorWindows::ERROR_SUCCESS_REBOOT_REQUIRED),
            3011 => Some(WinErrorWindows::ERROR_SUCCESS_RESTART_REQUIRED),
            3012 => Some(WinErrorWindows::ERROR_PRINTER_NOT_FOUND),
            3013 => Some(WinErrorWindows::ERROR_PRINTER_DRIVER_WARNED),
            3014 => Some(WinErrorWindows::ERROR_PRINTER_DRIVER_BLOCKED),
            3015 => Some(WinErrorWindows::ERROR_PRINTER_DRIVER_PACKAGE_IN_USE),
            3016 => Some(WinErrorWindows::ERROR_CORE_DRIVER_PACKAGE_NOT_FOUND),
            3017 => Some(WinErrorWindows::ERROR_FAIL_REBOOT_REQUIRED),
            3018 => Some(WinErrorWindows::ERROR_FAIL_REBOOT_INITIATED),
            3019 => Some(WinErrorWindows::ERROR_PRINTER_DRIVER_DOWNLOAD_NEEDED),
            3020 => Some(WinErrorWindows::ERROR_PRINT_JOB_RESTART_REQUIRED),
            3021 => Some(WinErrorWindows::ERROR_INVALID_PRINTER_DRIVER_MANIFEST),
            3022 => Some(WinErrorWindows::ERROR_PRINTER_NOT_SHAREABLE),
            3050 => Some(WinErrorWindows::ERROR_REQUEST_PAUSED),
            3060 => Some(WinErrorWindows::ERROR_APPEXEC_CONDITION_NOT_SATISFIED),
            3061 => Some(WinErrorWindows::ERROR_APPEXEC_HANDLE_INVALIDATED),
            3062 => Some(WinErrorWindows::ERROR_APPEXEC_INVALID_HOST_GENERATION),
            3063 => Some(WinErrorWindows::ERROR_APPEXEC_UNEXPECTED_PROCESS_REGISTRATION),
            3064 => Some(WinErrorWindows::ERROR_APPEXEC_INVALID_HOST_STATE),
            3065 => Some(WinErrorWindows::ERROR_APPEXEC_NO_DONOR),
            3066 => Some(WinErrorWindows::ERROR_APPEXEC_HOST_ID_MISMATCH),
            3067 => Some(WinErrorWindows::ERROR_APPEXEC_UNKNOWN_USER),
            3950 => Some(WinErrorWindows::ERROR_IO_REISSUE_AS_CACHED),
            4000 => Some(WinErrorWindows::ERROR_WINS_INTERNAL),
            4001 => Some(WinErrorWindows::ERROR_CAN_NOT_DEL_LOCAL_WINS),
            4002 => Some(WinErrorWindows::ERROR_STATIC_INIT),
            4003 => Some(WinErrorWindows::ERROR_INC_BACKUP),
            4004 => Some(WinErrorWindows::ERROR_FULL_BACKUP),
            4005 => Some(WinErrorWindows::ERROR_REC_NON_EXISTENT),
            4006 => Some(WinErrorWindows::ERROR_RPL_NOT_ALLOWED),
            4100 => Some(WinErrorWindows::ERROR_DHCP_ADDRESS_CONFLICT),
            4200 => Some(WinErrorWindows::ERROR_WMI_GUID_NOT_FOUND),
            4201 => Some(WinErrorWindows::ERROR_WMI_INSTANCE_NOT_FOUND),
            4202 => Some(WinErrorWindows::ERROR_WMI_ITEMID_NOT_FOUND),
            4203 => Some(WinErrorWindows::ERROR_WMI_TRY_AGAIN),
            4204 => Some(WinErrorWindows::ERROR_WMI_DP_NOT_FOUND),
            4205 => Some(WinErrorWindows::ERROR_WMI_UNRESOLVED_INSTANCE_REF),
            4206 => Some(WinErrorWindows::ERROR_WMI_ALREADY_ENABLED),
            4207 => Some(WinErrorWindows::ERROR_WMI_GUID_DISCONNECTED),
            4208 => Some(WinErrorWindows::ERROR_WMI_SERVER_UNAVAILABLE),
            4209 => Some(WinErrorWindows::ERROR_WMI_DP_FAILED),
            4210 => Some(WinErrorWindows::ERROR_WMI_INVALID_MOF),
            4211 => Some(WinErrorWindows::ERROR_WMI_INVALID_REGINFO),
            _ => None,
        }
    }

    /// One slice of the symbol table.
    #[verifier::spinoff_prover]
    #[verifier::rlimit(100)]
    fn to_u32_part26(self) -> (r: Option<u32>)
        ensures
            r == self.spec_to_u32_part26(),
    {
        match self {
            WinErrorWindows::ERROR_SPL_NO_STARTDOC => Some(3003),
            WinErrorWindows::ERROR_SPL_NO_ADDJOB => Some(3004),
            WinErrorWindows::ERROR_PRINT_PROCESSOR_ALREADY_INSTALLED => Some(3005),
            WinErrorWindows::ERROR_PRINT_MONITOR_ALREADY_INSTALLED => Some(3006),
            WinErrorWindows::ERROR_INVALID_PRINT_MONITOR => Some(3007),
            WinErrorWindows::ERROR_PRINT_MONITOR_IN_USE => Some(3008),
            WinErrorWindows::ERROR_PRINTER_HAS_JOBS_QUEUED => Some(3009),
            WinErrorWindows::ERROR_SUCCESS_REBOOT_REQUIRED => Some(3010),
            WinErrorWindows::ERROR_SUCCESS_RESTART_REQUIRED => Some(3011),
            WinErrorWindows::ERROR_PRINTER_NOT_FOUND => Some(3012),
            WinErrorWindows::ERROR_PRINTER_DRIVER_WARNED => Some(3013),
            WinErrorWindows::ERROR_PRINTER_DRIVER_BLOCKED => Some(3014),
            WinErrorWindows::ERROR_PRINTER_DRIVER_PACKAGE_IN_USE => Some(3015),
            WinErrorWindows::ERROR_CORE_DRIVER_PACKAGE_NOT_FOUND => Some(3016),
            WinErrorWindows::ERROR_FAIL_REBOOT_REQUIRED => Some(3017),
            WinErrorWindows::ERROR_FAIL_REBOOT_INITIATED => Some(3018),
            WinErrorWindows::ERROR_PRINTER_DRIVER_DOWNLOAD_NEEDED => Some(3019),
            WinErrorWindows::ERROR_PRINT_JOB_RESTART_REQUIRED => Some(3020),
            WinErrorWindows::ERROR_INVALID_PRINTER_DRIVER_MANIFEST => Some(3021),
            WinErrorWindows::ERROR_PRINTER_NOT_SHAREABLE => Some(3022),
            WinErrorWindows::ERROR_REQUEST_PAUSED => Some(3050),
            WinErrorWindows::ERROR_APPEXEC_CONDITION_NOT_SATISFIED => Some(3060),
            WinErrorWindows::ERROR_APPEXEC_HANDLE_INVALIDATED => Some(3061),
            WinErrorWindows::ERROR_APPEXEC_INVALID_HOST_GENERATION => Some(3062),
            WinErrorWindows::ERROR_APPEXEC_UNEXPECTED_PROCESS_REGISTRATION => Some(3063),
            WinErrorWindows::ERROR_APPEXEC_INVALID_HOST_STATE => Some(3064),
            WinErrorWindows::ERROR_APPEXEC_NO_DONOR => Some(3065),
            WinErrorWindows::ERROR_APPEXEC_HOST_ID_MISMATCH => Some(3066),
            WinErrorWindows::ERROR_APPEXEC_UNKNOWN_USER => Some(3067),
            WinErrorWindows::ERROR_IO_REISSUE_AS_CACHED => Some(3950),
            WinErrorWindows::ERROR_WINS_INTERNAL => Some(4000),
            WinErrorWindows::ERROR_CAN_NOT_DEL_LOCAL_WINS => Some(4001),
            WinErrorWindows::ERROR_STATIC_INIT => Some(4002),
            WinErrorWindows::ERROR_INC_BACKUP => Some(4003),
            WinErrorWindows::ERROR_FULL_BACKUP => Some(4004),
            WinErrorWindows::ERROR_REC_NON_EXISTENT => Some(4005),
            WinErrorWindows::ERROR_RPL_NOT_ALLOWED => Some(4006),
            WinErrorWindows::ERROR_DHCP_ADDRESS_CONFLICT => Some(4100),
            WinErrorWindows::ERROR_WMI_GUID_NOT_FOUND => Some(4200),
            WinErrorWindows::ERROR_WMI_INSTANCE_NOT_FOUND => Some(4201),
            WinErrorWindows::ERROR_WMI_ITEMID_NOT_FOUND => Some(4202),
            WinErrorWindows::ERROR_WMI_TRY_AGAIN => Some(4203),
            WinErrorWindows::ERROR_WMI_DP_NOT_FOUND => Some(4204),
            WinErrorWindows::ERROR_WMI_UNRESOLVED_INSTANCE_REF => Some(4205),
            WinErrorWindows::ERROR_WMI_ALREADY_ENABLED => Some(4206),
            WinErrorWindows::ERROR_WMI_GUID_DISCONNECTED => Some(4207),
            WinErrorWindows::ERROR_WMI_SERVER_UNAVAILABLE => Some(4208),
            WinErrorWindows::ERROR_WMI_DP_FAILED => Some(4209),
            WinErrorWindows::ERROR_WMI_INVALID_MOF => Some(4210),
            WinErrorWindows::ERROR_WMI_INVALID_REGINFO => Some(4211),
            _ => None,
        }
    }

    /// One slice of the symbol table.
    #[verifier::spinoff_prover]
    #[verifier::rlimit(100)]
    fn from_u32_part26(raw: u32) -> (r: Option<WinErrorWindows>)
        ensures
            r == WinErrorWindows::spec_from_u32_part26(raw),
    {
        match raw {
            3003 => Some(WinErrorWindows::ERROR_SPL_NO_STARTDOC),
            3004 => Some(WinErrorWindows::ERROR_SPL_NO_ADDJOB),
            3005 => Some(WinErrorWindows::ERROR_PRINT_PROCESSOR_ALREADY_INSTALLED),
            3006 => Some(WinErrorWindows::ERROR_PRINT_MONITOR_ALREADY_INSTALLED),
            3007 => Some(WinErrorWindows::ERROR_INVALID_PRINT_MONITOR),
            3008 => Some(WinErrorWindows::ERROR_PRINT_MONITOR_IN_USE),
            3009 => Some(WinErrorWindows::ERROR_PRINTER_HAS_JOBS_QUEUED),
            3010 => Some(WinErrorWindows::ERROR_SUCCESS_REBOOT_REQUIRED),
            3011 => Some(WinErrorWindows::ERROR_SUCCESS_RESTART_REQUIRED),
            3012 => Some(WinErrorWindows::ERROR_PRINTER_NOT_FOUND),
            3013 => Some(WinErrorWindows::ERROR_PRINTER_DRIVER_WARNED),
            3014 => Some(WinErrorWindows::ERROR_PRINTER_DRIVER_BLOCKED),
            3015 => Some(WinErrorWindows::ERROR_PRINTER_DRIVER_PACKAGE_IN_USE),
            3016 => Some(WinErrorWindows::ERROR_CORE_DRIVER_PACKAGE_NOT_FOUND),
            3017 => Some(WinErrorWindows::ERROR_FAIL_REBOOT_REQUIRED),
            3018 => Some(WinErrorWindows::ERROR_FAIL_REBOOT_INITIATED),
            3019 => Some(WinErrorWindows::ERROR_PRINTER_DRIVER_DOWNLOAD_NEEDED),
            3020 => Some(WinErrorWindows::ERROR_PRINT_JOB_RESTART_REQUIRED),
            3021 => Some(WinErrorWindows::ERROR_INVALID_PRINTER_DRIVER_MANIFEST),
            3022 => Some(WinErrorWindows::ERROR_PRINTER_NOT_SHAREABLE),
            3050 => Some(WinErrorWindows::ERROR_REQUEST_PAUSED),
            3060 => Some(WinErrorWindows::ERROR_APPEXEC_CONDITION_NOT_SATISFIED),
            3061 => Some(WinErrorWindows::ERROR_APPEXEC_HANDLE_INVALIDATED),
            3062 => Some(WinErrorWindows::ERROR_APPEXEC_INVALID_HOST_GENERATION),
            3063 => Some(WinErrorWindows::ERROR_APPEXEC_UNEXPECTED_PROCESS_REGISTRATION),
            3064 => Some(WinErrorWindows::ERROR_APPEXEC_INVALID_HOST_STATE),
            3065 => Some(WinErrorWindows::ERROR_APPEXEC_NO_DONOR),
            3066 => Some(WinErrorWindows::ERROR_APPEXEC_HOST_ID_MISMATCH),
            3067 => Some(WinErrorWindows::ERROR_APPEXEC_UNKNOWN_USER),
            3950 => Some(WinErrorWindows::ERROR_IO_REISSUE_AS_CACHED),
            4000 => Some(WinErrorWindows::ERROR_WINS_INTERNAL),
            4001 => Some(WinErrorWindows::ERROR_CAN_NOT_DEL_LOCAL_WINS),
            4002 => Some(WinErrorWindows::ERROR_STATIC_INIT),
            4003 => Some(WinErrorWindows::ERROR_INC_BACKUP),
            4004 => Some(WinErrorWindows::ERROR_FULL_BACKUP),
            4005 => Some(WinErrorWindows::ERROR_REC_NON_EXISTENT),
            4006 => Some(WinErrorWindows::ERROR_RPL_NOT_ALLOWED),
            4100 => Some(WinErrorWindows::ERROR_DHCP_ADDRESS_CONFLICT),
            4200 => Some(WinErrorWindows::ERROR_WMI_GUID_NOT_FOUND),
            4201 => Some(WinErrorWindows::ERROR_WMI_INSTANCE_NOT_FOUND),
            4202 => Some(WinErrorWindows::ERROR_WMI_ITEMID_NOT_FOUND),
            4203 => Some(WinErrorWindows::ERROR_WMI_TRY_AGAIN),
            4204 => Some(WinErrorWindows::ERROR_WMI_DP_NOT_FOUND),
            4205 => Some(WinErrorWindows::ERROR_WMI_UNRESOLVED_INSTANCE_REF),
            4206 => Some(WinErrorWindows::ERROR_WMI_ALREADY_ENABLED),
            4207 => Some(WinErrorWindows::ERROR_WMI_GUID_DISCONNECTED),
            4208 => Some(WinErrorWindows::ERROR_WMI_SERVER_UNAVAILABLE),
            4209 => Some(WinErrorWindows::ERROR_WMI_DP_FAILED),
            4210 => Some(WinErrorWindows::ERROR_WMI_INVALID_MOF),
            4211 => Some(WinErrorWindows::ERROR_WMI_INVALID_REGINFO),
            _ => None,
        }
    }

    /// One slice of the symbol table: the raw value of this symbol,
    /// where this slice holds it.
    pub open spec fn spec_to_u32_part27(self) -> Option<u32> {
        match self {
            WinErrorWindows::ERROR_WMI_ALREADY_DISABLED => Some(4212),
            WinErrorWindows::ERROR_WMI_READ_ONLY => Some(4213),
            WinErrorWindows::ERROR_WMI_SET_FAILURE => Some(4214),
            WinErrorWindows::ERROR_NOT_APPCONTAINER => Some(4250),
            WinErrorWindows::ERROR_APPCONTAINER_REQUIRED => Some(4251),
            WinErrorWindows::ERROR_NOT_SUPPORTED_IN_APPCONTAINER => Some(4252),
            WinErrorWindows::ERROR_INVALID_PACKAGE_SID_LENGTH => Some(4253),
            WinErrorWindows::ERROR_INVALID_MEDIA => Some(4300),
            WinErrorWindows::ERROR_INVALID_LIBRARY => Some(4301),
            WinErrorWindows::ERROR_INVALID_MEDIA_POOL => Some(4302),
            WinErrorWindows::ERROR_DRIVE_MEDIA_MISMATCH => Some(4303),
            WinErrorWindows::ERROR_MEDIA_OFFLINE => Some(4304),
            WinErrorWindows::ERROR_LIBRARY_OFFLINE => Some(4305),
            WinErrorWindows::ERROR_EMPTY => Some(4306),
            WinErrorWindows::ERROR_NOT_EMPTY => Some(4307),
            WinErrorWindows::ERROR_MEDIA_UNAVAILABLE => Some(4308),
            WinErrorWindows::ERROR_RESOURCE_DISABLED => Some(4309),
            WinErrorWindows::ERROR_INVALID_CLEANER => Some(4310),
            WinErrorWindows::ERROR_UNABLE_TO_CLEAN => Some(4311),
            WinErrorWindows::ERROR_OBJECT_NOT_FOUND => Some(4312),
            WinErrorWindows::ERROR_DATABASE_FAILURE => Some(4313),
            WinErrorWindows::ERROR_DATABASE_FULL => Some(4314),
            WinErrorWindows::ERROR_MEDIA_INCOMPATIBLE => Some(4315),
            WinErrorWindows::ERROR_RESOURCE_NOT_PRESENT => Some(4316),
            WinErrorWindows::ERROR_INVALID_OPERATION => Some(4317),
            WinErrorWindows::ERROR_MEDIA_NOT_AVAILABLE => Some(4318),
            WinErrorWindows::ERROR_DEVICE_NOT_AVAILABLE => Some(4319),
            WinErrorWindows::ERROR_REQUEST_REFUSED => Some(4320),
            WinErrorWindows::ERROR_INVALID_DRIVE_OBJECT => Some(4321),
            WinErrorWindows::ERROR_LIBRARY_FULL => Some(4322),
            WinErrorWindows::ERROR_MEDIUM_NOT_ACCESSIBLE => Some(4323),
            WinErrorWindows::ERROR_UNABLE_TO_LOAD_MEDIUM => Some(4324),
            WinErrorWindows::ERROR_UNABLE_TO_INVENTORY_DRIVE => Some(4325),
            WinErrorWindows::ERROR_UNABLE_TO_INVENTORY_SLOT => Some(4326),
            WinErrorWindows::ERROR_UNABLE_TO_INVENTORY_TRANSPORT => Some(4327),
            WinErrorWindows::ERROR_TRANSPORT_FULL => Some(4328),
            WinErrorWindows::ERROR_CONTROLLING_IEPORT => Some(4329),
            WinErrorWindows::ERROR_UNABLE_TO_EJECT_MOUNTED_MEDIA => Some(4330),
            WinErrorWindows::ERROR_CLEANER_SLOT_SET => Some(4331),
            WinErrorWindows::ERROR_CLEANER_SLOT_NOT_SET => Some(4332),
            WinErrorWindows::ERROR_CLEANER_CARTRIDGE_SPENT => Some(4333),
            WinErrorWindows::ERROR_UNEXPECTED_OMID => Some(4334),
            WinErrorWindows::ERROR_CANT_DELETE_LAST_ITEM => Some(4335),
            WinErrorWindows::ERROR_MESSAGE_EXCEEDS_MAX_SIZE => Some(4336),
            WinErrorWindows::ERROR_VOLUME_CONTAINS_SYS_FILES => Some(4337),
            WinErrorWindows::ERROR_INDIGENOUS_TYPE => Some(4338),
            WinErrorWindows::ERROR_NO_SUPPORTING_DRIVES => Some(4339),
            WinErrorWindows::ERROR_CLEANER_CARTRIDGE_INSTALLED => Some(4340),
            WinErrorWindows::ERROR_IEPORT_FULL => Some(4341),
            WinErrorWindows::ERROR_FILE_OFFLINE => Some(4350),
            _ => None,
        }
    }

    /// One slice of the symbol table: the symbol this slice gives a
    /// raw value, where it holds one.
    pub open spec fn spec_from_u32_part27(raw: u32) -> Option<WinErrorWindows> {
        match raw {
            4212 => Some(WinErrorWindows::ERROR_WMI_ALREADY_DISABLED),
            4213 => Some(WinErrorWindows::ERROR_WMI_READ_ONLY),
            4214 => Some(WinErrorWindows::ERROR_WMI_SET_FAILURE),
            4250 => Some(WinErrorWindows::ERROR_NOT_APPCONTAINER),
            4251 => Some(WinErrorWindows::ERROR_APPCONTAINER_REQUIRED),
            4252 => Some(WinErrorWindows::ERROR_NOT_SUPPORTED_IN_APPCONTAINER),
            4253 => Some(WinErrorWindows::ERROR_INVALID_PACKAGE_SID_LENGTH),
            4300 => Some(WinErrorWindows::ERROR_INVALID_MEDIA),
            4301 => Some(WinErrorWindows::ERROR_INVALID_LIBRARY),
            4302 => Some(WinErrorWindows::ERROR_INVALID_MEDIA_POOL),
            4303 => Some(WinErrorWindows::ERROR_DRIVE_MEDIA_MISMATCH),
            4304 => Some(WinErrorWindows::ERROR_MEDIA_OFFLINE),
            4305 => Some(WinErrorWindows::ERROR_LIBRARY_OFFLINE),
            4306 => Some(WinErrorWindows::ERROR_EMPTY),
            4307 => Some(WinErrorWindows::ERROR_NOT_EMPTY),
            4308 => Some(WinErrorWindows::ERROR_MEDIA_UNAVAILABLE),
            4309 => Some(WinErrorWindows::ERROR_RESOURCE_DISABLED),
            4310 => Some(WinErrorWindows::ERROR_INVALID_CLEANER),
            4311 => Some(WinErrorWindows::ERROR_UNABLE_TO_CLEAN),
            4312 => Some(WinErrorWindows::ERROR_OBJECT_NOT_FOUND),
            4313 => Some(WinErrorWindows::ERROR_DATABASE_FAILURE),
            4314 => Some(WinErrorWindows::ERROR_DATABASE_FULL),
            4315 => Some(WinErrorWindows::ERROR_MEDIA_INCOMPATIBLE),
            4316 => Some(WinErrorWindows::ERROR_RESOURCE_NOT_PRESENT),
            4317 => Some(WinErrorWindows::ERROR_INVALID_OPERATION),
            4318 => Some(WinErrorWindows::ERROR_MEDIA_NOT_AVAILABLE),
            4319 => Some(WinErrorWindows::ERROR_DEVICE_NOT_AVAILABLE),
            4320 => Some(WinErrorWindows::ERROR_REQUEST_REFUSED),
            4321 => Some(WinErrorWindows::ERROR_INVALID_DRIVE_OBJECT),
            4322 => Some(WinErrorWindows::ERROR_LIBRARY_FULL),
            4323 => Some(WinErrorWindows::ERROR_MEDIUM_NOT_ACCESSIBLE),
            4324 => Some(WinErrorWindows::ERROR_UNABLE_TO_LOAD_MEDIUM),
            4325 => Some(WinErrorWindows::ERROR_UNABLE_TO_INVENTORY_DRIVE),
            4326 => Some(WinErrorWindows::ERROR_UNABLE_TO_INVENTORY_SLOT),
            4327 => Some(WinErrorWindows::ERROR_UNABLE_TO_INVENTORY_TRANSPORT),
            4328 => Some(WinErrorWindows::ERROR_TRANSPORT_FULL),
            4329 => Some(WinErrorWindows::ERROR_CONTROLLING_IEPORT),
            4330 => Some(WinErrorWindows::ERROR_UNABLE_TO_EJECT_MOUNTED_MEDIA),
            4331 => Some(WinErrorWindows::ERROR_CLEANER_SLOT_SET),
            4332 => Some(WinErrorWindows::ERROR_CLEANER_SLOT_NOT_SET),
            4333 => Some(WinErrorWindows::ERROR_CLEANER_CARTRIDGE_SPENT),
            4334 => Some(WinErrorWindows::ERROR_UNEXPECTED_OMID),
            4335 => Some(WinErrorWindows::ERROR_CANT_DELETE_LAST_ITEM),
            4336 => Some(WinErrorWindows::ERROR_MESSAGE_EXCEEDS_MAX_SIZE),
            4337 => Some(WinErrorWindows::ERROR_VOLUME_CONTAINS_SYS_FILES),
            4338 => Some(WinErrorWindows::ERROR_INDIGENOUS_TYPE),
            4339 => Some(WinErrorWindows::ERROR_NO_SUPPORTING_DRIVES),
            4340 => Some(WinErrorWindows::ERROR_CLEANER_CARTRIDGE_INSTALLED),
            4341 => Some(WinErrorWindows::ERROR_IEPORT_FULL),
            4350 => Some(WinErrorWindows::ERROR_FILE_OFFLINE),
            _ => None,
        }
    }

    /// One slice of the symbol table.
    #[verifier::spinoff_prover]
    #[verifier::rlimit(100)]
    fn to_u32_part27(self) -> (r: Option<u32>)
        ensures
            r == self.spec_to_u32_part27(),
    {
        match self {
            WinErrorWindows::ERROR_WMI_ALREADY_DISABLED => Some(4212),
            WinErrorWindows::ERROR_WMI_READ_ONLY => Some(4213),
            WinErrorWindows::ERROR_WMI_SET_FAILURE => Some(4214),
            WinErrorWindows::ERROR_NOT_APPCONTAINER => Some(4250),
            WinErrorWindows::ERROR_APPCONTAINER_REQUIRED => Some(4251),
            WinErrorWindows::ERROR_NOT_SUPPORTED_IN_APPCONTAINER => Some(4252),
            WinErrorWindows::ERROR_INVALID_PACKAGE_SID_LENGTH => Some(4253),
            WinErrorWindows::ERROR_INVALID_MEDIA => Some(4300),
            WinErrorWindows::ERROR_INVALID_LIBRARY => Some(4301),
            WinErrorWindows::ERROR_INVALID_MEDIA_POOL => Some(4302),
            WinErrorWindows::ERROR_DRIVE_MEDIA_MISMATCH => Some(4303),
            WinErrorWindows::ERROR_MEDIA_OFFLINE => Some(4304),
            WinErrorWindows::ERROR_LIBRARY_OFFLINE => Some(4305),
            WinErrorWindows::ERROR_EMPTY => Some(4306),
            WinErrorWindows::ERROR_NOT_EMPTY => Some(4307),
            WinErrorWindows::ERROR_MEDIA_UNAVAILABLE => Some(4308),
            WinErrorWindows::ERROR_RESOURCE_DISABLED => Some(4309),
            WinErrorWindows::ERROR_INVALID_CLEANER => Some(4310),
            WinErrorWindows::ERROR_UNABLE_TO_CLEAN => Some(4311),
            WinErrorWindows::ERROR_OBJECT_NOT_FOUND => Some(4312),
            WinErrorWindows::ERROR_DATABASE_FAILURE => Some(4313),
            WinErrorWindows::ERROR_DATABASE_FULL => Some(4314),
            WinErrorWindows::ERROR_MEDIA_INCOMPATIBLE => Some(4315),
            WinErrorWindows::ERROR_RESOURCE_NOT_PRESENT => Some(4316),
            WinErrorWindows::ERROR_INVALID_OPERATION => Some(4317),
            WinErrorWindows::ERROR_MEDIA_NOT_AVAILABLE => Some(4318),
            WinErrorWindows::ERROR_DEVICE_NOT_AVAILABLE => Some(4319),
            WinErrorWindows::ERROR_REQUEST_REFUSED => Some(4320),
            WinErrorWindows::ERROR_INVALID_DRIVE_OBJECT => Some(4321),
            WinErrorWindows::ERROR_LIBRARY_FULL => Some(4322),
            WinErrorWindows::ERROR_MEDIUM_NOT_ACCESSIBLE => Some(4323),
            WinErrorWindows::ERROR_UNABLE_TO_LOAD_MEDIUM => Some(4324),
            WinErrorWindows::ERROR_UNABLE_TO_INVENTORY_DRIVE => Some(4325),
            WinErrorWindows::ERROR_UNABLE_TO_INVENTORY_SLOT => Some(4326),
            WinErrorWindows::ERROR_UNABLE_TO_INVENTORY_TRANSPORT => Some(4327),
            WinErrorWindows::ERROR_TRANSPORT_FULL => Some(4328),
            WinErrorWindows::ERROR_CONTROLLING_IEPORT => Some(4329),
            WinErrorWindows::ERROR_UNABLE_TO_EJECT_MOUNTED_MEDIA => Some(4330),
            WinErrorWindows::ERROR_CLEANER_SLOT_SET => Some(4331),
            WinErrorWindows::ERROR_CLEANER_SLOT_NOT_SET => Some(4332),
            WinErrorWindows::ERROR_CLEANER_CARTRIDGE_SPENT => Some(4333),
            WinErrorWindows::ERROR_UNEXPECTED_OMID => Some(4334),
            WinErrorWindows::ERROR_CANT_DELETE_LAST_ITEM => Some(4335),
            WinErrorWindows::ERROR_MESSAGE_EXCEEDS_MAX_SIZE => Some(4336),
            WinErrorWindows::ERROR_VOLUME_CONTAINS_SYS_FILES => Some(4337),
            WinErrorWindows::ERROR_INDIGENOUS_TYPE => Some(4338),
            WinErrorWindows::ERROR_NO_SUPPORTING_DRIVES => Some(4339),
            WinErrorWindows::ERROR_CLEANER_CARTRIDGE_INSTALLED => Some(4340),
            WinErrorWindows::ERROR_IEPORT_FULL => Some(4341),
            WinErrorWindows::ERROR_FILE_OFFLINE => Some(4350),
            _ => None,
        }
    }

    /// One slice of the symbol table.
    #[verifier::spinoff_prover]
    #[verifier::rlimit(100)]
    fn from_u32_part27(raw: u32) -> (r: Option<WinErrorWindows>)
        ensures
            r == WinErrorWindows::spec_from_u32_part27(raw),
    {
        match raw {
            4212 => Some(WinErrorWindows::ERROR_WMI_ALREADY_DISABLED),
            4213 => Some(WinErrorWindows::ERROR_WMI_READ_ONLY),
            4214 => Some(WinErrorWindows::ERROR_WMI_SET_FAILURE),
            4250 => Some(WinErrorWindows::ERROR_NOT_APPCONTAINER),
            4251 => Some(WinErrorWindows::ERROR_APPCONTAINER_REQUIRED),
            4252 => Some(WinErrorWindows::ERROR_NOT_SUPPORTED_IN_APPCONTAINER),
            4253 => Some(WinErrorWindows::ERROR_INVALID_PACKAGE_SID_LENGTH),
            4300 => Some(WinErrorWindows::ERROR_INVALID_MEDIA),
            4301 => Some(WinErrorWindows::ERROR_INVALID_LIBRARY),
            4302 => Some(WinErrorWindows::ERROR_INVALID_MEDIA_POOL),
            4303 => Some(WinErrorWindows::ERROR_DRIVE_MEDIA_MISMATCH),
            4304 => Some(WinErrorWindows::ERROR_MEDIA_OFFLINE),
            4305 => Some(WinErrorWindows::ERROR_LIBRARY_OFFLINE),
            4306 => Some(WinErrorWindows::ERROR_EMPTY),
            4307 => Some(WinErrorWindows::ERROR_NOT_EMPTY),
            4308 => Some(WinErrorWindows::ERROR_MEDIA_UNAVAILABLE),
            4309 => Some(WinErrorWindows::ERROR_RESOURCE_DISABLED),
            4310 => Some(WinErrorWindows::ERROR_INVALID_CLEANER),
            4311 => Some(WinErrorWindows::ERROR_UNABLE_TO_CLEAN),
            4312 => Some(WinErrorWindows::ERROR_OBJECT_NOT_FOUND),
            4313 => Some(WinErrorWindows::ERROR_DATABASE_FAILURE),
            4314 => Some(WinErrorWindows::ERROR_DATABASE_FULL),
            4315 => Some(WinErrorWindows::ERROR_MEDIA_INCOMPATIBLE),
            4316 => Some(WinErrorWindows::ERROR_RESOURCE_NOT_PRESENT),
            4317 => Some(WinErrorWindows::ERROR_INVALID_OPERATION),
            4318 => Some(WinErrorWindows::ERROR_MEDIA_NOT_AVAILABLE),
            4319 => Some(WinErrorWindows::ERROR_DEVICE_NOT_AVAILABLE),
            4320 => Some(WinErrorWindows::ERROR_REQUEST_REFUSED),
            4321 => Some(WinErrorWindows::ERROR_INVALID_DRIVE_OBJECT),
            4322 => Some(WinErrorWindows::ERROR_LIBRARY_FULL),
            4323 => Some(WinErrorWindows::ERROR_MEDIUM_NOT_ACCESSIBLE),
            4324 => Some(WinErrorWindows::ERROR_UNABLE_TO_LOAD_MEDIUM),
            4325 => Some(WinErrorWindows::ERROR_UNABLE_TO_INVENTORY_DRIVE),
            4326 => Some(WinErrorWindows::ERROR_UNABLE_TO_INVENTORY_SLOT),
            4327 => Some(WinErrorWindows::ERROR_UNABLE_TO_INVENTORY_TRANSPORT),
            4328 => Some(WinErrorWindows::ERROR_TRANSPORT_FULL),
            4329 => Some(WinErrorWindows::ERROR_CONTROLLING_IEPORT),
            4330 => Some(WinErrorWindows::ERROR_UNABLE_TO_EJECT_MOUNTED_MEDIA),
            4331 => Some(WinErrorWindows::ERROR_CLEANER_SLOT_SET),
            4332 => Some(WinErrorWindows::ERROR_CLEANER_SLOT_NOT_SET),
            4333 => Some(WinErrorWindows::ERROR_CLEANER_CARTRIDGE_SPENT),
            4334 => Some(WinErrorWindows::ERROR_UNEXPECTED_OMID),
            4335 => Some(WinErrorWindows::ERROR_CANT_DELETE_LAST_ITEM),
            4336 => Some(WinErrorWindows::ERROR_MESSAGE_EXCEEDS_MAX_SIZE),
            4337 => Some(WinErrorWindows::ERROR_VOLUME_CONTAINS_SYS_FILES),
            4338 => Some(WinErrorWindows::ERROR_INDIGENOUS_TYPE),
            4339 => Some(WinErrorWindows::ERROR_NO_SUPPORTING_DRIVES),
            4340 => Some(WinErrorWindows::ERROR_CLEANER_CARTRIDGE_INSTALLED),
            4341 => Some(WinErrorWindows::ERROR_IEPORT_FULL),
            4350 => Some(WinErrorWindows::ERROR_FILE_OFFLINE),
            _ => None,
        }
    }

    /// One slice of the symbol table: the raw value of this symbol,
    /// where this slice holds it.
    pub open spec fn spec_to_u32_part28(self) -> Option<u32> {
        match self {
            WinErrorWindows::ERROR_REMOTE_STORAGE_NOT_ACTIVE => Some(4351),
            WinErrorWindows::ERROR_REMOTE_STORAGE_MEDIA_ERROR => Some(4352),
            WinErrorWindows::ERROR_NOT_A_REPARSE_POINT => Some(4390),
            WinErrorWindows::ERROR_REPARSE_ATTRIBUTE_CONFLICT => Some(4391),
            WinErrorWindows::ERROR_INVALID_REPARSE_DATA => Some(4392),
            WinErrorWindows::ERROR_REPARSE_TAG_INVALID => Some(4393),
            WinErrorWindows::ERROR_REPARSE_TAG_MISMATCH => Some(4394),
            WinErrorWindows::ERROR_REPARSE_POINT_ENCOUNTERED => Some(4395),
            WinErrorWindows::ERROR_APP_DATA_NOT_FOUND => Some(4400),
            WinErrorWindows::ERROR_APP_DATA_EXPIRED => Some(4401),
            WinErrorWindows::ERROR_APP_DATA_CORRUPT => Some(4402),
            WinErrorWindows::ERROR_APP_DATA_LIMIT_EXCEEDED => Some(4403),
            WinErrorWindows::ERROR_APP_DATA_REBOOT_REQUIRED => Some(4404),
            WinErrorWindows::ERROR_SECUREBOOT_ROLLBACK_DETECTED => Some(4420),
            WinErrorWindows::ERROR_SECUREBOOT_POLICY_VIOLATION => Some(4421),
            WinErrorWindows::ERROR_SECUREBOOT_INVALID_POLICY => Some(4422),
            WinErrorWindows::ERROR_SECUREBOOT_POLICY_PUBLISHER_NOT_FOUND => Some(4423),
            WinErrorWindows::ERROR_SECUREBOOT_POLICY_NOT_SIGNED => Some(4424),
            WinErrorWindows::ERROR_SECUREBOOT_NOT_ENABLED => Some(4425),
            WinErrorWindows::ERROR_SECUREBOOT_FILE_REPLACED => Some(4426),
            WinErrorWindows::ERROR_SECUREBOOT_POLICY_NOT_AUTHORIZED => Some(4427),
            WinErrorWindows::ERROR_SECUREBOOT_POLICY_UNKNOWN => Some(4428),
            WinErrorWindows::ERROR_SECUREBOOT_POLICY_MISSING_ANTIROLLBACKVERSION => Some(4429),
            WinErrorWindows::ERROR_SECUREBOOT_PLATFORM_ID_MISMATCH => Some(4430),
            WinErrorWindows::ERROR_SECUREBOOT_POLICY_ROLLBACK_DETECTED => Some(4431),
            WinErrorWindows::ERROR_SECUREBOOT_POLICY_UPGRADE_MISMATCH => Some(4432),
            WinErrorWindows::ERROR_SECUREBOOT_REQUIRED_POLICY_FILE_MISSING => Some(4433),
            WinErrorWindows::ERROR_SECUREBOOT_NOT_BASE_POLICY => Some(4434),
            WinErrorWindows::ERROR_SECUREBOOT_NOT_SUPPLEMENTAL_POLICY => Some(4435),
            WinErrorWindows::ERROR_OFFLOAD_READ_FLT_NOT_SUPPORTED => Some(4440),
            WinErrorWindows::ERROR_OFFLOAD_WRITE_FLT_NOT_SUPPORTED => Some(4441),
            WinErrorWindows::ERROR_OFFLOAD_READ_FILE_NOT_SUPPORTED => Some(4442),
            WinErrorWindows::ERROR_OFFLOAD_WRITE_FILE_NOT_SUPPORTED => Some(4443),
            WinErrorWindows::ERROR_ALREADY_HAS_STREAM_ID => Some(4444),
            WinErrorWindows::ERROR_SMR_GARBAGE_COLLECTION_REQUIRED => Some(4445),
            WinErrorWindows::ERROR_WOF_WIM_HEADER_CORRUPT => Some(4446),
            WinErrorWindows::ERROR_WOF_WIM_RESOURCE_TABLE_CORRUPT => Some(4447),
            WinErrorWindows::ERROR_WOF_FILE_RESOURCE_TABLE_CORRUPT => Some(4448),
            WinErrorWindows::ERROR_VOLUME_NOT_SIS_ENABLED => Some(4500),
            WinErrorWindows::ERROR_SYSTEM_INTEGRITY_ROLLBACK_DETECTED => Some(4550),
            WinErrorWindows::ERROR_SYSTEM_INTEGRITY_POLICY_VIOLATION => Some(4551),
            WinErrorWindows::ERROR_SYSTEM_INTEGRITY_INVALID_POLICY => Some(4552),
            WinErrorWindows::ERROR_SYSTEM_INTEGRITY_POLICY_NOT_SIGNED => Some(4553),
            WinErrorWindows::ERROR_SYSTEM_INTEGRITY_TOO_MANY_POLICIES => Some(4554),
            WinErrorWindows::ERROR_SYSTEM_INTEGRITY_SUPPLEMENTAL_POLICY_NOT_AUTHORIZED => Some(4555),
            WinErrorWindows::ERROR_VSM_NOT_INITIALIZED => Some(4560),
            WinErrorWindows::ERROR_VSM_DMA_PROTECTION_NOT_IN_USE => Some(4561),
            WinErrorWindows::ERROR_PLATFORM_MANIFEST_NOT_AUTHORIZED => Some(4570),
            WinErrorWindows::ERROR_PLATFORM_MANIFEST_INVALID => Some(4571),
            WinErrorWindows::ERROR_PLATFORM_MANIFEST_FILE_NOT_AUTHORIZED => Some(4572),
            _ => None,
        }
    }

    /// One slice of the symbol table: the symbol this slice gives a
    /// raw value, where it holds one.
    pub open spec fn spec_from_u32_part28(raw: u32) -> Option<WinErrorWindows> {
        match raw {
            4351 => Some(WinErrorWindows::ERROR_REMOTE_STORAGE_NOT_ACTIVE),
            4352 => Some(WinErrorWindows::ERROR_REMOTE_STORAGE_MEDIA_ERROR),
            4390 => Some(WinErrorWindows::ERROR_NOT_A_REPARSE_POINT),
            4391 => Some(WinErrorWindows::ERROR_REPARSE_ATTRIBUTE_CONFLICT),
            4392 => Some(WinErrorWindows::ERROR_INVALID_REPARSE_DATA),
            4393 => Some(WinErrorWindows::ERROR_REPARSE_TAG_INVALID),
            4394 => Some(WinErrorWindows::ERROR_REPARSE_TAG_MISMATCH),
            4395 => Some(WinErrorWindows::ERROR_REPARSE_POINT_ENCOUNTERED),
            4400 => Some(WinErrorWindows::ERROR_APP_DATA_NOT_FOUND),
            4401 => Some(WinErrorWindows::ERROR_APP_DATA_EXPIRED),
            4402 => Some(WinErrorWindows::ERROR_APP_DATA_CORRUPT),
            4403 => Some(WinErrorWindows::ERROR_APP_DATA_LIMIT_EXCEEDED),
            4404 => Some(WinErrorWindows::ERROR_APP_DATA_REBOOT_REQUIRED),
            4420 => Some(WinErrorWindows::ERROR_SECUREBOOT_ROLLBACK_DETECTED),
            4421 => Some(WinErrorWindows::ERROR_SECUREBOOT_POLICY_VIOLATION),
            4422 => Some(WinErrorWindows::ERROR_SECUREBOOT_INVALID_POLICY),
            4423 => Some(WinErrorWindows::ERROR_SECUREBOOT_POLICY_PUBLISHER_NOT_FOUND),
            4424 => Some(WinErrorWindows::ERROR_SECUREBOOT_POLICY_NOT_SIGNED),
            4425 => Some(WinErrorWindows::ERROR_SECUREBOOT_NOT_ENABLED),
            4426 => Some(WinErrorWindows::ERROR_SECUREBOOT_FILE_REPLACED),
            4427 => Some(WinErrorWindows::ERROR_SECUREBOOT_POLICY_NOT_AUTHORIZED),
            4428 => Some(WinErrorWindows::ERROR_SECUREBOOT_POLICY_UNKNOWN),
            4429 => Some(WinErrorWindows::ERROR_SECUREBOOT_POLICY_MISSING_ANTIROLLBACKVERSION),
            4430 => Some(WinErrorWindows::ERROR_SECUREBOOT_PLATFORM_ID_MISMATCH),
            4431 => Some(WinErrorWindows::ERROR_SECUREBOOT_POLICY_ROLLBACK_DETECTED),
            4432 => Some(WinErrorWindows::ERROR_SECUREBOOT_POLICY_UPGRADE_MISMATCH),
            4433 => Some(WinErrorWindows::ERROR_SECUREBOOT_REQUIRED_POLICY_FILE_MISSING),
            4434 => Some(WinErrorWindows::ERROR_SECUREBOOT_NOT_BASE_POLICY),
            4435 => Some(WinErrorWindows::ERROR_SECUREBOOT_NOT_SUPPLEMENTAL_POLICY),
            4440 => Some(WinErrorWindows::ERROR_OFFLOAD_READ_FLT_NOT_SUPPORTED),
            4441 => Some(WinErrorWindows::ERROR_OFFLOAD_WRITE_FLT_NOT_SUPPORTED),
            4442 => Some(WinErrorWindows::ERROR_OFFLOAD_READ_FILE_NOT_SUPPORTED),
            4443 => Some(WinErrorWindows::ERROR_OFFLOAD_WRITE_FILE_NOT_SUPPORTED),
            4444 => Some(WinErrorWindows::ERROR_ALREADY_HAS_STREAM_ID),
            4445 => Some(WinErrorWindows::ERROR_SMR_GARBAGE_COLLECTION_REQUIRED),
            4446 => Some(WinErrorWindows::ERROR_WOF_WIM_HEADER_CORRUPT),
            4447 => Some(WinErrorWindows::ERROR_WOF_WIM_RESOURCE_TABLE_CORRUPT),
            4448 => Some(WinErrorWindows::ERROR_WOF_FILE_RESOURCE_TABLE_CORRUPT),
            4500 => Some(WinErrorWindows::ERROR_VOLUME_NOT_SIS_ENABLED),
            4550 => Some(WinErrorWindows::ERROR_SYSTEM_INTEGRITY_ROLLBACK_DETECTED),
            4551 => Some(WinErrorWindows::ERROR_SYSTEM_INTEGRITY_POLICY_VIOLATION),
            4552 => Some(WinErrorWindows::ERROR_SYSTEM_INTEGRITY_INVALID_POLICY),
            4553 => Some(WinErrorWindows::ERROR_SYSTEM_INTEGRITY_POLICY_NOT_SIGNED),
            4554 => Some(WinErrorWindows::ERROR_SYSTEM_INTEGRITY_TOO_MANY_POLICIES),
            4555 => Some(WinErrorWindows::ERROR_SYSTEM_INTEGRITY_SUPPLEMENTAL_POLICY_NOT_AUTHORIZED),
            4560 => Some(WinErrorWindows::ERROR_VSM_NOT_INITIALIZED),
            4561 => Some(WinErrorWindows::ERROR_VSM_DMA_PROTECTION_NOT_IN_USE),
            4570 => Some(WinErrorWindows::ERROR_PLATFORM_MANIFEST_NOT_AUTHORIZED),
            4571 => Some(WinErrorWindows::ERROR_PLATFORM_MANIFEST_INVALID),
            4572 => Some(WinErrorWindows::ERROR_PLATFORM_MANIFEST_FILE_NOT_AUTHORIZED),
            _ => None,
        }
    }

    /// One slice of the symbol table.
    #[verifier::spinoff_prover]
    #[verifier::rlimit(100)]
    fn to_u32_part28(self) -> (r: Option<u32>)
        ensures
            r == self.spec_to_u32_part28(),
    {
        match self {
            WinErrorWindows::ERROR_REMOTE_STORAGE_NOT_ACTIVE => Some(4351),
            WinErrorWindows::ERROR_REMOTE_STORAGE_MEDIA_ERROR => Some(4352),
            WinErrorWindows::ERROR_NOT_A_REPARSE_POINT => Some(4390),
            WinErrorWindows::ERROR_REPARSE_ATTRIBUTE_CONFLICT => Some(4391),
            WinErrorWindows::ERROR_INVALID_REPARSE_DATA => Some(4392),
            WinErrorWindows::ERROR_REPARSE_TAG_INVALID => Some(4393),
            WinErrorWindows::ERROR_REPARSE_TAG_MISMATCH => Some(4394),
            WinErrorWindows::ERROR_REPARSE_POINT_ENCOUNTERED => Some(4395),
            WinErrorWindows::ERROR_APP_DATA_NOT_FOUND => Some(4400),
            WinErrorWindows::ERROR_APP_DATA_EXPIRED => Some(4401),
            WinErrorWindows::ERROR_APP_DATA_CORRUPT => Some(4402),
            WinErrorWindows::ERROR_APP_DATA_LIMIT_EXCEEDED => Some(4403),
            WinErrorWindows::ERROR_APP_DATA_REBOOT_REQUIRED => Some(4404),
            WinErrorWindows::ERROR_SECUREBOOT_ROLLBACK_DETECTED => Some(4420),
            WinErrorWindows::ERROR_SECUREBOOT_POLICY_VIOLATION => Some(4421),
            WinErrorWindows::ERROR_SECUREBOOT_INVALID_POLICY => Some(4422),
            WinErrorWindows::ERROR_SECUREBOOT_POLICY_PUBLISHER_NOT_FOUND => Some(4423),
            WinErrorWindows::ERROR_SECUREBOOT_POLICY_NOT_SIGNED => Some(4424),
            WinErrorWindows::ERROR_SECUREBOOT_NOT_ENABLED => Some(4425),
            WinErrorWindows::ERROR_SECUREBOOT_FILE_REPLACED => Some(4426),
            WinErrorWindows::ERROR_SECUREBOOT_POLICY_NOT_AUTHORIZED => Some(4427),
            WinErrorWindows::ERROR_SECUREBOOT_POLICY_UNKNOWN => Some(4428),
            WinErrorWindows::ERROR_SECUREBOOT_POLICY_MISSING_ANTIROLLBACKVERSION => Some(4429),
            WinErrorWindows::ERROR_SECUREBOOT_PLATFORM_ID_MISMATCH => Some(4430),
            WinErrorWindows::ERROR_SECUREBOOT_POLICY_ROLLBACK_DETECTED => Some(4431),
            WinErrorWindows::ERROR_SECUREBOOT_POLICY_UPGRADE_MISMATCH => Some(4432),
            WinErrorWindows::ERROR_SECUREBOOT_REQUIRED_POLICY_FILE_MISSING => Some(4433),
            WinErrorWindows::ERROR_SECUREBOOT_NOT_BASE_POLICY => Some(4434),
            WinErrorWindows::ERROR_SECUREBOOT_NOT_SUPPLEMENTAL_POLICY => Some(4435),
            WinErrorWindows::ERROR_OFFLOAD_READ_FLT_NOT_SUPPORTED => Some(4440),
            WinErrorWindows::ERROR_OFFLOAD_WRITE_FLT_NOT_SUPPORTED => Some(4441),
            WinErrorWindows::ERROR_OFFLOAD_READ_FILE_NOT_SUPPORTED => Some(4442),
            WinErrorWindows::ERROR_OFFLOAD_WRITE_FILE_NOT_SUPPORTED => Some(4443),
            WinErrorWindows::ERROR_ALREADY_HAS_STREAM_ID => Some(4444),
            WinErrorWindows::ERROR_SMR_GARBAGE_COLLECTION_REQUIRED => Some(4445),
            WinErrorWindows::ERROR_WOF_WIM_HEADER_CORRUPT => Some(4446),
            WinErrorWindows::ERROR_WOF_WIM_RESOURCE_TABLE_CORRUPT => Some(4447),
            WinErrorWindows::ERROR_WOF_FILE_RESOURCE_TABLE_CORRUPT => Some(4448),
            WinErrorWindows::ERROR_VOLUME_NOT_SIS_ENABLED => Some(4500),
            WinErrorWindows::ERROR_SYSTEM_INTEGRITY_ROLLBACK_DETECTED => Some(4550),
            WinErrorWindows::ERROR_SYSTEM_INTEGRITY_POLICY_VIOLATION => Some(4551),
            WinErrorWindows::ERROR_SYSTEM_INTEGRITY_INVALID_POLICY => Some(4552),
            WinErrorWindows::ERROR_SYSTEM_INTEGRITY_POLICY_NOT_SIGNED => Some(4553),
            WinErrorWindows::ERROR_SYSTEM_INTEGRITY_TOO_MANY_POLICIES => Some(4554),
            WinErrorWindows::ERROR_SYSTEM_INTEGRITY_SUPPLEMENTAL_POLICY_NOT_AUTHORIZED => Some(4555),
            WinErrorWindows::ERROR_VSM_NOT_INITIALIZED => Some(4560),
            WinErrorWindows::ERROR_VSM_DMA_PROTECTION_NOT_IN_USE => Some(4561),
            WinErrorWindows::ERROR_PLATFORM_MANIFEST_NOT_AUTHORIZED => Some(4570),
            WinErrorWindows::ERROR_PLATFORM_MANIFEST_INVALID => Some(4571),
            WinErrorWindows::ERROR_PLATFORM_MANIFEST_FILE_NOT_AUTHORIZED => Some(4572),
            _ => None,
        }
    }

    /// One slice of the symbol table.
    #[verifier::spinoff_prover]
    #[verifier::rlimit(100)]
    fn from_u32_part28(raw: u32) -> (r: Option<WinErrorWindows>)
        ensures
            r == WinErrorWindows::spec_from_u32_part28(raw),
    {
        match raw {
            4351 => Some(WinErrorWindows::ERROR_REMOTE_STORAGE_NOT_ACTIVE),
            4352 => Some(WinErrorWindows::ERROR_REMOTE_STORAGE_MEDIA_ERROR),
            4390 => Some(WinErrorWindows::ERROR_NOT_A_REPARSE_POINT),
            4391 => Some(WinErrorWindows::ERROR_REPARSE_ATTRIBUTE_CONFLICT),
            4392 => Some(WinErrorWindows::ERROR_INVALID_REPARSE_DATA),
            4393 => Some(WinErrorWindows::ERROR_REPARSE_TAG_INVALID),
            4394 => Some(WinErrorWindows::ERROR_REPARSE_TAG_MISMATCH),
            4395 => Some(WinErrorWindows::ERROR_REPARSE_POINT_ENCOUNTERED),
            4400 => Some(WinErrorWindows::ERROR_APP_DATA_NOT_FOUND),
            4401 => Some(WinErrorWindows::ERROR_APP_DATA_EXPIRED),
            4402 => Some(WinErrorWindows::ERROR_APP_DATA_CORRUPT),
            4403 => Some(WinErrorWindows::ERROR_APP_DATA_LIMIT_EXCEEDED),
            4404 => Some(WinErrorWindows::ERROR_APP_DATA_REBOOT_REQUIRED),
            4420 => Some(WinErrorWindows::ERROR_SECUREBOOT_ROLLBACK_DETECTED),
            4421 => Some(WinErrorWindows::ERROR_SECUREBOOT_POLICY_VIOLATION),
            4422 => Some(WinErrorWindows::ERROR_SECUREBOOT_INVALID_POLICY),
            4423 => Some(WinErrorWindows::ERROR_SECUREBOOT_POLICY_PUBLISHER_NOT_FOUND),
            4424 => Some(WinErrorWindows::ERROR_SECUREBOOT_POLICY_NOT_SIGNED),
            4425 => Some(WinErrorWindows::ERROR_SECUREBOOT_NOT_ENABLED),
            4426 => Some(WinErrorWindows::ERROR_SECUREBOOT_FILE_REPLACED),
            4427 => Some(WinErrorWindows::ERROR_SECUREBOOT_POLICY_NOT_AUTHORIZED),
            4428 => Some(WinErrorWindows::ERROR_SECUREBOOT_POLICY_UNKNOWN),
            4429 => Some(WinErrorWindows::ERROR_SECUREBOOT_POLICY_MISSING_ANTIROLLBACKVERSION),
            4430 => Some(WinErrorWindows::ERROR_SECUREBOOT_PLATFORM_ID_MISMATCH),
            4431 => Some(WinErrorWindows::ERROR_SECUREBOOT_POLICY_ROLLBACK_DETECTED),
            4432 => Some(WinErrorWindows::ERROR_SECUREBOOT_POLICY_UPGRADE_MISMATCH),
            4433 => Some(WinErrorWindows::ERROR_SECUREBOOT_REQUIRED_POLICY_FILE_MISSING),
            4434 => Some(WinErrorWindows::ERROR_SECUREBOOT_NOT_BASE_POLICY),
            4435 => Some(WinErrorWindows::ERROR_SECUREBOOT_NOT_SUPPLEMENTAL_POLICY),
            4440 => Some(WinErrorWindows::ERROR_OFFLOAD_READ_FLT_NOT_SUPPORTED),
            4441 => Some(WinErrorWindows::ERROR_OFFLOAD_WRITE_FLT_NOT_SUPPORTED),
            4442 => Some(WinErrorWindows::ERROR_OFFLOAD_READ_FILE_NOT_SUPPORTED),
            4443 => Some(WinErrorWindows::ERROR_OFFLOAD_WRITE_FILE_NOT_SUPPORTED),
            4444 => Some(WinErrorWindows::ERROR_ALREADY_HAS_STREAM_ID),
            4445 => Some(WinErrorWindows::ERROR_SMR_GARBAGE_COLLECTION_REQUIRED),
            4446 => Some(WinErrorWindows::ERROR_WOF_WIM_HEADER_CORRUPT),
            4447 => Some(WinErrorWindows::ERROR_WOF_WIM_RESOURCE_TABLE_CORRUPT),
            4448 => Some(WinErrorWindows::ERROR_WOF_FILE_RESOURCE_TABLE_CORRUPT),
            4500 => Some(WinErrorWindows::ERROR_VOLUME_NOT_SIS_ENABLED),
            4550 => Some(WinErrorWindows::ERROR_SYSTEM_INTEGRITY_ROLLBACK_DETECTED),
            4551 => Some(WinErrorWindows::ERROR_SYSTEM_INTEGRITY_POLICY_VIOLATION),
            4552 => Some(WinErrorWindows::ERROR_SYSTEM_INTEGRITY_INVALID_POLICY),
            4553 => Some(WinErrorWindows::ERROR_SYSTEM_INTEGRITY_POLICY_NOT_SIGNED),
            4554 => Some(WinErrorWindows::ERROR_SYSTEM_INTEGRITY_TOO_MANY_POLICIES),
            4555 => Some(WinErrorWindows::ERROR_SYSTEM_INTEGRITY_SUPPLEMENTAL_POLICY_NOT_AUTHORIZED),
            4560 => Some(WinErrorWindows::ERROR_VSM_NOT_INITIALIZED),
            4561 => Some(WinErrorWindows::ERROR_VSM_DMA_PROTECTION_NOT_IN_USE),
            4570 => Some(WinErrorWindows::ERROR_PLATFORM_MANIFEST_NOT_AUTHORIZED),
            4571 => Some(WinErrorWindows::ERROR_PLATFORM_MANIFEST_INVALID),
            4572 => Some(WinErrorWindows::ERROR_PLATFORM_MANIFEST_FILE_NOT_AUTHORIZED),
            _ => None,
        }
    }

    /// One slice of the symbol table: the raw value of this symbol,
    /// where this slice holds it.
    pub open spec fn spec_to_u32_part29(self) -> Option<u32> {
        match self {
            WinErrorWindows::ERROR_PLATFORM_MANIFEST_CATALOG_NOT_AUTHORIZED => Some(4573),
            WinErrorWindows::ERROR_PLATFORM_MANIFEST_BINARY_ID_NOT_FOUND => Some(4574),
            WinErrorWindows::ERROR_PLATFORM_MANIFEST_NOT_ACTIVE => Some(4575),
            WinErrorWindows::ERROR_PLATFORM_MANIFEST_NOT_SIGNED => Some(4576),
            WinErrorWindows::ERROR_DEPENDENT_RESOURCE_EXISTS => Some(5001),
            WinErrorWindows::ERROR_DEPENDENCY_NOT_FOUND => Some(5002),
            WinErrorWindows::ERROR_DEPENDENCY_ALREADY_EXISTS => Some(5003),
            WinErrorWindows::ERROR_RESOURCE_NOT_ONLINE => Some(5004),
            WinErrorWindows::ERROR_HOST_NODE_NOT_AVAILABLE => Some(5005),
            WinErrorWindows::ERROR_RESOURCE_NOT_AVAILABLE => Some(5006),
            WinErrorWindows::ERROR_RESOURCE_NOT_FOUND => Some(5007),
            WinErrorWindows::ERROR_SHUTDOWN_CLUSTER => Some(5008),
            WinErrorWindows::ERROR_CANT_EVICT_ACTIVE_NODE => Some(5009),
            WinErrorWindows::ERROR_OBJECT_ALREADY_EXISTS => Some(5010),
            WinErrorWindows::ERROR_OBJECT_IN_LIST => Some(5011),
            WinErrorWindows::ERROR_GROUP_NOT_AVAILABLE => Some(5012),
            WinErrorWindows::ERROR_GROUP_NOT_FOUND => Some(5013),
            WinErrorWindows::ERROR_GROUP_NOT_ONLINE => Some(5014),
            WinErrorWindows::ERROR_HOST_NODE_NOT_RESOURCE_OWNER => Some(5015),
            WinErrorWindows::ERROR_HOST_NODE_NOT_GROUP_OWNER => Some(5016),
            WinErrorWindows::ERROR_RESMON_CREATE_FAILED => Some(5017),
            WinErrorWindows::ERROR_RESMON_ONLINE_FAILED => Some(5018),
            WinErrorWindows::ERROR_RESOURCE_ONLINE => Some(5019),
            WinErrorWindows::ERROR_QUORUM_RESOURCE => Some(5020),
            WinErrorWindows::ERROR_NOT_QUORUM_CAPABLE => Some(5021),
            WinErrorWindows::ERROR_CLUSTER_SHUTTING_DOWN => Some(5022),
            WinErrorWindows::ERROR_INVALID_STATE => Some(5023),
            WinErrorWindows::ERROR_RESOURCE_PROPERTIES_STORED => Some(5024),
            WinErrorWindows::ERROR_NOT_QUORUM_CLASS => Some(5025),
            WinErrorWindows::ERROR_CORE_RESOURCE => Some(5026),
            WinErrorWindows::ERROR_QUORUM_RESOURCE_ONLINE_FAILED => Some(5027),
            WinErrorWindows::ERROR_QUORUMLOG_OPEN_FAILED => Some(5028),
            WinErrorWindows::ERROR_CLUSTERLOG_CORRUPT => Some(5029),
            WinErrorWindows::ERROR_CLUSTERLOG_RECORD_EXCEEDS_MAXSIZE => Some(5030),
            WinErrorWindows::ERROR_CLUSTERLOG_EXCEEDS_MAXSIZE => Some(5031),
            WinErrorWindows::ERROR_CLUSTERLOG_CHKPOINT_NOT_FOUND => Some(5032),
            WinErrorWindows::ERROR_CLUSTERLOG_NOT_ENOUGH_SPACE => Some(5033),
            WinErrorWindows::ERROR_QUORUM_OWNER_ALIVE => Some(5034),
            WinErrorWindows::ERROR_NETWORK_NOT_AVAILABLE => Some(5035),
            WinErrorWindows::ERROR_NODE_NOT_AVAILABLE => Some(5036),
            WinErrorWindows::ERROR_ALL_NODES_NOT_AVAILABLE => Some(5037),
            WinErrorWindows::ERROR_RESOURCE_FAILED => Some(5038),
            WinErrorWindows::ERROR_CLUSTER_INVALID_NODE => Some(5039),
            WinErrorWindows::ERROR_CLUSTER_NODE_EXISTS => Some(5040),
            WinErrorWindows::ERROR_CLUSTER_JOIN_IN_PROGRESS => Some(5041),
            WinErrorWindows::ERROR_CLUSTER_NODE_NOT_FOUND => Some(5042),
            WinErrorWindows::ERROR_CLUSTER_LOCAL_NODE_NOT_FOUND => Some(5043),
            WinErrorWindows::ERROR_CLUSTER_NETWORK_EXISTS => Some(5044),
            WinErrorWindows::ERROR_CLUSTER_NETWORK_NOT_FOUND => Some(5045),
            WinErrorWindows::ERROR_CLUSTER_NETINTERFACE_EXISTS => Some(5046),
            _ => None,
        }
    }

    /// One slice of the symbol table: the symbol this slice gives a
    /// raw value, where it holds one.
    pub open spec fn spec_from_u32_part29(raw: u32) -> Option<WinErrorWindows> {
        match raw {
            4573 => Some(WinErrorWindows::ERROR_PLATFORM_MANIFEST_CATALOG_NOT_AUTHORIZED),
            4574 => Some(WinErrorWindows::ERROR_PLATFORM_MANIFEST_BINARY_ID_NOT_FOUND),
            4575 => Some(WinErrorWindows::ERROR_PLATFORM_MANIFEST_NOT_ACTIVE),
            4576 => Some(WinErrorWindows::ERROR_PLATFORM_MANIFEST_NOT_SIGNED),
            5001 => Some(WinErrorWindows::ERROR_DEPENDENT_RESOURCE_EXISTS),
            5002 => Some(WinErrorWindows::ERROR_DEPENDENCY_NOT_FOUND),
            5003 => Some(WinErrorWindows::ERROR_DEPENDENCY_ALREADY_EXISTS),
            5004 => Some(WinErrorWindows::ERROR_RESOURCE_NOT_ONLINE),
            5005 => Some(WinErrorWindows::ERROR_HOST_NODE_NOT_AVAILABLE),
            5006 => Some(WinErrorWindows::ERROR_RESOURCE_NOT_AVAILABLE),
            5007 => Some(WinErrorWindows::ERROR_RESOURCE_NOT_FOUND),
            5008 => Some(WinErrorWindows::ERROR_SHUTDOWN_CLUSTER),
            5009 => Some(WinErrorWindows::ERROR_CANT_EVICT_ACTIVE_NODE),
            5010 => Some(WinErrorWindows::ERROR_OBJECT_ALREADY_EXISTS),
            5011 => Some(WinErrorWindows::ERROR_OBJECT_IN_LIST),
            5012 => Some(WinErrorWindows::ERROR_GROUP_NOT_AVAILABLE),
            5013 => Some(WinErrorWindows::ERROR_GROUP_NOT_FOUND),
            5014 => Some(WinErrorWindows::ERROR_GROUP_NOT_ONLINE),
            5015 => Some(WinErrorWindows::ERROR_HOST_NODE_NOT_RESOURCE_OWNER),
            5016 => Some(WinErrorWindows::ERROR_HOST_NODE_NOT_GROUP_OWNER),
            5017 => Some(WinErrorWindows::ERROR_RESMON_CREATE_FAILED),
            5018 => Some(WinErrorWindows::ERROR_RESMON_ONLINE_FAILED),
            5019 => Some(WinErrorWindows::ERROR_RESOURCE_ONLINE),
            5020 => Some(WinErrorWindows::ERROR_QUORUM_RESOURCE),
            5021 => Some(WinErrorWindows::ERROR_NOT_QUORUM_CAPABLE),
            5022 => Some(WinErrorWindows::ERROR_CLUSTER_SHUTTING_DOWN),
            5023 => Some(WinErrorWindows::ERROR_INVALID_STATE),
            5024 => Some(WinErrorWindows::ERROR_RESOURCE_PROPERTIES_STORED),
            5025 => Some(WinErrorWindows::ERROR_NOT_QUORUM_CLASS),
            5026 => Some(WinErrorWindows::ERROR_CORE_RESOURCE),
            5027 => Some(WinErrorWindows::ERROR_QUORUM_RESOURCE_ONLINE_FAILED),
            5028 => Some(WinErrorWindows::ERROR_QUORUMLOG_OPEN_FAILED),
            5029 => Some(WinErrorWindows::ERROR_CLUSTERLOG_CORRUPT),
            5030 => Some(WinErrorWindows::ERROR_CLUSTERLOG_RECORD_EXCEEDS_MAXSIZE),
            5031 => Some(WinErrorWindows::ERROR_CLUSTERLOG_EXCEEDS_MAXSIZE),
            5032 => Some(WinErrorWindows::ERROR_CLUSTERLOG_CHKPOINT_NOT_FOUND),
            5033 => Some(WinErrorWindows::ERROR_CLUSTERLOG_NOT_ENOUGH_SPACE),
            5034 => Some(WinErrorWindows::ERROR_QUORUM_OWNER_ALIVE),
            5035 => Some(WinErrorWindows::ERROR_NETWORK_NOT_AVAILABLE),
            5036 => Some(WinErrorWindows::ERROR_NODE_NOT_AVAILABLE),
            5037 => Some(WinErrorWindows::ERROR_ALL_NODES_NOT_AVAILABLE),
            5038 => Some(WinErrorWindows::ERROR_RESOURCE_FAILED),
            5039 => Some(WinErrorWindows::ERROR_CLUSTER_INVALID_NODE),
            5040 => Some(WinErrorWindows::ERROR_CLUSTER_NODE_EXISTS),
            5041 => Some(WinErrorWindows::ERROR_CLUSTER_JOIN_IN_PROGRESS),
            5042 => Some(WinErrorWindows::ERROR_CLUSTER_NODE_NOT_FOUND),
            5043 => Some(WinErrorWindows::ERROR_CLUSTER_LOCAL_NODE_NOT_FOUND),
            5044 => Some(WinErrorWindows::ERROR_CLUSTER_NETWORK_EXISTS),
            5045 => Some(WinErrorWindows::ERROR_CLUSTER_NETWORK_NOT_FOUND),
            5046 => Some(WinErrorWindows::ERROR_CLUSTER_NETINTERFACE_EXISTS),
            _ => None,
        }
    }

    /// One slice of the symbol table.
    #[verifier::spinoff_prover]
    #[verifier::rlimit(100)]
    fn to_u32_part29(self) -> (r: Option<u32>)
        ensures
            r == self.spec_to_u32_part29(),
    {
        match self {
            WinErrorWindows::ERROR_PLATFORM_MANIFEST_CATALOG_NOT_AUTHORIZED => Some(4573),
            WinErrorWindows::ERROR_PLATFORM_MANIFEST_BINARY_ID_NOT_FOUND => Some(4574),
            WinErrorWindows::ERROR_PLATFORM_MANIFEST_NOT_ACTIVE => Some(4575),
            WinErrorWindows::ERROR_PLATFORM_MANIFEST_NOT_SIGNED => Some(4576),
            WinErrorWindows::ERROR_DEPENDENT_RESOURCE_EXISTS => Some(5001),
            WinErrorWindows::ERROR_DEPENDENCY_NOT_FOUND => Some(5002),
            WinErrorWindows::ERROR_DEPENDENCY_ALREADY_EXISTS => Some(5003),
            WinErrorWindows::ERROR_RESOURCE_NOT_ONLINE => Some(5004),
            WinErrorWindows::ERROR_HOST_NODE_NOT_AVAILABLE => Some(5005),
            WinErrorWindows::ERROR_RESOURCE_NOT_AVAILABLE => Some(5006),
            WinErrorWindows::ERROR_RESOURCE_NOT_FOUND => Some(5007),
            WinErrorWindows::ERROR_SHUTDOWN_CLUSTER => Some(5008),
            WinErrorWindows::ERROR_CANT_EVICT_ACTIVE_NODE => Some(5009),
            WinErrorWindows::ERROR_OBJECT_ALREADY_EXISTS => Some(5010),
            WinErrorWindows::ERROR_OBJECT_IN_LIST => Some(5011),
            WinErrorWindows::ERROR_GROUP_NOT_AVAILABLE => Some(5012),
            WinErrorWindows::ERROR_GROUP_NOT_FOUND => Some(5013),
            WinErrorWindows::ERROR_GROUP_NOT_ONLINE => Some(5014),
            WinErrorWindows::ERROR_HOST_NODE_NOT_RESOURCE_OWNER => Some(5015),
            WinErrorWindows::ERROR_HOST_NODE_NOT_GROUP_OWNER => Some(5016),
            WinErrorWindows::ERROR_RESMON_CREATE_FAILED => Some(5017),
            WinErrorWindows::ERROR_RESMON_ONLINE_FAILED => Some(5018),
            WinErrorWindows::ERROR_RESOURCE_ONLINE => Some(5019),
            WinErrorWindows::ERROR_QUORUM_RESOURCE => Some(5020),
            WinErrorWindows::ERROR_NOT_QUORUM_CAPABLE => Some(5021),
            WinErrorWindows::ERROR_CLUSTER_SHUTTING_DOWN => Some(5022),
            WinErrorWindows::ERROR_INVALID_STATE => Some(5023),
            WinErrorWindows::ERROR_RESOURCE_PROPERTIES_STORED => Some(5024),
            WinErrorWindows::ERROR_NOT_QUORUM_CLASS => Some(5025),
            WinErrorWindows::ERROR_CORE_RESOURCE => Some(5026),
            WinErrorWindows::ERROR_QUORUM_RESOURCE_ONLINE_FAILED => Some(5027),
            WinErrorWindows::ERROR_QUORUMLOG_OPEN_FAILED => Some(5028),
            WinErrorWindows::ERROR_CLUSTERLOG_CORRUPT => Some(5029),
            WinErrorWindows::ERROR_CLUSTERLOG_RECORD_EXCEEDS_MAXSIZE => Some(5030),
            WinErrorWindows::ERROR_CLUSTERLOG_EXCEEDS_MAXSIZE => Some(5031),
            WinErrorWindows::ERROR_CLUSTERLOG_CHKPOINT_NOT_FOUND => Some(5032),
            WinErrorWindows::ERROR_CLUSTERLOG_NOT_ENOUGH_SPACE => Some(5033),
            WinErrorWindows::ERROR_QUORUM_OWNER_ALIVE => Some(5034),
            WinErrorWindows::ERROR_NETWORK_NOT_AVAILABLE => Some(5035),
            WinErrorWindows::ERROR_NODE_NOT_AVAILABLE => Some(5036),
            WinErrorWindows::ERROR_ALL_NODES_NOT_AVAILABLE => Some(5037),
            WinErrorWindows::ERROR_RESOURCE_FAILED => Some(5038),
            WinErrorWindows::ERROR_CLUSTER_INVALID_NODE => Some(5039),
            WinErrorWindows::ERROR_CLUSTER_NODE_EXISTS => Some(5040),
            WinErrorWindows::ERROR_CLUSTER_JOIN_IN_PROGRESS => Some(5041),
            WinErrorWindows::ERROR_CLUSTER_NODE_NOT_FOUND => Some(5042),
            WinErrorWindows::ERROR_CLUSTER_LOCAL_NODE_NOT_FOUND => Some(5043),
            WinErrorWindows::ERROR_CLUSTER_NETWORK_EXISTS => Some(5044),
            WinErrorWindows::ERROR_CLUSTER_NETWORK_NOT_FOUND => Some(5045),
            WinErrorWindows::ERROR_CLUSTER_NETINTERFACE_EXISTS => Some(5046),
            _ => None,
        }
    }

    /// One slice of the symbol table.
    #[verifier::spinoff_prover]
    #[verifier::rlimit(100)]
    fn from_u32_part29(raw: u32) -> (r: Option<WinErrorWindows>)
        ensures
            r == WinErrorWindows::spec_from_u32_part29(raw),
    {
        match raw {
            4573 => Some(WinErrorWindows::ERROR_PLATFORM_MANIFEST_CATALOG_NOT_AUTHORIZED),
            4574 => Some(WinErrorWindows::ERROR_PLATFORM_MANIFEST_BINARY_ID_NOT_FOUND),
            4575 => Some(WinErrorWindows::ERROR_PLATFORM_MANIFEST_NOT_ACTIVE),
            4576 => Some(WinErrorWindows::ERROR_PLATFORM_MANIFEST_NOT_SIGNED),
            5001 => Some(WinErrorWindows::ERROR_DEPENDENT_RESOURCE_EXISTS),
            5002 => Some(WinErrorWindows::ERROR_DEPENDENCY_NOT_FOUND),
            5003 => Some(WinErrorWindows::ERROR_DEPENDENCY_ALREADY_EXISTS),
            5004 => Some(WinErrorWindows::ERROR_RESOURCE_NOT_ONLINE),
            5005 => Some(WinErrorWindows::ERROR_HOST_NODE_NOT_AVAILABLE),
            5006 => Some(WinErrorWindows::ERROR_RESOURCE_NOT_AVAILABLE),
            5007 => Some(WinErrorWindows::ERROR_RESOURCE_NOT_FOUND),
            5008 => Some(WinErrorWindows::ERROR_SHUTDOWN_CLUSTER),
            5009 => Some(WinErrorWindows::ERROR_CANT_EVICT_ACTIVE_NODE),
            5010 => Some(WinErrorWindows::ERROR_OBJECT_ALREADY_EXISTS),
            5011 => Some(WinErrorWindows::ERROR_OBJECT_IN_LIST),
            5012 => Some(WinErrorWindows::ERROR_GROUP_NOT_AVAILABLE),
            5013 => Some(WinErrorWindows::ERROR_GROUP_NOT_FOUND),
            5014 => Some(WinErrorWindows::ERROR_GROUP_NOT_ONLINE),
            5015 => Some(WinErrorWindows::ERROR_HOST_NODE_NOT_RESOURCE_OWNER),
            5016 => Some(WinErrorWindows::ERROR_HOST_NODE_NOT_GROUP_OWNER),
            5017 => Some(WinErrorWindows::ERROR_RESMON_CREATE_FAILED),
            5018 => Some(WinErrorWindows::ERROR_RESMON_ONLINE_FAILED),
            5019 => Some(WinErrorWindows::ERROR_RESOURCE_ONLINE),
            5020 => Some(WinErrorWindows::ERROR_QUORUM_RESOURCE),
            5021 => Some(WinErrorWindows::ERROR_NOT_QUORUM_CAPABLE),
            5022 => Some(WinErrorWindows::ERROR_CLUSTER_SHUTTING_DOWN),
            5023 => Some(WinErrorWindows::ERROR_INVALID_STATE),
            5024 => Some(WinErrorWindows::ERROR_RESOURCE_PROPERTIES_STORED),
            5025 => Some(WinErrorWindows::ERROR_NOT_QUORUM_CLASS),
            5026 => Some(WinErrorWindows::ERROR_CORE_RESOURCE),
            5027 => Some(WinErrorWindows::ERROR_QUORUM_RESOURCE_ONLINE_FAILED),
            5028 => Some(WinErrorWindows::ERROR_QUORUMLOG_OPEN_FAILED),
            5029 => Some(WinErrorWindows::ERROR_CLUSTERLOG_CORRUPT),
            5030 => Some(WinErrorWindows::ERROR_CLUSTERLOG_RECORD_EXCEEDS_MAXSIZE),
            5031 => Some(WinErrorWindows::ERROR_CLUSTERLOG_EXCEEDS_MAXSIZE),
            5032 => Some(WinErrorWindows::ERROR_CLUSTERLOG_CHKPOINT_NOT_FOUND),
            5033 => Some(WinErrorWindows::ERROR_CLUSTERLOG_NOT_ENOUGH_SPACE),
            5034 => Some(WinErrorWindows::ERROR_QUORUM_OWNER_ALIVE),
            5035 => Some(WinErrorWindows::ERROR_NETWORK_NOT_AVAILABLE),
            5036 => Some(WinErrorWindows::ERROR_NODE_NOT_AVAILABLE),
            5037 => Some(WinErrorWindows::ERROR_ALL_NODES_NOT_AVAILABLE),
            5038 => Some(WinErrorWindows::ERROR_RESOURCE_FAILED),
            5039 => Some(WinErrorWindows::ERROR_CLUSTER_INVALID_NODE),
            5040 => Some(WinErrorWindows::ERROR_CLUSTER_NODE_EXISTS),
            5041 => Some(WinErrorWindows::ERROR_CLUSTER_JOIN_IN_PROGRESS),
            5042 => Some(WinErrorWindows::ERROR_CLUSTER_NODE_NOT_FOUND),
            5043 => Some(WinErrorWindows::ERROR_CLUSTER_LOCAL_NODE_NOT_FOUND),
            5044 => Some(WinErrorWindows::ERROR_CLUSTER_NETWORK_EXISTS),
            5045 => Some(WinErrorWindows::ERROR_CLUSTER_NETWORK_NOT_FOUND),
            5046 => Some(WinErrorWindows::ERROR_CLUSTER_NETINTERFACE_EXISTS),
            _ => None,
        }
    }

    /// One slice of the symbol table: the raw value of this symbol,
    /// where this slice holds it.
    pub open spec fn spec_to_u32_part30(self) -> Option<u32> {
        match self {
            WinErrorWindows::ERROR_CLUSTER_NETINTERFACE_NOT_FOUND => Some(5047),
            WinErrorWindows::ERROR_CLUSTER_INVALID_REQUEST => Some(5048),
            WinErrorWindows::ERROR_CLUSTER_INVALID_NETWORK_PROVIDER => Some(5049),
            WinErrorWindows::ERROR_CLUSTER_NODE_DOWN => Some(5050),
            WinErrorWindows::ERROR_CLUSTER_NODE_UNREACHABLE => Some(5051),
            WinErrorWindows::ERROR_CLUSTER_NODE_NOT_MEMBER => Some(5052),
            WinErrorWindows::ERROR_CLUSTER_JOIN_NOT_IN_PROGRESS => Some(5053),
            WinErrorWindows::ERROR_CLUSTER_INVALID_NETWORK => Some(5054),
            WinErrorWindows::ERROR_CLUSTER_NODE_UP => Some(5056),
            WinErrorWindows::ERROR_CLUSTER_IPADDR_IN_USE => Some(5057),
            WinErrorWindows::ERROR_CLUSTER_NODE_NOT_PAUSED => Some(5058),
            WinErrorWindows::ERROR_CLUSTER_NO_SECURITY_CONTEXT => Some(5059),
            WinErrorWindows::ERROR_CLUSTER_NETWORK_NOT_INTERNAL => Some(5060),
            WinErrorWindows::ERROR_CLUSTER_NODE_ALREADY_UP => Some(5061),
            WinErrorWindows::ERROR_CLUSTER_NODE_ALREADY_DOWN => Some(5062),
            WinErrorWindows::ERROR_CLUSTER_NETWORK_ALREADY_ONLINE => Some(5063),
            WinErrorWindows::ERROR_CLUSTER_NETWORK_ALREADY_OFFLINE => Some(5064),
            WinErrorWindows::ERROR_CLUSTER_NODE_ALREADY_MEMBER => Some(5065),
            WinErrorWindows::ERROR_CLUSTER_LAST_INTERNAL_NETWORK => Some(5066),
            WinErrorWindows::ERROR_CLUSTER_NETWORK_HAS_DEPENDENTS => Some(5067),
            WinErrorWindows::ERROR_INVALID_OPERATION_ON_QUORUM => Some(5068),
            WinErrorWindows::ERROR_DEPENDENCY_NOT_ALLOWED => Some(5069),
            WinErrorWindows::ERROR_CLUSTER_NODE_PAUSED => Some(5070),
            WinErrorWindows::ERROR_NODE_CANT_HOST_RESOURCE => Some(5071),
            WinErrorWindows::ERROR_CLUSTER_NODE_NOT_READY => Some(5072),
            WinErrorWindows::ERROR_CLUSTER_NODE_SHUTTING_DOWN => Some(5073),
            WinErrorWindows::ERROR_CLUSTER_JOIN_ABORTED => Some(5074),
            WinErrorWindows::ERROR_CLUSTER_INCOMPATIBLE_VERSIONS => Some(5075),
            WinErrorWindows::ERROR_CLUSTER_MAXNUM_OF_RESOURCES_EXCEEDED => Some(5076),
            WinErrorWindows::ERROR_CLUSTER_SYSTEM_CONFIG_CHANGED => Some(5077),
            WinErrorWindows::ERROR_CLUSTER_RESOURCE_TYPE_NOT_FOUND => Some(5078),
            WinErrorWindows::ERROR_CLUSTER_RESTYPE_NOT_SUPPORTED => Some(5079),
            WinErrorWindows::ERROR_CLUSTER_RESNAME_NOT_FOUND => Some(5080),
            WinErrorWindows::ERROR_CLUSTER_NO_RPC_PACKAGES_REGISTERED => Some(5081),
            WinErrorWindows::ERROR_CLUSTER_OWNER_NOT_IN_PREFLIST => Some(5082),
            WinErrorWindows::ERROR_CLUSTER_DATABASE_SEQMISMATCH => Some(5083),
            WinErrorWindows::ERROR_RESMON_INVALID_STATE => Some(5084),
            WinErrorWindows::ERROR_CLUSTER_GUM_NOT_LOCKER => Some(5085),
            WinErrorWindows::ERROR_QUORUM_DISK_NOT_FOUND => Some(5086),
            WinErrorWindows::ERROR_DATABASE_BACKUP_CORRUPT => Some(5087),
            WinErrorWindows::ERROR_CLUSTER_NODE_ALREADY_HAS_DFS_ROOT => Some(5088),
            WinErrorWindows::ERROR_RESOURCE_PROPERTY_UNCHANGEABLE => Some(5089),
            WinErrorWindows::ERROR_NO_ADMIN_ACCESS_POINT => Some(5090),
            WinErrorWindows::ERROR_CLUSTER_MEMBERSHIP_INVALID_STATE => Some(5890),
            WinErrorWindows::ERROR_CLUSTER_QUORUMLOG_NOT_FOUND => Some(5891),
            WinErrorWindows::ERROR_CLUSTER_MEMBERSHIP_HALT => Some(5892),
            WinErrorWindows::ERROR_CLUSTER_INSTANCE_ID_MISMATCH => Some(5893),
            WinErrorWindows::ERROR_CLUSTER_NETWORK_NOT_FOUND_FOR_IP => Some(5894),
            WinErrorWindows::ERROR_CLUSTER_PROPERTY_DATA_TYPE_MISMATCH => Some(5895),
            WinErrorWindows::ERROR_CLUSTER_EVICT_WITHOUT_CLEANUP => Some(5896),
            _ => None,
        }
    }

    /// One slice of the symbol table: the symbol this slice gives a
    /// raw value, where it holds one.
    pub open spec fn spec_from_u32_part30(raw: u32) -> Option<WinErrorWindows> {
        match raw {
            5047 => Some(WinErrorWindows::ERROR_CLUSTER_NETINTERFACE_NOT_FOUND),
            5048 => Some(WinErrorWindows::ERROR_CLUSTER_INVALID_REQUEST),
            5049 => Some(WinErrorWindows::ERROR_CLUSTER_INVALID_NETWORK_PROVIDER),
            5050 => Some(WinErrorWindows::ERROR_CLUSTER_NODE_DOWN),
            5051 => Some(WinErrorWindows::ERROR_CLUSTER_NODE_UNREACHABLE),
            5052 => Some(WinErrorWindows::ERROR_CLUSTER_NODE_NOT_MEMBER),
            5053 => Some(WinErrorWindows::ERROR_CLUSTER_JOIN_NOT_IN_PROGRESS),
            5054 => Some(WinErrorWindows::ERROR_CLUSTER_INVALID_NETWORK),
            5056 => Some(WinErrorWindows::ERROR_CLUSTER_NODE_UP),
            5057 => Some(WinErrorWindows::ERROR_CLUSTER_IPADDR_IN_USE),
            5058 => Some(WinErrorWindows::ERROR_CLUSTER_NODE_NOT_PAUSED),
            5059 => Some(WinErrorWindows::ERROR_CLUSTER_NO_SECURITY_CONTEXT),
            5060 => Some(WinErrorWindows::ERROR_CLUSTER_NETWORK_NOT_INTERNAL),
            5061 => Some(WinErrorWindows::ERROR_CLUSTER_NODE_ALREADY_UP),
            5062 => Some(WinErrorWindows::ERROR_CLUSTER_NODE_ALREADY_DOWN),
            5063 => Some(WinErrorWindows::ERROR_CLUSTER_NETWORK_ALREADY_ONLINE),
            5064 => Some(WinErrorWindows::ERROR_CLUSTER_NETWORK_ALREADY_OFFLINE),
            5065 => Some(WinErrorWindows::ERROR_CLUSTER_NODE_ALREADY_MEMBER),
            5066 => Some(WinErrorWindows::ERROR_CLUSTER_LAST_INTERNAL_NETWORK),
            5067 => Some(WinErrorWindows::ERROR_CLUSTER_NETWORK_HAS_DEPENDENTS),
            5068 => Some(WinErrorWindows::ERROR_INVALID_OPERATION_ON_QUORUM),
            5069 => Some(WinErrorWindows::ERROR_DEPENDENCY_NOT_ALLOWED),
            5070 => Some(WinErrorWindows::ERROR_CLUSTER_NODE_PAUSED),
            5071 => Some(WinErrorWindows::ERROR_NODE_CANT_HOST_RESOURCE),
            5072 => Some(WinErrorWindows::ERROR_CLUSTER_NODE_NOT_READY),
            5073 => Some(WinErrorWindows::ERROR_CLUSTER_NODE_SHUTTING_DOWN),
            5074 => Some(WinErrorWindows::ERROR_CLUSTER_JOIN_ABORTED),
            5075 => Some(WinErrorWindows::ERROR_CLUSTER_INCOMPATIBLE_VERSIONS),
            5076 => Some(WinErrorWindows::ERROR_CLUSTER_MAXNUM_OF_RESOURCES_EXCEEDED),
            5077 => Some(WinErrorWindows::ERROR_CLUSTER_SYSTEM_CONFIG_CHANGED),
            5078 => Some(WinErrorWindows::ERROR_CLUSTER_RESOURCE_TYPE_NOT_FOUND),
            5079 => Some(WinErrorWindows::ERROR_CLUSTER_RESTYPE_NOT_SUPPORTED),
            5080 => Some(WinErrorWindows::ERROR_CLUSTER_RESNAME_NOT_FOUND),
            5081 => Some(WinErrorWindows::ERROR_CLUSTER_NO_RPC_PACKAGES_REGISTERED),
            5082 => Some(WinErrorWindows::ERROR_CLUSTER_OWNER_NOT_IN_PREFLIST),
            5083 => Some(WinErrorWindows::ERROR_CLUSTER_DATABASE_SEQMISMATCH),
            5084 => Some(WinErrorWindows::ERROR_RESMON_INVALID_STATE),
            5085 => Some(WinErrorWindows::ERROR_CLUSTER_GUM_NOT_LOCKER),
            5086 => Some(WinErrorWindows::ERROR_QUORUM_DISK_NOT_FOUND),
            5087 => Some(WinErrorWindows::ERROR_DATABASE_BACKUP_CORRUPT),
            5088 => Some(WinErrorWindows::ERROR_CLUSTER_NODE_ALREADY_HAS_DFS_ROOT),
            5089 => Some(WinErrorWindows::ERROR_RESOURCE_PROPERTY_UNCHANGEABLE),
            5090 => Some(WinErrorWindows::ERROR_NO_ADMIN_ACCESS_POINT),
            5890 => Some(WinErrorWindows::ERROR_CLUSTER_MEMBERSHIP_INVALID_STATE),
            5891 => Some(WinErrorWindows::ERROR_CLUSTER_QUORUMLOG_NOT_FOUND),
            5892 => Some(WinErrorWindows::ERROR_CLUSTER_MEMBERSHIP_HALT),
            5893 => Some(WinErrorWindows::ERROR_CLUSTER_INSTANCE_ID_MISMATCH),
            5894 => Some(WinErrorWindows::ERROR_CLUSTER_NETWORK_NOT_FOUND_FOR_IP),
            5895 => Some(WinErrorWindows::ERROR_CLUSTER_PROPERTY_DATA_TYPE_MISMATCH),
            5896 => Some(WinErrorWindows::ERROR_CLUSTER_EVICT_WITHOUT_CLEANUP),
            _ => None,
        }
    }

    /// One slice of the symbol table.
    #[verifier::spinoff_prover]
    #[verifier::rlimit(100)]
    fn to_u32_part30(self) -> (r: Option<u32>)
        ensures
            r == self.spec_to_u32_part30(),
    {
        match self {
            WinErrorWindows::ERROR_CLUSTER_NETINTERFACE_NOT_FOUND => Some(5047),
            WinErrorWindows::ERROR_CLUSTER_INVALID_REQUEST => Some(5048),
            WinErrorWindows::ERROR_CLUSTER_INVALID_NETWORK_PROVIDER => Some(5049),
            WinErrorWindows::ERROR_CLUSTER_NODE_DOWN => Some(5050),
            WinErrorWindows::ERROR_CLUSTER_NODE_UNREACHABLE => Some(5051),
            WinErrorWindows::ERROR_CLUSTER_NODE_NOT_MEMBER => Some(5052),
            WinErrorWindows::ERROR_CLUSTER_JOIN_NOT_IN_PROGRESS => Some(5053),
            WinErrorWindows::ERROR_CLUSTER_INVALID_NETWORK => Some(5054),
            WinErrorWindows::ERROR_CLUSTER_NODE_UP => Some(5056),
            WinErrorWindows::ERROR_CLUSTER_IPADDR_IN_USE => Some(5057),
            WinErrorWindows::ERROR_CLUSTER_NODE_NOT_PAUSED => Some(5058),
            WinErrorWindows::ERROR_CLUSTER_NO_SECURITY_CONTEXT => Some(5059),
            WinErrorWindows::ERROR_CLUSTER_NETWORK_NOT_INTERNAL => Some(5060),
            WinErrorWindows::ERROR_CLUSTER_NODE_ALREADY_UP => Some(5061),
            WinErrorWindows::ERROR_CLUSTER_NODE_ALREADY_DOWN => Some(5062),
            WinErrorWindows::ERROR_CLUSTER_NETWORK_ALREADY_ONLINE => Some(5063),
            WinErrorWindows::ERROR_CLUSTER_NETWORK_ALREADY_OFFLINE => Some(5064),
            WinErrorWindows::ERROR_CLUSTER_NODE_ALREADY_MEMBER => Some(5065),
            WinErrorWindows::ERROR_CLUSTER_LAST_INTERNAL_NETWORK => Some(5066),
            WinErrorWindows::ERROR_CLUSTER_NETWORK_HAS_DEPENDENTS => Some(5067),
            WinErrorWindows::ERROR_INVALID_OPERATION_ON_QUORUM => Some(5068),
            WinErrorWindows::ERROR_DEPENDENCY_NOT_ALLOWED => Some(5069),
            WinErrorWindows::ERROR_CLUSTER_NODE_PAUSED => Some(5070),
            WinErrorWindows::ERROR_NODE_CANT_HOST_RESOURCE => Some(5071),
            WinErrorWindows::ERROR_CLUSTER_NODE_NOT_READY => Some(5072),
            WinErrorWindows::ERROR_CLUSTER_NODE_SHUTTING_DOWN => Some(5073),
            WinErrorWindows::ERROR_CLUSTER_JOIN_ABORTED => Some(5074),
            WinErrorWindows::ERROR_CLUSTER_INCOMPATIBLE_VERSIONS => Some(5075),
            WinErrorWindows::ERROR_CLUSTER_MAXNUM_OF_RESOURCES_EXCEEDED => Some(5076),
            WinErrorWindows::ERROR_CLUSTER_SYSTEM_CONFIG_CHANGED => Some(5077),
            WinErrorWindows::ERROR_CLUSTER_RESOURCE_TYPE_NOT_FOUND => Some(5078),
            WinErrorWindows::ERROR_CLUSTER_RESTYPE_NOT_SUPPORTED => Some(5079),
            WinErrorWindows::ERROR_CLUSTER_RESNAME_NOT_FOUND => Some(5080),
            WinErrorWindows::ERROR_CLUSTER_NO_RPC_PACKAGES_REGISTERED => Some(5081),
            WinErrorWindows::ERROR_CLUSTER_OWNER_NOT_IN_PREFLIST => Some(5082),
            WinErrorWindows::ERROR_CLUSTER_DATABASE_SEQMISMATCH => Some(5083),
            WinErrorWindows::ERROR_RESMON_INVALID_STATE => Some(5084),
            WinErrorWindows::ERROR_CLUSTER_GUM_NOT_LOCKER => Some(5085),
            WinErrorWindows::ERROR_QUORUM_DISK_NOT_FOUND => Some(5086),
            WinErrorWindows::ERROR_DATABASE_BACKUP_CORRUPT => Some(5087),
            WinErrorWindows::ERROR_CLUSTER_NODE_ALREADY_HAS_DFS_ROOT => Some(5088),
            WinErrorWindows::ERROR_RESOURCE_PROPERTY_UNCHANGEABLE => Some(5089),
            WinErrorWindows::ERROR_NO_ADMIN_ACCESS_POINT => Some(5090),
            WinErrorWindows::ERROR_CLUSTER_MEMBERSHIP_INVALID_STATE => Some(5890),
            WinErrorWindows::ERROR_CLUSTER_QUORUMLOG_NOT_FOUND => Some(5891),
            WinErrorWindows::ERROR_CLUSTER_MEMBERSHIP_HALT => Some(5892),
            WinErrorWindows::ERROR_CLUSTER_INSTANCE_ID_MISMATCH => Some(5893),
            WinErrorWindows::ERROR_CLUSTER_NETWORK_NOT_FOUND_FOR_IP => Some(5894),
            WinErrorWindows::ERROR_CLUSTER_PROPERTY_DATA_TYPE_MISMATCH => Some(5895),
            WinErrorWindows::ERROR_CLUSTER_EVICT_WITHOUT_CLEANUP => Some(5896),
            _ => None,
        }
    }

    /// One slice of the symbol table.
    #[verifier::spinoff_prover]
    #[verifier::rlimit(100)]
    fn from_u32_part30(raw: u32) -> (r: Option<WinErrorWindows>)
        ensures
            r == WinErrorWindows::spec_from_u32_part30(raw),
    {
        match raw {
            5047 => Some(WinErrorWindows::ERROR_CLUSTER_NETINTERFACE_NOT_FOUND),
            5048 => Some(WinErrorWindows::ERROR_CLUSTER_INVALID_REQUEST),
            5049 => Some(WinErrorWindows::ERROR_CLUSTER_INVALID_NETWORK_PROVIDER),
            5050 => Some(WinErrorWindows::ERROR_CLUSTER_NODE_DOWN),
            5051 => Some(WinErrorWindows::ERROR_CLUSTER_NODE_UNREACHABLE),
            5052 => Some(WinErrorWindows::ERROR_CLUSTER_NODE_NOT_MEMBER),
            5053 => Some(WinErrorWindows::ERROR_CLUSTER_JOIN_NOT_IN_PROGRESS),
            5054 => Some(WinErrorWindows::ERROR_CLUSTER_INVALID_NETWORK),
            5056 => Some(WinErrorWindows::ERROR_CLUSTER_NODE_UP),
            5057 => Some(WinErrorWindows::ERROR_CLUSTER_IPADDR_IN_USE),
            5058 => Some(WinErrorWindows::ERROR_CLUSTER_NODE_NOT_PAUSED),
            5059 => Some(WinErrorWindows::ERROR_CLUSTER_NO_SECURITY_CONTEXT),
            5060 => Some(WinErrorWindows::ERROR_CLUSTER_NETWORK_NOT_INTERNAL),
            5061 => Some(WinErrorWindows::ERROR_CLUSTER_NODE_ALREADY_UP),
            5062 => Some(WinErrorWindows::ERROR_CLUSTER_NODE_ALREADY_DOWN),
            5063 => Some(WinErrorWindows::ERROR_CLUSTER_NETWORK_ALREADY_ONLINE),
            5064 => Some(WinErrorWindows::ERROR_CLUSTER_NETWORK_ALREADY_OFFLINE),
            5065 => Some(WinErrorWindows::ERROR_CLUSTER_NODE_ALREADY_MEMBER),
            5066 => Some(WinErrorWindows::ERROR_CLUSTER_LAST_INTERNAL_NETWORK),
            5067 => Some(WinErrorWindows::ERROR_CLUSTER_NETWORK_HAS_DEPENDENTS),
            5068 => Some(WinErrorWindows::ERROR_INVALID_OPERATION_ON_QUORUM),
            5069 => Some(WinErrorWindows::ERROR_DEPENDENCY_NOT_ALLOWED),
            5070 => Some(WinErrorWindows::ERROR_CLUSTER_NODE_PAUSED),
            5071 => Some(WinErrorWindows::ERROR_NODE_CANT_HOST_RESOURCE),
            5072 => Some(WinErrorWindows::ERROR_CLUSTER_NODE_NOT_READY),
            5073 => Some(WinErrorWindows::ERROR_CLUSTER_NODE_SHUTTING_DOWN),
            5074 => Some(WinErrorWindows::ERROR_CLUSTER_JOIN_ABORTED),
            5075 => Some(WinErrorWindows::ERROR_CLUSTER_INCOMPATIBLE_VERSIONS),
            5076 => Some(WinErrorWindows::ERROR_CLUSTER_MAXNUM_OF_RESOURCES_EXCEEDED),
            5077 => Some(WinErrorWindows::ERROR_CLUSTER_SYSTEM_CONFIG_CHANGED),
            5078 => Some(WinErrorWindows::ERROR_CLUSTER_RESOURCE_TYPE_NOT_FOUND),
            5079 => Some(WinErrorWindows::ERROR_CLUSTER_RESTYPE_NOT_SUPPORTED),
            5080 => Some(WinErrorWindows::ERROR_CLUSTER_RESNAME_NOT_FOUND),
            5081 => Some(WinErrorWindows::ERROR_CLUSTER_NO_RPC_PACKAGES_REGISTERED),
            5082 => Some(WinErrorWindows::ERROR_CLUSTER_OWNER_NOT_IN_PREFLIST),
            5083 => Some(WinErrorWindows::ERROR_CLUSTER_DATABASE_SEQMISMATCH),
            5084 => Some(WinErrorWindows::ERROR_RESMON_INVALID_STATE),
            5085 => Some(WinErrorWindows::ERROR_CLUSTER_GUM_NOT_LOCKER),
            5086 => Some(WinErrorWindows::ERROR_QUORUM_DISK_NOT_FOUND),
            5087 => Some(WinErrorWindows::ERROR_DATABASE_BACKUP_CORRUPT),
            5088 => Some(WinErrorWindows::ERROR_CLUSTER_NODE_ALREADY_HAS_DFS_ROOT),
            5089 => Some(WinErrorWindows::ERROR_RESOURCE_PROPERTY_UNCHANGEABLE),
            5090 => Some(WinErrorWindows::ERROR_NO_ADMIN_ACCESS_POINT),
            5890 => Some(WinErrorWindows::ERROR_CLUSTER_MEMBERSHIP_INVALID_STATE),
            5891 => Some(WinErrorWindows::ERROR_CLUSTER_QUORUMLOG_NOT_FOUND),
            5892 => Some(WinErrorWindows::ERROR_CLUSTER_MEMBERSHIP_HALT),
            5893 => Some(WinErrorWindows::ERROR_CLUSTER_INSTANCE_ID_MISMATCH),
            5894 => Some(WinErrorWindows::ERROR_CLUSTER_NETWORK_NOT_FOUND_FOR_IP),
            5895 => Some(WinErrorWindows::ERROR_CLUSTER_PROPERTY_DATA_TYPE_MISMATCH),
            5896 => Some(WinErrorWindows::ERROR_CLUSTER_EVICT_WITHOUT_CLEANUP),
            _ => None,
        }
    }

    /// One slice of the symbol table: the raw value of this symbol,
    /// where this slice holds it.
    pub open spec fn spec_to_u32_part31(self) -> Option<u32> {
        match self {
            WinErrorWindows::ERROR_CLUSTER_PARAMETER_MISMATCH => Some(5897),
            WinErrorWindows::ERROR_NODE_CANNOT_BE_CLUSTERED => Some(5898),
            WinErrorWindows::ERROR_CLUSTER_WRONG_OS_VERSION => Some(5899),
            WinErrorWindows::ERROR_CLUSTER_CANT_CREATE_DUP_CLUSTER_NAME => Some(5900),
            WinErrorWindows::ERROR_CLUSCFG_ALREADY_COMMITTED => Some(5901),
            WinErrorWindows::ERROR_CLUSCFG_ROLLBACK_FAILED => Some(5902),
            WinErrorWindows::ERROR_CLUSCFG_SYSTEM_DISK_DRIVE_LETTER_CONFLICT => Some(5903),
            WinErrorWindows::ERROR_CLUSTER_OLD_VERSION => Some(5904),
            WinErrorWindows::ERROR_CLUSTER_MISMATCHED_COMPUTER_ACCT_NAME => Some(5905),
            WinErrorWindows::ERROR_CLUSTER_NO_NET_ADAPTERS => Some(5906),
            WinErrorWindows::ERROR_CLUSTER_POISONED => Some(5907),
            WinErrorWindows::ERROR_CLUSTER_GROUP_MOVING => Some(5908),
            WinErrorWindows::ERROR_CLUSTER_RESOURCE_TYPE_BUSY => Some(5909),
            WinErrorWindows::ERROR_RESOURCE_CALL_TIMED_OUT => Some(5910),
            WinErrorWindows::ERROR_INVALID_CLUSTER_IPV6_ADDRESS => Some(5911),
            WinErrorWindows::ERROR_CLUSTER_INTERNAL_INVALID_FUNCTION => Some(5912),
            WinErrorWindows::ERROR_CLUSTER_PARAMETER_OUT_OF_BOUNDS => Some(5913),
            WinErrorWindows::ERROR_CLUSTER_PARTIAL_SEND => Some(5914),
            WinErrorWindows::ERROR_CLUSTER_REGISTRY_INVALID_FUNCTION => Some(5915),
            WinErrorWindows::ERROR_CLUSTER_INVALID_STRING_TERMINATION => Some(5916),
            WinErrorWindows::ERROR_CLUSTER_INVALID_STRING_FORMAT => Some(5917),
            WinErrorWindows::ERROR_CLUSTER_DATABASE_TRANSACTION_IN_PROGRESS => Some(5918),
            WinErrorWindows::ERROR_CLUSTER_DATABASE_TRANSACTION_NOT_IN_PROGRESS => Some(5919),
            WinErrorWindows::ERROR_CLUSTER_NULL_DATA => Some(5920),
            WinErrorWindows::ERROR_CLUSTER_PARTIAL_READ => Some(5921),
            WinErrorWindows::ERROR_CLUSTER_PARTIAL_WRITE => Some(5922),
            WinErrorWindows::ERROR_CLUSTER_CANT_DESERIALIZE_DATA => Some(5923),
            WinErrorWindows::ERROR_DEPENDENT_RESOURCE_PROPERTY_CONFLICT => Some(5924),
            WinErrorWindows::ERROR_CLUSTER_NO_QUORUM => Some(5925),
            WinErrorWindows::ERROR_CLUSTER_INVALID_IPV6_NETWORK => Some(5926),
            WinErrorWindows::ERROR_CLUSTER_INVALID_IPV6_TUNNEL_NETWORK => Some(5927),
            WinErrorWindows::ERROR_QUORUM_NOT_ALLOWED_IN_THIS_GROUP => Some(5928),
            WinErrorWindows::ERROR_DEPENDENCY_TREE_TOO_COMPLEX => Some(5929),
            WinErrorWindows::ERROR_EXCEPTION_IN_RESOURCE_CALL => Some(5930),
            WinErrorWindows::ERROR_CLUSTER_RHS_FAILED_INITIALIZATION => Some(5931),
            WinErrorWindows::ERROR_CLUSTER_NOT_INSTALLED => Some(5932),
            WinErrorWindows::ERROR_CLUSTER_RESOURCES_MUST_BE_ONLINE_ON_THE_SAME_NODE => Some(5933),
            WinErrorWindows::ERROR_CLUSTER_MAX_NODES_IN_CLUSTER => Some(5934),
            WinErrorWindows::ERROR_CLUSTER_TOO_MANY_NODES => Some(5935),
            WinErrorWindows::ERROR_CLUSTER_OBJECT_ALREADY_USED => Some(5936),
            WinErrorWindows::ERROR_NONCORE_GROUPS_FOUND => Some(5937),
            WinErrorWindows::ERROR_FILE_SHARE_RESOURCE_CONFLICT => Some(5938),
            WinErrorWindows::ERROR_CLUSTER_EVICT_INVALID_REQUEST => Some(5939),
            WinErrorWindows::ERROR_CLUSTER_SINGLETON_RESOURCE => Some(5940),
            WinErrorWindows::ERROR_CLUSTER_GROUP_SINGLETON_RESOURCE => Some(5941),
            WinErrorWindows::ERROR_CLUSTER_RESOURCE_PROVIDER_FAILED => Some(5942),
            WinErrorWindows::ERROR_CLUSTER_RESOURCE_CONFIGURATION_ERROR => Some(5943),
            WinErrorWindows::ERROR_CLUSTER_GROUP_BUSY => Some(5944),
            WinErrorWindows::ERROR_CLUSTER_NOT_SHARED_VOLUME => Some(5945),
            WinErrorWindows::ERROR_CLUSTER_INVALID_SECURITY_DESCRIPTOR => Some(5946),
            _ => None,
        }
    }

    /// One slice of the symbol table: the symbol this slice gives a
    /// raw value, where it holds one.
    pub open spec fn spec_from_u32_part31(raw: u32) -> Option<WinErrorWindows> {
        match raw {
            5897 => Some(WinErrorWindows::ERROR_CLUSTER_PARAMETER_MISMATCH),
            5898 => Some(WinErrorWindows::ERROR_NODE_CANNOT_BE_CLUSTERED),
            5899 => Some(WinErrorWindows::ERROR_CLUSTER_WRONG_OS_VERSION),
            5900 => Some(WinErrorWindows::ERROR_CLUSTER_CANT_CREATE_DUP_CLUSTER_NAME),
            5901 => Some(WinErrorWindows::ERROR_CLUSCFG_ALREADY_COMMITTED),
            5902 => Some(WinErrorWindows::ERROR_CLUSCFG_ROLLBACK_FAILED),
            5903 => Some(WinErrorWindows::ERROR_CLUSCFG_SYSTEM_DISK_DRIVE_LETTER_CONFLICT),
            5904 => Some(WinErrorWindows::ERROR_CLUSTER_OLD_VERSION),
            5905 => Some(WinErrorWindows::ERROR_CLUSTER_MISMATCHED_COMPUTER_ACCT_NAME),
            5906 => Some(WinErrorWindows::ERROR_CLUSTER_NO_NET_ADAPTERS),
            5907 => Some(WinErrorWindows::ERROR_CLUSTER_POISONED),
            5908 => Some(WinErrorWindows::ERROR_CLUSTER_GROUP_MOVING),
            5909 => Some(WinErrorWindows::ERROR_CLUSTER_RESOURCE_TYPE_BUSY),
            5910 => Some(WinErrorWindows::ERROR_RESOURCE_CALL_TIMED_OUT),
            5911 => Some(WinErrorWindows::ERROR_INVALID_CLUSTER_IPV6_ADDRESS),
            5912 => Some(WinErrorWindows::ERROR_CLUSTER_INTERNAL_INVALID_FUNCTION),
            5913 => Some(WinErrorWindows::ERROR_CLUSTER_PARAMETER_OUT_OF_BOUNDS),
            5914 => Some(WinErrorWindows::ERROR_CLUSTER_PARTIAL_SEND),
            5915 => Some(WinErrorWindows::ERROR_CLUSTER_REGISTRY_INVALID_FUNCTION),
            5916 => Some(WinErrorWindows::ERROR_CLUSTER_INVALID_STRING_TERMINATION),
            5917 => Some(WinErrorWindows::ERROR_CLUSTER_INVALID_STRING_FORMAT),
            5918 => Some(WinErrorWindows::ERROR_CLUSTER_DATABASE_TRANSACTION_IN_PROGRESS),
            5919 => Some(WinErrorWindows::ERROR_CLUSTER_DATABASE_TRANSACTION_NOT_IN_PROGRESS),
            5920 => Some(WinErrorWindows::ERROR_CLUSTER_NULL_DATA),
            5921 => Some(WinErrorWindows::ERROR_CLUSTER_PARTIAL_READ),
            5922 => Some(WinErrorWindows::ERROR_CLUSTER_PARTIAL_WRITE),
            5923 => Some(WinErrorWindows::ERROR_CLUSTER_CANT_DESERIALIZE_DATA),
            5924 => Some(WinErrorWindows::ERROR_DEPENDENT_RESOURCE_PROPERTY_CONFLICT),
            5925 => Some(WinErrorWindows::ERROR_CLUSTER_NO_QUORUM),
            5926 => Some(WinErrorWindows::ERROR_CLUSTER_INVALID_IPV6_NETWORK),
            5927 => Some(WinErrorWindows::ERROR_CLUSTER_INVALID_IPV6_TUNNEL_NETWORK),
            5928 => Some(WinErrorWindows::ERROR_QUORUM_NOT_ALLOWED_IN_THIS_GROUP),
            5929 => Some(WinErrorWindows::ERROR_DEPENDENCY_TREE_TOO_COMPLEX),
            5930 => Some(WinErrorWindows::ERROR_EXCEPTION_IN_RESOURCE_CALL),
            5931 => Some(WinErrorWindows::ERROR_CLUSTER_RHS_FAILED_INITIALIZATION),
            5932 => Some(WinErrorWindows::ERROR_CLUSTER_NOT_INSTALLED),
            5933 => Some(WinErrorWindows::ERROR_CLUSTER_RESOURCES_MUST_BE_ONLINE_ON_THE_SAME_NODE),
            5934 => Some(WinErrorWindows::ERROR_CLUSTER_MAX_NODES_IN_CLUSTER),
            5935 => Some(WinErrorWindows::ERROR_CLUSTER_TOO_MANY_NODES),
            5936 => Some(WinErrorWindows::ERROR_CLUSTER_OBJECT_ALREADY_USED),
            5937 => Some(WinErrorWindows::ERROR_NONCORE_GROUPS_FOUND),
            5938 => Some(WinErrorWindows::ERROR_FILE_SHARE_RESOURCE_CONFLICT),
            5939 => Some(WinErrorWindows::ERROR_CLUSTER_EVICT_INVALID_REQUEST),
            5940 => Some(WinErrorWindows::ERROR_CLUSTER_SINGLETON_RESOURCE),
            5941 => Some(WinErrorWindows::ERROR_CLUSTER_GROUP_SINGLETON_RESOURCE),
            5942 => Some(WinErrorWindows::ERROR_CLUSTER_RESOURCE_PROVIDER_FAILED),
            5943 => Some(WinErrorWindows::ERROR_CLUSTER_RESOURCE_CONFIGURATION_ERROR),
            5944 => Some(WinErrorWindows::ERROR_CLUSTER_GROUP_BUSY),
            5945 => Some(WinErrorWindows::ERROR_CLUSTER_NOT_SHARED_VOLUME),
            5946 => Some(WinErrorWindows::ERROR_CLUSTER_INVALID_SECURITY_DESCRIPTOR),
            _ => None,
        }
    }

    /// One slice of the symbol table.
    #[verifier::spinoff_prover]
    #[verifier::rlimit(100)]
    fn to_u32_part31(self) -> (r: Option<u32>)
        ensures
            r == self.spec_to_u32_part31(),
    {
        match self {
            WinErrorWindows::ERROR_CLUSTER_PARAMETER_MISMATCH => Some(5897),
            WinErrorWindows::ERROR_NODE_CANNOT_BE_CLUSTERED => Some(5898),
            WinErrorWindows::ERROR_CLUSTER_WRONG_OS_VERSION => Some(5899),
            WinErrorWindows::ERROR_CLUSTER_CANT_CREATE_DUP_CLUSTER_NAME => Some(5900),
            WinErrorWindows::ERROR_CLUSCFG_ALREADY_COMMITTED => Some(5901),
            WinErrorWindows::ERROR_CLUSCFG_ROLLBACK_FAILED => Some(5902),
            WinErrorWindows::ERROR_CLUSCFG_SYSTEM_DISK_DRIVE_LETTER_CONFLICT => Some(5903),
            WinErrorWindows::ERROR_CLUSTER_OLD_VERSION => Some(5904),
            WinErrorWindows::ERROR_CLUSTER_MISMATCHED_COMPUTER_ACCT_NAME => Some(5905),
            WinErrorWindows::ERROR_CLUSTER_NO_NET_ADAPTERS => Some(5906),
            WinErrorWindows::ERROR_CLUSTER_POISONED => Some(5907),
            WinErrorWindows::ERROR_CLUSTER_GROUP_MOVING => Some(5908),
            WinErrorWindows::ERROR_CLUSTER_RESOURCE_TYPE_BUSY => Some(5909),
            WinErrorWindows::ERROR_RESOURCE_CALL_TIMED_OUT => Some(5910),
            WinErrorWindows::ERROR_INVALID_CLUSTER_IPV6_ADDRESS => Some(5911),
            WinErrorWindows::ERROR_CLUSTER_INTERNAL_INVALID_FUNCTION => Some(5912),
            WinErrorWindows::ERROR_CLUSTER_PARAMETER_OUT_OF_BOUNDS => Some(5913),
            WinErrorWindows::ERROR_CLUSTER_PARTIAL_SEND => Some(5914),
            WinErrorWindows::ERROR_CLUSTER_REGISTRY_INVALID_FUNCTION => Some(5915),
            WinErrorWindows::ERROR_CLUSTER_INVALID_STRING_TERMINATION => Some(5916),
            WinErrorWindows::ERROR_CLUSTER_INVALID_STRING_FORMAT => Some(5917),
            WinErrorWindows::ERROR_CLUSTER_DATABASE_TRANSACTION_IN_PROGRESS => Some(5918),
            WinErrorWindows::ERROR_CLUSTER_DATABASE_TRANSACTION_NOT_IN_PROGRESS => Some(5919),
            WinErrorWindows::ERROR_CLUSTER_NULL_DATA => Some(5920),
            WinErrorWindows::ERROR_CLUSTER_PARTIAL_READ => Some(5921),
            WinErrorWindows::ERROR_CLUSTER_PARTIAL_WRITE => Some(5922),
            WinErrorWindows::ERROR_CLUSTER_CANT_DESERIALIZE_DATA => Some(5923),
            WinErrorWindows::ERROR_DEPENDENT_RESOURCE_PROPERTY_CONFLICT => Some(5924),
            WinErrorWindows::ERROR_CLUSTER_NO_QUORUM => Some(5925),
            WinErrorWindows::ERROR_CLUSTER_INVALID_IPV6_NETWORK => Some(5926),
            WinErrorWindows::ERROR_CLUSTER_INVALID_IPV6_TUNNEL_NETWORK => Some(5927),
            WinErrorWindows::ERROR_QUORUM_NOT_ALLOWED_IN_THIS_GROUP => Some(5928),
            WinErrorWindows::ERROR_DEPENDENCY_TREE_TOO_COMPLEX => Some(5929),
            WinErrorWindows::ERROR_EXCEPTION_IN_RESOURCE_CALL => Some(5930),
            WinErrorWindows::ERROR_CLUSTER_RHS_FAILED_INITIALIZATION => Some(5931),
            WinErrorWindows::ERROR_CLUSTER_NOT_INSTALLED => Some(5932),
            WinErrorWindows::ERROR_CLUSTER_RESOURCES_MUST_BE_ONLINE_ON_THE_SAME_NODE => Some(5933),
            WinErrorWindows::ERROR_CLUSTER_MAX_NODES_IN_CLUSTER => Some(5934),
            WinErrorWindows::ERROR_CLUSTER_TOO_MANY_NODES => Some(5935),
            WinErrorWindows::ERROR_CLUSTER_OBJECT_ALREADY_USED => Some(5936),
            WinErrorWindows::ERROR_NONCORE_GROUPS_FOUND => Some(5937),
            WinErrorWindows::ERROR_FILE_SHARE_RESOURCE_CONFLICT => Some(5938),
            WinErrorWindows::ERROR_CLUSTER_EVICT_INVALID_REQUEST => Some(5939),
            WinErrorWindows::ERROR_CLUSTER_SINGLETON_RESOURCE => Some(5940),
            WinErrorWindows::ERROR_CLUSTER_GROUP_SINGLETON_RESOURCE => Some(5941),
            WinErrorWindows::ERROR_CLUSTER_RESOURCE_PROVIDER_FAILED => Some(5942),
            WinErrorWindows::ERROR_CLUSTER_RESOURCE_CONFIGURATION_ERROR => Some(5943),
            WinErrorWindows::ERROR_CLUSTER_GROUP_BUSY => Some(5944),
            WinErrorWindows::ERROR_CLUSTER_NOT_SHARED_VOLUME => Some(5945),
            WinErrorWindows::ERROR_CLUSTER_INVALID_SECURITY_DESCRIPTOR => Some(5946),
            _ => None,
        }
    }

    /// One slice of the symbol table.
    #[verifier::spinoff_prover]
    #[verifier::rlimit(100)]
    fn from_u32_part31(raw: u32) -> (r: Option<WinErrorWindows>)
        ensures
            r == WinErrorWindows::spec_from_u32_part31(raw),
    {
        match raw {
            5897 => Some(WinErrorWindows::ERROR_CLUSTER_PARAMETER_MISMATCH),
            5898 => Some(WinErrorWindows::ERROR_NODE_CANNOT_BE_CLUSTERED),
            5899 => Some(WinErrorWindows::ERROR_CLUSTER_WRONG_OS_VERSION),
            5900 => Some(WinErrorWindows::ERROR_CLUSTER_CANT_CREATE_DUP_CLUSTER_NAME),
            5901 => Some(WinErrorWindows::ERROR_CLUSCFG_ALREADY_COMMITTED),
            5902 => Some(WinErrorWindows::ERROR_CLUSCFG_ROLLBACK_FAILED),
            5903 => Some(WinErrorWindows::ERROR_CLUSCFG_SYSTEM_DISK_DRIVE_LETTER_CONFLICT),
            5904 => Some(WinErrorWindows::ERROR_CLUSTER_OLD_VERSION),
            5905 => Some(WinErrorWindows::ERROR_CLUSTER_MISMATCHED_COMPUTER_ACCT_NAME),
            5906 => Some(WinErrorWindows::ERROR_CLUSTER_NO_NET_ADAPTERS),
            5907 => Some(WinErrorWindows::ERROR_CLUSTER_POISONED),
            5908 => Some(WinErrorWindows::ERROR_CLUSTER_GROUP_MOVING),
            5909 => Some(WinErrorWindows::ERROR_CLUSTER_RESOURCE_TYPE_BUSY),
            5910 => Some(WinErrorWindows::ERROR_RESOURCE_CALL_TIMED_OUT),
            5911 => Some(WinErrorWindows::ERROR_INVALID_CLUSTER_IPV6_ADDRESS),
            5912 => Some(WinErrorWindows::ERROR_CLUSTER_INTERNAL_INVALID_FUNCTION),
            5913 => Some(WinErrorWindows::ERROR_CLUSTER_PARAMETER_OUT_OF_BOUNDS),
            5914 => Some(WinErrorWindows::ERROR_CLUSTER_PARTIAL_SEND),
            5915 => Some(WinErrorWindows::ERROR_CLUSTER_REGISTRY_INVALID_FUNCTION),
            5916 => Some(WinErrorWindows::ERROR_CLUSTER_INVALID_STRING_TERMINATION),
            5917 => Some(WinErrorWindows::ERROR_CLUSTER_INVALID_STRING_FORMAT),
            5918 => Some(WinErrorWindows::ERROR_CLUSTER_DATABASE_TRANSACTION_IN_PROGRESS),
            5919 => Some(WinErrorWindows::ERROR_CLUSTER_DATABASE_TRANSACTION_NOT_IN_PROGRESS),
            5920 => Some(WinErrorWindows::ERROR_CLUSTER_NULL_DATA),
            5921 => Some(WinErrorWindows::ERROR_CLUSTER_PARTIAL_READ),
            5922 => Some(WinErrorWindows::ERROR_CLUSTER_PARTIAL_WRITE),
            5923 => Some(WinErrorWindows::ERROR_CLUSTER_CANT_DESERIALIZE_DATA),
            5924 => Some(WinErrorWindows::ERROR_DEPENDENT_RESOURCE_PROPERTY_CONFLICT),
            5925 => Some(WinErrorWindows::ERROR_CLUSTER_NO_QUORUM),
            5926 => Some(WinErrorWindows::ERROR_CLUSTER_INVALID_IPV6_NETWORK),
            5927 => Some(WinErrorWindows::ERROR_CLUSTER_INVALID_IPV6_TUNNEL_NETWORK),
            5928 => Some(WinErrorWindows::ERROR_QUORUM_NOT_ALLOWED_IN_THIS_GROUP),
            5929 => Some(WinErrorWindows::ERROR_DEPENDENCY_TREE_TOO_COMPLEX),
            5930 => Some(WinErrorWindows::ERROR_EXCEPTION_IN_RESOURCE_CALL),
            5931 => Some(WinErrorWindows::ERROR_CLUSTER_RHS_FAILED_INITIALIZATION),
            5932 => Some(WinErrorWindows::ERROR_CLUSTER_NOT_INSTALLED),
            5933 => Some(WinErrorWindows::ERROR_CLUSTER_RESOURCES_MUST_BE_ONLINE_ON_THE_SAME_NODE),
            5934 => Some(WinErrorWindows::ERROR_CLUSTER_MAX_NODES_IN_CLUSTER),
            5935 => Some(WinErrorWindows::ERROR_CLUSTER_TOO_MANY_NODES),
            5936 => Some(WinErrorWindows::ERROR_CLUSTER_OBJECT_ALREADY_USED),
            5937 => Some(WinErrorWindows::ERROR_NONCORE_GROUPS_FOUND),
            5938 => Some(WinErrorWindows::ERROR_FILE_SHARE_RESOURCE_CONFLICT),
            5939 => Some(WinErrorWindows::ERROR_CLUSTER_EVICT_INVALID_REQUEST),
            5940 => Some(WinErrorWindows::ERROR_CLUSTER_SINGLETON_RESOURCE),
            5941 => Some(WinErrorWindows::ERROR_CLUSTER_GROUP_SINGLETON_RESOURCE),
            5942 => Some(WinErrorWindows::ERROR_CLUSTER_RESOURCE_PROVIDER_FAILED),
            5943 => Some(WinErrorWindows::ERROR_CLUSTER_RESOURCE_CONFIGURATION_ERROR),
            5944 => Some(WinErrorWindows::ERROR_CLUSTER_GROUP_BUSY),
            5945 => Some(WinErrorWindows::ERROR_CLUSTER_NOT_SHARED_VOLUME),
            5946 => Some(WinErrorWindows::ERROR_CLUSTER_INVALID_SECURITY_DESCRIPTOR),
            _ => None,
        }
    }

    /// One slice of the symbol table: the raw value of this symbol,
    /// where this slice holds it.
    pub open spec fn spec_to_u32_part32(self) -> Option<u32> {
        match self {
            WinErrorWindows::ERROR_CLUSTER_SHARED_VOLUMES_IN_USE => Some(5947),
            WinErrorWindows::ERROR_CLUSTER_USE_SHARED_VOLUMES_API => Some(5948),
            WinErrorWindows::ERROR_CLUSTER_BACKUP_IN_PROGRESS => Some(5949),
            WinErrorWindows::ERROR_NON_CSV_PATH => Some(5950),
            WinErrorWindows::ERROR_CSV_VOLUME_NOT_LOCAL => Some(5951),
            WinErrorWindows::ERROR_CLUSTER_WATCHDOG_TERMINATING => Some(5952),
            WinErrorWindows::ERROR_CLUSTER_RESOURCE_VETOED_MOVE_INCOMPATIBLE_NODES => Some(5953),
            WinErrorWindows::ERROR_CLUSTER_INVALID_NODE_WEIGHT => Some(5954),
            WinErrorWindows::ERROR_CLUSTER_RESOURCE_VETOED_CALL => Some(5955),
            WinErrorWindows::ERROR_RESMON_SYSTEM_RESOURCES_LACKING => Some(5956),
            WinErrorWindows::ERROR_CLUSTER_RESOURCE_VETOED_MOVE_NOT_ENOUGH_RESOURCES_ON_DESTINATION => Some(5957),
            WinErrorWindows::ERROR_CLUSTER_RESOURCE_VETOED_MOVE_NOT_ENOUGH_RESOURCES_ON_SOURCE => Some(5958),
            WinErrorWindows::ERROR_CLUSTER_GROUP_QUEUED => Some(5959),
            WinErrorWindows::ERROR_CLUSTER_RESOURCE_LOCKED_STATUS => Some(5960),
            WinErrorWindows::ERROR_CLUSTER_SHARED_VOLUME_FAILOVER_NOT_ALLOWED => Some(5961),
            WinErrorWindows::ERROR_CLUSTER_NODE_DRAIN_IN_PROGRESS => Some(5962),
            WinErrorWindows::ERROR_CLUSTER_DISK_NOT_CONNECTED => Some(5963),
            WinErrorWindows::ERROR_DISK_NOT_CSV_CAPABLE => Some(5964),
            WinErrorWindows::ERROR_RESOURCE_NOT_IN_AVAILABLE_STORAGE => Some(5965),
            WinErrorWindows::ERROR_CLUSTER_SHARED_VOLUME_REDIRECTED => Some(5966),
            WinErrorWindows::ERROR_CLUSTER_SHARED_VOLUME_NOT_REDIRECTED => Some(5967),
            WinErrorWindows::ERROR_CLUSTER_CANNOT_RETURN_PROPERTIES => Some(5968),
            WinErrorWindows::ERROR_CLUSTER_RESOURCE_CONTAINS_UNSUPPORTED_DIFF_AREA_FOR_SHARED_VOLUMES => Some(5969),
            WinErrorWindows::ERROR_CLUSTER_RESOURCE_IS_IN_MAINTENANCE_MODE => Some(5970),
            WinErrorWindows::ERROR_CLUSTER_AFFINITY_CONFLICT => Some(5971),
            WinErrorWindows::ERROR_CLUSTER_RESOURCE_IS_REPLICA_VIRTUAL_MACHINE => Some(5972),
            WinErrorWindows::ERROR_CLUSTER_UPGRADE_INCOMPATIBLE_VERSIONS => Some(5973),
            WinErrorWindows::ERROR_CLUSTER_UPGRADE_FIX_QUORUM_NOT_SUPPORTED => Some(5974),
            WinErrorWindows::ERROR_CLUSTER_UPGRADE_RESTART_REQUIRED => Some(5975),
            WinErrorWindows::ERROR_CLUSTER_UPGRADE_IN_PROGRESS => Some(5976),
            WinErrorWindows::ERROR_CLUSTER_UPGRADE_INCOMPLETE => Some(5977),
            WinErrorWindows::ERROR_CLUSTER_NODE_IN_GRACE_PERIOD => Some(5978),
            WinErrorWindows::ERROR_CLUSTER_CSV_IO_PAUSE_TIMEOUT => Some(5979),
            WinErrorWindows::ERROR_NODE_NOT_ACTIVE_CLUSTER_MEMBER => Some(5980),
            WinErrorWindows::ERROR_CLUSTER_RESOURCE_NOT_MONITORED => Some(5981),
            WinErrorWindows::ERROR_CLUSTER_RESOURCE_DOES_NOT_SUPPORT_UNMONITORED => Some(5982),
            WinErrorWindows::ERROR_CLUSTER_RESOURCE_IS_REPLICATED => Some(5983),
            WinErrorWindows::ERROR_CLUSTER_NODE_ISOLATED => Some(5984),
            WinErrorWindows::ERROR_CLUSTER_NODE_QUARANTINED => Some(5985),
            WinErrorWindows::ERROR_CLUSTER_DATABASE_UPDATE_CONDITION_FAILED => Some(5986),
            WinErrorWindows::ERROR_CLUSTER_SPACE_DEGRADED => Some(5987),
            WinErrorWindows::ERROR_CLUSTER_TOKEN_DELEGATION_NOT_SUPPORTED => Some(5988),
            WinErrorWindows::ERROR_CLUSTER_CSV_INVALID_HANDLE => Some(5989),
            WinErrorWindows::ERROR_CLUSTER_CSV_SUPPORTED_ONLY_ON_COORDINATOR => Some(5990),
            WinErrorWindows::ERROR_GROUPSET_NOT_AVAILABLE => Some(5991),
            WinErrorWindows::ERROR_GROUPSET_NOT_FOUND => Some(5992),
            WinErrorWindows::ERROR_GROUPSET_CANT_PROVIDE => Some(5993),
            WinErrorWindows::ERROR_CLUSTER_FAULT_DOMAIN_PARENT_NOT_FOUND => Some(5994),
            WinErrorWindows::ERROR_CLUSTER_FAULT_DOMAIN_INVALID_HIERARCHY => Some(5995),
            WinErrorWindows::ERROR_CLUSTER_FAULT_DOMAIN_FAILED_S2D_VALIDATION => Some(5996),
            _ => None,
        }
    }

    /// One slice of the symbol table: the symbol this slice gives a
    /// raw value, where it holds one.
    pub open spec fn spec_from_u32_part32(raw: u32) -> Option<WinErrorWindows> {
        match raw {
            5947 => Some(WinErrorWindows::ERROR_CLUSTER_SHARED_VOLUMES_IN_USE),
            5948 => Some(WinErrorWindows::ERROR_CLUSTER_USE_SHARED_VOLUMES_API),
            5949 => Some(WinErrorWindows::ERROR_CLUSTER_BACKUP_IN_PROGRESS),
            5950 => Some(WinErrorWindows::ERROR_NON_CSV_PATH),
            5951 => Some(WinErrorWindows::ERROR_CSV_VOLUME_NOT_LOCAL),
            5952 => Some(WinErrorWindows::ERROR_CLUSTER_WATCHDOG_TERMINATING),
            5953 => Some(WinErrorWindows::ERROR_CLUSTER_RESOURCE_VETOED_MOVE_INCOMPATIBLE_NODES),
            5954 => Some(WinErrorWindows::ERROR_CLUSTER_INVALID_NODE_WEIGHT),
            5955 => Some(WinErrorWindows::ERROR_CLUSTER_RESOURCE_VETOED_CALL),
            5956 => Some(WinErrorWindows::ERROR_RESMON_SYSTEM_RESOURCES_LACKING),
            5957 => Some(WinErrorWindows::ERROR_CLUSTER_RESOURCE_VETOED_MOVE_NOT_ENOUGH_RESOURCES_ON_DESTINATION),
            5958 => Some(WinErrorWindows::ERROR_CLUSTER_RESOURCE_VETOED_MOVE_NOT_ENOUGH_RESOURCES_ON_SOURCE),
            5959 => Some(WinErrorWindows::ERROR_CLUSTER_GROUP_QUEUED),
            5960 => Some(WinErrorWindows::ERROR_CLUSTER_RESOURCE_LOCKED_STATUS),
            5961 => Some(WinErrorWindows::ERROR_CLUSTER_SHARED_VOLUME_FAILOVER_NOT_ALLOWED),
            5962 => Some(WinErrorWindows::ERROR_CLUSTER_NODE_DRAIN_IN_PROGRESS),
            5963 => Some(WinErrorWindows::ERROR_CLUSTER_DISK_NOT_CONNECTED),
            5964 => Some(WinErrorWindows::ERROR_DISK_NOT_CSV_CAPABLE),
            5965 => Some(WinErrorWindows::ERROR_RESOURCE_NOT_IN_AVAILABLE_STORAGE),
            5966 => Some(WinErrorWindows::ERROR_CLUSTER_SHARED_VOLUME_REDIRECTED),
            5967 => Some(WinErrorWindows::ERROR_CLUSTER_SHARED_VOLUME_NOT_REDIRECTED),
            5968 => Some(WinErrorWindows::ERROR_CLUSTER_CANNOT_RETURN_PROPERTIES),
            5969 => Some(WinErrorWindows::ERROR_CLUSTER_RESOURCE_CONTAINS_UNSUPPORTED_DIFF_AREA_FOR_SHARED_VOLUMES),
            5970 => Some(WinErrorWindows::ERROR_CLUSTER_RESOURCE_IS_IN_MAINTENANCE_MODE),
            5971 => Some(WinErrorWindows::ERROR_CLUSTER_AFFINITY_CONFLICT),
            5972 => Some(WinErrorWindows::ERROR_CLUSTER_RESOURCE_IS_REPLICA_VIRTUAL_MACHINE),
            5973 => Some(WinErrorWindows::ERROR_CLUSTER_UPGRADE_INCOMPATIBLE_VERSIONS),
            5974 => Some(WinErrorWindows::ERROR_CLUSTER_UPGRADE_FIX_QUORUM_NOT_SUPPORTED),
            5975 => Some(WinErrorWindows::ERROR_CLUSTER_UPGRADE_RESTART_REQUIRED),
            5976 => Some(WinErrorWindows::ERROR_CLUSTER_UPGRADE_IN_PROGRESS),
            5977 => Some(WinErrorWindows::ERROR_CLUSTER_UPGRADE_INCOMPLETE),
            5978 => Some(WinErrorWindows::ERROR_CLUSTER_NODE_IN_GRACE_PERIOD),
            5979 => Some(WinErrorWindows::ERROR_CLUSTER_CSV_IO_PAUSE_TIMEOUT),
            5980 => Some(WinErrorWindows::ERROR_NODE_NOT_ACTIVE_CLUSTER_MEMBER),
            5981 => Some(WinErrorWindows::ERROR_CLUSTER_RESOURCE_NOT_MONITORED),
            5982 => Some(WinErrorWindows::ERROR_CLUSTER_RESOURCE_DOES_NOT_SUPPORT_UNMONITORED),
            5983 => Some(WinErrorWindows::ERROR_CLUSTER_RESOURCE_IS_REPLICATED),
            5984 => Some(WinErrorWindows::ERROR_CLUSTER_NODE_ISOLATED),
            5985 => Some(WinErrorWindows::ERROR_CLUSTER_NODE_QUARANTINED),
            5986 => Some(WinErrorWindows::ERROR_CLUSTER_DATABASE_UPDATE_CONDITION_FAILED),
            5987 => Some(WinErrorWindows::ERROR_CLUSTER_SPACE_DEGRADED),
            5988 => Some(WinErrorWindows::ERROR_CLUSTER_TOKEN_DELEGATION_NOT_SUPPORTED),
            5989 => Some(WinErrorWindows::ERROR_CLUSTER_CSV_INVALID_HANDLE),
            5990 => Some(WinErrorWindows::ERROR_CLUSTER_CSV_SUPPORTED_ONLY_ON_COORDINATOR),
            5991 => Some(WinErrorWindows::ERROR_GROUPSET_NOT_AVAILABLE),
            5992 => Some(WinErrorWindows::ERROR_GROUPSET_NOT_FOUND),
            5993 => Some(WinErrorWindows::ERROR_GROUPSET_CANT_PROVIDE),
            5994 => Some(WinErrorWindows::ERROR_CLUSTER_FAULT_DOMAIN_PARENT_NOT_FOUND),
            5995 => Some(WinErrorWindows::ERROR_CLUSTER_FAULT_DOMAIN_INVALID_HIERARCHY),
            5996 => Some(WinErrorWindows::ERROR_CLUSTER_FAULT_DOMAIN_FAILED_S2D_VALIDATION),
            _ => None,
        }
    }

    /// One slice of the symbol table.
    #[verifier::spinoff_prover]
    #[verifier::rlimit(100)]
    fn to_u32_part32(self) -> (r: Option<u32>)
        ensures
            r == self.spec_to_u32_part32(),
    {
        match self {
            WinErrorWindows::ERROR_CLUSTER_SHARED_VOLUMES_IN_USE => Some(5947),
            WinErrorWindows::ERROR_CLUSTER_USE_SHARED_VOLUMES_API => Some(5948),
            WinErrorWindows::ERROR_CLUSTER_BACKUP_IN_PROGRESS => Some(5949),
            WinErrorWindows::ERROR_NON_CSV_PATH => Some(5950),
            WinErrorWindows::ERROR_CSV_VOLUME_NOT_LOCAL => Some(5951),
            WinErrorWindows::ERROR_CLUSTER_WATCHDOG_TERMINATING => Some(5952),
            WinErrorWindows::ERROR_CLUSTER_RESOURCE_VETOED_MOVE_INCOMPATIBLE_NODES => Some(5953),
            WinErrorWindows::ERROR_CLUSTER_INVALID_NODE_WEIGHT => Some(5954),
            WinErrorWindows::ERROR_CLUSTER_RESOURCE_VETOED_CALL => Some(5955),
            WinErrorWindows::ERROR_RESMON_SYSTEM_RESOURCES_LACKING => Some(5956),
            WinErrorWindows::ERROR_CLUSTER_RESOURCE_VETOED_MOVE_NOT_ENOUGH_RESOURCES_ON_DESTINATION => Some(5957),
            WinErrorWindows::ERROR_CLUSTER_RESOURCE_VETOED_MOVE_NOT_ENOUGH_RESOURCES_ON_SOURCE => Some(5958),
            WinErrorWindows::ERROR_CLUSTER_GROUP_QUEUED => Some(5959),
            WinErrorWindows::ERROR_CLUSTER_RESOURCE_LOCKED_STATUS => Some(5960),
            WinErrorWindows::ERROR_CLUSTER_SHARED_VOLUME_FAILOVER_NOT_ALLOWED => Some(5961),
            WinErrorWindows::ERROR_CLUSTER_NODE_DRAIN_IN_PROGRESS => Some(5962),
            WinErrorWindows::ERROR_CLUSTER_DISK_NOT_CONNECTED => Some(5963),
            WinErrorWindows::ERROR_DISK_NOT_CSV_CAPABLE => Some(5964),
            WinErrorWindows::ERROR_RESOURCE_NOT_IN_AVAILABLE_STORAGE => Some(5965),
            WinErrorWindows::ERROR_CLUSTER_SHARED_VOLUME_REDIRECTED => Some(5966),
            WinErrorWindows::ERROR_CLUSTER_SHARED_VOLUME_NOT_REDIRECTED => Some(5967),
            WinErrorWindows::ERROR_CLUSTER_CANNOT_RETURN_PROPERTIES => Some(5968),
            WinErrorWindows::ERROR_CLUSTER_RESOURCE_CONTAINS_UNSUPPORTED_DIFF_AREA_FOR_SHARED_VOLUMES => Some(5969),
            WinErrorWindows::ERROR_CLUSTER_RESOURCE_IS_IN_MAINTENANCE_MODE => Some(5970),
            WinErrorWindows::ERROR_CLUSTER_AFFINITY_CONFLICT => Some(5971),
            WinErrorWindows::ERROR_CLUSTER_RESOURCE_IS_REPLICA_VIRTUAL_MACHINE => Some(5972),
            WinErrorWindows::ERROR_CLUSTER_UPGRADE_INCOMPATIBLE_VERSIONS => Some(5973),
            WinErrorWindows::ERROR_CLUSTER_UPGRADE_FIX_QUORUM_NOT_SUPPORTED => Some(5974),
            WinErrorWindows::ERROR_CLUSTER_UPGRADE_RESTART_REQUIRED => Some(5975),
            WinErrorWindows::ERROR_CLUSTER_UPGRADE_IN_PROGRESS => Some(5976),
            WinErrorWindows::ERROR_CLUSTER_UPGRADE_INCOMPLETE => Some(5977),
            WinErrorWindows::ERROR_CLUSTER_NODE_IN_GRACE_PERIOD => Some(5978),
            WinErrorWindows::ERROR_CLUSTER_CSV_IO_PAUSE_TIMEOUT => Some(5979),
            WinErrorWindows::ERROR_NODE_NOT_ACTIVE_CLUSTER_MEMBER => Some(5980),
            WinErrorWindows::ERROR_CLUSTER_RESOURCE_NOT_MONITORED => Some(5981),
            WinErrorWindows::ERROR_CLUSTER_RESOURCE_DOES_NOT_SUPPORT_UNMONITORED => Some(5982),
            WinErrorWindows::ERROR_CLUSTER_RESOURCE_IS_REPLICATED => Some(5983),
            WinErrorWindows::ERROR_CLUSTER_NODE_ISOLATED => Some(5984),
            WinErrorWindows::ERROR_CLUSTER_NODE_QUARANTINED => Some(5985),
            WinErrorWindows::ERROR_CLUSTER_DATABASE_UPDATE_CONDITION_FAILED => Some(5986),
            WinErrorWindows::ERROR_CLUSTER_SPACE_DEGRADED => Some(5987),
            WinErrorWindows::ERROR_CLUSTER_TOKEN_DELEGATION_NOT_SUPPORTED => Some(5988),
            WinErrorWindows::ERROR_CLUSTER_CSV_INVALID_HANDLE => Some(5989),
            WinErrorWindows::ERROR_CLUSTER_CSV_SUPPORTED_ONLY_ON_COORDINATOR => Some(5990),
            WinErrorWindows::ERROR_GROUPSET_NOT_AVAILABLE => Some(5991),
            WinErrorWindows::ERROR_GROUPSET_NOT_FOUND => Some(5992),
            WinErrorWindows::ERROR_GROUPSET_CANT_PROVIDE => Some(5993),
            WinErrorWindows::ERROR_CLUSTER_FAULT_DOMAIN_PARENT_NOT_FOUND => Some(5994),
            WinErrorWindows::ERROR_CLUSTER_FAULT_DOMAIN_INVALID_HIERARCHY => Some(5995),
            WinErrorWindows::ERROR_CLUSTER_FAULT_DOMAIN_FAILED_S2D_VALIDATION => Some(5996),
            _ => None,
        }
    }

    /// One slice of the symbol table.
    #[verifier::spinoff_prover]
    #[verifier::rlimit(100)]
    fn from_u32_part32(raw: u32) -> (r: Option<WinErrorWindows>)
        ensures
            r == WinErrorWindows::spec_from_u32_part32(raw),
    {
        match raw {
            5947 => Some(WinErrorWindows::ERROR_CLUSTER_SHARED_VOLUMES_IN_USE),
            5948 => Some(WinErrorWindows::ERROR_CLUSTER_USE_SHARED_VOLUMES_API),
            5949 => Some(WinErrorWindows::ERROR_CLUSTER_BACKUP_IN_PROGRESS),
            5950 => Some(WinErrorWindows::ERROR_NON_CSV_PATH),
            5951 => Some(WinErrorWindows::ERROR_CSV_VOLUME_NOT_LOCAL),
            5952 => Some(WinErrorWindows::ERROR_CLUSTER_WATCHDOG_TERMINATING),
            5953 => Some(WinErrorWindows::ERROR_CLUSTER_RESOURCE_VETOED_MOVE_INCOMPATIBLE_NODES),
            5954 => Some(WinErrorWindows::ERROR_CLUSTER_INVALID_NODE_WEIGHT),
            5955 => Some(WinErrorWindows::ERROR_CLUSTER_RESOURCE_VETOED_CALL),
            5956 => Some(WinErrorWindows::ERROR_RESMON_SYSTEM_RESOURCES_LACKING),
            5957 => Some(WinErrorWindows::ERROR_CLUSTER_RESOURCE_VETOED_MOVE_NOT_ENOUGH_RESOURCES_ON_DESTINATION),
            5958 => Some(WinErrorWindows::ERROR_CLUSTER_RESOURCE_VETOED_MOVE_NOT_ENOUGH_RESOURCES_ON_SOURCE),
            5959 => Some(WinErrorWindows::ERROR_CLUSTER_GROUP_QUEUED),
            5960 => Some(WinErrorWindows::ERROR_CLUSTER_RESOURCE_LOCKED_STATUS),
            5961 => Some(WinErrorWindows::ERROR_CLUSTER_SHARED_VOLUME_FAILOVER_NOT_ALLOWED),
            5962 => Some(WinErrorWindows::ERROR_CLUSTER_NODE_DRAIN_IN_PROGRESS),
            5963 => Some(WinErrorWindows::ERROR_CLUSTER_DISK_NOT_CONNECTED),
            5964 => Some(WinErrorWindows::ERROR_DISK_NOT_CSV_CAPABLE),
            5965 => Some(WinErrorWindows::ERROR_RESOURCE_NOT_IN_AVAILABLE_STORAGE),
            5966 => Some(WinErrorWindows::ERROR_CLUSTER_SHARED_VOLUME_REDIRECTED),
            5967 => Some(WinErrorWindows::ERROR_CLUSTER_SHARED_VOLUME_NOT_REDIRECTED),
            5968 => Some(WinErrorWindows::ERROR_CLUSTER_CANNOT_RETURN_PROPERTIES),
            5969 => Some(WinErrorWindows::ERROR_CLUSTER_RESOURCE_CONTAINS_UNSUPPORTED_DIFF_AREA_FOR_SHARED_VOLUMES),
            5970 => Some(WinErrorWindows::ERROR_CLUSTER_RESOURCE_IS_IN_MAINTENANCE_MODE),
            5971 => Some(WinErrorWindows::ERROR_CLUSTER_AFFINITY_CONFLICT),
            5972 => Some(WinErrorWindows::ERROR_CLUSTER_RESOURCE_IS_REPLICA_VIRTUAL_MACHINE),
            5973 => Some(WinErrorWindows::ERROR_CLUSTER_UPGRADE_INCOMPATIBLE_VERSIONS),
            5974 => Some(WinErrorWindows::ERROR_CLUSTER_UPGRADE_FIX_QUORUM_NOT_SUPPORTED),
            5975 => Some(WinErrorWindows::ERROR_CLUSTER_UPGRADE_RESTART_REQUIRED),
            5976 => Some(WinErrorWindows::ERROR_CLUSTER_UPGRADE_IN_PROGRESS),
            5977 => Some(WinErrorWindows::ERROR_CLUSTER_UPGRADE_INCOMPLETE),
            5978 => Some(WinErrorWindows::ERROR_CLUSTER_NODE_IN_GRACE_PERIOD),
            5979 => Some(WinErrorWindows::ERROR_CLUSTER_CSV_IO_PAUSE_TIMEOUT),
            5980 => Some(WinErrorWindows::ERROR_NODE_NOT_ACTIVE_CLUSTER_MEMBER),
            5981 => Some(WinErrorWindows::ERROR_CLUSTER_RESOURCE_NOT_MONITORED),
            5982 => Some(WinErrorWindows::ERROR_CLUSTER_RESOURCE_DOES_NOT_SUPPORT_UNMONITORED),
            5983 => Some(WinErrorWindows::ERROR_CLUSTER_RESOURCE_IS_REPLICATED),
            5984 => Some(WinErrorWindows::ERROR_CLUSTER_NODE_ISOLATED),
            5985 => Some(WinErrorWindows::ERROR_CLUSTER_NODE_QUARANTINED),
            5986 => Some(WinErrorWindows::ERROR_CLUSTER_DATABASE_UPDATE_CONDITION_FAILED),
            5987 => Some(WinErrorWindows::ERROR_CLUSTER_SPACE_DEGRADED),
            5988 => Some(WinErrorWindows::ERROR_CLUSTER_TOKEN_DELEGATION_NOT_SUPPORTED),
            5989 => Some(WinErrorWindows::ERROR_CLUSTER_CSV_INVALID_HANDLE),
            5990 => Some(WinErrorWindows::ERROR_CLUSTER_CSV_SUPPORTED_ONLY_ON_COORDINATOR),
            5991 => Some(WinErrorWindows::ERROR_GROUPSET_NOT_AVAILABLE),
            5992 => Some(WinErrorWindows::ERROR_GROUPSET_NOT_FOUND),
            5993 => Some(WinErrorWindows::ERROR_GROUPSET_CANT_PROVIDE),
            5994 => Some(WinErrorWindows::ERROR_CLUSTER_FAULT_DOMAIN_PARENT_NOT_FOUND),
            5995 => Some(WinErrorWindows::ERROR_CLUSTER_FAULT_DOMAIN_INVALID_HIERARCHY),
            5996 => Some(WinErrorWindows::ERROR_CLUSTER_FAULT_DOMAIN_FAILED_S2D_VALIDATION),
            _ => None,
        }
    }

    /// One slice of the symbol table: the raw value of this symbol,
    /// where this slice holds it.
    pub open spec fn spec_to_u32_part33(self) -> Option<u32> {
        match self {
            WinErrorWindows::ERROR_CLUSTER_FAULT_DOMAIN_S2D_CONNECTIVITY_LOSS => Some(5997),
            WinErrorWindows::ERROR_CLUSTER_INVALID_INFRASTRUCTURE_FILESERVER_NAME => Some(5998),
            WinErrorWindows::ERROR_CLUSTERSET_MANAGEMENT_CLUSTER_UNREACHABLE => Some(5999),
            WinErrorWindows::ERROR_ENCRYPTION_FAILED => Some(6000),
            WinErrorWindows::ERROR_DECRYPTION_FAILED => Some(6001),
            WinErrorWindows::ERROR_FILE_ENCRYPTED => Some(6002),
            WinErrorWindows::ERROR_NO_RECOVERY_POLICY => Some(6003),
            WinErrorWindows::ERROR_NO_EFS => Some(6004),
            WinErrorWindows::ERROR_WRONG_EFS => Some(6005),
            WinErrorWindows::ERROR_NO_USER_KEYS => Some(6006),
            WinErrorWindows::ERROR_FILE_NOT_ENCRYPTED => Some(6007),
            WinErrorWindows::ERROR_NOT_EXPORT_FORMAT => Some(6008),
            WinErrorWindows::ERROR_FILE_READ_ONLY => Some(6009),
            WinErrorWindows::ERROR_DIR_EFS_DISALLOWED => Some(6010),
            WinErrorWindows::ERROR_EFS_SERVER_NOT_TRUSTED => Some(6011),
            WinErrorWindows::ERROR_BAD_RECOVERY_POLICY => Some(6012),
            WinErrorWindows::ERROR_EFS_ALG_BLOB_TOO_BIG => Some(6013),
            WinErrorWindows::ERROR_VOLUME_NOT_SUPPORT_EFS => Some(6014),
            WinErrorWindows::ERROR_EFS_DISABLED => Some(6015),
            WinErrorWindows::ERROR_EFS_VERSION_NOT_SUPPORT => Some(6016),
            WinErrorWindows::ERROR_CS_ENCRYPTION_INVALID_SERVER_RESPONSE => Some(6017),
            WinErrorWindows::ERROR_CS_ENCRYPTION_UNSUPPORTED_SERVER => Some(6018),
            WinErrorWindows::ERROR_CS_ENCRYPTION_EXISTING_ENCRYPTED_FILE => Some(6019),
            WinErrorWindows::ERROR_CS_ENCRYPTION_NEW_ENCRYPTED_FILE => Some(6020),
            WinErrorWindows::ERROR_CS_ENCRYPTION_FILE_NOT_CSE => Some(6021),
            WinErrorWindows::ERROR_ENCRYPTION_POLICY_DENIES_OPERATION => Some(6022),
            WinErrorWindows::ERROR_WIP_ENCRYPTION_FAILED => Some(6023),
            WinErrorWindows::ERROR_NO_BROWSER_SERVERS_FOUND => Some(6118),
            WinErrorWindows::ERROR_CLUSTER_OBJECT_IS_CLUSTER_SET_VM => Some(6250),
            WinErrorWindows::ERROR_LOG_SECTOR_INVALID => Some(6600),
            WinErrorWindows::ERROR_LOG_SECTOR_PARITY_INVALID => Some(6601),
            WinErrorWindows::ERROR_LOG_SECTOR_REMAPPED => Some(6602),
            WinErrorWindows::ERROR_LOG_BLOCK_INCOMPLETE => Some(6603),
            WinErrorWindows::ERROR_LOG_INVALID_RANGE => Some(6604),
            WinErrorWindows::ERROR_LOG_BLOCKS_EXHAUSTED => Some(6605),
            WinErrorWindows::ERROR_LOG_READ_CONTEXT_INVALID => Some(6606),
            WinErrorWindows::ERROR_LOG_RESTART_INVALID => Some(6607),
            WinErrorWindows::ERROR_LOG_BLOCK_VERSION => Some(6608),
            WinErrorWindows::ERROR_LOG_BLOCK_INVALID => Some(6609),
            WinErrorWindows::ERROR_LOG_READ_MODE_INVALID => Some(6610),
            WinErrorWindows::ERROR_LOG_NO_RESTART => Some(6611),
            WinErrorWindows::ERROR_LOG_METADATA_CORRUPT => Some(6612),
            WinErrorWindows::ERROR_LOG_METADATA_INVALID => Some(6613),
            WinErrorWindows::ERROR_LOG_METADATA_INCONSISTENT => Some(6614),
            WinErrorWindows::ERROR_LOG_RESERVATION_INVALID => Some(6615),
            WinErrorWindows::ERROR_LOG_CANT_DELETE => Some(6616),
            WinErrorWindows::ERROR_LOG_CONTAINER_LIMIT_EXCEEDED => Some(6617),
            WinErrorWindows::ERROR_LOG_START_OF_LOG => Some(6618),
            WinErrorWindows::ERROR_LOG_POLICY_ALREADY_INSTALLED => Some(6619),
            WinErrorWindows::ERROR_LOG_POLICY_NOT_INSTALLED => Some(6620),
            _ => None,
        }
    }

    /// One slice of the symbol table: the symbol this slice gives a
    /// raw value, where it holds one.
    pub open spec fn spec_from_u32_part33(raw: u32) -> Option<WinErrorWindows> {
        match raw {
            5997 => Some(WinErrorWindows::ERROR_CLUSTER_FAULT_DOMAIN_S2D_CONNECTIVITY_LOSS),
            5998 => Some(WinErrorWindows::ERROR_CLUSTER_INVALID_INFRASTRUCTURE_FILESERVER_NAME),
            5999 => Some(WinErrorWindows::ERROR_CLUSTERSET_MANAGEMENT_CLUSTER_UNREACHABLE),
            6000 => Some(WinErrorWindows::ERROR_ENCRYPTION_FAILED),
            6001 => Some(WinErrorWindows::ERROR_DECRYPTION_FAILED),
            6002 => Some(WinErrorWindows::ERROR_FILE_ENCRYPTED),
            6003 => Some(WinErrorWindows::ERROR_NO_RECOVERY_POLICY),
            6004 => Some(WinErrorWindows::ERROR_NO_EFS),
            6005 => Some(WinErrorWindows::ERROR_WRONG_EFS),
            6006 => Some(WinErrorWindows::ERROR_NO_USER_KEYS),
            6007 => Some(WinErrorWindows::ERROR_FILE_NOT_ENCRYPTED),
            6008 => Some(WinErrorWindows::ERROR_NOT_EXPORT_FORMAT),
            6009 => Some(WinErrorWindows::ERROR_FILE_READ_ONLY),
            6010 => Some(WinErrorWindows::ERROR_DIR_EFS_DISALLOWED),
            6011 => Some(WinErrorWindows::ERROR_EFS_SERVER_NOT_TRUSTED),
            6012 => Some(WinErrorWindows::ERROR_BAD_RECOVERY_POLICY),
            6013 => Some(WinErrorWindows::ERROR_EFS_ALG_BLOB_TOO_BIG),
            6014 => Some(WinErrorWindows::ERROR_VOLUME_NOT_SUPPORT_EFS),
            6015 => Some(WinErrorWindows::ERROR_EFS_DISABLED),
            6016 => Some(WinErrorWindows::ERROR_EFS_VERSION_NOT_SUPPORT),
            6017 => Some(WinErrorWindows::ERROR_CS_ENCRYPTION_INVALID_SERVER_RESPONSE),
            6018 => Some(WinErrorWindows::ERROR_CS_ENCRYPTION_UNSUPPORTED_SERVER),
            6019 => Some(WinErrorWindows::ERROR_CS_ENCRYPTION_EXISTING_ENCRYPTED_FILE),
            6020 => Some(WinErrorWindows::ERROR_CS_ENCRYPTION_NEW_ENCRYPTED_FILE),
            6021 => Some(WinErrorWindows::ERROR_CS_ENCRYPTION_FILE_NOT_CSE),
            6022 => Some(WinErrorWindows::ERROR_ENCRYPTION_POLICY_DENIES_OPERATION),
            6023 => Some(WinErrorWindows::ERROR_WIP_ENCRYPTION_FAILED),
            6118 => Some(WinErrorWindows::ERROR_NO_BROWSER_SERVERS_FOUND),
            6250 => Some(WinErrorWindows::ERROR_CLUSTER_OBJECT_IS_CLUSTER_SET_VM),
            6600 => Some(WinErrorWindows::ERROR_LOG_SECTOR_INVALID),
            6601 => Some(WinErrorWindows::ERROR_LOG_SECTOR_PARITY_INVALID),
            6602 => Some(WinErrorWindows::ERROR_LOG_SECTOR_REMAPPED),
            6603 => Some(WinErrorWindows::ERROR_LOG_BLOCK_INCOMPLETE),
            6604 => Some(WinErrorWindows::ERROR_LOG_INVALID_RANGE),
            6605 => Some(WinErrorWindows::ERROR_LOG_BLOCKS_EXHAUSTED),
            6606 => Some(WinErrorWindows::ERROR_LOG_READ_CONTEXT_INVALID),
            6607 => Some(WinErrorWindows::ERROR_LOG_RESTART_INVALID),
            6608 => Some(WinErrorWindows::ERROR_LOG_BLOCK_VERSION),
            6609 => Some(WinErrorWindows::ERROR_LOG_BLOCK_INVALID),
            6610 => Some(WinErrorWindows::ERROR_LOG_READ_MODE_INVALID),
            6611 => Some(WinErrorWindows::ERROR_LOG_NO_RESTART),
            6612 => Some(WinErrorWindows::ERROR_LOG_METADATA_CORRUPT),
            6613 => Some(WinErrorWindows::ERROR_LOG_METADATA_INVALID),
            6614 => Some(WinErrorWindows::ERROR_LOG_METADATA_INCONSISTENT),
            6615 => Some(WinErrorWindows::ERROR_LOG_RESERVATION_INVALID),
            6616 => Some(WinErrorWindows::ERROR_LOG_CANT_DELETE),
            6617 => Some(WinErrorWindows::ERROR_LOG_CONTAINER_LIMIT_EXCEEDED),
            6618 => Some(WinErrorWindows::ERROR_LOG_START_OF_LOG),
            6619 => Some(WinErrorWindows::ERROR_LOG_POLICY_ALREADY_INSTALLED),
            6620 => Some(WinErrorWindows::ERROR_LOG_POLICY_NOT_INSTALLED),
            _ => None,
        }
    }

    /// One slice of the symbol table.
    #[verifier::spinoff_prover]
    #[verifier::rlimit(100)]
    fn to_u32_part33(self) -> (r: Option<u32>)
        ensures
            r == self.spec_to_u32_part33(),
    {
        match self {
            WinErrorWindows::ERROR_CLUSTER_FAULT_DOMAIN_S2D_CONNECTIVITY_LOSS => Some(5997),
            WinErrorWindows::ERROR_CLUSTER_INVALID_INFRASTRUCTURE_FILESERVER_NAME => Some(5998),
            WinErrorWindows::ERROR_CLUSTERSET_MANAGEMENT_CLUSTER_UNREACHABLE => Some(5999),
            WinErrorWindows::ERROR_ENCRYPTION_FAILED => Some(6000),
            WinErrorWindows::ERROR_DECRYPTION_FAILED => Some(6001),
            WinErrorWindows::ERROR_FILE_ENCRYPTED => Some(6002),
            WinErrorWindows::ERROR_NO_RECOVERY_POLICY => Some(6003),
            WinErrorWindows::ERROR_NO_EFS => Some(6004),
            WinErrorWindows::ERROR_WRONG_EFS => Some(6005),
            WinErrorWindows::ERROR_NO_USER_KEYS => Some(6006),
            WinErrorWindows::ERROR_FILE_NOT_ENCRYPTED => Some(6007),
            WinErrorWindows::ERROR_NOT_EXPORT_FORMAT => Some(6008),
            WinErrorWindows::ERROR_FILE_READ_ONLY => Some(6009),
            WinErrorWindows::ERROR_DIR_EFS_DISALLOWED => Some(6010),
            WinErrorWindows::ERROR_EFS_SERVER_NOT_TRUSTED => Some(6011),
            WinErrorWindows::ERROR_BAD_RECOVERY_POLICY => Some(6012),
            WinErrorWindows::ERROR_EFS_ALG_BLOB_TOO_BIG => Some(6013),
            WinErrorWindows::ERROR_VOLUME_NOT_SUPPORT_EFS => Some(6014),
            WinErrorWindows::ERROR_EFS_DISABLED => Some(6015),
            WinErrorWindows::ERROR_EFS_VERSION_NOT_SUPPORT => Some(6016),
            WinErrorWindows::ERROR_CS_ENCRYPTION_INVALID_SERVER_RESPONSE => Some(6017),
            WinErrorWindows::ERROR_CS_ENCRYPTION_UNSUPPORTED_SERVER => Some(6018),
            WinErrorWindows::ERROR_CS_ENCRYPTION_EXISTING_ENCRYPTED_FILE => Some(6019),
            WinErrorWindows::ERROR_CS_ENCRYPTION_NEW_ENCRYPTED_FILE => Some(6020),
            WinErrorWindows::ERROR_CS_ENCRYPTION_FILE_NOT_CSE => Some(6021),
            WinErrorWindows::ERROR_ENCRYPTION_POLICY_DENIES_OPERATION => Some(6022),
            WinErrorWindows::ERROR_WIP_ENCRYPTION_FAILED => Some(6023),
            WinErrorWindows::ERROR_NO_BROWSER_SERVERS_FOUND => Some(6118),
            WinErrorWindows::ERROR_CLUSTER_OBJECT_IS_CLUSTER_SET_VM => Some(6250),
            WinErrorWindows::ERROR_LOG_SECTOR_INVALID => Some(6600),
            WinErrorWindows::ERROR_LOG_SECTOR_PARITY_INVALID => Some(6601),
            WinErrorWindows::ERROR_LOG_SECTOR_REMAPPED => Some(6602),
            WinErrorWindows::ERROR_LOG_BLOCK_INCOMPLETE => Some(6603),
            WinErrorWindows::ERROR_LOG_INVALID_RANGE => Some(6604),
            WinErrorWindows::ERROR_LOG_BLOCKS_EXHAUSTED => Some(6605),
            WinErrorWindows::ERROR_LOG_READ_CONTEXT_INVALID => Some(6606),
            WinErrorWindows::ERROR_LOG_RESTART_INVALID => Some(6607),
            WinErrorWindows::ERROR_LOG_BLOCK_VERSION => Some(6608),
            WinErrorWindows::ERROR_LOG_BLOCK_INVALID => Some(6609),
            WinErrorWindows::ERROR_LOG_READ_MODE_INVALID => Some(6610),
            WinErrorWindows::ERROR_LOG_NO_RESTART => Some(6611),
            WinErrorWindows::ERROR_LOG_METADATA_CORRUPT => Some(6612),
            WinErrorWindows::ERROR_LOG_METADATA_INVALID => Some(6613),
            WinErrorWindows::ERROR_LOG_METADATA_INCONSISTENT => Some(6614),
            WinErrorWindows::ERROR_LOG_RESERVATION_INVALID => Some(6615),
            WinErrorWindows::ERROR_LOG_CANT_DELETE => Some(6616),
            WinErrorWindows::ERROR_LOG_CONTAINER_LIMIT_EXCEEDED => Some(6617),
            WinErrorWindows::ERROR_LOG_START_OF_LOG => Some(6618),
            WinErrorWindows::ERROR_LOG_POLICY_ALREADY_INSTALLED => Some(6619),
            WinErrorWindows::ERROR_LOG_POLICY_NOT_INSTALLED => Some(6620),
            _ => None,
        }
    }

    /// One slice of the symbol table.
    #[verifier::spinoff_prover]
    #[verifier::rlimit(100)]
    fn from_u32_part33(raw: u32) -> (r: Option<WinErrorWindows>)
        ensures
            r == WinErrorWindows::spec_from_u32_part33(raw),
    {
        match raw {
            5997 => Some(WinErrorWindows::ERROR_CLUSTER_FAULT_DOMAIN_S2D_CONNECTIVITY_LOSS),
            5998 => Some(WinErrorWindows::ERROR_CLUSTER_INVALID_INFRASTRUCTURE_FILESERVER_NAME),
            5999 => Some(WinErrorWindows::ERROR_CLUSTERSET_MANAGEMENT_CLUSTER_UNREACHABLE),
            6000 => Some(WinErrorWindows::ERROR_ENCRYPTION_FAILED),
            6001 => Some(WinErrorWindows::ERROR_DECRYPTION_FAILED),
            6002 => Some(WinErrorWindows::ERROR_FILE_ENCRYPTED),
            6003 => Some(WinErrorWindows::ERROR_NO_RECOVERY_POLICY),
            6004 => Some(WinErrorWindows::ERROR_NO_EFS),
            6005 => Some(WinErrorWindows::ERROR_WRONG_EFS),
            6006 => Some(WinErrorWindows::ERROR_NO_USER_KEYS),
            6007 => Some(WinErrorWindows::ERROR_FILE_NOT_ENCRYPTED),
            6008 => Some(WinErrorWindows::ERROR_NOT_EXPORT_FORMAT),
            6009 => Some(WinErrorWindows::ERROR_FILE_READ_ONLY),
            6010 => Some(WinErrorWindows::ERROR_DIR_EFS_DISALLOWED),
            6011 => Some(WinErrorWindows::ERROR_EFS_SERVER_NOT_TRUSTED),
            6012 => Some(WinErrorWindows::ERROR_BAD_RECOVERY_POLICY),
            6013 => Some(WinErrorWindows::ERROR_EFS_ALG_BLOB_TOO_BIG),
            6014 => Some(WinErrorWindows::ERROR_VOLUME_NOT_SUPPORT_EFS),
            6015 => Some(WinErrorWindows::ERROR_EFS_DISABLED),
            6016 => Some(WinErrorWindows::ERROR_EFS_VERSION_NOT_SUPPORT),
            6017 => Some(WinErrorWindows::ERROR_CS_ENCRYPTION_INVALID_SERVER_RESPONSE),
            6018 => Some(WinErrorWindows::ERROR_CS_ENCRYPTION_UNSUPPORTED_SERVER),
            6019 => Some(WinErrorWindows::ERROR_CS_ENCRYPTION_EXISTING_ENCRYPTED_FILE),
            6020 => Some(WinErrorWindows::ERROR_CS_ENCRYPTION_NEW_ENCRYPTED_FILE),
            6021 => Some(WinErrorWindows::ERROR_CS_ENCRYPTION_FILE_NOT_CSE),
            6022 => Some(WinErrorWindows::ERROR_ENCRYPTION_POLICY_DENIES_OPERATION),
            6023 => Some(WinErrorWindows::ERROR_WIP_ENCRYPTION_FAILED),
            6118 => Some(WinErrorWindows::ERROR_NO_BROWSER_SERVERS_FOUND),
            6250 => Some(WinErrorWindows::ERROR_CLUSTER_OBJECT_IS_CLUSTER_SET_VM),
            6600 => Some(WinErrorWindows::ERROR_LOG_SECTOR_INVALID),
            6601 => Some(WinErrorWindows::ERROR_LOG_SECTOR_PARITY_INVALID),
            6602 => Some(WinErrorWindows::ERROR_LOG_SECTOR_REMAPPED),
            6603 => Some(WinErrorWindows::ERROR_LOG_BLOCK_INCOMPLETE),
            6604 => Some(WinErrorWindows::ERROR_LOG_INVALID_RANGE),
            6605 => Some(WinErrorWindows::ERROR_LOG_BLOCKS_EXHAUSTED),
            6606 => Some(WinErrorWindows::ERROR_LOG_READ_CONTEXT_INVALID),
            6607 => Some(WinErrorWindows::ERROR_LOG_RESTART_INVALID),
            6608 => Some(WinErrorWindows::ERROR_LOG_BLOCK_VERSION),
            6609 => Some(WinErrorWindows::ERROR_LOG_BLOCK_INVALID),
            6610 => Some(WinErrorWindows::ERROR_LOG_READ_MODE_INVALID),
            6611 => Some(WinErrorWindows::ERROR_LOG_NO_RESTART),
            6612 => Some(WinErrorWindows::ERROR_LOG_METADATA_CORRUPT),
            6613 => Some(WinErrorWindows::ERROR_LOG_METADATA_INVALID),
            6614 => Some(WinErrorWindows::ERROR_LOG_METADATA_INCONSISTENT),
            6615 => Some(WinErrorWindows::ERROR_LOG_RESERVATION_INVALID),
            6616 => Some(WinErrorWindows::ERROR_LOG_CANT_DELETE),
            6617 => Some(WinErrorWindows::ERROR_LOG_CONTAINER_LIMIT_EXCEEDED),
            6618 => Some(WinErrorWindows::ERROR_LOG_START_OF_LOG),
            6619 => Some(WinErrorWindows::ERROR_LOG_POLICY_ALREADY_INSTALLED),
            6620 => Some(WinErrorWindows::ERROR_LOG_POLICY_NOT_INSTALLED),
            _ => None,
        }
    }

    /// One slice of the symbol table: the raw value of this symbol,
    /// where this slice holds it.
    pub open spec fn spec_to_u32_part34(self) -> Option<u32> {
        match self {
            WinErrorWindows::ERROR_LOG_POLICY_INVALID => Some(6621),
            WinErrorWindows::ERROR_LOG_POLICY_CONFLICT => Some(6622),
            WinErrorWindows::ERROR_LOG_PINNED_ARCHIVE_TAIL => Some(6623),
            WinErrorWindows::ERROR_LOG_RECORD_NONEXISTENT => Some(6624),
            WinErrorWindows::ERROR_LOG_RECORDS_RESERVED_INVALID => Some(6625),
            WinErrorWindows::ERROR_LOG_SPACE_RESERVED_INVALID => Some(6626),
            WinErrorWindows::ERROR_LOG_TAIL_INVALID => Some(6627),
            WinErrorWindows::ERROR_LOG_FULL => Some(6628),
            WinErrorWindows::ERROR_COULD_NOT_RESIZE_LOG => Some(6629),
            WinErrorWindows::ERROR_LOG_MULTIPLEXED => Some(6630),
            WinErrorWindows::ERROR_LOG_DEDICATED => Some(6631),
            WinErrorWindows::ERROR_LOG_ARCHIVE_NOT_IN_PROGRESS => Some(6632),
            WinErrorWindows::ERROR_LOG_ARCHIVE_IN_PROGRESS => Some(6633),
            WinErrorWindows::ERROR_LOG_EPHEMERAL => Some(6634),
            WinErrorWindows::ERROR_LOG_NOT_ENOUGH_CONTAINERS => Some(6635),
            WinErrorWindows::ERROR_LOG_CLIENT_ALREADY_REGISTERED => Some(6636),
            WinErrorWindows::ERROR_LOG_CLIENT_NOT_REGISTERED => Some(6637),
            WinErrorWindows::ERROR_LOG_FULL_HANDLER_IN_PROGRESS => Some(6638),
            WinErrorWindows::ERROR_LOG_CONTAINER_READ_FAILED => Some(6639),
            WinErrorWindows::ERROR_LOG_CONTAINER_WRITE_FAILED => Some(6640),
            WinErrorWindows::ERROR_LOG_CONTAINER_OPEN_FAILED => Some(6641),
            WinErrorWindows::ERROR_LOG_CONTAINER_STATE_INVALID => Some(6642),
            WinErrorWindows::ERROR_LOG_STATE_INVALID => Some(6643),
            WinErrorWindows::ERROR_LOG_PINNED => Some(6644),
            WinErrorWindows::ERROR_LOG_METADATA_FLUSH_FAILED => Some(6645),
            WinErrorWindows::ERROR_LOG_INCONSISTENT_SECURITY => Some(6646),
            WinErrorWindows::ERROR_LOG_APPENDED_FLUSH_FAILED => Some(6647),
            WinErrorWindows::ERROR_LOG_PINNED_RESERVATION => Some(6648),
            WinErrorWindows::ERROR_INVALID_TRANSACTION => Some(6700),
            WinErrorWindows::ERROR_TRANSACTION_NOT_ACTIVE => Some(6701),
            WinErrorWindows::ERROR_TRANSACTION_REQUEST_NOT_VALID => Some(6702),
            WinErrorWindows::ERROR_TRANSACTION_NOT_REQUESTED => Some(6703),
            WinErrorWindows::ERROR_TRANSACTION_ALREADY_ABORTED => Some(6704),
            WinErrorWindows::ERROR_TRANSACTION_ALREADY_COMMITTED => Some(6705),
            WinErrorWindows::ERROR_TM_INITIALIZATION_FAILED => Some(6706),
            WinErrorWindows::ERROR_RESOURCEMANAGER_READ_ONLY => Some(6707),
            WinErrorWindows::ERROR_TRANSACTION_NOT_JOINED => Some(6708),
            WinErrorWindows::ERROR_TRANSACTION_SUPERIOR_EXISTS => Some(6709),
            WinErrorWindows::ERROR_CRM_PROTOCOL_ALREADY_EXISTS => Some(6710),
            WinErrorWindows::ERROR_TRANSACTION_PROPAGATION_FAILED => Some(6711),
            WinErrorWindows::ERROR_CRM_PROTOCOL_NOT_FOUND => Some(6712),
            WinErrorWindows::ERROR_TRANSACTION_INVALID_MARSHALL_BUFFER => Some(6713),
            WinErrorWindows::ERROR_CURRENT_TRANSACTION_NOT_VALID => Some(6714),
            WinErrorWindows::ERROR_TRANSACTION_NOT_FOUND => Some(6715),
            WinErrorWindows::ERROR_RESOURCEMANAGER_NOT_FOUND => Some(6716),
            WinErrorWindows::ERROR_ENLISTMENT_NOT_FOUND => Some(6717),
            WinErrorWindows::ERROR_TRANSACTIONMANAGER_NOT_FOUND => Some(6718),
            WinErrorWindows::ERROR_TRANSACTIONMANAGER_NOT_ONLINE => Some(6719),
            WinErrorWindows::ERROR_TRANSACTIONMANAGER_RECOVERY_NAME_COLLISION => Some(6720),
            WinErrorWindows::ERROR_TRANSACTION_NOT_ROOT => Some(6721),
            _ => None,
        }
    }

    /// One slice of the symbol table: the symbol this slice gives a
    /// raw value, where it holds one.
    pub open spec fn spec_from_u32_part34(raw: u32) -> Option<WinErrorWindows> {
        match raw {
            6621 => Some(WinErrorWindows::ERROR_LOG_POLICY_INVALID),
            6622 => Some(WinErrorWindows::ERROR_LOG_POLICY_CONFLICT),
            6623 => Some(WinErrorWindows::ERROR_LOG_PINNED_ARCHIVE_TAIL),
            6624 => Some(WinErrorWindows::ERROR_LOG_RECORD_NONEXISTENT),
            6625 => Some(WinErrorWindows::ERROR_LOG_RECORDS_RESERVED_INVALID),
            6626 => Some(WinErrorWindows::ERROR_LOG_SPACE_RESERVED_INVALID),
            6627 => Some(WinErrorWindows::ERROR_LOG_TAIL_INVALID),
            6628 => Some(WinErrorWindows::ERROR_LOG_FULL),
            6629 => Some(WinErrorWindows::ERROR_COULD_NOT_RESIZE_LOG),
            6630 => Some(WinErrorWindows::ERROR_LOG_MULTIPLEXED),
            6631 => Some(WinErrorWindows::ERROR_LOG_DEDICATED),
            6632 => Some(WinErrorWindows::ERROR_LOG_ARCHIVE_NOT_IN_PROGRESS),
            6633 => Some(WinErrorWindows::ERROR_LOG_ARCHIVE_IN_PROGRESS),
            6634 => Some(WinErrorWindows::ERROR_LOG_EPHEMERAL),
            6635 => Some(WinErrorWindows::ERROR_LOG_NOT_ENOUGH_CONTAINERS),
            6636 => Some(WinErrorWindows::ERROR_LOG_CLIENT_ALREADY_REGISTERED),
            6637 => Some(WinErrorWindows::ERROR_LOG_CLIENT_NOT_REGISTERED),
            6638 => Some(WinErrorWindows::ERROR_LOG_FULL_HANDLER_IN_PROGRESS),
            6639 => Some(WinErrorWindows::ERROR_LOG_CONTAINER_READ_FAILED),
            6640 => Some(WinErrorWindows::ERROR_LOG_CONTAINER_WRITE_FAILED),
            6641 => Some(WinErrorWindows::ERROR_LOG_CONTAINER_OPEN_FAILED),
            6642 => Some(WinErrorWindows::ERROR_LOG_CONTAINER_STATE_INVALID),
            6643 => Some(WinErrorWindows::ERROR_LOG_STATE_INVALID),
            6644 => Some(WinErrorWindows::ERROR_LOG_PINNED),
            6645 => Some(WinErrorWindows::ERROR_LOG_METADATA_FLUSH_FAILED),
            6646 => Some(WinErrorWindows::ERROR_LOG_INCONSISTENT_SECURITY),
            6647 => Some(WinErrorWindows::ERROR_LOG_APPENDED_FLUSH_FAILED),
            6648 => Some(WinErrorWindows::ERROR_LOG_PINNED_RESERVATION),
            6700 => Some(WinErrorWindows::ERROR_INVALID_TRANSACTION),
            6701 => Some(WinErrorWindows::ERROR_TRANSACTION_NOT_ACTIVE),
            6702 => Some(WinErrorWindows::ERROR_TRANSACTION_REQUEST_NOT_VALID),
            6703 => Some(WinErrorWindows::ERROR_TRANSACTION_NOT_REQUESTED),
            6704 => Some(WinErrorWindows::ERROR_TRANSACTION_ALREADY_ABORTED),
            6705 => Some(WinErrorWindows::ERROR_TRANSACTION_ALREADY_COMMITTED),
            6706 => Some(WinErrorWindows::ERROR_TM_INITIALIZATION_FAILED),
            6707 => Some(WinErrorWindows::ERROR_RESOURCEMANAGER_READ_ONLY),
            6708 => Some(WinErrorWindows::ERROR_TRANSACTION_NOT_JOINED),
            6709 => Some(WinErrorWindows::ERROR_TRANSACTION_SUPERIOR_EXISTS),
            6710 => Some(WinErrorWindows::ERROR_CRM_PROTOCOL_ALREADY_EXISTS),
            6711 => Some(WinErrorWindows::ERROR_TRANSACTION_PROPAGATION_FAILED),
            6712 => Some(WinErrorWindows::ERROR_CRM_PROTOCOL_NOT_FOUND),
            6713 => Some(WinErrorWindows::ERROR_TRANSACTION_INVALID_MARSHALL_BUFFER),
            6714 => Some(WinErrorWindows::ERROR_CURRENT_TRANSACTION_NOT_VALID),
            6715 => Some(WinErrorWindows::ERROR_TRANSACTION_NOT_FOUND),
            6716 => Some(WinErrorWindows::ERROR_RESOURCEMANAGER_NOT_FOUND),
            6717 => Some(WinErrorWindows::ERROR_ENLISTMENT_NOT_FOUND),
            6718 => Some(WinErrorWindows::ERROR_TRANSACTIONMANAGER_NOT_FOUND),
            6719 => Some(WinErrorWindows::ERROR_TRANSACTIONMANAGER_NOT_ONLINE),
            6720 => Some(WinErrorWindows::ERROR_TRANSACTIONMANAGER_RECOVERY_NAME_COLLISION),
            6721 => Some(WinErrorWindows::ERROR_TRANSACTION_NOT_ROOT),
            _ => None,
        }
    }

    /// One slice of the symbol table.
    #[verifier::spinoff_prover]
    #[verifier::rlimit(100)]
    fn to_u32_part34(self) -> (r: Option<u32>)
        ensures
            r == self.spec_to_u32_part34(),
    {
        match self {
            WinErrorWindows::ERROR_LOG_POLICY_INVALID => Some(6621),
            WinErrorWindows::ERROR_LOG_POLICY_CONFLICT => Some(6622),
            WinErrorWindows::ERROR_LOG_PINNED_ARCHIVE_TAIL => Some(6623),
            WinErrorWindows::ERROR_LOG_RECORD_NONEXISTENT => Some(6624),
            WinErrorWindows::ERROR_LOG_RECORDS_RESERVED_INVALID => Some(6625),
            WinErrorWindows::ERROR_LOG_SPACE_RESERVED_INVALID => Some(6626),
            WinErrorWindows::ERROR_LOG_TAIL_INVALID => Some(6627),
            WinErrorWindows::ERROR_LOG_FULL => Some(6628),
            WinErrorWindows::ERROR_COULD_NOT_RESIZE_LOG => Some(6629),
            WinErrorWindows::ERROR_LOG_MULTIPLEXED => Some(6630),
            WinErrorWindows::ERROR_LOG_DEDICATED => Some(6631),
            WinErrorWindows::ERROR_LOG_ARCHIVE_NOT_IN_PROGRESS => Some(6632),
            WinErrorWindows::ERROR_LOG_ARCHIVE_IN_PROGRESS => Some(6633),
            WinErrorWindows::ERROR_LOG_EPHEMERAL => Some(6634),
            WinErrorWindows::ERROR_LOG_NOT_ENOUGH_CONTAINERS => Some(6635),
            WinErrorWindows::ERROR_LOG_CLIENT_ALREADY_REGISTERED => Some(6636),
            WinErrorWindows::ERROR_LOG_CLIENT_NOT_REGISTERED => Some(6637),
            WinErrorWindows::ERROR_LOG_FULL_HANDLER_IN_PROGRESS => Some(6638),
            WinErrorWindows::ERROR_LOG_CONTAINER_READ_FAILED => Some(6639),
            WinErrorWindows::ERROR_LOG_CONTAINER_WRITE_FAILED => Some(6640),
            WinErrorWindows::ERROR_LOG_CONTAINER_OPEN_FAILED => Some(6641),
            WinErrorWindows::ERROR_LOG_CONTAINER_STATE_INVALID => Some(6642),
            WinErrorWindows::ERROR_LOG_STATE_INVALID => Some(6643),
            WinErrorWindows::ERROR_LOG_PINNED => Some(6644),
            WinErrorWindows::ERROR_LOG_METADATA_FLUSH_FAILED => Some(6645),
            WinErrorWindows::ERROR_LOG_INCONSISTENT_SECURITY => Some(6646),
            WinErrorWindows::ERROR_LOG_APPENDED_FLUSH_FAILED => Some(6647),
            WinErrorWindows::ERROR_LOG_PINNED_RESERVATION => Some(6648),
            WinErrorWindows::ERROR_INVALID_TRANSACTION => Some(6700),
            WinErrorWindows::ERROR_TRANSACTION_NOT_ACTIVE => Some(6701),
            WinErrorWindows::ERROR_TRANSACTION_REQUEST_NOT_VALID => Some(6702),
            WinErrorWindows::ERROR_TRANSACTION_NOT_REQUESTED => Some(6703),
            WinErrorWindows::ERROR_TRANSACTION_ALREADY_ABORTED => Some(6704),
            WinErrorWindows::ERROR_TRANSACTION_ALREADY_COMMITTED => Some(6705),
            WinErrorWindows::ERROR_TM_INITIALIZATION_FAILED => Some(6706),
            WinErrorWindows::ERROR_RESOURCEMANAGER_READ_ONLY => Some(6707),
            WinErrorWindows::ERROR_TRANSACTION_NOT_JOINED => Some(6708),
            WinErrorWindows::ERROR_TRANSACTION_SUPERIOR_EXISTS => Some(6709),
            WinErrorWindows::ERROR_CRM_PROTOCOL_ALREADY_EXISTS => Some(6710),
            WinErrorWindows::ERROR_TRANSACTION_PROPAGATION_FAILED => Some(6711),
            WinErrorWindows::ERROR_CRM_PROTOCOL_NOT_FOUND => Some(6712),
            WinErrorWindows::ERROR_TRANSACTION_INVALID_MARSHALL_BUFFER => Some(6713),
            WinErrorWindows::ERROR_CURRENT_TRANSACTION_NOT_VALID => Some(6714),
            WinErrorWindows::ERROR_TRANSACTION_NOT_FOUND => Some(6715),
            WinErrorWindows::ERROR_RESOURCEMANAGER_NOT_FOUND => Some(6716),
            WinErrorWindows::ERROR_ENLISTMENT_NOT_FOUND => Some(6717),
            WinErrorWindows::ERROR_TRANSACTIONMANAGER_NOT_FOUND => Some(6718),
            WinErrorWindows::ERROR_TRANSACTIONMANAGER_NOT_ONLINE => Some(6719),
            WinErrorWindows::ERROR_TRANSACTIONMANAGER_RECOVERY_NAME_COLLISION => Some(6720),
            WinErrorWindows::ERROR_TRANSACTION_NOT_ROOT => Some(6721),
            _ => None,
        }
    }

    /// One slice of the symbol table.
    #[verifier::spinoff_prover]
    #[verifier::rlimit(100)]
    fn from_u32_part34(raw: u32) -> (r: Option<WinErrorWindows>)
        ensures
            r == WinErrorWindows::spec_from_u32_part34(raw),
    {
        match raw {
            6621 => Some(WinErrorWindows::ERROR_LOG_POLICY_INVALID),
            6622 => Some(WinErrorWindows::ERROR_LOG_POLICY_CONFLICT),
            6623 => Some(WinErrorWindows::ERROR_LOG_PINNED_ARCHIVE_TAIL),
            6624 => Some(WinErrorWindows::ERROR_LOG_RECORD_NONEXISTENT),
            6625 => Some(WinErrorWindows::ERROR_LOG_RECORDS_RESERVED_INVALID),
            6626 => Some(WinErrorWindows::ERROR_LOG_SPACE_RESERVED_INVALID),
            6627 => Some(WinErrorWindows::ERROR_LOG_TAIL_INVALID),
            6628 => Some(WinErrorWindows::ERROR_LOG_FULL),
            6629 => Some(WinErrorWindows::ERROR_COULD_NOT_RESIZE_LOG),
            6630 => Some(WinErrorWindows::ERROR_LOG_MULTIPLEXED),
            6631 => Some(WinErrorWindows::ERROR_LOG_DEDICATED),
            6632 => Some(WinErrorWindows::ERROR_LOG_ARCHIVE_NOT_IN_PROGRESS),
            6633 => Some(WinErrorWindows::ERROR_LOG_ARCHIVE_IN_PROGRESS),
            6634 => Some(WinErrorWindows::ERROR_LOG_EPHEMERAL),
            6635 => Some(WinErrorWindows::ERROR_LOG_NOT_ENOUGH_CONTAINERS),
            6636 => Some(WinErrorWindows::ERROR_LOG_CLIENT_ALREADY_REGISTERED),
            6637 => Some(WinErrorWindows::ERROR_LOG_CLIENT_NOT_REGISTERED),
            6638 => Some(WinErrorWindows::ERROR_LOG_FULL_HANDLER_IN_PROGRESS),
            6639 => Some(WinErrorWindows::ERROR_LOG_CONTAINER_READ_FAILED),
            6640 => Some(WinErrorWindows::ERROR_LOG_CONTAINER_WRITE_FAILED),
            6641 => Some(WinErrorWindows::ERROR_LOG_CONTAINER_OPEN_FAILED),
            6642 => Some(WinErrorWindows::ERROR_LOG_CONTAINER_STATE_INVALID),
            6643 => Some(WinErrorWindows::ERROR_LOG_STATE_INVALID),
            6644 => Some(WinErrorWindows::ERROR_LOG_PINNED),
            6645 => Some(WinErrorWindows::ERROR_LOG_METADATA_FLUSH_FAILED),
            6646 => Some(WinErrorWindows::ERROR_LOG_INCONSISTENT_SECURITY),
            6647 => Some(WinErrorWindows::ERROR_LOG_APPENDED_FLUSH_FAILED),
            6648 => Some(WinErrorWindows::ERROR_LOG_PINNED_RESERVATION),
            6700 => Some(WinErrorWindows::ERROR_INVALID_TRANSACTION),
            6701 => Some(WinErrorWindows::ERROR_TRANSACTION_NOT_ACTIVE),
            6702 => Some(WinErrorWindows::ERROR_TRANSACTION_REQUEST_NOT_VALID),
            6703 => Some(WinErrorWindows::ERROR_TRANSACTION_NOT_REQUESTED),
            6704 => Some(WinErrorWindows::ERROR_TRANSACTION_ALREADY_ABORTED),
            6705 => Some(WinErrorWindows::ERROR_TRANSACTION_ALREADY_COMMITTED),
            6706 => Some(WinErrorWindows::ERROR_TM_INITIALIZATION_FAILED),
            6707 => Some(WinErrorWindows::ERROR_RESOURCEMANAGER_READ_ONLY),
            6708 => Some(WinErrorWindows::ERROR_TRANSACTION_NOT_JOINED),
            6709 => Some(WinErrorWindows::ERROR_TRANSACTION_SUPERIOR_EXISTS),
            6710 => Some(WinErrorWindows::ERROR_CRM_PROTOCOL_ALREADY_EXISTS),
            6711 => Some(WinErrorWindows::ERROR_TRANSACTION_PROPAGATION_FAILED),
            6712 => Some(WinErrorWindows::ERROR_CRM_PROTOCOL_NOT_FOUND),
            6713 => Some(WinErrorWindows::ERROR_TRANSACTION_INVALID_MARSHALL_BUFFER),
            6714 => Some(WinErrorWindows::ERROR_CURRENT_TRANSACTION_NOT_VALID),
            6715 => Some(WinErrorWindows::ERROR_TRANSACTION_NOT_FOUND),
            6716 => Some(WinErrorWindows::ERROR_RESOURCEMANAGER_NOT_FOUND),
            6717 => Some(WinErrorWindows::ERROR_ENLISTMENT_NOT_FOUND),
            6718 => Some(WinErrorWindows::ERROR_TRANSACTIONMANAGER_NOT_FOUND),
            6719 => Some(WinErrorWindows::ERROR_TRANSACTIONMANAGER_NOT_ONLINE),
            6720 => Some(WinErrorWindows::ERROR_TRANSACTIONMANAGER_RECOVERY_NAME_COLLISION),
            6721 => Some(WinErrorWindows::ERROR_TRANSACTION_NOT_ROOT),
            _ => None,
        }
    }

    /// One slice of the symbol table: the raw value of this symbol,
    /// where this slice holds it.
    pub open spec fn spec_to_u32_part35(self) -> Option<u32> {
        match self {
            WinErrorWindows::ERROR_TRANSACTION_OBJECT_EXPIRED => Some(6722),
            WinErrorWindows::ERROR_TRANSACTION_RESPONSE_NOT_ENLISTED => Some(6723),
            WinErrorWindows::ERROR_TRANSACTION_RECORD_TOO_LONG => Some(6724),
            WinErrorWindows::ERROR_IMPLICIT_TRANSACTION_NOT_SUPPORTED => Some(6725),
            WinErrorWindows::ERROR_TRANSACTION_INTEGRITY_VIOLATED => Some(6726),
            WinErrorWindows::ERROR_TRANSACTIONMANAGER_IDENTITY_MISMATCH => Some(6727),
            WinErrorWindows::ERROR_RM_CANNOT_BE_FROZEN_FOR_SNAPSHOT => Some(6728),
            WinErrorWindows::ERROR_TRANSACTION_MUST_WRITETHROUGH => Some(6729),
            WinErrorWindows::ERROR_TRANSACTION_NO_SUPERIOR => Some(6730),
            WinErrorWindows::ERROR_HEURISTIC_DAMAGE_POSSIBLE => Some(6731),
            WinErrorWindows::ERROR_TRANSACTIONAL_CONFLICT => Some(6800),
            WinErrorWindows::ERROR_RM_NOT_ACTIVE => Some(6801),
            WinErrorWindows::ERROR_RM_METADATA_CORRUPT => Some(6802),
            WinErrorWindows::ERROR_DIRECTORY_NOT_RM => Some(6803),
            WinErrorWindows::ERROR_TRANSACTIONS_UNSUPPORTED_REMOTE => Some(6805),
            WinErrorWindows::ERROR_LOG_RESIZE_INVALID_SIZE => Some(6806),
            WinErrorWindows::ERROR_OBJECT_NO_LONGER_EXISTS => Some(6807),
            WinErrorWindows::ERROR_STREAM_MINIVERSION_NOT_FOUND => Some(6808),
            WinErrorWindows::ERROR_STREAM_MINIVERSION_NOT_VALID => Some(6809),
            WinErrorWindows::ERROR_MINIVERSION_INACCESSIBLE_FROM_SPECIFIED_TRANSACTION => Some(6810),
            WinErrorWindows::ERROR_CANT_OPEN_MINIVERSION_WITH_MODIFY_INTENT => Some(6811),
            WinErrorWindows::ERROR_CANT_CREATE_MORE_STREAM_MINIVERSIONS => Some(6812),
            WinErrorWindows::ERROR_REMOTE_FILE_VERSION_MISMATCH => Some(6814),
            WinErrorWindows::ERROR_HANDLE_NO_LONGER_VALID => Some(6815),
            WinErrorWindows::ERROR_NO_TXF_METADATA => Some(6816),
            WinErrorWindows::ERROR_LOG_CORRUPTION_DETECTED => Some(6817),
            WinErrorWindows::ERROR_CANT_RECOVER_WITH_HANDLE_OPEN => Some(6818),
            WinErrorWindows::ERROR_RM_DISCONNECTED => Some(6819),
            WinErrorWindows::ERROR_ENLISTMENT_NOT_SUPERIOR => Some(6820),
            WinErrorWindows::ERROR_RECOVERY_NOT_NEEDED => Some(6821),
            WinErrorWindows::ERROR_RM_ALREADY_STARTED => Some(6822),
            WinErrorWindows::ERROR_FILE_IDENTITY_NOT_PERSISTENT => Some(6823),
            WinErrorWindows::ERROR_CANT_BREAK_TRANSACTIONAL_DEPENDENCY => Some(6824),
            WinErrorWindows::ERROR_CANT_CROSS_RM_BOUNDARY => Some(6825),
            WinErrorWindows::ERROR_TXF_DIR_NOT_EMPTY => Some(6826),
            WinErrorWindows::ERROR_INDOUBT_TRANSACTIONS_EXIST => Some(6827),
            WinErrorWindows::ERROR_TM_VOLATILE => Some(6828),
            WinErrorWindows::ERROR_ROLLBACK_TIMER_EXPIRED => Some(6829),
            WinErrorWindows::ERROR_TXF_ATTRIBUTE_CORRUPT => Some(6830),
            WinErrorWindows::ERROR_EFS_NOT_ALLOWED_IN_TRANSACTION => Some(6831),
            WinErrorWindows::ERROR_TRANSACTIONAL_OPEN_NOT_ALLOWED => Some(6832),
            WinErrorWindows::ERROR_LOG_GROWTH_FAILED => Some(6833),
            WinErrorWindows::ERROR_TRANSACTED_MAPPING_UNSUPPORTED_REMOTE => Some(6834),
            WinErrorWindows::ERROR_TXF_METADATA_ALREADY_PRESENT => Some(6835),
            WinErrorWindows::ERROR_TRANSACTION_SCOPE_CALLBACKS_NOT_SET => Some(6836),
            WinErrorWindows::ERROR_TRANSACTION_REQUIRED_PROMOTION => Some(6837),
            WinErrorWindows::ERROR_CANNOT_EXECUTE_FILE_IN_TRANSACTION => Some(6838),
            WinErrorWindows::ERROR_TRANSACTIONS_NOT_FROZEN => Some(6839),
            WinErrorWindows::ERROR_TRANSACTION_FREEZE_IN_PROGRESS => Some(6840),
            WinErrorWindows::ERROR_NOT_SNAPSHOT_VOLUME => Some(6841),
            _ => None,
        }
    }

    /// One slice of the symbol table: the symbol this slice gives a
    /// raw value, where it holds one.
    pub open spec fn spec_from_u32_part35(raw: u32) -> Option<WinErrorWindows> {
        match raw {
            6722 => Some(WinErrorWindows::ERROR_TRANSACTION_OBJECT_EXPIRED),
            6723 => Some(WinErrorWindows::ERROR_TRANSACTION_RESPONSE_NOT_ENLISTED),
            6724 => Some(WinErrorWindows::ERROR_TRANSACTION_RECORD_TOO_LONG),
            6725 => Some(WinErrorWindows::ERROR_IMPLICIT_TRANSACTION_NOT_SUPPORTED),
            6726 => Some(WinErrorWindows::ERROR_TRANSACTION_INTEGRITY_VIOLATED),
            6727 => Some(WinErrorWindows::ERROR_TRANSACTIONMANAGER_IDENTITY_MISMATCH),
            6728 => Some(WinErrorWindows::ERROR_RM_CANNOT_BE_FROZEN_FOR_SNAPSHOT),
            6729 => Some(WinErrorWindows::ERROR_TRANSACTION_MUST_WRITETHROUGH),
            6730 => Some(WinErrorWindows::ERROR_TRANSACTION_NO_SUPERIOR),
            6731 => Some(WinErrorWindows::ERROR_HEURISTIC_DAMAGE_POSSIBLE),
            6800 => Some(WinErrorWindows::ERROR_TRANSACTIONAL_CONFLICT),
            6801 => Some(WinErrorWindows::ERROR_RM_NOT_ACTIVE),
            6802 => Some(WinErrorWindows::ERROR_RM_METADATA_CORRUPT),
            6803 => Some(WinErrorWindows::ERROR_DIRECTORY_NOT_RM),
            6805 => Some(WinErrorWindows::ERROR_TRANSACTIONS_UNSUPPORTED_REMOTE),
            6806 => Some(WinErrorWindows::ERROR_LOG_RESIZE_INVALID_SIZE),
            6807 => Some(WinErrorWindows::ERROR_OBJECT_NO_LONGER_EXISTS),
            6808 => Some(WinErrorWindows::ERROR_STREAM_MINIVERSION_NOT_FOUND),
            6809 => Some(WinErrorWindows::ERROR_STREAM_MINIVERSION_NOT_VALID),
            6810 => Some(WinErrorWindows::ERROR_MINIVERSION_INACCESSIBLE_FROM_SPECIFIED_TRANSACTION),
            6811 => Some(WinErrorWindows::ERROR_CANT_OPEN_MINIVERSION_WITH_MODIFY_INTENT),
            6812 => Some(WinErrorWindows::ERROR_CANT_CREATE_MORE_STREAM_MINIVERSIONS),
            6814 => Some(WinErrorWindows::ERROR_REMOTE_FILE_VERSION_MISMATCH),
            6815 => Some(WinErrorWindows::ERROR_HANDLE_NO_LONGER_VALID),
            6816 => Some(WinErrorWindows::ERROR_NO_TXF_METADATA),
            6817 => Some(WinErrorWindows::ERROR_LOG_CORRUPTION_DETECTED),
            6818 => Some(WinErrorWindows::ERROR_CANT_RECOVER_WITH_HANDLE_OPEN),
            6819 => Some(WinErrorWindows::ERROR_RM_DISCONNECTED),
            6820 => Some(WinErrorWindows::ERROR_ENLISTMENT_NOT_SUPERIOR),
            6821 => Some(WinErrorWindows::ERROR_RECOVERY_NOT_NEEDED),
            6822 => Some(WinErrorWindows::ERROR_RM_ALREADY_STARTED),
            6823 => Some(WinErrorWindows::ERROR_FILE_IDENTITY_NOT_PERSISTENT),
            6824 => Some(WinErrorWindows::ERROR_CANT_BREAK_TRANSACTIONAL_DEPENDENCY),
            6825 => Some(WinErrorWindows::ERROR_CANT_CROSS_RM_BOUNDARY),
            6826 => Some(WinErrorWindows::ERROR_TXF_DIR_NOT_EMPTY),
            6827 => Some(WinErrorWindows::ERROR_INDOUBT_TRANSACTIONS_EXIST),
            6828 => Some(WinErrorWindows::ERROR_TM_VOLATILE),
            6829 => Some(WinErrorWindows::ERROR_ROLLBACK_TIMER_EXPIRED),
            6830 => Some(WinErrorWindows::ERROR_TXF_ATTRIBUTE_CORRUPT),
            6831 => Some(WinErrorWindows::ERROR_EFS_NOT_ALLOWED_IN_TRANSACTION),
            6832 => Some(WinErrorWindows::ERROR_TRANSACTIONAL_OPEN_NOT_ALLOWED),
            6833 => Some(WinErrorWindows::ERROR_LOG_GROWTH_FAILED),
            6834 => Some(WinErrorWindows::ERROR_TRANSACTED_MAPPING_UNSUPPORTED_REMOTE),
            6835 => Some(WinErrorWindows::ERROR_TXF_METADATA_ALREADY_PRESENT),
            6836 => Some(WinErrorWindows::ERROR_TRANSACTION_SCOPE_CALLBACKS_NOT_SET),
            6837 => Some(WinErrorWindows::ERROR_TRANSACTION_REQUIRED_PROMOTION),
            6838 => Some(WinErrorWindows::ERROR_CANNOT_EXECUTE_FILE_IN_TRANSACTION),
            6839 => Some(WinErrorWindows::ERROR_TRANSACTIONS_NOT_FROZEN),
            6840 => Some(WinErrorWindows::ERROR_TRANSACTION_FREEZE_IN_PROGRESS),
            6841 => Some(WinErrorWindows::ERROR_NOT_SNAPSHOT_VOLUME),
            _ => None,
        }
    }

    /// One slice of the symbol table.
    #[verifier::spinoff_prover]
    #[verifier::rlimit(100)]
    fn to_u32_part35(self) -> (r: Option<u32>)
        ensures
            r == self.spec_to_u32_part35(),
    {
        match self {
            WinErrorWindows::ERROR_TRANSACTION_OBJECT_EXPIRED => Some(6722),
            WinErrorWindows::ERROR_TRANSACTION_RESPONSE_NOT_ENLISTED => Some(6723),
            WinErrorWindows::ERROR_TRANSACTION_RECORD_TOO_LONG => Some(6724),
            WinErrorWindows::ERROR_IMPLICIT_TRANSACTION_NOT_SUPPORTED => Some(6725),
            WinErrorWindows::ERROR_TRANSACTION_INTEGRITY_VIOLATED => Some(6726),
            WinErrorWindows::ERROR_TRANSACTIONMANAGER_IDENTITY_MISMATCH => Some(6727),
            WinErrorWindows::ERROR_RM_CANNOT_BE_FROZEN_FOR_SNAPSHOT => Some(6728),
            WinErrorWindows::ERROR_TRANSACTION_MUST_WRITETHROUGH => Some(6729),
            WinErrorWindows::ERROR_TRANSACTION_NO_SUPERIOR => Some(6730),
            WinErrorWindows::ERROR_HEURISTIC_DAMAGE_POSSIBLE => Some(6731),
            WinErrorWindows::ERROR_TRANSACTIONAL_CONFLICT => Some(6800),
            WinErrorWindows::ERROR_RM_NOT_ACTIVE => Some(6801),
            WinErrorWindows::ERROR_RM_METADATA_CORRUPT => Some(6802),
            WinErrorWindows::ERROR_DIRECTORY_NOT_RM => Some(6803),
            WinErrorWindows::ERROR_TRANSACTIONS_UNSUPPORTED_REMOTE => Some(6805),
            WinErrorWindows::ERROR_LOG_RESIZE_INVALID_SIZE => Some(6806),
            WinErrorWindows::ERROR_OBJECT_NO_LONGER_EXISTS => Some(6807),
            WinErrorWindows::ERROR_STREAM_MINIVERSION_NOT_FOUND => Some(6808),
            WinErrorWindows::ERROR_STREAM_MINIVERSION_NOT_VALID => Some(6809),
            WinErrorWindows::ERROR_MINIVERSION_INACCESSIBLE_FROM_SPECIFIED_TRANSACTION => Some(6810),
            WinErrorWindows::ERROR_CANT_OPEN_MINIVERSION_WITH_MODIFY_INTENT => Some(6811),
            WinErrorWindows::ERROR_CANT_CREATE_MORE_STREAM_MINIVERSIONS => Some(6812),
            WinErrorWindows::ERROR_REMOTE_FILE_VERSION_MISMATCH => Some(6814),
            WinErrorWindows::ERROR_HANDLE_NO_LONGER_VALID => Some(6815),
            WinErrorWindows::ERROR_NO_TXF_METADATA => Some(6816),
            WinErrorWindows::ERROR_LOG_CORRUPTION_DETECTED => Some(6817),
            WinErrorWindows::ERROR_CANT_RECOVER_WITH_HANDLE_OPEN => Some(6818),
            WinErrorWindows::ERROR_RM_DISCONNECTED => Some(6819),
            WinErrorWindows::ERROR_ENLISTMENT_NOT_SUPERIOR => Some(6820),
            WinErrorWindows::ERROR_RECOVERY_NOT_NEEDED => Some(6821),
            WinErrorWindows::ERROR_RM_ALREADY_STARTED => Some(6822),
            WinErrorWindows::ERROR_FILE_IDENTITY_NOT_PERSISTENT => Some(6823),
            WinErrorWindows::ERROR_CANT_BREAK_TRANSACTIONAL_DEPENDENCY => Some(6824),
            WinErrorWindows::ERROR_CANT_CROSS_RM_BOUNDARY => Some(6825),
            WinErrorWindows::ERROR_TXF_DIR_NOT_EMPTY => Some(6826),
            WinErrorWindows::ERROR_INDOUBT_TRANSACTIONS_EXIST => Some(6827),
            WinErrorWindows::ERROR_TM_VOLATILE => Some(6828),
            WinErrorWindows::ERROR_ROLLBACK_TIMER_EXPIRED => Some(6829),
            WinErrorWindows::ERROR_TXF_ATTRIBUTE_CORRUPT => Some(6830),
            WinErrorWindows::ERROR_EFS_NOT_ALLOWED_IN_TRANSACTION => Some(6831),
            WinErrorWindows::ERROR_TRANSACTIONAL_OPEN_NOT_ALLOWED => Some(6832),
            WinErrorWindows::ERROR_LOG_GROWTH_FAILED => Some(6833),
            WinErrorWindows::ERROR_TRANSACTED_MAPPING_UNSUPPORTED_REMOTE => Some(6834),
            WinErrorWindows::ERROR_TXF_METADATA_ALREADY_PRESENT => Some(6835),
            WinErrorWindows::ERROR_TRANSACTION_SCOPE_CALLBACKS_NOT_SET => Some(6836),
            WinErrorWindows::ERROR_TRANSACTION_REQUIRED_PROMOTION => Some(6837),
            WinErrorWindows::ERROR_CANNOT_EXECUTE_FILE_IN_TRANSACTION => Some(6838),
            WinErrorWindows::ERROR_TRANSACTIONS_NOT_FROZEN => Some(6839),
            WinErrorWindows::ERROR_TRANSACTION_FREEZE_IN_PROGRESS => Some(6840),
            WinErrorWindows::ERROR_NOT_SNAPSHOT_VOLUME => Some(6841),
            _ => None,
        }
    }

    /// One slice of the symbol table.
    #[verifier::spinoff_prover]
    #[verifier::rlimit(100)]
    fn from_u32_part35(raw: u32) -> (r: Option<WinErrorWindows>)
        ensures
            r == WinErrorWindows::spec_from_u32_part35(raw),
    {
        match raw {
            6722 => Some(WinErrorWindows::ERROR_TRANSACTION_OBJECT_EXPIRED),
            6723 => Some(WinErrorWindows::ERROR_TRANSACTION_RESPONSE_NOT_ENLISTED),
            6724 => Some(WinErrorWindows::ERROR_TRANSACTION_RECORD_TOO_LONG),
            6725 => Some(WinErrorWindows::ERROR_IMPLICIT_TRANSACTION_NOT_SUPPORTED),
            6726 => Some(WinErrorWindows::ERROR_TRANSACTION_INTEGRITY_VIOLATED),
            6727 => Some(WinErrorWindows::ERROR_TRANSACTIONMANAGER_IDENTITY_MISMATCH),
            6728 => Some(WinErrorWindows::ERROR_RM_CANNOT_BE_FROZEN_FOR_SNAPSHOT),
            6729 => Some(WinErrorWindows::ERROR_TRANSACTION_MUST_WRITETHROUGH),
            6730 => Some(WinErrorWindows::ERROR_TRANSACTION_NO_SUPERIOR),
            6731 => Some(WinErrorWindows::ERROR_HEURISTIC_DAMAGE_POSSIBLE),
            6800 => Some(WinErrorWindows::ERROR_TRANSACTIONAL_CONFLICT),
            6801 => Some(WinErrorWindows::ERROR_RM_NOT_ACTIVE),
            6802 => Some(WinErrorWindows::ERROR_RM_METADATA_CORRUPT),
            6803 => Some(WinErrorWindows::ERROR_DIRECTORY_NOT_RM),
            6805 => Some(WinErrorWindows::ERROR_TRANSACTIONS_UNSUPPORTED_REMOTE),
            6806 => Some(WinErrorWindows::ERROR_LOG_RESIZE_INVALID_SIZE),
            6807 => Some(WinErrorWindows::ERROR_OBJECT_NO_LONGER_EXISTS),
            6808 => Some(WinErrorWindows::ERROR_STREAM_MINIVERSION_NOT_FOUND),
            6809 => Some(WinErrorWindows::ERROR_STREAM_MINIVERSION_NOT_VALID),
            6810 => Some(WinErrorWindows::ERROR_MINIVERSION_INACCESSIBLE_FROM_SPECIFIED_TRANSACTION),
            6811 => Some(WinErrorWindows::ERROR_CANT_OPEN_MINIVERSION_WITH_MODIFY_INTENT),
            6812 => Some(WinErrorWindows::ERROR_CANT_CREATE_MORE_STREAM_MINIVERSIONS),
            6814 => Some(WinErrorWindows::ERROR_REMOTE_FILE_VERSION_MISMATCH),
            6815 => Some(WinErrorWindows::ERROR_HANDLE_NO_LONGER_VALID),
            6816 => Some(WinErrorWindows::ERROR_NO_TXF_METADATA),
            6817 => Some(WinErrorWindows::ERROR_LOG_CORRUPTION_DETECTED),
            6818 => Some(WinErrorWindows::ERROR_CANT_RECOVER_WITH_HANDLE_OPEN),
            6819 => Some(WinErrorWindows::ERROR_RM_DISCONNECTED),
            6820 => Some(WinErrorWindows::ERROR_ENLISTMENT_NOT_SUPERIOR),
            6821 => Some(WinErrorWindows::ERROR_RECOVERY_NOT_NEEDED),
            6822 => Some(WinErrorWindows::ERROR_RM_ALREADY_STARTED),
            6823 => Some(WinErrorWindows::ERROR_FILE_IDENTITY_NOT_PERSISTENT),
            6824 => Some(WinErrorWindows::ERROR_CANT_BREAK_TRANSACTIONAL_DEPENDENCY),
            6825 => Some(WinErrorWindows::ERROR_CANT_CROSS_RM_BOUNDARY),
            6826 => Some(WinErrorWindows::ERROR_TXF_DIR_NOT_EMPTY),
            6827 => Some(WinErrorWindows::ERROR_INDOUBT_TRANSACTIONS_EXIST),
            6828 => Some(WinErrorWindows::ERROR_TM_VOLATILE),
            6829 => Some(WinErrorWindows::ERROR_ROLLBACK_TIMER_EXPIRED),
            6830 => Some(WinErrorWindows::ERROR_TXF_ATTRIBUTE_CORRUPT),
            6831 => Some(WinErrorWindows::ERROR_EFS_NOT_ALLOWED_IN_TRANSACTION),
            6832 => Some(WinErrorWindows::ERROR_TRANSACTIONAL_OPEN_NOT_ALLOWED),
            6833 => Some(WinErrorWindows::ERROR_LOG_GROWTH_FAILED),
            6834 => Some(WinErrorWindows::ERROR_TRANSACTED_MAPPING_UNSUPPORTED_REMOTE),
            6835 => Some(WinErrorWindows::ERROR_TXF_METADATA_ALREADY_PRESENT),
            6836 => Some(WinErrorWindows::ERROR_TRANSACTION_SCOPE_CALLBACKS_NOT_SET),
            6837 => Some(WinErrorWindows::ERROR_TRANSACTION_REQUIRED_PROMOTION),
            6838 => Some(WinErrorWindows::ERROR_CANNOT_EXECUTE_FILE_IN_TRANSACTION),
            6839 => Some(WinErrorWindows::ERROR_TRANSACTIONS_NOT_FROZEN),
            6840 => Some(WinErrorWindows::ERROR_TRANSACTION_FREEZE_IN_PROGRESS),
            6841 => Some(WinErrorWindows::ERROR_NOT_SNAPSHOT_VOLUME),
            _ => None,
        }
    }

    /// One slice of the symbol table: the raw value of this symbol,
    /// where this slice holds it.
    pub open spec fn spec_to_u32_part36(self) -> Option<u32> {
        match self {
            WinErrorWindows::ERROR_NO_SAVEPOINT_WITH_OPEN_FILES => Some(6842),
            WinErrorWindows::ERROR_DATA_LOST_REPAIR => Some(6843),
            WinErrorWindows::ERROR_SPARSE_NOT_ALLOWED_IN_TRANSACTION => Some(6844),
            WinErrorWindows::ERROR_TM_IDENTITY_MISMATCH => Some(6845),
            WinErrorWindows::ERROR_FLOATED_SECTION => Some(6846),
            WinErrorWindows::ERROR_CANNOT_ACCEPT_TRANSACTED_WORK => Some(6847),
            WinErrorWindows::ERROR_CANNOT_ABORT_TRANSACTIONS => Some(6848),
            WinErrorWindows::ERROR_BAD_CLUSTERS => Some(6849),
            WinErrorWindows::ERROR_COMPRESSION_NOT_ALLOWED_IN_TRANSACTION => Some(6850),
            WinErrorWindows::ERROR_VOLUME_DIRTY => Some(6851),
            WinErrorWindows::ERROR_NO_LINK_TRACKING_IN_TRANSACTION => Some(6852),
            WinErrorWindows::ERROR_OPERATION_NOT_SUPPORTED_IN_TRANSACTION => Some(6853),
            WinErrorWindows::ERROR_EXPIRED_HANDLE => Some(6854),
            WinErrorWindows::ERROR_TRANSACTION_NOT_ENLISTED => Some(6855),
            WinErrorWindows::ERROR_CTX_WINSTATION_NAME_INVALID => Some(7001),
            WinErrorWindows::ERROR_CTX_INVALID_PD => Some(7002),
            WinErrorWindows::ERROR_CTX_PD_NOT_FOUND => Some(7003),
            WinErrorWindows::ERROR_CTX_WD_NOT_FOUND => Some(7004),
            WinErrorWindows::ERROR_CTX_CANNOT_MAKE_EVENTLOG_ENTRY => Some(7005),
            WinErrorWindows::ERROR_CTX_SERVICE_NAME_COLLISION => Some(7006),
            WinErrorWindows::ERROR_CTX_CLOSE_PENDING => Some(7007),
            WinErrorWindows::ERROR_CTX_NO_OUTBUF => Some(7008),
            WinErrorWindows::ERROR_CTX_MODEM_INF_NOT_FOUND => Some(7009),
            WinErrorWindows::ERROR_CTX_INVALID_MODEMNAME => Some(7010),
            WinErrorWindows::ERROR_CTX_MODEM_RESPONSE_ERROR => Some(7011),
            WinErrorWindows::ERROR_CTX_MODEM_RESPONSE_TIMEOUT => Some(7012),
            WinErrorWindows::ERROR_CTX_MODEM_RESPONSE_NO_CARRIER => Some(7013),
            WinErrorWindows::ERROR_CTX_MODEM_RESPONSE_NO_DIALTONE => Some(7014),
            WinErrorWindows::ERROR_CTX_MODEM_RESPONSE_BUSY => Some(7015),
            WinErrorWindows::ERROR_CTX_MODEM_RESPONSE_VOICE => Some(7016),
            WinErrorWindows::ERROR_CTX_TD_ERROR => Some(7017),
            WinErrorWindows::ERROR_CTX_WINSTATION_NOT_FOUND => Some(7022),
            WinErrorWindows::ERROR_CTX_WINSTATION_ALREADY_EXISTS => Some(7023),
            WinErrorWindows::ERROR_CTX_WINSTATION_BUSY => Some(7024),
            WinErrorWindows::ERROR_CTX_BAD_VIDEO_MODE => Some(7025),
            WinErrorWindows::ERROR_CTX_GRAPHICS_INVALID => Some(7035),
            WinErrorWindows::ERROR_CTX_LOGON_DISABLED => Some(7037),
            WinErrorWindows::ERROR_CTX_NOT_CONSOLE => Some(7038),
            WinErrorWindows::ERROR_CTX_CLIENT_QUERY_TIMEOUT => Some(7040),
            WinErrorWindows::ERROR_CTX_CONSOLE_DISCONNECT => Some(7041),
            WinErrorWindows::ERROR_CTX_CONSOLE_CONNECT => Some(7042),
            WinErrorWindows::ERROR_CTX_SHADOW_DENIED => Some(7044),
            WinErrorWindows::ERROR_CTX_WINSTATION_ACCESS_DENIED => Some(7045),
            WinErrorWindows::ERROR_CTX_INVALID_WD => Some(7049),
            WinErrorWindows::ERROR_CTX_SHADOW_INVALID => Some(7050),
            WinErrorWindows::ERROR_CTX_SHADOW_DISABLED => Some(7051),
            WinErrorWindows::ERROR_CTX_CLIENT_LICENSE_IN_USE => Some(7052),
            WinErrorWindows::ERROR_CTX_CLIENT_LICENSE_NOT_SET => Some(7053),
            WinErrorWindows::ERROR_CTX_LICENSE_NOT_AVAILABLE => Some(7054),
            WinErrorWindows::ERROR_CTX_LICENSE_CLIENT_INVALID => Some(7055),
            _ => None,
        }
    }

    /// One slice of the symbol table: the symbol this slice gives a
    /// raw value, where it holds one.
    pub open spec fn spec_from_u32_part36(raw: u32) -> Option<WinErrorWindows> {
        match raw {
            6842 => Some(WinErrorWindows::ERROR_NO_SAVEPOINT_WITH_OPEN_FILES),
            6843 => Some(WinErrorWindows::ERROR_DATA_LOST_REPAIR),
            6844 => Some(WinErrorWindows::ERROR_SPARSE_NOT_ALLOWED_IN_TRANSACTION),
            6845 => Some(WinErrorWindows::ERROR_TM_IDENTITY_MISMATCH),
            6846 => Some(WinErrorWindows::ERROR_FLOATED_SECTION),
            6847 => Some(WinErrorWindows::ERROR_CANNOT_ACCEPT_TRANSACTED_WORK),
            6848 => Some(WinErrorWindows::ERROR_CANNOT_ABORT_TRANSACTIONS),
            6849 => Some(WinErrorWindows::ERROR_BAD_CLUSTERS),
            6850 => Some(WinErrorWindows::ERROR_COMPRESSION_NOT_ALLOWED_IN_TRANSACTION),
            6851 => Some(WinErrorWindows::ERROR_VOLUME_DIRTY),
            6852 => Some(WinErrorWindows::ERROR_NO_LINK_TRACKING_IN_TRANSACTION),
            6853 => Some(WinErrorWindows::ERROR_OPERATION_NOT_SUPPORTED_IN_TRANSACTION),
            6854 => Some(WinErrorWindows::ERROR_EXPIRED_HANDLE),
            6855 => Some(WinErrorWindows::ERROR_TRANSACTION_NOT_ENLISTED),
            7001 => Some(WinErrorWindows::ERROR_CTX_WINSTATION_NAME_INVALID),
            7002 => Some(WinErrorWindows::ERROR_CTX_INVALID_PD),
            7003 => Some(WinErrorWindows::ERROR_CTX_PD_NOT_FOUND),
            7004 => Some(WinErrorWindows::ERROR_CTX_WD_NOT_FOUND),
            7005 => Some(WinErrorWindows::ERROR_CTX_CANNOT_MAKE_EVENTLOG_ENTRY),
            7006 => Some(WinErrorWindows::ERROR_CTX_SERVICE_NAME_COLLISION),
            7007 => Some(WinErrorWindows::ERROR_CTX_CLOSE_PENDING),
            7008 => Some(WinErrorWindows::ERROR_CTX_NO_OUTBUF),
            7009 => Some(WinErrorWindows::ERROR_CTX_MODEM_INF_NOT_FOUND),
            7010 => Some(WinErrorWindows::ERROR_CTX_INVALID_MODEMNAME),
            7011 => Some(WinErrorWindows::ERROR_CTX_MODEM_RESPONSE_ERROR),
            7012 => Some(WinErrorWindows::ERROR_CTX_MODEM_RESPONSE_TIMEOUT),
            7013 => Some(WinErrorWindows::ERROR_CTX_MODEM_RESPONSE_NO_CARRIER),
            7014 => Some(WinErrorWindows::ERROR_CTX_MODEM_RESPONSE_NO_DIALTONE),
            7015 => Some(WinErrorWindows::ERROR_CTX_MODEM_RESPONSE_BUSY),
            7016 => Some(WinErrorWindows::ERROR_CTX_MODEM_RESPONSE_VOICE),
            7017 => Some(WinErrorWindows::ERROR_CTX_TD_ERROR),
            7022 => Some(WinErrorWindows::ERROR_CTX_WINSTATION_NOT_FOUND),
            7023 => Some(WinErrorWindows::ERROR_CTX_WINSTATION_ALREADY_EXISTS),
            7024 => Some(WinErrorWindows::ERROR_CTX_WINSTATION_BUSY),
            7025 => Some(WinErrorWindows::ERROR_CTX_BAD_VIDEO_MODE),
            7035 => Some(WinErrorWindows::ERROR_CTX_GRAPHICS_INVALID),
            7037 => Some(WinErrorWindows::ERROR_CTX_LOGON_DISABLED),
            7038 => Some(WinErrorWindows::ERROR_CTX_NOT_CONSOLE),
            7040 => Some(WinErrorWindows::ERROR_CTX_CLIENT_QUERY_TIMEOUT),
            7041 => Some(WinErrorWindows::ERROR_CTX_CONSOLE_DISCONNECT),
            7042 => Some(WinErrorWindows::ERROR_CTX_CONSOLE_CONNECT),
            7044 => Some(WinErrorWindows::ERROR_CTX_SHADOW_DENIED),
            7045 => Some(WinErrorWindows::ERROR_CTX_WINSTATION_ACCESS_DENIED),
            7049 => Some(WinErrorWindows::ERROR_CTX_INVALID_WD),
            7050 => Some(WinErrorWindows::ERROR_CTX_SHADOW_INVALID),
            7051 => Some(WinErrorWindows::ERROR_CTX_SHADOW_DISABLED),
            7052 => Some(WinErrorWindows::ERROR_CTX_CLIENT_LICENSE_IN_USE),
            7053 => Some(WinErrorWindows::ERROR_CTX_CLIENT_LICENSE_NOT_SET),
            7054 => Some(WinErrorWindows::ERROR_CTX_LICENSE_NOT_AVAILABLE),
            7055 => Some(WinErrorWindows::ERROR_CTX_LICENSE_CLIENT_INVALID),
            _ => None,
        }
    }

    /// One slice of the symbol table.
    #[verifier::spinoff_prover]
    #[verifier::rlimit(100)]
    fn to_u32_part36(self) -> (r: Option<u32>)
        ensures
            r == self.spec_to_u32_part36(),
    {
        match self {
            WinErrorWindows::ERROR_NO_SAVEPOINT_WITH_OPEN_FILES => Some(6842),
            WinErrorWindows::ERROR_DATA_LOST_REPAIR => Some(6843),
            WinErrorWindows::ERROR_SPARSE_NOT_ALLOWED_IN_TRANSACTION => Some(6844),
            WinErrorWindows::ERROR_TM_IDENTITY_MISMATCH => Some(6845),
            WinErrorWindows::ERROR_FLOATED_SECTION => Some(6846),
            WinErrorWindows::ERROR_CANNOT_ACCEPT_TRANSACTED_WORK => Some(6847),
            WinErrorWindows::ERROR_CANNOT_ABORT_TRANSACTIONS => Some(6848),
            WinErrorWindows::ERROR_BAD_CLUSTERS => Some(6849),
            WinErrorWindows::ERROR_COMPRESSION_NOT_ALLOWED_IN_TRANSACTION => Some(6850),
            WinErrorWindows::ERROR_VOLUME_DIRTY => Some(6851),
            WinErrorWindows::ERROR_NO_LINK_TRACKING_IN_TRANSACTION => Some(6852),
            WinErrorWindows::ERROR_OPERATION_NOT_SUPPORTED_IN_TRANSACTION => Some(6853),
            WinErrorWindows::ERROR_EXPIRED_HANDLE => Some(6854),
            WinErrorWindows::ERROR_TRANSACTION_NOT_ENLISTED => Some(6855),
            WinErrorWindows::ERROR_CTX_WINSTATION_NAME_INVALID => Some(7001),
            WinErrorWindows::ERROR_CTX_INVALID_PD => Some(7002),
            WinErrorWindows::ERROR_CTX_PD_NOT_FOUND => Some(7003),
            WinErrorWindows::ERROR_CTX_WD_NOT_FOUND => Some(7004),
            WinErrorWindows::ERROR_CTX_CANNOT_MAKE_EVENTLOG_ENTRY => Some(7005),
            WinErrorWindows::ERROR_CTX_SERVICE_NAME_COLLISION => Some(7006),
            WinErrorWindows::ERROR_CTX_CLOSE_PENDING => Some(7007),
            WinErrorWindows::ERROR_CTX_NO_OUTBUF => Some(7008),
            WinErrorWindows::ERROR_CTX_MODEM_INF_NOT_FOUND => Some(7009),
            WinErrorWindows::ERROR_CTX_INVALID_MODEMNAME => Some(7010),
            WinErrorWindows::ERROR_CTX_MODEM_RESPONSE_ERROR => Some(7011),
            WinErrorWindows::ERROR_CTX_MODEM_RESPONSE_TIMEOUT => Some(7012),
            WinErrorWindows::ERROR_CTX_MODEM_RESPONSE_NO_CARRIER => Some(7013),
            WinErrorWindows::ERROR_CTX_MODEM_RESPONSE_NO_DIALTONE => Some(7014),
            WinErrorWindows::ERROR_CTX_MODEM_RESPONSE_BUSY => Some(7015),
            WinErrorWindows::ERROR_CTX_MODEM_RESPONSE_VOICE => Some(7016),
            WinErrorWindows::ERROR_CTX_TD_ERROR => Some(7017),
            WinErrorWindows::ERROR_CTX_WINSTATION_NOT_FOUND => Some(7022),
            WinErrorWindows::ERROR_CTX_WINSTATION_ALREADY_EXISTS => Some(7023),
            WinErrorWindows::ERROR_CTX_WINSTATION_BUSY => Some(7024),
            WinErrorWindows::ERROR_CTX_BAD_VIDEO_MODE => Some(7025),
            WinErrorWindows::ERROR_CTX_GRAPHICS_INVALID => Some(7035),
            WinErrorWindows::ERROR_CTX_LOGON_DISABLED => Some(7037),
            WinErrorWindows::ERROR_CTX_NOT_CONSOLE => Some(7038),
            WinErrorWindows::ERROR_CTX_CLIENT_QUERY_TIMEOUT => Some(7040),
            WinErrorWindows::ERROR_CTX_CONSOLE_DISCONNECT => Some(7041),
            WinErrorWindows::ERROR_CTX_CONSOLE_CONNECT => Some(7042),
            WinErrorWindows::ERROR_CTX_SHADOW_DENIED => Some(7044),
            WinErrorWindows::ERROR_CTX_WINSTATION_ACCESS_DENIED => Some(7045),
            WinErrorWindows::ERROR_CTX_INVALID_WD => Some(7049),
            WinErrorWindows::ERROR_CTX_SHADOW_INVALID => Some(7050),
            WinErrorWindows::ERROR_CTX_SHADOW_DISABLED => Some(7051),
            WinErrorWindows::ERROR_CTX_CLIENT_LICENSE_IN_USE => Some(7052),
            WinErrorWindows::ERROR_CTX_CLIENT_LICENSE_NOT_SET => Some(7053),
            WinErrorWindows::ERROR_CTX_LICENSE_NOT_AVAILABLE => Some(7054),
            WinErrorWindows::ERROR_CTX_LICENSE_CLIENT_INVALID => Some(7055),
            _ => None,
        }
    }

    /// One slice of the symbol table.
    #[verifier::spinoff_prover]
    #[verifier::rlimit(100)]
    fn from_u32_part36(raw: u32) -> (r: Option<WinErrorWindows>)
        ensures
            r == WinErrorWindows::spec_from_u32_part36(raw),
    {
        match raw {
            6842 => Some(WinErrorWindows::ERROR_NO_SAVEPOINT_WITH_OPEN_FILES),
            6843 => Some(WinErrorWindows::ERROR_DATA_LOST_REPAIR),
            6844 => Some(WinErrorWindows::ERROR_SPARSE_NOT_ALLOWED_IN_TRANSACTION),
            6845 => Some(WinErrorWindows::ERROR_TM_IDENTITY_MISMATCH),
            6846 => Some(WinErrorWindows::ERROR_FLOATED_SECTION),
            6847 => Some(WinErrorWindows::ERROR_CANNOT_ACCEPT_TRANSACTED_WORK),
            6848 => Some(WinErrorWindows::ERROR_CANNOT_ABORT_TRANSACTIONS),
            6849 => Some(WinErrorWindows::ERROR_BAD_CLUSTERS),
            6850 => Some(WinErrorWindows::ERROR_COMPRESSION_NOT_ALLOWED_IN_TRANSACTION),
            6851 => Some(WinErrorWindows::ERROR_VOLUME_DIRTY),
            6852 => Some(WinErrorWindows::ERROR_NO_LINK_TRACKING_IN_TRANSACTION),
            6853 => Some(WinErrorWindows::ERROR_OPERATION_NOT_SUPPORTED_IN_TRANSACTION),
            6854 => Some(WinErrorWindows::ERROR_EXPIRED_HANDLE),
            6855 => Some(WinErrorWindows::ERROR_TRANSACTION_NOT_ENLISTED),
            7001 => Some(WinErrorWindows::ERROR_CTX_WINSTATION_NAME_INVALID),
            7002 => Some(WinErrorWindows::ERROR_CTX_INVALID_PD),
            7003 => Some(WinErrorWindows::ERROR_CTX_PD_NOT_FOUND),
            7004 => Some(WinErrorWindows::ERROR_CTX_WD_NOT_FOUND),
            7005 => Some(WinErrorWindows::ERROR_CTX_CANNOT_MAKE_EVENTLOG_ENTRY),
            7006 => Some(WinErrorWindows::ERROR_CTX_SERVICE_NAME_COLLISION),
            7007 => Some(WinErrorWindows::ERROR_CTX_CLOSE_PENDING),
            7008 => Some(WinErrorWindows::ERROR_CTX_NO_OUTBUF),
            7009 => Some(WinErrorWindows::ERROR_CTX_MODEM_INF_NOT_FOUND),
            7010 => Some(WinErrorWindows::ERROR_CTX_INVALID_MODEMNAME),
            7011 => Some(WinErrorWindows::ERROR_CTX_MODEM_RESPONSE_ERROR),
            7012 => Some(WinErrorWindows::ERROR_CTX_MODEM_RESPONSE_TIMEOUT),
            7013 => Some(WinErrorWindows::ERROR_CTX_MODEM_RESPONSE_NO_CARRIER),
            7014 => Some(WinErrorWindows::ERROR_CTX_MODEM_RESPONSE_NO_DIALTONE),
            7015 => Some(WinErrorWindows::ERROR_CTX_MODEM_RESPONSE_BUSY),
            7016 => Some(WinErrorWindows::ERROR_CTX_MODEM_RESPONSE_VOICE),
            7017 => Some(WinErrorWindows::ERROR_CTX_TD_ERROR),
            7022 => Some(WinErrorWindows::ERROR_CTX_WINSTATION_NOT_FOUND),
            7023 => Some(WinErrorWindows::ERROR_CTX_WINSTATION_ALREADY_EXISTS),
            7024 => Some(WinErrorWindows::ERROR_CTX_WINSTATION_BUSY),
            7025 => Some(WinErrorWindows::ERROR_CTX_BAD_VIDEO_MODE),
            7035 => Some(WinErrorWindows::ERROR_CTX_GRAPHICS_INVALID),
            7037 => Some(WinErrorWindows::ERROR_CTX_LOGON_DISABLED),
            7038 => Some(WinErrorWindows::ERROR_CTX_NOT_CONSOLE),
            7040 => Some(WinErrorWindows::ERROR_CTX_CLIENT_QUERY_TIMEOUT),
            7041 => Some(WinErrorWindows::ERROR_CTX_CONSOLE_DISCONNECT),
            7042 => Some(WinErrorWindows::ERROR_CTX_CONSOLE_CONNECT),
            7044 => Some(WinErrorWindows::ERROR_CTX_SHADOW_DENIED),
            7045 => Some(WinErrorWindows::ERROR_CTX_WINSTATION_ACCESS_DENIED),
            7049 => Some(WinErrorWindows::ERROR_CTX_INVALID_WD),
            7050 => Some(WinErrorWindows::ERROR_CTX_SHADOW_INVALID),
            7051 => Some(WinErrorWindows::ERROR_CTX_SHADOW_DISABLED),
            7052 => Some(WinErrorWindows::ERROR_CTX_CLIENT_LICENSE_IN_USE),
            7053 => Some(WinErrorWindows::ERROR_CTX_CLIENT_LICENSE_NOT_SET),
            7054 => Some(WinErrorWindows::ERROR_CTX_LICENSE_NOT_AVAILABLE),
            7055 => Some(WinErrorWindows::ERROR_CTX_LICENSE_CLIENT_INVALID),
            _ => None,
        }
    }

    /// One slice of the symbol table: the raw value of this symbol,
    /// where this slice holds it.
    pub open spec fn spec_to_u32_part37(self) -> Option<u32> {
        match self {
            WinErrorWindows::ERROR_CTX_LICENSE_EXPIRED => Some(7056),
            WinErrorWindows::ERROR_CTX_SHADOW_NOT_RUNNING => Some(7057),
            WinErrorWindows::ERROR_CTX_SHADOW_ENDED_BY_MODE_CHANGE => Some(7058),
            WinErrorWindows::ERROR_ACTIVATION_COUNT_EXCEEDED => Some(7059),
            WinErrorWindows::ERROR_CTX_WINSTATIONS_DISABLED => Some(7060),
            WinErrorWindows::ERROR_CTX_ENCRYPTION_LEVEL_REQUIRED => Some(7061),
            WinErrorWindows::ERROR_CTX_SESSION_IN_USE => Some(7062),
            WinErrorWindows::ERROR_CTX_NO_FORCE_LOGOFF => Some(7063),
            WinErrorWindows::ERROR_CTX_ACCOUNT_RESTRICTION => Some(7064),
            WinErrorWindows::ERROR_RDP_PROTOCOL_ERROR => Some(7065),
            WinErrorWindows::ERROR_CTX_CDM_CONNECT => Some(7066),
            WinErrorWindows::ERROR_CTX_CDM_DISCONNECT => Some(7067),
            WinErrorWindows::ERROR_CTX_SECURITY_LAYER_ERROR => Some(7068),
            WinErrorWindows::ERROR_TS_INCOMPATIBLE_SESSIONS => Some(7069),
            WinErrorWindows::ERROR_TS_VIDEO_SUBSYSTEM_ERROR => Some(7070),
            WinErrorWindows::ERROR_DS_NOT_INSTALLED => Some(8200),
            WinErrorWindows::ERROR_DS_MEMBERSHIP_EVALUATED_LOCALLY => Some(8201),
            WinErrorWindows::ERROR_DS_NO_ATTRIBUTE_OR_VALUE => Some(8202),
            WinErrorWindows::ERROR_DS_INVALID_ATTRIBUTE_SYNTAX => Some(8203),
            WinErrorWindows::ERROR_DS_ATTRIBUTE_TYPE_UNDEFINED => Some(8204),
            WinErrorWindows::ERROR_DS_ATTRIBUTE_OR_VALUE_EXISTS => Some(8205),
            WinErrorWindows::ERROR_DS_BUSY => Some(8206),
            WinErrorWindows::ERROR_DS_UNAVAILABLE => Some(8207),
            WinErrorWindows::ERROR_DS_NO_RIDS_ALLOCATED => Some(8208),
            WinErrorWindows::ERROR_DS_NO_MORE_RIDS => Some(8209),
            WinErrorWindows::ERROR_DS_INCORRECT_ROLE_OWNER => Some(8210),
            WinErrorWindows::ERROR_DS_RIDMGR_INIT_ERROR => Some(8211),
            WinErrorWindows::ERROR_DS_OBJ_CLASS_VIOLATION => Some(8212),
            WinErrorWindows::ERROR_DS_CANT_ON_NON_LEAF => Some(8213),
            WinErrorWindows::ERROR_DS_CANT_ON_RDN => Some(8214),
            WinErrorWindows::ERROR_DS_CANT_MOD_OBJ_CLASS => Some(8215),
            WinErrorWindows::ERROR_DS_CROSS_DOM_MOVE_ERROR => Some(8216),
            WinErrorWindows::ERROR_DS_GC_NOT_AVAILABLE => Some(8217),
            WinErrorWindows::ERROR_SHARED_POLICY => Some(8218),
            WinErrorWindows::ERROR_POLICY_OBJECT_NOT_FOUND => Some(8219),
            WinErrorWindows::ERROR_POLICY_ONLY_IN_DS => Some(8220),
            WinErrorWindows::ERROR_PROMOTION_ACTIVE => Some(8221),
            WinErrorWindows::ERROR_NO_PROMOTION_ACTIVE => Some(8222),
            WinErrorWindows::ERROR_DS_OPERATIONS_ERROR => Some(8224),
            WinErrorWindows::ERROR_DS_PROTOCOL_ERROR => Some(8225),
            WinErrorWindows::ERROR_DS_TIMELIMIT_EXCEEDED => Some(8226),
            WinErrorWindows::ERROR_DS_SIZELIMIT_EXCEEDED => Some(8227),
            WinErrorWindows::ERROR_DS_ADMIN_LIMIT_EXCEEDED => Some(8228),
            WinErrorWindows::ERROR_DS_COMPARE_FALSE => Some(8229),
            WinErrorWindows::ERROR_DS_COMPARE_TRUE => Some(8230),
            WinErrorWindows::ERROR_DS_AUTH_METHOD_NOT_SUPPORTED => Some(8231),
            WinErrorWindows::ERROR_DS_STRONG_AUTH_REQUIRED => Some(8232),
            WinErrorWindows::ERROR_DS_INAPPROPRIATE_AUTH => Some(8233),
            WinErrorWindows::ERROR_DS_AUTH_UNKNOWN => Some(8234),
            WinErrorWindows::ERROR_DS_REFERRAL => Some(8235),
            _ => None,
        }
    }

    /// One slice of the symbol table: the symbol this slice gives a
    /// raw value, where it holds one.
    pub open spec fn spec_from_u32_part37(raw: u32) -> Option<WinErrorWindows> {
        match raw {
            7056 => Some(WinErrorWindows::ERROR_CTX_LICENSE_EXPIRED),
            7057 => Some(WinErrorWindows::ERROR_CTX_SHADOW_NOT_RUNNING),
            7058 => Some(WinErrorWindows::ERROR_CTX_SHADOW_ENDED_BY_MODE_CHANGE),
            7059 => Some(WinErrorWindows::ERROR_ACTIVATION_COUNT_EXCEEDED),
            7060 => Some(WinErrorWindows::ERROR_CTX_WINSTATIONS_DISABLED),
            7061 => Some(WinErrorWindows::ERROR_CTX_ENCRYPTION_LEVEL_REQUIRED),
            7062 => Some(WinErrorWindows::ERROR_CTX_SESSION_IN_USE),
            7063 => Some(WinErrorWindows::ERROR_CTX_NO_FORCE_LOGOFF),
            7064 => Some(WinErrorWindows::ERROR_CTX_ACCOUNT_RESTRICTION),
            7065 => Some(WinErrorWindows::ERROR_RDP_PROTOCOL_ERROR),
            7066 => Some(WinErrorWindows::ERROR_CTX_CDM_CONNECT),
            7067 => Some(WinErrorWindows::ERROR_CTX_CDM_DISCONNECT),
            7068 => Some(WinErrorWindows::ERROR_CTX_SECURITY_LAYER_ERROR),
            7069 => Some(WinErrorWindows::ERROR_TS_INCOMPATIBLE_SESSIONS),
            7070 => Some(WinErrorWindows::ERROR_TS_VIDEO_SUBSYSTEM_ERROR),
            8200 => Some(WinErrorWindows::ERROR_DS_NOT_INSTALLED),
            8201 => Some(WinErrorWindows::ERROR_DS_MEMBERSHIP_EVALUATED_LOCALLY),
            8202 => Some(WinErrorWindows::ERROR_DS_NO_ATTRIBUTE_OR_VALUE),
            8203 => Some(WinErrorWindows::ERROR_DS_INVALID_ATTRIBUTE_SYNTAX),
            8204 => Some(WinErrorWindows::ERROR_DS_ATTRIBUTE_TYPE_UNDEFINED),
            8205 => Some(WinErrorWindows::ERROR_DS_ATTRIBUTE_OR_VALUE_EXISTS),
            8206 => Some(WinErrorWindows::ERROR_DS_BUSY),
            8207 => Some(WinErrorWindows::ERROR_DS_UNAVAILABLE),
            8208 => Some(WinErrorWindows::ERROR_DS_NO_RIDS_ALLOCATED),
            8209 => Some(WinErrorWindows::ERROR_DS_NO_MORE_RIDS),
            8210 => Some(WinErrorWindows::ERROR_DS_INCORRECT_ROLE_OWNER),
            8211 => Some(WinErrorWindows::ERROR_DS_RIDMGR_INIT_ERROR),
            8212 => Some(WinErrorWindows::ERROR_DS_OBJ_CLASS_VIOLATION),
            8213 => Some(WinErrorWindows::ERROR_DS_CANT_ON_NON_LEAF),
            8214 => Some(WinErrorWindows::ERROR_DS_CANT_ON_RDN),
            8215 => Some(WinErrorWindows::ERROR_DS_CANT_MOD_OBJ_CLASS),
            8216 => Some(WinErrorWindows::ERROR_DS_CROSS_DOM_MOVE_ERROR),
            8217 => Some(WinErrorWindows::ERROR_DS_GC_NOT_AVAILABLE),
            8218 => Some(WinErrorWindows::ERROR_SHARED_POLICY),
            8219 => Some(WinErrorWindows::ERROR_POLICY_OBJECT_NOT_FOUND),
            8220 => Some(WinErrorWindows::ERROR_POLICY_ONLY_IN_DS),
            8221 => Some(WinErrorWindows::ERROR_PROMOTION_ACTIVE),
            8222 => Some(WinErrorWindows::ERROR_NO_PROMOTION_ACTIVE),
            8224 => Some(WinErrorWindows::ERROR_DS_OPERATIONS_ERROR),
            8225 => Some(WinErrorWindows::ERROR_DS_PROTOCOL_ERROR),
            8226 => Some(WinErrorWindows::ERROR_DS_TIMELIMIT_EXCEEDED),
            8227 => Some(WinErrorWindows::ERROR_DS_SIZELIMIT_EXCEEDED),
            8228 => Some(WinErrorWindows::ERROR_DS_ADMIN_LIMIT_EXCEEDED),
            8229 => Some(WinErrorWindows::ERROR_DS_COMPARE_FALSE),
            8230 => Some(WinErrorWindows::ERROR_DS_COMPARE_TRUE),
            8231 => Some(WinErrorWindows::ERROR_DS_AUTH_METHOD_NOT_SUPPORTED),
            8232 => Some(WinErrorWindows::ERROR_DS_STRONG_AUTH_REQUIRED),
            8233 => Some(WinErrorWindows::ERROR_DS_INAPPROPRIATE_AUTH),
            8234 => Some(WinErrorWindows::ERROR_DS_AUTH_UNKNOWN),
            8235 => Some(WinErrorWindows::ERROR_DS_REFERRAL),
            _ => None,
        }
    }

    /// One slice of the symbol table.
    #[verifier::spinoff_prover]
    #[verifier::rlimit(100)]
    fn to_u32_part37(self) -> (r: Option<u32>)
        ensures
            r == self.spec_to_u32_part37(),
    {
        match self {
            WinErrorWindows::ERROR_CTX_LICENSE_EXPIRED => Some(7056),
            WinErrorWindows::ERROR_CTX_SHADOW_NOT_RUNNING => Some(7057),
            WinErrorWindows::ERROR_CTX_SHADOW_ENDED_BY_MODE_CHANGE => Some(7058),
            WinErrorWindows::ERROR_ACTIVATION_COUNT_EXCEEDED => Some(7059),
            WinErrorWindows::ERROR_CTX_WINSTATIONS_DISABLED => Some(7060),
            WinErrorWindows::ERROR_CTX_ENCRYPTION_LEVEL_REQUIRED => Some(7061),
            WinErrorWindows::ERROR_CTX_SESSION_IN_USE => Some(7062),
            WinErrorWindows::ERROR_CTX_NO_FORCE_LOGOFF => Some(7063),
            WinErrorWindows::ERROR_CTX_ACCOUNT_RESTRICTION => Some(7064),
            WinErrorWindows::ERROR_RDP_PROTOCOL_ERROR => Some(7065),
            WinErrorWindows::ERROR_CTX_CDM_CONNECT => Some(7066),
            WinErrorWindows::ERROR_CTX_CDM_DISCONNECT => Some(7067),
            WinErrorWindows::ERROR_CTX_SECURITY_LAYER_ERROR => Some(7068),
            WinErrorWindows::ERROR_TS_INCOMPATIBLE_SESSIONS => Some(7069),
            WinErrorWindows::ERROR_TS_VIDEO_SUBSYSTEM_ERROR => Some(7070),
            WinErrorWindows::ERROR_DS_NOT_INSTALLED => Some(8200),
            WinErrorWindows::ERROR_DS_MEMBERSHIP_EVALUATED_LOCALLY => Some(8201),
            WinErrorWindows::ERROR_DS_NO_ATTRIBUTE_OR_VALUE => Some(8202),
            WinErrorWindows::ERROR_DS_INVALID_ATTRIBUTE_SYNTAX => Some(8203),
            WinErrorWindows::ERROR_DS_ATTRIBUTE_TYPE_UNDEFINED => Some(8204),
            WinErrorWindows::ERROR_DS_ATTRIBUTE_OR_VALUE_EXISTS => Some(8205),
            WinErrorWindows::ERROR_DS_BUSY => Some(8206),
            WinErrorWindows::ERROR_DS_UNAVAILABLE => Some(8207),
            WinErrorWindows::ERROR_DS_NO_RIDS_ALLOCATED => Some(8208),
            WinErrorWindows::ERROR_DS_NO_MORE_RIDS => Some(8209),
            WinErrorWindows::ERROR_DS_INCORRECT_ROLE_OWNER => Some(8210),
            WinErrorWindows::ERROR_DS_RIDMGR_INIT_ERROR => Some(8211),
            WinErrorWindows::ERROR_DS_OBJ_CLASS_VIOLATION => Some(8212),
            WinErrorWindows::ERROR_DS_CANT_ON_NON_LEAF => Some(8213),
            WinErrorWindows::ERROR_DS_CANT_ON_RDN => Some(8214),
            WinErrorWindows::ERROR_DS_CANT_MOD_OBJ_CLASS => Some(8215),
            WinErrorWindows::ERROR_DS_CROSS_DOM_MOVE_ERROR => Some(8216),
            WinErrorWindows::ERROR_DS_GC_NOT_AVAILABLE => Some(8217),
            WinErrorWindows::ERROR_SHARED_POLICY => Some(8218),
            WinErrorWindows::ERROR_POLICY_OBJECT_NOT_FOUND => Some(8219),
            WinErrorWindows::ERROR_POLICY_ONLY_IN_DS => Some(8220),
            WinErrorWindows::ERROR_PROMOTION_ACTIVE => Some(8221),
            WinErrorWindows::ERROR_NO_PROMOTION_ACTIVE => Some(8222),
            WinErrorWindows::ERROR_DS_OPERATIONS_ERROR => Some(8224),
            WinErrorWindows::ERROR_DS_PROTOCOL_ERROR => Some(8225),
            WinErrorWindows::ERROR_DS_TIMELIMIT_EXCEEDED => Some(8226),
            WinErrorWindows::ERROR_DS_SIZELIMIT_EXCEEDED => Some(8227),
            WinErrorWindows::ERROR_DS_ADMIN_LIMIT_EXCEEDED => Some(8228),
            WinErrorWindows::ERROR_DS_COMPARE_FALSE => Some(8229),
            WinErrorWindows::ERROR_DS_COMPARE_TRUE => Some(8230),
            WinErrorWindows::ERROR_DS_AUTH_METHOD_NOT_SUPPORTED => Some(8231),
            WinErrorWindows::ERROR_DS_STRONG_AUTH_REQUIRED => Some(8232),
            WinErrorWindows::ERROR_DS_INAPPROPRIATE_AUTH => Some(8233),
            WinErrorWindows::ERROR_DS_AUTH_UNKNOWN => Some(8234),
            WinErrorWindows::ERROR_DS_REFERRAL => Some(8235),
            _ => None,
        }
    }

    /// One slice of the symbol table.
    #[verifier::spinoff_prover]
    #[verifier::rlimit(100)]
    fn from_u32_part37(raw: u32) -> (r: Option<WinErrorWindows>)
        ensures
            r == WinErrorWindows::spec_from_u32_part37(raw),
    {
        match raw {
            7056 => Some(WinErrorWindows::ERROR_CTX_LICENSE_EXPIRED),
            7057 => Some(WinErrorWindows::ERROR_CTX_SHADOW_NOT_RUNNING),
            7058 => Some(WinErrorWindows::ERROR_CTX_SHADOW_ENDED_BY_MODE_CHANGE),
            7059 => Some(WinErrorWindows::ERROR_ACTIVATION_COUNT_EXCEEDED),
            7060 => Some(WinErrorWindows::ERROR_CTX_WINSTATIONS_DISABLED),
            7061 => Some(WinErrorWindows::ERROR_CTX_ENCRYPTION_LEVEL_REQUIRED),
            7062 => Some(WinErrorWindows::ERROR_CTX_SESSION_IN_USE),
            7063 => Some(WinErrorWindows::ERROR_CTX_NO_FORCE_LOGOFF),
            7064 => Some(WinErrorWindows::ERROR_CTX_ACCOUNT_RESTRICTION),
            7065 => Some(WinErrorWindows::ERROR_RDP_PROTOCOL_ERROR),
            7066 => Some(WinErrorWindows::ERROR_CTX_CDM_CONNECT),
            7067 => Some(WinErrorWindows::ERROR_CTX_CDM_DISCONNECT),
            7068 => Some(WinErrorWindows::ERROR_CTX_SECURITY_LAYER_ERROR),
            7069 => Some(WinErrorWindows::ERROR_TS_INCOMPATIBLE_SESSIONS),
            7070 => Some(WinErrorWindows::ERROR_TS_VIDEO_SUBSYSTEM_ERROR),
            8200 => Some(WinErrorWindows::ERROR_DS_NOT_INSTALLED),
            8201 => Some(WinErrorWindows::ERROR_DS_MEMBERSHIP_EVALUATED_LOCALLY),
            8202 => Some(WinErrorWindows::ERROR_DS_NO_ATTRIBUTE_OR_VALUE),
            8203 => Some(WinErrorWindows::ERROR_DS_INVALID_ATTRIBUTE_SYNTAX),
            8204 => Some(WinErrorWindows::ERROR_DS_ATTRIBUTE_TYPE_UNDEFINED),
            8205 => Some(WinErrorWindows::ERROR_DS_ATTRIBUTE_OR_VALUE_EXISTS),
            8206 => Some(WinErrorWindows::ERROR_DS_BUSY),
            8207 => Some(WinErrorWindows::ERROR_DS_UNAVAILABLE),
            8208 => Some(WinErrorWindows::ERROR_DS_NO_RIDS_ALLOCATED),
            8209 => Some(WinErrorWindows::ERROR_DS_NO_MORE_RIDS),
            8210 => Some(WinErrorWindows::ERROR_DS_INCORRECT_ROLE_OWNER),
            8211 => Some(WinErrorWindows::ERROR_DS_RIDMGR_INIT_ERROR),
            8212 => Some(WinErrorWindows::ERROR_DS_OBJ_CLASS_VIOLATION),
            8213 => Some(WinErrorWindows::ERROR_DS_CANT_ON_NON_LEAF),
            8214 => Some(WinErrorWindows::ERROR_DS_CANT_ON_RDN),
            8215 => Some(WinErrorWindows::ERROR_DS_CANT_MOD_OBJ_CLASS),
            8216 => Some(WinErrorWindows::ERROR_DS_CROSS_DOM_MOVE_ERROR),
            8217 => Some(WinErrorWindows::ERROR_DS_GC_NOT_AVAILABLE),
            8218 => Some(WinErrorWindows::ERROR_SHARED_POLICY),
            8219 => Some(WinErrorWindows::ERROR_POLICY_OBJECT_NOT_FOUND),
            8220 => Some(WinErrorWindows::ERROR_POLICY_ONLY_IN_DS),
            8221 => Some(WinErrorWindows::ERROR_PROMOTION_ACTIVE),
            8222 => Some(WinErrorWindows::ERROR_NO_PROMOTION_ACTIVE),
            8224 => Some(WinErrorWindows::ERROR_DS_OPERATIONS_ERROR),
            8225 => Some(WinErrorWindows::ERROR_DS_PROTOCOL_ERROR),
            8226 => Some(WinErrorWindows::ERROR_DS_TIMELIMIT_EXCEEDED),
            8227 => Some(WinErrorWindows::ERROR_DS_SIZELIMIT_EXCEEDED),
            8228 => Some(WinErrorWindows::ERROR_DS_ADMIN_LIMIT_EXCEEDED),
            8229 => Some(WinErrorWindows::ERROR_DS_COMPARE_FALSE),
            8230 => Some(WinErrorWindows::ERROR_DS_COMPARE_TRUE),
            8231 => Some(WinErrorWindows::ERROR_DS_AUTH_METHOD_NOT_SUPPORTED),
            8232 => Some(WinErrorWindows::ERROR_DS_STRONG_AUTH_REQUIRED),
            8233 => Some(WinErrorWindows::ERROR_DS_INAPPROPRIATE_AUTH),
            8234 => Some(WinErrorWindows::ERROR_DS_AUTH_UNKNOWN),
            8235 => Some(WinErrorWindows::ERROR_DS_REFERRAL),
            _ => None,
        }
    }

    /// One slice of the symbol table: the raw value of this symbol,
    /// where this slice holds it.
    pub open spec fn spec_to_u32_part38(self) -> Option<u32> {
        match self {
            WinErrorWindows::ERROR_DS_UNAVAILABLE_CRIT_EXTENSION => Some(8236),
            WinErrorWindows::ERROR_DS_CONFIDENTIALITY_REQUIRED => Some(8237),
            WinErrorWindows::ERROR_DS_INAPPROPRIATE_MATCHING => Some(8238),
            WinErrorWindows::ERROR_DS_CONSTRAINT_VIOLATION => Some(8239),
            WinErrorWindows::ERROR_DS_NO_SUCH_OBJECT => Some(8240),
            WinErrorWindows::ERROR_DS_ALIAS_PROBLEM => Some(8241),
            WinErrorWindows::ERROR_DS_INVALID_DN_SYNTAX => Some(8242),
            WinErrorWindows::ERROR_DS_IS_LEAF => Some(8243),
            WinErrorWindows::ERROR_DS_ALIAS_DEREF_PROBLEM => Some(8244),
            WinErrorWindows::ERROR_DS_UNWILLING_TO_PERFORM => Some(8245),
            WinErrorWindows::ERROR_DS_LOOP_DETECT => Some(8246),
            WinErrorWindows::ERROR_DS_NAMING_VIOLATION => Some(8247),
            WinErrorWindows::ERROR_DS_OBJECT_RESULTS_TOO_LARGE => Some(8248),
            WinErrorWindows::ERROR_DS_AFFECTS_MULTIPLE_DSAS => Some(8249),
            WinErrorWindows::ERROR_DS_SERVER_DOWN => Some(8250),
            WinErrorWindows::ERROR_DS_LOCAL_ERROR => Some(8251),
            WinErrorWindows::ERROR_DS_ENCODING_ERROR => Some(8252),
            WinErrorWindows::ERROR_DS_DECODING_ERROR => Some(8253),
            WinErrorWindows::ERROR_DS_FILTER_UNKNOWN => Some(8254),
            WinErrorWindows::ERROR_DS_PARAM_ERROR => Some(8255),
            WinErrorWindows::ERROR_DS_NOT_SUPPORTED => Some(8256),
            WinErrorWindows::ERROR_DS_NO_RESULTS_RETURNED => Some(8257),
            WinErrorWindows::ERROR_DS_CONTROL_NOT_FOUND => Some(8258),
            WinErrorWindows::ERROR_DS_CLIENT_LOOP => Some(8259),
            WinErrorWindows::ERROR_DS_REFERRAL_LIMIT_EXCEEDED => Some(8260),
            WinErrorWindows::ERROR_DS_SORT_CONTROL_MISSING => Some(8261),
            WinErrorWindows::ERROR_DS_OFFSET_RANGE_ERROR => Some(8262),
            WinErrorWindows::ERROR_DS_RIDMGR_DISABLED => Some(8263),
            WinErrorWindows::ERROR_DS_ROOT_MUST_BE_NC => Some(8301),
            WinErrorWindows::ERROR_DS_ADD_REPLICA_INHIBITED => Some(8302),
            WinErrorWindows::ERROR_DS_ATT_NOT_DEF_IN_SCHEMA => Some(8303),
            WinErrorWindows::ERROR_DS_MAX_OBJ_SIZE_EXCEEDED => Some(8304),
            WinErrorWindows::ERROR_DS_OBJ_STRING_NAME_EXISTS => Some(8305),
            WinErrorWindows::ERROR_DS_NO_RDN_DEFINED_IN_SCHEMA => Some(8306),
            WinErrorWindows::ERROR_DS_RDN_DOESNT_MATCH_SCHEMA => Some(8307),
            WinErrorWindows::ERROR_DS_NO_REQUESTED_ATTS_FOUND => Some(8308),
            WinErrorWindows::ERROR_DS_USER_BUFFER_TO_SMALL => Some(8309),
            WinErrorWindows::ERROR_DS_ATT_IS_NOT_ON_OBJ => Some(8310),
            WinErrorWindows::ERROR_DS_ILLEGAL_MOD_OPERATION => Some(8311),
            WinErrorWindows::ERROR_DS_OBJ_TOO_LARGE => Some(8312),
            WinErrorWindows::ERROR_DS_BAD_INSTANCE_TYPE => Some(8313),
            WinErrorWindows::ERROR_DS_MASTERDSA_REQUIRED => Some(8314),
            WinErrorWindows::ERROR_DS_OBJECT_CLASS_REQUIRED => Some(8315),
            WinErrorWindows::ERROR_DS_MISSING_REQUIRED_ATT => Some(8316),
            WinErrorWindows::ERROR_DS_ATT_NOT_DEF_FOR_CLASS => Some(8317),
            WinErrorWindows::ERROR_DS_ATT_ALREADY_EXISTS => Some(8318),
            WinErrorWindows::ERROR_DS_CANT_ADD_ATT_VALUES => Some(8320),
            WinErrorWindows::ERROR_DS_SINGLE_VALUE_CONSTRAINT => Some(8321),
            WinErrorWindows::ERROR_DS_RANGE_CONSTRAINT => Some(8322),
            WinErrorWindows::ERROR_DS_ATT_VAL_ALREADY_EXISTS => Some(8323),
            _ => None,
        }
    }

    /// One slice of the symbol table: the symbol this slice gives a
    /// raw value, where it holds one.
    pub open spec fn spec_from_u32_part38(raw: u32) -> Option<WinErrorWindows> {
        match raw {
            8236 => Some(WinErrorWindows::ERROR_DS_UNAVAILABLE_CRIT_EXTENSION),
            8237 => Some(WinErrorWindows::ERROR_DS_CONFIDENTIALITY_REQUIRED),
            8238 => Some(WinErrorWindows::ERROR_DS_INAPPROPRIATE_MATCHING),
            8239 => Some(WinErrorWindows::ERROR_DS_CONSTRAINT_VIOLATION),
            8240 => Some(WinErrorWindows::ERROR_DS_NO_SUCH_OBJECT),
            8241 => Some(WinErrorWindows::ERROR_DS_ALIAS_PROBLEM),
            8242 => Some(WinErrorWindows::ERROR_DS_INVALID_DN_SYNTAX),
            8243 => Some(WinErrorWindows::ERROR_DS_IS_LEAF),
            8244 => Some(WinErrorWindows::ERROR_DS_ALIAS_DEREF_PROBLEM),
            8245 => Some(WinErrorWindows::ERROR_DS_UNWILLING_TO_PERFORM),
            8246 => Some(WinErrorWindows::ERROR_DS_LOOP_DETECT),
            8247 => Some(WinErrorWindows::ERROR_DS_NAMING_VIOLATION),
            8248 => Some(WinErrorWindows::ERROR_DS_OBJECT_RESULTS_TOO_LARGE),
            8249 => Some(WinErrorWindows::ERROR_DS_AFFECTS_MULTIPLE_DSAS),
            8250 => Some(WinErrorWindows::ERROR_DS_SERVER_DOWN),
            8251 => Some(WinErrorWindows::ERROR_DS_LOCAL_ERROR),
            8252 => Some(WinErrorWindows::ERROR_DS_ENCODING_ERROR),
            8253 => Some(WinErrorWindows::ERROR_DS_DECODING_ERROR),
            8254 => Some(WinErrorWindows::ERROR_DS_FILTER_UNKNOWN),
            8255 => Some(WinErrorWindows::ERROR_DS_PARAM_ERROR),
            8256 => Some(WinErrorWindows::ERROR_DS_NOT_SUPPORTED),
            8257 => Some(WinErrorWindows::ERROR_DS_NO_RESULTS_RETURNED),
            8258 => Some(WinErrorWindows::ERROR_DS_CONTROL_NOT_FOUND),
            8259 => Some(WinErrorWindows::ERROR_DS_CLIENT_LOOP),
            8260 => Some(WinErrorWindows::ERROR_DS_REFERRAL_LIMIT_EXCEEDED),
            8261 => Some(WinErrorWindows::ERROR_DS_SORT_CONTROL_MISSING),
            8262 => Some(WinErrorWindows::ERROR_DS_OFFSET_RANGE_ERROR),
            8263 => Some(WinErrorWindows::ERROR_DS_RIDMGR_DISABLED),
            8301 => Some(WinErrorWindows::ERROR_DS_ROOT_MUST_BE_NC),
            8302 => Some(WinErrorWindows::ERROR_DS_ADD_REPLICA_INHIBITED),
            8303 => Some(WinErrorWindows::ERROR_DS_ATT_NOT_DEF_IN_SCHEMA),
            8304 => Some(WinErrorWindows::ERROR_DS_MAX_OBJ_SIZE_EXCEEDED),
            8305 => Some(WinErrorWindows::ERROR_DS_OBJ_STRING_NAME_EXISTS),
            8306 => Some(WinErrorWindows::ERROR_DS_NO_RDN_DEFINED_IN_SCHEMA),
            8307 => Some(WinErrorWindows::ERROR_DS_RDN_DOESNT_MATCH_SCHEMA),
            8308 => Some(WinErrorWindows::ERROR_DS_NO_REQUESTED_ATTS_FOUND),
            8309 => Some(WinErrorWindows::ERROR_DS_USER_BUFFER_TO_SMALL),
            8310 => Some(WinErrorWindows::ERROR_DS_ATT_IS_NOT_ON_OBJ),
            8311 => Some(WinErrorWindows::ERROR_DS_ILLEGAL_MOD_OPERATION),
            8312 => Some(WinErrorWindows::ERROR_DS_OBJ_TOO_LARGE),
            8313 => Some(WinErrorWindows::ERROR_DS_BAD_INSTANCE_TYPE),
            8314 => Some(WinErrorWindows::ERROR_DS_MASTERDSA_REQUIRED),
            8315 => Some(WinErrorWindows::ERROR_DS_OBJECT_CLASS_REQUIRED),
            8316 => Some(WinErrorWindows::ERROR_DS_MISSING_REQUIRED_ATT),
            8317 => Some(WinErrorWindows::ERROR_DS_ATT_NOT_DEF_FOR_CLASS),
            8318 => Some(WinErrorWindows::ERROR_DS_ATT_ALREADY_EXISTS),
            8320 => Some(WinErrorWindows::ERROR_DS_CANT_ADD_ATT_VALUES),
            8321 => Some(WinErrorWindows::ERROR_DS_SINGLE_VALUE_CONSTRAINT),
            8322 => Some(WinErrorWindows::ERROR_DS_RANGE_CONSTRAINT),
            8323 => Some(WinErrorWindows::ERROR_DS_ATT_VAL_ALREADY_EXISTS),
            _ => None,
        }
    }

    /// One slice of the symbol table.
    #[verifier::spinoff_prover]
    #[verifier::rlimit(100)]
    fn to_u32_part38(self) -> (r: Option<u32>)
        ensures
            r == self.spec_to_u32_part38(),
    {
        match self {
            WinErrorWindows::ERROR_DS_UNAVAILABLE_CRIT_EXTENSION => Some(8236),
            WinErrorWindows::ERROR_DS_CONFIDENTIALITY_REQUIRED => Some(8237),
            WinErrorWindows::ERROR_DS_INAPPROPRIATE_MATCHING => Some(8238),
            WinErrorWindows::ERROR_DS_CONSTRAINT_VIOLATION => Some(8239),
            WinErrorWindows::ERROR_DS_NO_SUCH_OBJECT => Some(8240),
            WinErrorWindows::ERROR_DS_ALIAS_PROBLEM => Some(8241),
            WinErrorWindows::ERROR_DS_INVALID_DN_SYNTAX => Some(8242),
            WinErrorWindows::ERROR_DS_IS_LEAF => Some(8243),
            WinErrorWindows::ERROR_DS_ALIAS_DEREF_PROBLEM => Some(8244),
            WinErrorWindows::ERROR_DS_UNWILLING_TO_PERFORM => Some(8245),
            WinErrorWindows::ERROR_DS_LOOP_DETECT => Some(8246),
            WinErrorWindows::ERROR_DS_NAMING_VIOLATION => Some(8247),
            WinErrorWindows::ERROR_DS_OBJECT_RESULTS_TOO_LARGE => Some(8248),
            WinErrorWindows::ERROR_DS_AFFECTS_MULTIPLE_DSAS => Some(8249),
            WinErrorWindows::ERROR_DS_SERVER_DOWN => Some(8250),
            WinErrorWindows::ERROR_DS_LOCAL_ERROR => Some(8251),
            WinErrorWindows::ERROR_DS_ENCODING_ERROR => Some(8252),
            WinErrorWindows::ERROR_DS_DECODING_ERROR => Some(8253),
            WinErrorWindows::ERROR_DS_FILTER_UNKNOWN => Some(8254),
            WinErrorWindows::ERROR_DS_PARAM_ERROR => Some(8255),
            WinErrorWindows::ERROR_DS_NOT_SUPPORTED => Some(8256),
            WinErrorWindows::ERROR_DS_NO_RESULTS_RETURNED => Some(8257),
            WinErrorWindows::ERROR_DS_CONTROL_NOT_FOUND => Some(8258),
            WinErrorWindows::ERROR_DS_CLIENT_LOOP => Some(8259),
            WinErrorWindows::ERROR_DS_REFERRAL_LIMIT_EXCEEDED => Some(8260),
            WinErrorWindows::ERROR_DS_SORT_CONTROL_MISSING => Some(8261),
            WinErrorWindows::ERROR_DS_OFFSET_RANGE_ERROR => Some(8262),
            WinErrorWindows::ERROR_DS_RIDMGR_DISABLED => Some(8263),
            WinErrorWindows::ERROR_DS_ROOT_MUST_BE_NC => Some(8301),
            WinErrorWindows::ERROR_DS_ADD_REPLICA_INHIBITED => Some(8302),
            WinErrorWindows::ERROR_DS_ATT_NOT_DEF_IN_SCHEMA => Some(8303),
            WinErrorWindows::ERROR_DS_MAX_OBJ_SIZE_EXCEEDED => Some(8304),
            WinErrorWindows::ERROR_DS_OBJ_STRING_NAME_EXISTS => Some(8305),
            WinErrorWindows::ERROR_DS_NO_RDN_DEFINED_IN_SCHEMA => Some(8306),
            WinErrorWindows::ERROR_DS_RDN_DOESNT_MATCH_SCHEMA => Some(8307),
            WinErrorWindows::ERROR_DS_NO_REQUESTED_ATTS_FOUND => Some(8308),
            WinErrorWindows::ERROR_DS_USER_BUFFER_TO_SMALL => Some(8309),
            WinErrorWindows::ERROR_DS_ATT_IS_NOT_ON_OBJ => Some(8310),
            WinErrorWindows::ERROR_DS_ILLEGAL_MOD_OPERATION => Some(8311),
            WinErrorWindows::ERROR_DS_OBJ_TOO_LARGE => Some(8312),
            WinErrorWindows::ERROR_DS_BAD_INSTANCE_TYPE => Some(8313),
            WinErrorWindows::ERROR_DS_MASTERDSA_REQUIRED => Some(8314),
            WinErrorWindows::ERROR_DS_OBJECT_CLASS_REQUIRED => Some(8315),
            WinErrorWindows::ERROR_DS_MISSING_REQUIRED_ATT => Some(8316),
            WinErrorWindows::ERROR_DS_ATT_NOT_DEF_FOR_CLASS => Some(8317),
            WinErrorWindows::ERROR_DS_ATT_ALREADY_EXISTS => Some(8318),
            WinErrorWindows::ERROR_DS_CANT_ADD_ATT_VALUES => Some(8320),
            WinErrorWindows::ERROR_DS_SINGLE_VALUE_CONSTRAINT => Some(8321),
            WinErrorWindows::ERROR_DS_RANGE_CONSTRAINT => Some(8322),
            WinErrorWindows::ERROR_DS_ATT_VAL_ALREADY_EXISTS => Some(8323),
            _ => None,
        }
    }

    /// One slice of the symbol table.
    #[verifier::spinoff_prover]
    #[verifier::rlimit(100)]
    fn from_u32_part38(raw: u32) -> (r: Option<WinErrorWindows>)
        ensures
            r == WinErrorWindows::spec_from_u32_part38(raw),
    {
        match raw {
            8236 => Some(WinErrorWindows::ERROR_DS_UNAVAILABLE_CRIT_EXTENSION),
            8237 => Some(WinErrorWindows::ERROR_DS_CONFIDENTIALITY_REQUIRED),
            8238 => Some(WinErrorWindows::ERROR_DS_INAPPROPRIATE_MATCHING),
            8239 => Some(WinErrorWindows::ERROR_DS_CONSTRAINT_VIOLATION),
            8240 => Some(WinErrorWindows::ERROR_DS_NO_SUCH_OBJECT),
            8241 => Some(WinErrorWindows::ERROR_DS_ALIAS_PROBLEM),
            8242 => Some(WinErrorWindows::ERROR_DS_INVALID_DN_SYNTAX),
            8243 => Some(WinErrorWindows::ERROR_DS_IS_LEAF),
            8244 => Some(WinErrorWindows::ERROR_DS_ALIAS_DEREF_PROBLEM),
            8245 => Some(WinErrorWindows::ERROR_DS_UNWILLING_TO_PERFORM),
            8246 => Some(WinErrorWindows::ERROR_DS_LOOP_DETECT),
            8247 => Some(WinErrorWindows::ERROR_DS_NAMING_VIOLATION),
            8248 => Some(WinErrorWindows::ERROR_DS_OBJECT_RESULTS_TOO_LARGE),
            8249 => Some(WinErrorWindows::ERROR_DS_AFFECTS_MULTIPLE_DSAS),
            8250 => Some(WinErrorWindows::ERROR_DS_SERVER_DOWN),
            8251 => Some(WinErrorWindows::ERROR_DS_LOCAL_ERROR),
            8252 => Some(WinErrorWindows::ERROR_DS_ENCODING_ERROR),
            8253 => Some(WinErrorWindows::ERROR_DS_DECODING_ERROR),
            8254 => Some(WinErrorWindows::ERROR_DS_FILTER_UNKNOWN),
            8255 => Some(WinErrorWindows::ERROR_DS_PARAM_ERROR),
            8256 => Some(WinErrorWindows::ERROR_DS_NOT_SUPPORTED),
            8257 => Some(WinErrorWindows::ERROR_DS_NO_RESULTS_RETURNED),
            8258 => Some(WinErrorWindows::ERROR_DS_CONTROL_NOT_FOUND),
            8259 => Some(WinErrorWindows::ERROR_DS_CLIENT_LOOP),
            8260 => Some(WinErrorWindows::ERROR_DS_REFERRAL_LIMIT_EXCEEDED),
            8261 => Some(WinErrorWindows::ERROR_DS_SORT_CONTROL_MISSING),
            8262 => Some(WinErrorWindows::ERROR_DS_OFFSET_RANGE_ERROR),
            8263 => Some(WinErrorWindows::ERROR_DS_RIDMGR_DISABLED),
            8301 => Some(WinErrorWindows::ERROR_DS_ROOT_MUST_BE_NC),
            8302 => Some(WinErrorWindows::ERROR_DS_ADD_REPLICA_INHIBITED),
            8303 => Some(WinErrorWindows::ERROR_DS_ATT_NOT_DEF_IN_SCHEMA),
            8304 => Some(WinErrorWindows::ERROR_DS_MAX_OBJ_SIZE_EXCEEDED),
            8305 => Some(WinErrorWindows::ERROR_DS_OBJ_STRING_NAME_EXISTS),
            8306 => Some(WinErrorWindows::ERROR_DS_NO_RDN_DEFINED_IN_SCHEMA),
            8307 => Some(WinErrorWindows::ERROR_DS_RDN_DOESNT_MATCH_SCHEMA),
            8308 => Some(WinErrorWindows::ERROR_DS_NO_REQUESTED_ATTS_FOUND),
            8309 => Some(WinErrorWindows::ERROR_DS_USER_BUFFER_TO_SMALL),
            8310 => Some(WinErrorWindows::ERROR_DS_ATT_IS_NOT_ON_OBJ),
            8311 => Some(WinErrorWindows::ERROR_DS_ILLEGAL_MOD_OPERATION),
            8312 => Some(WinErrorWindows::ERROR_DS_OBJ_TOO_LARGE),
            8313 => Some(WinErrorWindows::ERROR_DS_BAD_INSTANCE_TYPE),
            8314 => Some(WinErrorWindows::ERROR_DS_MASTERDSA_REQUIRED),
            8315 => Some(WinErrorWindows::ERROR_DS_OBJECT_CLASS_REQUIRED),
            8316 => Some(WinErrorWindows::ERROR_DS_MISSING_REQUIRED_ATT),
            8317 => Some(WinErrorWindows::ERROR_DS_ATT_NOT_DEF_FOR_CLASS),
            8318 => Some(WinErrorWindows::ERROR_DS_ATT_ALREADY_EXISTS),
            8320 => Some(WinErrorWindows::ERROR_DS_CANT_ADD_ATT_VALUES),
            8321 => Some(WinErrorWindows::ERROR_DS_SINGLE_VALUE_CONSTRAINT),
            8322 => Some(WinErrorWindows::ERROR_DS_RANGE_CONSTRAINT),
            8323 => Some(WinErrorWindows::ERROR_DS_ATT_VAL_ALREADY_EXISTS),
            _ => None,
        }
    }

    /// One slice of the symbol table: the raw value of this symbol,
    /// where this slice holds it.
    pub open spec fn spec_to_u32_part39(self) -> Option<u32> {
        match self {
            WinErrorWindows::ERROR_DS_CANT_REM_MISSING_ATT => Some(8324),
            WinErrorWindows::ERROR_DS_CANT_REM_MISSING_ATT_VAL => Some(8325),
            WinErrorWindows::ERROR_DS_ROOT_CANT_BE_SUBREF => Some(8326),
            WinErrorWindows::ERROR_DS_NO_CHAINING => Some(8327),
            WinErrorWindows::ERROR_DS_NO_CHAINED_EVAL => Some(8328),
            WinErrorWindows::ERROR_DS_NO_PARENT_OBJECT => Some(8329),
            WinErrorWindows::ERROR_DS_PARENT_IS_AN_ALIAS => Some(8330),
            WinErrorWindows::ERROR_DS_CANT_MIX_MASTER_AND_REPS => Some(8331),
            WinErrorWindows::ERROR_DS_CHILDREN_EXIST => Some(8332),
            WinErrorWindows::ERROR_DS_OBJ_NOT_FOUND => Some(8333),
            WinErrorWindows::ERROR_DS_ALIASED_OBJ_MISSING => Some(8334),
            WinErrorWindows::ERROR_DS_BAD_NAME_SYNTAX => Some(8335),
            WinErrorWindows::ERROR_DS_ALIAS_POINTS_TO_ALIAS => Some(8336),
            WinErrorWindows::ERROR_DS_CANT_DEREF_ALIAS => Some(8337),
            WinErrorWindows::ERROR_DS_OUT_OF_SCOPE => Some(8338),
            WinErrorWindows::ERROR_DS_OBJECT_BEING_REMOVED => Some(8339),
            WinErrorWindows::ERROR_DS_CANT_DELETE_DSA_OBJ => Some(8340),
            WinErrorWindows::ERROR_DS_GENERIC_ERROR => Some(8341),
            WinErrorWindows::ERROR_DS_DSA_MUST_BE_INT_MASTER => Some(8342),
            WinErrorWindows::ERROR_DS_CLASS_NOT_DSA => Some(8343),
            WinErrorWindows::ERROR_DS_INSUFF_ACCESS_RIGHTS => Some(8344),
            WinErrorWindows::ERROR_DS_ILLEGAL_SUPERIOR => Some(8345),
            WinErrorWindows::ERROR_DS_ATTRIBUTE_OWNED_BY_SAM => Some(8346),
            WinErrorWindows::ERROR_DS_NAME_TOO_MANY_PARTS => Some(8347),
            WinErrorWindows::ERROR_DS_NAME_TOO_LONG => Some(8348),
            WinErrorWindows::ERROR_DS_NAME_VALUE_TOO_LONG => Some(8349),
            WinErrorWindows::ERROR_DS_NAME_UNPARSEABLE => Some(8350),
            WinErrorWindows::ERROR_DS_NAME_TYPE_UNKNOWN => Some(8351),
            WinErrorWindows::ERROR_DS_NOT_AN_OBJECT => Some(8352),
            WinErrorWindows::ERROR_DS_SEC_DESC_TOO_SHORT => Some(8353),
            WinErrorWindows::ERROR_DS_SEC_DESC_INVALID => Some(8354),
            WinErrorWindows::ERROR_DS_NO_DELETED_NAME => Some(8355),
            WinErrorWindows::ERROR_DS_SUBREF_MUST_HAVE_PARENT => Some(8356),
            WinErrorWindows::ERROR_DS_NCNAME_MUST_BE_NC => Some(8357),
            WinErrorWindows::ERROR_DS_CANT_ADD_SYSTEM_ONLY => Some(8358),
            WinErrorWindows::ERROR_DS_CLASS_MUST_BE_CONCRETE => Some(8359),
            WinErrorWindows::ERROR_DS_INVALID_DMD => Some(8360),
            WinErrorWindows::ERROR_DS_OBJ_GUID_EXISTS => Some(8361),
            WinErrorWindows::ERROR_DS_NOT_ON_BACKLINK => Some(8362),
            WinErrorWindows::ERROR_DS_NO_CROSSREF_FOR_NC => Some(8363),
            WinErrorWindows::ERROR_DS_SHUTTING_DOWN => Some(8364),
            WinErrorWindows::ERROR_DS_UNKNOWN_OPERATION => Some(8365),
            WinErrorWindows::ERROR_DS_INVALID_ROLE_OWNER => Some(8366),
            WinErrorWindows::ERROR_DS_COULDNT_CONTACT_FSMO => Some(8367),
            WinErrorWindows::ERROR_DS_CROSS_NC_DN_RENAME => Some(8368),
            WinErrorWindows::ERROR_DS_CANT_MOD_SYSTEM_ONLY => Some(8369),
            WinErrorWindows::ERROR_DS_REPLICATOR_ONLY => Some(8370),
            WinErrorWindows::ERROR_DS_OBJ_CLASS_NOT_DEFINED => Some(8371),
            WinErrorWindows::ERROR_DS_OBJ_CLASS_NOT_SUBCLASS => Some(8372),
            WinErrorWindows::ERROR_DS_NAME_REFERENCE_INVALID => Some(8373),
            _ => None,
        }
    }

    /// One slice of the symbol table: the symbol this slice gives a
    /// raw value, where it holds one.
    pub open spec fn spec_from_u32_part39(raw: u32) -> Option<WinErrorWindows> {
        match raw {
            8324 => Some(WinErrorWindows::ERROR_DS_CANT_REM_MISSING_ATT),
            8325 => Some(WinErrorWindows::ERROR_DS_CANT_REM_MISSING_ATT_VAL),
            8326 => Some(WinErrorWindows::ERROR_DS_ROOT_CANT_BE_SUBREF),
            8327 => Some(WinErrorWindows::ERROR_DS_NO_CHAINING),
            8328 => Some(WinErrorWindows::ERROR_DS_NO_CHAINED_EVAL),
            8329 => Some(WinErrorWindows::ERROR_DS_NO_PARENT_OBJECT),
            8330 => Some(WinErrorWindows::ERROR_DS_PARENT_IS_AN_ALIAS),
            8331 => Some(WinErrorWindows::ERROR_DS_CANT_MIX_MASTER_AND_REPS),
            8332 => Some(WinErrorWindows::ERROR_DS_CHILDREN_EXIST),
            8333 => Some(WinErrorWindows::ERROR_DS_OBJ_NOT_FOUND),
            8334 => Some(WinErrorWindows::ERROR_DS_ALIASED_OBJ_MISSING),
            8335 => Some(WinErrorWindows::ERROR_DS_BAD_NAME_SYNTAX),
            8336 => Some(WinErrorWindows::ERROR_DS_ALIAS_POINTS_TO_ALIAS),
            8337 => Some(WinErrorWindows::ERROR_DS_CANT_DEREF_ALIAS),
            8338 => Some(WinErrorWindows::ERROR_DS_OUT_OF_SCOPE),
            8339 => Some(WinErrorWindows::ERROR_DS_OBJECT_BEING_REMOVED),
            8340 => Some(WinErrorWindows::ERROR_DS_CANT_DELETE_DSA_OBJ),
            8341 => Some(WinErrorWindows::ERROR_DS_GENERIC_ERROR),
            8342 => Some(WinErrorWindows::ERROR_DS_DSA_MUST_BE_INT_MASTER),
            8343 => Some(WinErrorWindows::ERROR_DS_CLASS_NOT_DSA),
            8344 => Some(WinErrorWindows::ERROR_DS_INSUFF_ACCESS_RIGHTS),
            8345 => Some(WinErrorWindows::ERROR_DS_ILLEGAL_SUPERIOR),
            8346 => Some(WinErrorWindows::ERROR_DS_ATTRIBUTE_OWNED_BY_SAM),
            8347 => Some(WinErrorWindows::ERROR_DS_NAME_TOO_MANY_PARTS),
            8348 => Some(WinErrorWindows::ERROR_DS_NAME_TOO_LONG),
            8349 => Some(WinErrorWindows::ERROR_DS_NAME_VALUE_TOO_LONG),
            8350 => Some(WinErrorWindows::ERROR_DS_NAME_UNPARSEABLE),
            8351 => Some(WinErrorWindows::ERROR_DS_NAME_TYPE_UNKNOWN),
            8352 => Some(WinErrorWindows::ERROR_DS_NOT_AN_OBJECT),
            8353 => Some(WinErrorWindows::ERROR_DS_SEC_DESC_TOO_SHORT),
            8354 => Some(WinErrorWindows::ERROR_DS_SEC_DESC_INVALID),
            8355 => Some(WinErrorWindows::ERROR_DS_NO_DELETED_NAME),
            8356 => Some(WinErrorWindows::ERROR_DS_SUBREF_MUST_HAVE_PARENT),
            8357 => Some(WinErrorWindows::ERROR_DS_NCNAME_MUST_BE_NC),
            8358 => Some(WinErrorWindows::ERROR_DS_CANT_ADD_SYSTEM_ONLY),
            8359 => Some(WinErrorWindows::ERROR_DS_CLASS_MUST_BE_CONCRETE),
            8360 => Some(WinErrorWindows::ERROR_DS_INVALID_DMD),
            8361 => Some(WinErrorWindows::ERROR_DS_OBJ_GUID_EXISTS),
            8362 => Some(WinErrorWindows::ERROR_DS_NOT_ON_BACKLINK),
            8363 => Some(WinErrorWindows::ERROR_DS_NO_CROSSREF_FOR_NC),
            8364 => Some(WinErrorWindows::ERROR_DS_SHUTTING_DOWN),
            8365 => Some(WinErrorWindows::ERROR_DS_UNKNOWN_OPERATION),
            8366 => Some(WinErrorWindows::ERROR_DS_INVALID_ROLE_OWNER),
            8367 => Some(WinErrorWindows::ERROR_DS_COULDNT_CONTACT_FSMO),
            8368 => Some(WinErrorWindows::ERROR_DS_CROSS_NC_DN_RENAME),
            8369 => Some(WinErrorWindows::ERROR_DS_CANT_MOD_SYSTEM_ONLY),
            8370 => Some(WinErrorWindows::ERROR_DS_REPLICATOR_ONLY),
            8371 => Some(WinErrorWindows::ERROR_DS_OBJ_CLASS_NOT_DEFINED),
            8372 => Some(WinErrorWindows::ERROR_DS_OBJ_CLASS_NOT_SUBCLASS),
            8373 => Some(WinErrorWindows::ERROR_DS_NAME_REFERENCE_INVALID),
            _ => None,
        }
    }

    /// One slice of the symbol table.
    #[verifier::spinoff_prover]
    #[verifier::rlimit(100)]
    fn to_u32_part39(self) -> (r: Option<u32>)
        ensures
            r == self.spec_to_u32_part39(),
    {
        match self {
            WinErrorWindows::ERROR_DS_CANT_REM_MISSING_ATT => Some(8324),
            WinErrorWindows::ERROR_DS_CANT_REM_MISSING_ATT_VAL => Some(8325),
            WinErrorWindows::ERROR_DS_ROOT_CANT_BE_SUBREF => Some(8326),
            WinErrorWindows::ERROR_DS_NO_CHAINING => Some(8327),
            WinErrorWindows::ERROR_DS_NO_CHAINED_EVAL => Some(8328),
            WinErrorWindows::ERROR_DS_NO_PARENT_OBJECT => Some(8329),
            WinErrorWindows::ERROR_DS_PARENT_IS_AN_ALIAS => Some(8330),
            WinErrorWindows::ERROR_DS_CANT_MIX_MASTER_AND_REPS => Some(8331),
            WinErrorWindows::ERROR_DS_CHILDREN_EXIST => Some(8332),
            WinErrorWindows::ERROR_DS_OBJ_NOT_FOUND => Some(8333),
            WinErrorWindows::ERROR_DS_ALIASED_OBJ_MISSING => Some(8334),
            WinErrorWindows::ERROR_DS_BAD_NAME_SYNTAX => Some(8335),
            WinErrorWindows::ERROR_DS_ALIAS_POINTS_TO_ALIAS => Some(8336),
            WinErrorWindows::ERROR_DS_CANT_DEREF_ALIAS => Some(8337),
            WinErrorWindows::ERROR_DS_OUT_OF_SCOPE => Some(8338),
            WinErrorWindows::ERROR_DS_OBJECT_BEING_REMOVED => Some(8339),
            WinErrorWindows::ERROR_DS_CANT_DELETE_DSA_OBJ => Some(8340),
            WinErrorWindows::ERROR_DS_GENERIC_ERROR => Some(8341),
            WinErrorWindows::ERROR_DS_DSA_MUST_BE_INT_MASTER => Some(8342),
            WinErrorWindows::ERROR_DS_CLASS_NOT_DSA => Some(8343),
            WinErrorWindows::ERROR_DS_INSUFF_ACCESS_RIGHTS => Some(8344),
            WinErrorWindows::ERROR_DS_ILLEGAL_SUPERIOR => Some(8345),
            WinErrorWindows::ERROR_DS_ATTRIBUTE_OWNED_BY_SAM => Some(8346),
            WinErrorWindows::ERROR_DS_NAME_TOO_MANY_PARTS => Some(8347),
            WinErrorWindows::ERROR_DS_NAME_TOO_LONG => Some(8348),
            WinErrorWindows::ERROR_DS_NAME_VALUE_TOO_LONG => Some(8349),
            WinErrorWindows::ERROR_DS_NAME_UNPARSEABLE => Some(8350),
            WinErrorWindows::ERROR_DS_NAME_TYPE_UNKNOWN => Some(8351),
            WinErrorWindows::ERROR_DS_NOT_AN_OBJECT => Some(8352),
            WinErrorWindows::ERROR_DS_SEC_DESC_TOO_SHORT => Some(8353),
            WinErrorWindows::ERROR_DS_SEC_DESC_INVALID => Some(8354),
            WinErrorWindows::ERROR_DS_NO_DELETED_NAME => Some(8355),
            WinErrorWindows::ERROR_DS_SUBREF_MUST_HAVE_PARENT => Some(8356),
            WinErrorWindows::ERROR_DS_NCNAME_MUST_BE_NC => Some(8357),
            WinErrorWindows::ERROR_DS_CANT_ADD_SYSTEM_ONLY => Some(8358),
            WinErrorWindows::ERROR_DS_CLASS_MUST_BE_CONCRETE => Some(8359),
            WinErrorWindows::ERROR_DS_INVALID_DMD => Some(8360),
            WinErrorWindows::ERROR_DS_OBJ_GUID_EXISTS => Some(8361),
            WinErrorWindows::ERROR_DS_NOT_ON_BACKLINK => Some(8362),
            WinErrorWindows::ERROR_DS_NO_CROSSREF_FOR_NC => Some(8363),
            WinErrorWindows::ERROR_DS_SHUTTING_DOWN => Some(8364),
            WinErrorWindows::ERROR_DS_UNKNOWN_OPERATION => Some(8365),
            WinErrorWindows::ERROR_DS_INVALID_ROLE_OWNER => Some(8366),
            WinErrorWindows::ERROR_DS_COULDNT_CONTACT_FSMO => Some(8367),
            WinErrorWindows::ERROR_DS_CROSS_NC_DN_RENAME => Some(8368),
            WinErrorWindows::ERROR_DS_CANT_MOD_SYSTEM_ONLY => Some(8369),
            WinErrorWindows::ERROR_DS_REPLICATOR_ONLY => Some(8370),
            WinErrorWindows::ERROR_DS_OBJ_CLASS_NOT_DEFINED => Some(8371),
            WinErrorWindows::ERROR_DS_OBJ_CLASS_NOT_SUBCLASS => Some(8372),
            WinErrorWindows::ERROR_DS_NAME_REFERENCE_INVALID => Some(8373),
            _ => None,
        }
    }

    /// One slice of the symbol table.
    #[verifier::spinoff_prover]
    #[verifier::rlimit(100)]
    fn from_u32_part39(raw: u32) -> (r: Option<WinErrorWindows>)
        ensures
            r == WinErrorWindows::spec_from_u32_part39(raw),
    {
        match raw {
            8324 => Some(WinErrorWindows::ERROR_DS_CANT_REM_MISSING_ATT),
            8325 => Some(WinErrorWindows::ERROR_DS_CANT_REM_MISSING_ATT_VAL),
            8326 => Some(WinErrorWindows::ERROR_DS_ROOT_CANT_BE_SUBREF),
            8327 => Some(WinErrorWindows::ERROR_DS_NO_CHAINING),
            8328 => Some(WinErrorWindows::ERROR_DS_NO_CHAINED_EVAL),
            8329 => Some(WinErrorWindows::ERROR_DS_NO_PARENT_OBJECT),
            8330 => Some(WinErrorWindows::ERROR_DS_PARENT_IS_AN_ALIAS),
            8331 => Some(WinErrorWindows::ERROR_DS_CANT_MIX_MASTER_AND_REPS),
            8332 => Some(WinErrorWindows::ERROR_DS_CHILDREN_EXIST),
            8333 => Some(WinErrorWindows::ERROR_DS_OBJ_NOT_FOUND),
            8334 => Some(WinErrorWindows::ERROR_DS_ALIASED_OBJ_MISSING),
            8335 => Some(WinErrorWindows::ERROR_DS_BAD_NAME_SYNTAX),
            8336 => Some(WinErrorWindows::ERROR_DS_ALIAS_POINTS_TO_ALIAS),
            8337 => Some(WinErrorWindows::ERROR_DS_CANT_DEREF_ALIAS),
            8338 => Some(WinErrorWindows::ERROR_DS_OUT_OF_SCOPE),
            8339 => Some(WinErrorWindows::ERROR_DS_OBJECT_BEING_REMOVED),
            8340 => Some(WinErrorWindows::ERROR_DS_CANT_DELETE_DSA_OBJ),
            8341 => Some(WinErrorWindows::ERROR_DS_GENERIC_ERROR),
            8342 => Some(WinErrorWindows::ERROR_DS_DSA_MUST_BE_INT_MASTER),
            8343 => Some(WinErrorWindows::ERROR_DS_CLASS_NOT_DSA),
            8344 => Some(WinErrorWindows::ERROR_DS_INSUFF_ACCESS_RIGHTS),
            8345 => Some(WinErrorWindows::ERROR_DS_ILLEGAL_SUPERIOR),
            8346 => Some(WinErrorWindows::ERROR_DS_ATTRIBUTE_OWNED_BY_SAM),
            8347 => Some(WinErrorWindows::ERROR_DS_NAME_TOO_MANY_PARTS),
            8348 => Some(WinErrorWindows::ERROR_DS_NAME_TOO_LONG),
            8349 => Some(WinErrorWindows::ERROR_DS_NAME_VALUE_TOO_LONG),
            8350 => Some(WinErrorWindows::ERROR_DS_NAME_UNPARSEABLE),
            8351 => Some(WinErrorWindows::ERROR_DS_NAME_TYPE_UNKNOWN),
            8352 => Some(WinErrorWindows::ERROR_DS_NOT_AN_OBJECT),
            8353 => Some(WinErrorWindows::ERROR_DS_SEC_DESC_TOO_SHORT),
            8354 => Some(WinErrorWindows::ERROR_DS_SEC_DESC_INVALID),
            8355 => Some(WinErrorWindows::ERROR_DS_NO_DELETED_NAME),
            8356 => Some(WinErrorWindows::ERROR_DS_SUBREF_MUST_HAVE_PARENT),
            8357 => Some(WinErrorWindows::ERROR_DS_NCNAME_MUST_BE_NC),
            8358 => Some(WinErrorWindows::ERROR_DS_CANT_ADD_SYSTEM_ONLY),
            8359 => Some(WinErrorWindows::ERROR_DS_CLASS_MUST_BE_CONCRETE),
            8360 => Some(WinErrorWindows::ERROR_DS_INVALID_DMD),
            8361 => Some(WinErrorWindows::ERROR_DS_OBJ_GUID_EXISTS),
            8362 => Some(WinErrorWindows::ERROR_DS_NOT_ON_BACKLINK),
            8363 => Some(WinErrorWindows::ERROR_DS_NO_CROSSREF_FOR_NC),
            8364 => Some(WinErrorWindows::ERROR_DS_SHUTTING_DOWN),
            8365 => Some(WinErrorWindows::ERROR_DS_UNKNOWN_OPERATION),
            8366 => Some(WinErrorWindows::ERROR_DS_INVALID_ROLE_OWNER),
            8367 => Some(WinErrorWindows::ERROR_DS_COULDNT_CONTACT_FSMO),
            8368 => Some(WinErrorWindows::ERROR_DS_CROSS_NC_DN_RENAME),
            8369 => Some(WinErrorWindows::ERROR_DS_CANT_MOD_SYSTEM_ONLY),
            8370 => Some(WinErrorWindows::ERROR_DS_REPLICATOR_ONLY),
            8371 => Some(WinErrorWindows::ERROR_DS_OBJ_CLASS_NOT_DEFINED),
            8372 => Some(WinErrorWindows::ERROR_DS_OBJ_CLASS_NOT_SUBCLASS),
            8373 => Some(WinErrorWindows::ERROR_DS_NAME_REFERENCE_INVALID),
            _ => None,
        }
    }

    /// One slice of the symbol table: the raw value of this symbol,
    /// where this slice holds it.
    pub open spec fn spec_to_u32_part40(self) -> Option<u32> {
        match self {
            WinErrorWindows::ERROR_DS_CROSS_REF_EXISTS => Some(8374),
            WinErrorWindows::ERROR_DS_CANT_DEL_MASTER_CROSSREF => Some(8375),
            WinErrorWindows::ERROR_DS_SUBTREE_NOTIFY_NOT_NC_HEAD => Some(8376),
            WinErrorWindows::ERROR_DS_NOTIFY_FILTER_TOO_COMPLEX => Some(8377),
            WinErrorWindows::ERROR_DS_DUP_RDN => Some(8378),
            WinErrorWindows::ERROR_DS_DUP_OID => Some(8379),
            WinErrorWindows::ERROR_DS_DUP_MAPI_ID => Some(8380),
            WinErrorWindows::ERROR_DS_DUP_SCHEMA_ID_GUID => Some(8381),
            WinErrorWindows::ERROR_DS_DUP_LDAP_DISPLAY_NAME => Some(8382),
            WinErrorWindows::ERROR_DS_SEMANTIC_ATT_TEST => Some(8383),
            WinErrorWindows::ERROR_DS_SYNTAX_MISMATCH => Some(8384),
            WinErrorWindows::ERROR_DS_EXISTS_IN_MUST_HAVE => Some(8385),
            WinErrorWindows::ERROR_DS_EXISTS_IN_MAY_HAVE => Some(8386),
            WinErrorWindows::ERROR_DS_NONEXISTENT_MAY_HAVE => Some(8387),
            WinErrorWindows::ERROR_DS_NONEXISTENT_MUST_HAVE => Some(8388),
            WinErrorWindows::ERROR_DS_AUX_CLS_TEST_FAIL => Some(8389),
            WinErrorWindows::ERROR_DS_NONEXISTENT_POSS_SUP => Some(8390),
            WinErrorWindows::ERROR_DS_SUB_CLS_TEST_FAIL => Some(8391),
            WinErrorWindows::ERROR_DS_BAD_RDN_ATT_ID_SYNTAX => Some(8392),
            WinErrorWindows::ERROR_DS_EXISTS_IN_AUX_CLS => Some(8393),
            WinErrorWindows::ERROR_DS_EXISTS_IN_SUB_CLS => Some(8394),
            WinErrorWindows::ERROR_DS_EXISTS_IN_POSS_SUP => Some(8395),
            WinErrorWindows::ERROR_DS_RECALCSCHEMA_FAILED => Some(8396),
            WinErrorWindows::ERROR_DS_TREE_DELETE_NOT_FINISHED => Some(8397),
            WinErrorWindows::ERROR_DS_CANT_DELETE => Some(8398),
            WinErrorWindows::ERROR_DS_ATT_SCHEMA_REQ_ID => Some(8399),
            WinErrorWindows::ERROR_DS_BAD_ATT_SCHEMA_SYNTAX => Some(8400),
            WinErrorWindows::ERROR_DS_CANT_CACHE_ATT => Some(8401),
            WinErrorWindows::ERROR_DS_CANT_CACHE_CLASS => Some(8402),
            WinErrorWindows::ERROR_DS_CANT_REMOVE_ATT_CACHE => Some(8403),
            WinErrorWindows::ERROR_DS_CANT_REMOVE_CLASS_CACHE => Some(8404),
            WinErrorWindows::ERROR_DS_CANT_RETRIEVE_DN => Some(8405),
            WinErrorWindows::ERROR_DS_MISSING_SUPREF => Some(8406),
            WinErrorWindows::ERROR_DS_CANT_RETRIEVE_INSTANCE => Some(8407),
            WinErrorWindows::ERROR_DS_CODE_INCONSISTENCY => Some(8408),
            WinErrorWindows::ERROR_DS_DATABASE_ERROR => Some(8409),
            WinErrorWindows::ERROR_DS_GOVERNSID_MISSING => Some(8410),
            WinErrorWindows::ERROR_DS_MISSING_EXPECTED_ATT => Some(8411),
            WinErrorWindows::ERROR_DS_NCNAME_MISSING_CR_REF => Some(8412),
            WinErrorWindows::ERROR_DS_SECURITY_CHECKING_ERROR => Some(8413),
            WinErrorWindows::ERROR_DS_SCHEMA_NOT_LOADED => Some(8414),
            WinErrorWindows::ERROR_DS_SCHEMA_ALLOC_FAILED => Some(8415),
            WinErrorWindows::ERROR_DS_ATT_SCHEMA_REQ_SYNTAX => Some(8416),
            WinErrorWindows::ERROR_DS_GCVERIFY_ERROR => Some(8417),
            WinErrorWindows::ERROR_DS_DRA_SCHEMA_MISMATCH => Some(8418),
            WinErrorWindows::ERROR_DS_CANT_FIND_DSA_OBJ => Some(8419),
            WinErrorWindows::ERROR_DS_CANT_FIND_EXPECTED_NC => Some(8420),
            WinErrorWindows::ERROR_DS_CANT_FIND_NC_IN_CACHE => Some(8421),
            WinErrorWindows::ERROR_DS_CANT_RETRIEVE_CHILD => Some(8422),
            WinErrorWindows::ERROR_DS_SECURITY_ILLEGAL_MODIFY => Some(8423),
            _ => None,
        }
    }

    /// One slice of the symbol table: the symbol this slice gives a
    /// raw value, where it holds one.
    pub open spec fn spec_from_u32_part40(raw: u32) -> Option<WinErrorWindows> {
        match raw {
            8374 => Some(WinErrorWindows::ERROR_DS_CROSS_REF_EXISTS),
            8375 => Some(WinErrorWindows::ERROR_DS_CANT_DEL_MASTER_CROSSREF),
            8376 => Some(WinErrorWindows::ERROR_DS_SUBTREE_NOTIFY_NOT_NC_HEAD),
            8377 => Some(WinErrorWindows::ERROR_DS_NOTIFY_FILTER_TOO_COMPLEX),
            8378 => Some(WinErrorWindows::ERROR_DS_DUP_RDN),
            8379 => Some(WinErrorWindows::ERROR_DS_DUP_OID),
            8380 => Some(WinErrorWindows::ERROR_DS_DUP_MAPI_ID),
            8381 => Some(WinErrorWindows::ERROR_DS_DUP_SCHEMA_ID_GUID),
            8382 => Some(WinErrorWindows::ERROR_DS_DUP_LDAP_DISPLAY_NAME),
            8383 => Some(WinErrorWindows::ERROR_DS_SEMANTIC_ATT_TEST),
            8384 => Some(WinErrorWindows::ERROR_DS_SYNTAX_MISMATCH),
            8385 => Some(WinErrorWindows::ERROR_DS_EXISTS_IN_MUST_HAVE),
            8386 => Some(WinErrorWindows::ERROR_DS_EXISTS_IN_MAY_HAVE),
            8387 => Some(WinErrorWindows::ERROR_DS_NONEXISTENT_MAY_HAVE),
            8388 => Some(WinErrorWindows::ERROR_DS_NONEXISTENT_MUST_HAVE),
            8389 => Some(WinErrorWindows::ERROR_DS_AUX_CLS_TEST_FAIL),
            8390 => Some(WinErrorWindows::ERROR_DS_NONEXISTENT_POSS_SUP),
            8391 => Some(WinErrorWindows::ERROR_DS_SUB_CLS_TEST_FAIL),
            8392 => Some(WinErrorWindows::ERROR_DS_BAD_RDN_ATT_ID_SYNTAX),
            8393 => Some(WinErrorWindows::ERROR_DS_EXISTS_IN_AUX_CLS),
            8394 => Some(WinErrorWindows::ERROR_DS_EXISTS_IN_SUB_CLS),
            8395 => Some(WinErrorWindows::ERROR_DS_EXISTS_IN_POSS_SUP),
            8396 => Some(WinErrorWindows::ERROR_DS_RECALCSCHEMA_FAILED),
            8397 => Some(WinErrorWindows::ERROR_DS_TREE_DELETE_NOT_FINISHED),
            8398 => Some(WinErrorWindows::ERROR_DS_CANT_DELETE),
            8399 => Some(WinErrorWindows::ERROR_DS_ATT_SCHEMA_REQ_ID),
            8400 => Some(WinErrorWindows::ERROR_DS_BAD_ATT_SCHEMA_SYNTAX),
            8401 => Some(WinErrorWindows::ERROR_DS_CANT_CACHE_ATT),
            8402 => Some(WinErrorWindows::ERROR_DS_CANT_CACHE_CLASS),
            8403 => Some(WinErrorWindows::ERROR_DS_CANT_REMOVE_ATT_CACHE),
            8404 => Some(WinErrorWindows::ERROR_DS_CANT_REMOVE_CLASS_CACHE),
            8405 => Some(WinErrorWindows::ERROR_DS_CANT_RETRIEVE_DN),
            8406 => Some(WinErrorWindows::ERROR_DS_MISSING_SUPREF),
            8407 => Some(WinErrorWindows::ERROR_DS_CANT_RETRIEVE_INSTANCE),
            8408 => Some(WinErrorWindows::ERROR_DS_CODE_INCONSISTENCY),
            8409 => Some(WinErrorWindows::ERROR_DS_DATABASE_ERROR),
            8410 => Some(WinErrorWindows::ERROR_DS_GOVERNSID_MISSING),
            8411 => Some(WinErrorWindows::ERROR_DS_MISSING_EXPECTED_ATT),
            8412 => Some(WinErrorWindows::ERROR_DS_NCNAME_MISSING_CR_REF),
            8413 => Some(WinErrorWindows::ERROR_DS_SECURITY_CHECKING_ERROR),
            8414 => Some(WinErrorWindows::ERROR_DS_SCHEMA_NOT_LOADED),
            8415 => Some(WinErrorWindows::ERROR_DS_SCHEMA_ALLOC_FAILED),
            8416 => Some(WinErrorWindows::ERROR_DS_ATT_SCHEMA_REQ_SYNTAX),
            8417 => Some(WinErrorWindows::ERROR_DS_GCVERIFY_ERROR),
            8418 => Some(WinErrorWindows::ERROR_DS_DRA_SCHEMA_MISMATCH),
            8419 => Some(WinErrorWindows::ERROR_DS_CANT_FIND_DSA_OBJ),
            8420 => Some(WinErrorWindows::ERROR_DS_CANT_FIND_EXPECTED_NC),
            8421 => Some(WinErrorWindows::ERROR_DS_CANT_FIND_NC_IN_CACHE),
            8422 => Some(WinErrorWindows::ERROR_DS_CANT_RETRIEVE_CHILD),
            8423 => Some(WinErrorWindows::ERROR_DS_SECURITY_ILLEGAL_MODIFY),
            _ => None,
        }
    }

    /// One slice of the symbol table.
    #[verifier::spinoff_prover]
    #[verifier::rlimit(100)]
    fn to_u32_part40(self) -> (r: Option<u32>)
        ensures
            r == self.spec_to_u32_part40(),
    {
        match self {
            WinErrorWindows::ERROR_DS_CROSS_REF_EXISTS => Some(8374),
            WinErrorWindows::ERROR_DS_CANT_DEL_MASTER_CROSSREF => Some(8375),
            WinErrorWindows::ERROR_DS_SUBTREE_NOTIFY_NOT_NC_HEAD => Some(8376),
            WinErrorWindows::ERROR_DS_NOTIFY_FILTER_TOO_COMPLEX => Some(8377),
            WinErrorWindows::ERROR_DS_DUP_RDN => Some(8378),
            WinErrorWindows::ERROR_DS_DUP_OID => Some(8379),
            WinErrorWindows::ERROR_DS_DUP_MAPI_ID => Some(8380),
            WinErrorWindows::ERROR_DS_DUP_SCHEMA_ID_GUID => Some(8381),
            WinErrorWindows::ERROR_DS_DUP_LDAP_DISPLAY_NAME => Some(8382),
            WinErrorWindows::ERROR_DS_SEMANTIC_ATT_TEST => Some(8383),
            WinErrorWindows::ERROR_DS_SYNTAX_MISMATCH => Some(8384),
            WinErrorWindows::ERROR_DS_EXISTS_IN_MUST_HAVE => Some(8385),
            WinErrorWindows::ERROR_DS_EXISTS_IN_MAY_HAVE => Some(8386),
            WinErrorWindows::ERROR_DS_NONEXISTENT_MAY_HAVE => Some(8387),
            WinErrorWindows::ERROR_DS_NONEXISTENT_MUST_HAVE => Some(8388),
            WinErrorWindows::ERROR_DS_AUX_CLS_TEST_FAIL => Some(8389),
            WinErrorWindows::ERROR_DS_NONEXISTENT_POSS_SUP => Some(8390),
            WinErrorWindows::ERROR_DS_SUB_CLS_TEST_FAIL => Some(8391),
            WinErrorWindows::ERROR_DS_BAD_RDN_ATT_ID_SYNTAX => Some(8392),
            WinErrorWindows::ERROR_DS_EXISTS_IN_AUX_CLS => Some(8393),
            WinErrorWindows::ERROR_DS_EXISTS_IN_SUB_CLS => Some(8394),
            WinErrorWindows::ERROR_DS_EXISTS_IN_POSS_SUP => Some(8395),
            WinErrorWindows::ERROR_DS_RECALCSCHEMA_FAILED => Some(8396),
            WinErrorWindows::ERROR_DS_TREE_DELETE_NOT_FINISHED => Some(8397),
            WinErrorWindows::ERROR_DS_CANT_DELETE => Some(8398),
            WinErrorWindows::ERROR_DS_ATT_SCHEMA_REQ_ID => Some(8399),
            WinErrorWindows::ERROR_DS_BAD_ATT_SCHEMA_SYNTAX => Some(8400),
            WinErrorWindows::ERROR_DS_CANT_CACHE_ATT => Some(8401),
            WinErrorWindows::ERROR_DS_CANT_CACHE_CLASS => Some(8402),
            WinErrorWindows::ERROR_DS_CANT_REMOVE_ATT_CACHE => Some(8403),
            WinErrorWindows::ERROR_DS_CANT_REMOVE_CLASS_CACHE => Some(8404),
            WinErrorWindows::ERROR_DS_CANT_RETRIEVE_DN => Some(8405),
            WinErrorWindows::ERROR_DS_MISSING_SUPREF => Some(8406),
            WinErrorWindows::ERROR_DS_CANT_RETRIEVE_INSTANCE => Some(8407),
            WinErrorWindows::ERROR_DS_CODE_INCONSISTENCY => Some(8408),
            WinErrorWindows::ERROR_DS_DATABASE_ERROR => Some(8409),
            WinErrorWindows::ERROR_DS_GOVERNSID_MISSING => Some(8410),
            WinErrorWindows::ERROR_DS_MISSING_EXPECTED_ATT => Some(8411),
            WinErrorWindows::ERROR_DS_NCNAME_MISSING_CR_REF => Some(8412),
            WinErrorWindows::ERROR_DS_SECURITY_CHECKING_ERROR => Some(8413),
            WinErrorWindows::ERROR_DS_SCHEMA_NOT_LOADED => Some(8414),
            WinErrorWindows::ERROR_DS_SCHEMA_ALLOC_FAILED => Some(8415),
            WinErrorWindows::ERROR_DS_ATT_SCHEMA_REQ_SYNTAX => Some(8416),
            WinErrorWindows::ERROR_DS_GCVERIFY_ERROR => Some(8417),
            WinErrorWindows::ERROR_DS_DRA_SCHEMA_MISMATCH => Some(8418),
            WinErrorWindows::ERROR_DS_CANT_FIND_DSA_OBJ => Some(8419),
            WinErrorWindows::ERROR_DS_CANT_FIND_EXPECTED_NC => Some(8420),
            WinErrorWindows::ERROR_DS_CANT_FIND_NC_IN_CACHE => Some(8421),
            WinErrorWindows::ERROR_DS_CANT_RETRIEVE_CHILD => Some(8422),
            WinErrorWindows::ERROR_DS_SECURITY_ILLEGAL_MODIFY => Some(8423),
            _ => None,
        }
    }

    /// One slice of the symbol table.
    #[verifier::spinoff_prover]
    #[verifier::rlimit(100)]
    fn from_u32_part40(raw: u32) -> (r: Option<WinErrorWindows>)
        ensures
            r == WinErrorWindows::spec_from_u32_part40(raw),
    {
        match raw {
            8374 => Some(WinErrorWindows::ERROR_DS_CROSS_REF_EXISTS),
            8375 => Some(WinErrorWindows::ERROR_DS_CANT_DEL_MASTER_CROSSREF),
            8376 => Some(WinErrorWindows::ERROR_DS_SUBTREE_NOTIFY_NOT_NC_HEAD),
            8377 => Some(WinErrorWindows::ERROR_DS_NOTIFY_FILTER_TOO_COMPLEX),
            8378 => Some(WinErrorWindows::ERROR_DS_DUP_RDN),
            8379 => Some(WinErrorWindows::ERROR_DS_DUP_OID),
            8380 => Some(WinErrorWindows::ERROR_DS_DUP_MAPI_ID),
            8381 => Some(WinErrorWindows::ERROR_DS_DUP_SCHEMA_ID_GUID),
            8382 => Some(WinErrorWindows::ERROR_DS_DUP_LDAP_DISPLAY_NAME),
            8383 => Some(WinErrorWindows::ERROR_DS_SEMANTIC_ATT_TEST),
            8384 => Some(WinErrorWindows::ERROR_DS_SYNTAX_MISMATCH),
            8385 => Some(WinErrorWindows::ERROR_DS_EXISTS_IN_MUST_HAVE),
            8386 => Some(WinErrorWindows::ERROR_DS_EXISTS_IN_MAY_HAVE),
            8387 => Some(WinErrorWindows::ERROR_DS_NONEXISTENT_MAY_HAVE),
            8388 => Some(WinErrorWindows::ERROR_DS_NONEXISTENT_MUST_HAVE),
            8389 => Some(WinErrorWindows::ERROR_DS_AUX_CLS_TEST_FAIL),
            8390 => Some(WinErrorWindows::ERROR_DS_NONEXISTENT_POSS_SUP),
            8391 => Some(WinErrorWindows::ERROR_DS_SUB_CLS_TEST_FAIL),
            8392 => Some(WinErrorWindows::ERROR_DS_BAD_RDN_ATT_ID_SYNTAX),
            8393 => Some(WinErrorWindows::ERROR_DS_EXISTS_IN_AUX_CLS),
            8394 => Some(WinErrorWindows::ERROR_DS_EXISTS_IN_SUB_CLS),
            8395 => Some(WinErrorWindows::ERROR_DS_EXISTS_IN_POSS_SUP),
            8396 => Some(WinErrorWindows::ERROR_DS_RECALCSCHEMA_FAILED),
            8397 => Some(WinErrorWindows::ERROR_DS_TREE_DELETE_NOT_FINISHED),
            8398 => Some(WinErrorWindows::ERROR_DS_CANT_DELETE),
            8399 => Some(WinErrorWindows::ERROR_DS_ATT_SCHEMA_REQ_ID),
            8400 => Some(WinErrorWindows::ERROR_DS_BAD_ATT_SCHEMA_SYNTAX),
            8401 => Some(WinErrorWindows::ERROR_DS_CANT_CACHE_ATT),
            8402 => Some(WinErrorWindows::ERROR_DS_CANT_CACHE_CLASS),
            8403 => Some(WinErrorWindows::ERROR_DS_CANT_REMOVE_ATT_CACHE),
            8404 => Some(WinErrorWindows::ERROR_DS_CANT_REMOVE_CLASS_CACHE),
            8405 => Some(WinErrorWindows::ERROR_DS_CANT_RETRIEVE_DN),
            8406 => Some(WinErrorWindows::ERROR_DS_MISSING_SUPREF),
            8407 => Some(WinErrorWindows::ERROR_DS_CANT_RETRIEVE_INSTANCE),
            8408 => Some(WinErrorWindows::ERROR_DS_CODE_INCONSISTENCY),
            8409 => Some(WinErrorWindows::ERROR_DS_DATABASE_ERROR),
            8410 => Some(WinErrorWindows::ERROR_DS_GOVERNSID_MISSING),
            8411 => Some(WinErrorWindows::ERROR_DS_MISSING_EXPECTED_ATT),
            8412 => Some(WinErrorWindows::ERROR_DS_NCNAME_MISSING_CR_REF),
            8413 => Some(WinErrorWindows::ERROR_DS_SECURITY_CHECKING_ERROR),
            8414 => Some(WinErrorWindows::ERROR_DS_SCHEMA_NOT_LOADED),
            8415 => Some(WinErrorWindows::ERROR_DS_SCHEMA_ALLOC_FAILED),
            8416 => Some(WinErrorWindows::ERROR_DS_ATT_SCHEMA_REQ_SYNTAX),
            8417 => Some(WinErrorWindows::ERROR_DS_GCVERIFY_ERROR),
            8418 => Some(WinErrorWindows::ERROR_DS_DRA_SCHEMA_MISMATCH),
            8419 => Some(WinErrorWindows::ERROR_DS_CANT_FIND_DSA_OBJ),
            8420 => Some(WinErrorWindows::ERROR_DS_CANT_FIND_EXPECTED_NC),
            8421 => Some(WinErrorWindows::ERROR_DS_CANT_FIND_NC_IN_CACHE),
            8422 => Some(WinErrorWindows::ERROR_DS_CANT_RETRIEVE_CHILD),
            8423 => Some(WinErrorWindows::ERROR_DS_SECURITY_ILLEGAL_MODIFY),
            _ => None,
        }
    }

    /// One slice of the symbol table: the raw value of this symbol,
    /// where this slice holds it.
    pub open spec fn spec_to_u32_part41(self) -> Option<u32> {
        match self {
            WinErrorWindows::ERROR_DS_CANT_REPLACE_HIDDEN_REC => Some(8424),
            WinErrorWindows::ERROR_DS_BAD_HIERARCHY_FILE => Some(8425),
            WinErrorWindows::ERROR_DS_BUILD_HIERARCHY_TABLE_FAILED => Some(8426),
            WinErrorWindows::ERROR_DS_CONFIG_PARAM_MISSING => Some(8427),
            WinErrorWindows::ERROR_DS_COUNTING_AB_INDICES_FAILED => Some(8428),
            WinErrorWindows::ERROR_DS_HIERARCHY_TABLE_MALLOC_FAILED => Some(8429),
            WinErrorWindows::ERROR_DS_INTERNAL_FAILURE => Some(8430),
            WinErrorWindows::ERROR_DS_UNKNOWN_ERROR => Some(8431),
            WinErrorWindows::ERROR_DS_ROOT_REQUIRES_CLASS_TOP => Some(8432),
            WinErrorWindows::ERROR_DS_REFUSING_FSMO_ROLES => Some(8433),
            WinErrorWindows::ERROR_DS_MISSING_FSMO_SETTINGS => Some(8434),
            WinErrorWindows::ERROR_DS_UNABLE_TO_SURRENDER_ROLES => Some(8435),
            WinErrorWindows::ERROR_DS_DRA_GENERIC => Some(8436),
            WinErrorWindows::ERROR_DS_DRA_INVALID_PARAMETER => Some(8437),
            WinErrorWindows::ERROR_DS_DRA_BUSY => Some(8438),
            WinErrorWindows::ERROR_DS_DRA_BAD_DN => Some(8439),
            WinErrorWindows::ERROR_DS_DRA_BAD_NC => Some(8440),
            WinErrorWindows::ERROR_DS_DRA_DN_EXISTS => Some(8441),
            WinErrorWindows::ERROR_DS_DRA_INTERNAL_ERROR => Some(8442),
            WinErrorWindows::ERROR_DS_DRA_INCONSISTENT_DIT => Some(8443),
            WinErrorWindows::ERROR_DS_DRA_CONNECTION_FAILED => Some(8444),
            WinErrorWindows::ERROR_DS_DRA_BAD_INSTANCE_TYPE => Some(8445),
            WinErrorWindows::ERROR_DS_DRA_OUT_OF_MEM => Some(8446),
            WinErrorWindows::ERROR_DS_DRA_MAIL_PROBLEM => Some(8447),
            WinErrorWindows::ERROR_DS_DRA_REF_ALREADY_EXISTS => Some(8448),
            WinErrorWindows::ERROR_DS_DRA_REF_NOT_FOUND => Some(8449),
            WinErrorWindows::ERROR_DS_DRA_OBJ_IS_REP_SOURCE => Some(8450),
            WinErrorWindows::ERROR_DS_DRA_DB_ERROR => Some(8451),
            WinErrorWindows::ERROR_DS_DRA_NO_REPLICA => Some(8452),
            WinErrorWindows::ERROR_DS_DRA_ACCESS_DENIED => Some(8453),
            WinErrorWindows::ERROR_DS_DRA_NOT_SUPPORTED => Some(8454),
            WinErrorWindows::ERROR_DS_DRA_RPC_CANCELLED => Some(8455),
            WinErrorWindows::ERROR_DS_DRA_SOURCE_DISABLED => Some(8456),
            WinErrorWindows::ERROR_DS_DRA_SINK_DISABLED => Some(8457),
            WinErrorWindows::ERROR_DS_DRA_NAME_COLLISION => Some(8458),
            WinErrorWindows::ERROR_DS_DRA_SOURCE_REINSTALLED => Some(8459),
            WinErrorWindows::ERROR_DS_DRA_MISSING_PARENT => Some(8460),
            WinErrorWindows::ERROR_DS_DRA_PREEMPTED => Some(8461),
            WinErrorWindows::ERROR_DS_DRA_ABANDON_SYNC => Some(8462),
            WinErrorWindows::ERROR_DS_DRA_SHUTDOWN => Some(8463),
            WinErrorWindows::ERROR_DS_DRA_INCOMPATIBLE_PARTIAL_SET => Some(8464),
            WinErrorWindows::ERROR_DS_DRA_SOURCE_IS_PARTIAL_REPLICA => Some(8465),
            WinErrorWindows::ERROR_DS_DRA_EXTN_CONNECTION_FAILED => Some(8466),
            WinErrorWindows::ERROR_DS_INSTALL_SCHEMA_MISMATCH => Some(8467),
            WinErrorWindows::ERROR_DS_DUP_LINK_ID => Some(8468),
            WinErrorWindows::ERROR_DS_NAME_ERROR_RESOLVING => Some(8469),
            WinErrorWindows::ERROR_DS_NAME_ERROR_NOT_FOUND => Some(8470),
            WinErrorWindows::ERROR_DS_NAME_ERROR_NOT_UNIQUE => Some(8471),
            WinErrorWindows::ERROR_DS_NAME_ERROR_NO_MAPPING => Some(8472),
            WinErrorWindows::ERROR_DS_NAME_ERROR_DOMAIN_ONLY => Some(8473),
            _ => None,
        }
    }

    /// One slice of the symbol table: the symbol this slice gives a
    /// raw value, where it holds one.
    pub open spec fn spec_from_u32_part41(raw: u32) -> Option<WinErrorWindows> {
        match raw {
            8424 => Some(WinErrorWindows::ERROR_DS_CANT_REPLACE_HIDDEN_REC),
            8425 => Some(WinErrorWindows::ERROR_DS_BAD_HIERARCHY_FILE),
            8426 => Some(WinErrorWindows::ERROR_DS_BUILD_HIERARCHY_TABLE_FAILED),
            8427 => Some(WinErrorWindows::ERROR_DS_CONFIG_PARAM_MISSING),
            8428 => Some(WinErrorWindows::ERROR_DS_COUNTING_AB_INDICES_FAILED),
            8429 => Some(WinErrorWindows::ERROR_DS_HIERARCHY_TABLE_MALLOC_FAILED),
            8430 => Some(WinErrorWindows::ERROR_DS_INTERNAL_FAILURE),
            8431 => Some(WinErrorWindows::ERROR_DS_UNKNOWN_ERROR),
            8432 => Some(WinErrorWindows::ERROR_DS_ROOT_REQUIRES_CLASS_TOP),
            8433 => Some(WinErrorWindows::ERROR_DS_REFUSING_FSMO_ROLES),
            8434 => Some(WinErrorWindows::ERROR_DS_MISSING_FSMO_SETTINGS),
            8435 => Some(WinErrorWindows::ERROR_DS_UNABLE_TO_SURRENDER_ROLES),
            8436 => Some(WinErrorWindows::ERROR_DS_DRA_GENERIC),
            8437 => Some(WinErrorWindows::ERROR_DS_DRA_INVALID_PARAMETER),
            8438 => Some(WinErrorWindows::ERROR_DS_DRA_BUSY),
            8439 => Some(WinErrorWindows::ERROR_DS_DRA_BAD_DN),
            8440 => Some(WinErrorWindows::ERROR_DS_DRA_BAD_NC),
            8441 => Some(WinErrorWindows::ERROR_DS_DRA_DN_EXISTS),
            8442 => Some(WinErrorWindows::ERROR_DS_DRA_INTERNAL_ERROR),
            8443 => Some(WinErrorWindows::ERROR_DS_DRA_INCONSISTENT_DIT),
            8444 => Some(WinErrorWindows::ERROR_DS_DRA_CONNECTION_FAILED),
            8445 => Some(WinErrorWindows::ERROR_DS_DRA_BAD_INSTANCE_TYPE),
            8446 => Some(WinErrorWindows::ERROR_DS_DRA_OUT_OF_MEM),
            8447 => Some(WinErrorWindows::ERROR_DS_DRA_MAIL_PROBLEM),
            8448 => Some(WinErrorWindows::ERROR_DS_DRA_REF_ALREADY_EXISTS),
            8449 => Some(WinErrorWindows::ERROR_DS_DRA_REF_NOT_FOUND),
            8450 => Some(WinErrorWindows::ERROR_DS_DRA_OBJ_IS_REP_SOURCE),
            8451 => Some(WinErrorWindows::ERROR_DS_DRA_DB_ERROR),
            8452 => Some(WinErrorWindows::ERROR_DS_DRA_NO_REPLICA),
            8453 => Some(WinErrorWindows::ERROR_DS_DRA_ACCESS_DENIED),
            8454 => Some(WinErrorWindows::ERROR_DS_DRA_NOT_SUPPORTED),
            8455 => Some(WinErrorWindows::ERROR_DS_DRA_RPC_CANCELLED),
            8456 => Some(WinErrorWindows::ERROR_DS_DRA_SOURCE_DISABLED),
            8457 => Some(WinErrorWindows::ERROR_DS_DRA_SINK_DISABLED),
            8458 => Some(WinErrorWindows::ERROR_DS_DRA_NAME_COLLISION),
            8459 => Some(WinErrorWindows::ERROR_DS_DRA_SOURCE_REINSTALLED),
            8460 => Some(WinErrorWindows::ERROR_DS_DRA_MISSING_PARENT),
            8461 => Some(WinErrorWindows::ERROR_DS_DRA_PREEMPTED),
            8462 => Some(WinErrorWindows::ERROR_DS_DRA_ABANDON_SYNC),
            8463 => Some(WinErrorWindows::ERROR_DS_DRA_SHUTDOWN),
            8464 => Some(WinErrorWindows::ERROR_DS_DRA_INCOMPATIBLE_PARTIAL_SET),
            8465 => Some(WinErrorWindows::ERROR_DS_DRA_SOURCE_IS_PARTIAL_REPLICA),
            8466 => Some(WinErrorWindows::ERROR_DS_DRA_EXTN_CONNECTION_FAILED),
            8467 => Some(WinErrorWindows::ERROR_DS_INSTALL_SCHEMA_MISMATCH),
            8468 => Some(WinErrorWindows::ERROR_DS_DUP_LINK_ID),
            8469 => Some(WinErrorWindows::ERROR_DS_NAME_ERROR_RESOLVING),
            8470 => Some(WinErrorWindows::ERROR_DS_NAME_ERROR_NOT_FOUND),
            8471 => Some(WinErrorWindows::ERROR_DS_NAME_ERROR_NOT_UNIQUE),
            8472 => Some(WinErrorWindows::ERROR_DS_NAME_ERROR_NO_MAPPING),
            8473 => Some(WinErrorWindows::ERROR_DS_NAME_ERROR_DOMAIN_ONLY),
            _ => None,
        }
    }

    /// One slice of the symbol table.
    #[verifier::spinoff_prover]
    #[verifier::rlimit(100)]
    fn to_u32_part41(self) -> (r: Option<u32>)
        ensures
            r == self.spec_to_u32_part41(),
    {
        match self {
            WinErrorWindows::ERROR_DS_CANT_REPLACE_HIDDEN_REC => Some(8424),
            WinErrorWindows::ERROR_DS_BAD_HIERARCHY_FILE => Some(8425),
            WinErrorWindows::ERROR_DS_BUILD_HIERARCHY_TABLE_FAILED => Some(8426),
            WinErrorWindows::ERROR_DS_CONFIG_PARAM_MISSING => Some(8427),
            WinErrorWindows::ERROR_DS_COUNTING_AB_INDICES_FAILED => Some(8428),
            WinErrorWindows::ERROR_DS_HIERARCHY_TABLE_MALLOC_FAILED => Some(8429),
            WinErrorWindows::ERROR_DS_INTERNAL_FAILURE => Some(8430),
            WinErrorWindows::ERROR_DS_UNKNOWN_ERROR => Some(8431),
            WinErrorWindows::ERROR_DS_ROOT_REQUIRES_CLASS_TOP => Some(8432),
            WinErrorWindows::ERROR_DS_REFUSING_FSMO_ROLES => Some(8433),
            WinErrorWindows::ERROR_DS_MISSING_FSMO_SETTINGS => Some(8434),
            WinErrorWindows::ERROR_DS_UNABLE_TO_SURRENDER_ROLES => Some(8435),
            WinErrorWindows::ERROR_DS_DRA_GENERIC => Some(8436),
            WinErrorWindows::ERROR_DS_DRA_INVALID_PARAMETER => Some(8437),
            WinErrorWindows::ERROR_DS_DRA_BUSY => Some(8438),
            WinErrorWindows::ERROR_DS_DRA_BAD_DN => Some(8439),
            WinErrorWindows::ERROR_DS_DRA_BAD_NC => Some(8440),
            WinErrorWindows::ERROR_DS_DRA_DN_EXISTS => Some(8441),
            WinErrorWindows::ERROR_DS_DRA_INTERNAL_ERROR => Some(8442),
            WinErrorWindows::ERROR_DS_DRA_INCONSISTENT_DIT => Some(8443),
            WinErrorWindows::ERROR_DS_DRA_CONNECTION_FAILED => Some(8444),
            WinErrorWindows::ERROR_DS_DRA_BAD_INSTANCE_TYPE => Some(8445),
            WinErrorWindows::ERROR_DS_DRA_OUT_OF_MEM => Some(8446),
            WinErrorWindows::ERROR_DS_DRA_MAIL_PROBLEM => Some(8447),
            WinErrorWindows::ERROR_DS_DRA_REF_ALREADY_EXISTS => Some(8448),
            WinErrorWindows::ERROR_DS_DRA_REF_NOT_FOUND => Some(8449),
            WinErrorWindows::ERROR_DS_DRA_OBJ_IS_REP_SOURCE => Some(8450),
            WinErrorWindows::ERROR_DS_DRA_DB_ERROR => Some(8451),
            WinErrorWindows::ERROR_DS_DRA_NO_REPLICA => Some(8452),
            WinErrorWindows::ERROR_DS_DRA_ACCESS_DENIED => Some(8453),
            WinErrorWindows::ERROR_DS_DRA_NOT_SUPPORTED => Some(8454),
            WinErrorWindows::ERROR_DS_DRA_RPC_CANCELLED => Some(8455),
            WinErrorWindows::ERROR_DS_DRA_SOURCE_DISABLED => Some(8456),
            WinErrorWindows::ERROR_DS_DRA_SINK_DISABLED => Some(8457),
            WinErrorWindows::ERROR_DS_DRA_NAME_COLLISION => Some(8458),
            WinErrorWindows::ERROR_DS_DRA_SOURCE_REINSTALLED => Some(8459),
            WinErrorWindows::ERROR_DS_DRA_MISSING_PARENT => Some(8460),
            WinErrorWindows::ERROR_DS_DRA_PREEMPTED => Some(8461),
            WinErrorWindows::ERROR_DS_DRA_ABANDON_SYNC => Some(8462),
            WinErrorWindows::ERROR_DS_DRA_SHUTDOWN => Some(8463),
            WinErrorWindows::ERROR_DS_DRA_INCOMPATIBLE_PARTIAL_SET => Some(8464),
            WinErrorWindows::ERROR_DS_DRA_SOURCE_IS_PARTIAL_REPLICA => Some(8465),
            WinErrorWindows::ERROR_DS_DRA_EXTN_CONNECTION_FAILED => Some(8466),
            WinErrorWindows::ERROR_DS_INSTALL_SCHEMA_MISMATCH => Some(8467),
            WinErrorWindows::ERROR_DS_DUP_LINK_ID => Some(8468),
            WinErrorWindows::ERROR_DS_NAME_ERROR_RESOLVING => Some(8469),
            WinErrorWindows::ERROR_DS_NAME_ERROR_NOT_FOUND => Some(8470),
            WinErrorWindows::ERROR_DS_NAME_ERROR_NOT_UNIQUE => Some(8471),
            WinErrorWindows::ERROR_DS_NAME_ERROR_NO_MAPPING => Some(8472),
            WinErrorWindows::ERROR_DS_NAME_ERROR_DOMAIN_ONLY => Some(8473),
            _ => None,
        }
    }

    /// One slice of the symbol table.
    #[verifier::spinoff_prover]
    #[verifier::rlimit(100)]
    fn from_u32_part41(raw: u32) -> (r: Option<WinErrorWindows>)
        ensures
            r == WinErrorWindows::spec_from_u32_part41(raw),
    {
        match raw {
            8424 => Some(WinErrorWindows::ERROR_DS_CANT_REPLACE_HIDDEN_REC),
            8425 => Some(WinErrorWindows::ERROR_DS_BAD_HIERARCHY_FILE),
            8426 => Some(WinErrorWindows::ERROR_DS_BUILD_HIERARCHY_TABLE_FAILED),
            8427 => Some(WinErrorWindows::ERROR_DS_CONFIG_PARAM_MISSING),
            8428 => Some(WinErrorWindows::ERROR_DS_COUNTING_AB_INDICES_FAILED),
            8429 => Some(WinErrorWindows::ERROR_DS_HIERARCHY_TABLE_MALLOC_FAILED),
            8430 => Some(WinErrorWindows::ERROR_DS_INTERNAL_FAILURE),
            8431 => Some(WinErrorWindows::ERROR_DS_UNKNOWN_ERROR),
            8432 => Some(WinErrorWindows::ERROR_DS_ROOT_REQUIRES_CLASS_TOP),
            8433 => Some(WinErrorWindows::ERROR_DS_REFUSING_FSMO_ROLES),
            8434 => Some(WinErrorWindows::ERROR_DS_MISSING_FSMO_SETTINGS),
            8435 => Some(WinErrorWindows::ERROR_DS_UNABLE_TO_SURRENDER_ROLES),
            8436 => Some(WinErrorWindows::ERROR_DS_DRA_GENERIC),
            8437 => Some(WinErrorWindows::ERROR_DS_DRA_INVALID_PARAMETER),
            8438 => Some(WinErrorWindows::ERROR_DS_DRA_BUSY),
            8439 => Some(WinErrorWindows::ERROR_DS_DRA_BAD_DN),
            8440 => Some(WinErrorWindows::ERROR_DS_DRA_BAD_NC),
            8441 => Some(WinErrorWindows::ERROR_DS_DRA_DN_EXISTS),
            8442 => Some(WinErrorWindows::ERROR_DS_DRA_INTERNAL_ERROR),
            8443 => Some(WinErrorWindows::ERROR_DS_DRA_INCONSISTENT_DIT),
            8444 => Some(WinErrorWindows::ERROR_DS_DRA_CONNECTION_FAILED),
            8445 => Some(WinErrorWindows::ERROR_DS_DRA_BAD_INSTANCE_TYPE),
            8446 => Some(WinErrorWindows::ERROR_DS_DRA_OUT_OF_MEM),
            8447 => Some(WinErrorWindows::ERROR_DS_DRA_MAIL_PROBLEM),
            8448 => Some(WinErrorWindows::ERROR_DS_DRA_REF_ALREADY_EXISTS),
            8449 => Some(WinErrorWindows::ERROR_DS_DRA_REF_NOT_FOUND),
            8450 => Some(WinErrorWindows::ERROR_DS_DRA_OBJ_IS_REP_SOURCE),
            8451 => Some(WinErrorWindows::ERROR_DS_DRA_DB_ERROR),
            8452 => Some(WinErrorWindows::ERROR_DS_DRA_NO_REPLICA),
            8453 => Some(WinErrorWindows::ERROR_DS_DRA_ACCESS_DENIED),
            8454 => Some(WinErrorWindows::ERROR_DS_DRA_NOT_SUPPORTED),
            8455 => Some(WinErrorWindows::ERROR_DS_DRA_RPC_CANCELLED),
            8456 => Some(WinErrorWindows::ERROR_DS_DRA_SOURCE_DISABLED),
            8457 => Some(WinErrorWindows::ERROR_DS_DRA_SINK_DISABLED),
            8458 => Some(WinErrorWindows::ERROR_DS_DRA_NAME_COLLISION),
            8459 => Some(WinErrorWindows::ERROR_DS_DRA_SOURCE_REINSTALLED),
            8460 => Some(WinErrorWindows::ERROR_DS_DRA_MISSING_PARENT),
            8461 => Some(WinErrorWindows::ERROR_DS_DRA_PREEMPTED),
            8462 => Some(WinErrorWindows::ERROR_DS_DRA_ABANDON_SYNC),
            8463 => Some(WinErrorWindows::ERROR_DS_DRA_SHUTDOWN),
            8464 => Some(WinErrorWindows::ERROR_DS_DRA_INCOMPATIBLE_PARTIAL_SET),
            8465 => Some(WinErrorWindows::ERROR_DS_DRA_SOURCE_IS_PARTIAL_REPLICA),
            8466 => Some(WinErrorWindows::ERROR_DS_DRA_EXTN_CONNECTION_FAILED),
            8467 => Some(WinErrorWindows::ERROR_DS_INSTALL_SCHEMA_MISMATCH),
            8468 => Some(WinErrorWindows::ERROR_DS_DUP_LINK_ID),
            8469 => Some(WinErrorWindows::ERROR_DS_NAME_ERROR_RESOLVING),
            8470 => Some(WinErrorWindows::ERROR_DS_NAME_ERROR_NOT_FOUND),
            8471 => Some(WinErrorWindows::ERROR_DS_NAME_ERROR_NOT_UNIQUE),
            8472 => Some(WinErrorWindows::ERROR_DS_NAME_ERROR_NO_MAPPING),
            8473 => Some(WinErrorWindows::ERROR_DS_NAME_ERROR_DOMAIN_ONLY),
            _ => None,
        }
    }

    /// One slice of the symbol table: the raw value of this symbol,
    /// where this slice holds it.
    pub open spec fn spec_to_u32_part42(self) -> Option<u32> {
        match self {
            WinErrorWindows::ERROR_DS_NAME_ERROR_NO_SYNTACTICAL_MAPPING => Some(8474),
            WinErrorWindows::ERROR_DS_CONSTRUCTED_ATT_MOD => Some(8475),
            WinErrorWindows::ERROR_DS_WRONG_OM_OBJ_CLASS => Some(8476),
            WinErrorWindows::ERROR_DS_DRA_REPL_PENDING => Some(8477),
            WinErrorWindows::ERROR_DS_DS_REQUIRED => Some(8478),
            WinErrorWindows::ERROR_DS_INVALID_LDAP_DISPLAY_NAME => Some(8479),
            WinErrorWindows::ERROR_DS_NON_BASE_SEARCH => Some(8480),
            WinErrorWindows::ERROR_DS_CANT_RETRIEVE_ATTS => Some(8481),
            WinErrorWindows::ERROR_DS_BACKLINK_WITHOUT_LINK => Some(8482),
            WinErrorWindows::ERROR_DS_EPOCH_MISMATCH => Some(8483),
            WinErrorWindows::ERROR_DS_SRC_NAME_MISMATCH => Some(8484),
            WinErrorWindows::ERROR_DS_SRC_AND_DST_NC_IDENTICAL => Some(8485),
            WinErrorWindows::ERROR_DS_DST_NC_MISMATCH => Some(8486),
            WinErrorWindows::ERROR_DS_NOT_AUTHORITIVE_FOR_DST_NC => Some(8487),
            WinErrorWindows::ERROR_DS_SRC_GUID_MISMATCH => Some(8488),
            WinErrorWindows::ERROR_DS_CANT_MOVE_DELETED_OBJECT => Some(8489),
            WinErrorWindows::ERROR_DS_PDC_OPERATION_IN_PROGRESS => Some(8490),
            WinErrorWindows::ERROR_DS_CROSS_DOMAIN_CLEANUP_REQD => Some(8491),
            WinErrorWindows::ERROR_DS_ILLEGAL_XDOM_MOVE_OPERATION => Some(8492),
            WinErrorWindows::ERROR_DS_CANT_WITH_ACCT_GROUP_MEMBERSHPS => Some(8493),
            WinErrorWindows::ERROR_DS_NC_MUST_HAVE_NC_PARENT => Some(8494),
            WinErrorWindows::ERROR_DS_CR_IMPOSSIBLE_TO_VALIDATE => Some(8495),
            WinErrorWindows::ERROR_DS_DST_DOMAIN_NOT_NATIVE => Some(8496),
            WinErrorWindows::ERROR_DS_MISSING_INFRASTRUCTURE_CONTAINER => Some(8497),
            WinErrorWindows::ERROR_DS_CANT_MOVE_ACCOUNT_GROUP => Some(8498),
            WinErrorWindows::ERROR_DS_CANT_MOVE_RESOURCE_GROUP => Some(8499),
            WinErrorWindows::ERROR_DS_INVALID_SEARCH_FLAG => Some(8500),
            WinErrorWindows::ERROR_DS_NO_TREE_DELETE_ABOVE_NC => Some(8501),
            WinErrorWindows::ERROR_DS_COULDNT_LOCK_TREE_FOR_DELETE => Some(8502),
            WinErrorWindows::ERROR_DS_COULDNT_IDENTIFY_OBJECTS_FOR_TREE_DELETE => Some(8503),
            WinErrorWindows::ERROR_DS_SAM_INIT_FAILURE => Some(8504),
            WinErrorWindows::ERROR_DS_SENSITIVE_GROUP_VIOLATION => Some(8505),
            WinErrorWindows::ERROR_DS_CANT_MOD_PRIMARYGROUPID => Some(8506),
            WinErrorWindows::ERROR_DS_ILLEGAL_BASE_SCHEMA_MOD => Some(8507),
            WinErrorWindows::ERROR_DS_NONSAFE_SCHEMA_CHANGE => Some(8508),
            WinErrorWindows::ERROR_DS_SCHEMA_UPDATE_DISALLOWED => Some(8509),
            WinErrorWindows::ERROR_DS_CANT_CREATE_UNDER_SCHEMA => Some(8510),
            WinErrorWindows::ERROR_DS_INSTALL_NO_SRC_SCH_VERSION => Some(8511),
            WinErrorWindows::ERROR_DS_INSTALL_NO_SCH_VERSION_IN_INIFILE => Some(8512),
            WinErrorWindows::ERROR_DS_INVALID_GROUP_TYPE => Some(8513),
            WinErrorWindows::ERROR_DS_NO_NEST_GLOBALGROUP_IN_MIXEDDOMAIN => Some(8514),
            WinErrorWindows::ERROR_DS_NO_NEST_LOCALGROUP_IN_MIXEDDOMAIN => Some(8515),
            WinErrorWindows::ERROR_DS_GLOBAL_CANT_HAVE_LOCAL_MEMBER => Some(8516),
            WinErrorWindows::ERROR_DS_GLOBAL_CANT_HAVE_UNIVERSAL_MEMBER => Some(8517),
            WinErrorWindows::ERROR_DS_UNIVERSAL_CANT_HAVE_LOCAL_MEMBER => Some(8518),
            WinErrorWindows::ERROR_DS_GLOBAL_CANT_HAVE_CROSSDOMAIN_MEMBER => Some(8519),
            WinErrorWindows::ERROR_DS_LOCAL_CANT_HAVE_CROSSDOMAIN_LOCAL_MEMBER => Some(8520),
            WinErrorWindows::ERROR_DS_HAVE_PRIMARY_MEMBERS => Some(8521),
            WinErrorWindows::ERROR_DS_STRING_SD_CONVERSION_FAILED => Some(8522),
            WinErrorWindows::ERROR_DS_NAMING_MASTER_GC => Some(8523),
            _ => None,
        }
    }

    /// One slice of the symbol table: the symbol this slice gives a
    /// raw value, where it holds one.
    pub open spec fn spec_from_u32_part42(raw: u32) -> Option<WinErrorWindows> {
        match raw {
            8474 => Some(WinErrorWindows::ERROR_DS_NAME_ERROR_NO_SYNTACTICAL_MAPPING),
            8475 => Some(WinErrorWindows::ERROR_DS_CONSTRUCTED_ATT_MOD),
            8476 => Some(WinErrorWindows::ERROR_DS_WRONG_OM_OBJ_CLASS),
            8477 => Some(WinErrorWindows::ERROR_DS_DRA_REPL_PENDING),
            8478 => Some(WinErrorWindows::ERROR_DS_DS_REQUIRED),
            8479 => Some(WinErrorWindows::ERROR_DS_INVALID_LDAP_DISPLAY_NAME),
            8480 => Some(WinErrorWindows::ERROR_DS_NON_BASE_SEARCH),
            8481 => Some(WinErrorWindows::ERROR_DS_CANT_RETRIEVE_ATTS),
            8482 => Some(WinErrorWindows::ERROR_DS_BACKLINK_WITHOUT_LINK),
            8483 => Some(WinErrorWindows::ERROR_DS_EPOCH_MISMATCH),
            8484 => Some(WinErrorWindows::ERROR_DS_SRC_NAME_MISMATCH),
            8485 => Some(WinErrorWindows::ERROR_DS_SRC_AND_DST_NC_IDENTICAL),
            8486 => Some(WinErrorWindows::ERROR_DS_DST_NC_MISMATCH),
            8487 => Some(WinErrorWindows::ERROR_DS_NOT_AUTHORITIVE_FOR_DST_NC),
            8488 => Some(WinErrorWindows::ERROR_DS_SRC_GUID_MISMATCH),
            8489 => Some(WinErrorWindows::ERROR_DS_CANT_MOVE_DELETED_OBJECT),
            8490 => Some(WinErrorWindows::ERROR_DS_PDC_OPERATION_IN_PROGRESS),
            8491 => Some(WinErrorWindows::ERROR_DS_CROSS_DOMAIN_CLEANUP_REQD),
            8492 => Some(WinErrorWindows::ERROR_DS_ILLEGAL_XDOM_MOVE_OPERATION),
            8493 => Some(WinErrorWindows::ERROR_DS_CANT_WITH_ACCT_GROUP_MEMBERSHPS),
            8494 => Some(WinErrorWindows::ERROR_DS_NC_MUST_HAVE_NC_PARENT),
            8495 => Some(WinErrorWindows::ERROR_DS_CR_IMPOSSIBLE_TO_VALIDATE),
            8496 => Some(WinErrorWindows::ERROR_DS_DST_DOMAIN_NOT_NATIVE),
            8497 => Some(WinErrorWindows::ERROR_DS_MISSING_INFRASTRUCTURE_CONTAINER),
            8498 => Some(WinErrorWindows::ERROR_DS_CANT_MOVE_ACCOUNT_GROUP),
            8499 => Some(WinErrorWindows::ERROR_DS_CANT_MOVE_RESOURCE_GROUP),
            8500 => Some(WinErrorWindows::ERROR_DS_INVALID_SEARCH_FLAG),
            8501 => Some(WinErrorWindows::ERROR_DS_NO_TREE_DELETE_ABOVE_NC),
            8502 => Some(WinErrorWindows::ERROR_DS_COULDNT_LOCK_TREE_FOR_DELETE),
            8503 => Some(WinErrorWindows::ERROR_DS_COULDNT_IDENTIFY_OBJECTS_FOR_TREE_DELETE),
            8504 => Some(WinErrorWindows::ERROR_DS_SAM_INIT_FAILURE),
            8505 => Some(WinErrorWindows::ERROR_DS_SENSITIVE_GROUP_VIOLATION),
            8506 => Some(WinErrorWindows::ERROR_DS_CANT_MOD_PRIMARYGROUPID),
            8507 => Some(WinErrorWindows::ERROR_DS_ILLEGAL_BASE_SCHEMA_MOD),
            8508 => Some(WinErrorWindows::ERROR_DS_NONSAFE_SCHEMA_CHANGE),
            8509 => Some(WinErrorWindows::ERROR_DS_SCHEMA_UPDATE_DISALLOWED),
            8510 => Some(WinErrorWindows::ERROR_DS_CANT_CREATE_UNDER_SCHEMA),
            8511 => Some(WinErrorWindows::ERROR_DS_INSTALL_NO_SRC_SCH_VERSION),
            8512 => Some(WinErrorWindows::ERROR_DS_INSTALL_NO_SCH_VERSION_IN_INIFILE),
            8513 => Some(WinErrorWindows::ERROR_DS_INVALID_GROUP_TYPE),
            8514 => Some(WinErrorWindows::ERROR_DS_NO_NEST_GLOBALGROUP_IN_MIXEDDOMAIN),
            8515 => Some(WinErrorWindows::ERROR_DS_NO_NEST_LOCALGROUP_IN_MIXEDDOMAIN),
            8516 => Some(WinErrorWindows::ERROR_DS_GLOBAL_CANT_HAVE_LOCAL_MEMBER),
            8517 => Some(WinErrorWindows::ERROR_DS_GLOBAL_CANT_HAVE_UNIVERSAL_MEMBER),
            8518 => Some(WinErrorWindows::ERROR_DS_UNIVERSAL_CANT_HAVE_LOCAL_MEMBER),
            8519 => Some(WinErrorWindows::ERROR_DS_GLOBAL_CANT_HAVE_CROSSDOMAIN_MEMBER),
            8520 => Some(WinErrorWindows::ERROR_DS_LOCAL_CANT_HAVE_CROSSDOMAIN_LOCAL_MEMBER),
            8521 => Some(WinErrorWindows::ERROR_DS_HAVE_PRIMARY_MEMBERS),
            8522 => Some(WinErrorWindows::ERROR_DS_STRING_SD_CONVERSION_FAILED),
            8523 => Some(WinErrorWindows::ERROR_DS_NAMING_MASTER_GC),
            _ => None,
        }
    }

    /// One slice of the symbol table.
    #[verifier::spinoff_prover]
    #[verifier::rlimit(100)]
    fn to_u32_part42(self) -> (r: Option<u32>)
        ensures
            r == self.spec_to_u32_part42(),
    {
        match self {
            WinErrorWindows::ERROR_DS_NAME_ERROR_NO_SYNTACTICAL_MAPPING => Some(8474),
            WinErrorWindows::ERROR_DS_CONSTRUCTED_ATT_MOD => Some(8475),
            WinErrorWindows::ERROR_DS_WRONG_OM_OBJ_CLASS => Some(8476),
            WinErrorWindows::ERROR_DS_DRA_REPL_PENDING => Some(8477),
            WinErrorWindows::ERROR_DS_DS_REQUIRED => Some(8478),
            WinErrorWindows::ERROR_DS_INVALID_LDAP_DISPLAY_NAME => Some(8479),
            WinErrorWindows::ERROR_DS_NON_BASE_SEARCH => Some(8480),
            WinErrorWindows::ERROR_DS_CANT_RETRIEVE_ATTS => Some(8481),
            WinErrorWindows::ERROR_DS_BACKLINK_WITHOUT_LINK => Some(8482),
            WinErrorWindows::ERROR_DS_EPOCH_MISMATCH => Some(8483),
            WinErrorWindows::ERROR_DS_SRC_NAME_MISMATCH => Some(8484),
            WinErrorWindows::ERROR_DS_SRC_AND_DST_NC_IDENTICAL => Some(8485),
            WinErrorWindows::ERROR_DS_DST_NC_MISMATCH => Some(8486),
            WinErrorWindows::ERROR_DS_NOT_AUTHORITIVE_FOR_DST_NC => Some(8487),
            WinErrorWindows::ERROR_DS_SRC_GUID_MISMATCH => Some(8488),
            WinErrorWindows::ERROR_DS_CANT_MOVE_DELETED_OBJECT => Some(8489),
            WinErrorWindows::ERROR_DS_PDC_OPERATION_IN_PROGRESS => Some(8490),
            WinErrorWindows::ERROR_DS_CROSS_DOMAIN_CLEANUP_REQD => Some(8491),
            WinErrorWindows::ERROR_DS_ILLEGAL_XDOM_MOVE_OPERATION => Some(8492),
            WinErrorWindows::ERROR_DS_CANT_WITH_ACCT_GROUP_MEMBERSHPS => Some(8493),
            WinErrorWindows::ERROR_DS_NC_MUST_HAVE_NC_PARENT => Some(8494),
            WinErrorWindows::ERROR_DS_CR_IMPOSSIBLE_TO_VALIDATE => Some(8495),
            WinErrorWindows::ERROR_DS_DST_DOMAIN_NOT_NATIVE => Some(8496),
            WinErrorWindows::ERROR_DS_MISSING_INFRASTRUCTURE_CONTAINER => Some(8497),
            WinErrorWindows::ERROR_DS_CANT_MOVE_ACCOUNT_GROUP => Some(8498),
            WinErrorWindows::ERROR_DS_CANT_MOVE_RESOURCE_GROUP => Some(8499),
            WinErrorWindows::ERROR_DS_INVALID_SEARCH_FLAG => Some(8500),
            WinErrorWindows::ERROR_DS_NO_TREE_DELETE_ABOVE_NC => Some(8501),
            WinErrorWindows::ERROR_DS_COULDNT_LOCK_TREE_FOR_DELETE => Some(8502),
            WinErrorWindows::ERROR_DS_COULDNT_IDENTIFY_OBJECTS_FOR_TREE_DELETE => Some(8503),
            WinErrorWindows::ERROR_DS_SAM_INIT_FAILURE => Some(8504),
            WinErrorWindows::ERROR_DS_SENSITIVE_GROUP_VIOLATION => Some(8505),
            WinErrorWindows::ERROR_DS_CANT_MOD_PRIMARYGROUPID => Some(8506),
            WinErrorWindows::ERROR_DS_ILLEGAL_BASE_SCHEMA_MOD => Some(8507),
            WinErrorWindows::ERROR_DS_NONSAFE_SCHEMA_CHANGE => Some(8508),
            WinErrorWindows::ERROR_DS_SCHEMA_UPDATE_DISALLOWED => Some(8509),
            WinErrorWindows::ERROR_DS_CANT_CREATE_UNDER_SCHEMA => Some(8510),
            WinErrorWindows::ERROR_DS_INSTALL_NO_SRC_SCH_VERSION => Some(8511),
            WinErrorWindows::ERROR_DS_INSTALL_NO_SCH_VERSION_IN_INIFILE => Some(8512),
            WinErrorWindows::ERROR_DS_INVALID_GROUP_TYPE => Some(8513),
            WinErrorWindows::ERROR_DS_NO_NEST_GLOBALGROUP_IN_MIXEDDOMAIN => Some(8514),
            WinErrorWindows::ERROR_DS_NO_NEST_LOCALGROUP_IN_MIXEDDOMAIN => Some(8515),
            WinErrorWindows::ERROR_DS_GLOBAL_CANT_HAVE_LOCAL_MEMBER => Some(8516),
            WinErrorWindows::ERROR_DS_GLOBAL_CANT_HAVE_UNIVERSAL_MEMBER => Some(8517),
            WinErrorWindows::ERROR_DS_UNIVERSAL_CANT_HAVE_LOCAL_MEMBER => Some(8518),
            WinErrorWindows::ERROR_DS_GLOBAL_CANT_HAVE_CROSSDOMAIN_MEMBER => Some(8519),
            WinErrorWindows::ERROR_DS_LOCAL_CANT_HAVE_CROSSDOMAIN_LOCAL_MEMBER => Some(8520),
            WinErrorWindows::ERROR_DS_HAVE_PRIMARY_MEMBERS => Some(8521),
            WinErrorWindows::ERROR_DS_STRING_SD_CONVERSION_FAILED => Some(8522),
            WinErrorWindows::ERROR_DS_NAMING_MASTER_GC => Some(8523),
            _ => None,
        }
    }

    /// One slice of the symbol table.
    #[verifier::spinoff_prover]
    #[verifier::rlimit(100)]
    fn from_u32_part42(raw: u32) -> (r: Option<WinErrorWindows>)
        ensures
            r == WinErrorWindows::spec_from_u32_part42(raw),
    {
        match raw {
            8474 => Some(WinErrorWindows::ERROR_DS_NAME_ERROR_NO_SYNTACTICAL_MAPPING),
            8475 => Some(WinErrorWindows::ERROR_DS_CONSTRUCTED_ATT_MOD),
            8476 => Some(WinErrorWindows::ERROR_DS_WRONG_OM_OBJ_CLASS),
            8477 => Some(WinErrorWindows::ERROR_DS_DRA_REPL_PENDING),
            8478 => Some(WinErrorWindows::ERROR_DS_DS_REQUIRED),
            8479 => Some(WinErrorWindows::ERROR_DS_INVALID_LDAP_DISPLAY_NAME),
            8480 => Some(WinErrorWindows::ERROR_DS_NON_BASE_SEARCH),
            8481 => Some(WinErrorWindows::ERROR_DS_CANT_RETRIEVE_ATTS),
            8482 => Some(WinErrorWindows::ERROR_DS_BACKLINK_WITHOUT_LINK),
            8483 => Some(WinErrorWindows::ERROR_DS_EPOCH_MISMATCH),
            8484 => Some(WinErrorWindows::ERROR_DS_SRC_NAME_MISMATCH),
            8485 => Some(WinErrorWindows::ERROR_DS_SRC_AND_DST_NC_IDENTICAL),
            8486 => Some(WinErrorWindows::ERROR_DS_DST_NC_MISMATCH),
            8487 => Some(WinErrorWindows::ERROR_DS_NOT_AUTHORITIVE_FOR_DST_NC),
            8488 => Some(WinErrorWindows::ERROR_DS_SRC_GUID_MISMATCH),
            8489 => Some(WinErrorWindows::ERROR_DS_CANT_MOVE_DELETED_OBJECT),
            8490 => Some(WinErrorWindows::ERROR_DS_PDC_OPERATION_IN_PROGRESS),
            8491 => Some(WinErrorWindows::ERROR_DS_CROSS_DOMAIN_CLEANUP_REQD),
            8492 => Some(WinErrorWindows::ERROR_DS_ILLEGAL_XDOM_MOVE_OPERATION),
            8493 => Some(WinErrorWindows::ERROR_DS_CANT_WITH_ACCT_GROUP_MEMBERSHPS),
            8494 => Some(WinErrorWindows::ERROR_DS_NC_MUST_HAVE_NC_PARENT),
            8495 => Some(WinErrorWindows::ERROR_DS_CR_IMPOSSIBLE_TO_VALIDATE),
            8496 => Some(WinErrorWindows::ERROR_DS_DST_DOMAIN_NOT_NATIVE),
            8497 => Some(WinErrorWindows::ERROR_DS_MISSING_INFRASTRUCTURE_CONTAINER),
            8498 => Some(WinErrorWindows::ERROR_DS_CANT_MOVE_ACCOUNT_GROUP),
            8499 => Some(WinErrorWindows::ERROR_DS_CANT_MOVE_RESOURCE_GROUP),
            8500 => Some(WinErrorWindows::ERROR_DS_INVALID_SEARCH_FLAG),
            8501 => Some(WinErrorWindows::ERROR_DS_NO_TREE_DELETE_ABOVE_NC),
            8502 => Some(WinErrorWindows::ERROR_DS_COULDNT_LOCK_TREE_FOR_DELETE),
            8503 => Some(WinErrorWindows::ERROR_DS_COULDNT_IDENTIFY_OBJECTS_FOR_TREE_DELETE),
            8504 => Some(WinErrorWindows::ERROR_DS_SAM_INIT_FAILURE),
            8505 => Some(WinErrorWindows::ERROR_DS_SENSITIVE_GROUP_VIOLATION),
            8506 => Some(WinErrorWindows::ERROR_DS_CANT_MOD_PRIMARYGROUPID),
            8507 => Some(WinErrorWindows::ERROR_DS_ILLEGAL_BASE_SCHEMA_MOD),
            8508 => Some(WinErrorWindows::ERROR_DS_NONSAFE_SCHEMA_CHANGE),
            8509 => Some(WinErrorWindows::ERROR_DS_SCHEMA_UPDATE_DISALLOWED),
            8510 => Some(WinErrorWindows::ERROR_DS_CANT_CREATE_UNDER_SCHEMA),
            8511 => Some(WinErrorWindows::ERROR_DS_INSTALL_NO_SRC_SCH_VERSION),
            8512 => Some(WinErrorWindows::ERROR_DS_INSTALL_NO_SCH_VERSION_IN_INIFILE),
            8513 => Some(WinErrorWindows::ERROR_DS_INVALID_GROUP_TYPE),
            8514 => Some(WinErrorWindows::ERROR_DS_NO_NEST_GLOBALGROUP_IN_MIXEDDOMAIN),
            8515 => Some(WinErrorWindows::ERROR_DS_NO_NEST_LOCALGROUP_IN_MIXEDDOMAIN),
            8516 => Some(WinErrorWindows::ERROR_DS_GLOBAL_CANT_HAVE_LOCAL_MEMBER),
            8517 => Some(WinErrorWindows::ERROR_DS_GLOBAL_CANT_HAVE_UNIVERSAL_MEMBER),
            8518 => Some(WinErrorWindows::ERROR_DS_UNIVERSAL_CANT_HAVE_LOCAL_MEMBER),
            8519 => Some(WinErrorWindows::ERROR_DS_GLOBAL_CANT_HAVE_CROSSDOMAIN_MEMBER),
            8520 => Some(WinErrorWindows::ERROR_DS_LOCAL_CANT_HAVE_CROSSDOMAIN_LOCAL_MEMBER),
            8521 => Some(WinErrorWindows::ERROR_DS_HAVE_PRIMARY_MEMBERS),
            8522 => Some(WinErrorWindows::ERROR_DS_STRING_SD_CONVERSION_FAILED),
            8523 => Some(WinErrorWindows::ERROR_DS_NAMING_MASTER_GC),
            _ => None,
        }
    }

    /// One slice of the symbol table: the raw value of this symbol,
    /// where this slice holds it.
    pub open spec fn spec_to_u32_part43(self) -> Option<u32> {
        match self {
            WinErrorWindows::ERROR_DS_DNS_LOOKUP_FAILURE => Some(8524),
            WinErrorWindows::ERROR_DS_COULDNT_UPDATE_SPNS => Some(8525),
            WinErrorWindows::ERROR_DS_CANT_RETRIEVE_SD => Some(8526),
            WinErrorWindows::ERROR_DS_KEY_NOT_UNIQUE => Some(8527),
            WinErrorWindows::ERROR_DS_WRONG_LINKED_ATT_SYNTAX => Some(8528),
            WinErrorWindows::ERROR_DS_SAM_NEED_BOOTKEY_PASSWORD => Some(8529),
            WinErrorWindows::ERROR_DS_SAM_NEED_BOOTKEY_FLOPPY => Some(8530),
            WinErrorWindows::ERROR_DS_CANT_START => Some(8531),
            WinErrorWindows::ERROR_DS_INIT_FAILURE => Some(8532),
            WinErrorWindows::ERROR_DS_NO_PKT_PRIVACY_ON_CONNECTION => Some(8533),
            WinErrorWindows::ERROR_DS_SOURCE_DOMAIN_IN_FOREST => Some(8534),
            WinErrorWindows::ERROR_DS_DESTINATION_DOMAIN_NOT_IN_FOREST => Some(8535),
            WinErrorWindows::ERROR_DS_DESTINATION_AUDITING_NOT_ENABLED => Some(8536),
            WinErrorWindows::ERROR_DS_CANT_FIND_DC_FOR_SRC_DOMAIN => Some(8537),
            WinErrorWindows::ERROR_DS_SRC_OBJ_NOT_GROUP_OR_USER => Some(8538),
            WinErrorWindows::ERROR_DS_SRC_SID_EXISTS_IN_FOREST => Some(8539),
            WinErrorWindows::ERROR_DS_SRC_AND_DST_OBJECT_CLASS_MISMATCH => Some(8540),
            WinErrorWindows::ERROR_SAM_INIT_FAILURE => Some(8541),
            WinErrorWindows::ERROR_DS_DRA_SCHEMA_INFO_SHIP => Some(8542),
            WinErrorWindows::ERROR_DS_DRA_SCHEMA_CONFLICT => Some(8543),
            WinErrorWindows::ERROR_DS_DRA_EARLIER_SCHEMA_CONFLICT => Some(8544),
            WinErrorWindows::ERROR_DS_DRA_OBJ_NC_MISMATCH => Some(8545),
            WinErrorWindows::ERROR_DS_NC_STILL_HAS_DSAS => Some(8546),
            WinErrorWindows::ERROR_DS_GC_REQUIRED => Some(8547),
            WinErrorWindows::ERROR_DS_LOCAL_MEMBER_OF_LOCAL_ONLY => Some(8548),
            WinErrorWindows::ERROR_DS_NO_FPO_IN_UNIVERSAL_GROUPS => Some(8549),
            WinErrorWindows::ERROR_DS_CANT_ADD_TO_GC => Some(8550),
            WinErrorWindows::ERROR_DS_NO_CHECKPOINT_WITH_PDC => Some(8551),
            WinErrorWindows::ERROR_DS_SOURCE_AUDITING_NOT_ENABLED => Some(8552),
            WinErrorWindows::ERROR_DS_CANT_CREATE_IN_NONDOMAIN_NC => Some(8553),
            WinErrorWindows::ERROR_DS_INVALID_NAME_FOR_SPN => Some(8554),
            WinErrorWindows::ERROR_DS_FILTER_USES_CONTRUCTED_ATTRS => Some(8555),
            WinErrorWindows::ERROR_DS_UNICODEPWD_NOT_IN_QUOTES => Some(8556),
            WinErrorWindows::ERROR_DS_MACHINE_ACCOUNT_QUOTA_EXCEEDED => Some(8557),
            WinErrorWindows::ERROR_DS_MUST_BE_RUN_ON_DST_DC => Some(8558),
            WinErrorWindows::ERROR_DS_SRC_DC_MUST_BE_SP4_OR_GREATER => Some(8559),
            WinErrorWindows::ERROR_DS_CANT_TREE_DELETE_CRITICAL_OBJ => Some(8560),
            WinErrorWindows::ERROR_DS_INIT_FAILURE_CONSOLE => Some(8561),
            WinErrorWindows::ERROR_DS_SAM_INIT_FAILURE_CONSOLE => Some(8562),
            WinErrorWindows::ERROR_DS_FOREST_VERSION_TOO_HIGH => Some(8563),
            WinErrorWindows::ERROR_DS_DOMAIN_VERSION_TOO_HIGH => Some(8564),
            WinErrorWindows::ERROR_DS_FOREST_VERSION_TOO_LOW => Some(8565),
            WinErrorWindows::ERROR_DS_DOMAIN_VERSION_TOO_LOW => Some(8566),
            WinErrorWindows::ERROR_DS_INCOMPATIBLE_VERSION => Some(8567),
            WinErrorWindows::ERROR_DS_LOW_DSA_VERSION => Some(8568),
            WinErrorWindows::ERROR_DS_NO_BEHAVIOR_VERSION_IN_MIXEDDOMAIN => Some(8569),
            WinErrorWindows::ERROR_DS_NOT_SUPPORTED_SORT_ORDER => Some(8570),
            WinErrorWindows::ERROR_DS_NAME_NOT_UNIQUE => Some(8571),
            WinErrorWindows::ERROR_DS_MACHINE_ACCOUNT_CREATED_PRENT4 => Some(8572),
            WinErrorWindows::ERROR_DS_OUT_OF_VERSION_STORE => Some(8573),
            _ => None,
        }
    }

    /// One slice of the symbol table: the symbol this slice gives a
    /// raw value, where it holds one.
    pub open spec fn spec_from_u32_part43(raw: u32) -> Option<WinErrorWindows> {
        match raw {
            8524 => Some(WinErrorWindows::ERROR_DS_DNS_LOOKUP_FAILURE),
            8525 => Some(WinErrorWindows::ERROR_DS_COULDNT_UPDATE_SPNS),
            8526 => Some(WinErrorWindows::ERROR_DS_CANT_RETRIEVE_SD),
            8527 => Some(WinErrorWindows::ERROR_DS_KEY_NOT_UNIQUE),
            8528 => Some(WinErrorWindows::ERROR_DS_WRONG_LINKED_ATT_SYNTAX),
            8529 => Some(WinErrorWindows::ERROR_DS_SAM_NEED_BOOTKEY_PASSWORD),
            8530 => Some(WinErrorWindows::ERROR_DS_SAM_NEED_BOOTKEY_FLOPPY),
            8531 => Some(WinErrorWindows::ERROR_DS_CANT_START),
            8532 => Some(WinErrorWindows::ERROR_DS_INIT_FAILURE),
            8533 => Some(WinErrorWindows::ERROR_DS_NO_PKT_PRIVACY_ON_CONNECTION),
            8534 => Some(WinErrorWindows::ERROR_DS_SOURCE_DOMAIN_IN_FOREST),
            8535 => Some(WinErrorWindows::ERROR_DS_DESTINATION_DOMAIN_NOT_IN_FOREST),
            8536 => Some(WinErrorWindows::ERROR_DS_DESTINATION_AUDITING_NOT_ENABLED),
            8537 => Some(WinErrorWindows::ERROR_DS_CANT_FIND_DC_FOR_SRC_DOMAIN),
            8538 => Some(WinErrorWindows::ERROR_DS_SRC_OBJ_NOT_GROUP_OR_USER),
            8539 => Some(WinErrorWindows::ERROR_DS_SRC_SID_EXISTS_IN_FOREST),
            8540 => Some(WinErrorWindows::ERROR_DS_SRC_AND_DST_OBJECT_CLASS_MISMATCH),
            8541 => Some(WinErrorWindows::ERROR_SAM_INIT_FAILURE),
            8542 => Some(WinErrorWindows::ERROR_DS_DRA_SCHEMA_INFO_SHIP),
            8543 => Some(WinErrorWindows::ERROR_DS_DRA_SCHEMA_CONFLICT),
            8544 => Some(WinErrorWindows::ERROR_DS_DRA_EARLIER_SCHEMA_CONFLICT),
            8545 => Some(WinErrorWindows::ERROR_DS_DRA_OBJ_NC_MISMATCH),
            8546 => Some(WinErrorWindows::ERROR_DS_NC_STILL_HAS_DSAS),
            8547 => Some(WinErrorWindows::ERROR_DS_GC_REQUIRED),
            8548 => Some(WinErrorWindows::ERROR_DS_LOCAL_MEMBER_OF_LOCAL_ONLY),
            8549 => Some(WinErrorWindows::ERROR_DS_NO_FPO_IN_UNIVERSAL_GROUPS),
            8550 => Some(WinErrorWindows::ERROR_DS_CANT_ADD_TO_GC),
            8551 => Some(WinErrorWindows::ERROR_DS_NO_CHECKPOINT_WITH_PDC),
            8552 => Some(WinErrorWindows::ERROR_DS_SOURCE_AUDITING_NOT_ENABLED),
            8553 => Some(WinErrorWindows::ERROR_DS_CANT_CREATE_IN_NONDOMAIN_NC),
            8554 => Some(WinErrorWindows::ERROR_DS_INVALID_NAME_FOR_SPN),
            8555 => Some(WinErrorWindows::ERROR_DS_FILTER_USES_CONTRUCTED_ATTRS),
            8556 => Some(WinErrorWindows::ERROR_DS_UNICODEPWD_NOT_IN_QUOTES),
            8557 => Some(WinErrorWindows::ERROR_DS_MACHINE_ACCOUNT_QUOTA_EXCEEDED),
            8558 => Some(WinErrorWindows::ERROR_DS_MUST_BE_RUN_ON_DST_DC),
            8559 => Some(WinErrorWindows::ERROR_DS_SRC_DC_MUST_BE_SP4_OR_GREATER),
            8560 => Some(WinErrorWindows::ERROR_DS_CANT_TREE_DELETE_CRITICAL_OBJ),
            8561 => Some(WinErrorWindows::ERROR_DS_INIT_FAILURE_CONSOLE),
            8562 => Some(WinErrorWindows::ERROR_DS_SAM_INIT_FAILURE_CONSOLE),
            8563 => Some(WinErrorWindows::ERROR_DS_FOREST_VERSION_TOO_HIGH),
            8564 => Some(WinErrorWindows::ERROR_DS_DOMAIN_VERSION_TOO_HIGH),
            8565 => Some(WinErrorWindows::ERROR_DS_FOREST_VERSION_TOO_LOW),
            8566 => Some(WinErrorWindows::ERROR_DS_DOMAIN_VERSION_TOO_LOW),
            8567 => Some(WinErrorWindows::ERROR_DS_INCOMPATIBLE_VERSION),
            8568 => Some(WinErrorWindows::ERROR_DS_LOW_DSA_VERSION),
            8569 => Some(WinErrorWindows::ERROR_DS_NO_BEHAVIOR_VERSION_IN_MIXEDDOMAIN),
            8570 => Some(WinErrorWindows::ERROR_DS_NOT_SUPPORTED_SORT_ORDER),
            8571 => Some(WinErrorWindows::ERROR_DS_NAME_NOT_UNIQUE),
            8572 => Some(WinErrorWindows::ERROR_DS_MACHINE_ACCOUNT_CREATED_PRENT4),
            8573 => Some(WinErrorWindows::ERROR_DS_OUT_OF_VERSION_STORE),
            _ => None,
        }
    }

    /// One slice of the symbol table.
    #[verifier::spinoff_prover]
    #[verifier::rlimit(100)]
    fn to_u32_part43(self) -> (r: Option<u32>)
        ensures
            r == self.spec_to_u32_part43(),
    {
        match self {
            WinErrorWindows::ERROR_DS_DNS_LOOKUP_FAILURE => Some(8524),
            WinErrorWindows::ERROR_DS_COULDNT_UPDATE_SPNS => Some(8525),
            WinErrorWindows::ERROR_DS_CANT_RETRIEVE_SD => Some(8526),
            WinErrorWindows::ERROR_DS_KEY_NOT_UNIQUE => Some(8527),
            WinErrorWindows::ERROR_DS_WRONG_LINKED_ATT_SYNTAX => Some(8528),
            WinErrorWindows::ERROR_DS_SAM_NEED_BOOTKEY_PASSWORD => Some(8529),
            WinErrorWindows::ERROR_DS_SAM_NEED_BOOTKEY_FLOPPY => Some(8530),
            WinErrorWindows::ERROR_DS_CANT_START => Some(8531),
            WinErrorWindows::ERROR_DS_INIT_FAILURE => Some(8532),
            WinErrorWindows::ERROR_DS_NO_PKT_PRIVACY_ON_CONNECTION => Some(8533),
            WinErrorWindows::ERROR_DS_SOURCE_DOMAIN_IN_FOREST => Some(8534),
            WinErrorWindows::ERROR_DS_DESTINATION_DOMAIN_NOT_IN_FOREST => Some(8535),
            WinErrorWindows::ERROR_DS_DESTINATION_AUDITING_NOT_ENABLED => Some(8536),
            WinErrorWindows::ERROR_DS_CANT_FIND_DC_FOR_SRC_DOMAIN => Some(8537),
            WinErrorWindows::ERROR_DS_SRC_OBJ_NOT_GROUP_OR_USER => Some(8538),
            WinErrorWindows::ERROR_DS_SRC_SID_EXISTS_IN_FOREST => Some(8539),
            WinErrorWindows::ERROR_DS_SRC_AND_DST_OBJECT_CLASS_MISMATCH => Some(8540),
            WinErrorWindows::ERROR_SAM_INIT_FAILURE => Some(8541),
            WinErrorWindows::ERROR_DS_DRA_SCHEMA_INFO_SHIP => Some(8542),
            WinErrorWindows::ERROR_DS_DRA_SCHEMA_CONFLICT => Some(8543),
            WinErrorWindows::ERROR_DS_DRA_EARLIER_SCHEMA_CONFLICT => Some(8544),
            WinErrorWindows::ERROR_DS_DRA_OBJ_NC_MISMATCH => Some(8545),
            WinErrorWindows::ERROR_DS_NC_STILL_HAS_DSAS => Some(8546),
            WinErrorWindows::ERROR_DS_GC_REQUIRED => Some(8547),
            WinErrorWindows::ERROR_DS_LOCAL_MEMBER_OF_LOCAL_ONLY => Some(8548),
            WinErrorWindows::ERROR_DS_NO_FPO_IN_UNIVERSAL_GROUPS => Some(8549),
            WinErrorWindows::ERROR_DS_CANT_ADD_TO_GC => Some(8550),
            WinErrorWindows::ERROR_DS_NO_CHECKPOINT_WITH_PDC => Some(8551),
            WinErrorWindows::ERROR_DS_SOURCE_AUDITING_NOT_ENABLED => Some(8552),
            WinErrorWindows::ERROR_DS_CANT_CREATE_IN_NONDOMAIN_NC => Some(8553),
            WinErrorWindows::ERROR_DS_INVALID_NAME_FOR_SPN => Some(8554),
            WinErrorWindows::ERROR_DS_FILTER_USES_CONTRUCTED_ATTRS => Some(8555),
            WinErrorWindows::ERROR_DS_UNICODEPWD_NOT_IN_QUOTES => Some(8556),
            WinErrorWindows::ERROR_DS_MACHINE_ACCOUNT_QUOTA_EXCEEDED => Some(8557),
            WinErrorWindows::ERROR_DS_MUST_BE_RUN_ON_DST_DC => Some(8558),
            WinErrorWindows::ERROR_DS_SRC_DC_MUST_BE_SP4_OR_GREATER => Some(8559),
            WinErrorWindows::ERROR_DS_CANT_TREE_DELETE_CRITICAL_OBJ => Some(8560),
            WinErrorWindows::ERROR_DS_INIT_FAILURE_CONSOLE => Some(8561),
            WinErrorWindows::ERROR_DS_SAM_INIT_FAILURE_CONSOLE => Some(8562),
            WinErrorWindows::ERROR_DS_FOREST_VERSION_TOO_HIGH => Some(8563),
            WinErrorWindows::ERROR_DS_DOMAIN_VERSION_TOO_HIGH => Some(8564),
            WinErrorWindows::ERROR_DS_FOREST_VERSION_TOO_LOW => Some(8565),
            WinErrorWindows::ERROR_DS_DOMAIN_VERSION_TOO_LOW => Some(8566),
            WinErrorWindows::ERROR_DS_INCOMPATIBLE_VERSION => Some(8567),
            WinErrorWindows::ERROR_DS_LOW_DSA_VERSION => Some(8568),
            WinErrorWindows::ERROR_DS_NO_BEHAVIOR_VERSION_IN_MIXEDDOMAIN => Some(8569),
            WinErrorWindows::ERROR_DS_NOT_SUPPORTED_SORT_ORDER => Some(8570),
            WinErrorWindows::ERROR_DS_NAME_NOT_UNIQUE => Some(8571),
            WinErrorWindows::ERROR_DS_MACHINE_ACCOUNT_CREATED_PRENT4 => Some(8572),
            WinErrorWindows::ERROR_DS_OUT_OF_VERSION_STORE => Some(8573),
            _ => None,
        }
    }

    /// One slice of the symbol table.
    #[verifier::spinoff_prover]
    #[verifier::rlimit(100)]
    fn from_u32_part43(raw: u32) -> (r: Option<WinErrorWindows>)
        ensures
            r == WinErrorWindows::spec_from_u32_part43(raw),
    {
        match raw {
            8524 => Some(WinErrorWindows::ERROR_DS_DNS_LOOKUP_FAILURE),
            8525 => Some(WinErrorWindows::ERROR_DS_COULDNT_UPDATE_SPNS),
            8526 => Some(WinErrorWindows::ERROR_DS_CANT_RETRIEVE_SD),
            8527 => Some(WinErrorWindows::ERROR_DS_KEY_NOT_UNIQUE),
            8528 => Some(WinErrorWindows::ERROR_DS_WRONG_LINKED_ATT_SYNTAX),
            8529 => Some(WinErrorWindows::ERROR_DS_SAM_NEED_BOOTKEY_PASSWORD),
            8530 => Some(WinErrorWindows::ERROR_DS_SAM_NEED_BOOTKEY_FLOPPY),
            8531 => Some(WinErrorWindows::ERROR_DS_CANT_START),
            8532 => Some(WinErrorWindows::ERROR_DS_INIT_FAILURE),
            8533 => Some(WinErrorWindows::ERROR_DS_NO_PKT_PRIVACY_ON_CONNECTION),
            8534 => Some(WinErrorWindows::ERROR_DS_SOURCE_DOMAIN_IN_FOREST),
            8535 => Some(WinErrorWindows::ERROR_DS_DESTINATION_DOMAIN_NOT_IN_FOREST),
            8536 => Some(WinErrorWindows::ERROR_DS_DESTINATION_AUDITING_NOT_ENABLED),
            8537 => Some(WinErrorWindows::ERROR_DS_CANT_FIND_DC_FOR_SRC_DOMAIN),
            8538 => Some(WinErrorWindows::ERROR_DS_SRC_OBJ_NOT_GROUP_OR_USER),
            8539 => Some(WinErrorWindows::ERROR_DS_SRC_SID_EXISTS_IN_FOREST),
            8540 => Some(WinErrorWindows::ERROR_DS_SRC_AND_DST_OBJECT_CLASS_MISMATCH),
            8541 => Some(WinErrorWindows::ERROR_SAM_INIT_FAILURE),
            8542 => Some(WinErrorWindows::ERROR_DS_DRA_SCHEMA_INFO_SHIP),
            8543 => Some(WinErrorWindows::ERROR_DS_DRA_SCHEMA_CONFLICT),
            8544 => Some(WinErrorWindows::ERROR_DS_DRA_EARLIER_SCHEMA_CONFLICT),
            8545 => Some(WinErrorWindows::ERROR_DS_DRA_OBJ_NC_MISMATCH),
            8546 => Some(WinErrorWindows::ERROR_DS_NC_STILL_HAS_DSAS),
            8547 => Some(WinErrorWindows::ERROR_DS_GC_REQUIRED),
            8548 => Some(WinErrorWindows::ERROR_DS_LOCAL_MEMBER_OF_LOCAL_ONLY),
            8549 => Some(WinErrorWindows::ERROR_DS_NO_FPO_IN_UNIVERSAL_GROUPS),
            8550 => Some(WinErrorWindows::ERROR_DS_CANT_ADD_TO_GC),
            8551 => Some(WinErrorWindows::ERROR_DS_NO_CHECKPOINT_WITH_PDC),
            8552 => Some(WinErrorWindows::ERROR_DS_SOURCE_AUDITING_NOT_ENABLED),
            8553 => Some(WinErrorWindows::ERROR_DS_CANT_CREATE_IN_NONDOMAIN_NC),
            8554 => Some(WinErrorWindows::ERROR_DS_INVALID_NAME_FOR_SPN),
            8555 => Some(WinErrorWindows::ERROR_DS_FILTER_USES_CONTRUCTED_ATTRS),
            8556 => Some(WinErrorWindows::ERROR_DS_UNICODEPWD_NOT_IN_QUOTES),
            8557 => Some(WinErrorWindows::ERROR_DS_MACHINE_ACCOUNT_QUOTA_EXCEEDED),
            8558 => Some(WinErrorWindows::ERROR_DS_MUST_BE_RUN_ON_DST_DC),
            8559 => Some(WinErrorWindows::ERROR_DS_SRC_DC_MUST_BE_SP4_OR_GREATER),
            8560 => Some(WinErrorWindows::ERROR_DS_CANT_TREE_DELETE_CRITICAL_OBJ),
            8561 => Some(WinErrorWindows::ERROR_DS_INIT_FAILURE_CONSOLE),
            8562 => Some(WinErrorWindows::ERROR_DS_SAM_INIT_FAILURE_CONSOLE),
            8563 => Some(WinErrorWindows::ERROR_DS_FOREST_VERSION_TOO_HIGH),
            8564 => Some(WinErrorWindows::ERROR_DS_DOMAIN_VERSION_TOO_HIGH),
            8565 => Some(WinErrorWindows::ERROR_DS_FOREST_VERSION_TOO_LOW),
            8566 => Some(WinErrorWindows::ERROR_DS_DOMAIN_VERSION_TOO_LOW),
            8567 => Some(WinErrorWindows::ERROR_DS_INCOMPATIBLE_VERSION),
            8568 => Some(WinErrorWindows::ERROR_DS_LOW_DSA_VERSION),
            8569 => Some(WinErrorWindows::ERROR_DS_NO_BEHAVIOR_VERSION_IN_MIXEDDOMAIN),
            8570 => Some(WinErrorWindows::ERROR_DS_NOT_SUPPORTED_SORT_ORDER),
            8571 => Some(WinErrorWindows::ERROR_DS_NAME_NOT_UNIQUE),
            8572 => Some(WinErrorWindows::ERROR_DS_MACHINE_ACCOUNT_CREATED_PRENT4),
            8573 => Some(WinErrorWindows::ERROR_DS_OUT_OF_VERSION_STORE),
            _ => None,
        }
    }

    /// One slice of the symbol table: the raw value of this symbol,
    /// where this slice holds it.
    pub open spec fn spec_to_u32_part44(self) -> Option<u32> {
        match self {
            WinErrorWindows::ERROR_DS_INCOMPATIBLE_CONTROLS_USED => Some(8574),
            WinErrorWindows::ERROR_DS_NO_REF_DOMAIN => Some(8575),
            WinErrorWindows::ERROR_DS_RESERVED_LINK_ID => Some(8576),
            WinErrorWindows::ERROR_DS_LINK_ID_NOT_AVAILABLE => Some(8577),
            WinErrorWindows::ERROR_DS_AG_CANT_HAVE_UNIVERSAL_MEMBER => Some(8578),
            WinErrorWindows::ERROR_DS_MODIFYDN_DISALLOWED_BY_INSTANCE_TYPE => Some(8579),
            WinErrorWindows::ERROR_DS_NO_OBJECT_MOVE_IN_SCHEMA_NC => Some(8580),
            WinErrorWindows::ERROR_DS_MODIFYDN_DISALLOWED_BY_FLAG => Some(8581),
            WinErrorWindows::ERROR_DS_MODIFYDN_WRONG_GRANDPARENT => Some(8582),
            WinErrorWindows::ERROR_DS_NAME_ERROR_TRUST_REFERRAL => Some(8583),
            WinErrorWindows::ERROR_NOT_SUPPORTED_ON_STANDARD_SERVER => Some(8584),
            WinErrorWindows::ERROR_DS_CANT_ACCESS_REMOTE_PART_OF_AD => Some(8585),
            WinErrorWindows::ERROR_DS_CR_IMPOSSIBLE_TO_VALIDATE_V2 => Some(8586),
            WinErrorWindows::ERROR_DS_THREAD_LIMIT_EXCEEDED => Some(8587),
            WinErrorWindows::ERROR_DS_NOT_CLOSEST => Some(8588),
            WinErrorWindows::ERROR_DS_CANT_DERIVE_SPN_WITHOUT_SERVER_REF => Some(8589),
            WinErrorWindows::ERROR_DS_SINGLE_USER_MODE_FAILED => Some(8590),
            WinErrorWindows::ERROR_DS_NTDSCRIPT_SYNTAX_ERROR => Some(8591),
            WinErrorWindows::ERROR_DS_NTDSCRIPT_PROCESS_ERROR => Some(8592),
            WinErrorWindows::ERROR_DS_DIFFERENT_REPL_EPOCHS => Some(8593),
            WinErrorWindows::ERROR_DS_DRS_EXTENSIONS_CHANGED => Some(8594),
            WinErrorWindows::ERROR_DS_REPLICA_SET_CHANGE_NOT_ALLOWED_ON_DISABLED_CR => Some(8595),
            WinErrorWindows::ERROR_DS_NO_MSDS_INTID => Some(8596),
            WinErrorWindows::ERROR_DS_DUP_MSDS_INTID => Some(8597),
            WinErrorWindows::ERROR_DS_EXISTS_IN_RDNATTID => Some(8598),
            WinErrorWindows::ERROR_DS_AUTHORIZATION_FAILED => Some(8599),
            WinErrorWindows::ERROR_DS_INVALID_SCRIPT => Some(8600),
            WinErrorWindows::ERROR_DS_REMOTE_CROSSREF_OP_FAILED => Some(8601),
            WinErrorWindows::ERROR_DS_CROSS_REF_BUSY => Some(8602),
            WinErrorWindows::ERROR_DS_CANT_DERIVE_SPN_FOR_DELETED_DOMAIN => Some(8603),
            WinErrorWindows::ERROR_DS_CANT_DEMOTE_WITH_WRITEABLE_NC => Some(8604),
            WinErrorWindows::ERROR_DS_DUPLICATE_ID_FOUND => Some(8605),
            WinErrorWindows::ERROR_DS_INSUFFICIENT_ATTR_TO_CREATE_OBJECT => Some(8606),
            WinErrorWindows::ERROR_DS_GROUP_CONVERSION_ERROR => Some(8607),
            WinErrorWindows::ERROR_DS_CANT_MOVE_APP_BASIC_GROUP => Some(8608),
            WinErrorWindows::ERROR_DS_CANT_MOVE_APP_QUERY_GROUP => Some(8609),
            WinErrorWindows::ERROR_DS_ROLE_NOT_VERIFIED => Some(8610),
            WinErrorWindows::ERROR_DS_WKO_CONTAINER_CANNOT_BE_SPECIAL => Some(8611),
            WinErrorWindows::ERROR_DS_DOMAIN_RENAME_IN_PROGRESS => Some(8612),
            WinErrorWindows::ERROR_DS_EXISTING_AD_CHILD_NC => Some(8613),
            WinErrorWindows::ERROR_DS_REPL_LIFETIME_EXCEEDED => Some(8614),
            WinErrorWindows::ERROR_DS_DISALLOWED_IN_SYSTEM_CONTAINER => Some(8615),
            WinErrorWindows::ERROR_DS_LDAP_SEND_QUEUE_FULL => Some(8616),
            WinErrorWindows::ERROR_DS_DRA_OUT_SCHEDULE_WINDOW => Some(8617),
            WinErrorWindows::ERROR_DS_POLICY_NOT_KNOWN => Some(8618),
            WinErrorWindows::ERROR_NO_SITE_SETTINGS_OBJECT => Some(8619),
            WinErrorWindows::ERROR_NO_SECRETS => Some(8620),
            WinErrorWindows::ERROR_NO_WRITABLE_DC_FOUND => Some(8621),
            WinErrorWindows::ERROR_DS_NO_SERVER_OBJECT => Some(8622),
            WinErrorWindows::ERROR_DS_NO_NTDSA_OBJECT => Some(8623),
            _ => None,
        }
    }

    /// One slice of the symbol table: the symbol this slice gives a
    /// raw value, where it holds one.
    pub open spec fn spec_from_u32_part44(raw: u32) -> Option<WinErrorWindows> {
        match raw {
            8574 => Some(WinErrorWindows::ERROR_DS_INCOMPATIBLE_CONTROLS_USED),
            8575 => Some(WinErrorWindows::ERROR_DS_NO_REF_DOMAIN),
            8576 => Some(WinErrorWindows::ERROR_DS_RESERVED_LINK_ID),
            8577 => Some(WinErrorWindows::ERROR_DS_LINK_ID_NOT_AVAILABLE),
            8578 => Some(WinErrorWindows::ERROR_DS_AG_CANT_HAVE_UNIVERSAL_MEMBER),
            8579 => Some(WinErrorWindows::ERROR_DS_MODIFYDN_DISALLOWED_BY_INSTANCE_TYPE),
            8580 => Some(WinErrorWindows::ERROR_DS_NO_OBJECT_MOVE_IN_SCHEMA_NC),
            8581 => Some(WinErrorWindows::ERROR_DS_MODIFYDN_DISALLOWED_BY_FLAG),
            8582 => Some(WinErrorWindows::ERROR_DS_MODIFYDN_WRONG_GRANDPARENT),
            8583 => Some(WinErrorWindows::ERROR_DS_NAME_ERROR_TRUST_REFERRAL),
            8584 => Some(WinErrorWindows::ERROR_NOT_SUPPORTED_ON_STANDARD_SERVER),
            8585 => Some(WinErrorWindows::ERROR_DS_CANT_ACCESS_REMOTE_PART_OF_AD),
            8586 => Some(WinErrorWindows::ERROR_DS_CR_IMPOSSIBLE_TO_VALIDATE_V2),
            8587 => Some(WinErrorWindows::ERROR_DS_THREAD_LIMIT_EXCEEDED),
            8588 => Some(WinErrorWindows::ERROR_DS_NOT_CLOSEST),
            8589 => Some(WinErrorWindows::ERROR_DS_CANT_DERIVE_SPN_WITHOUT_SERVER_REF),
            8590 => Some(WinErrorWindows::ERROR_DS_SINGLE_USER_MODE_FAILED),
            8591 => Some(WinErrorWindows::ERROR_DS_NTDSCRIPT_SYNTAX_ERROR),
            8592 => Some(WinErrorWindows::ERROR_DS_NTDSCRIPT_PROCESS_ERROR),
            8593 => Some(WinErrorWindows::ERROR_DS_DIFFERENT_REPL_EPOCHS),
            8594 => Some(WinErrorWindows::ERROR_DS_DRS_EXTENSIONS_CHANGED),
            8595 => Some(WinErrorWindows::ERROR_DS_REPLICA_SET_CHANGE_NOT_ALLOWED_ON_DISABLED_CR),
            8596 => Some(WinErrorWindows::ERROR_DS_NO_MSDS_INTID),
            8597 => Some(WinErrorWindows::ERROR_DS_DUP_MSDS_INTID),
            8598 => Some(WinErrorWindows::ERROR_DS_EXISTS_IN_RDNATTID),
            8599 => Some(WinErrorWindows::ERROR_DS_AUTHORIZATION_FAILED),
            8600 => Some(WinErrorWindows::ERROR_DS_INVALID_SCRIPT),
            8601 => Some(WinErrorWindows::ERROR_DS_REMOTE_CROSSREF_OP_FAILED),
            8602 => Some(WinErrorWindows::ERROR_DS_CROSS_REF_BUSY),
            8603 => Some(WinErrorWindows::ERROR_DS_CANT_DERIVE_SPN_FOR_DELETED_DOMAIN),
            8604 => Some(WinErrorWindows::ERROR_DS_CANT_DEMOTE_WITH_WRITEABLE_NC),
            8605 => Some(WinErrorWindows::ERROR_DS_DUPLICATE_ID_FOUND),
            8606 => Some(WinErrorWindows::ERROR_DS_INSUFFICIENT_ATTR_TO_CREATE_OBJECT),
            8607 => Some(WinErrorWindows::ERROR_DS_GROUP_CONVERSION_ERROR),
            8608 => Some(WinErrorWindows::ERROR_DS_CANT_MOVE_APP_BASIC_GROUP),
            8609 => Some(WinErrorWindows::ERROR_DS_CANT_MOVE_APP_QUERY_GROUP),
            8610 => Some(WinErrorWindows::ERROR_DS_ROLE_NOT_VERIFIED),
            8611 => Some(WinErrorWindows::ERROR_DS_WKO_CONTAINER_CANNOT_BE_SPECIAL),
            8612 => Some(WinErrorWindows::ERROR_DS_DOMAIN_RENAME_IN_PROGRESS),
            8613 => Some(WinErrorWindows::ERROR_DS_EXISTING_AD_CHILD_NC),
            8614 => Some(WinErrorWindows::ERROR_DS_REPL_LIFETIME_EXCEEDED),
            8615 => Some(WinErrorWindows::ERROR_DS_DISALLOWED_IN_SYSTEM_CONTAINER),
            8616 => Some(WinErrorWindows::ERROR_DS_LDAP_SEND_QUEUE_FULL),
            8617 => Some(WinErrorWindows::ERROR_DS_DRA_OUT_SCHEDULE_WINDOW),
            8618 => Some(WinErrorWindows::ERROR_DS_POLICY_NOT_KNOWN),
            8619 => Some(WinErrorWindows::ERROR_NO_SITE_SETTINGS_OBJECT),
            8620 => Some(WinErrorWindows::ERROR_NO_SECRETS),
            8621 => Some(WinErrorWindows::ERROR_NO_WRITABLE_DC_FOUND),
            8622 => Some(WinErrorWindows::ERROR_DS_NO_SERVER_OBJECT),
            8623 => Some(WinErrorWindows::ERROR_DS_NO_NTDSA_OBJECT),
            _ => None,
        }
    }

    /// One slice of the symbol table.
    #[verifier::spinoff_prover]
    #[verifier::rlimit(100)]
    fn to_u32_part44(self) -> (r: Option<u32>)
        ensures
            r == self.spec_to_u32_part44(),
    {
        match self {
            WinErrorWindows::ERROR_DS_INCOMPATIBLE_CONTROLS_USED => Some(8574),
            WinErrorWindows::ERROR_DS_NO_REF_DOMAIN => Some(8575),
            WinErrorWindows::ERROR_DS_RESERVED_LINK_ID => Some(8576),
            WinErrorWindows::ERROR_DS_LINK_ID_NOT_AVAILABLE => Some(8577),
            WinErrorWindows::ERROR_DS_AG_CANT_HAVE_UNIVERSAL_MEMBER => Some(8578),
            WinErrorWindows::ERROR_DS_MODIFYDN_DISALLOWED_BY_INSTANCE_TYPE => Some(8579),
            WinErrorWindows::ERROR_DS_NO_OBJECT_MOVE_IN_SCHEMA_NC => Some(8580),
            WinErrorWindows::ERROR_DS_MODIFYDN_DISALLOWED_BY_FLAG => Some(8581),
            WinErrorWindows::ERROR_DS_MODIFYDN_WRONG_GRANDPARENT => Some(8582),
            WinErrorWindows::ERROR_DS_NAME_ERROR_TRUST_REFERRAL => Some(8583),
            WinErrorWindows::ERROR_NOT_SUPPORTED_ON_STANDARD_SERVER => Some(8584),
            WinErrorWindows::ERROR_DS_CANT_ACCESS_REMOTE_PART_OF_AD => Some(8585),
            WinErrorWindows::ERROR_DS_CR_IMPOSSIBLE_TO_VALIDATE_V2 => Some(8586),
            WinErrorWindows::ERROR_DS_THREAD_LIMIT_EXCEEDED => Some(8587),
            WinErrorWindows::ERROR_DS_NOT_CLOSEST => Some(8588),
            WinErrorWindows::ERROR_DS_CANT_DERIVE_SPN_WITHOUT_SERVER_REF => Some(8589),
            WinErrorWindows::ERROR_DS_SINGLE_USER_MODE_FAILED => Some(8590),
            WinErrorWindows::ERROR_DS_NTDSCRIPT_SYNTAX_ERROR => Some(8591),
            WinErrorWindows::ERROR_DS_NTDSCRIPT_PROCESS_ERROR => Some(8592),
            WinErrorWindows::ERROR_DS_DIFFERENT_REPL_EPOCHS => Some(8593),
            WinErrorWindows::ERROR_DS_DRS_EXTENSIONS_CHANGED => Some(8594),
            WinErrorWindows::ERROR_DS_REPLICA_SET_CHANGE_NOT_ALLOWED_ON_DISABLED_CR => Some(8595),
            WinErrorWindows::ERROR_DS_NO_MSDS_INTID => Some(8596),
            WinErrorWindows::ERROR_DS_DUP_MSDS_INTID => Some(8597),
            WinErrorWindows::ERROR_DS_EXISTS_IN_RDNATTID => Some(8598),
            WinErrorWindows::ERROR_DS_AUTHORIZATION_FAILED => Some(8599),
            WinErrorWindows::ERROR_DS_INVALID_SCRIPT => Some(8600),
            WinErrorWindows::ERROR_DS_REMOTE_CROSSREF_OP_FAILED => Some(8601),
            WinErrorWindows::ERROR_DS_CROSS_REF_BUSY => Some(8602),
            WinErrorWindows::ERROR_DS_CANT_DERIVE_SPN_FOR_DELETED_DOMAIN => Some(8603),
            WinErrorWindows::ERROR_DS_CANT_DEMOTE_WITH_WRITEABLE_NC => Some(8604),
            WinErrorWindows::ERROR_DS_DUPLICATE_ID_FOUND => Some(8605),
            WinErrorWindows::ERROR_DS_INSUFFICIENT_ATTR_TO_CREATE_OBJECT => Some(8606),
            WinErrorWindows::ERROR_DS_GROUP_CONVERSION_ERROR => Some(8607),
            WinErrorWindows::ERROR_DS_CANT_MOVE_APP_BASIC_GROUP => Some(8608),
            WinErrorWindows::ERROR_DS_CANT_MOVE_APP_QUERY_GROUP => Some(8609),
            WinErrorWindows::ERROR_DS_ROLE_NOT_VERIFIED => Some(8610),
            WinErrorWindows::ERROR_DS_WKO_CONTAINER_CANNOT_BE_SPECIAL => Some(8611),
            WinErrorWindows::ERROR_DS_DOMAIN_RENAME_IN_PROGRESS => Some(8612),
            WinErrorWindows::ERROR_DS_EXISTING_AD_CHILD_NC => Some(8613),
            WinErrorWindows::ERROR_DS_REPL_LIFETIME_EXCEEDED => Some(8614),
            WinErrorWindows::ERROR_DS_DISALLOWED_IN_SYSTEM_CONTAINER => Some(8615),
            WinErrorWindows::ERROR_DS_LDAP_SEND_QUEUE_FULL => Some(8616),
            WinErrorWindows::ERROR_DS_DRA_OUT_SCHEDULE_WINDOW => Some(8617),
            WinErrorWindows::ERROR_DS_POLICY_NOT_KNOWN => Some(8618),
            WinErrorWindows::ERROR_NO_SITE_SETTINGS_OBJECT => Some(8619),
            WinErrorWindows::ERROR_NO_SECRETS => Some(8620),
            WinErrorWindows::ERROR_NO_WRITABLE_DC_FOUND => Some(8621),
            WinErrorWindows::ERROR_DS_NO_SERVER_OBJECT => Some(8622),
            WinErrorWindows::ERROR_DS_NO_NTDSA_OBJECT => Some(8623),
            _ => None,
        }
    }

    /// One slice of the symbol table.
    #[verifier::spinoff_prover]
    #[verifier::rlimit(100)]
    fn from_u32_part44(raw: u32) -> (r: Option<WinErrorWindows>)
        ensures
            r == WinErrorWindows::spec_from_u32_part44(raw),
    {
        match raw {
            8574 => Some(WinErrorWindows::ERROR_DS_INCOMPATIBLE_CONTROLS_USED),
            8575 => Some(WinErrorWindows::ERROR_DS_NO_REF_DOMAIN),
            8576 => Some(WinErrorWindows::ERROR_DS_RESERVED_LINK_ID),
            8577 => Some(WinErrorWindows::ERROR_DS_LINK_ID_NOT_AVAILABLE),
            8578 => Some(WinErrorWindows::ERROR_DS_AG_CANT_HAVE_UNIVERSAL_MEMBER),
            8579 => Some(WinErrorWindows::ERROR_DS_MODIFYDN_DISALLOWED_BY_INSTANCE_TYPE),
            8580 => Some(WinErrorWindows::ERROR_DS_NO_OBJECT_MOVE_IN_SCHEMA_NC),
            8581 => Some(WinErrorWindows::ERROR_DS_MODIFYDN_DISALLOWED_BY_FLAG),
            8582 => Some(WinErrorWindows::ERROR_DS_MODIFYDN_WRONG_GRANDPARENT),
            8583 => Some(WinErrorWindows::ERROR_DS_NAME_ERROR_TRUST_REFERRAL),
            8584 => Some(WinErrorWindows::ERROR_NOT_SUPPORTED_ON_STANDARD_SERVER),
            8585 => Some(WinErrorWindows::ERROR_DS_CANT_ACCESS_REMOTE_PART_OF_AD),
            8586 => Some(WinErrorWindows::ERROR_DS_CR_IMPOSSIBLE_TO_VALIDATE_V2),
            8587 => Some(WinErrorWindows::ERROR_DS_THREAD_LIMIT_EXCEEDED),
            8588 => Some(WinErrorWindows::ERROR_DS_NOT_CLOSEST),
            8589 => Some(WinErrorWindows::ERROR_DS_CANT_DERIVE_SPN_WITHOUT_SERVER_REF),
            8590 => Some(WinErrorWindows::ERROR_DS_SINGLE_USER_MODE_FAILED),
            8591 => Some(WinErrorWindows::ERROR_DS_NTDSCRIPT_SYNTAX_ERROR),
            8592 => Some(WinErrorWindows::ERROR_DS_NTDSCRIPT_PROCESS_ERROR),
            8593 => Some(WinErrorWindows::ERROR_DS_DIFFERENT_REPL_EPOCHS),
            8594 => Some(WinErrorWindows::ERROR_DS_DRS_EXTENSIONS_CHANGED),
            8595 => Some(WinErrorWindows::ERROR_DS_REPLICA_SET_CHANGE_NOT_ALLOWED_ON_DISABLED_CR),
            8596 => Some(WinErrorWindows::ERROR_DS_NO_MSDS_INTID),
            8597 => Some(WinErrorWindows::ERROR_DS_DUP_MSDS_INTID),
            8598 => Some(WinErrorWindows::ERROR_DS_EXISTS_IN_RDNATTID),
            8599 => Some(WinErrorWindows::ERROR_DS_AUTHORIZATION_FAILED),
            8600 => Some(WinErrorWindows::ERROR_DS_INVALID_SCRIPT),
            8601 => Some(WinErrorWindows::ERROR_DS_REMOTE_CROSSREF_OP_FAILED),
            8602 => Some(WinErrorWindows::ERROR_DS_CROSS_REF_BUSY),
            8603 => Some(WinErrorWindows::ERROR_DS_CANT_DERIVE_SPN_FOR_DELETED_DOMAIN),
            8604 => Some(WinErrorWindows::ERROR_DS_CANT_DEMOTE_WITH_WRITEABLE_NC),
            8605 => Some(WinErrorWindows::ERROR_DS_DUPLICATE_ID_FOUND),
            8606 => Some(WinErrorWindows::ERROR_DS_INSUFFICIENT_ATTR_TO_CREATE_OBJECT),
            8607 => Some(WinErrorWindows::ERROR_DS_GROUP_CONVERSION_ERROR),
            8608 => Some(WinErrorWindows::ERROR_DS_CANT_MOVE_APP_BASIC_GROUP),
            8609 => Some(WinErrorWindows::ERROR_DS_CANT_MOVE_APP_QUERY_GROUP),
            8610 => Some(WinErrorWindows::ERROR_DS_ROLE_NOT_VERIFIED),
            8611 => Some(WinErrorWindows::ERROR_DS_WKO_CONTAINER_CANNOT_BE_SPECIAL),
            8612 => Some(WinErrorWindows::ERROR_DS_DOMAIN_RENAME_IN_PROGRESS),
            8613 => Some(WinErrorWindows::ERROR_DS_EXISTING_AD_CHILD_NC),
            8614 => Some(WinErrorWindows::ERROR_DS_REPL_LIFETIME_EXCEEDED),
            8615 => Some(WinErrorWindows::ERROR_DS_DISALLOWED_IN_SYSTEM_CONTAINER),
            8616 => Some(WinErrorWindows::ERROR_DS_LDAP_SEND_QUEUE_FULL),
            8617 => Some(WinErrorWindows::ERROR_DS_DRA_OUT_SCHEDULE_WINDOW),
            8618 => Some(WinErrorWindows::ERROR_DS_POLICY_NOT_KNOWN),
            8619 => Some(WinErrorWindows::ERROR_NO_SITE_SETTINGS_OBJECT),
            8620 => Some(WinErrorWindows::ERROR_NO_SECRETS),
            8621 => Some(WinErrorWindows::ERROR_NO_WRITABLE_DC_FOUND),
            8622 => Some(WinErrorWindows::ERROR_DS_NO_SERVER_OBJECT),
            8623 => Some(WinErrorWindows::ERROR_DS_NO_NTDSA_OBJECT),
            _ => None,
        }
    }

    /// One slice of the symbol table: the raw value of this symbol,
    /// where this slice holds it.
    pub open spec fn spec_to_u32_part45(self) -> Option<u32> {
        match self {
            WinErrorWindows::ERROR_DS_NON_ASQ_SEARCH => Some(8624),
            WinErrorWindows::ERROR_DS_AUDIT_FAILURE => Some(8625),
            WinErrorWindows::ERROR_DS_INVALID_SEARCH_FLAG_SUBTREE => Some(8626),
            WinErrorWindows::ERROR_DS_INVALID_SEARCH_FLAG_TUPLE => Some(8627),
            WinErrorWindows::ERROR_DS_HIERARCHY_TABLE_TOO_DEEP => Some(8628),
            WinErrorWindows::ERROR_DS_DRA_CORRUPT_UTD_VECTOR => Some(8629),
            WinErrorWindows::ERROR_DS_DRA_SECRETS_DENIED => Some(8630),
            WinErrorWindows::ERROR_DS_RESERVED_MAPI_ID => Some(8631),
            WinErrorWindows::ERROR_DS_MAPI_ID_NOT_AVAILABLE => Some(8632),
            WinErrorWindows::ERROR_DS_DRA_MISSING_KRBTGT_SECRET => Some(8633),
            WinErrorWindows::ERROR_DS_DOMAIN_NAME_EXISTS_IN_FOREST => Some(8634),
            WinErrorWindows::ERROR_DS_FLAT_NAME_EXISTS_IN_FOREST => Some(8635),
            WinErrorWindows::ERROR_INVALID_USER_PRINCIPAL_NAME => Some(8636),
            WinErrorWindows::ERROR_DS_OID_MAPPED_GROUP_CANT_HAVE_MEMBERS => Some(8637),
            WinErrorWindows::ERROR_DS_OID_NOT_FOUND => Some(8638),
            WinErrorWindows::ERROR_DS_DRA_RECYCLED_TARGET => Some(8639),
            WinErrorWindows::ERROR_DS_DISALLOWED_NC_REDIRECT => Some(8640),
            WinErrorWindows::ERROR_DS_HIGH_ADLDS_FFL => Some(8641),
            WinErrorWindows::ERROR_DS_HIGH_DSA_VERSION => Some(8642),
            WinErrorWindows::ERROR_DS_LOW_ADLDS_FFL => Some(8643),
            WinErrorWindows::ERROR_DOMAIN_SID_SAME_AS_LOCAL_WORKSTATION => Some(8644),
            WinErrorWindows::ERROR_DS_UNDELETE_SAM_VALIDATION_FAILED => Some(8645),
            WinErrorWindows::ERROR_INCORRECT_ACCOUNT_TYPE => Some(8646),
            WinErrorWindows::ERROR_DS_SPN_VALUE_NOT_UNIQUE_IN_FOREST => Some(8647),
            WinErrorWindows::ERROR_DS_UPN_VALUE_NOT_UNIQUE_IN_FOREST => Some(8648),
            WinErrorWindows::ERROR_DS_MISSING_FOREST_TRUST => Some(8649),
            WinErrorWindows::ERROR_DS_VALUE_KEY_NOT_UNIQUE => Some(8650),
            WinErrorWindows::ERROR_IPSEC_QM_POLICY_EXISTS => Some(13000),
            WinErrorWindows::ERROR_IPSEC_QM_POLICY_NOT_FOUND => Some(13001),
            WinErrorWindows::ERROR_IPSEC_QM_POLICY_IN_USE => Some(13002),
            WinErrorWindows::ERROR_IPSEC_MM_POLICY_EXISTS => Some(13003),
            WinErrorWindows::ERROR_IPSEC_MM_POLICY_NOT_FOUND => Some(13004),
            WinErrorWindows::ERROR_IPSEC_MM_POLICY_IN_USE => Some(13005),
            WinErrorWindows::ERROR_IPSEC_MM_FILTER_EXISTS => Some(13006),
            WinErrorWindows::ERROR_IPSEC_MM_FILTER_NOT_FOUND => Some(13007),
            WinErrorWindows::ERROR_IPSEC_TRANSPORT_FILTER_EXISTS => Some(13008),
            WinErrorWindows::ERROR_IPSEC_TRANSPORT_FILTER_NOT_FOUND => Some(13009),
            WinErrorWindows::ERROR_IPSEC_MM_AUTH_EXISTS => Some(13010),
            WinErrorWindows::ERROR_IPSEC_MM_AUTH_NOT_FOUND => Some(13011),
            WinErrorWindows::ERROR_IPSEC_MM_AUTH_IN_USE => Some(13012),
            WinErrorWindows::ERROR_IPSEC_DEFAULT_MM_POLICY_NOT_FOUND => Some(13013),
            WinErrorWindows::ERROR_IPSEC_DEFAULT_MM_AUTH_NOT_FOUND => Some(13014),
            WinErrorWindows::ERROR_IPSEC_DEFAULT_QM_POLICY_NOT_FOUND => Some(13015),
            WinErrorWindows::ERROR_IPSEC_TUNNEL_FILTER_EXISTS => Some(13016),
            WinErrorWindows::ERROR_IPSEC_TUNNEL_FILTER_NOT_FOUND => Some(13017),
            WinErrorWindows::ERROR_IPSEC_MM_FILTER_PENDING_DELETION => Some(13018),
            WinErrorWindows::ERROR_IPSEC_TRANSPORT_FILTER_PENDING_DELETION => Some(13019),
            WinErrorWindows::ERROR_IPSEC_TUNNEL_FILTER_PENDING_DELETION => Some(13020),
            WinErrorWindows::ERROR_IPSEC_MM_POLICY_PENDING_DELETION => Some(13021),
            WinErrorWindows::ERROR_IPSEC_MM_AUTH_PENDING_DELETION => Some(13022),
            _ => None,
        }
    }

    /// One slice of the symbol table: the symbol this slice gives a
    /// raw value, where it holds one.
    pub open spec fn spec_from_u32_part45(raw: u32) -> Option<WinErrorWindows> {
        match raw {
            8624 => Some(WinErrorWindows::ERROR_DS_NON_ASQ_SEARCH),
            8625 => Some(WinErrorWindows::ERROR_DS_AUDIT_FAILURE),
            8626 => Some(WinErrorWindows::ERROR_DS_INVALID_SEARCH_FLAG_SUBTREE),
            8627 => Some(WinErrorWindows::ERROR_DS_INVALID_SEARCH_FLAG_TUPLE),
            8628 => Some(WinErrorWindows::ERROR_DS_HIERARCHY_TABLE_TOO_DEEP),
            8629 => Some(WinErrorWindows::ERROR_DS_DRA_CORRUPT_UTD_VECTOR),
            8630 => Some(WinErrorWindows::ERROR_DS_DRA_SECRETS_DENIED),
            8631 => Some(WinErrorWindows::ERROR_DS_RESERVED_MAPI_ID),
            8632 => Some(WinErrorWindows::ERROR_DS_MAPI_ID_NOT_AVAILABLE),
            8633 => Some(WinErrorWindows::ERROR_DS_DRA_MISSING_KRBTGT_SECRET),
            8634 => Some(WinErrorWindows::ERROR_DS_DOMAIN_NAME_EXISTS_IN_FOREST),
            8635 => Some(WinErrorWindows::ERROR_DS_FLAT_NAME_EXISTS_IN_FOREST),
            8636 => Some(WinErrorWindows::ERROR_INVALID_USER_PRINCIPAL_NAME),
            8637 => Some(WinErrorWindows::ERROR_DS_OID_MAPPED_GROUP_CANT_HAVE_MEMBERS),
            8638 => Some(WinErrorWindows::ERROR_DS_OID_NOT_FOUND),
            8639 => Some(WinErrorWindows::ERROR_DS_DRA_RECYCLED_TARGET),
            8640 => Some(WinErrorWindows::ERROR_DS_DISALLOWED_NC_REDIRECT),
            8641 => Some(WinErrorWindows::ERROR_DS_HIGH_ADLDS_FFL),
            8642 => Some(WinErrorWindows::ERROR_DS_HIGH_DSA_VERSION),
            8643 => Some(WinErrorWindows::ERROR_DS_LOW_ADLDS_FFL),
            8644 => Some(WinErrorWindows::ERROR_DOMAIN_SID_SAME_AS_LOCAL_WORKSTATION),
            8645 => Some(WinErrorWindows::ERROR_DS_UNDELETE_SAM_VALIDATION_FAILED),
            8646 => Some(WinErrorWindows::ERROR_INCORRECT_ACCOUNT_TYPE),
            8647 => Some(WinErrorWindows::ERROR_DS_SPN_VALUE_NOT_UNIQUE_IN_FOREST),
            8648 => Some(WinErrorWindows::ERROR_DS_UPN_VALUE_NOT_UNIQUE_IN_FOREST),
            8649 => Some(WinErrorWindows::ERROR_DS_MISSING_FOREST_TRUST),
            8650 => Some(WinErrorWindows::ERROR_DS_VALUE_KEY_NOT_UNIQUE),
            13000 => Some(WinErrorWindows::ERROR_IPSEC_QM_POLICY_EXISTS),
            13001 => Some(WinErrorWindows::ERROR_IPSEC_QM_POLICY_NOT_FOUND),
            13002 => Some(WinErrorWindows::ERROR_IPSEC_QM_POLICY_IN_USE),
            13003 => Some(WinErrorWindows::ERROR_IPSEC_MM_POLICY_EXISTS),
            13004 => Some(WinErrorWindows::ERROR_IPSEC_MM_POLICY_NOT_FOUND),
            13005 => Some(WinErrorWindows::ERROR_IPSEC_MM_POLICY_IN_USE),
            13006 => Some(WinErrorWindows::ERROR_IPSEC_MM_FILTER_EXISTS),
            13007 => Some(WinErrorWindows::ERROR_IPSEC_MM_FILTER_NOT_FOUND),
            13008 => Some(WinErrorWindows::ERROR_IPSEC_TRANSPORT_FILTER_EXISTS),
            13009 => Some(WinErrorWindows::ERROR_IPSEC_TRANSPORT_FILTER_NOT_FOUND),
            13010 => Some(WinErrorWindows::ERROR_IPSEC_MM_AUTH_EXISTS),
            13011 => Some(WinErrorWindows::ERROR_IPSEC_MM_AUTH_NOT_FOUND),
            13012 => Some(WinErrorWindows::ERROR_IPSEC_MM_AUTH_IN_USE),
            13013 => Some(WinErrorWindows::ERROR_IPSEC_DEFAULT_MM_POLICY_NOT_FOUND),
            13014 => Some(WinErrorWindows::ERROR_IPSEC_DEFAULT_MM_AUTH_NOT_FOUND),
            13015 => Some(WinErrorWindows::ERROR_IPSEC_DEFAULT_QM_POLICY_NOT_FOUND),
            13016 => Some(WinErrorWindows::ERROR_IPSEC_TUNNEL_FILTER_EXISTS),
            13017 => Some(WinErrorWindows::ERROR_IPSEC_TUNNEL_FILTER_NOT_FOUND),
            13018 => Some(WinErrorWindows::ERROR_IPSEC_MM_FILTER_PENDING_DELETION),
            13019 => Some(WinErrorWindows::ERROR_IPSEC_TRANSPORT_FILTER_PENDING_DELETION),
            13020 => Some(WinErrorWindows::ERROR_IPSEC_TUNNEL_FILTER_PENDING_DELETION),
            13021 => Some(WinErrorWindows::ERROR_IPSEC_MM_POLICY_PENDING_DELETION),
            13022 => Some(WinErrorWindows::ERROR_IPSEC_MM_AUTH_PENDING_DELETION),
            _ => None,
        }
    }

    /// One slice of the symbol table.
    #[verifier::spinoff_prover]
    #[verifier::rlimit(100)]
    fn to_u32_part45(self) -> (r: Option<u32>)
        ensures
            r == self.spec_to_u32_part45(),
    {
        match self {
            WinErrorWindows::ERROR_DS_NON_ASQ_SEARCH => Some(8624),
            WinErrorWindows::ERROR_DS_AUDIT_FAILURE => Some(8625),
            WinErrorWindows::ERROR_DS_INVALID_SEARCH_FLAG_SUBTREE => Some(8626),
            WinErrorWindows::ERROR_DS_INVALID_SEARCH_FLAG_TUPLE => Some(8627),
            WinErrorWindows::ERROR_DS_HIERARCHY_TABLE_TOO_DEEP => Some(8628),
            WinErrorWindows::ERROR_DS_DRA_CORRUPT_UTD_VECTOR => Some(8629),
            WinErrorWindows::ERROR_DS_DRA_SECRETS_DENIED => Some(8630),
            WinErrorWindows::ERROR_DS_RESERVED_MAPI_ID => Some(8631),
            WinErrorWindows::ERROR_DS_MAPI_ID_NOT_AVAILABLE => Some(8632),
            WinErrorWindows::ERROR_DS_DRA_MISSING_KRBTGT_SECRET => Some(8633),
            WinErrorWindows::ERROR_DS_DOMAIN_NAME_EXISTS_IN_FOREST => Some(8634),
            WinErrorWindows::ERROR_DS_FLAT_NAME_EXISTS_IN_FOREST => Some(8635),
            WinErrorWindows::ERROR_INVALID_USER_PRINCIPAL_NAME => Some(8636),
            WinErrorWindows::ERROR_DS_OID_MAPPED_GROUP_CANT_HAVE_MEMBERS => Some(8637),
            WinErrorWindows::ERROR_DS_OID_NOT_FOUND => Some(8638),
            WinErrorWindows::ERROR_DS_DRA_RECYCLED_TARGET => Some(8639),
            WinErrorWindows::ERROR_DS_DISALLOWED_NC_REDIRECT => Some(8640),
            WinErrorWindows::ERROR_DS_HIGH_ADLDS_FFL => Some(8641),
            WinErrorWindows::ERROR_DS_HIGH_DSA_VERSION => Some(8642),
            WinErrorWindows::ERROR_DS_LOW_ADLDS_FFL => Some(8643),
            WinErrorWindows::ERROR_DOMAIN_SID_SAME_AS_LOCAL_WORKSTATION => Some(8644),
            WinErrorWindows::ERROR_DS_UNDELETE_SAM_VALIDATION_FAILED => Some(8645),
            WinErrorWindows::ERROR_INCORRECT_ACCOUNT_TYPE => Some(8646),
            WinErrorWindows::ERROR_DS_SPN_VALUE_NOT_UNIQUE_IN_FOREST => Some(8647),
            WinErrorWindows::ERROR_DS_UPN_VALUE_NOT_UNIQUE_IN_FOREST => Some(8648),
            WinErrorWindows::ERROR_DS_MISSING_FOREST_TRUST => Some(8649),
            WinErrorWindows::ERROR_DS_VALUE_KEY_NOT_UNIQUE => Some(8650),
            WinErrorWindows::ERROR_IPSEC_QM_POLICY_EXISTS => Some(13000),
            WinErrorWindows::ERROR_IPSEC_QM_POLICY_NOT_FOUND => Some(13001),
            WinErrorWindows::ERROR_IPSEC_QM_POLICY_IN_USE => Some(13002),
            WinErrorWindows::ERROR_IPSEC_MM_POLICY_EXISTS => Some(13003),
            WinErrorWindows::ERROR_IPSEC_MM_POLICY_NOT_FOUND => Some(13004),
            WinErrorWindows::ERROR_IPSEC_MM_POLICY_IN_USE => Some(13005),
            WinErrorWindows::ERROR_IPSEC_MM_FILTER_EXISTS => Some(13006),
            WinErrorWindows::ERROR_IPSEC_MM_FILTER_NOT_FOUND => Some(13007),
            WinErrorWindows::ERROR_IPSEC_TRANSPORT_FILTER_EXISTS => Some(13008),
            WinErrorWindows::ERROR_IPSEC_TRANSPORT_FILTER_NOT_FOUND => Some(13009),
            WinErrorWindows::ERROR_IPSEC_MM_AUTH_EXISTS => Some(13010),
            WinErrorWindows::ERROR_IPSEC_MM_AUTH_NOT_FOUND => Some(13011),
            WinErrorWindows::ERROR_IPSEC_MM_AUTH_IN_USE => Some(13012),
            WinErrorWindows::ERROR_IPSEC_DEFAULT_MM_POLICY_NOT_FOUND => Some(13013),
            WinErrorWindows::ERROR_IPSEC_DEFAULT_MM_AUTH_NOT_FOUND => Some(13014),
            WinErrorWindows::ERROR_IPSEC_DEFAULT_QM_POLICY_NOT_FOUND => Some(13015),
            WinErrorWindows::ERROR_IPSEC_TUNNEL_FILTER_EXISTS => Some(13016),
            WinErrorWindows::ERROR_IPSEC_TUNNEL_FILTER_NOT_FOUND => Some(13017),
            WinErrorWindows::ERROR_IPSEC_MM_FILTER_PENDING_DELETION => Some(13018),
            WinErrorWindows::ERROR_IPSEC_TRANSPORT_FILTER_PENDING_DELETION => Some(13019),
            WinErrorWindows::ERROR_IPSEC_TUNNEL_FILTER_PENDING_DELETION => Some(13020),
            WinErrorWindows::ERROR_IPSEC_MM_POLICY_PENDING_DELETION => Some(13021),
            WinErrorWindows::ERROR_IPSEC_MM_AUTH_PENDING_DELETION => Some(13022),
            _ => None,
        }
    }

    /// One slice of the symbol table.
    #[verifier::spinoff_prover]
    #[verifier::rlimit(100)]
    fn from_u32_part45(raw: u32) -> (r: Option<WinErrorWindows>)
        ensures
            r == WinErrorWindows::spec_from_u32_part45(raw),
    {
        match raw {
            8624 => Some(WinErrorWindows::ERROR_DS_NON_ASQ_SEARCH),
            8625 => Some(WinErrorWindows::ERROR_DS_AUDIT_FAILURE),
            8626 => Some(WinErrorWindows::ERROR_DS_INVALID_SEARCH_FLAG_SUBTREE),
            8627 => Some(WinErrorWindows::ERROR_DS_INVALID_SEARCH_FLAG_TUPLE),
            8628 => Some(WinErrorWindows::ERROR_DS_HIERARCHY_TABLE_TOO_DEEP),
            8629 => Some(WinErrorWindows::ERROR_DS_DRA_CORRUPT_UTD_VECTOR),
            8630 => Some(WinErrorWindows::ERROR_DS_DRA_SECRETS_DENIED),
            8631 => Some(WinErrorWindows::ERROR_DS_RESERVED_MAPI_ID),
            8632 => Some(WinErrorWindows::ERROR_DS_MAPI_ID_NOT_AVAILABLE),
            8633 => Some(WinErrorWindows::ERROR_DS_DRA_MISSING_KRBTGT_SECRET),
            8634 => Some(WinErrorWindows::ERROR_DS_DOMAIN_NAME_EXISTS_IN_FOREST),
            8635 => Some(WinErrorWindows::ERROR_DS_FLAT_NAME_EXISTS_IN_FOREST),
            8636 => Some(WinErrorWindows::ERROR_INVALID_USER_PRINCIPAL_NAME),
            8637 => Some(WinErrorWindows::ERROR_DS_OID_MAPPED_GROUP_CANT_HAVE_MEMBERS),
            8638 => Some(WinErrorWindows::ERROR_DS_OID_NOT_FOUND),
            8639 => Some(WinErrorWindows::ERROR_DS_DRA_RECYCLED_TARGET),
            8640 => Some(WinErrorWindows::ERROR_DS_DISALLOWED_NC_REDIRECT),
            8641 => Some(WinErrorWindows::ERROR_DS_HIGH_ADLDS_FFL),
            8642 => Some(WinErrorWindows::ERROR_DS_HIGH_DSA_VERSION),
            8643 => Some(WinErrorWindows::ERROR_DS_LOW_ADLDS_FFL),
            8644 => Some(WinErrorWindows::ERROR_DOMAIN_SID_SAME_AS_LOCAL_WORKSTATION),
            8645 => Some(WinErrorWindows::ERROR_DS_UNDELETE_SAM_VALIDATION_FAILED),
            8646 => Some(WinErrorWindows::ERROR_INCORRECT_ACCOUNT_TYPE),
            8647 => Some(WinErrorWindows::ERROR_DS_SPN_VALUE_NOT_UNIQUE_IN_FOREST),
            8648 => Some(WinErrorWindows::ERROR_DS_UPN_VALUE_NOT_UNIQUE_IN_FOREST),
            8649 => Some(WinErrorWindows::ERROR_DS_MISSING_FOREST_TRUST),
            8650 => Some(WinErrorWindows::ERROR_DS_VALUE_KEY_NOT_UNIQUE),
            13000 => Some(WinErrorWindows::ERROR_IPSEC_QM_POLICY_EXISTS),
            13001 => Some(WinErrorWindows::ERROR_IPSEC_QM_POLICY_NOT_FOUND),
            13002 => Some(WinErrorWindows::ERROR_IPSEC_QM_POLICY_IN_USE),
            13003 => Some(WinErrorWindows::ERROR_IPSEC_MM_POLICY_EXISTS),
            13004 => Some(WinErrorWindows::ERROR_IPSEC_MM_POLICY_NOT_FOUND),
            13005 => Some(WinErrorWindows::ERROR_IPSEC_MM_POLICY_IN_USE),
            13006 => Some(WinErrorWindows::ERROR_IPSEC_MM_FILTER_EXISTS),
            13007 => Some(WinErrorWindows::ERROR_IPSEC_MM_FILTER_NOT_FOUND),
            13008 => Some(WinErrorWindows::ERROR_IPSEC_TRANSPORT_FILTER_EXISTS),
            13009 => Some(WinErrorWindows::ERROR_IPSEC_TRANSPORT_FILTER_NOT_FOUND),
            13010 => Some(WinErrorWindows::ERROR_IPSEC_MM_AUTH_EXISTS),
            13011 => Some(WinErrorWindows::ERROR_IPSEC_MM_AUTH_NOT_FOUND),
            13012 => Some(WinErrorWindows::ERROR_IPSEC_MM_AUTH_IN_USE),
            13013 => Some(WinErrorWindows::ERROR_IPSEC_DEFAULT_MM_POLICY_NOT_FOUND),
            13014 => Some(WinErrorWindows::ERROR_IPSEC_DEFAULT_MM_AUTH_NOT_FOUND),
            13015 => Some(WinErrorWindows::ERROR_IPSEC_DEFAULT_QM_POLICY_NOT_FOUND),
            13016 => Some(WinErrorWindows::ERROR_IPSEC_TUNNEL_FILTER_EXISTS),
            13017 => Some(WinErrorWindows::ERROR_IPSEC_TUNNEL_FILTER_NOT_FOUND),
            13018 => Some(WinErrorWindows::ERROR_IPSEC_MM_FILTER_PENDING_DELETION),
            13019 => Some(WinErrorWindows::ERROR_IPSEC_TRANSPORT_FILTER_PENDING_DELETION),
            13020 => Some(WinErrorWindows::ERROR_IPSEC_TUNNEL_FILTER_PENDING_DELETION),
            13021 => Some(WinErrorWindows::ERROR_IPSEC_MM_POLICY_PENDING_DELETION),
            13022 => Some(WinErrorWindows::ERROR_IPSEC_MM_AUTH_PENDING_DELETION),
            _ => None,
        }
    }

    /// One slice of the symbol table: the raw value of this symbol,
    /// where this slice holds it.
    pub open spec fn spec_to_u32_part46(self) -> Option<u32> {
        match self {
            WinErrorWindows::ERROR_IPSEC_QM_POLICY_PENDING_DELETION => Some(13023),
            WinErrorWindows::ERROR_IPSEC_IKE_NEG_STATUS_BEGIN => Some(13800),
            WinErrorWindows::ERROR_IPSEC_IKE_AUTH_FAIL => Some(13801),
            WinErrorWindows::ERROR_IPSEC_IKE_ATTRIB_FAIL => Some(13802),
            WinErrorWindows::ERROR_IPSEC_IKE_NEGOTIATION_PENDING => Some(13803),
            WinErrorWindows::ERROR_IPSEC_IKE_GENERAL_PROCESSING_ERROR => Some(13804),
            WinErrorWindows::ERROR_IPSEC_IKE_TIMED_OUT => Some(13805),
            WinErrorWindows::ERROR_IPSEC_IKE_NO_CERT => Some(13806),
            WinErrorWindows::ERROR_IPSEC_IKE_SA_DELETED => Some(13807),
            WinErrorWindows::ERROR_IPSEC_IKE_SA_REAPED => Some(13808),
            WinErrorWindows::ERROR_IPSEC_IKE_MM_ACQUIRE_DROP => Some(13809),
            WinErrorWindows::ERROR_IPSEC_IKE_QM_ACQUIRE_DROP => Some(13810),
            WinErrorWindows::ERROR_IPSEC_IKE_QUEUE_DROP_MM => Some(13811),
            WinErrorWindows::ERROR_IPSEC_IKE_QUEUE_DROP_NO_MM => Some(13812),
            WinErrorWindows::ERROR_IPSEC_IKE_DROP_NO_RESPONSE => Some(13813),
            WinErrorWindows::ERROR_IPSEC_IKE_MM_DELAY_DROP => Some(13814),
            WinErrorWindows::ERROR_IPSEC_IKE_QM_DELAY_DROP => Some(13815),
            WinErrorWindows::ERROR_IPSEC_IKE_ERROR => Some(13816),
            WinErrorWindows::ERROR_IPSEC_IKE_CRL_FAILED => Some(13817),
            WinErrorWindows::ERROR_IPSEC_IKE_INVALID_KEY_USAGE => Some(13818),
            WinErrorWindows::ERROR_IPSEC_IKE_INVALID_CERT_TYPE => Some(13819),
            WinErrorWindows::ERROR_IPSEC_IKE_NO_PRIVATE_KEY => Some(13820),
            WinErrorWindows::ERROR_IPSEC_IKE_SIMULTANEOUS_REKEY => Some(13821),
            WinErrorWindows::ERROR_IPSEC_IKE_DH_FAIL => Some(13822),
            WinErrorWindows::ERROR_IPSEC_IKE_CRITICAL_PAYLOAD_NOT_RECOGNIZED => Some(13823),
            WinErrorWindows::ERROR_IPSEC_IKE_INVALID_HEADER => Some(13824),
            WinErrorWindows::ERROR_IPSEC_IKE_NO_POLICY => Some(13825),
            WinErrorWindows::ERROR_IPSEC_IKE_INVALID_SIGNATURE => Some(13826),
            WinErrorWindows::ERROR_IPSEC_IKE_KERBEROS_ERROR => Some(13827),
            WinErrorWindows::ERROR_IPSEC_IKE_NO_PUBLIC_KEY => Some(13828),
            WinErrorWindows::ERROR_IPSEC_IKE_PROCESS_ERR => Some(13829),
            WinErrorWindows::ERROR_IPSEC_IKE_PROCESS_ERR_SA => Some(13830),
            WinErrorWindows::ERROR_IPSEC_IKE_PROCESS_ERR_PROP => Some(13831),
            WinErrorWindows::ERROR_IPSEC_IKE_PROCESS_ERR_TRANS => Some(13832),
            WinErrorWindows::ERROR_IPSEC_IKE_PROCESS_ERR_KE => Some(13833),
            WinErrorWindows::ERROR_IPSEC_IKE_PROCESS_ERR_ID => Some(13834),
            WinErrorWindows::ERROR_IPSEC_IKE_PROCESS_ERR_CERT => Some(13835),
            WinErrorWindows::ERROR_IPSEC_IKE_PROCESS_ERR_CERT_REQ => Some(13836),
            WinErrorWindows::ERROR_IPSEC_IKE_PROCESS_ERR_HASH => Some(13837),
            WinErrorWindows::ERROR_IPSEC_IKE_PROCESS_ERR_SIG => Some(13838),
            WinErrorWindows::ERROR_IPSEC_IKE_PROCESS_ERR_NONCE => Some(13839),
            WinErrorWindows::ERROR_IPSEC_IKE_PROCESS_ERR_NOTIFY => Some(13840),
            WinErrorWindows::ERROR_IPSEC_IKE_PROCESS_ERR_DELETE => Some(13841),
            WinErrorWindows::ERROR_IPSEC_IKE_PROCESS_ERR_VENDOR => Some(13842),
            WinErrorWindows::ERROR_IPSEC_IKE_INVALID_PAYLOAD => Some(13843),
            WinErrorWindows::ERROR_IPSEC_IKE_LOAD_SOFT_SA => Some(13844),
            WinErrorWindows::ERROR_IPSEC_IKE_SOFT_SA_TORN_DOWN => Some(13845),
            WinErrorWindows::ERROR_IPSEC_IKE_INVALID_COOKIE => Some(13846),
            WinErrorWindows::ERROR_IPSEC_IKE_NO_PEER_CERT => Some(13847),
            WinErrorWindows::ERROR_IPSEC_IKE_PEER_CRL_FAILED => Some(13848),
            _ => None,
        }
    }

    /// One slice of the symbol table: the symbol this slice gives a
    /// raw value, where it holds one.
    pub open spec fn spec_from_u32_part46(raw: u32) -> Option<WinErrorWindows> {
        match raw {
            13023 => Some(WinErrorWindows::ERROR_IPSEC_QM_POLICY_PENDING_DELETION),
            13800 => Some(WinErrorWindows::ERROR_IPSEC_IKE_NEG_STATUS_BEGIN),
            13801 => Some(WinErrorWindows::ERROR_IPSEC_IKE_AUTH_FAIL),
            13802 => Some(WinErrorWindows::ERROR_IPSEC_IKE_ATTRIB_FAIL),
            13803 => Some(WinErrorWindows::ERROR_IPSEC_IKE_NEGOTIATION_PENDING),
            13804 => Some(WinErrorWindows::ERROR_IPSEC_IKE_GENERAL_PROCESSING_ERROR),
            13805 => Some(WinErrorWindows::ERROR_IPSEC_IKE_TIMED_OUT),
            13806 => Some(WinErrorWindows::ERROR_IPSEC_IKE_NO_CERT),
            13807 => Some(WinErrorWindows::ERROR_IPSEC_IKE_SA_DELETED),
            13808 => Some(WinErrorWindows::ERROR_IPSEC_IKE_SA_REAPED),
            13809 => Some(WinErrorWindows::ERROR_IPSEC_IKE_MM_ACQUIRE_DROP),
            13810 => Some(WinErrorWindows::ERROR_IPSEC_IKE_QM_ACQUIRE_DROP),
            13811 => Some(WinErrorWindows::ERROR_IPSEC_IKE_QUEUE_DROP_MM),
            13812 => Some(WinErrorWindows::ERROR_IPSEC_IKE_QUEUE_DROP_NO_MM),
            13813 => Some(WinErrorWindows::ERROR_IPSEC_IKE_DROP_NO_RESPONSE),
            13814 => Some(WinErrorWindows::ERROR_IPSEC_IKE_MM_DELAY_DROP),
            13815 => Some(WinErrorWindows::ERROR_IPSEC_IKE_QM_DELAY_DROP),
            13816 => Some(WinErrorWindows::ERROR_IPSEC_IKE_ERROR),
            13817 => Some(WinErrorWindows::ERROR_IPSEC_IKE_CRL_FAILED),
            13818 => Some(WinErrorWindows::ERROR_IPSEC_IKE_INVALID_KEY_USAGE),
            13819 => Some(WinErrorWindows::ERROR_IPSEC_IKE_INVALID_CERT_TYPE),
            13820 => Some(WinErrorWindows::ERROR_IPSEC_IKE_NO_PRIVATE_KEY),
            13821 => Some(WinErrorWindows::ERROR_IPSEC_IKE_SIMULTANEOUS_REKEY),
            13822 => Some(WinErrorWindows::ERROR_IPSEC_IKE_DH_FAIL),
            13823 => Some(WinErrorWindows::ERROR_IPSEC_IKE_CRITICAL_PAYLOAD_NOT_RECOGNIZED),
            13824 => Some(WinErrorWindows::ERROR_IPSEC_IKE_INVALID_HEADER),
            13825 => Some(WinErrorWindows::ERROR_IPSEC_IKE_NO_POLICY),
            13826 => Some(WinErrorWindows::ERROR_IPSEC_IKE_INVALID_SIGNATURE),
            13827 => Some(WinErrorWindows::ERROR_IPSEC_IKE_KERBEROS_ERROR),
            13828 => Some(WinErrorWindows::ERROR_IPSEC_IKE_NO_PUBLIC_KEY),
            13829 => Some(WinErrorWindows::ERROR_IPSEC_IKE_PROCESS_ERR),
            13830 => Some(WinErrorWindows::ERROR_IPSEC_IKE_PROCESS_ERR_SA),
            13831 => Some(WinErrorWindows::ERROR_IPSEC_IKE_PROCESS_ERR_PROP),
            13832 => Some(WinErrorWindows::ERROR_IPSEC_IKE_PROCESS_ERR_TRANS),
            13833 => Some(WinErrorWindows::ERROR_IPSEC_IKE_PROCESS_ERR_KE),
            13834 => Some(WinErrorWindows::ERROR_IPSEC_IKE_PROCESS_ERR_ID),
            13835 => Some(WinErrorWindows::ERROR_IPSEC_IKE_PROCESS_ERR_CERT),
            13836 => Some(WinErrorWindows::ERROR_IPSEC_IKE_PROCESS_ERR_CERT_REQ),
            13837 => Some(WinErrorWindows::ERROR_IPSEC_IKE_PROCESS_ERR_HASH),
            13838 => Some(WinErrorWindows::ERROR_IPSEC_IKE_PROCESS_ERR_SIG),
            13839 => Some(WinErrorWindows::ERROR_IPSEC_IKE_PROCESS_ERR_NONCE),
            13840 => Some(WinErrorWindows::ERROR_IPSEC_IKE_PROCESS_ERR_NOTIFY),
            13841 => Some(WinErrorWindows::ERROR_IPSEC_IKE_PROCESS_ERR_DELETE),
            13842 => Some(WinErrorWindows::ERROR_IPSEC_IKE_PROCESS_ERR_VENDOR),
            13843 => Some(WinErrorWindows::ERROR_IPSEC_IKE_INVALID_PAYLOAD),
            13844 => Some(WinErrorWindows::ERROR_IPSEC_IKE_LOAD_SOFT_SA),
            13845 => Some(WinErrorWindows::ERROR_IPSEC_IKE_SOFT_SA_TORN_DOWN),
            13846 => Some(WinErrorWindows::ERROR_IPSEC_IKE_INVALID_COOKIE),
            13847 => Some(WinErrorWindows::ERROR_IPSEC_IKE_NO_PEER_CERT),
            13848 => Some(WinErrorWindows::ERROR_IPSEC_IKE_PEER_CRL_FAILED),
            _ => None,
        }
    }

    /// One slice of the symbol table.
    #[verifier::spinoff_prover]
    #[verifier::rlimit(100)]
    fn to_u32_part46(self) -> (r: Option<u32>)
        ensures
            r == self.spec_to_u32_part46(),
    {
        match self {
            WinErrorWindows::ERROR_IPSEC_QM_POLICY_PENDING_DELETION => Some(13023),
            WinErrorWindows::ERROR_IPSEC_IKE_NEG_STATUS_BEGIN => Some(13800),
            WinErrorWindows::ERROR_IPSEC_IKE_AUTH_FAIL => Some(13801),
            WinErrorWindows::ERROR_IPSEC_IKE_ATTRIB_FAIL => Some(13802),
            WinErrorWindows::ERROR_IPSEC_IKE_NEGOTIATION_PENDING => Some(13803),
            WinErrorWindows::ERROR_IPSEC_IKE_GENERAL_PROCESSING_ERROR => Some(13804),
            WinErrorWindows::ERROR_IPSEC_IKE_TIMED_OUT => Some(13805),
            WinErrorWindows::ERROR_IPSEC_IKE_NO_CERT => Some(13806),
            WinErrorWindows::ERROR_IPSEC_IKE_SA_DELETED => Some(13807),
            WinErrorWindows::ERROR_IPSEC_IKE_SA_REAPED => Some(13808),
            WinErrorWindows::ERROR_IPSEC_IKE_MM_ACQUIRE_DROP => Some(13809),
            WinErrorWindows::ERROR_IPSEC_IKE_QM_ACQUIRE_DROP => Some(13810),
            WinErrorWindows::ERROR_IPSEC_IKE_QUEUE_DROP_MM => Some(13811),
            WinErrorWindows::ERROR_IPSEC_IKE_QUEUE_DROP_NO_MM => Some(13812),
            WinErrorWindows::ERROR_IPSEC_IKE_DROP_NO_RESPONSE => Some(13813),
            WinErrorWindows::ERROR_IPSEC_IKE_MM_DELAY_DROP => Some(13814),
            WinErrorWindows::ERROR_IPSEC_IKE_QM_DELAY_DROP => Some(13815),
            WinErrorWindows::ERROR_IPSEC_IKE_ERROR => Some(13816),
            WinErrorWindows::ERROR_IPSEC_IKE_CRL_FAILED => Some(13817),
            WinErrorWindows::ERROR_IPSEC_IKE_INVALID_KEY_USAGE => Some(13818),
            WinErrorWindows::ERROR_IPSEC_IKE_INVALID_CERT_TYPE => Some(13819),
            WinErrorWindows::ERROR_IPSEC_IKE_NO_PRIVATE_KEY => Some(13820),
            WinErrorWindows::ERROR_IPSEC_IKE_SIMULTANEOUS_REKEY => Some(13821),
            WinErrorWindows::ERROR_IPSEC_IKE_DH_FAIL => Some(13822),
            WinErrorWindows::ERROR_IPSEC_IKE_CRITICAL_PAYLOAD_NOT_RECOGNIZED => Some(13823),
            WinErrorWindows::ERROR_IPSEC_IKE_INVALID_HEADER => Some(13824),
            WinErrorWindows::ERROR_IPSEC_IKE_NO_POLICY => Some(13825),
            WinErrorWindows::ERROR_IPSEC_IKE_INVALID_SIGNATURE => Some(13826),
            WinErrorWindows::ERROR_IPSEC_IKE_KERBEROS_ERROR => Some(13827),
            WinErrorWindows::ERROR_IPSEC_IKE_NO_PUBLIC_KEY => Some(13828),
            WinErrorWindows::ERROR_IPSEC_IKE_PROCESS_ERR => Some(13829),
            WinErrorWindows::ERROR_IPSEC_IKE_PROCESS_ERR_SA => Some(13830),
            WinErrorWindows::ERROR_IPSEC_IKE_PROCESS_ERR_PROP => Some(13831),
            WinErrorWindows::ERROR_IPSEC_IKE_PROCESS_ERR_TRANS => Some(13832),
            WinErrorWindows::ERROR_IPSEC_IKE_PROCESS_ERR_KE => Some(13833),
            WinErrorWindows::ERROR_IPSEC_IKE_PROCESS_ERR_ID => Some(13834),
            WinErrorWindows::ERROR_IPSEC_IKE_PROCESS_ERR_CERT => Some(13835),
            WinErrorWindows::ERROR_IPSEC_IKE_PROCESS_ERR_CERT_REQ => Some(13836),
            WinErrorWindows::ERROR_IPSEC_IKE_PROCESS_ERR_HASH => Some(13837),
            WinErrorWindows::ERROR_IPSEC_IKE_PROCESS_ERR_SIG => Some(13838),
            WinErrorWindows::ERROR_IPSEC_IKE_PROCESS_ERR_NONCE => Some(13839),
            WinErrorWindows::ERROR_IPSEC_IKE_PROCESS_ERR_NOTIFY => Some(13840),
            WinErrorWindows::ERROR_IPSEC_IKE_PROCESS_ERR_DELETE => Some(13841),
            WinErrorWindows::ERROR_IPSEC_IKE_PROCESS_ERR_VENDOR => Some(13842),
            WinErrorWindows::ERROR_IPSEC_IKE_INVALID_PAYLOAD => Some(13843),
            WinErrorWindows::ERROR_IPSEC_IKE_LOAD_SOFT_SA => Some(13844),
            WinErrorWindows::ERROR_IPSEC_IKE_SOFT_SA_TORN_DOWN => Some(13845),
            WinErrorWindows::ERROR_IPSEC_IKE_INVALID_COOKIE => Some(13846),
            WinErrorWindows::ERROR_IPSEC_IKE_NO_PEER_CERT => Some(13847),
            WinErrorWindows::ERROR_IPSEC_IKE_PEER_CRL_FAILED => Some(13848),
            _ => None,
        }
    }

    /// One slice of the symbol table.
    #[verifier::spinoff_prover]
    #[verifier::rlimit(100)]
    fn from_u32_part46(raw: u32) -> (r: Option<WinErrorWindows>)
        ensures
            r == WinErrorWindows::spec_from_u32_part46(raw),
    {
        match raw {
            13023 => Some(WinErrorWindows::ERROR_IPSEC_QM_POLICY_PENDING_DELETION),
            13800 => Some(WinErrorWindows::ERROR_IPSEC_IKE_NEG_STATUS_BEGIN),
            13801 => Some(WinErrorWindows::ERROR_IPSEC_IKE_AUTH_FAIL),
            13802 => Some(WinErrorWindows::ERROR_IPSEC_IKE_ATTRIB_FAIL),
            13803 => Some(WinErrorWindows::ERROR_IPSEC_IKE_NEGOTIATION_PENDING),
            13804 => Some(WinErrorWindows::ERROR_IPSEC_IKE_GENERAL_PROCESSING_ERROR),
            13805 => Some(WinErrorWindows::ERROR_IPSEC_IKE_TIMED_OUT),
            13806 => Some(WinErrorWindows::ERROR_IPSEC_IKE_NO_CERT),
            13807 => Some(WinErrorWindows::ERROR_IPSEC_IKE_SA_DELETED),
            13808 => Some(WinErrorWindows::ERROR_IPSEC_IKE_SA_REAPED),
            13809 => Some(WinErrorWindows::ERROR_IPSEC_IKE_MM_ACQUIRE_DROP),
            13810 => Some(WinErrorWindows::ERROR_IPSEC_IKE_QM_ACQUIRE_DROP),
            13811 => Some(WinErrorWindows::ERROR_IPSEC_IKE_QUEUE_DROP_MM),
            13812 => Some(WinErrorWindows::ERROR_IPSEC_IKE_QUEUE_DROP_NO_MM),
            13813 => Some(WinErrorWindows::ERROR_IPSEC_IKE_DROP_NO_RESPONSE),
            13814 => Some(WinErrorWindows::ERROR_IPSEC_IKE_MM_DELAY_DROP),
            13815 => Some(WinErrorWindows::ERROR_IPSEC_IKE_QM_DELAY_DROP),
            13816 => Some(WinErrorWindows::ERROR_IPSEC_IKE_ERROR),
            13817 => Some(WinErrorWindows::ERROR_IPSEC_IKE_CRL_FAILED),
            13818 => Some(WinErrorWindows::ERROR_IPSEC_IKE_INVALID_KEY_USAGE),
            13819 => Some(WinErrorWindows::ERROR_IPSEC_IKE_INVALID_CERT_TYPE),
            13820 => Some(WinErrorWindows::ERROR_IPSEC_IKE_NO_PRIVATE_KEY),
            13821 => Some(WinErrorWindows::ERROR_IPSEC_IKE_SIMULTANEOUS_REKEY),
            13822 => Some(WinErrorWindows::ERROR_IPSEC_IKE_DH_FAIL),
            13823 => Some(WinErrorWindows::ERROR_IPSEC_IKE_CRITICAL_PAYLOAD_NOT_RECOGNIZED),
            13824 => Some(WinErrorWindows::ERROR_IPSEC_IKE_INVALID_HEADER),
            13825 => Some(WinErrorWindows::ERROR_IPSEC_IKE_NO_POLICY),
            13826 => Some(WinErrorWindows::ERROR_IPSEC_IKE_INVALID_SIGNATURE),
            13827 => Some(WinErrorWindows::ERROR_IPSEC_IKE_KERBEROS_ERROR),
            13828 => Some(WinErrorWindows::ERROR_IPSEC_IKE_NO_PUBLIC_KEY),
            13829 => Some(WinErrorWindows::ERROR_IPSEC_IKE_PROCESS_ERR),
            13830 => Some(WinErrorWindows::ERROR_IPSEC_IKE_PROCESS_ERR_SA),
            13831 => Some(WinErrorWindows::ERROR_IPSEC_IKE_PROCESS_ERR_PROP),
            13832 => Some(WinErrorWindows::ERROR_IPSEC_IKE_PROCESS_ERR_TRANS),
            13833 => Some(WinErrorWindows::ERROR_IPSEC_IKE_PROCESS_ERR_KE),
            13834 => Some(WinErrorWindows::ERROR_IPSEC_IKE_PROCESS_ERR_ID),
            13835 => Some(WinErrorWindows::ERROR_IPSEC_IKE_PROCESS_ERR_CERT),
            13836 => Some(WinErrorWindows::ERROR_IPSEC_IKE_PROCESS_ERR_CERT_REQ),
            13837 => Some(WinErrorWindows::ERROR_IPSEC_IKE_PROCESS_ERR_HASH),
            13838 => Some(WinErrorWindows::ERROR_IPSEC_IKE_PROCESS_ERR_SIG),
            13839 => Some(WinErrorWindows::ERROR_IPSEC_IKE_PROCESS_ERR_NONCE),
            13840 => Some(WinErrorWindows::ERROR_IPSEC_IKE_PROCESS_ERR_NOTIFY),
            13841 => Some(WinErrorWindows::ERROR_IPSEC_IKE_PROCESS_ERR_DELETE),
            13842 => Some(WinErrorWindows::ERROR_IPSEC_IKE_PROCESS_ERR_VENDOR),
            13843 => Some(WinErrorWindows::ERROR_IPSEC_IKE_INVALID_PAYLOAD),
            13844 => Some(WinErrorWindows::ERROR_IPSEC_IKE_LOAD_SOFT_SA),
            13845 => Some(WinErrorWindows::ERROR_IPSEC_IKE_SOFT_SA_TORN_DOWN),
            13846 => Some(WinErrorWindows::ERROR_IPSEC_IKE_INVALID_COOKIE),
            13847 => Some(WinErrorWindows::ERROR_IPSEC_IKE_NO_PEER_CERT),
            13848 => Some(WinErrorWindows::ERROR_IPSEC_IKE_PEER_CRL_FAILED),
            _ => None,
        }
    }

    /// One slice of the symbol table: the raw value of this symbol,
    /// where this slice holds it.
    pub open spec fn spec_to_u32_part47(self) -> Option<u32> {
        match self {
            WinErrorWindows::ERROR_IPSEC_IKE_POLICY_CHANGE => Some(13849),
            WinErrorWindows::ERROR_IPSEC_IKE_NO_MM_POLICY => Some(13850),
            WinErrorWindows::ERROR_IPSEC_IKE_NOTCBPRIV => Some(13851),
            WinErrorWindows::ERROR_IPSEC_IKE_SECLOADFAIL => Some(13852),
            WinErrorWindows::ERROR_IPSEC_IKE_FAILSSPINIT => Some(13853),
            WinErrorWindows::ERROR_IPSEC_IKE_FAILQUERYSSP => Some(13854),
            WinErrorWindows::ERROR_IPSEC_IKE_SRVACQFAIL => Some(13855),
            WinErrorWindows::ERROR_IPSEC_IKE_SRVQUERYCRED => Some(13856),
            WinErrorWindows::ERROR_IPSEC_IKE_GETSPIFAIL => Some(13857),
            WinErrorWindows::ERROR_IPSEC_IKE_INVALID_FILTER => Some(13858),
            WinErrorWindows::ERROR_IPSEC_IKE_OUT_OF_MEMORY => Some(13859),
            WinErrorWindows::ERROR_IPSEC_IKE_ADD_UPDATE_KEY_FAILED => Some(13860),
            WinErrorWindows::ERROR_IPSEC_IKE_INVALID_POLICY => Some(13861),
            WinErrorWindows::ERROR_IPSEC_IKE_UNKNOWN_DOI => Some(13862),
            WinErrorWindows::ERROR_IPSEC_IKE_INVALID_SITUATION => Some(13863),
            WinErrorWindows::ERROR_IPSEC_IKE_DH_FAILURE => Some(13864),
            WinErrorWindows::ERROR_IPSEC_IKE_INVALID_GROUP => Some(13865),
            WinErrorWindows::ERROR_IPSEC_IKE_ENCRYPT => Some(13866),
            WinErrorWindows::ERROR_IPSEC_IKE_DECRYPT => Some(13867),
            WinErrorWindows::ERROR_IPSEC_IKE_POLICY_MATCH => Some(13868),
            WinErrorWindows::ERROR_IPSEC_IKE_UNSUPPORTED_ID => Some(13869),
            WinErrorWindows::ERROR_IPSEC_IKE_INVALID_HASH => Some(13870),
            WinErrorWindows::ERROR_IPSEC_IKE_INVALID_HASH_ALG => Some(13871),
            WinErrorWindows::ERROR_IPSEC_IKE_INVALID_HASH_SIZE => Some(13872),
            WinErrorWindows::ERROR_IPSEC_IKE_INVALID_ENCRYPT_ALG => Some(13873),
            WinErrorWindows::ERROR_IPSEC_IKE_INVALID_AUTH_ALG => Some(13874),
            WinErrorWindows::ERROR_IPSEC_IKE_INVALID_SIG => Some(13875),
            WinErrorWindows::ERROR_IPSEC_IKE_LOAD_FAILED => Some(13876),
            WinErrorWindows::ERROR_IPSEC_IKE_RPC_DELETE => Some(13877),
            WinErrorWindows::ERROR_IPSEC_IKE_BENIGN_REINIT => Some(13878),
            WinErrorWindows::ERROR_IPSEC_IKE_INVALID_RESPONDER_LIFETIME_NOTIFY => Some(13879),
            WinErrorWindows::ERROR_IPSEC_IKE_INVALID_MAJOR_VERSION => Some(13880),
            WinErrorWindows::ERROR_IPSEC_IKE_INVALID_CERT_KEYLEN => Some(13881),
            WinErrorWindows::ERROR_IPSEC_IKE_MM_LIMIT => Some(13882),
            WinErrorWindows::ERROR_IPSEC_IKE_NEGOTIATION_DISABLED => Some(13883),
            WinErrorWindows::ERROR_IPSEC_IKE_QM_LIMIT => Some(13884),
            WinErrorWindows::ERROR_IPSEC_IKE_MM_EXPIRED => Some(13885),
            WinErrorWindows::ERROR_IPSEC_IKE_PEER_MM_ASSUMED_INVALID => Some(13886),
            WinErrorWindows::ERROR_IPSEC_IKE_CERT_CHAIN_POLICY_MISMATCH => Some(13887),
            WinErrorWindows::ERROR_IPSEC_IKE_UNEXPECTED_MESSAGE_ID => Some(13888),
            WinErrorWindows::ERROR_IPSEC_IKE_INVALID_AUTH_PAYLOAD => Some(13889),
            WinErrorWindows::ERROR_IPSEC_IKE_DOS_COOKIE_SENT => Some(13890),
            WinErrorWindows::ERROR_IPSEC_IKE_SHUTTING_DOWN => Some(13891),
            WinErrorWindows::ERROR_IPSEC_IKE_CGA_AUTH_FAILED => Some(13892),
            WinErrorWindows::ERROR_IPSEC_IKE_PROCESS_ERR_NATOA => Some(13893),
            WinErrorWindows::ERROR_IPSEC_IKE_INVALID_MM_FOR_QM => Some(13894),
            WinErrorWindows::ERROR_IPSEC_IKE_QM_EXPIRED => Some(13895),
            WinErrorWindows::ERROR_IPSEC_IKE_TOO_MANY_FILTERS => Some(13896),
            WinErrorWindows::ERROR_IPSEC_IKE_NEG_STATUS_END => Some(13897),
            WinErrorWindows::ERROR_IPSEC_IKE_KILL_DUMMY_NAP_TUNNEL => Some(13898),
            _ => None,
        }
    }

    /// One slice of the symbol table: the symbol this slice gives a
    /// raw value, where it holds one.
    pub open spec fn spec_from_u32_part47(raw: u32) -> Option<WinErrorWindows> {
        match raw {
            13849 => Some(WinErrorWindows::ERROR_IPSEC_IKE_POLICY_CHANGE),
            13850 => Some(WinErrorWindows::ERROR_IPSEC_IKE_NO_MM_POLICY),
            13851 => Some(WinErrorWindows::ERROR_IPSEC_IKE_NOTCBPRIV),
            13852 => Some(WinErrorWindows::ERROR_IPSEC_IKE_SECLOADFAIL),
            13853 => Some(WinErrorWindows::ERROR_IPSEC_IKE_FAILSSPINIT),
            13854 => Some(WinErrorWindows::ERROR_IPSEC_IKE_FAILQUERYSSP),
            13855 => Some(WinErrorWindows::ERROR_IPSEC_IKE_SRVACQFAIL),
            13856 => Some(WinErrorWindows::ERROR_IPSEC_IKE_SRVQUERYCRED),
            13857 => Some(WinErrorWindows::ERROR_IPSEC_IKE_GETSPIFAIL),
            13858 => Some(WinErrorWindows::ERROR_IPSEC_IKE_INVALID_FILTER),
            13859 => Some(WinErrorWindows::ERROR_IPSEC_IKE_OUT_OF_MEMORY),
            13860 => Some(WinErrorWindows::ERROR_IPSEC_IKE_ADD_UPDATE_KEY_FAILED),
            13861 => Some(WinErrorWindows::ERROR_IPSEC_IKE_INVALID_POLICY),
            13862 => Some(WinErrorWindows::ERROR_IPSEC_IKE_UNKNOWN_DOI),
            13863 => Some(WinErrorWindows::ERROR_IPSEC_IKE_INVALID_SITUATION),
            13864 => Some(WinErrorWindows::ERROR_IPSEC_IKE_DH_FAILURE),
            13865 => Some(WinErrorWindows::ERROR_IPSEC_IKE_INVALID_GROUP),
            13866 => Some(WinErrorWindows::ERROR_IPSEC_IKE_ENCRYPT),
            13867 => Some(WinErrorWindows::ERROR_IPSEC_IKE_DECRYPT),
            13868 => Some(WinErrorWindows::ERROR_IPSEC_IKE_POLICY_MATCH),
            13869 => Some(WinErrorWindows::ERROR_IPSEC_IKE_UNSUPPORTED_ID),
            13870 => Some(WinErrorWindows::ERROR_IPSEC_IKE_INVALID_HASH),
            13871 => Some(WinErrorWindows::ERROR_IPSEC_IKE_INVALID_HASH_ALG),
            13872 => Some(WinErrorWindows::ERROR_IPSEC_IKE_INVALID_HASH_SIZE),
            13873 => Some(WinErrorWindows::ERROR_IPSEC_IKE_INVALID_ENCRYPT_ALG),
            13874 => Some(WinErrorWindows::ERROR_IPSEC_IKE_INVALID_AUTH_ALG),
            13875 => Some(WinErrorWindows::ERROR_IPSEC_IKE_INVALID_SIG),
            13876 => Some(WinErrorWindows::ERROR_IPSEC_IKE_LOAD_FAILED),
            13877 => Some(WinErrorWindows::ERROR_IPSEC_IKE_RPC_DELETE),
            13878 => Some(WinErrorWindows::ERROR_IPSEC_IKE_BENIGN_REINIT),
            13879 => Some(WinErrorWindows::ERROR_IPSEC_IKE_INVALID_RESPONDER_LIFETIME_NOTIFY),
            13880 => Some(WinErrorWindows::ERROR_IPSEC_IKE_INVALID_MAJOR_VERSION),
            13881 => Some(WinErrorWindows::ERROR_IPSEC_IKE_INVALID_CERT_KEYLEN),
            13882 => Some(WinErrorWindows::ERROR_IPSEC_IKE_MM_LIMIT),
            13883 => Some(WinErrorWindows::ERROR_IPSEC_IKE_NEGOTIATION_DISABLED),
            13884 => Some(WinErrorWindows::ERROR_IPSEC_IKE_QM_LIMIT),
            13885 => Some(WinErrorWindows::ERROR_IPSEC_IKE_MM_EXPIRED),
            13886 => Some(WinErrorWindows::ERROR_IPSEC_IKE_PEER_MM_ASSUMED_INVALID),
            13887 => Some(WinErrorWindows::ERROR_IPSEC_IKE_CERT_CHAIN_POLICY_MISMATCH),
            13888 => Some(WinErrorWindows::ERROR_IPSEC_IKE_UNEXPECTED_MESSAGE_ID),
            13889 => Some(WinErrorWindows::ERROR_IPSEC_IKE_INVALID_AUTH_PAYLOAD),
            13890 => Some(WinErrorWindows::ERROR_IPSEC_IKE_DOS_COOKIE_SENT),
            13891 => Some(WinErrorWindows::ERROR_IPSEC_IKE_SHUTTING_DOWN),
            13892 => Some(WinErrorWindows::ERROR_IPSEC_IKE_CGA_AUTH_FAILED),
            13893 => Some(WinErrorWindows::ERROR_IPSEC_IKE_PROCESS_ERR_NATOA),
            13894 => Some(WinErrorWindows::ERROR_IPSEC_IKE_INVALID_MM_FOR_QM),
            13895 => Some(WinErrorWindows::ERROR_IPSEC_IKE_QM_EXPIRED),
            13896 => Some(WinErrorWindows::ERROR_IPSEC_IKE_TOO_MANY_FILTERS),
            13897 => Some(WinErrorWindows::ERROR_IPSEC_IKE_NEG_STATUS_END),
            13898 => Some(WinErrorWindows::ERROR_IPSEC_IKE_KILL_DUMMY_NAP_TUNNEL),
            _ => None,
        }
    }

    /// One slice of the symbol table.
    #[verifier::spinoff_prover]
    #[verifier::rlimit(100)]
    fn to_u32_part47(self) -> (r: Option<u32>)
        ensures
            r == self.spec_to_u32_part47(),
    {
        match self {
            WinErrorWindows::ERROR_IPSEC_IKE_POLICY_CHANGE => Some(13849),
            WinErrorWindows::ERROR_IPSEC_IKE_NO_MM_POLICY => Some(13850),
            WinErrorWindows::ERROR_IPSEC_IKE_NOTCBPRIV => Some(13851),
            WinErrorWindows::ERROR_IPSEC_IKE_SECLOADFAIL => Some(13852),
            WinErrorWindows::ERROR_IPSEC_IKE_FAILSSPINIT => Some(13853),
            WinErrorWindows::ERROR_IPSEC_IKE_FAILQUERYSSP => Some(13854),
            WinErrorWindows::ERROR_IPSEC_IKE_SRVACQFAIL => Some(13855),
            WinErrorWindows::ERROR_IPSEC_IKE_SRVQUERYCRED => Some(13856),
            WinErrorWindows::ERROR_IPSEC_IKE_GETSPIFAIL => Some(13857),
            WinErrorWindows::ERROR_IPSEC_IKE_INVALID_FILTER => Some(13858),
            WinErrorWindows::ERROR_IPSEC_IKE_OUT_OF_MEMORY => Some(13859),
            WinErrorWindows::ERROR_IPSEC_IKE_ADD_UPDATE_KEY_FAILED => Some(13860),
            WinErrorWindows::ERROR_IPSEC_IKE_INVALID_POLICY => Some(13861),
            WinErrorWindows::ERROR_IPSEC_IKE_UNKNOWN_DOI => Some(13862),
            WinErrorWindows::ERROR_IPSEC_IKE_INVALID_SITUATION => Some(13863),
            WinErrorWindows::ERROR_IPSEC_IKE_DH_FAILURE => Some(13864),
            WinErrorWindows::ERROR_IPSEC_IKE_INVALID_GROUP => Some(13865),
            WinErrorWindows::ERROR_IPSEC_IKE_ENCRYPT => Some(13866),
            WinErrorWindows::ERROR_IPSEC_IKE_DECRYPT => Some(13867),
            WinErrorWindows::ERROR_IPSEC_IKE_POLICY_MATCH => Some(13868),
            WinErrorWindows::ERROR_IPSEC_IKE_UNSUPPORTED_ID => Some(13869),
            WinErrorWindows::ERROR_IPSEC_IKE_INVALID_HASH => Some(13870),
            WinErrorWindows::ERROR_IPSEC_IKE_INVALID_HASH_ALG => Some(13871),
            WinErrorWindows::ERROR_IPSEC_IKE_INVALID_HASH_SIZE => Some(13872),
            WinErrorWindows::ERROR_IPSEC_IKE_INVALID_ENCRYPT_ALG => Some(13873),
            WinErrorWindows::ERROR_IPSEC_IKE_INVALID_AUTH_ALG => Some(13874),
            WinErrorWindows::ERROR_IPSEC_IKE_INVALID_SIG => Some(13875),
            WinErrorWindows::ERROR_IPSEC_IKE_LOAD_FAILED => Some(13876),
            WinErrorWindows::ERROR_IPSEC_IKE_RPC_DELETE => Some(13877),
            WinErrorWindows::ERROR_IPSEC_IKE_BENIGN_REINIT => Some(13878),
            WinErrorWindows::ERROR_IPSEC_IKE_INVALID_RESPONDER_LIFETIME_NOTIFY => Some(13879),
            WinErrorWindows::ERROR_IPSEC_IKE_INVALID_MAJOR_VERSION => Some(13880),
            WinErrorWindows::ERROR_IPSEC_IKE_INVALID_CERT_KEYLEN => Some(13881),
            WinErrorWindows::ERROR_IPSEC_IKE_MM_LIMIT => Some(13882),
            WinErrorWindows::ERROR_IPSEC_IKE_NEGOTIATION_DISABLED => Some(13883),
            WinErrorWindows::ERROR_IPSEC_IKE_QM_LIMIT => Some(13884),
            WinErrorWindows::ERROR_IPSEC_IKE_MM_EXPIRED => Some(13885),
            WinErrorWindows::ERROR_IPSEC_IKE_PEER_MM_ASSUMED_INVALID => Some(13886),
            WinErrorWindows::ERROR_IPSEC_IKE_CERT_CHAIN_POLICY_MISMATCH => Some(13887),
            WinErrorWindows::ERROR_IPSEC_IKE_UNEXPECTED_MESSAGE_ID => Some(13888),
            WinErrorWindows::ERROR_IPSEC_IKE_INVALID_AUTH_PAYLOAD => Some(13889),
            WinErrorWindows::ERROR_IPSEC_IKE_DOS_COOKIE_SENT => Some(13890),
            WinErrorWindows::ERROR_IPSEC_IKE_SHUTTING_DOWN => Some(13891),
            WinErrorWindows::ERROR_IPSEC_IKE_CGA_AUTH_FAILED => Some(13892),
            WinErrorWindows::ERROR_IPSEC_IKE_PROCESS_ERR_NATOA => Some(13893),
            WinErrorWindows::ERROR_IPSEC_IKE_INVALID_MM_FOR_QM => Some(13894),
            WinErrorWindows::ERROR_IPSEC_IKE_QM_EXPIRED => Some(13895),
            WinErrorWindows::ERROR_IPSEC_IKE_TOO_MANY_FILTERS => Some(13896),
            WinErrorWindows::ERROR_IPSEC_IKE_NEG_STATUS_END => Some(13897),
            WinErrorWindows::ERROR_IPSEC_IKE_KILL_DUMMY_NAP_TUNNEL => Some(13898),
            _ => None,
        }
    }

    /// One slice of the symbol table.
    #[verifier::spinoff_prover]
    #[verifier::rlimit(100)]
    fn from_u32_part47(raw: u32) -> (r: Option<WinErrorWindows>)
        ensures
            r == WinErrorWindows::spec_from_u32_part47(raw),
    {
        match raw {
            13849 => Some(WinErrorWindows::ERROR_IPSEC_IKE_POLICY_CHANGE),
            13850 => Some(WinErrorWindows::ERROR_IPSEC_IKE_NO_MM_POLICY),
            13851 => Some(WinErrorWindows::ERROR_IPSEC_IKE_NOTCBPRIV),
            13852 => Some(WinErrorWindows::ERROR_IPSEC_IKE_SECLOADFAIL),
            13853 => Some(WinErrorWindows::ERROR_IPSEC_IKE_FAILSSPINIT),
            13854 => Some(WinErrorWindows::ERROR_IPSEC_IKE_FAILQUERYSSP),
            13855 => Some(WinErrorWindows::ERROR_IPSEC_IKE_SRVACQFAIL),
            13856 => Some(WinErrorWindows::ERROR_IPSEC_IKE_SRVQUERYCRED),
            13857 => Some(WinErrorWindows::ERROR_IPSEC_IKE_GETSPIFAIL),
            13858 => Some(WinErrorWindows::ERROR_IPSEC_IKE_INVALID_FILTER),
            13859 => Some(WinErrorWindows::ERROR_IPSEC_IKE_OUT_OF_MEMORY),
            13860 => Some(WinErrorWindows::ERROR_IPSEC_IKE_ADD_UPDATE_KEY_FAILED),
            13861 => Some(WinErrorWindows::ERROR_IPSEC_IKE_INVALID_POLICY),
            13862 => Some(WinErrorWindows::ERROR_IPSEC_IKE_UNKNOWN_DOI),
            13863 => Some(WinErrorWindows::ERROR_IPSEC_IKE_INVALID_SITUATION),
            13864 => Some(WinErrorWindows::ERROR_IPSEC_IKE_DH_FAILURE),
            13865 => Some(WinErrorWindows::ERROR_IPSEC_IKE_INVALID_GROUP),
            13866 => Some(WinErrorWindows::ERROR_IPSEC_IKE_ENCRYPT),
            13867 => Some(WinErrorWindows::ERROR_IPSEC_IKE_DECRYPT),
            13868 => Some(WinErrorWindows::ERROR_IPSEC_IKE_POLICY_MATCH),
            13869 => Some(WinErrorWindows::ERROR_IPSEC_IKE_UNSUPPORTED_ID),
            13870 => Some(WinErrorWindows::ERROR_IPSEC_IKE_INVALID_HASH),
            13871 => Some(WinErrorWindows::ERROR_IPSEC_IKE_INVALID_HASH_ALG),
            13872 => Some(WinErrorWindows::ERROR_IPSEC_IKE_INVALID_HASH_SIZE),
            13873 => Some(WinErrorWindows::ERROR_IPSEC_IKE_INVALID_ENCRYPT_ALG),
            13874 => Some(WinErrorWindows::ERROR_IPSEC_IKE_INVALID_AUTH_ALG),
            13875 => Some(WinErrorWindows::ERROR_IPSEC_IKE_INVALID_SIG),
            13876 => Some(WinErrorWindows::ERROR_IPSEC_IKE_LOAD_FAILED),
            13877 => Some(WinErrorWindows::ERROR_IPSEC_IKE_RPC_DELETE),
            13878 => Some(WinErrorWindows::ERROR_IPSEC_IKE_BENIGN_REINIT),
            13879 => Some(WinErrorWindows::ERROR_IPSEC_IKE_INVALID_RESPONDER_LIFETIME_NOTIFY),
            13880 => Some(WinErrorWindows::ERROR_IPSEC_IKE_INVALID_MAJOR_VERSION),
            13881 => Some(WinErrorWindows::ERROR_IPSEC_IKE_INVALID_CERT_KEYLEN),
            13882 => Some(WinErrorWindows::ERROR_IPSEC_IKE_MM_LIMIT),
            13883 => Some(WinErrorWindows::ERROR_IPSEC_IKE_NEGOTIATION_DISABLED),
            13884 => Some(WinErrorWindows::ERROR_IPSEC_IKE_QM_LIMIT),
            13885 => Some(WinErrorWindows::ERROR_IPSEC_IKE_MM_EXPIRED),
            13886 => Some(WinErrorWindows::ERROR_IPSEC_IKE_PEER_MM_ASSUMED_INVALID),
            13887 => Some(WinErrorWindows::ERROR_IPSEC_IKE_CERT_CHAIN_POLICY_MISMATCH),
            13888 => Some(WinErrorWindows::ERROR_IPSEC_IKE_UNEXPECTED_MESSAGE_ID),
            13889 => Some(WinErrorWindows::ERROR_IPSEC_IKE_INVALID_AUTH_PAYLOAD),
            13890 => Some(WinErrorWindows::ERROR_IPSEC_IKE_DOS_COOKIE_SENT),
            13891 => Some(WinErrorWindows::ERROR_IPSEC_IKE_SHUTTING_DOWN),
            13892 => Some(WinErrorWindows::ERROR_IPSEC_IKE_CGA_AUTH_FAILED),
            13893 => Some(WinErrorWindows::ERROR_IPSEC_IKE_PROCESS_ERR_NATOA),
            13894 => Some(WinErrorWindows::ERROR_IPSEC_IKE_INVALID_MM_FOR_QM),
            13895 => Some(WinErrorWindows::ERROR_IPSEC_IKE_QM_EXPIRED),
            13896 => Some(WinErrorWindows::ERROR_IPSEC_IKE_TOO_MANY_FILTERS),
            13897 => Some(WinErrorWindows::ERROR_IPSEC_IKE_NEG_STATUS_END),
            13898 => Some(WinErrorWindows::ERROR_IPSEC_IKE_KILL_DUMMY_NAP_TUNNEL),
            _ => None,
        }
    }

    /// One slice of the symbol table: the raw value of this symbol,
    /// where this slice holds it.
    pub open spec fn spec_to_u32_part48(self) -> Option<u32> {
        match self {
            WinErrorWindows::ERROR_IPSEC_IKE_INNER_IP_ASSIGNMENT_FAILURE => Some(13899),
            WinErrorWindows::ERROR_IPSEC_IKE_REQUIRE_CP_PAYLOAD_MISSING => Some(13900),
            WinErrorWindows::ERROR_IPSEC_KEY_MODULE_IMPERSONATION_NEGOTIATION_PENDING => Some(13901),
            WinErrorWindows::ERROR_IPSEC_IKE_COEXISTENCE_SUPPRESS => Some(13902),
            WinErrorWindows::ERROR_IPSEC_IKE_RATELIMIT_DROP => Some(13903),
            WinErrorWindows::ERROR_IPSEC_IKE_PEER_DOESNT_SUPPORT_MOBIKE => Some(13904),
            WinErrorWindows::ERROR_IPSEC_IKE_AUTHORIZATION_FAILURE => Some(13905),
            WinErrorWindows::ERROR_IPSEC_IKE_STRONG_CRED_AUTHORIZATION_FAILURE => Some(13906),
            WinErrorWindows::ERROR_IPSEC_IKE_AUTHORIZATION_FAILURE_WITH_OPTIONAL_RETRY => Some(13907),
            WinErrorWindows::ERROR_IPSEC_IKE_STRONG_CRED_AUTHORIZATION_AND_CERTMAP_FAILURE => Some(13908),
            WinErrorWindows::ERROR_IPSEC_IKE_NEG_STATUS_EXTENDED_END => Some(13909),
            WinErrorWindows::ERROR_IPSEC_BAD_SPI => Some(13910),
            WinErrorWindows::ERROR_IPSEC_SA_LIFETIME_EXPIRED => Some(13911),
            WinErrorWindows::ERROR_IPSEC_WRONG_SA => Some(13912),
            WinErrorWindows::ERROR_IPSEC_REPLAY_CHECK_FAILED => Some(13913),
            WinErrorWindows::ERROR_IPSEC_INVALID_PACKET => Some(13914),
            WinErrorWindows::ERROR_IPSEC_INTEGRITY_CHECK_FAILED => Some(13915),
            WinErrorWindows::ERROR_IPSEC_CLEAR_TEXT_DROP => Some(13916),
            WinErrorWindows::ERROR_IPSEC_AUTH_FIREWALL_DROP => Some(13917),
            WinErrorWindows::ERROR_IPSEC_THROTTLE_DROP => Some(13918),
            WinErrorWindows::ERROR_IPSEC_DOSP_BLOCK => Some(13925),
            WinErrorWindows::ERROR_IPSEC_DOSP_RECEIVED_MULTICAST => Some(13926),
            WinErrorWindows::ERROR_IPSEC_DOSP_INVALID_PACKET => Some(13927),
            WinErrorWindows::ERROR_IPSEC_DOSP_STATE_LOOKUP_FAILED => Some(13928),
            WinErrorWindows::ERROR_IPSEC_DOSP_MAX_ENTRIES => Some(13929),
            WinErrorWindows::ERROR_IPSEC_DOSP_KEYMOD_NOT_ALLOWED => Some(13930),
            WinErrorWindows::ERROR_IPSEC_DOSP_NOT_INSTALLED => Some(13931),
            WinErrorWindows::ERROR_IPSEC_DOSP_MAX_PER_IP_RATELIMIT_QUEUES => Some(13932),
            WinErrorWindows::ERROR_SXS_SECTION_NOT_FOUND => Some(14000),
            WinErrorWindows::ERROR_SXS_CANT_GEN_ACTCTX => Some(14001),
            WinErrorWindows::ERROR_SXS_INVALID_ACTCTXDATA_FORMAT => Some(14002),
            WinErrorWindows::ERROR_SXS_ASSEMBLY_NOT_FOUND => Some(14003),
            WinErrorWindows::ERROR_SXS_MANIFEST_FORMAT_ERROR => Some(14004),
            WinErrorWindows::ERROR_SXS_MANIFEST_PARSE_ERROR => Some(14005),
            WinErrorWindows::ERROR_SXS_ACTIVATION_CONTEXT_DISABLED => Some(14006),
            WinErrorWindows::ERROR_SXS_KEY_NOT_FOUND => Some(14007),
            WinErrorWindows::ERROR_SXS_VERSION_CONFLICT => Some(14008),
            WinErrorWindows::ERROR_SXS_WRONG_SECTION_TYPE => Some(14009),
            WinErrorWindows::ERROR_SXS_THREAD_QUERIES_DISABLED => Some(14010),
            WinErrorWindows::ERROR_SXS_PROCESS_DEFAULT_ALREADY_SET => Some(14011),
            WinErrorWindows::ERROR_SXS_UNKNOWN_ENCODING_GROUP => Some(14012),
            WinErrorWindows::ERROR_SXS_UNKNOWN_ENCODING => Some(14013),
            WinErrorWindows::ERROR_SXS_INVALID_XML_NAMESPACE_URI => Some(14014),
            WinErrorWindows::ERROR_SXS_ROOT_MANIFEST_DEPENDENCY_NOT_INSTALLED => Some(14015),
            WinErrorWindows::ERROR_SXS_LEAF_MANIFEST_DEPENDENCY_NOT_INSTALLED => Some(14016),
            WinErrorWindows::ERROR_SXS_INVALID_ASSEMBLY_IDENTITY_ATTRIBUTE => Some(14017),
            WinErrorWindows::ERROR_SXS_MANIFEST_MISSING_REQUIRED_DEFAULT_NAMESPACE => Some(14018),
            WinErrorWindows::ERROR_SXS_MANIFEST_INVALID_REQUIRED_DEFAULT_NAMESPACE => Some(14019),
            WinErrorWindows::ERROR_SXS_PRIVATE_MANIFEST_CROSS_PATH_WITH_REPARSE_POINT => Some(14020),
            WinErrorWindows::ERROR_SXS_DUPLICATE_DLL_NAME => Some(14021),
            _ => None,
        }
    }

    /// One slice of the symbol table: the symbol this slice gives a
    /// raw value, where it holds one.
    pub open spec fn spec_from_u32_part48(raw: u32) -> Option<WinErrorWindows> {
        match raw {
            13899 => Some(WinErrorWindows::ERROR_IPSEC_IKE_INNER_IP_ASSIGNMENT_FAILURE),
            13900 => Some(WinErrorWindows::ERROR_IPSEC_IKE_REQUIRE_CP_PAYLOAD_MISSING),
            13901 => Some(WinErrorWindows::ERROR_IPSEC_KEY_MODULE_IMPERSONATION_NEGOTIATION_PENDING),
            13902 => Some(WinErrorWindows::ERROR_IPSEC_IKE_COEXISTENCE_SUPPRESS),
            13903 => Some(WinErrorWindows::ERROR_IPSEC_IKE_RATELIMIT_DROP),
            13904 => Some(WinErrorWindows::ERROR_IPSEC_IKE_PEER_DOESNT_SUPPORT_MOBIKE),
            13905 => Some(WinErrorWindows::ERROR_IPSEC_IKE_AUTHORIZATION_FAILURE),
            13906 => Some(WinErrorWindows::ERROR_IPSEC_IKE_STRONG_CRED_AUTHORIZATION_FAILURE),
            13907 => Some(WinErrorWindows::ERROR_IPSEC_IKE_AUTHORIZATION_FAILURE_WITH_OPTIONAL_RETRY),
            13908 => Some(WinErrorWindows::ERROR_IPSEC_IKE_STRONG_CRED_AUTHORIZATION_AND_CERTMAP_FAILURE),
            13909 => Some(WinErrorWindows::ERROR_IPSEC_IKE_NEG_STATUS_EXTENDED_END),
            13910 => Some(WinErrorWindows::ERROR_IPSEC_BAD_SPI),
            13911 => Some(WinErrorWindows::ERROR_IPSEC_SA_LIFETIME_EXPIRED),
            13912 => Some(WinErrorWindows::ERROR_IPSEC_WRONG_SA),
            13913 => Some(WinErrorWindows::ERROR_IPSEC_REPLAY_CHECK_FAILED),
            13914 => Some(WinErrorWindows::ERROR_IPSEC_INVALID_PACKET),
            13915 => Some(WinErrorWindows::ERROR_IPSEC_INTEGRITY_CHECK_FAILED),
            13916 => Some(WinErrorWindows::ERROR_IPSEC_CLEAR_TEXT_DROP),
            13917 => Some(WinErrorWindows::ERROR_IPSEC_AUTH_FIREWALL_DROP),
            13918 => Some(WinErrorWindows::ERROR_IPSEC_THROTTLE_DROP),
            13925 => Some(WinErrorWindows::ERROR_IPSEC_DOSP_BLOCK),
            13926 => Some(WinErrorWindows::ERROR_IPSEC_DOSP_RECEIVED_MULTICAST),
            13927 => Some(WinErrorWindows::ERROR_IPSEC_DOSP_INVALID_PACKET),
            13928 => Some(WinErrorWindows::ERROR_IPSEC_DOSP_STATE_LOOKUP_FAILED),
            13929 => Some(WinErrorWindows::ERROR_IPSEC_DOSP_MAX_ENTRIES),
            13930 => Some(WinErrorWindows::ERROR_IPSEC_DOSP_KEYMOD_NOT_ALLOWED),
            13931 => Some(WinErrorWindows::ERROR_IPSEC_DOSP_NOT_INSTALLED),
            13932 => Some(WinErrorWindows::ERROR_IPSEC_DOSP_MAX_PER_IP_RATELIMIT_QUEUES),
            14000 => Some(WinErrorWindows::ERROR_SXS_SECTION_NOT_FOUND),
            14001 => Some(WinErrorWindows::ERROR_SXS_CANT_GEN_ACTCTX),
            14002 => Some(WinErrorWindows::ERROR_SXS_INVALID_ACTCTXDATA_FORMAT),
            14003 => Some(WinErrorWindows::ERROR_SXS_ASSEMBLY_NOT_FOUND),
            14004 => Some(WinErrorWindows::ERROR_SXS_MANIFEST_FORMAT_ERROR),
            14005 => Some(WinErrorWindows::ERROR_SXS_MANIFEST_PARSE_ERROR),
            14006 => Some(WinErrorWindows::ERROR_SXS_ACTIVATION_CONTEXT_DISABLED),
            14007 => Some(WinErrorWindows::ERROR_SXS_KEY_NOT_FOUND),
            14008 => Some(WinErrorWindows::ERROR_SXS_VERSION_CONFLICT),
            14009 => Some(WinErrorWindows::ERROR_SXS_WRONG_SECTION_TYPE),
            14010 => Some(WinErrorWindows::ERROR_SXS_THREAD_QUERIES_DISABLED),
            14011 => Some(WinErrorWindows::ERROR_SXS_PROCESS_DEFAULT_ALREADY_SET),
            14012 => Some(WinErrorWindows::ERROR_SXS_UNKNOWN_ENCODING_GROUP),
            14013 => Some(WinErrorWindows::ERROR_SXS_UNKNOWN_ENCODING),
            14014 => Some(WinErrorWindows::ERROR_SXS_INVALID_XML_NAMESPACE_URI),
            14015 => Some(WinErrorWindows::ERROR_SXS_ROOT_MANIFEST_DEPENDENCY_NOT_INSTALLED),
            14016 => Some(WinErrorWindows::ERROR_SXS_LEAF_MANIFEST_DEPENDENCY_NOT_INSTALLED),
            14017 => Some(WinErrorWindows::ERROR_SXS_INVALID_ASSEMBLY_IDENTITY_ATTRIBUTE),
            14018 => Some(WinErrorWindows::ERROR_SXS_MANIFEST_MISSING_REQUIRED_DEFAULT_NAMESPACE),
            14019 => Some(WinErrorWindows::ERROR_SXS_MANIFEST_INVALID_REQUIRED_DEFAULT_NAMESPACE),
            14020 => Some(WinErrorWindows::ERROR_SXS_PRIVATE_MANIFEST_CROSS_PATH_WITH_REPARSE_POINT),
            14021 => Some(WinErrorWindows::ERROR_SXS_DUPLICATE_DLL_NAME),
            _ => None,
        }
    }

    /// One slice of the symbol table.
    #[verifier::spinoff_prover]
    #[verifier::rlimit(100)]
    fn to_u32_part48(self) -> (r: Option<u32>)
        ensures
            r == self.spec_to_u32_part48(),
    {
        match self {
            WinErrorWindows::ERROR_IPSEC_IKE_INNER_IP_ASSIGNMENT_FAILURE => Some(13899),
            WinErrorWindows::ERROR_IPSEC_IKE_REQUIRE_CP_PAYLOAD_MISSING => Some(13900),
            WinErrorWindows::ERROR_IPSEC_KEY_MODULE_IMPERSONATION_NEGOTIATION_PENDING => Some(13901),
            WinErrorWindows::ERROR_IPSEC_IKE_COEXISTENCE_SUPPRESS => Some(13902),
            WinErrorWindows::ERROR_IPSEC_IKE_RATELIMIT_DROP => Some(13903),
            WinErrorWindows::ERROR_IPSEC_IKE_PEER_DOESNT_SUPPORT_MOBIKE => Some(13904),
            WinErrorWindows::ERROR_IPSEC_IKE_AUTHORIZATION_FAILURE => Some(13905),
            WinErrorWindows::ERROR_IPSEC_IKE_STRONG_CRED_AUTHORIZATION_FAILURE => Some(13906),
            WinErrorWindows::ERROR_IPSEC_IKE_AUTHORIZATION_FAILURE_WITH_OPTIONAL_RETRY => Some(13907),
            WinErrorWindows::ERROR_IPSEC_IKE_STRONG_CRED_AUTHORIZATION_AND_CERTMAP_FAILURE => Some(13908),
            WinErrorWindows::ERROR_IPSEC_IKE_NEG_STATUS_EXTENDED_END => Some(13909),
            WinErrorWindows::ERROR_IPSEC_BAD_SPI => Some(13910),
            WinErrorWindows::ERROR_IPSEC_SA_LIFETIME_EXPIRED => Some(13911),
            WinErrorWindows::ERROR_IPSEC_WRONG_SA => Some(13912),
            WinErrorWindows::ERROR_IPSEC_REPLAY_CHECK_FAILED => Some(13913),
            WinErrorWindows::ERROR_IPSEC_INVALID_PACKET => Some(13914),
            WinErrorWindows::ERROR_IPSEC_INTEGRITY_CHECK_FAILED => Some(13915),
            WinErrorWindows::ERROR_IPSEC_CLEAR_TEXT_DROP => Some(13916),
            WinErrorWindows::ERROR_IPSEC_AUTH_FIREWALL_DROP => Some(13917),
            WinErrorWindows::ERROR_IPSEC_THROTTLE_DROP => Some(13918),
            WinErrorWindows::ERROR_IPSEC_DOSP_BLOCK => Some(13925),
            WinErrorWindows::ERROR_IPSEC_DOSP_RECEIVED_MULTICAST => Some(13926),
            WinErrorWindows::ERROR_IPSEC_DOSP_INVALID_PACKET => Some(13927),
            WinErrorWindows::ERROR_IPSEC_DOSP_STATE_LOOKUP_FAILED => Some(13928),
            WinErrorWindows::ERROR_IPSEC_DOSP_MAX_ENTRIES => Some(13929),
            WinErrorWindows::ERROR_IPSEC_DOSP_KEYMOD_NOT_ALLOWED => Some(13930),
            WinErrorWindows::ERROR_IPSEC_DOSP_NOT_INSTALLED => Some(13931),
            WinErrorWindows::ERROR_IPSEC_DOSP_MAX_PER_IP_RATELIMIT_QUEUES => Some(13932),
            WinErrorWindows::ERROR_SXS_SECTION_NOT_FOUND => Some(14000),
            WinErrorWindows::ERROR_SXS_CANT_GEN_ACTCTX => Some(14001),
            WinErrorWindows::ERROR_SXS_INVALID_ACTCTXDATA_FORMAT => Some(14002),
            WinErrorWindows::ERROR_SXS_ASSEMBLY_NOT_FOUND => Some(14003),
            WinErrorWindows::ERROR_SXS_MANIFEST_FORMAT_ERROR => Some(14004),
            WinErrorWindows::ERROR_SXS_MANIFEST_PARSE_ERROR => Some(14005),
            WinErrorWindows::ERROR_SXS_ACTIVATION_CONTEXT_DISABLED => Some(14006),
            WinErrorWindows::ERROR_SXS_KEY_NOT_FOUND => Some(14007),
            WinErrorWindows::ERROR_SXS_VERSION_CONFLICT => Some(14008),
            WinErrorWindows::ERROR_SXS_WRONG_SECTION_TYPE => Some(14009),
            WinErrorWindows::ERROR_SXS_THREAD_QUERIES_DISABLED => Some(14010),
            WinErrorWindows::ERROR_SXS_PROCESS_DEFAULT_ALREADY_SET => Some(14011),
            WinErrorWindows::ERROR_SXS_UNKNOWN_ENCODING_GROUP => Some(14012),
            WinErrorWindows::ERROR_SXS_UNKNOWN_ENCODING => Some(14013),
            WinErrorWindows::ERROR_SXS_INVALID_XML_NAMESPACE_URI => Some(14014),
            WinErrorWindows::ERROR_SXS_ROOT_MANIFEST_DEPENDENCY_NOT_INSTALLED => Some(14015),
            WinErrorWindows::ERROR_SXS_LEAF_MANIFEST_DEPENDENCY_NOT_INSTALLED => Some(14016),
            WinErrorWindows::ERROR_SXS_INVALID_ASSEMBLY_IDENTITY_ATTRIBUTE => Some(14017),
            WinErrorWindows::ERROR_SXS_MANIFEST_MISSING_REQUIRED_DEFAULT_NAMESPACE => Some(14018),
            WinErrorWindows::ERROR_SXS_MANIFEST_INVALID_REQUIRED_DEFAULT_NAMESPACE => Some(14019),
            WinErrorWindows::ERROR_SXS_PRIVATE_MANIFEST_CROSS_PATH_WITH_REPARSE_POINT => Some(14020),
            WinErrorWindows::ERROR_SXS_DUPLICATE_DLL_NAME => Some(14021),
            _ => None,
        }
    }

    /// One slice of the symbol table.
    #[verifier::spinoff_prover]
    #[verifier::rlimit(100)]
    fn from_u32_part48(raw: u32) -> (r: Option<WinErrorWindows>)
        ensures
            r == WinErrorWindows::spec_from_u32_part48(raw),
    {
        match raw {
            13899 => Some(WinErrorWindows::ERROR_IPSEC_IKE_INNER_IP_ASSIGNMENT_FAILURE),
            13900 => Some(WinErrorWindows::ERROR_IPSEC_IKE_REQUIRE_CP_PAYLOAD_MISSING),
            13901 => Some(WinErrorWindows::ERROR_IPSEC_KEY_MODULE_IMPERSONATION_NEGOTIATION_PENDING),
            13902 => Some(WinErrorWindows::ERROR_IPSEC_IKE_COEXISTENCE_SUPPRESS),
            13903 => Some(WinErrorWindows::ERROR_IPSEC_IKE_RATELIMIT_DROP),
            13904 => Some(WinErrorWindows::ERROR_IPSEC_IKE_PEER_DOESNT_SUPPORT_MOBIKE),
            13905 => Some(WinErrorWindows::ERROR_IPSEC_IKE_AUTHORIZATION_FAILURE),
            13906 => Some(WinErrorWindows::ERROR_IPSEC_IKE_STRONG_CRED_AUTHORIZATION_FAILURE),
            13907 => Some(WinErrorWindows::ERROR_IPSEC_IKE_AUTHORIZATION_FAILURE_WITH_OPTIONAL_RETRY),
            13908 => Some(WinErrorWindows::ERROR_IPSEC_IKE_STRONG_CRED_AUTHORIZATION_AND_CERTMAP_FAILURE),
            13909 => Some(WinErrorWindows::ERROR_IPSEC_IKE_NEG_STATUS_EXTENDED_END),
            13910 => Some(WinErrorWindows::ERROR_IPSEC_BAD_SPI),
            13911 => Some(WinErrorWindows::ERROR_IPSEC_SA_LIFETIME_EXPIRED),
            13912 => Some(WinErrorWindows::ERROR_IPSEC_WRONG_SA),
            13913 => Some(WinErrorWindows::ERROR_IPSEC_REPLAY_CHECK_FAILED),
            13914 => Some(WinErrorWindows::ERROR_IPSEC_INVALID_PACKET),
            13915 => Some(WinErrorWindows::ERROR_IPSEC_INTEGRITY_CHECK_FAILED),
            13916 => Some(WinErrorWindows::ERROR_IPSEC_CLEAR_TEXT_DROP),
            13917 => Some(WinErrorWindows::ERROR_IPSEC_AUTH_FIREWALL_DROP),
            13918 => Some(WinErrorWindows::ERROR_IPSEC_THROTTLE_DROP),
            13925 => Some(WinErrorWindows::ERROR_IPSEC_DOSP_BLOCK),
            13926 => Some(WinErrorWindows::ERROR_IPSEC_DOSP_RECEIVED_MULTICAST),
            13927 => Some(WinErrorWindows::ERROR_IPSEC_DOSP_INVALID_PACKET),
            13928 => Some(WinErrorWindows::ERROR_IPSEC_DOSP_STATE_LOOKUP_FAILED),
            13929 => Some(WinErrorWindows::ERROR_IPSEC_DOSP_MAX_ENTRIES),
            13930 => Some(WinErrorWindows::ERROR_IPSEC_DOSP_KEYMOD_NOT_ALLOWED),
            13931 => Some(WinErrorWindows::ERROR_IPSEC_DOSP_NOT_INSTALLED),
            13932 => Some(WinErrorWindows::ERROR_IPSEC_DOSP_MAX_PER_IP_RATELIMIT_QUEUES),
            14000 => Some(WinErrorWindows::ERROR_SXS_SECTION_NOT_FOUND),
            14001 => Some(WinErrorWindows::ERROR_SXS_CANT_GEN_ACTCTX),
            14002 => Some(WinErrorWindows::ERROR_SXS_INVALID_ACTCTXDATA_FORMAT),
            14003 => Some(WinErrorWindows::ERROR_SXS_ASSEMBLY_NOT_FOUND),
            14004 => Some(WinErrorWindows::ERROR_SXS_MANIFEST_FORMAT_ERROR),
            14005 => Some(WinErrorWindows::ERROR_SXS_MANIFEST_PARSE_ERROR),
            14006 => Some(WinErrorWindows::ERROR_SXS_ACTIVATION_CONTEXT_DISABLED),
            14007 => Some(WinErrorWindows::ERROR_SXS_KEY_NOT_FOUND),
            14008 => Some(WinErrorWindows::ERROR_SXS_VERSION_CONFLICT),
            14009 => Some(WinErrorWindows::ERROR_SXS_WRONG_SECTION_TYPE),
            14010 => Some(WinErrorWindows::ERROR_SXS_THREAD_QUERIES_DISABLED),
            14011 => Some(WinErrorWindows::ERROR_SXS_PROCESS_DEFAULT_ALREADY_SET),
            14012 => Some(WinErrorWindows::ERROR_SXS_UNKNOWN_ENCODING_GROUP),
            14013 => Some(WinErrorWindows::ERROR_SXS_UNKNOWN_ENCODING),
            14014 => Some(WinErrorWindows::ERROR_SXS_INVALID_XML_NAMESPACE_URI),
            14015 => Some(WinErrorWindows::ERROR_SXS_ROOT_MANIFEST_DEPENDENCY_NOT_INSTALLED),
            14016 => Some(WinErrorWindows::ERROR_SXS_LEAF_MANIFEST_DEPENDENCY_NOT_INSTALLED),
            14017 => Some(WinErrorWindows::ERROR_SXS_INVALID_ASSEMBLY_IDENTITY_ATTRIBUTE),
            14018 => Some(WinErrorWindows::ERROR_SXS_MANIFEST_MISSING_REQUIRED_DEFAULT_NAMESPACE),
            14019 => Some(WinErrorWindows::ERROR_SXS_MANIFEST_INVALID_REQUIRED_DEFAULT_NAMESPACE),
            14020 => Some(WinErrorWindows::ERROR_SXS_PRIVATE_MANIFEST_CROSS_PATH_WITH_REPARSE_POINT),
            14021 => Some(WinErrorWindows::ERROR_SXS_DUPLICATE_DLL_NAME),
            _ => None,
        }
    }

    /// One slice of the symbol table: the raw value of this symbol,
    /// where this slice holds it.
    pub open spec fn spec_to_u32_part49(self) -> Option<u32> {
        match self {
            WinErrorWindows::ERROR_SXS_DUPLICATE_WINDOWCLASS_NAME => Some(14022),
            WinErrorWindows::ERROR_SXS_DUPLICATE_CLSID => Some(14023),
            WinErrorWindows::ERROR_SXS_DUPLICATE_IID => Some(14024),
            WinErrorWindows::ERROR_SXS_DUPLICATE_TLBID => Some(14025),
            WinErrorWindows::ERROR_SXS_DUPLICATE_PROGID => Some(14026),
            WinErrorWindows::ERROR_SXS_DUPLICATE_ASSEMBLY_NAME => Some(14027),
            WinErrorWindows::ERROR_SXS_FILE_HASH_MISMATCH => Some(14028),
            WinErrorWindows::ERROR_SXS_POLICY_PARSE_ERROR => Some(14029),
            WinErrorWindows::ERROR_SXS_XML_E_MISSINGQUOTE => Some(14030),
            WinErrorWindows::ERROR_SXS_XML_E_COMMENTSYNTAX => Some(14031),
            WinErrorWindows::ERROR_SXS_XML_E_BADSTARTNAMECHAR => Some(14032),
            WinErrorWindows::ERROR_SXS_XML_E_BADNAMECHAR => Some(14033),
            WinErrorWindows::ERROR_SXS_XML_E_BADCHARINSTRING => Some(14034),
            WinErrorWindows::ERROR_SXS_XML_E_XMLDECLSYNTAX => Some(14035),
            WinErrorWindows::ERROR_SXS_XML_E_BADCHARDATA => Some(14036),
            WinErrorWindows::ERROR_SXS_XML_E_MISSINGWHITESPACE => Some(14037),
            WinErrorWindows::ERROR_SXS_XML_E_EXPECTINGTAGEND => Some(14038),
            WinErrorWindows::ERROR_SXS_XML_E_MISSINGSEMICOLON => Some(14039),
            WinErrorWindows::ERROR_SXS_XML_E_UNBALANCEDPAREN => Some(14040),
            WinErrorWindows::ERROR_SXS_XML_E_INTERNALERROR => Some(14041),
            WinErrorWindows::ERROR_SXS_XML_E_UNEXPECTED_WHITESPACE => Some(14042),
            WinErrorWindows::ERROR_SXS_XML_E_INCOMPLETE_ENCODING => Some(14043),
            WinErrorWindows::ERROR_SXS_XML_E_MISSING_PAREN => Some(14044),
            WinErrorWindows::ERROR_SXS_XML_E_EXPECTINGCLOSEQUOTE => Some(14045),
            WinErrorWindows::ERROR_SXS_XML_E_MULTIPLE_COLONS => Some(14046),
            WinErrorWindows::ERROR_SXS_XML_E_INVALID_DECIMAL => Some(14047),
            WinErrorWindows::ERROR_SXS_XML_E_INVALID_HEXIDECIMAL => Some(14048),
            WinErrorWindows::ERROR_SXS_XML_E_INVALID_UNICODE => Some(14049),
            WinErrorWindows::ERROR_SXS_XML_E_WHITESPACEORQUESTIONMARK => Some(14050),
            WinErrorWindows::ERROR_SXS_XML_E_UNEXPECTEDENDTAG => Some(14051),
            WinErrorWindows::ERROR_SXS_XML_E_UNCLOSEDTAG => Some(14052),
            WinErrorWindows::ERROR_SXS_XML_E_DUPLICATEATTRIBUTE => Some(14053),
            WinErrorWindows::ERROR_SXS_XML_E_MULTIPLEROOTS => Some(14054),
            WinErrorWindows::ERROR_SXS_XML_E_INVALIDATROOTLEVEL => Some(14055),
            WinErrorWindows::ERROR_SXS_XML_E_BADXMLDECL => Some(14056),
            WinErrorWindows::ERROR_SXS_XML_E_MISSINGROOT => Some(14057),
            WinErrorWindows::ERROR_SXS_XML_E_UNEXPECTEDEOF => Some(14058),
            WinErrorWindows::ERROR_SXS_XML_E_BADPEREFINSUBSET => Some(14059),
            WinErrorWindows::ERROR_SXS_XML_E_UNCLOSEDSTARTTAG => Some(14060),
            WinErrorWindows::ERROR_SXS_XML_E_UNCLOSEDENDTAG => Some(14061),
            WinErrorWindows::ERROR_SXS_XML_E_UNCLOSEDSTRING => Some(14062),
            WinErrorWindows::ERROR_SXS_XML_E_UNCLOSEDCOMMENT => Some(14063),
            WinErrorWindows::ERROR_SXS_XML_E_UNCLOSEDDECL => Some(14064),
            WinErrorWindows::ERROR_SXS_XML_E_UNCLOSEDCDATA => Some(14065),
            WinErrorWindows::ERROR_SXS_XML_E_RESERVEDNAMESPACE => Some(14066),
            WinErrorWindows::ERROR_SXS_XML_E_INVALIDENCODING => Some(14067),
            WinErrorWindows::ERROR_SXS_XML_E_INVALIDSWITCH => Some(14068),
            WinErrorWindows::ERROR_SXS_XML_E_BADXMLCASE => Some(14069),
            WinErrorWindows::ERROR_SXS_XML_E_INVALID_STANDALONE => Some(14070),
            WinErrorWindows::ERROR_SXS_XML_E_UNEXPECTED_STANDALONE => Some(14071),
            _ => None,
        }
    }

    /// One slice of the symbol table: the symbol this slice gives a
    /// raw value, where it holds one.
    pub open spec fn spec_from_u32_part49(raw: u32) -> Option<WinErrorWindows> {
        match raw {
            14022 => Some(WinErrorWindows::ERROR_SXS_DUPLICATE_WINDOWCLASS_NAME),
            14023 => Some(WinErrorWindows::ERROR_SXS_DUPLICATE_CLSID),
            14024 => Some(WinErrorWindows::ERROR_SXS_DUPLICATE_IID),
            14025 => Some(WinErrorWindows::ERROR_SXS_DUPLICATE_TLBID),
            14026 => Some(WinErrorWindows::ERROR_SXS_DUPLICATE_PROGID),
            14027 => Some(WinErrorWindows::ERROR_SXS_DUPLICATE_ASSEMBLY_NAME),
            14028 => Some(WinErrorWindows::ERROR_SXS_FILE_HASH_MISMATCH),
            14029 => Some(WinErrorWindows::ERROR_SXS_POLICY_PARSE_ERROR),
            14030 => Some(WinErrorWindows::ERROR_SXS_XML_E_MISSINGQUOTE),
            14031 => Some(WinErrorWindows::ERROR_SXS_XML_E_COMMENTSYNTAX),
            14032 => Some(WinErrorWindows::ERROR_SXS_XML_E_BADSTARTNAMECHAR),
            14033 => Some(WinErrorWindows::ERROR_SXS_XML_E_BADNAMECHAR),
            14034 => Some(WinErrorWindows::ERROR_SXS_XML_E_BADCHARINSTRING),
            14035 => Some(WinErrorWindows::ERROR_SXS_XML_E_XMLDECLSYNTAX),
            14036 => Some(WinErrorWindows::ERROR_SXS_XML_E_BADCHARDATA),
            14037 => Some(WinErrorWindows::ERROR_SXS_XML_E_MISSINGWHITESPACE),
            14038 => Some(WinErrorWindows::ERROR_SXS_XML_E_EXPECTINGTAGEND),
            14039 => Some(WinErrorWindows::ERROR_SXS_XML_E_MISSINGSEMICOLON),
            14040 => Some(WinErrorWindows::ERROR_SXS_XML_E_UNBALANCEDPAREN),
            14041 => Some(WinErrorWindows::ERROR_SXS_XML_E_INTERNALERROR),
            14042 => Some(WinErrorWindows::ERROR_SXS_XML_E_UNEXPECTED_WHITESPACE),
            14043 => Some(WinErrorWindows::ERROR_SXS_XML_E_INCOMPLETE_ENCODING),
            14044 => Some(WinErrorWindows::ERROR_SXS_XML_E_MISSING_PAREN),
            14045 => Some(WinErrorWindows::ERROR_SXS_XML_E_EXPECTINGCLOSEQUOTE),
            14046 => Some(WinErrorWindows::ERROR_SXS_XML_E_MULTIPLE_COLONS),
            14047 => Some(WinErrorWindows::ERROR_SXS_XML_E_INVALID_DECIMAL),
            14048 => Some(WinErrorWindows::ERROR_SXS_XML_E_INVALID_HEXIDECIMAL),
            14049 => Some(WinErrorWindows::ERROR_SXS_XML_E_INVALID_UNICODE),
            14050 => Some(WinErrorWindows::ERROR_SXS_XML_E_WHITESPACEORQUESTIONMARK),
            14051 => Some(WinErrorWindows::ERROR_SXS_XML_E_UNEXPECTEDENDTAG),
            14052 => Some(WinErrorWindows::ERROR_SXS_XML_E_UNCLOSEDTAG),
            14053 => Some(WinErrorWindows::ERROR_SXS_XML_E_DUPLICATEATTRIBUTE),
            14054 => Some(WinErrorWindows::ERROR_SXS_XML_E_MULTIPLEROOTS),
            14055 => Some(WinErrorWindows::ERROR_SXS_XML_E_INVALIDATROOTLEVEL),
            14056 => Some(WinErrorWindows::ERROR_SXS_XML_E_BADXMLDECL),
            14057 => Some(WinErrorWindows::ERROR_SXS_XML_E_MISSINGROOT),
            14058 => Some(WinErrorWindows::ERROR_SXS_XML_E_UNEXPECTEDEOF),
            14059 => Some(WinErrorWindows::ERROR_SXS_XML_E_BADPEREFINSUBSET),
            14060 => Some(WinErrorWindows::ERROR_SXS_XML_E_UNCLOSEDSTARTTAG),
            14061 => Some(WinErrorWindows::ERROR_SXS_XML_E_UNCLOSEDENDTAG),
            14062 => Some(WinErrorWindows::ERROR_SXS_XML_E_UNCLOSEDSTRING),
            14063 => Some(WinErrorWindows::ERROR_SXS_XML_E_UNCLOSEDCOMMENT),
            14064 => Some(WinErrorWindows::ERROR_SXS_XML_E_UNCLOSEDDECL),
            14065 => Some(WinErrorWindows::ERROR_SXS_XML_E_UNCLOSEDCDATA),
            14066 => Some(WinErrorWindows::ERROR_SXS_XML_E_RESERVEDNAMESPACE),
            14067 => Some(WinErrorWindows::ERROR_SXS_XML_E_INVALIDENCODING),
            14068 => Some(WinErrorWindows::ERROR_SXS_XML_E_INVALIDSWITCH),
            14069 => Some(WinErrorWindows::ERROR_SXS_XML_E_BADXMLCASE),
            14070 => Some(WinErrorWindows::ERROR_SXS_XML_E_INVALID_STANDALONE),
            14071 => Some(WinErrorWindows::ERROR_SXS_XML_E_UNEXPECTED_STANDALONE),
            _ => None,
        }
    }

    /// One slice of the symbol table.
    #[verifier::spinoff_prover]
    #[verifier::rlimit(100)]
    fn to_u32_part49(self) -> (r: Option<u32>)
        ensures
            r == self.spec_to_u32_part49(),
    {
        match self {
            WinErrorWindows::ERROR_SXS_DUPLICATE_WINDOWCLASS_NAME => Some(14022),
            WinErrorWindows::ERROR_SXS_DUPLICATE_CLSID => Some(14023),
            WinErrorWindows::ERROR_SXS_DUPLICATE_IID => Some(14024),
            WinErrorWindows::ERROR_SXS_DUPLICATE_TLBID => Some(14025),
            WinErrorWindows::ERROR_SXS_DUPLICATE_PROGID => Some(14026),
            WinErrorWindows::ERROR_SXS_DUPLICATE_ASSEMBLY_NAME => Some(14027),
            WinErrorWindows::ERROR_SXS_FILE_HASH_MISMATCH => Some(14028),
            WinErrorWindows::ERROR_SXS_POLICY_PARSE_ERROR => Some(14029),
            WinErrorWindows::ERROR_SXS_XML_E_MISSINGQUOTE => Some(14030),
            WinErrorWindows::ERROR_SXS_XML_E_COMMENTSYNTAX => Some(14031),
            WinErrorWindows::ERROR_SXS_XML_E_BADSTARTNAMECHAR => Some(14032),
            WinErrorWindows::ERROR_SXS_XML_E_BADNAMECHAR => Some(14033),
            WinErrorWindows::ERROR_SXS_XML_E_BADCHARINSTRING => Some(14034),
            WinErrorWindows::ERROR_SXS_XML_E_XMLDECLSYNTAX => Some(14035),
            WinErrorWindows::ERROR_SXS_XML_E_BADCHARDATA => Some(14036),
            WinErrorWindows::ERROR_SXS_XML_E_MISSINGWHITESPACE => Some(14037),
            WinErrorWindows::ERROR_SXS_XML_E_EXPECTINGTAGEND => Some(14038),
            WinErrorWindows::ERROR_SXS_XML_E_MISSINGSEMICOLON => Some(14039),
            WinErrorWindows::ERROR_SXS_XML_E_UNBALANCEDPAREN => Some(14040),
            WinErrorWindows::ERROR_SXS_XML_E_INTERNALERROR => Some(14041),
            WinErrorWindows::ERROR_SXS_XML_E_UNEXPECTED_WHITESPACE => Some(14042),
            WinErrorWindows::ERROR_SXS_XML_E_INCOMPLETE_ENCODING => Some(14043),
            WinErrorWindows::ERROR_SXS_XML_E_MISSING_PAREN => Some(14044),
            WinErrorWindows::ERROR_SXS_XML_E_EXPECTINGCLOSEQUOTE => Some(14045),
            WinErrorWindows::ERROR_SXS_XML_E_MULTIPLE_COLONS => Some(14046),
            WinErrorWindows::ERROR_SXS_XML_E_INVALID_DECIMAL => Some(14047),
            WinErrorWindows::ERROR_SXS_XML_E_INVALID_HEXIDECIMAL => Some(14048),
            WinErrorWindows::ERROR_SXS_XML_E_INVALID_UNICODE => Some(14049),
            WinErrorWindows::ERROR_SXS_XML_E_WHITESPACEORQUESTIONMARK => Some(14050),
            WinErrorWindows::ERROR_SXS_XML_E_UNEXPECTEDENDTAG => Some(14051),
            WinErrorWindows::ERROR_SXS_XML_E_UNCLOSEDTAG => Some(14052),
            WinErrorWindows::ERROR_SXS_XML_E_DUPLICATEATTRIBUTE => Some(14053),
            WinErrorWindows::ERROR_SXS_XML_E_MULTIPLEROOTS => Some(14054),
            WinErrorWindows::ERROR_SXS_XML_E_INVALIDATROOTLEVEL => Some(14055),
            WinErrorWindows::ERROR_SXS_XML_E_BADXMLDECL => Some(14056),
            WinErrorWindows::ERROR_SXS_XML_E_MISSINGROOT => Some(14057),
            WinErrorWindows::ERROR_SXS_XML_E_UNEXPECTEDEOF => Some(14058),
            WinErrorWindows::ERROR_SXS_XML_E_BADPEREFINSUBSET => Some(14059),
            WinErrorWindows::ERROR_SXS_XML_E_UNCLOSEDSTARTTAG => Some(14060),
            WinErrorWindows::ERROR_SXS_XML_E_UNCLOSEDENDTAG => Some(14061),
            WinErrorWindows::ERROR_SXS_XML_E_UNCLOSEDSTRING => Some(14062),
            WinErrorWindows::ERROR_SXS_XML_E_UNCLOSEDCOMMENT => Some(14063),
            WinErrorWindows::ERROR_SXS_XML_E_UNCLOSEDDECL => Some(14064),
            WinErrorWindows::ERROR_SXS_XML_E_UNCLOSEDCDATA => Some(14065),
            WinErrorWindows::ERROR_SXS_XML_E_RESERVEDNAMESPACE => Some(14066),
            WinErrorWindows::ERROR_SXS_XML_E_INVALIDENCODING => Some(14067),
            WinErrorWindows::ERROR_SXS_XML_E_INVALIDSWITCH => Some(14068),
            WinErrorWindows::ERROR_SXS_XML_E_BADXMLCASE => Some(14069),
            WinErrorWindows::ERROR_SXS_XML_E_INVALID_STANDALONE => Some(14070),
            WinErrorWindows::ERROR_SXS_XML_E_UNEXPECTED_STANDALONE => Some(14071),
            _ => None,
        }
    }

    /// One slice of the symbol table.
    #[verifier::spinoff_prover]
    #[verifier::rlimit(100)]
    fn from_u32_part49(raw: u32) -> (r: Option<WinErrorWindows>)
        ensures
            r == WinErrorWindows::spec_from_u32_part49(raw),
    {
        match raw {
            14022 => Some(WinErrorWindows::ERROR_SXS_DUPLICATE_WINDOWCLASS_NAME),
            14023 => Some(WinErrorWindows::ERROR_SXS_DUPLICATE_CLSID),
            14024 => Some(WinErrorWindows::ERROR_SXS_DUPLICATE_IID),
            14025 => Some(WinErrorWindows::ERROR_SXS_DUPLICATE_TLBID),
            14026 => Some(WinErrorWindows::ERROR_SXS_DUPLICATE_PROGID),
            14027 => Some(WinErrorWindows::ERROR_SXS_DUPLICATE_ASSEMBLY_NAME),
            14028 => Some(WinErrorWindows::ERROR_SXS_FILE_HASH_MISMATCH),
            14029 => Some(WinErrorWindows::ERROR_SXS_POLICY_PARSE_ERROR),
            14030 => Some(WinErrorWindows::ERROR_SXS_XML_E_MISSINGQUOTE),
            14031 => Some(WinErrorWindows::ERROR_SXS_XML_E_COMMENTSYNTAX),
            14032 => Some(WinErrorWindows::ERROR_SXS_XML_E_BADSTARTNAMECHAR),
            14033 => Some(WinErrorWindows::ERROR_SXS_XML_E_BADNAMECHAR),
            14034 => Some(WinErrorWindows::ERROR_SXS_XML_E_BADCHARINSTRING),
            14035 => Some(WinErrorWindows::ERROR_SXS_XML_E_XMLDECLSYNTAX),
            14036 => Some(WinErrorWindows::ERROR_SXS_XML_E_BADCHARDATA),
            14037 => Some(WinErrorWindows::ERROR_SXS_XML_E_MISSINGWHITESPACE),
            14038 => Some(WinErrorWindows::ERROR_SXS_XML_E_EXPECTINGTAGEND),
            14039 => Some(WinErrorWindows::ERROR_SXS_XML_E_MISSINGSEMICOLON),
            14040 => Some(WinErrorWindows::ERROR_SXS_XML_E_UNBALANCEDPAREN),
            14041 => Some(WinErrorWindows::ERROR_SXS_XML_E_INTERNALERROR),
            14042 => Some(WinErrorWindows::ERROR_SXS_XML_E_UNEXPECTED_WHITESPACE),
            14043 => Some(WinErrorWindows::ERROR_SXS_XML_E_INCOMPLETE_ENCODING),
            14044 => Some(WinErrorWindows::ERROR_SXS_XML_E_MISSING_PAREN),
            14045 => Some(WinErrorWindows::ERROR_SXS_XML_E_EXPECTINGCLOSEQUOTE),
            14046 => Some(WinErrorWindows::ERROR_SXS_XML_E_MULTIPLE_COLONS),
            14047 => Some(WinErrorWindows::ERROR_SXS_XML_E_INVALID_DECIMAL),
            14048 => Some(WinErrorWindows::ERROR_SXS_XML_E_INVALID_HEXIDECIMAL),
            14049 => Some(WinErrorWindows::ERROR_SXS_XML_E_INVALID_UNICODE),
            14050 => Some(WinErrorWindows::ERROR_SXS_XML_E_WHITESPACEORQUESTIONMARK),
            14051 => Some(WinErrorWindows::ERROR_SXS_XML_E_UNEXPECTEDENDTAG),
            14052 => Some(WinErrorWindows::ERROR_SXS_XML_E_UNCLOSEDTAG),
            14053 => Some(WinErrorWindows::ERROR_SXS_XML_E_DUPLICATEATTRIBUTE),
            14054 => Some(WinErrorWindows::ERROR_SXS_XML_E_MULTIPLEROOTS),
            14055 => Some(WinErrorWindows::ERROR_SXS_XML_E_INVALIDATROOTLEVEL),
            14056 => Some(WinErrorWindows::ERROR_SXS_XML_E_BADXMLDECL),
            14057 => Some(WinErrorWindows::ERROR_SXS_XML_E_MISSINGROOT),
            14058 => Some(WinErrorWindows::ERROR_SXS_XML_E_UNEXPECTEDEOF),
            14059 => Some(WinErrorWindows::ERROR_SXS_XML_E_BADPEREFINSUBSET),
            14060 => Some(WinErrorWindows::ERROR_SXS_XML_E_UNCLOSEDSTARTTAG),
            14061 => Some(WinErrorWindows::ERROR_SXS_XML_E_UNCLOSEDENDTAG),
            14062 => Some(WinErrorWindows::ERROR_SXS_XML_E_UNCLOSEDSTRING),
            14063 => Some(WinErrorWindows::ERROR_SXS_XML_E_UNCLOSEDCOMMENT),
            14064 => Some(WinErrorWindows::ERROR_SXS_XML_E_UNCLOSEDDECL),
            14065 => Some(WinErrorWindows::ERROR_SXS_XML_E_UNCLOSEDCDATA),
            14066 => Some(WinErrorWindows::ERROR_SXS_XML_E_RESERVEDNAMESPACE),
            14067 => Some(WinErrorWindows::ERROR_SXS_XML_E_INVALIDENCODING),
            14068 => Some(WinErrorWindows::ERROR_SXS_XML_E_INVALIDSWITCH),
            14069 => Some(WinErrorWindows::ERROR_SXS_XML_E_BADXMLCASE),
            14070 => Some(WinErrorWindows::ERROR_SXS_XML_E_INVALID_STANDALONE),
            14071 => Some(WinErrorWindows::ERROR_SXS_XML_E_UNEXPECTED_STANDALONE),
            _ => None,
        }
    }

    /// One slice of the symbol table: the raw value of this symbol,
    /// where this slice holds it.
    pub open spec fn spec_to_u32_part50(self) -> Option<u32> {
        match self {
            WinErrorWindows::ERROR_SXS_XML_E_INVALID_VERSION => Some(14072),
            WinErrorWindows::ERROR_SXS_XML_E_MISSINGEQUALS => Some(14073),
            WinErrorWindows::ERROR_SXS_PROTECTION_RECOVERY_FAILED => Some(14074),
            WinErrorWindows::ERROR_SXS_PROTECTION_PUBLIC_KEY_TOO_SHORT => Some(14075),
            WinErrorWindows::ERROR_SXS_PROTECTION_CATALOG_NOT_VALID => Some(14076),
            WinErrorWindows::ERROR_SXS_UNTRANSLATABLE_HRESULT => Some(14077),
            WinErrorWindows::ERROR_SXS_PROTECTION_CATALOG_FILE_MISSING => Some(14078),
            WinErrorWindows::ERROR_SXS_MISSING_ASSEMBLY_IDENTITY_ATTRIBUTE => Some(14079),
            WinErrorWindows::ERROR_SXS_INVALID_ASSEMBLY_IDENTITY_ATTRIBUTE_NAME => Some(14080),
            WinErrorWindows::ERROR_SXS_ASSEMBLY_MISSING => Some(14081),
            WinErrorWindows::ERROR_SXS_CORRUPT_ACTIVATION_STACK => Some(14082),
            WinErrorWindows::ERROR_SXS_CORRUPTION => Some(14083),
            WinErrorWindows::ERROR_SXS_EARLY_DEACTIVATION => Some(14084),
            WinErrorWindows::ERROR_SXS_INVALID_DEACTIVATION => Some(14085),
            WinErrorWindows::ERROR_SXS_MULTIPLE_DEACTIVATION => Some(14086),
            WinErrorWindows::ERROR_SXS_PROCESS_TERMINATION_REQUESTED => Some(14087),
            WinErrorWindows::ERROR_SXS_RELEASE_ACTIVATION_CONTEXT => Some(14088),
            WinErrorWindows::ERROR_SXS_SYSTEM_DEFAULT_ACTIVATION_CONTEXT_EMPTY => Some(14089),
            WinErrorWindows::ERROR_SXS_INVALID_IDENTITY_ATTRIBUTE_VALUE => Some(14090),
            WinErrorWindows::ERROR_SXS_INVALID_IDENTITY_ATTRIBUTE_NAME => Some(14091),
            WinErrorWindows::ERROR_SXS_IDENTITY_DUPLICATE_ATTRIBUTE => Some(14092),
            WinErrorWindows::ERROR_SXS_IDENTITY_PARSE_ERROR => Some(14093),
            WinErrorWindows::ERROR_MALFORMED_SUBSTITUTION_STRING => Some(14094),
            WinErrorWindows::ERROR_SXS_INCORRECT_PUBLIC_KEY_TOKEN => Some(14095),
            WinErrorWindows::ERROR_UNMAPPED_SUBSTITUTION_STRING => Some(14096),
            WinErrorWindows::ERROR_SXS_ASSEMBLY_NOT_LOCKED => Some(14097),
            WinErrorWindows::ERROR_SXS_COMPONENT_STORE_CORRUPT => Some(14098),
            WinErrorWindows::ERROR_ADVANCED_INSTALLER_FAILED => Some(14099),
            WinErrorWindows::ERROR_XML_ENCODING_MISMATCH => Some(14100),
            WinErrorWindows::ERROR_SXS_MANIFEST_IDENTITY_SAME_BUT_CONTENTS_DIFFERENT => Some(14101),
            WinErrorWindows::ERROR_SXS_IDENTITIES_DIFFERENT => Some(14102),
            WinErrorWindows::ERROR_SXS_ASSEMBLY_IS_NOT_A_DEPLOYMENT => Some(14103),
            WinErrorWindows::ERROR_SXS_FILE_NOT_PART_OF_ASSEMBLY => Some(14104),
            WinErrorWindows::ERROR_SXS_MANIFEST_TOO_BIG => Some(14105),
            WinErrorWindows::ERROR_SXS_SETTING_NOT_REGISTERED => Some(14106),
            WinErrorWindows::ERROR_SXS_TRANSACTION_CLOSURE_INCOMPLETE => Some(14107),
            WinErrorWindows::ERROR_SMI_PRIMITIVE_INSTALLER_FAILED => Some(14108),
            WinErrorWindows::ERROR_GENERIC_COMMAND_FAILED => Some(14109),
            WinErrorWindows::ERROR_SXS_FILE_HASH_MISSING => Some(14110),
            WinErrorWindows::ERROR_SXS_DUPLICATE_ACTIVATABLE_CLASS => Some(14111),
            WinErrorWindows::ERROR_EVT_INVALID_CHANNEL_PATH => Some(15000),
            WinErrorWindows::ERROR_EVT_INVALID_QUERY => Some(15001),
            WinErrorWindows::ERROR_EVT_PUBLISHER_METADATA_NOT_FOUND => Some(15002),
            WinErrorWindows::ERROR_EVT_EVENT_TEMPLATE_NOT_FOUND => Some(15003),
            WinErrorWindows::ERROR_EVT_INVALID_PUBLISHER_NAME => Some(15004),
            WinErrorWindows::ERROR_EVT_INVALID_EVENT_DATA => Some(15005),
            WinErrorWindows::ERROR_EVT_CHANNEL_NOT_FOUND => Some(15007),
            WinErrorWindows::ERROR_EVT_MALFORMED_XML_TEXT => Some(15008),
            WinErrorWindows::ERROR_EVT_SUBSCRIPTION_TO_DIRECT_CHANNEL => Some(15009),
            WinErrorWindows::ERROR_EVT_CONFIGURATION_ERROR => Some(15010),
            _ => None,
        }
    }

    /// One slice of the symbol table: the symbol this slice gives a
    /// raw value, where it holds one.
    pub open spec fn spec_from_u32_part50(raw: u32) -> Option<WinErrorWindows> {
        match raw {
            14072 => Some(WinErrorWindows::ERROR_SXS_XML_E_INVALID_VERSION),
            14073 => Some(WinErrorWindows::ERROR_SXS_XML_E_MISSINGEQUALS),
            14074 => Some(WinErrorWindows::ERROR_SXS_PROTECTION_RECOVERY_FAILED),
            14075 => Some(WinErrorWindows::ERROR_SXS_PROTECTION_PUBLIC_KEY_TOO_SHORT),
            14076 => Some(WinErrorWindows::ERROR_SXS_PROTECTION_CATALOG_NOT_VALID),
            14077 => Some(WinErrorWindows::ERROR_SXS_UNTRANSLATABLE_HRESULT),
            14078 => Some(WinErrorWindows::ERROR_SXS_PROTECTION_CATALOG_FILE_MISSING),
            14079 => Some(WinErrorWindows::ERROR_SXS_MISSING_ASSEMBLY_IDENTITY_ATTRIBUTE),
            14080 => Some(WinErrorWindows::ERROR_SXS_INVALID_ASSEMBLY_IDENTITY_ATTRIBUTE_NAME),
            14081 => Some(WinErrorWindows::ERROR_SXS_ASSEMBLY_MISSING),
            14082 => Some(WinErrorWindows::ERROR_SXS_CORRUPT_ACTIVATION_STACK),
            14083 => Some(WinErrorWindows::ERROR_SXS_CORRUPTION),
            14084 => Some(WinErrorWindows::ERROR_SXS_EARLY_DEACTIVATION),
            14085 => Some(WinErrorWindows::ERROR_SXS_INVALID_DEACTIVATION),
            14086 => Some(WinErrorWindows::ERROR_SXS_MULTIPLE_DEACTIVATION),
            14087 => Some(WinErrorWindows::ERROR_SXS_PROCESS_TERMINATION_REQUESTED),
            14088 => Some(WinErrorWindows::ERROR_SXS_RELEASE_ACTIVATION_CONTEXT),
            14089 => Some(WinErrorWindows::ERROR_SXS_SYSTEM_DEFAULT_ACTIVATION_CONTEXT_EMPTY),
            14090 => Some(WinErrorWindows::ERROR_SXS_INVALID_IDENTITY_ATTRIBUTE_VALUE),
            14091 => Some(WinErrorWindows::ERROR_SXS_INVALID_IDENTITY_ATTRIBUTE_NAME),
            14092 => Some(WinErrorWindows::ERROR_SXS_IDENTITY_DUPLICATE_ATTRIBUTE),
            14093 => Some(WinErrorWindows::ERROR_SXS_IDENTITY_PARSE_ERROR),
            14094 => Some(WinErrorWindows::ERROR_MALFORMED_SUBSTITUTION_STRING),
            14095 => Some(WinErrorWindows::ERROR_SXS_INCORRECT_PUBLIC_KEY_TOKEN),
            14096 => Some(WinErrorWindows::ERROR_UNMAPPED_SUBSTITUTION_STRING),
            14097 => Some(WinErrorWindows::ERROR_SXS_ASSEMBLY_NOT_LOCKED),
            14098 => Some(WinErrorWindows::ERROR_SXS_COMPONENT_STORE_CORRUPT),
            14099 => Some(WinErrorWindows::ERROR_ADVANCED_INSTALLER_FAILED),
            14100 => Some(WinErrorWindows::ERROR_XML_ENCODING_MISMATCH),
            14101 => Some(WinErrorWindows::ERROR_SXS_MANIFEST_IDENTITY_SAME_BUT_CONTENTS_DIFFERENT),
            14102 => Some(WinErrorWindows::ERROR_SXS_IDENTITIES_DIFFERENT),
            14103 => Some(WinErrorWindows::ERROR_SXS_ASSEMBLY_IS_NOT_A_DEPLOYMENT),
            14104 => Some(WinErrorWindows::ERROR_SXS_FILE_NOT_PART_OF_ASSEMBLY),
            14105 => Some(WinErrorWindows::ERROR_SXS_MANIFEST_TOO_BIG),
            14106 => Some(WinErrorWindows::ERROR_SXS_SETTING_NOT_REGISTERED),
            14107 => Some(WinErrorWindows::ERROR_SXS_TRANSACTION_CLOSURE_INCOMPLETE),
            14108 => Some(WinErrorWindows::ERROR_SMI_PRIMITIVE_INSTALLER_FAILED),
            14109 => Some(WinErrorWindows::ERROR_GENERIC_COMMAND_FAILED),
            14110 => Some(WinErrorWindows::ERROR_SXS_FILE_HASH_MISSING),
            14111 => Some(WinErrorWindows::ERROR_SXS_DUPLICATE_ACTIVATABLE_CLASS),
            15000 => Some(WinErrorWindows::ERROR_EVT_INVALID_CHANNEL_PATH),
            15001 => Some(WinErrorWindows::ERROR_EVT_INVALID_QUERY),
            15002 => Some(WinErrorWindows::ERROR_EVT_PUBLISHER_METADATA_NOT_FOUND),
            15003 => Some(WinErrorWindows::ERROR_EVT_EVENT_TEMPLATE_NOT_FOUND),
            15004 => Some(WinErrorWindows::ERROR_EVT_INVALID_PUBLISHER_NAME),
            15005 => Some(WinErrorWindows::ERROR_EVT_INVALID_EVENT_DATA),
            15007 => Some(WinErrorWindows::ERROR_EVT_CHANNEL_NOT_FOUND),
            15008 => Some(WinErrorWindows::ERROR_EVT_MALFORMED_XML_TEXT),
            15009 => Some(WinErrorWindows::ERROR_EVT_SUBSCRIPTION_TO_DIRECT_CHANNEL),
            15010 => Some(WinErrorWindows::ERROR_EVT_CONFIGURATION_ERROR),
            _ => None,
        }
    }

    /// One slice of the symbol table.
    #[verifier::spinoff_prover]
    #[verifier::rlimit(100)]
    fn to_u32_part50(self) -> (r: Option<u32>)
        ensures
            r == self.spec_to_u32_part50(),
    {
        match self {
            WinErrorWindows::ERROR_SXS_XML_E_INVALID_VERSION => Some(14072),
            WinErrorWindows::ERROR_SXS_XML_E_MISSINGEQUALS => Some(14073),
            WinErrorWindows::ERROR_SXS_PROTECTION_RECOVERY_FAILED => Some(14074),
            WinErrorWindows::ERROR_SXS_PROTECTION_PUBLIC_KEY_TOO_SHORT => Some(14075),
            WinErrorWindows::ERROR_SXS_PROTECTION_CATALOG_NOT_VALID => Some(14076),
            WinErrorWindows::ERROR_SXS_UNTRANSLATABLE_HRESULT => Some(14077),
            WinErrorWindows::ERROR_SXS_PROTECTION_CATALOG_FILE_MISSING => Some(14078),
            WinErrorWindows::ERROR_SXS_MISSING_ASSEMBLY_IDENTITY_ATTRIBUTE => Some(14079),
            WinErrorWindows::ERROR_SXS_INVALID_ASSEMBLY_IDENTITY_ATTRIBUTE_NAME => Some(14080),
            WinErrorWindows::ERROR_SXS_ASSEMBLY_MISSING => Some(14081),
            WinErrorWindows::ERROR_SXS_CORRUPT_ACTIVATION_STACK => Some(14082),
            WinErrorWindows::ERROR_SXS_CORRUPTION => Some(14083),
            WinErrorWindows::ERROR_SXS_EARLY_DEACTIVATION => Some(14084),
            WinErrorWindows::ERROR_SXS_INVALID_DEACTIVATION => Some(14085),
            WinErrorWindows::ERROR_SXS_MULTIPLE_DEACTIVATION => Some(14086),
            WinErrorWindows::ERROR_SXS_PROCESS_TERMINATION_REQUESTED => Some(14087),
            WinErrorWindows::ERROR_SXS_RELEASE_ACTIVATION_CONTEXT => Some(14088),
            WinErrorWindows::ERROR_SXS_SYSTEM_DEFAULT_ACTIVATION_CONTEXT_EMPTY => Some(14089),
            WinErrorWindows::ERROR_SXS_INVALID_IDENTITY_ATTRIBUTE_VALUE => Some(14090),
            WinErrorWindows::ERROR_SXS_INVALID_IDENTITY_ATTRIBUTE_NAME => Some(14091),
            WinErrorWindows::ERROR_SXS_IDENTITY_DUPLICATE_ATTRIBUTE => Some(14092),
            WinErrorWindows::ERROR_SXS_IDENTITY_PARSE_ERROR => Some(14093),
            WinErrorWindows::ERROR_MALFORMED_SUBSTITUTION_STRING => Some(14094),
            WinErrorWindows::ERROR_SXS_INCORRECT_PUBLIC_KEY_TOKEN => Some(14095),
            WinErrorWindows::ERROR_UNMAPPED_SUBSTITUTION_STRING => Some(14096),
            WinErrorWindows::ERROR_SXS_ASSEMBLY_NOT_LOCKED => Some(14097),
            WinErrorWindows::ERROR_SXS_COMPONENT_STORE_CORRUPT => Some(14098),
            WinErrorWindows::ERROR_ADVANCED_INSTALLER_FAILED => Some(14099),
            WinErrorWindows::ERROR_XML_ENCODING_MISMATCH => Some(14100),
            WinErrorWindows::ERROR_SXS_MANIFEST_IDENTITY_SAME_BUT_CONTENTS_DIFFERENT => Some(14101),
            WinErrorWindows::ERROR_SXS_IDENTITIES_DIFFERENT => Some(14102),
            WinErrorWindows::ERROR_SXS_ASSEMBLY_IS_NOT_A_DEPLOYMENT => Some(14103),
            WinErrorWindows::ERROR_SXS_FILE_NOT_PART_OF_ASSEMBLY => Some(14104),
            WinErrorWindows::ERROR_SXS_MANIFEST_TOO_BIG => Some(14105),
            WinErrorWindows::ERROR_SXS_SETTING_NOT_REGISTERED => Some(14106),
            WinErrorWindows::ERROR_SXS_TRANSACTION_CLOSURE_INCOMPLETE => Some(14107),
            WinErrorWindows::ERROR_SMI_PRIMITIVE_INSTALLER_FAILED => Some(14108),
            WinErrorWindows::ERROR_GENERIC_COMMAND_FAILED => Some(14109),
            WinErrorWindows::ERROR_SXS_FILE_HASH_MISSING => Some(14110),
            WinErrorWindows::ERROR_SXS_DUPLICATE_ACTIVATABLE_CLASS => Some(14111),
            WinErrorWindows::ERROR_EVT_INVALID_CHANNEL_PATH => Some(15000),
            WinErrorWindows::ERROR_EVT_INVALID_QUERY => Some(15001),
            WinErrorWindows::ERROR_EVT_PUBLISHER_METADATA_NOT_FOUND => Some(15002),
            WinErrorWindows::ERROR_EVT_EVENT_TEMPLATE_NOT_FOUND => Some(15003),
            WinErrorWindows::ERROR_EVT_INVALID_PUBLISHER_NAME => Some(15004),
            WinErrorWindows::ERROR_EVT_INVALID_EVENT_DATA => Some(15005),
            WinErrorWindows::ERROR_EVT_CHANNEL_NOT_FOUND => Some(15007),
            WinErrorWindows::ERROR_EVT_MALFORMED_XML_TEXT => Some(15008),
            WinErrorWindows::ERROR_EVT_SUBSCRIPTION_TO_DIRECT_CHANNEL => Some(15009),
            WinErrorWindows::ERROR_EVT_CONFIGURATION_ERROR => Some(15010),
            _ => None,
        }
    }

    /// One slice of the symbol table.
    #[verifier::spinoff_prover]
    #[verifier::rlimit(100)]
    fn from_u32_part50(raw: u32) -> (r: Option<WinErrorWindows>)
        ensures
            r == WinErrorWindows::spec_from_u32_part50(raw),
    {
        match raw {
            14072 => Some(WinErrorWindows::ERROR_SXS_XML_E_INVALID_VERSION),
            14073 => Some(WinErrorWindows::ERROR_SXS_XML_E_MISSINGEQUALS),
            14074 => Some(WinErrorWindows::ERROR_SXS_PROTECTION_RECOVERY_FAILED),
            14075 => Some(WinErrorWindows::ERROR_SXS_PROTECTION_PUBLIC_KEY_TOO_SHORT),
            14076 => Some(WinErrorWindows::ERROR_SXS_PROTECTION_CATALOG_NOT_VALID),
            14077 => Some(WinErrorWindows::ERROR_SXS_UNTRANSLATABLE_HRESULT),
            14078 => Some(WinErrorWindows::ERROR_SXS_PROTECTION_CATALOG_FILE_MISSING),
            14079 => Some(WinErrorWindows::ERROR_SXS_MISSING_ASSEMBLY_IDENTITY_ATTRIBUTE),
            14080 => Some(WinErrorWindows::ERROR_SXS_INVALID_ASSEMBLY_IDENTITY_ATTRIBUTE_NAME),
            14081 => Some(WinErrorWindows::ERROR_SXS_ASSEMBLY_MISSING),
            14082 => Some(WinErrorWindows::ERROR_SXS_CORRUPT_ACTIVATION_STACK),
            14083 => Some(WinErrorWindows::ERROR_SXS_CORRUPTION),
            14084 => Some(WinErrorWindows::ERROR_SXS_EARLY_DEACTIVATION),
            14085 => Some(WinErrorWindows::ERROR_SXS_INVALID_DEACTIVATION),
            14086 => Some(WinErrorWindows::ERROR_SXS_MULTIPLE_DEACTIVATION),
            14087 => Some(WinErrorWindows::ERROR_SXS_PROCESS_TERMINATION_REQUESTED),
            14088 => Some(WinErrorWindows::ERROR_SXS_RELEASE_ACTIVATION_CONTEXT),
            14089 => Some(WinErrorWindows::ERROR_SXS_SYSTEM_DEFAULT_ACTIVATION_CONTEXT_EMPTY),
            14090 => Some(WinErrorWindows::ERROR_SXS_INVALID_IDENTITY_ATTRIBUTE_VALUE),
            14091 => Some(WinErrorWindows::ERROR_SXS_INVALID_IDENTITY_ATTRIBUTE_NAME),
            14092 => Some(WinErrorWindows::ERROR_SXS_IDENTITY_DUPLICATE_ATTRIBUTE),
            14093 => Some(WinErrorWindows::ERROR_SXS_IDENTITY_PARSE_ERROR),
            14094 => Some(WinErrorWindows::ERROR_MALFORMED_SUBSTITUTION_STRING),
            14095 => Some(WinErrorWindows::ERROR_SXS_INCORRECT_PUBLIC_KEY_TOKEN),
            14096 => Some(WinErrorWindows::ERROR_UNMAPPED_SUBSTITUTION_STRING),
            14097 => Some(WinErrorWindows::ERROR_SXS_ASSEMBLY_NOT_LOCKED),
            14098 => Some(WinErrorWindows::ERROR_SXS_COMPONENT_STORE_CORRUPT),
            14099 => Some(WinErrorWindows::ERROR_ADVANCED_INSTALLER_FAILED),
            14100 => Some(WinErrorWindows::ERROR_XML_ENCODING_MISMATCH),
            14101 => Some(WinErrorWindows::ERROR_SXS_MANIFEST_IDENTITY_SAME_BUT_CONTENTS_DIFFERENT),
            14102 => Some(WinErrorWindows::ERROR_SXS_IDENTITIES_DIFFERENT),
            14103 => Some(WinErrorWindows::ERROR_SXS_ASSEMBLY_IS_NOT_A_DEPLOYMENT),
            14104 => Some(WinErrorWindows::ERROR_SXS_FILE_NOT_PART_OF_ASSEMBLY),
            14105 => Some(WinErrorWindows::ERROR_SXS_MANIFEST_TOO_BIG),
            14106 => Some(WinErrorWindows::ERROR_SXS_SETTING_NOT_REGISTERED),
            14107 => Some(WinErrorWindows::ERROR_SXS_TRANSACTION_CLOSURE_INCOMPLETE),
            14108 => Some(WinErrorWindows::ERROR_SMI_PRIMITIVE_INSTALLER_FAILED),
            14109 => Some(WinErrorWindows::ERROR_GENERIC_COMMAND_FAILED),
            14110 => Some(WinErrorWindows::ERROR_SXS_FILE_HASH_MISSING),
            14111 => Some(WinErrorWindows::ERROR_SXS_DUPLICATE_ACTIVATABLE_CLASS),
            15000 => Some(WinErrorWindows::ERROR_EVT_INVALID_CHANNEL_PATH),
            15001 => Some(WinErrorWindows::ERROR_EVT_INVALID_QUERY),
            15002 => Some(WinErrorWindows::ERROR_EVT_PUBLISHER_METADATA_NOT_FOUND),
            15003 => Some(WinErrorWindows::ERROR_EVT_EVENT_TEMPLATE_NOT_FOUND),
            15004 => Some(WinErrorWindows::ERROR_EVT_INVALID_PUBLISHER_NAME),
            15005 => Some(WinErrorWindows::ERROR_EVT_INVALID_EVENT_DATA),
            15007 => Some(WinErrorWindows::ERROR_EVT_CHANNEL_NOT_FOUND),
            15008 => Some(WinErrorWindows::ERROR_EVT_MALFORMED_XML_TEXT),
            15009 => Some(WinErrorWindows::ERROR_EVT_SUBSCRIPTION_TO_DIRECT_CHANNEL),
            15010 => Some(WinErrorWindows::ERROR_EVT_CONFIGURATION_ERROR),
            _ => None,
        }
    }

    /// One slice of the symbol table: the raw value of this symbol,
    /// where this slice holds it.
    pub open spec fn spec_to_u32_part51(self) -> Option<u32> {
        match self {
            WinErrorWindows::ERROR_EVT_QUERY_RESULT_STALE => Some(15011),
            WinErrorWindows::ERROR_EVT_QUERY_RESULT_INVALID_POSITION => Some(15012),
            WinErrorWindows::ERROR_EVT_NON_VALIDATING_MSXML => Some(15013),
            WinErrorWindows::ERROR_EVT_FILTER_ALREADYSCOPED => Some(15014),
            WinErrorWindows::ERROR_EVT_FILTER_NOTELTSET => Some(15015),
            WinErrorWindows::ERROR_EVT_FILTER_INVARG => Some(15016),
            WinErrorWindows::ERROR_EVT_FILTER_INVTEST => Some(15017),
            WinErrorWindows::ERROR_EVT_FILTER_INVTYPE => Some(15018),
            WinErrorWindows::ERROR_EVT_FILTER_PARSEERR => Some(15019),
            WinErrorWindows::ERROR_EVT_FILTER_UNSUPPORTEDOP => Some(15020),
            WinErrorWindows::ERROR_EVT_FILTER_UNEXPECTEDTOKEN => Some(15021),
            WinErrorWindows::ERROR_EVT_INVALID_OPERATION_OVER_ENABLED_DIRECT_CHANNEL => Some(15022),
            WinErrorWindows::ERROR_EVT_INVALID_CHANNEL_PROPERTY_VALUE => Some(15023),
            WinErrorWindows::ERROR_EVT_INVALID_PUBLISHER_PROPERTY_VALUE => Some(15024),
            WinErrorWindows::ERROR_EVT_CHANNEL_CANNOT_ACTIVATE => Some(15025),
            WinErrorWindows::ERROR_EVT_FILTER_TOO_COMPLEX => Some(15026),
            WinErrorWindows::ERROR_EVT_MESSAGE_NOT_FOUND => Some(15027),
            WinErrorWindows::ERROR_EVT_MESSAGE_ID_NOT_FOUND => Some(15028),
            WinErrorWindows::ERROR_EVT_UNRESOLVED_VALUE_INSERT => Some(15029),
            WinErrorWindows::ERROR_EVT_UNRESOLVED_PARAMETER_INSERT => Some(15030),
            WinErrorWindows::ERROR_EVT_MAX_INSERTS_REACHED => Some(15031),
            WinErrorWindows::ERROR_EVT_EVENT_DEFINITION_NOT_FOUND => Some(15032),
            WinErrorWindows::ERROR_EVT_MESSAGE_LOCALE_NOT_FOUND => Some(15033),
            WinErrorWindows::ERROR_EVT_VERSION_TOO_OLD => Some(15034),
            WinErrorWindows::ERROR_EVT_VERSION_TOO_NEW => Some(15035),
            WinErrorWindows::ERROR_EVT_CANNOT_OPEN_CHANNEL_OF_QUERY => Some(15036),
            WinErrorWindows::ERROR_EVT_PUBLISHER_DISABLED => Some(15037),
            WinErrorWindows::ERROR_EVT_FILTER_OUT_OF_RANGE => Some(15038),
            WinErrorWindows::ERROR_EC_SUBSCRIPTION_CANNOT_ACTIVATE => Some(15080),
            WinErrorWindows::ERROR_EC_LOG_DISABLED => Some(15081),
            WinErrorWindows::ERROR_EC_CIRCULAR_FORWARDING => Some(15082),
            WinErrorWindows::ERROR_EC_CREDSTORE_FULL => Some(15083),
            WinErrorWindows::ERROR_EC_CRED_NOT_FOUND => Some(15084),
            WinErrorWindows::ERROR_EC_NO_ACTIVE_CHANNEL => Some(15085),
            WinErrorWindows::ERROR_MUI_FILE_NOT_FOUND => Some(15100),
            WinErrorWindows::ERROR_MUI_INVALID_FILE => Some(15101),
            WinErrorWindows::ERROR_MUI_INVALID_RC_CONFIG => Some(15102),
            WinErrorWindows::ERROR_MUI_INVALID_LOCALE_NAME => Some(15103),
            WinErrorWindows::ERROR_MUI_INVALID_ULTIMATEFALLBACK_NAME => Some(15104),
            WinErrorWindows::ERROR_MUI_FILE_NOT_LOADED => Some(15105),
            WinErrorWindows::ERROR_RESOURCE_ENUM_USER_STOP => Some(15106),
            WinErrorWindows::ERROR_MUI_INTLSETTINGS_UILANG_NOT_INSTALLED => Some(15107),
            WinErrorWindows::ERROR_MUI_INTLSETTINGS_INVALID_LOCALE_NAME => Some(15108),
            WinErrorWindows::ERROR_MRM_RUNTIME_NO_DEFAULT_OR_NEUTRAL_RESOURCE => Some(15110),
            WinErrorWindows::ERROR_MRM_INVALID_PRICONFIG => Some(15111),
            WinErrorWindows::ERROR_MRM_INVALID_FILE_TYPE => Some(15112),
            WinErrorWindows::ERROR_MRM_UNKNOWN_QUALIFIER => Some(15113),
            WinErrorWindows::ERROR_MRM_INVALID_QUALIFIER_VALUE => Some(15114),
            WinErrorWindows::ERROR_MRM_NO_CANDIDATE => Some(15115),
            WinErrorWindows::ERROR_MRM_NO_MATCH_OR_DEFAULT_CANDIDATE => Some(15116),
            _ => None,
        }
    }

    /// One slice of the symbol table: the symbol this slice gives a
    /// raw value, where it holds one.
    pub open spec fn spec_from_u32_part51(raw: u32) -> Option<WinErrorWindows> {
        match raw {
            15011 => Some(WinErrorWindows::ERROR_EVT_QUERY_RESULT_STALE),
            15012 => Some(WinErrorWindows::ERROR_EVT_QUERY_RESULT_INVALID_POSITION),
            15013 => Some(WinErrorWindows::ERROR_EVT_NON_VALIDATING_MSXML),
            15014 => Some(WinErrorWindows::ERROR_EVT_FILTER_ALREADYSCOPED),
            15015 => Some(WinErrorWindows::ERROR_EVT_FILTER_NOTELTSET),
            15016 => Some(WinErrorWindows::ERROR_EVT_FILTER_INVARG),
            15017 => Some(WinErrorWindows::ERROR_EVT_FILTER_INVTEST),
            15018 => Some(WinErrorWindows::ERROR_EVT_FILTER_INVTYPE),
            15019 => Some(WinErrorWindows::ERROR_EVT_FILTER_PARSEERR),
            15020 => Some(WinErrorWindows::ERROR_EVT_FILTER_UNSUPPORTEDOP),
            15021 => Some(WinErrorWindows::ERROR_EVT_FILTER_UNEXPECTEDTOKEN),
            15022 => Some(WinErrorWindows::ERROR_EVT_INVALID_OPERATION_OVER_ENABLED_DIRECT_CHANNEL),
            15023 => Some(WinErrorWindows::ERROR_EVT_INVALID_CHANNEL_PROPERTY_VALUE),
            15024 => Some(WinErrorWindows::ERROR_EVT_INVALID_PUBLISHER_PROPERTY_VALUE),
            15025 => Some(WinErrorWindows::ERROR_EVT_CHANNEL_CANNOT_ACTIVATE),
            15026 => Some(WinErrorWindows::ERROR_EVT_FILTER_TOO_COMPLEX),
            15027 => Some(WinErrorWindows::ERROR_EVT_MESSAGE_NOT_FOUND),
            15028 => Some(WinErrorWindows::ERROR_EVT_MESSAGE_ID_NOT_FOUND),
            15029 => Some(WinErrorWindows::ERROR_EVT_UNRESOLVED_VALUE_INSERT),
            15030 => Some(WinErrorWindows::ERROR_EVT_UNRESOLVED_PARAMETER_INSERT),
            15031 => Some(WinErrorWindows::ERROR_EVT_MAX_INSERTS_REACHED),
            15032 => Some(WinErrorWindows::ERROR_EVT_EVENT_DEFINITION_NOT_FOUND),
            15033 => Some(WinErrorWindows::ERROR_EVT_MESSAGE_LOCALE_NOT_FOUND),
            15034 => Some(WinErrorWindows::ERROR_EVT_VERSION_TOO_OLD),
            15035 => Some(WinErrorWindows::ERROR_EVT_VERSION_TOO_NEW),
            15036 => Some(WinErrorWindows::ERROR_EVT_CANNOT_OPEN_CHANNEL_OF_QUERY),
            15037 => Some(WinErrorWindows::ERROR_EVT_PUBLISHER_DISABLED),
            15038 => Some(WinErrorWindows::ERROR_EVT_FILTER_OUT_OF_RANGE),
            15080 => Some(WinErrorWindows::ERROR_EC_SUBSCRIPTION_CANNOT_ACTIVATE),
            15081 => Some(WinErrorWindows::ERROR_EC_LOG_DISABLED),
            15082 => Some(WinErrorWindows::ERROR_EC_CIRCULAR_FORWARDING),
            15083 => Some(WinErrorWindows::ERROR_EC_CREDSTORE_FULL),
            15084 => Some(WinErrorWindows::ERROR_EC_CRED_NOT_FOUND),
            15085 => Some(WinErrorWindows::ERROR_EC_NO_ACTIVE_CHANNEL),
            15100 => Some(WinErrorWindows::ERROR_MUI_FILE_NOT_FOUND),
            15101 => Some(WinErrorWindows::ERROR_MUI_INVALID_FILE),
            15102 => Some(WinErrorWindows::ERROR_MUI_INVALID_RC_CONFIG),
            15103 => Some(WinErrorWindows::ERROR_MUI_INVALID_LOCALE_NAME),
            15104 => Some(WinErrorWindows::ERROR_MUI_INVALID_ULTIMATEFALLBACK_NAME),
            15105 => Some(WinErrorWindows::ERROR_MUI_FILE_NOT_LOADED),
            15106 => Some(WinErrorWindows::ERROR_RESOURCE_ENUM_USER_STOP),
            15107 => Some(WinErrorWindows::ERROR_MUI_INTLSETTINGS_UILANG_NOT_INSTALLED),
            15108 => Some(WinErrorWindows::ERROR_MUI_INTLSETTINGS_INVALID_LOCALE_NAME),
            15110 => Some(WinErrorWindows::ERROR_MRM_RUNTIME_NO_DEFAULT_OR_NEUTRAL_RESOURCE),
            15111 => Some(WinErrorWindows::ERROR_MRM_INVALID_PRICONFIG),
            15112 => Some(WinErrorWindows::ERROR_MRM_INVALID_FILE_TYPE),
            15113 => Some(WinErrorWindows::ERROR_MRM_UNKNOWN_QUALIFIER),
            15114 => Some(WinErrorWindows::ERROR_MRM_INVALID_QUALIFIER_VALUE),
            15115 => Some(WinErrorWindows::ERROR_MRM_NO_CANDIDATE),
            15116 => Some(WinErrorWindows::ERROR_MRM_NO_MATCH_OR_DEFAULT_CANDIDATE),
            _ => None,
        }
    }

    /// One slice of the symbol table.
    #[verifier::spinoff_prover]
    #[verifier::rlimit(100)]
    fn to_u32_part51(self) -> (r: Option<u32>)
        ensures
            r == self.spec_to_u32_part51(),
    {
        match self {
            WinErrorWindows::ERROR_EVT_QUERY_RESULT_STALE => Some(15011),
            WinErrorWindows::ERROR_EVT_QUERY_RESULT_INVALID_POSITION => Some(15012),
            WinErrorWindows::ERROR_EVT_NON_VALIDATING_MSXML => Some(15013),
            WinErrorWindows::ERROR_EVT_FILTER_ALREADYSCOPED => Some(15014),
            WinErrorWindows::ERROR_EVT_FILTER_NOTELTSET => Some(15015),
            WinErrorWindows::ERROR_EVT_FILTER_INVARG => Some(15016),
            WinErrorWindows::ERROR_EVT_FILTER_INVTEST => Some(15017),
            WinErrorWindows::ERROR_EVT_FILTER_INVTYPE => Some(15018),
            WinErrorWindows::ERROR_EVT_FILTER_PARSEERR => Some(15019),
            WinErrorWindows::ERROR_EVT_FILTER_UNSUPPORTEDOP => Some(15020),
            WinErrorWindows::ERROR_EVT_FILTER_UNEXPECTEDTOKEN => Some(15021),
            WinErrorWindows::ERROR_EVT_INVALID_OPERATION_OVER_ENABLED_DIRECT_CHANNEL => Some(15022),
            WinErrorWindows::ERROR_EVT_INVALID_CHANNEL_PROPERTY_VALUE => Some(15023),
            WinErrorWindows::ERROR_EVT_INVALID_PUBLISHER_PROPERTY_VALUE => Some(15024),
            WinErrorWindows::ERROR_EVT_CHANNEL_CANNOT_ACTIVATE => Some(15025),
            WinErrorWindows::ERROR_EVT_FILTER_TOO_COMPLEX => Some(15026),
            WinErrorWindows::ERROR_EVT_MESSAGE_NOT_FOUND => Some(15027),
            WinErrorWindows::ERROR_EVT_MESSAGE_ID_NOT_FOUND => Some(15028),
            WinErrorWindows::ERROR_EVT_UNRESOLVED_VALUE_INSERT => Some(15029),
            WinErrorWindows::ERROR_EVT_UNRESOLVED_PARAMETER_INSERT => Some(15030),
            WinErrorWindows::ERROR_EVT_MAX_INSERTS_REACHED => Some(15031),
            WinErrorWindows::ERROR_EVT_EVENT_DEFINITION_NOT_FOUND => Some(15032),
            WinErrorWindows::ERROR_EVT_MESSAGE_LOCALE_NOT_FOUND => Some(15033),
            WinErrorWindows::ERROR_EVT_VERSION_TOO_OLD => Some(15034),
            WinErrorWindows::ERROR_EVT_VERSION_TOO_NEW => Some(15035),
            WinErrorWindows::ERROR_EVT_CANNOT_OPEN_CHANNEL_OF_QUERY => Some(15036),
            WinErrorWindows::ERROR_EVT_PUBLISHER_DISABLED => Some(15037),
            WinErrorWindows::ERROR_EVT_FILTER_OUT_OF_RANGE => Some(15038),
            WinErrorWindows::ERROR_EC_SUBSCRIPTION_CANNOT_ACTIVATE => Some(15080),
            WinErrorWindows::ERROR_EC_LOG_DISABLED => Some(15081),
            WinErrorWindows::ERROR_EC_CIRCULAR_FORWARDING => Some(15082),
            WinErrorWindows::ERROR_EC_CREDSTORE_FULL => Some(15083),
            WinErrorWindows::ERROR_EC_CRED_NOT_FOUND => Some(15084),
            WinErrorWindows::ERROR_EC_NO_ACTIVE_CHANNEL => Some(15085),
            WinErrorWindows::ERROR_MUI_FILE_NOT_FOUND => Some(15100),
            WinErrorWindows::ERROR_MUI_INVALID_FILE => Some(15101),
            WinErrorWindows::ERROR_MUI_INVALID_RC_CONFIG => Some(15102),
            WinErrorWindows::ERROR_MUI_INVALID_LOCALE_NAME => Some(15103),
            WinErrorWindows::ERROR_MUI_INVALID_ULTIMATEFALLBACK_NAME => Some(15104),
            WinErrorWindows::ERROR_MUI_FILE_NOT_LOADED => Some(15105),
            WinErrorWindows::ERROR_RESOURCE_ENUM_USER_STOP => Some(15106),
            WinErrorWindows::ERROR_MUI_INTLSETTINGS_UILANG_NOT_INSTALLED => Some(15107),
            WinErrorWindows::ERROR_MUI_INTLSETTINGS_INVALID_LOCALE_NAME => Some(15108),
            WinErrorWindows::ERROR_MRM_RUNTIME_NO_DEFAULT_OR_NEUTRAL_RESOURCE => Some(15110),
            WinErrorWindows::ERROR_MRM_INVALID_PRICONFIG => Some(15111),
            WinErrorWindows::ERROR_MRM_INVALID_FILE_TYPE => Some(15112),
            WinErrorWindows::ERROR_MRM_UNKNOWN_QUALIFIER => Some(15113),
            WinErrorWindows::ERROR_MRM_INVALID_QUALIFIER_VALUE => Some(15114),
            WinErrorWindows::ERROR_MRM_NO_CANDIDATE => Some(15115),
            WinErrorWindows::ERROR_MRM_NO_MATCH_OR_DEFAULT_CANDIDATE => Some(15116),
            _ => None,
        }
    }

    /// One slice of the symbol table.
    #[verifier::spinoff_prover]
    #[verifier::rlimit(100)]
    fn from_u32_part51(raw: u32) -> (r: Option<WinErrorWindows>)
        ensures
            r == WinErrorWindows::spec_from_u32_part51(raw),
    {
        match raw {
            15011 => Some(WinErrorWindows::ERROR_EVT_QUERY_RESULT_STALE),
            15012 => Some(WinErrorWindows::ERROR_EVT_QUERY_RESULT_INVALID_POSITION),
            15013 => Some(WinErrorWindows::ERROR_EVT_NON_VALIDATING_MSXML),
            15014 => Some(WinErrorWindows::ERROR_EVT_FILTER_ALREADYSCOPED),
            15015 => Some(WinErrorWindows::ERROR_EVT_FILTER_NOTELTSET),
            15016 => Some(WinErrorWindows::ERROR_EVT_FILTER_INVARG),
            15017 => Some(WinErrorWindows::ERROR_EVT_FILTER_INVTEST),
            15018 => Some(WinErrorWindows::ERROR_EVT_FILTER_INVTYPE),
            15019 => Some(WinErrorWindows::ERROR_EVT_FILTER_PARSEERR),
            15020 => Some(WinErrorWindows::ERROR_EVT_FILTER_UNSUPPORTEDOP),
            15021 => Some(WinErrorWindows::ERROR_EVT_FILTER_UNEXPECTEDTOKEN),
            15022 => Some(WinErrorWindows::ERROR_EVT_INVALID_OPERATION_OVER_ENABLED_DIRECT_CHANNEL),
            15023 => Some(WinErrorWindows::ERROR_EVT_INVALID_CHANNEL_PROPERTY_VALUE),
            15024 => Some(WinErrorWindows::ERROR_EVT_INVALID_PUBLISHER_PROPERTY_VALUE),
            15025 => Some(WinErrorWindows::ERROR_EVT_CHANNEL_CANNOT_ACTIVATE),
            15026 => Some(WinErrorWindows::ERROR_EVT_FILTER_TOO_COMPLEX),
            15027 => Some(WinErrorWindows::ERROR_EVT_MESSAGE_NOT_FOUND),
            15028 => Some(WinErrorWindows::ERROR_EVT_MESSAGE_ID_NOT_FOUND),
            15029 => Some(WinErrorWindows::ERROR_EVT_UNRESOLVED_VALUE_INSERT),
            15030 => Some(WinErrorWindows::ERROR_EVT_UNRESOLVED_PARAMETER_INSERT),
            15031 => Some(WinErrorWindows::ERROR_EVT_MAX_INSERTS_REACHED),
            15032 => Some(WinErrorWindows::ERROR_EVT_EVENT_DEFINITION_NOT_FOUND),
            15033 => Some(WinErrorWindows::ERROR_EVT_MESSAGE_LOCALE_NOT_FOUND),
            15034 => Some(WinErrorWindows::ERROR_EVT_VERSION_TOO_OLD),
            15035 => Some(WinErrorWindows::ERROR_EVT_VERSION_TOO_NEW),
            15036 => Some(WinErrorWindows::ERROR_EVT_CANNOT_OPEN_CHANNEL_OF_QUERY),
            15037 => Some(WinErrorWindows::ERROR_EVT_PUBLISHER_DISABLED),
            15038 => Some(WinErrorWindows::ERROR_EVT_FILTER_OUT_OF_RANGE),
            15080 => Some(WinErrorWindows::ERROR_EC_SUBSCRIPTION_CANNOT_ACTIVATE),
            15081 => Some(WinErrorWindows::ERROR_EC_LOG_DISABLED),
            15082 => Some(WinErrorWindows::ERROR_EC_CIRCULAR_FORWARDING),
            15083 => Some(WinErrorWindows::ERROR_EC_CREDSTORE_FULL),
            15084 => Some(WinErrorWindows::ERROR_EC_CRED_NOT_FOUND),
            15085 => Some(WinErrorWindows::ERROR_EC_NO_ACTIVE_CHANNEL),
            15100 => Some(WinErrorWindows::ERROR_MUI_FILE_NOT_FOUND),
            15101 => Some(WinErrorWindows::ERROR_MUI_INVALID_FILE),
            15102 => Some(WinErrorWindows::ERROR_MUI_INVALID_RC_CONFIG),
            15103 => Some(WinErrorWindows::ERROR_MUI_INVALID_LOCALE_NAME),
            15104 => Some(WinErrorWindows::ERROR_MUI_INVALID_ULTIMATEFALLBACK_NAME),
            15105 => Some(WinErrorWindows::ERROR_MUI_FILE_NOT_LOADED),
            15106 => Some(WinErrorWindows::ERROR_RESOURCE_ENUM_USER_STOP),
            15107 => Some(WinErrorWindows::ERROR_MUI_INTLSETTINGS_UILANG_NOT_INSTALLED),
            15108 => Some(WinErrorWindows::ERROR_MUI_INTLSETTINGS_INVALID_LOCALE_NAME),
            15110 => Some(WinErrorWindows::ERROR_MRM_RUNTIME_NO_DEFAULT_OR_NEUTRAL_RESOURCE),
            15111 => Some(WinErrorWindows::ERROR_MRM_INVALID_PRICONFIG),
            15112 => Some(WinErrorWindows::ERROR_MRM_INVALID_FILE_TYPE),
            15113 => Some(WinErrorWindows::ERROR_MRM_UNKNOWN_QUALIFIER),
            15114 => Some(WinErrorWindows::ERROR_MRM_INVALID_QUALIFIER_VALUE),
            15115 => Some(WinErrorWindows::ERROR_MRM_NO_CANDIDATE),
            15116 => Some(WinErrorWindows::ERROR_MRM_NO_MATCH_OR_DEFAULT_CANDIDATE),
            _ => None,
        }
    }

    /// One slice of the symbol table: the raw value of this symbol,
    /// where this slice holds it.
    pub open spec fn spec_to_u32_part52(self) -> Option<u32> {
        match self {
            WinErrorWindows::ERROR_MRM_RESOURCE_TYPE_MISMATCH => Some(15117),
            WinErrorWindows::ERROR_MRM_DUPLICATE_MAP_NAME => Some(15118),
            WinErrorWindows::ERROR_MRM_DUPLICATE_ENTRY => Some(15119),
            WinErrorWindows::ERROR_MRM_INVALID_RESOURCE_IDENTIFIER => Some(15120),
            WinErrorWindows::ERROR_MRM_FILEPATH_TOO_LONG => Some(15121),
            WinErrorWindows::ERROR_MRM_UNSUPPORTED_DIRECTORY_TYPE => Some(15122),
            WinErrorWindows::ERROR_MRM_INVALID_PRI_FILE => Some(15126),
            WinErrorWindows::ERROR_MRM_NAMED_RESOURCE_NOT_FOUND => Some(15127),
            WinErrorWindows::ERROR_MRM_MAP_NOT_FOUND => Some(15135),
            WinErrorWindows::ERROR_MRM_UNSUPPORTED_PROFILE_TYPE => Some(15136),
            WinErrorWindows::ERROR_MRM_INVALID_QUALIFIER_OPERATOR => Some(15137),
            WinErrorWindows::ERROR_MRM_INDETERMINATE_QUALIFIER_VALUE => Some(15138),
            WinErrorWindows::ERROR_MRM_AUTOMERGE_ENABLED => Some(15139),
            WinErrorWindows::ERROR_MRM_TOO_MANY_RESOURCES => Some(15140),
            WinErrorWindows::ERROR_MRM_UNSUPPORTED_FILE_TYPE_FOR_MERGE => Some(15141),
            WinErrorWindows::ERROR_MRM_UNSUPPORTED_FILE_TYPE_FOR_LOAD_UNLOAD_PRI_FILE => Some(15142),
            WinErrorWindows::ERROR_MRM_NO_CURRENT_VIEW_ON_THREAD => Some(15143),
            WinErrorWindows::ERROR_DIFFERENT_PROFILE_RESOURCE_MANAGER_EXIST => Some(15144),
            WinErrorWindows::ERROR_OPERATION_NOT_ALLOWED_FROM_SYSTEM_COMPONENT => Some(15145),
            WinErrorWindows::ERROR_MRM_DIRECT_REF_TO_NON_DEFAULT_RESOURCE => Some(15146),
            WinErrorWindows::ERROR_MRM_GENERATION_COUNT_MISMATCH => Some(15147),
            WinErrorWindows::ERROR_PRI_MERGE_VERSION_MISMATCH => Some(15148),
            WinErrorWindows::ERROR_PRI_MERGE_MISSING_SCHEMA => Some(15149),
            WinErrorWindows::ERROR_PRI_MERGE_LOAD_FILE_FAILED => Some(15150),
            WinErrorWindows::ERROR_PRI_MERGE_ADD_FILE_FAILED => Some(15151),
            WinErrorWindows::ERROR_PRI_MERGE_WRITE_FILE_FAILED => Some(15152),
            WinErrorWindows::ERROR_PRI_MERGE_MULTIPLE_PACKAGE_FAMILIES_NOT_ALLOWED => Some(15153),
            WinErrorWindows::ERROR_PRI_MERGE_MULTIPLE_MAIN_PACKAGES_NOT_ALLOWED => Some(15154),
            WinErrorWindows::ERROR_PRI_MERGE_BUNDLE_PACKAGES_NOT_ALLOWED => Some(15155),
            WinErrorWindows::ERROR_PRI_MERGE_MAIN_PACKAGE_REQUIRED => Some(15156),
            WinErrorWindows::ERROR_PRI_MERGE_RESOURCE_PACKAGE_REQUIRED => Some(15157),
            WinErrorWindows::ERROR_PRI_MERGE_INVALID_FILE_NAME => Some(15158),
            WinErrorWindows::ERROR_MRM_PACKAGE_NOT_FOUND => Some(15159),
            WinErrorWindows::ERROR_MRM_MISSING_DEFAULT_LANGUAGE => Some(15160),
            WinErrorWindows::ERROR_MCA_INVALID_CAPABILITIES_STRING => Some(15200),
            WinErrorWindows::ERROR_MCA_INVALID_VCP_VERSION => Some(15201),
            WinErrorWindows::ERROR_MCA_MONITOR_VIOLATES_MCCS_SPECIFICATION => Some(15202),
            WinErrorWindows::ERROR_MCA_MCCS_VERSION_MISMATCH => Some(15203),
            WinErrorWindows::ERROR_MCA_UNSUPPORTED_MCCS_VERSION => Some(15204),
            WinErrorWindows::ERROR_MCA_INTERNAL_ERROR => Some(15205),
            WinErrorWindows::ERROR_MCA_INVALID_TECHNOLOGY_TYPE_RETURNED => Some(15206),
            WinErrorWindows::ERROR_MCA_UNSUPPORTED_COLOR_TEMPERATURE => Some(15207),
            WinErrorWindows::ERROR_AMBIGUOUS_SYSTEM_DEVICE => Some(15250),
            WinErrorWindows::ERROR_SYSTEM_DEVICE_NOT_FOUND => Some(15299),
            WinErrorWindows::ERROR_HASH_NOT_SUPPORTED => Some(15300),
            WinErrorWindows::ERROR_HASH_NOT_PRESENT => Some(15301),
            WinErrorWindows::ERROR_SECONDARY_IC_PROVIDER_NOT_REGISTERED => Some(15321),
            WinErrorWindows::ERROR_GPIO_CLIENT_INFORMATION_INVALID => Some(15322),
            WinErrorWindows::ERROR_GPIO_VERSION_NOT_SUPPORTED => Some(15323),
            WinErrorWindows::ERROR_GPIO_INVALID_REGISTRATION_PACKET => Some(15324),
            _ => None,
        }
    }

    /// One slice of the symbol table: the symbol this slice gives a
    /// raw value, where it holds one.
    pub open spec fn spec_from_u32_part52(raw: u32) -> Option<WinErrorWindows> {
        match raw {
            15117 => Some(WinErrorWindows::ERROR_MRM_RESOURCE_TYPE_MISMATCH),
            15118 => Some(WinErrorWindows::ERROR_MRM_DUPLICATE_MAP_NAME),
            15119 => Some(WinErrorWindows::ERROR_MRM_DUPLICATE_ENTRY),
            15120 => Some(WinErrorWindows::ERROR_MRM_INVALID_RESOURCE_IDENTIFIER),
            15121 => Some(WinErrorWindows::ERROR_MRM_FILEPATH_TOO_LONG),
            15122 => Some(WinErrorWindows::ERROR_MRM_UNSUPPORTED_DIRECTORY_TYPE),
            15126 => Some(WinErrorWindows::ERROR_MRM_INVALID_PRI_FILE),
            15127 => Some(WinErrorWindows::ERROR_MRM_NAMED_RESOURCE_NOT_FOUND),
            15135 => Some(WinErrorWindows::ERROR_MRM_MAP_NOT_FOUND),
            15136 => Some(WinErrorWindows::ERROR_MRM_UNSUPPORTED_PROFILE_TYPE),
            15137 => Some(WinErrorWindows::ERROR_MRM_INVALID_QUALIFIER_OPERATOR),
            15138 => Some(WinErrorWindows::ERROR_MRM_INDETERMINATE_QUALIFIER_VALUE),
            15139 => Some(WinErrorWindows::ERROR_MRM_AUTOMERGE_ENABLED),
            15140 => Some(WinErrorWindows::ERROR_MRM_TOO_MANY_RESOURCES),
            15141 => Some(WinErrorWindows::ERROR_MRM_UNSUPPORTED_FILE_TYPE_FOR_MERGE),
            15142 => Some(WinErrorWindows::ERROR_MRM_UNSUPPORTED_FILE_TYPE_FOR_LOAD_UNLOAD_PRI_FILE),
            15143 => Some(WinErrorWindows::ERROR_MRM_NO_CURRENT_VIEW_ON_THREAD),
            15144 => Some(WinErrorWindows::ERROR_DIFFERENT_PROFILE_RESOURCE_MANAGER_EXIST),
            15145 => Some(WinErrorWindows::ERROR_OPERATION_NOT_ALLOWED_FROM_SYSTEM_COMPONENT),
            15146 => Some(WinErrorWindows::ERROR_MRM_DIRECT_REF_TO_NON_DEFAULT_RESOURCE),
            15147 => Some(WinErrorWindows::ERROR_MRM_GENERATION_COUNT_MISMATCH),
            15148 => Some(WinErrorWindows::ERROR_PRI_MERGE_VERSION_MISMATCH),
            15149 => Some(WinErrorWindows::ERROR_PRI_MERGE_MISSING_SCHEMA),
            15150 => Some(WinErrorWindows::ERROR_PRI_MERGE_LOAD_FILE_FAILED),
            15151 => Some(WinErrorWindows::ERROR_PRI_MERGE_ADD_FILE_FAILED),
            15152 => Some(WinErrorWindows::ERROR_PRI_MERGE_WRITE_FILE_FAILED),
            15153 => Some(WinErrorWindows::ERROR_PRI_MERGE_MULTIPLE_PACKAGE_FAMILIES_NOT_ALLOWED),
            15154 => Some(WinErrorWindows::ERROR_PRI_MERGE_MULTIPLE_MAIN_PACKAGES_NOT_ALLOWED),
            15155 => Some(WinErrorWindows::ERROR_PRI_MERGE_BUNDLE_PACKAGES_NOT_ALLOWED),
            15156 => Some(WinErrorWindows::ERROR_PRI_MERGE_MAIN_PACKAGE_REQUIRED),
            15157 => Some(WinErrorWindows::ERROR_PRI_MERGE_RESOURCE_PACKAGE_REQUIRED),
            15158 => Some(WinErrorWindows::ERROR_PRI_MERGE_INVALID_FILE_NAME),
            15159 => Some(WinErrorWindows::ERROR_MRM_PACKAGE_NOT_FOUND),
            15160 => Some(WinErrorWindows::ERROR_MRM_MISSING_DEFAULT_LANGUAGE),
            15200 => Some(WinErrorWindows::ERROR_MCA_INVALID_CAPABILITIES_STRING),
            15201 => Some(WinErrorWindows::ERROR_MCA_INVALID_VCP_VERSION),
            15202 => Some(WinErrorWindows::ERROR_MCA_MONITOR_VIOLATES_MCCS_SPECIFICATION),
            15203 => Some(WinErrorWindows::ERROR_MCA_MCCS_VERSION_MISMATCH),
            15204 => Some(WinErrorWindows::ERROR_MCA_UNSUPPORTED_MCCS_VERSION),
            15205 => Some(WinErrorWindows::ERROR_MCA_INTERNAL_ERROR),
            15206 => Some(WinErrorWindows::ERROR_MCA_INVALID_TECHNOLOGY_TYPE_RETURNED),
            15207 => Some(WinErrorWindows::ERROR_MCA_UNSUPPORTED_COLOR_TEMPERATURE),
            15250 => Some(WinErrorWindows::ERROR_AMBIGUOUS_SYSTEM_DEVICE),
            15299 => Some(WinErrorWindows::ERROR_SYSTEM_DEVICE_NOT_FOUND),
            15300 => Some(WinErrorWindows::ERROR_HASH_NOT_SUPPORTED),
            15301 => Some(WinErrorWindows::ERROR_HASH_NOT_PRESENT),
            15321 => Some(WinErrorWindows::ERROR_SECONDARY_IC_PROVIDER_NOT_REGISTERED),
            15322 => Some(WinErrorWindows::ERROR_GPIO_CLIENT_INFORMATION_INVALID),
            15323 => Some(WinErrorWindows::ERROR_GPIO_VERSION_NOT_SUPPORTED),
            15324 => Some(WinErrorWindows::ERROR_GPIO_INVALID_REGISTRATION_PACKET),
            _ => None,
        }
    }

    /// One slice of the symbol table.
    #[verifier::spinoff_prover]
    #[verifier::rlimit(100)]
    fn to_u32_part52(self) -> (r: Option<u32>)
        ensures
            r == self.spec_to_u32_part52(),
    {
        match self {
            WinErrorWindows::ERROR_MRM_RESOURCE_TYPE_MISMATCH => Some(15117),
            WinErrorWindows::ERROR_MRM_DUPLICATE_MAP_NAME => Some(15118),
            WinErrorWindows::ERROR_MRM_DUPLICATE_ENTRY => Some(15119),
            WinErrorWindows::ERROR_MRM_INVALID_RESOURCE_IDENTIFIER => Some(15120),
            WinErrorWindows::ERROR_MRM_FILEPATH_TOO_LONG => Some(15121),
            WinErrorWindows::ERROR_MRM_UNSUPPORTED_DIRECTORY_TYPE => Some(15122),
            WinErrorWindows::ERROR_MRM_INVALID_PRI_FILE => Some(15126),
            WinErrorWindows::ERROR_MRM_NAMED_RESOURCE_NOT_FOUND => Some(15127),
            WinErrorWindows::ERROR_MRM_MAP_NOT_FOUND => Some(15135),
            WinErrorWindows::ERROR_MRM_UNSUPPORTED_PROFILE_TYPE => Some(15136),
            WinErrorWindows::ERROR_MRM_INVALID_QUALIFIER_OPERATOR => Some(15137),
            WinErrorWindows::ERROR_MRM_INDETERMINATE_QUALIFIER_VALUE => Some(15138),
            WinErrorWindows::ERROR_MRM_AUTOMERGE_ENABLED => Some(15139),
            WinErrorWindows::ERROR_MRM_TOO_MANY_RESOURCES => Some(15140),
            WinErrorWindows::ERROR_MRM_UNSUPPORTED_FILE_TYPE_FOR_MERGE => Some(15141),
            WinErrorWindows::ERROR_MRM_UNSUPPORTED_FILE_TYPE_FOR_LOAD_UNLOAD_PRI_FILE => Some(15142),
            WinErrorWindows::ERROR_MRM_NO_CURRENT_VIEW_ON_THREAD => Some(15143),
            WinErrorWindows::ERROR_DIFFERENT_PROFILE_RESOURCE_MANAGER_EXIST => Some(15144),
            WinErrorWindows::ERROR_OPERATION_NOT_ALLOWED_FROM_SYSTEM_COMPONENT => Some(15145),
            WinErrorWindows::ERROR_MRM_DIRECT_REF_TO_NON_DEFAULT_RESOURCE => Some(15146),
            WinErrorWindows::ERROR_MRM_GENERATION_COUNT_MISMATCH => Some(15147),
            WinErrorWindows::ERROR_PRI_MERGE_VERSION_MISMATCH => Some(15148),
            WinErrorWindows::ERROR_PRI_MERGE_MISSING_SCHEMA => Some(15149),
            WinErrorWindows::ERROR_PRI_MERGE_LOAD_FILE_FAILED => Some(15150),
            WinErrorWindows::ERROR_PRI_MERGE_ADD_FILE_FAILED => Some(15151),
            WinErrorWindows::ERROR_PRI_MERGE_WRITE_FILE_FAILED => Some(15152),
            WinErrorWindows::ERROR_PRI_MERGE_MULTIPLE_PACKAGE_FAMILIES_NOT_ALLOWED => Some(15153),
            WinErrorWindows::ERROR_PRI_MERGE_MULTIPLE_MAIN_PACKAGES_NOT_ALLOWED => Some(15154),
            WinErrorWindows::ERROR_PRI_MERGE_BUNDLE_PACKAGES_NOT_ALLOWED => Some(15155),
            WinErrorWindows::ERROR_PRI_MERGE_MAIN_PACKAGE_REQUIRED => Some(15156),
            WinErrorWindows::ERROR_PRI_MERGE_RESOURCE_PACKAGE_REQUIRED => Some(15157),
            WinErrorWindows::ERROR_PRI_MERGE_INVALID_FILE_NAME => Some(15158),
            WinErrorWindows::ERROR_MRM_PACKAGE_NOT_FOUND => Some(15159),
            WinErrorWindows::ERROR_MRM_MISSING_DEFAULT_LANGUAGE => Some(15160),
            WinErrorWindows::ERROR_MCA_INVALID_CAPABILITIES_STRING => Some(15200),
            WinErrorWindows::ERROR_MCA_INVALID_VCP_VERSION => Some(15201),
            WinErrorWindows::ERROR_MCA_MONITOR_VIOLATES_MCCS_SPECIFICATION => Some(15202),
            WinErrorWindows::ERROR_MCA_MCCS_VERSION_MISMATCH => Some(15203),
            WinErrorWindows::ERROR_MCA_UNSUPPORTED_MCCS_VERSION => Some(15204),
            WinErrorWindows::ERROR_MCA_INTERNAL_ERROR => Some(15205),
            WinErrorWindows::ERROR_MCA_INVALID_TECHNOLOGY_TYPE_RETURNED => Some(15206),
            WinErrorWindows::ERROR_MCA_UNSUPPORTED_COLOR_TEMPERATURE => Some(15207),
            WinErrorWindows::ERROR_AMBIGUOUS_SYSTEM_DEVICE => Some(15250),
            WinErrorWindows::ERROR_SYSTEM_DEVICE_NOT_FOUND => Some(15299),
            WinErrorWindows::ERROR_HASH_NOT_SUPPORTED => Some(15300),
            WinErrorWindows::ERROR_HASH_NOT_PRESENT => Some(15301),
            WinErrorWindows::ERROR_SECONDARY_IC_PROVIDER_NOT_REGISTERED => Some(15321),
            WinErrorWindows::ERROR_GPIO_CLIENT_INFORMATION_INVALID => Some(15322),
            WinErrorWindows::ERROR_GPIO_VERSION_NOT_SUPPORTED => Some(15323),
            WinErrorWindows::ERROR_GPIO_INVALID_REGISTRATION_PACKET => Some(15324),
            _ => None,
        }
    }

    /// One slice of the symbol table.
    #[verifier::spinoff_prover]
    #[verifier::rlimit(100)]
    fn from_u32_part52(raw: u32) -> (r: Option<WinErrorWindows>)
        ensures
            r == WinErrorWindows::spec_from_u32_part52(raw),
    {
        match raw {
            15117 => Some(WinErrorWindows::ERROR_MRM_RESOURCE_TYPE_MISMATCH),
            15118 => Some(WinErrorWindows::ERROR_MRM_DUPLICATE_MAP_NAME),
            15119 => Some(WinErrorWindows::ERROR_MRM_DUPLICATE_ENTRY),
            15120 => Some(WinErrorWindows::ERROR_MRM_INVALID_RESOURCE_IDENTIFIER),
            15121 => Some(WinErrorWindows::ERROR_MRM_FILEPATH_TOO_LONG),
            15122 => Some(WinErrorWindows::ERROR_MRM_UNSUPPORTED_DIRECTORY_TYPE),
            15126 => Some(WinErrorWindows::ERROR_MRM_INVALID_PRI_FILE),
            15127 => Some(WinErrorWindows::ERROR_MRM_NAMED_RESOURCE_NOT_FOUND),
            15135 => Some(WinErrorWindows::ERROR_MRM_MAP_NOT_FOUND),
            15136 => Some(WinErrorWindows::ERROR_MRM_UNSUPPORTED_PROFILE_TYPE),
            15137 => Some(WinErrorWindows::ERROR_MRM_INVALID_QUALIFIER_OPERATOR),
            15138 => Some(WinErrorWindows::ERROR_MRM_INDETERMINATE_QUALIFIER_VALUE),
            15139 => Some(WinErrorWindows::ERROR_MRM_AUTOMERGE_ENABLED),
            15140 => Some(WinErrorWindows::ERROR_MRM_TOO_MANY_RESOURCES),
            15141 => Some(WinErrorWindows::ERROR_MRM_UNSUPPORTED_FILE_TYPE_FOR_MERGE),
            15142 => Some(WinErrorWindows::ERROR_MRM_UNSUPPORTED_FILE_TYPE_FOR_LOAD_UNLOAD_PRI_FILE),
            15143 => Some(WinErrorWindows::ERROR_MRM_NO_CURRENT_VIEW_ON_THREAD),
            15144 => Some(WinErrorWindows::ERROR_DIFFERENT_PROFILE_RESOURCE_MANAGER_EXIST),
            15145 => Some(WinErrorWindows::ERROR_OPERATION_NOT_ALLOWED_FROM_SYSTEM_COMPONENT),
            15146 => Some(WinErrorWindows::ERROR_MRM_DIRECT_REF_TO_NON_DEFAULT_RESOURCE),
            15147 => Some(WinErrorWindows::ERROR_MRM_GENERATION_COUNT_MISMATCH),
            15148 => Some(WinErrorWindows::ERROR_PRI_MERGE_VERSION_MISMATCH),
            15149 => Some(WinErrorWindows::ERROR_PRI_MERGE_MISSING_SCHEMA),
            15150 => Some(WinErrorWindows::ERROR_PRI_MERGE_LOAD_FILE_FAILED),
            15151 => Some(WinErrorWindows::ERROR_PRI_MERGE_ADD_FILE_FAILED),
            15152 => Some(WinErrorWindows::ERROR_PRI_MERGE_WRITE_FILE_FAILED),
            15153 => Some(WinErrorWindows::ERROR_PRI_MERGE_MULTIPLE_PACKAGE_FAMILIES_NOT_ALLOWED),
            15154 => Some(WinErrorWindows::ERROR_PRI_MERGE_MULTIPLE_MAIN_PACKAGES_NOT_ALLOWED),
            15155 => Some(WinErrorWindows::ERROR_PRI_MERGE_BUNDLE_PACKAGES_NOT_ALLOWED),
            15156 => Some(WinErrorWindows::ERROR_PRI_MERGE_MAIN_PACKAGE_REQUIRED),
            15157 => Some(WinErrorWindows::ERROR_PRI_MERGE_RESOURCE_PACKAGE_REQUIRED),
            15158 => Some(WinErrorWindows::ERROR_PRI_MERGE_INVALID_FILE_NAME),
            15159 => Some(WinErrorWindows::ERROR_MRM_PACKAGE_NOT_FOUND),
            15160 => Some(WinErrorWindows::ERROR_MRM_MISSING_DEFAULT_LANGUAGE),
            15200 => Some(WinErrorWindows::ERROR_MCA_INVALID_CAPABILITIES_STRING),
            15201 => Some(WinErrorWindows::ERROR_MCA_INVALID_VCP_VERSION),
            15202 => Some(WinErrorWindows::ERROR_MCA_MONITOR_VIOLATES_MCCS_SPECIFICATION),
            15203 => Some(WinErrorWindows::ERROR_MCA_MCCS_VERSION_MISMATCH),
            15204 => Some(WinErrorWindows::ERROR_MCA_UNSUPPORTED_MCCS_VERSION),
            15205 => Some(WinErrorWindows::ERROR_MCA_INTERNAL_ERROR),
            15206 => Some(WinErrorWindows::ERROR_MCA_INVALID_TECHNOLOGY_TYPE_RETURNED),
            15207 => Some(WinErrorWindows::ERROR_MCA_UNSUPPORTED_COLOR_TEMPERATURE),
            15250 => Some(WinErrorWindows::ERROR_AMBIGUOUS_SYSTEM_DEVICE),
            15299 => Some(WinErrorWindows::ERROR_SYSTEM_DEVICE_NOT_FOUND),
            15300 => Some(WinErrorWindows::ERROR_HASH_NOT_SUPPORTED),
            15301 => Some(WinErrorWindows::ERROR_HASH_NOT_PRESENT),
            15321 => Some(WinErrorWindows::ERROR_SECONDARY_IC_PROVIDER_NOT_REGISTERED),
            15322 => Some(WinErrorWindows::ERROR_GPIO_CLIENT_INFORMATION_INVALID),
            15323 => Some(WinErrorWindows::ERROR_GPIO_VERSION_NOT_SUPPORTED),
            15324 => Some(WinErrorWindows::ERROR_GPIO_INVALID_REGISTRATION_PACKET),
            _ => None,
        }
    }

    /// One slice of the symbol table: the raw value of this symbol,
    /// where this slice holds it.
    pub open spec fn spec_to_u32_part53(self) -> Option<u32> {
        match self {
            WinErrorWindows::ERROR_GPIO_OPERATION_DENIED => Some(15325),
            WinErrorWindows::ERROR_GPIO_INCOMPATIBLE_CONNECT_MODE => Some(15326),
            WinErrorWindows::ERROR_GPIO_INTERRUPT_ALREADY_UNMASKED => Some(15327),
            WinErrorWindows::ERROR_CANNOT_SWITCH_RUNLEVEL => Some(15400),
            WinErrorWindows::ERROR_INVALID_RUNLEVEL_SETTING => Some(15401),
            WinErrorWindows::ERROR_RUNLEVEL_SWITCH_TIMEOUT => Some(15402),
            WinErrorWindows::ERROR_RUNLEVEL_SWITCH_AGENT_TIMEOUT => Some(15403),
            WinErrorWindows::ERROR_RUNLEVEL_SWITCH_IN_PROGRESS => Some(15404),
            WinErrorWindows::ERROR_SERVICES_FAILED_AUTOSTART => Some(15405),
            WinErrorWindows::ERROR_COM_TASK_STOP_PENDING => Some(15501),
            WinErrorWindows::ERROR_INSTALL_OPEN_PACKAGE_FAILED => Some(15600),
            WinErrorWindows::ERROR_INSTALL_PACKAGE_NOT_FOUND => Some(15601),
            WinErrorWindows::ERROR_INSTALL_INVALID_PACKAGE => Some(15602),
            WinErrorWindows::ERROR_INSTALL_RESOLVE_DEPENDENCY_FAILED => Some(15603),
            WinErrorWindows::ERROR_INSTALL_OUT_OF_DISK_SPACE => Some(15604),
            WinErrorWindows::ERROR_INSTALL_NETWORK_FAILURE => Some(15605),
            WinErrorWindows::ERROR_INSTALL_REGISTRATION_FAILURE => Some(15606),
            WinErrorWindows::ERROR_INSTALL_DEREGISTRATION_FAILURE => Some(15607),
            WinErrorWindows::ERROR_INSTALL_CANCEL => Some(15608),
            WinErrorWindows::ERROR_INSTALL_FAILED => Some(15609),
            WinErrorWindows::ERROR_REMOVE_FAILED => Some(15610),
            WinErrorWindows::ERROR_PACKAGE_ALREADY_EXISTS => Some(15611),
            WinErrorWindows::ERROR_NEEDS_REMEDIATION => Some(15612),
            WinErrorWindows::ERROR_INSTALL_PREREQUISITE_FAILED => Some(15613),
            WinErrorWindows::ERROR_PACKAGE_REPOSITORY_CORRUPTED => Some(15614),
            WinErrorWindows::ERROR_INSTALL_POLICY_FAILURE => Some(15615),
            WinErrorWindows::ERROR_PACKAGE_UPDATING => Some(15616),
            WinErrorWindows::ERROR_DEPLOYMENT_BLOCKED_BY_POLICY => Some(15617),
            WinErrorWindows::ERROR_PACKAGES_IN_USE => Some(15618),
            WinErrorWindows::ERROR_RECOVERY_FILE_CORRUPT => Some(15619),
            WinErrorWindows::ERROR_INVALID_STAGED_SIGNATURE => Some(15620),
            WinErrorWindows::ERROR_DELETING_EXISTING_APPLICATIONDATA_STORE_FAILED => Some(15621),
            WinErrorWindows::ERROR_INSTALL_PACKAGE_DOWNGRADE => Some(15622),
            WinErrorWindows::ERROR_SYSTEM_NEEDS_REMEDIATION => Some(15623),
            WinErrorWindows::ERROR_APPX_INTEGRITY_FAILURE_CLR_NGEN => Some(15624),
            WinErrorWindows::ERROR_RESILIENCY_FILE_CORRUPT => Some(15625),
            WinErrorWindows::ERROR_INSTALL_FIREWALL_SERVICE_NOT_RUNNING => Some(15626),
            WinErrorWindows::ERROR_PACKAGE_MOVE_FAILED => Some(15627),
            WinErrorWindows::ERROR_INSTALL_VOLUME_NOT_EMPTY => Some(15628),
            WinErrorWindows::ERROR_INSTALL_VOLUME_OFFLINE => Some(15629),
            WinErrorWindows::ERROR_INSTALL_VOLUME_CORRUPT => Some(15630),
            WinErrorWindows::ERROR_NEEDS_REGISTRATION => Some(15631),
            WinErrorWindows::ERROR_INSTALL_WRONG_PROCESSOR_ARCHITECTURE => Some(15632),
            WinErrorWindows::ERROR_DEV_SIDELOAD_LIMIT_EXCEEDED => Some(15633),
            WinErrorWindows::ERROR_INSTALL_OPTIONAL_PACKAGE_REQUIRES_MAIN_PACKAGE => Some(15634),
            WinErrorWindows::ERROR_PACKAGE_NOT_SUPPORTED_ON_FILESYSTEM => Some(15635),
            WinErrorWindows::ERROR_PACKAGE_MOVE_BLOCKED_BY_STREAMING => Some(15636),
            WinErrorWindows::ERROR_INSTALL_OPTIONAL_PACKAGE_APPLICATIONID_NOT_UNIQUE => Some(15637),
            WinErrorWindows::ERROR_PACKAGE_STAGING_ONHOLD => Some(15638),
            WinErrorWindows::ERROR_INSTALL_INVALID_RELATED_SET_UPDATE => Some(15639),
            _ => None,
        }
    }

    /// One slice of the symbol table: the symbol this slice gives a
    /// raw value, where it holds one.
    pub open spec fn spec_from_u32_part53(raw: u32) -> Option<WinErrorWindows> {
        match raw {
            15325 => Some(WinErrorWindows::ERROR_GPIO_OPERATION_DENIED),
            15326 => Some(WinErrorWindows::ERROR_GPIO_INCOMPATIBLE_CONNECT_MODE),
            15327 => Some(WinErrorWindows::ERROR_GPIO_INTERRUPT_ALREADY_UNMASKED),
            15400 => Some(WinErrorWindows::ERROR_CANNOT_SWITCH_RUNLEVEL),
            15401 => Some(WinErrorWindows::ERROR_INVALID_RUNLEVEL_SETTING),
            15402 => Some(WinErrorWindows::ERROR_RUNLEVEL_SWITCH_TIMEOUT),
            15403 => Some(WinErrorWindows::ERROR_RUNLEVEL_SWITCH_AGENT_TIMEOUT),
            15404 => Some(WinErrorWindows::ERROR_RUNLEVEL_SWITCH_IN_PROGRESS),
            15405 => Some(WinErrorWindows::ERROR_SERVICES_FAILED_AUTOSTART),
            15501 => Some(WinErrorWindows::ERROR_COM_TASK_STOP_PENDING),
            15600 => Some(WinErrorWindows::ERROR_INSTALL_OPEN_PACKAGE_FAILED),
            15601 => Some(WinErrorWindows::ERROR_INSTALL_PACKAGE_NOT_FOUND),
            15602 => Some(WinErrorWindows::ERROR_INSTALL_INVALID_PACKAGE),
            15603 => Some(WinErrorWindows::ERROR_INSTALL_RESOLVE_DEPENDENCY_FAILED),
            15604 => Some(WinErrorWindows::ERROR_INSTALL_OUT_OF_DISK_SPACE),
            15605 => Some(WinErrorWindows::ERROR_INSTALL_NETWORK_FAILURE),
            15606 => Some(WinErrorWindows::ERROR_INSTALL_REGISTRATION_FAILURE),
            15607 => Some(WinErrorWindows::ERROR_INSTALL_DEREGISTRATION_FAILURE),
            15608 => Some(WinErrorWindows::ERROR_INSTALL_CANCEL),
            15609 => Some(WinErrorWindows::ERROR_INSTALL_FAILED),
            15610 => Some(WinErrorWindows::ERROR_REMOVE_FAILED),
            15611 => Some(WinErrorWindows::ERROR_PACKAGE_ALREADY_EXISTS),
            15612 => Some(WinErrorWindows::ERROR_NEEDS_REMEDIATION),
            15613 => Some(WinErrorWindows::ERROR_INSTALL_PREREQUISITE_FAILED),
            15614 => Some(WinErrorWindows::ERROR_PACKAGE_REPOSITORY_CORRUPTED),
            15615 => Some(WinErrorWindows::ERROR_INSTALL_POLICY_FAILURE),
            15616 => Some(WinErrorWindows::ERROR_PACKAGE_UPDATING),
            15617 => Some(WinErrorWindows::ERROR_DEPLOYMENT_BLOCKED_BY_POLICY),
            15618 => Some(WinErrorWindows::ERROR_PACKAGES_IN_USE),
            15619 => Some(WinErrorWindows::ERROR_RECOVERY_FILE_CORRUPT),
            15620 => Some(WinErrorWindows::ERROR_INVALID_STAGED_SIGNATURE),
            15621 => Some(WinErrorWindows::ERROR_DELETING_EXISTING_APPLICATIONDATA_STORE_FAILED),
            15622 => Some(WinErrorWindows::ERROR_INSTALL_PACKAGE_DOWNGRADE),
            15623 => Some(WinErrorWindows::ERROR_SYSTEM_NEEDS_REMEDIATION),
            15624 => Some(WinErrorWindows::ERROR_APPX_INTEGRITY_FAILURE_CLR_NGEN),
            15625 => Some(WinErrorWindows::ERROR_RESILIENCY_FILE_CORRUPT),
            15626 => Some(WinErrorWindows::ERROR_INSTALL_FIREWALL_SERVICE_NOT_RUNNING),
            15627 => Some(WinErrorWindows::ERROR_PACKAGE_MOVE_FAILED),
            15628 => Some(WinErrorWindows::ERROR_INSTALL_VOLUME_NOT_EMPTY),
            15629 => Some(WinErrorWindows::ERROR_INSTALL_VOLUME_OFFLINE),
            15630 => Some(WinErrorWindows::ERROR_INSTALL_VOLUME_CORRUPT),
            15631 => Some(WinErrorWindows::ERROR_NEEDS_REGISTRATION),
            15632 => Some(WinErrorWindows::ERROR_INSTALL_WRONG_PROCESSOR_ARCHITECTURE),
            15633 => Some(WinErrorWindows::ERROR_DEV_SIDELOAD_LIMIT_EXCEEDED),
            15634 => Some(WinErrorWindows::ERROR_INSTALL_OPTIONAL_PACKAGE_REQUIRES_MAIN_PACKAGE),
            15635 => Some(WinErrorWindows::ERROR_PACKAGE_NOT_SUPPORTED_ON_FILESYSTEM),
            15636 => Some(WinErrorWindows::ERROR_PACKAGE_MOVE_BLOCKED_BY_STREAMING),
            15637 => Some(WinErrorWindows::ERROR_INSTALL_OPTIONAL_PACKAGE_APPLICATIONID_NOT_UNIQUE),
            15638 => Some(WinErrorWindows::ERROR_PACKAGE_STAGING_ONHOLD),
            15639 => Some(WinErrorWindows::ERROR_INSTALL_INVALID_RELATED_SET_UPDATE),
            _ => None,
        }
    }

    /// One slice of the symbol table.
    #[verifier::spinoff_prover]
    #[verifier::rlimit(100)]
    fn to_u32_part53(self) -> (r: Option<u32>)
        ensures
            r == self.spec_to_u32_part53(),
    {
        match self {
            WinErrorWindows::ERROR_GPIO_OPERATION_DENIED => Some(15325),
            WinErrorWindows::ERROR_GPIO_INCOMPATIBLE_CONNECT_MODE => Some(15326),
            WinErrorWindows::ERROR_GPIO_INTERRUPT_ALREADY_UNMASKED => Some(15327),
            WinErrorWindows::ERROR_CANNOT_SWITCH_RUNLEVEL => Some(15400),
            WinErrorWindows::ERROR_INVALID_RUNLEVEL_SETTING => Some(15401),
            WinErrorWindows::ERROR_RUNLEVEL_SWITCH_TIMEOUT => Some(15402),
            WinErrorWindows::ERROR_RUNLEVEL_SWITCH_AGENT_TIMEOUT => Some(15403),
            WinErrorWindows::ERROR_RUNLEVEL_SWITCH_IN_PROGRESS => Some(15404),
            WinErrorWindows::ERROR_SERVICES_FAILED_AUTOSTART => Some(15405),
            WinErrorWindows::ERROR_COM_TASK_STOP_PENDING => Some(15501),
            WinErrorWindows::ERROR_INSTALL_OPEN_PACKAGE_FAILED => Some(15600),
            WinErrorWindows::ERROR_INSTALL_PACKAGE_NOT_FOUND => Some(15601),
            WinErrorWindows::ERROR_INSTALL_INVALID_PACKAGE => Some(15602),
            WinErrorWindows::ERROR_INSTALL_RESOLVE_DEPENDENCY_FAILED => Some(15603),
            WinErrorWindows::ERROR_INSTALL_OUT_OF_DISK_SPACE => Some(15604),
            WinErrorWindows::ERROR_INSTALL_NETWORK_FAILURE => Some(15605),
            WinErrorWindows::ERROR_INSTALL_REGISTRATION_FAILURE => Some(15606),
            WinErrorWindows::ERROR_INSTALL_DEREGISTRATION_FAILURE => Some(15607),
            WinErrorWindows::ERROR_INSTALL_CANCEL => Some(15608),
            WinErrorWindows::ERROR_INSTALL_FAILED => Some(15609),
            WinErrorWindows::ERROR_REMOVE_FAILED => Some(15610),
            WinErrorWindows::ERROR_PACKAGE_ALREADY_EXISTS => Some(15611),
            WinErrorWindows::ERROR_NEEDS_REMEDIATION => Some(15612),
            WinErrorWindows::ERROR_INSTALL_PREREQUISITE_FAILED => Some(15613),
            WinErrorWindows::ERROR_PACKAGE_REPOSITORY_CORRUPTED => Some(15614),
            WinErrorWindows::ERROR_INSTALL_POLICY_FAILURE => Some(15615),
            WinErrorWindows::ERROR_PACKAGE_UPDATING => Some(15616),
            WinErrorWindows::ERROR_DEPLOYMENT_BLOCKED_BY_POLICY => Some(15617),
            WinErrorWindows::ERROR_PACKAGES_IN_USE => Some(15618),
            WinErrorWindows::ERROR_RECOVERY_FILE_CORRUPT => Some(15619),
            WinErrorWindows::ERROR_INVALID_STAGED_SIGNATURE => Some(15620),
            WinErrorWindows::ERROR_DELETING_EXISTING_APPLICATIONDATA_STORE_FAILED => Some(15621),
            WinErrorWindows::ERROR_INSTALL_PACKAGE_DOWNGRADE => Some(15622),
            WinErrorWindows::ERROR_SYSTEM_NEEDS_REMEDIATION => Some(15623),
            WinErrorWindows::ERROR_APPX_INTEGRITY_FAILURE_CLR_NGEN => Some(15624),
            WinErrorWindows::ERROR_RESILIENCY_FILE_CORRUPT => Some(15625),
            WinErrorWindows::ERROR_INSTALL_FIREWALL_SERVICE_NOT_RUNNING => Some(15626),
            WinErrorWindows::ERROR_PACKAGE_MOVE_FAILED => Some(15627),
            WinErrorWindows::ERROR_INSTALL_VOLUME_NOT_EMPTY => Some(15628),
            WinErrorWindows::ERROR_INSTALL_VOLUME_OFFLINE => Some(15629),
            WinErrorWindows::ERROR_INSTALL_VOLUME_CORRUPT => Some(15630),
            WinErrorWindows::ERROR_NEEDS_REGISTRATION => Some(15631),
            WinErrorWindows::ERROR_INSTALL_WRONG_PROCESSOR_ARCHITECTURE => Some(15632),
            WinErrorWindows::ERROR_DEV_SIDELOAD_LIMIT_EXCEEDED => Some(15633),
            WinErrorWindows::ERROR_INSTALL_OPTIONAL_PACKAGE_REQUIRES_MAIN_PACKAGE => Some(15634),
            WinErrorWindows::ERROR_PACKAGE_NOT_SUPPORTED_ON_FILESYSTEM => Some(15635),
            WinErrorWindows::ERROR_PACKAGE_MOVE_BLOCKED_BY_STREAMING => Some(15636),
            WinErrorWindows::ERROR_INSTALL_OPTIONAL_PACKAGE_APPLICATIONID_NOT_UNIQUE => Some(15637),
            WinErrorWindows::ERROR_PACKAGE_STAGING_ONHOLD => Some(15638),
            WinErrorWindows::ERROR_INSTALL_INVALID_RELATED_SET_UPDATE => Some(15639),
            _ => None,
        }
    }

    /// One slice of the symbol table.
    #[verifier::spinoff_prover]
    #[verifier::rlimit(100)]
    fn from_u32_part53(raw: u32) -> (r: Option<WinErrorWindows>)
        ensures
            r == WinErrorWindows::spec_from_u32_part53(raw),
    {
        match raw {
            15325 => Some(WinErrorWindows::ERROR_GPIO_OPERATION_DENIED),
            15326 => Some(WinErrorWindows::ERROR_GPIO_INCOMPATIBLE_CONNECT_MODE),
            15327 => Some(WinErrorWindows::ERROR_GPIO_INTERRUPT_ALREADY_UNMASKED),
            15400 => Some(WinErrorWindows::ERROR_CANNOT_SWITCH_RUNLEVEL),
            15401 => Some(WinErrorWindows::ERROR_INVALID_RUNLEVEL_SETTING),
            15402 => Some(WinErrorWindows::ERROR_RUNLEVEL_SWITCH_TIMEOUT),
            15403 => Some(WinErrorWindows::ERROR_RUNLEVEL_SWITCH_AGENT_TIMEOUT),
            15404 => Some(WinErrorWindows::ERROR_RUNLEVEL_SWITCH_IN_PROGRESS),
            15405 => Some(WinErrorWindows::ERROR_SERVICES_FAILED_AUTOSTART),
            15501 => Some(WinErrorWindows::ERROR_COM_TASK_STOP_PENDING),
            15600 => Some(WinErrorWindows::ERROR_INSTALL_OPEN_PACKAGE_FAILED),
            15601 => Some(WinErrorWindows::ERROR_INSTALL_PACKAGE_NOT_FOUND),
            15602 => Some(WinErrorWindows::ERROR_INSTALL_INVALID_PACKAGE),
            15603 => Some(WinErrorWindows::ERROR_INSTALL_RESOLVE_DEPENDENCY_FAILED),
            15604 => Some(WinErrorWindows::ERROR_INSTALL_OUT_OF_DISK_SPACE),
            15605 => Some(WinErrorWindows::ERROR_INSTALL_NETWORK_FAILURE),
            15606 => Some(WinErrorWindows::ERROR_INSTALL_REGISTRATION_FAILURE),
            15607 => Some(WinErrorWindows::ERROR_INSTALL_DEREGISTRATION_FAILURE),
            15608 => Some(WinErrorWindows::ERROR_INSTALL_CANCEL),
            15609 => Some(WinErrorWindows::ERROR_INSTALL_FAILED),
            15610 => Some(WinErrorWindows::ERROR_REMOVE_FAILED),
            15611 => Some(WinErrorWindows::ERROR_PACKAGE_ALREADY_EXISTS),
            15612 => Some(WinErrorWindows::ERROR_NEEDS_REMEDIATION),
            15613 => Some(WinErrorWindows::ERROR_INSTALL_PREREQUISITE_FAILED),
            15614 => Some(WinErrorWindows::ERROR_PACKAGE_REPOSITORY_CORRUPTED),
            15615 => Some(WinErrorWindows::ERROR_INSTALL_POLICY_FAILURE),
            15616 => Some(WinErrorWindows::ERROR_PACKAGE_UPDATING),
            15617 => Some(WinErrorWindows::ERROR_DEPLOYMENT_BLOCKED_BY_POLICY),
            15618 => Some(WinErrorWindows::ERROR_PACKAGES_IN_USE),
            15619 => Some(WinErrorWindows::ERROR_RECOVERY_FILE_CORRUPT),
            15620 => Some(WinErrorWindows::ERROR_INVALID_STAGED_SIGNATURE),
            15621 => Some(WinErrorWindows::ERROR_DELETING_EXISTING_APPLICATIONDATA_STORE_FAILED),
            15622 => Some(WinErrorWindows::ERROR_INSTALL_PACKAGE_DOWNGRADE),
            15623 => Some(WinErrorWindows::ERROR_SYSTEM_NEEDS_REMEDIATION),
            15624 => Some(WinErrorWindows::ERROR_APPX_INTEGRITY_FAILURE_CLR_NGEN),
            15625 => Some(WinErrorWindows::ERROR_RESILIENCY_FILE_CORRUPT),
            15626 => Some(WinErrorWindows::ERROR_INSTALL_FIREWALL_SERVICE_NOT_RUNNING),
            15627 => Some(WinErrorWindows::ERROR_PACKAGE_MOVE_FAILED),
            15628 => Some(WinErrorWindows::ERROR_INSTALL_VOLUME_NOT_EMPTY),
            15629 => Some(WinErrorWindows::ERROR_INSTALL_VOLUME_OFFLINE),
            15630 => Some(WinErrorWindows::ERROR_INSTALL_VOLUME_CORRUPT),
            15631 => Some(WinErrorWindows::ERROR_NEEDS_REGISTRATION),
            15632 => Some(WinErrorWindows::ERROR_INSTALL_WRONG_PROCESSOR_ARCHITECTURE),
            15633 => Some(WinErrorWindows::ERROR_DEV_SIDELOAD_LIMIT_EXCEEDED),
            15634 => Some(WinErrorWindows::ERROR_INSTALL_OPTIONAL_PACKAGE_REQUIRES_MAIN_PACKAGE),
            15635 => Some(WinErrorWindows::ERROR_PACKAGE_NOT_SUPPORTED_ON_FILESYSTEM),
            15636 => Some(WinErrorWindows::ERROR_PACKAGE_MOVE_BLOCKED_BY_STREAMING),
            15637 => Some(WinErrorWindows::ERROR_INSTALL_OPTIONAL_PACKAGE_APPLICATIONID_NOT_UNIQUE),
            15638 => Some(WinErrorWindows::ERROR_PACKAGE_STAGING_ONHOLD),
            15639 => Some(WinErrorWindows::ERROR_INSTALL_INVALID_RELATED_SET_UPDATE),
            _ => None,
        }
    }

    /// One slice of the symbol table: the raw value of this symbol,
    /// where this slice holds it.
    pub open spec fn spec_to_u32_part54(self) -> Option<u32> {
        match self {
            WinErrorWindows::ERROR_INSTALL_OPTIONAL_PACKAGE_REQUIRES_MAIN_PACKAGE_FULLTRUST_CAPABILITY => Some(15640),
            WinErrorWindows::ERROR_DEPLOYMENT_BLOCKED_BY_USER_LOG_OFF => Some(15641),
            WinErrorWindows::ERROR_PROVISION_OPTIONAL_PACKAGE_REQUIRES_MAIN_PACKAGE_PROVISIONED => Some(15642),
            WinErrorWindows::ERROR_PACKAGES_REPUTATION_CHECK_FAILED => Some(15643),
            WinErrorWindows::ERROR_PACKAGES_REPUTATION_CHECK_TIMEDOUT => Some(15644),
            WinErrorWindows::ERROR_DEPLOYMENT_OPTION_NOT_SUPPORTED => Some(15645),
            WinErrorWindows::ERROR_APPINSTALLER_ACTIVATION_BLOCKED => Some(15646),
            WinErrorWindows::ERROR_REGISTRATION_FROM_REMOTE_DRIVE_NOT_SUPPORTED => Some(15647),
            WinErrorWindows::ERROR_APPX_RAW_DATA_WRITE_FAILED => Some(15648),
            WinErrorWindows::ERROR_DEPLOYMENT_BLOCKED_BY_VOLUME_POLICY_PACKAGE => Some(15649),
            WinErrorWindows::ERROR_DEPLOYMENT_BLOCKED_BY_VOLUME_POLICY_MACHINE => Some(15650),
            WinErrorWindows::ERROR_DEPLOYMENT_BLOCKED_BY_PROFILE_POLICY => Some(15651),
            WinErrorWindows::ERROR_DEPLOYMENT_FAILED_CONFLICTING_MUTABLE_PACKAGE_DIRECTORY => Some(15652),
            WinErrorWindows::ERROR_SINGLETON_RESOURCE_INSTALLED_IN_ACTIVE_USER => Some(15653),
            WinErrorWindows::ERROR_DIFFERENT_VERSION_OF_PACKAGED_SERVICE_INSTALLED => Some(15654),
            WinErrorWindows::ERROR_SERVICE_EXISTS_AS_NON_PACKAGED_SERVICE => Some(15655),
            WinErrorWindows::ERROR_PACKAGED_SERVICE_REQUIRES_ADMIN_PRIVILEGES => Some(15656),
            WinErrorWindows::ERROR_REDIRECTION_TO_DEFAULT_ACCOUNT_NOT_ALLOWED => Some(15657),
            WinErrorWindows::ERROR_PACKAGE_LACKS_CAPABILITY_TO_DEPLOY_ON_HOST => Some(15658),
            WinErrorWindows::ERROR_UNSIGNED_PACKAGE_INVALID_CONTENT => Some(15659),
            WinErrorWindows::ERROR_UNSIGNED_PACKAGE_INVALID_PUBLISHER_NAMESPACE => Some(15660),
            WinErrorWindows::ERROR_SIGNED_PACKAGE_INVALID_PUBLISHER_NAMESPACE => Some(15661),
            WinErrorWindows::ERROR_PACKAGE_EXTERNAL_LOCATION_NOT_ALLOWED => Some(15662),
            WinErrorWindows::ERROR_INSTALL_FULLTRUST_HOSTRUNTIME_REQUIRES_MAIN_PACKAGE_FULLTRUST_CAPABILITY => Some(15663),
            WinErrorWindows::ERROR_STATE_LOAD_STORE_FAILED => Some(15800),
            WinErrorWindows::ERROR_STATE_GET_VERSION_FAILED => Some(15801),
            WinErrorWindows::ERROR_STATE_SET_VERSION_FAILED => Some(15802),
            WinErrorWindows::ERROR_STATE_STRUCTURED_RESET_FAILED => Some(15803),
            WinErrorWindows::ERROR_STATE_OPEN_CONTAINER_FAILED => Some(15804),
            WinErrorWindows::ERROR_STATE_CREATE_CONTAINER_FAILED => Some(15805),
            WinErrorWindows::ERROR_STATE_DELETE_CONTAINER_FAILED => Some(15806),
            WinErrorWindows::ERROR_STATE_READ_SETTING_FAILED => Some(15807),
            WinErrorWindows::ERROR_STATE_WRITE_SETTING_FAILED => Some(15808),
            WinErrorWindows::ERROR_STATE_DELETE_SETTING_FAILED => Some(15809),
            WinErrorWindows::ERROR_STATE_QUERY_SETTING_FAILED => Some(15810),
            WinErrorWindows::ERROR_STATE_READ_COMPOSITE_SETTING_FAILED => Some(15811),
            WinErrorWindows::ERROR_STATE_WRITE_COMPOSITE_SETTING_FAILED => Some(15812),
            WinErrorWindows::ERROR_STATE_ENUMERATE_CONTAINER_FAILED => Some(15813),
            WinErrorWindows::ERROR_STATE_ENUMERATE_SETTINGS_FAILED => Some(15814),
            WinErrorWindows::ERROR_STATE_COMPOSITE_SETTING_VALUE_SIZE_LIMIT_EXCEEDED => Some(15815),
            WinErrorWindows::ERROR_STATE_SETTING_VALUE_SIZE_LIMIT_EXCEEDED => Some(15816),
            WinErrorWindows::ERROR_STATE_SETTING_NAME_SIZE_LIMIT_EXCEEDED => Some(15817),
            WinErrorWindows::ERROR_STATE_CONTAINER_NAME_SIZE_LIMIT_EXCEEDED => Some(15818),
            WinErrorWindows::ERROR_API_UNAVAILABLE => Some(15841),
            _ => None,
        }
    }

    /// One slice of the symbol table: the symbol this slice gives a
    /// raw value, where it holds one.
    pub open spec fn spec_from_u32_part54(raw: u32) -> Option<WinErrorWindows> {
        match raw {
            15640 => Some(WinErrorWindows::ERROR_INSTALL_OPTIONAL_PACKAGE_REQUIRES_MAIN_PACKAGE_FULLTRUST_CAPABILITY),
            15641 => Some(WinErrorWindows::ERROR_DEPLOYMENT_BLOCKED_BY_USER_LOG_OFF),
            15642 => Some(WinErrorWindows::ERROR_PROVISION_OPTIONAL_PACKAGE_REQUIRES_MAIN_PACKAGE_PROVISIONED),
            15643 => Some(WinErrorWindows::ERROR_PACKAGES_REPUTATION_CHECK_FAILED),
            15644 => Some(WinErrorWindows::ERROR_PACKAGES_REPUTATION_CHECK_TIMEDOUT),
            15645 => Some(WinErrorWindows::ERROR_DEPLOYMENT_OPTION_NOT_SUPPORTED),
            15646 => Some(WinErrorWindows::ERROR_APPINSTALLER_ACTIVATION_BLOCKED),
            15647 => Some(WinErrorWindows::ERROR_REGISTRATION_FROM_REMOTE_DRIVE_NOT_SUPPORTED),
            15648 => Some(WinErrorWindows::ERROR_APPX_RAW_DATA_WRITE_FAILED),
            15649 => Some(WinErrorWindows::ERROR_DEPLOYMENT_BLOCKED_BY_VOLUME_POLICY_PACKAGE),
            15650 => Some(WinErrorWindows::ERROR_DEPLOYMENT_BLOCKED_BY_VOLUME_POLICY_MACHINE),
            15651 => Some(WinErrorWindows::ERROR_DEPLOYMENT_BLOCKED_BY_PROFILE_POLICY),
            15652 => Some(WinErrorWindows::ERROR_DEPLOYMENT_FAILED_CONFLICTING_MUTABLE_PACKAGE_DIRECTORY),
            15653 => Some(WinErrorWindows::ERROR_SINGLETON_RESOURCE_INSTALLED_IN_ACTIVE_USER),
            15654 => Some(WinErrorWindows::ERROR_DIFFERENT_VERSION_OF_PACKAGED_SERVICE_INSTALLED),
            15655 => Some(WinErrorWindows::ERROR_SERVICE_EXISTS_AS_NON_PACKAGED_SERVICE),
            15656 => Some(WinErrorWindows::ERROR_PACKAGED_SERVICE_REQUIRES_ADMIN_PRIVILEGES),
            15657 => Some(WinErrorWindows::ERROR_REDIRECTION_TO_DEFAULT_ACCOUNT_NOT_ALLOWED),
            15658 => Some(WinErrorWindows::ERROR_PACKAGE_LACKS_CAPABILITY_TO_DEPLOY_ON_HOST),
            15659 => Some(WinErrorWindows::ERROR_UNSIGNED_PACKAGE_INVALID_CONTENT),
            15660 => Some(WinErrorWindows::ERROR_UNSIGNED_PACKAGE_INVALID_PUBLISHER_NAMESPACE),
            15661 => Some(WinErrorWindows::ERROR_SIGNED_PACKAGE_INVALID_PUBLISHER_NAMESPACE),
            15662 => Some(WinErrorWindows::ERROR_PACKAGE_EXTERNAL_LOCATION_NOT_ALLOWED),
            15663 => Some(WinErrorWindows::ERROR_INSTALL_FULLTRUST_HOSTRUNTIME_REQUIRES_MAIN_PACKAGE_FULLTRUST_CAPABILITY),
            15800 => Some(WinErrorWindows::ERROR_STATE_LOAD_STORE_FAILED),
            15801 => Some(WinErrorWindows::ERROR_STATE_GET_VERSION_FAILED),
            15802 => Some(WinErrorWindows::ERROR_STATE_SET_VERSION_FAILED),
            15803 => Some(WinErrorWindows::ERROR_STATE_STRUCTURED_RESET_FAILED),
            15804 => Some(WinErrorWindows::ERROR_STATE_OPEN_CONTAINER_FAILED),
            15805 => Some(WinErrorWindows::ERROR_STATE_CREATE_CONTAINER_FAILED),
            15806 => Some(WinErrorWindows::ERROR_STATE_DELETE_CONTAINER_FAILED),
            15807 => Some(WinErrorWindows::ERROR_STATE_READ_SETTING_FAILED),
            15808 => Some(WinErrorWindows::ERROR_STATE_WRITE_SETTING_FAILED),
            15809 => Some(WinErrorWindows::ERROR_STATE_DELETE_SETTING_FAILED),
            15810 => Some(WinErrorWindows::ERROR_STATE_QUERY_SETTING_FAILED),
            15811 => Some(WinErrorWindows::ERROR_STATE_READ_COMPOSITE_SETTING_FAILED),
            15812 => Some(WinErrorWindows::ERROR_STATE_WRITE_COMPOSITE_SETTING_FAILED),
            15813 => Some(WinErrorWindows::ERROR_STATE_ENUMERATE_CONTAINER_FAILED),
            15814 => Some(WinErrorWindows::ERROR_STATE_ENUMERATE_SETTINGS_FAILED),
            15815 => Some(WinErrorWindows::ERROR_STATE_COMPOSITE_SETTING_VALUE_SIZE_LIMIT_EXCEEDED),
            15816 => Some(WinErrorWindows::ERROR_STATE_SETTING_VALUE_SIZE_LIMIT_EXCEEDED),
            15817 => Some(WinErrorWindows::ERROR_STATE_SETTING_NAME_SIZE_LIMIT_EXCEEDED),
            15818 => Some(WinErrorWindows::ERROR_STATE_CONTAINER_NAME_SIZE_LIMIT_EXCEEDED),
            15841 => Some(WinErrorWindows::ERROR_API_UNAVAILABLE),
            _ => None,
        }
    }

    /// One slice of the symbol table.
    #[verifier::spinoff_prover]
    #[verifier::rlimit(100)]
    fn to_u32_part54(self) -> (r: Option<u32>)
        ensures
            r == self.spec_to_u32_part54(),
    {
        match self {
            WinErrorWindows::ERROR_INSTALL_OPTIONAL_PACKAGE_REQUIRES_MAIN_PACKAGE_FULLTRUST_CAPABILITY => Some(15640),
            WinErrorWindows::ERROR_DEPLOYMENT_BLOCKED_BY_USER_LOG_OFF => Some(15641),
            WinErrorWindows::ERROR_PROVISION_OPTIONAL_PACKAGE_REQUIRES_MAIN_PACKAGE_PROVISIONED => Some(15642),
            WinErrorWindows::ERROR_PACKAGES_REPUTATION_CHECK_FAILED => Some(15643),
            WinErrorWindows::ERROR_PACKAGES_REPUTATION_CHECK_TIMEDOUT => Some(15644),
            WinErrorWindows::ERROR_DEPLOYMENT_OPTION_NOT_SUPPORTED => Some(15645),
            WinErrorWindows::ERROR_APPINSTALLER_ACTIVATION_BLOCKED => Some(15646),
            WinErrorWindows::ERROR_REGISTRATION_FROM_REMOTE_DRIVE_NOT_SUPPORTED => Some(15647),
            WinErrorWindows::ERROR_APPX_RAW_DATA_WRITE_FAILED => Some(15648),
            WinErrorWindows::ERROR_DEPLOYMENT_BLOCKED_BY_VOLUME_POLICY_PACKAGE => Some(15649),
            WinErrorWindows::ERROR_DEPLOYMENT_BLOCKED_BY_VOLUME_POLICY_MACHINE => Some(15650),
            WinErrorWindows::ERROR_DEPLOYMENT_BLOCKED_BY_PROFILE_POLICY => Some(15651),
            WinErrorWindows::ERROR_DEPLOYMENT_FAILED_CONFLICTING_MUTABLE_PACKAGE_DIRECTORY => Some(15652),
            WinErrorWindows::ERROR_SINGLETON_RESOURCE_INSTALLED_IN_ACTIVE_USER => Some(15653),
            WinErrorWindows::ERROR_DIFFERENT_VERSION_OF_PACKAGED_SERVICE_INSTALLED => Some(15654),
            WinErrorWindows::ERROR_SERVICE_EXISTS_AS_NON_PACKAGED_SERVICE => Some(15655),
            WinErrorWindows::ERROR_PACKAGED_SERVICE_REQUIRES_ADMIN_PRIVILEGES => Some(15656),
            WinErrorWindows::ERROR_REDIRECTION_TO_DEFAULT_ACCOUNT_NOT_ALLOWED => Some(15657),
            WinErrorWindows::ERROR_PACKAGE_LACKS_CAPABILITY_TO_DEPLOY_ON_HOST => Some(15658),
            WinErrorWindows::ERROR_UNSIGNED_PACKAGE_INVALID_CONTENT => Some(15659),
            WinErrorWindows::ERROR_UNSIGNED_PACKAGE_INVALID_PUBLISHER_NAMESPACE => Some(15660),
            WinErrorWindows::ERROR_SIGNED_PACKAGE_INVALID_PUBLISHER_NAMESPACE => Some(15661),
            WinErrorWindows::ERROR_PACKAGE_EXTERNAL_LOCATION_NOT_ALLOWED => Some(15662),
            WinErrorWindows::ERROR_INSTALL_FULLTRUST_HOSTRUNTIME_REQUIRES_MAIN_PACKAGE_FULLTRUST_CAPABILITY => Some(15663),
            WinErrorWindows::ERROR_STATE_LOAD_STORE_FAILED => Some(15800),
            WinErrorWindows::ERROR_STATE_GET_VERSION_FAILED => Some(15801),
            WinErrorWindows::ERROR_STATE_SET_VERSION_FAILED => Some(15802),
            WinErrorWindows::ERROR_STATE_STRUCTURED_RESET_FAILED => Some(15803),
            WinErrorWindows::ERROR_STATE_OPEN_CONTAINER_FAILED => Some(15804),
            WinErrorWindows::ERROR_STATE_CREATE_CONTAINER_FAILED => Some(15805),
            WinErrorWindows::ERROR_STATE_DELETE_CONTAINER_FAILED => Some(15806),
            WinErrorWindows::ERROR_STATE_READ_SETTING_FAILED => Some(15807),
            WinErrorWindows::ERROR_STATE_WRITE_SETTING_FAILED => Some(15808),
            WinErrorWindows::ERROR_STATE_DELETE_SETTING_FAILED => Some(15809),
            WinErrorWindows::ERROR_STATE_QUERY_SETTING_FAILED => Some(15810),
            WinErrorWindows::ERROR_STATE_READ_COMPOSITE_SETTING_FAILED => Some(15811),
            WinErrorWindows::ERROR_STATE_WRITE_COMPOSITE_SETTING_FAILED => Some(15812),
            WinErrorWindows::ERROR_STATE_ENUMERATE_CONTAINER_FAILED => Some(15813),
            WinErrorWindows::ERROR_STATE_ENUMERATE_SETTINGS_FAILED => Some(15814),
            WinErrorWindows::ERROR_STATE_COMPOSITE_SETTING_VALUE_SIZE_LIMIT_EXCEEDED => Some(15815),
            WinErrorWindows::ERROR_STATE_SETTING_VALUE_SIZE_LIMIT_EXCEEDED => Some(15816),
            WinErrorWindows::ERROR_STATE_SETTING_NAME_SIZE_LIMIT_EXCEEDED => Some(15817),
            WinErrorWindows::ERROR_STATE_CONTAINER_NAME_SIZE_LIMIT_EXCEEDED => Some(15818),
            WinErrorWindows::ERROR_API_UNAVAILABLE => Some(15841),
            _ => None,
        }
    }

    /// One slice of the symbol table.
    #[verifier::spinoff_prover]
    #[verifier::rlimit(100)]
    fn from_u32_part54(raw: u32) -> (r: Option<WinErrorWindows>)
        ensures
            r == WinErrorWindows::spec_from_u32_part54(raw),
    {
        match raw {
            15640 => Some(WinErrorWindows::ERROR_INSTALL_OPTIONAL_PACKAGE_REQUIRES_MAIN_PACKAGE_FULLTRUST_CAPABILITY),
            15641 => Some(WinErrorWindows::ERROR_DEPLOYMENT_BLOCKED_BY_USER_LOG_OFF),
            15642 => Some(WinErrorWindows::ERROR_PROVISION_OPTIONAL_PACKAGE_REQUIRES_MAIN_PACKAGE_PROVISIONED),
            15643 => Some(WinErrorWindows::ERROR_PACKAGES_REPUTATION_CHECK_FAILED),
            15644 => Some(WinErrorWindows::ERROR_PACKAGES_REPUTATION_CHECK_TIMEDOUT),
            15645 => Some(WinErrorWindows::ERROR_DEPLOYMENT_OPTION_NOT_SUPPORTED),
            15646 => Some(WinErrorWindows::ERROR_APPINSTALLER_ACTIVATION_BLOCKED),
            15647 => Some(WinErrorWindows::ERROR_REGISTRATION_FROM_REMOTE_DRIVE_NOT_SUPPORTED),
            15648 => Some(WinErrorWindows::ERROR_APPX_RAW_DATA_WRITE_FAILED),
            15649 => Some(WinErrorWindows::ERROR_DEPLOYMENT_BLOCKED_BY_VOLUME_POLICY_PACKAGE),
            15650 => Some(WinErrorWindows::ERROR_DEPLOYMENT_BLOCKED_BY_VOLUME_POLICY_MACHINE),
            15651 => Some(WinErrorWindows::ERROR_DEPLOYMENT_BLOCKED_BY_PROFILE_POLICY),
            15652 => Some(WinErrorWindows::ERROR_DEPLOYMENT_FAILED_CONFLICTING_MUTABLE_PACKAGE_DIRECTORY),
            15653 => Some(WinErrorWindows::ERROR_SINGLETON_RESOURCE_INSTALLED_IN_ACTIVE_USER),
            15654 => Some(WinErrorWindows::ERROR_DIFFERENT_VERSION_OF_PACKAGED_SERVICE_INSTALLED),
            15655 => Some(WinErrorWindows::ERROR_SERVICE_EXISTS_AS_NON_PACKAGED_SERVICE),
            15656 => Some(WinErrorWindows::ERROR_PACKAGED_SERVICE_REQUIRES_ADMIN_PRIVILEGES),
            15657 => Some(WinErrorWindows::ERROR_REDIRECTION_TO_DEFAULT_ACCOUNT_NOT_ALLOWED),
            15658 => Some(WinErrorWindows::ERROR_PACKAGE_LACKS_CAPABILITY_TO_DEPLOY_ON_HOST),
            15659 => Some(WinErrorWindows::ERROR_UNSIGNED_PACKAGE_INVALID_CONTENT),
            15660 => Some(WinErrorWindows::ERROR_UNSIGNED_PACKAGE_INVALID_PUBLISHER_NAMESPACE),
            15661 => Some(WinErrorWindows::ERROR_SIGNED_PACKAGE_INVALID_PUBLISHER_NAMESPACE),
            15662 => Some(WinErrorWindows::ERROR_PACKAGE_EXTERNAL_LOCATION_NOT_ALLOWED),
            15663 => Some(WinErrorWindows::ERROR_INSTALL_FULLTRUST_HOSTRUNTIME_REQUIRES_MAIN_PACKAGE_FULLTRUST_CAPABILITY),
            15800 => Some(WinErrorWindows::ERROR_STATE_LOAD_STORE_FAILED),
            15801 => Some(WinErrorWindows::ERROR_STATE_GET_VERSION_FAILED),
            15802 => Some(WinErrorWindows::ERROR_STATE_SET_VERSION_FAILED),
            15803 => Some(WinErrorWindows::ERROR_STATE_STRUCTURED_RESET_FAILED),
            15804 => Some(WinErrorWindows::ERROR_STATE_OPEN_CONTAINER_FAILED),
            15805 => Some(WinErrorWindows::ERROR_STATE_CREATE_CONTAINER_FAILED),
            15806 => Some(WinErrorWindows::ERROR_STATE_DELETE_CONTAINER_FAILED),
            15807 => Some(WinErrorWindows::ERROR_STATE_READ_SETTING_FAILED),
            15808 => Some(WinErrorWindows::ERROR_STATE_WRITE_SETTING_FAILED),
            15809 => Some(WinErrorWindows::ERROR_STATE_DELETE_SETTING_FAILED),
            15810 => Some(WinErrorWindows::ERROR_STATE_QUERY_SETTING_FAILED),
            15811 => Some(WinErrorWindows::ERROR_STATE_READ_COMPOSITE_SETTING_FAILED),
            15812 => Some(WinErrorWindows::ERROR_STATE_WRITE_COMPOSITE_SETTING_FAILED),
            15813 => Some(WinErrorWindows::ERROR_STATE_ENUMERATE_CONTAINER_FAILED),
            15814 => Some(WinErrorWindows::ERROR_STATE_ENUMERATE_SETTINGS_FAILED),
            15815 => Some(WinErrorWindows::ERROR_STATE_COMPOSITE_SETTING_VALUE_SIZE_LIMIT_EXCEEDED),
            15816 => Some(WinErrorWindows::ERROR_STATE_SETTING_VALUE_SIZE_LIMIT_EXCEEDED),
            15817 => Some(WinErrorWindows::ERROR_STATE_SETTING_NAME_SIZE_LIMIT_EXCEEDED),
            15818 => Some(WinErrorWindows::ERROR_STATE_CONTAINER_NAME_SIZE_LIMIT_EXCEEDED),
            15841 => Some(WinErrorWindows::ERROR_API_UNAVAILABLE),
            _ => None,
        }
    }

    /// One run of slices of the symbol table.
    pub open spec fn spec_to_u32_g0(self) -> Option<u32> {
        let r0 = self.spec_to_u32_part0();
        let r1 = if r0 is Some { r0 } else { self.spec_to_u32_part1() };
        let r2 = if r1 is Some { r1 } else { self.spec_to_u32_part2() };
        let r3 = if r2 is Some { r2 } else { self.spec_to_u32_part3() };
        let r4 = if r3 is Some { r3 } else { self.spec_to_u32_part4() };
        let r5 = if r4 is Some { r4 } else { self.spec_to_u32_part5() };
        let r6 = if r5 is Some { r5 } else { self.spec_to_u32_part6() };
        let r7 = if r6 is Some { r6 } else { self.spec_to_u32_part7() };
        r7
    }

    /// One run of slices of the symbol table.
    pub open spec fn spec_from_u32_g0(raw: u32) -> Option<WinErrorWindows> {
        let r0 = Self::spec_from_u32_part0(raw);
        let r1 = if r0 is Some { r0 } else { Self::spec_from_u32_part1(raw) };
        let r2 = if r1 is Some { r1 } else { Self::spec_from_u32_part2(raw) };
        let r3 = if r2 is Some { r2 } else { Self::spec_from_u32_part3(raw) };
        let r4 = if r3 is Some { r3 } else { Self::spec_from_u32_part4(raw) };
        let r5 = if r4 is Some { r4 } else { Self::spec_from_u32_part5(raw) };
        let r6 = if r5 is Some { r5 } else { Self::spec_from_u32_part6(raw) };
        let r7 = if r6 is Some { r6 } else { Self::spec_from_u32_part7(raw) };
        r7
    }

    /// One run of slices of the symbol table.
    fn to_u32_g0(self) -> (r: Option<u32>)
        ensures
            r == self.spec_to_u32_g0(),
    {
        let r = self.to_u32_part0();
        if r.is_some() {
            return r;
        }
        let r = self.to_u32_part1();
        if r.is_some() {
            return r;
        }
        let r = self.to_u32_part2();
        if r.is_some() {
            return r;
        }
        let r = self.to_u32_part3();
        if r.is_some() {
            return r;
        }
        let r = self.to_u32_part4();
        if r.is_some() {
            return r;
        }
        let r = self.to_u32_part5();
        if r.is_some() {
            return r;
        }
        let r = self.to_u32_part6();
        if r.is_some() {
            return r;
        }
        let r = self.to_u32_part7();
        if r.is_some() {
            return r;
        }
        None
    }

    /// One run of slices of the symbol table.
    fn from_u32_g0(raw: u32) -> (r: Option<WinErrorWindows>)
        ensures
            r == WinErrorWindows::spec_from_u32_g0(raw),
    {
        let r = Self::from_u32_part0(raw);
        if r.is_some() {
            return r;
        }
        let r = Self::from_u32_part1(raw);
        if r.is_some() {
            return r;
        }
        let r = Self::from_u32_part2(raw);
        if r.is_some() {
            return r;
        }
        let r = Self::from_u32_part3(raw);
        if r.is_some() {
            return r;
        }
        let r = Self::from_u32_part4(raw);
        if r.is_some() {
            return r;
        }
        let r = Self::from_u32_part5(raw);
        if r.is_some() {
            return r;
        }
        let r = Self::from_u32_part6(raw);
        if r.is_some() {
            return r;
        }
        let r = Self::from_u32_part7(raw);
        if r.is_some() {
            return r;
        }
        None
    }

    /// One run of slices of the symbol table.
    pub open spec fn spec_to_u32_g1(self) -> Option<u32> {
        let r0 = self.spec_to_u32_part8();
        let r1 = if r0 is Some { r0 } else { self.spec_to_u32_part9() };
        let r2 = if r1 is Some { r1 } else { self.spec_to_u32_part10() };
        let r3 = if r2 is Some { r2 } else { self.spec_to_u32_part11() };
        let r4 = if r3 is Some { r3 } else { self.spec_to_u32_part12() };
        let r5 = if r4 is Some { r4 } else { self.spec_to_u32_part13() };
        let r6 = if r5 is Some { r5 } else { self.spec_to_u32_part14() };
        let r7 = if r6 is Some { r6 } else { self.spec_to_u32_part15() };
        r7
    }

    /// One run of slices of the symbol table.
    pub open spec fn spec_from_u32_g1(raw: u32) -> Option<WinErrorWindows> {
        let r0 = Self::spec_from_u32_part8(raw);
        let r1 = if r0 is Some { r0 } else { Self::spec_from_u32_part9(raw) };
        let r2 = if r1 is Some { r1 } else { Self::spec_from_u32_part10(raw) };
        let r3 = if r2 is Some { r2 } else { Self::spec_from_u32_part11(raw) };
        let r4 = if r3 is Some { r3 } else { Self::spec_from_u32_part12(raw) };
        let r5 = if r4 is Some { r4 } else { Self::spec_from_u32_part13(raw) };
        let r6 = if r5 is Some { r5 } else { Self::spec_from_u32_part14(raw) };
        let r7 = if r6 is Some { r6 } else { Self::spec_from_u32_part15(raw) };
        r7
    }

    /// One run of slices of the symbol table.
    fn to_u32_g1(self) -> (r: Option<u32>)
        ensures
            r == self.spec_to_u32_g1(),
    {
        let r = self.to_u32_part8();
        if r.is_some() {
            return r;
        }
        let r = self.to_u32_part9();
        if r.is_some() {
            return r;
        }
        let r = self.to_u32_part10();
        if r.is_some() {
            return r;
        }
        let r = self.to_u32_part11();
        if r.is_some() {
            return r;
        }
        let r = self.to_u32_part12();
        if r.is_some() {
            return r;
        }
        let r = self.to_u32_part13();
        if r.is_some() {
            return r;
        }
        let r = self.to_u32_part14();
        if r.is_some() {
            return r;
        }
        let r = self.to_u32_part15();
        if r.is_some() {
            return r;
        }
        None
    }

    /// One run of slices of the symbol table.
    fn from_u32_g1(raw: u32) -> (r: Option<WinErrorWindows>)
        ensures
            r == WinErrorWindows::spec_from_u32_g1(raw),
    {
        let r = Self::from_u32_part8(raw);
        if r.is_some() {
            return r;
        }
        let r = Self::from_u32_part9(raw);
        if r.is_some() {
            return r;
        }
        let r = Self::from_u32_part10(raw);
        if r.is_some() {
            return r;
        }
        let r = Self::from_u32_part11(raw);
        if r.is_some() {
            return r;
        }
        let r = Self::from_u32_part12(raw);
        if r.is_some() {
            return r;
        }
        let r = Self::from_u32_part13(raw);
        if r.is_some() {
            return r;
        }
        let r = Self::from_u32_part14(raw);
        if r.is_some() {
            return r;
        }
        let r = Self::from_u32_part15(raw);
        if r.is_some() {
            return r;
        }
        None
    }

    /// One run of slices of the symbol table.
    pub open spec fn spec_to_u32_g2(self) -> Option<u32> {
        let r0 = self.spec_to_u32_part16();
        let r1 = if r0 is Some { r0 } else { self.spec_to_u32_part17() };
        let r2 = if r1 is Some { r1 } else { self.spec_to_u32_part18() };
        let r3 = if r2 is Some { r2 } else { self.spec_to_u32_part19() };
        let r4 = if r3 is Some { r3 } else { self.spec_to_u32_part20() };
        let r5 = if r4 is Some { r4 } else { self.spec_to_u32_part21() };
        let r6 = if r5 is Some { r5 } else { self.spec_to_u32_part22() };
        let r7 = if r6 is Some { r6 } else { self.spec_to_u32_part23() };
        r7
    }

    /// One run of slices of the symbol table.
    pub open spec fn spec_from_u32_g2(raw: u32) -> Option<WinErrorWindows> {
        let r0 = Self::spec_from_u32_part16(raw);
        let r1 = if r0 is Some { r0 } else { Self::spec_from_u32_part17(raw) };
        let r2 = if r1 is Some { r1 } else { Self::spec_from_u32_part18(raw) };
        let r3 = if r2 is Some { r2 } else { Self::spec_from_u32_part19(raw) };
        let r4 = if r3 is Some { r3 } else { Self::spec_from_u32_part20(raw) };
        let r5 = if r4 is Some { r4 } else { Self::spec_from_u32_part21(raw) };
        let r6 = if r5 is Some { r5 } else { Self::spec_from_u32_part22(raw) };
        let r7 = if r6 is Some { r6 } else { Self::spec_from_u32_part23(raw) };
        r7
    }

    /// One run of slices of the symbol table.
    fn to_u32_g2(self) -> (r: Option<u32>)
        ensures
            r == self.spec_to_u32_g2(),
    {
        let r = self.to_u32_part16();
        if r.is_some() {
            return r;
        }
        let r = self.to_u32_part17();
        if r.is_some() {
            return r;
        }
        let r = self.to_u32_part18();
        if r.is_some() {
            return r;
        }
        let r = self.to_u32_part19();
        if r.is_some() {
            return r;
        }
        let r = self.to_u32_part20();
        if r.is_some() {
            return r;
        }
        let r = self.to_u32_part21();
        if r.is_some() {
            return r;
        }
        let r = self.to_u32_part22();
        if r.is_some() {
            return r;
        }
        let r = self.to_u32_part23();
        if r.is_some() {
            return r;
        }
        None
    }

    /// One run of slices of the symbol table.
    fn from_u32_g2(raw: u32) -> (r: Option<WinErrorWindows>)
        ensures
            r == WinErrorWindows::spec_from_u32_g2(raw),
    {
        let r = Self::from_u32_part16(raw);
        if r.is_some() {
            return r;
        }
        let r = Self::from_u32_part17(raw);
        if r.is_some() {
            return r;
        }
        let r = Self::from_u32_part18(raw);
        if r.is_some() {
            return r;
        }
        let r = Self::from_u32_part19(raw);
        if r.is_some() {
            return r;
        }
        let r = Self::from_u32_part20(raw);
        if r.is_some() {
            return r;
        }
        let r = Self::from_u32_part21(raw);
        if r.is_some() {
            return r;
        }
        let r = Self::from_u32_part22(raw);
        if r.is_some() {
            return r;
        }
        let r = Self::from_u32_part23(raw);
        if r.is_some() {
            return r;
        }
        None
    }

    /// One run of slices of the symbol table.
    pub open spec fn spec_to_u32_g3(self) -> Option<u32> {
        let r0 = self.spec_to_u32_part24();
        let r1 = if r0 is Some { r0 } else { self.spec_to_u32_part25() };
        let r2 = if r1 is Some { r1 } else { self.spec_to_u32_part26() };
        let r3 = if r2 is Some { r2 } else { self.spec_to_u32_part27() };
        let r4 = if r3 is Some { r3 } else { self.spec_to_u32_part28() };
        let r5 = if r4 is Some { r4 } else { self.spec_to_u32_part29() };
        let r6 = if r5 is Some { r5 } else { self.spec_to_u32_part30() };
        let r7 = if r6 is Some { r6 } else { self.spec_to_u32_part31() };
        r7
    }

    /// One run of slices of the symbol table.
    pub open spec fn spec_from_u32_g3(raw: u32) -> Option<WinErrorWindows> {
        let r0 = Self::spec_from_u32_part24(raw);
        let r1 = if r0 is Some { r0 } else { Self::spec_from_u32_part25(raw) };
        let r2 = if r1 is Some { r1 } else { Self::spec_from_u32_part26(raw) };
        let r3 = if r2 is Some { r2 } else { Self::spec_from_u32_part27(raw) };
        let r4 = if r3 is Some { r3 } else { Self::spec_from_u32_part28(raw) };
        let r5 = if r4 is Some { r4 } else { Self::spec_from_u32_part29(raw) };
        let r6 = if r5 is Some { r5 } else { Self::spec_from_u32_part30(raw) };
        let r7 = if r6 is Some { r6 } else { Self::spec_from_u32_part31(raw) };
        r7
    }

    /// One run of slices of the symbol table.
    fn to_u32_g3(self) -> (r: Option<u32>)
        ensures
            r == self.spec_to_u32_g3(),
    {
        let r = self.to_u32_part24();
        if r.is_some() {
            return r;
        }
        let r = self.to_u32_part25();
        if r.is_some() {
            return r;
        }
        let r = self.to_u32_part26();
        if r.is_some() {
            return r;
        }
        let r = self.to_u32_part27();
        if r.is_some() {
            return r;
        }
        let r = self.to_u32_part28();
        if r.is_some() {
            return r;
        }
        let r = self.to_u32_part29();
        if r.is_some() {
            return r;
        }
        let r = self.to_u32_part30();
        if r.is_some() {
            return r;
        }
        let r = self.to_u32_part31();
        if r.is_some() {
            return r;
        }
        None
    }

    /// One run of slices of the symbol table.
    fn from_u32_g3(raw: u32) -> (r: Option<WinErrorWindows>)
        ensures
            r == WinErrorWindows::spec_from_u32_g3(raw),
    {
        let r = Self::from_u32_part24(raw);
        if r.is_some() {
            return r;
        }
        let r = Self::from_u32_part25(raw);
        if r.is_some() {
            return r;
        }
        let r = Self::from_u32_part26(raw);
        if r.is_some() {
            return r;
        }
        let r = Self::from_u32_part27(raw);
        if r.is_some() {
            return r;
        }
        let r = Self::from_u32_part28(raw);
        if r.is_some() {
            return r;
        }
        let r = Self::from_u32_part29(raw);
        if r.is_some() {
            return r;
        }
        let r = Self::from_u32_part30(raw);
        if r.is_some() {
            return r;
        }
        let r = Self::from_u32_part31(raw);
        if r.is_some() {
            return r;
        }
        None
    }

    /// One run of slices of the symbol table.
    pub open spec fn spec_to_u32_g4(self) -> Option<u32> {
        let r0 = self.spec_to_u32_part32();
        let r1 = if r0 is Some { r0 } else { self.spec_to_u32_part33() };
        let r2 = if r1 is Some { r1 } else { self.spec_to_u32_part34() };
        let r3 = if r2 is Some { r2 } else { self.spec_to_u32_part35() };
        let r4 = if r3 is Some { r3 } else { self.spec_to_u32_part36() };
        let r5 = if r4 is Some { r4 } else { self.spec_to_u32_part37() };
        let r6 = if r5 is Some { r5 } else { self.spec_to_u32_part38() };
        let r7 = if r6 is Some { r6 } else { self.spec_to_u32_part39() };
        r7
    }

    /// One run of slices of the symbol table.
    pub open spec fn spec_from_u32_g4(raw: u32) -> Option<WinErrorWindows> {
        let r0 = Self::spec_from_u32_part32(raw);
        let r1 = if r0 is Some { r0 } else { Self::spec_from_u32_part33(raw) };
        let r2 = if r1 is Some { r1 } else { Self::spec_from_u32_part34(raw) };
        let r3 = if r2 is Some { r2 } else { Self::spec_from_u32_part35(raw) };
        let r4 = if r3 is Some { r3 } else { Self::spec_from_u32_part36(raw) };
        let r5 = if r4 is Some { r4 } else { Self::spec_from_u32_part37(raw) };
        let r6 = if r5 is Some { r5 } else { Self::spec_from_u32_part38(raw) };
        let r7 = if r6 is Some { r6 } else { Self::spec_from_u32_part39(raw) };
        r7
    }

    /// One run of slices of the symbol table.
    fn to_u32_g4(self) -> (r: Option<u32>)
        ensures
            r == self.spec_to_u32_g4(),
    {
        let r = self.to_u32_part32();
        if r.is_some() {
            return r;
        }
        let r = self.to_u32_part33();
        if r.is_some() {
            return r;
        }
        let r = self.to_u32_part34();
        if r.is_some() {
            return r;
        }
        let r = self.to_u32_part35();
        if r.is_some() {
            return r;
        }
        let r = self.to_u32_part36();
        if r.is_some() {
            return r;
        }
        let r = self.to_u32_part37();
        if r.is_some() {
            return r;
        }
        let r = self.to_u32_part38();
        if r.is_some() {
            return r;
        }
        let r = self.to_u32_part39();
        if r.is_some() {
            return r;
        }
        None
    }

    /// One run of slices of the symbol table.
    fn from_u32_g4(raw: u32) -> (r: Option<WinErrorWindows>)
        ensures
            r == WinErrorWindows::spec_from_u32_g4(raw),
    {
        let r = Self::from_u32_part32(raw);
        if r.is_some() {
            return r;
        }
        let r = Self::from_u32_part33(raw);
        if r.is_some() {
            return r;
        }
        let r = Self::from_u32_part34(raw);
        if r.is_some() {
            return r;
        }
        let r = Self::from_u32_part35(raw);
        if r.is_some() {
            return r;
        }
        let r = Self::from_u32_part36(raw);
        if r.is_some() {
            return r;
        }
        let r = Self::from_u32_part37(raw);
        if r.is_some() {
            return r;
        }
        let r = Self::from_u32_part38(raw);
        if r.is_some() {
            return r;
        }
        let r = Self::from_u32_part39(raw);
        if r.is_some() {
            return r;
        }
        None
    }

    /// One run of slices of the symbol table.
    pub open spec fn spec_to_u32_g5(self) -> Option<u32> {
        let r0 = self.spec_to_u32_part40();
        let r1 = if r0 is Some { r0 } else { self.spec_to_u32_part41() };
        let r2 = if r1 is Some { r1 } else { self.spec_to_u32_part42() };
        let r3 = if r2 is Some { r2 } else { self.spec_to_u32_part43() };
        let r4 = if r3 is Some { r3 } else { self.spec_to_u32_part44() };
        let r5 = if r4 is Some { r4 } else { self.spec_to_u32_part45() };
        let r6 = if r5 is Some { r5 } else { self.spec_to_u32_part46() };
        let r7 = if r6 is Some { r6 } else { self.spec_to_u32_part47() };
        r7
    }

    /// One run of slices of the symbol table.
    pub open spec fn spec_from_u32_g5(raw: u32) -> Option<WinErrorWindows> {
        let r0 = Self::spec_from_u32_part40(raw);
        let r1 = if r0 is Some { r0 } else { Self::spec_from_u32_part41(raw) };
        let r2 = if r1 is Some { r1 } else { Self::spec_from_u32_part42(raw) };
        let r3 = if r2 is Some { r2 } else { Self::spec_from_u32_part43(raw) };
        let r4 = if r3 is Some { r3 } else { Self::spec_from_u32_part44(raw) };
        let r5 = if r4 is Some { r4 } else { Self::spec_from_u32_part45(raw) };
        let r6 = if r5 is Some { r5 } else { Self::spec_from_u32_part46(raw) };
        let r7 = if r6 is Some { r6 } else { Self::spec_from_u32_part47(raw) };
        r7
    }

    /// One run of slices of the symbol table.
    fn to_u32_g5(self) -> (r: Option<u32>)
        ensures
            r == self.spec_to_u32_g5(),
    {
        let r = self.to_u32_part40();
        if r.is_some() {
            return r;
        }
        let r = self.to_u32_part41();
        if r.is_some() {
            return r;
        }
        let r = self.to_u32_part42();
        if r.is_some() {
            return r;
        }
        let r = self.to_u32_part43();
        if r.is_some() {
            return r;
        }
        let r = self.to_u32_part44();
        if r.is_some() {
            return r;
        }
        let r = self.to_u32_part45();
        if r.is_some() {
            return r;
        }
        let r = self.to_u32_part46();
        if r.is_some() {
            return r;
        }
        let r = self.to_u32_part47();
        if r.is_some() {
            return r;
        }
        None
    }

    /// One run of slices of the symbol table.
    fn from_u32_g5(raw: u32) -> (r: Option<WinErrorWindows>)
        ensures
            r == WinErrorWindows::spec_from_u32_g5(raw),
    {
        let r = Self::from_u32_part40(raw);
        if r.is_some() {
            return r;
        }
        let r = Self::from_u32_part41(raw);
        if r.is_some() {
            return r;
        }
        let r = Self::from_u32_part42(raw);
        if r.is_some() {
            return r;
        }
        let r = Self::from_u32_part43(raw);
        if r.is_some() {
            return r;
        }
        let r = Self::from_u32_part44(raw);
        if r.is_some() {
            return r;
        }
        let r = Self::from_u32_part45(raw);
        if r.is_some() {
            return r;
        }
        let r = Self::from_u32_part46(raw);
        if r.is_some() {
            return r;
        }
        let r = Self::from_u32_part47(raw);
        if r.is_some() {
            return r;
        }
        None
    }

    /// One run of slices of the symbol table.
    pub open spec fn spec_to_u32_g6(self) -> Option<u32> {
        let r0 = self.spec_to_u32_part48();
        let r1 = if r0 is Some { r0 } else { self.spec_to_u32_part49() };
        let r2 = if r1 is Some { r1 } else { self.spec_to_u32_part50() };
        let r3 = if r2 is Some { r2 } else { self.spec_to_u32_part51() };
        let r4 = if r3 is Some { r3 } else { self.spec_to_u32_part52() };
        let r5 = if r4 is Some { r4 } else { self.spec_to_u32_part53() };
        let r6 = if r5 is Some { r5 } else { self.spec_to_u32_part54() };
        r6
    }

    /// One run of slices of the symbol table.
    pub open spec fn spec_from_u32_g6(raw: u32) -> Option<WinErrorWindows> {
        let r0 = Self::spec_from_u32_part48(raw);
        let r1 = if r0 is Some { r0 } else { Self::spec_from_u32_part49(raw) };
        let r2 = if r1 is Some { r1 } else { Self::spec_from_u32_part50(raw) };
        let r3 = if r2 is Some { r2 } else { Self::spec_from_u32_part51(raw) };
        let r4 = if r3 is Some { r3 } else { Self::spec_from_u32_part52(raw) };
        let r5 = if r4 is Some { r4 } else { Self::spec_from_u32_part53(raw) };
        let r6 = if r5 is Some { r5 } else { Self::spec_from_u32_part54(raw) };
        r6
    }

    /// One run of slices of the symbol table.
    fn to_u32_g6(self) -> (r: Option<u32>)
        ensures
            r == self.spec_to_u32_g6(),
    {
        let r = self.to_u32_part48();
        if r.is_some() {
            return r;
        }
        let r = self.to_u32_part49();
        if r.is_some() {
            return r;
        }
        let r = self.to_u32_part50();
        if r.is_some() {
            return r;
        }
        let r = self.to_u32_part51();
        if r.is_some() {
            return r;
        }
        let r = self.to_u32_part52();
        if r.is_some() {
            return r;
        }
        let r = self.to_u32_part53();
        if r.is_some() {
            return r;
        }
        let r = self.to_u32_part54();
        if r.is_some() {
            return r;
        }
        None
    }

    /// One run of slices of the symbol table.
    fn from_u32_g6(raw: u32) -> (r: Option<WinErrorWindows>)
        ensures
            r == WinErrorWindows::spec_from_u32_g6(raw),
    {
        let r = Self::from_u32_part48(raw);
        if r.is_some() {
            return r;
        }
        let r = Self::from_u32_part49(raw);
        if r.is_some() {
            return r;
        }
        let r = Self::from_u32_part50(raw);
        if r.is_some() {
            return r;
        }
        let r = Self::from_u32_part51(raw);
        if r.is_some() {
            return r;
        }
        let r = Self::from_u32_part52(raw);
        if r.is_some() {
            return r;
        }
        let r = Self::from_u32_part53(raw);
        if r.is_some() {
            return r;
        }
        let r = Self::from_u32_part54(raw);
        if r.is_some() {
            return r;
        }
        None
    }

    /// The raw value of this symbol.
    pub open spec fn spec_to_u32(self) -> u32 {
        let r0 = self.spec_to_u32_g0();
        let r1 = if r0 is Some { r0 } else { self.spec_to_u32_g1() };
        let r2 = if r1 is Some { r1 } else { self.spec_to_u32_g2() };
        let r3 = if r2 is Some { r2 } else { self.spec_to_u32_g3() };
        let r4 = if r3 is Some { r3 } else { self.spec_to_u32_g4() };
        let r5 = if r4 is Some { r4 } else { self.spec_to_u32_g5() };
        let r6 = if r5 is Some { r5 } else { self.spec_to_u32_g6() };
        match r6 {
            Some(v) => v,
            None => 0,
        }
    }

    /// The symbol a raw value names, or `None` for any other value.
    pub open spec fn spec_from_u32(raw: u32) -> Option<WinErrorWindows> {
        let r0 = Self::spec_from_u32_g0(raw);
        let r1 = if r0 is Some { r0 } else { Self::spec_from_u32_g1(raw) };
        let r2 = if r1 is Some { r1 } else { Self::spec_from_u32_g2(raw) };
        let r3 = if r2 is Some { r2 } else { Self::spec_from_u32_g3(raw) };
        let r4 = if r3 is Some { r3 } else { Self::spec_from_u32_g4(raw) };
        let r5 = if r4 is Some { r4 } else { Self::spec_from_u32_g5(raw) };
        let r6 = if r5 is Some { r5 } else { Self::spec_from_u32_g6(raw) };
        r6
    }

    /// The raw value of this symbol.
    pub fn to_u32(self) -> (r: u32)
        ensures
            r == self.spec_to_u32(),
    {
        let r = self.to_u32_g0();
        if r.is_some() {
            return r.unwrap();
        }
        let r = self.to_u32_g1();
        if r.is_some() {
            return r.unwrap();
        }
        let r = self.to_u32_g2();
        if r.is_some() {
            return r.unwrap();
        }
        let r = self.to_u32_g3();
        if r.is_some() {
            return r.unwrap();
        }
        let r = self.to_u32_g4();
        if r.is_some() {
            return r.unwrap();
        }
        let r = self.to_u32_g5();
        if r.is_some() {
            return r.unwrap();
        }
        let r = self.to_u32_g6();
        if r.is_some() {
            return r.unwrap();
        }
        0
    }

    /// The symbol a raw value names, or `None` for any other value:
    /// an unknown value is never an error, the caller keeps the raw
    /// value itself.
    pub fn from_u32(raw: u32) -> (r: Option<WinErrorWindows>)
        ensures
            r == WinErrorWindows::spec_from_u32(raw),
    {
        let r = Self::from_u32_g0(raw);
        if r.is_some() {
            return r;
        }
        let r = Self::from_u32_g1(raw);
        if r.is_some() {
            return r;
        }
        let r = Self::from_u32_g2(raw);
        if r.is_some() {
            return r;
        }
        let r = Self::from_u32_g3(raw);
        if r.is_some() {
            return r;
        }
        let r = Self::from_u32_g4(raw);
        if r.is_some() {
            return r;
        }
        let r = Self::from_u32_g5(raw);
        if r.is_some() {
            return r;
        }
        let r = Self::from_u32_g6(raw);
        if r.is_some() {
            return r;
        }
        None
    }
}
} // verus!
