//! Windows NT status codes usable as exception codes.
//!
//! Every enumeration here maps raw integer codes to named symbols and back.
//! Unknown raw values are legal throughout the format, so `from_*` returns
//! `None` for them rather than an error, and the caller keeps the raw value;
//! `to_*` gives the raw value a symbol re-encodes to.

use vstd::prelude::*;

verus! {

/// Values of an exception record's `exception_code` field drawn from the
/// NT status table.
///
/// The same raw value can mean different things to different producer
/// ecosystems for the same field, so the caller disambiguates by context
/// (which field, which platform) rather than assuming one universal
/// mapping; this table is the NT-status reading.
#[derive(Copy, Clone, PartialEq, Eq, Structural, Debug)]
pub enum NtStatusWindows {
    STATUS_OBJECT_NAME_EXISTS,
    STATUS_THREAD_WAS_SUSPENDED,
    STATUS_WORKING_SET_LIMIT_RANGE,
    STATUS_IMAGE_NOT_AT_BASE,
    STATUS_RXACT_STATE_CREATED,
    STATUS_SEGMENT_NOTIFICATION,
    STATUS_LOCAL_USER_SESSION_KEY,
    STATUS_BAD_CURRENT_DIRECTORY,
    STATUS_SERIAL_MORE_WRITES,
    STATUS_REGISTRY_RECOVERED,
    STATUS_FT_READ_RECOVERY_FROM_BACKUP,
    STATUS_FT_WRITE_RECOVERY,
    STATUS_SERIAL_COUNTER_TIMEOUT,
    STATUS_NULL_LM_PASSWORD,
    STATUS_IMAGE_MACHINE_TYPE_MISMATCH,
    STATUS_RECEIVE_PARTIAL,
    STATUS_RECEIVE_EXPEDITED,
    STATUS_RECEIVE_PARTIAL_EXPEDITED,
    STATUS_EVENT_DONE,
    STATUS_EVENT_PENDING,
    STATUS_CHECKING_FILE_SYSTEM,
    STATUS_FATAL_APP_EXIT,
    STATUS_PREDEFINED_HANDLE,
    STATUS_WAS_UNLOCKED,
    STATUS_SERVICE_NOTIFICATION,
    STATUS_WAS_LOCKED,
    STATUS_LOG_HARD_ERROR,
    STATUS_ALREADY_WIN32,
    STATUS_WX86_UNSIMULATE,
    STATUS_WX86_CONTINUE,
    STATUS_WX86_SINGLE_STEP,
    STATUS_WX86_BREAKPOINT,
    STATUS_WX86_EXCEPTION_CONTINUE,
    STATUS_WX86_EXCEPTION_LASTCHANCE,
    STATUS_WX86_EXCEPTION_CHAIN,
    STATUS_IMAGE_MACHINE_TYPE_MISMATCH_EXE,
    STATUS_NO_YIELD_PERFORMED,
    STATUS_TIMER_RESUME_IGNORED,
    STATUS_ARBITRATION_UNHANDLED,
    STATUS_CARDBUS_NOT_SUPPORTED,
    STATUS_WX86_CREATEWX86TIB,
    STATUS_MP_PROCESSOR_MISMATCH,
    STATUS_HIBERNATED,
    STATUS_RESUME_HIBERNATION,
    STATUS_FIRMWARE_UPDATED,
    STATUS_DRIVERS_LEAKING_LOCKED_PAGES,
    STATUS_MESSAGE_RETRIEVED,
    STATUS_SYSTEM_POWERSTATE_TRANSITION,
    STATUS_ALPC_CHECK_COMPLETION_LIST,
    STATUS_SYSTEM_POWERSTATE_COMPLEX_TRANSITION,
    STATUS_ACCESS_AUDIT_BY_POLICY,
    STATUS_ABANDON_HIBERFILE,
    STATUS_BIZRULES_NOT_ENABLED,
    STATUS_FT_READ_FROM_COPY,
    STATUS_IMAGE_AT_DIFFERENT_BASE,
    STATUS_PATCH_DEFERRED,
    STATUS_WAKE_SYSTEM,
    STATUS_DS_SHUTTING_DOWN,
    STATUS_DISK_REPAIR_REDIRECTED,
    STATUS_SERVICES_FAILED_AUTOSTART,
    DBG_REPLY_LATER,
    DBG_UNABLE_TO_PROVIDE_HANDLE,
    DBG_TERMINATE_THREAD,
    DBG_TERMINATE_PROCESS,
    DBG_CONTROL_C,
    DBG_PRINTEXCEPTION_C,
    DBG_RIPEXCEPTION,
    DBG_CONTROL_BREAK,
    DBG_COMMAND_EXCEPTION,
    DBG_PRINTEXCEPTION_WIDE_C,
    RPC_NT_UUID_LOCAL_ONLY,
    RPC_NT_SEND_INCOMPLETE,
    STATUS_CTX_CDM_CONNECT,
    STATUS_CTX_CDM_DISCONNECT,
    STATUS_SXS_RELEASE_ACTIVATION_CONTEXT,
    STATUS_HEURISTIC_DAMAGE_POSSIBLE,
    STATUS_RECOVERY_NOT_NEEDED,
    STATUS_RM_ALREADY_STARTED,
    STATUS_LOG_NO_RESTART,
    STATUS_VIDEO_DRIVER_DEBUG_REPORT_REQUEST,
    STATUS_GRAPHICS_PARTIAL_DATA_POPULATED,
    STATUS_GRAPHICS_SKIP_ALLOCATION_PREPARATION,
    STATUS_GRAPHICS_MODE_NOT_PINNED,
    STATUS_GRAPHICS_NO_PREFERRED_MODE,
    STATUS_GRAPHICS_DATASET_IS_EMPTY,
    STATUS_GRAPHICS_NO_MORE_ELEMENTS_IN_DATASET,
    STATUS_GRAPHICS_PATH_CONTENT_GEOMETRY_TRANSFORMATION_NOT_PINNED,
    STATUS_GRAPHICS_UNKNOWN_CHILD_STATUS,
    STATUS_GRAPHICS_LEADLINK_START_DEFERRED,
    STATUS_GRAPHICS_POLLING_TOO_FREQUENTLY,
    STATUS_GRAPHICS_START_DEFERRED,
    STATUS_GRAPHICS_DEPENDABLE_CHILD_STATUS,
    STATUS_NDIS_INDICATION_REQUIRED,
    STATUS_PCP_UNSUPPORTED_PSS_SALT,
    STATUS_GUARD_PAGE_VIOLATION,
    STATUS_DATATYPE_MISALIGNMENT,
    STATUS_BREAKPOINT,
    STATUS_SINGLE_STEP,
    STATUS_BUFFER_OVERFLOW,
    STATUS_NO_MORE_FILES,
    STATUS_WAKE_SYSTEM_DEBUGGER,
    STATUS_HANDLES_CLOSED,
    STATUS_NO_INHERITANCE,
    STATUS_GUID_SUBSTITUTION_MADE,
    STATUS_PARTIAL_COPY,
    STATUS_DEVICE_PAPER_EMPTY,
    STATUS_DEVICE_POWERED_OFF,
    STATUS_DEVICE_OFF_LINE,
    STATUS_DEVICE_BUSY,
    STATUS_NO_MORE_EAS,
    STATUS_INVALID_EA_NAME,
    STATUS_EA_LIST_INCONSISTENT,
    STATUS_INVALID_EA_FLAG,
    STATUS_VERIFY_REQUIRED,
    STATUS_EXTRANEOUS_INFORMATION,
    STATUS_RXACT_COMMIT_NECESSARY,
    STATUS_NO_MORE_ENTRIES,
    STATUS_FILEMARK_DETECTED,
    STATUS_MEDIA_CHANGED,
    STATUS_BUS_RESET,
    STATUS_END_OF_MEDIA,
    STATUS_BEGINNING_OF_MEDIA,
    STATUS_MEDIA_CHECK,
    STATUS_SETMARK_DETECTED,
    STATUS_NO_DATA_DETECTED,
    STATUS_REDIRECTOR_HAS_OPEN_HANDLES,
    STATUS_SERVER_HAS_OPEN_HANDLES,
    STATUS_ALREADY_DISCONNECTED,
    STATUS_LONGJUMP,
    STATUS_CLEANER_CARTRIDGE_INSTALLED,
    STATUS_PLUGPLAY_QUERY_VETOED,
    STATUS_UNWIND_CONSOLIDATE,
    STATUS_REGISTRY_HIVE_RECOVERED,
    STATUS_DLL_MIGHT_BE_INSECURE,
    STATUS_DLL_MIGHT_BE_INCOMPATIBLE,
    STATUS_STOPPED_ON_SYMLINK,
    STATUS_CANNOT_GRANT_REQUESTED_OPLOCK,
    STATUS_NO_ACE_CONDITION,
    STATUS_DEVICE_SUPPORT_IN_PROGRESS,
    STATUS_DEVICE_POWER_CYCLE_REQUIRED,
    STATUS_NO_WORK_DONE,
    STATUS_RETURN_ADDRESS_HIJACK_ATTEMPT,
    STATUS_DEVICE_REQUIRES_CLEANING,
    STATUS_DEVICE_DOOR_OPEN,
    STATUS_DATA_LOST_REPAIR,
    STATUS_GPIO_INTERRUPT_ALREADY_UNMASKED,
    STATUS_CLOUD_FILE_PROPERTY_BLOB_CHECKSUM_MISMATCH,
    STATUS_CLOUD_FILE_PROPERTY_BLOB_TOO_LARGE,
    STATUS_CLOUD_FILE_TOO_MANY_PROPERTY_BLOBS,
    DBG_EXCEPTION_NOT_HANDLED,
    STATUS_CLUSTER_NODE_ALREADY_UP,
    STATUS_CLUSTER_NODE_ALREADY_DOWN,
    STATUS_CLUSTER_NETWORK_ALREADY_ONLINE,
    STATUS_CLUSTER_NETWORK_ALREADY_OFFLINE,
    STATUS_CLUSTER_NODE_ALREADY_MEMBER,
    STATUS_COULD_NOT_RESIZE_LOG,
    STATUS_NO_TXF_METADATA,
    STATUS_CANT_RECOVER_WITH_HANDLE_OPEN,
    STATUS_TXF_METADATA_ALREADY_PRESENT,
    STATUS_TRANSACTION_SCOPE_CALLBACKS_NOT_SET,
    STATUS_VIDEO_HUNG_DISPLAY_DRIVER_THREAD_RECOVERED,
    STATUS_FLT_BUFFER_TOO_SMALL,
    STATUS_FVE_PARTIAL_METADATA,
    STATUS_FVE_TRANSIENT_STATE,
    STATUS_VID_REMOTE_NODE_PARENT_GPA_PAGES_USED,
    STATUS_VOLMGR_INCOMPLETE_REGENERATION,
    STATUS_VOLMGR_INCOMPLETE_DISK_MIGRATION,
    STATUS_BCD_NOT_ALL_ENTRIES_IMPORTED,
    STATUS_BCD_NOT_ALL_ENTRIES_SYNCHRONIZED,
    STATUS_QUERY_STORAGE_ERROR,
    STATUS_GDI_HANDLE_LEAK,
    STATUS_SECUREBOOT_NOT_ENABLED,
    STATUS_UNSUCCESSFUL,
    STATUS_NOT_IMPLEMENTED,
    STATUS_INVALID_INFO_CLASS,
    STATUS_INFO_LENGTH_MISMATCH,
    STATUS_ACCESS_VIOLATION,
    STATUS_IN_PAGE_ERROR,
    STATUS_PAGEFILE_QUOTA,
    STATUS_INVALID_HANDLE,
    STATUS_BAD_INITIAL_STACK,
    STATUS_BAD_INITIAL_PC,
    STATUS_INVALID_CID,
    STATUS_TIMER_NOT_CANCELED,
    STATUS_INVALID_PARAMETER,
    STATUS_NO_SUCH_DEVICE,
    STATUS_NO_SUCH_FILE,
    STATUS_INVALID_DEVICE_REQUEST,
    STATUS_END_OF_FILE,
    STATUS_WRONG_VOLUME,
    STATUS_NO_MEDIA_IN_DEVICE,
    STATUS_UNRECOGNIZED_MEDIA,
    STATUS_NONEXISTENT_SECTOR,
    STATUS_MORE_PROCESSING_REQUIRED,
    STATUS_NO_MEMORY,
    STATUS_CONFLICTING_ADDRESSES,
    STATUS_NOT_MAPPED_VIEW,
    STATUS_UNABLE_TO_FREE_VM,
    STATUS_UNABLE_TO_DELETE_SECTION,
    STATUS_INVALID_SYSTEM_SERVICE,
    STATUS_ILLEGAL_INSTRUCTION,
    STATUS_INVALID_LOCK_SEQUENCE,
    STATUS_INVALID_VIEW_SIZE,
    STATUS_INVALID_FILE_FOR_SECTION,
    STATUS_ALREADY_COMMITTED,
    STATUS_ACCESS_DENIED,
    STATUS_BUFFER_TOO_SMALL,
    STATUS_OBJECT_TYPE_MISMATCH,
    STATUS_NONCONTINUABLE_EXCEPTION,
    STATUS_INVALID_DISPOSITION,
    STATUS_UNWIND,
    STATUS_BAD_STACK,
    STATUS_INVALID_UNWIND_TARGET,
    STATUS_NOT_LOCKED,
    STATUS_PARITY_ERROR,
    STATUS_UNABLE_TO_DECOMMIT_VM,
    STATUS_NOT_COMMITTED,
    STATUS_INVALID_PORT_ATTRIBUTES,
    STATUS_PORT_MESSAGE_TOO_LONG,
    STATUS_INVALID_PARAMETER_MIX,
    STATUS_INVALID_QUOTA_LOWER,
    STATUS_DISK_CORRUPT_ERROR,
    STATUS_OBJECT_NAME_INVALID,
    STATUS_OBJECT_NAME_NOT_FOUND,
    STATUS_OBJECT_NAME_COLLISION,
    STATUS_PORT_DO_NOT_DISTURB,
    STATUS_PORT_DISCONNECTED,
    STATUS_DEVICE_ALREADY_ATTACHED,
    STATUS_OBJECT_PATH_INVALID,
    STATUS_OBJECT_PATH_NOT_FOUND,
    STATUS_OBJECT_PATH_SYNTAX_BAD,
    STATUS_DATA_OVERRUN,
    STATUS_DATA_LATE_ERROR,
    STATUS_DATA_ERROR,
    STATUS_CRC_ERROR,
    STATUS_SECTION_TOO_BIG,
    STATUS_PORT_CONNECTION_REFUSED,
    STATUS_INVALID_PORT_HANDLE,
    STATUS_SHARING_VIOLATION,
    STATUS_QUOTA_EXCEEDED,
    STATUS_INVALID_PAGE_PROTECTION,
    STATUS_MUTANT_NOT_OWNED,
    STATUS_SEMAPHORE_LIMIT_EXCEEDED,
    STATUS_PORT_ALREADY_SET,
    STATUS_SECTION_NOT_IMAGE,
    STATUS_SUSPEND_COUNT_EXCEEDED,
    STATUS_THREAD_IS_TERMINATING,
    STATUS_BAD_WORKING_SET_LIMIT,
    STATUS_INCOMPATIBLE_FILE_MAP,
    STATUS_SECTION_PROTECTION,
    STATUS_EAS_NOT_SUPPORTED,
    STATUS_EA_TOO_LARGE,
    STATUS_NONEXISTENT_EA_ENTRY,
    STATUS_NO_EAS_ON_FILE,
    STATUS_EA_CORRUPT_ERROR,
    STATUS_FILE_LOCK_CONFLICT,
    STATUS_LOCK_NOT_GRANTED,
    STATUS_DELETE_PENDING,
    STATUS_CTL_FILE_NOT_SUPPORTED,
    STATUS_UNKNOWN_REVISION,
    STATUS_REVISION_MISMATCH,
    STATUS_INVALID_OWNER,
    STATUS_INVALID_PRIMARY_GROUP,
    STATUS_NO_IMPERSONATION_TOKEN,
    STATUS_CANT_DISABLE_MANDATORY,
    STATUS_NO_LOGON_SERVERS,
    STATUS_NO_SUCH_LOGON_SESSION,
    STATUS_NO_SUCH_PRIVILEGE,
    STATUS_PRIVILEGE_NOT_HELD,
    STATUS_INVALID_ACCOUNT_NAME,
    STATUS_USER_EXISTS,
    STATUS_NO_SUCH_USER,
    STATUS_GROUP_EXISTS,
    STATUS_NO_SUCH_GROUP,
    STATUS_MEMBER_IN_GROUP,
    STATUS_MEMBER_NOT_IN_GROUP,
    STATUS_LAST_ADMIN,
    STATUS_WRONG_PASSWORD,
    STATUS_ILL_FORMED_PASSWORD,
    STATUS_PASSWORD_RESTRICTION,
    STATUS_LOGON_FAILURE,
    STATUS_ACCOUNT_RESTRICTION,
    STATUS_INVALID_LOGON_HOURS,
    STATUS_INVALID_WORKSTATION,
    STATUS_PASSWORD_EXPIRED,
    STATUS_ACCOUNT_DISABLED,
    STATUS_NONE_MAPPED,
    STATUS_TOO_MANY_LUIDS_REQUESTED,
    STATUS_LUIDS_EXHAUSTED,
    STATUS_INVALID_SUB_AUTHORITY,
    STATUS_INVALID_ACL,
    STATUS_INVALID_SID,
    STATUS_INVALID_SECURITY_DESCR,
    STATUS_PROCEDURE_NOT_FOUND,
    STATUS_INVALID_IMAGE_FORMAT,
    STATUS_NO_TOKEN,
    STATUS_BAD_INHERITANCE_ACL,
    STATUS_RANGE_NOT_LOCKED,
    STATUS_DISK_FULL,
    STATUS_SERVER_DISABLED,
    STATUS_SERVER_NOT_DISABLED,
    STATUS_TOO_MANY_GUIDS_REQUESTED,
    STATUS_GUIDS_EXHAUSTED,
    STATUS_INVALID_ID_AUTHORITY,
    STATUS_AGENTS_EXHAUSTED,
    STATUS_INVALID_VOLUME_LABEL,
    STATUS_SECTION_NOT_EXTENDED,
    STATUS_NOT_MAPPED_DATA,
    STATUS_RESOURCE_DATA_NOT_FOUND,
    STATUS_RESOURCE_TYPE_NOT_FOUND,
    STATUS_RESOURCE_NAME_NOT_FOUND,
    STATUS_ARRAY_BOUNDS_EXCEEDED,
    STATUS_FLOAT_DENORMAL_OPERAND,
    STATUS_FLOAT_DIVIDE_BY_ZERO,
    STATUS_FLOAT_INEXACT_RESULT,
    STATUS_FLOAT_INVALID_OPERATION,
    STATUS_FLOAT_OVERFLOW,
    STATUS_FLOAT_STACK_CHECK,
    STATUS_FLOAT_UNDERFLOW,
    STATUS_INTEGER_DIVIDE_BY_ZERO,
    STATUS_INTEGER_OVERFLOW,
    STATUS_PRIVILEGED_INSTRUCTION,
    STATUS_TOO_MANY_PAGING_FILES,
    STATUS_FILE_INVALID,
    STATUS_ALLOTTED_SPACE_EXCEEDED,
    STATUS_INSUFFICIENT_RESOURCES,
    STATUS_DFS_EXIT_PATH_FOUND,
    STATUS_DEVICE_DATA_ERROR,
    STATUS_DEVICE_NOT_CONNECTED,
    STATUS_DEVICE_POWER_FAILURE,
    STATUS_FREE_VM_NOT_AT_BASE,
    STATUS_MEMORY_NOT_ALLOCATED,
    STATUS_WORKING_SET_QUOTA,
    STATUS_MEDIA_WRITE_PROTECTED,
    STATUS_DEVICE_NOT_READY,
    STATUS_INVALID_GROUP_ATTRIBUTES,
    STATUS_BAD_IMPERSONATION_LEVEL,
    STATUS_CANT_OPEN_ANONYMOUS,
    STATUS_BAD_VALIDATION_CLASS,
    STATUS_BAD_TOKEN_TYPE,
    STATUS_BAD_MASTER_BOOT_RECORD,
    STATUS_INSTRUCTION_MISALIGNMENT,
    STATUS_INSTANCE_NOT_AVAILABLE,
    STATUS_PIPE_NOT_AVAILABLE,
    STATUS_INVALID_PIPE_STATE,
    STATUS_PIPE_BUSY,
    STATUS_ILLEGAL_FUNCTION,
    STATUS_PIPE_DISCONNECTED,
    STATUS_PIPE_CLOSING,
    STATUS_PIPE_CONNECTED,
    STATUS_PIPE_LISTENING,
    STATUS_INVALID_READ_MODE,
    STATUS_IO_TIMEOUT,
    STATUS_FILE_FORCED_CLOSED,
    STATUS_PROFILING_NOT_STARTED,
    STATUS_PROFILING_NOT_STOPPED,
    STATUS_COULD_NOT_INTERPRET,
    STATUS_FILE_IS_A_DIRECTORY,
    STATUS_NOT_SUPPORTED,
    STATUS_REMOTE_NOT_LISTENING,
    STATUS_DUPLICATE_NAME,
    STATUS_BAD_NETWORK_PATH,
    STATUS_NETWORK_BUSY,
    STATUS_DEVICE_DOES_NOT_EXIST,
    STATUS_TOO_MANY_COMMANDS,
    STATUS_ADAPTER_HARDWARE_ERROR,
    STATUS_INVALID_NETWORK_RESPONSE,
    STATUS_UNEXPECTED_NETWORK_ERROR,
    STATUS_BAD_REMOTE_ADAPTER,
    STATUS_PRINT_QUEUE_FULL,
    STATUS_NO_SPOOL_SPACE,
    STATUS_PRINT_CANCELLED,
    STATUS_NETWORK_NAME_DELETED,
    STATUS_NETWORK_ACCESS_DENIED,
    STATUS_BAD_DEVICE_TYPE,
    STATUS_BAD_NETWORK_NAME,
    STATUS_TOO_MANY_NAMES,
    STATUS_TOO_MANY_SESSIONS,
    STATUS_SHARING_PAUSED,
    STATUS_REQUEST_NOT_ACCEPTED,
    STATUS_REDIRECTOR_PAUSED,
    STATUS_NET_WRITE_FAULT,
    STATUS_PROFILING_AT_LIMIT,
    STATUS_NOT_SAME_DEVICE,
    STATUS_FILE_RENAMED,
    STATUS_VIRTUAL_CIRCUIT_CLOSED,
    STATUS_NO_SECURITY_ON_OBJECT,
    STATUS_CANT_WAIT,
    STATUS_PIPE_EMPTY,
    STATUS_CANT_ACCESS_DOMAIN_INFO,
    STATUS_CANT_TERMINATE_SELF,
    STATUS_INVALID_SERVER_STATE,
    STATUS_INVALID_DOMAIN_STATE,
    STATUS_INVALID_DOMAIN_ROLE,
    STATUS_NO_SUCH_DOMAIN,
    STATUS_DOMAIN_EXISTS,
    STATUS_DOMAIN_LIMIT_EXCEEDED,
    STATUS_OPLOCK_NOT_GRANTED,
    STATUS_INVALID_OPLOCK_PROTOCOL,
    STATUS_INTERNAL_DB_CORRUPTION,
    STATUS_INTERNAL_ERROR,
    STATUS_GENERIC_NOT_MAPPED,
    STATUS_BAD_DESCRIPTOR_FORMAT,
    STATUS_INVALID_USER_BUFFER,
    STATUS_UNEXPECTED_IO_ERROR,
    STATUS_UNEXPECTED_MM_CREATE_ERR,
    STATUS_UNEXPECTED_MM_MAP_ERROR,
    STATUS_UNEXPECTED_MM_EXTEND_ERR,
    STATUS_NOT_LOGON_PROCESS,
    STATUS_LOGON_SESSION_EXISTS,
    STATUS_INVALID_PARAMETER_1,
    STATUS_INVALID_PARAMETER_2,
    STATUS_INVALID_PARAMETER_3,
    STATUS_INVALID_PARAMETER_4,
    STATUS_INVALID_PARAMETER_5,
    STATUS_INVALID_PARAMETER_6,
    STATUS_INVALID_PARAMETER_7,
    STATUS_INVALID_PARAMETER_8,
    STATUS_INVALID_PARAMETER_9,
    STATUS_INVALID_PARAMETER_10,
    STATUS_INVALID_PARAMETER_11,
    STATUS_INVALID_PARAMETER_12,
    STATUS_REDIRECTOR_NOT_STARTED,
    STATUS_REDIRECTOR_STARTED,
    STATUS_STACK_OVERFLOW,
    STATUS_NO_SUCH_PACKAGE,
    STATUS_BAD_FUNCTION_TABLE,
    STATUS_VARIABLE_NOT_FOUND,
    STATUS_DIRECTORY_NOT_EMPTY,
    STATUS_FILE_CORRUPT_ERROR,
    STATUS_NOT_A_DIRECTORY,
    STATUS_BAD_LOGON_SESSION_STATE,
    STATUS_LOGON_SESSION_COLLISION,
    STATUS_NAME_TOO_LONG,
    STATUS_FILES_OPEN,
    STATUS_CONNECTION_IN_USE,
    STATUS_MESSAGE_NOT_FOUND,
    STATUS_PROCESS_IS_TERMINATING,
    STATUS_INVALID_LOGON_TYPE,
    STATUS_NO_GUID_TRANSLATION,
    STATUS_CANNOT_IMPERSONATE,
    STATUS_IMAGE_ALREADY_LOADED,
    STATUS_ABIOS_NOT_PRESENT,
    STATUS_ABIOS_LID_NOT_EXIST,
    STATUS_ABIOS_LID_ALREADY_OWNED,
    STATUS_ABIOS_NOT_LID_OWNER,
    STATUS_ABIOS_INVALID_COMMAND,
    STATUS_ABIOS_INVALID_LID,
    STATUS_ABIOS_SELECTOR_NOT_AVAILABLE,
    STATUS_ABIOS_INVALID_SELECTOR,
    STATUS_NO_LDT,
    STATUS_INVALID_LDT_SIZE,
    STATUS_INVALID_LDT_OFFSET,
    STATUS_INVALID_LDT_DESCRIPTOR,
    STATUS_INVALID_IMAGE_NE_FORMAT,
    STATUS_RXACT_INVALID_STATE,
    STATUS_RXACT_COMMIT_FAILURE,
    STATUS_MAPPED_FILE_SIZE_ZERO,
    STATUS_TOO_MANY_OPENED_FILES,
    STATUS_CANCELLED,
    STATUS_CANNOT_DELETE,
    STATUS_INVALID_COMPUTER_NAME,
    STATUS_FILE_DELETED,
    STATUS_SPECIAL_ACCOUNT,
    STATUS_SPECIAL_GROUP,
    STATUS_SPECIAL_USER,
    STATUS_MEMBERS_PRIMARY_GROUP,
    STATUS_FILE_CLOSED,
    STATUS_TOO_MANY_THREADS,
    STATUS_THREAD_NOT_IN_PROCESS,
    STATUS_TOKEN_ALREADY_IN_USE,
    STATUS_PAGEFILE_QUOTA_EXCEEDED,
    STATUS_COMMITMENT_LIMIT,
    STATUS_INVALID_IMAGE_LE_FORMAT,
    STATUS_INVALID_IMAGE_NOT_MZ,
    STATUS_INVALID_IMAGE_PROTECT,
    STATUS_INVALID_IMAGE_WIN_16,
    STATUS_LOGON_SERVER_CONFLICT,
    STATUS_TIME_DIFFERENCE_AT_DC,
    STATUS_SYNCHRONIZATION_REQUIRED,
    STATUS_DLL_NOT_FOUND,
    STATUS_OPEN_FAILED,
    STATUS_IO_PRIVILEGE_FAILED,
    STATUS_ORDINAL_NOT_FOUND,
    STATUS_ENTRYPOINT_NOT_FOUND,
    STATUS_CONTROL_C_EXIT,
    STATUS_LOCAL_DISCONNECT,
    STATUS_REMOTE_DISCONNECT,
    STATUS_REMOTE_RESOURCES,
    STATUS_LINK_FAILED,
    STATUS_LINK_TIMEOUT,
    STATUS_INVALID_CONNECTION,
    STATUS_INVALID_ADDRESS,
    STATUS_DLL_INIT_FAILED,
    STATUS_MISSING_SYSTEMFILE,
    STATUS_UNHANDLED_EXCEPTION,
    STATUS_APP_INIT_FAILURE,
    STATUS_PAGEFILE_CREATE_FAILED,
    STATUS_NO_PAGEFILE,
    STATUS_INVALID_LEVEL,
    STATUS_WRONG_PASSWORD_CORE,
    STATUS_ILLEGAL_FLOAT_CONTEXT,
    STATUS_PIPE_BROKEN,
    STATUS_REGISTRY_CORRUPT,
    STATUS_REGISTRY_IO_FAILED,
    STATUS_NO_EVENT_PAIR,
    STATUS_UNRECOGNIZED_VOLUME,
    STATUS_SERIAL_NO_DEVICE_INITED,
    STATUS_NO_SUCH_ALIAS,
    STATUS_MEMBER_NOT_IN_ALIAS,
    STATUS_MEMBER_IN_ALIAS,
    STATUS_ALIAS_EXISTS,
    STATUS_LOGON_NOT_GRANTED,
    STATUS_TOO_MANY_SECRETS,
    STATUS_SECRET_TOO_LONG,
    STATUS_INTERNAL_DB_ERROR,
    STATUS_FULLSCREEN_MODE,
    STATUS_TOO_MANY_CONTEXT_IDS,
    STATUS_LOGON_TYPE_NOT_GRANTED,
    STATUS_NOT_REGISTRY_FILE,
    STATUS_NT_CROSS_ENCRYPTION_REQUIRED,
    STATUS_DOMAIN_CTRLR_CONFIG_ERROR,
    STATUS_FT_MISSING_MEMBER,
    STATUS_ILL_FORMED_SERVICE_ENTRY,
    STATUS_ILLEGAL_CHARACTER,
    STATUS_UNMAPPABLE_CHARACTER,
    STATUS_UNDEFINED_CHARACTER,
    STATUS_FLOPPY_VOLUME,
    STATUS_FLOPPY_ID_MARK_NOT_FOUND,
    STATUS_FLOPPY_WRONG_CYLINDER,
    STATUS_FLOPPY_UNKNOWN_ERROR,
    STATUS_FLOPPY_BAD_REGISTERS,
    STATUS_DISK_RECALIBRATE_FAILED,
    STATUS_DISK_OPERATION_FAILED,
    STATUS_DISK_RESET_FAILED,
    STATUS_SHARED_IRQ_BUSY,
    STATUS_FT_ORPHANING,
    STATUS_BIOS_FAILED_TO_CONNECT_INTERRUPT,
    STATUS_PARTITION_FAILURE,
    STATUS_INVALID_BLOCK_LENGTH,
    STATUS_DEVICE_NOT_PARTITIONED,
    STATUS_UNABLE_TO_LOCK_MEDIA,
    STATUS_UNABLE_TO_UNLOAD_MEDIA,
    STATUS_EOM_OVERFLOW,
    STATUS_NO_MEDIA,
    STATUS_NO_SUCH_MEMBER,
    STATUS_INVALID_MEMBER,
    STATUS_KEY_DELETED,
    STATUS_NO_LOG_SPACE,
    STATUS_TOO_MANY_SIDS,
    STATUS_LM_CROSS_ENCRYPTION_REQUIRED,
    STATUS_KEY_HAS_CHILDREN,
    STATUS_CHILD_MUST_BE_VOLATILE,
    STATUS_DEVICE_CONFIGURATION_ERROR,
    STATUS_DRIVER_INTERNAL_ERROR,
    STATUS_INVALID_DEVICE_STATE,
    STATUS_IO_DEVICE_ERROR,
    STATUS_DEVICE_PROTOCOL_ERROR,
    STATUS_BACKUP_CONTROLLER,
    STATUS_LOG_FILE_FULL,
    STATUS_TOO_LATE,
    STATUS_NO_TRUST_LSA_SECRET,
    STATUS_NO_TRUST_SAM_ACCOUNT,
    STATUS_TRUSTED_DOMAIN_FAILURE,
    STATUS_TRUSTED_RELATIONSHIP_FAILURE,
    STATUS_EVENTLOG_FILE_CORRUPT,
    STATUS_EVENTLOG_CANT_START,
    STATUS_TRUST_FAILURE,
    STATUS_MUTANT_LIMIT_EXCEEDED,
    STATUS_NETLOGON_NOT_STARTED,
    STATUS_ACCOUNT_EXPIRED,
    STATUS_POSSIBLE_DEADLOCK,
    STATUS_NETWORK_CREDENTIAL_CONFLICT,
    STATUS_REMOTE_SESSION_LIMIT,
    STATUS_EVENTLOG_FILE_CHANGED,
    STATUS_NOLOGON_INTERDOMAIN_TRUST_ACCOUNT,
    STATUS_NOLOGON_WORKSTATION_TRUST_ACCOUNT,
    STATUS_NOLOGON_SERVER_TRUST_ACCOUNT,
    STATUS_DOMAIN_TRUST_INCONSISTENT,
    STATUS_FS_DRIVER_REQUIRED,
    STATUS_IMAGE_ALREADY_LOADED_AS_DLL,
    STATUS_INCOMPATIBLE_WITH_GLOBAL_SHORT_NAME_REGISTRY_SETTING,
    STATUS_SHORT_NAMES_NOT_ENABLED_ON_VOLUME,
    STATUS_SECURITY_STREAM_IS_INCONSISTENT,
    STATUS_INVALID_LOCK_RANGE,
    STATUS_INVALID_ACE_CONDITION,
    STATUS_IMAGE_SUBSYSTEM_NOT_PRESENT,
    STATUS_NOTIFICATION_GUID_ALREADY_DEFINED,
    STATUS_INVALID_EXCEPTION_HANDLER,
    STATUS_DUPLICATE_PRIVILEGES,
    STATUS_NOT_ALLOWED_ON_SYSTEM_FILE,
    STATUS_REPAIR_NEEDED,
    STATUS_QUOTA_NOT_ENABLED,
    STATUS_NO_APPLICATION_PACKAGE,
    STATUS_FILE_METADATA_OPTIMIZATION_IN_PROGRESS,
    STATUS_NOT_SAME_OBJECT,
    STATUS_FATAL_MEMORY_EXHAUSTION,
    STATUS_ERROR_PROCESS_NOT_IN_JOB,
    STATUS_CPU_SET_INVALID,
    STATUS_IO_DEVICE_INVALID_DATA,
    STATUS_IO_UNALIGNED_WRITE,
    STATUS_CONTROL_STACK_VIOLATION,
    STATUS_NETWORK_OPEN_RESTRICTION,
    STATUS_NO_USER_SESSION_KEY,
    STATUS_USER_SESSION_DELETED,
    STATUS_RESOURCE_LANG_NOT_FOUND,
    STATUS_INSUFF_SERVER_RESOURCES,
    STATUS_INVALID_BUFFER_SIZE,
    STATUS_INVALID_ADDRESS_COMPONENT,
    STATUS_INVALID_ADDRESS_WILDCARD,
    STATUS_TOO_MANY_ADDRESSES,
    STATUS_ADDRESS_ALREADY_EXISTS,
    STATUS_ADDRESS_CLOSED,
    STATUS_CONNECTION_DISCONNECTED,
    STATUS_CONNECTION_RESET,
    STATUS_TOO_MANY_NODES,
    STATUS_TRANSACTION_ABORTED,
    STATUS_TRANSACTION_TIMED_OUT,
    STATUS_TRANSACTION_NO_RELEASE,
    STATUS_TRANSACTION_NO_MATCH,
    STATUS_TRANSACTION_RESPONDED,
    STATUS_TRANSACTION_INVALID_ID,
    STATUS_TRANSACTION_INVALID_TYPE,
    STATUS_NOT_SERVER_SESSION,
    STATUS_NOT_CLIENT_SESSION,
    STATUS_CANNOT_LOAD_REGISTRY_FILE,
    STATUS_DEBUG_ATTACH_FAILED,
    STATUS_SYSTEM_PROCESS_TERMINATED,
    STATUS_DATA_NOT_ACCEPTED,
    STATUS_NO_BROWSER_SERVERS_FOUND,
    STATUS_VDM_HARD_ERROR,
    STATUS_DRIVER_CANCEL_TIMEOUT,
    STATUS_REPLY_MESSAGE_MISMATCH,
    STATUS_MAPPED_ALIGNMENT,
    STATUS_IMAGE_CHECKSUM_MISMATCH,
    STATUS_LOST_WRITEBEHIND_DATA,
    STATUS_CLIENT_SERVER_PARAMETERS_INVALID,
    STATUS_PASSWORD_MUST_CHANGE,
    STATUS_NOT_FOUND,
    STATUS_NOT_TINY_STREAM,
    STATUS_RECOVERY_FAILURE,
    STATUS_STACK_OVERFLOW_READ,
    STATUS_FAIL_CHECK,
    STATUS_DUPLICATE_OBJECTID,
    STATUS_OBJECTID_EXISTS,
    STATUS_CONVERT_TO_LARGE,
    STATUS_RETRY,
    STATUS_FOUND_OUT_OF_SCOPE,
    STATUS_ALLOCATE_BUCKET,
    STATUS_PROPSET_NOT_FOUND,
    STATUS_MARSHALL_OVERFLOW,
    STATUS_INVALID_VARIANT,
    STATUS_DOMAIN_CONTROLLER_NOT_FOUND,
    STATUS_ACCOUNT_LOCKED_OUT,
    STATUS_HANDLE_NOT_CLOSABLE,
    STATUS_CONNECTION_REFUSED,
    STATUS_GRACEFUL_DISCONNECT,
    STATUS_ADDRESS_ALREADY_ASSOCIATED,
    STATUS_ADDRESS_NOT_ASSOCIATED,
    STATUS_CONNECTION_INVALID,
    STATUS_CONNECTION_ACTIVE,
    STATUS_NETWORK_UNREACHABLE,
    STATUS_HOST_UNREACHABLE,
    STATUS_PROTOCOL_UNREACHABLE,
    STATUS_PORT_UNREACHABLE,
    STATUS_REQUEST_ABORTED,
    STATUS_CONNECTION_ABORTED,
    STATUS_BAD_COMPRESSION_BUFFER,
    STATUS_USER_MAPPED_FILE,
    STATUS_AUDIT_FAILED,
    STATUS_TIMER_RESOLUTION_NOT_SET,
    STATUS_CONNECTION_COUNT_LIMIT,
    STATUS_LOGIN_TIME_RESTRICTION,
    STATUS_LOGIN_WKSTA_RESTRICTION,
    STATUS_IMAGE_MP_UP_MISMATCH,
    STATUS_INSUFFICIENT_LOGON_INFO,
    STATUS_BAD_DLL_ENTRYPOINT,
    STATUS_BAD_SERVICE_ENTRYPOINT,
    STATUS_LPC_REPLY_LOST,
    STATUS_IP_ADDRESS_CONFLICT1,
    STATUS_IP_ADDRESS_CONFLICT2,
    STATUS_REGISTRY_QUOTA_LIMIT,
    STATUS_PATH_NOT_COVERED,
    STATUS_NO_CALLBACK_ACTIVE,
    STATUS_LICENSE_QUOTA_EXCEEDED,
    STATUS_PWD_TOO_SHORT,
    STATUS_PWD_TOO_RECENT,
    STATUS_PWD_HISTORY_CONFLICT,
    STATUS_PLUGPLAY_NO_DEVICE,
    STATUS_UNSUPPORTED_COMPRESSION,
    STATUS_INVALID_HW_PROFILE,
    STATUS_INVALID_PLUGPLAY_DEVICE_PATH,
    STATUS_DRIVER_ORDINAL_NOT_FOUND,
    STATUS_DRIVER_ENTRYPOINT_NOT_FOUND,
    STATUS_RESOURCE_NOT_OWNED,
    STATUS_TOO_MANY_LINKS,
    STATUS_QUOTA_LIST_INCONSISTENT,
    STATUS_FILE_IS_OFFLINE,
    STATUS_EVALUATION_EXPIRATION,
    STATUS_ILLEGAL_DLL_RELOCATION,
    STATUS_LICENSE_VIOLATION,
    STATUS_DLL_INIT_FAILED_LOGOFF,
    STATUS_DRIVER_UNABLE_TO_LOAD,
    STATUS_DFS_UNAVAILABLE,
    STATUS_VOLUME_DISMOUNTED,
    STATUS_WX86_INTERNAL_ERROR,
    STATUS_WX86_FLOAT_STACK_CHECK,
    STATUS_VALIDATE_CONTINUE,
    STATUS_NO_MATCH,
    STATUS_NO_MORE_MATCHES,
    STATUS_NOT_A_REPARSE_POINT,
    STATUS_IO_REPARSE_TAG_INVALID,
    STATUS_IO_REPARSE_TAG_MISMATCH,
    STATUS_IO_REPARSE_DATA_INVALID,
    STATUS_IO_REPARSE_TAG_NOT_HANDLED,
    STATUS_PWD_TOO_LONG,
    STATUS_STOWED_EXCEPTION,
    STATUS_CONTEXT_STOWED_EXCEPTION,
    STATUS_REPARSE_POINT_NOT_RESOLVED,
    STATUS_DIRECTORY_IS_A_REPARSE_POINT,
    STATUS_RANGE_LIST_CONFLICT,
    STATUS_SOURCE_ELEMENT_EMPTY,
    STATUS_DESTINATION_ELEMENT_FULL,
    STATUS_ILLEGAL_ELEMENT_ADDRESS,
    STATUS_MAGAZINE_NOT_PRESENT,
    STATUS_REINITIALIZATION_NEEDED,
    STATUS_ENCRYPTION_FAILED,
    STATUS_DECRYPTION_FAILED,
    STATUS_RANGE_NOT_FOUND,
    STATUS_NO_RECOVERY_POLICY,
    STATUS_NO_EFS,
    STATUS_WRONG_EFS,
    STATUS_NO_USER_KEYS,
    STATUS_FILE_NOT_ENCRYPTED,
    STATUS_NOT_EXPORT_FORMAT,
    STATUS_FILE_ENCRYPTED,
    STATUS_WMI_GUID_NOT_FOUND,
    STATUS_WMI_INSTANCE_NOT_FOUND,
    STATUS_WMI_ITEMID_NOT_FOUND,
    STATUS_WMI_TRY_AGAIN,
    STATUS_SHARED_POLICY,
    STATUS_POLICY_OBJECT_NOT_FOUND,
    STATUS_POLICY_ONLY_IN_DS,
    STATUS_VOLUME_NOT_UPGRADED,
    STATUS_REMOTE_STORAGE_NOT_ACTIVE,
    STATUS_REMOTE_STORAGE_MEDIA_ERROR,
    STATUS_NO_TRACKING_SERVICE,
    STATUS_SERVER_SID_MISMATCH,
    STATUS_DS_NO_ATTRIBUTE_OR_VALUE,
    STATUS_DS_INVALID_ATTRIBUTE_SYNTAX,
    STATUS_DS_ATTRIBUTE_TYPE_UNDEFINED,
    STATUS_DS_ATTRIBUTE_OR_VALUE_EXISTS,
    STATUS_DS_BUSY,
    STATUS_DS_UNAVAILABLE,
    STATUS_DS_NO_RIDS_ALLOCATED,
    STATUS_DS_NO_MORE_RIDS,
    STATUS_DS_INCORRECT_ROLE_OWNER,
    STATUS_DS_RIDMGR_INIT_ERROR,
    STATUS_DS_OBJ_CLASS_VIOLATION,
    STATUS_DS_CANT_ON_NON_LEAF,
    STATUS_DS_CANT_ON_RDN,
    STATUS_DS_CANT_MOD_OBJ_CLASS,
    STATUS_DS_CROSS_DOM_MOVE_FAILED,
    STATUS_DS_GC_NOT_AVAILABLE,
    STATUS_DIRECTORY_SERVICE_REQUIRED,
    STATUS_REPARSE_ATTRIBUTE_CONFLICT,
    STATUS_CANT_ENABLE_DENY_ONLY,
    STATUS_FLOAT_MULTIPLE_FAULTS,
    STATUS_FLOAT_MULTIPLE_TRAPS,
    STATUS_DEVICE_REMOVED,
    STATUS_JOURNAL_DELETE_IN_PROGRESS,
    STATUS_JOURNAL_NOT_ACTIVE,
    STATUS_NOINTERFACE,
    STATUS_DS_RIDMGR_DISABLED,
    STATUS_DS_ADMIN_LIMIT_EXCEEDED,
    STATUS_DRIVER_FAILED_SLEEP,
    STATUS_MUTUAL_AUTHENTICATION_FAILED,
    STATUS_CORRUPT_SYSTEM_FILE,
    STATUS_DATATYPE_MISALIGNMENT_ERROR,
    STATUS_WMI_READ_ONLY,
    STATUS_WMI_SET_FAILURE,
    STATUS_COMMITMENT_MINIMUM,
    STATUS_REG_NAT_CONSUMPTION,
    STATUS_TRANSPORT_FULL,
    STATUS_DS_SAM_INIT_FAILURE,
    STATUS_ONLY_IF_CONNECTED,
    STATUS_DS_SENSITIVE_GROUP_VIOLATION,
    STATUS_PNP_RESTART_ENUMERATION,
    STATUS_JOURNAL_ENTRY_DELETED,
    STATUS_DS_CANT_MOD_PRIMARYGROUPID,
    STATUS_SYSTEM_IMAGE_BAD_SIGNATURE,
    STATUS_PNP_REBOOT_REQUIRED,
    STATUS_POWER_STATE_INVALID,
    STATUS_DS_INVALID_GROUP_TYPE,
    STATUS_DS_NO_NEST_GLOBALGROUP_IN_MIXEDDOMAIN,
    STATUS_DS_NO_NEST_LOCALGROUP_IN_MIXEDDOMAIN,
    STATUS_DS_GLOBAL_CANT_HAVE_LOCAL_MEMBER,
    STATUS_DS_GLOBAL_CANT_HAVE_UNIVERSAL_MEMBER,
    STATUS_DS_UNIVERSAL_CANT_HAVE_LOCAL_MEMBER,
    STATUS_DS_GLOBAL_CANT_HAVE_CROSSDOMAIN_MEMBER,
    STATUS_DS_LOCAL_CANT_HAVE_CROSSDOMAIN_LOCAL_MEMBER,
    STATUS_DS_HAVE_PRIMARY_MEMBERS,
    STATUS_WMI_NOT_SUPPORTED,
    STATUS_INSUFFICIENT_POWER,
    STATUS_SAM_NEED_BOOTKEY_PASSWORD,
    STATUS_SAM_NEED_BOOTKEY_FLOPPY,
    STATUS_DS_CANT_START,
    STATUS_DS_INIT_FAILURE,
    STATUS_SAM_INIT_FAILURE,
    STATUS_DS_GC_REQUIRED,
    STATUS_DS_LOCAL_MEMBER_OF_LOCAL_ONLY,
    STATUS_DS_NO_FPO_IN_UNIVERSAL_GROUPS,
    STATUS_DS_MACHINE_ACCOUNT_QUOTA_EXCEEDED,
    STATUS_MULTIPLE_FAULT_VIOLATION,
    STATUS_CURRENT_DOMAIN_NOT_ALLOWED,
    STATUS_CANNOT_MAKE,
    STATUS_SYSTEM_SHUTDOWN,
    STATUS_DS_INIT_FAILURE_CONSOLE,
    STATUS_DS_SAM_INIT_FAILURE_CONSOLE,
    STATUS_UNFINISHED_CONTEXT_DELETED,
    STATUS_NO_TGT_REPLY,
    STATUS_OBJECTID_NOT_FOUND,
    STATUS_NO_IP_ADDRESSES,
    STATUS_WRONG_CREDENTIAL_HANDLE,
    STATUS_CRYPTO_SYSTEM_INVALID,
    STATUS_MAX_REFERRALS_EXCEEDED,
    STATUS_MUST_BE_KDC,
    STATUS_STRONG_CRYPTO_NOT_SUPPORTED,
    STATUS_TOO_MANY_PRINCIPALS,
    STATUS_NO_PA_DATA,
    STATUS_PKINIT_NAME_MISMATCH,
    STATUS_SMARTCARD_LOGON_REQUIRED,
    STATUS_KDC_INVALID_REQUEST,
    STATUS_KDC_UNABLE_TO_REFER,
    STATUS_KDC_UNKNOWN_ETYPE,
    STATUS_SHUTDOWN_IN_PROGRESS,
    STATUS_SERVER_SHUTDOWN_IN_PROGRESS,
    STATUS_NOT_SUPPORTED_ON_SBS,
    STATUS_WMI_GUID_DISCONNECTED,
    STATUS_WMI_ALREADY_DISABLED,
    STATUS_WMI_ALREADY_ENABLED,
    STATUS_MFT_TOO_FRAGMENTED,
    STATUS_COPY_PROTECTION_FAILURE,
    STATUS_CSS_AUTHENTICATION_FAILURE,
    STATUS_CSS_KEY_NOT_PRESENT,
    STATUS_CSS_KEY_NOT_ESTABLISHED,
    STATUS_CSS_SCRAMBLED_SECTOR,
    STATUS_CSS_REGION_MISMATCH,
    STATUS_CSS_RESETS_EXHAUSTED,
    STATUS_PASSWORD_CHANGE_REQUIRED,
    STATUS_LOST_MODE_LOGON_RESTRICTION,
    STATUS_PKINIT_FAILURE,
    STATUS_SMARTCARD_SUBSYSTEM_FAILURE,
    STATUS_NO_KERB_KEY,
    STATUS_HOST_DOWN,
    STATUS_UNSUPPORTED_PREAUTH,
    STATUS_EFS_ALG_BLOB_TOO_BIG,
    STATUS_PORT_NOT_SET,
    STATUS_DEBUGGER_INACTIVE,
    STATUS_DS_VERSION_CHECK_FAILURE,
    STATUS_AUDITING_DISABLED,
    STATUS_PRENT4_MACHINE_ACCOUNT,
    STATUS_DS_AG_CANT_HAVE_UNIVERSAL_MEMBER,
    STATUS_INVALID_IMAGE_WIN_32,
    STATUS_INVALID_IMAGE_WIN_64,
    STATUS_BAD_BINDINGS,
    STATUS_NETWORK_SESSION_EXPIRED,
    STATUS_APPHELP_BLOCK,
    STATUS_ALL_SIDS_FILTERED,
    STATUS_NOT_SAFE_MODE_DRIVER,
    STATUS_ACCESS_DISABLED_BY_POLICY_DEFAULT,
    STATUS_ACCESS_DISABLED_BY_POLICY_PATH,
    STATUS_ACCESS_DISABLED_BY_POLICY_PUBLISHER,
    STATUS_ACCESS_DISABLED_BY_POLICY_OTHER,
    STATUS_FAILED_DRIVER_ENTRY,
    STATUS_DEVICE_ENUMERATION_ERROR,
    STATUS_MOUNT_POINT_NOT_RESOLVED,
    STATUS_INVALID_DEVICE_OBJECT_PARAMETER,
    STATUS_MCA_OCCURED,
    STATUS_DRIVER_BLOCKED_CRITICAL,
    STATUS_DRIVER_BLOCKED,
    STATUS_DRIVER_DATABASE_ERROR,
    STATUS_SYSTEM_HIVE_TOO_LARGE,
    STATUS_INVALID_IMPORT_OF_NON_DLL,
    STATUS_NO_SECRETS,
    STATUS_ACCESS_DISABLED_NO_SAFER_UI_BY_POLICY,
    STATUS_FAILED_STACK_SWITCH,
    STATUS_HEAP_CORRUPTION,
    STATUS_SMARTCARD_WRONG_PIN,
    STATUS_SMARTCARD_CARD_BLOCKED,
    STATUS_SMARTCARD_CARD_NOT_AUTHENTICATED,
    STATUS_SMARTCARD_NO_CARD,
    STATUS_SMARTCARD_NO_KEY_CONTAINER,
    STATUS_SMARTCARD_NO_CERTIFICATE,
    STATUS_SMARTCARD_NO_KEYSET,
    STATUS_SMARTCARD_IO_ERROR,
    STATUS_DOWNGRADE_DETECTED,
    STATUS_SMARTCARD_CERT_REVOKED,
    STATUS_ISSUING_CA_UNTRUSTED,
    STATUS_REVOCATION_OFFLINE_C,
    STATUS_PKINIT_CLIENT_FAILURE,
    STATUS_SMARTCARD_CERT_EXPIRED,
    STATUS_DRIVER_FAILED_PRIOR_UNLOAD,
    STATUS_SMARTCARD_SILENT_CONTEXT,
    STATUS_PER_USER_TRUST_QUOTA_EXCEEDED,
    STATUS_ALL_USER_TRUST_QUOTA_EXCEEDED,
    STATUS_USER_DELETE_TRUST_QUOTA_EXCEEDED,
    STATUS_DS_NAME_NOT_UNIQUE,
    STATUS_DS_DUPLICATE_ID_FOUND,
    STATUS_DS_GROUP_CONVERSION_ERROR,
    STATUS_VOLSNAP_PREPARE_HIBERNATE,
    STATUS_USER2USER_REQUIRED,
    STATUS_STACK_BUFFER_OVERRUN,
    STATUS_NO_S4U_PROT_SUPPORT,
    STATUS_CROSSREALM_DELEGATION_FAILURE,
    STATUS_REVOCATION_OFFLINE_KDC,
    STATUS_ISSUING_CA_UNTRUSTED_KDC,
    STATUS_KDC_CERT_EXPIRED,
    STATUS_KDC_CERT_REVOKED,
    STATUS_PARAMETER_QUOTA_EXCEEDED,
    STATUS_HIBERNATION_FAILURE,
    STATUS_DELAY_LOAD_FAILED,
    STATUS_AUTHENTICATION_FIREWALL_FAILED,
    STATUS_VDM_DISALLOWED,
    STATUS_HUNG_DISPLAY_DRIVER_THREAD,
    STATUS_INSUFFICIENT_RESOURCE_FOR_SPECIFIED_SHARED_SECTION_SIZE,
    STATUS_INVALID_CRUNTIME_PARAMETER,
    STATUS_NTLM_BLOCKED,
    STATUS_DS_SRC_SID_EXISTS_IN_FOREST,
    STATUS_DS_DOMAIN_NAME_EXISTS_IN_FOREST,
    STATUS_DS_FLAT_NAME_EXISTS_IN_FOREST,
    STATUS_INVALID_USER_PRINCIPAL_NAME,
    STATUS_FATAL_USER_CALLBACK_EXCEPTION,
    STATUS_ASSERTION_FAILURE,
    STATUS_VERIFIER_STOP,
    STATUS_CALLBACK_POP_STACK,
    STATUS_INCOMPATIBLE_DRIVER_BLOCKED,
    STATUS_HIVE_UNLOADED,
    STATUS_COMPRESSION_DISABLED,
    STATUS_FILE_SYSTEM_LIMITATION,
    STATUS_INVALID_IMAGE_HASH,
    STATUS_NOT_CAPABLE,
    STATUS_REQUEST_OUT_OF_SEQUENCE,
    STATUS_IMPLEMENTATION_LIMIT,
    STATUS_ELEVATION_REQUIRED,
    STATUS_NO_SECURITY_CONTEXT,
    STATUS_PKU2U_CERT_FAILURE,
    STATUS_BEYOND_VDL,
    STATUS_ENCOUNTERED_WRITE_IN_PROGRESS,
    STATUS_PTE_CHANGED,
    STATUS_PURGE_FAILED,
    STATUS_CRED_REQUIRES_CONFIRMATION,
    STATUS_CS_ENCRYPTION_INVALID_SERVER_RESPONSE,
    STATUS_CS_ENCRYPTION_UNSUPPORTED_SERVER,
    STATUS_CS_ENCRYPTION_EXISTING_ENCRYPTED_FILE,
    STATUS_CS_ENCRYPTION_NEW_ENCRYPTED_FILE,
    STATUS_CS_ENCRYPTION_FILE_NOT_CSE,
    STATUS_INVALID_LABEL,
    STATUS_DRIVER_PROCESS_TERMINATED,
    STATUS_AMBIGUOUS_SYSTEM_DEVICE,
    STATUS_SYSTEM_DEVICE_NOT_FOUND,
    STATUS_RESTART_BOOT_APPLICATION,
    STATUS_INSUFFICIENT_NVRAM_RESOURCES,
    STATUS_INVALID_SESSION,
    STATUS_THREAD_ALREADY_IN_SESSION,
    STATUS_THREAD_NOT_IN_SESSION,
    STATUS_INVALID_WEIGHT,
    STATUS_REQUEST_PAUSED,
    STATUS_NO_RANGES_PROCESSED,
    STATUS_DISK_RESOURCES_EXHAUSTED,
    STATUS_NEEDS_REMEDIATION,
    STATUS_DEVICE_FEATURE_NOT_SUPPORTED,
    STATUS_DEVICE_UNREACHABLE,
    STATUS_INVALID_TOKEN,
    STATUS_SERVER_UNAVAILABLE,
    STATUS_FILE_NOT_AVAILABLE,
    STATUS_DEVICE_INSUFFICIENT_RESOURCES,
    STATUS_PACKAGE_UPDATING,
    STATUS_NOT_READ_FROM_COPY,
    STATUS_FT_WRITE_FAILURE,
    STATUS_FT_DI_SCAN_REQUIRED,
    STATUS_OBJECT_NOT_EXTERNALLY_BACKED,
    STATUS_EXTERNAL_BACKING_PROVIDER_UNKNOWN,
    STATUS_COMPRESSION_NOT_BENEFICIAL,
    STATUS_DATA_CHECKSUM_ERROR,
    STATUS_INTERMIXED_KERNEL_EA_OPERATION,
    STATUS_TRIM_READ_ZERO_NOT_SUPPORTED,
    STATUS_TOO_MANY_SEGMENT_DESCRIPTORS,
    STATUS_INVALID_OFFSET_ALIGNMENT,
    STATUS_INVALID_FIELD_IN_PARAMETER_LIST,
    STATUS_OPERATION_IN_PROGRESS,
    STATUS_INVALID_INITIATOR_TARGET_PATH,
    STATUS_SCRUB_DATA_DISABLED,
    STATUS_NOT_REDUNDANT_STORAGE,
    STATUS_RESIDENT_FILE_NOT_SUPPORTED,
    STATUS_COMPRESSED_FILE_NOT_SUPPORTED,
    STATUS_DIRECTORY_NOT_SUPPORTED,
    STATUS_IO_OPERATION_TIMEOUT,
    STATUS_SYSTEM_NEEDS_REMEDIATION,
    STATUS_APPX_INTEGRITY_FAILURE_CLR_NGEN,
    STATUS_SHARE_UNAVAILABLE,
    STATUS_APISET_NOT_HOSTED,
    STATUS_APISET_NOT_PRESENT,
    STATUS_DEVICE_HARDWARE_ERROR,
    STATUS_FIRMWARE_SLOT_INVALID,
    STATUS_FIRMWARE_IMAGE_INVALID,
    STATUS_STORAGE_TOPOLOGY_ID_MISMATCH,
    STATUS_WIM_NOT_BOOTABLE,
    STATUS_BLOCKED_BY_PARENTAL_CONTROLS,
    STATUS_NEEDS_REGISTRATION,
    STATUS_QUOTA_ACTIVITY,
    STATUS_CALLBACK_INVOKE_INLINE,
    STATUS_BLOCK_TOO_MANY_REFERENCES,
    STATUS_MARKED_TO_DISALLOW_WRITES,
    STATUS_NETWORK_ACCESS_DENIED_EDP,
    STATUS_ENCLAVE_FAILURE,
    STATUS_PNP_NO_COMPAT_DRIVERS,
    STATUS_PNP_DRIVER_PACKAGE_NOT_FOUND,
    STATUS_PNP_DRIVER_CONFIGURATION_NOT_FOUND,
    STATUS_PNP_DRIVER_CONFIGURATION_INCOMPLETE,
    STATUS_PNP_FUNCTION_DRIVER_REQUIRED,
    STATUS_PNP_DEVICE_CONFIGURATION_PENDING,
    STATUS_DEVICE_HINT_NAME_BUFFER_TOO_SMALL,
    STATUS_PACKAGE_NOT_AVAILABLE,
    STATUS_DEVICE_IN_MAINTENANCE,
    STATUS_NOT_SUPPORTED_ON_DAX,
    STATUS_FREE_SPACE_TOO_FRAGMENTED,
    STATUS_DAX_MAPPING_EXISTS,
    STATUS_CHILD_PROCESS_BLOCKED,
    STATUS_STORAGE_LOST_DATA_PERSISTENCE,
    STATUS_VRF_CFG_AND_IO_ENABLED,
    STATUS_PARTITION_TERMINATING,
    STATUS_EXTERNAL_SYSKEY_NOT_SUPPORTED,
    STATUS_ENCLAVE_VIOLATION,
    STATUS_FILE_PROTECTED_UNDER_DPL,
    STATUS_VOLUME_NOT_CLUSTER_ALIGNED,
    STATUS_NO_PHYSICALLY_ALIGNED_FREE_SPACE_FOUND,
    STATUS_APPX_FILE_NOT_ENCRYPTED,
    STATUS_RWRAW_ENCRYPTED_FILE_NOT_ENCRYPTED,
    STATUS_RWRAW_ENCRYPTED_INVALID_EDATAINFO_FILEOFFSET,
    STATUS_RWRAW_ENCRYPTED_INVALID_EDATAINFO_FILERANGE,
    STATUS_RWRAW_ENCRYPTED_INVALID_EDATAINFO_PARAMETER,
    STATUS_FT_READ_FAILURE,
    STATUS_PATCH_CONFLICT,
    STATUS_STORAGE_RESERVE_ID_INVALID,
    STATUS_STORAGE_RESERVE_DOES_NOT_EXIST,
    STATUS_STORAGE_RESERVE_ALREADY_EXISTS,
    STATUS_STORAGE_RESERVE_NOT_EMPTY,
    STATUS_NOT_A_DAX_VOLUME,
    STATUS_NOT_DAX_MAPPABLE,
    STATUS_CASE_DIFFERING_NAMES_IN_DIR,
    STATUS_FILE_NOT_SUPPORTED,
    STATUS_NOT_SUPPORTED_WITH_BTT,
    STATUS_ENCRYPTION_DISABLED,
    STATUS_ENCRYPTING_METADATA_DISALLOWED,
    STATUS_CANT_CLEAR_ENCRYPTION_FLAG,
    STATUS_UNSATISFIED_DEPENDENCIES,
    STATUS_CASE_SENSITIVE_PATH,
    STATUS_HAS_SYSTEM_CRITICAL_FILES,
    STATUS_INVALID_TASK_NAME,
    STATUS_INVALID_TASK_INDEX,
    STATUS_THREAD_ALREADY_IN_TASK,
    STATUS_CALLBACK_BYPASS,
    STATUS_UNDEFINED_SCOPE,
    STATUS_INVALID_CAP,
    STATUS_NOT_GUI_PROCESS,
    STATUS_DEVICE_HUNG,
    STATUS_CONTAINER_ASSIGNED,
    STATUS_JOB_NO_CONTAINER,
    STATUS_DEVICE_UNRESPONSIVE,
    STATUS_REPARSE_POINT_ENCOUNTERED,
    STATUS_ATTRIBUTE_NOT_PRESENT,
    STATUS_NOT_A_TIERED_VOLUME,
    STATUS_ALREADY_HAS_STREAM_ID,
    STATUS_JOB_NOT_EMPTY,
    STATUS_ALREADY_INITIALIZED,
    STATUS_ENCLAVE_NOT_TERMINATED,
    STATUS_ENCLAVE_IS_TERMINATING,
    STATUS_SMB1_NOT_AVAILABLE,
    STATUS_SMR_GARBAGE_COLLECTION_REQUIRED,
    STATUS_INTERRUPTED,
    STATUS_THREAD_NOT_RUNNING,
    STATUS_FAIL_FAST_EXCEPTION,
    STATUS_IMAGE_CERT_REVOKED,
    STATUS_DYNAMIC_CODE_BLOCKED,
    STATUS_IMAGE_CERT_EXPIRED,
    STATUS_STRICT_CFG_VIOLATION,
    STATUS_SET_CONTEXT_DENIED,
    STATUS_CROSS_PARTITION_VIOLATION,
    STATUS_PORT_CLOSED,
    STATUS_MESSAGE_LOST,
    STATUS_INVALID_MESSAGE,
    STATUS_REQUEST_CANCELED,
    STATUS_RECURSIVE_DISPATCH,
    STATUS_LPC_RECEIVE_BUFFER_EXPECTED,
    STATUS_LPC_INVALID_CONNECTION_USAGE,
    STATUS_LPC_REQUESTS_NOT_ALLOWED,
    STATUS_RESOURCE_IN_USE,
    STATUS_HARDWARE_MEMORY_ERROR,
    STATUS_THREADPOOL_HANDLE_EXCEPTION,
    STATUS_THREADPOOL_SET_EVENT_ON_COMPLETION_FAILED,
    STATUS_THREADPOOL_RELEASE_SEMAPHORE_ON_COMPLETION_FAILED,
    STATUS_THREADPOOL_RELEASE_MUTEX_ON_COMPLETION_FAILED,
    STATUS_THREADPOOL_FREE_LIBRARY_ON_COMPLETION_FAILED,
    STATUS_THREADPOOL_RELEASED_DURING_OPERATION,
    STATUS_CALLBACK_RETURNED_WHILE_IMPERSONATING,
    STATUS_APC_RETURNED_WHILE_IMPERSONATING,
    STATUS_PROCESS_IS_PROTECTED,
    STATUS_MCA_EXCEPTION,
    STATUS_CERTIFICATE_MAPPING_NOT_UNIQUE,
    STATUS_SYMLINK_CLASS_DISABLED,
    STATUS_INVALID_IDN_NORMALIZATION,
    STATUS_NO_UNICODE_TRANSLATION,
    STATUS_ALREADY_REGISTERED,
    STATUS_CONTEXT_MISMATCH,
    STATUS_PORT_ALREADY_HAS_COMPLETION_LIST,
    STATUS_CALLBACK_RETURNED_THREAD_PRIORITY,
    STATUS_INVALID_THREAD,
    STATUS_CALLBACK_RETURNED_TRANSACTION,
    STATUS_CALLBACK_RETURNED_LDR_LOCK,
    STATUS_CALLBACK_RETURNED_LANG,
    STATUS_CALLBACK_RETURNED_PRI_BACK,
    STATUS_CALLBACK_RETURNED_THREAD_AFFINITY,
    STATUS_LPC_HANDLE_COUNT_EXCEEDED,
    STATUS_EXECUTABLE_MEMORY_WRITE,
    STATUS_KERNEL_EXECUTABLE_MEMORY_WRITE,
    STATUS_ATTACHED_EXECUTABLE_MEMORY_WRITE,
    STATUS_TRIGGERED_EXECUTABLE_MEMORY_WRITE,
    STATUS_DISK_REPAIR_DISABLED,
    STATUS_DS_DOMAIN_RENAME_IN_PROGRESS,
    STATUS_DISK_QUOTA_EXCEEDED,
    STATUS_CONTENT_BLOCKED,
    STATUS_BAD_CLUSTERS,
    STATUS_VOLUME_DIRTY,
    STATUS_DISK_REPAIR_UNSUCCESSFUL,
    STATUS_CORRUPT_LOG_OVERFULL,
    STATUS_CORRUPT_LOG_CORRUPTED,
    STATUS_CORRUPT_LOG_UNAVAILABLE,
    STATUS_CORRUPT_LOG_DELETED_FULL,
    STATUS_CORRUPT_LOG_CLEARED,
    STATUS_ORPHAN_NAME_EXHAUSTED,
    STATUS_PROACTIVE_SCAN_IN_PROGRESS,
    STATUS_ENCRYPTED_IO_NOT_POSSIBLE,
    STATUS_CORRUPT_LOG_UPLEVEL_RECORDS,
    STATUS_FILE_CHECKED_OUT,
    STATUS_CHECKOUT_REQUIRED,
    STATUS_BAD_FILE_TYPE,
    STATUS_FILE_TOO_LARGE,
    STATUS_FORMS_AUTH_REQUIRED,
    STATUS_VIRUS_INFECTED,
    STATUS_VIRUS_DELETED,
    STATUS_BAD_MCFG_TABLE,
    STATUS_CANNOT_BREAK_OPLOCK,
    STATUS_BAD_KEY,
    STATUS_BAD_DATA,
    STATUS_NO_KEY,
    STATUS_FILE_HANDLE_REVOKED,
    STATUS_WOW_ASSERTION,
    STATUS_INVALID_SIGNATURE,
    STATUS_HMAC_NOT_SUPPORTED,
    STATUS_AUTH_TAG_MISMATCH,
    STATUS_INVALID_STATE_TRANSITION,
    STATUS_INVALID_KERNEL_INFO_VERSION,
    STATUS_INVALID_PEP_INFO_VERSION,
    STATUS_HANDLE_REVOKED,
    STATUS_EOF_ON_GHOSTED_RANGE,
    STATUS_CC_NEEDS_CALLBACK_SECTION_DRAIN,
    STATUS_IPSEC_QUEUE_OVERFLOW,
    STATUS_ND_QUEUE_OVERFLOW,
    STATUS_HOPLIMIT_EXCEEDED,
    STATUS_PROTOCOL_NOT_SUPPORTED,
    STATUS_FASTPATH_REJECTED,
    STATUS_LOST_WRITEBEHIND_DATA_NETWORK_DISCONNECTED,
    STATUS_LOST_WRITEBEHIND_DATA_NETWORK_SERVER_ERROR,
    STATUS_LOST_WRITEBEHIND_DATA_LOCAL_DISK_ERROR,
    STATUS_XML_PARSE_ERROR,
    STATUS_XMLDSIG_ERROR,
    STATUS_WRONG_COMPARTMENT,
    STATUS_AUTHIP_FAILURE,
    STATUS_DS_OID_MAPPED_GROUP_CANT_HAVE_MEMBERS,
    STATUS_DS_OID_NOT_FOUND,
    STATUS_INCORRECT_ACCOUNT_TYPE,
    STATUS_HASH_NOT_SUPPORTED,
    STATUS_HASH_NOT_PRESENT,
    STATUS_SECONDARY_IC_PROVIDER_NOT_REGISTERED,
    STATUS_GPIO_CLIENT_INFORMATION_INVALID,
    STATUS_GPIO_VERSION_NOT_SUPPORTED,
    STATUS_GPIO_INVALID_REGISTRATION_PACKET,
    STATUS_GPIO_OPERATION_DENIED,
    STATUS_GPIO_INCOMPATIBLE_CONNECT_MODE,
    STATUS_CANNOT_SWITCH_RUNLEVEL,
    STATUS_INVALID_RUNLEVEL_SETTING,
    STATUS_RUNLEVEL_SWITCH_TIMEOUT,
    STATUS_RUNLEVEL_SWITCH_AGENT_TIMEOUT,
    STATUS_RUNLEVEL_SWITCH_IN_PROGRESS,
    STATUS_NOT_APPCONTAINER,
    STATUS_NOT_SUPPORTED_IN_APPCONTAINER,
    STATUS_INVALID_PACKAGE_SID_LENGTH,
    STATUS_LPAC_ACCESS_DENIED,
    STATUS_ADMINLESS_ACCESS_DENIED,
    STATUS_APP_DATA_NOT_FOUND,
    STATUS_APP_DATA_EXPIRED,
    STATUS_APP_DATA_CORRUPT,
    STATUS_APP_DATA_LIMIT_EXCEEDED,
    STATUS_APP_DATA_REBOOT_REQUIRED,
    STATUS_OFFLOAD_READ_FLT_NOT_SUPPORTED,
    STATUS_OFFLOAD_WRITE_FLT_NOT_SUPPORTED,
    STATUS_OFFLOAD_READ_FILE_NOT_SUPPORTED,
    STATUS_OFFLOAD_WRITE_FILE_NOT_SUPPORTED,
    STATUS_WOF_WIM_HEADER_CORRUPT,
    STATUS_WOF_WIM_RESOURCE_TABLE_CORRUPT,
    STATUS_WOF_FILE_RESOURCE_TABLE_CORRUPT,
    STATUS_CIMFS_IMAGE_CORRUPT,
    STATUS_FILE_SYSTEM_VIRTUALIZATION_UNAVAILABLE,
    STATUS_FILE_SYSTEM_VIRTUALIZATION_METADATA_CORRUPT,
    STATUS_FILE_SYSTEM_VIRTUALIZATION_BUSY,
    STATUS_FILE_SYSTEM_VIRTUALIZATION_PROVIDER_UNKNOWN,
    STATUS_FILE_SYSTEM_VIRTUALIZATION_INVALID_OPERATION,
    STATUS_CLOUD_FILE_SYNC_ROOT_METADATA_CORRUPT,
    STATUS_CLOUD_FILE_PROVIDER_NOT_RUNNING,
    STATUS_CLOUD_FILE_METADATA_CORRUPT,
    STATUS_CLOUD_FILE_METADATA_TOO_LARGE,
    STATUS_CLOUD_FILE_PROPERTY_VERSION_NOT_SUPPORTED,
    STATUS_NOT_A_CLOUD_FILE,
    STATUS_CLOUD_FILE_NOT_IN_SYNC,
    STATUS_CLOUD_FILE_ALREADY_CONNECTED,
    STATUS_CLOUD_FILE_NOT_SUPPORTED,
    STATUS_CLOUD_FILE_INVALID_REQUEST,
    STATUS_CLOUD_FILE_READ_ONLY_VOLUME,
    STATUS_CLOUD_FILE_CONNECTED_PROVIDER_ONLY,
    STATUS_CLOUD_FILE_VALIDATION_FAILED,
    STATUS_CLOUD_FILE_AUTHENTICATION_FAILED,
    STATUS_CLOUD_FILE_INSUFFICIENT_RESOURCES,
    STATUS_CLOUD_FILE_NETWORK_UNAVAILABLE,
    STATUS_CLOUD_FILE_UNSUCCESSFUL,
    STATUS_CLOUD_FILE_NOT_UNDER_SYNC_ROOT,
    STATUS_CLOUD_FILE_IN_USE,
    STATUS_CLOUD_FILE_PINNED,
    STATUS_CLOUD_FILE_REQUEST_ABORTED,
    STATUS_CLOUD_FILE_PROPERTY_CORRUPT,
    STATUS_CLOUD_FILE_ACCESS_DENIED,
    STATUS_CLOUD_FILE_INCOMPATIBLE_HARDLINKS,
    STATUS_CLOUD_FILE_PROPERTY_LOCK_CONFLICT,
    STATUS_CLOUD_FILE_REQUEST_CANCELED,
    STATUS_CLOUD_FILE_PROVIDER_TERMINATED,
    STATUS_NOT_A_CLOUD_SYNC_ROOT,
    STATUS_CLOUD_FILE_REQUEST_TIMEOUT,
    STATUS_CLOUD_FILE_DEHYDRATION_DISALLOWED,
    STATUS_FILE_SNAP_IN_PROGRESS,
    STATUS_FILE_SNAP_USER_SECTION_NOT_SUPPORTED,
    STATUS_FILE_SNAP_MODIFY_NOT_SUPPORTED,
    STATUS_FILE_SNAP_IO_NOT_COORDINATED,
    STATUS_FILE_SNAP_UNEXPECTED_ERROR,
    STATUS_FILE_SNAP_INVALID_PARAMETER,
    DBG_NO_STATE_CHANGE,
    DBG_APP_NOT_IDLE,
    RPC_NT_INVALID_STRING_BINDING,
    RPC_NT_WRONG_KIND_OF_BINDING,
    RPC_NT_INVALID_BINDING,
    RPC_NT_PROTSEQ_NOT_SUPPORTED,
    RPC_NT_INVALID_RPC_PROTSEQ,
    RPC_NT_INVALID_STRING_UUID,
    RPC_NT_INVALID_ENDPOINT_FORMAT,
    RPC_NT_INVALID_NET_ADDR,
    RPC_NT_NO_ENDPOINT_FOUND,
    RPC_NT_INVALID_TIMEOUT,
    RPC_NT_OBJECT_NOT_FOUND,
    RPC_NT_ALREADY_REGISTERED,
    RPC_NT_TYPE_ALREADY_REGISTERED,
    RPC_NT_ALREADY_LISTENING,
    RPC_NT_NO_PROTSEQS_REGISTERED,
    RPC_NT_NOT_LISTENING,
    RPC_NT_UNKNOWN_MGR_TYPE,
    RPC_NT_UNKNOWN_IF,
    RPC_NT_NO_BINDINGS,
    RPC_NT_NO_PROTSEQS,
    RPC_NT_CANT_CREATE_ENDPOINT,
    RPC_NT_OUT_OF_RESOURCES,
    RPC_NT_SERVER_UNAVAILABLE,
    RPC_NT_SERVER_TOO_BUSY,
    RPC_NT_INVALID_NETWORK_OPTIONS,
    RPC_NT_NO_CALL_ACTIVE,
    RPC_NT_CALL_FAILED,
    RPC_NT_CALL_FAILED_DNE,
    RPC_NT_PROTOCOL_ERROR,
    RPC_NT_UNSUPPORTED_TRANS_SYN,
    RPC_NT_UNSUPPORTED_TYPE,
    RPC_NT_INVALID_TAG,
    RPC_NT_INVALID_BOUND,
    RPC_NT_NO_ENTRY_NAME,
    RPC_NT_INVALID_NAME_SYNTAX,
    RPC_NT_UNSUPPORTED_NAME_SYNTAX,
    RPC_NT_UUID_NO_ADDRESS,
    RPC_NT_DUPLICATE_ENDPOINT,
    RPC_NT_UNKNOWN_AUTHN_TYPE,
    RPC_NT_MAX_CALLS_TOO_SMALL,
    RPC_NT_STRING_TOO_LONG,
    RPC_NT_PROTSEQ_NOT_FOUND,
    RPC_NT_PROCNUM_OUT_OF_RANGE,
    RPC_NT_BINDING_HAS_NO_AUTH,
    RPC_NT_UNKNOWN_AUTHN_SERVICE,
    RPC_NT_UNKNOWN_AUTHN_LEVEL,
    RPC_NT_INVALID_AUTH_IDENTITY,
    RPC_NT_UNKNOWN_AUTHZ_SERVICE,
    EPT_NT_INVALID_ENTRY,
    EPT_NT_CANT_PERFORM_OP,
    EPT_NT_NOT_REGISTERED,
    RPC_NT_NOTHING_TO_EXPORT,
    RPC_NT_INCOMPLETE_NAME,
    RPC_NT_INVALID_VERS_OPTION,
    RPC_NT_NO_MORE_MEMBERS,
    RPC_NT_NOT_ALL_OBJS_UNEXPORTED,
    RPC_NT_INTERFACE_NOT_FOUND,
    RPC_NT_ENTRY_ALREADY_EXISTS,
    RPC_NT_ENTRY_NOT_FOUND,
    RPC_NT_NAME_SERVICE_UNAVAILABLE,
    RPC_NT_INVALID_NAF_ID,
    RPC_NT_CANNOT_SUPPORT,
    RPC_NT_NO_CONTEXT_AVAILABLE,
    RPC_NT_INTERNAL_ERROR,
    RPC_NT_ZERO_DIVIDE,
    RPC_NT_ADDRESS_ERROR,
    RPC_NT_FP_DIV_ZERO,
    RPC_NT_FP_UNDERFLOW,
    RPC_NT_FP_OVERFLOW,
    RPC_NT_CALL_IN_PROGRESS,
    RPC_NT_NO_MORE_BINDINGS,
    RPC_NT_GROUP_MEMBER_NOT_FOUND,
    EPT_NT_CANT_CREATE,
    RPC_NT_INVALID_OBJECT,
    RPC_NT_NO_INTERFACES,
    RPC_NT_CALL_CANCELLED,
    RPC_NT_BINDING_INCOMPLETE,
    RPC_NT_COMM_FAILURE,
    RPC_NT_UNSUPPORTED_AUTHN_LEVEL,
    RPC_NT_NO_PRINC_NAME,
    RPC_NT_NOT_RPC_ERROR,
    RPC_NT_SEC_PKG_ERROR,
    RPC_NT_NOT_CANCELLED,
    RPC_NT_INVALID_ASYNC_HANDLE,
    RPC_NT_INVALID_ASYNC_CALL,
    RPC_NT_PROXY_ACCESS_DENIED,
    RPC_NT_COOKIE_AUTH_FAILED,
    RPC_NT_NO_MORE_ENTRIES,
    RPC_NT_SS_CHAR_TRANS_OPEN_FAIL,
    RPC_NT_SS_CHAR_TRANS_SHORT_FILE,
    RPC_NT_SS_IN_NULL_CONTEXT,
    RPC_NT_SS_CONTEXT_MISMATCH,
    RPC_NT_SS_CONTEXT_DAMAGED,
    RPC_NT_SS_HANDLES_MISMATCH,
    RPC_NT_SS_CANNOT_GET_CALL_HANDLE,
    RPC_NT_NULL_REF_POINTER,
    RPC_NT_ENUM_VALUE_OUT_OF_RANGE,
    RPC_NT_BYTE_COUNT_TOO_SMALL,
    RPC_NT_BAD_STUB_DATA,
    RPC_NT_INVALID_ES_ACTION,
    RPC_NT_WRONG_ES_VERSION,
    RPC_NT_WRONG_STUB_VERSION,
    RPC_NT_INVALID_PIPE_OBJECT,
    RPC_NT_INVALID_PIPE_OPERATION,
    RPC_NT_WRONG_PIPE_VERSION,
    RPC_NT_PIPE_CLOSED,
    RPC_NT_PIPE_DISCIPLINE_ERROR,
    RPC_NT_PIPE_EMPTY,
    STATUS_PNP_BAD_MPS_TABLE,
    STATUS_PNP_TRANSLATION_FAILED,
    STATUS_PNP_IRQ_TRANSLATION_FAILED,
    STATUS_PNP_INVALID_ID,
    STATUS_IO_REISSUE_AS_CACHED,
    STATUS_CTX_WINSTATION_NAME_INVALID,
    STATUS_CTX_INVALID_PD,
    STATUS_CTX_PD_NOT_FOUND,
    STATUS_CTX_CLOSE_PENDING,
    STATUS_CTX_NO_OUTBUF,
    STATUS_CTX_MODEM_INF_NOT_FOUND,
    STATUS_CTX_INVALID_MODEMNAME,
    STATUS_CTX_RESPONSE_ERROR,
    STATUS_CTX_MODEM_RESPONSE_TIMEOUT,
    STATUS_CTX_MODEM_RESPONSE_NO_CARRIER,
    STATUS_CTX_MODEM_RESPONSE_NO_DIALTONE,
    STATUS_CTX_MODEM_RESPONSE_BUSY,
    STATUS_CTX_MODEM_RESPONSE_VOICE,
    STATUS_CTX_TD_ERROR,
    STATUS_CTX_LICENSE_CLIENT_INVALID,
    STATUS_CTX_LICENSE_NOT_AVAILABLE,
    STATUS_CTX_LICENSE_EXPIRED,
    STATUS_CTX_WINSTATION_NOT_FOUND,
    STATUS_CTX_WINSTATION_NAME_COLLISION,
    STATUS_CTX_WINSTATION_BUSY,
    STATUS_CTX_BAD_VIDEO_MODE,
    STATUS_CTX_GRAPHICS_INVALID,
    STATUS_CTX_NOT_CONSOLE,
    STATUS_CTX_CLIENT_QUERY_TIMEOUT,
    STATUS_CTX_CONSOLE_DISCONNECT,
    STATUS_CTX_CONSOLE_CONNECT,
    STATUS_CTX_SHADOW_DENIED,
    STATUS_CTX_WINSTATION_ACCESS_DENIED,
    STATUS_CTX_INVALID_WD,
    STATUS_CTX_WD_NOT_FOUND,
    STATUS_CTX_SHADOW_INVALID,
    STATUS_CTX_SHADOW_DISABLED,
    STATUS_RDP_PROTOCOL_ERROR,
    STATUS_CTX_CLIENT_LICENSE_NOT_SET,
    STATUS_CTX_CLIENT_LICENSE_IN_USE,
    STATUS_CTX_SHADOW_ENDED_BY_MODE_CHANGE,
    STATUS_CTX_SHADOW_NOT_RUNNING,
    STATUS_CTX_LOGON_DISABLED,
    STATUS_CTX_SECURITY_LAYER_ERROR,
    STATUS_TS_INCOMPATIBLE_SESSIONS,
    STATUS_TS_VIDEO_SUBSYSTEM_ERROR,
    STATUS_MUI_FILE_NOT_FOUND,
    STATUS_MUI_INVALID_FILE,
    STATUS_MUI_INVALID_RC_CONFIG,
    STATUS_MUI_INVALID_LOCALE_NAME,
    STATUS_MUI_INVALID_ULTIMATEFALLBACK_NAME,
    STATUS_MUI_FILE_NOT_LOADED,
    STATUS_RESOURCE_ENUM_USER_STOP,
    STATUS_CLUSTER_INVALID_NODE,
    STATUS_CLUSTER_NODE_EXISTS,
    STATUS_CLUSTER_JOIN_IN_PROGRESS,
    STATUS_CLUSTER_NODE_NOT_FOUND,
    STATUS_CLUSTER_LOCAL_NODE_NOT_FOUND,
    STATUS_CLUSTER_NETWORK_EXISTS,
    STATUS_CLUSTER_NETWORK_NOT_FOUND,
    STATUS_CLUSTER_NETINTERFACE_EXISTS,
    STATUS_CLUSTER_NETINTERFACE_NOT_FOUND,
    STATUS_CLUSTER_INVALID_REQUEST,
    STATUS_CLUSTER_INVALID_NETWORK_PROVIDER,
    STATUS_CLUSTER_NODE_DOWN,
    STATUS_CLUSTER_NODE_UNREACHABLE,
    STATUS_CLUSTER_NODE_NOT_MEMBER,
    STATUS_CLUSTER_JOIN_NOT_IN_PROGRESS,
    STATUS_CLUSTER_INVALID_NETWORK,
    STATUS_CLUSTER_NO_NET_ADAPTERS,
    STATUS_CLUSTER_NODE_UP,
    STATUS_CLUSTER_NODE_PAUSED,
    STATUS_CLUSTER_NODE_NOT_PAUSED,
    STATUS_CLUSTER_NO_SECURITY_CONTEXT,
    STATUS_CLUSTER_NETWORK_NOT_INTERNAL,
    STATUS_CLUSTER_POISONED,
    STATUS_CLUSTER_NON_CSV_PATH,
    STATUS_CLUSTER_CSV_VOLUME_NOT_LOCAL,
    STATUS_CLUSTER_CSV_READ_OPLOCK_BREAK_IN_PROGRESS,
    STATUS_CLUSTER_CSV_AUTO_PAUSE_ERROR,
    STATUS_CLUSTER_CSV_REDIRECTED,
    STATUS_CLUSTER_CSV_NOT_REDIRECTED,
    STATUS_CLUSTER_CSV_VOLUME_DRAINING,
    STATUS_CLUSTER_CSV_SNAPSHOT_CREATION_IN_PROGRESS,
    STATUS_CLUSTER_CSV_VOLUME_DRAINING_SUCCEEDED_DOWNLEVEL,
    STATUS_CLUSTER_CSV_NO_SNAPSHOTS,
    STATUS_CSV_IO_PAUSE_TIMEOUT,
    STATUS_CLUSTER_CSV_INVALID_HANDLE,
    STATUS_CLUSTER_CSV_SUPPORTED_ONLY_ON_COORDINATOR,
    STATUS_CLUSTER_CAM_TICKET_REPLAY_DETECTED,
    STATUS_ACPI_INVALID_OPCODE,
    STATUS_ACPI_STACK_OVERFLOW,
    STATUS_ACPI_ASSERT_FAILED,
    STATUS_ACPI_INVALID_INDEX,
    STATUS_ACPI_INVALID_ARGUMENT,
    STATUS_ACPI_FATAL,
    STATUS_ACPI_INVALID_SUPERNAME,
    STATUS_ACPI_INVALID_ARGTYPE,
    STATUS_ACPI_INVALID_OBJTYPE,
    STATUS_ACPI_INVALID_TARGETTYPE,
    STATUS_ACPI_INCORRECT_ARGUMENT_COUNT,
    STATUS_ACPI_ADDRESS_NOT_MAPPED,
    STATUS_ACPI_INVALID_EVENTTYPE,
    STATUS_ACPI_HANDLER_COLLISION,
    STATUS_ACPI_INVALID_DATA,
    STATUS_ACPI_INVALID_REGION,
    STATUS_ACPI_INVALID_ACCESS_SIZE,
    STATUS_ACPI_ACQUIRE_GLOBAL_LOCK,
    STATUS_ACPI_ALREADY_INITIALIZED,
    STATUS_ACPI_NOT_INITIALIZED,
    STATUS_ACPI_INVALID_MUTEX_LEVEL,
    STATUS_ACPI_MUTEX_NOT_OWNED,
    STATUS_ACPI_MUTEX_NOT_OWNER,
    STATUS_ACPI_RS_ACCESS,
    STATUS_ACPI_INVALID_TABLE,
    STATUS_ACPI_REG_HANDLER_FAILED,
    STATUS_ACPI_POWER_REQUEST_FAILED,
    STATUS_SXS_SECTION_NOT_FOUND,
    STATUS_SXS_CANT_GEN_ACTCTX,
    STATUS_SXS_INVALID_ACTCTXDATA_FORMAT,
    STATUS_SXS_ASSEMBLY_NOT_FOUND,
    STATUS_SXS_MANIFEST_FORMAT_ERROR,
    STATUS_SXS_MANIFEST_PARSE_ERROR,
    STATUS_SXS_ACTIVATION_CONTEXT_DISABLED,
    STATUS_SXS_KEY_NOT_FOUND,
    STATUS_SXS_VERSION_CONFLICT,
    STATUS_SXS_WRONG_SECTION_TYPE,
    STATUS_SXS_THREAD_QUERIES_DISABLED,
    STATUS_SXS_ASSEMBLY_MISSING,
    STATUS_SXS_PROCESS_DEFAULT_ALREADY_SET,
    STATUS_SXS_EARLY_DEACTIVATION,
    STATUS_SXS_INVALID_DEACTIVATION,
    STATUS_SXS_MULTIPLE_DEACTIVATION,
    STATUS_SXS_SYSTEM_DEFAULT_ACTIVATION_CONTEXT_EMPTY,
    STATUS_SXS_PROCESS_TERMINATION_REQUESTED,
    STATUS_SXS_CORRUPT_ACTIVATION_STACK,
    STATUS_SXS_CORRUPTION,
    STATUS_SXS_INVALID_IDENTITY_ATTRIBUTE_VALUE,
    STATUS_SXS_INVALID_IDENTITY_ATTRIBUTE_NAME,
    STATUS_SXS_IDENTITY_DUPLICATE_ATTRIBUTE,
    STATUS_SXS_IDENTITY_PARSE_ERROR,
    STATUS_SXS_COMPONENT_STORE_CORRUPT,
    STATUS_SXS_FILE_HASH_MISMATCH,
    STATUS_SXS_MANIFEST_IDENTITY_SAME_BUT_CONTENTS_DIFFERENT,
    STATUS_SXS_IDENTITIES_DIFFERENT,
    STATUS_SXS_ASSEMBLY_IS_NOT_A_DEPLOYMENT,
    STATUS_SXS_FILE_NOT_PART_OF_ASSEMBLY,
    STATUS_ADVANCED_INSTALLER_FAILED,
    STATUS_XML_ENCODING_MISMATCH,
    STATUS_SXS_MANIFEST_TOO_BIG,
    STATUS_SXS_SETTING_NOT_REGISTERED,
    STATUS_SXS_TRANSACTION_CLOSURE_INCOMPLETE,
    STATUS_SMI_PRIMITIVE_INSTALLER_FAILED,
    STATUS_GENERIC_COMMAND_FAILED,
    STATUS_SXS_FILE_HASH_MISSING,
    STATUS_TRANSACTIONAL_CONFLICT,
    STATUS_INVALID_TRANSACTION,
    STATUS_TRANSACTION_NOT_ACTIVE,
    STATUS_TM_INITIALIZATION_FAILED,
    STATUS_RM_NOT_ACTIVE,
    STATUS_RM_METADATA_CORRUPT,
    STATUS_TRANSACTION_NOT_JOINED,
    STATUS_DIRECTORY_NOT_RM,
    STATUS_TRANSACTIONS_UNSUPPORTED_REMOTE,
    STATUS_LOG_RESIZE_INVALID_SIZE,
    STATUS_REMOTE_FILE_VERSION_MISMATCH,
    STATUS_CRM_PROTOCOL_ALREADY_EXISTS,
    STATUS_TRANSACTION_PROPAGATION_FAILED,
    STATUS_CRM_PROTOCOL_NOT_FOUND,
    STATUS_TRANSACTION_SUPERIOR_EXISTS,
    STATUS_TRANSACTION_REQUEST_NOT_VALID,
    STATUS_TRANSACTION_NOT_REQUESTED,
    STATUS_TRANSACTION_ALREADY_ABORTED,
    STATUS_TRANSACTION_ALREADY_COMMITTED,
    STATUS_TRANSACTION_INVALID_MARSHALL_BUFFER,
    STATUS_CURRENT_TRANSACTION_NOT_VALID,
    STATUS_LOG_GROWTH_FAILED,
    STATUS_OBJECT_NO_LONGER_EXISTS,
    STATUS_STREAM_MINIVERSION_NOT_FOUND,
    STATUS_STREAM_MINIVERSION_NOT_VALID,
    STATUS_MINIVERSION_INACCESSIBLE_FROM_SPECIFIED_TRANSACTION,
    STATUS_CANT_OPEN_MINIVERSION_WITH_MODIFY_INTENT,
    STATUS_CANT_CREATE_MORE_STREAM_MINIVERSIONS,
    STATUS_HANDLE_NO_LONGER_VALID,
    STATUS_LOG_CORRUPTION_DETECTED,
    STATUS_RM_DISCONNECTED,
    STATUS_ENLISTMENT_NOT_SUPERIOR,
    STATUS_FILE_IDENTITY_NOT_PERSISTENT,
    STATUS_CANT_BREAK_TRANSACTIONAL_DEPENDENCY,
    STATUS_CANT_CROSS_RM_BOUNDARY,
    STATUS_TXF_DIR_NOT_EMPTY,
    STATUS_INDOUBT_TRANSACTIONS_EXIST,
    STATUS_TM_VOLATILE,
    STATUS_ROLLBACK_TIMER_EXPIRED,
    STATUS_TXF_ATTRIBUTE_CORRUPT,
    STATUS_EFS_NOT_ALLOWED_IN_TRANSACTION,
    STATUS_TRANSACTIONAL_OPEN_NOT_ALLOWED,
    STATUS_TRANSACTED_MAPPING_UNSUPPORTED_REMOTE,
    STATUS_TRANSACTION_REQUIRED_PROMOTION,
    STATUS_CANNOT_EXECUTE_FILE_IN_TRANSACTION,
    STATUS_TRANSACTIONS_NOT_FROZEN,
    STATUS_TRANSACTION_FREEZE_IN_PROGRESS,
    STATUS_NOT_SNAPSHOT_VOLUME,
    STATUS_NO_SAVEPOINT_WITH_OPEN_FILES,
    STATUS_SPARSE_NOT_ALLOWED_IN_TRANSACTION,
    STATUS_TM_IDENTITY_MISMATCH,
    STATUS_FLOATED_SECTION,
    STATUS_CANNOT_ACCEPT_TRANSACTED_WORK,
    STATUS_CANNOT_ABORT_TRANSACTIONS,
    STATUS_TRANSACTION_NOT_FOUND,
    STATUS_RESOURCEMANAGER_NOT_FOUND,
    STATUS_ENLISTMENT_NOT_FOUND,
    STATUS_TRANSACTIONMANAGER_NOT_FOUND,
    STATUS_TRANSACTIONMANAGER_NOT_ONLINE,
    STATUS_TRANSACTIONMANAGER_RECOVERY_NAME_COLLISION,
    STATUS_TRANSACTION_NOT_ROOT,
    STATUS_TRANSACTION_OBJECT_EXPIRED,
    STATUS_COMPRESSION_NOT_ALLOWED_IN_TRANSACTION,
    STATUS_TRANSACTION_RESPONSE_NOT_ENLISTED,
    STATUS_TRANSACTION_RECORD_TOO_LONG,
    STATUS_NO_LINK_TRACKING_IN_TRANSACTION,
    STATUS_OPERATION_NOT_SUPPORTED_IN_TRANSACTION,
    STATUS_TRANSACTION_INTEGRITY_VIOLATED,
    STATUS_TRANSACTIONMANAGER_IDENTITY_MISMATCH,
    STATUS_RM_CANNOT_BE_FROZEN_FOR_SNAPSHOT,
    STATUS_TRANSACTION_MUST_WRITETHROUGH,
    STATUS_TRANSACTION_NO_SUPERIOR,
    STATUS_EXPIRED_HANDLE,
    STATUS_TRANSACTION_NOT_ENLISTED,
    STATUS_LOG_SECTOR_INVALID,
    STATUS_LOG_SECTOR_PARITY_INVALID,
    STATUS_LOG_SECTOR_REMAPPED,
    STATUS_LOG_BLOCK_INCOMPLETE,
    STATUS_LOG_INVALID_RANGE,
    STATUS_LOG_BLOCKS_EXHAUSTED,
    STATUS_LOG_READ_CONTEXT_INVALID,
    STATUS_LOG_RESTART_INVALID,
    STATUS_LOG_BLOCK_VERSION,
    STATUS_LOG_BLOCK_INVALID,
    STATUS_LOG_READ_MODE_INVALID,
    STATUS_LOG_METADATA_CORRUPT,
    STATUS_LOG_METADATA_INVALID,
    STATUS_LOG_METADATA_INCONSISTENT,
    STATUS_LOG_RESERVATION_INVALID,
    STATUS_LOG_CANT_DELETE,
    STATUS_LOG_CONTAINER_LIMIT_EXCEEDED,
    STATUS_LOG_START_OF_LOG,
    STATUS_LOG_POLICY_ALREADY_INSTALLED,
    STATUS_LOG_POLICY_NOT_INSTALLED,
    STATUS_LOG_POLICY_INVALID,
    STATUS_LOG_POLICY_CONFLICT,
    STATUS_LOG_PINNED_ARCHIVE_TAIL,
    STATUS_LOG_RECORD_NONEXISTENT,
    STATUS_LOG_RECORDS_RESERVED_INVALID,
    STATUS_LOG_SPACE_RESERVED_INVALID,
    STATUS_LOG_TAIL_INVALID,
    STATUS_LOG_FULL,
    STATUS_LOG_MULTIPLEXED,
    STATUS_LOG_DEDICATED,
    STATUS_LOG_ARCHIVE_NOT_IN_PROGRESS,
    STATUS_LOG_ARCHIVE_IN_PROGRESS,
    STATUS_LOG_EPHEMERAL,
    STATUS_LOG_NOT_ENOUGH_CONTAINERS,
    STATUS_LOG_CLIENT_ALREADY_REGISTERED,
    STATUS_LOG_CLIENT_NOT_REGISTERED,
    STATUS_LOG_FULL_HANDLER_IN_PROGRESS,
    STATUS_LOG_CONTAINER_READ_FAILED,
    STATUS_LOG_CONTAINER_WRITE_FAILED,
    STATUS_LOG_CONTAINER_OPEN_FAILED,
    STATUS_LOG_CONTAINER_STATE_INVALID,
    STATUS_LOG_STATE_INVALID,
    STATUS_LOG_PINNED,
    STATUS_LOG_METADATA_FLUSH_FAILED,
    STATUS_LOG_INCONSISTENT_SECURITY,
    STATUS_LOG_APPENDED_FLUSH_FAILED,
    STATUS_LOG_PINNED_RESERVATION,
    STATUS_VIDEO_HUNG_DISPLAY_DRIVER_THREAD,
    STATUS_FLT_NO_HANDLER_DEFINED,
    STATUS_FLT_CONTEXT_ALREADY_DEFINED,
    STATUS_FLT_INVALID_ASYNCHRONOUS_REQUEST,
    STATUS_FLT_DISALLOW_FAST_IO,
    STATUS_FLT_INVALID_NAME_REQUEST,
    STATUS_FLT_NOT_SAFE_TO_POST_OPERATION,
    STATUS_FLT_NOT_INITIALIZED,
    STATUS_FLT_FILTER_NOT_READY,
    STATUS_FLT_POST_OPERATION_CLEANUP,
    STATUS_FLT_INTERNAL_ERROR,
    STATUS_FLT_DELETING_OBJECT,
    STATUS_FLT_MUST_BE_NONPAGED_POOL,
    STATUS_FLT_DUPLICATE_ENTRY,
    STATUS_FLT_CBDQ_DISABLED,
    STATUS_FLT_DO_NOT_ATTACH,
    STATUS_FLT_DO_NOT_DETACH,
    STATUS_FLT_INSTANCE_ALTITUDE_COLLISION,
    STATUS_FLT_INSTANCE_NAME_COLLISION,
    STATUS_FLT_FILTER_NOT_FOUND,
    STATUS_FLT_VOLUME_NOT_FOUND,
    STATUS_FLT_INSTANCE_NOT_FOUND,
    STATUS_FLT_CONTEXT_ALLOCATION_NOT_FOUND,
    STATUS_FLT_INVALID_CONTEXT_REGISTRATION,
    STATUS_FLT_NAME_CACHE_MISS,
    STATUS_FLT_NO_DEVICE_OBJECT,
    STATUS_FLT_VOLUME_ALREADY_MOUNTED,
    STATUS_FLT_ALREADY_ENLISTED,
    STATUS_FLT_CONTEXT_ALREADY_LINKED,
    STATUS_FLT_NO_WAITER_FOR_REPLY,
    STATUS_FLT_REGISTRATION_BUSY,
    STATUS_MONITOR_NO_DESCRIPTOR,
    STATUS_MONITOR_UNKNOWN_DESCRIPTOR_FORMAT,
    STATUS_MONITOR_INVALID_DESCRIPTOR_CHECKSUM,
    STATUS_MONITOR_INVALID_STANDARD_TIMING_BLOCK,
    STATUS_MONITOR_WMI_DATABLOCK_REGISTRATION_FAILED,
    STATUS_MONITOR_INVALID_SERIAL_NUMBER_MONDSC_BLOCK,
    STATUS_MONITOR_INVALID_USER_FRIENDLY_MONDSC_BLOCK,
    STATUS_MONITOR_NO_MORE_DESCRIPTOR_DATA,
    STATUS_MONITOR_INVALID_DETAILED_TIMING_BLOCK,
    STATUS_MONITOR_INVALID_MANUFACTURE_DATE,
    STATUS_GRAPHICS_NOT_EXCLUSIVE_MODE_OWNER,
    STATUS_GRAPHICS_INSUFFICIENT_DMA_BUFFER,
    STATUS_GRAPHICS_INVALID_DISPLAY_ADAPTER,
    STATUS_GRAPHICS_ADAPTER_WAS_RESET,
    STATUS_GRAPHICS_INVALID_DRIVER_MODEL,
    STATUS_GRAPHICS_PRESENT_MODE_CHANGED,
    STATUS_GRAPHICS_PRESENT_OCCLUDED,
    STATUS_GRAPHICS_PRESENT_DENIED,
    STATUS_GRAPHICS_CANNOTCOLORCONVERT,
    STATUS_GRAPHICS_DRIVER_MISMATCH,
    STATUS_GRAPHICS_PRESENT_REDIRECTION_DISABLED,
    STATUS_GRAPHICS_PRESENT_UNOCCLUDED,
    STATUS_GRAPHICS_WINDOWDC_NOT_AVAILABLE,
    STATUS_GRAPHICS_WINDOWLESS_PRESENT_DISABLED,
    STATUS_GRAPHICS_PRESENT_INVALID_WINDOW,
    STATUS_GRAPHICS_PRESENT_BUFFER_NOT_BOUND,
    STATUS_GRAPHICS_VAIL_STATE_CHANGED,
    STATUS_GRAPHICS_INDIRECT_DISPLAY_ABANDON_SWAPCHAIN,
    STATUS_GRAPHICS_INDIRECT_DISPLAY_DEVICE_STOPPED,
    STATUS_GRAPHICS_NO_VIDEO_MEMORY,
    STATUS_GRAPHICS_CANT_LOCK_MEMORY,
    STATUS_GRAPHICS_ALLOCATION_BUSY,
    STATUS_GRAPHICS_TOO_MANY_REFERENCES,
    STATUS_GRAPHICS_TRY_AGAIN_LATER,
    STATUS_GRAPHICS_TRY_AGAIN_NOW,
    STATUS_GRAPHICS_ALLOCATION_INVALID,
    STATUS_GRAPHICS_UNSWIZZLING_APERTURE_UNAVAILABLE,
    STATUS_GRAPHICS_UNSWIZZLING_APERTURE_UNSUPPORTED,
    STATUS_GRAPHICS_CANT_EVICT_PINNED_ALLOCATION,
    STATUS_GRAPHICS_INVALID_ALLOCATION_USAGE,
    STATUS_GRAPHICS_CANT_RENDER_LOCKED_ALLOCATION,
    STATUS_GRAPHICS_ALLOCATION_CLOSED,
    STATUS_GRAPHICS_INVALID_ALLOCATION_INSTANCE,
    STATUS_GRAPHICS_INVALID_ALLOCATION_HANDLE,
    STATUS_GRAPHICS_WRONG_ALLOCATION_DEVICE,
    STATUS_GRAPHICS_ALLOCATION_CONTENT_LOST,
    STATUS_GRAPHICS_GPU_EXCEPTION_ON_DEVICE,
    STATUS_GRAPHICS_INVALID_VIDPN_TOPOLOGY,
    STATUS_GRAPHICS_VIDPN_TOPOLOGY_NOT_SUPPORTED,
    STATUS_GRAPHICS_VIDPN_TOPOLOGY_CURRENTLY_NOT_SUPPORTED,
    STATUS_GRAPHICS_INVALID_VIDPN,
    STATUS_GRAPHICS_INVALID_VIDEO_PRESENT_SOURCE,
    STATUS_GRAPHICS_INVALID_VIDEO_PRESENT_TARGET,
    STATUS_GRAPHICS_VIDPN_MODALITY_NOT_SUPPORTED,
    STATUS_GRAPHICS_INVALID_VIDPN_SOURCEMODESET,
    STATUS_GRAPHICS_INVALID_VIDPN_TARGETMODESET,
    STATUS_GRAPHICS_INVALID_FREQUENCY,
    STATUS_GRAPHICS_INVALID_ACTIVE_REGION,
    STATUS_GRAPHICS_INVALID_TOTAL_REGION,
    STATUS_GRAPHICS_INVALID_VIDEO_PRESENT_SOURCE_MODE,
    STATUS_GRAPHICS_INVALID_VIDEO_PRESENT_TARGET_MODE,
    STATUS_GRAPHICS_PINNED_MODE_MUST_REMAIN_IN_SET,
    STATUS_GRAPHICS_PATH_ALREADY_IN_TOPOLOGY,
    STATUS_GRAPHICS_MODE_ALREADY_IN_MODESET,
    STATUS_GRAPHICS_INVALID_VIDEOPRESENTSOURCESET,
    STATUS_GRAPHICS_INVALID_VIDEOPRESENTTARGETSET,
    STATUS_GRAPHICS_SOURCE_ALREADY_IN_SET,
    STATUS_GRAPHICS_TARGET_ALREADY_IN_SET,
    STATUS_GRAPHICS_INVALID_VIDPN_PRESENT_PATH,
    STATUS_GRAPHICS_NO_RECOMMENDED_VIDPN_TOPOLOGY,
    STATUS_GRAPHICS_INVALID_MONITOR_FREQUENCYRANGESET,
    STATUS_GRAPHICS_INVALID_MONITOR_FREQUENCYRANGE,
    STATUS_GRAPHICS_FREQUENCYRANGE_NOT_IN_SET,
    STATUS_GRAPHICS_FREQUENCYRANGE_ALREADY_IN_SET,
    STATUS_GRAPHICS_STALE_MODESET,
    STATUS_GRAPHICS_INVALID_MONITOR_SOURCEMODESET,
    STATUS_GRAPHICS_INVALID_MONITOR_SOURCE_MODE,
    STATUS_GRAPHICS_NO_RECOMMENDED_FUNCTIONAL_VIDPN,
    STATUS_GRAPHICS_MODE_ID_MUST_BE_UNIQUE,
    STATUS_GRAPHICS_EMPTY_ADAPTER_MONITOR_MODE_SUPPORT_INTERSECTION,
    STATUS_GRAPHICS_VIDEO_PRESENT_TARGETS_LESS_THAN_SOURCES,
    STATUS_GRAPHICS_PATH_NOT_IN_TOPOLOGY,
    STATUS_GRAPHICS_ADAPTER_MUST_HAVE_AT_LEAST_ONE_SOURCE,
    STATUS_GRAPHICS_ADAPTER_MUST_HAVE_AT_LEAST_ONE_TARGET,
    STATUS_GRAPHICS_INVALID_MONITORDESCRIPTORSET,
    STATUS_GRAPHICS_INVALID_MONITORDESCRIPTOR,
    STATUS_GRAPHICS_MONITORDESCRIPTOR_NOT_IN_SET,
    STATUS_GRAPHICS_MONITORDESCRIPTOR_ALREADY_IN_SET,
    STATUS_GRAPHICS_MONITORDESCRIPTOR_ID_MUST_BE_UNIQUE,
    STATUS_GRAPHICS_INVALID_VIDPN_TARGET_SUBSET_TYPE,
    STATUS_GRAPHICS_RESOURCES_NOT_RELATED,
    STATUS_GRAPHICS_SOURCE_ID_MUST_BE_UNIQUE,
    STATUS_GRAPHICS_TARGET_ID_MUST_BE_UNIQUE,
    STATUS_GRAPHICS_NO_AVAILABLE_VIDPN_TARGET,
    STATUS_GRAPHICS_MONITOR_COULD_NOT_BE_ASSOCIATED_WITH_ADAPTER,
    STATUS_GRAPHICS_NO_VIDPNMGR,
    STATUS_GRAPHICS_NO_ACTIVE_VIDPN,
    STATUS_GRAPHICS_STALE_VIDPN_TOPOLOGY,
    STATUS_GRAPHICS_MONITOR_NOT_CONNECTED,
    STATUS_GRAPHICS_SOURCE_NOT_IN_TOPOLOGY,
    STATUS_GRAPHICS_INVALID_PRIMARYSURFACE_SIZE,
    STATUS_GRAPHICS_INVALID_VISIBLEREGION_SIZE,
    STATUS_GRAPHICS_INVALID_STRIDE,
    STATUS_GRAPHICS_INVALID_PIXELFORMAT,
    STATUS_GRAPHICS_INVALID_COLORBASIS,
    STATUS_GRAPHICS_INVALID_PIXELVALUEACCESSMODE,
    STATUS_GRAPHICS_TARGET_NOT_IN_TOPOLOGY,
    STATUS_GRAPHICS_NO_DISPLAY_MODE_MANAGEMENT_SUPPORT,
    STATUS_GRAPHICS_VIDPN_SOURCE_IN_USE,
    STATUS_GRAPHICS_CANT_ACCESS_ACTIVE_VIDPN,
    STATUS_GRAPHICS_INVALID_PATH_IMPORTANCE_ORDINAL,
    STATUS_GRAPHICS_INVALID_PATH_CONTENT_GEOMETRY_TRANSFORMATION,
    STATUS_GRAPHICS_PATH_CONTENT_GEOMETRY_TRANSFORMATION_NOT_SUPPORTED,
    STATUS_GRAPHICS_INVALID_GAMMA_RAMP,
    STATUS_GRAPHICS_GAMMA_RAMP_NOT_SUPPORTED,
    STATUS_GRAPHICS_MULTISAMPLING_NOT_SUPPORTED,
    STATUS_GRAPHICS_MODE_NOT_IN_MODESET,
    STATUS_GRAPHICS_INVALID_VIDPN_TOPOLOGY_RECOMMENDATION_REASON,
    STATUS_GRAPHICS_INVALID_PATH_CONTENT_TYPE,
    STATUS_GRAPHICS_INVALID_COPYPROTECTION_TYPE,
    STATUS_GRAPHICS_UNASSIGNED_MODESET_ALREADY_EXISTS,
    STATUS_GRAPHICS_INVALID_SCANLINE_ORDERING,
    STATUS_GRAPHICS_TOPOLOGY_CHANGES_NOT_ALLOWED,
    STATUS_GRAPHICS_NO_AVAILABLE_IMPORTANCE_ORDINALS,
    STATUS_GRAPHICS_INCOMPATIBLE_PRIVATE_FORMAT,
    STATUS_GRAPHICS_INVALID_MODE_PRUNING_ALGORITHM,
    STATUS_GRAPHICS_INVALID_MONITOR_CAPABILITY_ORIGIN,
    STATUS_GRAPHICS_INVALID_MONITOR_FREQUENCYRANGE_CONSTRAINT,
    STATUS_GRAPHICS_MAX_NUM_PATHS_REACHED,
    STATUS_GRAPHICS_CANCEL_VIDPN_TOPOLOGY_AUGMENTATION,
    STATUS_GRAPHICS_INVALID_CLIENT_TYPE,
    STATUS_GRAPHICS_CLIENTVIDPN_NOT_SET,
    STATUS_GRAPHICS_SPECIFIED_CHILD_ALREADY_CONNECTED,
    STATUS_GRAPHICS_CHILD_DESCRIPTOR_NOT_SUPPORTED,
    STATUS_GRAPHICS_NOT_A_LINKED_ADAPTER,
    STATUS_GRAPHICS_LEADLINK_NOT_ENUMERATED,
    STATUS_GRAPHICS_CHAINLINKS_NOT_ENUMERATED,
    STATUS_GRAPHICS_ADAPTER_CHAIN_NOT_READY,
    STATUS_GRAPHICS_CHAINLINKS_NOT_STARTED,
    STATUS_GRAPHICS_CHAINLINKS_NOT_POWERED_ON,
    STATUS_GRAPHICS_INCONSISTENT_DEVICE_LINK_STATE,
    STATUS_GRAPHICS_NOT_POST_DEVICE_DRIVER,
    STATUS_GRAPHICS_ADAPTER_ACCESS_NOT_EXCLUDED,
    STATUS_GRAPHICS_OPM_NOT_SUPPORTED,
    STATUS_GRAPHICS_COPP_NOT_SUPPORTED,
    STATUS_GRAPHICS_UAB_NOT_SUPPORTED,
    STATUS_GRAPHICS_OPM_INVALID_ENCRYPTED_PARAMETERS,
    STATUS_GRAPHICS_OPM_NO_PROTECTED_OUTPUTS_EXIST,
    STATUS_GRAPHICS_OPM_INTERNAL_ERROR,
    STATUS_GRAPHICS_OPM_INVALID_HANDLE,
    STATUS_GRAPHICS_PVP_INVALID_CERTIFICATE_LENGTH,
    STATUS_GRAPHICS_OPM_SPANNING_MODE_ENABLED,
    STATUS_GRAPHICS_OPM_THEATER_MODE_ENABLED,
    STATUS_GRAPHICS_PVP_HFS_FAILED,
    STATUS_GRAPHICS_OPM_INVALID_SRM,
    STATUS_GRAPHICS_OPM_OUTPUT_DOES_NOT_SUPPORT_HDCP,
    STATUS_GRAPHICS_OPM_OUTPUT_DOES_NOT_SUPPORT_ACP,
    STATUS_GRAPHICS_OPM_OUTPUT_DOES_NOT_SUPPORT_CGMSA,
    STATUS_GRAPHICS_OPM_HDCP_SRM_NEVER_SET,
    STATUS_GRAPHICS_OPM_RESOLUTION_TOO_HIGH,
    STATUS_GRAPHICS_OPM_ALL_HDCP_HARDWARE_ALREADY_IN_USE,
    STATUS_GRAPHICS_OPM_PROTECTED_OUTPUT_NO_LONGER_EXISTS,
    STATUS_GRAPHICS_OPM_PROTECTED_OUTPUT_DOES_NOT_HAVE_COPP_SEMANTICS,
    STATUS_GRAPHICS_OPM_INVALID_INFORMATION_REQUEST,
    STATUS_GRAPHICS_OPM_DRIVER_INTERNAL_ERROR,
    STATUS_GRAPHICS_OPM_PROTECTED_OUTPUT_DOES_NOT_HAVE_OPM_SEMANTICS,
    STATUS_GRAPHICS_OPM_SIGNALING_NOT_SUPPORTED,
    STATUS_GRAPHICS_OPM_INVALID_CONFIGURATION_REQUEST,
    STATUS_GRAPHICS_I2C_NOT_SUPPORTED,
    STATUS_GRAPHICS_I2C_DEVICE_DOES_NOT_EXIST,
    STATUS_GRAPHICS_I2C_ERROR_TRANSMITTING_DATA,
    STATUS_GRAPHICS_I2C_ERROR_RECEIVING_DATA,
    STATUS_GRAPHICS_DDCCI_VCP_NOT_SUPPORTED,
    STATUS_GRAPHICS_DDCCI_INVALID_DATA,
    STATUS_GRAPHICS_DDCCI_MONITOR_RETURNED_INVALID_TIMING_STATUS_BYTE,
    STATUS_GRAPHICS_DDCCI_INVALID_CAPABILITIES_STRING,
    STATUS_GRAPHICS_MCA_INTERNAL_ERROR,
    STATUS_GRAPHICS_DDCCI_INVALID_MESSAGE_COMMAND,
    STATUS_GRAPHICS_DDCCI_INVALID_MESSAGE_LENGTH,
    STATUS_GRAPHICS_DDCCI_INVALID_MESSAGE_CHECKSUM,
    STATUS_GRAPHICS_INVALID_PHYSICAL_MONITOR_HANDLE,
    STATUS_GRAPHICS_MONITOR_NO_LONGER_EXISTS,
    STATUS_GRAPHICS_ONLY_CONSOLE_SESSION_SUPPORTED,
    STATUS_GRAPHICS_NO_DISPLAY_DEVICE_CORRESPONDS_TO_NAME,
    STATUS_GRAPHICS_DISPLAY_DEVICE_NOT_ATTACHED_TO_DESKTOP,
    STATUS_GRAPHICS_MIRRORING_DEVICES_NOT_SUPPORTED,
    STATUS_GRAPHICS_INVALID_POINTER,
    STATUS_GRAPHICS_NO_MONITORS_CORRESPOND_TO_DISPLAY_DEVICE,
    STATUS_GRAPHICS_PARAMETER_ARRAY_TOO_SMALL,
    STATUS_GRAPHICS_INTERNAL_ERROR,
    STATUS_GRAPHICS_SESSION_TYPE_CHANGE_IN_PROGRESS,
    STATUS_FVE_LOCKED_VOLUME,
    STATUS_FVE_NOT_ENCRYPTED,
    STATUS_FVE_BAD_INFORMATION,
    STATUS_FVE_TOO_SMALL,
    STATUS_FVE_FAILED_WRONG_FS,
    STATUS_FVE_BAD_PARTITION_SIZE,
    STATUS_FVE_FS_NOT_EXTENDED,
    STATUS_FVE_FS_MOUNTED,
    STATUS_FVE_NO_LICENSE,
    STATUS_FVE_ACTION_NOT_ALLOWED,
    STATUS_FVE_BAD_DATA,
    STATUS_FVE_VOLUME_NOT_BOUND,
    STATUS_FVE_NOT_DATA_VOLUME,
    STATUS_FVE_CONV_READ_ERROR,
    STATUS_FVE_CONV_WRITE_ERROR,
    STATUS_FVE_OVERLAPPED_UPDATE,
    STATUS_FVE_FAILED_SECTOR_SIZE,
    STATUS_FVE_FAILED_AUTHENTICATION,
    STATUS_FVE_NOT_OS_VOLUME,
    STATUS_FVE_KEYFILE_NOT_FOUND,
    STATUS_FVE_KEYFILE_INVALID,
    STATUS_FVE_KEYFILE_NO_VMK,
    STATUS_FVE_TPM_DISABLED,
    STATUS_FVE_TPM_SRK_AUTH_NOT_ZERO,
    STATUS_FVE_TPM_INVALID_PCR,
    STATUS_FVE_TPM_NO_VMK,
    STATUS_FVE_PIN_INVALID,
    STATUS_FVE_AUTH_INVALID_APPLICATION,
    STATUS_FVE_AUTH_INVALID_CONFIG,
    STATUS_FVE_DEBUGGER_ENABLED,
    STATUS_FVE_DRY_RUN_FAILED,
    STATUS_FVE_BAD_METADATA_POINTER,
    STATUS_FVE_OLD_METADATA_COPY,
    STATUS_FVE_REBOOT_REQUIRED,
    STATUS_FVE_RAW_ACCESS,
    STATUS_FVE_RAW_BLOCKED,
    STATUS_FVE_NO_AUTOUNLOCK_MASTER_KEY,
    STATUS_FVE_MOR_FAILED,
    STATUS_FVE_NO_FEATURE_LICENSE,
    STATUS_FVE_POLICY_USER_DISABLE_RDV_NOT_ALLOWED,
    STATUS_FVE_CONV_RECOVERY_FAILED,
    STATUS_FVE_VIRTUALIZED_SPACE_TOO_BIG,
    STATUS_FVE_INVALID_DATUM_TYPE,
    STATUS_FVE_VOLUME_TOO_SMALL,
    STATUS_FVE_ENH_PIN_INVALID,
    STATUS_FVE_FULL_ENCRYPTION_NOT_ALLOWED_ON_TP_STORAGE,
    STATUS_FVE_WIPE_NOT_ALLOWED_ON_TP_STORAGE,
    STATUS_FVE_NOT_ALLOWED_ON_CSV_STACK,
    STATUS_FVE_NOT_ALLOWED_ON_CLUSTER,
    STATUS_FVE_NOT_ALLOWED_TO_UPGRADE_WHILE_CONVERTING,
    STATUS_FVE_WIPE_CANCEL_NOT_APPLICABLE,
    STATUS_FVE_EDRIVE_DRY_RUN_FAILED,
    STATUS_FVE_SECUREBOOT_DISABLED,
    STATUS_FVE_SECUREBOOT_CONFIG_CHANGE,
    STATUS_FVE_DEVICE_LOCKEDOUT,
    STATUS_FVE_VOLUME_EXTEND_PREVENTS_EOW_DECRYPT,
    STATUS_FVE_NOT_DE_VOLUME,
    STATUS_FVE_PROTECTION_DISABLED,
    STATUS_FVE_PROTECTION_CANNOT_BE_DISABLED,
    STATUS_FVE_OSV_KSR_NOT_ALLOWED,
    STATUS_FWP_CALLOUT_NOT_FOUND,
    STATUS_FWP_CONDITION_NOT_FOUND,
    STATUS_FWP_FILTER_NOT_FOUND,
    STATUS_FWP_LAYER_NOT_FOUND,
    STATUS_FWP_PROVIDER_NOT_FOUND,
    STATUS_FWP_PROVIDER_CONTEXT_NOT_FOUND,
    STATUS_FWP_SUBLAYER_NOT_FOUND,
    STATUS_FWP_NOT_FOUND,
    STATUS_FWP_ALREADY_EXISTS,
    STATUS_FWP_IN_USE,
    STATUS_FWP_DYNAMIC_SESSION_IN_PROGRESS,
    STATUS_FWP_WRONG_SESSION,
    STATUS_FWP_NO_TXN_IN_PROGRESS,
    STATUS_FWP_TXN_IN_PROGRESS,
    STATUS_FWP_TXN_ABORTED,
    STATUS_FWP_SESSION_ABORTED,
    STATUS_FWP_INCOMPATIBLE_TXN,
    STATUS_FWP_TIMEOUT,
    STATUS_FWP_NET_EVENTS_DISABLED,
    STATUS_FWP_INCOMPATIBLE_LAYER,
    STATUS_FWP_KM_CLIENTS_ONLY,
    STATUS_FWP_LIFETIME_MISMATCH,
    STATUS_FWP_BUILTIN_OBJECT,
    STATUS_FWP_TOO_MANY_CALLOUTS,
    STATUS_FWP_NOTIFICATION_DROPPED,
    STATUS_FWP_TRAFFIC_MISMATCH,
    STATUS_FWP_INCOMPATIBLE_SA_STATE,
    STATUS_FWP_NULL_POINTER,
    STATUS_FWP_INVALID_ENUMERATOR,
    STATUS_FWP_INVALID_FLAGS,
    STATUS_FWP_INVALID_NET_MASK,
    STATUS_FWP_INVALID_RANGE,
    STATUS_FWP_INVALID_INTERVAL,
    STATUS_FWP_ZERO_LENGTH_ARRAY,
    STATUS_FWP_NULL_DISPLAY_NAME,
    STATUS_FWP_INVALID_ACTION_TYPE,
    STATUS_FWP_INVALID_WEIGHT,
    STATUS_FWP_MATCH_TYPE_MISMATCH,
    STATUS_FWP_TYPE_MISMATCH,
    STATUS_FWP_OUT_OF_BOUNDS,
    STATUS_FWP_RESERVED,
    STATUS_FWP_DUPLICATE_CONDITION,
    STATUS_FWP_DUPLICATE_KEYMOD,
    STATUS_FWP_ACTION_INCOMPATIBLE_WITH_LAYER,
    STATUS_FWP_ACTION_INCOMPATIBLE_WITH_SUBLAYER,
    STATUS_FWP_CONTEXT_INCOMPATIBLE_WITH_LAYER,
    STATUS_FWP_CONTEXT_INCOMPATIBLE_WITH_CALLOUT,
    STATUS_FWP_INCOMPATIBLE_AUTH_METHOD,
    STATUS_FWP_INCOMPATIBLE_DH_GROUP,
    STATUS_FWP_EM_NOT_SUPPORTED,
    STATUS_FWP_NEVER_MATCH,
    STATUS_FWP_PROVIDER_CONTEXT_MISMATCH,
    STATUS_FWP_INVALID_PARAMETER,
    STATUS_FWP_TOO_MANY_SUBLAYERS,
    STATUS_FWP_CALLOUT_NOTIFICATION_FAILED,
    STATUS_FWP_INVALID_AUTH_TRANSFORM,
    STATUS_FWP_INVALID_CIPHER_TRANSFORM,
    STATUS_FWP_INCOMPATIBLE_CIPHER_TRANSFORM,
    STATUS_FWP_INVALID_TRANSFORM_COMBINATION,
    STATUS_FWP_DUPLICATE_AUTH_METHOD,
    STATUS_FWP_INVALID_TUNNEL_ENDPOINT,
    STATUS_FWP_L2_DRIVER_NOT_READY,
    STATUS_FWP_KEY_DICTATOR_ALREADY_REGISTERED,
    STATUS_FWP_KEY_DICTATION_INVALID_KEYING_MATERIAL,
    STATUS_FWP_CONNECTIONS_DISABLED,
    STATUS_FWP_INVALID_DNS_NAME,
    STATUS_FWP_STILL_ON,
    STATUS_FWP_IKEEXT_NOT_RUNNING,
    STATUS_FWP_TCPIP_NOT_READY,
    STATUS_FWP_INJECT_HANDLE_CLOSING,
    STATUS_FWP_INJECT_HANDLE_STALE,
    STATUS_FWP_CANNOT_PEND,
    STATUS_FWP_DROP_NOICMP,
    STATUS_NDIS_CLOSING,
    STATUS_NDIS_BAD_VERSION,
    STATUS_NDIS_BAD_CHARACTERISTICS,
    STATUS_NDIS_ADAPTER_NOT_FOUND,
    STATUS_NDIS_OPEN_FAILED,
    STATUS_NDIS_DEVICE_FAILED,
    STATUS_NDIS_MULTICAST_FULL,
    STATUS_NDIS_MULTICAST_EXISTS,
    STATUS_NDIS_MULTICAST_NOT_FOUND,
    STATUS_NDIS_REQUEST_ABORTED,
    STATUS_NDIS_RESET_IN_PROGRESS,
    STATUS_NDIS_INVALID_PACKET,
    STATUS_NDIS_INVALID_DEVICE_REQUEST,
    STATUS_NDIS_ADAPTER_NOT_READY,
    STATUS_NDIS_INVALID_LENGTH,
    STATUS_NDIS_INVALID_DATA,
    STATUS_NDIS_BUFFER_TOO_SHORT,
    STATUS_NDIS_INVALID_OID,
    STATUS_NDIS_ADAPTER_REMOVED,
    STATUS_NDIS_UNSUPPORTED_MEDIA,
    STATUS_NDIS_GROUP_ADDRESS_IN_USE,
    STATUS_NDIS_FILE_NOT_FOUND,
    STATUS_NDIS_ERROR_READING_FILE,
    STATUS_NDIS_ALREADY_MAPPED,
    STATUS_NDIS_RESOURCE_CONFLICT,
    STATUS_NDIS_MEDIA_DISCONNECTED,
    STATUS_NDIS_INVALID_ADDRESS,
    STATUS_NDIS_PAUSED,
    STATUS_NDIS_INTERFACE_NOT_FOUND,
    STATUS_NDIS_UNSUPPORTED_REVISION,
    STATUS_NDIS_INVALID_PORT,
    STATUS_NDIS_INVALID_PORT_STATE,
    STATUS_NDIS_LOW_POWER_STATE,
    STATUS_NDIS_REINIT_REQUIRED,
    STATUS_NDIS_NO_QUEUES,
    STATUS_NDIS_NOT_SUPPORTED,
    STATUS_NDIS_OFFLOAD_POLICY,
    STATUS_NDIS_OFFLOAD_CONNECTION_REJECTED,
    STATUS_NDIS_OFFLOAD_PATH_REJECTED,
    STATUS_NDIS_DOT11_AUTO_CONFIG_ENABLED,
    STATUS_NDIS_DOT11_MEDIA_IN_USE,
    STATUS_NDIS_DOT11_POWER_STATE_INVALID,
    STATUS_NDIS_PM_WOL_PATTERN_LIST_FULL,
    STATUS_NDIS_PM_PROTOCOL_OFFLOAD_LIST_FULL,
    STATUS_NDIS_DOT11_AP_CHANNEL_CURRENTLY_NOT_AVAILABLE,
    STATUS_NDIS_DOT11_AP_BAND_CURRENTLY_NOT_AVAILABLE,
    STATUS_NDIS_DOT11_AP_CHANNEL_NOT_ALLOWED,
    STATUS_NDIS_DOT11_AP_BAND_NOT_ALLOWED,
    STATUS_QUIC_HANDSHAKE_FAILURE,
    STATUS_QUIC_VER_NEG_FAILURE,
    STATUS_TPM_ERROR_MASK,
    STATUS_TPM_AUTHFAIL,
    STATUS_TPM_BADINDEX,
    STATUS_TPM_BAD_PARAMETER,
    STATUS_TPM_AUDITFAILURE,
    STATUS_TPM_CLEAR_DISABLED,
    STATUS_TPM_DEACTIVATED,
    STATUS_TPM_DISABLED,
    STATUS_TPM_DISABLED_CMD,
    STATUS_TPM_FAIL,
    STATUS_TPM_BAD_ORDINAL,
    STATUS_TPM_INSTALL_DISABLED,
    STATUS_TPM_INVALID_KEYHANDLE,
    STATUS_TPM_KEYNOTFOUND,
    STATUS_TPM_INAPPROPRIATE_ENC,
    STATUS_TPM_MIGRATEFAIL,
    STATUS_TPM_INVALID_PCR_INFO,
    STATUS_TPM_NOSPACE,
    STATUS_TPM_NOSRK,
    STATUS_TPM_NOTSEALED_BLOB,
    STATUS_TPM_OWNER_SET,
    STATUS_TPM_RESOURCES,
    STATUS_TPM_SHORTRANDOM,
    STATUS_TPM_SIZE,
    STATUS_TPM_WRONGPCRVAL,
    STATUS_TPM_BAD_PARAM_SIZE,
    STATUS_TPM_SHA_THREAD,
    STATUS_TPM_SHA_ERROR,
    STATUS_TPM_FAILEDSELFTEST,
    STATUS_TPM_AUTH2FAIL,
    STATUS_TPM_BADTAG,
    STATUS_TPM_IOERROR,
    STATUS_TPM_ENCRYPT_ERROR,
    STATUS_TPM_DECRYPT_ERROR,
    STATUS_TPM_INVALID_AUTHHANDLE,
    STATUS_TPM_NO_ENDORSEMENT,
    STATUS_TPM_INVALID_KEYUSAGE,
    STATUS_TPM_WRONG_ENTITYTYPE,
    STATUS_TPM_INVALID_POSTINIT,
    STATUS_TPM_INAPPROPRIATE_SIG,
    STATUS_TPM_BAD_KEY_PROPERTY,
    STATUS_TPM_BAD_MIGRATION,
    STATUS_TPM_BAD_SCHEME,
    STATUS_TPM_BAD_DATASIZE,
    STATUS_TPM_BAD_MODE,
    STATUS_TPM_BAD_PRESENCE,
    STATUS_TPM_BAD_VERSION,
    STATUS_TPM_NO_WRAP_TRANSPORT,
    STATUS_TPM_AUDITFAIL_UNSUCCESSFUL,
    STATUS_TPM_AUDITFAIL_SUCCESSFUL,
    STATUS_TPM_NOTRESETABLE,
    STATUS_TPM_NOTLOCAL,
    STATUS_TPM_BAD_TYPE,
    STATUS_TPM_INVALID_RESOURCE,
    STATUS_TPM_NOTFIPS,
    STATUS_TPM_INVALID_FAMILY,
    STATUS_TPM_NO_NV_PERMISSION,
    STATUS_TPM_REQUIRES_SIGN,
    STATUS_TPM_KEY_NOTSUPPORTED,
    STATUS_TPM_AUTH_CONFLICT,
    STATUS_TPM_AREA_LOCKED,
    STATUS_TPM_BAD_LOCALITY,
    STATUS_TPM_READ_ONLY,
    STATUS_TPM_PER_NOWRITE,
    STATUS_TPM_FAMILYCOUNT,
    STATUS_TPM_WRITE_LOCKED,
    STATUS_TPM_BAD_ATTRIBUTES,
    STATUS_TPM_INVALID_STRUCTURE,
    STATUS_TPM_KEY_OWNER_CONTROL,
    STATUS_TPM_BAD_COUNTER,
    STATUS_TPM_NOT_FULLWRITE,
    STATUS_TPM_CONTEXT_GAP,
    STATUS_TPM_MAXNVWRITES,
    STATUS_TPM_NOOPERATOR,
    STATUS_TPM_RESOURCEMISSING,
    STATUS_TPM_DELEGATE_LOCK,
    STATUS_TPM_DELEGATE_FAMILY,
    STATUS_TPM_DELEGATE_ADMIN,
    STATUS_TPM_TRANSPORT_NOTEXCLUSIVE,
    STATUS_TPM_OWNER_CONTROL,
    STATUS_TPM_DAA_RESOURCES,
    STATUS_TPM_DAA_INPUT_DATA0,
    STATUS_TPM_DAA_INPUT_DATA1,
    STATUS_TPM_DAA_ISSUER_SETTINGS,
    STATUS_TPM_DAA_TPM_SETTINGS,
    STATUS_TPM_DAA_STAGE,
    STATUS_TPM_DAA_ISSUER_VALIDITY,
    STATUS_TPM_DAA_WRONG_W,
    STATUS_TPM_BAD_HANDLE,
    STATUS_TPM_BAD_DELEGATE,
    STATUS_TPM_BADCONTEXT,
    STATUS_TPM_TOOMANYCONTEXTS,
    STATUS_TPM_MA_TICKET_SIGNATURE,
    STATUS_TPM_MA_DESTINATION,
    STATUS_TPM_MA_SOURCE,
    STATUS_TPM_MA_AUTHORITY,
    STATUS_TPM_PERMANENTEK,
    STATUS_TPM_BAD_SIGNATURE,
    STATUS_TPM_NOCONTEXTSPACE,
    STATUS_TPM_20_E_ASYMMETRIC,
    STATUS_TPM_20_E_ATTRIBUTES,
    STATUS_TPM_20_E_HASH,
    STATUS_TPM_20_E_VALUE,
    STATUS_TPM_20_E_HIERARCHY,
    STATUS_TPM_20_E_KEY_SIZE,
    STATUS_TPM_20_E_MGF,
    STATUS_TPM_20_E_MODE,
    STATUS_TPM_20_E_TYPE,
    STATUS_TPM_20_E_HANDLE,
    STATUS_TPM_20_E_KDF,
    STATUS_TPM_20_E_RANGE,
    STATUS_TPM_20_E_AUTH_FAIL,
    STATUS_TPM_20_E_NONCE,
    STATUS_TPM_20_E_PP,
    STATUS_TPM_20_E_SCHEME,
    STATUS_TPM_20_E_SIZE,
    STATUS_TPM_20_E_SYMMETRIC,
    STATUS_TPM_20_E_TAG,
    STATUS_TPM_20_E_SELECTOR,
    STATUS_TPM_20_E_INSUFFICIENT,
    STATUS_TPM_20_E_SIGNATURE,
    STATUS_TPM_20_E_KEY,
    STATUS_TPM_20_E_POLICY_FAIL,
    STATUS_TPM_20_E_INTEGRITY,
    STATUS_TPM_20_E_TICKET,
    STATUS_TPM_20_E_RESERVED_BITS,
    STATUS_TPM_20_E_BAD_AUTH,
    STATUS_TPM_20_E_EXPIRED,
    STATUS_TPM_20_E_POLICY_CC,
    STATUS_TPM_20_E_BINDING,
    STATUS_TPM_20_E_CURVE,
    STATUS_TPM_20_E_ECC_POINT,
    STATUS_TPM_20_E_INITIALIZE,
    STATUS_TPM_20_E_FAILURE,
    STATUS_TPM_20_E_SEQUENCE,
    STATUS_TPM_20_E_PRIVATE,
    STATUS_TPM_20_E_HMAC,
    STATUS_TPM_20_E_DISABLED,
    STATUS_TPM_20_E_EXCLUSIVE,
    STATUS_TPM_20_E_ECC_CURVE,
    STATUS_TPM_20_E_AUTH_TYPE,
    STATUS_TPM_20_E_AUTH_MISSING,
    STATUS_TPM_20_E_POLICY,
    STATUS_TPM_20_E_PCR,
    STATUS_TPM_20_E_PCR_CHANGED,
    STATUS_TPM_20_E_UPGRADE,
    STATUS_TPM_20_E_TOO_MANY_CONTEXTS,
    STATUS_TPM_20_E_AUTH_UNAVAILABLE,
    STATUS_TPM_20_E_REBOOT,
    STATUS_TPM_20_E_UNBALANCED,
    STATUS_TPM_20_E_COMMAND_SIZE,
    STATUS_TPM_20_E_COMMAND_CODE,
    STATUS_TPM_20_E_AUTHSIZE,
    STATUS_TPM_20_E_AUTH_CONTEXT,
    STATUS_TPM_20_E_NV_RANGE,
    STATUS_TPM_20_E_NV_SIZE,
    STATUS_TPM_20_E_NV_LOCKED,
    STATUS_TPM_20_E_NV_AUTHORIZATION,
    STATUS_TPM_20_E_NV_UNINITIALIZED,
    STATUS_TPM_20_E_NV_SPACE,
    STATUS_TPM_20_E_NV_DEFINED,
    STATUS_TPM_20_E_BAD_CONTEXT,
    STATUS_TPM_20_E_CPHASH,
    STATUS_TPM_20_E_PARENT,
    STATUS_TPM_20_E_NEEDS_TEST,
    STATUS_TPM_20_E_NO_RESULT,
    STATUS_TPM_20_E_SENSITIVE,
    STATUS_TPM_COMMAND_BLOCKED,
    STATUS_TPM_INVALID_HANDLE,
    STATUS_TPM_DUPLICATE_VHANDLE,
    STATUS_TPM_EMBEDDED_COMMAND_BLOCKED,
    STATUS_TPM_EMBEDDED_COMMAND_UNSUPPORTED,
    STATUS_TPM_RETRY,
    STATUS_TPM_NEEDS_SELFTEST,
    STATUS_TPM_DOING_SELFTEST,
    STATUS_TPM_DEFEND_LOCK_RUNNING,
    STATUS_TPM_COMMAND_CANCELED,
    STATUS_TPM_TOO_MANY_CONTEXTS,
    STATUS_TPM_NOT_FOUND,
    STATUS_TPM_ACCESS_DENIED,
    STATUS_TPM_INSUFFICIENT_BUFFER,
    STATUS_TPM_PPI_FUNCTION_UNSUPPORTED,
    STATUS_PCP_ERROR_MASK,
    STATUS_PCP_DEVICE_NOT_READY,
    STATUS_PCP_INVALID_HANDLE,
    STATUS_PCP_INVALID_PARAMETER,
    STATUS_PCP_FLAG_NOT_SUPPORTED,
    STATUS_PCP_NOT_SUPPORTED,
    STATUS_PCP_BUFFER_TOO_SMALL,
    STATUS_PCP_INTERNAL_ERROR,
    STATUS_PCP_AUTHENTICATION_FAILED,
    STATUS_PCP_AUTHENTICATION_IGNORED,
    STATUS_PCP_POLICY_NOT_FOUND,
    STATUS_PCP_PROFILE_NOT_FOUND,
    STATUS_PCP_VALIDATION_FAILED,
    STATUS_PCP_DEVICE_NOT_FOUND,
    STATUS_PCP_WRONG_PARENT,
    STATUS_PCP_KEY_NOT_LOADED,
    STATUS_PCP_NO_KEY_CERTIFICATION,
    STATUS_PCP_KEY_NOT_FINALIZED,
    STATUS_PCP_ATTESTATION_CHALLENGE_NOT_SET,
    STATUS_PCP_NOT_PCR_BOUND,
    STATUS_PCP_KEY_ALREADY_FINALIZED,
    STATUS_PCP_KEY_USAGE_POLICY_NOT_SUPPORTED,
    STATUS_PCP_KEY_USAGE_POLICY_INVALID,
    STATUS_PCP_SOFT_KEY_ERROR,
    STATUS_PCP_KEY_NOT_AUTHENTICATED,
    STATUS_PCP_KEY_NOT_AIK,
    STATUS_PCP_KEY_NOT_SIGNING_KEY,
    STATUS_PCP_LOCKED_OUT,
    STATUS_PCP_CLAIM_TYPE_NOT_SUPPORTED,
    STATUS_PCP_TPM_VERSION_NOT_SUPPORTED,
    STATUS_PCP_BUFFER_LENGTH_MISMATCH,
    STATUS_PCP_IFX_RSA_KEY_CREATION_BLOCKED,
    STATUS_PCP_TICKET_MISSING,
    STATUS_PCP_RAW_POLICY_NOT_SUPPORTED,
    STATUS_PCP_KEY_HANDLE_INVALIDATED,
    STATUS_RTPM_NO_RESULT,
    STATUS_RTPM_PCR_READ_INCOMPLETE,
    STATUS_RTPM_INVALID_CONTEXT,
    STATUS_RTPM_UNSUPPORTED_CMD,
    STATUS_TPM_ZERO_EXHAUST_ENABLED,
    STATUS_HV_INVALID_HYPERCALL_CODE,
    STATUS_HV_INVALID_HYPERCALL_INPUT,
    STATUS_HV_INVALID_ALIGNMENT,
    STATUS_HV_INVALID_PARAMETER,
    STATUS_HV_ACCESS_DENIED,
    STATUS_HV_INVALID_PARTITION_STATE,
    STATUS_HV_OPERATION_DENIED,
    STATUS_HV_UNKNOWN_PROPERTY,
    STATUS_HV_PROPERTY_VALUE_OUT_OF_RANGE,
    STATUS_HV_INSUFFICIENT_MEMORY,
    STATUS_HV_PARTITION_TOO_DEEP,
    STATUS_HV_INVALID_PARTITION_ID,
    STATUS_HV_INVALID_VP_INDEX,
    STATUS_HV_INVALID_PORT_ID,
    STATUS_HV_INVALID_CONNECTION_ID,
    STATUS_HV_INSUFFICIENT_BUFFERS,
    STATUS_HV_NOT_ACKNOWLEDGED,
    STATUS_HV_INVALID_VP_STATE,
    STATUS_HV_ACKNOWLEDGED,
    STATUS_HV_INVALID_SAVE_RESTORE_STATE,
    STATUS_HV_INVALID_SYNIC_STATE,
    STATUS_HV_OBJECT_IN_USE,
    STATUS_HV_INVALID_PROXIMITY_DOMAIN_INFO,
    STATUS_HV_NO_DATA,
    STATUS_HV_INACTIVE,
    STATUS_HV_NO_RESOURCES,
    STATUS_HV_FEATURE_UNAVAILABLE,
    STATUS_HV_INSUFFICIENT_BUFFER,
    STATUS_HV_INSUFFICIENT_DEVICE_DOMAINS,
    STATUS_HV_CPUID_FEATURE_VALIDATION_ERROR,
    STATUS_HV_CPUID_XSAVE_FEATURE_VALIDATION_ERROR,
    STATUS_HV_PROCESSOR_STARTUP_TIMEOUT,
    STATUS_HV_SMX_ENABLED,
    STATUS_HV_INVALID_LP_INDEX,
    STATUS_HV_INVALID_REGISTER_VALUE,
    STATUS_HV_INVALID_VTL_STATE,
    STATUS_HV_NX_NOT_DETECTED,
    STATUS_HV_INVALID_DEVICE_ID,
    STATUS_HV_INVALID_DEVICE_STATE,
    STATUS_HV_PAGE_REQUEST_INVALID,
    STATUS_HV_INVALID_CPU_GROUP_ID,
    STATUS_HV_INVALID_CPU_GROUP_STATE,
    STATUS_HV_OPERATION_FAILED,
    STATUS_HV_NOT_ALLOWED_WITH_NESTED_VIRT_ACTIVE,
    STATUS_HV_INSUFFICIENT_ROOT_MEMORY,
    STATUS_HV_EVENT_BUFFER_ALREADY_FREED,
    STATUS_HV_INSUFFICIENT_CONTIGUOUS_MEMORY,
    STATUS_HV_NOT_PRESENT,
    STATUS_IPSEC_BAD_SPI,
    STATUS_IPSEC_SA_LIFETIME_EXPIRED,
    STATUS_IPSEC_WRONG_SA,
    STATUS_IPSEC_REPLAY_CHECK_FAILED,
    STATUS_IPSEC_INVALID_PACKET,
    STATUS_IPSEC_INTEGRITY_CHECK_FAILED,
    STATUS_IPSEC_CLEAR_TEXT_DROP,
    STATUS_IPSEC_AUTH_FIREWALL_DROP,
    STATUS_IPSEC_THROTTLE_DROP,
    STATUS_IPSEC_DOSP_BLOCK,
    STATUS_IPSEC_DOSP_RECEIVED_MULTICAST,
    STATUS_IPSEC_DOSP_INVALID_PACKET,
    STATUS_IPSEC_DOSP_STATE_LOOKUP_FAILED,
    STATUS_IPSEC_DOSP_MAX_ENTRIES,
    STATUS_IPSEC_DOSP_KEYMOD_NOT_ALLOWED,
    STATUS_IPSEC_DOSP_MAX_PER_IP_RATELIMIT_QUEUES,
    STATUS_VID_DUPLICATE_HANDLER,
    STATUS_VID_TOO_MANY_HANDLERS,
    STATUS_VID_QUEUE_FULL,
    STATUS_VID_HANDLER_NOT_PRESENT,
    STATUS_VID_INVALID_OBJECT_NAME,
    STATUS_VID_PARTITION_NAME_TOO_LONG,
    STATUS_VID_MESSAGE_QUEUE_NAME_TOO_LONG,
    STATUS_VID_PARTITION_ALREADY_EXISTS,
    STATUS_VID_PARTITION_DOES_NOT_EXIST,
    STATUS_VID_PARTITION_NAME_NOT_FOUND,
    STATUS_VID_MESSAGE_QUEUE_ALREADY_EXISTS,
    STATUS_VID_EXCEEDED_MBP_ENTRY_MAP_LIMIT,
    STATUS_VID_MB_STILL_REFERENCED,
    STATUS_VID_CHILD_GPA_PAGE_SET_CORRUPTED,
    STATUS_VID_INVALID_NUMA_SETTINGS,
    STATUS_VID_INVALID_NUMA_NODE_INDEX,
    STATUS_VID_NOTIFICATION_QUEUE_ALREADY_ASSOCIATED,
    STATUS_VID_INVALID_MEMORY_BLOCK_HANDLE,
    STATUS_VID_PAGE_RANGE_OVERFLOW,
    STATUS_VID_INVALID_MESSAGE_QUEUE_HANDLE,
    STATUS_VID_INVALID_GPA_RANGE_HANDLE,
    STATUS_VID_NO_MEMORY_BLOCK_NOTIFICATION_QUEUE,
    STATUS_VID_MEMORY_BLOCK_LOCK_COUNT_EXCEEDED,
    STATUS_VID_INVALID_PPM_HANDLE,
    STATUS_VID_MBPS_ARE_LOCKED,
    STATUS_VID_MESSAGE_QUEUE_CLOSED,
    STATUS_VID_VIRTUAL_PROCESSOR_LIMIT_EXCEEDED,
    STATUS_VID_STOP_PENDING,
    STATUS_VID_INVALID_PROCESSOR_STATE,
    STATUS_VID_EXCEEDED_KM_CONTEXT_COUNT_LIMIT,
    STATUS_VID_KM_INTERFACE_ALREADY_INITIALIZED,
    STATUS_VID_MB_PROPERTY_ALREADY_SET_RESET,
    STATUS_VID_MMIO_RANGE_DESTROYED,
    STATUS_VID_INVALID_CHILD_GPA_PAGE_SET,
    STATUS_VID_RESERVE_PAGE_SET_IS_BEING_USED,
    STATUS_VID_RESERVE_PAGE_SET_TOO_SMALL,
    STATUS_VID_MBP_ALREADY_LOCKED_USING_RESERVED_PAGE,
    STATUS_VID_MBP_COUNT_EXCEEDED_LIMIT,
    STATUS_VID_SAVED_STATE_CORRUPT,
    STATUS_VID_SAVED_STATE_UNRECOGNIZED_ITEM,
    STATUS_VID_SAVED_STATE_INCOMPATIBLE,
    STATUS_VID_VTL_ACCESS_DENIED,
    STATUS_VOLMGR_DATABASE_FULL,
    STATUS_VOLMGR_DISK_CONFIGURATION_CORRUPTED,
    STATUS_VOLMGR_DISK_CONFIGURATION_NOT_IN_SYNC,
    STATUS_VOLMGR_PACK_CONFIG_UPDATE_FAILED,
    STATUS_VOLMGR_DISK_CONTAINS_NON_SIMPLE_VOLUME,
    STATUS_VOLMGR_DISK_DUPLICATE,
    STATUS_VOLMGR_DISK_DYNAMIC,
    STATUS_VOLMGR_DISK_ID_INVALID,
    STATUS_VOLMGR_DISK_INVALID,
    STATUS_VOLMGR_DISK_LAST_VOTER,
    STATUS_VOLMGR_DISK_LAYOUT_INVALID,
    STATUS_VOLMGR_DISK_LAYOUT_NON_BASIC_BETWEEN_BASIC_PARTITIONS,
    STATUS_VOLMGR_DISK_LAYOUT_NOT_CYLINDER_ALIGNED,
    STATUS_VOLMGR_DISK_LAYOUT_PARTITIONS_TOO_SMALL,
    STATUS_VOLMGR_DISK_LAYOUT_PRIMARY_BETWEEN_LOGICAL_PARTITIONS,
    STATUS_VOLMGR_DISK_LAYOUT_TOO_MANY_PARTITIONS,
    STATUS_VOLMGR_DISK_MISSING,
    STATUS_VOLMGR_DISK_NOT_EMPTY,
    STATUS_VOLMGR_DISK_NOT_ENOUGH_SPACE,
    STATUS_VOLMGR_DISK_REVECTORING_FAILED,
    STATUS_VOLMGR_DISK_SECTOR_SIZE_INVALID,
    STATUS_VOLMGR_DISK_SET_NOT_CONTAINED,
    STATUS_VOLMGR_DISK_USED_BY_MULTIPLE_MEMBERS,
    STATUS_VOLMGR_DISK_USED_BY_MULTIPLE_PLEXES,
    STATUS_VOLMGR_DYNAMIC_DISK_NOT_SUPPORTED,
    STATUS_VOLMGR_EXTENT_ALREADY_USED,
    STATUS_VOLMGR_EXTENT_NOT_CONTIGUOUS,
    STATUS_VOLMGR_EXTENT_NOT_IN_PUBLIC_REGION,
    STATUS_VOLMGR_EXTENT_NOT_SECTOR_ALIGNED,
    STATUS_VOLMGR_EXTENT_OVERLAPS_EBR_PARTITION,
    STATUS_VOLMGR_EXTENT_VOLUME_LENGTHS_DO_NOT_MATCH,
    STATUS_VOLMGR_FAULT_TOLERANT_NOT_SUPPORTED,
    STATUS_VOLMGR_INTERLEAVE_LENGTH_INVALID,
    STATUS_VOLMGR_MAXIMUM_REGISTERED_USERS,
    STATUS_VOLMGR_MEMBER_IN_SYNC,
    STATUS_VOLMGR_MEMBER_INDEX_DUPLICATE,
    STATUS_VOLMGR_MEMBER_INDEX_INVALID,
    STATUS_VOLMGR_MEMBER_MISSING,
    STATUS_VOLMGR_MEMBER_NOT_DETACHED,
    STATUS_VOLMGR_MEMBER_REGENERATING,
    STATUS_VOLMGR_ALL_DISKS_FAILED,
    STATUS_VOLMGR_NO_REGISTERED_USERS,
    STATUS_VOLMGR_NO_SUCH_USER,
    STATUS_VOLMGR_NOTIFICATION_RESET,
    STATUS_VOLMGR_NUMBER_OF_MEMBERS_INVALID,
    STATUS_VOLMGR_NUMBER_OF_PLEXES_INVALID,
    STATUS_VOLMGR_PACK_DUPLICATE,
    STATUS_VOLMGR_PACK_ID_INVALID,
    STATUS_VOLMGR_PACK_INVALID,
    STATUS_VOLMGR_PACK_NAME_INVALID,
    STATUS_VOLMGR_PACK_OFFLINE,
    STATUS_VOLMGR_PACK_HAS_QUORUM,
    STATUS_VOLMGR_PACK_WITHOUT_QUORUM,
    STATUS_VOLMGR_PARTITION_STYLE_INVALID,
    STATUS_VOLMGR_PARTITION_UPDATE_FAILED,
    STATUS_VOLMGR_PLEX_IN_SYNC,
    STATUS_VOLMGR_PLEX_INDEX_DUPLICATE,
    STATUS_VOLMGR_PLEX_INDEX_INVALID,
    STATUS_VOLMGR_PLEX_LAST_ACTIVE,
    STATUS_VOLMGR_PLEX_MISSING,
    STATUS_VOLMGR_PLEX_REGENERATING,
    STATUS_VOLMGR_PLEX_TYPE_INVALID,
    STATUS_VOLMGR_PLEX_NOT_RAID5,
    STATUS_VOLMGR_PLEX_NOT_SIMPLE,
    STATUS_VOLMGR_STRUCTURE_SIZE_INVALID,
    STATUS_VOLMGR_TOO_MANY_NOTIFICATION_REQUESTS,
    STATUS_VOLMGR_TRANSACTION_IN_PROGRESS,
    STATUS_VOLMGR_UNEXPECTED_DISK_LAYOUT_CHANGE,
    STATUS_VOLMGR_VOLUME_CONTAINS_MISSING_DISK,
    STATUS_VOLMGR_VOLUME_ID_INVALID,
    STATUS_VOLMGR_VOLUME_LENGTH_INVALID,
    STATUS_VOLMGR_VOLUME_LENGTH_NOT_SECTOR_SIZE_MULTIPLE,
    STATUS_VOLMGR_VOLUME_NOT_MIRRORED,
    STATUS_VOLMGR_VOLUME_NOT_RETAINED,
    STATUS_VOLMGR_VOLUME_OFFLINE,
    STATUS_VOLMGR_VOLUME_RETAINED,
    STATUS_VOLMGR_NUMBER_OF_EXTENTS_INVALID,
    STATUS_VOLMGR_DIFFERENT_SECTOR_SIZE,
    STATUS_VOLMGR_BAD_BOOT_DISK,
    STATUS_VOLMGR_PACK_CONFIG_OFFLINE,
    STATUS_VOLMGR_PACK_CONFIG_ONLINE,
    STATUS_VOLMGR_NOT_PRIMARY_PACK,
    STATUS_VOLMGR_PACK_LOG_UPDATE_FAILED,
    STATUS_VOLMGR_NUMBER_OF_DISKS_IN_PLEX_INVALID,
    STATUS_VOLMGR_NUMBER_OF_DISKS_IN_MEMBER_INVALID,
    STATUS_VOLMGR_VOLUME_MIRRORED,
    STATUS_VOLMGR_PLEX_NOT_SIMPLE_SPANNED,
    STATUS_VOLMGR_NO_VALID_LOG_COPIES,
    STATUS_VOLMGR_PRIMARY_PACK_PRESENT,
    STATUS_VOLMGR_NUMBER_OF_DISKS_INVALID,
    STATUS_VOLMGR_MIRROR_NOT_SUPPORTED,
    STATUS_VOLMGR_RAID5_NOT_SUPPORTED,
    STATUS_BCD_TOO_MANY_ELEMENTS,
    STATUS_VHD_DRIVE_FOOTER_MISSING,
    STATUS_VHD_DRIVE_FOOTER_CHECKSUM_MISMATCH,
    STATUS_VHD_DRIVE_FOOTER_CORRUPT,
    STATUS_VHD_FORMAT_UNKNOWN,
    STATUS_VHD_FORMAT_UNSUPPORTED_VERSION,
    STATUS_VHD_SPARSE_HEADER_CHECKSUM_MISMATCH,
    STATUS_VHD_SPARSE_HEADER_UNSUPPORTED_VERSION,
    STATUS_VHD_SPARSE_HEADER_CORRUPT,
    STATUS_VHD_BLOCK_ALLOCATION_FAILURE,
    STATUS_VHD_BLOCK_ALLOCATION_TABLE_CORRUPT,
    STATUS_VHD_INVALID_BLOCK_SIZE,
    STATUS_VHD_BITMAP_MISMATCH,
    STATUS_VHD_PARENT_VHD_NOT_FOUND,
    STATUS_VHD_CHILD_PARENT_ID_MISMATCH,
    STATUS_VHD_CHILD_PARENT_TIMESTAMP_MISMATCH,
    STATUS_VHD_METADATA_READ_FAILURE,
    STATUS_VHD_METADATA_WRITE_FAILURE,
    STATUS_VHD_INVALID_SIZE,
    STATUS_VHD_INVALID_FILE_SIZE,
    STATUS_VIRTDISK_PROVIDER_NOT_FOUND,
    STATUS_VIRTDISK_NOT_VIRTUAL_DISK,
    STATUS_VHD_PARENT_VHD_ACCESS_DENIED,
    STATUS_VHD_CHILD_PARENT_SIZE_MISMATCH,
    STATUS_VHD_DIFFERENCING_CHAIN_CYCLE_DETECTED,
    STATUS_VHD_DIFFERENCING_CHAIN_ERROR_IN_PARENT,
    STATUS_VIRTUAL_DISK_LIMITATION,
    STATUS_VHD_INVALID_TYPE,
    STATUS_VHD_INVALID_STATE,
    STATUS_VIRTDISK_UNSUPPORTED_DISK_SECTOR_SIZE,
    STATUS_VIRTDISK_DISK_ALREADY_OWNED,
    STATUS_VIRTDISK_DISK_ONLINE_AND_WRITABLE,
    STATUS_CTLOG_TRACKING_NOT_INITIALIZED,
    STATUS_CTLOG_LOGFILE_SIZE_EXCEEDED_MAXSIZE,
    STATUS_CTLOG_VHD_CHANGED_OFFLINE,
    STATUS_CTLOG_INVALID_TRACKING_STATE,
    STATUS_CTLOG_INCONSISTENT_TRACKING_FILE,
    STATUS_VHD_METADATA_FULL,
    STATUS_VHD_INVALID_CHANGE_TRACKING_ID,
    STATUS_VHD_CHANGE_TRACKING_DISABLED,
    STATUS_VHD_MISSING_CHANGE_TRACKING_INFORMATION,
    STATUS_VHD_RESIZE_WOULD_TRUNCATE_DATA,
    STATUS_VHD_COULD_NOT_COMPUTE_MINIMUM_VIRTUAL_SIZE,
    STATUS_VHD_ALREADY_AT_OR_BELOW_MINIMUM_VIRTUAL_SIZE,
    STATUS_RKF_KEY_NOT_FOUND,
    STATUS_RKF_DUPLICATE_KEY,
    STATUS_RKF_BLOB_FULL,
    STATUS_RKF_STORE_FULL,
    STATUS_RKF_FILE_BLOCKED,
    STATUS_RKF_ACTIVE_KEY,
    STATUS_RDBSS_RESTART_OPERATION,
    STATUS_RDBSS_CONTINUE_OPERATION,
    STATUS_RDBSS_POST_OPERATION,
    STATUS_RDBSS_RETRY_LOOKUP,
    STATUS_BTH_ATT_INVALID_HANDLE,
    STATUS_BTH_ATT_READ_NOT_PERMITTED,
    STATUS_BTH_ATT_WRITE_NOT_PERMITTED,
    STATUS_BTH_ATT_INVALID_PDU,
    STATUS_BTH_ATT_INSUFFICIENT_AUTHENTICATION,
    STATUS_BTH_ATT_REQUEST_NOT_SUPPORTED,
    STATUS_BTH_ATT_INVALID_OFFSET,
    STATUS_BTH_ATT_INSUFFICIENT_AUTHORIZATION,
    STATUS_BTH_ATT_PREPARE_QUEUE_FULL,
    STATUS_BTH_ATT_ATTRIBUTE_NOT_FOUND,
    STATUS_BTH_ATT_ATTRIBUTE_NOT_LONG,
    STATUS_BTH_ATT_INSUFFICIENT_ENCRYPTION_KEY_SIZE,
    STATUS_BTH_ATT_INVALID_ATTRIBUTE_VALUE_LENGTH,
    STATUS_BTH_ATT_UNLIKELY,
    STATUS_BTH_ATT_INSUFFICIENT_ENCRYPTION,
    STATUS_BTH_ATT_UNSUPPORTED_GROUP_TYPE,
    STATUS_BTH_ATT_INSUFFICIENT_RESOURCES,
    STATUS_BTH_ATT_UNKNOWN_ERROR,
    STATUS_SECUREBOOT_ROLLBACK_DETECTED,
    STATUS_SECUREBOOT_POLICY_VIOLATION,
    STATUS_SECUREBOOT_INVALID_POLICY,
    STATUS_SECUREBOOT_POLICY_PUBLISHER_NOT_FOUND,
    STATUS_SECUREBOOT_POLICY_NOT_SIGNED,
    STATUS_SECUREBOOT_FILE_REPLACED,
    STATUS_SECUREBOOT_POLICY_NOT_AUTHORIZED,
    STATUS_SECUREBOOT_POLICY_UNKNOWN,
    STATUS_SECUREBOOT_POLICY_MISSING_ANTIROLLBACKVERSION,
    STATUS_SECUREBOOT_PLATFORM_ID_MISMATCH,
    STATUS_SECUREBOOT_POLICY_ROLLBACK_DETECTED,
    STATUS_SECUREBOOT_POLICY_UPGRADE_MISMATCH,
    STATUS_SECUREBOOT_REQUIRED_POLICY_FILE_MISSING,
    STATUS_SECUREBOOT_NOT_BASE_POLICY,
    STATUS_SECUREBOOT_NOT_SUPPLEMENTAL_POLICY,
    STATUS_AUDIO_ENGINE_NODE_NOT_FOUND,
    STATUS_HDAUDIO_EMPTY_CONNECTION_LIST,
    STATUS_HDAUDIO_CONNECTION_LIST_NOT_SUPPORTED,
    STATUS_HDAUDIO_NO_LOGICAL_DEVICES_CREATED,
    STATUS_HDAUDIO_NULL_LINKED_LIST_ENTRY,
    STATUS_VSM_NOT_INITIALIZED,
    STATUS_VSM_DMA_PROTECTION_NOT_IN_USE,
    STATUS_VOLSNAP_BOOTFILE_NOT_VALID,
    STATUS_VOLSNAP_ACTIVATION_TIMEOUT,
    STATUS_IO_PREEMPTED,
    STATUS_SVHDX_ERROR_STORED,
    STATUS_SVHDX_ERROR_NOT_AVAILABLE,
    STATUS_SVHDX_UNIT_ATTENTION_AVAILABLE,
    STATUS_SVHDX_UNIT_ATTENTION_CAPACITY_DATA_CHANGED,
    STATUS_SVHDX_UNIT_ATTENTION_RESERVATIONS_PREEMPTED,
    STATUS_SVHDX_UNIT_ATTENTION_RESERVATIONS_RELEASED,
    STATUS_SVHDX_UNIT_ATTENTION_REGISTRATIONS_PREEMPTED,
    STATUS_SVHDX_UNIT_ATTENTION_OPERATING_DEFINITION_CHANGED,
    STATUS_SVHDX_RESERVATION_CONFLICT,
    STATUS_SVHDX_WRONG_FILE_TYPE,
    STATUS_SVHDX_VERSION_MISMATCH,
    STATUS_VHD_SHARED,
    STATUS_SVHDX_NO_INITIATOR,
    STATUS_VHDSET_BACKING_STORAGE_NOT_FOUND,
    STATUS_SMB_NO_PREAUTH_INTEGRITY_HASH_OVERLAP,
    STATUS_SMB_BAD_CLUSTER_DIALECT,
    STATUS_SMB_GUEST_LOGON_BLOCKED,
    STATUS_SPACES_FAULT_DOMAIN_TYPE_INVALID,
    STATUS_SPACES_RESILIENCY_TYPE_INVALID,
    STATUS_SPACES_DRIVE_SECTOR_SIZE_INVALID,
    STATUS_SPACES_DRIVE_REDUNDANCY_INVALID,
    STATUS_SPACES_NUMBER_OF_DATA_COPIES_INVALID,
    STATUS_SPACES_INTERLEAVE_LENGTH_INVALID,
    STATUS_SPACES_NUMBER_OF_COLUMNS_INVALID,
    STATUS_SPACES_NOT_ENOUGH_DRIVES,
    STATUS_SPACES_EXTENDED_ERROR,
    STATUS_SPACES_PROVISIONING_TYPE_INVALID,
    STATUS_SPACES_ALLOCATION_SIZE_INVALID,
    STATUS_SPACES_ENCLOSURE_AWARE_INVALID,
    STATUS_SPACES_WRITE_CACHE_SIZE_INVALID,
    STATUS_SPACES_NUMBER_OF_GROUPS_INVALID,
    STATUS_SPACES_DRIVE_OPERATIONAL_STATE_INVALID,
    STATUS_SPACES_UPDATE_COLUMN_STATE,
    STATUS_SPACES_MAP_REQUIRED,
    STATUS_SPACES_UNSUPPORTED_VERSION,
    STATUS_SPACES_CORRUPT_METADATA,
    STATUS_SPACES_DRT_FULL,
    STATUS_SPACES_INCONSISTENCY,
    STATUS_SPACES_LOG_NOT_READY,
    STATUS_SPACES_NO_REDUNDANCY,
    STATUS_SPACES_DRIVE_NOT_READY,
    STATUS_SPACES_DRIVE_SPLIT,
    STATUS_SPACES_DRIVE_LOST_DATA,
    STATUS_SPACES_ENTRY_INCOMPLETE,
    STATUS_SPACES_ENTRY_INVALID,
    STATUS_SPACES_MARK_DIRTY,
    STATUS_SECCORE_INVALID_COMMAND,
    STATUS_SYSTEM_INTEGRITY_ROLLBACK_DETECTED,
    STATUS_SYSTEM_INTEGRITY_POLICY_VIOLATION,
    STATUS_SYSTEM_INTEGRITY_INVALID_POLICY,
    STATUS_SYSTEM_INTEGRITY_POLICY_NOT_SIGNED,
    STATUS_SYSTEM_INTEGRITY_TOO_MANY_POLICIES,
    STATUS_SYSTEM_INTEGRITY_SUPPLEMENTAL_POLICY_NOT_AUTHORIZED,
    STATUS_NO_APPLICABLE_APP_LICENSES_FOUND,
    STATUS_CLIP_LICENSE_NOT_FOUND,
    STATUS_CLIP_DEVICE_LICENSE_MISSING,
    STATUS_CLIP_LICENSE_INVALID_SIGNATURE,
    STATUS_CLIP_KEYHOLDER_LICENSE_MISSING_OR_INVALID,
    STATUS_CLIP_LICENSE_EXPIRED,
    STATUS_CLIP_LICENSE_SIGNED_BY_UNKNOWN_SOURCE,
    STATUS_CLIP_LICENSE_NOT_SIGNED,
    STATUS_CLIP_LICENSE_HARDWARE_ID_OUT_OF_TOLERANCE,
    STATUS_CLIP_LICENSE_DEVICE_ID_MISMATCH,
    STATUS_PLATFORM_MANIFEST_NOT_AUTHORIZED,
    STATUS_PLATFORM_MANIFEST_INVALID,
    STATUS_PLATFORM_MANIFEST_FILE_NOT_AUTHORIZED,
    STATUS_PLATFORM_MANIFEST_CATALOG_NOT_AUTHORIZED,
    STATUS_PLATFORM_MANIFEST_BINARY_ID_NOT_FOUND,
    STATUS_PLATFORM_MANIFEST_NOT_ACTIVE,
    STATUS_PLATFORM_MANIFEST_NOT_SIGNED,
    STATUS_APPEXEC_CONDITION_NOT_SATISFIED,
    STATUS_APPEXEC_HANDLE_INVALIDATED,
    STATUS_APPEXEC_INVALID_HOST_GENERATION,
    STATUS_APPEXEC_UNEXPECTED_PROCESS_REGISTRATION,
    STATUS_APPEXEC_INVALID_HOST_STATE,
    STATUS_APPEXEC_NO_DONOR,
    STATUS_APPEXEC_HOST_ID_MISMATCH,
    STATUS_APPEXEC_UNKNOWN_USER,
}

impl NtStatusWindows {
    /// One slice of the symbol table: the raw value of this symbol,
    /// where this slice holds it.
    pub open spec fn spec_to_u32_part0(self) -> Option<u32> {
        match self {
            NtStatusWindows::STATUS_OBJECT_NAME_EXISTS => Some(0x40000000),
            NtStatusWindows::STATUS_THREAD_WAS_SUSPENDED => Some(0x40000001),
            NtStatusWindows::STATUS_WORKING_SET_LIMIT_RANGE => Some(0x40000002),
            NtStatusWindows::STATUS_IMAGE_NOT_AT_BASE => Some(0x40000003),
            NtStatusWindows::STATUS_RXACT_STATE_CREATED => Some(0x40000004),
            NtStatusWindows::STATUS_SEGMENT_NOTIFICATION => Some(0x40000005),
            NtStatusWindows::STATUS_LOCAL_USER_SESSION_KEY => Some(0x40000006),
            NtStatusWindows::STATUS_BAD_CURRENT_DIRECTORY => Some(0x40000007),
            NtStatusWindows::STATUS_SERIAL_MORE_WRITES => Some(0x40000008),
            NtStatusWindows::STATUS_REGISTRY_RECOVERED => Some(0x40000009),
            NtStatusWindows::STATUS_FT_READ_RECOVERY_FROM_BACKUP => Some(0x4000000a),
            NtStatusWindows::STATUS_FT_WRITE_RECOVERY => Some(0x4000000b),
            NtStatusWindows::STATUS_SERIAL_COUNTER_TIMEOUT => Some(0x4000000c),
            NtStatusWindows::STATUS_NULL_LM_PASSWORD => Some(0x4000000d),
            NtStatusWindows::STATUS_IMAGE_MACHINE_TYPE_MISMATCH => Some(0x4000000e),
            NtStatusWindows::STATUS_RECEIVE_PARTIAL => Some(0x4000000f),
            NtStatusWindows::STATUS_RECEIVE_EXPEDITED => Some(0x40000010),
            NtStatusWindows::STATUS_RECEIVE_PARTIAL_EXPEDITED => Some(0x40000011),
            NtStatusWindows::STATUS_EVENT_DONE => Some(0x40000012),
            NtStatusWindows::STATUS_EVENT_PENDING => Some(0x40000013),
            NtStatusWindows::STATUS_CHECKING_FILE_SYSTEM => Some(0x40000014),
            NtStatusWindows::STATUS_FATAL_APP_EXIT => Some(0x40000015),
            NtStatusWindows::STATUS_PREDEFINED_HANDLE => Some(0x40000016),
            NtStatusWindows::STATUS_WAS_UNLOCKED => Some(0x40000017),
            NtStatusWindows::STATUS_SERVICE_NOTIFICATION => Some(0x40000018),
            NtStatusWindows::STATUS_WAS_LOCKED => Some(0x40000019),
            NtStatusWindows::STATUS_LOG_HARD_ERROR => Some(0x4000001a),
            NtStatusWindows::STATUS_ALREADY_WIN32 => Some(0x4000001b),
            NtStatusWindows::STATUS_WX86_UNSIMULATE => Some(0x4000001c),
            NtStatusWindows::STATUS_WX86_CONTINUE => Some(0x4000001d),
            NtStatusWindows::STATUS_WX86_SINGLE_STEP => Some(0x4000001e),
            NtStatusWindows::STATUS_WX86_BREAKPOINT => Some(0x4000001f),
            NtStatusWindows::STATUS_WX86_EXCEPTION_CONTINUE => Some(0x40000020),
            NtStatusWindows::STATUS_WX86_EXCEPTION_LASTCHANCE => Some(0x40000021),
            NtStatusWindows::STATUS_WX86_EXCEPTION_CHAIN => Some(0x40000022),
            NtStatusWindows::STATUS_IMAGE_MACHINE_TYPE_MISMATCH_EXE => Some(0x40000023),
            NtStatusWindows::STATUS_NO_YIELD_PERFORMED => Some(0x40000024),
            NtStatusWindows::STATUS_TIMER_RESUME_IGNORED => Some(0x40000025),
            NtStatusWindows::STATUS_ARBITRATION_UNHANDLED => Some(0x40000026),
            NtStatusWindows::STATUS_CARDBUS_NOT_SUPPORTED => Some(0x40000027),
            NtStatusWindows::STATUS_WX86_CREATEWX86TIB => Some(0x40000028),
            NtStatusWindows::STATUS_MP_PROCESSOR_MISMATCH => Some(0x40000029),
            NtStatusWindows::STATUS_HIBERNATED => Some(0x4000002a),
            NtStatusWindows::STATUS_RESUME_HIBERNATION => Some(0x4000002b),
            NtStatusWindows::STATUS_FIRMWARE_UPDATED => Some(0x4000002c),
            NtStatusWindows::STATUS_DRIVERS_LEAKING_LOCKED_PAGES => Some(0x4000002d),
            NtStatusWindows::STATUS_MESSAGE_RETRIEVED => Some(0x4000002e),
            NtStatusWindows::STATUS_SYSTEM_POWERSTATE_TRANSITION => Some(0x4000002f),
            NtStatusWindows::STATUS_ALPC_CHECK_COMPLETION_LIST => Some(0x40000030),
            NtStatusWindows::STATUS_SYSTEM_POWERSTATE_COMPLEX_TRANSITION => Some(0x40000031),
            _ => None,
        }
    }

    /// One slice of the symbol table: the symbol this slice gives a
    /// raw value, where it holds one.
    pub open spec fn spec_from_u32_part0(raw: u32) -> Option<NtStatusWindows> {
        match raw {
            0x40000000 => Some(NtStatusWindows::STATUS_OBJECT_NAME_EXISTS),
            0x40000001 => Some(NtStatusWindows::STATUS_THREAD_WAS_SUSPENDED),
            0x40000002 => Some(NtStatusWindows::STATUS_WORKING_SET_LIMIT_RANGE),
            0x40000003 => Some(NtStatusWindows::STATUS_IMAGE_NOT_AT_BASE),
            0x40000004 => Some(NtStatusWindows::STATUS_RXACT_STATE_CREATED),
            0x40000005 => Some(NtStatusWindows::STATUS_SEGMENT_NOTIFICATION),
            0x40000006 => Some(NtStatusWindows::STATUS_LOCAL_USER_SESSION_KEY),
            0x40000007 => Some(NtStatusWindows::STATUS_BAD_CURRENT_DIRECTORY),
            0x40000008 => Some(NtStatusWindows::STATUS_SERIAL_MORE_WRITES),
            0x40000009 => Some(NtStatusWindows::STATUS_REGISTRY_RECOVERED),
            0x4000000a => Some(NtStatusWindows::STATUS_FT_READ_RECOVERY_FROM_BACKUP),
            0x4000000b => Some(NtStatusWindows::STATUS_FT_WRITE_RECOVERY),
            0x4000000c => Some(NtStatusWindows::STATUS_SERIAL_COUNTER_TIMEOUT),
            0x4000000d => Some(NtStatusWindows::STATUS_NULL_LM_PASSWORD),
            0x4000000e => Some(NtStatusWindows::STATUS_IMAGE_MACHINE_TYPE_MISMATCH),
            0x4000000f => Some(NtStatusWindows::STATUS_RECEIVE_PARTIAL),
            0x40000010 => Some(NtStatusWindows::STATUS_RECEIVE_EXPEDITED),
            0x40000011 => Some(NtStatusWindows::STATUS_RECEIVE_PARTIAL_EXPEDITED),
            0x40000012 => Some(NtStatusWindows::STATUS_EVENT_DONE),
            0x40000013 => Some(NtStatusWindows::STATUS_EVENT_PENDING),
            0x40000014 => Some(NtStatusWindows::STATUS_CHECKING_FILE_SYSTEM),
            0x40000015 => Some(NtStatusWindows::STATUS_FATAL_APP_EXIT),
            0x40000016 => Some(NtStatusWindows::STATUS_PREDEFINED_HANDLE),
            0x40000017 => Some(NtStatusWindows::STATUS_WAS_UNLOCKED),
            0x40000018 => Some(NtStatusWindows::STATUS_SERVICE_NOTIFICATION),
            0x40000019 => Some(NtStatusWindows::STATUS_WAS_LOCKED),
            0x4000001a => Some(NtStatusWindows::STATUS_LOG_HARD_ERROR),
            0x4000001b => Some(NtStatusWindows::STATUS_ALREADY_WIN32),
            0x4000001c => Some(NtStatusWindows::STATUS_WX86_UNSIMULATE),
            0x4000001d => Some(NtStatusWindows::STATUS_WX86_CONTINUE),
            0x4000001e => Some(NtStatusWindows::STATUS_WX86_SINGLE_STEP),
            0x4000001f => Some(NtStatusWindows::STATUS_WX86_BREAKPOINT),
            0x40000020 => Some(NtStatusWindows::STATUS_WX86_EXCEPTION_CONTINUE),
            0x40000021 => Some(NtStatusWindows::STATUS_WX86_EXCEPTION_LASTCHANCE),
            0x40000022 => Some(NtStatusWindows::STATUS_WX86_EXCEPTION_CHAIN),
            0x40000023 => Some(NtStatusWindows::STATUS_IMAGE_MACHINE_TYPE_MISMATCH_EXE),
            0x40000024 => Some(NtStatusWindows::STATUS_NO_YIELD_PERFORMED),
            0x40000025 => Some(NtStatusWindows::STATUS_TIMER_RESUME_IGNORED),
            0x40000026 => Some(NtStatusWindows::STATUS_ARBITRATION_UNHANDLED),
            0x40000027 => Some(NtStatusWindows::STATUS_CARDBUS_NOT_SUPPORTED),
            0x40000028 => Some(NtStatusWindows::STATUS_WX86_CREATEWX86TIB),
            0x40000029 => Some(NtStatusWindows::STATUS_MP_PROCESSOR_MISMATCH),
            0x4000002a => Some(NtStatusWindows::STATUS_HIBERNATED),
            0x4000002b => Some(NtStatusWindows::STATUS_RESUME_HIBERNATION),
            0x4000002c => Some(NtStatusWindows::STATUS_FIRMWARE_UPDATED),
            0x4000002d => Some(NtStatusWindows::STATUS_DRIVERS_LEAKING_LOCKED_PAGES),
            0x4000002e => Some(NtStatusWindows::STATUS_MESSAGE_RETRIEVED),
            0x4000002f => Some(NtStatusWindows::STATUS_SYSTEM_POWERSTATE_TRANSITION),
            0x40000030 => Some(NtStatusWindows::STATUS_ALPC_CHECK_COMPLETION_LIST),
            0x40000031 => Some(NtStatusWindows::STATUS_SYSTEM_POWERSTATE_COMPLEX_TRANSITION),
            _ => None,
        }
    }

    /// One slice of the symbol table.
    #[verifier::spinoff_prover]
    #[verifier::rlimit(100)]
    fn to_u32_part0(self) -> (r: Option<u32>)
        ensures
            r == self.spec_to_u32_part0(),
    {
        match self {
            NtStatusWindows::STATUS_OBJECT_NAME_EXISTS => Some(0x40000000),
            NtStatusWindows::STATUS_THREAD_WAS_SUSPENDED => Some(0x40000001),
            NtStatusWindows::STATUS_WORKING_SET_LIMIT_RANGE => Some(0x40000002),
            NtStatusWindows::STATUS_IMAGE_NOT_AT_BASE => Some(0x40000003),
            NtStatusWindows::STATUS_RXACT_STATE_CREATED => Some(0x40000004),
            NtStatusWindows::STATUS_SEGMENT_NOTIFICATION => Some(0x40000005),
            NtStatusWindows::STATUS_LOCAL_USER_SESSION_KEY => Some(0x40000006),
            NtStatusWindows::STATUS_BAD_CURRENT_DIRECTORY => Some(0x40000007),
            NtStatusWindows::STATUS_SERIAL_MORE_WRITES => Some(0x40000008),
            NtStatusWindows::STATUS_REGISTRY_RECOVERED => Some(0x40000009),
            NtStatusWindows::STATUS_FT_READ_RECOVERY_FROM_BACKUP => Some(0x4000000a),
            NtStatusWindows::STATUS_FT_WRITE_RECOVERY => Some(0x4000000b),
            NtStatusWindows::STATUS_SERIAL_COUNTER_TIMEOUT => Some(0x4000000c),
            NtStatusWindows::STATUS_NULL_LM_PASSWORD => Some(0x4000000d),
            NtStatusWindows::STATUS_IMAGE_MACHINE_TYPE_MISMATCH => Some(0x4000000e),
            NtStatusWindows::STATUS_RECEIVE_PARTIAL => Some(0x4000000f),
            NtStatusWindows::STATUS_RECEIVE_EXPEDITED => Some(0x40000010),
            NtStatusWindows::STATUS_RECEIVE_PARTIAL_EXPEDITED => Some(0x40000011),
            NtStatusWindows::STATUS_EVENT_DONE => Some(0x40000012),
            NtStatusWindows::STATUS_EVENT_PENDING => Some(0x40000013),
            NtStatusWindows::STATUS_CHECKING_FILE_SYSTEM => Some(0x40000014),
            NtStatusWindows::STATUS_FATAL_APP_EXIT => Some(0x40000015),
            NtStatusWindows::STATUS_PREDEFINED_HANDLE => Some(0x40000016),
            NtStatusWindows::STATUS_WAS_UNLOCKED => Some(0x40000017),
            NtStatusWindows::STATUS_SERVICE_NOTIFICATION => Some(0x40000018),
            NtStatusWindows::STATUS_WAS_LOCKED => Some(0x40000019),
            NtStatusWindows::STATUS_LOG_HARD_ERROR => Some(0x4000001a),
            NtStatusWindows::STATUS_ALREADY_WIN32 => Some(0x4000001b),
            NtStatusWindows::STATUS_WX86_UNSIMULATE => Some(0x4000001c),
            NtStatusWindows::STATUS_WX86_CONTINUE => Some(0x4000001d),
            NtStatusWindows::STATUS_WX86_SINGLE_STEP => Some(0x4000001e),
            NtStatusWindows::STATUS_WX86_BREAKPOINT => Some(0x4000001f),
            NtStatusWindows::STATUS_WX86_EXCEPTION_CONTINUE => Some(0x40000020),
            NtStatusWindows::STATUS_WX86_EXCEPTION_LASTCHANCE => Some(0x40000021),
            NtStatusWindows::STATUS_WX86_EXCEPTION_CHAIN => Some(0x40000022),
            NtStatusWindows::STATUS_IMAGE_MACHINE_TYPE_MISMATCH_EXE => Some(0x40000023),
            NtStatusWindows::STATUS_NO_YIELD_PERFORMED => Some(0x40000024),
            NtStatusWindows::STATUS_TIMER_RESUME_IGNORED => Some(0x40000025),
            NtStatusWindows::STATUS_ARBITRATION_UNHANDLED => Some(0x40000026),
            NtStatusWindows::STATUS_CARDBUS_NOT_SUPPORTED => Some(0x40000027),
            NtStatusWindows::STATUS_WX86_CREATEWX86TIB => Some(0x40000028),
            NtStatusWindows::STATUS_MP_PROCESSOR_MISMATCH => Some(0x40000029),
            NtStatusWindows::STATUS_HIBERNATED => Some(0x4000002a),
            NtStatusWindows::STATUS_RESUME_HIBERNATION => Some(0x4000002b),
            NtStatusWindows::STATUS_FIRMWARE_UPDATED => Some(0x4000002c),
            NtStatusWindows::STATUS_DRIVERS_LEAKING_LOCKED_PAGES => Some(0x4000002d),
            NtStatusWindows::STATUS_MESSAGE_RETRIEVED => Some(0x4000002e),
            NtStatusWindows::STATUS_SYSTEM_POWERSTATE_TRANSITION => Some(0x4000002f),
            NtStatusWindows::STATUS_ALPC_CHECK_COMPLETION_LIST => Some(0x40000030),
            NtStatusWindows::STATUS_SYSTEM_POWERSTATE_COMPLEX_TRANSITION => Some(0x40000031),
            _ => None,
        }
    }

    /// One slice of the symbol table.
    #[verifier::spinoff_prover]
    #[verifier::rlimit(100)]
    fn from_u32_part0(raw: u32) -> (r: Option<NtStatusWindows>)
        ensures
            r == NtStatusWindows::spec_from_u32_part0(raw),
    {
        match raw {
            0x40000000 => Some(NtStatusWindows::STATUS_OBJECT_NAME_EXISTS),
            0x40000001 => Some(NtStatusWindows::STATUS_THREAD_WAS_SUSPENDED),
            0x40000002 => Some(NtStatusWindows::STATUS_WORKING_SET_LIMIT_RANGE),
            0x40000003 => Some(NtStatusWindows::STATUS_IMAGE_NOT_AT_BASE),
            0x40000004 => Some(NtStatusWindows::STATUS_RXACT_STATE_CREATED),
            0x40000005 => Some(NtStatusWindows::STATUS_SEGMENT_NOTIFICATION),
            0x40000006 => Some(NtStatusWindows::STATUS_LOCAL_USER_SESSION_KEY),
            0x40000007 => Some(NtStatusWindows::STATUS_BAD_CURRENT_DIRECTORY),
            0x40000008 => Some(NtStatusWindows::STATUS_SERIAL_MORE_WRITES),
            0x40000009 => Some(NtStatusWindows::STATUS_REGISTRY_RECOVERED),
            0x4000000a => Some(NtStatusWindows::STATUS_FT_READ_RECOVERY_FROM_BACKUP),
            0x4000000b => Some(NtStatusWindows::STATUS_FT_WRITE_RECOVERY),
            0x4000000c => Some(NtStatusWindows::STATUS_SERIAL_COUNTER_TIMEOUT),
            0x4000000d => Some(NtStatusWindows::STATUS_NULL_LM_PASSWORD),
            0x4000000e => Some(NtStatusWindows::STATUS_IMAGE_MACHINE_TYPE_MISMATCH),
            0x4000000f => Some(NtStatusWindows::STATUS_RECEIVE_PARTIAL),
            0x40000010 => Some(NtStatusWindows::STATUS_RECEIVE_EXPEDITED),
            0x40000011 => Some(NtStatusWindows::STATUS_RECEIVE_PARTIAL_EXPEDITED),
            0x40000012 => Some(NtStatusWindows::STATUS_EVENT_DONE),
            0x40000013 => Some(NtStatusWindows::STATUS_EVENT_PENDING),
            0x40000014 => Some(NtStatusWindows::STATUS_CHECKING_FILE_SYSTEM),
            0x40000015 => Some(NtStatusWindows::STATUS_FATAL_APP_EXIT),
            0x40000016 => Some(NtStatusWindows::STATUS_PREDEFINED_HANDLE),
            0x40000017 => Some(NtStatusWindows::STATUS_WAS_UNLOCKED),
            0x40000018 => Some(NtStatusWindows::STATUS_SERVICE_NOTIFICATION),
            0x40000019 => Some(NtStatusWindows::STATUS_WAS_LOCKED),
            0x4000001a => Some(NtStatusWindows::STATUS_LOG_HARD_ERROR),
            0x4000001b => Some(NtStatusWindows::STATUS_ALREADY_WIN32),
            0x4000001c => Some(NtStatusWindows::STATUS_WX86_UNSIMULATE),
            0x4000001d => Some(NtStatusWindows::STATUS_WX86_CONTINUE),
            0x4000001e => Some(NtStatusWindows::STATUS_WX86_SINGLE_STEP),
            0x4000001f => Some(NtStatusWindows::STATUS_WX86_BREAKPOINT),
            0x40000020 => Some(NtStatusWindows::STATUS_WX86_EXCEPTION_CONTINUE),
            0x40000021 => Some(NtStatusWindows::STATUS_WX86_EXCEPTION_LASTCHANCE),
            0x40000022 => Some(NtStatusWindows::STATUS_WX86_EXCEPTION_CHAIN),
            0x40000023 => Some(NtStatusWindows::STATUS_IMAGE_MACHINE_TYPE_MISMATCH_EXE),
            0x40000024 => Some(NtStatusWindows::STATUS_NO_YIELD_PERFORMED),
            0x40000025 => Some(NtStatusWindows::STATUS_TIMER_RESUME_IGNORED),
            0x40000026 => Some(NtStatusWindows::STATUS_ARBITRATION_UNHANDLED),
            0x40000027 => Some(NtStatusWindows::STATUS_CARDBUS_NOT_SUPPORTED),
            0x40000028 => Some(NtStatusWindows::STATUS_WX86_CREATEWX86TIB),
            0x40000029 => Some(NtStatusWindows::STATUS_MP_PROCESSOR_MISMATCH),
            0x4000002a => Some(NtStatusWindows::STATUS_HIBERNATED),
            0x4000002b => Some(NtStatusWindows::STATUS_RESUME_HIBERNATION),
            0x4000002c => Some(NtStatusWindows::STATUS_FIRMWARE_UPDATED),
            0x4000002d => Some(NtStatusWindows::STATUS_DRIVERS_LEAKING_LOCKED_PAGES),
            0x4000002e => Some(NtStatusWindows::STATUS_MESSAGE_RETRIEVED),
            0x4000002f => Some(NtStatusWindows::STATUS_SYSTEM_POWERSTATE_TRANSITION),
            0x40000030 => Some(NtStatusWindows::STATUS_ALPC_CHECK_COMPLETION_LIST),
            0x40000031 => Some(NtStatusWindows::STATUS_SYSTEM_POWERSTATE_COMPLEX_TRANSITION),
            _ => None,
        }
    }

    /// One slice of the symbol table: the raw value of this symbol,
    /// where this slice holds it.
    pub open spec fn spec_to_u32_part1(self) -> Option<u32> {
        match self {
            NtStatusWindows::STATUS_ACCESS_AUDIT_BY_POLICY => Some(0x40000032),
            NtStatusWindows::STATUS_ABANDON_HIBERFILE => Some(0x40000033),
            NtStatusWindows::STATUS_BIZRULES_NOT_ENABLED => Some(0x40000034),
            NtStatusWindows::STATUS_FT_READ_FROM_COPY => Some(0x40000035),
            NtStatusWindows::STATUS_IMAGE_AT_DIFFERENT_BASE => Some(0x40000036),
            NtStatusWindows::STATUS_PATCH_DEFERRED => Some(0x40000037),
            NtStatusWindows::STATUS_WAKE_SYSTEM => Some(0x40000294),
            NtStatusWindows::STATUS_DS_SHUTTING_DOWN => Some(0x40000370),
            NtStatusWindows::STATUS_DISK_REPAIR_REDIRECTED => Some(0x40000807),
            NtStatusWindows::STATUS_SERVICES_FAILED_AUTOSTART => Some(0x4000a144),
            NtStatusWindows::DBG_REPLY_LATER => Some(0x40010001),
            NtStatusWindows::DBG_UNABLE_TO_PROVIDE_HANDLE => Some(0x40010002),
            NtStatusWindows::DBG_TERMINATE_THREAD => Some(0x40010003),
            NtStatusWindows::DBG_TERMINATE_PROCESS => Some(0x40010004),
            NtStatusWindows::DBG_CONTROL_C => Some(0x40010005),
            NtStatusWindows::DBG_PRINTEXCEPTION_C => Some(0x40010006),
            NtStatusWindows::DBG_RIPEXCEPTION => Some(0x40010007),
            NtStatusWindows::DBG_CONTROL_BREAK => Some(0x40010008),
            NtStatusWindows::DBG_COMMAND_EXCEPTION => Some(0x40010009),
            NtStatusWindows::DBG_PRINTEXCEPTION_WIDE_C => Some(0x4001000a),
            NtStatusWindows::RPC_NT_UUID_LOCAL_ONLY => Some(0x40020056),
            NtStatusWindows::RPC_NT_SEND_INCOMPLETE => Some(0x400200af),
            NtStatusWindows::STATUS_CTX_CDM_CONNECT => Some(0x400a0004),
            NtStatusWindows::STATUS_CTX_CDM_DISCONNECT => Some(0x400a0005),
            NtStatusWindows::STATUS_SXS_RELEASE_ACTIVATION_CONTEXT => Some(0x4015000d),
            NtStatusWindows::STATUS_HEURISTIC_DAMAGE_POSSIBLE => Some(0x40190001),
            NtStatusWindows::STATUS_RECOVERY_NOT_NEEDED => Some(0x40190034),
            NtStatusWindows::STATUS_RM_ALREADY_STARTED => Some(0x40190035),
            NtStatusWindows::STATUS_LOG_NO_RESTART => Some(0x401a000c),
            NtStatusWindows::STATUS_VIDEO_DRIVER_DEBUG_REPORT_REQUEST => Some(0x401b00ec),
            NtStatusWindows::STATUS_GRAPHICS_PARTIAL_DATA_POPULATED => Some(0x401e000a),
            NtStatusWindows::STATUS_GRAPHICS_SKIP_ALLOCATION_PREPARATION => Some(0x401e0201),
            NtStatusWindows::STATUS_GRAPHICS_MODE_NOT_PINNED => Some(0x401e0307),
            NtStatusWindows::STATUS_GRAPHICS_NO_PREFERRED_MODE => Some(0x401e031e),
            NtStatusWindows::STATUS_GRAPHICS_DATASET_IS_EMPTY => Some(0x401e034b),
            NtStatusWindows::STATUS_GRAPHICS_NO_MORE_ELEMENTS_IN_DATASET => Some(0x401e034c),
            NtStatusWindows::STATUS_GRAPHICS_PATH_CONTENT_GEOMETRY_TRANSFORMATION_NOT_PINNED => Some(0x401e0351),
            NtStatusWindows::STATUS_GRAPHICS_UNKNOWN_CHILD_STATUS => Some(0x401e042f),
            NtStatusWindows::STATUS_GRAPHICS_LEADLINK_START_DEFERRED => Some(0x401e0437),
            NtStatusWindows::STATUS_GRAPHICS_POLLING_TOO_FREQUENTLY => Some(0x401e0439),
            NtStatusWindows::STATUS_GRAPHICS_START_DEFERRED => Some(0x401e043a),
            NtStatusWindows::STATUS_GRAPHICS_DEPENDABLE_CHILD_STATUS => Some(0x401e043c),
            NtStatusWindows::STATUS_NDIS_INDICATION_REQUIRED => Some(0x40230001),
            NtStatusWindows::STATUS_PCP_UNSUPPORTED_PSS_SALT => Some(0x40292023),
            NtStatusWindows::STATUS_GUARD_PAGE_VIOLATION => Some(0x80000001),
            NtStatusWindows::STATUS_DATATYPE_MISALIGNMENT => Some(0x80000002),
            NtStatusWindows::STATUS_BREAKPOINT => Some(0x80000003),
            NtStatusWindows::STATUS_SINGLE_STEP => Some(0x80000004),
            NtStatusWindows::STATUS_BUFFER_OVERFLOW => Some(0x80000005),
            NtStatusWindows::STATUS_NO_MORE_FILES => Some(0x80000006),
            _ => None,
        }
    }

    /// One slice of the symbol table: the symbol this slice gives a
    /// raw value, where it holds one.
    pub open spec fn spec_from_u32_part1(raw: u32) -> Option<NtStatusWindows> {
        match raw {
            0x40000032 => Some(NtStatusWindows::STATUS_ACCESS_AUDIT_BY_POLICY),
            0x40000033 => Some(NtStatusWindows::STATUS_ABANDON_HIBERFILE),
            0x40000034 => Some(NtStatusWindows::STATUS_BIZRULES_NOT_ENABLED),
            0x40000035 => Some(NtStatusWindows::STATUS_FT_READ_FROM_COPY),
            0x40000036 => Some(NtStatusWindows::STATUS_IMAGE_AT_DIFFERENT_BASE),
            0x40000037 => Some(NtStatusWindows::STATUS_PATCH_DEFERRED),
            0x40000294 => Some(NtStatusWindows::STATUS_WAKE_SYSTEM),
            0x40000370 => Some(NtStatusWindows::STATUS_DS_SHUTTING_DOWN),
            0x40000807 => Some(NtStatusWindows::STATUS_DISK_REPAIR_REDIRECTED),
            0x4000a144 => Some(NtStatusWindows::STATUS_SERVICES_FAILED_AUTOSTART),
            0x40010001 => Some(NtStatusWindows::DBG_REPLY_LATER),
            0x40010002 => Some(NtStatusWindows::DBG_UNABLE_TO_PROVIDE_HANDLE),
            0x40010003 => Some(NtStatusWindows::DBG_TERMINATE_THREAD),
            0x40010004 => Some(NtStatusWindows::DBG_TERMINATE_PROCESS),
            0x40010005 => Some(NtStatusWindows::DBG_CONTROL_C),
            0x40010006 => Some(NtStatusWindows::DBG_PRINTEXCEPTION_C),
            0x40010007 => Some(NtStatusWindows::DBG_RIPEXCEPTION),
            0x40010008 => Some(NtStatusWindows::DBG_CONTROL_BREAK),
            0x40010009 => Some(NtStatusWindows::DBG_COMMAND_EXCEPTION),
            0x4001000a => Some(NtStatusWindows::DBG_PRINTEXCEPTION_WIDE_C),
            0x40020056 => Some(NtStatusWindows::RPC_NT_UUID_LOCAL_ONLY),
            0x400200af => Some(NtStatusWindows::RPC_NT_SEND_INCOMPLETE),
            0x400a0004 => Some(NtStatusWindows::STATUS_CTX_CDM_CONNECT),
            0x400a0005 => Some(NtStatusWindows::STATUS_CTX_CDM_DISCONNECT),
            0x4015000d => Some(NtStatusWindows::STATUS_SXS_RELEASE_ACTIVATION_CONTEXT),
            0x40190001 => Some(NtStatusWindows::STATUS_HEURISTIC_DAMAGE_POSSIBLE),
            0x40190034 => Some(NtStatusWindows::STATUS_RECOVERY_NOT_NEEDED),
            0x40190035 => Some(NtStatusWindows::STATUS_RM_ALREADY_STARTED),
            0x401a000c => Some(NtStatusWindows::STATUS_LOG_NO_RESTART),
            0x401b00ec => Some(NtStatusWindows::STATUS_VIDEO_DRIVER_DEBUG_REPORT_REQUEST),
            0x401e000a => Some(NtStatusWindows::STATUS_GRAPHICS_PARTIAL_DATA_POPULATED),
            0x401e0201 => Some(NtStatusWindows::STATUS_GRAPHICS_SKIP_ALLOCATION_PREPARATION),
            0x401e0307 => Some(NtStatusWindows::STATUS_GRAPHICS_MODE_NOT_PINNED),
            0x401e031e => Some(NtStatusWindows::STATUS_GRAPHICS_NO_PREFERRED_MODE),
            0x401e034b => Some(NtStatusWindows::STATUS_GRAPHICS_DATASET_IS_EMPTY),
            0x401e034c => Some(NtStatusWindows::STATUS_GRAPHICS_NO_MORE_ELEMENTS_IN_DATASET),
            0x401e0351 => Some(NtStatusWindows::STATUS_GRAPHICS_PATH_CONTENT_GEOMETRY_TRANSFORMATION_NOT_PINNED),
            0x401e042f => Some(NtStatusWindows::STATUS_GRAPHICS_UNKNOWN_CHILD_STATUS),
            0x401e0437 => Some(NtStatusWindows::STATUS_GRAPHICS_LEADLINK_START_DEFERRED),
            0x401e0439 => Some(NtStatusWindows::STATUS_GRAPHICS_POLLING_TOO_FREQUENTLY),
            0x401e043a => Some(NtStatusWindows::STATUS_GRAPHICS_START_DEFERRED),
            0x401e043c => Some(NtStatusWindows::STATUS_GRAPHICS_DEPENDABLE_CHILD_STATUS),
            0x40230001 => Some(NtStatusWindows::STATUS_NDIS_INDICATION_REQUIRED),
            0x40292023 => Some(NtStatusWindows::STATUS_PCP_UNSUPPORTED_PSS_SALT),
            0x80000001 => Some(NtStatusWindows::STATUS_GUARD_PAGE_VIOLATION),
            0x80000002 => Some(NtStatusWindows::STATUS_DATATYPE_MISALIGNMENT),
            0x80000003 => Some(NtStatusWindows::STATUS_BREAKPOINT),
            0x80000004 => Some(NtStatusWindows::STATUS_SINGLE_STEP),
            0x80000005 => Some(NtStatusWindows::STATUS_BUFFER_OVERFLOW),
            0x80000006 => Some(NtStatusWindows::STATUS_NO_MORE_FILES),
            _ => None,
        }
    }

    /// One slice of the symbol table.
    #[verifier::spinoff_prover]
    #[verifier::rlimit(100)]
    fn to_u32_part1(self) -> (r: Option<u32>)
        ensures
            r == self.spec_to_u32_part1(),
    {
        match self {
            NtStatusWindows::STATUS_ACCESS_AUDIT_BY_POLICY => Some(0x40000032),
            NtStatusWindows::STATUS_ABANDON_HIBERFILE => Some(0x40000033),
            NtStatusWindows::STATUS_BIZRULES_NOT_ENABLED => Some(0x40000034),
            NtStatusWindows::STATUS_FT_READ_FROM_COPY => Some(0x40000035),
            NtStatusWindows::STATUS_IMAGE_AT_DIFFERENT_BASE => Some(0x40000036),
            NtStatusWindows::STATUS_PATCH_DEFERRED => Some(0x40000037),
            NtStatusWindows::STATUS_WAKE_SYSTEM => Some(0x40000294),
            NtStatusWindows::STATUS_DS_SHUTTING_DOWN => Some(0x40000370),
            NtStatusWindows::STATUS_DISK_REPAIR_REDIRECTED => Some(0x40000807),
            NtStatusWindows::STATUS_SERVICES_FAILED_AUTOSTART => Some(0x4000a144),
            NtStatusWindows::DBG_REPLY_LATER => Some(0x40010001),
            NtStatusWindows::DBG_UNABLE_TO_PROVIDE_HANDLE => Some(0x40010002),
            NtStatusWindows::DBG_TERMINATE_THREAD => Some(0x40010003),
            NtStatusWindows::DBG_TERMINATE_PROCESS => Some(0x40010004),
            NtStatusWindows::DBG_CONTROL_C => Some(0x40010005),
            NtStatusWindows::DBG_PRINTEXCEPTION_C => Some(0x40010006),
            NtStatusWindows::DBG_RIPEXCEPTION => Some(0x40010007),
            NtStatusWindows::DBG_CONTROL_BREAK => Some(0x40010008),
            NtStatusWindows::DBG_COMMAND_EXCEPTION => Some(0x40010009),
            NtStatusWindows::DBG_PRINTEXCEPTION_WIDE_C => Some(0x4001000a),
            NtStatusWindows::RPC_NT_UUID_LOCAL_ONLY => Some(0x40020056),
            NtStatusWindows::RPC_NT_SEND_INCOMPLETE => Some(0x400200af),
            NtStatusWindows::STATUS_CTX_CDM_CONNECT => Some(0x400a0004),
            NtStatusWindows::STATUS_CTX_CDM_DISCONNECT => Some(0x400a0005),
            NtStatusWindows::STATUS_SXS_RELEASE_ACTIVATION_CONTEXT => Some(0x4015000d),
            NtStatusWindows::STATUS_HEURISTIC_DAMAGE_POSSIBLE => Some(0x40190001),
            NtStatusWindows::STATUS_RECOVERY_NOT_NEEDED => Some(0x40190034),
            NtStatusWindows::STATUS_RM_ALREADY_STARTED => Some(0x40190035),
            NtStatusWindows::STATUS_LOG_NO_RESTART => Some(0x401a000c),
            NtStatusWindows::STATUS_VIDEO_DRIVER_DEBUG_REPORT_REQUEST => Some(0x401b00ec),
            NtStatusWindows::STATUS_GRAPHICS_PARTIAL_DATA_POPULATED => Some(0x401e000a),
            NtStatusWindows::STATUS_GRAPHICS_SKIP_ALLOCATION_PREPARATION => Some(0x401e0201),
            NtStatusWindows::STATUS_GRAPHICS_MODE_NOT_PINNED => Some(0x401e0307),
            NtStatusWindows::STATUS_GRAPHICS_NO_PREFERRED_MODE => Some(0x401e031e),
            NtStatusWindows::STATUS_GRAPHICS_DATASET_IS_EMPTY => Some(0x401e034b),
            NtStatusWindows::STATUS_GRAPHICS_NO_MORE_ELEMENTS_IN_DATASET => Some(0x401e034c),
            NtStatusWindows::STATUS_GRAPHICS_PATH_CONTENT_GEOMETRY_TRANSFORMATION_NOT_PINNED => Some(0x401e0351),
            NtStatusWindows::STATUS_GRAPHICS_UNKNOWN_CHILD_STATUS => Some(0x401e042f),
            NtStatusWindows::STATUS_GRAPHICS_LEADLINK_START_DEFERRED => Some(0x401e0437),
            NtStatusWindows::STATUS_GRAPHICS_POLLING_TOO_FREQUENTLY => Some(0x401e0439),
            NtStatusWindows::STATUS_GRAPHICS_START_DEFERRED => Some(0x401e043a),
            NtStatusWindows::STATUS_GRAPHICS_DEPENDABLE_CHILD_STATUS => Some(0x401e043c),
            NtStatusWindows::STATUS_NDIS_INDICATION_REQUIRED => Some(0x40230001),
            NtStatusWindows::STATUS_PCP_UNSUPPORTED_PSS_SALT => Some(0x40292023),
            NtStatusWindows::STATUS_GUARD_PAGE_VIOLATION => Some(0x80000001),
            NtStatusWindows::STATUS_DATATYPE_MISALIGNMENT => Some(0x80000002),
            NtStatusWindows::STATUS_BREAKPOINT => Some(0x80000003),
            NtStatusWindows::STATUS_SINGLE_STEP => Some(0x80000004),
            NtStatusWindows::STATUS_BUFFER_OVERFLOW => Some(0x80000005),
            NtStatusWindows::STATUS_NO_MORE_FILES => Some(0x80000006),
            _ => None,
        }
    }

    /// One slice of the symbol table.
    #[verifier::spinoff_prover]
    #[verifier::rlimit(100)]
    fn from_u32_part1(raw: u32) -> (r: Option<NtStatusWindows>)
        ensures
            r == NtStatusWindows::spec_from_u32_part1(raw),
    {
        match raw {
            0x40000032 => Some(NtStatusWindows::STATUS_ACCESS_AUDIT_BY_POLICY),
            0x40000033 => Some(NtStatusWindows::STATUS_ABANDON_HIBERFILE),
            0x40000034 => Some(NtStatusWindows::STATUS_BIZRULES_NOT_ENABLED),
            0x40000035 => Some(NtStatusWindows::STATUS_FT_READ_FROM_COPY),
            0x40000036 => Some(NtStatusWindows::STATUS_IMAGE_AT_DIFFERENT_BASE),
            0x40000037 => Some(NtStatusWindows::STATUS_PATCH_DEFERRED),
            0x40000294 => Some(NtStatusWindows::STATUS_WAKE_SYSTEM),
            0x40000370 => Some(NtStatusWindows::STATUS_DS_SHUTTING_DOWN),
            0x40000807 => Some(NtStatusWindows::STATUS_DISK_REPAIR_REDIRECTED),
            0x4000a144 => Some(NtStatusWindows::STATUS_SERVICES_FAILED_AUTOSTART),
            0x40010001 => Some(NtStatusWindows::DBG_REPLY_LATER),
            0x40010002 => Some(NtStatusWindows::DBG_UNABLE_TO_PROVIDE_HANDLE),
            0x40010003 => Some(NtStatusWindows::DBG_TERMINATE_THREAD),
            0x40010004 => Some(NtStatusWindows::DBG_TERMINATE_PROCESS),
            0x40010005 => Some(NtStatusWindows::DBG_CONTROL_C),
            0x40010006 => Some(NtStatusWindows::DBG_PRINTEXCEPTION_C),
            0x40010007 => Some(NtStatusWindows::DBG_RIPEXCEPTION),
            0x40010008 => Some(NtStatusWindows::DBG_CONTROL_BREAK),
            0x40010009 => Some(NtStatusWindows::DBG_COMMAND_EXCEPTION),
            0x4001000a => Some(NtStatusWindows::DBG_PRINTEXCEPTION_WIDE_C),
            0x40020056 => Some(NtStatusWindows::RPC_NT_UUID_LOCAL_ONLY),
            0x400200af => Some(NtStatusWindows::RPC_NT_SEND_INCOMPLETE),
            0x400a0004 => Some(NtStatusWindows::STATUS_CTX_CDM_CONNECT),
            0x400a0005 => Some(NtStatusWindows::STATUS_CTX_CDM_DISCONNECT),
            0x4015000d => Some(NtStatusWindows::STATUS_SXS_RELEASE_ACTIVATION_CONTEXT),
            0x40190001 => Some(NtStatusWindows::STATUS_HEURISTIC_DAMAGE_POSSIBLE),
            0x40190034 => Some(NtStatusWindows::STATUS_RECOVERY_NOT_NEEDED),
            0x40190035 => Some(NtStatusWindows::STATUS_RM_ALREADY_STARTED),
            0x401a000c => Some(NtStatusWindows::STATUS_LOG_NO_RESTART),
            0x401b00ec => Some(NtStatusWindows::STATUS_VIDEO_DRIVER_DEBUG_REPORT_REQUEST),
            0x401e000a => Some(NtStatusWindows::STATUS_GRAPHICS_PARTIAL_DATA_POPULATED),
            0x401e0201 => Some(NtStatusWindows::STATUS_GRAPHICS_SKIP_ALLOCATION_PREPARATION),
            0x401e0307 => Some(NtStatusWindows::STATUS_GRAPHICS_MODE_NOT_PINNED),
            0x401e031e => Some(NtStatusWindows::STATUS_GRAPHICS_NO_PREFERRED_MODE),
            0x401e034b => Some(NtStatusWindows::STATUS_GRAPHICS_DATASET_IS_EMPTY),
            0x401e034c => Some(NtStatusWindows::STATUS_GRAPHICS_NO_MORE_ELEMENTS_IN_DATASET),
            0x401e0351 => Some(NtStatusWindows::STATUS_GRAPHICS_PATH_CONTENT_GEOMETRY_TRANSFORMATION_NOT_PINNED),
            0x401e042f => Some(NtStatusWindows::STATUS_GRAPHICS_UNKNOWN_CHILD_STATUS),
            0x401e0437 => Some(NtStatusWindows::STATUS_GRAPHICS_LEADLINK_START_DEFERRED),
            0x401e0439 => Some(NtStatusWindows::STATUS_GRAPHICS_POLLING_TOO_FREQUENTLY),
            0x401e043a => Some(NtStatusWindows::STATUS_GRAPHICS_START_DEFERRED),
            0x401e043c => Some(NtStatusWindows::STATUS_GRAPHICS_DEPENDABLE_CHILD_STATUS),
            0x40230001 => Some(NtStatusWindows::STATUS_NDIS_INDICATION_REQUIRED),
            0x40292023 => Some(NtStatusWindows::STATUS_PCP_UNSUPPORTED_PSS_SALT),
            0x80000001 => Some(NtStatusWindows::STATUS_GUARD_PAGE_VIOLATION),
            0x80000002 => Some(NtStatusWindows::STATUS_DATATYPE_MISALIGNMENT),
            0x80000003 => Some(NtStatusWindows::STATUS_BREAKPOINT),
            0x80000004 => Some(NtStatusWindows::STATUS_SINGLE_STEP),
            0x80000005 => Some(NtStatusWindows::STATUS_BUFFER_OVERFLOW),
            0x80000006 => Some(NtStatusWindows::STATUS_NO_MORE_FILES),
            _ => None,
        }
    }

    /// One slice of the symbol table: the raw value of this symbol,
    /// where this slice holds it.
    pub open spec fn spec_to_u32_part2(self) -> Option<u32> {
        match self {
            NtStatusWindows::STATUS_WAKE_SYSTEM_DEBUGGER => Some(0x80000007),
            NtStatusWindows::STATUS_HANDLES_CLOSED => Some(0x8000000a),
            NtStatusWindows::STATUS_NO_INHERITANCE => Some(0x8000000b),
            NtStatusWindows::STATUS_GUID_SUBSTITUTION_MADE => Some(0x8000000c),
            NtStatusWindows::STATUS_PARTIAL_COPY => Some(0x8000000d),
            NtStatusWindows::STATUS_DEVICE_PAPER_EMPTY => Some(0x8000000e),
            NtStatusWindows::STATUS_DEVICE_POWERED_OFF => Some(0x8000000f),
            NtStatusWindows::STATUS_DEVICE_OFF_LINE => Some(0x80000010),
            NtStatusWindows::STATUS_DEVICE_BUSY => Some(0x80000011),
            NtStatusWindows::STATUS_NO_MORE_EAS => Some(0x80000012),
            NtStatusWindows::STATUS_INVALID_EA_NAME => Some(0x80000013),
            NtStatusWindows::STATUS_EA_LIST_INCONSISTENT => Some(0x80000014),
            NtStatusWindows::STATUS_INVALID_EA_FLAG => Some(0x80000015),
            NtStatusWindows::STATUS_VERIFY_REQUIRED => Some(0x80000016),
            NtStatusWindows::STATUS_EXTRANEOUS_INFORMATION => Some(0x80000017),
            NtStatusWindows::STATUS_RXACT_COMMIT_NECESSARY => Some(0x80000018),
            NtStatusWindows::STATUS_NO_MORE_ENTRIES => Some(0x8000001a),
            NtStatusWindows::STATUS_FILEMARK_DETECTED => Some(0x8000001b),
            NtStatusWindows::STATUS_MEDIA_CHANGED => Some(0x8000001c),
            NtStatusWindows::STATUS_BUS_RESET => Some(0x8000001d),
            NtStatusWindows::STATUS_END_OF_MEDIA => Some(0x8000001e),
            NtStatusWindows::STATUS_BEGINNING_OF_MEDIA => Some(0x8000001f),
            NtStatusWindows::STATUS_MEDIA_CHECK => Some(0x80000020),
            NtStatusWindows::STATUS_SETMARK_DETECTED => Some(0x80000021),
            NtStatusWindows::STATUS_NO_DATA_DETECTED => Some(0x80000022),
            NtStatusWindows::STATUS_REDIRECTOR_HAS_OPEN_HANDLES => Some(0x80000023),
            NtStatusWindows::STATUS_SERVER_HAS_OPEN_HANDLES => Some(0x80000024),
            NtStatusWindows::STATUS_ALREADY_DISCONNECTED => Some(0x80000025),
            NtStatusWindows::STATUS_LONGJUMP => Some(0x80000026),
            NtStatusWindows::STATUS_CLEANER_CARTRIDGE_INSTALLED => Some(0x80000027),
            NtStatusWindows::STATUS_PLUGPLAY_QUERY_VETOED => Some(0x80000028),
            NtStatusWindows::STATUS_UNWIND_CONSOLIDATE => Some(0x80000029),
            NtStatusWindows::STATUS_REGISTRY_HIVE_RECOVERED => Some(0x8000002a),
            NtStatusWindows::STATUS_DLL_MIGHT_BE_INSECURE => Some(0x8000002b),
            NtStatusWindows::STATUS_DLL_MIGHT_BE_INCOMPATIBLE => Some(0x8000002c),
            NtStatusWindows::STATUS_STOPPED_ON_SYMLINK => Some(0x8000002d),
            NtStatusWindows::STATUS_CANNOT_GRANT_REQUESTED_OPLOCK => Some(0x8000002e),
            NtStatusWindows::STATUS_NO_ACE_CONDITION => Some(0x8000002f),
            NtStatusWindows::STATUS_DEVICE_SUPPORT_IN_PROGRESS => Some(0x80000030),
            NtStatusWindows::STATUS_DEVICE_POWER_CYCLE_REQUIRED => Some(0x80000031),
            NtStatusWindows::STATUS_NO_WORK_DONE => Some(0x80000032),
            NtStatusWindows::STATUS_RETURN_ADDRESS_HIJACK_ATTEMPT => Some(0x80000033),
            NtStatusWindows::STATUS_DEVICE_REQUIRES_CLEANING => Some(0x80000288),
            NtStatusWindows::STATUS_DEVICE_DOOR_OPEN => Some(0x80000289),
            NtStatusWindows::STATUS_DATA_LOST_REPAIR => Some(0x80000803),
            NtStatusWindows::STATUS_GPIO_INTERRUPT_ALREADY_UNMASKED => Some(0x8000a127),
            NtStatusWindows::STATUS_CLOUD_FILE_PROPERTY_BLOB_CHECKSUM_MISMATCH => Some(0x8000cf00),
            NtStatusWindows::STATUS_CLOUD_FILE_PROPERTY_BLOB_TOO_LARGE => Some(0x8000cf04),
            NtStatusWindows::STATUS_CLOUD_FILE_TOO_MANY_PROPERTY_BLOBS => Some(0x8000cf05),
            NtStatusWindows::DBG_EXCEPTION_NOT_HANDLED => Some(0x80010001),
            _ => None,
        }
    }

    /// One slice of the symbol table: the symbol this slice gives a
    /// raw value, where it holds one.
    pub open spec fn spec_from_u32_part2(raw: u32) -> Option<NtStatusWindows> {
        match raw {
            0x80000007 => Some(NtStatusWindows::STATUS_WAKE_SYSTEM_DEBUGGER),
            0x8000000a => Some(NtStatusWindows::STATUS_HANDLES_CLOSED),
            0x8000000b => Some(NtStatusWindows::STATUS_NO_INHERITANCE),
            0x8000000c => Some(NtStatusWindows::STATUS_GUID_SUBSTITUTION_MADE),
            0x8000000d => Some(NtStatusWindows::STATUS_PARTIAL_COPY),
            0x8000000e => Some(NtStatusWindows::STATUS_DEVICE_PAPER_EMPTY),
            0x8000000f => Some(NtStatusWindows::STATUS_DEVICE_POWERED_OFF),
            0x80000010 => Some(NtStatusWindows::STATUS_DEVICE_OFF_LINE),
            0x80000011 => Some(NtStatusWindows::STATUS_DEVICE_BUSY),
            0x80000012 => Some(NtStatusWindows::STATUS_NO_MORE_EAS),
            0x80000013 => Some(NtStatusWindows::STATUS_INVALID_EA_NAME),
            0x80000014 => Some(NtStatusWindows::STATUS_EA_LIST_INCONSISTENT),
            0x80000015 => Some(NtStatusWindows::STATUS_INVALID_EA_FLAG),
            0x80000016 => Some(NtStatusWindows::STATUS_VERIFY_REQUIRED),
            0x80000017 => Some(NtStatusWindows::STATUS_EXTRANEOUS_INFORMATION),
            0x80000018 => Some(NtStatusWindows::STATUS_RXACT_COMMIT_NECESSARY),
            0x8000001a => Some(NtStatusWindows::STATUS_NO_MORE_ENTRIES),
            0x8000001b => Some(NtStatusWindows::STATUS_FILEMARK_DETECTED),
            0x8000001c => Some(NtStatusWindows::STATUS_MEDIA_CHANGED),
            0x8000001d => Some(NtStatusWindows::STATUS_BUS_RESET),
            0x8000001e => Some(NtStatusWindows::STATUS_END_OF_MEDIA),
            0x8000001f => Some(NtStatusWindows::STATUS_BEGINNING_OF_MEDIA),
            0x80000020 => Some(NtStatusWindows::STATUS_MEDIA_CHECK),
            0x80000021 => Some(NtStatusWindows::STATUS_SETMARK_DETECTED),
            0x80000022 => Some(NtStatusWindows::STATUS_NO_DATA_DETECTED),
            0x80000023 => Some(NtStatusWindows::STATUS_REDIRECTOR_HAS_OPEN_HANDLES),
            0x80000024 => Some(NtStatusWindows::STATUS_SERVER_HAS_OPEN_HANDLES),
            0x80000025 => Some(NtStatusWindows::STATUS_ALREADY_DISCONNECTED),
            0x80000026 => Some(NtStatusWindows::STATUS_LONGJUMP),
            0x80000027 => Some(NtStatusWindows::STATUS_CLEANER_CARTRIDGE_INSTALLED),
            0x80000028 => Some(NtStatusWindows::STATUS_PLUGPLAY_QUERY_VETOED),
            0x80000029 => Some(NtStatusWindows::STATUS_UNWIND_CONSOLIDATE),
            0x8000002a => Some(NtStatusWindows::STATUS_REGISTRY_HIVE_RECOVERED),
            0x8000002b => Some(NtStatusWindows::STATUS_DLL_MIGHT_BE_INSECURE),
            0x8000002c => Some(NtStatusWindows::STATUS_DLL_MIGHT_BE_INCOMPATIBLE),
            0x8000002d => Some(NtStatusWindows::STATUS_STOPPED_ON_SYMLINK),
            0x8000002e => Some(NtStatusWindows::STATUS_CANNOT_GRANT_REQUESTED_OPLOCK),
            0x8000002f => Some(NtStatusWindows::STATUS_NO_ACE_CONDITION),
            0x80000030 => Some(NtStatusWindows::STATUS_DEVICE_SUPPORT_IN_PROGRESS),
            0x80000031 => Some(NtStatusWindows::STATUS_DEVICE_POWER_CYCLE_REQUIRED),
            0x80000032 => Some(NtStatusWindows::STATUS_NO_WORK_DONE),
            0x80000033 => Some(NtStatusWindows::STATUS_RETURN_ADDRESS_HIJACK_ATTEMPT),
            0x80000288 => Some(NtStatusWindows::STATUS_DEVICE_REQUIRES_CLEANING),
            0x80000289 => Some(NtStatusWindows::STATUS_DEVICE_DOOR_OPEN),
            0x80000803 => Some(NtStatusWindows::STATUS_DATA_LOST_REPAIR),
            0x8000a127 => Some(NtStatusWindows::STATUS_GPIO_INTERRUPT_ALREADY_UNMASKED),
            0x8000cf00 => Some(NtStatusWindows::STATUS_CLOUD_FILE_PROPERTY_BLOB_CHECKSUM_MISMATCH),
            0x8000cf04 => Some(NtStatusWindows::STATUS_CLOUD_FILE_PROPERTY_BLOB_TOO_LARGE),
            0x8000cf05 => Some(NtStatusWindows::STATUS_CLOUD_FILE_TOO_MANY_PROPERTY_BLOBS),
            0x80010001 => Some(NtStatusWindows::DBG_EXCEPTION_NOT_HANDLED),
            _ => None,
        }
    }

    /// One slice of the symbol table.
    #[verifier::spinoff_prover]
    #[verifier::rlimit(100)]
    fn to_u32_part2(self) -> (r: Option<u32>)
        ensures
            r == self.spec_to_u32_part2(),
    {
        match self {
            NtStatusWindows::STATUS_WAKE_SYSTEM_DEBUGGER => Some(0x80000007),
            NtStatusWindows::STATUS_HANDLES_CLOSED => Some(0x8000000a),
            NtStatusWindows::STATUS_NO_INHERITANCE => Some(0x8000000b),
            NtStatusWindows::STATUS_GUID_SUBSTITUTION_MADE => Some(0x8000000c),
            NtStatusWindows::STATUS_PARTIAL_COPY => Some(0x8000000d),
            NtStatusWindows::STATUS_DEVICE_PAPER_EMPTY => Some(0x8000000e),
            NtStatusWindows::STATUS_DEVICE_POWERED_OFF => Some(0x8000000f),
            NtStatusWindows::STATUS_DEVICE_OFF_LINE => Some(0x80000010),
            NtStatusWindows::STATUS_DEVICE_BUSY => Some(0x80000011),
            NtStatusWindows::STATUS_NO_MORE_EAS => Some(0x80000012),
            NtStatusWindows::STATUS_INVALID_EA_NAME => Some(0x80000013),
            NtStatusWindows::STATUS_EA_LIST_INCONSISTENT => Some(0x80000014),
            NtStatusWindows::STATUS_INVALID_EA_FLAG => Some(0x80000015),
            NtStatusWindows::STATUS_VERIFY_REQUIRED => Some(0x80000016),
            NtStatusWindows::STATUS_EXTRANEOUS_INFORMATION => Some(0x80000017),
            NtStatusWindows::STATUS_RXACT_COMMIT_NECESSARY => Some(0x80000018),
            NtStatusWindows::STATUS_NO_MORE_ENTRIES => Some(0x8000001a),
            NtStatusWindows::STATUS_FILEMARK_DETECTED => Some(0x8000001b),
            NtStatusWindows::STATUS_MEDIA_CHANGED => Some(0x8000001c),
            NtStatusWindows::STATUS_BUS_RESET => Some(0x8000001d),
            NtStatusWindows::STATUS_END_OF_MEDIA => Some(0x8000001e),
            NtStatusWindows::STATUS_BEGINNING_OF_MEDIA => Some(0x8000001f),
            NtStatusWindows::STATUS_MEDIA_CHECK => Some(0x80000020),
            NtStatusWindows::STATUS_SETMARK_DETECTED => Some(0x80000021),
            NtStatusWindows::STATUS_NO_DATA_DETECTED => Some(0x80000022),
            NtStatusWindows::STATUS_REDIRECTOR_HAS_OPEN_HANDLES => Some(0x80000023),
            NtStatusWindows::STATUS_SERVER_HAS_OPEN_HANDLES => Some(0x80000024),
            NtStatusWindows::STATUS_ALREADY_DISCONNECTED => Some(0x80000025),
            NtStatusWindows::STATUS_LONGJUMP => Some(0x80000026),
            NtStatusWindows::STATUS_CLEANER_CARTRIDGE_INSTALLED => Some(0x80000027),
            NtStatusWindows::STATUS_PLUGPLAY_QUERY_VETOED => Some(0x80000028),
            NtStatusWindows::STATUS_UNWIND_CONSOLIDATE => Some(0x80000029),
            NtStatusWindows::STATUS_REGISTRY_HIVE_RECOVERED => Some(0x8000002a),
            NtStatusWindows::STATUS_DLL_MIGHT_BE_INSECURE => Some(0x8000002b),
            NtStatusWindows::STATUS_DLL_MIGHT_BE_INCOMPATIBLE => Some(0x8000002c),
            NtStatusWindows::STATUS_STOPPED_ON_SYMLINK => Some(0x8000002d),
            NtStatusWindows::STATUS_CANNOT_GRANT_REQUESTED_OPLOCK => Some(0x8000002e),
            NtStatusWindows::STATUS_NO_ACE_CONDITION => Some(0x8000002f),
            NtStatusWindows::STATUS_DEVICE_SUPPORT_IN_PROGRESS => Some(0x80000030),
            NtStatusWindows::STATUS_DEVICE_POWER_CYCLE_REQUIRED => Some(0x80000031),
            NtStatusWindows::STATUS_NO_WORK_DONE => Some(0x80000032),
            NtStatusWindows::STATUS_RETURN_ADDRESS_HIJACK_ATTEMPT => Some(0x80000033),
            NtStatusWindows::STATUS_DEVICE_REQUIRES_CLEANING => Some(0x80000288),
            NtStatusWindows::STATUS_DEVICE_DOOR_OPEN => Some(0x80000289),
            NtStatusWindows::STATUS_DATA_LOST_REPAIR => Some(0x80000803),
            NtStatusWindows::STATUS_GPIO_INTERRUPT_ALREADY_UNMASKED => Some(0x8000a127),
            NtStatusWindows::STATUS_CLOUD_FILE_PROPERTY_BLOB_CHECKSUM_MISMATCH => Some(0x8000cf00),
            NtStatusWindows::STATUS_CLOUD_FILE_PROPERTY_BLOB_TOO_LARGE => Some(0x8000cf04),
            NtStatusWindows::STATUS_CLOUD_FILE_TOO_MANY_PROPERTY_BLOBS => Some(0x8000cf05),
            NtStatusWindows::DBG_EXCEPTION_NOT_HANDLED => Some(0x80010001),
            _ => None,
        }
    }

    /// One slice of the symbol table.
    #[verifier::spinoff_prover]
    #[verifier::rlimit(100)]
    fn from_u32_part2(raw: u32) -> (r: Option<NtStatusWindows>)
        ensures
            r == NtStatusWindows::spec_from_u32_part2(raw),
    {
        match raw {
            0x80000007 => Some(NtStatusWindows::STATUS_WAKE_SYSTEM_DEBUGGER),
            0x8000000a => Some(NtStatusWindows::STATUS_HANDLES_CLOSED),
            0x8000000b => Some(NtStatusWindows::STATUS_NO_INHERITANCE),
            0x8000000c => Some(NtStatusWindows::STATUS_GUID_SUBSTITUTION_MADE),
            0x8000000d => Some(NtStatusWindows::STATUS_PARTIAL_COPY),
            0x8000000e => Some(NtStatusWindows::STATUS_DEVICE_PAPER_EMPTY),
            0x8000000f => Some(NtStatusWindows::STATUS_DEVICE_POWERED_OFF),
            0x80000010 => Some(NtStatusWindows::STATUS_DEVICE_OFF_LINE),
            0x80000011 => Some(NtStatusWindows::STATUS_DEVICE_BUSY),
            0x80000012 => Some(NtStatusWindows::STATUS_NO_MORE_EAS),
            0x80000013 => Some(NtStatusWindows::STATUS_INVALID_EA_NAME),
            0x80000014 => Some(NtStatusWindows::STATUS_EA_LIST_INCONSISTENT),
            0x80000015 => Some(NtStatusWindows::STATUS_INVALID_EA_FLAG),
            0x80000016 => Some(NtStatusWindows::STATUS_VERIFY_REQUIRED),
            0x80000017 => Some(NtStatusWindows::STATUS_EXTRANEOUS_INFORMATION),
            0x80000018 => Some(NtStatusWindows::STATUS_RXACT_COMMIT_NECESSARY),
            0x8000001a => Some(NtStatusWindows::STATUS_NO_MORE_ENTRIES),
            0x8000001b => Some(NtStatusWindows::STATUS_FILEMARK_DETECTED),
            0x8000001c => Some(NtStatusWindows::STATUS_MEDIA_CHANGED),
            0x8000001d => Some(NtStatusWindows::STATUS_BUS_RESET),
            0x8000001e => Some(NtStatusWindows::STATUS_END_OF_MEDIA),
            0x8000001f => Some(NtStatusWindows::STATUS_BEGINNING_OF_MEDIA),
            0x80000020 => Some(NtStatusWindows::STATUS_MEDIA_CHECK),
            0x80000021 => Some(NtStatusWindows::STATUS_SETMARK_DETECTED),
            0x80000022 => Some(NtStatusWindows::STATUS_NO_DATA_DETECTED),
            0x80000023 => Some(NtStatusWindows::STATUS_REDIRECTOR_HAS_OPEN_HANDLES),
            0x80000024 => Some(NtStatusWindows::STATUS_SERVER_HAS_OPEN_HANDLES),
            0x80000025 => Some(NtStatusWindows::STATUS_ALREADY_DISCONNECTED),
            0x80000026 => Some(NtStatusWindows::STATUS_LONGJUMP),
            0x80000027 => Some(NtStatusWindows::STATUS_CLEANER_CARTRIDGE_INSTALLED),
            0x80000028 => Some(NtStatusWindows::STATUS_PLUGPLAY_QUERY_VETOED),
            0x80000029 => Some(NtStatusWindows::STATUS_UNWIND_CONSOLIDATE),
            0x8000002a => Some(NtStatusWindows::STATUS_REGISTRY_HIVE_RECOVERED),
            0x8000002b => Some(NtStatusWindows::STATUS_DLL_MIGHT_BE_INSECURE),
            0x8000002c => Some(NtStatusWindows::STATUS_DLL_MIGHT_BE_INCOMPATIBLE),
            0x8000002d => Some(NtStatusWindows::STATUS_STOPPED_ON_SYMLINK),
            0x8000002e => Some(NtStatusWindows::STATUS_CANNOT_GRANT_REQUESTED_OPLOCK),
            0x8000002f => Some(NtStatusWindows::STATUS_NO_ACE_CONDITION),
            0x80000030 => Some(NtStatusWindows::STATUS_DEVICE_SUPPORT_IN_PROGRESS),
            0x80000031 => Some(NtStatusWindows::STATUS_DEVICE_POWER_CYCLE_REQUIRED),
            0x80000032 => Some(NtStatusWindows::STATUS_NO_WORK_DONE),
            0x80000033 => Some(NtStatusWindows::STATUS_RETURN_ADDRESS_HIJACK_ATTEMPT),
            0x80000288 => Some(NtStatusWindows::STATUS_DEVICE_REQUIRES_CLEANING),
            0x80000289 => Some(NtStatusWindows::STATUS_DEVICE_DOOR_OPEN),
            0x80000803 => Some(NtStatusWindows::STATUS_DATA_LOST_REPAIR),
            0x8000a127 => Some(NtStatusWindows::STATUS_GPIO_INTERRUPT_ALREADY_UNMASKED),
            0x8000cf00 => Some(NtStatusWindows::STATUS_CLOUD_FILE_PROPERTY_BLOB_CHECKSUM_MISMATCH),
            0x8000cf04 => Some(NtStatusWindows::STATUS_CLOUD_FILE_PROPERTY_BLOB_TOO_LARGE),
            0x8000cf05 => Some(NtStatusWindows::STATUS_CLOUD_FILE_TOO_MANY_PROPERTY_BLOBS),
            0x80010001 => Some(NtStatusWindows::DBG_EXCEPTION_NOT_HANDLED),
            _ => None,
        }
    }

    /// One slice of the symbol table: the raw value of this symbol,
    /// where this slice holds it.
    pub open spec fn spec_to_u32_part3(self) -> Option<u32> {
        match self {
            NtStatusWindows::STATUS_CLUSTER_NODE_ALREADY_UP => Some(0x80130001),
            NtStatusWindows::STATUS_CLUSTER_NODE_ALREADY_DOWN => Some(0x80130002),
            NtStatusWindows::STATUS_CLUSTER_NETWORK_ALREADY_ONLINE => Some(0x80130003),
            NtStatusWindows::STATUS_CLUSTER_NETWORK_ALREADY_OFFLINE => Some(0x80130004),
            NtStatusWindows::STATUS_CLUSTER_NODE_ALREADY_MEMBER => Some(0x80130005),
            NtStatusWindows::STATUS_COULD_NOT_RESIZE_LOG => Some(0x80190009),
            NtStatusWindows::STATUS_NO_TXF_METADATA => Some(0x80190029),
            NtStatusWindows::STATUS_CANT_RECOVER_WITH_HANDLE_OPEN => Some(0x80190031),
            NtStatusWindows::STATUS_TXF_METADATA_ALREADY_PRESENT => Some(0x80190041),
            NtStatusWindows::STATUS_TRANSACTION_SCOPE_CALLBACKS_NOT_SET => Some(0x80190042),
            NtStatusWindows::STATUS_VIDEO_HUNG_DISPLAY_DRIVER_THREAD_RECOVERED => Some(0x801b00eb),
            NtStatusWindows::STATUS_FLT_BUFFER_TOO_SMALL => Some(0x801c0001),
            NtStatusWindows::STATUS_FVE_PARTIAL_METADATA => Some(0x80210001),
            NtStatusWindows::STATUS_FVE_TRANSIENT_STATE => Some(0x80210002),
            NtStatusWindows::STATUS_VID_REMOTE_NODE_PARENT_GPA_PAGES_USED => Some(0x80370001),
            NtStatusWindows::STATUS_VOLMGR_INCOMPLETE_REGENERATION => Some(0x80380001),
            NtStatusWindows::STATUS_VOLMGR_INCOMPLETE_DISK_MIGRATION => Some(0x80380002),
            NtStatusWindows::STATUS_BCD_NOT_ALL_ENTRIES_IMPORTED => Some(0x80390001),
            NtStatusWindows::STATUS_BCD_NOT_ALL_ENTRIES_SYNCHRONIZED => Some(0x80390003),
            NtStatusWindows::STATUS_QUERY_STORAGE_ERROR => Some(0x803a0001),
            NtStatusWindows::STATUS_GDI_HANDLE_LEAK => Some(0x803f0001),
            NtStatusWindows::STATUS_SECUREBOOT_NOT_ENABLED => Some(0x80430006),
            NtStatusWindows::STATUS_UNSUCCESSFUL => Some(0xc0000001),
            NtStatusWindows::STATUS_NOT_IMPLEMENTED => Some(0xc0000002),
            NtStatusWindows::STATUS_INVALID_INFO_CLASS => Some(0xc0000003),
            NtStatusWindows::STATUS_INFO_LENGTH_MISMATCH => Some(0xc0000004),
            NtStatusWindows::STATUS_ACCESS_VIOLATION => Some(0xc0000005),
            NtStatusWindows::STATUS_IN_PAGE_ERROR => Some(0xc0000006),
            NtStatusWindows::STATUS_PAGEFILE_QUOTA => Some(0xc0000007),
            NtStatusWindows::STATUS_INVALID_HANDLE => Some(0xc0000008),
            NtStatusWindows::STATUS_BAD_INITIAL_STACK => Some(0xc0000009),
            NtStatusWindows::STATUS_BAD_INITIAL_PC => Some(0xc000000a),
            NtStatusWindows::STATUS_INVALID_CID => Some(0xc000000b),
            NtStatusWindows::STATUS_TIMER_NOT_CANCELED => Some(0xc000000c),
            NtStatusWindows::STATUS_INVALID_PARAMETER => Some(0xc000000d),
            NtStatusWindows::STATUS_NO_SUCH_DEVICE => Some(0xc000000e),
            NtStatusWindows::STATUS_NO_SUCH_FILE => Some(0xc000000f),
            NtStatusWindows::STATUS_INVALID_DEVICE_REQUEST => Some(0xc0000010),
            NtStatusWindows::STATUS_END_OF_FILE => Some(0xc0000011),
            NtStatusWindows::STATUS_WRONG_VOLUME => Some(0xc0000012),
            NtStatusWindows::STATUS_NO_MEDIA_IN_DEVICE => Some(0xc0000013),
            NtStatusWindows::STATUS_UNRECOGNIZED_MEDIA => Some(0xc0000014),
            NtStatusWindows::STATUS_NONEXISTENT_SECTOR => Some(0xc0000015),
            NtStatusWindows::STATUS_MORE_PROCESSING_REQUIRED => Some(0xc0000016),
            NtStatusWindows::STATUS_NO_MEMORY => Some(0xc0000017),
            NtStatusWindows::STATUS_CONFLICTING_ADDRESSES => Some(0xc0000018),
            NtStatusWindows::STATUS_NOT_MAPPED_VIEW => Some(0xc0000019),
            NtStatusWindows::STATUS_UNABLE_TO_FREE_VM => Some(0xc000001a),
            NtStatusWindows::STATUS_UNABLE_TO_DELETE_SECTION => Some(0xc000001b),
            NtStatusWindows::STATUS_INVALID_SYSTEM_SERVICE => Some(0xc000001c),
            _ => None,
        }
    }

    /// One slice of the symbol table: the symbol this slice gives a
    /// raw value, where it holds one.
    pub open spec fn spec_from_u32_part3(raw: u32) -> Option<NtStatusWindows> {
        match raw {
            0x80130001 => Some(NtStatusWindows::STATUS_CLUSTER_NODE_ALREADY_UP),
            0x80130002 => Some(NtStatusWindows::STATUS_CLUSTER_NODE_ALREADY_DOWN),
            0x80130003 => Some(NtStatusWindows::STATUS_CLUSTER_NETWORK_ALREADY_ONLINE),
            0x80130004 => Some(NtStatusWindows::STATUS_CLUSTER_NETWORK_ALREADY_OFFLINE),
            0x80130005 => Some(NtStatusWindows::STATUS_CLUSTER_NODE_ALREADY_MEMBER),
            0x80190009 => Some(NtStatusWindows::STATUS_COULD_NOT_RESIZE_LOG),
            0x80190029 => Some(NtStatusWindows::STATUS_NO_TXF_METADATA),
            0x80190031 => Some(NtStatusWindows::STATUS_CANT_RECOVER_WITH_HANDLE_OPEN),
            0x80190041 => Some(NtStatusWindows::STATUS_TXF_METADATA_ALREADY_PRESENT),
            0x80190042 => Some(NtStatusWindows::STATUS_TRANSACTION_SCOPE_CALLBACKS_NOT_SET),
            0x801b00eb => Some(NtStatusWindows::STATUS_VIDEO_HUNG_DISPLAY_DRIVER_THREAD_RECOVERED),
            0x801c0001 => Some(NtStatusWindows::STATUS_FLT_BUFFER_TOO_SMALL),
            0x80210001 => Some(NtStatusWindows::STATUS_FVE_PARTIAL_METADATA),
            0x80210002 => Some(NtStatusWindows::STATUS_FVE_TRANSIENT_STATE),
            0x80370001 => Some(NtStatusWindows::STATUS_VID_REMOTE_NODE_PARENT_GPA_PAGES_USED),
            0x80380001 => Some(NtStatusWindows::STATUS_VOLMGR_INCOMPLETE_REGENERATION),
            0x80380002 => Some(NtStatusWindows::STATUS_VOLMGR_INCOMPLETE_DISK_MIGRATION),
            0x80390001 => Some(NtStatusWindows::STATUS_BCD_NOT_ALL_ENTRIES_IMPORTED),
            0x80390003 => Some(NtStatusWindows::STATUS_BCD_NOT_ALL_ENTRIES_SYNCHRONIZED),
            0x803a0001 => Some(NtStatusWindows::STATUS_QUERY_STORAGE_ERROR),
            0x803f0001 => Some(NtStatusWindows::STATUS_GDI_HANDLE_LEAK),
            0x80430006 => Some(NtStatusWindows::STATUS_SECUREBOOT_NOT_ENABLED),
            0xc0000001 => Some(NtStatusWindows::STATUS_UNSUCCESSFUL),
            0xc0000002 => Some(NtStatusWindows::STATUS_NOT_IMPLEMENTED),
            0xc0000003 => Some(NtStatusWindows::STATUS_INVALID_INFO_CLASS),
            0xc0000004 => Some(NtStatusWindows::STATUS_INFO_LENGTH_MISMATCH),
            0xc0000005 => Some(NtStatusWindows::STATUS_ACCESS_VIOLATION),
            0xc0000006 => Some(NtStatusWindows::STATUS_IN_PAGE_ERROR),
            0xc0000007 => Some(NtStatusWindows::STATUS_PAGEFILE_QUOTA),
            0xc0000008 => Some(NtStatusWindows::STATUS_INVALID_HANDLE),
            0xc0000009 => Some(NtStatusWindows::STATUS_BAD_INITIAL_STACK),
            0xc000000a => Some(NtStatusWindows::STATUS_BAD_INITIAL_PC),
            0xc000000b => Some(NtStatusWindows::STATUS_INVALID_CID),
            0xc000000c => Some(NtStatusWindows::STATUS_TIMER_NOT_CANCELED),
            0xc000000d => Some(NtStatusWindows::STATUS_INVALID_PARAMETER),
            0xc000000e => Some(NtStatusWindows::STATUS_NO_SUCH_DEVICE),
            0xc000000f => Some(NtStatusWindows::STATUS_NO_SUCH_FILE),
            0xc0000010 => Some(NtStatusWindows::STATUS_INVALID_DEVICE_REQUEST),
            0xc0000011 => Some(NtStatusWindows::STATUS_END_OF_FILE),
            0xc0000012 => Some(NtStatusWindows::STATUS_WRONG_VOLUME),
            0xc0000013 => Some(NtStatusWindows::STATUS_NO_MEDIA_IN_DEVICE),
            0xc0000014 => Some(NtStatusWindows::STATUS_UNRECOGNIZED_MEDIA),
            0xc0000015 => Some(NtStatusWindows::STATUS_NONEXISTENT_SECTOR),
            0xc0000016 => Some(NtStatusWindows::STATUS_MORE_PROCESSING_REQUIRED),
            0xc0000017 => Some(NtStatusWindows::STATUS_NO_MEMORY),
            0xc0000018 => Some(NtStatusWindows::STATUS_CONFLICTING_ADDRESSES),
            0xc0000019 => Some(NtStatusWindows::STATUS_NOT_MAPPED_VIEW),
            0xc000001a => Some(NtStatusWindows::STATUS_UNABLE_TO_FREE_VM),
            0xc000001b => Some(NtStatusWindows::STATUS_UNABLE_TO_DELETE_SECTION),
            0xc000001c => Some(NtStatusWindows::STATUS_INVALID_SYSTEM_SERVICE),
            _ => None,
        }
    }

    /// One slice of the symbol table.
    #[verifier::spinoff_prover]
    #[verifier::rlimit(100)]
    fn to_u32_part3(self) -> (r: Option<u32>)
        ensures
            r == self.spec_to_u32_part3(),
    {
        match self {
            NtStatusWindows::STATUS_CLUSTER_NODE_ALREADY_UP => Some(0x80130001),
            NtStatusWindows::STATUS_CLUSTER_NODE_ALREADY_DOWN => Some(0x80130002),
            NtStatusWindows::STATUS_CLUSTER_NETWORK_ALREADY_ONLINE => Some(0x80130003),
            NtStatusWindows::STATUS_CLUSTER_NETWORK_ALREADY_OFFLINE => Some(0x80130004),
            NtStatusWindows::STATUS_CLUSTER_NODE_ALREADY_MEMBER => Some(0x80130005),
            NtStatusWindows::STATUS_COULD_NOT_RESIZE_LOG => Some(0x80190009),
            NtStatusWindows::STATUS_NO_TXF_METADATA => Some(0x80190029),
            NtStatusWindows::STATUS_CANT_RECOVER_WITH_HANDLE_OPEN => Some(0x80190031),
            NtStatusWindows::STATUS_TXF_METADATA_ALREADY_PRESENT => Some(0x80190041),
            NtStatusWindows::STATUS_TRANSACTION_SCOPE_CALLBACKS_NOT_SET => Some(0x80190042),
            NtStatusWindows::STATUS_VIDEO_HUNG_DISPLAY_DRIVER_THREAD_RECOVERED => Some(0x801b00eb),
            NtStatusWindows::STATUS_FLT_BUFFER_TOO_SMALL => Some(0x801c0001),
            NtStatusWindows::STATUS_FVE_PARTIAL_METADATA => Some(0x80210001),
            NtStatusWindows::STATUS_FVE_TRANSIENT_STATE => Some(0x80210002),
            NtStatusWindows::STATUS_VID_REMOTE_NODE_PARENT_GPA_PAGES_USED => Some(0x80370001),
            NtStatusWindows::STATUS_VOLMGR_INCOMPLETE_REGENERATION => Some(0x80380001),
            NtStatusWindows::STATUS_VOLMGR_INCOMPLETE_DISK_MIGRATION => Some(0x80380002),
            NtStatusWindows::STATUS_BCD_NOT_ALL_ENTRIES_IMPORTED => Some(0x80390001),
            NtStatusWindows::STATUS_BCD_NOT_ALL_ENTRIES_SYNCHRONIZED => Some(0x80390003),
            NtStatusWindows::STATUS_QUERY_STORAGE_ERROR => Some(0x803a0001),
            NtStatusWindows::STATUS_GDI_HANDLE_LEAK => Some(0x803f0001),
            NtStatusWindows::STATUS_SECUREBOOT_NOT_ENABLED => Some(0x80430006),
            NtStatusWindows::STATUS_UNSUCCESSFUL => Some(0xc0000001),
            NtStatusWindows::STATUS_NOT_IMPLEMENTED => Some(0xc0000002),
            NtStatusWindows::STATUS_INVALID_INFO_CLASS => Some(0xc0000003),
            NtStatusWindows::STATUS_INFO_LENGTH_MISMATCH => Some(0xc0000004),
            NtStatusWindows::STATUS_ACCESS_VIOLATION => Some(0xc0000005),
            NtStatusWindows::STATUS_IN_PAGE_ERROR => Some(0xc0000006),
            NtStatusWindows::STATUS_PAGEFILE_QUOTA => Some(0xc0000007),
            NtStatusWindows::STATUS_INVALID_HANDLE => Some(0xc0000008),
            NtStatusWindows::STATUS_BAD_INITIAL_STACK => Some(0xc0000009),
            NtStatusWindows::STATUS_BAD_INITIAL_PC => Some(0xc000000a),
            NtStatusWindows::STATUS_INVALID_CID => Some(0xc000000b),
            NtStatusWindows::STATUS_TIMER_NOT_CANCELED => Some(0xc000000c),
            NtStatusWindows::STATUS_INVALID_PARAMETER => Some(0xc000000d),
            NtStatusWindows::STATUS_NO_SUCH_DEVICE => Some(0xc000000e),
            NtStatusWindows::STATUS_NO_SUCH_FILE => Some(0xc000000f),
            NtStatusWindows::STATUS_INVALID_DEVICE_REQUEST => Some(0xc0000010),
            NtStatusWindows::STATUS_END_OF_FILE => Some(0xc0000011),
            NtStatusWindows::STATUS_WRONG_VOLUME => Some(0xc0000012),
            NtStatusWindows::STATUS_NO_MEDIA_IN_DEVICE => Some(0xc0000013),
            NtStatusWindows::STATUS_UNRECOGNIZED_MEDIA => Some(0xc0000014),
            NtStatusWindows::STATUS_NONEXISTENT_SECTOR => Some(0xc0000015),
            NtStatusWindows::STATUS_MORE_PROCESSING_REQUIRED => Some(0xc0000016),
            NtStatusWindows::STATUS_NO_MEMORY => Some(0xc0000017),
            NtStatusWindows::STATUS_CONFLICTING_ADDRESSES => Some(0xc0000018),
            NtStatusWindows::STATUS_NOT_MAPPED_VIEW => Some(0xc0000019),
            NtStatusWindows::STATUS_UNABLE_TO_FREE_VM => Some(0xc000001a),
            NtStatusWindows::STATUS_UNABLE_TO_DELETE_SECTION => Some(0xc000001b),
            NtStatusWindows::STATUS_INVALID_SYSTEM_SERVICE => Some(0xc000001c),
            _ => None,
        }
    }

    /// One slice of the symbol table.
    #[verifier::spinoff_prover]
    #[verifier::rlimit(100)]
    fn from_u32_part3(raw: u32) -> (r: Option<NtStatusWindows>)
        ensures
            r == NtStatusWindows::spec_from_u32_part3(raw),
    {
        match raw {
            0x80130001 => Some(NtStatusWindows::STATUS_CLUSTER_NODE_ALREADY_UP),
            0x80130002 => Some(NtStatusWindows::STATUS_CLUSTER_NODE_ALREADY_DOWN),
            0x80130003 => Some(NtStatusWindows::STATUS_CLUSTER_NETWORK_ALREADY_ONLINE),
            0x80130004 => Some(NtStatusWindows::STATUS_CLUSTER_NETWORK_ALREADY_OFFLINE),
            0x80130005 => Some(NtStatusWindows::STATUS_CLUSTER_NODE_ALREADY_MEMBER),
            0x80190009 => Some(NtStatusWindows::STATUS_COULD_NOT_RESIZE_LOG),
            0x80190029 => Some(NtStatusWindows::STATUS_NO_TXF_METADATA),
            0x80190031 => Some(NtStatusWindows::STATUS_CANT_RECOVER_WITH_HANDLE_OPEN),
            0x80190041 => Some(NtStatusWindows::STATUS_TXF_METADATA_ALREADY_PRESENT),
            0x80190042 => Some(NtStatusWindows::STATUS_TRANSACTION_SCOPE_CALLBACKS_NOT_SET),
            0x801b00eb => Some(NtStatusWindows::STATUS_VIDEO_HUNG_DISPLAY_DRIVER_THREAD_RECOVERED),
            0x801c0001 => Some(NtStatusWindows::STATUS_FLT_BUFFER_TOO_SMALL),
            0x80210001 => Some(NtStatusWindows::STATUS_FVE_PARTIAL_METADATA),
            0x80210002 => Some(NtStatusWindows::STATUS_FVE_TRANSIENT_STATE),
            0x80370001 => Some(NtStatusWindows::STATUS_VID_REMOTE_NODE_PARENT_GPA_PAGES_USED),
            0x80380001 => Some(NtStatusWindows::STATUS_VOLMGR_INCOMPLETE_REGENERATION),
            0x80380002 => Some(NtStatusWindows::STATUS_VOLMGR_INCOMPLETE_DISK_MIGRATION),
            0x80390001 => Some(NtStatusWindows::STATUS_BCD_NOT_ALL_ENTRIES_IMPORTED),
            0x80390003 => Some(NtStatusWindows::STATUS_BCD_NOT_ALL_ENTRIES_SYNCHRONIZED),
            0x803a0001 => Some(NtStatusWindows::STATUS_QUERY_STORAGE_ERROR),
            0x803f0001 => Some(NtStatusWindows::STATUS_GDI_HANDLE_LEAK),
            0x80430006 => Some(NtStatusWindows::STATUS_SECUREBOOT_NOT_ENABLED),
            0xc0000001 => Some(NtStatusWindows::STATUS_UNSUCCESSFUL),
            0xc0000002 => Some(NtStatusWindows::STATUS_NOT_IMPLEMENTED),
            0xc0000003 => Some(NtStatusWindows::STATUS_INVALID_INFO_CLASS),
            0xc0000004 => Some(NtStatusWindows::STATUS_INFO_LENGTH_MISMATCH),
            0xc0000005 => Some(NtStatusWindows::STATUS_ACCESS_VIOLATION),
            0xc0000006 => Some(NtStatusWindows::STATUS_IN_PAGE_ERROR),
            0xc0000007 => Some(NtStatusWindows::STATUS_PAGEFILE_QUOTA),
            0xc0000008 => Some(NtStatusWindows::STATUS_INVALID_HANDLE),
            0xc0000009 => Some(NtStatusWindows::STATUS_BAD_INITIAL_STACK),
            0xc000000a => Some(NtStatusWindows::STATUS_BAD_INITIAL_PC),
            0xc000000b => Some(NtStatusWindows::STATUS_INVALID_CID),
            0xc000000c => Some(NtStatusWindows::STATUS_TIMER_NOT_CANCELED),
            0xc000000d => Some(NtStatusWindows::STATUS_INVALID_PARAMETER),
            0xc000000e => Some(NtStatusWindows::STATUS_NO_SUCH_DEVICE),
            0xc000000f => Some(NtStatusWindows::STATUS_NO_SUCH_FILE),
            0xc0000010 => Some(NtStatusWindows::STATUS_INVALID_DEVICE_REQUEST),
            0xc0000011 => Some(NtStatusWindows::STATUS_END_OF_FILE),
            0xc0000012 => Some(NtStatusWindows::STATUS_WRONG_VOLUME),
            0xc0000013 => Some(NtStatusWindows::STATUS_NO_MEDIA_IN_DEVICE),
            0xc0000014 => Some(NtStatusWindows::STATUS_UNRECOGNIZED_MEDIA),
            0xc0000015 => Some(NtStatusWindows::STATUS_NONEXISTENT_SECTOR),
            0xc0000016 => Some(NtStatusWindows::STATUS_MORE_PROCESSING_REQUIRED),
            0xc0000017 => Some(NtStatusWindows::STATUS_NO_MEMORY),
            0xc0000018 => Some(NtStatusWindows::STATUS_CONFLICTING_ADDRESSES),
            0xc0000019 => Some(NtStatusWindows::STATUS_NOT_MAPPED_VIEW),
            0xc000001a => Some(NtStatusWindows::STATUS_UNABLE_TO_FREE_VM),
            0xc000001b => Some(NtStatusWindows::STATUS_UNABLE_TO_DELETE_SECTION),
            0xc000001c => Some(NtStatusWindows::STATUS_INVALID_SYSTEM_SERVICE),
            _ => None,
        }
    }

    /// One slice of the symbol table: the raw value of this symbol,
    /// where this slice holds it.
    pub open spec fn spec_to_u32_part4(self) -> Option<u32> {
        match self {
            NtStatusWindows::STATUS_ILLEGAL_INSTRUCTION => Some(0xc000001d),
            NtStatusWindows::STATUS_INVALID_LOCK_SEQUENCE => Some(0xc000001e),
            NtStatusWindows::STATUS_INVALID_VIEW_SIZE => Some(0xc000001f),
            NtStatusWindows::STATUS_INVALID_FILE_FOR_SECTION => Some(0xc0000020),
            NtStatusWindows::STATUS_ALREADY_COMMITTED => Some(0xc0000021),
            NtStatusWindows::STATUS_ACCESS_DENIED => Some(0xc0000022),
            NtStatusWindows::STATUS_BUFFER_TOO_SMALL => Some(0xc0000023),
            NtStatusWindows::STATUS_OBJECT_TYPE_MISMATCH => Some(0xc0000024),
            NtStatusWindows::STATUS_NONCONTINUABLE_EXCEPTION => Some(0xc0000025),
            NtStatusWindows::STATUS_INVALID_DISPOSITION => Some(0xc0000026),
            NtStatusWindows::STATUS_UNWIND => Some(0xc0000027),
            NtStatusWindows::STATUS_BAD_STACK => Some(0xc0000028),
            NtStatusWindows::STATUS_INVALID_UNWIND_TARGET => Some(0xc0000029),
            NtStatusWindows::STATUS_NOT_LOCKED => Some(0xc000002a),
            NtStatusWindows::STATUS_PARITY_ERROR => Some(0xc000002b),
            NtStatusWindows::STATUS_UNABLE_TO_DECOMMIT_VM => Some(0xc000002c),
            NtStatusWindows::STATUS_NOT_COMMITTED => Some(0xc000002d),
            NtStatusWindows::STATUS_INVALID_PORT_ATTRIBUTES => Some(0xc000002e),
            NtStatusWindows::STATUS_PORT_MESSAGE_TOO_LONG => Some(0xc000002f),
            NtStatusWindows::STATUS_INVALID_PARAMETER_MIX => Some(0xc0000030),
            NtStatusWindows::STATUS_INVALID_QUOTA_LOWER => Some(0xc0000031),
            NtStatusWindows::STATUS_DISK_CORRUPT_ERROR => Some(0xc0000032),
            NtStatusWindows::STATUS_OBJECT_NAME_INVALID => Some(0xc0000033),
            NtStatusWindows::STATUS_OBJECT_NAME_NOT_FOUND => Some(0xc0000034),
            NtStatusWindows::STATUS_OBJECT_NAME_COLLISION => Some(0xc0000035),
            NtStatusWindows::STATUS_PORT_DO_NOT_DISTURB => Some(0xc0000036),
            NtStatusWindows::STATUS_PORT_DISCONNECTED => Some(0xc0000037),
            NtStatusWindows::STATUS_DEVICE_ALREADY_ATTACHED => Some(0xc0000038),
            NtStatusWindows::STATUS_OBJECT_PATH_INVALID => Some(0xc0000039),
            NtStatusWindows::STATUS_OBJECT_PATH_NOT_FOUND => Some(0xc000003a),
            NtStatusWindows::STATUS_OBJECT_PATH_SYNTAX_BAD => Some(0xc000003b),
            NtStatusWindows::STATUS_DATA_OVERRUN => Some(0xc000003c),
            NtStatusWindows::STATUS_DATA_LATE_ERROR => Some(0xc000003d),
            NtStatusWindows::STATUS_DATA_ERROR => Some(0xc000003e),
            NtStatusWindows::STATUS_CRC_ERROR => Some(0xc000003f),
            NtStatusWindows::STATUS_SECTION_TOO_BIG => Some(0xc0000040),
            NtStatusWindows::STATUS_PORT_CONNECTION_REFUSED => Some(0xc0000041),
            NtStatusWindows::STATUS_INVALID_PORT_HANDLE => Some(0xc0000042),
            NtStatusWindows::STATUS_SHARING_VIOLATION => Some(0xc0000043),
            NtStatusWindows::STATUS_QUOTA_EXCEEDED => Some(0xc0000044),
            NtStatusWindows::STATUS_INVALID_PAGE_PROTECTION => Some(0xc0000045),
            NtStatusWindows::STATUS_MUTANT_NOT_OWNED => Some(0xc0000046),
            NtStatusWindows::STATUS_SEMAPHORE_LIMIT_EXCEEDED => Some(0xc0000047),
            NtStatusWindows::STATUS_PORT_ALREADY_SET => Some(0xc0000048),
            NtStatusWindows::STATUS_SECTION_NOT_IMAGE => Some(0xc0000049),
            NtStatusWindows::STATUS_SUSPEND_COUNT_EXCEEDED => Some(0xc000004a),
            NtStatusWindows::STATUS_THREAD_IS_TERMINATING => Some(0xc000004b),
            NtStatusWindows::STATUS_BAD_WORKING_SET_LIMIT => Some(0xc000004c),
            NtStatusWindows::STATUS_INCOMPATIBLE_FILE_MAP => Some(0xc000004d),
            NtStatusWindows::STATUS_SECTION_PROTECTION => Some(0xc000004e),
            _ => None,
        }
    }

    /// One slice of the symbol table: the symbol this slice gives a
    /// raw value, where it holds one.
    pub open spec fn spec_from_u32_part4(raw: u32) -> Option<NtStatusWindows> {
        match raw {
            0xc000001d => Some(NtStatusWindows::STATUS_ILLEGAL_INSTRUCTION),
            0xc000001e => Some(NtStatusWindows::STATUS_INVALID_LOCK_SEQUENCE),
            0xc000001f => Some(NtStatusWindows::STATUS_INVALID_VIEW_SIZE),
            0xc0000020 => Some(NtStatusWindows::STATUS_INVALID_FILE_FOR_SECTION),
            0xc0000021 => Some(NtStatusWindows::STATUS_ALREADY_COMMITTED),
            0xc0000022 => Some(NtStatusWindows::STATUS_ACCESS_DENIED),
            0xc0000023 => Some(NtStatusWindows::STATUS_BUFFER_TOO_SMALL),
            0xc0000024 => Some(NtStatusWindows::STATUS_OBJECT_TYPE_MISMATCH),
            0xc0000025 => Some(NtStatusWindows::STATUS_NONCONTINUABLE_EXCEPTION),
            0xc0000026 => Some(NtStatusWindows::STATUS_INVALID_DISPOSITION),
            0xc0000027 => Some(NtStatusWindows::STATUS_UNWIND),
            0xc0000028 => Some(NtStatusWindows::STATUS_BAD_STACK),
            0xc0000029 => Some(NtStatusWindows::STATUS_INVALID_UNWIND_TARGET),
            0xc000002a => Some(NtStatusWindows::STATUS_NOT_LOCKED),
            0xc000002b => Some(NtStatusWindows::STATUS_PARITY_ERROR),
            0xc000002c => Some(NtStatusWindows::STATUS_UNABLE_TO_DECOMMIT_VM),
            0xc000002d => Some(NtStatusWindows::STATUS_NOT_COMMITTED),
            0xc000002e => Some(NtStatusWindows::STATUS_INVALID_PORT_ATTRIBUTES),
            0xc000002f => Some(NtStatusWindows::STATUS_PORT_MESSAGE_TOO_LONG),
            0xc0000030 => Some(NtStatusWindows::STATUS_INVALID_PARAMETER_MIX),
            0xc0000031 => Some(NtStatusWindows::STATUS_INVALID_QUOTA_LOWER),
            0xc0000032 => Some(NtStatusWindows::STATUS_DISK_CORRUPT_ERROR),
            0xc0000033 => Some(NtStatusWindows::STATUS_OBJECT_NAME_INVALID),
            0xc0000034 => Some(NtStatusWindows::STATUS_OBJECT_NAME_NOT_FOUND),
            0xc0000035 => Some(NtStatusWindows::STATUS_OBJECT_NAME_COLLISION),
            0xc0000036 => Some(NtStatusWindows::STATUS_PORT_DO_NOT_DISTURB),
            0xc0000037 => Some(NtStatusWindows::STATUS_PORT_DISCONNECTED),
            0xc0000038 => Some(NtStatusWindows::STATUS_DEVICE_ALREADY_ATTACHED),
            0xc0000039 => Some(NtStatusWindows::STATUS_OBJECT_PATH_INVALID),
            0xc000003a => Some(NtStatusWindows::STATUS_OBJECT_PATH_NOT_FOUND),
            0xc000003b => Some(NtStatusWindows::STATUS_OBJECT_PATH_SYNTAX_BAD),
            0xc000003c => Some(NtStatusWindows::STATUS_DATA_OVERRUN),
            0xc000003d => Some(NtStatusWindows::STATUS_DATA_LATE_ERROR),
            0xc000003e => Some(NtStatusWindows::STATUS_DATA_ERROR),
            0xc000003f => Some(NtStatusWindows::STATUS_CRC_ERROR),
            0xc0000040 => Some(NtStatusWindows::STATUS_SECTION_TOO_BIG),
            0xc0000041 => Some(NtStatusWindows::STATUS_PORT_CONNECTION_REFUSED),
            0xc0000042 => Some(NtStatusWindows::STATUS_INVALID_PORT_HANDLE),
            0xc0000043 => Some(NtStatusWindows::STATUS_SHARING_VIOLATION),
            0xc0000044 => Some(NtStatusWindows::STATUS_QUOTA_EXCEEDED),
            0xc0000045 => Some(NtStatusWindows::STATUS_INVALID_PAGE_PROTECTION),
            0xc0000046 => Some(NtStatusWindows::STATUS_MUTANT_NOT_OWNED),
            0xc0000047 => Some(NtStatusWindows::STATUS_SEMAPHORE_LIMIT_EXCEEDED),
            0xc0000048 => Some(NtStatusWindows::STATUS_PORT_ALREADY_SET),
            0xc0000049 => Some(NtStatusWindows::STATUS_SECTION_NOT_IMAGE),
            0xc000004a => Some(NtStatusWindows::STATUS_SUSPEND_COUNT_EXCEEDED),
            0xc000004b => Some(NtStatusWindows::STATUS_THREAD_IS_TERMINATING),
            0xc000004c => Some(NtStatusWindows::STATUS_BAD_WORKING_SET_LIMIT),
            0xc000004d => Some(NtStatusWindows::STATUS_INCOMPATIBLE_FILE_MAP),
            0xc000004e => Some(NtStatusWindows::STATUS_SECTION_PROTECTION),
            _ => None,
        }
    }

    /// One slice of the symbol table.
    #[verifier::spinoff_prover]
    #[verifier::rlimit(100)]
    fn to_u32_part4(self) -> (r: Option<u32>)
        ensures
            r == self.spec_to_u32_part4(),
    {
        match self {
            NtStatusWindows::STATUS_ILLEGAL_INSTRUCTION => Some(0xc000001d),
            NtStatusWindows::STATUS_INVALID_LOCK_SEQUENCE => Some(0xc000001e),
            NtStatusWindows::STATUS_INVALID_VIEW_SIZE => Some(0xc000001f),
            NtStatusWindows::STATUS_INVALID_FILE_FOR_SECTION => Some(0xc0000020),
            NtStatusWindows::STATUS_ALREADY_COMMITTED => Some(0xc0000021),
            NtStatusWindows::STATUS_ACCESS_DENIED => Some(0xc0000022),
            NtStatusWindows::STATUS_BUFFER_TOO_SMALL => Some(0xc0000023),
            NtStatusWindows::STATUS_OBJECT_TYPE_MISMATCH => Some(0xc0000024),
            NtStatusWindows::STATUS_NONCONTINUABLE_EXCEPTION => Some(0xc0000025),
            NtStatusWindows::STATUS_INVALID_DISPOSITION => Some(0xc0000026),
            NtStatusWindows::STATUS_UNWIND => Some(0xc0000027),
            NtStatusWindows::STATUS_BAD_STACK => Some(0xc0000028),
            NtStatusWindows::STATUS_INVALID_UNWIND_TARGET => Some(0xc0000029),
            NtStatusWindows::STATUS_NOT_LOCKED => Some(0xc000002a),
            NtStatusWindows::STATUS_PARITY_ERROR => Some(0xc000002b),
            NtStatusWindows::STATUS_UNABLE_TO_DECOMMIT_VM => Some(0xc000002c),
            NtStatusWindows::STATUS_NOT_COMMITTED => Some(0xc000002d),
            NtStatusWindows::STATUS_INVALID_PORT_ATTRIBUTES => Some(0xc000002e),
            NtStatusWindows::STATUS_PORT_MESSAGE_TOO_LONG => Some(0xc000002f),
            NtStatusWindows::STATUS_INVALID_PARAMETER_MIX => Some(0xc0000030),
            NtStatusWindows::STATUS_INVALID_QUOTA_LOWER => Some(0xc0000031),
            NtStatusWindows::STATUS_DISK_CORRUPT_ERROR => Some(0xc0000032),
            NtStatusWindows::STATUS_OBJECT_NAME_INVALID => Some(0xc0000033),
            NtStatusWindows::STATUS_OBJECT_NAME_NOT_FOUND => Some(0xc0000034),
            NtStatusWindows::STATUS_OBJECT_NAME_COLLISION => Some(0xc0000035),
            NtStatusWindows::STATUS_PORT_DO_NOT_DISTURB => Some(0xc0000036),
            NtStatusWindows::STATUS_PORT_DISCONNECTED => Some(0xc0000037),
            NtStatusWindows::STATUS_DEVICE_ALREADY_ATTACHED => Some(0xc0000038),
            NtStatusWindows::STATUS_OBJECT_PATH_INVALID => Some(0xc0000039),
            NtStatusWindows::STATUS_OBJECT_PATH_NOT_FOUND => Some(0xc000003a),
            NtStatusWindows::STATUS_OBJECT_PATH_SYNTAX_BAD => Some(0xc000003b),
            NtStatusWindows::STATUS_DATA_OVERRUN => Some(0xc000003c),
            NtStatusWindows::STATUS_DATA_LATE_ERROR => Some(0xc000003d),
            NtStatusWindows::STATUS_DATA_ERROR => Some(0xc000003e),
            NtStatusWindows::STATUS_CRC_ERROR => Some(0xc000003f),
            NtStatusWindows::STATUS_SECTION_TOO_BIG => Some(0xc0000040),
            NtStatusWindows::STATUS_PORT_CONNECTION_REFUSED => Some(0xc0000041),
            NtStatusWindows::STATUS_INVALID_PORT_HANDLE => Some(0xc0000042),
            NtStatusWindows::STATUS_SHARING_VIOLATION => Some(0xc0000043),
            NtStatusWindows::STATUS_QUOTA_EXCEEDED => Some(0xc0000044),
            NtStatusWindows::STATUS_INVALID_PAGE_PROTECTION => Some(0xc0000045),
            NtStatusWindows::STATUS_MUTANT_NOT_OWNED => Some(0xc0000046),
            NtStatusWindows::STATUS_SEMAPHORE_LIMIT_EXCEEDED => Some(0xc0000047),
            NtStatusWindows::STATUS_PORT_ALREADY_SET => Some(0xc0000048),
            NtStatusWindows::STATUS_SECTION_NOT_IMAGE => Some(0xc0000049),
            NtStatusWindows::STATUS_SUSPEND_COUNT_EXCEEDED => Some(0xc000004a),
            NtStatusWindows::STATUS_THREAD_IS_TERMINATING => Some(0xc000004b),
            NtStatusWindows::STATUS_BAD_WORKING_SET_LIMIT => Some(0xc000004c),
            NtStatusWindows::STATUS_INCOMPATIBLE_FILE_MAP => Some(0xc000004d),
            NtStatusWindows::STATUS_SECTION_PROTECTION => Some(0xc000004e),
            _ => None,
        }
    }

    /// One slice of the symbol table.
    #[verifier::spinoff_prover]
    #[verifier::rlimit(100)]
    fn from_u32_part4(raw: u32) -> (r: Option<NtStatusWindows>)
        ensures
            r == NtStatusWindows::spec_from_u32_part4(raw),
    {
        match raw {
            0xc000001d => Some(NtStatusWindows::STATUS_ILLEGAL_INSTRUCTION),
            0xc000001e => Some(NtStatusWindows::STATUS_INVALID_LOCK_SEQUENCE),
            0xc000001f => Some(NtStatusWindows::STATUS_INVALID_VIEW_SIZE),
            0xc0000020 => Some(NtStatusWindows::STATUS_INVALID_FILE_FOR_SECTION),
            0xc0000021 => Some(NtStatusWindows::STATUS_ALREADY_COMMITTED),
            0xc0000022 => Some(NtStatusWindows::STATUS_ACCESS_DENIED),
            0xc0000023 => Some(NtStatusWindows::STATUS_BUFFER_TOO_SMALL),
            0xc0000024 => Some(NtStatusWindows::STATUS_OBJECT_TYPE_MISMATCH),
            0xc0000025 => Some(NtStatusWindows::STATUS_NONCONTINUABLE_EXCEPTION),
            0xc0000026 => Some(NtStatusWindows::STATUS_INVALID_DISPOSITION),
            0xc0000027 => Some(NtStatusWindows::STATUS_UNWIND),
            0xc0000028 => Some(NtStatusWindows::STATUS_BAD_STACK),
            0xc0000029 => Some(NtStatusWindows::STATUS_INVALID_UNWIND_TARGET),
            0xc000002a => Some(NtStatusWindows::STATUS_NOT_LOCKED),
            0xc000002b => Some(NtStatusWindows::STATUS_PARITY_ERROR),
            0xc000002c => Some(NtStatusWindows::STATUS_UNABLE_TO_DECOMMIT_VM),
            0xc000002d => Some(NtStatusWindows::STATUS_NOT_COMMITTED),
            0xc000002e => Some(NtStatusWindows::STATUS_INVALID_PORT_ATTRIBUTES),
            0xc000002f => Some(NtStatusWindows::STATUS_PORT_MESSAGE_TOO_LONG),
            0xc0000030 => Some(NtStatusWindows::STATUS_INVALID_PARAMETER_MIX),
            0xc0000031 => Some(NtStatusWindows::STATUS_INVALID_QUOTA_LOWER),
            0xc0000032 => Some(NtStatusWindows::STATUS_DISK_CORRUPT_ERROR),
            0xc0000033 => Some(NtStatusWindows::STATUS_OBJECT_NAME_INVALID),
            0xc0000034 => Some(NtStatusWindows::STATUS_OBJECT_NAME_NOT_FOUND),
            0xc0000035 => Some(NtStatusWindows::STATUS_OBJECT_NAME_COLLISION),
            0xc0000036 => Some(NtStatusWindows::STATUS_PORT_DO_NOT_DISTURB),
            0xc0000037 => Some(NtStatusWindows::STATUS_PORT_DISCONNECTED),
            0xc0000038 => Some(NtStatusWindows::STATUS_DEVICE_ALREADY_ATTACHED),
            0xc0000039 => Some(NtStatusWindows::STATUS_OBJECT_PATH_INVALID),
            0xc000003a => Some(NtStatusWindows::STATUS_OBJECT_PATH_NOT_FOUND),
            0xc000003b => Some(NtStatusWindows::STATUS_OBJECT_PATH_SYNTAX_BAD),
            0xc000003c => Some(NtStatusWindows::STATUS_DATA_OVERRUN),
            0xc000003d => Some(NtStatusWindows::STATUS_DATA_LATE_ERROR),
            0xc000003e => Some(NtStatusWindows::STATUS_DATA_ERROR),
            0xc000003f => Some(NtStatusWindows::STATUS_CRC_ERROR),
            0xc0000040 => Some(NtStatusWindows::STATUS_SECTION_TOO_BIG),
            0xc0000041 => Some(NtStatusWindows::STATUS_PORT_CONNECTION_REFUSED),
            0xc0000042 => Some(NtStatusWindows::STATUS_INVALID_PORT_HANDLE),
            0xc0000043 => Some(NtStatusWindows::STATUS_SHARING_VIOLATION),
            0xc0000044 => Some(NtStatusWindows::STATUS_QUOTA_EXCEEDED),
            0xc0000045 => Some(NtStatusWindows::STATUS_INVALID_PAGE_PROTECTION),
            0xc0000046 => Some(NtStatusWindows::STATUS_MUTANT_NOT_OWNED),
            0xc0000047 => Some(NtStatusWindows::STATUS_SEMAPHORE_LIMIT_EXCEEDED),
            0xc0000048 => Some(NtStatusWindows::STATUS_PORT_ALREADY_SET),
            0xc0000049 => Some(NtStatusWindows::STATUS_SECTION_NOT_IMAGE),
            0xc000004a => Some(NtStatusWindows::STATUS_SUSPEND_COUNT_EXCEEDED),
            0xc000004b => Some(NtStatusWindows::STATUS_THREAD_IS_TERMINATING),
            0xc000004c => Some(NtStatusWindows::STATUS_BAD_WORKING_SET_LIMIT),
            0xc000004d => Some(NtStatusWindows::STATUS_INCOMPATIBLE_FILE_MAP),
            0xc000004e => Some(NtStatusWindows::STATUS_SECTION_PROTECTION),
            _ => None,
        }
    }

    /// One slice of the symbol table: the raw value of this symbol,
    /// where this slice holds it.
    pub open spec fn spec_to_u32_part5(self) -> Option<u32> {
        match self {
            NtStatusWindows::STATUS_EAS_NOT_SUPPORTED => Some(0xc000004f),
            NtStatusWindows::STATUS_EA_TOO_LARGE => Some(0xc0000050),
            NtStatusWindows::STATUS_NONEXISTENT_EA_ENTRY => Some(0xc0000051),
            NtStatusWindows::STATUS_NO_EAS_ON_FILE => Some(0xc0000052),
            NtStatusWindows::STATUS_EA_CORRUPT_ERROR => Some(0xc0000053),
            NtStatusWindows::STATUS_FILE_LOCK_CONFLICT => Some(0xc0000054),
            NtStatusWindows::STATUS_LOCK_NOT_GRANTED => Some(0xc0000055),
            NtStatusWindows::STATUS_DELETE_PENDING => Some(0xc0000056),
            NtStatusWindows::STATUS_CTL_FILE_NOT_SUPPORTED => Some(0xc0000057),
            NtStatusWindows::STATUS_UNKNOWN_REVISION => Some(0xc0000058),
            NtStatusWindows::STATUS_REVISION_MISMATCH => Some(0xc0000059),
            NtStatusWindows::STATUS_INVALID_OWNER => Some(0xc000005a),
            NtStatusWindows::STATUS_INVALID_PRIMARY_GROUP => Some(0xc000005b),
            NtStatusWindows::STATUS_NO_IMPERSONATION_TOKEN => Some(0xc000005c),
            NtStatusWindows::STATUS_CANT_DISABLE_MANDATORY => Some(0xc000005d),
            NtStatusWindows::STATUS_NO_LOGON_SERVERS => Some(0xc000005e),
            NtStatusWindows::STATUS_NO_SUCH_LOGON_SESSION => Some(0xc000005f),
            NtStatusWindows::STATUS_NO_SUCH_PRIVILEGE => Some(0xc0000060),
            NtStatusWindows::STATUS_PRIVILEGE_NOT_HELD => Some(0xc0000061),
            NtStatusWindows::STATUS_INVALID_ACCOUNT_NAME => Some(0xc0000062),
            NtStatusWindows::STATUS_USER_EXISTS => Some(0xc0000063),
            NtStatusWindows::STATUS_NO_SUCH_USER => Some(0xc0000064),
            NtStatusWindows::STATUS_GROUP_EXISTS => Some(0xc0000065),
            NtStatusWindows::STATUS_NO_SUCH_GROUP => Some(0xc0000066),
            NtStatusWindows::STATUS_MEMBER_IN_GROUP => Some(0xc0000067),
            NtStatusWindows::STATUS_MEMBER_NOT_IN_GROUP => Some(0xc0000068),
            NtStatusWindows::STATUS_LAST_ADMIN => Some(0xc0000069),
            NtStatusWindows::STATUS_WRONG_PASSWORD => Some(0xc000006a),
            NtStatusWindows::STATUS_ILL_FORMED_PASSWORD => Some(0xc000006b),
            NtStatusWindows::STATUS_PASSWORD_RESTRICTION => Some(0xc000006c),
            NtStatusWindows::STATUS_LOGON_FAILURE => Some(0xc000006d),
            NtStatusWindows::STATUS_ACCOUNT_RESTRICTION => Some(0xc000006e),
            NtStatusWindows::STATUS_INVALID_LOGON_HOURS => Some(0xc000006f),
            NtStatusWindows::STATUS_INVALID_WORKSTATION => Some(0xc0000070),
            NtStatusWindows::STATUS_PASSWORD_EXPIRED => Some(0xc0000071),
            NtStatusWindows::STATUS_ACCOUNT_DISABLED => Some(0xc0000072),
            NtStatusWindows::STATUS_NONE_MAPPED => Some(0xc0000073),
            NtStatusWindows::STATUS_TOO_MANY_LUIDS_REQUESTED => Some(0xc0000074),
            NtStatusWindows::STATUS_LUIDS_EXHAUSTED => Some(0xc0000075),
            NtStatusWindows::STATUS_INVALID_SUB_AUTHORITY => Some(0xc0000076),
            NtStatusWindows::STATUS_INVALID_ACL => Some(0xc0000077),
            NtStatusWindows::STATUS_INVALID_SID => Some(0xc0000078),
            NtStatusWindows::STATUS_INVALID_SECURITY_DESCR => Some(0xc0000079),
            NtStatusWindows::STATUS_PROCEDURE_NOT_FOUND => Some(0xc000007a),
            NtStatusWindows::STATUS_INVALID_IMAGE_FORMAT => Some(0xc000007b),
            NtStatusWindows::STATUS_NO_TOKEN => Some(0xc000007c),
            NtStatusWindows::STATUS_BAD_INHERITANCE_ACL => Some(0xc000007d),
            NtStatusWindows::STATUS_RANGE_NOT_LOCKED => Some(0xc000007e),
            NtStatusWindows::STATUS_DISK_FULL => Some(0xc000007f),
            NtStatusWindows::STATUS_SERVER_DISABLED => Some(0xc0000080),
            _ => None,
        }
    }

    /// One slice of the symbol table: the symbol this slice gives a
    /// raw value, where it holds one.
    pub open spec fn spec_from_u32_part5(raw: u32) -> Option<NtStatusWindows> {
        match raw {
            0xc000004f => Some(NtStatusWindows::STATUS_EAS_NOT_SUPPORTED),
            0xc0000050 => Some(NtStatusWindows::STATUS_EA_TOO_LARGE),
            0xc0000051 => Some(NtStatusWindows::STATUS_NONEXISTENT_EA_ENTRY),
            0xc0000052 => Some(NtStatusWindows::STATUS_NO_EAS_ON_FILE),
            0xc0000053 => Some(NtStatusWindows::STATUS_EA_CORRUPT_ERROR),
            0xc0000054 => Some(NtStatusWindows::STATUS_FILE_LOCK_CONFLICT),
            0xc0000055 => Some(NtStatusWindows::STATUS_LOCK_NOT_GRANTED),
            0xc0000056 => Some(NtStatusWindows::STATUS_DELETE_PENDING),
            0xc0000057 => Some(NtStatusWindows::STATUS_CTL_FILE_NOT_SUPPORTED),
            0xc0000058 => Some(NtStatusWindows::STATUS_UNKNOWN_REVISION),
            0xc0000059 => Some(NtStatusWindows::STATUS_REVISION_MISMATCH),
            0xc000005a => Some(NtStatusWindows::STATUS_INVALID_OWNER),
            0xc000005b => Some(NtStatusWindows::STATUS_INVALID_PRIMARY_GROUP),
            0xc000005c => Some(NtStatusWindows::STATUS_NO_IMPERSONATION_TOKEN),
            0xc000005d => Some(NtStatusWindows::STATUS_CANT_DISABLE_MANDATORY),
            0xc000005e => Some(NtStatusWindows::STATUS_NO_LOGON_SERVERS),
            0xc000005f => Some(NtStatusWindows::STATUS_NO_SUCH_LOGON_SESSION),
            0xc0000060 => Some(NtStatusWindows::STATUS_NO_SUCH_PRIVILEGE),
            0xc0000061 => Some(NtStatusWindows::STATUS_PRIVILEGE_NOT_HELD),
            0xc0000062 => Some(NtStatusWindows::STATUS_INVALID_ACCOUNT_NAME),
            0xc0000063 => Some(NtStatusWindows::STATUS_USER_EXISTS),
            0xc0000064 => Some(NtStatusWindows::STATUS_NO_SUCH_USER),
            0xc0000065 => Some(NtStatusWindows::STATUS_GROUP_EXISTS),
            0xc0000066 => Some(NtStatusWindows::STATUS_NO_SUCH_GROUP),
            0xc0000067 => Some(NtStatusWindows::STATUS_MEMBER_IN_GROUP),
            0xc0000068 => Some(NtStatusWindows::STATUS_MEMBER_NOT_IN_GROUP),
            0xc0000069 => Some(NtStatusWindows::STATUS_LAST_ADMIN),
            0xc000006a => Some(NtStatusWindows::STATUS_WRONG_PASSWORD),
            0xc000006b => Some(NtStatusWindows::STATUS_ILL_FORMED_PASSWORD),
            0xc000006c => Some(NtStatusWindows::STATUS_PASSWORD_RESTRICTION),
            0xc000006d => Some(NtStatusWindows::STATUS_LOGON_FAILURE),
            0xc000006e => Some(NtStatusWindows::STATUS_ACCOUNT_RESTRICTION),
            0xc000006f => Some(NtStatusWindows::STATUS_INVALID_LOGON_HOURS),
            0xc0000070 => Some(NtStatusWindows::STATUS_INVALID_WORKSTATION),
            0xc0000071 => Some(NtStatusWindows::STATUS_PASSWORD_EXPIRED),
            0xc0000072 => Some(NtStatusWindows::STATUS_ACCOUNT_DISABLED),
            0xc0000073 => Some(NtStatusWindows::STATUS_NONE_MAPPED),
            0xc0000074 => Some(NtStatusWindows::STATUS_TOO_MANY_LUIDS_REQUESTED),
            0xc0000075 => Some(NtStatusWindows::STATUS_LUIDS_EXHAUSTED),
            0xc0000076 => Some(NtStatusWindows::STATUS_INVALID_SUB_AUTHORITY),
            0xc0000077 => Some(NtStatusWindows::STATUS_INVALID_ACL),
            0xc0000078 => Some(NtStatusWindows::STATUS_INVALID_SID),
            0xc0000079 => Some(NtStatusWindows::STATUS_INVALID_SECURITY_DESCR),
            0xc000007a => Some(NtStatusWindows::STATUS_PROCEDURE_NOT_FOUND),
            0xc000007b => Some(NtStatusWindows::STATUS_INVALID_IMAGE_FORMAT),
            0xc000007c => Some(NtStatusWindows::STATUS_NO_TOKEN),
            0xc000007d => Some(NtStatusWindows::STATUS_BAD_INHERITANCE_ACL),
            0xc000007e => Some(NtStatusWindows::STATUS_RANGE_NOT_LOCKED),
            0xc000007f => Some(NtStatusWindows::STATUS_DISK_FULL),
            0xc0000080 => Some(NtStatusWindows::STATUS_SERVER_DISABLED),
            _ => None,
        }
    }

    /// One slice of the symbol table.
    #[verifier::spinoff_prover]
    #[verifier::rlimit(100)]
    fn to_u32_part5(self) -> (r: Option<u32>)
        ensures
            r == self.spec_to_u32_part5(),
    {
        match self {
            NtStatusWindows::STATUS_EAS_NOT_SUPPORTED => Some(0xc000004f),
            NtStatusWindows::STATUS_EA_TOO_LARGE => Some(0xc0000050),
            NtStatusWindows::STATUS_NONEXISTENT_EA_ENTRY => Some(0xc0000051),
            NtStatusWindows::STATUS_NO_EAS_ON_FILE => Some(0xc0000052),
            NtStatusWindows::STATUS_EA_CORRUPT_ERROR => Some(0xc0000053),
            NtStatusWindows::STATUS_FILE_LOCK_CONFLICT => Some(0xc0000054),
            NtStatusWindows::STATUS_LOCK_NOT_GRANTED => Some(0xc0000055),
            NtStatusWindows::STATUS_DELETE_PENDING => Some(0xc0000056),
            NtStatusWindows::STATUS_CTL_FILE_NOT_SUPPORTED => Some(0xc0000057),
            NtStatusWindows::STATUS_UNKNOWN_REVISION => Some(0xc0000058),
            NtStatusWindows::STATUS_REVISION_MISMATCH => Some(0xc0000059),
            NtStatusWindows::STATUS_INVALID_OWNER => Some(0xc000005a),
            NtStatusWindows::STATUS_INVALID_PRIMARY_GROUP => Some(0xc000005b),
            NtStatusWindows::STATUS_NO_IMPERSONATION_TOKEN => Some(0xc000005c),
            NtStatusWindows::STATUS_CANT_DISABLE_MANDATORY => Some(0xc000005d),
            NtStatusWindows::STATUS_NO_LOGON_SERVERS => Some(0xc000005e),
            NtStatusWindows::STATUS_NO_SUCH_LOGON_SESSION => Some(0xc000005f),
            NtStatusWindows::STATUS_NO_SUCH_PRIVILEGE => Some(0xc0000060),
            NtStatusWindows::STATUS_PRIVILEGE_NOT_HELD => Some(0xc0000061),
            NtStatusWindows::STATUS_INVALID_ACCOUNT_NAME => Some(0xc0000062),
            NtStatusWindows::STATUS_USER_EXISTS => Some(0xc0000063),
            NtStatusWindows::STATUS_NO_SUCH_USER => Some(0xc0000064),
            NtStatusWindows::STATUS_GROUP_EXISTS => Some(0xc0000065),
            NtStatusWindows::STATUS_NO_SUCH_GROUP => Some(0xc0000066),
            NtStatusWindows::STATUS_MEMBER_IN_GROUP => Some(0xc0000067),
            NtStatusWindows::STATUS_MEMBER_NOT_IN_GROUP => Some(0xc0000068),
            NtStatusWindows::STATUS_LAST_ADMIN => Some(0xc0000069),
            NtStatusWindows::STATUS_WRONG_PASSWORD => Some(0xc000006a),
            NtStatusWindows::STATUS_ILL_FORMED_PASSWORD => Some(0xc000006b),
            NtStatusWindows::STATUS_PASSWORD_RESTRICTION => Some(0xc000006c),
            NtStatusWindows::STATUS_LOGON_FAILURE => Some(0xc000006d),
            NtStatusWindows::STATUS_ACCOUNT_RESTRICTION => Some(0xc000006e),
            NtStatusWindows::STATUS_INVALID_LOGON_HOURS => Some(0xc000006f),
            NtStatusWindows::STATUS_INVALID_WORKSTATION => Some(0xc0000070),
            NtStatusWindows::STATUS_PASSWORD_EXPIRED => Some(0xc0000071),
            NtStatusWindows::STATUS_ACCOUNT_DISABLED => Some(0xc0000072),
            NtStatusWindows::STATUS_NONE_MAPPED => Some(0xc0000073),
            NtStatusWindows::STATUS_TOO_MANY_LUIDS_REQUESTED => Some(0xc0000074),
            NtStatusWindows::STATUS_LUIDS_EXHAUSTED => Some(0xc0000075),
            NtStatusWindows::STATUS_INVALID_SUB_AUTHORITY => Some(0xc0000076),
            NtStatusWindows::STATUS_INVALID_ACL => Some(0xc0000077),
            NtStatusWindows::STATUS_INVALID_SID => Some(0xc0000078),
            NtStatusWindows::STATUS_INVALID_SECURITY_DESCR => Some(0xc0000079),
            NtStatusWindows::STATUS_PROCEDURE_NOT_FOUND => Some(0xc000007a),
            NtStatusWindows::STATUS_INVALID_IMAGE_FORMAT => Some(0xc000007b),
            NtStatusWindows::STATUS_NO_TOKEN => Some(0xc000007c),
            NtStatusWindows::STATUS_BAD_INHERITANCE_ACL => Some(0xc000007d),
            NtStatusWindows::STATUS_RANGE_NOT_LOCKED => Some(0xc000007e),
            NtStatusWindows::STATUS_DISK_FULL => Some(0xc000007f),
            NtStatusWindows::STATUS_SERVER_DISABLED => Some(0xc0000080),
            _ => None,
        }
    }

    /// One slice of the symbol table.
    #[verifier::spinoff_prover]
    #[verifier::rlimit(100)]
    fn from_u32_part5(raw: u32) -> (r: Option<NtStatusWindows>)
        ensures
            r == NtStatusWindows::spec_from_u32_part5(raw),
    {
        match raw {
            0xc000004f => Some(NtStatusWindows::STATUS_EAS_NOT_SUPPORTED),
            0xc0000050 => Some(NtStatusWindows::STATUS_EA_TOO_LARGE),
            0xc0000051 => Some(NtStatusWindows::STATUS_NONEXISTENT_EA_ENTRY),
            0xc0000052 => Some(NtStatusWindows::STATUS_NO_EAS_ON_FILE),
            0xc0000053 => Some(NtStatusWindows::STATUS_EA_CORRUPT_ERROR),
            0xc0000054 => Some(NtStatusWindows::STATUS_FILE_LOCK_CONFLICT),
            0xc0000055 => Some(NtStatusWindows::STATUS_LOCK_NOT_GRANTED),
            0xc0000056 => Some(NtStatusWindows::STATUS_DELETE_PENDING),
            0xc0000057 => Some(NtStatusWindows::STATUS_CTL_FILE_NOT_SUPPORTED),
            0xc0000058 => Some(NtStatusWindows::STATUS_UNKNOWN_REVISION),
            0xc0000059 => Some(NtStatusWindows::STATUS_REVISION_MISMATCH),
            0xc000005a => Some(NtStatusWindows::STATUS_INVALID_OWNER),
            0xc000005b => Some(NtStatusWindows::STATUS_INVALID_PRIMARY_GROUP),
            0xc000005c => Some(NtStatusWindows::STATUS_NO_IMPERSONATION_TOKEN),
            0xc000005d => Some(NtStatusWindows::STATUS_CANT_DISABLE_MANDATORY),
            0xc000005e => Some(NtStatusWindows::STATUS_NO_LOGON_SERVERS),
            0xc000005f => Some(NtStatusWindows::STATUS_NO_SUCH_LOGON_SESSION),
            0xc0000060 => Some(NtStatusWindows::STATUS_NO_SUCH_PRIVILEGE),
            0xc0000061 => Some(NtStatusWindows::STATUS_PRIVILEGE_NOT_HELD),
            0xc0000062 => Some(NtStatusWindows::STATUS_INVALID_ACCOUNT_NAME),
            0xc0000063 => Some(NtStatusWindows::STATUS_USER_EXISTS),
            0xc0000064 => Some(NtStatusWindows::STATUS_NO_SUCH_USER),
            0xc0000065 => Some(NtStatusWindows::STATUS_GROUP_EXISTS),
            0xc0000066 => Some(NtStatusWindows::STATUS_NO_SUCH_GROUP),
            0xc0000067 => Some(NtStatusWindows::STATUS_MEMBER_IN_GROUP),
            0xc0000068 => Some(NtStatusWindows::STATUS_MEMBER_NOT_IN_GROUP),
            0xc0000069 => Some(NtStatusWindows::STATUS_LAST_ADMIN),
            0xc000006a => Some(NtStatusWindows::STATUS_WRONG_PASSWORD),
            0xc000006b => Some(NtStatusWindows::STATUS_ILL_FORMED_PASSWORD),
            0xc000006c => Some(NtStatusWindows::STATUS_PASSWORD_RESTRICTION),
            0xc000006d => Some(NtStatusWindows::STATUS_LOGON_FAILURE),
            0xc000006e => Some(NtStatusWindows::STATUS_ACCOUNT_RESTRICTION),
            0xc000006f => Some(NtStatusWindows::STATUS_INVALID_LOGON_HOURS),
            0xc0000070 => Some(NtStatusWindows::STATUS_INVALID_WORKSTATION),
            0xc0000071 => Some(NtStatusWindows::STATUS_PASSWORD_EXPIRED),
            0xc0000072 => Some(NtStatusWindows::STATUS_ACCOUNT_DISABLED),
            0xc0000073 => Some(NtStatusWindows::STATUS_NONE_MAPPED),
            0xc0000074 => Some(NtStatusWindows::STATUS_TOO_MANY_LUIDS_REQUESTED),
            0xc0000075 => Some(NtStatusWindows::STATUS_LUIDS_EXHAUSTED),
            0xc0000076 => Some(NtStatusWindows::STATUS_INVALID_SUB_AUTHORITY),
            0xc0000077 => Some(NtStatusWindows::STATUS_INVALID_ACL),
            0xc0000078 => Some(NtStatusWindows::STATUS_INVALID_SID),
            0xc0000079 => Some(NtStatusWindows::STATUS_INVALID_SECURITY_DESCR),
            0xc000007a => Some(NtStatusWindows::STATUS_PROCEDURE_NOT_FOUND),
            0xc000007b => Some(NtStatusWindows::STATUS_INVALID_IMAGE_FORMAT),
            0xc000007c => Some(NtStatusWindows::STATUS_NO_TOKEN),
            0xc000007d => Some(NtStatusWindows::STATUS_BAD_INHERITANCE_ACL),
            0xc000007e => Some(NtStatusWindows::STATUS_RANGE_NOT_LOCKED),
            0xc000007f => Some(NtStatusWindows::STATUS_DISK_FULL),
            0xc0000080 => Some(NtStatusWindows::STATUS_SERVER_DISABLED),
            _ => None,
        }
    }

    /// One slice of the symbol table: the raw value of this symbol,
    /// where this slice holds it.
    pub open spec fn spec_to_u32_part6(self) -> Option<u32> {
        match self {
            NtStatusWindows::STATUS_SERVER_NOT_DISABLED => Some(0xc0000081),
            NtStatusWindows::STATUS_TOO_MANY_GUIDS_REQUESTED => Some(0xc0000082),
            NtStatusWindows::STATUS_GUIDS_EXHAUSTED => Some(0xc0000083),
            NtStatusWindows::STATUS_INVALID_ID_AUTHORITY => Some(0xc0000084),
            NtStatusWindows::STATUS_AGENTS_EXHAUSTED => Some(0xc0000085),
            NtStatusWindows::STATUS_INVALID_VOLUME_LABEL => Some(0xc0000086),
            NtStatusWindows::STATUS_SECTION_NOT_EXTENDED => Some(0xc0000087),
            NtStatusWindows::STATUS_NOT_MAPPED_DATA => Some(0xc0000088),
            NtStatusWindows::STATUS_RESOURCE_DATA_NOT_FOUND => Some(0xc0000089),
            NtStatusWindows::STATUS_RESOURCE_TYPE_NOT_FOUND => Some(0xc000008a),
            NtStatusWindows::STATUS_RESOURCE_NAME_NOT_FOUND => Some(0xc000008b),
            NtStatusWindows::STATUS_ARRAY_BOUNDS_EXCEEDED => Some(0xc000008c),
            NtStatusWindows::STATUS_FLOAT_DENORMAL_OPERAND => Some(0xc000008d),
            NtStatusWindows::STATUS_FLOAT_DIVIDE_BY_ZERO => Some(0xc000008e),
            NtStatusWindows::STATUS_FLOAT_INEXACT_RESULT => Some(0xc000008f),
            NtStatusWindows::STATUS_FLOAT_INVALID_OPERATION => Some(0xc0000090),
            NtStatusWindows::STATUS_FLOAT_OVERFLOW => Some(0xc0000091),
            NtStatusWindows::STATUS_FLOAT_STACK_CHECK => Some(0xc0000092),
            NtStatusWindows::STATUS_FLOAT_UNDERFLOW => Some(0xc0000093),
            NtStatusWindows::STATUS_INTEGER_DIVIDE_BY_ZERO => Some(0xc0000094),
            NtStatusWindows::STATUS_INTEGER_OVERFLOW => Some(0xc0000095),
            NtStatusWindows::STATUS_PRIVILEGED_INSTRUCTION => Some(0xc0000096),
            NtStatusWindows::STATUS_TOO_MANY_PAGING_FILES => Some(0xc0000097),
            NtStatusWindows::STATUS_FILE_INVALID => Some(0xc0000098),
            NtStatusWindows::STATUS_ALLOTTED_SPACE_EXCEEDED => Some(0xc0000099),
            NtStatusWindows::STATUS_INSUFFICIENT_RESOURCES => Some(0xc000009a),
            NtStatusWindows::STATUS_DFS_EXIT_PATH_FOUND => Some(0xc000009b),
            NtStatusWindows::STATUS_DEVICE_DATA_ERROR => Some(0xc000009c),
            NtStatusWindows::STATUS_DEVICE_NOT_CONNECTED => Some(0xc000009d),
            NtStatusWindows::STATUS_DEVICE_POWER_FAILURE => Some(0xc000009e),
            NtStatusWindows::STATUS_FREE_VM_NOT_AT_BASE => Some(0xc000009f),
            NtStatusWindows::STATUS_MEMORY_NOT_ALLOCATED => Some(0xc00000a0),
            NtStatusWindows::STATUS_WORKING_SET_QUOTA => Some(0xc00000a1),
            NtStatusWindows::STATUS_MEDIA_WRITE_PROTECTED => Some(0xc00000a2),
            NtStatusWindows::STATUS_DEVICE_NOT_READY => Some(0xc00000a3),
            NtStatusWindows::STATUS_INVALID_GROUP_ATTRIBUTES => Some(0xc00000a4),
            NtStatusWindows::STATUS_BAD_IMPERSONATION_LEVEL => Some(0xc00000a5),
            NtStatusWindows::STATUS_CANT_OPEN_ANONYMOUS => Some(0xc00000a6),
            NtStatusWindows::STATUS_BAD_VALIDATION_CLASS => Some(0xc00000a7),
            NtStatusWindows::STATUS_BAD_TOKEN_TYPE => Some(0xc00000a8),
            NtStatusWindows::STATUS_BAD_MASTER_BOOT_RECORD => Some(0xc00000a9),
            NtStatusWindows::STATUS_INSTRUCTION_MISALIGNMENT => Some(0xc00000aa),
            NtStatusWindows::STATUS_INSTANCE_NOT_AVAILABLE => Some(0xc00000ab),
            NtStatusWindows::STATUS_PIPE_NOT_AVAILABLE => Some(0xc00000ac),
            NtStatusWindows::STATUS_INVALID_PIPE_STATE => Some(0xc00000ad),
            NtStatusWindows::STATUS_PIPE_BUSY => Some(0xc00000ae),
            NtStatusWindows::STATUS_ILLEGAL_FUNCTION => Some(0xc00000af),
            NtStatusWindows::STATUS_PIPE_DISCONNECTED => Some(0xc00000b0),
            NtStatusWindows::STATUS_PIPE_CLOSING => Some(0xc00000b1),
            NtStatusWindows::STATUS_PIPE_CONNECTED => Some(0xc00000b2),
            _ => None,
        }
    }

    /// One slice of the symbol table: the symbol this slice gives a
    /// raw value, where it holds one.
    pub open spec fn spec_from_u32_part6(raw: u32) -> Option<NtStatusWindows> {
        match raw {
            0xc0000081 => Some(NtStatusWindows::STATUS_SERVER_NOT_DISABLED),
            0xc0000082 => Some(NtStatusWindows::STATUS_TOO_MANY_GUIDS_REQUESTED),
            0xc0000083 => Some(NtStatusWindows::STATUS_GUIDS_EXHAUSTED),
            0xc0000084 => Some(NtStatusWindows::STATUS_INVALID_ID_AUTHORITY),
            0xc0000085 => Some(NtStatusWindows::STATUS_AGENTS_EXHAUSTED),
            0xc0000086 => Some(NtStatusWindows::STATUS_INVALID_VOLUME_LABEL),
            0xc0000087 => Some(NtStatusWindows::STATUS_SECTION_NOT_EXTENDED),
            0xc0000088 => Some(NtStatusWindows::STATUS_NOT_MAPPED_DATA),
            0xc0000089 => Some(NtStatusWindows::STATUS_RESOURCE_DATA_NOT_FOUND),
            0xc000008a => Some(NtStatusWindows::STATUS_RESOURCE_TYPE_NOT_FOUND),
            0xc000008b => Some(NtStatusWindows::STATUS_RESOURCE_NAME_NOT_FOUND),
            0xc000008c => Some(NtStatusWindows::STATUS_ARRAY_BOUNDS_EXCEEDED),
            0xc000008d => Some(NtStatusWindows::STATUS_FLOAT_DENORMAL_OPERAND),
            0xc000008e => Some(NtStatusWindows::STATUS_FLOAT_DIVIDE_BY_ZERO),
            0xc000008f => Some(NtStatusWindows::STATUS_FLOAT_INEXACT_RESULT),
            0xc0000090 => Some(NtStatusWindows::STATUS_FLOAT_INVALID_OPERATION),
            0xc0000091 => Some(NtStatusWindows::STATUS_FLOAT_OVERFLOW),
            0xc0000092 => Some(NtStatusWindows::STATUS_FLOAT_STACK_CHECK),
            0xc0000093 => Some(NtStatusWindows::STATUS_FLOAT_UNDERFLOW),
            0xc0000094 => Some(NtStatusWindows::STATUS_INTEGER_DIVIDE_BY_ZERO),
            0xc0000095 => Some(NtStatusWindows::STATUS_INTEGER_OVERFLOW),
            0xc0000096 => Some(NtStatusWindows::STATUS_PRIVILEGED_INSTRUCTION),
            0xc0000097 => Some(NtStatusWindows::STATUS_TOO_MANY_PAGING_FILES),
            0xc0000098 => Some(NtStatusWindows::STATUS_FILE_INVALID),
            0xc0000099 => Some(NtStatusWindows::STATUS_ALLOTTED_SPACE_EXCEEDED),
            0xc000009a => Some(NtStatusWindows::STATUS_INSUFFICIENT_RESOURCES),
            0xc000009b => Some(NtStatusWindows::STATUS_DFS_EXIT_PATH_FOUND),
            0xc000009c => Some(NtStatusWindows::STATUS_DEVICE_DATA_ERROR),
            0xc000009d => Some(NtStatusWindows::STATUS_DEVICE_NOT_CONNECTED),
            0xc000009e => Some(NtStatusWindows::STATUS_DEVICE_POWER_FAILURE),
            0xc000009f => Some(NtStatusWindows::STATUS_FREE_VM_NOT_AT_BASE),
            0xc00000a0 => Some(NtStatusWindows::STATUS_MEMORY_NOT_ALLOCATED),
            0xc00000a1 => Some(NtStatusWindows::STATUS_WORKING_SET_QUOTA),
            0xc00000a2 => Some(NtStatusWindows::STATUS_MEDIA_WRITE_PROTECTED),
            0xc00000a3 => Some(NtStatusWindows::STATUS_DEVICE_NOT_READY),
            0xc00000a4 => Some(NtStatusWindows::STATUS_INVALID_GROUP_ATTRIBUTES),
            0xc00000a5 => Some(NtStatusWindows::STATUS_BAD_IMPERSONATION_LEVEL),
            0xc00000a6 => Some(NtStatusWindows::STATUS_CANT_OPEN_ANONYMOUS),
            0xc00000a7 => Some(NtStatusWindows::STATUS_BAD_VALIDATION_CLASS),
            0xc00000a8 => Some(NtStatusWindows::STATUS_BAD_TOKEN_TYPE),
            0xc00000a9 => Some(NtStatusWindows::STATUS_BAD_MASTER_BOOT_RECORD),
            0xc00000aa => Some(NtStatusWindows::STATUS_INSTRUCTION_MISALIGNMENT),
            0xc00000ab => Some(NtStatusWindows::STATUS_INSTANCE_NOT_AVAILABLE),
            0xc00000ac => Some(NtStatusWindows::STATUS_PIPE_NOT_AVAILABLE),
            0xc00000ad => Some(NtStatusWindows::STATUS_INVALID_PIPE_STATE),
            0xc00000ae => Some(NtStatusWindows::STATUS_PIPE_BUSY),
            0xc00000af => Some(NtStatusWindows::STATUS_ILLEGAL_FUNCTION),
            0xc00000b0 => Some(NtStatusWindows::STATUS_PIPE_DISCONNECTED),
            0xc00000b1 => Some(NtStatusWindows::STATUS_PIPE_CLOSING),
            0xc00000b2 => Some(NtStatusWindows::STATUS_PIPE_CONNECTED),
            _ => None,
        }
    }

    /// One slice of the symbol table.
    #[verifier::spinoff_prover]
    #[verifier::rlimit(100)]
    fn to_u32_part6(self) -> (r: Option<u32>)
        ensures
            r == self.spec_to_u32_part6(),
    {
        match self {
            NtStatusWindows::STATUS_SERVER_NOT_DISABLED => Some(0xc0000081),
            NtStatusWindows::STATUS_TOO_MANY_GUIDS_REQUESTED => Some(0xc0000082),
            NtStatusWindows::STATUS_GUIDS_EXHAUSTED => Some(0xc0000083),
            NtStatusWindows::STATUS_INVALID_ID_AUTHORITY => Some(0xc0000084),
            NtStatusWindows::STATUS_AGENTS_EXHAUSTED => Some(0xc0000085),
            NtStatusWindows::STATUS_INVALID_VOLUME_LABEL => Some(0xc0000086),
            NtStatusWindows::STATUS_SECTION_NOT_EXTENDED => Some(0xc0000087),
            NtStatusWindows::STATUS_NOT_MAPPED_DATA => Some(0xc0000088),
            NtStatusWindows::STATUS_RESOURCE_DATA_NOT_FOUND => Some(0xc0000089),
            NtStatusWindows::STATUS_RESOURCE_TYPE_NOT_FOUND => Some(0xc000008a),
            NtStatusWindows::STATUS_RESOURCE_NAME_NOT_FOUND => Some(0xc000008b),
            NtStatusWindows::STATUS_ARRAY_BOUNDS_EXCEEDED => Some(0xc000008c),
            NtStatusWindows::STATUS_FLOAT_DENORMAL_OPERAND => Some(0xc000008d),
            NtStatusWindows::STATUS_FLOAT_DIVIDE_BY_ZERO => Some(0xc000008e),
            NtStatusWindows::STATUS_FLOAT_INEXACT_RESULT => Some(0xc000008f),
            NtStatusWindows::STATUS_FLOAT_INVALID_OPERATION => Some(0xc0000090),
            NtStatusWindows::STATUS_FLOAT_OVERFLOW => Some(0xc0000091),
            NtStatusWindows::STATUS_FLOAT_STACK_CHECK => Some(0xc0000092),
            NtStatusWindows::STATUS_FLOAT_UNDERFLOW => Some(0xc0000093),
            NtStatusWindows::STATUS_INTEGER_DIVIDE_BY_ZERO => Some(0xc0000094),
            NtStatusWindows::STATUS_INTEGER_OVERFLOW => Some(0xc0000095),
            NtStatusWindows::STATUS_PRIVILEGED_INSTRUCTION => Some(0xc0000096),
            NtStatusWindows::STATUS_TOO_MANY_PAGING_FILES => Some(0xc0000097),
            NtStatusWindows::STATUS_FILE_INVALID => Some(0xc0000098),
            NtStatusWindows::STATUS_ALLOTTED_SPACE_EXCEEDED => Some(0xc0000099),
            NtStatusWindows::STATUS_INSUFFICIENT_RESOURCES => Some(0xc000009a),
            NtStatusWindows::STATUS_DFS_EXIT_PATH_FOUND => Some(0xc000009b),
            NtStatusWindows::STATUS_DEVICE_DATA_ERROR => Some(0xc000009c),
            NtStatusWindows::STATUS_DEVICE_NOT_CONNECTED => Some(0xc000009d),
            NtStatusWindows::STATUS_DEVICE_POWER_FAILURE => Some(0xc000009e),
            NtStatusWindows::STATUS_FREE_VM_NOT_AT_BASE => Some(0xc000009f),
            NtStatusWindows::STATUS_MEMORY_NOT_ALLOCATED => Some(0xc00000a0),
            NtStatusWindows::STATUS_WORKING_SET_QUOTA => Some(0xc00000a1),
            NtStatusWindows::STATUS_MEDIA_WRITE_PROTECTED => Some(0xc00000a2),
            NtStatusWindows::STATUS_DEVICE_NOT_READY => Some(0xc00000a3),
            NtStatusWindows::STATUS_INVALID_GROUP_ATTRIBUTES => Some(0xc00000a4),
            NtStatusWindows::STATUS_BAD_IMPERSONATION_LEVEL => Some(0xc00000a5),
            NtStatusWindows::STATUS_CANT_OPEN_ANONYMOUS => Some(0xc00000a6),
            NtStatusWindows::STATUS_BAD_VALIDATION_CLASS => Some(0xc00000a7),
            NtStatusWindows::STATUS_BAD_TOKEN_TYPE => Some(0xc00000a8),
            NtStatusWindows::STATUS_BAD_MASTER_BOOT_RECORD => Some(0xc00000a9),
            NtStatusWindows::STATUS_INSTRUCTION_MISALIGNMENT => Some(0xc00000aa),
            NtStatusWindows::STATUS_INSTANCE_NOT_AVAILABLE => Some(0xc00000ab),
            NtStatusWindows::STATUS_PIPE_NOT_AVAILABLE => Some(0xc00000ac),
            NtStatusWindows::STATUS_INVALID_PIPE_STATE => Some(0xc00000ad),
            NtStatusWindows::STATUS_PIPE_BUSY => Some(0xc00000ae),
            NtStatusWindows::STATUS_ILLEGAL_FUNCTION => Some(0xc00000af),
            NtStatusWindows::STATUS_PIPE_DISCONNECTED => Some(0xc00000b0),
            NtStatusWindows::STATUS_PIPE_CLOSING => Some(0xc00000b1),
            NtStatusWindows::STATUS_PIPE_CONNECTED => Some(0xc00000b2),
            _ => None,
        }
    }

    /// One slice of the symbol table.
    #[verifier::spinoff_prover]
    #[verifier::rlimit(100)]
    fn from_u32_part6(raw: u32) -> (r: Option<NtStatusWindows>)
        ensures
            r == NtStatusWindows::spec_from_u32_part6(raw),
    {
        match raw {
            0xc0000081 => Some(NtStatusWindows::STATUS_SERVER_NOT_DISABLED),
            0xc0000082 => Some(NtStatusWindows::STATUS_TOO_MANY_GUIDS_REQUESTED),
            0xc0000083 => Some(NtStatusWindows::STATUS_GUIDS_EXHAUSTED),
            0xc0000084 => Some(NtStatusWindows::STATUS_INVALID_ID_AUTHORITY),
            0xc0000085 => Some(NtStatusWindows::STATUS_AGENTS_EXHAUSTED),
            0xc0000086 => Some(NtStatusWindows::STATUS_INVALID_VOLUME_LABEL),
            0xc0000087 => Some(NtStatusWindows::STATUS_SECTION_NOT_EXTENDED),
            0xc0000088 => Some(NtStatusWindows::STATUS_NOT_MAPPED_DATA),
            0xc0000089 => Some(NtStatusWindows::STATUS_RESOURCE_DATA_NOT_FOUND),
            0xc000008a => Some(NtStatusWindows::STATUS_RESOURCE_TYPE_NOT_FOUND),
            0xc000008b => Some(NtStatusWindows::STATUS_RESOURCE_NAME_NOT_FOUND),
            0xc000008c => Some(NtStatusWindows::STATUS_ARRAY_BOUNDS_EXCEEDED),
            0xc000008d => Some(NtStatusWindows::STATUS_FLOAT_DENORMAL_OPERAND),
            0xc000008e => Some(NtStatusWindows::STATUS_FLOAT_DIVIDE_BY_ZERO),
            0xc000008f => Some(NtStatusWindows::STATUS_FLOAT_INEXACT_RESULT),
            0xc0000090 => Some(NtStatusWindows::STATUS_FLOAT_INVALID_OPERATION),
            0xc0000091 => Some(NtStatusWindows::STATUS_FLOAT_OVERFLOW),
            0xc0000092 => Some(NtStatusWindows::STATUS_FLOAT_STACK_CHECK),
            0xc0000093 => Some(NtStatusWindows::STATUS_FLOAT_UNDERFLOW),
            0xc0000094 => Some(NtStatusWindows::STATUS_INTEGER_DIVIDE_BY_ZERO),
            0xc0000095 => Some(NtStatusWindows::STATUS_INTEGER_OVERFLOW),
            0xc0000096 => Some(NtStatusWindows::STATUS_PRIVILEGED_INSTRUCTION),
            0xc0000097 => Some(NtStatusWindows::STATUS_TOO_MANY_PAGING_FILES),
            0xc0000098 => Some(NtStatusWindows::STATUS_FILE_INVALID),
            0xc0000099 => Some(NtStatusWindows::STATUS_ALLOTTED_SPACE_EXCEEDED),
            0xc000009a => Some(NtStatusWindows::STATUS_INSUFFICIENT_RESOURCES),
            0xc000009b => Some(NtStatusWindows::STATUS_DFS_EXIT_PATH_FOUND),
            0xc000009c => Some(NtStatusWindows::STATUS_DEVICE_DATA_ERROR),
            0xc000009d => Some(NtStatusWindows::STATUS_DEVICE_NOT_CONNECTED),
            0xc000009e => Some(NtStatusWindows::STATUS_DEVICE_POWER_FAILURE),
            0xc000009f => Some(NtStatusWindows::STATUS_FREE_VM_NOT_AT_BASE),
            0xc00000a0 => Some(NtStatusWindows::STATUS_MEMORY_NOT_ALLOCATED),
            0xc00000a1 => Some(NtStatusWindows::STATUS_WORKING_SET_QUOTA),
            0xc00000a2 => Some(NtStatusWindows::STATUS_MEDIA_WRITE_PROTECTED),
            0xc00000a3 => Some(NtStatusWindows::STATUS_DEVICE_NOT_READY),
            0xc00000a4 => Some(NtStatusWindows::STATUS_INVALID_GROUP_ATTRIBUTES),
            0xc00000a5 => Some(NtStatusWindows::STATUS_BAD_IMPERSONATION_LEVEL),
            0xc00000a6 => Some(NtStatusWindows::STATUS_CANT_OPEN_ANONYMOUS),
            0xc00000a7 => Some(NtStatusWindows::STATUS_BAD_VALIDATION_CLASS),
            0xc00000a8 => Some(NtStatusWindows::STATUS_BAD_TOKEN_TYPE),
            0xc00000a9 => Some(NtStatusWindows::STATUS_BAD_MASTER_BOOT_RECORD),
            0xc00000aa => Some(NtStatusWindows::STATUS_INSTRUCTION_MISALIGNMENT),
            0xc00000ab => Some(NtStatusWindows::STATUS_INSTANCE_NOT_AVAILABLE),
            0xc00000ac => Some(NtStatusWindows::STATUS_PIPE_NOT_AVAILABLE),
            0xc00000ad => Some(NtStatusWindows::STATUS_INVALID_PIPE_STATE),
            0xc00000ae => Some(NtStatusWindows::STATUS_PIPE_BUSY),
            0xc00000af => Some(NtStatusWindows::STATUS_ILLEGAL_FUNCTION),
            0xc00000b0 => Some(NtStatusWindows::STATUS_PIPE_DISCONNECTED),
            0xc00000b1 => Some(NtStatusWindows::STATUS_PIPE_CLOSING),
            0xc00000b2 => Some(NtStatusWindows::STATUS_PIPE_CONNECTED),
            _ => None,
        }
    }

    /// One slice of the symbol table: the raw value of this symbol,
    /// where this slice holds it.
    pub open spec fn spec_to_u32_part7(self) -> Option<u32> {
        match self {
            NtStatusWindows::STATUS_PIPE_LISTENING => Some(0xc00000b3),
            NtStatusWindows::STATUS_INVALID_READ_MODE => Some(0xc00000b4),
            NtStatusWindows::STATUS_IO_TIMEOUT => Some(0xc00000b5),
            NtStatusWindows::STATUS_FILE_FORCED_CLOSED => Some(0xc00000b6),
            NtStatusWindows::STATUS_PROFILING_NOT_STARTED => Some(0xc00000b7),
            NtStatusWindows::STATUS_PROFILING_NOT_STOPPED => Some(0xc00000b8),
            NtStatusWindows::STATUS_COULD_NOT_INTERPRET => Some(0xc00000b9),
            NtStatusWindows::STATUS_FILE_IS_A_DIRECTORY => Some(0xc00000ba),
            NtStatusWindows::STATUS_NOT_SUPPORTED => Some(0xc00000bb),
            NtStatusWindows::STATUS_REMOTE_NOT_LISTENING => Some(0xc00000bc),
            NtStatusWindows::STATUS_DUPLICATE_NAME => Some(0xc00000bd),
            NtStatusWindows::STATUS_BAD_NETWORK_PATH => Some(0xc00000be),
            NtStatusWindows::STATUS_NETWORK_BUSY => Some(0xc00000bf),
            NtStatusWindows::STATUS_DEVICE_DOES_NOT_EXIST => Some(0xc00000c0),
            NtStatusWindows::STATUS_TOO_MANY_COMMANDS => Some(0xc00000c1),
            NtStatusWindows::STATUS_ADAPTER_HARDWARE_ERROR => Some(0xc00000c2),
            NtStatusWindows::STATUS_INVALID_NETWORK_RESPONSE => Some(0xc00000c3),
            NtStatusWindows::STATUS_UNEXPECTED_NETWORK_ERROR => Some(0xc00000c4),
            NtStatusWindows::STATUS_BAD_REMOTE_ADAPTER => Some(0xc00000c5),
            NtStatusWindows::STATUS_PRINT_QUEUE_FULL => Some(0xc00000c6),
            NtStatusWindows::STATUS_NO_SPOOL_SPACE => Some(0xc00000c7),
            NtStatusWindows::STATUS_PRINT_CANCELLED => Some(0xc00000c8),
            NtStatusWindows::STATUS_NETWORK_NAME_DELETED => Some(0xc00000c9),
            NtStatusWindows::STATUS_NETWORK_ACCESS_DENIED => Some(0xc00000ca),
            NtStatusWindows::STATUS_BAD_DEVICE_TYPE => Some(0xc00000cb),
            NtStatusWindows::STATUS_BAD_NETWORK_NAME => Some(0xc00000cc),
            NtStatusWindows::STATUS_TOO_MANY_NAMES => Some(0xc00000cd),
            NtStatusWindows::STATUS_TOO_MANY_SESSIONS => Some(0xc00000ce),
            NtStatusWindows::STATUS_SHARING_PAUSED => Some(0xc00000cf),
            NtStatusWindows::STATUS_REQUEST_NOT_ACCEPTED => Some(0xc00000d0),
            NtStatusWindows::STATUS_REDIRECTOR_PAUSED => Some(0xc00000d1),
            NtStatusWindows::STATUS_NET_WRITE_FAULT => Some(0xc00000d2),
            NtStatusWindows::STATUS_PROFILING_AT_LIMIT => Some(0xc00000d3),
            NtStatusWindows::STATUS_NOT_SAME_DEVICE => Some(0xc00000d4),
            NtStatusWindows::STATUS_FILE_RENAMED => Some(0xc00000d5),
            NtStatusWindows::STATUS_VIRTUAL_CIRCUIT_CLOSED => Some(0xc00000d6),
            NtStatusWindows::STATUS_NO_SECURITY_ON_OBJECT => Some(0xc00000d7),
            NtStatusWindows::STATUS_CANT_WAIT => Some(0xc00000d8),
            NtStatusWindows::STATUS_PIPE_EMPTY => Some(0xc00000d9),
            NtStatusWindows::STATUS_CANT_ACCESS_DOMAIN_INFO => Some(0xc00000da),
            NtStatusWindows::STATUS_CANT_TERMINATE_SELF => Some(0xc00000db),
            NtStatusWindows::STATUS_INVALID_SERVER_STATE => Some(0xc00000dc),
            NtStatusWindows::STATUS_INVALID_DOMAIN_STATE => Some(0xc00000dd),
            NtStatusWindows::STATUS_INVALID_DOMAIN_ROLE => Some(0xc00000de),
            NtStatusWindows::STATUS_NO_SUCH_DOMAIN => Some(0xc00000df),
            NtStatusWindows::STATUS_DOMAIN_EXISTS => Some(0xc00000e0),
            NtStatusWindows::STATUS_DOMAIN_LIMIT_EXCEEDED => Some(0xc00000e1),
            NtStatusWindows::STATUS_OPLOCK_NOT_GRANTED => Some(0xc00000e2),
            NtStatusWindows::STATUS_INVALID_OPLOCK_PROTOCOL => Some(0xc00000e3),
            NtStatusWindows::STATUS_INTERNAL_DB_CORRUPTION => Some(0xc00000e4),
            _ => None,
        }
    }

    /// One slice of the symbol table: the symbol this slice gives a
    /// raw value, where it holds one.
    pub open spec fn spec_from_u32_part7(raw: u32) -> Option<NtStatusWindows> {
        match raw {
            0xc00000b3 => Some(NtStatusWindows::STATUS_PIPE_LISTENING),
            0xc00000b4 => Some(NtStatusWindows::STATUS_INVALID_READ_MODE),
            0xc00000b5 => Some(NtStatusWindows::STATUS_IO_TIMEOUT),
            0xc00000b6 => Some(NtStatusWindows::STATUS_FILE_FORCED_CLOSED),
            0xc00000b7 => Some(NtStatusWindows::STATUS_PROFILING_NOT_STARTED),
            0xc00000b8 => Some(NtStatusWindows::STATUS_PROFILING_NOT_STOPPED),
            0xc00000b9 => Some(NtStatusWindows::STATUS_COULD_NOT_INTERPRET),
            0xc00000ba => Some(NtStatusWindows::STATUS_FILE_IS_A_DIRECTORY),
            0xc00000bb => Some(NtStatusWindows::STATUS_NOT_SUPPORTED),
            0xc00000bc => Some(NtStatusWindows::STATUS_REMOTE_NOT_LISTENING),
            0xc00000bd => Some(NtStatusWindows::STATUS_DUPLICATE_NAME),
            0xc00000be => Some(NtStatusWindows::STATUS_BAD_NETWORK_PATH),
            0xc00000bf => Some(NtStatusWindows::STATUS_NETWORK_BUSY),
            0xc00000c0 => Some(NtStatusWindows::STATUS_DEVICE_DOES_NOT_EXIST),
            0xc00000c1 => Some(NtStatusWindows::STATUS_TOO_MANY_COMMANDS),
            0xc00000c2 => Some(NtStatusWindows::STATUS_ADAPTER_HARDWARE_ERROR),
            0xc00000c3 => Some(NtStatusWindows::STATUS_INVALID_NETWORK_RESPONSE),
            0xc00000c4 => Some(NtStatusWindows::STATUS_UNEXPECTED_NETWORK_ERROR),
            0xc00000c5 => Some(NtStatusWindows::STATUS_BAD_REMOTE_ADAPTER),
            0xc00000c6 => Some(NtStatusWindows::STATUS_PRINT_QUEUE_FULL),
            0xc00000c7 => Some(NtStatusWindows::STATUS_NO_SPOOL_SPACE),
            0xc00000c8 => Some(NtStatusWindows::STATUS_PRINT_CANCELLED),
            0xc00000c9 => Some(NtStatusWindows::STATUS_NETWORK_NAME_DELETED),
            0xc00000ca => Some(NtStatusWindows::STATUS_NETWORK_ACCESS_DENIED),
            0xc00000cb => Some(NtStatusWindows::STATUS_BAD_DEVICE_TYPE),
            0xc00000cc => Some(NtStatusWindows::STATUS_BAD_NETWORK_NAME),
            0xc00000cd => Some(NtStatusWindows::STATUS_TOO_MANY_NAMES),
            0xc00000ce => Some(NtStatusWindows::STATUS_TOO_MANY_SESSIONS),
            0xc00000cf => Some(NtStatusWindows::STATUS_SHARING_PAUSED),
            0xc00000d0 => Some(NtStatusWindows::STATUS_REQUEST_NOT_ACCEPTED),
            0xc00000d1 => Some(NtStatusWindows::STATUS_REDIRECTOR_PAUSED),
            0xc00000d2 => Some(NtStatusWindows::STATUS_NET_WRITE_FAULT),
            0xc00000d3 => Some(NtStatusWindows::STATUS_PROFILING_AT_LIMIT),
            0xc00000d4 => Some(NtStatusWindows::STATUS_NOT_SAME_DEVICE),
            0xc00000d5 => Some(NtStatusWindows::STATUS_FILE_RENAMED),
            0xc00000d6 => Some(NtStatusWindows::STATUS_VIRTUAL_CIRCUIT_CLOSED),
            0xc00000d7 => Some(NtStatusWindows::STATUS_NO_SECURITY_ON_OBJECT),
            0xc00000d8 => Some(NtStatusWindows::STATUS_CANT_WAIT),
            0xc00000d9 => Some(NtStatusWindows::STATUS_PIPE_EMPTY),
            0xc00000da => Some(NtStatusWindows::STATUS_CANT_ACCESS_DOMAIN_INFO),
            0xc00000db => Some(NtStatusWindows::STATUS_CANT_TERMINATE_SELF),
            0xc00000dc => Some(NtStatusWindows::STATUS_INVALID_SERVER_STATE),
            0xc00000dd => Some(NtStatusWindows::STATUS_INVALID_DOMAIN_STATE),
            0xc00000de => Some(NtStatusWindows::STATUS_INVALID_DOMAIN_ROLE),
            0xc00000df => Some(NtStatusWindows::STATUS_NO_SUCH_DOMAIN),
            0xc00000e0 => Some(NtStatusWindows::STATUS_DOMAIN_EXISTS),
            0xc00000e1 => Some(NtStatusWindows::STATUS_DOMAIN_LIMIT_EXCEEDED),
            0xc00000e2 => Some(NtStatusWindows::STATUS_OPLOCK_NOT_GRANTED),
            0xc00000e3 => Some(NtStatusWindows::STATUS_INVALID_OPLOCK_PROTOCOL),
            0xc00000e4 => Some(NtStatusWindows::STATUS_INTERNAL_DB_CORRUPTION),
            _ => None,
        }
    }

    /// One slice of the symbol table.
    #[verifier::spinoff_prover]
    #[verifier::rlimit(100)]
    fn to_u32_part7(self) -> (r: Option<u32>)
        ensures
            r == self.spec_to_u32_part7(),
    {
        match self {
            NtStatusWindows::STATUS_PIPE_LISTENING => Some(0xc00000b3),
            NtStatusWindows::STATUS_INVALID_READ_MODE => Some(0xc00000b4),
            NtStatusWindows::STATUS_IO_TIMEOUT => Some(0xc00000b5),
            NtStatusWindows::STATUS_FILE_FORCED_CLOSED => Some(0xc00000b6),
            NtStatusWindows::STATUS_PROFILING_NOT_STARTED => Some(0xc00000b7),
            NtStatusWindows::STATUS_PROFILING_NOT_STOPPED => Some(0xc00000b8),
            NtStatusWindows::STATUS_COULD_NOT_INTERPRET => Some(0xc00000b9),
            NtStatusWindows::STATUS_FILE_IS_A_DIRECTORY => Some(0xc00000ba),
            NtStatusWindows::STATUS_NOT_SUPPORTED => Some(0xc00000bb),
            NtStatusWindows::STATUS_REMOTE_NOT_LISTENING => Some(0xc00000bc),
            NtStatusWindows::STATUS_DUPLICATE_NAME => Some(0xc00000bd),
            NtStatusWindows::STATUS_BAD_NETWORK_PATH => Some(0xc00000be),
            NtStatusWindows::STATUS_NETWORK_BUSY => Some(0xc00000bf),
            NtStatusWindows::STATUS_DEVICE_DOES_NOT_EXIST => Some(0xc00000c0),
            NtStatusWindows::STATUS_TOO_MANY_COMMANDS => Some(0xc00000c1),
            NtStatusWindows::STATUS_ADAPTER_HARDWARE_ERROR => Some(0xc00000c2),
            NtStatusWindows::STATUS_INVALID_NETWORK_RESPONSE => Some(0xc00000c3),
            NtStatusWindows::STATUS_UNEXPECTED_NETWORK_ERROR => Some(0xc00000c4),
            NtStatusWindows::STATUS_BAD_REMOTE_ADAPTER => Some(0xc00000c5),
            NtStatusWindows::STATUS_PRINT_QUEUE_FULL => Some(0xc00000c6),
            NtStatusWindows::STATUS_NO_SPOOL_SPACE => Some(0xc00000c7),
            NtStatusWindows::STATUS_PRINT_CANCELLED => Some(0xc00000c8),
            NtStatusWindows::STATUS_NETWORK_NAME_DELETED => Some(0xc00000c9),
            NtStatusWindows::STATUS_NETWORK_ACCESS_DENIED => Some(0xc00000ca),
            NtStatusWindows::STATUS_BAD_DEVICE_TYPE => Some(0xc00000cb),
            NtStatusWindows::STATUS_BAD_NETWORK_NAME => Some(0xc00000cc),
            NtStatusWindows::STATUS_TOO_MANY_NAMES => Some(0xc00000cd),
            NtStatusWindows::STATUS_TOO_MANY_SESSIONS => Some(0xc00000ce),
            NtStatusWindows::STATUS_SHARING_PAUSED => Some(0xc00000cf),
            NtStatusWindows::STATUS_REQUEST_NOT_ACCEPTED => Some(0xc00000d0),
            NtStatusWindows::STATUS_REDIRECTOR_PAUSED => Some(0xc00000d1),
            NtStatusWindows::STATUS_NET_WRITE_FAULT => Some(0xc00000d2),
            NtStatusWindows::STATUS_PROFILING_AT_LIMIT => Some(0xc00000d3),
            NtStatusWindows::STATUS_NOT_SAME_DEVICE => Some(0xc00000d4),
            NtStatusWindows::STATUS_FILE_RENAMED => Some(0xc00000d5),
            NtStatusWindows::STATUS_VIRTUAL_CIRCUIT_CLOSED => Some(0xc00000d6),
            NtStatusWindows::STATUS_NO_SECURITY_ON_OBJECT => Some(0xc00000d7),
            NtStatusWindows::STATUS_CANT_WAIT => Some(0xc00000d8),
            NtStatusWindows::STATUS_PIPE_EMPTY => Some(0xc00000d9),
            NtStatusWindows::STATUS_CANT_ACCESS_DOMAIN_INFO => Some(0xc00000da),
            NtStatusWindows::STATUS_CANT_TERMINATE_SELF => Some(0xc00000db),
            NtStatusWindows::STATUS_INVALID_SERVER_STATE => Some(0xc00000dc),
            NtStatusWindows::STATUS_INVALID_DOMAIN_STATE => Some(0xc00000dd),
            NtStatusWindows::STATUS_INVALID_DOMAIN_ROLE => Some(0xc00000de),
            NtStatusWindows::STATUS_NO_SUCH_DOMAIN => Some(0xc00000df),
            NtStatusWindows::STATUS_DOMAIN_EXISTS => Some(0xc00000e0),
            NtStatusWindows::STATUS_DOMAIN_LIMIT_EXCEEDED => Some(0xc00000e1),
            NtStatusWindows::STATUS_OPLOCK_NOT_GRANTED => Some(0xc00000e2),
            NtStatusWindows::STATUS_INVALID_OPLOCK_PROTOCOL => Some(0xc00000e3),
            NtStatusWindows::STATUS_INTERNAL_DB_CORRUPTION => Some(0xc00000e4),
            _ => None,
        }
    }

    /// One slice of the symbol table.
    #[verifier::spinoff_prover]
    #[verifier::rlimit(100)]
    fn from_u32_part7(raw: u32) -> (r: Option<NtStatusWindows>)
        ensures
            r == NtStatusWindows::spec_from_u32_part7(raw),
    {
        match raw {
            0xc00000b3 => Some(NtStatusWindows::STATUS_PIPE_LISTENING),
            0xc00000b4 => Some(NtStatusWindows::STATUS_INVALID_READ_MODE),
            0xc00000b5 => Some(NtStatusWindows::STATUS_IO_TIMEOUT),
            0xc00000b6 => Some(NtStatusWindows::STATUS_FILE_FORCED_CLOSED),
            0xc00000b7 => Some(NtStatusWindows::STATUS_PROFILING_NOT_STARTED),
            0xc00000b8 => Some(NtStatusWindows::STATUS_PROFILING_NOT_STOPPED),
            0xc00000b9 => Some(NtStatusWindows::STATUS_COULD_NOT_INTERPRET),
            0xc00000ba => Some(NtStatusWindows::STATUS_FILE_IS_A_DIRECTORY),
            0xc00000bb => Some(NtStatusWindows::STATUS_NOT_SUPPORTED),
            0xc00000bc => Some(NtStatusWindows::STATUS_REMOTE_NOT_LISTENING),
            0xc00000bd => Some(NtStatusWindows::STATUS_DUPLICATE_NAME),
            0xc00000be => Some(NtStatusWindows::STATUS_BAD_NETWORK_PATH),
            0xc00000bf => Some(NtStatusWindows::STATUS_NETWORK_BUSY),
            0xc00000c0 => Some(NtStatusWindows::STATUS_DEVICE_DOES_NOT_EXIST),
            0xc00000c1 => Some(NtStatusWindows::STATUS_TOO_MANY_COMMANDS),
            0xc00000c2 => Some(NtStatusWindows::STATUS_ADAPTER_HARDWARE_ERROR),
            0xc00000c3 => Some(NtStatusWindows::STATUS_INVALID_NETWORK_RESPONSE),
            0xc00000c4 => Some(NtStatusWindows::STATUS_UNEXPECTED_NETWORK_ERROR),
            0xc00000c5 => Some(NtStatusWindows::STATUS_BAD_REMOTE_ADAPTER),
            0xc00000c6 => Some(NtStatusWindows::STATUS_PRINT_QUEUE_FULL),
            0xc00000c7 => Some(NtStatusWindows::STATUS_NO_SPOOL_SPACE),
            0xc00000c8 => Some(NtStatusWindows::STATUS_PRINT_CANCELLED),
            0xc00000c9 => Some(NtStatusWindows::STATUS_NETWORK_NAME_DELETED),
            0xc00000ca => Some(NtStatusWindows::STATUS_NETWORK_ACCESS_DENIED),
            0xc00000cb => Some(NtStatusWindows::STATUS_BAD_DEVICE_TYPE),
            0xc00000cc => Some(NtStatusWindows::STATUS_BAD_NETWORK_NAME),
            0xc00000cd => Some(NtStatusWindows::STATUS_TOO_MANY_NAMES),
            0xc00000ce => Some(NtStatusWindows::STATUS_TOO_MANY_SESSIONS),
            0xc00000cf => Some(NtStatusWindows::STATUS_SHARING_PAUSED),
            0xc00000d0 => Some(NtStatusWindows::STATUS_REQUEST_NOT_ACCEPTED),
            0xc00000d1 => Some(NtStatusWindows::STATUS_REDIRECTOR_PAUSED),
            0xc00000d2 => Some(NtStatusWindows::STATUS_NET_WRITE_FAULT),
            0xc00000d3 => Some(NtStatusWindows::STATUS_PROFILING_AT_LIMIT),
            0xc00000d4 => Some(NtStatusWindows::STATUS_NOT_SAME_DEVICE),
            0xc00000d5 => Some(NtStatusWindows::STATUS_FILE_RENAMED),
            0xc00000d6 => Some(NtStatusWindows::STATUS_VIRTUAL_CIRCUIT_CLOSED),
            0xc00000d7 => Some(NtStatusWindows::STATUS_NO_SECURITY_ON_OBJECT),
            0xc00000d8 => Some(NtStatusWindows::STATUS_CANT_WAIT),
            0xc00000d9 => Some(NtStatusWindows::STATUS_PIPE_EMPTY),
            0xc00000da => Some(NtStatusWindows::STATUS_CANT_ACCESS_DOMAIN_INFO),
            0xc00000db => Some(NtStatusWindows::STATUS_CANT_TERMINATE_SELF),
            0xc00000dc => Some(NtStatusWindows::STATUS_INVALID_SERVER_STATE),
            0xc00000dd => Some(NtStatusWindows::STATUS_INVALID_DOMAIN_STATE),
            0xc00000de => Some(NtStatusWindows::STATUS_INVALID_DOMAIN_ROLE),
            0xc00000df => Some(NtStatusWindows::STATUS_NO_SUCH_DOMAIN),
            0xc00000e0 => Some(NtStatusWindows::STATUS_DOMAIN_EXISTS),
            0xc00000e1 => Some(NtStatusWindows::STATUS_DOMAIN_LIMIT_EXCEEDED),
            0xc00000e2 => Some(NtStatusWindows::STATUS_OPLOCK_NOT_GRANTED),
            0xc00000e3 => Some(NtStatusWindows::STATUS_INVALID_OPLOCK_PROTOCOL),
            0xc00000e4 => Some(NtStatusWindows::STATUS_INTERNAL_DB_CORRUPTION),
            _ => None,
        }
    }

    /// One slice of the symbol table: the raw value of this symbol,
    /// where this slice holds it.
    pub open spec fn spec_to_u32_part8(self) -> Option<u32> {
        match self {
            NtStatusWindows::STATUS_INTERNAL_ERROR => Some(0xc00000e5),
            NtStatusWindows::STATUS_GENERIC_NOT_MAPPED => Some(0xc00000e6),
            NtStatusWindows::STATUS_BAD_DESCRIPTOR_FORMAT => Some(0xc00000e7),
            NtStatusWindows::STATUS_INVALID_USER_BUFFER => Some(0xc00000e8),
            NtStatusWindows::STATUS_UNEXPECTED_IO_ERROR => Some(0xc00000e9),
            NtStatusWindows::STATUS_UNEXPECTED_MM_CREATE_ERR => Some(0xc00000ea),
            NtStatusWindows::STATUS_UNEXPECTED_MM_MAP_ERROR => Some(0xc00000eb),
            NtStatusWindows::STATUS_UNEXPECTED_MM_EXTEND_ERR => Some(0xc00000ec),
            NtStatusWindows::STATUS_NOT_LOGON_PROCESS => Some(0xc00000ed),
            NtStatusWindows::STATUS_LOGON_SESSION_EXISTS => Some(0xc00000ee),
            NtStatusWindows::STATUS_INVALID_PARAMETER_1 => Some(0xc00000ef),
            NtStatusWindows::STATUS_INVALID_PARAMETER_2 => Some(0xc00000f0),
            NtStatusWindows::STATUS_INVALID_PARAMETER_3 => Some(0xc00000f1),
            NtStatusWindows::STATUS_INVALID_PARAMETER_4 => Some(0xc00000f2),
            NtStatusWindows::STATUS_INVALID_PARAMETER_5 => Some(0xc00000f3),
            NtStatusWindows::STATUS_INVALID_PARAMETER_6 => Some(0xc00000f4),
            NtStatusWindows::STATUS_INVALID_PARAMETER_7 => Some(0xc00000f5),
            NtStatusWindows::STATUS_INVALID_PARAMETER_8 => Some(0xc00000f6),
            NtStatusWindows::STATUS_INVALID_PARAMETER_9 => Some(0xc00000f7),
            NtStatusWindows::STATUS_INVALID_PARAMETER_10 => Some(0xc00000f8),
            NtStatusWindows::STATUS_INVALID_PARAMETER_11 => Some(0xc00000f9),
            NtStatusWindows::STATUS_INVALID_PARAMETER_12 => Some(0xc00000fa),
            NtStatusWindows::STATUS_REDIRECTOR_NOT_STARTED => Some(0xc00000fb),
            NtStatusWindows::STATUS_REDIRECTOR_STARTED => Some(0xc00000fc),
            NtStatusWindows::STATUS_STACK_OVERFLOW => Some(0xc00000fd),
            NtStatusWindows::STATUS_NO_SUCH_PACKAGE => Some(0xc00000fe),
            NtStatusWindows::STATUS_BAD_FUNCTION_TABLE => Some(0xc00000ff),
            NtStatusWindows::STATUS_VARIABLE_NOT_FOUND => Some(0xc0000100),
            NtStatusWindows::STATUS_DIRECTORY_NOT_EMPTY => Some(0xc0000101),
            NtStatusWindows::STATUS_FILE_CORRUPT_ERROR => Some(0xc0000102),
            NtStatusWindows::STATUS_NOT_A_DIRECTORY => Some(0xc0000103),
            NtStatusWindows::STATUS_BAD_LOGON_SESSION_STATE => Some(0xc0000104),
            NtStatusWindows::STATUS_LOGON_SESSION_COLLISION => Some(0xc0000105),
            NtStatusWindows::STATUS_NAME_TOO_LONG => Some(0xc0000106),
            NtStatusWindows::STATUS_FILES_OPEN => Some(0xc0000107),
            NtStatusWindows::STATUS_CONNECTION_IN_USE => Some(0xc0000108),
            NtStatusWindows::STATUS_MESSAGE_NOT_FOUND => Some(0xc0000109),
            NtStatusWindows::STATUS_PROCESS_IS_TERMINATING => Some(0xc000010a),
            NtStatusWindows::STATUS_INVALID_LOGON_TYPE => Some(0xc000010b),
            NtStatusWindows::STATUS_NO_GUID_TRANSLATION => Some(0xc000010c),
            NtStatusWindows::STATUS_CANNOT_IMPERSONATE => Some(0xc000010d),
            NtStatusWindows::STATUS_IMAGE_ALREADY_LOADED => Some(0xc000010e),
            NtStatusWindows::STATUS_ABIOS_NOT_PRESENT => Some(0xc000010f),
            NtStatusWindows::STATUS_ABIOS_LID_NOT_EXIST => Some(0xc0000110),
            NtStatusWindows::STATUS_ABIOS_LID_ALREADY_OWNED => Some(0xc0000111),
            NtStatusWindows::STATUS_ABIOS_NOT_LID_OWNER => Some(0xc0000112),
            NtStatusWindows::STATUS_ABIOS_INVALID_COMMAND => Some(0xc0000113),
            NtStatusWindows::STATUS_ABIOS_INVALID_LID => Some(0xc0000114),
            NtStatusWindows::STATUS_ABIOS_SELECTOR_NOT_AVAILABLE => Some(0xc0000115),
            NtStatusWindows::STATUS_ABIOS_INVALID_SELECTOR => Some(0xc0000116),
            _ => None,
        }
    }

    /// One slice of the symbol table: the symbol this slice gives a
    /// raw value, where it holds one.
    pub open spec fn spec_from_u32_part8(raw: u32) -> Option<NtStatusWindows> {
        match raw {
            0xc00000e5 => Some(NtStatusWindows::STATUS_INTERNAL_ERROR),
            0xc00000e6 => Some(NtStatusWindows::STATUS_GENERIC_NOT_MAPPED),
            0xc00000e7 => Some(NtStatusWindows::STATUS_BAD_DESCRIPTOR_FORMAT),
            0xc00000e8 => Some(NtStatusWindows::STATUS_INVALID_USER_BUFFER),
            0xc00000e9 => Some(NtStatusWindows::STATUS_UNEXPECTED_IO_ERROR),
            0xc00000ea => Some(NtStatusWindows::STATUS_UNEXPECTED_MM_CREATE_ERR),
            0xc00000eb => Some(NtStatusWindows::STATUS_UNEXPECTED_MM_MAP_ERROR),
            0xc00000ec => Some(NtStatusWindows::STATUS_UNEXPECTED_MM_EXTEND_ERR),
            0xc00000ed => Some(NtStatusWindows::STATUS_NOT_LOGON_PROCESS),
            0xc00000ee => Some(NtStatusWindows::STATUS_LOGON_SESSION_EXISTS),
            0xc00000ef => Some(NtStatusWindows::STATUS_INVALID_PARAMETER_1),
            0xc00000f0 => Some(NtStatusWindows::STATUS_INVALID_PARAMETER_2),
            0xc00000f1 => Some(NtStatusWindows::STATUS_INVALID_PARAMETER_3),
            0xc00000f2 => Some(NtStatusWindows::STATUS_INVALID_PARAMETER_4),
            0xc00000f3 => Some(NtStatusWindows::STATUS_INVALID_PARAMETER_5),
            0xc00000f4 => Some(NtStatusWindows::STATUS_INVALID_PARAMETER_6),
            0xc00000f5 => Some(NtStatusWindows::STATUS_INVALID_PARAMETER_7),
            0xc00000f6 => Some(NtStatusWindows::STATUS_INVALID_PARAMETER_8),
            0xc00000f7 => Some(NtStatusWindows::STATUS_INVALID_PARAMETER_9),
            0xc00000f8 => Some(NtStatusWindows::STATUS_INVALID_PARAMETER_10),
            0xc00000f9 => Some(NtStatusWindows::STATUS_INVALID_PARAMETER_11),
            0xc00000fa => Some(NtStatusWindows::STATUS_INVALID_PARAMETER_12),
            0xc00000fb => Some(NtStatusWindows::STATUS_REDIRECTOR_NOT_STARTED),
            0xc00000fc => Some(NtStatusWindows::STATUS_REDIRECTOR_STARTED),
            0xc00000fd => Some(NtStatusWindows::STATUS_STACK_OVERFLOW),
            0xc00000fe => Some(NtStatusWindows::STATUS_NO_SUCH_PACKAGE),
            0xc00000ff => Some(NtStatusWindows::STATUS_BAD_FUNCTION_TABLE),
            0xc0000100 => Some(NtStatusWindows::STATUS_VARIABLE_NOT_FOUND),
            0xc0000101 => Some(NtStatusWindows::STATUS_DIRECTORY_NOT_EMPTY),
            0xc0000102 => Some(NtStatusWindows::STATUS_FILE_CORRUPT_ERROR),
            0xc0000103 => Some(NtStatusWindows::STATUS_NOT_A_DIRECTORY),
            0xc0000104 => Some(NtStatusWindows::STATUS_BAD_LOGON_SESSION_STATE),
            0xc0000105 => Some(NtStatusWindows::STATUS_LOGON_SESSION_COLLISION),
            0xc0000106 => Some(NtStatusWindows::STATUS_NAME_TOO_LONG),
            0xc0000107 => Some(NtStatusWindows::STATUS_FILES_OPEN),
            0xc0000108 => Some(NtStatusWindows::STATUS_CONNECTION_IN_USE),
            0xc0000109 => Some(NtStatusWindows::STATUS_MESSAGE_NOT_FOUND),
            0xc000010a => Some(NtStatusWindows::STATUS_PROCESS_IS_TERMINATING),
            0xc000010b => Some(NtStatusWindows::STATUS_INVALID_LOGON_TYPE),
            0xc000010c => Some(NtStatusWindows::STATUS_NO_GUID_TRANSLATION),
            0xc000010d => Some(NtStatusWindows::STATUS_CANNOT_IMPERSONATE),
            0xc000010e => Some(NtStatusWindows::STATUS_IMAGE_ALREADY_LOADED),
            0xc000010f => Some(NtStatusWindows::STATUS_ABIOS_NOT_PRESENT),
            0xc0000110 => Some(NtStatusWindows::STATUS_ABIOS_LID_NOT_EXIST),
            0xc0000111 => Some(NtStatusWindows::STATUS_ABIOS_LID_ALREADY_OWNED),
            0xc0000112 => Some(NtStatusWindows::STATUS_ABIOS_NOT_LID_OWNER),
            0xc0000113 => Some(NtStatusWindows::STATUS_ABIOS_INVALID_COMMAND),
            0xc0000114 => Some(NtStatusWindows::STATUS_ABIOS_INVALID_LID),
            0xc0000115 => Some(NtStatusWindows::STATUS_ABIOS_SELECTOR_NOT_AVAILABLE),
            0xc0000116 => Some(NtStatusWindows::STATUS_ABIOS_INVALID_SELECTOR),
            _ => None,
        }
    }

    /// One slice of the symbol table.
    #[verifier::spinoff_prover]
    #[verifier::rlimit(100)]
    fn to_u32_part8(self) -> (r: Option<u32>)
        ensures
            r == self.spec_to_u32_part8(),
    {
        match self {
            NtStatusWindows::STATUS_INTERNAL_ERROR => Some(0xc00000e5),
            NtStatusWindows::STATUS_GENERIC_NOT_MAPPED => Some(0xc00000e6),
            NtStatusWindows::STATUS_BAD_DESCRIPTOR_FORMAT => Some(0xc00000e7),
            NtStatusWindows::STATUS_INVALID_USER_BUFFER => Some(0xc00000e8),
            NtStatusWindows::STATUS_UNEXPECTED_IO_ERROR => Some(0xc00000e9),
            NtStatusWindows::STATUS_UNEXPECTED_MM_CREATE_ERR => Some(0xc00000ea),
            NtStatusWindows::STATUS_UNEXPECTED_MM_MAP_ERROR => Some(0xc00000eb),
            NtStatusWindows::STATUS_UNEXPECTED_MM_EXTEND_ERR => Some(0xc00000ec),
            NtStatusWindows::STATUS_NOT_LOGON_PROCESS => Some(0xc00000ed),
            NtStatusWindows::STATUS_LOGON_SESSION_EXISTS => Some(0xc00000ee),
            NtStatusWindows::STATUS_INVALID_PARAMETER_1 => Some(0xc00000ef),
            NtStatusWindows::STATUS_INVALID_PARAMETER_2 => Some(0xc00000f0),
            NtStatusWindows::STATUS_INVALID_PARAMETER_3 => Some(0xc00000f1),
            NtStatusWindows::STATUS_INVALID_PARAMETER_4 => Some(0xc00000f2),
            NtStatusWindows::STATUS_INVALID_PARAMETER_5 => Some(0xc00000f3),
            NtStatusWindows::STATUS_INVALID_PARAMETER_6 => Some(0xc00000f4),
            NtStatusWindows::STATUS_INVALID_PARAMETER_7 => Some(0xc00000f5),
            NtStatusWindows::STATUS_INVALID_PARAMETER_8 => Some(0xc00000f6),
            NtStatusWindows::STATUS_INVALID_PARAMETER_9 => Some(0xc00000f7),
            NtStatusWindows::STATUS_INVALID_PARAMETER_10 => Some(0xc00000f8),
            NtStatusWindows::STATUS_INVALID_PARAMETER_11 => Some(0xc00000f9),
            NtStatusWindows::STATUS_INVALID_PARAMETER_12 => Some(0xc00000fa),
            NtStatusWindows::STATUS_REDIRECTOR_NOT_STARTED => Some(0xc00000fb),
            NtStatusWindows::STATUS_REDIRECTOR_STARTED => Some(0xc00000fc),
            NtStatusWindows::STATUS_STACK_OVERFLOW => Some(0xc00000fd),
            NtStatusWindows::STATUS_NO_SUCH_PACKAGE => Some(0xc00000fe),
            NtStatusWindows::STATUS_BAD_FUNCTION_TABLE => Some(0xc00000ff),
            NtStatusWindows::STATUS_VARIABLE_NOT_FOUND => Some(0xc0000100),
            NtStatusWindows::STATUS_DIRECTORY_NOT_EMPTY => Some(0xc0000101),
            NtStatusWindows::STATUS_FILE_CORRUPT_ERROR => Some(0xc0000102),
            NtStatusWindows::STATUS_NOT_A_DIRECTORY => Some(0xc0000103),
            NtStatusWindows::STATUS_BAD_LOGON_SESSION_STATE => Some(0xc0000104),
            NtStatusWindows::STATUS_LOGON_SESSION_COLLISION => Some(0xc0000105),
            NtStatusWindows::STATUS_NAME_TOO_LONG => Some(0xc0000106),
            NtStatusWindows::STATUS_FILES_OPEN => Some(0xc0000107),
            NtStatusWindows::STATUS_CONNECTION_IN_USE => Some(0xc0000108),
            NtStatusWindows::STATUS_MESSAGE_NOT_FOUND => Some(0xc0000109),
            NtStatusWindows::STATUS_PROCESS_IS_TERMINATING => Some(0xc000010a),
            NtStatusWindows::STATUS_INVALID_LOGON_TYPE => Some(0xc000010b),
            NtStatusWindows::STATUS_NO_GUID_TRANSLATION => Some(0xc000010c),
            NtStatusWindows::STATUS_CANNOT_IMPERSONATE => Some(0xc000010d),
            NtStatusWindows::STATUS_IMAGE_ALREADY_LOADED => Some(0xc000010e),
            NtStatusWindows::STATUS_ABIOS_NOT_PRESENT => Some(0xc000010f),
            NtStatusWindows::STATUS_ABIOS_LID_NOT_EXIST => Some(0xc0000110),
            NtStatusWindows::STATUS_ABIOS_LID_ALREADY_OWNED => Some(0xc0000111),
            NtStatusWindows::STATUS_ABIOS_NOT_LID_OWNER => Some(0xc0000112),
            NtStatusWindows::STATUS_ABIOS_INVALID_COMMAND => Some(0xc0000113),
            NtStatusWindows::STATUS_ABIOS_INVALID_LID => Some(0xc0000114),
            NtStatusWindows::STATUS_ABIOS_SELECTOR_NOT_AVAILABLE => Some(0xc0000115),
            NtStatusWindows::STATUS_ABIOS_INVALID_SELECTOR => Some(0xc0000116),
            _ => None,
        }
    }

    /// One slice of the symbol table.
    #[verifier::spinoff_prover]
    #[verifier::rlimit(100)]
    fn from_u32_part8(raw: u32) -> (r: Option<NtStatusWindows>)
        ensures
            r == NtStatusWindows::spec_from_u32_part8(raw),
    {
        match raw {
            0xc00000e5 => Some(NtStatusWindows::STATUS_INTERNAL_ERROR),
            0xc00000e6 => Some(NtStatusWindows::STATUS_GENERIC_NOT_MAPPED),
            0xc00000e7 => Some(NtStatusWindows::STATUS_BAD_DESCRIPTOR_FORMAT),
            0xc00000e8 => Some(NtStatusWindows::STATUS_INVALID_USER_BUFFER),
            0xc00000e9 => Some(NtStatusWindows::STATUS_UNEXPECTED_IO_ERROR),
            0xc00000ea => Some(NtStatusWindows::STATUS_UNEXPECTED_MM_CREATE_ERR),
            0xc00000eb => Some(NtStatusWindows::STATUS_UNEXPECTED_MM_MAP_ERROR),
            0xc00000ec => Some(NtStatusWindows::STATUS_UNEXPECTED_MM_EXTEND_ERR),
            0xc00000ed => Some(NtStatusWindows::STATUS_NOT_LOGON_PROCESS),
            0xc00000ee => Some(NtStatusWindows::STATUS_LOGON_SESSION_EXISTS),
            0xc00000ef => Some(NtStatusWindows::STATUS_INVALID_PARAMETER_1),
            0xc00000f0 => Some(NtStatusWindows::STATUS_INVALID_PARAMETER_2),
            0xc00000f1 => Some(NtStatusWindows::STATUS_INVALID_PARAMETER_3),
            0xc00000f2 => Some(NtStatusWindows::STATUS_INVALID_PARAMETER_4),
            0xc00000f3 => Some(NtStatusWindows::STATUS_INVALID_PARAMETER_5),
            0xc00000f4 => Some(NtStatusWindows::STATUS_INVALID_PARAMETER_6),
            0xc00000f5 => Some(NtStatusWindows::STATUS_INVALID_PARAMETER_7),
            0xc00000f6 => Some(NtStatusWindows::STATUS_INVALID_PARAMETER_8),
            0xc00000f7 => Some(NtStatusWindows::STATUS_INVALID_PARAMETER_9),
            0xc00000f8 => Some(NtStatusWindows::STATUS_INVALID_PARAMETER_10),
            0xc00000f9 => Some(NtStatusWindows::STATUS_INVALID_PARAMETER_11),
            0xc00000fa => Some(NtStatusWindows::STATUS_INVALID_PARAMETER_12),
            0xc00000fb => Some(NtStatusWindows::STATUS_REDIRECTOR_NOT_STARTED),
            0xc00000fc => Some(NtStatusWindows::STATUS_REDIRECTOR_STARTED),
            0xc00000fd => Some(NtStatusWindows::STATUS_STACK_OVERFLOW),
            0xc00000fe => Some(NtStatusWindows::STATUS_NO_SUCH_PACKAGE),
            0xc00000ff => Some(NtStatusWindows::STATUS_BAD_FUNCTION_TABLE),
            0xc0000100 => Some(NtStatusWindows::STATUS_VARIABLE_NOT_FOUND),
            0xc0000101 => Some(NtStatusWindows::STATUS_DIRECTORY_NOT_EMPTY),
            0xc0000102 => Some(NtStatusWindows::STATUS_FILE_CORRUPT_ERROR),
            0xc0000103 => Some(NtStatusWindows::STATUS_NOT_A_DIRECTORY),
            0xc0000104 => Some(NtStatusWindows::STATUS_BAD_LOGON_SESSION_STATE),
            0xc0000105 => Some(NtStatusWindows::STATUS_LOGON_SESSION_COLLISION),
            0xc0000106 => Some(NtStatusWindows::STATUS_NAME_TOO_LONG),
            0xc0000107 => Some(NtStatusWindows::STATUS_FILES_OPEN),
            0xc0000108 => Some(NtStatusWindows::STATUS_CONNECTION_IN_USE),
            0xc0000109 => Some(NtStatusWindows::STATUS_MESSAGE_NOT_FOUND),
            0xc000010a => Some(NtStatusWindows::STATUS_PROCESS_IS_TERMINATING),
            0xc000010b => Some(NtStatusWindows::STATUS_INVALID_LOGON_TYPE),
            0xc000010c => Some(NtStatusWindows::STATUS_NO_GUID_TRANSLATION),
            0xc000010d => Some(NtStatusWindows::STATUS_CANNOT_IMPERSONATE),
            0xc000010e => Some(NtStatusWindows::STATUS_IMAGE_ALREADY_LOADED),
            0xc000010f => Some(NtStatusWindows::STATUS_ABIOS_NOT_PRESENT),
            0xc0000110 => Some(NtStatusWindows::STATUS_ABIOS_LID_NOT_EXIST),
            0xc0000111 => Some(NtStatusWindows::STATUS_ABIOS_LID_ALREADY_OWNED),
            0xc0000112 => Some(NtStatusWindows::STATUS_ABIOS_NOT_LID_OWNER),
            0xc0000113 => Some(NtStatusWindows::STATUS_ABIOS_INVALID_COMMAND),
            0xc0000114 => Some(NtStatusWindows::STATUS_ABIOS_INVALID_LID),
            0xc0000115 => Some(NtStatusWindows::STATUS_ABIOS_SELECTOR_NOT_AVAILABLE),
            0xc0000116 => Some(NtStatusWindows::STATUS_ABIOS_INVALID_SELECTOR),
            _ => None,
        }
    }

    /// One slice of the symbol table: the raw value of this symbol,
    /// where this slice holds it.
    pub open spec fn spec_to_u32_part9(self) -> Option<u32> {
        match self {
            NtStatusWindows::STATUS_NO_LDT => Some(0xc0000117),
            NtStatusWindows::STATUS_INVALID_LDT_SIZE => Some(0xc0000118),
            NtStatusWindows::STATUS_INVALID_LDT_OFFSET => Some(0xc0000119),
            NtStatusWindows::STATUS_INVALID_LDT_DESCRIPTOR => Some(0xc000011a),
            NtStatusWindows::STATUS_INVALID_IMAGE_NE_FORMAT => Some(0xc000011b),
            NtStatusWindows::STATUS_RXACT_INVALID_STATE => Some(0xc000011c),
            NtStatusWindows::STATUS_RXACT_COMMIT_FAILURE => Some(0xc000011d),
            NtStatusWindows::STATUS_MAPPED_FILE_SIZE_ZERO => Some(0xc000011e),
            NtStatusWindows::STATUS_TOO_MANY_OPENED_FILES => Some(0xc000011f),
            NtStatusWindows::STATUS_CANCELLED => Some(0xc0000120),
            NtStatusWindows::STATUS_CANNOT_DELETE => Some(0xc0000121),
            NtStatusWindows::STATUS_INVALID_COMPUTER_NAME => Some(0xc0000122),
            NtStatusWindows::STATUS_FILE_DELETED => Some(0xc0000123),
            NtStatusWindows::STATUS_SPECIAL_ACCOUNT => Some(0xc0000124),
            NtStatusWindows::STATUS_SPECIAL_GROUP => Some(0xc0000125),
            NtStatusWindows::STATUS_SPECIAL_USER => Some(0xc0000126),
            NtStatusWindows::STATUS_MEMBERS_PRIMARY_GROUP => Some(0xc0000127),
            NtStatusWindows::STATUS_FILE_CLOSED => Some(0xc0000128),
            NtStatusWindows::STATUS_TOO_MANY_THREADS => Some(0xc0000129),
            NtStatusWindows::STATUS_THREAD_NOT_IN_PROCESS => Some(0xc000012a),
            NtStatusWindows::STATUS_TOKEN_ALREADY_IN_USE => Some(0xc000012b),
            NtStatusWindows::STATUS_PAGEFILE_QUOTA_EXCEEDED => Some(0xc000012c),
            NtStatusWindows::STATUS_COMMITMENT_LIMIT => Some(0xc000012d),
            NtStatusWindows::STATUS_INVALID_IMAGE_LE_FORMAT => Some(0xc000012e),
            NtStatusWindows::STATUS_INVALID_IMAGE_NOT_MZ => Some(0xc000012f),
            NtStatusWindows::STATUS_INVALID_IMAGE_PROTECT => Some(0xc0000130),
            NtStatusWindows::STATUS_INVALID_IMAGE_WIN_16 => Some(0xc0000131),
            NtStatusWindows::STATUS_LOGON_SERVER_CONFLICT => Some(0xc0000132),
            NtStatusWindows::STATUS_TIME_DIFFERENCE_AT_DC => Some(0xc0000133),
            NtStatusWindows::STATUS_SYNCHRONIZATION_REQUIRED => Some(0xc0000134),
            NtStatusWindows::STATUS_DLL_NOT_FOUND => Some(0xc0000135),
            NtStatusWindows::STATUS_OPEN_FAILED => Some(0xc0000136),
            NtStatusWindows::STATUS_IO_PRIVILEGE_FAILED => Some(0xc0000137),
            NtStatusWindows::STATUS_ORDINAL_NOT_FOUND => Some(0xc0000138),
            NtStatusWindows::STATUS_ENTRYPOINT_NOT_FOUND => Some(0xc0000139),
            NtStatusWindows::STATUS_CONTROL_C_EXIT => Some(0xc000013a),
            NtStatusWindows::STATUS_LOCAL_DISCONNECT => Some(0xc000013b),
            NtStatusWindows::STATUS_REMOTE_DISCONNECT => Some(0xc000013c),
            NtStatusWindows::STATUS_REMOTE_RESOURCES => Some(0xc000013d),
            NtStatusWindows::STATUS_LINK_FAILED => Some(0xc000013e),
            NtStatusWindows::STATUS_LINK_TIMEOUT => Some(0xc000013f),
            NtStatusWindows::STATUS_INVALID_CONNECTION => Some(0xc0000140),
            NtStatusWindows::STATUS_INVALID_ADDRESS => Some(0xc0000141),
            NtStatusWindows::STATUS_DLL_INIT_FAILED => Some(0xc0000142),
            NtStatusWindows::STATUS_MISSING_SYSTEMFILE => Some(0xc0000143),
            NtStatusWindows::STATUS_UNHANDLED_EXCEPTION => Some(0xc0000144),
            NtStatusWindows::STATUS_APP_INIT_FAILURE => Some(0xc0000145),
            NtStatusWindows::STATUS_PAGEFILE_CREATE_FAILED => Some(0xc0000146),
            NtStatusWindows::STATUS_NO_PAGEFILE => Some(0xc0000147),
            NtStatusWindows::STATUS_INVALID_LEVEL => Some(0xc0000148),
            _ => None,
        }
    }

    /// One slice of the symbol table: the symbol this slice gives a
    /// raw value, where it holds one.
    pub open spec fn spec_from_u32_part9(raw: u32) -> Option<NtStatusWindows> {
        match raw {
            0xc0000117 => Some(NtStatusWindows::STATUS_NO_LDT),
            0xc0000118 => Some(NtStatusWindows::STATUS_INVALID_LDT_SIZE),
            0xc0000119 => Some(NtStatusWindows::STATUS_INVALID_LDT_OFFSET),
            0xc000011a => Some(NtStatusWindows::STATUS_INVALID_LDT_DESCRIPTOR),
            0xc000011b => Some(NtStatusWindows::STATUS_INVALID_IMAGE_NE_FORMAT),
            0xc000011c => Some(NtStatusWindows::STATUS_RXACT_INVALID_STATE),
            0xc000011d => Some(NtStatusWindows::STATUS_RXACT_COMMIT_FAILURE),
            0xc000011e => Some(NtStatusWindows::STATUS_MAPPED_FILE_SIZE_ZERO),
            0xc000011f => Some(NtStatusWindows::STATUS_TOO_MANY_OPENED_FILES),
            0xc0000120 => Some(NtStatusWindows::STATUS_CANCELLED),
            0xc0000121 => Some(NtStatusWindows::STATUS_CANNOT_DELETE),
            0xc0000122 => Some(NtStatusWindows::STATUS_INVALID_COMPUTER_NAME),
            0xc0000123 => Some(NtStatusWindows::STATUS_FILE_DELETED),
            0xc0000124 => Some(NtStatusWindows::STATUS_SPECIAL_ACCOUNT),
            0xc0000125 => Some(NtStatusWindows::STATUS_SPECIAL_GROUP),
            0xc0000126 => Some(NtStatusWindows::STATUS_SPECIAL_USER),
            0xc0000127 => Some(NtStatusWindows::STATUS_MEMBERS_PRIMARY_GROUP),
            0xc0000128 => Some(NtStatusWindows::STATUS_FILE_CLOSED),
            0xc0000129 => Some(NtStatusWindows::STATUS_TOO_MANY_THREADS),
            0xc000012a => Some(NtStatusWindows::STATUS_THREAD_NOT_IN_PROCESS),
            0xc000012b => Some(NtStatusWindows::STATUS_TOKEN_ALREADY_IN_USE),
            0xc000012c => Some(NtStatusWindows::STATUS_PAGEFILE_QUOTA_EXCEEDED),
            0xc000012d => Some(NtStatusWindows::STATUS_COMMITMENT_LIMIT),
            0xc000012e => Some(NtStatusWindows::STATUS_INVALID_IMAGE_LE_FORMAT),
            0xc000012f => Some(NtStatusWindows::STATUS_INVALID_IMAGE_NOT_MZ),
            0xc0000130 => Some(NtStatusWindows::STATUS_INVALID_IMAGE_PROTECT),
            0xc0000131 => Some(NtStatusWindows::STATUS_INVALID_IMAGE_WIN_16),
            0xc0000132 => Some(NtStatusWindows::STATUS_LOGON_SERVER_CONFLICT),
            0xc0000133 => Some(NtStatusWindows::STATUS_TIME_DIFFERENCE_AT_DC),
            0xc0000134 => Some(NtStatusWindows::STATUS_SYNCHRONIZATION_REQUIRED),
            0xc0000135 => Some(NtStatusWindows::STATUS_DLL_NOT_FOUND),
            0xc0000136 => Some(NtStatusWindows::STATUS_OPEN_FAILED),
            0xc0000137 => Some(NtStatusWindows::STATUS_IO_PRIVILEGE_FAILED),
            0xc0000138 => Some(NtStatusWindows::STATUS_ORDINAL_NOT_FOUND),
            0xc0000139 => Some(NtStatusWindows::STATUS_ENTRYPOINT_NOT_FOUND),
            0xc000013a => Some(NtStatusWindows::STATUS_CONTROL_C_EXIT),
            0xc000013b => Some(NtStatusWindows::STATUS_LOCAL_DISCONNECT),
            0xc000013c => Some(NtStatusWindows::STATUS_REMOTE_DISCONNECT),
            0xc000013d => Some(NtStatusWindows::STATUS_REMOTE_RESOURCES),
            0xc000013e => Some(NtStatusWindows::STATUS_LINK_FAILED),
            0xc000013f => Some(NtStatusWindows::STATUS_LINK_TIMEOUT),
            0xc0000140 => Some(NtStatusWindows::STATUS_INVALID_CONNECTION),
            0xc0000141 => Some(NtStatusWindows::STATUS_INVALID_ADDRESS),
            0xc0000142 => Some(NtStatusWindows::STATUS_DLL_INIT_FAILED),
            0xc0000143 => Some(NtStatusWindows::STATUS_MISSING_SYSTEMFILE),
            0xc0000144 => Some(NtStatusWindows::STATUS_UNHANDLED_EXCEPTION),
            0xc0000145 => Some(NtStatusWindows::STATUS_APP_INIT_FAILURE),
            0xc0000146 => Some(NtStatusWindows::STATUS_PAGEFILE_CREATE_FAILED),
            0xc0000147 => Some(NtStatusWindows::STATUS_NO_PAGEFILE),
            0xc0000148 => Some(NtStatusWindows::STATUS_INVALID_LEVEL),
            _ => None,
        }
    }

    /// One slice of the symbol table.
    #[verifier::spinoff_prover]
    #[verifier::rlimit(100)]
    fn to_u32_part9(self) -> (r: Option<u32>)
        ensures
            r == self.spec_to_u32_part9(),
    {
        match self {
            NtStatusWindows::STATUS_NO_LDT => Some(0xc0000117),
            NtStatusWindows::STATUS_INVALID_LDT_SIZE => Some(0xc0000118),
            NtStatusWindows::STATUS_INVALID_LDT_OFFSET => Some(0xc0000119),
            NtStatusWindows::STATUS_INVALID_LDT_DESCRIPTOR => Some(0xc000011a),
            NtStatusWindows::STATUS_INVALID_IMAGE_NE_FORMAT => Some(0xc000011b),
            NtStatusWindows::STATUS_RXACT_INVALID_STATE => Some(0xc000011c),
            NtStatusWindows::STATUS_RXACT_COMMIT_FAILURE => Some(0xc000011d),
            NtStatusWindows::STATUS_MAPPED_FILE_SIZE_ZERO => Some(0xc000011e),
            NtStatusWindows::STATUS_TOO_MANY_OPENED_FILES => Some(0xc000011f),
            NtStatusWindows::STATUS_CANCELLED => Some(0xc0000120),
            NtStatusWindows::STATUS_CANNOT_DELETE => Some(0xc0000121),
            NtStatusWindows::STATUS_INVALID_COMPUTER_NAME => Some(0xc0000122),
            NtStatusWindows::STATUS_FILE_DELETED => Some(0xc0000123),
            NtStatusWindows::STATUS_SPECIAL_ACCOUNT => Some(0xc0000124),
            NtStatusWindows::STATUS_SPECIAL_GROUP => Some(0xc0000125),
            NtStatusWindows::STATUS_SPECIAL_USER => Some(0xc0000126),
            NtStatusWindows::STATUS_MEMBERS_PRIMARY_GROUP => Some(0xc0000127),
            NtStatusWindows::STATUS_FILE_CLOSED => Some(0xc0000128),
            NtStatusWindows::STATUS_TOO_MANY_THREADS => Some(0xc0000129),
            NtStatusWindows::STATUS_THREAD_NOT_IN_PROCESS => Some(0xc000012a),
            NtStatusWindows::STATUS_TOKEN_ALREADY_IN_USE => Some(0xc000012b),
            NtStatusWindows::STATUS_PAGEFILE_QUOTA_EXCEEDED => Some(0xc000012c),
            NtStatusWindows::STATUS_COMMITMENT_LIMIT => Some(0xc000012d),
            NtStatusWindows::STATUS_INVALID_IMAGE_LE_FORMAT => Some(0xc000012e),
            NtStatusWindows::STATUS_INVALID_IMAGE_NOT_MZ => Some(0xc000012f),
            NtStatusWindows::STATUS_INVALID_IMAGE_PROTECT => Some(0xc0000130),
            NtStatusWindows::STATUS_INVALID_IMAGE_WIN_16 => Some(0xc0000131),
            NtStatusWindows::STATUS_LOGON_SERVER_CONFLICT => Some(0xc0000132),
            NtStatusWindows::STATUS_TIME_DIFFERENCE_AT_DC => Some(0xc0000133),
            NtStatusWindows::STATUS_SYNCHRONIZATION_REQUIRED => Some(0xc0000134),
            NtStatusWindows::STATUS_DLL_NOT_FOUND => Some(0xc0000135),
            NtStatusWindows::STATUS_OPEN_FAILED => Some(0xc0000136),
            NtStatusWindows::STATUS_IO_PRIVILEGE_FAILED => Some(0xc0000137),
            NtStatusWindows::STATUS_ORDINAL_NOT_FOUND => Some(0xc0000138),
            NtStatusWindows::STATUS_ENTRYPOINT_NOT_FOUND => Some(0xc0000139),
            NtStatusWindows::STATUS_CONTROL_C_EXIT => Some(0xc000013a),
            NtStatusWindows::STATUS_LOCAL_DISCONNECT => Some(0xc000013b),
            NtStatusWindows::STATUS_REMOTE_DISCONNECT => Some(0xc000013c),
            NtStatusWindows::STATUS_REMOTE_RESOURCES => Some(0xc000013d),
            NtStatusWindows::STATUS_LINK_FAILED => Some(0xc000013e),
            NtStatusWindows::STATUS_LINK_TIMEOUT => Some(0xc000013f),
            NtStatusWindows::STATUS_INVALID_CONNECTION => Some(0xc0000140),
            NtStatusWindows::STATUS_INVALID_ADDRESS => Some(0xc0000141),
            NtStatusWindows::STATUS_DLL_INIT_FAILED => Some(0xc0000142),
            NtStatusWindows::STATUS_MISSING_SYSTEMFILE => Some(0xc0000143),
            NtStatusWindows::STATUS_UNHANDLED_EXCEPTION => Some(0xc0000144),
            NtStatusWindows::STATUS_APP_INIT_FAILURE => Some(0xc0000145),
            NtStatusWindows::STATUS_PAGEFILE_CREATE_FAILED => Some(0xc0000146),
            NtStatusWindows::STATUS_NO_PAGEFILE => Some(0xc0000147),
            NtStatusWindows::STATUS_INVALID_LEVEL => Some(0xc0000148),
            _ => None,
        }
    }

    /// One slice of the symbol table.
    #[verifier::spinoff_prover]
    #[verifier::rlimit(100)]
    fn from_u32_part9(raw: u32) -> (r: Option<NtStatusWindows>)
        ensures
            r == NtStatusWindows::spec_from_u32_part9(raw),
    {
        match raw {
            0xc0000117 => Some(NtStatusWindows::STATUS_NO_LDT),
            0xc0000118 => Some(NtStatusWindows::STATUS_INVALID_LDT_SIZE),
            0xc0000119 => Some(NtStatusWindows::STATUS_INVALID_LDT_OFFSET),
            0xc000011a => Some(NtStatusWindows::STATUS_INVALID_LDT_DESCRIPTOR),
            0xc000011b => Some(NtStatusWindows::STATUS_INVALID_IMAGE_NE_FORMAT),
            0xc000011c => Some(NtStatusWindows::STATUS_RXACT_INVALID_STATE),
            0xc000011d => Some(NtStatusWindows::STATUS_RXACT_COMMIT_FAILURE),
            0xc000011e => Some(NtStatusWindows::STATUS_MAPPED_FILE_SIZE_ZERO),
            0xc000011f => Some(NtStatusWindows::STATUS_TOO_MANY_OPENED_FILES),
            0xc0000120 => Some(NtStatusWindows::STATUS_CANCELLED),
            0xc0000121 => Some(NtStatusWindows::STATUS_CANNOT_DELETE),
            0xc0000122 => Some(NtStatusWindows::STATUS_INVALID_COMPUTER_NAME),
            0xc0000123 => Some(NtStatusWindows::STATUS_FILE_DELETED),
            0xc0000124 => Some(NtStatusWindows::STATUS_SPECIAL_ACCOUNT),
            0xc0000125 => Some(NtStatusWindows::STATUS_SPECIAL_GROUP),
            0xc0000126 => Some(NtStatusWindows::STATUS_SPECIAL_USER),
            0xc0000127 => Some(NtStatusWindows::STATUS_MEMBERS_PRIMARY_GROUP),
            0xc0000128 => Some(NtStatusWindows::STATUS_FILE_CLOSED),
            0xc0000129 => Some(NtStatusWindows::STATUS_TOO_MANY_THREADS),
            0xc000012a => Some(NtStatusWindows::STATUS_THREAD_NOT_IN_PROCESS),
            0xc000012b => Some(NtStatusWindows::STATUS_TOKEN_ALREADY_IN_USE),
            0xc000012c => Some(NtStatusWindows::STATUS_PAGEFILE_QUOTA_EXCEEDED),
            0xc000012d => Some(NtStatusWindows::STATUS_COMMITMENT_LIMIT),
            0xc000012e => Some(NtStatusWindows::STATUS_INVALID_IMAGE_LE_FORMAT),
            0xc000012f => Some(NtStatusWindows::STATUS_INVALID_IMAGE_NOT_MZ),
            0xc0000130 => Some(NtStatusWindows::STATUS_INVALID_IMAGE_PROTECT),
            0xc0000131 => Some(NtStatusWindows::STATUS_INVALID_IMAGE_WIN_16),
            0xc0000132 => Some(NtStatusWindows::STATUS_LOGON_SERVER_CONFLICT),
            0xc0000133 => Some(NtStatusWindows::STATUS_TIME_DIFFERENCE_AT_DC),
            0xc0000134 => Some(NtStatusWindows::STATUS_SYNCHRONIZATION_REQUIRED),
            0xc0000135 => Some(NtStatusWindows::STATUS_DLL_NOT_FOUND),
            0xc0000136 => Some(NtStatusWindows::STATUS_OPEN_FAILED),
            0xc0000137 => Some(NtStatusWindows::STATUS_IO_PRIVILEGE_FAILED),
            0xc0000138 => Some(NtStatusWindows::STATUS_ORDINAL_NOT_FOUND),
            0xc0000139 => Some(NtStatusWindows::STATUS_ENTRYPOINT_NOT_FOUND),
            0xc000013a => Some(NtStatusWindows::STATUS_CONTROL_C_EXIT),
            0xc000013b => Some(NtStatusWindows::STATUS_LOCAL_DISCONNECT),
            0xc000013c => Some(NtStatusWindows::STATUS_REMOTE_DISCONNECT),
            0xc000013d => Some(NtStatusWindows::STATUS_REMOTE_RESOURCES),
            0xc000013e => Some(NtStatusWindows::STATUS_LINK_FAILED),
            0xc000013f => Some(NtStatusWindows::STATUS_LINK_TIMEOUT),
            0xc0000140 => Some(NtStatusWindows::STATUS_INVALID_CONNECTION),
            0xc0000141 => Some(NtStatusWindows::STATUS_INVALID_ADDRESS),
            0xc0000142 => Some(NtStatusWindows::STATUS_DLL_INIT_FAILED),
            0xc0000143 => Some(NtStatusWindows::STATUS_MISSING_SYSTEMFILE),
            0xc0000144 => Some(NtStatusWindows::STATUS_UNHANDLED_EXCEPTION),
            0xc0000145 => Some(NtStatusWindows::STATUS_APP_INIT_FAILURE),
            0xc0000146 => Some(NtStatusWindows::STATUS_PAGEFILE_CREATE_FAILED),
            0xc0000147 => Some(NtStatusWindows::STATUS_NO_PAGEFILE),
            0xc0000148 => Some(NtStatusWindows::STATUS_INVALID_LEVEL),
            _ => None,
        }
    }

    /// One slice of the symbol table: the raw value of this symbol,
    /// where this slice holds it.
    pub open spec fn spec_to_u32_part10(self) -> Option<u32> {
        match self {
            NtStatusWindows::STATUS_WRONG_PASSWORD_CORE => Some(0xc0000149),
            NtStatusWindows::STATUS_ILLEGAL_FLOAT_CONTEXT => Some(0xc000014a),
            NtStatusWindows::STATUS_PIPE_BROKEN => Some(0xc000014b),
            NtStatusWindows::STATUS_REGISTRY_CORRUPT => Some(0xc000014c),
            NtStatusWindows::STATUS_REGISTRY_IO_FAILED => Some(0xc000014d),
            NtStatusWindows::STATUS_NO_EVENT_PAIR => Some(0xc000014e),
            NtStatusWindows::STATUS_UNRECOGNIZED_VOLUME => Some(0xc000014f),
            NtStatusWindows::STATUS_SERIAL_NO_DEVICE_INITED => Some(0xc0000150),
            NtStatusWindows::STATUS_NO_SUCH_ALIAS => Some(0xc0000151),
            NtStatusWindows::STATUS_MEMBER_NOT_IN_ALIAS => Some(0xc0000152),
            NtStatusWindows::STATUS_MEMBER_IN_ALIAS => Some(0xc0000153),
            NtStatusWindows::STATUS_ALIAS_EXISTS => Some(0xc0000154),
            NtStatusWindows::STATUS_LOGON_NOT_GRANTED => Some(0xc0000155),
            NtStatusWindows::STATUS_TOO_MANY_SECRETS => Some(0xc0000156),
            NtStatusWindows::STATUS_SECRET_TOO_LONG => Some(0xc0000157),
            NtStatusWindows::STATUS_INTERNAL_DB_ERROR => Some(0xc0000158),
            NtStatusWindows::STATUS_FULLSCREEN_MODE => Some(0xc0000159),
            NtStatusWindows::STATUS_TOO_MANY_CONTEXT_IDS => Some(0xc000015a),
            NtStatusWindows::STATUS_LOGON_TYPE_NOT_GRANTED => Some(0xc000015b),
            NtStatusWindows::STATUS_NOT_REGISTRY_FILE => Some(0xc000015c),
            NtStatusWindows::STATUS_NT_CROSS_ENCRYPTION_REQUIRED => Some(0xc000015d),
            NtStatusWindows::STATUS_DOMAIN_CTRLR_CONFIG_ERROR => Some(0xc000015e),
            NtStatusWindows::STATUS_FT_MISSING_MEMBER => Some(0xc000015f),
            NtStatusWindows::STATUS_ILL_FORMED_SERVICE_ENTRY => Some(0xc0000160),
            NtStatusWindows::STATUS_ILLEGAL_CHARACTER => Some(0xc0000161),
            NtStatusWindows::STATUS_UNMAPPABLE_CHARACTER => Some(0xc0000162),
            NtStatusWindows::STATUS_UNDEFINED_CHARACTER => Some(0xc0000163),
            NtStatusWindows::STATUS_FLOPPY_VOLUME => Some(0xc0000164),
            NtStatusWindows::STATUS_FLOPPY_ID_MARK_NOT_FOUND => Some(0xc0000165),
            NtStatusWindows::STATUS_FLOPPY_WRONG_CYLINDER => Some(0xc0000166),
            NtStatusWindows::STATUS_FLOPPY_UNKNOWN_ERROR => Some(0xc0000167),
            NtStatusWindows::STATUS_FLOPPY_BAD_REGISTERS => Some(0xc0000168),
            NtStatusWindows::STATUS_DISK_RECALIBRATE_FAILED => Some(0xc0000169),
            NtStatusWindows::STATUS_DISK_OPERATION_FAILED => Some(0xc000016a),
            NtStatusWindows::STATUS_DISK_RESET_FAILED => Some(0xc000016b),
            NtStatusWindows::STATUS_SHARED_IRQ_BUSY => Some(0xc000016c),
            NtStatusWindows::STATUS_FT_ORPHANING => Some(0xc000016d),
            NtStatusWindows::STATUS_BIOS_FAILED_TO_CONNECT_INTERRUPT => Some(0xc000016e),
            NtStatusWindows::STATUS_PARTITION_FAILURE => Some(0xc0000172),
            NtStatusWindows::STATUS_INVALID_BLOCK_LENGTH => Some(0xc0000173),
            NtStatusWindows::STATUS_DEVICE_NOT_PARTITIONED => Some(0xc0000174),
            NtStatusWindows::STATUS_UNABLE_TO_LOCK_MEDIA => Some(0xc0000175),
            NtStatusWindows::STATUS_UNABLE_TO_UNLOAD_MEDIA => Some(0xc0000176),
            NtStatusWindows::STATUS_EOM_OVERFLOW => Some(0xc0000177),
            NtStatusWindows::STATUS_NO_MEDIA => Some(0xc0000178),
            NtStatusWindows::STATUS_NO_SUCH_MEMBER => Some(0xc000017a),
            NtStatusWindows::STATUS_INVALID_MEMBER => Some(0xc000017b),
            NtStatusWindows::STATUS_KEY_DELETED => Some(0xc000017c),
            NtStatusWindows::STATUS_NO_LOG_SPACE => Some(0xc000017d),
            NtStatusWindows::STATUS_TOO_MANY_SIDS => Some(0xc000017e),
            _ => None,
        }
    }

    /// One slice of the symbol table: the symbol this slice gives a
    /// raw value, where it holds one.
    pub open spec fn spec_from_u32_part10(raw: u32) -> Option<NtStatusWindows> {
        match raw {
            0xc0000149 => Some(NtStatusWindows::STATUS_WRONG_PASSWORD_CORE),
            0xc000014a => Some(NtStatusWindows::STATUS_ILLEGAL_FLOAT_CONTEXT),
            0xc000014b => Some(NtStatusWindows::STATUS_PIPE_BROKEN),
            0xc000014c => Some(NtStatusWindows::STATUS_REGISTRY_CORRUPT),
            0xc000014d => Some(NtStatusWindows::STATUS_REGISTRY_IO_FAILED),
            0xc000014e => Some(NtStatusWindows::STATUS_NO_EVENT_PAIR),
            0xc000014f => Some(NtStatusWindows::STATUS_UNRECOGNIZED_VOLUME),
            0xc0000150 => Some(NtStatusWindows::STATUS_SERIAL_NO_DEVICE_INITED),
            0xc0000151 => Some(NtStatusWindows::STATUS_NO_SUCH_ALIAS),
            0xc0000152 => Some(NtStatusWindows::STATUS_MEMBER_NOT_IN_ALIAS),
            0xc0000153 => Some(NtStatusWindows::STATUS_MEMBER_IN_ALIAS),
            0xc0000154 => Some(NtStatusWindows::STATUS_ALIAS_EXISTS),
            0xc0000155 => Some(NtStatusWindows::STATUS_LOGON_NOT_GRANTED),
            0xc0000156 => Some(NtStatusWindows::STATUS_TOO_MANY_SECRETS),
            0xc0000157 => Some(NtStatusWindows::STATUS_SECRET_TOO_LONG),
            0xc0000158 => Some(NtStatusWindows::STATUS_INTERNAL_DB_ERROR),
            0xc0000159 => Some(NtStatusWindows::STATUS_FULLSCREEN_MODE),
            0xc000015a => Some(NtStatusWindows::STATUS_TOO_MANY_CONTEXT_IDS),
            0xc000015b => Some(NtStatusWindows::STATUS_LOGON_TYPE_NOT_GRANTED),
            0xc000015c => Some(NtStatusWindows::STATUS_NOT_REGISTRY_FILE),
            0xc000015d => Some(NtStatusWindows::STATUS_NT_CROSS_ENCRYPTION_REQUIRED),
            0xc000015e => Some(NtStatusWindows::STATUS_DOMAIN_CTRLR_CONFIG_ERROR),
            0xc000015f => Some(NtStatusWindows::STATUS_FT_MISSING_MEMBER),
            0xc0000160 => Some(NtStatusWindows::STATUS_ILL_FORMED_SERVICE_ENTRY),
            0xc0000161 => Some(NtStatusWindows::STATUS_ILLEGAL_CHARACTER),
            0xc0000162 => Some(NtStatusWindows::STATUS_UNMAPPABLE_CHARACTER),
            0xc0000163 => Some(NtStatusWindows::STATUS_UNDEFINED_CHARACTER),
            0xc0000164 => Some(NtStatusWindows::STATUS_FLOPPY_VOLUME),
            0xc0000165 => Some(NtStatusWindows::STATUS_FLOPPY_ID_MARK_NOT_FOUND),
            0xc0000166 => Some(NtStatusWindows::STATUS_FLOPPY_WRONG_CYLINDER),
            0xc0000167 => Some(NtStatusWindows::STATUS_FLOPPY_UNKNOWN_ERROR),
            0xc0000168 => Some(NtStatusWindows::STATUS_FLOPPY_BAD_REGISTERS),
            0xc0000169 => Some(NtStatusWindows::STATUS_DISK_RECALIBRATE_FAILED),
            0xc000016a => Some(NtStatusWindows::STATUS_DISK_OPERATION_FAILED),
            0xc000016b => Some(NtStatusWindows::STATUS_DISK_RESET_FAILED),
            0xc000016c => Some(NtStatusWindows::STATUS_SHARED_IRQ_BUSY),
            0xc000016d => Some(NtStatusWindows::STATUS_FT_ORPHANING),
            0xc000016e => Some(NtStatusWindows::STATUS_BIOS_FAILED_TO_CONNECT_INTERRUPT),
            0xc0000172 => Some(NtStatusWindows::STATUS_PARTITION_FAILURE),
            0xc0000173 => Some(NtStatusWindows::STATUS_INVALID_BLOCK_LENGTH),
            0xc0000174 => Some(NtStatusWindows::STATUS_DEVICE_NOT_PARTITIONED),
            0xc0000175 => Some(NtStatusWindows::STATUS_UNABLE_TO_LOCK_MEDIA),
            0xc0000176 => Some(NtStatusWindows::STATUS_UNABLE_TO_UNLOAD_MEDIA),
            0xc0000177 => Some(NtStatusWindows::STATUS_EOM_OVERFLOW),
            0xc0000178 => Some(NtStatusWindows::STATUS_NO_MEDIA),
            0xc000017a => Some(NtStatusWindows::STATUS_NO_SUCH_MEMBER),
            0xc000017b => Some(NtStatusWindows::STATUS_INVALID_MEMBER),
            0xc000017c => Some(NtStatusWindows::STATUS_KEY_DELETED),
            0xc000017d => Some(NtStatusWindows::STATUS_NO_LOG_SPACE),
            0xc000017e => Some(NtStatusWindows::STATUS_TOO_MANY_SIDS),
            _ => None,
        }
    }

    /// One slice of the symbol table.
    #[verifier::spinoff_prover]
    #[verifier::rlimit(100)]
    fn to_u32_part10(self) -> (r: Option<u32>)
        ensures
            r == self.spec_to_u32_part10(),
    {
        match self {
            NtStatusWindows::STATUS_WRONG_PASSWORD_CORE => Some(0xc0000149),
            NtStatusWindows::STATUS_ILLEGAL_FLOAT_CONTEXT => Some(0xc000014a),
            NtStatusWindows::STATUS_PIPE_BROKEN => Some(0xc000014b),
            NtStatusWindows::STATUS_REGISTRY_CORRUPT => Some(0xc000014c),
            NtStatusWindows::STATUS_REGISTRY_IO_FAILED => Some(0xc000014d),
            NtStatusWindows::STATUS_NO_EVENT_PAIR => Some(0xc000014e),
            NtStatusWindows::STATUS_UNRECOGNIZED_VOLUME => Some(0xc000014f),
            NtStatusWindows::STATUS_SERIAL_NO_DEVICE_INITED => Some(0xc0000150),
            NtStatusWindows::STATUS_NO_SUCH_ALIAS => Some(0xc0000151),
            NtStatusWindows::STATUS_MEMBER_NOT_IN_ALIAS => Some(0xc0000152),
            NtStatusWindows::STATUS_MEMBER_IN_ALIAS => Some(0xc0000153),
            NtStatusWindows::STATUS_ALIAS_EXISTS => Some(0xc0000154),
            NtStatusWindows::STATUS_LOGON_NOT_GRANTED => Some(0xc0000155),
            NtStatusWindows::STATUS_TOO_MANY_SECRETS => Some(0xc0000156),
            NtStatusWindows::STATUS_SECRET_TOO_LONG => Some(0xc0000157),
            NtStatusWindows::STATUS_INTERNAL_DB_ERROR => Some(0xc0000158),
            NtStatusWindows::STATUS_FULLSCREEN_MODE => Some(0xc0000159),
            NtStatusWindows::STATUS_TOO_MANY_CONTEXT_IDS => Some(0xc000015a),
            NtStatusWindows::STATUS_LOGON_TYPE_NOT_GRANTED => Some(0xc000015b),
            NtStatusWindows::STATUS_NOT_REGISTRY_FILE => Some(0xc000015c),
            NtStatusWindows::STATUS_NT_CROSS_ENCRYPTION_REQUIRED => Some(0xc000015d),
            NtStatusWindows::STATUS_DOMAIN_CTRLR_CONFIG_ERROR => Some(0xc000015e),
            NtStatusWindows::STATUS_FT_MISSING_MEMBER => Some(0xc000015f),
            NtStatusWindows::STATUS_ILL_FORMED_SERVICE_ENTRY => Some(0xc0000160),
            NtStatusWindows::STATUS_ILLEGAL_CHARACTER => Some(0xc0000161),
            NtStatusWindows::STATUS_UNMAPPABLE_CHARACTER => Some(0xc0000162),
            NtStatusWindows::STATUS_UNDEFINED_CHARACTER => Some(0xc0000163),
            NtStatusWindows::STATUS_FLOPPY_VOLUME => Some(0xc0000164),
            NtStatusWindows::STATUS_FLOPPY_ID_MARK_NOT_FOUND => Some(0xc0000165),
            NtStatusWindows::STATUS_FLOPPY_WRONG_CYLINDER => Some(0xc0000166),
            NtStatusWindows::STATUS_FLOPPY_UNKNOWN_ERROR => Some(0xc0000167),
            NtStatusWindows::STATUS_FLOPPY_BAD_REGISTERS => Some(0xc0000168),
            NtStatusWindows::STATUS_DISK_RECALIBRATE_FAILED => Some(0xc0000169),
            NtStatusWindows::STATUS_DISK_OPERATION_FAILED => Some(0xc000016a),
            NtStatusWindows::STATUS_DISK_RESET_FAILED => Some(0xc000016b),
            NtStatusWindows::STATUS_SHARED_IRQ_BUSY => Some(0xc000016c),
            NtStatusWindows::STATUS_FT_ORPHANING => Some(0xc000016d),
            NtStatusWindows::STATUS_BIOS_FAILED_TO_CONNECT_INTERRUPT => Some(0xc000016e),
            NtStatusWindows::STATUS_PARTITION_FAILURE => Some(0xc0000172),
            NtStatusWindows::STATUS_INVALID_BLOCK_LENGTH => Some(0xc0000173),
            NtStatusWindows::STATUS_DEVICE_NOT_PARTITIONED => Some(0xc0000174),
            NtStatusWindows::STATUS_UNABLE_TO_LOCK_MEDIA => Some(0xc0000175),
            NtStatusWindows::STATUS_UNABLE_TO_UNLOAD_MEDIA => Some(0xc0000176),
            NtStatusWindows::STATUS_EOM_OVERFLOW => Some(0xc0000177),
            NtStatusWindows::STATUS_NO_MEDIA => Some(0xc0000178),
            NtStatusWindows::STATUS_NO_SUCH_MEMBER => Some(0xc000017a),
            NtStatusWindows::STATUS_INVALID_MEMBER => Some(0xc000017b),
            NtStatusWindows::STATUS_KEY_DELETED => Some(0xc000017c),
            NtStatusWindows::STATUS_NO_LOG_SPACE => Some(0xc000017d),
            NtStatusWindows::STATUS_TOO_MANY_SIDS => Some(0xc000017e),
            _ => None,
        }
    }

    /// One slice of the symbol table.
    #[verifier::spinoff_prover]
    #[verifier::rlimit(100)]
    fn from_u32_part10(raw: u32) -> (r: Option<NtStatusWindows>)
        ensures
            r == NtStatusWindows::spec_from_u32_part10(raw),
    {
        match raw {
            0xc0000149 => Some(NtStatusWindows::STATUS_WRONG_PASSWORD_CORE),
            0xc000014a => Some(NtStatusWindows::STATUS_ILLEGAL_FLOAT_CONTEXT),
            0xc000014b => Some(NtStatusWindows::STATUS_PIPE_BROKEN),
            0xc000014c => Some(NtStatusWindows::STATUS_REGISTRY_CORRUPT),
            0xc000014d => Some(NtStatusWindows::STATUS_REGISTRY_IO_FAILED),
            0xc000014e => Some(NtStatusWindows::STATUS_NO_EVENT_PAIR),
            0xc000014f => Some(NtStatusWindows::STATUS_UNRECOGNIZED_VOLUME),
            0xc0000150 => Some(NtStatusWindows::STATUS_SERIAL_NO_DEVICE_INITED),
            0xc0000151 => Some(NtStatusWindows::STATUS_NO_SUCH_ALIAS),
            0xc0000152 => Some(NtStatusWindows::STATUS_MEMBER_NOT_IN_ALIAS),
            0xc0000153 => Some(NtStatusWindows::STATUS_MEMBER_IN_ALIAS),
            0xc0000154 => Some(NtStatusWindows::STATUS_ALIAS_EXISTS),
            0xc0000155 => Some(NtStatusWindows::STATUS_LOGON_NOT_GRANTED),
            0xc0000156 => Some(NtStatusWindows::STATUS_TOO_MANY_SECRETS),
            0xc0000157 => Some(NtStatusWindows::STATUS_SECRET_TOO_LONG),
            0xc0000158 => Some(NtStatusWindows::STATUS_INTERNAL_DB_ERROR),
            0xc0000159 => Some(NtStatusWindows::STATUS_FULLSCREEN_MODE),
            0xc000015a => Some(NtStatusWindows::STATUS_TOO_MANY_CONTEXT_IDS),
            0xc000015b => Some(NtStatusWindows::STATUS_LOGON_TYPE_NOT_GRANTED),
            0xc000015c => Some(NtStatusWindows::STATUS_NOT_REGISTRY_FILE),
            0xc000015d => Some(NtStatusWindows::STATUS_NT_CROSS_ENCRYPTION_REQUIRED),
            0xc000015e => Some(NtStatusWindows::STATUS_DOMAIN_CTRLR_CONFIG_ERROR),
            0xc000015f => Some(NtStatusWindows::STATUS_FT_MISSING_MEMBER),
            0xc0000160 => Some(NtStatusWindows::STATUS_ILL_FORMED_SERVICE_ENTRY),
            0xc0000161 => Some(NtStatusWindows::STATUS_ILLEGAL_CHARACTER),
            0xc0000162 => Some(NtStatusWindows::STATUS_UNMAPPABLE_CHARACTER),
            0xc0000163 => Some(NtStatusWindows::STATUS_UNDEFINED_CHARACTER),
            0xc0000164 => Some(NtStatusWindows::STATUS_FLOPPY_VOLUME),
            0xc0000165 => Some(NtStatusWindows::STATUS_FLOPPY_ID_MARK_NOT_FOUND),
            0xc0000166 => Some(NtStatusWindows::STATUS_FLOPPY_WRONG_CYLINDER),
            0xc0000167 => Some(NtStatusWindows::STATUS_FLOPPY_UNKNOWN_ERROR),
            0xc0000168 => Some(NtStatusWindows::STATUS_FLOPPY_BAD_REGISTERS),
            0xc0000169 => Some(NtStatusWindows::STATUS_DISK_RECALIBRATE_FAILED),
            0xc000016a => Some(NtStatusWindows::STATUS_DISK_OPERATION_FAILED),
            0xc000016b => Some(NtStatusWindows::STATUS_DISK_RESET_FAILED),
            0xc000016c => Some(NtStatusWindows::STATUS_SHARED_IRQ_BUSY),
            0xc000016d => Some(NtStatusWindows::STATUS_FT_ORPHANING),
            0xc000016e => Some(NtStatusWindows::STATUS_BIOS_FAILED_TO_CONNECT_INTERRUPT),
            0xc0000172 => Some(NtStatusWindows::STATUS_PARTITION_FAILURE),
            0xc0000173 => Some(NtStatusWindows::STATUS_INVALID_BLOCK_LENGTH),
            0xc0000174 => Some(NtStatusWindows::STATUS_DEVICE_NOT_PARTITIONED),
            0xc0000175 => Some(NtStatusWindows::STATUS_UNABLE_TO_LOCK_MEDIA),
            0xc0000176 => Some(NtStatusWindows::STATUS_UNABLE_TO_UNLOAD_MEDIA),
            0xc0000177 => Some(NtStatusWindows::STATUS_EOM_OVERFLOW),
            0xc0000178 => Some(NtStatusWindows::STATUS_NO_MEDIA),
            0xc000017a => Some(NtStatusWindows::STATUS_NO_SUCH_MEMBER),
            0xc000017b => Some(NtStatusWindows::STATUS_INVALID_MEMBER),
            0xc000017c => Some(NtStatusWindows::STATUS_KEY_DELETED),
            0xc000017d => Some(NtStatusWindows::STATUS_NO_LOG_SPACE),
            0xc000017e => Some(NtStatusWindows::STATUS_TOO_MANY_SIDS),
            _ => None,
        }
    }

    /// One slice of the symbol table: the raw value of this symbol,
    /// where this slice holds it.
    pub open spec fn spec_to_u32_part11(self) -> Option<u32> {
        match self {
            NtStatusWindows::STATUS_LM_CROSS_ENCRYPTION_REQUIRED => Some(0xc000017f),
            NtStatusWindows::STATUS_KEY_HAS_CHILDREN => Some(0xc0000180),
            NtStatusWindows::STATUS_CHILD_MUST_BE_VOLATILE => Some(0xc0000181),
            NtStatusWindows::STATUS_DEVICE_CONFIGURATION_ERROR => Some(0xc0000182),
            NtStatusWindows::STATUS_DRIVER_INTERNAL_ERROR => Some(0xc0000183),
            NtStatusWindows::STATUS_INVALID_DEVICE_STATE => Some(0xc0000184),
            NtStatusWindows::STATUS_IO_DEVICE_ERROR => Some(0xc0000185),
            NtStatusWindows::STATUS_DEVICE_PROTOCOL_ERROR => Some(0xc0000186),
            NtStatusWindows::STATUS_BACKUP_CONTROLLER => Some(0xc0000187),
            NtStatusWindows::STATUS_LOG_FILE_FULL => Some(0xc0000188),
            NtStatusWindows::STATUS_TOO_LATE => Some(0xc0000189),
            NtStatusWindows::STATUS_NO_TRUST_LSA_SECRET => Some(0xc000018a),
            NtStatusWindows::STATUS_NO_TRUST_SAM_ACCOUNT => Some(0xc000018b),
            NtStatusWindows::STATUS_TRUSTED_DOMAIN_FAILURE => Some(0xc000018c),
            NtStatusWindows::STATUS_TRUSTED_RELATIONSHIP_FAILURE => Some(0xc000018d),
            NtStatusWindows::STATUS_EVENTLOG_FILE_CORRUPT => Some(0xc000018e),
            NtStatusWindows::STATUS_EVENTLOG_CANT_START => Some(0xc000018f),
            NtStatusWindows::STATUS_TRUST_FAILURE => Some(0xc0000190),
            NtStatusWindows::STATUS_MUTANT_LIMIT_EXCEEDED => Some(0xc0000191),
            NtStatusWindows::STATUS_NETLOGON_NOT_STARTED => Some(0xc0000192),
            NtStatusWindows::STATUS_ACCOUNT_EXPIRED => Some(0xc0000193),
            NtStatusWindows::STATUS_POSSIBLE_DEADLOCK => Some(0xc0000194),
            NtStatusWindows::STATUS_NETWORK_CREDENTIAL_CONFLICT => Some(0xc0000195),
            NtStatusWindows::STATUS_REMOTE_SESSION_LIMIT => Some(0xc0000196),
            NtStatusWindows::STATUS_EVENTLOG_FILE_CHANGED => Some(0xc0000197),
            NtStatusWindows::STATUS_NOLOGON_INTERDOMAIN_TRUST_ACCOUNT => Some(0xc0000198),
            NtStatusWindows::STATUS_NOLOGON_WORKSTATION_TRUST_ACCOUNT => Some(0xc0000199),
            NtStatusWindows::STATUS_NOLOGON_SERVER_TRUST_ACCOUNT => Some(0xc000019a),
            NtStatusWindows::STATUS_DOMAIN_TRUST_INCONSISTENT => Some(0xc000019b),
            NtStatusWindows::STATUS_FS_DRIVER_REQUIRED => Some(0xc000019c),
            NtStatusWindows::STATUS_IMAGE_ALREADY_LOADED_AS_DLL => Some(0xc000019d),
            NtStatusWindows::STATUS_INCOMPATIBLE_WITH_GLOBAL_SHORT_NAME_REGISTRY_SETTING => Some(0xc000019e),
            NtStatusWindows::STATUS_SHORT_NAMES_NOT_ENABLED_ON_VOLUME => Some(0xc000019f),
            NtStatusWindows::STATUS_SECURITY_STREAM_IS_INCONSISTENT => Some(0xc00001a0),
            NtStatusWindows::STATUS_INVALID_LOCK_RANGE => Some(0xc00001a1),
            NtStatusWindows::STATUS_INVALID_ACE_CONDITION => Some(0xc00001a2),
            NtStatusWindows::STATUS_IMAGE_SUBSYSTEM_NOT_PRESENT => Some(0xc00001a3),
            NtStatusWindows::STATUS_NOTIFICATION_GUID_ALREADY_DEFINED => Some(0xc00001a4),
            NtStatusWindows::STATUS_INVALID_EXCEPTION_HANDLER => Some(0xc00001a5),
            NtStatusWindows::STATUS_DUPLICATE_PRIVILEGES => Some(0xc00001a6),
            NtStatusWindows::STATUS_NOT_ALLOWED_ON_SYSTEM_FILE => Some(0xc00001a7),
            NtStatusWindows::STATUS_REPAIR_NEEDED => Some(0xc00001a8),
            NtStatusWindows::STATUS_QUOTA_NOT_ENABLED => Some(0xc00001a9),
            NtStatusWindows::STATUS_NO_APPLICATION_PACKAGE => Some(0xc00001aa),
            NtStatusWindows::STATUS_FILE_METADATA_OPTIMIZATION_IN_PROGRESS => Some(0xc00001ab),
            NtStatusWindows::STATUS_NOT_SAME_OBJECT => Some(0xc00001ac),
            NtStatusWindows::STATUS_FATAL_MEMORY_EXHAUSTION => Some(0xc00001ad),
            NtStatusWindows::STATUS_ERROR_PROCESS_NOT_IN_JOB => Some(0xc00001ae),
            NtStatusWindows::STATUS_CPU_SET_INVALID => Some(0xc00001af),
            NtStatusWindows::STATUS_IO_DEVICE_INVALID_DATA => Some(0xc00001b0),
            _ => None,
        }
    }

    /// One slice of the symbol table: the symbol this slice gives a
    /// raw value, where it holds one.
    pub open spec fn spec_from_u32_part11(raw: u32) -> Option<NtStatusWindows> {
        match raw {
            0xc000017f => Some(NtStatusWindows::STATUS_LM_CROSS_ENCRYPTION_REQUIRED),
            0xc0000180 => Some(NtStatusWindows::STATUS_KEY_HAS_CHILDREN),
            0xc0000181 => Some(NtStatusWindows::STATUS_CHILD_MUST_BE_VOLATILE),
            0xc0000182 => Some(NtStatusWindows::STATUS_DEVICE_CONFIGURATION_ERROR),
            0xc0000183 => Some(NtStatusWindows::STATUS_DRIVER_INTERNAL_ERROR),
            0xc0000184 => Some(NtStatusWindows::STATUS_INVALID_DEVICE_STATE),
            0xc0000185 => Some(NtStatusWindows::STATUS_IO_DEVICE_ERROR),
            0xc0000186 => Some(NtStatusWindows::STATUS_DEVICE_PROTOCOL_ERROR),
            0xc0000187 => Some(NtStatusWindows::STATUS_BACKUP_CONTROLLER),
            0xc0000188 => Some(NtStatusWindows::STATUS_LOG_FILE_FULL),
            0xc0000189 => Some(NtStatusWindows::STATUS_TOO_LATE),
            0xc000018a => Some(NtStatusWindows::STATUS_NO_TRUST_LSA_SECRET),
            0xc000018b => Some(NtStatusWindows::STATUS_NO_TRUST_SAM_ACCOUNT),
            0xc000018c => Some(NtStatusWindows::STATUS_TRUSTED_DOMAIN_FAILURE),
            0xc000018d => Some(NtStatusWindows::STATUS_TRUSTED_RELATIONSHIP_FAILURE),
            0xc000018e => Some(NtStatusWindows::STATUS_EVENTLOG_FILE_CORRUPT),
            0xc000018f => Some(NtStatusWindows::STATUS_EVENTLOG_CANT_START),
            0xc0000190 => Some(NtStatusWindows::STATUS_TRUST_FAILURE),
            0xc0000191 => Some(NtStatusWindows::STATUS_MUTANT_LIMIT_EXCEEDED),
            0xc0000192 => Some(NtStatusWindows::STATUS_NETLOGON_NOT_STARTED),
            0xc0000193 => Some(NtStatusWindows::STATUS_ACCOUNT_EXPIRED),
            0xc0000194 => Some(NtStatusWindows::STATUS_POSSIBLE_DEADLOCK),
            0xc0000195 => Some(NtStatusWindows::STATUS_NETWORK_CREDENTIAL_CONFLICT),
            0xc0000196 => Some(NtStatusWindows::STATUS_REMOTE_SESSION_LIMIT),
            0xc0000197 => Some(NtStatusWindows::STATUS_EVENTLOG_FILE_CHANGED),
            0xc0000198 => Some(NtStatusWindows::STATUS_NOLOGON_INTERDOMAIN_TRUST_ACCOUNT),
            0xc0000199 => Some(NtStatusWindows::STATUS_NOLOGON_WORKSTATION_TRUST_ACCOUNT),
            0xc000019a => Some(NtStatusWindows::STATUS_NOLOGON_SERVER_TRUST_ACCOUNT),
            0xc000019b => Some(NtStatusWindows::STATUS_DOMAIN_TRUST_INCONSISTENT),
            0xc000019c => Some(NtStatusWindows::STATUS_FS_DRIVER_REQUIRED),
            0xc000019d => Some(NtStatusWindows::STATUS_IMAGE_ALREADY_LOADED_AS_DLL),
            0xc000019e => Some(NtStatusWindows::STATUS_INCOMPATIBLE_WITH_GLOBAL_SHORT_NAME_REGISTRY_SETTING),
            0xc000019f => Some(NtStatusWindows::STATUS_SHORT_NAMES_NOT_ENABLED_ON_VOLUME),
            0xc00001a0 => Some(NtStatusWindows::STATUS_SECURITY_STREAM_IS_INCONSISTENT),
            0xc00001a1 => Some(NtStatusWindows::STATUS_INVALID_LOCK_RANGE),
            0xc00001a2 => Some(NtStatusWindows::STATUS_INVALID_ACE_CONDITION),
            0xc00001a3 => Some(NtStatusWindows::STATUS_IMAGE_SUBSYSTEM_NOT_PRESENT),
            0xc00001a4 => Some(NtStatusWindows::STATUS_NOTIFICATION_GUID_ALREADY_DEFINED),
            0xc00001a5 => Some(NtStatusWindows::STATUS_INVALID_EXCEPTION_HANDLER),
            0xc00001a6 => Some(NtStatusWindows::STATUS_DUPLICATE_PRIVILEGES),
            0xc00001a7 => Some(NtStatusWindows::STATUS_NOT_ALLOWED_ON_SYSTEM_FILE),
            0xc00001a8 => Some(NtStatusWindows::STATUS_REPAIR_NEEDED),
            0xc00001a9 => Some(NtStatusWindows::STATUS_QUOTA_NOT_ENABLED),
            0xc00001aa => Some(NtStatusWindows::STATUS_NO_APPLICATION_PACKAGE),
            0xc00001ab => Some(NtStatusWindows::STATUS_FILE_METADATA_OPTIMIZATION_IN_PROGRESS),
            0xc00001ac => Some(NtStatusWindows::STATUS_NOT_SAME_OBJECT),
            0xc00001ad => Some(NtStatusWindows::STATUS_FATAL_MEMORY_EXHAUSTION),
            0xc00001ae => Some(NtStatusWindows::STATUS_ERROR_PROCESS_NOT_IN_JOB),
            0xc00001af => Some(NtStatusWindows::STATUS_CPU_SET_INVALID),
            0xc00001b0 => Some(NtStatusWindows::STATUS_IO_DEVICE_INVALID_DATA),
            _ => None,
        }
    }

    /// One slice of the symbol table.
    #[verifier::spinoff_prover]
    #[verifier::rlimit(100)]
    fn to_u32_part11(self) -> (r: Option<u32>)
        ensures
            r == self.spec_to_u32_part11(),
    {
        match self {
            NtStatusWindows::STATUS_LM_CROSS_ENCRYPTION_REQUIRED => Some(0xc000017f),
            NtStatusWindows::STATUS_KEY_HAS_CHILDREN => Some(0xc0000180),
            NtStatusWindows::STATUS_CHILD_MUST_BE_VOLATILE => Some(0xc0000181),
            NtStatusWindows::STATUS_DEVICE_CONFIGURATION_ERROR => Some(0xc0000182),
            NtStatusWindows::STATUS_DRIVER_INTERNAL_ERROR => Some(0xc0000183),
            NtStatusWindows::STATUS_INVALID_DEVICE_STATE => Some(0xc0000184),
            NtStatusWindows::STATUS_IO_DEVICE_ERROR => Some(0xc0000185),
            NtStatusWindows::STATUS_DEVICE_PROTOCOL_ERROR => Some(0xc0000186),
            NtStatusWindows::STATUS_BACKUP_CONTROLLER => Some(0xc0000187),
            NtStatusWindows::STATUS_LOG_FILE_FULL => Some(0xc0000188),
            NtStatusWindows::STATUS_TOO_LATE => Some(0xc0000189),
            NtStatusWindows::STATUS_NO_TRUST_LSA_SECRET => Some(0xc000018a),
            NtStatusWindows::STATUS_NO_TRUST_SAM_ACCOUNT => Some(0xc000018b),
            NtStatusWindows::STATUS_TRUSTED_DOMAIN_FAILURE => Some(0xc000018c),
            NtStatusWindows::STATUS_TRUSTED_RELATIONSHIP_FAILURE => Some(0xc000018d),
            NtStatusWindows::STATUS_EVENTLOG_FILE_CORRUPT => Some(0xc000018e),
            NtStatusWindows::STATUS_EVENTLOG_CANT_START => Some(0xc000018f),
            NtStatusWindows::STATUS_TRUST_FAILURE => Some(0xc0000190),
            NtStatusWindows::STATUS_MUTANT_LIMIT_EXCEEDED => Some(0xc0000191),
            NtStatusWindows::STATUS_NETLOGON_NOT_STARTED => Some(0xc0000192),
            NtStatusWindows::STATUS_ACCOUNT_EXPIRED => Some(0xc0000193),
            NtStatusWindows::STATUS_POSSIBLE_DEADLOCK => Some(0xc0000194),
            NtStatusWindows::STATUS_NETWORK_CREDENTIAL_CONFLICT => Some(0xc0000195),
            NtStatusWindows::STATUS_REMOTE_SESSION_LIMIT => Some(0xc0000196),
            NtStatusWindows::STATUS_EVENTLOG_FILE_CHANGED => Some(0xc0000197),
            NtStatusWindows::STATUS_NOLOGON_INTERDOMAIN_TRUST_ACCOUNT => Some(0xc0000198),
            NtStatusWindows::STATUS_NOLOGON_WORKSTATION_TRUST_ACCOUNT => Some(0xc0000199),
            NtStatusWindows::STATUS_NOLOGON_SERVER_TRUST_ACCOUNT => Some(0xc000019a),
            NtStatusWindows::STATUS_DOMAIN_TRUST_INCONSISTENT => Some(0xc000019b),
            NtStatusWindows::STATUS_FS_DRIVER_REQUIRED => Some(0xc000019c),
            NtStatusWindows::STATUS_IMAGE_ALREADY_LOADED_AS_DLL => Some(0xc000019d),
            NtStatusWindows::STATUS_INCOMPATIBLE_WITH_GLOBAL_SHORT_NAME_REGISTRY_SETTING => Some(0xc000019e),
            NtStatusWindows::STATUS_SHORT_NAMES_NOT_ENABLED_ON_VOLUME => Some(0xc000019f),
            NtStatusWindows::STATUS_SECURITY_STREAM_IS_INCONSISTENT => Some(0xc00001a0),
            NtStatusWindows::STATUS_INVALID_LOCK_RANGE => Some(0xc00001a1),
            NtStatusWindows::STATUS_INVALID_ACE_CONDITION => Some(0xc00001a2),
            NtStatusWindows::STATUS_IMAGE_SUBSYSTEM_NOT_PRESENT => Some(0xc00001a3),
            NtStatusWindows::STATUS_NOTIFICATION_GUID_ALREADY_DEFINED => Some(0xc00001a4),
            NtStatusWindows::STATUS_INVALID_EXCEPTION_HANDLER => Some(0xc00001a5),
            NtStatusWindows::STATUS_DUPLICATE_PRIVILEGES => Some(0xc00001a6),
            NtStatusWindows::STATUS_NOT_ALLOWED_ON_SYSTEM_FILE => Some(0xc00001a7),
            NtStatusWindows::STATUS_REPAIR_NEEDED => Some(0xc00001a8),
            NtStatusWindows::STATUS_QUOTA_NOT_ENABLED => Some(0xc00001a9),
            NtStatusWindows::STATUS_NO_APPLICATION_PACKAGE => Some(0xc00001aa),
            NtStatusWindows::STATUS_FILE_METADATA_OPTIMIZATION_IN_PROGRESS => Some(0xc00001ab),
            NtStatusWindows::STATUS_NOT_SAME_OBJECT => Some(0xc00001ac),
            NtStatusWindows::STATUS_FATAL_MEMORY_EXHAUSTION => Some(0xc00001ad),
            NtStatusWindows::STATUS_ERROR_PROCESS_NOT_IN_JOB => Some(0xc00001ae),
            NtStatusWindows::STATUS_CPU_SET_INVALID => Some(0xc00001af),
            NtStatusWindows::STATUS_IO_DEVICE_INVALID_DATA => Some(0xc00001b0),
            _ => None,
        }
    }

    /// One slice of the symbol table.
    #[verifier::spinoff_prover]
    #[verifier::rlimit(100)]
    fn from_u32_part11(raw: u32) -> (r: Option<NtStatusWindows>)
        ensures
            r == NtStatusWindows::spec_from_u32_part11(raw),
    {
        match raw {
            0xc000017f => Some(NtStatusWindows::STATUS_LM_CROSS_ENCRYPTION_REQUIRED),
            0xc0000180 => Some(NtStatusWindows::STATUS_KEY_HAS_CHILDREN),
            0xc0000181 => Some(NtStatusWindows::STATUS_CHILD_MUST_BE_VOLATILE),
            0xc0000182 => Some(NtStatusWindows::STATUS_DEVICE_CONFIGURATION_ERROR),
            0xc0000183 => Some(NtStatusWindows::STATUS_DRIVER_INTERNAL_ERROR),
            0xc0000184 => Some(NtStatusWindows::STATUS_INVALID_DEVICE_STATE),
            0xc0000185 => Some(NtStatusWindows::STATUS_IO_DEVICE_ERROR),
            0xc0000186 => Some(NtStatusWindows::STATUS_DEVICE_PROTOCOL_ERROR),
            0xc0000187 => Some(NtStatusWindows::STATUS_BACKUP_CONTROLLER),
            0xc0000188 => Some(NtStatusWindows::STATUS_LOG_FILE_FULL),
            0xc0000189 => Some(NtStatusWindows::STATUS_TOO_LATE),
            0xc000018a => Some(NtStatusWindows::STATUS_NO_TRUST_LSA_SECRET),
            0xc000018b => Some(NtStatusWindows::STATUS_NO_TRUST_SAM_ACCOUNT),
            0xc000018c => Some(NtStatusWindows::STATUS_TRUSTED_DOMAIN_FAILURE),
            0xc000018d => Some(NtStatusWindows::STATUS_TRUSTED_RELATIONSHIP_FAILURE),
            0xc000018e => Some(NtStatusWindows::STATUS_EVENTLOG_FILE_CORRUPT),
            0xc000018f => Some(NtStatusWindows::STATUS_EVENTLOG_CANT_START),
            0xc0000190 => Some(NtStatusWindows::STATUS_TRUST_FAILURE),
            0xc0000191 => Some(NtStatusWindows::STATUS_MUTANT_LIMIT_EXCEEDED),
            0xc0000192 => Some(NtStatusWindows::STATUS_NETLOGON_NOT_STARTED),
            0xc0000193 => Some(NtStatusWindows::STATUS_ACCOUNT_EXPIRED),
            0xc0000194 => Some(NtStatusWindows::STATUS_POSSIBLE_DEADLOCK),
            0xc0000195 => Some(NtStatusWindows::STATUS_NETWORK_CREDENTIAL_CONFLICT),
            0xc0000196 => Some(NtStatusWindows::STATUS_REMOTE_SESSION_LIMIT),
            0xc0000197 => Some(NtStatusWindows::STATUS_EVENTLOG_FILE_CHANGED),
            0xc0000198 => Some(NtStatusWindows::STATUS_NOLOGON_INTERDOMAIN_TRUST_ACCOUNT),
            0xc0000199 => Some(NtStatusWindows::STATUS_NOLOGON_WORKSTATION_TRUST_ACCOUNT),
            0xc000019a => Some(NtStatusWindows::STATUS_NOLOGON_SERVER_TRUST_ACCOUNT),
            0xc000019b => Some(NtStatusWindows::STATUS_DOMAIN_TRUST_INCONSISTENT),
            0xc000019c => Some(NtStatusWindows::STATUS_FS_DRIVER_REQUIRED),
            0xc000019d => Some(NtStatusWindows::STATUS_IMAGE_ALREADY_LOADED_AS_DLL),
            0xc000019e => Some(NtStatusWindows::STATUS_INCOMPATIBLE_WITH_GLOBAL_SHORT_NAME_REGISTRY_SETTING),
            0xc000019f => Some(NtStatusWindows::STATUS_SHORT_NAMES_NOT_ENABLED_ON_VOLUME),
            0xc00001a0 => Some(NtStatusWindows::STATUS_SECURITY_STREAM_IS_INCONSISTENT),
            0xc00001a1 => Some(NtStatusWindows::STATUS_INVALID_LOCK_RANGE),
            0xc00001a2 => Some(NtStatusWindows::STATUS_INVALID_ACE_CONDITION),
            0xc00001a3 => Some(NtStatusWindows::STATUS_IMAGE_SUBSYSTEM_NOT_PRESENT),
            0xc00001a4 => Some(NtStatusWindows::STATUS_NOTIFICATION_GUID_ALREADY_DEFINED),
            0xc00001a5 => Some(NtStatusWindows::STATUS_INVALID_EXCEPTION_HANDLER),
            0xc00001a6 => Some(NtStatusWindows::STATUS_DUPLICATE_PRIVILEGES),
            0xc00001a7 => Some(NtStatusWindows::STATUS_NOT_ALLOWED_ON_SYSTEM_FILE),
            0xc00001a8 => Some(NtStatusWindows::STATUS_REPAIR_NEEDED),
            0xc00001a9 => Some(NtStatusWindows::STATUS_QUOTA_NOT_ENABLED),
            0xc00001aa => Some(NtStatusWindows::STATUS_NO_APPLICATION_PACKAGE),
            0xc00001ab => Some(NtStatusWindows::STATUS_FILE_METADATA_OPTIMIZATION_IN_PROGRESS),
            0xc00001ac => Some(NtStatusWindows::STATUS_NOT_SAME_OBJECT),
            0xc00001ad => Some(NtStatusWindows::STATUS_FATAL_MEMORY_EXHAUSTION),
            0xc00001ae => Some(NtStatusWindows::STATUS_ERROR_PROCESS_NOT_IN_JOB),
            0xc00001af => Some(NtStatusWindows::STATUS_CPU_SET_INVALID),
            0xc00001b0 => Some(NtStatusWindows::STATUS_IO_DEVICE_INVALID_DATA),
            _ => None,
        }
    }

    /// One slice of the symbol table: the raw value of this symbol,
    /// where this slice holds it.
    pub open spec fn spec_to_u32_part12(self) -> Option<u32> {
        match self {
            NtStatusWindows::STATUS_IO_UNALIGNED_WRITE => Some(0xc00001b1),
            NtStatusWindows::STATUS_CONTROL_STACK_VIOLATION => Some(0xc00001b2),
            NtStatusWindows::STATUS_NETWORK_OPEN_RESTRICTION => Some(0xc0000201),
            NtStatusWindows::STATUS_NO_USER_SESSION_KEY => Some(0xc0000202),
            NtStatusWindows::STATUS_USER_SESSION_DELETED => Some(0xc0000203),
            NtStatusWindows::STATUS_RESOURCE_LANG_NOT_FOUND => Some(0xc0000204),
            NtStatusWindows::STATUS_INSUFF_SERVER_RESOURCES => Some(0xc0000205),
            NtStatusWindows::STATUS_INVALID_BUFFER_SIZE => Some(0xc0000206),
            NtStatusWindows::STATUS_INVALID_ADDRESS_COMPONENT => Some(0xc0000207),
            NtStatusWindows::STATUS_INVALID_ADDRESS_WILDCARD => Some(0xc0000208),
            NtStatusWindows::STATUS_TOO_MANY_ADDRESSES => Some(0xc0000209),
            NtStatusWindows::STATUS_ADDRESS_ALREADY_EXISTS => Some(0xc000020a),
            NtStatusWindows::STATUS_ADDRESS_CLOSED => Some(0xc000020b),
            NtStatusWindows::STATUS_CONNECTION_DISCONNECTED => Some(0xc000020c),
            NtStatusWindows::STATUS_CONNECTION_RESET => Some(0xc000020d),
            NtStatusWindows::STATUS_TOO_MANY_NODES => Some(0xc000020e),
            NtStatusWindows::STATUS_TRANSACTION_ABORTED => Some(0xc000020f),
            NtStatusWindows::STATUS_TRANSACTION_TIMED_OUT => Some(0xc0000210),
            NtStatusWindows::STATUS_TRANSACTION_NO_RELEASE => Some(0xc0000211),
            NtStatusWindows::STATUS_TRANSACTION_NO_MATCH => Some(0xc0000212),
            NtStatusWindows::STATUS_TRANSACTION_RESPONDED => Some(0xc0000213),
            NtStatusWindows::STATUS_TRANSACTION_INVALID_ID => Some(0xc0000214),
            NtStatusWindows::STATUS_TRANSACTION_INVALID_TYPE => Some(0xc0000215),
            NtStatusWindows::STATUS_NOT_SERVER_SESSION => Some(0xc0000216),
            NtStatusWindows::STATUS_NOT_CLIENT_SESSION => Some(0xc0000217),
            NtStatusWindows::STATUS_CANNOT_LOAD_REGISTRY_FILE => Some(0xc0000218),
            NtStatusWindows::STATUS_DEBUG_ATTACH_FAILED => Some(0xc0000219),
            NtStatusWindows::STATUS_SYSTEM_PROCESS_TERMINATED => Some(0xc000021a),
            NtStatusWindows::STATUS_DATA_NOT_ACCEPTED => Some(0xc000021b),
            NtStatusWindows::STATUS_NO_BROWSER_SERVERS_FOUND => Some(0xc000021c),
            NtStatusWindows::STATUS_VDM_HARD_ERROR => Some(0xc000021d),
            NtStatusWindows::STATUS_DRIVER_CANCEL_TIMEOUT => Some(0xc000021e),
            NtStatusWindows::STATUS_REPLY_MESSAGE_MISMATCH => Some(0xc000021f),
            NtStatusWindows::STATUS_MAPPED_ALIGNMENT => Some(0xc0000220),
            NtStatusWindows::STATUS_IMAGE_CHECKSUM_MISMATCH => Some(0xc0000221),
            NtStatusWindows::STATUS_LOST_WRITEBEHIND_DATA => Some(0xc0000222),
            NtStatusWindows::STATUS_CLIENT_SERVER_PARAMETERS_INVALID => Some(0xc0000223),
            NtStatusWindows::STATUS_PASSWORD_MUST_CHANGE => Some(0xc0000224),
            NtStatusWindows::STATUS_NOT_FOUND => Some(0xc0000225),
            NtStatusWindows::STATUS_NOT_TINY_STREAM => Some(0xc0000226),
            NtStatusWindows::STATUS_RECOVERY_FAILURE => Some(0xc0000227),
            NtStatusWindows::STATUS_STACK_OVERFLOW_READ => Some(0xc0000228),
            NtStatusWindows::STATUS_FAIL_CHECK => Some(0xc0000229),
            NtStatusWindows::STATUS_DUPLICATE_OBJECTID => Some(0xc000022a),
            NtStatusWindows::STATUS_OBJECTID_EXISTS => Some(0xc000022b),
            NtStatusWindows::STATUS_CONVERT_TO_LARGE => Some(0xc000022c),
            NtStatusWindows::STATUS_RETRY => Some(0xc000022d),
            NtStatusWindows::STATUS_FOUND_OUT_OF_SCOPE => Some(0xc000022e),
            NtStatusWindows::STATUS_ALLOCATE_BUCKET => Some(0xc000022f),
            NtStatusWindows::STATUS_PROPSET_NOT_FOUND => Some(0xc0000230),
            _ => None,
        }
    }

    /// One slice of the symbol table: the symbol this slice gives a
    /// raw value, where it holds one.
    pub open spec fn spec_from_u32_part12(raw: u32) -> Option<NtStatusWindows> {
        match raw {
            0xc00001b1 => Some(NtStatusWindows::STATUS_IO_UNALIGNED_WRITE),
            0xc00001b2 => Some(NtStatusWindows::STATUS_CONTROL_STACK_VIOLATION),
            0xc0000201 => Some(NtStatusWindows::STATUS_NETWORK_OPEN_RESTRICTION),
            0xc0000202 => Some(NtStatusWindows::STATUS_NO_USER_SESSION_KEY),
            0xc0000203 => Some(NtStatusWindows::STATUS_USER_SESSION_DELETED),
            0xc0000204 => Some(NtStatusWindows::STATUS_RESOURCE_LANG_NOT_FOUND),
            0xc0000205 => Some(NtStatusWindows::STATUS_INSUFF_SERVER_RESOURCES),
            0xc0000206 => Some(NtStatusWindows::STATUS_INVALID_BUFFER_SIZE),
            0xc0000207 => Some(NtStatusWindows::STATUS_INVALID_ADDRESS_COMPONENT),
            0xc0000208 => Some(NtStatusWindows::STATUS_INVALID_ADDRESS_WILDCARD),
            0xc0000209 => Some(NtStatusWindows::STATUS_TOO_MANY_ADDRESSES),
            0xc000020a => Some(NtStatusWindows::STATUS_ADDRESS_ALREADY_EXISTS),
            0xc000020b => Some(NtStatusWindows::STATUS_ADDRESS_CLOSED),
            0xc000020c => Some(NtStatusWindows::STATUS_CONNECTION_DISCONNECTED),
            0xc000020d => Some(NtStatusWindows::STATUS_CONNECTION_RESET),
            0xc000020e => Some(NtStatusWindows::STATUS_TOO_MANY_NODES),
            0xc000020f => Some(NtStatusWindows::STATUS_TRANSACTION_ABORTED),
            0xc0000210 => Some(NtStatusWindows::STATUS_TRANSACTION_TIMED_OUT),
            0xc0000211 => Some(NtStatusWindows::STATUS_TRANSACTION_NO_RELEASE),
            0xc0000212 => Some(NtStatusWindows::STATUS_TRANSACTION_NO_MATCH),
            0xc0000213 => Some(NtStatusWindows::STATUS_TRANSACTION_RESPONDED),
            0xc0000214 => Some(NtStatusWindows::STATUS_TRANSACTION_INVALID_ID),
            0xc0000215 => Some(NtStatusWindows::STATUS_TRANSACTION_INVALID_TYPE),
            0xc0000216 => Some(NtStatusWindows::STATUS_NOT_SERVER_SESSION),
            0xc0000217 => Some(NtStatusWindows::STATUS_NOT_CLIENT_SESSION),
            0xc0000218 => Some(NtStatusWindows::STATUS_CANNOT_LOAD_REGISTRY_FILE),
            0xc0000219 => Some(NtStatusWindows::STATUS_DEBUG_ATTACH_FAILED),
            0xc000021a => Some(NtStatusWindows::STATUS_SYSTEM_PROCESS_TERMINATED),
            0xc000021b => Some(NtStatusWindows::STATUS_DATA_NOT_ACCEPTED),
            0xc000021c => Some(NtStatusWindows::STATUS_NO_BROWSER_SERVERS_FOUND),
            0xc000021d => Some(NtStatusWindows::STATUS_VDM_HARD_ERROR),
            0xc000021e => Some(NtStatusWindows::STATUS_DRIVER_CANCEL_TIMEOUT),
            0xc000021f => Some(NtStatusWindows::STATUS_REPLY_MESSAGE_MISMATCH),
            0xc0000220 => Some(NtStatusWindows::STATUS_MAPPED_ALIGNMENT),
            0xc0000221 => Some(NtStatusWindows::STATUS_IMAGE_CHECKSUM_MISMATCH),
            0xc0000222 => Some(NtStatusWindows::STATUS_LOST_WRITEBEHIND_DATA),
            0xc0000223 => Some(NtStatusWindows::STATUS_CLIENT_SERVER_PARAMETERS_INVALID),
            0xc0000224 => Some(NtStatusWindows::STATUS_PASSWORD_MUST_CHANGE),
            0xc0000225 => Some(NtStatusWindows::STATUS_NOT_FOUND),
            0xc0000226 => Some(NtStatusWindows::STATUS_NOT_TINY_STREAM),
            0xc0000227 => Some(NtStatusWindows::STATUS_RECOVERY_FAILURE),
            0xc0000228 => Some(NtStatusWindows::STATUS_STACK_OVERFLOW_READ),
            0xc0000229 => Some(NtStatusWindows::STATUS_FAIL_CHECK),
            0xc000022a => Some(NtStatusWindows::STATUS_DUPLICATE_OBJECTID),
            0xc000022b => Some(NtStatusWindows::STATUS_OBJECTID_EXISTS),
            0xc000022c => Some(NtStatusWindows::STATUS_CONVERT_TO_LARGE),
            0xc000022d => Some(NtStatusWindows::STATUS_RETRY),
            0xc000022e => Some(NtStatusWindows::STATUS_FOUND_OUT_OF_SCOPE),
            0xc000022f => Some(NtStatusWindows::STATUS_ALLOCATE_BUCKET),
            0xc0000230 => Some(NtStatusWindows::STATUS_PROPSET_NOT_FOUND),
            _ => None,
        }
    }

    /// One slice of the symbol table.
    #[verifier::spinoff_prover]
    #[verifier::rlimit(100)]
    fn to_u32_part12(self) -> (r: Option<u32>)
        ensures
            r == self.spec_to_u32_part12(),
    {
        match self {
            NtStatusWindows::STATUS_IO_UNALIGNED_WRITE => Some(0xc00001b1),
            NtStatusWindows::STATUS_CONTROL_STACK_VIOLATION => Some(0xc00001b2),
            NtStatusWindows::STATUS_NETWORK_OPEN_RESTRICTION => Some(0xc0000201),
            NtStatusWindows::STATUS_NO_USER_SESSION_KEY => Some(0xc0000202),
            NtStatusWindows::STATUS_USER_SESSION_DELETED => Some(0xc0000203),
            NtStatusWindows::STATUS_RESOURCE_LANG_NOT_FOUND => Some(0xc0000204),
            NtStatusWindows::STATUS_INSUFF_SERVER_RESOURCES => Some(0xc0000205),
            NtStatusWindows::STATUS_INVALID_BUFFER_SIZE => Some(0xc0000206),
            NtStatusWindows::STATUS_INVALID_ADDRESS_COMPONENT => Some(0xc0000207),
            NtStatusWindows::STATUS_INVALID_ADDRESS_WILDCARD => Some(0xc0000208),
            NtStatusWindows::STATUS_TOO_MANY_ADDRESSES => Some(0xc0000209),
            NtStatusWindows::STATUS_ADDRESS_ALREADY_EXISTS => Some(0xc000020a),
            NtStatusWindows::STATUS_ADDRESS_CLOSED => Some(0xc000020b),
            NtStatusWindows::STATUS_CONNECTION_DISCONNECTED => Some(0xc000020c),
            NtStatusWindows::STATUS_CONNECTION_RESET => Some(0xc000020d),
            NtStatusWindows::STATUS_TOO_MANY_NODES => Some(0xc000020e),
            NtStatusWindows::STATUS_TRANSACTION_ABORTED => Some(0xc000020f),
            NtStatusWindows::STATUS_TRANSACTION_TIMED_OUT => Some(0xc0000210),
            NtStatusWindows::STATUS_TRANSACTION_NO_RELEASE => Some(0xc0000211),
            NtStatusWindows::STATUS_TRANSACTION_NO_MATCH => Some(0xc0000212),
            NtStatusWindows::STATUS_TRANSACTION_RESPONDED => Some(0xc0000213),
            NtStatusWindows::STATUS_TRANSACTION_INVALID_ID => Some(0xc0000214),
            NtStatusWindows::STATUS_TRANSACTION_INVALID_TYPE => Some(0xc0000215),
            NtStatusWindows::STATUS_NOT_SERVER_SESSION => Some(0xc0000216),
            NtStatusWindows::STATUS_NOT_CLIENT_SESSION => Some(0xc0000217),
            NtStatusWindows::STATUS_CANNOT_LOAD_REGISTRY_FILE => Some(0xc0000218),
            NtStatusWindows::STATUS_DEBUG_ATTACH_FAILED => Some(0xc0000219),
            NtStatusWindows::STATUS_SYSTEM_PROCESS_TERMINATED => Some(0xc000021a),
            NtStatusWindows::STATUS_DATA_NOT_ACCEPTED => Some(0xc000021b),
            NtStatusWindows::STATUS_NO_BROWSER_SERVERS_FOUND => Some(0xc000021c),
            NtStatusWindows::STATUS_VDM_HARD_ERROR => Some(0xc000021d),
            NtStatusWindows::STATUS_DRIVER_CANCEL_TIMEOUT => Some(0xc000021e),
            NtStatusWindows::STATUS_REPLY_MESSAGE_MISMATCH => Some(0xc000021f),
            NtStatusWindows::STATUS_MAPPED_ALIGNMENT => Some(0xc0000220),
            NtStatusWindows::STATUS_IMAGE_CHECKSUM_MISMATCH => Some(0xc0000221),
            NtStatusWindows::STATUS_LOST_WRITEBEHIND_DATA => Some(0xc0000222),
            NtStatusWindows::STATUS_CLIENT_SERVER_PARAMETERS_INVALID => Some(0xc0000223),
            NtStatusWindows::STATUS_PASSWORD_MUST_CHANGE => Some(0xc0000224),
            NtStatusWindows::STATUS_NOT_FOUND => Some(0xc0000225),
            NtStatusWindows::STATUS_NOT_TINY_STREAM => Some(0xc0000226),
            NtStatusWindows::STATUS_RECOVERY_FAILURE => Some(0xc0000227),
            NtStatusWindows::STATUS_STACK_OVERFLOW_READ => Some(0xc0000228),
            NtStatusWindows::STATUS_FAIL_CHECK => Some(0xc0000229),
            NtStatusWindows::STATUS_DUPLICATE_OBJECTID => Some(0xc000022a),
            NtStatusWindows::STATUS_OBJECTID_EXISTS => Some(0xc000022b),
            NtStatusWindows::STATUS_CONVERT_TO_LARGE => Some(0xc000022c),
            NtStatusWindows::STATUS_RETRY => Some(0xc000022d),
            NtStatusWindows::STATUS_FOUND_OUT_OF_SCOPE => Some(0xc000022e),
            NtStatusWindows::STATUS_ALLOCATE_BUCKET => Some(0xc000022f),
            NtStatusWindows::STATUS_PROPSET_NOT_FOUND => Some(0xc0000230),
            _ => None,
        }
    }

    /// One slice of the symbol table.
    #[verifier::spinoff_prover]
    #[verifier::rlimit(100)]
    fn from_u32_part12(raw: u32) -> (r: Option<NtStatusWindows>)
        ensures
            r == NtStatusWindows::spec_from_u32_part12(raw),
    {
        match raw {
            0xc00001b1 => Some(NtStatusWindows::STATUS_IO_UNALIGNED_WRITE),
            0xc00001b2 => Some(NtStatusWindows::STATUS_CONTROL_STACK_VIOLATION),
            0xc0000201 => Some(NtStatusWindows::STATUS_NETWORK_OPEN_RESTRICTION),
            0xc0000202 => Some(NtStatusWindows::STATUS_NO_USER_SESSION_KEY),
            0xc0000203 => Some(NtStatusWindows::STATUS_USER_SESSION_DELETED),
            0xc0000204 => Some(NtStatusWindows::STATUS_RESOURCE_LANG_NOT_FOUND),
            0xc0000205 => Some(NtStatusWindows::STATUS_INSUFF_SERVER_RESOURCES),
            0xc0000206 => Some(NtStatusWindows::STATUS_INVALID_BUFFER_SIZE),
            0xc0000207 => Some(NtStatusWindows::STATUS_INVALID_ADDRESS_COMPONENT),
            0xc0000208 => Some(NtStatusWindows::STATUS_INVALID_ADDRESS_WILDCARD),
            0xc0000209 => Some(NtStatusWindows::STATUS_TOO_MANY_ADDRESSES),
            0xc000020a => Some(NtStatusWindows::STATUS_ADDRESS_ALREADY_EXISTS),
            0xc000020b => Some(NtStatusWindows::STATUS_ADDRESS_CLOSED),
            0xc000020c => Some(NtStatusWindows::STATUS_CONNECTION_DISCONNECTED),
            0xc000020d => Some(NtStatusWindows::STATUS_CONNECTION_RESET),
            0xc000020e => Some(NtStatusWindows::STATUS_TOO_MANY_NODES),
            0xc000020f => Some(NtStatusWindows::STATUS_TRANSACTION_ABORTED),
            0xc0000210 => Some(NtStatusWindows::STATUS_TRANSACTION_TIMED_OUT),
            0xc0000211 => Some(NtStatusWindows::STATUS_TRANSACTION_NO_RELEASE),
            0xc0000212 => Some(NtStatusWindows::STATUS_TRANSACTION_NO_MATCH),
            0xc0000213 => Some(NtStatusWindows::STATUS_TRANSACTION_RESPONDED),
            0xc0000214 => Some(NtStatusWindows::STATUS_TRANSACTION_INVALID_ID),
            0xc0000215 => Some(NtStatusWindows::STATUS_TRANSACTION_INVALID_TYPE),
            0xc0000216 => Some(NtStatusWindows::STATUS_NOT_SERVER_SESSION),
            0xc0000217 => Some(NtStatusWindows::STATUS_NOT_CLIENT_SESSION),
            0xc0000218 => Some(NtStatusWindows::STATUS_CANNOT_LOAD_REGISTRY_FILE),
            0xc0000219 => Some(NtStatusWindows::STATUS_DEBUG_ATTACH_FAILED),
            0xc000021a => Some(NtStatusWindows::STATUS_SYSTEM_PROCESS_TERMINATED),
            0xc000021b => Some(NtStatusWindows::STATUS_DATA_NOT_ACCEPTED),
            0xc000021c => Some(NtStatusWindows::STATUS_NO_BROWSER_SERVERS_FOUND),
            0xc000021d => Some(NtStatusWindows::STATUS_VDM_HARD_ERROR),
            0xc000021e => Some(NtStatusWindows::STATUS_DRIVER_CANCEL_TIMEOUT),
            0xc000021f => Some(NtStatusWindows::STATUS_REPLY_MESSAGE_MISMATCH),
            0xc0000220 => Some(NtStatusWindows::STATUS_MAPPED_ALIGNMENT),
            0xc0000221 => Some(NtStatusWindows::STATUS_IMAGE_CHECKSUM_MISMATCH),
            0xc0000222 => Some(NtStatusWindows::STATUS_LOST_WRITEBEHIND_DATA),
            0xc0000223 => Some(NtStatusWindows::STATUS_CLIENT_SERVER_PARAMETERS_INVALID),
            0xc0000224 => Some(NtStatusWindows::STATUS_PASSWORD_MUST_CHANGE),
            0xc0000225 => Some(NtStatusWindows::STATUS_NOT_FOUND),
            0xc0000226 => Some(NtStatusWindows::STATUS_NOT_TINY_STREAM),
            0xc0000227 => Some(NtStatusWindows::STATUS_RECOVERY_FAILURE),
            0xc0000228 => Some(NtStatusWindows::STATUS_STACK_OVERFLOW_READ),
            0xc0000229 => Some(NtStatusWindows::STATUS_FAIL_CHECK),
            0xc000022a => Some(NtStatusWindows::STATUS_DUPLICATE_OBJECTID),
            0xc000022b => Some(NtStatusWindows::STATUS_OBJECTID_EXISTS),
            0xc000022c => Some(NtStatusWindows::STATUS_CONVERT_TO_LARGE),
            0xc000022d => Some(NtStatusWindows::STATUS_RETRY),
            0xc000022e => Some(NtStatusWindows::STATUS_FOUND_OUT_OF_SCOPE),
            0xc000022f => Some(NtStatusWindows::STATUS_ALLOCATE_BUCKET),
            0xc0000230 => Some(NtStatusWindows::STATUS_PROPSET_NOT_FOUND),
            _ => None,
        }
    }

    /// One slice of the symbol table: the raw value of this symbol,
    /// where this slice holds it.
    pub open spec fn spec_to_u32_part13(self) -> Option<u32> {
        match self {
            NtStatusWindows::STATUS_MARSHALL_OVERFLOW => Some(0xc0000231),
            NtStatusWindows::STATUS_INVALID_VARIANT => Some(0xc0000232),
            NtStatusWindows::STATUS_DOMAIN_CONTROLLER_NOT_FOUND => Some(0xc0000233),
            NtStatusWindows::STATUS_ACCOUNT_LOCKED_OUT => Some(0xc0000234),
            NtStatusWindows::STATUS_HANDLE_NOT_CLOSABLE => Some(0xc0000235),
            NtStatusWindows::STATUS_CONNECTION_REFUSED => Some(0xc0000236),
            NtStatusWindows::STATUS_GRACEFUL_DISCONNECT => Some(0xc0000237),
            NtStatusWindows::STATUS_ADDRESS_ALREADY_ASSOCIATED => Some(0xc0000238),
            NtStatusWindows::STATUS_ADDRESS_NOT_ASSOCIATED => Some(0xc0000239),
            NtStatusWindows::STATUS_CONNECTION_INVALID => Some(0xc000023a),
            NtStatusWindows::STATUS_CONNECTION_ACTIVE => Some(0xc000023b),
            NtStatusWindows::STATUS_NETWORK_UNREACHABLE => Some(0xc000023c),
            NtStatusWindows::STATUS_HOST_UNREACHABLE => Some(0xc000023d),
            NtStatusWindows::STATUS_PROTOCOL_UNREACHABLE => Some(0xc000023e),
            NtStatusWindows::STATUS_PORT_UNREACHABLE => Some(0xc000023f),
            NtStatusWindows::STATUS_REQUEST_ABORTED => Some(0xc0000240),
            NtStatusWindows::STATUS_CONNECTION_ABORTED => Some(0xc0000241),
            NtStatusWindows::STATUS_BAD_COMPRESSION_BUFFER => Some(0xc0000242),
            NtStatusWindows::STATUS_USER_MAPPED_FILE => Some(0xc0000243),
            NtStatusWindows::STATUS_AUDIT_FAILED => Some(0xc0000244),
            NtStatusWindows::STATUS_TIMER_RESOLUTION_NOT_SET => Some(0xc0000245),
            NtStatusWindows::STATUS_CONNECTION_COUNT_LIMIT => Some(0xc0000246),
            NtStatusWindows::STATUS_LOGIN_TIME_RESTRICTION => Some(0xc0000247),
            NtStatusWindows::STATUS_LOGIN_WKSTA_RESTRICTION => Some(0xc0000248),
            NtStatusWindows::STATUS_IMAGE_MP_UP_MISMATCH => Some(0xc0000249),
            NtStatusWindows::STATUS_INSUFFICIENT_LOGON_INFO => Some(0xc0000250),
            NtStatusWindows::STATUS_BAD_DLL_ENTRYPOINT => Some(0xc0000251),
            NtStatusWindows::STATUS_BAD_SERVICE_ENTRYPOINT => Some(0xc0000252),
            NtStatusWindows::STATUS_LPC_REPLY_LOST => Some(0xc0000253),
            NtStatusWindows::STATUS_IP_ADDRESS_CONFLICT1 => Some(0xc0000254),
            NtStatusWindows::STATUS_IP_ADDRESS_CONFLICT2 => Some(0xc0000255),
            NtStatusWindows::STATUS_REGISTRY_QUOTA_LIMIT => Some(0xc0000256),
            NtStatusWindows::STATUS_PATH_NOT_COVERED => Some(0xc0000257),
            NtStatusWindows::STATUS_NO_CALLBACK_ACTIVE => Some(0xc0000258),
            NtStatusWindows::STATUS_LICENSE_QUOTA_EXCEEDED => Some(0xc0000259),
            NtStatusWindows::STATUS_PWD_TOO_SHORT => Some(0xc000025a),
            NtStatusWindows::STATUS_PWD_TOO_RECENT => Some(0xc000025b),
            NtStatusWindows::STATUS_PWD_HISTORY_CONFLICT => Some(0xc000025c),
            NtStatusWindows::STATUS_PLUGPLAY_NO_DEVICE => Some(0xc000025e),
            NtStatusWindows::STATUS_UNSUPPORTED_COMPRESSION => Some(0xc000025f),
            NtStatusWindows::STATUS_INVALID_HW_PROFILE => Some(0xc0000260),
            NtStatusWindows::STATUS_INVALID_PLUGPLAY_DEVICE_PATH => Some(0xc0000261),
            NtStatusWindows::STATUS_DRIVER_ORDINAL_NOT_FOUND => Some(0xc0000262),
            NtStatusWindows::STATUS_DRIVER_ENTRYPOINT_NOT_FOUND => Some(0xc0000263),
            NtStatusWindows::STATUS_RESOURCE_NOT_OWNED => Some(0xc0000264),
            NtStatusWindows::STATUS_TOO_MANY_LINKS => Some(0xc0000265),
            NtStatusWindows::STATUS_QUOTA_LIST_INCONSISTENT => Some(0xc0000266),
            NtStatusWindows::STATUS_FILE_IS_OFFLINE => Some(0xc0000267),
            NtStatusWindows::STATUS_EVALUATION_EXPIRATION => Some(0xc0000268),
            NtStatusWindows::STATUS_ILLEGAL_DLL_RELOCATION => Some(0xc0000269),
            _ => None,
        }
    }

    /// One slice of the symbol table: the symbol this slice gives a
    /// raw value, where it holds one.
    pub open spec fn spec_from_u32_part13(raw: u32) -> Option<NtStatusWindows> {
        match raw {
            0xc0000231 => Some(NtStatusWindows::STATUS_MARSHALL_OVERFLOW),
            0xc0000232 => Some(NtStatusWindows::STATUS_INVALID_VARIANT),
            0xc0000233 => Some(NtStatusWindows::STATUS_DOMAIN_CONTROLLER_NOT_FOUND),
            0xc0000234 => Some(NtStatusWindows::STATUS_ACCOUNT_LOCKED_OUT),
            0xc0000235 => Some(NtStatusWindows::STATUS_HANDLE_NOT_CLOSABLE),
            0xc0000236 => Some(NtStatusWindows::STATUS_CONNECTION_REFUSED),
            0xc0000237 => Some(NtStatusWindows::STATUS_GRACEFUL_DISCONNECT),
            0xc0000238 => Some(NtStatusWindows::STATUS_ADDRESS_ALREADY_ASSOCIATED),
            0xc0000239 => Some(NtStatusWindows::STATUS_ADDRESS_NOT_ASSOCIATED),
            0xc000023a => Some(NtStatusWindows::STATUS_CONNECTION_INVALID),
            0xc000023b => Some(NtStatusWindows::STATUS_CONNECTION_ACTIVE),
            0xc000023c => Some(NtStatusWindows::STATUS_NETWORK_UNREACHABLE),
            0xc000023d => Some(NtStatusWindows::STATUS_HOST_UNREACHABLE),
            0xc000023e => Some(NtStatusWindows::STATUS_PROTOCOL_UNREACHABLE),
            0xc000023f => Some(NtStatusWindows::STATUS_PORT_UNREACHABLE),
            0xc0000240 => Some(NtStatusWindows::STATUS_REQUEST_ABORTED),
            0xc0000241 => Some(NtStatusWindows::STATUS_CONNECTION_ABORTED),
            0xc0000242 => Some(NtStatusWindows::STATUS_BAD_COMPRESSION_BUFFER),
            0xc0000243 => Some(NtStatusWindows::STATUS_USER_MAPPED_FILE),
            0xc0000244 => Some(NtStatusWindows::STATUS_AUDIT_FAILED),
            0xc0000245 => Some(NtStatusWindows::STATUS_TIMER_RESOLUTION_NOT_SET),
            0xc0000246 => Some(NtStatusWindows::STATUS_CONNECTION_COUNT_LIMIT),
            0xc0000247 => Some(NtStatusWindows::STATUS_LOGIN_TIME_RESTRICTION),
            0xc0000248 => Some(NtStatusWindows::STATUS_LOGIN_WKSTA_RESTRICTION),
            0xc0000249 => Some(NtStatusWindows::STATUS_IMAGE_MP_UP_MISMATCH),
            0xc0000250 => Some(NtStatusWindows::STATUS_INSUFFICIENT_LOGON_INFO),
            0xc0000251 => Some(NtStatusWindows::STATUS_BAD_DLL_ENTRYPOINT),
            0xc0000252 => Some(NtStatusWindows::STATUS_BAD_SERVICE_ENTRYPOINT),
            0xc0000253 => Some(NtStatusWindows::STATUS_LPC_REPLY_LOST),
            0xc0000254 => Some(NtStatusWindows::STATUS_IP_ADDRESS_CONFLICT1),
            0xc0000255 => Some(NtStatusWindows::STATUS_IP_ADDRESS_CONFLICT2),
            0xc0000256 => Some(NtStatusWindows::STATUS_REGISTRY_QUOTA_LIMIT),
            0xc0000257 => Some(NtStatusWindows::STATUS_PATH_NOT_COVERED),
            0xc0000258 => Some(NtStatusWindows::STATUS_NO_CALLBACK_ACTIVE),
            0xc0000259 => Some(NtStatusWindows::STATUS_LICENSE_QUOTA_EXCEEDED),
            0xc000025a => Some(NtStatusWindows::STATUS_PWD_TOO_SHORT),
            0xc000025b => Some(NtStatusWindows::STATUS_PWD_TOO_RECENT),
            0xc000025c => Some(NtStatusWindows::STATUS_PWD_HISTORY_CONFLICT),
            0xc000025e => Some(NtStatusWindows::STATUS_PLUGPLAY_NO_DEVICE),
            0xc000025f => Some(NtStatusWindows::STATUS_UNSUPPORTED_COMPRESSION),
            0xc0000260 => Some(NtStatusWindows::STATUS_INVALID_HW_PROFILE),
            0xc0000261 => Some(NtStatusWindows::STATUS_INVALID_PLUGPLAY_DEVICE_PATH),
            0xc0000262 => Some(NtStatusWindows::STATUS_DRIVER_ORDINAL_NOT_FOUND),
            0xc0000263 => Some(NtStatusWindows::STATUS_DRIVER_ENTRYPOINT_NOT_FOUND),
            0xc0000264 => Some(NtStatusWindows::STATUS_RESOURCE_NOT_OWNED),
            0xc0000265 => Some(NtStatusWindows::STATUS_TOO_MANY_LINKS),
            0xc0000266 => Some(NtStatusWindows::STATUS_QUOTA_LIST_INCONSISTENT),
            0xc0000267 => Some(NtStatusWindows::STATUS_FILE_IS_OFFLINE),
            0xc0000268 => Some(NtStatusWindows::STATUS_EVALUATION_EXPIRATION),
            0xc0000269 => Some(NtStatusWindows::STATUS_ILLEGAL_DLL_RELOCATION),
            _ => None,
        }
    }

    /// One slice of the symbol table.
    #[verifier::spinoff_prover]
    #[verifier::rlimit(100)]
    fn to_u32_part13(self) -> (r: Option<u32>)
        ensures
            r == self.spec_to_u32_part13(),
    {
        match self {
            NtStatusWindows::STATUS_MARSHALL_OVERFLOW => Some(0xc0000231),
            NtStatusWindows::STATUS_INVALID_VARIANT => Some(0xc0000232),
            NtStatusWindows::STATUS_DOMAIN_CONTROLLER_NOT_FOUND => Some(0xc0000233),
            NtStatusWindows::STATUS_ACCOUNT_LOCKED_OUT => Some(0xc0000234),
            NtStatusWindows::STATUS_HANDLE_NOT_CLOSABLE => Some(0xc0000235),
            NtStatusWindows::STATUS_CONNECTION_REFUSED => Some(0xc0000236),
            NtStatusWindows::STATUS_GRACEFUL_DISCONNECT => Some(0xc0000237),
            NtStatusWindows::STATUS_ADDRESS_ALREADY_ASSOCIATED => Some(0xc0000238),
            NtStatusWindows::STATUS_ADDRESS_NOT_ASSOCIATED => Some(0xc0000239),
            NtStatusWindows::STATUS_CONNECTION_INVALID => Some(0xc000023a),
            NtStatusWindows::STATUS_CONNECTION_ACTIVE => Some(0xc000023b),
            NtStatusWindows::STATUS_NETWORK_UNREACHABLE => Some(0xc000023c),
            NtStatusWindows::STATUS_HOST_UNREACHABLE => Some(0xc000023d),
            NtStatusWindows::STATUS_PROTOCOL_UNREACHABLE => Some(0xc000023e),
            NtStatusWindows::STATUS_PORT_UNREACHABLE => Some(0xc000023f),
            NtStatusWindows::STATUS_REQUEST_ABORTED => Some(0xc0000240),
            NtStatusWindows::STATUS_CONNECTION_ABORTED => Some(0xc0000241),
            NtStatusWindows::STATUS_BAD_COMPRESSION_BUFFER => Some(0xc0000242),
            NtStatusWindows::STATUS_USER_MAPPED_FILE => Some(0xc0000243),
            NtStatusWindows::STATUS_AUDIT_FAILED => Some(0xc0000244),
            NtStatusWindows::STATUS_TIMER_RESOLUTION_NOT_SET => Some(0xc0000245),
            NtStatusWindows::STATUS_CONNECTION_COUNT_LIMIT => Some(0xc0000246),
            NtStatusWindows::STATUS_LOGIN_TIME_RESTRICTION => Some(0xc0000247),
            NtStatusWindows::STATUS_LOGIN_WKSTA_RESTRICTION => Some(0xc0000248),
            NtStatusWindows::STATUS_IMAGE_MP_UP_MISMATCH => Some(0xc0000249),
            NtStatusWindows::STATUS_INSUFFICIENT_LOGON_INFO => Some(0xc0000250),
            NtStatusWindows::STATUS_BAD_DLL_ENTRYPOINT => Some(0xc0000251),
            NtStatusWindows::STATUS_BAD_SERVICE_ENTRYPOINT => Some(0xc0000252),
            NtStatusWindows::STATUS_LPC_REPLY_LOST => Some(0xc0000253),
            NtStatusWindows::STATUS_IP_ADDRESS_CONFLICT1 => Some(0xc0000254),
            NtStatusWindows::STATUS_IP_ADDRESS_CONFLICT2 => Some(0xc0000255),
            NtStatusWindows::STATUS_REGISTRY_QUOTA_LIMIT => Some(0xc0000256),
            NtStatusWindows::STATUS_PATH_NOT_COVERED => Some(0xc0000257),
            NtStatusWindows::STATUS_NO_CALLBACK_ACTIVE => Some(0xc0000258),
            NtStatusWindows::STATUS_LICENSE_QUOTA_EXCEEDED => Some(0xc0000259),
            NtStatusWindows::STATUS_PWD_TOO_SHORT => Some(0xc000025a),
            NtStatusWindows::STATUS_PWD_TOO_RECENT => Some(0xc000025b),
            NtStatusWindows::STATUS_PWD_HISTORY_CONFLICT => Some(0xc000025c),
            NtStatusWindows::STATUS_PLUGPLAY_NO_DEVICE => Some(0xc000025e),
            NtStatusWindows::STATUS_UNSUPPORTED_COMPRESSION => Some(0xc000025f),
            NtStatusWindows::STATUS_INVALID_HW_PROFILE => Some(0xc0000260),
            NtStatusWindows::STATUS_INVALID_PLUGPLAY_DEVICE_PATH => Some(0xc0000261),
            NtStatusWindows::STATUS_DRIVER_ORDINAL_NOT_FOUND => Some(0xc0000262),
            NtStatusWindows::STATUS_DRIVER_ENTRYPOINT_NOT_FOUND => Some(0xc0000263),
            NtStatusWindows::STATUS_RESOURCE_NOT_OWNED => Some(0xc0000264),
            NtStatusWindows::STATUS_TOO_MANY_LINKS => Some(0xc0000265),
            NtStatusWindows::STATUS_QUOTA_LIST_INCONSISTENT => Some(0xc0000266),
            NtStatusWindows::STATUS_FILE_IS_OFFLINE => Some(0xc0000267),
            NtStatusWindows::STATUS_EVALUATION_EXPIRATION => Some(0xc0000268),
            NtStatusWindows::STATUS_ILLEGAL_DLL_RELOCATION => Some(0xc0000269),
            _ => None,
        }
    }

    /// One slice of the symbol table.
    #[verifier::spinoff_prover]
    #[verifier::rlimit(100)]
    fn from_u32_part13(raw: u32) -> (r: Option<NtStatusWindows>)
        ensures
            r == NtStatusWindows::spec_from_u32_part13(raw),
    {
        match raw {
            0xc0000231 => Some(NtStatusWindows::STATUS_MARSHALL_OVERFLOW),
            0xc0000232 => Some(NtStatusWindows::STATUS_INVALID_VARIANT),
            0xc0000233 => Some(NtStatusWindows::STATUS_DOMAIN_CONTROLLER_NOT_FOUND),
            0xc0000234 => Some(NtStatusWindows::STATUS_ACCOUNT_LOCKED_OUT),
            0xc0000235 => Some(NtStatusWindows::STATUS_HANDLE_NOT_CLOSABLE),
            0xc0000236 => Some(NtStatusWindows::STATUS_CONNECTION_REFUSED),
            0xc0000237 => Some(NtStatusWindows::STATUS_GRACEFUL_DISCONNECT),
            0xc0000238 => Some(NtStatusWindows::STATUS_ADDRESS_ALREADY_ASSOCIATED),
            0xc0000239 => Some(NtStatusWindows::STATUS_ADDRESS_NOT_ASSOCIATED),
            0xc000023a => Some(NtStatusWindows::STATUS_CONNECTION_INVALID),
            0xc000023b => Some(NtStatusWindows::STATUS_CONNECTION_ACTIVE),
            0xc000023c => Some(NtStatusWindows::STATUS_NETWORK_UNREACHABLE),
            0xc000023d => Some(NtStatusWindows::STATUS_HOST_UNREACHABLE),
            0xc000023e => Some(NtStatusWindows::STATUS_PROTOCOL_UNREACHABLE),
            0xc000023f => Some(NtStatusWindows::STATUS_PORT_UNREACHABLE),
            0xc0000240 => Some(NtStatusWindows::STATUS_REQUEST_ABORTED),
            0xc0000241 => Some(NtStatusWindows::STATUS_CONNECTION_ABORTED),
            0xc0000242 => Some(NtStatusWindows::STATUS_BAD_COMPRESSION_BUFFER),
            0xc0000243 => Some(NtStatusWindows::STATUS_USER_MAPPED_FILE),
            0xc0000244 => Some(NtStatusWindows::STATUS_AUDIT_FAILED),
            0xc0000245 => Some(NtStatusWindows::STATUS_TIMER_RESOLUTION_NOT_SET),
            0xc0000246 => Some(NtStatusWindows::STATUS_CONNECTION_COUNT_LIMIT),
            0xc0000247 => Some(NtStatusWindows::STATUS_LOGIN_TIME_RESTRICTION),
            0xc0000248 => Some(NtStatusWindows::STATUS_LOGIN_WKSTA_RESTRICTION),
            0xc0000249 => Some(NtStatusWindows::STATUS_IMAGE_MP_UP_MISMATCH),
            0xc0000250 => Some(NtStatusWindows::STATUS_INSUFFICIENT_LOGON_INFO),
            0xc0000251 => Some(NtStatusWindows::STATUS_BAD_DLL_ENTRYPOINT),
            0xc0000252 => Some(NtStatusWindows::STATUS_BAD_SERVICE_ENTRYPOINT),
            0xc0000253 => Some(NtStatusWindows::STATUS_LPC_REPLY_LOST),
            0xc0000254 => Some(NtStatusWindows::STATUS_IP_ADDRESS_CONFLICT1),
            0xc0000255 => Some(NtStatusWindows::STATUS_IP_ADDRESS_CONFLICT2),
            0xc0000256 => Some(NtStatusWindows::STATUS_REGISTRY_QUOTA_LIMIT),
            0xc0000257 => Some(NtStatusWindows::STATUS_PATH_NOT_COVERED),
            0xc0000258 => Some(NtStatusWindows::STATUS_NO_CALLBACK_ACTIVE),
            0xc0000259 => Some(NtStatusWindows::STATUS_LICENSE_QUOTA_EXCEEDED),
            0xc000025a => Some(NtStatusWindows::STATUS_PWD_TOO_SHORT),
            0xc000025b => Some(NtStatusWindows::STATUS_PWD_TOO_RECENT),
            0xc000025c => Some(NtStatusWindows::STATUS_PWD_HISTORY_CONFLICT),
            0xc000025e => Some(NtStatusWindows::STATUS_PLUGPLAY_NO_DEVICE),
            0xc000025f => Some(NtStatusWindows::STATUS_UNSUPPORTED_COMPRESSION),
            0xc0000260 => Some(NtStatusWindows::STATUS_INVALID_HW_PROFILE),
            0xc0000261 => Some(NtStatusWindows::STATUS_INVALID_PLUGPLAY_DEVICE_PATH),
            0xc0000262 => Some(NtStatusWindows::STATUS_DRIVER_ORDINAL_NOT_FOUND),
            0xc0000263 => Some(NtStatusWindows::STATUS_DRIVER_ENTRYPOINT_NOT_FOUND),
            0xc0000264 => Some(NtStatusWindows::STATUS_RESOURCE_NOT_OWNED),
            0xc0000265 => Some(NtStatusWindows::STATUS_TOO_MANY_LINKS),
            0xc0000266 => Some(NtStatusWindows::STATUS_QUOTA_LIST_INCONSISTENT),
            0xc0000267 => Some(NtStatusWindows::STATUS_FILE_IS_OFFLINE),
            0xc0000268 => Some(NtStatusWindows::STATUS_EVALUATION_EXPIRATION),
            0xc0000269 => Some(NtStatusWindows::STATUS_ILLEGAL_DLL_RELOCATION),
            _ => None,
        }
    }

    /// One slice of the symbol table: the raw value of this symbol,
    /// where this slice holds it.
    pub open spec fn spec_to_u32_part14(self) -> Option<u32> {
        match self {
            NtStatusWindows::STATUS_LICENSE_VIOLATION => Some(0xc000026a),
            NtStatusWindows::STATUS_DLL_INIT_FAILED_LOGOFF => Some(0xc000026b),
            NtStatusWindows::STATUS_DRIVER_UNABLE_TO_LOAD => Some(0xc000026c),
            NtStatusWindows::STATUS_DFS_UNAVAILABLE => Some(0xc000026d),
            NtStatusWindows::STATUS_VOLUME_DISMOUNTED => Some(0xc000026e),
            NtStatusWindows::STATUS_WX86_INTERNAL_ERROR => Some(0xc000026f),
            NtStatusWindows::STATUS_WX86_FLOAT_STACK_CHECK => Some(0xc0000270),
            NtStatusWindows::STATUS_VALIDATE_CONTINUE => Some(0xc0000271),
            NtStatusWindows::STATUS_NO_MATCH => Some(0xc0000272),
            NtStatusWindows::STATUS_NO_MORE_MATCHES => Some(0xc0000273),
            NtStatusWindows::STATUS_NOT_A_REPARSE_POINT => Some(0xc0000275),
            NtStatusWindows::STATUS_IO_REPARSE_TAG_INVALID => Some(0xc0000276),
            NtStatusWindows::STATUS_IO_REPARSE_TAG_MISMATCH => Some(0xc0000277),
            NtStatusWindows::STATUS_IO_REPARSE_DATA_INVALID => Some(0xc0000278),
            NtStatusWindows::STATUS_IO_REPARSE_TAG_NOT_HANDLED => Some(0xc0000279),
            NtStatusWindows::STATUS_PWD_TOO_LONG => Some(0xc000027a),
            NtStatusWindows::STATUS_STOWED_EXCEPTION => Some(0xc000027b),
            NtStatusWindows::STATUS_CONTEXT_STOWED_EXCEPTION => Some(0xc000027c),
            NtStatusWindows::STATUS_REPARSE_POINT_NOT_RESOLVED => Some(0xc0000280),
            NtStatusWindows::STATUS_DIRECTORY_IS_A_REPARSE_POINT => Some(0xc0000281),
            NtStatusWindows::STATUS_RANGE_LIST_CONFLICT => Some(0xc0000282),
            NtStatusWindows::STATUS_SOURCE_ELEMENT_EMPTY => Some(0xc0000283),
            NtStatusWindows::STATUS_DESTINATION_ELEMENT_FULL => Some(0xc0000284),
            NtStatusWindows::STATUS_ILLEGAL_ELEMENT_ADDRESS => Some(0xc0000285),
            NtStatusWindows::STATUS_MAGAZINE_NOT_PRESENT => Some(0xc0000286),
            NtStatusWindows::STATUS_REINITIALIZATION_NEEDED => Some(0xc0000287),
            NtStatusWindows::STATUS_ENCRYPTION_FAILED => Some(0xc000028a),
            NtStatusWindows::STATUS_DECRYPTION_FAILED => Some(0xc000028b),
            NtStatusWindows::STATUS_RANGE_NOT_FOUND => Some(0xc000028c),
            NtStatusWindows::STATUS_NO_RECOVERY_POLICY => Some(0xc000028d),
            NtStatusWindows::STATUS_NO_EFS => Some(0xc000028e),
            NtStatusWindows::STATUS_WRONG_EFS => Some(0xc000028f),
            NtStatusWindows::STATUS_NO_USER_KEYS => Some(0xc0000290),
            NtStatusWindows::STATUS_FILE_NOT_ENCRYPTED => Some(0xc0000291),
            NtStatusWindows::STATUS_NOT_EXPORT_FORMAT => Some(0xc0000292),
            NtStatusWindows::STATUS_FILE_ENCRYPTED => Some(0xc0000293),
            NtStatusWindows::STATUS_WMI_GUID_NOT_FOUND => Some(0xc0000295),
            NtStatusWindows::STATUS_WMI_INSTANCE_NOT_FOUND => Some(0xc0000296),
            NtStatusWindows::STATUS_WMI_ITEMID_NOT_FOUND => Some(0xc0000297),
            NtStatusWindows::STATUS_WMI_TRY_AGAIN => Some(0xc0000298),
            NtStatusWindows::STATUS_SHARED_POLICY => Some(0xc0000299),
            NtStatusWindows::STATUS_POLICY_OBJECT_NOT_FOUND => Some(0xc000029a),
            NtStatusWindows::STATUS_POLICY_ONLY_IN_DS => Some(0xc000029b),
            NtStatusWindows::STATUS_VOLUME_NOT_UPGRADED => Some(0xc000029c),
            NtStatusWindows::STATUS_REMOTE_STORAGE_NOT_ACTIVE => Some(0xc000029d),
            NtStatusWindows::STATUS_REMOTE_STORAGE_MEDIA_ERROR => Some(0xc000029e),
            NtStatusWindows::STATUS_NO_TRACKING_SERVICE => Some(0xc000029f),
            NtStatusWindows::STATUS_SERVER_SID_MISMATCH => Some(0xc00002a0),
            NtStatusWindows::STATUS_DS_NO_ATTRIBUTE_OR_VALUE => Some(0xc00002a1),
            NtStatusWindows::STATUS_DS_INVALID_ATTRIBUTE_SYNTAX => Some(0xc00002a2),
            _ => None,
        }
    }

    /// One slice of the symbol table: the symbol this slice gives a
    /// raw value, where it holds one.
    pub open spec fn spec_from_u32_part14(raw: u32) -> Option<NtStatusWindows> {
        match raw {
            0xc000026a => Some(NtStatusWindows::STATUS_LICENSE_VIOLATION),
            0xc000026b => Some(NtStatusWindows::STATUS_DLL_INIT_FAILED_LOGOFF),
            0xc000026c => Some(NtStatusWindows::STATUS_DRIVER_UNABLE_TO_LOAD),
            0xc000026d => Some(NtStatusWindows::STATUS_DFS_UNAVAILABLE),
            0xc000026e => Some(NtStatusWindows::STATUS_VOLUME_DISMOUNTED),
            0xc000026f => Some(NtStatusWindows::STATUS_WX86_INTERNAL_ERROR),
            0xc0000270 => Some(NtStatusWindows::STATUS_WX86_FLOAT_STACK_CHECK),
            0xc0000271 => Some(NtStatusWindows::STATUS_VALIDATE_CONTINUE),
            0xc0000272 => Some(NtStatusWindows::STATUS_NO_MATCH),
            0xc0000273 => Some(NtStatusWindows::STATUS_NO_MORE_MATCHES),
            0xc0000275 => Some(NtStatusWindows::STATUS_NOT_A_REPARSE_POINT),
            0xc0000276 => Some(NtStatusWindows::STATUS_IO_REPARSE_TAG_INVALID),
            0xc0000277 => Some(NtStatusWindows::STATUS_IO_REPARSE_TAG_MISMATCH),
            0xc0000278 => Some(NtStatusWindows::STATUS_IO_REPARSE_DATA_INVALID),
            0xc0000279 => Some(NtStatusWindows::STATUS_IO_REPARSE_TAG_NOT_HANDLED),
            0xc000027a => Some(NtStatusWindows::STATUS_PWD_TOO_LONG),
            0xc000027b => Some(NtStatusWindows::STATUS_STOWED_EXCEPTION),
            0xc000027c => Some(NtStatusWindows::STATUS_CONTEXT_STOWED_EXCEPTION),
            0xc0000280 => Some(NtStatusWindows::STATUS_REPARSE_POINT_NOT_RESOLVED),
            0xc0000281 => Some(NtStatusWindows::STATUS_DIRECTORY_IS_A_REPARSE_POINT),
            0xc0000282 => Some(NtStatusWindows::STATUS_RANGE_LIST_CONFLICT),
            0xc0000283 => Some(NtStatusWindows::STATUS_SOURCE_ELEMENT_EMPTY),
            0xc0000284 => Some(NtStatusWindows::STATUS_DESTINATION_ELEMENT_FULL),
            0xc0000285 => Some(NtStatusWindows::STATUS_ILLEGAL_ELEMENT_ADDRESS),
            0xc0000286 => Some(NtStatusWindows::STATUS_MAGAZINE_NOT_PRESENT),
            0xc0000287 => Some(NtStatusWindows::STATUS_REINITIALIZATION_NEEDED),
            0xc000028a => Some(NtStatusWindows::STATUS_ENCRYPTION_FAILED),
            0xc000028b => Some(NtStatusWindows::STATUS_DECRYPTION_FAILED),
            0xc000028c => Some(NtStatusWindows::STATUS_RANGE_NOT_FOUND),
            0xc000028d => Some(NtStatusWindows::STATUS_NO_RECOVERY_POLICY),
            0xc000028e => Some(NtStatusWindows::STATUS_NO_EFS),
            0xc000028f => Some(NtStatusWindows::STATUS_WRONG_EFS),
            0xc0000290 => Some(NtStatusWindows::STATUS_NO_USER_KEYS),
            0xc0000291 => Some(NtStatusWindows::STATUS_FILE_NOT_ENCRYPTED),
            0xc0000292 => Some(NtStatusWindows::STATUS_NOT_EXPORT_FORMAT),
            0xc0000293 => Some(NtStatusWindows::STATUS_FILE_ENCRYPTED),
            0xc0000295 => Some(NtStatusWindows::STATUS_WMI_GUID_NOT_FOUND),
            0xc0000296 => Some(NtStatusWindows::STATUS_WMI_INSTANCE_NOT_FOUND),
            0xc0000297 => Some(NtStatusWindows::STATUS_WMI_ITEMID_NOT_FOUND),
            0xc0000298 => Some(NtStatusWindows::STATUS_WMI_TRY_AGAIN),
            0xc0000299 => Some(NtStatusWindows::STATUS_SHARED_POLICY),
            0xc000029a => Some(NtStatusWindows::STATUS_POLICY_OBJECT_NOT_FOUND),
            0xc000029b => Some(NtStatusWindows::STATUS_POLICY_ONLY_IN_DS),
            0xc000029c => Some(NtStatusWindows::STATUS_VOLUME_NOT_UPGRADED),
            0xc000029d => Some(NtStatusWindows::STATUS_REMOTE_STORAGE_NOT_ACTIVE),
            0xc000029e => Some(NtStatusWindows::STATUS_REMOTE_STORAGE_MEDIA_ERROR),
            0xc000029f => Some(NtStatusWindows::STATUS_NO_TRACKING_SERVICE),
            0xc00002a0 => Some(NtStatusWindows::STATUS_SERVER_SID_MISMATCH),
            0xc00002a1 => Some(NtStatusWindows::STATUS_DS_NO_ATTRIBUTE_OR_VALUE),
            0xc00002a2 => Some(NtStatusWindows::STATUS_DS_INVALID_ATTRIBUTE_SYNTAX),
            _ => None,
        }
    }

    /// One slice of the symbol table.
    #[verifier::spinoff_prover]
    #[verifier::rlimit(100)]
    fn to_u32_part14(self) -> (r: Option<u32>)
        ensures
            r == self.spec_to_u32_part14(),
    {
        match self {
            NtStatusWindows::STATUS_LICENSE_VIOLATION => Some(0xc000026a),
            NtStatusWindows::STATUS_DLL_INIT_FAILED_LOGOFF => Some(0xc000026b),
            NtStatusWindows::STATUS_DRIVER_UNABLE_TO_LOAD => Some(0xc000026c),
            NtStatusWindows::STATUS_DFS_UNAVAILABLE => Some(0xc000026d),
            NtStatusWindows::STATUS_VOLUME_DISMOUNTED => Some(0xc000026e),
            NtStatusWindows::STATUS_WX86_INTERNAL_ERROR => Some(0xc000026f),
            NtStatusWindows::STATUS_WX86_FLOAT_STACK_CHECK => Some(0xc0000270),
            NtStatusWindows::STATUS_VALIDATE_CONTINUE => Some(0xc0000271),
            NtStatusWindows::STATUS_NO_MATCH => Some(0xc0000272),
            NtStatusWindows::STATUS_NO_MORE_MATCHES => Some(0xc0000273),
            NtStatusWindows::STATUS_NOT_A_REPARSE_POINT => Some(0xc0000275),
            NtStatusWindows::STATUS_IO_REPARSE_TAG_INVALID => Some(0xc0000276),
            NtStatusWindows::STATUS_IO_REPARSE_TAG_MISMATCH => Some(0xc0000277),
            NtStatusWindows::STATUS_IO_REPARSE_DATA_INVALID => Some(0xc0000278),
            NtStatusWindows::STATUS_IO_REPARSE_TAG_NOT_HANDLED => Some(0xc0000279),
            NtStatusWindows::STATUS_PWD_TOO_LONG => Some(0xc000027a),
            NtStatusWindows::STATUS_STOWED_EXCEPTION => Some(0xc000027b),
            NtStatusWindows::STATUS_CONTEXT_STOWED_EXCEPTION => Some(0xc000027c),
            NtStatusWindows::STATUS_REPARSE_POINT_NOT_RESOLVED => Some(0xc0000280),
            NtStatusWindows::STATUS_DIRECTORY_IS_A_REPARSE_POINT => Some(0xc0000281),
            NtStatusWindows::STATUS_RANGE_LIST_CONFLICT => Some(0xc0000282),
            NtStatusWindows::STATUS_SOURCE_ELEMENT_EMPTY => Some(0xc0000283),
            NtStatusWindows::STATUS_DESTINATION_ELEMENT_FULL => Some(0xc0000284),
            NtStatusWindows::STATUS_ILLEGAL_ELEMENT_ADDRESS => Some(0xc0000285),
            NtStatusWindows::STATUS_MAGAZINE_NOT_PRESENT => Some(0xc0000286),
            NtStatusWindows::STATUS_REINITIALIZATION_NEEDED => Some(0xc0000287),
            NtStatusWindows::STATUS_ENCRYPTION_FAILED => Some(0xc000028a),
            NtStatusWindows::STATUS_DECRYPTION_FAILED => Some(0xc000028b),
            NtStatusWindows::STATUS_RANGE_NOT_FOUND => Some(0xc000028c),
            NtStatusWindows::STATUS_NO_RECOVERY_POLICY => Some(0xc000028d),
            NtStatusWindows::STATUS_NO_EFS => Some(0xc000028e),
            NtStatusWindows::STATUS_WRONG_EFS => Some(0xc000028f),
            NtStatusWindows::STATUS_NO_USER_KEYS => Some(0xc0000290),
            NtStatusWindows::STATUS_FILE_NOT_ENCRYPTED => Some(0xc0000291),
            NtStatusWindows::STATUS_NOT_EXPORT_FORMAT => Some(0xc0000292),
            NtStatusWindows::STATUS_FILE_ENCRYPTED => Some(0xc0000293),
            NtStatusWindows::STATUS_WMI_GUID_NOT_FOUND => Some(0xc0000295),
            NtStatusWindows::STATUS_WMI_INSTANCE_NOT_FOUND => Some(0xc0000296),
            NtStatusWindows::STATUS_WMI_ITEMID_NOT_FOUND => Some(0xc0000297),
            NtStatusWindows::STATUS_WMI_TRY_AGAIN => Some(0xc0000298),
            NtStatusWindows::STATUS_SHARED_POLICY => Some(0xc0000299),
            NtStatusWindows::STATUS_POLICY_OBJECT_NOT_FOUND => Some(0xc000029a),
            NtStatusWindows::STATUS_POLICY_ONLY_IN_DS => Some(0xc000029b),
            NtStatusWindows::STATUS_VOLUME_NOT_UPGRADED => Some(0xc000029c),
            NtStatusWindows::STATUS_REMOTE_STORAGE_NOT_ACTIVE => Some(0xc000029d),
            NtStatusWindows::STATUS_REMOTE_STORAGE_MEDIA_ERROR => Some(0xc000029e),
            NtStatusWindows::STATUS_NO_TRACKING_SERVICE => Some(0xc000029f),
            NtStatusWindows::STATUS_SERVER_SID_MISMATCH => Some(0xc00002a0),
            NtStatusWindows::STATUS_DS_NO_ATTRIBUTE_OR_VALUE => Some(0xc00002a1),
            NtStatusWindows::STATUS_DS_INVALID_ATTRIBUTE_SYNTAX => Some(0xc00002a2),
            _ => None,
        }
    }

    /// One slice of the symbol table.
    #[verifier::spinoff_prover]
    #[verifier::rlimit(100)]
    fn from_u32_part14(raw: u32) -> (r: Option<NtStatusWindows>)
        ensures
            r == NtStatusWindows::spec_from_u32_part14(raw),
    {
        match raw {
            0xc000026a => Some(NtStatusWindows::STATUS_LICENSE_VIOLATION),
            0xc000026b => Some(NtStatusWindows::STATUS_DLL_INIT_FAILED_LOGOFF),
            0xc000026c => Some(NtStatusWindows::STATUS_DRIVER_UNABLE_TO_LOAD),
            0xc000026d => Some(NtStatusWindows::STATUS_DFS_UNAVAILABLE),
            0xc000026e => Some(NtStatusWindows::STATUS_VOLUME_DISMOUNTED),
            0xc000026f => Some(NtStatusWindows::STATUS_WX86_INTERNAL_ERROR),
            0xc0000270 => Some(NtStatusWindows::STATUS_WX86_FLOAT_STACK_CHECK),
            0xc0000271 => Some(NtStatusWindows::STATUS_VALIDATE_CONTINUE),
            0xc0000272 => Some(NtStatusWindows::STATUS_NO_MATCH),
            0xc0000273 => Some(NtStatusWindows::STATUS_NO_MORE_MATCHES),
            0xc0000275 => Some(NtStatusWindows::STATUS_NOT_A_REPARSE_POINT),
            0xc0000276 => Some(NtStatusWindows::STATUS_IO_REPARSE_TAG_INVALID),
            0xc0000277 => Some(NtStatusWindows::STATUS_IO_REPARSE_TAG_MISMATCH),
            0xc0000278 => Some(NtStatusWindows::STATUS_IO_REPARSE_DATA_INVALID),
            0xc0000279 => Some(NtStatusWindows::STATUS_IO_REPARSE_TAG_NOT_HANDLED),
            0xc000027a => Some(NtStatusWindows::STATUS_PWD_TOO_LONG),
            0xc000027b => Some(NtStatusWindows::STATUS_STOWED_EXCEPTION),
            0xc000027c => Some(NtStatusWindows::STATUS_CONTEXT_STOWED_EXCEPTION),
            0xc0000280 => Some(NtStatusWindows::STATUS_REPARSE_POINT_NOT_RESOLVED),
            0xc0000281 => Some(NtStatusWindows::STATUS_DIRECTORY_IS_A_REPARSE_POINT),
            0xc0000282 => Some(NtStatusWindows::STATUS_RANGE_LIST_CONFLICT),
            0xc0000283 => Some(NtStatusWindows::STATUS_SOURCE_ELEMENT_EMPTY),
            0xc0000284 => Some(NtStatusWindows::STATUS_DESTINATION_ELEMENT_FULL),
            0xc0000285 => Some(NtStatusWindows::STATUS_ILLEGAL_ELEMENT_ADDRESS),
            0xc0000286 => Some(NtStatusWindows::STATUS_MAGAZINE_NOT_PRESENT),
            0xc0000287 => Some(NtStatusWindows::STATUS_REINITIALIZATION_NEEDED),
            0xc000028a => Some(NtStatusWindows::STATUS_ENCRYPTION_FAILED),
            0xc000028b => Some(NtStatusWindows::STATUS_DECRYPTION_FAILED),
            0xc000028c => Some(NtStatusWindows::STATUS_RANGE_NOT_FOUND),
            0xc000028d => Some(NtStatusWindows::STATUS_NO_RECOVERY_POLICY),
            0xc000028e => Some(NtStatusWindows::STATUS_NO_EFS),
            0xc000028f => Some(NtStatusWindows::STATUS_WRONG_EFS),
            0xc0000290 => Some(NtStatusWindows::STATUS_NO_USER_KEYS),
            0xc0000291 => Some(NtStatusWindows::STATUS_FILE_NOT_ENCRYPTED),
            0xc0000292 => Some(NtStatusWindows::STATUS_NOT_EXPORT_FORMAT),
            0xc0000293 => Some(NtStatusWindows::STATUS_FILE_ENCRYPTED),
            0xc0000295 => Some(NtStatusWindows::STATUS_WMI_GUID_NOT_FOUND),
            0xc0000296 => Some(NtStatusWindows::STATUS_WMI_INSTANCE_NOT_FOUND),
            0xc0000297 => Some(NtStatusWindows::STATUS_WMI_ITEMID_NOT_FOUND),
            0xc0000298 => Some(NtStatusWindows::STATUS_WMI_TRY_AGAIN),
            0xc0000299 => Some(NtStatusWindows::STATUS_SHARED_POLICY),
            0xc000029a => Some(NtStatusWindows::STATUS_POLICY_OBJECT_NOT_FOUND),
            0xc000029b => Some(NtStatusWindows::STATUS_POLICY_ONLY_IN_DS),
            0xc000029c => Some(NtStatusWindows::STATUS_VOLUME_NOT_UPGRADED),
            0xc000029d => Some(NtStatusWindows::STATUS_REMOTE_STORAGE_NOT_ACTIVE),
            0xc000029e => Some(NtStatusWindows::STATUS_REMOTE_STORAGE_MEDIA_ERROR),
            0xc000029f => Some(NtStatusWindows::STATUS_NO_TRACKING_SERVICE),
            0xc00002a0 => Some(NtStatusWindows::STATUS_SERVER_SID_MISMATCH),
            0xc00002a1 => Some(NtStatusWindows::STATUS_DS_NO_ATTRIBUTE_OR_VALUE),
            0xc00002a2 => Some(NtStatusWindows::STATUS_DS_INVALID_ATTRIBUTE_SYNTAX),
            _ => None,
        }
    }

    /// One slice of the symbol table: the raw value of this symbol,
    /// where this slice holds it.
    pub open spec fn spec_to_u32_part15(self) -> Option<u32> {
        match self {
            NtStatusWindows::STATUS_DS_ATTRIBUTE_TYPE_UNDEFINED => Some(0xc00002a3),
            NtStatusWindows::STATUS_DS_ATTRIBUTE_OR_VALUE_EXISTS => Some(0xc00002a4),
            NtStatusWindows::STATUS_DS_BUSY => Some(0xc00002a5),
            NtStatusWindows::STATUS_DS_UNAVAILABLE => Some(0xc00002a6),
            NtStatusWindows::STATUS_DS_NO_RIDS_ALLOCATED => Some(0xc00002a7),
            NtStatusWindows::STATUS_DS_NO_MORE_RIDS => Some(0xc00002a8),
            NtStatusWindows::STATUS_DS_INCORRECT_ROLE_OWNER => Some(0xc00002a9),
            NtStatusWindows::STATUS_DS_RIDMGR_INIT_ERROR => Some(0xc00002aa),
            NtStatusWindows::STATUS_DS_OBJ_CLASS_VIOLATION => Some(0xc00002ab),
            NtStatusWindows::STATUS_DS_CANT_ON_NON_LEAF => Some(0xc00002ac),
            NtStatusWindows::STATUS_DS_CANT_ON_RDN => Some(0xc00002ad),
            NtStatusWindows::STATUS_DS_CANT_MOD_OBJ_CLASS => Some(0xc00002ae),
            NtStatusWindows::STATUS_DS_CROSS_DOM_MOVE_FAILED => Some(0xc00002af),
            NtStatusWindows::STATUS_DS_GC_NOT_AVAILABLE => Some(0xc00002b0),
            NtStatusWindows::STATUS_DIRECTORY_SERVICE_REQUIRED => Some(0xc00002b1),
            NtStatusWindows::STATUS_REPARSE_ATTRIBUTE_CONFLICT => Some(0xc00002b2),
            NtStatusWindows::STATUS_CANT_ENABLE_DENY_ONLY => Some(0xc00002b3),
            NtStatusWindows::STATUS_FLOAT_MULTIPLE_FAULTS => Some(0xc00002b4),
            NtStatusWindows::STATUS_FLOAT_MULTIPLE_TRAPS => Some(0xc00002b5),
            NtStatusWindows::STATUS_DEVICE_REMOVED => Some(0xc00002b6),
            NtStatusWindows::STATUS_JOURNAL_DELETE_IN_PROGRESS => Some(0xc00002b7),
            NtStatusWindows::STATUS_JOURNAL_NOT_ACTIVE => Some(0xc00002b8),
            NtStatusWindows::STATUS_NOINTERFACE => Some(0xc00002b9),
            NtStatusWindows::STATUS_DS_RIDMGR_DISABLED => Some(0xc00002ba),
            NtStatusWindows::STATUS_DS_ADMIN_LIMIT_EXCEEDED => Some(0xc00002c1),
            NtStatusWindows::STATUS_DRIVER_FAILED_SLEEP => Some(0xc00002c2),
            NtStatusWindows::STATUS_MUTUAL_AUTHENTICATION_FAILED => Some(0xc00002c3),
            NtStatusWindows::STATUS_CORRUPT_SYSTEM_FILE => Some(0xc00002c4),
            NtStatusWindows::STATUS_DATATYPE_MISALIGNMENT_ERROR => Some(0xc00002c5),
            NtStatusWindows::STATUS_WMI_READ_ONLY => Some(0xc00002c6),
            NtStatusWindows::STATUS_WMI_SET_FAILURE => Some(0xc00002c7),
            NtStatusWindows::STATUS_COMMITMENT_MINIMUM => Some(0xc00002c8),
            NtStatusWindows::STATUS_REG_NAT_CONSUMPTION => Some(0xc00002c9),
            NtStatusWindows::STATUS_TRANSPORT_FULL => Some(0xc00002ca),
            NtStatusWindows::STATUS_DS_SAM_INIT_FAILURE => Some(0xc00002cb),
            NtStatusWindows::STATUS_ONLY_IF_CONNECTED => Some(0xc00002cc),
            NtStatusWindows::STATUS_DS_SENSITIVE_GROUP_VIOLATION => Some(0xc00002cd),
            NtStatusWindows::STATUS_PNP_RESTART_ENUMERATION => Some(0xc00002ce),
            NtStatusWindows::STATUS_JOURNAL_ENTRY_DELETED => Some(0xc00002cf),
            NtStatusWindows::STATUS_DS_CANT_MOD_PRIMARYGROUPID => Some(0xc00002d0),
            NtStatusWindows::STATUS_SYSTEM_IMAGE_BAD_SIGNATURE => Some(0xc00002d1),
            NtStatusWindows::STATUS_PNP_REBOOT_REQUIRED => Some(0xc00002d2),
            NtStatusWindows::STATUS_POWER_STATE_INVALID => Some(0xc00002d3),
            NtStatusWindows::STATUS_DS_INVALID_GROUP_TYPE => Some(0xc00002d4),
            NtStatusWindows::STATUS_DS_NO_NEST_GLOBALGROUP_IN_MIXEDDOMAIN => Some(0xc00002d5),
            NtStatusWindows::STATUS_DS_NO_NEST_LOCALGROUP_IN_MIXEDDOMAIN => Some(0xc00002d6),
            NtStatusWindows::STATUS_DS_GLOBAL_CANT_HAVE_LOCAL_MEMBER => Some(0xc00002d7),
            NtStatusWindows::STATUS_DS_GLOBAL_CANT_HAVE_UNIVERSAL_MEMBER => Some(0xc00002d8),
            NtStatusWindows::STATUS_DS_UNIVERSAL_CANT_HAVE_LOCAL_MEMBER => Some(0xc00002d9),
            NtStatusWindows::STATUS_DS_GLOBAL_CANT_HAVE_CROSSDOMAIN_MEMBER => Some(0xc00002da),
            _ => None,
        }
    }

    /// One slice of the symbol table: the symbol this slice gives a
    /// raw value, where it holds one.
    pub open spec fn spec_from_u32_part15(raw: u32) -> Option<NtStatusWindows> {
        match raw {
            0xc00002a3 => Some(NtStatusWindows::STATUS_DS_ATTRIBUTE_TYPE_UNDEFINED),
            0xc00002a4 => Some(NtStatusWindows::STATUS_DS_ATTRIBUTE_OR_VALUE_EXISTS),
            0xc00002a5 => Some(NtStatusWindows::STATUS_DS_BUSY),
            0xc00002a6 => Some(NtStatusWindows::STATUS_DS_UNAVAILABLE),
            0xc00002a7 => Some(NtStatusWindows::STATUS_DS_NO_RIDS_ALLOCATED),
            0xc00002a8 => Some(NtStatusWindows::STATUS_DS_NO_MORE_RIDS),
            0xc00002a9 => Some(NtStatusWindows::STATUS_DS_INCORRECT_ROLE_OWNER),
            0xc00002aa => Some(NtStatusWindows::STATUS_DS_RIDMGR_INIT_ERROR),
            0xc00002ab => Some(NtStatusWindows::STATUS_DS_OBJ_CLASS_VIOLATION),
            0xc00002ac => Some(NtStatusWindows::STATUS_DS_CANT_ON_NON_LEAF),
            0xc00002ad => Some(NtStatusWindows::STATUS_DS_CANT_ON_RDN),
            0xc00002ae => Some(NtStatusWindows::STATUS_DS_CANT_MOD_OBJ_CLASS),
            0xc00002af => Some(NtStatusWindows::STATUS_DS_CROSS_DOM_MOVE_FAILED),
            0xc00002b0 => Some(NtStatusWindows::STATUS_DS_GC_NOT_AVAILABLE),
            0xc00002b1 => Some(NtStatusWindows::STATUS_DIRECTORY_SERVICE_REQUIRED),
            0xc00002b2 => Some(NtStatusWindows::STATUS_REPARSE_ATTRIBUTE_CONFLICT),
            0xc00002b3 => Some(NtStatusWindows::STATUS_CANT_ENABLE_DENY_ONLY),
            0xc00002b4 => Some(NtStatusWindows::STATUS_FLOAT_MULTIPLE_FAULTS),
            0xc00002b5 => Some(NtStatusWindows::STATUS_FLOAT_MULTIPLE_TRAPS),
            0xc00002b6 => Some(NtStatusWindows::STATUS_DEVICE_REMOVED),
            0xc00002b7 => Some(NtStatusWindows::STATUS_JOURNAL_DELETE_IN_PROGRESS),
            0xc00002b8 => Some(NtStatusWindows::STATUS_JOURNAL_NOT_ACTIVE),
            0xc00002b9 => Some(NtStatusWindows::STATUS_NOINTERFACE),
            0xc00002ba => Some(NtStatusWindows::STATUS_DS_RIDMGR_DISABLED),
            0xc00002c1 => Some(NtStatusWindows::STATUS_DS_ADMIN_LIMIT_EXCEEDED),
            0xc00002c2 => Some(NtStatusWindows::STATUS_DRIVER_FAILED_SLEEP),
            0xc00002c3 => Some(NtStatusWindows::STATUS_MUTUAL_AUTHENTICATION_FAILED),
            0xc00002c4 => Some(NtStatusWindows::STATUS_CORRUPT_SYSTEM_FILE),
            0xc00002c5 => Some(NtStatusWindows::STATUS_DATATYPE_MISALIGNMENT_ERROR),
            0xc00002c6 => Some(NtStatusWindows::STATUS_WMI_READ_ONLY),
            0xc00002c7 => Some(NtStatusWindows::STATUS_WMI_SET_FAILURE),
            0xc00002c8 => Some(NtStatusWindows::STATUS_COMMITMENT_MINIMUM),
            0xc00002c9 => Some(NtStatusWindows::STATUS_REG_NAT_CONSUMPTION),
            0xc00002ca => Some(NtStatusWindows::STATUS_TRANSPORT_FULL),
            0xc00002cb => Some(NtStatusWindows::STATUS_DS_SAM_INIT_FAILURE),
            0xc00002cc => Some(NtStatusWindows::STATUS_ONLY_IF_CONNECTED),
            0xc00002cd => Some(NtStatusWindows::STATUS_DS_SENSITIVE_GROUP_VIOLATION),
            0xc00002ce => Some(NtStatusWindows::STATUS_PNP_RESTART_ENUMERATION),
            0xc00002cf => Some(NtStatusWindows::STATUS_JOURNAL_ENTRY_DELETED),
            0xc00002d0 => Some(NtStatusWindows::STATUS_DS_CANT_MOD_PRIMARYGROUPID),
            0xc00002d1 => Some(NtStatusWindows::STATUS_SYSTEM_IMAGE_BAD_SIGNATURE),
            0xc00002d2 => Some(NtStatusWindows::STATUS_PNP_REBOOT_REQUIRED),
            0xc00002d3 => Some(NtStatusWindows::STATUS_POWER_STATE_INVALID),
            0xc00002d4 => Some(NtStatusWindows::STATUS_DS_INVALID_GROUP_TYPE),
            0xc00002d5 => Some(NtStatusWindows::STATUS_DS_NO_NEST_GLOBALGROUP_IN_MIXEDDOMAIN),
            0xc00002d6 => Some(NtStatusWindows::STATUS_DS_NO_NEST_LOCALGROUP_IN_MIXEDDOMAIN),
            0xc00002d7 => Some(NtStatusWindows::STATUS_DS_GLOBAL_CANT_HAVE_LOCAL_MEMBER),
            0xc00002d8 => Some(NtStatusWindows::STATUS_DS_GLOBAL_CANT_HAVE_UNIVERSAL_MEMBER),
            0xc00002d9 => Some(NtStatusWindows::STATUS_DS_UNIVERSAL_CANT_HAVE_LOCAL_MEMBER),
            0xc00002da => Some(NtStatusWindows::STATUS_DS_GLOBAL_CANT_HAVE_CROSSDOMAIN_MEMBER),
            _ => None,
        }
    }

    /// One slice of the symbol table.
    #[verifier::spinoff_prover]
    #[verifier::rlimit(100)]
    fn to_u32_part15(self) -> (r: Option<u32>)
        ensures
            r == self.spec_to_u32_part15(),
    {
        match self {
            NtStatusWindows::STATUS_DS_ATTRIBUTE_TYPE_UNDEFINED => Some(0xc00002a3),
            NtStatusWindows::STATUS_DS_ATTRIBUTE_OR_VALUE_EXISTS => Some(0xc00002a4),
            NtStatusWindows::STATUS_DS_BUSY => Some(0xc00002a5),
            NtStatusWindows::STATUS_DS_UNAVAILABLE => Some(0xc00002a6),
            NtStatusWindows::STATUS_DS_NO_RIDS_ALLOCATED => Some(0xc00002a7),
            NtStatusWindows::STATUS_DS_NO_MORE_RIDS => Some(0xc00002a8),
            NtStatusWindows::STATUS_DS_INCORRECT_ROLE_OWNER => Some(0xc00002a9),
            NtStatusWindows::STATUS_DS_RIDMGR_INIT_ERROR => Some(0xc00002aa),
            NtStatusWindows::STATUS_DS_OBJ_CLASS_VIOLATION => Some(0xc00002ab),
            NtStatusWindows::STATUS_DS_CANT_ON_NON_LEAF => Some(0xc00002ac),
            NtStatusWindows::STATUS_DS_CANT_ON_RDN => Some(0xc00002ad),
            NtStatusWindows::STATUS_DS_CANT_MOD_OBJ_CLASS => Some(0xc00002ae),
            NtStatusWindows::STATUS_DS_CROSS_DOM_MOVE_FAILED => Some(0xc00002af),
            NtStatusWindows::STATUS_DS_GC_NOT_AVAILABLE => Some(0xc00002b0),
            NtStatusWindows::STATUS_DIRECTORY_SERVICE_REQUIRED => Some(0xc00002b1),
            NtStatusWindows::STATUS_REPARSE_ATTRIBUTE_CONFLICT => Some(0xc00002b2),
            NtStatusWindows::STATUS_CANT_ENABLE_DENY_ONLY => Some(0xc00002b3),
            NtStatusWindows::STATUS_FLOAT_MULTIPLE_FAULTS => Some(0xc00002b4),
            NtStatusWindows::STATUS_FLOAT_MULTIPLE_TRAPS => Some(0xc00002b5),
            NtStatusWindows::STATUS_DEVICE_REMOVED => Some(0xc00002b6),
            NtStatusWindows::STATUS_JOURNAL_DELETE_IN_PROGRESS => Some(0xc00002b7),
            NtStatusWindows::STATUS_JOURNAL_NOT_ACTIVE => Some(0xc00002b8),
            NtStatusWindows::STATUS_NOINTERFACE => Some(0xc00002b9),
            NtStatusWindows::STATUS_DS_RIDMGR_DISABLED => Some(0xc00002ba),
            NtStatusWindows::STATUS_DS_ADMIN_LIMIT_EXCEEDED => Some(0xc00002c1),
            NtStatusWindows::STATUS_DRIVER_FAILED_SLEEP => Some(0xc00002c2),
            NtStatusWindows::STATUS_MUTUAL_AUTHENTICATION_FAILED => Some(0xc00002c3),
            NtStatusWindows::STATUS_CORRUPT_SYSTEM_FILE => Some(0xc00002c4),
            NtStatusWindows::STATUS_DATATYPE_MISALIGNMENT_ERROR => Some(0xc00002c5),
            NtStatusWindows::STATUS_WMI_READ_ONLY => Some(0xc00002c6),
            NtStatusWindows::STATUS_WMI_SET_FAILURE => Some(0xc00002c7),
            NtStatusWindows::STATUS_COMMITMENT_MINIMUM => Some(0xc00002c8),
            NtStatusWindows::STATUS_REG_NAT_CONSUMPTION => Some(0xc00002c9),
            NtStatusWindows::STATUS_TRANSPORT_FULL => Some(0xc00002ca),
            NtStatusWindows::STATUS_DS_SAM_INIT_FAILURE => Some(0xc00002cb),
            NtStatusWindows::STATUS_ONLY_IF_CONNECTED => Some(0xc00002cc),
            NtStatusWindows::STATUS_DS_SENSITIVE_GROUP_VIOLATION => Some(0xc00002cd),
            NtStatusWindows::STATUS_PNP_RESTART_ENUMERATION => Some(0xc00002ce),
            NtStatusWindows::STATUS_JOURNAL_ENTRY_DELETED => Some(0xc00002cf),
            NtStatusWindows::STATUS_DS_CANT_MOD_PRIMARYGROUPID => Some(0xc00002d0),
            NtStatusWindows::STATUS_SYSTEM_IMAGE_BAD_SIGNATURE => Some(0xc00002d1),
            NtStatusWindows::STATUS_PNP_REBOOT_REQUIRED => Some(0xc00002d2),
            NtStatusWindows::STATUS_POWER_STATE_INVALID => Some(0xc00002d3),
            NtStatusWindows::STATUS_DS_INVALID_GROUP_TYPE => Some(0xc00002d4),
            NtStatusWindows::STATUS_DS_NO_NEST_GLOBALGROUP_IN_MIXEDDOMAIN => Some(0xc00002d5),
            NtStatusWindows::STATUS_DS_NO_NEST_LOCALGROUP_IN_MIXEDDOMAIN => Some(0xc00002d6),
            NtStatusWindows::STATUS_DS_GLOBAL_CANT_HAVE_LOCAL_MEMBER => Some(0xc00002d7),
            NtStatusWindows::STATUS_DS_GLOBAL_CANT_HAVE_UNIVERSAL_MEMBER => Some(0xc00002d8),
            NtStatusWindows::STATUS_DS_UNIVERSAL_CANT_HAVE_LOCAL_MEMBER => Some(0xc00002d9),
            NtStatusWindows::STATUS_DS_GLOBAL_CANT_HAVE_CROSSDOMAIN_MEMBER => Some(0xc00002da),
            _ => None,
        }
    }

    /// One slice of the symbol table.
    #[verifier::spinoff_prover]
    #[verifier::rlimit(100)]
    fn from_u32_part15(raw: u32) -> (r: Option<NtStatusWindows>)
        ensures
            r == NtStatusWindows::spec_from_u32_part15(raw),
    {
        match raw {
            0xc00002a3 => Some(NtStatusWindows::STATUS_DS_ATTRIBUTE_TYPE_UNDEFINED),
            0xc00002a4 => Some(NtStatusWindows::STATUS_DS_ATTRIBUTE_OR_VALUE_EXISTS),
            0xc00002a5 => Some(NtStatusWindows::STATUS_DS_BUSY),
            0xc00002a6 => Some(NtStatusWindows::STATUS_DS_UNAVAILABLE),
            0xc00002a7 => Some(NtStatusWindows::STATUS_DS_NO_RIDS_ALLOCATED),
            0xc00002a8 => Some(NtStatusWindows::STATUS_DS_NO_MORE_RIDS),
            0xc00002a9 => Some(NtStatusWindows::STATUS_DS_INCORRECT_ROLE_OWNER),
            0xc00002aa => Some(NtStatusWindows::STATUS_DS_RIDMGR_INIT_ERROR),
            0xc00002ab => Some(NtStatusWindows::STATUS_DS_OBJ_CLASS_VIOLATION),
            0xc00002ac => Some(NtStatusWindows::STATUS_DS_CANT_ON_NON_LEAF),
            0xc00002ad => Some(NtStatusWindows::STATUS_DS_CANT_ON_RDN),
            0xc00002ae => Some(NtStatusWindows::STATUS_DS_CANT_MOD_OBJ_CLASS),
            0xc00002af => Some(NtStatusWindows::STATUS_DS_CROSS_DOM_MOVE_FAILED),
            0xc00002b0 => Some(NtStatusWindows::STATUS_DS_GC_NOT_AVAILABLE),
            0xc00002b1 => Some(NtStatusWindows::STATUS_DIRECTORY_SERVICE_REQUIRED),
            0xc00002b2 => Some(NtStatusWindows::STATUS_REPARSE_ATTRIBUTE_CONFLICT),
            0xc00002b3 => Some(NtStatusWindows::STATUS_CANT_ENABLE_DENY_ONLY),
            0xc00002b4 => Some(NtStatusWindows::STATUS_FLOAT_MULTIPLE_FAULTS),
            0xc00002b5 => Some(NtStatusWindows::STATUS_FLOAT_MULTIPLE_TRAPS),
            0xc00002b6 => Some(NtStatusWindows::STATUS_DEVICE_REMOVED),
            0xc00002b7 => Some(NtStatusWindows::STATUS_JOURNAL_DELETE_IN_PROGRESS),
            0xc00002b8 => Some(NtStatusWindows::STATUS_JOURNAL_NOT_ACTIVE),
            0xc00002b9 => Some(NtStatusWindows::STATUS_NOINTERFACE),
            0xc00002ba => Some(NtStatusWindows::STATUS_DS_RIDMGR_DISABLED),
            0xc00002c1 => Some(NtStatusWindows::STATUS_DS_ADMIN_LIMIT_EXCEEDED),
            0xc00002c2 => Some(NtStatusWindows::STATUS_DRIVER_FAILED_SLEEP),
            0xc00002c3 => Some(NtStatusWindows::STATUS_MUTUAL_AUTHENTICATION_FAILED),
            0xc00002c4 => Some(NtStatusWindows::STATUS_CORRUPT_SYSTEM_FILE),
            0xc00002c5 => Some(NtStatusWindows::STATUS_DATATYPE_MISALIGNMENT_ERROR),
            0xc00002c6 => Some(NtStatusWindows::STATUS_WMI_READ_ONLY),
            0xc00002c7 => Some(NtStatusWindows::STATUS_WMI_SET_FAILURE),
            0xc00002c8 => Some(NtStatusWindows::STATUS_COMMITMENT_MINIMUM),
            0xc00002c9 => Some(NtStatusWindows::STATUS_REG_NAT_CONSUMPTION),
            0xc00002ca => Some(NtStatusWindows::STATUS_TRANSPORT_FULL),
            0xc00002cb => Some(NtStatusWindows::STATUS_DS_SAM_INIT_FAILURE),
            0xc00002cc => Some(NtStatusWindows::STATUS_ONLY_IF_CONNECTED),
            0xc00002cd => Some(NtStatusWindows::STATUS_DS_SENSITIVE_GROUP_VIOLATION),
            0xc00002ce => Some(NtStatusWindows::STATUS_PNP_RESTART_ENUMERATION),
            0xc00002cf => Some(NtStatusWindows::STATUS_JOURNAL_ENTRY_DELETED),
            0xc00002d0 => Some(NtStatusWindows::STATUS_DS_CANT_MOD_PRIMARYGROUPID),
            0xc00002d1 => Some(NtStatusWindows::STATUS_SYSTEM_IMAGE_BAD_SIGNATURE),
            0xc00002d2 => Some(NtStatusWindows::STATUS_PNP_REBOOT_REQUIRED),
            0xc00002d3 => Some(NtStatusWindows::STATUS_POWER_STATE_INVALID),
            0xc00002d4 => Some(NtStatusWindows::STATUS_DS_INVALID_GROUP_TYPE),
            0xc00002d5 => Some(NtStatusWindows::STATUS_DS_NO_NEST_GLOBALGROUP_IN_MIXEDDOMAIN),
            0xc00002d6 => Some(NtStatusWindows::STATUS_DS_NO_NEST_LOCALGROUP_IN_MIXEDDOMAIN),
            0xc00002d7 => Some(NtStatusWindows::STATUS_DS_GLOBAL_CANT_HAVE_LOCAL_MEMBER),
            0xc00002d8 => Some(NtStatusWindows::STATUS_DS_GLOBAL_CANT_HAVE_UNIVERSAL_MEMBER),
            0xc00002d9 => Some(NtStatusWindows::STATUS_DS_UNIVERSAL_CANT_HAVE_LOCAL_MEMBER),
            0xc00002da => Some(NtStatusWindows::STATUS_DS_GLOBAL_CANT_HAVE_CROSSDOMAIN_MEMBER),
            _ => None,
        }
    }

    /// One slice of the symbol table: the raw value of this symbol,
    /// where this slice holds it.
    pub open spec fn spec_to_u32_part16(self) -> Option<u32> {
        match self {
            NtStatusWindows::STATUS_DS_LOCAL_CANT_HAVE_CROSSDOMAIN_LOCAL_MEMBER => Some(0xc00002db),
            NtStatusWindows::STATUS_DS_HAVE_PRIMARY_MEMBERS => Some(0xc00002dc),
            NtStatusWindows::STATUS_WMI_NOT_SUPPORTED => Some(0xc00002dd),
            NtStatusWindows::STATUS_INSUFFICIENT_POWER => Some(0xc00002de),
            NtStatusWindows::STATUS_SAM_NEED_BOOTKEY_PASSWORD => Some(0xc00002df),
            NtStatusWindows::STATUS_SAM_NEED_BOOTKEY_FLOPPY => Some(0xc00002e0),
            NtStatusWindows::STATUS_DS_CANT_START => Some(0xc00002e1),
            NtStatusWindows::STATUS_DS_INIT_FAILURE => Some(0xc00002e2),
            NtStatusWindows::STATUS_SAM_INIT_FAILURE => Some(0xc00002e3),
            NtStatusWindows::STATUS_DS_GC_REQUIRED => Some(0xc00002e4),
            NtStatusWindows::STATUS_DS_LOCAL_MEMBER_OF_LOCAL_ONLY => Some(0xc00002e5),
            NtStatusWindows::STATUS_DS_NO_FPO_IN_UNIVERSAL_GROUPS => Some(0xc00002e6),
            NtStatusWindows::STATUS_DS_MACHINE_ACCOUNT_QUOTA_EXCEEDED => Some(0xc00002e7),
            NtStatusWindows::STATUS_MULTIPLE_FAULT_VIOLATION => Some(0xc00002e8),
            NtStatusWindows::STATUS_CURRENT_DOMAIN_NOT_ALLOWED => Some(0xc00002e9),
            NtStatusWindows::STATUS_CANNOT_MAKE => Some(0xc00002ea),
            NtStatusWindows::STATUS_SYSTEM_SHUTDOWN => Some(0xc00002eb),
            NtStatusWindows::STATUS_DS_INIT_FAILURE_CONSOLE => Some(0xc00002ec),
            NtStatusWindows::STATUS_DS_SAM_INIT_FAILURE_CONSOLE => Some(0xc00002ed),
            NtStatusWindows::STATUS_UNFINISHED_CONTEXT_DELETED => Some(0xc00002ee),
            NtStatusWindows::STATUS_NO_TGT_REPLY => Some(0xc00002ef),
            NtStatusWindows::STATUS_OBJECTID_NOT_FOUND => Some(0xc00002f0),
            NtStatusWindows::STATUS_NO_IP_ADDRESSES => Some(0xc00002f1),
            NtStatusWindows::STATUS_WRONG_CREDENTIAL_HANDLE => Some(0xc00002f2),
            NtStatusWindows::STATUS_CRYPTO_SYSTEM_INVALID => Some(0xc00002f3),
            NtStatusWindows::STATUS_MAX_REFERRALS_EXCEEDED => Some(0xc00002f4),
            NtStatusWindows::STATUS_MUST_BE_KDC => Some(0xc00002f5),
            NtStatusWindows::STATUS_STRONG_CRYPTO_NOT_SUPPORTED => Some(0xc00002f6),
            NtStatusWindows::STATUS_TOO_MANY_PRINCIPALS => Some(0xc00002f7),
            NtStatusWindows::STATUS_NO_PA_DATA => Some(0xc00002f8),
            NtStatusWindows::STATUS_PKINIT_NAME_MISMATCH => Some(0xc00002f9),
            NtStatusWindows::STATUS_SMARTCARD_LOGON_REQUIRED => Some(0xc00002fa),
            NtStatusWindows::STATUS_KDC_INVALID_REQUEST => Some(0xc00002fb),
            NtStatusWindows::STATUS_KDC_UNABLE_TO_REFER => Some(0xc00002fc),
            NtStatusWindows::STATUS_KDC_UNKNOWN_ETYPE => Some(0xc00002fd),
            NtStatusWindows::STATUS_SHUTDOWN_IN_PROGRESS => Some(0xc00002fe),
            NtStatusWindows::STATUS_SERVER_SHUTDOWN_IN_PROGRESS => Some(0xc00002ff),
            NtStatusWindows::STATUS_NOT_SUPPORTED_ON_SBS => Some(0xc0000300),
            NtStatusWindows::STATUS_WMI_GUID_DISCONNECTED => Some(0xc0000301),
            NtStatusWindows::STATUS_WMI_ALREADY_DISABLED => Some(0xc0000302),
            NtStatusWindows::STATUS_WMI_ALREADY_ENABLED => Some(0xc0000303),
            NtStatusWindows::STATUS_MFT_TOO_FRAGMENTED => Some(0xc0000304),
            NtStatusWindows::STATUS_COPY_PROTECTION_FAILURE => Some(0xc0000305),
            NtStatusWindows::STATUS_CSS_AUTHENTICATION_FAILURE => Some(0xc0000306),
            NtStatusWindows::STATUS_CSS_KEY_NOT_PRESENT => Some(0xc0000307),
            NtStatusWindows::STATUS_CSS_KEY_NOT_ESTABLISHED => Some(0xc0000308),
            NtStatusWindows::STATUS_CSS_SCRAMBLED_SECTOR => Some(0xc0000309),
            NtStatusWindows::STATUS_CSS_REGION_MISMATCH => Some(0xc000030a),
            NtStatusWindows::STATUS_CSS_RESETS_EXHAUSTED => Some(0xc000030b),
            NtStatusWindows::STATUS_PASSWORD_CHANGE_REQUIRED => Some(0xc000030c),
            _ => None,
        }
    }

    /// One slice of the symbol table: the symbol this slice gives a
    /// raw value, where it holds one.
    pub open spec fn spec_from_u32_part16(raw: u32) -> Option<NtStatusWindows> {
        match raw {
            0xc00002db => Some(NtStatusWindows::STATUS_DS_LOCAL_CANT_HAVE_CROSSDOMAIN_LOCAL_MEMBER),
            0xc00002dc => Some(NtStatusWindows::STATUS_DS_HAVE_PRIMARY_MEMBERS),
            0xc00002dd => Some(NtStatusWindows::STATUS_WMI_NOT_SUPPORTED),
            0xc00002de => Some(NtStatusWindows::STATUS_INSUFFICIENT_POWER),
            0xc00002df => Some(NtStatusWindows::STATUS_SAM_NEED_BOOTKEY_PASSWORD),
            0xc00002e0 => Some(NtStatusWindows::STATUS_SAM_NEED_BOOTKEY_FLOPPY),
            0xc00002e1 => Some(NtStatusWindows::STATUS_DS_CANT_START),
            0xc00002e2 => Some(NtStatusWindows::STATUS_DS_INIT_FAILURE),
            0xc00002e3 => Some(NtStatusWindows::STATUS_SAM_INIT_FAILURE),
            0xc00002e4 => Some(NtStatusWindows::STATUS_DS_GC_REQUIRED),
            0xc00002e5 => Some(NtStatusWindows::STATUS_DS_LOCAL_MEMBER_OF_LOCAL_ONLY),
            0xc00002e6 => Some(NtStatusWindows::STATUS_DS_NO_FPO_IN_UNIVERSAL_GROUPS),
            0xc00002e7 => Some(NtStatusWindows::STATUS_DS_MACHINE_ACCOUNT_QUOTA_EXCEEDED),
            0xc00002e8 => Some(NtStatusWindows::STATUS_MULTIPLE_FAULT_VIOLATION),
            0xc00002e9 => Some(NtStatusWindows::STATUS_CURRENT_DOMAIN_NOT_ALLOWED),
            0xc00002ea => Some(NtStatusWindows::STATUS_CANNOT_MAKE),
            0xc00002eb => Some(NtStatusWindows::STATUS_SYSTEM_SHUTDOWN),
            0xc00002ec => Some(NtStatusWindows::STATUS_DS_INIT_FAILURE_CONSOLE),
            0xc00002ed => Some(NtStatusWindows::STATUS_DS_SAM_INIT_FAILURE_CONSOLE),
            0xc00002ee => Some(NtStatusWindows::STATUS_UNFINISHED_CONTEXT_DELETED),
            0xc00002ef => Some(NtStatusWindows::STATUS_NO_TGT_REPLY),
            0xc00002f0 => Some(NtStatusWindows::STATUS_OBJECTID_NOT_FOUND),
            0xc00002f1 => Some(NtStatusWindows::STATUS_NO_IP_ADDRESSES),
            0xc00002f2 => Some(NtStatusWindows::STATUS_WRONG_CREDENTIAL_HANDLE),
            0xc00002f3 => Some(NtStatusWindows::STATUS_CRYPTO_SYSTEM_INVALID),
            0xc00002f4 => Some(NtStatusWindows::STATUS_MAX_REFERRALS_EXCEEDED),
            0xc00002f5 => Some(NtStatusWindows::STATUS_MUST_BE_KDC),
            0xc00002f6 => Some(NtStatusWindows::STATUS_STRONG_CRYPTO_NOT_SUPPORTED),
            0xc00002f7 => Some(NtStatusWindows::STATUS_TOO_MANY_PRINCIPALS),
            0xc00002f8 => Some(NtStatusWindows::STATUS_NO_PA_DATA),
            0xc00002f9 => Some(NtStatusWindows::STATUS_PKINIT_NAME_MISMATCH),
            0xc00002fa => Some(NtStatusWindows::STATUS_SMARTCARD_LOGON_REQUIRED),
            0xc00002fb => Some(NtStatusWindows::STATUS_KDC_INVALID_REQUEST),
            0xc00002fc => Some(NtStatusWindows::STATUS_KDC_UNABLE_TO_REFER),
            0xc00002fd => Some(NtStatusWindows::STATUS_KDC_UNKNOWN_ETYPE),
            0xc00002fe => Some(NtStatusWindows::STATUS_SHUTDOWN_IN_PROGRESS),
            0xc00002ff => Some(NtStatusWindows::STATUS_SERVER_SHUTDOWN_IN_PROGRESS),
            0xc0000300 => Some(NtStatusWindows::STATUS_NOT_SUPPORTED_ON_SBS),
            0xc0000301 => Some(NtStatusWindows::STATUS_WMI_GUID_DISCONNECTED),
            0xc0000302 => Some(NtStatusWindows::STATUS_WMI_ALREADY_DISABLED),
            0xc0000303 => Some(NtStatusWindows::STATUS_WMI_ALREADY_ENABLED),
            0xc0000304 => Some(NtStatusWindows::STATUS_MFT_TOO_FRAGMENTED),
            0xc0000305 => Some(NtStatusWindows::STATUS_COPY_PROTECTION_FAILURE),
            0xc0000306 => Some(NtStatusWindows::STATUS_CSS_AUTHENTICATION_FAILURE),
            0xc0000307 => Some(NtStatusWindows::STATUS_CSS_KEY_NOT_PRESENT),
            0xc0000308 => Some(NtStatusWindows::STATUS_CSS_KEY_NOT_ESTABLISHED),
            0xc0000309 => Some(NtStatusWindows::STATUS_CSS_SCRAMBLED_SECTOR),
            0xc000030a => Some(NtStatusWindows::STATUS_CSS_REGION_MISMATCH),
            0xc000030b => Some(NtStatusWindows::STATUS_CSS_RESETS_EXHAUSTED),
            0xc000030c => Some(NtStatusWindows::STATUS_PASSWORD_CHANGE_REQUIRED),
            _ => None,
        }
    }

    /// One slice of the symbol table.
    #[verifier::spinoff_prover]
    #[verifier::rlimit(100)]
    fn to_u32_part16(self) -> (r: Option<u32>)
        ensures
            r == self.spec_to_u32_part16(),
    {
        match self {
            NtStatusWindows::STATUS_DS_LOCAL_CANT_HAVE_CROSSDOMAIN_LOCAL_MEMBER => Some(0xc00002db),
            NtStatusWindows::STATUS_DS_HAVE_PRIMARY_MEMBERS => Some(0xc00002dc),
            NtStatusWindows::STATUS_WMI_NOT_SUPPORTED => Some(0xc00002dd),
            NtStatusWindows::STATUS_INSUFFICIENT_POWER => Some(0xc00002de),
            NtStatusWindows::STATUS_SAM_NEED_BOOTKEY_PASSWORD => Some(0xc00002df),
            NtStatusWindows::STATUS_SAM_NEED_BOOTKEY_FLOPPY => Some(0xc00002e0),
            NtStatusWindows::STATUS_DS_CANT_START => Some(0xc00002e1),
            NtStatusWindows::STATUS_DS_INIT_FAILURE => Some(0xc00002e2),
            NtStatusWindows::STATUS_SAM_INIT_FAILURE => Some(0xc00002e3),
            NtStatusWindows::STATUS_DS_GC_REQUIRED => Some(0xc00002e4),
            NtStatusWindows::STATUS_DS_LOCAL_MEMBER_OF_LOCAL_ONLY => Some(0xc00002e5),
            NtStatusWindows::STATUS_DS_NO_FPO_IN_UNIVERSAL_GROUPS => Some(0xc00002e6),
            NtStatusWindows::STATUS_DS_MACHINE_ACCOUNT_QUOTA_EXCEEDED => Some(0xc00002e7),
            NtStatusWindows::STATUS_MULTIPLE_FAULT_VIOLATION => Some(0xc00002e8),
            NtStatusWindows::STATUS_CURRENT_DOMAIN_NOT_ALLOWED => Some(0xc00002e9),
            NtStatusWindows::STATUS_CANNOT_MAKE => Some(0xc00002ea),
            NtStatusWindows::STATUS_SYSTEM_SHUTDOWN => Some(0xc00002eb),
            NtStatusWindows::STATUS_DS_INIT_FAILURE_CONSOLE => Some(0xc00002ec),
            NtStatusWindows::STATUS_DS_SAM_INIT_FAILURE_CONSOLE => Some(0xc00002ed),
            NtStatusWindows::STATUS_UNFINISHED_CONTEXT_DELETED => Some(0xc00002ee),
            NtStatusWindows::STATUS_NO_TGT_REPLY => Some(0xc00002ef),
            NtStatusWindows::STATUS_OBJECTID_NOT_FOUND => Some(0xc00002f0),
            NtStatusWindows::STATUS_NO_IP_ADDRESSES => Some(0xc00002f1),
            NtStatusWindows::STATUS_WRONG_CREDENTIAL_HANDLE => Some(0xc00002f2),
            NtStatusWindows::STATUS_CRYPTO_SYSTEM_INVALID => Some(0xc00002f3),
            NtStatusWindows::STATUS_MAX_REFERRALS_EXCEEDED => Some(0xc00002f4),
            NtStatusWindows::STATUS_MUST_BE_KDC => Some(0xc00002f5),
            NtStatusWindows::STATUS_STRONG_CRYPTO_NOT_SUPPORTED => Some(0xc00002f6),
            NtStatusWindows::STATUS_TOO_MANY_PRINCIPALS => Some(0xc00002f7),
            NtStatusWindows::STATUS_NO_PA_DATA => Some(0xc00002f8),
            NtStatusWindows::STATUS_PKINIT_NAME_MISMATCH => Some(0xc00002f9),
            NtStatusWindows::STATUS_SMARTCARD_LOGON_REQUIRED => Some(0xc00002fa),
            NtStatusWindows::STATUS_KDC_INVALID_REQUEST => Some(0xc00002fb),
            NtStatusWindows::STATUS_KDC_UNABLE_TO_REFER => Some(0xc00002fc),
            NtStatusWindows::STATUS_KDC_UNKNOWN_ETYPE => Some(0xc00002fd),
            NtStatusWindows::STATUS_SHUTDOWN_IN_PROGRESS => Some(0xc00002fe),
            NtStatusWindows::STATUS_SERVER_SHUTDOWN_IN_PROGRESS => Some(0xc00002ff),
            NtStatusWindows::STATUS_NOT_SUPPORTED_ON_SBS => Some(0xc0000300),
            NtStatusWindows::STATUS_WMI_GUID_DISCONNECTED => Some(0xc0000301),
            NtStatusWindows::STATUS_WMI_ALREADY_DISABLED => Some(0xc0000302),
            NtStatusWindows::STATUS_WMI_ALREADY_ENABLED => Some(0xc0000303),
            NtStatusWindows::STATUS_MFT_TOO_FRAGMENTED => Some(0xc0000304),
            NtStatusWindows::STATUS_COPY_PROTECTION_FAILURE => Some(0xc0000305),
            NtStatusWindows::STATUS_CSS_AUTHENTICATION_FAILURE => Some(0xc0000306),
            NtStatusWindows::STATUS_CSS_KEY_NOT_PRESENT => Some(0xc0000307),
            NtStatusWindows::STATUS_CSS_KEY_NOT_ESTABLISHED => Some(0xc0000308),
            NtStatusWindows::STATUS_CSS_SCRAMBLED_SECTOR => Some(0xc0000309),
            NtStatusWindows::STATUS_CSS_REGION_MISMATCH => Some(0xc000030a),
            NtStatusWindows::STATUS_CSS_RESETS_EXHAUSTED => Some(0xc000030b),
            NtStatusWindows::STATUS_PASSWORD_CHANGE_REQUIRED => Some(0xc000030c),
            _ => None,
        }
    }

    /// One slice of the symbol table.
    #[verifier::spinoff_prover]
    #[verifier::rlimit(100)]
    fn from_u32_part16(raw: u32) -> (r: Option<NtStatusWindows>)
        ensures
            r == NtStatusWindows::spec_from_u32_part16(raw),
    {
        match raw {
            0xc00002db => Some(NtStatusWindows::STATUS_DS_LOCAL_CANT_HAVE_CROSSDOMAIN_LOCAL_MEMBER),
            0xc00002dc => Some(NtStatusWindows::STATUS_DS_HAVE_PRIMARY_MEMBERS),
            0xc00002dd => Some(NtStatusWindows::STATUS_WMI_NOT_SUPPORTED),
            0xc00002de => Some(NtStatusWindows::STATUS_INSUFFICIENT_POWER),
            0xc00002df => Some(NtStatusWindows::STATUS_SAM_NEED_BOOTKEY_PASSWORD),
            0xc00002e0 => Some(NtStatusWindows::STATUS_SAM_NEED_BOOTKEY_FLOPPY),
            0xc00002e1 => Some(NtStatusWindows::STATUS_DS_CANT_START),
            0xc00002e2 => Some(NtStatusWindows::STATUS_DS_INIT_FAILURE),
            0xc00002e3 => Some(NtStatusWindows::STATUS_SAM_INIT_FAILURE),
            0xc00002e4 => Some(NtStatusWindows::STATUS_DS_GC_REQUIRED),
            0xc00002e5 => Some(NtStatusWindows::STATUS_DS_LOCAL_MEMBER_OF_LOCAL_ONLY),
            0xc00002e6 => Some(NtStatusWindows::STATUS_DS_NO_FPO_IN_UNIVERSAL_GROUPS),
            0xc00002e7 => Some(NtStatusWindows::STATUS_DS_MACHINE_ACCOUNT_QUOTA_EXCEEDED),
            0xc00002e8 => Some(NtStatusWindows::STATUS_MULTIPLE_FAULT_VIOLATION),
            0xc00002e9 => Some(NtStatusWindows::STATUS_CURRENT_DOMAIN_NOT_ALLOWED),
            0xc00002ea => Some(NtStatusWindows::STATUS_CANNOT_MAKE),
            0xc00002eb => Some(NtStatusWindows::STATUS_SYSTEM_SHUTDOWN),
            0xc00002ec => Some(NtStatusWindows::STATUS_DS_INIT_FAILURE_CONSOLE),
            0xc00002ed => Some(NtStatusWindows::STATUS_DS_SAM_INIT_FAILURE_CONSOLE),
            0xc00002ee => Some(NtStatusWindows::STATUS_UNFINISHED_CONTEXT_DELETED),
            0xc00002ef => Some(NtStatusWindows::STATUS_NO_TGT_REPLY),
            0xc00002f0 => Some(NtStatusWindows::STATUS_OBJECTID_NOT_FOUND),
            0xc00002f1 => Some(NtStatusWindows::STATUS_NO_IP_ADDRESSES),
            0xc00002f2 => Some(NtStatusWindows::STATUS_WRONG_CREDENTIAL_HANDLE),
            0xc00002f3 => Some(NtStatusWindows::STATUS_CRYPTO_SYSTEM_INVALID),
            0xc00002f4 => Some(NtStatusWindows::STATUS_MAX_REFERRALS_EXCEEDED),
            0xc00002f5 => Some(NtStatusWindows::STATUS_MUST_BE_KDC),
            0xc00002f6 => Some(NtStatusWindows::STATUS_STRONG_CRYPTO_NOT_SUPPORTED),
            0xc00002f7 => Some(NtStatusWindows::STATUS_TOO_MANY_PRINCIPALS),
            0xc00002f8 => Some(NtStatusWindows::STATUS_NO_PA_DATA),
            0xc00002f9 => Some(NtStatusWindows::STATUS_PKINIT_NAME_MISMATCH),
            0xc00002fa => Some(NtStatusWindows::STATUS_SMARTCARD_LOGON_REQUIRED),
            0xc00002fb => Some(NtStatusWindows::STATUS_KDC_INVALID_REQUEST),
            0xc00002fc => Some(NtStatusWindows::STATUS_KDC_UNABLE_TO_REFER),
            0xc00002fd => Some(NtStatusWindows::STATUS_KDC_UNKNOWN_ETYPE),
            0xc00002fe => Some(NtStatusWindows::STATUS_SHUTDOWN_IN_PROGRESS),
            0xc00002ff => Some(NtStatusWindows::STATUS_SERVER_SHUTDOWN_IN_PROGRESS),
            0xc0000300 => Some(NtStatusWindows::STATUS_NOT_SUPPORTED_ON_SBS),
            0xc0000301 => Some(NtStatusWindows::STATUS_WMI_GUID_DISCONNECTED),
            0xc0000302 => Some(NtStatusWindows::STATUS_WMI_ALREADY_DISABLED),
            0xc0000303 => Some(NtStatusWindows::STATUS_WMI_ALREADY_ENABLED),
            0xc0000304 => Some(NtStatusWindows::STATUS_MFT_TOO_FRAGMENTED),
            0xc0000305 => Some(NtStatusWindows::STATUS_COPY_PROTECTION_FAILURE),
            0xc0000306 => Some(NtStatusWindows::STATUS_CSS_AUTHENTICATION_FAILURE),
            0xc0000307 => Some(NtStatusWindows::STATUS_CSS_KEY_NOT_PRESENT),
            0xc0000308 => Some(NtStatusWindows::STATUS_CSS_KEY_NOT_ESTABLISHED),
            0xc0000309 => Some(NtStatusWindows::STATUS_CSS_SCRAMBLED_SECTOR),
            0xc000030a => Some(NtStatusWindows::STATUS_CSS_REGION_MISMATCH),
            0xc000030b => Some(NtStatusWindows::STATUS_CSS_RESETS_EXHAUSTED),
            0xc000030c => Some(NtStatusWindows::STATUS_PASSWORD_CHANGE_REQUIRED),
            _ => None,
        }
    }

    /// One slice of the symbol table: the raw value of this symbol,
    /// where this slice holds it.
    pub open spec fn spec_to_u32_part17(self) -> Option<u32> {
        match self {
            NtStatusWindows::STATUS_LOST_MODE_LOGON_RESTRICTION => Some(0xc000030d),
            NtStatusWindows::STATUS_PKINIT_FAILURE => Some(0xc0000320),
            NtStatusWindows::STATUS_SMARTCARD_SUBSYSTEM_FAILURE => Some(0xc0000321),
            NtStatusWindows::STATUS_NO_KERB_KEY => Some(0xc0000322),
            NtStatusWindows::STATUS_HOST_DOWN => Some(0xc0000350),
            NtStatusWindows::STATUS_UNSUPPORTED_PREAUTH => Some(0xc0000351),
            NtStatusWindows::STATUS_EFS_ALG_BLOB_TOO_BIG => Some(0xc0000352),
            NtStatusWindows::STATUS_PORT_NOT_SET => Some(0xc0000353),
            NtStatusWindows::STATUS_DEBUGGER_INACTIVE => Some(0xc0000354),
            NtStatusWindows::STATUS_DS_VERSION_CHECK_FAILURE => Some(0xc0000355),
            NtStatusWindows::STATUS_AUDITING_DISABLED => Some(0xc0000356),
            NtStatusWindows::STATUS_PRENT4_MACHINE_ACCOUNT => Some(0xc0000357),
            NtStatusWindows::STATUS_DS_AG_CANT_HAVE_UNIVERSAL_MEMBER => Some(0xc0000358),
            NtStatusWindows::STATUS_INVALID_IMAGE_WIN_32 => Some(0xc0000359),
            NtStatusWindows::STATUS_INVALID_IMAGE_WIN_64 => Some(0xc000035a),
            NtStatusWindows::STATUS_BAD_BINDINGS => Some(0xc000035b),
            NtStatusWindows::STATUS_NETWORK_SESSION_EXPIRED => Some(0xc000035c),
            NtStatusWindows::STATUS_APPHELP_BLOCK => Some(0xc000035d),
            NtStatusWindows::STATUS_ALL_SIDS_FILTERED => Some(0xc000035e),
            NtStatusWindows::STATUS_NOT_SAFE_MODE_DRIVER => Some(0xc000035f),
            NtStatusWindows::STATUS_ACCESS_DISABLED_BY_POLICY_DEFAULT => Some(0xc0000361),
            NtStatusWindows::STATUS_ACCESS_DISABLED_BY_POLICY_PATH => Some(0xc0000362),
            NtStatusWindows::STATUS_ACCESS_DISABLED_BY_POLICY_PUBLISHER => Some(0xc0000363),
            NtStatusWindows::STATUS_ACCESS_DISABLED_BY_POLICY_OTHER => Some(0xc0000364),
            NtStatusWindows::STATUS_FAILED_DRIVER_ENTRY => Some(0xc0000365),
            NtStatusWindows::STATUS_DEVICE_ENUMERATION_ERROR => Some(0xc0000366),
            NtStatusWindows::STATUS_MOUNT_POINT_NOT_RESOLVED => Some(0xc0000368),
            NtStatusWindows::STATUS_INVALID_DEVICE_OBJECT_PARAMETER => Some(0xc0000369),
            NtStatusWindows::STATUS_MCA_OCCURED => Some(0xc000036a),
            NtStatusWindows::STATUS_DRIVER_BLOCKED_CRITICAL => Some(0xc000036b),
            NtStatusWindows::STATUS_DRIVER_BLOCKED => Some(0xc000036c),
            NtStatusWindows::STATUS_DRIVER_DATABASE_ERROR => Some(0xc000036d),
            NtStatusWindows::STATUS_SYSTEM_HIVE_TOO_LARGE => Some(0xc000036e),
            NtStatusWindows::STATUS_INVALID_IMPORT_OF_NON_DLL => Some(0xc000036f),
            NtStatusWindows::STATUS_NO_SECRETS => Some(0xc0000371),
            NtStatusWindows::STATUS_ACCESS_DISABLED_NO_SAFER_UI_BY_POLICY => Some(0xc0000372),
            NtStatusWindows::STATUS_FAILED_STACK_SWITCH => Some(0xc0000373),
            NtStatusWindows::STATUS_HEAP_CORRUPTION => Some(0xc0000374),
            NtStatusWindows::STATUS_SMARTCARD_WRONG_PIN => Some(0xc0000380),
            NtStatusWindows::STATUS_SMARTCARD_CARD_BLOCKED => Some(0xc0000381),
            NtStatusWindows::STATUS_SMARTCARD_CARD_NOT_AUTHENTICATED => Some(0xc0000382),
            NtStatusWindows::STATUS_SMARTCARD_NO_CARD => Some(0xc0000383),
            NtStatusWindows::STATUS_SMARTCARD_NO_KEY_CONTAINER => Some(0xc0000384),
            NtStatusWindows::STATUS_SMARTCARD_NO_CERTIFICATE => Some(0xc0000385),
            NtStatusWindows::STATUS_SMARTCARD_NO_KEYSET => Some(0xc0000386),
            NtStatusWindows::STATUS_SMARTCARD_IO_ERROR => Some(0xc0000387),
            NtStatusWindows::STATUS_DOWNGRADE_DETECTED => Some(0xc0000388),
            NtStatusWindows::STATUS_SMARTCARD_CERT_REVOKED => Some(0xc0000389),
            NtStatusWindows::STATUS_ISSUING_CA_UNTRUSTED => Some(0xc000038a),
            NtStatusWindows::STATUS_REVOCATION_OFFLINE_C => Some(0xc000038b),
            _ => None,
        }
    }

    /// One slice of the symbol table: the symbol this slice gives a
    /// raw value, where it holds one.
    pub open spec fn spec_from_u32_part17(raw: u32) -> Option<NtStatusWindows> {
        match raw {
            0xc000030d => Some(NtStatusWindows::STATUS_LOST_MODE_LOGON_RESTRICTION),
            0xc0000320 => Some(NtStatusWindows::STATUS_PKINIT_FAILURE),
            0xc0000321 => Some(NtStatusWindows::STATUS_SMARTCARD_SUBSYSTEM_FAILURE),
            0xc0000322 => Some(NtStatusWindows::STATUS_NO_KERB_KEY),
            0xc0000350 => Some(NtStatusWindows::STATUS_HOST_DOWN),
            0xc0000351 => Some(NtStatusWindows::STATUS_UNSUPPORTED_PREAUTH),
            0xc0000352 => Some(NtStatusWindows::STATUS_EFS_ALG_BLOB_TOO_BIG),
            0xc0000353 => Some(NtStatusWindows::STATUS_PORT_NOT_SET),
            0xc0000354 => Some(NtStatusWindows::STATUS_DEBUGGER_INACTIVE),
            0xc0000355 => Some(NtStatusWindows::STATUS_DS_VERSION_CHECK_FAILURE),
            0xc0000356 => Some(NtStatusWindows::STATUS_AUDITING_DISABLED),
            0xc0000357 => Some(NtStatusWindows::STATUS_PRENT4_MACHINE_ACCOUNT),
            0xc0000358 => Some(NtStatusWindows::STATUS_DS_AG_CANT_HAVE_UNIVERSAL_MEMBER),
            0xc0000359 => Some(NtStatusWindows::STATUS_INVALID_IMAGE_WIN_32),
            0xc000035a => Some(NtStatusWindows::STATUS_INVALID_IMAGE_WIN_64),
            0xc000035b => Some(NtStatusWindows::STATUS_BAD_BINDINGS),
            0xc000035c => Some(NtStatusWindows::STATUS_NETWORK_SESSION_EXPIRED),
            0xc000035d => Some(NtStatusWindows::STATUS_APPHELP_BLOCK),
            0xc000035e => Some(NtStatusWindows::STATUS_ALL_SIDS_FILTERED),
            0xc000035f => Some(NtStatusWindows::STATUS_NOT_SAFE_MODE_DRIVER),
            0xc0000361 => Some(NtStatusWindows::STATUS_ACCESS_DISABLED_BY_POLICY_DEFAULT),
            0xc0000362 => Some(NtStatusWindows::STATUS_ACCESS_DISABLED_BY_POLICY_PATH),
            0xc0000363 => Some(NtStatusWindows::STATUS_ACCESS_DISABLED_BY_POLICY_PUBLISHER),
            0xc0000364 => Some(NtStatusWindows::STATUS_ACCESS_DISABLED_BY_POLICY_OTHER),
            0xc0000365 => Some(NtStatusWindows::STATUS_FAILED_DRIVER_ENTRY),
            0xc0000366 => Some(NtStatusWindows::STATUS_DEVICE_ENUMERATION_ERROR),
            0xc0000368 => Some(NtStatusWindows::STATUS_MOUNT_POINT_NOT_RESOLVED),
            0xc0000369 => Some(NtStatusWindows::STATUS_INVALID_DEVICE_OBJECT_PARAMETER),
            0xc000036a => Some(NtStatusWindows::STATUS_MCA_OCCURED),
            0xc000036b => Some(NtStatusWindows::STATUS_DRIVER_BLOCKED_CRITICAL),
            0xc000036c => Some(NtStatusWindows::STATUS_DRIVER_BLOCKED),
            0xc000036d => Some(NtStatusWindows::STATUS_DRIVER_DATABASE_ERROR),
            0xc000036e => Some(NtStatusWindows::STATUS_SYSTEM_HIVE_TOO_LARGE),
            0xc000036f => Some(NtStatusWindows::STATUS_INVALID_IMPORT_OF_NON_DLL),
            0xc0000371 => Some(NtStatusWindows::STATUS_NO_SECRETS),
            0xc0000372 => Some(NtStatusWindows::STATUS_ACCESS_DISABLED_NO_SAFER_UI_BY_POLICY),
            0xc0000373 => Some(NtStatusWindows::STATUS_FAILED_STACK_SWITCH),
            0xc0000374 => Some(NtStatusWindows::STATUS_HEAP_CORRUPTION),
            0xc0000380 => Some(NtStatusWindows::STATUS_SMARTCARD_WRONG_PIN),
            0xc0000381 => Some(NtStatusWindows::STATUS_SMARTCARD_CARD_BLOCKED),
            0xc0000382 => Some(NtStatusWindows::STATUS_SMARTCARD_CARD_NOT_AUTHENTICATED),
            0xc0000383 => Some(NtStatusWindows::STATUS_SMARTCARD_NO_CARD),
            0xc0000384 => Some(NtStatusWindows::STATUS_SMARTCARD_NO_KEY_CONTAINER),
            0xc0000385 => Some(NtStatusWindows::STATUS_SMARTCARD_NO_CERTIFICATE),
            0xc0000386 => Some(NtStatusWindows::STATUS_SMARTCARD_NO_KEYSET),
            0xc0000387 => Some(NtStatusWindows::STATUS_SMARTCARD_IO_ERROR),
            0xc0000388 => Some(NtStatusWindows::STATUS_DOWNGRADE_DETECTED),
            0xc0000389 => Some(NtStatusWindows::STATUS_SMARTCARD_CERT_REVOKED),
            0xc000038a => Some(NtStatusWindows::STATUS_ISSUING_CA_UNTRUSTED),
            0xc000038b => Some(NtStatusWindows::STATUS_REVOCATION_OFFLINE_C),
            _ => None,
        }
    }

    /// One slice of the symbol table.
    #[verifier::spinoff_prover]
    #[verifier::rlimit(100)]
    fn to_u32_part17(self) -> (r: Option<u32>)
        ensures
            r == self.spec_to_u32_part17(),
    {
        match self {
            NtStatusWindows::STATUS_LOST_MODE_LOGON_RESTRICTION => Some(0xc000030d),
            NtStatusWindows::STATUS_PKINIT_FAILURE => Some(0xc0000320),
            NtStatusWindows::STATUS_SMARTCARD_SUBSYSTEM_FAILURE => Some(0xc0000321),
            NtStatusWindows::STATUS_NO_KERB_KEY => Some(0xc0000322),
            NtStatusWindows::STATUS_HOST_DOWN => Some(0xc0000350),
            NtStatusWindows::STATUS_UNSUPPORTED_PREAUTH => Some(0xc0000351),
            NtStatusWindows::STATUS_EFS_ALG_BLOB_TOO_BIG => Some(0xc0000352),
            NtStatusWindows::STATUS_PORT_NOT_SET => Some(0xc0000353),
            NtStatusWindows::STATUS_DEBUGGER_INACTIVE => Some(0xc0000354),
            NtStatusWindows::STATUS_DS_VERSION_CHECK_FAILURE => Some(0xc0000355),
            NtStatusWindows::STATUS_AUDITING_DISABLED => Some(0xc0000356),
            NtStatusWindows::STATUS_PRENT4_MACHINE_ACCOUNT => Some(0xc0000357),
            NtStatusWindows::STATUS_DS_AG_CANT_HAVE_UNIVERSAL_MEMBER => Some(0xc0000358),
            NtStatusWindows::STATUS_INVALID_IMAGE_WIN_32 => Some(0xc0000359),
            NtStatusWindows::STATUS_INVALID_IMAGE_WIN_64 => Some(0xc000035a),
            NtStatusWindows::STATUS_BAD_BINDINGS => Some(0xc000035b),
            NtStatusWindows::STATUS_NETWORK_SESSION_EXPIRED => Some(0xc000035c),
            NtStatusWindows::STATUS_APPHELP_BLOCK => Some(0xc000035d),
            NtStatusWindows::STATUS_ALL_SIDS_FILTERED => Some(0xc000035e),
            NtStatusWindows::STATUS_NOT_SAFE_MODE_DRIVER => Some(0xc000035f),
            NtStatusWindows::STATUS_ACCESS_DISABLED_BY_POLICY_DEFAULT => Some(0xc0000361),
            NtStatusWindows::STATUS_ACCESS_DISABLED_BY_POLICY_PATH => Some(0xc0000362),
            NtStatusWindows::STATUS_ACCESS_DISABLED_BY_POLICY_PUBLISHER => Some(0xc0000363),
            NtStatusWindows::STATUS_ACCESS_DISABLED_BY_POLICY_OTHER => Some(0xc0000364),
            NtStatusWindows::STATUS_FAILED_DRIVER_ENTRY => Some(0xc0000365),
            NtStatusWindows::STATUS_DEVICE_ENUMERATION_ERROR => Some(0xc0000366),
            NtStatusWindows::STATUS_MOUNT_POINT_NOT_RESOLVED => Some(0xc0000368),
            NtStatusWindows::STATUS_INVALID_DEVICE_OBJECT_PARAMETER => Some(0xc0000369),
            NtStatusWindows::STATUS_MCA_OCCURED => Some(0xc000036a),
            NtStatusWindows::STATUS_DRIVER_BLOCKED_CRITICAL => Some(0xc000036b),
            NtStatusWindows::STATUS_DRIVER_BLOCKED => Some(0xc000036c),
            NtStatusWindows::STATUS_DRIVER_DATABASE_ERROR => Some(0xc000036d),
            NtStatusWindows::STATUS_SYSTEM_HIVE_TOO_LARGE => Some(0xc000036e),
            NtStatusWindows::STATUS_INVALID_IMPORT_OF_NON_DLL => Some(0xc000036f),
            NtStatusWindows::STATUS_NO_SECRETS => Some(0xc0000371),
            NtStatusWindows::STATUS_ACCESS_DISABLED_NO_SAFER_UI_BY_POLICY => Some(0xc0000372),
            NtStatusWindows::STATUS_FAILED_STACK_SWITCH => Some(0xc0000373),
            NtStatusWindows::STATUS_HEAP_CORRUPTION => Some(0xc0000374),
            NtStatusWindows::STATUS_SMARTCARD_WRONG_PIN => Some(0xc0000380),
            NtStatusWindows::STATUS_SMARTCARD_CARD_BLOCKED => Some(0xc0000381),
            NtStatusWindows::STATUS_SMARTCARD_CARD_NOT_AUTHENTICATED => Some(0xc0000382),
            NtStatusWindows::STATUS_SMARTCARD_NO_CARD => Some(0xc0000383),
            NtStatusWindows::STATUS_SMARTCARD_NO_KEY_CONTAINER => Some(0xc0000384),
            NtStatusWindows::STATUS_SMARTCARD_NO_CERTIFICATE => Some(0xc0000385),
            NtStatusWindows::STATUS_SMARTCARD_NO_KEYSET => Some(0xc0000386),
            NtStatusWindows::STATUS_SMARTCARD_IO_ERROR => Some(0xc0000387),
            NtStatusWindows::STATUS_DOWNGRADE_DETECTED => Some(0xc0000388),
            NtStatusWindows::STATUS_SMARTCARD_CERT_REVOKED => Some(0xc0000389),
            NtStatusWindows::STATUS_ISSUING_CA_UNTRUSTED => Some(0xc000038a),
            NtStatusWindows::STATUS_REVOCATION_OFFLINE_C => Some(0xc000038b),
            _ => None,
        }
    }

    /// One slice of the symbol table.
    #[verifier::spinoff_prover]
    #[verifier::rlimit(100)]
    fn from_u32_part17(raw: u32) -> (r: Option<NtStatusWindows>)
        ensures
            r == NtStatusWindows::spec_from_u32_part17(raw),
    {
        match raw {
            0xc000030d => Some(NtStatusWindows::STATUS_LOST_MODE_LOGON_RESTRICTION),
            0xc0000320 => Some(NtStatusWindows::STATUS_PKINIT_FAILURE),
            0xc0000321 => Some(NtStatusWindows::STATUS_SMARTCARD_SUBSYSTEM_FAILURE),
            0xc0000322 => Some(NtStatusWindows::STATUS_NO_KERB_KEY),
            0xc0000350 => Some(NtStatusWindows::STATUS_HOST_DOWN),
            0xc0000351 => Some(NtStatusWindows::STATUS_UNSUPPORTED_PREAUTH),
            0xc0000352 => Some(NtStatusWindows::STATUS_EFS_ALG_BLOB_TOO_BIG),
            0xc0000353 => Some(NtStatusWindows::STATUS_PORT_NOT_SET),
            0xc0000354 => Some(NtStatusWindows::STATUS_DEBUGGER_INACTIVE),
            0xc0000355 => Some(NtStatusWindows::STATUS_DS_VERSION_CHECK_FAILURE),
            0xc0000356 => Some(NtStatusWindows::STATUS_AUDITING_DISABLED),
            0xc0000357 => Some(NtStatusWindows::STATUS_PRENT4_MACHINE_ACCOUNT),
            0xc0000358 => Some(NtStatusWindows::STATUS_DS_AG_CANT_HAVE_UNIVERSAL_MEMBER),
            0xc0000359 => Some(NtStatusWindows::STATUS_INVALID_IMAGE_WIN_32),
            0xc000035a => Some(NtStatusWindows::STATUS_INVALID_IMAGE_WIN_64),
            0xc000035b => Some(NtStatusWindows::STATUS_BAD_BINDINGS),
            0xc000035c => Some(NtStatusWindows::STATUS_NETWORK_SESSION_EXPIRED),
            0xc000035d => Some(NtStatusWindows::STATUS_APPHELP_BLOCK),
            0xc000035e => Some(NtStatusWindows::STATUS_ALL_SIDS_FILTERED),
            0xc000035f => Some(NtStatusWindows::STATUS_NOT_SAFE_MODE_DRIVER),
            0xc0000361 => Some(NtStatusWindows::STATUS_ACCESS_DISABLED_BY_POLICY_DEFAULT),
            0xc0000362 => Some(NtStatusWindows::STATUS_ACCESS_DISABLED_BY_POLICY_PATH),
            0xc0000363 => Some(NtStatusWindows::STATUS_ACCESS_DISABLED_BY_POLICY_PUBLISHER),
            0xc0000364 => Some(NtStatusWindows::STATUS_ACCESS_DISABLED_BY_POLICY_OTHER),
            0xc0000365 => Some(NtStatusWindows::STATUS_FAILED_DRIVER_ENTRY),
            0xc0000366 => Some(NtStatusWindows::STATUS_DEVICE_ENUMERATION_ERROR),
            0xc0000368 => Some(NtStatusWindows::STATUS_MOUNT_POINT_NOT_RESOLVED),
            0xc0000369 => Some(NtStatusWindows::STATUS_INVALID_DEVICE_OBJECT_PARAMETER),
            0xc000036a => Some(NtStatusWindows::STATUS_MCA_OCCURED),
            0xc000036b => Some(NtStatusWindows::STATUS_DRIVER_BLOCKED_CRITICAL),
            0xc000036c => Some(NtStatusWindows::STATUS_DRIVER_BLOCKED),
            0xc000036d => Some(NtStatusWindows::STATUS_DRIVER_DATABASE_ERROR),
            0xc000036e => Some(NtStatusWindows::STATUS_SYSTEM_HIVE_TOO_LARGE),
            0xc000036f => Some(NtStatusWindows::STATUS_INVALID_IMPORT_OF_NON_DLL),
            0xc0000371 => Some(NtStatusWindows::STATUS_NO_SECRETS),
            0xc0000372 => Some(NtStatusWindows::STATUS_ACCESS_DISABLED_NO_SAFER_UI_BY_POLICY),
            0xc0000373 => Some(NtStatusWindows::STATUS_FAILED_STACK_SWITCH),
            0xc0000374 => Some(NtStatusWindows::STATUS_HEAP_CORRUPTION),
            0xc0000380 => Some(NtStatusWindows::STATUS_SMARTCARD_WRONG_PIN),
            0xc0000381 => Some(NtStatusWindows::STATUS_SMARTCARD_CARD_BLOCKED),
            0xc0000382 => Some(NtStatusWindows::STATUS_SMARTCARD_CARD_NOT_AUTHENTICATED),
            0xc0000383 => Some(NtStatusWindows::STATUS_SMARTCARD_NO_CARD),
            0xc0000384 => Some(NtStatusWindows::STATUS_SMARTCARD_NO_KEY_CONTAINER),
            0xc0000385 => Some(NtStatusWindows::STATUS_SMARTCARD_NO_CERTIFICATE),
            0xc0000386 => Some(NtStatusWindows::STATUS_SMARTCARD_NO_KEYSET),
            0xc0000387 => Some(NtStatusWindows::STATUS_SMARTCARD_IO_ERROR),
            0xc0000388 => Some(NtStatusWindows::STATUS_DOWNGRADE_DETECTED),
            0xc0000389 => Some(NtStatusWindows::STATUS_SMARTCARD_CERT_REVOKED),
            0xc000038a => Some(NtStatusWindows::STATUS_ISSUING_CA_UNTRUSTED),
            0xc000038b => Some(NtStatusWindows::STATUS_REVOCATION_OFFLINE_C),
            _ => None,
        }
    }

    /// One slice of the symbol table: the raw value of this symbol,
    /// where this slice holds it.
    pub open spec fn spec_to_u32_part18(self) -> Option<u32> {
        match self {
            NtStatusWindows::STATUS_PKINIT_CLIENT_FAILURE => Some(0xc000038c),
            NtStatusWindows::STATUS_SMARTCARD_CERT_EXPIRED => Some(0xc000038d),
            NtStatusWindows::STATUS_DRIVER_FAILED_PRIOR_UNLOAD => Some(0xc000038e),
            NtStatusWindows::STATUS_SMARTCARD_SILENT_CONTEXT => Some(0xc000038f),
            NtStatusWindows::STATUS_PER_USER_TRUST_QUOTA_EXCEEDED => Some(0xc0000401),
            NtStatusWindows::STATUS_ALL_USER_TRUST_QUOTA_EXCEEDED => Some(0xc0000402),
            NtStatusWindows::STATUS_USER_DELETE_TRUST_QUOTA_EXCEEDED => Some(0xc0000403),
            NtStatusWindows::STATUS_DS_NAME_NOT_UNIQUE => Some(0xc0000404),
            NtStatusWindows::STATUS_DS_DUPLICATE_ID_FOUND => Some(0xc0000405),
            NtStatusWindows::STATUS_DS_GROUP_CONVERSION_ERROR => Some(0xc0000406),
            NtStatusWindows::STATUS_VOLSNAP_PREPARE_HIBERNATE => Some(0xc0000407),
            NtStatusWindows::STATUS_USER2USER_REQUIRED => Some(0xc0000408),
            NtStatusWindows::STATUS_STACK_BUFFER_OVERRUN => Some(0xc0000409),
            NtStatusWindows::STATUS_NO_S4U_PROT_SUPPORT => Some(0xc000040a),
            NtStatusWindows::STATUS_CROSSREALM_DELEGATION_FAILURE => Some(0xc000040b),
            NtStatusWindows::STATUS_REVOCATION_OFFLINE_KDC => Some(0xc000040c),
            NtStatusWindows::STATUS_ISSUING_CA_UNTRUSTED_KDC => Some(0xc000040d),
            NtStatusWindows::STATUS_KDC_CERT_EXPIRED => Some(0xc000040e),
            NtStatusWindows::STATUS_KDC_CERT_REVOKED => Some(0xc000040f),
            NtStatusWindows::STATUS_PARAMETER_QUOTA_EXCEEDED => Some(0xc0000410),
            NtStatusWindows::STATUS_HIBERNATION_FAILURE => Some(0xc0000411),
            NtStatusWindows::STATUS_DELAY_LOAD_FAILED => Some(0xc0000412),
            NtStatusWindows::STATUS_AUTHENTICATION_FIREWALL_FAILED => Some(0xc0000413),
            NtStatusWindows::STATUS_VDM_DISALLOWED => Some(0xc0000414),
            NtStatusWindows::STATUS_HUNG_DISPLAY_DRIVER_THREAD => Some(0xc0000415),
            NtStatusWindows::STATUS_INSUFFICIENT_RESOURCE_FOR_SPECIFIED_SHARED_SECTION_SIZE => Some(0xc0000416),
            NtStatusWindows::STATUS_INVALID_CRUNTIME_PARAMETER => Some(0xc0000417),
            NtStatusWindows::STATUS_NTLM_BLOCKED => Some(0xc0000418),
            NtStatusWindows::STATUS_DS_SRC_SID_EXISTS_IN_FOREST => Some(0xc0000419),
            NtStatusWindows::STATUS_DS_DOMAIN_NAME_EXISTS_IN_FOREST => Some(0xc000041a),
            NtStatusWindows::STATUS_DS_FLAT_NAME_EXISTS_IN_FOREST => Some(0xc000041b),
            NtStatusWindows::STATUS_INVALID_USER_PRINCIPAL_NAME => Some(0xc000041c),
            NtStatusWindows::STATUS_FATAL_USER_CALLBACK_EXCEPTION => Some(0xc000041d),
            NtStatusWindows::STATUS_ASSERTION_FAILURE => Some(0xc0000420),
            NtStatusWindows::STATUS_VERIFIER_STOP => Some(0xc0000421),
            NtStatusWindows::STATUS_CALLBACK_POP_STACK => Some(0xc0000423),
            NtStatusWindows::STATUS_INCOMPATIBLE_DRIVER_BLOCKED => Some(0xc0000424),
            NtStatusWindows::STATUS_HIVE_UNLOADED => Some(0xc0000425),
            NtStatusWindows::STATUS_COMPRESSION_DISABLED => Some(0xc0000426),
            NtStatusWindows::STATUS_FILE_SYSTEM_LIMITATION => Some(0xc0000427),
            NtStatusWindows::STATUS_INVALID_IMAGE_HASH => Some(0xc0000428),
            NtStatusWindows::STATUS_NOT_CAPABLE => Some(0xc0000429),
            NtStatusWindows::STATUS_REQUEST_OUT_OF_SEQUENCE => Some(0xc000042a),
            NtStatusWindows::STATUS_IMPLEMENTATION_LIMIT => Some(0xc000042b),
            NtStatusWindows::STATUS_ELEVATION_REQUIRED => Some(0xc000042c),
            NtStatusWindows::STATUS_NO_SECURITY_CONTEXT => Some(0xc000042d),
            NtStatusWindows::STATUS_PKU2U_CERT_FAILURE => Some(0xc000042f),
            NtStatusWindows::STATUS_BEYOND_VDL => Some(0xc0000432),
            NtStatusWindows::STATUS_ENCOUNTERED_WRITE_IN_PROGRESS => Some(0xc0000433),
            NtStatusWindows::STATUS_PTE_CHANGED => Some(0xc0000434),
            _ => None,
        }
    }

    /// One slice of the symbol table: the symbol this slice gives a
    /// raw value, where it holds one.
    pub open spec fn spec_from_u32_part18(raw: u32) -> Option<NtStatusWindows> {
        match raw {
            0xc000038c => Some(NtStatusWindows::STATUS_PKINIT_CLIENT_FAILURE),
            0xc000038d => Some(NtStatusWindows::STATUS_SMARTCARD_CERT_EXPIRED),
            0xc000038e => Some(NtStatusWindows::STATUS_DRIVER_FAILED_PRIOR_UNLOAD),
            0xc000038f => Some(NtStatusWindows::STATUS_SMARTCARD_SILENT_CONTEXT),
            0xc0000401 => Some(NtStatusWindows::STATUS_PER_USER_TRUST_QUOTA_EXCEEDED),
            0xc0000402 => Some(NtStatusWindows::STATUS_ALL_USER_TRUST_QUOTA_EXCEEDED),
            0xc0000403 => Some(NtStatusWindows::STATUS_USER_DELETE_TRUST_QUOTA_EXCEEDED),
            0xc0000404 => Some(NtStatusWindows::STATUS_DS_NAME_NOT_UNIQUE),
            0xc0000405 => Some(NtStatusWindows::STATUS_DS_DUPLICATE_ID_FOUND),
            0xc0000406 => Some(NtStatusWindows::STATUS_DS_GROUP_CONVERSION_ERROR),
            0xc0000407 => Some(NtStatusWindows::STATUS_VOLSNAP_PREPARE_HIBERNATE),
            0xc0000408 => Some(NtStatusWindows::STATUS_USER2USER_REQUIRED),
            0xc0000409 => Some(NtStatusWindows::STATUS_STACK_BUFFER_OVERRUN),
            0xc000040a => Some(NtStatusWindows::STATUS_NO_S4U_PROT_SUPPORT),
            0xc000040b => Some(NtStatusWindows::STATUS_CROSSREALM_DELEGATION_FAILURE),
            0xc000040c => Some(NtStatusWindows::STATUS_REVOCATION_OFFLINE_KDC),
            0xc000040d => Some(NtStatusWindows::STATUS_ISSUING_CA_UNTRUSTED_KDC),
            0xc000040e => Some(NtStatusWindows::STATUS_KDC_CERT_EXPIRED),
            0xc000040f => Some(NtStatusWindows::STATUS_KDC_CERT_REVOKED),
            0xc0000410 => Some(NtStatusWindows::STATUS_PARAMETER_QUOTA_EXCEEDED),
            0xc0000411 => Some(NtStatusWindows::STATUS_HIBERNATION_FAILURE),
            0xc0000412 => Some(NtStatusWindows::STATUS_DELAY_LOAD_FAILED),
            0xc0000413 => Some(NtStatusWindows::STATUS_AUTHENTICATION_FIREWALL_FAILED),
            0xc0000414 => Some(NtStatusWindows::STATUS_VDM_DISALLOWED),
            0xc0000415 => Some(NtStatusWindows::STATUS_HUNG_DISPLAY_DRIVER_THREAD),
            0xc0000416 => Some(NtStatusWindows::STATUS_INSUFFICIENT_RESOURCE_FOR_SPECIFIED_SHARED_SECTION_SIZE),
            0xc0000417 => Some(NtStatusWindows::STATUS_INVALID_CRUNTIME_PARAMETER),
            0xc0000418 => Some(NtStatusWindows::STATUS_NTLM_BLOCKED),
            0xc0000419 => Some(NtStatusWindows::STATUS_DS_SRC_SID_EXISTS_IN_FOREST),
            0xc000041a => Some(NtStatusWindows::STATUS_DS_DOMAIN_NAME_EXISTS_IN_FOREST),
            0xc000041b => Some(NtStatusWindows::STATUS_DS_FLAT_NAME_EXISTS_IN_FOREST),
            0xc000041c => Some(NtStatusWindows::STATUS_INVALID_USER_PRINCIPAL_NAME),
            0xc000041d => Some(NtStatusWindows::STATUS_FATAL_USER_CALLBACK_EXCEPTION),
            0xc0000420 => Some(NtStatusWindows::STATUS_ASSERTION_FAILURE),
            0xc0000421 => Some(NtStatusWindows::STATUS_VERIFIER_STOP),
            0xc0000423 => Some(NtStatusWindows::STATUS_CALLBACK_POP_STACK),
            0xc0000424 => Some(NtStatusWindows::STATUS_INCOMPATIBLE_DRIVER_BLOCKED),
            0xc0000425 => Some(NtStatusWindows::STATUS_HIVE_UNLOADED),
            0xc0000426 => Some(NtStatusWindows::STATUS_COMPRESSION_DISABLED),
            0xc0000427 => Some(NtStatusWindows::STATUS_FILE_SYSTEM_LIMITATION),
            0xc0000428 => Some(NtStatusWindows::STATUS_INVALID_IMAGE_HASH),
            0xc0000429 => Some(NtStatusWindows::STATUS_NOT_CAPABLE),
            0xc000042a => Some(NtStatusWindows::STATUS_REQUEST_OUT_OF_SEQUENCE),
            0xc000042b => Some(NtStatusWindows::STATUS_IMPLEMENTATION_LIMIT),
            0xc000042c => Some(NtStatusWindows::STATUS_ELEVATION_REQUIRED),
            0xc000042d => Some(NtStatusWindows::STATUS_NO_SECURITY_CONTEXT),
            0xc000042f => Some(NtStatusWindows::STATUS_PKU2U_CERT_FAILURE),
            0xc0000432 => Some(NtStatusWindows::STATUS_BEYOND_VDL),
            0xc0000433 => Some(NtStatusWindows::STATUS_ENCOUNTERED_WRITE_IN_PROGRESS),
            0xc0000434 => Some(NtStatusWindows::STATUS_PTE_CHANGED),
            _ => None,
        }
    }

    /// One slice of the symbol table.
    #[verifier::spinoff_prover]
    #[verifier::rlimit(100)]
    fn to_u32_part18(self) -> (r: Option<u32>)
        ensures
            r == self.spec_to_u32_part18(),
    {
        match self {
            NtStatusWindows::STATUS_PKINIT_CLIENT_FAILURE => Some(0xc000038c),
            NtStatusWindows::STATUS_SMARTCARD_CERT_EXPIRED => Some(0xc000038d),
            NtStatusWindows::STATUS_DRIVER_FAILED_PRIOR_UNLOAD => Some(0xc000038e),
            NtStatusWindows::STATUS_SMARTCARD_SILENT_CONTEXT => Some(0xc000038f),
            NtStatusWindows::STATUS_PER_USER_TRUST_QUOTA_EXCEEDED => Some(0xc0000401),
            NtStatusWindows::STATUS_ALL_USER_TRUST_QUOTA_EXCEEDED => Some(0xc0000402),
            NtStatusWindows::STATUS_USER_DELETE_TRUST_QUOTA_EXCEEDED => Some(0xc0000403),
            NtStatusWindows::STATUS_DS_NAME_NOT_UNIQUE => Some(0xc0000404),
            NtStatusWindows::STATUS_DS_DUPLICATE_ID_FOUND => Some(0xc0000405),
            NtStatusWindows::STATUS_DS_GROUP_CONVERSION_ERROR => Some(0xc0000406),
            NtStatusWindows::STATUS_VOLSNAP_PREPARE_HIBERNATE => Some(0xc0000407),
            NtStatusWindows::STATUS_USER2USER_REQUIRED => Some(0xc0000408),
            NtStatusWindows::STATUS_STACK_BUFFER_OVERRUN => Some(0xc0000409),
            NtStatusWindows::STATUS_NO_S4U_PROT_SUPPORT => Some(0xc000040a),
            NtStatusWindows::STATUS_CROSSREALM_DELEGATION_FAILURE => Some(0xc000040b),
            NtStatusWindows::STATUS_REVOCATION_OFFLINE_KDC => Some(0xc000040c),
            NtStatusWindows::STATUS_ISSUING_CA_UNTRUSTED_KDC => Some(0xc000040d),
            NtStatusWindows::STATUS_KDC_CERT_EXPIRED => Some(0xc000040e),
            NtStatusWindows::STATUS_KDC_CERT_REVOKED => Some(0xc000040f),
            NtStatusWindows::STATUS_PARAMETER_QUOTA_EXCEEDED => Some(0xc0000410),
            NtStatusWindows::STATUS_HIBERNATION_FAILURE => Some(0xc0000411),
            NtStatusWindows::STATUS_DELAY_LOAD_FAILED => Some(0xc0000412),
            NtStatusWindows::STATUS_AUTHENTICATION_FIREWALL_FAILED => Some(0xc0000413),
            NtStatusWindows::STATUS_VDM_DISALLOWED => Some(0xc0000414),
            NtStatusWindows::STATUS_HUNG_DISPLAY_DRIVER_THREAD => Some(0xc0000415),
            NtStatusWindows::STATUS_INSUFFICIENT_RESOURCE_FOR_SPECIFIED_SHARED_SECTION_SIZE => Some(0xc0000416),
            NtStatusWindows::STATUS_INVALID_CRUNTIME_PARAMETER => Some(0xc0000417),
            NtStatusWindows::STATUS_NTLM_BLOCKED => Some(0xc0000418),
            NtStatusWindows::STATUS_DS_SRC_SID_EXISTS_IN_FOREST => Some(0xc0000419),
            NtStatusWindows::STATUS_DS_DOMAIN_NAME_EXISTS_IN_FOREST => Some(0xc000041a),
            NtStatusWindows::STATUS_DS_FLAT_NAME_EXISTS_IN_FOREST => Some(0xc000041b),
            NtStatusWindows::STATUS_INVALID_USER_PRINCIPAL_NAME => Some(0xc000041c),
            NtStatusWindows::STATUS_FATAL_USER_CALLBACK_EXCEPTION => Some(0xc000041d),
            NtStatusWindows::STATUS_ASSERTION_FAILURE => Some(0xc0000420),
            NtStatusWindows::STATUS_VERIFIER_STOP => Some(0xc0000421),
            NtStatusWindows::STATUS_CALLBACK_POP_STACK => Some(0xc0000423),
            NtStatusWindows::STATUS_INCOMPATIBLE_DRIVER_BLOCKED => Some(0xc0000424),
            NtStatusWindows::STATUS_HIVE_UNLOADED => Some(0xc0000425),
            NtStatusWindows::STATUS_COMPRESSION_DISABLED => Some(0xc0000426),
            NtStatusWindows::STATUS_FILE_SYSTEM_LIMITATION => Some(0xc0000427),
            NtStatusWindows::STATUS_INVALID_IMAGE_HASH => Some(0xc0000428),
            NtStatusWindows::STATUS_NOT_CAPABLE => Some(0xc0000429),
            NtStatusWindows::STATUS_REQUEST_OUT_OF_SEQUENCE => Some(0xc000042a),
            NtStatusWindows::STATUS_IMPLEMENTATION_LIMIT => Some(0xc000042b),
            NtStatusWindows::STATUS_ELEVATION_REQUIRED => Some(0xc000042c),
            NtStatusWindows::STATUS_NO_SECURITY_CONTEXT => Some(0xc000042d),
            NtStatusWindows::STATUS_PKU2U_CERT_FAILURE => Some(0xc000042f),
            NtStatusWindows::STATUS_BEYOND_VDL => Some(0xc0000432),
            NtStatusWindows::STATUS_ENCOUNTERED_WRITE_IN_PROGRESS => Some(0xc0000433),
            NtStatusWindows::STATUS_PTE_CHANGED => Some(0xc0000434),
            _ => None,
        }
    }

    /// One slice of the symbol table.
    #[verifier::spinoff_prover]
    #[verifier::rlimit(100)]
    fn from_u32_part18(raw: u32) -> (r: Option<NtStatusWindows>)
        ensures
            r == NtStatusWindows::spec_from_u32_part18(raw),
    {
        match raw {
            0xc000038c => Some(NtStatusWindows::STATUS_PKINIT_CLIENT_FAILURE),
            0xc000038d => Some(NtStatusWindows::STATUS_SMARTCARD_CERT_EXPIRED),
            0xc000038e => Some(NtStatusWindows::STATUS_DRIVER_FAILED_PRIOR_UNLOAD),
            0xc000038f => Some(NtStatusWindows::STATUS_SMARTCARD_SILENT_CONTEXT),
            0xc0000401 => Some(NtStatusWindows::STATUS_PER_USER_TRUST_QUOTA_EXCEEDED),
            0xc0000402 => Some(NtStatusWindows::STATUS_ALL_USER_TRUST_QUOTA_EXCEEDED),
            0xc0000403 => Some(NtStatusWindows::STATUS_USER_DELETE_TRUST_QUOTA_EXCEEDED),
            0xc0000404 => Some(NtStatusWindows::STATUS_DS_NAME_NOT_UNIQUE),
            0xc0000405 => Some(NtStatusWindows::STATUS_DS_DUPLICATE_ID_FOUND),
            0xc0000406 => Some(NtStatusWindows::STATUS_DS_GROUP_CONVERSION_ERROR),
            0xc0000407 => Some(NtStatusWindows::STATUS_VOLSNAP_PREPARE_HIBERNATE),
            0xc0000408 => Some(NtStatusWindows::STATUS_USER2USER_REQUIRED),
            0xc0000409 => Some(NtStatusWindows::STATUS_STACK_BUFFER_OVERRUN),
            0xc000040a => Some(NtStatusWindows::STATUS_NO_S4U_PROT_SUPPORT),
            0xc000040b => Some(NtStatusWindows::STATUS_CROSSREALM_DELEGATION_FAILURE),
            0xc000040c => Some(NtStatusWindows::STATUS_REVOCATION_OFFLINE_KDC),
            0xc000040d => Some(NtStatusWindows::STATUS_ISSUING_CA_UNTRUSTED_KDC),
            0xc000040e => Some(NtStatusWindows::STATUS_KDC_CERT_EXPIRED),
            0xc000040f => Some(NtStatusWindows::STATUS_KDC_CERT_REVOKED),
            0xc0000410 => Some(NtStatusWindows::STATUS_PARAMETER_QUOTA_EXCEEDED),
            0xc0000411 => Some(NtStatusWindows::STATUS_HIBERNATION_FAILURE),
            0xc0000412 => Some(NtStatusWindows::STATUS_DELAY_LOAD_FAILED),
            0xc0000413 => Some(NtStatusWindows::STATUS_AUTHENTICATION_FIREWALL_FAILED),
            0xc0000414 => Some(NtStatusWindows::STATUS_VDM_DISALLOWED),
            0xc0000415 => Some(NtStatusWindows::STATUS_HUNG_DISPLAY_DRIVER_THREAD),
            0xc0000416 => Some(NtStatusWindows::STATUS_INSUFFICIENT_RESOURCE_FOR_SPECIFIED_SHARED_SECTION_SIZE),
            0xc0000417 => Some(NtStatusWindows::STATUS_INVALID_CRUNTIME_PARAMETER),
            0xc0000418 => Some(NtStatusWindows::STATUS_NTLM_BLOCKED),
            0xc0000419 => Some(NtStatusWindows::STATUS_DS_SRC_SID_EXISTS_IN_FOREST),
            0xc000041a => Some(NtStatusWindows::STATUS_DS_DOMAIN_NAME_EXISTS_IN_FOREST),
            0xc000041b => Some(NtStatusWindows::STATUS_DS_FLAT_NAME_EXISTS_IN_FOREST),
            0xc000041c => Some(NtStatusWindows::STATUS_INVALID_USER_PRINCIPAL_NAME),
            0xc000041d => Some(NtStatusWindows::STATUS_FATAL_USER_CALLBACK_EXCEPTION),
            0xc0000420 => Some(NtStatusWindows::STATUS_ASSERTION_FAILURE),
            0xc0000421 => Some(NtStatusWindows::STATUS_VERIFIER_STOP),
            0xc0000423 => Some(NtStatusWindows::STATUS_CALLBACK_POP_STACK),
            0xc0000424 => Some(NtStatusWindows::STATUS_INCOMPATIBLE_DRIVER_BLOCKED),
            0xc0000425 => Some(NtStatusWindows::STATUS_HIVE_UNLOADED),
            0xc0000426 => Some(NtStatusWindows::STATUS_COMPRESSION_DISABLED),
            0xc0000427 => Some(NtStatusWindows::STATUS_FILE_SYSTEM_LIMITATION),
            0xc0000428 => Some(NtStatusWindows::STATUS_INVALID_IMAGE_HASH),
            0xc0000429 => Some(NtStatusWindows::STATUS_NOT_CAPABLE),
            0xc000042a => Some(NtStatusWindows::STATUS_REQUEST_OUT_OF_SEQUENCE),
            0xc000042b => Some(NtStatusWindows::STATUS_IMPLEMENTATION_LIMIT),
            0xc000042c => Some(NtStatusWindows::STATUS_ELEVATION_REQUIRED),
            0xc000042d => Some(NtStatusWindows::STATUS_NO_SECURITY_CONTEXT),
            0xc000042f => Some(NtStatusWindows::STATUS_PKU2U_CERT_FAILURE),
            0xc0000432 => Some(NtStatusWindows::STATUS_BEYOND_VDL),
            0xc0000433 => Some(NtStatusWindows::STATUS_ENCOUNTERED_WRITE_IN_PROGRESS),
            0xc0000434 => Some(NtStatusWindows::STATUS_PTE_CHANGED),
            _ => None,
        }
    }

    /// One slice of the symbol table: the raw value of this symbol,
    /// where this slice holds it.
    pub open spec fn spec_to_u32_part19(self) -> Option<u32> {
        match self {
            NtStatusWindows::STATUS_PURGE_FAILED => Some(0xc0000435),
            NtStatusWindows::STATUS_CRED_REQUIRES_CONFIRMATION => Some(0xc0000440),
            NtStatusWindows::STATUS_CS_ENCRYPTION_INVALID_SERVER_RESPONSE => Some(0xc0000441),
            NtStatusWindows::STATUS_CS_ENCRYPTION_UNSUPPORTED_SERVER => Some(0xc0000442),
            NtStatusWindows::STATUS_CS_ENCRYPTION_EXISTING_ENCRYPTED_FILE => Some(0xc0000443),
            NtStatusWindows::STATUS_CS_ENCRYPTION_NEW_ENCRYPTED_FILE => Some(0xc0000444),
            NtStatusWindows::STATUS_CS_ENCRYPTION_FILE_NOT_CSE => Some(0xc0000445),
            NtStatusWindows::STATUS_INVALID_LABEL => Some(0xc0000446),
            NtStatusWindows::STATUS_DRIVER_PROCESS_TERMINATED => Some(0xc0000450),
            NtStatusWindows::STATUS_AMBIGUOUS_SYSTEM_DEVICE => Some(0xc0000451),
            NtStatusWindows::STATUS_SYSTEM_DEVICE_NOT_FOUND => Some(0xc0000452),
            NtStatusWindows::STATUS_RESTART_BOOT_APPLICATION => Some(0xc0000453),
            NtStatusWindows::STATUS_INSUFFICIENT_NVRAM_RESOURCES => Some(0xc0000454),
            NtStatusWindows::STATUS_INVALID_SESSION => Some(0xc0000455),
            NtStatusWindows::STATUS_THREAD_ALREADY_IN_SESSION => Some(0xc0000456),
            NtStatusWindows::STATUS_THREAD_NOT_IN_SESSION => Some(0xc0000457),
            NtStatusWindows::STATUS_INVALID_WEIGHT => Some(0xc0000458),
            NtStatusWindows::STATUS_REQUEST_PAUSED => Some(0xc0000459),
            NtStatusWindows::STATUS_NO_RANGES_PROCESSED => Some(0xc0000460),
            NtStatusWindows::STATUS_DISK_RESOURCES_EXHAUSTED => Some(0xc0000461),
            NtStatusWindows::STATUS_NEEDS_REMEDIATION => Some(0xc0000462),
            NtStatusWindows::STATUS_DEVICE_FEATURE_NOT_SUPPORTED => Some(0xc0000463),
            NtStatusWindows::STATUS_DEVICE_UNREACHABLE => Some(0xc0000464),
            NtStatusWindows::STATUS_INVALID_TOKEN => Some(0xc0000465),
            NtStatusWindows::STATUS_SERVER_UNAVAILABLE => Some(0xc0000466),
            NtStatusWindows::STATUS_FILE_NOT_AVAILABLE => Some(0xc0000467),
            NtStatusWindows::STATUS_DEVICE_INSUFFICIENT_RESOURCES => Some(0xc0000468),
            NtStatusWindows::STATUS_PACKAGE_UPDATING => Some(0xc0000469),
            NtStatusWindows::STATUS_NOT_READ_FROM_COPY => Some(0xc000046a),
            NtStatusWindows::STATUS_FT_WRITE_FAILURE => Some(0xc000046b),
            NtStatusWindows::STATUS_FT_DI_SCAN_REQUIRED => Some(0xc000046c),
            NtStatusWindows::STATUS_OBJECT_NOT_EXTERNALLY_BACKED => Some(0xc000046d),
            NtStatusWindows::STATUS_EXTERNAL_BACKING_PROVIDER_UNKNOWN => Some(0xc000046e),
            NtStatusWindows::STATUS_COMPRESSION_NOT_BENEFICIAL => Some(0xc000046f),
            NtStatusWindows::STATUS_DATA_CHECKSUM_ERROR => Some(0xc0000470),
            NtStatusWindows::STATUS_INTERMIXED_KERNEL_EA_OPERATION => Some(0xc0000471),
            NtStatusWindows::STATUS_TRIM_READ_ZERO_NOT_SUPPORTED => Some(0xc0000472),
            NtStatusWindows::STATUS_TOO_MANY_SEGMENT_DESCRIPTORS => Some(0xc0000473),
            NtStatusWindows::STATUS_INVALID_OFFSET_ALIGNMENT => Some(0xc0000474),
            NtStatusWindows::STATUS_INVALID_FIELD_IN_PARAMETER_LIST => Some(0xc0000475),
            NtStatusWindows::STATUS_OPERATION_IN_PROGRESS => Some(0xc0000476),
            NtStatusWindows::STATUS_INVALID_INITIATOR_TARGET_PATH => Some(0xc0000477),
            NtStatusWindows::STATUS_SCRUB_DATA_DISABLED => Some(0xc0000478),
            NtStatusWindows::STATUS_NOT_REDUNDANT_STORAGE => Some(0xc0000479),
            NtStatusWindows::STATUS_RESIDENT_FILE_NOT_SUPPORTED => Some(0xc000047a),
            NtStatusWindows::STATUS_COMPRESSED_FILE_NOT_SUPPORTED => Some(0xc000047b),
            NtStatusWindows::STATUS_DIRECTORY_NOT_SUPPORTED => Some(0xc000047c),
            NtStatusWindows::STATUS_IO_OPERATION_TIMEOUT => Some(0xc000047d),
            NtStatusWindows::STATUS_SYSTEM_NEEDS_REMEDIATION => Some(0xc000047e),
            NtStatusWindows::STATUS_APPX_INTEGRITY_FAILURE_CLR_NGEN => Some(0xc000047f),
            _ => None,
        }
    }

    /// One slice of the symbol table: the symbol this slice gives a
    /// raw value, where it holds one.
    pub open spec fn spec_from_u32_part19(raw: u32) -> Option<NtStatusWindows> {
        match raw {
            0xc0000435 => Some(NtStatusWindows::STATUS_PURGE_FAILED),
            0xc0000440 => Some(NtStatusWindows::STATUS_CRED_REQUIRES_CONFIRMATION),
            0xc0000441 => Some(NtStatusWindows::STATUS_CS_ENCRYPTION_INVALID_SERVER_RESPONSE),
            0xc0000442 => Some(NtStatusWindows::STATUS_CS_ENCRYPTION_UNSUPPORTED_SERVER),
            0xc0000443 => Some(NtStatusWindows::STATUS_CS_ENCRYPTION_EXISTING_ENCRYPTED_FILE),
            0xc0000444 => Some(NtStatusWindows::STATUS_CS_ENCRYPTION_NEW_ENCRYPTED_FILE),
            0xc0000445 => Some(NtStatusWindows::STATUS_CS_ENCRYPTION_FILE_NOT_CSE),
            0xc0000446 => Some(NtStatusWindows::STATUS_INVALID_LABEL),
            0xc0000450 => Some(NtStatusWindows::STATUS_DRIVER_PROCESS_TERMINATED),
            0xc0000451 => Some(NtStatusWindows::STATUS_AMBIGUOUS_SYSTEM_DEVICE),
            0xc0000452 => Some(NtStatusWindows::STATUS_SYSTEM_DEVICE_NOT_FOUND),
            0xc0000453 => Some(NtStatusWindows::STATUS_RESTART_BOOT_APPLICATION),
            0xc0000454 => Some(NtStatusWindows::STATUS_INSUFFICIENT_NVRAM_RESOURCES),
            0xc0000455 => Some(NtStatusWindows::STATUS_INVALID_SESSION),
            0xc0000456 => Some(NtStatusWindows::STATUS_THREAD_ALREADY_IN_SESSION),
            0xc0000457 => Some(NtStatusWindows::STATUS_THREAD_NOT_IN_SESSION),
            0xc0000458 => Some(NtStatusWindows::STATUS_INVALID_WEIGHT),
            0xc0000459 => Some(NtStatusWindows::STATUS_REQUEST_PAUSED),
            0xc0000460 => Some(NtStatusWindows::STATUS_NO_RANGES_PROCESSED),
            0xc0000461 => Some(NtStatusWindows::STATUS_DISK_RESOURCES_EXHAUSTED),
            0xc0000462 => Some(NtStatusWindows::STATUS_NEEDS_REMEDIATION),
            0xc0000463 => Some(NtStatusWindows::STATUS_DEVICE_FEATURE_NOT_SUPPORTED),
            0xc0000464 => Some(NtStatusWindows::STATUS_DEVICE_UNREACHABLE),
            0xc0000465 => Some(NtStatusWindows::STATUS_INVALID_TOKEN),
            0xc0000466 => Some(NtStatusWindows::STATUS_SERVER_UNAVAILABLE),
            0xc0000467 => Some(NtStatusWindows::STATUS_FILE_NOT_AVAILABLE),
            0xc0000468 => Some(NtStatusWindows::STATUS_DEVICE_INSUFFICIENT_RESOURCES),
            0xc0000469 => Some(NtStatusWindows::STATUS_PACKAGE_UPDATING),
            0xc000046a => Some(NtStatusWindows::STATUS_NOT_READ_FROM_COPY),
            0xc000046b => Some(NtStatusWindows::STATUS_FT_WRITE_FAILURE),
            0xc000046c => Some(NtStatusWindows::STATUS_FT_DI_SCAN_REQUIRED),
            0xc000046d => Some(NtStatusWindows::STATUS_OBJECT_NOT_EXTERNALLY_BACKED),
            0xc000046e => Some(NtStatusWindows::STATUS_EXTERNAL_BACKING_PROVIDER_UNKNOWN),
            0xc000046f => Some(NtStatusWindows::STATUS_COMPRESSION_NOT_BENEFICIAL),
            0xc0000470 => Some(NtStatusWindows::STATUS_DATA_CHECKSUM_ERROR),
            0xc0000471 => Some(NtStatusWindows::STATUS_INTERMIXED_KERNEL_EA_OPERATION),
            0xc0000472 => Some(NtStatusWindows::STATUS_TRIM_READ_ZERO_NOT_SUPPORTED),
            0xc0000473 => Some(NtStatusWindows::STATUS_TOO_MANY_SEGMENT_DESCRIPTORS),
            0xc0000474 => Some(NtStatusWindows::STATUS_INVALID_OFFSET_ALIGNMENT),
            0xc0000475 => Some(NtStatusWindows::STATUS_INVALID_FIELD_IN_PARAMETER_LIST),
            0xc0000476 => Some(NtStatusWindows::STATUS_OPERATION_IN_PROGRESS),
            0xc0000477 => Some(NtStatusWindows::STATUS_INVALID_INITIATOR_TARGET_PATH),
            0xc0000478 => Some(NtStatusWindows::STATUS_SCRUB_DATA_DISABLED),
            0xc0000479 => Some(NtStatusWindows::STATUS_NOT_REDUNDANT_STORAGE),
            0xc000047a => Some(NtStatusWindows::STATUS_RESIDENT_FILE_NOT_SUPPORTED),
            0xc000047b => Some(NtStatusWindows::STATUS_COMPRESSED_FILE_NOT_SUPPORTED),
            0xc000047c => Some(NtStatusWindows::STATUS_DIRECTORY_NOT_SUPPORTED),
            0xc000047d => Some(NtStatusWindows::STATUS_IO_OPERATION_TIMEOUT),
            0xc000047e => Some(NtStatusWindows::STATUS_SYSTEM_NEEDS_REMEDIATION),
            0xc000047f => Some(NtStatusWindows::STATUS_APPX_INTEGRITY_FAILURE_CLR_NGEN),
            _ => None,
        }
    }

    /// One slice of the symbol table.
    #[verifier::spinoff_prover]
    #[verifier::rlimit(100)]
    fn to_u32_part19(self) -> (r: Option<u32>)
        ensures
            r == self.spec_to_u32_part19(),
    {
        match self {
            NtStatusWindows::STATUS_PURGE_FAILED => Some(0xc0000435),
            NtStatusWindows::STATUS_CRED_REQUIRES_CONFIRMATION => Some(0xc0000440),
            NtStatusWindows::STATUS_CS_ENCRYPTION_INVALID_SERVER_RESPONSE => Some(0xc0000441),
            NtStatusWindows::STATUS_CS_ENCRYPTION_UNSUPPORTED_SERVER => Some(0xc0000442),
            NtStatusWindows::STATUS_CS_ENCRYPTION_EXISTING_ENCRYPTED_FILE => Some(0xc0000443),
            NtStatusWindows::STATUS_CS_ENCRYPTION_NEW_ENCRYPTED_FILE => Some(0xc0000444),
            NtStatusWindows::STATUS_CS_ENCRYPTION_FILE_NOT_CSE => Some(0xc0000445),
            NtStatusWindows::STATUS_INVALID_LABEL => Some(0xc0000446),
            NtStatusWindows::STATUS_DRIVER_PROCESS_TERMINATED => Some(0xc0000450),
            NtStatusWindows::STATUS_AMBIGUOUS_SYSTEM_DEVICE => Some(0xc0000451),
            NtStatusWindows::STATUS_SYSTEM_DEVICE_NOT_FOUND => Some(0xc0000452),
            NtStatusWindows::STATUS_RESTART_BOOT_APPLICATION => Some(0xc0000453),
            NtStatusWindows::STATUS_INSUFFICIENT_NVRAM_RESOURCES => Some(0xc0000454),
            NtStatusWindows::STATUS_INVALID_SESSION => Some(0xc0000455),
            NtStatusWindows::STATUS_THREAD_ALREADY_IN_SESSION => Some(0xc0000456),
            NtStatusWindows::STATUS_THREAD_NOT_IN_SESSION => Some(0xc0000457),
            NtStatusWindows::STATUS_INVALID_WEIGHT => Some(0xc0000458),
            NtStatusWindows::STATUS_REQUEST_PAUSED => Some(0xc0000459),
            NtStatusWindows::STATUS_NO_RANGES_PROCESSED => Some(0xc0000460),
            NtStatusWindows::STATUS_DISK_RESOURCES_EXHAUSTED => Some(0xc0000461),
            NtStatusWindows::STATUS_NEEDS_REMEDIATION => Some(0xc0000462),
            NtStatusWindows::STATUS_DEVICE_FEATURE_NOT_SUPPORTED => Some(0xc0000463),
            NtStatusWindows::STATUS_DEVICE_UNREACHABLE => Some(0xc0000464),
            NtStatusWindows::STATUS_INVALID_TOKEN => Some(0xc0000465),
            NtStatusWindows::STATUS_SERVER_UNAVAILABLE => Some(0xc0000466),
            NtStatusWindows::STATUS_FILE_NOT_AVAILABLE => Some(0xc0000467),
            NtStatusWindows::STATUS_DEVICE_INSUFFICIENT_RESOURCES => Some(0xc0000468),
            NtStatusWindows::STATUS_PACKAGE_UPDATING => Some(0xc0000469),
            NtStatusWindows::STATUS_NOT_READ_FROM_COPY => Some(0xc000046a),
            NtStatusWindows::STATUS_FT_WRITE_FAILURE => Some(0xc000046b),
            NtStatusWindows::STATUS_FT_DI_SCAN_REQUIRED => Some(0xc000046c),
            NtStatusWindows::STATUS_OBJECT_NOT_EXTERNALLY_BACKED => Some(0xc000046d),
            NtStatusWindows::STATUS_EXTERNAL_BACKING_PROVIDER_UNKNOWN => Some(0xc000046e),
            NtStatusWindows::STATUS_COMPRESSION_NOT_BENEFICIAL => Some(0xc000046f),
            NtStatusWindows::STATUS_DATA_CHECKSUM_ERROR => Some(0xc0000470),
            NtStatusWindows::STATUS_INTERMIXED_KERNEL_EA_OPERATION => Some(0xc0000471),
            NtStatusWindows::STATUS_TRIM_READ_ZERO_NOT_SUPPORTED => Some(0xc0000472),
            NtStatusWindows::STATUS_TOO_MANY_SEGMENT_DESCRIPTORS => Some(0xc0000473),
            NtStatusWindows::STATUS_INVALID_OFFSET_ALIGNMENT => Some(0xc0000474),
            NtStatusWindows::STATUS_INVALID_FIELD_IN_PARAMETER_LIST => Some(0xc0000475),
            NtStatusWindows::STATUS_OPERATION_IN_PROGRESS => Some(0xc0000476),
            NtStatusWindows::STATUS_INVALID_INITIATOR_TARGET_PATH => Some(0xc0000477),
            NtStatusWindows::STATUS_SCRUB_DATA_DISABLED => Some(0xc0000478),
            NtStatusWindows::STATUS_NOT_REDUNDANT_STORAGE => Some(0xc0000479),
            NtStatusWindows::STATUS_RESIDENT_FILE_NOT_SUPPORTED => Some(0xc000047a),
            NtStatusWindows::STATUS_COMPRESSED_FILE_NOT_SUPPORTED => Some(0xc000047b),
            NtStatusWindows::STATUS_DIRECTORY_NOT_SUPPORTED => Some(0xc000047c),
            NtStatusWindows::STATUS_IO_OPERATION_TIMEOUT => Some(0xc000047d),
            NtStatusWindows::STATUS_SYSTEM_NEEDS_REMEDIATION => Some(0xc000047e),
            NtStatusWindows::STATUS_APPX_INTEGRITY_FAILURE_CLR_NGEN => Some(0xc000047f),
            _ => None,
        }
    }

    /// One slice of the symbol table.
    #[verifier::spinoff_prover]
    #[verifier::rlimit(100)]
    fn from_u32_part19(raw: u32) -> (r: Option<NtStatusWindows>)
        ensures
            r == NtStatusWindows::spec_from_u32_part19(raw),
    {
        match raw {
            0xc0000435 => Some(NtStatusWindows::STATUS_PURGE_FAILED),
            0xc0000440 => Some(NtStatusWindows::STATUS_CRED_REQUIRES_CONFIRMATION),
            0xc0000441 => Some(NtStatusWindows::STATUS_CS_ENCRYPTION_INVALID_SERVER_RESPONSE),
            0xc0000442 => Some(NtStatusWindows::STATUS_CS_ENCRYPTION_UNSUPPORTED_SERVER),
            0xc0000443 => Some(NtStatusWindows::STATUS_CS_ENCRYPTION_EXISTING_ENCRYPTED_FILE),
            0xc0000444 => Some(NtStatusWindows::STATUS_CS_ENCRYPTION_NEW_ENCRYPTED_FILE),
            0xc0000445 => Some(NtStatusWindows::STATUS_CS_ENCRYPTION_FILE_NOT_CSE),
            0xc0000446 => Some(NtStatusWindows::STATUS_INVALID_LABEL),
            0xc0000450 => Some(NtStatusWindows::STATUS_DRIVER_PROCESS_TERMINATED),
            0xc0000451 => Some(NtStatusWindows::STATUS_AMBIGUOUS_SYSTEM_DEVICE),
            0xc0000452 => Some(NtStatusWindows::STATUS_SYSTEM_DEVICE_NOT_FOUND),
            0xc0000453 => Some(NtStatusWindows::STATUS_RESTART_BOOT_APPLICATION),
            0xc0000454 => Some(NtStatusWindows::STATUS_INSUFFICIENT_NVRAM_RESOURCES),
            0xc0000455 => Some(NtStatusWindows::STATUS_INVALID_SESSION),
            0xc0000456 => Some(NtStatusWindows::STATUS_THREAD_ALREADY_IN_SESSION),
            0xc0000457 => Some(NtStatusWindows::STATUS_THREAD_NOT_IN_SESSION),
            0xc0000458 => Some(NtStatusWindows::STATUS_INVALID_WEIGHT),
            0xc0000459 => Some(NtStatusWindows::STATUS_REQUEST_PAUSED),
            0xc0000460 => Some(NtStatusWindows::STATUS_NO_RANGES_PROCESSED),
            0xc0000461 => Some(NtStatusWindows::STATUS_DISK_RESOURCES_EXHAUSTED),
            0xc0000462 => Some(NtStatusWindows::STATUS_NEEDS_REMEDIATION),
            0xc0000463 => Some(NtStatusWindows::STATUS_DEVICE_FEATURE_NOT_SUPPORTED),
            0xc0000464 => Some(NtStatusWindows::STATUS_DEVICE_UNREACHABLE),
            0xc0000465 => Some(NtStatusWindows::STATUS_INVALID_TOKEN),
            0xc0000466 => Some(NtStatusWindows::STATUS_SERVER_UNAVAILABLE),
            0xc0000467 => Some(NtStatusWindows::STATUS_FILE_NOT_AVAILABLE),
            0xc0000468 => Some(NtStatusWindows::STATUS_DEVICE_INSUFFICIENT_RESOURCES),
            0xc0000469 => Some(NtStatusWindows::STATUS_PACKAGE_UPDATING),
            0xc000046a => Some(NtStatusWindows::STATUS_NOT_READ_FROM_COPY),
            0xc000046b => Some(NtStatusWindows::STATUS_FT_WRITE_FAILURE),
            0xc000046c => Some(NtStatusWindows::STATUS_FT_DI_SCAN_REQUIRED),
            0xc000046d => Some(NtStatusWindows::STATUS_OBJECT_NOT_EXTERNALLY_BACKED),
            0xc000046e => Some(NtStatusWindows::STATUS_EXTERNAL_BACKING_PROVIDER_UNKNOWN),
            0xc000046f => Some(NtStatusWindows::STATUS_COMPRESSION_NOT_BENEFICIAL),
            0xc0000470 => Some(NtStatusWindows::STATUS_DATA_CHECKSUM_ERROR),
            0xc0000471 => Some(NtStatusWindows::STATUS_INTERMIXED_KERNEL_EA_OPERATION),
            0xc0000472 => Some(NtStatusWindows::STATUS_TRIM_READ_ZERO_NOT_SUPPORTED),
            0xc0000473 => Some(NtStatusWindows::STATUS_TOO_MANY_SEGMENT_DESCRIPTORS),
            0xc0000474 => Some(NtStatusWindows::STATUS_INVALID_OFFSET_ALIGNMENT),
            0xc0000475 => Some(NtStatusWindows::STATUS_INVALID_FIELD_IN_PARAMETER_LIST),
            0xc0000476 => Some(NtStatusWindows::STATUS_OPERATION_IN_PROGRESS),
            0xc0000477 => Some(NtStatusWindows::STATUS_INVALID_INITIATOR_TARGET_PATH),
            0xc0000478 => Some(NtStatusWindows::STATUS_SCRUB_DATA_DISABLED),
            0xc0000479 => Some(NtStatusWindows::STATUS_NOT_REDUNDANT_STORAGE),
            0xc000047a => Some(NtStatusWindows::STATUS_RESIDENT_FILE_NOT_SUPPORTED),
            0xc000047b => Some(NtStatusWindows::STATUS_COMPRESSED_FILE_NOT_SUPPORTED),
            0xc000047c => Some(NtStatusWindows::STATUS_DIRECTORY_NOT_SUPPORTED),
            0xc000047d => Some(NtStatusWindows::STATUS_IO_OPERATION_TIMEOUT),
            0xc000047e => Some(NtStatusWindows::STATUS_SYSTEM_NEEDS_REMEDIATION),
            0xc000047f => Some(NtStatusWindows::STATUS_APPX_INTEGRITY_FAILURE_CLR_NGEN),
            _ => None,
        }
    }

    /// One slice of the symbol table: the raw value of this symbol,
    /// where this slice holds it.
    pub open spec fn spec_to_u32_part20(self) -> Option<u32> {
        match self {
            NtStatusWindows::STATUS_SHARE_UNAVAILABLE => Some(0xc0000480),
            NtStatusWindows::STATUS_APISET_NOT_HOSTED => Some(0xc0000481),
            NtStatusWindows::STATUS_APISET_NOT_PRESENT => Some(0xc0000482),
            NtStatusWindows::STATUS_DEVICE_HARDWARE_ERROR => Some(0xc0000483),
            NtStatusWindows::STATUS_FIRMWARE_SLOT_INVALID => Some(0xc0000484),
            NtStatusWindows::STATUS_FIRMWARE_IMAGE_INVALID => Some(0xc0000485),
            NtStatusWindows::STATUS_STORAGE_TOPOLOGY_ID_MISMATCH => Some(0xc0000486),
            NtStatusWindows::STATUS_WIM_NOT_BOOTABLE => Some(0xc0000487),
            NtStatusWindows::STATUS_BLOCKED_BY_PARENTAL_CONTROLS => Some(0xc0000488),
            NtStatusWindows::STATUS_NEEDS_REGISTRATION => Some(0xc0000489),
            NtStatusWindows::STATUS_QUOTA_ACTIVITY => Some(0xc000048a),
            NtStatusWindows::STATUS_CALLBACK_INVOKE_INLINE => Some(0xc000048b),
            NtStatusWindows::STATUS_BLOCK_TOO_MANY_REFERENCES => Some(0xc000048c),
            NtStatusWindows::STATUS_MARKED_TO_DISALLOW_WRITES => Some(0xc000048d),
            NtStatusWindows::STATUS_NETWORK_ACCESS_DENIED_EDP => Some(0xc000048e),
            NtStatusWindows::STATUS_ENCLAVE_FAILURE => Some(0xc000048f),
            NtStatusWindows::STATUS_PNP_NO_COMPAT_DRIVERS => Some(0xc0000490),
            NtStatusWindows::STATUS_PNP_DRIVER_PACKAGE_NOT_FOUND => Some(0xc0000491),
            NtStatusWindows::STATUS_PNP_DRIVER_CONFIGURATION_NOT_FOUND => Some(0xc0000492),
            NtStatusWindows::STATUS_PNP_DRIVER_CONFIGURATION_INCOMPLETE => Some(0xc0000493),
            NtStatusWindows::STATUS_PNP_FUNCTION_DRIVER_REQUIRED => Some(0xc0000494),
            NtStatusWindows::STATUS_PNP_DEVICE_CONFIGURATION_PENDING => Some(0xc0000495),
            NtStatusWindows::STATUS_DEVICE_HINT_NAME_BUFFER_TOO_SMALL => Some(0xc0000496),
            NtStatusWindows::STATUS_PACKAGE_NOT_AVAILABLE => Some(0xc0000497),
            NtStatusWindows::STATUS_DEVICE_IN_MAINTENANCE => Some(0xc0000499),
            NtStatusWindows::STATUS_NOT_SUPPORTED_ON_DAX => Some(0xc000049a),
            NtStatusWindows::STATUS_FREE_SPACE_TOO_FRAGMENTED => Some(0xc000049b),
            NtStatusWindows::STATUS_DAX_MAPPING_EXISTS => Some(0xc000049c),
            NtStatusWindows::STATUS_CHILD_PROCESS_BLOCKED => Some(0xc000049d),
            NtStatusWindows::STATUS_STORAGE_LOST_DATA_PERSISTENCE => Some(0xc000049e),
            NtStatusWindows::STATUS_VRF_CFG_AND_IO_ENABLED => Some(0xc000049f),
            NtStatusWindows::STATUS_PARTITION_TERMINATING => Some(0xc00004a0),
            NtStatusWindows::STATUS_EXTERNAL_SYSKEY_NOT_SUPPORTED => Some(0xc00004a1),
            NtStatusWindows::STATUS_ENCLAVE_VIOLATION => Some(0xc00004a2),
            NtStatusWindows::STATUS_FILE_PROTECTED_UNDER_DPL => Some(0xc00004a3),
            NtStatusWindows::STATUS_VOLUME_NOT_CLUSTER_ALIGNED => Some(0xc00004a4),
            NtStatusWindows::STATUS_NO_PHYSICALLY_ALIGNED_FREE_SPACE_FOUND => Some(0xc00004a5),
            NtStatusWindows::STATUS_APPX_FILE_NOT_ENCRYPTED => Some(0xc00004a6),
            NtStatusWindows::STATUS_RWRAW_ENCRYPTED_FILE_NOT_ENCRYPTED => Some(0xc00004a7),
            NtStatusWindows::STATUS_RWRAW_ENCRYPTED_INVALID_EDATAINFO_FILEOFFSET => Some(0xc00004a8),
            NtStatusWindows::STATUS_RWRAW_ENCRYPTED_INVALID_EDATAINFO_FILERANGE => Some(0xc00004a9),
            NtStatusWindows::STATUS_RWRAW_ENCRYPTED_INVALID_EDATAINFO_PARAMETER => Some(0xc00004aa),
            NtStatusWindows::STATUS_FT_READ_FAILURE => Some(0xc00004ab),
            NtStatusWindows::STATUS_PATCH_CONFLICT => Some(0xc00004ac),
            NtStatusWindows::STATUS_STORAGE_RESERVE_ID_INVALID => Some(0xc00004ad),
            NtStatusWindows::STATUS_STORAGE_RESERVE_DOES_NOT_EXIST => Some(0xc00004ae),
            NtStatusWindows::STATUS_STORAGE_RESERVE_ALREADY_EXISTS => Some(0xc00004af),
            NtStatusWindows::STATUS_STORAGE_RESERVE_NOT_EMPTY => Some(0xc00004b0),
            NtStatusWindows::STATUS_NOT_A_DAX_VOLUME => Some(0xc00004b1),
            NtStatusWindows::STATUS_NOT_DAX_MAPPABLE => Some(0xc00004b2),
            _ => None,
        }
    }

    /// One slice of the symbol table: the symbol this slice gives a
    /// raw value, where it holds one.
    pub open spec fn spec_from_u32_part20(raw: u32) -> Option<NtStatusWindows> {
        match raw {
            0xc0000480 => Some(NtStatusWindows::STATUS_SHARE_UNAVAILABLE),
            0xc0000481 => Some(NtStatusWindows::STATUS_APISET_NOT_HOSTED),
            0xc0000482 => Some(NtStatusWindows::STATUS_APISET_NOT_PRESENT),
            0xc0000483 => Some(NtStatusWindows::STATUS_DEVICE_HARDWARE_ERROR),
            0xc0000484 => Some(NtStatusWindows::STATUS_FIRMWARE_SLOT_INVALID),
            0xc0000485 => Some(NtStatusWindows::STATUS_FIRMWARE_IMAGE_INVALID),
            0xc0000486 => Some(NtStatusWindows::STATUS_STORAGE_TOPOLOGY_ID_MISMATCH),
            0xc0000487 => Some(NtStatusWindows::STATUS_WIM_NOT_BOOTABLE),
            0xc0000488 => Some(NtStatusWindows::STATUS_BLOCKED_BY_PARENTAL_CONTROLS),
            0xc0000489 => Some(NtStatusWindows::STATUS_NEEDS_REGISTRATION),
            0xc000048a => Some(NtStatusWindows::STATUS_QUOTA_ACTIVITY),
            0xc000048b => Some(NtStatusWindows::STATUS_CALLBACK_INVOKE_INLINE),
            0xc000048c => Some(NtStatusWindows::STATUS_BLOCK_TOO_MANY_REFERENCES),
            0xc000048d => Some(NtStatusWindows::STATUS_MARKED_TO_DISALLOW_WRITES),
            0xc000048e => Some(NtStatusWindows::STATUS_NETWORK_ACCESS_DENIED_EDP),
            0xc000048f => Some(NtStatusWindows::STATUS_ENCLAVE_FAILURE),
            0xc0000490 => Some(NtStatusWindows::STATUS_PNP_NO_COMPAT_DRIVERS),
            0xc0000491 => Some(NtStatusWindows::STATUS_PNP_DRIVER_PACKAGE_NOT_FOUND),
            0xc0000492 => Some(NtStatusWindows::STATUS_PNP_DRIVER_CONFIGURATION_NOT_FOUND),
            0xc0000493 => Some(NtStatusWindows::STATUS_PNP_DRIVER_CONFIGURATION_INCOMPLETE),
            0xc0000494 => Some(NtStatusWindows::STATUS_PNP_FUNCTION_DRIVER_REQUIRED),
            0xc0000495 => Some(NtStatusWindows::STATUS_PNP_DEVICE_CONFIGURATION_PENDING),
            0xc0000496 => Some(NtStatusWindows::STATUS_DEVICE_HINT_NAME_BUFFER_TOO_SMALL),
            0xc0000497 => Some(NtStatusWindows::STATUS_PACKAGE_NOT_AVAILABLE),
            0xc0000499 => Some(NtStatusWindows::STATUS_DEVICE_IN_MAINTENANCE),
            0xc000049a => Some(NtStatusWindows::STATUS_NOT_SUPPORTED_ON_DAX),
            0xc000049b => Some(NtStatusWindows::STATUS_FREE_SPACE_TOO_FRAGMENTED),
            0xc000049c => Some(NtStatusWindows::STATUS_DAX_MAPPING_EXISTS),
            0xc000049d => Some(NtStatusWindows::STATUS_CHILD_PROCESS_BLOCKED),
            0xc000049e => Some(NtStatusWindows::STATUS_STORAGE_LOST_DATA_PERSISTENCE),
            0xc000049f => Some(NtStatusWindows::STATUS_VRF_CFG_AND_IO_ENABLED),
            0xc00004a0 => Some(NtStatusWindows::STATUS_PARTITION_TERMINATING),
            0xc00004a1 => Some(NtStatusWindows::STATUS_EXTERNAL_SYSKEY_NOT_SUPPORTED),
            0xc00004a2 => Some(NtStatusWindows::STATUS_ENCLAVE_VIOLATION),
            0xc00004a3 => Some(NtStatusWindows::STATUS_FILE_PROTECTED_UNDER_DPL),
            0xc00004a4 => Some(NtStatusWindows::STATUS_VOLUME_NOT_CLUSTER_ALIGNED),
            0xc00004a5 => Some(NtStatusWindows::STATUS_NO_PHYSICALLY_ALIGNED_FREE_SPACE_FOUND),
            0xc00004a6 => Some(NtStatusWindows::STATUS_APPX_FILE_NOT_ENCRYPTED),
            0xc00004a7 => Some(NtStatusWindows::STATUS_RWRAW_ENCRYPTED_FILE_NOT_ENCRYPTED),
            0xc00004a8 => Some(NtStatusWindows::STATUS_RWRAW_ENCRYPTED_INVALID_EDATAINFO_FILEOFFSET),
            0xc00004a9 => Some(NtStatusWindows::STATUS_RWRAW_ENCRYPTED_INVALID_EDATAINFO_FILERANGE),
            0xc00004aa => Some(NtStatusWindows::STATUS_RWRAW_ENCRYPTED_INVALID_EDATAINFO_PARAMETER),
            0xc00004ab => Some(NtStatusWindows::STATUS_FT_READ_FAILURE),
            0xc00004ac => Some(NtStatusWindows::STATUS_PATCH_CONFLICT),
            0xc00004ad => Some(NtStatusWindows::STATUS_STORAGE_RESERVE_ID_INVALID),
            0xc00004ae => Some(NtStatusWindows::STATUS_STORAGE_RESERVE_DOES_NOT_EXIST),
            0xc00004af => Some(NtStatusWindows::STATUS_STORAGE_RESERVE_ALREADY_EXISTS),
            0xc00004b0 => Some(NtStatusWindows::STATUS_STORAGE_RESERVE_NOT_EMPTY),
            0xc00004b1 => Some(NtStatusWindows::STATUS_NOT_A_DAX_VOLUME),
            0xc00004b2 => Some(NtStatusWindows::STATUS_NOT_DAX_MAPPABLE),
            _ => None,
        }
    }

    /// One slice of the symbol table.
    #[verifier::spinoff_prover]
    #[verifier::rlimit(100)]
    fn to_u32_part20(self) -> (r: Option<u32>)
        ensures
            r == self.spec_to_u32_part20(),
    {
        match self {
            NtStatusWindows::STATUS_SHARE_UNAVAILABLE => Some(0xc0000480),
            NtStatusWindows::STATUS_APISET_NOT_HOSTED => Some(0xc0000481),
            NtStatusWindows::STATUS_APISET_NOT_PRESENT => Some(0xc0000482),
            NtStatusWindows::STATUS_DEVICE_HARDWARE_ERROR => Some(0xc0000483),
            NtStatusWindows::STATUS_FIRMWARE_SLOT_INVALID => Some(0xc0000484),
            NtStatusWindows::STATUS_FIRMWARE_IMAGE_INVALID => Some(0xc0000485),
            NtStatusWindows::STATUS_STORAGE_TOPOLOGY_ID_MISMATCH => Some(0xc0000486),
            NtStatusWindows::STATUS_WIM_NOT_BOOTABLE => Some(0xc0000487),
            NtStatusWindows::STATUS_BLOCKED_BY_PARENTAL_CONTROLS => Some(0xc0000488),
            NtStatusWindows::STATUS_NEEDS_REGISTRATION => Some(0xc0000489),
            NtStatusWindows::STATUS_QUOTA_ACTIVITY => Some(0xc000048a),
            NtStatusWindows::STATUS_CALLBACK_INVOKE_INLINE => Some(0xc000048b),
            NtStatusWindows::STATUS_BLOCK_TOO_MANY_REFERENCES => Some(0xc000048c),
            NtStatusWindows::STATUS_MARKED_TO_DISALLOW_WRITES => Some(0xc000048d),
            NtStatusWindows::STATUS_NETWORK_ACCESS_DENIED_EDP => Some(0xc000048e),
            NtStatusWindows::STATUS_ENCLAVE_FAILURE => Some(0xc000048f),
            NtStatusWindows::STATUS_PNP_NO_COMPAT_DRIVERS => Some(0xc0000490),
            NtStatusWindows::STATUS_PNP_DRIVER_PACKAGE_NOT_FOUND => Some(0xc0000491),
            NtStatusWindows::STATUS_PNP_DRIVER_CONFIGURATION_NOT_FOUND => Some(0xc0000492),
            NtStatusWindows::STATUS_PNP_DRIVER_CONFIGURATION_INCOMPLETE => Some(0xc0000493),
            NtStatusWindows::STATUS_PNP_FUNCTION_DRIVER_REQUIRED => Some(0xc0000494),
            NtStatusWindows::STATUS_PNP_DEVICE_CONFIGURATION_PENDING => Some(0xc0000495),
            NtStatusWindows::STATUS_DEVICE_HINT_NAME_BUFFER_TOO_SMALL => Some(0xc0000496),
            NtStatusWindows::STATUS_PACKAGE_NOT_AVAILABLE => Some(0xc0000497),
            NtStatusWindows::STATUS_DEVICE_IN_MAINTENANCE => Some(0xc0000499),
            NtStatusWindows::STATUS_NOT_SUPPORTED_ON_DAX => Some(0xc000049a),
            NtStatusWindows::STATUS_FREE_SPACE_TOO_FRAGMENTED => Some(0xc000049b),
            NtStatusWindows::STATUS_DAX_MAPPING_EXISTS => Some(0xc000049c),
            NtStatusWindows::STATUS_CHILD_PROCESS_BLOCKED => Some(0xc000049d),
            NtStatusWindows::STATUS_STORAGE_LOST_DATA_PERSISTENCE => Some(0xc000049e),
            NtStatusWindows::STATUS_VRF_CFG_AND_IO_ENABLED => Some(0xc000049f),
            NtStatusWindows::STATUS_PARTITION_TERMINATING => Some(0xc00004a0),
            NtStatusWindows::STATUS_EXTERNAL_SYSKEY_NOT_SUPPORTED => Some(0xc00004a1),
            NtStatusWindows::STATUS_ENCLAVE_VIOLATION => Some(0xc00004a2),
            NtStatusWindows::STATUS_FILE_PROTECTED_UNDER_DPL => Some(0xc00004a3),
            NtStatusWindows::STATUS_VOLUME_NOT_CLUSTER_ALIGNED => Some(0xc00004a4),
            NtStatusWindows::STATUS_NO_PHYSICALLY_ALIGNED_FREE_SPACE_FOUND => Some(0xc00004a5),
            NtStatusWindows::STATUS_APPX_FILE_NOT_ENCRYPTED => Some(0xc00004a6),
            NtStatusWindows::STATUS_RWRAW_ENCRYPTED_FILE_NOT_ENCRYPTED => Some(0xc00004a7),
            NtStatusWindows::STATUS_RWRAW_ENCRYPTED_INVALID_EDATAINFO_FILEOFFSET => Some(0xc00004a8),
            NtStatusWindows::STATUS_RWRAW_ENCRYPTED_INVALID_EDATAINFO_FILERANGE => Some(0xc00004a9),
            NtStatusWindows::STATUS_RWRAW_ENCRYPTED_INVALID_EDATAINFO_PARAMETER => Some(0xc00004aa),
            NtStatusWindows::STATUS_FT_READ_FAILURE => Some(0xc00004ab),
            NtStatusWindows::STATUS_PATCH_CONFLICT => Some(0xc00004ac),
            NtStatusWindows::STATUS_STORAGE_RESERVE_ID_INVALID => Some(0xc00004ad),
            NtStatusWindows::STATUS_STORAGE_RESERVE_DOES_NOT_EXIST => Some(0xc00004ae),
            NtStatusWindows::STATUS_STORAGE_RESERVE_ALREADY_EXISTS => Some(0xc00004af),
            NtStatusWindows::STATUS_STORAGE_RESERVE_NOT_EMPTY => Some(0xc00004b0),
            NtStatusWindows::STATUS_NOT_A_DAX_VOLUME => Some(0xc00004b1),
            NtStatusWindows::STATUS_NOT_DAX_MAPPABLE => Some(0xc00004b2),
            _ => None,
        }
    }

    /// One slice of the symbol table.
    #[verifier::spinoff_prover]
    #[verifier::rlimit(100)]
    fn from_u32_part20(raw: u32) -> (r: Option<NtStatusWindows>)
        ensures
            r == NtStatusWindows::spec_from_u32_part20(raw),
    {
        match raw {
            0xc0000480 => Some(NtStatusWindows::STATUS_SHARE_UNAVAILABLE),
            0xc0000481 => Some(NtStatusWindows::STATUS_APISET_NOT_HOSTED),
            0xc0000482 => Some(NtStatusWindows::STATUS_APISET_NOT_PRESENT),
            0xc0000483 => Some(NtStatusWindows::STATUS_DEVICE_HARDWARE_ERROR),
            0xc0000484 => Some(NtStatusWindows::STATUS_FIRMWARE_SLOT_INVALID),
            0xc0000485 => Some(NtStatusWindows::STATUS_FIRMWARE_IMAGE_INVALID),
            0xc0000486 => Some(NtStatusWindows::STATUS_STORAGE_TOPOLOGY_ID_MISMATCH),
            0xc0000487 => Some(NtStatusWindows::STATUS_WIM_NOT_BOOTABLE),
            0xc0000488 => Some(NtStatusWindows::STATUS_BLOCKED_BY_PARENTAL_CONTROLS),
            0xc0000489 => Some(NtStatusWindows::STATUS_NEEDS_REGISTRATION),
            0xc000048a => Some(NtStatusWindows::STATUS_QUOTA_ACTIVITY),
            0xc000048b => Some(NtStatusWindows::STATUS_CALLBACK_INVOKE_INLINE),
            0xc000048c => Some(NtStatusWindows::STATUS_BLOCK_TOO_MANY_REFERENCES),
            0xc000048d => Some(NtStatusWindows::STATUS_MARKED_TO_DISALLOW_WRITES),
            0xc000048e => Some(NtStatusWindows::STATUS_NETWORK_ACCESS_DENIED_EDP),
            0xc000048f => Some(NtStatusWindows::STATUS_ENCLAVE_FAILURE),
            0xc0000490 => Some(NtStatusWindows::STATUS_PNP_NO_COMPAT_DRIVERS),
            0xc0000491 => Some(NtStatusWindows::STATUS_PNP_DRIVER_PACKAGE_NOT_FOUND),
            0xc0000492 => Some(NtStatusWindows::STATUS_PNP_DRIVER_CONFIGURATION_NOT_FOUND),
            0xc0000493 => Some(NtStatusWindows::STATUS_PNP_DRIVER_CONFIGURATION_INCOMPLETE),
            0xc0000494 => Some(NtStatusWindows::STATUS_PNP_FUNCTION_DRIVER_REQUIRED),
            0xc0000495 => Some(NtStatusWindows::STATUS_PNP_DEVICE_CONFIGURATION_PENDING),
            0xc0000496 => Some(NtStatusWindows::STATUS_DEVICE_HINT_NAME_BUFFER_TOO_SMALL),
            0xc0000497 => Some(NtStatusWindows::STATUS_PACKAGE_NOT_AVAILABLE),
            0xc0000499 => Some(NtStatusWindows::STATUS_DEVICE_IN_MAINTENANCE),
            0xc000049a => Some(NtStatusWindows::STATUS_NOT_SUPPORTED_ON_DAX),
            0xc000049b => Some(NtStatusWindows::STATUS_FREE_SPACE_TOO_FRAGMENTED),
            0xc000049c => Some(NtStatusWindows::STATUS_DAX_MAPPING_EXISTS),
            0xc000049d => Some(NtStatusWindows::STATUS_CHILD_PROCESS_BLOCKED),
            0xc000049e => Some(NtStatusWindows::STATUS_STORAGE_LOST_DATA_PERSISTENCE),
            0xc000049f => Some(NtStatusWindows::STATUS_VRF_CFG_AND_IO_ENABLED),
            0xc00004a0 => Some(NtStatusWindows::STATUS_PARTITION_TERMINATING),
            0xc00004a1 => Some(NtStatusWindows::STATUS_EXTERNAL_SYSKEY_NOT_SUPPORTED),
            0xc00004a2 => Some(NtStatusWindows::STATUS_ENCLAVE_VIOLATION),
            0xc00004a3 => Some(NtStatusWindows::STATUS_FILE_PROTECTED_UNDER_DPL),
            0xc00004a4 => Some(NtStatusWindows::STATUS_VOLUME_NOT_CLUSTER_ALIGNED),
            0xc00004a5 => Some(NtStatusWindows::STATUS_NO_PHYSICALLY_ALIGNED_FREE_SPACE_FOUND),
            0xc00004a6 => Some(NtStatusWindows::STATUS_APPX_FILE_NOT_ENCRYPTED),
            0xc00004a7 => Some(NtStatusWindows::STATUS_RWRAW_ENCRYPTED_FILE_NOT_ENCRYPTED),
            0xc00004a8 => Some(NtStatusWindows::STATUS_RWRAW_ENCRYPTED_INVALID_EDATAINFO_FILEOFFSET),
            0xc00004a9 => Some(NtStatusWindows::STATUS_RWRAW_ENCRYPTED_INVALID_EDATAINFO_FILERANGE),
            0xc00004aa => Some(NtStatusWindows::STATUS_RWRAW_ENCRYPTED_INVALID_EDATAINFO_PARAMETER),
            0xc00004ab => Some(NtStatusWindows::STATUS_FT_READ_FAILURE),
            0xc00004ac => Some(NtStatusWindows::STATUS_PATCH_CONFLICT),
            0xc00004ad => Some(NtStatusWindows::STATUS_STORAGE_RESERVE_ID_INVALID),
            0xc00004ae => Some(NtStatusWindows::STATUS_STORAGE_RESERVE_DOES_NOT_EXIST),
            0xc00004af => Some(NtStatusWindows::STATUS_STORAGE_RESERVE_ALREADY_EXISTS),
            0xc00004b0 => Some(NtStatusWindows::STATUS_STORAGE_RESERVE_NOT_EMPTY),
            0xc00004b1 => Some(NtStatusWindows::STATUS_NOT_A_DAX_VOLUME),
            0xc00004b2 => Some(NtStatusWindows::STATUS_NOT_DAX_MAPPABLE),
            _ => None,
        }
    }

    /// One slice of the symbol table: the raw value of this symbol,
    /// where this slice holds it.
    pub open spec fn spec_to_u32_part21(self) -> Option<u32> {
        match self {
            NtStatusWindows::STATUS_CASE_DIFFERING_NAMES_IN_DIR => Some(0xc00004b3),
            NtStatusWindows::STATUS_FILE_NOT_SUPPORTED => Some(0xc00004b4),
            NtStatusWindows::STATUS_NOT_SUPPORTED_WITH_BTT => Some(0xc00004b5),
            NtStatusWindows::STATUS_ENCRYPTION_DISABLED => Some(0xc00004b6),
            NtStatusWindows::STATUS_ENCRYPTING_METADATA_DISALLOWED => Some(0xc00004b7),
            NtStatusWindows::STATUS_CANT_CLEAR_ENCRYPTION_FLAG => Some(0xc00004b8),
            NtStatusWindows::STATUS_UNSATISFIED_DEPENDENCIES => Some(0xc00004b9),
            NtStatusWindows::STATUS_CASE_SENSITIVE_PATH => Some(0xc00004ba),
            NtStatusWindows::STATUS_HAS_SYSTEM_CRITICAL_FILES => Some(0xc00004bd),
            NtStatusWindows::STATUS_INVALID_TASK_NAME => Some(0xc0000500),
            NtStatusWindows::STATUS_INVALID_TASK_INDEX => Some(0xc0000501),
            NtStatusWindows::STATUS_THREAD_ALREADY_IN_TASK => Some(0xc0000502),
            NtStatusWindows::STATUS_CALLBACK_BYPASS => Some(0xc0000503),
            NtStatusWindows::STATUS_UNDEFINED_SCOPE => Some(0xc0000504),
            NtStatusWindows::STATUS_INVALID_CAP => Some(0xc0000505),
            NtStatusWindows::STATUS_NOT_GUI_PROCESS => Some(0xc0000506),
            NtStatusWindows::STATUS_DEVICE_HUNG => Some(0xc0000507),
            NtStatusWindows::STATUS_CONTAINER_ASSIGNED => Some(0xc0000508),
            NtStatusWindows::STATUS_JOB_NO_CONTAINER => Some(0xc0000509),
            NtStatusWindows::STATUS_DEVICE_UNRESPONSIVE => Some(0xc000050a),
            NtStatusWindows::STATUS_REPARSE_POINT_ENCOUNTERED => Some(0xc000050b),
            NtStatusWindows::STATUS_ATTRIBUTE_NOT_PRESENT => Some(0xc000050c),
            NtStatusWindows::STATUS_NOT_A_TIERED_VOLUME => Some(0xc000050d),
            NtStatusWindows::STATUS_ALREADY_HAS_STREAM_ID => Some(0xc000050e),
            NtStatusWindows::STATUS_JOB_NOT_EMPTY => Some(0xc000050f),
            NtStatusWindows::STATUS_ALREADY_INITIALIZED => Some(0xc0000510),
            NtStatusWindows::STATUS_ENCLAVE_NOT_TERMINATED => Some(0xc0000511),
            NtStatusWindows::STATUS_ENCLAVE_IS_TERMINATING => Some(0xc0000512),
            NtStatusWindows::STATUS_SMB1_NOT_AVAILABLE => Some(0xc0000513),
            NtStatusWindows::STATUS_SMR_GARBAGE_COLLECTION_REQUIRED => Some(0xc0000514),
            NtStatusWindows::STATUS_INTERRUPTED => Some(0xc0000515),
            NtStatusWindows::STATUS_THREAD_NOT_RUNNING => Some(0xc0000516),
            NtStatusWindows::STATUS_FAIL_FAST_EXCEPTION => Some(0xc0000602),
            NtStatusWindows::STATUS_IMAGE_CERT_REVOKED => Some(0xc0000603),
            NtStatusWindows::STATUS_DYNAMIC_CODE_BLOCKED => Some(0xc0000604),
            NtStatusWindows::STATUS_IMAGE_CERT_EXPIRED => Some(0xc0000605),
            NtStatusWindows::STATUS_STRICT_CFG_VIOLATION => Some(0xc0000606),
            NtStatusWindows::STATUS_SET_CONTEXT_DENIED => Some(0xc000060a),
            NtStatusWindows::STATUS_CROSS_PARTITION_VIOLATION => Some(0xc000060b),
            NtStatusWindows::STATUS_PORT_CLOSED => Some(0xc0000700),
            NtStatusWindows::STATUS_MESSAGE_LOST => Some(0xc0000701),
            NtStatusWindows::STATUS_INVALID_MESSAGE => Some(0xc0000702),
            NtStatusWindows::STATUS_REQUEST_CANCELED => Some(0xc0000703),
            NtStatusWindows::STATUS_RECURSIVE_DISPATCH => Some(0xc0000704),
            NtStatusWindows::STATUS_LPC_RECEIVE_BUFFER_EXPECTED => Some(0xc0000705),
            NtStatusWindows::STATUS_LPC_INVALID_CONNECTION_USAGE => Some(0xc0000706),
            NtStatusWindows::STATUS_LPC_REQUESTS_NOT_ALLOWED => Some(0xc0000707),
            NtStatusWindows::STATUS_RESOURCE_IN_USE => Some(0xc0000708),
            NtStatusWindows::STATUS_HARDWARE_MEMORY_ERROR => Some(0xc0000709),
            NtStatusWindows::STATUS_THREADPOOL_HANDLE_EXCEPTION => Some(0xc000070a),
            _ => None,
        }
    }

    /// One slice of the symbol table: the symbol this slice gives a
    /// raw value, where it holds one.
    pub open spec fn spec_from_u32_part21(raw: u32) -> Option<NtStatusWindows> {
        match raw {
            0xc00004b3 => Some(NtStatusWindows::STATUS_CASE_DIFFERING_NAMES_IN_DIR),
            0xc00004b4 => Some(NtStatusWindows::STATUS_FILE_NOT_SUPPORTED),
            0xc00004b5 => Some(NtStatusWindows::STATUS_NOT_SUPPORTED_WITH_BTT),
            0xc00004b6 => Some(NtStatusWindows::STATUS_ENCRYPTION_DISABLED),
            0xc00004b7 => Some(NtStatusWindows::STATUS_ENCRYPTING_METADATA_DISALLOWED),
            0xc00004b8 => Some(NtStatusWindows::STATUS_CANT_CLEAR_ENCRYPTION_FLAG),
            0xc00004b9 => Some(NtStatusWindows::STATUS_UNSATISFIED_DEPENDENCIES),
            0xc00004ba => Some(NtStatusWindows::STATUS_CASE_SENSITIVE_PATH),
            0xc00004bd => Some(NtStatusWindows::STATUS_HAS_SYSTEM_CRITICAL_FILES),
            0xc0000500 => Some(NtStatusWindows::STATUS_INVALID_TASK_NAME),
            0xc0000501 => Some(NtStatusWindows::STATUS_INVALID_TASK_INDEX),
            0xc0000502 => Some(NtStatusWindows::STATUS_THREAD_ALREADY_IN_TASK),
            0xc0000503 => Some(NtStatusWindows::STATUS_CALLBACK_BYPASS),
            0xc0000504 => Some(NtStatusWindows::STATUS_UNDEFINED_SCOPE),
            0xc0000505 => Some(NtStatusWindows::STATUS_INVALID_CAP),
            0xc0000506 => Some(NtStatusWindows::STATUS_NOT_GUI_PROCESS),
            0xc0000507 => Some(NtStatusWindows::STATUS_DEVICE_HUNG),
            0xc0000508 => Some(NtStatusWindows::STATUS_CONTAINER_ASSIGNED),
            0xc0000509 => Some(NtStatusWindows::STATUS_JOB_NO_CONTAINER),
            0xc000050a => Some(NtStatusWindows::STATUS_DEVICE_UNRESPONSIVE),
            0xc000050b => Some(NtStatusWindows::STATUS_REPARSE_POINT_ENCOUNTERED),
            0xc000050c => Some(NtStatusWindows::STATUS_ATTRIBUTE_NOT_PRESENT),
            0xc000050d => Some(NtStatusWindows::STATUS_NOT_A_TIERED_VOLUME),
            0xc000050e => Some(NtStatusWindows::STATUS_ALREADY_HAS_STREAM_ID),
            0xc000050f => Some(NtStatusWindows::STATUS_JOB_NOT_EMPTY),
            0xc0000510 => Some(NtStatusWindows::STATUS_ALREADY_INITIALIZED),
            0xc0000511 => Some(NtStatusWindows::STATUS_ENCLAVE_NOT_TERMINATED),
            0xc0000512 => Some(NtStatusWindows::STATUS_ENCLAVE_IS_TERMINATING),
            0xc0000513 => Some(NtStatusWindows::STATUS_SMB1_NOT_AVAILABLE),
            0xc0000514 => Some(NtStatusWindows::STATUS_SMR_GARBAGE_COLLECTION_REQUIRED),
            0xc0000515 => Some(NtStatusWindows::STATUS_INTERRUPTED),
            0xc0000516 => Some(NtStatusWindows::STATUS_THREAD_NOT_RUNNING),
            0xc0000602 => Some(NtStatusWindows::STATUS_FAIL_FAST_EXCEPTION),
            0xc0000603 => Some(NtStatusWindows::STATUS_IMAGE_CERT_REVOKED),
            0xc0000604 => Some(NtStatusWindows::STATUS_DYNAMIC_CODE_BLOCKED),
            0xc0000605 => Some(NtStatusWindows::STATUS_IMAGE_CERT_EXPIRED),
            0xc0000606 => Some(NtStatusWindows::STATUS_STRICT_CFG_VIOLATION),
            0xc000060a => Some(NtStatusWindows::STATUS_SET_CONTEXT_DENIED),
            0xc000060b => Some(NtStatusWindows::STATUS_CROSS_PARTITION_VIOLATION),
            0xc0000700 => Some(NtStatusWindows::STATUS_PORT_CLOSED),
            0xc0000701 => Some(NtStatusWindows::STATUS_MESSAGE_LOST),
            0xc0000702 => Some(NtStatusWindows::STATUS_INVALID_MESSAGE),
            0xc0000703 => Some(NtStatusWindows::STATUS_REQUEST_CANCELED),
            0xc0000704 => Some(NtStatusWindows::STATUS_RECURSIVE_DISPATCH),
            0xc0000705 => Some(NtStatusWindows::STATUS_LPC_RECEIVE_BUFFER_EXPECTED),
            0xc0000706 => Some(NtStatusWindows::STATUS_LPC_INVALID_CONNECTION_USAGE),
            0xc0000707 => Some(NtStatusWindows::STATUS_LPC_REQUESTS_NOT_ALLOWED),
            0xc0000708 => Some(NtStatusWindows::STATUS_RESOURCE_IN_USE),
            0xc0000709 => Some(NtStatusWindows::STATUS_HARDWARE_MEMORY_ERROR),
            0xc000070a => Some(NtStatusWindows::STATUS_THREADPOOL_HANDLE_EXCEPTION),
            _ => None,
        }
    }

    /// One slice of the symbol table.
    #[verifier::spinoff_prover]
    #[verifier::rlimit(100)]
    fn to_u32_part21(self) -> (r: Option<u32>)
        ensures
            r == self.spec_to_u32_part21(),
    {
        match self {
            NtStatusWindows::STATUS_CASE_DIFFERING_NAMES_IN_DIR => Some(0xc00004b3),
            NtStatusWindows::STATUS_FILE_NOT_SUPPORTED => Some(0xc00004b4),
            NtStatusWindows::STATUS_NOT_SUPPORTED_WITH_BTT => Some(0xc00004b5),
            NtStatusWindows::STATUS_ENCRYPTION_DISABLED => Some(0xc00004b6),
            NtStatusWindows::STATUS_ENCRYPTING_METADATA_DISALLOWED => Some(0xc00004b7),
            NtStatusWindows::STATUS_CANT_CLEAR_ENCRYPTION_FLAG => Some(0xc00004b8),
            NtStatusWindows::STATUS_UNSATISFIED_DEPENDENCIES => Some(0xc00004b9),
            NtStatusWindows::STATUS_CASE_SENSITIVE_PATH => Some(0xc00004ba),
            NtStatusWindows::STATUS_HAS_SYSTEM_CRITICAL_FILES => Some(0xc00004bd),
            NtStatusWindows::STATUS_INVALID_TASK_NAME => Some(0xc0000500),
            NtStatusWindows::STATUS_INVALID_TASK_INDEX => Some(0xc0000501),
            NtStatusWindows::STATUS_THREAD_ALREADY_IN_TASK => Some(0xc0000502),
            NtStatusWindows::STATUS_CALLBACK_BYPASS => Some(0xc0000503),
            NtStatusWindows::STATUS_UNDEFINED_SCOPE => Some(0xc0000504),
            NtStatusWindows::STATUS_INVALID_CAP => Some(0xc0000505),
            NtStatusWindows::STATUS_NOT_GUI_PROCESS => Some(0xc0000506),
            NtStatusWindows::STATUS_DEVICE_HUNG => Some(0xc0000507),
            NtStatusWindows::STATUS_CONTAINER_ASSIGNED => Some(0xc0000508),
            NtStatusWindows::STATUS_JOB_NO_CONTAINER => Some(0xc0000509),
            NtStatusWindows::STATUS_DEVICE_UNRESPONSIVE => Some(0xc000050a),
            NtStatusWindows::STATUS_REPARSE_POINT_ENCOUNTERED => Some(0xc000050b),
            NtStatusWindows::STATUS_ATTRIBUTE_NOT_PRESENT => Some(0xc000050c),
            NtStatusWindows::STATUS_NOT_A_TIERED_VOLUME => Some(0xc000050d),
            NtStatusWindows::STATUS_ALREADY_HAS_STREAM_ID => Some(0xc000050e),
            NtStatusWindows::STATUS_JOB_NOT_EMPTY => Some(0xc000050f),
            NtStatusWindows::STATUS_ALREADY_INITIALIZED => Some(0xc0000510),
            NtStatusWindows::STATUS_ENCLAVE_NOT_TERMINATED => Some(0xc0000511),
            NtStatusWindows::STATUS_ENCLAVE_IS_TERMINATING => Some(0xc0000512),
            NtStatusWindows::STATUS_SMB1_NOT_AVAILABLE => Some(0xc0000513),
            NtStatusWindows::STATUS_SMR_GARBAGE_COLLECTION_REQUIRED => Some(0xc0000514),
            NtStatusWindows::STATUS_INTERRUPTED => Some(0xc0000515),
            NtStatusWindows::STATUS_THREAD_NOT_RUNNING => Some(0xc0000516),
            NtStatusWindows::STATUS_FAIL_FAST_EXCEPTION => Some(0xc0000602),
            NtStatusWindows::STATUS_IMAGE_CERT_REVOKED => Some(0xc0000603),
            NtStatusWindows::STATUS_DYNAMIC_CODE_BLOCKED => Some(0xc0000604),
            NtStatusWindows::STATUS_IMAGE_CERT_EXPIRED => Some(0xc0000605),
            NtStatusWindows::STATUS_STRICT_CFG_VIOLATION => Some(0xc0000606),
            NtStatusWindows::STATUS_SET_CONTEXT_DENIED => Some(0xc000060a),
            NtStatusWindows::STATUS_CROSS_PARTITION_VIOLATION => Some(0xc000060b),
            NtStatusWindows::STATUS_PORT_CLOSED => Some(0xc0000700),
            NtStatusWindows::STATUS_MESSAGE_LOST => Some(0xc0000701),
            NtStatusWindows::STATUS_INVALID_MESSAGE => Some(0xc0000702),
            NtStatusWindows::STATUS_REQUEST_CANCELED => Some(0xc0000703),
            NtStatusWindows::STATUS_RECURSIVE_DISPATCH => Some(0xc0000704),
            NtStatusWindows::STATUS_LPC_RECEIVE_BUFFER_EXPECTED => Some(0xc0000705),
            NtStatusWindows::STATUS_LPC_INVALID_CONNECTION_USAGE => Some(0xc0000706),
            NtStatusWindows::STATUS_LPC_REQUESTS_NOT_ALLOWED => Some(0xc0000707),
            NtStatusWindows::STATUS_RESOURCE_IN_USE => Some(0xc0000708),
            NtStatusWindows::STATUS_HARDWARE_MEMORY_ERROR => Some(0xc0000709),
            NtStatusWindows::STATUS_THREADPOOL_HANDLE_EXCEPTION => Some(0xc000070a),
            _ => None,
        }
    }

    /// One slice of the symbol table.
    #[verifier::spinoff_prover]
    #[verifier::rlimit(100)]
    fn from_u32_part21(raw: u32) -> (r: Option<NtStatusWindows>)
        ensures
            r == NtStatusWindows::spec_from_u32_part21(raw),
    {
        match raw {
            0xc00004b3 => Some(NtStatusWindows::STATUS_CASE_DIFFERING_NAMES_IN_DIR),
            0xc00004b4 => Some(NtStatusWindows::STATUS_FILE_NOT_SUPPORTED),
            0xc00004b5 => Some(NtStatusWindows::STATUS_NOT_SUPPORTED_WITH_BTT),
            0xc00004b6 => Some(NtStatusWindows::STATUS_ENCRYPTION_DISABLED),
            0xc00004b7 => Some(NtStatusWindows::STATUS_ENCRYPTING_METADATA_DISALLOWED),
            0xc00004b8 => Some(NtStatusWindows::STATUS_CANT_CLEAR_ENCRYPTION_FLAG),
            0xc00004b9 => Some(NtStatusWindows::STATUS_UNSATISFIED_DEPENDENCIES),
            0xc00004ba => Some(NtStatusWindows::STATUS_CASE_SENSITIVE_PATH),
            0xc00004bd => Some(NtStatusWindows::STATUS_HAS_SYSTEM_CRITICAL_FILES),
            0xc0000500 => Some(NtStatusWindows::STATUS_INVALID_TASK_NAME),
            0xc0000501 => Some(NtStatusWindows::STATUS_INVALID_TASK_INDEX),
            0xc0000502 => Some(NtStatusWindows::STATUS_THREAD_ALREADY_IN_TASK),
            0xc0000503 => Some(NtStatusWindows::STATUS_CALLBACK_BYPASS),
            0xc0000504 => Some(NtStatusWindows::STATUS_UNDEFINED_SCOPE),
            0xc0000505 => Some(NtStatusWindows::STATUS_INVALID_CAP),
            0xc0000506 => Some(NtStatusWindows::STATUS_NOT_GUI_PROCESS),
            0xc0000507 => Some(NtStatusWindows::STATUS_DEVICE_HUNG),
            0xc0000508 => Some(NtStatusWindows::STATUS_CONTAINER_ASSIGNED),
            0xc0000509 => Some(NtStatusWindows::STATUS_JOB_NO_CONTAINER),
            0xc000050a => Some(NtStatusWindows::STATUS_DEVICE_UNRESPONSIVE),
            0xc000050b => Some(NtStatusWindows::STATUS_REPARSE_POINT_ENCOUNTERED),
            0xc000050c => Some(NtStatusWindows::STATUS_ATTRIBUTE_NOT_PRESENT),
            0xc000050d => Some(NtStatusWindows::STATUS_NOT_A_TIERED_VOLUME),
            0xc000050e => Some(NtStatusWindows::STATUS_ALREADY_HAS_STREAM_ID),
            0xc000050f => Some(NtStatusWindows::STATUS_JOB_NOT_EMPTY),
            0xc0000510 => Some(NtStatusWindows::STATUS_ALREADY_INITIALIZED),
            0xc0000511 => Some(NtStatusWindows::STATUS_ENCLAVE_NOT_TERMINATED),
            0xc0000512 => Some(NtStatusWindows::STATUS_ENCLAVE_IS_TERMINATING),
            0xc0000513 => Some(NtStatusWindows::STATUS_SMB1_NOT_AVAILABLE),
            0xc0000514 => Some(NtStatusWindows::STATUS_SMR_GARBAGE_COLLECTION_REQUIRED),
            0xc0000515 => Some(NtStatusWindows::STATUS_INTERRUPTED),
            0xc0000516 => Some(NtStatusWindows::STATUS_THREAD_NOT_RUNNING),
            0xc0000602 => Some(NtStatusWindows::STATUS_FAIL_FAST_EXCEPTION),
            0xc0000603 => Some(NtStatusWindows::STATUS_IMAGE_CERT_REVOKED),
            0xc0000604 => Some(NtStatusWindows::STATUS_DYNAMIC_CODE_BLOCKED),
            0xc0000605 => Some(NtStatusWindows::STATUS_IMAGE_CERT_EXPIRED),
            0xc0000606 => Some(NtStatusWindows::STATUS_STRICT_CFG_VIOLATION),
            0xc000060a => Some(NtStatusWindows::STATUS_SET_CONTEXT_DENIED),
            0xc000060b => Some(NtStatusWindows::STATUS_CROSS_PARTITION_VIOLATION),
            0xc0000700 => Some(NtStatusWindows::STATUS_PORT_CLOSED),
            0xc0000701 => Some(NtStatusWindows::STATUS_MESSAGE_LOST),
            0xc0000702 => Some(NtStatusWindows::STATUS_INVALID_MESSAGE),
            0xc0000703 => Some(NtStatusWindows::STATUS_REQUEST_CANCELED),
            0xc0000704 => Some(NtStatusWindows::STATUS_RECURSIVE_DISPATCH),
            0xc0000705 => Some(NtStatusWindows::STATUS_LPC_RECEIVE_BUFFER_EXPECTED),
            0xc0000706 => Some(NtStatusWindows::STATUS_LPC_INVALID_CONNECTION_USAGE),
            0xc0000707 => Some(NtStatusWindows::STATUS_LPC_REQUESTS_NOT_ALLOWED),
            0xc0000708 => Some(NtStatusWindows::STATUS_RESOURCE_IN_USE),
            0xc0000709 => Some(NtStatusWindows::STATUS_HARDWARE_MEMORY_ERROR),
            0xc000070a => Some(NtStatusWindows::STATUS_THREADPOOL_HANDLE_EXCEPTION),
            _ => None,
        }
    }

    /// One slice of the symbol table: the raw value of this symbol,
    /// where this slice holds it.
    pub open spec fn spec_to_u32_part22(self) -> Option<u32> {
        match self {
            NtStatusWindows::STATUS_THREADPOOL_SET_EVENT_ON_COMPLETION_FAILED => Some(0xc000070b),
            NtStatusWindows::STATUS_THREADPOOL_RELEASE_SEMAPHORE_ON_COMPLETION_FAILED => Some(0xc000070c),
            NtStatusWindows::STATUS_THREADPOOL_RELEASE_MUTEX_ON_COMPLETION_FAILED => Some(0xc000070d),
            NtStatusWindows::STATUS_THREADPOOL_FREE_LIBRARY_ON_COMPLETION_FAILED => Some(0xc000070e),
            NtStatusWindows::STATUS_THREADPOOL_RELEASED_DURING_OPERATION => Some(0xc000070f),
            NtStatusWindows::STATUS_CALLBACK_RETURNED_WHILE_IMPERSONATING => Some(0xc0000710),
            NtStatusWindows::STATUS_APC_RETURNED_WHILE_IMPERSONATING => Some(0xc0000711),
            NtStatusWindows::STATUS_PROCESS_IS_PROTECTED => Some(0xc0000712),
            NtStatusWindows::STATUS_MCA_EXCEPTION => Some(0xc0000713),
            NtStatusWindows::STATUS_CERTIFICATE_MAPPING_NOT_UNIQUE => Some(0xc0000714),
            NtStatusWindows::STATUS_SYMLINK_CLASS_DISABLED => Some(0xc0000715),
            NtStatusWindows::STATUS_INVALID_IDN_NORMALIZATION => Some(0xc0000716),
            NtStatusWindows::STATUS_NO_UNICODE_TRANSLATION => Some(0xc0000717),
            NtStatusWindows::STATUS_ALREADY_REGISTERED => Some(0xc0000718),
            NtStatusWindows::STATUS_CONTEXT_MISMATCH => Some(0xc0000719),
            NtStatusWindows::STATUS_PORT_ALREADY_HAS_COMPLETION_LIST => Some(0xc000071a),
            NtStatusWindows::STATUS_CALLBACK_RETURNED_THREAD_PRIORITY => Some(0xc000071b),
            NtStatusWindows::STATUS_INVALID_THREAD => Some(0xc000071c),
            NtStatusWindows::STATUS_CALLBACK_RETURNED_TRANSACTION => Some(0xc000071d),
            NtStatusWindows::STATUS_CALLBACK_RETURNED_LDR_LOCK => Some(0xc000071e),
            NtStatusWindows::STATUS_CALLBACK_RETURNED_LANG => Some(0xc000071f),
            NtStatusWindows::STATUS_CALLBACK_RETURNED_PRI_BACK => Some(0xc0000720),
            NtStatusWindows::STATUS_CALLBACK_RETURNED_THREAD_AFFINITY => Some(0xc0000721),
            NtStatusWindows::STATUS_LPC_HANDLE_COUNT_EXCEEDED => Some(0xc0000722),
            NtStatusWindows::STATUS_EXECUTABLE_MEMORY_WRITE => Some(0xc0000723),
            NtStatusWindows::STATUS_KERNEL_EXECUTABLE_MEMORY_WRITE => Some(0xc0000724),
            NtStatusWindows::STATUS_ATTACHED_EXECUTABLE_MEMORY_WRITE => Some(0xc0000725),
            NtStatusWindows::STATUS_TRIGGERED_EXECUTABLE_MEMORY_WRITE => Some(0xc0000726),
            NtStatusWindows::STATUS_DISK_REPAIR_DISABLED => Some(0xc0000800),
            NtStatusWindows::STATUS_DS_DOMAIN_RENAME_IN_PROGRESS => Some(0xc0000801),
            NtStatusWindows::STATUS_DISK_QUOTA_EXCEEDED => Some(0xc0000802),
            NtStatusWindows::STATUS_CONTENT_BLOCKED => Some(0xc0000804),
            NtStatusWindows::STATUS_BAD_CLUSTERS => Some(0xc0000805),
            NtStatusWindows::STATUS_VOLUME_DIRTY => Some(0xc0000806),
            NtStatusWindows::STATUS_DISK_REPAIR_UNSUCCESSFUL => Some(0xc0000808),
            NtStatusWindows::STATUS_CORRUPT_LOG_OVERFULL => Some(0xc0000809),
            NtStatusWindows::STATUS_CORRUPT_LOG_CORRUPTED => Some(0xc000080a),
            NtStatusWindows::STATUS_CORRUPT_LOG_UNAVAILABLE => Some(0xc000080b),
            NtStatusWindows::STATUS_CORRUPT_LOG_DELETED_FULL => Some(0xc000080c),
            NtStatusWindows::STATUS_CORRUPT_LOG_CLEARED => Some(0xc000080d),
            NtStatusWindows::STATUS_ORPHAN_NAME_EXHAUSTED => Some(0xc000080e),
            NtStatusWindows::STATUS_PROACTIVE_SCAN_IN_PROGRESS => Some(0xc000080f),
            NtStatusWindows::STATUS_ENCRYPTED_IO_NOT_POSSIBLE => Some(0xc0000810),
            NtStatusWindows::STATUS_CORRUPT_LOG_UPLEVEL_RECORDS => Some(0xc0000811),
            NtStatusWindows::STATUS_FILE_CHECKED_OUT => Some(0xc0000901),
            NtStatusWindows::STATUS_CHECKOUT_REQUIRED => Some(0xc0000902),
            NtStatusWindows::STATUS_BAD_FILE_TYPE => Some(0xc0000903),
            NtStatusWindows::STATUS_FILE_TOO_LARGE => Some(0xc0000904),
            NtStatusWindows::STATUS_FORMS_AUTH_REQUIRED => Some(0xc0000905),
            NtStatusWindows::STATUS_VIRUS_INFECTED => Some(0xc0000906),
            _ => None,
        }
    }

    /// One slice of the symbol table: the symbol this slice gives a
    /// raw value, where it holds one.
    pub open spec fn spec_from_u32_part22(raw: u32) -> Option<NtStatusWindows> {
        match raw {
            0xc000070b => Some(NtStatusWindows::STATUS_THREADPOOL_SET_EVENT_ON_COMPLETION_FAILED),
            0xc000070c => Some(NtStatusWindows::STATUS_THREADPOOL_RELEASE_SEMAPHORE_ON_COMPLETION_FAILED),
            0xc000070d => Some(NtStatusWindows::STATUS_THREADPOOL_RELEASE_MUTEX_ON_COMPLETION_FAILED),
            0xc000070e => Some(NtStatusWindows::STATUS_THREADPOOL_FREE_LIBRARY_ON_COMPLETION_FAILED),
            0xc000070f => Some(NtStatusWindows::STATUS_THREADPOOL_RELEASED_DURING_OPERATION),
            0xc0000710 => Some(NtStatusWindows::STATUS_CALLBACK_RETURNED_WHILE_IMPERSONATING),
            0xc0000711 => Some(NtStatusWindows::STATUS_APC_RETURNED_WHILE_IMPERSONATING),
            0xc0000712 => Some(NtStatusWindows::STATUS_PROCESS_IS_PROTECTED),
            0xc0000713 => Some(NtStatusWindows::STATUS_MCA_EXCEPTION),
            0xc0000714 => Some(NtStatusWindows::STATUS_CERTIFICATE_MAPPING_NOT_UNIQUE),
            0xc0000715 => Some(NtStatusWindows::STATUS_SYMLINK_CLASS_DISABLED),
            0xc0000716 => Some(NtStatusWindows::STATUS_INVALID_IDN_NORMALIZATION),
            0xc0000717 => Some(NtStatusWindows::STATUS_NO_UNICODE_TRANSLATION),
            0xc0000718 => Some(NtStatusWindows::STATUS_ALREADY_REGISTERED),
            0xc0000719 => Some(NtStatusWindows::STATUS_CONTEXT_MISMATCH),
            0xc000071a => Some(NtStatusWindows::STATUS_PORT_ALREADY_HAS_COMPLETION_LIST),
            0xc000071b => Some(NtStatusWindows::STATUS_CALLBACK_RETURNED_THREAD_PRIORITY),
            0xc000071c => Some(NtStatusWindows::STATUS_INVALID_THREAD),
            0xc000071d => Some(NtStatusWindows::STATUS_CALLBACK_RETURNED_TRANSACTION),
            0xc000071e => Some(NtStatusWindows::STATUS_CALLBACK_RETURNED_LDR_LOCK),
            0xc000071f => Some(NtStatusWindows::STATUS_CALLBACK_RETURNED_LANG),
            0xc0000720 => Some(NtStatusWindows::STATUS_CALLBACK_RETURNED_PRI_BACK),
            0xc0000721 => Some(NtStatusWindows::STATUS_CALLBACK_RETURNED_THREAD_AFFINITY),
            0xc0000722 => Some(NtStatusWindows::STATUS_LPC_HANDLE_COUNT_EXCEEDED),
            0xc0000723 => Some(NtStatusWindows::STATUS_EXECUTABLE_MEMORY_WRITE),
            0xc0000724 => Some(NtStatusWindows::STATUS_KERNEL_EXECUTABLE_MEMORY_WRITE),
            0xc0000725 => Some(NtStatusWindows::STATUS_ATTACHED_EXECUTABLE_MEMORY_WRITE),
            0xc0000726 => Some(NtStatusWindows::STATUS_TRIGGERED_EXECUTABLE_MEMORY_WRITE),
            0xc0000800 => Some(NtStatusWindows::STATUS_DISK_REPAIR_DISABLED),
            0xc0000801 => Some(NtStatusWindows::STATUS_DS_DOMAIN_RENAME_IN_PROGRESS),
            0xc0000802 => Some(NtStatusWindows::STATUS_DISK_QUOTA_EXCEEDED),
            0xc0000804 => Some(NtStatusWindows::STATUS_CONTENT_BLOCKED),
            0xc0000805 => Some(NtStatusWindows::STATUS_BAD_CLUSTERS),
            0xc0000806 => Some(NtStatusWindows::STATUS_VOLUME_DIRTY),
            0xc0000808 => Some(NtStatusWindows::STATUS_DISK_REPAIR_UNSUCCESSFUL),
            0xc0000809 => Some(NtStatusWindows::STATUS_CORRUPT_LOG_OVERFULL),
            0xc000080a => Some(NtStatusWindows::STATUS_CORRUPT_LOG_CORRUPTED),
            0xc000080b => Some(NtStatusWindows::STATUS_CORRUPT_LOG_UNAVAILABLE),
            0xc000080c => Some(NtStatusWindows::STATUS_CORRUPT_LOG_DELETED_FULL),
            0xc000080d => Some(NtStatusWindows::STATUS_CORRUPT_LOG_CLEARED),
            0xc000080e => Some(NtStatusWindows::STATUS_ORPHAN_NAME_EXHAUSTED),
            0xc000080f => Some(NtStatusWindows::STATUS_PROACTIVE_SCAN_IN_PROGRESS),
            0xc0000810 => Some(NtStatusWindows::STATUS_ENCRYPTED_IO_NOT_POSSIBLE),
            0xc0000811 => Some(NtStatusWindows::STATUS_CORRUPT_LOG_UPLEVEL_RECORDS),
            0xc0000901 => Some(NtStatusWindows::STATUS_FILE_CHECKED_OUT),
            0xc0000902 => Some(NtStatusWindows::STATUS_CHECKOUT_REQUIRED),
            0xc0000903 => Some(NtStatusWindows::STATUS_BAD_FILE_TYPE),
            0xc0000904 => Some(NtStatusWindows::STATUS_FILE_TOO_LARGE),
            0xc0000905 => Some(NtStatusWindows::STATUS_FORMS_AUTH_REQUIRED),
            0xc0000906 => Some(NtStatusWindows::STATUS_VIRUS_INFECTED),
            _ => None,
        }
    }

    /// One slice of the symbol table.
    #[verifier::spinoff_prover]
    #[verifier::rlimit(100)]
    fn to_u32_part22(self) -> (r: Option<u32>)
        ensures
            r == self.spec_to_u32_part22(),
    {
        match self {
            NtStatusWindows::STATUS_THREADPOOL_SET_EVENT_ON_COMPLETION_FAILED => Some(0xc000070b),
            NtStatusWindows::STATUS_THREADPOOL_RELEASE_SEMAPHORE_ON_COMPLETION_FAILED => Some(0xc000070c),
            NtStatusWindows::STATUS_THREADPOOL_RELEASE_MUTEX_ON_COMPLETION_FAILED => Some(0xc000070d),
            NtStatusWindows::STATUS_THREADPOOL_FREE_LIBRARY_ON_COMPLETION_FAILED => Some(0xc000070e),
            NtStatusWindows::STATUS_THREADPOOL_RELEASED_DURING_OPERATION => Some(0xc000070f),
            NtStatusWindows::STATUS_CALLBACK_RETURNED_WHILE_IMPERSONATING => Some(0xc0000710),
            NtStatusWindows::STATUS_APC_RETURNED_WHILE_IMPERSONATING => Some(0xc0000711),
            NtStatusWindows::STATUS_PROCESS_IS_PROTECTED => Some(0xc0000712),
            NtStatusWindows::STATUS_MCA_EXCEPTION => Some(0xc0000713),
            NtStatusWindows::STATUS_CERTIFICATE_MAPPING_NOT_UNIQUE => Some(0xc0000714),
            NtStatusWindows::STATUS_SYMLINK_CLASS_DISABLED => Some(0xc0000715),
            NtStatusWindows::STATUS_INVALID_IDN_NORMALIZATION => Some(0xc0000716),
            NtStatusWindows::STATUS_NO_UNICODE_TRANSLATION => Some(0xc0000717),
            NtStatusWindows::STATUS_ALREADY_REGISTERED => Some(0xc0000718),
            NtStatusWindows::STATUS_CONTEXT_MISMATCH => Some(0xc0000719),
            NtStatusWindows::STATUS_PORT_ALREADY_HAS_COMPLETION_LIST => Some(0xc000071a),
            NtStatusWindows::STATUS_CALLBACK_RETURNED_THREAD_PRIORITY => Some(0xc000071b),
            NtStatusWindows::STATUS_INVALID_THREAD => Some(0xc000071c),
            NtStatusWindows::STATUS_CALLBACK_RETURNED_TRANSACTION => Some(0xc000071d),
            NtStatusWindows::STATUS_CALLBACK_RETURNED_LDR_LOCK => Some(0xc000071e),
            NtStatusWindows::STATUS_CALLBACK_RETURNED_LANG => Some(0xc000071f),
            NtStatusWindows::STATUS_CALLBACK_RETURNED_PRI_BACK => Some(0xc0000720),
            NtStatusWindows::STATUS_CALLBACK_RETURNED_THREAD_AFFINITY => Some(0xc0000721),
            NtStatusWindows::STATUS_LPC_HANDLE_COUNT_EXCEEDED => Some(0xc0000722),
            NtStatusWindows::STATUS_EXECUTABLE_MEMORY_WRITE => Some(0xc0000723),
            NtStatusWindows::STATUS_KERNEL_EXECUTABLE_MEMORY_WRITE => Some(0xc0000724),
            NtStatusWindows::STATUS_ATTACHED_EXECUTABLE_MEMORY_WRITE => Some(0xc0000725),
            NtStatusWindows::STATUS_TRIGGERED_EXECUTABLE_MEMORY_WRITE => Some(0xc0000726),
            NtStatusWindows::STATUS_DISK_REPAIR_DISABLED => Some(0xc0000800),
            NtStatusWindows::STATUS_DS_DOMAIN_RENAME_IN_PROGRESS => Some(0xc0000801),
            NtStatusWindows::STATUS_DISK_QUOTA_EXCEEDED => Some(0xc0000802),
            NtStatusWindows::STATUS_CONTENT_BLOCKED => Some(0xc0000804),
            NtStatusWindows::STATUS_BAD_CLUSTERS => Some(0xc0000805),
            NtStatusWindows::STATUS_VOLUME_DIRTY => Some(0xc0000806),
            NtStatusWindows::STATUS_DISK_REPAIR_UNSUCCESSFUL => Some(0xc0000808),
            NtStatusWindows::STATUS_CORRUPT_LOG_OVERFULL => Some(0xc0000809),
            NtStatusWindows::STATUS_CORRUPT_LOG_CORRUPTED => Some(0xc000080a),
            NtStatusWindows::STATUS_CORRUPT_LOG_UNAVAILABLE => Some(0xc000080b),
            NtStatusWindows::STATUS_CORRUPT_LOG_DELETED_FULL => Some(0xc000080c),
            NtStatusWindows::STATUS_CORRUPT_LOG_CLEARED => Some(0xc000080d),
            NtStatusWindows::STATUS_ORPHAN_NAME_EXHAUSTED => Some(0xc000080e),
            NtStatusWindows::STATUS_PROACTIVE_SCAN_IN_PROGRESS => Some(0xc000080f),
            NtStatusWindows::STATUS_ENCRYPTED_IO_NOT_POSSIBLE => Some(0xc0000810),
            NtStatusWindows::STATUS_CORRUPT_LOG_UPLEVEL_RECORDS => Some(0xc0000811),
            NtStatusWindows::STATUS_FILE_CHECKED_OUT => Some(0xc0000901),
            NtStatusWindows::STATUS_CHECKOUT_REQUIRED => Some(0xc0000902),
            NtStatusWindows::STATUS_BAD_FILE_TYPE => Some(0xc0000903),
            NtStatusWindows::STATUS_FILE_TOO_LARGE => Some(0xc0000904),
            NtStatusWindows::STATUS_FORMS_AUTH_REQUIRED => Some(0xc0000905),
            NtStatusWindows::STATUS_VIRUS_INFECTED => Some(0xc0000906),
            _ => None,
        }
    }

    /// One slice of the symbol table.
    #[verifier::spinoff_prover]
    #[verifier::rlimit(100)]
    fn from_u32_part22(raw: u32) -> (r: Option<NtStatusWindows>)
        ensures
            r == NtStatusWindows::spec_from_u32_part22(raw),
    {
        match raw {
            0xc000070b => Some(NtStatusWindows::STATUS_THREADPOOL_SET_EVENT_ON_COMPLETION_FAILED),
            0xc000070c => Some(NtStatusWindows::STATUS_THREADPOOL_RELEASE_SEMAPHORE_ON_COMPLETION_FAILED),
            0xc000070d => Some(NtStatusWindows::STATUS_THREADPOOL_RELEASE_MUTEX_ON_COMPLETION_FAILED),
            0xc000070e => Some(NtStatusWindows::STATUS_THREADPOOL_FREE_LIBRARY_ON_COMPLETION_FAILED),
            0xc000070f => Some(NtStatusWindows::STATUS_THREADPOOL_RELEASED_DURING_OPERATION),
            0xc0000710 => Some(NtStatusWindows::STATUS_CALLBACK_RETURNED_WHILE_IMPERSONATING),
            0xc0000711 => Some(NtStatusWindows::STATUS_APC_RETURNED_WHILE_IMPERSONATING),
            0xc0000712 => Some(NtStatusWindows::STATUS_PROCESS_IS_PROTECTED),
            0xc0000713 => Some(NtStatusWindows::STATUS_MCA_EXCEPTION),
            0xc0000714 => Some(NtStatusWindows::STATUS_CERTIFICATE_MAPPING_NOT_UNIQUE),
            0xc0000715 => Some(NtStatusWindows::STATUS_SYMLINK_CLASS_DISABLED),
            0xc0000716 => Some(NtStatusWindows::STATUS_INVALID_IDN_NORMALIZATION),
            0xc0000717 => Some(NtStatusWindows::STATUS_NO_UNICODE_TRANSLATION),
            0xc0000718 => Some(NtStatusWindows::STATUS_ALREADY_REGISTERED),
            0xc0000719 => Some(NtStatusWindows::STATUS_CONTEXT_MISMATCH),
            0xc000071a => Some(NtStatusWindows::STATUS_PORT_ALREADY_HAS_COMPLETION_LIST),
            0xc000071b => Some(NtStatusWindows::STATUS_CALLBACK_RETURNED_THREAD_PRIORITY),
            0xc000071c => Some(NtStatusWindows::STATUS_INVALID_THREAD),
            0xc000071d => Some(NtStatusWindows::STATUS_CALLBACK_RETURNED_TRANSACTION),
            0xc000071e => Some(NtStatusWindows::STATUS_CALLBACK_RETURNED_LDR_LOCK),
            0xc000071f => Some(NtStatusWindows::STATUS_CALLBACK_RETURNED_LANG),
            0xc0000720 => Some(NtStatusWindows::STATUS_CALLBACK_RETURNED_PRI_BACK),
            0xc0000721 => Some(NtStatusWindows::STATUS_CALLBACK_RETURNED_THREAD_AFFINITY),
            0xc0000722 => Some(NtStatusWindows::STATUS_LPC_HANDLE_COUNT_EXCEEDED),
            0xc0000723 => Some(NtStatusWindows::STATUS_EXECUTABLE_MEMORY_WRITE),
            0xc0000724 => Some(NtStatusWindows::STATUS_KERNEL_EXECUTABLE_MEMORY_WRITE),
            0xc0000725 => Some(NtStatusWindows::STATUS_ATTACHED_EXECUTABLE_MEMORY_WRITE),
            0xc0000726 => Some(NtStatusWindows::STATUS_TRIGGERED_EXECUTABLE_MEMORY_WRITE),
            0xc0000800 => Some(NtStatusWindows::STATUS_DISK_REPAIR_DISABLED),
            0xc0000801 => Some(NtStatusWindows::STATUS_DS_DOMAIN_RENAME_IN_PROGRESS),
            0xc0000802 => Some(NtStatusWindows::STATUS_DISK_QUOTA_EXCEEDED),
            0xc0000804 => Some(NtStatusWindows::STATUS_CONTENT_BLOCKED),
            0xc0000805 => Some(NtStatusWindows::STATUS_BAD_CLUSTERS),
            0xc0000806 => Some(NtStatusWindows::STATUS_VOLUME_DIRTY),
            0xc0000808 => Some(NtStatusWindows::STATUS_DISK_REPAIR_UNSUCCESSFUL),
            0xc0000809 => Some(NtStatusWindows::STATUS_CORRUPT_LOG_OVERFULL),
            0xc000080a => Some(NtStatusWindows::STATUS_CORRUPT_LOG_CORRUPTED),
            0xc000080b => Some(NtStatusWindows::STATUS_CORRUPT_LOG_UNAVAILABLE),
            0xc000080c => Some(NtStatusWindows::STATUS_CORRUPT_LOG_DELETED_FULL),
            0xc000080d => Some(NtStatusWindows::STATUS_CORRUPT_LOG_CLEARED),
            0xc000080e => Some(NtStatusWindows::STATUS_ORPHAN_NAME_EXHAUSTED),
            0xc000080f => Some(NtStatusWindows::STATUS_PROACTIVE_SCAN_IN_PROGRESS),
            0xc0000810 => Some(NtStatusWindows::STATUS_ENCRYPTED_IO_NOT_POSSIBLE),
            0xc0000811 => Some(NtStatusWindows::STATUS_CORRUPT_LOG_UPLEVEL_RECORDS),
            0xc0000901 => Some(NtStatusWindows::STATUS_FILE_CHECKED_OUT),
            0xc0000902 => Some(NtStatusWindows::STATUS_CHECKOUT_REQUIRED),
            0xc0000903 => Some(NtStatusWindows::STATUS_BAD_FILE_TYPE),
            0xc0000904 => Some(NtStatusWindows::STATUS_FILE_TOO_LARGE),
            0xc0000905 => Some(NtStatusWindows::STATUS_FORMS_AUTH_REQUIRED),
            0xc0000906 => Some(NtStatusWindows::STATUS_VIRUS_INFECTED),
            _ => None,
        }
    }

    /// One slice of the symbol table: the raw value of this symbol,
    /// where this slice holds it.
    pub open spec fn spec_to_u32_part23(self) -> Option<u32> {
        match self {
            NtStatusWindows::STATUS_VIRUS_DELETED => Some(0xc0000907),
            NtStatusWindows::STATUS_BAD_MCFG_TABLE => Some(0xc0000908),
            NtStatusWindows::STATUS_CANNOT_BREAK_OPLOCK => Some(0xc0000909),
            NtStatusWindows::STATUS_BAD_KEY => Some(0xc000090a),
            NtStatusWindows::STATUS_BAD_DATA => Some(0xc000090b),
            NtStatusWindows::STATUS_NO_KEY => Some(0xc000090c),
            NtStatusWindows::STATUS_FILE_HANDLE_REVOKED => Some(0xc0000910),
            NtStatusWindows::STATUS_WOW_ASSERTION => Some(0xc0009898),
            NtStatusWindows::STATUS_INVALID_SIGNATURE => Some(0xc000a000),
            NtStatusWindows::STATUS_HMAC_NOT_SUPPORTED => Some(0xc000a001),
            NtStatusWindows::STATUS_AUTH_TAG_MISMATCH => Some(0xc000a002),
            NtStatusWindows::STATUS_INVALID_STATE_TRANSITION => Some(0xc000a003),
            NtStatusWindows::STATUS_INVALID_KERNEL_INFO_VERSION => Some(0xc000a004),
            NtStatusWindows::STATUS_INVALID_PEP_INFO_VERSION => Some(0xc000a005),
            NtStatusWindows::STATUS_HANDLE_REVOKED => Some(0xc000a006),
            NtStatusWindows::STATUS_EOF_ON_GHOSTED_RANGE => Some(0xc000a007),
            NtStatusWindows::STATUS_CC_NEEDS_CALLBACK_SECTION_DRAIN => Some(0xc000a008),
            NtStatusWindows::STATUS_IPSEC_QUEUE_OVERFLOW => Some(0xc000a010),
            NtStatusWindows::STATUS_ND_QUEUE_OVERFLOW => Some(0xc000a011),
            NtStatusWindows::STATUS_HOPLIMIT_EXCEEDED => Some(0xc000a012),
            NtStatusWindows::STATUS_PROTOCOL_NOT_SUPPORTED => Some(0xc000a013),
            NtStatusWindows::STATUS_FASTPATH_REJECTED => Some(0xc000a014),
            NtStatusWindows::STATUS_LOST_WRITEBEHIND_DATA_NETWORK_DISCONNECTED => Some(0xc000a080),
            NtStatusWindows::STATUS_LOST_WRITEBEHIND_DATA_NETWORK_SERVER_ERROR => Some(0xc000a081),
            NtStatusWindows::STATUS_LOST_WRITEBEHIND_DATA_LOCAL_DISK_ERROR => Some(0xc000a082),
            NtStatusWindows::STATUS_XML_PARSE_ERROR => Some(0xc000a083),
            NtStatusWindows::STATUS_XMLDSIG_ERROR => Some(0xc000a084),
            NtStatusWindows::STATUS_WRONG_COMPARTMENT => Some(0xc000a085),
            NtStatusWindows::STATUS_AUTHIP_FAILURE => Some(0xc000a086),
            NtStatusWindows::STATUS_DS_OID_MAPPED_GROUP_CANT_HAVE_MEMBERS => Some(0xc000a087),
            NtStatusWindows::STATUS_DS_OID_NOT_FOUND => Some(0xc000a088),
            NtStatusWindows::STATUS_INCORRECT_ACCOUNT_TYPE => Some(0xc000a089),
            NtStatusWindows::STATUS_HASH_NOT_SUPPORTED => Some(0xc000a100),
            NtStatusWindows::STATUS_HASH_NOT_PRESENT => Some(0xc000a101),
            NtStatusWindows::STATUS_SECONDARY_IC_PROVIDER_NOT_REGISTERED => Some(0xc000a121),
            NtStatusWindows::STATUS_GPIO_CLIENT_INFORMATION_INVALID => Some(0xc000a122),
            NtStatusWindows::STATUS_GPIO_VERSION_NOT_SUPPORTED => Some(0xc000a123),
            NtStatusWindows::STATUS_GPIO_INVALID_REGISTRATION_PACKET => Some(0xc000a124),
            NtStatusWindows::STATUS_GPIO_OPERATION_DENIED => Some(0xc000a125),
            NtStatusWindows::STATUS_GPIO_INCOMPATIBLE_CONNECT_MODE => Some(0xc000a126),
            NtStatusWindows::STATUS_CANNOT_SWITCH_RUNLEVEL => Some(0xc000a141),
            NtStatusWindows::STATUS_INVALID_RUNLEVEL_SETTING => Some(0xc000a142),
            NtStatusWindows::STATUS_RUNLEVEL_SWITCH_TIMEOUT => Some(0xc000a143),
            NtStatusWindows::STATUS_RUNLEVEL_SWITCH_AGENT_TIMEOUT => Some(0xc000a145),
            NtStatusWindows::STATUS_RUNLEVEL_SWITCH_IN_PROGRESS => Some(0xc000a146),
            NtStatusWindows::STATUS_NOT_APPCONTAINER => Some(0xc000a200),
            NtStatusWindows::STATUS_NOT_SUPPORTED_IN_APPCONTAINER => Some(0xc000a201),
            NtStatusWindows::STATUS_INVALID_PACKAGE_SID_LENGTH => Some(0xc000a202),
            NtStatusWindows::STATUS_LPAC_ACCESS_DENIED => Some(0xc000a203),
            NtStatusWindows::STATUS_ADMINLESS_ACCESS_DENIED => Some(0xc000a204),
            _ => None,
        }
    }

    /// One slice of the symbol table: the symbol this slice gives a
    /// raw value, where it holds one.
    pub open spec fn spec_from_u32_part23(raw: u32) -> Option<NtStatusWindows> {
        match raw {
            0xc0000907 => Some(NtStatusWindows::STATUS_VIRUS_DELETED),
            0xc0000908 => Some(NtStatusWindows::STATUS_BAD_MCFG_TABLE),
            0xc0000909 => Some(NtStatusWindows::STATUS_CANNOT_BREAK_OPLOCK),
            0xc000090a => Some(NtStatusWindows::STATUS_BAD_KEY),
            0xc000090b => Some(NtStatusWindows::STATUS_BAD_DATA),
            0xc000090c => Some(NtStatusWindows::STATUS_NO_KEY),
            0xc0000910 => Some(NtStatusWindows::STATUS_FILE_HANDLE_REVOKED),
            0xc0009898 => Some(NtStatusWindows::STATUS_WOW_ASSERTION),
            0xc000a000 => Some(NtStatusWindows::STATUS_INVALID_SIGNATURE),
            0xc000a001 => Some(NtStatusWindows::STATUS_HMAC_NOT_SUPPORTED),
            0xc000a002 => Some(NtStatusWindows::STATUS_AUTH_TAG_MISMATCH),
            0xc000a003 => Some(NtStatusWindows::STATUS_INVALID_STATE_TRANSITION),
            0xc000a004 => Some(NtStatusWindows::STATUS_INVALID_KERNEL_INFO_VERSION),
            0xc000a005 => Some(NtStatusWindows::STATUS_INVALID_PEP_INFO_VERSION),
            0xc000a006 => Some(NtStatusWindows::STATUS_HANDLE_REVOKED),
            0xc000a007 => Some(NtStatusWindows::STATUS_EOF_ON_GHOSTED_RANGE),
            0xc000a008 => Some(NtStatusWindows::STATUS_CC_NEEDS_CALLBACK_SECTION_DRAIN),
            0xc000a010 => Some(NtStatusWindows::STATUS_IPSEC_QUEUE_OVERFLOW),
            0xc000a011 => Some(NtStatusWindows::STATUS_ND_QUEUE_OVERFLOW),
            0xc000a012 => Some(NtStatusWindows::STATUS_HOPLIMIT_EXCEEDED),
            0xc000a013 => Some(NtStatusWindows::STATUS_PROTOCOL_NOT_SUPPORTED),
            0xc000a014 => Some(NtStatusWindows::STATUS_FASTPATH_REJECTED),
            0xc000a080 => Some(NtStatusWindows::STATUS_LOST_WRITEBEHIND_DATA_NETWORK_DISCONNECTED),
            0xc000a081 => Some(NtStatusWindows::STATUS_LOST_WRITEBEHIND_DATA_NETWORK_SERVER_ERROR),
            0xc000a082 => Some(NtStatusWindows::STATUS_LOST_WRITEBEHIND_DATA_LOCAL_DISK_ERROR),
            0xc000a083 => Some(NtStatusWindows::STATUS_XML_PARSE_ERROR),
            0xc000a084 => Some(NtStatusWindows::STATUS_XMLDSIG_ERROR),
            0xc000a085 => Some(NtStatusWindows::STATUS_WRONG_COMPARTMENT),
            0xc000a086 => Some(NtStatusWindows::STATUS_AUTHIP_FAILURE),
            0xc000a087 => Some(NtStatusWindows::STATUS_DS_OID_MAPPED_GROUP_CANT_HAVE_MEMBERS),
            0xc000a088 => Some(NtStatusWindows::STATUS_DS_OID_NOT_FOUND),
            0xc000a089 => Some(NtStatusWindows::STATUS_INCORRECT_ACCOUNT_TYPE),
            0xc000a100 => Some(NtStatusWindows::STATUS_HASH_NOT_SUPPORTED),
            0xc000a101 => Some(NtStatusWindows::STATUS_HASH_NOT_PRESENT),
            0xc000a121 => Some(NtStatusWindows::STATUS_SECONDARY_IC_PROVIDER_NOT_REGISTERED),
            0xc000a122 => Some(NtStatusWindows::STATUS_GPIO_CLIENT_INFORMATION_INVALID),
            0xc000a123 => Some(NtStatusWindows::STATUS_GPIO_VERSION_NOT_SUPPORTED),
            0xc000a124 => Some(NtStatusWindows::STATUS_GPIO_INVALID_REGISTRATION_PACKET),
            0xc000a125 => Some(NtStatusWindows::STATUS_GPIO_OPERATION_DENIED),
            0xc000a126 => Some(NtStatusWindows::STATUS_GPIO_INCOMPATIBLE_CONNECT_MODE),
            0xc000a141 => Some(NtStatusWindows::STATUS_CANNOT_SWITCH_RUNLEVEL),
            0xc000a142 => Some(NtStatusWindows::STATUS_INVALID_RUNLEVEL_SETTING),
            0xc000a143 => Some(NtStatusWindows::STATUS_RUNLEVEL_SWITCH_TIMEOUT),
            0xc000a145 => Some(NtStatusWindows::STATUS_RUNLEVEL_SWITCH_AGENT_TIMEOUT),
            0xc000a146 => Some(NtStatusWindows::STATUS_RUNLEVEL_SWITCH_IN_PROGRESS),
            0xc000a200 => Some(NtStatusWindows::STATUS_NOT_APPCONTAINER),
            0xc000a201 => Some(NtStatusWindows::STATUS_NOT_SUPPORTED_IN_APPCONTAINER),
            0xc000a202 => Some(NtStatusWindows::STATUS_INVALID_PACKAGE_SID_LENGTH),
            0xc000a203 => Some(NtStatusWindows::STATUS_LPAC_ACCESS_DENIED),
            0xc000a204 => Some(NtStatusWindows::STATUS_ADMINLESS_ACCESS_DENIED),
            _ => None,
        }
    }

    /// One slice of the symbol table.
    #[verifier::spinoff_prover]
    #[verifier::rlimit(100)]
    fn to_u32_part23(self) -> (r: Option<u32>)
        ensures
            r == self.spec_to_u32_part23(),
    {
        match self {
            NtStatusWindows::STATUS_VIRUS_DELETED => Some(0xc0000907),
            NtStatusWindows::STATUS_BAD_MCFG_TABLE => Some(0xc0000908),
            NtStatusWindows::STATUS_CANNOT_BREAK_OPLOCK => Some(0xc0000909),
            NtStatusWindows::STATUS_BAD_KEY => Some(0xc000090a),
            NtStatusWindows::STATUS_BAD_DATA => Some(0xc000090b),
            NtStatusWindows::STATUS_NO_KEY => Some(0xc000090c),
            NtStatusWindows::STATUS_FILE_HANDLE_REVOKED => Some(0xc0000910),
            NtStatusWindows::STATUS_WOW_ASSERTION => Some(0xc0009898),
            NtStatusWindows::STATUS_INVALID_SIGNATURE => Some(0xc000a000),
            NtStatusWindows::STATUS_HMAC_NOT_SUPPORTED => Some(0xc000a001),
            NtStatusWindows::STATUS_AUTH_TAG_MISMATCH => Some(0xc000a002),
            NtStatusWindows::STATUS_INVALID_STATE_TRANSITION => Some(0xc000a003),
            NtStatusWindows::STATUS_INVALID_KERNEL_INFO_VERSION => Some(0xc000a004),
            NtStatusWindows::STATUS_INVALID_PEP_INFO_VERSION => Some(0xc000a005),
            NtStatusWindows::STATUS_HANDLE_REVOKED => Some(0xc000a006),
            NtStatusWindows::STATUS_EOF_ON_GHOSTED_RANGE => Some(0xc000a007),
            NtStatusWindows::STATUS_CC_NEEDS_CALLBACK_SECTION_DRAIN => Some(0xc000a008),
            NtStatusWindows::STATUS_IPSEC_QUEUE_OVERFLOW => Some(0xc000a010),
            NtStatusWindows::STATUS_ND_QUEUE_OVERFLOW => Some(0xc000a011),
            NtStatusWindows::STATUS_HOPLIMIT_EXCEEDED => Some(0xc000a012),
            NtStatusWindows::STATUS_PROTOCOL_NOT_SUPPORTED => Some(0xc000a013),
            NtStatusWindows::STATUS_FASTPATH_REJECTED => Some(0xc000a014),
            NtStatusWindows::STATUS_LOST_WRITEBEHIND_DATA_NETWORK_DISCONNECTED => Some(0xc000a080),
            NtStatusWindows::STATUS_LOST_WRITEBEHIND_DATA_NETWORK_SERVER_ERROR => Some(0xc000a081),
            NtStatusWindows::STATUS_LOST_WRITEBEHIND_DATA_LOCAL_DISK_ERROR => Some(0xc000a082),
            NtStatusWindows::STATUS_XML_PARSE_ERROR => Some(0xc000a083),
            NtStatusWindows::STATUS_XMLDSIG_ERROR => Some(0xc000a084),
            NtStatusWindows::STATUS_WRONG_COMPARTMENT => Some(0xc000a085),
            NtStatusWindows::STATUS_AUTHIP_FAILURE => Some(0xc000a086),
            NtStatusWindows::STATUS_DS_OID_MAPPED_GROUP_CANT_HAVE_MEMBERS => Some(0xc000a087),
            NtStatusWindows::STATUS_DS_OID_NOT_FOUND => Some(0xc000a088),
            NtStatusWindows::STATUS_INCORRECT_ACCOUNT_TYPE => Some(0xc000a089),
            NtStatusWindows::STATUS_HASH_NOT_SUPPORTED => Some(0xc000a100),
            NtStatusWindows::STATUS_HASH_NOT_PRESENT => Some(0xc000a101),
            NtStatusWindows::STATUS_SECONDARY_IC_PROVIDER_NOT_REGISTERED => Some(0xc000a121),
            NtStatusWindows::STATUS_GPIO_CLIENT_INFORMATION_INVALID => Some(0xc000a122),
            NtStatusWindows::STATUS_GPIO_VERSION_NOT_SUPPORTED => Some(0xc000a123),
            NtStatusWindows::STATUS_GPIO_INVALID_REGISTRATION_PACKET => Some(0xc000a124),
            NtStatusWindows::STATUS_GPIO_OPERATION_DENIED => Some(0xc000a125),
            NtStatusWindows::STATUS_GPIO_INCOMPATIBLE_CONNECT_MODE => Some(0xc000a126),
            NtStatusWindows::STATUS_CANNOT_SWITCH_RUNLEVEL => Some(0xc000a141),
            NtStatusWindows::STATUS_INVALID_RUNLEVEL_SETTING => Some(0xc000a142),
            NtStatusWindows::STATUS_RUNLEVEL_SWITCH_TIMEOUT => Some(0xc000a143),
            NtStatusWindows::STATUS_RUNLEVEL_SWITCH_AGENT_TIMEOUT => Some(0xc000a145),
            NtStatusWindows::STATUS_RUNLEVEL_SWITCH_IN_PROGRESS => Some(0xc000a146),
            NtStatusWindows::STATUS_NOT_APPCONTAINER => Some(0xc000a200),
            NtStatusWindows::STATUS_NOT_SUPPORTED_IN_APPCONTAINER => Some(0xc000a201),
            NtStatusWindows::STATUS_INVALID_PACKAGE_SID_LENGTH => Some(0xc000a202),
            NtStatusWindows::STATUS_LPAC_ACCESS_DENIED => Some(0xc000a203),
            NtStatusWindows::STATUS_ADMINLESS_ACCESS_DENIED => Some(0xc000a204),
            _ => None,
        }
    }

    /// One slice of the symbol table.
    #[verifier::spinoff_prover]
    #[verifier::rlimit(100)]
    fn from_u32_part23(raw: u32) -> (r: Option<NtStatusWindows>)
        ensures
            r == NtStatusWindows::spec_from_u32_part23(raw),
    {
        match raw {
            0xc0000907 => Some(NtStatusWindows::STATUS_VIRUS_DELETED),
            0xc0000908 => Some(NtStatusWindows::STATUS_BAD_MCFG_TABLE),
            0xc0000909 => Some(NtStatusWindows::STATUS_CANNOT_BREAK_OPLOCK),
            0xc000090a => Some(NtStatusWindows::STATUS_BAD_KEY),
            0xc000090b => Some(NtStatusWindows::STATUS_BAD_DATA),
            0xc000090c => Some(NtStatusWindows::STATUS_NO_KEY),
            0xc0000910 => Some(NtStatusWindows::STATUS_FILE_HANDLE_REVOKED),
            0xc0009898 => Some(NtStatusWindows::STATUS_WOW_ASSERTION),
            0xc000a000 => Some(NtStatusWindows::STATUS_INVALID_SIGNATURE),
            0xc000a001 => Some(NtStatusWindows::STATUS_HMAC_NOT_SUPPORTED),
            0xc000a002 => Some(NtStatusWindows::STATUS_AUTH_TAG_MISMATCH),
            0xc000a003 => Some(NtStatusWindows::STATUS_INVALID_STATE_TRANSITION),
            0xc000a004 => Some(NtStatusWindows::STATUS_INVALID_KERNEL_INFO_VERSION),
            0xc000a005 => Some(NtStatusWindows::STATUS_INVALID_PEP_INFO_VERSION),
            0xc000a006 => Some(NtStatusWindows::STATUS_HANDLE_REVOKED),
            0xc000a007 => Some(NtStatusWindows::STATUS_EOF_ON_GHOSTED_RANGE),
            0xc000a008 => Some(NtStatusWindows::STATUS_CC_NEEDS_CALLBACK_SECTION_DRAIN),
            0xc000a010 => Some(NtStatusWindows::STATUS_IPSEC_QUEUE_OVERFLOW),
            0xc000a011 => Some(NtStatusWindows::STATUS_ND_QUEUE_OVERFLOW),
            0xc000a012 => Some(NtStatusWindows::STATUS_HOPLIMIT_EXCEEDED),
            0xc000a013 => Some(NtStatusWindows::STATUS_PROTOCOL_NOT_SUPPORTED),
            0xc000a014 => Some(NtStatusWindows::STATUS_FASTPATH_REJECTED),
            0xc000a080 => Some(NtStatusWindows::STATUS_LOST_WRITEBEHIND_DATA_NETWORK_DISCONNECTED),
            0xc000a081 => Some(NtStatusWindows::STATUS_LOST_WRITEBEHIND_DATA_NETWORK_SERVER_ERROR),
            0xc000a082 => Some(NtStatusWindows::STATUS_LOST_WRITEBEHIND_DATA_LOCAL_DISK_ERROR),
            0xc000a083 => Some(NtStatusWindows::STATUS_XML_PARSE_ERROR),
            0xc000a084 => Some(NtStatusWindows::STATUS_XMLDSIG_ERROR),
            0xc000a085 => Some(NtStatusWindows::STATUS_WRONG_COMPARTMENT),
            0xc000a086 => Some(NtStatusWindows::STATUS_AUTHIP_FAILURE),
            0xc000a087 => Some(NtStatusWindows::STATUS_DS_OID_MAPPED_GROUP_CANT_HAVE_MEMBERS),
            0xc000a088 => Some(NtStatusWindows::STATUS_DS_OID_NOT_FOUND),
            0xc000a089 => Some(NtStatusWindows::STATUS_INCORRECT_ACCOUNT_TYPE),
            0xc000a100 => Some(NtStatusWindows::STATUS_HASH_NOT_SUPPORTED),
            0xc000a101 => Some(NtStatusWindows::STATUS_HASH_NOT_PRESENT),
            0xc000a121 => Some(NtStatusWindows::STATUS_SECONDARY_IC_PROVIDER_NOT_REGISTERED),
            0xc000a122 => Some(NtStatusWindows::STATUS_GPIO_CLIENT_INFORMATION_INVALID),
            0xc000a123 => Some(NtStatusWindows::STATUS_GPIO_VERSION_NOT_SUPPORTED),
            0xc000a124 => Some(NtStatusWindows::STATUS_GPIO_INVALID_REGISTRATION_PACKET),
            0xc000a125 => Some(NtStatusWindows::STATUS_GPIO_OPERATION_DENIED),
            0xc000a126 => Some(NtStatusWindows::STATUS_GPIO_INCOMPATIBLE_CONNECT_MODE),
            0xc000a141 => Some(NtStatusWindows::STATUS_CANNOT_SWITCH_RUNLEVEL),
            0xc000a142 => Some(NtStatusWindows::STATUS_INVALID_RUNLEVEL_SETTING),
            0xc000a143 => Some(NtStatusWindows::STATUS_RUNLEVEL_SWITCH_TIMEOUT),
            0xc000a145 => Some(NtStatusWindows::STATUS_RUNLEVEL_SWITCH_AGENT_TIMEOUT),
            0xc000a146 => Some(NtStatusWindows::STATUS_RUNLEVEL_SWITCH_IN_PROGRESS),
            0xc000a200 => Some(NtStatusWindows::STATUS_NOT_APPCONTAINER),
            0xc000a201 => Some(NtStatusWindows::STATUS_NOT_SUPPORTED_IN_APPCONTAINER),
            0xc000a202 => Some(NtStatusWindows::STATUS_INVALID_PACKAGE_SID_LENGTH),
            0xc000a203 => Some(NtStatusWindows::STATUS_LPAC_ACCESS_DENIED),
            0xc000a204 => Some(NtStatusWindows::STATUS_ADMINLESS_ACCESS_DENIED),
            _ => None,
        }
    }

    /// One slice of the symbol table: the raw value of this symbol,
    /// where this slice holds it.
    pub open spec fn spec_to_u32_part24(self) -> Option<u32> {
        match self {
            NtStatusWindows::STATUS_APP_DATA_NOT_FOUND => Some(0xc000a281),
            NtStatusWindows::STATUS_APP_DATA_EXPIRED => Some(0xc000a282),
            NtStatusWindows::STATUS_APP_DATA_CORRUPT => Some(0xc000a283),
            NtStatusWindows::STATUS_APP_DATA_LIMIT_EXCEEDED => Some(0xc000a284),
            NtStatusWindows::STATUS_APP_DATA_REBOOT_REQUIRED => Some(0xc000a285),
            NtStatusWindows::STATUS_OFFLOAD_READ_FLT_NOT_SUPPORTED => Some(0xc000a2a1),
            NtStatusWindows::STATUS_OFFLOAD_WRITE_FLT_NOT_SUPPORTED => Some(0xc000a2a2),
            NtStatusWindows::STATUS_OFFLOAD_READ_FILE_NOT_SUPPORTED => Some(0xc000a2a3),
            NtStatusWindows::STATUS_OFFLOAD_WRITE_FILE_NOT_SUPPORTED => Some(0xc000a2a4),
            NtStatusWindows::STATUS_WOF_WIM_HEADER_CORRUPT => Some(0xc000a2a5),
            NtStatusWindows::STATUS_WOF_WIM_RESOURCE_TABLE_CORRUPT => Some(0xc000a2a6),
            NtStatusWindows::STATUS_WOF_FILE_RESOURCE_TABLE_CORRUPT => Some(0xc000a2a7),
            NtStatusWindows::STATUS_CIMFS_IMAGE_CORRUPT => Some(0xc000c001),
            NtStatusWindows::STATUS_FILE_SYSTEM_VIRTUALIZATION_UNAVAILABLE => Some(0xc000ce01),
            NtStatusWindows::STATUS_FILE_SYSTEM_VIRTUALIZATION_METADATA_CORRUPT => Some(0xc000ce02),
            NtStatusWindows::STATUS_FILE_SYSTEM_VIRTUALIZATION_BUSY => Some(0xc000ce03),
            NtStatusWindows::STATUS_FILE_SYSTEM_VIRTUALIZATION_PROVIDER_UNKNOWN => Some(0xc000ce04),
            NtStatusWindows::STATUS_FILE_SYSTEM_VIRTUALIZATION_INVALID_OPERATION => Some(0xc000ce05),
            NtStatusWindows::STATUS_CLOUD_FILE_SYNC_ROOT_METADATA_CORRUPT => Some(0xc000cf00),
            NtStatusWindows::STATUS_CLOUD_FILE_PROVIDER_NOT_RUNNING => Some(0xc000cf01),
            NtStatusWindows::STATUS_CLOUD_FILE_METADATA_CORRUPT => Some(0xc000cf02),
            NtStatusWindows::STATUS_CLOUD_FILE_METADATA_TOO_LARGE => Some(0xc000cf03),
            NtStatusWindows::STATUS_CLOUD_FILE_PROPERTY_VERSION_NOT_SUPPORTED => Some(0xc000cf06),
            NtStatusWindows::STATUS_NOT_A_CLOUD_FILE => Some(0xc000cf07),
            NtStatusWindows::STATUS_CLOUD_FILE_NOT_IN_SYNC => Some(0xc000cf08),
            NtStatusWindows::STATUS_CLOUD_FILE_ALREADY_CONNECTED => Some(0xc000cf09),
            NtStatusWindows::STATUS_CLOUD_FILE_NOT_SUPPORTED => Some(0xc000cf0a),
            NtStatusWindows::STATUS_CLOUD_FILE_INVALID_REQUEST => Some(0xc000cf0b),
            NtStatusWindows::STATUS_CLOUD_FILE_READ_ONLY_VOLUME => Some(0xc000cf0c),
            NtStatusWindows::STATUS_CLOUD_FILE_CONNECTED_PROVIDER_ONLY => Some(0xc000cf0d),
            NtStatusWindows::STATUS_CLOUD_FILE_VALIDATION_FAILED => Some(0xc000cf0e),
            NtStatusWindows::STATUS_CLOUD_FILE_AUTHENTICATION_FAILED => Some(0xc000cf0f),
            NtStatusWindows::STATUS_CLOUD_FILE_INSUFFICIENT_RESOURCES => Some(0xc000cf10),
            NtStatusWindows::STATUS_CLOUD_FILE_NETWORK_UNAVAILABLE => Some(0xc000cf11),
            NtStatusWindows::STATUS_CLOUD_FILE_UNSUCCESSFUL => Some(0xc000cf12),
            NtStatusWindows::STATUS_CLOUD_FILE_NOT_UNDER_SYNC_ROOT => Some(0xc000cf13),
            NtStatusWindows::STATUS_CLOUD_FILE_IN_USE => Some(0xc000cf14),
            NtStatusWindows::STATUS_CLOUD_FILE_PINNED => Some(0xc000cf15),
            NtStatusWindows::STATUS_CLOUD_FILE_REQUEST_ABORTED => Some(0xc000cf16),
            NtStatusWindows::STATUS_CLOUD_FILE_PROPERTY_CORRUPT => Some(0xc000cf17),
            NtStatusWindows::STATUS_CLOUD_FILE_ACCESS_DENIED => Some(0xc000cf18),
            NtStatusWindows::STATUS_CLOUD_FILE_INCOMPATIBLE_HARDLINKS => Some(0xc000cf19),
            NtStatusWindows::STATUS_CLOUD_FILE_PROPERTY_LOCK_CONFLICT => Some(0xc000cf1a),
            NtStatusWindows::STATUS_CLOUD_FILE_REQUEST_CANCELED => Some(0xc000cf1b),
            NtStatusWindows::STATUS_CLOUD_FILE_PROVIDER_TERMINATED => Some(0xc000cf1d),
            NtStatusWindows::STATUS_NOT_A_CLOUD_SYNC_ROOT => Some(0xc000cf1e),
            NtStatusWindows::STATUS_CLOUD_FILE_REQUEST_TIMEOUT => Some(0xc000cf1f),
            NtStatusWindows::STATUS_CLOUD_FILE_DEHYDRATION_DISALLOWED => Some(0xc000cf20),
            NtStatusWindows::STATUS_FILE_SNAP_IN_PROGRESS => Some(0xc000f500),
            NtStatusWindows::STATUS_FILE_SNAP_USER_SECTION_NOT_SUPPORTED => Some(0xc000f501),
            _ => None,
        }
    }

    /// One slice of the symbol table: the symbol this slice gives a
    /// raw value, where it holds one.
    pub open spec fn spec_from_u32_part24(raw: u32) -> Option<NtStatusWindows> {
        match raw {
            0xc000a281 => Some(NtStatusWindows::STATUS_APP_DATA_NOT_FOUND),
            0xc000a282 => Some(NtStatusWindows::STATUS_APP_DATA_EXPIRED),
            0xc000a283 => Some(NtStatusWindows::STATUS_APP_DATA_CORRUPT),
            0xc000a284 => Some(NtStatusWindows::STATUS_APP_DATA_LIMIT_EXCEEDED),
            0xc000a285 => Some(NtStatusWindows::STATUS_APP_DATA_REBOOT_REQUIRED),
            0xc000a2a1 => Some(NtStatusWindows::STATUS_OFFLOAD_READ_FLT_NOT_SUPPORTED),
            0xc000a2a2 => Some(NtStatusWindows::STATUS_OFFLOAD_WRITE_FLT_NOT_SUPPORTED),
            0xc000a2a3 => Some(NtStatusWindows::STATUS_OFFLOAD_READ_FILE_NOT_SUPPORTED),
            0xc000a2a4 => Some(NtStatusWindows::STATUS_OFFLOAD_WRITE_FILE_NOT_SUPPORTED),
            0xc000a2a5 => Some(NtStatusWindows::STATUS_WOF_WIM_HEADER_CORRUPT),
            0xc000a2a6 => Some(NtStatusWindows::STATUS_WOF_WIM_RESOURCE_TABLE_CORRUPT),
            0xc000a2a7 => Some(NtStatusWindows::STATUS_WOF_FILE_RESOURCE_TABLE_CORRUPT),
            0xc000c001 => Some(NtStatusWindows::STATUS_CIMFS_IMAGE_CORRUPT),
            0xc000ce01 => Some(NtStatusWindows::STATUS_FILE_SYSTEM_VIRTUALIZATION_UNAVAILABLE),
            0xc000ce02 => Some(NtStatusWindows::STATUS_FILE_SYSTEM_VIRTUALIZATION_METADATA_CORRUPT),
            0xc000ce03 => Some(NtStatusWindows::STATUS_FILE_SYSTEM_VIRTUALIZATION_BUSY),
            0xc000ce04 => Some(NtStatusWindows::STATUS_FILE_SYSTEM_VIRTUALIZATION_PROVIDER_UNKNOWN),
            0xc000ce05 => Some(NtStatusWindows::STATUS_FILE_SYSTEM_VIRTUALIZATION_INVALID_OPERATION),
            0xc000cf00 => Some(NtStatusWindows::STATUS_CLOUD_FILE_SYNC_ROOT_METADATA_CORRUPT),
            0xc000cf01 => Some(NtStatusWindows::STATUS_CLOUD_FILE_PROVIDER_NOT_RUNNING),
            0xc000cf02 => Some(NtStatusWindows::STATUS_CLOUD_FILE_METADATA_CORRUPT),
            0xc000cf03 => Some(NtStatusWindows::STATUS_CLOUD_FILE_METADATA_TOO_LARGE),
            0xc000cf06 => Some(NtStatusWindows::STATUS_CLOUD_FILE_PROPERTY_VERSION_NOT_SUPPORTED),
            0xc000cf07 => Some(NtStatusWindows::STATUS_NOT_A_CLOUD_FILE),
            0xc000cf08 => Some(NtStatusWindows::STATUS_CLOUD_FILE_NOT_IN_SYNC),
            0xc000cf09 => Some(NtStatusWindows::STATUS_CLOUD_FILE_ALREADY_CONNECTED),
            0xc000cf0a => Some(NtStatusWindows::STATUS_CLOUD_FILE_NOT_SUPPORTED),
            0xc000cf0b => Some(NtStatusWindows::STATUS_CLOUD_FILE_INVALID_REQUEST),
            0xc000cf0c => Some(NtStatusWindows::STATUS_CLOUD_FILE_READ_ONLY_VOLUME),
            0xc000cf0d => Some(NtStatusWindows::STATUS_CLOUD_FILE_CONNECTED_PROVIDER_ONLY),
            0xc000cf0e => Some(NtStatusWindows::STATUS_CLOUD_FILE_VALIDATION_FAILED),
            0xc000cf0f => Some(NtStatusWindows::STATUS_CLOUD_FILE_AUTHENTICATION_FAILED),
            0xc000cf10 => Some(NtStatusWindows::STATUS_CLOUD_FILE_INSUFFICIENT_RESOURCES),
            0xc000cf11 => Some(NtStatusWindows::STATUS_CLOUD_FILE_NETWORK_UNAVAILABLE),
            0xc000cf12 => Some(NtStatusWindows::STATUS_CLOUD_FILE_UNSUCCESSFUL),
            0xc000cf13 => Some(NtStatusWindows::STATUS_CLOUD_FILE_NOT_UNDER_SYNC_ROOT),
            0xc000cf14 => Some(NtStatusWindows::STATUS_CLOUD_FILE_IN_USE),
            0xc000cf15 => Some(NtStatusWindows::STATUS_CLOUD_FILE_PINNED),
            0xc000cf16 => Some(NtStatusWindows::STATUS_CLOUD_FILE_REQUEST_ABORTED),
            0xc000cf17 => Some(NtStatusWindows::STATUS_CLOUD_FILE_PROPERTY_CORRUPT),
            0xc000cf18 => Some(NtStatusWindows::STATUS_CLOUD_FILE_ACCESS_DENIED),
            0xc000cf19 => Some(NtStatusWindows::STATUS_CLOUD_FILE_INCOMPATIBLE_HARDLINKS),
            0xc000cf1a => Some(NtStatusWindows::STATUS_CLOUD_FILE_PROPERTY_LOCK_CONFLICT),
            0xc000cf1b => Some(NtStatusWindows::STATUS_CLOUD_FILE_REQUEST_CANCELED),
            0xc000cf1d => Some(NtStatusWindows::STATUS_CLOUD_FILE_PROVIDER_TERMINATED),
            0xc000cf1e => Some(NtStatusWindows::STATUS_NOT_A_CLOUD_SYNC_ROOT),
            0xc000cf1f => Some(NtStatusWindows::STATUS_CLOUD_FILE_REQUEST_TIMEOUT),
            0xc000cf20 => Some(NtStatusWindows::STATUS_CLOUD_FILE_DEHYDRATION_DISALLOWED),
            0xc000f500 => Some(NtStatusWindows::STATUS_FILE_SNAP_IN_PROGRESS),
            0xc000f501 => Some(NtStatusWindows::STATUS_FILE_SNAP_USER_SECTION_NOT_SUPPORTED),
            _ => None,
        }
    }

    /// One slice of the symbol table.
    #[verifier::spinoff_prover]
    #[verifier::rlimit(100)]
    fn to_u32_part24(self) -> (r: Option<u32>)
        ensures
            r == self.spec_to_u32_part24(),
    {
        match self {
            NtStatusWindows::STATUS_APP_DATA_NOT_FOUND => Some(0xc000a281),
            NtStatusWindows::STATUS_APP_DATA_EXPIRED => Some(0xc000a282),
            NtStatusWindows::STATUS_APP_DATA_CORRUPT => Some(0xc000a283),
            NtStatusWindows::STATUS_APP_DATA_LIMIT_EXCEEDED => Some(0xc000a284),
            NtStatusWindows::STATUS_APP_DATA_REBOOT_REQUIRED => Some(0xc000a285),
            NtStatusWindows::STATUS_OFFLOAD_READ_FLT_NOT_SUPPORTED => Some(0xc000a2a1),
            NtStatusWindows::STATUS_OFFLOAD_WRITE_FLT_NOT_SUPPORTED => Some(0xc000a2a2),
            NtStatusWindows::STATUS_OFFLOAD_READ_FILE_NOT_SUPPORTED => Some(0xc000a2a3),
            NtStatusWindows::STATUS_OFFLOAD_WRITE_FILE_NOT_SUPPORTED => Some(0xc000a2a4),
            NtStatusWindows::STATUS_WOF_WIM_HEADER_CORRUPT => Some(0xc000a2a5),
            NtStatusWindows::STATUS_WOF_WIM_RESOURCE_TABLE_CORRUPT => Some(0xc000a2a6),
            NtStatusWindows::STATUS_WOF_FILE_RESOURCE_TABLE_CORRUPT => Some(0xc000a2a7),
            NtStatusWindows::STATUS_CIMFS_IMAGE_CORRUPT => Some(0xc000c001),
            NtStatusWindows::STATUS_FILE_SYSTEM_VIRTUALIZATION_UNAVAILABLE => Some(0xc000ce01),
            NtStatusWindows::STATUS_FILE_SYSTEM_VIRTUALIZATION_METADATA_CORRUPT => Some(0xc000ce02),
            NtStatusWindows::STATUS_FILE_SYSTEM_VIRTUALIZATION_BUSY => Some(0xc000ce03),
            NtStatusWindows::STATUS_FILE_SYSTEM_VIRTUALIZATION_PROVIDER_UNKNOWN => Some(0xc000ce04),
            NtStatusWindows::STATUS_FILE_SYSTEM_VIRTUALIZATION_INVALID_OPERATION => Some(0xc000ce05),
            NtStatusWindows::STATUS_CLOUD_FILE_SYNC_ROOT_METADATA_CORRUPT => Some(0xc000cf00),
            NtStatusWindows::STATUS_CLOUD_FILE_PROVIDER_NOT_RUNNING => Some(0xc000cf01),
            NtStatusWindows::STATUS_CLOUD_FILE_METADATA_CORRUPT => Some(0xc000cf02),
            NtStatusWindows::STATUS_CLOUD_FILE_METADATA_TOO_LARGE => Some(0xc000cf03),
            NtStatusWindows::STATUS_CLOUD_FILE_PROPERTY_VERSION_NOT_SUPPORTED => Some(0xc000cf06),
            NtStatusWindows::STATUS_NOT_A_CLOUD_FILE => Some(0xc000cf07),
            NtStatusWindows::STATUS_CLOUD_FILE_NOT_IN_SYNC => Some(0xc000cf08),
            NtStatusWindows::STATUS_CLOUD_FILE_ALREADY_CONNECTED => Some(0xc000cf09),
            NtStatusWindows::STATUS_CLOUD_FILE_NOT_SUPPORTED => Some(0xc000cf0a),
            NtStatusWindows::STATUS_CLOUD_FILE_INVALID_REQUEST => Some(0xc000cf0b),
            NtStatusWindows::STATUS_CLOUD_FILE_READ_ONLY_VOLUME => Some(0xc000cf0c),
            NtStatusWindows::STATUS_CLOUD_FILE_CONNECTED_PROVIDER_ONLY => Some(0xc000cf0d),
            NtStatusWindows::STATUS_CLOUD_FILE_VALIDATION_FAILED => Some(0xc000cf0e),
            NtStatusWindows::STATUS_CLOUD_FILE_AUTHENTICATION_FAILED => Some(0xc000cf0f),
            NtStatusWindows::STATUS_CLOUD_FILE_INSUFFICIENT_RESOURCES => Some(0xc000cf10),
            NtStatusWindows::STATUS_CLOUD_FILE_NETWORK_UNAVAILABLE => Some(0xc000cf11),
            NtStatusWindows::STATUS_CLOUD_FILE_UNSUCCESSFUL => Some(0xc000cf12),
            NtStatusWindows::STATUS_CLOUD_FILE_NOT_UNDER_SYNC_ROOT => Some(0xc000cf13),
            NtStatusWindows::STATUS_CLOUD_FILE_IN_USE => Some(0xc000cf14),
            NtStatusWindows::STATUS_CLOUD_FILE_PINNED => Some(0xc000cf15),
            NtStatusWindows::STATUS_CLOUD_FILE_REQUEST_ABORTED => Some(0xc000cf16),
            NtStatusWindows::STATUS_CLOUD_FILE_PROPERTY_CORRUPT => Some(0xc000cf17),
            NtStatusWindows::STATUS_CLOUD_FILE_ACCESS_DENIED => Some(0xc000cf18),
            NtStatusWindows::STATUS_CLOUD_FILE_INCOMPATIBLE_HARDLINKS => Some(0xc000cf19),
            NtStatusWindows::STATUS_CLOUD_FILE_PROPERTY_LOCK_CONFLICT => Some(0xc000cf1a),
            NtStatusWindows::STATUS_CLOUD_FILE_REQUEST_CANCELED => Some(0xc000cf1b),
            NtStatusWindows::STATUS_CLOUD_FILE_PROVIDER_TERMINATED => Some(0xc000cf1d),
            NtStatusWindows::STATUS_NOT_A_CLOUD_SYNC_ROOT => Some(0xc000cf1e),
            NtStatusWindows::STATUS_CLOUD_FILE_REQUEST_TIMEOUT => Some(0xc000cf1f),
            NtStatusWindows::STATUS_CLOUD_FILE_DEHYDRATION_DISALLOWED => Some(0xc000cf20),
            NtStatusWindows::STATUS_FILE_SNAP_IN_PROGRESS => Some(0xc000f500),
            NtStatusWindows::STATUS_FILE_SNAP_USER_SECTION_NOT_SUPPORTED => Some(0xc000f501),
            _ => None,
        }
    }

    /// One slice of the symbol table.
    #[verifier::spinoff_prover]
    #[verifier::rlimit(100)]
    fn from_u32_part24(raw: u32) -> (r: Option<NtStatusWindows>)
        ensures
            r == NtStatusWindows::spec_from_u32_part24(raw),
    {
        match raw {
            0xc000a281 => Some(NtStatusWindows::STATUS_APP_DATA_NOT_FOUND),
            0xc000a282 => Some(NtStatusWindows::STATUS_APP_DATA_EXPIRED),
            0xc000a283 => Some(NtStatusWindows::STATUS_APP_DATA_CORRUPT),
            0xc000a284 => Some(NtStatusWindows::STATUS_APP_DATA_LIMIT_EXCEEDED),
            0xc000a285 => Some(NtStatusWindows::STATUS_APP_DATA_REBOOT_REQUIRED),
            0xc000a2a1 => Some(NtStatusWindows::STATUS_OFFLOAD_READ_FLT_NOT_SUPPORTED),
            0xc000a2a2 => Some(NtStatusWindows::STATUS_OFFLOAD_WRITE_FLT_NOT_SUPPORTED),
            0xc000a2a3 => Some(NtStatusWindows::STATUS_OFFLOAD_READ_FILE_NOT_SUPPORTED),
            0xc000a2a4 => Some(NtStatusWindows::STATUS_OFFLOAD_WRITE_FILE_NOT_SUPPORTED),
            0xc000a2a5 => Some(NtStatusWindows::STATUS_WOF_WIM_HEADER_CORRUPT),
            0xc000a2a6 => Some(NtStatusWindows::STATUS_WOF_WIM_RESOURCE_TABLE_CORRUPT),
            0xc000a2a7 => Some(NtStatusWindows::STATUS_WOF_FILE_RESOURCE_TABLE_CORRUPT),
            0xc000c001 => Some(NtStatusWindows::STATUS_CIMFS_IMAGE_CORRUPT),
            0xc000ce01 => Some(NtStatusWindows::STATUS_FILE_SYSTEM_VIRTUALIZATION_UNAVAILABLE),
            0xc000ce02 => Some(NtStatusWindows::STATUS_FILE_SYSTEM_VIRTUALIZATION_METADATA_CORRUPT),
            0xc000ce03 => Some(NtStatusWindows::STATUS_FILE_SYSTEM_VIRTUALIZATION_BUSY),
            0xc000ce04 => Some(NtStatusWindows::STATUS_FILE_SYSTEM_VIRTUALIZATION_PROVIDER_UNKNOWN),
            0xc000ce05 => Some(NtStatusWindows::STATUS_FILE_SYSTEM_VIRTUALIZATION_INVALID_OPERATION),
            0xc000cf00 => Some(NtStatusWindows::STATUS_CLOUD_FILE_SYNC_ROOT_METADATA_CORRUPT),
            0xc000cf01 => Some(NtStatusWindows::STATUS_CLOUD_FILE_PROVIDER_NOT_RUNNING),
            0xc000cf02 => Some(NtStatusWindows::STATUS_CLOUD_FILE_METADATA_CORRUPT),
            0xc000cf03 => Some(NtStatusWindows::STATUS_CLOUD_FILE_METADATA_TOO_LARGE),
            0xc000cf06 => Some(NtStatusWindows::STATUS_CLOUD_FILE_PROPERTY_VERSION_NOT_SUPPORTED),
            0xc000cf07 => Some(NtStatusWindows::STATUS_NOT_A_CLOUD_FILE),
            0xc000cf08 => Some(NtStatusWindows::STATUS_CLOUD_FILE_NOT_IN_SYNC),
            0xc000cf09 => Some(NtStatusWindows::STATUS_CLOUD_FILE_ALREADY_CONNECTED),
            0xc000cf0a => Some(NtStatusWindows::STATUS_CLOUD_FILE_NOT_SUPPORTED),
            0xc000cf0b => Some(NtStatusWindows::STATUS_CLOUD_FILE_INVALID_REQUEST),
            0xc000cf0c => Some(NtStatusWindows::STATUS_CLOUD_FILE_READ_ONLY_VOLUME),
            0xc000cf0d => Some(NtStatusWindows::STATUS_CLOUD_FILE_CONNECTED_PROVIDER_ONLY),
            0xc000cf0e => Some(NtStatusWindows::STATUS_CLOUD_FILE_VALIDATION_FAILED),
            0xc000cf0f => Some(NtStatusWindows::STATUS_CLOUD_FILE_AUTHENTICATION_FAILED),
            0xc000cf10 => Some(NtStatusWindows::STATUS_CLOUD_FILE_INSUFFICIENT_RESOURCES),
            0xc000cf11 => Some(NtStatusWindows::STATUS_CLOUD_FILE_NETWORK_UNAVAILABLE),
            0xc000cf12 => Some(NtStatusWindows::STATUS_CLOUD_FILE_UNSUCCESSFUL),
            0xc000cf13 => Some(NtStatusWindows::STATUS_CLOUD_FILE_NOT_UNDER_SYNC_ROOT),
            0xc000cf14 => Some(NtStatusWindows::STATUS_CLOUD_FILE_IN_USE),
            0xc000cf15 => Some(NtStatusWindows::STATUS_CLOUD_FILE_PINNED),
            0xc000cf16 => Some(NtStatusWindows::STATUS_CLOUD_FILE_REQUEST_ABORTED),
            0xc000cf17 => Some(NtStatusWindows::STATUS_CLOUD_FILE_PROPERTY_CORRUPT),
            0xc000cf18 => Some(NtStatusWindows::STATUS_CLOUD_FILE_ACCESS_DENIED),
            0xc000cf19 => Some(NtStatusWindows::STATUS_CLOUD_FILE_INCOMPATIBLE_HARDLINKS),
            0xc000cf1a => Some(NtStatusWindows::STATUS_CLOUD_FILE_PROPERTY_LOCK_CONFLICT),
            0xc000cf1b => Some(NtStatusWindows::STATUS_CLOUD_FILE_REQUEST_CANCELED),
            0xc000cf1d => Some(NtStatusWindows::STATUS_CLOUD_FILE_PROVIDER_TERMINATED),
            0xc000cf1e => Some(NtStatusWindows::STATUS_NOT_A_CLOUD_SYNC_ROOT),
            0xc000cf1f => Some(NtStatusWindows::STATUS_CLOUD_FILE_REQUEST_TIMEOUT),
            0xc000cf20 => Some(NtStatusWindows::STATUS_CLOUD_FILE_DEHYDRATION_DISALLOWED),
            0xc000f500 => Some(NtStatusWindows::STATUS_FILE_SNAP_IN_PROGRESS),
            0xc000f501 => Some(NtStatusWindows::STATUS_FILE_SNAP_USER_SECTION_NOT_SUPPORTED),
            _ => None,
        }
    }

    /// One slice of the symbol table: the raw value of this symbol,
    /// where this slice holds it.
    pub open spec fn spec_to_u32_part25(self) -> Option<u32> {
        match self {
            NtStatusWindows::STATUS_FILE_SNAP_MODIFY_NOT_SUPPORTED => Some(0xc000f502),
            NtStatusWindows::STATUS_FILE_SNAP_IO_NOT_COORDINATED => Some(0xc000f503),
            NtStatusWindows::STATUS_FILE_SNAP_UNEXPECTED_ERROR => Some(0xc000f504),
            NtStatusWindows::STATUS_FILE_SNAP_INVALID_PARAMETER => Some(0xc000f505),
            NtStatusWindows::DBG_NO_STATE_CHANGE => Some(0xc0010001),
            NtStatusWindows::DBG_APP_NOT_IDLE => Some(0xc0010002),
            NtStatusWindows::RPC_NT_INVALID_STRING_BINDING => Some(0xc0020001),
            NtStatusWindows::RPC_NT_WRONG_KIND_OF_BINDING => Some(0xc0020002),
            NtStatusWindows::RPC_NT_INVALID_BINDING => Some(0xc0020003),
            NtStatusWindows::RPC_NT_PROTSEQ_NOT_SUPPORTED => Some(0xc0020004),
            NtStatusWindows::RPC_NT_INVALID_RPC_PROTSEQ => Some(0xc0020005),
            NtStatusWindows::RPC_NT_INVALID_STRING_UUID => Some(0xc0020006),
            NtStatusWindows::RPC_NT_INVALID_ENDPOINT_FORMAT => Some(0xc0020007),
            NtStatusWindows::RPC_NT_INVALID_NET_ADDR => Some(0xc0020008),
            NtStatusWindows::RPC_NT_NO_ENDPOINT_FOUND => Some(0xc0020009),
            NtStatusWindows::RPC_NT_INVALID_TIMEOUT => Some(0xc002000a),
            NtStatusWindows::RPC_NT_OBJECT_NOT_FOUND => Some(0xc002000b),
            NtStatusWindows::RPC_NT_ALREADY_REGISTERED => Some(0xc002000c),
            NtStatusWindows::RPC_NT_TYPE_ALREADY_REGISTERED => Some(0xc002000d),
            NtStatusWindows::RPC_NT_ALREADY_LISTENING => Some(0xc002000e),
            NtStatusWindows::RPC_NT_NO_PROTSEQS_REGISTERED => Some(0xc002000f),
            NtStatusWindows::RPC_NT_NOT_LISTENING => Some(0xc0020010),
            NtStatusWindows::RPC_NT_UNKNOWN_MGR_TYPE => Some(0xc0020011),
            NtStatusWindows::RPC_NT_UNKNOWN_IF => Some(0xc0020012),
            NtStatusWindows::RPC_NT_NO_BINDINGS => Some(0xc0020013),
            NtStatusWindows::RPC_NT_NO_PROTSEQS => Some(0xc0020014),
            NtStatusWindows::RPC_NT_CANT_CREATE_ENDPOINT => Some(0xc0020015),
            NtStatusWindows::RPC_NT_OUT_OF_RESOURCES => Some(0xc0020016),
            NtStatusWindows::RPC_NT_SERVER_UNAVAILABLE => Some(0xc0020017),
            NtStatusWindows::RPC_NT_SERVER_TOO_BUSY => Some(0xc0020018),
            NtStatusWindows::RPC_NT_INVALID_NETWORK_OPTIONS => Some(0xc0020019),
            NtStatusWindows::RPC_NT_NO_CALL_ACTIVE => Some(0xc002001a),
            NtStatusWindows::RPC_NT_CALL_FAILED => Some(0xc002001b),
            NtStatusWindows::RPC_NT_CALL_FAILED_DNE => Some(0xc002001c),
            NtStatusWindows::RPC_NT_PROTOCOL_ERROR => Some(0xc002001d),
            NtStatusWindows::RPC_NT_UNSUPPORTED_TRANS_SYN => Some(0xc002001f),
            NtStatusWindows::RPC_NT_UNSUPPORTED_TYPE => Some(0xc0020021),
            NtStatusWindows::RPC_NT_INVALID_TAG => Some(0xc0020022),
            NtStatusWindows::RPC_NT_INVALID_BOUND => Some(0xc0020023),
            NtStatusWindows::RPC_NT_NO_ENTRY_NAME => Some(0xc0020024),
            NtStatusWindows::RPC_NT_INVALID_NAME_SYNTAX => Some(0xc0020025),
            NtStatusWindows::RPC_NT_UNSUPPORTED_NAME_SYNTAX => Some(0xc0020026),
            NtStatusWindows::RPC_NT_UUID_NO_ADDRESS => Some(0xc0020028),
            NtStatusWindows::RPC_NT_DUPLICATE_ENDPOINT => Some(0xc0020029),
            NtStatusWindows::RPC_NT_UNKNOWN_AUTHN_TYPE => Some(0xc002002a),
            NtStatusWindows::RPC_NT_MAX_CALLS_TOO_SMALL => Some(0xc002002b),
            NtStatusWindows::RPC_NT_STRING_TOO_LONG => Some(0xc002002c),
            NtStatusWindows::RPC_NT_PROTSEQ_NOT_FOUND => Some(0xc002002d),
            NtStatusWindows::RPC_NT_PROCNUM_OUT_OF_RANGE => Some(0xc002002e),
            NtStatusWindows::RPC_NT_BINDING_HAS_NO_AUTH => Some(0xc002002f),
            _ => None,
        }
    }

    /// One slice of the symbol table: the symbol this slice gives a
    /// raw value, where it holds one.
    pub open spec fn spec_from_u32_part25(raw: u32) -> Option<NtStatusWindows> {
        match raw {
            0xc000f502 => Some(NtStatusWindows::STATUS_FILE_SNAP_MODIFY_NOT_SUPPORTED),
            0xc000f503 => Some(NtStatusWindows::STATUS_FILE_SNAP_IO_NOT_COORDINATED),
            0xc000f504 => Some(NtStatusWindows::STATUS_FILE_SNAP_UNEXPECTED_ERROR),
            0xc000f505 => Some(NtStatusWindows::STATUS_FILE_SNAP_INVALID_PARAMETER),
            0xc0010001 => Some(NtStatusWindows::DBG_NO_STATE_CHANGE),
            0xc0010002 => Some(NtStatusWindows::DBG_APP_NOT_IDLE),
            0xc0020001 => Some(NtStatusWindows::RPC_NT_INVALID_STRING_BINDING),
            0xc0020002 => Some(NtStatusWindows::RPC_NT_WRONG_KIND_OF_BINDING),
            0xc0020003 => Some(NtStatusWindows::RPC_NT_INVALID_BINDING),
            0xc0020004 => Some(NtStatusWindows::RPC_NT_PROTSEQ_NOT_SUPPORTED),
            0xc0020005 => Some(NtStatusWindows::RPC_NT_INVALID_RPC_PROTSEQ),
            0xc0020006 => Some(NtStatusWindows::RPC_NT_INVALID_STRING_UUID),
            0xc0020007 => Some(NtStatusWindows::RPC_NT_INVALID_ENDPOINT_FORMAT),
            0xc0020008 => Some(NtStatusWindows::RPC_NT_INVALID_NET_ADDR),
            0xc0020009 => Some(NtStatusWindows::RPC_NT_NO_ENDPOINT_FOUND),
            0xc002000a => Some(NtStatusWindows::RPC_NT_INVALID_TIMEOUT),
            0xc002000b => Some(NtStatusWindows::RPC_NT_OBJECT_NOT_FOUND),
            0xc002000c => Some(NtStatusWindows::RPC_NT_ALREADY_REGISTERED),
            0xc002000d => Some(NtStatusWindows::RPC_NT_TYPE_ALREADY_REGISTERED),
            0xc002000e => Some(NtStatusWindows::RPC_NT_ALREADY_LISTENING),
            0xc002000f => Some(NtStatusWindows::RPC_NT_NO_PROTSEQS_REGISTERED),
            0xc0020010 => Some(NtStatusWindows::RPC_NT_NOT_LISTENING),
            0xc0020011 => Some(NtStatusWindows::RPC_NT_UNKNOWN_MGR_TYPE),
            0xc0020012 => Some(NtStatusWindows::RPC_NT_UNKNOWN_IF),
            0xc0020013 => Some(NtStatusWindows::RPC_NT_NO_BINDINGS),
            0xc0020014 => Some(NtStatusWindows::RPC_NT_NO_PROTSEQS),
            0xc0020015 => Some(NtStatusWindows::RPC_NT_CANT_CREATE_ENDPOINT),
            0xc0020016 => Some(NtStatusWindows::RPC_NT_OUT_OF_RESOURCES),
            0xc0020017 => Some(NtStatusWindows::RPC_NT_SERVER_UNAVAILABLE),
            0xc0020018 => Some(NtStatusWindows::RPC_NT_SERVER_TOO_BUSY),
            0xc0020019 => Some(NtStatusWindows::RPC_NT_INVALID_NETWORK_OPTIONS),
            0xc002001a => Some(NtStatusWindows::RPC_NT_NO_CALL_ACTIVE),
            0xc002001b => Some(NtStatusWindows::RPC_NT_CALL_FAILED),
            0xc002001c => Some(NtStatusWindows::RPC_NT_CALL_FAILED_DNE),
            0xc002001d => Some(NtStatusWindows::RPC_NT_PROTOCOL_ERROR),
            0xc002001f => Some(NtStatusWindows::RPC_NT_UNSUPPORTED_TRANS_SYN),
            0xc0020021 => Some(NtStatusWindows::RPC_NT_UNSUPPORTED_TYPE),
            0xc0020022 => Some(NtStatusWindows::RPC_NT_INVALID_TAG),
            0xc0020023 => Some(NtStatusWindows::RPC_NT_INVALID_BOUND),
            0xc0020024 => Some(NtStatusWindows::RPC_NT_NO_ENTRY_NAME),
            0xc0020025 => Some(NtStatusWindows::RPC_NT_INVALID_NAME_SYNTAX),
            0xc0020026 => Some(NtStatusWindows::RPC_NT_UNSUPPORTED_NAME_SYNTAX),
            0xc0020028 => Some(NtStatusWindows::RPC_NT_UUID_NO_ADDRESS),
            0xc0020029 => Some(NtStatusWindows::RPC_NT_DUPLICATE_ENDPOINT),
            0xc002002a => Some(NtStatusWindows::RPC_NT_UNKNOWN_AUTHN_TYPE),
            0xc002002b => Some(NtStatusWindows::RPC_NT_MAX_CALLS_TOO_SMALL),
            0xc002002c => Some(NtStatusWindows::RPC_NT_STRING_TOO_LONG),
            0xc002002d => Some(NtStatusWindows::RPC_NT_PROTSEQ_NOT_FOUND),
            0xc002002e => Some(NtStatusWindows::RPC_NT_PROCNUM_OUT_OF_RANGE),
            0xc002002f => Some(NtStatusWindows::RPC_NT_BINDING_HAS_NO_AUTH),
            _ => None,
        }
    }

    /// One slice of the symbol table.
    #[verifier::spinoff_prover]
    #[verifier::rlimit(100)]
    fn to_u32_part25(self) -> (r: Option<u32>)
        ensures
            r == self.spec_to_u32_part25(),
    {
        match self {
            NtStatusWindows::STATUS_FILE_SNAP_MODIFY_NOT_SUPPORTED => Some(0xc000f502),
            NtStatusWindows::STATUS_FILE_SNAP_IO_NOT_COORDINATED => Some(0xc000f503),
            NtStatusWindows::STATUS_FILE_SNAP_UNEXPECTED_ERROR => Some(0xc000f504),
            NtStatusWindows::STATUS_FILE_SNAP_INVALID_PARAMETER => Some(0xc000f505),
            NtStatusWindows::DBG_NO_STATE_CHANGE => Some(0xc0010001),
            NtStatusWindows::DBG_APP_NOT_IDLE => Some(0xc0010002),
            NtStatusWindows::RPC_NT_INVALID_STRING_BINDING => Some(0xc0020001),
            NtStatusWindows::RPC_NT_WRONG_KIND_OF_BINDING => Some(0xc0020002),
            NtStatusWindows::RPC_NT_INVALID_BINDING => Some(0xc0020003),
            NtStatusWindows::RPC_NT_PROTSEQ_NOT_SUPPORTED => Some(0xc0020004),
            NtStatusWindows::RPC_NT_INVALID_RPC_PROTSEQ => Some(0xc0020005),
            NtStatusWindows::RPC_NT_INVALID_STRING_UUID => Some(0xc0020006),
            NtStatusWindows::RPC_NT_INVALID_ENDPOINT_FORMAT => Some(0xc0020007),
            NtStatusWindows::RPC_NT_INVALID_NET_ADDR => Some(0xc0020008),
            NtStatusWindows::RPC_NT_NO_ENDPOINT_FOUND => Some(0xc0020009),
            NtStatusWindows::RPC_NT_INVALID_TIMEOUT => Some(0xc002000a),
            NtStatusWindows::RPC_NT_OBJECT_NOT_FOUND => Some(0xc002000b),
            NtStatusWindows::RPC_NT_ALREADY_REGISTERED => Some(0xc002000c),
            NtStatusWindows::RPC_NT_TYPE_ALREADY_REGISTERED => Some(0xc002000d),
            NtStatusWindows::RPC_NT_ALREADY_LISTENING => Some(0xc002000e),
            NtStatusWindows::RPC_NT_NO_PROTSEQS_REGISTERED => Some(0xc002000f),
            NtStatusWindows::RPC_NT_NOT_LISTENING => Some(0xc0020010),
            NtStatusWindows::RPC_NT_UNKNOWN_MGR_TYPE => Some(0xc0020011),
            NtStatusWindows::RPC_NT_UNKNOWN_IF => Some(0xc0020012),
            NtStatusWindows::RPC_NT_NO_BINDINGS => Some(0xc0020013),
            NtStatusWindows::RPC_NT_NO_PROTSEQS => Some(0xc0020014),
            NtStatusWindows::RPC_NT_CANT_CREATE_ENDPOINT => Some(0xc0020015),
            NtStatusWindows::RPC_NT_OUT_OF_RESOURCES => Some(0xc0020016),
            NtStatusWindows::RPC_NT_SERVER_UNAVAILABLE => Some(0xc0020017),
            NtStatusWindows::RPC_NT_SERVER_TOO_BUSY => Some(0xc0020018),
            NtStatusWindows::RPC_NT_INVALID_NETWORK_OPTIONS => Some(0xc0020019),
            NtStatusWindows::RPC_NT_NO_CALL_ACTIVE => Some(0xc002001a),
            NtStatusWindows::RPC_NT_CALL_FAILED => Some(0xc002001b),
            NtStatusWindows::RPC_NT_CALL_FAILED_DNE => Some(0xc002001c),
            NtStatusWindows::RPC_NT_PROTOCOL_ERROR => Some(0xc002001d),
            NtStatusWindows::RPC_NT_UNSUPPORTED_TRANS_SYN => Some(0xc002001f),
            NtStatusWindows::RPC_NT_UNSUPPORTED_TYPE => Some(0xc0020021),
            NtStatusWindows::RPC_NT_INVALID_TAG => Some(0xc0020022),
            NtStatusWindows::RPC_NT_INVALID_BOUND => Some(0xc0020023),
            NtStatusWindows::RPC_NT_NO_ENTRY_NAME => Some(0xc0020024),
            NtStatusWindows::RPC_NT_INVALID_NAME_SYNTAX => Some(0xc0020025),
            NtStatusWindows::RPC_NT_UNSUPPORTED_NAME_SYNTAX => Some(0xc0020026),
            NtStatusWindows::RPC_NT_UUID_NO_ADDRESS => Some(0xc0020028),
            NtStatusWindows::RPC_NT_DUPLICATE_ENDPOINT => Some(0xc0020029),
            NtStatusWindows::RPC_NT_UNKNOWN_AUTHN_TYPE => Some(0xc002002a),
            NtStatusWindows::RPC_NT_MAX_CALLS_TOO_SMALL => Some(0xc002002b),
            NtStatusWindows::RPC_NT_STRING_TOO_LONG => Some(0xc002002c),
            NtStatusWindows::RPC_NT_PROTSEQ_NOT_FOUND => Some(0xc002002d),
            NtStatusWindows::RPC_NT_PROCNUM_OUT_OF_RANGE => Some(0xc002002e),
            NtStatusWindows::RPC_NT_BINDING_HAS_NO_AUTH => Some(0xc002002f),
            _ => None,
        }
    }

    /// One slice of the symbol table.
    #[verifier::spinoff_prover]
    #[verifier::rlimit(100)]
    fn from_u32_part25(raw: u32) -> (r: Option<NtStatusWindows>)
        ensures
            r == NtStatusWindows::spec_from_u32_part25(raw),
    {
        match raw {
            0xc000f502 => Some(NtStatusWindows::STATUS_FILE_SNAP_MODIFY_NOT_SUPPORTED),
            0xc000f503 => Some(NtStatusWindows::STATUS_FILE_SNAP_IO_NOT_COORDINATED),
            0xc000f504 => Some(NtStatusWindows::STATUS_FILE_SNAP_UNEXPECTED_ERROR),
            0xc000f505 => Some(NtStatusWindows::STATUS_FILE_SNAP_INVALID_PARAMETER),
            0xc0010001 => Some(NtStatusWindows::DBG_NO_STATE_CHANGE),
            0xc0010002 => Some(NtStatusWindows::DBG_APP_NOT_IDLE),
            0xc0020001 => Some(NtStatusWindows::RPC_NT_INVALID_STRING_BINDING),
            0xc0020002 => Some(NtStatusWindows::RPC_NT_WRONG_KIND_OF_BINDING),
            0xc0020003 => Some(NtStatusWindows::RPC_NT_INVALID_BINDING),
            0xc0020004 => Some(NtStatusWindows::RPC_NT_PROTSEQ_NOT_SUPPORTED),
            0xc0020005 => Some(NtStatusWindows::RPC_NT_INVALID_RPC_PROTSEQ),
            0xc0020006 => Some(NtStatusWindows::RPC_NT_INVALID_STRING_UUID),
            0xc0020007 => Some(NtStatusWindows::RPC_NT_INVALID_ENDPOINT_FORMAT),
            0xc0020008 => Some(NtStatusWindows::RPC_NT_INVALID_NET_ADDR),
            0xc0020009 => Some(NtStatusWindows::RPC_NT_NO_ENDPOINT_FOUND),
            0xc002000a => Some(NtStatusWindows::RPC_NT_INVALID_TIMEOUT),
            0xc002000b => Some(NtStatusWindows::RPC_NT_OBJECT_NOT_FOUND),
            0xc002000c => Some(NtStatusWindows::RPC_NT_ALREADY_REGISTERED),
            0xc002000d => Some(NtStatusWindows::RPC_NT_TYPE_ALREADY_REGISTERED),
            0xc002000e => Some(NtStatusWindows::RPC_NT_ALREADY_LISTENING),
            0xc002000f => Some(NtStatusWindows::RPC_NT_NO_PROTSEQS_REGISTERED),
            0xc0020010 => Some(NtStatusWindows::RPC_NT_NOT_LISTENING),
            0xc0020011 => Some(NtStatusWindows::RPC_NT_UNKNOWN_MGR_TYPE),
            0xc0020012 => Some(NtStatusWindows::RPC_NT_UNKNOWN_IF),
            0xc0020013 => Some(NtStatusWindows::RPC_NT_NO_BINDINGS),
            0xc0020014 => Some(NtStatusWindows::RPC_NT_NO_PROTSEQS),
            0xc0020015 => Some(NtStatusWindows::RPC_NT_CANT_CREATE_ENDPOINT),
            0xc0020016 => Some(NtStatusWindows::RPC_NT_OUT_OF_RESOURCES),
            0xc0020017 => Some(NtStatusWindows::RPC_NT_SERVER_UNAVAILABLE),
            0xc0020018 => Some(NtStatusWindows::RPC_NT_SERVER_TOO_BUSY),
            0xc0020019 => Some(NtStatusWindows::RPC_NT_INVALID_NETWORK_OPTIONS),
            0xc002001a => Some(NtStatusWindows::RPC_NT_NO_CALL_ACTIVE),
            0xc002001b => Some(NtStatusWindows::RPC_NT_CALL_FAILED),
            0xc002001c => Some(NtStatusWindows::RPC_NT_CALL_FAILED_DNE),
            0xc002001d => Some(NtStatusWindows::RPC_NT_PROTOCOL_ERROR),
            0xc002001f => Some(NtStatusWindows::RPC_NT_UNSUPPORTED_TRANS_SYN),
            0xc0020021 => Some(NtStatusWindows::RPC_NT_UNSUPPORTED_TYPE),
            0xc0020022 => Some(NtStatusWindows::RPC_NT_INVALID_TAG),
            0xc0020023 => Some(NtStatusWindows::RPC_NT_INVALID_BOUND),
            0xc0020024 => Some(NtStatusWindows::RPC_NT_NO_ENTRY_NAME),
            0xc0020025 => Some(NtStatusWindows::RPC_NT_INVALID_NAME_SYNTAX),
            0xc0020026 => Some(NtStatusWindows::RPC_NT_UNSUPPORTED_NAME_SYNTAX),
            0xc0020028 => Some(NtStatusWindows::RPC_NT_UUID_NO_ADDRESS),
            0xc0020029 => Some(NtStatusWindows::RPC_NT_DUPLICATE_ENDPOINT),
            0xc002002a => Some(NtStatusWindows::RPC_NT_UNKNOWN_AUTHN_TYPE),
            0xc002002b => Some(NtStatusWindows::RPC_NT_MAX_CALLS_TOO_SMALL),
            0xc002002c => Some(NtStatusWindows::RPC_NT_STRING_TOO_LONG),
            0xc002002d => Some(NtStatusWindows::RPC_NT_PROTSEQ_NOT_FOUND),
            0xc002002e => Some(NtStatusWindows::RPC_NT_PROCNUM_OUT_OF_RANGE),
            0xc002002f => Some(NtStatusWindows::RPC_NT_BINDING_HAS_NO_AUTH),
            _ => None,
        }
    }

    /// One slice of the symbol table: the raw value of this symbol,
    /// where this slice holds it.
    pub open spec fn spec_to_u32_part26(self) -> Option<u32> {
        match self {
            NtStatusWindows::RPC_NT_UNKNOWN_AUTHN_SERVICE => Some(0xc0020030),
            NtStatusWindows::RPC_NT_UNKNOWN_AUTHN_LEVEL => Some(0xc0020031),
            NtStatusWindows::RPC_NT_INVALID_AUTH_IDENTITY => Some(0xc0020032),
            NtStatusWindows::RPC_NT_UNKNOWN_AUTHZ_SERVICE => Some(0xc0020033),
            NtStatusWindows::EPT_NT_INVALID_ENTRY => Some(0xc0020034),
            NtStatusWindows::EPT_NT_CANT_PERFORM_OP => Some(0xc0020035),
            NtStatusWindows::EPT_NT_NOT_REGISTERED => Some(0xc0020036),
            NtStatusWindows::RPC_NT_NOTHING_TO_EXPORT => Some(0xc0020037),
            NtStatusWindows::RPC_NT_INCOMPLETE_NAME => Some(0xc0020038),
            NtStatusWindows::RPC_NT_INVALID_VERS_OPTION => Some(0xc0020039),
            NtStatusWindows::RPC_NT_NO_MORE_MEMBERS => Some(0xc002003a),
            NtStatusWindows::RPC_NT_NOT_ALL_OBJS_UNEXPORTED => Some(0xc002003b),
            NtStatusWindows::RPC_NT_INTERFACE_NOT_FOUND => Some(0xc002003c),
            NtStatusWindows::RPC_NT_ENTRY_ALREADY_EXISTS => Some(0xc002003d),
            NtStatusWindows::RPC_NT_ENTRY_NOT_FOUND => Some(0xc002003e),
            NtStatusWindows::RPC_NT_NAME_SERVICE_UNAVAILABLE => Some(0xc002003f),
            NtStatusWindows::RPC_NT_INVALID_NAF_ID => Some(0xc0020040),
            NtStatusWindows::RPC_NT_CANNOT_SUPPORT => Some(0xc0020041),
            NtStatusWindows::RPC_NT_NO_CONTEXT_AVAILABLE => Some(0xc0020042),
            NtStatusWindows::RPC_NT_INTERNAL_ERROR => Some(0xc0020043),
            NtStatusWindows::RPC_NT_ZERO_DIVIDE => Some(0xc0020044),
            NtStatusWindows::RPC_NT_ADDRESS_ERROR => Some(0xc0020045),
            NtStatusWindows::RPC_NT_FP_DIV_ZERO => Some(0xc0020046),
            NtStatusWindows::RPC_NT_FP_UNDERFLOW => Some(0xc0020047),
            NtStatusWindows::RPC_NT_FP_OVERFLOW => Some(0xc0020048),
            NtStatusWindows::RPC_NT_CALL_IN_PROGRESS => Some(0xc0020049),
            NtStatusWindows::RPC_NT_NO_MORE_BINDINGS => Some(0xc002004a),
            NtStatusWindows::RPC_NT_GROUP_MEMBER_NOT_FOUND => Some(0xc002004b),
            NtStatusWindows::EPT_NT_CANT_CREATE => Some(0xc002004c),
            NtStatusWindows::RPC_NT_INVALID_OBJECT => Some(0xc002004d),
            NtStatusWindows::RPC_NT_NO_INTERFACES => Some(0xc002004f),
            NtStatusWindows::RPC_NT_CALL_CANCELLED => Some(0xc0020050),
            NtStatusWindows::RPC_NT_BINDING_INCOMPLETE => Some(0xc0020051),
            NtStatusWindows::RPC_NT_COMM_FAILURE => Some(0xc0020052),
            NtStatusWindows::RPC_NT_UNSUPPORTED_AUTHN_LEVEL => Some(0xc0020053),
            NtStatusWindows::RPC_NT_NO_PRINC_NAME => Some(0xc0020054),
            NtStatusWindows::RPC_NT_NOT_RPC_ERROR => Some(0xc0020055),
            NtStatusWindows::RPC_NT_SEC_PKG_ERROR => Some(0xc0020057),
            NtStatusWindows::RPC_NT_NOT_CANCELLED => Some(0xc0020058),
            NtStatusWindows::RPC_NT_INVALID_ASYNC_HANDLE => Some(0xc0020062),
            NtStatusWindows::RPC_NT_INVALID_ASYNC_CALL => Some(0xc0020063),
            NtStatusWindows::RPC_NT_PROXY_ACCESS_DENIED => Some(0xc0020064),
            NtStatusWindows::RPC_NT_COOKIE_AUTH_FAILED => Some(0xc0020065),
            NtStatusWindows::RPC_NT_NO_MORE_ENTRIES => Some(0xc0030001),
            NtStatusWindows::RPC_NT_SS_CHAR_TRANS_OPEN_FAIL => Some(0xc0030002),
            NtStatusWindows::RPC_NT_SS_CHAR_TRANS_SHORT_FILE => Some(0xc0030003),
            NtStatusWindows::RPC_NT_SS_IN_NULL_CONTEXT => Some(0xc0030004),
            NtStatusWindows::RPC_NT_SS_CONTEXT_MISMATCH => Some(0xc0030005),
            NtStatusWindows::RPC_NT_SS_CONTEXT_DAMAGED => Some(0xc0030006),
            NtStatusWindows::RPC_NT_SS_HANDLES_MISMATCH => Some(0xc0030007),
            _ => None,
        }
    }

    /// One slice of the symbol table: the symbol this slice gives a
    /// raw value, where it holds one.
    pub open spec fn spec_from_u32_part26(raw: u32) -> Option<NtStatusWindows> {
        match raw {
            0xc0020030 => Some(NtStatusWindows::RPC_NT_UNKNOWN_AUTHN_SERVICE),
            0xc0020031 => Some(NtStatusWindows::RPC_NT_UNKNOWN_AUTHN_LEVEL),
            0xc0020032 => Some(NtStatusWindows::RPC_NT_INVALID_AUTH_IDENTITY),
            0xc0020033 => Some(NtStatusWindows::RPC_NT_UNKNOWN_AUTHZ_SERVICE),
            0xc0020034 => Some(NtStatusWindows::EPT_NT_INVALID_ENTRY),
            0xc0020035 => Some(NtStatusWindows::EPT_NT_CANT_PERFORM_OP),
            0xc0020036 => Some(NtStatusWindows::EPT_NT_NOT_REGISTERED),
            0xc0020037 => Some(NtStatusWindows::RPC_NT_NOTHING_TO_EXPORT),
            0xc0020038 => Some(NtStatusWindows::RPC_NT_INCOMPLETE_NAME),
            0xc0020039 => Some(NtStatusWindows::RPC_NT_INVALID_VERS_OPTION),
            0xc002003a => Some(NtStatusWindows::RPC_NT_NO_MORE_MEMBERS),
            0xc002003b => Some(NtStatusWindows::RPC_NT_NOT_ALL_OBJS_UNEXPORTED),
            0xc002003c => Some(NtStatusWindows::RPC_NT_INTERFACE_NOT_FOUND),
            0xc002003d => Some(NtStatusWindows::RPC_NT_ENTRY_ALREADY_EXISTS),
            0xc002003e => Some(NtStatusWindows::RPC_NT_ENTRY_NOT_FOUND),
            0xc002003f => Some(NtStatusWindows::RPC_NT_NAME_SERVICE_UNAVAILABLE),
            0xc0020040 => Some(NtStatusWindows::RPC_NT_INVALID_NAF_ID),
            0xc0020041 => Some(NtStatusWindows::RPC_NT_CANNOT_SUPPORT),
            0xc0020042 => Some(NtStatusWindows::RPC_NT_NO_CONTEXT_AVAILABLE),
            0xc0020043 => Some(NtStatusWindows::RPC_NT_INTERNAL_ERROR),
            0xc0020044 => Some(NtStatusWindows::RPC_NT_ZERO_DIVIDE),
            0xc0020045 => Some(NtStatusWindows::RPC_NT_ADDRESS_ERROR),
            0xc0020046 => Some(NtStatusWindows::RPC_NT_FP_DIV_ZERO),
            0xc0020047 => Some(NtStatusWindows::RPC_NT_FP_UNDERFLOW),
            0xc0020048 => Some(NtStatusWindows::RPC_NT_FP_OVERFLOW),
            0xc0020049 => Some(NtStatusWindows::RPC_NT_CALL_IN_PROGRESS),
            0xc002004a => Some(NtStatusWindows::RPC_NT_NO_MORE_BINDINGS),
            0xc002004b => Some(NtStatusWindows::RPC_NT_GROUP_MEMBER_NOT_FOUND),
            0xc002004c => Some(NtStatusWindows::EPT_NT_CANT_CREATE),
            0xc002004d => Some(NtStatusWindows::RPC_NT_INVALID_OBJECT),
            0xc002004f => Some(NtStatusWindows::RPC_NT_NO_INTERFACES),
            0xc0020050 => Some(NtStatusWindows::RPC_NT_CALL_CANCELLED),
            0xc0020051 => Some(NtStatusWindows::RPC_NT_BINDING_INCOMPLETE),
            0xc0020052 => Some(NtStatusWindows::RPC_NT_COMM_FAILURE),
            0xc0020053 => Some(NtStatusWindows::RPC_NT_UNSUPPORTED_AUTHN_LEVEL),
            0xc0020054 => Some(NtStatusWindows::RPC_NT_NO_PRINC_NAME),
            0xc0020055 => Some(NtStatusWindows::RPC_NT_NOT_RPC_ERROR),
            0xc0020057 => Some(NtStatusWindows::RPC_NT_SEC_PKG_ERROR),
            0xc0020058 => Some(NtStatusWindows::RPC_NT_NOT_CANCELLED),
            0xc0020062 => Some(NtStatusWindows::RPC_NT_INVALID_ASYNC_HANDLE),
            0xc0020063 => Some(NtStatusWindows::RPC_NT_INVALID_ASYNC_CALL),
            0xc0020064 => Some(NtStatusWindows::RPC_NT_PROXY_ACCESS_DENIED),
            0xc0020065 => Some(NtStatusWindows::RPC_NT_COOKIE_AUTH_FAILED),
            0xc0030001 => Some(NtStatusWindows::RPC_NT_NO_MORE_ENTRIES),
            0xc0030002 => Some(NtStatusWindows::RPC_NT_SS_CHAR_TRANS_OPEN_FAIL),
            0xc0030003 => Some(NtStatusWindows::RPC_NT_SS_CHAR_TRANS_SHORT_FILE),
            0xc0030004 => Some(NtStatusWindows::RPC_NT_SS_IN_NULL_CONTEXT),
            0xc0030005 => Some(NtStatusWindows::RPC_NT_SS_CONTEXT_MISMATCH),
            0xc0030006 => Some(NtStatusWindows::RPC_NT_SS_CONTEXT_DAMAGED),
            0xc0030007 => Some(NtStatusWindows::RPC_NT_SS_HANDLES_MISMATCH),
            _ => None,
        }
    }

    /// One slice of the symbol table.
    #[verifier::spinoff_prover]
    #[verifier::rlimit(100)]
    fn to_u32_part26(self) -> (r: Option<u32>)
        ensures
            r == self.spec_to_u32_part26(),
    {
        match self {
            NtStatusWindows::RPC_NT_UNKNOWN_AUTHN_SERVICE => Some(0xc0020030),
            NtStatusWindows::RPC_NT_UNKNOWN_AUTHN_LEVEL => Some(0xc0020031),
            NtStatusWindows::RPC_NT_INVALID_AUTH_IDENTITY => Some(0xc0020032),
            NtStatusWindows::RPC_NT_UNKNOWN_AUTHZ_SERVICE => Some(0xc0020033),
            NtStatusWindows::EPT_NT_INVALID_ENTRY => Some(0xc0020034),
            NtStatusWindows::EPT_NT_CANT_PERFORM_OP => Some(0xc0020035),
            NtStatusWindows::EPT_NT_NOT_REGISTERED => Some(0xc0020036),
            NtStatusWindows::RPC_NT_NOTHING_TO_EXPORT => Some(0xc0020037),
            NtStatusWindows::RPC_NT_INCOMPLETE_NAME => Some(0xc0020038),
            NtStatusWindows::RPC_NT_INVALID_VERS_OPTION => Some(0xc0020039),
            NtStatusWindows::RPC_NT_NO_MORE_MEMBERS => Some(0xc002003a),
            NtStatusWindows::RPC_NT_NOT_ALL_OBJS_UNEXPORTED => Some(0xc002003b),
            NtStatusWindows::RPC_NT_INTERFACE_NOT_FOUND => Some(0xc002003c),
            NtStatusWindows::RPC_NT_ENTRY_ALREADY_EXISTS => Some(0xc002003d),
            NtStatusWindows::RPC_NT_ENTRY_NOT_FOUND => Some(0xc002003e),
            NtStatusWindows::RPC_NT_NAME_SERVICE_UNAVAILABLE => Some(0xc002003f),
            NtStatusWindows::RPC_NT_INVALID_NAF_ID => Some(0xc0020040),
            NtStatusWindows::RPC_NT_CANNOT_SUPPORT => Some(0xc0020041),
            NtStatusWindows::RPC_NT_NO_CONTEXT_AVAILABLE => Some(0xc0020042),
            NtStatusWindows::RPC_NT_INTERNAL_ERROR => Some(0xc0020043),
            NtStatusWindows::RPC_NT_ZERO_DIVIDE => Some(0xc0020044),
            NtStatusWindows::RPC_NT_ADDRESS_ERROR => Some(0xc0020045),
            NtStatusWindows::RPC_NT_FP_DIV_ZERO => Some(0xc0020046),
            NtStatusWindows::RPC_NT_FP_UNDERFLOW => Some(0xc0020047),
            NtStatusWindows::RPC_NT_FP_OVERFLOW => Some(0xc0020048),
            NtStatusWindows::RPC_NT_CALL_IN_PROGRESS => Some(0xc0020049),
            NtStatusWindows::RPC_NT_NO_MORE_BINDINGS => Some(0xc002004a),
            NtStatusWindows::RPC_NT_GROUP_MEMBER_NOT_FOUND => Some(0xc002004b),
            NtStatusWindows::EPT_NT_CANT_CREATE => Some(0xc002004c),
            NtStatusWindows::RPC_NT_INVALID_OBJECT => Some(0xc002004d),
            NtStatusWindows::RPC_NT_NO_INTERFACES => Some(0xc002004f),
            NtStatusWindows::RPC_NT_CALL_CANCELLED => Some(0xc0020050),
            NtStatusWindows::RPC_NT_BINDING_INCOMPLETE => Some(0xc0020051),
            NtStatusWindows::RPC_NT_COMM_FAILURE => Some(0xc0020052),
            NtStatusWindows::RPC_NT_UNSUPPORTED_AUTHN_LEVEL => Some(0xc0020053),
            NtStatusWindows::RPC_NT_NO_PRINC_NAME => Some(0xc0020054),
            NtStatusWindows::RPC_NT_NOT_RPC_ERROR => Some(0xc0020055),
            NtStatusWindows::RPC_NT_SEC_PKG_ERROR => Some(0xc0020057),
            NtStatusWindows::RPC_NT_NOT_CANCELLED => Some(0xc0020058),
            NtStatusWindows::RPC_NT_INVALID_ASYNC_HANDLE => Some(0xc0020062),
            NtStatusWindows::RPC_NT_INVALID_ASYNC_CALL => Some(0xc0020063),
            NtStatusWindows::RPC_NT_PROXY_ACCESS_DENIED => Some(0xc0020064),
            NtStatusWindows::RPC_NT_COOKIE_AUTH_FAILED => Some(0xc0020065),
            NtStatusWindows::RPC_NT_NO_MORE_ENTRIES => Some(0xc0030001),
            NtStatusWindows::RPC_NT_SS_CHAR_TRANS_OPEN_FAIL => Some(0xc0030002),
            NtStatusWindows::RPC_NT_SS_CHAR_TRANS_SHORT_FILE => Some(0xc0030003),
            NtStatusWindows::RPC_NT_SS_IN_NULL_CONTEXT => Some(0xc0030004),
            NtStatusWindows::RPC_NT_SS_CONTEXT_MISMATCH => Some(0xc0030005),
            NtStatusWindows::RPC_NT_SS_CONTEXT_DAMAGED => Some(0xc0030006),
            NtStatusWindows::RPC_NT_SS_HANDLES_MISMATCH => Some(0xc0030007),
            _ => None,
        }
    }

    /// One slice of the symbol table.
    #[verifier::spinoff_prover]
    #[verifier::rlimit(100)]
    fn from_u32_part26(raw: u32) -> (r: Option<NtStatusWindows>)
        ensures
            r == NtStatusWindows::spec_from_u32_part26(raw),
    {
        match raw {
            0xc0020030 => Some(NtStatusWindows::RPC_NT_UNKNOWN_AUTHN_SERVICE),
            0xc0020031 => Some(NtStatusWindows::RPC_NT_UNKNOWN_AUTHN_LEVEL),
            0xc0020032 => Some(NtStatusWindows::RPC_NT_INVALID_AUTH_IDENTITY),
            0xc0020033 => Some(NtStatusWindows::RPC_NT_UNKNOWN_AUTHZ_SERVICE),
            0xc0020034 => Some(NtStatusWindows::EPT_NT_INVALID_ENTRY),
            0xc0020035 => Some(NtStatusWindows::EPT_NT_CANT_PERFORM_OP),
            0xc0020036 => Some(NtStatusWindows::EPT_NT_NOT_REGISTERED),
            0xc0020037 => Some(NtStatusWindows::RPC_NT_NOTHING_TO_EXPORT),
            0xc0020038 => Some(NtStatusWindows::RPC_NT_INCOMPLETE_NAME),
            0xc0020039 => Some(NtStatusWindows::RPC_NT_INVALID_VERS_OPTION),
            0xc002003a => Some(NtStatusWindows::RPC_NT_NO_MORE_MEMBERS),
            0xc002003b => Some(NtStatusWindows::RPC_NT_NOT_ALL_OBJS_UNEXPORTED),
            0xc002003c => Some(NtStatusWindows::RPC_NT_INTERFACE_NOT_FOUND),
            0xc002003d => Some(NtStatusWindows::RPC_NT_ENTRY_ALREADY_EXISTS),
            0xc002003e => Some(NtStatusWindows::RPC_NT_ENTRY_NOT_FOUND),
            0xc002003f => Some(NtStatusWindows::RPC_NT_NAME_SERVICE_UNAVAILABLE),
            0xc0020040 => Some(NtStatusWindows::RPC_NT_INVALID_NAF_ID),
            0xc0020041 => Some(NtStatusWindows::RPC_NT_CANNOT_SUPPORT),
            0xc0020042 => Some(NtStatusWindows::RPC_NT_NO_CONTEXT_AVAILABLE),
            0xc0020043 => Some(NtStatusWindows::RPC_NT_INTERNAL_ERROR),
            0xc0020044 => Some(NtStatusWindows::RPC_NT_ZERO_DIVIDE),
            0xc0020045 => Some(NtStatusWindows::RPC_NT_ADDRESS_ERROR),
            0xc0020046 => Some(NtStatusWindows::RPC_NT_FP_DIV_ZERO),
            0xc0020047 => Some(NtStatusWindows::RPC_NT_FP_UNDERFLOW),
            0xc0020048 => Some(NtStatusWindows::RPC_NT_FP_OVERFLOW),
            0xc0020049 => Some(NtStatusWindows::RPC_NT_CALL_IN_PROGRESS),
            0xc002004a => Some(NtStatusWindows::RPC_NT_NO_MORE_BINDINGS),
            0xc002004b => Some(NtStatusWindows::RPC_NT_GROUP_MEMBER_NOT_FOUND),
            0xc002004c => Some(NtStatusWindows::EPT_NT_CANT_CREATE),
            0xc002004d => Some(NtStatusWindows::RPC_NT_INVALID_OBJECT),
            0xc002004f => Some(NtStatusWindows::RPC_NT_NO_INTERFACES),
            0xc0020050 => Some(NtStatusWindows::RPC_NT_CALL_CANCELLED),
            0xc0020051 => Some(NtStatusWindows::RPC_NT_BINDING_INCOMPLETE),
            0xc0020052 => Some(NtStatusWindows::RPC_NT_COMM_FAILURE),
            0xc0020053 => Some(NtStatusWindows::RPC_NT_UNSUPPORTED_AUTHN_LEVEL),
            0xc0020054 => Some(NtStatusWindows::RPC_NT_NO_PRINC_NAME),
            0xc0020055 => Some(NtStatusWindows::RPC_NT_NOT_RPC_ERROR),
            0xc0020057 => Some(NtStatusWindows::RPC_NT_SEC_PKG_ERROR),
            0xc0020058 => Some(NtStatusWindows::RPC_NT_NOT_CANCELLED),
            0xc0020062 => Some(NtStatusWindows::RPC_NT_INVALID_ASYNC_HANDLE),
            0xc0020063 => Some(NtStatusWindows::RPC_NT_INVALID_ASYNC_CALL),
            0xc0020064 => Some(NtStatusWindows::RPC_NT_PROXY_ACCESS_DENIED),
            0xc0020065 => Some(NtStatusWindows::RPC_NT_COOKIE_AUTH_FAILED),
            0xc0030001 => Some(NtStatusWindows::RPC_NT_NO_MORE_ENTRIES),
            0xc0030002 => Some(NtStatusWindows::RPC_NT_SS_CHAR_TRANS_OPEN_FAIL),
            0xc0030003 => Some(NtStatusWindows::RPC_NT_SS_CHAR_TRANS_SHORT_FILE),
            0xc0030004 => Some(NtStatusWindows::RPC_NT_SS_IN_NULL_CONTEXT),
            0xc0030005 => Some(NtStatusWindows::RPC_NT_SS_CONTEXT_MISMATCH),
            0xc0030006 => Some(NtStatusWindows::RPC_NT_SS_CONTEXT_DAMAGED),
            0xc0030007 => Some(NtStatusWindows::RPC_NT_SS_HANDLES_MISMATCH),
            _ => None,
        }
    }

    /// One slice of the symbol table: the raw value of this symbol,
    /// where this slice holds it.
    pub open spec fn spec_to_u32_part27(self) -> Option<u32> {
        match self {
            NtStatusWindows::RPC_NT_SS_CANNOT_GET_CALL_HANDLE => Some(0xc0030008),
            NtStatusWindows::RPC_NT_NULL_REF_POINTER => Some(0xc0030009),
            NtStatusWindows::RPC_NT_ENUM_VALUE_OUT_OF_RANGE => Some(0xc003000a),
            NtStatusWindows::RPC_NT_BYTE_COUNT_TOO_SMALL => Some(0xc003000b),
            NtStatusWindows::RPC_NT_BAD_STUB_DATA => Some(0xc003000c),
            NtStatusWindows::RPC_NT_INVALID_ES_ACTION => Some(0xc0030059),
            NtStatusWindows::RPC_NT_WRONG_ES_VERSION => Some(0xc003005a),
            NtStatusWindows::RPC_NT_WRONG_STUB_VERSION => Some(0xc003005b),
            NtStatusWindows::RPC_NT_INVALID_PIPE_OBJECT => Some(0xc003005c),
            NtStatusWindows::RPC_NT_INVALID_PIPE_OPERATION => Some(0xc003005d),
            NtStatusWindows::RPC_NT_WRONG_PIPE_VERSION => Some(0xc003005e),
            NtStatusWindows::RPC_NT_PIPE_CLOSED => Some(0xc003005f),
            NtStatusWindows::RPC_NT_PIPE_DISCIPLINE_ERROR => Some(0xc0030060),
            NtStatusWindows::RPC_NT_PIPE_EMPTY => Some(0xc0030061),
            NtStatusWindows::STATUS_PNP_BAD_MPS_TABLE => Some(0xc0040035),
            NtStatusWindows::STATUS_PNP_TRANSLATION_FAILED => Some(0xc0040036),
            NtStatusWindows::STATUS_PNP_IRQ_TRANSLATION_FAILED => Some(0xc0040037),
            NtStatusWindows::STATUS_PNP_INVALID_ID => Some(0xc0040038),
            NtStatusWindows::STATUS_IO_REISSUE_AS_CACHED => Some(0xc0040039),
            NtStatusWindows::STATUS_CTX_WINSTATION_NAME_INVALID => Some(0xc00a0001),
            NtStatusWindows::STATUS_CTX_INVALID_PD => Some(0xc00a0002),
            NtStatusWindows::STATUS_CTX_PD_NOT_FOUND => Some(0xc00a0003),
            NtStatusWindows::STATUS_CTX_CLOSE_PENDING => Some(0xc00a0006),
            NtStatusWindows::STATUS_CTX_NO_OUTBUF => Some(0xc00a0007),
            NtStatusWindows::STATUS_CTX_MODEM_INF_NOT_FOUND => Some(0xc00a0008),
            NtStatusWindows::STATUS_CTX_INVALID_MODEMNAME => Some(0xc00a0009),
            NtStatusWindows::STATUS_CTX_RESPONSE_ERROR => Some(0xc00a000a),
            NtStatusWindows::STATUS_CTX_MODEM_RESPONSE_TIMEOUT => Some(0xc00a000b),
            NtStatusWindows::STATUS_CTX_MODEM_RESPONSE_NO_CARRIER => Some(0xc00a000c),
            NtStatusWindows::STATUS_CTX_MODEM_RESPONSE_NO_DIALTONE => Some(0xc00a000d),
            NtStatusWindows::STATUS_CTX_MODEM_RESPONSE_BUSY => Some(0xc00a000e),
            NtStatusWindows::STATUS_CTX_MODEM_RESPONSE_VOICE => Some(0xc00a000f),
            NtStatusWindows::STATUS_CTX_TD_ERROR => Some(0xc00a0010),
            NtStatusWindows::STATUS_CTX_LICENSE_CLIENT_INVALID => Some(0xc00a0012),
            NtStatusWindows::STATUS_CTX_LICENSE_NOT_AVAILABLE => Some(0xc00a0013),
            NtStatusWindows::STATUS_CTX_LICENSE_EXPIRED => Some(0xc00a0014),
            NtStatusWindows::STATUS_CTX_WINSTATION_NOT_FOUND => Some(0xc00a0015),
            NtStatusWindows::STATUS_CTX_WINSTATION_NAME_COLLISION => Some(0xc00a0016),
            NtStatusWindows::STATUS_CTX_WINSTATION_BUSY => Some(0xc00a0017),
            NtStatusWindows::STATUS_CTX_BAD_VIDEO_MODE => Some(0xc00a0018),
            NtStatusWindows::STATUS_CTX_GRAPHICS_INVALID => Some(0xc00a0022),
            NtStatusWindows::STATUS_CTX_NOT_CONSOLE => Some(0xc00a0024),
            NtStatusWindows::STATUS_CTX_CLIENT_QUERY_TIMEOUT => Some(0xc00a0026),
            NtStatusWindows::STATUS_CTX_CONSOLE_DISCONNECT => Some(0xc00a0027),
            NtStatusWindows::STATUS_CTX_CONSOLE_CONNECT => Some(0xc00a0028),
            NtStatusWindows::STATUS_CTX_SHADOW_DENIED => Some(0xc00a002a),
            NtStatusWindows::STATUS_CTX_WINSTATION_ACCESS_DENIED => Some(0xc00a002b),
            NtStatusWindows::STATUS_CTX_INVALID_WD => Some(0xc00a002e),
            NtStatusWindows::STATUS_CTX_WD_NOT_FOUND => Some(0xc00a002f),
            NtStatusWindows::STATUS_CTX_SHADOW_INVALID => Some(0xc00a0030),
            _ => None,
        }
    }

    /// One slice of the symbol table: the symbol this slice gives a
    /// raw value, where it holds one.
    pub open spec fn spec_from_u32_part27(raw: u32) -> Option<NtStatusWindows> {
        match raw {
            0xc0030008 => Some(NtStatusWindows::RPC_NT_SS_CANNOT_GET_CALL_HANDLE),
            0xc0030009 => Some(NtStatusWindows::RPC_NT_NULL_REF_POINTER),
            0xc003000a => Some(NtStatusWindows::RPC_NT_ENUM_VALUE_OUT_OF_RANGE),
            0xc003000b => Some(NtStatusWindows::RPC_NT_BYTE_COUNT_TOO_SMALL),
            0xc003000c => Some(NtStatusWindows::RPC_NT_BAD_STUB_DATA),
            0xc0030059 => Some(NtStatusWindows::RPC_NT_INVALID_ES_ACTION),
            0xc003005a => Some(NtStatusWindows::RPC_NT_WRONG_ES_VERSION),
            0xc003005b => Some(NtStatusWindows::RPC_NT_WRONG_STUB_VERSION),
            0xc003005c => Some(NtStatusWindows::RPC_NT_INVALID_PIPE_OBJECT),
            0xc003005d => Some(NtStatusWindows::RPC_NT_INVALID_PIPE_OPERATION),
            0xc003005e => Some(NtStatusWindows::RPC_NT_WRONG_PIPE_VERSION),
            0xc003005f => Some(NtStatusWindows::RPC_NT_PIPE_CLOSED),
            0xc0030060 => Some(NtStatusWindows::RPC_NT_PIPE_DISCIPLINE_ERROR),
            0xc0030061 => Some(NtStatusWindows::RPC_NT_PIPE_EMPTY),
            0xc0040035 => Some(NtStatusWindows::STATUS_PNP_BAD_MPS_TABLE),
            0xc0040036 => Some(NtStatusWindows::STATUS_PNP_TRANSLATION_FAILED),
            0xc0040037 => Some(NtStatusWindows::STATUS_PNP_IRQ_TRANSLATION_FAILED),
            0xc0040038 => Some(NtStatusWindows::STATUS_PNP_INVALID_ID),
            0xc0040039 => Some(NtStatusWindows::STATUS_IO_REISSUE_AS_CACHED),
            0xc00a0001 => Some(NtStatusWindows::STATUS_CTX_WINSTATION_NAME_INVALID),
            0xc00a0002 => Some(NtStatusWindows::STATUS_CTX_INVALID_PD),
            0xc00a0003 => Some(NtStatusWindows::STATUS_CTX_PD_NOT_FOUND),
            0xc00a0006 => Some(NtStatusWindows::STATUS_CTX_CLOSE_PENDING),
            0xc00a0007 => Some(NtStatusWindows::STATUS_CTX_NO_OUTBUF),
            0xc00a0008 => Some(NtStatusWindows::STATUS_CTX_MODEM_INF_NOT_FOUND),
            0xc00a0009 => Some(NtStatusWindows::STATUS_CTX_INVALID_MODEMNAME),
            0xc00a000a => Some(NtStatusWindows::STATUS_CTX_RESPONSE_ERROR),
            0xc00a000b => Some(NtStatusWindows::STATUS_CTX_MODEM_RESPONSE_TIMEOUT),
            0xc00a000c => Some(NtStatusWindows::STATUS_CTX_MODEM_RESPONSE_NO_CARRIER),
            0xc00a000d => Some(NtStatusWindows::STATUS_CTX_MODEM_RESPONSE_NO_DIALTONE),
            0xc00a000e => Some(NtStatusWindows::STATUS_CTX_MODEM_RESPONSE_BUSY),
            0xc00a000f => Some(NtStatusWindows::STATUS_CTX_MODEM_RESPONSE_VOICE),
            0xc00a0010 => Some(NtStatusWindows::STATUS_CTX_TD_ERROR),
            0xc00a0012 => Some(NtStatusWindows::STATUS_CTX_LICENSE_CLIENT_INVALID),
            0xc00a0013 => Some(NtStatusWindows::STATUS_CTX_LICENSE_NOT_AVAILABLE),
            0xc00a0014 => Some(NtStatusWindows::STATUS_CTX_LICENSE_EXPIRED),
            0xc00a0015 => Some(NtStatusWindows::STATUS_CTX_WINSTATION_NOT_FOUND),
            0xc00a0016 => Some(NtStatusWindows::STATUS_CTX_WINSTATION_NAME_COLLISION),
            0xc00a0017 => Some(NtStatusWindows::STATUS_CTX_WINSTATION_BUSY),
            0xc00a0018 => Some(NtStatusWindows::STATUS_CTX_BAD_VIDEO_MODE),
            0xc00a0022 => Some(NtStatusWindows::STATUS_CTX_GRAPHICS_INVALID),
            0xc00a0024 => Some(NtStatusWindows::STATUS_CTX_NOT_CONSOLE),
            0xc00a0026 => Some(NtStatusWindows::STATUS_CTX_CLIENT_QUERY_TIMEOUT),
            0xc00a0027 => Some(NtStatusWindows::STATUS_CTX_CONSOLE_DISCONNECT),
            0xc00a0028 => Some(NtStatusWindows::STATUS_CTX_CONSOLE_CONNECT),
            0xc00a002a => Some(NtStatusWindows::STATUS_CTX_SHADOW_DENIED),
            0xc00a002b => Some(NtStatusWindows::STATUS_CTX_WINSTATION_ACCESS_DENIED),
            0xc00a002e => Some(NtStatusWindows::STATUS_CTX_INVALID_WD),
            0xc00a002f => Some(NtStatusWindows::STATUS_CTX_WD_NOT_FOUND),
            0xc00a0030 => Some(NtStatusWindows::STATUS_CTX_SHADOW_INVALID),
            _ => None,
        }
    }

    /// One slice of the symbol table.
    #[verifier::spinoff_prover]
    #[verifier::rlimit(100)]
    fn to_u32_part27(self) -> (r: Option<u32>)
        ensures
            r == self.spec_to_u32_part27(),
    {
        match self {
            NtStatusWindows::RPC_NT_SS_CANNOT_GET_CALL_HANDLE => Some(0xc0030008),
            NtStatusWindows::RPC_NT_NULL_REF_POINTER => Some(0xc0030009),
            NtStatusWindows::RPC_NT_ENUM_VALUE_OUT_OF_RANGE => Some(0xc003000a),
            NtStatusWindows::RPC_NT_BYTE_COUNT_TOO_SMALL => Some(0xc003000b),
            NtStatusWindows::RPC_NT_BAD_STUB_DATA => Some(0xc003000c),
            NtStatusWindows::RPC_NT_INVALID_ES_ACTION => Some(0xc0030059),
            NtStatusWindows::RPC_NT_WRONG_ES_VERSION => Some(0xc003005a),
            NtStatusWindows::RPC_NT_WRONG_STUB_VERSION => Some(0xc003005b),
            NtStatusWindows::RPC_NT_INVALID_PIPE_OBJECT => Some(0xc003005c),
            NtStatusWindows::RPC_NT_INVALID_PIPE_OPERATION => Some(0xc003005d),
            NtStatusWindows::RPC_NT_WRONG_PIPE_VERSION => Some(0xc003005e),
            NtStatusWindows::RPC_NT_PIPE_CLOSED => Some(0xc003005f),
            NtStatusWindows::RPC_NT_PIPE_DISCIPLINE_ERROR => Some(0xc0030060),
            NtStatusWindows::RPC_NT_PIPE_EMPTY => Some(0xc0030061),
            NtStatusWindows::STATUS_PNP_BAD_MPS_TABLE => Some(0xc0040035),
            NtStatusWindows::STATUS_PNP_TRANSLATION_FAILED => Some(0xc0040036),
            NtStatusWindows::STATUS_PNP_IRQ_TRANSLATION_FAILED => Some(0xc0040037),
            NtStatusWindows::STATUS_PNP_INVALID_ID => Some(0xc0040038),
            NtStatusWindows::STATUS_IO_REISSUE_AS_CACHED => Some(0xc0040039),
            NtStatusWindows::STATUS_CTX_WINSTATION_NAME_INVALID => Some(0xc00a0001),
            NtStatusWindows::STATUS_CTX_INVALID_PD => Some(0xc00a0002),
            NtStatusWindows::STATUS_CTX_PD_NOT_FOUND => Some(0xc00a0003),
            NtStatusWindows::STATUS_CTX_CLOSE_PENDING => Some(0xc00a0006),
            NtStatusWindows::STATUS_CTX_NO_OUTBUF => Some(0xc00a0007),
            NtStatusWindows::STATUS_CTX_MODEM_INF_NOT_FOUND => Some(0xc00a0008),
            NtStatusWindows::STATUS_CTX_INVALID_MODEMNAME => Some(0xc00a0009),
            NtStatusWindows::STATUS_CTX_RESPONSE_ERROR => Some(0xc00a000a),
            NtStatusWindows::STATUS_CTX_MODEM_RESPONSE_TIMEOUT => Some(0xc00a000b),
            NtStatusWindows::STATUS_CTX_MODEM_RESPONSE_NO_CARRIER => Some(0xc00a000c),
            NtStatusWindows::STATUS_CTX_MODEM_RESPONSE_NO_DIALTONE => Some(0xc00a000d),
            NtStatusWindows::STATUS_CTX_MODEM_RESPONSE_BUSY => Some(0xc00a000e),
            NtStatusWindows::STATUS_CTX_MODEM_RESPONSE_VOICE => Some(0xc00a000f),
            NtStatusWindows::STATUS_CTX_TD_ERROR => Some(0xc00a0010),
            NtStatusWindows::STATUS_CTX_LICENSE_CLIENT_INVALID => Some(0xc00a0012),
            NtStatusWindows::STATUS_CTX_LICENSE_NOT_AVAILABLE => Some(0xc00a0013),
            NtStatusWindows::STATUS_CTX_LICENSE_EXPIRED => Some(0xc00a0014),
            NtStatusWindows::STATUS_CTX_WINSTATION_NOT_FOUND => Some(0xc00a0015),
            NtStatusWindows::STATUS_CTX_WINSTATION_NAME_COLLISION => Some(0xc00a0016),
            NtStatusWindows::STATUS_CTX_WINSTATION_BUSY => Some(0xc00a0017),
            NtStatusWindows::STATUS_CTX_BAD_VIDEO_MODE => Some(0xc00a0018),
            NtStatusWindows::STATUS_CTX_GRAPHICS_INVALID => Some(0xc00a0022),
            NtStatusWindows::STATUS_CTX_NOT_CONSOLE => Some(0xc00a0024),
            NtStatusWindows::STATUS_CTX_CLIENT_QUERY_TIMEOUT => Some(0xc00a0026),
            NtStatusWindows::STATUS_CTX_CONSOLE_DISCONNECT => Some(0xc00a0027),
            NtStatusWindows::STATUS_CTX_CONSOLE_CONNECT => Some(0xc00a0028),
            NtStatusWindows::STATUS_CTX_SHADOW_DENIED => Some(0xc00a002a),
            NtStatusWindows::STATUS_CTX_WINSTATION_ACCESS_DENIED => Some(0xc00a002b),
            NtStatusWindows::STATUS_CTX_INVALID_WD => Some(0xc00a002e),
            NtStatusWindows::STATUS_CTX_WD_NOT_FOUND => Some(0xc00a002f),
            NtStatusWindows::STATUS_CTX_SHADOW_INVALID => Some(0xc00a0030),
            _ => None,
        }
    }

    /// One slice of the symbol table.
    #[verifier::spinoff_prover]
    #[verifier::rlimit(100)]
    fn from_u32_part27(raw: u32) -> (r: Option<NtStatusWindows>)
        ensures
            r == NtStatusWindows::spec_from_u32_part27(raw),
    {
        match raw {
            0xc0030008 => Some(NtStatusWindows::RPC_NT_SS_CANNOT_GET_CALL_HANDLE),
            0xc0030009 => Some(NtStatusWindows::RPC_NT_NULL_REF_POINTER),
            0xc003000a => Some(NtStatusWindows::RPC_NT_ENUM_VALUE_OUT_OF_RANGE),
            0xc003000b => Some(NtStatusWindows::RPC_NT_BYTE_COUNT_TOO_SMALL),
            0xc003000c => Some(NtStatusWindows::RPC_NT_BAD_STUB_DATA),
            0xc0030059 => Some(NtStatusWindows::RPC_NT_INVALID_ES_ACTION),
            0xc003005a => Some(NtStatusWindows::RPC_NT_WRONG_ES_VERSION),
            0xc003005b => Some(NtStatusWindows::RPC_NT_WRONG_STUB_VERSION),
            0xc003005c => Some(NtStatusWindows::RPC_NT_INVALID_PIPE_OBJECT),
            0xc003005d => Some(NtStatusWindows::RPC_NT_INVALID_PIPE_OPERATION),
            0xc003005e => Some(NtStatusWindows::RPC_NT_WRONG_PIPE_VERSION),
            0xc003005f => Some(NtStatusWindows::RPC_NT_PIPE_CLOSED),
            0xc0030060 => Some(NtStatusWindows::RPC_NT_PIPE_DISCIPLINE_ERROR),
            0xc0030061 => Some(NtStatusWindows::RPC_NT_PIPE_EMPTY),
            0xc0040035 => Some(NtStatusWindows::STATUS_PNP_BAD_MPS_TABLE),
            0xc0040036 => Some(NtStatusWindows::STATUS_PNP_TRANSLATION_FAILED),
            0xc0040037 => Some(NtStatusWindows::STATUS_PNP_IRQ_TRANSLATION_FAILED),
            0xc0040038 => Some(NtStatusWindows::STATUS_PNP_INVALID_ID),
            0xc0040039 => Some(NtStatusWindows::STATUS_IO_REISSUE_AS_CACHED),
            0xc00a0001 => Some(NtStatusWindows::STATUS_CTX_WINSTATION_NAME_INVALID),
            0xc00a0002 => Some(NtStatusWindows::STATUS_CTX_INVALID_PD),
            0xc00a0003 => Some(NtStatusWindows::STATUS_CTX_PD_NOT_FOUND),
            0xc00a0006 => Some(NtStatusWindows::STATUS_CTX_CLOSE_PENDING),
            0xc00a0007 => Some(NtStatusWindows::STATUS_CTX_NO_OUTBUF),
            0xc00a0008 => Some(NtStatusWindows::STATUS_CTX_MODEM_INF_NOT_FOUND),
            0xc00a0009 => Some(NtStatusWindows::STATUS_CTX_INVALID_MODEMNAME),
            0xc00a000a => Some(NtStatusWindows::STATUS_CTX_RESPONSE_ERROR),
            0xc00a000b => Some(NtStatusWindows::STATUS_CTX_MODEM_RESPONSE_TIMEOUT),
            0xc00a000c => Some(NtStatusWindows::STATUS_CTX_MODEM_RESPONSE_NO_CARRIER),
            0xc00a000d => Some(NtStatusWindows::STATUS_CTX_MODEM_RESPONSE_NO_DIALTONE),
            0xc00a000e => Some(NtStatusWindows::STATUS_CTX_MODEM_RESPONSE_BUSY),
            0xc00a000f => Some(NtStatusWindows::STATUS_CTX_MODEM_RESPONSE_VOICE),
            0xc00a0010 => Some(NtStatusWindows::STATUS_CTX_TD_ERROR),
            0xc00a0012 => Some(NtStatusWindows::STATUS_CTX_LICENSE_CLIENT_INVALID),
            0xc00a0013 => Some(NtStatusWindows::STATUS_CTX_LICENSE_NOT_AVAILABLE),
            0xc00a0014 => Some(NtStatusWindows::STATUS_CTX_LICENSE_EXPIRED),
            0xc00a0015 => Some(NtStatusWindows::STATUS_CTX_WINSTATION_NOT_FOUND),
            0xc00a0016 => Some(NtStatusWindows::STATUS_CTX_WINSTATION_NAME_COLLISION),
            0xc00a0017 => Some(NtStatusWindows::STATUS_CTX_WINSTATION_BUSY),
            0xc00a0018 => Some(NtStatusWindows::STATUS_CTX_BAD_VIDEO_MODE),
            0xc00a0022 => Some(NtStatusWindows::STATUS_CTX_GRAPHICS_INVALID),
            0xc00a0024 => Some(NtStatusWindows::STATUS_CTX_NOT_CONSOLE),
            0xc00a0026 => Some(NtStatusWindows::STATUS_CTX_CLIENT_QUERY_TIMEOUT),
            0xc00a0027 => Some(NtStatusWindows::STATUS_CTX_CONSOLE_DISCONNECT),
            0xc00a0028 => Some(NtStatusWindows::STATUS_CTX_CONSOLE_CONNECT),
            0xc00a002a => Some(NtStatusWindows::STATUS_CTX_SHADOW_DENIED),
            0xc00a002b => Some(NtStatusWindows::STATUS_CTX_WINSTATION_ACCESS_DENIED),
            0xc00a002e => Some(NtStatusWindows::STATUS_CTX_INVALID_WD),
            0xc00a002f => Some(NtStatusWindows::STATUS_CTX_WD_NOT_FOUND),
            0xc00a0030 => Some(NtStatusWindows::STATUS_CTX_SHADOW_INVALID),
            _ => None,
        }
    }

    /// One slice of the symbol table: the raw value of this symbol,
    /// where this slice holds it.
    pub open spec fn spec_to_u32_part28(self) -> Option<u32> {
        match self {
            NtStatusWindows::STATUS_CTX_SHADOW_DISABLED => Some(0xc00a0031),
            NtStatusWindows::STATUS_RDP_PROTOCOL_ERROR => Some(0xc00a0032),
            NtStatusWindows::STATUS_CTX_CLIENT_LICENSE_NOT_SET => Some(0xc00a0033),
            NtStatusWindows::STATUS_CTX_CLIENT_LICENSE_IN_USE => Some(0xc00a0034),
            NtStatusWindows::STATUS_CTX_SHADOW_ENDED_BY_MODE_CHANGE => Some(0xc00a0035),
            NtStatusWindows::STATUS_CTX_SHADOW_NOT_RUNNING => Some(0xc00a0036),
            NtStatusWindows::STATUS_CTX_LOGON_DISABLED => Some(0xc00a0037),
            NtStatusWindows::STATUS_CTX_SECURITY_LAYER_ERROR => Some(0xc00a0038),
            NtStatusWindows::STATUS_TS_INCOMPATIBLE_SESSIONS => Some(0xc00a0039),
            NtStatusWindows::STATUS_TS_VIDEO_SUBSYSTEM_ERROR => Some(0xc00a003a),
            NtStatusWindows::STATUS_MUI_FILE_NOT_FOUND => Some(0xc00b0001),
            NtStatusWindows::STATUS_MUI_INVALID_FILE => Some(0xc00b0002),
            NtStatusWindows::STATUS_MUI_INVALID_RC_CONFIG => Some(0xc00b0003),
            NtStatusWindows::STATUS_MUI_INVALID_LOCALE_NAME => Some(0xc00b0004),
            NtStatusWindows::STATUS_MUI_INVALID_ULTIMATEFALLBACK_NAME => Some(0xc00b0005),
            NtStatusWindows::STATUS_MUI_FILE_NOT_LOADED => Some(0xc00b0006),
            NtStatusWindows::STATUS_RESOURCE_ENUM_USER_STOP => Some(0xc00b0007),
            NtStatusWindows::STATUS_CLUSTER_INVALID_NODE => Some(0xc0130001),
            NtStatusWindows::STATUS_CLUSTER_NODE_EXISTS => Some(0xc0130002),
            NtStatusWindows::STATUS_CLUSTER_JOIN_IN_PROGRESS => Some(0xc0130003),
            NtStatusWindows::STATUS_CLUSTER_NODE_NOT_FOUND => Some(0xc0130004),
            NtStatusWindows::STATUS_CLUSTER_LOCAL_NODE_NOT_FOUND => Some(0xc0130005),
            NtStatusWindows::STATUS_CLUSTER_NETWORK_EXISTS => Some(0xc0130006),
            NtStatusWindows::STATUS_CLUSTER_NETWORK_NOT_FOUND => Some(0xc0130007),
            NtStatusWindows::STATUS_CLUSTER_NETINTERFACE_EXISTS => Some(0xc0130008),
            NtStatusWindows::STATUS_CLUSTER_NETINTERFACE_NOT_FOUND => Some(0xc0130009),
            NtStatusWindows::STATUS_CLUSTER_INVALID_REQUEST => Some(0xc013000a),
            NtStatusWindows::STATUS_CLUSTER_INVALID_NETWORK_PROVIDER => Some(0xc013000b),
            NtStatusWindows::STATUS_CLUSTER_NODE_DOWN => Some(0xc013000c),
            NtStatusWindows::STATUS_CLUSTER_NODE_UNREACHABLE => Some(0xc013000d),
            NtStatusWindows::STATUS_CLUSTER_NODE_NOT_MEMBER => Some(0xc013000e),
            NtStatusWindows::STATUS_CLUSTER_JOIN_NOT_IN_PROGRESS => Some(0xc013000f),
            NtStatusWindows::STATUS_CLUSTER_INVALID_NETWORK => Some(0xc0130010),
            NtStatusWindows::STATUS_CLUSTER_NO_NET_ADAPTERS => Some(0xc0130011),
            NtStatusWindows::STATUS_CLUSTER_NODE_UP => Some(0xc0130012),
            NtStatusWindows::STATUS_CLUSTER_NODE_PAUSED => Some(0xc0130013),
            NtStatusWindows::STATUS_CLUSTER_NODE_NOT_PAUSED => Some(0xc0130014),
            NtStatusWindows::STATUS_CLUSTER_NO_SECURITY_CONTEXT => Some(0xc0130015),
            NtStatusWindows::STATUS_CLUSTER_NETWORK_NOT_INTERNAL => Some(0xc0130016),
            NtStatusWindows::STATUS_CLUSTER_POISONED => Some(0xc0130017),
            NtStatusWindows::STATUS_CLUSTER_NON_CSV_PATH => Some(0xc0130018),
            NtStatusWindows::STATUS_CLUSTER_CSV_VOLUME_NOT_LOCAL => Some(0xc0130019),
            NtStatusWindows::STATUS_CLUSTER_CSV_READ_OPLOCK_BREAK_IN_PROGRESS => Some(0xc0130020),
            NtStatusWindows::STATUS_CLUSTER_CSV_AUTO_PAUSE_ERROR => Some(0xc0130021),
            NtStatusWindows::STATUS_CLUSTER_CSV_REDIRECTED => Some(0xc0130022),
            NtStatusWindows::STATUS_CLUSTER_CSV_NOT_REDIRECTED => Some(0xc0130023),
            NtStatusWindows::STATUS_CLUSTER_CSV_VOLUME_DRAINING => Some(0xc0130024),
            NtStatusWindows::STATUS_CLUSTER_CSV_SNAPSHOT_CREATION_IN_PROGRESS => Some(0xc0130025),
            NtStatusWindows::STATUS_CLUSTER_CSV_VOLUME_DRAINING_SUCCEEDED_DOWNLEVEL => Some(0xc0130026),
            NtStatusWindows::STATUS_CLUSTER_CSV_NO_SNAPSHOTS => Some(0xc0130027),
            _ => None,
        }
    }

    /// One slice of the symbol table: the symbol this slice gives a
    /// raw value, where it holds one.
    pub open spec fn spec_from_u32_part28(raw: u32) -> Option<NtStatusWindows> {
        match raw {
            0xc00a0031 => Some(NtStatusWindows::STATUS_CTX_SHADOW_DISABLED),
            0xc00a0032 => Some(NtStatusWindows::STATUS_RDP_PROTOCOL_ERROR),
            0xc00a0033 => Some(NtStatusWindows::STATUS_CTX_CLIENT_LICENSE_NOT_SET),
            0xc00a0034 => Some(NtStatusWindows::STATUS_CTX_CLIENT_LICENSE_IN_USE),
            0xc00a0035 => Some(NtStatusWindows::STATUS_CTX_SHADOW_ENDED_BY_MODE_CHANGE),
            0xc00a0036 => Some(NtStatusWindows::STATUS_CTX_SHADOW_NOT_RUNNING),
            0xc00a0037 => Some(NtStatusWindows::STATUS_CTX_LOGON_DISABLED),
            0xc00a0038 => Some(NtStatusWindows::STATUS_CTX_SECURITY_LAYER_ERROR),
            0xc00a0039 => Some(NtStatusWindows::STATUS_TS_INCOMPATIBLE_SESSIONS),
            0xc00a003a => Some(NtStatusWindows::STATUS_TS_VIDEO_SUBSYSTEM_ERROR),
            0xc00b0001 => Some(NtStatusWindows::STATUS_MUI_FILE_NOT_FOUND),
            0xc00b0002 => Some(NtStatusWindows::STATUS_MUI_INVALID_FILE),
            0xc00b0003 => Some(NtStatusWindows::STATUS_MUI_INVALID_RC_CONFIG),
            0xc00b0004 => Some(NtStatusWindows::STATUS_MUI_INVALID_LOCALE_NAME),
            0xc00b0005 => Some(NtStatusWindows::STATUS_MUI_INVALID_ULTIMATEFALLBACK_NAME),
            0xc00b0006 => Some(NtStatusWindows::STATUS_MUI_FILE_NOT_LOADED),
            0xc00b0007 => Some(NtStatusWindows::STATUS_RESOURCE_ENUM_USER_STOP),
            0xc0130001 => Some(NtStatusWindows::STATUS_CLUSTER_INVALID_NODE),
            0xc0130002 => Some(NtStatusWindows::STATUS_CLUSTER_NODE_EXISTS),
            0xc0130003 => Some(NtStatusWindows::STATUS_CLUSTER_JOIN_IN_PROGRESS),
            0xc0130004 => Some(NtStatusWindows::STATUS_CLUSTER_NODE_NOT_FOUND),
            0xc0130005 => Some(NtStatusWindows::STATUS_CLUSTER_LOCAL_NODE_NOT_FOUND),
            0xc0130006 => Some(NtStatusWindows::STATUS_CLUSTER_NETWORK_EXISTS),
            0xc0130007 => Some(NtStatusWindows::STATUS_CLUSTER_NETWORK_NOT_FOUND),
            0xc0130008 => Some(NtStatusWindows::STATUS_CLUSTER_NETINTERFACE_EXISTS),
            0xc0130009 => Some(NtStatusWindows::STATUS_CLUSTER_NETINTERFACE_NOT_FOUND),
            0xc013000a => Some(NtStatusWindows::STATUS_CLUSTER_INVALID_REQUEST),
            0xc013000b => Some(NtStatusWindows::STATUS_CLUSTER_INVALID_NETWORK_PROVIDER),
            0xc013000c => Some(NtStatusWindows::STATUS_CLUSTER_NODE_DOWN),
            0xc013000d => Some(NtStatusWindows::STATUS_CLUSTER_NODE_UNREACHABLE),
            0xc013000e => Some(NtStatusWindows::STATUS_CLUSTER_NODE_NOT_MEMBER),
            0xc013000f => Some(NtStatusWindows::STATUS_CLUSTER_JOIN_NOT_IN_PROGRESS),
            0xc0130010 => Some(NtStatusWindows::STATUS_CLUSTER_INVALID_NETWORK),
            0xc0130011 => Some(NtStatusWindows::STATUS_CLUSTER_NO_NET_ADAPTERS),
            0xc0130012 => Some(NtStatusWindows::STATUS_CLUSTER_NODE_UP),
            0xc0130013 => Some(NtStatusWindows::STATUS_CLUSTER_NODE_PAUSED),
            0xc0130014 => Some(NtStatusWindows::STATUS_CLUSTER_NODE_NOT_PAUSED),
            0xc0130015 => Some(NtStatusWindows::STATUS_CLUSTER_NO_SECURITY_CONTEXT),
            0xc0130016 => Some(NtStatusWindows::STATUS_CLUSTER_NETWORK_NOT_INTERNAL),
            0xc0130017 => Some(NtStatusWindows::STATUS_CLUSTER_POISONED),
            0xc0130018 => Some(NtStatusWindows::STATUS_CLUSTER_NON_CSV_PATH),
            0xc0130019 => Some(NtStatusWindows::STATUS_CLUSTER_CSV_VOLUME_NOT_LOCAL),
            0xc0130020 => Some(NtStatusWindows::STATUS_CLUSTER_CSV_READ_OPLOCK_BREAK_IN_PROGRESS),
            0xc0130021 => Some(NtStatusWindows::STATUS_CLUSTER_CSV_AUTO_PAUSE_ERROR),
            0xc0130022 => Some(NtStatusWindows::STATUS_CLUSTER_CSV_REDIRECTED),
            0xc0130023 => Some(NtStatusWindows::STATUS_CLUSTER_CSV_NOT_REDIRECTED),
            0xc0130024 => Some(NtStatusWindows::STATUS_CLUSTER_CSV_VOLUME_DRAINING),
            0xc0130025 => Some(NtStatusWindows::STATUS_CLUSTER_CSV_SNAPSHOT_CREATION_IN_PROGRESS),
            0xc0130026 => Some(NtStatusWindows::STATUS_CLUSTER_CSV_VOLUME_DRAINING_SUCCEEDED_DOWNLEVEL),
            0xc0130027 => Some(NtStatusWindows::STATUS_CLUSTER_CSV_NO_SNAPSHOTS),
            _ => None,
        }
    }

    /// One slice of the symbol table.
    #[verifier::spinoff_prover]
    #[verifier::rlimit(100)]
    fn to_u32_part28(self) -> (r: Option<u32>)
        ensures
            r == self.spec_to_u32_part28(),
    {
        match self {
            NtStatusWindows::STATUS_CTX_SHADOW_DISABLED => Some(0xc00a0031),
            NtStatusWindows::STATUS_RDP_PROTOCOL_ERROR => Some(0xc00a0032),
            NtStatusWindows::STATUS_CTX_CLIENT_LICENSE_NOT_SET => Some(0xc00a0033),
            NtStatusWindows::STATUS_CTX_CLIENT_LICENSE_IN_USE => Some(0xc00a0034),
            NtStatusWindows::STATUS_CTX_SHADOW_ENDED_BY_MODE_CHANGE => Some(0xc00a0035),
            NtStatusWindows::STATUS_CTX_SHADOW_NOT_RUNNING => Some(0xc00a0036),
            NtStatusWindows::STATUS_CTX_LOGON_DISABLED => Some(0xc00a0037),
            NtStatusWindows::STATUS_CTX_SECURITY_LAYER_ERROR => Some(0xc00a0038),
            NtStatusWindows::STATUS_TS_INCOMPATIBLE_SESSIONS => Some(0xc00a0039),
            NtStatusWindows::STATUS_TS_VIDEO_SUBSYSTEM_ERROR => Some(0xc00a003a),
            NtStatusWindows::STATUS_MUI_FILE_NOT_FOUND => Some(0xc00b0001),
            NtStatusWindows::STATUS_MUI_INVALID_FILE => Some(0xc00b0002),
            NtStatusWindows::STATUS_MUI_INVALID_RC_CONFIG => Some(0xc00b0003),
            NtStatusWindows::STATUS_MUI_INVALID_LOCALE_NAME => Some(0xc00b0004),
            NtStatusWindows::STATUS_MUI_INVALID_ULTIMATEFALLBACK_NAME => Some(0xc00b0005),
            NtStatusWindows::STATUS_MUI_FILE_NOT_LOADED => Some(0xc00b0006),
            NtStatusWindows::STATUS_RESOURCE_ENUM_USER_STOP => Some(0xc00b0007),
            NtStatusWindows::STATUS_CLUSTER_INVALID_NODE => Some(0xc0130001),
            NtStatusWindows::STATUS_CLUSTER_NODE_EXISTS => Some(0xc0130002),
            NtStatusWindows::STATUS_CLUSTER_JOIN_IN_PROGRESS => Some(0xc0130003),
            NtStatusWindows::STATUS_CLUSTER_NODE_NOT_FOUND => Some(0xc0130004),
            NtStatusWindows::STATUS_CLUSTER_LOCAL_NODE_NOT_FOUND => Some(0xc0130005),
            NtStatusWindows::STATUS_CLUSTER_NETWORK_EXISTS => Some(0xc0130006),
            NtStatusWindows::STATUS_CLUSTER_NETWORK_NOT_FOUND => Some(0xc0130007),
            NtStatusWindows::STATUS_CLUSTER_NETINTERFACE_EXISTS => Some(0xc0130008),
            NtStatusWindows::STATUS_CLUSTER_NETINTERFACE_NOT_FOUND => Some(0xc0130009),
            NtStatusWindows::STATUS_CLUSTER_INVALID_REQUEST => Some(0xc013000a),
            NtStatusWindows::STATUS_CLUSTER_INVALID_NETWORK_PROVIDER => Some(0xc013000b),
            NtStatusWindows::STATUS_CLUSTER_NODE_DOWN => Some(0xc013000c),
            NtStatusWindows::STATUS_CLUSTER_NODE_UNREACHABLE => Some(0xc013000d),
            NtStatusWindows::STATUS_CLUSTER_NODE_NOT_MEMBER => Some(0xc013000e),
            NtStatusWindows::STATUS_CLUSTER_JOIN_NOT_IN_PROGRESS => Some(0xc013000f),
            NtStatusWindows::STATUS_CLUSTER_INVALID_NETWORK => Some(0xc0130010),
            NtStatusWindows::STATUS_CLUSTER_NO_NET_ADAPTERS => Some(0xc0130011),
            NtStatusWindows::STATUS_CLUSTER_NODE_UP => Some(0xc0130012),
            NtStatusWindows::STATUS_CLUSTER_NODE_PAUSED => Some(0xc0130013),
            NtStatusWindows::STATUS_CLUSTER_NODE_NOT_PAUSED => Some(0xc0130014),
            NtStatusWindows::STATUS_CLUSTER_NO_SECURITY_CONTEXT => Some(0xc0130015),
            NtStatusWindows::STATUS_CLUSTER_NETWORK_NOT_INTERNAL => Some(0xc0130016),
            NtStatusWindows::STATUS_CLUSTER_POISONED => Some(0xc0130017),
            NtStatusWindows::STATUS_CLUSTER_NON_CSV_PATH => Some(0xc0130018),
            NtStatusWindows::STATUS_CLUSTER_CSV_VOLUME_NOT_LOCAL => Some(0xc0130019),
            NtStatusWindows::STATUS_CLUSTER_CSV_READ_OPLOCK_BREAK_IN_PROGRESS => Some(0xc0130020),
            NtStatusWindows::STATUS_CLUSTER_CSV_AUTO_PAUSE_ERROR => Some(0xc0130021),
            NtStatusWindows::STATUS_CLUSTER_CSV_REDIRECTED => Some(0xc0130022),
            NtStatusWindows::STATUS_CLUSTER_CSV_NOT_REDIRECTED => Some(0xc0130023),
            NtStatusWindows::STATUS_CLUSTER_CSV_VOLUME_DRAINING => Some(0xc0130024),
            NtStatusWindows::STATUS_CLUSTER_CSV_SNAPSHOT_CREATION_IN_PROGRESS => Some(0xc0130025),
            NtStatusWindows::STATUS_CLUSTER_CSV_VOLUME_DRAINING_SUCCEEDED_DOWNLEVEL => Some(0xc0130026),
            NtStatusWindows::STATUS_CLUSTER_CSV_NO_SNAPSHOTS => Some(0xc0130027),
            _ => None,
        }
    }

    /// One slice of the symbol table.
    #[verifier::spinoff_prover]
    #[verifier::rlimit(100)]
    fn from_u32_part28(raw: u32) -> (r: Option<NtStatusWindows>)
        ensures
            r == NtStatusWindows::spec_from_u32_part28(raw),
    {
        match raw {
            0xc00a0031 => Some(NtStatusWindows::STATUS_CTX_SHADOW_DISABLED),
            0xc00a0032 => Some(NtStatusWindows::STATUS_RDP_PROTOCOL_ERROR),
            0xc00a0033 => Some(NtStatusWindows::STATUS_CTX_CLIENT_LICENSE_NOT_SET),
            0xc00a0034 => Some(NtStatusWindows::STATUS_CTX_CLIENT_LICENSE_IN_USE),
            0xc00a0035 => Some(NtStatusWindows::STATUS_CTX_SHADOW_ENDED_BY_MODE_CHANGE),
            0xc00a0036 => Some(NtStatusWindows::STATUS_CTX_SHADOW_NOT_RUNNING),
            0xc00a0037 => Some(NtStatusWindows::STATUS_CTX_LOGON_DISABLED),
            0xc00a0038 => Some(NtStatusWindows::STATUS_CTX_SECURITY_LAYER_ERROR),
            0xc00a0039 => Some(NtStatusWindows::STATUS_TS_INCOMPATIBLE_SESSIONS),
            0xc00a003a => Some(NtStatusWindows::STATUS_TS_VIDEO_SUBSYSTEM_ERROR),
            0xc00b0001 => Some(NtStatusWindows::STATUS_MUI_FILE_NOT_FOUND),
            0xc00b0002 => Some(NtStatusWindows::STATUS_MUI_INVALID_FILE),
            0xc00b0003 => Some(NtStatusWindows::STATUS_MUI_INVALID_RC_CONFIG),
            0xc00b0004 => Some(NtStatusWindows::STATUS_MUI_INVALID_LOCALE_NAME),
            0xc00b0005 => Some(NtStatusWindows::STATUS_MUI_INVALID_ULTIMATEFALLBACK_NAME),
            0xc00b0006 => Some(NtStatusWindows::STATUS_MUI_FILE_NOT_LOADED),
            0xc00b0007 => Some(NtStatusWindows::STATUS_RESOURCE_ENUM_USER_STOP),
            0xc0130001 => Some(NtStatusWindows::STATUS_CLUSTER_INVALID_NODE),
            0xc0130002 => Some(NtStatusWindows::STATUS_CLUSTER_NODE_EXISTS),
            0xc0130003 => Some(NtStatusWindows::STATUS_CLUSTER_JOIN_IN_PROGRESS),
            0xc0130004 => Some(NtStatusWindows::STATUS_CLUSTER_NODE_NOT_FOUND),
            0xc0130005 => Some(NtStatusWindows::STATUS_CLUSTER_LOCAL_NODE_NOT_FOUND),
            0xc0130006 => Some(NtStatusWindows::STATUS_CLUSTER_NETWORK_EXISTS),
            0xc0130007 => Some(NtStatusWindows::STATUS_CLUSTER_NETWORK_NOT_FOUND),
            0xc0130008 => Some(NtStatusWindows::STATUS_CLUSTER_NETINTERFACE_EXISTS),
            0xc0130009 => Some(NtStatusWindows::STATUS_CLUSTER_NETINTERFACE_NOT_FOUND),
            0xc013000a => Some(NtStatusWindows::STATUS_CLUSTER_INVALID_REQUEST),
            0xc013000b => Some(NtStatusWindows::STATUS_CLUSTER_INVALID_NETWORK_PROVIDER),
            0xc013000c => Some(NtStatusWindows::STATUS_CLUSTER_NODE_DOWN),
            0xc013000d => Some(NtStatusWindows::STATUS_CLUSTER_NODE_UNREACHABLE),
            0xc013000e => Some(NtStatusWindows::STATUS_CLUSTER_NODE_NOT_MEMBER),
            0xc013000f => Some(NtStatusWindows::STATUS_CLUSTER_JOIN_NOT_IN_PROGRESS),
            0xc0130010 => Some(NtStatusWindows::STATUS_CLUSTER_INVALID_NETWORK),
            0xc0130011 => Some(NtStatusWindows::STATUS_CLUSTER_NO_NET_ADAPTERS),
            0xc0130012 => Some(NtStatusWindows::STATUS_CLUSTER_NODE_UP),
            0xc0130013 => Some(NtStatusWindows::STATUS_CLUSTER_NODE_PAUSED),
            0xc0130014 => Some(NtStatusWindows::STATUS_CLUSTER_NODE_NOT_PAUSED),
            0xc0130015 => Some(NtStatusWindows::STATUS_CLUSTER_NO_SECURITY_CONTEXT),
            0xc0130016 => Some(NtStatusWindows::STATUS_CLUSTER_NETWORK_NOT_INTERNAL),
            0xc0130017 => Some(NtStatusWindows::STATUS_CLUSTER_POISONED),
            0xc0130018 => Some(NtStatusWindows::STATUS_CLUSTER_NON_CSV_PATH),
            0xc0130019 => Some(NtStatusWindows::STATUS_CLUSTER_CSV_VOLUME_NOT_LOCAL),
            0xc0130020 => Some(NtStatusWindows::STATUS_CLUSTER_CSV_READ_OPLOCK_BREAK_IN_PROGRESS),
            0xc0130021 => Some(NtStatusWindows::STATUS_CLUSTER_CSV_AUTO_PAUSE_ERROR),
            0xc0130022 => Some(NtStatusWindows::STATUS_CLUSTER_CSV_REDIRECTED),
            0xc0130023 => Some(NtStatusWindows::STATUS_CLUSTER_CSV_NOT_REDIRECTED),
            0xc0130024 => Some(NtStatusWindows::STATUS_CLUSTER_CSV_VOLUME_DRAINING),
            0xc0130025 => Some(NtStatusWindows::STATUS_CLUSTER_CSV_SNAPSHOT_CREATION_IN_PROGRESS),
            0xc0130026 => Some(NtStatusWindows::STATUS_CLUSTER_CSV_VOLUME_DRAINING_SUCCEEDED_DOWNLEVEL),
            0xc0130027 => Some(NtStatusWindows::STATUS_CLUSTER_CSV_NO_SNAPSHOTS),
            _ => None,
        }
    }

    /// One slice of the symbol table: the raw value of this symbol,
    /// where this slice holds it.
    pub open spec fn spec_to_u32_part29(self) -> Option<u32> {
        match self {
            NtStatusWindows::STATUS_CSV_IO_PAUSE_TIMEOUT => Some(0xc0130028),
            NtStatusWindows::STATUS_CLUSTER_CSV_INVALID_HANDLE => Some(0xc0130029),
            NtStatusWindows::STATUS_CLUSTER_CSV_SUPPORTED_ONLY_ON_COORDINATOR => Some(0xc0130030),
            NtStatusWindows::STATUS_CLUSTER_CAM_TICKET_REPLAY_DETECTED => Some(0xc0130031),
            NtStatusWindows::STATUS_ACPI_INVALID_OPCODE => Some(0xc0140001),
            NtStatusWindows::STATUS_ACPI_STACK_OVERFLOW => Some(0xc0140002),
            NtStatusWindows::STATUS_ACPI_ASSERT_FAILED => Some(0xc0140003),
            NtStatusWindows::STATUS_ACPI_INVALID_INDEX => Some(0xc0140004),
            NtStatusWindows::STATUS_ACPI_INVALID_ARGUMENT => Some(0xc0140005),
            NtStatusWindows::STATUS_ACPI_FATAL => Some(0xc0140006),
            NtStatusWindows::STATUS_ACPI_INVALID_SUPERNAME => Some(0xc0140007),
            NtStatusWindows::STATUS_ACPI_INVALID_ARGTYPE => Some(0xc0140008),
            NtStatusWindows::STATUS_ACPI_INVALID_OBJTYPE => Some(0xc0140009),
            NtStatusWindows::STATUS_ACPI_INVALID_TARGETTYPE => Some(0xc014000a),
            NtStatusWindows::STATUS_ACPI_INCORRECT_ARGUMENT_COUNT => Some(0xc014000b),
            NtStatusWindows::STATUS_ACPI_ADDRESS_NOT_MAPPED => Some(0xc014000c),
            NtStatusWindows::STATUS_ACPI_INVALID_EVENTTYPE => Some(0xc014000d),
            NtStatusWindows::STATUS_ACPI_HANDLER_COLLISION => Some(0xc014000e),
            NtStatusWindows::STATUS_ACPI_INVALID_DATA => Some(0xc014000f),
            NtStatusWindows::STATUS_ACPI_INVALID_REGION => Some(0xc0140010),
            NtStatusWindows::STATUS_ACPI_INVALID_ACCESS_SIZE => Some(0xc0140011),
            NtStatusWindows::STATUS_ACPI_ACQUIRE_GLOBAL_LOCK => Some(0xc0140012),
            NtStatusWindows::STATUS_ACPI_ALREADY_INITIALIZED => Some(0xc0140013),
            NtStatusWindows::STATUS_ACPI_NOT_INITIALIZED => Some(0xc0140014),
            NtStatusWindows::STATUS_ACPI_INVALID_MUTEX_LEVEL => Some(0xc0140015),
            NtStatusWindows::STATUS_ACPI_MUTEX_NOT_OWNED => Some(0xc0140016),
            NtStatusWindows::STATUS_ACPI_MUTEX_NOT_OWNER => Some(0xc0140017),
            NtStatusWindows::STATUS_ACPI_RS_ACCESS => Some(0xc0140018),
            NtStatusWindows::STATUS_ACPI_INVALID_TABLE => Some(0xc0140019),
            NtStatusWindows::STATUS_ACPI_REG_HANDLER_FAILED => Some(0xc0140020),
            NtStatusWindows::STATUS_ACPI_POWER_REQUEST_FAILED => Some(0xc0140021),
            NtStatusWindows::STATUS_SXS_SECTION_NOT_FOUND => Some(0xc0150001),
            NtStatusWindows::STATUS_SXS_CANT_GEN_ACTCTX => Some(0xc0150002),
            NtStatusWindows::STATUS_SXS_INVALID_ACTCTXDATA_FORMAT => Some(0xc0150003),
            NtStatusWindows::STATUS_SXS_ASSEMBLY_NOT_FOUND => Some(0xc0150004),
            NtStatusWindows::STATUS_SXS_MANIFEST_FORMAT_ERROR => Some(0xc0150005),
            NtStatusWindows::STATUS_SXS_MANIFEST_PARSE_ERROR => Some(0xc0150006),
            NtStatusWindows::STATUS_SXS_ACTIVATION_CONTEXT_DISABLED => Some(0xc0150007),
            NtStatusWindows::STATUS_SXS_KEY_NOT_FOUND => Some(0xc0150008),
            NtStatusWindows::STATUS_SXS_VERSION_CONFLICT => Some(0xc0150009),
            NtStatusWindows::STATUS_SXS_WRONG_SECTION_TYPE => Some(0xc015000a),
            NtStatusWindows::STATUS_SXS_THREAD_QUERIES_DISABLED => Some(0xc015000b),
            NtStatusWindows::STATUS_SXS_ASSEMBLY_MISSING => Some(0xc015000c),
            NtStatusWindows::STATUS_SXS_PROCESS_DEFAULT_ALREADY_SET => Some(0xc015000e),
            NtStatusWindows::STATUS_SXS_EARLY_DEACTIVATION => Some(0xc015000f),
            NtStatusWindows::STATUS_SXS_INVALID_DEACTIVATION => Some(0xc0150010),
            NtStatusWindows::STATUS_SXS_MULTIPLE_DEACTIVATION => Some(0xc0150011),
            NtStatusWindows::STATUS_SXS_SYSTEM_DEFAULT_ACTIVATION_CONTEXT_EMPTY => Some(0xc0150012),
            NtStatusWindows::STATUS_SXS_PROCESS_TERMINATION_REQUESTED => Some(0xc0150013),
            NtStatusWindows::STATUS_SXS_CORRUPT_ACTIVATION_STACK => Some(0xc0150014),
            _ => None,
        }
    }

    /// One slice of the symbol table: the symbol this slice gives a
    /// raw value, where it holds one.
    pub open spec fn spec_from_u32_part29(raw: u32) -> Option<NtStatusWindows> {
        match raw {
            0xc0130028 => Some(NtStatusWindows::STATUS_CSV_IO_PAUSE_TIMEOUT),
            0xc0130029 => Some(NtStatusWindows::STATUS_CLUSTER_CSV_INVALID_HANDLE),
            0xc0130030 => Some(NtStatusWindows::STATUS_CLUSTER_CSV_SUPPORTED_ONLY_ON_COORDINATOR),
            0xc0130031 => Some(NtStatusWindows::STATUS_CLUSTER_CAM_TICKET_REPLAY_DETECTED),
            0xc0140001 => Some(NtStatusWindows::STATUS_ACPI_INVALID_OPCODE),
            0xc0140002 => Some(NtStatusWindows::STATUS_ACPI_STACK_OVERFLOW),
            0xc0140003 => Some(NtStatusWindows::STATUS_ACPI_ASSERT_FAILED),
            0xc0140004 => Some(NtStatusWindows::STATUS_ACPI_INVALID_INDEX),
            0xc0140005 => Some(NtStatusWindows::STATUS_ACPI_INVALID_ARGUMENT),
            0xc0140006 => Some(NtStatusWindows::STATUS_ACPI_FATAL),
            0xc0140007 => Some(NtStatusWindows::STATUS_ACPI_INVALID_SUPERNAME),
            0xc0140008 => Some(NtStatusWindows::STATUS_ACPI_INVALID_ARGTYPE),
            0xc0140009 => Some(NtStatusWindows::STATUS_ACPI_INVALID_OBJTYPE),
            0xc014000a => Some(NtStatusWindows::STATUS_ACPI_INVALID_TARGETTYPE),
            0xc014000b => Some(NtStatusWindows::STATUS_ACPI_INCORRECT_ARGUMENT_COUNT),
            0xc014000c => Some(NtStatusWindows::STATUS_ACPI_ADDRESS_NOT_MAPPED),
            0xc014000d => Some(NtStatusWindows::STATUS_ACPI_INVALID_EVENTTYPE),
            0xc014000e => Some(NtStatusWindows::STATUS_ACPI_HANDLER_COLLISION),
            0xc014000f => Some(NtStatusWindows::STATUS_ACPI_INVALID_DATA),
            0xc0140010 => Some(NtStatusWindows::STATUS_ACPI_INVALID_REGION),
            0xc0140011 => Some(NtStatusWindows::STATUS_ACPI_INVALID_ACCESS_SIZE),
            0xc0140012 => Some(NtStatusWindows::STATUS_ACPI_ACQUIRE_GLOBAL_LOCK),
            0xc0140013 => Some(NtStatusWindows::STATUS_ACPI_ALREADY_INITIALIZED),
            0xc0140014 => Some(NtStatusWindows::STATUS_ACPI_NOT_INITIALIZED),
            0xc0140015 => Some(NtStatusWindows::STATUS_ACPI_INVALID_MUTEX_LEVEL),
            0xc0140016 => Some(NtStatusWindows::STATUS_ACPI_MUTEX_NOT_OWNED),
            0xc0140017 => Some(NtStatusWindows::STATUS_ACPI_MUTEX_NOT_OWNER),
            0xc0140018 => Some(NtStatusWindows::STATUS_ACPI_RS_ACCESS),
            0xc0140019 => Some(NtStatusWindows::STATUS_ACPI_INVALID_TABLE),
            0xc0140020 => Some(NtStatusWindows::STATUS_ACPI_REG_HANDLER_FAILED),
            0xc0140021 => Some(NtStatusWindows::STATUS_ACPI_POWER_REQUEST_FAILED),
            0xc0150001 => Some(NtStatusWindows::STATUS_SXS_SECTION_NOT_FOUND),
            0xc0150002 => Some(NtStatusWindows::STATUS_SXS_CANT_GEN_ACTCTX),
            0xc0150003 => Some(NtStatusWindows::STATUS_SXS_INVALID_ACTCTXDATA_FORMAT),
            0xc0150004 => Some(NtStatusWindows::STATUS_SXS_ASSEMBLY_NOT_FOUND),
            0xc0150005 => Some(NtStatusWindows::STATUS_SXS_MANIFEST_FORMAT_ERROR),
            0xc0150006 => Some(NtStatusWindows::STATUS_SXS_MANIFEST_PARSE_ERROR),
            0xc0150007 => Some(NtStatusWindows::STATUS_SXS_ACTIVATION_CONTEXT_DISABLED),
            0xc0150008 => Some(NtStatusWindows::STATUS_SXS_KEY_NOT_FOUND),
            0xc0150009 => Some(NtStatusWindows::STATUS_SXS_VERSION_CONFLICT),
            0xc015000a => Some(NtStatusWindows::STATUS_SXS_WRONG_SECTION_TYPE),
            0xc015000b => Some(NtStatusWindows::STATUS_SXS_THREAD_QUERIES_DISABLED),
            0xc015000c => Some(NtStatusWindows::STATUS_SXS_ASSEMBLY_MISSING),
            0xc015000e => Some(NtStatusWindows::STATUS_SXS_PROCESS_DEFAULT_ALREADY_SET),
            0xc015000f => Some(NtStatusWindows::STATUS_SXS_EARLY_DEACTIVATION),
            0xc0150010 => Some(NtStatusWindows::STATUS_SXS_INVALID_DEACTIVATION),
            0xc0150011 => Some(NtStatusWindows::STATUS_SXS_MULTIPLE_DEACTIVATION),
            0xc0150012 => Some(NtStatusWindows::STATUS_SXS_SYSTEM_DEFAULT_ACTIVATION_CONTEXT_EMPTY),
            0xc0150013 => Some(NtStatusWindows::STATUS_SXS_PROCESS_TERMINATION_REQUESTED),
            0xc0150014 => Some(NtStatusWindows::STATUS_SXS_CORRUPT_ACTIVATION_STACK),
            _ => None,
        }
    }

    /// One slice of the symbol table.
    #[verifier::spinoff_prover]
    #[verifier::rlimit(100)]
    fn to_u32_part29(self) -> (r: Option<u32>)
        ensures
            r == self.spec_to_u32_part29(),
    {
        match self {
            NtStatusWindows::STATUS_CSV_IO_PAUSE_TIMEOUT => Some(0xc0130028),
            NtStatusWindows::STATUS_CLUSTER_CSV_INVALID_HANDLE => Some(0xc0130029),
            NtStatusWindows::STATUS_CLUSTER_CSV_SUPPORTED_ONLY_ON_COORDINATOR => Some(0xc0130030),
            NtStatusWindows::STATUS_CLUSTER_CAM_TICKET_REPLAY_DETECTED => Some(0xc0130031),
            NtStatusWindows::STATUS_ACPI_INVALID_OPCODE => Some(0xc0140001),
            NtStatusWindows::STATUS_ACPI_STACK_OVERFLOW => Some(0xc0140002),
            NtStatusWindows::STATUS_ACPI_ASSERT_FAILED => Some(0xc0140003),
            NtStatusWindows::STATUS_ACPI_INVALID_INDEX => Some(0xc0140004),
            NtStatusWindows::STATUS_ACPI_INVALID_ARGUMENT => Some(0xc0140005),
            NtStatusWindows::STATUS_ACPI_FATAL => Some(0xc0140006),
            NtStatusWindows::STATUS_ACPI_INVALID_SUPERNAME => Some(0xc0140007),
            NtStatusWindows::STATUS_ACPI_INVALID_ARGTYPE => Some(0xc0140008),
            NtStatusWindows::STATUS_ACPI_INVALID_OBJTYPE => Some(0xc0140009),
            NtStatusWindows::STATUS_ACPI_INVALID_TARGETTYPE => Some(0xc014000a),
            NtStatusWindows::STATUS_ACPI_INCORRECT_ARGUMENT_COUNT => Some(0xc014000b),
            NtStatusWindows::STATUS_ACPI_ADDRESS_NOT_MAPPED => Some(0xc014000c),
            NtStatusWindows::STATUS_ACPI_INVALID_EVENTTYPE => Some(0xc014000d),
            NtStatusWindows::STATUS_ACPI_HANDLER_COLLISION => Some(0xc014000e),
            NtStatusWindows::STATUS_ACPI_INVALID_DATA => Some(0xc014000f),
            NtStatusWindows::STATUS_ACPI_INVALID_REGION => Some(0xc0140010),
            NtStatusWindows::STATUS_ACPI_INVALID_ACCESS_SIZE => Some(0xc0140011),
            NtStatusWindows::STATUS_ACPI_ACQUIRE_GLOBAL_LOCK => Some(0xc0140012),
            NtStatusWindows::STATUS_ACPI_ALREADY_INITIALIZED => Some(0xc0140013),
            NtStatusWindows::STATUS_ACPI_NOT_INITIALIZED => Some(0xc0140014),
            NtStatusWindows::STATUS_ACPI_INVALID_MUTEX_LEVEL => Some(0xc0140015),
            NtStatusWindows::STATUS_ACPI_MUTEX_NOT_OWNED => Some(0xc0140016),
            NtStatusWindows::STATUS_ACPI_MUTEX_NOT_OWNER => Some(0xc0140017),
            NtStatusWindows::STATUS_ACPI_RS_ACCESS => Some(0xc0140018),
            NtStatusWindows::STATUS_ACPI_INVALID_TABLE => Some(0xc0140019),
            NtStatusWindows::STATUS_ACPI_REG_HANDLER_FAILED => Some(0xc0140020),
            NtStatusWindows::STATUS_ACPI_POWER_REQUEST_FAILED => Some(0xc0140021),
            NtStatusWindows::STATUS_SXS_SECTION_NOT_FOUND => Some(0xc0150001),
            NtStatusWindows::STATUS_SXS_CANT_GEN_ACTCTX => Some(0xc0150002),
            NtStatusWindows::STATUS_SXS_INVALID_ACTCTXDATA_FORMAT => Some(0xc0150003),
            NtStatusWindows::STATUS_SXS_ASSEMBLY_NOT_FOUND => Some(0xc0150004),
            NtStatusWindows::STATUS_SXS_MANIFEST_FORMAT_ERROR => Some(0xc0150005),
            NtStatusWindows::STATUS_SXS_MANIFEST_PARSE_ERROR => Some(0xc0150006),
            NtStatusWindows::STATUS_SXS_ACTIVATION_CONTEXT_DISABLED => Some(0xc0150007),
            NtStatusWindows::STATUS_SXS_KEY_NOT_FOUND => Some(0xc0150008),
            NtStatusWindows::STATUS_SXS_VERSION_CONFLICT => Some(0xc0150009),
            NtStatusWindows::STATUS_SXS_WRONG_SECTION_TYPE => Some(0xc015000a),
            NtStatusWindows::STATUS_SXS_THREAD_QUERIES_DISABLED => Some(0xc015000b),
            NtStatusWindows::STATUS_SXS_ASSEMBLY_MISSING => Some(0xc015000c),
            NtStatusWindows::STATUS_SXS_PROCESS_DEFAULT_ALREADY_SET => Some(0xc015000e),
            NtStatusWindows::STATUS_SXS_EARLY_DEACTIVATION => Some(0xc015000f),
            NtStatusWindows::STATUS_SXS_INVALID_DEACTIVATION => Some(0xc0150010),
            NtStatusWindows::STATUS_SXS_MULTIPLE_DEACTIVATION => Some(0xc0150011),
            NtStatusWindows::STATUS_SXS_SYSTEM_DEFAULT_ACTIVATION_CONTEXT_EMPTY => Some(0xc0150012),
            NtStatusWindows::STATUS_SXS_PROCESS_TERMINATION_REQUESTED => Some(0xc0150013),
            NtStatusWindows::STATUS_SXS_CORRUPT_ACTIVATION_STACK => Some(0xc0150014),
            _ => None,
        }
    }

    /// One slice of the symbol table.
    #[verifier::spinoff_prover]
    #[verifier::rlimit(100)]
    fn from_u32_part29(raw: u32) -> (r: Option<NtStatusWindows>)
        ensures
            r == NtStatusWindows::spec_from_u32_part29(raw),
    {
        match raw {
            0xc0130028 => Some(NtStatusWindows::STATUS_CSV_IO_PAUSE_TIMEOUT),
            0xc0130029 => Some(NtStatusWindows::STATUS_CLUSTER_CSV_INVALID_HANDLE),
            0xc0130030 => Some(NtStatusWindows::STATUS_CLUSTER_CSV_SUPPORTED_ONLY_ON_COORDINATOR),
            0xc0130031 => Some(NtStatusWindows::STATUS_CLUSTER_CAM_TICKET_REPLAY_DETECTED),
            0xc0140001 => Some(NtStatusWindows::STATUS_ACPI_INVALID_OPCODE),
            0xc0140002 => Some(NtStatusWindows::STATUS_ACPI_STACK_OVERFLOW),
            0xc0140003 => Some(NtStatusWindows::STATUS_ACPI_ASSERT_FAILED),
            0xc0140004 => Some(NtStatusWindows::STATUS_ACPI_INVALID_INDEX),
            0xc0140005 => Some(NtStatusWindows::STATUS_ACPI_INVALID_ARGUMENT),
            0xc0140006 => Some(NtStatusWindows::STATUS_ACPI_FATAL),
            0xc0140007 => Some(NtStatusWindows::STATUS_ACPI_INVALID_SUPERNAME),
            0xc0140008 => Some(NtStatusWindows::STATUS_ACPI_INVALID_ARGTYPE),
            0xc0140009 => Some(NtStatusWindows::STATUS_ACPI_INVALID_OBJTYPE),
            0xc014000a => Some(NtStatusWindows::STATUS_ACPI_INVALID_TARGETTYPE),
            0xc014000b => Some(NtStatusWindows::STATUS_ACPI_INCORRECT_ARGUMENT_COUNT),
            0xc014000c => Some(NtStatusWindows::STATUS_ACPI_ADDRESS_NOT_MAPPED),
            0xc014000d => Some(NtStatusWindows::STATUS_ACPI_INVALID_EVENTTYPE),
            0xc014000e => Some(NtStatusWindows::STATUS_ACPI_HANDLER_COLLISION),
            0xc014000f => Some(NtStatusWindows::STATUS_ACPI_INVALID_DATA),
            0xc0140010 => Some(NtStatusWindows::STATUS_ACPI_INVALID_REGION),
            0xc0140011 => Some(NtStatusWindows::STATUS_ACPI_INVALID_ACCESS_SIZE),
            0xc0140012 => Some(NtStatusWindows::STATUS_ACPI_ACQUIRE_GLOBAL_LOCK),
            0xc0140013 => Some(NtStatusWindows::STATUS_ACPI_ALREADY_INITIALIZED),
            0xc0140014 => Some(NtStatusWindows::STATUS_ACPI_NOT_INITIALIZED),
            0xc0140015 => Some(NtStatusWindows::STATUS_ACPI_INVALID_MUTEX_LEVEL),
            0xc0140016 => Some(NtStatusWindows::STATUS_ACPI_MUTEX_NOT_OWNED),
            0xc0140017 => Some(NtStatusWindows::STATUS_ACPI_MUTEX_NOT_OWNER),
            0xc0140018 => Some(NtStatusWindows::STATUS_ACPI_RS_ACCESS),
            0xc0140019 => Some(NtStatusWindows::STATUS_ACPI_INVALID_TABLE),
            0xc0140020 => Some(NtStatusWindows::STATUS_ACPI_REG_HANDLER_FAILED),
            0xc0140021 => Some(NtStatusWindows::STATUS_ACPI_POWER_REQUEST_FAILED),
            0xc0150001 => Some(NtStatusWindows::STATUS_SXS_SECTION_NOT_FOUND),
            0xc0150002 => Some(NtStatusWindows::STATUS_SXS_CANT_GEN_ACTCTX),
            0xc0150003 => Some(NtStatusWindows::STATUS_SXS_INVALID_ACTCTXDATA_FORMAT),
            0xc0150004 => Some(NtStatusWindows::STATUS_SXS_ASSEMBLY_NOT_FOUND),
            0xc0150005 => Some(NtStatusWindows::STATUS_SXS_MANIFEST_FORMAT_ERROR),
            0xc0150006 => Some(NtStatusWindows::STATUS_SXS_MANIFEST_PARSE_ERROR),
            0xc0150007 => Some(NtStatusWindows::STATUS_SXS_ACTIVATION_CONTEXT_DISABLED),
            0xc0150008 => Some(NtStatusWindows::STATUS_SXS_KEY_NOT_FOUND),
            0xc0150009 => Some(NtStatusWindows::STATUS_SXS_VERSION_CONFLICT),
            0xc015000a => Some(NtStatusWindows::STATUS_SXS_WRONG_SECTION_TYPE),
            0xc015000b => Some(NtStatusWindows::STATUS_SXS_THREAD_QUERIES_DISABLED),
            0xc015000c => Some(NtStatusWindows::STATUS_SXS_ASSEMBLY_MISSING),
            0xc015000e => Some(NtStatusWindows::STATUS_SXS_PROCESS_DEFAULT_ALREADY_SET),
            0xc015000f => Some(NtStatusWindows::STATUS_SXS_EARLY_DEACTIVATION),
            0xc0150010 => Some(NtStatusWindows::STATUS_SXS_INVALID_DEACTIVATION),
            0xc0150011 => Some(NtStatusWindows::STATUS_SXS_MULTIPLE_DEACTIVATION),
            0xc0150012 => Some(NtStatusWindows::STATUS_SXS_SYSTEM_DEFAULT_ACTIVATION_CONTEXT_EMPTY),
            0xc0150013 => Some(NtStatusWindows::STATUS_SXS_PROCESS_TERMINATION_REQUESTED),
            0xc0150014 => Some(NtStatusWindows::STATUS_SXS_CORRUPT_ACTIVATION_STACK),
            _ => None,
        }
    }

    /// One slice of the symbol table: the raw value of this symbol,
    /// where this slice holds it.
    pub open spec fn spec_to_u32_part30(self) -> Option<u32> {
        match self {
            NtStatusWindows::STATUS_SXS_CORRUPTION => Some(0xc0150015),
            NtStatusWindows::STATUS_SXS_INVALID_IDENTITY_ATTRIBUTE_VALUE => Some(0xc0150016),
            NtStatusWindows::STATUS_SXS_INVALID_IDENTITY_ATTRIBUTE_NAME => Some(0xc0150017),
            NtStatusWindows::STATUS_SXS_IDENTITY_DUPLICATE_ATTRIBUTE => Some(0xc0150018),
            NtStatusWindows::STATUS_SXS_IDENTITY_PARSE_ERROR => Some(0xc0150019),
            NtStatusWindows::STATUS_SXS_COMPONENT_STORE_CORRUPT => Some(0xc015001a),
            NtStatusWindows::STATUS_SXS_FILE_HASH_MISMATCH => Some(0xc015001b),
            NtStatusWindows::STATUS_SXS_MANIFEST_IDENTITY_SAME_BUT_CONTENTS_DIFFERENT => Some(0xc015001c),
            NtStatusWindows::STATUS_SXS_IDENTITIES_DIFFERENT => Some(0xc015001d),
            NtStatusWindows::STATUS_SXS_ASSEMBLY_IS_NOT_A_DEPLOYMENT => Some(0xc015001e),
            NtStatusWindows::STATUS_SXS_FILE_NOT_PART_OF_ASSEMBLY => Some(0xc015001f),
            NtStatusWindows::STATUS_ADVANCED_INSTALLER_FAILED => Some(0xc0150020),
            NtStatusWindows::STATUS_XML_ENCODING_MISMATCH => Some(0xc0150021),
            NtStatusWindows::STATUS_SXS_MANIFEST_TOO_BIG => Some(0xc0150022),
            NtStatusWindows::STATUS_SXS_SETTING_NOT_REGISTERED => Some(0xc0150023),
            NtStatusWindows::STATUS_SXS_TRANSACTION_CLOSURE_INCOMPLETE => Some(0xc0150024),
            NtStatusWindows::STATUS_SMI_PRIMITIVE_INSTALLER_FAILED => Some(0xc0150025),
            NtStatusWindows::STATUS_GENERIC_COMMAND_FAILED => Some(0xc0150026),
            NtStatusWindows::STATUS_SXS_FILE_HASH_MISSING => Some(0xc0150027),
            NtStatusWindows::STATUS_TRANSACTIONAL_CONFLICT => Some(0xc0190001),
            NtStatusWindows::STATUS_INVALID_TRANSACTION => Some(0xc0190002),
            NtStatusWindows::STATUS_TRANSACTION_NOT_ACTIVE => Some(0xc0190003),
            NtStatusWindows::STATUS_TM_INITIALIZATION_FAILED => Some(0xc0190004),
            NtStatusWindows::STATUS_RM_NOT_ACTIVE => Some(0xc0190005),
            NtStatusWindows::STATUS_RM_METADATA_CORRUPT => Some(0xc0190006),
            NtStatusWindows::STATUS_TRANSACTION_NOT_JOINED => Some(0xc0190007),
            NtStatusWindows::STATUS_DIRECTORY_NOT_RM => Some(0xc0190008),
            NtStatusWindows::STATUS_TRANSACTIONS_UNSUPPORTED_REMOTE => Some(0xc019000a),
            NtStatusWindows::STATUS_LOG_RESIZE_INVALID_SIZE => Some(0xc019000b),
            NtStatusWindows::STATUS_REMOTE_FILE_VERSION_MISMATCH => Some(0xc019000c),
            NtStatusWindows::STATUS_CRM_PROTOCOL_ALREADY_EXISTS => Some(0xc019000f),
            NtStatusWindows::STATUS_TRANSACTION_PROPAGATION_FAILED => Some(0xc0190010),
            NtStatusWindows::STATUS_CRM_PROTOCOL_NOT_FOUND => Some(0xc0190011),
            NtStatusWindows::STATUS_TRANSACTION_SUPERIOR_EXISTS => Some(0xc0190012),
            NtStatusWindows::STATUS_TRANSACTION_REQUEST_NOT_VALID => Some(0xc0190013),
            NtStatusWindows::STATUS_TRANSACTION_NOT_REQUESTED => Some(0xc0190014),
            NtStatusWindows::STATUS_TRANSACTION_ALREADY_ABORTED => Some(0xc0190015),
            NtStatusWindows::STATUS_TRANSACTION_ALREADY_COMMITTED => Some(0xc0190016),
            NtStatusWindows::STATUS_TRANSACTION_INVALID_MARSHALL_BUFFER => Some(0xc0190017),
            NtStatusWindows::STATUS_CURRENT_TRANSACTION_NOT_VALID => Some(0xc0190018),
            NtStatusWindows::STATUS_LOG_GROWTH_FAILED => Some(0xc0190019),
            NtStatusWindows::STATUS_OBJECT_NO_LONGER_EXISTS => Some(0xc0190021),
            NtStatusWindows::STATUS_STREAM_MINIVERSION_NOT_FOUND => Some(0xc0190022),
            NtStatusWindows::STATUS_STREAM_MINIVERSION_NOT_VALID => Some(0xc0190023),
            NtStatusWindows::STATUS_MINIVERSION_INACCESSIBLE_FROM_SPECIFIED_TRANSACTION => Some(0xc0190024),
            NtStatusWindows::STATUS_CANT_OPEN_MINIVERSION_WITH_MODIFY_INTENT => Some(0xc0190025),
            NtStatusWindows::STATUS_CANT_CREATE_MORE_STREAM_MINIVERSIONS => Some(0xc0190026),
            NtStatusWindows::STATUS_HANDLE_NO_LONGER_VALID => Some(0xc0190028),
            NtStatusWindows::STATUS_LOG_CORRUPTION_DETECTED => Some(0xc0190030),
            NtStatusWindows::STATUS_RM_DISCONNECTED => Some(0xc0190032),
            _ => None,
        }
    }

    /// One slice of the symbol table: the symbol this slice gives a
    /// raw value, where it holds one.
    pub open spec fn spec_from_u32_part30(raw: u32) -> Option<NtStatusWindows> {
        match raw {
            0xc0150015 => Some(NtStatusWindows::STATUS_SXS_CORRUPTION),
            0xc0150016 => Some(NtStatusWindows::STATUS_SXS_INVALID_IDENTITY_ATTRIBUTE_VALUE),
            0xc0150017 => Some(NtStatusWindows::STATUS_SXS_INVALID_IDENTITY_ATTRIBUTE_NAME),
            0xc0150018 => Some(NtStatusWindows::STATUS_SXS_IDENTITY_DUPLICATE_ATTRIBUTE),
            0xc0150019 => Some(NtStatusWindows::STATUS_SXS_IDENTITY_PARSE_ERROR),
            0xc015001a => Some(NtStatusWindows::STATUS_SXS_COMPONENT_STORE_CORRUPT),
            0xc015001b => Some(NtStatusWindows::STATUS_SXS_FILE_HASH_MISMATCH),
            0xc015001c => Some(NtStatusWindows::STATUS_SXS_MANIFEST_IDENTITY_SAME_BUT_CONTENTS_DIFFERENT),
            0xc015001d => Some(NtStatusWindows::STATUS_SXS_IDENTITIES_DIFFERENT),
            0xc015001e => Some(NtStatusWindows::STATUS_SXS_ASSEMBLY_IS_NOT_A_DEPLOYMENT),
            0xc015001f => Some(NtStatusWindows::STATUS_SXS_FILE_NOT_PART_OF_ASSEMBLY),
            0xc0150020 => Some(NtStatusWindows::STATUS_ADVANCED_INSTALLER_FAILED),
            0xc0150021 => Some(NtStatusWindows::STATUS_XML_ENCODING_MISMATCH),
            0xc0150022 => Some(NtStatusWindows::STATUS_SXS_MANIFEST_TOO_BIG),
            0xc0150023 => Some(NtStatusWindows::STATUS_SXS_SETTING_NOT_REGISTERED),
            0xc0150024 => Some(NtStatusWindows::STATUS_SXS_TRANSACTION_CLOSURE_INCOMPLETE),
            0xc0150025 => Some(NtStatusWindows::STATUS_SMI_PRIMITIVE_INSTALLER_FAILED),
            0xc0150026 => Some(NtStatusWindows::STATUS_GENERIC_COMMAND_FAILED),
            0xc0150027 => Some(NtStatusWindows::STATUS_SXS_FILE_HASH_MISSING),
            0xc0190001 => Some(NtStatusWindows::STATUS_TRANSACTIONAL_CONFLICT),
            0xc0190002 => Some(NtStatusWindows::STATUS_INVALID_TRANSACTION),
            0xc0190003 => Some(NtStatusWindows::STATUS_TRANSACTION_NOT_ACTIVE),
            0xc0190004 => Some(NtStatusWindows::STATUS_TM_INITIALIZATION_FAILED),
            0xc0190005 => Some(NtStatusWindows::STATUS_RM_NOT_ACTIVE),
            0xc0190006 => Some(NtStatusWindows::STATUS_RM_METADATA_CORRUPT),
            0xc0190007 => Some(NtStatusWindows::STATUS_TRANSACTION_NOT_JOINED),
            0xc0190008 => Some(NtStatusWindows::STATUS_DIRECTORY_NOT_RM),
            0xc019000a => Some(NtStatusWindows::STATUS_TRANSACTIONS_UNSUPPORTED_REMOTE),
            0xc019000b => Some(NtStatusWindows::STATUS_LOG_RESIZE_INVALID_SIZE),
            0xc019000c => Some(NtStatusWindows::STATUS_REMOTE_FILE_VERSION_MISMATCH),
            0xc019000f => Some(NtStatusWindows::STATUS_CRM_PROTOCOL_ALREADY_EXISTS),
            0xc0190010 => Some(NtStatusWindows::STATUS_TRANSACTION_PROPAGATION_FAILED),
            0xc0190011 => Some(NtStatusWindows::STATUS_CRM_PROTOCOL_NOT_FOUND),
            0xc0190012 => Some(NtStatusWindows::STATUS_TRANSACTION_SUPERIOR_EXISTS),
            0xc0190013 => Some(NtStatusWindows::STATUS_TRANSACTION_REQUEST_NOT_VALID),
            0xc0190014 => Some(NtStatusWindows::STATUS_TRANSACTION_NOT_REQUESTED),
            0xc0190015 => Some(NtStatusWindows::STATUS_TRANSACTION_ALREADY_ABORTED),
            0xc0190016 => Some(NtStatusWindows::STATUS_TRANSACTION_ALREADY_COMMITTED),
            0xc0190017 => Some(NtStatusWindows::STATUS_TRANSACTION_INVALID_MARSHALL_BUFFER),
            0xc0190018 => Some(NtStatusWindows::STATUS_CURRENT_TRANSACTION_NOT_VALID),
            0xc0190019 => Some(NtStatusWindows::STATUS_LOG_GROWTH_FAILED),
            0xc0190021 => Some(NtStatusWindows::STATUS_OBJECT_NO_LONGER_EXISTS),
            0xc0190022 => Some(NtStatusWindows::STATUS_STREAM_MINIVERSION_NOT_FOUND),
            0xc0190023 => Some(NtStatusWindows::STATUS_STREAM_MINIVERSION_NOT_VALID),
            0xc0190024 => Some(NtStatusWindows::STATUS_MINIVERSION_INACCESSIBLE_FROM_SPECIFIED_TRANSACTION),
            0xc0190025 => Some(NtStatusWindows::STATUS_CANT_OPEN_MINIVERSION_WITH_MODIFY_INTENT),
            0xc0190026 => Some(NtStatusWindows::STATUS_CANT_CREATE_MORE_STREAM_MINIVERSIONS),
            0xc0190028 => Some(NtStatusWindows::STATUS_HANDLE_NO_LONGER_VALID),
            0xc0190030 => Some(NtStatusWindows::STATUS_LOG_CORRUPTION_DETECTED),
            0xc0190032 => Some(NtStatusWindows::STATUS_RM_DISCONNECTED),
            _ => None,
        }
    }

    /// One slice of the symbol table.
    #[verifier::spinoff_prover]
    #[verifier::rlimit(100)]
    fn to_u32_part30(self) -> (r: Option<u32>)
        ensures
            r == self.spec_to_u32_part30(),
    {
        match self {
            NtStatusWindows::STATUS_SXS_CORRUPTION => Some(0xc0150015),
            NtStatusWindows::STATUS_SXS_INVALID_IDENTITY_ATTRIBUTE_VALUE => Some(0xc0150016),
            NtStatusWindows::STATUS_SXS_INVALID_IDENTITY_ATTRIBUTE_NAME => Some(0xc0150017),
            NtStatusWindows::STATUS_SXS_IDENTITY_DUPLICATE_ATTRIBUTE => Some(0xc0150018),
            NtStatusWindows::STATUS_SXS_IDENTITY_PARSE_ERROR => Some(0xc0150019),
            NtStatusWindows::STATUS_SXS_COMPONENT_STORE_CORRUPT => Some(0xc015001a),
            NtStatusWindows::STATUS_SXS_FILE_HASH_MISMATCH => Some(0xc015001b),
            NtStatusWindows::STATUS_SXS_MANIFEST_IDENTITY_SAME_BUT_CONTENTS_DIFFERENT => Some(0xc015001c),
            NtStatusWindows::STATUS_SXS_IDENTITIES_DIFFERENT => Some(0xc015001d),
            NtStatusWindows::STATUS_SXS_ASSEMBLY_IS_NOT_A_DEPLOYMENT => Some(0xc015001e),
            NtStatusWindows::STATUS_SXS_FILE_NOT_PART_OF_ASSEMBLY => Some(0xc015001f),
            NtStatusWindows::STATUS_ADVANCED_INSTALLER_FAILED => Some(0xc0150020),
            NtStatusWindows::STATUS_XML_ENCODING_MISMATCH => Some(0xc0150021),
            NtStatusWindows::STATUS_SXS_MANIFEST_TOO_BIG => Some(0xc0150022),
            NtStatusWindows::STATUS_SXS_SETTING_NOT_REGISTERED => Some(0xc0150023),
            NtStatusWindows::STATUS_SXS_TRANSACTION_CLOSURE_INCOMPLETE => Some(0xc0150024),
            NtStatusWindows::STATUS_SMI_PRIMITIVE_INSTALLER_FAILED => Some(0xc0150025),
            NtStatusWindows::STATUS_GENERIC_COMMAND_FAILED => Some(0xc0150026),
            NtStatusWindows::STATUS_SXS_FILE_HASH_MISSING => Some(0xc0150027),
            NtStatusWindows::STATUS_TRANSACTIONAL_CONFLICT => Some(0xc0190001),
            NtStatusWindows::STATUS_INVALID_TRANSACTION => Some(0xc0190002),
            NtStatusWindows::STATUS_TRANSACTION_NOT_ACTIVE => Some(0xc0190003),
            NtStatusWindows::STATUS_TM_INITIALIZATION_FAILED => Some(0xc0190004),
            NtStatusWindows::STATUS_RM_NOT_ACTIVE => Some(0xc0190005),
            NtStatusWindows::STATUS_RM_METADATA_CORRUPT => Some(0xc0190006),
            NtStatusWindows::STATUS_TRANSACTION_NOT_JOINED => Some(0xc0190007),
            NtStatusWindows::STATUS_DIRECTORY_NOT_RM => Some(0xc0190008),
            NtStatusWindows::STATUS_TRANSACTIONS_UNSUPPORTED_REMOTE => Some(0xc019000a),
            NtStatusWindows::STATUS_LOG_RESIZE_INVALID_SIZE => Some(0xc019000b),
            NtStatusWindows::STATUS_REMOTE_FILE_VERSION_MISMATCH => Some(0xc019000c),
            NtStatusWindows::STATUS_CRM_PROTOCOL_ALREADY_EXISTS => Some(0xc019000f),
            NtStatusWindows::STATUS_TRANSACTION_PROPAGATION_FAILED => Some(0xc0190010),
            NtStatusWindows::STATUS_CRM_PROTOCOL_NOT_FOUND => Some(0xc0190011),
            NtStatusWindows::STATUS_TRANSACTION_SUPERIOR_EXISTS => Some(0xc0190012),
            NtStatusWindows::STATUS_TRANSACTION_REQUEST_NOT_VALID => Some(0xc0190013),
            NtStatusWindows::STATUS_TRANSACTION_NOT_REQUESTED => Some(0xc0190014),
            NtStatusWindows::STATUS_TRANSACTION_ALREADY_ABORTED => Some(0xc0190015),
            NtStatusWindows::STATUS_TRANSACTION_ALREADY_COMMITTED => Some(0xc0190016),
            NtStatusWindows::STATUS_TRANSACTION_INVALID_MARSHALL_BUFFER => Some(0xc0190017),
            NtStatusWindows::STATUS_CURRENT_TRANSACTION_NOT_VALID => Some(0xc0190018),
            NtStatusWindows::STATUS_LOG_GROWTH_FAILED => Some(0xc0190019),
            NtStatusWindows::STATUS_OBJECT_NO_LONGER_EXISTS => Some(0xc0190021),
            NtStatusWindows::STATUS_STREAM_MINIVERSION_NOT_FOUND => Some(0xc0190022),
            NtStatusWindows::STATUS_STREAM_MINIVERSION_NOT_VALID => Some(0xc0190023),
            NtStatusWindows::STATUS_MINIVERSION_INACCESSIBLE_FROM_SPECIFIED_TRANSACTION => Some(0xc0190024),
            NtStatusWindows::STATUS_CANT_OPEN_MINIVERSION_WITH_MODIFY_INTENT => Some(0xc0190025),
            NtStatusWindows::STATUS_CANT_CREATE_MORE_STREAM_MINIVERSIONS => Some(0xc0190026),
            NtStatusWindows::STATUS_HANDLE_NO_LONGER_VALID => Some(0xc0190028),
            NtStatusWindows::STATUS_LOG_CORRUPTION_DETECTED => Some(0xc0190030),
            NtStatusWindows::STATUS_RM_DISCONNECTED => Some(0xc0190032),
            _ => None,
        }
    }

    /// One slice of the symbol table.
    #[verifier::spinoff_prover]
    #[verifier::rlimit(100)]
    fn from_u32_part30(raw: u32) -> (r: Option<NtStatusWindows>)
        ensures
            r == NtStatusWindows::spec_from_u32_part30(raw),
    {
        match raw {
            0xc0150015 => Some(NtStatusWindows::STATUS_SXS_CORRUPTION),
            0xc0150016 => Some(NtStatusWindows::STATUS_SXS_INVALID_IDENTITY_ATTRIBUTE_VALUE),
            0xc0150017 => Some(NtStatusWindows::STATUS_SXS_INVALID_IDENTITY_ATTRIBUTE_NAME),
            0xc0150018 => Some(NtStatusWindows::STATUS_SXS_IDENTITY_DUPLICATE_ATTRIBUTE),
            0xc0150019 => Some(NtStatusWindows::STATUS_SXS_IDENTITY_PARSE_ERROR),
            0xc015001a => Some(NtStatusWindows::STATUS_SXS_COMPONENT_STORE_CORRUPT),
            0xc015001b => Some(NtStatusWindows::STATUS_SXS_FILE_HASH_MISMATCH),
            0xc015001c => Some(NtStatusWindows::STATUS_SXS_MANIFEST_IDENTITY_SAME_BUT_CONTENTS_DIFFERENT),
            0xc015001d => Some(NtStatusWindows::STATUS_SXS_IDENTITIES_DIFFERENT),
            0xc015001e => Some(NtStatusWindows::STATUS_SXS_ASSEMBLY_IS_NOT_A_DEPLOYMENT),
            0xc015001f => Some(NtStatusWindows::STATUS_SXS_FILE_NOT_PART_OF_ASSEMBLY),
            0xc0150020 => Some(NtStatusWindows::STATUS_ADVANCED_INSTALLER_FAILED),
            0xc0150021 => Some(NtStatusWindows::STATUS_XML_ENCODING_MISMATCH),
            0xc0150022 => Some(NtStatusWindows::STATUS_SXS_MANIFEST_TOO_BIG),
            0xc0150023 => Some(NtStatusWindows::STATUS_SXS_SETTING_NOT_REGISTERED),
            0xc0150024 => Some(NtStatusWindows::STATUS_SXS_TRANSACTION_CLOSURE_INCOMPLETE),
            0xc0150025 => Some(NtStatusWindows::STATUS_SMI_PRIMITIVE_INSTALLER_FAILED),
            0xc0150026 => Some(NtStatusWindows::STATUS_GENERIC_COMMAND_FAILED),
            0xc0150027 => Some(NtStatusWindows::STATUS_SXS_FILE_HASH_MISSING),
            0xc0190001 => Some(NtStatusWindows::STATUS_TRANSACTIONAL_CONFLICT),
            0xc0190002 => Some(NtStatusWindows::STATUS_INVALID_TRANSACTION),
            0xc0190003 => Some(NtStatusWindows::STATUS_TRANSACTION_NOT_ACTIVE),
            0xc0190004 => Some(NtStatusWindows::STATUS_TM_INITIALIZATION_FAILED),
            0xc0190005 => Some(NtStatusWindows::STATUS_RM_NOT_ACTIVE),
            0xc0190006 => Some(NtStatusWindows::STATUS_RM_METADATA_CORRUPT),
            0xc0190007 => Some(NtStatusWindows::STATUS_TRANSACTION_NOT_JOINED),
            0xc0190008 => Some(NtStatusWindows::STATUS_DIRECTORY_NOT_RM),
            0xc019000a => Some(NtStatusWindows::STATUS_TRANSACTIONS_UNSUPPORTED_REMOTE),
            0xc019000b => Some(NtStatusWindows::STATUS_LOG_RESIZE_INVALID_SIZE),
            0xc019000c => Some(NtStatusWindows::STATUS_REMOTE_FILE_VERSION_MISMATCH),
            0xc019000f => Some(NtStatusWindows::STATUS_CRM_PROTOCOL_ALREADY_EXISTS),
            0xc0190010 => Some(NtStatusWindows::STATUS_TRANSACTION_PROPAGATION_FAILED),
            0xc0190011 => Some(NtStatusWindows::STATUS_CRM_PROTOCOL_NOT_FOUND),
            0xc0190012 => Some(NtStatusWindows::STATUS_TRANSACTION_SUPERIOR_EXISTS),
            0xc0190013 => Some(NtStatusWindows::STATUS_TRANSACTION_REQUEST_NOT_VALID),
            0xc0190014 => Some(NtStatusWindows::STATUS_TRANSACTION_NOT_REQUESTED),
            0xc0190015 => Some(NtStatusWindows::STATUS_TRANSACTION_ALREADY_ABORTED),
            0xc0190016 => Some(NtStatusWindows::STATUS_TRANSACTION_ALREADY_COMMITTED),
            0xc0190017 => Some(NtStatusWindows::STATUS_TRANSACTION_INVALID_MARSHALL_BUFFER),
            0xc0190018 => Some(NtStatusWindows::STATUS_CURRENT_TRANSACTION_NOT_VALID),
            0xc0190019 => Some(NtStatusWindows::STATUS_LOG_GROWTH_FAILED),
            0xc0190021 => Some(NtStatusWindows::STATUS_OBJECT_NO_LONGER_EXISTS),
            0xc0190022 => Some(NtStatusWindows::STATUS_STREAM_MINIVERSION_NOT_FOUND),
            0xc0190023 => Some(NtStatusWindows::STATUS_STREAM_MINIVERSION_NOT_VALID),
            0xc0190024 => Some(NtStatusWindows::STATUS_MINIVERSION_INACCESSIBLE_FROM_SPECIFIED_TRANSACTION),
            0xc0190025 => Some(NtStatusWindows::STATUS_CANT_OPEN_MINIVERSION_WITH_MODIFY_INTENT),
            0xc0190026 => Some(NtStatusWindows::STATUS_CANT_CREATE_MORE_STREAM_MINIVERSIONS),
            0xc0190028 => Some(NtStatusWindows::STATUS_HANDLE_NO_LONGER_VALID),
            0xc0190030 => Some(NtStatusWindows::STATUS_LOG_CORRUPTION_DETECTED),
            0xc0190032 => Some(NtStatusWindows::STATUS_RM_DISCONNECTED),
            _ => None,
        }
    }

    /// One slice of the symbol table: the raw value of this symbol,
    /// where this slice holds it.
    pub open spec fn spec_to_u32_part31(self) -> Option<u32> {
        match self {
            NtStatusWindows::STATUS_ENLISTMENT_NOT_SUPERIOR => Some(0xc0190033),
            NtStatusWindows::STATUS_FILE_IDENTITY_NOT_PERSISTENT => Some(0xc0190036),
            NtStatusWindows::STATUS_CANT_BREAK_TRANSACTIONAL_DEPENDENCY => Some(0xc0190037),
            NtStatusWindows::STATUS_CANT_CROSS_RM_BOUNDARY => Some(0xc0190038),
            NtStatusWindows::STATUS_TXF_DIR_NOT_EMPTY => Some(0xc0190039),
            NtStatusWindows::STATUS_INDOUBT_TRANSACTIONS_EXIST => Some(0xc019003a),
            NtStatusWindows::STATUS_TM_VOLATILE => Some(0xc019003b),
            NtStatusWindows::STATUS_ROLLBACK_TIMER_EXPIRED => Some(0xc019003c),
            NtStatusWindows::STATUS_TXF_ATTRIBUTE_CORRUPT => Some(0xc019003d),
            NtStatusWindows::STATUS_EFS_NOT_ALLOWED_IN_TRANSACTION => Some(0xc019003e),
            NtStatusWindows::STATUS_TRANSACTIONAL_OPEN_NOT_ALLOWED => Some(0xc019003f),
            NtStatusWindows::STATUS_TRANSACTED_MAPPING_UNSUPPORTED_REMOTE => Some(0xc0190040),
            NtStatusWindows::STATUS_TRANSACTION_REQUIRED_PROMOTION => Some(0xc0190043),
            NtStatusWindows::STATUS_CANNOT_EXECUTE_FILE_IN_TRANSACTION => Some(0xc0190044),
            NtStatusWindows::STATUS_TRANSACTIONS_NOT_FROZEN => Some(0xc0190045),
            NtStatusWindows::STATUS_TRANSACTION_FREEZE_IN_PROGRESS => Some(0xc0190046),
            NtStatusWindows::STATUS_NOT_SNAPSHOT_VOLUME => Some(0xc0190047),
            NtStatusWindows::STATUS_NO_SAVEPOINT_WITH_OPEN_FILES => Some(0xc0190048),
            NtStatusWindows::STATUS_SPARSE_NOT_ALLOWED_IN_TRANSACTION => Some(0xc0190049),
            NtStatusWindows::STATUS_TM_IDENTITY_MISMATCH => Some(0xc019004a),
            NtStatusWindows::STATUS_FLOATED_SECTION => Some(0xc019004b),
            NtStatusWindows::STATUS_CANNOT_ACCEPT_TRANSACTED_WORK => Some(0xc019004c),
            NtStatusWindows::STATUS_CANNOT_ABORT_TRANSACTIONS => Some(0xc019004d),
            NtStatusWindows::STATUS_TRANSACTION_NOT_FOUND => Some(0xc019004e),
            NtStatusWindows::STATUS_RESOURCEMANAGER_NOT_FOUND => Some(0xc019004f),
            NtStatusWindows::STATUS_ENLISTMENT_NOT_FOUND => Some(0xc0190050),
            NtStatusWindows::STATUS_TRANSACTIONMANAGER_NOT_FOUND => Some(0xc0190051),
            NtStatusWindows::STATUS_TRANSACTIONMANAGER_NOT_ONLINE => Some(0xc0190052),
            NtStatusWindows::STATUS_TRANSACTIONMANAGER_RECOVERY_NAME_COLLISION => Some(0xc0190053),
            NtStatusWindows::STATUS_TRANSACTION_NOT_ROOT => Some(0xc0190054),
            NtStatusWindows::STATUS_TRANSACTION_OBJECT_EXPIRED => Some(0xc0190055),
            NtStatusWindows::STATUS_COMPRESSION_NOT_ALLOWED_IN_TRANSACTION => Some(0xc0190056),
            NtStatusWindows::STATUS_TRANSACTION_RESPONSE_NOT_ENLISTED => Some(0xc0190057),
            NtStatusWindows::STATUS_TRANSACTION_RECORD_TOO_LONG => Some(0xc0190058),
            NtStatusWindows::STATUS_NO_LINK_TRACKING_IN_TRANSACTION => Some(0xc0190059),
            NtStatusWindows::STATUS_OPERATION_NOT_SUPPORTED_IN_TRANSACTION => Some(0xc019005a),
            NtStatusWindows::STATUS_TRANSACTION_INTEGRITY_VIOLATED => Some(0xc019005b),
            NtStatusWindows::STATUS_TRANSACTIONMANAGER_IDENTITY_MISMATCH => Some(0xc019005c),
            NtStatusWindows::STATUS_RM_CANNOT_BE_FROZEN_FOR_SNAPSHOT => Some(0xc019005d),
            NtStatusWindows::STATUS_TRANSACTION_MUST_WRITETHROUGH => Some(0xc019005e),
            NtStatusWindows::STATUS_TRANSACTION_NO_SUPERIOR => Some(0xc019005f),
            NtStatusWindows::STATUS_EXPIRED_HANDLE => Some(0xc0190060),
            NtStatusWindows::STATUS_TRANSACTION_NOT_ENLISTED => Some(0xc0190061),
            NtStatusWindows::STATUS_LOG_SECTOR_INVALID => Some(0xc01a0001),
            NtStatusWindows::STATUS_LOG_SECTOR_PARITY_INVALID => Some(0xc01a0002),
            NtStatusWindows::STATUS_LOG_SECTOR_REMAPPED => Some(0xc01a0003),
            NtStatusWindows::STATUS_LOG_BLOCK_INCOMPLETE => Some(0xc01a0004),
            NtStatusWindows::STATUS_LOG_INVALID_RANGE => Some(0xc01a0005),
            NtStatusWindows::STATUS_LOG_BLOCKS_EXHAUSTED => Some(0xc01a0006),
            NtStatusWindows::STATUS_LOG_READ_CONTEXT_INVALID => Some(0xc01a0007),
            _ => None,
        }
    }

    /// One slice of the symbol table: the symbol this slice gives a
    /// raw value, where it holds one.
    pub open spec fn spec_from_u32_part31(raw: u32) -> Option<NtStatusWindows> {
        match raw {
            0xc0190033 => Some(NtStatusWindows::STATUS_ENLISTMENT_NOT_SUPERIOR),
            0xc0190036 => Some(NtStatusWindows::STATUS_FILE_IDENTITY_NOT_PERSISTENT),
            0xc0190037 => Some(NtStatusWindows::STATUS_CANT_BREAK_TRANSACTIONAL_DEPENDENCY),
            0xc0190038 => Some(NtStatusWindows::STATUS_CANT_CROSS_RM_BOUNDARY),
            0xc0190039 => Some(NtStatusWindows::STATUS_TXF_DIR_NOT_EMPTY),
            0xc019003a => Some(NtStatusWindows::STATUS_INDOUBT_TRANSACTIONS_EXIST),
            0xc019003b => Some(NtStatusWindows::STATUS_TM_VOLATILE),
            0xc019003c => Some(NtStatusWindows::STATUS_ROLLBACK_TIMER_EXPIRED),
            0xc019003d => Some(NtStatusWindows::STATUS_TXF_ATTRIBUTE_CORRUPT),
            0xc019003e => Some(NtStatusWindows::STATUS_EFS_NOT_ALLOWED_IN_TRANSACTION),
            0xc019003f => Some(NtStatusWindows::STATUS_TRANSACTIONAL_OPEN_NOT_ALLOWED),
            0xc0190040 => Some(NtStatusWindows::STATUS_TRANSACTED_MAPPING_UNSUPPORTED_REMOTE),
            0xc0190043 => Some(NtStatusWindows::STATUS_TRANSACTION_REQUIRED_PROMOTION),
            0xc0190044 => Some(NtStatusWindows::STATUS_CANNOT_EXECUTE_FILE_IN_TRANSACTION),
            0xc0190045 => Some(NtStatusWindows::STATUS_TRANSACTIONS_NOT_FROZEN),
            0xc0190046 => Some(NtStatusWindows::STATUS_TRANSACTION_FREEZE_IN_PROGRESS),
            0xc0190047 => Some(NtStatusWindows::STATUS_NOT_SNAPSHOT_VOLUME),
            0xc0190048 => Some(NtStatusWindows::STATUS_NO_SAVEPOINT_WITH_OPEN_FILES),
            0xc0190049 => Some(NtStatusWindows::STATUS_SPARSE_NOT_ALLOWED_IN_TRANSACTION),
            0xc019004a => Some(NtStatusWindows::STATUS_TM_IDENTITY_MISMATCH),
            0xc019004b => Some(NtStatusWindows::STATUS_FLOATED_SECTION),
            0xc019004c => Some(NtStatusWindows::STATUS_CANNOT_ACCEPT_TRANSACTED_WORK),
            0xc019004d => Some(NtStatusWindows::STATUS_CANNOT_ABORT_TRANSACTIONS),
            0xc019004e => Some(NtStatusWindows::STATUS_TRANSACTION_NOT_FOUND),
            0xc019004f => Some(NtStatusWindows::STATUS_RESOURCEMANAGER_NOT_FOUND),
            0xc0190050 => Some(NtStatusWindows::STATUS_ENLISTMENT_NOT_FOUND),
            0xc0190051 => Some(NtStatusWindows::STATUS_TRANSACTIONMANAGER_NOT_FOUND),
            0xc0190052 => Some(NtStatusWindows::STATUS_TRANSACTIONMANAGER_NOT_ONLINE),
            0xc0190053 => Some(NtStatusWindows::STATUS_TRANSACTIONMANAGER_RECOVERY_NAME_COLLISION),
            0xc0190054 => Some(NtStatusWindows::STATUS_TRANSACTION_NOT_ROOT),
            0xc0190055 => Some(NtStatusWindows::STATUS_TRANSACTION_OBJECT_EXPIRED),
            0xc0190056 => Some(NtStatusWindows::STATUS_COMPRESSION_NOT_ALLOWED_IN_TRANSACTION),
            0xc0190057 => Some(NtStatusWindows::STATUS_TRANSACTION_RESPONSE_NOT_ENLISTED),
            0xc0190058 => Some(NtStatusWindows::STATUS_TRANSACTION_RECORD_TOO_LONG),
            0xc0190059 => Some(NtStatusWindows::STATUS_NO_LINK_TRACKING_IN_TRANSACTION),
            0xc019005a => Some(NtStatusWindows::STATUS_OPERATION_NOT_SUPPORTED_IN_TRANSACTION),
            0xc019005b => Some(NtStatusWindows::STATUS_TRANSACTION_INTEGRITY_VIOLATED),
            0xc019005c => Some(NtStatusWindows::STATUS_TRANSACTIONMANAGER_IDENTITY_MISMATCH),
            0xc019005d => Some(NtStatusWindows::STATUS_RM_CANNOT_BE_FROZEN_FOR_SNAPSHOT),
            0xc019005e => Some(NtStatusWindows::STATUS_TRANSACTION_MUST_WRITETHROUGH),
            0xc019005f => Some(NtStatusWindows::STATUS_TRANSACTION_NO_SUPERIOR),
            0xc0190060 => Some(NtStatusWindows::STATUS_EXPIRED_HANDLE),
            0xc0190061 => Some(NtStatusWindows::STATUS_TRANSACTION_NOT_ENLISTED),
            0xc01a0001 => Some(NtStatusWindows::STATUS_LOG_SECTOR_INVALID),
            0xc01a0002 => Some(NtStatusWindows::STATUS_LOG_SECTOR_PARITY_INVALID),
            0xc01a0003 => Some(NtStatusWindows::STATUS_LOG_SECTOR_REMAPPED),
            0xc01a0004 => Some(NtStatusWindows::STATUS_LOG_BLOCK_INCOMPLETE),
            0xc01a0005 => Some(NtStatusWindows::STATUS_LOG_INVALID_RANGE),
            0xc01a0006 => Some(NtStatusWindows::STATUS_LOG_BLOCKS_EXHAUSTED),
            0xc01a0007 => Some(NtStatusWindows::STATUS_LOG_READ_CONTEXT_INVALID),
            _ => None,
        }
    }

    /// One slice of the symbol table.
    #[verifier::spinoff_prover]
    #[verifier::rlimit(100)]
    fn to_u32_part31(self) -> (r: Option<u32>)
        ensures
            r == self.spec_to_u32_part31(),
    {
        match self {
            NtStatusWindows::STATUS_ENLISTMENT_NOT_SUPERIOR => Some(0xc0190033),
            NtStatusWindows::STATUS_FILE_IDENTITY_NOT_PERSISTENT => Some(0xc0190036),
            NtStatusWindows::STATUS_CANT_BREAK_TRANSACTIONAL_DEPENDENCY => Some(0xc0190037),
            NtStatusWindows::STATUS_CANT_CROSS_RM_BOUNDARY => Some(0xc0190038),
            NtStatusWindows::STATUS_TXF_DIR_NOT_EMPTY => Some(0xc0190039),
            NtStatusWindows::STATUS_INDOUBT_TRANSACTIONS_EXIST => Some(0xc019003a),
            NtStatusWindows::STATUS_TM_VOLATILE => Some(0xc019003b),
            NtStatusWindows::STATUS_ROLLBACK_TIMER_EXPIRED => Some(0xc019003c),
            NtStatusWindows::STATUS_TXF_ATTRIBUTE_CORRUPT => Some(0xc019003d),
            NtStatusWindows::STATUS_EFS_NOT_ALLOWED_IN_TRANSACTION => Some(0xc019003e),
            NtStatusWindows::STATUS_TRANSACTIONAL_OPEN_NOT_ALLOWED => Some(0xc019003f),
            NtStatusWindows::STATUS_TRANSACTED_MAPPING_UNSUPPORTED_REMOTE => Some(0xc0190040),
            NtStatusWindows::STATUS_TRANSACTION_REQUIRED_PROMOTION => Some(0xc0190043),
            NtStatusWindows::STATUS_CANNOT_EXECUTE_FILE_IN_TRANSACTION => Some(0xc0190044),
            NtStatusWindows::STATUS_TRANSACTIONS_NOT_FROZEN => Some(0xc0190045),
            NtStatusWindows::STATUS_TRANSACTION_FREEZE_IN_PROGRESS => Some(0xc0190046),
            NtStatusWindows::STATUS_NOT_SNAPSHOT_VOLUME => Some(0xc0190047),
            NtStatusWindows::STATUS_NO_SAVEPOINT_WITH_OPEN_FILES => Some(0xc0190048),
            NtStatusWindows::STATUS_SPARSE_NOT_ALLOWED_IN_TRANSACTION => Some(0xc0190049),
            NtStatusWindows::STATUS_TM_IDENTITY_MISMATCH => Some(0xc019004a),
            NtStatusWindows::STATUS_FLOATED_SECTION => Some(0xc019004b),
            NtStatusWindows::STATUS_CANNOT_ACCEPT_TRANSACTED_WORK => Some(0xc019004c),
            NtStatusWindows::STATUS_CANNOT_ABORT_TRANSACTIONS => Some(0xc019004d),
            NtStatusWindows::STATUS_TRANSACTION_NOT_FOUND => Some(0xc019004e),
            NtStatusWindows::STATUS_RESOURCEMANAGER_NOT_FOUND => Some(0xc019004f),
            NtStatusWindows::STATUS_ENLISTMENT_NOT_FOUND => Some(0xc0190050),
            NtStatusWindows::STATUS_TRANSACTIONMANAGER_NOT_FOUND => Some(0xc0190051),
            NtStatusWindows::STATUS_TRANSACTIONMANAGER_NOT_ONLINE => Some(0xc0190052),
            NtStatusWindows::STATUS_TRANSACTIONMANAGER_RECOVERY_NAME_COLLISION => Some(0xc0190053),
            NtStatusWindows::STATUS_TRANSACTION_NOT_ROOT => Some(0xc0190054),
            NtStatusWindows::STATUS_TRANSACTION_OBJECT_EXPIRED => Some(0xc0190055),
            NtStatusWindows::STATUS_COMPRESSION_NOT_ALLOWED_IN_TRANSACTION => Some(0xc0190056),
            NtStatusWindows::STATUS_TRANSACTION_RESPONSE_NOT_ENLISTED => Some(0xc0190057),
            NtStatusWindows::STATUS_TRANSACTION_RECORD_TOO_LONG => Some(0xc0190058),
            NtStatusWindows::STATUS_NO_LINK_TRACKING_IN_TRANSACTION => Some(0xc0190059),
            NtStatusWindows::STATUS_OPERATION_NOT_SUPPORTED_IN_TRANSACTION => Some(0xc019005a),
            NtStatusWindows::STATUS_TRANSACTION_INTEGRITY_VIOLATED => Some(0xc019005b),
            NtStatusWindows::STATUS_TRANSACTIONMANAGER_IDENTITY_MISMATCH => Some(0xc019005c),
            NtStatusWindows::STATUS_RM_CANNOT_BE_FROZEN_FOR_SNAPSHOT => Some(0xc019005d),
            NtStatusWindows::STATUS_TRANSACTION_MUST_WRITETHROUGH => Some(0xc019005e),
            NtStatusWindows::STATUS_TRANSACTION_NO_SUPERIOR => Some(0xc019005f),
            NtStatusWindows::STATUS_EXPIRED_HANDLE => Some(0xc0190060),
            NtStatusWindows::STATUS_TRANSACTION_NOT_ENLISTED => Some(0xc0190061),
            NtStatusWindows::STATUS_LOG_SECTOR_INVALID => Some(0xc01a0001),
            NtStatusWindows::STATUS_LOG_SECTOR_PARITY_INVALID => Some(0xc01a0002),
            NtStatusWindows::STATUS_LOG_SECTOR_REMAPPED => Some(0xc01a0003),
            NtStatusWindows::STATUS_LOG_BLOCK_INCOMPLETE => Some(0xc01a0004),
            NtStatusWindows::STATUS_LOG_INVALID_RANGE => Some(0xc01a0005),
            NtStatusWindows::STATUS_LOG_BLOCKS_EXHAUSTED => Some(0xc01a0006),
            NtStatusWindows::STATUS_LOG_READ_CONTEXT_INVALID => Some(0xc01a0007),
            _ => None,
        }
    }

    /// One slice of the symbol table.
    #[verifier::spinoff_prover]
    #[verifier::rlimit(100)]
    fn from_u32_part31(raw: u32) -> (r: Option<NtStatusWindows>)
        ensures
            r == NtStatusWindows::spec_from_u32_part31(raw),
    {
        match raw {
            0xc0190033 => Some(NtStatusWindows::STATUS_ENLISTMENT_NOT_SUPERIOR),
            0xc0190036 => Some(NtStatusWindows::STATUS_FILE_IDENTITY_NOT_PERSISTENT),
            0xc0190037 => Some(NtStatusWindows::STATUS_CANT_BREAK_TRANSACTIONAL_DEPENDENCY),
            0xc0190038 => Some(NtStatusWindows::STATUS_CANT_CROSS_RM_BOUNDARY),
            0xc0190039 => Some(NtStatusWindows::STATUS_TXF_DIR_NOT_EMPTY),
            0xc019003a => Some(NtStatusWindows::STATUS_INDOUBT_TRANSACTIONS_EXIST),
            0xc019003b => Some(NtStatusWindows::STATUS_TM_VOLATILE),
            0xc019003c => Some(NtStatusWindows::STATUS_ROLLBACK_TIMER_EXPIRED),
            0xc019003d => Some(NtStatusWindows::STATUS_TXF_ATTRIBUTE_CORRUPT),
            0xc019003e => Some(NtStatusWindows::STATUS_EFS_NOT_ALLOWED_IN_TRANSACTION),
            0xc019003f => Some(NtStatusWindows::STATUS_TRANSACTIONAL_OPEN_NOT_ALLOWED),
            0xc0190040 => Some(NtStatusWindows::STATUS_TRANSACTED_MAPPING_UNSUPPORTED_REMOTE),
            0xc0190043 => Some(NtStatusWindows::STATUS_TRANSACTION_REQUIRED_PROMOTION),
            0xc0190044 => Some(NtStatusWindows::STATUS_CANNOT_EXECUTE_FILE_IN_TRANSACTION),
            0xc0190045 => Some(NtStatusWindows::STATUS_TRANSACTIONS_NOT_FROZEN),
            0xc0190046 => Some(NtStatusWindows::STATUS_TRANSACTION_FREEZE_IN_PROGRESS),
            0xc0190047 => Some(NtStatusWindows::STATUS_NOT_SNAPSHOT_VOLUME),
            0xc0190048 => Some(NtStatusWindows::STATUS_NO_SAVEPOINT_WITH_OPEN_FILES),
            0xc0190049 => Some(NtStatusWindows::STATUS_SPARSE_NOT_ALLOWED_IN_TRANSACTION),
            0xc019004a => Some(NtStatusWindows::STATUS_TM_IDENTITY_MISMATCH),
            0xc019004b => Some(NtStatusWindows::STATUS_FLOATED_SECTION),
            0xc019004c => Some(NtStatusWindows::STATUS_CANNOT_ACCEPT_TRANSACTED_WORK),
            0xc019004d => Some(NtStatusWindows::STATUS_CANNOT_ABORT_TRANSACTIONS),
            0xc019004e => Some(NtStatusWindows::STATUS_TRANSACTION_NOT_FOUND),
            0xc019004f => Some(NtStatusWindows::STATUS_RESOURCEMANAGER_NOT_FOUND),
            0xc0190050 => Some(NtStatusWindows::STATUS_ENLISTMENT_NOT_FOUND),
            0xc0190051 => Some(NtStatusWindows::STATUS_TRANSACTIONMANAGER_NOT_FOUND),
            0xc0190052 => Some(NtStatusWindows::STATUS_TRANSACTIONMANAGER_NOT_ONLINE),
            0xc0190053 => Some(NtStatusWindows::STATUS_TRANSACTIONMANAGER_RECOVERY_NAME_COLLISION),
            0xc0190054 => Some(NtStatusWindows::STATUS_TRANSACTION_NOT_ROOT),
            0xc0190055 => Some(NtStatusWindows::STATUS_TRANSACTION_OBJECT_EXPIRED),
            0xc0190056 => Some(NtStatusWindows::STATUS_COMPRESSION_NOT_ALLOWED_IN_TRANSACTION),
            0xc0190057 => Some(NtStatusWindows::STATUS_TRANSACTION_RESPONSE_NOT_ENLISTED),
            0xc0190058 => Some(NtStatusWindows::STATUS_TRANSACTION_RECORD_TOO_LONG),
            0xc0190059 => Some(NtStatusWindows::STATUS_NO_LINK_TRACKING_IN_TRANSACTION),
            0xc019005a => Some(NtStatusWindows::STATUS_OPERATION_NOT_SUPPORTED_IN_TRANSACTION),
            0xc019005b => Some(NtStatusWindows::STATUS_TRANSACTION_INTEGRITY_VIOLATED),
            0xc019005c => Some(NtStatusWindows::STATUS_TRANSACTIONMANAGER_IDENTITY_MISMATCH),
            0xc019005d => Some(NtStatusWindows::STATUS_RM_CANNOT_BE_FROZEN_FOR_SNAPSHOT),
            0xc019005e => Some(NtStatusWindows::STATUS_TRANSACTION_MUST_WRITETHROUGH),
            0xc019005f => Some(NtStatusWindows::STATUS_TRANSACTION_NO_SUPERIOR),
            0xc0190060 => Some(NtStatusWindows::STATUS_EXPIRED_HANDLE),
            0xc0190061 => Some(NtStatusWindows::STATUS_TRANSACTION_NOT_ENLISTED),
            0xc01a0001 => Some(NtStatusWindows::STATUS_LOG_SECTOR_INVALID),
            0xc01a0002 => Some(NtStatusWindows::STATUS_LOG_SECTOR_PARITY_INVALID),
            0xc01a0003 => Some(NtStatusWindows::STATUS_LOG_SECTOR_REMAPPED),
            0xc01a0004 => Some(NtStatusWindows::STATUS_LOG_BLOCK_INCOMPLETE),
            0xc01a0005 => Some(NtStatusWindows::STATUS_LOG_INVALID_RANGE),
            0xc01a0006 => Some(NtStatusWindows::STATUS_LOG_BLOCKS_EXHAUSTED),
            0xc01a0007 => Some(NtStatusWindows::STATUS_LOG_READ_CONTEXT_INVALID),
            _ => None,
        }
    }

    /// One slice of the symbol table: the raw value of this symbol,
    /// where this slice holds it.
    pub open spec fn spec_to_u32_part32(self) -> Option<u32> {
        match self {
            NtStatusWindows::STATUS_LOG_RESTART_INVALID => Some(0xc01a0008),
            NtStatusWindows::STATUS_LOG_BLOCK_VERSION => Some(0xc01a0009),
            NtStatusWindows::STATUS_LOG_BLOCK_INVALID => Some(0xc01a000a),
            NtStatusWindows::STATUS_LOG_READ_MODE_INVALID => Some(0xc01a000b),
            NtStatusWindows::STATUS_LOG_METADATA_CORRUPT => Some(0xc01a000d),
            NtStatusWindows::STATUS_LOG_METADATA_INVALID => Some(0xc01a000e),
            NtStatusWindows::STATUS_LOG_METADATA_INCONSISTENT => Some(0xc01a000f),
            NtStatusWindows::STATUS_LOG_RESERVATION_INVALID => Some(0xc01a0010),
            NtStatusWindows::STATUS_LOG_CANT_DELETE => Some(0xc01a0011),
            NtStatusWindows::STATUS_LOG_CONTAINER_LIMIT_EXCEEDED => Some(0xc01a0012),
            NtStatusWindows::STATUS_LOG_START_OF_LOG => Some(0xc01a0013),
            NtStatusWindows::STATUS_LOG_POLICY_ALREADY_INSTALLED => Some(0xc01a0014),
            NtStatusWindows::STATUS_LOG_POLICY_NOT_INSTALLED => Some(0xc01a0015),
            NtStatusWindows::STATUS_LOG_POLICY_INVALID => Some(0xc01a0016),
            NtStatusWindows::STATUS_LOG_POLICY_CONFLICT => Some(0xc01a0017),
            NtStatusWindows::STATUS_LOG_PINNED_ARCHIVE_TAIL => Some(0xc01a0018),
            NtStatusWindows::STATUS_LOG_RECORD_NONEXISTENT => Some(0xc01a0019),
            NtStatusWindows::STATUS_LOG_RECORDS_RESERVED_INVALID => Some(0xc01a001a),
            NtStatusWindows::STATUS_LOG_SPACE_RESERVED_INVALID => Some(0xc01a001b),
            NtStatusWindows::STATUS_LOG_TAIL_INVALID => Some(0xc01a001c),
            NtStatusWindows::STATUS_LOG_FULL => Some(0xc01a001d),
            NtStatusWindows::STATUS_LOG_MULTIPLEXED => Some(0xc01a001e),
            NtStatusWindows::STATUS_LOG_DEDICATED => Some(0xc01a001f),
            NtStatusWindows::STATUS_LOG_ARCHIVE_NOT_IN_PROGRESS => Some(0xc01a0020),
            NtStatusWindows::STATUS_LOG_ARCHIVE_IN_PROGRESS => Some(0xc01a0021),
            NtStatusWindows::STATUS_LOG_EPHEMERAL => Some(0xc01a0022),
            NtStatusWindows::STATUS_LOG_NOT_ENOUGH_CONTAINERS => Some(0xc01a0023),
            NtStatusWindows::STATUS_LOG_CLIENT_ALREADY_REGISTERED => Some(0xc01a0024),
            NtStatusWindows::STATUS_LOG_CLIENT_NOT_REGISTERED => Some(0xc01a0025),
            NtStatusWindows::STATUS_LOG_FULL_HANDLER_IN_PROGRESS => Some(0xc01a0026),
            NtStatusWindows::STATUS_LOG_CONTAINER_READ_FAILED => Some(0xc01a0027),
            NtStatusWindows::STATUS_LOG_CONTAINER_WRITE_FAILED => Some(0xc01a0028),
            NtStatusWindows::STATUS_LOG_CONTAINER_OPEN_FAILED => Some(0xc01a0029),
            NtStatusWindows::STATUS_LOG_CONTAINER_STATE_INVALID => Some(0xc01a002a),
            NtStatusWindows::STATUS_LOG_STATE_INVALID => Some(0xc01a002b),
            NtStatusWindows::STATUS_LOG_PINNED => Some(0xc01a002c),
            NtStatusWindows::STATUS_LOG_METADATA_FLUSH_FAILED => Some(0xc01a002d),
            NtStatusWindows::STATUS_LOG_INCONSISTENT_SECURITY => Some(0xc01a002e),
            NtStatusWindows::STATUS_LOG_APPENDED_FLUSH_FAILED => Some(0xc01a002f),
            NtStatusWindows::STATUS_LOG_PINNED_RESERVATION => Some(0xc01a0030),
            NtStatusWindows::STATUS_VIDEO_HUNG_DISPLAY_DRIVER_THREAD => Some(0xc01b00ea),
            NtStatusWindows::STATUS_FLT_NO_HANDLER_DEFINED => Some(0xc01c0001),
            NtStatusWindows::STATUS_FLT_CONTEXT_ALREADY_DEFINED => Some(0xc01c0002),
            NtStatusWindows::STATUS_FLT_INVALID_ASYNCHRONOUS_REQUEST => Some(0xc01c0003),
            NtStatusWindows::STATUS_FLT_DISALLOW_FAST_IO => Some(0xc01c0004),
            NtStatusWindows::STATUS_FLT_INVALID_NAME_REQUEST => Some(0xc01c0005),
            NtStatusWindows::STATUS_FLT_NOT_SAFE_TO_POST_OPERATION => Some(0xc01c0006),
            NtStatusWindows::STATUS_FLT_NOT_INITIALIZED => Some(0xc01c0007),
            NtStatusWindows::STATUS_FLT_FILTER_NOT_READY => Some(0xc01c0008),
            NtStatusWindows::STATUS_FLT_POST_OPERATION_CLEANUP => Some(0xc01c0009),
            _ => None,
        }
    }

    /// One slice of the symbol table: the symbol this slice gives a
    /// raw value, where it holds one.
    pub open spec fn spec_from_u32_part32(raw: u32) -> Option<NtStatusWindows> {
        match raw {
            0xc01a0008 => Some(NtStatusWindows::STATUS_LOG_RESTART_INVALID),
            0xc01a0009 => Some(NtStatusWindows::STATUS_LOG_BLOCK_VERSION),
            0xc01a000a => Some(NtStatusWindows::STATUS_LOG_BLOCK_INVALID),
            0xc01a000b => Some(NtStatusWindows::STATUS_LOG_READ_MODE_INVALID),
            0xc01a000d => Some(NtStatusWindows::STATUS_LOG_METADATA_CORRUPT),
            0xc01a000e => Some(NtStatusWindows::STATUS_LOG_METADATA_INVALID),
            0xc01a000f => Some(NtStatusWindows::STATUS_LOG_METADATA_INCONSISTENT),
            0xc01a0010 => Some(NtStatusWindows::STATUS_LOG_RESERVATION_INVALID),
            0xc01a0011 => Some(NtStatusWindows::STATUS_LOG_CANT_DELETE),
            0xc01a0012 => Some(NtStatusWindows::STATUS_LOG_CONTAINER_LIMIT_EXCEEDED),
            0xc01a0013 => Some(NtStatusWindows::STATUS_LOG_START_OF_LOG),
            0xc01a0014 => Some(NtStatusWindows::STATUS_LOG_POLICY_ALREADY_INSTALLED),
            0xc01a0015 => Some(NtStatusWindows::STATUS_LOG_POLICY_NOT_INSTALLED),
            0xc01a0016 => Some(NtStatusWindows::STATUS_LOG_POLICY_INVALID),
            0xc01a0017 => Some(NtStatusWindows::STATUS_LOG_POLICY_CONFLICT),
            0xc01a0018 => Some(NtStatusWindows::STATUS_LOG_PINNED_ARCHIVE_TAIL),
            0xc01a0019 => Some(NtStatusWindows::STATUS_LOG_RECORD_NONEXISTENT),
            0xc01a001a => Some(NtStatusWindows::STATUS_LOG_RECORDS_RESERVED_INVALID),
            0xc01a001b => Some(NtStatusWindows::STATUS_LOG_SPACE_RESERVED_INVALID),
            0xc01a001c => Some(NtStatusWindows::STATUS_LOG_TAIL_INVALID),
            0xc01a001d => Some(NtStatusWindows::STATUS_LOG_FULL),
            0xc01a001e => Some(NtStatusWindows::STATUS_LOG_MULTIPLEXED),
            0xc01a001f => Some(NtStatusWindows::STATUS_LOG_DEDICATED),
            0xc01a0020 => Some(NtStatusWindows::STATUS_LOG_ARCHIVE_NOT_IN_PROGRESS),
            0xc01a0021 => Some(NtStatusWindows::STATUS_LOG_ARCHIVE_IN_PROGRESS),
            0xc01a0022 => Some(NtStatusWindows::STATUS_LOG_EPHEMERAL),
            0xc01a0023 => Some(NtStatusWindows::STATUS_LOG_NOT_ENOUGH_CONTAINERS),
            0xc01a0024 => Some(NtStatusWindows::STATUS_LOG_CLIENT_ALREADY_REGISTERED),
            0xc01a0025 => Some(NtStatusWindows::STATUS_LOG_CLIENT_NOT_REGISTERED),
            0xc01a0026 => Some(NtStatusWindows::STATUS_LOG_FULL_HANDLER_IN_PROGRESS),
            0xc01a0027 => Some(NtStatusWindows::STATUS_LOG_CONTAINER_READ_FAILED),
            0xc01a0028 => Some(NtStatusWindows::STATUS_LOG_CONTAINER_WRITE_FAILED),
            0xc01a0029 => Some(NtStatusWindows::STATUS_LOG_CONTAINER_OPEN_FAILED),
            0xc01a002a => Some(NtStatusWindows::STATUS_LOG_CONTAINER_STATE_INVALID),
            0xc01a002b => Some(NtStatusWindows::STATUS_LOG_STATE_INVALID),
            0xc01a002c => Some(NtStatusWindows::STATUS_LOG_PINNED),
            0xc01a002d => Some(NtStatusWindows::STATUS_LOG_METADATA_FLUSH_FAILED),
            0xc01a002e => Some(NtStatusWindows::STATUS_LOG_INCONSISTENT_SECURITY),
            0xc01a002f => Some(NtStatusWindows::STATUS_LOG_APPENDED_FLUSH_FAILED),
            0xc01a0030 => Some(NtStatusWindows::STATUS_LOG_PINNED_RESERVATION),
            0xc01b00ea => Some(NtStatusWindows::STATUS_VIDEO_HUNG_DISPLAY_DRIVER_THREAD),
            0xc01c0001 => Some(NtStatusWindows::STATUS_FLT_NO_HANDLER_DEFINED),
            0xc01c0002 => Some(NtStatusWindows::STATUS_FLT_CONTEXT_ALREADY_DEFINED),
            0xc01c0003 => Some(NtStatusWindows::STATUS_FLT_INVALID_ASYNCHRONOUS_REQUEST),
            0xc01c0004 => Some(NtStatusWindows::STATUS_FLT_DISALLOW_FAST_IO),
            0xc01c0005 => Some(NtStatusWindows::STATUS_FLT_INVALID_NAME_REQUEST),
            0xc01c0006 => Some(NtStatusWindows::STATUS_FLT_NOT_SAFE_TO_POST_OPERATION),
            0xc01c0007 => Some(NtStatusWindows::STATUS_FLT_NOT_INITIALIZED),
            0xc01c0008 => Some(NtStatusWindows::STATUS_FLT_FILTER_NOT_READY),
            0xc01c0009 => Some(NtStatusWindows::STATUS_FLT_POST_OPERATION_CLEANUP),
            _ => None,
        }
    }

    /// One slice of the symbol table.
    #[verifier::spinoff_prover]
    #[verifier::rlimit(100)]
    fn to_u32_part32(self) -> (r: Option<u32>)
        ensures
            r == self.spec_to_u32_part32(),
    {
        match self {
            NtStatusWindows::STATUS_LOG_RESTART_INVALID => Some(0xc01a0008),
            NtStatusWindows::STATUS_LOG_BLOCK_VERSION => Some(0xc01a0009),
            NtStatusWindows::STATUS_LOG_BLOCK_INVALID => Some(0xc01a000a),
            NtStatusWindows::STATUS_LOG_READ_MODE_INVALID => Some(0xc01a000b),
            NtStatusWindows::STATUS_LOG_METADATA_CORRUPT => Some(0xc01a000d),
            NtStatusWindows::STATUS_LOG_METADATA_INVALID => Some(0xc01a000e),
            NtStatusWindows::STATUS_LOG_METADATA_INCONSISTENT => Some(0xc01a000f),
            NtStatusWindows::STATUS_LOG_RESERVATION_INVALID => Some(0xc01a0010),
            NtStatusWindows::STATUS_LOG_CANT_DELETE => Some(0xc01a0011),
            NtStatusWindows::STATUS_LOG_CONTAINER_LIMIT_EXCEEDED => Some(0xc01a0012),
            NtStatusWindows::STATUS_LOG_START_OF_LOG => Some(0xc01a0013),
            NtStatusWindows::STATUS_LOG_POLICY_ALREADY_INSTALLED => Some(0xc01a0014),
            NtStatusWindows::STATUS_LOG_POLICY_NOT_INSTALLED => Some(0xc01a0015),
            NtStatusWindows::STATUS_LOG_POLICY_INVALID => Some(0xc01a0016),
            NtStatusWindows::STATUS_LOG_POLICY_CONFLICT => Some(0xc01a0017),
            NtStatusWindows::STATUS_LOG_PINNED_ARCHIVE_TAIL => Some(0xc01a0018),
            NtStatusWindows::STATUS_LOG_RECORD_NONEXISTENT => Some(0xc01a0019),
            NtStatusWindows::STATUS_LOG_RECORDS_RESERVED_INVALID => Some(0xc01a001a),
            NtStatusWindows::STATUS_LOG_SPACE_RESERVED_INVALID => Some(0xc01a001b),
            NtStatusWindows::STATUS_LOG_TAIL_INVALID => Some(0xc01a001c),
            NtStatusWindows::STATUS_LOG_FULL => Some(0xc01a001d),
            NtStatusWindows::STATUS_LOG_MULTIPLEXED => Some(0xc01a001e),
            NtStatusWindows::STATUS_LOG_DEDICATED => Some(0xc01a001f),
            NtStatusWindows::STATUS_LOG_ARCHIVE_NOT_IN_PROGRESS => Some(0xc01a0020),
            NtStatusWindows::STATUS_LOG_ARCHIVE_IN_PROGRESS => Some(0xc01a0021),
            NtStatusWindows::STATUS_LOG_EPHEMERAL => Some(0xc01a0022),
            NtStatusWindows::STATUS_LOG_NOT_ENOUGH_CONTAINERS => Some(0xc01a0023),
            NtStatusWindows::STATUS_LOG_CLIENT_ALREADY_REGISTERED => Some(0xc01a0024),
            NtStatusWindows::STATUS_LOG_CLIENT_NOT_REGISTERED => Some(0xc01a0025),
            NtStatusWindows::STATUS_LOG_FULL_HANDLER_IN_PROGRESS => Some(0xc01a0026),
            NtStatusWindows::STATUS_LOG_CONTAINER_READ_FAILED => Some(0xc01a0027),
            NtStatusWindows::STATUS_LOG_CONTAINER_WRITE_FAILED => Some(0xc01a0028),
            NtStatusWindows::STATUS_LOG_CONTAINER_OPEN_FAILED => Some(0xc01a0029),
            NtStatusWindows::STATUS_LOG_CONTAINER_STATE_INVALID => Some(0xc01a002a),
            NtStatusWindows::STATUS_LOG_STATE_INVALID => Some(0xc01a002b),
            NtStatusWindows::STATUS_LOG_PINNED => Some(0xc01a002c),
            NtStatusWindows::STATUS_LOG_METADATA_FLUSH_FAILED => Some(0xc01a002d),
            NtStatusWindows::STATUS_LOG_INCONSISTENT_SECURITY => Some(0xc01a002e),
            NtStatusWindows::STATUS_LOG_APPENDED_FLUSH_FAILED => Some(0xc01a002f),
            NtStatusWindows::STATUS_LOG_PINNED_RESERVATION => Some(0xc01a0030),
            NtStatusWindows::STATUS_VIDEO_HUNG_DISPLAY_DRIVER_THREAD => Some(0xc01b00ea),
            NtStatusWindows::STATUS_FLT_NO_HANDLER_DEFINED => Some(0xc01c0001),
            NtStatusWindows::STATUS_FLT_CONTEXT_ALREADY_DEFINED => Some(0xc01c0002),
            NtStatusWindows::STATUS_FLT_INVALID_ASYNCHRONOUS_REQUEST => Some(0xc01c0003),
            NtStatusWindows::STATUS_FLT_DISALLOW_FAST_IO => Some(0xc01c0004),
            NtStatusWindows::STATUS_FLT_INVALID_NAME_REQUEST => Some(0xc01c0005),
            NtStatusWindows::STATUS_FLT_NOT_SAFE_TO_POST_OPERATION => Some(0xc01c0006),
            NtStatusWindows::STATUS_FLT_NOT_INITIALIZED => Some(0xc01c0007),
            NtStatusWindows::STATUS_FLT_FILTER_NOT_READY => Some(0xc01c0008),
            NtStatusWindows::STATUS_FLT_POST_OPERATION_CLEANUP => Some(0xc01c0009),
            _ => None,
        }
    }

    /// One slice of the symbol table.
    #[verifier::spinoff_prover]
    #[verifier::rlimit(100)]
    fn from_u32_part32(raw: u32) -> (r: Option<NtStatusWindows>)
        ensures
            r == NtStatusWindows::spec_from_u32_part32(raw),
    {
        match raw {
            0xc01a0008 => Some(NtStatusWindows::STATUS_LOG_RESTART_INVALID),
            0xc01a0009 => Some(NtStatusWindows::STATUS_LOG_BLOCK_VERSION),
            0xc01a000a => Some(NtStatusWindows::STATUS_LOG_BLOCK_INVALID),
            0xc01a000b => Some(NtStatusWindows::STATUS_LOG_READ_MODE_INVALID),
            0xc01a000d => Some(NtStatusWindows::STATUS_LOG_METADATA_CORRUPT),
            0xc01a000e => Some(NtStatusWindows::STATUS_LOG_METADATA_INVALID),
            0xc01a000f => Some(NtStatusWindows::STATUS_LOG_METADATA_INCONSISTENT),
            0xc01a0010 => Some(NtStatusWindows::STATUS_LOG_RESERVATION_INVALID),
            0xc01a0011 => Some(NtStatusWindows::STATUS_LOG_CANT_DELETE),
            0xc01a0012 => Some(NtStatusWindows::STATUS_LOG_CONTAINER_LIMIT_EXCEEDED),
            0xc01a0013 => Some(NtStatusWindows::STATUS_LOG_START_OF_LOG),
            0xc01a0014 => Some(NtStatusWindows::STATUS_LOG_POLICY_ALREADY_INSTALLED),
            0xc01a0015 => Some(NtStatusWindows::STATUS_LOG_POLICY_NOT_INSTALLED),
            0xc01a0016 => Some(NtStatusWindows::STATUS_LOG_POLICY_INVALID),
            0xc01a0017 => Some(NtStatusWindows::STATUS_LOG_POLICY_CONFLICT),
            0xc01a0018 => Some(NtStatusWindows::STATUS_LOG_PINNED_ARCHIVE_TAIL),
            0xc01a0019 => Some(NtStatusWindows::STATUS_LOG_RECORD_NONEXISTENT),
            0xc01a001a => Some(NtStatusWindows::STATUS_LOG_RECORDS_RESERVED_INVALID),
            0xc01a001b => Some(NtStatusWindows::STATUS_LOG_SPACE_RESERVED_INVALID),
            0xc01a001c => Some(NtStatusWindows::STATUS_LOG_TAIL_INVALID),
            0xc01a001d => Some(NtStatusWindows::STATUS_LOG_FULL),
            0xc01a001e => Some(NtStatusWindows::STATUS_LOG_MULTIPLEXED),
            0xc01a001f => Some(NtStatusWindows::STATUS_LOG_DEDICATED),
            0xc01a0020 => Some(NtStatusWindows::STATUS_LOG_ARCHIVE_NOT_IN_PROGRESS),
            0xc01a0021 => Some(NtStatusWindows::STATUS_LOG_ARCHIVE_IN_PROGRESS),
            0xc01a0022 => Some(NtStatusWindows::STATUS_LOG_EPHEMERAL),
            0xc01a0023 => Some(NtStatusWindows::STATUS_LOG_NOT_ENOUGH_CONTAINERS),
            0xc01a0024 => Some(NtStatusWindows::STATUS_LOG_CLIENT_ALREADY_REGISTERED),
            0xc01a0025 => Some(NtStatusWindows::STATUS_LOG_CLIENT_NOT_REGISTERED),
            0xc01a0026 => Some(NtStatusWindows::STATUS_LOG_FULL_HANDLER_IN_PROGRESS),
            0xc01a0027 => Some(NtStatusWindows::STATUS_LOG_CONTAINER_READ_FAILED),
            0xc01a0028 => Some(NtStatusWindows::STATUS_LOG_CONTAINER_WRITE_FAILED),
            0xc01a0029 => Some(NtStatusWindows::STATUS_LOG_CONTAINER_OPEN_FAILED),
            0xc01a002a => Some(NtStatusWindows::STATUS_LOG_CONTAINER_STATE_INVALID),
            0xc01a002b => Some(NtStatusWindows::STATUS_LOG_STATE_INVALID),
            0xc01a002c => Some(NtStatusWindows::STATUS_LOG_PINNED),
            0xc01a002d => Some(NtStatusWindows::STATUS_LOG_METADATA_FLUSH_FAILED),
            0xc01a002e => Some(NtStatusWindows::STATUS_LOG_INCONSISTENT_SECURITY),
            0xc01a002f => Some(NtStatusWindows::STATUS_LOG_APPENDED_FLUSH_FAILED),
            0xc01a0030 => Some(NtStatusWindows::STATUS_LOG_PINNED_RESERVATION),
            0xc01b00ea => Some(NtStatusWindows::STATUS_VIDEO_HUNG_DISPLAY_DRIVER_THREAD),
            0xc01c0001 => Some(NtStatusWindows::STATUS_FLT_NO_HANDLER_DEFINED),
            0xc01c0002 => Some(NtStatusWindows::STATUS_FLT_CONTEXT_ALREADY_DEFINED),
            0xc01c0003 => Some(NtStatusWindows::STATUS_FLT_INVALID_ASYNCHRONOUS_REQUEST),
            0xc01c0004 => Some(NtStatusWindows::STATUS_FLT_DISALLOW_FAST_IO),
            0xc01c0005 => Some(NtStatusWindows::STATUS_FLT_INVALID_NAME_REQUEST),
            0xc01c0006 => Some(NtStatusWindows::STATUS_FLT_NOT_SAFE_TO_POST_OPERATION),
            0xc01c0007 => Some(NtStatusWindows::STATUS_FLT_NOT_INITIALIZED),
            0xc01c0008 => Some(NtStatusWindows::STATUS_FLT_FILTER_NOT_READY),
            0xc01c0009 => Some(NtStatusWindows::STATUS_FLT_POST_OPERATION_CLEANUP),
            _ => None,
        }
    }

    /// One slice of the symbol table: the raw value of this symbol,
    /// where this slice holds it.
    pub open spec fn spec_to_u32_part33(self) -> Option<u32> {
        match self {
            NtStatusWindows::STATUS_FLT_INTERNAL_ERROR => Some(0xc01c000a),
            NtStatusWindows::STATUS_FLT_DELETING_OBJECT => Some(0xc01c000b),
            NtStatusWindows::STATUS_FLT_MUST_BE_NONPAGED_POOL => Some(0xc01c000c),
            NtStatusWindows::STATUS_FLT_DUPLICATE_ENTRY => Some(0xc01c000d),
            NtStatusWindows::STATUS_FLT_CBDQ_DISABLED => Some(0xc01c000e),
            NtStatusWindows::STATUS_FLT_DO_NOT_ATTACH => Some(0xc01c000f),
            NtStatusWindows::STATUS_FLT_DO_NOT_DETACH => Some(0xc01c0010),
            NtStatusWindows::STATUS_FLT_INSTANCE_ALTITUDE_COLLISION => Some(0xc01c0011),
            NtStatusWindows::STATUS_FLT_INSTANCE_NAME_COLLISION => Some(0xc01c0012),
            NtStatusWindows::STATUS_FLT_FILTER_NOT_FOUND => Some(0xc01c0013),
            NtStatusWindows::STATUS_FLT_VOLUME_NOT_FOUND => Some(0xc01c0014),
            NtStatusWindows::STATUS_FLT_INSTANCE_NOT_FOUND => Some(0xc01c0015),
            NtStatusWindows::STATUS_FLT_CONTEXT_ALLOCATION_NOT_FOUND => Some(0xc01c0016),
            NtStatusWindows::STATUS_FLT_INVALID_CONTEXT_REGISTRATION => Some(0xc01c0017),
            NtStatusWindows::STATUS_FLT_NAME_CACHE_MISS => Some(0xc01c0018),
            NtStatusWindows::STATUS_FLT_NO_DEVICE_OBJECT => Some(0xc01c0019),
            NtStatusWindows::STATUS_FLT_VOLUME_ALREADY_MOUNTED => Some(0xc01c001a),
            NtStatusWindows::STATUS_FLT_ALREADY_ENLISTED => Some(0xc01c001b),
            NtStatusWindows::STATUS_FLT_CONTEXT_ALREADY_LINKED => Some(0xc01c001c),
            NtStatusWindows::STATUS_FLT_NO_WAITER_FOR_REPLY => Some(0xc01c0020),
            NtStatusWindows::STATUS_FLT_REGISTRATION_BUSY => Some(0xc01c0023),
            NtStatusWindows::STATUS_MONITOR_NO_DESCRIPTOR => Some(0xc01d0001),
            NtStatusWindows::STATUS_MONITOR_UNKNOWN_DESCRIPTOR_FORMAT => Some(0xc01d0002),
            NtStatusWindows::STATUS_MONITOR_INVALID_DESCRIPTOR_CHECKSUM => Some(0xc01d0003),
            NtStatusWindows::STATUS_MONITOR_INVALID_STANDARD_TIMING_BLOCK => Some(0xc01d0004),
            NtStatusWindows::STATUS_MONITOR_WMI_DATABLOCK_REGISTRATION_FAILED => Some(0xc01d0005),
            NtStatusWindows::STATUS_MONITOR_INVALID_SERIAL_NUMBER_MONDSC_BLOCK => Some(0xc01d0006),
            NtStatusWindows::STATUS_MONITOR_INVALID_USER_FRIENDLY_MONDSC_BLOCK => Some(0xc01d0007),
            NtStatusWindows::STATUS_MONITOR_NO_MORE_DESCRIPTOR_DATA => Some(0xc01d0008),
            NtStatusWindows::STATUS_MONITOR_INVALID_DETAILED_TIMING_BLOCK => Some(0xc01d0009),
            NtStatusWindows::STATUS_MONITOR_INVALID_MANUFACTURE_DATE => Some(0xc01d000a),
            NtStatusWindows::STATUS_GRAPHICS_NOT_EXCLUSIVE_MODE_OWNER => Some(0xc01e0000),
            NtStatusWindows::STATUS_GRAPHICS_INSUFFICIENT_DMA_BUFFER => Some(0xc01e0001),
            NtStatusWindows::STATUS_GRAPHICS_INVALID_DISPLAY_ADAPTER => Some(0xc01e0002),
            NtStatusWindows::STATUS_GRAPHICS_ADAPTER_WAS_RESET => Some(0xc01e0003),
            NtStatusWindows::STATUS_GRAPHICS_INVALID_DRIVER_MODEL => Some(0xc01e0004),
            NtStatusWindows::STATUS_GRAPHICS_PRESENT_MODE_CHANGED => Some(0xc01e0005),
            NtStatusWindows::STATUS_GRAPHICS_PRESENT_OCCLUDED => Some(0xc01e0006),
            NtStatusWindows::STATUS_GRAPHICS_PRESENT_DENIED => Some(0xc01e0007),
            NtStatusWindows::STATUS_GRAPHICS_CANNOTCOLORCONVERT => Some(0xc01e0008),
            NtStatusWindows::STATUS_GRAPHICS_DRIVER_MISMATCH => Some(0xc01e0009),
            NtStatusWindows::STATUS_GRAPHICS_PRESENT_REDIRECTION_DISABLED => Some(0xc01e000b),
            NtStatusWindows::STATUS_GRAPHICS_PRESENT_UNOCCLUDED => Some(0xc01e000c),
            NtStatusWindows::STATUS_GRAPHICS_WINDOWDC_NOT_AVAILABLE => Some(0xc01e000d),
            NtStatusWindows::STATUS_GRAPHICS_WINDOWLESS_PRESENT_DISABLED => Some(0xc01e000e),
            NtStatusWindows::STATUS_GRAPHICS_PRESENT_INVALID_WINDOW => Some(0xc01e000f),
            NtStatusWindows::STATUS_GRAPHICS_PRESENT_BUFFER_NOT_BOUND => Some(0xc01e0010),
            NtStatusWindows::STATUS_GRAPHICS_VAIL_STATE_CHANGED => Some(0xc01e0011),
            NtStatusWindows::STATUS_GRAPHICS_INDIRECT_DISPLAY_ABANDON_SWAPCHAIN => Some(0xc01e0012),
            NtStatusWindows::STATUS_GRAPHICS_INDIRECT_DISPLAY_DEVICE_STOPPED => Some(0xc01e0013),
            _ => None,
        }
    }

    /// One slice of the symbol table: the symbol this slice gives a
    /// raw value, where it holds one.
    pub open spec fn spec_from_u32_part33(raw: u32) -> Option<NtStatusWindows> {
        match raw {
            0xc01c000a => Some(NtStatusWindows::STATUS_FLT_INTERNAL_ERROR),
            0xc01c000b => Some(NtStatusWindows::STATUS_FLT_DELETING_OBJECT),
            0xc01c000c => Some(NtStatusWindows::STATUS_FLT_MUST_BE_NONPAGED_POOL),
            0xc01c000d => Some(NtStatusWindows::STATUS_FLT_DUPLICATE_ENTRY),
            0xc01c000e => Some(NtStatusWindows::STATUS_FLT_CBDQ_DISABLED),
            0xc01c000f => Some(NtStatusWindows::STATUS_FLT_DO_NOT_ATTACH),
            0xc01c0010 => Some(NtStatusWindows::STATUS_FLT_DO_NOT_DETACH),
            0xc01c0011 => Some(NtStatusWindows::STATUS_FLT_INSTANCE_ALTITUDE_COLLISION),
            0xc01c0012 => Some(NtStatusWindows::STATUS_FLT_INSTANCE_NAME_COLLISION),
            0xc01c0013 => Some(NtStatusWindows::STATUS_FLT_FILTER_NOT_FOUND),
            0xc01c0014 => Some(NtStatusWindows::STATUS_FLT_VOLUME_NOT_FOUND),
            0xc01c0015 => Some(NtStatusWindows::STATUS_FLT_INSTANCE_NOT_FOUND),
            0xc01c0016 => Some(NtStatusWindows::STATUS_FLT_CONTEXT_ALLOCATION_NOT_FOUND),
            0xc01c0017 => Some(NtStatusWindows::STATUS_FLT_INVALID_CONTEXT_REGISTRATION),
            0xc01c0018 => Some(NtStatusWindows::STATUS_FLT_NAME_CACHE_MISS),
            0xc01c0019 => Some(NtStatusWindows::STATUS_FLT_NO_DEVICE_OBJECT),
            0xc01c001a => Some(NtStatusWindows::STATUS_FLT_VOLUME_ALREADY_MOUNTED),
            0xc01c001b => Some(NtStatusWindows::STATUS_FLT_ALREADY_ENLISTED),
            0xc01c001c => Some(NtStatusWindows::STATUS_FLT_CONTEXT_ALREADY_LINKED),
            0xc01c0020 => Some(NtStatusWindows::STATUS_FLT_NO_WAITER_FOR_REPLY),
            0xc01c0023 => Some(NtStatusWindows::STATUS_FLT_REGISTRATION_BUSY),
            0xc01d0001 => Some(NtStatusWindows::STATUS_MONITOR_NO_DESCRIPTOR),
            0xc01d0002 => Some(NtStatusWindows::STATUS_MONITOR_UNKNOWN_DESCRIPTOR_FORMAT),
            0xc01d0003 => Some(NtStatusWindows::STATUS_MONITOR_INVALID_DESCRIPTOR_CHECKSUM),
            0xc01d0004 => Some(NtStatusWindows::STATUS_MONITOR_INVALID_STANDARD_TIMING_BLOCK),
            0xc01d0005 => Some(NtStatusWindows::STATUS_MONITOR_WMI_DATABLOCK_REGISTRATION_FAILED),
            0xc01d0006 => Some(NtStatusWindows::STATUS_MONITOR_INVALID_SERIAL_NUMBER_MONDSC_BLOCK),
            0xc01d0007 => Some(NtStatusWindows::STATUS_MONITOR_INVALID_USER_FRIENDLY_MONDSC_BLOCK),
            0xc01d0008 => Some(NtStatusWindows::STATUS_MONITOR_NO_MORE_DESCRIPTOR_DATA),
            0xc01d0009 => Some(NtStatusWindows::STATUS_MONITOR_INVALID_DETAILED_TIMING_BLOCK),
            0xc01d000a => Some(NtStatusWindows::STATUS_MONITOR_INVALID_MANUFACTURE_DATE),
            0xc01e0000 => Some(NtStatusWindows::STATUS_GRAPHICS_NOT_EXCLUSIVE_MODE_OWNER),
            0xc01e0001 => Some(NtStatusWindows::STATUS_GRAPHICS_INSUFFICIENT_DMA_BUFFER),
            0xc01e0002 => Some(NtStatusWindows::STATUS_GRAPHICS_INVALID_DISPLAY_ADAPTER),
            0xc01e0003 => Some(NtStatusWindows::STATUS_GRAPHICS_ADAPTER_WAS_RESET),
            0xc01e0004 => Some(NtStatusWindows::STATUS_GRAPHICS_INVALID_DRIVER_MODEL),
            0xc01e0005 => Some(NtStatusWindows::STATUS_GRAPHICS_PRESENT_MODE_CHANGED),
            0xc01e0006 => Some(NtStatusWindows::STATUS_GRAPHICS_PRESENT_OCCLUDED),
            0xc01e0007 => Some(NtStatusWindows::STATUS_GRAPHICS_PRESENT_DENIED),
            0xc01e0008 => Some(NtStatusWindows::STATUS_GRAPHICS_CANNOTCOLORCONVERT),
            0xc01e0009 => Some(NtStatusWindows::STATUS_GRAPHICS_DRIVER_MISMATCH),
            0xc01e000b => Some(NtStatusWindows::STATUS_GRAPHICS_PRESENT_REDIRECTION_DISABLED),
            0xc01e000c => Some(NtStatusWindows::STATUS_GRAPHICS_PRESENT_UNOCCLUDED),
            0xc01e000d => Some(NtStatusWindows::STATUS_GRAPHICS_WINDOWDC_NOT_AVAILABLE),
            0xc01e000e => Some(NtStatusWindows::STATUS_GRAPHICS_WINDOWLESS_PRESENT_DISABLED),
            0xc01e000f => Some(NtStatusWindows::STATUS_GRAPHICS_PRESENT_INVALID_WINDOW),
            0xc01e0010 => Some(NtStatusWindows::STATUS_GRAPHICS_PRESENT_BUFFER_NOT_BOUND),
            0xc01e0011 => Some(NtStatusWindows::STATUS_GRAPHICS_VAIL_STATE_CHANGED),
            0xc01e0012 => Some(NtStatusWindows::STATUS_GRAPHICS_INDIRECT_DISPLAY_ABANDON_SWAPCHAIN),
            0xc01e0013 => Some(NtStatusWindows::STATUS_GRAPHICS_INDIRECT_DISPLAY_DEVICE_STOPPED),
            _ => None,
        }
    }

    /// One slice of the symbol table.
    #[verifier::spinoff_prover]
    #[verifier::rlimit(100)]
    fn to_u32_part33(self) -> (r: Option<u32>)
        ensures
            r == self.spec_to_u32_part33(),
    {
        match self {
            NtStatusWindows::STATUS_FLT_INTERNAL_ERROR => Some(0xc01c000a),
            NtStatusWindows::STATUS_FLT_DELETING_OBJECT => Some(0xc01c000b),
            NtStatusWindows::STATUS_FLT_MUST_BE_NONPAGED_POOL => Some(0xc01c000c),
            NtStatusWindows::STATUS_FLT_DUPLICATE_ENTRY => Some(0xc01c000d),
            NtStatusWindows::STATUS_FLT_CBDQ_DISABLED => Some(0xc01c000e),
            NtStatusWindows::STATUS_FLT_DO_NOT_ATTACH => Some(0xc01c000f),
            NtStatusWindows::STATUS_FLT_DO_NOT_DETACH => Some(0xc01c0010),
            NtStatusWindows::STATUS_FLT_INSTANCE_ALTITUDE_COLLISION => Some(0xc01c0011),
            NtStatusWindows::STATUS_FLT_INSTANCE_NAME_COLLISION => Some(0xc01c0012),
            NtStatusWindows::STATUS_FLT_FILTER_NOT_FOUND => Some(0xc01c0013),
            NtStatusWindows::STATUS_FLT_VOLUME_NOT_FOUND => Some(0xc01c0014),
            NtStatusWindows::STATUS_FLT_INSTANCE_NOT_FOUND => Some(0xc01c0015),
            NtStatusWindows::STATUS_FLT_CONTEXT_ALLOCATION_NOT_FOUND => Some(0xc01c0016),
            NtStatusWindows::STATUS_FLT_INVALID_CONTEXT_REGISTRATION => Some(0xc01c0017),
            NtStatusWindows::STATUS_FLT_NAME_CACHE_MISS => Some(0xc01c0018),
            NtStatusWindows::STATUS_FLT_NO_DEVICE_OBJECT => Some(0xc01c0019),
            NtStatusWindows::STATUS_FLT_VOLUME_ALREADY_MOUNTED => Some(0xc01c001a),
            NtStatusWindows::STATUS_FLT_ALREADY_ENLISTED => Some(0xc01c001b),
            NtStatusWindows::STATUS_FLT_CONTEXT_ALREADY_LINKED => Some(0xc01c001c),
            NtStatusWindows::STATUS_FLT_NO_WAITER_FOR_REPLY => Some(0xc01c0020),
            NtStatusWindows::STATUS_FLT_REGISTRATION_BUSY => Some(0xc01c0023),
            NtStatusWindows::STATUS_MONITOR_NO_DESCRIPTOR => Some(0xc01d0001),
            NtStatusWindows::STATUS_MONITOR_UNKNOWN_DESCRIPTOR_FORMAT => Some(0xc01d0002),
            NtStatusWindows::STATUS_MONITOR_INVALID_DESCRIPTOR_CHECKSUM => Some(0xc01d0003),
            NtStatusWindows::STATUS_MONITOR_INVALID_STANDARD_TIMING_BLOCK => Some(0xc01d0004),
            NtStatusWindows::STATUS_MONITOR_WMI_DATABLOCK_REGISTRATION_FAILED => Some(0xc01d0005),
            NtStatusWindows::STATUS_MONITOR_INVALID_SERIAL_NUMBER_MONDSC_BLOCK => Some(0xc01d0006),
            NtStatusWindows::STATUS_MONITOR_INVALID_USER_FRIENDLY_MONDSC_BLOCK => Some(0xc01d0007),
            NtStatusWindows::STATUS_MONITOR_NO_MORE_DESCRIPTOR_DATA => Some(0xc01d0008),
            NtStatusWindows::STATUS_MONITOR_INVALID_DETAILED_TIMING_BLOCK => Some(0xc01d0009),
            NtStatusWindows::STATUS_MONITOR_INVALID_MANUFACTURE_DATE => Some(0xc01d000a),
            NtStatusWindows::STATUS_GRAPHICS_NOT_EXCLUSIVE_MODE_OWNER => Some(0xc01e0000),
            NtStatusWindows::STATUS_GRAPHICS_INSUFFICIENT_DMA_BUFFER => Some(0xc01e0001),
            NtStatusWindows::STATUS_GRAPHICS_INVALID_DISPLAY_ADAPTER => Some(0xc01e0002),
            NtStatusWindows::STATUS_GRAPHICS_ADAPTER_WAS_RESET => Some(0xc01e0003),
            NtStatusWindows::STATUS_GRAPHICS_INVALID_DRIVER_MODEL => Some(0xc01e0004),
            NtStatusWindows::STATUS_GRAPHICS_PRESENT_MODE_CHANGED => Some(0xc01e0005),
            NtStatusWindows::STATUS_GRAPHICS_PRESENT_OCCLUDED => Some(0xc01e0006),
            NtStatusWindows::STATUS_GRAPHICS_PRESENT_DENIED => Some(0xc01e0007),
            NtStatusWindows::STATUS_GRAPHICS_CANNOTCOLORCONVERT => Some(0xc01e0008),
            NtStatusWindows::STATUS_GRAPHICS_DRIVER_MISMATCH => Some(0xc01e0009),
            NtStatusWindows::STATUS_GRAPHICS_PRESENT_REDIRECTION_DISABLED => Some(0xc01e000b),
            NtStatusWindows::STATUS_GRAPHICS_PRESENT_UNOCCLUDED => Some(0xc01e000c),
            NtStatusWindows::STATUS_GRAPHICS_WINDOWDC_NOT_AVAILABLE => Some(0xc01e000d),
            NtStatusWindows::STATUS_GRAPHICS_WINDOWLESS_PRESENT_DISABLED => Some(0xc01e000e),
            NtStatusWindows::STATUS_GRAPHICS_PRESENT_INVALID_WINDOW => Some(0xc01e000f),
            NtStatusWindows::STATUS_GRAPHICS_PRESENT_BUFFER_NOT_BOUND => Some(0xc01e0010),
            NtStatusWindows::STATUS_GRAPHICS_VAIL_STATE_CHANGED => Some(0xc01e0011),
            NtStatusWindows::STATUS_GRAPHICS_INDIRECT_DISPLAY_ABANDON_SWAPCHAIN => Some(0xc01e0012),
            NtStatusWindows::STATUS_GRAPHICS_INDIRECT_DISPLAY_DEVICE_STOPPED => Some(0xc01e0013),
            _ => None,
        }
    }

    /// One slice of the symbol table.
    #[verifier::spinoff_prover]
    #[verifier::rlimit(100)]
    fn from_u32_part33(raw: u32) -> (r: Option<NtStatusWindows>)
        ensures
            r == NtStatusWindows::spec_from_u32_part33(raw),
    {
        match raw {
            0xc01c000a => Some(NtStatusWindows::STATUS_FLT_INTERNAL_ERROR),
            0xc01c000b => Some(NtStatusWindows::STATUS_FLT_DELETING_OBJECT),
            0xc01c000c => Some(NtStatusWindows::STATUS_FLT_MUST_BE_NONPAGED_POOL),
            0xc01c000d => Some(NtStatusWindows::STATUS_FLT_DUPLICATE_ENTRY),
            0xc01c000e => Some(NtStatusWindows::STATUS_FLT_CBDQ_DISABLED),
            0xc01c000f => Some(NtStatusWindows::STATUS_FLT_DO_NOT_ATTACH),
            0xc01c0010 => Some(NtStatusWindows::STATUS_FLT_DO_NOT_DETACH),
            0xc01c0011 => Some(NtStatusWindows::STATUS_FLT_INSTANCE_ALTITUDE_COLLISION),
            0xc01c0012 => Some(NtStatusWindows::STATUS_FLT_INSTANCE_NAME_COLLISION),
            0xc01c0013 => Some(NtStatusWindows::STATUS_FLT_FILTER_NOT_FOUND),
            0xc01c0014 => Some(NtStatusWindows::STATUS_FLT_VOLUME_NOT_FOUND),
            0xc01c0015 => Some(NtStatusWindows::STATUS_FLT_INSTANCE_NOT_FOUND),
            0xc01c0016 => Some(NtStatusWindows::STATUS_FLT_CONTEXT_ALLOCATION_NOT_FOUND),
            0xc01c0017 => Some(NtStatusWindows::STATUS_FLT_INVALID_CONTEXT_REGISTRATION),
            0xc01c0018 => Some(NtStatusWindows::STATUS_FLT_NAME_CACHE_MISS),
            0xc01c0019 => Some(NtStatusWindows::STATUS_FLT_NO_DEVICE_OBJECT),
            0xc01c001a => Some(NtStatusWindows::STATUS_FLT_VOLUME_ALREADY_MOUNTED),
            0xc01c001b => Some(NtStatusWindows::STATUS_FLT_ALREADY_ENLISTED),
            0xc01c001c => Some(NtStatusWindows::STATUS_FLT_CONTEXT_ALREADY_LINKED),
            0xc01c0020 => Some(NtStatusWindows::STATUS_FLT_NO_WAITER_FOR_REPLY),
            0xc01c0023 => Some(NtStatusWindows::STATUS_FLT_REGISTRATION_BUSY),
            0xc01d0001 => Some(NtStatusWindows::STATUS_MONITOR_NO_DESCRIPTOR),
            0xc01d0002 => Some(NtStatusWindows::STATUS_MONITOR_UNKNOWN_DESCRIPTOR_FORMAT),
            0xc01d0003 => Some(NtStatusWindows::STATUS_MONITOR_INVALID_DESCRIPTOR_CHECKSUM),
            0xc01d0004 => Some(NtStatusWindows::STATUS_MONITOR_INVALID_STANDARD_TIMING_BLOCK),
            0xc01d0005 => Some(NtStatusWindows::STATUS_MONITOR_WMI_DATABLOCK_REGISTRATION_FAILED),
            0xc01d0006 => Some(NtStatusWindows::STATUS_MONITOR_INVALID_SERIAL_NUMBER_MONDSC_BLOCK),
            0xc01d0007 => Some(NtStatusWindows::STATUS_MONITOR_INVALID_USER_FRIENDLY_MONDSC_BLOCK),
            0xc01d0008 => Some(NtStatusWindows::STATUS_MONITOR_NO_MORE_DESCRIPTOR_DATA),
            0xc01d0009 => Some(NtStatusWindows::STATUS_MONITOR_INVALID_DETAILED_TIMING_BLOCK),
            0xc01d000a => Some(NtStatusWindows::STATUS_MONITOR_INVALID_MANUFACTURE_DATE),
            0xc01e0000 => Some(NtStatusWindows::STATUS_GRAPHICS_NOT_EXCLUSIVE_MODE_OWNER),
            0xc01e0001 => Some(NtStatusWindows::STATUS_GRAPHICS_INSUFFICIENT_DMA_BUFFER),
            0xc01e0002 => Some(NtStatusWindows::STATUS_GRAPHICS_INVALID_DISPLAY_ADAPTER),
            0xc01e0003 => Some(NtStatusWindows::STATUS_GRAPHICS_ADAPTER_WAS_RESET),
            0xc01e0004 => Some(NtStatusWindows::STATUS_GRAPHICS_INVALID_DRIVER_MODEL),
            0xc01e0005 => Some(NtStatusWindows::STATUS_GRAPHICS_PRESENT_MODE_CHANGED),
            0xc01e0006 => Some(NtStatusWindows::STATUS_GRAPHICS_PRESENT_OCCLUDED),
            0xc01e0007 => Some(NtStatusWindows::STATUS_GRAPHICS_PRESENT_DENIED),
            0xc01e0008 => Some(NtStatusWindows::STATUS_GRAPHICS_CANNOTCOLORCONVERT),
            0xc01e0009 => Some(NtStatusWindows::STATUS_GRAPHICS_DRIVER_MISMATCH),
            0xc01e000b => Some(NtStatusWindows::STATUS_GRAPHICS_PRESENT_REDIRECTION_DISABLED),
            0xc01e000c => Some(NtStatusWindows::STATUS_GRAPHICS_PRESENT_UNOCCLUDED),
            0xc01e000d => Some(NtStatusWindows::STATUS_GRAPHICS_WINDOWDC_NOT_AVAILABLE),
            0xc01e000e => Some(NtStatusWindows::STATUS_GRAPHICS_WINDOWLESS_PRESENT_DISABLED),
            0xc01e000f => Some(NtStatusWindows::STATUS_GRAPHICS_PRESENT_INVALID_WINDOW),
            0xc01e0010 => Some(NtStatusWindows::STATUS_GRAPHICS_PRESENT_BUFFER_NOT_BOUND),
            0xc01e0011 => Some(NtStatusWindows::STATUS_GRAPHICS_VAIL_STATE_CHANGED),
            0xc01e0012 => Some(NtStatusWindows::STATUS_GRAPHICS_INDIRECT_DISPLAY_ABANDON_SWAPCHAIN),
            0xc01e0013 => Some(NtStatusWindows::STATUS_GRAPHICS_INDIRECT_DISPLAY_DEVICE_STOPPED),
            _ => None,
        }
    }

    /// One slice of the symbol table: the raw value of this symbol,
    /// where this slice holds it.
    pub open spec fn spec_to_u32_part34(self) -> Option<u32> {
        match self {
            NtStatusWindows::STATUS_GRAPHICS_NO_VIDEO_MEMORY => Some(0xc01e0100),
            NtStatusWindows::STATUS_GRAPHICS_CANT_LOCK_MEMORY => Some(0xc01e0101),
            NtStatusWindows::STATUS_GRAPHICS_ALLOCATION_BUSY => Some(0xc01e0102),
            NtStatusWindows::STATUS_GRAPHICS_TOO_MANY_REFERENCES => Some(0xc01e0103),
            NtStatusWindows::STATUS_GRAPHICS_TRY_AGAIN_LATER => Some(0xc01e0104),
            NtStatusWindows::STATUS_GRAPHICS_TRY_AGAIN_NOW => Some(0xc01e0105),
            NtStatusWindows::STATUS_GRAPHICS_ALLOCATION_INVALID => Some(0xc01e0106),
            NtStatusWindows::STATUS_GRAPHICS_UNSWIZZLING_APERTURE_UNAVAILABLE => Some(0xc01e0107),
            NtStatusWindows::STATUS_GRAPHICS_UNSWIZZLING_APERTURE_UNSUPPORTED => Some(0xc01e0108),
            NtStatusWindows::STATUS_GRAPHICS_CANT_EVICT_PINNED_ALLOCATION => Some(0xc01e0109),
            NtStatusWindows::STATUS_GRAPHICS_INVALID_ALLOCATION_USAGE => Some(0xc01e0110),
            NtStatusWindows::STATUS_GRAPHICS_CANT_RENDER_LOCKED_ALLOCATION => Some(0xc01e0111),
            NtStatusWindows::STATUS_GRAPHICS_ALLOCATION_CLOSED => Some(0xc01e0112),
            NtStatusWindows::STATUS_GRAPHICS_INVALID_ALLOCATION_INSTANCE => Some(0xc01e0113),
            NtStatusWindows::STATUS_GRAPHICS_INVALID_ALLOCATION_HANDLE => Some(0xc01e0114),
            NtStatusWindows::STATUS_GRAPHICS_WRONG_ALLOCATION_DEVICE => Some(0xc01e0115),
            NtStatusWindows::STATUS_GRAPHICS_ALLOCATION_CONTENT_LOST => Some(0xc01e0116),
            NtStatusWindows::STATUS_GRAPHICS_GPU_EXCEPTION_ON_DEVICE => Some(0xc01e0200),
            NtStatusWindows::STATUS_GRAPHICS_INVALID_VIDPN_TOPOLOGY => Some(0xc01e0300),
            NtStatusWindows::STATUS_GRAPHICS_VIDPN_TOPOLOGY_NOT_SUPPORTED => Some(0xc01e0301),
            NtStatusWindows::STATUS_GRAPHICS_VIDPN_TOPOLOGY_CURRENTLY_NOT_SUPPORTED => Some(0xc01e0302),
            NtStatusWindows::STATUS_GRAPHICS_INVALID_VIDPN => Some(0xc01e0303),
            NtStatusWindows::STATUS_GRAPHICS_INVALID_VIDEO_PRESENT_SOURCE => Some(0xc01e0304),
            NtStatusWindows::STATUS_GRAPHICS_INVALID_VIDEO_PRESENT_TARGET => Some(0xc01e0305),
            NtStatusWindows::STATUS_GRAPHICS_VIDPN_MODALITY_NOT_SUPPORTED => Some(0xc01e0306),
            NtStatusWindows::STATUS_GRAPHICS_INVALID_VIDPN_SOURCEMODESET => Some(0xc01e0308),
            NtStatusWindows::STATUS_GRAPHICS_INVALID_VIDPN_TARGETMODESET => Some(0xc01e0309),
            NtStatusWindows::STATUS_GRAPHICS_INVALID_FREQUENCY => Some(0xc01e030a),
            NtStatusWindows::STATUS_GRAPHICS_INVALID_ACTIVE_REGION => Some(0xc01e030b),
            NtStatusWindows::STATUS_GRAPHICS_INVALID_TOTAL_REGION => Some(0xc01e030c),
            NtStatusWindows::STATUS_GRAPHICS_INVALID_VIDEO_PRESENT_SOURCE_MODE => Some(0xc01e0310),
            NtStatusWindows::STATUS_GRAPHICS_INVALID_VIDEO_PRESENT_TARGET_MODE => Some(0xc01e0311),
            NtStatusWindows::STATUS_GRAPHICS_PINNED_MODE_MUST_REMAIN_IN_SET => Some(0xc01e0312),
            NtStatusWindows::STATUS_GRAPHICS_PATH_ALREADY_IN_TOPOLOGY => Some(0xc01e0313),
            NtStatusWindows::STATUS_GRAPHICS_MODE_ALREADY_IN_MODESET => Some(0xc01e0314),
            NtStatusWindows::STATUS_GRAPHICS_INVALID_VIDEOPRESENTSOURCESET => Some(0xc01e0315),
            NtStatusWindows::STATUS_GRAPHICS_INVALID_VIDEOPRESENTTARGETSET => Some(0xc01e0316),
            NtStatusWindows::STATUS_GRAPHICS_SOURCE_ALREADY_IN_SET => Some(0xc01e0317),
            NtStatusWindows::STATUS_GRAPHICS_TARGET_ALREADY_IN_SET => Some(0xc01e0318),
            NtStatusWindows::STATUS_GRAPHICS_INVALID_VIDPN_PRESENT_PATH => Some(0xc01e0319),
            NtStatusWindows::STATUS_GRAPHICS_NO_RECOMMENDED_VIDPN_TOPOLOGY => Some(0xc01e031a),
            NtStatusWindows::STATUS_GRAPHICS_INVALID_MONITOR_FREQUENCYRANGESET => Some(0xc01e031b),
            NtStatusWindows::STATUS_GRAPHICS_INVALID_MONITOR_FREQUENCYRANGE => Some(0xc01e031c),
            NtStatusWindows::STATUS_GRAPHICS_FREQUENCYRANGE_NOT_IN_SET => Some(0xc01e031d),
            NtStatusWindows::STATUS_GRAPHICS_FREQUENCYRANGE_ALREADY_IN_SET => Some(0xc01e031f),
            NtStatusWindows::STATUS_GRAPHICS_STALE_MODESET => Some(0xc01e0320),
            NtStatusWindows::STATUS_GRAPHICS_INVALID_MONITOR_SOURCEMODESET => Some(0xc01e0321),
            NtStatusWindows::STATUS_GRAPHICS_INVALID_MONITOR_SOURCE_MODE => Some(0xc01e0322),
            NtStatusWindows::STATUS_GRAPHICS_NO_RECOMMENDED_FUNCTIONAL_VIDPN => Some(0xc01e0323),
            NtStatusWindows::STATUS_GRAPHICS_MODE_ID_MUST_BE_UNIQUE => Some(0xc01e0324),
            _ => None,
        }
    }

    /// One slice of the symbol table: the symbol this slice gives a
    /// raw value, where it holds one.
    pub open spec fn spec_from_u32_part34(raw: u32) -> Option<NtStatusWindows> {
        match raw {
            0xc01e0100 => Some(NtStatusWindows::STATUS_GRAPHICS_NO_VIDEO_MEMORY),
            0xc01e0101 => Some(NtStatusWindows::STATUS_GRAPHICS_CANT_LOCK_MEMORY),
            0xc01e0102 => Some(NtStatusWindows::STATUS_GRAPHICS_ALLOCATION_BUSY),
            0xc01e0103 => Some(NtStatusWindows::STATUS_GRAPHICS_TOO_MANY_REFERENCES),
            0xc01e0104 => Some(NtStatusWindows::STATUS_GRAPHICS_TRY_AGAIN_LATER),
            0xc01e0105 => Some(NtStatusWindows::STATUS_GRAPHICS_TRY_AGAIN_NOW),
            0xc01e0106 => Some(NtStatusWindows::STATUS_GRAPHICS_ALLOCATION_INVALID),
            0xc01e0107 => Some(NtStatusWindows::STATUS_GRAPHICS_UNSWIZZLING_APERTURE_UNAVAILABLE),
            0xc01e0108 => Some(NtStatusWindows::STATUS_GRAPHICS_UNSWIZZLING_APERTURE_UNSUPPORTED),
            0xc01e0109 => Some(NtStatusWindows::STATUS_GRAPHICS_CANT_EVICT_PINNED_ALLOCATION),
            0xc01e0110 => Some(NtStatusWindows::STATUS_GRAPHICS_INVALID_ALLOCATION_USAGE),
            0xc01e0111 => Some(NtStatusWindows::STATUS_GRAPHICS_CANT_RENDER_LOCKED_ALLOCATION),
            0xc01e0112 => Some(NtStatusWindows::STATUS_GRAPHICS_ALLOCATION_CLOSED),
            0xc01e0113 => Some(NtStatusWindows::STATUS_GRAPHICS_INVALID_ALLOCATION_INSTANCE),
            0xc01e0114 => Some(NtStatusWindows::STATUS_GRAPHICS_INVALID_ALLOCATION_HANDLE),
            0xc01e0115 => Some(NtStatusWindows::STATUS_GRAPHICS_WRONG_ALLOCATION_DEVICE),
            0xc01e0116 => Some(NtStatusWindows::STATUS_GRAPHICS_ALLOCATION_CONTENT_LOST),
            0xc01e0200 => Some(NtStatusWindows::STATUS_GRAPHICS_GPU_EXCEPTION_ON_DEVICE),
            0xc01e0300 => Some(NtStatusWindows::STATUS_GRAPHICS_INVALID_VIDPN_TOPOLOGY),
            0xc01e0301 => Some(NtStatusWindows::STATUS_GRAPHICS_VIDPN_TOPOLOGY_NOT_SUPPORTED),
            0xc01e0302 => Some(NtStatusWindows::STATUS_GRAPHICS_VIDPN_TOPOLOGY_CURRENTLY_NOT_SUPPORTED),
            0xc01e0303 => Some(NtStatusWindows::STATUS_GRAPHICS_INVALID_VIDPN),
            0xc01e0304 => Some(NtStatusWindows::STATUS_GRAPHICS_INVALID_VIDEO_PRESENT_SOURCE),
            0xc01e0305 => Some(NtStatusWindows::STATUS_GRAPHICS_INVALID_VIDEO_PRESENT_TARGET),
            0xc01e0306 => Some(NtStatusWindows::STATUS_GRAPHICS_VIDPN_MODALITY_NOT_SUPPORTED),
            0xc01e0308 => Some(NtStatusWindows::STATUS_GRAPHICS_INVALID_VIDPN_SOURCEMODESET),
            0xc01e0309 => Some(NtStatusWindows::STATUS_GRAPHICS_INVALID_VIDPN_TARGETMODESET),
            0xc01e030a => Some(NtStatusWindows::STATUS_GRAPHICS_INVALID_FREQUENCY),
            0xc01e030b => Some(NtStatusWindows::STATUS_GRAPHICS_INVALID_ACTIVE_REGION),
            0xc01e030c => Some(NtStatusWindows::STATUS_GRAPHICS_INVALID_TOTAL_REGION),
            0xc01e0310 => Some(NtStatusWindows::STATUS_GRAPHICS_INVALID_VIDEO_PRESENT_SOURCE_MODE),
            0xc01e0311 => Some(NtStatusWindows::STATUS_GRAPHICS_INVALID_VIDEO_PRESENT_TARGET_MODE),
            0xc01e0312 => Some(NtStatusWindows::STATUS_GRAPHICS_PINNED_MODE_MUST_REMAIN_IN_SET),
            0xc01e0313 => Some(NtStatusWindows::STATUS_GRAPHICS_PATH_ALREADY_IN_TOPOLOGY),
            0xc01e0314 => Some(NtStatusWindows::STATUS_GRAPHICS_MODE_ALREADY_IN_MODESET),
            0xc01e0315 => Some(NtStatusWindows::STATUS_GRAPHICS_INVALID_VIDEOPRESENTSOURCESET),
            0xc01e0316 => Some(NtStatusWindows::STATUS_GRAPHICS_INVALID_VIDEOPRESENTTARGETSET),
            0xc01e0317 => Some(NtStatusWindows::STATUS_GRAPHICS_SOURCE_ALREADY_IN_SET),
            0xc01e0318 => Some(NtStatusWindows::STATUS_GRAPHICS_TARGET_ALREADY_IN_SET),
            0xc01e0319 => Some(NtStatusWindows::STATUS_GRAPHICS_INVALID_VIDPN_PRESENT_PATH),
            0xc01e031a => Some(NtStatusWindows::STATUS_GRAPHICS_NO_RECOMMENDED_VIDPN_TOPOLOGY),
            0xc01e031b => Some(NtStatusWindows::STATUS_GRAPHICS_INVALID_MONITOR_FREQUENCYRANGESET),
            0xc01e031c => Some(NtStatusWindows::STATUS_GRAPHICS_INVALID_MONITOR_FREQUENCYRANGE),
            0xc01e031d => Some(NtStatusWindows::STATUS_GRAPHICS_FREQUENCYRANGE_NOT_IN_SET),
            0xc01e031f => Some(NtStatusWindows::STATUS_GRAPHICS_FREQUENCYRANGE_ALREADY_IN_SET),
            0xc01e0320 => Some(NtStatusWindows::STATUS_GRAPHICS_STALE_MODESET),
            0xc01e0321 => Some(NtStatusWindows::STATUS_GRAPHICS_INVALID_MONITOR_SOURCEMODESET),
            0xc01e0322 => Some(NtStatusWindows::STATUS_GRAPHICS_INVALID_MONITOR_SOURCE_MODE),
            0xc01e0323 => Some(NtStatusWindows::STATUS_GRAPHICS_NO_RECOMMENDED_FUNCTIONAL_VIDPN),
            0xc01e0324 => Some(NtStatusWindows::STATUS_GRAPHICS_MODE_ID_MUST_BE_UNIQUE),
            _ => None,
        }
    }

    /// One slice of the symbol table.
    #[verifier::spinoff_prover]
    #[verifier::rlimit(100)]
    fn to_u32_part34(self) -> (r: Option<u32>)
        ensures
            r == self.spec_to_u32_part34(),
    {
        match self {
            NtStatusWindows::STATUS_GRAPHICS_NO_VIDEO_MEMORY => Some(0xc01e0100),
            NtStatusWindows::STATUS_GRAPHICS_CANT_LOCK_MEMORY => Some(0xc01e0101),
            NtStatusWindows::STATUS_GRAPHICS_ALLOCATION_BUSY => Some(0xc01e0102),
            NtStatusWindows::STATUS_GRAPHICS_TOO_MANY_REFERENCES => Some(0xc01e0103),
            NtStatusWindows::STATUS_GRAPHICS_TRY_AGAIN_LATER => Some(0xc01e0104),
            NtStatusWindows::STATUS_GRAPHICS_TRY_AGAIN_NOW => Some(0xc01e0105),
            NtStatusWindows::STATUS_GRAPHICS_ALLOCATION_INVALID => Some(0xc01e0106),
            NtStatusWindows::STATUS_GRAPHICS_UNSWIZZLING_APERTURE_UNAVAILABLE => Some(0xc01e0107),
            NtStatusWindows::STATUS_GRAPHICS_UNSWIZZLING_APERTURE_UNSUPPORTED => Some(0xc01e0108),
            NtStatusWindows::STATUS_GRAPHICS_CANT_EVICT_PINNED_ALLOCATION => Some(0xc01e0109),
            NtStatusWindows::STATUS_GRAPHICS_INVALID_ALLOCATION_USAGE => Some(0xc01e0110),
            NtStatusWindows::STATUS_GRAPHICS_CANT_RENDER_LOCKED_ALLOCATION => Some(0xc01e0111),
            NtStatusWindows::STATUS_GRAPHICS_ALLOCATION_CLOSED => Some(0xc01e0112),
            NtStatusWindows::STATUS_GRAPHICS_INVALID_ALLOCATION_INSTANCE => Some(0xc01e0113),
            NtStatusWindows::STATUS_GRAPHICS_INVALID_ALLOCATION_HANDLE => Some(0xc01e0114),
            NtStatusWindows::STATUS_GRAPHICS_WRONG_ALLOCATION_DEVICE => Some(0xc01e0115),
            NtStatusWindows::STATUS_GRAPHICS_ALLOCATION_CONTENT_LOST => Some(0xc01e0116),
            NtStatusWindows::STATUS_GRAPHICS_GPU_EXCEPTION_ON_DEVICE => Some(0xc01e0200),
            NtStatusWindows::STATUS_GRAPHICS_INVALID_VIDPN_TOPOLOGY => Some(0xc01e0300),
            NtStatusWindows::STATUS_GRAPHICS_VIDPN_TOPOLOGY_NOT_SUPPORTED => Some(0xc01e0301),
            NtStatusWindows::STATUS_GRAPHICS_VIDPN_TOPOLOGY_CURRENTLY_NOT_SUPPORTED => Some(0xc01e0302),
            NtStatusWindows::STATUS_GRAPHICS_INVALID_VIDPN => Some(0xc01e0303),
            NtStatusWindows::STATUS_GRAPHICS_INVALID_VIDEO_PRESENT_SOURCE => Some(0xc01e0304),
            NtStatusWindows::STATUS_GRAPHICS_INVALID_VIDEO_PRESENT_TARGET => Some(0xc01e0305),
            NtStatusWindows::STATUS_GRAPHICS_VIDPN_MODALITY_NOT_SUPPORTED => Some(0xc01e0306),
            NtStatusWindows::STATUS_GRAPHICS_INVALID_VIDPN_SOURCEMODESET => Some(0xc01e0308),
            NtStatusWindows::STATUS_GRAPHICS_INVALID_VIDPN_TARGETMODESET => Some(0xc01e0309),
            NtStatusWindows::STATUS_GRAPHICS_INVALID_FREQUENCY => Some(0xc01e030a),
            NtStatusWindows::STATUS_GRAPHICS_INVALID_ACTIVE_REGION => Some(0xc01e030b),
            NtStatusWindows::STATUS_GRAPHICS_INVALID_TOTAL_REGION => Some(0xc01e030c),
            NtStatusWindows::STATUS_GRAPHICS_INVALID_VIDEO_PRESENT_SOURCE_MODE => Some(0xc01e0310),
            NtStatusWindows::STATUS_GRAPHICS_INVALID_VIDEO_PRESENT_TARGET_MODE => Some(0xc01e0311),
            NtStatusWindows::STATUS_GRAPHICS_PINNED_MODE_MUST_REMAIN_IN_SET => Some(0xc01e0312),
            NtStatusWindows::STATUS_GRAPHICS_PATH_ALREADY_IN_TOPOLOGY => Some(0xc01e0313),
            NtStatusWindows::STATUS_GRAPHICS_MODE_ALREADY_IN_MODESET => Some(0xc01e0314),
            NtStatusWindows::STATUS_GRAPHICS_INVALID_VIDEOPRESENTSOURCESET => Some(0xc01e0315),
            NtStatusWindows::STATUS_GRAPHICS_INVALID_VIDEOPRESENTTARGETSET => Some(0xc01e0316),
            NtStatusWindows::STATUS_GRAPHICS_SOURCE_ALREADY_IN_SET => Some(0xc01e0317),
            NtStatusWindows::STATUS_GRAPHICS_TARGET_ALREADY_IN_SET => Some(0xc01e0318),
            NtStatusWindows::STATUS_GRAPHICS_INVALID_VIDPN_PRESENT_PATH => Some(0xc01e0319),
            NtStatusWindows::STATUS_GRAPHICS_NO_RECOMMENDED_VIDPN_TOPOLOGY => Some(0xc01e031a),
            NtStatusWindows::STATUS_GRAPHICS_INVALID_MONITOR_FREQUENCYRANGESET => Some(0xc01e031b),
            NtStatusWindows::STATUS_GRAPHICS_INVALID_MONITOR_FREQUENCYRANGE => Some(0xc01e031c),
            NtStatusWindows::STATUS_GRAPHICS_FREQUENCYRANGE_NOT_IN_SET => Some(0xc01e031d),
            NtStatusWindows::STATUS_GRAPHICS_FREQUENCYRANGE_ALREADY_IN_SET => Some(0xc01e031f),
            NtStatusWindows::STATUS_GRAPHICS_STALE_MODESET => Some(0xc01e0320),
            NtStatusWindows::STATUS_GRAPHICS_INVALID_MONITOR_SOURCEMODESET => Some(0xc01e0321),
            NtStatusWindows::STATUS_GRAPHICS_INVALID_MONITOR_SOURCE_MODE => Some(0xc01e0322),
            NtStatusWindows::STATUS_GRAPHICS_NO_RECOMMENDED_FUNCTIONAL_VIDPN => Some(0xc01e0323),
            NtStatusWindows::STATUS_GRAPHICS_MODE_ID_MUST_BE_UNIQUE => Some(0xc01e0324),
            _ => None,
        }
    }

    /// One slice of the symbol table.
    #[verifier::spinoff_prover]
    #[verifier::rlimit(100)]
    fn from_u32_part34(raw: u32) -> (r: Option<NtStatusWindows>)
        ensures
            r == NtStatusWindows::spec_from_u32_part34(raw),
    {
        match raw {
            0xc01e0100 => Some(NtStatusWindows::STATUS_GRAPHICS_NO_VIDEO_MEMORY),
            0xc01e0101 => Some(NtStatusWindows::STATUS_GRAPHICS_CANT_LOCK_MEMORY),
            0xc01e0102 => Some(NtStatusWindows::STATUS_GRAPHICS_ALLOCATION_BUSY),
            0xc01e0103 => Some(NtStatusWindows::STATUS_GRAPHICS_TOO_MANY_REFERENCES),
            0xc01e0104 => Some(NtStatusWindows::STATUS_GRAPHICS_TRY_AGAIN_LATER),
            0xc01e0105 => Some(NtStatusWindows::STATUS_GRAPHICS_TRY_AGAIN_NOW),
            0xc01e0106 => Some(NtStatusWindows::STATUS_GRAPHICS_ALLOCATION_INVALID),
            0xc01e0107 => Some(NtStatusWindows::STATUS_GRAPHICS_UNSWIZZLING_APERTURE_UNAVAILABLE),
            0xc01e0108 => Some(NtStatusWindows::STATUS_GRAPHICS_UNSWIZZLING_APERTURE_UNSUPPORTED),
            0xc01e0109 => Some(NtStatusWindows::STATUS_GRAPHICS_CANT_EVICT_PINNED_ALLOCATION),
            0xc01e0110 => Some(NtStatusWindows::STATUS_GRAPHICS_INVALID_ALLOCATION_USAGE),
            0xc01e0111 => Some(NtStatusWindows::STATUS_GRAPHICS_CANT_RENDER_LOCKED_ALLOCATION),
            0xc01e0112 => Some(NtStatusWindows::STATUS_GRAPHICS_ALLOCATION_CLOSED),
            0xc01e0113 => Some(NtStatusWindows::STATUS_GRAPHICS_INVALID_ALLOCATION_INSTANCE),
            0xc01e0114 => Some(NtStatusWindows::STATUS_GRAPHICS_INVALID_ALLOCATION_HANDLE),
            0xc01e0115 => Some(NtStatusWindows::STATUS_GRAPHICS_WRONG_ALLOCATION_DEVICE),
            0xc01e0116 => Some(NtStatusWindows::STATUS_GRAPHICS_ALLOCATION_CONTENT_LOST),
            0xc01e0200 => Some(NtStatusWindows::STATUS_GRAPHICS_GPU_EXCEPTION_ON_DEVICE),
            0xc01e0300 => Some(NtStatusWindows::STATUS_GRAPHICS_INVALID_VIDPN_TOPOLOGY),
            0xc01e0301 => Some(NtStatusWindows::STATUS_GRAPHICS_VIDPN_TOPOLOGY_NOT_SUPPORTED),
            0xc01e0302 => Some(NtStatusWindows::STATUS_GRAPHICS_VIDPN_TOPOLOGY_CURRENTLY_NOT_SUPPORTED),
            0xc01e0303 => Some(NtStatusWindows::STATUS_GRAPHICS_INVALID_VIDPN),
            0xc01e0304 => Some(NtStatusWindows::STATUS_GRAPHICS_INVALID_VIDEO_PRESENT_SOURCE),
            0xc01e0305 => Some(NtStatusWindows::STATUS_GRAPHICS_INVALID_VIDEO_PRESENT_TARGET),
            0xc01e0306 => Some(NtStatusWindows::STATUS_GRAPHICS_VIDPN_MODALITY_NOT_SUPPORTED),
            0xc01e0308 => Some(NtStatusWindows::STATUS_GRAPHICS_INVALID_VIDPN_SOURCEMODESET),
            0xc01e0309 => Some(NtStatusWindows::STATUS_GRAPHICS_INVALID_VIDPN_TARGETMODESET),
            0xc01e030a => Some(NtStatusWindows::STATUS_GRAPHICS_INVALID_FREQUENCY),
            0xc01e030b => Some(NtStatusWindows::STATUS_GRAPHICS_INVALID_ACTIVE_REGION),
            0xc01e030c => Some(NtStatusWindows::STATUS_GRAPHICS_INVALID_TOTAL_REGION),
            0xc01e0310 => Some(NtStatusWindows::STATUS_GRAPHICS_INVALID_VIDEO_PRESENT_SOURCE_MODE),
            0xc01e0311 => Some(NtStatusWindows::STATUS_GRAPHICS_INVALID_VIDEO_PRESENT_TARGET_MODE),
            0xc01e0312 => Some(NtStatusWindows::STATUS_GRAPHICS_PINNED_MODE_MUST_REMAIN_IN_SET),
            0xc01e0313 => Some(NtStatusWindows::STATUS_GRAPHICS_PATH_ALREADY_IN_TOPOLOGY),
            0xc01e0314 => Some(NtStatusWindows::STATUS_GRAPHICS_MODE_ALREADY_IN_MODESET),
            0xc01e0315 => Some(NtStatusWindows::STATUS_GRAPHICS_INVALID_VIDEOPRESENTSOURCESET),
            0xc01e0316 => Some(NtStatusWindows::STATUS_GRAPHICS_INVALID_VIDEOPRESENTTARGETSET),
            0xc01e0317 => Some(NtStatusWindows::STATUS_GRAPHICS_SOURCE_ALREADY_IN_SET),
            0xc01e0318 => Some(NtStatusWindows::STATUS_GRAPHICS_TARGET_ALREADY_IN_SET),
            0xc01e0319 => Some(NtStatusWindows::STATUS_GRAPHICS_INVALID_VIDPN_PRESENT_PATH),
            0xc01e031a => Some(NtStatusWindows::STATUS_GRAPHICS_NO_RECOMMENDED_VIDPN_TOPOLOGY),
            0xc01e031b => Some(NtStatusWindows::STATUS_GRAPHICS_INVALID_MONITOR_FREQUENCYRANGESET),
            0xc01e031c => Some(NtStatusWindows::STATUS_GRAPHICS_INVALID_MONITOR_FREQUENCYRANGE),
            0xc01e031d => Some(NtStatusWindows::STATUS_GRAPHICS_FREQUENCYRANGE_NOT_IN_SET),
            0xc01e031f => Some(NtStatusWindows::STATUS_GRAPHICS_FREQUENCYRANGE_ALREADY_IN_SET),
            0xc01e0320 => Some(NtStatusWindows::STATUS_GRAPHICS_STALE_MODESET),
            0xc01e0321 => Some(NtStatusWindows::STATUS_GRAPHICS_INVALID_MONITOR_SOURCEMODESET),
            0xc01e0322 => Some(NtStatusWindows::STATUS_GRAPHICS_INVALID_MONITOR_SOURCE_MODE),
            0xc01e0323 => Some(NtStatusWindows::STATUS_GRAPHICS_NO_RECOMMENDED_FUNCTIONAL_VIDPN),
            0xc01e0324 => Some(NtStatusWindows::STATUS_GRAPHICS_MODE_ID_MUST_BE_UNIQUE),
            _ => None,
        }
    }

    /// One slice of the symbol table: the raw value of this symbol,
    /// where this slice holds it.
    pub open spec fn spec_to_u32_part35(self) -> Option<u32> {
        match self {
            NtStatusWindows::STATUS_GRAPHICS_EMPTY_ADAPTER_MONITOR_MODE_SUPPORT_INTERSECTION => Some(0xc01e0325),
            NtStatusWindows::STATUS_GRAPHICS_VIDEO_PRESENT_TARGETS_LESS_THAN_SOURCES => Some(0xc01e0326),
            NtStatusWindows::STATUS_GRAPHICS_PATH_NOT_IN_TOPOLOGY => Some(0xc01e0327),
            NtStatusWindows::STATUS_GRAPHICS_ADAPTER_MUST_HAVE_AT_LEAST_ONE_SOURCE => Some(0xc01e0328),
            NtStatusWindows::STATUS_GRAPHICS_ADAPTER_MUST_HAVE_AT_LEAST_ONE_TARGET => Some(0xc01e0329),
            NtStatusWindows::STATUS_GRAPHICS_INVALID_MONITORDESCRIPTORSET => Some(0xc01e032a),
            NtStatusWindows::STATUS_GRAPHICS_INVALID_MONITORDESCRIPTOR => Some(0xc01e032b),
            NtStatusWindows::STATUS_GRAPHICS_MONITORDESCRIPTOR_NOT_IN_SET => Some(0xc01e032c),
            NtStatusWindows::STATUS_GRAPHICS_MONITORDESCRIPTOR_ALREADY_IN_SET => Some(0xc01e032d),
            NtStatusWindows::STATUS_GRAPHICS_MONITORDESCRIPTOR_ID_MUST_BE_UNIQUE => Some(0xc01e032e),
            NtStatusWindows::STATUS_GRAPHICS_INVALID_VIDPN_TARGET_SUBSET_TYPE => Some(0xc01e032f),
            NtStatusWindows::STATUS_GRAPHICS_RESOURCES_NOT_RELATED => Some(0xc01e0330),
            NtStatusWindows::STATUS_GRAPHICS_SOURCE_ID_MUST_BE_UNIQUE => Some(0xc01e0331),
            NtStatusWindows::STATUS_GRAPHICS_TARGET_ID_MUST_BE_UNIQUE => Some(0xc01e0332),
            NtStatusWindows::STATUS_GRAPHICS_NO_AVAILABLE_VIDPN_TARGET => Some(0xc01e0333),
            NtStatusWindows::STATUS_GRAPHICS_MONITOR_COULD_NOT_BE_ASSOCIATED_WITH_ADAPTER => Some(0xc01e0334),
            NtStatusWindows::STATUS_GRAPHICS_NO_VIDPNMGR => Some(0xc01e0335),
            NtStatusWindows::STATUS_GRAPHICS_NO_ACTIVE_VIDPN => Some(0xc01e0336),
            NtStatusWindows::STATUS_GRAPHICS_STALE_VIDPN_TOPOLOGY => Some(0xc01e0337),
            NtStatusWindows::STATUS_GRAPHICS_MONITOR_NOT_CONNECTED => Some(0xc01e0338),
            NtStatusWindows::STATUS_GRAPHICS_SOURCE_NOT_IN_TOPOLOGY => Some(0xc01e0339),
            NtStatusWindows::STATUS_GRAPHICS_INVALID_PRIMARYSURFACE_SIZE => Some(0xc01e033a),
            NtStatusWindows::STATUS_GRAPHICS_INVALID_VISIBLEREGION_SIZE => Some(0xc01e033b),
            NtStatusWindows::STATUS_GRAPHICS_INVALID_STRIDE => Some(0xc01e033c),
            NtStatusWindows::STATUS_GRAPHICS_INVALID_PIXELFORMAT => Some(0xc01e033d),
            NtStatusWindows::STATUS_GRAPHICS_INVALID_COLORBASIS => Some(0xc01e033e),
            NtStatusWindows::STATUS_GRAPHICS_INVALID_PIXELVALUEACCESSMODE => Some(0xc01e033f),
            NtStatusWindows::STATUS_GRAPHICS_TARGET_NOT_IN_TOPOLOGY => Some(0xc01e0340),
            NtStatusWindows::STATUS_GRAPHICS_NO_DISPLAY_MODE_MANAGEMENT_SUPPORT => Some(0xc01e0341),
            NtStatusWindows::STATUS_GRAPHICS_VIDPN_SOURCE_IN_USE => Some(0xc01e0342),
            NtStatusWindows::STATUS_GRAPHICS_CANT_ACCESS_ACTIVE_VIDPN => Some(0xc01e0343),
            NtStatusWindows::STATUS_GRAPHICS_INVALID_PATH_IMPORTANCE_ORDINAL => Some(0xc01e0344),
            NtStatusWindows::STATUS_GRAPHICS_INVALID_PATH_CONTENT_GEOMETRY_TRANSFORMATION => Some(0xc01e0345),
            NtStatusWindows::STATUS_GRAPHICS_PATH_CONTENT_GEOMETRY_TRANSFORMATION_NOT_SUPPORTED => Some(0xc01e0346),
            NtStatusWindows::STATUS_GRAPHICS_INVALID_GAMMA_RAMP => Some(0xc01e0347),
            NtStatusWindows::STATUS_GRAPHICS_GAMMA_RAMP_NOT_SUPPORTED => Some(0xc01e0348),
            NtStatusWindows::STATUS_GRAPHICS_MULTISAMPLING_NOT_SUPPORTED => Some(0xc01e0349),
            NtStatusWindows::STATUS_GRAPHICS_MODE_NOT_IN_MODESET => Some(0xc01e034a),
            NtStatusWindows::STATUS_GRAPHICS_INVALID_VIDPN_TOPOLOGY_RECOMMENDATION_REASON => Some(0xc01e034d),
            NtStatusWindows::STATUS_GRAPHICS_INVALID_PATH_CONTENT_TYPE => Some(0xc01e034e),
            NtStatusWindows::STATUS_GRAPHICS_INVALID_COPYPROTECTION_TYPE => Some(0xc01e034f),
            NtStatusWindows::STATUS_GRAPHICS_UNASSIGNED_MODESET_ALREADY_EXISTS => Some(0xc01e0350),
            NtStatusWindows::STATUS_GRAPHICS_INVALID_SCANLINE_ORDERING => Some(0xc01e0352),
            NtStatusWindows::STATUS_GRAPHICS_TOPOLOGY_CHANGES_NOT_ALLOWED => Some(0xc01e0353),
            NtStatusWindows::STATUS_GRAPHICS_NO_AVAILABLE_IMPORTANCE_ORDINALS => Some(0xc01e0354),
            NtStatusWindows::STATUS_GRAPHICS_INCOMPATIBLE_PRIVATE_FORMAT => Some(0xc01e0355),
            NtStatusWindows::STATUS_GRAPHICS_INVALID_MODE_PRUNING_ALGORITHM => Some(0xc01e0356),
            NtStatusWindows::STATUS_GRAPHICS_INVALID_MONITOR_CAPABILITY_ORIGIN => Some(0xc01e0357),
            NtStatusWindows::STATUS_GRAPHICS_INVALID_MONITOR_FREQUENCYRANGE_CONSTRAINT => Some(0xc01e0358),
            NtStatusWindows::STATUS_GRAPHICS_MAX_NUM_PATHS_REACHED => Some(0xc01e0359),
            _ => None,
        }
    }

    /// One slice of the symbol table: the symbol this slice gives a
    /// raw value, where it holds one.
    pub open spec fn spec_from_u32_part35(raw: u32) -> Option<NtStatusWindows> {
        match raw {
            0xc01e0325 => Some(NtStatusWindows::STATUS_GRAPHICS_EMPTY_ADAPTER_MONITOR_MODE_SUPPORT_INTERSECTION),
            0xc01e0326 => Some(NtStatusWindows::STATUS_GRAPHICS_VIDEO_PRESENT_TARGETS_LESS_THAN_SOURCES),
            0xc01e0327 => Some(NtStatusWindows::STATUS_GRAPHICS_PATH_NOT_IN_TOPOLOGY),
            0xc01e0328 => Some(NtStatusWindows::STATUS_GRAPHICS_ADAPTER_MUST_HAVE_AT_LEAST_ONE_SOURCE),
            0xc01e0329 => Some(NtStatusWindows::STATUS_GRAPHICS_ADAPTER_MUST_HAVE_AT_LEAST_ONE_TARGET),
            0xc01e032a => Some(NtStatusWindows::STATUS_GRAPHICS_INVALID_MONITORDESCRIPTORSET),
            0xc01e032b => Some(NtStatusWindows::STATUS_GRAPHICS_INVALID_MONITORDESCRIPTOR),
            0xc01e032c => Some(NtStatusWindows::STATUS_GRAPHICS_MONITORDESCRIPTOR_NOT_IN_SET),
            0xc01e032d => Some(NtStatusWindows::STATUS_GRAPHICS_MONITORDESCRIPTOR_ALREADY_IN_SET),
            0xc01e032e => Some(NtStatusWindows::STATUS_GRAPHICS_MONITORDESCRIPTOR_ID_MUST_BE_UNIQUE),
            0xc01e032f => Some(NtStatusWindows::STATUS_GRAPHICS_INVALID_VIDPN_TARGET_SUBSET_TYPE),
            0xc01e0330 => Some(NtStatusWindows::STATUS_GRAPHICS_RESOURCES_NOT_RELATED),
            0xc01e0331 => Some(NtStatusWindows::STATUS_GRAPHICS_SOURCE_ID_MUST_BE_UNIQUE),
            0xc01e0332 => Some(NtStatusWindows::STATUS_GRAPHICS_TARGET_ID_MUST_BE_UNIQUE),
            0xc01e0333 => Some(NtStatusWindows::STATUS_GRAPHICS_NO_AVAILABLE_VIDPN_TARGET),
            0xc01e0334 => Some(NtStatusWindows::STATUS_GRAPHICS_MONITOR_COULD_NOT_BE_ASSOCIATED_WITH_ADAPTER),
            0xc01e0335 => Some(NtStatusWindows::STATUS_GRAPHICS_NO_VIDPNMGR),
            0xc01e0336 => Some(NtStatusWindows::STATUS_GRAPHICS_NO_ACTIVE_VIDPN),
            0xc01e0337 => Some(NtStatusWindows::STATUS_GRAPHICS_STALE_VIDPN_TOPOLOGY),
            0xc01e0338 => Some(NtStatusWindows::STATUS_GRAPHICS_MONITOR_NOT_CONNECTED),
            0xc01e0339 => Some(NtStatusWindows::STATUS_GRAPHICS_SOURCE_NOT_IN_TOPOLOGY),
            0xc01e033a => Some(NtStatusWindows::STATUS_GRAPHICS_INVALID_PRIMARYSURFACE_SIZE),
            0xc01e033b => Some(NtStatusWindows::STATUS_GRAPHICS_INVALID_VISIBLEREGION_SIZE),
            0xc01e033c => Some(NtStatusWindows::STATUS_GRAPHICS_INVALID_STRIDE),
            0xc01e033d => Some(NtStatusWindows::STATUS_GRAPHICS_INVALID_PIXELFORMAT),
            0xc01e033e => Some(NtStatusWindows::STATUS_GRAPHICS_INVALID_COLORBASIS),
            0xc01e033f => Some(NtStatusWindows::STATUS_GRAPHICS_INVALID_PIXELVALUEACCESSMODE),
            0xc01e0340 => Some(NtStatusWindows::STATUS_GRAPHICS_TARGET_NOT_IN_TOPOLOGY),
            0xc01e0341 => Some(NtStatusWindows::STATUS_GRAPHICS_NO_DISPLAY_MODE_MANAGEMENT_SUPPORT),
            0xc01e0342 => Some(NtStatusWindows::STATUS_GRAPHICS_VIDPN_SOURCE_IN_USE),
            0xc01e0343 => Some(NtStatusWindows::STATUS_GRAPHICS_CANT_ACCESS_ACTIVE_VIDPN),
            0xc01e0344 => Some(NtStatusWindows::STATUS_GRAPHICS_INVALID_PATH_IMPORTANCE_ORDINAL),
            0xc01e0345 => Some(NtStatusWindows::STATUS_GRAPHICS_INVALID_PATH_CONTENT_GEOMETRY_TRANSFORMATION),
            0xc01e0346 => Some(NtStatusWindows::STATUS_GRAPHICS_PATH_CONTENT_GEOMETRY_TRANSFORMATION_NOT_SUPPORTED),
            0xc01e0347 => Some(NtStatusWindows::STATUS_GRAPHICS_INVALID_GAMMA_RAMP),
            0xc01e0348 => Some(NtStatusWindows::STATUS_GRAPHICS_GAMMA_RAMP_NOT_SUPPORTED),
            0xc01e0349 => Some(NtStatusWindows::STATUS_GRAPHICS_MULTISAMPLING_NOT_SUPPORTED),
            0xc01e034a => Some(NtStatusWindows::STATUS_GRAPHICS_MODE_NOT_IN_MODESET),
            0xc01e034d => Some(NtStatusWindows::STATUS_GRAPHICS_INVALID_VIDPN_TOPOLOGY_RECOMMENDATION_REASON),
            0xc01e034e => Some(NtStatusWindows::STATUS_GRAPHICS_INVALID_PATH_CONTENT_TYPE),
            0xc01e034f => Some(NtStatusWindows::STATUS_GRAPHICS_INVALID_COPYPROTECTION_TYPE),
            0xc01e0350 => Some(NtStatusWindows::STATUS_GRAPHICS_UNASSIGNED_MODESET_ALREADY_EXISTS),
            0xc01e0352 => Some(NtStatusWindows::STATUS_GRAPHICS_INVALID_SCANLINE_ORDERING),
            0xc01e0353 => Some(NtStatusWindows::STATUS_GRAPHICS_TOPOLOGY_CHANGES_NOT_ALLOWED),
            0xc01e0354 => Some(NtStatusWindows::STATUS_GRAPHICS_NO_AVAILABLE_IMPORTANCE_ORDINALS),
            0xc01e0355 => Some(NtStatusWindows::STATUS_GRAPHICS_INCOMPATIBLE_PRIVATE_FORMAT),
            0xc01e0356 => Some(NtStatusWindows::STATUS_GRAPHICS_INVALID_MODE_PRUNING_ALGORITHM),
            0xc01e0357 => Some(NtStatusWindows::STATUS_GRAPHICS_INVALID_MONITOR_CAPABILITY_ORIGIN),
            0xc01e0358 => Some(NtStatusWindows::STATUS_GRAPHICS_INVALID_MONITOR_FREQUENCYRANGE_CONSTRAINT),
            0xc01e0359 => Some(NtStatusWindows::STATUS_GRAPHICS_MAX_NUM_PATHS_REACHED),
            _ => None,
        }
    }

    /// One slice of the symbol table.
    #[verifier::spinoff_prover]
    #[verifier::rlimit(100)]
    fn to_u32_part35(self) -> (r: Option<u32>)
        ensures
            r == self.spec_to_u32_part35(),
    {
        match self {
            NtStatusWindows::STATUS_GRAPHICS_EMPTY_ADAPTER_MONITOR_MODE_SUPPORT_INTERSECTION => Some(0xc01e0325),
            NtStatusWindows::STATUS_GRAPHICS_VIDEO_PRESENT_TARGETS_LESS_THAN_SOURCES => Some(0xc01e0326),
            NtStatusWindows::STATUS_GRAPHICS_PATH_NOT_IN_TOPOLOGY => Some(0xc01e0327),
            NtStatusWindows::STATUS_GRAPHICS_ADAPTER_MUST_HAVE_AT_LEAST_ONE_SOURCE => Some(0xc01e0328),
            NtStatusWindows::STATUS_GRAPHICS_ADAPTER_MUST_HAVE_AT_LEAST_ONE_TARGET => Some(0xc01e0329),
            NtStatusWindows::STATUS_GRAPHICS_INVALID_MONITORDESCRIPTORSET => Some(0xc01e032a),
            NtStatusWindows::STATUS_GRAPHICS_INVALID_MONITORDESCRIPTOR => Some(0xc01e032b),
            NtStatusWindows::STATUS_GRAPHICS_MONITORDESCRIPTOR_NOT_IN_SET => Some(0xc01e032c),
            NtStatusWindows::STATUS_GRAPHICS_MONITORDESCRIPTOR_ALREADY_IN_SET => Some(0xc01e032d),
            NtStatusWindows::STATUS_GRAPHICS_MONITORDESCRIPTOR_ID_MUST_BE_UNIQUE => Some(0xc01e032e),
            NtStatusWindows::STATUS_GRAPHICS_INVALID_VIDPN_TARGET_SUBSET_TYPE => Some(0xc01e032f),
            NtStatusWindows::STATUS_GRAPHICS_RESOURCES_NOT_RELATED => Some(0xc01e0330),
            NtStatusWindows::STATUS_GRAPHICS_SOURCE_ID_MUST_BE_UNIQUE => Some(0xc01e0331),
            NtStatusWindows::STATUS_GRAPHICS_TARGET_ID_MUST_BE_UNIQUE => Some(0xc01e0332),
            NtStatusWindows::STATUS_GRAPHICS_NO_AVAILABLE_VIDPN_TARGET => Some(0xc01e0333),
            NtStatusWindows::STATUS_GRAPHICS_MONITOR_COULD_NOT_BE_ASSOCIATED_WITH_ADAPTER => Some(0xc01e0334),
            NtStatusWindows::STATUS_GRAPHICS_NO_VIDPNMGR => Some(0xc01e0335),
            NtStatusWindows::STATUS_GRAPHICS_NO_ACTIVE_VIDPN => Some(0xc01e0336),
            NtStatusWindows::STATUS_GRAPHICS_STALE_VIDPN_TOPOLOGY => Some(0xc01e0337),
            NtStatusWindows::STATUS_GRAPHICS_MONITOR_NOT_CONNECTED => Some(0xc01e0338),
            NtStatusWindows::STATUS_GRAPHICS_SOURCE_NOT_IN_TOPOLOGY => Some(0xc01e0339),
            NtStatusWindows::STATUS_GRAPHICS_INVALID_PRIMARYSURFACE_SIZE => Some(0xc01e033a),
            NtStatusWindows::STATUS_GRAPHICS_INVALID_VISIBLEREGION_SIZE => Some(0xc01e033b),
            NtStatusWindows::STATUS_GRAPHICS_INVALID_STRIDE => Some(0xc01e033c),
            NtStatusWindows::STATUS_GRAPHICS_INVALID_PIXELFORMAT => Some(0xc01e033d),
            NtStatusWindows::STATUS_GRAPHICS_INVALID_COLORBASIS => Some(0xc01e033e),
            NtStatusWindows::STATUS_GRAPHICS_INVALID_PIXELVALUEACCESSMODE => Some(0xc01e033f),
            NtStatusWindows::STATUS_GRAPHICS_TARGET_NOT_IN_TOPOLOGY => Some(0xc01e0340),
            NtStatusWindows::STATUS_GRAPHICS_NO_DISPLAY_MODE_MANAGEMENT_SUPPORT => Some(0xc01e0341),
            NtStatusWindows::STATUS_GRAPHICS_VIDPN_SOURCE_IN_USE => Some(0xc01e0342),
            NtStatusWindows::STATUS_GRAPHICS_CANT_ACCESS_ACTIVE_VIDPN => Some(0xc01e0343),
            NtStatusWindows::STATUS_GRAPHICS_INVALID_PATH_IMPORTANCE_ORDINAL => Some(0xc01e0344),
            NtStatusWindows::STATUS_GRAPHICS_INVALID_PATH_CONTENT_GEOMETRY_TRANSFORMATION => Some(0xc01e0345),
            NtStatusWindows::STATUS_GRAPHICS_PATH_CONTENT_GEOMETRY_TRANSFORMATION_NOT_SUPPORTED => Some(0xc01e0346),
            NtStatusWindows::STATUS_GRAPHICS_INVALID_GAMMA_RAMP => Some(0xc01e0347),
            NtStatusWindows::STATUS_GRAPHICS_GAMMA_RAMP_NOT_SUPPORTED => Some(0xc01e0348),
            NtStatusWindows::STATUS_GRAPHICS_MULTISAMPLING_NOT_SUPPORTED => Some(0xc01e0349),
            NtStatusWindows::STATUS_GRAPHICS_MODE_NOT_IN_MODESET => Some(0xc01e034a),
            NtStatusWindows::STATUS_GRAPHICS_INVALID_VIDPN_TOPOLOGY_RECOMMENDATION_REASON => Some(0xc01e034d),
            NtStatusWindows::STATUS_GRAPHICS_INVALID_PATH_CONTENT_TYPE => Some(0xc01e034e),
            NtStatusWindows::STATUS_GRAPHICS_INVALID_COPYPROTECTION_TYPE => Some(0xc01e034f),
            NtStatusWindows::STATUS_GRAPHICS_UNASSIGNED_MODESET_ALREADY_EXISTS => Some(0xc01e0350),
            NtStatusWindows::STATUS_GRAPHICS_INVALID_SCANLINE_ORDERING => Some(0xc01e0352),
            NtStatusWindows::STATUS_GRAPHICS_TOPOLOGY_CHANGES_NOT_ALLOWED => Some(0xc01e0353),
            NtStatusWindows::STATUS_GRAPHICS_NO_AVAILABLE_IMPORTANCE_ORDINALS => Some(0xc01e0354),
            NtStatusWindows::STATUS_GRAPHICS_INCOMPATIBLE_PRIVATE_FORMAT => Some(0xc01e0355),
            NtStatusWindows::STATUS_GRAPHICS_INVALID_MODE_PRUNING_ALGORITHM => Some(0xc01e0356),
            NtStatusWindows::STATUS_GRAPHICS_INVALID_MONITOR_CAPABILITY_ORIGIN => Some(0xc01e0357),
            NtStatusWindows::STATUS_GRAPHICS_INVALID_MONITOR_FREQUENCYRANGE_CONSTRAINT => Some(0xc01e0358),
            NtStatusWindows::STATUS_GRAPHICS_MAX_NUM_PATHS_REACHED => Some(0xc01e0359),
            _ => None,
        }
    }

    /// One slice of the symbol table.
    #[verifier::spinoff_prover]
    #[verifier::rlimit(100)]
    fn from_u32_part35(raw: u32) -> (r: Option<NtStatusWindows>)
        ensures
            r == NtStatusWindows::spec_from_u32_part35(raw),
    {
        match raw {
            0xc01e0325 => Some(NtStatusWindows::STATUS_GRAPHICS_EMPTY_ADAPTER_MONITOR_MODE_SUPPORT_INTERSECTION),
            0xc01e0326 => Some(NtStatusWindows::STATUS_GRAPHICS_VIDEO_PRESENT_TARGETS_LESS_THAN_SOURCES),
            0xc01e0327 => Some(NtStatusWindows::STATUS_GRAPHICS_PATH_NOT_IN_TOPOLOGY),
            0xc01e0328 => Some(NtStatusWindows::STATUS_GRAPHICS_ADAPTER_MUST_HAVE_AT_LEAST_ONE_SOURCE),
            0xc01e0329 => Some(NtStatusWindows::STATUS_GRAPHICS_ADAPTER_MUST_HAVE_AT_LEAST_ONE_TARGET),
            0xc01e032a => Some(NtStatusWindows::STATUS_GRAPHICS_INVALID_MONITORDESCRIPTORSET),
            0xc01e032b => Some(NtStatusWindows::STATUS_GRAPHICS_INVALID_MONITORDESCRIPTOR),
            0xc01e032c => Some(NtStatusWindows::STATUS_GRAPHICS_MONITORDESCRIPTOR_NOT_IN_SET),
            0xc01e032d => Some(NtStatusWindows::STATUS_GRAPHICS_MONITORDESCRIPTOR_ALREADY_IN_SET),
            0xc01e032e => Some(NtStatusWindows::STATUS_GRAPHICS_MONITORDESCRIPTOR_ID_MUST_BE_UNIQUE),
            0xc01e032f => Some(NtStatusWindows::STATUS_GRAPHICS_INVALID_VIDPN_TARGET_SUBSET_TYPE),
            0xc01e0330 => Some(NtStatusWindows::STATUS_GRAPHICS_RESOURCES_NOT_RELATED),
            0xc01e0331 => Some(NtStatusWindows::STATUS_GRAPHICS_SOURCE_ID_MUST_BE_UNIQUE),
            0xc01e0332 => Some(NtStatusWindows::STATUS_GRAPHICS_TARGET_ID_MUST_BE_UNIQUE),
            0xc01e0333 => Some(NtStatusWindows::STATUS_GRAPHICS_NO_AVAILABLE_VIDPN_TARGET),
            0xc01e0334 => Some(NtStatusWindows::STATUS_GRAPHICS_MONITOR_COULD_NOT_BE_ASSOCIATED_WITH_ADAPTER),
            0xc01e0335 => Some(NtStatusWindows::STATUS_GRAPHICS_NO_VIDPNMGR),
            0xc01e0336 => Some(NtStatusWindows::STATUS_GRAPHICS_NO_ACTIVE_VIDPN),
            0xc01e0337 => Some(NtStatusWindows::STATUS_GRAPHICS_STALE_VIDPN_TOPOLOGY),
            0xc01e0338 => Some(NtStatusWindows::STATUS_GRAPHICS_MONITOR_NOT_CONNECTED),
            0xc01e0339 => Some(NtStatusWindows::STATUS_GRAPHICS_SOURCE_NOT_IN_TOPOLOGY),
            0xc01e033a => Some(NtStatusWindows::STATUS_GRAPHICS_INVALID_PRIMARYSURFACE_SIZE),
            0xc01e033b => Some(NtStatusWindows::STATUS_GRAPHICS_INVALID_VISIBLEREGION_SIZE),
            0xc01e033c => Some(NtStatusWindows::STATUS_GRAPHICS_INVALID_STRIDE),
            0xc01e033d => Some(NtStatusWindows::STATUS_GRAPHICS_INVALID_PIXELFORMAT),
            0xc01e033e => Some(NtStatusWindows::STATUS_GRAPHICS_INVALID_COLORBASIS),
            0xc01e033f => Some(NtStatusWindows::STATUS_GRAPHICS_INVALID_PIXELVALUEACCESSMODE),
            0xc01e0340 => Some(NtStatusWindows::STATUS_GRAPHICS_TARGET_NOT_IN_TOPOLOGY),
            0xc01e0341 => Some(NtStatusWindows::STATUS_GRAPHICS_NO_DISPLAY_MODE_MANAGEMENT_SUPPORT),
            0xc01e0342 => Some(NtStatusWindows::STATUS_GRAPHICS_VIDPN_SOURCE_IN_USE),
            0xc01e0343 => Some(NtStatusWindows::STATUS_GRAPHICS_CANT_ACCESS_ACTIVE_VIDPN),
            0xc01e0344 => Some(NtStatusWindows::STATUS_GRAPHICS_INVALID_PATH_IMPORTANCE_ORDINAL),
            0xc01e0345 => Some(NtStatusWindows::STATUS_GRAPHICS_INVALID_PATH_CONTENT_GEOMETRY_TRANSFORMATION),
            0xc01e0346 => Some(NtStatusWindows::STATUS_GRAPHICS_PATH_CONTENT_GEOMETRY_TRANSFORMATION_NOT_SUPPORTED),
            0xc01e0347 => Some(NtStatusWindows::STATUS_GRAPHICS_INVALID_GAMMA_RAMP),
            0xc01e0348 => Some(NtStatusWindows::STATUS_GRAPHICS_GAMMA_RAMP_NOT_SUPPORTED),
            0xc01e0349 => Some(NtStatusWindows::STATUS_GRAPHICS_MULTISAMPLING_NOT_SUPPORTED),
            0xc01e034a => Some(NtStatusWindows::STATUS_GRAPHICS_MODE_NOT_IN_MODESET),
            0xc01e034d => Some(NtStatusWindows::STATUS_GRAPHICS_INVALID_VIDPN_TOPOLOGY_RECOMMENDATION_REASON),
            0xc01e034e => Some(NtStatusWindows::STATUS_GRAPHICS_INVALID_PATH_CONTENT_TYPE),
            0xc01e034f => Some(NtStatusWindows::STATUS_GRAPHICS_INVALID_COPYPROTECTION_TYPE),
            0xc01e0350 => Some(NtStatusWindows::STATUS_GRAPHICS_UNASSIGNED_MODESET_ALREADY_EXISTS),
            0xc01e0352 => Some(NtStatusWindows::STATUS_GRAPHICS_INVALID_SCANLINE_ORDERING),
            0xc01e0353 => Some(NtStatusWindows::STATUS_GRAPHICS_TOPOLOGY_CHANGES_NOT_ALLOWED),
            0xc01e0354 => Some(NtStatusWindows::STATUS_GRAPHICS_NO_AVAILABLE_IMPORTANCE_ORDINALS),
            0xc01e0355 => Some(NtStatusWindows::STATUS_GRAPHICS_INCOMPATIBLE_PRIVATE_FORMAT),
            0xc01e0356 => Some(NtStatusWindows::STATUS_GRAPHICS_INVALID_MODE_PRUNING_ALGORITHM),
            0xc01e0357 => Some(NtStatusWindows::STATUS_GRAPHICS_INVALID_MONITOR_CAPABILITY_ORIGIN),
            0xc01e0358 => Some(NtStatusWindows::STATUS_GRAPHICS_INVALID_MONITOR_FREQUENCYRANGE_CONSTRAINT),
            0xc01e0359 => Some(NtStatusWindows::STATUS_GRAPHICS_MAX_NUM_PATHS_REACHED),
            _ => None,
        }
    }

    /// One slice of the symbol table: the raw value of this symbol,
    /// where this slice holds it.
    pub open spec fn spec_to_u32_part36(self) -> Option<u32> {
        match self {
            NtStatusWindows::STATUS_GRAPHICS_CANCEL_VIDPN_TOPOLOGY_AUGMENTATION => Some(0xc01e035a),
            NtStatusWindows::STATUS_GRAPHICS_INVALID_CLIENT_TYPE => Some(0xc01e035b),
            NtStatusWindows::STATUS_GRAPHICS_CLIENTVIDPN_NOT_SET => Some(0xc01e035c),
            NtStatusWindows::STATUS_GRAPHICS_SPECIFIED_CHILD_ALREADY_CONNECTED => Some(0xc01e0400),
            NtStatusWindows::STATUS_GRAPHICS_CHILD_DESCRIPTOR_NOT_SUPPORTED => Some(0xc01e0401),
            NtStatusWindows::STATUS_GRAPHICS_NOT_A_LINKED_ADAPTER => Some(0xc01e0430),
            NtStatusWindows::STATUS_GRAPHICS_LEADLINK_NOT_ENUMERATED => Some(0xc01e0431),
            NtStatusWindows::STATUS_GRAPHICS_CHAINLINKS_NOT_ENUMERATED => Some(0xc01e0432),
            NtStatusWindows::STATUS_GRAPHICS_ADAPTER_CHAIN_NOT_READY => Some(0xc01e0433),
            NtStatusWindows::STATUS_GRAPHICS_CHAINLINKS_NOT_STARTED => Some(0xc01e0434),
            NtStatusWindows::STATUS_GRAPHICS_CHAINLINKS_NOT_POWERED_ON => Some(0xc01e0435),
            NtStatusWindows::STATUS_GRAPHICS_INCONSISTENT_DEVICE_LINK_STATE => Some(0xc01e0436),
            NtStatusWindows::STATUS_GRAPHICS_NOT_POST_DEVICE_DRIVER => Some(0xc01e0438),
            NtStatusWindows::STATUS_GRAPHICS_ADAPTER_ACCESS_NOT_EXCLUDED => Some(0xc01e043b),
            NtStatusWindows::STATUS_GRAPHICS_OPM_NOT_SUPPORTED => Some(0xc01e0500),
            NtStatusWindows::STATUS_GRAPHICS_COPP_NOT_SUPPORTED => Some(0xc01e0501),
            NtStatusWindows::STATUS_GRAPHICS_UAB_NOT_SUPPORTED => Some(0xc01e0502),
            NtStatusWindows::STATUS_GRAPHICS_OPM_INVALID_ENCRYPTED_PARAMETERS => Some(0xc01e0503),
            NtStatusWindows::STATUS_GRAPHICS_OPM_NO_PROTECTED_OUTPUTS_EXIST => Some(0xc01e0505),
            NtStatusWindows::STATUS_GRAPHICS_OPM_INTERNAL_ERROR => Some(0xc01e050b),
            NtStatusWindows::STATUS_GRAPHICS_OPM_INVALID_HANDLE => Some(0xc01e050c),
            NtStatusWindows::STATUS_GRAPHICS_PVP_INVALID_CERTIFICATE_LENGTH => Some(0xc01e050e),
            NtStatusWindows::STATUS_GRAPHICS_OPM_SPANNING_MODE_ENABLED => Some(0xc01e050f),
            NtStatusWindows::STATUS_GRAPHICS_OPM_THEATER_MODE_ENABLED => Some(0xc01e0510),
            NtStatusWindows::STATUS_GRAPHICS_PVP_HFS_FAILED => Some(0xc01e0511),
            NtStatusWindows::STATUS_GRAPHICS_OPM_INVALID_SRM => Some(0xc01e0512),
            NtStatusWindows::STATUS_GRAPHICS_OPM_OUTPUT_DOES_NOT_SUPPORT_HDCP => Some(0xc01e0513),
            NtStatusWindows::STATUS_GRAPHICS_OPM_OUTPUT_DOES_NOT_SUPPORT_ACP => Some(0xc01e0514),
            NtStatusWindows::STATUS_GRAPHICS_OPM_OUTPUT_DOES_NOT_SUPPORT_CGMSA => Some(0xc01e0515),
            NtStatusWindows::STATUS_GRAPHICS_OPM_HDCP_SRM_NEVER_SET => Some(0xc01e0516),
            NtStatusWindows::STATUS_GRAPHICS_OPM_RESOLUTION_TOO_HIGH => Some(0xc01e0517),
            NtStatusWindows::STATUS_GRAPHICS_OPM_ALL_HDCP_HARDWARE_ALREADY_IN_USE => Some(0xc01e0518),
            NtStatusWindows::STATUS_GRAPHICS_OPM_PROTECTED_OUTPUT_NO_LONGER_EXISTS => Some(0xc01e051a),
            NtStatusWindows::STATUS_GRAPHICS_OPM_PROTECTED_OUTPUT_DOES_NOT_HAVE_COPP_SEMANTICS => Some(0xc01e051c),
            NtStatusWindows::STATUS_GRAPHICS_OPM_INVALID_INFORMATION_REQUEST => Some(0xc01e051d),
            NtStatusWindows::STATUS_GRAPHICS_OPM_DRIVER_INTERNAL_ERROR => Some(0xc01e051e),
            NtStatusWindows::STATUS_GRAPHICS_OPM_PROTECTED_OUTPUT_DOES_NOT_HAVE_OPM_SEMANTICS => Some(0xc01e051f),
            NtStatusWindows::STATUS_GRAPHICS_OPM_SIGNALING_NOT_SUPPORTED => Some(0xc01e0520),
            NtStatusWindows::STATUS_GRAPHICS_OPM_INVALID_CONFIGURATION_REQUEST => Some(0xc01e0521),
            NtStatusWindows::STATUS_GRAPHICS_I2C_NOT_SUPPORTED => Some(0xc01e0580),
            NtStatusWindows::STATUS_GRAPHICS_I2C_DEVICE_DOES_NOT_EXIST => Some(0xc01e0581),
            NtStatusWindows::STATUS_GRAPHICS_I2C_ERROR_TRANSMITTING_DATA => Some(0xc01e0582),
            NtStatusWindows::STATUS_GRAPHICS_I2C_ERROR_RECEIVING_DATA => Some(0xc01e0583),
            NtStatusWindows::STATUS_GRAPHICS_DDCCI_VCP_NOT_SUPPORTED => Some(0xc01e0584),
            NtStatusWindows::STATUS_GRAPHICS_DDCCI_INVALID_DATA => Some(0xc01e0585),
            NtStatusWindows::STATUS_GRAPHICS_DDCCI_MONITOR_RETURNED_INVALID_TIMING_STATUS_BYTE => Some(0xc01e0586),
            NtStatusWindows::STATUS_GRAPHICS_DDCCI_INVALID_CAPABILITIES_STRING => Some(0xc01e0587),
            NtStatusWindows::STATUS_GRAPHICS_MCA_INTERNAL_ERROR => Some(0xc01e0588),
            NtStatusWindows::STATUS_GRAPHICS_DDCCI_INVALID_MESSAGE_COMMAND => Some(0xc01e0589),
            NtStatusWindows::STATUS_GRAPHICS_DDCCI_INVALID_MESSAGE_LENGTH => Some(0xc01e058a),
            _ => None,
        }
    }

    /// One slice of the symbol table: the symbol this slice gives a
    /// raw value, where it holds one.
    pub open spec fn spec_from_u32_part36(raw: u32) -> Option<NtStatusWindows> {
        match raw {
            0xc01e035a => Some(NtStatusWindows::STATUS_GRAPHICS_CANCEL_VIDPN_TOPOLOGY_AUGMENTATION),
            0xc01e035b => Some(NtStatusWindows::STATUS_GRAPHICS_INVALID_CLIENT_TYPE),
            0xc01e035c => Some(NtStatusWindows::STATUS_GRAPHICS_CLIENTVIDPN_NOT_SET),
            0xc01e0400 => Some(NtStatusWindows::STATUS_GRAPHICS_SPECIFIED_CHILD_ALREADY_CONNECTED),
            0xc01e0401 => Some(NtStatusWindows::STATUS_GRAPHICS_CHILD_DESCRIPTOR_NOT_SUPPORTED),
            0xc01e0430 => Some(NtStatusWindows::STATUS_GRAPHICS_NOT_A_LINKED_ADAPTER),
            0xc01e0431 => Some(NtStatusWindows::STATUS_GRAPHICS_LEADLINK_NOT_ENUMERATED),
            0xc01e0432 => Some(NtStatusWindows::STATUS_GRAPHICS_CHAINLINKS_NOT_ENUMERATED),
            0xc01e0433 => Some(NtStatusWindows::STATUS_GRAPHICS_ADAPTER_CHAIN_NOT_READY),
            0xc01e0434 => Some(NtStatusWindows::STATUS_GRAPHICS_CHAINLINKS_NOT_STARTED),
            0xc01e0435 => Some(NtStatusWindows::STATUS_GRAPHICS_CHAINLINKS_NOT_POWERED_ON),
            0xc01e0436 => Some(NtStatusWindows::STATUS_GRAPHICS_INCONSISTENT_DEVICE_LINK_STATE),
            0xc01e0438 => Some(NtStatusWindows::STATUS_GRAPHICS_NOT_POST_DEVICE_DRIVER),
            0xc01e043b => Some(NtStatusWindows::STATUS_GRAPHICS_ADAPTER_ACCESS_NOT_EXCLUDED),
            0xc01e0500 => Some(NtStatusWindows::STATUS_GRAPHICS_OPM_NOT_SUPPORTED),
            0xc01e0501 => Some(NtStatusWindows::STATUS_GRAPHICS_COPP_NOT_SUPPORTED),
            0xc01e0502 => Some(NtStatusWindows::STATUS_GRAPHICS_UAB_NOT_SUPPORTED),
            0xc01e0503 => Some(NtStatusWindows::STATUS_GRAPHICS_OPM_INVALID_ENCRYPTED_PARAMETERS),
            0xc01e0505 => Some(NtStatusWindows::STATUS_GRAPHICS_OPM_NO_PROTECTED_OUTPUTS_EXIST),
            0xc01e050b => Some(NtStatusWindows::STATUS_GRAPHICS_OPM_INTERNAL_ERROR),
            0xc01e050c => Some(NtStatusWindows::STATUS_GRAPHICS_OPM_INVALID_HANDLE),
            0xc01e050e => Some(NtStatusWindows::STATUS_GRAPHICS_PVP_INVALID_CERTIFICATE_LENGTH),
            0xc01e050f => Some(NtStatusWindows::STATUS_GRAPHICS_OPM_SPANNING_MODE_ENABLED),
            0xc01e0510 => Some(NtStatusWindows::STATUS_GRAPHICS_OPM_THEATER_MODE_ENABLED),
            0xc01e0511 => Some(NtStatusWindows::STATUS_GRAPHICS_PVP_HFS_FAILED),
            0xc01e0512 => Some(NtStatusWindows::STATUS_GRAPHICS_OPM_INVALID_SRM),
            0xc01e0513 => Some(NtStatusWindows::STATUS_GRAPHICS_OPM_OUTPUT_DOES_NOT_SUPPORT_HDCP),
            0xc01e0514 => Some(NtStatusWindows::STATUS_GRAPHICS_OPM_OUTPUT_DOES_NOT_SUPPORT_ACP),
            0xc01e0515 => Some(NtStatusWindows::STATUS_GRAPHICS_OPM_OUTPUT_DOES_NOT_SUPPORT_CGMSA),
            0xc01e0516 => Some(NtStatusWindows::STATUS_GRAPHICS_OPM_HDCP_SRM_NEVER_SET),
            0xc01e0517 => Some(NtStatusWindows::STATUS_GRAPHICS_OPM_RESOLUTION_TOO_HIGH),
            0xc01e0518 => Some(NtStatusWindows::STATUS_GRAPHICS_OPM_ALL_HDCP_HARDWARE_ALREADY_IN_USE),
            0xc01e051a => Some(NtStatusWindows::STATUS_GRAPHICS_OPM_PROTECTED_OUTPUT_NO_LONGER_EXISTS),
            0xc01e051c => Some(NtStatusWindows::STATUS_GRAPHICS_OPM_PROTECTED_OUTPUT_DOES_NOT_HAVE_COPP_SEMANTICS),
            0xc01e051d => Some(NtStatusWindows::STATUS_GRAPHICS_OPM_INVALID_INFORMATION_REQUEST),
            0xc01e051e => Some(NtStatusWindows::STATUS_GRAPHICS_OPM_DRIVER_INTERNAL_ERROR),
            0xc01e051f => Some(NtStatusWindows::STATUS_GRAPHICS_OPM_PROTECTED_OUTPUT_DOES_NOT_HAVE_OPM_SEMANTICS),
            0xc01e0520 => Some(NtStatusWindows::STATUS_GRAPHICS_OPM_SIGNALING_NOT_SUPPORTED),
            0xc01e0521 => Some(NtStatusWindows::STATUS_GRAPHICS_OPM_INVALID_CONFIGURATION_REQUEST),
            0xc01e0580 => Some(NtStatusWindows::STATUS_GRAPHICS_I2C_NOT_SUPPORTED),
            0xc01e0581 => Some(NtStatusWindows::STATUS_GRAPHICS_I2C_DEVICE_DOES_NOT_EXIST),
            0xc01e0582 => Some(NtStatusWindows::STATUS_GRAPHICS_I2C_ERROR_TRANSMITTING_DATA),
            0xc01e0583 => Some(NtStatusWindows::STATUS_GRAPHICS_I2C_ERROR_RECEIVING_DATA),
            0xc01e0584 => Some(NtStatusWindows::STATUS_GRAPHICS_DDCCI_VCP_NOT_SUPPORTED),
            0xc01e0585 => Some(NtStatusWindows::STATUS_GRAPHICS_DDCCI_INVALID_DATA),
            0xc01e0586 => Some(NtStatusWindows::STATUS_GRAPHICS_DDCCI_MONITOR_RETURNED_INVALID_TIMING_STATUS_BYTE),
            0xc01e0587 => Some(NtStatusWindows::STATUS_GRAPHICS_DDCCI_INVALID_CAPABILITIES_STRING),
            0xc01e0588 => Some(NtStatusWindows::STATUS_GRAPHICS_MCA_INTERNAL_ERROR),
            0xc01e0589 => Some(NtStatusWindows::STATUS_GRAPHICS_DDCCI_INVALID_MESSAGE_COMMAND),
            0xc01e058a => Some(NtStatusWindows::STATUS_GRAPHICS_DDCCI_INVALID_MESSAGE_LENGTH),
            _ => None,
        }
    }

    /// One slice of the symbol table.
    #[verifier::spinoff_prover]
    #[verifier::rlimit(100)]
    fn to_u32_part36(self) -> (r: Option<u32>)
        ensures
            r == self.spec_to_u32_part36(),
    {
        match self {
            NtStatusWindows::STATUS_GRAPHICS_CANCEL_VIDPN_TOPOLOGY_AUGMENTATION => Some(0xc01e035a),
            NtStatusWindows::STATUS_GRAPHICS_INVALID_CLIENT_TYPE => Some(0xc01e035b),
            NtStatusWindows::STATUS_GRAPHICS_CLIENTVIDPN_NOT_SET => Some(0xc01e035c),
            NtStatusWindows::STATUS_GRAPHICS_SPECIFIED_CHILD_ALREADY_CONNECTED => Some(0xc01e0400),
            NtStatusWindows::STATUS_GRAPHICS_CHILD_DESCRIPTOR_NOT_SUPPORTED => Some(0xc01e0401),
            NtStatusWindows::STATUS_GRAPHICS_NOT_A_LINKED_ADAPTER => Some(0xc01e0430),
            NtStatusWindows::STATUS_GRAPHICS_LEADLINK_NOT_ENUMERATED => Some(0xc01e0431),
            NtStatusWindows::STATUS_GRAPHICS_CHAINLINKS_NOT_ENUMERATED => Some(0xc01e0432),
            NtStatusWindows::STATUS_GRAPHICS_ADAPTER_CHAIN_NOT_READY => Some(0xc01e0433),
            NtStatusWindows::STATUS_GRAPHICS_CHAINLINKS_NOT_STARTED => Some(0xc01e0434),
            NtStatusWindows::STATUS_GRAPHICS_CHAINLINKS_NOT_POWERED_ON => Some(0xc01e0435),
            NtStatusWindows::STATUS_GRAPHICS_INCONSISTENT_DEVICE_LINK_STATE => Some(0xc01e0436),
            NtStatusWindows::STATUS_GRAPHICS_NOT_POST_DEVICE_DRIVER => Some(0xc01e0438),
            NtStatusWindows::STATUS_GRAPHICS_ADAPTER_ACCESS_NOT_EXCLUDED => Some(0xc01e043b),
            NtStatusWindows::STATUS_GRAPHICS_OPM_NOT_SUPPORTED => Some(0xc01e0500),
            NtStatusWindows::STATUS_GRAPHICS_COPP_NOT_SUPPORTED => Some(0xc01e0501),
            NtStatusWindows::STATUS_GRAPHICS_UAB_NOT_SUPPORTED => Some(0xc01e0502),
            NtStatusWindows::STATUS_GRAPHICS_OPM_INVALID_ENCRYPTED_PARAMETERS => Some(0xc01e0503),
            NtStatusWindows::STATUS_GRAPHICS_OPM_NO_PROTECTED_OUTPUTS_EXIST => Some(0xc01e0505),
            NtStatusWindows::STATUS_GRAPHICS_OPM_INTERNAL_ERROR => Some(0xc01e050b),
            NtStatusWindows::STATUS_GRAPHICS_OPM_INVALID_HANDLE => Some(0xc01e050c),
            NtStatusWindows::STATUS_GRAPHICS_PVP_INVALID_CERTIFICATE_LENGTH => Some(0xc01e050e),
            NtStatusWindows::STATUS_GRAPHICS_OPM_SPANNING_MODE_ENABLED => Some(0xc01e050f),
            NtStatusWindows::STATUS_GRAPHICS_OPM_THEATER_MODE_ENABLED => Some(0xc01e0510),
            NtStatusWindows::STATUS_GRAPHICS_PVP_HFS_FAILED => Some(0xc01e0511),
            NtStatusWindows::STATUS_GRAPHICS_OPM_INVALID_SRM => Some(0xc01e0512),
            NtStatusWindows::STATUS_GRAPHICS_OPM_OUTPUT_DOES_NOT_SUPPORT_HDCP => Some(0xc01e0513),
            NtStatusWindows::STATUS_GRAPHICS_OPM_OUTPUT_DOES_NOT_SUPPORT_ACP => Some(0xc01e0514),
            NtStatusWindows::STATUS_GRAPHICS_OPM_OUTPUT_DOES_NOT_SUPPORT_CGMSA => Some(0xc01e0515),
            NtStatusWindows::STATUS_GRAPHICS_OPM_HDCP_SRM_NEVER_SET => Some(0xc01e0516),
            NtStatusWindows::STATUS_GRAPHICS_OPM_RESOLUTION_TOO_HIGH => Some(0xc01e0517),
            NtStatusWindows::STATUS_GRAPHICS_OPM_ALL_HDCP_HARDWARE_ALREADY_IN_USE => Some(0xc01e0518),
            NtStatusWindows::STATUS_GRAPHICS_OPM_PROTECTED_OUTPUT_NO_LONGER_EXISTS => Some(0xc01e051a),
            NtStatusWindows::STATUS_GRAPHICS_OPM_PROTECTED_OUTPUT_DOES_NOT_HAVE_COPP_SEMANTICS => Some(0xc01e051c),
            NtStatusWindows::STATUS_GRAPHICS_OPM_INVALID_INFORMATION_REQUEST => Some(0xc01e051d),
            NtStatusWindows::STATUS_GRAPHICS_OPM_DRIVER_INTERNAL_ERROR => Some(0xc01e051e),
            NtStatusWindows::STATUS_GRAPHICS_OPM_PROTECTED_OUTPUT_DOES_NOT_HAVE_OPM_SEMANTICS => Some(0xc01e051f),
            NtStatusWindows::STATUS_GRAPHICS_OPM_SIGNALING_NOT_SUPPORTED => Some(0xc01e0520),
            NtStatusWindows::STATUS_GRAPHICS_OPM_INVALID_CONFIGURATION_REQUEST => Some(0xc01e0521),
            NtStatusWindows::STATUS_GRAPHICS_I2C_NOT_SUPPORTED => Some(0xc01e0580),
            NtStatusWindows::STATUS_GRAPHICS_I2C_DEVICE_DOES_NOT_EXIST => Some(0xc01e0581),
            NtStatusWindows::STATUS_GRAPHICS_I2C_ERROR_TRANSMITTING_DATA => Some(0xc01e0582),
            NtStatusWindows::STATUS_GRAPHICS_I2C_ERROR_RECEIVING_DATA => Some(0xc01e0583),
            NtStatusWindows::STATUS_GRAPHICS_DDCCI_VCP_NOT_SUPPORTED => Some(0xc01e0584),
            NtStatusWindows::STATUS_GRAPHICS_DDCCI_INVALID_DATA => Some(0xc01e0585),
            NtStatusWindows::STATUS_GRAPHICS_DDCCI_MONITOR_RETURNED_INVALID_TIMING_STATUS_BYTE => Some(0xc01e0586),
            NtStatusWindows::STATUS_GRAPHICS_DDCCI_INVALID_CAPABILITIES_STRING => Some(0xc01e0587),
            NtStatusWindows::STATUS_GRAPHICS_MCA_INTERNAL_ERROR => Some(0xc01e0588),
            NtStatusWindows::STATUS_GRAPHICS_DDCCI_INVALID_MESSAGE_COMMAND => Some(0xc01e0589),
            NtStatusWindows::STATUS_GRAPHICS_DDCCI_INVALID_MESSAGE_LENGTH => Some(0xc01e058a),
            _ => None,
        }
    }

    /// One slice of the symbol table.
    #[verifier::spinoff_prover]
    #[verifier::rlimit(100)]
    fn from_u32_part36(raw: u32) -> (r: Option<NtStatusWindows>)
        ensures
            r == NtStatusWindows::spec_from_u32_part36(raw),
    {
        match raw {
            0xc01e035a => Some(NtStatusWindows::STATUS_GRAPHICS_CANCEL_VIDPN_TOPOLOGY_AUGMENTATION),
            0xc01e035b => Some(NtStatusWindows::STATUS_GRAPHICS_INVALID_CLIENT_TYPE),
            0xc01e035c => Some(NtStatusWindows::STATUS_GRAPHICS_CLIENTVIDPN_NOT_SET),
            0xc01e0400 => Some(NtStatusWindows::STATUS_GRAPHICS_SPECIFIED_CHILD_ALREADY_CONNECTED),
            0xc01e0401 => Some(NtStatusWindows::STATUS_GRAPHICS_CHILD_DESCRIPTOR_NOT_SUPPORTED),
            0xc01e0430 => Some(NtStatusWindows::STATUS_GRAPHICS_NOT_A_LINKED_ADAPTER),
            0xc01e0431 => Some(NtStatusWindows::STATUS_GRAPHICS_LEADLINK_NOT_ENUMERATED),
            0xc01e0432 => Some(NtStatusWindows::STATUS_GRAPHICS_CHAINLINKS_NOT_ENUMERATED),
            0xc01e0433 => Some(NtStatusWindows::STATUS_GRAPHICS_ADAPTER_CHAIN_NOT_READY),
            0xc01e0434 => Some(NtStatusWindows::STATUS_GRAPHICS_CHAINLINKS_NOT_STARTED),
            0xc01e0435 => Some(NtStatusWindows::STATUS_GRAPHICS_CHAINLINKS_NOT_POWERED_ON),
            0xc01e0436 => Some(NtStatusWindows::STATUS_GRAPHICS_INCONSISTENT_DEVICE_LINK_STATE),
            0xc01e0438 => Some(NtStatusWindows::STATUS_GRAPHICS_NOT_POST_DEVICE_DRIVER),
            0xc01e043b => Some(NtStatusWindows::STATUS_GRAPHICS_ADAPTER_ACCESS_NOT_EXCLUDED),
            0xc01e0500 => Some(NtStatusWindows::STATUS_GRAPHICS_OPM_NOT_SUPPORTED),
            0xc01e0501 => Some(NtStatusWindows::STATUS_GRAPHICS_COPP_NOT_SUPPORTED),
            0xc01e0502 => Some(NtStatusWindows::STATUS_GRAPHICS_UAB_NOT_SUPPORTED),
            0xc01e0503 => Some(NtStatusWindows::STATUS_GRAPHICS_OPM_INVALID_ENCRYPTED_PARAMETERS),
            0xc01e0505 => Some(NtStatusWindows::STATUS_GRAPHICS_OPM_NO_PROTECTED_OUTPUTS_EXIST),
            0xc01e050b => Some(NtStatusWindows::STATUS_GRAPHICS_OPM_INTERNAL_ERROR),
            0xc01e050c => Some(NtStatusWindows::STATUS_GRAPHICS_OPM_INVALID_HANDLE),
            0xc01e050e => Some(NtStatusWindows::STATUS_GRAPHICS_PVP_INVALID_CERTIFICATE_LENGTH),
            0xc01e050f => Some(NtStatusWindows::STATUS_GRAPHICS_OPM_SPANNING_MODE_ENABLED),
            0xc01e0510 => Some(NtStatusWindows::STATUS_GRAPHICS_OPM_THEATER_MODE_ENABLED),
            0xc01e0511 => Some(NtStatusWindows::STATUS_GRAPHICS_PVP_HFS_FAILED),
            0xc01e0512 => Some(NtStatusWindows::STATUS_GRAPHICS_OPM_INVALID_SRM),
            0xc01e0513 => Some(NtStatusWindows::STATUS_GRAPHICS_OPM_OUTPUT_DOES_NOT_SUPPORT_HDCP),
            0xc01e0514 => Some(NtStatusWindows::STATUS_GRAPHICS_OPM_OUTPUT_DOES_NOT_SUPPORT_ACP),
            0xc01e0515 => Some(NtStatusWindows::STATUS_GRAPHICS_OPM_OUTPUT_DOES_NOT_SUPPORT_CGMSA),
            0xc01e0516 => Some(NtStatusWindows::STATUS_GRAPHICS_OPM_HDCP_SRM_NEVER_SET),
            0xc01e0517 => Some(NtStatusWindows::STATUS_GRAPHICS_OPM_RESOLUTION_TOO_HIGH),
            0xc01e0518 => Some(NtStatusWindows::STATUS_GRAPHICS_OPM_ALL_HDCP_HARDWARE_ALREADY_IN_USE),
            0xc01e051a => Some(NtStatusWindows::STATUS_GRAPHICS_OPM_PROTECTED_OUTPUT_NO_LONGER_EXISTS),
            0xc01e051c => Some(NtStatusWindows::STATUS_GRAPHICS_OPM_PROTECTED_OUTPUT_DOES_NOT_HAVE_COPP_SEMANTICS),
            0xc01e051d => Some(NtStatusWindows::STATUS_GRAPHICS_OPM_INVALID_INFORMATION_REQUEST),
            0xc01e051e => Some(NtStatusWindows::STATUS_GRAPHICS_OPM_DRIVER_INTERNAL_ERROR),
            0xc01e051f => Some(NtStatusWindows::STATUS_GRAPHICS_OPM_PROTECTED_OUTPUT_DOES_NOT_HAVE_OPM_SEMANTICS),
            0xc01e0520 => Some(NtStatusWindows::STATUS_GRAPHICS_OPM_SIGNALING_NOT_SUPPORTED),
            0xc01e0521 => Some(NtStatusWindows::STATUS_GRAPHICS_OPM_INVALID_CONFIGURATION_REQUEST),
            0xc01e0580 => Some(NtStatusWindows::STATUS_GRAPHICS_I2C_NOT_SUPPORTED),
            0xc01e0581 => Some(NtStatusWindows::STATUS_GRAPHICS_I2C_DEVICE_DOES_NOT_EXIST),
            0xc01e0582 => Some(NtStatusWindows::STATUS_GRAPHICS_I2C_ERROR_TRANSMITTING_DATA),
            0xc01e0583 => Some(NtStatusWindows::STATUS_GRAPHICS_I2C_ERROR_RECEIVING_DATA),
            0xc01e0584 => Some(NtStatusWindows::STATUS_GRAPHICS_DDCCI_VCP_NOT_SUPPORTED),
            0xc01e0585 => Some(NtStatusWindows::STATUS_GRAPHICS_DDCCI_INVALID_DATA),
            0xc01e0586 => Some(NtStatusWindows::STATUS_GRAPHICS_DDCCI_MONITOR_RETURNED_INVALID_TIMING_STATUS_BYTE),
            0xc01e0587 => Some(NtStatusWindows::STATUS_GRAPHICS_DDCCI_INVALID_CAPABILITIES_STRING),
            0xc01e0588 => Some(NtStatusWindows::STATUS_GRAPHICS_MCA_INTERNAL_ERROR),
            0xc01e0589 => Some(NtStatusWindows::STATUS_GRAPHICS_DDCCI_INVALID_MESSAGE_COMMAND),
            0xc01e058a => Some(NtStatusWindows::STATUS_GRAPHICS_DDCCI_INVALID_MESSAGE_LENGTH),
            _ => None,
        }
    }

    /// One slice of the symbol table: the raw value of this symbol,
    /// where this slice holds it.
    pub open spec fn spec_to_u32_part37(self) -> Option<u32> {
        match self {
            NtStatusWindows::STATUS_GRAPHICS_DDCCI_INVALID_MESSAGE_CHECKSUM => Some(0xc01e058b),
            NtStatusWindows::STATUS_GRAPHICS_INVALID_PHYSICAL_MONITOR_HANDLE => Some(0xc01e058c),
            NtStatusWindows::STATUS_GRAPHICS_MONITOR_NO_LONGER_EXISTS => Some(0xc01e058d),
            NtStatusWindows::STATUS_GRAPHICS_ONLY_CONSOLE_SESSION_SUPPORTED => Some(0xc01e05e0),
            NtStatusWindows::STATUS_GRAPHICS_NO_DISPLAY_DEVICE_CORRESPONDS_TO_NAME => Some(0xc01e05e1),
            NtStatusWindows::STATUS_GRAPHICS_DISPLAY_DEVICE_NOT_ATTACHED_TO_DESKTOP => Some(0xc01e05e2),
            NtStatusWindows::STATUS_GRAPHICS_MIRRORING_DEVICES_NOT_SUPPORTED => Some(0xc01e05e3),
            NtStatusWindows::STATUS_GRAPHICS_INVALID_POINTER => Some(0xc01e05e4),
            NtStatusWindows::STATUS_GRAPHICS_NO_MONITORS_CORRESPOND_TO_DISPLAY_DEVICE => Some(0xc01e05e5),
            NtStatusWindows::STATUS_GRAPHICS_PARAMETER_ARRAY_TOO_SMALL => Some(0xc01e05e6),
            NtStatusWindows::STATUS_GRAPHICS_INTERNAL_ERROR => Some(0xc01e05e7),
            NtStatusWindows::STATUS_GRAPHICS_SESSION_TYPE_CHANGE_IN_PROGRESS => Some(0xc01e05e8),
            NtStatusWindows::STATUS_FVE_LOCKED_VOLUME => Some(0xc0210000),
            NtStatusWindows::STATUS_FVE_NOT_ENCRYPTED => Some(0xc0210001),
            NtStatusWindows::STATUS_FVE_BAD_INFORMATION => Some(0xc0210002),
            NtStatusWindows::STATUS_FVE_TOO_SMALL => Some(0xc0210003),
            NtStatusWindows::STATUS_FVE_FAILED_WRONG_FS => Some(0xc0210004),
            NtStatusWindows::STATUS_FVE_BAD_PARTITION_SIZE => Some(0xc0210005),
            NtStatusWindows::STATUS_FVE_FS_NOT_EXTENDED => Some(0xc0210006),
            NtStatusWindows::STATUS_FVE_FS_MOUNTED => Some(0xc0210007),
            NtStatusWindows::STATUS_FVE_NO_LICENSE => Some(0xc0210008),
            NtStatusWindows::STATUS_FVE_ACTION_NOT_ALLOWED => Some(0xc0210009),
            NtStatusWindows::STATUS_FVE_BAD_DATA => Some(0xc021000a),
            NtStatusWindows::STATUS_FVE_VOLUME_NOT_BOUND => Some(0xc021000b),
            NtStatusWindows::STATUS_FVE_NOT_DATA_VOLUME => Some(0xc021000c),
            NtStatusWindows::STATUS_FVE_CONV_READ_ERROR => Some(0xc021000d),
            NtStatusWindows::STATUS_FVE_CONV_WRITE_ERROR => Some(0xc021000e),
            NtStatusWindows::STATUS_FVE_OVERLAPPED_UPDATE => Some(0xc021000f),
            NtStatusWindows::STATUS_FVE_FAILED_SECTOR_SIZE => Some(0xc0210010),
            NtStatusWindows::STATUS_FVE_FAILED_AUTHENTICATION => Some(0xc0210011),
            NtStatusWindows::STATUS_FVE_NOT_OS_VOLUME => Some(0xc0210012),
            NtStatusWindows::STATUS_FVE_KEYFILE_NOT_FOUND => Some(0xc0210013),
            NtStatusWindows::STATUS_FVE_KEYFILE_INVALID => Some(0xc0210014),
            NtStatusWindows::STATUS_FVE_KEYFILE_NO_VMK => Some(0xc0210015),
            NtStatusWindows::STATUS_FVE_TPM_DISABLED => Some(0xc0210016),
            NtStatusWindows::STATUS_FVE_TPM_SRK_AUTH_NOT_ZERO => Some(0xc0210017),
            NtStatusWindows::STATUS_FVE_TPM_INVALID_PCR => Some(0xc0210018),
            NtStatusWindows::STATUS_FVE_TPM_NO_VMK => Some(0xc0210019),
            NtStatusWindows::STATUS_FVE_PIN_INVALID => Some(0xc021001a),
            NtStatusWindows::STATUS_FVE_AUTH_INVALID_APPLICATION => Some(0xc021001b),
            NtStatusWindows::STATUS_FVE_AUTH_INVALID_CONFIG => Some(0xc021001c),
            NtStatusWindows::STATUS_FVE_DEBUGGER_ENABLED => Some(0xc021001d),
            NtStatusWindows::STATUS_FVE_DRY_RUN_FAILED => Some(0xc021001e),
            NtStatusWindows::STATUS_FVE_BAD_METADATA_POINTER => Some(0xc021001f),
            NtStatusWindows::STATUS_FVE_OLD_METADATA_COPY => Some(0xc0210020),
            NtStatusWindows::STATUS_FVE_REBOOT_REQUIRED => Some(0xc0210021),
            NtStatusWindows::STATUS_FVE_RAW_ACCESS => Some(0xc0210022),
            NtStatusWindows::STATUS_FVE_RAW_BLOCKED => Some(0xc0210023),
            NtStatusWindows::STATUS_FVE_NO_AUTOUNLOCK_MASTER_KEY => Some(0xc0210024),
            NtStatusWindows::STATUS_FVE_MOR_FAILED => Some(0xc0210025),
            _ => None,
        }
    }

    /// One slice of the symbol table: the symbol this slice gives a
    /// raw value, where it holds one.
    pub open spec fn spec_from_u32_part37(raw: u32) -> Option<NtStatusWindows> {
        match raw {
            0xc01e058b => Some(NtStatusWindows::STATUS_GRAPHICS_DDCCI_INVALID_MESSAGE_CHECKSUM),
            0xc01e058c => Some(NtStatusWindows::STATUS_GRAPHICS_INVALID_PHYSICAL_MONITOR_HANDLE),
            0xc01e058d => Some(NtStatusWindows::STATUS_GRAPHICS_MONITOR_NO_LONGER_EXISTS),
            0xc01e05e0 => Some(NtStatusWindows::STATUS_GRAPHICS_ONLY_CONSOLE_SESSION_SUPPORTED),
            0xc01e05e1 => Some(NtStatusWindows::STATUS_GRAPHICS_NO_DISPLAY_DEVICE_CORRESPONDS_TO_NAME),
            0xc01e05e2 => Some(NtStatusWindows::STATUS_GRAPHICS_DISPLAY_DEVICE_NOT_ATTACHED_TO_DESKTOP),
            0xc01e05e3 => Some(NtStatusWindows::STATUS_GRAPHICS_MIRRORING_DEVICES_NOT_SUPPORTED),
            0xc01e05e4 => Some(NtStatusWindows::STATUS_GRAPHICS_INVALID_POINTER),
            0xc01e05e5 => Some(NtStatusWindows::STATUS_GRAPHICS_NO_MONITORS_CORRESPOND_TO_DISPLAY_DEVICE),
            0xc01e05e6 => Some(NtStatusWindows::STATUS_GRAPHICS_PARAMETER_ARRAY_TOO_SMALL),
            0xc01e05e7 => Some(NtStatusWindows::STATUS_GRAPHICS_INTERNAL_ERROR),
            0xc01e05e8 => Some(NtStatusWindows::STATUS_GRAPHICS_SESSION_TYPE_CHANGE_IN_PROGRESS),
            0xc0210000 => Some(NtStatusWindows::STATUS_FVE_LOCKED_VOLUME),
            0xc0210001 => Some(NtStatusWindows::STATUS_FVE_NOT_ENCRYPTED),
            0xc0210002 => Some(NtStatusWindows::STATUS_FVE_BAD_INFORMATION),
            0xc0210003 => Some(NtStatusWindows::STATUS_FVE_TOO_SMALL),
            0xc0210004 => Some(NtStatusWindows::STATUS_FVE_FAILED_WRONG_FS),
            0xc0210005 => Some(NtStatusWindows::STATUS_FVE_BAD_PARTITION_SIZE),
            0xc0210006 => Some(NtStatusWindows::STATUS_FVE_FS_NOT_EXTENDED),
            0xc0210007 => Some(NtStatusWindows::STATUS_FVE_FS_MOUNTED),
            0xc0210008 => Some(NtStatusWindows::STATUS_FVE_NO_LICENSE),
            0xc0210009 => Some(NtStatusWindows::STATUS_FVE_ACTION_NOT_ALLOWED),
            0xc021000a => Some(NtStatusWindows::STATUS_FVE_BAD_DATA),
            0xc021000b => Some(NtStatusWindows::STATUS_FVE_VOLUME_NOT_BOUND),
            0xc021000c => Some(NtStatusWindows::STATUS_FVE_NOT_DATA_VOLUME),
            0xc021000d => Some(NtStatusWindows::STATUS_FVE_CONV_READ_ERROR),
            0xc021000e => Some(NtStatusWindows::STATUS_FVE_CONV_WRITE_ERROR),
            0xc021000f => Some(NtStatusWindows::STATUS_FVE_OVERLAPPED_UPDATE),
            0xc0210010 => Some(NtStatusWindows::STATUS_FVE_FAILED_SECTOR_SIZE),
            0xc0210011 => Some(NtStatusWindows::STATUS_FVE_FAILED_AUTHENTICATION),
            0xc0210012 => Some(NtStatusWindows::STATUS_FVE_NOT_OS_VOLUME),
            0xc0210013 => Some(NtStatusWindows::STATUS_FVE_KEYFILE_NOT_FOUND),
            0xc0210014 => Some(NtStatusWindows::STATUS_FVE_KEYFILE_INVALID),
            0xc0210015 => Some(NtStatusWindows::STATUS_FVE_KEYFILE_NO_VMK),
            0xc0210016 => Some(NtStatusWindows::STATUS_FVE_TPM_DISABLED),
            0xc0210017 => Some(NtStatusWindows::STATUS_FVE_TPM_SRK_AUTH_NOT_ZERO),
            0xc0210018 => Some(NtStatusWindows::STATUS_FVE_TPM_INVALID_PCR),
            0xc0210019 => Some(NtStatusWindows::STATUS_FVE_TPM_NO_VMK),
            0xc021001a => Some(NtStatusWindows::STATUS_FVE_PIN_INVALID),
            0xc021001b => Some(NtStatusWindows::STATUS_FVE_AUTH_INVALID_APPLICATION),
            0xc021001c => Some(NtStatusWindows::STATUS_FVE_AUTH_INVALID_CONFIG),
            0xc021001d => Some(NtStatusWindows::STATUS_FVE_DEBUGGER_ENABLED),
            0xc021001e => Some(NtStatusWindows::STATUS_FVE_DRY_RUN_FAILED),
            0xc021001f => Some(NtStatusWindows::STATUS_FVE_BAD_METADATA_POINTER),
            0xc0210020 => Some(NtStatusWindows::STATUS_FVE_OLD_METADATA_COPY),
            0xc0210021 => Some(NtStatusWindows::STATUS_FVE_REBOOT_REQUIRED),
            0xc0210022 => Some(NtStatusWindows::STATUS_FVE_RAW_ACCESS),
            0xc0210023 => Some(NtStatusWindows::STATUS_FVE_RAW_BLOCKED),
            0xc0210024 => Some(NtStatusWindows::STATUS_FVE_NO_AUTOUNLOCK_MASTER_KEY),
            0xc0210025 => Some(NtStatusWindows::STATUS_FVE_MOR_FAILED),
            _ => None,
        }
    }

    /// One slice of the symbol table.
    #[verifier::spinoff_prover]
    #[verifier::rlimit(100)]
    fn to_u32_part37(self) -> (r: Option<u32>)
        ensures
            r == self.spec_to_u32_part37(),
    {
        match self {
            NtStatusWindows::STATUS_GRAPHICS_DDCCI_INVALID_MESSAGE_CHECKSUM => Some(0xc01e058b),
            NtStatusWindows::STATUS_GRAPHICS_INVALID_PHYSICAL_MONITOR_HANDLE => Some(0xc01e058c),
            NtStatusWindows::STATUS_GRAPHICS_MONITOR_NO_LONGER_EXISTS => Some(0xc01e058d),
            NtStatusWindows::STATUS_GRAPHICS_ONLY_CONSOLE_SESSION_SUPPORTED => Some(0xc01e05e0),
            NtStatusWindows::STATUS_GRAPHICS_NO_DISPLAY_DEVICE_CORRESPONDS_TO_NAME => Some(0xc01e05e1),
            NtStatusWindows::STATUS_GRAPHICS_DISPLAY_DEVICE_NOT_ATTACHED_TO_DESKTOP => Some(0xc01e05e2),
            NtStatusWindows::STATUS_GRAPHICS_MIRRORING_DEVICES_NOT_SUPPORTED => Some(0xc01e05e3),
            NtStatusWindows::STATUS_GRAPHICS_INVALID_POINTER => Some(0xc01e05e4),
            NtStatusWindows::STATUS_GRAPHICS_NO_MONITORS_CORRESPOND_TO_DISPLAY_DEVICE => Some(0xc01e05e5),
            NtStatusWindows::STATUS_GRAPHICS_PARAMETER_ARRAY_TOO_SMALL => Some(0xc01e05e6),
            NtStatusWindows::STATUS_GRAPHICS_INTERNAL_ERROR => Some(0xc01e05e7),
            NtStatusWindows::STATUS_GRAPHICS_SESSION_TYPE_CHANGE_IN_PROGRESS => Some(0xc01e05e8),
            NtStatusWindows::STATUS_FVE_LOCKED_VOLUME => Some(0xc0210000),
            NtStatusWindows::STATUS_FVE_NOT_ENCRYPTED => Some(0xc0210001),
            NtStatusWindows::STATUS_FVE_BAD_INFORMATION => Some(0xc0210002),
            NtStatusWindows::STATUS_FVE_TOO_SMALL => Some(0xc0210003),
            NtStatusWindows::STATUS_FVE_FAILED_WRONG_FS => Some(0xc0210004),
            NtStatusWindows::STATUS_FVE_BAD_PARTITION_SIZE => Some(0xc0210005),
            NtStatusWindows::STATUS_FVE_FS_NOT_EXTENDED => Some(0xc0210006),
            NtStatusWindows::STATUS_FVE_FS_MOUNTED => Some(0xc0210007),
            NtStatusWindows::STATUS_FVE_NO_LICENSE => Some(0xc0210008),
            NtStatusWindows::STATUS_FVE_ACTION_NOT_ALLOWED => Some(0xc0210009),
            NtStatusWindows::STATUS_FVE_BAD_DATA => Some(0xc021000a),
            NtStatusWindows::STATUS_FVE_VOLUME_NOT_BOUND => Some(0xc021000b),
            NtStatusWindows::STATUS_FVE_NOT_DATA_VOLUME => Some(0xc021000c),
            NtStatusWindows::STATUS_FVE_CONV_READ_ERROR => Some(0xc021000d),
            NtStatusWindows::STATUS_FVE_CONV_WRITE_ERROR => Some(0xc021000e),
            NtStatusWindows::STATUS_FVE_OVERLAPPED_UPDATE => Some(0xc021000f),
            NtStatusWindows::STATUS_FVE_FAILED_SECTOR_SIZE => Some(0xc0210010),
            NtStatusWindows::STATUS_FVE_FAILED_AUTHENTICATION => Some(0xc0210011),
            NtStatusWindows::STATUS_FVE_NOT_OS_VOLUME => Some(0xc0210012),
            NtStatusWindows::STATUS_FVE_KEYFILE_NOT_FOUND => Some(0xc0210013),
            NtStatusWindows::STATUS_FVE_KEYFILE_INVALID => Some(0xc0210014),
            NtStatusWindows::STATUS_FVE_KEYFILE_NO_VMK => Some(0xc0210015),
            NtStatusWindows::STATUS_FVE_TPM_DISABLED => Some(0xc0210016),
            NtStatusWindows::STATUS_FVE_TPM_SRK_AUTH_NOT_ZERO => Some(0xc0210017),
            NtStatusWindows::STATUS_FVE_TPM_INVALID_PCR => Some(0xc0210018),
            NtStatusWindows::STATUS_FVE_TPM_NO_VMK => Some(0xc0210019),
            NtStatusWindows::STATUS_FVE_PIN_INVALID => Some(0xc021001a),
            NtStatusWindows::STATUS_FVE_AUTH_INVALID_APPLICATION => Some(0xc021001b),
            NtStatusWindows::STATUS_FVE_AUTH_INVALID_CONFIG => Some(0xc021001c),
            NtStatusWindows::STATUS_FVE_DEBUGGER_ENABLED => Some(0xc021001d),
            NtStatusWindows::STATUS_FVE_DRY_RUN_FAILED => Some(0xc021001e),
            NtStatusWindows::STATUS_FVE_BAD_METADATA_POINTER => Some(0xc021001f),
            NtStatusWindows::STATUS_FVE_OLD_METADATA_COPY => Some(0xc0210020),
            NtStatusWindows::STATUS_FVE_REBOOT_REQUIRED => Some(0xc0210021),
            NtStatusWindows::STATUS_FVE_RAW_ACCESS => Some(0xc0210022),
            NtStatusWindows::STATUS_FVE_RAW_BLOCKED => Some(0xc0210023),
            NtStatusWindows::STATUS_FVE_NO_AUTOUNLOCK_MASTER_KEY => Some(0xc0210024),
            NtStatusWindows::STATUS_FVE_MOR_FAILED => Some(0xc0210025),
            _ => None,
        }
    }

    /// One slice of the symbol table.
    #[verifier::spinoff_prover]
    #[verifier::rlimit(100)]
    fn from_u32_part37(raw: u32) -> (r: Option<NtStatusWindows>)
        ensures
            r == NtStatusWindows::spec_from_u32_part37(raw),
    {
        match raw {
            0xc01e058b => Some(NtStatusWindows::STATUS_GRAPHICS_DDCCI_INVALID_MESSAGE_CHECKSUM),
            0xc01e058c => Some(NtStatusWindows::STATUS_GRAPHICS_INVALID_PHYSICAL_MONITOR_HANDLE),
            0xc01e058d => Some(NtStatusWindows::STATUS_GRAPHICS_MONITOR_NO_LONGER_EXISTS),
            0xc01e05e0 => Some(NtStatusWindows::STATUS_GRAPHICS_ONLY_CONSOLE_SESSION_SUPPORTED),
            0xc01e05e1 => Some(NtStatusWindows::STATUS_GRAPHICS_NO_DISPLAY_DEVICE_CORRESPONDS_TO_NAME),
            0xc01e05e2 => Some(NtStatusWindows::STATUS_GRAPHICS_DISPLAY_DEVICE_NOT_ATTACHED_TO_DESKTOP),
            0xc01e05e3 => Some(NtStatusWindows::STATUS_GRAPHICS_MIRRORING_DEVICES_NOT_SUPPORTED),
            0xc01e05e4 => Some(NtStatusWindows::STATUS_GRAPHICS_INVALID_POINTER),
            0xc01e05e5 => Some(NtStatusWindows::STATUS_GRAPHICS_NO_MONITORS_CORRESPOND_TO_DISPLAY_DEVICE),
            0xc01e05e6 => Some(NtStatusWindows::STATUS_GRAPHICS_PARAMETER_ARRAY_TOO_SMALL),
            0xc01e05e7 => Some(NtStatusWindows::STATUS_GRAPHICS_INTERNAL_ERROR),
            0xc01e05e8 => Some(NtStatusWindows::STATUS_GRAPHICS_SESSION_TYPE_CHANGE_IN_PROGRESS),
            0xc0210000 => Some(NtStatusWindows::STATUS_FVE_LOCKED_VOLUME),
            0xc0210001 => Some(NtStatusWindows::STATUS_FVE_NOT_ENCRYPTED),
            0xc0210002 => Some(NtStatusWindows::STATUS_FVE_BAD_INFORMATION),
            0xc0210003 => Some(NtStatusWindows::STATUS_FVE_TOO_SMALL),
            0xc0210004 => Some(NtStatusWindows::STATUS_FVE_FAILED_WRONG_FS),
            0xc0210005 => Some(NtStatusWindows::STATUS_FVE_BAD_PARTITION_SIZE),
            0xc0210006 => Some(NtStatusWindows::STATUS_FVE_FS_NOT_EXTENDED),
            0xc0210007 => Some(NtStatusWindows::STATUS_FVE_FS_MOUNTED),
            0xc0210008 => Some(NtStatusWindows::STATUS_FVE_NO_LICENSE),
            0xc0210009 => Some(NtStatusWindows::STATUS_FVE_ACTION_NOT_ALLOWED),
            0xc021000a => Some(NtStatusWindows::STATUS_FVE_BAD_DATA),
            0xc021000b => Some(NtStatusWindows::STATUS_FVE_VOLUME_NOT_BOUND),
            0xc021000c => Some(NtStatusWindows::STATUS_FVE_NOT_DATA_VOLUME),
            0xc021000d => Some(NtStatusWindows::STATUS_FVE_CONV_READ_ERROR),
            0xc021000e => Some(NtStatusWindows::STATUS_FVE_CONV_WRITE_ERROR),
            0xc021000f => Some(NtStatusWindows::STATUS_FVE_OVERLAPPED_UPDATE),
            0xc0210010 => Some(NtStatusWindows::STATUS_FVE_FAILED_SECTOR_SIZE),
            0xc0210011 => Some(NtStatusWindows::STATUS_FVE_FAILED_AUTHENTICATION),
            0xc0210012 => Some(NtStatusWindows::STATUS_FVE_NOT_OS_VOLUME),
            0xc0210013 => Some(NtStatusWindows::STATUS_FVE_KEYFILE_NOT_FOUND),
            0xc0210014 => Some(NtStatusWindows::STATUS_FVE_KEYFILE_INVALID),
            0xc0210015 => Some(NtStatusWindows::STATUS_FVE_KEYFILE_NO_VMK),
            0xc0210016 => Some(NtStatusWindows::STATUS_FVE_TPM_DISABLED),
            0xc0210017 => Some(NtStatusWindows::STATUS_FVE_TPM_SRK_AUTH_NOT_ZERO),
            0xc0210018 => Some(NtStatusWindows::STATUS_FVE_TPM_INVALID_PCR),
            0xc0210019 => Some(NtStatusWindows::STATUS_FVE_TPM_NO_VMK),
            0xc021001a => Some(NtStatusWindows::STATUS_FVE_PIN_INVALID),
            0xc021001b => Some(NtStatusWindows::STATUS_FVE_AUTH_INVALID_APPLICATION),
            0xc021001c => Some(NtStatusWindows::STATUS_FVE_AUTH_INVALID_CONFIG),
            0xc021001d => Some(NtStatusWindows::STATUS_FVE_DEBUGGER_ENABLED),
            0xc021001e => Some(NtStatusWindows::STATUS_FVE_DRY_RUN_FAILED),
            0xc021001f => Some(NtStatusWindows::STATUS_FVE_BAD_METADATA_POINTER),
            0xc0210020 => Some(NtStatusWindows::STATUS_FVE_OLD_METADATA_COPY),
            0xc0210021 => Some(NtStatusWindows::STATUS_FVE_REBOOT_REQUIRED),
            0xc0210022 => Some(NtStatusWindows::STATUS_FVE_RAW_ACCESS),
            0xc0210023 => Some(NtStatusWindows::STATUS_FVE_RAW_BLOCKED),
            0xc0210024 => Some(NtStatusWindows::STATUS_FVE_NO_AUTOUNLOCK_MASTER_KEY),
            0xc0210025 => Some(NtStatusWindows::STATUS_FVE_MOR_FAILED),
            _ => None,
        }
    }

    /// One slice of the symbol table: the raw value of this symbol,
    /// where this slice holds it.
    pub open spec fn spec_to_u32_part38(self) -> Option<u32> {
        match self {
            NtStatusWindows::STATUS_FVE_NO_FEATURE_LICENSE => Some(0xc0210026),
            NtStatusWindows::STATUS_FVE_POLICY_USER_DISABLE_RDV_NOT_ALLOWED => Some(0xc0210027),
            NtStatusWindows::STATUS_FVE_CONV_RECOVERY_FAILED => Some(0xc0210028),
            NtStatusWindows::STATUS_FVE_VIRTUALIZED_SPACE_TOO_BIG => Some(0xc0210029),
            NtStatusWindows::STATUS_FVE_INVALID_DATUM_TYPE => Some(0xc021002a),
            NtStatusWindows::STATUS_FVE_VOLUME_TOO_SMALL => Some(0xc0210030),
            NtStatusWindows::STATUS_FVE_ENH_PIN_INVALID => Some(0xc0210031),
            NtStatusWindows::STATUS_FVE_FULL_ENCRYPTION_NOT_ALLOWED_ON_TP_STORAGE => Some(0xc0210032),
            NtStatusWindows::STATUS_FVE_WIPE_NOT_ALLOWED_ON_TP_STORAGE => Some(0xc0210033),
            NtStatusWindows::STATUS_FVE_NOT_ALLOWED_ON_CSV_STACK => Some(0xc0210034),
            NtStatusWindows::STATUS_FVE_NOT_ALLOWED_ON_CLUSTER => Some(0xc0210035),
            NtStatusWindows::STATUS_FVE_NOT_ALLOWED_TO_UPGRADE_WHILE_CONVERTING => Some(0xc0210036),
            NtStatusWindows::STATUS_FVE_WIPE_CANCEL_NOT_APPLICABLE => Some(0xc0210037),
            NtStatusWindows::STATUS_FVE_EDRIVE_DRY_RUN_FAILED => Some(0xc0210038),
            NtStatusWindows::STATUS_FVE_SECUREBOOT_DISABLED => Some(0xc0210039),
            NtStatusWindows::STATUS_FVE_SECUREBOOT_CONFIG_CHANGE => Some(0xc021003a),
            NtStatusWindows::STATUS_FVE_DEVICE_LOCKEDOUT => Some(0xc021003b),
            NtStatusWindows::STATUS_FVE_VOLUME_EXTEND_PREVENTS_EOW_DECRYPT => Some(0xc021003c),
            NtStatusWindows::STATUS_FVE_NOT_DE_VOLUME => Some(0xc021003d),
            NtStatusWindows::STATUS_FVE_PROTECTION_DISABLED => Some(0xc021003e),
            NtStatusWindows::STATUS_FVE_PROTECTION_CANNOT_BE_DISABLED => Some(0xc021003f),
            NtStatusWindows::STATUS_FVE_OSV_KSR_NOT_ALLOWED => Some(0xc0210040),
            NtStatusWindows::STATUS_FWP_CALLOUT_NOT_FOUND => Some(0xc0220001),
            NtStatusWindows::STATUS_FWP_CONDITION_NOT_FOUND => Some(0xc0220002),
            NtStatusWindows::STATUS_FWP_FILTER_NOT_FOUND => Some(0xc0220003),
            NtStatusWindows::STATUS_FWP_LAYER_NOT_FOUND => Some(0xc0220004),
            NtStatusWindows::STATUS_FWP_PROVIDER_NOT_FOUND => Some(0xc0220005),
            NtStatusWindows::STATUS_FWP_PROVIDER_CONTEXT_NOT_FOUND => Some(0xc0220006),
            NtStatusWindows::STATUS_FWP_SUBLAYER_NOT_FOUND => Some(0xc0220007),
            NtStatusWindows::STATUS_FWP_NOT_FOUND => Some(0xc0220008),
            NtStatusWindows::STATUS_FWP_ALREADY_EXISTS => Some(0xc0220009),
            NtStatusWindows::STATUS_FWP_IN_USE => Some(0xc022000a),
            NtStatusWindows::STATUS_FWP_DYNAMIC_SESSION_IN_PROGRESS => Some(0xc022000b),
            NtStatusWindows::STATUS_FWP_WRONG_SESSION => Some(0xc022000c),
            NtStatusWindows::STATUS_FWP_NO_TXN_IN_PROGRESS => Some(0xc022000d),
            NtStatusWindows::STATUS_FWP_TXN_IN_PROGRESS => Some(0xc022000e),
            NtStatusWindows::STATUS_FWP_TXN_ABORTED => Some(0xc022000f),
            NtStatusWindows::STATUS_FWP_SESSION_ABORTED => Some(0xc0220010),
            NtStatusWindows::STATUS_FWP_INCOMPATIBLE_TXN => Some(0xc0220011),
            NtStatusWindows::STATUS_FWP_TIMEOUT => Some(0xc0220012),
            NtStatusWindows::STATUS_FWP_NET_EVENTS_DISABLED => Some(0xc0220013),
            NtStatusWindows::STATUS_FWP_INCOMPATIBLE_LAYER => Some(0xc0220014),
            NtStatusWindows::STATUS_FWP_KM_CLIENTS_ONLY => Some(0xc0220015),
            NtStatusWindows::STATUS_FWP_LIFETIME_MISMATCH => Some(0xc0220016),
            NtStatusWindows::STATUS_FWP_BUILTIN_OBJECT => Some(0xc0220017),
            NtStatusWindows::STATUS_FWP_TOO_MANY_CALLOUTS => Some(0xc0220018),
            NtStatusWindows::STATUS_FWP_NOTIFICATION_DROPPED => Some(0xc0220019),
            NtStatusWindows::STATUS_FWP_TRAFFIC_MISMATCH => Some(0xc022001a),
            NtStatusWindows::STATUS_FWP_INCOMPATIBLE_SA_STATE => Some(0xc022001b),
            NtStatusWindows::STATUS_FWP_NULL_POINTER => Some(0xc022001c),
            _ => None,
        }
    }

    /// One slice of the symbol table: the symbol this slice gives a
    /// raw value, where it holds one.
    pub open spec fn spec_from_u32_part38(raw: u32) -> Option<NtStatusWindows> {
        match raw {
            0xc0210026 => Some(NtStatusWindows::STATUS_FVE_NO_FEATURE_LICENSE),
            0xc0210027 => Some(NtStatusWindows::STATUS_FVE_POLICY_USER_DISABLE_RDV_NOT_ALLOWED),
            0xc0210028 => Some(NtStatusWindows::STATUS_FVE_CONV_RECOVERY_FAILED),
            0xc0210029 => Some(NtStatusWindows::STATUS_FVE_VIRTUALIZED_SPACE_TOO_BIG),
            0xc021002a => Some(NtStatusWindows::STATUS_FVE_INVALID_DATUM_TYPE),
            0xc0210030 => Some(NtStatusWindows::STATUS_FVE_VOLUME_TOO_SMALL),
            0xc0210031 => Some(NtStatusWindows::STATUS_FVE_ENH_PIN_INVALID),
            0xc0210032 => Some(NtStatusWindows::STATUS_FVE_FULL_ENCRYPTION_NOT_ALLOWED_ON_TP_STORAGE),
            0xc0210033 => Some(NtStatusWindows::STATUS_FVE_WIPE_NOT_ALLOWED_ON_TP_STORAGE),
            0xc0210034 => Some(NtStatusWindows::STATUS_FVE_NOT_ALLOWED_ON_CSV_STACK),
            0xc0210035 => Some(NtStatusWindows::STATUS_FVE_NOT_ALLOWED_ON_CLUSTER),
            0xc0210036 => Some(NtStatusWindows::STATUS_FVE_NOT_ALLOWED_TO_UPGRADE_WHILE_CONVERTING),
            0xc0210037 => Some(NtStatusWindows::STATUS_FVE_WIPE_CANCEL_NOT_APPLICABLE),
            0xc0210038 => Some(NtStatusWindows::STATUS_FVE_EDRIVE_DRY_RUN_FAILED),
            0xc0210039 => Some(NtStatusWindows::STATUS_FVE_SECUREBOOT_DISABLED),
            0xc021003a => Some(NtStatusWindows::STATUS_FVE_SECUREBOOT_CONFIG_CHANGE),
            0xc021003b => Some(NtStatusWindows::STATUS_FVE_DEVICE_LOCKEDOUT),
            0xc021003c => Some(NtStatusWindows::STATUS_FVE_VOLUME_EXTEND_PREVENTS_EOW_DECRYPT),
            0xc021003d => Some(NtStatusWindows::STATUS_FVE_NOT_DE_VOLUME),
            0xc021003e => Some(NtStatusWindows::STATUS_FVE_PROTECTION_DISABLED),
            0xc021003f => Some(NtStatusWindows::STATUS_FVE_PROTECTION_CANNOT_BE_DISABLED),
            0xc0210040 => Some(NtStatusWindows::STATUS_FVE_OSV_KSR_NOT_ALLOWED),
            0xc0220001 => Some(NtStatusWindows::STATUS_FWP_CALLOUT_NOT_FOUND),
            0xc0220002 => Some(NtStatusWindows::STATUS_FWP_CONDITION_NOT_FOUND),
            0xc0220003 => Some(NtStatusWindows::STATUS_FWP_FILTER_NOT_FOUND),
            0xc0220004 => Some(NtStatusWindows::STATUS_FWP_LAYER_NOT_FOUND),
            0xc0220005 => Some(NtStatusWindows::STATUS_FWP_PROVIDER_NOT_FOUND),
            0xc0220006 => Some(NtStatusWindows::STATUS_FWP_PROVIDER_CONTEXT_NOT_FOUND),
            0xc0220007 => Some(NtStatusWindows::STATUS_FWP_SUBLAYER_NOT_FOUND),
            0xc0220008 => Some(NtStatusWindows::STATUS_FWP_NOT_FOUND),
            0xc0220009 => Some(NtStatusWindows::STATUS_FWP_ALREADY_EXISTS),
            0xc022000a => Some(NtStatusWindows::STATUS_FWP_IN_USE),
            0xc022000b => Some(NtStatusWindows::STATUS_FWP_DYNAMIC_SESSION_IN_PROGRESS),
            0xc022000c => Some(NtStatusWindows::STATUS_FWP_WRONG_SESSION),
            0xc022000d => Some(NtStatusWindows::STATUS_FWP_NO_TXN_IN_PROGRESS),
            0xc022000e => Some(NtStatusWindows::STATUS_FWP_TXN_IN_PROGRESS),
            0xc022000f => Some(NtStatusWindows::STATUS_FWP_TXN_ABORTED),
            0xc0220010 => Some(NtStatusWindows::STATUS_FWP_SESSION_ABORTED),
            0xc0220011 => Some(NtStatusWindows::STATUS_FWP_INCOMPATIBLE_TXN),
            0xc0220012 => Some(NtStatusWindows::STATUS_FWP_TIMEOUT),
            0xc0220013 => Some(NtStatusWindows::STATUS_FWP_NET_EVENTS_DISABLED),
            0xc0220014 => Some(NtStatusWindows::STATUS_FWP_INCOMPATIBLE_LAYER),
            0xc0220015 => Some(NtStatusWindows::STATUS_FWP_KM_CLIENTS_ONLY),
            0xc0220016 => Some(NtStatusWindows::STATUS_FWP_LIFETIME_MISMATCH),
            0xc0220017 => Some(NtStatusWindows::STATUS_FWP_BUILTIN_OBJECT),
            0xc0220018 => Some(NtStatusWindows::STATUS_FWP_TOO_MANY_CALLOUTS),
            0xc0220019 => Some(NtStatusWindows::STATUS_FWP_NOTIFICATION_DROPPED),
            0xc022001a => Some(NtStatusWindows::STATUS_FWP_TRAFFIC_MISMATCH),
            0xc022001b => Some(NtStatusWindows::STATUS_FWP_INCOMPATIBLE_SA_STATE),
            0xc022001c => Some(NtStatusWindows::STATUS_FWP_NULL_POINTER),
            _ => None,
        }
    }

    /// One slice of the symbol table.
    #[verifier::spinoff_prover]
    #[verifier::rlimit(100)]
    fn to_u32_part38(self) -> (r: Option<u32>)
        ensures
            r == self.spec_to_u32_part38(),
    {
        match self {
            NtStatusWindows::STATUS_FVE_NO_FEATURE_LICENSE => Some(0xc0210026),
            NtStatusWindows::STATUS_FVE_POLICY_USER_DISABLE_RDV_NOT_ALLOWED => Some(0xc0210027),
            NtStatusWindows::STATUS_FVE_CONV_RECOVERY_FAILED => Some(0xc0210028),
            NtStatusWindows::STATUS_FVE_VIRTUALIZED_SPACE_TOO_BIG => Some(0xc0210029),
            NtStatusWindows::STATUS_FVE_INVALID_DATUM_TYPE => Some(0xc021002a),
            NtStatusWindows::STATUS_FVE_VOLUME_TOO_SMALL => Some(0xc0210030),
            NtStatusWindows::STATUS_FVE_ENH_PIN_INVALID => Some(0xc0210031),
            NtStatusWindows::STATUS_FVE_FULL_ENCRYPTION_NOT_ALLOWED_ON_TP_STORAGE => Some(0xc0210032),
            NtStatusWindows::STATUS_FVE_WIPE_NOT_ALLOWED_ON_TP_STORAGE => Some(0xc0210033),
            NtStatusWindows::STATUS_FVE_NOT_ALLOWED_ON_CSV_STACK => Some(0xc0210034),
            NtStatusWindows::STATUS_FVE_NOT_ALLOWED_ON_CLUSTER => Some(0xc0210035),
            NtStatusWindows::STATUS_FVE_NOT_ALLOWED_TO_UPGRADE_WHILE_CONVERTING => Some(0xc0210036),
            NtStatusWindows::STATUS_FVE_WIPE_CANCEL_NOT_APPLICABLE => Some(0xc0210037),
            NtStatusWindows::STATUS_FVE_EDRIVE_DRY_RUN_FAILED => Some(0xc0210038),
            NtStatusWindows::STATUS_FVE_SECUREBOOT_DISABLED => Some(0xc0210039),
            NtStatusWindows::STATUS_FVE_SECUREBOOT_CONFIG_CHANGE => Some(0xc021003a),
            NtStatusWindows::STATUS_FVE_DEVICE_LOCKEDOUT => Some(0xc021003b),
            NtStatusWindows::STATUS_FVE_VOLUME_EXTEND_PREVENTS_EOW_DECRYPT => Some(0xc021003c),
            NtStatusWindows::STATUS_FVE_NOT_DE_VOLUME => Some(0xc021003d),
            NtStatusWindows::STATUS_FVE_PROTECTION_DISABLED => Some(0xc021003e),
            NtStatusWindows::STATUS_FVE_PROTECTION_CANNOT_BE_DISABLED => Some(0xc021003f),
            NtStatusWindows::STATUS_FVE_OSV_KSR_NOT_ALLOWED => Some(0xc0210040),
            NtStatusWindows::STATUS_FWP_CALLOUT_NOT_FOUND => Some(0xc0220001),
            NtStatusWindows::STATUS_FWP_CONDITION_NOT_FOUND => Some(0xc0220002),
            NtStatusWindows::STATUS_FWP_FILTER_NOT_FOUND => Some(0xc0220003),
            NtStatusWindows::STATUS_FWP_LAYER_NOT_FOUND => Some(0xc0220004),
            NtStatusWindows::STATUS_FWP_PROVIDER_NOT_FOUND => Some(0xc0220005),
            NtStatusWindows::STATUS_FWP_PROVIDER_CONTEXT_NOT_FOUND => Some(0xc0220006),
            NtStatusWindows::STATUS_FWP_SUBLAYER_NOT_FOUND => Some(0xc0220007),
            NtStatusWindows::STATUS_FWP_NOT_FOUND => Some(0xc0220008),
            NtStatusWindows::STATUS_FWP_ALREADY_EXISTS => Some(0xc0220009),
            NtStatusWindows::STATUS_FWP_IN_USE => Some(0xc022000a),
            NtStatusWindows::STATUS_FWP_DYNAMIC_SESSION_IN_PROGRESS => Some(0xc022000b),
            NtStatusWindows::STATUS_FWP_WRONG_SESSION => Some(0xc022000c),
            NtStatusWindows::STATUS_FWP_NO_TXN_IN_PROGRESS => Some(0xc022000d),
            NtStatusWindows::STATUS_FWP_TXN_IN_PROGRESS => Some(0xc022000e),
            NtStatusWindows::STATUS_FWP_TXN_ABORTED => Some(0xc022000f),
            NtStatusWindows::STATUS_FWP_SESSION_ABORTED => Some(0xc0220010),
            NtStatusWindows::STATUS_FWP_INCOMPATIBLE_TXN => Some(0xc0220011),
            NtStatusWindows::STATUS_FWP_TIMEOUT => Some(0xc0220012),
            NtStatusWindows::STATUS_FWP_NET_EVENTS_DISABLED => Some(0xc0220013),
            NtStatusWindows::STATUS_FWP_INCOMPATIBLE_LAYER => Some(0xc0220014),
            NtStatusWindows::STATUS_FWP_KM_CLIENTS_ONLY => Some(0xc0220015),
            NtStatusWindows::STATUS_FWP_LIFETIME_MISMATCH => Some(0xc0220016),
            NtStatusWindows::STATUS_FWP_BUILTIN_OBJECT => Some(0xc0220017),
            NtStatusWindows::STATUS_FWP_TOO_MANY_CALLOUTS => Some(0xc0220018),
            NtStatusWindows::STATUS_FWP_NOTIFICATION_DROPPED => Some(0xc0220019),
            NtStatusWindows::STATUS_FWP_TRAFFIC_MISMATCH => Some(0xc022001a),
            NtStatusWindows::STATUS_FWP_INCOMPATIBLE_SA_STATE => Some(0xc022001b),
            NtStatusWindows::STATUS_FWP_NULL_POINTER => Some(0xc022001c),
            _ => None,
        }
    }

    /// One slice of the symbol table.
    #[verifier::spinoff_prover]
    #[verifier::rlimit(100)]
    fn from_u32_part38(raw: u32) -> (r: Option<NtStatusWindows>)
        ensures
            r == NtStatusWindows::spec_from_u32_part38(raw),
    {
        match raw {
            0xc0210026 => Some(NtStatusWindows::STATUS_FVE_NO_FEATURE_LICENSE),
            0xc0210027 => Some(NtStatusWindows::STATUS_FVE_POLICY_USER_DISABLE_RDV_NOT_ALLOWED),
            0xc0210028 => Some(NtStatusWindows::STATUS_FVE_CONV_RECOVERY_FAILED),
            0xc0210029 => Some(NtStatusWindows::STATUS_FVE_VIRTUALIZED_SPACE_TOO_BIG),
            0xc021002a => Some(NtStatusWindows::STATUS_FVE_INVALID_DATUM_TYPE),
            0xc0210030 => Some(NtStatusWindows::STATUS_FVE_VOLUME_TOO_SMALL),
            0xc0210031 => Some(NtStatusWindows::STATUS_FVE_ENH_PIN_INVALID),
            0xc0210032 => Some(NtStatusWindows::STATUS_FVE_FULL_ENCRYPTION_NOT_ALLOWED_ON_TP_STORAGE),
            0xc0210033 => Some(NtStatusWindows::STATUS_FVE_WIPE_NOT_ALLOWED_ON_TP_STORAGE),
            0xc0210034 => Some(NtStatusWindows::STATUS_FVE_NOT_ALLOWED_ON_CSV_STACK),
            0xc0210035 => Some(NtStatusWindows::STATUS_FVE_NOT_ALLOWED_ON_CLUSTER),
            0xc0210036 => Some(NtStatusWindows::STATUS_FVE_NOT_ALLOWED_TO_UPGRADE_WHILE_CONVERTING),
            0xc0210037 => Some(NtStatusWindows::STATUS_FVE_WIPE_CANCEL_NOT_APPLICABLE),
            0xc0210038 => Some(NtStatusWindows::STATUS_FVE_EDRIVE_DRY_RUN_FAILED),
            0xc0210039 => Some(NtStatusWindows::STATUS_FVE_SECUREBOOT_DISABLED),
            0xc021003a => Some(NtStatusWindows::STATUS_FVE_SECUREBOOT_CONFIG_CHANGE),
            0xc021003b => Some(NtStatusWindows::STATUS_FVE_DEVICE_LOCKEDOUT),
            0xc021003c => Some(NtStatusWindows::STATUS_FVE_VOLUME_EXTEND_PREVENTS_EOW_DECRYPT),
            0xc021003d => Some(NtStatusWindows::STATUS_FVE_NOT_DE_VOLUME),
            0xc021003e => Some(NtStatusWindows::STATUS_FVE_PROTECTION_DISABLED),
            0xc021003f => Some(NtStatusWindows::STATUS_FVE_PROTECTION_CANNOT_BE_DISABLED),
            0xc0210040 => Some(NtStatusWindows::STATUS_FVE_OSV_KSR_NOT_ALLOWED),
            0xc0220001 => Some(NtStatusWindows::STATUS_FWP_CALLOUT_NOT_FOUND),
            0xc0220002 => Some(NtStatusWindows::STATUS_FWP_CONDITION_NOT_FOUND),
            0xc0220003 => Some(NtStatusWindows::STATUS_FWP_FILTER_NOT_FOUND),
            0xc0220004 => Some(NtStatusWindows::STATUS_FWP_LAYER_NOT_FOUND),
            0xc0220005 => Some(NtStatusWindows::STATUS_FWP_PROVIDER_NOT_FOUND),
            0xc0220006 => Some(NtStatusWindows::STATUS_FWP_PROVIDER_CONTEXT_NOT_FOUND),
            0xc0220007 => Some(NtStatusWindows::STATUS_FWP_SUBLAYER_NOT_FOUND),
            0xc0220008 => Some(NtStatusWindows::STATUS_FWP_NOT_FOUND),
            0xc0220009 => Some(NtStatusWindows::STATUS_FWP_ALREADY_EXISTS),
            0xc022000a => Some(NtStatusWindows::STATUS_FWP_IN_USE),
            0xc022000b => Some(NtStatusWindows::STATUS_FWP_DYNAMIC_SESSION_IN_PROGRESS),
            0xc022000c => Some(NtStatusWindows::STATUS_FWP_WRONG_SESSION),
            0xc022000d => Some(NtStatusWindows::STATUS_FWP_NO_TXN_IN_PROGRESS),
            0xc022000e => Some(NtStatusWindows::STATUS_FWP_TXN_IN_PROGRESS),
            0xc022000f => Some(NtStatusWindows::STATUS_FWP_TXN_ABORTED),
            0xc0220010 => Some(NtStatusWindows::STATUS_FWP_SESSION_ABORTED),
            0xc0220011 => Some(NtStatusWindows::STATUS_FWP_INCOMPATIBLE_TXN),
            0xc0220012 => Some(NtStatusWindows::STATUS_FWP_TIMEOUT),
            0xc0220013 => Some(NtStatusWindows::STATUS_FWP_NET_EVENTS_DISABLED),
            0xc0220014 => Some(NtStatusWindows::STATUS_FWP_INCOMPATIBLE_LAYER),
            0xc0220015 => Some(NtStatusWindows::STATUS_FWP_KM_CLIENTS_ONLY),
            0xc0220016 => Some(NtStatusWindows::STATUS_FWP_LIFETIME_MISMATCH),
            0xc0220017 => Some(NtStatusWindows::STATUS_FWP_BUILTIN_OBJECT),
            0xc0220018 => Some(NtStatusWindows::STATUS_FWP_TOO_MANY_CALLOUTS),
            0xc0220019 => Some(NtStatusWindows::STATUS_FWP_NOTIFICATION_DROPPED),
            0xc022001a => Some(NtStatusWindows::STATUS_FWP_TRAFFIC_MISMATCH),
            0xc022001b => Some(NtStatusWindows::STATUS_FWP_INCOMPATIBLE_SA_STATE),
            0xc022001c => Some(NtStatusWindows::STATUS_FWP_NULL_POINTER),
            _ => None,
        }
    }

    /// One slice of the symbol table: the raw value of this symbol,
    /// where this slice holds it.
    pub open spec fn spec_to_u32_part39(self) -> Option<u32> {
        match self {
            NtStatusWindows::STATUS_FWP_INVALID_ENUMERATOR => Some(0xc022001d),
            NtStatusWindows::STATUS_FWP_INVALID_FLAGS => Some(0xc022001e),
            NtStatusWindows::STATUS_FWP_INVALID_NET_MASK => Some(0xc022001f),
            NtStatusWindows::STATUS_FWP_INVALID_RANGE => Some(0xc0220020),
            NtStatusWindows::STATUS_FWP_INVALID_INTERVAL => Some(0xc0220021),
            NtStatusWindows::STATUS_FWP_ZERO_LENGTH_ARRAY => Some(0xc0220022),
            NtStatusWindows::STATUS_FWP_NULL_DISPLAY_NAME => Some(0xc0220023),
            NtStatusWindows::STATUS_FWP_INVALID_ACTION_TYPE => Some(0xc0220024),
            NtStatusWindows::STATUS_FWP_INVALID_WEIGHT => Some(0xc0220025),
            NtStatusWindows::STATUS_FWP_MATCH_TYPE_MISMATCH => Some(0xc0220026),
            NtStatusWindows::STATUS_FWP_TYPE_MISMATCH => Some(0xc0220027),
            NtStatusWindows::STATUS_FWP_OUT_OF_BOUNDS => Some(0xc0220028),
            NtStatusWindows::STATUS_FWP_RESERVED => Some(0xc0220029),
            NtStatusWindows::STATUS_FWP_DUPLICATE_CONDITION => Some(0xc022002a),
            NtStatusWindows::STATUS_FWP_DUPLICATE_KEYMOD => Some(0xc022002b),
            NtStatusWindows::STATUS_FWP_ACTION_INCOMPATIBLE_WITH_LAYER => Some(0xc022002c),
            NtStatusWindows::STATUS_FWP_ACTION_INCOMPATIBLE_WITH_SUBLAYER => Some(0xc022002d),
            NtStatusWindows::STATUS_FWP_CONTEXT_INCOMPATIBLE_WITH_LAYER => Some(0xc022002e),
            NtStatusWindows::STATUS_FWP_CONTEXT_INCOMPATIBLE_WITH_CALLOUT => Some(0xc022002f),
            NtStatusWindows::STATUS_FWP_INCOMPATIBLE_AUTH_METHOD => Some(0xc0220030),
            NtStatusWindows::STATUS_FWP_INCOMPATIBLE_DH_GROUP => Some(0xc0220031),
            NtStatusWindows::STATUS_FWP_EM_NOT_SUPPORTED => Some(0xc0220032),
            NtStatusWindows::STATUS_FWP_NEVER_MATCH => Some(0xc0220033),
            NtStatusWindows::STATUS_FWP_PROVIDER_CONTEXT_MISMATCH => Some(0xc0220034),
            NtStatusWindows::STATUS_FWP_INVALID_PARAMETER => Some(0xc0220035),
            NtStatusWindows::STATUS_FWP_TOO_MANY_SUBLAYERS => Some(0xc0220036),
            NtStatusWindows::STATUS_FWP_CALLOUT_NOTIFICATION_FAILED => Some(0xc0220037),
            NtStatusWindows::STATUS_FWP_INVALID_AUTH_TRANSFORM => Some(0xc0220038),
            NtStatusWindows::STATUS_FWP_INVALID_CIPHER_TRANSFORM => Some(0xc0220039),
            NtStatusWindows::STATUS_FWP_INCOMPATIBLE_CIPHER_TRANSFORM => Some(0xc022003a),
            NtStatusWindows::STATUS_FWP_INVALID_TRANSFORM_COMBINATION => Some(0xc022003b),
            NtStatusWindows::STATUS_FWP_DUPLICATE_AUTH_METHOD => Some(0xc022003c),
            NtStatusWindows::STATUS_FWP_INVALID_TUNNEL_ENDPOINT => Some(0xc022003d),
            NtStatusWindows::STATUS_FWP_L2_DRIVER_NOT_READY => Some(0xc022003e),
            NtStatusWindows::STATUS_FWP_KEY_DICTATOR_ALREADY_REGISTERED => Some(0xc022003f),
            NtStatusWindows::STATUS_FWP_KEY_DICTATION_INVALID_KEYING_MATERIAL => Some(0xc0220040),
            NtStatusWindows::STATUS_FWP_CONNECTIONS_DISABLED => Some(0xc0220041),
            NtStatusWindows::STATUS_FWP_INVALID_DNS_NAME => Some(0xc0220042),
            NtStatusWindows::STATUS_FWP_STILL_ON => Some(0xc0220043),
            NtStatusWindows::STATUS_FWP_IKEEXT_NOT_RUNNING => Some(0xc0220044),
            NtStatusWindows::STATUS_FWP_TCPIP_NOT_READY => Some(0xc0220100),
            NtStatusWindows::STATUS_FWP_INJECT_HANDLE_CLOSING => Some(0xc0220101),
            NtStatusWindows::STATUS_FWP_INJECT_HANDLE_STALE => Some(0xc0220102),
            NtStatusWindows::STATUS_FWP_CANNOT_PEND => Some(0xc0220103),
            NtStatusWindows::STATUS_FWP_DROP_NOICMP => Some(0xc0220104),
            NtStatusWindows::STATUS_NDIS_CLOSING => Some(0xc0230002),
            NtStatusWindows::STATUS_NDIS_BAD_VERSION => Some(0xc0230004),
            NtStatusWindows::STATUS_NDIS_BAD_CHARACTERISTICS => Some(0xc0230005),
            NtStatusWindows::STATUS_NDIS_ADAPTER_NOT_FOUND => Some(0xc0230006),
            NtStatusWindows::STATUS_NDIS_OPEN_FAILED => Some(0xc0230007),
            _ => None,
        }
    }

    /// One slice of the symbol table: the symbol this slice gives a
    /// raw value, where it holds one.
    pub open spec fn spec_from_u32_part39(raw: u32) -> Option<NtStatusWindows> {
        match raw {
            0xc022001d => Some(NtStatusWindows::STATUS_FWP_INVALID_ENUMERATOR),
            0xc022001e => Some(NtStatusWindows::STATUS_FWP_INVALID_FLAGS),
            0xc022001f => Some(NtStatusWindows::STATUS_FWP_INVALID_NET_MASK),
            0xc0220020 => Some(NtStatusWindows::STATUS_FWP_INVALID_RANGE),
            0xc0220021 => Some(NtStatusWindows::STATUS_FWP_INVALID_INTERVAL),
            0xc0220022 => Some(NtStatusWindows::STATUS_FWP_ZERO_LENGTH_ARRAY),
            0xc0220023 => Some(NtStatusWindows::STATUS_FWP_NULL_DISPLAY_NAME),
            0xc0220024 => Some(NtStatusWindows::STATUS_FWP_INVALID_ACTION_TYPE),
            0xc0220025 => Some(NtStatusWindows::STATUS_FWP_INVALID_WEIGHT),
            0xc0220026 => Some(NtStatusWindows::STATUS_FWP_MATCH_TYPE_MISMATCH),
            0xc0220027 => Some(NtStatusWindows::STATUS_FWP_TYPE_MISMATCH),
            0xc0220028 => Some(NtStatusWindows::STATUS_FWP_OUT_OF_BOUNDS),
            0xc0220029 => Some(NtStatusWindows::STATUS_FWP_RESERVED),
            0xc022002a => Some(NtStatusWindows::STATUS_FWP_DUPLICATE_CONDITION),
            0xc022002b => Some(NtStatusWindows::STATUS_FWP_DUPLICATE_KEYMOD),
            0xc022002c => Some(NtStatusWindows::STATUS_FWP_ACTION_INCOMPATIBLE_WITH_LAYER),
            0xc022002d => Some(NtStatusWindows::STATUS_FWP_ACTION_INCOMPATIBLE_WITH_SUBLAYER),
            0xc022002e => Some(NtStatusWindows::STATUS_FWP_CONTEXT_INCOMPATIBLE_WITH_LAYER),
            0xc022002f => Some(NtStatusWindows::STATUS_FWP_CONTEXT_INCOMPATIBLE_WITH_CALLOUT),
            0xc0220030 => Some(NtStatusWindows::STATUS_FWP_INCOMPATIBLE_AUTH_METHOD),
            0xc0220031 => Some(NtStatusWindows::STATUS_FWP_INCOMPATIBLE_DH_GROUP),
            0xc0220032 => Some(NtStatusWindows::STATUS_FWP_EM_NOT_SUPPORTED),
            0xc0220033 => Some(NtStatusWindows::STATUS_FWP_NEVER_MATCH),
            0xc0220034 => Some(NtStatusWindows::STATUS_FWP_PROVIDER_CONTEXT_MISMATCH),
            0xc0220035 => Some(NtStatusWindows::STATUS_FWP_INVALID_PARAMETER),
            0xc0220036 => Some(NtStatusWindows::STATUS_FWP_TOO_MANY_SUBLAYERS),
            0xc0220037 => Some(NtStatusWindows::STATUS_FWP_CALLOUT_NOTIFICATION_FAILED),
            0xc0220038 => Some(NtStatusWindows::STATUS_FWP_INVALID_AUTH_TRANSFORM),
            0xc0220039 => Some(NtStatusWindows::STATUS_FWP_INVALID_CIPHER_TRANSFORM),
            0xc022003a => Some(NtStatusWindows::STATUS_FWP_INCOMPATIBLE_CIPHER_TRANSFORM),
            0xc022003b => Some(NtStatusWindows::STATUS_FWP_INVALID_TRANSFORM_COMBINATION),
            0xc022003c => Some(NtStatusWindows::STATUS_FWP_DUPLICATE_AUTH_METHOD),
            0xc022003d => Some(NtStatusWindows::STATUS_FWP_INVALID_TUNNEL_ENDPOINT),
            0xc022003e => Some(NtStatusWindows::STATUS_FWP_L2_DRIVER_NOT_READY),
            0xc022003f => Some(NtStatusWindows::STATUS_FWP_KEY_DICTATOR_ALREADY_REGISTERED),
            0xc0220040 => Some(NtStatusWindows::STATUS_FWP_KEY_DICTATION_INVALID_KEYING_MATERIAL),
            0xc0220041 => Some(NtStatusWindows::STATUS_FWP_CONNECTIONS_DISABLED),
            0xc0220042 => Some(NtStatusWindows::STATUS_FWP_INVALID_DNS_NAME),
            0xc0220043 => Some(NtStatusWindows::STATUS_FWP_STILL_ON),
            0xc0220044 => Some(NtStatusWindows::STATUS_FWP_IKEEXT_NOT_RUNNING),
            0xc0220100 => Some(NtStatusWindows::STATUS_FWP_TCPIP_NOT_READY),
            0xc0220101 => Some(NtStatusWindows::STATUS_FWP_INJECT_HANDLE_CLOSING),
            0xc0220102 => Some(NtStatusWindows::STATUS_FWP_INJECT_HANDLE_STALE),
            0xc0220103 => Some(NtStatusWindows::STATUS_FWP_CANNOT_PEND),
            0xc0220104 => Some(NtStatusWindows::STATUS_FWP_DROP_NOICMP),
            0xc0230002 => Some(NtStatusWindows::STATUS_NDIS_CLOSING),
            0xc0230004 => Some(NtStatusWindows::STATUS_NDIS_BAD_VERSION),
            0xc0230005 => Some(NtStatusWindows::STATUS_NDIS_BAD_CHARACTERISTICS),
            0xc0230006 => Some(NtStatusWindows::STATUS_NDIS_ADAPTER_NOT_FOUND),
            0xc0230007 => Some(NtStatusWindows::STATUS_NDIS_OPEN_FAILED),
            _ => None,
        }
    }

    /// One slice of the symbol table.
    #[verifier::spinoff_prover]
    #[verifier::rlimit(100)]
    fn to_u32_part39(self) -> (r: Option<u32>)
        ensures
            r == self.spec_to_u32_part39(),
    {
        match self {
            NtStatusWindows::STATUS_FWP_INVALID_ENUMERATOR => Some(0xc022001d),
            NtStatusWindows::STATUS_FWP_INVALID_FLAGS => Some(0xc022001e),
            NtStatusWindows::STATUS_FWP_INVALID_NET_MASK => Some(0xc022001f),
            NtStatusWindows::STATUS_FWP_INVALID_RANGE => Some(0xc0220020),
            NtStatusWindows::STATUS_FWP_INVALID_INTERVAL => Some(0xc0220021),
            NtStatusWindows::STATUS_FWP_ZERO_LENGTH_ARRAY => Some(0xc0220022),
            NtStatusWindows::STATUS_FWP_NULL_DISPLAY_NAME => Some(0xc0220023),
            NtStatusWindows::STATUS_FWP_INVALID_ACTION_TYPE => Some(0xc0220024),
            NtStatusWindows::STATUS_FWP_INVALID_WEIGHT => Some(0xc0220025),
            NtStatusWindows::STATUS_FWP_MATCH_TYPE_MISMATCH => Some(0xc0220026),
            NtStatusWindows::STATUS_FWP_TYPE_MISMATCH => Some(0xc0220027),
            NtStatusWindows::STATUS_FWP_OUT_OF_BOUNDS => Some(0xc0220028),
            NtStatusWindows::STATUS_FWP_RESERVED => Some(0xc0220029),
            NtStatusWindows::STATUS_FWP_DUPLICATE_CONDITION => Some(0xc022002a),
            NtStatusWindows::STATUS_FWP_DUPLICATE_KEYMOD => Some(0xc022002b),
            NtStatusWindows::STATUS_FWP_ACTION_INCOMPATIBLE_WITH_LAYER => Some(0xc022002c),
            NtStatusWindows::STATUS_FWP_ACTION_INCOMPATIBLE_WITH_SUBLAYER => Some(0xc022002d),
            NtStatusWindows::STATUS_FWP_CONTEXT_INCOMPATIBLE_WITH_LAYER => Some(0xc022002e),
            NtStatusWindows::STATUS_FWP_CONTEXT_INCOMPATIBLE_WITH_CALLOUT => Some(0xc022002f),
            NtStatusWindows::STATUS_FWP_INCOMPATIBLE_AUTH_METHOD => Some(0xc0220030),
            NtStatusWindows::STATUS_FWP_INCOMPATIBLE_DH_GROUP => Some(0xc0220031),
            NtStatusWindows::STATUS_FWP_EM_NOT_SUPPORTED => Some(0xc0220032),
            NtStatusWindows::STATUS_FWP_NEVER_MATCH => Some(0xc0220033),
            NtStatusWindows::STATUS_FWP_PROVIDER_CONTEXT_MISMATCH => Some(0xc0220034),
            NtStatusWindows::STATUS_FWP_INVALID_PARAMETER => Some(0xc0220035),
            NtStatusWindows::STATUS_FWP_TOO_MANY_SUBLAYERS => Some(0xc0220036),
            NtStatusWindows::STATUS_FWP_CALLOUT_NOTIFICATION_FAILED => Some(0xc0220037),
            NtStatusWindows::STATUS_FWP_INVALID_AUTH_TRANSFORM => Some(0xc0220038),
            NtStatusWindows::STATUS_FWP_INVALID_CIPHER_TRANSFORM => Some(0xc0220039),
            NtStatusWindows::STATUS_FWP_INCOMPATIBLE_CIPHER_TRANSFORM => Some(0xc022003a),
            NtStatusWindows::STATUS_FWP_INVALID_TRANSFORM_COMBINATION => Some(0xc022003b),
            NtStatusWindows::STATUS_FWP_DUPLICATE_AUTH_METHOD => Some(0xc022003c),
            NtStatusWindows::STATUS_FWP_INVALID_TUNNEL_ENDPOINT => Some(0xc022003d),
            NtStatusWindows::STATUS_FWP_L2_DRIVER_NOT_READY => Some(0xc022003e),
            NtStatusWindows::STATUS_FWP_KEY_DICTATOR_ALREADY_REGISTERED => Some(0xc022003f),
            NtStatusWindows::STATUS_FWP_KEY_DICTATION_INVALID_KEYING_MATERIAL => Some(0xc0220040),
            NtStatusWindows::STATUS_FWP_CONNECTIONS_DISABLED => Some(0xc0220041),
            NtStatusWindows::STATUS_FWP_INVALID_DNS_NAME => Some(0xc0220042),
            NtStatusWindows::STATUS_FWP_STILL_ON => Some(0xc0220043),
            NtStatusWindows::STATUS_FWP_IKEEXT_NOT_RUNNING => Some(0xc0220044),
            NtStatusWindows::STATUS_FWP_TCPIP_NOT_READY => Some(0xc0220100),
            NtStatusWindows::STATUS_FWP_INJECT_HANDLE_CLOSING => Some(0xc0220101),
            NtStatusWindows::STATUS_FWP_INJECT_HANDLE_STALE => Some(0xc0220102),
            NtStatusWindows::STATUS_FWP_CANNOT_PEND => Some(0xc0220103),
            NtStatusWindows::STATUS_FWP_DROP_NOICMP => Some(0xc0220104),
            NtStatusWindows::STATUS_NDIS_CLOSING => Some(0xc0230002),
            NtStatusWindows::STATUS_NDIS_BAD_VERSION => Some(0xc0230004),
            NtStatusWindows::STATUS_NDIS_BAD_CHARACTERISTICS => Some(0xc0230005),
            NtStatusWindows::STATUS_NDIS_ADAPTER_NOT_FOUND => Some(0xc0230006),
            NtStatusWindows::STATUS_NDIS_OPEN_FAILED => Some(0xc0230007),
            _ => None,
        }
    }

    /// One slice of the symbol table.
    #[verifier::spinoff_prover]
    #[verifier::rlimit(100)]
    fn from_u32_part39(raw: u32) -> (r: Option<NtStatusWindows>)
        ensures
            r == NtStatusWindows::spec_from_u32_part39(raw),
    {
        match raw {
            0xc022001d => Some(NtStatusWindows::STATUS_FWP_INVALID_ENUMERATOR),
            0xc022001e => Some(NtStatusWindows::STATUS_FWP_INVALID_FLAGS),
            0xc022001f => Some(NtStatusWindows::STATUS_FWP_INVALID_NET_MASK),
            0xc0220020 => Some(NtStatusWindows::STATUS_FWP_INVALID_RANGE),
            0xc0220021 => Some(NtStatusWindows::STATUS_FWP_INVALID_INTERVAL),
            0xc0220022 => Some(NtStatusWindows::STATUS_FWP_ZERO_LENGTH_ARRAY),
            0xc0220023 => Some(NtStatusWindows::STATUS_FWP_NULL_DISPLAY_NAME),
            0xc0220024 => Some(NtStatusWindows::STATUS_FWP_INVALID_ACTION_TYPE),
            0xc0220025 => Some(NtStatusWindows::STATUS_FWP_INVALID_WEIGHT),
            0xc0220026 => Some(NtStatusWindows::STATUS_FWP_MATCH_TYPE_MISMATCH),
            0xc0220027 => Some(NtStatusWindows::STATUS_FWP_TYPE_MISMATCH),
            0xc0220028 => Some(NtStatusWindows::STATUS_FWP_OUT_OF_BOUNDS),
            0xc0220029 => Some(NtStatusWindows::STATUS_FWP_RESERVED),
            0xc022002a => Some(NtStatusWindows::STATUS_FWP_DUPLICATE_CONDITION),
            0xc022002b => Some(NtStatusWindows::STATUS_FWP_DUPLICATE_KEYMOD),
            0xc022002c => Some(NtStatusWindows::STATUS_FWP_ACTION_INCOMPATIBLE_WITH_LAYER),
            0xc022002d => Some(NtStatusWindows::STATUS_FWP_ACTION_INCOMPATIBLE_WITH_SUBLAYER),
            0xc022002e => Some(NtStatusWindows::STATUS_FWP_CONTEXT_INCOMPATIBLE_WITH_LAYER),
            0xc022002f => Some(NtStatusWindows::STATUS_FWP_CONTEXT_INCOMPATIBLE_WITH_CALLOUT),
            0xc0220030 => Some(NtStatusWindows::STATUS_FWP_INCOMPATIBLE_AUTH_METHOD),
            0xc0220031 => Some(NtStatusWindows::STATUS_FWP_INCOMPATIBLE_DH_GROUP),
            0xc0220032 => Some(NtStatusWindows::STATUS_FWP_EM_NOT_SUPPORTED),
            0xc0220033 => Some(NtStatusWindows::STATUS_FWP_NEVER_MATCH),
            0xc0220034 => Some(NtStatusWindows::STATUS_FWP_PROVIDER_CONTEXT_MISMATCH),
            0xc0220035 => Some(NtStatusWindows::STATUS_FWP_INVALID_PARAMETER),
            0xc0220036 => Some(NtStatusWindows::STATUS_FWP_TOO_MANY_SUBLAYERS),
            0xc0220037 => Some(NtStatusWindows::STATUS_FWP_CALLOUT_NOTIFICATION_FAILED),
            0xc0220038 => Some(NtStatusWindows::STATUS_FWP_INVALID_AUTH_TRANSFORM),
            0xc0220039 => Some(NtStatusWindows::STATUS_FWP_INVALID_CIPHER_TRANSFORM),
            0xc022003a => Some(NtStatusWindows::STATUS_FWP_INCOMPATIBLE_CIPHER_TRANSFORM),
            0xc022003b => Some(NtStatusWindows::STATUS_FWP_INVALID_TRANSFORM_COMBINATION),
            0xc022003c => Some(NtStatusWindows::STATUS_FWP_DUPLICATE_AUTH_METHOD),
            0xc022003d => Some(NtStatusWindows::STATUS_FWP_INVALID_TUNNEL_ENDPOINT),
            0xc022003e => Some(NtStatusWindows::STATUS_FWP_L2_DRIVER_NOT_READY),
            0xc022003f => Some(NtStatusWindows::STATUS_FWP_KEY_DICTATOR_ALREADY_REGISTERED),
            0xc0220040 => Some(NtStatusWindows::STATUS_FWP_KEY_DICTATION_INVALID_KEYING_MATERIAL),
            0xc0220041 => Some(NtStatusWindows::STATUS_FWP_CONNECTIONS_DISABLED),
            0xc0220042 => Some(NtStatusWindows::STATUS_FWP_INVALID_DNS_NAME),
            0xc0220043 => Some(NtStatusWindows::STATUS_FWP_STILL_ON),
            0xc0220044 => Some(NtStatusWindows::STATUS_FWP_IKEEXT_NOT_RUNNING),
            0xc0220100 => Some(NtStatusWindows::STATUS_FWP_TCPIP_NOT_READY),
            0xc0220101 => Some(NtStatusWindows::STATUS_FWP_INJECT_HANDLE_CLOSING),
            0xc0220102 => Some(NtStatusWindows::STATUS_FWP_INJECT_HANDLE_STALE),
            0xc0220103 => Some(NtStatusWindows::STATUS_FWP_CANNOT_PEND),
            0xc0220104 => Some(NtStatusWindows::STATUS_FWP_DROP_NOICMP),
            0xc0230002 => Some(NtStatusWindows::STATUS_NDIS_CLOSING),
            0xc0230004 => Some(NtStatusWindows::STATUS_NDIS_BAD_VERSION),
            0xc0230005 => Some(NtStatusWindows::STATUS_NDIS_BAD_CHARACTERISTICS),
            0xc0230006 => Some(NtStatusWindows::STATUS_NDIS_ADAPTER_NOT_FOUND),
            0xc0230007 => Some(NtStatusWindows::STATUS_NDIS_OPEN_FAILED),
            _ => None,
        }
    }

    /// One slice of the symbol table: the raw value of this symbol,
    /// where this slice holds it.
    pub open spec fn spec_to_u32_part40(self) -> Option<u32> {
        match self {
            NtStatusWindows::STATUS_NDIS_DEVICE_FAILED => Some(0xc0230008),
            NtStatusWindows::STATUS_NDIS_MULTICAST_FULL => Some(0xc0230009),
            NtStatusWindows::STATUS_NDIS_MULTICAST_EXISTS => Some(0xc023000a),
            NtStatusWindows::STATUS_NDIS_MULTICAST_NOT_FOUND => Some(0xc023000b),
            NtStatusWindows::STATUS_NDIS_REQUEST_ABORTED => Some(0xc023000c),
            NtStatusWindows::STATUS_NDIS_RESET_IN_PROGRESS => Some(0xc023000d),
            NtStatusWindows::STATUS_NDIS_INVALID_PACKET => Some(0xc023000f),
            NtStatusWindows::STATUS_NDIS_INVALID_DEVICE_REQUEST => Some(0xc0230010),
            NtStatusWindows::STATUS_NDIS_ADAPTER_NOT_READY => Some(0xc0230011),
            NtStatusWindows::STATUS_NDIS_INVALID_LENGTH => Some(0xc0230014),
            NtStatusWindows::STATUS_NDIS_INVALID_DATA => Some(0xc0230015),
            NtStatusWindows::STATUS_NDIS_BUFFER_TOO_SHORT => Some(0xc0230016),
            NtStatusWindows::STATUS_NDIS_INVALID_OID => Some(0xc0230017),
            NtStatusWindows::STATUS_NDIS_ADAPTER_REMOVED => Some(0xc0230018),
            NtStatusWindows::STATUS_NDIS_UNSUPPORTED_MEDIA => Some(0xc0230019),
            NtStatusWindows::STATUS_NDIS_GROUP_ADDRESS_IN_USE => Some(0xc023001a),
            NtStatusWindows::STATUS_NDIS_FILE_NOT_FOUND => Some(0xc023001b),
            NtStatusWindows::STATUS_NDIS_ERROR_READING_FILE => Some(0xc023001c),
            NtStatusWindows::STATUS_NDIS_ALREADY_MAPPED => Some(0xc023001d),
            NtStatusWindows::STATUS_NDIS_RESOURCE_CONFLICT => Some(0xc023001e),
            NtStatusWindows::STATUS_NDIS_MEDIA_DISCONNECTED => Some(0xc023001f),
            NtStatusWindows::STATUS_NDIS_INVALID_ADDRESS => Some(0xc0230022),
            NtStatusWindows::STATUS_NDIS_PAUSED => Some(0xc023002a),
            NtStatusWindows::STATUS_NDIS_INTERFACE_NOT_FOUND => Some(0xc023002b),
            NtStatusWindows::STATUS_NDIS_UNSUPPORTED_REVISION => Some(0xc023002c),
            NtStatusWindows::STATUS_NDIS_INVALID_PORT => Some(0xc023002d),
            NtStatusWindows::STATUS_NDIS_INVALID_PORT_STATE => Some(0xc023002e),
            NtStatusWindows::STATUS_NDIS_LOW_POWER_STATE => Some(0xc023002f),
            NtStatusWindows::STATUS_NDIS_REINIT_REQUIRED => Some(0xc0230030),
            NtStatusWindows::STATUS_NDIS_NO_QUEUES => Some(0xc0230031),
            NtStatusWindows::STATUS_NDIS_NOT_SUPPORTED => Some(0xc02300bb),
            NtStatusWindows::STATUS_NDIS_OFFLOAD_POLICY => Some(0xc023100f),
            NtStatusWindows::STATUS_NDIS_OFFLOAD_CONNECTION_REJECTED => Some(0xc0231012),
            NtStatusWindows::STATUS_NDIS_OFFLOAD_PATH_REJECTED => Some(0xc0231013),
            NtStatusWindows::STATUS_NDIS_DOT11_AUTO_CONFIG_ENABLED => Some(0xc0232000),
            NtStatusWindows::STATUS_NDIS_DOT11_MEDIA_IN_USE => Some(0xc0232001),
            NtStatusWindows::STATUS_NDIS_DOT11_POWER_STATE_INVALID => Some(0xc0232002),
            NtStatusWindows::STATUS_NDIS_PM_WOL_PATTERN_LIST_FULL => Some(0xc0232003),
            NtStatusWindows::STATUS_NDIS_PM_PROTOCOL_OFFLOAD_LIST_FULL => Some(0xc0232004),
            NtStatusWindows::STATUS_NDIS_DOT11_AP_CHANNEL_CURRENTLY_NOT_AVAILABLE => Some(0xc0232005),
            NtStatusWindows::STATUS_NDIS_DOT11_AP_BAND_CURRENTLY_NOT_AVAILABLE => Some(0xc0232006),
            NtStatusWindows::STATUS_NDIS_DOT11_AP_CHANNEL_NOT_ALLOWED => Some(0xc0232007),
            NtStatusWindows::STATUS_NDIS_DOT11_AP_BAND_NOT_ALLOWED => Some(0xc0232008),
            NtStatusWindows::STATUS_QUIC_HANDSHAKE_FAILURE => Some(0xc0240000),
            NtStatusWindows::STATUS_QUIC_VER_NEG_FAILURE => Some(0xc0240001),
            NtStatusWindows::STATUS_TPM_ERROR_MASK => Some(0xc0290000),
            NtStatusWindows::STATUS_TPM_AUTHFAIL => Some(0xc0290001),
            NtStatusWindows::STATUS_TPM_BADINDEX => Some(0xc0290002),
            NtStatusWindows::STATUS_TPM_BAD_PARAMETER => Some(0xc0290003),
            NtStatusWindows::STATUS_TPM_AUDITFAILURE => Some(0xc0290004),
            _ => None,
        }
    }

    /// One slice of the symbol table: the symbol this slice gives a
    /// raw value, where it holds one.
    pub open spec fn spec_from_u32_part40(raw: u32) -> Option<NtStatusWindows> {
        match raw {
            0xc0230008 => Some(NtStatusWindows::STATUS_NDIS_DEVICE_FAILED),
            0xc0230009 => Some(NtStatusWindows::STATUS_NDIS_MULTICAST_FULL),
            0xc023000a => Some(NtStatusWindows::STATUS_NDIS_MULTICAST_EXISTS),
            0xc023000b => Some(NtStatusWindows::STATUS_NDIS_MULTICAST_NOT_FOUND),
            0xc023000c => Some(NtStatusWindows::STATUS_NDIS_REQUEST_ABORTED),
            0xc023000d => Some(NtStatusWindows::STATUS_NDIS_RESET_IN_PROGRESS),
            0xc023000f => Some(NtStatusWindows::STATUS_NDIS_INVALID_PACKET),
            0xc0230010 => Some(NtStatusWindows::STATUS_NDIS_INVALID_DEVICE_REQUEST),
            0xc0230011 => Some(NtStatusWindows::STATUS_NDIS_ADAPTER_NOT_READY),
            0xc0230014 => Some(NtStatusWindows::STATUS_NDIS_INVALID_LENGTH),
            0xc0230015 => Some(NtStatusWindows::STATUS_NDIS_INVALID_DATA),
            0xc0230016 => Some(NtStatusWindows::STATUS_NDIS_BUFFER_TOO_SHORT),
            0xc0230017 => Some(NtStatusWindows::STATUS_NDIS_INVALID_OID),
            0xc0230018 => Some(NtStatusWindows::STATUS_NDIS_ADAPTER_REMOVED),
            0xc0230019 => Some(NtStatusWindows::STATUS_NDIS_UNSUPPORTED_MEDIA),
            0xc023001a => Some(NtStatusWindows::STATUS_NDIS_GROUP_ADDRESS_IN_USE),
            0xc023001b => Some(NtStatusWindows::STATUS_NDIS_FILE_NOT_FOUND),
            0xc023001c => Some(NtStatusWindows::STATUS_NDIS_ERROR_READING_FILE),
            0xc023001d => Some(NtStatusWindows::STATUS_NDIS_ALREADY_MAPPED),
            0xc023001e => Some(NtStatusWindows::STATUS_NDIS_RESOURCE_CONFLICT),
            0xc023001f => Some(NtStatusWindows::STATUS_NDIS_MEDIA_DISCONNECTED),
            0xc0230022 => Some(NtStatusWindows::STATUS_NDIS_INVALID_ADDRESS),
            0xc023002a => Some(NtStatusWindows::STATUS_NDIS_PAUSED),
            0xc023002b => Some(NtStatusWindows::STATUS_NDIS_INTERFACE_NOT_FOUND),
            0xc023002c => Some(NtStatusWindows::STATUS_NDIS_UNSUPPORTED_REVISION),
            0xc023002d => Some(NtStatusWindows::STATUS_NDIS_INVALID_PORT),
            0xc023002e => Some(NtStatusWindows::STATUS_NDIS_INVALID_PORT_STATE),
            0xc023002f => Some(NtStatusWindows::STATUS_NDIS_LOW_POWER_STATE),
            0xc0230030 => Some(NtStatusWindows::STATUS_NDIS_REINIT_REQUIRED),
            0xc0230031 => Some(NtStatusWindows::STATUS_NDIS_NO_QUEUES),
            0xc02300bb => Some(NtStatusWindows::STATUS_NDIS_NOT_SUPPORTED),
            0xc023100f => Some(NtStatusWindows::STATUS_NDIS_OFFLOAD_POLICY),
            0xc0231012 => Some(NtStatusWindows::STATUS_NDIS_OFFLOAD_CONNECTION_REJECTED),
            0xc0231013 => Some(NtStatusWindows::STATUS_NDIS_OFFLOAD_PATH_REJECTED),
            0xc0232000 => Some(NtStatusWindows::STATUS_NDIS_DOT11_AUTO_CONFIG_ENABLED),
            0xc0232001 => Some(NtStatusWindows::STATUS_NDIS_DOT11_MEDIA_IN_USE),
            0xc0232002 => Some(NtStatusWindows::STATUS_NDIS_DOT11_POWER_STATE_INVALID),
            0xc0232003 => Some(NtStatusWindows::STATUS_NDIS_PM_WOL_PATTERN_LIST_FULL),
            0xc0232004 => Some(NtStatusWindows::STATUS_NDIS_PM_PROTOCOL_OFFLOAD_LIST_FULL),
            0xc0232005 => Some(NtStatusWindows::STATUS_NDIS_DOT11_AP_CHANNEL_CURRENTLY_NOT_AVAILABLE),
            0xc0232006 => Some(NtStatusWindows::STATUS_NDIS_DOT11_AP_BAND_CURRENTLY_NOT_AVAILABLE),
            0xc0232007 => Some(NtStatusWindows::STATUS_NDIS_DOT11_AP_CHANNEL_NOT_ALLOWED),
            0xc0232008 => Some(NtStatusWindows::STATUS_NDIS_DOT11_AP_BAND_NOT_ALLOWED),
            0xc0240000 => Some(NtStatusWindows::STATUS_QUIC_HANDSHAKE_FAILURE),
            0xc0240001 => Some(NtStatusWindows::STATUS_QUIC_VER_NEG_FAILURE),
            0xc0290000 => Some(NtStatusWindows::STATUS_TPM_ERROR_MASK),
            0xc0290001 => Some(NtStatusWindows::STATUS_TPM_AUTHFAIL),
            0xc0290002 => Some(NtStatusWindows::STATUS_TPM_BADINDEX),
            0xc0290003 => Some(NtStatusWindows::STATUS_TPM_BAD_PARAMETER),
            0xc0290004 => Some(NtStatusWindows::STATUS_TPM_AUDITFAILURE),
            _ => None,
        }
    }

    /// One slice of the symbol table.
    #[verifier::spinoff_prover]
    #[verifier::rlimit(100)]
    fn to_u32_part40(self) -> (r: Option<u32>)
        ensures
            r == self.spec_to_u32_part40(),
    {
        match self {
            NtStatusWindows::STATUS_NDIS_DEVICE_FAILED => Some(0xc0230008),
            NtStatusWindows::STATUS_NDIS_MULTICAST_FULL => Some(0xc0230009),
            NtStatusWindows::STATUS_NDIS_MULTICAST_EXISTS => Some(0xc023000a),
            NtStatusWindows::STATUS_NDIS_MULTICAST_NOT_FOUND => Some(0xc023000b),
            NtStatusWindows::STATUS_NDIS_REQUEST_ABORTED => Some(0xc023000c),
            NtStatusWindows::STATUS_NDIS_RESET_IN_PROGRESS => Some(0xc023000d),
            NtStatusWindows::STATUS_NDIS_INVALID_PACKET => Some(0xc023000f),
            NtStatusWindows::STATUS_NDIS_INVALID_DEVICE_REQUEST => Some(0xc0230010),
            NtStatusWindows::STATUS_NDIS_ADAPTER_NOT_READY => Some(0xc0230011),
            NtStatusWindows::STATUS_NDIS_INVALID_LENGTH => Some(0xc0230014),
            NtStatusWindows::STATUS_NDIS_INVALID_DATA => Some(0xc0230015),
            NtStatusWindows::STATUS_NDIS_BUFFER_TOO_SHORT => Some(0xc0230016),
            NtStatusWindows::STATUS_NDIS_INVALID_OID => Some(0xc0230017),
            NtStatusWindows::STATUS_NDIS_ADAPTER_REMOVED => Some(0xc0230018),
            NtStatusWindows::STATUS_NDIS_UNSUPPORTED_MEDIA => Some(0xc0230019),
            NtStatusWindows::STATUS_NDIS_GROUP_ADDRESS_IN_USE => Some(0xc023001a),
            NtStatusWindows::STATUS_NDIS_FILE_NOT_FOUND => Some(0xc023001b),
            NtStatusWindows::STATUS_NDIS_ERROR_READING_FILE => Some(0xc023001c),
            NtStatusWindows::STATUS_NDIS_ALREADY_MAPPED => Some(0xc023001d),
            NtStatusWindows::STATUS_NDIS_RESOURCE_CONFLICT => Some(0xc023001e),
            NtStatusWindows::STATUS_NDIS_MEDIA_DISCONNECTED => Some(0xc023001f),
            NtStatusWindows::STATUS_NDIS_INVALID_ADDRESS => Some(0xc0230022),
            NtStatusWindows::STATUS_NDIS_PAUSED => Some(0xc023002a),
            NtStatusWindows::STATUS_NDIS_INTERFACE_NOT_FOUND => Some(0xc023002b),
            NtStatusWindows::STATUS_NDIS_UNSUPPORTED_REVISION => Some(0xc023002c),
            NtStatusWindows::STATUS_NDIS_INVALID_PORT => Some(0xc023002d),
            NtStatusWindows::STATUS_NDIS_INVALID_PORT_STATE => Some(0xc023002e),
            NtStatusWindows::STATUS_NDIS_LOW_POWER_STATE => Some(0xc023002f),
            NtStatusWindows::STATUS_NDIS_REINIT_REQUIRED => Some(0xc0230030),
            NtStatusWindows::STATUS_NDIS_NO_QUEUES => Some(0xc0230031),
            NtStatusWindows::STATUS_NDIS_NOT_SUPPORTED => Some(0xc02300bb),
            NtStatusWindows::STATUS_NDIS_OFFLOAD_POLICY => Some(0xc023100f),
            NtStatusWindows::STATUS_NDIS_OFFLOAD_CONNECTION_REJECTED => Some(0xc0231012),
            NtStatusWindows::STATUS_NDIS_OFFLOAD_PATH_REJECTED => Some(0xc0231013),
            NtStatusWindows::STATUS_NDIS_DOT11_AUTO_CONFIG_ENABLED => Some(0xc0232000),
            NtStatusWindows::STATUS_NDIS_DOT11_MEDIA_IN_USE => Some(0xc0232001),
            NtStatusWindows::STATUS_NDIS_DOT11_POWER_STATE_INVALID => Some(0xc0232002),
            NtStatusWindows::STATUS_NDIS_PM_WOL_PATTERN_LIST_FULL => Some(0xc0232003),
            NtStatusWindows::STATUS_NDIS_PM_PROTOCOL_OFFLOAD_LIST_FULL => Some(0xc0232004),
            NtStatusWindows::STATUS_NDIS_DOT11_AP_CHANNEL_CURRENTLY_NOT_AVAILABLE => Some(0xc0232005),
            NtStatusWindows::STATUS_NDIS_DOT11_AP_BAND_CURRENTLY_NOT_AVAILABLE => Some(0xc0232006),
            NtStatusWindows::STATUS_NDIS_DOT11_AP_CHANNEL_NOT_ALLOWED => Some(0xc0232007),
            NtStatusWindows::STATUS_NDIS_DOT11_AP_BAND_NOT_ALLOWED => Some(0xc0232008),
            NtStatusWindows::STATUS_QUIC_HANDSHAKE_FAILURE => Some(0xc0240000),
            NtStatusWindows::STATUS_QUIC_VER_NEG_FAILURE => Some(0xc0240001),
            NtStatusWindows::STATUS_TPM_ERROR_MASK => Some(0xc0290000),
            NtStatusWindows::STATUS_TPM_AUTHFAIL => Some(0xc0290001),
            NtStatusWindows::STATUS_TPM_BADINDEX => Some(0xc0290002),
            NtStatusWindows::STATUS_TPM_BAD_PARAMETER => Some(0xc0290003),
            NtStatusWindows::STATUS_TPM_AUDITFAILURE => Some(0xc0290004),
            _ => None,
        }
    }

    /// One slice of the symbol table.
    #[verifier::spinoff_prover]
    #[verifier::rlimit(100)]
    fn from_u32_part40(raw: u32) -> (r: Option<NtStatusWindows>)
        ensures
            r == NtStatusWindows::spec_from_u32_part40(raw),
    {
        match raw {
            0xc0230008 => Some(NtStatusWindows::STATUS_NDIS_DEVICE_FAILED),
            0xc0230009 => Some(NtStatusWindows::STATUS_NDIS_MULTICAST_FULL),
            0xc023000a => Some(NtStatusWindows::STATUS_NDIS_MULTICAST_EXISTS),
            0xc023000b => Some(NtStatusWindows::STATUS_NDIS_MULTICAST_NOT_FOUND),
            0xc023000c => Some(NtStatusWindows::STATUS_NDIS_REQUEST_ABORTED),
            0xc023000d => Some(NtStatusWindows::STATUS_NDIS_RESET_IN_PROGRESS),
            0xc023000f => Some(NtStatusWindows::STATUS_NDIS_INVALID_PACKET),
            0xc0230010 => Some(NtStatusWindows::STATUS_NDIS_INVALID_DEVICE_REQUEST),
            0xc0230011 => Some(NtStatusWindows::STATUS_NDIS_ADAPTER_NOT_READY),
            0xc0230014 => Some(NtStatusWindows::STATUS_NDIS_INVALID_LENGTH),
            0xc0230015 => Some(NtStatusWindows::STATUS_NDIS_INVALID_DATA),
            0xc0230016 => Some(NtStatusWindows::STATUS_NDIS_BUFFER_TOO_SHORT),
            0xc0230017 => Some(NtStatusWindows::STATUS_NDIS_INVALID_OID),
            0xc0230018 => Some(NtStatusWindows::STATUS_NDIS_ADAPTER_REMOVED),
            0xc0230019 => Some(NtStatusWindows::STATUS_NDIS_UNSUPPORTED_MEDIA),
            0xc023001a => Some(NtStatusWindows::STATUS_NDIS_GROUP_ADDRESS_IN_USE),
            0xc023001b => Some(NtStatusWindows::STATUS_NDIS_FILE_NOT_FOUND),
            0xc023001c => Some(NtStatusWindows::STATUS_NDIS_ERROR_READING_FILE),
            0xc023001d => Some(NtStatusWindows::STATUS_NDIS_ALREADY_MAPPED),
            0xc023001e => Some(NtStatusWindows::STATUS_NDIS_RESOURCE_CONFLICT),
            0xc023001f => Some(NtStatusWindows::STATUS_NDIS_MEDIA_DISCONNECTED),
            0xc0230022 => Some(NtStatusWindows::STATUS_NDIS_INVALID_ADDRESS),
            0xc023002a => Some(NtStatusWindows::STATUS_NDIS_PAUSED),
            0xc023002b => Some(NtStatusWindows::STATUS_NDIS_INTERFACE_NOT_FOUND),
            0xc023002c => Some(NtStatusWindows::STATUS_NDIS_UNSUPPORTED_REVISION),
            0xc023002d => Some(NtStatusWindows::STATUS_NDIS_INVALID_PORT),
            0xc023002e => Some(NtStatusWindows::STATUS_NDIS_INVALID_PORT_STATE),
            0xc023002f => Some(NtStatusWindows::STATUS_NDIS_LOW_POWER_STATE),
            0xc0230030 => Some(NtStatusWindows::STATUS_NDIS_REINIT_REQUIRED),
            0xc0230031 => Some(NtStatusWindows::STATUS_NDIS_NO_QUEUES),
            0xc02300bb => Some(NtStatusWindows::STATUS_NDIS_NOT_SUPPORTED),
            0xc023100f => Some(NtStatusWindows::STATUS_NDIS_OFFLOAD_POLICY),
            0xc0231012 => Some(NtStatusWindows::STATUS_NDIS_OFFLOAD_CONNECTION_REJECTED),
            0xc0231013 => Some(NtStatusWindows::STATUS_NDIS_OFFLOAD_PATH_REJECTED),
            0xc0232000 => Some(NtStatusWindows::STATUS_NDIS_DOT11_AUTO_CONFIG_ENABLED),
            0xc0232001 => Some(NtStatusWindows::STATUS_NDIS_DOT11_MEDIA_IN_USE),
            0xc0232002 => Some(NtStatusWindows::STATUS_NDIS_DOT11_POWER_STATE_INVALID),
            0xc0232003 => Some(NtStatusWindows::STATUS_NDIS_PM_WOL_PATTERN_LIST_FULL),
            0xc0232004 => Some(NtStatusWindows::STATUS_NDIS_PM_PROTOCOL_OFFLOAD_LIST_FULL),
            0xc0232005 => Some(NtStatusWindows::STATUS_NDIS_DOT11_AP_CHANNEL_CURRENTLY_NOT_AVAILABLE),
            0xc0232006 => Some(NtStatusWindows::STATUS_NDIS_DOT11_AP_BAND_CURRENTLY_NOT_AVAILABLE),
            0xc0232007 => Some(NtStatusWindows::STATUS_NDIS_DOT11_AP_CHANNEL_NOT_ALLOWED),
            0xc0232008 => Some(NtStatusWindows::STATUS_NDIS_DOT11_AP_BAND_NOT_ALLOWED),
            0xc0240000 => Some(NtStatusWindows::STATUS_QUIC_HANDSHAKE_FAILURE),
            0xc0240001 => Some(NtStatusWindows::STATUS_QUIC_VER_NEG_FAILURE),
            0xc0290000 => Some(NtStatusWindows::STATUS_TPM_ERROR_MASK),
            0xc0290001 => Some(NtStatusWindows::STATUS_TPM_AUTHFAIL),
            0xc0290002 => Some(NtStatusWindows::STATUS_TPM_BADINDEX),
            0xc0290003 => Some(NtStatusWindows::STATUS_TPM_BAD_PARAMETER),
            0xc0290004 => Some(NtStatusWindows::STATUS_TPM_AUDITFAILURE),
            _ => None,
        }
    }

    /// One slice of the symbol table: the raw value of this symbol,
    /// where this slice holds it.
    pub open spec fn spec_to_u32_part41(self) -> Option<u32> {
        match self {
            NtStatusWindows::STATUS_TPM_CLEAR_DISABLED => Some(0xc0290005),
            NtStatusWindows::STATUS_TPM_DEACTIVATED => Some(0xc0290006),
            NtStatusWindows::STATUS_TPM_DISABLED => Some(0xc0290007),
            NtStatusWindows::STATUS_TPM_DISABLED_CMD => Some(0xc0290008),
            NtStatusWindows::STATUS_TPM_FAIL => Some(0xc0290009),
            NtStatusWindows::STATUS_TPM_BAD_ORDINAL => Some(0xc029000a),
            NtStatusWindows::STATUS_TPM_INSTALL_DISABLED => Some(0xc029000b),
            NtStatusWindows::STATUS_TPM_INVALID_KEYHANDLE => Some(0xc029000c),
            NtStatusWindows::STATUS_TPM_KEYNOTFOUND => Some(0xc029000d),
            NtStatusWindows::STATUS_TPM_INAPPROPRIATE_ENC => Some(0xc029000e),
            NtStatusWindows::STATUS_TPM_MIGRATEFAIL => Some(0xc029000f),
            NtStatusWindows::STATUS_TPM_INVALID_PCR_INFO => Some(0xc0290010),
            NtStatusWindows::STATUS_TPM_NOSPACE => Some(0xc0290011),
            NtStatusWindows::STATUS_TPM_NOSRK => Some(0xc0290012),
            NtStatusWindows::STATUS_TPM_NOTSEALED_BLOB => Some(0xc0290013),
            NtStatusWindows::STATUS_TPM_OWNER_SET => Some(0xc0290014),
            NtStatusWindows::STATUS_TPM_RESOURCES => Some(0xc0290015),
            NtStatusWindows::STATUS_TPM_SHORTRANDOM => Some(0xc0290016),
            NtStatusWindows::STATUS_TPM_SIZE => Some(0xc0290017),
            NtStatusWindows::STATUS_TPM_WRONGPCRVAL => Some(0xc0290018),
            NtStatusWindows::STATUS_TPM_BAD_PARAM_SIZE => Some(0xc0290019),
            NtStatusWindows::STATUS_TPM_SHA_THREAD => Some(0xc029001a),
            NtStatusWindows::STATUS_TPM_SHA_ERROR => Some(0xc029001b),
            NtStatusWindows::STATUS_TPM_FAILEDSELFTEST => Some(0xc029001c),
            NtStatusWindows::STATUS_TPM_AUTH2FAIL => Some(0xc029001d),
            NtStatusWindows::STATUS_TPM_BADTAG => Some(0xc029001e),
            NtStatusWindows::STATUS_TPM_IOERROR => Some(0xc029001f),
            NtStatusWindows::STATUS_TPM_ENCRYPT_ERROR => Some(0xc0290020),
            NtStatusWindows::STATUS_TPM_DECRYPT_ERROR => Some(0xc0290021),
            NtStatusWindows::STATUS_TPM_INVALID_AUTHHANDLE => Some(0xc0290022),
            NtStatusWindows::STATUS_TPM_NO_ENDORSEMENT => Some(0xc0290023),
            NtStatusWindows::STATUS_TPM_INVALID_KEYUSAGE => Some(0xc0290024),
            NtStatusWindows::STATUS_TPM_WRONG_ENTITYTYPE => Some(0xc0290025),
            NtStatusWindows::STATUS_TPM_INVALID_POSTINIT => Some(0xc0290026),
            NtStatusWindows::STATUS_TPM_INAPPROPRIATE_SIG => Some(0xc0290027),
            NtStatusWindows::STATUS_TPM_BAD_KEY_PROPERTY => Some(0xc0290028),
            NtStatusWindows::STATUS_TPM_BAD_MIGRATION => Some(0xc0290029),
            NtStatusWindows::STATUS_TPM_BAD_SCHEME => Some(0xc029002a),
            NtStatusWindows::STATUS_TPM_BAD_DATASIZE => Some(0xc029002b),
            NtStatusWindows::STATUS_TPM_BAD_MODE => Some(0xc029002c),
            NtStatusWindows::STATUS_TPM_BAD_PRESENCE => Some(0xc029002d),
            NtStatusWindows::STATUS_TPM_BAD_VERSION => Some(0xc029002e),
            NtStatusWindows::STATUS_TPM_NO_WRAP_TRANSPORT => Some(0xc029002f),
            NtStatusWindows::STATUS_TPM_AUDITFAIL_UNSUCCESSFUL => Some(0xc0290030),
            NtStatusWindows::STATUS_TPM_AUDITFAIL_SUCCESSFUL => Some(0xc0290031),
            NtStatusWindows::STATUS_TPM_NOTRESETABLE => Some(0xc0290032),
            NtStatusWindows::STATUS_TPM_NOTLOCAL => Some(0xc0290033),
            NtStatusWindows::STATUS_TPM_BAD_TYPE => Some(0xc0290034),
            NtStatusWindows::STATUS_TPM_INVALID_RESOURCE => Some(0xc0290035),
            NtStatusWindows::STATUS_TPM_NOTFIPS => Some(0xc0290036),
            _ => None,
        }
    }

    /// One slice of the symbol table: the symbol this slice gives a
    /// raw value, where it holds one.
    pub open spec fn spec_from_u32_part41(raw: u32) -> Option<NtStatusWindows> {
        match raw {
            0xc0290005 => Some(NtStatusWindows::STATUS_TPM_CLEAR_DISABLED),
            0xc0290006 => Some(NtStatusWindows::STATUS_TPM_DEACTIVATED),
            0xc0290007 => Some(NtStatusWindows::STATUS_TPM_DISABLED),
            0xc0290008 => Some(NtStatusWindows::STATUS_TPM_DISABLED_CMD),
            0xc0290009 => Some(NtStatusWindows::STATUS_TPM_FAIL),
            0xc029000a => Some(NtStatusWindows::STATUS_TPM_BAD_ORDINAL),
            0xc029000b => Some(NtStatusWindows::STATUS_TPM_INSTALL_DISABLED),
            0xc029000c => Some(NtStatusWindows::STATUS_TPM_INVALID_KEYHANDLE),
            0xc029000d => Some(NtStatusWindows::STATUS_TPM_KEYNOTFOUND),
            0xc029000e => Some(NtStatusWindows::STATUS_TPM_INAPPROPRIATE_ENC),
            0xc029000f => Some(NtStatusWindows::STATUS_TPM_MIGRATEFAIL),
            0xc0290010 => Some(NtStatusWindows::STATUS_TPM_INVALID_PCR_INFO),
            0xc0290011 => Some(NtStatusWindows::STATUS_TPM_NOSPACE),
            0xc0290012 => Some(NtStatusWindows::STATUS_TPM_NOSRK),
            0xc0290013 => Some(NtStatusWindows::STATUS_TPM_NOTSEALED_BLOB),
            0xc0290014 => Some(NtStatusWindows::STATUS_TPM_OWNER_SET),
            0xc0290015 => Some(NtStatusWindows::STATUS_TPM_RESOURCES),
            0xc0290016 => Some(NtStatusWindows::STATUS_TPM_SHORTRANDOM),
            0xc0290017 => Some(NtStatusWindows::STATUS_TPM_SIZE),
            0xc0290018 => Some(NtStatusWindows::STATUS_TPM_WRONGPCRVAL),
            0xc0290019 => Some(NtStatusWindows::STATUS_TPM_BAD_PARAM_SIZE),
            0xc029001a => Some(NtStatusWindows::STATUS_TPM_SHA_THREAD),
            0xc029001b => Some(NtStatusWindows::STATUS_TPM_SHA_ERROR),
            0xc029001c => Some(NtStatusWindows::STATUS_TPM_FAILEDSELFTEST),
            0xc029001d => Some(NtStatusWindows::STATUS_TPM_AUTH2FAIL),
            0xc029001e => Some(NtStatusWindows::STATUS_TPM_BADTAG),
            0xc029001f => Some(NtStatusWindows::STATUS_TPM_IOERROR),
            0xc0290020 => Some(NtStatusWindows::STATUS_TPM_ENCRYPT_ERROR),
            0xc0290021 => Some(NtStatusWindows::STATUS_TPM_DECRYPT_ERROR),
            0xc0290022 => Some(NtStatusWindows::STATUS_TPM_INVALID_AUTHHANDLE),
            0xc0290023 => Some(NtStatusWindows::STATUS_TPM_NO_ENDORSEMENT),
            0xc0290024 => Some(NtStatusWindows::STATUS_TPM_INVALID_KEYUSAGE),
            0xc0290025 => Some(NtStatusWindows::STATUS_TPM_WRONG_ENTITYTYPE),
            0xc0290026 => Some(NtStatusWindows::STATUS_TPM_INVALID_POSTINIT),
            0xc0290027 => Some(NtStatusWindows::STATUS_TPM_INAPPROPRIATE_SIG),
            0xc0290028 => Some(NtStatusWindows::STATUS_TPM_BAD_KEY_PROPERTY),
            0xc0290029 => Some(NtStatusWindows::STATUS_TPM_BAD_MIGRATION),
            0xc029002a => Some(NtStatusWindows::STATUS_TPM_BAD_SCHEME),
            0xc029002b => Some(NtStatusWindows::STATUS_TPM_BAD_DATASIZE),
            0xc029002c => Some(NtStatusWindows::STATUS_TPM_BAD_MODE),
            0xc029002d => Some(NtStatusWindows::STATUS_TPM_BAD_PRESENCE),
            0xc029002e => Some(NtStatusWindows::STATUS_TPM_BAD_VERSION),
            0xc029002f => Some(NtStatusWindows::STATUS_TPM_NO_WRAP_TRANSPORT),
            0xc0290030 => Some(NtStatusWindows::STATUS_TPM_AUDITFAIL_UNSUCCESSFUL),
            0xc0290031 => Some(NtStatusWindows::STATUS_TPM_AUDITFAIL_SUCCESSFUL),
            0xc0290032 => Some(NtStatusWindows::STATUS_TPM_NOTRESETABLE),
            0xc0290033 => Some(NtStatusWindows::STATUS_TPM_NOTLOCAL),
            0xc0290034 => Some(NtStatusWindows::STATUS_TPM_BAD_TYPE),
            0xc0290035 => Some(NtStatusWindows::STATUS_TPM_INVALID_RESOURCE),
            0xc0290036 => Some(NtStatusWindows::STATUS_TPM_NOTFIPS),
            _ => None,
        }
    }

    /// One slice of the symbol table.
    #[verifier::spinoff_prover]
    #[verifier::rlimit(100)]
    fn to_u32_part41(self) -> (r: Option<u32>)
        ensures
            r == self.spec_to_u32_part41(),
    {
        match self {
            NtStatusWindows::STATUS_TPM_CLEAR_DISABLED => Some(0xc0290005),
            NtStatusWindows::STATUS_TPM_DEACTIVATED => Some(0xc0290006),
            NtStatusWindows::STATUS_TPM_DISABLED => Some(0xc0290007),
            NtStatusWindows::STATUS_TPM_DISABLED_CMD => Some(0xc0290008),
            NtStatusWindows::STATUS_TPM_FAIL => Some(0xc0290009),
            NtStatusWindows::STATUS_TPM_BAD_ORDINAL => Some(0xc029000a),
            NtStatusWindows::STATUS_TPM_INSTALL_DISABLED => Some(0xc029000b),
            NtStatusWindows::STATUS_TPM_INVALID_KEYHANDLE => Some(0xc029000c),
            NtStatusWindows::STATUS_TPM_KEYNOTFOUND => Some(0xc029000d),
            NtStatusWindows::STATUS_TPM_INAPPROPRIATE_ENC => Some(0xc029000e),
            NtStatusWindows::STATUS_TPM_MIGRATEFAIL => Some(0xc029000f),
            NtStatusWindows::STATUS_TPM_INVALID_PCR_INFO => Some(0xc0290010),
            NtStatusWindows::STATUS_TPM_NOSPACE => Some(0xc0290011),
            NtStatusWindows::STATUS_TPM_NOSRK => Some(0xc0290012),
            NtStatusWindows::STATUS_TPM_NOTSEALED_BLOB => Some(0xc0290013),
            NtStatusWindows::STATUS_TPM_OWNER_SET => Some(0xc0290014),
            NtStatusWindows::STATUS_TPM_RESOURCES => Some(0xc0290015),
            NtStatusWindows::STATUS_TPM_SHORTRANDOM => Some(0xc0290016),
            NtStatusWindows::STATUS_TPM_SIZE => Some(0xc0290017),
            NtStatusWindows::STATUS_TPM_WRONGPCRVAL => Some(0xc0290018),
            NtStatusWindows::STATUS_TPM_BAD_PARAM_SIZE => Some(0xc0290019),
            NtStatusWindows::STATUS_TPM_SHA_THREAD => Some(0xc029001a),
            NtStatusWindows::STATUS_TPM_SHA_ERROR => Some(0xc029001b),
            NtStatusWindows::STATUS_TPM_FAILEDSELFTEST => Some(0xc029001c),
            NtStatusWindows::STATUS_TPM_AUTH2FAIL => Some(0xc029001d),
            NtStatusWindows::STATUS_TPM_BADTAG => Some(0xc029001e),
            NtStatusWindows::STATUS_TPM_IOERROR => Some(0xc029001f),
            NtStatusWindows::STATUS_TPM_ENCRYPT_ERROR => Some(0xc0290020),
            NtStatusWindows::STATUS_TPM_DECRYPT_ERROR => Some(0xc0290021),
            NtStatusWindows::STATUS_TPM_INVALID_AUTHHANDLE => Some(0xc0290022),
            NtStatusWindows::STATUS_TPM_NO_ENDORSEMENT => Some(0xc0290023),
            NtStatusWindows::STATUS_TPM_INVALID_KEYUSAGE => Some(0xc0290024),
            NtStatusWindows::STATUS_TPM_WRONG_ENTITYTYPE => Some(0xc0290025),
            NtStatusWindows::STATUS_TPM_INVALID_POSTINIT => Some(0xc0290026),
            NtStatusWindows::STATUS_TPM_INAPPROPRIATE_SIG => Some(0xc0290027),
            NtStatusWindows::STATUS_TPM_BAD_KEY_PROPERTY => Some(0xc0290028),
            NtStatusWindows::STATUS_TPM_BAD_MIGRATION => Some(0xc0290029),
            NtStatusWindows::STATUS_TPM_BAD_SCHEME => Some(0xc029002a),
            NtStatusWindows::STATUS_TPM_BAD_DATASIZE => Some(0xc029002b),
            NtStatusWindows::STATUS_TPM_BAD_MODE => Some(0xc029002c),
            NtStatusWindows::STATUS_TPM_BAD_PRESENCE => Some(0xc029002d),
            NtStatusWindows::STATUS_TPM_BAD_VERSION => Some(0xc029002e),
            NtStatusWindows::STATUS_TPM_NO_WRAP_TRANSPORT => Some(0xc029002f),
            NtStatusWindows::STATUS_TPM_AUDITFAIL_UNSUCCESSFUL => Some(0xc0290030),
            NtStatusWindows::STATUS_TPM_AUDITFAIL_SUCCESSFUL => Some(0xc0290031),
            NtStatusWindows::STATUS_TPM_NOTRESETABLE => Some(0xc0290032),
            NtStatusWindows::STATUS_TPM_NOTLOCAL => Some(0xc0290033),
            NtStatusWindows::STATUS_TPM_BAD_TYPE => Some(0xc0290034),
            NtStatusWindows::STATUS_TPM_INVALID_RESOURCE => Some(0xc0290035),
            NtStatusWindows::STATUS_TPM_NOTFIPS => Some(0xc0290036),
            _ => None,
        }
    }

    /// One slice of the symbol table.
    #[verifier::spinoff_prover]
    #[verifier::rlimit(100)]
    fn from_u32_part41(raw: u32) -> (r: Option<NtStatusWindows>)
        ensures
            r == NtStatusWindows::spec_from_u32_part41(raw),
    {
        match raw {
            0xc0290005 => Some(NtStatusWindows::STATUS_TPM_CLEAR_DISABLED),
            0xc0290006 => Some(NtStatusWindows::STATUS_TPM_DEACTIVATED),
            0xc0290007 => Some(NtStatusWindows::STATUS_TPM_DISABLED),
            0xc0290008 => Some(NtStatusWindows::STATUS_TPM_DISABLED_CMD),
            0xc0290009 => Some(NtStatusWindows::STATUS_TPM_FAIL),
            0xc029000a => Some(NtStatusWindows::STATUS_TPM_BAD_ORDINAL),
            0xc029000b => Some(NtStatusWindows::STATUS_TPM_INSTALL_DISABLED),
            0xc029000c => Some(NtStatusWindows::STATUS_TPM_INVALID_KEYHANDLE),
            0xc029000d => Some(NtStatusWindows::STATUS_TPM_KEYNOTFOUND),
            0xc029000e => Some(NtStatusWindows::STATUS_TPM_INAPPROPRIATE_ENC),
            0xc029000f => Some(NtStatusWindows::STATUS_TPM_MIGRATEFAIL),
            0xc0290010 => Some(NtStatusWindows::STATUS_TPM_INVALID_PCR_INFO),
            0xc0290011 => Some(NtStatusWindows::STATUS_TPM_NOSPACE),
            0xc0290012 => Some(NtStatusWindows::STATUS_TPM_NOSRK),
            0xc0290013 => Some(NtStatusWindows::STATUS_TPM_NOTSEALED_BLOB),
            0xc0290014 => Some(NtStatusWindows::STATUS_TPM_OWNER_SET),
            0xc0290015 => Some(NtStatusWindows::STATUS_TPM_RESOURCES),
            0xc0290016 => Some(NtStatusWindows::STATUS_TPM_SHORTRANDOM),
            0xc0290017 => Some(NtStatusWindows::STATUS_TPM_SIZE),
            0xc0290018 => Some(NtStatusWindows::STATUS_TPM_WRONGPCRVAL),
            0xc0290019 => Some(NtStatusWindows::STATUS_TPM_BAD_PARAM_SIZE),
            0xc029001a => Some(NtStatusWindows::STATUS_TPM_SHA_THREAD),
            0xc029001b => Some(NtStatusWindows::STATUS_TPM_SHA_ERROR),
            0xc029001c => Some(NtStatusWindows::STATUS_TPM_FAILEDSELFTEST),
            0xc029001d => Some(NtStatusWindows::STATUS_TPM_AUTH2FAIL),
            0xc029001e => Some(NtStatusWindows::STATUS_TPM_BADTAG),
            0xc029001f => Some(NtStatusWindows::STATUS_TPM_IOERROR),
            0xc0290020 => Some(NtStatusWindows::STATUS_TPM_ENCRYPT_ERROR),
            0xc0290021 => Some(NtStatusWindows::STATUS_TPM_DECRYPT_ERROR),
            0xc0290022 => Some(NtStatusWindows::STATUS_TPM_INVALID_AUTHHANDLE),
            0xc0290023 => Some(NtStatusWindows::STATUS_TPM_NO_ENDORSEMENT),
            0xc0290024 => Some(NtStatusWindows::STATUS_TPM_INVALID_KEYUSAGE),
            0xc0290025 => Some(NtStatusWindows::STATUS_TPM_WRONG_ENTITYTYPE),
            0xc0290026 => Some(NtStatusWindows::STATUS_TPM_INVALID_POSTINIT),
            0xc0290027 => Some(NtStatusWindows::STATUS_TPM_INAPPROPRIATE_SIG),
            0xc0290028 => Some(NtStatusWindows::STATUS_TPM_BAD_KEY_PROPERTY),
            0xc0290029 => Some(NtStatusWindows::STATUS_TPM_BAD_MIGRATION),
            0xc029002a => Some(NtStatusWindows::STATUS_TPM_BAD_SCHEME),
            0xc029002b => Some(NtStatusWindows::STATUS_TPM_BAD_DATASIZE),
            0xc029002c => Some(NtStatusWindows::STATUS_TPM_BAD_MODE),
            0xc029002d => Some(NtStatusWindows::STATUS_TPM_BAD_PRESENCE),
            0xc029002e => Some(NtStatusWindows::STATUS_TPM_BAD_VERSION),
            0xc029002f => Some(NtStatusWindows::STATUS_TPM_NO_WRAP_TRANSPORT),
            0xc0290030 => Some(NtStatusWindows::STATUS_TPM_AUDITFAIL_UNSUCCESSFUL),
            0xc0290031 => Some(NtStatusWindows::STATUS_TPM_AUDITFAIL_SUCCESSFUL),
            0xc0290032 => Some(NtStatusWindows::STATUS_TPM_NOTRESETABLE),
            0xc0290033 => Some(NtStatusWindows::STATUS_TPM_NOTLOCAL),
            0xc0290034 => Some(NtStatusWindows::STATUS_TPM_BAD_TYPE),
            0xc0290035 => Some(NtStatusWindows::STATUS_TPM_INVALID_RESOURCE),
            0xc0290036 => Some(NtStatusWindows::STATUS_TPM_NOTFIPS),
            _ => None,
        }
    }

    /// One slice of the symbol table: the raw value of this symbol,
    /// where this slice holds it.
    pub open spec fn spec_to_u32_part42(self) -> Option<u32> {
        match self {
            NtStatusWindows::STATUS_TPM_INVALID_FAMILY => Some(0xc0290037),
            NtStatusWindows::STATUS_TPM_NO_NV_PERMISSION => Some(0xc0290038),
            NtStatusWindows::STATUS_TPM_REQUIRES_SIGN => Some(0xc0290039),
            NtStatusWindows::STATUS_TPM_KEY_NOTSUPPORTED => Some(0xc029003a),
            NtStatusWindows::STATUS_TPM_AUTH_CONFLICT => Some(0xc029003b),
            NtStatusWindows::STATUS_TPM_AREA_LOCKED => Some(0xc029003c),
            NtStatusWindows::STATUS_TPM_BAD_LOCALITY => Some(0xc029003d),
            NtStatusWindows::STATUS_TPM_READ_ONLY => Some(0xc029003e),
            NtStatusWindows::STATUS_TPM_PER_NOWRITE => Some(0xc029003f),
            NtStatusWindows::STATUS_TPM_FAMILYCOUNT => Some(0xc0290040),
            NtStatusWindows::STATUS_TPM_WRITE_LOCKED => Some(0xc0290041),
            NtStatusWindows::STATUS_TPM_BAD_ATTRIBUTES => Some(0xc0290042),
            NtStatusWindows::STATUS_TPM_INVALID_STRUCTURE => Some(0xc0290043),
            NtStatusWindows::STATUS_TPM_KEY_OWNER_CONTROL => Some(0xc0290044),
            NtStatusWindows::STATUS_TPM_BAD_COUNTER => Some(0xc0290045),
            NtStatusWindows::STATUS_TPM_NOT_FULLWRITE => Some(0xc0290046),
            NtStatusWindows::STATUS_TPM_CONTEXT_GAP => Some(0xc0290047),
            NtStatusWindows::STATUS_TPM_MAXNVWRITES => Some(0xc0290048),
            NtStatusWindows::STATUS_TPM_NOOPERATOR => Some(0xc0290049),
            NtStatusWindows::STATUS_TPM_RESOURCEMISSING => Some(0xc029004a),
            NtStatusWindows::STATUS_TPM_DELEGATE_LOCK => Some(0xc029004b),
            NtStatusWindows::STATUS_TPM_DELEGATE_FAMILY => Some(0xc029004c),
            NtStatusWindows::STATUS_TPM_DELEGATE_ADMIN => Some(0xc029004d),
            NtStatusWindows::STATUS_TPM_TRANSPORT_NOTEXCLUSIVE => Some(0xc029004e),
            NtStatusWindows::STATUS_TPM_OWNER_CONTROL => Some(0xc029004f),
            NtStatusWindows::STATUS_TPM_DAA_RESOURCES => Some(0xc0290050),
            NtStatusWindows::STATUS_TPM_DAA_INPUT_DATA0 => Some(0xc0290051),
            NtStatusWindows::STATUS_TPM_DAA_INPUT_DATA1 => Some(0xc0290052),
            NtStatusWindows::STATUS_TPM_DAA_ISSUER_SETTINGS => Some(0xc0290053),
            NtStatusWindows::STATUS_TPM_DAA_TPM_SETTINGS => Some(0xc0290054),
            NtStatusWindows::STATUS_TPM_DAA_STAGE => Some(0xc0290055),
            NtStatusWindows::STATUS_TPM_DAA_ISSUER_VALIDITY => Some(0xc0290056),
            NtStatusWindows::STATUS_TPM_DAA_WRONG_W => Some(0xc0290057),
            NtStatusWindows::STATUS_TPM_BAD_HANDLE => Some(0xc0290058),
            NtStatusWindows::STATUS_TPM_BAD_DELEGATE => Some(0xc0290059),
            NtStatusWindows::STATUS_TPM_BADCONTEXT => Some(0xc029005a),
            NtStatusWindows::STATUS_TPM_TOOMANYCONTEXTS => Some(0xc029005b),
            NtStatusWindows::STATUS_TPM_MA_TICKET_SIGNATURE => Some(0xc029005c),
            NtStatusWindows::STATUS_TPM_MA_DESTINATION => Some(0xc029005d),
            NtStatusWindows::STATUS_TPM_MA_SOURCE => Some(0xc029005e),
            NtStatusWindows::STATUS_TPM_MA_AUTHORITY => Some(0xc029005f),
            NtStatusWindows::STATUS_TPM_PERMANENTEK => Some(0xc0290061),
            NtStatusWindows::STATUS_TPM_BAD_SIGNATURE => Some(0xc0290062),
            NtStatusWindows::STATUS_TPM_NOCONTEXTSPACE => Some(0xc0290063),
            NtStatusWindows::STATUS_TPM_20_E_ASYMMETRIC => Some(0xc0290081),
            NtStatusWindows::STATUS_TPM_20_E_ATTRIBUTES => Some(0xc0290082),
            NtStatusWindows::STATUS_TPM_20_E_HASH => Some(0xc0290083),
            NtStatusWindows::STATUS_TPM_20_E_VALUE => Some(0xc0290084),
            NtStatusWindows::STATUS_TPM_20_E_HIERARCHY => Some(0xc0290085),
            NtStatusWindows::STATUS_TPM_20_E_KEY_SIZE => Some(0xc0290087),
            _ => None,
        }
    }

    /// One slice of the symbol table: the symbol this slice gives a
    /// raw value, where it holds one.
    pub open spec fn spec_from_u32_part42(raw: u32) -> Option<NtStatusWindows> {
        match raw {
            0xc0290037 => Some(NtStatusWindows::STATUS_TPM_INVALID_FAMILY),
            0xc0290038 => Some(NtStatusWindows::STATUS_TPM_NO_NV_PERMISSION),
            0xc0290039 => Some(NtStatusWindows::STATUS_TPM_REQUIRES_SIGN),
            0xc029003a => Some(NtStatusWindows::STATUS_TPM_KEY_NOTSUPPORTED),
            0xc029003b => Some(NtStatusWindows::STATUS_TPM_AUTH_CONFLICT),
            0xc029003c => Some(NtStatusWindows::STATUS_TPM_AREA_LOCKED),
            0xc029003d => Some(NtStatusWindows::STATUS_TPM_BAD_LOCALITY),
            0xc029003e => Some(NtStatusWindows::STATUS_TPM_READ_ONLY),
            0xc029003f => Some(NtStatusWindows::STATUS_TPM_PER_NOWRITE),
            0xc0290040 => Some(NtStatusWindows::STATUS_TPM_FAMILYCOUNT),
            0xc0290041 => Some(NtStatusWindows::STATUS_TPM_WRITE_LOCKED),
            0xc0290042 => Some(NtStatusWindows::STATUS_TPM_BAD_ATTRIBUTES),
            0xc0290043 => Some(NtStatusWindows::STATUS_TPM_INVALID_STRUCTURE),
            0xc0290044 => Some(NtStatusWindows::STATUS_TPM_KEY_OWNER_CONTROL),
            0xc0290045 => Some(NtStatusWindows::STATUS_TPM_BAD_COUNTER),
            0xc0290046 => Some(NtStatusWindows::STATUS_TPM_NOT_FULLWRITE),
            0xc0290047 => Some(NtStatusWindows::STATUS_TPM_CONTEXT_GAP),
            0xc0290048 => Some(NtStatusWindows::STATUS_TPM_MAXNVWRITES),
            0xc0290049 => Some(NtStatusWindows::STATUS_TPM_NOOPERATOR),
            0xc029004a => Some(NtStatusWindows::STATUS_TPM_RESOURCEMISSING),
            0xc029004b => Some(NtStatusWindows::STATUS_TPM_DELEGATE_LOCK),
            0xc029004c => Some(NtStatusWindows::STATUS_TPM_DELEGATE_FAMILY),
            0xc029004d => Some(NtStatusWindows::STATUS_TPM_DELEGATE_ADMIN),
            0xc029004e => Some(NtStatusWindows::STATUS_TPM_TRANSPORT_NOTEXCLUSIVE),
            0xc029004f => Some(NtStatusWindows::STATUS_TPM_OWNER_CONTROL),
            0xc0290050 => Some(NtStatusWindows::STATUS_TPM_DAA_RESOURCES),
            0xc0290051 => Some(NtStatusWindows::STATUS_TPM_DAA_INPUT_DATA0),
            0xc0290052 => Some(NtStatusWindows::STATUS_TPM_DAA_INPUT_DATA1),
            0xc0290053 => Some(NtStatusWindows::STATUS_TPM_DAA_ISSUER_SETTINGS),
            0xc0290054 => Some(NtStatusWindows::STATUS_TPM_DAA_TPM_SETTINGS),
            0xc0290055 => Some(NtStatusWindows::STATUS_TPM_DAA_STAGE),
            0xc0290056 => Some(NtStatusWindows::STATUS_TPM_DAA_ISSUER_VALIDITY),
            0xc0290057 => Some(NtStatusWindows::STATUS_TPM_DAA_WRONG_W),
            0xc0290058 => Some(NtStatusWindows::STATUS_TPM_BAD_HANDLE),
            0xc0290059 => Some(NtStatusWindows::STATUS_TPM_BAD_DELEGATE),
            0xc029005a => Some(NtStatusWindows::STATUS_TPM_BADCONTEXT),
            0xc029005b => Some(NtStatusWindows::STATUS_TPM_TOOMANYCONTEXTS),
            0xc029005c => Some(NtStatusWindows::STATUS_TPM_MA_TICKET_SIGNATURE),
            0xc029005d => Some(NtStatusWindows::STATUS_TPM_MA_DESTINATION),
            0xc029005e => Some(NtStatusWindows::STATUS_TPM_MA_SOURCE),
            0xc029005f => Some(NtStatusWindows::STATUS_TPM_MA_AUTHORITY),
            0xc0290061 => Some(NtStatusWindows::STATUS_TPM_PERMANENTEK),
            0xc0290062 => Some(NtStatusWindows::STATUS_TPM_BAD_SIGNATURE),
            0xc0290063 => Some(NtStatusWindows::STATUS_TPM_NOCONTEXTSPACE),
            0xc0290081 => Some(NtStatusWindows::STATUS_TPM_20_E_ASYMMETRIC),
            0xc0290082 => Some(NtStatusWindows::STATUS_TPM_20_E_ATTRIBUTES),
            0xc0290083 => Some(NtStatusWindows::STATUS_TPM_20_E_HASH),
            0xc0290084 => Some(NtStatusWindows::STATUS_TPM_20_E_VALUE),
            0xc0290085 => Some(NtStatusWindows::STATUS_TPM_20_E_HIERARCHY),
            0xc0290087 => Some(NtStatusWindows::STATUS_TPM_20_E_KEY_SIZE),
            _ => None,
        }
    }

    /// One slice of the symbol table.
    #[verifier::spinoff_prover]
    #[verifier::rlimit(100)]
    fn to_u32_part42(self) -> (r: Option<u32>)
        ensures
            r == self.spec_to_u32_part42(),
    {
        match self {
            NtStatusWindows::STATUS_TPM_INVALID_FAMILY => Some(0xc0290037),
            NtStatusWindows::STATUS_TPM_NO_NV_PERMISSION => Some(0xc0290038),
            NtStatusWindows::STATUS_TPM_REQUIRES_SIGN => Some(0xc0290039),
            NtStatusWindows::STATUS_TPM_KEY_NOTSUPPORTED => Some(0xc029003a),
            NtStatusWindows::STATUS_TPM_AUTH_CONFLICT => Some(0xc029003b),
            NtStatusWindows::STATUS_TPM_AREA_LOCKED => Some(0xc029003c),
            NtStatusWindows::STATUS_TPM_BAD_LOCALITY => Some(0xc029003d),
            NtStatusWindows::STATUS_TPM_READ_ONLY => Some(0xc029003e),
            NtStatusWindows::STATUS_TPM_PER_NOWRITE => Some(0xc029003f),
            NtStatusWindows::STATUS_TPM_FAMILYCOUNT => Some(0xc0290040),
            NtStatusWindows::STATUS_TPM_WRITE_LOCKED => Some(0xc0290041),
            NtStatusWindows::STATUS_TPM_BAD_ATTRIBUTES => Some(0xc0290042),
            NtStatusWindows::STATUS_TPM_INVALID_STRUCTURE => Some(0xc0290043),
            NtStatusWindows::STATUS_TPM_KEY_OWNER_CONTROL => Some(0xc0290044),
            NtStatusWindows::STATUS_TPM_BAD_COUNTER => Some(0xc0290045),
            NtStatusWindows::STATUS_TPM_NOT_FULLWRITE => Some(0xc0290046),
            NtStatusWindows::STATUS_TPM_CONTEXT_GAP => Some(0xc0290047),
            NtStatusWindows::STATUS_TPM_MAXNVWRITES => Some(0xc0290048),
            NtStatusWindows::STATUS_TPM_NOOPERATOR => Some(0xc0290049),
            NtStatusWindows::STATUS_TPM_RESOURCEMISSING => Some(0xc029004a),
            NtStatusWindows::STATUS_TPM_DELEGATE_LOCK => Some(0xc029004b),
            NtStatusWindows::STATUS_TPM_DELEGATE_FAMILY => Some(0xc029004c),
            NtStatusWindows::STATUS_TPM_DELEGATE_ADMIN => Some(0xc029004d),
            NtStatusWindows::STATUS_TPM_TRANSPORT_NOTEXCLUSIVE => Some(0xc029004e),
            NtStatusWindows::STATUS_TPM_OWNER_CONTROL => Some(0xc029004f),
            NtStatusWindows::STATUS_TPM_DAA_RESOURCES => Some(0xc0290050),
            NtStatusWindows::STATUS_TPM_DAA_INPUT_DATA0 => Some(0xc0290051),
            NtStatusWindows::STATUS_TPM_DAA_INPUT_DATA1 => Some(0xc0290052),
            NtStatusWindows::STATUS_TPM_DAA_ISSUER_SETTINGS => Some(0xc0290053),
            NtStatusWindows::STATUS_TPM_DAA_TPM_SETTINGS => Some(0xc0290054),
            NtStatusWindows::STATUS_TPM_DAA_STAGE => Some(0xc0290055),
            NtStatusWindows::STATUS_TPM_DAA_ISSUER_VALIDITY => Some(0xc0290056),
            NtStatusWindows::STATUS_TPM_DAA_WRONG_W => Some(0xc0290057),
            NtStatusWindows::STATUS_TPM_BAD_HANDLE => Some(0xc0290058),
            NtStatusWindows::STATUS_TPM_BAD_DELEGATE => Some(0xc0290059),
            NtStatusWindows::STATUS_TPM_BADCONTEXT => Some(0xc029005a),
            NtStatusWindows::STATUS_TPM_TOOMANYCONTEXTS => Some(0xc029005b),
            NtStatusWindows::STATUS_TPM_MA_TICKET_SIGNATURE => Some(0xc029005c),
            NtStatusWindows::STATUS_TPM_MA_DESTINATION => Some(0xc029005d),
            NtStatusWindows::STATUS_TPM_MA_SOURCE => Some(0xc029005e),
            NtStatusWindows::STATUS_TPM_MA_AUTHORITY => Some(0xc029005f),
            NtStatusWindows::STATUS_TPM_PERMANENTEK => Some(0xc0290061),
            NtStatusWindows::STATUS_TPM_BAD_SIGNATURE => Some(0xc0290062),
            NtStatusWindows::STATUS_TPM_NOCONTEXTSPACE => Some(0xc0290063),
            NtStatusWindows::STATUS_TPM_20_E_ASYMMETRIC => Some(0xc0290081),
            NtStatusWindows::STATUS_TPM_20_E_ATTRIBUTES => Some(0xc0290082),
            NtStatusWindows::STATUS_TPM_20_E_HASH => Some(0xc0290083),
            NtStatusWindows::STATUS_TPM_20_E_VALUE => Some(0xc0290084),
            NtStatusWindows::STATUS_TPM_20_E_HIERARCHY => Some(0xc0290085),
            NtStatusWindows::STATUS_TPM_20_E_KEY_SIZE => Some(0xc0290087),
            _ => None,
        }
    }

    /// One slice of the symbol table.
    #[verifier::spinoff_prover]
    #[verifier::rlimit(100)]
    fn from_u32_part42(raw: u32) -> (r: Option<NtStatusWindows>)
        ensures
            r == NtStatusWindows::spec_from_u32_part42(raw),
    {
        match raw {
            0xc0290037 => Some(NtStatusWindows::STATUS_TPM_INVALID_FAMILY),
            0xc0290038 => Some(NtStatusWindows::STATUS_TPM_NO_NV_PERMISSION),
            0xc0290039 => Some(NtStatusWindows::STATUS_TPM_REQUIRES_SIGN),
            0xc029003a => Some(NtStatusWindows::STATUS_TPM_KEY_NOTSUPPORTED),
            0xc029003b => Some(NtStatusWindows::STATUS_TPM_AUTH_CONFLICT),
            0xc029003c => Some(NtStatusWindows::STATUS_TPM_AREA_LOCKED),
            0xc029003d => Some(NtStatusWindows::STATUS_TPM_BAD_LOCALITY),
            0xc029003e => Some(NtStatusWindows::STATUS_TPM_READ_ONLY),
            0xc029003f => Some(NtStatusWindows::STATUS_TPM_PER_NOWRITE),
            0xc0290040 => Some(NtStatusWindows::STATUS_TPM_FAMILYCOUNT),
            0xc0290041 => Some(NtStatusWindows::STATUS_TPM_WRITE_LOCKED),
            0xc0290042 => Some(NtStatusWindows::STATUS_TPM_BAD_ATTRIBUTES),
            0xc0290043 => Some(NtStatusWindows::STATUS_TPM_INVALID_STRUCTURE),
            0xc0290044 => Some(NtStatusWindows::STATUS_TPM_KEY_OWNER_CONTROL),
            0xc0290045 => Some(NtStatusWindows::STATUS_TPM_BAD_COUNTER),
            0xc0290046 => Some(NtStatusWindows::STATUS_TPM_NOT_FULLWRITE),
            0xc0290047 => Some(NtStatusWindows::STATUS_TPM_CONTEXT_GAP),
            0xc0290048 => Some(NtStatusWindows::STATUS_TPM_MAXNVWRITES),
            0xc0290049 => Some(NtStatusWindows::STATUS_TPM_NOOPERATOR),
            0xc029004a => Some(NtStatusWindows::STATUS_TPM_RESOURCEMISSING),
            0xc029004b => Some(NtStatusWindows::STATUS_TPM_DELEGATE_LOCK),
            0xc029004c => Some(NtStatusWindows::STATUS_TPM_DELEGATE_FAMILY),
            0xc029004d => Some(NtStatusWindows::STATUS_TPM_DELEGATE_ADMIN),
            0xc029004e => Some(NtStatusWindows::STATUS_TPM_TRANSPORT_NOTEXCLUSIVE),
            0xc029004f => Some(NtStatusWindows::STATUS_TPM_OWNER_CONTROL),
            0xc0290050 => Some(NtStatusWindows::STATUS_TPM_DAA_RESOURCES),
            0xc0290051 => Some(NtStatusWindows::STATUS_TPM_DAA_INPUT_DATA0),
            0xc0290052 => Some(NtStatusWindows::STATUS_TPM_DAA_INPUT_DATA1),
            0xc0290053 => Some(NtStatusWindows::STATUS_TPM_DAA_ISSUER_SETTINGS),
            0xc0290054 => Some(NtStatusWindows::STATUS_TPM_DAA_TPM_SETTINGS),
            0xc0290055 => Some(NtStatusWindows::STATUS_TPM_DAA_STAGE),
            0xc0290056 => Some(NtStatusWindows::STATUS_TPM_DAA_ISSUER_VALIDITY),
            0xc0290057 => Some(NtStatusWindows::STATUS_TPM_DAA_WRONG_W),
            0xc0290058 => Some(NtStatusWindows::STATUS_TPM_BAD_HANDLE),
            0xc0290059 => Some(NtStatusWindows::STATUS_TPM_BAD_DELEGATE),
            0xc029005a => Some(NtStatusWindows::STATUS_TPM_BADCONTEXT),
            0xc029005b => Some(NtStatusWindows::STATUS_TPM_TOOMANYCONTEXTS),
            0xc029005c => Some(NtStatusWindows::STATUS_TPM_MA_TICKET_SIGNATURE),
            0xc029005d => Some(NtStatusWindows::STATUS_TPM_MA_DESTINATION),
            0xc029005e => Some(NtStatusWindows::STATUS_TPM_MA_SOURCE),
            0xc029005f => Some(NtStatusWindows::STATUS_TPM_MA_AUTHORITY),
            0xc0290061 => Some(NtStatusWindows::STATUS_TPM_PERMANENTEK),
            0xc0290062 => Some(NtStatusWindows::STATUS_TPM_BAD_SIGNATURE),
            0xc0290063 => Some(NtStatusWindows::STATUS_TPM_NOCONTEXTSPACE),
            0xc0290081 => Some(NtStatusWindows::STATUS_TPM_20_E_ASYMMETRIC),
            0xc0290082 => Some(NtStatusWindows::STATUS_TPM_20_E_ATTRIBUTES),
            0xc0290083 => Some(NtStatusWindows::STATUS_TPM_20_E_HASH),
            0xc0290084 => Some(NtStatusWindows::STATUS_TPM_20_E_VALUE),
            0xc0290085 => Some(NtStatusWindows::STATUS_TPM_20_E_HIERARCHY),
            0xc0290087 => Some(NtStatusWindows::STATUS_TPM_20_E_KEY_SIZE),
            _ => None,
        }
    }

    /// One slice of the symbol table: the raw value of this symbol,
    /// where this slice holds it.
    pub open spec fn spec_to_u32_part43(self) -> Option<u32> {
        match self {
            NtStatusWindows::STATUS_TPM_20_E_MGF => Some(0xc0290088),
            NtStatusWindows::STATUS_TPM_20_E_MODE => Some(0xc0290089),
            NtStatusWindows::STATUS_TPM_20_E_TYPE => Some(0xc029008a),
            NtStatusWindows::STATUS_TPM_20_E_HANDLE => Some(0xc029008b),
            NtStatusWindows::STATUS_TPM_20_E_KDF => Some(0xc029008c),
            NtStatusWindows::STATUS_TPM_20_E_RANGE => Some(0xc029008d),
            NtStatusWindows::STATUS_TPM_20_E_AUTH_FAIL => Some(0xc029008e),
            NtStatusWindows::STATUS_TPM_20_E_NONCE => Some(0xc029008f),
            NtStatusWindows::STATUS_TPM_20_E_PP => Some(0xc0290090),
            NtStatusWindows::STATUS_TPM_20_E_SCHEME => Some(0xc0290092),
            NtStatusWindows::STATUS_TPM_20_E_SIZE => Some(0xc0290095),
            NtStatusWindows::STATUS_TPM_20_E_SYMMETRIC => Some(0xc0290096),
            NtStatusWindows::STATUS_TPM_20_E_TAG => Some(0xc0290097),
            NtStatusWindows::STATUS_TPM_20_E_SELECTOR => Some(0xc0290098),
            NtStatusWindows::STATUS_TPM_20_E_INSUFFICIENT => Some(0xc029009a),
            NtStatusWindows::STATUS_TPM_20_E_SIGNATURE => Some(0xc029009b),
            NtStatusWindows::STATUS_TPM_20_E_KEY => Some(0xc029009c),
            NtStatusWindows::STATUS_TPM_20_E_POLICY_FAIL => Some(0xc029009d),
            NtStatusWindows::STATUS_TPM_20_E_INTEGRITY => Some(0xc029009f),
            NtStatusWindows::STATUS_TPM_20_E_TICKET => Some(0xc02900a0),
            NtStatusWindows::STATUS_TPM_20_E_RESERVED_BITS => Some(0xc02900a1),
            NtStatusWindows::STATUS_TPM_20_E_BAD_AUTH => Some(0xc02900a2),
            NtStatusWindows::STATUS_TPM_20_E_EXPIRED => Some(0xc02900a3),
            NtStatusWindows::STATUS_TPM_20_E_POLICY_CC => Some(0xc02900a4),
            NtStatusWindows::STATUS_TPM_20_E_BINDING => Some(0xc02900a5),
            NtStatusWindows::STATUS_TPM_20_E_CURVE => Some(0xc02900a6),
            NtStatusWindows::STATUS_TPM_20_E_ECC_POINT => Some(0xc02900a7),
            NtStatusWindows::STATUS_TPM_20_E_INITIALIZE => Some(0xc0290100),
            NtStatusWindows::STATUS_TPM_20_E_FAILURE => Some(0xc0290101),
            NtStatusWindows::STATUS_TPM_20_E_SEQUENCE => Some(0xc0290103),
            NtStatusWindows::STATUS_TPM_20_E_PRIVATE => Some(0xc029010b),
            NtStatusWindows::STATUS_TPM_20_E_HMAC => Some(0xc0290119),
            NtStatusWindows::STATUS_TPM_20_E_DISABLED => Some(0xc0290120),
            NtStatusWindows::STATUS_TPM_20_E_EXCLUSIVE => Some(0xc0290121),
            NtStatusWindows::STATUS_TPM_20_E_ECC_CURVE => Some(0xc0290123),
            NtStatusWindows::STATUS_TPM_20_E_AUTH_TYPE => Some(0xc0290124),
            NtStatusWindows::STATUS_TPM_20_E_AUTH_MISSING => Some(0xc0290125),
            NtStatusWindows::STATUS_TPM_20_E_POLICY => Some(0xc0290126),
            NtStatusWindows::STATUS_TPM_20_E_PCR => Some(0xc0290127),
            NtStatusWindows::STATUS_TPM_20_E_PCR_CHANGED => Some(0xc0290128),
            NtStatusWindows::STATUS_TPM_20_E_UPGRADE => Some(0xc029012d),
            NtStatusWindows::STATUS_TPM_20_E_TOO_MANY_CONTEXTS => Some(0xc029012e),
            NtStatusWindows::STATUS_TPM_20_E_AUTH_UNAVAILABLE => Some(0xc029012f),
            NtStatusWindows::STATUS_TPM_20_E_REBOOT => Some(0xc0290130),
            NtStatusWindows::STATUS_TPM_20_E_UNBALANCED => Some(0xc0290131),
            NtStatusWindows::STATUS_TPM_20_E_COMMAND_SIZE => Some(0xc0290142),
            NtStatusWindows::STATUS_TPM_20_E_COMMAND_CODE => Some(0xc0290143),
            NtStatusWindows::STATUS_TPM_20_E_AUTHSIZE => Some(0xc0290144),
            NtStatusWindows::STATUS_TPM_20_E_AUTH_CONTEXT => Some(0xc0290145),
            NtStatusWindows::STATUS_TPM_20_E_NV_RANGE => Some(0xc0290146),
            _ => None,
        }
    }

    /// One slice of the symbol table: the symbol this slice gives a
    /// raw value, where it holds one.
    pub open spec fn spec_from_u32_part43(raw: u32) -> Option<NtStatusWindows> {
        match raw {
            0xc0290088 => Some(NtStatusWindows::STATUS_TPM_20_E_MGF),
            0xc0290089 => Some(NtStatusWindows::STATUS_TPM_20_E_MODE),
            0xc029008a => Some(NtStatusWindows::STATUS_TPM_20_E_TYPE),
            0xc029008b => Some(NtStatusWindows::STATUS_TPM_20_E_HANDLE),
            0xc029008c => Some(NtStatusWindows::STATUS_TPM_20_E_KDF),
            0xc029008d => Some(NtStatusWindows::STATUS_TPM_20_E_RANGE),
            0xc029008e => Some(NtStatusWindows::STATUS_TPM_20_E_AUTH_FAIL),
            0xc029008f => Some(NtStatusWindows::STATUS_TPM_20_E_NONCE),
            0xc0290090 => Some(NtStatusWindows::STATUS_TPM_20_E_PP),
            0xc0290092 => Some(NtStatusWindows::STATUS_TPM_20_E_SCHEME),
            0xc0290095 => Some(NtStatusWindows::STATUS_TPM_20_E_SIZE),
            0xc0290096 => Some(NtStatusWindows::STATUS_TPM_20_E_SYMMETRIC),
            0xc0290097 => Some(NtStatusWindows::STATUS_TPM_20_E_TAG),
            0xc0290098 => Some(NtStatusWindows::STATUS_TPM_20_E_SELECTOR),
            0xc029009a => Some(NtStatusWindows::STATUS_TPM_20_E_INSUFFICIENT),
            0xc029009b => Some(NtStatusWindows::STATUS_TPM_20_E_SIGNATURE),
            0xc029009c => Some(NtStatusWindows::STATUS_TPM_20_E_KEY),
            0xc029009d => Some(NtStatusWindows::STATUS_TPM_20_E_POLICY_FAIL),
            0xc029009f => Some(NtStatusWindows::STATUS_TPM_20_E_INTEGRITY),
            0xc02900a0 => Some(NtStatusWindows::STATUS_TPM_20_E_TICKET),
            0xc02900a1 => Some(NtStatusWindows::STATUS_TPM_20_E_RESERVED_BITS),
            0xc02900a2 => Some(NtStatusWindows::STATUS_TPM_20_E_BAD_AUTH),
            0xc02900a3 => Some(NtStatusWindows::STATUS_TPM_20_E_EXPIRED),
            0xc02900a4 => Some(NtStatusWindows::STATUS_TPM_20_E_POLICY_CC),
            0xc02900a5 => Some(NtStatusWindows::STATUS_TPM_20_E_BINDING),
            0xc02900a6 => Some(NtStatusWindows::STATUS_TPM_20_E_CURVE),
            0xc02900a7 => Some(NtStatusWindows::STATUS_TPM_20_E_ECC_POINT),
            0xc0290100 => Some(NtStatusWindows::STATUS_TPM_20_E_INITIALIZE),
            0xc0290101 => Some(NtStatusWindows::STATUS_TPM_20_E_FAILURE),
            0xc0290103 => Some(NtStatusWindows::STATUS_TPM_20_E_SEQUENCE),
            0xc029010b => Some(NtStatusWindows::STATUS_TPM_20_E_PRIVATE),
            0xc0290119 => Some(NtStatusWindows::STATUS_TPM_20_E_HMAC),
            0xc0290120 => Some(NtStatusWindows::STATUS_TPM_20_E_DISABLED),
            0xc0290121 => Some(NtStatusWindows::STATUS_TPM_20_E_EXCLUSIVE),
            0xc0290123 => Some(NtStatusWindows::STATUS_TPM_20_E_ECC_CURVE),
            0xc0290124 => Some(NtStatusWindows::STATUS_TPM_20_E_AUTH_TYPE),
            0xc0290125 => Some(NtStatusWindows::STATUS_TPM_20_E_AUTH_MISSING),
            0xc0290126 => Some(NtStatusWindows::STATUS_TPM_20_E_POLICY),
            0xc0290127 => Some(NtStatusWindows::STATUS_TPM_20_E_PCR),
            0xc0290128 => Some(NtStatusWindows::STATUS_TPM_20_E_PCR_CHANGED),
            0xc029012d => Some(NtStatusWindows::STATUS_TPM_20_E_UPGRADE),
            0xc029012e => Some(NtStatusWindows::STATUS_TPM_20_E_TOO_MANY_CONTEXTS),
            0xc029012f => Some(NtStatusWindows::STATUS_TPM_20_E_AUTH_UNAVAILABLE),
            0xc0290130 => Some(NtStatusWindows::STATUS_TPM_20_E_REBOOT),
            0xc0290131 => Some(NtStatusWindows::STATUS_TPM_20_E_UNBALANCED),
            0xc0290142 => Some(NtStatusWindows::STATUS_TPM_20_E_COMMAND_SIZE),
            0xc0290143 => Some(NtStatusWindows::STATUS_TPM_20_E_COMMAND_CODE),
            0xc0290144 => Some(NtStatusWindows::STATUS_TPM_20_E_AUTHSIZE),
            0xc0290145 => Some(NtStatusWindows::STATUS_TPM_20_E_AUTH_CONTEXT),
            0xc0290146 => Some(NtStatusWindows::STATUS_TPM_20_E_NV_RANGE),
            _ => None,
        }
    }

    /// One slice of the symbol table.
    #[verifier::spinoff_prover]
    #[verifier::rlimit(100)]
    fn to_u32_part43(self) -> (r: Option<u32>)
        ensures
            r == self.spec_to_u32_part43(),
    {
        match self {
            NtStatusWindows::STATUS_TPM_20_E_MGF => Some(0xc0290088),
            NtStatusWindows::STATUS_TPM_20_E_MODE => Some(0xc0290089),
            NtStatusWindows::STATUS_TPM_20_E_TYPE => Some(0xc029008a),
            NtStatusWindows::STATUS_TPM_20_E_HANDLE => Some(0xc029008b),
            NtStatusWindows::STATUS_TPM_20_E_KDF => Some(0xc029008c),
            NtStatusWindows::STATUS_TPM_20_E_RANGE => Some(0xc029008d),
            NtStatusWindows::STATUS_TPM_20_E_AUTH_FAIL => Some(0xc029008e),
            NtStatusWindows::STATUS_TPM_20_E_NONCE => Some(0xc029008f),
            NtStatusWindows::STATUS_TPM_20_E_PP => Some(0xc0290090),
            NtStatusWindows::STATUS_TPM_20_E_SCHEME => Some(0xc0290092),
            NtStatusWindows::STATUS_TPM_20_E_SIZE => Some(0xc0290095),
            NtStatusWindows::STATUS_TPM_20_E_SYMMETRIC => Some(0xc0290096),
            NtStatusWindows::STATUS_TPM_20_E_TAG => Some(0xc0290097),
            NtStatusWindows::STATUS_TPM_20_E_SELECTOR => Some(0xc0290098),
            NtStatusWindows::STATUS_TPM_20_E_INSUFFICIENT => Some(0xc029009a),
            NtStatusWindows::STATUS_TPM_20_E_SIGNATURE => Some(0xc029009b),
            NtStatusWindows::STATUS_TPM_20_E_KEY => Some(0xc029009c),
            NtStatusWindows::STATUS_TPM_20_E_POLICY_FAIL => Some(0xc029009d),
            NtStatusWindows::STATUS_TPM_20_E_INTEGRITY => Some(0xc029009f),
            NtStatusWindows::STATUS_TPM_20_E_TICKET => Some(0xc02900a0),
            NtStatusWindows::STATUS_TPM_20_E_RESERVED_BITS => Some(0xc02900a1),
            NtStatusWindows::STATUS_TPM_20_E_BAD_AUTH => Some(0xc02900a2),
            NtStatusWindows::STATUS_TPM_20_E_EXPIRED => Some(0xc02900a3),
            NtStatusWindows::STATUS_TPM_20_E_POLICY_CC => Some(0xc02900a4),
            NtStatusWindows::STATUS_TPM_20_E_BINDING => Some(0xc02900a5),
            NtStatusWindows::STATUS_TPM_20_E_CURVE => Some(0xc02900a6),
            NtStatusWindows::STATUS_TPM_20_E_ECC_POINT => Some(0xc02900a7),
            NtStatusWindows::STATUS_TPM_20_E_INITIALIZE => Some(0xc0290100),
            NtStatusWindows::STATUS_TPM_20_E_FAILURE => Some(0xc0290101),
            NtStatusWindows::STATUS_TPM_20_E_SEQUENCE => Some(0xc0290103),
            NtStatusWindows::STATUS_TPM_20_E_PRIVATE => Some(0xc029010b),
            NtStatusWindows::STATUS_TPM_20_E_HMAC => Some(0xc0290119),
            NtStatusWindows::STATUS_TPM_20_E_DISABLED => Some(0xc0290120),
            NtStatusWindows::STATUS_TPM_20_E_EXCLUSIVE => Some(0xc0290121),
            NtStatusWindows::STATUS_TPM_20_E_ECC_CURVE => Some(0xc0290123),
            NtStatusWindows::STATUS_TPM_20_E_AUTH_TYPE => Some(0xc0290124),
            NtStatusWindows::STATUS_TPM_20_E_AUTH_MISSING => Some(0xc0290125),
            NtStatusWindows::STATUS_TPM_20_E_POLICY => Some(0xc0290126),
            NtStatusWindows::STATUS_TPM_20_E_PCR => Some(0xc0290127),
            NtStatusWindows::STATUS_TPM_20_E_PCR_CHANGED => Some(0xc0290128),
            NtStatusWindows::STATUS_TPM_20_E_UPGRADE => Some(0xc029012d),
            NtStatusWindows::STATUS_TPM_20_E_TOO_MANY_CONTEXTS => Some(0xc029012e),
            NtStatusWindows::STATUS_TPM_20_E_AUTH_UNAVAILABLE => Some(0xc029012f),
            NtStatusWindows::STATUS_TPM_20_E_REBOOT => Some(0xc0290130),
            NtStatusWindows::STATUS_TPM_20_E_UNBALANCED => Some(0xc0290131),
            NtStatusWindows::STATUS_TPM_20_E_COMMAND_SIZE => Some(0xc0290142),
            NtStatusWindows::STATUS_TPM_20_E_COMMAND_CODE => Some(0xc0290143),
            NtStatusWindows::STATUS_TPM_20_E_AUTHSIZE => Some(0xc0290144),
            NtStatusWindows::STATUS_TPM_20_E_AUTH_CONTEXT => Some(0xc0290145),
            NtStatusWindows::STATUS_TPM_20_E_NV_RANGE => Some(0xc0290146),
            _ => None,
        }
    }

    /// One slice of the symbol table.
    #[verifier::spinoff_prover]
    #[verifier::rlimit(100)]
    fn from_u32_part43(raw: u32) -> (r: Option<NtStatusWindows>)
        ensures
            r == NtStatusWindows::spec_from_u32_part43(raw),
    {
        match raw {
            0xc0290088 => Some(NtStatusWindows::STATUS_TPM_20_E_MGF),
            0xc0290089 => Some(NtStatusWindows::STATUS_TPM_20_E_MODE),
            0xc029008a => Some(NtStatusWindows::STATUS_TPM_20_E_TYPE),
            0xc029008b => Some(NtStatusWindows::STATUS_TPM_20_E_HANDLE),
            0xc029008c => Some(NtStatusWindows::STATUS_TPM_20_E_KDF),
            0xc029008d => Some(NtStatusWindows::STATUS_TPM_20_E_RANGE),
            0xc029008e => Some(NtStatusWindows::STATUS_TPM_20_E_AUTH_FAIL),
            0xc029008f => Some(NtStatusWindows::STATUS_TPM_20_E_NONCE),
            0xc0290090 => Some(NtStatusWindows::STATUS_TPM_20_E_PP),
            0xc0290092 => Some(NtStatusWindows::STATUS_TPM_20_E_SCHEME),
            0xc0290095 => Some(NtStatusWindows::STATUS_TPM_20_E_SIZE),
            0xc0290096 => Some(NtStatusWindows::STATUS_TPM_20_E_SYMMETRIC),
            0xc0290097 => Some(NtStatusWindows::STATUS_TPM_20_E_TAG),
            0xc0290098 => Some(NtStatusWindows::STATUS_TPM_20_E_SELECTOR),
            0xc029009a => Some(NtStatusWindows::STATUS_TPM_20_E_INSUFFICIENT),
            0xc029009b => Some(NtStatusWindows::STATUS_TPM_20_E_SIGNATURE),
            0xc029009c => Some(NtStatusWindows::STATUS_TPM_20_E_KEY),
            0xc029009d => Some(NtStatusWindows::STATUS_TPM_20_E_POLICY_FAIL),
            0xc029009f => Some(NtStatusWindows::STATUS_TPM_20_E_INTEGRITY),
            0xc02900a0 => Some(NtStatusWindows::STATUS_TPM_20_E_TICKET),
            0xc02900a1 => Some(NtStatusWindows::STATUS_TPM_20_E_RESERVED_BITS),
            0xc02900a2 => Some(NtStatusWindows::STATUS_TPM_20_E_BAD_AUTH),
            0xc02900a3 => Some(NtStatusWindows::STATUS_TPM_20_E_EXPIRED),
            0xc02900a4 => Some(NtStatusWindows::STATUS_TPM_20_E_POLICY_CC),
            0xc02900a5 => Some(NtStatusWindows::STATUS_TPM_20_E_BINDING),
            0xc02900a6 => Some(NtStatusWindows::STATUS_TPM_20_E_CURVE),
            0xc02900a7 => Some(NtStatusWindows::STATUS_TPM_20_E_ECC_POINT),
            0xc0290100 => Some(NtStatusWindows::STATUS_TPM_20_E_INITIALIZE),
            0xc0290101 => Some(NtStatusWindows::STATUS_TPM_20_E_FAILURE),
            0xc0290103 => Some(NtStatusWindows::STATUS_TPM_20_E_SEQUENCE),
            0xc029010b => Some(NtStatusWindows::STATUS_TPM_20_E_PRIVATE),
            0xc0290119 => Some(NtStatusWindows::STATUS_TPM_20_E_HMAC),
            0xc0290120 => Some(NtStatusWindows::STATUS_TPM_20_E_DISABLED),
            0xc0290121 => Some(NtStatusWindows::STATUS_TPM_20_E_EXCLUSIVE),
            0xc0290123 => Some(NtStatusWindows::STATUS_TPM_20_E_ECC_CURVE),
            0xc0290124 => Some(NtStatusWindows::STATUS_TPM_20_E_AUTH_TYPE),
            0xc0290125 => Some(NtStatusWindows::STATUS_TPM_20_E_AUTH_MISSING),
            0xc0290126 => Some(NtStatusWindows::STATUS_TPM_20_E_POLICY),
            0xc0290127 => Some(NtStatusWindows::STATUS_TPM_20_E_PCR),
            0xc0290128 => Some(NtStatusWindows::STATUS_TPM_20_E_PCR_CHANGED),
            0xc029012d => Some(NtStatusWindows::STATUS_TPM_20_E_UPGRADE),
            0xc029012e => Some(NtStatusWindows::STATUS_TPM_20_E_TOO_MANY_CONTEXTS),
            0xc029012f => Some(NtStatusWindows::STATUS_TPM_20_E_AUTH_UNAVAILABLE),
            0xc0290130 => Some(NtStatusWindows::STATUS_TPM_20_E_REBOOT),
            0xc0290131 => Some(NtStatusWindows::STATUS_TPM_20_E_UNBALANCED),
            0xc0290142 => Some(NtStatusWindows::STATUS_TPM_20_E_COMMAND_SIZE),
            0xc0290143 => Some(NtStatusWindows::STATUS_TPM_20_E_COMMAND_CODE),
            0xc0290144 => Some(NtStatusWindows::STATUS_TPM_20_E_AUTHSIZE),
            0xc0290145 => Some(NtStatusWindows::STATUS_TPM_20_E_AUTH_CONTEXT),
            0xc0290146 => Some(NtStatusWindows::STATUS_TPM_20_E_NV_RANGE),
            _ => None,
        }
    }

    /// One slice of the symbol table: the raw value of this symbol,
    /// where this slice holds it.
    pub open spec fn spec_to_u32_part44(self) -> Option<u32> {
        match self {
            NtStatusWindows::STATUS_TPM_20_E_NV_SIZE => Some(0xc0290147),
            NtStatusWindows::STATUS_TPM_20_E_NV_LOCKED => Some(0xc0290148),
            NtStatusWindows::STATUS_TPM_20_E_NV_AUTHORIZATION => Some(0xc0290149),
            NtStatusWindows::STATUS_TPM_20_E_NV_UNINITIALIZED => Some(0xc029014a),
            NtStatusWindows::STATUS_TPM_20_E_NV_SPACE => Some(0xc029014b),
            NtStatusWindows::STATUS_TPM_20_E_NV_DEFINED => Some(0xc029014c),
            NtStatusWindows::STATUS_TPM_20_E_BAD_CONTEXT => Some(0xc0290150),
            NtStatusWindows::STATUS_TPM_20_E_CPHASH => Some(0xc0290151),
            NtStatusWindows::STATUS_TPM_20_E_PARENT => Some(0xc0290152),
            NtStatusWindows::STATUS_TPM_20_E_NEEDS_TEST => Some(0xc0290153),
            NtStatusWindows::STATUS_TPM_20_E_NO_RESULT => Some(0xc0290154),
            NtStatusWindows::STATUS_TPM_20_E_SENSITIVE => Some(0xc0290155),
            NtStatusWindows::STATUS_TPM_COMMAND_BLOCKED => Some(0xc0290400),
            NtStatusWindows::STATUS_TPM_INVALID_HANDLE => Some(0xc0290401),
            NtStatusWindows::STATUS_TPM_DUPLICATE_VHANDLE => Some(0xc0290402),
            NtStatusWindows::STATUS_TPM_EMBEDDED_COMMAND_BLOCKED => Some(0xc0290403),
            NtStatusWindows::STATUS_TPM_EMBEDDED_COMMAND_UNSUPPORTED => Some(0xc0290404),
            NtStatusWindows::STATUS_TPM_RETRY => Some(0xc0290800),
            NtStatusWindows::STATUS_TPM_NEEDS_SELFTEST => Some(0xc0290801),
            NtStatusWindows::STATUS_TPM_DOING_SELFTEST => Some(0xc0290802),
            NtStatusWindows::STATUS_TPM_DEFEND_LOCK_RUNNING => Some(0xc0290803),
            NtStatusWindows::STATUS_TPM_COMMAND_CANCELED => Some(0xc0291001),
            NtStatusWindows::STATUS_TPM_TOO_MANY_CONTEXTS => Some(0xc0291002),
            NtStatusWindows::STATUS_TPM_NOT_FOUND => Some(0xc0291003),
            NtStatusWindows::STATUS_TPM_ACCESS_DENIED => Some(0xc0291004),
            NtStatusWindows::STATUS_TPM_INSUFFICIENT_BUFFER => Some(0xc0291005),
            NtStatusWindows::STATUS_TPM_PPI_FUNCTION_UNSUPPORTED => Some(0xc0291006),
            NtStatusWindows::STATUS_PCP_ERROR_MASK => Some(0xc0292000),
            NtStatusWindows::STATUS_PCP_DEVICE_NOT_READY => Some(0xc0292001),
            NtStatusWindows::STATUS_PCP_INVALID_HANDLE => Some(0xc0292002),
            NtStatusWindows::STATUS_PCP_INVALID_PARAMETER => Some(0xc0292003),
            NtStatusWindows::STATUS_PCP_FLAG_NOT_SUPPORTED => Some(0xc0292004),
            NtStatusWindows::STATUS_PCP_NOT_SUPPORTED => Some(0xc0292005),
            NtStatusWindows::STATUS_PCP_BUFFER_TOO_SMALL => Some(0xc0292006),
            NtStatusWindows::STATUS_PCP_INTERNAL_ERROR => Some(0xc0292007),
            NtStatusWindows::STATUS_PCP_AUTHENTICATION_FAILED => Some(0xc0292008),
            NtStatusWindows::STATUS_PCP_AUTHENTICATION_IGNORED => Some(0xc0292009),
            NtStatusWindows::STATUS_PCP_POLICY_NOT_FOUND => Some(0xc029200a),
            NtStatusWindows::STATUS_PCP_PROFILE_NOT_FOUND => Some(0xc029200b),
            NtStatusWindows::STATUS_PCP_VALIDATION_FAILED => Some(0xc029200c),
            NtStatusWindows::STATUS_PCP_DEVICE_NOT_FOUND => Some(0xc029200d),
            NtStatusWindows::STATUS_PCP_WRONG_PARENT => Some(0xc029200e),
            NtStatusWindows::STATUS_PCP_KEY_NOT_LOADED => Some(0xc029200f),
            NtStatusWindows::STATUS_PCP_NO_KEY_CERTIFICATION => Some(0xc0292010),
            NtStatusWindows::STATUS_PCP_KEY_NOT_FINALIZED => Some(0xc0292011),
            NtStatusWindows::STATUS_PCP_ATTESTATION_CHALLENGE_NOT_SET => Some(0xc0292012),
            NtStatusWindows::STATUS_PCP_NOT_PCR_BOUND => Some(0xc0292013),
            NtStatusWindows::STATUS_PCP_KEY_ALREADY_FINALIZED => Some(0xc0292014),
            NtStatusWindows::STATUS_PCP_KEY_USAGE_POLICY_NOT_SUPPORTED => Some(0xc0292015),
            NtStatusWindows::STATUS_PCP_KEY_USAGE_POLICY_INVALID => Some(0xc0292016),
            _ => None,
        }
    }

    /// One slice of the symbol table: the symbol this slice gives a
    /// raw value, where it holds one.
    pub open spec fn spec_from_u32_part44(raw: u32) -> Option<NtStatusWindows> {
        match raw {
            0xc0290147 => Some(NtStatusWindows::STATUS_TPM_20_E_NV_SIZE),
            0xc0290148 => Some(NtStatusWindows::STATUS_TPM_20_E_NV_LOCKED),
            0xc0290149 => Some(NtStatusWindows::STATUS_TPM_20_E_NV_AUTHORIZATION),
            0xc029014a => Some(NtStatusWindows::STATUS_TPM_20_E_NV_UNINITIALIZED),
            0xc029014b => Some(NtStatusWindows::STATUS_TPM_20_E_NV_SPACE),
            0xc029014c => Some(NtStatusWindows::STATUS_TPM_20_E_NV_DEFINED),
            0xc0290150 => Some(NtStatusWindows::STATUS_TPM_20_E_BAD_CONTEXT),
            0xc0290151 => Some(NtStatusWindows::STATUS_TPM_20_E_CPHASH),
            0xc0290152 => Some(NtStatusWindows::STATUS_TPM_20_E_PARENT),
            0xc0290153 => Some(NtStatusWindows::STATUS_TPM_20_E_NEEDS_TEST),
            0xc0290154 => Some(NtStatusWindows::STATUS_TPM_20_E_NO_RESULT),
            0xc0290155 => Some(NtStatusWindows::STATUS_TPM_20_E_SENSITIVE),
            0xc0290400 => Some(NtStatusWindows::STATUS_TPM_COMMAND_BLOCKED),
            0xc0290401 => Some(NtStatusWindows::STATUS_TPM_INVALID_HANDLE),
            0xc0290402 => Some(NtStatusWindows::STATUS_TPM_DUPLICATE_VHANDLE),
            0xc0290403 => Some(NtStatusWindows::STATUS_TPM_EMBEDDED_COMMAND_BLOCKED),
            0xc0290404 => Some(NtStatusWindows::STATUS_TPM_EMBEDDED_COMMAND_UNSUPPORTED),
            0xc0290800 => Some(NtStatusWindows::STATUS_TPM_RETRY),
            0xc0290801 => Some(NtStatusWindows::STATUS_TPM_NEEDS_SELFTEST),
            0xc0290802 => Some(NtStatusWindows::STATUS_TPM_DOING_SELFTEST),
            0xc0290803 => Some(NtStatusWindows::STATUS_TPM_DEFEND_LOCK_RUNNING),
            0xc0291001 => Some(NtStatusWindows::STATUS_TPM_COMMAND_CANCELED),
            0xc0291002 => Some(NtStatusWindows::STATUS_TPM_TOO_MANY_CONTEXTS),
            0xc0291003 => Some(NtStatusWindows::STATUS_TPM_NOT_FOUND),
            0xc0291004 => Some(NtStatusWindows::STATUS_TPM_ACCESS_DENIED),
            0xc0291005 => Some(NtStatusWindows::STATUS_TPM_INSUFFICIENT_BUFFER),
            0xc0291006 => Some(NtStatusWindows::STATUS_TPM_PPI_FUNCTION_UNSUPPORTED),
            0xc0292000 => Some(NtStatusWindows::STATUS_PCP_ERROR_MASK),
            0xc0292001 => Some(NtStatusWindows::STATUS_PCP_DEVICE_NOT_READY),
            0xc0292002 => Some(NtStatusWindows::STATUS_PCP_INVALID_HANDLE),
            0xc0292003 => Some(NtStatusWindows::STATUS_PCP_INVALID_PARAMETER),
            0xc0292004 => Some(NtStatusWindows::STATUS_PCP_FLAG_NOT_SUPPORTED),
            0xc0292005 => Some(NtStatusWindows::STATUS_PCP_NOT_SUPPORTED),
            0xc0292006 => Some(NtStatusWindows::STATUS_PCP_BUFFER_TOO_SMALL),
            0xc0292007 => Some(NtStatusWindows::STATUS_PCP_INTERNAL_ERROR),
            0xc0292008 => Some(NtStatusWindows::STATUS_PCP_AUTHENTICATION_FAILED),
            0xc0292009 => Some(NtStatusWindows::STATUS_PCP_AUTHENTICATION_IGNORED),
            0xc029200a => Some(NtStatusWindows::STATUS_PCP_POLICY_NOT_FOUND),
            0xc029200b => Some(NtStatusWindows::STATUS_PCP_PROFILE_NOT_FOUND),
            0xc029200c => Some(NtStatusWindows::STATUS_PCP_VALIDATION_FAILED),
            0xc029200d => Some(NtStatusWindows::STATUS_PCP_DEVICE_NOT_FOUND),
            0xc029200e => Some(NtStatusWindows::STATUS_PCP_WRONG_PARENT),
            0xc029200f => Some(NtStatusWindows::STATUS_PCP_KEY_NOT_LOADED),
            0xc0292010 => Some(NtStatusWindows::STATUS_PCP_NO_KEY_CERTIFICATION),
            0xc0292011 => Some(NtStatusWindows::STATUS_PCP_KEY_NOT_FINALIZED),
            0xc0292012 => Some(NtStatusWindows::STATUS_PCP_ATTESTATION_CHALLENGE_NOT_SET),
            0xc0292013 => Some(NtStatusWindows::STATUS_PCP_NOT_PCR_BOUND),
            0xc0292014 => Some(NtStatusWindows::STATUS_PCP_KEY_ALREADY_FINALIZED),
            0xc0292015 => Some(NtStatusWindows::STATUS_PCP_KEY_USAGE_POLICY_NOT_SUPPORTED),
            0xc0292016 => Some(NtStatusWindows::STATUS_PCP_KEY_USAGE_POLICY_INVALID),
            _ => None,
        }
    }

    /// One slice of the symbol table.
    #[verifier::spinoff_prover]
    #[verifier::rlimit(100)]
    fn to_u32_part44(self) -> (r: Option<u32>)
        ensures
            r == self.spec_to_u32_part44(),
    {
        match self {
            NtStatusWindows::STATUS_TPM_20_E_NV_SIZE => Some(0xc0290147),
            NtStatusWindows::STATUS_TPM_20_E_NV_LOCKED => Some(0xc0290148),
            NtStatusWindows::STATUS_TPM_20_E_NV_AUTHORIZATION => Some(0xc0290149),
            NtStatusWindows::STATUS_TPM_20_E_NV_UNINITIALIZED => Some(0xc029014a),
            NtStatusWindows::STATUS_TPM_20_E_NV_SPACE => Some(0xc029014b),
            NtStatusWindows::STATUS_TPM_20_E_NV_DEFINED => Some(0xc029014c),
            NtStatusWindows::STATUS_TPM_20_E_BAD_CONTEXT => Some(0xc0290150),
            NtStatusWindows::STATUS_TPM_20_E_CPHASH => Some(0xc0290151),
            NtStatusWindows::STATUS_TPM_20_E_PARENT => Some(0xc0290152),
            NtStatusWindows::STATUS_TPM_20_E_NEEDS_TEST => Some(0xc0290153),
            NtStatusWindows::STATUS_TPM_20_E_NO_RESULT => Some(0xc0290154),
            NtStatusWindows::STATUS_TPM_20_E_SENSITIVE => Some(0xc0290155),
            NtStatusWindows::STATUS_TPM_COMMAND_BLOCKED => Some(0xc0290400),
            NtStatusWindows::STATUS_TPM_INVALID_HANDLE => Some(0xc0290401),
            NtStatusWindows::STATUS_TPM_DUPLICATE_VHANDLE => Some(0xc0290402),
            NtStatusWindows::STATUS_TPM_EMBEDDED_COMMAND_BLOCKED => Some(0xc0290403),
            NtStatusWindows::STATUS_TPM_EMBEDDED_COMMAND_UNSUPPORTED => Some(0xc0290404),
            NtStatusWindows::STATUS_TPM_RETRY => Some(0xc0290800),
            NtStatusWindows::STATUS_TPM_NEEDS_SELFTEST => Some(0xc0290801),
            NtStatusWindows::STATUS_TPM_DOING_SELFTEST => Some(0xc0290802),
            NtStatusWindows::STATUS_TPM_DEFEND_LOCK_RUNNING => Some(0xc0290803),
            NtStatusWindows::STATUS_TPM_COMMAND_CANCELED => Some(0xc0291001),
            NtStatusWindows::STATUS_TPM_TOO_MANY_CONTEXTS => Some(0xc0291002),
            NtStatusWindows::STATUS_TPM_NOT_FOUND => Some(0xc0291003),
            NtStatusWindows::STATUS_TPM_ACCESS_DENIED => Some(0xc0291004),
            NtStatusWindows::STATUS_TPM_INSUFFICIENT_BUFFER => Some(0xc0291005),
            NtStatusWindows::STATUS_TPM_PPI_FUNCTION_UNSUPPORTED => Some(0xc0291006),
            NtStatusWindows::STATUS_PCP_ERROR_MASK => Some(0xc0292000),
            NtStatusWindows::STATUS_PCP_DEVICE_NOT_READY => Some(0xc0292001),
            NtStatusWindows::STATUS_PCP_INVALID_HANDLE => Some(0xc0292002),
            NtStatusWindows::STATUS_PCP_INVALID_PARAMETER => Some(0xc0292003),
            NtStatusWindows::STATUS_PCP_FLAG_NOT_SUPPORTED => Some(0xc0292004),
            NtStatusWindows::STATUS_PCP_NOT_SUPPORTED => Some(0xc0292005),
            NtStatusWindows::STATUS_PCP_BUFFER_TOO_SMALL => Some(0xc0292006),
            NtStatusWindows::STATUS_PCP_INTERNAL_ERROR => Some(0xc0292007),
            NtStatusWindows::STATUS_PCP_AUTHENTICATION_FAILED => Some(0xc0292008),
            NtStatusWindows::STATUS_PCP_AUTHENTICATION_IGNORED => Some(0xc0292009),
            NtStatusWindows::STATUS_PCP_POLICY_NOT_FOUND => Some(0xc029200a),
            NtStatusWindows::STATUS_PCP_PROFILE_NOT_FOUND => Some(0xc029200b),
            NtStatusWindows::STATUS_PCP_VALIDATION_FAILED => Some(0xc029200c),
            NtStatusWindows::STATUS_PCP_DEVICE_NOT_FOUND => Some(0xc029200d),
            NtStatusWindows::STATUS_PCP_WRONG_PARENT => Some(0xc029200e),
            NtStatusWindows::STATUS_PCP_KEY_NOT_LOADED => Some(0xc029200f),
            NtStatusWindows::STATUS_PCP_NO_KEY_CERTIFICATION => Some(0xc0292010),
            NtStatusWindows::STATUS_PCP_KEY_NOT_FINALIZED => Some(0xc0292011),
            NtStatusWindows::STATUS_PCP_ATTESTATION_CHALLENGE_NOT_SET => Some(0xc0292012),
            NtStatusWindows::STATUS_PCP_NOT_PCR_BOUND => Some(0xc0292013),
            NtStatusWindows::STATUS_PCP_KEY_ALREADY_FINALIZED => Some(0xc0292014),
            NtStatusWindows::STATUS_PCP_KEY_USAGE_POLICY_NOT_SUPPORTED => Some(0xc0292015),
            NtStatusWindows::STATUS_PCP_KEY_USAGE_POLICY_INVALID => Some(0xc0292016),
            _ => None,
        }
    }

    /// One slice of the symbol table.
    #[verifier::spinoff_prover]
    #[verifier::rlimit(100)]
    fn from_u32_part44(raw: u32) -> (r: Option<NtStatusWindows>)
        ensures
            r == NtStatusWindows::spec_from_u32_part44(raw),
    {
        match raw {
            0xc0290147 => Some(NtStatusWindows::STATUS_TPM_20_E_NV_SIZE),
            0xc0290148 => Some(NtStatusWindows::STATUS_TPM_20_E_NV_LOCKED),
            0xc0290149 => Some(NtStatusWindows::STATUS_TPM_20_E_NV_AUTHORIZATION),
            0xc029014a => Some(NtStatusWindows::STATUS_TPM_20_E_NV_UNINITIALIZED),
            0xc029014b => Some(NtStatusWindows::STATUS_TPM_20_E_NV_SPACE),
            0xc029014c => Some(NtStatusWindows::STATUS_TPM_20_E_NV_DEFINED),
            0xc0290150 => Some(NtStatusWindows::STATUS_TPM_20_E_BAD_CONTEXT),
            0xc0290151 => Some(NtStatusWindows::STATUS_TPM_20_E_CPHASH),
            0xc0290152 => Some(NtStatusWindows::STATUS_TPM_20_E_PARENT),
            0xc0290153 => Some(NtStatusWindows::STATUS_TPM_20_E_NEEDS_TEST),
            0xc0290154 => Some(NtStatusWindows::STATUS_TPM_20_E_NO_RESULT),
            0xc0290155 => Some(NtStatusWindows::STATUS_TPM_20_E_SENSITIVE),
            0xc0290400 => Some(NtStatusWindows::STATUS_TPM_COMMAND_BLOCKED),
            0xc0290401 => Some(NtStatusWindows::STATUS_TPM_INVALID_HANDLE),
            0xc0290402 => Some(NtStatusWindows::STATUS_TPM_DUPLICATE_VHANDLE),
            0xc0290403 => Some(NtStatusWindows::STATUS_TPM_EMBEDDED_COMMAND_BLOCKED),
            0xc0290404 => Some(NtStatusWindows::STATUS_TPM_EMBEDDED_COMMAND_UNSUPPORTED),
            0xc0290800 => Some(NtStatusWindows::STATUS_TPM_RETRY),
            0xc0290801 => Some(NtStatusWindows::STATUS_TPM_NEEDS_SELFTEST),
            0xc0290802 => Some(NtStatusWindows::STATUS_TPM_DOING_SELFTEST),
            0xc0290803 => Some(NtStatusWindows::STATUS_TPM_DEFEND_LOCK_RUNNING),
            0xc0291001 => Some(NtStatusWindows::STATUS_TPM_COMMAND_CANCELED),
            0xc0291002 => Some(NtStatusWindows::STATUS_TPM_TOO_MANY_CONTEXTS),
            0xc0291003 => Some(NtStatusWindows::STATUS_TPM_NOT_FOUND),
            0xc0291004 => Some(NtStatusWindows::STATUS_TPM_ACCESS_DENIED),
            0xc0291005 => Some(NtStatusWindows::STATUS_TPM_INSUFFICIENT_BUFFER),
            0xc0291006 => Some(NtStatusWindows::STATUS_TPM_PPI_FUNCTION_UNSUPPORTED),
            0xc0292000 => Some(NtStatusWindows::STATUS_PCP_ERROR_MASK),
            0xc0292001 => Some(NtStatusWindows::STATUS_PCP_DEVICE_NOT_READY),
            0xc0292002 => Some(NtStatusWindows::STATUS_PCP_INVALID_HANDLE),
            0xc0292003 => Some(NtStatusWindows::STATUS_PCP_INVALID_PARAMETER),
            0xc0292004 => Some(NtStatusWindows::STATUS_PCP_FLAG_NOT_SUPPORTED),
            0xc0292005 => Some(NtStatusWindows::STATUS_PCP_NOT_SUPPORTED),
            0xc0292006 => Some(NtStatusWindows::STATUS_PCP_BUFFER_TOO_SMALL),
            0xc0292007 => Some(NtStatusWindows::STATUS_PCP_INTERNAL_ERROR),
            0xc0292008 => Some(NtStatusWindows::STATUS_PCP_AUTHENTICATION_FAILED),
            0xc0292009 => Some(NtStatusWindows::STATUS_PCP_AUTHENTICATION_IGNORED),
            0xc029200a => Some(NtStatusWindows::STATUS_PCP_POLICY_NOT_FOUND),
            0xc029200b => Some(NtStatusWindows::STATUS_PCP_PROFILE_NOT_FOUND),
            0xc029200c => Some(NtStatusWindows::STATUS_PCP_VALIDATION_FAILED),
            0xc029200d => Some(NtStatusWindows::STATUS_PCP_DEVICE_NOT_FOUND),
            0xc029200e => Some(NtStatusWindows::STATUS_PCP_WRONG_PARENT),
            0xc029200f => Some(NtStatusWindows::STATUS_PCP_KEY_NOT_LOADED),
            0xc0292010 => Some(NtStatusWindows::STATUS_PCP_NO_KEY_CERTIFICATION),
            0xc0292011 => Some(NtStatusWindows::STATUS_PCP_KEY_NOT_FINALIZED),
            0xc0292012 => Some(NtStatusWindows::STATUS_PCP_ATTESTATION_CHALLENGE_NOT_SET),
            0xc0292013 => Some(NtStatusWindows::STATUS_PCP_NOT_PCR_BOUND),
            0xc0292014 => Some(NtStatusWindows::STATUS_PCP_KEY_ALREADY_FINALIZED),
            0xc0292015 => Some(NtStatusWindows::STATUS_PCP_KEY_USAGE_POLICY_NOT_SUPPORTED),
            0xc0292016 => Some(NtStatusWindows::STATUS_PCP_KEY_USAGE_POLICY_INVALID),
            _ => None,
        }
    }

    /// One slice of the symbol table: the raw value of this symbol,
    /// where this slice holds it.
    pub open spec fn spec_to_u32_part45(self) -> Option<u32> {
        match self {
            NtStatusWindows::STATUS_PCP_SOFT_KEY_ERROR => Some(0xc0292017),
            NtStatusWindows::STATUS_PCP_KEY_NOT_AUTHENTICATED => Some(0xc0292018),
            NtStatusWindows::STATUS_PCP_KEY_NOT_AIK => Some(0xc0292019),
            NtStatusWindows::STATUS_PCP_KEY_NOT_SIGNING_KEY => Some(0xc029201a),
            NtStatusWindows::STATUS_PCP_LOCKED_OUT => Some(0xc029201b),
            NtStatusWindows::STATUS_PCP_CLAIM_TYPE_NOT_SUPPORTED => Some(0xc029201c),
            NtStatusWindows::STATUS_PCP_TPM_VERSION_NOT_SUPPORTED => Some(0xc029201d),
            NtStatusWindows::STATUS_PCP_BUFFER_LENGTH_MISMATCH => Some(0xc029201e),
            NtStatusWindows::STATUS_PCP_IFX_RSA_KEY_CREATION_BLOCKED => Some(0xc029201f),
            NtStatusWindows::STATUS_PCP_TICKET_MISSING => Some(0xc0292020),
            NtStatusWindows::STATUS_PCP_RAW_POLICY_NOT_SUPPORTED => Some(0xc0292021),
            NtStatusWindows::STATUS_PCP_KEY_HANDLE_INVALIDATED => Some(0xc0292022),
            NtStatusWindows::STATUS_RTPM_NO_RESULT => Some(0xc0293002),
            NtStatusWindows::STATUS_RTPM_PCR_READ_INCOMPLETE => Some(0xc0293003),
            NtStatusWindows::STATUS_RTPM_INVALID_CONTEXT => Some(0xc0293004),
            NtStatusWindows::STATUS_RTPM_UNSUPPORTED_CMD => Some(0xc0293005),
            NtStatusWindows::STATUS_TPM_ZERO_EXHAUST_ENABLED => Some(0xc0294000),
            NtStatusWindows::STATUS_HV_INVALID_HYPERCALL_CODE => Some(0xc0350002),
            NtStatusWindows::STATUS_HV_INVALID_HYPERCALL_INPUT => Some(0xc0350003),
            NtStatusWindows::STATUS_HV_INVALID_ALIGNMENT => Some(0xc0350004),
            NtStatusWindows::STATUS_HV_INVALID_PARAMETER => Some(0xc0350005),
            NtStatusWindows::STATUS_HV_ACCESS_DENIED => Some(0xc0350006),
            NtStatusWindows::STATUS_HV_INVALID_PARTITION_STATE => Some(0xc0350007),
            NtStatusWindows::STATUS_HV_OPERATION_DENIED => Some(0xc0350008),
            NtStatusWindows::STATUS_HV_UNKNOWN_PROPERTY => Some(0xc0350009),
            NtStatusWindows::STATUS_HV_PROPERTY_VALUE_OUT_OF_RANGE => Some(0xc035000a),
            NtStatusWindows::STATUS_HV_INSUFFICIENT_MEMORY => Some(0xc035000b),
            NtStatusWindows::STATUS_HV_PARTITION_TOO_DEEP => Some(0xc035000c),
            NtStatusWindows::STATUS_HV_INVALID_PARTITION_ID => Some(0xc035000d),
            NtStatusWindows::STATUS_HV_INVALID_VP_INDEX => Some(0xc035000e),
            NtStatusWindows::STATUS_HV_INVALID_PORT_ID => Some(0xc0350011),
            NtStatusWindows::STATUS_HV_INVALID_CONNECTION_ID => Some(0xc0350012),
            NtStatusWindows::STATUS_HV_INSUFFICIENT_BUFFERS => Some(0xc0350013),
            NtStatusWindows::STATUS_HV_NOT_ACKNOWLEDGED => Some(0xc0350014),
            NtStatusWindows::STATUS_HV_INVALID_VP_STATE => Some(0xc0350015),
            NtStatusWindows::STATUS_HV_ACKNOWLEDGED => Some(0xc0350016),
            NtStatusWindows::STATUS_HV_INVALID_SAVE_RESTORE_STATE => Some(0xc0350017),
            NtStatusWindows::STATUS_HV_INVALID_SYNIC_STATE => Some(0xc0350018),
            NtStatusWindows::STATUS_HV_OBJECT_IN_USE => Some(0xc0350019),
            NtStatusWindows::STATUS_HV_INVALID_PROXIMITY_DOMAIN_INFO => Some(0xc035001a),
            NtStatusWindows::STATUS_HV_NO_DATA => Some(0xc035001b),
            NtStatusWindows::STATUS_HV_INACTIVE => Some(0xc035001c),
            NtStatusWindows::STATUS_HV_NO_RESOURCES => Some(0xc035001d),
            NtStatusWindows::STATUS_HV_FEATURE_UNAVAILABLE => Some(0xc035001e),
            NtStatusWindows::STATUS_HV_INSUFFICIENT_BUFFER => Some(0xc0350033),
            NtStatusWindows::STATUS_HV_INSUFFICIENT_DEVICE_DOMAINS => Some(0xc0350038),
            NtStatusWindows::STATUS_HV_CPUID_FEATURE_VALIDATION_ERROR => Some(0xc035003c),
            NtStatusWindows::STATUS_HV_CPUID_XSAVE_FEATURE_VALIDATION_ERROR => Some(0xc035003d),
            NtStatusWindows::STATUS_HV_PROCESSOR_STARTUP_TIMEOUT => Some(0xc035003e),
            NtStatusWindows::STATUS_HV_SMX_ENABLED => Some(0xc035003f),
            _ => None,
        }
    }

    /// One slice of the symbol table: the symbol this slice gives a
    /// raw value, where it holds one.
    pub open spec fn spec_from_u32_part45(raw: u32) -> Option<NtStatusWindows> {
        match raw {
            0xc0292017 => Some(NtStatusWindows::STATUS_PCP_SOFT_KEY_ERROR),
            0xc0292018 => Some(NtStatusWindows::STATUS_PCP_KEY_NOT_AUTHENTICATED),
            0xc0292019 => Some(NtStatusWindows::STATUS_PCP_KEY_NOT_AIK),
            0xc029201a => Some(NtStatusWindows::STATUS_PCP_KEY_NOT_SIGNING_KEY),
            0xc029201b => Some(NtStatusWindows::STATUS_PCP_LOCKED_OUT),
            0xc029201c => Some(NtStatusWindows::STATUS_PCP_CLAIM_TYPE_NOT_SUPPORTED),
            0xc029201d => Some(NtStatusWindows::STATUS_PCP_TPM_VERSION_NOT_SUPPORTED),
            0xc029201e => Some(NtStatusWindows::STATUS_PCP_BUFFER_LENGTH_MISMATCH),
            0xc029201f => Some(NtStatusWindows::STATUS_PCP_IFX_RSA_KEY_CREATION_BLOCKED),
            0xc0292020 => Some(NtStatusWindows::STATUS_PCP_TICKET_MISSING),
            0xc0292021 => Some(NtStatusWindows::STATUS_PCP_RAW_POLICY_NOT_SUPPORTED),
            0xc0292022 => Some(NtStatusWindows::STATUS_PCP_KEY_HANDLE_INVALIDATED),
            0xc0293002 => Some(NtStatusWindows::STATUS_RTPM_NO_RESULT),
            0xc0293003 => Some(NtStatusWindows::STATUS_RTPM_PCR_READ_INCOMPLETE),
            0xc0293004 => Some(NtStatusWindows::STATUS_RTPM_INVALID_CONTEXT),
            0xc0293005 => Some(NtStatusWindows::STATUS_RTPM_UNSUPPORTED_CMD),
            0xc0294000 => Some(NtStatusWindows::STATUS_TPM_ZERO_EXHAUST_ENABLED),
            0xc0350002 => Some(NtStatusWindows::STATUS_HV_INVALID_HYPERCALL_CODE),
            0xc0350003 => Some(NtStatusWindows::STATUS_HV_INVALID_HYPERCALL_INPUT),
            0xc0350004 => Some(NtStatusWindows::STATUS_HV_INVALID_ALIGNMENT),
            0xc0350005 => Some(NtStatusWindows::STATUS_HV_INVALID_PARAMETER),
            0xc0350006 => Some(NtStatusWindows::STATUS_HV_ACCESS_DENIED),
            0xc0350007 => Some(NtStatusWindows::STATUS_HV_INVALID_PARTITION_STATE),
            0xc0350008 => Some(NtStatusWindows::STATUS_HV_OPERATION_DENIED),
            0xc0350009 => Some(NtStatusWindows::STATUS_HV_UNKNOWN_PROPERTY),
            0xc035000a => Some(NtStatusWindows::STATUS_HV_PROPERTY_VALUE_OUT_OF_RANGE),
            0xc035000b => Some(NtStatusWindows::STATUS_HV_INSUFFICIENT_MEMORY),
            0xc035000c => Some(NtStatusWindows::STATUS_HV_PARTITION_TOO_DEEP),
            0xc035000d => Some(NtStatusWindows::STATUS_HV_INVALID_PARTITION_ID),
            0xc035000e => Some(NtStatusWindows::STATUS_HV_INVALID_VP_INDEX),
            0xc0350011 => Some(NtStatusWindows::STATUS_HV_INVALID_PORT_ID),
            0xc0350012 => Some(NtStatusWindows::STATUS_HV_INVALID_CONNECTION_ID),
            0xc0350013 => Some(NtStatusWindows::STATUS_HV_INSUFFICIENT_BUFFERS),
            0xc0350014 => Some(NtStatusWindows::STATUS_HV_NOT_ACKNOWLEDGED),
            0xc0350015 => Some(NtStatusWindows::STATUS_HV_INVALID_VP_STATE),
            0xc0350016 => Some(NtStatusWindows::STATUS_HV_ACKNOWLEDGED),
            0xc0350017 => Some(NtStatusWindows::STATUS_HV_INVALID_SAVE_RESTORE_STATE),
            0xc0350018 => Some(NtStatusWindows::STATUS_HV_INVALID_SYNIC_STATE),
            0xc0350019 => Some(NtStatusWindows::STATUS_HV_OBJECT_IN_USE),
            0xc035001a => Some(NtStatusWindows::STATUS_HV_INVALID_PROXIMITY_DOMAIN_INFO),
            0xc035001b => Some(NtStatusWindows::STATUS_HV_NO_DATA),
            0xc035001c => Some(NtStatusWindows::STATUS_HV_INACTIVE),
            0xc035001d => Some(NtStatusWindows::STATUS_HV_NO_RESOURCES),
            0xc035001e => Some(NtStatusWindows::STATUS_HV_FEATURE_UNAVAILABLE),
            0xc0350033 => Some(NtStatusWindows::STATUS_HV_INSUFFICIENT_BUFFER),
            0xc0350038 => Some(NtStatusWindows::STATUS_HV_INSUFFICIENT_DEVICE_DOMAINS),
            0xc035003c => Some(NtStatusWindows::STATUS_HV_CPUID_FEATURE_VALIDATION_ERROR),
            0xc035003d => Some(NtStatusWindows::STATUS_HV_CPUID_XSAVE_FEATURE_VALIDATION_ERROR),
            0xc035003e => Some(NtStatusWindows::STATUS_HV_PROCESSOR_STARTUP_TIMEOUT),
            0xc035003f => Some(NtStatusWindows::STATUS_HV_SMX_ENABLED),
            _ => None,
        }
    }

    /// One slice of the symbol table.
    #[verifier::spinoff_prover]
    #[verifier::rlimit(100)]
    fn to_u32_part45(self) -> (r: Option<u32>)
        ensures
            r == self.spec_to_u32_part45(),
    {
        match self {
            NtStatusWindows::STATUS_PCP_SOFT_KEY_ERROR => Some(0xc0292017),
            NtStatusWindows::STATUS_PCP_KEY_NOT_AUTHENTICATED => Some(0xc0292018),
            NtStatusWindows::STATUS_PCP_KEY_NOT_AIK => Some(0xc0292019),
            NtStatusWindows::STATUS_PCP_KEY_NOT_SIGNING_KEY => Some(0xc029201a),
            NtStatusWindows::STATUS_PCP_LOCKED_OUT => Some(0xc029201b),
            NtStatusWindows::STATUS_PCP_CLAIM_TYPE_NOT_SUPPORTED => Some(0xc029201c),
            NtStatusWindows::STATUS_PCP_TPM_VERSION_NOT_SUPPORTED => Some(0xc029201d),
            NtStatusWindows::STATUS_PCP_BUFFER_LENGTH_MISMATCH => Some(0xc029201e),
            NtStatusWindows::STATUS_PCP_IFX_RSA_KEY_CREATION_BLOCKED => Some(0xc029201f),
            NtStatusWindows::STATUS_PCP_TICKET_MISSING => Some(0xc0292020),
            NtStatusWindows::STATUS_PCP_RAW_POLICY_NOT_SUPPORTED => Some(0xc0292021),
            NtStatusWindows::STATUS_PCP_KEY_HANDLE_INVALIDATED => Some(0xc0292022),
            NtStatusWindows::STATUS_RTPM_NO_RESULT => Some(0xc0293002),
            NtStatusWindows::STATUS_RTPM_PCR_READ_INCOMPLETE => Some(0xc0293003),
            NtStatusWindows::STATUS_RTPM_INVALID_CONTEXT => Some(0xc0293004),
            NtStatusWindows::STATUS_RTPM_UNSUPPORTED_CMD => Some(0xc0293005),
            NtStatusWindows::STATUS_TPM_ZERO_EXHAUST_ENABLED => Some(0xc0294000),
            NtStatusWindows::STATUS_HV_INVALID_HYPERCALL_CODE => Some(0xc0350002),
            NtStatusWindows::STATUS_HV_INVALID_HYPERCALL_INPUT => Some(0xc0350003),
            NtStatusWindows::STATUS_HV_INVALID_ALIGNMENT => Some(0xc0350004),
            NtStatusWindows::STATUS_HV_INVALID_PARAMETER => Some(0xc0350005),
            NtStatusWindows::STATUS_HV_ACCESS_DENIED => Some(0xc0350006),
            NtStatusWindows::STATUS_HV_INVALID_PARTITION_STATE => Some(0xc0350007),
            NtStatusWindows::STATUS_HV_OPERATION_DENIED => Some(0xc0350008),
            NtStatusWindows::STATUS_HV_UNKNOWN_PROPERTY => Some(0xc0350009),
            NtStatusWindows::STATUS_HV_PROPERTY_VALUE_OUT_OF_RANGE => Some(0xc035000a),
            NtStatusWindows::STATUS_HV_INSUFFICIENT_MEMORY => Some(0xc035000b),
            NtStatusWindows::STATUS_HV_PARTITION_TOO_DEEP => Some(0xc035000c),
            NtStatusWindows::STATUS_HV_INVALID_PARTITION_ID => Some(0xc035000d),
            NtStatusWindows::STATUS_HV_INVALID_VP_INDEX => Some(0xc035000e),
            NtStatusWindows::STATUS_HV_INVALID_PORT_ID => Some(0xc0350011),
            NtStatusWindows::STATUS_HV_INVALID_CONNECTION_ID => Some(0xc0350012),
            NtStatusWindows::STATUS_HV_INSUFFICIENT_BUFFERS => Some(0xc0350013),
            NtStatusWindows::STATUS_HV_NOT_ACKNOWLEDGED => Some(0xc0350014),
            NtStatusWindows::STATUS_HV_INVALID_VP_STATE => Some(0xc0350015),
            NtStatusWindows::STATUS_HV_ACKNOWLEDGED => Some(0xc0350016),
            NtStatusWindows::STATUS_HV_INVALID_SAVE_RESTORE_STATE => Some(0xc0350017),
            NtStatusWindows::STATUS_HV_INVALID_SYNIC_STATE => Some(0xc0350018),
            NtStatusWindows::STATUS_HV_OBJECT_IN_USE => Some(0xc0350019),
            NtStatusWindows::STATUS_HV_INVALID_PROXIMITY_DOMAIN_INFO => Some(0xc035001a),
            NtStatusWindows::STATUS_HV_NO_DATA => Some(0xc035001b),
            NtStatusWindows::STATUS_HV_INACTIVE => Some(0xc035001c),
            NtStatusWindows::STATUS_HV_NO_RESOURCES => Some(0xc035001d),
            NtStatusWindows::STATUS_HV_FEATURE_UNAVAILABLE => Some(0xc035001e),
            NtStatusWindows::STATUS_HV_INSUFFICIENT_BUFFER => Some(0xc0350033),
            NtStatusWindows::STATUS_HV_INSUFFICIENT_DEVICE_DOMAINS => Some(0xc0350038),
            NtStatusWindows::STATUS_HV_CPUID_FEATURE_VALIDATION_ERROR => Some(0xc035003c),
            NtStatusWindows::STATUS_HV_CPUID_XSAVE_FEATURE_VALIDATION_ERROR => Some(0xc035003d),
            NtStatusWindows::STATUS_HV_PROCESSOR_STARTUP_TIMEOUT => Some(0xc035003e),
            NtStatusWindows::STATUS_HV_SMX_ENABLED => Some(0xc035003f),
            _ => None,
        }
    }

    /// One slice of the symbol table.
    #[verifier::spinoff_prover]
    #[verifier::rlimit(100)]
    fn from_u32_part45(raw: u32) -> (r: Option<NtStatusWindows>)
        ensures
            r == NtStatusWindows::spec_from_u32_part45(raw),
    {
        match raw {
            0xc0292017 => Some(NtStatusWindows::STATUS_PCP_SOFT_KEY_ERROR),
            0xc0292018 => Some(NtStatusWindows::STATUS_PCP_KEY_NOT_AUTHENTICATED),
            0xc0292019 => Some(NtStatusWindows::STATUS_PCP_KEY_NOT_AIK),
            0xc029201a => Some(NtStatusWindows::STATUS_PCP_KEY_NOT_SIGNING_KEY),
            0xc029201b => Some(NtStatusWindows::STATUS_PCP_LOCKED_OUT),
            0xc029201c => Some(NtStatusWindows::STATUS_PCP_CLAIM_TYPE_NOT_SUPPORTED),
            0xc029201d => Some(NtStatusWindows::STATUS_PCP_TPM_VERSION_NOT_SUPPORTED),
            0xc029201e => Some(NtStatusWindows::STATUS_PCP_BUFFER_LENGTH_MISMATCH),
            0xc029201f => Some(NtStatusWindows::STATUS_PCP_IFX_RSA_KEY_CREATION_BLOCKED),
            0xc0292020 => Some(NtStatusWindows::STATUS_PCP_TICKET_MISSING),
            0xc0292021 => Some(NtStatusWindows::STATUS_PCP_RAW_POLICY_NOT_SUPPORTED),
            0xc0292022 => Some(NtStatusWindows::STATUS_PCP_KEY_HANDLE_INVALIDATED),
            0xc0293002 => Some(NtStatusWindows::STATUS_RTPM_NO_RESULT),
            0xc0293003 => Some(NtStatusWindows::STATUS_RTPM_PCR_READ_INCOMPLETE),
            0xc0293004 => Some(NtStatusWindows::STATUS_RTPM_INVALID_CONTEXT),
            0xc0293005 => Some(NtStatusWindows::STATUS_RTPM_UNSUPPORTED_CMD),
            0xc0294000 => Some(NtStatusWindows::STATUS_TPM_ZERO_EXHAUST_ENABLED),
            0xc0350002 => Some(NtStatusWindows::STATUS_HV_INVALID_HYPERCALL_CODE),
            0xc0350003 => Some(NtStatusWindows::STATUS_HV_INVALID_HYPERCALL_INPUT),
            0xc0350004 => Some(NtStatusWindows::STATUS_HV_INVALID_ALIGNMENT),
            0xc0350005 => Some(NtStatusWindows::STATUS_HV_INVALID_PARAMETER),
            0xc0350006 => Some(NtStatusWindows::STATUS_HV_ACCESS_DENIED),
            0xc0350007 => Some(NtStatusWindows::STATUS_HV_INVALID_PARTITION_STATE),
            0xc0350008 => Some(NtStatusWindows::STATUS_HV_OPERATION_DENIED),
            0xc0350009 => Some(NtStatusWindows::STATUS_HV_UNKNOWN_PROPERTY),
            0xc035000a => Some(NtStatusWindows::STATUS_HV_PROPERTY_VALUE_OUT_OF_RANGE),
            0xc035000b => Some(NtStatusWindows::STATUS_HV_INSUFFICIENT_MEMORY),
            0xc035000c => Some(NtStatusWindows::STATUS_HV_PARTITION_TOO_DEEP),
            0xc035000d => Some(NtStatusWindows::STATUS_HV_INVALID_PARTITION_ID),
            0xc035000e => Some(NtStatusWindows::STATUS_HV_INVALID_VP_INDEX),
            0xc0350011 => Some(NtStatusWindows::STATUS_HV_INVALID_PORT_ID),
            0xc0350012 => Some(NtStatusWindows::STATUS_HV_INVALID_CONNECTION_ID),
            0xc0350013 => Some(NtStatusWindows::STATUS_HV_INSUFFICIENT_BUFFERS),
            0xc0350014 => Some(NtStatusWindows::STATUS_HV_NOT_ACKNOWLEDGED),
            0xc0350015 => Some(NtStatusWindows::STATUS_HV_INVALID_VP_STATE),
            0xc0350016 => Some(NtStatusWindows::STATUS_HV_ACKNOWLEDGED),
            0xc0350017 => Some(NtStatusWindows::STATUS_HV_INVALID_SAVE_RESTORE_STATE),
            0xc0350018 => Some(NtStatusWindows::STATUS_HV_INVALID_SYNIC_STATE),
            0xc0350019 => Some(NtStatusWindows::STATUS_HV_OBJECT_IN_USE),
            0xc035001a => Some(NtStatusWindows::STATUS_HV_INVALID_PROXIMITY_DOMAIN_INFO),
            0xc035001b => Some(NtStatusWindows::STATUS_HV_NO_DATA),
            0xc035001c => Some(NtStatusWindows::STATUS_HV_INACTIVE),
            0xc035001d => Some(NtStatusWindows::STATUS_HV_NO_RESOURCES),
            0xc035001e => Some(NtStatusWindows::STATUS_HV_FEATURE_UNAVAILABLE),
            0xc0350033 => Some(NtStatusWindows::STATUS_HV_INSUFFICIENT_BUFFER),
            0xc0350038 => Some(NtStatusWindows::STATUS_HV_INSUFFICIENT_DEVICE_DOMAINS),
            0xc035003c => Some(NtStatusWindows::STATUS_HV_CPUID_FEATURE_VALIDATION_ERROR),
            0xc035003d => Some(NtStatusWindows::STATUS_HV_CPUID_XSAVE_FEATURE_VALIDATION_ERROR),
            0xc035003e => Some(NtStatusWindows::STATUS_HV_PROCESSOR_STARTUP_TIMEOUT),
            0xc035003f => Some(NtStatusWindows::STATUS_HV_SMX_ENABLED),
            _ => None,
        }
    }

    /// One slice of the symbol table: the raw value of this symbol,
    /// where this slice holds it.
    pub open spec fn spec_to_u32_part46(self) -> Option<u32> {
        match self {
            NtStatusWindows::STATUS_HV_INVALID_LP_INDEX => Some(0xc0350041),
            NtStatusWindows::STATUS_HV_INVALID_REGISTER_VALUE => Some(0xc0350050),
            NtStatusWindows::STATUS_HV_INVALID_VTL_STATE => Some(0xc0350051),
            NtStatusWindows::STATUS_HV_NX_NOT_DETECTED => Some(0xc0350055),
            NtStatusWindows::STATUS_HV_INVALID_DEVICE_ID => Some(0xc0350057),
            NtStatusWindows::STATUS_HV_INVALID_DEVICE_STATE => Some(0xc0350058),
            NtStatusWindows::STATUS_HV_PAGE_REQUEST_INVALID => Some(0xc0350060),
            NtStatusWindows::STATUS_HV_INVALID_CPU_GROUP_ID => Some(0xc035006f),
            NtStatusWindows::STATUS_HV_INVALID_CPU_GROUP_STATE => Some(0xc0350070),
            NtStatusWindows::STATUS_HV_OPERATION_FAILED => Some(0xc0350071),
            NtStatusWindows::STATUS_HV_NOT_ALLOWED_WITH_NESTED_VIRT_ACTIVE => Some(0xc0350072),
            NtStatusWindows::STATUS_HV_INSUFFICIENT_ROOT_MEMORY => Some(0xc0350073),
            NtStatusWindows::STATUS_HV_EVENT_BUFFER_ALREADY_FREED => Some(0xc0350074),
            NtStatusWindows::STATUS_HV_INSUFFICIENT_CONTIGUOUS_MEMORY => Some(0xc0350075),
            NtStatusWindows::STATUS_HV_NOT_PRESENT => Some(0xc0351000),
            NtStatusWindows::STATUS_IPSEC_BAD_SPI => Some(0xc0360001),
            NtStatusWindows::STATUS_IPSEC_SA_LIFETIME_EXPIRED => Some(0xc0360002),
            NtStatusWindows::STATUS_IPSEC_WRONG_SA => Some(0xc0360003),
            NtStatusWindows::STATUS_IPSEC_REPLAY_CHECK_FAILED => Some(0xc0360004),
            NtStatusWindows::STATUS_IPSEC_INVALID_PACKET => Some(0xc0360005),
            NtStatusWindows::STATUS_IPSEC_INTEGRITY_CHECK_FAILED => Some(0xc0360006),
            NtStatusWindows::STATUS_IPSEC_CLEAR_TEXT_DROP => Some(0xc0360007),
            NtStatusWindows::STATUS_IPSEC_AUTH_FIREWALL_DROP => Some(0xc0360008),
            NtStatusWindows::STATUS_IPSEC_THROTTLE_DROP => Some(0xc0360009),
            NtStatusWindows::STATUS_IPSEC_DOSP_BLOCK => Some(0xc0368000),
            NtStatusWindows::STATUS_IPSEC_DOSP_RECEIVED_MULTICAST => Some(0xc0368001),
            NtStatusWindows::STATUS_IPSEC_DOSP_INVALID_PACKET => Some(0xc0368002),
            NtStatusWindows::STATUS_IPSEC_DOSP_STATE_LOOKUP_FAILED => Some(0xc0368003),
            NtStatusWindows::STATUS_IPSEC_DOSP_MAX_ENTRIES => Some(0xc0368004),
            NtStatusWindows::STATUS_IPSEC_DOSP_KEYMOD_NOT_ALLOWED => Some(0xc0368005),
            NtStatusWindows::STATUS_IPSEC_DOSP_MAX_PER_IP_RATELIMIT_QUEUES => Some(0xc0368006),
            NtStatusWindows::STATUS_VID_DUPLICATE_HANDLER => Some(0xc0370001),
            NtStatusWindows::STATUS_VID_TOO_MANY_HANDLERS => Some(0xc0370002),
            NtStatusWindows::STATUS_VID_QUEUE_FULL => Some(0xc0370003),
            NtStatusWindows::STATUS_VID_HANDLER_NOT_PRESENT => Some(0xc0370004),
            NtStatusWindows::STATUS_VID_INVALID_OBJECT_NAME => Some(0xc0370005),
            NtStatusWindows::STATUS_VID_PARTITION_NAME_TOO_LONG => Some(0xc0370006),
            NtStatusWindows::STATUS_VID_MESSAGE_QUEUE_NAME_TOO_LONG => Some(0xc0370007),
            NtStatusWindows::STATUS_VID_PARTITION_ALREADY_EXISTS => Some(0xc0370008),
            NtStatusWindows::STATUS_VID_PARTITION_DOES_NOT_EXIST => Some(0xc0370009),
            NtStatusWindows::STATUS_VID_PARTITION_NAME_NOT_FOUND => Some(0xc037000a),
            NtStatusWindows::STATUS_VID_MESSAGE_QUEUE_ALREADY_EXISTS => Some(0xc037000b),
            NtStatusWindows::STATUS_VID_EXCEEDED_MBP_ENTRY_MAP_LIMIT => Some(0xc037000c),
            NtStatusWindows::STATUS_VID_MB_STILL_REFERENCED => Some(0xc037000d),
            NtStatusWindows::STATUS_VID_CHILD_GPA_PAGE_SET_CORRUPTED => Some(0xc037000e),
            NtStatusWindows::STATUS_VID_INVALID_NUMA_SETTINGS => Some(0xc037000f),
            NtStatusWindows::STATUS_VID_INVALID_NUMA_NODE_INDEX => Some(0xc0370010),
            NtStatusWindows::STATUS_VID_NOTIFICATION_QUEUE_ALREADY_ASSOCIATED => Some(0xc0370011),
            NtStatusWindows::STATUS_VID_INVALID_MEMORY_BLOCK_HANDLE => Some(0xc0370012),
            NtStatusWindows::STATUS_VID_PAGE_RANGE_OVERFLOW => Some(0xc0370013),
            _ => None,
        }
    }

    /// One slice of the symbol table: the symbol this slice gives a
    /// raw value, where it holds one.
    pub open spec fn spec_from_u32_part46(raw: u32) -> Option<NtStatusWindows> {
        match raw {
            0xc0350041 => Some(NtStatusWindows::STATUS_HV_INVALID_LP_INDEX),
            0xc0350050 => Some(NtStatusWindows::STATUS_HV_INVALID_REGISTER_VALUE),
            0xc0350051 => Some(NtStatusWindows::STATUS_HV_INVALID_VTL_STATE),
            0xc0350055 => Some(NtStatusWindows::STATUS_HV_NX_NOT_DETECTED),
            0xc0350057 => Some(NtStatusWindows::STATUS_HV_INVALID_DEVICE_ID),
            0xc0350058 => Some(NtStatusWindows::STATUS_HV_INVALID_DEVICE_STATE),
            0xc0350060 => Some(NtStatusWindows::STATUS_HV_PAGE_REQUEST_INVALID),
            0xc035006f => Some(NtStatusWindows::STATUS_HV_INVALID_CPU_GROUP_ID),
            0xc0350070 => Some(NtStatusWindows::STATUS_HV_INVALID_CPU_GROUP_STATE),
            0xc0350071 => Some(NtStatusWindows::STATUS_HV_OPERATION_FAILED),
            0xc0350072 => Some(NtStatusWindows::STATUS_HV_NOT_ALLOWED_WITH_NESTED_VIRT_ACTIVE),
            0xc0350073 => Some(NtStatusWindows::STATUS_HV_INSUFFICIENT_ROOT_MEMORY),
            0xc0350074 => Some(NtStatusWindows::STATUS_HV_EVENT_BUFFER_ALREADY_FREED),
            0xc0350075 => Some(NtStatusWindows::STATUS_HV_INSUFFICIENT_CONTIGUOUS_MEMORY),
            0xc0351000 => Some(NtStatusWindows::STATUS_HV_NOT_PRESENT),
            0xc0360001 => Some(NtStatusWindows::STATUS_IPSEC_BAD_SPI),
            0xc0360002 => Some(NtStatusWindows::STATUS_IPSEC_SA_LIFETIME_EXPIRED),
            0xc0360003 => Some(NtStatusWindows::STATUS_IPSEC_WRONG_SA),
            0xc0360004 => Some(NtStatusWindows::STATUS_IPSEC_REPLAY_CHECK_FAILED),
            0xc0360005 => Some(NtStatusWindows::STATUS_IPSEC_INVALID_PACKET),
            0xc0360006 => Some(NtStatusWindows::STATUS_IPSEC_INTEGRITY_CHECK_FAILED),
            0xc0360007 => Some(NtStatusWindows::STATUS_IPSEC_CLEAR_TEXT_DROP),
            0xc0360008 => Some(NtStatusWindows::STATUS_IPSEC_AUTH_FIREWALL_DROP),
            0xc0360009 => Some(NtStatusWindows::STATUS_IPSEC_THROTTLE_DROP),
            0xc0368000 => Some(NtStatusWindows::STATUS_IPSEC_DOSP_BLOCK),
            0xc0368001 => Some(NtStatusWindows::STATUS_IPSEC_DOSP_RECEIVED_MULTICAST),
            0xc0368002 => Some(NtStatusWindows::STATUS_IPSEC_DOSP_INVALID_PACKET),
            0xc0368003 => Some(NtStatusWindows::STATUS_IPSEC_DOSP_STATE_LOOKUP_FAILED),
            0xc0368004 => Some(NtStatusWindows::STATUS_IPSEC_DOSP_MAX_ENTRIES),
            0xc0368005 => Some(NtStatusWindows::STATUS_IPSEC_DOSP_KEYMOD_NOT_ALLOWED),
            0xc0368006 => Some(NtStatusWindows::STATUS_IPSEC_DOSP_MAX_PER_IP_RATELIMIT_QUEUES),
            0xc0370001 => Some(NtStatusWindows::STATUS_VID_DUPLICATE_HANDLER),
            0xc0370002 => Some(NtStatusWindows::STATUS_VID_TOO_MANY_HANDLERS),
            0xc0370003 => Some(NtStatusWindows::STATUS_VID_QUEUE_FULL),
            0xc0370004 => Some(NtStatusWindows::STATUS_VID_HANDLER_NOT_PRESENT),
            0xc0370005 => Some(NtStatusWindows::STATUS_VID_INVALID_OBJECT_NAME),
            0xc0370006 => Some(NtStatusWindows::STATUS_VID_PARTITION_NAME_TOO_LONG),
            0xc0370007 => Some(NtStatusWindows::STATUS_VID_MESSAGE_QUEUE_NAME_TOO_LONG),
            0xc0370008 => Some(NtStatusWindows::STATUS_VID_PARTITION_ALREADY_EXISTS),
            0xc0370009 => Some(NtStatusWindows::STATUS_VID_PARTITION_DOES_NOT_EXIST),
            0xc037000a => Some(NtStatusWindows::STATUS_VID_PARTITION_NAME_NOT_FOUND),
            0xc037000b => Some(NtStatusWindows::STATUS_VID_MESSAGE_QUEUE_ALREADY_EXISTS),
            0xc037000c => Some(NtStatusWindows::STATUS_VID_EXCEEDED_MBP_ENTRY_MAP_LIMIT),
            0xc037000d => Some(NtStatusWindows::STATUS_VID_MB_STILL_REFERENCED),
            0xc037000e => Some(NtStatusWindows::STATUS_VID_CHILD_GPA_PAGE_SET_CORRUPTED),
            0xc037000f => Some(NtStatusWindows::STATUS_VID_INVALID_NUMA_SETTINGS),
            0xc0370010 => Some(NtStatusWindows::STATUS_VID_INVALID_NUMA_NODE_INDEX),
            0xc0370011 => Some(NtStatusWindows::STATUS_VID_NOTIFICATION_QUEUE_ALREADY_ASSOCIATED),
            0xc0370012 => Some(NtStatusWindows::STATUS_VID_INVALID_MEMORY_BLOCK_HANDLE),
            0xc0370013 => Some(NtStatusWindows::STATUS_VID_PAGE_RANGE_OVERFLOW),
            _ => None,
        }
    }

    /// One slice of the symbol table.
    #[verifier::spinoff_prover]
    #[verifier::rlimit(100)]
    fn to_u32_part46(self) -> (r: Option<u32>)
        ensures
            r == self.spec_to_u32_part46(),
    {
        match self {
            NtStatusWindows::STATUS_HV_INVALID_LP_INDEX => Some(0xc0350041),
            NtStatusWindows::STATUS_HV_INVALID_REGISTER_VALUE => Some(0xc0350050),
            NtStatusWindows::STATUS_HV_INVALID_VTL_STATE => Some(0xc0350051),
            NtStatusWindows::STATUS_HV_NX_NOT_DETECTED => Some(0xc0350055),
            NtStatusWindows::STATUS_HV_INVALID_DEVICE_ID => Some(0xc0350057),
            NtStatusWindows::STATUS_HV_INVALID_DEVICE_STATE => Some(0xc0350058),
            NtStatusWindows::STATUS_HV_PAGE_REQUEST_INVALID => Some(0xc0350060),
            NtStatusWindows::STATUS_HV_INVALID_CPU_GROUP_ID => Some(0xc035006f),
            NtStatusWindows::STATUS_HV_INVALID_CPU_GROUP_STATE => Some(0xc0350070),
            NtStatusWindows::STATUS_HV_OPERATION_FAILED => Some(0xc0350071),
            NtStatusWindows::STATUS_HV_NOT_ALLOWED_WITH_NESTED_VIRT_ACTIVE => Some(0xc0350072),
            NtStatusWindows::STATUS_HV_INSUFFICIENT_ROOT_MEMORY => Some(0xc0350073),
            NtStatusWindows::STATUS_HV_EVENT_BUFFER_ALREADY_FREED => Some(0xc0350074),
            NtStatusWindows::STATUS_HV_INSUFFICIENT_CONTIGUOUS_MEMORY => Some(0xc0350075),
            NtStatusWindows::STATUS_HV_NOT_PRESENT => Some(0xc0351000),
            NtStatusWindows::STATUS_IPSEC_BAD_SPI => Some(0xc0360001),
            NtStatusWindows::STATUS_IPSEC_SA_LIFETIME_EXPIRED => Some(0xc0360002),
            NtStatusWindows::STATUS_IPSEC_WRONG_SA => Some(0xc0360003),
            NtStatusWindows::STATUS_IPSEC_REPLAY_CHECK_FAILED => Some(0xc0360004),
            NtStatusWindows::STATUS_IPSEC_INVALID_PACKET => Some(0xc0360005),
            NtStatusWindows::STATUS_IPSEC_INTEGRITY_CHECK_FAILED => Some(0xc0360006),
            NtStatusWindows::STATUS_IPSEC_CLEAR_TEXT_DROP => Some(0xc0360007),
            NtStatusWindows::STATUS_IPSEC_AUTH_FIREWALL_DROP => Some(0xc0360008),
            NtStatusWindows::STATUS_IPSEC_THROTTLE_DROP => Some(0xc0360009),
            NtStatusWindows::STATUS_IPSEC_DOSP_BLOCK => Some(0xc0368000),
            NtStatusWindows::STATUS_IPSEC_DOSP_RECEIVED_MULTICAST => Some(0xc0368001),
            NtStatusWindows::STATUS_IPSEC_DOSP_INVALID_PACKET => Some(0xc0368002),
            NtStatusWindows::STATUS_IPSEC_DOSP_STATE_LOOKUP_FAILED => Some(0xc0368003),
            NtStatusWindows::STATUS_IPSEC_DOSP_MAX_ENTRIES => Some(0xc0368004),
            NtStatusWindows::STATUS_IPSEC_DOSP_KEYMOD_NOT_ALLOWED => Some(0xc0368005),
            NtStatusWindows::STATUS_IPSEC_DOSP_MAX_PER_IP_RATELIMIT_QUEUES => Some(0xc0368006),
            NtStatusWindows::STATUS_VID_DUPLICATE_HANDLER => Some(0xc0370001),
            NtStatusWindows::STATUS_VID_TOO_MANY_HANDLERS => Some(0xc0370002),
            NtStatusWindows::STATUS_VID_QUEUE_FULL => Some(0xc0370003),
            NtStatusWindows::STATUS_VID_HANDLER_NOT_PRESENT => Some(0xc0370004),
            NtStatusWindows::STATUS_VID_INVALID_OBJECT_NAME => Some(0xc0370005),
            NtStatusWindows::STATUS_VID_PARTITION_NAME_TOO_LONG => Some(0xc0370006),
            NtStatusWindows::STATUS_VID_MESSAGE_QUEUE_NAME_TOO_LONG => Some(0xc0370007),
            NtStatusWindows::STATUS_VID_PARTITION_ALREADY_EXISTS => Some(0xc0370008),
            NtStatusWindows::STATUS_VID_PARTITION_DOES_NOT_EXIST => Some(0xc0370009),
            NtStatusWindows::STATUS_VID_PARTITION_NAME_NOT_FOUND => Some(0xc037000a),
            NtStatusWindows::STATUS_VID_MESSAGE_QUEUE_ALREADY_EXISTS => Some(0xc037000b),
            NtStatusWindows::STATUS_VID_EXCEEDED_MBP_ENTRY_MAP_LIMIT => Some(0xc037000c),
            NtStatusWindows::STATUS_VID_MB_STILL_REFERENCED => Some(0xc037000d),
            NtStatusWindows::STATUS_VID_CHILD_GPA_PAGE_SET_CORRUPTED => Some(0xc037000e),
            NtStatusWindows::STATUS_VID_INVALID_NUMA_SETTINGS => Some(0xc037000f),
            NtStatusWindows::STATUS_VID_INVALID_NUMA_NODE_INDEX => Some(0xc0370010),
            NtStatusWindows::STATUS_VID_NOTIFICATION_QUEUE_ALREADY_ASSOCIATED => Some(0xc0370011),
            NtStatusWindows::STATUS_VID_INVALID_MEMORY_BLOCK_HANDLE => Some(0xc0370012),
            NtStatusWindows::STATUS_VID_PAGE_RANGE_OVERFLOW => Some(0xc0370013),
            _ => None,
        }
    }

    /// One slice of the symbol table.
    #[verifier::spinoff_prover]
    #[verifier::rlimit(100)]
    fn from_u32_part46(raw: u32) -> (r: Option<NtStatusWindows>)
        ensures
            r == NtStatusWindows::spec_from_u32_part46(raw),
    {
        match raw {
            0xc0350041 => Some(NtStatusWindows::STATUS_HV_INVALID_LP_INDEX),
            0xc0350050 => Some(NtStatusWindows::STATUS_HV_INVALID_REGISTER_VALUE),
            0xc0350051 => Some(NtStatusWindows::STATUS_HV_INVALID_VTL_STATE),
            0xc0350055 => Some(NtStatusWindows::STATUS_HV_NX_NOT_DETECTED),
            0xc0350057 => Some(NtStatusWindows::STATUS_HV_INVALID_DEVICE_ID),
            0xc0350058 => Some(NtStatusWindows::STATUS_HV_INVALID_DEVICE_STATE),
            0xc0350060 => Some(NtStatusWindows::STATUS_HV_PAGE_REQUEST_INVALID),
            0xc035006f => Some(NtStatusWindows::STATUS_HV_INVALID_CPU_GROUP_ID),
            0xc0350070 => Some(NtStatusWindows::STATUS_HV_INVALID_CPU_GROUP_STATE),
            0xc0350071 => Some(NtStatusWindows::STATUS_HV_OPERATION_FAILED),
            0xc0350072 => Some(NtStatusWindows::STATUS_HV_NOT_ALLOWED_WITH_NESTED_VIRT_ACTIVE),
            0xc0350073 => Some(NtStatusWindows::STATUS_HV_INSUFFICIENT_ROOT_MEMORY),
            0xc0350074 => Some(NtStatusWindows::STATUS_HV_EVENT_BUFFER_ALREADY_FREED),
            0xc0350075 => Some(NtStatusWindows::STATUS_HV_INSUFFICIENT_CONTIGUOUS_MEMORY),
            0xc0351000 => Some(NtStatusWindows::STATUS_HV_NOT_PRESENT),
            0xc0360001 => Some(NtStatusWindows::STATUS_IPSEC_BAD_SPI),
            0xc0360002 => Some(NtStatusWindows::STATUS_IPSEC_SA_LIFETIME_EXPIRED),
            0xc0360003 => Some(NtStatusWindows::STATUS_IPSEC_WRONG_SA),
            0xc0360004 => Some(NtStatusWindows::STATUS_IPSEC_REPLAY_CHECK_FAILED),
            0xc0360005 => Some(NtStatusWindows::STATUS_IPSEC_INVALID_PACKET),
            0xc0360006 => Some(NtStatusWindows::STATUS_IPSEC_INTEGRITY_CHECK_FAILED),
            0xc0360007 => Some(NtStatusWindows::STATUS_IPSEC_CLEAR_TEXT_DROP),
            0xc0360008 => Some(NtStatusWindows::STATUS_IPSEC_AUTH_FIREWALL_DROP),
            0xc0360009 => Some(NtStatusWindows::STATUS_IPSEC_THROTTLE_DROP),
            0xc0368000 => Some(NtStatusWindows::STATUS_IPSEC_DOSP_BLOCK),
            0xc0368001 => Some(NtStatusWindows::STATUS_IPSEC_DOSP_RECEIVED_MULTICAST),
            0xc0368002 => Some(NtStatusWindows::STATUS_IPSEC_DOSP_INVALID_PACKET),
            0xc0368003 => Some(NtStatusWindows::STATUS_IPSEC_DOSP_STATE_LOOKUP_FAILED),
            0xc0368004 => Some(NtStatusWindows::STATUS_IPSEC_DOSP_MAX_ENTRIES),
            0xc0368005 => Some(NtStatusWindows::STATUS_IPSEC_DOSP_KEYMOD_NOT_ALLOWED),
            0xc0368006 => Some(NtStatusWindows::STATUS_IPSEC_DOSP_MAX_PER_IP_RATELIMIT_QUEUES),
            0xc0370001 => Some(NtStatusWindows::STATUS_VID_DUPLICATE_HANDLER),
            0xc0370002 => Some(NtStatusWindows::STATUS_VID_TOO_MANY_HANDLERS),
            0xc0370003 => Some(NtStatusWindows::STATUS_VID_QUEUE_FULL),
            0xc0370004 => Some(NtStatusWindows::STATUS_VID_HANDLER_NOT_PRESENT),
            0xc0370005 => Some(NtStatusWindows::STATUS_VID_INVALID_OBJECT_NAME),
            0xc0370006 => Some(NtStatusWindows::STATUS_VID_PARTITION_NAME_TOO_LONG),
            0xc0370007 => Some(NtStatusWindows::STATUS_VID_MESSAGE_QUEUE_NAME_TOO_LONG),
            0xc0370008 => Some(NtStatusWindows::STATUS_VID_PARTITION_ALREADY_EXISTS),
            0xc0370009 => Some(NtStatusWindows::STATUS_VID_PARTITION_DOES_NOT_EXIST),
            0xc037000a => Some(NtStatusWindows::STATUS_VID_PARTITION_NAME_NOT_FOUND),
            0xc037000b => Some(NtStatusWindows::STATUS_VID_MESSAGE_QUEUE_ALREADY_EXISTS),
            0xc037000c => Some(NtStatusWindows::STATUS_VID_EXCEEDED_MBP_ENTRY_MAP_LIMIT),
            0xc037000d => Some(NtStatusWindows::STATUS_VID_MB_STILL_REFERENCED),
            0xc037000e => Some(NtStatusWindows::STATUS_VID_CHILD_GPA_PAGE_SET_CORRUPTED),
            0xc037000f => Some(NtStatusWindows::STATUS_VID_INVALID_NUMA_SETTINGS),
            0xc0370010 => Some(NtStatusWindows::STATUS_VID_INVALID_NUMA_NODE_INDEX),
            0xc0370011 => Some(NtStatusWindows::STATUS_VID_NOTIFICATION_QUEUE_ALREADY_ASSOCIATED),
            0xc0370012 => Some(NtStatusWindows::STATUS_VID_INVALID_MEMORY_BLOCK_HANDLE),
            0xc0370013 => Some(NtStatusWindows::STATUS_VID_PAGE_RANGE_OVERFLOW),
            _ => None,
        }
    }

    /// One slice of the symbol table: the raw value of this symbol,
    /// where this slice holds it.
    pub open spec fn spec_to_u32_part47(self) -> Option<u32> {
        match self {
            NtStatusWindows::STATUS_VID_INVALID_MESSAGE_QUEUE_HANDLE => Some(0xc0370014),
            NtStatusWindows::STATUS_VID_INVALID_GPA_RANGE_HANDLE => Some(0xc0370015),
            NtStatusWindows::STATUS_VID_NO_MEMORY_BLOCK_NOTIFICATION_QUEUE => Some(0xc0370016),
            NtStatusWindows::STATUS_VID_MEMORY_BLOCK_LOCK_COUNT_EXCEEDED => Some(0xc0370017),
            NtStatusWindows::STATUS_VID_INVALID_PPM_HANDLE => Some(0xc0370018),
            NtStatusWindows::STATUS_VID_MBPS_ARE_LOCKED => Some(0xc0370019),
            NtStatusWindows::STATUS_VID_MESSAGE_QUEUE_CLOSED => Some(0xc037001a),
            NtStatusWindows::STATUS_VID_VIRTUAL_PROCESSOR_LIMIT_EXCEEDED => Some(0xc037001b),
            NtStatusWindows::STATUS_VID_STOP_PENDING => Some(0xc037001c),
            NtStatusWindows::STATUS_VID_INVALID_PROCESSOR_STATE => Some(0xc037001d),
            NtStatusWindows::STATUS_VID_EXCEEDED_KM_CONTEXT_COUNT_LIMIT => Some(0xc037001e),
            NtStatusWindows::STATUS_VID_KM_INTERFACE_ALREADY_INITIALIZED => Some(0xc037001f),
            NtStatusWindows::STATUS_VID_MB_PROPERTY_ALREADY_SET_RESET => Some(0xc0370020),
            NtStatusWindows::STATUS_VID_MMIO_RANGE_DESTROYED => Some(0xc0370021),
            NtStatusWindows::STATUS_VID_INVALID_CHILD_GPA_PAGE_SET => Some(0xc0370022),
            NtStatusWindows::STATUS_VID_RESERVE_PAGE_SET_IS_BEING_USED => Some(0xc0370023),
            NtStatusWindows::STATUS_VID_RESERVE_PAGE_SET_TOO_SMALL => Some(0xc0370024),
            NtStatusWindows::STATUS_VID_MBP_ALREADY_LOCKED_USING_RESERVED_PAGE => Some(0xc0370025),
            NtStatusWindows::STATUS_VID_MBP_COUNT_EXCEEDED_LIMIT => Some(0xc0370026),
            NtStatusWindows::STATUS_VID_SAVED_STATE_CORRUPT => Some(0xc0370027),
            NtStatusWindows::STATUS_VID_SAVED_STATE_UNRECOGNIZED_ITEM => Some(0xc0370028),
            NtStatusWindows::STATUS_VID_SAVED_STATE_INCOMPATIBLE => Some(0xc0370029),
            NtStatusWindows::STATUS_VID_VTL_ACCESS_DENIED => Some(0xc037002a),
            NtStatusWindows::STATUS_VOLMGR_DATABASE_FULL => Some(0xc0380001),
            NtStatusWindows::STATUS_VOLMGR_DISK_CONFIGURATION_CORRUPTED => Some(0xc0380002),
            NtStatusWindows::STATUS_VOLMGR_DISK_CONFIGURATION_NOT_IN_SYNC => Some(0xc0380003),
            NtStatusWindows::STATUS_VOLMGR_PACK_CONFIG_UPDATE_FAILED => Some(0xc0380004),
            NtStatusWindows::STATUS_VOLMGR_DISK_CONTAINS_NON_SIMPLE_VOLUME => Some(0xc0380005),
            NtStatusWindows::STATUS_VOLMGR_DISK_DUPLICATE => Some(0xc0380006),
            NtStatusWindows::STATUS_VOLMGR_DISK_DYNAMIC => Some(0xc0380007),
            NtStatusWindows::STATUS_VOLMGR_DISK_ID_INVALID => Some(0xc0380008),
            NtStatusWindows::STATUS_VOLMGR_DISK_INVALID => Some(0xc0380009),
            NtStatusWindows::STATUS_VOLMGR_DISK_LAST_VOTER => Some(0xc038000a),
            NtStatusWindows::STATUS_VOLMGR_DISK_LAYOUT_INVALID => Some(0xc038000b),
            NtStatusWindows::STATUS_VOLMGR_DISK_LAYOUT_NON_BASIC_BETWEEN_BASIC_PARTITIONS => Some(0xc038000c),
            NtStatusWindows::STATUS_VOLMGR_DISK_LAYOUT_NOT_CYLINDER_ALIGNED => Some(0xc038000d),
            NtStatusWindows::STATUS_VOLMGR_DISK_LAYOUT_PARTITIONS_TOO_SMALL => Some(0xc038000e),
            NtStatusWindows::STATUS_VOLMGR_DISK_LAYOUT_PRIMARY_BETWEEN_LOGICAL_PARTITIONS => Some(0xc038000f),
            NtStatusWindows::STATUS_VOLMGR_DISK_LAYOUT_TOO_MANY_PARTITIONS => Some(0xc0380010),
            NtStatusWindows::STATUS_VOLMGR_DISK_MISSING => Some(0xc0380011),
            NtStatusWindows::STATUS_VOLMGR_DISK_NOT_EMPTY => Some(0xc0380012),
            NtStatusWindows::STATUS_VOLMGR_DISK_NOT_ENOUGH_SPACE => Some(0xc0380013),
            NtStatusWindows::STATUS_VOLMGR_DISK_REVECTORING_FAILED => Some(0xc0380014),
            NtStatusWindows::STATUS_VOLMGR_DISK_SECTOR_SIZE_INVALID => Some(0xc0380015),
            NtStatusWindows::STATUS_VOLMGR_DISK_SET_NOT_CONTAINED => Some(0xc0380016),
            NtStatusWindows::STATUS_VOLMGR_DISK_USED_BY_MULTIPLE_MEMBERS => Some(0xc0380017),
            NtStatusWindows::STATUS_VOLMGR_DISK_USED_BY_MULTIPLE_PLEXES => Some(0xc0380018),
            NtStatusWindows::STATUS_VOLMGR_DYNAMIC_DISK_NOT_SUPPORTED => Some(0xc0380019),
            NtStatusWindows::STATUS_VOLMGR_EXTENT_ALREADY_USED => Some(0xc038001a),
            NtStatusWindows::STATUS_VOLMGR_EXTENT_NOT_CONTIGUOUS => Some(0xc038001b),
            _ => None,
        }
    }

    /// One slice of the symbol table: the symbol this slice gives a
    /// raw value, where it holds one.
    pub open spec fn spec_from_u32_part47(raw: u32) -> Option<NtStatusWindows> {
        match raw {
            0xc0370014 => Some(NtStatusWindows::STATUS_VID_INVALID_MESSAGE_QUEUE_HANDLE),
            0xc0370015 => Some(NtStatusWindows::STATUS_VID_INVALID_GPA_RANGE_HANDLE),
            0xc0370016 => Some(NtStatusWindows::STATUS_VID_NO_MEMORY_BLOCK_NOTIFICATION_QUEUE),
            0xc0370017 => Some(NtStatusWindows::STATUS_VID_MEMORY_BLOCK_LOCK_COUNT_EXCEEDED),
            0xc0370018 => Some(NtStatusWindows::STATUS_VID_INVALID_PPM_HANDLE),
            0xc0370019 => Some(NtStatusWindows::STATUS_VID_MBPS_ARE_LOCKED),
            0xc037001a => Some(NtStatusWindows::STATUS_VID_MESSAGE_QUEUE_CLOSED),
            0xc037001b => Some(NtStatusWindows::STATUS_VID_VIRTUAL_PROCESSOR_LIMIT_EXCEEDED),
            0xc037001c => Some(NtStatusWindows::STATUS_VID_STOP_PENDING),
            0xc037001d => Some(NtStatusWindows::STATUS_VID_INVALID_PROCESSOR_STATE),
            0xc037001e => Some(NtStatusWindows::STATUS_VID_EXCEEDED_KM_CONTEXT_COUNT_LIMIT),
            0xc037001f => Some(NtStatusWindows::STATUS_VID_KM_INTERFACE_ALREADY_INITIALIZED),
            0xc0370020 => Some(NtStatusWindows::STATUS_VID_MB_PROPERTY_ALREADY_SET_RESET),
            0xc0370021 => Some(NtStatusWindows::STATUS_VID_MMIO_RANGE_DESTROYED),
            0xc0370022 => Some(NtStatusWindows::STATUS_VID_INVALID_CHILD_GPA_PAGE_SET),
            0xc0370023 => Some(NtStatusWindows::STATUS_VID_RESERVE_PAGE_SET_IS_BEING_USED),
            0xc0370024 => Some(NtStatusWindows::STATUS_VID_RESERVE_PAGE_SET_TOO_SMALL),
            0xc0370025 => Some(NtStatusWindows::STATUS_VID_MBP_ALREADY_LOCKED_USING_RESERVED_PAGE),
            0xc0370026 => Some(NtStatusWindows::STATUS_VID_MBP_COUNT_EXCEEDED_LIMIT),
            0xc0370027 => Some(NtStatusWindows::STATUS_VID_SAVED_STATE_CORRUPT),
            0xc0370028 => Some(NtStatusWindows::STATUS_VID_SAVED_STATE_UNRECOGNIZED_ITEM),
            0xc0370029 => Some(NtStatusWindows::STATUS_VID_SAVED_STATE_INCOMPATIBLE),
            0xc037002a => Some(NtStatusWindows::STATUS_VID_VTL_ACCESS_DENIED),
            0xc0380001 => Some(NtStatusWindows::STATUS_VOLMGR_DATABASE_FULL),
            0xc0380002 => Some(NtStatusWindows::STATUS_VOLMGR_DISK_CONFIGURATION_CORRUPTED),
            0xc0380003 => Some(NtStatusWindows::STATUS_VOLMGR_DISK_CONFIGURATION_NOT_IN_SYNC),
            0xc0380004 => Some(NtStatusWindows::STATUS_VOLMGR_PACK_CONFIG_UPDATE_FAILED),
            0xc0380005 => Some(NtStatusWindows::STATUS_VOLMGR_DISK_CONTAINS_NON_SIMPLE_VOLUME),
            0xc0380006 => Some(NtStatusWindows::STATUS_VOLMGR_DISK_DUPLICATE),
            0xc0380007 => Some(NtStatusWindows::STATUS_VOLMGR_DISK_DYNAMIC),
            0xc0380008 => Some(NtStatusWindows::STATUS_VOLMGR_DISK_ID_INVALID),
            0xc0380009 => Some(NtStatusWindows::STATUS_VOLMGR_DISK_INVALID),
            0xc038000a => Some(NtStatusWindows::STATUS_VOLMGR_DISK_LAST_VOTER),
            0xc038000b => Some(NtStatusWindows::STATUS_VOLMGR_DISK_LAYOUT_INVALID),
            0xc038000c => Some(NtStatusWindows::STATUS_VOLMGR_DISK_LAYOUT_NON_BASIC_BETWEEN_BASIC_PARTITIONS),
            0xc038000d => Some(NtStatusWindows::STATUS_VOLMGR_DISK_LAYOUT_NOT_CYLINDER_ALIGNED),
            0xc038000e => Some(NtStatusWindows::STATUS_VOLMGR_DISK_LAYOUT_PARTITIONS_TOO_SMALL),
            0xc038000f => Some(NtStatusWindows::STATUS_VOLMGR_DISK_LAYOUT_PRIMARY_BETWEEN_LOGICAL_PARTITIONS),
            0xc0380010 => Some(NtStatusWindows::STATUS_VOLMGR_DISK_LAYOUT_TOO_MANY_PARTITIONS),
            0xc0380011 => Some(NtStatusWindows::STATUS_VOLMGR_DISK_MISSING),
            0xc0380012 => Some(NtStatusWindows::STATUS_VOLMGR_DISK_NOT_EMPTY),
            0xc0380013 => Some(NtStatusWindows::STATUS_VOLMGR_DISK_NOT_ENOUGH_SPACE),
            0xc0380014 => Some(NtStatusWindows::STATUS_VOLMGR_DISK_REVECTORING_FAILED),
            0xc0380015 => Some(NtStatusWindows::STATUS_VOLMGR_DISK_SECTOR_SIZE_INVALID),
            0xc0380016 => Some(NtStatusWindows::STATUS_VOLMGR_DISK_SET_NOT_CONTAINED),
            0xc0380017 => Some(NtStatusWindows::STATUS_VOLMGR_DISK_USED_BY_MULTIPLE_MEMBERS),
            0xc0380018 => Some(NtStatusWindows::STATUS_VOLMGR_DISK_USED_BY_MULTIPLE_PLEXES),
            0xc0380019 => Some(NtStatusWindows::STATUS_VOLMGR_DYNAMIC_DISK_NOT_SUPPORTED),
            0xc038001a => Some(NtStatusWindows::STATUS_VOLMGR_EXTENT_ALREADY_USED),
            0xc038001b => Some(NtStatusWindows::STATUS_VOLMGR_EXTENT_NOT_CONTIGUOUS),
            _ => None,
        }
    }

    /// One slice of the symbol table.
    #[verifier::spinoff_prover]
    #[verifier::rlimit(100)]
    fn to_u32_part47(self) -> (r: Option<u32>)
        ensures
            r == self.spec_to_u32_part47(),
    {
        match self {
            NtStatusWindows::STATUS_VID_INVALID_MESSAGE_QUEUE_HANDLE => Some(0xc0370014),
            NtStatusWindows::STATUS_VID_INVALID_GPA_RANGE_HANDLE => Some(0xc0370015),
            NtStatusWindows::STATUS_VID_NO_MEMORY_BLOCK_NOTIFICATION_QUEUE => Some(0xc0370016),
            NtStatusWindows::STATUS_VID_MEMORY_BLOCK_LOCK_COUNT_EXCEEDED => Some(0xc0370017),
            NtStatusWindows::STATUS_VID_INVALID_PPM_HANDLE => Some(0xc0370018),
            NtStatusWindows::STATUS_VID_MBPS_ARE_LOCKED => Some(0xc0370019),
            NtStatusWindows::STATUS_VID_MESSAGE_QUEUE_CLOSED => Some(0xc037001a),
            NtStatusWindows::STATUS_VID_VIRTUAL_PROCESSOR_LIMIT_EXCEEDED => Some(0xc037001b),
            NtStatusWindows::STATUS_VID_STOP_PENDING => Some(0xc037001c),
            NtStatusWindows::STATUS_VID_INVALID_PROCESSOR_STATE => Some(0xc037001d),
            NtStatusWindows::STATUS_VID_EXCEEDED_KM_CONTEXT_COUNT_LIMIT => Some(0xc037001e),
            NtStatusWindows::STATUS_VID_KM_INTERFACE_ALREADY_INITIALIZED => Some(0xc037001f),
            NtStatusWindows::STATUS_VID_MB_PROPERTY_ALREADY_SET_RESET => Some(0xc0370020),
            NtStatusWindows::STATUS_VID_MMIO_RANGE_DESTROYED => Some(0xc0370021),
            NtStatusWindows::STATUS_VID_INVALID_CHILD_GPA_PAGE_SET => Some(0xc0370022),
            NtStatusWindows::STATUS_VID_RESERVE_PAGE_SET_IS_BEING_USED => Some(0xc0370023),
            NtStatusWindows::STATUS_VID_RESERVE_PAGE_SET_TOO_SMALL => Some(0xc0370024),
            NtStatusWindows::STATUS_VID_MBP_ALREADY_LOCKED_USING_RESERVED_PAGE => Some(0xc0370025),
            NtStatusWindows::STATUS_VID_MBP_COUNT_EXCEEDED_LIMIT => Some(0xc0370026),
            NtStatusWindows::STATUS_VID_SAVED_STATE_CORRUPT => Some(0xc0370027),
            NtStatusWindows::STATUS_VID_SAVED_STATE_UNRECOGNIZED_ITEM => Some(0xc0370028),
            NtStatusWindows::STATUS_VID_SAVED_STATE_INCOMPATIBLE => Some(0xc0370029),
            NtStatusWindows::STATUS_VID_VTL_ACCESS_DENIED => Some(0xc037002a),
            NtStatusWindows::STATUS_VOLMGR_DATABASE_FULL => Some(0xc0380001),
            NtStatusWindows::STATUS_VOLMGR_DISK_CONFIGURATION_CORRUPTED => Some(0xc0380002),
            NtStatusWindows::STATUS_VOLMGR_DISK_CONFIGURATION_NOT_IN_SYNC => Some(0xc0380003),
            NtStatusWindows::STATUS_VOLMGR_PACK_CONFIG_UPDATE_FAILED => Some(0xc0380004),
            NtStatusWindows::STATUS_VOLMGR_DISK_CONTAINS_NON_SIMPLE_VOLUME => Some(0xc0380005),
            NtStatusWindows::STATUS_VOLMGR_DISK_DUPLICATE => Some(0xc0380006),
            NtStatusWindows::STATUS_VOLMGR_DISK_DYNAMIC => Some(0xc0380007),
            NtStatusWindows::STATUS_VOLMGR_DISK_ID_INVALID => Some(0xc0380008),
            NtStatusWindows::STATUS_VOLMGR_DISK_INVALID => Some(0xc0380009),
            NtStatusWindows::STATUS_VOLMGR_DISK_LAST_VOTER => Some(0xc038000a),
            NtStatusWindows::STATUS_VOLMGR_DISK_LAYOUT_INVALID => Some(0xc038000b),
            NtStatusWindows::STATUS_VOLMGR_DISK_LAYOUT_NON_BASIC_BETWEEN_BASIC_PARTITIONS => Some(0xc038000c),
            NtStatusWindows::STATUS_VOLMGR_DISK_LAYOUT_NOT_CYLINDER_ALIGNED => Some(0xc038000d),
            NtStatusWindows::STATUS_VOLMGR_DISK_LAYOUT_PARTITIONS_TOO_SMALL => Some(0xc038000e),
            NtStatusWindows::STATUS_VOLMGR_DISK_LAYOUT_PRIMARY_BETWEEN_LOGICAL_PARTITIONS => Some(0xc038000f),
            NtStatusWindows::STATUS_VOLMGR_DISK_LAYOUT_TOO_MANY_PARTITIONS => Some(0xc0380010),
            NtStatusWindows::STATUS_VOLMGR_DISK_MISSING => Some(0xc0380011),
            NtStatusWindows::STATUS_VOLMGR_DISK_NOT_EMPTY => Some(0xc0380012),
            NtStatusWindows::STATUS_VOLMGR_DISK_NOT_ENOUGH_SPACE => Some(0xc0380013),
            NtStatusWindows::STATUS_VOLMGR_DISK_REVECTORING_FAILED => Some(0xc0380014),
            NtStatusWindows::STATUS_VOLMGR_DISK_SECTOR_SIZE_INVALID => Some(0xc0380015),
            NtStatusWindows::STATUS_VOLMGR_DISK_SET_NOT_CONTAINED => Some(0xc0380016),
            NtStatusWindows::STATUS_VOLMGR_DISK_USED_BY_MULTIPLE_MEMBERS => Some(0xc0380017),
            NtStatusWindows::STATUS_VOLMGR_DISK_USED_BY_MULTIPLE_PLEXES => Some(0xc0380018),
            NtStatusWindows::STATUS_VOLMGR_DYNAMIC_DISK_NOT_SUPPORTED => Some(0xc0380019),
            NtStatusWindows::STATUS_VOLMGR_EXTENT_ALREADY_USED => Some(0xc038001a),
            NtStatusWindows::STATUS_VOLMGR_EXTENT_NOT_CONTIGUOUS => Some(0xc038001b),
            _ => None,
        }
    }

    /// One slice of the symbol table.
    #[verifier::spinoff_prover]
    #[verifier::rlimit(100)]
    fn from_u32_part47(raw: u32) -> (r: Option<NtStatusWindows>)
        ensures
            r == NtStatusWindows::spec_from_u32_part47(raw),
    {
        match raw {
            0xc0370014 => Some(NtStatusWindows::STATUS_VID_INVALID_MESSAGE_QUEUE_HANDLE),
            0xc0370015 => Some(NtStatusWindows::STATUS_VID_INVALID_GPA_RANGE_HANDLE),
            0xc0370016 => Some(NtStatusWindows::STATUS_VID_NO_MEMORY_BLOCK_NOTIFICATION_QUEUE),
            0xc0370017 => Some(NtStatusWindows::STATUS_VID_MEMORY_BLOCK_LOCK_COUNT_EXCEEDED),
            0xc0370018 => Some(NtStatusWindows::STATUS_VID_INVALID_PPM_HANDLE),
            0xc0370019 => Some(NtStatusWindows::STATUS_VID_MBPS_ARE_LOCKED),
            0xc037001a => Some(NtStatusWindows::STATUS_VID_MESSAGE_QUEUE_CLOSED),
            0xc037001b => Some(NtStatusWindows::STATUS_VID_VIRTUAL_PROCESSOR_LIMIT_EXCEEDED),
            0xc037001c => Some(NtStatusWindows::STATUS_VID_STOP_PENDING),
            0xc037001d => Some(NtStatusWindows::STATUS_VID_INVALID_PROCESSOR_STATE),
            0xc037001e => Some(NtStatusWindows::STATUS_VID_EXCEEDED_KM_CONTEXT_COUNT_LIMIT),
            0xc037001f => Some(NtStatusWindows::STATUS_VID_KM_INTERFACE_ALREADY_INITIALIZED),
            0xc0370020 => Some(NtStatusWindows::STATUS_VID_MB_PROPERTY_ALREADY_SET_RESET),
            0xc0370021 => Some(NtStatusWindows::STATUS_VID_MMIO_RANGE_DESTROYED),
            0xc0370022 => Some(NtStatusWindows::STATUS_VID_INVALID_CHILD_GPA_PAGE_SET),
            0xc0370023 => Some(NtStatusWindows::STATUS_VID_RESERVE_PAGE_SET_IS_BEING_USED),
            0xc0370024 => Some(NtStatusWindows::STATUS_VID_RESERVE_PAGE_SET_TOO_SMALL),
            0xc0370025 => Some(NtStatusWindows::STATUS_VID_MBP_ALREADY_LOCKED_USING_RESERVED_PAGE),
            0xc0370026 => Some(NtStatusWindows::STATUS_VID_MBP_COUNT_EXCEEDED_LIMIT),
            0xc0370027 => Some(NtStatusWindows::STATUS_VID_SAVED_STATE_CORRUPT),
            0xc0370028 => Some(NtStatusWindows::STATUS_VID_SAVED_STATE_UNRECOGNIZED_ITEM),
            0xc0370029 => Some(NtStatusWindows::STATUS_VID_SAVED_STATE_INCOMPATIBLE),
            0xc037002a => Some(NtStatusWindows::STATUS_VID_VTL_ACCESS_DENIED),
            0xc0380001 => Some(NtStatusWindows::STATUS_VOLMGR_DATABASE_FULL),
            0xc0380002 => Some(NtStatusWindows::STATUS_VOLMGR_DISK_CONFIGURATION_CORRUPTED),
            0xc0380003 => Some(NtStatusWindows::STATUS_VOLMGR_DISK_CONFIGURATION_NOT_IN_SYNC),
            0xc0380004 => Some(NtStatusWindows::STATUS_VOLMGR_PACK_CONFIG_UPDATE_FAILED),
            0xc0380005 => Some(NtStatusWindows::STATUS_VOLMGR_DISK_CONTAINS_NON_SIMPLE_VOLUME),
            0xc0380006 => Some(NtStatusWindows::STATUS_VOLMGR_DISK_DUPLICATE),
            0xc0380007 => Some(NtStatusWindows::STATUS_VOLMGR_DISK_DYNAMIC),
            0xc0380008 => Some(NtStatusWindows::STATUS_VOLMGR_DISK_ID_INVALID),
            0xc0380009 => Some(NtStatusWindows::STATUS_VOLMGR_DISK_INVALID),
            0xc038000a => Some(NtStatusWindows::STATUS_VOLMGR_DISK_LAST_VOTER),
            0xc038000b => Some(NtStatusWindows::STATUS_VOLMGR_DISK_LAYOUT_INVALID),
            0xc038000c => Some(NtStatusWindows::STATUS_VOLMGR_DISK_LAYOUT_NON_BASIC_BETWEEN_BASIC_PARTITIONS),
            0xc038000d => Some(NtStatusWindows::STATUS_VOLMGR_DISK_LAYOUT_NOT_CYLINDER_ALIGNED),
            0xc038000e => Some(NtStatusWindows::STATUS_VOLMGR_DISK_LAYOUT_PARTITIONS_TOO_SMALL),
            0xc038000f => Some(NtStatusWindows::STATUS_VOLMGR_DISK_LAYOUT_PRIMARY_BETWEEN_LOGICAL_PARTITIONS),
            0xc0380010 => Some(NtStatusWindows::STATUS_VOLMGR_DISK_LAYOUT_TOO_MANY_PARTITIONS),
            0xc0380011 => Some(NtStatusWindows::STATUS_VOLMGR_DISK_MISSING),
            0xc0380012 => Some(NtStatusWindows::STATUS_VOLMGR_DISK_NOT_EMPTY),
            0xc0380013 => Some(NtStatusWindows::STATUS_VOLMGR_DISK_NOT_ENOUGH_SPACE),
            0xc0380014 => Some(NtStatusWindows::STATUS_VOLMGR_DISK_REVECTORING_FAILED),
            0xc0380015 => Some(NtStatusWindows::STATUS_VOLMGR_DISK_SECTOR_SIZE_INVALID),
            0xc0380016 => Some(NtStatusWindows::STATUS_VOLMGR_DISK_SET_NOT_CONTAINED),
            0xc0380017 => Some(NtStatusWindows::STATUS_VOLMGR_DISK_USED_BY_MULTIPLE_MEMBERS),
            0xc0380018 => Some(NtStatusWindows::STATUS_VOLMGR_DISK_USED_BY_MULTIPLE_PLEXES),
            0xc0380019 => Some(NtStatusWindows::STATUS_VOLMGR_DYNAMIC_DISK_NOT_SUPPORTED),
            0xc038001a => Some(NtStatusWindows::STATUS_VOLMGR_EXTENT_ALREADY_USED),
            0xc038001b => Some(NtStatusWindows::STATUS_VOLMGR_EXTENT_NOT_CONTIGUOUS),
            _ => None,
        }
    }

    /// One slice of the symbol table: the raw value of this symbol,
    /// where this slice holds it.
    pub open spec fn spec_to_u32_part48(self) -> Option<u32> {
        match self {
            NtStatusWindows::STATUS_VOLMGR_EXTENT_NOT_IN_PUBLIC_REGION => Some(0xc038001c),
            NtStatusWindows::STATUS_VOLMGR_EXTENT_NOT_SECTOR_ALIGNED => Some(0xc038001d),
            NtStatusWindows::STATUS_VOLMGR_EXTENT_OVERLAPS_EBR_PARTITION => Some(0xc038001e),
            NtStatusWindows::STATUS_VOLMGR_EXTENT_VOLUME_LENGTHS_DO_NOT_MATCH => Some(0xc038001f),
            NtStatusWindows::STATUS_VOLMGR_FAULT_TOLERANT_NOT_SUPPORTED => Some(0xc0380020),
            NtStatusWindows::STATUS_VOLMGR_INTERLEAVE_LENGTH_INVALID => Some(0xc0380021),
            NtStatusWindows::STATUS_VOLMGR_MAXIMUM_REGISTERED_USERS => Some(0xc0380022),
            NtStatusWindows::STATUS_VOLMGR_MEMBER_IN_SYNC => Some(0xc0380023),
            NtStatusWindows::STATUS_VOLMGR_MEMBER_INDEX_DUPLICATE => Some(0xc0380024),
            NtStatusWindows::STATUS_VOLMGR_MEMBER_INDEX_INVALID => Some(0xc0380025),
            NtStatusWindows::STATUS_VOLMGR_MEMBER_MISSING => Some(0xc0380026),
            NtStatusWindows::STATUS_VOLMGR_MEMBER_NOT_DETACHED => Some(0xc0380027),
            NtStatusWindows::STATUS_VOLMGR_MEMBER_REGENERATING => Some(0xc0380028),
            NtStatusWindows::STATUS_VOLMGR_ALL_DISKS_FAILED => Some(0xc0380029),
            NtStatusWindows::STATUS_VOLMGR_NO_REGISTERED_USERS => Some(0xc038002a),
            NtStatusWindows::STATUS_VOLMGR_NO_SUCH_USER => Some(0xc038002b),
            NtStatusWindows::STATUS_VOLMGR_NOTIFICATION_RESET => Some(0xc038002c),
            NtStatusWindows::STATUS_VOLMGR_NUMBER_OF_MEMBERS_INVALID => Some(0xc038002d),
            NtStatusWindows::STATUS_VOLMGR_NUMBER_OF_PLEXES_INVALID => Some(0xc038002e),
            NtStatusWindows::STATUS_VOLMGR_PACK_DUPLICATE => Some(0xc038002f),
            NtStatusWindows::STATUS_VOLMGR_PACK_ID_INVALID => Some(0xc0380030),
            NtStatusWindows::STATUS_VOLMGR_PACK_INVALID => Some(0xc0380031),
            NtStatusWindows::STATUS_VOLMGR_PACK_NAME_INVALID => Some(0xc0380032),
            NtStatusWindows::STATUS_VOLMGR_PACK_OFFLINE => Some(0xc0380033),
            NtStatusWindows::STATUS_VOLMGR_PACK_HAS_QUORUM => Some(0xc0380034),
            NtStatusWindows::STATUS_VOLMGR_PACK_WITHOUT_QUORUM => Some(0xc0380035),
            NtStatusWindows::STATUS_VOLMGR_PARTITION_STYLE_INVALID => Some(0xc0380036),
            NtStatusWindows::STATUS_VOLMGR_PARTITION_UPDATE_FAILED => Some(0xc0380037),
            NtStatusWindows::STATUS_VOLMGR_PLEX_IN_SYNC => Some(0xc0380038),
            NtStatusWindows::STATUS_VOLMGR_PLEX_INDEX_DUPLICATE => Some(0xc0380039),
            NtStatusWindows::STATUS_VOLMGR_PLEX_INDEX_INVALID => Some(0xc038003a),
            NtStatusWindows::STATUS_VOLMGR_PLEX_LAST_ACTIVE => Some(0xc038003b),
            NtStatusWindows::STATUS_VOLMGR_PLEX_MISSING => Some(0xc038003c),
            NtStatusWindows::STATUS_VOLMGR_PLEX_REGENERATING => Some(0xc038003d),
            NtStatusWindows::STATUS_VOLMGR_PLEX_TYPE_INVALID => Some(0xc038003e),
            NtStatusWindows::STATUS_VOLMGR_PLEX_NOT_RAID5 => Some(0xc038003f),
            NtStatusWindows::STATUS_VOLMGR_PLEX_NOT_SIMPLE => Some(0xc0380040),
            NtStatusWindows::STATUS_VOLMGR_STRUCTURE_SIZE_INVALID => Some(0xc0380041),
            NtStatusWindows::STATUS_VOLMGR_TOO_MANY_NOTIFICATION_REQUESTS => Some(0xc0380042),
            NtStatusWindows::STATUS_VOLMGR_TRANSACTION_IN_PROGRESS => Some(0xc0380043),
            NtStatusWindows::STATUS_VOLMGR_UNEXPECTED_DISK_LAYOUT_CHANGE => Some(0xc0380044),
            NtStatusWindows::STATUS_VOLMGR_VOLUME_CONTAINS_MISSING_DISK => Some(0xc0380045),
            NtStatusWindows::STATUS_VOLMGR_VOLUME_ID_INVALID => Some(0xc0380046),
            NtStatusWindows::STATUS_VOLMGR_VOLUME_LENGTH_INVALID => Some(0xc0380047),
            NtStatusWindows::STATUS_VOLMGR_VOLUME_LENGTH_NOT_SECTOR_SIZE_MULTIPLE => Some(0xc0380048),
            NtStatusWindows::STATUS_VOLMGR_VOLUME_NOT_MIRRORED => Some(0xc0380049),
            NtStatusWindows::STATUS_VOLMGR_VOLUME_NOT_RETAINED => Some(0xc038004a),
            NtStatusWindows::STATUS_VOLMGR_VOLUME_OFFLINE => Some(0xc038004b),
            NtStatusWindows::STATUS_VOLMGR_VOLUME_RETAINED => Some(0xc038004c),
            NtStatusWindows::STATUS_VOLMGR_NUMBER_OF_EXTENTS_INVALID => Some(0xc038004d),
            _ => None,
        }
    }

    /// One slice of the symbol table: the symbol this slice gives a
    /// raw value, where it holds one.
    pub open spec fn spec_from_u32_part48(raw: u32) -> Option<NtStatusWindows> {
        match raw {
            0xc038001c => Some(NtStatusWindows::STATUS_VOLMGR_EXTENT_NOT_IN_PUBLIC_REGION),
            0xc038001d => Some(NtStatusWindows::STATUS_VOLMGR_EXTENT_NOT_SECTOR_ALIGNED),
            0xc038001e => Some(NtStatusWindows::STATUS_VOLMGR_EXTENT_OVERLAPS_EBR_PARTITION),
            0xc038001f => Some(NtStatusWindows::STATUS_VOLMGR_EXTENT_VOLUME_LENGTHS_DO_NOT_MATCH),
            0xc0380020 => Some(NtStatusWindows::STATUS_VOLMGR_FAULT_TOLERANT_NOT_SUPPORTED),
            0xc0380021 => Some(NtStatusWindows::STATUS_VOLMGR_INTERLEAVE_LENGTH_INVALID),
            0xc0380022 => Some(NtStatusWindows::STATUS_VOLMGR_MAXIMUM_REGISTERED_USERS),
            0xc0380023 => Some(NtStatusWindows::STATUS_VOLMGR_MEMBER_IN_SYNC),
            0xc0380024 => Some(NtStatusWindows::STATUS_VOLMGR_MEMBER_INDEX_DUPLICATE),
            0xc0380025 => Some(NtStatusWindows::STATUS_VOLMGR_MEMBER_INDEX_INVALID),
            0xc0380026 => Some(NtStatusWindows::STATUS_VOLMGR_MEMBER_MISSING),
            0xc0380027 => Some(NtStatusWindows::STATUS_VOLMGR_MEMBER_NOT_DETACHED),
            0xc0380028 => Some(NtStatusWindows::STATUS_VOLMGR_MEMBER_REGENERATING),
            0xc0380029 => Some(NtStatusWindows::STATUS_VOLMGR_ALL_DISKS_FAILED),
            0xc038002a => Some(NtStatusWindows::STATUS_VOLMGR_NO_REGISTERED_USERS),
            0xc038002b => Some(NtStatusWindows::STATUS_VOLMGR_NO_SUCH_USER),
            0xc038002c => Some(NtStatusWindows::STATUS_VOLMGR_NOTIFICATION_RESET),
            0xc038002d => Some(NtStatusWindows::STATUS_VOLMGR_NUMBER_OF_MEMBERS_INVALID),
            0xc038002e => Some(NtStatusWindows::STATUS_VOLMGR_NUMBER_OF_PLEXES_INVALID),
            0xc038002f => Some(NtStatusWindows::STATUS_VOLMGR_PACK_DUPLICATE),
            0xc0380030 => Some(NtStatusWindows::STATUS_VOLMGR_PACK_ID_INVALID),
            0xc0380031 => Some(NtStatusWindows::STATUS_VOLMGR_PACK_INVALID),
            0xc0380032 => Some(NtStatusWindows::STATUS_VOLMGR_PACK_NAME_INVALID),
            0xc0380033 => Some(NtStatusWindows::STATUS_VOLMGR_PACK_OFFLINE),
            0xc0380034 => Some(NtStatusWindows::STATUS_VOLMGR_PACK_HAS_QUORUM),
            0xc0380035 => Some(NtStatusWindows::STATUS_VOLMGR_PACK_WITHOUT_QUORUM),
            0xc0380036 => Some(NtStatusWindows::STATUS_VOLMGR_PARTITION_STYLE_INVALID),
            0xc0380037 => Some(NtStatusWindows::STATUS_VOLMGR_PARTITION_UPDATE_FAILED),
            0xc0380038 => Some(NtStatusWindows::STATUS_VOLMGR_PLEX_IN_SYNC),
            0xc0380039 => Some(NtStatusWindows::STATUS_VOLMGR_PLEX_INDEX_DUPLICATE),
            0xc038003a => Some(NtStatusWindows::STATUS_VOLMGR_PLEX_INDEX_INVALID),
            0xc038003b => Some(NtStatusWindows::STATUS_VOLMGR_PLEX_LAST_ACTIVE),
            0xc038003c => Some(NtStatusWindows::STATUS_VOLMGR_PLEX_MISSING),
            0xc038003d => Some(NtStatusWindows::STATUS_VOLMGR_PLEX_REGENERATING),
            0xc038003e => Some(NtStatusWindows::STATUS_VOLMGR_PLEX_TYPE_INVALID),
            0xc038003f => Some(NtStatusWindows::STATUS_VOLMGR_PLEX_NOT_RAID5),
            0xc0380040 => Some(NtStatusWindows::STATUS_VOLMGR_PLEX_NOT_SIMPLE),
            0xc0380041 => Some(NtStatusWindows::STATUS_VOLMGR_STRUCTURE_SIZE_INVALID),
            0xc0380042 => Some(NtStatusWindows::STATUS_VOLMGR_TOO_MANY_NOTIFICATION_REQUESTS),
            0xc0380043 => Some(NtStatusWindows::STATUS_VOLMGR_TRANSACTION_IN_PROGRESS),
            0xc0380044 => Some(NtStatusWindows::STATUS_VOLMGR_UNEXPECTED_DISK_LAYOUT_CHANGE),
            0xc0380045 => Some(NtStatusWindows::STATUS_VOLMGR_VOLUME_CONTAINS_MISSING_DISK),
            0xc0380046 => Some(NtStatusWindows::STATUS_VOLMGR_VOLUME_ID_INVALID),
            0xc0380047 => Some(NtStatusWindows::STATUS_VOLMGR_VOLUME_LENGTH_INVALID),
            0xc0380048 => Some(NtStatusWindows::STATUS_VOLMGR_VOLUME_LENGTH_NOT_SECTOR_SIZE_MULTIPLE),
            0xc0380049 => Some(NtStatusWindows::STATUS_VOLMGR_VOLUME_NOT_MIRRORED),
            0xc038004a => Some(NtStatusWindows::STATUS_VOLMGR_VOLUME_NOT_RETAINED),
            0xc038004b => Some(NtStatusWindows::STATUS_VOLMGR_VOLUME_OFFLINE),
            0xc038004c => Some(NtStatusWindows::STATUS_VOLMGR_VOLUME_RETAINED),
            0xc038004d => Some(NtStatusWindows::STATUS_VOLMGR_NUMBER_OF_EXTENTS_INVALID),
            _ => None,
        }
    }

    /// One slice of the symbol table.
    #[verifier::spinoff_prover]
    #[verifier::rlimit(100)]
    fn to_u32_part48(self) -> (r: Option<u32>)
        ensures
            r == self.spec_to_u32_part48(),
    {
        match self {
            NtStatusWindows::STATUS_VOLMGR_EXTENT_NOT_IN_PUBLIC_REGION => Some(0xc038001c),
            NtStatusWindows::STATUS_VOLMGR_EXTENT_NOT_SECTOR_ALIGNED => Some(0xc038001d),
            NtStatusWindows::STATUS_VOLMGR_EXTENT_OVERLAPS_EBR_PARTITION => Some(0xc038001e),
            NtStatusWindows::STATUS_VOLMGR_EXTENT_VOLUME_LENGTHS_DO_NOT_MATCH => Some(0xc038001f),
            NtStatusWindows::STATUS_VOLMGR_FAULT_TOLERANT_NOT_SUPPORTED => Some(0xc0380020),
            NtStatusWindows::STATUS_VOLMGR_INTERLEAVE_LENGTH_INVALID => Some(0xc0380021),
            NtStatusWindows::STATUS_VOLMGR_MAXIMUM_REGISTERED_USERS => Some(0xc0380022),
            NtStatusWindows::STATUS_VOLMGR_MEMBER_IN_SYNC => Some(0xc0380023),
            NtStatusWindows::STATUS_VOLMGR_MEMBER_INDEX_DUPLICATE => Some(0xc0380024),
            NtStatusWindows::STATUS_VOLMGR_MEMBER_INDEX_INVALID => Some(0xc0380025),
            NtStatusWindows::STATUS_VOLMGR_MEMBER_MISSING => Some(0xc0380026),
            NtStatusWindows::STATUS_VOLMGR_MEMBER_NOT_DETACHED => Some(0xc0380027),
            NtStatusWindows::STATUS_VOLMGR_MEMBER_REGENERATING => Some(0xc0380028),
            NtStatusWindows::STATUS_VOLMGR_ALL_DISKS_FAILED => Some(0xc0380029),
            NtStatusWindows::STATUS_VOLMGR_NO_REGISTERED_USERS => Some(0xc038002a),
            NtStatusWindows::STATUS_VOLMGR_NO_SUCH_USER => Some(0xc038002b),
            NtStatusWindows::STATUS_VOLMGR_NOTIFICATION_RESET => Some(0xc038002c),
            NtStatusWindows::STATUS_VOLMGR_NUMBER_OF_MEMBERS_INVALID => Some(0xc038002d),
            NtStatusWindows::STATUS_VOLMGR_NUMBER_OF_PLEXES_INVALID => Some(0xc038002e),
            NtStatusWindows::STATUS_VOLMGR_PACK_DUPLICATE => Some(0xc038002f),
            NtStatusWindows::STATUS_VOLMGR_PACK_ID_INVALID => Some(0xc0380030),
            NtStatusWindows::STATUS_VOLMGR_PACK_INVALID => Some(0xc0380031),
            NtStatusWindows::STATUS_VOLMGR_PACK_NAME_INVALID => Some(0xc0380032),
            NtStatusWindows::STATUS_VOLMGR_PACK_OFFLINE => Some(0xc0380033),
            NtStatusWindows::STATUS_VOLMGR_PACK_HAS_QUORUM => Some(0xc0380034),
            NtStatusWindows::STATUS_VOLMGR_PACK_WITHOUT_QUORUM => Some(0xc0380035),
            NtStatusWindows::STATUS_VOLMGR_PARTITION_STYLE_INVALID => Some(0xc0380036),
            NtStatusWindows::STATUS_VOLMGR_PARTITION_UPDATE_FAILED => Some(0xc0380037),
            NtStatusWindows::STATUS_VOLMGR_PLEX_IN_SYNC => Some(0xc0380038),
            NtStatusWindows::STATUS_VOLMGR_PLEX_INDEX_DUPLICATE => Some(0xc0380039),
            NtStatusWindows::STATUS_VOLMGR_PLEX_INDEX_INVALID => Some(0xc038003a),
            NtStatusWindows::STATUS_VOLMGR_PLEX_LAST_ACTIVE => Some(0xc038003b),
            NtStatusWindows::STATUS_VOLMGR_PLEX_MISSING => Some(0xc038003c),
            NtStatusWindows::STATUS_VOLMGR_PLEX_REGENERATING => Some(0xc038003d),
            NtStatusWindows::STATUS_VOLMGR_PLEX_TYPE_INVALID => Some(0xc038003e),
            NtStatusWindows::STATUS_VOLMGR_PLEX_NOT_RAID5 => Some(0xc038003f),
            NtStatusWindows::STATUS_VOLMGR_PLEX_NOT_SIMPLE => Some(0xc0380040),
            NtStatusWindows::STATUS_VOLMGR_STRUCTURE_SIZE_INVALID => Some(0xc0380041),
            NtStatusWindows::STATUS_VOLMGR_TOO_MANY_NOTIFICATION_REQUESTS => Some(0xc0380042),
            NtStatusWindows::STATUS_VOLMGR_TRANSACTION_IN_PROGRESS => Some(0xc0380043),
            NtStatusWindows::STATUS_VOLMGR_UNEXPECTED_DISK_LAYOUT_CHANGE => Some(0xc0380044),
            NtStatusWindows::STATUS_VOLMGR_VOLUME_CONTAINS_MISSING_DISK => Some(0xc0380045),
            NtStatusWindows::STATUS_VOLMGR_VOLUME_ID_INVALID => Some(0xc0380046),
            NtStatusWindows::STATUS_VOLMGR_VOLUME_LENGTH_INVALID => Some(0xc0380047),
            NtStatusWindows::STATUS_VOLMGR_VOLUME_LENGTH_NOT_SECTOR_SIZE_MULTIPLE => Some(0xc0380048),
            NtStatusWindows::STATUS_VOLMGR_VOLUME_NOT_MIRRORED => Some(0xc0380049),
            NtStatusWindows::STATUS_VOLMGR_VOLUME_NOT_RETAINED => Some(0xc038004a),
            NtStatusWindows::STATUS_VOLMGR_VOLUME_OFFLINE => Some(0xc038004b),
            NtStatusWindows::STATUS_VOLMGR_VOLUME_RETAINED => Some(0xc038004c),
            NtStatusWindows::STATUS_VOLMGR_NUMBER_OF_EXTENTS_INVALID => Some(0xc038004d),
            _ => None,
        }
    }

    /// One slice of the symbol table.
    #[verifier::spinoff_prover]
    #[verifier::rlimit(100)]
    fn from_u32_part48(raw: u32) -> (r: Option<NtStatusWindows>)
        ensures
            r == NtStatusWindows::spec_from_u32_part48(raw),
    {
        match raw {
            0xc038001c => Some(NtStatusWindows::STATUS_VOLMGR_EXTENT_NOT_IN_PUBLIC_REGION),
            0xc038001d => Some(NtStatusWindows::STATUS_VOLMGR_EXTENT_NOT_SECTOR_ALIGNED),
            0xc038001e => Some(NtStatusWindows::STATUS_VOLMGR_EXTENT_OVERLAPS_EBR_PARTITION),
            0xc038001f => Some(NtStatusWindows::STATUS_VOLMGR_EXTENT_VOLUME_LENGTHS_DO_NOT_MATCH),
            0xc0380020 => Some(NtStatusWindows::STATUS_VOLMGR_FAULT_TOLERANT_NOT_SUPPORTED),
            0xc0380021 => Some(NtStatusWindows::STATUS_VOLMGR_INTERLEAVE_LENGTH_INVALID),
            0xc0380022 => Some(NtStatusWindows::STATUS_VOLMGR_MAXIMUM_REGISTERED_USERS),
            0xc0380023 => Some(NtStatusWindows::STATUS_VOLMGR_MEMBER_IN_SYNC),
            0xc0380024 => Some(NtStatusWindows::STATUS_VOLMGR_MEMBER_INDEX_DUPLICATE),
            0xc0380025 => Some(NtStatusWindows::STATUS_VOLMGR_MEMBER_INDEX_INVALID),
            0xc0380026 => Some(NtStatusWindows::STATUS_VOLMGR_MEMBER_MISSING),
            0xc0380027 => Some(NtStatusWindows::STATUS_VOLMGR_MEMBER_NOT_DETACHED),
            0xc0380028 => Some(NtStatusWindows::STATUS_VOLMGR_MEMBER_REGENERATING),
            0xc0380029 => Some(NtStatusWindows::STATUS_VOLMGR_ALL_DISKS_FAILED),
            0xc038002a => Some(NtStatusWindows::STATUS_VOLMGR_NO_REGISTERED_USERS),
            0xc038002b => Some(NtStatusWindows::STATUS_VOLMGR_NO_SUCH_USER),
            0xc038002c => Some(NtStatusWindows::STATUS_VOLMGR_NOTIFICATION_RESET),
            0xc038002d => Some(NtStatusWindows::STATUS_VOLMGR_NUMBER_OF_MEMBERS_INVALID),
            0xc038002e => Some(NtStatusWindows::STATUS_VOLMGR_NUMBER_OF_PLEXES_INVALID),
            0xc038002f => Some(NtStatusWindows::STATUS_VOLMGR_PACK_DUPLICATE),
            0xc0380030 => Some(NtStatusWindows::STATUS_VOLMGR_PACK_ID_INVALID),
            0xc0380031 => Some(NtStatusWindows::STATUS_VOLMGR_PACK_INVALID),
            0xc0380032 => Some(NtStatusWindows::STATUS_VOLMGR_PACK_NAME_INVALID),
            0xc0380033 => Some(NtStatusWindows::STATUS_VOLMGR_PACK_OFFLINE),
            0xc0380034 => Some(NtStatusWindows::STATUS_VOLMGR_PACK_HAS_QUORUM),
            0xc0380035 => Some(NtStatusWindows::STATUS_VOLMGR_PACK_WITHOUT_QUORUM),
            0xc0380036 => Some(NtStatusWindows::STATUS_VOLMGR_PARTITION_STYLE_INVALID),
            0xc0380037 => Some(NtStatusWindows::STATUS_VOLMGR_PARTITION_UPDATE_FAILED),
            0xc0380038 => Some(NtStatusWindows::STATUS_VOLMGR_PLEX_IN_SYNC),
            0xc0380039 => Some(NtStatusWindows::STATUS_VOLMGR_PLEX_INDEX_DUPLICATE),
            0xc038003a => Some(NtStatusWindows::STATUS_VOLMGR_PLEX_INDEX_INVALID),
            0xc038003b => Some(NtStatusWindows::STATUS_VOLMGR_PLEX_LAST_ACTIVE),
            0xc038003c => Some(NtStatusWindows::STATUS_VOLMGR_PLEX_MISSING),
            0xc038003d => Some(NtStatusWindows::STATUS_VOLMGR_PLEX_REGENERATING),
            0xc038003e => Some(NtStatusWindows::STATUS_VOLMGR_PLEX_TYPE_INVALID),
            0xc038003f => Some(NtStatusWindows::STATUS_VOLMGR_PLEX_NOT_RAID5),
            0xc0380040 => Some(NtStatusWindows::STATUS_VOLMGR_PLEX_NOT_SIMPLE),
            0xc0380041 => Some(NtStatusWindows::STATUS_VOLMGR_STRUCTURE_SIZE_INVALID),
            0xc0380042 => Some(NtStatusWindows::STATUS_VOLMGR_TOO_MANY_NOTIFICATION_REQUESTS),
            0xc0380043 => Some(NtStatusWindows::STATUS_VOLMGR_TRANSACTION_IN_PROGRESS),
            0xc0380044 => Some(NtStatusWindows::STATUS_VOLMGR_UNEXPECTED_DISK_LAYOUT_CHANGE),
            0xc0380045 => Some(NtStatusWindows::STATUS_VOLMGR_VOLUME_CONTAINS_MISSING_DISK),
            0xc0380046 => Some(NtStatusWindows::STATUS_VOLMGR_VOLUME_ID_INVALID),
            0xc0380047 => Some(NtStatusWindows::STATUS_VOLMGR_VOLUME_LENGTH_INVALID),
            0xc0380048 => Some(NtStatusWindows::STATUS_VOLMGR_VOLUME_LENGTH_NOT_SECTOR_SIZE_MULTIPLE),
            0xc0380049 => Some(NtStatusWindows::STATUS_VOLMGR_VOLUME_NOT_MIRRORED),
            0xc038004a => Some(NtStatusWindows::STATUS_VOLMGR_VOLUME_NOT_RETAINED),
            0xc038004b => Some(NtStatusWindows::STATUS_VOLMGR_VOLUME_OFFLINE),
            0xc038004c => Some(NtStatusWindows::STATUS_VOLMGR_VOLUME_RETAINED),
            0xc038004d => Some(NtStatusWindows::STATUS_VOLMGR_NUMBER_OF_EXTENTS_INVALID),
            _ => None,
        }
    }

    /// One slice of the symbol table: the raw value of this symbol,
    /// where this slice holds it.
    pub open spec fn spec_to_u32_part49(self) -> Option<u32> {
        match self {
            NtStatusWindows::STATUS_VOLMGR_DIFFERENT_SECTOR_SIZE => Some(0xc038004e),
            NtStatusWindows::STATUS_VOLMGR_BAD_BOOT_DISK => Some(0xc038004f),
            NtStatusWindows::STATUS_VOLMGR_PACK_CONFIG_OFFLINE => Some(0xc0380050),
            NtStatusWindows::STATUS_VOLMGR_PACK_CONFIG_ONLINE => Some(0xc0380051),
            NtStatusWindows::STATUS_VOLMGR_NOT_PRIMARY_PACK => Some(0xc0380052),
            NtStatusWindows::STATUS_VOLMGR_PACK_LOG_UPDATE_FAILED => Some(0xc0380053),
            NtStatusWindows::STATUS_VOLMGR_NUMBER_OF_DISKS_IN_PLEX_INVALID => Some(0xc0380054),
            NtStatusWindows::STATUS_VOLMGR_NUMBER_OF_DISKS_IN_MEMBER_INVALID => Some(0xc0380055),
            NtStatusWindows::STATUS_VOLMGR_VOLUME_MIRRORED => Some(0xc0380056),
            NtStatusWindows::STATUS_VOLMGR_PLEX_NOT_SIMPLE_SPANNED => Some(0xc0380057),
            NtStatusWindows::STATUS_VOLMGR_NO_VALID_LOG_COPIES => Some(0xc0380058),
            NtStatusWindows::STATUS_VOLMGR_PRIMARY_PACK_PRESENT => Some(0xc0380059),
            NtStatusWindows::STATUS_VOLMGR_NUMBER_OF_DISKS_INVALID => Some(0xc038005a),
            NtStatusWindows::STATUS_VOLMGR_MIRROR_NOT_SUPPORTED => Some(0xc038005b),
            NtStatusWindows::STATUS_VOLMGR_RAID5_NOT_SUPPORTED => Some(0xc038005c),
            NtStatusWindows::STATUS_BCD_TOO_MANY_ELEMENTS => Some(0xc0390002),
            NtStatusWindows::STATUS_VHD_DRIVE_FOOTER_MISSING => Some(0xc03a0001),
            NtStatusWindows::STATUS_VHD_DRIVE_FOOTER_CHECKSUM_MISMATCH => Some(0xc03a0002),
            NtStatusWindows::STATUS_VHD_DRIVE_FOOTER_CORRUPT => Some(0xc03a0003),
            NtStatusWindows::STATUS_VHD_FORMAT_UNKNOWN => Some(0xc03a0004),
            NtStatusWindows::STATUS_VHD_FORMAT_UNSUPPORTED_VERSION => Some(0xc03a0005),
            NtStatusWindows::STATUS_VHD_SPARSE_HEADER_CHECKSUM_MISMATCH => Some(0xc03a0006),
            NtStatusWindows::STATUS_VHD_SPARSE_HEADER_UNSUPPORTED_VERSION => Some(0xc03a0007),
            NtStatusWindows::STATUS_VHD_SPARSE_HEADER_CORRUPT => Some(0xc03a0008),
            NtStatusWindows::STATUS_VHD_BLOCK_ALLOCATION_FAILURE => Some(0xc03a0009),
            NtStatusWindows::STATUS_VHD_BLOCK_ALLOCATION_TABLE_CORRUPT => Some(0xc03a000a),
            NtStatusWindows::STATUS_VHD_INVALID_BLOCK_SIZE => Some(0xc03a000b),
            NtStatusWindows::STATUS_VHD_BITMAP_MISMATCH => Some(0xc03a000c),
            NtStatusWindows::STATUS_VHD_PARENT_VHD_NOT_FOUND => Some(0xc03a000d),
            NtStatusWindows::STATUS_VHD_CHILD_PARENT_ID_MISMATCH => Some(0xc03a000e),
            NtStatusWindows::STATUS_VHD_CHILD_PARENT_TIMESTAMP_MISMATCH => Some(0xc03a000f),
            NtStatusWindows::STATUS_VHD_METADATA_READ_FAILURE => Some(0xc03a0010),
            NtStatusWindows::STATUS_VHD_METADATA_WRITE_FAILURE => Some(0xc03a0011),
            NtStatusWindows::STATUS_VHD_INVALID_SIZE => Some(0xc03a0012),
            NtStatusWindows::STATUS_VHD_INVALID_FILE_SIZE => Some(0xc03a0013),
            NtStatusWindows::STATUS_VIRTDISK_PROVIDER_NOT_FOUND => Some(0xc03a0014),
            NtStatusWindows::STATUS_VIRTDISK_NOT_VIRTUAL_DISK => Some(0xc03a0015),
            NtStatusWindows::STATUS_VHD_PARENT_VHD_ACCESS_DENIED => Some(0xc03a0016),
            NtStatusWindows::STATUS_VHD_CHILD_PARENT_SIZE_MISMATCH => Some(0xc03a0017),
            NtStatusWindows::STATUS_VHD_DIFFERENCING_CHAIN_CYCLE_DETECTED => Some(0xc03a0018),
            NtStatusWindows::STATUS_VHD_DIFFERENCING_CHAIN_ERROR_IN_PARENT => Some(0xc03a0019),
            NtStatusWindows::STATUS_VIRTUAL_DISK_LIMITATION => Some(0xc03a001a),
            NtStatusWindows::STATUS_VHD_INVALID_TYPE => Some(0xc03a001b),
            NtStatusWindows::STATUS_VHD_INVALID_STATE => Some(0xc03a001c),
            NtStatusWindows::STATUS_VIRTDISK_UNSUPPORTED_DISK_SECTOR_SIZE => Some(0xc03a001d),
            NtStatusWindows::STATUS_VIRTDISK_DISK_ALREADY_OWNED => Some(0xc03a001e),
            NtStatusWindows::STATUS_VIRTDISK_DISK_ONLINE_AND_WRITABLE => Some(0xc03a001f),
            NtStatusWindows::STATUS_CTLOG_TRACKING_NOT_INITIALIZED => Some(0xc03a0020),
            NtStatusWindows::STATUS_CTLOG_LOGFILE_SIZE_EXCEEDED_MAXSIZE => Some(0xc03a0021),
            NtStatusWindows::STATUS_CTLOG_VHD_CHANGED_OFFLINE => Some(0xc03a0022),
            _ => None,
        }
    }

    /// One slice of the symbol table: the symbol this slice gives a
    /// raw value, where it holds one.
    pub open spec fn spec_from_u32_part49(raw: u32) -> Option<NtStatusWindows> {
        match raw {
            0xc038004e => Some(NtStatusWindows::STATUS_VOLMGR_DIFFERENT_SECTOR_SIZE),
            0xc038004f => Some(NtStatusWindows::STATUS_VOLMGR_BAD_BOOT_DISK),
            0xc0380050 => Some(NtStatusWindows::STATUS_VOLMGR_PACK_CONFIG_OFFLINE),
            0xc0380051 => Some(NtStatusWindows::STATUS_VOLMGR_PACK_CONFIG_ONLINE),
            0xc0380052 => Some(NtStatusWindows::STATUS_VOLMGR_NOT_PRIMARY_PACK),
            0xc0380053 => Some(NtStatusWindows::STATUS_VOLMGR_PACK_LOG_UPDATE_FAILED),
            0xc0380054 => Some(NtStatusWindows::STATUS_VOLMGR_NUMBER_OF_DISKS_IN_PLEX_INVALID),
            0xc0380055 => Some(NtStatusWindows::STATUS_VOLMGR_NUMBER_OF_DISKS_IN_MEMBER_INVALID),
            0xc0380056 => Some(NtStatusWindows::STATUS_VOLMGR_VOLUME_MIRRORED),
            0xc0380057 => Some(NtStatusWindows::STATUS_VOLMGR_PLEX_NOT_SIMPLE_SPANNED),
            0xc0380058 => Some(NtStatusWindows::STATUS_VOLMGR_NO_VALID_LOG_COPIES),
            0xc0380059 => Some(NtStatusWindows::STATUS_VOLMGR_PRIMARY_PACK_PRESENT),
            0xc038005a => Some(NtStatusWindows::STATUS_VOLMGR_NUMBER_OF_DISKS_INVALID),
            0xc038005b => Some(NtStatusWindows::STATUS_VOLMGR_MIRROR_NOT_SUPPORTED),
            0xc038005c => Some(NtStatusWindows::STATUS_VOLMGR_RAID5_NOT_SUPPORTED),
            0xc0390002 => Some(NtStatusWindows::STATUS_BCD_TOO_MANY_ELEMENTS),
            0xc03a0001 => Some(NtStatusWindows::STATUS_VHD_DRIVE_FOOTER_MISSING),
            0xc03a0002 => Some(NtStatusWindows::STATUS_VHD_DRIVE_FOOTER_CHECKSUM_MISMATCH),
            0xc03a0003 => Some(NtStatusWindows::STATUS_VHD_DRIVE_FOOTER_CORRUPT),
            0xc03a0004 => Some(NtStatusWindows::STATUS_VHD_FORMAT_UNKNOWN),
            0xc03a0005 => Some(NtStatusWindows::STATUS_VHD_FORMAT_UNSUPPORTED_VERSION),
            0xc03a0006 => Some(NtStatusWindows::STATUS_VHD_SPARSE_HEADER_CHECKSUM_MISMATCH),
            0xc03a0007 => Some(NtStatusWindows::STATUS_VHD_SPARSE_HEADER_UNSUPPORTED_VERSION),
            0xc03a0008 => Some(NtStatusWindows::STATUS_VHD_SPARSE_HEADER_CORRUPT),
            0xc03a0009 => Some(NtStatusWindows::STATUS_VHD_BLOCK_ALLOCATION_FAILURE),
            0xc03a000a => Some(NtStatusWindows::STATUS_VHD_BLOCK_ALLOCATION_TABLE_CORRUPT),
            0xc03a000b => Some(NtStatusWindows::STATUS_VHD_INVALID_BLOCK_SIZE),
            0xc03a000c => Some(NtStatusWindows::STATUS_VHD_BITMAP_MISMATCH),
            0xc03a000d => Some(NtStatusWindows::STATUS_VHD_PARENT_VHD_NOT_FOUND),
            0xc03a000e => Some(NtStatusWindows::STATUS_VHD_CHILD_PARENT_ID_MISMATCH),
            0xc03a000f => Some(NtStatusWindows::STATUS_VHD_CHILD_PARENT_TIMESTAMP_MISMATCH),
            0xc03a0010 => Some(NtStatusWindows::STATUS_VHD_METADATA_READ_FAILURE),
            0xc03a0011 => Some(NtStatusWindows::STATUS_VHD_METADATA_WRITE_FAILURE),
            0xc03a0012 => Some(NtStatusWindows::STATUS_VHD_INVALID_SIZE),
            0xc03a0013 => Some(NtStatusWindows::STATUS_VHD_INVALID_FILE_SIZE),
            0xc03a0014 => Some(NtStatusWindows::STATUS_VIRTDISK_PROVIDER_NOT_FOUND),
            0xc03a0015 => Some(NtStatusWindows::STATUS_VIRTDISK_NOT_VIRTUAL_DISK),
            0xc03a0016 => Some(NtStatusWindows::STATUS_VHD_PARENT_VHD_ACCESS_DENIED),
            0xc03a0017 => Some(NtStatusWindows::STATUS_VHD_CHILD_PARENT_SIZE_MISMATCH),
            0xc03a0018 => Some(NtStatusWindows::STATUS_VHD_DIFFERENCING_CHAIN_CYCLE_DETECTED),
            0xc03a0019 => Some(NtStatusWindows::STATUS_VHD_DIFFERENCING_CHAIN_ERROR_IN_PARENT),
            0xc03a001a => Some(NtStatusWindows::STATUS_VIRTUAL_DISK_LIMITATION),
            0xc03a001b => Some(NtStatusWindows::STATUS_VHD_INVALID_TYPE),
            0xc03a001c => Some(NtStatusWindows::STATUS_VHD_INVALID_STATE),
            0xc03a001d => Some(NtStatusWindows::STATUS_VIRTDISK_UNSUPPORTED_DISK_SECTOR_SIZE),
            0xc03a001e => Some(NtStatusWindows::STATUS_VIRTDISK_DISK_ALREADY_OWNED),
            0xc03a001f => Some(NtStatusWindows::STATUS_VIRTDISK_DISK_ONLINE_AND_WRITABLE),
            0xc03a0020 => Some(NtStatusWindows::STATUS_CTLOG_TRACKING_NOT_INITIALIZED),
            0xc03a0021 => Some(NtStatusWindows::STATUS_CTLOG_LOGFILE_SIZE_EXCEEDED_MAXSIZE),
            0xc03a0022 => Some(NtStatusWindows::STATUS_CTLOG_VHD_CHANGED_OFFLINE),
            _ => None,
        }
    }

    /// One slice of the symbol table.
    #[verifier::spinoff_prover]
    #[verifier::rlimit(100)]
    fn to_u32_part49(self) -> (r: Option<u32>)
        ensures
            r == self.spec_to_u32_part49(),
    {
        match self {
            NtStatusWindows::STATUS_VOLMGR_DIFFERENT_SECTOR_SIZE => Some(0xc038004e),
            NtStatusWindows::STATUS_VOLMGR_BAD_BOOT_DISK => Some(0xc038004f),
            NtStatusWindows::STATUS_VOLMGR_PACK_CONFIG_OFFLINE => Some(0xc0380050),
            NtStatusWindows::STATUS_VOLMGR_PACK_CONFIG_ONLINE => Some(0xc0380051),
            NtStatusWindows::STATUS_VOLMGR_NOT_PRIMARY_PACK => Some(0xc0380052),
            NtStatusWindows::STATUS_VOLMGR_PACK_LOG_UPDATE_FAILED => Some(0xc0380053),
            NtStatusWindows::STATUS_VOLMGR_NUMBER_OF_DISKS_IN_PLEX_INVALID => Some(0xc0380054),
            NtStatusWindows::STATUS_VOLMGR_NUMBER_OF_DISKS_IN_MEMBER_INVALID => Some(0xc0380055),
            NtStatusWindows::STATUS_VOLMGR_VOLUME_MIRRORED => Some(0xc0380056),
            NtStatusWindows::STATUS_VOLMGR_PLEX_NOT_SIMPLE_SPANNED => Some(0xc0380057),
            NtStatusWindows::STATUS_VOLMGR_NO_VALID_LOG_COPIES => Some(0xc0380058),
            NtStatusWindows::STATUS_VOLMGR_PRIMARY_PACK_PRESENT => Some(0xc0380059),
            NtStatusWindows::STATUS_VOLMGR_NUMBER_OF_DISKS_INVALID => Some(0xc038005a),
            NtStatusWindows::STATUS_VOLMGR_MIRROR_NOT_SUPPORTED => Some(0xc038005b),
            NtStatusWindows::STATUS_VOLMGR_RAID5_NOT_SUPPORTED => Some(0xc038005c),
            NtStatusWindows::STATUS_BCD_TOO_MANY_ELEMENTS => Some(0xc0390002),
            NtStatusWindows::STATUS_VHD_DRIVE_FOOTER_MISSING => Some(0xc03a0001),
            NtStatusWindows::STATUS_VHD_DRIVE_FOOTER_CHECKSUM_MISMATCH => Some(0xc03a0002),
            NtStatusWindows::STATUS_VHD_DRIVE_FOOTER_CORRUPT => Some(0xc03a0003),
            NtStatusWindows::STATUS_VHD_FORMAT_UNKNOWN => Some(0xc03a0004),
            NtStatusWindows::STATUS_VHD_FORMAT_UNSUPPORTED_VERSION => Some(0xc03a0005),
            NtStatusWindows::STATUS_VHD_SPARSE_HEADER_CHECKSUM_MISMATCH => Some(0xc03a0006),
            NtStatusWindows::STATUS_VHD_SPARSE_HEADER_UNSUPPORTED_VERSION => Some(0xc03a0007),
            NtStatusWindows::STATUS_VHD_SPARSE_HEADER_CORRUPT => Some(0xc03a0008),
            NtStatusWindows::STATUS_VHD_BLOCK_ALLOCATION_FAILURE => Some(0xc03a0009),
            NtStatusWindows::STATUS_VHD_BLOCK_ALLOCATION_TABLE_CORRUPT => Some(0xc03a000a),
            NtStatusWindows::STATUS_VHD_INVALID_BLOCK_SIZE => Some(0xc03a000b),
            NtStatusWindows::STATUS_VHD_BITMAP_MISMATCH => Some(0xc03a000c),
            NtStatusWindows::STATUS_VHD_PARENT_VHD_NOT_FOUND => Some(0xc03a000d),
            NtStatusWindows::STATUS_VHD_CHILD_PARENT_ID_MISMATCH => Some(0xc03a000e),
            NtStatusWindows::STATUS_VHD_CHILD_PARENT_TIMESTAMP_MISMATCH => Some(0xc03a000f),
            NtStatusWindows::STATUS_VHD_METADATA_READ_FAILURE => Some(0xc03a0010),
            NtStatusWindows::STATUS_VHD_METADATA_WRITE_FAILURE => Some(0xc03a0011),
            NtStatusWindows::STATUS_VHD_INVALID_SIZE => Some(0xc03a0012),
            NtStatusWindows::STATUS_VHD_INVALID_FILE_SIZE => Some(0xc03a0013),
            NtStatusWindows::STATUS_VIRTDISK_PROVIDER_NOT_FOUND => Some(0xc03a0014),
            NtStatusWindows::STATUS_VIRTDISK_NOT_VIRTUAL_DISK => Some(0xc03a0015),
            NtStatusWindows::STATUS_VHD_PARENT_VHD_ACCESS_DENIED => Some(0xc03a0016),
            NtStatusWindows::STATUS_VHD_CHILD_PARENT_SIZE_MISMATCH => Some(0xc03a0017),
            NtStatusWindows::STATUS_VHD_DIFFERENCING_CHAIN_CYCLE_DETECTED => Some(0xc03a0018),
            NtStatusWindows::STATUS_VHD_DIFFERENCING_CHAIN_ERROR_IN_PARENT => Some(0xc03a0019),
            NtStatusWindows::STATUS_VIRTUAL_DISK_LIMITATION => Some(0xc03a001a),
            NtStatusWindows::STATUS_VHD_INVALID_TYPE => Some(0xc03a001b),
            NtStatusWindows::STATUS_VHD_INVALID_STATE => Some(0xc03a001c),
            NtStatusWindows::STATUS_VIRTDISK_UNSUPPORTED_DISK_SECTOR_SIZE => Some(0xc03a001d),
            NtStatusWindows::STATUS_VIRTDISK_DISK_ALREADY_OWNED => Some(0xc03a001e),
            NtStatusWindows::STATUS_VIRTDISK_DISK_ONLINE_AND_WRITABLE => Some(0xc03a001f),
            NtStatusWindows::STATUS_CTLOG_TRACKING_NOT_INITIALIZED => Some(0xc03a0020),
            NtStatusWindows::STATUS_CTLOG_LOGFILE_SIZE_EXCEEDED_MAXSIZE => Some(0xc03a0021),
            NtStatusWindows::STATUS_CTLOG_VHD_CHANGED_OFFLINE => Some(0xc03a0022),
            _ => None,
        }
    }

    /// One slice of the symbol table.
    #[verifier::spinoff_prover]
    #[verifier::rlimit(100)]
    fn from_u32_part49(raw: u32) -> (r: Option<NtStatusWindows>)
        ensures
            r == NtStatusWindows::spec_from_u32_part49(raw),
    {
        match raw {
            0xc038004e => Some(NtStatusWindows::STATUS_VOLMGR_DIFFERENT_SECTOR_SIZE),
            0xc038004f => Some(NtStatusWindows::STATUS_VOLMGR_BAD_BOOT_DISK),
            0xc0380050 => Some(NtStatusWindows::STATUS_VOLMGR_PACK_CONFIG_OFFLINE),
            0xc0380051 => Some(NtStatusWindows::STATUS_VOLMGR_PACK_CONFIG_ONLINE),
            0xc0380052 => Some(NtStatusWindows::STATUS_VOLMGR_NOT_PRIMARY_PACK),
            0xc0380053 => Some(NtStatusWindows::STATUS_VOLMGR_PACK_LOG_UPDATE_FAILED),
            0xc0380054 => Some(NtStatusWindows::STATUS_VOLMGR_NUMBER_OF_DISKS_IN_PLEX_INVALID),
            0xc0380055 => Some(NtStatusWindows::STATUS_VOLMGR_NUMBER_OF_DISKS_IN_MEMBER_INVALID),
            0xc0380056 => Some(NtStatusWindows::STATUS_VOLMGR_VOLUME_MIRRORED),
            0xc0380057 => Some(NtStatusWindows::STATUS_VOLMGR_PLEX_NOT_SIMPLE_SPANNED),
            0xc0380058 => Some(NtStatusWindows::STATUS_VOLMGR_NO_VALID_LOG_COPIES),
            0xc0380059 => Some(NtStatusWindows::STATUS_VOLMGR_PRIMARY_PACK_PRESENT),
            0xc038005a => Some(NtStatusWindows::STATUS_VOLMGR_NUMBER_OF_DISKS_INVALID),
            0xc038005b => Some(NtStatusWindows::STATUS_VOLMGR_MIRROR_NOT_SUPPORTED),
            0xc038005c => Some(NtStatusWindows::STATUS_VOLMGR_RAID5_NOT_SUPPORTED),
            0xc0390002 => Some(NtStatusWindows::STATUS_BCD_TOO_MANY_ELEMENTS),
            0xc03a0001 => Some(NtStatusWindows::STATUS_VHD_DRIVE_FOOTER_MISSING),
            0xc03a0002 => Some(NtStatusWindows::STATUS_VHD_DRIVE_FOOTER_CHECKSUM_MISMATCH),
            0xc03a0003 => Some(NtStatusWindows::STATUS_VHD_DRIVE_FOOTER_CORRUPT),
            0xc03a0004 => Some(NtStatusWindows::STATUS_VHD_FORMAT_UNKNOWN),
            0xc03a0005 => Some(NtStatusWindows::STATUS_VHD_FORMAT_UNSUPPORTED_VERSION),
            0xc03a0006 => Some(NtStatusWindows::STATUS_VHD_SPARSE_HEADER_CHECKSUM_MISMATCH),
            0xc03a0007 => Some(NtStatusWindows::STATUS_VHD_SPARSE_HEADER_UNSUPPORTED_VERSION),
            0xc03a0008 => Some(NtStatusWindows::STATUS_VHD_SPARSE_HEADER_CORRUPT),
            0xc03a0009 => Some(NtStatusWindows::STATUS_VHD_BLOCK_ALLOCATION_FAILURE),
            0xc03a000a => Some(NtStatusWindows::STATUS_VHD_BLOCK_ALLOCATION_TABLE_CORRUPT),
            0xc03a000b => Some(NtStatusWindows::STATUS_VHD_INVALID_BLOCK_SIZE),
            0xc03a000c => Some(NtStatusWindows::STATUS_VHD_BITMAP_MISMATCH),
            0xc03a000d => Some(NtStatusWindows::STATUS_VHD_PARENT_VHD_NOT_FOUND),
            0xc03a000e => Some(NtStatusWindows::STATUS_VHD_CHILD_PARENT_ID_MISMATCH),
            0xc03a000f => Some(NtStatusWindows::STATUS_VHD_CHILD_PARENT_TIMESTAMP_MISMATCH),
            0xc03a0010 => Some(NtStatusWindows::STATUS_VHD_METADATA_READ_FAILURE),
            0xc03a0011 => Some(NtStatusWindows::STATUS_VHD_METADATA_WRITE_FAILURE),
            0xc03a0012 => Some(NtStatusWindows::STATUS_VHD_INVALID_SIZE),
            0xc03a0013 => Some(NtStatusWindows::STATUS_VHD_INVALID_FILE_SIZE),
            0xc03a0014 => Some(NtStatusWindows::STATUS_VIRTDISK_PROVIDER_NOT_FOUND),
            0xc03a0015 => Some(NtStatusWindows::STATUS_VIRTDISK_NOT_VIRTUAL_DISK),
            0xc03a0016 => Some(NtStatusWindows::STATUS_VHD_PARENT_VHD_ACCESS_DENIED),
            0xc03a0017 => Some(NtStatusWindows::STATUS_VHD_CHILD_PARENT_SIZE_MISMATCH),
            0xc03a0018 => Some(NtStatusWindows::STATUS_VHD_DIFFERENCING_CHAIN_CYCLE_DETECTED),
            0xc03a0019 => Some(NtStatusWindows::STATUS_VHD_DIFFERENCING_CHAIN_ERROR_IN_PARENT),
            0xc03a001a => Some(NtStatusWindows::STATUS_VIRTUAL_DISK_LIMITATION),
            0xc03a001b => Some(NtStatusWindows::STATUS_VHD_INVALID_TYPE),
            0xc03a001c => Some(NtStatusWindows::STATUS_VHD_INVALID_STATE),
            0xc03a001d => Some(NtStatusWindows::STATUS_VIRTDISK_UNSUPPORTED_DISK_SECTOR_SIZE),
            0xc03a001e => Some(NtStatusWindows::STATUS_VIRTDISK_DISK_ALREADY_OWNED),
            0xc03a001f => Some(NtStatusWindows::STATUS_VIRTDISK_DISK_ONLINE_AND_WRITABLE),
            0xc03a0020 => Some(NtStatusWindows::STATUS_CTLOG_TRACKING_NOT_INITIALIZED),
            0xc03a0021 => Some(NtStatusWindows::STATUS_CTLOG_LOGFILE_SIZE_EXCEEDED_MAXSIZE),
            0xc03a0022 => Some(NtStatusWindows::STATUS_CTLOG_VHD_CHANGED_OFFLINE),
            _ => None,
        }
    }

    /// One slice of the symbol table: the raw value of this symbol,
    /// where this slice holds it.
    pub open spec fn spec_to_u32_part50(self) -> Option<u32> {
        match self {
            NtStatusWindows::STATUS_CTLOG_INVALID_TRACKING_STATE => Some(0xc03a0023),
            NtStatusWindows::STATUS_CTLOG_INCONSISTENT_TRACKING_FILE => Some(0xc03a0024),
            NtStatusWindows::STATUS_VHD_METADATA_FULL => Some(0xc03a0028),
            NtStatusWindows::STATUS_VHD_INVALID_CHANGE_TRACKING_ID => Some(0xc03a0029),
            NtStatusWindows::STATUS_VHD_CHANGE_TRACKING_DISABLED => Some(0xc03a002a),
            NtStatusWindows::STATUS_VHD_MISSING_CHANGE_TRACKING_INFORMATION => Some(0xc03a0030),
            NtStatusWindows::STATUS_VHD_RESIZE_WOULD_TRUNCATE_DATA => Some(0xc03a0031),
            NtStatusWindows::STATUS_VHD_COULD_NOT_COMPUTE_MINIMUM_VIRTUAL_SIZE => Some(0xc03a0032),
            NtStatusWindows::STATUS_VHD_ALREADY_AT_OR_BELOW_MINIMUM_VIRTUAL_SIZE => Some(0xc03a0033),
            NtStatusWindows::STATUS_RKF_KEY_NOT_FOUND => Some(0xc0400001),
            NtStatusWindows::STATUS_RKF_DUPLICATE_KEY => Some(0xc0400002),
            NtStatusWindows::STATUS_RKF_BLOB_FULL => Some(0xc0400003),
            NtStatusWindows::STATUS_RKF_STORE_FULL => Some(0xc0400004),
            NtStatusWindows::STATUS_RKF_FILE_BLOCKED => Some(0xc0400005),
            NtStatusWindows::STATUS_RKF_ACTIVE_KEY => Some(0xc0400006),
            NtStatusWindows::STATUS_RDBSS_RESTART_OPERATION => Some(0xc0410001),
            NtStatusWindows::STATUS_RDBSS_CONTINUE_OPERATION => Some(0xc0410002),
            NtStatusWindows::STATUS_RDBSS_POST_OPERATION => Some(0xc0410003),
            NtStatusWindows::STATUS_RDBSS_RETRY_LOOKUP => Some(0xc0410004),
            NtStatusWindows::STATUS_BTH_ATT_INVALID_HANDLE => Some(0xc0420001),
            NtStatusWindows::STATUS_BTH_ATT_READ_NOT_PERMITTED => Some(0xc0420002),
            NtStatusWindows::STATUS_BTH_ATT_WRITE_NOT_PERMITTED => Some(0xc0420003),
            NtStatusWindows::STATUS_BTH_ATT_INVALID_PDU => Some(0xc0420004),
            NtStatusWindows::STATUS_BTH_ATT_INSUFFICIENT_AUTHENTICATION => Some(0xc0420005),
            NtStatusWindows::STATUS_BTH_ATT_REQUEST_NOT_SUPPORTED => Some(0xc0420006),
            NtStatusWindows::STATUS_BTH_ATT_INVALID_OFFSET => Some(0xc0420007),
            NtStatusWindows::STATUS_BTH_ATT_INSUFFICIENT_AUTHORIZATION => Some(0xc0420008),
            NtStatusWindows::STATUS_BTH_ATT_PREPARE_QUEUE_FULL => Some(0xc0420009),
            NtStatusWindows::STATUS_BTH_ATT_ATTRIBUTE_NOT_FOUND => Some(0xc042000a),
            NtStatusWindows::STATUS_BTH_ATT_ATTRIBUTE_NOT_LONG => Some(0xc042000b),
            NtStatusWindows::STATUS_BTH_ATT_INSUFFICIENT_ENCRYPTION_KEY_SIZE => Some(0xc042000c),
            NtStatusWindows::STATUS_BTH_ATT_INVALID_ATTRIBUTE_VALUE_LENGTH => Some(0xc042000d),
            NtStatusWindows::STATUS_BTH_ATT_UNLIKELY => Some(0xc042000e),
            NtStatusWindows::STATUS_BTH_ATT_INSUFFICIENT_ENCRYPTION => Some(0xc042000f),
            NtStatusWindows::STATUS_BTH_ATT_UNSUPPORTED_GROUP_TYPE => Some(0xc0420010),
            NtStatusWindows::STATUS_BTH_ATT_INSUFFICIENT_RESOURCES => Some(0xc0420011),
            NtStatusWindows::STATUS_BTH_ATT_UNKNOWN_ERROR => Some(0xc0421000),
            NtStatusWindows::STATUS_SECUREBOOT_ROLLBACK_DETECTED => Some(0xc0430001),
            NtStatusWindows::STATUS_SECUREBOOT_POLICY_VIOLATION => Some(0xc0430002),
            NtStatusWindows::STATUS_SECUREBOOT_INVALID_POLICY => Some(0xc0430003),
            NtStatusWindows::STATUS_SECUREBOOT_POLICY_PUBLISHER_NOT_FOUND => Some(0xc0430004),
            NtStatusWindows::STATUS_SECUREBOOT_POLICY_NOT_SIGNED => Some(0xc0430005),
            NtStatusWindows::STATUS_SECUREBOOT_FILE_REPLACED => Some(0xc0430007),
            NtStatusWindows::STATUS_SECUREBOOT_POLICY_NOT_AUTHORIZED => Some(0xc0430008),
            NtStatusWindows::STATUS_SECUREBOOT_POLICY_UNKNOWN => Some(0xc0430009),
            NtStatusWindows::STATUS_SECUREBOOT_POLICY_MISSING_ANTIROLLBACKVERSION => Some(0xc043000a),
            NtStatusWindows::STATUS_SECUREBOOT_PLATFORM_ID_MISMATCH => Some(0xc043000b),
            NtStatusWindows::STATUS_SECUREBOOT_POLICY_ROLLBACK_DETECTED => Some(0xc043000c),
            NtStatusWindows::STATUS_SECUREBOOT_POLICY_UPGRADE_MISMATCH => Some(0xc043000d),
            NtStatusWindows::STATUS_SECUREBOOT_REQUIRED_POLICY_FILE_MISSING => Some(0xc043000e),
            _ => None,
        }
    }

    /// One slice of the symbol table: the symbol this slice gives a
    /// raw value, where it holds one.
    pub open spec fn spec_from_u32_part50(raw: u32) -> Option<NtStatusWindows> {
        match raw {
            0xc03a0023 => Some(NtStatusWindows::STATUS_CTLOG_INVALID_TRACKING_STATE),
            0xc03a0024 => Some(NtStatusWindows::STATUS_CTLOG_INCONSISTENT_TRACKING_FILE),
            0xc03a0028 => Some(NtStatusWindows::STATUS_VHD_METADATA_FULL),
            0xc03a0029 => Some(NtStatusWindows::STATUS_VHD_INVALID_CHANGE_TRACKING_ID),
            0xc03a002a => Some(NtStatusWindows::STATUS_VHD_CHANGE_TRACKING_DISABLED),
            0xc03a0030 => Some(NtStatusWindows::STATUS_VHD_MISSING_CHANGE_TRACKING_INFORMATION),
            0xc03a0031 => Some(NtStatusWindows::STATUS_VHD_RESIZE_WOULD_TRUNCATE_DATA),
            0xc03a0032 => Some(NtStatusWindows::STATUS_VHD_COULD_NOT_COMPUTE_MINIMUM_VIRTUAL_SIZE),
            0xc03a0033 => Some(NtStatusWindows::STATUS_VHD_ALREADY_AT_OR_BELOW_MINIMUM_VIRTUAL_SIZE),
            0xc0400001 => Some(NtStatusWindows::STATUS_RKF_KEY_NOT_FOUND),
            0xc0400002 => Some(NtStatusWindows::STATUS_RKF_DUPLICATE_KEY),
            0xc0400003 => Some(NtStatusWindows::STATUS_RKF_BLOB_FULL),
            0xc0400004 => Some(NtStatusWindows::STATUS_RKF_STORE_FULL),
            0xc0400005 => Some(NtStatusWindows::STATUS_RKF_FILE_BLOCKED),
            0xc0400006 => Some(NtStatusWindows::STATUS_RKF_ACTIVE_KEY),
            0xc0410001 => Some(NtStatusWindows::STATUS_RDBSS_RESTART_OPERATION),
            0xc0410002 => Some(NtStatusWindows::STATUS_RDBSS_CONTINUE_OPERATION),
            0xc0410003 => Some(NtStatusWindows::STATUS_RDBSS_POST_OPERATION),
            0xc0410004 => Some(NtStatusWindows::STATUS_RDBSS_RETRY_LOOKUP),
            0xc0420001 => Some(NtStatusWindows::STATUS_BTH_ATT_INVALID_HANDLE),
            0xc0420002 => Some(NtStatusWindows::STATUS_BTH_ATT_READ_NOT_PERMITTED),
            0xc0420003 => Some(NtStatusWindows::STATUS_BTH_ATT_WRITE_NOT_PERMITTED),
            0xc0420004 => Some(NtStatusWindows::STATUS_BTH_ATT_INVALID_PDU),
            0xc0420005 => Some(NtStatusWindows::STATUS_BTH_ATT_INSUFFICIENT_AUTHENTICATION),
            0xc0420006 => Some(NtStatusWindows::STATUS_BTH_ATT_REQUEST_NOT_SUPPORTED),
            0xc0420007 => Some(NtStatusWindows::STATUS_BTH_ATT_INVALID_OFFSET),
            0xc0420008 => Some(NtStatusWindows::STATUS_BTH_ATT_INSUFFICIENT_AUTHORIZATION),
            0xc0420009 => Some(NtStatusWindows::STATUS_BTH_ATT_PREPARE_QUEUE_FULL),
            0xc042000a => Some(NtStatusWindows::STATUS_BTH_ATT_ATTRIBUTE_NOT_FOUND),
            0xc042000b => Some(NtStatusWindows::STATUS_BTH_ATT_ATTRIBUTE_NOT_LONG),
            0xc042000c => Some(NtStatusWindows::STATUS_BTH_ATT_INSUFFICIENT_ENCRYPTION_KEY_SIZE),
            0xc042000d => Some(NtStatusWindows::STATUS_BTH_ATT_INVALID_ATTRIBUTE_VALUE_LENGTH),
            0xc042000e => Some(NtStatusWindows::STATUS_BTH_ATT_UNLIKELY),
            0xc042000f => Some(NtStatusWindows::STATUS_BTH_ATT_INSUFFICIENT_ENCRYPTION),
            0xc0420010 => Some(NtStatusWindows::STATUS_BTH_ATT_UNSUPPORTED_GROUP_TYPE),
            0xc0420011 => Some(NtStatusWindows::STATUS_BTH_ATT_INSUFFICIENT_RESOURCES),
            0xc0421000 => Some(NtStatusWindows::STATUS_BTH_ATT_UNKNOWN_ERROR),
            0xc0430001 => Some(NtStatusWindows::STATUS_SECUREBOOT_ROLLBACK_DETECTED),
            0xc0430002 => Some(NtStatusWindows::STATUS_SECUREBOOT_POLICY_VIOLATION),
            0xc0430003 => Some(NtStatusWindows::STATUS_SECUREBOOT_INVALID_POLICY),
            0xc0430004 => Some(NtStatusWindows::STATUS_SECUREBOOT_POLICY_PUBLISHER_NOT_FOUND),
            0xc0430005 => Some(NtStatusWindows::STATUS_SECUREBOOT_POLICY_NOT_SIGNED),
            0xc0430007 => Some(NtStatusWindows::STATUS_SECUREBOOT_FILE_REPLACED),
            0xc0430008 => Some(NtStatusWindows::STATUS_SECUREBOOT_POLICY_NOT_AUTHORIZED),
            0xc0430009 => Some(NtStatusWindows::STATUS_SECUREBOOT_POLICY_UNKNOWN),
            0xc043000a => Some(NtStatusWindows::STATUS_SECUREBOOT_POLICY_MISSING_ANTIROLLBACKVERSION),
            0xc043000b => Some(NtStatusWindows::STATUS_SECUREBOOT_PLATFORM_ID_MISMATCH),
            0xc043000c => Some(NtStatusWindows::STATUS_SECUREBOOT_POLICY_ROLLBACK_DETECTED),
            0xc043000d => Some(NtStatusWindows::STATUS_SECUREBOOT_POLICY_UPGRADE_MISMATCH),
            0xc043000e => Some(NtStatusWindows::STATUS_SECUREBOOT_REQUIRED_POLICY_FILE_MISSING),
            _ => None,
        }
    }

    /// One slice of the symbol table.
    #[verifier::spinoff_prover]
    #[verifier::rlimit(100)]
    fn to_u32_part50(self) -> (r: Option<u32>)
        ensures
            r == self.spec_to_u32_part50(),
    {
        match self {
            NtStatusWindows::STATUS_CTLOG_INVALID_TRACKING_STATE => Some(0xc03a0023),
            NtStatusWindows::STATUS_CTLOG_INCONSISTENT_TRACKING_FILE => Some(0xc03a0024),
            NtStatusWindows::STATUS_VHD_METADATA_FULL => Some(0xc03a0028),
            NtStatusWindows::STATUS_VHD_INVALID_CHANGE_TRACKING_ID => Some(0xc03a0029),
            NtStatusWindows::STATUS_VHD_CHANGE_TRACKING_DISABLED => Some(0xc03a002a),
            NtStatusWindows::STATUS_VHD_MISSING_CHANGE_TRACKING_INFORMATION => Some(0xc03a0030),
            NtStatusWindows::STATUS_VHD_RESIZE_WOULD_TRUNCATE_DATA => Some(0xc03a0031),
            NtStatusWindows::STATUS_VHD_COULD_NOT_COMPUTE_MINIMUM_VIRTUAL_SIZE => Some(0xc03a0032),
            NtStatusWindows::STATUS_VHD_ALREADY_AT_OR_BELOW_MINIMUM_VIRTUAL_SIZE => Some(0xc03a0033),
            NtStatusWindows::STATUS_RKF_KEY_NOT_FOUND => Some(0xc0400001),
            NtStatusWindows::STATUS_RKF_DUPLICATE_KEY => Some(0xc0400002),
            NtStatusWindows::STATUS_RKF_BLOB_FULL => Some(0xc0400003),
            NtStatusWindows::STATUS_RKF_STORE_FULL => Some(0xc0400004),
            NtStatusWindows::STATUS_RKF_FILE_BLOCKED => Some(0xc0400005),
            NtStatusWindows::STATUS_RKF_ACTIVE_KEY => Some(0xc0400006),
            NtStatusWindows::STATUS_RDBSS_RESTART_OPERATION => Some(0xc0410001),
            NtStatusWindows::STATUS_RDBSS_CONTINUE_OPERATION => Some(0xc0410002),
            NtStatusWindows::STATUS_RDBSS_POST_OPERATION => Some(0xc0410003),
            NtStatusWindows::STATUS_RDBSS_RETRY_LOOKUP => Some(0xc0410004),
            NtStatusWindows::STATUS_BTH_ATT_INVALID_HANDLE => Some(0xc0420001),
            NtStatusWindows::STATUS_BTH_ATT_READ_NOT_PERMITTED => Some(0xc0420002),
            NtStatusWindows::STATUS_BTH_ATT_WRITE_NOT_PERMITTED => Some(0xc0420003),
            NtStatusWindows::STATUS_BTH_ATT_INVALID_PDU => Some(0xc0420004),
            NtStatusWindows::STATUS_BTH_ATT_INSUFFICIENT_AUTHENTICATION => Some(0xc0420005),
            NtStatusWindows::STATUS_BTH_ATT_REQUEST_NOT_SUPPORTED => Some(0xc0420006),
            NtStatusWindows::STATUS_BTH_ATT_INVALID_OFFSET => Some(0xc0420007),
            NtStatusWindows::STATUS_BTH_ATT_INSUFFICIENT_AUTHORIZATION => Some(0xc0420008),
            NtStatusWindows::STATUS_BTH_ATT_PREPARE_QUEUE_FULL => Some(0xc0420009),
            NtStatusWindows::STATUS_BTH_ATT_ATTRIBUTE_NOT_FOUND => Some(0xc042000a),
            NtStatusWindows::STATUS_BTH_ATT_ATTRIBUTE_NOT_LONG => Some(0xc042000b),
            NtStatusWindows::STATUS_BTH_ATT_INSUFFICIENT_ENCRYPTION_KEY_SIZE => Some(0xc042000c),
            NtStatusWindows::STATUS_BTH_ATT_INVALID_ATTRIBUTE_VALUE_LENGTH => Some(0xc042000d),
            NtStatusWindows::STATUS_BTH_ATT_UNLIKELY => Some(0xc042000e),
            NtStatusWindows::STATUS_BTH_ATT_INSUFFICIENT_ENCRYPTION => Some(0xc042000f),
            NtStatusWindows::STATUS_BTH_ATT_UNSUPPORTED_GROUP_TYPE => Some(0xc0420010),
            NtStatusWindows::STATUS_BTH_ATT_INSUFFICIENT_RESOURCES => Some(0xc0420011),
            NtStatusWindows::STATUS_BTH_ATT_UNKNOWN_ERROR => Some(0xc0421000),
            NtStatusWindows::STATUS_SECUREBOOT_ROLLBACK_DETECTED => Some(0xc0430001),
            NtStatusWindows::STATUS_SECUREBOOT_POLICY_VIOLATION => Some(0xc0430002),
            NtStatusWindows::STATUS_SECUREBOOT_INVALID_POLICY => Some(0xc0430003),
            NtStatusWindows::STATUS_SECUREBOOT_POLICY_PUBLISHER_NOT_FOUND => Some(0xc0430004),
            NtStatusWindows::STATUS_SECUREBOOT_POLICY_NOT_SIGNED => Some(0xc0430005),
            NtStatusWindows::STATUS_SECUREBOOT_FILE_REPLACED => Some(0xc0430007),
            NtStatusWindows::STATUS_SECUREBOOT_POLICY_NOT_AUTHORIZED => Some(0xc0430008),
            NtStatusWindows::STATUS_SECUREBOOT_POLICY_UNKNOWN => Some(0xc0430009),
            NtStatusWindows::STATUS_SECUREBOOT_POLICY_MISSING_ANTIROLLBACKVERSION => Some(0xc043000a),
            NtStatusWindows::STATUS_SECUREBOOT_PLATFORM_ID_MISMATCH => Some(0xc043000b),
            NtStatusWindows::STATUS_SECUREBOOT_POLICY_ROLLBACK_DETECTED => Some(0xc043000c),
            NtStatusWindows::STATUS_SECUREBOOT_POLICY_UPGRADE_MISMATCH => Some(0xc043000d),
            NtStatusWindows::STATUS_SECUREBOOT_REQUIRED_POLICY_FILE_MISSING => Some(0xc043000e),
            _ => None,
        }
    }

    /// One slice of the symbol table.
    #[verifier::spinoff_prover]
    #[verifier::rlimit(100)]
    fn from_u32_part50(raw: u32) -> (r: Option<NtStatusWindows>)
        ensures
            r == NtStatusWindows::spec_from_u32_part50(raw),
    {
        match raw {
            0xc03a0023 => Some(NtStatusWindows::STATUS_CTLOG_INVALID_TRACKING_STATE),
            0xc03a0024 => Some(NtStatusWindows::STATUS_CTLOG_INCONSISTENT_TRACKING_FILE),
            0xc03a0028 => Some(NtStatusWindows::STATUS_VHD_METADATA_FULL),
            0xc03a0029 => Some(NtStatusWindows::STATUS_VHD_INVALID_CHANGE_TRACKING_ID),
            0xc03a002a => Some(NtStatusWindows::STATUS_VHD_CHANGE_TRACKING_DISABLED),
            0xc03a0030 => Some(NtStatusWindows::STATUS_VHD_MISSING_CHANGE_TRACKING_INFORMATION),
            0xc03a0031 => Some(NtStatusWindows::STATUS_VHD_RESIZE_WOULD_TRUNCATE_DATA),
            0xc03a0032 => Some(NtStatusWindows::STATUS_VHD_COULD_NOT_COMPUTE_MINIMUM_VIRTUAL_SIZE),
            0xc03a0033 => Some(NtStatusWindows::STATUS_VHD_ALREADY_AT_OR_BELOW_MINIMUM_VIRTUAL_SIZE),
            0xc0400001 => Some(NtStatusWindows::STATUS_RKF_KEY_NOT_FOUND),
            0xc0400002 => Some(NtStatusWindows::STATUS_RKF_DUPLICATE_KEY),
            0xc0400003 => Some(NtStatusWindows::STATUS_RKF_BLOB_FULL),
            0xc0400004 => Some(NtStatusWindows::STATUS_RKF_STORE_FULL),
            0xc0400005 => Some(NtStatusWindows::STATUS_RKF_FILE_BLOCKED),
            0xc0400006 => Some(NtStatusWindows::STATUS_RKF_ACTIVE_KEY),
            0xc0410001 => Some(NtStatusWindows::STATUS_RDBSS_RESTART_OPERATION),
            0xc0410002 => Some(NtStatusWindows::STATUS_RDBSS_CONTINUE_OPERATION),
            0xc0410003 => Some(NtStatusWindows::STATUS_RDBSS_POST_OPERATION),
            0xc0410004 => Some(NtStatusWindows::STATUS_RDBSS_RETRY_LOOKUP),
            0xc0420001 => Some(NtStatusWindows::STATUS_BTH_ATT_INVALID_HANDLE),
            0xc0420002 => Some(NtStatusWindows::STATUS_BTH_ATT_READ_NOT_PERMITTED),
            0xc0420003 => Some(NtStatusWindows::STATUS_BTH_ATT_WRITE_NOT_PERMITTED),
            0xc0420004 => Some(NtStatusWindows::STATUS_BTH_ATT_INVALID_PDU),
            0xc0420005 => Some(NtStatusWindows::STATUS_BTH_ATT_INSUFFICIENT_AUTHENTICATION),
            0xc0420006 => Some(NtStatusWindows::STATUS_BTH_ATT_REQUEST_NOT_SUPPORTED),
            0xc0420007 => Some(NtStatusWindows::STATUS_BTH_ATT_INVALID_OFFSET),
            0xc0420008 => Some(NtStatusWindows::STATUS_BTH_ATT_INSUFFICIENT_AUTHORIZATION),
            0xc0420009 => Some(NtStatusWindows::STATUS_BTH_ATT_PREPARE_QUEUE_FULL),
            0xc042000a => Some(NtStatusWindows::STATUS_BTH_ATT_ATTRIBUTE_NOT_FOUND),
            0xc042000b => Some(NtStatusWindows::STATUS_BTH_ATT_ATTRIBUTE_NOT_LONG),
            0xc042000c => Some(NtStatusWindows::STATUS_BTH_ATT_INSUFFICIENT_ENCRYPTION_KEY_SIZE),
            0xc042000d => Some(NtStatusWindows::STATUS_BTH_ATT_INVALID_ATTRIBUTE_VALUE_LENGTH),
            0xc042000e => Some(NtStatusWindows::STATUS_BTH_ATT_UNLIKELY),
            0xc042000f => Some(NtStatusWindows::STATUS_BTH_ATT_INSUFFICIENT_ENCRYPTION),
            0xc0420010 => Some(NtStatusWindows::STATUS_BTH_ATT_UNSUPPORTED_GROUP_TYPE),
            0xc0420011 => Some(NtStatusWindows::STATUS_BTH_ATT_INSUFFICIENT_RESOURCES),
            0xc0421000 => Some(NtStatusWindows::STATUS_BTH_ATT_UNKNOWN_ERROR),
            0xc0430001 => Some(NtStatusWindows::STATUS_SECUREBOOT_ROLLBACK_DETECTED),
            0xc0430002 => Some(NtStatusWindows::STATUS_SECUREBOOT_POLICY_VIOLATION),
            0xc0430003 => Some(NtStatusWindows::STATUS_SECUREBOOT_INVALID_POLICY),
            0xc0430004 => Some(NtStatusWindows::STATUS_SECUREBOOT_POLICY_PUBLISHER_NOT_FOUND),
            0xc0430005 => Some(NtStatusWindows::STATUS_SECUREBOOT_POLICY_NOT_SIGNED),
            0xc0430007 => Some(NtStatusWindows::STATUS_SECUREBOOT_FILE_REPLACED),
            0xc0430008 => Some(NtStatusWindows::STATUS_SECUREBOOT_POLICY_NOT_AUTHORIZED),
            0xc0430009 => Some(NtStatusWindows::STATUS_SECUREBOOT_POLICY_UNKNOWN),
            0xc043000a => Some(NtStatusWindows::STATUS_SECUREBOOT_POLICY_MISSING_ANTIROLLBACKVERSION),
            0xc043000b => Some(NtStatusWindows::STATUS_SECUREBOOT_PLATFORM_ID_MISMATCH),
            0xc043000c => Some(NtStatusWindows::STATUS_SECUREBOOT_POLICY_ROLLBACK_DETECTED),
            0xc043000d => Some(NtStatusWindows::STATUS_SECUREBOOT_POLICY_UPGRADE_MISMATCH),
            0xc043000e => Some(NtStatusWindows::STATUS_SECUREBOOT_REQUIRED_POLICY_FILE_MISSING),
            _ => None,
        }
    }

    /// One slice of the symbol table: the raw value of this symbol,
    /// where this slice holds it.
    pub open spec fn spec_to_u32_part51(self) -> Option<u32> {
        match self {
            NtStatusWindows::STATUS_SECUREBOOT_NOT_BASE_POLICY => Some(0xc043000f),
            NtStatusWindows::STATUS_SECUREBOOT_NOT_SUPPLEMENTAL_POLICY => Some(0xc0430010),
            NtStatusWindows::STATUS_AUDIO_ENGINE_NODE_NOT_FOUND => Some(0xc0440001),
            NtStatusWindows::STATUS_HDAUDIO_EMPTY_CONNECTION_LIST => Some(0xc0440002),
            NtStatusWindows::STATUS_HDAUDIO_CONNECTION_LIST_NOT_SUPPORTED => Some(0xc0440003),
            NtStatusWindows::STATUS_HDAUDIO_NO_LOGICAL_DEVICES_CREATED => Some(0xc0440004),
            NtStatusWindows::STATUS_HDAUDIO_NULL_LINKED_LIST_ENTRY => Some(0xc0440005),
            NtStatusWindows::STATUS_VSM_NOT_INITIALIZED => Some(0xc0450000),
            NtStatusWindows::STATUS_VSM_DMA_PROTECTION_NOT_IN_USE => Some(0xc0450001),
            NtStatusWindows::STATUS_VOLSNAP_BOOTFILE_NOT_VALID => Some(0xc0500003),
            NtStatusWindows::STATUS_VOLSNAP_ACTIVATION_TIMEOUT => Some(0xc0500004),
            NtStatusWindows::STATUS_IO_PREEMPTED => Some(0xc0510001),
            NtStatusWindows::STATUS_SVHDX_ERROR_STORED => Some(0xc05c0000),
            NtStatusWindows::STATUS_SVHDX_ERROR_NOT_AVAILABLE => Some(0xc05cff00),
            NtStatusWindows::STATUS_SVHDX_UNIT_ATTENTION_AVAILABLE => Some(0xc05cff01),
            NtStatusWindows::STATUS_SVHDX_UNIT_ATTENTION_CAPACITY_DATA_CHANGED => Some(0xc05cff02),
            NtStatusWindows::STATUS_SVHDX_UNIT_ATTENTION_RESERVATIONS_PREEMPTED => Some(0xc05cff03),
            NtStatusWindows::STATUS_SVHDX_UNIT_ATTENTION_RESERVATIONS_RELEASED => Some(0xc05cff04),
            NtStatusWindows::STATUS_SVHDX_UNIT_ATTENTION_REGISTRATIONS_PREEMPTED => Some(0xc05cff05),
            NtStatusWindows::STATUS_SVHDX_UNIT_ATTENTION_OPERATING_DEFINITION_CHANGED => Some(0xc05cff06),
            NtStatusWindows::STATUS_SVHDX_RESERVATION_CONFLICT => Some(0xc05cff07),
            NtStatusWindows::STATUS_SVHDX_WRONG_FILE_TYPE => Some(0xc05cff08),
            NtStatusWindows::STATUS_SVHDX_VERSION_MISMATCH => Some(0xc05cff09),
            NtStatusWindows::STATUS_VHD_SHARED => Some(0xc05cff0a),
            NtStatusWindows::STATUS_SVHDX_NO_INITIATOR => Some(0xc05cff0b),
            NtStatusWindows::STATUS_VHDSET_BACKING_STORAGE_NOT_FOUND => Some(0xc05cff0c),
            NtStatusWindows::STATUS_SMB_NO_PREAUTH_INTEGRITY_HASH_OVERLAP => Some(0xc05d0000),
            NtStatusWindows::STATUS_SMB_BAD_CLUSTER_DIALECT => Some(0xc05d0001),
            NtStatusWindows::STATUS_SMB_GUEST_LOGON_BLOCKED => Some(0xc05d0002),
            NtStatusWindows::STATUS_SPACES_FAULT_DOMAIN_TYPE_INVALID => Some(0xc0e70001),
            NtStatusWindows::STATUS_SPACES_RESILIENCY_TYPE_INVALID => Some(0xc0e70003),
            NtStatusWindows::STATUS_SPACES_DRIVE_SECTOR_SIZE_INVALID => Some(0xc0e70004),
            NtStatusWindows::STATUS_SPACES_DRIVE_REDUNDANCY_INVALID => Some(0xc0e70006),
            NtStatusWindows::STATUS_SPACES_NUMBER_OF_DATA_COPIES_INVALID => Some(0xc0e70007),
            NtStatusWindows::STATUS_SPACES_INTERLEAVE_LENGTH_INVALID => Some(0xc0e70009),
            NtStatusWindows::STATUS_SPACES_NUMBER_OF_COLUMNS_INVALID => Some(0xc0e7000a),
            NtStatusWindows::STATUS_SPACES_NOT_ENOUGH_DRIVES => Some(0xc0e7000b),
            NtStatusWindows::STATUS_SPACES_EXTENDED_ERROR => Some(0xc0e7000c),
            NtStatusWindows::STATUS_SPACES_PROVISIONING_TYPE_INVALID => Some(0xc0e7000d),
            NtStatusWindows::STATUS_SPACES_ALLOCATION_SIZE_INVALID => Some(0xc0e7000e),
            NtStatusWindows::STATUS_SPACES_ENCLOSURE_AWARE_INVALID => Some(0xc0e7000f),
            NtStatusWindows::STATUS_SPACES_WRITE_CACHE_SIZE_INVALID => Some(0xc0e70010),
            NtStatusWindows::STATUS_SPACES_NUMBER_OF_GROUPS_INVALID => Some(0xc0e70011),
            NtStatusWindows::STATUS_SPACES_DRIVE_OPERATIONAL_STATE_INVALID => Some(0xc0e70012),
            NtStatusWindows::STATUS_SPACES_UPDATE_COLUMN_STATE => Some(0xc0e70013),
            NtStatusWindows::STATUS_SPACES_MAP_REQUIRED => Some(0xc0e70014),
            NtStatusWindows::STATUS_SPACES_UNSUPPORTED_VERSION => Some(0xc0e70015),
            NtStatusWindows::STATUS_SPACES_CORRUPT_METADATA => Some(0xc0e70016),
            NtStatusWindows::STATUS_SPACES_DRT_FULL => Some(0xc0e70017),
            NtStatusWindows::STATUS_SPACES_INCONSISTENCY => Some(0xc0e70018),
            _ => None,
        }
    }

    /// One slice of the symbol table: the symbol this slice gives a
    /// raw value, where it holds one.
    pub open spec fn spec_from_u32_part51(raw: u32) -> Option<NtStatusWindows> {
        match raw {
            0xc043000f => Some(NtStatusWindows::STATUS_SECUREBOOT_NOT_BASE_POLICY),
            0xc0430010 => Some(NtStatusWindows::STATUS_SECUREBOOT_NOT_SUPPLEMENTAL_POLICY),
            0xc0440001 => Some(NtStatusWindows::STATUS_AUDIO_ENGINE_NODE_NOT_FOUND),
            0xc0440002 => Some(NtStatusWindows::STATUS_HDAUDIO_EMPTY_CONNECTION_LIST),
            0xc0440003 => Some(NtStatusWindows::STATUS_HDAUDIO_CONNECTION_LIST_NOT_SUPPORTED),
            0xc0440004 => Some(NtStatusWindows::STATUS_HDAUDIO_NO_LOGICAL_DEVICES_CREATED),
            0xc0440005 => Some(NtStatusWindows::STATUS_HDAUDIO_NULL_LINKED_LIST_ENTRY),
            0xc0450000 => Some(NtStatusWindows::STATUS_VSM_NOT_INITIALIZED),
            0xc0450001 => Some(NtStatusWindows::STATUS_VSM_DMA_PROTECTION_NOT_IN_USE),
            0xc0500003 => Some(NtStatusWindows::STATUS_VOLSNAP_BOOTFILE_NOT_VALID),
            0xc0500004 => Some(NtStatusWindows::STATUS_VOLSNAP_ACTIVATION_TIMEOUT),
            0xc0510001 => Some(NtStatusWindows::STATUS_IO_PREEMPTED),
            0xc05c0000 => Some(NtStatusWindows::STATUS_SVHDX_ERROR_STORED),
            0xc05cff00 => Some(NtStatusWindows::STATUS_SVHDX_ERROR_NOT_AVAILABLE),
            0xc05cff01 => Some(NtStatusWindows::STATUS_SVHDX_UNIT_ATTENTION_AVAILABLE),
            0xc05cff02 => Some(NtStatusWindows::STATUS_SVHDX_UNIT_ATTENTION_CAPACITY_DATA_CHANGED),
            0xc05cff03 => Some(NtStatusWindows::STATUS_SVHDX_UNIT_ATTENTION_RESERVATIONS_PREEMPTED),
            0xc05cff04 => Some(NtStatusWindows::STATUS_SVHDX_UNIT_ATTENTION_RESERVATIONS_RELEASED),
            0xc05cff05 => Some(NtStatusWindows::STATUS_SVHDX_UNIT_ATTENTION_REGISTRATIONS_PREEMPTED),
            0xc05cff06 => Some(NtStatusWindows::STATUS_SVHDX_UNIT_ATTENTION_OPERATING_DEFINITION_CHANGED),
            0xc05cff07 => Some(NtStatusWindows::STATUS_SVHDX_RESERVATION_CONFLICT),
            0xc05cff08 => Some(NtStatusWindows::STATUS_SVHDX_WRONG_FILE_TYPE),
            0xc05cff09 => Some(NtStatusWindows::STATUS_SVHDX_VERSION_MISMATCH),
            0xc05cff0a => Some(NtStatusWindows::STATUS_VHD_SHARED),
            0xc05cff0b => Some(NtStatusWindows::STATUS_SVHDX_NO_INITIATOR),
            0xc05cff0c => Some(NtStatusWindows::STATUS_VHDSET_BACKING_STORAGE_NOT_FOUND),
            0xc05d0000 => Some(NtStatusWindows::STATUS_SMB_NO_PREAUTH_INTEGRITY_HASH_OVERLAP),
            0xc05d0001 => Some(NtStatusWindows::STATUS_SMB_BAD_CLUSTER_DIALECT),
            0xc05d0002 => Some(NtStatusWindows::STATUS_SMB_GUEST_LOGON_BLOCKED),
            0xc0e70001 => Some(NtStatusWindows::STATUS_SPACES_FAULT_DOMAIN_TYPE_INVALID),
            0xc0e70003 => Some(NtStatusWindows::STATUS_SPACES_RESILIENCY_TYPE_INVALID),
            0xc0e70004 => Some(NtStatusWindows::STATUS_SPACES_DRIVE_SECTOR_SIZE_INVALID),
            0xc0e70006 => Some(NtStatusWindows::STATUS_SPACES_DRIVE_REDUNDANCY_INVALID),
            0xc0e70007 => Some(NtStatusWindows::STATUS_SPACES_NUMBER_OF_DATA_COPIES_INVALID),
            0xc0e70009 => Some(NtStatusWindows::STATUS_SPACES_INTERLEAVE_LENGTH_INVALID),
            0xc0e7000a => Some(NtStatusWindows::STATUS_SPACES_NUMBER_OF_COLUMNS_INVALID),
            0xc0e7000b => Some(NtStatusWindows::STATUS_SPACES_NOT_ENOUGH_DRIVES),
            0xc0e7000c => Some(NtStatusWindows::STATUS_SPACES_EXTENDED_ERROR),
            0xc0e7000d => Some(NtStatusWindows::STATUS_SPACES_PROVISIONING_TYPE_INVALID),
            0xc0e7000e => Some(NtStatusWindows::STATUS_SPACES_ALLOCATION_SIZE_INVALID),
            0xc0e7000f => Some(NtStatusWindows::STATUS_SPACES_ENCLOSURE_AWARE_INVALID),
            0xc0e70010 => Some(NtStatusWindows::STATUS_SPACES_WRITE_CACHE_SIZE_INVALID),
            0xc0e70011 => Some(NtStatusWindows::STATUS_SPACES_NUMBER_OF_GROUPS_INVALID),
            0xc0e70012 => Some(NtStatusWindows::STATUS_SPACES_DRIVE_OPERATIONAL_STATE_INVALID),
            0xc0e70013 => Some(NtStatusWindows::STATUS_SPACES_UPDATE_COLUMN_STATE),
            0xc0e70014 => Some(NtStatusWindows::STATUS_SPACES_MAP_REQUIRED),
            0xc0e70015 => Some(NtStatusWindows::STATUS_SPACES_UNSUPPORTED_VERSION),
            0xc0e70016 => Some(NtStatusWindows::STATUS_SPACES_CORRUPT_METADATA),
            0xc0e70017 => Some(NtStatusWindows::STATUS_SPACES_DRT_FULL),
            0xc0e70018 => Some(NtStatusWindows::STATUS_SPACES_INCONSISTENCY),
            _ => None,
        }
    }

    /// One slice of the symbol table.
    #[verifier::spinoff_prover]
    #[verifier::rlimit(100)]
    fn to_u32_part51(self) -> (r: Option<u32>)
        ensures
            r == self.spec_to_u32_part51(),
    {
        match self {
            NtStatusWindows::STATUS_SECUREBOOT_NOT_BASE_POLICY => Some(0xc043000f),
            NtStatusWindows::STATUS_SECUREBOOT_NOT_SUPPLEMENTAL_POLICY => Some(0xc0430010),
            NtStatusWindows::STATUS_AUDIO_ENGINE_NODE_NOT_FOUND => Some(0xc0440001),
            NtStatusWindows::STATUS_HDAUDIO_EMPTY_CONNECTION_LIST => Some(0xc0440002),
            NtStatusWindows::STATUS_HDAUDIO_CONNECTION_LIST_NOT_SUPPORTED => Some(0xc0440003),
            NtStatusWindows::STATUS_HDAUDIO_NO_LOGICAL_DEVICES_CREATED => Some(0xc0440004),
            NtStatusWindows::STATUS_HDAUDIO_NULL_LINKED_LIST_ENTRY => Some(0xc0440005),
            NtStatusWindows::STATUS_VSM_NOT_INITIALIZED => Some(0xc0450000),
            NtStatusWindows::STATUS_VSM_DMA_PROTECTION_NOT_IN_USE => Some(0xc0450001),
            NtStatusWindows::STATUS_VOLSNAP_BOOTFILE_NOT_VALID => Some(0xc0500003),
            NtStatusWindows::STATUS_VOLSNAP_ACTIVATION_TIMEOUT => Some(0xc0500004),
            NtStatusWindows::STATUS_IO_PREEMPTED => Some(0xc0510001),
            NtStatusWindows::STATUS_SVHDX_ERROR_STORED => Some(0xc05c0000),
            NtStatusWindows::STATUS_SVHDX_ERROR_NOT_AVAILABLE => Some(0xc05cff00),
            NtStatusWindows::STATUS_SVHDX_UNIT_ATTENTION_AVAILABLE => Some(0xc05cff01),
            NtStatusWindows::STATUS_SVHDX_UNIT_ATTENTION_CAPACITY_DATA_CHANGED => Some(0xc05cff02),
            NtStatusWindows::STATUS_SVHDX_UNIT_ATTENTION_RESERVATIONS_PREEMPTED => Some(0xc05cff03),
            NtStatusWindows::STATUS_SVHDX_UNIT_ATTENTION_RESERVATIONS_RELEASED => Some(0xc05cff04),
            NtStatusWindows::STATUS_SVHDX_UNIT_ATTENTION_REGISTRATIONS_PREEMPTED => Some(0xc05cff05),
            NtStatusWindows::STATUS_SVHDX_UNIT_ATTENTION_OPERATING_DEFINITION_CHANGED => Some(0xc05cff06),
            NtStatusWindows::STATUS_SVHDX_RESERVATION_CONFLICT => Some(0xc05cff07),
            NtStatusWindows::STATUS_SVHDX_WRONG_FILE_TYPE => Some(0xc05cff08),
            NtStatusWindows::STATUS_SVHDX_VERSION_MISMATCH => Some(0xc05cff09),
            NtStatusWindows::STATUS_VHD_SHARED => Some(0xc05cff0a),
            NtStatusWindows::STATUS_SVHDX_NO_INITIATOR => Some(0xc05cff0b),
            NtStatusWindows::STATUS_VHDSET_BACKING_STORAGE_NOT_FOUND => Some(0xc05cff0c),
            NtStatusWindows::STATUS_SMB_NO_PREAUTH_INTEGRITY_HASH_OVERLAP => Some(0xc05d0000),
            NtStatusWindows::STATUS_SMB_BAD_CLUSTER_DIALECT => Some(0xc05d0001),
            NtStatusWindows::STATUS_SMB_GUEST_LOGON_BLOCKED => Some(0xc05d0002),
            NtStatusWindows::STATUS_SPACES_FAULT_DOMAIN_TYPE_INVALID => Some(0xc0e70001),
            NtStatusWindows::STATUS_SPACES_RESILIENCY_TYPE_INVALID => Some(0xc0e70003),
            NtStatusWindows::STATUS_SPACES_DRIVE_SECTOR_SIZE_INVALID => Some(0xc0e70004),
            NtStatusWindows::STATUS_SPACES_DRIVE_REDUNDANCY_INVALID => Some(0xc0e70006),
            NtStatusWindows::STATUS_SPACES_NUMBER_OF_DATA_COPIES_INVALID => Some(0xc0e70007),
            NtStatusWindows::STATUS_SPACES_INTERLEAVE_LENGTH_INVALID => Some(0xc0e70009),
            NtStatusWindows::STATUS_SPACES_NUMBER_OF_COLUMNS_INVALID => Some(0xc0e7000a),
            NtStatusWindows::STATUS_SPACES_NOT_ENOUGH_DRIVES => Some(0xc0e7000b),
            NtStatusWindows::STATUS_SPACES_EXTENDED_ERROR => Some(0xc0e7000c),
            NtStatusWindows::STATUS_SPACES_PROVISIONING_TYPE_INVALID => Some(0xc0e7000d),
            NtStatusWindows::STATUS_SPACES_ALLOCATION_SIZE_INVALID => Some(0xc0e7000e),
            NtStatusWindows::STATUS_SPACES_ENCLOSURE_AWARE_INVALID => Some(0xc0e7000f),
            NtStatusWindows::STATUS_SPACES_WRITE_CACHE_SIZE_INVALID => Some(0xc0e70010),
            NtStatusWindows::STATUS_SPACES_NUMBER_OF_GROUPS_INVALID => Some(0xc0e70011),
            NtStatusWindows::STATUS_SPACES_DRIVE_OPERATIONAL_STATE_INVALID => Some(0xc0e70012),
            NtStatusWindows::STATUS_SPACES_UPDATE_COLUMN_STATE => Some(0xc0e70013),
            NtStatusWindows::STATUS_SPACES_MAP_REQUIRED => Some(0xc0e70014),
            NtStatusWindows::STATUS_SPACES_UNSUPPORTED_VERSION => Some(0xc0e70015),
            NtStatusWindows::STATUS_SPACES_CORRUPT_METADATA => Some(0xc0e70016),
            NtStatusWindows::STATUS_SPACES_DRT_FULL => Some(0xc0e70017),
            NtStatusWindows::STATUS_SPACES_INCONSISTENCY => Some(0xc0e70018),
            _ => None,
        }
    }

    /// One slice of the symbol table.
    #[verifier::spinoff_prover]
    #[verifier::rlimit(100)]
    fn from_u32_part51(raw: u32) -> (r: Option<NtStatusWindows>)
        ensures
            r == NtStatusWindows::spec_from_u32_part51(raw),
    {
        match raw {
            0xc043000f => Some(NtStatusWindows::STATUS_SECUREBOOT_NOT_BASE_POLICY),
            0xc0430010 => Some(NtStatusWindows::STATUS_SECUREBOOT_NOT_SUPPLEMENTAL_POLICY),
            0xc0440001 => Some(NtStatusWindows::STATUS_AUDIO_ENGINE_NODE_NOT_FOUND),
            0xc0440002 => Some(NtStatusWindows::STATUS_HDAUDIO_EMPTY_CONNECTION_LIST),
            0xc0440003 => Some(NtStatusWindows::STATUS_HDAUDIO_CONNECTION_LIST_NOT_SUPPORTED),
            0xc0440004 => Some(NtStatusWindows::STATUS_HDAUDIO_NO_LOGICAL_DEVICES_CREATED),
            0xc0440005 => Some(NtStatusWindows::STATUS_HDAUDIO_NULL_LINKED_LIST_ENTRY),
            0xc0450000 => Some(NtStatusWindows::STATUS_VSM_NOT_INITIALIZED),
            0xc0450001 => Some(NtStatusWindows::STATUS_VSM_DMA_PROTECTION_NOT_IN_USE),
            0xc0500003 => Some(NtStatusWindows::STATUS_VOLSNAP_BOOTFILE_NOT_VALID),
            0xc0500004 => Some(NtStatusWindows::STATUS_VOLSNAP_ACTIVATION_TIMEOUT),
            0xc0510001 => Some(NtStatusWindows::STATUS_IO_PREEMPTED),
            0xc05c0000 => Some(NtStatusWindows::STATUS_SVHDX_ERROR_STORED),
            0xc05cff00 => Some(NtStatusWindows::STATUS_SVHDX_ERROR_NOT_AVAILABLE),
            0xc05cff01 => Some(NtStatusWindows::STATUS_SVHDX_UNIT_ATTENTION_AVAILABLE),
            0xc05cff02 => Some(NtStatusWindows::STATUS_SVHDX_UNIT_ATTENTION_CAPACITY_DATA_CHANGED),
            0xc05cff03 => Some(NtStatusWindows::STATUS_SVHDX_UNIT_ATTENTION_RESERVATIONS_PREEMPTED),
            0xc05cff04 => Some(NtStatusWindows::STATUS_SVHDX_UNIT_ATTENTION_RESERVATIONS_RELEASED),
            0xc05cff05 => Some(NtStatusWindows::STATUS_SVHDX_UNIT_ATTENTION_REGISTRATIONS_PREEMPTED),
            0xc05cff06 => Some(NtStatusWindows::STATUS_SVHDX_UNIT_ATTENTION_OPERATING_DEFINITION_CHANGED),
            0xc05cff07 => Some(NtStatusWindows::STATUS_SVHDX_RESERVATION_CONFLICT),
            0xc05cff08 => Some(NtStatusWindows::STATUS_SVHDX_WRONG_FILE_TYPE),
            0xc05cff09 => Some(NtStatusWindows::STATUS_SVHDX_VERSION_MISMATCH),
            0xc05cff0a => Some(NtStatusWindows::STATUS_VHD_SHARED),
            0xc05cff0b => Some(NtStatusWindows::STATUS_SVHDX_NO_INITIATOR),
            0xc05cff0c => Some(NtStatusWindows::STATUS_VHDSET_BACKING_STORAGE_NOT_FOUND),
            0xc05d0000 => Some(NtStatusWindows::STATUS_SMB_NO_PREAUTH_INTEGRITY_HASH_OVERLAP),
            0xc05d0001 => Some(NtStatusWindows::STATUS_SMB_BAD_CLUSTER_DIALECT),
            0xc05d0002 => Some(NtStatusWindows::STATUS_SMB_GUEST_LOGON_BLOCKED),
            0xc0e70001 => Some(NtStatusWindows::STATUS_SPACES_FAULT_DOMAIN_TYPE_INVALID),
            0xc0e70003 => Some(NtStatusWindows::STATUS_SPACES_RESILIENCY_TYPE_INVALID),
            0xc0e70004 => Some(NtStatusWindows::STATUS_SPACES_DRIVE_SECTOR_SIZE_INVALID),
            0xc0e70006 => Some(NtStatusWindows::STATUS_SPACES_DRIVE_REDUNDANCY_INVALID),
            0xc0e70007 => Some(NtStatusWindows::STATUS_SPACES_NUMBER_OF_DATA_COPIES_INVALID),
            0xc0e70009 => Some(NtStatusWindows::STATUS_SPACES_INTERLEAVE_LENGTH_INVALID),
            0xc0e7000a => Some(NtStatusWindows::STATUS_SPACES_NUMBER_OF_COLUMNS_INVALID),
            0xc0e7000b => Some(NtStatusWindows::STATUS_SPACES_NOT_ENOUGH_DRIVES),
            0xc0e7000c => Some(NtStatusWindows::STATUS_SPACES_EXTENDED_ERROR),
            0xc0e7000d => Some(NtStatusWindows::STATUS_SPACES_PROVISIONING_TYPE_INVALID),
            0xc0e7000e => Some(NtStatusWindows::STATUS_SPACES_ALLOCATION_SIZE_INVALID),
            0xc0e7000f => Some(NtStatusWindows::STATUS_SPACES_ENCLOSURE_AWARE_INVALID),
            0xc0e70010 => Some(NtStatusWindows::STATUS_SPACES_WRITE_CACHE_SIZE_INVALID),
            0xc0e70011 => Some(NtStatusWindows::STATUS_SPACES_NUMBER_OF_GROUPS_INVALID),
            0xc0e70012 => Some(NtStatusWindows::STATUS_SPACES_DRIVE_OPERATIONAL_STATE_INVALID),
            0xc0e70013 => Some(NtStatusWindows::STATUS_SPACES_UPDATE_COLUMN_STATE),
            0xc0e70014 => Some(NtStatusWindows::STATUS_SPACES_MAP_REQUIRED),
            0xc0e70015 => Some(NtStatusWindows::STATUS_SPACES_UNSUPPORTED_VERSION),
            0xc0e70016 => Some(NtStatusWindows::STATUS_SPACES_CORRUPT_METADATA),
            0xc0e70017 => Some(NtStatusWindows::STATUS_SPACES_DRT_FULL),
            0xc0e70018 => Some(NtStatusWindows::STATUS_SPACES_INCONSISTENCY),
            _ => None,
        }
    }

    /// One slice of the symbol table: the raw value of this symbol,
    /// where this slice holds it.
    pub open spec fn spec_to_u32_part52(self) -> Option<u32> {
        match self {
            NtStatusWindows::STATUS_SPACES_LOG_NOT_READY => Some(0xc0e70019),
            NtStatusWindows::STATUS_SPACES_NO_REDUNDANCY => Some(0xc0e7001a),
            NtStatusWindows::STATUS_SPACES_DRIVE_NOT_READY => Some(0xc0e7001b),
            NtStatusWindows::STATUS_SPACES_DRIVE_SPLIT => Some(0xc0e7001c),
            NtStatusWindows::STATUS_SPACES_DRIVE_LOST_DATA => Some(0xc0e7001d),
            NtStatusWindows::STATUS_SPACES_ENTRY_INCOMPLETE => Some(0xc0e7001e),
            NtStatusWindows::STATUS_SPACES_ENTRY_INVALID => Some(0xc0e7001f),
            NtStatusWindows::STATUS_SPACES_MARK_DIRTY => Some(0xc0e70020),
            NtStatusWindows::STATUS_SECCORE_INVALID_COMMAND => Some(0xc0e80000),
            NtStatusWindows::STATUS_SYSTEM_INTEGRITY_ROLLBACK_DETECTED => Some(0xc0e90001),
            NtStatusWindows::STATUS_SYSTEM_INTEGRITY_POLICY_VIOLATION => Some(0xc0e90002),
            NtStatusWindows::STATUS_SYSTEM_INTEGRITY_INVALID_POLICY => Some(0xc0e90003),
            NtStatusWindows::STATUS_SYSTEM_INTEGRITY_POLICY_NOT_SIGNED => Some(0xc0e90004),
            NtStatusWindows::STATUS_SYSTEM_INTEGRITY_TOO_MANY_POLICIES => Some(0xc0e90005),
            NtStatusWindows::STATUS_SYSTEM_INTEGRITY_SUPPLEMENTAL_POLICY_NOT_AUTHORIZED => Some(0xc0e90006),
            NtStatusWindows::STATUS_NO_APPLICABLE_APP_LICENSES_FOUND => Some(0xc0ea0001),
            NtStatusWindows::STATUS_CLIP_LICENSE_NOT_FOUND => Some(0xc0ea0002),
            NtStatusWindows::STATUS_CLIP_DEVICE_LICENSE_MISSING => Some(0xc0ea0003),
            NtStatusWindows::STATUS_CLIP_LICENSE_INVALID_SIGNATURE => Some(0xc0ea0004),
            NtStatusWindows::STATUS_CLIP_KEYHOLDER_LICENSE_MISSING_OR_INVALID => Some(0xc0ea0005),
            NtStatusWindows::STATUS_CLIP_LICENSE_EXPIRED => Some(0xc0ea0006),
            NtStatusWindows::STATUS_CLIP_LICENSE_SIGNED_BY_UNKNOWN_SOURCE => Some(0xc0ea0007),
            NtStatusWindows::STATUS_CLIP_LICENSE_NOT_SIGNED => Some(0xc0ea0008),
            NtStatusWindows::STATUS_CLIP_LICENSE_HARDWARE_ID_OUT_OF_TOLERANCE => Some(0xc0ea0009),
            NtStatusWindows::STATUS_CLIP_LICENSE_DEVICE_ID_MISMATCH => Some(0xc0ea000a),
            NtStatusWindows::STATUS_PLATFORM_MANIFEST_NOT_AUTHORIZED => Some(0xc0eb0001),
            NtStatusWindows::STATUS_PLATFORM_MANIFEST_INVALID => Some(0xc0eb0002),
            NtStatusWindows::STATUS_PLATFORM_MANIFEST_FILE_NOT_AUTHORIZED => Some(0xc0eb0003),
            NtStatusWindows::STATUS_PLATFORM_MANIFEST_CATALOG_NOT_AUTHORIZED => Some(0xc0eb0004),
            NtStatusWindows::STATUS_PLATFORM_MANIFEST_BINARY_ID_NOT_FOUND => Some(0xc0eb0005),
            NtStatusWindows::STATUS_PLATFORM_MANIFEST_NOT_ACTIVE => Some(0xc0eb0006),
            NtStatusWindows::STATUS_PLATFORM_MANIFEST_NOT_SIGNED => Some(0xc0eb0007),
            NtStatusWindows::STATUS_APPEXEC_CONDITION_NOT_SATISFIED => Some(0xc0ec0000),
            NtStatusWindows::STATUS_APPEXEC_HANDLE_INVALIDATED => Some(0xc0ec0001),
            NtStatusWindows::STATUS_APPEXEC_INVALID_HOST_GENERATION => Some(0xc0ec0002),
            NtStatusWindows::STATUS_APPEXEC_UNEXPECTED_PROCESS_REGISTRATION => Some(0xc0ec0003),
            NtStatusWindows::STATUS_APPEXEC_INVALID_HOST_STATE => Some(0xc0ec0004),
            NtStatusWindows::STATUS_APPEXEC_NO_DONOR => Some(0xc0ec0005),
            NtStatusWindows::STATUS_APPEXEC_HOST_ID_MISMATCH => Some(0xc0ec0006),
            NtStatusWindows::STATUS_APPEXEC_UNKNOWN_USER => Some(0xc0ec0007),
            _ => None,
        }
    }

    /// One slice of the symbol table: the symbol this slice gives a
    /// raw value, where it holds one.
    pub open spec fn spec_from_u32_part52(raw: u32) -> Option<NtStatusWindows> {
        match raw {
            0xc0e70019 => Some(NtStatusWindows::STATUS_SPACES_LOG_NOT_READY),
            0xc0e7001a => Some(NtStatusWindows::STATUS_SPACES_NO_REDUNDANCY),
            0xc0e7001b => Some(NtStatusWindows::STATUS_SPACES_DRIVE_NOT_READY),
            0xc0e7001c => Some(NtStatusWindows::STATUS_SPACES_DRIVE_SPLIT),
            0xc0e7001d => Some(NtStatusWindows::STATUS_SPACES_DRIVE_LOST_DATA),
            0xc0e7001e => Some(NtStatusWindows::STATUS_SPACES_ENTRY_INCOMPLETE),
            0xc0e7001f => Some(NtStatusWindows::STATUS_SPACES_ENTRY_INVALID),
            0xc0e70020 => Some(NtStatusWindows::STATUS_SPACES_MARK_DIRTY),
            0xc0e80000 => Some(NtStatusWindows::STATUS_SECCORE_INVALID_COMMAND),
            0xc0e90001 => Some(NtStatusWindows::STATUS_SYSTEM_INTEGRITY_ROLLBACK_DETECTED),
            0xc0e90002 => Some(NtStatusWindows::STATUS_SYSTEM_INTEGRITY_POLICY_VIOLATION),
            0xc0e90003 => Some(NtStatusWindows::STATUS_SYSTEM_INTEGRITY_INVALID_POLICY),
            0xc0e90004 => Some(NtStatusWindows::STATUS_SYSTEM_INTEGRITY_POLICY_NOT_SIGNED),
            0xc0e90005 => Some(NtStatusWindows::STATUS_SYSTEM_INTEGRITY_TOO_MANY_POLICIES),
            0xc0e90006 => Some(NtStatusWindows::STATUS_SYSTEM_INTEGRITY_SUPPLEMENTAL_POLICY_NOT_AUTHORIZED),
            0xc0ea0001 => Some(NtStatusWindows::STATUS_NO_APPLICABLE_APP_LICENSES_FOUND),
            0xc0ea0002 => Some(NtStatusWindows::STATUS_CLIP_LICENSE_NOT_FOUND),
            0xc0ea0003 => Some(NtStatusWindows::STATUS_CLIP_DEVICE_LICENSE_MISSING),
            0xc0ea0004 => Some(NtStatusWindows::STATUS_CLIP_LICENSE_INVALID_SIGNATURE),
            0xc0ea0005 => Some(NtStatusWindows::STATUS_CLIP_KEYHOLDER_LICENSE_MISSING_OR_INVALID),
            0xc0ea0006 => Some(NtStatusWindows::STATUS_CLIP_LICENSE_EXPIRED),
            0xc0ea0007 => Some(NtStatusWindows::STATUS_CLIP_LICENSE_SIGNED_BY_UNKNOWN_SOURCE),
            0xc0ea0008 => Some(NtStatusWindows::STATUS_CLIP_LICENSE_NOT_SIGNED),
            0xc0ea0009 => Some(NtStatusWindows::STATUS_CLIP_LICENSE_HARDWARE_ID_OUT_OF_TOLERANCE),
            0xc0ea000a => Some(NtStatusWindows::STATUS_CLIP_LICENSE_DEVICE_ID_MISMATCH),
            0xc0eb0001 => Some(NtStatusWindows::STATUS_PLATFORM_MANIFEST_NOT_AUTHORIZED),
            0xc0eb0002 => Some(NtStatusWindows::STATUS_PLATFORM_MANIFEST_INVALID),
            0xc0eb0003 => Some(NtStatusWindows::STATUS_PLATFORM_MANIFEST_FILE_NOT_AUTHORIZED),
            0xc0eb0004 => Some(NtStatusWindows::STATUS_PLATFORM_MANIFEST_CATALOG_NOT_AUTHORIZED),
            0xc0eb0005 => Some(NtStatusWindows::STATUS_PLATFORM_MANIFEST_BINARY_ID_NOT_FOUND),
            0xc0eb0006 => Some(NtStatusWindows::STATUS_PLATFORM_MANIFEST_NOT_ACTIVE),
            0xc0eb0007 => Some(NtStatusWindows::STATUS_PLATFORM_MANIFEST_NOT_SIGNED),
            0xc0ec0000 => Some(NtStatusWindows::STATUS_APPEXEC_CONDITION_NOT_SATISFIED),
            0xc0ec0001 => Some(NtStatusWindows::STATUS_APPEXEC_HANDLE_INVALIDATED),
            0xc0ec0002 => Some(NtStatusWindows::STATUS_APPEXEC_INVALID_HOST_GENERATION),
            0xc0ec0003 => Some(NtStatusWindows::STATUS_APPEXEC_UNEXPECTED_PROCESS_REGISTRATION),
            0xc0ec0004 => Some(NtStatusWindows::STATUS_APPEXEC_INVALID_HOST_STATE),
            0xc0ec0005 => Some(NtStatusWindows::STATUS_APPEXEC_NO_DONOR),
            0xc0ec0006 => Some(NtStatusWindows::STATUS_APPEXEC_HOST_ID_MISMATCH),
            0xc0ec0007 => Some(NtStatusWindows::STATUS_APPEXEC_UNKNOWN_USER),
            _ => None,
        }
    }

    /// One slice of the symbol table.
    #[verifier::spinoff_prover]
    #[verifier::rlimit(100)]
    fn to_u32_part52(self) -> (r: Option<u32>)
        ensures
            r == self.spec_to_u32_part52(),
    {
        match self {
            NtStatusWindows::STATUS_SPACES_LOG_NOT_READY => Some(0xc0e70019),
            NtStatusWindows::STATUS_SPACES_NO_REDUNDANCY => Some(0xc0e7001a),
            NtStatusWindows::STATUS_SPACES_DRIVE_NOT_READY => Some(0xc0e7001b),
            NtStatusWindows::STATUS_SPACES_DRIVE_SPLIT => Some(0xc0e7001c),
            NtStatusWindows::STATUS_SPACES_DRIVE_LOST_DATA => Some(0xc0e7001d),
            NtStatusWindows::STATUS_SPACES_ENTRY_INCOMPLETE => Some(0xc0e7001e),
            NtStatusWindows::STATUS_SPACES_ENTRY_INVALID => Some(0xc0e7001f),
            NtStatusWindows::STATUS_SPACES_MARK_DIRTY => Some(0xc0e70020),
            NtStatusWindows::STATUS_SECCORE_INVALID_COMMAND => Some(0xc0e80000),
            NtStatusWindows::STATUS_SYSTEM_INTEGRITY_ROLLBACK_DETECTED => Some(0xc0e90001),
            NtStatusWindows::STATUS_SYSTEM_INTEGRITY_POLICY_VIOLATION => Some(0xc0e90002),
            NtStatusWindows::STATUS_SYSTEM_INTEGRITY_INVALID_POLICY => Some(0xc0e90003),
            NtStatusWindows::STATUS_SYSTEM_INTEGRITY_POLICY_NOT_SIGNED => Some(0xc0e90004),
            NtStatusWindows::STATUS_SYSTEM_INTEGRITY_TOO_MANY_POLICIES => Some(0xc0e90005),
            NtStatusWindows::STATUS_SYSTEM_INTEGRITY_SUPPLEMENTAL_POLICY_NOT_AUTHORIZED => Some(0xc0e90006),
            NtStatusWindows::STATUS_NO_APPLICABLE_APP_LICENSES_FOUND => Some(0xc0ea0001),
            NtStatusWindows::STATUS_CLIP_LICENSE_NOT_FOUND => Some(0xc0ea0002),
            NtStatusWindows::STATUS_CLIP_DEVICE_LICENSE_MISSING => Some(0xc0ea0003),
            NtStatusWindows::STATUS_CLIP_LICENSE_INVALID_SIGNATURE => Some(0xc0ea0004),
            NtStatusWindows::STATUS_CLIP_KEYHOLDER_LICENSE_MISSING_OR_INVALID => Some(0xc0ea0005),
            NtStatusWindows::STATUS_CLIP_LICENSE_EXPIRED => Some(0xc0ea0006),
            NtStatusWindows::STATUS_CLIP_LICENSE_SIGNED_BY_UNKNOWN_SOURCE => Some(0xc0ea0007),
            NtStatusWindows::STATUS_CLIP_LICENSE_NOT_SIGNED => Some(0xc0ea0008),
            NtStatusWindows::STATUS_CLIP_LICENSE_HARDWARE_ID_OUT_OF_TOLERANCE => Some(0xc0ea0009),
            NtStatusWindows::STATUS_CLIP_LICENSE_DEVICE_ID_MISMATCH => Some(0xc0ea000a),
            NtStatusWindows::STATUS_PLATFORM_MANIFEST_NOT_AUTHORIZED => Some(0xc0eb0001),
            NtStatusWindows::STATUS_PLATFORM_MANIFEST_INVALID => Some(0xc0eb0002),
            NtStatusWindows::STATUS_PLATFORM_MANIFEST_FILE_NOT_AUTHORIZED => Some(0xc0eb0003),
            NtStatusWindows::STATUS_PLATFORM_MANIFEST_CATALOG_NOT_AUTHORIZED => Some(0xc0eb0004),
            NtStatusWindows::STATUS_PLATFORM_MANIFEST_BINARY_ID_NOT_FOUND => Some(0xc0eb0005),
            NtStatusWindows::STATUS_PLATFORM_MANIFEST_NOT_ACTIVE => Some(0xc0eb0006),
            NtStatusWindows::STATUS_PLATFORM_MANIFEST_NOT_SIGNED => Some(0xc0eb0007),
            NtStatusWindows::STATUS_APPEXEC_CONDITION_NOT_SATISFIED => Some(0xc0ec0000),
            NtStatusWindows::STATUS_APPEXEC_HANDLE_INVALIDATED => Some(0xc0ec0001),
            NtStatusWindows::STATUS_APPEXEC_INVALID_HOST_GENERATION => Some(0xc0ec0002),
            NtStatusWindows::STATUS_APPEXEC_UNEXPECTED_PROCESS_REGISTRATION => Some(0xc0ec0003),
            NtStatusWindows::STATUS_APPEXEC_INVALID_HOST_STATE => Some(0xc0ec0004),
            NtStatusWindows::STATUS_APPEXEC_NO_DONOR => Some(0xc0ec0005),
            NtStatusWindows::STATUS_APPEXEC_HOST_ID_MISMATCH => Some(0xc0ec0006),
            NtStatusWindows::STATUS_APPEXEC_UNKNOWN_USER => Some(0xc0ec0007),
            _ => None,
        }
    }

    /// One slice of the symbol table.
    #[verifier::spinoff_prover]
    #[verifier::rlimit(100)]
    fn from_u32_part52(raw: u32) -> (r: Option<NtStatusWindows>)
        ensures
            r == NtStatusWindows::spec_from_u32_part52(raw),
    {
        match raw {
            0xc0e70019 => Some(NtStatusWindows::STATUS_SPACES_LOG_NOT_READY),
            0xc0e7001a => Some(NtStatusWindows::STATUS_SPACES_NO_REDUNDANCY),
            0xc0e7001b => Some(NtStatusWindows::STATUS_SPACES_DRIVE_NOT_READY),
            0xc0e7001c => Some(NtStatusWindows::STATUS_SPACES_DRIVE_SPLIT),
            0xc0e7001d => Some(NtStatusWindows::STATUS_SPACES_DRIVE_LOST_DATA),
            0xc0e7001e => Some(NtStatusWindows::STATUS_SPACES_ENTRY_INCOMPLETE),
            0xc0e7001f => Some(NtStatusWindows::STATUS_SPACES_ENTRY_INVALID),
            0xc0e70020 => Some(NtStatusWindows::STATUS_SPACES_MARK_DIRTY),
            0xc0e80000 => Some(NtStatusWindows::STATUS_SECCORE_INVALID_COMMAND),
            0xc0e90001 => Some(NtStatusWindows::STATUS_SYSTEM_INTEGRITY_ROLLBACK_DETECTED),
            0xc0e90002 => Some(NtStatusWindows::STATUS_SYSTEM_INTEGRITY_POLICY_VIOLATION),
            0xc0e90003 => Some(NtStatusWindows::STATUS_SYSTEM_INTEGRITY_INVALID_POLICY),
            0xc0e90004 => Some(NtStatusWindows::STATUS_SYSTEM_INTEGRITY_POLICY_NOT_SIGNED),
            0xc0e90005 => Some(NtStatusWindows::STATUS_SYSTEM_INTEGRITY_TOO_MANY_POLICIES),
            0xc0e90006 => Some(NtStatusWindows::STATUS_SYSTEM_INTEGRITY_SUPPLEMENTAL_POLICY_NOT_AUTHORIZED),
            0xc0ea0001 => Some(NtStatusWindows::STATUS_NO_APPLICABLE_APP_LICENSES_FOUND),
            0xc0ea0002 => Some(NtStatusWindows::STATUS_CLIP_LICENSE_NOT_FOUND),
            0xc0ea0003 => Some(NtStatusWindows::STATUS_CLIP_DEVICE_LICENSE_MISSING),
            0xc0ea0004 => Some(NtStatusWindows::STATUS_CLIP_LICENSE_INVALID_SIGNATURE),
            0xc0ea0005 => Some(NtStatusWindows::STATUS_CLIP_KEYHOLDER_LICENSE_MISSING_OR_INVALID),
            0xc0ea0006 => Some(NtStatusWindows::STATUS_CLIP_LICENSE_EXPIRED),
            0xc0ea0007 => Some(NtStatusWindows::STATUS_CLIP_LICENSE_SIGNED_BY_UNKNOWN_SOURCE),
            0xc0ea0008 => Some(NtStatusWindows::STATUS_CLIP_LICENSE_NOT_SIGNED),
            0xc0ea0009 => Some(NtStatusWindows::STATUS_CLIP_LICENSE_HARDWARE_ID_OUT_OF_TOLERANCE),
            0xc0ea000a => Some(NtStatusWindows::STATUS_CLIP_LICENSE_DEVICE_ID_MISMATCH),
            0xc0eb0001 => Some(NtStatusWindows::STATUS_PLATFORM_MANIFEST_NOT_AUTHORIZED),
            0xc0eb0002 => Some(NtStatusWindows::STATUS_PLATFORM_MANIFEST_INVALID),
            0xc0eb0003 => Some(NtStatusWindows::STATUS_PLATFORM_MANIFEST_FILE_NOT_AUTHORIZED),
            0xc0eb0004 => Some(NtStatusWindows::STATUS_PLATFORM_MANIFEST_CATALOG_NOT_AUTHORIZED),
            0xc0eb0005 => Some(NtStatusWindows::STATUS_PLATFORM_MANIFEST_BINARY_ID_NOT_FOUND),
            0xc0eb0006 => Some(NtStatusWindows::STATUS_PLATFORM_MANIFEST_NOT_ACTIVE),
            0xc0eb0007 => Some(NtStatusWindows::STATUS_PLATFORM_MANIFEST_NOT_SIGNED),
            0xc0ec0000 => Some(NtStatusWindows::STATUS_APPEXEC_CONDITION_NOT_SATISFIED),
            0xc0ec0001 => Some(NtStatusWindows::STATUS_APPEXEC_HANDLE_INVALIDATED),
            0xc0ec0002 => Some(NtStatusWindows::STATUS_APPEXEC_INVALID_HOST_GENERATION),
            0xc0ec0003 => Some(NtStatusWindows::STATUS_APPEXEC_UNEXPECTED_PROCESS_REGISTRATION),
            0xc0ec0004 => Some(NtStatusWindows::STATUS_APPEXEC_INVALID_HOST_STATE),
            0xc0ec0005 => Some(NtStatusWindows::STATUS_APPEXEC_NO_DONOR),
            0xc0ec0006 => Some(NtStatusWindows::STATUS_APPEXEC_HOST_ID_MISMATCH),
            0xc0ec0007 => Some(NtStatusWindows::STATUS_APPEXEC_UNKNOWN_USER),
            _ => None,
        }
    }

    /// One run of slices of the symbol table.
    pub open spec fn spec_to_u32_g0(self) -> Option<u32> {
        let r0 = self.spec_to_u32_part0();
        let r1 = if r0 is Some { r0 } else { self.spec_to_u32_part1() };
        let r2 = if r1 is Some { r1 } else { self.spec_to_u32_part2() };
        let r3 = if r2 is Some { r2 } else { self.spec_to_u32_part3() };
        let r4 = if r3 is Some { r3 } else { self.spec_to_u32_part4() };
        let r5 = if r4 is Some { r4 } else { self.spec_to_u32_part5() };
        let r6 = if r5 is Some { r5 } else { self.spec_to_u32_part6() };
        let r7 = if r6 is Some { r6 } else { self.spec_to_u32_part7() };
        r7
    }

    /// One run of slices of the symbol table.
    pub open spec fn spec_from_u32_g0(raw: u32) -> Option<NtStatusWindows> {
        let r0 = Self::spec_from_u32_part0(raw);
        let r1 = if r0 is Some { r0 } else { Self::spec_from_u32_part1(raw) };
        let r2 = if r1 is Some { r1 } else { Self::spec_from_u32_part2(raw) };
        let r3 = if r2 is Some { r2 } else { Self::spec_from_u32_part3(raw) };
        let r4 = if r3 is Some { r3 } else { Self::spec_from_u32_part4(raw) };
        let r5 = if r4 is Some { r4 } else { Self::spec_from_u32_part5(raw) };
        let r6 = if r5 is Some { r5 } else { Self::spec_from_u32_part6(raw) };
        let r7 = if r6 is Some { r6 } else { Self::spec_from_u32_part7(raw) };
        r7
    }

    /// One run of slices of the symbol table.
    fn to_u32_g0(self) -> (r: Option<u32>)
        ensures
            r == self.spec_to_u32_g0(),
    {
        let r = self.to_u32_part0();
        if r.is_some() {
            return r;
        }
        let r = self.to_u32_part1();
        if r.is_some() {
            return r;
        }
        let r = self.to_u32_part2();
        if r.is_some() {
            return r;
        }
        let r = self.to_u32_part3();
        if r.is_some() {
            return r;
        }
        let r = self.to_u32_part4();
        if r.is_some() {
            return r;
        }
        let r = self.to_u32_part5();
        if r.is_some() {
            return r;
        }
        let r = self.to_u32_part6();
        if r.is_some() {
            return r;
        }
        let r = self.to_u32_part7();
        if r.is_some() {
            return r;
        }
        None
    }

    /// One run of slices of the symbol table.
    fn from_u32_g0(raw: u32) -> (r: Option<NtStatusWindows>)
        ensures
            r == NtStatusWindows::spec_from_u32_g0(raw),
    {
        let r = Self::from_u32_part0(raw);
        if r.is_some() {
            return r;
        }
        let r = Self::from_u32_part1(raw);
        if r.is_some() {
            return r;
        }
        let r = Self::from_u32_part2(raw);
        if r.is_some() {
            return r;
        }
        let r = Self::from_u32_part3(raw);
        if r.is_some() {
            return r;
        }
        let r = Self::from_u32_part4(raw);
        if r.is_some() {
            return r;
        }
        let r = Self::from_u32_part5(raw);
        if r.is_some() {
            return r;
        }
        let r = Self::from_u32_part6(raw);
        if r.is_some() {
            return r;
        }
        let r = Self::from_u32_part7(raw);
        if r.is_some() {
            return r;
        }
        None
    }

    /// One run of slices of the symbol table.
    pub open spec fn spec_to_u32_g1(self) -> Option<u32> {
        let r0 = self.spec_to_u32_part8();
        let r1 = if r0 is Some { r0 } else { self.spec_to_u32_part9() };
        let r2 = if r1 is Some { r1 } else { self.spec_to_u32_part10() };
        let r3 = if r2 is Some { r2 } else { self.spec_to_u32_part11() };
        let r4 = if r3 is Some { r3 } else { self.spec_to_u32_part12() };
        let r5 = if r4 is Some { r4 } else { self.spec_to_u32_part13() };
        let r6 = if r5 is Some { r5 } else { self.spec_to_u32_part14() };
        let r7 = if r6 is Some { r6 } else { self.spec_to_u32_part15() };
        r7
    }

    /// One run of slices of the symbol table.
    pub open spec fn spec_from_u32_g1(raw: u32) -> Option<NtStatusWindows> {
        let r0 = Self::spec_from_u32_part8(raw);
        let r1 = if r0 is Some { r0 } else { Self::spec_from_u32_part9(raw) };
        let r2 = if r1 is Some { r1 } else { Self::spec_from_u32_part10(raw) };
        let r3 = if r2 is Some { r2 } else { Self::spec_from_u32_part11(raw) };
        let r4 = if r3 is Some { r3 } else { Self::spec_from_u32_part12(raw) };
        let r5 = if r4 is Some { r4 } else { Self::spec_from_u32_part13(raw) };
        let r6 = if r5 is Some { r5 } else { Self::spec_from_u32_part14(raw) };
        let r7 = if r6 is Some { r6 } else { Self::spec_from_u32_part15(raw) };
        r7
    }

    /// One run of slices of the symbol table.
    fn to_u32_g1(self) -> (r: Option<u32>)
        ensures
            r == self.spec_to_u32_g1(),
    {
        let r = self.to_u32_part8();
        if r.is_some() {
            return r;
        }
        let r = self.to_u32_part9();
        if r.is_some() {
            return r;
        }
        let r = self.to_u32_part10();
        if r.is_some() {
            return r;
        }
        let r = self.to_u32_part11();
        if r.is_some() {
            return r;
        }
        let r = self.to_u32_part12();
        if r.is_some() {
            return r;
        }
        let r = self.to_u32_part13();
        if r.is_some() {
            return r;
        }
        let r = self.to_u32_part14();
        if r.is_some() {
            return r;
        }
        let r = self.to_u32_part15();
        if r.is_some() {
            return r;
        }
        None
    }

    /// One run of slices of the symbol table.
    fn from_u32_g1(raw: u32) -> (r: Option<NtStatusWindows>)
        ensures
            r == NtStatusWindows::spec_from_u32_g1(raw),
    {
        let r = Self::from_u32_part8(raw);
        if r.is_some() {
            return r;
        }
        let r = Self::from_u32_part9(raw);
        if r.is_some() {
            return r;
        }
        let r = Self::from_u32_part10(raw);
        if r.is_some() {
            return r;
        }
        let r = Self::from_u32_part11(raw);
        if r.is_some() {
            return r;
        }
        let r = Self::from_u32_part12(raw);
        if r.is_some() {
            return r;
        }
        let r = Self::from_u32_part13(raw);
        if r.is_some() {
            return r;
        }
        let r = Self::from_u32_part14(raw);
        if r.is_some() {
            return r;
        }
        let r = Self::from_u32_part15(raw);
        if r.is_some() {
            return r;
        }
        None
    }

    /// One run of slices of the symbol table.
    pub open spec fn spec_to_u32_g2(self) -> Option<u32> {
        let r0 = self.spec_to_u32_part16();
        let r1 = if r0 is Some { r0 } else { self.spec_to_u32_part17() };
        let r2 = if r1 is Some { r1 } else { self.spec_to_u32_part18() };
        let r3 = if r2 is Some { r2 } else { self.spec_to_u32_part19() };
        let r4 = if r3 is Some { r3 } else { self.spec_to_u32_part20() };
        let r5 = if r4 is Some { r4 } else { self.spec_to_u32_part21() };
        let r6 = if r5 is Some { r5 } else { self.spec_to_u32_part22() };
        let r7 = if r6 is Some { r6 } else { self.spec_to_u32_part23() };
        r7
    }

    /// One run of slices of the symbol table.
    pub open spec fn spec_from_u32_g2(raw: u32) -> Option<NtStatusWindows> {
        let r0 = Self::spec_from_u32_part16(raw);
        let r1 = if r0 is Some { r0 } else { Self::spec_from_u32_part17(raw) };
        let r2 = if r1 is Some { r1 } else { Self::spec_from_u32_part18(raw) };
        let r3 = if r2 is Some { r2 } else { Self::spec_from_u32_part19(raw) };
        let r4 = if r3 is Some { r3 } else { Self::spec_from_u32_part20(raw) };
        let r5 = if r4 is Some { r4 } else { Self::spec_from_u32_part21(raw) };
        let r6 = if r5 is Some { r5 } else { Self::spec_from_u32_part22(raw) };
        let r7 = if r6 is Some { r6 } else { Self::spec_from_u32_part23(raw) };
        r7
    }

    /// One run of slices of the symbol table.
    fn to_u32_g2(self) -> (r: Option<u32>)
        ensures
            r == self.spec_to_u32_g2(),
    {
        let r = self.to_u32_part16();
        if r.is_some() {
            return r;
        }
        let r = self.to_u32_part17();
        if r.is_some() {
            return r;
        }
        let r = self.to_u32_part18();
        if r.is_some() {
            return r;
        }
        let r = self.to_u32_part19();
        if r.is_some() {
            return r;
        }
        let r = self.to_u32_part20();
        if r.is_some() {
            return r;
        }
        let r = self.to_u32_part21();
        if r.is_some() {
            return r;
        }
        let r = self.to_u32_part22();
        if r.is_some() {
            return r;
        }
        let r = self.to_u32_part23();
        if r.is_some() {
            return r;
        }
        None
    }

    /// One run of slices of the symbol table.
    fn from_u32_g2(raw: u32) -> (r: Option<NtStatusWindows>)
        ensures
            r == NtStatusWindows::spec_from_u32_g2(raw),
    {
        let r = Self::from_u32_part16(raw);
        if r.is_some() {
            return r;
        }
        let r = Self::from_u32_part17(raw);
        if r.is_some() {
            return r;
        }
        let r = Self::from_u32_part18(raw);
        if r.is_some() {
            return r;
        }
        let r = Self::from_u32_part19(raw);
        if r.is_some() {
            return r;
        }
        let r = Self::from_u32_part20(raw);
        if r.is_some() {
            return r;
        }
        let r = Self::from_u32_part21(raw);
        if r.is_some() {
            return r;
        }
        let r = Self::from_u32_part22(raw);
        if r.is_some() {
            return r;
        }
        let r = Self::from_u32_part23(raw);
        if r.is_some() {
            return r;
        }
        None
    }

    /// One run of slices of the symbol table.
    pub open spec fn spec_to_u32_g3(self) -> Option<u32> {
        let r0 = self.spec_to_u32_part24();
        let r1 = if r0 is Some { r0 } else { self.spec_to_u32_part25() };
        let r2 = if r1 is Some { r1 } else { self.spec_to_u32_part26() };
        let r3 = if r2 is Some { r2 } else { self.spec_to_u32_part27() };
        let r4 = if r3 is Some { r3 } else { self.spec_to_u32_part28() };
        let r5 = if r4 is Some { r4 } else { self.spec_to_u32_part29() };
        let r6 = if r5 is Some { r5 } else { self.spec_to_u32_part30() };
        let r7 = if r6 is Some { r6 } else { self.spec_to_u32_part31() };
        r7
    }

    /// One run of slices of the symbol table.
    pub open spec fn spec_from_u32_g3(raw: u32) -> Option<NtStatusWindows> {
        let r0 = Self::spec_from_u32_part24(raw);
        let r1 = if r0 is Some { r0 } else { Self::spec_from_u32_part25(raw) };
        let r2 = if r1 is Some { r1 } else { Self::spec_from_u32_part26(raw) };
        let r3 = if r2 is Some { r2 } else { Self::spec_from_u32_part27(raw) };
        let r4 = if r3 is Some { r3 } else { Self::spec_from_u32_part28(raw) };
        let r5 = if r4 is Some { r4 } else { Self::spec_from_u32_part29(raw) };
        let r6 = if r5 is Some { r5 } else { Self::spec_from_u32_part30(raw) };
        let r7 = if r6 is Some { r6 } else { Self::spec_from_u32_part31(raw) };
        r7
    }

    /// One run of slices of the symbol table.
    fn to_u32_g3(self) -> (r: Option<u32>)
        ensures
            r == self.spec_to_u32_g3(),
    {
        let r = self.to_u32_part24();
        if r.is_some() {
            return r;
        }
        let r = self.to_u32_part25();
        if r.is_some() {
            return r;
        }
        let r = self.to_u32_part26();
        if r.is_some() {
            return r;
        }
        let r = self.to_u32_part27();
        if r.is_some() {
            return r;
        }
        let r = self.to_u32_part28();
        if r.is_some() {
            return r;
        }
        let r = self.to_u32_part29();
        if r.is_some() {
            return r;
        }
        let r = self.to_u32_part30();
        if r.is_some() {
            return r;
        }
        let r = self.to_u32_part31();
        if r.is_some() {
            return r;
        }
        None
    }

    /// One run of slices of the symbol table.
    fn from_u32_g3(raw: u32) -> (r: Option<NtStatusWindows>)
        ensures
            r == NtStatusWindows::spec_from_u32_g3(raw),
    {
        let r = Self::from_u32_part24(raw);
        if r.is_some() {
            return r;
        }
        let r = Self::from_u32_part25(raw);
        if r.is_some() {
            return r;
        }
        let r = Self::from_u32_part26(raw);
        if r.is_some() {
            return r;
        }
        let r = Self::from_u32_part27(raw);
        if r.is_some() {
            return r;
        }
        let r = Self::from_u32_part28(raw);
        if r.is_some() {
            return r;
        }
        let r = Self::from_u32_part29(raw);
        if r.is_some() {
            return r;
        }
        let r = Self::from_u32_part30(raw);
        if r.is_some() {
            return r;
        }
        let r = Self::from_u32_part31(raw);
        if r.is_some() {
            return r;
        }
        None
    }

    /// One run of slices of the symbol table.
    pub open spec fn spec_to_u32_g4(self) -> Option<u32> {
        let r0 = self.spec_to_u32_part32();
        let r1 = if r0 is Some { r0 } else { self.spec_to_u32_part33() };
        let r2 = if r1 is Some { r1 } else { self.spec_to_u32_part34() };
        let r3 = if r2 is Some { r2 } else { self.spec_to_u32_part35() };
        let r4 = if r3 is Some { r3 } else { self.spec_to_u32_part36() };
        let r5 = if r4 is Some { r4 } else { self.spec_to_u32_part37() };
        let r6 = if r5 is Some { r5 } else { self.spec_to_u32_part38() };
        let r7 = if r6 is Some { r6 } else { self.spec_to_u32_part39() };
        r7
    }

    /// One run of slices of the symbol table.
    pub open spec fn spec_from_u32_g4(raw: u32) -> Option<NtStatusWindows> {
        let r0 = Self::spec_from_u32_part32(raw);
        let r1 = if r0 is Some { r0 } else { Self::spec_from_u32_part33(raw) };
        let r2 = if r1 is Some { r1 } else { Self::spec_from_u32_part34(raw) };
        let r3 = if r2 is Some { r2 } else { Self::spec_from_u32_part35(raw) };
        let r4 = if r3 is Some { r3 } else { Self::spec_from_u32_part36(raw) };
        let r5 = if r4 is Some { r4 } else { Self::spec_from_u32_part37(raw) };
        let r6 = if r5 is Some { r5 } else { Self::spec_from_u32_part38(raw) };
        let r7 = if r6 is Some { r6 } else { Self::spec_from_u32_part39(raw) };
        r7
    }

    /// One run of slices of the symbol table.
    fn to_u32_g4(self) -> (r: Option<u32>)
        ensures
            r == self.spec_to_u32_g4(),
    {
        let r = self.to_u32_part32();
        if r.is_some() {
            return r;
        }
        let r = self.to_u32_part33();
        if r.is_some() {
            return r;
        }
        let r = self.to_u32_part34();
        if r.is_some() {
            return r;
        }
        let r = self.to_u32_part35();
        if r.is_some() {
            return r;
        }
        let r = self.to_u32_part36();
        if r.is_some() {
            return r;
        }
        let r = self.to_u32_part37();
        if r.is_some() {
            return r;
        }
        let r = self.to_u32_part38();
        if r.is_some() {
            return r;
        }
        let r = self.to_u32_part39();
        if r.is_some() {
            return r;
        }
        None
    }

    /// One run of slices of the symbol table.
    fn from_u32_g4(raw: u32) -> (r: Option<NtStatusWindows>)
        ensures
            r == NtStatusWindows::spec_from_u32_g4(raw),
    {
        let r = Self::from_u32_part32(raw);
        if r.is_some() {
            return r;
        }
        let r = Self::from_u32_part33(raw);
        if r.is_some() {
            return r;
        }
        let r = Self::from_u32_part34(raw);
        if r.is_some() {
            return r;
        }
        let r = Self::from_u32_part35(raw);
        if r.is_some() {
            return r;
        }
        let r = Self::from_u32_part36(raw);
        if r.is_some() {
            return r;
        }
        let r = Self::from_u32_part37(raw);
        if r.is_some() {
            return r;
        }
        let r = Self::from_u32_part38(raw);
        if r.is_some() {
            return r;
        }
        let r = Self::from_u32_part39(raw);
        if r.is_some() {
            return r;
        }
        None
    }

    /// One run of slices of the symbol table.
    pub open spec fn spec_to_u32_g5(self) -> Option<u32> {
        let r0 = self.spec_to_u32_part40();
        let r1 = if r0 is Some { r0 } else { self.spec_to_u32_part41() };
        let r2 = if r1 is Some { r1 } else { self.spec_to_u32_part42() };
        let r3 = if r2 is Some { r2 } else { self.spec_to_u32_part43() };
        let r4 = if r3 is Some { r3 } else { self.spec_to_u32_part44() };
        let r5 = if r4 is Some { r4 } else { self.spec_to_u32_part45() };
        let r6 = if r5 is Some { r5 } else { self.spec_to_u32_part46() };
        let r7 = if r6 is Some { r6 } else { self.spec_to_u32_part47() };
        r7
    }

    /// One run of slices of the symbol table.
    pub open spec fn spec_from_u32_g5(raw: u32) -> Option<NtStatusWindows> {
        let r0 = Self::spec_from_u32_part40(raw);
        let r1 = if r0 is Some { r0 } else { Self::spec_from_u32_part41(raw) };
        let r2 = if r1 is Some { r1 } else { Self::spec_from_u32_part42(raw) };
        let r3 = if r2 is Some { r2 } else { Self::spec_from_u32_part43(raw) };
        let r4 = if r3 is Some { r3 } else { Self::spec_from_u32_part44(raw) };
        let r5 = if r4 is Some { r4 } else { Self::spec_from_u32_part45(raw) };
        let r6 = if r5 is Some { r5 } else { Self::spec_from_u32_part46(raw) };
        let r7 = if r6 is Some { r6 } else { Self::spec_from_u32_part47(raw) };
        r7
    }

    /// One run of slices of the symbol table.
    fn to_u32_g5(self) -> (r: Option<u32>)
        ensures
            r == self.spec_to_u32_g5(),
    {
        let r = self.to_u32_part40();
        if r.is_some() {
            return r;
        }
        let r = self.to_u32_part41();
        if r.is_some() {
            return r;
        }
        let r = self.to_u32_part42();
        if r.is_some() {
            return r;
        }
        let r = self.to_u32_part43();
        if r.is_some() {
            return r;
        }
        let r = self.to_u32_part44();
        if r.is_some() {
            return r;
        }
        let r = self.to_u32_part45();
        if r.is_some() {
            return r;
        }
        let r = self.to_u32_part46();
        if r.is_some() {
            return r;
        }
        let r = self.to_u32_part47();
        if r.is_some() {
            return r;
        }
        None
    }

    /// One run of slices of the symbol table.
    fn from_u32_g5(raw: u32) -> (r: Option<NtStatusWindows>)
        ensures
            r == NtStatusWindows::spec_from_u32_g5(raw),
    {
        let r = Self::from_u32_part40(raw);
        if r.is_some() {
            return r;
        }
        let r = Self::from_u32_part41(raw);
        if r.is_some() {
            return r;
        }
        let r = Self::from_u32_part42(raw);
        if r.is_some() {
            return r;
        }
        let r = Self::from_u32_part43(raw);
        if r.is_some() {
            return r;
        }
        let r = Self::from_u32_part44(raw);
        if r.is_some() {
            return r;
        }
        let r = Self::from_u32_part45(raw);
        if r.is_some() {
            return r;
        }
        let r = Self::from_u32_part46(raw);
        if r.is_some() {
            return r;
        }
        let r = Self::from_u32_part47(raw);
        if r.is_some() {
            return r;
        }
        None
    }

    /// One run of slices of the symbol table.
    pub open spec fn spec_to_u32_g6(self) -> Option<u32> {
        let r0 = self.spec_to_u32_part48();
        let r1 = if r0 is Some { r0 } else { self.spec_to_u32_part49() };
        let r2 = if r1 is Some { r1 } else { self.spec_to_u32_part50() };
        let r3 = if r2 is Some { r2 } else { self.spec_to_u32_part51() };
        let r4 = if r3 is Some { r3 } else { self.spec_to_u32_part52() };
        r4
    }

    /// One run of slices of the symbol table.
    pub open spec fn spec_from_u32_g6(raw: u32) -> Option<NtStatusWindows> {
        let r0 = Self::spec_from_u32_part48(raw);
        let r1 = if r0 is Some { r0 } else { Self::spec_from_u32_part49(raw) };
        let r2 = if r1 is Some { r1 } else { Self::spec_from_u32_part50(raw) };
        let r3 = if r2 is Some { r2 } else { Self::spec_from_u32_part51(raw) };
        let r4 = if r3 is Some { r3 } else { Self::spec_from_u32_part52(raw) };
        r4
    }

    /// One run of slices of the symbol table.
    fn to_u32_g6(self) -> (r: Option<u32>)
        ensures
            r == self.spec_to_u32_g6(),
    {
        let r = self.to_u32_part48();
        if r.is_some() {
            return r;
        }
        let r = self.to_u32_part49();
        if r.is_some() {
            return r;
        }
        let r = self.to_u32_part50();
        if r.is_some() {
            return r;
        }
        let r = self.to_u32_part51();
        if r.is_some() {
            return r;
        }
        let r = self.to_u32_part52();
        if r.is_some() {
            return r;
        }
        None
    }

    /// One run of slices of the symbol table.
    fn from_u32_g6(raw: u32) -> (r: Option<NtStatusWindows>)
        ensures
            r == NtStatusWindows::spec_from_u32_g6(raw),
    {
        let r = Self::from_u32_part48(raw);
        if r.is_some() {
            return r;
        }
        let r = Self::from_u32_part49(raw);
        if r.is_some() {
            return r;
        }
        let r = Self::from_u32_part50(raw);
        if r.is_some() {
            return r;
        }
        let r = Self::from_u32_part51(raw);
        if r.is_some() {
            return r;
        }
        let r = Self::from_u32_part52(raw);
        if r.is_some() {
            return r;
        }
        None
    }

    /// The raw value of this symbol.
    pub open spec fn spec_to_u32(self) -> u32 {
        let r0 = self.spec_to_u32_g0();
        let r1 = if r0 is Some { r0 } else { self.spec_to_u32_g1() };
        let r2 = if r1 is Some { r1 } else { self.spec_to_u32_g2() };
        let r3 = if r2 is Some { r2 } else { self.spec_to_u32_g3() };
        let r4 = if r3 is Some { r3 } else { self.spec_to_u32_g4() };
        let r5 = if r4 is Some { r4 } else { self.spec_to_u32_g5() };
        let r6 = if r5 is Some { r5 } else { self.spec_to_u32_g6() };
        match r6 {
            Some(v) => v,
            None => 0,
        }
    }

    /// The symbol a raw value names, or `None` for any other value.
    pub open spec fn spec_from_u32(raw: u32) -> Option<NtStatusWindows> {
        let r0 = Self::spec_from_u32_g0(raw);
        let r1 = if r0 is Some { r0 } else { Self::spec_from_u32_g1(raw) };
        let r2 = if r1 is Some { r1 } else { Self::spec_from_u32_g2(raw) };
        let r3 = if r2 is Some { r2 } else { Self::spec_from_u32_g3(raw) };
        let r4 = if r3 is Some { r3 } else { Self::spec_from_u32_g4(raw) };
        let r5 = if r4 is Some { r4 } else { Self::spec_from_u32_g5(raw) };
        let r6 = if r5 is Some { r5 } else { Self::spec_from_u32_g6(raw) };
        r6
    }

    /// The raw value of this symbol.
    pub fn to_u32(self) -> (r: u32)
        ensures
            r == self.spec_to_u32(),
    {
        let r = self.to_u32_g0();
        if r.is_some() {
            return r.unwrap();
        }
        let r = self.to_u32_g1();
        if r.is_some() {
            return r.unwrap();
        }
        let r = self.to_u32_g2();
        if r.is_some() {
            return r.unwrap();
        }
        let r = self.to_u32_g3();
        if r.is_some() {
            return r.unwrap();
        }
        let r = self.to_u32_g4();
        if r.is_some() {
            return r.unwrap();
        }
        let r = self.to_u32_g5();
        if r.is_some() {
            return r.unwrap();
        }
        let r = self.to_u32_g6();
        if r.is_some() {
            return r.unwrap();
        }
        0
    }

    /// The symbol a raw value names, or `None` for any other value:
    /// an unknown value is never an error, the caller keeps the raw
    /// value itself.
    pub fn from_u32(raw: u32) -> (r: Option<NtStatusWindows>)
        ensures
            r == NtStatusWindows::spec_from_u32(raw),
    {
        let r = Self::from_u32_g0(raw);
        if r.is_some() {
            return r;
        }
        let r = Self::from_u32_g1(raw);
        if r.is_some() {
            return r;
        }
        let r = Self::from_u32_g2(raw);
        if r.is_some() {
            return r;
        }
        let r = Self::from_u32_g3(raw);
        if r.is_some() {
            return r;
        }
        let r = Self::from_u32_g4(raw);
        if r.is_some() {
            return r;
        }
        let r = Self::from_u32_g5(raw);
        if r.is_some() {
            return r;
        }
        let r = Self::from_u32_g6(raw);
        if r.is_some() {
            return r;
        }
        None
    }
}
} // verus!
