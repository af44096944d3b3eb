//! Typed client model for the `org.lyraos.Vega1` D-Bus contract: the
//! records each interface exchanges, the errors it reports, the operations
//! a client offers, and the decisions that observing the daemon's signals
//! and transactions involves.
pub mod text;
pub mod rows;
pub mod contract;
pub mod system;
pub mod mock;
pub mod backup;
pub mod bluetooth;
pub mod datetime;
pub mod firewall;
pub mod kernel;
pub mod logs;
pub mod monitor;
pub mod network;
pub mod preparation;
pub mod software;
pub mod storage;
pub mod users;

pub use backup::{
    BackupAlertEvent, BackupClient, BackupClientError, BackupConfig, BackupEvent,
    BackupSignalReceipt, BackupSnapshot, BackupTransactionFinished, BackupTransactionProgress,
};
pub use bluetooth::{BluetoothClient, BluetoothClientError, BluetoothDevice, BluetoothStatus};
pub use datetime::{DateTimeClient, DateTimeClientError, DateTimeStatus};
pub use firewall::{FirewallClient, FirewallClientError, FirewallService, FirewallStatus};
pub use kernel::{BootStatus, KernelClient, KernelClientError};
pub use logs::{LogsClient, LogsClientError};
pub use mock::MockSystemClient;
pub use monitor::MonitorClientError;
pub use network::{NetworkClient, NetworkClientError, NetworkInterface, ProxyConfig, WifiNetwork};
pub use preparation::{
    PreparationClient, PreparationClientError, PreparationKey, PreparationStatus,
};
pub use software::{
    NonFreeFirmwareStatus, NvidiaRecovery, NvidiaStatus, PackageDetails, PackageRef,
    RepositoryKeyInfo, RepositoryRef, SoftwareClient, SoftwareClientError, SoftwareConsoleLine,
    SoftwareEvent, SoftwarePackageProgress, SoftwareStreamState, SoftwareTransactionFinished,
    SoftwareTransactionProgress, SubscriptionStep, UpdateStatus,
};
pub use storage::{StorageClient, StorageClientError, StorageVolume};
pub use system::{
    BackendStatus, SystemClient, SystemClientError, BUS_NAME, OBJECT_PATH, SYSTEM_INTERFACE,
};
pub use users::{UserInfo, UsersClient, UsersClientError};
