//! Backup configurations, snapshots, restore operations and their signals.
use vstd::prelude::*;

verus! {

/// A scheduled backup: what is copied, where to, and how often.
#[derive(Debug, Clone, PartialEq, Eq)]
pub struct BackupConfig {
    pub id: String,
    pub paths: Vec<String>,
    pub destination: String,
    pub destination_uuid: String,
    pub frequency: String,
}

/// Wire form of a backup configuration, `(sassss)`.
pub type BackupConfigRow = (String, Vec<String>, String, String, String);

impl From<BackupConfigRow> for BackupConfig {
    fn from(row: BackupConfigRow) -> (r: Self)
        ensures
            r.id == row.0,
            r.paths == row.1,
            r.destination == row.2,
            r.destination_uuid == row.3,
            r.frequency == row.4,
    {
        BackupConfig {
            id: row.0,
            paths: row.1,
            destination: row.2,
            destination_uuid: row.3,
            frequency: row.4,
        }
    }
}

impl vstd::std_specs::convert::FromSpecImpl<BackupConfigRow> for BackupConfig {
    open spec fn obeys_from_spec() -> bool {
        true
    }

    open spec fn from_spec(row: BackupConfigRow) -> Self {
        BackupConfig {
            id: row.0,
            paths: row.1,
            destination: row.2,
            destination_uuid: row.3,
            frequency: row.4,
        }
    }
}

impl From<BackupConfig> for BackupConfigRow {
    fn from(config: BackupConfig) -> (r: Self)
        ensures
            r.0 == config.id,
            r.1 == config.paths,
            r.2 == config.destination,
            r.3 == config.destination_uuid,
            r.4 == config.frequency,
    {
        (config.id, config.paths, config.destination, config.destination_uuid, config.frequency)
    }
}

impl vstd::std_specs::convert::FromSpecImpl<BackupConfig> for BackupConfigRow {
    open spec fn obeys_from_spec() -> bool {
        true
    }

    open spec fn from_spec(config: BackupConfig) -> Self {
        (config.id, config.paths, config.destination, config.destination_uuid, config.frequency)
    }
}

/// A configuration sent to the daemon as a row and read back is the same
/// configuration, and a row read as a configuration and sent back is the
/// same row.
pub proof fn lemma_config_row_round_trip(config: BackupConfig, row: BackupConfigRow)
    ensures
        <BackupConfig as vstd::std_specs::convert::FromSpec<BackupConfigRow>>::from_spec(
            <BackupConfigRow as vstd::std_specs::convert::FromSpec<BackupConfig>>::from_spec(config),
        ) == config,
        <BackupConfigRow as vstd::std_specs::convert::FromSpec<BackupConfig>>::from_spec(
            <BackupConfig as vstd::std_specs::convert::FromSpec<BackupConfigRow>>::from_spec(row),
        ) == row,
{
}

/// A stored snapshot of a backup configuration.
#[derive(Debug, Clone, PartialEq, Eq)]
pub struct BackupSnapshot {
    pub id: String,
    pub timestamp: i64,
    pub file_count: u64,
    pub size_bytes: u64,
}

/// Wire form of a snapshot, `(sxtt)`.
pub type BackupSnapshotRow = (String, i64, u64, u64);

impl From<BackupSnapshotRow> for BackupSnapshot {
    fn from(row: BackupSnapshotRow) -> (r: Self)
        ensures
            r.id == row.0,
            r.timestamp == row.1,
            r.file_count == row.2,
            r.size_bytes == row.3,
    {
        BackupSnapshot {
            id: row.0,
            timestamp: row.1,
            file_count: row.2,
            size_bytes: row.3,
        }
    }
}

impl vstd::std_specs::convert::FromSpecImpl<BackupSnapshotRow> for BackupSnapshot {
    open spec fn obeys_from_spec() -> bool {
        true
    }

    open spec fn from_spec(row: BackupSnapshotRow) -> Self {
        BackupSnapshot {
            id: row.0,
            timestamp: row.1,
            file_count: row.2,
            size_bytes: row.3,
        }
    }
}

/// Progress of a running backup or restore.
#[derive(Debug, Clone, PartialEq, Eq)]
pub struct BackupTransactionProgress {
    pub transaction_id: u32,
    pub percent: u32,
    pub message: String,
}

/// Completion of a backup or restore.
#[derive(Debug, Clone, PartialEq, Eq)]
pub struct BackupTransactionFinished {
    pub transaction_id: u32,
    pub success: bool,
    pub message: String,
}

/// Alert that a configuration keeps failing.
#[derive(Debug, Clone, PartialEq, Eq)]
pub struct BackupAlertEvent {
    pub config_id: String,
    pub consecutive_failures: u32,
    pub message: String,
}

/// A signal of the backup interface.
#[derive(Debug, Clone, PartialEq, Eq)]
pub enum BackupEvent {
    BackupProgress(BackupTransactionProgress),
    BackupFinished(BackupTransactionFinished),
    RestoreProgress(BackupTransactionProgress),
    RestoreFinished(BackupTransactionFinished),
    Alert(BackupAlertEvent),
}

/// Failure of the backup interface.
#[derive(Debug, Clone, PartialEq, Eq)]
pub enum BackupClientError {
    Unavailable(String),
}

/// Detail text of a stream that ended.
pub const STREAM_ENDED_DETAIL: &'static str = "stream de sinais encerrado";

impl BackupClientError {
    /// The interface could not be reached or answered with an error; holds
    /// that error's text.
    pub fn unavailable(detail: String) -> (r: Self)
        ensures
            r == BackupClientError::Unavailable(detail),
    {
        BackupClientError::Unavailable(detail)
    }

    /// A signal subscription ended.
    pub fn stream_ended() -> (r: Self)
        ensures
            r matches BackupClientError::Unavailable(d) && d@ == STREAM_ENDED_DETAIL@,
    {
        BackupClientError::Unavailable(String::from_str(STREAM_ENDED_DETAIL))
    }

    /// Catalog entry (msgid) of the user-facing message.
    pub fn message_id(&self) -> (r: &'static str)
        ensures
            r@ == "interface de backup indisponível: {detail}"@,
    {
        "interface de backup indisponível: {detail}"
    }

    /// The user-facing message from `template`, the catalog's rendering of
    /// `message_id()`: the error text filled into its `{detail}` placeholders.
    pub fn render_message(&self, template: &str) -> (r: String)
        ensures
            self matches BackupClientError::Unavailable(d) && r@ == crate::text::fill_detail(
                template@,
                d@,
            ),
    {
        match self {
            BackupClientError::Unavailable(detail) => crate::text::fill_detail_text(
                template,
                detail.as_str(),
            ),
        }
    }
}

/// What one of the backup signal subscriptions yielded.
#[derive(Debug, Clone, PartialEq, Eq)]
pub enum BackupSignalReceipt {
    /// A signal whose arguments were read.
    Received(BackupEvent),
    /// The subscription ended.
    Ended,
    /// A signal whose arguments could not be read; holds the reason.
    Malformed(String),
}

impl BackupEvent {
    /// The result that waiting for the next backup event gives when a
    /// subscription yields `receipt`: the event, or the error that ends the wait.
    pub fn from_receipt(receipt: BackupSignalReceipt) -> (r: Result<BackupEvent, BackupClientError>)
        ensures
            match receipt {
                BackupSignalReceipt::Received(event) => r == Ok::<BackupEvent, BackupClientError>(event),
                BackupSignalReceipt::Ended => r matches Err(BackupClientError::Unavailable(d))
                    && d@ == STREAM_ENDED_DETAIL@,
                BackupSignalReceipt::Malformed(detail) => r == Err::<BackupEvent, BackupClientError>(
                    BackupClientError::Unavailable(detail),
                ),
            },
    {
        match receipt {
            BackupSignalReceipt::Received(event) => Ok(event),
            BackupSignalReceipt::Ended => Err(BackupClientError::stream_ended()),
            BackupSignalReceipt::Malformed(detail) => Err(BackupClientError::unavailable(detail)),
        }
    }
}

/// Operations of the backup interface.
pub trait BackupClient: Send + Sync {
    fn create_config(&self, config: BackupConfig) -> Result<String, BackupClientError>;

    fn list_configs(&self) -> Result<Vec<BackupConfig>, BackupClientError>;

    fn run_now(&self, config_id: &str) -> Result<u32, BackupClientError>;

    fn list_snapshots(&self, config_id: &str) -> Result<Vec<BackupSnapshot>, BackupClientError>;

    fn list_snapshot_paths(&self, config_id: &str, snapshot_id: &str) -> Result<
        Vec<String>,
        BackupClientError,
    >;

    fn restore_snapshot(&self, snapshot_id: &str, target_path: &str, mode: &str) -> Result<
        u32,
        BackupClientError,
    >;

    fn restore_items(
        &self,
        snapshot_id: &str,
        target_path: &str,
        mode: &str,
        paths: &[String],
    ) -> Result<u32, BackupClientError>;

    fn delete_config(&self, config_id: &str) -> Result<(), BackupClientError>;
}

/// A `BackupConfig` converted from its wire row holds each field from its
/// position in the row: `id` from field 1, `paths` from field 2, `destination`
/// from field 3, `destination_uuid` from field 4, `frequency` from field 5.
pub proof fn lemma_backup_config_from_row(row: BackupConfigRow, r: BackupConfig)
    requires
        call_ensures(<BackupConfig as From<BackupConfigRow>>::from, (row,), r),
    ensures
        r.id == row.0,
        r.paths == row.1,
        r.destination == row.2,
        r.destination_uuid == row.3,
        r.frequency == row.4,
{
}

/// A `BackupSnapshot` converted from its wire row holds each field from its
/// position in the row: `id` from field 1, `timestamp` from field 2,
/// `file_count` from field 3, `size_bytes` from field 4.
pub proof fn lemma_backup_snapshot_from_row(row: BackupSnapshotRow, r: BackupSnapshot)
    requires
        call_ensures(<BackupSnapshot as From<BackupSnapshotRow>>::from, (row,), r),
    ensures
        r.id == row.0,
        r.timestamp == row.1,
        r.file_count == row.2,
        r.size_bytes == row.3,
{
}

/// The wire row of a backup configuration is `(id, paths, destination,
/// destination_uuid, frequency)`, each field at its position.
pub proof fn lemma_backup_config_to_row(config: BackupConfig, r: BackupConfigRow)
    requires
        call_ensures(<BackupConfigRow as From<BackupConfig>>::from, (config,), r),
    ensures
        r.0 == config.id,
        r.1 == config.paths,
        r.2 == config.destination,
        r.3 == config.destination_uuid,
        r.4 == config.frequency,
{
}

} // verus!
