//! Package management: search, installation, updates, repositories, NVIDIA
//! drivers and firmware, and the observation of running transactions.
use vstd::prelude::*;

verus! {

/// Absolute observation limit of one transaction, in milliseconds (two
/// hours); expiry never cancels or retries the daemon operation.
pub const SOFTWARE_TRANSACTION_TIMEOUT_MS: u64 = 7_200_000;

/// A package or application as listed by searches and update checks.
#[derive(Debug, Clone, PartialEq, Eq)]
pub struct PackageRef {
    pub origin: String,
    pub id: String,
    pub name: String,
    pub description: String,
    pub installed: bool,
    pub icon: String,
    /// Source repository's display name, populated for pending updates so
    /// the UI can group the Updates tab by it ("Flathub" for that origin,
    /// the zypper repo's Name for "official"). Empty where grouping
    /// doesn't apply (Search, ListInstalled).
    pub repository: String,
}

/// Wire form of a package, `(ssssbss)`.
pub type PackageRefRow = (String, String, String, String, bool, String, String);

impl From<PackageRefRow> for PackageRef {
    fn from(row: PackageRefRow) -> (r: Self)
        ensures
            r.origin == row.0,
            r.id == row.1,
            r.name == row.2,
            r.description == row.3,
            r.installed == row.4,
            r.icon == row.5,
            r.repository == row.6,
    {
        PackageRef {
            origin: row.0,
            id: row.1,
            name: row.2,
            description: row.3,
            installed: row.4,
            icon: row.5,
            repository: row.6,
        }
    }
}

impl vstd::std_specs::convert::FromSpecImpl<PackageRefRow> for PackageRef {
    open spec fn obeys_from_spec() -> bool {
        true
    }

    open spec fn from_spec(row: PackageRefRow) -> Self {
        PackageRef {
            origin: row.0,
            id: row.1,
            name: row.2,
            description: row.3,
            installed: row.4,
            icon: row.5,
            repository: row.6,
        }
    }
}

/// A configured repository and whether it is enabled.
#[derive(Debug, Clone, PartialEq, Eq)]
pub struct RepositoryRef {
    pub name: String,
    pub enabled: bool,
}

/// Wire form of a repository, `(sb)`.
pub type RepositoryRefRow = (String, bool);

impl From<RepositoryRefRow> for RepositoryRef {
    fn from(row: RepositoryRefRow) -> (r: Self)
        ensures
            r.name == row.0,
            r.enabled == row.1,
    {
        RepositoryRef {
            name: row.0,
            enabled: row.1,
        }
    }
}

impl vstd::std_specs::convert::FromSpecImpl<RepositoryRefRow> for RepositoryRef {
    open spec fn obeys_from_spec() -> bool {
        true
    }

    open spec fn from_spec(row: RepositoryRefRow) -> Self {
        RepositoryRef {
            name: row.0,
            enabled: row.1,
        }
    }
}

/// Everything the daemon reports about one package.
#[derive(Debug, Clone, PartialEq, Eq)]
pub struct PackageDetails {
    pub origin: String,
    pub id: String,
    pub name: String,
    pub description: String,
    pub installed: bool,
    pub installed_version: String,
    pub available_version: String,
    pub download_size: String,
    pub installed_size: String,
    pub dependencies: Vec<String>,
    pub licenses: Vec<String>,
    pub url: String,
    pub maintainer: String,
}

/// Wire form of package details, `(ssssbssssasasss)`.
pub type PackageDetailsRow = (String, String, String, String, bool, String, String, String, String, Vec<String>, Vec<String>, String, String);

impl From<PackageDetailsRow> for PackageDetails {
    fn from(row: PackageDetailsRow) -> (r: Self)
        ensures
            r.origin == row.0,
            r.id == row.1,
            r.name == row.2,
            r.description == row.3,
            r.installed == row.4,
            r.installed_version == row.5,
            r.available_version == row.6,
            r.download_size == row.7,
            r.installed_size == row.8,
            r.dependencies == row.9,
            r.licenses == row.10,
            r.url == row.11,
            r.maintainer == row.12,
    {
        PackageDetails {
            origin: row.0,
            id: row.1,
            name: row.2,
            description: row.3,
            installed: row.4,
            installed_version: row.5,
            available_version: row.6,
            download_size: row.7,
            installed_size: row.8,
            dependencies: row.9,
            licenses: row.10,
            url: row.11,
            maintainer: row.12,
        }
    }
}

impl vstd::std_specs::convert::FromSpecImpl<PackageDetailsRow> for PackageDetails {
    open spec fn obeys_from_spec() -> bool {
        true
    }

    open spec fn from_spec(row: PackageDetailsRow) -> Self {
        PackageDetails {
            origin: row.0,
            id: row.1,
            name: row.2,
            description: row.3,
            installed: row.4,
            installed_version: row.5,
            available_version: row.6,
            download_size: row.7,
            installed_size: row.8,
            dependencies: row.9,
            licenses: row.10,
            url: row.11,
            maintainer: row.12,
        }
    }
}

/// Overall progress of a running transaction.
#[derive(Debug, Clone, PartialEq, Eq)]
pub struct SoftwareTransactionProgress {
    pub transaction_id: u32,
    pub percent: u32,
    pub message: String,
}

/// Completion of a transaction.
#[derive(Debug, Clone, PartialEq, Eq)]
pub struct SoftwareTransactionFinished {
    pub transaction_id: u32,
    pub success: bool,
    pub message: String,
}

/// Fine-grained, per-package progress alongside a transaction's overall
/// progress; only emitted for Install/Remove/UpdateAll on the "official"
/// origin. `phase` is the wire value verbatim, "download" or "install".
#[derive(Debug, Clone, PartialEq, Eq)]
pub struct SoftwarePackageProgress {
    pub transaction_id: u32,
    pub package: String,
    pub phase: String,
    pub percent: u32,
}

/// A line of package manager output of a transaction.
#[derive(Debug, Clone, PartialEq, Eq)]
pub struct SoftwareConsoleLine {
    pub transaction_id: u32,
    pub source: String,
    pub line: String,
}

/// NVIDIA driver support and installation state.
#[derive(Debug, Clone, PartialEq, Eq)]
pub struct NvidiaStatus {
    pub supported: bool,
    pub installed: bool,
    pub reboot_required: bool,
    pub gpu: String,
    pub secure_boot: String,
    pub state: String,
    pub detail: String,
    pub recovery_snapshot: u32,
}

/// Wire form of the NVIDIA status, `(bbbssssu)`.
pub type NvidiaStatusRow = (bool, bool, bool, String, String, String, String, u32);

impl From<NvidiaStatusRow> for NvidiaStatus {
    fn from(row: NvidiaStatusRow) -> (r: Self)
        ensures
            r.supported == row.0,
            r.installed == row.1,
            r.reboot_required == row.2,
            r.gpu == row.3,
            r.secure_boot == row.4,
            r.state == row.5,
            r.detail == row.6,
            r.recovery_snapshot == row.7,
    {
        NvidiaStatus {
            supported: row.0,
            installed: row.1,
            reboot_required: row.2,
            gpu: row.3,
            secure_boot: row.4,
            state: row.5,
            detail: row.6,
            recovery_snapshot: row.7,
        }
    }
}

impl vstd::std_specs::convert::FromSpecImpl<NvidiaStatusRow> for NvidiaStatus {
    open spec fn obeys_from_spec() -> bool {
        true
    }

    open spec fn from_spec(row: NvidiaStatusRow) -> Self {
        NvidiaStatus {
            supported: row.0,
            installed: row.1,
            reboot_required: row.2,
            gpu: row.3,
            secure_boot: row.4,
            state: row.5,
            detail: row.6,
            recovery_snapshot: row.7,
        }
    }
}

/// Recovery preflight and reference for the NVIDIA driver installation.
#[derive(Debug, Clone, PartialEq, Eq)]
pub struct NvidiaRecovery {
    pub available: bool,
    pub kind: String,
    pub reference: String,
    pub state: String,
    pub detail: String,
}

/// Wire form of the NVIDIA recovery state, `(bssss)`.
pub type NvidiaRecoveryRow = (bool, String, String, String, String);

impl From<NvidiaRecoveryRow> for NvidiaRecovery {
    fn from(row: NvidiaRecoveryRow) -> (r: Self)
        ensures
            r.available == row.0,
            r.kind == row.1,
            r.reference == row.2,
            r.state == row.3,
            r.detail == row.4,
    {
        NvidiaRecovery {
            available: row.0,
            kind: row.1,
            reference: row.2,
            state: row.3,
            detail: row.4,
        }
    }
}

impl vstd::std_specs::convert::FromSpecImpl<NvidiaRecoveryRow> for NvidiaRecovery {
    open spec fn obeys_from_spec() -> bool {
        true
    }

    open spec fn from_spec(row: NvidiaRecoveryRow) -> Self {
        NvidiaRecovery {
            available: row.0,
            kind: row.1,
            reference: row.2,
            state: row.3,
            detail: row.4,
        }
    }
}

/// Detection and installation state of non-free firmware.
#[derive(Debug, Clone, PartialEq, Eq)]
pub struct NonFreeFirmwareStatus {
    pub detected: bool,
    pub installed: bool,
    pub detail: String,
    pub packages: Vec<String>,
}

/// Wire form of the firmware status, `(bbsas)`.
pub type NonFreeFirmwareStatusRow = (bool, bool, String, Vec<String>);

impl From<NonFreeFirmwareStatusRow> for NonFreeFirmwareStatus {
    fn from(row: NonFreeFirmwareStatusRow) -> (r: Self)
        ensures
            r.detected == row.0,
            r.installed == row.1,
            r.detail == row.2,
            r.packages == row.3,
    {
        NonFreeFirmwareStatus {
            detected: row.0,
            installed: row.1,
            detail: row.2,
            packages: row.3,
        }
    }
}

impl vstd::std_specs::convert::FromSpecImpl<NonFreeFirmwareStatusRow> for NonFreeFirmwareStatus {
    open spec fn obeys_from_spec() -> bool {
        true
    }

    open spec fn from_spec(row: NonFreeFirmwareStatusRow) -> Self {
        NonFreeFirmwareStatus {
            detected: row.0,
            installed: row.1,
            detail: row.2,
            packages: row.3,
        }
    }
}

/// Result of the last update check.
#[derive(Debug, Clone, PartialEq, Eq)]
pub struct UpdateStatus {
    pub checked_at: String,
    pub profile: String,
    pub native_count: u32,
    pub flatpak_count: u32,
    pub total_count: u32,
    pub security_count: u32,
    pub in_progress: bool,
    pub error: String,
}

/// Wire form of the update status, `(ssuuuubs)`.
pub type UpdateStatusRow = (String, String, u32, u32, u32, u32, bool, String);

impl From<UpdateStatusRow> for UpdateStatus {
    fn from(row: UpdateStatusRow) -> (r: Self)
        ensures
            r.checked_at == row.0,
            r.profile == row.1,
            r.native_count == row.2,
            r.flatpak_count == row.3,
            r.total_count == row.4,
            r.security_count == row.5,
            r.in_progress == row.6,
            r.error == row.7,
    {
        UpdateStatus {
            checked_at: row.0,
            profile: row.1,
            native_count: row.2,
            flatpak_count: row.3,
            total_count: row.4,
            security_count: row.5,
            in_progress: row.6,
            error: row.7,
        }
    }
}

impl vstd::std_specs::convert::FromSpecImpl<UpdateStatusRow> for UpdateStatus {
    open spec fn obeys_from_spec() -> bool {
        true
    }

    open spec fn from_spec(row: UpdateStatusRow) -> Self {
        UpdateStatus {
            checked_at: row.0,
            profile: row.1,
            native_count: row.2,
            flatpak_count: row.3,
            total_count: row.4,
            security_count: row.5,
            in_progress: row.6,
            error: row.7,
        }
    }
}

/// A repository's signing key discovered by AddRepo/TrustRepoKey that isn't
/// trusted yet: the UI shows `user_id`/`fingerprint` and lets the user
/// approve importing it through `SoftwareClient::trust_repo_key`.
#[derive(Debug, Clone, PartialEq, Eq)]
pub struct RepositoryKeyInfo {
    pub transaction_id: u32,
    pub repo: String,
    pub key_id: String,
    pub fingerprint: String,
    pub user_id: String,
}

/// A signal of the software interface.
#[derive(Debug, Clone, PartialEq, Eq)]
pub enum SoftwareEvent {
    Progress(SoftwareTransactionProgress),
    Finished(SoftwareTransactionFinished),
    UpdatesAvailable(u32),
    KeyPending(RepositoryKeyInfo),
    PackageProgress(SoftwarePackageProgress),
    ConsoleLine(SoftwareConsoleLine),
}

/// Failure of the software interface.
#[derive(Debug, Clone, PartialEq, Eq)]
pub enum SoftwareClientError {
    /// The interface could not be reached or answered with an error.
    Unavailable(String),
    /// The daemon this client was bound to lost the public name: the result
    /// of any pending operation was not confirmed.
    ServiceOwnerChanged,
    /// The observation limit of a transaction passed: the operation may still
    /// be running.
    TransactionTimedOut,
}

/// Catalog entry of the message for a session whose daemon lost the name.
pub const SERVICE_OWNER_CHANGED_MESSAGE: &'static str =
    "O serviço de software foi interrompido ou reiniciado. O resultado da operação não foi confirmado; verifique o estado do sistema antes de tentar novamente.";

/// Catalog entry of the message for a transaction whose observation expired.
pub const TRANSACTION_TIMED_OUT_MESSAGE: &'static str =
    "O prazo de acompanhamento terminou. A operação pode continuar em execução; verifique o estado do sistema antes de tentar novamente.";

/// Detail text of a signal subscription that ended.
pub const SOFTWARE_STREAM_ENDED_DETAIL: &'static str = "stream de sinais encerrado";

/// Detail text of a client that does not offer the NVIDIA recovery query.
pub const NVIDIA_RECOVERY_UNSUPPORTED_DETAIL: &'static str =
    "NVIDIA recovery is not supported by this client";

impl SoftwareClientError {
    /// The interface could not be reached or answered with an error; holds
    /// that error's text.
    pub fn unavailable(detail: String) -> (r: Self)
        ensures
            r == SoftwareClientError::Unavailable(detail),
    {
        SoftwareClientError::Unavailable(detail)
    }

    /// A signal subscription ended.
    pub fn stream_ended() -> (r: Self)
        ensures
            r matches SoftwareClientError::Unavailable(d) && d@ == SOFTWARE_STREAM_ENDED_DETAIL@,
    {
        SoftwareClientError::Unavailable(String::from_str(SOFTWARE_STREAM_ENDED_DETAIL))
    }

    /// A field-by-field copy.
    pub fn duplicate(&self) -> (r: Self)
        ensures
            r == *self,
    {
        match self {
            SoftwareClientError::Unavailable(d) => SoftwareClientError::Unavailable(d.clone()),
            SoftwareClientError::ServiceOwnerChanged => SoftwareClientError::ServiceOwnerChanged,
            SoftwareClientError::TransactionTimedOut => SoftwareClientError::TransactionTimedOut,
        }
    }

    /// Catalog entry (msgid) of the user-facing message. An owner change and a
    /// timeout say that the result was not confirmed (or that the operation
    /// may still be running) and that the system state should be checked
    /// before trying again.
    pub fn message_id(&self) -> (r: &'static str)
        ensures
            self is ServiceOwnerChanged ==> r@ == SERVICE_OWNER_CHANGED_MESSAGE@,
            self is TransactionTimedOut ==> r@ == TRANSACTION_TIMED_OUT_MESSAGE@,
            self is Unavailable ==> r@ == "interface de software indisponível: {detail}"@,
    {
        match self {
            SoftwareClientError::ServiceOwnerChanged => SERVICE_OWNER_CHANGED_MESSAGE,
            SoftwareClientError::TransactionTimedOut => TRANSACTION_TIMED_OUT_MESSAGE,
            SoftwareClientError::Unavailable(_) => "interface de software indisponível: {detail}",
        }
    }

    /// The user-facing message from `template`, the catalog's rendering of
    /// `message_id()`: `Unavailable` fills its detail into the `{detail}`
    /// placeholders; the other variants have no detail and give the template
    /// as it is.
    pub fn render_message(&self, template: &str) -> (r: String)
        ensures
            match self {
                SoftwareClientError::Unavailable(d) => r@ == crate::text::fill_detail(
                    template@,
                    d@,
                ),
                _ => r@ == template@,
            },
    {
        match self {
            SoftwareClientError::Unavailable(d) => crate::text::fill_detail_text(
                template,
                d.as_str(),
            ),
            _ => template.to_owned(),
        }
    }
}

/// Operations of the software interface.
pub trait SoftwareClient: Send + Sync {
    fn package_manager_name(&self) -> Result<String, SoftwareClientError>;

    fn search(&self, query: &str) -> Result<Vec<PackageRef>, SoftwareClientError>;

    fn search_native(&self, query: &str) -> Result<Vec<PackageRef>, SoftwareClientError>;

    fn package_details(&self, origin: &str, id: &str) -> Result<PackageDetails, SoftwareClientError>;

    fn list_updates(&self) -> Result<Vec<PackageRef>, SoftwareClientError>;

    fn list_native_updates(&self) -> Result<Vec<PackageRef>, SoftwareClientError>;

    fn update_status(&self) -> Result<UpdateStatus, SoftwareClientError>;

    fn request_update_check(&self) -> Result<UpdateStatus, SoftwareClientError>;

    fn list_installed(&self) -> Result<Vec<PackageRef>, SoftwareClientError>;

    fn list_native_installed(&self) -> Result<Vec<PackageRef>, SoftwareClientError>;

    fn list_repos(&self) -> Result<Vec<RepositoryRef>, SoftwareClientError>;

    fn install(&self, origin: &str, id: &str) -> Result<u32, SoftwareClientError>;

    fn remove(&self, origin: &str, id: &str) -> Result<u32, SoftwareClientError>;

    fn update_all(&self) -> Result<u32, SoftwareClientError>;

    fn update_all_native(&self) -> Result<u32, SoftwareClientError>;

    fn update_package(&self, origin: &str, id: &str) -> Result<u32, SoftwareClientError>;

    fn set_repo_enabled(&self, repo: &str, enabled: bool) -> Result<(), SoftwareClientError>;

    fn add_repo(&self, name: &str, url: &str) -> Result<u32, SoftwareClientError>;

    fn trust_repo_key(&self, repo: &str, key_id: &str) -> Result<u32, SoftwareClientError>;

    fn clear_cache(&self) -> Result<u32, SoftwareClientError>;

    fn clear_native_cache(&self) -> Result<u32, SoftwareClientError>;

    fn nvidia_status(&self) -> Result<NvidiaStatus, SoftwareClientError>;

    /// Public recovery preflight and reference; requires nvidia-recovery-v1.
    fn nvidia_recovery(&self) -> (r: Result<NvidiaRecovery, SoftwareClientError>)
        default_ensures
            r matches Err(SoftwareClientError::Unavailable(d)) && d@
                == NVIDIA_RECOVERY_UNSUPPORTED_DETAIL@,
    {
        Err(SoftwareClientError::Unavailable(String::from_str(NVIDIA_RECOVERY_UNSUPPORTED_DETAIL)))
    }

    /// Optional qualified NVIDIA installation. Requires the `nvidia-official-v1`
    /// metadata capability and explicit user confirmation; authorization occurs
    /// only for installation. Earlier daemons return NotSupported.
    /// Cancellation must not start a transaction.
    fn install_nvidia(&self, confirmed: bool) -> Result<u32, SoftwareClientError>;

    fn check_nvidia(&self) -> Result<(bool, String), SoftwareClientError>;

    fn non_free_firmware_status(&self) -> Result<NonFreeFirmwareStatus, SoftwareClientError>;

    /// Legacy v1 endpoint: the daemon returns NotSupported without installing firmware.
    fn install_non_free_firmware(&self, confirmed: bool) -> Result<u32, SoftwareClientError>;
}

/// Answer of the bus to "who owns the daemon's public name?".
#[derive(Debug, Clone, PartialEq, Eq)]
pub enum OwnerLookup {
    /// The unique name of the current owner.
    Owner(String),
    /// Nobody owns the name; holds the bus's error text.
    NoOwner(String),
    /// The question failed otherwise; holds the error text.
    Failed(String),
}

/// Resolution of the unique owner that a software session binds to. The
/// name is looked up; when nobody owns it the daemon is activated once and
/// the name looked up again.
#[derive(Debug, Clone, PartialEq, Eq)]
pub enum OwnerResolution {
    /// The name is to be looked up.
    Lookup,
    /// Nobody owned the name: the daemon is to be activated.
    Activate,
    /// The daemon was activated: the name is to be looked up again.
    LookupAfterActivation,
    /// The session binds to this unique name.
    Resolved(String),
    /// No owner could be resolved.
    Failed(SoftwareClientError),
}

/// The resolution after a lookup answered `reply`.
pub open spec fn resolution_after_lookup(state: OwnerResolution, reply: OwnerLookup) -> OwnerResolution {
    match reply {
        OwnerLookup::Owner(owner) => OwnerResolution::Resolved(owner),
        OwnerLookup::NoOwner(detail) => if state is Lookup {
            OwnerResolution::Activate
        } else {
            OwnerResolution::Failed(SoftwareClientError::Unavailable(detail))
        },
        OwnerLookup::Failed(detail) => OwnerResolution::Failed(
            SoftwareClientError::Unavailable(detail),
        ),
    }
}

/// The resolution after the activation request answered `reply`.
pub open spec fn resolution_after_activation(reply: Result<(), String>) -> OwnerResolution {
    match reply {
        Ok(()) => OwnerResolution::LookupAfterActivation,
        Err(detail) => OwnerResolution::Failed(SoftwareClientError::Unavailable(detail)),
    }
}

impl OwnerResolution {
    /// A resolution that starts with a lookup.
    pub fn start() -> (r: Self)
        ensures
            r == OwnerResolution::Lookup,
    {
        OwnerResolution::Lookup
    }

    /// Takes the answer to a lookup: an owner resolves the session; no
    /// owner leads to one activation, or to failure after it; any other
    /// failure ends the resolution.
    pub fn after_lookup(self, reply: OwnerLookup) -> (r: Self)
        requires
            self is Lookup || self is LookupAfterActivation,
        ensures
            r == resolution_after_lookup(self, reply),
    {
        match reply {
            OwnerLookup::Owner(owner) => OwnerResolution::Resolved(owner),
            OwnerLookup::NoOwner(detail) => match self {
                OwnerResolution::Lookup => OwnerResolution::Activate,
                _ => OwnerResolution::Failed(SoftwareClientError::Unavailable(detail)),
            },
            OwnerLookup::Failed(detail) => OwnerResolution::Failed(
                SoftwareClientError::Unavailable(detail),
            ),
        }
    }

    /// Takes the answer to the activation request.
    pub fn after_activation(self, reply: Result<(), String>) -> (r: Self)
        requires
            self is Activate,
        ensures
            r == resolution_after_activation(reply),
    {
        match reply {
            Ok(()) => OwnerResolution::LookupAfterActivation,
            Err(detail) => OwnerResolution::Failed(SoftwareClientError::Unavailable(detail)),
        }
    }
}

/// Resolution ends within three answers, and the daemon is activated at most
/// once, only after a lookup found nobody owning the name.
pub proof fn lemma_owner_resolution_ends(
    first: OwnerLookup,
    activation: Result<(), String>,
    second: OwnerLookup,
)
    ensures
        ({
            let s1 = resolution_after_lookup(OwnerResolution::Lookup, first);
            &&& s1 is Activate <==> first is NoOwner
            &&& s1 is Resolved || s1 is Failed || s1 is Activate
        }),
        ({
            let s2 = resolution_after_activation(activation);
            s2 is LookupAfterActivation || s2 is Failed
        }),
        ({
            let s3 = resolution_after_lookup(OwnerResolution::LookupAfterActivation, second);
            s3 is Resolved || s3 is Failed
        }),
{
}

/// The outcome of checking, before a call, that the public name still has
/// the owner the session was bound to.
pub open spec fn owner_check(expected: Seq<char>, reply: OwnerLookup) -> Result<(), SoftwareClientError> {
    match reply {
        OwnerLookup::Owner(owner) => if owner@ == expected {
            Ok(())
        } else {
            Err(SoftwareClientError::ServiceOwnerChanged)
        },
        OwnerLookup::NoOwner(_) => Err(SoftwareClientError::ServiceOwnerChanged),
        OwnerLookup::Failed(detail) => Err(SoftwareClientError::Unavailable(detail)),
    }
}

/// Checks that the public name is still owned by `expected`: any other
/// owner, or none, means the session's daemon is gone and nothing is sent
/// to a replacement.
pub fn check_owner(expected: &str, reply: OwnerLookup) -> (r: Result<(), SoftwareClientError>)
    ensures
        r == owner_check(expected@, reply),
{
    match reply {
        OwnerLookup::Owner(owner) => {
            if crate::text::same_text(owner.as_str(), expected) {
                Ok(())
            } else {
                Err(SoftwareClientError::ServiceOwnerChanged)
            }
        },
        OwnerLookup::NoOwner(_) => Err(SoftwareClientError::ServiceOwnerChanged),
        OwnerLookup::Failed(detail) => Err(SoftwareClientError::Unavailable(detail)),
    }
}

/// A call goes ahead exactly when the public name is still owned by the
/// bound owner.
pub proof fn lemma_calls_only_reach_the_bound_owner(expected: Seq<char>, reply: OwnerLookup)
    ensures
        owner_check(expected, reply) is Ok <==> (reply matches OwnerLookup::Owner(o) && o@
            == expected),
{
}

/// What one of the subscriptions of a software event stream yielded.
#[derive(Debug, Clone, PartialEq, Eq)]
pub enum SoftwareSignalReceipt {
    /// The public name changed owner; holds the previous owner, if any.
    OwnerChanged(Option<String>),
    /// A signal whose arguments were read: the unique name of the
    /// connection that sent it, and the event it carries.
    Received(String, SoftwareEvent),
    /// A subscription ended.
    Ended,
    /// A signal whose arguments could not be read; holds the reason.
    Malformed(String),
}

/// The state of an event stream, as a value.
pub struct SoftwareStreamView {
    /// Unique name of the owner the stream observes.
    pub owner: Seq<char>,
    /// The error that ended the stream, if it ended.
    pub terminal_error: Option<SoftwareClientError>,
    /// The transaction being waited for, with its absolute deadline.
    pub transaction_deadline: Option<(u32, u64)>,
}

/// What a receipt makes of the wait for the next event: `None` to keep
/// waiting, or the result of the wait.
pub open spec fn receipt_outcome(owner: Seq<char>, receipt: SoftwareSignalReceipt) -> Option<
    Result<SoftwareEvent, SoftwareClientError>,
> {
    match receipt {
        SoftwareSignalReceipt::OwnerChanged(old_owner) => if old_owner matches Some(o) && o@
            == owner {
            Some(Err(SoftwareClientError::ServiceOwnerChanged))
        } else {
            None
        },
        SoftwareSignalReceipt::Received(sender, event) => if sender@ == owner {
            Some(Ok(event))
        } else {
            None
        },
        SoftwareSignalReceipt::Ended => Some(
            Err(SoftwareClientError::Unavailable(stream_ended_detail_text())),
        ),
        SoftwareSignalReceipt::Malformed(detail) => Some(
            Err(SoftwareClientError::Unavailable(detail)),
        ),
    }
}

/// A string holding the detail of an ended subscription.
pub open spec fn stream_ended_detail_text() -> String {
    choose|d: String| #![trigger d@] d@ == SOFTWARE_STREAM_ENDED_DETAIL@
}

/// The stream state after a wait ended with `outcome`: an error ends the
/// stream for good, the first error being kept.
pub open spec fn after_outcome(
    v: SoftwareStreamView,
    outcome: Result<SoftwareEvent, SoftwareClientError>,
) -> SoftwareStreamView {
    match (v.terminal_error, outcome) {
        (None, Err(e)) => SoftwareStreamView { terminal_error: Some(e), ..v },
        _ => v,
    }
}

/// The deadline a transaction wait uses: the one already running for this
/// transaction, or `now + timeout` for any other.
pub open spec fn wait_deadline(v: SoftwareStreamView, transaction_id: u32, now: u64, timeout: u64) -> u64 {
    match v.transaction_deadline {
        Some((id, deadline)) if id == transaction_id => deadline,
        _ => (now + timeout) as u64,
    }
}

/// Whether a transaction wait on a stream in state `v` forms a new
/// deadline: the stream is still open and no deadline runs for this
/// transaction yet.
pub open spec fn forms_new_deadline(v: SoftwareStreamView, transaction_id: u32) -> bool {
    &&& v.terminal_error is None
    &&& !(v.transaction_deadline matches Some((id, _)) && id == transaction_id)
}

/// The stream state once a transaction wait has started: the wait's
/// deadline is recorded, and a deadline that has already passed at `now`
/// ends the stream with `TransactionTimedOut` before any signal is read.
pub open spec fn after_begin(v: SoftwareStreamView, transaction_id: u32, now: u64, timeout: u64) -> SoftwareStreamView {
    if v.terminal_error is Some {
        v
    } else {
        let deadline = wait_deadline(v, transaction_id, now, timeout);
        SoftwareStreamView {
            transaction_deadline: Some((transaction_id, deadline)),
            terminal_error: if deadline <= now {
                Some(SoftwareClientError::TransactionTimedOut)
            } else {
                None
            },
            ..v
        }
    }
}

/// The stream state after a transaction wait ended with `outcome`: the
/// transaction's own completion releases its deadline; an error ends the
/// stream for good.
pub open spec fn after_transaction(
    v: SoftwareStreamView,
    transaction_id: u32,
    outcome: Result<SoftwareEvent, SoftwareClientError>,
) -> SoftwareStreamView {
    let released = if outcome matches Ok(SoftwareEvent::Finished(f)) && f.transaction_id
        == transaction_id {
        SoftwareStreamView { transaction_deadline: None, ..v }
    } else {
        v
    };
    after_outcome(released, outcome)
}

/// Decisions of an event stream bound to one daemon instance: which events
/// end it, the error it keeps returning once ended, and the absolute
/// deadline of the transaction being monitored. Times are milliseconds on a
/// clock that the caller keeps.
pub struct SoftwareStreamState {
    owner: String,
    terminal_error: Option<SoftwareClientError>,
    transaction_deadline: Option<(u32, u64)>,
}

impl View for SoftwareStreamState {
    type V = SoftwareStreamView;

    closed spec fn view(&self) -> SoftwareStreamView {
        SoftwareStreamView {
            owner: self.owner@,
            terminal_error: self.terminal_error,
            transaction_deadline: self.transaction_deadline,
        }
    }
}

impl SoftwareStreamState {
    /// A live stream of the daemon whose unique name is `owner`.
    pub fn new(owner: String) -> (r: Self)
        ensures
            r@ == (SoftwareStreamView {
                owner: owner@,
                terminal_error: None,
                transaction_deadline: None,
            }),
    {
        SoftwareStreamState { owner, terminal_error: None, transaction_deadline: None }
    }

    /// Unique name of the owner the stream observes.
    pub fn owner(&self) -> (r: &str)
        ensures
            r@ == self@.owner,
    {
        self.owner.as_str()
    }

    /// The error that ended the stream, if it ended.
    pub fn terminal_error(&self) -> (r: Option<SoftwareClientError>)
        ensures
            r == self@.terminal_error,
    {
        match &self.terminal_error {
            Some(e) => Some(e.duplicate()),
            None => None,
        }
    }

    /// The transaction being waited for and its absolute deadline.
    pub fn transaction_deadline(&self) -> (r: Option<(u32, u64)>)
        ensures
            r == self@.transaction_deadline,
    {
        self.transaction_deadline
    }

    /// Before a wait: an ended stream answers with its error at once.
    pub fn check_open(&self) -> (r: Result<(), SoftwareClientError>)
        ensures
            match self@.terminal_error {
                Some(e) => r == Err::<(), SoftwareClientError>(e),
                None => r is Ok,
            },
    {
        match &self.terminal_error {
            Some(e) => Err(e.duplicate()),
            None => Ok(()),
        }
    }

    /// What a receipt makes of the wait for the next event: `None` to keep
    /// waiting (an owner change that does not concern this stream's owner,
    /// or a signal sent by another connection than the owner), or the
    /// result of the wait.
    pub fn on_receipt(&self, receipt: SoftwareSignalReceipt) -> (r: Option<
        Result<SoftwareEvent, SoftwareClientError>,
    >)
        ensures
            match receipt {
                SoftwareSignalReceipt::Ended => r matches Some(Err(SoftwareClientError::Unavailable(d)))
                    && d@ == SOFTWARE_STREAM_ENDED_DETAIL@,
                _ => r == receipt_outcome(self@.owner, receipt),
            },
    {
        match receipt {
            SoftwareSignalReceipt::OwnerChanged(old_owner) => match old_owner {
                Some(o) => {
                    if crate::text::same_text(o.as_str(), self.owner.as_str()) {
                        Some(Err(SoftwareClientError::ServiceOwnerChanged))
                    } else {
                        None
                    }
                },
                None => None,
            },
            SoftwareSignalReceipt::Received(sender, event) => {
                if crate::text::same_text(sender.as_str(), self.owner.as_str()) {
                    Some(Ok(event))
                } else {
                    None
                }
            },
            SoftwareSignalReceipt::Ended => Some(Err(SoftwareClientError::stream_ended())),
            SoftwareSignalReceipt::Malformed(detail) => Some(
                Err(SoftwareClientError::Unavailable(detail)),
            ),
        }
    }

    /// After a wait for the next event: an error ends the stream for good
    /// (the first error is kept); the outcome is handed back.
    pub fn record_outcome(&mut self, outcome: Result<SoftwareEvent, SoftwareClientError>) -> (r:
        Result<SoftwareEvent, SoftwareClientError>)
        ensures
            r == outcome,
            final(self)@ == after_outcome(old(self)@, outcome),
    {
        if self.terminal_error.is_none() {
            if let Err(e) = &outcome {
                self.terminal_error = Some(e.duplicate());
            }
        }
        outcome
    }

    /// Starts (or resumes) waiting for a transaction at time `now`: an ended
    /// stream answers with its error; a transaction already being waited for
    /// keeps its deadline, however often the wait is resumed; any other
    /// transaction gets the deadline `now + timeout`, which replaces that of
    /// the previous one. Returns the deadline, or `TransactionTimedOut`,
    /// which ends the stream, when the deadline has already passed at `now`:
    /// the expiry wins over any signal already queued.
    pub fn begin_transaction(&mut self, transaction_id: u32, now: u64, timeout: u64) -> (r: Result<
        u64,
        SoftwareClientError,
    >)
        requires
            forms_new_deadline(old(self)@, transaction_id) ==> now + timeout <= u64::MAX,
        ensures
            final(self)@ == after_begin(old(self)@, transaction_id, now, timeout),
            match old(self)@.terminal_error {
                Some(e) => r == Err::<u64, SoftwareClientError>(e),
                None => if wait_deadline(old(self)@, transaction_id, now, timeout) <= now {
                    r == Err::<u64, SoftwareClientError>(SoftwareClientError::TransactionTimedOut)
                } else {
                    r == Ok::<u64, SoftwareClientError>(
                        wait_deadline(old(self)@, transaction_id, now, timeout),
                    )
                },
            },
    {
        if let Some(e) = &self.terminal_error {
            return Err(e.duplicate());
        }
        let deadline = match self.transaction_deadline {
            Some((id, deadline)) if id == transaction_id => deadline,
            _ => now + timeout,
        };
        self.transaction_deadline = Some((transaction_id, deadline));
        if deadline <= now {
            self.terminal_error = Some(SoftwareClientError::TransactionTimedOut);
            return Err(SoftwareClientError::TransactionTimedOut);
        }
        Ok(deadline)
    }

    /// After a transaction wait ended with `outcome` (an event, the stream's
    /// error, or `TransactionTimedOut` when the deadline passed first): the
    /// transaction's own completion releases its deadline for the next
    /// transaction; an error ends the stream for good. The outcome is handed
    /// back.
    pub fn finish_transaction(
        &mut self,
        transaction_id: u32,
        outcome: Result<SoftwareEvent, SoftwareClientError>,
    ) -> (r: Result<SoftwareEvent, SoftwareClientError>)
        ensures
            r == outcome,
            final(self)@ == after_transaction(old(self)@, transaction_id, outcome),
    {
        if let Ok(SoftwareEvent::Finished(f)) = &outcome {
            if f.transaction_id == transaction_id {
                self.transaction_deadline = None;
            }
        }
        self.record_outcome(outcome)
    }
}

/// Once a stream has ended with an error, every later wait returns that
/// error and nothing changes the error it keeps.
pub proof fn lemma_terminal_error_is_permanent(
    v: SoftwareStreamView,
    e: SoftwareClientError,
    transaction_id: u32,
    now: u64,
    timeout: u64,
    outcome: Result<SoftwareEvent, SoftwareClientError>,
)
    requires
        v.terminal_error == Some(e),
    ensures
        after_begin(v, transaction_id, now, timeout) == v,
        after_outcome(v, outcome).terminal_error == Some(e),
        after_transaction(v, transaction_id, outcome).terminal_error == Some(e),
{
}

/// The deadline of a transaction is absolute: resuming the wait for the same
/// transaction, at any later time, with any timeout, and after any progress
/// or unrelated event, keeps the deadline set by the first wait and forms
/// no new one.
pub proof fn lemma_deadline_is_absolute(
    v: SoftwareStreamView,
    transaction_id: u32,
    first_now: u64,
    timeout: u64,
    later_now: u64,
    later_timeout: u64,
    event: SoftwareEvent,
)
    requires
        v.terminal_error is None,
        !(event matches SoftwareEvent::Finished(f) && f.transaction_id == transaction_id),
    ensures
        ({
            let started = after_begin(v, transaction_id, first_now, timeout);
            let deadline = wait_deadline(v, transaction_id, first_now, timeout);
            let resumed = after_transaction(started, transaction_id, Ok(event));
            &&& resumed.transaction_deadline == Some((transaction_id, deadline))
            &&& !forms_new_deadline(resumed, transaction_id)
            &&& wait_deadline(resumed, transaction_id, later_now, later_timeout) == deadline
            &&& after_begin(resumed, transaction_id, later_now, later_timeout).transaction_deadline
                == Some((transaction_id, deadline))
            &&& (later_now < deadline ==> after_begin(
                resumed,
                transaction_id,
                later_now,
                later_timeout,
            ) == resumed)
        }),
{
}

/// A wait resumed at or after its transaction's deadline, with any timeout,
/// ends the stream with `TransactionTimedOut` and keeps the deadline: no
/// signal is read first.
pub proof fn lemma_resumed_after_deadline_times_out(
    v: SoftwareStreamView,
    transaction_id: u32,
    deadline: u64,
    now: u64,
    timeout: u64,
)
    requires
        v.terminal_error is None,
        v.transaction_deadline == Some((transaction_id, deadline)),
        deadline <= now,
    ensures
        after_begin(v, transaction_id, now, timeout) == (SoftwareStreamView {
            terminal_error: Some(SoftwareClientError::TransactionTimedOut),
            ..v
        }),
{
}

/// A transaction's own completion releases its deadline, so the next
/// transaction in a queue gets a fresh one; an expired wait ends the
/// stream with `TransactionTimedOut`.
pub proof fn lemma_completion_releases_and_expiry_ends(
    v: SoftwareStreamView,
    transaction_id: u32,
    finished: SoftwareTransactionFinished,
    next_id: u32,
    now: u64,
    timeout: u64,
)
    requires
        v.terminal_error is None,
        finished.transaction_id == transaction_id,
        now + timeout <= u64::MAX,
    ensures
        ({
            let done = after_transaction(v, transaction_id, Ok(SoftwareEvent::Finished(finished)));
            &&& done.transaction_deadline is None
            &&& done.terminal_error is None
            &&& wait_deadline(done, next_id, now, timeout) == now + timeout
        }),
        after_transaction(v, transaction_id, Err(SoftwareClientError::TransactionTimedOut)).terminal_error
            == Some(SoftwareClientError::TransactionTimedOut),
{
}

/// A plain wait for the next event, without a transaction, neither starts
/// nor releases a transaction deadline.
pub proof fn lemma_plain_wait_keeps_deadline(
    v: SoftwareStreamView,
    outcome: Result<SoftwareEvent, SoftwareClientError>,
)
    ensures
        after_outcome(v, outcome).transaction_deadline == v.transaction_deadline,
        after_outcome(v, outcome).owner == v.owner,
{
}

/// A stream ends on its own owner's loss of the name, and only then among
/// owner changes: changes of other owners are waited through.
pub proof fn lemma_only_own_owner_loss_ends_stream(owner: Seq<char>, old_owner: Option<String>)
    ensures
        receipt_outcome(owner, SoftwareSignalReceipt::OwnerChanged(old_owner)) == if old_owner matches Some(o)
            && o@ == owner {
            Some(Err::<SoftwareEvent, SoftwareClientError>(SoftwareClientError::ServiceOwnerChanged))
        } else {
            None
        },
{
}

/// Only the bound owner's signals reach the stream: a signal sent by any
/// other connection, such as a replacement daemon that took over the public
/// name, is waited through, and one of the owner is handed on as it came.
pub proof fn lemma_only_owner_signals_reach_stream(
    owner: Seq<char>,
    sender: String,
    event: SoftwareEvent,
)
    ensures
        receipt_outcome(owner, SoftwareSignalReceipt::Received(sender, event)) == if sender@
            == owner {
            Some(Ok::<SoftwareEvent, SoftwareClientError>(event))
        } else {
            None
        },
{
}

/// The steps of subscribing to a software event stream, in the order in
/// which they run: the watch on the public name's owner changes is
/// installed before the owner is resolved, and the owner is checked again
/// once every signal subscription is in place, so that a replacement during
/// setup is seen.
#[derive(Debug, Clone, PartialEq, Eq)]
pub enum SubscriptionStep {
    /// Subscribe to the owner changes of the public name.
    WatchOwnerChanges,
    /// Resolve (or activate) the owner and bind a proxy to its unique name.
    BindOwner,
    /// Subscribe to the owner's signals.
    SubscribeSignals,
    /// Check that the public name is still owned by the bound owner.
    RecheckOwner,
    /// The stream is set up.
    Ready,
    /// A step failed with this error; nothing more is done.
    Failed(SoftwareClientError),
}

/// The step that follows `step` once it ended with `outcome`; a finished
/// subscription stays as it is.
pub open spec fn after_step(step: SubscriptionStep, outcome: Result<(), SoftwareClientError>) -> SubscriptionStep {
    match step {
        SubscriptionStep::Ready => SubscriptionStep::Ready,
        SubscriptionStep::Failed(e) => SubscriptionStep::Failed(e),
        _ => match outcome {
            Err(e) => SubscriptionStep::Failed(e),
            Ok(()) => match step {
                SubscriptionStep::WatchOwnerChanges => SubscriptionStep::BindOwner,
                SubscriptionStep::BindOwner => SubscriptionStep::SubscribeSignals,
                SubscriptionStep::SubscribeSignals => SubscriptionStep::RecheckOwner,
                _ => SubscriptionStep::Ready,
            },
        },
    }
}

/// Where a subscription stands after its steps ended, one after the other,
/// with `outcomes`, starting from `step`.
pub open spec fn run_steps(step: SubscriptionStep, outcomes: Seq<Result<(), SoftwareClientError>>) -> SubscriptionStep
    decreases outcomes.len(),
{
    if outcomes.len() == 0 {
        step
    } else {
        run_steps(after_step(step, outcomes[0]), outcomes.drop_first())
    }
}

impl SubscriptionStep {
    /// The first step of a subscription.
    pub fn start() -> (r: Self)
        ensures
            r == SubscriptionStep::WatchOwnerChanges,
    {
        SubscriptionStep::WatchOwnerChanges
    }

    /// Whether the subscription has finished, set up or failed.
    pub fn is_done(&self) -> (r: bool)
        ensures
            r <==> (*self is Ready || *self is Failed),
    {
        match self {
            SubscriptionStep::Ready | SubscriptionStep::Failed(_) => true,
            _ => false,
        }
    }

    /// The step that follows this one, which ended with `outcome`.
    pub fn advance(self, outcome: Result<(), SoftwareClientError>) -> (r: Self)
        requires
            !(self is Ready || self is Failed),
        ensures
            r == after_step(self, outcome),
    {
        match outcome {
            Err(e) => SubscriptionStep::Failed(e),
            Ok(()) => match self {
                SubscriptionStep::WatchOwnerChanges => SubscriptionStep::BindOwner,
                SubscriptionStep::BindOwner => SubscriptionStep::SubscribeSignals,
                SubscriptionStep::SubscribeSignals => SubscriptionStep::RecheckOwner,
                _ => SubscriptionStep::Ready,
            },
        }
    }
}

/// A finished subscription stays as it is, whatever comes after.
pub proof fn lemma_finished_subscription_stays(
    step: SubscriptionStep,
    outcomes: Seq<Result<(), SoftwareClientError>>,
)
    requires
        step is Ready || step is Failed,
    ensures
        run_steps(step, outcomes) == step,
    decreases outcomes.len(),
{
    if outcomes.len() > 0 {
        lemma_finished_subscription_stays(after_step(step, outcomes[0]), outcomes.drop_first());
    }
}

/// A subscription is set up exactly when its four steps (watching owner
/// changes, binding the owner, subscribing to signals, rechecking the
/// owner) each succeeded, in that order; otherwise it ends with the error of
/// the first step that failed, or is still under way.
pub proof fn lemma_ready_only_after_every_step(outcomes: Seq<Result<(), SoftwareClientError>>)
    ensures
        (run_steps(SubscriptionStep::WatchOwnerChanges, outcomes) is Ready) <==> (outcomes.len()
            >= 4 && outcomes[0] is Ok && outcomes[1] is Ok && outcomes[2] is Ok && outcomes[3] is Ok),
        forall|i: int|
            0 <= i < 4 && i < outcomes.len() && outcomes[i] is Err && (forall|j: int|
                0 <= j < i ==> outcomes[j] is Ok) ==> run_steps(
                SubscriptionStep::WatchOwnerChanges,
                outcomes,
            ) == SubscriptionStep::Failed(outcomes[i]->Err_0),
{
    let s0 = SubscriptionStep::WatchOwnerChanges;
    if outcomes.len() == 0 {
        return;
    }
    let o1 = outcomes.drop_first();
    let s1 = after_step(s0, outcomes[0]);
    if s1 is Failed {
        lemma_finished_subscription_stays(s1, o1);
        return;
    }
    if o1.len() == 0 {
        return;
    }
    let o2 = o1.drop_first();
    let s2 = after_step(s1, o1[0]);
    if s2 is Failed {
        lemma_finished_subscription_stays(s2, o2);
        return;
    }
    if o2.len() == 0 {
        return;
    }
    let o3 = o2.drop_first();
    let s3 = after_step(s2, o2[0]);
    if s3 is Failed {
        lemma_finished_subscription_stays(s3, o3);
        return;
    }
    if o3.len() == 0 {
        return;
    }
    let o4 = o3.drop_first();
    let s4 = after_step(s3, o3[0]);
    lemma_finished_subscription_stays(s4, o4);
}

/// A package record converted from a wire row `(origin, id, name,
/// description, installed, icon, repository)` holds each field from its
/// position in the row.
pub proof fn lemma_package_ref_from_row(row: PackageRefRow, r: PackageRef)
    requires
        call_ensures(<PackageRef as From<PackageRefRow>>::from, (row,), r),
    ensures
        r.origin == row.0,
        r.id == row.1,
        r.name == row.2,
        r.description == row.3,
        r.installed == row.4,
        r.icon == row.5,
        r.repository == row.6,
{
}

/// A `RepositoryRef` converted from its wire row holds each field from its
/// position in the row: `name` from field 1, `enabled` from field 2.
pub proof fn lemma_repository_ref_from_row(row: RepositoryRefRow, r: RepositoryRef)
    requires
        call_ensures(<RepositoryRef as From<RepositoryRefRow>>::from, (row,), r),
    ensures
        r.name == row.0,
        r.enabled == row.1,
{
}

/// A `PackageDetails` converted from its wire row holds each field from its
/// position in the row: `origin` from field 1, `id` from field 2, `name` from
/// field 3, `description` from field 4, `installed` from field 5,
/// `installed_version` from field 6, `available_version` from field 7,
/// `download_size` from field 8, `installed_size` from field 9, `dependencies`
/// from field 10, `licenses` from field 11, `url` from field 12, `maintainer`
/// from field 13.
pub proof fn lemma_package_details_from_row(row: PackageDetailsRow, r: PackageDetails)
    requires
        call_ensures(<PackageDetails as From<PackageDetailsRow>>::from, (row,), r),
    ensures
        r.origin == row.0,
        r.id == row.1,
        r.name == row.2,
        r.description == row.3,
        r.installed == row.4,
        r.installed_version == row.5,
        r.available_version == row.6,
        r.download_size == row.7,
        r.installed_size == row.8,
        r.dependencies == row.9,
        r.licenses == row.10,
        r.url == row.11,
        r.maintainer == row.12,
{
}

/// A `NvidiaStatus` converted from its wire row holds each field from its
/// position in the row: `supported` from field 1, `installed` from field 2,
/// `reboot_required` from field 3, `gpu` from field 4, `secure_boot` from field
/// 5, `state` from field 6, `detail` from field 7, `recovery_snapshot` from
/// field 8.
pub proof fn lemma_nvidia_status_from_row(row: NvidiaStatusRow, r: NvidiaStatus)
    requires
        call_ensures(<NvidiaStatus as From<NvidiaStatusRow>>::from, (row,), r),
    ensures
        r.supported == row.0,
        r.installed == row.1,
        r.reboot_required == row.2,
        r.gpu == row.3,
        r.secure_boot == row.4,
        r.state == row.5,
        r.detail == row.6,
        r.recovery_snapshot == row.7,
{
}

/// A `NvidiaRecovery` converted from its wire row holds each field from its
/// position in the row: `available` from field 1, `kind` from field 2,
/// `reference` from field 3, `state` from field 4, `detail` from field 5.
pub proof fn lemma_nvidia_recovery_from_row(row: NvidiaRecoveryRow, r: NvidiaRecovery)
    requires
        call_ensures(<NvidiaRecovery as From<NvidiaRecoveryRow>>::from, (row,), r),
    ensures
        r.available == row.0,
        r.kind == row.1,
        r.reference == row.2,
        r.state == row.3,
        r.detail == row.4,
{
}

/// A `NonFreeFirmwareStatus` converted from its wire row holds each field from
/// its position in the row: `detected` from field 1, `installed` from field 2,
/// `detail` from field 3, `packages` from field 4.
pub proof fn lemma_non_free_firmware_status_from_row(row: NonFreeFirmwareStatusRow, r: NonFreeFirmwareStatus)
    requires
        call_ensures(<NonFreeFirmwareStatus as From<NonFreeFirmwareStatusRow>>::from, (row,), r),
    ensures
        r.detected == row.0,
        r.installed == row.1,
        r.detail == row.2,
        r.packages == row.3,
{
}

/// A `UpdateStatus` converted from its wire row holds each field from its
/// position in the row: `checked_at` from field 1, `profile` from field 2,
/// `native_count` from field 3, `flatpak_count` from field 4, `total_count`
/// from field 5, `security_count` from field 6, `in_progress` from field 7,
/// `error` from field 8.
pub proof fn lemma_update_status_from_row(row: UpdateStatusRow, r: UpdateStatus)
    requires
        call_ensures(<UpdateStatus as From<UpdateStatusRow>>::from, (row,), r),
    ensures
        r.checked_at == row.0,
        r.profile == row.1,
        r.native_count == row.2,
        r.flatpak_count == row.3,
        r.total_count == row.4,
        r.security_count == row.5,
        r.in_progress == row.6,
        r.error == row.7,
{
}

} // verus!
