//! First-boot repository preparation: its persistent state, pending signing
//! keys and retries.
use vstd::prelude::*;

verus! {

/// Persistent first-boot repository preparation state. `state` and
/// `error_kind` are stable identifiers; clients localize them instead of
/// parsing `last_error`.
#[derive(Debug, Clone, PartialEq, Eq)]
pub struct PreparationStatus {
    pub state: String,
    pub phase: String,
    pub error_kind: String,
    pub last_error: String,
    pub updated_at: String,
    pub next_retry_at: String,
    pub can_retry: bool,
}

/// Wire form of the preparation state, `(ssssssb)`.
pub type PreparationStatusRow = (String, String, String, String, String, String, bool);

impl From<PreparationStatusRow> for PreparationStatus {
    fn from(row: PreparationStatusRow) -> (r: Self)
        ensures
            r.state == row.0,
            r.phase == row.1,
            r.error_kind == row.2,
            r.last_error == row.3,
            r.updated_at == row.4,
            r.next_retry_at == row.5,
            r.can_retry == row.6,
    {
        PreparationStatus {
            state: row.0,
            phase: row.1,
            error_kind: row.2,
            last_error: row.3,
            updated_at: row.4,
            next_retry_at: row.5,
            can_retry: row.6,
        }
    }
}

impl vstd::std_specs::convert::FromSpecImpl<PreparationStatusRow> for PreparationStatus {
    open spec fn obeys_from_spec() -> bool {
        true
    }

    open spec fn from_spec(row: PreparationStatusRow) -> Self {
        PreparationStatus {
            state: row.0,
            phase: row.1,
            error_kind: row.2,
            last_error: row.3,
            updated_at: row.4,
            next_retry_at: row.5,
            can_retry: row.6,
        }
    }
}

/// A persistent review proposal; the opaque token binds source identity and key.
#[derive(Debug, Clone, PartialEq, Eq)]
pub struct PreparationKey {
    pub repo: String,
    pub fingerprint: String,
    pub user_id: String,
    pub token: String,
}

/// Wire form of a pending key, `(ssss)`.
pub type PreparationKeyRow = (String, String, String, String);

impl From<PreparationKeyRow> for PreparationKey {
    fn from(row: PreparationKeyRow) -> (r: Self)
        ensures
            r.repo == row.0,
            r.fingerprint == row.1,
            r.user_id == row.2,
            r.token == row.3,
    {
        PreparationKey {
            repo: row.0,
            fingerprint: row.1,
            user_id: row.2,
            token: row.3,
        }
    }
}

impl vstd::std_specs::convert::FromSpecImpl<PreparationKeyRow> for PreparationKey {
    open spec fn obeys_from_spec() -> bool {
        true
    }

    open spec fn from_spec(row: PreparationKeyRow) -> Self {
        PreparationKey {
            repo: row.0,
            fingerprint: row.1,
            user_id: row.2,
            token: row.3,
        }
    }
}

/// Failure of the preparation interface.
#[derive(Debug, Clone, PartialEq, Eq)]
pub enum PreparationClientError {
    /// The daemon predates the preparation interface.
    Unavailable,
    /// Any other failure, with its text.
    Failed(String),
}

/// Catalog entry of the message for a daemon that predates the interface.
pub const UNAVAILABLE_MESSAGE: &'static str =
    "Estado da preparação indisponível nesta versão do serviço.";

/// D-Bus error name of a call to an interface the peer does not have.
pub const UNKNOWN_INTERFACE_ERROR: &'static str = "org.freedesktop.DBus.Error.UnknownInterface";

/// D-Bus error name of a call to a method the peer does not have.
pub const UNKNOWN_METHOD_ERROR: &'static str = "org.freedesktop.DBus.Error.UnknownMethod";

/// Whether a D-Bus error name says that the peer lacks the interface or the
/// method called: what an older daemon answers.
pub open spec fn is_unsupported_error_name(name: Seq<char>) -> bool {
    name == UNKNOWN_INTERFACE_ERROR@ || name == UNKNOWN_METHOD_ERROR@
}

/// The preparation error for a bus error that carries the D-Bus error name
/// `name` (if any) and whose text is `text`.
pub open spec fn classified_error(name: Option<Seq<char>>, text: String) -> PreparationClientError {
    if name matches Some(n) && is_unsupported_error_name(n) {
        PreparationClientError::Unavailable
    } else {
        PreparationClientError::Failed(text)
    }
}

#[verifier::external_type_specification]
#[verifier::external_body]
pub struct ExZbusError(zbus::Error);

/// The D-Bus error name that a `zbus::Error` carries, if any: a function of
/// the error value alone.
pub uninterp spec fn zbus_error_name_of(error: zbus::Error) -> Option<Seq<char>>;

/// The D-Bus error name that a `zbus::Error` carries: that of a method error
/// reply (`zbus::Error::MethodError`), or that of a standard error
/// (`zbus::Error::FDO`, read with `zbus::DBusError::name`); `None` for every
/// other variant. The result is stated as `zbus_error_name_of` of the error,
/// since the error's variants and fields are not modelled.
#[verifier::external_body]
fn bus_error_name(error: &zbus::Error) -> (r: Option<String>)
    ensures
        zbus_error_name_of(*error) == match r {
            Some(n) => Some(n@),
            None => None,
        },
{
    match error {
        zbus::Error::MethodError(name, _, _) => Some(name.as_str().to_owned()),
        zbus::Error::FDO(fdo) => Some(zbus::DBusError::name(fdo.as_ref()).as_str().to_owned()),
        _ => None,
    }
}

/// The text of a `zbus::Error` (its `Display` form, through `ToString`).
/// Nothing is stated of it: for an I/O error it holds the operating
/// system's message, which follows the process's locale.
#[verifier::external_body]
fn bus_error_text(error: &zbus::Error) -> (r: String) {
    error.to_string()
}

impl PreparationClientError {
    /// Classifies a bus error: a missing interface or method means an older
    /// daemon (`Unavailable`); anything else, authorization failures among
    /// them, is `Failed` with the error's text.
    pub fn from_parts(name: Option<&str>, text: String) -> (r: Self)
        ensures
            r == classified_error(
                match name {
                    Some(n) => Some(n@),
                    None => None,
                },
                text,
            ),
    {
        match name {
            Some(n) => {
                if crate::text::same_text(n, UNKNOWN_INTERFACE_ERROR) || crate::text::same_text(
                    n,
                    UNKNOWN_METHOD_ERROR,
                ) {
                    PreparationClientError::Unavailable
                } else {
                    PreparationClientError::Failed(text)
                }
            },
            None => PreparationClientError::Failed(text),
        }
    }

    /// Classifies a `zbus::Error` by the D-Bus error name it carries, as
    /// `from_parts` does; a `Failed` holds the error's text.
    pub fn from_error(error: zbus::Error) -> (r: Self)
        ensures
            (r == PreparationClientError::Unavailable) <==> (zbus_error_name_of(error) matches Some(
                n,
            ) && is_unsupported_error_name(n)),
    {
        let name = bus_error_name(&error);
        let text = bus_error_text(&error);
        match &name {
            Some(n) => PreparationClientError::from_parts(Some(n.as_str()), text),
            None => PreparationClientError::from_parts(None, text),
        }
    }

    /// Catalog entry (msgid) of the user-facing message of an older daemon;
    /// `None` for `Failed`, whose message is its own text.
    pub fn message_id(&self) -> (r: Option<&'static str>)
        ensures
            self is Unavailable ==> (r matches Some(id) && id@ == UNAVAILABLE_MESSAGE@),
            self is Failed ==> r is None,
    {
        match self {
            PreparationClientError::Unavailable => Some(UNAVAILABLE_MESSAGE),
            PreparationClientError::Failed(_) => None,
        }
    }

    /// The user-facing message: `template` (the catalog's rendering of
    /// `message_id()`) for `Unavailable`, the error's own text for `Failed`.
    pub fn render_message(&self, template: &str) -> (r: String)
        ensures
            match self {
                PreparationClientError::Unavailable => r@ == template@,
                PreparationClientError::Failed(text) => r == text,
            },
    {
        match self {
            PreparationClientError::Unavailable => template.to_owned(),
            PreparationClientError::Failed(text) => text.clone(),
        }
    }
}

impl PreparationStatus {
    /// The state reported for a status reply: an older daemon (`Unavailable`)
    /// gives `None`; every other failure is passed on.
    pub fn from_reply(reply: Result<PreparationStatusRow, PreparationClientError>) -> (r: Result<
        Option<PreparationStatus>,
        PreparationClientError,
    >)
        ensures
            match reply {
                Ok(row) => r == Ok::<Option<PreparationStatus>, PreparationClientError>(
                    Some(<PreparationStatus as vstd::std_specs::convert::FromSpec<PreparationStatusRow>>::from_spec(row)),
                ),
                Err(PreparationClientError::Unavailable) => r == Ok::<
                    Option<PreparationStatus>,
                    PreparationClientError,
                >(None),
                Err(error) => r == Err::<Option<PreparationStatus>, PreparationClientError>(error),
            },
    {
        match reply {
            Ok(row) => Ok(Some(PreparationStatus::from(row))),
            Err(PreparationClientError::Unavailable) => Ok(None),
            Err(error) => Err(error),
        }
    }
}

impl PreparationKey {
    /// The keys reported for a pending-keys reply, in order: an older daemon
    /// (`Unavailable`) has none; every other failure is passed on.
    pub fn list_from_reply(reply: Result<Vec<PreparationKeyRow>, PreparationClientError>) -> (r: Result<
        Vec<PreparationKey>,
        PreparationClientError,
    >)
        ensures
            match reply {
                Ok(rows) => r matches Ok(keys) && keys@ == crate::rows::converted::<
                    PreparationKeyRow,
                    PreparationKey,
                >(rows@),
                Err(PreparationClientError::Unavailable) => r matches Ok(keys) && keys@.len() == 0,
                Err(error) => r == Err::<Vec<PreparationKey>, PreparationClientError>(error),
            },
    {
        match reply {
            Ok(rows) => Ok(crate::rows::convert_rows(rows)),
            Err(PreparationClientError::Unavailable) => Ok(Vec::new()),
            Err(error) => Err(error),
        }
    }
}

/// Operations of the preparation interface.
pub trait PreparationClient: Send + Sync {
    /// Returns `None` for older daemons which do not implement this interface.
    fn status(&self) -> Result<Option<PreparationStatus>, PreparationClientError>;

    /// Keys awaiting review; none where the client does not support review.
    fn pending_keys(&self) -> (r: Result<Vec<PreparationKey>, PreparationClientError>)
        default_ensures
            r matches Ok(keys) && keys@.len() == 0,
    {
        Ok(Vec::new())
    }

    /// Approves a pending key; `Unavailable` where the client does not
    /// support review.
    fn approve_key(&self, key: &PreparationKey) -> (r: Result<u32, PreparationClientError>)
        default_ensures
            r == Err::<u32, PreparationClientError>(PreparationClientError::Unavailable),
    {
        Err(PreparationClientError::Unavailable)
    }

    /// Requests an authorized retry; completion is observed through `status`.
    fn retry(&self) -> Result<(), PreparationClientError>;
}

/// A `PreparationStatus` converted from its wire row holds each field from its
/// position in the row: `state` from field 1, `phase` from field 2,
/// `error_kind` from field 3, `last_error` from field 4, `updated_at` from
/// field 5, `next_retry_at` from field 6, `can_retry` from field 7.
pub proof fn lemma_preparation_status_from_row(row: PreparationStatusRow, r: PreparationStatus)
    requires
        call_ensures(<PreparationStatus as From<PreparationStatusRow>>::from, (row,), r),
    ensures
        r.state == row.0,
        r.phase == row.1,
        r.error_kind == row.2,
        r.last_error == row.3,
        r.updated_at == row.4,
        r.next_retry_at == row.5,
        r.can_retry == row.6,
{
}

/// A `PreparationKey` converted from its wire row holds each field from its
/// position in the row: `repo` from field 1, `fingerprint` from field 2,
/// `user_id` from field 3, `token` from field 4.
pub proof fn lemma_preparation_key_from_row(row: PreparationKeyRow, r: PreparationKey)
    requires
        call_ensures(<PreparationKey as From<PreparationKeyRow>>::from, (row,), r),
    ensures
        r.repo == row.0,
        r.fingerprint == row.1,
        r.user_id == row.2,
        r.token == row.3,
{
}

} // verus!
