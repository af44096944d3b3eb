//! Firewall state and per-service rules.
use vstd::prelude::*;

verus! {

/// Whether the firewall is on, and its active zone.
#[derive(Debug, Clone, PartialEq, Eq)]
pub struct FirewallStatus {
    pub enabled: bool,
    pub active_zone: String,
}

/// Wire form of the firewall status, `(bs)`.
pub type FirewallStatusRow = (bool, String);

impl From<FirewallStatusRow> for FirewallStatus {
    fn from(row: FirewallStatusRow) -> (r: Self)
        ensures
            r.enabled == row.0,
            r.active_zone == row.1,
    {
        FirewallStatus {
            enabled: row.0,
            active_zone: row.1,
        }
    }
}

impl vstd::std_specs::convert::FromSpecImpl<FirewallStatusRow> for FirewallStatus {
    open spec fn obeys_from_spec() -> bool {
        true
    }

    open spec fn from_spec(row: FirewallStatusRow) -> Self {
        FirewallStatus {
            enabled: row.0,
            active_zone: row.1,
        }
    }
}
/// A service the firewall can open.
#[derive(Debug, Clone, PartialEq, Eq)]
pub struct FirewallService {
    pub name: String,
    pub label: String,
    pub enabled: bool,
}

/// Wire form of a firewall service, `(ssb)`.
pub type FirewallServiceRow = (String, String, bool);

impl From<FirewallServiceRow> for FirewallService {
    fn from(row: FirewallServiceRow) -> (r: Self)
        ensures
            r.name == row.0,
            r.label == row.1,
            r.enabled == row.2,
    {
        FirewallService {
            name: row.0,
            label: row.1,
            enabled: row.2,
        }
    }
}

impl vstd::std_specs::convert::FromSpecImpl<FirewallServiceRow> for FirewallService {
    open spec fn obeys_from_spec() -> bool {
        true
    }

    open spec fn from_spec(row: FirewallServiceRow) -> Self {
        FirewallService {
            name: row.0,
            label: row.1,
            enabled: row.2,
        }
    }
}
/// Failure of the firewall interface; holds the underlying error's text.
#[derive(Debug, Clone, PartialEq, Eq)]
pub struct FirewallClientError(String);

impl View for FirewallClientError {
    type V = Seq<char>;

    /// The underlying error's text.
    closed spec fn view(&self) -> Seq<char> {
        self.0@
    }
}

impl FirewallClientError {
    /// Wraps the text of an underlying bus error.
    pub fn from_error(detail: String) -> (r: Self)
        ensures
            r@ == detail@,
    {
        FirewallClientError(detail)
    }

    /// Catalog entry (msgid) of the user-facing message.
    pub fn message_id(&self) -> (r: &'static str)
        ensures
            r@ == "interface de firewall indisponível: {detail}"@,
    {
        "interface de firewall indisponível: {detail}"
    }

    /// The user-facing message from `template`, the catalog's rendering of
    /// `message_id()`: the error text filled into its `{detail}` placeholders.
    pub fn render_message(&self, template: &str) -> (r: String)
        ensures
            r@ == crate::text::fill_detail(template@, self@),
    {
        crate::text::fill_detail_text(template, self.0.as_str())
    }
}

/// Operations of the firewall interface.
pub trait FirewallClient: Send + Sync {
    fn status(&self) -> Result<FirewallStatus, FirewallClientError>;

    fn services(&self) -> Result<Vec<FirewallService>, FirewallClientError>;

    fn set_service(&self, name: &str, enabled: bool) -> Result<(), FirewallClientError>;
}

/// A `FirewallStatus` converted from its wire row holds each field from its
/// position in the row: `enabled` from field 1, `active_zone` from field 2.
pub proof fn lemma_firewall_status_from_row(row: FirewallStatusRow, r: FirewallStatus)
    requires
        call_ensures(<FirewallStatus as From<FirewallStatusRow>>::from, (row,), r),
    ensures
        r.enabled == row.0,
        r.active_zone == row.1,
{
}

/// A `FirewallService` converted from its wire row holds each field from its
/// position in the row: `name` from field 1, `label` from field 2, `enabled`
/// from field 3.
pub proof fn lemma_firewall_service_from_row(row: FirewallServiceRow, r: FirewallService)
    requires
        call_ensures(<FirewallService as From<FirewallServiceRow>>::from, (row,), r),
    ensures
        r.name == row.0,
        r.label == row.1,
        r.enabled == row.2,
{
}

} // verus!
