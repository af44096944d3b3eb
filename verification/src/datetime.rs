//! Time zone, clock synchronization, locale and keyboard layout.
use vstd::prelude::*;

verus! {

/// Current time zone, NTP synchronization, locale and keymap.
#[derive(Debug, Clone, PartialEq, Eq)]
pub struct DateTimeStatus {
    pub timezone: String,
    pub ntp: bool,
    pub locale: String,
    pub keymap: String,
}

/// Wire form of the date and time status, `(sbss)`.
pub type DateTimeStatusRow = (String, bool, String, String);

impl From<DateTimeStatusRow> for DateTimeStatus {
    fn from(row: DateTimeStatusRow) -> (r: Self)
        ensures
            r.timezone == row.0,
            r.ntp == row.1,
            r.locale == row.2,
            r.keymap == row.3,
    {
        DateTimeStatus {
            timezone: row.0,
            ntp: row.1,
            locale: row.2,
            keymap: row.3,
        }
    }
}

impl vstd::std_specs::convert::FromSpecImpl<DateTimeStatusRow> for DateTimeStatus {
    open spec fn obeys_from_spec() -> bool {
        true
    }

    open spec fn from_spec(row: DateTimeStatusRow) -> Self {
        DateTimeStatus {
            timezone: row.0,
            ntp: row.1,
            locale: row.2,
            keymap: row.3,
        }
    }
}
/// Failure of the date and time interface; holds the underlying error's text.
#[derive(Debug, Clone, PartialEq, Eq)]
pub struct DateTimeClientError(String);

impl View for DateTimeClientError {
    type V = Seq<char>;

    /// The underlying error's text.
    closed spec fn view(&self) -> Seq<char> {
        self.0@
    }
}

impl DateTimeClientError {
    /// Wraps the text of an underlying bus error.
    pub fn from_error(detail: String) -> (r: Self)
        ensures
            r@ == detail@,
    {
        DateTimeClientError(detail)
    }

    /// Catalog entry (msgid) of the user-facing message.
    pub fn message_id(&self) -> (r: &'static str)
        ensures
            r@ == "interface de data e hora indisponível: {detail}"@,
    {
        "interface de data e hora indisponível: {detail}"
    }

    /// The user-facing message from `template`, the catalog's rendering of
    /// `message_id()`: the error text filled into its `{detail}` placeholders.
    pub fn render_message(&self, template: &str) -> (r: String)
        ensures
            r@ == crate::text::fill_detail(template@, self@),
    {
        crate::text::fill_detail_text(template, self.0.as_str())
    }
}

/// Operations of the date and time interface.
pub trait DateTimeClient: Send + Sync {
    fn status(&self) -> Result<DateTimeStatus, DateTimeClientError>;

    fn list_timezones(&self) -> Result<Vec<String>, DateTimeClientError>;

    fn list_locales(&self) -> Result<Vec<String>, DateTimeClientError>;

    fn list_keymaps(&self) -> Result<Vec<String>, DateTimeClientError>;

    fn apply(&self, timezone: &str, ntp: bool, locale: &str, keymap: &str) -> Result<
        (),
        DateTimeClientError,
    >;
}

/// A `DateTimeStatus` converted from its wire row holds each field from its
/// position in the row: `timezone` from field 1, `ntp` from field 2, `locale`
/// from field 3, `keymap` from field 4.
pub proof fn lemma_date_time_status_from_row(row: DateTimeStatusRow, r: DateTimeStatus)
    requires
        call_ensures(<DateTimeStatus as From<DateTimeStatusRow>>::from, (row,), r),
    ensures
        r.timezone == row.0,
        r.ntp == row.1,
        r.locale == row.2,
        r.keymap == row.3,
{
}

} // verus!
