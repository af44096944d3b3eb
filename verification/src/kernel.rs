//! Installed kernels and boot loader configuration.
use vstd::prelude::*;

verus! {

/// Boot loader, default entry, menu timeout and kernel command line.
#[derive(Debug, Clone, PartialEq, Eq)]
pub struct BootStatus {
    pub loader: String,
    pub default_entry: String,
    pub timeout: u32,
    pub cmdline: String,
}

/// Wire form of the boot status, `(ssus)`.
pub type BootStatusRow = (String, String, u32, String);

impl From<BootStatusRow> for BootStatus {
    fn from(row: BootStatusRow) -> (r: Self)
        ensures
            r.loader == row.0,
            r.default_entry == row.1,
            r.timeout == row.2,
            r.cmdline == row.3,
    {
        BootStatus {
            loader: row.0,
            default_entry: row.1,
            timeout: row.2,
            cmdline: row.3,
        }
    }
}

impl vstd::std_specs::convert::FromSpecImpl<BootStatusRow> for BootStatus {
    open spec fn obeys_from_spec() -> bool {
        true
    }

    open spec fn from_spec(row: BootStatusRow) -> Self {
        BootStatus {
            loader: row.0,
            default_entry: row.1,
            timeout: row.2,
            cmdline: row.3,
        }
    }
}
/// Failure of the kernel interface; holds the underlying error's text.
#[derive(Debug, Clone, PartialEq, Eq)]
pub struct KernelClientError(String);

impl View for KernelClientError {
    type V = Seq<char>;

    /// The underlying error's text.
    closed spec fn view(&self) -> Seq<char> {
        self.0@
    }
}

impl KernelClientError {
    /// Wraps the text of an underlying bus error.
    pub fn from_error(detail: String) -> (r: Self)
        ensures
            r@ == detail@,
    {
        KernelClientError(detail)
    }

    /// Catalog entry (msgid) of the user-facing message.
    pub fn message_id(&self) -> (r: &'static str)
        ensures
            r@ == "interface de kernel indisponível: {detail}"@,
    {
        "interface de kernel indisponível: {detail}"
    }

    /// The user-facing message from `template`, the catalog's rendering of
    /// `message_id()`: the error text filled into its `{detail}` placeholders.
    pub fn render_message(&self, template: &str) -> (r: String)
        ensures
            r@ == crate::text::fill_detail(template@, self@),
    {
        crate::text::fill_detail_text(template, self.0.as_str())
    }
}

/// Operations of the kernel interface.
pub trait KernelClient: Send + Sync {
    fn list_installed(&self) -> Result<Vec<String>, KernelClientError>;

    fn available_packages(&self) -> Result<Vec<String>, KernelClientError>;

    fn boot_status(&self) -> Result<BootStatus, KernelClientError>;

    fn list_boot_entries(&self) -> Result<Vec<String>, KernelClientError>;

    fn install(&self, kernel: &str) -> Result<u32, KernelClientError>;

    fn remove(&self, kernel: &str) -> Result<(), KernelClientError>;

    fn apply_boot_config(&self, default_entry: &str, timeout: u32, cmdline: &str) -> Result<
        (),
        KernelClientError,
    >;
}

/// A `BootStatus` converted from its wire row holds each field from its
/// position in the row: `loader` from field 1, `default_entry` from field 2,
/// `timeout` from field 3, `cmdline` from field 4.
pub proof fn lemma_boot_status_from_row(row: BootStatusRow, r: BootStatus)
    requires
        call_ensures(<BootStatus as From<BootStatusRow>>::from, (row,), r),
    ensures
        r.loader == row.0,
        r.default_entry == row.1,
        r.timeout == row.2,
        r.cmdline == row.3,
{
}

} // verus!
