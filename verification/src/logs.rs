//! Journal units and queries.
use vstd::prelude::*;

verus! {

/// Failure of the logs interface; holds the underlying error's text.
#[derive(Debug, Clone, PartialEq, Eq)]
pub struct LogsClientError(String);

impl View for LogsClientError {
    type V = Seq<char>;

    /// The underlying error's text.
    closed spec fn view(&self) -> Seq<char> {
        self.0@
    }
}

impl LogsClientError {
    /// Wraps the text of an underlying bus error.
    pub fn from_error(detail: String) -> (r: Self)
        ensures
            r@ == detail@,
    {
        LogsClientError(detail)
    }

    /// Catalog entry (msgid) of the user-facing message.
    pub fn message_id(&self) -> (r: &'static str)
        ensures
            r@ == "interface de logs indisponível: {detail}"@,
    {
        "interface de logs indisponível: {detail}"
    }

    /// The user-facing message from `template`, the catalog's rendering of
    /// `message_id()`: the error text filled into its `{detail}` placeholders.
    pub fn render_message(&self, template: &str) -> (r: String)
        ensures
            r@ == crate::text::fill_detail(template@, self@),
    {
        crate::text::fill_detail_text(template, self.0.as_str())
    }
}

/// Operations of the logs interface.
pub trait LogsClient: Send + Sync {
    fn list_units(&self) -> Result<Vec<String>, LogsClientError>;

    fn query(&self, unit: &str, priority: &str, since: &str, search: &str, max_lines: u32) -> Result<
        Vec<String>,
        LogsClientError,
    >;
}

} // verus!
