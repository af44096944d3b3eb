//! Failures of the system monitor interface (its metrics carry floating-point
//! values and live with the bus client).
use vstd::prelude::*;

verus! {

/// Failure of the monitor interface; holds the underlying error's text.
#[derive(Debug, Clone, PartialEq, Eq)]
pub struct MonitorClientError(String);

impl View for MonitorClientError {
    type V = Seq<char>;

    /// The underlying error's text.
    closed spec fn view(&self) -> Seq<char> {
        self.0@
    }
}

impl MonitorClientError {
    /// Wraps the text of an underlying bus error.
    pub fn from_error(detail: String) -> (r: Self)
        ensures
            r@ == detail@,
    {
        MonitorClientError(detail)
    }

    /// Catalog entry (msgid) of the user-facing message.
    pub fn message_id(&self) -> (r: &'static str)
        ensures
            r@ == "interface de monitor indisponível: {detail}"@,
    {
        "interface de monitor indisponível: {detail}"
    }

    /// The user-facing message from `template`, the catalog's rendering of
    /// `message_id()`: the error text filled into its `{detail}` placeholders.
    pub fn render_message(&self, template: &str) -> (r: String)
        ensures
            r@ == crate::text::fill_detail(template@, self@),
    {
        crate::text::fill_detail_text(template, self.0.as_str())
    }
}
} // verus!
