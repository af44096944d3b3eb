//! Local user accounts.
use vstd::prelude::*;

verus! {

/// A local user account and whether it has administrator rights.
#[derive(Debug, Clone, PartialEq, Eq)]
pub struct UserInfo {
    pub username: String,
    pub is_admin: bool,
}

/// Wire form of a user, `(sb)`.
pub type UserInfoRow = (String, bool);

impl From<UserInfoRow> for UserInfo {
    fn from(row: UserInfoRow) -> (r: Self)
        ensures
            r.username == row.0,
            r.is_admin == row.1,
    {
        UserInfo {
            username: row.0,
            is_admin: row.1,
        }
    }
}

impl vstd::std_specs::convert::FromSpecImpl<UserInfoRow> for UserInfo {
    open spec fn obeys_from_spec() -> bool {
        true
    }

    open spec fn from_spec(row: UserInfoRow) -> Self {
        UserInfo {
            username: row.0,
            is_admin: row.1,
        }
    }
}
/// Failure of the users interface; holds the underlying error's text.
#[derive(Debug, Clone, PartialEq, Eq)]
pub struct UsersClientError(String);

impl View for UsersClientError {
    type V = Seq<char>;

    /// The underlying error's text.
    closed spec fn view(&self) -> Seq<char> {
        self.0@
    }
}

impl UsersClientError {
    /// Wraps the text of an underlying bus error.
    pub fn from_error(detail: String) -> (r: Self)
        ensures
            r@ == detail@,
    {
        UsersClientError(detail)
    }

    /// Catalog entry (msgid) of the user-facing message.
    pub fn message_id(&self) -> (r: &'static str)
        ensures
            r@ == "interface de usuários indisponível: {detail}"@,
    {
        "interface de usuários indisponível: {detail}"
    }

    /// The user-facing message from `template`, the catalog's rendering of
    /// `message_id()`: the error text filled into its `{detail}` placeholders.
    pub fn render_message(&self, template: &str) -> (r: String)
        ensures
            r@ == crate::text::fill_detail(template@, self@),
    {
        crate::text::fill_detail_text(template, self.0.as_str())
    }
}

/// Operations of the users interface.
pub trait UsersClient: Send + Sync {
    fn list(&self) -> Result<Vec<UserInfo>, UsersClientError>;

    fn create(&self, username: &str, is_admin: bool) -> Result<(), UsersClientError>;

    fn remove(&self, username: &str) -> Result<(), UsersClientError>;

    fn set_admin(&self, username: &str, is_admin: bool) -> Result<(), UsersClientError>;
}

/// A `UserInfo` converted from its wire row holds each field from its position
/// in the row: `username` from field 1, `is_admin` from field 2.
pub proof fn lemma_user_info_from_row(row: UserInfoRow, r: UserInfo)
    requires
        call_ensures(<UserInfo as From<UserInfoRow>>::from, (row,), r),
    ensures
        r.username == row.0,
        r.is_admin == row.1,
{
}

} // verus!
