//! Daemon identity and health, and the bus coordinates of the contract.
use vstd::prelude::*;

verus! {

/// Well-known name of the daemon on the system bus.
pub const BUS_NAME: &'static str = "org.lyraos.Vega1";

/// Object path at which the daemon serves every interface.
pub const OBJECT_PATH: &'static str = "/org/lyraos/Vega1";

/// Name of the system interface.
pub const SYSTEM_INTERFACE: &'static str = "org.lyraos.Vega1.System";

/// Detail given when the daemon answers a ping with `false`.
pub const PING_FALSE_DETAIL: &'static str = "Ping retornou false";

/// Daemon version, distribution name and logo path.
#[derive(Debug, Clone, PartialEq, Eq)]
pub struct BackendStatus {
    pub version: String,
    pub distro: String,
    pub logo_path: String,
}

impl BackendStatus {
    /// A field-by-field copy.
    pub fn duplicate(&self) -> (r: Self)
        ensures
            r == *self,
    {
        BackendStatus {
            version: self.version.clone(),
            distro: self.distro.clone(),
            logo_path: self.logo_path.clone(),
        }
    }
}

/// Failure of the system interface.
#[derive(Debug, Clone, PartialEq, Eq)]
pub enum SystemClientError {
    /// The daemon could not be reached or answered with an error.
    Unavailable(String),
    /// The daemon answered something the contract does not allow.
    InvalidResponse(String),
}

impl SystemClientError {
    /// The daemon could not be reached or answered with an error; holds that
    /// error's text.
    pub fn unavailable(detail: String) -> (r: Self)
        ensures
            r == SystemClientError::Unavailable(detail),
    {
        SystemClientError::Unavailable(detail)
    }

    /// A field-by-field copy.
    pub fn duplicate(&self) -> (r: Self)
        ensures
            r == *self,
    {
        match self {
            SystemClientError::Unavailable(d) => SystemClientError::Unavailable(d.clone()),
            SystemClientError::InvalidResponse(d) => SystemClientError::InvalidResponse(d.clone()),
        }
    }

    /// Catalog entry (msgid) of the user-facing message.
    pub fn message_id(&self) -> (r: &'static str)
        ensures
            self is Unavailable ==> r@ == "vegad indisponível: {detail}"@,
            self is InvalidResponse ==> r@ == "resposta inválida do vegad: {detail}"@,
    {
        match self {
            SystemClientError::Unavailable(_) => "vegad indisponível: {detail}",
            SystemClientError::InvalidResponse(_) => "resposta inválida do vegad: {detail}",
        }
    }

    /// The user-facing message from `template`, the catalog's rendering of
    /// `message_id()`: the detail filled into its `{detail}` placeholders.
    pub fn render_message(&self, template: &str) -> (r: String)
        ensures
            match self {
                SystemClientError::Unavailable(d) => r@ == crate::text::fill_detail(template@, d@),
                SystemClientError::InvalidResponse(d) => r@ == crate::text::fill_detail(
                    template@,
                    d@,
                ),
            },
    {
        match self {
            SystemClientError::Unavailable(d) => crate::text::fill_detail_text(template, d.as_str()),
            SystemClientError::InvalidResponse(d) => crate::text::fill_detail_text(
                template,
                d.as_str(),
            ),
        }
    }
}

/// Accepts the daemon's answer to a ping: a daemon that answers `false` is
/// reported as an invalid response and the status is not read further.
pub fn check_ping(alive: bool) -> (r: Result<(), SystemClientError>)
    ensures
        alive ==> r is Ok,
        !alive ==> (r matches Err(SystemClientError::InvalidResponse(d)) && d@ == PING_FALSE_DETAIL@),
{
    if alive {
        Ok(())
    } else {
        Err(SystemClientError::InvalidResponse(String::from_str(PING_FALSE_DETAIL)))
    }
}

/// Operations of the system interface.
pub trait SystemClient: Send + Sync {
    fn status(&self) -> Result<BackendStatus, SystemClientError>;

    fn disk_usage(&self) -> Result<(String, String, u32), SystemClientError>;
}

} // verus!
