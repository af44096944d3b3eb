//! Network interfaces, Wi-Fi, proxy, static addressing and VPN import.
use vstd::prelude::*;

verus! {

/// A network interface and its addressing.
#[derive(Debug, Clone, PartialEq, Eq)]
pub struct NetworkInterface {
    pub name: String,
    pub kind: String,
    pub state: String,
    pub ipv4: String,
    pub ipv6: String,
    pub gateway: String,
    pub dns: String,
    pub mac: String,
    pub speed: String,
    pub ssid: String,
    pub signal: u32,
    pub device: String,
    pub autoconf: bool,
}

/// Wire form of an interface, `(ssssssssssusb)`.
pub type NetworkInterfaceRow = (String, String, String, String, String, String, String, String, String, String, u32, String, bool);

impl From<NetworkInterfaceRow> for NetworkInterface {
    fn from(row: NetworkInterfaceRow) -> (r: Self)
        ensures
            r.name == row.0,
            r.kind == row.1,
            r.state == row.2,
            r.ipv4 == row.3,
            r.ipv6 == row.4,
            r.gateway == row.5,
            r.dns == row.6,
            r.mac == row.7,
            r.speed == row.8,
            r.ssid == row.9,
            r.signal == row.10,
            r.device == row.11,
            r.autoconf == row.12,
    {
        NetworkInterface {
            name: row.0,
            kind: row.1,
            state: row.2,
            ipv4: row.3,
            ipv6: row.4,
            gateway: row.5,
            dns: row.6,
            mac: row.7,
            speed: row.8,
            ssid: row.9,
            signal: row.10,
            device: row.11,
            autoconf: row.12,
        }
    }
}

impl vstd::std_specs::convert::FromSpecImpl<NetworkInterfaceRow> for NetworkInterface {
    open spec fn obeys_from_spec() -> bool {
        true
    }

    open spec fn from_spec(row: NetworkInterfaceRow) -> Self {
        NetworkInterface {
            name: row.0,
            kind: row.1,
            state: row.2,
            ipv4: row.3,
            ipv6: row.4,
            gateway: row.5,
            dns: row.6,
            mac: row.7,
            speed: row.8,
            ssid: row.9,
            signal: row.10,
            device: row.11,
            autoconf: row.12,
        }
    }
}
/// A Wi-Fi network in range.
#[derive(Debug, Clone, PartialEq, Eq)]
pub struct WifiNetwork {
    pub ssid: String,
    pub security: String,
    pub signal: u32,
    pub active: bool,
    pub device: String,
}

/// Wire form of a Wi-Fi network, `(ssubs)`.
pub type WifiNetworkRow = (String, String, u32, bool, String);

impl From<WifiNetworkRow> for WifiNetwork {
    fn from(row: WifiNetworkRow) -> (r: Self)
        ensures
            r.ssid == row.0,
            r.security == row.1,
            r.signal == row.2,
            r.active == row.3,
            r.device == row.4,
    {
        WifiNetwork {
            ssid: row.0,
            security: row.1,
            signal: row.2,
            active: row.3,
            device: row.4,
        }
    }
}

impl vstd::std_specs::convert::FromSpecImpl<WifiNetworkRow> for WifiNetwork {
    open spec fn obeys_from_spec() -> bool {
        true
    }

    open spec fn from_spec(row: WifiNetworkRow) -> Self {
        WifiNetwork {
            ssid: row.0,
            security: row.1,
            signal: row.2,
            active: row.3,
            device: row.4,
        }
    }
}
/// System proxy settings.
#[derive(Debug, Clone, PartialEq, Eq)]
pub struct ProxyConfig {
    pub http: String,
    pub https: String,
    pub socks: String,
    pub no_proxy: String,
}

/// Wire form of the proxy settings, `(ssss)`.
pub type ProxyConfigRow = (String, String, String, String);

impl From<ProxyConfigRow> for ProxyConfig {
    fn from(row: ProxyConfigRow) -> (r: Self)
        ensures
            r.http == row.0,
            r.https == row.1,
            r.socks == row.2,
            r.no_proxy == row.3,
    {
        ProxyConfig {
            http: row.0,
            https: row.1,
            socks: row.2,
            no_proxy: row.3,
        }
    }
}

impl vstd::std_specs::convert::FromSpecImpl<ProxyConfigRow> for ProxyConfig {
    open spec fn obeys_from_spec() -> bool {
        true
    }

    open spec fn from_spec(row: ProxyConfigRow) -> Self {
        ProxyConfig {
            http: row.0,
            https: row.1,
            socks: row.2,
            no_proxy: row.3,
        }
    }
}
/// Failure of the network interface; holds the underlying error's text.
#[derive(Debug, Clone, PartialEq, Eq)]
pub struct NetworkClientError(String);

impl View for NetworkClientError {
    type V = Seq<char>;

    /// The underlying error's text.
    closed spec fn view(&self) -> Seq<char> {
        self.0@
    }
}

impl NetworkClientError {
    /// Wraps the text of an underlying bus error.
    pub fn from_error(detail: String) -> (r: Self)
        ensures
            r@ == detail@,
    {
        NetworkClientError(detail)
    }

    /// Catalog entry (msgid) of the user-facing message.
    pub fn message_id(&self) -> (r: &'static str)
        ensures
            r@ == "interface de rede indisponível: {detail}"@,
    {
        "interface de rede indisponível: {detail}"
    }

    /// The user-facing message from `template`, the catalog's rendering of
    /// `message_id()`: the error text filled into its `{detail}` placeholders.
    pub fn render_message(&self, template: &str) -> (r: String)
        ensures
            r@ == crate::text::fill_detail(template@, self@),
    {
        crate::text::fill_detail_text(template, self.0.as_str())
    }
}

/// Operations of the network interface.
pub trait NetworkClient: Send + Sync {
    fn interfaces(&self) -> Result<Vec<NetworkInterface>, NetworkClientError>;

    fn wifi(&self) -> Result<Vec<WifiNetwork>, NetworkClientError>;

    fn proxy(&self) -> Result<ProxyConfig, NetworkClientError>;

    fn set_proxy(&self, config: &ProxyConfig) -> Result<(), NetworkClientError>;

    fn connect_wifi(&self, ssid: &str, password: &str) -> Result<(), NetworkClientError>;

    fn disconnect(&self, device: &str) -> Result<(), NetworkClientError>;

    fn set_static_ipv4(&self, connection: &str, address: &str, gateway: &str, dns: &str) -> Result<
        (),
        NetworkClientError,
    >;

    fn import_vpn(&self, path: &str) -> Result<(), NetworkClientError>;
}

/// A `NetworkInterface` converted from its wire row holds each field from its
/// position in the row: `name` from field 1, `kind` from field 2, `state` from
/// field 3, `ipv4` from field 4, `ipv6` from field 5, `gateway` from field 6,
/// `dns` from field 7, `mac` from field 8, `speed` from field 9, `ssid` from
/// field 10, `signal` from field 11, `device` from field 12, `autoconf` from
/// field 13.
pub proof fn lemma_network_interface_from_row(row: NetworkInterfaceRow, r: NetworkInterface)
    requires
        call_ensures(<NetworkInterface as From<NetworkInterfaceRow>>::from, (row,), r),
    ensures
        r.name == row.0,
        r.kind == row.1,
        r.state == row.2,
        r.ipv4 == row.3,
        r.ipv6 == row.4,
        r.gateway == row.5,
        r.dns == row.6,
        r.mac == row.7,
        r.speed == row.8,
        r.ssid == row.9,
        r.signal == row.10,
        r.device == row.11,
        r.autoconf == row.12,
{
}

/// A `WifiNetwork` converted from its wire row holds each field from its
/// position in the row: `ssid` from field 1, `security` from field 2, `signal`
/// from field 3, `active` from field 4, `device` from field 5.
pub proof fn lemma_wifi_network_from_row(row: WifiNetworkRow, r: WifiNetwork)
    requires
        call_ensures(<WifiNetwork as From<WifiNetworkRow>>::from, (row,), r),
    ensures
        r.ssid == row.0,
        r.security == row.1,
        r.signal == row.2,
        r.active == row.3,
        r.device == row.4,
{
}

/// A `ProxyConfig` converted from its wire row holds each field from its
/// position in the row: `http` from field 1, `https` from field 2, `socks` from
/// field 3, `no_proxy` from field 4.
pub proof fn lemma_proxy_config_from_row(row: ProxyConfigRow, r: ProxyConfig)
    requires
        call_ensures(<ProxyConfig as From<ProxyConfigRow>>::from, (row,), r),
    ensures
        r.http == row.0,
        r.https == row.1,
        r.socks == row.2,
        r.no_proxy == row.3,
{
}

} // verus!
