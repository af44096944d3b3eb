//! Bluetooth adapter status, devices and file transfer.
use vstd::prelude::*;

verus! {

/// State of the Bluetooth controller and of the file receiver.
#[derive(Debug, Clone, PartialEq, Eq)]
pub struct BluetoothStatus {
    pub available: bool,
    pub powered: bool,
    pub discoverable: bool,
    pub pairable: bool,
    pub scanning: bool,
    pub controller: String,
    pub controller_name: String,
    pub transfer_available: bool,
    pub receiver_active: bool,
    pub receive_path: String,
}

/// Wire form of the controller status, `(bbbbbssbbs)`.
pub type BluetoothStatusRow = (bool, bool, bool, bool, bool, String, String, bool, bool, String);

impl From<BluetoothStatusRow> for BluetoothStatus {
    fn from(row: BluetoothStatusRow) -> (r: Self)
        ensures
            r.available == row.0,
            r.powered == row.1,
            r.discoverable == row.2,
            r.pairable == row.3,
            r.scanning == row.4,
            r.controller == row.5,
            r.controller_name == row.6,
            r.transfer_available == row.7,
            r.receiver_active == row.8,
            r.receive_path == row.9,
    {
        BluetoothStatus {
            available: row.0,
            powered: row.1,
            discoverable: row.2,
            pairable: row.3,
            scanning: row.4,
            controller: row.5,
            controller_name: row.6,
            transfer_available: row.7,
            receiver_active: row.8,
            receive_path: row.9,
        }
    }
}

impl vstd::std_specs::convert::FromSpecImpl<BluetoothStatusRow> for BluetoothStatus {
    open spec fn obeys_from_spec() -> bool {
        true
    }

    open spec fn from_spec(row: BluetoothStatusRow) -> Self {
        BluetoothStatus {
            available: row.0,
            powered: row.1,
            discoverable: row.2,
            pairable: row.3,
            scanning: row.4,
            controller: row.5,
            controller_name: row.6,
            transfer_available: row.7,
            receiver_active: row.8,
            receive_path: row.9,
        }
    }
}
/// A device known to the controller.
#[derive(Debug, Clone, PartialEq, Eq)]
pub struct BluetoothDevice {
    pub address: String,
    pub name: String,
    pub alias: String,
    pub icon: String,
    pub paired: bool,
    pub trusted: bool,
    pub connected: bool,
    pub blocked: bool,
    pub rssi: i32,
}

/// Wire form of a device, `(ssssbbbbi)`.
pub type BluetoothDeviceRow = (String, String, String, String, bool, bool, bool, bool, i32);

impl From<BluetoothDeviceRow> for BluetoothDevice {
    fn from(row: BluetoothDeviceRow) -> (r: Self)
        ensures
            r.address == row.0,
            r.name == row.1,
            r.alias == row.2,
            r.icon == row.3,
            r.paired == row.4,
            r.trusted == row.5,
            r.connected == row.6,
            r.blocked == row.7,
            r.rssi == row.8,
    {
        BluetoothDevice {
            address: row.0,
            name: row.1,
            alias: row.2,
            icon: row.3,
            paired: row.4,
            trusted: row.5,
            connected: row.6,
            blocked: row.7,
            rssi: row.8,
        }
    }
}

impl vstd::std_specs::convert::FromSpecImpl<BluetoothDeviceRow> for BluetoothDevice {
    open spec fn obeys_from_spec() -> bool {
        true
    }

    open spec fn from_spec(row: BluetoothDeviceRow) -> Self {
        BluetoothDevice {
            address: row.0,
            name: row.1,
            alias: row.2,
            icon: row.3,
            paired: row.4,
            trusted: row.5,
            connected: row.6,
            blocked: row.7,
            rssi: row.8,
        }
    }
}
/// The label a device is shown under: its alias, else its name, else its address.
pub open spec fn display_name_of(alias: Seq<char>, name: Seq<char>, address: Seq<char>) -> Seq<char> {
    if alias.len() > 0 {
        alias
    } else if name.len() > 0 {
        name
    } else {
        address
    }
}

impl BluetoothDevice {
    /// The label the device is shown under: the alias when set, else the
    /// name when set, else the address.
    pub fn display_name(&self) -> (r: &str)
        ensures
            r@ == display_name_of(self.alias@, self.name@, self.address@),
    {
        if !self.alias.as_str().is_empty() {
            self.alias.as_str()
        } else if !self.name.as_str().is_empty() {
            self.name.as_str()
        } else {
            self.address.as_str()
        }
    }
}

/// Failure of the Bluetooth interface; holds the underlying error's text.
#[derive(Debug, Clone, PartialEq, Eq)]
pub struct BluetoothClientError(String);

impl View for BluetoothClientError {
    type V = Seq<char>;

    /// The underlying error's text.
    closed spec fn view(&self) -> Seq<char> {
        self.0@
    }
}

impl BluetoothClientError {
    /// Wraps the text of an underlying bus error.
    pub fn from_error(detail: String) -> (r: Self)
        ensures
            r@ == detail@,
    {
        BluetoothClientError(detail)
    }

    /// Catalog entry (msgid) of the user-facing message.
    pub fn message_id(&self) -> (r: &'static str)
        ensures
            r@ == "interface Bluetooth indisponível: {detail}"@,
    {
        "interface Bluetooth indisponível: {detail}"
    }

    /// The user-facing message from `template`, the catalog's rendering of
    /// `message_id()`: the error text filled into its `{detail}` placeholders.
    pub fn render_message(&self, template: &str) -> (r: String)
        ensures
            r@ == crate::text::fill_detail(template@, self@),
    {
        crate::text::fill_detail_text(template, self.0.as_str())
    }
}

/// Operations of the Bluetooth interface.
pub trait BluetoothClient: Send + Sync {
    fn status(&self) -> Result<BluetoothStatus, BluetoothClientError>;

    fn devices(&self) -> Result<Vec<BluetoothDevice>, BluetoothClientError>;

    fn set_powered(&self, powered: bool) -> Result<(), BluetoothClientError>;

    fn set_scanning(&self, scanning: bool) -> Result<(), BluetoothClientError>;

    fn pair(&self, address: &str) -> Result<(), BluetoothClientError>;

    fn connect(&self, address: &str) -> Result<(), BluetoothClientError>;

    fn disconnect(&self, address: &str) -> Result<(), BluetoothClientError>;

    fn send_file(&self, address: &str, path: &str) -> Result<(), BluetoothClientError>;

    fn start_receiver(&self, directory: &str) -> Result<(), BluetoothClientError>;
}

/// A `BluetoothStatus` converted from its wire row holds each field from its
/// position in the row: `available` from field 1, `powered` from field 2,
/// `discoverable` from field 3, `pairable` from field 4, `scanning` from field
/// 5, `controller` from field 6, `controller_name` from field 7,
/// `transfer_available` from field 8, `receiver_active` from field 9,
/// `receive_path` from field 10.
pub proof fn lemma_bluetooth_status_from_row(row: BluetoothStatusRow, r: BluetoothStatus)
    requires
        call_ensures(<BluetoothStatus as From<BluetoothStatusRow>>::from, (row,), r),
    ensures
        r.available == row.0,
        r.powered == row.1,
        r.discoverable == row.2,
        r.pairable == row.3,
        r.scanning == row.4,
        r.controller == row.5,
        r.controller_name == row.6,
        r.transfer_available == row.7,
        r.receiver_active == row.8,
        r.receive_path == row.9,
{
}

/// A `BluetoothDevice` converted from its wire row holds each field from its
/// position in the row: `address` from field 1, `name` from field 2, `alias`
/// from field 3, `icon` from field 4, `paired` from field 5, `trusted` from
/// field 6, `connected` from field 7, `blocked` from field 8, `rssi` from field
/// 9.
pub proof fn lemma_bluetooth_device_from_row(row: BluetoothDeviceRow, r: BluetoothDevice)
    requires
        call_ensures(<BluetoothDevice as From<BluetoothDeviceRow>>::from, (row,), r),
    ensures
        r.address == row.0,
        r.name == row.1,
        r.alias == row.2,
        r.icon == row.3,
        r.paired == row.4,
        r.trusted == row.5,
        r.connected == row.6,
        r.blocked == row.7,
        r.rssi == row.8,
{
}

} // verus!
