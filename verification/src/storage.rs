//! Block devices and mounting.
use vstd::prelude::*;

verus! {

/// A block device or partition and its usage.
#[derive(Debug, Clone, PartialEq, Eq)]
pub struct StorageVolume {
    pub name: String,
    pub path: String,
    pub kind: String,
    pub fs_type: String,
    pub size: String,
    pub used: String,
    pub available: String,
    pub use_percent: u32,
    pub mountpoint: String,
    pub model: String,
    pub removable: bool,
    pub can_mount: bool,
    pub can_unmount: bool,
}

/// Wire form of a volume, `(sssssssussbbb)`.
pub type StorageVolumeRow = (String, String, String, String, String, String, String, u32, String, String, bool, bool, bool);

impl From<StorageVolumeRow> for StorageVolume {
    fn from(row: StorageVolumeRow) -> (r: Self)
        ensures
            r.name == row.0,
            r.path == row.1,
            r.kind == row.2,
            r.fs_type == row.3,
            r.size == row.4,
            r.used == row.5,
            r.available == row.6,
            r.use_percent == row.7,
            r.mountpoint == row.8,
            r.model == row.9,
            r.removable == row.10,
            r.can_mount == row.11,
            r.can_unmount == row.12,
    {
        StorageVolume {
            name: row.0,
            path: row.1,
            kind: row.2,
            fs_type: row.3,
            size: row.4,
            used: row.5,
            available: row.6,
            use_percent: row.7,
            mountpoint: row.8,
            model: row.9,
            removable: row.10,
            can_mount: row.11,
            can_unmount: row.12,
        }
    }
}

impl vstd::std_specs::convert::FromSpecImpl<StorageVolumeRow> for StorageVolume {
    open spec fn obeys_from_spec() -> bool {
        true
    }

    open spec fn from_spec(row: StorageVolumeRow) -> Self {
        StorageVolume {
            name: row.0,
            path: row.1,
            kind: row.2,
            fs_type: row.3,
            size: row.4,
            used: row.5,
            available: row.6,
            use_percent: row.7,
            mountpoint: row.8,
            model: row.9,
            removable: row.10,
            can_mount: row.11,
            can_unmount: row.12,
        }
    }
}
/// Failure of the storage interface; holds the underlying error's text.
#[derive(Debug, Clone, PartialEq, Eq)]
pub struct StorageClientError(String);

impl View for StorageClientError {
    type V = Seq<char>;

    /// The underlying error's text.
    closed spec fn view(&self) -> Seq<char> {
        self.0@
    }
}

impl StorageClientError {
    /// Wraps the text of an underlying bus error.
    pub fn from_error(detail: String) -> (r: Self)
        ensures
            r@ == detail@,
    {
        StorageClientError(detail)
    }

    /// Catalog entry (msgid) of the user-facing message.
    pub fn message_id(&self) -> (r: &'static str)
        ensures
            r@ == "interface de armazenamento indisponível: {detail}"@,
    {
        "interface de armazenamento indisponível: {detail}"
    }

    /// The user-facing message from `template`, the catalog's rendering of
    /// `message_id()`: the error text filled into its `{detail}` placeholders.
    pub fn render_message(&self, template: &str) -> (r: String)
        ensures
            r@ == crate::text::fill_detail(template@, self@),
    {
        crate::text::fill_detail_text(template, self.0.as_str())
    }
}

/// Operations of the storage interface.
pub trait StorageClient: Send + Sync {
    fn list(&self) -> Result<Vec<StorageVolume>, StorageClientError>;

    fn mount(&self, path: &str) -> Result<(), StorageClientError>;

    fn unmount(&self, path: &str) -> Result<(), StorageClientError>;
}

/// A `StorageVolume` converted from its wire row holds each field from its
/// position in the row: `name` from field 1, `path` from field 2, `kind` from
/// field 3, `fs_type` from field 4, `size` from field 5, `used` from field 6,
/// `available` from field 7, `use_percent` from field 8, `mountpoint` from
/// field 9, `model` from field 10, `removable` from field 11, `can_mount` from
/// field 12, `can_unmount` from field 13.
pub proof fn lemma_storage_volume_from_row(row: StorageVolumeRow, r: StorageVolume)
    requires
        call_ensures(<StorageVolume as From<StorageVolumeRow>>::from, (row,), r),
    ensures
        r.name == row.0,
        r.path == row.1,
        r.kind == row.2,
        r.fs_type == row.3,
        r.size == row.4,
        r.used == row.5,
        r.available == row.6,
        r.use_percent == row.7,
        r.mountpoint == row.8,
        r.model == row.9,
        r.removable == row.10,
        r.can_mount == row.11,
        r.can_unmount == row.12,
{
}

} // verus!
