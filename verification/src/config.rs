//! The settings of one VM: what the installer saves and every command loads.

use crate::error::{agrees, require, required, Error, Messages};
use crate::instance::{Identity, IdentityView};
use crate::names::{
    default_guest_user, is_uuid, is_volume_name, name_allowed, user_allowed, uuid_shaped,
    valid_name, valid_user, volume_name_allowed, NAME_RULE, USER_RULE,
};
use crate::path::{
    absolute, inside, is_absolute, is_inside, is_same_place, join, joined, same_place,
};
use crate::text::same;
use vstd::prelude::*;

verus! {

/// A directory on a volume of its own, and how that volume is recognised.
#[derive(Debug)]
pub struct VolumeStorage {
    pub path: String,
    pub mount_point: String,
    pub name: String,
    pub uuid: String,
}

pub struct VolumeStorageView {
    pub path: Seq<char>,
    pub mount_point: Seq<char>,
    pub name: Seq<char>,
    pub uuid: Seq<char>,
}

impl View for VolumeStorage {
    type V = VolumeStorageView;

    open spec fn view(&self) -> VolumeStorageView {
        VolumeStorageView {
            path: self.path@,
            mount_point: self.mount_point@,
            name: self.name@,
            uuid: self.uuid@,
        }
    }
}

impl VolumeStorage {
    pub fn copy(&self) -> (other: VolumeStorage)
        ensures
            other@ == self@,
    {
        VolumeStorage {
            path: self.path.clone(),
            mount_point: self.mount_point.clone(),
            name: self.name.clone(),
            uuid: self.uuid.clone(),
        }
    }
}

/// Where Tart keeps the VM.
#[derive(Debug)]
pub enum Storage {
    /// Tart's own default.
    Default,
    /// A directory on the volume of the home directory.
    Directory { path: String },
    /// A directory on another volume that is not encrypted.
    PlainVolume(VolumeStorage),
    /// A directory on another volume that is encrypted.
    EncryptedVolume(VolumeStorage),
}

pub enum StorageView {
    Default,
    Directory { path: Seq<char> },
    PlainVolume(VolumeStorageView),
    EncryptedVolume(VolumeStorageView),
}

impl View for Storage {
    type V = StorageView;

    open spec fn view(&self) -> StorageView {
        match self {
            Storage::Default => StorageView::Default,
            Storage::Directory { path } => StorageView::Directory { path: path@ },
            Storage::PlainVolume(volume) => StorageView::PlainVolume(volume@),
            Storage::EncryptedVolume(volume) => StorageView::EncryptedVolume(volume@),
        }
    }
}

impl Storage {
    pub fn copy(&self) -> (other: Storage)
        ensures
            other@ == self@,
    {
        match self {
            Storage::Default => Storage::Default,
            Storage::Directory { path } => Storage::Directory { path: path.clone() },
            Storage::PlainVolume(volume) => Storage::PlainVolume(volume.copy()),
            Storage::EncryptedVolume(volume) => Storage::EncryptedVolume(volume.copy()),
        }
    }
}

/// The settings of a VM.
#[derive(Debug)]
pub struct Config {
    pub vm_name: String,
    pub guest_user: String,
    pub cpu_count: u32,
    pub memory_gb: u32,
    pub disk_gb: u64,
    pub storage: Storage,
}

pub struct ConfigView {
    pub vm_name: Seq<char>,
    pub guest_user: Seq<char>,
    pub cpu_count: u32,
    pub memory_gb: u32,
    pub disk_gb: u64,
    pub storage: StorageView,
}

impl View for Config {
    type V = ConfigView;

    open spec fn view(&self) -> ConfigView {
        ConfigView {
            vm_name: self.vm_name@,
            guest_user: self.guest_user@,
            cpu_count: self.cpu_count,
            memory_gb: self.memory_gb,
            disk_gb: self.disk_gb,
            storage: self.storage@,
        }
    }
}

/// The storage of a configuration file. A file may still have the shape that
/// knew encrypted volumes under their standard mount point alone.
#[derive(Debug)]
pub enum StoredStorage {
    Default,
    Directory { path: String },
    PlainVolume(VolumeStorage),
    EncryptedVolume(VolumeStorage),
    LegacyVolume { name: String, uuid: String },
}

/// The contents of a configuration file, before they are checked.
#[derive(Debug)]
pub struct StoredConfig {
    pub vm_name: String,
    pub guest_user: Option<String>,
    pub cpu_count: u32,
    pub memory_gb: u32,
    pub disk_gb: u64,
    pub storage: StoredStorage,
}

impl View for StoredConfig {
    type V = StoredConfig;

    open spec fn view(&self) -> StoredConfig {
        *self
    }
}

/// Where macOS mounts a volume of a name.
pub open spec fn standard_mount(name: Seq<char>) -> Seq<char> {
    join("/Volumes"@, name)
}

/// The storage that a configuration file means.
pub open spec fn storage_of(stored: StoredStorage) -> StorageView {
    match stored {
        StoredStorage::Default => StorageView::Default,
        StoredStorage::Directory { path } => StorageView::Directory { path: path@ },
        StoredStorage::PlainVolume(volume) => StorageView::PlainVolume(volume@),
        StoredStorage::EncryptedVolume(volume) => StorageView::EncryptedVolume(volume@),
        StoredStorage::LegacyVolume { name, uuid } => StorageView::EncryptedVolume(
            VolumeStorageView {
                path: standard_mount(name@),
                mount_point: standard_mount(name@),
                name: name@,
                uuid: uuid@,
            },
        ),
    }
}

/// The settings that a configuration file means.
pub open spec fn config_of(stored: StoredConfig) -> ConfigView {
    ConfigView {
        vm_name: stored.vm_name@,
        guest_user: match stored.guest_user {
            Some(user) => user@,
            None => "admin"@,
        },
        cpu_count: stored.cpu_count,
        memory_gb: stored.memory_gb,
        disk_gb: stored.disk_gb,
        storage: storage_of(stored.storage),
    }
}

/// Whether a recorded volume is usable: an absolute directory inside an absolute
/// mount point other than the root, and a name and a UUID of the right shape.
pub open spec fn volume_reference(volume: VolumeStorageView) -> Result<(), Messages> {
    if !absolute(volume.path) {
        Err(seq!["storage directory must be absolute"@])
    } else if !absolute(volume.mount_point) || same_place(volume.mount_point, "/"@) {
        Err(seq!["invalid VM storage mount point"@])
    } else if !volume_name_allowed(volume.name) {
        Err(seq!["invalid VM storage volume name"@])
    } else if !uuid_shaped(volume.uuid) {
        Err(seq!["invalid VM storage volume UUID"@])
    } else if !same_place(volume.path, volume.mount_point) && !inside(
        volume.path,
        volume.mount_point,
    ) {
        Err(seq!["VM storage directory is outside its recorded volume: "@ + volume.path])
    } else {
        Ok(())
    }
}

pub fn validate_volume_reference(volume: &VolumeStorage) -> (out: Result<(), Error>)
    ensures
        agrees(out, volume_reference(volume@)),
{
    require(is_absolute(volume.path.as_str()), "storage directory must be absolute")?;
    require(
        is_absolute(volume.mount_point.as_str()) && !is_same_place(volume.mount_point.as_str(), "/"),
        "invalid VM storage mount point",
    )?;
    require(is_volume_name(volume.name.as_str()), "invalid VM storage volume name")?;
    require(is_uuid(volume.uuid.as_str()), "invalid VM storage volume UUID")?;
    require(
        is_same_place(volume.path.as_str(), volume.mount_point.as_str()) || is_inside(
            volume.path.as_str(),
            volume.mount_point.as_str(),
        ),
        "VM storage directory is outside its recorded volume: ".to_owned().concat(
            volume.path.as_str(),
        ).as_str(),
    )
}

/// Whether a recorded storage is usable.
pub open spec fn storage_reference(storage: StorageView) -> Result<(), Messages> {
    match storage {
        StorageView::Default => Ok(()),
        StorageView::Directory { path } => required(
            absolute(path),
            "storage directory must be absolute"@,
        ),
        StorageView::PlainVolume(volume) | StorageView::EncryptedVolume(volume) => volume_reference(
            volume,
        ),
    }
}

/// The checks on settings that were loaded, in order: the first that fails gives
/// the error. A named command accepts the settings of its own VM alone; `gremvm`
/// keeps whatever name its VM had.
pub open spec fn config_check(config: ConfigView, identity: IdentityView) -> Result<(), Messages> {
    if !name_allowed(config.vm_name) {
        Err(seq![NAME_RULE@])
    } else if identity matches IdentityView::Named(name) && config.vm_name != name {
        Err(
            seq![
                "configuration belongs to command '"@ + config.vm_name + "', not '"@ + identity->0
                    + "'"@,
            ],
        )
    } else if !user_allowed(config.guest_user) {
        Err(seq![USER_RULE@])
    } else if storage_reference(config.storage) is Err {
        storage_reference(config.storage)
    } else if !(1 <= config.cpu_count <= 64) {
        Err(seq!["invalid CPU count"@])
    } else if !(4 <= config.memory_gb <= 256) {
        Err(seq!["invalid memory size"@])
    } else if config.disk_gb < 50 {
        Err(seq!["invalid disk size"@])
    } else {
        Ok(())
    }
}

/// What loading the contents of a configuration file gives.
pub open spec fn loaded(stored: StoredConfig, identity: IdentityView) -> Result<
    ConfigView,
    Messages,
> {
    match config_check(config_of(stored), identity) {
        Ok(()) => Ok(config_of(stored)),
        Err(messages) => Err(messages),
    }
}

fn storage_from(stored: &StoredStorage) -> (storage: Storage)
    ensures
        storage@ == storage_of(*stored),
{
    match stored {
        StoredStorage::Default => Storage::Default,
        StoredStorage::Directory { path } => Storage::Directory { path: path.clone() },
        StoredStorage::PlainVolume(volume) => Storage::PlainVolume(volume.copy()),
        StoredStorage::EncryptedVolume(volume) => Storage::EncryptedVolume(volume.copy()),
        StoredStorage::LegacyVolume { name, uuid } => {
            let path = joined("/Volumes", name.as_str());
            Storage::EncryptedVolume(
                VolumeStorage {
                    mount_point: path.clone(),
                    path,
                    name: name.clone(),
                    uuid: uuid.clone(),
                },
            )
        },
    }
}

fn storage_usable(storage: &Storage) -> (out: Result<(), Error>)
    ensures
        agrees(out, storage_reference(storage@)),
{
    match storage {
        Storage::Default => Ok(()),
        Storage::Directory { path } => require(
            is_absolute(path.as_str()),
            "storage directory must be absolute",
        ),
        Storage::PlainVolume(volume) => validate_volume_reference(volume),
        Storage::EncryptedVolume(volume) => validate_volume_reference(volume),
    }
}

impl Config {
    pub fn copy(&self) -> (other: Config)
        ensures
            other@ == self@,
    {
        Config {
            vm_name: self.vm_name.clone(),
            guest_user: self.guest_user.clone(),
            cpu_count: self.cpu_count,
            memory_gb: self.memory_gb,
            disk_gb: self.disk_gb,
            storage: self.storage.copy(),
        }
    }

    /// The checked settings of a configuration file.
    pub fn from_stored(stored: &StoredConfig, identity: &Identity) -> (out: Result<Config, Error>)
        ensures
            agrees(out, loaded(*stored, identity@)),
    {
        let config = Config {
            vm_name: stored.vm_name.clone(),
            guest_user: match &stored.guest_user {
                Some(user) => user.clone(),
                None => default_guest_user(),
            },
            cpu_count: stored.cpu_count,
            memory_gb: stored.memory_gb,
            disk_gb: stored.disk_gb,
            storage: storage_from(&stored.storage),
        };
        assert(config@ == config_of(*stored));
        match valid_name(config.vm_name.as_str()) {
            Ok(_) => {},
            Err(message) => {
                return Err(Error::new(message.as_str()));
            },
        }
        match identity {
            Identity::Gremvm => {},
            Identity::Named(name) => {
                require(
                    same(config.vm_name.as_str(), name.as_str()),
                    "configuration belongs to command '".to_owned().concat(
                        config.vm_name.as_str(),
                    ).concat("', not '").concat(name.as_str()).concat("'").as_str(),
                )?;
            },
        }
        match valid_user(config.guest_user.as_str()) {
            Ok(_) => {},
            Err(message) => {
                return Err(Error::new(message.as_str()));
            },
        }
        storage_usable(&config.storage)?;
        require(1 <= config.cpu_count && config.cpu_count <= 64, "invalid CPU count")?;
        require(4 <= config.memory_gb && config.memory_gb <= 256, "invalid memory size")?;
        require(config.disk_gb >= 50, "invalid disk size")?;
        Ok(config)
    }
}

/// Volumes are the same when their names and UUIDs are and their paths lead to
/// the same places.
pub open spec fn same_volume(left: VolumeStorageView, right: VolumeStorageView) -> bool {
    &&& same_place(left.path, right.path)
    &&& same_place(left.mount_point, right.mount_point)
    &&& left.name == right.name
    &&& left.uuid == right.uuid
}

pub open spec fn same_storage(left: StorageView, right: StorageView) -> bool {
    match (left, right) {
        (StorageView::Default, StorageView::Default) => true,
        (StorageView::Directory { path: mine }, StorageView::Directory { path: theirs }) => {
            same_place(mine, theirs)
        },
        (StorageView::PlainVolume(mine), StorageView::PlainVolume(theirs)) => same_volume(
            mine,
            theirs,
        ),
        (StorageView::EncryptedVolume(mine), StorageView::EncryptedVolume(theirs)) => same_volume(
            mine,
            theirs,
        ),
        _ => false,
    }
}

/// Whether two settings describe the same VM.
pub open spec fn same_settings(left: ConfigView, right: ConfigView) -> bool {
    &&& left.vm_name == right.vm_name
    &&& left.guest_user == right.guest_user
    &&& left.cpu_count == right.cpu_count
    &&& left.memory_gb == right.memory_gb
    &&& left.disk_gb == right.disk_gb
    &&& same_storage(left.storage, right.storage)
}

fn is_same_volume(left: &VolumeStorage, right: &VolumeStorage) -> (yes: bool)
    ensures
        yes == same_volume(left@, right@),
{
    is_same_place(left.path.as_str(), right.path.as_str()) && is_same_place(
        left.mount_point.as_str(),
        right.mount_point.as_str(),
    ) && left.name == right.name && left.uuid == right.uuid
}

fn is_same_storage(left: &Storage, right: &Storage) -> (yes: bool)
    ensures
        yes == same_storage(left@, right@),
{
    match (left, right) {
        (Storage::Default, Storage::Default) => true,
        (Storage::Directory { path: mine }, Storage::Directory { path: theirs }) => {
            is_same_place(mine.as_str(), theirs.as_str())
        },
        (Storage::PlainVolume(mine), Storage::PlainVolume(theirs)) => is_same_volume(mine, theirs),
        (Storage::EncryptedVolume(mine), Storage::EncryptedVolume(theirs)) => is_same_volume(
            mine,
            theirs,
        ),
        _ => false,
    }
}

impl Config {
    pub fn is_same(&self, other: &Config) -> (yes: bool)
        ensures
            yes == same_settings(self@, other@),
    {
        self.vm_name == other.vm_name && self.guest_user == other.guest_user && self.cpu_count
            == other.cpu_count && self.memory_gb == other.memory_gb && self.disk_gb
            == other.disk_gb && is_same_storage(&self.storage, &other.storage)
    }
}

} // verus!
