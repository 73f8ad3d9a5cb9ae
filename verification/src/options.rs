//! The settings of a VM: how the installer finds them, and the file that keeps
//! them.

use crate::config::{
    loaded, same_settings, validate_volume_reference, volume_reference, Config, ConfigView, Storage,
    StorageView, VolumeStorage, VolumeStorageView,
};
use crate::facts::VolumeInfo;
use crate::files::{private_dir, private_dir_steps};
use crate::host::{optional, Paths, PathsView};
use crate::instance::{Identity, IdentityView};
use crate::password::PasswordChoice;
use crate::session::{
    ask_done, ask_flag, asked, done, ensure, ensured, follows, lift, lifted, no_answer,
    no_answer_to, refusal, refused, with_context, Ask, Halt, Reply, Request, Session, Step, Tape,
};
use crate::text::same;
use crate::volume::{volume_for_path, volume_for_path_steps};
use vstd::prelude::*;

verus! {

// ------------------------------------------------------------ saved settings
/// The settings that a command finds saved.
pub open spec fn load_steps(paths: PathsView, tape: Tape) -> Step<ConfigView> {
    asked(Ask::ReadConfig(paths.config_file), tape).and_then(|reply: Reply, tape: Tape|
    match reply {
        Reply::Config(stored) => lifted(loaded(stored, paths.identity), tape),
        _ => no_answer(reply, tape),
    })
}

impl ConfigView {
    /// Goes on only where nothing is saved or the same settings are.
    pub open spec fn check_existing(self, paths: PathsView, tape: Tape) -> Step<()> {
        ask_flag(Ask::Exists(paths.config_file), tape).and_then(|exists: bool, tape: Tape|
        if !exists {
            done((), tape)
        } else {
            load_steps(paths, tape).and_then(|saved: ConfigView, tape: Tape|
            ensured(
                same_settings(saved, self),
                "install settings differ from the saved configuration at "@ + paths.config_file,
                tape,
            ))
        })
    }

    /// Saves the settings.
    pub open spec fn persist(self, paths: PathsView, tape: Tape) -> Step<()> {
        private_dir_steps(paths.config_dir, tape).and_then(|_u: (), tape: Tape|
        ask_done(Ask::PublishConfig {
            directory: paths.config_dir,
            path: paths.config_file,
            config: self,
        }, tape))
    }
}

impl Config {
    pub fn load(session: &mut Session, paths: &Paths) -> (out: Result<Config, Halt>)
        ensures
            follows(out, *final(session), load_steps(paths@, old(session)@)),
    {
        match session.ask(Request::ReadConfig(paths.config_file.clone()))? {
            Reply::Config(stored) => lift(Config::from_stored(stored, &paths.identity)),
            reply => Err(no_answer_to(reply)),
        }
    }

    pub fn check_existing(&self, session: &mut Session, paths: &Paths) -> (out: Result<(), Halt>)
        ensures
            follows(out, *final(session), self@.check_existing(paths@, old(session)@)),
    {
        if session.flag(Request::Exists(paths.config_file.clone()))? {
            let saved = Config::load(session, paths)?;
            ensure(
                saved.is_same(self),
                "install settings differ from the saved configuration at ".to_owned().concat(
                    paths.config_file.as_str(),
                ).as_str(),
            )?;
        }
        Ok(())
    }

    pub fn persist(&self, session: &mut Session, paths: &Paths) -> (out: Result<(), Halt>)
        ensures
            follows(out, *final(session), self@.persist(paths@, old(session)@)),
    {
        private_dir(session, paths.config_dir.as_str())?;
        session.done(
            Request::PublishConfig {
                directory: paths.config_dir.clone(),
                path: paths.config_file.clone(),
                config: self.copy(),
            },
        )
    }
}

// ------------------------------------------------------------------- options
/// What the user asks of the installer.
#[derive(Debug)]
pub struct InstallOptions {
    /// The name of the VM and of the command that manages it.
    pub name: String,
    pub cpu_count: u32,
    pub memory_gb: u32,
    pub disk_gb: u64,
    pub guest_user: String,
    /// Whether the user chooses the guest password.
    pub ask_password: bool,
    /// The canonical path of an existing directory.
    pub storage: Option<String>,
}

pub struct InstallOptionsView {
    pub name: Seq<char>,
    pub cpu_count: u32,
    pub memory_gb: u32,
    pub disk_gb: u64,
    pub guest_user: Seq<char>,
    pub ask_password: bool,
    pub storage: Option<Seq<char>>,
}

impl View for InstallOptions {
    type V = InstallOptionsView;

    open spec fn view(&self) -> InstallOptionsView {
        InstallOptionsView {
            name: self.name@,
            cpu_count: self.cpu_count,
            memory_gb: self.memory_gb,
            disk_gb: self.disk_gb,
            guest_user: self.guest_user@,
            ask_password: self.ask_password,
            storage: optional(self.storage),
        }
    }
}

/// The record of a directory on a volume that is mounted.
pub open spec fn recorded_volume(
    path: Seq<char>,
    volume: VolumeInfo,
    mount_point: Seq<char>,
) -> VolumeStorageView {
    VolumeStorageView {
        path,
        mount_point,
        name: volume.volume_name@,
        uuid: volume.volume_uuid@,
    }
}

/// The storage that a directory means: the directory alone where it lies on the
/// volume of the home directory, and its volume too where it does not.
pub open spec fn storage_for_steps(path: Seq<char>, home: Seq<char>, tape: Tape) -> Step<
    StorageView,
> {
    volume_for_path_steps(path, tape).and_then(|volume: VolumeInfo, tape: Tape|
    volume_for_path_steps(home, tape).and_then(|own: VolumeInfo, tape: Tape|
    if volume.volume_uuid@ == own.volume_uuid@ {
        done(StorageView::Directory { path }, tape)
    } else {
        ensured(
            volume.file_vault ==> volume.filesystem_type@ == "apfs"@,
            "encrypted VM storage volume must be APFS"@,
            tape,
        ).and_then(|_u: (), tape: Tape|
        match volume.mount_point {
            None => refused("storage volume is not mounted"@, tape),
            Some(mount_point) => {
                let record = recorded_volume(path, volume, mount_point@);
                lifted(volume_reference(record), tape).and_then(|_u: (), tape: Tape|
                done(
                    if volume.file_vault {
                        StorageView::EncryptedVolume(record)
                    } else {
                        StorageView::PlainVolume(record)
                    },
                    tape,
                ))
            },
        })
    }))
}

fn storage_for(session: &mut Session, path: &str, home: &str) -> (out: Result<Storage, Halt>)
    ensures
        follows(out, *final(session), storage_for_steps(path@, home@, old(session)@)),
{
    let volume = volume_for_path(session, path)?;
    let own = volume_for_path(session, home)?;
    if volume.volume_uuid == own.volume_uuid {
        return Ok(Storage::Directory { path: path.to_owned() });
    }
    if volume.file_vault {
        ensure(
            same(volume.filesystem_type.as_str(), "apfs"),
            "encrypted VM storage volume must be APFS",
        )?;
    }
    match &volume.mount_point {
        None => Err(refusal("storage volume is not mounted")),
        Some(mount_point) => {
            let record = VolumeStorage {
                path: path.to_owned(),
                mount_point: mount_point.clone(),
                name: volume.volume_name.clone(),
                uuid: volume.volume_uuid.clone(),
            };
            lift(validate_volume_reference(&record))?;
            if volume.file_vault {
                Ok(Storage::EncryptedVolume(record))
            } else {
                Ok(Storage::PlainVolume(record))
            }
        },
    }
}

/// The name of the VM: that of the command, unless `gremvm` already has a VM of
/// another name.
pub open spec fn vm_name_steps(paths: PathsView, tape: Tape) -> Step<Seq<char>> {
    match paths.identity {
        IdentityView::Named(name) => done(name, tape),
        IdentityView::Gremvm => ask_flag(Ask::Exists(paths.config_file), tape).and_then(|exists: bool, tape: Tape|
        if exists {
            load_steps(paths, tape).context("persisted configuration is invalid"@).and_then(|saved: ConfigView, tape: Tape|
            done(saved.vm_name, tape))
        } else {
            done("gremvm"@, tape)
        }),
    }
}

fn vm_name(session: &mut Session, paths: &Paths) -> (out: Result<String, Halt>)
    ensures
        follows(out, *final(session), vm_name_steps(paths@, old(session)@)),
{
    match &paths.identity {
        Identity::Named(name) => Ok(name.clone()),
        Identity::Gremvm => {
            if session.flag(Request::Exists(paths.config_file.clone()))? {
                let saved = with_context(
                    Config::load(session, paths),
                    "persisted configuration is invalid",
                )?;
                Ok(saved.vm_name)
            } else {
                Ok("gremvm".to_owned())
            }
        },
    }
}

impl InstallOptionsView {
    /// The settings that the options mean, and where the password comes from.
    pub open spec fn resolve(self, paths: PathsView, tape: Tape) -> Step<
        (ConfigView, PasswordChoice),
    > {
        (match self.storage {
            None => done(StorageView::Default, tape),
            Some(path) => storage_for_steps(path, paths.home, tape),
        }).and_then(|storage: StorageView, tape: Tape|
        vm_name_steps(paths, tape).and_then(|vm_name: Seq<char>, tape: Tape|
        done(
            (
                ConfigView {
                    vm_name,
                    guest_user: self.guest_user,
                    cpu_count: self.cpu_count,
                    memory_gb: self.memory_gb,
                    disk_gb: self.disk_gb,
                    storage,
                },
                if self.ask_password {
                    PasswordChoice::Prompt
                } else {
                    PasswordChoice::Generate
                },
            ),
            tape,
        )))
    }
}

impl InstallOptions {
    pub fn resolve(&self, session: &mut Session, paths: &Paths) -> (out: Result<
        (Config, PasswordChoice),
        Halt,
    >)
        ensures
            follows(out, *final(session), self@.resolve(paths@, old(session)@)),
    {
        let storage = match &self.storage {
            None => Storage::Default,
            Some(path) => storage_for(session, path.as_str(), paths.home.as_str())?,
        };
        let vm_name = vm_name(session, paths)?;
        Ok(
            (
                Config {
                    vm_name,
                    guest_user: self.guest_user.clone(),
                    cpu_count: self.cpu_count,
                    memory_gb: self.memory_gb,
                    disk_gb: self.disk_gb,
                    storage,
                },
                if self.ask_password {
                    PasswordChoice::Prompt
                } else {
                    PasswordChoice::Generate
                },
            ),
        )
    }
}

} // verus!
