//! The storage of a VM: its directory, and the volume that the directory is on.

use crate::app::{App, AppView};
use crate::command::{Command, CommandView, Input, InputView};
use crate::config::{
    standard_mount, validate_volume_reference, volume_reference, Storage, StorageView,
    VolumeStorage, VolumeStorageView,
};
use crate::encoding::{bytes_of, utf8_bytes};
use crate::facts::{CryptoUser, Output, VolumeInfo};
use crate::files::{canonical_directory, canonical_directory_steps};
use crate::keychain::{Stored, StoredView};
use crate::password::{prompt_password, prompt_password_steps};
use crate::path::{is_same_place, joined, same_place};
use crate::process::{
    check_output, check_output_steps, checked, checked_steps, success, success_steps,
};
use crate::session::{
    ask_flag, ask_output, asked, done, ensure, ensured, follows, lift, lifted, no_answer,
    no_answer_to, refusal, refused, with_context, Ask, Halt, Reply, Request, Session, Step, Tape,
};
use crate::text::{first_word, first_word_of, lines, lines_of, same, texts};
use crate::unlock::KeychainMode;
use vstd::prelude::*;
use vstd::utf8::encode_utf8;

verus! {

/// The Keychain service of the passwords of encrypted volumes.
pub const VOLUME_PASSWORD_SERVICE: &'static str = "io.gremvm.volume-password";

#[derive(Clone, Copy, Debug, PartialEq, Eq, Structural)]
pub enum VolumeKind {
    Plain,
    Encrypted,
}

/// Whether the user can be asked for a password.
#[derive(Clone, Copy, Debug, PartialEq, Eq, Structural)]
pub enum StorageAccess {
    Interactive,
    Background,
}

// ---------------------------------------------------------------- inspection
/// The command that describes a volume.
pub open spec fn info_command(selector: Seq<char>) -> CommandView {
    CommandView::new("/usr/sbin/diskutil"@).arg("info"@).arg("-plist"@).arg(selector)
}

/// What `diskutil` says of a volume.
pub open spec fn volume_info_steps(selector: Seq<char>, tape: Tape) -> Step<VolumeInfo> {
    ask_output(Ask::Run(info_command(selector)), tape).context("cannot inspect the VM storage volume"@).and_then(|output: Output, tape: Tape|
    check_output_steps(output, "inspect the VM storage volume"@, tape).and_then(|_u: (), tape: Tape|
    asked(Ask::DecodeVolume(output.stdout@), tape).and_then(|reply: Reply, tape: Tape|
    match reply {
        Reply::Volume(volume) => done(volume, tape),
        _ => no_answer(reply, tape),
    }).context("diskutil returned malformed volume information"@)))
}

fn decoded_volume<'s>(session: &mut Session<'s>, bytes: Vec<u8>) -> (out: Result<
    &'s VolumeInfo,
    Halt,
>)
    ensures
        follows(
            out,
            *final(session),
            asked(Ask::DecodeVolume(bytes@), old(session)@).and_then(|reply: Reply, tape: Tape|
            match reply {
                Reply::Volume(volume) => done(volume, tape),
                _ => no_answer(reply, tape),
            }),
        ),
{
    match session.ask(Request::DecodeVolume(bytes))? {
        Reply::Volume(volume) => Ok(volume),
        reply => Err(no_answer_to(reply)),
    }
}

pub fn volume_info<'s>(session: &mut Session<'s>, selector: &str) -> (out: Result<
    &'s VolumeInfo,
    Halt,
>)
    ensures
        follows(out, *final(session), volume_info_steps(selector@, old(session)@)),
{
    let command = Command::new("/usr/sbin/diskutil").arg("info").arg("-plist").arg(selector);
    let output = with_context(
        session.output(Request::Run(command)),
        "cannot inspect the VM storage volume",
    )?;
    check_output(output, "inspect the VM storage volume")?;
    with_context(
        decoded_volume(session, bytes_of(&output.stdout)),
        "diskutil returned malformed volume information",
    )
}

/// The device in the second line that `df` writes.
pub open spec fn device_of(listing: Seq<char>) -> Option<Seq<char>> {
    if lines(listing).len() > 1 {
        first_word(lines(listing)[1])
    } else {
        None
    }
}

/// The command that tells the device of a path.
pub open spec fn device_command(path: Seq<char>) -> CommandView {
    CommandView::new("/bin/df"@).arg("-P"@).arg(path)
}

/// What `diskutil` says of the volume that a path lies on.
pub open spec fn volume_for_path_steps(path: Seq<char>, tape: Tape) -> Step<VolumeInfo> {
    checked_steps(
        device_command(path),
        "inspect the storage directory filesystem"@,
        tape,
    ).and_then(|listing: Seq<char>, tape: Tape|
    match device_of(listing) {
        Some(device) => volume_info_steps(device, tape),
        None => refused("df returned malformed filesystem information"@, tape),
    })
}

pub fn volume_for_path<'s>(session: &mut Session<'s>, path: &str) -> (out: Result<
    &'s VolumeInfo,
    Halt,
>)
    ensures
        follows(out, *final(session), volume_for_path_steps(path@, old(session)@)),
{
    let listing = checked(
        session,
        Command::new("/bin/df").arg("-P").arg(path),
        "inspect the storage directory filesystem",
    )?;
    let rows = lines_of(listing.as_str());
    assert(rows@.len() == texts(rows@).len());
    if rows.len() > 1 {
        assert(texts(rows@)[1] == rows@[1]@);
        match first_word_of(rows[1].as_str()) {
            Some(device) => {
                return volume_info(session, device.as_str());
            },
            None => {},
        }
    }
    Err(refusal("df returned malformed filesystem information"))
}

/// Whether a volume is of the recorded kind.
pub open spec fn of_kind(volume: VolumeInfo, kind: VolumeKind) -> bool {
    match kind {
        VolumeKind::Plain => !volume.file_vault,
        VolumeKind::Encrypted => volume.filesystem_type@ == "apfs"@ && volume.file_vault,
    }
}

pub fn is_of_kind(volume: &VolumeInfo, kind: VolumeKind) -> (yes: bool)
    ensures
        yes == of_kind(*volume, kind),
{
    match kind {
        VolumeKind::Plain => !volume.file_vault,
        VolumeKind::Encrypted => same(volume.filesystem_type.as_str(), "apfs") && volume.file_vault,
    }
}

pub open spec fn identified(volume: VolumeInfo, storage: VolumeStorageView) -> bool {
    volume.volume_name@ == storage.name && volume.volume_uuid@ == storage.uuid
}

fn is_identified(volume: &VolumeInfo, storage: &VolumeStorage) -> (yes: bool)
    ensures
        yes == identified(*volume, storage@),
{
    volume.volume_name == storage.name && volume.volume_uuid == storage.uuid
}

/// Goes on only with the recorded volume, while it is of the recorded kind.
pub open spec fn validate_volume_steps(
    volume: VolumeInfo,
    storage: VolumeStorageView,
    kind: VolumeKind,
    tape: Tape,
) -> Step<()> {
    if !identified(volume, storage) {
        refused("diskutil resolved the wrong VM storage volume"@, tape)
    } else {
        ensured(
            of_kind(volume, kind),
            match kind {
                VolumeKind::Plain => "VM storage volume unexpectedly became encrypted"@,
                VolumeKind::Encrypted => "VM storage volume must remain encrypted APFS"@,
            },
            tape,
        )
    }
}

pub fn validate_volume(volume: &VolumeInfo, storage: &VolumeStorage, kind: VolumeKind) -> (out:
    Result<(), Halt>)
    ensures
        forall|tape: Tape|
            match out {
                Ok(()) => #[trigger] validate_volume_steps(*volume, storage@, kind, tape) == done(
                    (),
                    tape,
                ),
                Err(halt) => validate_volume_steps(*volume, storage@, kind, tape) == (Step::<()> {
                    tape,
                    out: Err(halt@),
                }),
            },
{
    ensure(is_identified(volume, storage), "diskutil resolved the wrong VM storage volume")?;
    ensure(
        is_of_kind(volume, kind),
        match kind {
            VolumeKind::Plain => "VM storage volume unexpectedly became encrypted",
            VolumeKind::Encrypted => "VM storage volume must remain encrypted APFS",
        },
    )
}

/// The recorded volume as it is now.
pub open spec fn inspect_volume_steps(
    storage: VolumeStorageView,
    kind: VolumeKind,
    tape: Tape,
) -> Step<VolumeInfo> {
    volume_info_steps(storage.uuid, tape).and_then(|volume: VolumeInfo, tape: Tape|
    validate_volume_steps(volume, storage, kind, tape).and_then(|_u: (), tape: Tape|
    done(volume, tape)))
}

fn inspect_volume<'s>(
    session: &mut Session<'s>,
    storage: &VolumeStorage,
    kind: VolumeKind,
) -> (out: Result<&'s VolumeInfo, Halt>)
    ensures
        follows(out, *final(session), inspect_volume_steps(storage@, kind, old(session)@)),
{
    let volume = volume_info(session, storage.uuid.as_str())?;
    validate_volume(volume, storage, kind)?;
    Ok(volume)
}

/// Whether a volume is mounted where the record says.
pub open spec fn mounted_at(volume: VolumeInfo, place: Seq<char>) -> bool {
    volume.mount_point is Some && same_place(volume.mount_point->0@, place)
}

fn is_mounted_at(volume: &VolumeInfo, place: &str) -> (yes: bool)
    ensures
        yes == mounted_at(*volume, place@),
{
    match &volume.mount_point {
        Some(mount_point) => is_same_place(mount_point.as_str(), place),
        None => false,
    }
}

pub open spec fn unmounted(volume: VolumeInfo) -> bool {
    volume.mount_point is None || volume.mount_point->0@.len() == 0
}

fn is_unmounted(volume: &VolumeInfo) -> (yes: bool)
    ensures
        yes == unmounted(*volume),
{
    match &volume.mount_point {
        Some(mount_point) => mount_point.as_str().is_empty(),
        None => true,
    }
}

// ----------------------------------------------------------------- passwords
/// Hands a password to `diskutil`, which reads it.
pub open spec fn volume_password_command_steps(
    password: Seq<u8>,
    command: CommandView,
    tape: Tape,
) -> Step<Output> {
    asked(Ask::Run(command.input(InputView::Bytes(password))), tape).and_then(|reply: Reply, tape: Tape|
    match reply {
        Reply::Output(output) => done(output, tape),
        Reply::Unfed(_) => no_answer(reply, tape),
        Reply::Unawaited(_) => no_answer(reply, tape).context("cannot wait for diskutil"@),
        _ => no_answer(reply, tape).context("cannot run diskutil"@),
    })
}

fn volume_password_command<'s>(
    session: &mut Session<'s>,
    password: &Vec<u8>,
    command: Command,
) -> (out: Result<&'s Output, Halt>)
    ensures
        follows(
            out,
            *final(session),
            volume_password_command_steps(password@, command@, old(session)@),
        ),
{
    match session.ask(Request::Run(command.input(Input::Bytes(bytes_of(password)))))? {
        Reply::Output(output) => Ok(output),
        Reply::Unfed(reason) => Err(refusal(reason.as_str())),
        Reply::Unawaited(reason) => with_context(
            Err(refusal(reason.as_str())),
            "cannot wait for diskutil",
        ),
        reply => with_context(Err(no_answer_to(reply)), "cannot run diskutil"),
    }
}

/// The command that tries a password as one of the users of a volume.
pub open spec fn verify_command(uuid: Seq<char>, user: Seq<char>) -> CommandView {
    CommandView::new("/usr/sbin/diskutil"@).arg("apfs"@).arg("unlockVolume"@).arg(uuid).option(
        "-user"@,
        user,
    ).arg("-stdinpassphrase"@).arg("-verify"@)
}

/// The command that unlocks a volume.
pub open spec fn unlock_command(uuid: Seq<char>) -> CommandView {
    CommandView::new("/usr/sbin/diskutil"@).arg("apfs"@).arg("unlockVolume"@).arg(uuid).arg(
        "-stdinpassphrase"@,
    ).arg("-nomount"@)
}

/// Whether the password is that of one of the users from the given one on.
pub open spec fn any_user_steps(
    uuid: Seq<char>,
    password: Seq<u8>,
    users: Seq<CryptoUser>,
    at: nat,
    tape: Tape,
) -> Step<bool>
    decreases users.len() - at,
{
    if at >= users.len() {
        done(false, tape)
    } else {
        volume_password_command_steps(
            password,
            verify_command(uuid, users[at as int].uuid@),
            tape,
        ).and_then(|output: Output, tape: Tape|
        if output.succeeded() {
            done(true, tape)
        } else {
            any_user_steps(uuid, password, users, at + 1, tape)
        })
    }
}

fn any_user(
    session: &mut Session,
    uuid: &str,
    password: &Vec<u8>,
    users: &Vec<CryptoUser>,
    at: usize,
) -> (out: Result<bool, Halt>)
    requires
        at <= users@.len(),
    ensures
        follows(
            out,
            *final(session),
            any_user_steps(uuid@, password@, users@, at as nat, old(session)@),
        ),
    decreases users@.len() - at,
{
    if at >= users.len() {
        return Ok(false);
    }
    let command = Command::new("/usr/sbin/diskutil").arg("apfs").arg("unlockVolume").arg(
        uuid,
    ).option("-user", users[at].uuid.as_str()).arg("-stdinpassphrase").arg("-verify");
    let output = volume_password_command(session, password, command)?;
    if output.success() {
        Ok(true)
    } else {
        any_user(session, uuid, password, users, at + 1)
    }
}

/// The command that lists the users of a volume.
pub open spec fn users_command(uuid: Seq<char>) -> CommandView {
    CommandView::new("/usr/sbin/diskutil"@).arg("apfs"@).arg("listCryptoUsers"@).arg(
        "-plist"@,
    ).arg(uuid)
}

/// The users that can unlock a volume.
pub open spec fn crypto_users_steps(uuid: Seq<char>, tape: Tape) -> Step<Seq<CryptoUser>> {
    ask_output(Ask::Run(users_command(uuid)), tape).context("cannot list the users of the VM storage volume"@).and_then(|output: Output, tape: Tape|
    check_output_steps(output, "list the users of the VM storage volume"@, tape).and_then(|_u: (), tape: Tape|
    asked(Ask::DecodeCryptoUsers(output.stdout@), tape).and_then(|reply: Reply, tape: Tape|
    match reply {
        Reply::CryptoUsers(users) => done(users@, tape),
        _ => no_answer(reply, tape),
    }).context("diskutil returned malformed user information"@)))
}

fn decoded_users<'s>(session: &mut Session<'s>, bytes: Vec<u8>) -> (out: Result<
    &'s Vec<CryptoUser>,
    Halt,
>)
    ensures
        follows(
            out,
            *final(session),
            asked(Ask::DecodeCryptoUsers(bytes@), old(session)@).and_then(|reply: Reply, tape: Tape|
            match reply {
                Reply::CryptoUsers(users) => done(users@, tape),
                _ => no_answer(reply, tape),
            }),
        ),
{
    match session.ask(Request::DecodeCryptoUsers(bytes))? {
        Reply::CryptoUsers(users) => Ok(users),
        reply => Err(no_answer_to(reply)),
    }
}

fn crypto_users<'s>(session: &mut Session<'s>, uuid: &str) -> (out: Result<
    &'s Vec<CryptoUser>,
    Halt,
>)
    ensures
        follows(out, *final(session), crypto_users_steps(uuid@, old(session)@)),
{
    let command = Command::new("/usr/sbin/diskutil").arg("apfs").arg("listCryptoUsers").arg(
        "-plist",
    ).arg(uuid);
    let output = with_context(
        session.output(Request::Run(command)),
        "cannot list the users of the VM storage volume",
    )?;
    check_output(output, "list the users of the VM storage volume")?;
    with_context(
        decoded_users(session, bytes_of(&output.stdout)),
        "diskutil returned malformed user information",
    )
}

/// Whether a password unlocks a volume: that of any of its users does.
pub open spec fn volume_password_valid_steps(
    uuid: Seq<char>,
    password: Seq<u8>,
    tape: Tape,
) -> Step<bool> {
    crypto_users_steps(uuid, tape).and_then(|users: Seq<CryptoUser>, tape: Tape|
    any_user_steps(uuid, password, users, 0, tape))
}

pub fn volume_password_valid(session: &mut Session, uuid: &str, password: &Vec<u8>) -> (out: Result<
    bool,
    Halt,
>)
    ensures
        follows(
            out,
            *final(session),
            volume_password_valid_steps(uuid@, password@, old(session)@),
        ),
{
    let users = crypto_users(session, uuid)?;
    any_user(session, uuid, password, users, 0)
}

/// Unlocks a volume.
pub open spec fn run_volume_password_steps(
    uuid: Seq<char>,
    password: Seq<u8>,
    tape: Tape,
) -> Step<()> {
    volume_password_command_steps(password, unlock_command(uuid), tape).and_then(|output: Output, tape: Tape|
    check_output_steps(output, "unlock the VM storage volume"@, tape).context(
        "encrypted volume "@ + uuid,
    ))
}

pub fn run_volume_password(session: &mut Session, uuid: &str, password: &Vec<u8>) -> (out: Result<
    (),
    Halt,
>)
    ensures
        follows(
            out,
            *final(session),
            run_volume_password_steps(uuid@, password@, old(session)@),
        ),
{
    let command = Command::new("/usr/sbin/diskutil").arg("apfs").arg("unlockVolume").arg(uuid).arg(
        "-stdinpassphrase",
    ).arg("-nomount");
    let output = volume_password_command(session, password, command)?;
    with_context(
        check_output(output, "unlock the VM storage volume"),
        "encrypted volume ".to_owned().concat(uuid).as_str(),
    )
}

impl AppView {
    /// A password under one Keychain service, if it unlocks the volume.
    pub open spec fn usable_volume_password(
        self,
        uuid: Seq<char>,
        service: Seq<char>,
        tape: Tape,
    ) -> Step<StoredView> {
        self.keychain_password(uuid, service, tape).and_then(|stored: StoredView, tape: Tape|
        match stored {
            StoredView::Absent => done(StoredView::Absent, tape),
            StoredView::Password(password) => volume_password_valid_steps(uuid, password, tape).and_then(|valid: bool, tape: Tape|
            done(if valid { stored } else { StoredView::Absent }, tape)),
        })
    }

    /// The password of a volume that the Keychain holds: the one that was stored
    /// here or else the one that macOS keeps under the volume's own UUID, which
    /// is then stored here too.
    #[verifier::opaque]
    pub open spec fn stored_volume_password(self, uuid: Seq<char>, tape: Tape) -> Step<StoredView> {
        self.usable_volume_password(uuid, VOLUME_PASSWORD_SERVICE@, tape).and_then(|stored: StoredView, tape: Tape|
        match stored {
            StoredView::Password(_) => done(stored, tape),
            StoredView::Absent => self.usable_volume_password(uuid, uuid, tape).and_then(|native: StoredView, tape: Tape|
            match native {
                StoredView::Absent => done(native, tape),
                StoredView::Password(password) => self.store_keychain_password(
                    uuid,
                    VOLUME_PASSWORD_SERVICE@,
                    password,
                    tape,
                ).and_then(|_u: (), tape: Tape|
                done(native, tape)),
            }),
        })
    }

    /// Asks for the password of a volume and stores it.
    #[verifier::opaque]
    pub open spec fn prompt_volume_password(
        self,
        storage: VolumeStorageView,
        tape: Tape,
    ) -> Step<Seq<u8>> {
        prompt_password_steps("password for encrypted volume "@ + storage.name + ": "@, tape).and_then(|password: Seq<char>, tape: Tape|
        volume_password_valid_steps(storage.uuid, encode_utf8(password), tape).and_then(|valid: bool, tape: Tape|
        ensured(valid, "incorrect password for encrypted volume "@ + storage.name, tape).and_then(|_u: (), tape: Tape|
        self.store_keychain_password(
            storage.uuid,
            VOLUME_PASSWORD_SERVICE@,
            encode_utf8(password),
            tape,
        ).and_then(|_u: (), tape: Tape|
        done(encode_utf8(password), tape)))))
    }

    /// The password to unlock a volume with; none where it needs no unlocking.
    /// The user is asked where that is possible and no stored password will do.
    #[verifier::opaque]
    pub open spec fn volume_unlock(
        self,
        storage: VolumeStorageView,
        kind: VolumeKind,
        access: StorageAccess,
        locked: bool,
        tape: Tape,
    ) -> Step<StoredView> {
        match (kind, access) {
            (VolumeKind::Plain, _) => done(StoredView::Absent, tape),
            (VolumeKind::Encrypted, StorageAccess::Interactive) => {
                self.ensure_keychain(KeychainMode::Current, tape).and_then(|_u: (), tape: Tape|
                self.stored_volume_password(storage.uuid, tape).and_then(|stored: StoredView, tape: Tape|
                (match stored {
                    StoredView::Password(password) => done(password, tape),
                    StoredView::Absent => self.prompt_volume_password(storage, tape),
                }).and_then(|password: Seq<u8>, tape: Tape|
                done(
                    if locked { StoredView::Password(password) } else { StoredView::Absent },
                    tape,
                ))))
            },
            (VolumeKind::Encrypted, StorageAccess::Background) => if !locked {
                done(StoredView::Absent, tape)
            } else {
                self.ensure_keychain(KeychainMode::Background, tape).and_then(|_u: (), tape: Tape|
                self.keychain_password(storage.uuid, VOLUME_PASSWORD_SERVICE@, tape).and_then(|stored: StoredView, tape: Tape|
                match stored {
                    StoredView::Password(_) => done(stored, tape),
                    StoredView::Absent => refused(
                        "encrypted volume credential is missing; run '"@
                            + self.paths.command_name() + " start' interactively"@,
                        tape,
                    ),
                }))
            },
        }
    }

    /// The volume after it was unlocked, where that was needed.
    #[verifier::opaque]
    pub open spec fn unlocked_volume(
        self,
        storage: VolumeStorageView,
        kind: VolumeKind,
        access: StorageAccess,
        tape: Tape,
    ) -> Step<VolumeInfo> {
        inspect_volume_steps(storage, kind, tape).and_then(|volume: VolumeInfo, tape: Tape|
        self.volume_unlock(storage, kind, access, volume.locked, tape).and_then(|unlock: StoredView, tape: Tape|
        match unlock {
            StoredView::Absent => done(volume, tape),
            StoredView::Password(password) => run_volume_password_steps(
                storage.uuid,
                password,
                tape,
            ).and_then(|_u: (), tape: Tape|
            inspect_volume_steps(storage, kind, tape)),
        }))
    }
}

// ------------------------------------------------------------------ mounting
/// The command that mounts a volume at its recorded mount point.
pub open spec fn mount_command(storage: VolumeStorageView) -> CommandView {
    let mount = CommandView::new("/usr/sbin/diskutil"@).arg("mount"@);
    if same_place(storage.mount_point, standard_mount(storage.name)) {
        mount.arg(storage.uuid)
    } else {
        mount.option("-mountPoint"@, storage.mount_point).arg(storage.uuid)
    }
}

/// Mounts a volume at its recorded mount point: the standard one, which must not
/// exist yet, or an empty directory.
pub open spec fn mount_volume_steps(storage: VolumeStorageView, tape: Tape) -> Step<()> {
    let place = storage.mount_point;
    if same_place(place, standard_mount(storage.name)) {
        ask_flag(Ask::Exists(place), tape).and_then(|exists: bool, tape: Tape|
        ensured(!exists, "VM storage mount path already exists: "@ + place, tape).and_then(|_u: (), tape: Tape|
        success_steps(mount_command(storage), "mount the VM storage volume"@, tape)))
    } else {
        ask_flag(Ask::IsDirectory(place), tape).and_then(|directory: bool, tape: Tape|
        ensured(directory, "custom VM storage mount point is missing: "@ + place, tape).and_then(|_u: (), tape: Tape|
        ask_flag(Ask::IsEmpty(place), tape).and_then(|empty: bool, tape: Tape|
        ensured(empty, "custom VM storage mount point is not empty: "@ + place, tape).and_then(|_u: (), tape: Tape|
        success_steps(mount_command(storage), "mount the VM storage volume"@, tape)))))
    }
}

pub fn mount_volume(session: &mut Session, storage: &VolumeStorage) -> (out: Result<(), Halt>)
    ensures
        follows(out, *final(session), mount_volume_steps(storage@, old(session)@)),
{
    let place = storage.mount_point.as_str();
    let mount = Command::new("/usr/sbin/diskutil").arg("mount");
    let mount = if is_same_place(place, joined("/Volumes", storage.name.as_str()).as_str()) {
        let exists = session.flag(Request::Exists(place.to_owned()))?;
        ensure(!exists, "VM storage mount path already exists: ".to_owned().concat(place).as_str())?;
        mount
    } else {
        let directory = session.flag(Request::IsDirectory(place.to_owned()))?;
        ensure(
            directory,
            "custom VM storage mount point is missing: ".to_owned().concat(place).as_str(),
        )?;
        let empty = session.flag(Request::IsEmpty(place.to_owned()))?;
        ensure(
            empty,
            "custom VM storage mount point is not empty: ".to_owned().concat(place).as_str(),
        )?;
        mount.option("-mountPoint", place)
    };
    success(session, mount.arg(storage.uuid.as_str()), "mount the VM storage volume")
}

/// Goes on only where the path is a writable directory and canonical.
pub open spec fn ensure_directory_steps(path: Seq<char>, tape: Tape) -> Step<()> {
    canonical_directory_steps(path, tape).and_then(|canonical: Seq<char>, tape: Tape|
    ensured(
        same_place(canonical, path),
        "VM storage directory changed identity: "@ + path,
        tape,
    ))
}

pub fn ensure_directory(session: &mut Session, path: &str) -> (out: Result<(), Halt>)
    ensures
        follows(out, *final(session), ensure_directory_steps(path@, old(session)@)),
{
    let canonical = canonical_directory(session, path)?;
    ensure(
        is_same_place(canonical.as_str(), path),
        "VM storage directory changed identity: ".to_owned().concat(path).as_str(),
    )
}

impl AppView {
    /// Unlocks and mounts the volume of a VM where that is needed, and goes on
    /// only where it is the recorded volume at the recorded place, with the
    /// recorded directory on it.
    #[verifier::opaque]
    pub open spec fn ensure_volume(
        self,
        storage: VolumeStorageView,
        kind: VolumeKind,
        access: StorageAccess,
        tape: Tape,
    ) -> Step<()> {
        lifted(volume_reference(storage), tape).and_then(|_u: (), tape: Tape|
        self.unlocked_volume(storage, kind, access, tape).and_then(|volume: VolumeInfo, tape: Tape|
        (if unmounted(volume) {
            mount_volume_steps(storage, tape).and_then(|_u: (), tape: Tape|
            inspect_volume_steps(storage, kind, tape))
        } else {
            done(volume, tape)
        }).and_then(|volume: VolumeInfo, tape: Tape|
        ensured(
            identified(volume, storage) && mounted_at(volume, storage.mount_point),
            "VM storage volume "@ + storage.name + " is not mounted at "@ + storage.mount_point,
            tape,
        ).and_then(|_u: (), tape: Tape|
        ensured(volume.writable_volume, "VM storage volume is read-only"@, tape).and_then(|_u: (), tape: Tape|
        ensure_directory_steps(storage.path, tape).context(
            "VM storage directory is unavailable after mounting its volume"@,
        ))))))
    }

    /// Whether the volume of a VM is unlocked and mounted.
    pub open spec fn volume_mounted(
        self,
        storage: VolumeStorageView,
        kind: VolumeKind,
        tape: Tape,
    ) -> Step<bool> {
        volume_info_steps(storage.uuid, tape).and_then(|volume: VolumeInfo, tape: Tape|
        done(
            identified(volume, storage) && of_kind(volume, kind) && !volume.locked && mounted_at(
                volume,
                storage.mount_point,
            ),
            tape,
        ))
    }

    /// Makes the storage of the VM available.
    #[verifier::opaque]
    pub open spec fn ensure_storage(self, access: StorageAccess, tape: Tape) -> Step<()> {
        match self.config.storage {
            StorageView::Default => done((), tape),
            StorageView::Directory { path } => ensure_directory_steps(path, tape),
            StorageView::PlainVolume(volume) => self.ensure_volume(
                volume,
                VolumeKind::Plain,
                access,
                tape,
            ),
            StorageView::EncryptedVolume(volume) => self.ensure_volume(
                volume,
                VolumeKind::Encrypted,
                access,
                tape,
            ),
        }
    }
}

impl<'a> App<'a> {
    fn usable_volume_password(&self, session: &mut Session, uuid: &str, service: &str) -> (out:
        Result<Stored, Halt>)
        ensures
            follows(
                out,
                *final(session),
                self@.usable_volume_password(uuid@, service@, old(session)@),
            ),
    {
        match self.keychain_password(session, uuid, service)? {
            Stored::Absent => Ok(Stored::Absent),
            Stored::Password(password) => {
                if volume_password_valid(session, uuid, &password)? {
                    Ok(Stored::Password(password))
                } else {
                    Ok(Stored::Absent)
                }
            },
        }
    }

    pub fn stored_volume_password(&self, session: &mut Session, uuid: &str) -> (out: Result<
        Stored,
        Halt,
    >)
        ensures
            follows(out, *final(session), self@.stored_volume_password(uuid@, old(session)@)),
    {
        proof {
            reveal(AppView::stored_volume_password);
        }
        match self.usable_volume_password(session, uuid, VOLUME_PASSWORD_SERVICE)? {
            Stored::Password(password) => Ok(Stored::Password(password)),
            Stored::Absent => match self.usable_volume_password(session, uuid, uuid)? {
                Stored::Absent => Ok(Stored::Absent),
                Stored::Password(password) => {
                    self.store_keychain_password(
                        session,
                        uuid,
                        VOLUME_PASSWORD_SERVICE,
                        &password,
                    )?;
                    Ok(Stored::Password(password))
                },
            },
        }
    }

    fn prompt_volume_password(&self, session: &mut Session, storage: &VolumeStorage) -> (out:
        Result<Vec<u8>, Halt>)
        ensures
            follows(
                out,
                *final(session),
                self@.prompt_volume_password(storage@, old(session)@),
            ),
    {
        proof {
            reveal(AppView::prompt_volume_password);
        }
        let password = prompt_password(
            session,
            "password for encrypted volume ".to_owned().concat(storage.name.as_str()).concat(
                ": ",
            ).as_str(),
        )?;
        let bytes = utf8_bytes(password.as_str());
        let valid = volume_password_valid(session, storage.uuid.as_str(), &bytes)?;
        ensure(
            valid,
            "incorrect password for encrypted volume ".to_owned().concat(
                storage.name.as_str(),
            ).as_str(),
        )?;
        self.store_keychain_password(
            session,
            storage.uuid.as_str(),
            VOLUME_PASSWORD_SERVICE,
            &bytes,
        )?;
        Ok(bytes)
    }

    fn volume_unlock(
        &self,
        session: &mut Session,
        storage: &VolumeStorage,
        kind: VolumeKind,
        access: StorageAccess,
        locked: bool,
    ) -> (out: Result<Stored, Halt>)
        ensures
            follows(
                out,
                *final(session),
                self@.volume_unlock(storage@, kind, access, locked, old(session)@),
            ),
    {
        proof {
            reveal(AppView::volume_unlock);
        }
        match (kind, access) {
            (VolumeKind::Plain, _) => Ok(Stored::Absent),
            (VolumeKind::Encrypted, StorageAccess::Interactive) => {
                self.ensure_keychain(session, KeychainMode::Current)?;
                let password = match self.stored_volume_password(session, storage.uuid.as_str())? {
                    Stored::Password(password) => password,
                    Stored::Absent => self.prompt_volume_password(session, storage)?,
                };
                if locked {
                    Ok(Stored::Password(password))
                } else {
                    Ok(Stored::Absent)
                }
            },
            (VolumeKind::Encrypted, StorageAccess::Background) => {
                if !locked {
                    return Ok(Stored::Absent);
                }
                self.ensure_keychain(session, KeychainMode::Background)?;
                match self.keychain_password(
                    session,
                    storage.uuid.as_str(),
                    VOLUME_PASSWORD_SERVICE,
                )? {
                    Stored::Password(password) => Ok(Stored::Password(password)),
                    Stored::Absent => Err(
                        refusal(
                            "encrypted volume credential is missing; run '".to_owned().concat(
                                self.paths.command_name(),
                            ).concat(" start' interactively").as_str(),
                        ),
                    ),
                }
            },
        }
    }

    fn unlocked_volume<'s>(
        &self,
        session: &mut Session<'s>,
        storage: &VolumeStorage,
        kind: VolumeKind,
        access: StorageAccess,
    ) -> (out: Result<&'s VolumeInfo, Halt>)
        ensures
            follows(
                out,
                *final(session),
                self@.unlocked_volume(storage@, kind, access, old(session)@),
            ),
    {
        proof {
            reveal(AppView::unlocked_volume);
        }
        let volume = inspect_volume(session, storage, kind)?;
        match self.volume_unlock(session, storage, kind, access, volume.locked)? {
            Stored::Absent => Ok(volume),
            Stored::Password(password) => {
                run_volume_password(session, storage.uuid.as_str(), &password)?;
                inspect_volume(session, storage, kind)
            },
        }
    }

    pub fn ensure_volume(
        &self,
        session: &mut Session,
        storage: &VolumeStorage,
        kind: VolumeKind,
        access: StorageAccess,
    ) -> (out: Result<(), Halt>)
        ensures
            follows(
                out,
                *final(session),
                self@.ensure_volume(storage@, kind, access, old(session)@),
            ),
    {
        proof {
            reveal(AppView::ensure_volume);
        }
        lift(validate_volume_reference(storage))?;
        let volume = self.unlocked_volume(session, storage, kind, access)?;
        let volume = if is_unmounted(volume) {
            mount_volume(session, storage)?;
            inspect_volume(session, storage, kind)?
        } else {
            volume
        };
        ensure(
            is_identified(volume, storage) && is_mounted_at(volume, storage.mount_point.as_str()),
            "VM storage volume ".to_owned().concat(storage.name.as_str()).concat(
                " is not mounted at ",
            ).concat(storage.mount_point.as_str()).as_str(),
        )?;
        ensure(volume.writable_volume, "VM storage volume is read-only")?;
        with_context(
            ensure_directory(session, storage.path.as_str()),
            "VM storage directory is unavailable after mounting its volume",
        )
    }

    pub fn volume_mounted(
        &self,
        session: &mut Session,
        storage: &VolumeStorage,
        kind: VolumeKind,
    ) -> (out: Result<bool, Halt>)
        ensures
            follows(out, *final(session), self@.volume_mounted(storage@, kind, old(session)@)),
    {
        let volume = volume_info(session, storage.uuid.as_str())?;
        Ok(
            is_identified(volume, storage) && is_of_kind(volume, kind) && !volume.locked
                && is_mounted_at(volume, storage.mount_point.as_str()),
        )
    }

    pub fn ensure_storage(&self, session: &mut Session, access: StorageAccess) -> (out: Result<
        (),
        Halt,
    >)
        ensures
            follows(out, *final(session), self@.ensure_storage(access, old(session)@)),
    {
        proof {
            reveal(AppView::ensure_storage);
        }
        match &self.config.storage {
            Storage::Default => Ok(()),
            Storage::Directory { path } => ensure_directory(session, path.as_str()),
            Storage::PlainVolume(volume) => self.ensure_volume(
                session,
                volume,
                VolumeKind::Plain,
                access,
            ),
            Storage::EncryptedVolume(volume) => self.ensure_volume(
                session,
                volume,
                VolumeKind::Encrypted,
                access,
            ),
        }
    }
}

} // verus!
