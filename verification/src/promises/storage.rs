//! The storage of a VM: how its volume is recognised, unlocked and mounted.

use crate::app::AppView;
use crate::command::{CommandView, InputView};
use crate::config::{volume_reference, StorageView, VolumeStorageView};
use crate::facts::{CryptoUser, VolumeInfo};
use crate::files::canonical_directory_steps;
use crate::keychain::StoredView;
use crate::options::storage_for_steps;
use crate::password::prompt_password_steps;
use crate::path::{join, same_place};
use crate::promises::{program, stops_with};
use crate::promises::commands::{the_commands_of_a_volume, the_tools_of_the_host};
use crate::session::{Ask, HaltView, Reply, Tape};
use crate::text::{first_word, lines, trimmed};
use crate::unlock::KeychainMode;
use crate::volume::{
    any_user_steps, ensure_directory_steps, inspect_volume_steps, mount_volume_steps,
    run_volume_password_steps, volume_for_path_steps, volume_info_steps,
    volume_password_valid_steps, StorageAccess, VolumeKind,
};
use vstd::prelude::*;
use vstd::utf8::{decode_utf8, encode_utf8, valid_utf8};

verus! {

/// The volume that was recorded, as the host reports it: of that name and UUID, and
/// encrypted with APFS or not encrypted, as it was.
pub open spec fn recorded(
    volume: VolumeInfo,
    storage: VolumeStorageView,
    kind: VolumeKind,
) -> bool {
    &&& volume.volume_name@ == storage.name
    &&& volume.volume_uuid@ == storage.uuid
    &&& match kind {
        VolumeKind::Plain => !volume.file_vault,
        VolumeKind::Encrypted => volume.file_vault && volume.filesystem_type@ == "apfs"@,
    }
}

/// The volume is mounted at a place.
pub open spec fn stands_at(volume: VolumeInfo, place: Seq<char>) -> bool {
    volume.mount_point matches Some(point) && same_place(point@, place)
}

/// A volume is what `diskutil` reports of it.
pub proof fn volumes_are_reported(selector: Seq<char>, tape: Tape)
    ensures
        ({
            let step = volume_info_steps(selector, tape);
            &&& tape.read >= tape.replies.len() ==> step.waits_for(
                Ask::Run(program("/usr/sbin/diskutil"@, seq!["info"@, "-plist"@, selector])),
            )
            &&& tape.ahead(0) matches Some(Reply::Output(output)) ==> {
                &&& output.code != Some(0i32) ==> step.out is Err
                &&& output.code == Some(0i32) && tape.ahead(1) is None ==> step.waits_for(
                    Ask::DecodeVolume(output.stdout@),
                )
                &&& output.code == Some(0i32) ==> (tape.ahead(1) matches Some(
                    Reply::Volume(volume),
                ) ==> step.out == Ok::<VolumeInfo, HaltView>(volume))
            }
            &&& step.out matches Ok(volume) ==> {
                &&& step.tape == tape.later(2)
                &&& tape.ahead(0) matches Some(Reply::Output(output)) && output.code == Some(0i32)
                &&& tape.ahead(1) == Some(Reply::Volume(volume))
            }
        }),
{
    the_commands_of_a_volume(
        selector,
        selector,
        VolumeStorageView { path: selector, mount_point: selector, name: selector, uuid: selector },
    );
}

/// The volume of a path is the one of the device in the second line that `df` writes.
pub proof fn paths_lie_on_the_volume_of_their_device(path: Seq<char>, tape: Tape)
    ensures
        ({
            let step = volume_for_path_steps(path, tape);
            &&& tape.read >= tape.replies.len() ==> step.waits_for(
                Ask::Run(program("/bin/df"@, seq!["-P"@, path])),
            )
            &&& tape.ahead(0) matches Some(Reply::Output(output)) ==> {
                let rows = lines(trimmed(decode_utf8(output.stdout@)));
                &&& output.code != Some(0i32) ==> step.out is Err
                &&& output.code == Some(0i32) && valid_utf8(output.stdout@) ==> {
                    &&& rows.len() > 1 && first_word(rows[1]) is Some ==> step
                        == volume_info_steps(first_word(rows[1])->0, tape.later(1))
                    &&& rows.len() <= 1 ==> step.refuses(
                        "df returned malformed filesystem information"@,
                    )
                }
            }
        }),
{
    the_tools_of_the_host(path, path, path, path, path);
}

/// A volume is gone on with only where it is the recorded one, of the recorded kind.
pub proof fn only_the_recorded_volume_is_used(
    storage: VolumeStorageView,
    kind: VolumeKind,
    tape: Tape,
)
    ensures
        ({
            let step = inspect_volume_steps(storage, kind, tape);
            let seen = volume_info_steps(storage.uuid, tape);
            &&& stops_with(step, seen)
            &&& seen.out matches Ok(volume) ==> {
                &&& step.out is Ok <==> recorded(volume, storage, kind)
                &&& step.out matches Ok(used) ==> used == volume && step.tape == seen.tape
                &&& volume.volume_name@ != storage.name || volume.volume_uuid@ != storage.uuid
                    ==> step.refuses("diskutil resolved the wrong VM storage volume"@)
                &&& volume.volume_name@ == storage.name && volume.volume_uuid@ == storage.uuid
                    && !recorded(volume, storage, kind) ==> step.refuses(
                    match kind {
                        VolumeKind::Plain => "VM storage volume unexpectedly became encrypted"@,
                        VolumeKind::Encrypted => "VM storage volume must remain encrypted APFS"@,
                    },
                )
            }
        }),
{
}

/// A volume counts as mounted exactly where the host reports the recorded volume, of
/// the recorded kind, unlocked, and at the recorded place.
pub proof fn a_mounted_volume_is_the_recorded_one(
    app: AppView,
    storage: VolumeStorageView,
    kind: VolumeKind,
    tape: Tape,
)
    requires
        tape.ahead(0) matches Some(Reply::Output(output)) && output.code == Some(0i32),
        tape.ahead(1) matches Some(Reply::Volume(volume)),
    ensures
        tape.ahead(1) matches Some(Reply::Volume(volume)) && app.volume_mounted(
            storage,
            kind,
            tape,
        ).out == Ok::<bool, HaltView>(
            recorded(volume, storage, kind) && !volume.locked && stands_at(
                volume,
                storage.mount_point,
            ),
        ),
{
    volumes_are_reported(storage.uuid, tape);
}

/// Whether the storage of a VM is there: its directory, and its volume where it has one
/// of its own.
pub proof fn storage_is_there_with_its_volume(app: AppView, tape: Tape)
    ensures
        match app.config.storage {
            StorageView::Default => app.storage_mounted(tape).out == Ok::<bool, HaltView>(true),
            StorageView::Directory { path } => {
                &&& tape.read >= tape.replies.len() ==> app.storage_mounted(tape).waits_for(
                    Ask::IsDirectory(path),
                )
                &&& tape.ahead(0) matches Some(Reply::Flag(there)) ==> app.storage_mounted(
                    tape,
                ).out == Ok::<bool, HaltView>(there)
            },
            StorageView::PlainVolume(volume) => {
                &&& tape.read >= tape.replies.len() ==> app.storage_mounted(tape).waits_for(
                    Ask::IsDirectory(volume.path),
                )
                &&& tape.ahead(0) == Some(Reply::Flag(false)) ==> app.storage_mounted(tape).out
                    == Ok::<bool, HaltView>(false)
                &&& tape.ahead(0) == Some(Reply::Flag(true)) ==> app.storage_mounted(tape)
                    == app.volume_mounted(volume, VolumeKind::Plain, tape.later(1))
            },
            StorageView::EncryptedVolume(volume) => {
                &&& tape.read >= tape.replies.len() ==> app.storage_mounted(tape).waits_for(
                    Ask::IsDirectory(volume.path),
                )
                &&& tape.ahead(0) == Some(Reply::Flag(false)) ==> app.storage_mounted(tape).out
                    == Ok::<bool, HaltView>(false)
                &&& tape.ahead(0) == Some(Reply::Flag(true)) ==> app.storage_mounted(tape)
                    == app.volume_mounted(volume, VolumeKind::Encrypted, tape.later(1))
            },
        },
{
    reveal(AppView::storage_mounted);
}

/// The users of a volume are tried in order, each with the password, until it is the
/// right one for one of them.
pub proof fn users_are_tried_in_order(
    uuid: Seq<char>,
    password: Seq<u8>,
    users: Seq<CryptoUser>,
    at: nat,
    tape: Tape,
)
    ensures
        ({
            let step = any_user_steps(uuid, password, users, at, tape);
            &&& at >= users.len() ==> step.out == Ok::<bool, HaltView>(false)
            &&& at < users.len() ==> {
                &&& tape.read >= tape.replies.len() ==> step.waits_for(
                    Ask::Run(
                        CommandView {
                            input: InputView::Bytes(password),
                            ..program(
                                "/usr/sbin/diskutil"@,
                                seq![
                                    "apfs"@,
                                    "unlockVolume"@,
                                    uuid,
                                    "-user"@,
                                    users[at as int].uuid@,
                                    "-stdinpassphrase"@,
                                    "-verify"@,
                                ],
                            )
                        },
                    ),
                )
                &&& tape.ahead(0) matches Some(Reply::Output(output)) ==> if output.code == Some(
                    0i32,
                ) {
                    step.out == Ok::<bool, HaltView>(true) && step.tape == tape.later(1)
                } else {
                    step == any_user_steps(uuid, password, users, at + 1, tape.later(1))
                }
            }
        }),
{
    if at < users.len() {
        the_commands_of_a_volume(
            uuid,
            users[at as int].uuid@,
            VolumeStorageView { path: uuid, mount_point: uuid, name: uuid, uuid },
        );
    }
}

/// A password is right for a volume where it is right for one of the users that the
/// host lists.
pub proof fn passwords_are_tried_on_the_users(uuid: Seq<char>, password: Seq<u8>, tape: Tape)
    ensures
        ({
            let step = volume_password_valid_steps(uuid, password, tape);
            &&& tape.read >= tape.replies.len() ==> step.waits_for(
                Ask::Run(
                    program(
                        "/usr/sbin/diskutil"@,
                        seq!["apfs"@, "listCryptoUsers"@, "-plist"@, uuid],
                    ),
                ),
            )
            &&& tape.ahead(0) matches Some(Reply::Output(output)) ==> {
                &&& output.code != Some(0i32) ==> step.out is Err
                &&& output.code == Some(0i32) && tape.ahead(1) is None ==> step.waits_for(
                    Ask::DecodeCryptoUsers(output.stdout@),
                )
                &&& output.code == Some(0i32) ==> (tape.ahead(1) matches Some(
                    Reply::CryptoUsers(users),
                ) ==> step == any_user_steps(uuid, password, users@, 0, tape.later(2)))
            }
        }),
{
    the_commands_of_a_volume(
        uuid,
        uuid,
        VolumeStorageView { path: uuid, mount_point: uuid, name: uuid, uuid },
    );
}

/// A volume is unlocked with the password that it is given, and not mounted by that.
pub proof fn volumes_are_unlocked(uuid: Seq<char>, password: Seq<u8>, tape: Tape)
    ensures
        ({
            let step = run_volume_password_steps(uuid, password, tape);
            &&& tape.read >= tape.replies.len() ==> step.waits_for(
                Ask::Run(
                    CommandView {
                        input: InputView::Bytes(password),
                        ..program(
                            "/usr/sbin/diskutil"@,
                            seq![
                                "apfs"@,
                                "unlockVolume"@,
                                uuid,
                                "-stdinpassphrase"@,
                                "-nomount"@,
                            ],
                        )
                    },
                ),
            )
            &&& tape.ahead(0) matches Some(Reply::Output(output)) ==> (step.out is Ok
                <==> output.code == Some(0i32))
            &&& step.out is Ok ==> step.tape == tape.later(1)
        }),
{
    the_commands_of_a_volume(
        uuid,
        uuid,
        VolumeStorageView { path: uuid, mount_point: uuid, name: uuid, uuid },
    );
}

/// A stored password of a volume is used where it is right: the one that was stored
/// here first, then the one that macOS keeps under the UUID of the volume, which is
/// stored here too.
pub proof fn stored_volume_passwords_are_tried(app: AppView, uuid: Seq<char>, tape: Tape)
    ensures
        ({
            let own = app.usable_volume_password(uuid, "io.gremvm.volume-password"@, tape);
            let native = app.usable_volume_password(uuid, uuid, own.tape);
            let step = app.stored_volume_password(uuid, tape);
            &&& stops_with(step, own)
            &&& own.out matches Ok(StoredView::Password(_)) ==> step.out == own.out
            &&& own.out == Ok::<StoredView, HaltView>(StoredView::Absent) ==> {
                &&& stops_with(step, native)
                &&& native.out == Ok::<StoredView, HaltView>(StoredView::Absent) ==> step.out
                    == native.out
                &&& native.out matches Ok(StoredView::Password(password)) ==> {
                    let kept = app.store_keychain_password(
                        uuid,
                        "io.gremvm.volume-password"@,
                        password,
                        native.tape,
                    );
                    &&& kept.out is Ok ==> step.out == native.out
                    &&& kept.out matches Err(halt) ==> step.out == Err::<StoredView, HaltView>(halt)
                }
            }
        }),
{
    reveal(AppView::stored_volume_password);
}

/// A password under one service is usable where there is one and it is right.
pub proof fn usable_passwords_are_right(
    app: AppView,
    uuid: Seq<char>,
    service: Seq<char>,
    tape: Tape,
)
    ensures
        ({
            let stored = app.keychain_password(uuid, service, tape);
            let step = app.usable_volume_password(uuid, service, tape);
            &&& stored.out is Err ==> step.out == stored.out
            &&& stored.out == Ok::<StoredView, HaltView>(StoredView::Absent) ==> step.out
                == stored.out
            &&& stored.out matches Ok(StoredView::Password(password)) ==> {
                let right = volume_password_valid_steps(uuid, password, stored.tape);
                &&& right.out == Ok::<bool, HaltView>(true) ==> step.out == stored.out
                &&& right.out == Ok::<bool, HaltView>(false) ==> step.out == Ok::<
                    StoredView,
                    HaltView,
                >(StoredView::Absent)
                &&& stops_with(step, right)
            }
        }),
{
}

/// A password that the user types for a volume is stored where it is right, and refused
/// where it is not.
pub proof fn typed_volume_passwords_are_stored(
    app: AppView,
    storage: VolumeStorageView,
    tape: Tape,
)
    ensures
        ({
            let typed = prompt_password_steps(
                "password for encrypted volume "@ + storage.name + ": "@,
                tape,
            );
            let step = app.prompt_volume_password(storage, tape);
            &&& stops_with(step, typed)
            &&& typed.out matches Ok(password) ==> {
                let right = volume_password_valid_steps(
                    storage.uuid,
                    encode_utf8(password),
                    typed.tape,
                );
                let kept = app.store_keychain_password(
                    storage.uuid,
                    "io.gremvm.volume-password"@,
                    encode_utf8(password),
                    right.tape,
                );
                &&& stops_with(step, right)
                &&& right.out == Ok::<bool, HaltView>(false) ==> step.refuses(
                    "incorrect password for encrypted volume "@ + storage.name,
                )
                &&& right.out == Ok::<bool, HaltView>(true) && kept.out is Ok ==> step.out == Ok::<
                    Seq<u8>,
                    HaltView,
                >(encode_utf8(password))
                &&& right.out == Ok::<bool, HaltView>(true) ==> (kept.out matches Err(halt)
                    ==> step.out == Err::<Seq<u8>, HaltView>(halt))
            }
        }),
{
    reveal(AppView::prompt_volume_password);
}

/// Which password a volume needs: none where it is plain; where the user can be asked,
/// one that is right, which is used where the volume is locked; and in the background
/// the stored one of a locked volume.
pub proof fn volumes_need_a_password_where_they_are_locked(
    app: AppView,
    storage: VolumeStorageView,
    access: StorageAccess,
    locked: bool,
    tape: Tape,
)
    ensures
        app.volume_unlock(storage, VolumeKind::Plain, access, locked, tape).out == Ok::<
            StoredView,
            HaltView,
        >(StoredView::Absent),
        app.volume_unlock(
            storage,
            VolumeKind::Encrypted,
            StorageAccess::Background,
            false,
            tape,
        ).out == Ok::<StoredView, HaltView>(StoredView::Absent),
        ({
            let ready = app.ensure_keychain(KeychainMode::Background, tape);
            let stored = app.keychain_password(
                storage.uuid,
                "io.gremvm.volume-password"@,
                ready.tape,
            );
            let step = app.volume_unlock(
                storage,
                VolumeKind::Encrypted,
                StorageAccess::Background,
                true,
                tape,
            );
            &&& stops_with(step, ready)
            &&& ready.out is Ok ==> stops_with(step, stored)
            &&& ready.out is Ok && (stored.out matches Ok(StoredView::Password(_))) ==> step.out
                == stored.out
            &&& ready.out is Ok && stored.out == Ok::<StoredView, HaltView>(StoredView::Absent)
                ==> step.refuses(
                "encrypted volume credential is missing; run '"@ + app.paths.command_name()
                    + " start' interactively"@,
            )
        }),
        ({
            let ready = app.ensure_keychain(KeychainMode::Current, tape);
            let stored = app.stored_volume_password(storage.uuid, ready.tape);
            let typed = app.prompt_volume_password(storage, stored.tape);
            let step = app.volume_unlock(
                storage,
                VolumeKind::Encrypted,
                StorageAccess::Interactive,
                locked,
                tape,
            );
            &&& stops_with(step, ready)
            &&& ready.out is Ok ==> stops_with(step, stored)
            &&& ready.out is Ok ==> (stored.out matches Ok(StoredView::Password(password))
                ==> step.out == Ok::<StoredView, HaltView>(
                if locked {
                    StoredView::Password(password)
                } else {
                    StoredView::Absent
                },
            ))
            &&& ready.out is Ok && stored.out == Ok::<StoredView, HaltView>(StoredView::Absent)
                ==> match typed.out {
                Err(halt) => step.out == Err::<StoredView, HaltView>(halt),
                Ok(password) => step.out == Ok::<StoredView, HaltView>(
                    if locked {
                        StoredView::Password(password)
                    } else {
                        StoredView::Absent
                    },
                ),
            }
        }),
{
    reveal(AppView::volume_unlock);
}

/// A volume is looked at, unlocked where it needs a password, and then looked at again.
pub proof fn unlocked_volumes_are_looked_at_again(
    app: AppView,
    storage: VolumeStorageView,
    kind: VolumeKind,
    access: StorageAccess,
    tape: Tape,
)
    ensures
        ({
            let seen = inspect_volume_steps(storage, kind, tape);
            let step = app.unlocked_volume(storage, kind, access, tape);
            &&& stops_with(step, seen)
            &&& seen.out matches Ok(volume) ==> {
                let unlock = app.volume_unlock(storage, kind, access, volume.locked, seen.tape);
                &&& stops_with(step, unlock)
                &&& unlock.out == Ok::<StoredView, HaltView>(StoredView::Absent) ==> step.out
                    == seen.out
                &&& unlock.out matches Ok(StoredView::Password(password)) ==> {
                    let opened = run_volume_password_steps(storage.uuid, password, unlock.tape);
                    &&& stops_with(step, opened)
                    &&& opened.out is Ok ==> step == inspect_volume_steps(
                        storage,
                        kind,
                        opened.tape,
                    )
                }
            }
        }),
{
    reveal(AppView::unlocked_volume);
}

/// A volume is mounted at its standard place where nothing is there, and at another
/// place where that is an empty directory.
pub proof fn volumes_are_mounted_where_nothing_is(storage: VolumeStorageView, tape: Tape)
    ensures
        ({
            let place = storage.mount_point;
            let step = mount_volume_steps(storage, tape);
            if same_place(place, join("/Volumes"@, storage.name)) {
                let mount = Ask::Run(
                    program("/usr/sbin/diskutil"@, seq!["mount"@, storage.uuid]),
                );
                &&& tape.read >= tape.replies.len() ==> step.waits_for(Ask::Exists(place))
                &&& tape.ahead(0) == Some(Reply::Flag(true)) ==> step.refuses(
                    "VM storage mount path already exists: "@ + place,
                )
                &&& tape.ahead(0) == Some(Reply::Flag(false)) && tape.ahead(1) is None
                    ==> step.waits_for(mount)
                &&& tape.ahead(0) == Some(Reply::Flag(false)) ==> (tape.ahead(1) matches Some(
                    Reply::Output(output),
                ) ==> (step.out is Ok <==> output.code == Some(0i32)))
            } else {
                let mount = Ask::Run(
                    program(
                        "/usr/sbin/diskutil"@,
                        seq!["mount"@, "-mountPoint"@, place, storage.uuid],
                    ),
                );
                &&& tape.read >= tape.replies.len() ==> step.waits_for(Ask::IsDirectory(place))
                &&& tape.ahead(0) == Some(Reply::Flag(false)) ==> step.refuses(
                    "custom VM storage mount point is missing: "@ + place,
                )
                &&& tape.ahead(0) == Some(Reply::Flag(true)) ==> {
                    &&& tape.ahead(1) is None ==> step.waits_for(Ask::IsEmpty(place))
                    &&& tape.ahead(1) == Some(Reply::Flag(false)) ==> step.refuses(
                        "custom VM storage mount point is not empty: "@ + place,
                    )
                    &&& tape.ahead(1) == Some(Reply::Flag(true)) && tape.ahead(2) is None
                        ==> step.waits_for(mount)
                    &&& tape.ahead(1) == Some(Reply::Flag(true)) ==> (tape.ahead(2) matches Some(
                        Reply::Output(output),
                    ) ==> (step.out is Ok <==> output.code == Some(0i32)))
                }
            }
        }),
{
    the_commands_of_a_volume(storage.uuid, storage.uuid, storage);
}

/// The directory of a VM is used where it is its own canonical path.
pub proof fn directories_keep_their_identity(path: Seq<char>, tape: Tape)
    ensures
        ({
            let found = canonical_directory_steps(path, tape);
            let step = ensure_directory_steps(path, tape);
            &&& stops_with(step, found)
            &&& found.out matches Ok(canonical) ==> {
                &&& step.out is Ok <==> same_place(canonical, path)
                &&& !same_place(canonical, path) ==> step.refuses(
                    "VM storage directory changed identity: "@ + path,
                )
            }
        }),
{
}

/// A volume is available where its record is valid, it is unlocked and mounted, it is
/// the recorded volume at the recorded place and writable, and its directory is there.
pub proof fn volumes_are_made_available(
    app: AppView,
    storage: VolumeStorageView,
    kind: VolumeKind,
    access: StorageAccess,
    tape: Tape,
)
    ensures
        ({
            let step = app.ensure_volume(storage, kind, access, tape);
            let opened = app.unlocked_volume(storage, kind, access, tape);
            &&& volume_reference(storage) matches Err(messages) ==> step.out == Err::<(), HaltView>(
                HaltView::Failed(messages),
            )
            &&& volume_reference(storage) is Ok ==> stops_with(step, opened)
            &&& volume_reference(storage) is Ok ==> (opened.out matches Ok(volume) ==> {
                let free = volume.mount_point is None || volume.mount_point->0@.len() == 0;
                let mounted = mount_volume_steps(storage, opened.tape);
                let seen = inspect_volume_steps(storage, kind, mounted.tape);
                let last = if free { seen.tape } else { opened.tape };
                let used = if free { seen.out->Ok_0 } else { volume };
                let ready = !free || (mounted.out is Ok && seen.out is Ok);
                let here = used.volume_name@ == storage.name && used.volume_uuid@ == storage.uuid
                    && stands_at(used, storage.mount_point);
                &&& free ==> stops_with(step, mounted)
                &&& free && mounted.out is Ok ==> stops_with(step, seen)
                &&& ready && !here ==> step.refuses(
                    "VM storage volume "@ + storage.name + " is not mounted at "@
                        + storage.mount_point,
                )
                &&& ready && here && !used.writable_volume ==> step.refuses(
                    "VM storage volume is read-only"@,
                )
                &&& ready && here && used.writable_volume ==> (step.out is Ok
                    <==> ensure_directory_steps(storage.path, last).out is Ok)
            })
        }),
{
    reveal(AppView::ensure_volume);
}

/// The storage of a VM is made available as what it was recorded to be.
pub proof fn storage_is_made_available(app: AppView, access: StorageAccess, tape: Tape)
    ensures
        match app.config.storage {
            StorageView::Default => app.ensure_storage(access, tape).out is Ok
                && app.ensure_storage(access, tape).tape == tape,
            StorageView::Directory { path } => app.ensure_storage(access, tape)
                == ensure_directory_steps(path, tape),
            StorageView::PlainVolume(volume) => app.ensure_storage(access, tape)
                == app.ensure_volume(volume, VolumeKind::Plain, access, tape),
            StorageView::EncryptedVolume(volume) => app.ensure_storage(access, tape)
                == app.ensure_volume(volume, VolumeKind::Encrypted, access, tape),
        },
{
    reveal(AppView::ensure_storage);
}

/// A directory on the volume of the home directory is recorded alone; one elsewhere
/// with its volume, which must be encrypted with APFS where it is encrypted, and
/// mounted.
pub proof fn directories_are_recorded_with_their_volume(
    path: Seq<char>,
    home: Seq<char>,
    tape: Tape,
)
    ensures
        ({
            let there = volume_for_path_steps(path, tape);
            let own = volume_for_path_steps(home, there.tape);
            let step = storage_for_steps(path, home, tape);
            &&& stops_with(step, there)
            &&& there.out is Ok ==> stops_with(step, own)
            &&& there.out is Ok && own.out is Ok ==> {
                let volume = there.out->Ok_0;
                let record = VolumeStorageView {
                    path,
                    mount_point: volume.mount_point->0@,
                    name: volume.volume_name@,
                    uuid: volume.volume_uuid@,
                };
                let apart = volume.volume_uuid@ != (own.out->Ok_0).volume_uuid@;
                let apfs = volume.file_vault ==> volume.filesystem_type@ == "apfs"@;
                &&& !apart ==> step.out == Ok::<StorageView, HaltView>(
                    StorageView::Directory { path },
                )
                &&& apart && !apfs ==> step.refuses("encrypted VM storage volume must be APFS"@)
                &&& apart && apfs && volume.mount_point is None ==> step.refuses(
                    "storage volume is not mounted"@,
                )
                &&& apart && apfs && volume.mount_point is Some ==> match volume_reference(record) {
                    Err(messages) => step.out == Err::<StorageView, HaltView>(
                        HaltView::Failed(messages),
                    ),
                    Ok(()) => step.out == Ok::<StorageView, HaltView>(
                        if volume.file_vault {
                            StorageView::EncryptedVolume(record)
                        } else {
                            StorageView::PlainVolume(record)
                        },
                    ),
                }
            }
        }),
{
}

} // verus!
