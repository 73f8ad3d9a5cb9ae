//! What holds of the settings and the secrets of a VM.

use crate::app::AppView;
use crate::config::{
    config_check, config_of, loaded, same_settings, standard_mount, storage_of, storage_reference,
    ConfigView, StorageView, StoredConfig, StoredStorage, VolumeStorageView,
};
use crate::encoding::{hex_digit, hex_text};
use crate::error::Messages;
use crate::files::canonical_directory_steps;
use crate::host::{HostView, PathsView};
use crate::instance::IdentityView;
use crate::isolation::{joining_adds_one_component, lemma_pieces_append};
use crate::keychain::store_command;
use crate::names::{
    digest_shaped, guest_password_allowed, has_control, name_allowed, name_char, user_allowed,
    user_char, uuid_shaped, volume_name_allowed,
};
use crate::options::{load_steps, InstallOptionsView};
use crate::password::{PasswordChoice, SECRET_BYTES};
use crate::path::{absolute, components, here, steps};
use crate::session::{Ask, HaltView, Reply, Tape};
use crate::text::{ascii_alphanumeric, ascii_hexdigit, control, pieces};
use crate::volume::ensure_directory_steps;
use vstd::prelude::*;
use vstd::utf8::encode_utf8;

verus! {

/// A command with a name of its own loads the settings of the VM of that name and
/// of no other.
pub proof fn named_commands_load_their_own_settings(stored: StoredConfig, name: Seq<char>)
    ensures
        loaded(stored, IdentityView::Named(name)) matches Ok(config) ==> config.vm_name == name,
{
}

/// `gremvm` loads the settings of a VM of any name, and keeps that name.
pub proof fn gremvm_keeps_the_name_of_its_vm(stored: StoredConfig)
    ensures
        loaded(stored, IdentityView::Gremvm) matches Ok(config) ==> config.vm_name
            == stored.vm_name@,
        loaded(stored, IdentityView::Named(stored.vm_name@)) == loaded(
            stored,
            IdentityView::Gremvm,
        ),
{
}

/// A configuration file that names a volume alone still means an encrypted volume
/// at its standard mount point, and is accepted.
pub proof fn volumes_by_name_are_still_accepted(name: String, uuid: String)
    requires
        volume_name_allowed(name@),
        uuid_shaped(uuid@),
    ensures
        storage_of(StoredStorage::LegacyVolume { name, uuid }) == StorageView::EncryptedVolume(
            VolumeStorageView {
                path: standard_mount(name@),
                mount_point: standard_mount(name@),
                name: name@,
                uuid: uuid@,
            },
        ),
        storage_reference(storage_of(StoredStorage::LegacyVolume { name, uuid })) is Ok,
{
    reveal_strlit("/Volumes");
    reveal_strlit("/");
    reveal_strlit(".");
    assert("."@ =~= here());
    let mount = standard_mount(name@);
    assert(mount[0] == '/');
    joining_adds_one_component("/Volumes"@, name@);
    assert(components("/Volumes"@).len() >= 1);
    assert("/"@ =~= Seq::empty() + seq!['/'] + Seq::empty());
    lemma_pieces_append(Seq::empty(), Seq::empty());
    assert(pieces("/"@, '/') =~= seq![Seq::<char>::empty(), Seq::empty()]);
    assert(components("/"@).len() == 1) by {
        reveal_with_fuel(steps, 3);
        let list = pieces("/"@, '/');
        assert(list.drop_last() =~= seq![Seq::<char>::empty()]);
        assert(list.drop_last().drop_last() =~= Seq::empty());
    }
}

/// Settings are the same as themselves.
proof fn lemma_same_settings(config: ConfigView)
    ensures
        same_settings(config, config),
{
}

/// What the installer makes of acceptable options is what every later command of
/// that name can load.
pub proof fn installed_settings_can_be_loaded(
    host: HostView,
    options: InstallOptionsView,
    paths: PathsView,
    tape: Tape,
)
    requires
        PathsView::discover(options.name, host) == Ok::<PathsView, Messages>(paths),
        user_allowed(options.guest_user),
        1 <= options.cpu_count <= 64,
        4 <= options.memory_gb <= 256,
        options.disk_gb >= 50,
        options.storage matches Some(path) ==> absolute(path),
    ensures
        options.resolve(paths, tape).out matches Ok(resolved) ==> {
            &&& config_check(resolved.0, paths.identity) is Ok
            &&& forall|stored: StoredConfig| #[trigger]
                config_of(stored) == resolved.0 ==> loaded(stored, paths.identity) == Ok::<
                    ConfigView,
                    Messages,
                >(resolved.0)
        },
{
    reveal_strlit("gremvm");
    assert(name_allowed("gremvm"@)) by {
        assert("gremvm"@.len() == 6);
        assert forall|i: int| 0 <= i < 6 implies name_char(#[trigger] "gremvm"@[i]) by {}
    }
}

/// Settings that pass the checks are loaded again as they were saved: they are
/// written whole, to the file that is read, and whatever contents of that file
/// mean them give them back.
pub proof fn saved_settings_are_loaded_again(
    config: ConfigView,
    paths: PathsView,
    stored: StoredConfig,
    saving: Tape,
    loading: Tape,
)
    requires
        config_check(config, paths.identity) is Ok,
        config_of(stored) == config,
        loading.ahead(0) == Some(Reply::Config(stored)),
    ensures
        config.persist(paths, saving).out matches Err(
            HaltView::Pending { request: Ask::PublishConfig { directory, path, config: written }, .. },
        ) ==> directory == paths.config_dir && path == paths.config_file && written == config,
        loaded(stored, paths.identity) == Ok::<ConfigView, Messages>(config),
        load_steps(paths, loading).out == Ok::<ConfigView, HaltView>(config),
{
}

/// Settings that were loaded from a file of any shape, the one that names a
/// volume alone among them, are loaded again from every file that means them.
pub proof fn settings_survive_being_written_back(
    found: StoredConfig,
    written: StoredConfig,
    identity: IdentityView,
    config: ConfigView,
)
    requires
        loaded(found, identity) == Ok::<ConfigView, Messages>(config),
        config_of(written) == config,
    ensures
        loaded(written, identity) == Ok::<ConfigView, Messages>(config),
{
}

/// Installing again with the settings that are saved is accepted, and with other
/// settings it is refused.
pub proof fn saved_settings_decide_a_new_installation(
    config: ConfigView,
    stored: StoredConfig,
    paths: PathsView,
    tape: Tape,
)
    requires
        tape.ahead(0) == Some(Reply::Flag(true)),
        tape.ahead(1) == Some(Reply::Config(stored)),
        loaded(stored, paths.identity) is Ok,
    ensures
        config_of(stored) == config ==> config.check_existing(paths, tape).out == Ok::<
            (),
            HaltView,
        >(()),
        !same_settings(config_of(stored), config) ==> config.check_existing(paths, tape).out
            == Err::<(), HaltView>(
            HaltView::Failed(
                seq![
                    "install settings differ from the saved configuration at "@
                        + paths.config_file,
                ],
            ),
        ),
{
    lemma_same_settings(config);
}

/// A generated password is one that a guest may have, and consists of plain
/// characters.
pub proof fn generated_passwords_are_allowed(bytes: Seq<u8>)
    requires
        bytes.len() == SECRET_BYTES,
    ensures
        guest_password_allowed(hex_text(bytes)),
        forall|i: int| 0 <= i < hex_text(bytes).len() ==> ascii_hexdigit(#[trigger] hex_text(bytes)[i]),
        !has_control(hex_text(bytes)),
{
    assert forall|i: int| 0 <= i < hex_text(bytes).len() implies ascii_hexdigit(
        #[trigger] hex_text(bytes)[i],
    ) by {
        let byte = bytes[i / 2];
        assert(byte / 16 < 16 && byte % 16 < 16);
    }
    if has_control(hex_text(bytes)) {
        let i = choose|i: int|
            0 <= i < hex_text(bytes).len() && control(#[trigger] hex_text(bytes)[i]);
        assert(ascii_hexdigit(hex_text(bytes)[i]));
    }
}

/// What is stored as a generated password is the hexadecimal form of the random
/// bytes that the host drew, under the guest user and the service of the VM. Where
/// it drew another number of bytes, nothing is stored.
pub proof fn generated_passwords_are_what_was_drawn(app: AppView, bytes: Vec<u8>, tape: Tape)
    requires
        tape.ahead(0) == Some(Reply::Bytes(bytes)),
        tape.ahead(1) is None,
    ensures
        bytes@.len() == SECRET_BYTES ==> app.create_guest_password(
            PasswordChoice::Generate,
            tape,
        ).out == Err::<(), HaltView>(
            HaltView::Pending {
                keep: tape.read + 1,
                request: Ask::Run(
                    store_command(
                        app.config.guest_user,
                        app.paths.password_service,
                        encode_utf8(hex_text(bytes@)),
                        app.paths.login_keychain(),
                    ),
                ),
            },
        ),
        bytes@.len() != SECRET_BYTES ==> app.create_guest_password(
            PasswordChoice::Generate,
            tape,
        ).out matches Err(HaltView::Failed(_)),
{
    reveal(AppView::create_guest_password);
}

/// A character that stands for itself in a shell script.
pub open spec fn plain(c: char) -> bool {
    ascii_alphanumeric(c) || c == '/' || c == '.' || c == '_' || c == '-'
}

/// What is put into the scripts for the guest stands for itself there: the names
/// of the VM and of the guest user, the path of an upload, and a digest.
pub proof fn script_words_stand_for_themselves(app: AppView, digest: Seq<char>)
    requires
        name_allowed(app.config.vm_name),
        user_allowed(app.config.guest_user),
        digest_shaped(digest),
    ensures
        forall|i: int| 0 <= i < app.config.vm_name.len() ==> plain(#[trigger] app.config.vm_name[i]),
        forall|i: int|
            0 <= i < app.config.guest_user.len() ==> plain(#[trigger] app.config.guest_user[i]),
        forall|i: int| 0 <= i < app.upload_path().len() ==> plain(#[trigger] app.upload_path()[i]),
        forall|i: int| 0 <= i < digest.len() ==> plain(#[trigger] digest[i]),
{
    assert forall|i: int| 0 <= i < app.config.vm_name.len() implies plain(
        #[trigger] app.config.vm_name[i],
    ) by {
        assert(name_char(app.config.vm_name[i]));
    }
    assert forall|i: int| 0 <= i < app.config.guest_user.len() implies plain(
        #[trigger] app.config.guest_user[i],
    ) by {
        assert(user_char(app.config.guest_user[i]));
    }
    reveal_strlit("/Users/");
    reveal_strlit("/.gremvm-tailscaled");
    let front = "/Users/"@;
    let back = "/.gremvm-tailscaled"@;
    assert forall|i: int| 0 <= i < app.upload_path().len() implies plain(
        #[trigger] app.upload_path()[i],
    ) by {
        let user = app.config.guest_user;
        if i < front.len() {
            assert(app.upload_path()[i] == front[i]);
        } else if i < front.len() + user.len() {
            assert(app.upload_path()[i] == user[i - front.len()]);
        } else {
            assert(app.upload_path()[i] == back[i - front.len() - user.len()]);
        }
    }
}

proof fn lemma_hex_digit(one: nat, other: nat)
    requires
        one < 16,
        other < 16,
        hex_digit(one) == hex_digit(other),
    ensures
        one == other,
{
}

/// What is stored in the Keychain tells any two passwords apart.
pub proof fn stored_passwords_are_told_apart(one: Seq<u8>, other: Seq<u8>)
    requires
        hex_text(one) == hex_text(other),
    ensures
        one == other,
{
    assert(hex_text(one).len() == 2 * one.len() && hex_text(other).len() == 2 * other.len());
    assert forall|i: int| 0 <= i < one.len() implies one[i] == other[i] by {
        assert(hex_text(one)[2 * i] == hex_digit((one[i] / 16) as nat));
        assert(hex_text(other)[2 * i] == hex_digit((other[i] / 16) as nat));
        assert(hex_text(one)[2 * i + 1] == hex_digit((one[i] % 16) as nat));
        assert(hex_text(other)[2 * i + 1] == hex_digit((other[i] % 16) as nat));
        lemma_hex_digit((one[i] / 16) as nat, (other[i] / 16) as nat);
        lemma_hex_digit((one[i] % 16) as nat, (other[i] % 16) as nat);
    }
    assert(one =~= other);
}

/// A storage directory is refused where its path is relative, where it is no
/// directory or where it cannot be written to, each with its own message. The path
/// that is accepted is the one that the host found canonical and could write to.
pub proof fn storage_directories_are_tried(path: Seq<char>, tape: Tape)
    ensures
        !absolute(path) ==> canonical_directory_steps(path, tape).out == Err::<Seq<char>, HaltView>(
            HaltView::Failed(seq!["storage directory must be absolute"@]),
        ),
        absolute(path) && tape.ahead(0) == Some(Reply::Flag(false)) ==> canonical_directory_steps(
            path,
            tape,
        ).out == Err::<Seq<char>, HaltView>(
            HaltView::Failed(seq!["storage directory does not exist: "@ + path]),
        ),
        absolute(path) && tape.ahead(0) == Some(Reply::Flag(true)) ==> (tape.ahead(1) matches Some(
            Reply::Text(canonical),
        ) ==> (tape.ahead(2) matches Some(Reply::Failed(reason)) ==> canonical_directory_steps(
            path,
            tape,
        ).out == Err::<Seq<char>, HaltView>(
            HaltView::Failed(seq!["storage directory is not writable: "@ + canonical@, reason@]),
        ))),
        canonical_directory_steps(path, tape).out matches Ok(canonical) ==> {
            &&& absolute(path)
            &&& tape.ahead(0) == Some(Reply::Flag(true))
            &&& tape.ahead(1) matches Some(Reply::Text(text)) && text@ == canonical
            &&& tape.ahead(2) == Some(Reply::Done)
        },
{
    if let (Some(Reply::Text(canonical)), Some(Reply::Failed(reason))) = (
        tape.ahead(1),
        tape.ahead(2),
    ) {
        let message = "storage directory is not writable: "@ + canonical@;
        assert(seq![message] + seq![reason@] =~= seq![message, reason@]);
    }
}

/// A directory that was found canonical is found canonical again, and is then
/// accepted as unchanged: where nothing changed meanwhile, the host finds it to be
/// a directory that is its own canonical path, and can write there as before.
pub proof fn canonical_directories_stay_canonical(
    path: Seq<char>,
    canonical: Seq<char>,
    first: Tape,
    second: Tape,
)
    requires
        canonical_directory_steps(path, first).out == Ok::<Seq<char>, HaltView>(canonical),
        absolute(canonical),
        second.ahead(0) == Some(Reply::Flag(true)),
        second.ahead(1) matches Some(Reply::Text(text)) && text@ == canonical,
        second.ahead(2) == first.ahead(2),
    ensures
        canonical_directory_steps(canonical, second).out == Ok::<Seq<char>, HaltView>(canonical),
        ensure_directory_steps(canonical, second).out == Ok::<(), HaltView>(()),
{
}

} // verus!
