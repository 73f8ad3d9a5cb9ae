//! The names, places and rules of a VM, written out.

use crate::cli::{called_name, lock_file, ActionView};
use crate::config::{
    config_check, config_of, loaded, same_settings, storage_of, storage_reference, volume_reference,
    ConfigView, StorageView, StoredConfig, StoredStorage, VolumeStorageView,
};
use crate::encoding::without_line_ending;
use crate::error::{headline, rendered, Messages};
use crate::facts::{ConsoleInfo, ConsoleSession, Output, VmState, VolumeInfo};
use crate::files::executable;
use crate::host::{HostView, PathsView};
use crate::install::{bundle_of, policy_of, searched, InstallPlan};
use crate::install_state::{installation, VmInstallation};
use crate::instance::IdentityView;
use crate::lifecycle::state_word;
use crate::names::{
    digest_shaped, guest_password_allowed, name_allowed, user_allowed, uuid_shaped,
    volume_name_allowed, NAME_RULE, PASSWORD_RULE, USER_RULE,
};
use crate::password::CredentialPolicy;
use crate::path::{absolute, file_name, inside, join, parent, same_place};
use crate::remote::{on_console, unlocked_console};
use crate::service::before_deadline;
use crate::session::Reply;
use crate::tailscale::{digest_of, reported_state, TailscaleAction, TailscaleStateView};
use crate::text::{decimal, first_word, ipv4_address, lines, pieces};
use crate::unlock::{helper_plist, helper_result};
use crate::vm::listed;
use crate::volume::{device_of, identified, mounted_at, of_kind, unmounted, VolumeKind};
use vstd::prelude::*;

verus! {

/// A path to which more can be joined with a slash.
pub open spec fn open_path(path: Seq<char>) -> bool {
    path.len() > 0 && path.last() != '/'
}

/// A relative path that does not end in a slash.
pub open spec fn relative_path(path: Seq<char>) -> bool {
    open_path(path) && path[0] != '/'
}

/// What lies below a path.
pub open spec fn below(base: Seq<char>, path: Seq<char>) -> Seq<char> {
    base + seq!['/'] + path
}

/// Joining puts one slash between two paths; an absolute path stands for itself.
pub proof fn joined_paths_lie_below(base: Seq<char>, path: Seq<char>)
    ensures
        path.len() > 0 && path[0] == '/' ==> join(base, path) == path,
        open_path(base) && !(path.len() > 0 && path[0] == '/') ==> join(base, path) == below(
            base,
            path,
        ),
        base.len() > 0 && base.last() == '/' && !(path.len() > 0 && path[0] == '/') ==> join(
            base,
            path,
        ) == base + path,
        open_path(base) && relative_path(path) ==> open_path(join(base, path)),
        absolute(path) <==> path.len() > 0 && path[0] == '/',
{
    if open_path(base) && relative_path(path) {
        assert(join(base, path).last() == path.last());
    }
}

/// Where everything of a VM lies: all below one directory, but for the command, the
/// agent that launchd would load, and the Keychain of the user.
pub proof fn the_places_of_a_vm(home: Seq<char>, name: Seq<char>, tool: Seq<char>)
    requires
        open_path(home),
        relative_path(name),
        relative_path(tool),
    ensures
        ({
            let paths = PathsView::of(home, name);
            let base = below(home, "Library/Application Support/GremVM"@);
            let root = if name == "gremvm"@ {
                base
            } else {
                below(below(base, "instances"@), name)
            };
            &&& paths.home == home
            &&& paths.root == root
            &&& paths.config_dir == below(root, "config"@)
            &&& paths.config_file == below(below(root, "config"@), "config.json"@)
            &&& paths.ssh_key == below(below(root, "config"@), "id_ed25519"@)
            &&& paths.public_key() == below(below(root, "config"@), "id_ed25519"@) + ".pub"@
            &&& paths.state == below(root, "state"@)
            &&& paths.run_marker == below(below(root, "state"@), "run"@)
            &&& paths.installing == below(below(root, "state"@), "installing"@)
            &&& paths.provisioned == below(below(root, "state"@), "provisioned"@)
            &&& paths.service_plist == below(below(root, "state"@), "service.plist"@)
            &&& lock_file(paths) == below(below(root, "state"@), "management.lock"@)
            &&& helper_plist(paths) == below(below(root, "state"@), "keychain.plist"@)
            &&& helper_result(paths) == below(below(root, "state"@), "keychain.result"@)
            &&& paths.logs == below(root, "logs"@)
            &&& paths.runtime == below(root, "runtime"@)
            &&& paths.bin(tool) == below(below(below(root, "runtime"@), "bin"@), tool)
            &&& paths.guest_tailscale == below(root, "runtime/libexec/gremvm/tailscaled"@)
            &&& paths.command_directory == below(home, ".local/bin"@)
            &&& paths.command_link == below(below(home, ".local/bin"@), name)
            &&& paths.autoload_agent() == below(
                below(home, "Library/LaunchAgents"@),
                paths.service_label + ".plist"@,
            )
            &&& paths.login_keychain() == below(home, "Library/Keychains/login.keychain-db"@)
        }),
{
    reveal_strlit("Library/Application Support/GremVM");
    reveal_strlit("instances");
    reveal_strlit("config");
    reveal_strlit("config.json");
    reveal_strlit("id_ed25519");
    reveal_strlit("state");
    reveal_strlit("run");
    reveal_strlit("installing");
    reveal_strlit("provisioned");
    reveal_strlit("service.plist");
    reveal_strlit("management.lock");
    reveal_strlit("keychain.plist");
    reveal_strlit("keychain.result");
    reveal_strlit("logs");
    reveal_strlit("runtime");
    reveal_strlit("bin");
    reveal_strlit("runtime/libexec/gremvm/tailscaled");
    reveal_strlit(".local/bin");
    reveal_strlit("Library/LaunchAgents");
    reveal_strlit(".plist");
    reveal_strlit("io.gremvm.tart");
    reveal_strlit("io.gremvm.tart.");
    reveal_strlit("Library/Keychains/login.keychain-db");
    let paths = PathsView::of(home, name);
    let base = below(home, "Library/Application Support/GremVM"@);
    joined_paths_lie_below(home, "Library/Application Support/GremVM"@);
    joined_paths_lie_below(base, "instances"@);
    joined_paths_lie_below(below(base, "instances"@), name);
    let root = paths.root;
    assert(open_path(root));
    joined_paths_lie_below(root, "config"@);
    joined_paths_lie_below(paths.config_dir, "config.json"@);
    joined_paths_lie_below(paths.config_dir, "id_ed25519"@);
    joined_paths_lie_below(root, "state"@);
    joined_paths_lie_below(paths.state, "run"@);
    joined_paths_lie_below(paths.state, "installing"@);
    joined_paths_lie_below(paths.state, "provisioned"@);
    joined_paths_lie_below(paths.state, "service.plist"@);
    joined_paths_lie_below(paths.state, "management.lock"@);
    joined_paths_lie_below(paths.state, "keychain.plist"@);
    joined_paths_lie_below(paths.state, "keychain.result"@);
    joined_paths_lie_below(root, "logs"@);
    joined_paths_lie_below(root, "runtime"@);
    joined_paths_lie_below(paths.runtime, "bin"@);
    joined_paths_lie_below(join(paths.runtime, "bin"@), tool);
    joined_paths_lie_below(root, "runtime/libexec/gremvm/tailscaled"@);
    joined_paths_lie_below(home, ".local/bin"@);
    joined_paths_lie_below(paths.command_directory, name);
    joined_paths_lie_below(home, "Library/LaunchAgents"@);
    let agent = paths.service_label + ".plist"@;
    assert(agent[0] == 'i');
    joined_paths_lie_below(join(home, "Library/LaunchAgents"@), agent);
    joined_paths_lie_below(home, "Library/Keychains/login.keychain-db"@);
}

/// The names under which launchd, the Keychain and the user know a VM.
pub proof fn the_names_of_a_vm(home: Seq<char>, name: Seq<char>, host: HostView)
    ensures
        ({
            let paths = PathsView::of(home, name);
            &&& paths.identity == if name == "gremvm"@ {
                IdentityView::Gremvm
            } else {
                IdentityView::Named(name)
            }
            &&& paths.command_name() == name
            &&& paths.service_label == if name == "gremvm"@ {
                "io.gremvm.tart"@
            } else {
                "io.gremvm.tart."@ + name
            }
            &&& paths.keychain_helper_label == if name == "gremvm"@ {
                "io.gremvm.keychain"@
            } else {
                "io.gremvm.keychain."@ + name
            }
            &&& paths.password_service == paths.service_label + ".gui-password"@
            &&& paths.install_hint() == "nix run github:jul-sh/gremvm -- install "@ + name
            &&& host.user_domain() == "user/"@ + decimal(host.user_id as nat)
            &&& paths.service_target(host) == "user/"@ + decimal(host.user_id as nat) + "/"@
                + paths.service_label
            &&& paths.keychain_helper_target(host) == "user/"@ + decimal(host.user_id as nat)
                + "/"@ + paths.keychain_helper_label
        }),
{
}

/// A command has paths where its name is allowed and there is a home directory. Which
/// it manages is the last step of what it was called by.
pub proof fn a_command_needs_a_name_and_a_home(name: Seq<char>, host: HostView)
    ensures
        !name_allowed(name) ==> PathsView::discover(name, host) == Err::<PathsView, Messages>(
            seq![
                "name must be 1-64 letters, numbers, dots, underscores, or hyphens and start with a letter or number"@,
            ],
        ),
        name_allowed(name) && (host.home is None || host.home->0.len() == 0)
            ==> PathsView::discover(name, host) == Err::<PathsView, Messages>(
            seq!["HOME is not set"@],
        ),
        name_allowed(name) && host.home is Some && host.home->0.len() > 0 ==> PathsView::discover(
            name,
            host,
        ) == Ok::<PathsView, Messages>(PathsView::of(host.home->0, name)),
        called_name(None) == "gremvm"@,
        file_name(name) is None ==> called_name(Some(name)) == "gremvm"@,
        file_name(name) matches Some(last) ==> called_name(Some(name)) == last,
{
}

/// Which characters names, accounts and passwords may have, and how many.
pub proof fn the_rules_for_names(text: Seq<char>)
    ensures
        name_allowed(text) <==> {
            &&& 1 <= text.len() <= 64
            &&& 'a' <= text[0] <= 'z' || 'A' <= text[0] <= 'Z' || '0' <= text[0] <= '9'
            &&& forall|i: int|
                0 <= i < text.len() ==> 'a' <= #[trigger] text[i] <= 'z' || 'A' <= text[i] <= 'Z'
                    || '0' <= text[i] <= '9' || text[i] == '.' || text[i] == '_' || text[i] == '-'
        },
        user_allowed(text) <==> {
            &&& 1 <= text.len() <= 32
            &&& 'a' <= text[0] <= 'z'
            &&& forall|i: int|
                0 <= i < text.len() ==> 'a' <= #[trigger] text[i] <= 'z' || '0' <= text[i] <= '9'
                    || text[i] == '_' || text[i] == '-'
            &&& text != "root"@ && text != "daemon"@ && text != "nobody"@ && text != "guest"@
        },
        guest_password_allowed(text) <==> 8 <= text.len() <= 128,
        volume_name_allowed(text) <==> {
            &&& text.len() > 0
            &&& text != "."@ && text != ".."@
            &&& forall|i: int|
                0 <= i < text.len() ==> #[trigger] text[i] != '/' && !((text[i] as u32) <= 0x1f)
                    && !(0x7f <= text[i] as u32 <= 0x9f)
        },
        uuid_shaped(text) <==> {
            &&& text.len() == 36
            &&& text[8] == '-' && text[13] == '-' && text[18] == '-' && text[23] == '-'
            &&& forall|i: int|
                0 <= i < 36 && i != 8 && i != 13 && i != 18 && i != 23 ==> '0' <= #[trigger] text[i]
                    <= '9' || 'a' <= text[i] <= 'f' || 'A' <= text[i] <= 'F'
        },
        digest_shaped(text) <==> {
            &&& text.len() == 64
            &&& forall|i: int|
                0 <= i < 64 ==> '0' <= #[trigger] text[i] <= '9' || 'a' <= text[i] <= 'f' || 'A'
                    <= text[i] <= 'F'
        },
        USER_RULE@
            == "guest user must be 1-32 lowercase letters, numbers, underscores, or hyphens, start with a letter, and not be a reserved account"@,
        PASSWORD_RULE@ == "guest password must be 8-128 characters"@,
        NAME_RULE@
            == "name must be 1-64 letters, numbers, dots, underscores, or hyphens and start with a letter or number"@,
{
}

/// A recorded volume is accepted exactly where its directory is absolute and lies on
/// it, its mount point is absolute and not the root, and its name and UUID are of the
/// right shape.
pub proof fn recorded_volumes_are_checked(volume: VolumeStorageView)
    ensures
        volume_reference(volume) is Ok <==> {
            &&& volume.path.len() > 0 && volume.path[0] == '/'
            &&& volume.mount_point.len() > 0 && volume.mount_point[0] == '/'
            &&& !same_place(volume.mount_point, "/"@)
            &&& volume_name_allowed(volume.name)
            &&& uuid_shaped(volume.uuid)
            &&& same_place(volume.path, volume.mount_point) || inside(
                volume.path,
                volume.mount_point,
            )
        },
        storage_reference(StorageView::Default) is Ok,
        storage_reference(StorageView::Directory { path: volume.path }) is Ok <==> absolute(
            volume.path,
        ),
        storage_reference(StorageView::PlainVolume(volume)) == volume_reference(volume),
        storage_reference(StorageView::EncryptedVolume(volume)) == volume_reference(volume),
        !absolute(volume.path) ==> volume_reference(volume) == Err::<(), Messages>(
            seq!["storage directory must be absolute"@],
        ) && storage_reference(StorageView::Directory { path: volume.path }) == Err::<(), Messages>(
            seq!["storage directory must be absolute"@],
        ),
{
}

/// Saved settings are loaded exactly where every one of them is allowed, and belong
/// to the command that loads them; they are then what the file says.
pub proof fn saved_settings_are_checked(stored: StoredConfig, identity: IdentityView)
    ensures
        loaded(stored, identity) is Ok <==> {
            &&& name_allowed(stored.vm_name@)
            &&& identity matches IdentityView::Named(name) ==> stored.vm_name@ == name
            &&& user_allowed(config_of(stored).guest_user)
            &&& storage_reference(storage_of(stored.storage)) is Ok
            &&& 1 <= stored.cpu_count <= 64
            &&& 4 <= stored.memory_gb <= 256
            &&& 50 <= stored.disk_gb
        },
        loaded(stored, identity) matches Ok(config) ==> {
            &&& config.vm_name == stored.vm_name@
            &&& config.guest_user == match stored.guest_user {
                Some(user) => user@,
                None => "admin"@,
            }
            &&& config.cpu_count == stored.cpu_count
            &&& config.memory_gb == stored.memory_gb
            &&& config.disk_gb == stored.disk_gb
            &&& config.storage == storage_of(stored.storage)
        },
        match stored.storage {
            StoredStorage::Default => storage_of(stored.storage) == StorageView::Default,
            StoredStorage::Directory { path } => storage_of(stored.storage)
                == StorageView::Directory { path: path@ },
            StoredStorage::PlainVolume(volume) => storage_of(stored.storage)
                == StorageView::PlainVolume(volume@),
            StoredStorage::EncryptedVolume(volume) => storage_of(stored.storage)
                == StorageView::EncryptedVolume(volume@),
            StoredStorage::LegacyVolume { name, uuid } => storage_of(stored.storage)
                == StorageView::EncryptedVolume(
                VolumeStorageView {
                    path: join("/Volumes"@, name@),
                    mount_point: join("/Volumes"@, name@),
                    name: name@,
                    uuid: uuid@,
                },
            ),
        },
{
}

/// Why settings are not loaded: the first rule that they break says so.
pub proof fn refused_settings_say_why(config: ConfigView, identity: IdentityView)
    ensures
        ({
            let named = identity matches IdentityView::Named(name) && name != config.vm_name;
            let out = config_check(config, identity);
            &&& !name_allowed(config.vm_name) ==> out == Err::<(), Messages>(seq![NAME_RULE@])
            &&& name_allowed(config.vm_name) && named ==> out == Err::<(), Messages>(
                seq![
                    "configuration belongs to command '"@ + config.vm_name + "', not '"@
                        + identity->0 + "'"@,
                ],
            )
            &&& name_allowed(config.vm_name) && !named ==> {
                &&& !user_allowed(config.guest_user) ==> out == Err::<(), Messages>(
                    seq![USER_RULE@],
                )
                &&& user_allowed(config.guest_user) ==> {
                    &&& storage_reference(config.storage) is Err ==> out == storage_reference(
                        config.storage,
                    )
                    &&& storage_reference(config.storage) is Ok ==> {
                        &&& !(1 <= config.cpu_count <= 64) ==> out == Err::<(), Messages>(
                            seq!["invalid CPU count"@],
                        )
                        &&& 1 <= config.cpu_count <= 64 && !(4 <= config.memory_gb <= 256) ==> out
                            == Err::<(), Messages>(seq!["invalid memory size"@])
                        &&& 1 <= config.cpu_count <= 64 && 4 <= config.memory_gb <= 256
                            && config.disk_gb < 50 ==> out == Err::<(), Messages>(
                            seq!["invalid disk size"@],
                        )
                    }
                }
            }
        }),
{
}

/// Two settings describe one VM: they agree on everything, and name the same places.
pub open spec fn same_vm(left: ConfigView, right: ConfigView) -> bool {
    &&& left.vm_name == right.vm_name
    &&& left.guest_user == right.guest_user
    &&& left.cpu_count == right.cpu_count
    &&& left.memory_gb == right.memory_gb
    &&& left.disk_gb == right.disk_gb
    &&& match (left.storage, right.storage) {
        (StorageView::Default, StorageView::Default) => true,
        (StorageView::Directory { path: one }, StorageView::Directory { path: other }) => {
            same_place(one, other)
        },
        (StorageView::PlainVolume(one), StorageView::PlainVolume(other))
        | (StorageView::EncryptedVolume(one), StorageView::EncryptedVolume(other)) => {
            &&& same_place(one.path, other.path)
            &&& same_place(one.mount_point, other.mount_point)
            &&& one.name == other.name
            &&& one.uuid == other.uuid
        },
        _ => false,
    }
}

/// Settings are the same only where everything about the VM is.
pub proof fn same_settings_describe_one_vm(left: ConfigView, right: ConfigView)
    ensures
        same_settings(left, right) <==> same_vm(left, right),
        same_settings(left, left),
        same_settings(left, right) == same_settings(right, left),
{
}

/// The word for every state that a VM can be in.
pub proof fn every_state_has_its_word(state: VmState, addressed: bool, supervised: bool)
    ensures
        state_word(false, state, addressed, supervised) == "incomplete"@,
        state_word(true, VmState::Running, true, supervised) == "running"@,
        state_word(true, VmState::Running, false, supervised) == "running-address-unknown"@,
        state_word(true, VmState::Suspended, addressed, true) == "starting"@,
        state_word(true, VmState::Stopped, addressed, true) == "starting"@,
        state_word(true, VmState::Suspended, addressed, false) == "suspended"@,
        state_word(true, VmState::Stopped, addressed, false) == "stopped"@,
{
}

/// What the markers say of a VM, and what an installation then may create.
pub proof fn markers_tell_what_to_do(provisioned: bool, installing: bool)
    ensures
        installation(false, provisioned, installing) == VmInstallation::Absent,
        installation(true, true, installing) == VmInstallation::Ready,
        installation(true, false, true) == VmInstallation::Partial,
        installation(true, false, false) == VmInstallation::Unmanaged,
        policy_of(InstallPlan::Create) == CredentialPolicy::CreateIfMissing,
        policy_of(InstallPlan::Update) == CredentialPolicy::Existing,
{
}

/// The actions that are done one at a time on a VM are those that change it.
pub proof fn changes_are_made_one_at_a_time(action: ActionView)
    ensures
        action.manages() <==> {
            ||| action is Start
            ||| action is Stop
            ||| action is Restart
            ||| action is Console
            ||| action is Uninstall
            ||| action == (ActionView::Tailscale { action: TailscaleAction::Setup })
        },
{
}

/// How the ends of programs, files and times are told.
pub proof fn ends_are_told(
    output: Output,
    reply: Reply,
    start: u64,
    limit: int,
    now: u64,
)
    ensures
        output.succeeded() <==> output.code == Some(0i32),
        executable(reply) <==> (reply matches Reply::Mode { file, mode } && file && mode & 0o111
            != 0),
        before_deadline(start, limit, now) <==> now - start < limit,
{
}

/// A line ending is one line feed, with a carriage return before it or not; nothing
/// else is taken off a password.
pub proof fn only_a_line_ending_is_taken_off(bytes: Seq<u8>)
    ensures
        without_line_ending(bytes + seq![13u8, 10u8]) == bytes,
        (bytes.len() == 0 || bytes.last() != 13u8) ==> without_line_ending(bytes + seq![10u8])
            == bytes,
        (bytes.len() == 0 || bytes.last() != 10u8) ==> without_line_ending(bytes) == bytes,
{
    let both = bytes + seq![13u8, 10u8];
    assert(both.drop_last() =~= bytes + seq![13u8]);
    assert((bytes + seq![13u8]).drop_last() =~= bytes);
    assert((bytes + seq![10u8]).drop_last() =~= bytes);
}

/// An error is told on one line, from the outermost message to the cause.
pub proof fn errors_are_told_on_one_line(first: Seq<char>, second: Seq<char>, rest: Messages)
    ensures
        rendered(seq![first]) == first,
        rendered(seq![first, second] + rest) == first + ": "@ + rendered(seq![second] + rest),
        headline(seq![first] + rest) == first,
{
    let all = seq![first, second] + rest;
    assert(all.skip(1) =~= seq![second] + rest);
    assert(all[0] == first);
}

/// The host runs a VM on the volume that was recorded: the one of that name and UUID,
/// encrypted or not as it was, unlocked, and at the place that was recorded.
pub proof fn volumes_are_recognised(
    volume: VolumeInfo,
    storage: VolumeStorageView,
    place: Seq<char>,
)
    ensures
        identified(volume, storage) <==> volume.volume_name@ == storage.name
            && volume.volume_uuid@ == storage.uuid,
        of_kind(volume, VolumeKind::Plain) <==> !volume.file_vault,
        of_kind(volume, VolumeKind::Encrypted) <==> volume.file_vault
            && volume.filesystem_type@ == "apfs"@,
        mounted_at(volume, place) <==> (volume.mount_point matches Some(point) && same_place(
            point@,
            place,
        )),
        unmounted(volume) <==> (volume.mount_point matches Some(point) ==> point@.len() == 0),
{
}

/// A VM is listed where one whole line is its name.
pub proof fn a_listed_vm_has_a_line(listing: Seq<char>, name: Seq<char>)
    ensures
        listed(listing, name) <==> exists|i: int|
            0 <= i < lines(listing).len() && #[trigger] lines(listing)[i] == name,
        lines(listing).len() > 1 ==> device_of(listing) == first_word(lines(listing)[1]),
        lines(listing).len() <= 1 ==> device_of(listing) is None,
{
}

/// The user is at the console in a session of their own that is on it; the first such
/// one counts, and it must be logged in and unlocked.
pub proof fn the_user_at_the_console(
    users: Seq<ConsoleSession>,
    user_id: u32,
    console: ConsoleInfo,
    session: ConsoleSession,
)
    ensures
        on_console(users, user_id) is Some <==> exists|i: int|
            0 <= i < users.len() && (#[trigger] users[i]).user_id == user_id
                && users[i].on_console,
        on_console(users, user_id) matches Some(own) ==> own.user_id == user_id && own.on_console
            && users.contains(own),
        unlocked_console(console, session) <==> !console.locked && session.login_done
            && !session.screen_locked,
    decreases users.len(),
{
    if users.len() > 0 && !(users[0].user_id == user_id && users[0].on_console) {
        let rest = users.drop_first();
        the_user_at_the_console(rest, user_id, console, session);
        assert(forall|i: int| 0 <= i < rest.len() ==> rest[i] == users[i + 1]);
        if on_console(users, user_id) is Some {
            let i = choose|i: int|
                0 <= i < rest.len() && (#[trigger] rest[i]).user_id == user_id
                    && rest[i].on_console;
            assert(users[i + 1].user_id == user_id);
            let own = on_console(users, user_id)->0;
            let at = choose|at: int| 0 <= at < rest.len() && rest[at] == own;
            assert(users[at + 1] == own);
        }
        if exists|i: int|
            0 <= i < users.len() && (#[trigger] users[i]).user_id == user_id
                && users[i].on_console {
            let i = choose|i: int|
                0 <= i < users.len() && (#[trigger] users[i]).user_id == user_id
                    && users[i].on_console;
            assert(rest[i - 1] == users[i]);
        }
    }
}

/// A directory is searched for commands where one entry of the search path leads
/// there.
pub proof fn searched_directories_are_entries(search_path: Seq<char>, directory: Seq<char>)
    ensures
        !searched(None, directory),
        searched(Some(search_path), directory) <==> exists|i: int|
            0 <= i < pieces(search_path, ':').len() && same_place(
                #[trigger] pieces(search_path, ':')[i],
                directory,
            ),
{
}

/// An executable belongs to the bundle two directories up.
pub proof fn bundles_lie_two_directories_up(bundle: Seq<char>, directory: Seq<char>, file: Seq<char>)
    requires
        open_path(bundle),
        directory.len() > 0,
        !directory.contains('/'),
        file.len() > 0,
        !file.contains('/'),
    ensures
        parent(below(bundle, directory)) == Some(bundle),
        bundle_of(below(below(bundle, directory), file)) == Some(bundle),
{
    lemma_parent(bundle, directory);
    assert(open_path(below(bundle, directory))) by {
        assert(below(bundle, directory).last() == directory.last());
    }
    lemma_parent(below(bundle, directory), file);
}

proof fn lemma_parent(base: Seq<char>, step: Seq<char>)
    requires
        base.len() > 0,
        step.len() > 0,
        !step.contains('/'),
    ensures
        parent(below(base, step)) == Some(base),
{
    let path = below(base, step);
    assert(path[base.len() as int] == '/');
    path.index_of_last_ensures('/');
    let end = path.index_of_last('/')->0;
    assert(end == base.len()) by {
        if end > base.len() {
            assert(step[end - base.len() - 1] == '/');
        }
    }
    assert(path.take(end) =~= base);
}

/// A report on Tailscale is one word, with one address below it where Tailscale is
/// connected; anything else is refused.
pub proof fn reports_on_tailscale_are_read(report: Seq<char>)
    ensures
        ({
            let rows = lines(report);
            let out = reported_state(report);
            &&& out == Ok::<TailscaleStateView, Messages>(TailscaleStateView::NotInstalled)
                <==> rows == seq!["not-installed"@]
            &&& out == Ok::<TailscaleStateView, Messages>(TailscaleStateView::Disconnected)
                <==> rows == seq!["disconnected"@]
            &&& out matches Ok(TailscaleStateView::Connected { ip }) ==> rows == seq![
                "connected"@,
                ip,
            ] && ipv4_address(ip)
            &&& rows.len() == 2 && rows[0] == "connected"@ && ipv4_address(rows[1]) ==> out == Ok::<
                TailscaleStateView,
                Messages,
            >(TailscaleStateView::Connected { ip: rows[1] })
        }),
{
    reveal_strlit("not-installed");
    reveal_strlit("disconnected");
    reveal_strlit("connected");
    assert("not-installed"@.len() == 13);
    assert("disconnected"@.len() == 12);
    assert("connected"@.len() == 9);
    let rows = lines(report);
    if rows.len() == 1 {
        assert(rows =~= seq![rows[0]]);
    }
    if rows.len() == 2 {
        assert(rows =~= seq![rows[0], rows[1]]);
    }
}

/// The digest is the first word that the tool wrote, and of the right shape.
pub proof fn digests_are_first_words(report: Seq<char>)
    ensures
        digest_of(report) matches Ok(digest) ==> first_word(report) == Some(digest)
            && digest_shaped(digest),
        first_word(report) matches Some(word) && digest_shaped(word) ==> digest_of(report) == Ok::<
            Seq<char>,
            Messages,
        >(first_word(report)->0),
{
}

} // verus!
