//! What the procedures that prepare the Keychain and the storage can ask of the
//! host.
//!
//! The replies of the host decide how far a procedure gets and which way it
//! takes. Each predicate that ends in `_asks` says what can be asked for on any
//! way, and the proof that ends in `_bounded` shows it of a procedure.

use crate::app::AppView;
use crate::command::{CommandView, InputView, Sink};
use crate::config::{StorageView, VolumeStorageView};
use crate::facts::CryptoUser;
use crate::host::PathsView;
use crate::keychain::find_command;
use crate::password::{CredentialPolicy, PasswordChoice, SECRET_BYTES};
use crate::service::launchctl;
use crate::session::{Ask, HaltView, Step, Tape};
use crate::unlock::{
    helper_plist, helper_result, internal_keychain_steps, unlock_keychain_steps, KeychainHelperMode,
    KeychainMode,
};
use crate::volume::{
    any_user_steps, info_command, mount_command, unlock_command, users_command, verify_command,
    volume_password_valid_steps, VOLUME_PASSWORD_SERVICE, StorageAccess, VolumeKind,
};
use vstd::prelude::*;

verus! {

impl Tape {
    /// No more was read than the host replied.
    pub open spec fn valid(self) -> bool {
        self.read <= self.replies.len()
    }
}

/// A procedure reads on from where it stands, keeps no more replies than there
/// are, and asks for nothing else.
pub open spec fn bounded<T>(step: Step<T>, tape: Tape, asks: spec_fn(Ask) -> bool) -> bool {
    &&& step.tape.replies == tape.replies
    &&& match step.out {
        Err(HaltView::Pending { keep, request }) => {
            &&& tape.read <= keep <= tape.replies.len()
            &&& asks(request)
        },
        _ => tape.read <= step.tape.read <= tape.replies.len(),
    }
}

/// A request to run a command, whatever that reads.
pub open spec fn runs(request: Ask, command: CommandView) -> bool {
    request matches Ask::Run(asked) && asked.input(InputView::Closed) == command.input(
        InputView::Closed,
    )
}

// --------------------------------------------------------------------- files
/// Making sure that a directory is there.
pub open spec fn directory_asks(path: Seq<char>, request: Ask) -> bool {
    ||| request == Ask::Exists(path)
    ||| request == Ask::IsDirectory(path)
    ||| request == Ask::CreateDirectory(path)
}

/// Looking at a service.
pub open spec fn service_asks(target: Seq<char>, request: Ask) -> bool {
    request == Ask::Run(launchctl("print"@, target))
}

/// Unloading a service.
pub open spec fn unload_asks(target: Seq<char>, request: Ask) -> bool {
    ||| service_asks(target, request)
    ||| request == Ask::Run(launchctl("bootout"@, target))
}

// ------------------------------------------------------------------ Keychain
/// Looking at the Keychain of this session.
pub open spec fn unlocked_asks(paths: PathsView, request: Ask) -> bool {
    request == Ask::Run(
        CommandView::new("/usr/bin/security"@).arg("show-keychain-info"@).arg(
            paths.login_keychain(),
        ).streams(Sink::Discarded),
    )
}

/// Finding the terminal of the user.
pub open spec fn terminal_asks(request: Ask) -> bool {
    ||| request == Ask::Terminals
    ||| request == Ask::Run(CommandView::new("/usr/bin/tty"@).input(InputView::Inherited))
}

/// Hiding what the user types, and noting signals meanwhile.
pub open spec fn hiding_asks(request: Ask) -> bool {
    ||| request == Ask::WatchSignals
    ||| request == Ask::SignalPending
    ||| request == Ask::UnwatchSignals
    ||| request is HideInput
    ||| request == Ask::RestoreInput
    ||| request is Sleep
}

/// Unlocking the Keychain of this session.
pub open spec fn current_keychain_asks(paths: PathsView, request: Ask) -> bool {
    ||| unlocked_asks(paths, request)
    ||| terminal_asks(request)
    ||| hiding_asks(request)
    ||| request == Ask::Spawn(
        CommandView::new("/usr/bin/security"@).arg("unlock-keychain"@).arg(
            paths.login_keychain(),
        ).input(InputView::Inherited).streams(Sink::Inherited),
    )
    ||| request == Ask::PollChild
    ||| request == Ask::KillChild
}

pub broadcast proof fn unlock_keychain_bounded(paths: PathsView, terminal: Seq<char>, tape: Tape)
    requires
        tape.valid(),
    ensures
        bounded(
            #[trigger] unlock_keychain_steps(paths, terminal, tape),
            tape,
            |request: Ask| current_keychain_asks(paths, request),
        ),
{
}

pub broadcast proof fn ensure_current_keychain_bounded(app: AppView, tape: Tape)
    requires
        tape.valid(),
    ensures
        bounded(
            #[trigger] app.ensure_current_keychain(tape),
            tape,
            |request: Ask| current_keychain_asks(app.paths, request),
        ),
{
    broadcast use unlock_keychain_bounded;

    reveal(AppView::ensure_current_keychain);
}

/// Removing what a Keychain helper left.
pub open spec fn cleanup_asks(app: AppView, request: Ask) -> bool {
    ||| unload_asks(app.paths.keychain_helper_target(app.host), request)
    ||| request == Ask::RemoveFile(helper_plist(app.paths))
    ||| request == Ask::RemoveFile(helper_result(app.paths))
}

pub broadcast proof fn cleanup_keychain_helper_bounded(app: AppView, tape: Tape)
    requires
        tape.valid(),
    ensures
        bounded(
            #[trigger] app.cleanup_keychain_helper(tape),
            tape,
            |request: Ask| cleanup_asks(app, request),
        ),
{
    reveal(AppView::cleanup_keychain_helper);
}

/// The same, where the directory may be missing too.
pub open spec fn clear_asks(app: AppView, request: Ask) -> bool {
    ||| cleanup_asks(app, request)
    ||| directory_asks(app.paths.state, request)
}

/// Running the Keychain helper in the background session.
pub open spec fn helper_asks(app: AppView, request: Ask) -> bool {
    ||| clear_asks(app, request)
    ||| (request matches Ask::StagePlist { directory, plist, .. } && directory == app.paths.state
        && plist is KeychainHelper)
    ||| request == Ask::PublishStaged(helper_plist(app.paths))
    ||| request == Ask::Run(
        launchctl("bootstrap"@, app.host.user_domain()).arg(helper_plist(app.paths)),
    )
    ||| request == Ask::ReadText(helper_result(app.paths))
    ||| request == Ask::Now
    ||| hiding_asks(request)
}

pub broadcast proof fn run_keychain_helper_on_bounded(
    app: AppView,
    mode: Seq<char>,
    terminal: Seq<char>,
    limit: u64,
    tape: Tape,
)
    requires
        tape.valid(),
    ensures
        bounded(
            #[trigger] app.run_keychain_helper_on(mode, terminal, limit, tape),
            tape,
            |request: Ask| helper_asks(app, request),
        ),
{
    broadcast use cleanup_keychain_helper_bounded;

    reveal(AppView::run_keychain_helper_on);
}

/// Making sure that a Keychain is unlocked, in either session.
pub open spec fn keychain_asks(app: AppView, request: Ask) -> bool {
    ||| current_keychain_asks(app.paths, request)
    ||| helper_asks(app, request)
}

pub broadcast proof fn ensure_background_keychain_bounded(app: AppView, tape: Tape)
    requires
        tape.valid(),
    ensures
        bounded(
            #[trigger] app.ensure_background_keychain(tape),
            tape,
            |request: Ask| keychain_asks(app, request),
        ),
{
    broadcast use run_keychain_helper_on_bounded;

    reveal(AppView::ensure_background_keychain);
    reveal(AppView::background_check);
    reveal(AppView::background_unlock);
}

/// Only the background session needs the helper.
pub open spec fn unlocking_asks(app: AppView, mode: KeychainMode, request: Ask) -> bool {
    match mode {
        KeychainMode::Current => current_keychain_asks(app.paths, request),
        KeychainMode::BackgroundInteractive => keychain_asks(app, request),
        KeychainMode::Background => unlocked_asks(app.paths, request),
    }
}

pub broadcast proof fn ensure_keychain_bounded(app: AppView, mode: KeychainMode, tape: Tape)
    requires
        tape.valid(),
    ensures
        bounded(
            #[trigger] app.ensure_keychain(mode, tape),
            tape,
            |request: Ask| unlocking_asks(app, mode, request),
        ),
{
    broadcast use {ensure_current_keychain_bounded, ensure_background_keychain_bounded};

    reveal(AppView::ensure_keychain);
}

pub open spec fn helper_action_asks(paths: PathsView, request: Ask) -> bool {
    ||| current_keychain_asks(paths, request)
    ||| directory_asks(paths.state, request)
    ||| (request matches Ask::PublishText { path, .. } && path == helper_result(paths))
}

pub broadcast proof fn internal_keychain_bounded(
    paths: PathsView,
    mode: KeychainHelperMode,
    tape: Tape,
)
    requires
        tape.valid(),
    ensures
        bounded(
            #[trigger] internal_keychain_steps(paths, mode, tape),
            tape,
            |request: Ask| helper_action_asks(paths, request),
        ),
{
    broadcast use unlock_keychain_bounded;

}

// ----------------------------------------------------------------- passwords
/// Reading a password from the Keychain.
pub open spec fn find_asks(
    paths: PathsView,
    account: Seq<char>,
    service: Seq<char>,
    request: Ask,
) -> bool {
    request == Ask::Run(find_command(account, service, paths.login_keychain()))
}

/// Storing a password in the Keychain: what is stored is read.
pub open spec fn store_asks(request: Ask) -> bool {
    runs(
        request,
        CommandView::new("/usr/bin/security"@).arg("-i"@).output(Sink::Discarded),
    )
}

/// Reading the guest password.
pub open spec fn guest_password_asks(app: AppView, request: Ask) -> bool {
    ||| current_keychain_asks(app.paths, request)
    ||| find_asks(app.paths, app.config.guest_user, app.paths.password_service, request)
}

pub broadcast proof fn guest_password_bounded(app: AppView, tape: Tape)
    requires
        tape.valid(),
    ensures
        bounded(
            #[trigger] app.guest_password(tape),
            tape,
            |request: Ask| guest_password_asks(app, request),
        ),
{
    broadcast use ensure_keychain_bounded;

    reveal(AppView::guest_password);
}

/// Creating a guest password.
pub open spec fn new_password_asks(request: Ask) -> bool {
    ||| request is PromptPassword
    ||| request == Ask::RandomBytes(SECRET_BYTES)
    ||| store_asks(request)
}

/// Making sure that there is a guest password. A VM that exists gets no new one.
pub open spec fn prepare_password_asks(
    app: AppView,
    policy: CredentialPolicy,
    request: Ask,
) -> bool {
    ||| guest_password_asks(app, request)
    ||| (policy == CredentialPolicy::CreateIfMissing && new_password_asks(request))
}

pub broadcast proof fn prepare_guest_password_bounded(
    app: AppView,
    policy: CredentialPolicy,
    choice: PasswordChoice,
    tape: Tape,
)
    requires
        tape.valid(),
    ensures
        bounded(
            #[trigger] app.prepare_guest_password(policy, choice, tape),
            tape,
            |request: Ask| prepare_password_asks(app, policy, request),
        ),
{
    broadcast use {ensure_keychain_bounded, guest_password_bounded};

    reveal(AppView::prepare_guest_password);
    reveal(AppView::create_guest_password);
}

// ------------------------------------------------------------------- storage
/// Inspecting a volume.
pub open spec fn inspect_asks(uuid: Seq<char>, request: Ask) -> bool {
    ||| request == Ask::Run(info_command(uuid))
    ||| request is DecodeVolume
}

/// Trying a password on a volume. It is read, and the volume stays as it is.
pub open spec fn verify_asks(uuid: Seq<char>, request: Ask) -> bool {
    ||| request == Ask::Run(users_command(uuid))
    ||| request is DecodeCryptoUsers
    ||| exists|user: Seq<char>| runs(request, #[trigger] verify_command(uuid, user))
}

pub broadcast proof fn any_user_bounded(
    uuid: Seq<char>,
    password: Seq<u8>,
    users: Seq<CryptoUser>,
    at: nat,
    tape: Tape,
)
    requires
        tape.valid(),
    ensures
        bounded(
            #[trigger] any_user_steps(uuid, password, users, at, tape),
            tape,
            |request: Ask| verify_asks(uuid, request),
        ),
    decreases users.len() - at,
{
    if at < users.len() {
        let user = users[at as int].uuid@;
        assert(runs(
            Ask::Run(verify_command(uuid, user).input(InputView::Bytes(password))),
            verify_command(uuid, user),
        ));
        if tape.read < tape.replies.len() {
            any_user_bounded(
                uuid,
                password,
                users,
                at + 1,
                Tape { read: tape.read + 1, ..tape },
            );
        }
    }
}

pub broadcast proof fn volume_password_valid_bounded(
    uuid: Seq<char>,
    password: Seq<u8>,
    tape: Tape,
)
    requires
        tape.valid(),
    ensures
        bounded(
            #[trigger] volume_password_valid_steps(uuid, password, tape),
            tape,
            |request: Ask| verify_asks(uuid, request),
        ),
{
    broadcast use any_user_bounded;

}

/// Finding the password of a volume.
pub open spec fn volume_password_asks(
    app: AppView,
    storage: VolumeStorageView,
    request: Ask,
) -> bool {
    ||| current_keychain_asks(app.paths, request)
    ||| find_asks(app.paths, storage.uuid, VOLUME_PASSWORD_SERVICE@, request)
    ||| find_asks(app.paths, storage.uuid, storage.uuid, request)
    ||| verify_asks(storage.uuid, request)
    ||| request is PromptPassword
    ||| store_asks(request)
}

pub broadcast proof fn stored_volume_password_bounded(
    app: AppView,
    storage: VolumeStorageView,
    tape: Tape,
)
    requires
        tape.valid(),
    ensures
        bounded(
            #[trigger] app.stored_volume_password(storage.uuid, tape),
            tape,
            |request: Ask| volume_password_asks(app, storage, request),
        ),
{
    broadcast use volume_password_valid_bounded;

    reveal(AppView::stored_volume_password);
}

pub broadcast proof fn prompt_volume_password_bounded(
    app: AppView,
    storage: VolumeStorageView,
    tape: Tape,
)
    requires
        tape.valid(),
    ensures
        bounded(
            #[trigger] app.prompt_volume_password(storage, tape),
            tape,
            |request: Ask| volume_password_asks(app, storage, request),
        ),
{
    broadcast use volume_password_valid_bounded;

    reveal(AppView::prompt_volume_password);
}

pub broadcast proof fn volume_unlock_bounded(
    app: AppView,
    storage: VolumeStorageView,
    kind: VolumeKind,
    access: StorageAccess,
    locked: bool,
    tape: Tape,
)
    requires
        tape.valid(),
    ensures
        bounded(
            #[trigger] app.volume_unlock(storage, kind, access, locked, tape),
            tape,
            |request: Ask| volume_password_asks(app, storage, request),
        ),
{
    broadcast use {
        ensure_keychain_bounded,
        stored_volume_password_bounded,
        prompt_volume_password_bounded,
    };

    reveal(AppView::volume_unlock);
}

/// Trying whether a directory can be used.
pub open spec fn usable_asks(path: Seq<char>, request: Ask) -> bool {
    ||| request == Ask::IsDirectory(path)
    ||| request == Ask::Canonicalize(path)
    ||| request is ProbeWritable
}

/// Unlocking and mounting a volume.
pub open spec fn volume_asks(app: AppView, storage: VolumeStorageView, request: Ask) -> bool {
    ||| inspect_asks(storage.uuid, request)
    ||| volume_password_asks(app, storage, request)
    ||| runs(request, unlock_command(storage.uuid))
    ||| request == Ask::Exists(storage.mount_point)
    ||| request == Ask::IsDirectory(storage.mount_point)
    ||| request == Ask::IsEmpty(storage.mount_point)
    ||| request == Ask::Run(mount_command(storage))
    ||| usable_asks(storage.path, request)
}

pub broadcast proof fn unlocked_volume_bounded(
    app: AppView,
    storage: VolumeStorageView,
    kind: VolumeKind,
    access: StorageAccess,
    tape: Tape,
)
    requires
        tape.valid(),
    ensures
        bounded(
            #[trigger] app.unlocked_volume(storage, kind, access, tape),
            tape,
            |request: Ask| volume_asks(app, storage, request),
        ),
{
    broadcast use volume_unlock_bounded;

    reveal(AppView::unlocked_volume);
}

pub broadcast proof fn ensure_volume_bounded(
    app: AppView,
    storage: VolumeStorageView,
    kind: VolumeKind,
    access: StorageAccess,
    tape: Tape,
)
    requires
        tape.valid(),
    ensures
        bounded(
            #[trigger] app.ensure_volume(storage, kind, access, tape),
            tape,
            |request: Ask| volume_asks(app, storage, request),
        ),
{
    broadcast use unlocked_volume_bounded;

    reveal(AppView::ensure_volume);
}

/// Making the storage of the VM available.
pub open spec fn storage_asks(app: AppView, request: Ask) -> bool {
    match app.config.storage {
        StorageView::Default => false,
        StorageView::Directory { path } => usable_asks(path, request),
        StorageView::PlainVolume(volume) | StorageView::EncryptedVolume(volume) => volume_asks(
            app,
            volume,
            request,
        ),
    }
}

pub broadcast proof fn ensure_storage_bounded(app: AppView, access: StorageAccess, tape: Tape)
    requires
        tape.valid(),
    ensures
        bounded(
            #[trigger] app.ensure_storage(access, tape),
            tape,
            |request: Ask| storage_asks(app, request),
        ),
{
    broadcast use ensure_volume_bounded;

    reveal(AppView::ensure_storage);
}

pub broadcast group group_footprint {
    unlock_keychain_bounded,
    cleanup_keychain_helper_bounded,
    ensure_keychain_bounded,
    internal_keychain_bounded,
    guest_password_bounded,
    prepare_guest_password_bounded,
    ensure_storage_bounded,
}

} // verus!
