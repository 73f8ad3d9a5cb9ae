//! What holds of every command, whatever the host replies.

use crate::agent::{PathStateView, PlistView};
use crate::app::AppView;
use crate::cli::{acted_steps, management_lock_steps, run_installer_steps, run_steps, ActionView};
use crate::command::{CommandView, InputView, VariableView};
use crate::conduct::{
    action_asks, delete_partial_vm_bounded, install_asks, install_service_bounded,
    install_ssh_key_bounded, look_asks, manageable_bounded, request_stop_bounded, run_bounded,
    run_installer_bounded, running_asks, tart_bounded, uninstall_bounded, verify_config_bounded,
    vm_exists_bounded, vm_info_bounded, vm_ip_bounded, wait_asks,
};
use crate::config::{standard_mount, ConfigView, StorageView, VolumeStorageView};
use crate::error::Messages;
use crate::facts::{VmState, VolumeInfo};
use crate::files::private_dir_steps;
use crate::footprint::{
    current_keychain_asks, new_password_asks, prepare_guest_password_bounded, storage_asks,
    unlocked_volume_bounded, volume_unlock_bounded,
};
use crate::host::{HostView, PathsView};
use crate::keychain::StoredView;
use crate::machine::BRIDGE;
use crate::options::InstallOptionsView;
use crate::password::{CredentialPolicy, PasswordChoice};
use crate::path::same_place;
use crate::remote::ensure_console_session_steps;
use crate::session::{Ask, HaltView, Reply, Step, Tape};
use crate::tailscale::TailscaleAction;
use crate::unlock::{ask_and_unlock_steps, unlock_keychain_steps};
use crate::volume::{
    identified, inspect_volume_steps, mount_volume_steps, mounted_at, of_kind,
    run_volume_password_steps, unmounted, volume_password_command_steps, StorageAccess, VolumeKind,
};
use vstd::prelude::*;
use vstd::utf8::encode_utf8;

verus! {

impl Tape {
    /// The reply that is read after so many others, if it is there.
    pub open spec fn ahead(self, count: nat) -> Option<Reply> {
        if self.read + count < self.replies.len() {
            Some(self.replies[(self.read + count) as int])
        } else {
            None
        }
    }

    /// The reply that was read last, if one was.
    pub open spec fn last_read(self) -> Option<Reply> {
        if 0 < self.read <= self.replies.len() {
            Some(self.replies[self.read - 1])
        } else {
            None
        }
    }
}

/// The first argument of the command that a request runs.
pub open spec fn verb(request: Ask) -> Option<Seq<char>> {
    match request {
        Ask::Run(command) | Ask::Spawn(command) | Ask::Exec(command) => if command.arguments.len()
            > 0 {
            Some(command.arguments[0])
        } else {
            None
        },
        _ => None,
    }
}

/// A request to run the VM, in the background or in the console, or to load or
/// start a service.
pub open spec fn starts(request: Ask) -> bool {
    ||| verb(request) == Some("run"@)
    ||| verb(request) == Some("-disu"@)
    ||| verb(request) == Some("bootstrap"@)
    ||| verb(request) == Some("kickstart"@)
}

/// A request that changes whether the VM runs, or whether it exists.
pub open spec fn changes_lifecycle(request: Ask) -> bool {
    ||| starts(request)
    ||| verb(request) == Some("stop"@)
    ||| verb(request) == Some("suspend"@)
    ||| verb(request) == Some("delete"@)
    ||| verb(request) == Some("bootout"@)
}

/// A request that changes a file of the host.
pub open spec fn changes_files(request: Ask) -> bool {
    match request {
        Ask::RemoveFile(_)
        | Ask::CreateDirectory(_)
        | Ask::CreateFile(_)
        | Ask::SetMode { .. }
        | Ask::CreateLink { .. }
        | Ask::PublishText { .. }
        | Ask::PublishConfig { .. }
        | Ask::StagePlist { .. }
        | Ask::PublishStaged(_) => true,
        _ => false,
    }
}

/// The words that change the lifecycle of a VM are none of those that look at it
/// or prepare its storage.
proof fn lemma_words()
    ensures
        !word_changes("show-keychain-info"@),
        !word_changes("unlock-keychain"@),
        !word_changes("find-generic-password"@),
        !word_changes("-i"@),
        !word_changes("-n"@),
        !word_changes("-a"@),
        !word_changes("-q"@),
        !word_changes("-P"@),
        !word_changes("apfs"@),
        !word_changes("info"@),
        !word_changes("mount"@),
        !word_changes("list"@),
        !word_changes("get"@),
        !word_changes("ip"@),
        !word_changes("print"@),
        !word_changes("managername"@),
        !word_changes("build"@),
        !word_changes("--realise"@),
        !word_changes(BRIDGE@),
        forall|ip: Seq<char>| !word_changes(#[trigger] ("vnc://"@ + ip)),
{
    reveal_strlit("run");
    reveal_strlit("-disu");
    reveal_strlit("bootstrap");
    reveal_strlit("kickstart");
    reveal_strlit("stop");
    reveal_strlit("suspend");
    reveal_strlit("delete");
    reveal_strlit("bootout");
    reveal_strlit("show-keychain-info");
    reveal_strlit("unlock-keychain");
    reveal_strlit("find-generic-password");
    reveal_strlit("-i");
    reveal_strlit("-n");
    reveal_strlit("-a");
    reveal_strlit("-q");
    reveal_strlit("-P");
    reveal_strlit("apfs");
    reveal_strlit("info");
    reveal_strlit("mount");
    reveal_strlit("list");
    reveal_strlit("get");
    reveal_strlit("ip");
    reveal_strlit("print");
    reveal_strlit("managername");
    reveal_strlit("build");
    reveal_strlit("--realise");
    reveal_strlit("en0");
    reveal_strlit("vnc://");
    assert("run"@.len() == 3 && "run"@[0] == 'r');
    assert("-disu"@.len() == 5 && "-disu"@[0] == '-');
    assert("bootstrap"@.len() == 9 && "bootstrap"@[0] == 'b');
    assert("kickstart"@.len() == 9 && "kickstart"@[0] == 'k');
    assert("stop"@.len() == 4 && "stop"@[0] == 's');
    assert("suspend"@.len() == 7 && "suspend"@[0] == 's');
    assert("delete"@.len() == 6 && "delete"@[0] == 'd');
    assert("bootout"@.len() == 7 && "bootout"@[0] == 'b');
    assert("show-keychain-info"@.len() == 18 && "show-keychain-info"@[0] == 's');
    assert("unlock-keychain"@.len() == 15 && "unlock-keychain"@[0] == 'u');
    assert("find-generic-password"@.len() == 21 && "find-generic-password"@[0] == 'f');
    assert("-i"@.len() == 2 && "-i"@[0] == '-');
    assert("-n"@.len() == 2 && "-n"@[0] == '-');
    assert("-a"@.len() == 2 && "-a"@[0] == '-');
    assert("-q"@.len() == 2 && "-q"@[0] == '-');
    assert("-P"@.len() == 2 && "-P"@[0] == '-');
    assert("apfs"@.len() == 4 && "apfs"@[0] == 'a');
    assert("info"@.len() == 4 && "info"@[0] == 'i');
    assert("mount"@.len() == 5 && "mount"@[0] == 'm');
    assert("list"@.len() == 4 && "list"@[0] == 'l');
    assert("get"@.len() == 3 && "get"@[0] == 'g');
    assert("ip"@.len() == 2 && "ip"@[0] == 'i');
    assert("print"@.len() == 5 && "print"@[0] == 'p');
    assert("managername"@.len() == 11 && "managername"@[0] == 'm');
    assert("build"@.len() == 5 && "build"@[0] == 'b');
    assert("--realise"@.len() == 9 && "--realise"@[0] == '-');
    assert("en0"@.len() == 3 && "en0"@[0] == 'e');
    assert forall|ip: Seq<char>| !word_changes(#[trigger] ("vnc://"@ + ip)) by {
        assert(("vnc://"@ + ip)[0] == 'v');
    }
}

spec fn word_changes(word: Seq<char>) -> bool {
    ||| word == "run"@
    ||| word == "-disu"@
    ||| word == "bootstrap"@
    ||| word == "kickstart"@
    ||| word == "stop"@
    ||| word == "suspend"@
    ||| word == "delete"@
    ||| word == "bootout"@
}

proof fn lemma_keychain_is_calm(paths: PathsView, request: Ask)
    requires
        current_keychain_asks(paths, request),
    ensures
        !changes_lifecycle(request),
        !changes_files(request),
{
    lemma_words();
}

proof fn lemma_storage_is_calm(app: AppView, request: Ask)
    requires
        storage_asks(app, request),
    ensures
        !changes_lifecycle(request),
        !changes_files(request),
{
    lemma_words();
    if current_keychain_asks(app.paths, request) {
        lemma_keychain_is_calm(app.paths, request);
    }
}

/// Looking at a VM changes nothing.
pub proof fn lemma_looking_is_calm(app: AppView, request: Ask)
    requires
        look_asks(app, request),
    ensures
        !changes_lifecycle(request),
        !changes_files(request),
{
    lemma_words();
    if storage_asks(app, request) {
        lemma_storage_is_calm(app, request);
    }
}

proof fn lemma_running_is_calm(app: AppView, request: Ask)
    requires
        wait_asks(app, request) || running_asks(app, request),
    ensures
        !changes_lifecycle(request),
        !changes_files(request),
{
    lemma_words();
    if look_asks(app, request) {
        lemma_looking_is_calm(app, request);
    }
}

proof fn lemma_installing_starts_nothing(app: AppView, request: Ask)
    requires
        install_asks(app, request),
    ensures
        !starts(request),
{
    lemma_words();
    lemma_unloading_words();
    if look_asks(app, request) {
        lemma_looking_is_calm(app, request);
    }
    if storage_asks(app, request) {
        lemma_storage_is_calm(app, request);
    }
    if current_keychain_asks(app.paths, request) {
        lemma_keychain_is_calm(app.paths, request);
    }
}

/// What stops, deletes or unloads starts nothing.
proof fn lemma_unloading_words()
    ensures
        !word_starts("stop"@),
        !word_starts("suspend"@),
        !word_starts("delete"@),
        !word_starts("bootout"@),
{
    reveal_strlit("run");
    reveal_strlit("-disu");
    reveal_strlit("bootstrap");
    reveal_strlit("kickstart");
    reveal_strlit("stop");
    reveal_strlit("suspend");
    reveal_strlit("delete");
    reveal_strlit("bootout");
    assert("run"@.len() == 3 && "-disu"@.len() == 5);
    assert("bootstrap"@.len() == 9 && "kickstart"@.len() == 9);
    assert("stop"@.len() == 4 && "suspend"@.len() == 7);
    assert("delete"@.len() == 6 && "bootout"@.len() == 7);
}

spec fn word_starts(word: Seq<char>) -> bool {
    ||| word == "run"@
    ||| word == "-disu"@
    ||| word == "bootstrap"@
    ||| word == "kickstart"@
}

proof fn lemma_marking_starts(app: AppView, action: ActionView, request: Ask)
    requires
        action_asks(app, action, request),
    ensures
        request is CreateFile ==> action == ActionView::Start || action == ActionView::Restart
            || action == ActionView::Console,
{
}

// ------------------------------------------------------------------- the laws
/// Installing a VM never runs it and never loads or starts a service: the VM is
/// left for the user to start.
pub proof fn installing_starts_nothing(host: HostView, options: InstallOptionsView, tape: Tape)
    requires
        tape.valid(),
    ensures
        run_installer_steps(host, options, tape).out matches Err(
            HaltView::Pending { request, .. },
        ) ==> !starts(request),
{
    run_installer_bounded(host, options, tape);
    lemma_words();
    if let Err(HaltView::Pending { keep, request }) = run_installer_steps(host, options, tape).out {
        let paths = PathsView::discover(options.name, host)->Ok_0;
        if exists|config: ConfigView| #[trigger]
            install_asks(AppView { host, paths, config }, request) {
            let config = choose|config: ConfigView| #[trigger]
                install_asks(AppView { host, paths, config }, request);
            lemma_installing_starts_nothing(AppView { host, paths, config }, request);
        }
    }
}

/// The actions that only look at a VM or connect to it.
pub open spec fn observes(action: ActionView) -> bool {
    match action {
        ActionView::Status
        | ActionView::Ssh { .. }
        | ActionView::ScreenShare
        | ActionView::Logs { .. } => true,
        ActionView::Tailscale { action } => action == TailscaleAction::Status,
        _ => false,
    }
}

/// Looking at a VM, sharing its screen or connecting to it does not start, stop,
/// suspend, restart or delete it, and changes no file of the host.
pub proof fn observing_changes_nothing(
    host: HostView,
    name: Seq<char>,
    action: ActionView,
    tape: Tape,
)
    requires
        tape.valid(),
        observes(action),
    ensures
        run_steps(host, name, action, tape).out matches Err(
            HaltView::Pending { request, .. },
        ) ==> !changes_lifecycle(request) && !changes_files(request),
{
    run_bounded(host, name, action, tape);
    lemma_words();
    if let Err(HaltView::Pending { keep, request }) = run_steps(host, name, action, tape).out {
        let paths = PathsView::discover(name, host)->Ok_0;
        if exists|config: ConfigView| #[trigger]
            action_asks(AppView { host, paths, config }, action, request) {
            let config = choose|config: ConfigView| #[trigger]
                action_asks(AppView { host, paths, config }, action, request);
            let app = AppView { host, paths, config };
            if wait_asks(app, request) || running_asks(app, request) {
                lemma_running_is_calm(app, request);
            }
        }
    }
}

/// Only starting a VM, or returning to it from the console, has the service run
/// it again: no other action marks the VM as one that is to run.
pub proof fn only_starting_marks_a_vm(
    host: HostView,
    name: Seq<char>,
    action: ActionView,
    tape: Tape,
)
    requires
        tape.valid(),
    ensures
        run_steps(host, name, action, tape).out matches Err(
            HaltView::Pending { request: Ask::CreateFile(_), .. },
        ) ==> action == ActionView::Start || action == ActionView::Restart || action
            == ActionView::Console,
{
    run_bounded(host, name, action, tape);
    if let Err(HaltView::Pending { keep, request }) = run_steps(host, name, action, tape).out {
        let paths = PathsView::discover(name, host)->Ok_0;
        if exists|config: ConfigView| #[trigger]
            action_asks(AppView { host, paths, config }, action, request) {
            let config = choose|config: ConfigView| #[trigger]
                action_asks(AppView { host, paths, config }, action, request);
            lemma_marking_starts(AppView { host, paths, config }, action, request);
        }
    }
}

/// Stopping and deleting a VM start nothing.
pub proof fn stopping_starts_nothing(
    host: HostView,
    name: Seq<char>,
    action: ActionView,
    tape: Tape,
)
    requires
        tape.valid(),
        action == ActionView::Stop || action == ActionView::Uninstall,
    ensures
        run_steps(host, name, action, tape).out matches Err(
            HaltView::Pending { request, .. },
        ) ==> !starts(request),
{
    run_bounded(host, name, action, tape);
    lemma_words();
    lemma_unloading_words();
    if let Err(HaltView::Pending { keep, request }) = run_steps(host, name, action, tape).out {
        let paths = PathsView::discover(name, host)->Ok_0;
        if exists|config: ConfigView| #[trigger]
            action_asks(AppView { host, paths, config }, action, request) {
            let config = choose|config: ConfigView| #[trigger]
                action_asks(AppView { host, paths, config }, action, request);
            let app = AppView { host, paths, config };
            if look_asks(app, request) {
                lemma_looking_is_calm(app, request);
            }
        }
    }
}

/// A VM that Tart manages is stopped once the procedure that stops it ends well:
/// the last thing that the host said is that the VM is stopped.
pub proof fn stopped_means_stopped(app: AppView, tape: Tape)
    requires
        tape.valid(),
        app.stop_tart(tape).out is Ok,
        app.manageable(tape).out == Ok::<bool, HaltView>(true),
    ensures
        app.stop_tart(tape).tape.last_read() matches Some(Reply::Vm(vm)) && vm.state
            == VmState::Stopped,
{
    broadcast use {manageable_bounded, request_stop_bounded, vm_info_bounded, tart_bounded};

    reveal(AppView::stop_tart);
    reveal(AppView::vm_info);
    reveal(AppView::unload_service);
}

/// The actions that change a VM ask for nothing but the lock until they have it.
pub proof fn management_is_serialized(
    host: HostView,
    paths: PathsView,
    action: ActionView,
    tape: Tape,
)
    requires
        action.manages(),
        management_lock_steps(paths, tape).out is Err,
    ensures
        acted_steps(host, paths, action, tape).out == management_lock_steps(paths, tape).out,
{
}

/// So does the installer.
pub proof fn installation_is_serialized(
    host: HostView,
    options: InstallOptionsView,
    paths: PathsView,
    tape: Tape,
)
    requires
        PathsView::discover(options.name, host) == Ok::<PathsView, Messages>(paths),
        management_lock_steps(paths, tape).out is Err,
    ensures
        run_installer_steps(host, options, tape).out == management_lock_steps(paths, tape).out,
{
}

/// Where the lock is asked for and another command has it, that is the error.
pub proof fn a_held_lock_is_refused(paths: PathsView, tape: Tape)
    requires
        private_dir_steps(paths.state, tape).out is Ok,
        ({
            let ready = private_dir_steps(paths.state, tape).tape;
            ready.ahead(0) == Some(Reply::Flag(false))
        }),
    ensures
        management_lock_steps(paths, tape).out == Err::<(), HaltView>(
            HaltView::Failed(
                seq![
                    "another "@ + paths.command_name() + " management command is running"@,
                ],
            ),
        ),
{
}

/// A VM that exists keeps its credentials: an update creates neither a key nor a
/// password.
pub proof fn credentials_are_kept(app: AppView, choice: PasswordChoice, tape: Tape)
    requires
        tape.valid(),
    ensures
        app.install_ssh_key(CredentialPolicy::Existing, tape).out matches Err(
            HaltView::Pending { request, .. },
        ) ==> !(request is Run),
        app.prepare_guest_password(CredentialPolicy::Existing, choice, tape).out matches Err(
            HaltView::Pending { request, .. },
        ) ==> !new_password_asks(request),
{
    install_ssh_key_bounded(app, CredentialPolicy::Existing, tape);
    prepare_guest_password_bounded(app, CredentialPolicy::Existing, choice, tape);
    reveal_strlit("-i");
    reveal_strlit("show-keychain-info");
    reveal_strlit("find-generic-password");
    assert("-i"@.len() == 2);
    assert("show-keychain-info"@.len() == 18);
    assert("find-generic-password"@.len() == 21);
    if let Err(HaltView::Pending { keep, request }) = app.prepare_guest_password(
        CredentialPolicy::Existing,
        choice,
        tape,
    ).out {
        if let Ask::Run(command) = request {
            let stored = CommandView::new("/usr/bin/security"@).arg("-i"@);
            assert(command.input(InputView::Closed).arguments == command.arguments);
            assert(stored.input(InputView::Closed).arguments == stored.arguments);
            assert(stored.arguments.len() == 1 && stored.arguments[0] == "-i"@);
        }
    }
}

/// The installer stops or deletes a VM only where it exists, was not provisioned,
/// and an installation of it is under way. A VM that was not created here is left
/// alone.
pub proof fn only_incomplete_vms_are_removed(app: AppView, tape: Tape)
    requires
        tape.valid(),
    ensures
        app.install_plan(tape).out matches Err(HaltView::Pending { request, .. })
            && changes_lifecycle(request) ==> {
            let found = app.vm_exists(tape);
            &&& found.out == Ok::<bool, HaltView>(true)
            &&& found.tape.ahead(0) == Some(Reply::Flag(false))
            &&& found.tape.ahead(1) == Some(Reply::Flag(true))
        },
{
    broadcast use {vm_exists_bounded, delete_partial_vm_bounded, verify_config_bounded};

    reveal(AppView::install_plan);
    if let Err(HaltView::Pending { keep, request }) = app.install_plan(tape).out {
        if look_asks(app, request) {
            lemma_looking_is_calm(app, request);
        }
    }
}

/// launchd is told to keep the VM running while it is marked as one that is to run,
/// and under no other condition: installing a service writes no other definition.
pub proof fn the_service_is_kept_alive_by_its_marker(app: AppView, tape: Tape)
    requires
        tape.valid(),
        app.install_service(tape).out matches Err(
            HaltView::Pending { request: Ask::StagePlist { .. }, .. },
        ),
    ensures
        app.install_service(tape).out matches Err(
            HaltView::Pending { request: Ask::StagePlist { plist: PlistView::Agent(agent), .. }, .. },
        ) && agent.keep_alive.path_state == seq![
            PathStateView { path: app.paths.run_marker, exists: true },
        ],
{
    install_service_bounded(app, tape);
}

/// The service becomes Tart only for a VM that is marked as one that is to run
/// and that was provisioned.
pub proof fn the_service_respects_the_markers(app: AppView, tape: Tape)
    requires
        tape.valid(),
        app.internal_run(tape).out matches Err(HaltView::Pending { request: Ask::Exec(_), .. }),
    ensures
        tape.ahead(0) == Some(Reply::Flag(true)),
        tape.ahead(1) == Some(Reply::Flag(true)),
{
    reveal(AppView::internal_run);
}

/// The VM can be suspended wherever it runs.
pub proof fn runs_are_suspendable(app: AppView, tart: CommandView, caffeinate: CommandView)
    ensures
        app.background_command(tart).arguments.contains("--suspendable"@),
        app.console_command(caffeinate).arguments.contains("--suspendable"@),
{
    let background = app.background_command(tart).arguments;
    assert(background[(tart.arguments.len() + 2) as int] == "--suspendable"@);
    let console = app.console_command(caffeinate).arguments;
    assert(console[(caffeinate.arguments.len() + 3) as int] == "--suspendable"@);
}

/// Every command that works on the VM gets the storage that was chosen for it: no
/// `TART_HOME` of the surroundings, and the chosen directory where there is one.
pub proof fn tart_works_on_the_chosen_storage(app: AppView, tape: Tape)
    requires
        tape.valid(),
    ensures
        app.tart(tape).out matches Ok(tart) ==> tart.environment == seq![
            VariableView {
                name: "TART_HOME"@,
                value: match app.config.storage {
                    StorageView::Default => None,
                    StorageView::Directory { path } => Some(path),
                    StorageView::PlainVolume(volume) => Some(volume.path),
                    StorageView::EncryptedVolume(volume) => Some(volume.path),
                },
            },
        ],
{
    tart_bounded(app, tape);
}

/// A console that fails does not bring the VM back into the background, and the
/// error says so.
pub proof fn a_failed_console_withholds_the_background(app: AppView, tape: Tape)
    requires
        app.preflight_console(tape).out == Ok::<bool, HaltView>(true),
        app.start_background(app.preflight_console(tape).tape).out is Ok,
        app.guarded_console(
            true,
            app.start_background(app.preflight_console(tape).tape).tape,
        ).out is Err,
    ensures
        ({
            let shown = app.guarded_console(
                true,
                app.start_background(app.preflight_console(tape).tape).tape,
            );
            app.console(tape).out == shown.out && app.console(tape).tape == shown.tape
        }),
{
    reveal(AppView::console);
}

/// The error of a console that was opened out of the background starts with why
/// the background was withheld.
pub proof fn a_failed_console_says_so(app: AppView, tape: Tape)
    requires
        tape.ahead(0) == Some(Reply::Done),
    ensures
        app.guarded_console(true, tape).out matches Err(HaltView::Failed(messages)) ==> messages.len()
            > 0 && messages[0] == app.console_withheld(),
{
    reveal(AppView::guarded_console);
}

/// Whatever comes of asking for the Keychain password, the terminal shows again
/// what is typed: that is the next thing that the host is asked for.
pub proof fn the_terminal_is_restored(paths: PathsView, terminal: Seq<char>, tape: Tape)
    requires
        tape.ahead(0) == Some(Reply::Done),
        tape.ahead(1) == Some(Reply::Done),
        ({
            let asked = ask_and_unlock_steps(paths, Tape { read: tape.read + 2, ..tape });
            &&& !(asked.out matches Err(HaltView::Pending { .. }))
            &&& asked.tape.read >= asked.tape.replies.len()
        }),
    ensures
        unlock_keychain_steps(paths, terminal, tape).out matches Err(
            HaltView::Pending { request, .. },
        ) && request == Ask::RestoreInput,
{
}

/// Mounting covers nothing: the standard mount point is free, and another one is
/// an empty directory.
pub proof fn mounting_covers_nothing(storage: VolumeStorageView, tape: Tape)
    requires
        tape.valid(),
        mount_volume_steps(storage, tape).out matches Err(
            HaltView::Pending { request: Ask::Run(_), .. },
        ),
    ensures
        if same_place(storage.mount_point, standard_mount(storage.name)) {
            tape.ahead(0) == Some(Reply::Flag(false))
        } else {
            &&& tape.ahead(0) == Some(Reply::Flag(true))
            &&& tape.ahead(1) == Some(Reply::Flag(true))
        },
{
}

/// No argument of a command depends on a password. Programs read passwords, and
/// Packer finds one in its environment.
pub proof fn passwords_are_no_arguments(
    app: AppView,
    account: Seq<char>,
    service: Seq<char>,
    command: CommandView,
    key: Seq<char>,
    ip: Seq<char>,
    digest: Seq<char>,
    tape: Tape,
    one: Seq<char>,
    other: Seq<char>,
)
    requires
        tape.read == tape.replies.len(),
    ensures
        arguments_asked(
            app.store_keychain_password(account, service, encode_utf8(one), tape),
        ) == arguments_asked(
            app.store_keychain_password(account, service, encode_utf8(other), tape),
        ),
        arguments_asked(volume_password_command_steps(encode_utf8(one), command, tape))
            == arguments_asked(volume_password_command_steps(encode_utf8(other), command, tape)),
        arguments_asked(app.install_tailscale(ip, digest, one, tape)) == arguments_asked(
            app.install_tailscale(ip, digest, other, tape),
        ),
        app.packer_command(command, key, one).arguments == app.packer_command(
            command,
            key,
            other,
        ).arguments,
{
    reveal(AppView::install_tailscale);
}

/// The arguments of the command that a procedure waits for.
pub open spec fn arguments_asked<T>(step: Step<T>) -> Option<Seq<Seq<char>>> {
    match step.out {
        Err(HaltView::Pending { request: Ask::Run(command), .. }) => Some(command.arguments),
        _ => None,
    }
}

/// A command never asks the host to keep more replies than there are, nor fewer
/// than it had read when it began.
pub proof fn commands_stay_within_the_replies(
    host: HostView,
    name: Seq<char>,
    action: ActionView,
    options: InstallOptionsView,
    tape: Tape,
)
    requires
        tape.valid(),
    ensures
        run_steps(host, name, action, tape).out matches Err(HaltView::Pending { keep, .. })
            ==> tape.read <= keep <= tape.replies.len(),
        run_installer_steps(host, options, tape).out matches Err(HaltView::Pending { keep, .. })
            ==> tape.read <= keep <= tape.replies.len(),
{
    run_bounded(host, name, action, tape);
    run_installer_bounded(host, options, tape);
}

/// The only VM that uninstalling deletes is the one that the settings name, on the
/// storage that they name.
pub proof fn only_the_own_vm_is_deleted(app: AppView, tape: Tape)
    requires
        tape.valid(),
    ensures
        app.uninstall(tape).out matches Err(HaltView::Pending { request, .. }) ==> {
            verb(request) == Some("delete"@) ==> request == Ask::Run(
                app.delete_command(app.tart_command()),
            )
        },
{
    uninstall_bounded(app, tape);
    lemma_words();
    reveal_strlit("stop");
    reveal_strlit("bootout");
    reveal_strlit("delete");
    assert("stop"@.len() == 4 && "bootout"@.len() == 7 && "delete"@.len() == 6);
    if let Err(HaltView::Pending { keep, request }) = app.uninstall(tape).out {
        if look_asks(app, request) {
            lemma_looking_is_calm(app, request);
        }
    }
}

/// The console is for the user at the host: where that session is missing or
/// locked, nothing is done about the VM.
pub proof fn the_console_needs_its_user(app: AppView, tape: Tape)
    requires
        ensure_console_session_steps(app.host, app.paths.command_name(), tape).out is Err,
    ensures
        app.console(tape).out == ensure_console_session_steps(
            app.host,
            app.paths.command_name(),
            tape,
        ).out,
{
    reveal(AppView::console);
    reveal(AppView::preflight_console);
}

/// Settings that differ from the saved ones end an installation.
pub proof fn differing_settings_end_an_installation(
    app: AppView,
    choice: PasswordChoice,
    tape: Tape,
)
    requires
        app.clear_keychain_helper(tape).out is Ok,
        app.config.check_existing(app.paths, app.clear_keychain_helper(tape).tape).out is Err,
    ensures
        app.install(choice, tape).out == app.config.check_existing(
            app.paths,
            app.clear_keychain_helper(tape).tape,
        ).out,
{
    reveal(AppView::install);
    reveal(AppView::install_tools);
}

/// A VM counts as reachable only once a command ran in it over SSH.
pub proof fn reachable_means_ssh_answered(app: AppView, ip_wait: u32, tape: Tape)
    requires
        tape.valid(),
        app.wait_for_ssh(ip_wait, tape).out is Ok,
    ensures
        app.wait_for_ssh(ip_wait, tape).tape.last_read() matches Some(Reply::Output(output))
            && output.succeeded(),
{
    broadcast use vm_ip_bounded;

    reveal(AppView::wait_for_ssh);
    reveal(AppView::await_ssh);
}

/// A VM counts as what the settings say only where Tart reports just that.
pub proof fn verified_means_as_configured(app: AppView, tape: Tape)
    requires
        tape.valid(),
        app.verify_config(tape).out is Ok,
    ensures
        app.verify_config(tape).tape.last_read() matches Some(Reply::Vm(vm)) && vm.cpu
            == app.config.cpu_count && vm.memory == app.config.memory_gb * 1024 && vm.disk
            == app.config.disk_gb && vm.os@ == "darwin"@,
{
    broadcast use {tart_bounded, vm_info_bounded};

    reveal(AppView::verify_config);
    reveal(AppView::vm_info);
}

/// A volume as it must be to hold a VM.
pub open spec fn fit(volume: VolumeInfo, storage: VolumeStorageView, kind: VolumeKind) -> bool {
    &&& identified(volume, storage)
    &&& of_kind(volume, kind)
    &&& mounted_at(volume, storage.mount_point)
    &&& volume.writable_volume
}

/// Whether the host reported the volume at some place between two others.
pub open spec fn reported(volume: VolumeInfo, from: nat, tape: Tape) -> bool {
    exists|at: int|
        from <= at < tape.read && #[trigger] tape.replies[at] == Reply::Volume(volume)
}

proof fn lemma_inspected(storage: VolumeStorageView, kind: VolumeKind, tape: Tape)
    requires
        tape.valid(),
    ensures
        inspect_volume_steps(storage, kind, tape).out matches Ok(volume) ==> {
            &&& identified(volume, storage)
            &&& of_kind(volume, kind)
            &&& reported(volume, tape.read, inspect_volume_steps(storage, kind, tape).tape)
        },
{
    let step = inspect_volume_steps(storage, kind, tape);
    if let Ok(volume) = step.out {
        assert(step.tape.replies[step.tape.read - 1] == Reply::Volume(volume));
    }
}

proof fn lemma_unlocked(
    app: AppView,
    storage: VolumeStorageView,
    kind: VolumeKind,
    access: StorageAccess,
    tape: Tape,
)
    requires
        tape.valid(),
    ensures
        app.unlocked_volume(storage, kind, access, tape).out matches Ok(volume) ==> {
            &&& identified(volume, storage)
            &&& of_kind(volume, kind)
            &&& reported(volume, tape.read, app.unlocked_volume(storage, kind, access, tape).tape)
        },
{
    broadcast use volume_unlock_bounded;

    reveal(AppView::unlocked_volume);
    lemma_inspected(storage, kind, tape);
    let first = inspect_volume_steps(storage, kind, tape);
    if let Ok(volume) = first.out {
        let unlock = app.volume_unlock(storage, kind, access, volume.locked, first.tape);
        if let Ok(StoredView::Password(password)) = unlock.out {
            let opened = run_volume_password_steps(storage.uuid, password, unlock.tape);
            if opened.out is Ok {
                lemma_inspected(storage, kind, opened.tape);
            }
        }
    }
}

/// The storage of a VM on a volume of its own counts as available only where the
/// host reported the recorded volume, of the recorded kind, writable and at the
/// recorded place.
pub proof fn available_storage_is_the_recorded_volume(
    app: AppView,
    storage: VolumeStorageView,
    kind: VolumeKind,
    access: StorageAccess,
    tape: Tape,
)
    requires
        tape.valid(),
        app.ensure_volume(storage, kind, access, tape).out is Ok,
    ensures
        exists|volume: VolumeInfo| #[trigger]
            fit(volume, storage, kind) && reported(
                volume,
                tape.read,
                app.ensure_volume(storage, kind, access, tape).tape,
            ),
{
    broadcast use unlocked_volume_bounded;

    reveal(AppView::ensure_volume);
    lemma_unlocked(app, storage, kind, access, tape);
    let step = app.unlocked_volume(storage, kind, access, tape);
    let last = app.ensure_volume(storage, kind, access, tape).tape;
    if let Ok(volume) = step.out {
        if unmounted(volume) {
            let mounted = mount_volume_steps(storage, step.tape);
            lemma_inspected(storage, kind, mounted.tape);
            let second = inspect_volume_steps(storage, kind, mounted.tape).out->Ok_0;
            let at = choose|at: int|
                mounted.tape.read <= at < inspect_volume_steps(
                    storage,
                    kind,
                    mounted.tape,
                ).tape.read && #[trigger] tape.replies[at] == Reply::Volume(second);
            assert(last.replies[at] == Reply::Volume(second));
            assert(fit(second, storage, kind) && reported(second, tape.read, last));
        } else {
            let at = choose|at: int|
                tape.read <= at < step.tape.read && #[trigger] tape.replies[at] == Reply::Volume(
                    volume,
                );
            assert(last.replies[at] == Reply::Volume(volume));
            assert(fit(volume, storage, kind) && reported(volume, tape.read, last));
        }
    }
}

} // verus!
