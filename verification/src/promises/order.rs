//! What the parts of every command are, and in which order they come: where a part ends
//! or waits, the whole does.

use crate::agent::PlistView;
use crate::app::AppView;
use crate::command::{CommandView, InputView};
use crate::config::{volume_reference, StorageView, VolumeStorageView};
use crate::console::handed_over;
use crate::encoding::hex_text;
use crate::error::Messages;
use crate::facts::{LinkKind, VmState};
use crate::files::{
    canonical_directory_steps, is_executable_steps, leads_to_steps, private_dir_steps,
    remove_if_present_steps, touch_steps,
};
use crate::host::{HostView, PathsView};
use crate::install::{
    complete_bundle_steps, install_link_steps, running_bundle_steps, searched, InstallPlan,
};
use crate::keychain::StoredView;
use crate::machine::{sysctl_command, sysctl_steps, validate_bridge_steps};
use crate::options::storage_for_steps;
use crate::password::{
    prompt_guest_password_steps, prompt_password_steps, random_bytes_steps, CredentialPolicy,
    PasswordChoice,
};
use crate::path::{join, same_place};
use crate::process::{checked_steps, success_steps};
use crate::promises::stops_with;
use crate::remote::{
    ensure_console_session_steps, ensure_graphical_session_steps, exec_steps, session_command,
    view_command,
};
use crate::service::{
    await_unloaded_steps, launchctl, service_agent, service_loaded_steps, unload_steps,
};
use crate::session::{
    ask_done, ask_flag, ask_instant, ask_text, asked, done, printed, slept, Ask, HaltView, Reply,
    Tape,
};
use crate::tailscale::{TailscaleAction, READY_SCRIPT, STATE_SCRIPT};
use crate::text::trimmed;
use crate::unlock::{
    await_helper_steps, helper_agent, interactive_terminal_steps, internal_keychain_steps,
    keychain_unlocked_steps, unlock_keychain_steps, KeychainHelperMode, KeychainMode,
};
use crate::vm::list_command;
use crate::volume::{
    any_user_steps, crypto_users_steps, device_command, device_of, ensure_directory_steps,
    inspect_volume_steps, mount_command, mount_volume_steps, run_volume_password_steps,
    validate_volume_steps, volume_for_path_steps, volume_info_steps, volume_password_valid_steps,
    StorageAccess, VolumeKind,
};
use vstd::prelude::*;
use vstd::utf8::encode_utf8;

verus! {

/// Before a VM starts: its definition, both Keychains, its storage, Tart, what was
/// provisioned, its settings and the bridge.
pub proof fn a_start_is_checked_in_order(app: AppView, tape: Tape)
    ensures
        ({
            let step = app.preflight_start(tape);
            let defined = ask_flag(Ask::IsFile(app.paths.service_plist), tape);
            let own = app.ensure_keychain(KeychainMode::Current, defined.tape);
            let other = app.ensure_keychain(KeychainMode::BackgroundInteractive, own.tape);
            let ready = app.ensure_storage(StorageAccess::Interactive, other.tape);
            let listed = app.vm_exists(ready.tape);
            let provisioned = ask_flag(Ask::Exists(app.paths.provisioned), listed.tape);
            let same = app.verify_config(provisioned.tape);
            let bridge = validate_bridge_steps(same.tape);
            &&& stops_with(step, defined)
            &&& defined.out == Ok::<bool, HaltView>(true) ==> stops_with(step, own)
            &&& defined.out == Ok::<bool, HaltView>(true) && own.out is Ok
                ==> stops_with(step, other)
            &&& defined.out == Ok::<bool, HaltView>(true) && own.out is Ok && other.out is Ok
                ==> stops_with(step, ready)
            &&& defined.out == Ok::<bool, HaltView>(true) && own.out is Ok && other.out is Ok
                && ready.out is Ok ==> stops_with(step, listed)
            &&& defined.out == Ok::<bool, HaltView>(true) && own.out is Ok && other.out is Ok
                && ready.out is Ok && listed.out == Ok::<bool, HaltView>(true)
                ==> stops_with(step, provisioned)
            &&& defined.out == Ok::<bool, HaltView>(true) && own.out is Ok && other.out is Ok
                && ready.out is Ok && listed.out == Ok::<bool, HaltView>(true)
                && provisioned.out == Ok::<bool, HaltView>(true) ==> stops_with(step, same)
            &&& defined.out == Ok::<bool, HaltView>(true) && own.out is Ok && other.out is Ok
                && ready.out is Ok && listed.out == Ok::<bool, HaltView>(true)
                && provisioned.out == Ok::<bool, HaltView>(true) && same.out is Ok
                ==> stops_with(step, bridge)
        }),
{
    reveal(AppView::preflight_start);
}

/// A VM that was checked is marked, its service started, and its guest waited for.
pub proof fn a_vm_is_started_in_order(app: AppView, tape: Tape)
    ensures
        ({
            let step = app.start_ready(tape);
            let marked = touch_steps(app.paths.state, app.paths.run_marker, tape);
            let started = app.start_service(marked.tape);
            let found = app.wait_for_ssh(300, started.tape);
            &&& stops_with(step, marked)
            &&& marked.out is Ok ==> stops_with(step, started)
            &&& marked.out is Ok && started.out is Ok ==> stops_with(step, found)
        }),
{
    reveal(AppView::start_ready);
}

/// Starting is to check and then to start; restarting stops the VM in between.
pub proof fn starting_and_restarting_in_order(app: AppView, tape: Tape)
    ensures
        ({
            let step = app.restart(tape);
            let checked = app.preflight_start(tape);
            let stopped = app.stop(checked.tape);
            let started = app.start_ready(stopped.tape);
            &&& stops_with(step, checked)
            &&& checked.out is Ok ==> stops_with(step, stopped)
            &&& checked.out is Ok && stopped.out is Ok ==> stops_with(step, started)
            &&& checked.out is Ok && stopped.out is Ok ==> step == started
        }),
{
    reveal(AppView::restart);
}

/// The state of a VM: whether Tart lists it, what Tart says of it, its address, whether
/// it is supervised, and whether it was provisioned.
pub proof fn the_state_is_found_in_order(app: AppView, tape: Tape)
    ensures
        ({
            let step = app.status(tape);
            let listed = app.vm_exists(tape);
            let seen = app.vm_info(listed.tape);
            let known = app.known_ip(seen.out->Ok_0.state, seen.tape);
            let supervised = app.supervised(known.tape);
            let provisioned = ask_flag(Ask::Exists(app.paths.provisioned), supervised.tape);
            &&& stops_with(step, listed)
            &&& listed.out == Ok::<bool, HaltView>(true) ==> stops_with(step, seen)
            &&& listed.out == Ok::<bool, HaltView>(true) && seen.out is Ok
                ==> stops_with(step, known)
            &&& listed.out == Ok::<bool, HaltView>(true) && seen.out is Ok && known.out is Ok
                ==> stops_with(step, supervised)
            &&& listed.out == Ok::<bool, HaltView>(true) && seen.out is Ok && known.out is Ok
                && supervised.out is Ok ==> stops_with(step, provisioned)
        }),
{
    reveal(AppView::status);
}

/// A VM is supervised where it is marked and launchd has its service.
pub proof fn supervision_is_found_in_order(app: AppView, tape: Tape)
    ensures
        ({
            let step = app.supervised(tape);
            let marked = ask_flag(Ask::Exists(app.paths.run_marker), tape);
            let loaded = service_loaded_steps(app.paths.service_target(app.host), marked.tape);
            &&& stops_with(step, marked)
            &&& marked.out == Ok::<bool, HaltView>(true) ==> stops_with(step, loaded)
            &&& marked.out == Ok::<bool, HaltView>(true) ==> step == loaded
        }),
{
    reveal(AppView::supervised);
}

/// What is left of a VM goes in order: the VM, its definition, what launchd would load,
/// the command and the runtime.
pub proof fn a_vm_is_uninstalled_in_order(app: AppView, tape: Tape)
    ensures
        ({
            let step = app.uninstall(tape);
            let ready = app.ensure_storage(StorageAccess::Interactive, tape);
            let stopped = app.stop_vm(ready.tape);
            let deleted = app.delete_vm(stopped.tape);
            let definition = remove_if_present_steps(app.paths.service_plist, deleted.tape);
            let agent = remove_if_present_steps(app.paths.autoload_agent(), definition.tape);
            let command = app.remove_command(agent.tape);
            let runtime = remove_if_present_steps(app.paths.runtime, command.tape);
            let said = printed("uninstalled: "@ + app.config.vm_name, runtime.tape);
            &&& stops_with(step, ready)
            &&& ready.out is Ok ==> stops_with(step, stopped)
            &&& ready.out is Ok && stopped.out is Ok ==> stops_with(step, deleted)
            &&& ready.out is Ok && stopped.out is Ok && deleted.out is Ok
                ==> stops_with(step, definition)
            &&& ready.out is Ok && stopped.out is Ok && deleted.out is Ok && definition.out is Ok
                ==> stops_with(step, agent)
            &&& ready.out is Ok && stopped.out is Ok && deleted.out is Ok && definition.out is Ok
                && agent.out is Ok ==> stops_with(step, command)
            &&& ready.out is Ok && stopped.out is Ok && deleted.out is Ok && definition.out is Ok
                && agent.out is Ok && command.out is Ok ==> stops_with(step, runtime)
            &&& ready.out is Ok && stopped.out is Ok && deleted.out is Ok && definition.out is Ok
                && agent.out is Ok && command.out is Ok && runtime.out is Ok
                ==> stops_with(step, said)
            &&& ready.out is Ok && stopped.out is Ok && deleted.out is Ok && definition.out is Ok
                && agent.out is Ok && command.out is Ok && runtime.out is Ok ==> step == said
        }),
{
    reveal(AppView::uninstall);
}

/// The service of a VM runs it where it is marked and provisioned, once the Keychain, the
/// storage, Tart, the bridge and the settings allow it.
pub proof fn the_service_runs_in_order(app: AppView, tape: Tape)
    ensures
        ({
            let step = app.internal_run(tape);
            let marked = ask_flag(Ask::Exists(app.paths.run_marker), tape);
            let provisioned = ask_flag(Ask::Exists(app.paths.provisioned), marked.tape);
            let own = app.ensure_keychain(KeychainMode::Background, provisioned.tape);
            let ready = app.ensure_storage(StorageAccess::Background, own.tape);
            let listed = app.vm_exists(ready.tape);
            let bridge = validate_bridge_steps(listed.tape);
            let same = app.verify_config(bridge.tape);
            let tart = app.tart(same.tape);
            let run = exec_steps(app.background_command(tart.out->Ok_0), "Tart"@, tart.tape);
            &&& stops_with(step, marked)
            &&& marked.out == Ok::<bool, HaltView>(true) ==> stops_with(step, provisioned)
            &&& marked.out == Ok::<bool, HaltView>(true)
                && provisioned.out == Ok::<bool, HaltView>(true) ==> stops_with(step, own)
            &&& marked.out == Ok::<bool, HaltView>(true)
                && provisioned.out == Ok::<bool, HaltView>(true) && own.out is Ok
                ==> stops_with(step, ready)
            &&& marked.out == Ok::<bool, HaltView>(true)
                && provisioned.out == Ok::<bool, HaltView>(true) && own.out is Ok
                && ready.out is Ok ==> stops_with(step, listed)
            &&& marked.out == Ok::<bool, HaltView>(true)
                && provisioned.out == Ok::<bool, HaltView>(true) && own.out is Ok
                && ready.out is Ok && listed.out == Ok::<bool, HaltView>(true)
                ==> stops_with(step, bridge)
            &&& marked.out == Ok::<bool, HaltView>(true)
                && provisioned.out == Ok::<bool, HaltView>(true) && own.out is Ok
                && ready.out is Ok && listed.out == Ok::<bool, HaltView>(true) && bridge.out is Ok
                ==> stops_with(step, same)
            &&& marked.out == Ok::<bool, HaltView>(true)
                && provisioned.out == Ok::<bool, HaltView>(true) && own.out is Ok
                && ready.out is Ok && listed.out == Ok::<bool, HaltView>(true) && bridge.out is Ok
                && same.out is Ok ==> stops_with(step, tart)
            &&& marked.out == Ok::<bool, HaltView>(true)
                && provisioned.out == Ok::<bool, HaltView>(true) && own.out is Ok
                && ready.out is Ok && listed.out == Ok::<bool, HaltView>(true) && bridge.out is Ok
                && same.out is Ok && tart.out is Ok ==> stops_with(step, run)
            &&& marked.out == Ok::<bool, HaltView>(true)
                && provisioned.out == Ok::<bool, HaltView>(true) && own.out is Ok
                && ready.out is Ok && listed.out == Ok::<bool, HaltView>(true) && bridge.out is Ok
                && same.out is Ok && tart.out is Ok ==> step == run
        }),
{
    reveal(AppView::internal_run);
}

/// The command of a VM is removed where it is a link to the packaged one.
pub proof fn the_command_is_removed_in_order(app: AppView, tape: Tape)
    ensures
        ({
            let step = app.remove_command(tape);
            let kind = asked(Ask::LinkKind(app.paths.command_link), tape);
            let own = leads_to_steps(
                Ask::ReadLink(app.paths.command_link),
                join(join(app.paths.runtime, "bin"@), "gremvm"@),
                kind.tape,
            );
            let gone = remove_if_present_steps(app.paths.command_link, own.tape);
            &&& stops_with(step, kind)
            &&& kind.out == Ok::<Reply, HaltView>(Reply::Link(LinkKind::Symlink))
                ==> stops_with(step, own)
            &&& kind.out == Ok::<Reply, HaltView>(Reply::Link(LinkKind::Symlink))
                && own.out == Ok::<bool, HaltView>(true) ==> stops_with(step, gone)
            &&& kind.out == Ok::<Reply, HaltView>(Reply::Link(LinkKind::Symlink))
                && own.out == Ok::<bool, HaltView>(true) ==> step == gone
        }),
{
    reveal(AppView::remove_command);
}

/// A service is defined in its directories, staged before the old one is unloaded, and
/// put in place last.
pub proof fn a_service_is_defined_in_order(app: AppView, tape: Tape)
    ensures
        ({
            let step = app.install_service(tape);
            let state = private_dir_steps(app.paths.state, tape);
            let logs = private_dir_steps(app.paths.logs, state.tape);
            let again = private_dir_steps(app.paths.state, logs.tape);
            let staged = ask_done(
                Ask::StagePlist {
                    directory: app.paths.state,
                    plist: PlistView::Agent(service_agent(app)),
                    mode: 0o644,
                    durable: true,
                },
                again.tape,
            );
            let loaded = service_loaded_steps(app.paths.service_target(app.host), staged.tape);
            let agent = remove_if_present_steps(app.paths.autoload_agent(), loaded.tape);
            let published = ask_done(Ask::PublishStaged(app.paths.service_plist), agent.tape);
            &&& stops_with(step, state)
            &&& state.out is Ok ==> stops_with(step, logs)
            &&& state.out is Ok && logs.out is Ok ==> stops_with(step, again)
            &&& state.out is Ok && logs.out is Ok && again.out is Ok ==> stops_with(step, staged)
            &&& state.out is Ok && logs.out is Ok && again.out is Ok && staged.out is Ok
                ==> stops_with(step, loaded)
            &&& state.out is Ok && logs.out is Ok && again.out is Ok && staged.out is Ok
                && loaded.out == Ok::<bool, HaltView>(false) ==> stops_with(step, agent)
            &&& state.out is Ok && logs.out is Ok && again.out is Ok && staged.out is Ok
                && loaded.out == Ok::<bool, HaltView>(false) && agent.out is Ok
                ==> stops_with(step, published)
            &&& state.out is Ok && logs.out is Ok && again.out is Ok && staged.out is Ok
                && loaded.out == Ok::<bool, HaltView>(false) && agent.out is Ok
                ==> step == published
        }),
{
    reveal(AppView::install_service);
}

/// A service that launchd has is unloaded and waited for before the new one is put in
/// place.
pub proof fn a_loaded_service_is_replaced_in_order(app: AppView, tape: Tape)
    ensures
        ({
            let step = app.install_service(tape);
            let state = private_dir_steps(app.paths.state, tape);
            let logs = private_dir_steps(app.paths.logs, state.tape);
            let again = private_dir_steps(app.paths.state, logs.tape);
            let staged = ask_done(
                Ask::StagePlist {
                    directory: app.paths.state,
                    plist: PlistView::Agent(service_agent(app)),
                    mode: 0o644,
                    durable: true,
                },
                again.tape,
            );
            let loaded = service_loaded_steps(app.paths.service_target(app.host), staged.tape);
            let asked_out = success_steps(
                launchctl("bootout"@, app.paths.service_target(app.host)),
                "unload the service"@,
                loaded.tape,
            );
            let clock = ask_instant(asked_out.tape);
            let gone = await_unloaded_steps(
                app.paths.service_target(app.host),
                clock.out->Ok_0,
                clock.tape,
            );
            let agent = remove_if_present_steps(app.paths.autoload_agent(), gone.tape);
            let published = ask_done(Ask::PublishStaged(app.paths.service_plist), agent.tape);
            &&& stops_with(step, state)
            &&& state.out is Ok ==> stops_with(step, logs)
            &&& state.out is Ok && logs.out is Ok ==> stops_with(step, again)
            &&& state.out is Ok && logs.out is Ok && again.out is Ok ==> stops_with(step, staged)
            &&& state.out is Ok && logs.out is Ok && again.out is Ok && staged.out is Ok
                ==> stops_with(step, loaded)
            &&& state.out is Ok && logs.out is Ok && again.out is Ok && staged.out is Ok
                && loaded.out == Ok::<bool, HaltView>(true) ==> stops_with(step, asked_out)
            &&& state.out is Ok && logs.out is Ok && again.out is Ok && staged.out is Ok
                && loaded.out == Ok::<bool, HaltView>(true) && asked_out.out is Ok
                ==> stops_with(step, clock)
            &&& state.out is Ok && logs.out is Ok && again.out is Ok && staged.out is Ok
                && loaded.out == Ok::<bool, HaltView>(true) && asked_out.out is Ok
                && clock.out is Ok ==> stops_with(step, gone)
            &&& state.out is Ok && logs.out is Ok && again.out is Ok && staged.out is Ok
                && loaded.out == Ok::<bool, HaltView>(true) && asked_out.out is Ok
                && clock.out is Ok && gone.out is Ok ==> stops_with(step, agent)
            &&& state.out is Ok && logs.out is Ok && again.out is Ok && staged.out is Ok
                && loaded.out == Ok::<bool, HaltView>(true) && asked_out.out is Ok
                && clock.out is Ok && gone.out is Ok && agent.out is Ok
                ==> stops_with(step, published)
            &&& state.out is Ok && logs.out is Ok && again.out is Ok && staged.out is Ok
                && loaded.out == Ok::<bool, HaltView>(true) && asked_out.out is Ok
                && clock.out is Ok && gone.out is Ok && agent.out is Ok ==> step == published
        }),
{
    reveal(AppView::install_service);
}

/// A service is loaded where launchd does not have it, and then started.
pub proof fn a_service_is_started_in_order(app: AppView, tape: Tape)
    ensures
        ({
            let step = app.start_service(tape);
            let loaded = app.bootstrap(tape);
            let started = success_steps(
                launchctl("kickstart"@, app.paths.service_target(app.host)),
                "start the service"@,
                loaded.tape,
            );
            &&& stops_with(step, loaded)
            &&& loaded.out is Ok ==> stops_with(step, started)
            &&& loaded.out is Ok ==> step == started
        }),
{
    reveal(AppView::start_service);
}

/// A service is loaded from its definition where launchd does not have it.
pub proof fn a_service_is_loaded_in_order(app: AppView, tape: Tape)
    ensures
        ({
            let step = app.bootstrap(tape);
            let known = service_loaded_steps(app.paths.service_target(app.host), tape);
            let loaded = success_steps(
                launchctl("bootstrap"@, app.host.user_domain()).arg(app.paths.service_plist),
                "load the service"@,
                known.tape,
            );
            &&& stops_with(step, known)
            &&& known.out == Ok::<bool, HaltView>(false) ==> stops_with(step, loaded)
            &&& known.out == Ok::<bool, HaltView>(false) ==> step == loaded
        }),
{
    reveal(AppView::bootstrap);
}

/// The service of a VM is unloaded where launchd has it.
pub proof fn a_service_is_unloaded_in_order(app: AppView, tape: Tape)
    ensures
        ({
            let step = app.unload_service(tape);
            let known = service_loaded_steps(app.paths.service_target(app.host), tape);
            let gone = success_steps(
                launchctl("bootout"@, app.paths.service_target(app.host)),
                "unload the service"@,
                known.tape,
            );
            &&& stops_with(step, known)
            &&& known.out == Ok::<bool, HaltView>(true) ==> stops_with(step, gone)
            &&& known.out == Ok::<bool, HaltView>(true) ==> step == gone
        }),
{
    reveal(AppView::unload_service);
}

/// A VM that can be managed is asked to stop, its service unloaded, and its state looked
/// at.
pub proof fn a_vm_is_stopped_in_order(app: AppView, tape: Tape)
    ensures
        ({
            let step = app.stop_tart(tape);
            let can = app.manageable(tape);
            let tried = app.request_stop(can.tape);
            let unloaded = app.unload_service(tried.tape);
            let confirmed = app.confirm_stopped(tried.out->Ok_0, unloaded.tape);
            &&& stops_with(step, can)
            &&& can.out == Ok::<bool, HaltView>(true) ==> stops_with(step, tried)
            &&& can.out == Ok::<bool, HaltView>(true) && tried.out is Ok
                ==> stops_with(step, unloaded)
            &&& can.out == Ok::<bool, HaltView>(true) && tried.out is Ok && unloaded.out is Ok
                ==> stops_with(step, confirmed)
            &&& can.out == Ok::<bool, HaltView>(true) && tried.out is Ok && unloaded.out is Ok
                ==> step == confirmed
        }),
{
    reveal(AppView::stop_tart);
}

/// Stopping clears the helper and the marker first, and says so at the end.
pub proof fn the_marker_goes_before_the_vm(app: AppView, tape: Tape)
    ensures
        ({
            let step = app.stop(tape);
            let cleared = app.clear_keychain_helper(tape);
            let unmarked = remove_if_present_steps(app.paths.run_marker, cleared.tape);
            let stopped = app.stop_tart(unmarked.tape);
            let said = printed("stopped"@, stopped.tape);
            &&& stops_with(step, cleared)
            &&& cleared.out is Ok ==> stops_with(step, unmarked)
            &&& cleared.out is Ok && unmarked.out is Ok ==> stops_with(step, stopped)
            &&& cleared.out is Ok && unmarked.out is Ok && stopped.out is Ok
                ==> stops_with(step, said)
            &&& cleared.out is Ok && unmarked.out is Ok && stopped.out is Ok ==> step == said
        }),
{
    reveal(AppView::stop);
    reveal(AppView::stop_vm);
}

/// A VM that Tart lists is deleted, and is not listed afterwards.
pub proof fn a_vm_is_deleted_in_order(app: AppView, tape: Tape)
    ensures
        ({
            let step = app.delete_vm(tape);
            let listed = app.vm_exists(tape);
            let tart = app.tart(listed.tape);
            let deleted = success_steps(
                app.delete_command(tart.out->Ok_0),
                "delete the VM"@,
                tart.tape,
            );
            let after = app.vm_exists(deleted.tape);
            &&& stops_with(step, listed)
            &&& listed.out == Ok::<bool, HaltView>(true) ==> stops_with(step, tart)
            &&& listed.out == Ok::<bool, HaltView>(true) && tart.out is Ok
                ==> stops_with(step, deleted)
            &&& listed.out == Ok::<bool, HaltView>(true) && tart.out is Ok && deleted.out is Ok
                ==> stops_with(step, after)
        }),
{
    reveal(AppView::delete_vm);
}

/// An incomplete VM that is not stopped is stopped before it is deleted.
pub proof fn an_incomplete_vm_is_deleted_in_order(app: AppView, tape: Tape)
    ensures
        ({
            let step = app.delete_partial_vm(tape);
            let seen = app.vm_info(tape);
            let tart = app.tart(seen.tape);
            let stopped = success_steps(
                app.stop_command(tart.out->Ok_0),
                "stop the incomplete VM"@,
                tart.tape,
            );
            let deleted = app.delete_vm(stopped.tape);
            &&& stops_with(step, seen)
            &&& seen.out is Ok && seen.out->Ok_0.state != VmState::Stopped
                ==> stops_with(step, tart)
            &&& seen.out is Ok && seen.out->Ok_0.state != VmState::Stopped && tart.out is Ok
                ==> stops_with(step, stopped)
            &&& seen.out is Ok && seen.out->Ok_0.state != VmState::Stopped && tart.out is Ok
                && stopped.out is Ok ==> stops_with(step, deleted)
            &&& seen.out is Ok && seen.out->Ok_0.state != VmState::Stopped && tart.out is Ok
                && stopped.out is Ok ==> step == deleted
        }),
{
    reveal(AppView::delete_partial_vm);
}

/// A VM can be managed where its storage is there, Tart is, and Tart lists it.
pub proof fn a_vm_is_manageable_in_order(app: AppView, tape: Tape)
    ensures
        ({
            let step = app.manageable(tape);
            let mounted = app.storage_mounted(tape);
            let tart = is_executable_steps(
                join(join(app.paths.runtime, "bin"@), "tart"@),
                mounted.tape,
            );
            let listed = app.vm_exists(tart.tape);
            &&& stops_with(step, mounted)
            &&& mounted.out is Ok ==> stops_with(step, tart)
            &&& mounted.out is Ok && tart.out == Ok::<bool, HaltView>(true)
                && mounted.out == Ok::<bool, HaltView>(true) ==> stops_with(step, listed)
            &&& mounted.out is Ok && tart.out == Ok::<bool, HaltView>(true)
                && mounted.out == Ok::<bool, HaltView>(true) ==> step == listed
        }),
{
    reveal(AppView::manageable);
}

/// Tart is looked for in the runtime, and the storage made available for it.
pub proof fn tart_is_found_in_order(app: AppView, tape: Tape)
    ensures
        ({
            let step = app.tart(tape);
            let there = is_executable_steps(join(join(app.paths.runtime, "bin"@), "tart"@), tape);
            let ready = app.configure_tart_storage(
                CommandView::new(join(join(app.paths.runtime, "bin"@), "tart"@)),
                there.tape,
            );
            &&& stops_with(step, there)
            &&& there.out == Ok::<bool, HaltView>(true) ==> stops_with(step, ready)
            &&& there.out == Ok::<bool, HaltView>(true) ==> step == ready
        }),
{
    reveal(AppView::tart);
}

/// The storage is made available as for a service, whatever command needs it.
pub proof fn storage_is_available_to_a_command(app: AppView, command: CommandView, tape: Tape)
    ensures
        ({
            let step = app.configure_tart_storage(command, tape);
            let ready = app.ensure_storage(StorageAccess::Background, tape);
            &&& stops_with(step, ready)
        }),
{
    reveal(AppView::configure_tart_storage);
}

/// The host is asked for its processors and its memory, and then for the bridge.
pub proof fn the_host_is_checked_in_order(app: AppView, tape: Tape)
    ensures
        ({
            let step = app.validate_host(tape);
            let processors = sysctl_steps("hw.logicalcpu"@, tape);
            let memory = sysctl_steps("hw.memsize"@, processors.tape);
            let bridge = validate_bridge_steps(memory.tape);
            &&& app.host.architecture == "aarch64"@ ==> stops_with(step, processors)
            &&& app.host.architecture == "aarch64"@ && processors.out is Ok
                && app.config.cpu_count <= processors.out->Ok_0 ==> stops_with(step, memory)
            &&& app.host.architecture == "aarch64"@ && processors.out is Ok
                && app.config.cpu_count <= processors.out->Ok_0 && memory.out is Ok
                && app.config.memory_gb * 1024 * 1024 * 1024 < memory.out->Ok_0
                ==> stops_with(step, bridge)
            &&& app.host.architecture == "aarch64"@ && processors.out is Ok
                && app.config.cpu_count <= processors.out->Ok_0 && memory.out is Ok
                && app.config.memory_gb * 1024 * 1024 * 1024 < memory.out->Ok_0 ==> step == bridge
        }),
{
    reveal(AppView::validate_host);
}

/// Whether a VM exists, what it is and where it is: Tart is asked.
pub proof fn a_listed_vm_is_told_by_tart(app: AppView, wait: u32, tape: Tape)
    ensures
        ({
            let step = app.vm_ip(wait, tape);
            let tart = app.tart(tape);
            let found = checked_steps(app.ip_command(tart.out->Ok_0, wait), "run Tart"@, tart.tape);
            &&& stops_with(step, tart)
            &&& tart.out is Ok ==> stops_with(step, found)
            &&& tart.out is Ok ==> step == found
        }),
{
    reveal(AppView::vm_ip);
}

/// The settings are held against what Tart says.
pub proof fn settings_are_compared_in_order(app: AppView, tape: Tape)
    ensures
        ({
            let step = app.verify_config(tape);
            let seen = app.vm_info(tape);
            &&& stops_with(step, seen)
        }),
{
    reveal(AppView::verify_config);
}

/// A VM that is not stopped is asked to stop.
pub proof fn stopping_is_tried_in_order(app: AppView, tape: Tape)
    ensures
        ({
            let step = app.request_stop(tape);
            let seen = app.vm_info(tape);
            let tart = app.tart(seen.tape);
            &&& stops_with(step, seen)
            &&& seen.out is Ok && seen.out->Ok_0.state != VmState::Stopped
                ==> stops_with(step, tart)
        }),
{
    reveal(AppView::request_stop);
}

/// Whether a VM stopped is seen in its state.
pub proof fn a_stopped_vm_is_seen(app: AppView, tried: Result<(), Messages>, tape: Tape)
    ensures
        ({
            let step = app.confirm_stopped(tried, tape);
            let seen = app.vm_info(tape);
            &&& stops_with(step, seen)
        }),
{
}

/// The guest is found by its address, and then waited for there.
pub proof fn the_guest_is_found_in_order(app: AppView, wait: u32, tape: Tape)
    ensures
        ({
            let step = app.wait_for_ssh(wait, tape);
            let found = app.vm_ip(wait, tape);
            let clock = ask_instant(found.tape);
            let answered = app.await_ssh(found.out->Ok_0, clock.out->Ok_0, clock.tape);
            &&& stops_with(step, found)
            &&& found.out is Ok ==> stops_with(step, clock)
            &&& found.out is Ok && clock.out is Ok ==> stops_with(step, answered)
        }),
{
    reveal(AppView::wait_for_ssh);
}

/// A VM is used where its storage is available, Tart lists it, and it was provisioned and
/// runs.
pub proof fn a_running_vm_is_found_in_order(app: AppView, tape: Tape)
    ensures
        ({
            let step = app.ensure_running(tape);
            let ready = app.ensure_storage(StorageAccess::Background, tape);
            let listed = app.vm_exists(ready.tape);
            let provisioned = ask_flag(Ask::Exists(app.paths.provisioned), listed.tape);
            let seen = app.vm_info(provisioned.tape);
            &&& stops_with(step, ready)
            &&& ready.out is Ok ==> stops_with(step, listed)
            &&& ready.out is Ok && listed.out == Ok::<bool, HaltView>(true)
                ==> stops_with(step, provisioned)
            &&& ready.out is Ok && listed.out == Ok::<bool, HaltView>(true)
                && provisioned.out == Ok::<bool, HaltView>(true) ==> stops_with(step, seen)
        }),
{
    reveal(AppView::ensure_running);
}

/// The user is connected by SSH once the guest answers.
pub proof fn the_user_connects_in_order(app: AppView, arguments: Seq<Seq<char>>, tape: Tape)
    ensures
        ({
            let step = app.ssh(arguments, tape);
            let found = app.wait_for_ssh(120, tape);
            let run = exec_steps(
                app.ssh_command(found.out->Ok_0).args(arguments),
                "ssh"@,
                found.tape,
            );
            &&& stops_with(step, found)
            &&& found.out is Ok ==> stops_with(step, run)
            &&& found.out is Ok ==> step == run
        }),
{
    reveal(AppView::ssh);
}

/// Screen Sharing is opened on a running VM, at its address, in a graphical session.
pub proof fn a_guest_is_shown_in_order(app: AppView, tape: Tape)
    ensures
        ({
            let step = app.screen_share(tape);
            let running = app.ensure_running(tape);
            let found = app.vm_ip(120, running.tape);
            let graphical = ensure_graphical_session_steps(
                app.paths.command_name(),
                "screen-share"@,
                found.tape,
            );
            let opened = success_steps(
                view_command(found.out->Ok_0),
                "open guest Screen Sharing"@,
                graphical.tape,
            );
            let said = printed(
                "screen sharing: "@ + app.config.guest_user + "@"@ + found.out->Ok_0,
                opened.tape,
            );
            &&& stops_with(step, running)
            &&& running.out is Ok ==> stops_with(step, found)
            &&& running.out is Ok && found.out is Ok ==> stops_with(step, graphical)
            &&& running.out is Ok && found.out is Ok && graphical.out is Ok
                ==> stops_with(step, opened)
            &&& running.out is Ok && found.out is Ok && graphical.out is Ok && opened.out is Ok
                ==> stops_with(step, said)
            &&& running.out is Ok && found.out is Ok && graphical.out is Ok && opened.out is Ok
                ==> step == said
        }),
{
    reveal(AppView::screen_share);
}

/// A graphical session is what launchd says it is.
pub proof fn a_graphical_session_is_looked_for(name: Seq<char>, command: Seq<char>, tape: Tape)
    ensures
        ({
            let step = ensure_graphical_session_steps(name, command, tape);
            let told = checked_steps(session_command(), "inspect the launchd session"@, tape);
            &&& stops_with(step, told)
        }),
{
}

/// The session at the console is looked for among all sessions, once this one is
/// graphical.
pub proof fn a_console_session_is_looked_for_in_order(host: HostView, name: Seq<char>, tape: Tape)
    ensures
        ({
            let step = ensure_console_session_steps(host, name, tape);
            let graphical = ensure_graphical_session_steps(name, "console"@, tape);
            &&& stops_with(step, graphical)
        }),
{
}

/// Tailscale is managed in a VM that runs and answers; its state is told at the end.
pub proof fn tailscale_is_managed_in_order(app: AppView, tape: Tape)
    ensures
        ({
            let step = app.tailscale(TailscaleAction::Setup, tape);
            let running = app.ensure_running(tape);
            let found = app.wait_for_ssh(120, running.tape);
            let set_up = app.setup_tailscale(found.out->Ok_0, found.tape);
            let told = app.print_tailscale_status(found.out->Ok_0, set_up.tape);
            &&& stops_with(step, running)
            &&& running.out is Ok ==> stops_with(step, found)
            &&& running.out is Ok && found.out is Ok ==> stops_with(step, set_up)
            &&& running.out is Ok && found.out is Ok && set_up.out is Ok ==> stops_with(step, told)
            &&& running.out is Ok && found.out is Ok && set_up.out is Ok ==> step == told
        }),
{
    reveal(AppView::tailscale);
}

/// The state of Tailscale is asked of a VM that runs and answers.
pub proof fn the_state_of_tailscale_is_found_in_order(app: AppView, tape: Tape)
    ensures
        ({
            let step = app.tailscale(TailscaleAction::Status, tape);
            let running = app.ensure_running(tape);
            let found = app.wait_for_ssh(120, running.tape);
            let told = app.print_tailscale_status(found.out->Ok_0, found.tape);
            &&& stops_with(step, running)
            &&& running.out is Ok ==> stops_with(step, found)
            &&& running.out is Ok && found.out is Ok ==> stops_with(step, told)
            &&& running.out is Ok && found.out is Ok ==> step == told
        }),
{
    reveal(AppView::tailscale);
}

/// Tailscale is uploaded, hashed, installed with the guest password, waited for and
/// connected.
pub proof fn tailscale_is_set_up_step_by_step(app: AppView, ip: Seq<char>, tape: Tape)
    ensures
        ({
            let step = app.setup_tailscale(ip, tape);
            let uploaded = app.upload_tailscale(ip, tape);
            let hashed = app.tailscale_digest(uploaded.tape);
            let password = app.guest_password(hashed.tape);
            let installed = app.install_tailscale(
                ip,
                hashed.out->Ok_0,
                password.out->Ok_0,
                password.tape,
            );
            let ready = success_steps(
                app.ssh_command(ip).arg(READY_SCRIPT@),
                "wait for Tailscale in the guest"@,
                installed.tape,
            );
            let connected = app.connect_tailscale(ip, ready.tape);
            &&& stops_with(step, uploaded)
            &&& uploaded.out is Ok ==> stops_with(step, hashed)
            &&& uploaded.out is Ok && hashed.out is Ok ==> stops_with(step, password)
            &&& uploaded.out is Ok && hashed.out is Ok && password.out is Ok
                ==> stops_with(step, installed)
            &&& uploaded.out is Ok && hashed.out is Ok && password.out is Ok
                && installed.out is Ok ==> stops_with(step, ready)
            &&& uploaded.out is Ok && hashed.out is Ok && password.out is Ok
                && installed.out is Ok && ready.out is Ok ==> stops_with(step, connected)
            &&& uploaded.out is Ok && hashed.out is Ok && password.out is Ok
                && installed.out is Ok && ready.out is Ok ==> step == connected
        }),
{
    reveal(AppView::setup_tailscale);
}

/// What is told of Tailscale is what the guest reports.
pub proof fn the_state_of_tailscale_is_told_in_order(app: AppView, ip: Seq<char>, tape: Tape)
    ensures
        ({
            let step = app.print_tailscale_status(ip, tape);
            let seen = app.tailscale_state(ip, tape);
            &&& stops_with(step, seen)
        }),
{
    reveal(AppView::print_tailscale_status);
}

/// The guest password is read once the Keychain is unlocked, for the guest user and the
/// service of the VM.
pub proof fn the_guest_password_is_found_in_order(app: AppView, tape: Tape)
    ensures
        ({
            let step = app.guest_password(tape);
            let ready = app.ensure_keychain(KeychainMode::Current, tape);
            let stored = app.keychain_password(
                app.config.guest_user,
                app.paths.password_service,
                ready.tape,
            );
            &&& stops_with(step, ready)
            &&& ready.out is Ok ==> stops_with(step, stored)
        }),
{
    reveal(AppView::guest_password);
}

/// The guest password is looked for before one is created.
pub proof fn the_guest_password_is_prepared_in_order(
    app: AppView,
    policy: CredentialPolicy,
    choice: PasswordChoice,
    tape: Tape,
)
    ensures
        ({
            let step = app.prepare_guest_password(policy, choice, tape);
            let ready = app.ensure_keychain(KeychainMode::Current, tape);
            let stored = app.keychain_password(
                app.config.guest_user,
                app.paths.password_service,
                ready.tape,
            );
            let right = app.guest_password(stored.tape);
            &&& stops_with(step, ready)
            &&& ready.out is Ok ==> stops_with(step, stored)
            &&& ready.out is Ok && stored.out is Ok && stored.out->Ok_0 is Password
                ==> stops_with(step, right)
        }),
{
    reveal(AppView::prepare_guest_password);
}

/// A guest password that is missing is created for a VM that may have a new one.
pub proof fn a_missing_guest_password_is_created_in_order(
    app: AppView,
    choice: PasswordChoice,
    tape: Tape,
)
    ensures
        ({
            let step = app.prepare_guest_password(CredentialPolicy::CreateIfMissing, choice, tape);
            let ready = app.ensure_keychain(KeychainMode::Current, tape);
            let stored = app.keychain_password(
                app.config.guest_user,
                app.paths.password_service,
                ready.tape,
            );
            let created = app.create_guest_password(choice, stored.tape);
            &&& stops_with(step, ready)
            &&& ready.out is Ok ==> stops_with(step, stored)
            &&& ready.out is Ok && stored.out == Ok::<StoredView, HaltView>(StoredView::Absent)
                ==> stops_with(step, created)
            &&& ready.out is Ok && stored.out == Ok::<StoredView, HaltView>(StoredView::Absent)
                ==> step == created
        }),
{
    reveal(AppView::prepare_guest_password);
}

/// A guest password that the user types is stored for the guest user.
pub proof fn a_chosen_password_is_stored_in_order(app: AppView, tape: Tape)
    ensures
        ({
            let step = app.create_guest_password(PasswordChoice::Prompt, tape);
            let typed = prompt_guest_password_steps(tape);
            let stored = app.store_keychain_password(
                app.config.guest_user,
                app.paths.password_service,
                encode_utf8(typed.out->Ok_0),
                typed.tape,
            );
            &&& stops_with(step, typed)
            &&& typed.out is Ok ==> stops_with(step, stored)
            &&& typed.out is Ok ==> step == stored
        }),
{
    reveal(AppView::create_guest_password);
}

/// A guest password that nobody chose is twenty-four random bytes in hexadecimal, stored
/// for the guest user.
pub proof fn a_random_password_is_stored_in_order(app: AppView, tape: Tape)
    ensures
        ({
            let step = app.create_guest_password(PasswordChoice::Generate, tape);
            let drawn = random_bytes_steps(24, tape);
            let stored = app.store_keychain_password(
                app.config.guest_user,
                app.paths.password_service,
                encode_utf8(hex_text(drawn.out->Ok_0)),
                drawn.tape,
            );
            &&& stops_with(step, drawn)
            &&& drawn.out is Ok ==> stops_with(step, stored)
            &&& drawn.out is Ok ==> step == stored
        }),
{
    reveal(AppView::create_guest_password);
}

/// The Keychain of this session is looked at, and unlocked at the terminal where it is
/// locked.
pub proof fn the_keychain_of_this_session_in_order(app: AppView, tape: Tape)
    ensures
        ({
            let step = app.ensure_keychain(KeychainMode::Current, tape);
            let known = keychain_unlocked_steps(app.paths, tape);
            let terminal = interactive_terminal_steps(known.tape);
            let unlocked = unlock_keychain_steps(app.paths, terminal.out->Ok_0, terminal.tape);
            &&& stops_with(step, known)
            &&& known.out == Ok::<bool, HaltView>(false) ==> stops_with(step, terminal)
            &&& known.out == Ok::<bool, HaltView>(false) && terminal.out is Ok
                ==> stops_with(step, unlocked)
        }),
{
    reveal(AppView::ensure_keychain);
    reveal(AppView::ensure_current_keychain);
}

/// The Keychain of the background is looked at by a helper, and unlocked at the terminal
/// where it is locked.
pub proof fn the_keychain_of_the_background_in_order(app: AppView, tape: Tape)
    ensures
        ({
            let step = app.ensure_keychain(KeychainMode::BackgroundInteractive, tape);
            let known = app.background_check(tape);
            let terminal = interactive_terminal_steps(known.tape);
            let unlocked = app.background_unlock(terminal.out->Ok_0, terminal.tape);
            &&& stops_with(step, known)
            &&& known.out == Ok::<bool, HaltView>(false) ==> stops_with(step, terminal)
            &&& known.out == Ok::<bool, HaltView>(false) && terminal.out is Ok
                ==> stops_with(step, unlocked)
        }),
{
    reveal(AppView::ensure_keychain);
    reveal(AppView::ensure_background_keychain);
}

/// A service looks at the Keychain and never unlocks it.
pub proof fn a_service_only_looks_at_the_keychain(app: AppView, tape: Tape)
    ensures
        ({
            let step = app.ensure_keychain(KeychainMode::Background, tape);
            let known = keychain_unlocked_steps(app.paths, tape);
            &&& stops_with(step, known)
        }),
{
    reveal(AppView::ensure_keychain);
}

/// A helper looks at the Keychain, or unlocks it at the terminal, and leaves what it
/// found.
pub proof fn a_helper_works_in_order(paths: PathsView, tape: Tape)
    ensures
        ({
            let step = internal_keychain_steps(paths, KeychainHelperMode::Unlock, tape);
            let terminal = interactive_terminal_steps(tape);
            let unlocked = unlock_keychain_steps(paths, terminal.out->Ok_0, terminal.tape);
            let made = private_dir_steps(paths.state, unlocked.tape);
            let left = ask_done(
                Ask::PublishText {
                    directory: paths.state,
                    path: join(paths.state, "keychain.result"@),
                    text: if unlocked.out->Ok_0 { "unlocked\n"@ } else { "locked\n"@ },
                },
                made.tape,
            );
            &&& stops_with(step, terminal)
            &&& terminal.out is Ok ==> stops_with(step, unlocked)
            &&& terminal.out is Ok && unlocked.out is Ok ==> stops_with(step, made)
            &&& terminal.out is Ok && unlocked.out is Ok && made.out is Ok
                ==> stops_with(step, left)
            &&& terminal.out is Ok && unlocked.out is Ok && made.out is Ok ==> step == left
        }),
{
}

/// A helper that only looks leaves what it found.
pub proof fn a_helper_looks_in_order(paths: PathsView, tape: Tape)
    ensures
        ({
            let step = internal_keychain_steps(paths, KeychainHelperMode::Check, tape);
            let known = keychain_unlocked_steps(paths, tape);
            let made = private_dir_steps(paths.state, known.tape);
            let left = ask_done(
                Ask::PublishText {
                    directory: paths.state,
                    path: join(paths.state, "keychain.result"@),
                    text: if known.out->Ok_0 { "unlocked\n"@ } else { "locked\n"@ },
                },
                made.tape,
            );
            &&& stops_with(step, known)
            &&& known.out is Ok ==> stops_with(step, made)
            &&& known.out is Ok && made.out is Ok ==> stops_with(step, left)
            &&& known.out is Ok && made.out is Ok ==> step == left
        }),
{
}

/// A helper is unloaded, and its definition and what it left are removed.
pub proof fn a_helper_is_cleared_away_in_order(app: AppView, tape: Tape)
    ensures
        ({
            let step = app.clear_keychain_helper(tape);
            let made = private_dir_steps(app.paths.state, tape);
            let unloaded = unload_steps(
                app.paths.keychain_helper_target(app.host),
                "unload the Keychain helper"@,
                made.tape,
            );
            let definition = remove_if_present_steps(
                join(app.paths.state, "keychain.plist"@),
                unloaded.tape,
            );
            let result = remove_if_present_steps(
                join(app.paths.state, "keychain.result"@),
                definition.tape,
            );
            &&& stops_with(step, made)
            &&& made.out is Ok ==> stops_with(step, unloaded)
            &&& made.out is Ok && unloaded.out is Ok ==> stops_with(step, definition)
            &&& made.out is Ok && unloaded.out is Ok && definition.out is Ok
                ==> stops_with(step, result)
            &&& made.out is Ok && unloaded.out is Ok && definition.out is Ok ==> step == result
        }),
{
    reveal(AppView::cleanup_keychain_helper);
}

/// A helper is staged, put in place and loaded, once an earlier one is cleared away.
pub proof fn a_helper_is_run_in_order(
    app: AppView,
    mode: Seq<char>,
    terminal: Seq<char>,
    limit: u64,
    tape: Tape,
)
    ensures
        ({
            let step = app.run_keychain_helper_on(mode, terminal, limit, tape);
            let made = private_dir_steps(app.paths.state, tape);
            let cleared = app.cleanup_keychain_helper(made.tape);
            let staged = ask_done(
                Ask::StagePlist {
                    directory: app.paths.state,
                    plist: PlistView::KeychainHelper(helper_agent(app.paths, mode, terminal)),
                    mode: 0o600,
                    durable: false,
                },
                cleared.tape,
            );
            let placed = ask_done(
                Ask::PublishStaged(join(app.paths.state, "keychain.plist"@)),
                staged.tape,
            );
            &&& stops_with(step, made)
            &&& made.out is Ok ==> stops_with(step, cleared)
            &&& made.out is Ok && cleared.out is Ok ==> stops_with(step, staged)
            &&& made.out is Ok && cleared.out is Ok && staged.out is Ok ==> stops_with(step, placed)
        }),
{
    reveal(AppView::run_keychain_helper_on);
}

/// A helper is loaded, and waited for from then on.
pub proof fn a_helper_is_loaded_in_order(app: AppView, limit: u64, tape: Tape)
    ensures
        ({
            let step = app.keychain_helper_outcome(limit, tape);
            let loaded = success_steps(
                launchctl("bootstrap"@, app.host.user_domain()).arg(
                    join(app.paths.state, "keychain.plist"@),
                ),
                "load the Keychain helper"@,
                tape,
            );
            let clock = ask_instant(loaded.tape);
            let found = await_helper_steps(app.paths, clock.out->Ok_0, limit, clock.tape);
            &&& stops_with(step, loaded)
            &&& loaded.out is Ok ==> stops_with(step, clock)
            &&& loaded.out is Ok && clock.out is Ok ==> stops_with(step, found)
            &&& loaded.out is Ok && clock.out is Ok ==> step == found
        }),
{
}

/// A recorded volume is looked for by its UUID, and checked.
pub proof fn a_volume_is_inspected_in_order(
    storage: VolumeStorageView,
    kind: VolumeKind,
    tape: Tape,
)
    ensures
        ({
            let step = inspect_volume_steps(storage, kind, tape);
            let seen = volume_info_steps(storage.uuid, tape);
            let checked = validate_volume_steps(seen.out->Ok_0, storage, kind, seen.tape);
            &&& stops_with(step, seen)
            &&& seen.out is Ok ==> stops_with(step, checked)
        }),
{
}

/// Whether a recorded volume is mounted is seen by its UUID.
pub proof fn a_mounted_volume_is_looked_for(
    app: AppView,
    storage: VolumeStorageView,
    kind: VolumeKind,
    tape: Tape,
)
    ensures
        ({
            let step = app.volume_mounted(storage, kind, tape);
            let seen = volume_info_steps(storage.uuid, tape);
            &&& stops_with(step, seen)
        }),
{
}

/// A directory for a VM is looked at where it really is.
pub proof fn a_directory_is_looked_for(path: Seq<char>, tape: Tape)
    ensures
        ({
            let step = ensure_directory_steps(path, tape);
            let found = canonical_directory_steps(path, tape);
            &&& stops_with(step, found)
        }),
{
}

/// A password is tried on the users of a volume, from the first on.
pub proof fn a_password_is_checked_in_order(uuid: Seq<char>, password: Seq<u8>, tape: Tape)
    ensures
        ({
            let step = volume_password_valid_steps(uuid, password, tape);
            let users = crypto_users_steps(uuid, tape);
            let tried = any_user_steps(uuid, password, users.out->Ok_0, 0, users.tape);
            &&& stops_with(step, users)
            &&& users.out is Ok ==> stops_with(step, tried)
            &&& users.out is Ok ==> step == tried
        }),
{
}

/// A stored password is used where it is still right.
pub proof fn a_stored_password_is_checked_in_order(
    app: AppView,
    uuid: Seq<char>,
    service: Seq<char>,
    tape: Tape,
)
    ensures
        ({
            let step = app.usable_volume_password(uuid, service, tape);
            let stored = app.keychain_password(uuid, service, tape);
            let right = volume_password_valid_steps(
                uuid,
                stored.out->Ok_0->Password_0,
                stored.tape,
            );
            &&& stops_with(step, stored)
            &&& stored.out is Ok && stored.out->Ok_0 is Password ==> stops_with(step, right)
        }),
{
}

/// The password that GremVM stored comes before the one that macOS did; that one is
/// stored too.
pub proof fn stored_passwords_are_looked_for_in_order(app: AppView, uuid: Seq<char>, tape: Tape)
    ensures
        ({
            let step = app.stored_volume_password(uuid, tape);
            let own = app.usable_volume_password(uuid, "io.gremvm.volume-password"@, tape);
            let native = app.usable_volume_password(uuid, uuid, own.tape);
            let kept = app.store_keychain_password(
                uuid,
                "io.gremvm.volume-password"@,
                native.out->Ok_0->Password_0,
                native.tape,
            );
            &&& stops_with(step, own)
            &&& own.out == Ok::<StoredView, HaltView>(StoredView::Absent)
                ==> stops_with(step, native)
            &&& own.out == Ok::<StoredView, HaltView>(StoredView::Absent) && native.out is Ok
                && native.out->Ok_0 is Password ==> stops_with(step, kept)
        }),
{
    reveal(AppView::stored_volume_password);
}

/// A password that the user types is tried on the volume, and stored where it is right.
pub proof fn a_typed_password_is_checked_in_order(
    app: AppView,
    storage: VolumeStorageView,
    tape: Tape,
)
    ensures
        ({
            let step = app.prompt_volume_password(storage, tape);
            let typed = prompt_password_steps(
                "password for encrypted volume "@ + storage.name + ": "@,
                tape,
            );
            let right = volume_password_valid_steps(
                storage.uuid,
                encode_utf8(typed.out->Ok_0),
                typed.tape,
            );
            let kept = app.store_keychain_password(
                storage.uuid,
                "io.gremvm.volume-password"@,
                encode_utf8(typed.out->Ok_0),
                right.tape,
            );
            &&& stops_with(step, typed)
            &&& typed.out is Ok ==> stops_with(step, right)
            &&& typed.out is Ok && right.out == Ok::<bool, HaltView>(true)
                ==> stops_with(step, kept)
        }),
{
    reveal(AppView::prompt_volume_password);
}

/// For a user, the password of an encrypted volume is looked for and else asked for.
pub proof fn a_user_unlocks_a_volume_in_order(
    app: AppView,
    storage: VolumeStorageView,
    locked: bool,
    tape: Tape,
)
    ensures
        ({
            let step = app.volume_unlock(
                storage,
                VolumeKind::Encrypted,
                StorageAccess::Interactive,
                locked,
                tape,
            );
            let ready = app.ensure_keychain(KeychainMode::Current, tape);
            let stored = app.stored_volume_password(storage.uuid, ready.tape);
            let typed = app.prompt_volume_password(storage, stored.tape);
            &&& stops_with(step, ready)
            &&& ready.out is Ok ==> stops_with(step, stored)
            &&& ready.out is Ok && stored.out == Ok::<StoredView, HaltView>(StoredView::Absent)
                ==> stops_with(step, typed)
        }),
{
    reveal(AppView::volume_unlock);
}

/// For a service, the password of a locked volume is the one that GremVM stored.
pub proof fn a_service_unlocks_a_volume_in_order(
    app: AppView,
    storage: VolumeStorageView,
    tape: Tape,
)
    ensures
        ({
            let step = app.volume_unlock(
                storage,
                VolumeKind::Encrypted,
                StorageAccess::Background,
                true,
                tape,
            );
            let ready = app.ensure_keychain(KeychainMode::Background, tape);
            let stored = app.keychain_password(
                storage.uuid,
                "io.gremvm.volume-password"@,
                ready.tape,
            );
            &&& stops_with(step, ready)
            &&& ready.out is Ok ==> stops_with(step, stored)
        }),
{
    reveal(AppView::volume_unlock);
}

/// A volume is looked at, unlocked with the password that was found, and looked at again.
pub proof fn a_locked_volume_is_unlocked_in_order(
    app: AppView,
    storage: VolumeStorageView,
    kind: VolumeKind,
    access: StorageAccess,
    tape: Tape,
)
    ensures
        ({
            let step = app.unlocked_volume(storage, kind, access, tape);
            let seen = inspect_volume_steps(storage, kind, tape);
            let found = app.volume_unlock(storage, kind, access, seen.out->Ok_0.locked, seen.tape);
            let opened = run_volume_password_steps(
                storage.uuid,
                found.out->Ok_0->Password_0,
                found.tape,
            );
            let after = inspect_volume_steps(storage, kind, opened.tape);
            &&& stops_with(step, seen)
            &&& seen.out is Ok ==> stops_with(step, found)
            &&& seen.out is Ok && found.out is Ok && found.out->Ok_0 is Password
                ==> stops_with(step, opened)
            &&& seen.out is Ok && found.out is Ok && found.out->Ok_0 is Password
                && opened.out is Ok ==> stops_with(step, after)
            &&& seen.out is Ok && found.out is Ok && found.out->Ok_0 is Password
                && opened.out is Ok ==> step == after
        }),
{
    reveal(AppView::unlocked_volume);
}

/// A volume that is nowhere is mounted and looked at again.
pub proof fn an_unmounted_volume_is_mounted_in_order(
    app: AppView,
    storage: VolumeStorageView,
    kind: VolumeKind,
    access: StorageAccess,
    tape: Tape,
)
    ensures
        ({
            let step = app.ensure_volume(storage, kind, access, tape);
            let opened = app.unlocked_volume(storage, kind, access, tape);
            let mounted = mount_volume_steps(storage, opened.tape);
            let seen = inspect_volume_steps(storage, kind, mounted.tape);
            &&& volume_reference(storage) is Ok ==> stops_with(step, opened)
            &&& volume_reference(storage) is Ok && (opened.out is Ok
                && (opened.out->Ok_0.mount_point matches Some(point) ==> point@.len() == 0))
                ==> stops_with(step, mounted)
            &&& volume_reference(storage) is Ok && (opened.out is Ok
                && (opened.out->Ok_0.mount_point matches Some(point) ==> point@.len() == 0))
                && mounted.out is Ok ==> stops_with(step, seen)
        }),
{
    reveal(AppView::ensure_volume);
}

/// A directory is recorded with its volume, which is held against that of the home
/// directory.
pub proof fn a_storage_directory_is_recorded_in_order(path: Seq<char>, home: Seq<char>, tape: Tape)
    ensures
        ({
            let step = storage_for_steps(path, home, tape);
            let there = volume_for_path_steps(path, tape);
            let own = volume_for_path_steps(home, there.tape);
            &&& stops_with(step, there)
            &&& there.out is Ok ==> stops_with(step, own)
        }),
{
}

/// An installation clears the helper, compares the settings, unlocks the Keychain, makes
/// the storage available, checks the host, and installs the runtime and the command.
pub proof fn the_tools_are_installed_in_order(app: AppView, tape: Tape)
    ensures
        ({
            let step = app.install_tools(tape);
            let cleared = app.clear_keychain_helper(tape);
            let same = app.config.check_existing(app.paths, cleared.tape);
            let own = app.ensure_keychain(KeychainMode::Current, same.tape);
            let ready = app.ensure_storage(StorageAccess::Interactive, own.tape);
            let host = app.validate_host(ready.tape);
            let runtime = app.install_runtime(host.tape);
            let command = app.install_command(runtime.tape);
            &&& stops_with(step, cleared)
            &&& cleared.out is Ok ==> stops_with(step, same)
            &&& cleared.out is Ok && same.out is Ok ==> stops_with(step, own)
            &&& cleared.out is Ok && same.out is Ok && own.out is Ok ==> stops_with(step, ready)
            &&& cleared.out is Ok && same.out is Ok && own.out is Ok && ready.out is Ok
                ==> stops_with(step, host)
            &&& cleared.out is Ok && same.out is Ok && own.out is Ok && ready.out is Ok
                && host.out is Ok ==> stops_with(step, runtime)
            &&& cleared.out is Ok && same.out is Ok && own.out is Ok && ready.out is Ok
                && host.out is Ok && runtime.out is Ok ==> stops_with(step, command)
            &&& cleared.out is Ok && same.out is Ok && own.out is Ok && ready.out is Ok
                && host.out is Ok && runtime.out is Ok ==> step == command
        }),
{
    reveal(AppView::install_tools);
}

/// The key, the password and the settings come first; the marker goes, and the service is
/// defined.
pub proof fn the_state_is_installed_in_order(
    app: AppView,
    policy: CredentialPolicy,
    choice: PasswordChoice,
    tape: Tape,
)
    ensures
        ({
            let step = app.install_state(policy, choice, tape);
            let key = app.install_ssh_key(policy, tape);
            let password = app.prepare_guest_password(policy, choice, key.tape);
            let saved = app.config.persist(app.paths, password.tape);
            let unmarked = remove_if_present_steps(app.paths.run_marker, saved.tape);
            let service = app.install_service(unmarked.tape);
            &&& stops_with(step, key)
            &&& key.out is Ok ==> stops_with(step, password)
            &&& key.out is Ok && password.out is Ok ==> stops_with(step, saved)
            &&& key.out is Ok && password.out is Ok && saved.out is Ok
                ==> stops_with(step, unmarked)
            &&& key.out is Ok && password.out is Ok && saved.out is Ok && unmarked.out is Ok
                ==> stops_with(step, service)
            &&& key.out is Ok && password.out is Ok && saved.out is Ok && unmarked.out is Ok
                ==> step == service
        }),
{
    reveal(AppView::install_state);
}

/// A VM that is not there is created with credentials that may be new.
pub proof fn a_new_vm_is_installed_in_order(app: AppView, choice: PasswordChoice, tape: Tape)
    ensures
        ({
            let step = app.install(choice, tape);
            let tools = app.install_tools(tape);
            let plan = app.install_plan(tools.tape);
            let state = app.install_state(CredentialPolicy::CreateIfMissing, choice, plan.tape);
            let created = app.create_vm(state.tape);
            let stopped = app.stop_tart(created.tape);
            &&& stops_with(step, tools)
            &&& tools.out is Ok ==> stops_with(step, plan)
            &&& tools.out is Ok && plan.out == Ok::<InstallPlan, HaltView>(InstallPlan::Create)
                ==> stops_with(step, state)
            &&& tools.out is Ok && plan.out == Ok::<InstallPlan, HaltView>(InstallPlan::Create)
                && state.out is Ok ==> stops_with(step, created)
            &&& tools.out is Ok && plan.out == Ok::<InstallPlan, HaltView>(InstallPlan::Create)
                && state.out is Ok && created.out is Ok ==> stops_with(step, stopped)
        }),
{
    reveal(AppView::install);
}

/// A VM that is there keeps its credentials, and is stopped.
pub proof fn an_old_vm_is_updated_in_order(app: AppView, choice: PasswordChoice, tape: Tape)
    ensures
        ({
            let step = app.install(choice, tape);
            let tools = app.install_tools(tape);
            let plan = app.install_plan(tools.tape);
            let state = app.install_state(CredentialPolicy::Existing, choice, plan.tape);
            let stopped = app.stop_tart(state.tape);
            &&& stops_with(step, tools)
            &&& tools.out is Ok ==> stops_with(step, plan)
            &&& tools.out is Ok && plan.out == Ok::<InstallPlan, HaltView>(InstallPlan::Update)
                ==> stops_with(step, state)
            &&& tools.out is Ok && plan.out == Ok::<InstallPlan, HaltView>(InstallPlan::Update)
                && state.out is Ok ==> stops_with(step, stopped)
        }),
{
    reveal(AppView::install);
}

/// A VM is marked as incomplete while it is built, and as provisioned once it is what the
/// settings say.
pub proof fn a_vm_is_created_in_order(app: AppView, tape: Tape)
    ensures
        ({
            let step = app.create_vm(tape);
            let cleared = remove_if_present_steps(app.paths.provisioned, tape);
            let marked = touch_steps(app.paths.state, app.paths.installing, cleared.tape);
            let built = app.build_vm(marked.tape);
            let listed = app.vm_exists(built.tape);
            let same = app.verify_config(listed.tape);
            let provisioned = touch_steps(app.paths.state, app.paths.provisioned, same.tape);
            let unmarked = remove_if_present_steps(app.paths.installing, provisioned.tape);
            &&& stops_with(step, cleared)
            &&& cleared.out is Ok ==> stops_with(step, marked)
            &&& cleared.out is Ok && marked.out is Ok ==> stops_with(step, built)
            &&& cleared.out is Ok && marked.out is Ok && built.out is Ok
                ==> stops_with(step, listed)
            &&& cleared.out is Ok && marked.out is Ok && built.out is Ok
                && listed.out == Ok::<bool, HaltView>(true) ==> stops_with(step, same)
            &&& cleared.out is Ok && marked.out is Ok && built.out is Ok
                && listed.out == Ok::<bool, HaltView>(true) && same.out is Ok
                ==> stops_with(step, provisioned)
            &&& cleared.out is Ok && marked.out is Ok && built.out is Ok
                && listed.out == Ok::<bool, HaltView>(true) && same.out is Ok
                && provisioned.out is Ok ==> stops_with(step, unmarked)
            &&& cleared.out is Ok && marked.out is Ok && built.out is Ok
                && listed.out == Ok::<bool, HaltView>(true) && same.out is Ok
                && provisioned.out is Ok ==> step == unmarked
        }),
{
    reveal(AppView::create_vm);
}

/// A VM is built with the public key of its configuration and the guest password.
pub proof fn a_vm_is_built_in_order(app: AppView, tape: Tape)
    ensures
        ({
            let step = app.build_vm(tape);
            let key = ask_text(Ask::ReadText(app.paths.public_key()), tape);
            let password = app.guest_password(key.tape);
            let said = printed(
                "creating "@ + app.config.vm_name + " from the pinned macOS image..."@,
                password.tape,
            );
            let built = app.packer(trimmed(key.out->Ok_0), password.out->Ok_0, said.tape);
            &&& stops_with(step, key)
            &&& key.out is Ok ==> stops_with(step, password)
            &&& key.out is Ok && password.out is Ok ==> stops_with(step, said)
            &&& key.out is Ok && password.out is Ok && said.out is Ok ==> stops_with(step, built)
            &&& key.out is Ok && password.out is Ok && said.out is Ok ==> step == built
        }),
{
    reveal(AppView::build_vm);
}

/// What an installation does is read off Tart and the two markers.
pub proof fn an_installation_is_planned_in_order(app: AppView, tape: Tape)
    ensures
        ({
            let step = app.install_plan(tape);
            let listed = app.vm_exists(tape);
            let provisioned = ask_flag(Ask::Exists(app.paths.provisioned), listed.tape);
            let installing = ask_flag(Ask::Exists(app.paths.installing), provisioned.tape);
            let same = app.verify_config(installing.tape);
            let unmarked = remove_if_present_steps(app.paths.installing, same.tape);
            &&& stops_with(step, listed)
            &&& listed.out is Ok ==> stops_with(step, provisioned)
            &&& listed.out is Ok && provisioned.out is Ok ==> stops_with(step, installing)
            &&& listed.out is Ok && provisioned.out is Ok
                && listed.out == Ok::<bool, HaltView>(true)
                && provisioned.out == Ok::<bool, HaltView>(true) && installing.out is Ok
                ==> stops_with(step, same)
            &&& listed.out is Ok && provisioned.out is Ok
                && listed.out == Ok::<bool, HaltView>(true)
                && provisioned.out == Ok::<bool, HaltView>(true) && installing.out is Ok
                && same.out is Ok ==> stops_with(step, unmarked)
        }),
{
    reveal(AppView::install_plan);
}

/// A VM that an installation left incomplete is deleted.
pub proof fn an_incomplete_vm_is_replaced_in_order(app: AppView, tape: Tape)
    ensures
        ({
            let step = app.install_plan(tape);
            let listed = app.vm_exists(tape);
            let provisioned = ask_flag(Ask::Exists(app.paths.provisioned), listed.tape);
            let installing = ask_flag(Ask::Exists(app.paths.installing), provisioned.tape);
            let said = printed("removing incomplete VM before retrying..."@, installing.tape);
            let deleted = app.delete_partial_vm(said.tape);
            &&& stops_with(step, listed)
            &&& listed.out == Ok::<bool, HaltView>(true) ==> stops_with(step, provisioned)
            &&& listed.out == Ok::<bool, HaltView>(true)
                && provisioned.out == Ok::<bool, HaltView>(false) ==> stops_with(step, installing)
            &&& listed.out == Ok::<bool, HaltView>(true)
                && provisioned.out == Ok::<bool, HaltView>(false)
                && installing.out == Ok::<bool, HaltView>(true) ==> stops_with(step, said)
            &&& listed.out == Ok::<bool, HaltView>(true)
                && provisioned.out == Ok::<bool, HaltView>(false)
                && installing.out == Ok::<bool, HaltView>(true) && said.out is Ok
                ==> stops_with(step, deleted)
        }),
{
    reveal(AppView::install_plan);
}

/// The command is linked where the user searches for commands.
pub proof fn the_command_is_installed_in_order(app: AppView, tape: Tape)
    ensures
        ({
            let step = app.install_command(tape);
            let made = private_dir_steps(app.paths.command_directory, tape);
            let linked = install_link_steps(
                join(join(app.paths.runtime, "bin"@), "gremvm"@),
                app.paths.command_link,
                made.tape,
            );
            &&& searched(app.host.search_path, app.paths.command_directory)
                ==> stops_with(step, made)
            &&& searched(app.host.search_path, app.paths.command_directory) && made.out is Ok
                ==> stops_with(step, linked)
            &&& searched(app.host.search_path, app.paths.command_directory) && made.out is Ok
                ==> step == linked
        }),
{
    reveal(AppView::install_command);
}

/// The runtime is the bundle that runs, once that is complete.
pub proof fn the_runtime_is_installed_in_order(app: AppView, tape: Tape)
    ensures
        ({
            let step = app.install_runtime(tape);
            let made = private_dir_steps(app.paths.root, tape);
            let kind = asked(Ask::LinkKind(app.paths.runtime), made.tape);
            let bundle = running_bundle_steps(kind.tape);
            let complete = complete_bundle_steps(bundle.out->Ok_0, bundle.tape);
            let kept = checked_steps(
                app.realise_command(bundle.out->Ok_0),
                "register the Nix runtime GC root"@,
                complete.tape,
            );
            let found = leads_to_steps(
                Ask::Canonicalize(app.paths.runtime),
                bundle.out->Ok_0,
                kept.tape,
            );
            &&& stops_with(step, made)
            &&& made.out is Ok ==> stops_with(step, kind)
            &&& made.out is Ok && kind.out is Ok
                && kind.out->Ok_0 != Reply::Link(LinkKind::Directory) ==> stops_with(step, bundle)
            &&& made.out is Ok && kind.out is Ok
                && kind.out->Ok_0 != Reply::Link(LinkKind::Directory) && bundle.out is Ok
                ==> stops_with(step, complete)
            &&& made.out is Ok && kind.out is Ok
                && kind.out->Ok_0 != Reply::Link(LinkKind::Directory) && bundle.out is Ok
                && complete.out is Ok ==> stops_with(step, kept)
            &&& made.out is Ok && kind.out is Ok
                && kind.out->Ok_0 != Reply::Link(LinkKind::Directory) && bundle.out is Ok
                && complete.out is Ok && kept.out is Ok ==> stops_with(step, found)
        }),
{
    reveal(AppView::install_runtime);
}

/// Packer is run with its plugin, on the storage of the VM.
pub proof fn packer_is_run_in_order(app: AppView, key: Seq<char>, password: Seq<char>, tape: Tape)
    ensures
        ({
            let step = app.packer(key, password, tape);
            let made = private_dir_steps(join(app.paths.state, "packer"@), tape);
            let plugin = ask_flag(
                Ask::IsDirectory(
                    join(
                        join(app.paths.runtime, "libexec/packer/plugins"@),
                        "github.com/cirruslabs/tart"@,
                    ),
                ),
                made.tape,
            );
            let ready = app.configure_tart_storage(
                CommandView::new(join(join(app.paths.runtime, "bin"@), "packer"@)),
                plugin.tape,
            );
            &&& stops_with(step, made)
            &&& made.out is Ok ==> stops_with(step, plugin)
            &&& made.out is Ok && plugin.out == Ok::<bool, HaltView>(true)
                ==> stops_with(step, ready)
        }),
{
    reveal(AppView::packer);
}

/// A key is generated where neither half of one is there.
pub proof fn a_new_key_is_generated_in_order(app: AppView, tape: Tape)
    ensures
        ({
            let step = app.install_ssh_key(CredentialPolicy::CreateIfMissing, tape);
            let made = private_dir_steps(app.paths.config_dir, tape);
            let private = ask_flag(Ask::Exists(app.paths.ssh_key), made.tape);
            let public = ask_flag(Ask::Exists(app.paths.ssh_key + ".pub"@), private.tape);
            let generated = success_steps(
                app.keygen_command(),
                "generate the SSH key"@,
                public.tape,
            );
            let half = ask_flag(Ask::IsFile(app.paths.ssh_key), generated.tape);
            let other = ask_flag(Ask::IsFile(app.paths.ssh_key + ".pub"@), half.tape);
            let hidden = ask_done(
                Ask::SetMode { path: app.paths.ssh_key, mode: 0o600 },
                other.tape,
            );
            let shown = ask_done(
                Ask::SetMode { path: app.paths.ssh_key + ".pub"@, mode: 0o644 },
                hidden.tape,
            );
            &&& stops_with(step, made)
            &&& made.out is Ok ==> stops_with(step, private)
            &&& made.out is Ok && private.out == Ok::<bool, HaltView>(false)
                ==> stops_with(step, public)
            &&& made.out is Ok && private.out == Ok::<bool, HaltView>(false)
                && public.out == Ok::<bool, HaltView>(false) ==> stops_with(step, generated)
            &&& made.out is Ok && private.out == Ok::<bool, HaltView>(false)
                && public.out == Ok::<bool, HaltView>(false) && generated.out is Ok
                ==> stops_with(step, half)
            &&& made.out is Ok && private.out == Ok::<bool, HaltView>(false)
                && public.out == Ok::<bool, HaltView>(false) && generated.out is Ok
                && half.out == Ok::<bool, HaltView>(true) ==> stops_with(step, other)
            &&& made.out is Ok && private.out == Ok::<bool, HaltView>(false)
                && public.out == Ok::<bool, HaltView>(false) && generated.out is Ok
                && half.out == Ok::<bool, HaltView>(true)
                && other.out == Ok::<bool, HaltView>(true) ==> stops_with(step, hidden)
            &&& made.out is Ok && private.out == Ok::<bool, HaltView>(false)
                && public.out == Ok::<bool, HaltView>(false) && generated.out is Ok
                && half.out == Ok::<bool, HaltView>(true)
                && other.out == Ok::<bool, HaltView>(true) && hidden.out is Ok
                ==> stops_with(step, shown)
            &&& made.out is Ok && private.out == Ok::<bool, HaltView>(false)
                && public.out == Ok::<bool, HaltView>(false) && generated.out is Ok
                && half.out == Ok::<bool, HaltView>(true)
                && other.out == Ok::<bool, HaltView>(true) && hidden.out is Ok ==> step == shown
        }),
{
    reveal(AppView::install_ssh_key);
}

/// Before a console opens: the session, the helper, the Keychains, the storage, Tart and
/// the bridge.
pub proof fn a_console_is_checked_in_order(app: AppView, tape: Tape)
    ensures
        ({
            let step = app.preflight_console(tape);
            let session = ensure_console_session_steps(app.host, app.paths.command_name(), tape);
            let cleared = app.clear_keychain_helper(session.tape);
            let own = app.ensure_keychain(KeychainMode::Current, cleared.tape);
            let resume = app.supervised(own.tape);
            let other = app.ensure_keychain(KeychainMode::BackgroundInteractive, resume.tape);
            let ready = app.ensure_storage(StorageAccess::Interactive, other.tape);
            let listed = app.vm_exists(ready.tape);
            let bridge = validate_bridge_steps(listed.tape);
            &&& stops_with(step, session)
            &&& session.out is Ok ==> stops_with(step, cleared)
            &&& session.out is Ok && cleared.out is Ok ==> stops_with(step, own)
            &&& session.out is Ok && cleared.out is Ok && own.out is Ok ==> stops_with(step, resume)
            &&& session.out is Ok && cleared.out is Ok && own.out is Ok
                && resume.out == Ok::<bool, HaltView>(true) ==> stops_with(step, other)
            &&& session.out is Ok && cleared.out is Ok && own.out is Ok
                && resume.out == Ok::<bool, HaltView>(true) && other.out is Ok
                ==> stops_with(step, ready)
            &&& session.out is Ok && cleared.out is Ok && own.out is Ok
                && resume.out == Ok::<bool, HaltView>(true) && other.out is Ok && ready.out is Ok
                ==> stops_with(step, listed)
            &&& session.out is Ok && cleared.out is Ok && own.out is Ok
                && resume.out == Ok::<bool, HaltView>(true) && other.out is Ok && ready.out is Ok
                && listed.out == Ok::<bool, HaltView>(true) ==> stops_with(step, bridge)
        }),
{
    reveal(AppView::preflight_console);
}

/// Where no service runs the VM, its Keychain is not needed.
pub proof fn a_lone_console_is_checked_in_order(app: AppView, tape: Tape)
    ensures
        ({
            let step = app.preflight_console(tape);
            let session = ensure_console_session_steps(app.host, app.paths.command_name(), tape);
            let cleared = app.clear_keychain_helper(session.tape);
            let own = app.ensure_keychain(KeychainMode::Current, cleared.tape);
            let resume = app.supervised(own.tape);
            let ready = app.ensure_storage(StorageAccess::Interactive, resume.tape);
            let listed = app.vm_exists(ready.tape);
            let bridge = validate_bridge_steps(listed.tape);
            &&& stops_with(step, session)
            &&& session.out is Ok ==> stops_with(step, cleared)
            &&& session.out is Ok && cleared.out is Ok ==> stops_with(step, own)
            &&& session.out is Ok && cleared.out is Ok && own.out is Ok ==> stops_with(step, resume)
            &&& session.out is Ok && cleared.out is Ok && own.out is Ok
                && resume.out == Ok::<bool, HaltView>(false) ==> stops_with(step, ready)
            &&& session.out is Ok && cleared.out is Ok && own.out is Ok
                && resume.out == Ok::<bool, HaltView>(false) && ready.out is Ok
                ==> stops_with(step, listed)
            &&& session.out is Ok && cleared.out is Ok && own.out is Ok
                && resume.out == Ok::<bool, HaltView>(false) && ready.out is Ok
                && listed.out == Ok::<bool, HaltView>(true) ==> stops_with(step, bridge)
        }),
{
    reveal(AppView::preflight_console);
}

/// A console opens once the VM is prepared, in a session that is still unlocked, and
/// unless a signal came.
pub proof fn a_console_opens_in_order(app: AppView, resume: bool, tape: Tape)
    ensures
        ({
            let step = app.open_console(resume, tape);
            let session = ensure_console_session_steps(app.host, app.paths.command_name(), tape);
            let prepared = app.prepare_console(resume, session.tape);
            let again = ensure_console_session_steps(
                app.host,
                app.paths.command_name(),
                prepared.tape,
            );
            let signal = ask_flag(Ask::SignalPending, again.tape);
            let shown = app.show_console(signal.tape);
            &&& stops_with(step, session)
            &&& session.out is Ok ==> stops_with(step, prepared)
            &&& session.out is Ok && prepared.out is Ok ==> stops_with(step, again)
            &&& session.out is Ok && prepared.out is Ok && again.out is Ok
                ==> stops_with(step, signal)
            &&& session.out is Ok && prepared.out is Ok && again.out is Ok
                && signal.out == Ok::<bool, HaltView>(false) ==> stops_with(step, shown)
            &&& session.out is Ok && prepared.out is Ok && again.out is Ok
                && signal.out == Ok::<bool, HaltView>(false) ==> step == shown
        }),
{
    reveal(AppView::open_console);
}

/// The marker goes, the VM is saved, the service unloaded, and the state looked at.
pub proof fn a_console_is_prepared_in_order(app: AppView, resume: bool, tape: Tape)
    ensures
        ({
            let step = app.prepare_console(resume, tape);
            let unmarked = remove_if_present_steps(app.paths.run_marker, tape);
            let source = app.console_source(resume, unmarked.tape);
            let unloaded = app.unload_service(source.tape);
            let seen = app.vm_info(unloaded.tape);
            let handed = handed_over(source.out->Ok_0, seen.out->Ok_0.state, seen.tape);
            &&& stops_with(step, unmarked)
            &&& unmarked.out is Ok ==> stops_with(step, source)
            &&& unmarked.out is Ok && source.out is Ok ==> stops_with(step, unloaded)
            &&& unmarked.out is Ok && source.out is Ok && unloaded.out is Ok
                ==> stops_with(step, seen)
            &&& unmarked.out is Ok && source.out is Ok && unloaded.out is Ok && seen.out is Ok
                ==> stops_with(step, handed)
            &&& unmarked.out is Ok && source.out is Ok && unloaded.out is Ok && seen.out is Ok
                ==> step == handed
        }),
{
    reveal(AppView::prepare_console);
}

/// The console is started on the storage of the VM, watched to its end, and the VM looked
/// at.
pub proof fn a_console_is_shown_in_order(app: AppView, tape: Tape)
    ensures
        ({
            let step = app.show_console(tape);
            let said = printed(
                "opening Tart recovery console; this command stays active until it closes..."@,
                tape,
            );
            let ready = app.configure_tart_storage(
                CommandView::new("/usr/bin/caffeinate"@),
                said.tape,
            );
            let started = ask_done(Ask::Spawn(app.console_command(ready.out->Ok_0)), ready.tape);
            let waited = slept(250, started.tape);
            let ended = app.watch_console(waited.tape);
            let seen = app.vm_info(ended.tape);
            &&& stops_with(step, said)
            &&& said.out is Ok ==> stops_with(step, ready)
            &&& said.out is Ok && ready.out is Ok ==> stops_with(step, started)
            &&& said.out is Ok && ready.out is Ok && started.out is Ok ==> stops_with(step, waited)
            &&& said.out is Ok && ready.out is Ok && started.out is Ok && waited.out is Ok
                ==> stops_with(step, ended)
            &&& said.out is Ok && ready.out is Ok && started.out is Ok && waited.out is Ok
                && ended.out is Ok && ended.out->Ok_0.success ==> stops_with(step, seen)
        }),
{
    reveal(AppView::show_console);
}

/// A running VM is saved before the console takes it over.
pub proof fn a_running_vm_is_saved_for_the_console(app: AppView, resume: bool, tape: Tape)
    ensures
        ({
            let step = app.console_source(resume, tape);
            let seen = app.vm_info(tape);
            let saved = app.save_state(seen.tape);
            &&& stops_with(step, seen)
            &&& seen.out is Ok && seen.out->Ok_0.state == VmState::Running
                ==> stops_with(step, saved)
        }),
{
    reveal(AppView::console_source);
}

/// A VM is saved by Tart, and waited for from then on.
pub proof fn a_vm_is_saved_in_order(app: AppView, tape: Tape)
    ensures
        ({
            let step = app.save_state(tape);
            let said = printed("saving VM state; this can take several minutes..."@, tape);
            let tart = app.tart(said.tape);
            let asked_to = success_steps(
                app.suspend_command(tart.out->Ok_0),
                "suspend the VM"@,
                tart.tape,
            );
            let clock = ask_instant(asked_to.tape);
            let saved = app.await_suspended(clock.out->Ok_0, clock.tape);
            &&& stops_with(step, said)
            &&& said.out is Ok ==> stops_with(step, tart)
            &&& said.out is Ok && tart.out is Ok ==> stops_with(step, asked_to)
            &&& said.out is Ok && tart.out is Ok && asked_to.out is Ok ==> stops_with(step, clock)
            &&& said.out is Ok && tart.out is Ok && asked_to.out is Ok && clock.out is Ok
                ==> stops_with(step, saved)
            &&& said.out is Ok && tart.out is Ok && asked_to.out is Ok && clock.out is Ok
                ==> step == saved
        }),
{
    reveal(AppView::save_state);
}

/// A VM whose service does not run it yet is started before the console takes it over.
pub proof fn the_background_runs_first(app: AppView, tape: Tape)
    ensures
        ({
            let step = app.start_background(tape);
            let seen = app.vm_info(tape);
            let said = printed(
                "starting the background VM before opening the console..."@,
                seen.tape,
            );
            let started = app.start_service(said.tape);
            let found = app.wait_for_ssh(300, started.tape);
            &&& stops_with(step, seen)
            &&& seen.out is Ok && seen.out->Ok_0.state != VmState::Running
                ==> stops_with(step, said)
            &&& seen.out is Ok && seen.out->Ok_0.state != VmState::Running && said.out is Ok
                ==> stops_with(step, started)
            &&& seen.out is Ok && seen.out->Ok_0.state != VmState::Running && said.out is Ok
                && started.out is Ok ==> stops_with(step, found)
        }),
{
    reveal(AppView::start_background);
}

/// A VM that a service ran is run by it again once the console has closed.
pub proof fn a_console_gives_back_in_order(app: AppView, tape: Tape)
    ensures
        ({
            let step = app.console(tape);
            let ready = app.preflight_console(tape);
            let running = app.start_background(ready.tape);
            let shown = app.guarded_console(true, running.tape);
            let said = printed("console closed; restoring the background VM..."@, shown.tape);
            let resumed = app.start_ready(said.tape);
            &&& stops_with(step, ready)
            &&& ready.out == Ok::<bool, HaltView>(true) ==> stops_with(step, running)
            &&& ready.out == Ok::<bool, HaltView>(true) && running.out is Ok
                ==> stops_with(step, shown)
            &&& ready.out == Ok::<bool, HaltView>(true) && running.out is Ok && shown.out is Ok
                ==> stops_with(step, said)
            &&& ready.out == Ok::<bool, HaltView>(true) && running.out is Ok && shown.out is Ok
                && said.out is Ok ==> stops_with(step, resumed)
            &&& ready.out == Ok::<bool, HaltView>(true) && running.out is Ok && shown.out is Ok
                && said.out is Ok ==> step == resumed
        }),
{
    reveal(AppView::console);
}

/// A VM that no service ran is left as the console left it.
pub proof fn a_lone_console_ends_in_order(app: AppView, tape: Tape)
    ensures
        ({
            let step = app.console(tape);
            let ready = app.preflight_console(tape);
            let shown = app.guarded_console(false, ready.tape);
            &&& stops_with(step, ready)
            &&& ready.out == Ok::<bool, HaltView>(false) ==> stops_with(step, shown)
            &&& ready.out == Ok::<bool, HaltView>(false) ==> step == shown
        }),
{
    reveal(AppView::console);
}

/// Whether a VM is saved is seen in its state.
pub proof fn a_saved_state_is_waited_for(app: AppView, start: u64, tape: Tape)
    ensures
        ({
            let step = app.await_suspended(start, tape);
            let seen = app.vm_info(tape);
            &&& stops_with(step, seen)
        }),
{
    reveal(AppView::await_suspended);
}

/// A signal saves the VM of the console, in a session that is still unlocked.
pub proof fn a_signal_suspends_the_console_in_order(app: AppView, tape: Tape)
    ensures
        ({
            let step = app.watch_console(tape);
            let polled = asked(Ask::PollChild, tape);
            let signal = ask_flag(Ask::SignalPending, polled.tape);
            let session = ensure_console_session_steps(
                app.host,
                app.paths.command_name(),
                signal.tape,
            );
            let ended = app.suspend_console_process(session.tape);
            &&& stops_with(step, polled)
            &&& polled.out == Ok::<Reply, HaltView>(Reply::Running) ==> stops_with(step, signal)
            &&& polled.out == Ok::<Reply, HaltView>(Reply::Running)
                && signal.out == Ok::<bool, HaltView>(true) ==> stops_with(step, session)
            &&& polled.out == Ok::<Reply, HaltView>(Reply::Running)
                && signal.out == Ok::<bool, HaltView>(true) && session.out is Ok
                ==> stops_with(step, ended)
            &&& polled.out == Ok::<Reply, HaltView>(Reply::Running)
                && signal.out == Ok::<bool, HaltView>(true) && session.out is Ok ==> step == ended
        }),
{
    reveal(AppView::watch_console);
}

/// The VM of a console is asked to suspend until Tart takes that on, and then waited for.
pub proof fn the_console_is_asked_in_order(app: AppView, start: u64, tape: Tape)
    ensures
        ({
            let step = app.end_console(start, tape);
            let polled = asked(Ask::PollChild, tape);
            let sent = app.send_suspend(polled.tape);
            let ended = app.await_console_end(start, sent.tape);
            &&& stops_with(step, polled)
            &&& polled.out == Ok::<Reply, HaltView>(Reply::Running) ==> stops_with(step, sent)
            &&& polled.out == Ok::<Reply, HaltView>(Reply::Running)
                && sent.out == Ok::<bool, HaltView>(true) ==> stops_with(step, ended)
            &&& polled.out == Ok::<Reply, HaltView>(Reply::Running)
                && sent.out == Ok::<bool, HaltView>(true) ==> step == ended
        }),
{
    reveal(AppView::end_console);
}

/// The time that a console has to suspend starts when it is asked.
pub proof fn the_time_of_a_console_is_taken(app: AppView, tape: Tape)
    ensures
        ({
            let step = app.suspend_console_process(tape);
            let clock = ask_instant(tape);
            let ended = app.end_console(clock.out->Ok_0, clock.tape);
            &&& stops_with(step, clock)
            &&& clock.out is Ok ==> stops_with(step, ended)
            &&& clock.out is Ok ==> step == ended
        }),
{
    reveal(AppView::suspend_console_process);
}

/// Whether a VM exists is asked of Tart.
pub proof fn tart_lists_vms_in_order(app: AppView, tape: Tape)
    ensures
        ({
            let step = app.vm_exists(tape);
            let tart = app.tart(tape);
            let told = checked_steps(list_command(tart.out->Ok_0), "run Tart"@, tart.tape);
            &&& stops_with(step, tart)
            &&& tart.out is Ok ==> stops_with(step, told)
        }),
{
    reveal(AppView::vm_exists);
}

/// What a VM is, is asked of Tart.
pub proof fn tart_describes_a_vm_in_order(app: AppView, tape: Tape)
    ensures
        ({
            let step = app.vm_info(tape);
            let tart = app.tart(tape);
            let told = checked_steps(app.get_command(tart.out->Ok_0), "run Tart"@, tart.tape);
            &&& stops_with(step, tart)
            &&& tart.out is Ok ==> stops_with(step, told)
        }),
{
    reveal(AppView::vm_info);
}

/// A number of the kernel is asked of it.
pub proof fn a_number_is_asked_of_the_kernel(name: Seq<char>, tape: Tape)
    ensures
        ({
            let step = sysctl_steps(name, tape);
            let told = checked_steps(sysctl_command(name), "run sysctl"@, tape);
            &&& stops_with(step, told)
        }),
{
}

/// The state of Tailscale is asked of the guest.
pub proof fn the_guest_is_asked_about_tailscale(app: AppView, ip: Seq<char>, tape: Tape)
    ensures
        ({
            let step = app.tailscale_state(ip, tape);
            let told = checked_steps(
                app.ssh_command(ip).arg(STATE_SCRIPT@),
                "inspect Tailscale in the guest"@,
                tape,
            );
            &&& stops_with(step, told)
        }),
{
    reveal(AppView::tailscale_state);
}

/// The digest is that of the packaged Tailscale.
pub proof fn the_packaged_tailscale_is_hashed(app: AppView, tape: Tape)
    ensures
        ({
            let step = app.tailscale_digest(tape);
            let told = checked_steps(
                CommandView::new("/usr/bin/shasum"@).option("-a"@, "256"@).arg(
                    app.paths.guest_tailscale,
                ),
                "hash the packaged Tailscale binary"@,
                tape,
            );
            &&& stops_with(step, told)
        }),
{
    reveal(AppView::tailscale_digest);
}

/// The terminal is looked for where input and errors are one.
pub proof fn the_terminal_is_found_in_order(tape: Tape)
    ensures
        ({
            let step = interactive_terminal_steps(tape);
            let kinds = asked(Ask::Terminals, tape);
            let found = checked_steps(
                CommandView::new("/usr/bin/tty"@).input(InputView::Inherited),
                "locate the interactive terminal"@,
                kinds.tape,
            );
            &&& stops_with(step, kinds)
            &&& kinds.out == Ok::<Reply, HaltView>(Reply::Terminals { input: true, errors: true })
                ==> stops_with(step, found)
            &&& kinds.out == Ok::<Reply, HaltView>(Reply::Terminals { input: true, errors: true })
                ==> step == found
        }),
{
}

/// The volume of a path is the one of its device.
pub proof fn the_volume_of_a_path_is_found_in_order(path: Seq<char>, tape: Tape)
    ensures
        ({
            let step = volume_for_path_steps(path, tape);
            let told = checked_steps(
                device_command(path),
                "inspect the storage directory filesystem"@,
                tape,
            );
            let seen = volume_info_steps(device_of(told.out->Ok_0)->0, told.tape);
            &&& stops_with(step, told)
            &&& told.out is Ok && device_of(told.out->Ok_0) is Some ==> stops_with(step, seen)
            &&& told.out is Ok && device_of(told.out->Ok_0) is Some ==> step == seen
        }),
{
}

/// A volume whose place macOS chooses is mounted where nothing is yet.
pub proof fn a_volume_is_mounted_in_its_own_place(storage: VolumeStorageView, tape: Tape)
    ensures
        ({
            let step = mount_volume_steps(storage, tape);
            let there = ask_flag(Ask::Exists(storage.mount_point), tape);
            let mounted = success_steps(
                mount_command(storage),
                "mount the VM storage volume"@,
                there.tape,
            );
            &&& same_place(storage.mount_point, join("/Volumes"@, storage.name))
                ==> stops_with(step, there)
            &&& same_place(storage.mount_point, join("/Volumes"@, storage.name))
                && there.out == Ok::<bool, HaltView>(false) ==> stops_with(step, mounted)
            &&& same_place(storage.mount_point, join("/Volumes"@, storage.name))
                && there.out == Ok::<bool, HaltView>(false) ==> step == mounted
        }),
{
}

/// A volume whose place the user chose is mounted on an empty directory.
pub proof fn a_volume_is_mounted_in_a_chosen_place(storage: VolumeStorageView, tape: Tape)
    ensures
        ({
            let step = mount_volume_steps(storage, tape);
            let there = ask_flag(Ask::IsDirectory(storage.mount_point), tape);
            let empty = ask_flag(Ask::IsEmpty(storage.mount_point), there.tape);
            let mounted = success_steps(
                mount_command(storage),
                "mount the VM storage volume"@,
                empty.tape,
            );
            &&& !same_place(storage.mount_point, join("/Volumes"@, storage.name))
                ==> stops_with(step, there)
            &&& !same_place(storage.mount_point, join("/Volumes"@, storage.name))
                && there.out == Ok::<bool, HaltView>(true) ==> stops_with(step, empty)
            &&& !same_place(storage.mount_point, join("/Volumes"@, storage.name))
                && there.out == Ok::<bool, HaltView>(true)
                && empty.out == Ok::<bool, HaltView>(true) ==> stops_with(step, mounted)
            &&& !same_place(storage.mount_point, join("/Volumes"@, storage.name))
                && there.out == Ok::<bool, HaltView>(true)
                && empty.out == Ok::<bool, HaltView>(true) ==> step == mounted
        }),
{
}

/// A directory is looked at, and a volume made available, each as what it was recorded.
pub proof fn storage_is_made_available_by_its_kind(app: AppView, access: StorageAccess, tape: Tape)
    ensures
        ({
            let step = app.ensure_storage(access, tape);
            let ready = match app.config.storage {
                StorageView::Default => done((), tape),
                StorageView::Directory { path } => ensure_directory_steps(path, tape),
                StorageView::PlainVolume(volume) => app.ensure_volume(
                    volume,
                    VolumeKind::Plain,
                    access,
                    tape,
                ),
                StorageView::EncryptedVolume(volume) => app.ensure_volume(
                    volume,
                    VolumeKind::Encrypted,
                    access,
                    tape,
                ),
            };
            &&& stops_with(step, ready)
            &&& step == ready
        }),
{
    reveal(AppView::ensure_storage);
}

} // verus!
