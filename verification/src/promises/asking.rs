//! What the user asks for: under which lock, with which settings, and what is done.

use crate::app::AppView;
use crate::cli::{
    acted_steps, called_name, managed_steps, management_lock_steps, run_installer_steps, run_steps,
    ActionView,
};
use crate::config::{loaded, ConfigView, StorageView};
use crate::error::Messages;
use crate::files::{is_executable_steps, private_dir_steps};
use crate::host::{HostView, PathsView};
use crate::instance::IdentityView;
use crate::options::{load_steps, storage_for_steps, vm_name_steps, InstallOptionsView};
use crate::password::PasswordChoice;
use crate::path::{file_name, join};
use crate::promises::values::{same_settings_describe_one_vm, same_vm};
use crate::session::{Ask, HaltView, Reply, Step, Tape};
use crate::tailscale::TailscaleAction;
use crate::unlock::{internal_keychain_steps, KeychainHelperMode};
use vstd::prelude::*;

verus! {

/// A command is called by the last step of its path, and `gremvm` where it has none.
pub proof fn commands_know_their_name(program: Option<Seq<char>>)
    ensures
        program is None ==> called_name(program) == "gremvm"@,
        program matches Some(path) ==> match file_name(path) {
            Some(name) => called_name(program) == name,
            None => called_name(program) == "gremvm"@,
        },
{
}

/// The lock is a file in the directory of the state, which is there first. It is had
/// exactly where the host says that no other command has it.
pub proof fn one_command_has_the_lock(paths: PathsView, tape: Tape)
    ensures
        ({
            let made = private_dir_steps(paths.state, tape);
            let step = management_lock_steps(paths, tape);
            &&& made.out is Err ==> step == made
            &&& made.out is Ok && made.tape.ahead(0) is None ==> step.waits_for(
                Ask::Lock(join(paths.state, "management.lock"@)),
            )
            &&& made.out is Ok && made.tape.ahead(0) == Some(Reply::Flag(false)) ==> step.refuses(
                "another "@ + paths.command_name() + " management command is running"@,
            )
            &&& step.out is Ok <==> made.out is Ok && made.tape.ahead(0) == Some(Reply::Flag(true))
            &&& step.out is Ok ==> step.tape == made.tape.later(1)
        }),
{
}

/// Each word of the command line does its own work.
pub proof fn every_action_does_its_own_work(
    app: AppView,
    command: Seq<Seq<char>>,
    mode: KeychainHelperMode,
    tape: Tape,
)
    ensures
        app.dispatch(ActionView::Status, tape) == app.status(tape),
        app.dispatch(ActionView::Start, tape) == app.start(tape),
        app.dispatch(ActionView::Stop, tape) == app.stop(tape),
        app.dispatch(ActionView::Restart, tape) == app.restart(tape),
        app.dispatch(ActionView::Ssh { command }, tape) == app.ssh(command, tape),
        app.dispatch(ActionView::ScreenShare, tape) == app.screen_share(tape),
        app.dispatch(ActionView::Console, tape) == app.console(tape),
        app.dispatch(ActionView::Tailscale { action: TailscaleAction::Setup }, tape)
            == app.tailscale(TailscaleAction::Setup, tape),
        app.dispatch(ActionView::Tailscale { action: TailscaleAction::Status }, tape)
            == app.tailscale(TailscaleAction::Status, tape),
        app.dispatch(ActionView::Logs { follow: true }, tape) == app.logs(true, tape),
        app.dispatch(ActionView::Logs { follow: false }, tape) == app.logs(false, tape),
        app.dispatch(ActionView::Uninstall, tape) == app.uninstall(tape),
        app.dispatch(ActionView::InternalRun, tape) == app.internal_run(tape),
        app.dispatch(ActionView::InternalKeychain { mode }, tape) == internal_keychain_steps(
            app.paths,
            mode,
            tape,
        ),
{
}

/// Saved settings are what the file of the VM says, checked for the VM.
pub proof fn saved_settings_are_read(paths: PathsView, tape: Tape)
    ensures
        ({
            let step = load_steps(paths, tape);
            &&& tape.ahead(0) is None ==> step.waits_for(Ask::ReadConfig(paths.config_file))
            &&& step.out is Ok ==> step.tape == tape.later(1)
            &&& step.out matches Ok(config) ==> (tape.ahead(0) matches Some(Reply::Config(stored))
                && loaded(stored, paths.identity) == Ok::<ConfigView, Messages>(config))
            &&& tape.ahead(0) matches Some(Reply::Config(stored)) ==> match loaded(
                stored,
                paths.identity,
            ) {
                Ok(config) => step.out == Ok::<ConfigView, HaltView>(config),
                Err(messages) => step.out == Err::<ConfigView, HaltView>(
                    HaltView::Failed(messages),
                ),
            }
        }),
{
}

/// An action works with the settings that were saved: it is refused where none were, and
/// it says so where they cannot be used.
pub proof fn actions_need_saved_settings(
    host: HostView,
    paths: PathsView,
    action: ActionView,
    tape: Tape,
)
    ensures
        ({
            let read = load_steps(paths, tape.later(1));
            let saved = tape.ahead(0) == Some(Reply::Flag(true));
            let step = managed_steps(host, paths, action, tape);
            &&& tape.ahead(0) is None ==> step.waits_for(Ask::IsFile(paths.config_file))
            &&& tape.ahead(0) == Some(Reply::Flag(false)) ==> step.refuses(
                "configuration is missing; run '"@ + paths.install_hint() + "'"@,
            )
            &&& step.out is Ok ==> saved && read.out is Ok
            &&& saved ==> match read.out {
                Ok(config) => step == (AppView { host, paths, config }).dispatch(
                    action,
                    read.tape,
                ),
                Err(HaltView::Failed(messages)) => step.out == Err::<(), HaltView>(
                    HaltView::Failed(seq!["persisted configuration is invalid"@] + messages),
                ),
                Err(halt) => step.out == Err::<(), HaltView>(halt),
            }
        }),
{
}

/// The actions that change a VM take its lock first; those that only look take none.
pub proof fn changes_are_made_under_the_lock(
    host: HostView,
    paths: PathsView,
    action: ActionView,
    tape: Tape,
)
    ensures
        ({
            let lock = management_lock_steps(paths, tape);
            let step = acted_steps(host, paths, action, tape);
            &&& action is Start || action is Stop || action is Restart || action is Console
                || action is Uninstall || action == (ActionView::Tailscale {
                action: TailscaleAction::Setup,
            }) ==> match lock.out {
                Ok(_) => step == managed_steps(host, paths, action, lock.tape),
                Err(halt) => step.out == Err::<(), HaltView>(halt),
            }
            &&& action is Ssh || action is ScreenShare || action is Logs || action is InternalRun
                || action == (ActionView::Tailscale { action: TailscaleAction::Status }) ==> step
                == managed_steps(host, paths, action, tape)
            &&& action matches ActionView::InternalKeychain { mode } ==> step
                == internal_keychain_steps(paths, mode, tape)
        }),
{
}

/// Without its Tart a VM is not installed, and its state is no error.
pub proof fn a_vm_without_tart_is_not_installed(host: HostView, paths: PathsView, tape: Tape)
    ensures
        ({
            let looked = is_executable_steps(join(join(paths.runtime, "bin"@), "tart"@), tape);
            let step = acted_steps(host, paths, ActionView::Status, tape);
            &&& looked.out == Ok::<bool, HaltView>(true) ==> step == managed_steps(
                host,
                paths,
                ActionView::Status,
                looked.tape,
            )
            &&& looked.out == Ok::<bool, HaltView>(false) && looked.tape.ahead(0) is None
                ==> step.waits_for(Ask::Print("state: not-installed"@))
            &&& looked.out == Ok::<bool, HaltView>(false) && looked.tape.ahead(0) == Some(
                Reply::Done,
            ) ==> step.out is Ok
            &&& looked.out matches Err(halt) ==> step.out == Err::<(), HaltView>(halt)
        }),
{
}

/// A command works on the VM of its own name, and does nothing where that is no name.
pub proof fn commands_work_on_the_vm_of_their_name(
    host: HostView,
    name: Seq<char>,
    action: ActionView,
    tape: Tape,
)
    ensures
        match PathsView::discover(name, host) {
            Ok(paths) => run_steps(host, name, action, tape) == acted_steps(
                host,
                paths,
                action,
                tape,
            ),
            Err(messages) => run_steps(host, name, action, tape).out == Err::<(), HaltView>(
                HaltView::Failed(messages),
            ),
        },
{
}

/// The installer takes the lock of the VM that its options name, then works out the
/// settings, and installs with those.
pub proof fn the_installer_works_under_the_lock(
    host: HostView,
    options: InstallOptionsView,
    tape: Tape,
)
    ensures
        ({
            let step = run_installer_steps(host, options, tape);
            match PathsView::discover(options.name, host) {
                Ok(paths) => {
                    let lock = management_lock_steps(paths, tape);
                    let chosen = options.resolve(paths, lock.tape);
                    &&& step.out is Ok ==> lock.out is Ok && chosen.out is Ok
                    &&& lock.out matches Err(halt) ==> step.out == Err::<(), HaltView>(halt)
                    &&& lock.out is Ok ==> match chosen.out {
                        Ok((config, choice)) => step == (AppView { host, paths, config }).install(
                            choice,
                            chosen.tape,
                        ),
                        Err(halt) => step.out == Err::<(), HaltView>(halt),
                    }
                },
                Err(messages) => step.out == Err::<(), HaltView>(HaltView::Failed(messages)),
            }
        }),
{
}

/// A VM has the name of its command. `gremvm` keeps the name that was saved, and has its
/// own where none was.
pub proof fn vms_are_named_like_their_command(paths: PathsView, tape: Tape)
    ensures
        ({
            let step = vm_name_steps(paths, tape);
            let read = load_steps(paths, tape.later(1));
            &&& paths.identity matches IdentityView::Named(name) ==> step == (Step {
                tape,
                out: Ok::<Seq<char>, HaltView>(name),
            })
            &&& paths.identity is Gremvm ==> {
                &&& tape.ahead(0) is None ==> step.waits_for(Ask::Exists(paths.config_file))
                &&& tape.ahead(0) == Some(Reply::Flag(false)) ==> step.out == Ok::<
                    Seq<char>,
                    HaltView,
                >("gremvm"@) && step.tape == tape.later(1)
                &&& tape.ahead(0) == Some(Reply::Flag(true)) ==> match read.out {
                    Ok(config) => step.out == Ok::<Seq<char>, HaltView>(config.vm_name)
                        && step.tape == read.tape,
                    Err(HaltView::Failed(messages)) => step.out == Err::<Seq<char>, HaltView>(
                        HaltView::Failed(seq!["persisted configuration is invalid"@] + messages),
                    ),
                    Err(halt) => step.out == Err::<Seq<char>, HaltView>(halt),
                }
                &&& step.out is Ok ==> tape.ahead(0) == Some(Reply::Flag(true)) || tape.ahead(0)
                    == Some(Reply::Flag(false))
            }
        }),
{
}

/// The settings say what the options say, each under its own name, and the password is
/// asked for exactly where the user wants to choose it.
pub proof fn settings_are_those_of_the_options(
    options: InstallOptionsView,
    paths: PathsView,
    tape: Tape,
)
    ensures
        ({
            let step = options.resolve(paths, tape);
            let stored = match options.storage {
                None => Step { tape, out: Ok::<StorageView, HaltView>(StorageView::Default) },
                Some(path) => storage_for_steps(path, paths.home, tape),
            };
            let named = vm_name_steps(paths, stored.tape);
            &&& step.out is Ok <==> stored.out is Ok && named.out is Ok
            &&& stored.out matches Err(halt) ==> step.out == Err::<
                (ConfigView, PasswordChoice),
                HaltView,
            >(halt)
            &&& stored.out is Ok ==> (named.out matches Err(halt) ==> step.out == Err::<
                (ConfigView, PasswordChoice),
                HaltView,
            >(halt))
            &&& step.out matches Ok((config, choice)) ==> {
                &&& named.out == Ok::<Seq<char>, HaltView>(config.vm_name)
                &&& stored.out == Ok::<StorageView, HaltView>(config.storage)
                &&& config.guest_user == options.guest_user
                &&& config.cpu_count == options.cpu_count
                &&& config.memory_gb == options.memory_gb
                &&& config.disk_gb == options.disk_gb
                &&& choice is Prompt <==> options.ask_password
                &&& choice is Generate <==> !options.ask_password
                &&& step.tape == named.tape
            }
        }),
{
}

/// An installation goes on only where nothing is saved, or what is saved describes the
/// same VM.
pub proof fn saved_settings_are_not_changed(config: ConfigView, paths: PathsView, tape: Tape)
    ensures
        ({
            let step = config.check_existing(paths, tape);
            let read = load_steps(paths, tape.later(1));
            let there = tape.ahead(0) == Some(Reply::Flag(true));
            &&& tape.ahead(0) is None ==> step.waits_for(Ask::Exists(paths.config_file))
            &&& tape.ahead(0) == Some(Reply::Flag(false)) ==> step.out is Ok && step.tape
                == tape.later(1)
            &&& step.out is Ok ==> tape.ahead(0) == Some(Reply::Flag(false)) || (there && (
            read.out matches Ok(saved) && same_vm(saved, config)))
            &&& there ==> match read.out {
                Ok(saved) => if same_vm(saved, config) {
                    step.out is Ok && step.tape == read.tape
                } else {
                    step.refuses(
                        "install settings differ from the saved configuration at "@
                            + paths.config_file,
                    )
                },
                Err(halt) => step.out == Err::<(), HaltView>(halt),
            }
        }),
{
    let read = load_steps(paths, tape.later(1));
    if read.out is Ok {
        same_settings_describe_one_vm(read.out->Ok_0, config);
    }
}

/// Settings are saved in the directory and the file of the VM, whole and as they are.
pub proof fn settings_are_saved_in_their_file(config: ConfigView, paths: PathsView, tape: Tape)
    ensures
        ({
            let made = private_dir_steps(paths.config_dir, tape);
            let step = config.persist(paths, tape);
            &&& made.out is Err ==> step == made
            &&& made.out is Ok && made.tape.ahead(0) is None ==> step.waits_for(
                Ask::PublishConfig {
                    directory: paths.config_dir,
                    path: paths.config_file,
                    config,
                },
            )
            &&& step.out is Ok <==> made.out is Ok && made.tape.ahead(0) == Some(Reply::Done)
            &&& step.out is Ok ==> step.tape == made.tape.later(1)
        }),
{
}

} // verus!
