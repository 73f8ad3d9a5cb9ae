//! The recovery console: how a VM leaves the background and comes back.

use crate::app::AppView;
use crate::command::{CommandView, InputView, Sink};
use crate::conduct::{configure_tart_storage_bounded, vm_info_bounded, watch_console_bounded};
use crate::console::{ConsoleSource, EndedView};
use crate::facts::VmState;
use crate::files::remove_if_present_steps;
use crate::machine::validate_bridge_steps;
use crate::promises::{attached, program, stops_with, with_arguments};
use crate::promises::commands::{the_command_of_the_console, the_commands_of_tart};
use crate::promises::steps::removed_files_are_gone;
use crate::promises::vm::{
    commands_get_available_storage, tart_describes_the_vm, tart_is_the_packaged_one,
};
use crate::remote::ensure_console_session_steps;
use crate::session::{Ask, HaltView, Reply, Tape};
use crate::unlock::KeychainMode;
use crate::volume::StorageAccess;
use vstd::prelude::*;

verus! {

/// A round of waiting for a VM to be saved: only a suspended one is; a stopped one was
/// lost, and five minutes are too many.
pub proof fn saving_is_waited_for(app: AppView, start: u64, tape: Tape)
    ensures
        ({
            let seen = app.vm_info(tape);
            let step = app.await_suspended(start, tape);
            &&& stops_with(step, seen)
            &&& seen.out matches Ok(vm) ==> {
                &&& step.out is Ok <==> vm.state == VmState::Suspended
                &&& vm.state == VmState::Suspended ==> step.tape == seen.tape
                &&& vm.state == VmState::Stopped ==> step.refuses(
                    "the VM stopped before Tart could suspend it"@,
                )
                &&& vm.state == VmState::Running && seen.tape.ahead(0) is None ==> step.waits_for(
                    Ask::Now,
                )
                &&& vm.state == VmState::Running ==> (seen.tape.ahead(0) matches Some(
                    Reply::Instant(now),
                ) ==> {
                    &&& now - start >= 300000 ==> step.refuses(
                        "timed out waiting for the VM to suspend"@,
                    )
                    &&& now - start < 300000 && seen.tape.ahead(1) is None ==> step.waits_for(
                        Ask::Sleep(500),
                    )
                })
            }
        }),
{
    reveal(AppView::await_suspended);
}

/// A running VM is saved by the command that suspends it, by its name, and then waited
/// for.
pub proof fn running_vms_are_saved(app: AppView, tape: Tape)
    ensures
        ({
            let ready = app.tart(tape.later(1));
            let step = app.save_state(tape);
            &&& tape.read >= tape.replies.len() ==> step.waits_for(
                Ask::Print("saving VM state; this can take several minutes..."@),
            )
            &&& tape.ahead(0) == Some(Reply::Done) ==> {
                &&& stops_with(step, ready)
                &&& ready.out is Ok ==> {
                    &&& ready.tape.ahead(0) is None ==> step.waits_for(
                        app.tart_with(seq!["suspend"@, app.config.vm_name]),
                    )
                    &&& ready.tape.ahead(0) matches Some(Reply::Output(output)) ==> {
                        &&& output.code != Some(0i32) ==> step.out is Err
                        &&& output.code == Some(0i32) && ready.tape.ahead(1) is None
                            ==> step.waits_for(Ask::Now)
                        &&& output.code == Some(0i32) ==> (ready.tape.ahead(1) matches Some(
                            Reply::Instant(start),
                        ) ==> step == app.await_suspended(start, ready.tape.later(2)))
                    }
                }
            }
        }),
{
    reveal(AppView::save_state);
    tart_is_the_packaged_one(app, tape.later(1));
    the_commands_of_tart(app, app.packaged_tart(), 0);
    assert(with_arguments(app.packaged_tart(), seq!["suspend"@, app.config.vm_name]).arguments
        =~= seq!["suspend"@, app.config.vm_name]);
}

/// The console starts from the saved state of a VM that was running or suspended. A
/// stopped VM is booted, unless the background is to have it back.
pub proof fn the_console_starts_from_the_saved_state(
    app: AppView,
    resume: bool,
    tape: Tape,
)
    ensures
        ({
            let seen = app.vm_info(tape);
            let saved = app.save_state(seen.tape);
            let step = app.console_source(resume, tape);
            &&& stops_with(step, seen)
            &&& seen.out matches Ok(vm) ==> match vm.state {
                VmState::Running => match saved.out {
                    Err(halt) => step.out == Err::<ConsoleSource, HaltView>(halt),
                    Ok(()) => step.out == Ok::<ConsoleSource, HaltView>(ConsoleSource::Snapshot)
                        && step.tape == saved.tape,
                },
                VmState::Suspended => step.out == Ok::<ConsoleSource, HaltView>(
                    ConsoleSource::Snapshot,
                ) && step.tape == seen.tape,
                VmState::Stopped => if resume {
                    step.refuses("the background VM stopped before it could be suspended"@)
                } else {
                    step.out == Ok::<ConsoleSource, HaltView>(ConsoleSource::ColdBoot)
                        && step.tape == seen.tape
                },
            }
        }),
{
    reveal(AppView::console_source);
}

/// A VM is handed to the console without its marker and its service, and still in the
/// state that the console starts from.
pub proof fn vms_are_handed_over_as_they_were(app: AppView, resume: bool, tape: Tape)
    ensures
        ({
            let marker = remove_if_present_steps(app.paths.run_marker, tape);
            let source = app.console_source(resume, tape.later(1));
            let unloaded = app.unload_service(source.tape);
            let seen = app.vm_info(unloaded.tape);
            let step = app.prepare_console(resume, tape);
            &&& tape.read >= tape.replies.len() ==> step.waits_for(
                Ask::RemoveFile(app.paths.run_marker),
            )
            &&& marker.out is Err ==> step.out == marker.out
            &&& marker.out is Ok ==> stops_with(step, source)
            &&& marker.out is Ok && source.out is Ok && unloaded.out is Err ==> step.out
                == unloaded.out
            &&& marker.out is Ok && source.out is Ok && unloaded.out is Ok ==> match seen.out {
                Err(halt) => step.out == Err::<(), HaltView>(halt),
                Ok(vm) => match source.out->Ok_0 {
                    ConsoleSource::Snapshot => if vm.state == VmState::Suspended {
                        step.out is Ok && step.tape == seen.tape
                    } else {
                        step.refuses("the VM snapshot was lost during the background handoff"@)
                    },
                    ConsoleSource::ColdBoot => if vm.state == VmState::Stopped {
                        step.out is Ok && step.tape == seen.tape
                    } else {
                        step.refuses("the VM changed state during the console handoff"@)
                    },
                },
            }
        }),
{
    reveal(AppView::prepare_console);
    removed_files_are_gone(app.paths.run_marker, tape);
}

/// A console that is to end is asked by the command that suspends the VM, in a process
/// group of its own; whether that went well is what its code says.
pub proof fn consoles_are_asked_to_suspend(app: AppView, tape: Tape)
    ensures
        ({
            let ready = app.tart(tape);
            let step = app.send_suspend(tape);
            &&& (ready.out matches Err(HaltView::Failed(_))) ==> step.out == Ok::<bool, HaltView>(
                false,
            ) && step.tape == ready.tape
            &&& ready.out is Ok ==> {
                &&& ready.tape.ahead(0) is None ==> step.waits_for(
                    Ask::Run(
                        CommandView {
                            arguments: seq!["suspend"@, app.config.vm_name],
                            own_group: true,
                            input: InputView::Inherited,
                            output: Sink::Discarded,
                            errors: Sink::Discarded,
                            ..app.packaged_tart()
                        },
                    ),
                )
                &&& ready.tape.ahead(0) matches Some(reply) ==> step.out == Ok::<bool, HaltView>(
                    reply matches Reply::Output(output) && output.code == Some(0i32),
                ) && step.tape == ready.tape.later(1)
            }
        }),
{
    reveal(AppView::send_suspend);
    tart_is_the_packaged_one(app, tape);
    let tart = app.packaged_tart().process_group();
    the_commands_of_tart(app, tart, 0);
    assert(with_arguments(tart, seq!["suspend"@, app.config.vm_name]).arguments
        =~= seq!["suspend"@, app.config.vm_name]);
}

/// How a program that was started ended is what the host says; while it runs it is
/// waited for at most five minutes, and it is left running after that.
pub proof fn consoles_are_waited_for(app: AppView, start: u64, tape: Tape)
    ensures
        ({
            let step = app.await_console_end(start, tape);
            &&& tape.read >= tape.replies.len() ==> step.waits_for(Ask::PollChild)
            &&& tape.ahead(0) matches Some(Reply::Exited { success, description }) ==> step.out
                == Ok::<EndedView, HaltView>(EndedView { success, description: description@ })
            &&& tape.ahead(0) == Some(Reply::Running) ==> {
                &&& tape.ahead(1) is None ==> step.waits_for(Ask::Now)
                &&& tape.ahead(1) matches Some(Reply::Instant(now)) ==> {
                    &&& now - start >= 300000 ==> step.refuses(
                        "timed out waiting for the console VM to suspend; Tart was left running"@,
                    )
                    &&& now - start < 300000 && tape.ahead(2) is None ==> step.waits_for(
                        Ask::Sleep(250),
                    )
                }
            }
        }),
        ({
            let step = app.end_console(start, tape);
            let sent = app.send_suspend(tape.later(1));
            &&& tape.read >= tape.replies.len() ==> step.waits_for(Ask::PollChild)
            &&& tape.ahead(0) matches Some(Reply::Exited { success, description }) ==> step.out
                == Ok::<EndedView, HaltView>(EndedView { success, description: description@ })
            &&& tape.ahead(0) == Some(Reply::Running) ==> {
                &&& sent.out matches Err(halt) ==> step.out == Err::<EndedView, HaltView>(halt)
                &&& sent.out == Ok::<bool, HaltView>(true) ==> step == app.await_console_end(
                    start,
                    sent.tape,
                )
                &&& sent.out == Ok::<bool, HaltView>(false) ==> {
                    &&& sent.tape.ahead(0) is None ==> step.waits_for(Ask::Now)
                    &&& sent.tape.ahead(0) matches Some(Reply::Instant(now)) ==> {
                        &&& now - start >= 300000 ==> step.refuses(
                            "timed out asking Tart to suspend the console VM; Tart was left running"@,
                        )
                        &&& now - start < 300000 && sent.tape.ahead(1) is None ==> step.waits_for(
                            Ask::Sleep(250),
                        )
                    }
                }
            }
        }),
        tape.ahead(0) matches Some(Reply::Instant(now)) ==> app.suspend_console_process(tape)
            == app.end_console(now, tape.later(1)),
        tape.read >= tape.replies.len() ==> app.suspend_console_process(tape).waits_for(Ask::Now),
{
    reveal(AppView::await_console_end);
    reveal(AppView::end_console);
    reveal(AppView::suspend_console_process);
}

/// A console is watched until it ends; a signal has it end, where the user is still
/// there so that the VM can be saved.
pub proof fn consoles_are_watched(app: AppView, tape: Tape)
    ensures
        ({
            let step = app.watch_console(tape);
            let user = ensure_console_session_steps(
                app.host,
                app.paths.command_name(),
                tape.later(2),
            );
            &&& tape.read >= tape.replies.len() ==> step.waits_for(Ask::PollChild)
            &&& tape.ahead(0) matches Some(Reply::Exited { success, description }) ==> step.out
                == Ok::<EndedView, HaltView>(EndedView { success, description: description@ })
                && step.tape == tape.later(1)
            &&& tape.ahead(0) == Some(Reply::Running) ==> {
                &&& tape.ahead(1) is None ==> step.waits_for(Ask::SignalPending)
                &&& tape.ahead(1) == Some(Reply::Flag(false)) && tape.ahead(2) is None
                    ==> step.waits_for(Ask::Sleep(100))
                &&& tape.ahead(1) == Some(Reply::Flag(true)) ==> match user.out {
                    Err(halt) => step.out == Err::<EndedView, HaltView>(halt),
                    Ok(()) => step == app.suspend_console_process(user.tape),
                }
            }
        }),
{
    reveal(AppView::watch_console);
}

/// The console is shown until it ends, and ends well only where its program did and the
/// VM is then saved.
pub proof fn a_shown_console_ends_with_a_saved_vm(app: AppView, tape: Tape)
    requires
        tape.valid(),
    ensures
        app.show_console(tape).out is Ok ==> (app.show_console(tape).tape.last_read() matches Some(
            Reply::Vm(vm),
        ) && vm.state == VmState::Suspended),
        tape.read >= tape.replies.len() ==> app.show_console(tape).waits_for(
            Ask::Print(
                "opening Tart recovery console; this command stays active until it closes..."@,
            ),
        ),
        tape.ahead(0) == Some(Reply::Done) ==> {
            let ready = app.ensure_storage(StorageAccess::Background, tape.later(1));
            let shown = ready.tape;
            let ended = app.watch_console(shown.later(2));
            let seen = app.vm_info(ended.tape);
            let step = app.show_console(tape);
            &&& ready.out matches Err(halt) ==> step.out == Err::<(), HaltView>(halt)
            &&& ready.out is Ok && shown.ahead(0) is None ==> step.waits_for(
                Ask::Spawn(
                    CommandView {
                        environment: app.packaged_tart().environment,
                        own_group: true,
                        ..attached(
                            program(
                                "/usr/bin/caffeinate"@,
                                seq![
                                    "-disu"@,
                                    app.paths.bin("tart"@),
                                    "run"@,
                                    "--suspendable"@,
                                    "--net-bridged="@ + "en0"@,
                                    app.config.vm_name,
                                ],
                            ),
                        )
                    },
                ),
            )
            &&& ready.out is Ok && shown.ahead(0) == Some(Reply::Done) && shown.ahead(1) is None
                ==> step.waits_for(Ask::Sleep(250))
            &&& ready.out is Ok && shown.ahead(0) == Some(Reply::Done) && shown.ahead(1) == Some(
                Reply::Done,
            ) ==> match ended.out {
                Err(halt) => step.out == Err::<(), HaltView>(halt),
                Ok(end) => if !end.success {
                    step.refuses("Tart exited with "@ + end.description)
                } else {
                    match seen.out {
                        Err(halt) => step.out == Err::<(), HaltView>(halt),
                        Ok(vm) => if vm.state == VmState::Suspended {
                            step.out is Ok && step.tape == seen.tape
                        } else {
                            step.refuses("the console VM exited without a saved state"@)
                        },
                    }
                },
            }
        },
{
    broadcast use {configure_tart_storage_bounded, watch_console_bounded, vm_info_bounded};

    reveal(AppView::show_console);
    let bare = program("/usr/bin/caffeinate"@, Seq::empty());
    assert(CommandView::new("/usr/bin/caffeinate"@) == bare);
    commands_get_available_storage(app, bare, tape.later(1));
    let environment = app.packaged_tart().environment;
    assert(bare.environment.push(environment[0]) =~= environment);
    let caffeinate = CommandView { environment, ..bare };
    the_command_of_the_console(app, caffeinate);
    let arguments = seq![
        "-disu"@,
        app.paths.bin("tart"@),
        "run"@,
        "--suspendable"@,
        "--net-bridged="@ + "en0"@,
        app.config.vm_name,
    ];
    assert(with_arguments(caffeinate, arguments).arguments =~= arguments);
    let ready = app.configure_tart_storage(bare, tape.later(1));
    let ended = app.watch_console(ready.tape.later(2));
    tart_describes_the_vm(app, ended.tape);
}

/// A console is opened by a user who is at it, before and after the VM was handed over,
/// and not after a signal.
pub proof fn a_console_is_opened_by_its_user(app: AppView, resume: bool, tape: Tape)
    ensures
        ({
            let name = app.paths.command_name();
            let first = ensure_console_session_steps(app.host, name, tape);
            let handed = app.prepare_console(resume, first.tape);
            let second = ensure_console_session_steps(app.host, name, handed.tape);
            let step = app.open_console(resume, tape);
            &&& first.out is Err ==> step.out == first.out
            &&& first.out is Ok && handed.out is Err ==> step.out == handed.out
            &&& first.out is Ok && handed.out is Ok && second.out is Err ==> step.out == second.out
            &&& first.out is Ok && handed.out is Ok && second.out is Ok ==> {
                &&& second.tape.ahead(0) is None ==> step.waits_for(Ask::SignalPending)
                &&& second.tape.ahead(0) == Some(Reply::Flag(true)) ==> step.refuses(
                    "console launch was interrupted"@,
                )
                &&& second.tape.ahead(0) == Some(Reply::Flag(false)) ==> step == app.show_console(
                    second.tape.later(1),
                )
            }
        }),
{
    reveal(AppView::open_console);
}

/// Before a console opens, the user is at it, the Keychains are unlocked, the storage is
/// available, and the VM and the bridge exist. The background is to have the VM back
/// where its service is supposed to run it.
pub proof fn a_console_is_prepared(app: AppView, tape: Tape)
    ensures
        ({
            let user = ensure_console_session_steps(app.host, app.paths.command_name(), tape);
            let cleared = app.clear_keychain_helper(user.tape);
            let own = app.ensure_keychain(KeychainMode::Current, cleared.tape);
            let supervised = app.supervised(own.tape);
            let resume = supervised.out == Ok::<bool, HaltView>(true);
            let other = app.ensure_keychain(KeychainMode::BackgroundInteractive, supervised.tape);
            let open = if resume { other.tape } else { supervised.tape };
            let ready = app.ensure_storage(StorageAccess::Interactive, open);
            let found = app.vm_exists(ready.tape);
            let bridge = validate_bridge_steps(found.tape);
            let step = app.preflight_console(tape);
            let good = user.out is Ok && cleared.out is Ok && own.out is Ok && supervised.out is Ok
                && (resume ==> other.out is Ok) && ready.out is Ok;
            &&& step.out is Ok <==> good && found.out == Ok::<bool, HaltView>(true)
                && bridge.out is Ok
            &&& step.out matches Ok(back) ==> back == resume && step.tape == bridge.tape
            &&& good && found.out == Ok::<bool, HaltView>(false) ==> step.refuses(
                "VM does not exist"@,
            )
        }),
{
    reveal(AppView::preflight_console);
}

/// A VM that the background is to have back is first run there, where it is not, until
/// SSH answers.
pub proof fn the_background_runs_the_vm_first(app: AppView, tape: Tape)
    ensures
        ({
            let seen = app.vm_info(tape);
            let started = app.start_service(seen.tape.later(1));
            let reached = app.wait_for_ssh(300, started.tape);
            let step = app.start_background(tape);
            &&& stops_with(step, seen)
            &&& seen.out matches Ok(vm) ==> {
                &&& vm.state == VmState::Running ==> step.out is Ok && step.tape == seen.tape
                &&& vm.state != VmState::Running && seen.tape.ahead(0) is None ==> step.waits_for(
                    Ask::Print("starting the background VM before opening the console..."@),
                )
                &&& vm.state != VmState::Running && seen.tape.ahead(0) == Some(Reply::Done) ==> {
                    &&& started.out is Err ==> step.out == started.out
                    &&& started.out is Ok ==> (step.out is Ok <==> reached.out is Ok)
                }
            }
        }),
{
    reveal(AppView::start_background);
}

/// The console runs while signals are noted; where it fails and the background was to
/// have the VM back, the error says that this was withheld.
pub proof fn a_console_notes_signals(app: AppView, resume: bool, tape: Tape)
    ensures
        ({
            let opened = app.open_console(resume, tape.later(1));
            let step = app.guarded_console(resume, tape);
            &&& tape.read >= tape.replies.len() ==> step.waits_for(Ask::WatchSignals)
            &&& tape.ahead(0) == Some(Reply::Done) ==> {
                &&& (opened.out is Ok || (opened.out matches Err(HaltView::Failed(_))))
                    && opened.tape.ahead(0) is None ==> step.waits_for(Ask::UnwatchSignals)
                &&& opened.out is Ok && opened.tape.ahead(0) is Some ==> step.out is Ok
                    && step.tape == opened.tape.later(1)
                &&& opened.out matches Err(HaltView::Failed(messages)) ==> (
                opened.tape.ahead(0) is Some ==> step.out == Err::<(), HaltView>(
                    HaltView::Failed(
                        if resume {
                            seq![
                                "background restart was withheld to avoid a cold boot; inspect the VM, then run '"@
                                    + app.paths.command_name() + " start' when ready"@,
                            ] + messages
                        } else {
                            messages
                        },
                    ),
                ))
            }
        }),
{
    reveal(AppView::guarded_console);
}

/// A console ends with the VM back in the background where it came from there, and with
/// the VM saved in any case.
pub proof fn a_console_gives_the_vm_back(app: AppView, tape: Tape)
    ensures
        ({
            let ready = app.preflight_console(tape);
            let resume = ready.out == Ok::<bool, HaltView>(true);
            let running = app.start_background(ready.tape);
            let from = if resume { running.tape } else { ready.tape };
            let shown = app.guarded_console(resume, from);
            let step = app.console(tape);
            &&& stops_with(step, ready)
            &&& resume && running.out is Err ==> step.out == running.out
            &&& ready.out is Ok && (resume ==> running.out is Ok) ==> {
                &&& shown.out is Err ==> step.out == shown.out
                &&& shown.out is Ok && !resume ==> step.out is Ok
                &&& shown.out is Ok && resume && shown.tape.ahead(0) is None ==> step.waits_for(
                    Ask::Print("console closed; restoring the background VM..."@),
                )
                &&& shown.out is Ok && resume && shown.tape.ahead(0) == Some(Reply::Done) ==> step
                    == app.start_ready(shown.tape.later(1))
            }
        }),
{
    reveal(AppView::console);
}

} // verus!
