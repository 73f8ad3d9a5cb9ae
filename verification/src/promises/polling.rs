//! How the host is asked again: a round that settles nothing is dropped, and starts anew
//! with its first request after a pause.

use crate::app::AppView;
use crate::config::StorageView;
use crate::console::EndedView;
use crate::facts::VmState;
use crate::files::private_dir_steps;
use crate::host::PathsView;
use crate::path::join;
use crate::process::success_steps;
use crate::service::{await_unloaded_steps, launchctl, service_loaded_steps};
use crate::session::{Ask, HaltView, Reply, Step, Tape};
use crate::unlock::{
    ask_and_unlock_steps, await_helper_steps, await_unlock_steps, keychain_unlocked_steps,
    unlock_keychain_steps,
};
use crate::volume::VolumeKind;
use vstd::prelude::*;

verus! {

/// A round was dropped: the replies before it are kept, and its first request is made
/// again.
pub open spec fn starts_anew<T>(step: Step<T>, before: Tape, request: Ask) -> bool {
    &&& step.out == Err::<T, HaltView>(HaltView::Pending { keep: before.read, request })
    &&& step.tape == before
}

/// The clock was read before the time was over.
pub open spec fn in_time(reply: Option<Reply>, start: u64, limit: int) -> bool {
    reply matches Some(Reply::Instant(now)) && now - start < limit
}

/// The clock was read after the time was over.
pub open spec fn too_late(reply: Option<Reply>, start: u64, limit: int) -> bool {
    reply matches Some(Reply::Instant(now)) && now - start >= limit
}

/// While a VM runs, Tart is asked about it twice a second, for five minutes.
pub proof fn a_running_vm_is_asked_about_again(app: AppView, start: u64, tape: Tape)
    ensures
        ({
            let step = app.await_suspended(start, tape);
            let seen = app.vm_info(tape);
            let after = seen.tape;
            seen.out is Ok && seen.out->Ok_0.state == VmState::Running ==> {
                &&& after.ahead(0) is None ==> step.waits_for(Ask::Now)
                &&& too_late(after.ahead(0), start, 300000) ==> step.refuses(
                    "timed out waiting for the VM to suspend"@,
                )
                &&& in_time(after.ahead(0), start, 300000) ==> {
                    &&& after.ahead(1) is None ==> step.waits_for(Ask::Sleep(500))
                    &&& after.ahead(1) == Some(Reply::Done) ==> step.out == Err::<(), HaltView>(
                        HaltView::Pending {
                            keep: tape.read,
                            request: Ask::FileMode(join(join(app.paths.runtime, "bin"@), "tart"@)),
                        },
                    )
                }
            }
        }),
{
    reveal(AppView::await_suspended);
}

/// A console that was asked to suspend is looked at four times a second, for five minutes.
pub proof fn a_console_is_looked_at_again(app: AppView, start: u64, tape: Tape)
    ensures
        ({
            let step = app.await_console_end(start, tape);
            tape.ahead(0) == Some(Reply::Running) ==> {
                &&& tape.ahead(1) is None ==> step.waits_for(Ask::Now)
                &&& too_late(tape.ahead(1), start, 300000) ==> step.refuses(
                    "timed out waiting for the console VM to suspend; Tart was left running"@,
                )
                &&& in_time(tape.ahead(1), start, 300000) ==> {
                    &&& tape.ahead(2) is None ==> step.waits_for(Ask::Sleep(250))
                    &&& tape.ahead(2) == Some(Reply::Done) ==> starts_anew(
                        step,
                        tape,
                        Ask::PollChild,
                    )
                }
            }
        }),
{
    reveal(AppView::await_console_end);
}

/// A console that could not be asked to suspend is asked again four times a second, for
/// five minutes.
pub proof fn a_console_is_asked_to_suspend_again(app: AppView, start: u64, tape: Tape)
    ensures
        ({
            let step = app.end_console(start, tape);
            let sent = app.send_suspend(tape.later(1));
            let after = sent.tape;
            tape.ahead(0) == Some(Reply::Running) && sent.out == Ok::<bool, HaltView>(false) ==> {
                &&& after.ahead(0) is None ==> step.waits_for(Ask::Now)
                &&& too_late(after.ahead(0), start, 300000) ==> step.refuses(
                    "timed out asking Tart to suspend the console VM; Tart was left running"@,
                )
                &&& in_time(after.ahead(0), start, 300000) ==> {
                    &&& after.ahead(1) is None ==> step.waits_for(Ask::Sleep(250))
                    &&& after.ahead(1) == Some(Reply::Done) ==> step.out == Err::<
                        EndedView,
                        HaltView,
                    >(HaltView::Pending { keep: tape.read, request: Ask::PollChild })
                }
            }
        }),
{
    reveal(AppView::end_console);
}

/// An open console is looked at ten times a second, for as long as it stays open.
pub proof fn an_open_console_is_looked_at_again(app: AppView, tape: Tape)
    ensures
        ({
            let step = app.watch_console(tape);
            tape.ahead(0) == Some(Reply::Running) ==> {
                &&& tape.ahead(1) is None ==> step.waits_for(Ask::SignalPending)
                &&& tape.ahead(1) == Some(Reply::Flag(false)) && tape.ahead(2) is None
                    ==> step.waits_for(Ask::Sleep(100))
                &&& tape.ahead(1) == Some(Reply::Flag(false)) && tape.ahead(2) == Some(Reply::Done)
                    ==> starts_anew(step, tape, Ask::PollChild)
            }
        }),
{
    reveal(AppView::watch_console);
}

/// A guest that does not answer is tried again every two seconds, for two minutes.
pub proof fn the_guest_is_tried_again(app: AppView, ip: Seq<char>, start: u64, tape: Tape)
    ensures
        ({
            let step = app.await_ssh(ip, start, tape);
            (tape.ahead(0) matches Some(Reply::Output(output)) && output.code != Some(0i32)) ==> {
                &&& tape.ahead(1) is None ==> step.waits_for(Ask::Now)
                &&& too_late(tape.ahead(1), start, 120000) ==> step.refuses(
                    "SSH did not become ready at "@ + ip,
                )
                &&& in_time(tape.ahead(1), start, 120000) ==> {
                    &&& tape.ahead(2) is None ==> step.waits_for(Ask::Sleep(2000))
                    &&& tape.ahead(2) == Some(Reply::Done) ==> starts_anew(
                        step,
                        tape,
                        Ask::Run(app.ssh_probe(ip)),
                    )
                }
            }
        }),
{
    reveal(AppView::await_ssh);
}

/// A service that launchd still has is looked at twenty times a second, for five seconds.
pub proof fn a_service_is_looked_at_again(target: Seq<char>, start: u64, tape: Tape)
    ensures
        ({
            let step = await_unloaded_steps(target, start, tape);
            let known = service_loaded_steps(target, tape);
            let after = known.tape;
            known.out == Ok::<bool, HaltView>(true) ==> {
                &&& after.ahead(0) is None ==> step.waits_for(Ask::Now)
                &&& too_late(after.ahead(0), start, 5000) ==> step.refuses(
                    "service did not unload"@,
                )
                &&& in_time(after.ahead(0), start, 5000) ==> {
                    &&& after.ahead(1) is None ==> step.waits_for(Ask::Sleep(50))
                    &&& after.ahead(1) == Some(Reply::Done) ==> starts_anew(
                        step,
                        tape,
                        Ask::Run(launchctl("print"@, target)),
                    )
                }
            }
        }),
{
}

/// The user who unlocks the Keychain is waited for: a signal ends that at once.
pub proof fn the_user_is_waited_for(paths: PathsView, tape: Tape)
    ensures
        ({
            let step = await_unlock_steps(paths, tape);
            &&& tape.ahead(0) is None ==> step.waits_for(Ask::SignalPending)
            &&& tape.ahead(0) == Some(Reply::Flag(true)) && tape.ahead(1) is None
                ==> step.waits_for(Ask::KillChild)
            &&& tape.ahead(0) == Some(Reply::Flag(true)) && tape.ahead(1) is Some ==> step.out
                == Ok::<bool, HaltView>(false)
            &&& tape.ahead(0) == Some(Reply::Flag(false)) && tape.ahead(1) is None
                ==> step.waits_for(Ask::PollChild)
            &&& tape.ahead(0) == Some(Reply::Flag(false)) && tape.ahead(1) == Some(Reply::Running)
                ==> {
                &&& tape.ahead(2) is None ==> step.waits_for(Ask::Sleep(10))
                &&& tape.ahead(2) == Some(Reply::Done) ==> starts_anew(
                    step,
                    tape,
                    Ask::SignalPending,
                )
            }
        }),
{
}

/// What a helper leaves is looked for twenty times a second, until its time is over or a
/// signal comes.
pub proof fn the_helper_is_looked_for_again(paths: PathsView, start: u64, limit: u64, tape: Tape)
    ensures
        ({
            let step = await_helper_steps(paths, start, limit, tape);
            let left = Ask::ReadText(join(paths.state, "keychain.result"@));
            &&& tape.ahead(0) is None ==> step.waits_for(left)
            &&& (tape.ahead(0) matches Some(Reply::Missing(_))) ==> {
                &&& tape.ahead(1) is None ==> step.waits_for(Ask::SignalPending)
                &&& tape.ahead(1) == Some(Reply::Flag(true)) ==> step.refuses(
                    "Keychain unlock was interrupted"@,
                )
                &&& tape.ahead(1) == Some(Reply::Flag(false)) ==> {
                    &&& tape.ahead(2) is None ==> step.waits_for(Ask::Now)
                    &&& too_late(tape.ahead(2), start, limit as int) ==> step.refuses(
                        "timed out waiting for the Keychain helper"@,
                    )
                    &&& in_time(tape.ahead(2), start, limit as int) ==> {
                        &&& tape.ahead(3) is None ==> step.waits_for(Ask::Sleep(50))
                        &&& tape.ahead(3) == Some(Reply::Done) ==> starts_anew(step, tape, left)
                    }
                }
            }
        }),
{
}

/// A procedure waits where this part of it does, although it goes on where the part fails.
pub open spec fn waits_with<T, U>(whole: Step<T>, part: Step<U>) -> bool {
    part.out matches Err(HaltView::Pending { keep, request }) ==> whole.out == Err::<T, HaltView>(
        HaltView::Pending { keep, request },
    )
}

/// Tart is looked for to suspend a console, to stop a VM and to find its address, each with
/// what it is then told; that these may fail changes nothing of what they ask for.
pub proof fn what_may_fail_is_waited_for(app: AppView, tape: Tape)
    ensures
        waits_with(app.send_suspend(tape), app.tart(tape)),
        waits_with(app.known_ip(VmState::Running, tape), app.vm_ip(0, tape)),
        ({
            let seen = app.vm_info(tape);
            let tart = app.tart(seen.tape);
            let stopped = success_steps(
                app.stop_command(tart.out->Ok_0),
                "stop the VM"@,
                tart.tape,
            );
            seen.out is Ok && seen.out->Ok_0.state != VmState::Stopped && tart.out is Ok
                ==> waits_with(app.request_stop(tape), stopped)
        }),
{
    reveal(AppView::send_suspend);
    reveal(AppView::known_ip);
    reveal(AppView::request_stop);
}

/// The helper is waited for as long as it was given, and cleared away afterwards.
pub proof fn the_helper_is_waited_for_and_cleared_away(
    app: AppView,
    mode: Seq<char>,
    terminal: Seq<char>,
    limit: u64,
    tape: Tape,
)
    ensures
        ({
            let step = app.run_keychain_helper_on(mode, terminal, limit, tape);
            let made = private_dir_steps(app.paths.state, tape);
            let cleared = app.cleanup_keychain_helper(made.tape);
            let placed = cleared.tape.ahead(0) == Some(Reply::Done) && cleared.tape.ahead(1) == Some(
                Reply::Done,
            );
            let outcome = app.keychain_helper_outcome(limit, cleared.tape.later(2));
            let after = app.cleanup_keychain_helper(outcome.tape);
            made.out is Ok && cleared.out is Ok && placed ==> {
                &&& waits_with(step, outcome)
                &&& !(outcome.out matches Err(HaltView::Pending { .. })) ==> waits_with(step, after)
            }
        }),
{
    reveal(AppView::run_keychain_helper_on);
}

/// To look at the Keychain of the background takes five seconds at most; to unlock it at
/// the terminal, five minutes.
pub proof fn the_times_of_a_helper(app: AppView, terminal: Seq<char>, tape: Tape)
    ensures
        tape.ahead(0) is None ==> app.background_check(tape).waits_for(Ask::WatchSignals)
            && app.background_unlock(terminal, tape).waits_for(Ask::WatchSignals),
        tape.ahead(0) == Some(Reply::Done) ==> waits_with(
            app.background_check(tape),
            app.run_keychain_helper_on("check"@, "/dev/null"@, 5000, tape.later(1)),
        ),
        ({
            let step = app.background_unlock(terminal, tape);
            let run = app.run_keychain_helper_on("unlock"@, terminal, 300000, tape.later(2));
            &&& tape.ahead(0) == Some(Reply::Done) && "/dev/tty"@.is_prefix_of(terminal) ==> {
                &&& tape.ahead(1) is None ==> step.waits_for(Ask::HideInput(terminal))
                &&& tape.ahead(1) == Some(Reply::Done) ==> waits_with(step, run)
                &&& tape.ahead(1) == Some(Reply::Done) && run.out is Ok && run.tape.ahead(0) is None
                    ==> step.waits_for(Ask::RestoreInput)
                &&& tape.ahead(1) == Some(Reply::Done) && run.out is Ok && run.tape.ahead(0) is Some
                    && run.tape.ahead(1) is None ==> step.waits_for(Ask::UnwatchSignals)
            }
        }),
{
    reveal(AppView::background_check);
    reveal(AppView::background_unlock);
}

/// The Keychain of this session is unlocked with the input hidden, and what is typed is
/// shown again whatever comes of it.
pub proof fn unlocking_is_waited_for(paths: PathsView, terminal: Seq<char>, tape: Tape)
    ensures
        ({
            let step = unlock_keychain_steps(paths, terminal, tape);
            let unlocked = ask_and_unlock_steps(paths, tape.later(2));
            &&& tape.ahead(0) is None ==> step.waits_for(Ask::WatchSignals)
            &&& tape.ahead(0) == Some(Reply::Done) && tape.ahead(1) is None ==> step.waits_for(
                Ask::HideInput(terminal),
            )
            &&& tape.ahead(0) == Some(Reply::Done) && tape.ahead(1) == Some(Reply::Done) ==> {
                &&& waits_with(step, unlocked)
                &&& !(unlocked.out matches Err(HaltView::Pending { .. })) ==> {
                    &&& unlocked.tape.ahead(0) is None ==> step.waits_for(Ask::RestoreInput)
                    &&& unlocked.tape.ahead(0) is Some && unlocked.tape.ahead(1) is None
                        ==> step.waits_for(Ask::UnwatchSignals)
                    &&& unlocked.tape.ahead(0) is Some && unlocked.tape.ahead(1) is Some
                        ==> step.out == unlocked.out
                }
            }
        }),
        tape.ahead(0) == Some(Reply::Done) ==> ask_and_unlock_steps(paths, tape)
            == await_unlock_steps(paths, tape.later(1)),
        tape.ahead(0) == Some(Reply::Flag(false)) ==> (tape.ahead(1) matches Some(
            Reply::Exited { success, .. },
        ) ==> if success {
            await_unlock_steps(paths, tape) == keychain_unlocked_steps(paths, tape.later(2))
        } else {
            await_unlock_steps(paths, tape).out == Ok::<bool, HaltView>(false)
        }),
{
}

/// An open console is waited for with signals noted, and these are let go at its end.
pub proof fn a_guarded_console_is_waited_for(app: AppView, resume: bool, tape: Tape)
    ensures
        ({
            let step = app.guarded_console(resume, tape);
            let shown = app.open_console(resume, tape.later(1));
            &&& tape.ahead(0) is None ==> step.waits_for(Ask::WatchSignals)
            &&& tape.ahead(0) == Some(Reply::Done) ==> {
                &&& waits_with(step, shown)
                &&& !(shown.out matches Err(HaltView::Pending { .. })) && shown.tape.ahead(0) is None
                    ==> step.waits_for(Ask::UnwatchSignals)
                &&& shown.out is Ok && shown.tape.ahead(0) is Some ==> step.out is Ok && step.tape
                    == shown.tape.later(1)
            }
        }),
{
    reveal(AppView::guarded_console);
}

/// Whether the storage is there is looked for in the recorded directory, and for a volume
/// then on the volume.
pub proof fn storage_is_looked_for_by_its_kind(app: AppView, tape: Tape)
    ensures
        ({
            let step = app.storage_mounted(tape);
            match app.config.storage {
                StorageView::Default => step.out == Ok::<bool, HaltView>(true) && step.tape == tape,
                StorageView::Directory { path } => {
                    &&& tape.ahead(0) is None ==> step.waits_for(Ask::IsDirectory(path))
                    &&& tape.ahead(0) == Some(Reply::Flag(true)) ==> step.out == Ok::<
                        bool,
                        HaltView,
                    >(true)
                    &&& tape.ahead(0) == Some(Reply::Flag(false)) ==> step.out == Ok::<
                        bool,
                        HaltView,
                    >(false)
                },
                StorageView::PlainVolume(volume) => {
                    &&& tape.ahead(0) is None ==> step.waits_for(Ask::IsDirectory(volume.path))
                    &&& tape.ahead(0) == Some(Reply::Flag(false)) ==> step.out == Ok::<
                        bool,
                        HaltView,
                    >(false)
                    &&& tape.ahead(0) == Some(Reply::Flag(true)) ==> step == app.volume_mounted(
                        volume,
                        VolumeKind::Plain,
                        tape.later(1),
                    )
                },
                StorageView::EncryptedVolume(volume) => {
                    &&& tape.ahead(0) is None ==> step.waits_for(Ask::IsDirectory(volume.path))
                    &&& tape.ahead(0) == Some(Reply::Flag(false)) ==> step.out == Ok::<
                        bool,
                        HaltView,
                    >(false)
                    &&& tape.ahead(0) == Some(Reply::Flag(true)) ==> step == app.volume_mounted(
                        volume,
                        VolumeKind::Encrypted,
                        tape.later(1),
                    )
                },
            }
        }),
{
    reveal(AppView::storage_mounted);
}

} // verus!
