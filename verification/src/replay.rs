//! Why a round of polling can start anew.
//!
//! A procedure that polls has the host drop the replies of a round that settled
//! nothing, and names the request that the next round starts with. That request
//! is the one that the procedure makes where the round began.

use crate::app::AppView;
use crate::conduct::{
    configure_tart_storage_bounded, end_console_bounded, ensure_console_session_bounded,
    tart_bounded, vm_info_bounded,
};
use crate::host::PathsView;
use crate::service::await_unloaded_steps;
use crate::session::{HaltView, Step, Tape};
use crate::unlock::{await_helper_steps, await_unlock_steps};
use vstd::prelude::*;

verus! {

impl Tape {
    /// The tape without the replies that were not read yet.
    pub open spec fn cut(self) -> Tape {
        Tape { replies: self.replies.take(self.read as int), ..self }
    }
}

/// A round that drops what it read asks for what it asks for at its start.
pub open spec fn starts_over<T>(step: Step<T>, first: Step<T>, tape: Tape) -> bool {
    step.out matches Err(HaltView::Pending { keep, request }) && keep == tape.read ==> first.out
        == step.out
}

/// Waiting until a service is unloaded.
pub proof fn await_unloaded_starts_over(target: Seq<char>, start: u64, tape: Tape)
    requires
        tape.valid(),
    ensures
        starts_over(
            await_unloaded_steps(target, start, tape),
            await_unloaded_steps(target, start, tape.cut()),
            tape,
        ),
{
}

/// Waiting for the tool that asks for the Keychain password.
pub proof fn await_unlock_starts_over(paths: PathsView, tape: Tape)
    requires
        tape.valid(),
    ensures
        starts_over(await_unlock_steps(paths, tape), await_unlock_steps(paths, tape.cut()), tape),
{
}

/// Waiting for the Keychain helper.
pub proof fn await_helper_starts_over(paths: PathsView, start: u64, limit: u64, tape: Tape)
    requires
        tape.valid(),
    ensures
        starts_over(
            await_helper_steps(paths, start, limit, tape),
            await_helper_steps(paths, start, limit, tape.cut()),
            tape,
        ),
{
}

/// Waiting for SSH.
pub proof fn await_ssh_starts_over(app: AppView, ip: Seq<char>, start: u64, tape: Tape)
    requires
        tape.valid(),
    ensures
        starts_over(
            app.await_ssh(ip, start, tape),
            app.await_ssh(ip, start, tape.cut()),
            tape,
        ),
{
    reveal(AppView::await_ssh);
}

/// Waiting until the VM is suspended.
pub proof fn await_suspended_starts_over(app: AppView, start: u64, tape: Tape)
    requires
        tape.valid(),
    ensures
        starts_over(
            app.await_suspended(start, tape),
            app.await_suspended(start, tape.cut()),
            tape,
        ),
{
    broadcast use {configure_tart_storage_bounded, vm_info_bounded};

    reveal(AppView::await_suspended);
    reveal(AppView::vm_info);
    reveal(AppView::tart);
}

/// Asking the console to end.
pub proof fn end_console_starts_over(app: AppView, start: u64, tape: Tape)
    requires
        tape.valid(),
    ensures
        starts_over(
            app.end_console(start, tape),
            app.end_console(start, tape.cut()),
            tape,
        ),
        starts_over(
            app.await_console_end(start, tape),
            app.await_console_end(start, tape.cut()),
            tape,
        ),
{
    broadcast use tart_bounded;

    reveal(AppView::end_console);
    reveal(AppView::await_console_end);
    reveal(AppView::send_suspend);
}

/// Watching the console.
pub proof fn watch_console_starts_over(app: AppView, tape: Tape)
    requires
        tape.valid(),
    ensures
        starts_over(app.watch_console(tape), app.watch_console(tape.cut()), tape),
{
    broadcast use {ensure_console_session_bounded, end_console_bounded};

    reveal(AppView::watch_console);
    reveal(AppView::suspend_console_process);
}

} // verus!
