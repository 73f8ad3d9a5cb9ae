//! The recovery console: the VM leaves the background for a window on the host,
//! and goes back when that closes.

use crate::app::{App, AppView};
use crate::command::{Command, CommandView, Input, InputView, Sink};
use crate::error::Messages;
use crate::facts::{VmInfo, VmState};
use crate::files::{remove_if_present, remove_if_present_steps};
use crate::machine::{validate_bridge, validate_bridge_steps, BRIDGE};
use crate::process::{success, success_steps};
use crate::remote::{ensure_console_session, ensure_console_session_steps};
use crate::service::{before_deadline, is_before_deadline};
use crate::session::{
    again, ask_done, ask_flag, ask_instant, asked, attempt, done, ensure, ensured, follows,
    no_answer, no_answer_to, printed, refusal, refused, slept, with_context, Ask, Halt, Reply,
    Request, Session, Step, Tape,
};
use crate::unlock::KeychainMode;
use crate::volume::StorageAccess;
use vstd::prelude::*;

verus! {

/// What the console starts from.
#[derive(Clone, Copy, Debug, PartialEq, Eq, Structural)]
pub enum ConsoleSource {
    /// The saved state of the VM.
    Snapshot,
    ColdBoot,
}

impl View for ConsoleSource {
    type V = ConsoleSource;

    open spec fn view(&self) -> ConsoleSource {
        *self
    }
}

/// How the started program ended.
pub struct Ended {
    pub success: bool,
    pub description: String,
}

pub struct EndedView {
    pub success: bool,
    pub description: Seq<char>,
}

impl View for Ended {
    type V = EndedView;

    open spec fn view(&self) -> EndedView {
        EndedView { success: self.success, description: self.description@ }
    }
}

/// Whether the VM is still in the state that the console starts from.
pub open spec fn handed_over(source: ConsoleSource, state: VmState, tape: Tape) -> Step<()> {
    match source {
        ConsoleSource::Snapshot => ensured(
            state == VmState::Suspended,
            "the VM snapshot was lost during the background handoff"@,
            tape,
        ),
        ConsoleSource::ColdBoot => ensured(
            state == VmState::Stopped,
            "the VM changed state during the console handoff"@,
            tape,
        ),
    }
}

impl AppView {
    /// One round of waiting until the VM is suspended.
    #[verifier::opaque]
    pub open spec fn await_suspended(self, start: u64, tape: Tape) -> Step<()> {
        let mark = tape;
        self.vm_info(tape).and_then(|vm: VmInfo, tape: Tape|
        match vm.state {
            VmState::Suspended => done((), tape),
            VmState::Stopped => refused("the VM stopped before Tart could suspend it"@, tape),
            VmState::Running => ask_instant(tape).and_then(|now: u64, tape: Tape|
            ensured(
                before_deadline(start, 300000, now),
                "timed out waiting for the VM to suspend"@,
                tape,
            ).and_then(|_u: (), tape: Tape|
            slept(500, tape).and_then(|_u: (), tape: Tape|
            again(Ask::FileMode(self.paths.bin("tart"@)), mark.read, tape)))),
        })
    }

    pub open spec fn suspend_command(self, tart: CommandView) -> CommandView {
        tart.arg("suspend"@).arg(self.config.vm_name)
    }

    /// Saves the state of the running VM.
    #[verifier::opaque]
    pub open spec fn save_state(self, tape: Tape) -> Step<()> {
        printed("saving VM state; this can take several minutes..."@, tape).and_then(|_u: (), tape: Tape|
        self.tart(tape).and_then(|tart: CommandView, tape: Tape|
        success_steps(self.suspend_command(tart), "suspend the VM"@, tape).and_then(|_u: (), tape: Tape|
        ask_instant(tape).and_then(|start: u64, tape: Tape|
        self.await_suspended(start, tape)))))
    }

    /// What the console is to start from. A VM that the background is to resume
    /// later must not be booted anew.
    #[verifier::opaque]
    pub open spec fn console_source(self, resume_background: bool, tape: Tape) -> Step<
        ConsoleSource,
    > {
        self.vm_info(tape).and_then(|vm: VmInfo, tape: Tape|
        match vm.state {
            VmState::Running => self.save_state(tape).and_then(|_u: (), tape: Tape|
            done(ConsoleSource::Snapshot, tape)),
            VmState::Suspended => done(ConsoleSource::Snapshot, tape),
            VmState::Stopped => ensured(
                !resume_background,
                "the background VM stopped before it could be suspended"@,
                tape,
            ).and_then(|_u: (), tape: Tape|
            done(ConsoleSource::ColdBoot, tape)),
        })
    }

    /// Takes the VM out of the background.
    #[verifier::opaque]
    pub open spec fn prepare_console(self, resume_background: bool, tape: Tape) -> Step<()> {
        remove_if_present_steps(self.paths.run_marker, tape).and_then(|_u: (), tape: Tape|
        self.console_source(resume_background, tape).and_then(|source: ConsoleSource, tape: Tape|
        self.unload_service(tape).and_then(|_u: (), tape: Tape|
        self.vm_info(tape).and_then(|vm: VmInfo, tape: Tape|
        handed_over(source, vm.state, tape)))))
    }

    /// Asks Tart to suspend the VM, and whether that went well.
    #[verifier::opaque]
    pub open spec fn send_suspend(self, tape: Tape) -> Step<bool> {
        self.tart(tape).attempt().and_then(|tart: Result<CommandView, Messages>, tape: Tape|
        match tart {
            Err(_) => done(false, tape),
            Ok(tart) => asked(
                Ask::Run(
                    self.suspend_command(tart.process_group()).input(InputView::Inherited).streams(
                        Sink::Discarded,
                    ),
                ),
                tape,
            ).and_then(|reply: Reply, tape: Tape|
            done(reply matches Reply::Output(output) && output.succeeded(), tape)),
        })
    }

    /// One round of waiting for the console to end after it was asked to.
    #[verifier::opaque]
    pub open spec fn await_console_end(self, start: u64, tape: Tape) -> Step<EndedView> {
        let mark = tape;
        asked(Ask::PollChild, tape).and_then(|reply: Reply, tape: Tape|
        match reply {
            Reply::Exited { success, description } => done(
                EndedView { success, description: description@ },
                tape,
            ),
            Reply::Running => ask_instant(tape).and_then(|now: u64, tape: Tape|
            ensured(
                before_deadline(start, 300000, now),
                "timed out waiting for the console VM to suspend; Tart was left running"@,
                tape,
            ).and_then(|_u: (), tape: Tape|
            slept(250, tape).and_then(|_u: (), tape: Tape|
            again(Ask::PollChild, mark.read, tape)))),
            _ => no_answer(reply, tape),
        })
    }

    /// One round of asking the console to end. The console is never killed.
    #[verifier::opaque]
    pub open spec fn end_console(self, start: u64, tape: Tape) -> Step<EndedView> {
        let mark = tape;
        asked(Ask::PollChild, tape).and_then(|reply: Reply, tape: Tape|
        match reply {
            Reply::Exited { success, description } => done(
                EndedView { success, description: description@ },
                tape,
            ),
            Reply::Running => self.send_suspend(tape).and_then(|sent: bool, tape: Tape|
            if sent {
                self.await_console_end(start, tape)
            } else {
                ask_instant(tape).and_then(|now: u64, tape: Tape|
                ensured(
                    before_deadline(start, 300000, now),
                    "timed out asking Tart to suspend the console VM; Tart was left running"@,
                    tape,
                ).and_then(|_u: (), tape: Tape|
                slept(250, tape).and_then(|_u: (), tape: Tape|
                again(Ask::PollChild, mark.read, tape))))
            }),
            _ => no_answer(reply, tape),
        })
    }

    #[verifier::opaque]
    pub open spec fn suspend_console_process(self, tape: Tape) -> Step<EndedView> {
        ask_instant(tape).and_then(|start: u64, tape: Tape|
        self.end_console(start, tape))
    }

    /// One round of watching the console until it ends or a signal comes.
    #[verifier::opaque]
    pub open spec fn watch_console(self, tape: Tape) -> Step<EndedView> {
        let mark = tape;
        asked(Ask::PollChild, tape).and_then(|reply: Reply, tape: Tape|
        match reply {
            Reply::Exited { success, description } => done(
                EndedView { success, description: description@ },
                tape,
            ),
            Reply::Running => ask_flag(Ask::SignalPending, tape).and_then(|pending: bool, tape: Tape|
            if pending {
                ensure_console_session_steps(self.host, self.paths.command_name(), tape).and_then(|_u: (), tape: Tape|
                self.suspend_console_process(tape))
            } else {
                slept(100, tape).and_then(|_u: (), tape: Tape|
                again(Ask::PollChild, mark.read, tape))
            }),
            _ => no_answer(reply, tape),
        })
    }

    /// The program that shows the console. It keeps the host awake and has a
    /// process group of its own, so that a signal to the command does not reach
    /// it.
    pub open spec fn console_command(self, caffeinate: CommandView) -> CommandView {
        caffeinate.process_group().arg("-disu"@).arg(self.paths.bin("tart"@)).arg("run"@).arg(
            "--suspendable"@,
        ).arg("--net-bridged="@ + BRIDGE@).arg(self.config.vm_name).input(
            InputView::Inherited,
        ).streams(Sink::Inherited)
    }

    /// Shows the console until it ends. The VM must be saved then.
    #[verifier::opaque]
    pub open spec fn show_console(self, tape: Tape) -> Step<()> {
        printed(
            "opening Tart recovery console; this command stays active until it closes..."@,
            tape,
        ).and_then(|_u: (), tape: Tape|
        self.configure_tart_storage(CommandView::new("/usr/bin/caffeinate"@), tape).and_then(|caffeinate: CommandView, tape: Tape|
        ask_done(Ask::Spawn(self.console_command(caffeinate)), tape).and_then(|_u: (), tape: Tape|
        slept(250, tape).and_then(|_u: (), tape: Tape|
        self.watch_console(tape).and_then(|ended: EndedView, tape: Tape|
        ensured(ended.success, "Tart exited with "@ + ended.description, tape).and_then(|_u: (), tape: Tape|
        self.vm_info(tape).and_then(|vm: VmInfo, tape: Tape|
        ensured(
            vm.state == VmState::Suspended,
            "the console VM exited without a saved state"@,
            tape,
        ))))))))
    }

    /// Takes the VM out of the background and shows it. The user must be at the
    /// console before and after.
    #[verifier::opaque]
    pub open spec fn open_console(self, resume_background: bool, tape: Tape) -> Step<()> {
        ensure_console_session_steps(self.host, self.paths.command_name(), tape).and_then(|_u: (), tape: Tape|
        self.prepare_console(resume_background, tape).and_then(|_u: (), tape: Tape|
        ensure_console_session_steps(self.host, self.paths.command_name(), tape).and_then(|_u: (), tape: Tape|
        ask_flag(Ask::SignalPending, tape).and_then(|pending: bool, tape: Tape|
        ensured(!pending, "console launch was interrupted"@, tape).and_then(|_u: (), tape: Tape|
        self.show_console(tape))))))
    }

    /// What must hold before the console opens, and whether the background is to
    /// resume the VM later.
    #[verifier::opaque]
    pub open spec fn preflight_console(self, tape: Tape) -> Step<bool> {
        ensure_console_session_steps(self.host, self.paths.command_name(), tape).and_then(|_u: (), tape: Tape|
        self.clear_keychain_helper(tape).and_then(|_u: (), tape: Tape|
        self.ensure_keychain(KeychainMode::Current, tape).and_then(|_u: (), tape: Tape|
        self.supervised(tape).and_then(|resume_background: bool, tape: Tape|
        (if resume_background {
            self.ensure_keychain(KeychainMode::BackgroundInteractive, tape)
        } else {
            done((), tape)
        }).and_then(|_u: (), tape: Tape|
        self.ensure_storage(StorageAccess::Interactive, tape).and_then(|_u: (), tape: Tape|
        self.vm_exists(tape).and_then(|exists: bool, tape: Tape|
        ensured(exists, "VM does not exist"@, tape).and_then(|_u: (), tape: Tape|
        validate_bridge_steps(tape).and_then(|_u: (), tape: Tape|
        done(resume_background, tape))))))))))
    }

    /// Has the service run a VM that is not running.
    #[verifier::opaque]
    pub open spec fn start_background(self, tape: Tape) -> Step<()> {
        self.vm_info(tape).and_then(|vm: VmInfo, tape: Tape|
        if vm.state == VmState::Running {
            done((), tape)
        } else {
            printed("starting the background VM before opening the console..."@, tape).and_then(|_u: (), tape: Tape|
            self.start_service(tape).and_then(|_u: (), tape: Tape|
            self.wait_for_ssh(300, tape).and_then(|_ip: Seq<char>, tape: Tape|
            done((), tape))))
        })
    }

    pub open spec fn console_withheld(self) -> Seq<char> {
        "background restart was withheld to avoid a cold boot; inspect the VM, then run '"@
            + self.paths.command_name() + " start' when ready"@
    }

    /// The console while signals are noted. Where it fails, the background does
    /// not resume the VM.
    #[verifier::opaque]
    pub open spec fn guarded_console(self, resume_background: bool, tape: Tape) -> Step<()> {
        ask_done(Ask::WatchSignals, tape).and_then(|_u: (), tape: Tape|
        if resume_background {
            self.open_console(resume_background, tape).release(Ask::UnwatchSignals).context(
                self.console_withheld(),
            )
        } else {
            self.open_console(resume_background, tape).release(Ask::UnwatchSignals)
        })
    }

    #[verifier::opaque]
    pub open spec fn console(self, tape: Tape) -> Step<()> {
        self.preflight_console(tape).and_then(|resume_background: bool, tape: Tape|
        (if resume_background { self.start_background(tape) } else { done((), tape) }).and_then(|_u: (), tape: Tape|
        self.guarded_console(resume_background, tape).and_then(|_u: (), tape: Tape|
        if resume_background {
            printed("console closed; restoring the background VM..."@, tape).and_then(|_u: (), tape: Tape|
            self.start_ready(tape))
        } else {
            done((), tape)
        })))
    }
}

fn ended(success: bool, description: &str) -> (ended: Ended)
    ensures
        ended@ == (EndedView { success, description: description@ }),
{
    Ended { success, description: description.to_owned() }
}

impl<'a> App<'a> {
    fn await_suspended(&self, session: &mut Session, start: u64) -> (out: Result<(), Halt>)
        ensures
            follows(out, *final(session), self@.await_suspended(start, old(session)@)),
    {
        proof {
            reveal(AppView::await_suspended);
        }
        let mark = session.read;
        match self.vm_info(session)?.state {
            VmState::Suspended => Ok(()),
            VmState::Stopped => Err(refusal("the VM stopped before Tart could suspend it")),
            VmState::Running => {
                let now = session.now()?;
                ensure(
                    is_before_deadline(start, 300000, now),
                    "timed out waiting for the VM to suspend",
                )?;
                session.sleep(500)?;
                session.again(Request::FileMode(self.paths.bin("tart")), mark)
            },
        }
    }

    fn suspend_command(&self, tart: Command) -> (command: Command)
        ensures
            command@ == self@.suspend_command(tart@),
    {
        tart.arg("suspend").arg(self.config.vm_name.as_str())
    }

    fn save_state(&self, session: &mut Session) -> (out: Result<(), Halt>)
        ensures
            follows(out, *final(session), self@.save_state(old(session)@)),
    {
        proof {
            reveal(AppView::save_state);
        }
        session.print("saving VM state; this can take several minutes...")?;
        let tart = self.tart(session)?;
        success(session, self.suspend_command(tart), "suspend the VM")?;
        let start = session.now()?;
        self.await_suspended(session, start)
    }

    fn console_source(&self, session: &mut Session, resume_background: bool) -> (out: Result<
        ConsoleSource,
        Halt,
    >)
        ensures
            follows(
                out,
                *final(session),
                self@.console_source(resume_background, old(session)@),
            ),
    {
        proof {
            reveal(AppView::console_source);
        }
        match self.vm_info(session)?.state {
            VmState::Running => {
                self.save_state(session)?;
                Ok(ConsoleSource::Snapshot)
            },
            VmState::Suspended => Ok(ConsoleSource::Snapshot),
            VmState::Stopped => {
                ensure(
                    !resume_background,
                    "the background VM stopped before it could be suspended",
                )?;
                Ok(ConsoleSource::ColdBoot)
            },
        }
    }

    pub fn prepare_console(&self, session: &mut Session, resume_background: bool) -> (out: Result<
        (),
        Halt,
    >)
        ensures
            follows(
                out,
                *final(session),
                self@.prepare_console(resume_background, old(session)@),
            ),
    {
        proof {
            reveal(AppView::prepare_console);
        }
        remove_if_present(session, self.paths.run_marker.as_str())?;
        let source = self.console_source(session, resume_background)?;
        self.unload_service(session)?;
        match (source, self.vm_info(session)?.state) {
            (ConsoleSource::Snapshot, VmState::Suspended) => Ok(()),
            (ConsoleSource::ColdBoot, VmState::Stopped) => Ok(()),
            (ConsoleSource::Snapshot, _) => Err(
                refusal("the VM snapshot was lost during the background handoff"),
            ),
            (ConsoleSource::ColdBoot, _) => Err(
                refusal("the VM changed state during the console handoff"),
            ),
        }
    }

    fn send_suspend(&self, session: &mut Session) -> (out: Result<bool, Halt>)
        ensures
            follows(out, *final(session), self@.send_suspend(old(session)@)),
    {
        proof {
            reveal(AppView::send_suspend);
        }
        match attempt(self.tart(session))? {
            Err(_) => Ok(false),
            Ok(tart) => {
                let command = self.suspend_command(tart.process_group()).input(
                    Input::Inherited,
                ).streams(Sink::Discarded);
                match session.ask(Request::Run(command))? {
                    Reply::Output(output) => Ok(output.success()),
                    _ => Ok(false),
                }
            },
        }
    }

    fn await_console_end(&self, session: &mut Session, start: u64) -> (out: Result<Ended, Halt>)
        ensures
            follows(out, *final(session), self@.await_console_end(start, old(session)@)),
    {
        proof {
            reveal(AppView::await_console_end);
        }
        let mark = session.read;
        match session.ask(Request::PollChild)? {
            Reply::Exited { success, description } => Ok(ended(*success, description.as_str())),
            Reply::Running => {
                let now = session.now()?;
                ensure(
                    is_before_deadline(start, 300000, now),
                    "timed out waiting for the console VM to suspend; Tart was left running",
                )?;
                session.sleep(250)?;
                session.again(Request::PollChild, mark)
            },
            reply => Err(no_answer_to(reply)),
        }
    }

    fn end_console(&self, session: &mut Session, start: u64) -> (out: Result<Ended, Halt>)
        ensures
            follows(out, *final(session), self@.end_console(start, old(session)@)),
    {
        proof {
            reveal(AppView::end_console);
        }
        let mark = session.read;
        match session.ask(Request::PollChild)? {
            Reply::Exited { success, description } => Ok(ended(*success, description.as_str())),
            Reply::Running => {
                if self.send_suspend(session)? {
                    return self.await_console_end(session, start);
                }
                let now = session.now()?;
                ensure(
                    is_before_deadline(start, 300000, now),
                    "timed out asking Tart to suspend the console VM; Tart was left running",
                )?;
                session.sleep(250)?;
                session.again(Request::PollChild, mark)
            },
            reply => Err(no_answer_to(reply)),
        }
    }

    pub fn suspend_console_process(&self, session: &mut Session) -> (out: Result<Ended, Halt>)
        ensures
            follows(out, *final(session), self@.suspend_console_process(old(session)@)),
    {
        proof {
            reveal(AppView::suspend_console_process);
        }
        let start = session.now()?;
        self.end_console(session, start)
    }

    fn watch_console(&self, session: &mut Session) -> (out: Result<Ended, Halt>)
        ensures
            follows(out, *final(session), self@.watch_console(old(session)@)),
    {
        proof {
            reveal(AppView::watch_console);
        }
        let mark = session.read;
        match session.ask(Request::PollChild)? {
            Reply::Exited { success, description } => Ok(ended(*success, description.as_str())),
            Reply::Running => {
                if session.flag(Request::SignalPending)? {
                    ensure_console_session(session, self.host, self.paths.command_name())?;
                    return self.suspend_console_process(session);
                }
                session.sleep(100)?;
                session.again(Request::PollChild, mark)
            },
            reply => Err(no_answer_to(reply)),
        }
    }

    fn console_command(&self, caffeinate: Command) -> (command: Command)
        ensures
            command@ == self@.console_command(caffeinate@),
    {
        caffeinate.process_group().arg("-disu").arg(self.paths.bin("tart").as_str()).arg("run").arg(
            "--suspendable",
        ).arg("--net-bridged=".to_owned().concat(BRIDGE).as_str()).arg(
            self.config.vm_name.as_str(),
        ).input(Input::Inherited).streams(Sink::Inherited)
    }

    fn show_console(&self, session: &mut Session) -> (out: Result<(), Halt>)
        ensures
            follows(out, *final(session), self@.show_console(old(session)@)),
    {
        proof {
            reveal(AppView::show_console);
        }
        session.print(
            "opening Tart recovery console; this command stays active until it closes...",
        )?;
        let caffeinate = self.configure_tart_storage(
            session,
            Command::new("/usr/bin/caffeinate"),
        )?;
        session.done(Request::Spawn(self.console_command(caffeinate)))?;
        session.sleep(250)?;
        let ended = self.watch_console(session)?;
        ensure(
            ended.success,
            "Tart exited with ".to_owned().concat(ended.description.as_str()).as_str(),
        )?;
        let suspended = match self.vm_info(session)?.state {
            VmState::Suspended => true,
            VmState::Running | VmState::Stopped => false,
        };
        ensure(suspended, "the console VM exited without a saved state")
    }

    fn open_console(&self, session: &mut Session, resume_background: bool) -> (out: Result<
        (),
        Halt,
    >)
        ensures
            follows(
                out,
                *final(session),
                self@.open_console(resume_background, old(session)@),
            ),
    {
        proof {
            reveal(AppView::open_console);
        }
        ensure_console_session(session, self.host, self.paths.command_name())?;
        self.prepare_console(session, resume_background)?;
        ensure_console_session(session, self.host, self.paths.command_name())?;
        let pending = session.flag(Request::SignalPending)?;
        ensure(!pending, "console launch was interrupted")?;
        self.show_console(session)
    }

    fn preflight_console(&self, session: &mut Session) -> (out: Result<bool, Halt>)
        ensures
            follows(out, *final(session), self@.preflight_console(old(session)@)),
    {
        proof {
            reveal(AppView::preflight_console);
        }
        ensure_console_session(session, self.host, self.paths.command_name())?;
        self.clear_keychain_helper(session)?;
        self.ensure_keychain(session, KeychainMode::Current)?;
        let resume_background = self.supervised(session)?;
        if resume_background {
            self.ensure_keychain(session, KeychainMode::BackgroundInteractive)?;
        }
        self.ensure_storage(session, StorageAccess::Interactive)?;
        let exists = self.vm_exists(session)?;
        ensure(exists, "VM does not exist")?;
        validate_bridge(session)?;
        Ok(resume_background)
    }

    fn start_background(&self, session: &mut Session) -> (out: Result<(), Halt>)
        ensures
            follows(out, *final(session), self@.start_background(old(session)@)),
    {
        proof {
            reveal(AppView::start_background);
        }
        match self.vm_info(session)?.state {
            VmState::Running => Ok(()),
            VmState::Suspended | VmState::Stopped => {
                session.print("starting the background VM before opening the console...")?;
                self.start_service(session)?;
                self.wait_for_ssh(session, 300)?;
                Ok(())
            },
        }
    }

    fn guarded_console(&self, session: &mut Session, resume_background: bool) -> (out: Result<
        (),
        Halt,
    >)
        ensures
            follows(
                out,
                *final(session),
                self@.guarded_console(resume_background, old(session)@),
            ),
    {
        proof {
            reveal(AppView::guarded_console);
        }
        session.done(Request::WatchSignals)?;
        let out = self.open_console(session, resume_background);
        let out = session.release(out, Request::UnwatchSignals);
        if resume_background {
            with_context(
                out,
                "background restart was withheld to avoid a cold boot; inspect the VM, then run '".to_owned().concat(
                self.paths.command_name()).concat(" start' when ready").as_str(),
            )
        } else {
            out
        }
    }

    pub fn console(&self, session: &mut Session) -> (out: Result<(), Halt>)
        ensures
            follows(out, *final(session), self@.console(old(session)@)),
    {
        proof {
            reveal(AppView::console);
        }
        let resume_background = self.preflight_console(session)?;
        if resume_background {
            self.start_background(session)?;
        }
        self.guarded_console(session, resume_background)?;
        if resume_background {
            session.print("console closed; restoring the background VM...")?;
            self.start_ready(session)?;
        }
        Ok(())
    }
}

} // verus!
