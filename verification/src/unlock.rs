//! Unlocking the login Keychain, in this session and in the background one.

use crate::agent::{three, KeychainHelperPlist, KeychainHelperPlistView, Plist, PlistView};
use crate::app::{App, AppView};
use crate::command::{Command, CommandView, Input, InputView, Sink};
use crate::error::{rendered, Messages};
use crate::facts::Output;
use crate::files::{private_dir, private_dir_steps, remove_if_present, remove_if_present_steps};
use crate::host::{Paths, PathsView};
use crate::path::{join, joined};
use crate::process::{checked, checked_steps, success, success_steps};
use crate::service::{before_deadline, is_before_deadline, launchctl, unload, unload_steps};
use crate::session::{
    again, ask_done, ask_flag, ask_instant, ask_output, asked, attempt, done, ensure, ensured,
    failed, follows, no_answer, no_answer_to, slept, with_context, Ask, Halt, Reply, Request,
    Session, Step, Tape,
};
use crate::text::{prefixed, same, starts_with, trim, trimmed};
use vstd::prelude::*;

verus! {

/// The session whose Keychain is to be unlocked, and whether the user can be
/// asked for a password.
#[derive(Clone, Copy, Debug, PartialEq, Eq, Structural)]
pub enum KeychainMode {
    /// This session; the user is asked.
    Current,
    /// The background session; the user is asked.
    BackgroundInteractive,
    /// This session, which is the background one; nobody can be asked.
    Background,
}

/// What the Keychain helper is started for.
#[derive(Clone, Copy, Debug, PartialEq, Eq, Structural)]
pub enum KeychainHelperMode {
    Check,
    Unlock,
}

/// Whether the login Keychain is unlocked in this session.
pub open spec fn keychain_unlocked_steps(paths: PathsView, tape: Tape) -> Step<bool> {
    ask_output(
        Ask::Run(
            CommandView::new("/usr/bin/security"@).arg("show-keychain-info"@).arg(
                paths.login_keychain(),
            ).streams(Sink::Discarded),
        ),
        tape,
    ).context("cannot inspect the host login Keychain"@).and_then(|output: Output, tape: Tape|
    done(output.succeeded(), tape))
}

pub fn keychain_unlocked(session: &mut Session, paths: &Paths) -> (out: Result<bool, Halt>)
    ensures
        follows(out, *final(session), keychain_unlocked_steps(paths@, old(session)@)),
{
    let output = with_context(
        session.output(
            Request::Run(
                Command::new("/usr/bin/security").arg("show-keychain-info").arg(
                    paths.login_keychain().as_str(),
                ).streams(Sink::Discarded),
            ),
        ),
        "cannot inspect the host login Keychain",
    )?;
    Ok(output.success())
}

/// The terminal of the user, if there is one.
pub open spec fn interactive_terminal_steps(tape: Tape) -> Step<Seq<char>> {
    asked(Ask::Terminals, tape).and_then(|reply: Reply, tape: Tape|
    match reply {
        Reply::Terminals { input, errors } => {
            ensured(
                input && errors,
                "the host login Keychain is locked; rerun from an interactive terminal"@,
                tape,
            ).and_then(|_u: (), tape: Tape|
            checked_steps(
                CommandView::new("/usr/bin/tty"@).input(InputView::Inherited),
                "locate the interactive terminal"@,
                tape,
            ))
        },
        _ => no_answer(reply, tape),
    })
}

pub fn interactive_terminal(session: &mut Session) -> (out: Result<String, Halt>)
    ensures
        follows(out, *final(session), interactive_terminal_steps(old(session)@)),
{
    match session.ask(Request::Terminals)? {
        Reply::Terminals { input, errors } => {
            ensure(
                *input && *errors,
                "the host login Keychain is locked; rerun from an interactive terminal",
            )?;
            checked(
                session,
                Command::new("/usr/bin/tty").input(Input::Inherited),
                "locate the interactive terminal",
            )
        },
        reply => Err(no_answer_to(reply)),
    }
}

/// One round of waiting for the tool that asks for the password. A signal ends
/// the tool and leaves the Keychain locked.
pub open spec fn await_unlock_steps(paths: PathsView, tape: Tape) -> Step<bool> {
    let mark = tape;
    ask_flag(Ask::SignalPending, tape).and_then(|pending: bool, tape: Tape|
    if pending {
        asked(Ask::KillChild, tape).and_then(|_reply: Reply, tape: Tape| done(false, tape))
    } else {
        asked(Ask::PollChild, tape).and_then(|reply: Reply, tape: Tape|
        match reply {
            Reply::Exited { success, .. } => if success {
                keychain_unlocked_steps(paths, tape)
            } else {
                done(false, tape)
            },
            Reply::Running => slept(10, tape).and_then(|_u: (), tape: Tape|
            again(Ask::SignalPending, mark.read, tape)),
            _ => no_answer(reply, tape),
        })
    })
}

fn await_unlock(session: &mut Session, paths: &Paths) -> (out: Result<bool, Halt>)
    ensures
        follows(out, *final(session), await_unlock_steps(paths@, old(session)@)),
{
    let mark = session.read;
    if session.flag(Request::SignalPending)? {
        session.ask(Request::KillChild)?;
        return Ok(false);
    }
    match session.ask(Request::PollChild)? {
        Reply::Exited { success, .. } => {
            if *success {
                keychain_unlocked(session, paths)
            } else {
                Ok(false)
            }
        },
        Reply::Running => {
            session.sleep(10)?;
            session.again(Request::SignalPending, mark)
        },
        reply => Err(no_answer_to(reply)),
    }
}

/// Has the `security` tool ask for the password and unlock the Keychain.
pub open spec fn ask_and_unlock_steps(paths: PathsView, tape: Tape) -> Step<bool> {
    ask_done(
        Ask::Spawn(
            CommandView::new("/usr/bin/security"@).arg("unlock-keychain"@).arg(
                paths.login_keychain(),
            ).input(InputView::Inherited).streams(Sink::Inherited),
        ),
        tape,
    ).context("cannot unlock the host login Keychain"@).and_then(|_u: (), tape: Tape|
    await_unlock_steps(paths, tape))
}

fn ask_and_unlock(session: &mut Session, paths: &Paths) -> (out: Result<bool, Halt>)
    ensures
        follows(out, *final(session), ask_and_unlock_steps(paths@, old(session)@)),
{
    with_context(
        session.done(
            Request::Spawn(
                Command::new("/usr/bin/security").arg("unlock-keychain").arg(
                    paths.login_keychain().as_str(),
                ).input(Input::Inherited).streams(Sink::Inherited),
            ),
        ),
        "cannot unlock the host login Keychain",
    )?;
    await_unlock(session, paths)
}

/// Unlocks the Keychain of this session. The terminal hides what is typed until
/// the end, however it comes.
pub open spec fn unlock_keychain_steps(paths: PathsView, terminal: Seq<char>, tape: Tape) -> Step<
    bool,
> {
    ask_done(Ask::WatchSignals, tape).and_then(|_u: (), tape: Tape|
    ask_done(Ask::HideInput(terminal), tape).and_then(|_u: (), tape: Tape|
    ask_and_unlock_steps(paths, tape).release(Ask::RestoreInput)).release(Ask::UnwatchSignals))
}

pub fn unlock_keychain(session: &mut Session, paths: &Paths, terminal: &str) -> (out: Result<
    bool,
    Halt,
>)
    ensures
        follows(
            out,
            *final(session),
            unlock_keychain_steps(paths@, terminal@, old(session)@),
        ),
{
    session.done(Request::WatchSignals)?;
    let out = match session.done(Request::HideInput(terminal.to_owned())) {
        Ok(()) => {
            let out = ask_and_unlock(session, paths);
            session.release(out, Request::RestoreInput)
        },
        Err(halt) => Err(halt),
    };
    session.release(out, Request::UnwatchSignals)
}

/// Where the Keychain helper leaves its result.
pub open spec fn helper_result(paths: PathsView) -> Seq<char> {
    join(paths.state, "keychain.result"@)
}

/// The service definition of the Keychain helper.
pub open spec fn helper_plist(paths: PathsView) -> Seq<char> {
    join(paths.state, "keychain.plist"@)
}

/// What the Keychain helper does: it looks at the Keychain, or unlocks it, and
/// publishes the result.
pub open spec fn internal_keychain_steps(
    paths: PathsView,
    mode: KeychainHelperMode,
    tape: Tape,
) -> Step<()> {
    (match mode {
        KeychainHelperMode::Check => keychain_unlocked_steps(paths, tape),
        KeychainHelperMode::Unlock => interactive_terminal_steps(tape).and_then(|terminal: Seq<char>, tape: Tape|
        unlock_keychain_steps(paths, terminal, tape)),
    }).and_then(|unlocked: bool, tape: Tape|
    private_dir_steps(paths.state, tape).and_then(|_u: (), tape: Tape|
    ask_done(Ask::PublishText {
        directory: paths.state,
        path: helper_result(paths),
        text: if unlocked { "unlocked\n"@ } else { "locked\n"@ },
    }, tape)))
}

pub fn internal_keychain(session: &mut Session, paths: &Paths, mode: KeychainHelperMode) -> (out:
    Result<(), Halt>)
    ensures
        follows(out, *final(session), internal_keychain_steps(paths@, mode, old(session)@)),
{
    let unlocked = match mode {
        KeychainHelperMode::Check => keychain_unlocked(session, paths)?,
        KeychainHelperMode::Unlock => {
            let terminal = interactive_terminal(session)?;
            unlock_keychain(session, paths, terminal.as_str())?
        },
    };
    private_dir(session, paths.state.as_str())?;
    session.done(
        Request::PublishText {
            directory: paths.state.clone(),
            path: joined(paths.state.as_str(), "keychain.result"),
            text: if unlocked {
                "unlocked\n".to_owned()
            } else {
                "locked\n".to_owned()
            },
        },
    )
}

/// The agent that runs the Keychain helper in the background session.
pub open spec fn helper_agent(
    paths: PathsView,
    mode: Seq<char>,
    terminal: Seq<char>,
) -> KeychainHelperPlistView {
    KeychainHelperPlistView {
        label: paths.keychain_helper_label,
        program_arguments: seq![paths.command_link, "internal-keychain"@, mode],
        home: paths.home,
        limit_load_to_session_type: "Background"@,
        process_type: "Background"@,
        run_at_load: true,
        standard_in_path: terminal,
        standard_out_path: terminal,
        standard_error_path: terminal,
    }
}

fn keychain_helper(paths: &Paths, mode: &str, terminal: &str) -> (plist: KeychainHelperPlist)
    ensures
        plist@ == helper_agent(paths@, mode@, terminal@),
{
    KeychainHelperPlist {
        label: paths.keychain_helper_label.clone(),
        program_arguments: three(paths.command_link.as_str(), "internal-keychain", mode),
        home: paths.home.clone(),
        limit_load_to_session_type: "Background".to_owned(),
        process_type: "Background".to_owned(),
        run_at_load: true,
        standard_in_path: terminal.to_owned(),
        standard_out_path: terminal.to_owned(),
        standard_error_path: terminal.to_owned(),
    }
}

/// One round of waiting for the result of the Keychain helper.
pub open spec fn await_helper_steps(paths: PathsView, start: u64, limit: u64, tape: Tape) -> Step<
    bool,
> {
    let mark = tape;
    let request = Ask::ReadText(helper_result(paths));
    asked(request, tape).and_then(|reply: Reply, tape: Tape|
    match reply {
        Reply::Text(result) => done(trimmed(result@) == "unlocked"@, tape),
        Reply::Missing(_) => ask_flag(Ask::SignalPending, tape).and_then(|pending: bool, tape: Tape|
        ensured(!pending, "Keychain unlock was interrupted"@, tape).and_then(|_u: (), tape: Tape|
        ask_instant(tape).and_then(|now: u64, tape: Tape|
        ensured(
            before_deadline(start, limit as int, now),
            "timed out waiting for the Keychain helper"@,
            tape,
        ).and_then(|_u: (), tape: Tape|
        slept(50, tape).and_then(|_u: (), tape: Tape|
        again(request, mark.read, tape)))))),
        _ => no_answer(reply, tape),
    })
}

fn await_helper(session: &mut Session, paths: &Paths, start: u64, limit: u64) -> (out: Result<
    bool,
    Halt,
>)
    ensures
        follows(out, *final(session), await_helper_steps(paths@, start, limit, old(session)@)),
{
    let mark = session.read;
    let result = joined(paths.state.as_str(), "keychain.result");
    match session.ask(Request::ReadText(result.clone()))? {
        Reply::Text(text) => Ok(same(trim(text.as_str()).as_str(), "unlocked")),
        Reply::Missing(_) => {
            let pending = session.flag(Request::SignalPending)?;
            ensure(!pending, "Keychain unlock was interrupted")?;
            let now = session.now()?;
            ensure(
                is_before_deadline(start, limit, now),
                "timed out waiting for the Keychain helper",
            )?;
            session.sleep(50)?;
            session.again(Request::ReadText(result), mark)
        },
        reply => Err(no_answer_to(reply)),
    }
}

impl AppView {
    /// Removes what an earlier Keychain helper left.
    #[verifier::opaque]
    pub open spec fn cleanup_keychain_helper(self, tape: Tape) -> Step<()> {
        unload_steps(
            self.paths.keychain_helper_target(self.host),
            "unload the Keychain helper"@,
            tape,
        ).and_then(|_u: (), tape: Tape|
        remove_if_present_steps(helper_plist(self.paths), tape).and_then(|_u: (), tape: Tape|
        remove_if_present_steps(helper_result(self.paths), tape)))
    }

    pub open spec fn clear_keychain_helper(self, tape: Tape) -> Step<()> {
        private_dir_steps(self.paths.state, tape).and_then(|_u: (), tape: Tape|
        self.cleanup_keychain_helper(tape))
    }

    /// Starts the Keychain helper and waits for its result.
    pub open spec fn keychain_helper_outcome(self, limit: u64, tape: Tape) -> Step<bool> {
        success_steps(
            launchctl("bootstrap"@, self.host.user_domain()).arg(helper_plist(self.paths)),
            "load the Keychain helper"@,
            tape,
        ).and_then(|_u: (), tape: Tape|
        ask_instant(tape).and_then(|start: u64, tape: Tape|
        await_helper_steps(self.paths, start, limit, tape)))
    }

    /// Runs the Keychain helper on a terminal and cleans up after it, also where
    /// it failed.
    #[verifier::opaque]
    pub open spec fn run_keychain_helper_on(
        self,
        mode: Seq<char>,
        terminal: Seq<char>,
        limit: u64,
        tape: Tape,
    ) -> Step<bool> {
        private_dir_steps(self.paths.state, tape).and_then(|_u: (), tape: Tape|
        self.cleanup_keychain_helper(tape).and_then(|_u: (), tape: Tape|
        ask_done(Ask::StagePlist {
            directory: self.paths.state,
            plist: PlistView::KeychainHelper(helper_agent(self.paths, mode, terminal)),
            mode: 0o600,
            durable: false,
        }, tape).and_then(|_u: (), tape: Tape|
        ask_done(Ask::PublishStaged(helper_plist(self.paths)), tape).and_then(|_u: (), tape: Tape|
        self.keychain_helper_outcome(limit, tape).attempt().and_then(|outcome: Result<bool, Messages>, tape: Tape|
        self.cleanup_keychain_helper(tape).attempt().and_then(|cleanup: Result<(), Messages>, tape: Tape|
        match (outcome, cleanup) {
            (Ok(unlocked), Ok(())) => done(unlocked, tape),
            (Err(messages), Ok(())) => failed(messages, tape),
            (Ok(_), Err(messages)) => failed(messages, tape),
            (Err(messages), Err(second)) => failed(
                seq!["Keychain helper cleanup also failed: "@ + rendered(second)] + messages,
                tape,
            ),
        }))))))
    }

    /// Whether the Keychain is unlocked in the background session.
    #[verifier::opaque]
    pub open spec fn background_check(self, tape: Tape) -> Step<bool> {
        ask_done(Ask::WatchSignals, tape).and_then(|_u: (), tape: Tape|
        self.run_keychain_helper_on("check"@, "/dev/null"@, 5000, tape).release(Ask::UnwatchSignals))
    }

    /// Unlocks the Keychain of the background session from a terminal.
    #[verifier::opaque]
    pub open spec fn background_unlock(self, terminal: Seq<char>, tape: Tape) -> Step<bool> {
        ask_done(Ask::WatchSignals, tape).and_then(|_u: (), tape: Tape|
        ensured(prefixed(terminal, "/dev/tty"@), "invalid terminal path"@, tape).and_then(|_u: (), tape: Tape|
        ask_done(Ask::HideInput(terminal), tape).and_then(|_u: (), tape: Tape|
        self.run_keychain_helper_on("unlock"@, terminal, 300000, tape).release(Ask::RestoreInput))).release(Ask::UnwatchSignals))
    }

    #[verifier::opaque]
    pub open spec fn ensure_current_keychain(self, tape: Tape) -> Step<()> {
        keychain_unlocked_steps(self.paths, tape).and_then(|unlocked: bool, tape: Tape|
        if unlocked {
            done((), tape)
        } else {
            interactive_terminal_steps(tape).and_then(|terminal: Seq<char>, tape: Tape|
            unlock_keychain_steps(self.paths, terminal, tape).and_then(|unlocked: bool, tape: Tape|
            ensured(unlocked, "failed to unlock the host login Keychain"@, tape)))
        })
    }

    #[verifier::opaque]
    pub open spec fn ensure_background_keychain(self, tape: Tape) -> Step<()> {
        self.background_check(tape).and_then(|unlocked: bool, tape: Tape|
        if unlocked {
            done((), tape)
        } else {
            interactive_terminal_steps(tape).and_then(|terminal: Seq<char>, tape: Tape|
            self.background_unlock(terminal, tape).and_then(|unlocked: bool, tape: Tape|
            ensured(
                unlocked,
                "failed to unlock the login Keychain for the Background service"@,
                tape,
            )))
        })
    }

    /// Makes sure that the Keychain is unlocked.
    #[verifier::opaque]
    pub open spec fn ensure_keychain(self, mode: KeychainMode, tape: Tape) -> Step<()> {
        match mode {
            KeychainMode::Current => self.ensure_current_keychain(tape),
            KeychainMode::BackgroundInteractive => self.ensure_background_keychain(tape),
            KeychainMode::Background => keychain_unlocked_steps(self.paths, tape).and_then(|unlocked: bool, tape: Tape|
            ensured(
                unlocked,
                "the host login Keychain is locked; run '"@ + self.paths.command_name()
                    + " start' from an interactive terminal"@,
                tape,
            )),
        }
    }
}

impl<'a> App<'a> {
    pub fn cleanup_keychain_helper(&self, session: &mut Session) -> (out: Result<(), Halt>)
        ensures
            follows(out, *final(session), self@.cleanup_keychain_helper(old(session)@)),
    {
        proof {
            reveal(AppView::cleanup_keychain_helper);
        }
        unload(
            session,
            self.paths.keychain_helper_target(self.host).as_str(),
            "unload the Keychain helper",
        )?;
        remove_if_present(session, joined(self.paths.state.as_str(), "keychain.plist").as_str())?;
        remove_if_present(session, joined(self.paths.state.as_str(), "keychain.result").as_str())
    }

    pub fn clear_keychain_helper(&self, session: &mut Session) -> (out: Result<(), Halt>)
        ensures
            follows(out, *final(session), self@.clear_keychain_helper(old(session)@)),
    {
        private_dir(session, self.paths.state.as_str())?;
        self.cleanup_keychain_helper(session)
    }

    fn keychain_helper_outcome(&self, session: &mut Session, limit: u64) -> (out: Result<
        bool,
        Halt,
    >)
        ensures
            follows(out, *final(session), self@.keychain_helper_outcome(limit, old(session)@)),
    {
        success(
            session,
            Command::new("/bin/launchctl").arg("bootstrap").arg(
                self.host.user_domain().as_str(),
            ).arg(joined(self.paths.state.as_str(), "keychain.plist").as_str()),
            "load the Keychain helper",
        )?;
        let start = session.now()?;
        await_helper(session, &self.paths, start, limit)
    }

    pub fn run_keychain_helper_on(
        &self,
        session: &mut Session,
        mode: &str,
        terminal: &str,
        limit: u64,
    ) -> (out: Result<bool, Halt>)
        ensures
            follows(
                out,
                *final(session),
                self@.run_keychain_helper_on(mode@, terminal@, limit, old(session)@),
            ),
    {
        proof {
            reveal(AppView::run_keychain_helper_on);
        }
        private_dir(session, self.paths.state.as_str())?;
        self.cleanup_keychain_helper(session)?;
        session.done(
            Request::StagePlist {
                directory: self.paths.state.clone(),
                plist: Plist::KeychainHelper(keychain_helper(&self.paths, mode, terminal)),
                mode: 0o600,
                durable: false,
            },
        )?;
        session.done(
            Request::PublishStaged(joined(self.paths.state.as_str(), "keychain.plist")),
        )?;
        let outcome = attempt(self.keychain_helper_outcome(session, limit))?;
        let cleanup = attempt(self.cleanup_keychain_helper(session))?;
        match (outcome, cleanup) {
            (Ok(unlocked), Ok(())) => Ok(unlocked),
            (Err(error), Ok(())) => Err(Halt::Failed(error)),
            (Ok(_), Err(error)) => Err(Halt::Failed(error)),
            (Err(error), Err(second)) => Err(
                Halt::Failed(
                    error.context(
                        "Keychain helper cleanup also failed: ".to_owned().concat(
                            second.render().as_str(),
                        ).as_str(),
                    ),
                ),
            ),
        }
    }

    pub fn background_check(&self, session: &mut Session) -> (out: Result<bool, Halt>)
        ensures
            follows(out, *final(session), self@.background_check(old(session)@)),
    {
        proof {
            reveal(AppView::background_check);
        }
        session.done(Request::WatchSignals)?;
        let out = self.run_keychain_helper_on(session, "check", "/dev/null", 5000);
        session.release(out, Request::UnwatchSignals)
    }

    fn background_unlock_watched(&self, session: &mut Session, terminal: &str) -> (out: Result<
        bool,
        Halt,
    >)
        ensures
            follows(
                out,
                *final(session),
                ensured(
                    prefixed(terminal@, "/dev/tty"@),
                    "invalid terminal path"@,
                    old(session)@,
                ).and_then(|_u: (), tape: Tape|
                ask_done(Ask::HideInput(terminal@), tape).and_then(|_u: (), tape: Tape|
                self@.run_keychain_helper_on("unlock"@, terminal@, 300000, tape).release(Ask::RestoreInput))),
            ),
    {
        ensure(starts_with(terminal, "/dev/tty"), "invalid terminal path")?;
        session.done(Request::HideInput(terminal.to_owned()))?;
        let out = self.run_keychain_helper_on(session, "unlock", terminal, 300000);
        session.release(out, Request::RestoreInput)
    }

    pub fn background_unlock(&self, session: &mut Session, terminal: &str) -> (out: Result<
        bool,
        Halt,
    >)
        ensures
            follows(out, *final(session), self@.background_unlock(terminal@, old(session)@)),
    {
        proof {
            reveal(AppView::background_unlock);
        }
        session.done(Request::WatchSignals)?;
        let out = self.background_unlock_watched(session, terminal);
        session.release(out, Request::UnwatchSignals)
    }

    pub fn ensure_current_keychain(&self, session: &mut Session) -> (out: Result<(), Halt>)
        ensures
            follows(out, *final(session), self@.ensure_current_keychain(old(session)@)),
    {
        proof {
            reveal(AppView::ensure_current_keychain);
        }
        if !keychain_unlocked(session, &self.paths)? {
            let terminal = interactive_terminal(session)?;
            let unlocked = unlock_keychain(session, &self.paths, terminal.as_str())?;
            ensure(unlocked, "failed to unlock the host login Keychain")?;
        }
        Ok(())
    }

    pub fn ensure_background_keychain(&self, session: &mut Session) -> (out: Result<(), Halt>)
        ensures
            follows(out, *final(session), self@.ensure_background_keychain(old(session)@)),
    {
        proof {
            reveal(AppView::ensure_background_keychain);
        }
        if !self.background_check(session)? {
            let terminal = interactive_terminal(session)?;
            let unlocked = self.background_unlock(session, terminal.as_str())?;
            ensure(
                unlocked,
                "failed to unlock the login Keychain for the Background service",
            )?;
        }
        Ok(())
    }

    pub fn ensure_keychain(&self, session: &mut Session, mode: KeychainMode) -> (out: Result<
        (),
        Halt,
    >)
        ensures
            follows(out, *final(session), self@.ensure_keychain(mode, old(session)@)),
    {
        proof {
            reveal(AppView::ensure_keychain);
        }
        match mode {
            KeychainMode::Current => self.ensure_current_keychain(session),
            KeychainMode::BackgroundInteractive => self.ensure_background_keychain(session),
            KeychainMode::Background => {
                let unlocked = keychain_unlocked(session, &self.paths)?;
                ensure(
                    unlocked,
                    "the host login Keychain is locked; run '".to_owned().concat(
                        self.paths.command_name(),
                    ).concat(" start' from an interactive terminal").as_str(),
                )
            },
        }
    }
}

} // verus!
