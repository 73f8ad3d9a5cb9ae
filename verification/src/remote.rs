//! Reaching the guest from the host: SSH and Screen Sharing.

use crate::app::{App, AppView};
use crate::command::{Command, CommandView, Input, InputView, Sink};
use crate::facts::{ConsoleInfo, ConsoleSession, Output, VmInfo, VmState};
use crate::host::{Host, HostView};
use crate::path::{join, joined};
use crate::process::{
    check_output, check_output_steps, checked, checked_steps, success, success_steps,
};
use crate::service::{before_deadline, is_before_deadline};
use crate::session::{
    again, ask_flag, ask_instant, ask_output, asked, done, ensure, ensured, follows, no_answer,
    no_answer_to, printed, refusal, refused, slept, with_context, Ask, Halt, Reply, Request,
    Session, Step, Tape,
};
use crate::text::{same, texts};
use crate::volume::StorageAccess;
use vstd::prelude::*;

verus! {

// ---------------------------------------------------------- graphical session
/// The command that names the kind of launchd session.
pub open spec fn session_command() -> CommandView {
    CommandView::new("/bin/launchctl"@).arg("managername"@)
}

/// The kind of launchd session that the command runs in.
pub open spec fn launchd_session_steps(tape: Tape) -> Step<Seq<char>> {
    checked_steps(session_command(), "inspect the launchd session"@, tape)
}

pub fn launchd_session(session: &mut Session) -> (out: Result<String, Halt>)
    ensures
        follows(out, *final(session), launchd_session_steps(old(session)@)),
{
    checked(
        session,
        Command::new("/bin/launchctl").arg("managername"),
        "inspect the launchd session",
    )
}

/// Goes on only in a graphical session.
pub open spec fn ensure_graphical_session_steps(
    name: Seq<char>,
    command: Seq<char>,
    tape: Tape,
) -> Step<()> {
    launchd_session_steps(tape).and_then(|kind: Seq<char>, tape: Tape|
    ensured(
        kind == "Aqua"@,
        name + " "@ + command + " requires an active graphical host session"@,
        tape,
    ))
}

pub fn ensure_graphical_session(session: &mut Session, name: &str, command: &str) -> (out: Result<
    (),
    Halt,
>)
    ensures
        follows(
            out,
            *final(session),
            ensure_graphical_session_steps(name@, command@, old(session)@),
        ),
{
    let kind = launchd_session(session)?;
    ensure(
        same(kind.as_str(), "Aqua"),
        name.to_owned().concat(" ").concat(command).concat(
            " requires an active graphical host session",
        ).as_str(),
    )
}

/// The first session of a user that is on the console.
pub open spec fn on_console(users: Seq<ConsoleSession>, user_id: u32) -> Option<ConsoleSession>
    decreases users.len(),
{
    if users.len() == 0 {
        None
    } else if users[0].user_id == user_id && users[0].on_console {
        Some(users[0])
    } else {
        on_console(users.drop_first(), user_id)
    }
}

fn find_on_console(users: &Vec<ConsoleSession>, user_id: u32) -> (found: Option<&ConsoleSession>)
    ensures
        match found {
            Some(found) => on_console(users@, user_id) == Some(*found),
            None => on_console(users@, user_id) is None,
        },
{
    let mut at: usize = 0;
    assert(users@.skip(0) == users@);
    while at < users.len()
        invariant
            at <= users@.len(),
            on_console(users@, user_id) == on_console(users@.skip(at as int), user_id),
        decreases users@.len() - at,
    {
        assert(users@.skip(at as int)[0] == users@[at as int]);
        if users[at].user_id == user_id && users[at].on_console {
            return Some(&users[at]);
        }
        assert(users@.skip(at as int).drop_first() == users@.skip(at + 1));
        at = at + 1;
    }
    None
}

/// Whether the console shows an unlocked session.
pub open spec fn unlocked_console(console: ConsoleInfo, session: ConsoleSession) -> bool {
    !console.locked && session.login_done && !session.screen_locked
}

pub open spec fn decoded_console_steps(bytes: Seq<u8>, tape: Tape) -> Step<ConsoleInfo> {
    asked(Ask::DecodeConsole(bytes), tape).and_then(|reply: Reply, tape: Tape|
    match reply {
        Reply::Console(console) => done(console, tape),
        _ => no_answer(reply, tape),
    })
}

fn decoded_console<'s>(session: &mut Session<'s>, bytes: Vec<u8>) -> (out: Result<
    &'s ConsoleInfo,
    Halt,
>)
    ensures
        follows(out, *final(session), decoded_console_steps(bytes@, old(session)@)),
{
    match session.ask(Request::DecodeConsole(bytes))? {
        Reply::Console(console) => Ok(console),
        reply => Err(no_answer_to(reply)),
    }
}

/// The command that describes the graphical sessions.
pub open spec fn console_info_command() -> CommandView {
    CommandView::new("/usr/sbin/ioreg"@).option("-n"@, "Root"@).arg("-d1"@).arg("-a"@)
}

/// Goes on only in the graphical session of a user who is at the console, while
/// it is unlocked.
pub open spec fn ensure_console_session_steps(
    host: HostView,
    name: Seq<char>,
    tape: Tape,
) -> Step<()> {
    ensure_graphical_session_steps(name, "console"@, tape).and_then(|_u: (), tape: Tape|
    ask_output(Ask::Run(console_info_command()), tape).context("cannot inspect the graphical host session"@).and_then(|output: Output, tape: Tape|
    check_output_steps(output, "inspect the graphical host session"@, tape).and_then(|_u: (), tape: Tape|
    decoded_console_steps(output.stdout@, tape).context(
        "ioreg returned malformed graphical session information"@,
    ).and_then(|console: ConsoleInfo, tape: Tape|
    match on_console(console.users@, host.user_id) {
        None => refused("the current user has no on-console graphical host session"@, tape),
        Some(own) => ensured(
            unlocked_console(console, own),
            name
                + " console requires this user's on-console graphical session to be unlocked so macOS can encrypt the VM snapshot"@,
            tape,
        ),
    }))))
}

pub fn ensure_console_session(session: &mut Session, host: &Host, name: &str) -> (out: Result<
    (),
    Halt,
>)
    ensures
        follows(
            out,
            *final(session),
            ensure_console_session_steps(host@, name@, old(session)@),
        ),
{
    ensure_graphical_session(session, name, "console")?;
    let output = with_context(
        session.output(
            Request::Run(
                Command::new("/usr/sbin/ioreg").option("-n", "Root").arg("-d1").arg("-a"),
            ),
        ),
        "cannot inspect the graphical host session",
    )?;
    check_output(output, "inspect the graphical host session")?;
    let console = with_context(
        decoded_console(session, crate::encoding::bytes_of(&output.stdout)),
        "ioreg returned malformed graphical session information",
    )?;
    match find_on_console(&console.users, host.user_id) {
        None => Err(refusal("the current user has no on-console graphical host session")),
        Some(own) => ensure(
            !console.locked && own.login_done && !own.screen_locked,
            name.to_owned().concat(
                " console requires this user's on-console graphical session to be unlocked so macOS can encrypt the VM snapshot",
            ).as_str(),
        ),
    }
}

// ------------------------------------------------------------------ processes
/// Runs a program in place of the command. That the host replies means that it
/// could not.
pub open spec fn exec_steps(command: CommandView, program: Seq<char>, tape: Tape) -> Step<()> {
    asked(Ask::Exec(command.input(InputView::Inherited).streams(Sink::Inherited)), tape).and_then(|reply: Reply, tape: Tape|
    match reply {
        Reply::Failed(reason) => refused(
            "cannot execute "@ + program + ": "@ + reason@,
            tape,
        ),
        _ => no_answer(reply, tape),
    })
}

pub fn exec(session: &mut Session, command: Command, program: &str) -> (out: Result<(), Halt>)
    ensures
        follows(out, *final(session), exec_steps(command@, program@, old(session)@)),
{
    match session.ask(Request::Exec(command.input(Input::Inherited).streams(Sink::Inherited)))? {
        Reply::Failed(reason) => Err(
            refusal(
                "cannot execute ".to_owned().concat(program).concat(": ").concat(
                    reason.as_str(),
                ).as_str(),
            ),
        ),
        reply => Err(no_answer_to(reply)),
    }
}

/// The command that opens the desktop at an address.
pub open spec fn view_command(ip: Seq<char>) -> CommandView {
    CommandView::new("/usr/bin/open"@).arg("vnc://"@ + ip)
}

impl AppView {
    /// SSH to the guest, with the key and the known hosts of this VM alone.
    pub open spec fn ssh_command(self, ip: Seq<char>) -> CommandView {
        CommandView::new("/usr/bin/ssh"@).option("-i"@, self.paths.ssh_key).option(
            "-o"@,
            "BatchMode=yes"@,
        ).option("-o"@, "IdentitiesOnly=yes"@).option(
            "-o"@,
            "StrictHostKeyChecking=accept-new"@,
        ).option(
            "-o"@,
            "UserKnownHostsFile="@ + join(self.paths.config_dir, "known_hosts"@),
        ).arg(self.config.guest_user + "@"@ + ip)
    }

    /// A command that succeeds once the guest accepts connections.
    pub open spec fn ssh_probe(self, ip: Seq<char>) -> CommandView {
        self.ssh_command(ip).option("-o"@, "ConnectTimeout=5"@).option(
            "-o"@,
            "ConnectionAttempts=1"@,
        ).arg("/usr/bin/true"@).streams(Sink::Discarded)
    }

    /// One round of waiting for SSH.
    #[verifier::opaque]
    pub open spec fn await_ssh(self, ip: Seq<char>, start: u64, tape: Tape) -> Step<()> {
        let mark = tape;
        let probe = Ask::Run(self.ssh_probe(ip));
        ask_output(probe, tape).and_then(|output: Output, tape: Tape|
        if output.succeeded() {
            done((), tape)
        } else {
            ask_instant(tape).and_then(|now: u64, tape: Tape|
            ensured(
                before_deadline(start, 120000, now),
                "SSH did not become ready at "@ + ip,
                tape,
            ).and_then(|_u: (), tape: Tape|
            slept(2000, tape).and_then(|_u: (), tape: Tape|
            again(probe, mark.read, tape))))
        })
    }

    /// The address of the guest, once SSH is ready there.
    #[verifier::opaque]
    pub open spec fn wait_for_ssh(self, ip_wait: u32, tape: Tape) -> Step<Seq<char>> {
        self.vm_ip(ip_wait, tape).and_then(|ip: Seq<char>, tape: Tape|
        ask_instant(tape).and_then(|start: u64, tape: Tape|
        self.await_ssh(ip, start, tape).and_then(|_u: (), tape: Tape|
        done(ip, tape))))
    }

    /// Connects to the guest, or runs a command there.
    #[verifier::opaque]
    pub open spec fn ssh(self, arguments: Seq<Seq<char>>, tape: Tape) -> Step<()> {
        self.wait_for_ssh(120, tape).and_then(|ip: Seq<char>, tape: Tape|
        exec_steps(self.ssh_command(ip).args(arguments), "ssh"@, tape))
    }

    /// Goes on only with a VM that was installed and is running.
    #[verifier::opaque]
    pub open spec fn ensure_running(self, tape: Tape) -> Step<()> {
        self.ensure_storage(StorageAccess::Background, tape).and_then(|_u: (), tape: Tape|
        self.vm_exists(tape).and_then(|exists: bool, tape: Tape|
        ensured(
            exists,
            "VM does not exist; rerun '"@ + self.paths.install_hint() + "'"@,
            tape,
        ).and_then(|_u: (), tape: Tape|
        ask_flag(Ask::Exists(self.paths.provisioned), tape).and_then(|provisioned: bool, tape: Tape|
        ensured(
            provisioned,
            "VM installation is incomplete; rerun '"@ + self.paths.install_hint() + "'"@,
            tape,
        ).and_then(|_u: (), tape: Tape|
        self.vm_info(tape).and_then(|vm: VmInfo, tape: Tape|
        ensured(
            vm.state == VmState::Running,
            "VM is not running; run '"@ + self.paths.command_name() + " start'"@,
            tape,
        )))))))
    }

    /// Opens the desktop of the guest in Screen Sharing.
    #[verifier::opaque]
    pub open spec fn screen_share(self, tape: Tape) -> Step<()> {
        self.ensure_running(tape).and_then(|_u: (), tape: Tape|
        self.vm_ip(120, tape).and_then(|ip: Seq<char>, tape: Tape|
        ensure_graphical_session_steps(self.paths.command_name(), "screen-share"@, tape).and_then(|_u: (), tape: Tape|
        success_steps(view_command(ip), "open guest Screen Sharing"@, tape).and_then(|_u: (), tape: Tape|
        printed("screen sharing: "@ + self.config.guest_user + "@"@ + ip, tape)))))
    }
}

impl<'a> App<'a> {
    pub fn ssh_command(&self, ip: &str) -> (command: Command)
        ensures
            command@ == self@.ssh_command(ip@),
    {
        Command::new("/usr/bin/ssh").option("-i", self.paths.ssh_key.as_str()).option(
            "-o",
            "BatchMode=yes",
        ).option("-o", "IdentitiesOnly=yes").option(
            "-o",
            "StrictHostKeyChecking=accept-new",
        ).option(
            "-o",
            "UserKnownHostsFile=".to_owned().concat(
                joined(self.paths.config_dir.as_str(), "known_hosts").as_str(),
            ).as_str(),
        ).arg(self.config.guest_user.clone().concat("@").concat(ip).as_str())
    }

    fn ssh_probe(&self, ip: &str) -> (command: Command)
        ensures
            command@ == self@.ssh_probe(ip@),
    {
        self.ssh_command(ip).option("-o", "ConnectTimeout=5").option(
            "-o",
            "ConnectionAttempts=1",
        ).arg("/usr/bin/true").streams(Sink::Discarded)
    }

    fn await_ssh(&self, session: &mut Session, ip: &str, start: u64) -> (out: Result<(), Halt>)
        ensures
            follows(out, *final(session), self@.await_ssh(ip@, start, old(session)@)),
    {
        proof {
            reveal(AppView::await_ssh);
        }
        let mark = session.read;
        if session.output(Request::Run(self.ssh_probe(ip)))?.success() {
            return Ok(());
        }
        let now = session.now()?;
        ensure(
            is_before_deadline(start, 120000, now),
            "SSH did not become ready at ".to_owned().concat(ip).as_str(),
        )?;
        session.sleep(2000)?;
        session.again(Request::Run(self.ssh_probe(ip)), mark)
    }

    pub fn wait_for_ssh(&self, session: &mut Session, ip_wait: u32) -> (out: Result<String, Halt>)
        ensures
            follows(out, *final(session), self@.wait_for_ssh(ip_wait, old(session)@)),
    {
        proof {
            reveal(AppView::wait_for_ssh);
        }
        let ip = self.vm_ip(session, ip_wait)?;
        let start = session.now()?;
        self.await_ssh(session, ip.as_str(), start)?;
        Ok(ip)
    }

    pub fn ssh(&self, session: &mut Session, arguments: &Vec<String>) -> (out: Result<(), Halt>)
        ensures
            follows(out, *final(session), self@.ssh(texts(arguments@), old(session)@)),
    {
        proof {
            reveal(AppView::ssh);
        }
        let ip = self.wait_for_ssh(session, 120)?;
        exec(session, self.ssh_command(ip.as_str()).args(arguments), "ssh")
    }

    pub fn ensure_running(&self, session: &mut Session) -> (out: Result<(), Halt>)
        ensures
            follows(out, *final(session), self@.ensure_running(old(session)@)),
    {
        proof {
            reveal(AppView::ensure_running);
        }
        self.ensure_storage(session, StorageAccess::Background)?;
        let exists = self.vm_exists(session)?;
        ensure(
            exists,
            "VM does not exist; rerun '".to_owned().concat(
                self.paths.install_hint().as_str(),
            ).concat("'").as_str(),
        )?;
        let provisioned = session.flag(Request::Exists(self.paths.provisioned.clone()))?;
        ensure(
            provisioned,
            "VM installation is incomplete; rerun '".to_owned().concat(
                self.paths.install_hint().as_str(),
            ).concat("'").as_str(),
        )?;
        let running = match self.vm_info(session)?.state {
            VmState::Running => true,
            VmState::Suspended | VmState::Stopped => false,
        };
        ensure(
            running,
            "VM is not running; run '".to_owned().concat(self.paths.command_name()).concat(
                " start'",
            ).as_str(),
        )
    }

    pub fn screen_share(&self, session: &mut Session) -> (out: Result<(), Halt>)
        ensures
            follows(out, *final(session), self@.screen_share(old(session)@)),
    {
        proof {
            reveal(AppView::screen_share);
        }
        self.ensure_running(session)?;
        let ip = self.vm_ip(session, 120)?;
        ensure_graphical_session(session, self.paths.command_name(), "screen-share")?;
        success(
            session,
            Command::new("/usr/bin/open").arg("vnc://".to_owned().concat(ip.as_str()).as_str()),
            "open guest Screen Sharing",
        )?;
        session.print(
            "screen sharing: ".to_owned().concat(self.config.guest_user.as_str()).concat(
                "@",
            ).concat(ip.as_str()).as_str(),
        )
    }
}

} // verus!
