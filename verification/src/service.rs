//! The launchd service that keeps the VM running.

use crate::agent::{two, AgentPlist, AgentPlistView, KeepAlive, KeepAliveView, Plist, PlistView};
use crate::app::{App, AppView};
use crate::command::{Command, CommandView};
use crate::encoding::{lossy_of, lossy_text};
use crate::facts::Output;
use crate::files::{private_dir, private_dir_steps, remove_if_present, remove_if_present_steps};
use crate::path::{join, joined};
use crate::process::{success, success_steps};
use crate::session::{
    again, ask_done, ask_instant, ask_output, done, ensure, ensured, follows, refusal, refused,
    slept, with_context, Ask, Halt, Request, Session, Step, Tape,
};
use crate::text::{trim, trimmed};
use vstd::prelude::*;

verus! {

/// Whether a moment comes before `limit` milliseconds after the start.
pub open spec fn before_deadline(start: u64, limit: int, now: u64) -> bool {
    now < start + limit
}

pub fn is_before_deadline(start: u64, limit: u64, now: u64) -> (yes: bool)
    ensures
        yes == before_deadline(start, limit as int, now),
{
    now < start || now - start < limit
}

/// A command of `launchctl` about one service or domain.
pub open spec fn launchctl(verb: Seq<char>, target: Seq<char>) -> CommandView {
    CommandView::new("/bin/launchctl"@).arg(verb).arg(target)
}

fn launchctl_command(verb: &str, target: &str) -> (command: Command)
    ensures
        command@ == launchctl(verb@, target@),
{
    Command::new("/bin/launchctl").arg(verb).arg(target)
}

/// What `launchctl print` says of a service: code 113 means that it is not
/// loaded.
pub open spec fn loaded_state(output: Output, target: Seq<char>, tape: Tape) -> Step<bool> {
    if output.code == Some(0i32) {
        done(true, tape)
    } else if output.code == Some(113i32) {
        done(false, tape)
    } else {
        refused(
            "cannot inspect launchd service "@ + target + ": "@ + trimmed(
                lossy_text(output.stderr@),
            ),
            tape,
        )
    }
}

pub open spec fn service_loaded_steps(target: Seq<char>, tape: Tape) -> Step<bool> {
    ask_output(Ask::Run(launchctl("print"@, target)), tape).context(
        "cannot inspect the launchd service"@,
    ).and_then(|output: Output, tape: Tape| loaded_state(output, target, tape))
}

pub fn service_loaded(session: &mut Session, target: &str) -> (out: Result<bool, Halt>)
    ensures
        follows(out, *final(session), service_loaded_steps(target@, old(session)@)),
{
    let output = with_context(
        session.output(Request::Run(launchctl_command("print", target))),
        "cannot inspect the launchd service",
    )?;
    match output.code {
        Some(0) => Ok(true),
        Some(113) => Ok(false),
        _ => Err(
            refusal(
                "cannot inspect launchd service ".to_owned().concat(target).concat(": ").concat(
                    trim(lossy_of(&output.stderr).as_str()).as_str(),
                ).as_str(),
            ),
        ),
    }
}

/// Unloads a service that is loaded.
pub open spec fn unload_steps(target: Seq<char>, description: Seq<char>, tape: Tape) -> Step<()> {
    service_loaded_steps(target, tape).and_then(|loaded: bool, tape: Tape|
    if loaded {
        success_steps(launchctl("bootout"@, target), description, tape)
    } else {
        done((), tape)
    })
}

pub fn unload(session: &mut Session, target: &str, description: &str) -> (out: Result<(), Halt>)
    ensures
        follows(out, *final(session), unload_steps(target@, description@, old(session)@)),
{
    if service_loaded(session, target)? {
        success(session, launchctl_command("bootout", target), description)?;
    }
    Ok(())
}

/// One round of waiting until a service is no longer loaded.
pub open spec fn await_unloaded_steps(target: Seq<char>, start: u64, tape: Tape) -> Step<()> {
    let mark = tape;
    service_loaded_steps(target, tape).and_then(|loaded: bool, tape: Tape|
    if !loaded {
        done((), tape)
    } else {
        ask_instant(tape).and_then(|now: u64, tape: Tape|
        ensured(before_deadline(start, 5000, now), "service did not unload"@, tape).and_then(|_u: (), tape: Tape|
        slept(50, tape).and_then(|_u: (), tape: Tape|
        again(Ask::Run(launchctl("print"@, target)), mark.read, tape))))
    })
}

fn await_unloaded(session: &mut Session, target: &str, start: u64) -> (out: Result<(), Halt>)
    ensures
        follows(out, *final(session), await_unloaded_steps(target@, start, old(session)@)),
{
    let mark = session.read;
    if !service_loaded(session, target)? {
        return Ok(());
    }
    let now = session.now()?;
    ensure(is_before_deadline(start, 5000, now), "service did not unload")?;
    session.sleep(50)?;
    session.again(Request::Run(launchctl_command("print", target)), mark)
}

/// The agent that runs the VM in the background as long as the run marker
/// exists, and under no other condition.
pub open spec fn service_agent(app: AppView) -> AgentPlistView {
    AgentPlistView {
        label: app.paths.service_label,
        program_arguments: seq![app.paths.command_link, "internal-run"@],
        home: app.paths.home,
        search_path: app.paths.runtime + "/bin:/usr/bin:/bin:/usr/sbin:/sbin"@,
        keep_alive: KeepAliveView::while_exists(app.paths.run_marker),
        limit_load_to_session_type: "Background"@,
        process_type: "Background"@,
        throttle_interval: 10,
        standard_out_path: join(app.paths.logs, "vm.log"@),
        standard_error_path: join(app.paths.logs, "vm.error.log"@),
    }
}

impl AppView {
    /// Puts the service definition in place and leaves the service unloaded.
    #[verifier::opaque]
    pub open spec fn install_service(self, tape: Tape) -> Step<()> {
        let target = self.paths.service_target(self.host);
        private_dir_steps(self.paths.state, tape).and_then(|_u: (), tape: Tape|
        private_dir_steps(self.paths.logs, tape).and_then(|_u: (), tape: Tape|
        private_dir_steps(self.paths.state, tape).and_then(|_u: (), tape: Tape|
        ask_done(Ask::StagePlist {
            directory: self.paths.state,
            plist: PlistView::Agent(service_agent(self)),
            mode: 0o644,
            durable: true,
        }, tape).and_then(|_u: (), tape: Tape|
        service_loaded_steps(target, tape).and_then(|loaded: bool, tape: Tape|
        (if loaded {
            success_steps(launchctl("bootout"@, target), "unload the service"@, tape).and_then(|_u: (), tape: Tape|
            ask_instant(tape).and_then(|start: u64, tape: Tape|
            await_unloaded_steps(target, start, tape)))
        } else {
            done((), tape)
        }).and_then(|_u: (), tape: Tape|
        remove_if_present_steps(self.paths.autoload_agent(), tape).and_then(|_u: (), tape: Tape|
        ask_done(Ask::PublishStaged(self.paths.service_plist), tape))))))))
    }

    /// Loads the service unless it is loaded.
    #[verifier::opaque]
    pub open spec fn bootstrap(self, tape: Tape) -> Step<()> {
        service_loaded_steps(self.paths.service_target(self.host), tape).and_then(|loaded: bool, tape: Tape|
        if loaded {
            done((), tape)
        } else {
            success_steps(
                launchctl("bootstrap"@, self.host.user_domain()).arg(self.paths.service_plist),
                "load the service"@,
                tape,
            )
        })
    }

    #[verifier::opaque]
    pub open spec fn start_service(self, tape: Tape) -> Step<()> {
        self.bootstrap(tape).and_then(|_u: (), tape: Tape|
        success_steps(
            launchctl("kickstart"@, self.paths.service_target(self.host)),
            "start the service"@,
            tape,
        ))
    }

    #[verifier::opaque]
    pub open spec fn unload_service(self, tape: Tape) -> Step<()> {
        unload_steps(self.paths.service_target(self.host), "unload the service"@, tape)
    }
}

impl<'a> App<'a> {
    fn service_agent(&self) -> (plist: AgentPlist)
        ensures
            plist@ == service_agent(self@),
    {
        AgentPlist {
            label: self.paths.service_label.clone(),
            program_arguments: two(self.paths.command_link.as_str(), "internal-run"),
            home: self.paths.home.clone(),
            search_path: self.paths.runtime.clone().concat("/bin:/usr/bin:/bin:/usr/sbin:/sbin"),
            keep_alive: KeepAlive::while_exists(self.paths.run_marker.as_str()),
            limit_load_to_session_type: "Background".to_owned(),
            process_type: "Background".to_owned(),
            throttle_interval: 10,
            standard_out_path: joined(self.paths.logs.as_str(), "vm.log"),
            standard_error_path: joined(self.paths.logs.as_str(), "vm.error.log"),
        }
    }

    pub fn install_service(&self, session: &mut Session) -> (out: Result<(), Halt>)
        ensures
            follows(out, *final(session), self@.install_service(old(session)@)),
    {
        proof {
            reveal(AppView::install_service);
        }
        private_dir(session, self.paths.state.as_str())?;
        private_dir(session, self.paths.logs.as_str())?;
        private_dir(session, self.paths.state.as_str())?;
        session.done(
            Request::StagePlist {
                directory: self.paths.state.clone(),
                plist: Plist::Agent(self.service_agent()),
                mode: 0o644,
                durable: true,
            },
        )?;
        let target = self.paths.service_target(self.host);
        if service_loaded(session, target.as_str())? {
            success(session, launchctl_command("bootout", target.as_str()), "unload the service")?;
            let start = session.now()?;
            await_unloaded(session, target.as_str(), start)?;
        }
        remove_if_present(session, self.paths.autoload_agent().as_str())?;
        session.done(Request::PublishStaged(self.paths.service_plist.clone()))
    }

    pub fn bootstrap(&self, session: &mut Session) -> (out: Result<(), Halt>)
        ensures
            follows(out, *final(session), self@.bootstrap(old(session)@)),
    {
        proof {
            reveal(AppView::bootstrap);
        }
        if !service_loaded(session, self.paths.service_target(self.host).as_str())? {
            success(
                session,
                launchctl_command("bootstrap", self.host.user_domain().as_str()).arg(
                    self.paths.service_plist.as_str(),
                ),
                "load the service",
            )?;
        }
        Ok(())
    }

    pub fn start_service(&self, session: &mut Session) -> (out: Result<(), Halt>)
        ensures
            follows(out, *final(session), self@.start_service(old(session)@)),
    {
        proof {
            reveal(AppView::start_service);
        }
        self.bootstrap(session)?;
        success(
            session,
            launchctl_command("kickstart", self.paths.service_target(self.host).as_str()),
            "start the service",
        )
    }

    pub fn unload_service(&self, session: &mut Session) -> (out: Result<(), Halt>)
        ensures
            follows(out, *final(session), self@.unload_service(old(session)@)),
    {
        proof {
            reveal(AppView::unload_service);
        }
        unload(session, self.paths.service_target(self.host).as_str(), "unload the service")
    }
}

} // verus!
