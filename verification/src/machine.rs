//! What the host must offer to a VM.

use crate::app::{App, AppView};
use crate::command::{Command, CommandView, Input, InputView, Sink};
use crate::facts::Output;
use crate::process::{checked, checked_steps};
use crate::session::{
    ask_output, done, ensure, ensured, failed, follows, refusal, with_context, Ask, Halt, Request,
    Session, Step, Tape,
};
use crate::text::{number, number_fault, number_of, same};
use vstd::prelude::*;

verus! {

/// The network interface that every VM is bridged to.
pub const BRIDGE: &'static str = "en0";

/// The command that reports a number of the kernel.
pub open spec fn sysctl_command(name: Seq<char>) -> CommandView {
    CommandView::new("/usr/sbin/sysctl"@).arg("-n"@).arg(name)
}

/// A number that the kernel reports.
pub open spec fn sysctl_steps(name: Seq<char>, tape: Tape) -> Step<u64> {
    checked_steps(sysctl_command(name), "run sysctl"@, tape).and_then(|text: Seq<char>, tape: Tape|
    match number(text) {
        Some(value) => done(value, tape),
        None => failed(seq!["sysctl returned a non-number"@, number_fault(text)], tape),
    })
}

pub fn sysctl(session: &mut Session, name: &str) -> (out: Result<u64, Halt>)
    ensures
        follows(out, *final(session), sysctl_steps(name@, old(session)@)),
{
    let text = checked(
        session,
        Command::new("/usr/sbin/sysctl").arg("-n").arg(name),
        "run sysctl",
    )?;
    match number_of(text.as_str()) {
        Ok(value) => Ok(value),
        Err(fault) => {
            assert(seq!["sysctl returned a non-number"@] + seq![fault@] =~= seq![
                "sysctl returned a non-number"@,
                fault@,
            ]);
            with_context(Err(refusal(fault)), "sysctl returned a non-number")
        },
    }
}

/// The command that looks for the interface that VMs are bridged to.
pub open spec fn bridge_command() -> CommandView {
    CommandView::new("/sbin/ifconfig"@).arg(BRIDGE@).input(InputView::Inherited).streams(
        Sink::Discarded,
    )
}

/// Goes on only where the interface that VMs are bridged to exists.
pub open spec fn validate_bridge_steps(tape: Tape) -> Step<()> {
    ask_output(Ask::Run(bridge_command()), tape).and_then(|output: Output, tape: Tape|
    ensured(
        output.succeeded(),
        "required bridged interface does not exist: "@ + BRIDGE@,
        tape,
    ))
}

pub fn validate_bridge(session: &mut Session) -> (out: Result<(), Halt>)
    ensures
        follows(out, *final(session), validate_bridge_steps(old(session)@)),
{
    let output = session.output(
        Request::Run(
            Command::new("/sbin/ifconfig").arg(BRIDGE).input(Input::Inherited).streams(
                Sink::Discarded,
            ),
        ),
    )?;
    ensure(
        output.success(),
        "required bridged interface does not exist: ".to_owned().concat(BRIDGE).as_str(),
    )
}

impl AppView {
    /// Goes on only where the host can run the VM.
    #[verifier::opaque]
    pub open spec fn validate_host(self, tape: Tape) -> Step<()> {
        ensured(
            self.host.architecture == "aarch64"@,
            "Tart requires Apple silicon"@,
            tape,
        ).and_then(|_u: (), tape: Tape|
        sysctl_steps("hw.logicalcpu"@, tape).and_then(|processors: u64, tape: Tape|
        ensured(
            self.config.cpu_count <= processors,
            "requested CPU count exceeds the host"@,
            tape,
        ).and_then(|_u: (), tape: Tape|
        sysctl_steps("hw.memsize"@, tape).and_then(|bytes: u64, tape: Tape|
        ensured(
            self.config.memory_gb * 1024 * 1024 * 1024 < bytes,
            "requested memory exceeds the host"@,
            tape,
        ).and_then(|_u: (), tape: Tape|
        validate_bridge_steps(tape))))))
    }
}

impl<'a> App<'a> {
    pub fn validate_host(&self, session: &mut Session) -> (out: Result<(), Halt>)
        ensures
            follows(out, *final(session), self@.validate_host(old(session)@)),
    {
        proof {
            reveal(AppView::validate_host);
        }
        ensure(
            same(self.host.architecture.as_str(), "aarch64"),
            "Tart requires Apple silicon",
        )?;
        let processors = sysctl(session, "hw.logicalcpu")?;
        ensure(
            self.config.cpu_count as u64 <= processors,
            "requested CPU count exceeds the host",
        )?;
        let bytes = sysctl(session, "hw.memsize")?;
        ensure(
            self.config.memory_gb as u64 * 1024 * 1024 * 1024 < bytes,
            "requested memory exceeds the host",
        )?;
        validate_bridge(session)
    }
}

} // verus!
