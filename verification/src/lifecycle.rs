//! Starting, watching and removing a VM.

use crate::app::{App, AppView};
use crate::command::{Command, CommandView};
use crate::error::Messages;
use crate::facts::{LinkKind, VmInfo, VmState};
use crate::files::{
    leads_to, leads_to_steps, remove_if_present, remove_if_present_steps, touch, touch_steps,
};
use crate::host::optional;
use crate::machine::{validate_bridge, validate_bridge_steps, BRIDGE};
use crate::path::{join, joined};
use crate::remote::{exec, exec_steps};
use crate::service::{service_loaded, service_loaded_steps};
use crate::session::{
    ask_flag, asked, attempt, done, ensure, ensured, follows, printed, Ask, Halt, HaltView, Reply,
    Request, Session, Step, Tape,
};
use crate::text::{decimal, decimal_of};
use crate::unlock::KeychainMode;
use crate::volume::StorageAccess;
use vstd::prelude::*;

verus! {

/// The word for the state of a VM. One that is not running while its service is
/// supposed to run it is about to start.
pub open spec fn state_word(
    provisioned: bool,
    state: VmState,
    addressed: bool,
    supervised: bool,
) -> Seq<char> {
    if !provisioned {
        "incomplete"@
    } else {
        match state {
            VmState::Running => if addressed {
                "running"@
            } else {
                "running-address-unknown"@
            },
            VmState::Suspended => if supervised {
                "starting"@
            } else {
                "suspended"@
            },
            VmState::Stopped => if supervised {
                "starting"@
            } else {
                "stopped"@
            },
        }
    }
}

fn word_for_state(provisioned: bool, state: VmState, addressed: bool, supervised: bool) -> (word:
    &'static str)
    ensures
        word@ == state_word(provisioned, state, addressed, supervised),
{
    if !provisioned {
        return "incomplete";
    }
    match (state, addressed, supervised) {
        (VmState::Running, true, _) => "running",
        (VmState::Running, false, _) => "running-address-unknown",
        (VmState::Suspended, _, true) => "starting",
        (VmState::Suspended, _, false) => "suspended",
        (VmState::Stopped, _, true) => "starting",
        (VmState::Stopped, _, false) => "stopped",
    }
}

impl AppView {
    /// Goes on only where the VM can be started.
    #[verifier::opaque]
    pub open spec fn preflight_start(self, tape: Tape) -> Step<()> {
        ask_flag(Ask::IsFile(self.paths.service_plist), tape).and_then(|installed: bool, tape: Tape|
        ensured(
            installed,
            "run '"@ + self.paths.install_hint() + "' first"@,
            tape,
        ).and_then(|_u: (), tape: Tape|
        self.ensure_keychain(KeychainMode::Current, tape).and_then(|_u: (), tape: Tape|
        self.ensure_keychain(KeychainMode::BackgroundInteractive, tape).and_then(|_u: (), tape: Tape|
        self.ensure_storage(StorageAccess::Interactive, tape).and_then(|_u: (), tape: Tape|
        self.vm_exists(tape).and_then(|exists: bool, tape: Tape|
        ensured(
            exists,
            "VM does not exist; rerun '"@ + self.paths.install_hint() + "'"@,
            tape,
        ).and_then(|_u: (), tape: Tape|
        ask_flag(Ask::Exists(self.paths.provisioned), tape).and_then(|provisioned: bool, tape: Tape|
        ensured(
            provisioned,
            "VM installation is incomplete; rerun '"@ + self.paths.install_hint() + "'"@,
            tape,
        ).and_then(|_u: (), tape: Tape|
        self.verify_config(tape).and_then(|_u: (), tape: Tape|
        validate_bridge_steps(tape)))))))))))
    }

    /// Has the service run the VM and waits until SSH is ready.
    #[verifier::opaque]
    pub open spec fn start_ready(self, tape: Tape) -> Step<()> {
        touch_steps(self.paths.state, self.paths.run_marker, tape).and_then(|_u: (), tape: Tape|
        self.start_service(tape).and_then(|_u: (), tape: Tape|
        self.wait_for_ssh(300, tape).and_then(|ip: Seq<char>, tape: Tape|
        printed("running: "@ + self.config.guest_user + "@"@ + ip, tape))))
    }

    #[verifier::opaque]
    pub open spec fn start(self, tape: Tape) -> Step<()> {
        self.preflight_start(tape).and_then(|_u: (), tape: Tape|
        self.start_ready(tape))
    }

    #[verifier::opaque]
    pub open spec fn restart(self, tape: Tape) -> Step<()> {
        self.preflight_start(tape).and_then(|_u: (), tape: Tape|
        self.stop(tape).and_then(|_u: (), tape: Tape|
        self.start_ready(tape)))
    }

    /// The address of a running VM, if Tart knows it.
    #[verifier::opaque]
    pub open spec fn known_ip(self, state: VmState, tape: Tape) -> Step<Option<Seq<char>>> {
        if state == VmState::Running {
            self.vm_ip(0, tape).attempt().and_then(|ip: Result<Seq<char>, Messages>, tape: Tape|
            done(
                match ip {
                    Ok(ip) => Some(ip),
                    Err(_) => None,
                },
                tape,
            ))
        } else {
            done(None, tape)
        }
    }

    /// Whether the service is supposed to run the VM.
    #[verifier::opaque]
    pub open spec fn supervised(self, tape: Tape) -> Step<bool> {
        ask_flag(Ask::Exists(self.paths.run_marker), tape).and_then(|marked: bool, tape: Tape|
        if marked {
            service_loaded_steps(self.paths.service_target(self.host), tape)
        } else {
            done(false, tape)
        })
    }

    pub open spec fn report_ip(self, ip: Option<Seq<char>>, tape: Tape) -> Step<()> {
        match ip {
            Some(ip) => printed("ip: "@ + ip, tape),
            None => done((), tape),
        }
    }

    pub open spec fn report_vm(self, vm: VmInfo, tape: Tape) -> Step<()> {
        printed("name: "@ + self.config.vm_name, tape).and_then(|_u: (), tape: Tape|
        printed("cpu: "@ + decimal(vm.cpu as nat), tape).and_then(|_u: (), tape: Tape|
        printed("memory-gb: "@ + decimal((vm.memory / 1024) as nat), tape).and_then(|_u: (), tape: Tape|
        printed("disk-gb: "@ + decimal(vm.disk as nat), tape).and_then(|_u: (), tape: Tape|
        printed("network: bridged:"@ + BRIDGE@, tape)))))
    }

    /// Reports on the VM.
    #[verifier::opaque]
    pub open spec fn status(self, tape: Tape) -> Step<()> {
        self.vm_exists(tape).and_then(|exists: bool, tape: Tape|
        if !exists {
            printed("state: incomplete"@, tape)
        } else {
            self.vm_info(tape).and_then(|vm: VmInfo, tape: Tape|
            self.known_ip(vm.state, tape).and_then(|ip: Option<Seq<char>>, tape: Tape|
            self.supervised(tape).and_then(|supervised: bool, tape: Tape|
            ask_flag(Ask::Exists(self.paths.provisioned), tape).and_then(|provisioned: bool, tape: Tape|
            printed(
                "state: "@ + state_word(provisioned, vm.state, ip is Some, supervised),
                tape,
            ).and_then(|_u: (), tape: Tape|
            self.report_ip(ip, tape).and_then(|_u: (), tape: Tape|
            self.report_vm(vm, tape)))))))
        })
    }

    /// Shows the logs of the service.
    #[verifier::opaque]
    pub open spec fn logs(self, follow: bool, tape: Tape) -> Step<()> {
        let tail = CommandView::new("/usr/bin/tail"@).option("-n"@, "200"@);
        exec_steps(
            (if follow { tail.arg("-F"@) } else { tail }).arg(
                join(self.paths.logs, "vm.log"@),
            ).arg(join(self.paths.logs, "vm.error.log"@)),
            "tail"@,
            tape,
        )
    }

    /// Removes the command of the VM, if it leads to the runtime.
    #[verifier::opaque]
    pub open spec fn remove_command(self, tape: Tape) -> Step<()> {
        asked(Ask::LinkKind(self.paths.command_link), tape).and_then(|reply: Reply, tape: Tape|
        if reply == Reply::Link(LinkKind::Symlink) {
            leads_to_steps(
                Ask::ReadLink(self.paths.command_link),
                self.paths.bin("gremvm"@),
                tape,
            ).and_then(|same: bool, tape: Tape|
            if same {
                remove_if_present_steps(self.paths.command_link, tape)
            } else {
                done((), tape)
            })
        } else {
            done((), tape)
        })
    }

    /// Deletes the VM and removes its service and runtime. The settings, the
    /// credentials and the logs stay.
    #[verifier::opaque]
    pub open spec fn uninstall(self, tape: Tape) -> Step<()> {
        self.ensure_storage(StorageAccess::Interactive, tape).and_then(|_u: (), tape: Tape|
        self.stop_vm(tape).and_then(|_u: (), tape: Tape|
        self.delete_vm(tape).and_then(|_u: (), tape: Tape|
        remove_if_present_steps(self.paths.service_plist, tape).and_then(|_u: (), tape: Tape|
        remove_if_present_steps(self.paths.autoload_agent(), tape).and_then(|_u: (), tape: Tape|
        self.remove_command(tape).and_then(|_u: (), tape: Tape|
        remove_if_present_steps(self.paths.runtime, tape).and_then(|_u: (), tape: Tape|
        printed("uninstalled: "@ + self.config.vm_name, tape))))))))
    }

    /// The arguments with which Tart runs the VM in the background.
    pub open spec fn background_command(self, tart: CommandView) -> CommandView {
        tart.arg("run"@).arg("--no-graphics"@).arg("--suspendable"@).arg(
            "--net-bridged="@ + BRIDGE@,
        ).arg(self.config.vm_name)
    }

    /// What the service does: it becomes Tart, which runs the VM, as long as the
    /// VM is meant to run and complete.
    #[verifier::opaque]
    pub open spec fn internal_run(self, tape: Tape) -> Step<()> {
        ask_flag(Ask::Exists(self.paths.run_marker), tape).and_then(|marked: bool, tape: Tape|
        (if marked { ask_flag(Ask::Exists(self.paths.provisioned), tape) } else { done(false, tape) }).and_then(|wanted: bool, tape: Tape|
        if !wanted {
            done((), tape)
        } else {
            self.ensure_keychain(KeychainMode::Background, tape).and_then(|_u: (), tape: Tape|
            self.ensure_storage(StorageAccess::Background, tape).and_then(|_u: (), tape: Tape|
            self.vm_exists(tape).and_then(|exists: bool, tape: Tape|
            if !exists {
                done((), tape)
            } else {
                validate_bridge_steps(tape).and_then(|_u: (), tape: Tape|
                self.verify_config(tape).and_then(|_u: (), tape: Tape|
                self.tart(tape).and_then(|tart: CommandView, tape: Tape|
                exec_steps(self.background_command(tart), "Tart"@, tape))))
            })))
        }))
    }
}

impl<'a> App<'a> {
    pub fn preflight_start(&self, session: &mut Session) -> (out: Result<(), Halt>)
        ensures
            follows(out, *final(session), self@.preflight_start(old(session)@)),
    {
        proof {
            reveal(AppView::preflight_start);
        }
        let installed = session.flag(Request::IsFile(self.paths.service_plist.clone()))?;
        ensure(
            installed,
            "run '".to_owned().concat(self.paths.install_hint().as_str()).concat(
                "' first",
            ).as_str(),
        )?;
        self.ensure_keychain(session, KeychainMode::Current)?;
        self.ensure_keychain(session, KeychainMode::BackgroundInteractive)?;
        self.ensure_storage(session, StorageAccess::Interactive)?;
        let exists = self.vm_exists(session)?;
        ensure(
            exists,
            "VM does not exist; rerun '".to_owned().concat(
                self.paths.install_hint().as_str(),
            ).concat("'").as_str(),
        )?;
        let provisioned = session.flag(Request::Exists(self.paths.provisioned.clone()))?;
        ensure(
            provisioned,
            "VM installation is incomplete; rerun '".to_owned().concat(
                self.paths.install_hint().as_str(),
            ).concat("'").as_str(),
        )?;
        self.verify_config(session)?;
        validate_bridge(session)
    }

    pub fn start_ready(&self, session: &mut Session) -> (out: Result<(), Halt>)
        ensures
            follows(out, *final(session), self@.start_ready(old(session)@)),
    {
        proof {
            reveal(AppView::start_ready);
        }
        touch(session, self.paths.state.as_str(), self.paths.run_marker.as_str())?;
        self.start_service(session)?;
        let ip = self.wait_for_ssh(session, 300)?;
        session.print(
            "running: ".to_owned().concat(self.config.guest_user.as_str()).concat("@").concat(
                ip.as_str(),
            ).as_str(),
        )
    }

    pub fn start(&self, session: &mut Session) -> (out: Result<(), Halt>)
        ensures
            follows(out, *final(session), self@.start(old(session)@)),
    {
        proof {
            reveal(AppView::start);
        }
        self.preflight_start(session)?;
        self.start_ready(session)
    }

    pub fn restart(&self, session: &mut Session) -> (out: Result<(), Halt>)
        ensures
            follows(out, *final(session), self@.restart(old(session)@)),
    {
        proof {
            reveal(AppView::restart);
        }
        self.preflight_start(session)?;
        self.stop(session)?;
        self.start_ready(session)
    }

    fn known_ip(&self, session: &mut Session, state: VmState) -> (out: Result<Option<String>, Halt>)
        ensures
            final(session)@ == self@.known_ip(state, old(session)@).tape,
            match out {
                Ok(ip) => self@.known_ip(state, old(session)@).out == Ok::<
                    Option<Seq<char>>,
                    HaltView,
                >(optional(ip)),
                Err(halt) => self@.known_ip(state, old(session)@).out == Err::<
                    Option<Seq<char>>,
                    HaltView,
                >(halt@),
            },
    {
        proof {
            reveal(AppView::known_ip);
        }
        match state {
            VmState::Running => match attempt(self.vm_ip(session, 0))? {
                Ok(ip) => Ok(Some(ip)),
                Err(_) => Ok(None),
            },
            VmState::Suspended | VmState::Stopped => Ok(None),
        }
    }

    pub fn supervised(&self, session: &mut Session) -> (out: Result<bool, Halt>)
        ensures
            follows(out, *final(session), self@.supervised(old(session)@)),
    {
        proof {
            reveal(AppView::supervised);
        }
        if session.flag(Request::Exists(self.paths.run_marker.clone()))? {
            service_loaded(session, self.paths.service_target(self.host).as_str())
        } else {
            Ok(false)
        }
    }

    fn report_ip(&self, session: &mut Session, ip: &Option<String>) -> (out: Result<(), Halt>)
        ensures
            follows(out, *final(session), self@.report_ip(optional(*ip), old(session)@)),
    {
        match ip {
            Some(ip) => session.print("ip: ".to_owned().concat(ip.as_str()).as_str()),
            None => Ok(()),
        }
    }

    fn report_vm(&self, session: &mut Session, vm: &VmInfo) -> (out: Result<(), Halt>)
        ensures
            follows(out, *final(session), self@.report_vm(*vm, old(session)@)),
    {
        session.print("name: ".to_owned().concat(self.config.vm_name.as_str()).as_str())?;
        session.print("cpu: ".to_owned().concat(decimal_of(vm.cpu as u64).as_str()).as_str())?;
        session.print(
            "memory-gb: ".to_owned().concat(decimal_of(vm.memory / 1024).as_str()).as_str(),
        )?;
        session.print("disk-gb: ".to_owned().concat(decimal_of(vm.disk).as_str()).as_str())?;
        session.print("network: bridged:".to_owned().concat(BRIDGE).as_str())
    }

    pub fn status(&self, session: &mut Session) -> (out: Result<(), Halt>)
        ensures
            follows(out, *final(session), self@.status(old(session)@)),
    {
        proof {
            reveal(AppView::status);
        }
        if !self.vm_exists(session)? {
            return session.print("state: incomplete");
        }
        let vm = self.vm_info(session)?;
        let ip = self.known_ip(session, vm.state)?;
        let supervised = self.supervised(session)?;
        let provisioned = session.flag(Request::Exists(self.paths.provisioned.clone()))?;
        session.print(
            "state: ".to_owned().concat(
                word_for_state(provisioned, vm.state, ip.is_some(), supervised),
            ).as_str(),
        )?;
        self.report_ip(session, &ip)?;
        self.report_vm(session, vm)
    }

    pub fn logs(&self, session: &mut Session, follow: bool) -> (out: Result<(), Halt>)
        ensures
            follows(out, *final(session), self@.logs(follow, old(session)@)),
    {
        proof {
            reveal(AppView::logs);
        }
        let tail = Command::new("/usr/bin/tail").option("-n", "200");
        let tail = if follow {
            tail.arg("-F")
        } else {
            tail
        };
        exec(
            session,
            tail.arg(joined(self.paths.logs.as_str(), "vm.log").as_str()).arg(
                joined(self.paths.logs.as_str(), "vm.error.log").as_str(),
            ),
            "tail",
        )
    }

    fn remove_command(&self, session: &mut Session) -> (out: Result<(), Halt>)
        ensures
            follows(out, *final(session), self@.remove_command(old(session)@)),
    {
        proof {
            reveal(AppView::remove_command);
        }
        match session.ask(Request::LinkKind(self.paths.command_link.clone()))? {
            Reply::Link(LinkKind::Symlink) => {
                let same = leads_to(
                    session,
                    Request::ReadLink(self.paths.command_link.clone()),
                    self.paths.bin("gremvm").as_str(),
                )?;
                if same {
                    remove_if_present(session, self.paths.command_link.as_str())?;
                }
                Ok(())
            },
            _ => Ok(()),
        }
    }

    pub fn uninstall(&self, session: &mut Session) -> (out: Result<(), Halt>)
        ensures
            follows(out, *final(session), self@.uninstall(old(session)@)),
    {
        proof {
            reveal(AppView::uninstall);
        }
        self.ensure_storage(session, StorageAccess::Interactive)?;
        self.stop_vm(session)?;
        self.delete_vm(session)?;
        remove_if_present(session, self.paths.service_plist.as_str())?;
        remove_if_present(session, self.paths.autoload_agent().as_str())?;
        self.remove_command(session)?;
        remove_if_present(session, self.paths.runtime.as_str())?;
        session.print("uninstalled: ".to_owned().concat(self.config.vm_name.as_str()).as_str())
    }

    fn background_command(&self, tart: Command) -> (command: Command)
        ensures
            command@ == self@.background_command(tart@),
    {
        tart.arg("run").arg("--no-graphics").arg("--suspendable").arg(
            "--net-bridged=".to_owned().concat(BRIDGE).as_str(),
        ).arg(self.config.vm_name.as_str())
    }

    pub fn internal_run(&self, session: &mut Session) -> (out: Result<(), Halt>)
        ensures
            follows(out, *final(session), self@.internal_run(old(session)@)),
    {
        proof {
            reveal(AppView::internal_run);
        }
        let wanted = session.flag(Request::Exists(self.paths.run_marker.clone()))?
            && session.flag(Request::Exists(self.paths.provisioned.clone()))?;
        if !wanted {
            return Ok(());
        }
        self.ensure_keychain(session, KeychainMode::Background)?;
        self.ensure_storage(session, StorageAccess::Background)?;
        if !self.vm_exists(session)? {
            return Ok(());
        }
        validate_bridge(session)?;
        self.verify_config(session)?;
        let tart = self.tart(session)?;
        exec(session, self.background_command(tart), "Tart")
    }
}

} // verus!
