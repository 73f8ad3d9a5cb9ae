//! The VM, as Tart sees it.

use crate::app::{App, AppView};
use crate::command::{Command, CommandView};
use crate::config::{Storage, StorageView};
use crate::error::{Error, Messages};
use crate::facts::{VmInfo, VmState};
use crate::files::{is_executable, is_executable_steps, remove_if_present, remove_if_present_steps};
use crate::process::{checked, checked_steps, success, success_steps};
use crate::session::{
    ask_flag, asked, attempt, done, ensure, ensured, failed, follows, no_answer, no_answer_to,
    printed, refusal, refused, with_context, Ask, Halt, HaltView, Reply, Request, Session, Step,
    Tape,
};
use crate::text::{decimal, decimal_of, lines, lines_of, same, texts};
use crate::volume::{StorageAccess, VolumeKind};
use vstd::prelude::*;

verus! {

/// Whether a list of VMs names one.
pub open spec fn listed(listing: Seq<char>, name: Seq<char>) -> bool {
    lines(listing).contains(name)
}

fn is_listed(listing: &str, name: &str) -> (yes: bool)
    ensures
        yes == listed(listing@, name@),
{
    let names = lines_of(listing);
    let mut at: usize = 0;
    while at < names.len()
        invariant
            at <= names@.len(),
            texts(names@) == lines(listing@),
            forall|before: int| 0 <= before < at ==> lines(listing@)[before] != name@,
        decreases names@.len() - at,
    {
        assert(lines(listing@)[at as int] == names@[at as int]@);
        if same(names[at].as_str(), name) {
            return true;
        }
        at = at + 1;
    }
    assert(lines(listing@).len() == at);
    false
}

/// What Tart said of a VM.
pub open spec fn decoded_vm_steps(text: Seq<char>, tape: Tape) -> Step<VmInfo> {
    asked(Ask::DecodeVm(text), tape).and_then(|reply: Reply, tape: Tape|
    match reply {
        Reply::Vm(vm) => done(vm, tape),
        _ => no_answer(reply, tape),
    })
}

fn decoded_vm<'s>(session: &mut Session<'s>, text: String) -> (out: Result<&'s VmInfo, Halt>)
    ensures
        follows(out, *final(session), decoded_vm_steps(text@, old(session)@)),
{
    match session.ask(Request::DecodeVm(text))? {
        Reply::Vm(vm) => Ok(vm),
        reply => Err(no_answer_to(reply)),
    }
}

/// The command that names the VMs.
pub open spec fn list_command(tart: CommandView) -> CommandView {
    tart.arg("list"@).option("--source"@, "local"@).arg("--quiet"@)
}

impl AppView {
    /// The command that describes the VM.
    pub open spec fn get_command(self, tart: CommandView) -> CommandView {
        tart.arg("get"@).arg(self.config.vm_name).option("--format"@, "json"@)
    }

    /// The command that waits so many seconds for the address of the VM.
    pub open spec fn ip_command(self, tart: CommandView, wait: u32) -> CommandView {
        tart.arg("ip"@).arg(self.config.vm_name).option("--wait"@, decimal(wait as nat)).option(
            "--resolver"@,
            "arp"@,
        )
    }

    /// The command that stops the VM.
    pub open spec fn stop_command(self, tart: CommandView) -> CommandView {
        tart.arg("stop"@).arg(self.config.vm_name).option("--timeout"@, "30"@)
    }

    /// The command that deletes the VM.
    pub open spec fn delete_command(self, tart: CommandView) -> CommandView {
        tart.arg("delete"@).arg(self.config.vm_name)
    }

    /// A command that works on the storage of the VM. It gets the directory as
    /// `TART_HOME`, or no `TART_HOME` at all.
    pub open spec fn on_storage(self, command: CommandView) -> CommandView {
        match self.config.storage {
            StorageView::Default => command.env_remove("TART_HOME"@),
            StorageView::Directory { path } => command.env("TART_HOME"@, path),
            StorageView::PlainVolume(volume) | StorageView::EncryptedVolume(volume) => command.env(
                "TART_HOME"@,
                volume.path,
            ),
        }
    }

    /// A command that works on the storage of the VM, once that is available.
    #[verifier::opaque]
    pub open spec fn configure_tart_storage(self, command: CommandView, tape: Tape) -> Step<
        CommandView,
    > {
        self.ensure_storage(StorageAccess::Background, tape).and_then(|_u: (), tape: Tape|
        done(self.on_storage(command), tape))
    }

    /// Tart, with the storage of the VM.
    #[verifier::opaque]
    pub open spec fn tart(self, tape: Tape) -> Step<CommandView> {
        is_executable_steps(self.paths.bin("tart"@), tape).and_then(|executable: bool, tape: Tape|
        ensured(executable, "Tart is not installed"@, tape).and_then(|_u: (), tape: Tape|
        self.configure_tart_storage(CommandView::new(self.paths.bin("tart"@)), tape)))
    }

    #[verifier::opaque]
    pub open spec fn vm_exists(self, tape: Tape) -> Step<bool> {
        self.tart(tape).and_then(|tart: CommandView, tape: Tape|
        checked_steps(list_command(tart), "run Tart"@, tape).and_then(|listing: Seq<char>, tape: Tape|
        done(listed(listing, self.config.vm_name), tape)))
    }

    #[verifier::opaque]
    pub open spec fn vm_info(self, tape: Tape) -> Step<VmInfo> {
        self.tart(tape).and_then(|tart: CommandView, tape: Tape|
        checked_steps(self.get_command(tart), "run Tart"@, tape).and_then(|text: Seq<char>, tape: Tape|
        decoded_vm_steps(text, tape).context("Tart returned malformed VM information"@)))
    }

    /// The address of the VM, for which Tart waits so many seconds.
    #[verifier::opaque]
    pub open spec fn vm_ip(self, wait: u32, tape: Tape) -> Step<Seq<char>> {
        self.tart(tape).and_then(|tart: CommandView, tape: Tape|
        checked_steps(self.ip_command(tart, wait), "run Tart"@, tape))
    }

    /// Goes on only where the VM is what the settings say.
    #[verifier::opaque]
    pub open spec fn verify_config(self, tape: Tape) -> Step<()> {
        self.vm_info(tape).and_then(|vm: VmInfo, tape: Tape|
        ensured(
            vm.cpu == self.config.cpu_count,
            "VM CPU count differs from configuration"@,
            tape,
        ).and_then(|_u: (), tape: Tape|
        ensured(
            vm.memory == self.config.memory_gb * 1024,
            "VM memory differs from configuration"@,
            tape,
        ).and_then(|_u: (), tape: Tape|
        ensured(
            vm.disk == self.config.disk_gb,
            "VM disk differs from configuration"@,
            tape,
        ).and_then(|_u: (), tape: Tape|
        ensured(vm.os@ == "darwin"@, "VM operating system is not macOS"@, tape)))))
    }

    /// Deletes the VM, if there is one.
    #[verifier::opaque]
    pub open spec fn delete_vm(self, tape: Tape) -> Step<()> {
        self.vm_exists(tape).and_then(|exists: bool, tape: Tape|
        if !exists {
            done((), tape)
        } else {
            self.tart(tape).and_then(|tart: CommandView, tape: Tape|
            success_steps(self.delete_command(tart), "delete the VM"@, tape).and_then(|_u: (), tape: Tape|
            self.vm_exists(tape).and_then(|exists: bool, tape: Tape|
            ensured(!exists, "Tart did not delete the VM"@, tape))))
        })
    }

    /// Stops and deletes the VM of an installation that was not completed.
    #[verifier::opaque]
    pub open spec fn delete_partial_vm(self, tape: Tape) -> Step<()> {
        self.vm_info(tape).and_then(|vm: VmInfo, tape: Tape|
        (if vm.state == VmState::Stopped {
            done((), tape)
        } else {
            self.tart(tape).and_then(|tart: CommandView, tape: Tape|
            success_steps(self.stop_command(tart), "stop the incomplete VM"@, tape))
        }).and_then(|_u: (), tape: Tape|
        self.delete_vm(tape)))
    }

    /// Whether the storage of the VM is there, without making it so.
    #[verifier::opaque]
    pub open spec fn storage_mounted(self, tape: Tape) -> Step<bool> {
        match self.config.storage {
            StorageView::Default => done(true, tape),
            StorageView::Directory { path } => ask_flag(Ask::IsDirectory(path), tape),
            StorageView::PlainVolume(volume) => ask_flag(Ask::IsDirectory(volume.path), tape).and_then(|directory: bool, tape: Tape|
            if directory {
                self.volume_mounted(volume, VolumeKind::Plain, tape)
            } else {
                done(false, tape)
            }),
            StorageView::EncryptedVolume(volume) => ask_flag(Ask::IsDirectory(volume.path), tape).and_then(|directory: bool, tape: Tape|
            if directory {
                self.volume_mounted(volume, VolumeKind::Encrypted, tape)
            } else {
                done(false, tape)
            }),
        }
    }

    /// Whether Tart and the VM are there.
    #[verifier::opaque]
    pub open spec fn manageable(self, tape: Tape) -> Step<bool> {
        self.storage_mounted(tape).and_then(|mounted: bool, tape: Tape|
        is_executable_steps(self.paths.bin("tart"@), tape).and_then(|executable: bool, tape: Tape|
        if executable && mounted {
            self.vm_exists(tape)
        } else {
            done(false, tape)
        }))
    }

    /// Asks a VM that is not stopped to stop, and keeps the error where Tart
    /// cannot do that.
    #[verifier::opaque]
    pub open spec fn request_stop(self, tape: Tape) -> Step<Result<(), Messages>> {
        self.vm_info(tape).and_then(|vm: VmInfo, tape: Tape|
        if vm.state == VmState::Stopped {
            done(Ok(()), tape)
        } else {
            self.tart(tape).and_then(|tart: CommandView, tape: Tape|
            success_steps(self.stop_command(tart), "stop the VM"@, tape).attempt())
        })
    }

    /// Goes on only where the VM is stopped.
    pub open spec fn confirm_stopped(self, stopped: Result<(), Messages>, tape: Tape) -> Step<()> {
        self.vm_info(tape).and_then(|vm: VmInfo, tape: Tape|
        match (vm.state, stopped) {
            (VmState::Stopped, _) => done((), tape),
            (_, Err(messages)) => failed(messages, tape),
            (_, Ok(())) => refused("the VM did not stop"@, tape),
        })
    }

    /// Stops the VM, unloads its service, and goes on only where the VM is
    /// stopped or cannot be there.
    #[verifier::opaque]
    pub open spec fn stop_tart(self, tape: Tape) -> Step<()> {
        self.manageable(tape).and_then(|manageable: bool, tape: Tape|
        if !manageable {
            self.unload_service(tape)
        } else {
            self.request_stop(tape).and_then(|stopped: Result<(), Messages>, tape: Tape|
            self.unload_service(tape).and_then(|_u: (), tape: Tape|
            self.confirm_stopped(stopped, tape)))
        })
    }

    /// Stops the VM for good: without the run marker nothing starts it again.
    #[verifier::opaque]
    pub open spec fn stop_vm(self, tape: Tape) -> Step<()> {
        self.clear_keychain_helper(tape).and_then(|_u: (), tape: Tape|
        remove_if_present_steps(self.paths.run_marker, tape).and_then(|_u: (), tape: Tape|
        self.stop_tart(tape)))
    }

    #[verifier::opaque]
    pub open spec fn stop(self, tape: Tape) -> Step<()> {
        self.stop_vm(tape).and_then(|_u: (), tape: Tape|
        printed("stopped"@, tape))
    }
}

impl<'a> App<'a> {
    pub fn configure_tart_storage(&self, session: &mut Session, command: Command) -> (out: Result<
        Command,
        Halt,
    >)
        ensures
            follows(
                out,
                *final(session),
                self@.configure_tart_storage(command@, old(session)@),
            ),
    {
        proof {
            reveal(AppView::configure_tart_storage);
        }
        self.ensure_storage(session, StorageAccess::Background)?;
        Ok(
            match &self.config.storage {
                Storage::Default => command.env_remove("TART_HOME"),
                Storage::Directory { path } => command.env("TART_HOME", path.as_str()),
                Storage::PlainVolume(volume) => command.env("TART_HOME", volume.path.as_str()),
                Storage::EncryptedVolume(volume) => command.env("TART_HOME", volume.path.as_str()),
            },
        )
    }

    pub fn tart(&self, session: &mut Session) -> (out: Result<Command, Halt>)
        ensures
            follows(out, *final(session), self@.tart(old(session)@)),
    {
        proof {
            reveal(AppView::tart);
        }
        let program = self.paths.bin("tart");
        let executable = is_executable(session, program.as_str())?;
        ensure(executable, "Tart is not installed")?;
        self.configure_tart_storage(session, Command::new(program.as_str()))
    }

    pub fn vm_exists(&self, session: &mut Session) -> (out: Result<bool, Halt>)
        ensures
            follows(out, *final(session), self@.vm_exists(old(session)@)),
    {
        proof {
            reveal(AppView::vm_exists);
        }
        let tart = self.tart(session)?;
        let listing = checked(
            session,
            tart.arg("list").option("--source", "local").arg("--quiet"),
            "run Tart",
        )?;
        Ok(is_listed(listing.as_str(), self.config.vm_name.as_str()))
    }

    pub fn vm_info<'s>(&self, session: &mut Session<'s>) -> (out: Result<&'s VmInfo, Halt>)
        ensures
            follows(out, *final(session), self@.vm_info(old(session)@)),
    {
        proof {
            reveal(AppView::vm_info);
        }
        let tart = self.tart(session)?;
        let text = checked(
            session,
            tart.arg("get").arg(self.config.vm_name.as_str()).option("--format", "json"),
            "run Tart",
        )?;
        with_context(decoded_vm(session, text), "Tart returned malformed VM information")
    }

    pub fn vm_ip(&self, session: &mut Session, wait: u32) -> (out: Result<String, Halt>)
        ensures
            follows(out, *final(session), self@.vm_ip(wait, old(session)@)),
    {
        proof {
            reveal(AppView::vm_ip);
        }
        let tart = self.tart(session)?;
        checked(
            session,
            tart.arg("ip").arg(self.config.vm_name.as_str()).option(
                "--wait",
                decimal_of(wait as u64).as_str(),
            ).option("--resolver", "arp"),
            "run Tart",
        )
    }

    pub fn verify_config(&self, session: &mut Session) -> (out: Result<(), Halt>)
        ensures
            follows(out, *final(session), self@.verify_config(old(session)@)),
    {
        proof {
            reveal(AppView::verify_config);
        }
        let vm = self.vm_info(session)?;
        ensure(vm.cpu == self.config.cpu_count, "VM CPU count differs from configuration")?;
        ensure(
            vm.memory == self.config.memory_gb as u64 * 1024,
            "VM memory differs from configuration",
        )?;
        ensure(vm.disk == self.config.disk_gb, "VM disk differs from configuration")?;
        ensure(same(vm.os.as_str(), "darwin"), "VM operating system is not macOS")
    }

    fn stop_command(&self, tart: Command) -> (command: Command)
        ensures
            command@ == self@.stop_command(tart@),
    {
        tart.arg("stop").arg(self.config.vm_name.as_str()).option("--timeout", "30")
    }

    pub fn delete_vm(&self, session: &mut Session) -> (out: Result<(), Halt>)
        ensures
            follows(out, *final(session), self@.delete_vm(old(session)@)),
    {
        proof {
            reveal(AppView::delete_vm);
        }
        if !self.vm_exists(session)? {
            return Ok(());
        }
        let tart = self.tart(session)?;
        success(session, tart.arg("delete").arg(self.config.vm_name.as_str()), "delete the VM")?;
        let exists = self.vm_exists(session)?;
        ensure(!exists, "Tart did not delete the VM")
    }

    pub fn delete_partial_vm(&self, session: &mut Session) -> (out: Result<(), Halt>)
        ensures
            follows(out, *final(session), self@.delete_partial_vm(old(session)@)),
    {
        proof {
            reveal(AppView::delete_partial_vm);
        }
        match self.vm_info(session)?.state {
            VmState::Running | VmState::Suspended => {
                let tart = self.tart(session)?;
                success(session, self.stop_command(tart), "stop the incomplete VM")?;
            },
            VmState::Stopped => {},
        }
        self.delete_vm(session)
    }

    fn storage_mounted(&self, session: &mut Session) -> (out: Result<bool, Halt>)
        ensures
            follows(out, *final(session), self@.storage_mounted(old(session)@)),
    {
        proof {
            reveal(AppView::storage_mounted);
        }
        match &self.config.storage {
            Storage::Default => Ok(true),
            Storage::Directory { path } => session.flag(Request::IsDirectory(path.clone())),
            Storage::PlainVolume(volume) => {
                if session.flag(Request::IsDirectory(volume.path.clone()))? {
                    self.volume_mounted(session, volume, VolumeKind::Plain)
                } else {
                    Ok(false)
                }
            },
            Storage::EncryptedVolume(volume) => {
                if session.flag(Request::IsDirectory(volume.path.clone()))? {
                    self.volume_mounted(session, volume, VolumeKind::Encrypted)
                } else {
                    Ok(false)
                }
            },
        }
    }

    fn manageable(&self, session: &mut Session) -> (out: Result<bool, Halt>)
        ensures
            follows(out, *final(session), self@.manageable(old(session)@)),
    {
        proof {
            reveal(AppView::manageable);
        }
        let mounted = self.storage_mounted(session)?;
        let executable = is_executable(session, self.paths.bin("tart").as_str())?;
        if executable && mounted {
            self.vm_exists(session)
        } else {
            Ok(false)
        }
    }

    fn request_stop(&self, session: &mut Session) -> (out: Result<Result<(), Error>, Halt>)
        ensures
            final(session)@ == self@.request_stop(old(session)@).tape,
            match out {
                Ok(Ok(())) => self@.request_stop(old(session)@).out == Ok::<
                    Result<(), Messages>,
                    HaltView,
                >(Ok(())),
                Ok(Err(error)) => self@.request_stop(old(session)@).out == Ok::<
                    Result<(), Messages>,
                    HaltView,
                >(Err(error@)),
                Err(halt) => self@.request_stop(old(session)@).out == Err::<
                    Result<(), Messages>,
                    HaltView,
                >(halt@),
            },
    {
        proof {
            reveal(AppView::request_stop);
        }
        match self.vm_info(session)?.state {
            VmState::Running | VmState::Suspended => {
                let tart = self.tart(session)?;
                attempt(success(session, self.stop_command(tart), "stop the VM"))
            },
            VmState::Stopped => Ok(Ok(())),
        }
    }

    pub fn stop_tart(&self, session: &mut Session) -> (out: Result<(), Halt>)
        ensures
            follows(out, *final(session), self@.stop_tart(old(session)@)),
    {
        proof {
            reveal(AppView::stop_tart);
        }
        if !self.manageable(session)? {
            return self.unload_service(session);
        }
        let stopped = self.request_stop(session)?;
        self.unload_service(session)?;
        match self.vm_info(session)?.state {
            VmState::Stopped => Ok(()),
            VmState::Running | VmState::Suspended => match stopped {
                Err(error) => Err(Halt::Failed(error)),
                Ok(()) => Err(refusal("the VM did not stop")),
            },
        }
    }

    pub fn stop_vm(&self, session: &mut Session) -> (out: Result<(), Halt>)
        ensures
            follows(out, *final(session), self@.stop_vm(old(session)@)),
    {
        proof {
            reveal(AppView::stop_vm);
        }
        self.clear_keychain_helper(session)?;
        remove_if_present(session, self.paths.run_marker.as_str())?;
        self.stop_tart(session)
    }

    pub fn stop(&self, session: &mut Session) -> (out: Result<(), Halt>)
        ensures
            follows(out, *final(session), self@.stop(old(session)@)),
    {
        proof {
            reveal(AppView::stop);
        }
        self.stop_vm(session)?;
        session.print("stopped")
    }
}

} // verus!
