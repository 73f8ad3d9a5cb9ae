//! Installing a VM: the runtime, the command, the credentials and the VM itself.

use crate::app::{App, AppView};
use crate::command::{Command, CommandView, Input, InputView, Sink};
use crate::facts::{LinkKind, Output};
use crate::files::{
    leads_to, leads_to_steps, private_dir, private_dir_steps, remove_if_present,
    remove_if_present_steps, touch, touch_steps,
};
use crate::host::optional;
use crate::install_state::{classify, installation, VmInstallation};
use crate::password::{CredentialPolicy, PasswordChoice};
use crate::path::{is_same_place, join, joined, parent, parent_of, same_place};
use crate::process::{checked, checked_steps, success, success_steps};
use crate::session::{
    ask_done, ask_flag, ask_output, ask_text, asked, done, ensure, ensured, follows, no_answer,
    no_answer_to, printed, refusal, refused, with_context, Ask, Halt, Reply, Request, Session, Step,
    Tape,
};
use crate::text::{contains, decimal, decimal_of, pieces, split, texts, trim, trimmed};
use crate::unlock::KeychainMode;
use crate::volume::StorageAccess;
use vstd::prelude::*;

verus! {

// ------------------------------------------------------------------- runtime
/// The bundle that an executable belongs to: it lies in a directory of it.
pub open spec fn bundle_of(executable: Seq<char>) -> Option<Seq<char>> {
    match parent(executable) {
        Some(directory) => parent(directory),
        None => None,
    }
}

fn bundle_around(executable: &str) -> (bundle: Option<String>)
    ensures
        match bundle {
            Some(bundle) => bundle_of(executable@) == Some(bundle@),
            None => bundle_of(executable@) is None,
        },
{
    match parent_of(executable) {
        Some(directory) => parent_of(directory.as_str()),
        None => None,
    }
}

/// The bundle of the running executable.
pub open spec fn running_bundle_steps(tape: Tape) -> Step<Seq<char>> {
    ask_text(Ask::CurrentExecutable, tape).and_then(|running: Seq<char>, tape: Tape|
    ask_text(Ask::Canonicalize(running), tape).and_then(|executable: Seq<char>, tape: Tape|
    match bundle_of(executable) {
        Some(bundle) => done(bundle, tape),
        None => refused("cannot locate the packaged GremVM bundle"@, tape),
    }))
}

fn running_bundle(session: &mut Session) -> (out: Result<String, Halt>)
    ensures
        follows(out, *final(session), running_bundle_steps(old(session)@)),
{
    let running = session.text(Request::CurrentExecutable)?;
    let executable = session.text(Request::Canonicalize(running))?;
    match bundle_around(executable.as_str()) {
        Some(bundle) => Ok(bundle),
        None => Err(refusal("cannot locate the packaged GremVM bundle")),
    }
}

/// Goes on only where a file of the bundle is there.
pub open spec fn packaged_steps(bundle: Seq<char>, file: Seq<char>, tape: Tape) -> Step<()> {
    ask_flag(Ask::IsFile(join(bundle, file)), tape).and_then(|present: bool, tape: Tape|
    ensured(present, "packaged file is missing: "@ + file, tape))
}

fn packaged(session: &mut Session, bundle: &str, file: &str) -> (out: Result<(), Halt>)
    ensures
        follows(out, *final(session), packaged_steps(bundle@, file@, old(session)@)),
{
    let present = session.flag(Request::IsFile(joined(bundle, file)))?;
    ensure(present, "packaged file is missing: ".to_owned().concat(file).as_str())
}

/// Goes on only where the bundle is complete.
pub open spec fn complete_bundle_steps(bundle: Seq<char>, tape: Tape) -> Step<()> {
    packaged_steps(bundle, "bin/gremvm"@, tape).and_then(|_u: (), tape: Tape|
    packaged_steps(bundle, "bin/tart"@, tape).and_then(|_u: (), tape: Tape|
    packaged_steps(bundle, "bin/packer"@, tape).and_then(|_u: (), tape: Tape|
    packaged_steps(bundle, "share/gremvm/gremvm.pkr.hcl"@, tape).and_then(|_u: (), tape: Tape|
    packaged_steps(bundle, "share/gremvm/configure-guest.sh"@, tape).and_then(|_u: (), tape: Tape|
    packaged_steps(bundle, "share/gremvm/password.expect"@, tape).and_then(|_u: (), tape: Tape|
    packaged_steps(bundle, "libexec/gremvm/tailscaled"@, tape)))))))
}

fn complete_bundle(session: &mut Session, bundle: &str) -> (out: Result<(), Halt>)
    ensures
        follows(out, *final(session), complete_bundle_steps(bundle@, old(session)@)),
{
    packaged(session, bundle, "bin/gremvm")?;
    packaged(session, bundle, "bin/tart")?;
    packaged(session, bundle, "bin/packer")?;
    packaged(session, bundle, "share/gremvm/gremvm.pkr.hcl")?;
    packaged(session, bundle, "share/gremvm/configure-guest.sh")?;
    packaged(session, bundle, "share/gremvm/password.expect")?;
    packaged(session, bundle, "libexec/gremvm/tailscaled")
}

// ------------------------------------------------------------------- command
/// Whether a directory is among those of a search path.
pub open spec fn listed_in(search_path: Seq<char>, directory: Seq<char>) -> bool {
    exists|i: int|
        0 <= i < pieces(search_path, ':').len() && same_place(
            #[trigger] pieces(search_path, ':')[i],
            directory,
        )
}

fn is_listed_in(search_path: &str, directory: &str) -> (yes: bool)
    ensures
        yes == listed_in(search_path@, directory@),
{
    let entries = split(search_path, ':');
    let ghost all = pieces(search_path@, ':');
    let mut at: usize = 0;
    while at < entries.len()
        invariant
            at <= entries@.len() == all.len(),
            texts(entries@) == all,
            all == pieces(search_path@, ':'),
            forall|i: int| 0 <= i < at ==> !same_place(#[trigger] all[i], directory@),
        decreases entries@.len() - at,
    {
        assert(all[at as int] == entries@[at as int]@);
        if is_same_place(entries[at].as_str(), directory) {
            return true;
        }
        at = at + 1;
    }
    false
}

/// Whether the shell finds commands in a directory.
pub open spec fn searched(search_path: Option<Seq<char>>, directory: Seq<char>) -> bool {
    search_path is Some && listed_in(search_path->0, directory)
}

fn is_searched(search_path: &Option<String>, directory: &str) -> (yes: bool)
    ensures
        yes == searched(optional(*search_path), directory@),
{
    match search_path {
        None => false,
        Some(search_path) => is_listed_in(search_path.as_str(), directory),
    }
}

/// Puts a link in place. One that is there already must lead to the same target,
/// and nothing else is replaced.
pub open spec fn install_link_steps(target: Seq<char>, link: Seq<char>, tape: Tape) -> Step<()> {
    asked(Ask::LinkKind(link), tape).and_then(|reply: Reply, tape: Tape|
    match reply {
        Reply::Link(LinkKind::Symlink) => leads_to_steps(Ask::ReadLink(link), target, tape).and_then(|same: bool, tape: Tape|
        ensured(same, "refusing to replace command link: "@ + link, tape)),
        Reply::Link(LinkKind::Missing) => ask_done(Ask::CreateLink { target, link }, tape),
        Reply::Link(_) => refused("refusing to replace command path: "@ + link, tape),
        _ => no_answer(reply, tape),
    })
}

fn install_link(session: &mut Session, target: &str, link: &str) -> (out: Result<(), Halt>)
    ensures
        follows(out, *final(session), install_link_steps(target@, link@, old(session)@)),
{
    match session.ask(Request::LinkKind(link.to_owned()))? {
        Reply::Link(LinkKind::Symlink) => {
            let same = leads_to(session, Request::ReadLink(link.to_owned()), target)?;
            ensure(
                same,
                "refusing to replace command link: ".to_owned().concat(link).as_str(),
            )
        },
        Reply::Link(LinkKind::Missing) => session.done(
            Request::CreateLink { target: target.to_owned(), link: link.to_owned() },
        ),
        Reply::Link(_) => Err(
            refusal("refusing to replace command path: ".to_owned().concat(link).as_str()),
        ),
        reply => Err(no_answer_to(reply)),
    }
}

// ---------------------------------------------------------------------- plan
/// What an installation does to the VM.
#[derive(Clone, Copy, Debug, PartialEq, Eq, Structural)]
pub enum InstallPlan {
    Create,
    Update,
}

impl View for InstallPlan {
    type V = InstallPlan;

    open spec fn view(&self) -> InstallPlan {
        *self
    }
}

/// Only a VM that is created gets new credentials.
pub open spec fn policy_of(plan: InstallPlan) -> CredentialPolicy {
    match plan {
        InstallPlan::Create => CredentialPolicy::CreateIfMissing,
        InstallPlan::Update => CredentialPolicy::Existing,
    }
}

impl AppView {
    /// The command that keeps a bundle and links the runtime to it.
    pub open spec fn realise_command(self, bundle: Seq<char>) -> CommandView {
        CommandView::new("nix-store"@).arg("--realise"@).arg(bundle).option(
            "--add-root"@,
            self.paths.runtime,
        ).arg("--indirect"@)
    }

    /// Makes the bundle of the running executable the runtime of the VM.
    #[verifier::opaque]
    pub open spec fn install_runtime(self, tape: Tape) -> Step<()> {
        private_dir_steps(self.paths.root, tape).and_then(|_u: (), tape: Tape|
        asked(Ask::LinkKind(self.paths.runtime), tape).and_then(|reply: Reply, tape: Tape|
        ensured(
            reply != Reply::Link(LinkKind::Directory),
            "refusing to replace runtime directory: "@ + self.paths.runtime,
            tape,
        ).and_then(|_u: (), tape: Tape|
        running_bundle_steps(tape).and_then(|bundle: Seq<char>, tape: Tape|
        complete_bundle_steps(bundle, tape).and_then(|_u: (), tape: Tape|
        checked_steps(
            self.realise_command(bundle),
            "register the Nix runtime GC root"@,
            tape,
        ).and_then(|_text: Seq<char>, tape: Tape|
        leads_to_steps(Ask::Canonicalize(self.paths.runtime), bundle, tape).and_then(|same: bool, tape: Tape|
        ensured(same, "Nix registered an unexpected runtime"@, tape))))))))
    }

    /// Puts the command of the VM where the user's shell finds it.
    #[verifier::opaque]
    pub open spec fn install_command(self, tape: Tape) -> Step<()> {
        ensured(
            searched(self.host.search_path, self.paths.command_directory),
            self.paths.command_directory + " must be in PATH"@,
            tape,
        ).and_then(|_u: (), tape: Tape|
        private_dir_steps(self.paths.command_directory, tape).and_then(|_u: (), tape: Tape|
        install_link_steps(self.paths.bin("gremvm"@), self.paths.command_link, tape)))
    }

    /// What is to be done. An incomplete VM is removed; one that was not created
    /// here is left alone.
    #[verifier::opaque]
    pub open spec fn install_plan(self, tape: Tape) -> Step<InstallPlan> {
        self.vm_exists(tape).and_then(|exists: bool, tape: Tape|
        ask_flag(Ask::Exists(self.paths.provisioned), tape).and_then(|provisioned: bool, tape: Tape|
        ask_flag(Ask::Exists(self.paths.installing), tape).and_then(|installing: bool, tape: Tape|
        match installation(exists, provisioned, installing) {
            VmInstallation::Absent => done(InstallPlan::Create, tape),
            VmInstallation::Partial => printed("removing incomplete VM before retrying..."@, tape).and_then(|_u: (), tape: Tape|
            self.delete_partial_vm(tape).and_then(|_u: (), tape: Tape|
            done(InstallPlan::Create, tape))),
            VmInstallation::Ready => self.verify_config(tape).and_then(|_u: (), tape: Tape|
            remove_if_present_steps(self.paths.installing, tape).and_then(|_u: (), tape: Tape|
            done(InstallPlan::Update, tape))),
            VmInstallation::Unmanaged => refused(
                "a VM named '"@ + self.config.vm_name
                    + "' exists but was not created by GremVM; rename or remove it before rerunning '"@
                    + self.paths.install_hint() + "'"@,
                tape,
            ),
        })))
    }

    /// The command that makes the key pair.
    pub open spec fn keygen_command(self) -> CommandView {
        CommandView::new("/usr/bin/ssh-keygen"@).arg("-q"@).option("-t"@, "ed25519"@).option(
            "-N"@,
            ""@,
        ).option("-C"@, "gremvm@"@ + self.config.vm_name).option("-f"@, self.paths.ssh_key)
    }

    /// Makes sure that both halves of the SSH key are there. A missing key is
    /// created for a new VM alone.
    #[verifier::opaque]
    pub open spec fn install_ssh_key(self, policy: CredentialPolicy, tape: Tape) -> Step<()> {
        let key = self.paths.ssh_key;
        let public = self.paths.public_key();
        private_dir_steps(self.paths.config_dir, tape).and_then(|_u: (), tape: Tape|
        ask_flag(Ask::Exists(key), tape).and_then(|exists: bool, tape: Tape|
        (if exists { done(true, tape) } else { ask_flag(Ask::Exists(public), tape) }).and_then(|exists: bool, tape: Tape|
        (match (exists, policy) {
            (true, _) => done((), tape),
            (false, CredentialPolicy::Existing) => refused(
                "the SSH key is missing and cannot be regenerated for an existing VM"@,
                tape,
            ),
            (false, CredentialPolicy::CreateIfMissing) => success_steps(
                self.keygen_command(),
                "generate the SSH key"@,
                tape,
            ),
        }).and_then(|_u: (), tape: Tape|
        ask_flag(Ask::IsFile(key), tape).and_then(|file: bool, tape: Tape|
        (if file { ask_flag(Ask::IsFile(public), tape) } else { done(false, tape) }).and_then(|complete: bool, tape: Tape|
        ensured(complete, "SSH key is incomplete"@, tape).and_then(|_u: (), tape: Tape|
        ask_done(Ask::SetMode { path: key, mode: 0o600 }, tape).and_then(|_u: (), tape: Tape|
        ask_done(Ask::SetMode { path: public, mode: 0o644 }, tape))))))))
        )
    }

    /// The command that builds the VM, on the storage that it was given. The
    /// password is in its environment and not among its arguments.
    pub open spec fn packer_command(
        self,
        packer: CommandView,
        key: Seq<char>,
        password: Seq<char>,
    ) -> CommandView {
        packer.current_dir(join(self.paths.state, "packer"@)).env(
            "PATH"@,
            join(self.paths.runtime, "bin"@) + ":/usr/bin:/bin:/usr/sbin:/sbin"@,
        ).env("PACKER_PLUGIN_PATH"@, join(self.paths.runtime, "libexec/packer/plugins"@)).env(
            "PACKER_NO_COLOR"@,
            "1"@,
        ).env("CHECKPOINT_DISABLE"@, "1"@).env("PKR_VAR_vm_name"@, self.config.vm_name).env(
            "PKR_VAR_guest_user"@,
            self.config.guest_user,
        ).env("PKR_VAR_cpu_count"@, decimal(self.config.cpu_count as nat)).env(
            "PKR_VAR_memory_gb"@,
            decimal(self.config.memory_gb as nat),
        ).env("PKR_VAR_disk_size_gb"@, decimal(self.config.disk_gb as nat)).env(
            "PKR_VAR_ssh_public_key"@,
            key,
        ).env("PKR_VAR_guest_password"@, password).arg("build"@).arg("-color=false"@).arg(
            join(self.paths.runtime, "share/gremvm/gremvm.pkr.hcl"@),
        ).input(InputView::Inherited).streams(Sink::Inherited)
    }

    /// Has Packer build the VM. A colon would split the runtime in the search
    /// path of Packer.
    #[verifier::opaque]
    pub open spec fn packer(self, key: Seq<char>, password: Seq<char>, tape: Tape) -> Step<()> {
        let plugin = join(self.paths.runtime, "libexec/packer/plugins"@);
        private_dir_steps(join(self.paths.state, "packer"@), tape).and_then(|_u: (), tape: Tape|
        ask_flag(Ask::IsDirectory(join(plugin, "github.com/cirruslabs/tart"@)), tape).and_then(|present: bool, tape: Tape|
        ensured(present, "Packer plugin is missing"@, tape).and_then(|_u: (), tape: Tape|
        self.configure_tart_storage(CommandView::new(self.paths.bin("packer"@)), tape).and_then(|packer: CommandView, tape: Tape|
        ensured(
            !join(self.paths.runtime, "bin"@).contains(':'),
            "path segment contains separator `:`"@,
            tape,
        ).and_then(|_u: (), tape: Tape|
        ask_output(Ask::Run(self.packer_command(packer, key, password)), tape).context(
            "cannot run Packer"@,
        ).and_then(|output: Output, tape: Tape|
        ensured(output.succeeded(), "Packer failed"@, tape)))))))
    }

    #[verifier::opaque]
    pub open spec fn build_vm(self, tape: Tape) -> Step<()> {
        ask_text(Ask::ReadText(self.paths.public_key()), tape).and_then(|key: Seq<char>, tape: Tape|
        self.guest_password(tape).and_then(|password: Seq<char>, tape: Tape|
        printed(
            "creating "@ + self.config.vm_name + " from the pinned macOS image..."@,
            tape,
        ).and_then(|_u: (), tape: Tape|
        self.packer(trimmed(key), password, tape))))
    }

    /// Creates the VM. The markers tell an interrupted creation from a completed
    /// one.
    #[verifier::opaque]
    pub open spec fn create_vm(self, tape: Tape) -> Step<()> {
        remove_if_present_steps(self.paths.provisioned, tape).and_then(|_u: (), tape: Tape|
        touch_steps(self.paths.state, self.paths.installing, tape).and_then(|_u: (), tape: Tape|
        self.build_vm(tape).and_then(|_u: (), tape: Tape|
        self.vm_exists(tape).and_then(|exists: bool, tape: Tape|
        ensured(exists, "Packer completed without creating the VM"@, tape).and_then(|_u: (), tape: Tape|
        self.verify_config(tape).and_then(|_u: (), tape: Tape|
        touch_steps(self.paths.state, self.paths.provisioned, tape).and_then(|_u: (), tape: Tape|
        remove_if_present_steps(self.paths.installing, tape))))))))
    }

    /// What comes before the VM: the host is fit, and the runtime and the command
    /// are in place.
    #[verifier::opaque]
    pub open spec fn install_tools(self, tape: Tape) -> Step<()> {
        self.clear_keychain_helper(tape).and_then(|_u: (), tape: Tape|
        self.config.check_existing(self.paths, tape).and_then(|_u: (), tape: Tape|
        self.ensure_keychain(KeychainMode::Current, tape).and_then(|_u: (), tape: Tape|
        self.ensure_storage(StorageAccess::Interactive, tape).and_then(|_u: (), tape: Tape|
        self.validate_host(tape).and_then(|_u: (), tape: Tape|
        self.install_runtime(tape).and_then(|_u: (), tape: Tape|
        self.install_command(tape)))))))
    }

    /// The credentials, the settings and the service of the VM.
    #[verifier::opaque]
    pub open spec fn install_state(
        self,
        policy: CredentialPolicy,
        choice: PasswordChoice,
        tape: Tape,
    ) -> Step<()> {
        self.install_ssh_key(policy, tape).and_then(|_u: (), tape: Tape|
        self.prepare_guest_password(policy, choice, tape).and_then(|_u: (), tape: Tape|
        self.config.persist(self.paths, tape).and_then(|_u: (), tape: Tape|
        remove_if_present_steps(self.paths.run_marker, tape).and_then(|_u: (), tape: Tape|
        self.install_service(tape)))))
    }

    pub open spec fn report_installed(self, tape: Tape) -> Step<()> {
        printed("installed: "@ + self.paths.command_link, tape).and_then(|_u: (), tape: Tape|
        printed("VM: "@ + self.config.vm_name + " (stopped)"@, tape).and_then(|_u: (), tape: Tape|
        printed("next: "@ + self.paths.command_name() + " start"@, tape)))
    }

    /// Installs or updates a VM, and leaves it stopped.
    #[verifier::opaque]
    pub open spec fn install(self, choice: PasswordChoice, tape: Tape) -> Step<()> {
        self.install_tools(tape).and_then(|_u: (), tape: Tape|
        self.install_plan(tape).and_then(|plan: InstallPlan, tape: Tape|
        self.install_state(policy_of(plan), choice, tape).and_then(|_u: (), tape: Tape|
        (match plan {
            InstallPlan::Create => self.create_vm(tape),
            InstallPlan::Update => done((), tape),
        }).and_then(|_u: (), tape: Tape|
        self.stop_tart(tape).and_then(|_u: (), tape: Tape|
        self.report_installed(tape))))))
    }
}

impl<'a> App<'a> {
    pub fn install_runtime(&self, session: &mut Session) -> (out: Result<(), Halt>)
        ensures
            follows(out, *final(session), self@.install_runtime(old(session)@)),
    {
        proof {
            reveal(AppView::install_runtime);
        }
        private_dir(session, self.paths.root.as_str())?;
        match session.ask(Request::LinkKind(self.paths.runtime.clone()))? {
            Reply::Link(LinkKind::Directory) => {
                return Err(
                    refusal(
                        "refusing to replace runtime directory: ".to_owned().concat(
                            self.paths.runtime.as_str(),
                        ).as_str(),
                    ),
                );
            },
            _ => {},
        }
        let bundle = running_bundle(session)?;
        complete_bundle(session, bundle.as_str())?;
        checked(
            session,
            Command::new("nix-store").arg("--realise").arg(bundle.as_str()).option(
                "--add-root",
                self.paths.runtime.as_str(),
            ).arg("--indirect"),
            "register the Nix runtime GC root",
        )?;
        let same = leads_to(
            session,
            Request::Canonicalize(self.paths.runtime.clone()),
            bundle.as_str(),
        )?;
        ensure(same, "Nix registered an unexpected runtime")
    }

    pub fn install_command(&self, session: &mut Session) -> (out: Result<(), Halt>)
        ensures
            follows(out, *final(session), self@.install_command(old(session)@)),
    {
        proof {
            reveal(AppView::install_command);
        }
        let directory = self.paths.command_directory.as_str();
        ensure(
            is_searched(&self.host.search_path, directory),
            directory.to_owned().concat(" must be in PATH").as_str(),
        )?;
        private_dir(session, directory)?;
        install_link(
            session,
            self.paths.bin("gremvm").as_str(),
            self.paths.command_link.as_str(),
        )
    }

    pub fn install_plan(&self, session: &mut Session) -> (out: Result<InstallPlan, Halt>)
        ensures
            follows(out, *final(session), self@.install_plan(old(session)@)),
    {
        proof {
            reveal(AppView::install_plan);
        }
        let exists = self.vm_exists(session)?;
        let provisioned = session.flag(Request::Exists(self.paths.provisioned.clone()))?;
        let installing = session.flag(Request::Exists(self.paths.installing.clone()))?;
        match classify(exists, provisioned, installing) {
            VmInstallation::Absent => Ok(InstallPlan::Create),
            VmInstallation::Partial => {
                session.print("removing incomplete VM before retrying...")?;
                self.delete_partial_vm(session)?;
                Ok(InstallPlan::Create)
            },
            VmInstallation::Ready => {
                self.verify_config(session)?;
                remove_if_present(session, self.paths.installing.as_str())?;
                Ok(InstallPlan::Update)
            },
            VmInstallation::Unmanaged => Err(
                refusal(
                    "a VM named '".to_owned().concat(self.config.vm_name.as_str()).concat(
                        "' exists but was not created by GremVM; rename or remove it before rerunning '",
                    ).concat(self.paths.install_hint().as_str()).concat("'").as_str(),
                ),
            ),
        }
    }

    fn keygen_command(&self) -> (command: Command)
        ensures
            command@ == self@.keygen_command(),
    {
        Command::new("/usr/bin/ssh-keygen").arg("-q").option("-t", "ed25519").option(
            "-N",
            "",
        ).option(
            "-C",
            "gremvm@".to_owned().concat(self.config.vm_name.as_str()).as_str(),
        ).option("-f", self.paths.ssh_key.as_str())
    }

    pub fn install_ssh_key(&self, session: &mut Session, policy: CredentialPolicy) -> (out: Result<
        (),
        Halt,
    >)
        ensures
            follows(out, *final(session), self@.install_ssh_key(policy, old(session)@)),
    {
        proof {
            reveal(AppView::install_ssh_key);
        }
        private_dir(session, self.paths.config_dir.as_str())?;
        let public = self.paths.public_key();
        let exists = session.flag(Request::Exists(self.paths.ssh_key.clone()))?
            || session.flag(Request::Exists(public.clone()))?;
        if !exists {
            match policy {
                CredentialPolicy::Existing => {
                    return Err(
                        refusal(
                            "the SSH key is missing and cannot be regenerated for an existing VM",
                        ),
                    );
                },
                CredentialPolicy::CreateIfMissing => {
                    success(session, self.keygen_command(), "generate the SSH key")?;
                },
            }
        }
        let complete = session.flag(Request::IsFile(self.paths.ssh_key.clone()))?
            && session.flag(Request::IsFile(public.clone()))?;
        ensure(complete, "SSH key is incomplete")?;
        session.done(Request::SetMode { path: self.paths.ssh_key.clone(), mode: 0o600 })?;
        session.done(Request::SetMode { path: public, mode: 0o644 })
    }

    fn packer_command(&self, packer: Command, key: &str, password: &str) -> (command: Command)
        ensures
            command@ == self@.packer_command(packer@, key@, password@),
    {
        let path = joined(self.paths.runtime.as_str(), "bin").concat(
            ":/usr/bin:/bin:/usr/sbin:/sbin",
        );
        packer.current_dir(joined(self.paths.state.as_str(), "packer").as_str()).env(
            "PATH",
            path.as_str(),
        ).env(
            "PACKER_PLUGIN_PATH",
            joined(self.paths.runtime.as_str(), "libexec/packer/plugins").as_str(),
        ).env("PACKER_NO_COLOR", "1").env("CHECKPOINT_DISABLE", "1").env(
            "PKR_VAR_vm_name",
            self.config.vm_name.as_str(),
        ).env("PKR_VAR_guest_user", self.config.guest_user.as_str()).env(
            "PKR_VAR_cpu_count",
            decimal_of(self.config.cpu_count as u64).as_str(),
        ).env("PKR_VAR_memory_gb", decimal_of(self.config.memory_gb as u64).as_str()).env(
            "PKR_VAR_disk_size_gb",
            decimal_of(self.config.disk_gb).as_str(),
        ).env("PKR_VAR_ssh_public_key", key).env("PKR_VAR_guest_password", password).arg(
            "build",
        ).arg("-color=false").arg(
            joined(self.paths.runtime.as_str(), "share/gremvm/gremvm.pkr.hcl").as_str(),
        ).input(Input::Inherited).streams(Sink::Inherited)
    }

    pub fn packer(&self, session: &mut Session, key: &str, password: &str) -> (out: Result<
        (),
        Halt,
    >)
        ensures
            follows(out, *final(session), self@.packer(key@, password@, old(session)@)),
    {
        proof {
            reveal(AppView::packer);
        }
        private_dir(session, joined(self.paths.state.as_str(), "packer").as_str())?;
        let plugin = joined(self.paths.runtime.as_str(), "libexec/packer/plugins");
        let present = session.flag(
            Request::IsDirectory(joined(plugin.as_str(), "github.com/cirruslabs/tart")),
        )?;
        ensure(present, "Packer plugin is missing")?;
        let packer = self.configure_tart_storage(
            session,
            Command::new(self.paths.bin("packer").as_str()),
        )?;
        ensure(
            !contains(joined(self.paths.runtime.as_str(), "bin").as_str(), ':'),
            "path segment contains separator `:`",
        )?;
        let output = with_context(
            session.output(Request::Run(self.packer_command(packer, key, password))),
            "cannot run Packer",
        )?;
        ensure(output.success(), "Packer failed")
    }

    pub fn build_vm(&self, session: &mut Session) -> (out: Result<(), Halt>)
        ensures
            follows(out, *final(session), self@.build_vm(old(session)@)),
    {
        proof {
            reveal(AppView::build_vm);
        }
        let key = session.text(Request::ReadText(self.paths.public_key()))?;
        let password = self.guest_password(session)?;
        session.print(
            "creating ".to_owned().concat(self.config.vm_name.as_str()).concat(
                " from the pinned macOS image...",
            ).as_str(),
        )?;
        self.packer(session, trim(key.as_str()).as_str(), password.as_str())
    }

    fn create_vm(&self, session: &mut Session) -> (out: Result<(), Halt>)
        ensures
            follows(out, *final(session), self@.create_vm(old(session)@)),
    {
        proof {
            reveal(AppView::create_vm);
        }
        let state = self.paths.state.as_str();
        remove_if_present(session, self.paths.provisioned.as_str())?;
        touch(session, state, self.paths.installing.as_str())?;
        self.build_vm(session)?;
        let exists = self.vm_exists(session)?;
        ensure(exists, "Packer completed without creating the VM")?;
        self.verify_config(session)?;
        touch(session, state, self.paths.provisioned.as_str())?;
        remove_if_present(session, self.paths.installing.as_str())
    }

    fn install_tools(&self, session: &mut Session) -> (out: Result<(), Halt>)
        ensures
            follows(out, *final(session), self@.install_tools(old(session)@)),
    {
        proof {
            reveal(AppView::install_tools);
        }
        self.clear_keychain_helper(session)?;
        self.config.check_existing(session, &self.paths)?;
        self.ensure_keychain(session, KeychainMode::Current)?;
        self.ensure_storage(session, StorageAccess::Interactive)?;
        self.validate_host(session)?;
        self.install_runtime(session)?;
        self.install_command(session)
    }

    fn install_state(
        &self,
        session: &mut Session,
        policy: CredentialPolicy,
        choice: PasswordChoice,
    ) -> (out: Result<(), Halt>)
        ensures
            follows(out, *final(session), self@.install_state(policy, choice, old(session)@)),
    {
        proof {
            reveal(AppView::install_state);
        }
        self.install_ssh_key(session, policy)?;
        self.prepare_guest_password(session, policy, choice)?;
        self.config.persist(session, &self.paths)?;
        remove_if_present(session, self.paths.run_marker.as_str())?;
        self.install_service(session)
    }

    fn report_installed(&self, session: &mut Session) -> (out: Result<(), Halt>)
        ensures
            follows(out, *final(session), self@.report_installed(old(session)@)),
    {
        session.print("installed: ".to_owned().concat(self.paths.command_link.as_str()).as_str())?;
        session.print(
            "VM: ".to_owned().concat(self.config.vm_name.as_str()).concat(" (stopped)").as_str(),
        )?;
        session.print(
            "next: ".to_owned().concat(self.paths.command_name()).concat(" start").as_str(),
        )
    }

    pub fn install(&self, session: &mut Session, choice: PasswordChoice) -> (out: Result<(), Halt>)
        ensures
            follows(out, *final(session), self@.install(choice, old(session)@)),
    {
        proof {
            reveal(AppView::install);
        }
        self.install_tools(session)?;
        let plan = self.install_plan(session)?;
        let policy = match plan {
            InstallPlan::Create => CredentialPolicy::CreateIfMissing,
            InstallPlan::Update => CredentialPolicy::Existing,
        };
        self.install_state(session, policy, choice)?;
        match plan {
            InstallPlan::Create => {
                self.create_vm(session)?;
            },
            InstallPlan::Update => {},
        }
        self.stop_tart(session)?;
        self.report_installed(session)
    }
}

} // verus!
