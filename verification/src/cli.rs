//! The commands: what the user can ask for, and what is done about it.

use crate::app::{App, AppView};
use crate::config::{Config, ConfigView};
use crate::files::{is_executable, is_executable_steps, private_dir, private_dir_steps};
use crate::host::{Host, HostView, Paths, PathsView};
use crate::options::{load_steps, InstallOptions, InstallOptionsView};
use crate::password::PasswordChoice;
use crate::path::{file_name, file_name_of, join, joined};
use crate::session::{
    ask_flag, done, ensure, ensured, follows, lift, lifted, printed, with_context, Ask, Halt,
    Request, Session, Step, Tape,
};
use crate::tailscale::TailscaleAction;
use crate::text::texts;
use crate::unlock::{internal_keychain, internal_keychain_steps, KeychainHelperMode};
use vstd::prelude::*;

verus! {

/// What the user asks of a VM.
#[derive(Debug)]
pub enum Action {
    /// Show the state of the VM.
    Status,
    /// Start the VM and wait for SSH.
    Start,
    /// Stop the VM and disable automatic restart.
    Stop,
    /// Stop and start the VM.
    Restart,
    /// Connect as the guest user, or run a command.
    Ssh { command: Vec<String> },
    /// Open the guest in Screen Sharing.
    ScreenShare,
    /// Open the recovery console.
    Console,
    /// Manage Tailscale inside the guest.
    Tailscale { action: TailscaleAction },
    /// Show the logs of the VM.
    Logs { follow: bool },
    /// Delete the VM and remove its service and runtime.
    Uninstall,
    /// Run the VM as the service does.
    InternalRun,
    /// Look at the Keychain, or unlock it, for another session.
    InternalKeychain { mode: KeychainHelperMode },
}

pub enum ActionView {
    Status,
    Start,
    Stop,
    Restart,
    Ssh { command: Seq<Seq<char>> },
    ScreenShare,
    Console,
    Tailscale { action: TailscaleAction },
    Logs { follow: bool },
    Uninstall,
    InternalRun,
    InternalKeychain { mode: KeychainHelperMode },
}

impl View for Action {
    type V = ActionView;

    open spec fn view(&self) -> ActionView {
        match self {
            Action::Status => ActionView::Status,
            Action::Start => ActionView::Start,
            Action::Stop => ActionView::Stop,
            Action::Restart => ActionView::Restart,
            Action::Ssh { command } => ActionView::Ssh { command: texts(command@) },
            Action::ScreenShare => ActionView::ScreenShare,
            Action::Console => ActionView::Console,
            Action::Tailscale { action } => ActionView::Tailscale { action: *action },
            Action::Logs { follow } => ActionView::Logs { follow: *follow },
            Action::Uninstall => ActionView::Uninstall,
            Action::InternalRun => ActionView::InternalRun,
            Action::InternalKeychain { mode } => ActionView::InternalKeychain { mode: *mode },
        }
    }
}

impl ActionView {
    /// The actions that change a VM. No two of them run at once on one VM.
    pub open spec fn manages(self) -> bool {
        match self {
            ActionView::Start
            | ActionView::Stop
            | ActionView::Restart
            | ActionView::Console
            | ActionView::Uninstall => true,
            ActionView::Tailscale { action } => action == TailscaleAction::Setup,
            _ => false,
        }
    }
}

impl Action {
    fn manages(&self) -> (yes: bool)
        ensures
            yes == self@.manages(),
    {
        match self {
            Action::Start
            | Action::Stop
            | Action::Restart
            | Action::Console
            | Action::Uninstall => true,
            Action::Tailscale { action } => match action {
                TailscaleAction::Setup => true,
                TailscaleAction::Status => false,
            },
            _ => false,
        }
    }
}

/// The name of a command: the last step of the path that it was called by.
pub open spec fn called_name(program: Option<Seq<char>>) -> Seq<char> {
    if program is Some && file_name(program->0) is Some {
        file_name(program->0)->0
    } else {
        "gremvm"@
    }
}

pub fn command_name(program: &Option<String>) -> (name: String)
    ensures
        name@ == called_name(crate::host::optional(*program)),
{
    match program {
        Some(program) => match file_name_of(program.as_str()) {
            Some(name) => name,
            None => "gremvm".to_owned(),
        },
        None => "gremvm".to_owned(),
    }
}

/// Where the lock of a VM is.
pub open spec fn lock_file(paths: PathsView) -> Seq<char> {
    join(paths.state, "management.lock"@)
}

/// Takes the lock of a VM, unless another command has it.
pub open spec fn management_lock_steps(paths: PathsView, tape: Tape) -> Step<()> {
    private_dir_steps(paths.state, tape).and_then(|_u: (), tape: Tape|
    ask_flag(Ask::Lock(lock_file(paths)), tape).and_then(|taken: bool, tape: Tape|
    ensured(
        taken,
        "another "@ + paths.command_name() + " management command is running"@,
        tape,
    )))
}

pub fn management_lock(session: &mut Session, paths: &Paths) -> (out: Result<(), Halt>)
    ensures
        follows(out, *final(session), management_lock_steps(paths@, old(session)@)),
{
    private_dir(session, paths.state.as_str())?;
    let taken = session.flag(Request::Lock(joined(paths.state.as_str(), "management.lock")))?;
    ensure(
        taken,
        "another ".to_owned().concat(paths.command_name()).concat(
            " management command is running",
        ).as_str(),
    )
}

impl AppView {
    pub open spec fn dispatch(self, action: ActionView, tape: Tape) -> Step<()> {
        match action {
            ActionView::Status => self.status(tape),
            ActionView::Start => self.start(tape),
            ActionView::Stop => self.stop(tape),
            ActionView::Restart => self.restart(tape),
            ActionView::Ssh { command } => self.ssh(command, tape),
            ActionView::ScreenShare => self.screen_share(tape),
            ActionView::Console => self.console(tape),
            ActionView::Tailscale { action } => self.tailscale(action, tape),
            ActionView::Logs { follow } => self.logs(follow, tape),
            ActionView::Uninstall => self.uninstall(tape),
            ActionView::InternalRun => self.internal_run(tape),
            ActionView::InternalKeychain { mode } => internal_keychain_steps(
                self.paths,
                mode,
                tape,
            ),
        }
    }
}

impl<'a> App<'a> {
    pub fn dispatch(&self, session: &mut Session, action: &Action) -> (out: Result<(), Halt>)
        ensures
            follows(out, *final(session), self@.dispatch(action@, old(session)@)),
    {
        match action {
            Action::Status => self.status(session),
            Action::Start => self.start(session),
            Action::Stop => self.stop(session),
            Action::Restart => self.restart(session),
            Action::Ssh { command } => self.ssh(session, command),
            Action::ScreenShare => self.screen_share(session),
            Action::Console => self.console(session),
            Action::Tailscale { action } => self.tailscale(session, *action),
            Action::Logs { follow } => self.logs(session, *follow),
            Action::Uninstall => self.uninstall(session),
            Action::InternalRun => self.internal_run(session),
            Action::InternalKeychain { mode } => internal_keychain(session, &self.paths, *mode),
        }
    }
}

/// An action on an installed VM, with the settings that were saved for it.
pub open spec fn managed_steps(
    host: HostView,
    paths: PathsView,
    action: ActionView,
    tape: Tape,
) -> Step<()> {
    ask_flag(Ask::IsFile(paths.config_file), tape).and_then(|saved: bool, tape: Tape|
    ensured(
        saved,
        "configuration is missing; run '"@ + paths.install_hint() + "'"@,
        tape,
    ).and_then(|_u: (), tape: Tape|
    load_steps(paths, tape).context("persisted configuration is invalid"@).and_then(|config: ConfigView, tape: Tape|
    AppView { host, paths, config }.dispatch(action, tape))))
}

fn managed(session: &mut Session, host: &Host, paths: Paths, action: &Action) -> (out: Result<
    (),
    Halt,
>)
    ensures
        follows(
            out,
            *final(session),
            managed_steps(host@, paths@, action@, old(session)@),
        ),
{
    let saved = session.flag(Request::IsFile(paths.config_file.clone()))?;
    ensure(
        saved,
        "configuration is missing; run '".to_owned().concat(
            paths.install_hint().as_str(),
        ).concat("'").as_str(),
    )?;
    let config = with_context(
        Config::load(session, &paths),
        "persisted configuration is invalid",
    )?;
    let app = App { host, paths, config };
    app.dispatch(session, action)
}

/// An action, under the lock of the VM where it needs that. What needs no
/// settings is done without them.
pub open spec fn acted_steps(
    host: HostView,
    paths: PathsView,
    action: ActionView,
    tape: Tape,
) -> Step<()> {
    (if action.manages() {
        management_lock_steps(paths, tape)
    } else {
        done((), tape)
    }).and_then(|_u: (), tape: Tape|
    match action {
        ActionView::InternalKeychain { mode } => internal_keychain_steps(paths, mode, tape),
        ActionView::Status => is_executable_steps(paths.bin("tart"@), tape).and_then(|installed: bool, tape: Tape|
        if installed {
            managed_steps(host, paths, action, tape)
        } else {
            printed("state: not-installed"@, tape)
        }),
        _ => managed_steps(host, paths, action, tape),
    })
}

fn acted(session: &mut Session, host: &Host, paths: Paths, action: &Action) -> (out: Result<
    (),
    Halt,
>)
    ensures
        follows(out, *final(session), acted_steps(host@, paths@, action@, old(session)@)),
{
    if action.manages() {
        management_lock(session, &paths)?;
    }
    match action {
        Action::InternalKeychain { mode } => internal_keychain(session, &paths, *mode),
        Action::Status => {
            if is_executable(session, paths.bin("tart").as_str())? {
                managed(session, host, paths, action)
            } else {
                session.print("state: not-installed")
            }
        },
        _ => managed(session, host, paths, action),
    }
}

/// What a command does that was called by a name.
pub open spec fn run_steps(
    host: HostView,
    name: Seq<char>,
    action: ActionView,
    tape: Tape,
) -> Step<()> {
    lifted(PathsView::discover(name, host), tape).and_then(|paths: PathsView, tape: Tape|
    acted_steps(host, paths, action, tape))
}

pub fn run(session: &mut Session, host: &Host, name: String, action: &Action) -> (out: Result<
    (),
    Halt,
>)
    ensures
        follows(
            out,
            *final(session),
            run_steps(host@, name@, action@, old(session)@),
        ),
{
    let paths = lift(Paths::discover(name, host))?;
    acted(session, host, paths, action)
}

/// What the installer does.
pub open spec fn run_installer_steps(
    host: HostView,
    options: InstallOptionsView,
    tape: Tape,
) -> Step<()> {
    lifted(PathsView::discover(options.name, host), tape).and_then(|paths: PathsView, tape: Tape|
    management_lock_steps(paths, tape).and_then(|_u: (), tape: Tape|
    options.resolve(paths, tape).and_then(|resolved: (ConfigView, PasswordChoice), tape: Tape|
    AppView { host, paths, config: resolved.0 }.install(resolved.1, tape))))
}

pub fn run_installer(session: &mut Session, host: &Host, options: &InstallOptions) -> (out: Result<
    (),
    Halt,
>)
    ensures
        follows(out, *final(session), run_installer_steps(host@, options@, old(session)@)),
{
    let paths = lift(Paths::discover(options.name.clone(), host))?;
    management_lock(session, &paths)?;
    let (config, choice) = options.resolve(session, &paths)?;
    let app = App { host, paths, config };
    app.install(session, choice)
}

} // verus!
