//! What each command can ask of the host, on whatever way the replies send it.
//!
//! Each predicate that ends in `_asks` says which requests those are, and the
//! proof that ends in `_bounded` shows it of a procedure.

use crate::agent::PlistView;
use crate::app::AppView;
use crate::cli::{acted_steps, lock_file, managed_steps, run_installer_steps, run_steps, ActionView};
use crate::command::{CommandView, InputView, Sink};
use crate::config::ConfigView;
use crate::footprint::{
    bounded, clear_asks, current_keychain_asks, directory_asks, group_footprint,
    guest_password_asks, helper_action_asks, keychain_asks, prepare_password_asks, service_asks,
    storage_asks, unload_asks, unlocked_asks,
};
use crate::host::{HostView, PathsView};
use crate::install::complete_bundle_steps;
use crate::machine::{bridge_command, sysctl_command};
use crate::options::InstallOptionsView;
use crate::password::{CredentialPolicy, PasswordChoice};
use crate::path::join;
use crate::remote::{
    console_info_command, ensure_console_session_steps, session_command, view_command,
};
use crate::service::{launchctl, service_agent};
use crate::session::{Ask, Tape};
use crate::tailscale::{install_script, upload_script, READY_SCRIPT, STATE_SCRIPT, TailscaleAction};
use crate::vm::list_command;
use crate::volume::{device_command, info_command};
use vstd::prelude::*;

verus! {

// ---------------------------------------------------------------------- Tart
impl AppView {
    /// Tart, on the storage of the VM.
    pub open spec fn tart_command(self) -> CommandView {
        self.on_storage(CommandView::new(self.paths.bin("tart"@)))
    }
}

/// Finding Tart and the storage.
pub open spec fn tart_asks(app: AppView, request: Ask) -> bool {
    ||| request == Ask::FileMode(app.paths.bin("tart"@))
    ||| storage_asks(app, request)
}

pub broadcast proof fn configure_tart_storage_bounded(
    app: AppView,
    command: CommandView,
    tape: Tape,
)
    requires
        tape.valid(),
    ensures
        bounded(
            #[trigger] app.configure_tart_storage(command, tape),
            tape,
            |request: Ask| storage_asks(app, request),
        ),
        app.configure_tart_storage(command, tape).out matches Ok(configured) ==> configured
            == app.on_storage(command),
{
    broadcast use group_footprint;

    reveal(AppView::configure_tart_storage);
}

pub broadcast proof fn tart_bounded(app: AppView, tape: Tape)
    requires
        tape.valid(),
    ensures
        bounded(
            #[trigger] app.tart(tape),
            tape,
            |request: Ask| tart_asks(app, request),
        ),
        app.tart(tape).out matches Ok(tart) ==> tart == app.tart_command(),
{
    broadcast use {group_footprint, configure_tart_storage_bounded};

    reveal(AppView::tart);
}

/// Looking at the VM.
pub open spec fn look_asks(app: AppView, request: Ask) -> bool {
    ||| tart_asks(app, request)
    ||| request == Ask::Run(list_command(app.tart_command()))
    ||| request == Ask::Run(app.get_command(app.tart_command()))
    ||| request is DecodeVm
    ||| exists|wait: u32| request == Ask::Run(#[trigger] app.ip_command(app.tart_command(), wait))
}

pub broadcast proof fn vm_exists_bounded(app: AppView, tape: Tape)
    requires
        tape.valid(),
    ensures
        bounded(
            #[trigger] app.vm_exists(tape),
            tape,
            |request: Ask| look_asks(app, request),
        ),
{
    broadcast use tart_bounded;

    reveal(AppView::vm_exists);
}

pub broadcast proof fn vm_info_bounded(app: AppView, tape: Tape)
    requires
        tape.valid(),
    ensures
        bounded(
            #[trigger] app.vm_info(tape),
            tape,
            |request: Ask| look_asks(app, request),
        ),
{
    broadcast use tart_bounded;

    reveal(AppView::vm_info);
}

pub broadcast proof fn vm_ip_bounded(app: AppView, wait: u32, tape: Tape)
    requires
        tape.valid(),
    ensures
        bounded(
            #[trigger] app.vm_ip(wait, tape),
            tape,
            |request: Ask| look_asks(app, request),
        ),
{
    broadcast use tart_bounded;

    reveal(AppView::vm_ip);
}

pub broadcast proof fn verify_config_bounded(app: AppView, tape: Tape)
    requires
        tape.valid(),
    ensures
        bounded(
            #[trigger] app.verify_config(tape),
            tape,
            |request: Ask| look_asks(app, request),
        ),
{
    broadcast use vm_info_bounded;

    reveal(AppView::verify_config);
}

/// Deleting the VM.
pub open spec fn delete_asks(app: AppView, request: Ask) -> bool {
    ||| look_asks(app, request)
    ||| request == Ask::Run(app.delete_command(app.tart_command()))
}

pub broadcast proof fn delete_vm_bounded(app: AppView, tape: Tape)
    requires
        tape.valid(),
    ensures
        bounded(
            #[trigger] app.delete_vm(tape),
            tape,
            |request: Ask| delete_asks(app, request),
        ),
{
    broadcast use {tart_bounded, vm_exists_bounded};

    reveal(AppView::delete_vm);
}

/// Stopping and deleting a VM whose installation was not completed.
pub open spec fn delete_partial_asks(app: AppView, request: Ask) -> bool {
    ||| delete_asks(app, request)
    ||| request == Ask::Run(app.stop_command(app.tart_command()))
}

pub broadcast proof fn delete_partial_vm_bounded(app: AppView, tape: Tape)
    requires
        tape.valid(),
    ensures
        bounded(
            #[trigger] app.delete_partial_vm(tape),
            tape,
            |request: Ask| delete_partial_asks(app, request),
        ),
{
    broadcast use {tart_bounded, vm_info_bounded, delete_vm_bounded};

    reveal(AppView::delete_partial_vm);
}

/// Stopping the VM and unloading its service.
pub open spec fn stop_tart_asks(app: AppView, request: Ask) -> bool {
    ||| look_asks(app, request)
    ||| request == Ask::Run(app.stop_command(app.tart_command()))
    ||| unload_asks(app.paths.service_target(app.host), request)
}

pub broadcast proof fn manageable_bounded(app: AppView, tape: Tape)
    requires
        tape.valid(),
    ensures
        bounded(
            #[trigger] app.manageable(tape),
            tape,
            |request: Ask| look_asks(app, request),
        ),
{
    broadcast use vm_exists_bounded;

    reveal(AppView::manageable);
    reveal(AppView::storage_mounted);
}

pub broadcast proof fn request_stop_bounded(app: AppView, tape: Tape)
    requires
        tape.valid(),
    ensures
        bounded(
            #[trigger] app.request_stop(tape),
            tape,
            |request: Ask| stop_tart_asks(app, request),
        ),
{
    broadcast use {tart_bounded, vm_info_bounded};

    reveal(AppView::request_stop);
}

pub broadcast proof fn stop_tart_bounded(app: AppView, tape: Tape)
    requires
        tape.valid(),
    ensures
        bounded(
            #[trigger] app.stop_tart(tape),
            tape,
            |request: Ask| stop_tart_asks(app, request),
        ),
{
    broadcast use {manageable_bounded, request_stop_bounded, vm_info_bounded};

    reveal(AppView::stop_tart);
    reveal(AppView::unload_service);
}

/// Stopping the VM for good.
pub open spec fn stop_asks(app: AppView, request: Ask) -> bool {
    ||| clear_asks(app, request)
    ||| request == Ask::RemoveFile(app.paths.run_marker)
    ||| stop_tart_asks(app, request)
}

pub broadcast proof fn stop_vm_bounded(app: AppView, tape: Tape)
    requires
        tape.valid(),
    ensures
        bounded(
            #[trigger] app.stop_vm(tape),
            tape,
            |request: Ask| stop_asks(app, request),
        ),
{
    broadcast use {group_footprint, stop_tart_bounded};

    reveal(AppView::stop_vm);
}

// ------------------------------------------------------------------- service
/// Putting the service definition in place.
pub open spec fn install_service_asks(app: AppView, request: Ask) -> bool {
    ||| directory_asks(app.paths.state, request)
    ||| directory_asks(app.paths.logs, request)
    ||| (request matches Ask::StagePlist { directory, plist, .. } && directory == app.paths.state
        && plist == PlistView::Agent(service_agent(app)))
    ||| unload_asks(app.paths.service_target(app.host), request)
    ||| request == Ask::Now
    ||| request is Sleep
    ||| request == Ask::RemoveFile(app.paths.autoload_agent())
    ||| request == Ask::PublishStaged(app.paths.service_plist)
}

pub broadcast proof fn install_service_bounded(app: AppView, tape: Tape)
    requires
        tape.valid(),
    ensures
        bounded(
            #[trigger] app.install_service(tape),
            tape,
            |request: Ask| install_service_asks(app, request),
        ),
{
    reveal(AppView::install_service);
}

/// Loading and starting the service.
pub open spec fn start_service_asks(app: AppView, request: Ask) -> bool {
    let target = app.paths.service_target(app.host);
    ||| service_asks(target, request)
    ||| request == Ask::Run(
        launchctl("bootstrap"@, app.host.user_domain()).arg(app.paths.service_plist),
    )
    ||| request == Ask::Run(launchctl("kickstart"@, target))
}

pub broadcast proof fn start_service_bounded(app: AppView, tape: Tape)
    requires
        tape.valid(),
    ensures
        bounded(
            #[trigger] app.start_service(tape),
            tape,
            |request: Ask| start_service_asks(app, request),
        ),
{
    reveal(AppView::start_service);
    reveal(AppView::bootstrap);
}

// -------------------------------------------------------------- installation
/// Looking at the host.
pub open spec fn host_asks(request: Ask) -> bool {
    ||| request == Ask::Run(sysctl_command("hw.logicalcpu"@))
    ||| request == Ask::Run(sysctl_command("hw.memsize"@))
    ||| request == Ask::Run(bridge_command())
}

pub broadcast proof fn validate_host_bounded(app: AppView, tape: Tape)
    requires
        tape.valid(),
    ensures
        bounded(
            #[trigger] app.validate_host(tape),
            tape,
            |request: Ask| host_asks(request),
        ),
{
    reveal(AppView::validate_host);
}

/// Making a bundle the runtime.
pub open spec fn runtime_asks(app: AppView, request: Ask) -> bool {
    ||| directory_asks(app.paths.root, request)
    ||| request == Ask::LinkKind(app.paths.runtime)
    ||| request == Ask::CurrentExecutable
    ||| request is Canonicalize
    ||| request is IsFile
    ||| exists|bundle: Seq<char>| request == Ask::Run(#[trigger] app.realise_command(bundle))
}

pub broadcast proof fn complete_bundle_bounded(bundle: Seq<char>, tape: Tape)
    requires
        tape.valid(),
    ensures
        bounded(
            #[trigger] complete_bundle_steps(bundle, tape),
            tape,
            |request: Ask| request is IsFile,
        ),
{
}

pub broadcast proof fn install_runtime_bounded(app: AppView, tape: Tape)
    requires
        tape.valid(),
    ensures
        bounded(
            #[trigger] app.install_runtime(tape),
            tape,
            |request: Ask| runtime_asks(app, request),
        ),
{
    broadcast use complete_bundle_bounded;

    reveal(AppView::install_runtime);
}

/// Putting the command in place.
pub open spec fn command_asks(app: AppView, request: Ask) -> bool {
    let link = app.paths.command_link;
    ||| directory_asks(app.paths.command_directory, request)
    ||| request == Ask::LinkKind(link)
    ||| request == Ask::ReadLink(link)
    ||| request == Ask::CreateLink { target: app.paths.bin("gremvm"@), link }
}

pub broadcast proof fn install_command_bounded(app: AppView, tape: Tape)
    requires
        tape.valid(),
    ensures
        bounded(
            #[trigger] app.install_command(tape),
            tape,
            |request: Ask| command_asks(app, request),
        ),
{
    reveal(AppView::install_command);
}

/// Reading the saved settings.
pub open spec fn settings_asks(paths: PathsView, request: Ask) -> bool {
    ||| request == Ask::Exists(paths.config_file)
    ||| request == Ask::ReadConfig(paths.config_file)
}

/// What comes before the VM.
pub open spec fn tools_asks(app: AppView, request: Ask) -> bool {
    ||| clear_asks(app, request)
    ||| settings_asks(app.paths, request)
    ||| current_keychain_asks(app.paths, request)
    ||| storage_asks(app, request)
    ||| host_asks(request)
    ||| runtime_asks(app, request)
    ||| command_asks(app, request)
}

pub broadcast proof fn install_tools_bounded(app: AppView, tape: Tape)
    requires
        tape.valid(),
    ensures
        bounded(
            #[trigger] app.install_tools(tape),
            tape,
            |request: Ask| tools_asks(app, request),
        ),
{
    broadcast use {
        group_footprint,
        validate_host_bounded,
        install_runtime_bounded,
        install_command_bounded,
    };

    reveal(AppView::install_tools);
}

/// Deciding what is to be done about the VM.
pub open spec fn plan_asks(app: AppView, request: Ask) -> bool {
    ||| delete_partial_asks(app, request)
    ||| request == Ask::Exists(app.paths.provisioned)
    ||| request == Ask::Exists(app.paths.installing)
    ||| request is Print
    ||| request == Ask::RemoveFile(app.paths.installing)
}

pub broadcast proof fn install_plan_bounded(app: AppView, tape: Tape)
    requires
        tape.valid(),
    ensures
        bounded(
            #[trigger] app.install_plan(tape),
            tape,
            |request: Ask| plan_asks(app, request),
        ),
{
    broadcast use {vm_exists_bounded, delete_partial_vm_bounded, verify_config_bounded};

    reveal(AppView::install_plan);
}

/// Making sure that there is an SSH key. A VM that exists gets no new one.
pub open spec fn key_asks(app: AppView, policy: CredentialPolicy, request: Ask) -> bool {
    let key = app.paths.ssh_key;
    let public = app.paths.public_key();
    ||| directory_asks(app.paths.config_dir, request)
    ||| request == Ask::Exists(key)
    ||| request == Ask::Exists(public)
    ||| request == Ask::IsFile(key)
    ||| request == Ask::IsFile(public)
    ||| request == Ask::SetMode { path: key, mode: 0o600 }
    ||| request == Ask::SetMode { path: public, mode: 0o644 }
    ||| (policy == CredentialPolicy::CreateIfMissing && request == Ask::Run(app.keygen_command()))
}

pub broadcast proof fn install_ssh_key_bounded(app: AppView, policy: CredentialPolicy, tape: Tape)
    requires
        tape.valid(),
    ensures
        bounded(
            #[trigger] app.install_ssh_key(policy, tape),
            tape,
            |request: Ask| key_asks(app, policy, request),
        ),
{
    reveal(AppView::install_ssh_key);
}

/// Saving the settings.
pub open spec fn save_asks(app: AppView, request: Ask) -> bool {
    ||| directory_asks(app.paths.config_dir, request)
    ||| request == Ask::PublishConfig {
        directory: app.paths.config_dir,
        path: app.paths.config_file,
        config: app.config,
    }
}

/// The credentials, the settings and the service.
pub open spec fn state_asks(app: AppView, policy: CredentialPolicy, request: Ask) -> bool {
    ||| key_asks(app, policy, request)
    ||| prepare_password_asks(app, policy, request)
    ||| save_asks(app, request)
    ||| request == Ask::RemoveFile(app.paths.run_marker)
    ||| install_service_asks(app, request)
}

pub broadcast proof fn install_state_bounded(
    app: AppView,
    policy: CredentialPolicy,
    choice: PasswordChoice,
    tape: Tape,
)
    requires
        tape.valid(),
    ensures
        bounded(
            #[trigger] app.install_state(policy, choice, tape),
            tape,
            |request: Ask| state_asks(app, policy, request),
        ),
{
    broadcast use {group_footprint, install_ssh_key_bounded, install_service_bounded};

    reveal(AppView::install_state);
}

/// Building the VM.
pub open spec fn build_asks(app: AppView, request: Ask) -> bool {
    let packer = app.on_storage(CommandView::new(app.paths.bin("packer"@)));
    ||| request == Ask::ReadText(app.paths.public_key())
    ||| guest_password_asks(app, request)
    ||| request is Print
    ||| directory_asks(join(app.paths.state, "packer"@), request)
    ||| request is IsDirectory
    ||| storage_asks(app, request)
    ||| exists|key: Seq<char>, password: Seq<char>|
        request == Ask::Run(#[trigger] app.packer_command(packer, key, password))
}

pub broadcast proof fn packer_bounded(app: AppView, key: Seq<char>, password: Seq<char>, tape: Tape)
    requires
        tape.valid(),
    ensures
        bounded(
            #[trigger] app.packer(key, password, tape),
            tape,
            |request: Ask| build_asks(app, request),
        ),
{
    broadcast use configure_tart_storage_bounded;

    reveal(AppView::packer);
}

pub broadcast proof fn build_vm_bounded(app: AppView, tape: Tape)
    requires
        tape.valid(),
    ensures
        bounded(
            #[trigger] app.build_vm(tape),
            tape,
            |request: Ask| build_asks(app, request),
        ),
{
    broadcast use {group_footprint, packer_bounded};

    reveal(AppView::build_vm);
}

/// Creating the VM.
pub open spec fn create_asks(app: AppView, request: Ask) -> bool {
    ||| request == Ask::RemoveFile(app.paths.provisioned)
    ||| directory_asks(app.paths.state, request)
    ||| request == Ask::CreateFile(app.paths.installing)
    ||| build_asks(app, request)
    ||| look_asks(app, request)
    ||| request == Ask::CreateFile(app.paths.provisioned)
    ||| request == Ask::RemoveFile(app.paths.installing)
}

pub broadcast proof fn create_vm_bounded(app: AppView, tape: Tape)
    requires
        tape.valid(),
    ensures
        bounded(
            #[trigger] app.create_vm(tape),
            tape,
            |request: Ask| create_asks(app, request),
        ),
{
    broadcast use {build_vm_bounded, vm_exists_bounded, verify_config_bounded};

    reveal(AppView::create_vm);
}

/// Installing or updating a VM.
pub open spec fn install_asks(app: AppView, request: Ask) -> bool {
    ||| tools_asks(app, request)
    ||| plan_asks(app, request)
    ||| state_asks(app, CredentialPolicy::CreateIfMissing, request)
    ||| create_asks(app, request)
    ||| stop_tart_asks(app, request)
    ||| request is Print
}

pub broadcast proof fn install_bounded(app: AppView, choice: PasswordChoice, tape: Tape)
    requires
        tape.valid(),
    ensures
        bounded(
            #[trigger] app.install(choice, tape),
            tape,
            |request: Ask| install_asks(app, request),
        ),
{
    broadcast use {
        install_tools_bounded,
        install_plan_bounded,
        install_state_bounded,
        create_vm_bounded,
        stop_tart_bounded,
    };

    reveal(AppView::install);
}

/// Taking the lock of a VM.
pub open spec fn lock_asks(paths: PathsView, request: Ask) -> bool {
    ||| directory_asks(paths.state, request)
    ||| request == Ask::Lock(lock_file(paths))
}

/// Finding out what the options mean.
pub open spec fn resolve_asks(paths: PathsView, request: Ask) -> bool {
    ||| exists|path: Seq<char>| request == Ask::Run(#[trigger] device_command(path))
    ||| exists|selector: Seq<char>| request == Ask::Run(#[trigger] info_command(selector))
    ||| request is DecodeVolume
    ||| settings_asks(paths, request)
}

pub broadcast proof fn resolve_bounded(options: InstallOptionsView, paths: PathsView, tape: Tape)
    requires
        tape.valid(),
    ensures
        bounded(
            #[trigger] options.resolve(paths, tape),
            tape,
            |request: Ask| resolve_asks(paths, request),
        ),
{
}

/// What the installer can ask for, with whatever settings the options turn out to
/// mean.
pub open spec fn installer_asks(host: HostView, paths: PathsView, request: Ask) -> bool {
    ||| lock_asks(paths, request)
    ||| resolve_asks(paths, request)
    ||| exists|config: ConfigView| #[trigger]
        install_asks(AppView { host, paths, config }, request)
}

pub broadcast proof fn run_installer_bounded(
    host: HostView,
    options: InstallOptionsView,
    tape: Tape,
)
    requires
        tape.valid(),
    ensures
        bounded(
            #[trigger] run_installer_steps(host, options, tape),
            tape,
            |request: Ask|
                PathsView::discover(options.name, host) matches Ok(paths) && installer_asks(
                    host,
                    paths,
                    request,
                ),
        ),
{
    broadcast use {resolve_bounded, install_bounded};

}

// -------------------------------------------------------------------- access
/// Waiting for SSH in the guest.
pub open spec fn wait_asks(app: AppView, request: Ask) -> bool {
    ||| look_asks(app, request)
    ||| request == Ask::Now
    ||| exists|ip: Seq<char>| request == Ask::Run(#[trigger] app.ssh_probe(ip))
    ||| request is Sleep
}

pub broadcast proof fn await_ssh_bounded(app: AppView, ip: Seq<char>, start: u64, tape: Tape)
    requires
        tape.valid(),
    ensures
        bounded(
            #[trigger] app.await_ssh(ip, start, tape),
            tape,
            |request: Ask| wait_asks(app, request),
        ),
{
    reveal(AppView::await_ssh);
}

pub broadcast proof fn wait_for_ssh_bounded(app: AppView, ip_wait: u32, tape: Tape)
    requires
        tape.valid(),
    ensures
        bounded(
            #[trigger] app.wait_for_ssh(ip_wait, tape),
            tape,
            |request: Ask| wait_asks(app, request),
        ),
{
    broadcast use {vm_ip_bounded, await_ssh_bounded};

    reveal(AppView::wait_for_ssh);
}

/// Connecting to the guest.
pub open spec fn ssh_asks(app: AppView, request: Ask) -> bool {
    ||| wait_asks(app, request)
    ||| exists|ip: Seq<char>, arguments: Seq<Seq<char>>|
        request == Ask::Exec(
            (#[trigger] app.ssh_command(ip).args(arguments)).input(InputView::Inherited).streams(
                Sink::Inherited,
            ),
        )
}

pub broadcast proof fn ssh_bounded(app: AppView, arguments: Seq<Seq<char>>, tape: Tape)
    requires
        tape.valid(),
    ensures
        bounded(
            #[trigger] app.ssh(arguments, tape),
            tape,
            |request: Ask| ssh_asks(app, request),
        ),
{
    broadcast use wait_for_ssh_bounded;

    reveal(AppView::ssh);
}

/// Looking whether the VM is installed and running.
pub open spec fn running_asks(app: AppView, request: Ask) -> bool {
    ||| look_asks(app, request)
    ||| request == Ask::Exists(app.paths.provisioned)
}

pub broadcast proof fn ensure_running_bounded(app: AppView, tape: Tape)
    requires
        tape.valid(),
    ensures
        bounded(
            #[trigger] app.ensure_running(tape),
            tape,
            |request: Ask| running_asks(app, request),
        ),
{
    broadcast use {group_footprint, vm_exists_bounded, vm_info_bounded};

    reveal(AppView::ensure_running);
}

/// Opening the desktop of the guest.
pub open spec fn screen_share_asks(app: AppView, request: Ask) -> bool {
    ||| running_asks(app, request)
    ||| request == Ask::Run(session_command())
    ||| exists|ip: Seq<char>| request == Ask::Run(#[trigger] view_command(ip))
    ||| request is Print
}

pub broadcast proof fn screen_share_bounded(app: AppView, tape: Tape)
    requires
        tape.valid(),
    ensures
        bounded(
            #[trigger] app.screen_share(tape),
            tape,
            |request: Ask| screen_share_asks(app, request),
        ),
{
    broadcast use {ensure_running_bounded, vm_ip_bounded};

    reveal(AppView::screen_share);
}

/// Reporting on the VM.
pub open spec fn status_asks(app: AppView, request: Ask) -> bool {
    ||| running_asks(app, request)
    ||| request == Ask::Exists(app.paths.run_marker)
    ||| service_asks(app.paths.service_target(app.host), request)
    ||| request is Print
}

pub broadcast proof fn supervised_bounded(app: AppView, tape: Tape)
    requires
        tape.valid(),
    ensures
        bounded(
            #[trigger] app.supervised(tape),
            tape,
            |request: Ask| status_asks(app, request),
        ),
{
    reveal(AppView::supervised);
}

pub broadcast proof fn known_ip_bounded(app: AppView, state: crate::facts::VmState, tape: Tape)
    requires
        tape.valid(),
    ensures
        bounded(
            #[trigger] app.known_ip(state, tape),
            tape,
            |request: Ask| look_asks(app, request),
        ),
{
    broadcast use vm_ip_bounded;

    reveal(AppView::known_ip);
}

pub broadcast proof fn status_bounded(app: AppView, tape: Tape)
    requires
        tape.valid(),
    ensures
        bounded(
            #[trigger] app.status(tape),
            tape,
            |request: Ask| status_asks(app, request),
        ),
{
    broadcast use {vm_exists_bounded, vm_info_bounded, known_ip_bounded, supervised_bounded};

    reveal(AppView::status);
}

/// Showing the logs.
pub open spec fn logs_asks(app: AppView, request: Ask) -> bool {
    request matches Ask::Exec(command) && command.program == "/usr/bin/tail"@
        && command.arguments.len() > 0 && command.arguments[0] == "-n"@
}

pub broadcast proof fn logs_bounded(app: AppView, follow: bool, tape: Tape)
    requires
        tape.valid(),
    ensures
        bounded(
            #[trigger] app.logs(follow, tape),
            tape,
            |request: Ask| logs_asks(app, request),
        ),
{
    reveal(AppView::logs);
}

// ----------------------------------------------------------------- lifecycle
/// Looking whether the VM can be started.
pub open spec fn preflight_asks(app: AppView, request: Ask) -> bool {
    ||| request == Ask::IsFile(app.paths.service_plist)
    ||| keychain_asks(app, request)
    ||| running_asks(app, request)
    ||| request == Ask::Run(bridge_command())
}

pub broadcast proof fn preflight_start_bounded(app: AppView, tape: Tape)
    requires
        tape.valid(),
    ensures
        bounded(
            #[trigger] app.preflight_start(tape),
            tape,
            |request: Ask| preflight_asks(app, request),
        ),
{
    broadcast use {group_footprint, vm_exists_bounded, verify_config_bounded};

    reveal(AppView::preflight_start);
}

/// Having the service run the VM.
pub open spec fn start_ready_asks(app: AppView, request: Ask) -> bool {
    ||| directory_asks(app.paths.state, request)
    ||| request == Ask::CreateFile(app.paths.run_marker)
    ||| start_service_asks(app, request)
    ||| wait_asks(app, request)
    ||| request is Print
}

pub broadcast proof fn start_ready_bounded(app: AppView, tape: Tape)
    requires
        tape.valid(),
    ensures
        bounded(
            #[trigger] app.start_ready(tape),
            tape,
            |request: Ask| start_ready_asks(app, request),
        ),
{
    broadcast use {start_service_bounded, wait_for_ssh_bounded};

    reveal(AppView::start_ready);
}

/// Starting a VM.
pub open spec fn start_asks(app: AppView, request: Ask) -> bool {
    ||| preflight_asks(app, request)
    ||| start_ready_asks(app, request)
}

pub broadcast proof fn start_bounded(app: AppView, tape: Tape)
    requires
        tape.valid(),
    ensures
        bounded(
            #[trigger] app.start(tape),
            tape,
            |request: Ask| start_asks(app, request),
        ),
{
    broadcast use {preflight_start_bounded, start_ready_bounded};

    reveal(AppView::start);
}

/// Stopping a VM and saying so.
pub open spec fn stop_command_asks(app: AppView, request: Ask) -> bool {
    ||| stop_asks(app, request)
    ||| request is Print
}

pub broadcast proof fn stop_bounded(app: AppView, tape: Tape)
    requires
        tape.valid(),
    ensures
        bounded(
            #[trigger] app.stop(tape),
            tape,
            |request: Ask| stop_command_asks(app, request),
        ),
{
    broadcast use stop_vm_bounded;

    reveal(AppView::stop);
}

/// Stopping and starting a VM.
pub open spec fn restart_asks(app: AppView, request: Ask) -> bool {
    ||| start_asks(app, request)
    ||| stop_asks(app, request)
}

pub broadcast proof fn restart_bounded(app: AppView, tape: Tape)
    requires
        tape.valid(),
    ensures
        bounded(
            #[trigger] app.restart(tape),
            tape,
            |request: Ask| restart_asks(app, request),
        ),
{
    broadcast use {preflight_start_bounded, stop_bounded, start_ready_bounded};

    reveal(AppView::restart);
}

/// Deleting a VM and what belongs to it.
pub open spec fn uninstall_asks(app: AppView, request: Ask) -> bool {
    ||| stop_asks(app, request)
    ||| delete_asks(app, request)
    ||| request == Ask::RemoveFile(app.paths.service_plist)
    ||| request == Ask::RemoveFile(app.paths.autoload_agent())
    ||| request == Ask::LinkKind(app.paths.command_link)
    ||| request == Ask::ReadLink(app.paths.command_link)
    ||| request == Ask::RemoveFile(app.paths.command_link)
    ||| request == Ask::RemoveFile(app.paths.runtime)
    ||| request is Print
}

pub broadcast proof fn uninstall_bounded(app: AppView, tape: Tape)
    requires
        tape.valid(),
    ensures
        bounded(
            #[trigger] app.uninstall(tape),
            tape,
            |request: Ask| uninstall_asks(app, request),
        ),
{
    broadcast use {group_footprint, stop_vm_bounded, delete_vm_bounded};

    reveal(AppView::uninstall);
    reveal(AppView::remove_command);
}

/// Running the VM in the background.
pub open spec fn internal_run_asks(app: AppView, request: Ask) -> bool {
    ||| request == Ask::Exists(app.paths.run_marker)
    ||| request == Ask::Exists(app.paths.provisioned)
    ||| unlocked_asks(app.paths, request)
    ||| look_asks(app, request)
    ||| request == Ask::Run(bridge_command())
    ||| request == Ask::Exec(
        app.background_command(app.tart_command()).input(InputView::Inherited).streams(
            Sink::Inherited,
        ),
    )
}

pub broadcast proof fn internal_run_bounded(app: AppView, tape: Tape)
    requires
        tape.valid(),
    ensures
        bounded(
            #[trigger] app.internal_run(tape),
            tape,
            |request: Ask| internal_run_asks(app, request),
        ),
{
    broadcast use {group_footprint, tart_bounded, vm_exists_bounded, verify_config_bounded};

    reveal(AppView::internal_run);
}

// ------------------------------------------------------------------- console
/// Looking whether the user is at the console.
pub open spec fn console_session_asks(request: Ask) -> bool {
    ||| request == Ask::Run(session_command())
    ||| request == Ask::Run(console_info_command())
    ||| request is DecodeConsole
}

pub broadcast proof fn ensure_console_session_bounded(host: HostView, name: Seq<char>, tape: Tape)
    requires
        tape.valid(),
    ensures
        bounded(
            #[trigger] ensure_console_session_steps(host, name, tape),
            tape,
            |request: Ask| console_session_asks(request),
        ),
{
}

/// Taking the VM out of the background.
pub open spec fn prepare_console_asks(app: AppView, request: Ask) -> bool {
    ||| request == Ask::RemoveFile(app.paths.run_marker)
    ||| look_asks(app, request)
    ||| request is Print
    ||| request == Ask::Run(app.suspend_command(app.tart_command()))
    ||| request == Ask::Now
    ||| request is Sleep
    ||| unload_asks(app.paths.service_target(app.host), request)
}

pub broadcast proof fn await_suspended_bounded(app: AppView, start: u64, tape: Tape)
    requires
        tape.valid(),
    ensures
        bounded(
            #[trigger] app.await_suspended(start, tape),
            tape,
            |request: Ask| prepare_console_asks(app, request),
        ),
{
    broadcast use vm_info_bounded;

    reveal(AppView::await_suspended);
}

pub broadcast proof fn save_state_bounded(app: AppView, tape: Tape)
    requires
        tape.valid(),
    ensures
        bounded(
            #[trigger] app.save_state(tape),
            tape,
            |request: Ask| prepare_console_asks(app, request),
        ),
{
    broadcast use {tart_bounded, await_suspended_bounded};

    reveal(AppView::save_state);
}

pub broadcast proof fn prepare_console_bounded(app: AppView, resume_background: bool, tape: Tape)
    requires
        tape.valid(),
    ensures
        bounded(
            #[trigger] app.prepare_console(resume_background, tape),
            tape,
            |request: Ask| prepare_console_asks(app, request),
        ),
{
    broadcast use {vm_info_bounded, save_state_bounded};

    reveal(AppView::prepare_console);
    reveal(AppView::console_source);
    reveal(AppView::unload_service);
}

/// Showing the console until it ends.
pub open spec fn show_console_asks(app: AppView, request: Ask) -> bool {
    ||| look_asks(app, request)
    ||| console_session_asks(request)
    ||| request is Print
    ||| request == Ask::Spawn(
        app.console_command(app.on_storage(CommandView::new("/usr/bin/caffeinate"@))),
    )
    ||| request == Ask::PollChild
    ||| request == Ask::SignalPending
    ||| request == Ask::Now
    ||| request is Sleep
    ||| request == Ask::Run(
        app.suspend_command(app.tart_command().process_group()).input(InputView::Inherited).streams(
            Sink::Discarded,
        ),
    )
}

pub broadcast proof fn end_console_bounded(app: AppView, start: u64, tape: Tape)
    requires
        tape.valid(),
    ensures
        bounded(
            #[trigger] app.end_console(start, tape),
            tape,
            |request: Ask| show_console_asks(app, request),
        ),
{
    broadcast use tart_bounded;

    reveal(AppView::end_console);
    reveal(AppView::send_suspend);
    reveal(AppView::await_console_end);
}

pub broadcast proof fn watch_console_bounded(app: AppView, tape: Tape)
    requires
        tape.valid(),
    ensures
        bounded(
            #[trigger] app.watch_console(tape),
            tape,
            |request: Ask| show_console_asks(app, request),
        ),
{
    broadcast use {ensure_console_session_bounded, end_console_bounded};

    reveal(AppView::watch_console);
    reveal(AppView::suspend_console_process);
}

pub broadcast proof fn show_console_bounded(app: AppView, tape: Tape)
    requires
        tape.valid(),
    ensures
        bounded(
            #[trigger] app.show_console(tape),
            tape,
            |request: Ask| show_console_asks(app, request),
        ),
{
    broadcast use {configure_tart_storage_bounded, watch_console_bounded, vm_info_bounded};

    reveal(AppView::show_console);
}

/// The console while signals are noted.
pub open spec fn guarded_console_asks(app: AppView, request: Ask) -> bool {
    ||| request == Ask::WatchSignals
    ||| request == Ask::UnwatchSignals
    ||| prepare_console_asks(app, request)
    ||| show_console_asks(app, request)
}

pub broadcast proof fn open_console_bounded(app: AppView, resume_background: bool, tape: Tape)
    requires
        tape.valid(),
    ensures
        bounded(
            #[trigger] app.open_console(resume_background, tape),
            tape,
            |request: Ask| guarded_console_asks(app, request),
        ),
{
    broadcast use {ensure_console_session_bounded, prepare_console_bounded, show_console_bounded};

    reveal(AppView::open_console);
}

pub broadcast proof fn guarded_console_bounded(app: AppView, resume_background: bool, tape: Tape)
    requires
        tape.valid(),
    ensures
        bounded(
            #[trigger] app.guarded_console(resume_background, tape),
            tape,
            |request: Ask| guarded_console_asks(app, request),
        ),
{
    broadcast use open_console_bounded;

    reveal(AppView::guarded_console);
}

/// The recovery console.
pub open spec fn console_asks(app: AppView, request: Ask) -> bool {
    ||| clear_asks(app, request)
    ||| keychain_asks(app, request)
    ||| status_asks(app, request)
    ||| request == Ask::Run(bridge_command())
    ||| guarded_console_asks(app, request)
    ||| start_ready_asks(app, request)
}

pub broadcast proof fn preflight_console_bounded(app: AppView, tape: Tape)
    requires
        tape.valid(),
    ensures
        bounded(
            #[trigger] app.preflight_console(tape),
            tape,
            |request: Ask| console_asks(app, request),
        ),
{
    broadcast use {
        group_footprint,
        ensure_console_session_bounded,
        supervised_bounded,
        vm_exists_bounded,
    };

    reveal(AppView::preflight_console);
}

pub broadcast proof fn start_background_bounded(app: AppView, tape: Tape)
    requires
        tape.valid(),
    ensures
        bounded(
            #[trigger] app.start_background(tape),
            tape,
            |request: Ask| start_ready_asks(app, request),
        ),
{
    broadcast use {vm_info_bounded, start_service_bounded, wait_for_ssh_bounded};

    reveal(AppView::start_background);
}

pub broadcast proof fn console_bounded(app: AppView, tape: Tape)
    requires
        tape.valid(),
    ensures
        bounded(
            #[trigger] app.console(tape),
            tape,
            |request: Ask| console_asks(app, request),
        ),
{
    broadcast use {
        preflight_console_bounded,
        start_background_bounded,
        guarded_console_bounded,
        start_ready_bounded,
    };

    reveal(AppView::console);
}

// ----------------------------------------------------------------- Tailscale
/// Looking at Tailscale in the guest.
pub open spec fn tailscale_status_asks(app: AppView, request: Ask) -> bool {
    ||| running_asks(app, request)
    ||| wait_asks(app, request)
    ||| exists|ip: Seq<char>| request == Ask::Run(#[trigger] app.ssh_command(ip).arg(STATE_SCRIPT@))
    ||| request is Print
}

pub broadcast proof fn print_tailscale_status_bounded(app: AppView, ip: Seq<char>, tape: Tape)
    requires
        tape.valid(),
    ensures
        bounded(
            #[trigger] app.print_tailscale_status(ip, tape),
            tape,
            |request: Ask| tailscale_status_asks(app, request),
        ),
{
    reveal(AppView::print_tailscale_status);
    reveal(AppView::tailscale_state);
}

/// Installing and connecting Tailscale in the guest.
pub open spec fn tailscale_setup_asks(app: AppView, request: Ask) -> bool {
    ||| request == Ask::IsFile(app.paths.guest_tailscale)
    ||| request == Ask::OpenInput(app.paths.guest_tailscale)
    ||| request == Ask::Run(
        CommandView::new("/usr/bin/shasum"@).option("-a"@, "256"@).arg(app.paths.guest_tailscale),
    )
    ||| guest_password_asks(app, request)
    ||| request is Print
    ||| exists|ip: Seq<char>, script: Seq<char>| #[trigger]
        connects(app, request, ip, script)
}

/// A script in the guest.
pub open spec fn connects(app: AppView, request: Ask, ip: Seq<char>, script: Seq<char>) -> bool {
    request matches Ask::Run(command) && command.program == "/usr/bin/ssh"@ && command.arguments
        == app.ssh_command(ip).arg(script).arguments
}

pub broadcast proof fn upload_tailscale_bounded(app: AppView, ip: Seq<char>, tape: Tape)
    requires
        tape.valid(),
    ensures
        bounded(
            #[trigger] app.upload_tailscale(ip, tape),
            tape,
            |request: Ask| tailscale_setup_asks(app, request),
        ),
{
    reveal(AppView::upload_tailscale);
    let script = upload_script(app.upload_path());
    assert(connects(
        app,
        Ask::Run(app.ssh_command(ip).arg(script).input(InputView::Opened)),
        ip,
        script,
    ));
}

pub broadcast proof fn tailscale_digest_bounded(app: AppView, tape: Tape)
    requires
        tape.valid(),
    ensures
        bounded(
            #[trigger] app.tailscale_digest(tape),
            tape,
            |request: Ask| tailscale_setup_asks(app, request),
        ),
{
    reveal(AppView::tailscale_digest);
}

pub broadcast proof fn install_tailscale_bounded(
    app: AppView,
    ip: Seq<char>,
    digest: Seq<char>,
    password: Seq<char>,
    tape: Tape,
)
    requires
        tape.valid(),
    ensures
        bounded(
            #[trigger] app.install_tailscale(ip, digest, password, tape),
            tape,
            |request: Ask| tailscale_setup_asks(app, request),
        ),
{
    reveal(AppView::install_tailscale);
    let script = install_script(app.upload_path(), digest);
    let line = vstd::utf8::encode_utf8(password + "\n"@);
    assert(connects(
        app,
        Ask::Run(app.ssh_command(ip).arg(script).input(InputView::Bytes(line))),
        ip,
        script,
    ));
}

pub broadcast proof fn connect_tailscale_bounded(app: AppView, ip: Seq<char>, tape: Tape)
    requires
        tape.valid(),
    ensures
        bounded(
            #[trigger] app.connect_tailscale(ip, tape),
            tape,
            |request: Ask| tailscale_setup_asks(app, request),
        ),
{
    reveal(AppView::connect_tailscale);
    let script = app.connect_script();
    assert(connects(
        app,
        Ask::Run(
            app.ssh_command(ip).arg(script).input(InputView::Inherited).streams(Sink::Inherited),
        ),
        ip,
        script,
    ));
}

pub broadcast proof fn setup_tailscale_bounded(app: AppView, ip: Seq<char>, tape: Tape)
    requires
        tape.valid(),
    ensures
        bounded(
            #[trigger] app.setup_tailscale(ip, tape),
            tape,
            |request: Ask| tailscale_setup_asks(app, request),
        ),
{
    broadcast use {
        group_footprint,
        upload_tailscale_bounded,
        tailscale_digest_bounded,
        install_tailscale_bounded,
        connect_tailscale_bounded,
    };

    reveal(AppView::setup_tailscale);
    assert(connects(
        app,
        Ask::Run(app.ssh_command(ip).arg(READY_SCRIPT@)),
        ip,
        READY_SCRIPT@,
    ));
}

/// Tailscale in the guest. Looking at it changes nothing there.
pub open spec fn tailscale_asks(app: AppView, action: TailscaleAction, request: Ask) -> bool {
    ||| tailscale_status_asks(app, request)
    ||| (action == TailscaleAction::Setup && tailscale_setup_asks(app, request))
}

pub broadcast proof fn tailscale_bounded(app: AppView, action: TailscaleAction, tape: Tape)
    requires
        tape.valid(),
    ensures
        bounded(
            #[trigger] app.tailscale(action, tape),
            tape,
            |request: Ask| tailscale_asks(app, action, request),
        ),
{
    broadcast use {
        ensure_running_bounded,
        wait_for_ssh_bounded,
        setup_tailscale_bounded,
        print_tailscale_status_bounded,
    };

    reveal(AppView::tailscale);
}

// ------------------------------------------------------------------- actions
/// What an action can ask for.
pub open spec fn action_asks(app: AppView, action: ActionView, request: Ask) -> bool {
    match action {
        ActionView::Status => status_asks(app, request),
        ActionView::Start => start_asks(app, request),
        ActionView::Stop => stop_command_asks(app, request),
        ActionView::Restart => restart_asks(app, request),
        ActionView::Ssh { .. } => ssh_asks(app, request),
        ActionView::ScreenShare => screen_share_asks(app, request),
        ActionView::Console => console_asks(app, request),
        ActionView::Tailscale { action } => tailscale_asks(app, action, request),
        ActionView::Logs { .. } => logs_asks(app, request),
        ActionView::Uninstall => uninstall_asks(app, request),
        ActionView::InternalRun => internal_run_asks(app, request),
        ActionView::InternalKeychain { .. } => helper_action_asks(app.paths, request),
    }
}

pub broadcast proof fn dispatch_bounded(app: AppView, action: ActionView, tape: Tape)
    requires
        tape.valid(),
    ensures
        bounded(
            #[trigger] app.dispatch(action, tape),
            tape,
            |request: Ask| action_asks(app, action, request),
        ),
{
    broadcast use {
        group_footprint,
        status_bounded,
        start_bounded,
        stop_bounded,
        restart_bounded,
        ssh_bounded,
        screen_share_bounded,
        console_bounded,
        tailscale_bounded,
        logs_bounded,
        uninstall_bounded,
        internal_run_bounded,
    };

}

/// What a command can ask for, with whatever settings are saved.
pub open spec fn command_line_asks(
    host: HostView,
    paths: PathsView,
    action: ActionView,
    request: Ask,
) -> bool {
    ||| (action.manages() && lock_asks(paths, request))
    ||| (action == ActionView::Status && request == Ask::FileMode(paths.bin("tart"@)))
    ||| (action == ActionView::Status && request is Print)
    ||| (action is InternalKeychain && helper_action_asks(paths, request))
    ||| request == Ask::IsFile(paths.config_file)
    ||| request == Ask::ReadConfig(paths.config_file)
    ||| exists|config: ConfigView| #[trigger]
        action_asks(AppView { host, paths, config }, action, request)
}

pub broadcast proof fn managed_bounded(
    host: HostView,
    paths: PathsView,
    action: ActionView,
    tape: Tape,
)
    requires
        tape.valid(),
    ensures
        bounded(
            #[trigger] managed_steps(host, paths, action, tape),
            tape,
            |request: Ask| command_line_asks(host, paths, action, request),
        ),
{
    broadcast use dispatch_bounded;

}

pub broadcast proof fn acted_bounded(
    host: HostView,
    paths: PathsView,
    action: ActionView,
    tape: Tape,
)
    requires
        tape.valid(),
    ensures
        bounded(
            #[trigger] acted_steps(host, paths, action, tape),
            tape,
            |request: Ask| command_line_asks(host, paths, action, request),
        ),
{
    broadcast use {group_footprint, managed_bounded};

}

pub broadcast proof fn run_bounded(host: HostView, name: Seq<char>, action: ActionView, tape: Tape)
    requires
        tape.valid(),
    ensures
        bounded(
            #[trigger] run_steps(host, name, action, tape),
            tape,
            |request: Ask|
                PathsView::discover(name, host) matches Ok(paths) && command_line_asks(
                    host,
                    paths,
                    action,
                    request,
                ),
        ),
{
    broadcast use acted_bounded;

}

} // verus!
