//! The host as the commands see it, and the paths of one VM on it.

use crate::error::{agrees, Error, Messages};
use crate::instance::{resolve, Identity, IdentityView, InstanceView};
use crate::names::{name_allowed, valid_name, NAME_RULE};
use crate::path::{join, joined};
use crate::text::{decimal, decimal_of};
use vstd::prelude::*;

verus! {

/// What the process finds around it when it starts.
#[derive(Debug)]
pub struct Host {
    /// The value of `HOME`.
    pub home: Option<String>,
    /// The value of `PATH`.
    pub search_path: Option<String>,
    /// The processor architecture.
    pub architecture: String,
    /// The user that runs the command.
    pub user_id: u32,
}

pub struct HostView {
    pub home: Option<Seq<char>>,
    pub search_path: Option<Seq<char>>,
    pub architecture: Seq<char>,
    pub user_id: u32,
}

pub open spec fn optional(text: Option<String>) -> Option<Seq<char>> {
    match text {
        Some(text) => Some(text@),
        None => None,
    }
}

impl View for Host {
    type V = HostView;

    open spec fn view(&self) -> HostView {
        HostView {
            home: optional(self.home),
            search_path: optional(self.search_path),
            architecture: self.architecture@,
            user_id: self.user_id,
        }
    }
}

impl HostView {
    /// The launchd domain of the user.
    pub open spec fn user_domain(self) -> Seq<char> {
        "user/"@ + decimal(self.user_id as nat)
    }
}

impl Host {
    pub fn user_domain(&self) -> (domain: String)
        ensures
            domain@ == self@.user_domain(),
    {
        "user/".to_owned().concat(decimal_of(self.user_id as u64).as_str())
    }
}

/// The files and labels of one VM.
#[derive(Debug)]
pub struct Paths {
    pub identity: Identity,
    pub home: String,
    pub root: String,
    pub config_dir: String,
    pub config_file: String,
    pub state: String,
    pub logs: String,
    pub runtime: String,
    pub run_marker: String,
    pub installing: String,
    pub provisioned: String,
    pub service_plist: String,
    pub command_directory: String,
    pub command_link: String,
    pub ssh_key: String,
    pub guest_tailscale: String,
    pub service_label: String,
    pub keychain_helper_label: String,
    pub password_service: String,
}

pub struct PathsView {
    pub identity: IdentityView,
    pub home: Seq<char>,
    pub root: Seq<char>,
    pub config_dir: Seq<char>,
    pub config_file: Seq<char>,
    pub state: Seq<char>,
    pub logs: Seq<char>,
    pub runtime: Seq<char>,
    pub run_marker: Seq<char>,
    pub installing: Seq<char>,
    pub provisioned: Seq<char>,
    pub service_plist: Seq<char>,
    pub command_directory: Seq<char>,
    pub command_link: Seq<char>,
    pub ssh_key: Seq<char>,
    pub guest_tailscale: Seq<char>,
    pub service_label: Seq<char>,
    pub keychain_helper_label: Seq<char>,
    pub password_service: Seq<char>,
}

impl View for Paths {
    type V = PathsView;

    open spec fn view(&self) -> PathsView {
        PathsView {
            identity: self.identity@,
            home: self.home@,
            root: self.root@,
            config_dir: self.config_dir@,
            config_file: self.config_file@,
            state: self.state@,
            logs: self.logs@,
            runtime: self.runtime@,
            run_marker: self.run_marker@,
            installing: self.installing@,
            provisioned: self.provisioned@,
            service_plist: self.service_plist@,
            command_directory: self.command_directory@,
            command_link: self.command_link@,
            ssh_key: self.ssh_key@,
            guest_tailscale: self.guest_tailscale@,
            service_label: self.service_label@,
            keychain_helper_label: self.keychain_helper_label@,
            password_service: self.password_service@,
        }
    }
}

impl PathsView {
    /// The paths of the VM that the command `name` manages.
    pub open spec fn of(home: Seq<char>, name: Seq<char>) -> PathsView {
        let instance = InstanceView::of(home, name);
        let root = instance.root;
        let config_dir = join(root, "config"@);
        let state = join(root, "state"@);
        let command_directory = join(home, ".local/bin"@);
        PathsView {
            identity: instance.identity,
            home,
            root,
            config_dir,
            config_file: join(config_dir, "config.json"@),
            state,
            logs: join(root, "logs"@),
            runtime: join(root, "runtime"@),
            run_marker: join(state, "run"@),
            installing: join(state, "installing"@),
            provisioned: join(state, "provisioned"@),
            service_plist: join(state, "service.plist"@),
            command_directory,
            command_link: join(command_directory, instance.identity.command_name()),
            ssh_key: join(config_dir, "id_ed25519"@),
            guest_tailscale: join(root, "runtime/libexec/gremvm/tailscaled"@),
            service_label: instance.service_label,
            keychain_helper_label: instance.keychain_helper_label,
            password_service: instance.password_service,
        }
    }

    /// A command has paths when its name is allowed and the home directory is
    /// known.
    pub open spec fn discover(name: Seq<char>, host: HostView) -> Result<PathsView, Messages> {
        if !name_allowed(name) {
            Err(seq![NAME_RULE@])
        } else if host.home is None || host.home->0.len() == 0 {
            Err(seq!["HOME is not set"@])
        } else {
            Ok(PathsView::of(host.home->0, name))
        }
    }

    pub open spec fn bin(self, name: Seq<char>) -> Seq<char> {
        join(join(self.runtime, "bin"@), name)
    }

    pub open spec fn command_name(self) -> Seq<char> {
        self.identity.command_name()
    }

    pub open spec fn service_target(self, host: HostView) -> Seq<char> {
        host.user_domain() + "/"@ + self.service_label
    }

    pub open spec fn keychain_helper_target(self, host: HostView) -> Seq<char> {
        host.user_domain() + "/"@ + self.keychain_helper_label
    }

    pub open spec fn install_hint(self) -> Seq<char> {
        "nix run github:jul-sh/gremvm -- install "@ + self.command_name()
    }

    /// The agent that launchd would load at login, which is not used.
    pub open spec fn autoload_agent(self) -> Seq<char> {
        join(join(self.home, "Library/LaunchAgents"@), self.service_label + ".plist"@)
    }

    pub open spec fn login_keychain(self) -> Seq<char> {
        join(self.home, "Library/Keychains/login.keychain-db"@)
    }

    pub open spec fn public_key(self) -> Seq<char> {
        self.ssh_key + ".pub"@
    }
}

impl Paths {
    pub fn discover(name: String, host: &Host) -> (paths: Result<Paths, Error>)
        ensures
            agrees(paths, PathsView::discover(name@, host@)),
    {
        match valid_name(name.as_str()) {
            Ok(_) => {},
            Err(message) => {
                return Err(Error::new(message.as_str()));
            },
        }
        let home = match &host.home {
            Some(home) => home.clone(),
            None => {
                return Err(Error::new("HOME is not set"));
            },
        };
        if home.as_str().is_empty() {
            return Err(Error::new("HOME is not set"));
        }
        let instance = resolve(home.as_str(), name);
        let root = instance.root;
        let config_dir = joined(root.as_str(), "config");
        let state = joined(root.as_str(), "state");
        let command_directory = joined(home.as_str(), ".local/bin");
        Ok(
            Paths {
                config_file: joined(config_dir.as_str(), "config.json"),
                logs: joined(root.as_str(), "logs"),
                runtime: joined(root.as_str(), "runtime"),
                run_marker: joined(state.as_str(), "run"),
                installing: joined(state.as_str(), "installing"),
                provisioned: joined(state.as_str(), "provisioned"),
                service_plist: joined(state.as_str(), "service.plist"),
                command_link: joined(command_directory.as_str(), instance.identity.command_name()),
                command_directory,
                ssh_key: joined(config_dir.as_str(), "id_ed25519"),
                guest_tailscale: joined(root.as_str(), "runtime/libexec/gremvm/tailscaled"),
                identity: instance.identity,
                home,
                root,
                config_dir,
                state,
                service_label: instance.service_label,
                keychain_helper_label: instance.keychain_helper_label,
                password_service: instance.password_service,
            },
        )
    }

    pub fn bin(&self, name: &str) -> (path: String)
        ensures
            path@ == self@.bin(name@),
    {
        joined(joined(self.runtime.as_str(), "bin").as_str(), name)
    }

    pub fn command_name(&self) -> (name: &str)
        ensures
            name@ == self@.command_name(),
    {
        self.identity.command_name()
    }

    pub fn service_target(&self, host: &Host) -> (target: String)
        ensures
            target@ == self@.service_target(host@),
    {
        host.user_domain().concat("/").concat(self.service_label.as_str())
    }

    pub fn keychain_helper_target(&self, host: &Host) -> (target: String)
        ensures
            target@ == self@.keychain_helper_target(host@),
    {
        host.user_domain().concat("/").concat(self.keychain_helper_label.as_str())
    }

    pub fn install_hint(&self) -> (hint: String)
        ensures
            hint@ == self@.install_hint(),
    {
        "nix run github:jul-sh/gremvm -- install ".to_owned().concat(self.command_name())
    }

    pub fn autoload_agent(&self) -> (path: String)
        ensures
            path@ == self@.autoload_agent(),
    {
        joined(
            joined(self.home.as_str(), "Library/LaunchAgents").as_str(),
            self.service_label.clone().concat(".plist").as_str(),
        )
    }

    pub fn login_keychain(&self) -> (path: String)
        ensures
            path@ == self@.login_keychain(),
    {
        joined(self.home.as_str(), "Library/Keychains/login.keychain-db")
    }

    pub fn public_key(&self) -> (path: String)
        ensures
            path@ == self@.public_key(),
    {
        self.ssh_key.clone().concat(".pub")
    }
}

} // verus!
