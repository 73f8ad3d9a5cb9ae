//! The names under which one VM is known to the host.

use crate::path::{join, joined};
use crate::text::same;
use vstd::prelude::*;

verus! {

/// Which VM a command manages.
#[derive(Debug, PartialEq, Eq)]
pub enum Identity {
    Gremvm,
    Named(String),
}

pub enum IdentityView {
    Gremvm,
    Named(Seq<char>),
}

impl View for Identity {
    type V = IdentityView;

    open spec fn view(&self) -> IdentityView {
        match self {
            Identity::Gremvm => IdentityView::Gremvm,
            Identity::Named(name) => IdentityView::Named(name@),
        }
    }
}

impl IdentityView {
    /// The command `gremvm` manages the VM of that name; any other command is
    /// the name of its VM.
    pub open spec fn of(name: Seq<char>) -> IdentityView {
        if name == "gremvm"@ {
            IdentityView::Gremvm
        } else {
            IdentityView::Named(name)
        }
    }

    pub open spec fn command_name(self) -> Seq<char> {
        match self {
            IdentityView::Gremvm => "gremvm"@,
            IdentityView::Named(name) => name,
        }
    }
}

impl Identity {
    pub fn from_name(name: String) -> (identity: Identity)
        ensures
            identity@ == IdentityView::of(name@),
    {
        if same(name.as_str(), "gremvm") {
            Identity::Gremvm
        } else {
            Identity::Named(name)
        }
    }

    pub fn command_name(&self) -> (name: &str)
        ensures
            name@ == self@.command_name(),
    {
        match self {
            Identity::Gremvm => "gremvm",
            Identity::Named(name) => name.as_str(),
        }
    }
}

/// What belongs to one VM alone: its directory, its launchd labels and its
/// Keychain service.
#[derive(Debug, PartialEq, Eq)]
pub struct Instance {
    pub identity: Identity,
    pub root: String,
    pub service_label: String,
    pub keychain_helper_label: String,
    pub password_service: String,
}

pub struct InstanceView {
    pub identity: IdentityView,
    pub root: Seq<char>,
    pub service_label: Seq<char>,
    pub keychain_helper_label: Seq<char>,
    pub password_service: Seq<char>,
}

impl View for Instance {
    type V = InstanceView;

    open spec fn view(&self) -> InstanceView {
        InstanceView {
            identity: self.identity@,
            root: self.root@,
            service_label: self.service_label@,
            keychain_helper_label: self.keychain_helper_label@,
            password_service: self.password_service@,
        }
    }
}

/// The directory of the `gremvm` VM, below which the other VMs have theirs.
pub open spec fn base_directory(home: Seq<char>) -> Seq<char> {
    join(home, "Library/Application Support/GremVM"@)
}

pub open spec fn service_label(identity: IdentityView) -> Seq<char> {
    match identity {
        IdentityView::Gremvm => "io.gremvm.tart"@,
        IdentityView::Named(name) => "io.gremvm.tart."@ + name,
    }
}

pub open spec fn keychain_helper_label(identity: IdentityView) -> Seq<char> {
    match identity {
        IdentityView::Gremvm => "io.gremvm.keychain"@,
        IdentityView::Named(name) => "io.gremvm.keychain."@ + name,
    }
}

pub open spec fn root_directory(home: Seq<char>, identity: IdentityView) -> Seq<char> {
    match identity {
        IdentityView::Gremvm => base_directory(home),
        IdentityView::Named(name) => join(join(base_directory(home), "instances"@), name),
    }
}

impl InstanceView {
    pub open spec fn of(home: Seq<char>, name: Seq<char>) -> InstanceView {
        let identity = IdentityView::of(name);
        InstanceView {
            identity,
            root: root_directory(home, identity),
            service_label: service_label(identity),
            keychain_helper_label: keychain_helper_label(identity),
            password_service: service_label(identity) + ".gui-password"@,
        }
    }
}

pub fn resolve(home: &str, name: String) -> (instance: Instance)
    ensures
        instance@ == InstanceView::of(home@, name@),
{
    let base = joined(home, "Library/Application Support/GremVM");
    let identity = Identity::from_name(name);
    let (root, service_label, keychain_helper_label) = match &identity {
        Identity::Gremvm => (base, "io.gremvm.tart".to_owned(), "io.gremvm.keychain".to_owned()),
        Identity::Named(name) => (
            joined(joined(base.as_str(), "instances").as_str(), name.as_str()),
            "io.gremvm.tart.".to_owned().concat(name.as_str()),
            "io.gremvm.keychain.".to_owned().concat(name.as_str()),
        ),
    };
    let password_service = service_label.clone().concat(".gui-password");
    Instance { identity, root, service_label, keychain_helper_label, password_service }
}

} // verus!
