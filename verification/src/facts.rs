//! What the tools of the host report.

use vstd::prelude::*;

verus! {

/// How a process ended and what it wrote.
#[derive(Debug)]
pub struct Output {
    /// The exit code; none where a signal ended the process.
    pub code: Option<i32>,
    pub stdout: Vec<u8>,
    pub stderr: Vec<u8>,
}

impl View for Output {
    type V = Output;

    open spec fn view(&self) -> Output {
        *self
    }
}

impl Output {
    pub open spec fn succeeded(self) -> bool {
        self.code == Some(0i32)
    }

    pub fn success(&self) -> (yes: bool)
        ensures
            yes == self.succeeded(),
    {
        match self.code {
            Some(code) => code == 0,
            None => false,
        }
    }
}

#[derive(Clone, Copy, Debug, PartialEq, Eq, Structural)]
pub enum VmState {
    Running,
    Suspended,
    Stopped,
}

impl View for VmState {
    type V = VmState;

    open spec fn view(&self) -> VmState {
        *self
    }
}

/// What Tart reports of a VM.
#[derive(Debug)]
pub struct VmInfo {
    pub state: VmState,
    pub cpu: u32,
    /// In MiB.
    pub memory: u64,
    /// In decimal GB.
    pub disk: u64,
    pub os: String,
}

impl View for VmInfo {
    type V = VmInfo;

    open spec fn view(&self) -> VmInfo {
        *self
    }
}

/// What `diskutil` reports of a volume.
#[derive(Debug)]
pub struct VolumeInfo {
    pub file_vault: bool,
    pub filesystem_type: String,
    pub locked: bool,
    pub mount_point: Option<String>,
    pub volume_name: String,
    pub volume_uuid: String,
    pub writable_volume: bool,
}

impl View for VolumeInfo {
    type V = VolumeInfo;

    open spec fn view(&self) -> VolumeInfo {
        *self
    }
}

/// A user that can unlock an encrypted volume.
#[derive(Debug)]
pub struct CryptoUser {
    pub uuid: String,
}

/// One graphical session of the host.
#[derive(Debug)]
pub struct ConsoleSession {
    pub user_id: u32,
    pub on_console: bool,
    pub login_done: bool,
    pub screen_locked: bool,
}

/// The graphical sessions of the host.
#[derive(Debug)]
pub struct ConsoleInfo {
    pub locked: bool,
    pub users: Vec<ConsoleSession>,
}

impl View for ConsoleInfo {
    type V = ConsoleInfo;

    open spec fn view(&self) -> ConsoleInfo {
        *self
    }
}

/// What a path leads to, without following a symbolic link.
#[derive(Clone, Copy, Debug, PartialEq, Eq, Structural)]
pub enum LinkKind {
    Missing,
    Symlink,
    Directory,
    Other,
}

} // verus!
