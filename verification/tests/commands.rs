//! Commands on a simulated host.

use gremvm::app::App;
use gremvm::cli::{command_name, management_lock, run, run_installer, Action};
use gremvm::command::{Command, Input, Sink};
use gremvm::config::{Config, Storage, StoredConfig, StoredStorage, VolumeStorage};
use gremvm::error::Error;
use gremvm::facts::{
    ConsoleInfo, ConsoleSession, CryptoUser, LinkKind, Output, VmInfo, VmState, VolumeInfo,
};
use gremvm::files::existing_directory;
use gremvm::host::{Host, Paths};
use gremvm::options::InstallOptions;
use gremvm::session::{Halt, Reply, Request, Session};
use gremvm::tailscale::TailscaleAction;
use gremvm::unlock::{KeychainHelperMode, KeychainMode};
use gremvm::volume::{StorageAccess, VolumeKind, VOLUME_PASSWORD_SERVICE};
use std::collections::{BTreeMap, BTreeSet};

const HOME: &str = "/Users/me";
const BUNDLE: &str = "/nix/store/gremvm-bundle";
/// The target of a link that leads to a path that is not UTF-8.
const FOREIGN: &str = "(not UTF-8)";
const UUID: &str = "9DAE1DD8-1A6C-4D59-BB60-018B31AB722B";
const DIGEST: &str = "00112233445566778899aabbccddeeff00112233445566778899AABBCCDDEEFF";

// ------------------------------------------------------------ simulated host
#[derive(Clone)]
struct Saved {
    vm_name: String,
    guest_user: Option<String>,
    cpu_count: u32,
    memory_gb: u32,
    disk_gb: u64,
    storage: SavedStorage,
}

#[derive(Clone)]
enum SavedStorage {
    Default,
    Directory(String),
    Plain { path: String, mount_point: String, name: String, uuid: String },
    Encrypted { path: String, mount_point: String, name: String, uuid: String },
    Legacy { name: String, uuid: String },
}

fn saved(name: &str) -> Saved {
    Saved {
        vm_name: name.to_owned(),
        guest_user: None,
        cpu_count: 6,
        memory_gb: 24,
        disk_gb: 192,
        storage: SavedStorage::Default,
    }
}

fn saved_from(config: &Config) -> Saved {
    let volume = |volume: &VolumeStorage| {
        (
            volume.path.clone(),
            volume.mount_point.clone(),
            volume.name.clone(),
            volume.uuid.clone(),
        )
    };
    Saved {
        vm_name: config.vm_name.clone(),
        guest_user: Some(config.guest_user.clone()),
        cpu_count: config.cpu_count,
        memory_gb: config.memory_gb,
        disk_gb: config.disk_gb,
        storage: match &config.storage {
            Storage::Default => SavedStorage::Default,
            Storage::Directory { path } => SavedStorage::Directory(path.clone()),
            Storage::PlainVolume(record) => {
                let (path, mount_point, name, uuid) = volume(record);
                SavedStorage::Plain { path, mount_point, name, uuid }
            }
            Storage::EncryptedVolume(record) => {
                let (path, mount_point, name, uuid) = volume(record);
                SavedStorage::Encrypted { path, mount_point, name, uuid }
            }
        },
    }
}

impl Saved {
    fn stored(&self) -> StoredConfig {
        let volume = |path: &String, mount_point: &String, name: &String, uuid: &String| VolumeStorage {
            path: path.clone(),
            mount_point: mount_point.clone(),
            name: name.clone(),
            uuid: uuid.clone(),
        };
        StoredConfig {
            vm_name: self.vm_name.clone(),
            guest_user: self.guest_user.clone(),
            cpu_count: self.cpu_count,
            memory_gb: self.memory_gb,
            disk_gb: self.disk_gb,
            storage: match &self.storage {
                SavedStorage::Default => StoredStorage::Default,
                SavedStorage::Directory(path) => StoredStorage::Directory { path: path.clone() },
                SavedStorage::Plain { path, mount_point, name, uuid } => {
                    StoredStorage::PlainVolume(volume(path, mount_point, name, uuid))
                }
                SavedStorage::Encrypted { path, mount_point, name, uuid } => {
                    StoredStorage::EncryptedVolume(volume(path, mount_point, name, uuid))
                }
                SavedStorage::Legacy { name, uuid } => {
                    StoredStorage::LegacyVolume { name: name.clone(), uuid: uuid.clone() }
                }
            },
        }
    }
}

#[derive(Clone)]
struct Volume {
    file_vault: bool,
    locked: bool,
    mount_point: Option<String>,
    name: String,
    uuid: String,
    writable: bool,
    password: Vec<u8>,
}

struct World {
    host: Host,
    files: BTreeSet<String>,
    directories: BTreeSet<String>,
    links: BTreeMap<String, String>,
    texts: BTreeMap<String, String>,
    configs: BTreeMap<String, Saved>,
    parse_error: String,
    vms: BTreeMap<String, VmState>,
    hardware: (u32, u64, u64),
    services: BTreeSet<String>,
    staged: Option<String>,
    keychain: BTreeMap<(String, String), Vec<u8>>,
    keychain_unlocked: bool,
    background_unlocked: bool,
    terminal: bool,
    hidden: bool,
    typed: Vec<String>,
    volumes: BTreeMap<String, Volume>,
    devices: BTreeMap<String, String>,
    session_kind: String,
    console_locked: bool,
    lock_held: bool,
    clock: u64,
    child: Vec<Reply>,
    signals: u32,
    signal_while_open: bool,
    ssh_refusals: u32,
    tailscale: String,
    digest: String,
    ip: Option<String>,
    printed: Vec<String>,
    commands: Vec<Vec<String>>,
    environments: Vec<(String, Vec<(String, Option<String>)>)>,
    fed: Vec<(String, Vec<u8>)>,
    removed: Vec<String>,
    created: Vec<String>,
    slept: Vec<u64>,
    executed: Option<Vec<String>>,
    requests: Vec<String>,
    stop_fails: bool,
    stuck: bool,
    writable: bool,
}

fn world() -> World {
    let mut files = BTreeSet::new();
    for file in [
        "bin/gremvm",
        "bin/tart",
        "bin/packer",
        "share/gremvm/gremvm.pkr.hcl",
        "share/gremvm/configure-guest.sh",
        "share/gremvm/password.expect",
        "libexec/gremvm/tailscaled",
    ] {
        files.insert(format!("{BUNDLE}/{file}"));
    }
    let mut directories = BTreeSet::new();
    directories.insert(HOME.to_owned());
    directories.insert(format!("{BUNDLE}/libexec/packer/plugins/github.com/cirruslabs/tart"));
    World {
        host: Host {
            home: Some(HOME.to_owned()),
            search_path: Some(format!("/usr/bin:{HOME}/.local/bin/")),
            architecture: "aarch64".to_owned(),
            user_id: 501,
        },
        files,
        directories,
        links: BTreeMap::new(),
        texts: BTreeMap::new(),
        configs: BTreeMap::new(),
        parse_error: "expected value at line 1 column 1".to_owned(),
        vms: BTreeMap::new(),
        hardware: (6, 24576, 192),
        services: BTreeSet::new(),
        staged: None,
        keychain: BTreeMap::new(),
        keychain_unlocked: true,
        background_unlocked: true,
        terminal: true,
        hidden: false,
        typed: Vec::new(),
        volumes: BTreeMap::new(),
        devices: BTreeMap::new(),
        session_kind: "Aqua".to_owned(),
        console_locked: false,
        lock_held: false,
        clock: 1000,
        child: Vec::new(),
        signals: 0,
        signal_while_open: false,
        ssh_refusals: 0,
        tailscale: "connected\n100.64.0.7\n".to_owned(),
        digest: format!("{DIGEST}  tailscaled\n"),
        ip: Some("192.168.1.20".to_owned()),
        printed: Vec::new(),
        commands: Vec::new(),
        environments: Vec::new(),
        fed: Vec::new(),
        removed: Vec::new(),
        created: Vec::new(),
        slept: Vec::new(),
        executed: None,
        requests: Vec::new(),
        stop_fails: false,
        stuck: false,
        writable: true,
    }
}

fn ok(text: &str) -> Reply {
    Reply::Output(Output { code: Some(0), stdout: text.as_bytes().to_vec(), stderr: Vec::new() })
}

fn code(code: i32, text: &str) -> Reply {
    Reply::Output(Output {
        code: Some(code),
        stdout: Vec::new(),
        stderr: text.as_bytes().to_vec(),
    })
}

impl World {
    /// The path that a path leads to once the links in it are followed.
    fn resolved(&self, path: &str) -> String {
        for (link, target) in &self.links {
            if path == link {
                return self.resolved(target);
            }
            if let Some(rest) = path.strip_prefix(&format!("{link}/")) {
                return self.resolved(&format!("{target}/{rest}"));
            }
        }
        path.to_owned()
    }

    fn is_directory(&self, path: &str) -> bool {
        let path = self.resolved(path);
        path == "/"
            || self.directories.iter().any(|entry| {
                *entry == path || entry.starts_with(&format!("{path}/"))
            })
            || self.files.iter().any(|entry| entry.starts_with(&format!("{path}/")))
    }

    fn is_file(&self, path: &str) -> bool {
        let path = self.resolved(path);
        self.files.contains(&path)
            || self.configs.contains_key(&path)
            || self.texts.contains_key(&path)
    }

    fn install(&mut self, name: &str, settings: Saved, state: VmState) -> Paths {
        let paths = Paths::discover(name.to_owned(), &self.host).unwrap();
        self.links.insert(paths.runtime.clone(), BUNDLE.to_owned());
        self.links.insert(paths.command_link.clone(), paths.bin("gremvm"));
        self.files.insert(paths.provisioned.clone());
        self.files.insert(paths.service_plist.clone());
        self.files.insert(paths.ssh_key.clone());
        self.texts.insert(paths.public_key(), "ssh-ed25519 AAAA gremvm\n".to_owned());
        self.directories.insert(paths.state.clone());
        self.vms.insert(settings.vm_name.clone(), state);
        self.hardware =
            (settings.cpu_count, u64::from(settings.memory_gb) * 1024, settings.disk_gb);
        self.keychain.insert(
            ("admin".to_owned(), paths.password_service.clone()),
            b"correct horse".to_vec(),
        );
        self.configs.insert(paths.config_file.clone(), settings);
        paths
    }

    fn run_command(&mut self, command: &Command) -> Reply {
        let mut words = vec![command.program.clone()];
        words.extend(command.arguments.iter().cloned());
        self.commands.push(words);
        self.environments.push((
            command.program.clone(),
            command
                .environment
                .iter()
                .map(|variable| (variable.name.clone(), variable.value.clone()))
                .collect(),
        ));
        let bytes = match &command.input {
            Input::Bytes(bytes) => bytes.clone(),
            _ => Vec::new(),
        };
        self.fed.push((command.program.clone(), bytes.clone()));
        let arguments: Vec<&str> = command.arguments.iter().map(String::as_str).collect();
        match command.program.as_str() {
            "/bin/launchctl" => self.launchctl(&arguments),
            "/usr/bin/security" => self.security(&arguments, &bytes),
            "/usr/sbin/diskutil" => self.diskutil(&arguments, &bytes),
            "/bin/df" => {
                let device = self.devices.get(arguments[1]).cloned().unwrap_or("/dev/disk1".into());
                ok(&format!("Filesystem 512-blocks Used\n{device}  100 50\n"))
            }
            "/usr/bin/tty" => ok("/dev/ttys001\n"),
            "/usr/sbin/sysctl" => match arguments[1] {
                "hw.logicalcpu" => ok("10\n"),
                _ => ok("68719476736\n"),
            },
            "/sbin/ifconfig" => {
                assert_eq!(arguments, ["en0"]);
                ok("")
            }
            "nix-store" => {
                self.links.insert(arguments[3].to_owned(), arguments[1].to_owned());
                ok("")
            }
            "/usr/bin/ssh-keygen" => {
                let key = arguments[arguments.len() - 1].to_owned();
                self.texts.insert(format!("{key}.pub"), "ssh-ed25519 AAAA gremvm\n".to_owned());
                self.files.insert(key);
                ok("")
            }
            "/usr/bin/shasum" => ok(&self.digest.clone()),
            "/usr/sbin/ioreg" => ok("sessions"),
            "/usr/bin/open" => ok(""),
            "/usr/bin/ssh" => {
                let script = arguments[arguments.len() - 1];
                if script == "/usr/bin/true" && self.ssh_refusals > 0 {
                    self.ssh_refusals -= 1;
                    return code(255, "refused");
                }
                if script.contains("wait --timeout=1s") {
                    return ok(&self.tailscale.clone());
                }
                ok("")
            }
            program if program.ends_with("/bin/tart") => self.tart(&arguments),
            program if program.ends_with("/bin/packer") => {
                let name = self.variable("PKR_VAR_vm_name");
                let memory: u64 = self.variable("PKR_VAR_memory_gb").parse().unwrap();
                self.hardware = (
                    self.variable("PKR_VAR_cpu_count").parse().unwrap(),
                    memory * 1024,
                    self.variable("PKR_VAR_disk_size_gb").parse().unwrap(),
                );
                self.vms.insert(name, VmState::Stopped);
                ok("")
            }
            program => panic!("unexpected program: {program}"),
        }
    }

    /// A variable of the command that was run last.
    fn variable(&self, name: &str) -> String {
        let (_, environment) = self.environments.last().unwrap();
        let (_, value) = environment.iter().rev().find(|(key, _)| key == name).unwrap();
        value.clone().unwrap()
    }

    fn launchctl(&mut self, arguments: &[&str]) -> Reply {
        match arguments[0] {
            "print" if self.services.contains(arguments[1]) => ok(""),
            "print" => code(113, "not found"),
            "bootout" => {
                self.services.remove(arguments[1]);
                ok("")
            }
            "bootstrap" => {
                let plist = arguments[2].to_owned();
                if plist.ends_with("keychain.plist") {
                    let word = if self.background_unlocked { "unlocked\n" } else { "locked\n" };
                    let result = plist.replace("keychain.plist", "keychain.result");
                    self.texts.insert(result, word.to_owned());
                    self.services.insert("helper".to_owned());
                } else {
                    self.services.insert("user/501/io.gremvm.tart".to_owned());
                }
                ok("")
            }
            "kickstart" => {
                for state in self.vms.values_mut() {
                    *state = VmState::Running;
                }
                ok("")
            }
            "managername" => ok(&format!("{}\n", self.session_kind)),
            verb => panic!("unexpected launchctl: {verb}"),
        }
    }

    fn security(&mut self, arguments: &[&str], input: &[u8]) -> Reply {
        match arguments[0] {
            "show-keychain-info" => code(if self.keychain_unlocked { 0 } else { 36 }, ""),
            "find-generic-password" => {
                let key = (arguments[2].to_owned(), arguments[4].to_owned());
                match self.keychain.get(&key) {
                    Some(password) => {
                        let mut stdout = password.clone();
                        stdout.push(b'\n');
                        Reply::Output(Output { code: Some(0), stdout, stderr: Vec::new() })
                    }
                    None => code(44, "could not be found"),
                }
            }
            "-i" => {
                let line = String::from_utf8(input.to_vec()).unwrap();
                let words: Vec<&str> = line.split(' ').collect();
                assert_eq!(words[0], "add-generic-password");
                let password = hex::decode(words[7]).unwrap();
                self.keychain.insert((words[2].to_owned(), words[4].to_owned()), password);
                ok("")
            }
            verb => panic!("unexpected security: {verb}"),
        }
    }

    fn diskutil(&mut self, arguments: &[&str], input: &[u8]) -> Reply {
        match arguments[0] {
            "info" => ok(arguments[2]),
            "apfs" if arguments[1] == "listCryptoUsers" => {
                assert_eq!(arguments[2], "-plist");
                ok(arguments[3])
            }
            "apfs" => {
                assert_eq!(arguments[1], "unlockVolume");
                let volume = self.volumes.get_mut(arguments[2]).unwrap();
                let user_matches = !arguments.contains(&"-user") || arguments.contains(&"USER-2");
                if volume.password != input || !user_matches {
                    return code(1, "bad passphrase");
                }
                if !arguments.contains(&"-verify") {
                    volume.locked = false;
                }
                ok("")
            }
            "mount" => {
                let uuid = arguments[arguments.len() - 1];
                let volume = self.volumes.get_mut(uuid).unwrap();
                volume.mount_point = Some(if arguments.len() == 4 {
                    arguments[2].to_owned()
                } else {
                    format!("/Volumes/{}", volume.name)
                });
                let place = volume.mount_point.clone().unwrap();
                self.directories.insert(format!("{place}/gremvm"));
                ok("")
            }
            verb => panic!("unexpected diskutil: {verb}"),
        }
    }

    fn tart(&mut self, arguments: &[&str]) -> Reply {
        match arguments[0] {
            "list" => {
                let names: Vec<String> = self.vms.keys().cloned().collect();
                ok(&names.join("\n"))
            }
            "get" => {
                let state = match self.vms[arguments[1]] {
                    VmState::Running => "running",
                    VmState::Suspended => "suspended",
                    VmState::Stopped => "stopped",
                };
                let (cpu, memory, disk) = self.hardware;
                ok(&format!("{state} {cpu} {memory} {disk} darwin\n"))
            }
            "ip" => match &self.ip {
                Some(ip) => ok(&format!("{ip}\n")),
                None => code(1, "no address"),
            },
            "stop" => {
                if self.stop_fails {
                    return code(2, "cannot stop\n");
                }
                if !self.stuck {
                    self.vms.insert(arguments[1].to_owned(), VmState::Stopped);
                }
                ok("")
            }
            "suspend" => {
                if !self.stuck {
                    self.vms.insert(arguments[1].to_owned(), VmState::Suspended);
                }
                ok("")
            }
            "delete" => {
                self.vms.remove(arguments[1]);
                ok("")
            }
            verb => panic!("unexpected tart: {verb}"),
        }
    }

    fn volume_info(&self, bytes: &[u8]) -> Reply {
        let selector = String::from_utf8(bytes.to_vec()).unwrap();
        let uuid = match selector.as_str() {
            "/dev/disk1" => {
                return Reply::Volume(VolumeInfo {
                    file_vault: true,
                    filesystem_type: "apfs".to_owned(),
                    locked: false,
                    mount_point: Some("/System/Volumes/Data".to_owned()),
                    volume_name: "Data".to_owned(),
                    volume_uuid: "11111111-1111-1111-1111-111111111111".to_owned(),
                    writable_volume: true,
                })
            }
            "/dev/disk9" => UUID,
            uuid => uuid,
        };
        let volume = self.volumes[uuid].clone();
        Reply::Volume(VolumeInfo {
            file_vault: volume.file_vault,
            filesystem_type: "apfs".to_owned(),
            locked: volume.locked,
            mount_point: volume.mount_point,
            volume_name: volume.name,
            volume_uuid: volume.uuid,
            writable_volume: volume.writable,
        })
    }

    fn answer(&mut self, request: &Request) -> Reply {
        self.requests.push(format!("{request:?}"));
        match request {
            Request::Exists(path) => Reply::Flag(
                self.is_file(path) || self.is_directory(path) || self.links.contains_key(path),
            ),
            Request::IsFile(path) => Reply::Flag(self.is_file(path)),
            Request::IsDirectory(path) => Reply::Flag(self.is_directory(path)),
            Request::IsEmpty(path) => Reply::Flag(
                !self.directories.iter().any(|entry| entry.starts_with(&format!("{path}/"))),
            ),
            Request::FileMode(path) => {
                if self.is_file(path) {
                    Reply::Mode { file: true, mode: 0o100755 }
                } else {
                    Reply::Missing("No such file or directory (os error 2)".to_owned())
                }
            }
            Request::LinkKind(path) => Reply::Link(if self.links.contains_key(path) {
                LinkKind::Symlink
            } else if self.is_file(path) {
                LinkKind::Other
            } else if self.is_directory(path) {
                LinkKind::Directory
            } else {
                LinkKind::Missing
            }),
            Request::ReadLink(path) if self.links[path] == FOREIGN => {
                Reply::Foreign("path is not UTF-8: ?".to_owned())
            }
            Request::ReadLink(path) => Reply::Text(self.links[path].clone()),
            Request::Canonicalize(path) => Reply::Text(self.resolved(path)),
            Request::ProbeWritable(_) if self.writable => Reply::Done,
            Request::ProbeWritable(_) => {
                Reply::Failed("Permission denied (os error 13)".to_owned())
            }
            Request::ReadText(path) => match self.texts.get(path) {
                Some(text) => Reply::Text(text.clone()),
                None => Reply::Missing("No such file or directory (os error 2)".to_owned()),
            },
            Request::RemoveFile(path) => {
                self.removed.push(path.clone());
                self.texts.remove(path);
                let file = self.files.remove(path);
                let link = self.links.remove(path).is_some();
                if file || link {
                    Reply::Done
                } else {
                    Reply::Missing("No such file or directory (os error 2)".to_owned())
                }
            }
            Request::CreateDirectory(path) => {
                self.directories.insert(path.clone());
                Reply::Done
            }
            Request::CreateFile(path) => {
                self.created.push(path.clone());
                self.files.insert(path.clone());
                Reply::Done
            }
            Request::SetMode { .. } => Reply::Done,
            Request::CreateLink { target, link } => {
                self.links.insert(link.clone(), target.clone());
                Reply::Done
            }
            Request::Lock(_) => Reply::Flag(!self.lock_held),
            Request::PublishText { path, text, .. } => {
                self.texts.insert(path.clone(), text.clone());
                Reply::Done
            }
            Request::ReadConfig(path) => match self.configs.get(path) {
                Some(settings) => Reply::Config(settings.stored()),
                None => Reply::Failed(self.parse_error.clone()),
            },
            Request::PublishConfig { path, config, .. } => {
                self.configs.insert(path.clone(), saved_from(config));
                Reply::Done
            }
            Request::StagePlist { plist, .. } => {
                self.staged = Some(format!("{plist:?}"));
                Reply::Done
            }
            Request::PublishStaged(path) => {
                let staged = self.staged.take().unwrap();
                self.texts.insert(path.clone(), staged);
                Reply::Done
            }
            Request::OpenInput(_) => Reply::Done,
            Request::CurrentExecutable => Reply::Text(format!("{BUNDLE}/bin/gremvm-install")),
            Request::Run(command) => self.run_command(command),
            Request::Spawn(command) => {
                let mut words = vec![command.program.clone()];
                words.extend(command.arguments.iter().cloned());
                self.commands.push(words);
                if command.program == "/usr/bin/security" {
                    assert!(self.hidden);
                    self.keychain_unlocked = true;
                } else {
                    for state in self.vms.values_mut() {
                        *state = VmState::Suspended;
                    }
                }
                Reply::Done
            }
            Request::PollChild => {
                if self.signal_while_open {
                    self.signal_while_open = false;
                    self.signals = 1;
                }
                if self.child.is_empty() {
                    Reply::Exited { success: true, description: "exit status: 0".to_owned() }
                } else {
                    self.child.remove(0)
                }
            }
            Request::KillChild => {
                self.keychain_unlocked = false;
                Reply::Done
            }
            Request::Exec(command) => {
                let mut words = vec![command.program.clone()];
                words.extend(command.arguments.iter().cloned());
                self.executed = Some(words);
                Reply::Failed("No such file or directory (os error 2)".to_owned())
            }
            Request::WatchSignals | Request::UnwatchSignals => Reply::Done,
            Request::SignalPending => {
                let pending = self.signals > 0;
                self.signals = self.signals.saturating_sub(1);
                Reply::Flag(pending)
            }
            Request::Terminals => {
                Reply::Terminals { input: self.terminal, errors: self.terminal }
            }
            Request::HideInput(path) => {
                assert_eq!(path, "/dev/ttys001");
                self.hidden = true;
                Reply::Done
            }
            Request::RestoreInput => {
                self.hidden = false;
                Reply::Done
            }
            Request::PromptPassword(_) => Reply::Text(self.typed.remove(0)),
            Request::RandomBytes(count) => {
                Reply::Bytes(gremvm::password::random_bytes(*count).unwrap())
            }
            Request::Now => Reply::Instant(self.clock),
            Request::Sleep(time) => {
                self.slept.push(*time);
                self.clock += time;
                Reply::Done
            }
            Request::Print(line) => {
                self.printed.push(line.clone());
                Reply::Done
            }
            Request::DecodeVm(text) => {
                let words: Vec<&str> = text.split(' ').collect();
                Reply::Vm(VmInfo {
                    state: match words[0] {
                        "running" => VmState::Running,
                        "suspended" => VmState::Suspended,
                        _ => VmState::Stopped,
                    },
                    cpu: words[1].parse().unwrap(),
                    memory: words[2].parse().unwrap(),
                    disk: words[3].parse().unwrap(),
                    os: words[4].to_owned(),
                })
            }
            Request::DecodeVolume(bytes) => self.volume_info(bytes),
            Request::DecodeCryptoUsers(_) => Reply::CryptoUsers(vec![
                CryptoUser { uuid: "USER-1".to_owned() },
                CryptoUser { uuid: "USER-2".to_owned() },
            ]),
            Request::DecodeConsole(_) => Reply::Console(ConsoleInfo {
                locked: self.console_locked,
                users: vec![
                    ConsoleSession {
                        user_id: 502,
                        on_console: true,
                        login_done: true,
                        screen_locked: false,
                    },
                    ConsoleSession {
                        user_id: 501,
                        on_console: true,
                        login_done: true,
                        screen_locked: false,
                    },
                ],
            }),
        }
    }

    fn drive<T>(
        &mut self,
        procedure: impl Fn(&mut Session, &Host) -> Result<T, Halt>,
    ) -> Result<T, Error> {
        let host = Host {
            home: self.host.home.clone(),
            search_path: self.host.search_path.clone(),
            architecture: self.host.architecture.clone(),
            user_id: self.host.user_id,
        };
        let mut replies: Vec<Reply> = Vec::new();
        for _ in 0..20000 {
            let mut session = Session::new(&replies);
            match procedure(&mut session, &host) {
                Ok(value) => return Ok(value),
                Err(Halt::Failed(error)) => return Err(error),
                Err(Halt::Pending { keep, request }) => {
                    assert!(keep <= replies.len());
                    let reply = self.answer(&request);
                    replies.truncate(keep);
                    replies.push(reply);
                }
            }
        }
        panic!("the procedure does not end");
    }

    fn act(&mut self, name: &str, action: Action) -> Result<(), Error> {
        self.drive(|session, host| run(session, host, name.to_owned(), &action))
    }

    fn installs(&mut self, options: &InstallOptions) -> Result<(), Error> {
        self.drive(|session, host| run_installer(session, host, options))
    }

    fn ran(&self, words: &[&str]) -> bool {
        self.commands.iter().any(|command| {
            command.len() > words.len() && command[1..=words.len()] == *words
        })
    }

    fn asked(&self, text: &str) -> bool {
        self.requests.iter().any(|request| request.contains(text))
    }
}

fn options(name: &str) -> InstallOptions {
    InstallOptions {
        name: name.to_owned(),
        cpu_count: 6,
        memory_gb: 24,
        disk_gb: 192,
        guest_user: "admin".to_owned(),
        ask_password: false,
        storage: None,
    }
}

fn message(result: Result<(), Error>) -> String {
    result.unwrap_err().render()
}

fn encrypted(locked: bool) -> Volume {
    Volume {
        file_vault: true,
        locked,
        mount_point: None,
        name: "My Work".to_owned(),
        uuid: UUID.to_owned(),
        writable: true,
        password: b"volume password".to_vec(),
    }
}

fn encrypted_settings() -> Saved {
    Saved {
        storage: SavedStorage::Encrypted {
            path: "/Volumes/My Work/gremvm".to_owned(),
            mount_point: "/Volumes/My Work".to_owned(),
            name: "My Work".to_owned(),
            uuid: UUID.to_owned(),
        },
        ..saved("gremvm")
    }
}

// --------------------------------------------------------------- installation
#[test]
fn install_requires_an_explicit_start() {
    let mut world = world();
    let paths = Paths::discover("gremvm".to_owned(), &world.host).unwrap();
    world.files.insert(paths.run_marker.clone());
    world.installs(&options("gremvm")).unwrap();

    assert!(world.removed.contains(&paths.run_marker));
    assert!(!world.files.contains(&paths.run_marker));
    assert!(world.removed.contains(&paths.autoload_agent()));
    assert!(paths.service_plist.ends_with("state/service.plist"));
    assert!(world.texts.contains_key(&paths.service_plist));
    assert!(!world.ran(&["kickstart"]));
    assert!(!world.ran(&["bootstrap"]));
    assert!(!world.commands.iter().any(|command| command[0] == "/usr/bin/ssh"));
    assert_eq!(world.vms["gremvm"], VmState::Stopped);
    assert_eq!(
        world.printed,
        [
            "creating gremvm from the pinned macOS image...",
            "installed: /Users/me/.local/bin/gremvm",
            "VM: gremvm (stopped)",
            "next: gremvm start",
        ]
    );
}

#[test]
fn an_installation_sets_everything_up() {
    let mut world = world();
    let paths = Paths::discover("gremvm".to_owned(), &world.host).unwrap();
    world.installs(&options("gremvm")).unwrap();

    assert_eq!(world.links[&paths.runtime], BUNDLE);
    assert_eq!(world.links[&paths.command_link], paths.bin("gremvm"));
    assert!(world.files.contains(&paths.provisioned));
    assert!(!world.files.contains(&paths.installing));
    assert_eq!(world.created, [paths.installing.clone(), paths.provisioned.clone()]);
    assert_eq!(world.configs[&paths.config_file].vm_name, "gremvm");
    let password =
        &world.keychain[&("admin".to_owned(), "io.gremvm.tart.gui-password".to_owned())];
    assert_eq!(password.len(), 48);
    assert!(password.iter().all(|byte| byte.is_ascii_hexdigit()));
    let (_, environment) = world
        .environments
        .iter()
        .find(|(program, _)| program.ends_with("/bin/packer"))
        .unwrap();
    assert_eq!(environment[0], ("TART_HOME".to_owned(), None));
    let value = |name: &str| {
        environment.iter().find(|(key, _)| key == name).unwrap().1.clone().unwrap()
    };
    assert_eq!(value("PATH"), format!("{}/bin:/usr/bin:/bin:/usr/sbin:/sbin", paths.runtime));
    assert_eq!(value("PKR_VAR_guest_password").as_bytes(), password.as_slice());
    assert_eq!(value("PKR_VAR_ssh_public_key"), "ssh-ed25519 AAAA gremvm");
    assert_eq!(value("PKR_VAR_disk_size_gb"), "192");
    assert!(!world.commands.iter().flatten().any(|word| word.as_bytes() == password.as_slice()));
}

#[test]
fn installing_again_keeps_the_credentials() {
    let mut world = world();
    let paths = Paths::discover("gremvm".to_owned(), &world.host).unwrap();
    world.installs(&options("gremvm")).unwrap();
    let before = world.keychain.clone();
    world.commands.clear();
    world.requests.clear();
    world.installs(&options("gremvm")).unwrap();
    assert_eq!(world.keychain, before);
    assert!(!world.ran(&["-q"]));
    assert!(!world.asked("RandomBytes"));
    assert!(!world.ran(&["build"]));
    assert_eq!(world.links[&paths.runtime], BUNDLE);
}

#[test]
fn an_existing_vm_gets_no_new_credentials() {
    let mut world = world();
    let paths = world.install("gremvm", saved("gremvm"), VmState::Stopped);
    world.files.remove(&paths.ssh_key);
    world.texts.remove(&paths.public_key());
    assert_eq!(
        message(world.installs(&options("gremvm"))),
        "the SSH key is missing and cannot be regenerated for an existing VM"
    );
    world.files.insert(paths.ssh_key.clone());
    assert_eq!(message(world.installs(&options("gremvm"))), "SSH key is incomplete");
    world.files.insert(paths.public_key());
    world.keychain.clear();
    assert_eq!(
        message(world.installs(&options("gremvm"))),
        "the guest password is missing from Keychain and cannot be regenerated for an existing VM"
    );
}

#[test]
fn different_settings_are_refused() {
    let mut world = world();
    let paths = world.install("gremvm", saved("gremvm"), VmState::Stopped);
    let mut wanted = options("gremvm");
    wanted.cpu_count = 8;
    assert_eq!(
        message(world.installs(&wanted)),
        format!("install settings differ from the saved configuration at {}", paths.config_file)
    );
    assert!(!world.commands.iter().any(|command| command[0] == "nix-store"));
}

#[test]
fn an_interrupted_installation_is_repeated() {
    let mut world = world();
    let paths = world.install("gremvm", saved("gremvm"), VmState::Running);
    world.files.remove(&paths.provisioned);
    world.files.insert(paths.installing.clone());
    world.installs(&options("gremvm")).unwrap();
    assert!(world.printed.contains(&"removing incomplete VM before retrying...".to_owned()));
    assert!(world.ran(&["stop", "gremvm", "--timeout", "30"]));
    assert!(world.ran(&["delete", "gremvm"]));
    assert!(world.ran(&["build", "-color=false"]));
    assert!(world.files.contains(&paths.provisioned));
}

#[test]
fn a_foreign_vm_is_left_alone() {
    let mut world = world();
    world.vms.insert("gremvm".to_owned(), VmState::Running);
    assert_eq!(
        message(world.installs(&options("gremvm"))),
        "a VM named 'gremvm' exists but was not created by GremVM; rename or remove it before rerunning 'nix run github:jul-sh/gremvm -- install gremvm'"
    );
    assert_eq!(world.vms["gremvm"], VmState::Running);
    assert!(!world.ran(&["delete"]));
    assert!(!world.ran(&["stop"]));
}

#[test]
fn an_unfit_host_is_refused() {
    let mut world = world();
    world.host.architecture = "x86_64".to_owned();
    assert_eq!(message(world.installs(&options("gremvm"))), "Tart requires Apple silicon");
    world.host.architecture = "aarch64".to_owned();
    let mut wanted = options("gremvm");
    wanted.cpu_count = 11;
    assert_eq!(message(world.installs(&wanted)), "requested CPU count exceeds the host");
    wanted.cpu_count = 10;
    wanted.memory_gb = 64;
    assert_eq!(message(world.installs(&wanted)), "requested memory exceeds the host");
    wanted.memory_gb = 63;
    world.host.search_path = Some("/usr/bin".to_owned());
    assert_eq!(message(world.installs(&wanted)), "/Users/me/.local/bin must be in PATH");
    world.host.search_path = None;
    assert_eq!(message(world.installs(&wanted)), "/Users/me/.local/bin must be in PATH");
}

#[test]
fn nothing_foreign_is_replaced() {
    let mut world = world();
    let paths = Paths::discover("gremvm".to_owned(), &world.host).unwrap();
    world.links.insert(paths.command_link.clone(), "/elsewhere".to_owned());
    assert_eq!(
        message(world.installs(&options("gremvm"))),
        "refusing to replace command link: /Users/me/.local/bin/gremvm"
    );
    world.links.remove(&paths.command_link);
    world.files.insert(paths.command_link.clone());
    assert_eq!(
        message(world.installs(&options("gremvm"))),
        "refusing to replace command path: /Users/me/.local/bin/gremvm"
    );
    world.files.remove(&paths.command_link);
    world.links.remove(&paths.runtime);
    world.directories.insert(paths.runtime.clone());
    assert_eq!(
        message(world.installs(&options("gremvm"))),
        format!("refusing to replace runtime directory: {}", paths.runtime)
    );
}

#[test]
fn an_incomplete_bundle_is_refused() {
    let mut world = world();
    world.files.remove(&format!("{BUNDLE}/libexec/gremvm/tailscaled"));
    assert_eq!(
        message(world.installs(&options("gremvm"))),
        "packaged file is missing: libexec/gremvm/tailscaled"
    );
}

#[test]
fn a_chosen_password_is_asked_for_twice() {
    let mut world = world();
    let mut wanted = options("gremvm");
    wanted.ask_password = true;
    world.typed = vec!["short".to_owned()];
    assert_eq!(message(world.installs(&wanted)), "guest password must be 8-128 characters");
    world.typed = vec!["long enough".to_owned(), "other one".to_owned()];
    assert_eq!(message(world.installs(&wanted)), "guest passwords do not match");
    world.typed = vec![String::new()];
    assert_eq!(message(world.installs(&wanted)), "password must not be empty");
    world.typed = vec!["with\ttab".to_owned()];
    assert_eq!(message(world.installs(&wanted)), "password must not contain control characters");
    world.typed = vec!["long enough".to_owned(), "long enough".to_owned()];
    world.installs(&wanted).unwrap();
    assert_eq!(
        world.keychain[&("admin".to_owned(), "io.gremvm.tart.gui-password".to_owned())],
        b"long enough"
    );
}

#[test]
fn install_accepts_large_disks_and_explicit_storage() {
    let mut world = world();
    world.lock_held = true;
    let mut wanted = options("gremvm");
    wanted.disk_gb = 5_000_000_000;
    wanted.guest_user = "build_user".to_owned();
    wanted.ask_password = true;
    wanted.storage = Some("/Users/me/vms".to_owned());
    assert!(message(world.installs(&wanted))
        .contains("another gremvm management command is running"));

    world.lock_held = false;
    world.directories.insert("/Users/me/vms".to_owned());
    world.typed = vec!["long enough".to_owned(), "long enough".to_owned()];
    world.installs(&wanted).unwrap();
    let paths = Paths::discover("gremvm".to_owned(), &world.host).unwrap();
    let settings = &world.configs[&paths.config_file];
    assert_eq!(settings.disk_gb, 5_000_000_000);
    assert_eq!(settings.guest_user.as_deref(), Some("build_user"));
    assert!(matches!(&settings.storage, SavedStorage::Directory(path) if path == "/Users/me/vms"));
}

#[test]
fn storage_on_another_volume_is_recorded_with_it() {
    let mut world = world();
    let mut volume = encrypted(false);
    volume.mount_point = Some("/Volumes/My Work".to_owned());
    world.volumes.insert(UUID.to_owned(), volume);
    world.devices.insert("/Volumes/My Work/gremvm".to_owned(), "/dev/disk9".to_owned());
    world.directories.insert("/Volumes/My Work/gremvm".to_owned());
    world
        .keychain
        .insert((UUID.to_owned(), VOLUME_PASSWORD_SERVICE.to_owned()), b"volume password".to_vec());
    let mut wanted = options("gremvm");
    wanted.storage = Some("/Volumes/My Work/gremvm".to_owned());
    world.installs(&wanted).unwrap();
    let paths = Paths::discover("gremvm".to_owned(), &world.host).unwrap();
    match &world.configs[&paths.config_file].storage {
        SavedStorage::Encrypted { path, mount_point, name, uuid } => {
            assert_eq!(path, "/Volumes/My Work/gremvm");
            assert_eq!(mount_point, "/Volumes/My Work");
            assert_eq!(name, "My Work");
            assert_eq!(uuid, UUID);
        }
        _ => panic!("the volume is not recorded"),
    }
    world.volumes.get_mut(UUID).unwrap().mount_point = None;
    assert_eq!(message(world.installs(&wanted)), "storage volume is not mounted");
}

#[test]
fn install_rejects_invalid_settings() {
    let rejected = gremvm::names::valid_name("../escape").unwrap_err();
    assert!(rejected.contains("name must be"));
    let rejected = gremvm::names::valid_user("Admin").unwrap_err();
    assert!(rejected.contains("guest user must be"));
    let rejected = gremvm::names::valid_user("root").unwrap_err();
    assert!(rejected.contains("reserved account"));

    let mut world = world();
    assert!(message(world.installs(&options("../escape"))).contains("name must be"));
    let error = world
        .drive(|session, _| existing_directory(session, "relative/path"))
        .unwrap_err();
    assert!(error.render().contains("storage directory must be absolute"));
    let error = world
        .drive(|session, _| existing_directory(session, "/Users/me/missing"))
        .unwrap_err();
    assert!(error.render().contains("storage directory does not exist"));

    let mut small = saved("gremvm");
    small.disk_gb = 49;
    world.install("gremvm", small, VmState::Stopped);
    assert_eq!(
        message(world.act("gremvm", Action::Logs { follow: false })),
        "persisted configuration is invalid: invalid disk size"
    );
}

#[test]
fn an_unwritable_directory_is_named_without_its_cause() {
    let mut world = world();
    world.directories.insert("/Users/me/vms".to_owned());
    assert_eq!(
        world.drive(|session, _| existing_directory(session, "/Users/me/vms")).unwrap(),
        "/Users/me/vms"
    );
    world.writable = false;
    let error =
        world.drive(|session, _| existing_directory(session, "/Users/me/vms")).unwrap_err();
    assert_eq!(error.render(), "storage directory is not writable: /Users/me/vms");
}

// ---------------------------------------------------------------------- locks
#[test]
fn management_commands_are_serialized() {
    let mut world = world();
    world.lock_held = true;
    assert!(message(world.installs(&options("gremvm")))
        .contains("another gremvm management command is running"));
    for action in [
        Action::Start,
        Action::Stop,
        Action::Restart,
        Action::Console,
        Action::Uninstall,
        Action::Tailscale { action: TailscaleAction::Setup },
    ] {
        assert_eq!(
            message(world.act("gremvm", action)),
            "another gremvm management command is running"
        );
    }
    world.install("gremvm", saved("gremvm"), VmState::Stopped);
    world.act("gremvm", Action::Status).unwrap();
}

#[test]
fn named_install_uses_its_own_management_lock() {
    let mut world = world();
    world.lock_held = true;
    assert!(message(world.installs(&options("foovm")))
        .contains("another foovm management command is running"));
    assert!(world.asked(
        "Lock(\"/Users/me/Library/Application Support/GremVM/instances/foovm/state/management.lock\")"
    ));
    let gremvm = Paths::discover("gremvm".to_owned(), &world.host).unwrap();
    world.drive(|session, _| management_lock(session, &gremvm)).unwrap_err();
    assert!(world
        .asked("Lock(\"/Users/me/Library/Application Support/GremVM/state/management.lock\")"));
}

// ------------------------------------------------------------------- settings
#[test]
fn malformed_configuration_has_a_clear_error() {
    let mut world = world();
    let paths = world.install("gremvm", saved("gremvm"), VmState::Stopped);
    world.configs.remove(&paths.config_file);
    world.files.insert(paths.config_file.clone());
    let rendered = message(world.act("gremvm", Action::Start));
    assert!(rendered.contains("persisted configuration is invalid"));
    assert!(rendered.ends_with("expected value at line 1 column 1"));
    world.files.remove(&paths.config_file);
    assert_eq!(
        message(world.act("gremvm", Action::Start)),
        "configuration is missing; run 'nix run github:jul-sh/gremvm -- install gremvm'"
    );
}

#[test]
fn volume_configuration_is_strict_but_loads_the_legacy_shape() {
    let mut world = world();
    let mut settings = saved("gremvm");
    settings.storage =
        SavedStorage::Legacy { name: "GremVM".to_owned(), uuid: UUID.to_owned() };
    let paths = world.install("gremvm", settings.clone(), VmState::Stopped);
    let config = world.drive(|session, _| Config::load(session, &paths)).unwrap();
    match config.storage {
        Storage::EncryptedVolume(volume) => {
            assert_eq!(volume.path, "/Volumes/GremVM");
            assert_eq!(volume.mount_point, "/Volumes/GremVM");
            assert_eq!(volume.uuid, UUID);
        }
        _ => panic!("the volume is not encrypted"),
    }
    assert_eq!(config.guest_user, "admin");

    let plain = |mount_point: &str, uuid: &str| SavedStorage::Plain {
        path: "/Volumes/My Work/gremvm".to_owned(),
        mount_point: mount_point.to_owned(),
        name: "My Work".to_owned(),
        uuid: uuid.to_owned(),
    };
    let mut load = |storage: SavedStorage| {
        settings.storage = storage;
        world.configs.insert(paths.config_file.clone(), settings.clone());
        message(world.act("gremvm", Action::Logs { follow: false }))
    };
    assert!(load(plain("/Volumes/My Work", UUID)).starts_with("cannot execute tail"));
    assert_eq!(
        load(plain("/Volumes/Other", UUID)),
        "persisted configuration is invalid: VM storage directory is outside its recorded volume: /Volumes/My Work/gremvm"
    );
    assert_eq!(
        load(plain("/", UUID)),
        "persisted configuration is invalid: invalid VM storage mount point"
    );
    assert_eq!(
        load(plain("/Volumes/My Work", "9DAE1DD8")),
        "persisted configuration is invalid: invalid VM storage volume UUID"
    );
    assert_eq!(
        load(SavedStorage::Directory("vms".to_owned())),
        "persisted configuration is invalid: storage directory must be absolute"
    );
    world.configs.remove(&paths.config_file);
    world.files.insert(paths.config_file.clone());
    world.parse_error = "missing field `mount_point`".to_owned();
    assert_eq!(
        message(world.act("gremvm", Action::Logs { follow: false })),
        "persisted configuration is invalid: missing field `mount_point`"
    );
}

#[test]
fn a_command_cannot_select_another_vms_configuration() {
    let mut world = world();
    world.install("foovm", saved("barvm"), VmState::Stopped);
    assert!(message(world.act("foovm", Action::Start))
        .contains("configuration belongs to command 'barvm', not 'foovm'"));
}

#[test]
fn the_original_command_preserves_legacy_custom_vm_names() {
    let mut world = world();
    world.install("gremvm", saved("oldvm"), VmState::Stopped);
    world.act("gremvm", Action::Status).unwrap();
    assert!(world.printed.contains(&"state: stopped".to_owned()));
    assert!(world.printed.contains(&"name: oldvm".to_owned()));
    world.installs(&options("gremvm")).unwrap();
    assert!(world.printed.contains(&"VM: oldvm (stopped)".to_owned()));
}

// --------------------------------------------------------------------- status
#[test]
fn an_empty_home_reports_not_installed() {
    let mut world = world();
    world.act("gremvm", Action::Status).unwrap();
    assert_eq!(world.printed, ["state: not-installed"]);
}

#[test]
fn default_storage_uses_tarts_normal_home() {
    let mut world = world();
    world.install("gremvm", saved("gremvm"), VmState::Stopped);
    world.vms.clear();
    world.act("gremvm", Action::Status).unwrap();
    assert_eq!(world.printed, ["state: incomplete"]);
    let tart: Vec<_> =
        world.environments.iter().filter(|(program, _)| program.ends_with("/tart")).collect();
    assert_eq!(tart.len(), 1);
    assert_eq!(tart[0].1, [("TART_HOME".to_owned(), None)]);
    assert!(message(world.act("gremvm", Action::ScreenShare)).contains(
        "VM does not exist; rerun 'nix run github:jul-sh/gremvm -- install gremvm'"
    ));
}

#[test]
fn explicit_storage_uses_the_exact_directory() {
    let mut world = world();
    let mut settings = saved("gremvm");
    settings.guest_user = Some("build_user".to_owned());
    settings.disk_gb = 5_000_000_000;
    settings.storage = SavedStorage::Directory("/Users/me/vms".to_owned());
    world.install("gremvm", settings, VmState::Stopped);
    world.directories.insert("/Users/me/vms".to_owned());
    world.vms.clear();
    world.act("gremvm", Action::Status).unwrap();
    assert_eq!(world.printed, ["state: incomplete"]);
    for (program, environment) in &world.environments {
        if program.ends_with("/tart") {
            assert_eq!(
                *environment,
                [("TART_HOME".to_owned(), Some("/Users/me/vms".to_owned()))]
            );
        }
    }
    world.links.insert("/Users/me/vms".to_owned(), "/Users/me/moved".to_owned());
    world.directories.insert("/Users/me/moved".to_owned());
    assert_eq!(
        message(world.act("gremvm", Action::Status)),
        "VM storage directory changed identity: /Users/me/vms"
    );
}

#[test]
fn command_names_select_isolated_vms() {
    let mut world = world();
    let mut settings = saved("gremvm");
    settings.memory_gb = 8;
    let gremvm = world.install("gremvm", settings, VmState::Stopped);
    world.act("gremvm", Action::Status).unwrap();
    for line in ["state: stopped", "name: gremvm", "cpu: 6", "memory-gb: 8", "disk-gb: 192"] {
        assert!(world.printed.contains(&line.to_owned()));
    }
    let mut settings = saved("foovm");
    settings.cpu_count = 4;
    settings.memory_gb = 8;
    settings.disk_gb = 96;
    let foovm = world.install("foovm", settings, VmState::Stopped);
    world.files.insert(foovm.run_marker.clone());
    world.printed.clear();
    world.act("foovm", Action::Status).unwrap();
    for line in [
        "state: stopped",
        "name: foovm",
        "cpu: 4",
        "memory-gb: 8",
        "disk-gb: 96",
        "network: bridged:en0",
    ] {
        assert!(world.printed.contains(&line.to_owned()));
    }
    assert!(message(world.act("foovm", Action::ScreenShare))
        .contains("VM is not running; run 'foovm start'"));
    world.act("foovm", Action::InternalKeychain { mode: KeychainHelperMode::Check }).unwrap();
    assert!(world.texts.contains_key(&format!("{}/keychain.result", foovm.state)));
    assert!(!world.texts.contains_key(&format!("{}/keychain.result", gremvm.state)));
}

#[test]
fn suspended_vm_status_is_reported() {
    let mut world = world();
    world.install("gremvm", saved("gremvm"), VmState::Suspended);
    world.act("gremvm", Action::Status).unwrap();
    assert!(world.printed.contains(&"state: suspended".to_owned()));
    assert!(message(world.act("gremvm", Action::ScreenShare))
        .contains("VM is not running; run 'gremvm start'"));
    assert!(message(world.act("gremvm", Action::Tailscale { action: TailscaleAction::Status }))
        .contains("VM is not running; run 'gremvm start'"));
}

#[test]
fn every_state_has_a_word() {
    let mut world = world();
    let paths = world.install("gremvm", saved("gremvm"), VmState::Running);
    let mut state = |change: &dyn Fn(&mut World)| {
        change(&mut world);
        world.printed.clear();
        world.act("gremvm", Action::Status).unwrap();
        world.printed.clone()
    };
    let printed = state(&|_| {});
    assert_eq!(printed[0], "state: running");
    assert_eq!(printed[1], "ip: 192.168.1.20");
    let printed = state(&|world| world.ip = None);
    assert_eq!(printed[0], "state: running-address-unknown");
    assert_eq!(printed[1], "name: gremvm");
    let marker = paths.run_marker.clone();
    let printed = state(&|world| {
        world.files.insert(marker.clone());
        world.services.insert("user/501/io.gremvm.tart".to_owned());
        world.vms.insert("gremvm".to_owned(), VmState::Stopped);
    });
    assert_eq!(printed[0], "state: starting");
    let printed = state(&|world| {
        world.vms.insert("gremvm".to_owned(), VmState::Suspended);
    });
    assert_eq!(printed[0], "state: starting");
    let provisioned = paths.provisioned.clone();
    let printed = state(&|world| {
        world.files.remove(&provisioned);
    });
    assert_eq!(printed[0], "state: incomplete");
    assert_eq!(printed.len(), 6);
}

// ---------------------------------------------------------------- start, stop
#[test]
fn starting_marks_the_vm_and_waits_for_ssh() {
    let mut world = world();
    let paths = world.install("gremvm", saved("gremvm"), VmState::Stopped);
    world.ssh_refusals = 3;
    world.act("gremvm", Action::Start).unwrap();
    assert_eq!(world.created, [paths.run_marker.clone()]);
    assert!(world.ran(&["bootstrap", "user/501", &paths.service_plist]));
    assert!(world.ran(&["kickstart", "user/501/io.gremvm.tart"]));
    assert!(world.ran(&["ip", "gremvm", "--wait", "300", "--resolver", "arp"]));
    assert_eq!(world.slept, [2000, 2000, 2000]);
    assert_eq!(world.printed, ["running: admin@192.168.1.20"]);
}

#[test]
fn ssh_that_never_answers_is_given_up() {
    let mut world = world();
    world.install("gremvm", saved("gremvm"), VmState::Stopped);
    world.ssh_refusals = 1000;
    assert_eq!(
        message(world.act("gremvm", Action::Start)),
        "SSH did not become ready at 192.168.1.20"
    );
    assert_eq!(world.slept.len(), 60);
}

#[test]
fn a_vm_that_differs_is_not_started() {
    let mut world = world();
    world.install("gremvm", saved("gremvm"), VmState::Stopped);
    for (hardware, expected) in [
        ((5, 24576, 192), "VM CPU count differs from configuration"),
        ((6, 24, 192), "VM memory differs from configuration"),
        ((6, 24576, 193), "VM disk differs from configuration"),
    ] {
        world.hardware = hardware;
        assert_eq!(message(world.act("gremvm", Action::Start)), expected);
    }
    assert!(world.created.is_empty());
}

#[test]
fn an_uninstalled_vm_is_not_started() {
    let mut world = world();
    let paths = world.install("gremvm", saved("gremvm"), VmState::Stopped);
    world.files.remove(&paths.service_plist);
    assert_eq!(
        message(world.act("gremvm", Action::Start)),
        "run 'nix run github:jul-sh/gremvm -- install gremvm' first"
    );
    world.files.insert(paths.service_plist.clone());
    world.files.remove(&paths.provisioned);
    assert_eq!(
        message(world.act("gremvm", Action::Start)),
        "VM installation is incomplete; rerun 'nix run github:jul-sh/gremvm -- install gremvm'"
    );
}

#[test]
fn stopping_removes_the_marker_first() {
    let mut world = world();
    let paths = world.install("gremvm", saved("gremvm"), VmState::Running);
    world.files.insert(paths.run_marker.clone());
    world.services.insert("user/501/io.gremvm.tart".to_owned());
    world.act("gremvm", Action::Stop).unwrap();
    assert!(!world.files.contains(&paths.run_marker));
    assert!(world.services.is_empty());
    assert_eq!(world.vms["gremvm"], VmState::Stopped);
    assert_eq!(world.printed, ["stopped"]);
    let position = |text: &str| {
        world.requests.iter().position(|request| request.contains(text)).unwrap()
    };
    assert!(position(&format!("RemoveFile(\"{}\")", paths.run_marker)) < position("\"stop\""));
}

#[test]
fn a_vm_that_does_not_stop_is_reported() {
    let mut world = world();
    world.install("gremvm", saved("gremvm"), VmState::Running);
    world.stuck = true;
    assert_eq!(message(world.act("gremvm", Action::Stop)), "the VM did not stop");
    world.stop_fails = true;
    assert_eq!(
        message(world.act("gremvm", Action::Stop)),
        "failed to stop the VM: cannot stop"
    );
}

#[test]
fn stopping_works_without_storage() {
    let mut world = world();
    let mut settings = saved("gremvm");
    settings.storage = SavedStorage::Directory("/Volumes/Gone/vms".to_owned());
    world.install("gremvm", settings, VmState::Running);
    world.services.insert("user/501/io.gremvm.tart".to_owned());
    world.act("gremvm", Action::Stop).unwrap();
    assert!(world.services.is_empty());
    assert!(!world.ran(&["list"]));
}

#[test]
fn restarting_checks_before_it_stops() {
    let mut world = world();
    let paths = world.install("gremvm", saved("gremvm"), VmState::Running);
    world.hardware.0 = 7;
    assert_eq!(
        message(world.act("gremvm", Action::Restart)),
        "VM CPU count differs from configuration"
    );
    assert!(!world.ran(&["stop"]));
    world.hardware.0 = 6;
    world.act("gremvm", Action::Restart).unwrap();
    assert_eq!(world.printed, ["stopped", "running: admin@192.168.1.20"]);
    assert!(world.files.contains(&paths.run_marker));
}

#[test]
fn uninstall_deletes_only_the_selected_vm_data() {
    let mut world = world();
    let paths = world.install("testvm7", saved("testvm7"), VmState::Stopped);
    world.vms.insert("unrelated".to_owned(), VmState::Running);
    world.files.insert(paths.autoload_agent());
    world.act("testvm7", Action::Uninstall).unwrap();

    assert_eq!(world.printed, ["uninstalled: testvm7"]);
    assert!(!world.vms.contains_key("testvm7"));
    assert_eq!(world.vms["unrelated"], VmState::Running);
    assert!(!world.links.contains_key(&paths.runtime));
    assert!(!world.links.contains_key(&paths.command_link));
    assert!(!world.files.contains(&paths.service_plist));
    assert!(!world.files.contains(&paths.autoload_agent()));
    assert!(world.configs.contains_key(&paths.config_file));
    assert!(world.files.contains(&paths.ssh_key));
    assert!(!world.keychain.is_empty());
    assert!(world.ran(&["delete", "testvm7"]));
    assert_eq!(
        world.removed,
        [
            format!("{}/keychain.plist", paths.state),
            format!("{}/keychain.result", paths.state),
            paths.run_marker.clone(),
            paths.service_plist.clone(),
            paths.autoload_agent(),
            paths.command_link.clone(),
            paths.runtime.clone(),
        ]
    );
}

#[test]
fn uninstalling_keeps_a_foreign_command() {
    let mut world = world();
    let paths = world.install("gremvm", saved("gremvm"), VmState::Stopped);
    world.links.insert(paths.command_link.clone(), "/elsewhere".to_owned());
    world.act("gremvm", Action::Uninstall).unwrap();
    assert_eq!(world.links[&paths.command_link], "/elsewhere");
}

#[test]
fn links_need_not_be_text() {
    let mut world = world();
    let paths = world.install("gremvm", saved("gremvm"), VmState::Stopped);
    world.links.insert(paths.command_link.clone(), FOREIGN.to_owned());
    assert_eq!(
        message(world.installs(&options("gremvm"))),
        format!("refusing to replace command link: {}", paths.command_link)
    );
    world.act("gremvm", Action::Uninstall).unwrap();
    assert_eq!(world.links[&paths.command_link], FOREIGN);
    assert!(world.printed.contains(&"uninstalled: gremvm".to_owned()));
}

#[test]
fn only_the_desktop_needs_a_graphical_login() {
    let mut world = world();
    world.session_kind = "Background".to_owned();
    world.installs(&options("gremvm")).unwrap();
    world.act("gremvm", Action::Start).unwrap();
    world.act("gremvm", Action::Status).unwrap();
    world.act("gremvm", Action::Restart).unwrap();
    assert!(message(world.act("gremvm", Action::Ssh { command: Vec::new() }))
        .starts_with("cannot execute ssh"));
    assert!(message(world.act("gremvm", Action::Logs { follow: false }))
        .starts_with("cannot execute tail"));
    world.act("gremvm", Action::Tailscale { action: TailscaleAction::Status }).unwrap();
    world.act("gremvm", Action::Stop).unwrap();
    assert!(!world.commands.iter().any(|command| command[1..] == ["managername".to_owned()]));
    assert_eq!(
        message(world.act("gremvm", Action::Console)),
        "gremvm console requires an active graphical host session"
    );
    world.act("gremvm", Action::Start).unwrap();
    assert_eq!(
        message(world.act("gremvm", Action::ScreenShare)),
        "gremvm screen-share requires an active graphical host session"
    );
    assert!(world.commands.iter().any(|command| command[1..] == ["managername".to_owned()]));
}

// ------------------------------------------------------------- runs, console
#[test]
fn background_and_console_runs_are_suspendable() {
    let mut world = world();
    let paths = world.install("gremvm", saved("gremvm"), VmState::Stopped);
    world.files.insert(paths.run_marker.clone());
    world.services.insert("user/501/io.gremvm.tart".to_owned());
    let error = message(world.act("gremvm", Action::InternalRun));
    assert_eq!(error, "cannot execute Tart: No such file or directory (os error 2)");
    let executed = world.executed.take().unwrap();
    assert_eq!(
        executed[1..],
        ["run", "--no-graphics", "--suspendable", "--net-bridged=en0", "gremvm"]
    );

    world.act("gremvm", Action::Console).unwrap();
    let console =
        world.commands.iter().find(|command| command[0] == "/usr/bin/caffeinate").unwrap();
    assert_eq!(
        console[1..],
        [
            "-disu",
            &paths.bin("tart"),
            "run",
            "--suspendable",
            "--net-bridged=en0",
            "gremvm",
        ]
    );
    let suspendable = executed
        .iter()
        .chain(world.commands.iter().flatten())
        .filter(|word| *word == "--suspendable")
        .count();
    assert_eq!(suspendable, 2);
    assert!(world.ran(&["suspend", "gremvm"]));
    let printed = world.printed.join("\n");
    assert!(printed.contains("starting the background VM before opening the console"));
    assert!(printed.contains("saving VM state; this can take several minutes"));
    assert!(printed.contains("this command stays active until it closes"));
    assert!(printed.contains("console closed; restoring the background VM"));
    assert!(printed.ends_with("running: admin@192.168.1.20"));
    assert!(world.files.contains(&paths.run_marker));

    world.child =
        vec![Reply::Exited { success: false, description: "exit status: 1".to_owned() }];
    let error = message(world.act("gremvm", Action::Console));
    assert!(error.contains("background restart was withheld to avoid a cold boot"));
    assert!(error.ends_with("Tart exited with exit status: 1"));
    assert!(!world.files.contains(&paths.run_marker));
}

#[test]
fn the_service_runs_only_a_marked_vm() {
    let mut world = world();
    let paths = world.install("gremvm", saved("gremvm"), VmState::Stopped);
    world.act("gremvm", Action::InternalRun).unwrap();
    assert!(world.executed.is_none());
    world.files.insert(paths.run_marker.clone());
    world.files.remove(&paths.provisioned);
    world.act("gremvm", Action::InternalRun).unwrap();
    assert!(world.executed.is_none());
    world.files.insert(paths.provisioned.clone());
    world.keychain_unlocked = false;
    assert_eq!(
        message(world.act("gremvm", Action::InternalRun)),
        "the host login Keychain is locked; run 'gremvm start' from an interactive terminal"
    );
    assert!(world.executed.is_none());
}

#[test]
fn the_console_without_a_background_vm_starts_cold() {
    let mut world = world();
    let paths = world.install("gremvm", saved("gremvm"), VmState::Stopped);
    world.act("gremvm", Action::Console).unwrap();
    assert!(!world.files.contains(&paths.run_marker));
    assert!(!world.ran(&["suspend"]));
    assert!(!world.ran(&["kickstart"]));
    assert_eq!(
        world.printed,
        ["opening Tart recovery console; this command stays active until it closes..."]
    );
}

#[test]
fn a_signal_has_the_console_suspended() {
    let mut world = world();
    world.install("gremvm", saved("gremvm"), VmState::Stopped);
    let running = || {
        vec![
            Reply::Running,
            Reply::Running,
            Reply::Running,
            Reply::Exited { success: true, description: "exit status: 0".to_owned() },
        ]
    };
    world.child = running();
    world.act("gremvm", Action::Console).unwrap();
    assert!(!world.ran(&["suspend"]));

    world.child = running();
    world.vms.insert("gremvm".to_owned(), VmState::Stopped);
    world.signal_while_open = true;
    world.act("gremvm", Action::Console).unwrap();
    assert!(world.ran(&["suspend", "gremvm"]));
}

#[test]
fn the_console_needs_an_unlocked_graphical_session() {
    let mut world = world();
    world.install("gremvm", saved("gremvm"), VmState::Running);
    world.session_kind = "Background".to_owned();
    assert_eq!(
        message(world.act("gremvm", Action::Console)),
        "gremvm console requires an active graphical host session"
    );
    assert_eq!(
        message(world.act("gremvm", Action::ScreenShare)),
        "gremvm screen-share requires an active graphical host session"
    );
    world.session_kind = "Aqua".to_owned();
    world.console_locked = true;
    assert_eq!(
        message(world.act("gremvm", Action::Console)),
        "gremvm console requires this user's on-console graphical session to be unlocked so macOS can encrypt the VM snapshot"
    );
    world.console_locked = false;
    world.host.user_id = 503;
    assert_eq!(
        message(world.act("gremvm", Action::Console)),
        "the current user has no on-console graphical host session"
    );
    assert!(!world.ran(&["suspend"]));
}

#[test]
fn a_vm_that_is_not_suspended_in_time_is_given_up() {
    let mut world = world();
    world.install("gremvm", saved("gremvm"), VmState::Running);
    world.stuck = true;
    assert_eq!(
        message(world.act("gremvm", Action::Console)),
        "timed out waiting for the VM to suspend"
    );
    assert_eq!(world.slept.len(), 600);
}

// --------------------------------------------------------------------- access
#[test]
fn screen_sharing_uses_the_guest_ip() {
    let mut world = world();
    world.install("gremvm", saved("gremvm"), VmState::Running);
    world.act("gremvm", Action::ScreenShare).unwrap();
    assert!(world
        .commands
        .contains(&vec!["/usr/bin/open".to_owned(), "vnc://192.168.1.20".to_owned()]));
    assert_eq!(world.printed, ["screen sharing: admin@192.168.1.20"]);
    assert_eq!(world.vms["gremvm"], VmState::Running);
    assert!(world.removed.is_empty() && world.created.is_empty());
}

#[test]
fn ssh_hands_over_to_the_guest() {
    let mut world = world();
    let paths = world.install("gremvm", saved("gremvm"), VmState::Running);
    let command = vec!["sw_vers".to_owned(), "-productVersion".to_owned()];
    let error = message(world.act("gremvm", Action::Ssh { command }));
    assert_eq!(error, "cannot execute ssh: No such file or directory (os error 2)");
    assert_eq!(
        world.executed.unwrap(),
        [
            "/usr/bin/ssh",
            "-i",
            &paths.ssh_key,
            "-o",
            "BatchMode=yes",
            "-o",
            "IdentitiesOnly=yes",
            "-o",
            "StrictHostKeyChecking=accept-new",
            "-o",
            &format!("UserKnownHostsFile={}/known_hosts", paths.config_dir),
            "admin@192.168.1.20",
            "sw_vers",
            "-productVersion",
        ]
    );
}

#[test]
fn logs_are_shown_by_tail() {
    let mut world = world();
    let paths = world.install("gremvm", saved("gremvm"), VmState::Running);
    world.act("gremvm", Action::Logs { follow: true }).unwrap_err();
    assert_eq!(
        world.executed.take().unwrap(),
        [
            "/usr/bin/tail",
            "-n",
            "200",
            "-F",
            &format!("{}/vm.log", paths.logs),
            &format!("{}/vm.error.log", paths.logs),
        ]
    );
    world.act("gremvm", Action::Logs { follow: false }).unwrap_err();
    assert_eq!(world.executed.unwrap()[3], format!("{}/vm.log", paths.logs));
}

#[test]
fn tailscale_upload_is_verified_before_root_executes_it() {
    let mut world = world();
    let paths = world.install("gremvm", saved("gremvm"), VmState::Running);
    world.act("gremvm", Action::Tailscale { action: TailscaleAction::Setup }).unwrap();
    let scripts: Vec<&String> = world
        .commands
        .iter()
        .filter(|command| command[0] == "/usr/bin/ssh")
        .map(|command| command.last().unwrap())
        .collect();
    let upload = scripts.iter().position(|script| script.contains("umask 077; ")).unwrap();
    assert_eq!(
        *scripts[upload],
        "umask 077; /bin/cat > /Users/admin/.gremvm-tailscaled && /bin/chmod 0700 /Users/admin/.gremvm-tailscaled"
    );
    let install =
        scripts.iter().position(|script| script.contains("install-system-daemon")).unwrap();
    assert!(upload < install);
    assert!(scripts[install].contains("/private/var/tmp/gremvm-tailscaled.XXXXXX"));
    assert!(scripts[install].contains("/usr/bin/shasum -a 256 \"$stage\""));
    assert!(scripts[install].contains(&format!("= {DIGEST} && \"$stage\" install-system-daemon")));
    assert!(!scripts.iter().any(|script| script.contains(".gremvm-tailscaled install-system-daemon")));
    assert!(world.ran(&["-a", "256", &paths.guest_tailscale]));
    assert!(world.fed.contains(&("/usr/bin/ssh".to_owned(), b"correct horse\n".to_vec())));
    assert!(!world.commands.iter().flatten().any(|word| word.contains("correct horse")));
    assert_eq!(
        world.printed,
        [
            "authenticate using the URL below if Tailscale asks...",
            "tailscale: connected",
            "tailscale-ip: 100.64.0.7",
            "ssh: ssh admin@100.64.0.7",
            "screen-sharing: vnc://100.64.0.7",
        ]
    );
}

#[test]
fn tailscale_is_not_installed_with_a_bad_digest() {
    let mut world = world();
    world.install("gremvm", saved("gremvm"), VmState::Running);
    for (digest, expected) in [
        ("", "shasum returned no digest"),
        ("0011 tailscaled", "shasum returned an invalid digest"),
    ] {
        world.digest = digest.to_owned();
        assert_eq!(
            message(world.act("gremvm", Action::Tailscale { action: TailscaleAction::Setup })),
            expected
        );
    }
    assert!(!world.asked("install-system-daemon"));
}

#[test]
fn tailscale_status_is_printed() {
    let mut world = world();
    world.install("gremvm", saved("gremvm"), VmState::Running);
    for (report, expected) in [
        ("not-installed\n", ["tailscale: not-installed", "next: gremvm tailscale setup"]),
        ("disconnected\n", ["tailscale: disconnected", "next: gremvm tailscale setup"]),
    ] {
        world.tailscale = report.to_owned();
        world.printed.clear();
        world.act("gremvm", Action::Tailscale { action: TailscaleAction::Status }).unwrap();
        assert_eq!(world.printed, expected);
    }
    assert!(!world.asked("install-system-daemon"));
}

// ------------------------------------------------------------------- Keychain
#[test]
fn keychain_helper_publishes_its_result() {
    let mut world = world();
    world.keychain_unlocked = false;
    let action = || Action::InternalKeychain { mode: KeychainHelperMode::Check };
    world.act("gremvm", action()).unwrap();
    let result = "/Users/me/Library/Application Support/GremVM/state/keychain.result";
    assert_eq!(world.texts[result], "locked\n");
    world.keychain_unlocked = true;
    world.act("gremvm", action()).unwrap();
    assert_eq!(world.texts[result], "unlocked\n");
}

#[test]
fn keychain_prompt_hides_input_and_restores_the_terminal() {
    let mut world = world();
    world.keychain_unlocked = false;
    let unlock = || Action::InternalKeychain { mode: KeychainHelperMode::Unlock };
    world.act("gremvm", unlock()).unwrap();
    let result = "/Users/me/Library/Application Support/GremVM/state/keychain.result";
    assert_eq!(world.texts[result], "unlocked\n");
    assert!(!world.hidden);

    world.keychain_unlocked = false;
    world.signals = 1;
    world.act("gremvm", unlock()).unwrap();
    assert_eq!(world.texts[result], "locked\n");
    assert!(!world.hidden);
    let order: Vec<usize> = ["WatchSignals", "HideInput", "Spawn", "RestoreInput", "UnwatchSignals"]
        .iter()
        .map(|word| world.requests.iter().position(|request| request.starts_with(word)).unwrap())
        .collect();
    assert!(order.windows(2).all(|pair| pair[0] < pair[1]));
}

#[test]
fn a_locked_keychain_needs_a_terminal() {
    let mut world = world();
    world.install("gremvm", saved("gremvm"), VmState::Stopped);
    world.keychain_unlocked = false;
    world.terminal = false;
    assert_eq!(
        message(world.act("gremvm", Action::Start)),
        "the host login Keychain is locked; rerun from an interactive terminal"
    );
    world.terminal = true;
    world.act("gremvm", Action::Start).unwrap();
    assert!(world.keychain_unlocked);
}

#[test]
fn the_background_session_is_unlocked_through_a_helper() {
    let mut world = world();
    let paths = world.install("gremvm", saved("gremvm"), VmState::Stopped);
    world.background_unlocked = false;
    assert_eq!(
        message(world.act("gremvm", Action::Start)),
        "failed to unlock the login Keychain for the Background service"
    );
    assert!(world.ran(&[
        "bootstrap",
        "user/501",
        &format!("{}/keychain.plist", paths.state),
    ]));
    assert!(!world.texts.contains_key(&format!("{}/keychain.plist", paths.state)));
    assert!(!world.hidden);
}

#[test]
fn a_keychain_helper_that_never_answers_is_given_up() {
    let mut world = world();
    let paths = world.install("gremvm", saved("gremvm"), VmState::Stopped);
    let config = world.drive(|session, _| Config::load(session, &paths)).unwrap();
    let result = format!("{}/keychain.result", paths.state);
    let host = Host {
        home: Some(HOME.to_owned()),
        search_path: None,
        architecture: "aarch64".to_owned(),
        user_id: 501,
    };
    let app = App { host: &host, paths, config };
    let mut replies: Vec<Reply> = Vec::new();
    let error = loop {
        let mut session = Session::new(&replies);
        match app.ensure_keychain(&mut session, KeychainMode::BackgroundInteractive) {
            Ok(()) => panic!("nothing was unlocked"),
            Err(Halt::Failed(error)) => break error,
            Err(Halt::Pending { keep, request }) => {
                world.texts.remove(&result);
                let reply = world.answer(&request);
                replies.truncate(keep);
                replies.push(reply);
                assert!(replies.len() < 60);
            }
        }
    };
    assert_eq!(error.render(), "timed out waiting for the Keychain helper");
    assert_eq!(world.slept.len(), 100);
}

// -------------------------------------------------------------------- storage
#[test]
fn encrypted_volume_reuses_the_native_keychain_credential() {
    let mut world = world();
    world.install("gremvm", encrypted_settings(), VmState::Stopped);
    world.volumes.insert(UUID.to_owned(), encrypted(true));
    world.keychain.insert((UUID.to_owned(), UUID.to_owned()), b"volume password".to_vec());
    world.act("gremvm", Action::Start).unwrap();

    let find = |service: &str| {
        world
            .commands
            .iter()
            .position(|command| {
                command[1..] == ["find-generic-password", "-a", UUID, "-s", service, "-w", "/Users/me/Library/Keychains/login.keychain-db"]
            })
            .unwrap()
    };
    assert!(find(VOLUME_PASSWORD_SERVICE) < find(UUID));
    assert_eq!(
        world.keychain[&(UUID.to_owned(), "io.gremvm.volume-password".to_owned())],
        b"volume password"
    );
    assert!(world.ran(&["apfs", "listCryptoUsers", "-plist", UUID]));
    assert!(world.ran(&[
        "apfs", "unlockVolume", UUID, "-user", "USER-1", "-stdinpassphrase", "-verify",
    ]));
    assert!(world.ran(&[
        "apfs", "unlockVolume", UUID, "-user", "USER-2", "-stdinpassphrase", "-verify",
    ]));
    assert!(world.ran(&["apfs", "unlockVolume", UUID, "-stdinpassphrase", "-nomount"]));
    assert!(world.ran(&["mount", UUID]));
    assert!(!world.commands.iter().flatten().any(|word| word == "-passphrase"));
    assert!(!world.commands.iter().flatten().any(|word| word.contains("volume password")));
    assert!(!world.volumes[UUID].locked);
}

#[test]
fn the_password_of_a_volume_is_asked_for_once() {
    let mut world = world();
    world.install("gremvm", encrypted_settings(), VmState::Stopped);
    world.volumes.insert(UUID.to_owned(), encrypted(true));
    world.typed = vec!["wrong one".to_owned()];
    assert_eq!(
        message(world.act("gremvm", Action::Start)),
        "incorrect password for encrypted volume My Work"
    );
    assert!(world.volumes[UUID].locked);
    world.typed = vec!["volume password".to_owned()];
    world.act("gremvm", Action::Start).unwrap();
    assert!(world.typed.is_empty());
    world.volumes.insert(UUID.to_owned(), encrypted(true));
    world.directories.remove("/Volumes/My Work/gremvm");
    world.act("gremvm", Action::Start).unwrap();
}

#[test]
fn a_locked_volume_without_a_password_stays_locked_in_the_background() {
    let mut world = world();
    world.install("gremvm", encrypted_settings(), VmState::Stopped);
    world.volumes.insert(UUID.to_owned(), encrypted(true));
    assert_eq!(
        message(world.act("gremvm", Action::Status)),
        "encrypted volume credential is missing; run 'gremvm start' interactively"
    );
    world
        .keychain
        .insert((UUID.to_owned(), VOLUME_PASSWORD_SERVICE.to_owned()), b"wrong one".to_vec());
    assert_eq!(
        message(world.act("gremvm", Action::Status)),
        format!("encrypted volume {UUID}: failed to unlock the VM storage volume: bad passphrase")
    );
}

#[test]
fn only_the_recorded_volume_is_used() {
    let mut world = world();
    let paths = world.install("gremvm", encrypted_settings(), VmState::Stopped);
    let config = world.drive(|session, _| Config::load(session, &paths)).unwrap();
    let mut ensure = |volume: Volume, kind: VolumeKind, directory: Option<&str>| {
        world.volumes.insert(UUID.to_owned(), volume);
        world.directories.remove("/Volumes/My Work/gremvm");
        if let Some(directory) = directory {
            world.directories.insert(directory.to_owned());
        }
        let config = &config;
        world.drive(|session, host| {
            let paths = Paths::discover("gremvm".to_owned(), host).unwrap();
            let app = App { host, paths, config: config.copy() };
            match &app.config.storage {
                Storage::EncryptedVolume(record) => {
                    app.ensure_volume(session, record, kind, StorageAccess::Background)
                }
                _ => panic!("the storage is no volume"),
            }
        })
    };
    let mounted = |place: &str| Volume {
        mount_point: Some(place.to_owned()),
        ..encrypted(false)
    };
    ensure(mounted("/Volumes/My Work/"), VolumeKind::Encrypted, Some("/Volumes/My Work/gremvm"))
        .unwrap();
    assert_eq!(
        message(ensure(mounted("/Volumes/Other"), VolumeKind::Encrypted, None)),
        "VM storage volume My Work is not mounted at /Volumes/My Work"
    );
    assert_eq!(
        message(ensure(
            Volume { writable: false, ..mounted("/Volumes/My Work") },
            VolumeKind::Encrypted,
            None,
        )),
        "VM storage volume is read-only"
    );
    assert_eq!(
        message(ensure(mounted("/Volumes/My Work"), VolumeKind::Encrypted, None)),
        "VM storage directory is unavailable after mounting its volume: storage directory does not exist: /Volumes/My Work/gremvm"
    );
    assert_eq!(
        message(ensure(mounted("/Volumes/My Work"), VolumeKind::Plain, None)),
        "VM storage volume unexpectedly became encrypted"
    );
    assert_eq!(
        message(ensure(
            Volume { file_vault: false, ..mounted("/Volumes/My Work") },
            VolumeKind::Encrypted,
            None,
        )),
        "VM storage volume must remain encrypted APFS"
    );
    assert_eq!(
        message(ensure(
            Volume { name: "Other".to_owned(), ..mounted("/Volumes/My Work") },
            VolumeKind::Encrypted,
            None,
        )),
        "diskutil resolved the wrong VM storage volume"
    );
    assert_eq!(
        message(ensure(encrypted(false), VolumeKind::Encrypted, Some("/Volumes/My Work"))),
        "VM storage mount path already exists: /Volumes/My Work"
    );
}

#[test]
fn a_custom_mount_point_must_be_an_empty_directory() {
    let mut world = world();
    let mut settings = encrypted_settings();
    settings.storage = SavedStorage::Plain {
        path: "/Users/me/mount/gremvm".to_owned(),
        mount_point: "/Users/me/mount".to_owned(),
        name: "My Work".to_owned(),
        uuid: UUID.to_owned(),
    };
    world.install("gremvm", settings, VmState::Stopped);
    let plain = Volume { file_vault: false, ..encrypted(false) };
    world.volumes.insert(UUID.to_owned(), plain);
    assert_eq!(
        message(world.act("gremvm", Action::Status)),
        "custom VM storage mount point is missing: /Users/me/mount"
    );
    world.directories.insert("/Users/me/mount/left over".to_owned());
    assert_eq!(
        message(world.act("gremvm", Action::Status)),
        "custom VM storage mount point is not empty: /Users/me/mount"
    );
    world.directories.remove("/Users/me/mount/left over");
    world.directories.insert("/Users/me/mount".to_owned());
    world.act("gremvm", Action::Status).unwrap();
    assert!(world.ran(&["mount", "-mountPoint", "/Users/me/mount", UUID]));
}

// ----------------------------------------------------------------- the driver
#[test]
fn commands_are_named_by_how_they_are_called() {
    let name = |program: &str| command_name(&Some(program.to_owned()));
    assert_eq!(name("/Users/me/.local/bin/foovm"), "foovm");
    assert_eq!(name("foovm"), "foovm");
    assert_eq!(name("/opt/foovm/"), "foovm");
    assert_eq!(name("/"), "gremvm");
    assert_eq!(name(".."), "gremvm");
    assert_eq!(name(""), "gremvm");
    assert_eq!(command_name(&None), "gremvm");
}

#[test]
fn a_home_is_needed() {
    let mut world = world();
    world.host.home = None;
    assert_eq!(message(world.act("gremvm", Action::Status)), "HOME is not set");
    world.host.home = Some(String::new());
    assert_eq!(message(world.installs(&options("gremvm"))), "HOME is not set");
    assert!(world.requests.is_empty());
}

#[test]
fn a_reply_that_answers_nothing_is_an_error() {
    let host = world().host;
    let replies = vec![Reply::Running];
    let mut session = Session::new(&replies);
    match run(&mut session, &host, "gremvm".to_owned(), &Action::Start) {
        Err(Halt::Failed(error)) => {
            assert_eq!(error.render(), "the host gave an unexpected reply")
        }
        _ => panic!("the reply was accepted"),
    }
}

#[test]
fn programs_read_and_write_where_they_should() {
    let mut world = world();
    let paths = world.install("gremvm", saved("gremvm"), VmState::Running);
    let config = world.drive(|session, _| Config::load(session, &paths)).unwrap();
    let host = &world.host;
    let app = App { host, paths, config };
    let replies: Vec<Reply> = Vec::new();
    let mut session = Session::new(&replies);
    match app.store_keychain_password(&mut session, "me", "service", &b"\x00\xff".to_vec()) {
        Err(Halt::Pending { keep: 0, request: Request::Run(command) }) => {
            assert_eq!(command.program, "/usr/bin/security");
            assert_eq!(command.arguments, ["-i"]);
            assert!(matches!(command.output, Sink::Discarded));
            assert!(matches!(command.errors, Sink::Captured));
            match command.input {
                Input::Bytes(bytes) => assert_eq!(
                    String::from_utf8(bytes).unwrap(),
                    "add-generic-password -a me -s service -U -X 00ff \"/Users/me/Library/Keychains/login.keychain-db\"\n"
                ),
                _ => panic!("nothing is fed"),
            }
        }
        _ => panic!("the password is not stored"),
    }
}
