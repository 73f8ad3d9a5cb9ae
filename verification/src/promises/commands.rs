//! The programs that are run, word for word.

use crate::app::AppView;
use crate::command::{CommandView, InputView, Sink, VariableView};
use crate::config::{StorageView, VolumeStorageView};
use crate::encoding::hex_text;
use crate::keychain::{find_command, store_command};
use crate::machine::{bridge_command, sysctl_command, BRIDGE};
use crate::path::{join, same_place};
use crate::promises::{attached, last_change, program, sets, with_arguments};
use crate::remote::{console_info_command, session_command, view_command};
use crate::service::launchctl;
use crate::tailscale::{
    install_script, upload_script, DAEMON_SCRIPT, DIGEST_SCRIPT, READY_SCRIPT, STAGE_SCRIPT,
    STATE_SCRIPT,
};
use crate::text::{decimal, escaped};
use crate::vm::list_command;
use crate::volume::{
    device_command, info_command, mount_command, unlock_command, users_command, verify_command,
    VOLUME_PASSWORD_SERVICE,
};
use vstd::prelude::*;
use vstd::utf8::encode_utf8;

verus! {

/// The tools of the host that are asked about it.
pub proof fn the_tools_of_the_host(
    verb: Seq<char>,
    target: Seq<char>,
    name: Seq<char>,
    ip: Seq<char>,
    path: Seq<char>,
)
    ensures
        launchctl(verb, target) == program("/bin/launchctl"@, seq![verb, target]),
        session_command() == program("/bin/launchctl"@, seq!["managername"@]),
        sysctl_command(name) == program("/usr/sbin/sysctl"@, seq!["-n"@, name]),
        bridge_command() == (CommandView {
            input: InputView::Inherited,
            output: Sink::Discarded,
            errors: Sink::Discarded,
            ..program("/sbin/ifconfig"@, seq!["en0"@])
        }),
        BRIDGE@ == "en0"@,
        console_info_command() == program(
            "/usr/sbin/ioreg"@,
            seq!["-n"@, "Root"@, "-d1"@, "-a"@],
        ),
        view_command(ip) == program("/usr/bin/open"@, seq!["vnc://"@ + ip]),
        device_command(path) == program("/bin/df"@, seq!["-P"@, path]),
{
    assert(launchctl(verb, target).arguments =~= seq![verb, target]);
    assert(launchctl(verb, target).environment =~= Seq::empty());
    assert(session_command().arguments =~= seq!["managername"@]);
    assert(sysctl_command(name).arguments =~= seq!["-n"@, name]);
    assert(bridge_command().arguments =~= seq!["en0"@]);
    assert(console_info_command().arguments =~= seq!["-n"@, "Root"@, "-d1"@, "-a"@]);
    assert(view_command(ip).arguments =~= seq!["vnc://"@ + ip]);
    assert(device_command(path).arguments =~= seq!["-P"@, path]);
}

/// A password is looked up by its account and service, and stored under them in
/// hexadecimal by a line that the tool reads.
pub proof fn passwords_in_the_keychain(
    account: Seq<char>,
    service: Seq<char>,
    password: Seq<u8>,
    keychain: Seq<char>,
)
    ensures
        find_command(account, service, keychain) == program(
            "/usr/bin/security"@,
            seq!["find-generic-password"@, "-a"@, account, "-s"@, service, "-w"@, keychain],
        ),
        store_command(account, service, password, keychain) == (CommandView {
            input: InputView::Bytes(
                encode_utf8(
                    "add-generic-password -a "@ + account + " -s "@ + service + " -U -X "@
                        + hex_text(password) + " \""@ + escaped(keychain) + "\"\n"@,
                ),
            ),
            output: Sink::Discarded,
            ..program("/usr/bin/security"@, seq!["-i"@])
        }),
{
    assert(find_command(account, service, keychain).arguments =~= seq![
        "find-generic-password"@,
        "-a"@,
        account,
        "-s"@,
        service,
        "-w"@,
        keychain,
    ]);
    assert(store_command(account, service, password, keychain).arguments =~= seq!["-i"@]);
}

/// A volume is asked about, tried, unlocked and mounted by its UUID. It is mounted
/// at its standard place by name alone, and elsewhere at the recorded place.
pub proof fn the_commands_of_a_volume(
    uuid: Seq<char>,
    user: Seq<char>,
    storage: VolumeStorageView,
)
    ensures
        info_command(uuid) == program("/usr/sbin/diskutil"@, seq!["info"@, "-plist"@, uuid]),
        users_command(uuid) == program(
            "/usr/sbin/diskutil"@,
            seq!["apfs"@, "listCryptoUsers"@, "-plist"@, uuid],
        ),
        verify_command(uuid, user) == program(
            "/usr/sbin/diskutil"@,
            seq!["apfs"@, "unlockVolume"@, uuid, "-user"@, user, "-stdinpassphrase"@, "-verify"@],
        ),
        unlock_command(uuid) == program(
            "/usr/sbin/diskutil"@,
            seq!["apfs"@, "unlockVolume"@, uuid, "-stdinpassphrase"@, "-nomount"@],
        ),
        mount_command(storage) == program(
            "/usr/sbin/diskutil"@,
            if same_place(storage.mount_point, join("/Volumes"@, storage.name)) {
                seq!["mount"@, storage.uuid]
            } else {
                seq!["mount"@, "-mountPoint"@, storage.mount_point, storage.uuid]
            },
        ),
        VOLUME_PASSWORD_SERVICE@ == "io.gremvm.volume-password"@,
{
    assert(info_command(uuid).arguments =~= seq!["info"@, "-plist"@, uuid]);
    assert(users_command(uuid).arguments =~= seq!["apfs"@, "listCryptoUsers"@, "-plist"@, uuid]);
    assert(verify_command(uuid, user).arguments =~= seq![
        "apfs"@,
        "unlockVolume"@,
        uuid,
        "-user"@,
        user,
        "-stdinpassphrase"@,
        "-verify"@,
    ]);
    assert(unlock_command(uuid).arguments =~= seq![
        "apfs"@,
        "unlockVolume"@,
        uuid,
        "-stdinpassphrase"@,
        "-nomount"@,
    ]);
    if same_place(storage.mount_point, join("/Volumes"@, storage.name)) {
        assert(mount_command(storage).arguments =~= seq!["mount"@, storage.uuid]);
    } else {
        assert(mount_command(storage).arguments =~= seq![
            "mount"@,
            "-mountPoint"@,
            storage.mount_point,
            storage.uuid,
        ]);
    }
}

/// Tart works on the VM that the settings name, and on nothing else.
pub proof fn the_commands_of_tart(app: AppView, tart: CommandView, wait: u32)
    ensures
        list_command(tart) == with_arguments(
            tart,
            seq!["list"@, "--source"@, "local"@, "--quiet"@],
        ),
        app.get_command(tart) == with_arguments(
            tart,
            seq!["get"@, app.config.vm_name, "--format"@, "json"@],
        ),
        app.ip_command(tart, wait) == with_arguments(
            tart,
            seq![
                "ip"@,
                app.config.vm_name,
                "--wait"@,
                decimal(wait as nat),
                "--resolver"@,
                "arp"@,
            ],
        ),
        app.stop_command(tart) == with_arguments(
            tart,
            seq!["stop"@, app.config.vm_name, "--timeout"@, "30"@],
        ),
        app.suspend_command(tart) == with_arguments(tart, seq!["suspend"@, app.config.vm_name]),
        app.delete_command(tart) == with_arguments(tart, seq!["delete"@, app.config.vm_name]),
        app.background_command(tart) == with_arguments(
            tart,
            seq![
                "run"@,
                "--no-graphics"@,
                "--suspendable"@,
                "--net-bridged="@ + "en0"@,
                app.config.vm_name,
            ],
        ),
{
    assert(list_command(tart).arguments =~= with_arguments(
        tart,
        seq!["list"@, "--source"@, "local"@, "--quiet"@],
    ).arguments);
    assert(app.get_command(tart).arguments =~= with_arguments(
        tart,
        seq!["get"@, app.config.vm_name, "--format"@, "json"@],
    ).arguments);
    assert(app.ip_command(tart, wait).arguments =~= with_arguments(
        tart,
        seq!["ip"@, app.config.vm_name, "--wait"@, decimal(wait as nat), "--resolver"@, "arp"@],
    ).arguments);
    assert(app.stop_command(tart).arguments =~= with_arguments(
        tart,
        seq!["stop"@, app.config.vm_name, "--timeout"@, "30"@],
    ).arguments);
    assert(app.suspend_command(tart).arguments =~= with_arguments(
        tart,
        seq!["suspend"@, app.config.vm_name],
    ).arguments);
    assert(app.delete_command(tart).arguments =~= with_arguments(
        tart,
        seq!["delete"@, app.config.vm_name],
    ).arguments);
    assert(app.background_command(tart).arguments =~= with_arguments(
        tart,
        seq![
            "run"@,
            "--no-graphics"@,
            "--suspendable"@,
            "--net-bridged="@ + "en0"@,
            app.config.vm_name,
        ],
    ).arguments);
}

/// The console is Tart with a window, under a program that keeps the host awake, in
/// a process group of its own.
pub proof fn the_command_of_the_console(app: AppView, caffeinate: CommandView)
    ensures
        app.console_command(caffeinate) == (CommandView {
            own_group: true,
            ..attached(
                with_arguments(
                    caffeinate,
                    seq![
                        "-disu"@,
                        app.paths.bin("tart"@),
                        "run"@,
                        "--suspendable"@,
                        "--net-bridged="@ + "en0"@,
                        app.config.vm_name,
                    ],
                ),
            )
        }),
{
    assert(app.console_command(caffeinate).arguments =~= with_arguments(
        caffeinate,
        seq![
            "-disu"@,
            app.paths.bin("tart"@),
            "run"@,
            "--suspendable"@,
            "--net-bridged="@ + "en0"@,
            app.config.vm_name,
        ],
    ).arguments);
}

/// SSH connects as the guest user, with the key and the known hosts of the VM alone,
/// and asks nobody.
pub proof fn the_commands_of_ssh(app: AppView, ip: Seq<char>)
    ensures
        app.ssh_command(ip) == program(
            "/usr/bin/ssh"@,
            seq![
                "-i"@,
                app.paths.ssh_key,
                "-o"@,
                "BatchMode=yes"@,
                "-o"@,
                "IdentitiesOnly=yes"@,
                "-o"@,
                "StrictHostKeyChecking=accept-new"@,
                "-o"@,
                "UserKnownHostsFile="@ + join(app.paths.config_dir, "known_hosts"@),
                app.config.guest_user + "@"@ + ip,
            ],
        ),
        app.ssh_probe(ip) == (CommandView {
            output: Sink::Discarded,
            errors: Sink::Discarded,
            ..with_arguments(
                app.ssh_command(ip),
                seq![
                    "-o"@,
                    "ConnectTimeout=5"@,
                    "-o"@,
                    "ConnectionAttempts=1"@,
                    "/usr/bin/true"@,
                ],
            )
        }),
{
    assert(app.ssh_command(ip).arguments =~= seq![
        "-i"@,
        app.paths.ssh_key,
        "-o"@,
        "BatchMode=yes"@,
        "-o"@,
        "IdentitiesOnly=yes"@,
        "-o"@,
        "StrictHostKeyChecking=accept-new"@,
        "-o"@,
        "UserKnownHostsFile="@ + join(app.paths.config_dir, "known_hosts"@),
        app.config.guest_user + "@"@ + ip,
    ]);
    assert(app.ssh_probe(ip).arguments =~= with_arguments(
        app.ssh_command(ip),
        seq!["-o"@, "ConnectTimeout=5"@, "-o"@, "ConnectionAttempts=1"@, "/usr/bin/true"@],
    ).arguments);
}

/// The key pair is of the kind ed25519, without a passphrase, and named after the
/// VM; the runtime is kept by Nix as long as the link to it is there.
pub proof fn the_tools_of_an_installation(app: AppView, bundle: Seq<char>)
    ensures
        app.keygen_command() == program(
            "/usr/bin/ssh-keygen"@,
            seq![
                "-q"@,
                "-t"@,
                "ed25519"@,
                "-N"@,
                ""@,
                "-C"@,
                "gremvm@"@ + app.config.vm_name,
                "-f"@,
                app.paths.ssh_key,
            ],
        ),
        app.realise_command(bundle) == program(
            "nix-store"@,
            seq!["--realise"@, bundle, "--add-root"@, app.paths.runtime, "--indirect"@],
        ),
{
    assert(app.keygen_command().arguments =~= seq![
        "-q"@,
        "-t"@,
        "ed25519"@,
        "-N"@,
        ""@,
        "-C"@,
        "gremvm@"@ + app.config.vm_name,
        "-f"@,
        app.paths.ssh_key,
    ]);
    assert(app.realise_command(bundle).arguments =~= seq![
        "--realise"@,
        bundle,
        "--add-root"@,
        app.paths.runtime,
        "--indirect"@,
    ]);
}

/// A command that works on the storage of the VM has its directory as `TART_HOME`,
/// or no `TART_HOME` where none was chosen, and is otherwise what it was.
pub proof fn the_storage_of_a_command(app: AppView, command: CommandView)
    ensures
        app.on_storage(command) == (CommandView {
            environment: command.environment.push(
                VariableView {
                    name: "TART_HOME"@,
                    value: match app.config.storage {
                        StorageView::Default => None,
                        StorageView::Directory { path } => Some(path),
                        StorageView::PlainVolume(volume) => Some(volume.path),
                        StorageView::EncryptedVolume(volume) => Some(volume.path),
                    },
                },
            ),
            ..command
        }),
{
}

/// The names that Packer finds in its environment are told apart by their letters.
proof fn lemma_packer_names()
    ensures
        "PKR_VAR_vm_name"@ != "PKR_VAR_guest_user"@,
        "PKR_VAR_vm_name"@ != "PKR_VAR_cpu_count"@,
        "PKR_VAR_vm_name"@ != "PKR_VAR_memory_gb"@,
        "PKR_VAR_vm_name"@ != "PKR_VAR_disk_size_gb"@,
        "PKR_VAR_vm_name"@ != "PKR_VAR_ssh_public_key"@,
        "PKR_VAR_vm_name"@ != "PKR_VAR_guest_password"@,
        "PKR_VAR_guest_user"@ != "PKR_VAR_cpu_count"@,
        "PKR_VAR_guest_user"@ != "PKR_VAR_memory_gb"@,
        "PKR_VAR_guest_user"@ != "PKR_VAR_disk_size_gb"@,
        "PKR_VAR_guest_user"@ != "PKR_VAR_ssh_public_key"@,
        "PKR_VAR_guest_user"@ != "PKR_VAR_guest_password"@,
        "PKR_VAR_cpu_count"@ != "PKR_VAR_memory_gb"@,
        "PKR_VAR_cpu_count"@ != "PKR_VAR_disk_size_gb"@,
        "PKR_VAR_cpu_count"@ != "PKR_VAR_ssh_public_key"@,
        "PKR_VAR_cpu_count"@ != "PKR_VAR_guest_password"@,
        "PKR_VAR_memory_gb"@ != "PKR_VAR_disk_size_gb"@,
        "PKR_VAR_memory_gb"@ != "PKR_VAR_ssh_public_key"@,
        "PKR_VAR_memory_gb"@ != "PKR_VAR_guest_password"@,
        "PKR_VAR_disk_size_gb"@ != "PKR_VAR_ssh_public_key"@,
        "PKR_VAR_disk_size_gb"@ != "PKR_VAR_guest_password"@,
        "PKR_VAR_ssh_public_key"@ != "PKR_VAR_guest_password"@,
        "PATH"@.len() == 4 && "PATH"@[1] == 'A',
        "PACKER_PLUGIN_PATH"@[0] == 'P' && "PACKER_PLUGIN_PATH"@[1] == 'A',
        "PACKER_PLUGIN_PATH"@.len() == 18,
        "PACKER_NO_COLOR"@[1] == 'A' && "PACKER_NO_COLOR"@.len() == 15,
        "CHECKPOINT_DISABLE"@[0] == 'C' && "CHECKPOINT_DISABLE"@.len() == 18,
        "PKR_VAR_vm_name"@[1] == 'K' && "PKR_VAR_vm_name"@[0] == 'P',
        "PKR_VAR_guest_user"@[1] == 'K' && "PKR_VAR_guest_user"@[0] == 'P',
        "PKR_VAR_cpu_count"@[1] == 'K' && "PKR_VAR_cpu_count"@[0] == 'P',
        "PKR_VAR_memory_gb"@[1] == 'K' && "PKR_VAR_memory_gb"@[0] == 'P',
        "PKR_VAR_disk_size_gb"@[1] == 'K' && "PKR_VAR_disk_size_gb"@[0] == 'P',
        "PKR_VAR_ssh_public_key"@[1] == 'K' && "PKR_VAR_ssh_public_key"@[0] == 'P',
        "PKR_VAR_guest_password"@[1] == 'K' && "PKR_VAR_guest_password"@[0] == 'P',
        "TART_HOME"@.len() == 9 && "TART_HOME"@[0] == 'T',
{
    reveal_strlit("PKR_VAR_vm_name");
    reveal_strlit("PKR_VAR_guest_user");
    reveal_strlit("PKR_VAR_cpu_count");
    reveal_strlit("PKR_VAR_memory_gb");
    reveal_strlit("PKR_VAR_disk_size_gb");
    reveal_strlit("PKR_VAR_ssh_public_key");
    reveal_strlit("PKR_VAR_guest_password");
    reveal_strlit("PATH");
    reveal_strlit("PACKER_PLUGIN_PATH");
    reveal_strlit("PACKER_NO_COLOR");
    reveal_strlit("CHECKPOINT_DISABLE");
    reveal_strlit("TART_HOME");
    assert("PKR_VAR_vm_name"@.len() == 15 && "PKR_VAR_guest_user"@.len() == 18);
    assert("PKR_VAR_cpu_count"@.len() == 17 && "PKR_VAR_cpu_count"@[8] == 'c');
    assert("PKR_VAR_memory_gb"@.len() == 17 && "PKR_VAR_memory_gb"@[8] == 'm');
    assert("PKR_VAR_disk_size_gb"@.len() == 20);
    assert("PKR_VAR_ssh_public_key"@.len() == 22 && "PKR_VAR_ssh_public_key"@[8] == 's');
    assert("PKR_VAR_guest_password"@.len() == 22 && "PKR_VAR_guest_password"@[8] == 'g');
}

/// The environment in which a VM is built describes that VM: each variable has the
/// value that the settings and the credentials give, whatever Packer had before.
pub open spec fn describes(
    app: AppView,
    command: CommandView,
    key: Seq<char>,
    password: Seq<char>,
) -> bool {
    &&& sets(command, "PKR_VAR_vm_name"@, app.config.vm_name)
    &&& sets(command, "PKR_VAR_guest_user"@, app.config.guest_user)
    &&& sets(command, "PKR_VAR_cpu_count"@, decimal(app.config.cpu_count as nat))
    &&& sets(command, "PKR_VAR_memory_gb"@, decimal(app.config.memory_gb as nat))
    &&& sets(command, "PKR_VAR_disk_size_gb"@, decimal(app.config.disk_gb as nat))
    &&& sets(command, "PKR_VAR_ssh_public_key"@, key)
    &&& sets(command, "PKR_VAR_guest_password"@, password)
    &&& sets(
        command,
        "PATH"@,
        join(app.paths.runtime, "bin"@) + ":/usr/bin:/bin:/usr/sbin:/sbin"@,
    )
    &&& sets(
        command,
        "PACKER_PLUGIN_PATH"@,
        join(app.paths.runtime, "libexec/packer/plugins"@),
    )
    &&& sets(command, "PACKER_NO_COLOR"@, "1"@)
    &&& sets(command, "CHECKPOINT_DISABLE"@, "1"@)
}

/// Packer builds the VM that the settings describe, from the packaged template, in a
/// directory of its own, where the user sees what it writes.
pub proof fn the_command_of_packer(
    app: AppView,
    packer: CommandView,
    key: Seq<char>,
    password: Seq<char>,
)
    ensures
        describes(app, app.packer_command(packer, key, password), key, password),
        packer.environment.is_prefix_of(
            app.packer_command(packer, key, password).environment,
        ),
        app.packer_command(packer, key, password).environment.len() == packer.environment.len()
            + 11,
        app.packer_command(packer, key, password) == (CommandView {
            directory: Some(join(app.paths.state, "packer"@)),
            environment: app.packer_command(packer, key, password).environment,
            ..attached(
                with_arguments(
                    packer,
                    seq![
                        "build"@,
                        "-color=false"@,
                        join(app.paths.runtime, "share/gremvm/gremvm.pkr.hcl"@),
                    ],
                ),
            )
        }),
{
    lemma_packer_names();
    let command = app.packer_command(packer, key, password);
    let n = packer.environment.len() as int;
    assert(command.arguments =~= with_arguments(
        packer,
        seq![
            "build"@,
            "-color=false"@,
            join(app.paths.runtime, "share/gremvm/gremvm.pkr.hcl"@),
        ],
    ).arguments);
    let all = command.environment;
    assert(all.len() == n + 11);
    assert(all[n].name == "PATH"@);
    assert(all[n + 1].name == "PACKER_PLUGIN_PATH"@);
    assert(all[n + 2].name == "PACKER_NO_COLOR"@);
    assert(all[n + 3].name == "CHECKPOINT_DISABLE"@);
    assert(all[n + 4].name == "PKR_VAR_vm_name"@);
    assert(all[n + 5].name == "PKR_VAR_guest_user"@);
    assert(all[n + 6].name == "PKR_VAR_cpu_count"@);
    assert(all[n + 7].name == "PKR_VAR_memory_gb"@);
    assert(all[n + 8].name == "PKR_VAR_disk_size_gb"@);
    assert(all[n + 9].name == "PKR_VAR_ssh_public_key"@);
    assert(all[n + 10].name == "PKR_VAR_guest_password"@);
    assert(last_change(command, "PATH"@, n));
    assert(last_change(command, "PACKER_PLUGIN_PATH"@, n + 1));
    assert(last_change(command, "PACKER_NO_COLOR"@, n + 2));
    assert(last_change(command, "CHECKPOINT_DISABLE"@, n + 3));
    assert(last_change(command, "PKR_VAR_vm_name"@, n + 4));
    assert(last_change(command, "PKR_VAR_guest_user"@, n + 5));
    assert(last_change(command, "PKR_VAR_cpu_count"@, n + 6));
    assert(last_change(command, "PKR_VAR_memory_gb"@, n + 7));
    assert(last_change(command, "PKR_VAR_disk_size_gb"@, n + 8));
    assert(last_change(command, "PKR_VAR_ssh_public_key"@, n + 9));
    assert(last_change(command, "PKR_VAR_guest_password"@, n + 10));
}

/// What the guest runs for Tailscale, word for word: the upload is for the guest user
/// alone; root copies it, checks the digest of the copy and only then executes that;
/// the VM is the host name, and the guest user the operator.
pub proof fn the_scripts_of_the_guest(app: AppView, upload: Seq<char>, digest: Seq<char>)
    ensures
        app.upload_path() == "/Users/"@ + app.config.guest_user + "/.gremvm-tailscaled"@,
        upload_script(upload) == "umask 077; /bin/cat > "@ + upload + " && /bin/chmod 0700 "@
            + upload,
        install_script(upload, digest) == STAGE_SCRIPT@ + upload + DIGEST_SCRIPT@ + digest
            + DAEMON_SCRIPT@ + upload + "; exit $result"@,
        STAGE_SCRIPT@
            == "/usr/bin/sudo -S -k -p '' /bin/sh -c 'stage=$(/usr/bin/mktemp /private/var/tmp/gremvm-tailscaled.XXXXXX) || exit 1; /bin/cat "@,
        DIGEST_SCRIPT@
            == " > \"$stage\" && /bin/chmod 0700 \"$stage\" && test \"$(/usr/bin/shasum -a 256 \"$stage\" | /usr/bin/cut -d \" \" -f 1)\" = "@,
        DAEMON_SCRIPT@
            == " && \"$stage\" install-system-daemon && /bin/ln -sfn tailscaled /usr/local/bin/tailscale && /bin/launchctl unload /Library/LaunchDaemons/com.tailscale.tailscaled.plist && /usr/bin/plutil -insert KeepAlive -bool true /Library/LaunchDaemons/com.tailscale.tailscaled.plist && /bin/launchctl load /Library/LaunchDaemons/com.tailscale.tailscaled.plist; result=$?; /bin/rm -f \"$stage\"; exit $result'; result=$?; /bin/rm -f "@,
        READY_SCRIPT@
            == "attempt=0; while [ \"$attempt\" -lt 10 ]; do /usr/local/bin/tailscale status --json --peers=false >/dev/null 2>&1 && exit 0; attempt=$((attempt + 1)); /bin/sleep 1; done; exit 1"@,
        STATE_SCRIPT@
            == "if [ ! -x /usr/local/bin/tailscale ]; then printf 'not-installed\\n'; elif /usr/local/bin/tailscale wait --timeout=1s >/dev/null 2>&1 && address=$(/usr/local/bin/tailscale ip -4 2>/dev/null); then printf 'connected\\n%s\\n' \"$address\"; else printf 'disconnected\\n'; fi"@,
        app.connect_script() == "/usr/local/bin/tailscale up --accept-dns=false --hostname="@
            + app.config.vm_name + " --operator="@ + app.config.guest_user,
{
}

} // verus!
