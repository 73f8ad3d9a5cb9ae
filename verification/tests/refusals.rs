//! What the procedures say when the host does not cooperate.

use gremvm::agent::Plist;
use gremvm::app::App;
use gremvm::command::Input;
use gremvm::config::{Config, Storage};
use gremvm::facts::{LinkKind, Output, VmInfo, VmState, VolumeInfo};
use gremvm::files::{canonical_directory, private_dir, remove_if_present};
use gremvm::host::{Host, Paths};
use gremvm::machine::{sysctl, validate_bridge};
use gremvm::options::InstallOptions;
use gremvm::password::{CredentialPolicy, PasswordChoice};
use gremvm::process::{checked, success};
use gremvm::service::service_loaded;
use gremvm::session::{Halt, Reply, Request, Session};
use gremvm::unlock::{internal_keychain, KeychainHelperMode};
use gremvm::volume::{
    ensure_directory, run_volume_password, volume_for_path, volume_info, volume_password_valid,
};

fn host(home: &str) -> Host {
    Host {
        home: Some(home.to_owned()),
        search_path: None,
        architecture: "aarch64".to_owned(),
        user_id: 501,
    }
}

/// How a procedure ends with these replies.
fn outcome<T>(
    replies: Vec<Reply>,
    procedure: impl Fn(&App, &mut Session) -> Result<T, Halt>,
) -> String {
    outcome_at("/Users/me", replies, procedure)
}

fn app(host: &Host) -> App<'_> {
    App {
        host,
        paths: Paths::discover("gremvm".to_owned(), host).unwrap(),
        config: Config {
            vm_name: "gremvm".to_owned(),
            guest_user: "admin".to_owned(),
            cpu_count: 6,
            memory_gb: 24,
            disk_gb: 192,
            storage: Storage::Default,
        },
    }
}

fn outcome_at<T>(
    home: &str,
    replies: Vec<Reply>,
    procedure: impl Fn(&App, &mut Session) -> Result<T, Halt>,
) -> String {
    let host = host(home);
    let app = app(&host);
    let mut session = Session::new(&replies);
    match procedure(&app, &mut session) {
        Ok(_) => "ended".to_owned(),
        Err(Halt::Failed(error)) => {
            assert_eq!(session.read, replies.len());
            error.render()
        }
        Err(Halt::Pending { keep, request }) => {
            assert!(keep <= replies.len());
            format!("asks {request:?}")
        }
    }
}

fn exit(code: i32, stdout: &str, stderr: &str) -> Reply {
    Reply::Output(Output {
        code: Some(code),
        stdout: stdout.as_bytes().to_vec(),
        stderr: stderr.as_bytes().to_vec(),
    })
}

fn good(stdout: &str) -> Reply {
    exit(0, stdout, "")
}

fn bad(stderr: &str) -> Reply {
    exit(1, "", stderr)
}

fn failed(message: &str) -> Reply {
    Reply::Failed(message.to_owned())
}

fn executable() -> Reply {
    Reply::Mode { file: true, mode: 0o755 }
}

/// The replies to a look at the VM in the default storage.
fn look(state: VmState) -> Vec<Reply> {
    vec![
        executable(),
        good("{}"),
        Reply::Vm(VmInfo { state, cpu: 6, memory: 24576, disk: 192, os: "darwin".to_owned() }),
    ]
}

fn list(names: &str) -> Vec<Reply> {
    vec![executable(), good(names)]
}

fn joined(parts: Vec<Vec<Reply>>) -> Vec<Reply> {
    parts.into_iter().flatten().collect()
}

// ------------------------------------------------------------------ programs
#[test]
fn programs_that_fail_are_named() {
    let command = || gremvm::command::Command::new("/bin/x").arg("y");
    assert_eq!(
        outcome(vec![failed("no such file")], |_, session| success(session, command(), "try it")),
        "cannot try it: no such file"
    );
    assert_eq!(
        outcome(vec![bad(" why \n")], |_, session| success(session, command(), "try it")),
        "failed to try it: why"
    );
    assert_eq!(
        outcome(vec![good(" text \n")], |_, session| checked(session, command(), "try it")),
        "ended"
    );
    let broken = Reply::Output(Output { code: Some(0), stdout: vec![255], stderr: Vec::new() });
    assert_eq!(
        outcome(vec![broken], |_, session| checked(session, command(), "try it")),
        "invalid utf-8 sequence of 1 bytes from index 0"
    );
    let killed = Reply::Output(Output { code: None, stdout: Vec::new(), stderr: Vec::new() });
    assert_eq!(
        outcome(vec![killed], |_, session| success(session, command(), "try it")),
        "failed to try it: "
    );
}

#[test]
fn the_host_is_asked_in_numbers() {
    assert_eq!(
        outcome(vec![good("many\n")], |_, session| sysctl(session, "hw.memsize")),
        "sysctl returned a non-number: invalid digit found in string"
    );
    assert_eq!(
        outcome(vec![good("\n")], |_, session| sysctl(session, "hw.memsize")),
        "sysctl returned a non-number: cannot parse integer from empty string"
    );
    assert_eq!(
        outcome(vec![bad("")], |_, session| validate_bridge(session)),
        "required bridged interface does not exist: en0"
    );
}

#[test]
fn files_in_the_way_are_reported() {
    assert_eq!(
        outcome(vec![Reply::Flag(true), Reply::Flag(false)], |_, session| {
            private_dir(session, "/x")
        }),
        "not a directory: /x"
    );
    assert_eq!(
        outcome(vec![failed("busy")], |_, session| remove_if_present(session, "/x")),
        "busy"
    );
    assert_eq!(
        outcome(vec![Reply::Missing("gone".to_owned())], |_, session| {
            remove_if_present(session, "/x")
        }),
        "ended"
    );
}

#[test]
fn canonical_directories_stay_canonical() {
    let text = |text: &str| Reply::Text(text.to_owned());
    let find = |path: &'static str, replies: Vec<Reply>| {
        outcome(replies, move |_, session| match canonical_directory(session, path) {
            Ok(found) => Err::<(), Halt>(gremvm::session::refusal(&format!("found {found}"))),
            Err(halt) => Err(halt),
        })
    };
    let there = |place: &str| vec![Reply::Flag(true), text(place), Reply::Done];
    assert_eq!(find("/Users/me/link", there("/Users/me/vms")), "found /Users/me/vms");
    assert_eq!(find("/Users/me/vms", there("/Users/me/vms")), "found /Users/me/vms");
    assert_eq!(
        outcome(there("/Users/me/vms"), |_, session| ensure_directory(session, "/Users/me/vms")),
        "ended"
    );
    assert_eq!(find("vms", Vec::new()), "storage directory must be absolute");
    assert_eq!(
        find("/Users/me/vms", vec![Reply::Flag(false)]),
        "storage directory does not exist: /Users/me/vms"
    );
    assert_eq!(
        find("/Users/me/link", vec![Reply::Flag(true), text("/Users/me/vms"), failed("denied")]),
        "storage directory is not writable: /Users/me/vms: denied"
    );
    assert_eq!(
        find(
            "/Users/me/link",
            vec![Reply::Flag(true), Reply::Foreign("path is not UTF-8: ?".to_owned())],
        ),
        "path is not UTF-8: ?"
    );
}

// ------------------------------------------------------------------- service
#[test]
fn services_are_inspected_by_their_code() {
    let inspect = |reply| outcome(vec![reply], |_, session| service_loaded(session, "user/1/x"));
    assert_eq!(inspect(exit(0, "", "")), "ended");
    assert_eq!(inspect(exit(113, "", "")), "ended");
    assert_eq!(
        inspect(exit(5, "", "denied\n")),
        "cannot inspect launchd service user/1/x: denied"
    );
    assert_eq!(inspect(failed("gone")), "cannot inspect the launchd service: gone");
}

#[test]
fn a_service_that_stays_loaded_is_given_up() {
    let exists = || vec![Reply::Flag(true), Reply::Flag(true)];
    let start = |last: Vec<Reply>| {
        joined(vec![
            exists(),
            exists(),
            exists(),
            vec![Reply::Done, good(""), good(""), Reply::Instant(1000), good("")],
            last,
        ])
    };
    assert_eq!(
        outcome(start(vec![Reply::Instant(6000)]), |app, session| app.install_service(session)),
        "service did not unload"
    );
    // One millisecond earlier, the round starts anew.
    let replies = start(vec![Reply::Instant(5999), Reply::Done]);
    assert_eq!(
        outcome(replies, |app, session| app.install_service(session)),
        outcome(start(Vec::new())[..10].iter().map(repeated).collect(), |app, session| {
            app.install_service(session)
        })
    );
}

/// A copy of one of the replies above.
fn repeated(reply: &Reply) -> Reply {
    match reply {
        Reply::Flag(flag) => Reply::Flag(*flag),
        Reply::Done => Reply::Done,
        Reply::Instant(time) => Reply::Instant(*time),
        Reply::Output(output) => Reply::Output(Output {
            code: output.code,
            stdout: output.stdout.clone(),
            stderr: output.stderr.clone(),
        }),
        _ => panic!("unexpected reply"),
    }
}

#[test]
fn the_service_is_kept_alive_by_its_marker() {
    let host = host("/Users/me");
    let app = app(&host);
    let replies: Vec<Reply> = (0..6).map(|_| Reply::Flag(true)).collect();
    match app.install_service(&mut Session::new(&replies)) {
        Err(Halt::Pending {
            keep: 6,
            request: Request::StagePlist { plist: Plist::Agent(agent), .. },
        }) => {
            let states = agent.keep_alive.path_state;
            assert_eq!(states.len(), 1);
            assert_eq!(states[0].path, app.paths.run_marker);
            assert!(states[0].exists);
        }
        _ => panic!("the service is not defined"),
    }
}

// ------------------------------------------------------------------ Keychain
#[test]
fn a_generated_password_is_what_was_drawn() {
    let host = host("/Users/me");
    let app = app(&host);
    let create = |session: &mut Session| {
        app.prepare_guest_password(
            session,
            CredentialPolicy::CreateIfMissing,
            PasswordChoice::Generate,
        )
    };
    let replies = vec![good(""), exit(44, "", "")];
    match create(&mut Session::new(&replies)) {
        Err(Halt::Pending { keep: 2, request: Request::RandomBytes(24) }) => {}
        _ => panic!("nothing is drawn"),
    }
    let drawn: Vec<u8> = (0..24).collect();
    let replies = vec![good(""), exit(44, "", ""), Reply::Bytes(drawn)];
    match create(&mut Session::new(&replies)) {
        Err(Halt::Pending { keep: 3, request: Request::Run(command) }) => match command.input {
            Input::Bytes(line) => {
                let password = "000102030405060708090a0b0c0d0e0f1011121314151617";
                let digits: String =
                    password.bytes().map(|byte| format!("{byte:02x}")).collect();
                assert_eq!(
                    String::from_utf8(line).unwrap(),
                    format!(
                        "add-generic-password -a admin -s {} -U -X {digits} \"/Users/me/Library/Keychains/login.keychain-db\"\n",
                        app.paths.password_service
                    )
                );
            }
            _ => panic!("nothing is fed"),
        },
        _ => panic!("the password is not stored"),
    }
    let ends = |reply: Reply| {
        outcome(vec![good(""), exit(44, "", ""), reply], |app, session| {
            app.prepare_guest_password(
                session,
                CredentialPolicy::CreateIfMissing,
                PasswordChoice::Generate,
            )
        })
    };
    assert_eq!(ends(Reply::Bytes(vec![0; 23])), "the host gave an unexpected reply");
    assert_eq!(ends(failed("no entropy")), "no entropy");
}

#[test]
fn the_keychain_may_refuse() {
    let find = |reply| {
        outcome(vec![reply], |app, session| app.keychain_password(session, "me", "service"))
    };
    assert_eq!(find(good("secret\n")), "ended");
    assert_eq!(find(exit(44, "", "not found")), "ended");
    assert_eq!(find(good("\r\n")), "the stored password is empty");
    assert_eq!(find(bad("denied\n")), "cannot read a password from Keychain: denied");
    assert_eq!(find(failed("gone")), "cannot read a password from Keychain: gone");

    let store = |reply| {
        outcome(vec![reply], |app, session| {
            app.store_keychain_password(session, "me", "service", &b"x".to_vec())
        })
    };
    assert_eq!(store(good("")), "ended");
    assert_eq!(store(bad("full")), "failed to store a password in Keychain: full");
    assert_eq!(store(failed("gone")), "cannot store a password in Keychain: gone");
    assert_eq!(store(Reply::Unfed("broken pipe".to_owned())), "broken pipe");
    assert_eq!(store(Reply::Unawaited("no child".to_owned())), "no child");
}

#[test]
fn a_stored_guest_password_must_be_usable() {
    let read = |bytes: &[u8]| {
        let found =
            Reply::Output(Output { code: Some(0), stdout: bytes.to_vec(), stderr: Vec::new() });
        outcome(vec![good(""), found], |app, session| app.guest_password(session))
    };
    assert_eq!(read(b"long enough\n"), "ended");
    assert_eq!(read(b"short\n"), "guest password must be 8-128 characters");
    assert_eq!(
        read(b"\xff\xff\xff\xff\xff\xff\xff\xff"),
        "the stored guest password is not UTF-8: invalid utf-8 sequence of 1 bytes from index 0"
    );
    assert_eq!(
        outcome(vec![good(""), exit(44, "", "")], |app, session| app.guest_password(session)),
        "the guest password is missing from Keychain"
    );
}

#[test]
fn the_keychain_stays_locked_without_the_password() {
    let unlock = |last: Vec<Reply>| {
        joined(vec![
            vec![
                bad(""),
                Reply::Terminals { input: true, errors: true },
                good("/dev/ttys001\n"),
                Reply::Done,
                Reply::Done,
                Reply::Done,
                Reply::Flag(false),
            ],
            last,
        ])
    };
    let ended = |success| Reply::Exited { success, description: String::new() };
    let ensure = |last| outcome(unlock(last), |app, session| app.ensure_current_keychain(session));
    assert_eq!(
        ensure(vec![ended(false), Reply::Done, Reply::Done]),
        "failed to unlock the host login Keychain"
    );
    assert_eq!(
        ensure(vec![ended(true), bad(""), Reply::Done, Reply::Done]),
        "failed to unlock the host login Keychain"
    );
    assert_eq!(ensure(vec![ended(true), good(""), Reply::Done, Reply::Done]), "ended");
    // Whatever happened, the terminal is restored first.
    assert_eq!(ensure(vec![failed("no child")]), "asks RestoreInput");
    assert_eq!(ensure(vec![failed("no child"), Reply::Done]), "asks UnwatchSignals");
    assert_eq!(ensure(vec![failed("no child"), Reply::Done, Reply::Done]), "no child");
}

#[test]
fn a_terminal_is_needed_to_unlock() {
    let paths = Paths::discover("gremvm".to_owned(), &host("/Users/me")).unwrap();
    assert_eq!(
        outcome(vec![Reply::Terminals { input: true, errors: false }], |_, session| {
            internal_keychain(session, &paths, KeychainHelperMode::Unlock)
        }),
        "the host login Keychain is locked; rerun from an interactive terminal"
    );
    assert_eq!(
        outcome(vec![Reply::Done, Reply::Done], |app, session| {
            app.background_unlock(session, "/dev/console")
        }),
        "invalid terminal path"
    );
}

#[test]
fn the_keychain_helper_is_cleaned_up_after() {
    let gone = || Reply::Missing("gone".to_owned());
    let clean = || vec![exit(113, "", ""), gone(), gone()];
    let start = |rest: Vec<Reply>| {
        joined(vec![
            vec![Reply::Flag(false), Reply::Done],
            clean(),
            vec![Reply::Done, Reply::Done],
            rest,
        ])
    };
    let run = |rest| {
        outcome(start(rest), |app, session| {
            app.run_keychain_helper_on(session, "check", "/dev/null", 5000)
        })
    };
    assert_eq!(
        run(joined(vec![vec![bad("denied")], clean()])),
        "failed to load the Keychain helper: denied"
    );
    let waiting = |last: Vec<Reply>| {
        joined(vec![vec![good(""), Reply::Instant(0), gone()], last])
    };
    assert_eq!(
        run(joined(vec![waiting(vec![Reply::Flag(true)]), clean()])),
        "Keychain unlock was interrupted"
    );
    assert_eq!(
        run(joined(vec![waiting(vec![Reply::Flag(false), Reply::Instant(5000)]), clean()])),
        "timed out waiting for the Keychain helper"
    );
    assert_eq!(
        run(joined(vec![waiting(vec![Reply::Flag(true)]), vec![bad("denied")]])),
        "Keychain helper cleanup also failed: cannot inspect launchd service user/501/io.gremvm.keychain: denied: Keychain unlock was interrupted"
    );
    let answered = || vec![good(""), Reply::Instant(0), Reply::Text("unlocked\n".to_owned())];
    assert_eq!(run(joined(vec![answered(), clean()])), "ended");
    assert_eq!(
        run(joined(vec![answered(), vec![exit(113, "", ""), failed("busy")]])),
        "busy"
    );
}

// ------------------------------------------------------------------- volumes
#[test]
fn volumes_that_cannot_be_inspected_are_reported() {
    assert_eq!(
        outcome(vec![good("Filesystem only\n")], |_, session| {
            volume_for_path(session, "/x").map(|_| ())
        }),
        "df returned malformed filesystem information"
    );
    assert_eq!(
        outcome(vec![bad("no disk")], |_, session| {
            volume_info(session, "disk9").map(|_| ())
        }),
        "failed to inspect the VM storage volume: no disk"
    );
    assert_eq!(
        outcome(vec![good("junk"), failed("bad plist")], |_, session| {
            volume_info(session, "x").map(|_| ())
        }),
        "diskutil returned malformed volume information: bad plist"
    );
}

#[test]
fn volume_passwords_are_tried_on_every_user() {
    let users = |count: usize| {
        Reply::CryptoUsers(
            (0..count)
                .map(|index| gremvm::facts::CryptoUser { uuid: format!("USER-{index}") })
                .collect(),
        )
    };
    let valid = |replies| {
        outcome(replies, |_, session| {
            match volume_password_valid(session, "UUID", &b"x".to_vec()) {
                Ok(true) => Ok(()),
                Ok(false) => Err(gremvm::session::refusal("wrong")),
                Err(halt) => Err(halt),
            }
        })
    };
    assert_eq!(valid(vec![good(""), users(0)]), "wrong");
    assert_eq!(valid(vec![good(""), users(2), bad(""), bad("")]), "wrong");
    assert_eq!(valid(vec![good(""), users(2), bad(""), good("")]), "ended");
    assert_eq!(
        valid(vec![bad("denied")]),
        "failed to list the users of the VM storage volume: denied"
    );
    let unlock = |reply| {
        outcome(vec![reply], |_, session| run_volume_password(session, "UUID", &b"x".to_vec()))
    };
    assert_eq!(
        unlock(bad("denied")),
        "encrypted volume UUID: failed to unlock the VM storage volume: denied"
    );
    assert_eq!(unlock(failed("gone")), "cannot run diskutil: gone");
    assert_eq!(unlock(Reply::Unfed("broken pipe".to_owned())), "broken pipe");
    assert_eq!(
        unlock(Reply::Unawaited("no child".to_owned())),
        "cannot wait for diskutil: no child"
    );
}

#[test]
fn an_encrypted_volume_must_be_apfs() {
    let volume = |uuid: &str| {
        Reply::Volume(VolumeInfo {
            file_vault: true,
            filesystem_type: "hfs".to_owned(),
            locked: false,
            mount_point: Some("/Volumes/W".to_owned()),
            volume_name: "W".to_owned(),
            volume_uuid: uuid.to_owned(),
            writable_volume: true,
        })
    };
    let df = || good("Filesystem\n/dev/disk9 1\n");
    let options = InstallOptions {
        name: "gremvm".to_owned(),
        cpu_count: 6,
        memory_gb: 24,
        disk_gb: 192,
        guest_user: "admin".to_owned(),
        ask_password: false,
        storage: Some("/Volumes/W".to_owned()),
    };
    assert_eq!(
        outcome(
            vec![df(), good(""), volume("A"), df(), good(""), volume("B")],
            |app, session| options.resolve(session, &app.paths),
        ),
        "encrypted VM storage volume must be APFS"
    );
}

// ------------------------------------------------------------------------ VM
#[test]
fn tart_must_be_there() {
    let tart = |reply| outcome(vec![reply], |app, session| app.tart(session));
    assert_eq!(tart(Reply::Missing("gone".to_owned())), "Tart is not installed");
    assert_eq!(tart(Reply::Mode { file: true, mode: 0o644 }), "Tart is not installed");
    assert_eq!(tart(Reply::Mode { file: false, mode: 0o755 }), "Tart is not installed");
    assert_eq!(tart(executable()), "ended");
}

#[test]
fn reports_of_tart_are_checked() {
    assert_eq!(
        outcome(vec![executable(), good("x"), failed("not JSON")], |app, session| {
            app.vm_info(session).map(|_| ())
        }),
        "Tart returned malformed VM information: not JSON"
    );
    let linux = vec![
        executable(),
        good("{}"),
        Reply::Vm(VmInfo {
            state: VmState::Stopped,
            cpu: 6,
            memory: 24576,
            disk: 192,
            os: "linux".to_owned(),
        }),
    ];
    assert_eq!(
        outcome(linux, |app, session| app.verify_config(session)),
        "VM operating system is not macOS"
    );
    let kept = joined(vec![list("gremvm"), vec![executable(), good("")], list("a\ngremvm\nb")]);
    assert_eq!(
        outcome(kept, |app, session| app.delete_vm(session)),
        "Tart did not delete the VM"
    );
    assert_eq!(
        outcome(list("gremvm2\nxgremvm"), |app, session| app.delete_vm(session)),
        "ended"
    );
}

#[test]
fn building_may_fail() {
    let directory = || vec![Reply::Flag(true), Reply::Flag(true)];
    let packer = |rest: Vec<Reply>| {
        outcome(joined(vec![directory(), rest]), |app, session| app.packer(session, "key", "pw"))
    };
    assert_eq!(packer(vec![Reply::Flag(false)]), "Packer plugin is missing");
    assert_eq!(packer(vec![Reply::Flag(true), bad("")]), "Packer failed");
    assert_eq!(packer(vec![Reply::Flag(true), failed("gone")]), "cannot run Packer: gone");
    assert_eq!(packer(vec![Reply::Flag(true), good("")]), "ended");
    assert_eq!(
        outcome_at("/Users/a:b", joined(vec![directory(), vec![Reply::Flag(true)]]), |app, session| {
            app.packer(session, "key", "pw")
        }),
        "path segment contains separator `:`"
    );
}

#[test]
fn the_bundle_must_be_found() {
    let runtime = |rest: Vec<Reply>| {
        let start =
            vec![Reply::Flag(true), Reply::Flag(true), Reply::Link(LinkKind::Missing)];
        outcome(joined(vec![start, rest]), |app, session| app.install_runtime(session))
    };
    let text = |text: &str| Reply::Text(text.to_owned());
    assert_eq!(
        runtime(vec![text("/gremvm"), text("/gremvm")]),
        "cannot locate the packaged GremVM bundle"
    );
    let found = || vec![text("/x"), text("/nix/bundle/bin/gremvm-install")];
    let complete = || (0..7).map(|_| Reply::Flag(true)).collect::<Vec<_>>();
    assert_eq!(
        runtime(joined(vec![found(), complete(), vec![good(""), text("/nix/other")]])),
        "Nix registered an unexpected runtime"
    );
    assert_eq!(
        runtime(joined(vec![found(), complete(), vec![good(""), text("/nix/bundle/")]])),
        "ended"
    );
    assert_eq!(
        runtime(joined(vec![
            found(),
            complete(),
            vec![good(""), Reply::Foreign("path is not UTF-8: ?".to_owned())],
        ])),
        "Nix registered an unexpected runtime"
    );
    assert_eq!(
        runtime(joined(vec![found(), complete(), vec![bad("no store")]])),
        "failed to register the Nix runtime GC root: no store"
    );
}

// ------------------------------------------------------------------- console
#[test]
fn a_handover_may_fail() {
    let prepare = |resume: bool, rest: Vec<Reply>| {
        outcome(joined(vec![vec![Reply::Done], rest]), |app, session| {
            app.prepare_console(session, resume)
        })
    };
    let unloaded = || vec![exit(113, "", "")];
    assert_eq!(
        prepare(true, look(VmState::Stopped)),
        "the background VM stopped before it could be suspended"
    );
    let suspend = || {
        joined(vec![
            look(VmState::Running),
            vec![Reply::Done, executable(), good(""), Reply::Instant(0)],
        ])
    };
    assert_eq!(
        prepare(true, joined(vec![suspend(), look(VmState::Stopped)])),
        "the VM stopped before Tart could suspend it"
    );
    assert_eq!(
        prepare(
            true,
            joined(vec![suspend(), look(VmState::Running), vec![Reply::Instant(300000)]]),
        ),
        "timed out waiting for the VM to suspend"
    );
    assert_eq!(
        prepare(
            true,
            joined(vec![suspend(), look(VmState::Suspended), unloaded(), look(VmState::Stopped)]),
        ),
        "the VM snapshot was lost during the background handoff"
    );
    assert_eq!(
        prepare(
            false,
            joined(vec![look(VmState::Stopped), unloaded(), look(VmState::Suspended)]),
        ),
        "the VM changed state during the console handoff"
    );
    assert_eq!(
        prepare(
            true,
            joined(vec![look(VmState::Suspended), unloaded(), look(VmState::Suspended)]),
        ),
        "ended"
    );
}

#[test]
fn a_console_that_does_not_end_is_left_running() {
    let suspend = |rest: Vec<Reply>| {
        outcome(joined(vec![vec![Reply::Instant(0)], rest]), |app, session| {
            app.suspend_console_process(session)
        })
    };
    assert_eq!(
        suspend(vec![Reply::Running, executable(), bad(""), Reply::Instant(300000)]),
        "timed out asking Tart to suspend the console VM; Tart was left running"
    );
    assert_eq!(
        suspend(vec![
            Reply::Running,
            Reply::Missing("gone".to_owned()),
            Reply::Instant(300000),
        ]),
        "timed out asking Tart to suspend the console VM; Tart was left running"
    );
    assert_eq!(
        suspend(vec![
            Reply::Running,
            executable(),
            good(""),
            Reply::Running,
            Reply::Instant(300000),
        ]),
        "timed out waiting for the console VM to suspend; Tart was left running"
    );
    assert_eq!(
        suspend(vec![Reply::Running, executable(), bad(""), Reply::Instant(1), Reply::Done]),
        "asks PollChild"
    );
    let ended = Reply::Exited { success: true, description: String::new() };
    assert_eq!(suspend(vec![ended]), "ended");
}

// ----------------------------------------------------------------- Tailscale
#[test]
fn tailscale_may_not_be_packaged() {
    assert_eq!(
        outcome(vec![Reply::Flag(false)], |app, session| app.setup_tailscale(session, "10.0.0.2")),
        "the packaged Tailscale binary is missing"
    );
    assert_eq!(
        outcome(vec![Reply::Flag(true), failed("denied")], |app, session| {
            app.setup_tailscale(session, "10.0.0.2")
        }),
        "denied"
    );
    assert_eq!(
        outcome(vec![Reply::Flag(true), Reply::Done, bad("full")], |app, session| {
            app.setup_tailscale(session, "10.0.0.2")
        }),
        "failed to upload Tailscale to the guest: full"
    );
}
