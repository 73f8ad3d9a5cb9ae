//! The guest: how it is reached, and Tailscale in it.

use crate::app::AppView;
use crate::command::{CommandView, InputView, Sink};
use crate::facts::{Output, VmState};
use crate::host::HostView;
use crate::names::digest_shaped;
use crate::path::join;
use crate::promises::{attached, program, stops_with};
use crate::promises::commands::{
    the_commands_of_ssh, the_scripts_of_the_guest, the_tools_of_the_host,
};
use crate::remote::{
    ensure_console_session_steps, ensure_graphical_session_steps, exec_steps, on_console,
};
use crate::session::{Ask, HaltView, Reply, Tape};
use crate::tailscale::{reported_state, TailscaleAction, TailscaleStateView};
use crate::text::{first_word, trimmed};
use crate::volume::StorageAccess;
use vstd::prelude::*;
use vstd::utf8::{decode_utf8, encode_utf8, valid_utf8};

verus! {

impl AppView {
    /// SSH to the guest as its user, with these arguments after the address.
    pub open spec fn ssh_with(self, ip: Seq<char>, rest: Seq<Seq<char>>) -> CommandView {
        program(
            "/usr/bin/ssh"@,
            seq![
                "-i"@,
                self.paths.ssh_key,
                "-o"@,
                "BatchMode=yes"@,
                "-o"@,
                "IdentitiesOnly=yes"@,
                "-o"@,
                "StrictHostKeyChecking=accept-new"@,
                "-o"@,
                "UserKnownHostsFile="@ + join(self.paths.config_dir, "known_hosts"@),
                self.config.guest_user + "@"@ + ip,
            ] + rest,
        )
    }
}

proof fn lemma_ssh(app: AppView, ip: Seq<char>, rest: Seq<Seq<char>>)
    ensures
        app.ssh_command(ip).args(rest) == app.ssh_with(ip, rest),
        rest.len() == 1 ==> app.ssh_command(ip).arg(rest[0]) == app.ssh_with(ip, rest),
{
    the_commands_of_ssh(app, ip);
    if rest.len() == 1 {
        assert(app.ssh_command(ip).arg(rest[0]).arguments =~= app.ssh_with(ip, rest).arguments);
    }
}

/// A graphical session is one that launchd calls so.
pub proof fn graphical_sessions_are_called_so(
    name: Seq<char>,
    command: Seq<char>,
    tape: Tape,
)
    ensures
        ({
            let step = ensure_graphical_session_steps(name, command, tape);
            &&& tape.read >= tape.replies.len() ==> step.waits_for(
                Ask::Run(program("/bin/launchctl"@, seq!["managername"@])),
            )
            &&& tape.ahead(0) matches Some(Reply::Output(output)) ==> {
                let kind = trimmed(decode_utf8(output.stdout@));
                &&& output.code != Some(0i32) ==> step.out is Err
                &&& output.code == Some(0i32) && valid_utf8(output.stdout@) && kind == "Aqua"@
                    ==> step.out is Ok && step.tape == tape.later(1)
                &&& output.code == Some(0i32) && valid_utf8(output.stdout@) && kind != "Aqua"@
                    ==> step.refuses(
                    name + " "@ + command + " requires an active graphical host session"@,
                )
            }
            &&& step.out is Ok ==> step.tape == tape.later(1)
        }),
{
    the_tools_of_the_host(""@, ""@, ""@, ""@, ""@);
}

/// The console is for the user who is at it, logged in and with the screen unlocked.
pub proof fn the_console_is_for_its_user(host: HostView, name: Seq<char>, tape: Tape)
    ensures
        ({
            let graphical = ensure_graphical_session_steps(name, "console"@, tape);
            let step = ensure_console_session_steps(host, name, tape);
            &&& graphical.out is Err ==> step.out == graphical.out
            &&& graphical.out is Ok ==> {
                &&& tape.ahead(1) is None ==> step.waits_for(
                    Ask::Run(
                        program("/usr/sbin/ioreg"@, seq!["-n"@, "Root"@, "-d1"@, "-a"@]),
                    ),
                )
                &&& tape.ahead(1) matches Some(Reply::Output(output)) ==> {
                    &&& output.code != Some(0i32) ==> step.out is Err
                    &&& output.code == Some(0i32) && tape.ahead(2) is None ==> step.waits_for(
                        Ask::DecodeConsole(output.stdout@),
                    )
                    &&& output.code == Some(0i32) ==> (tape.ahead(2) matches Some(
                        Reply::Console(console),
                    ) ==> match on_console(console.users@, host.user_id) {
                        None => step.refuses(
                            "the current user has no on-console graphical host session"@,
                        ),
                        Some(own) => if !console.locked && own.login_done && !own.screen_locked {
                            step.out is Ok && step.tape == tape.later(3)
                        } else {
                            step.refuses(
                                name
                                    + " console requires this user's on-console graphical session to be unlocked so macOS can encrypt the VM snapshot"@,
                            )
                        },
                    })
                }
            }
            &&& step.out is Ok ==> step.tape == tape.later(3)
        }),
{
    graphical_sessions_are_called_so(name, "console"@, tape);
    the_tools_of_the_host(""@, ""@, ""@, ""@, ""@);
}

/// A program that takes the place of the command reads and writes where that does; a
/// reply means that it could not.
pub proof fn programs_take_the_place_of_the_command(
    command: CommandView,
    name: Seq<char>,
    tape: Tape,
)
    ensures
        tape.read >= tape.replies.len() ==> exec_steps(command, name, tape).waits_for(
            Ask::Exec(attached(command)),
        ),
        tape.ahead(0) matches Some(Reply::Failed(reason)) ==> exec_steps(
            command,
            name,
            tape,
        ).refuses("cannot execute "@ + name + ": "@ + reason@),
        tape.ahead(0) is Some ==> exec_steps(command, name, tape).out is Err,
{
}

/// A round of waiting for the guest: a command over SSH that succeeds ends it, and two
/// minutes without one are too many.
pub proof fn the_guest_is_waited_for(app: AppView, ip: Seq<char>, start: u64, tape: Tape)
    ensures
        ({
            let step = app.await_ssh(ip, start, tape);
            &&& tape.read >= tape.replies.len() ==> step.waits_for(
                Ask::Run(
                    CommandView {
                        output: Sink::Discarded,
                        errors: Sink::Discarded,
                        ..app.ssh_with(
                            ip,
                            seq![
                                "-o"@,
                                "ConnectTimeout=5"@,
                                "-o"@,
                                "ConnectionAttempts=1"@,
                                "/usr/bin/true"@,
                            ],
                        )
                    },
                ),
            )
            &&& tape.ahead(0) matches Some(Reply::Output(output)) ==> {
                &&& step.out is Ok <==> output.code == Some(0i32)
                &&& output.code == Some(0i32) ==> step.tape == tape.later(1)
                &&& output.code != Some(0i32) && tape.ahead(1) is None ==> step.waits_for(Ask::Now)
                &&& output.code != Some(0i32) ==> (tape.ahead(1) matches Some(Reply::Instant(now))
                    ==> {
                    &&& now - start >= 120000 ==> step.refuses(
                        "SSH did not become ready at "@ + ip,
                    )
                    &&& now - start < 120000 && tape.ahead(2) is None ==> step.waits_for(
                        Ask::Sleep(2000),
                    )
                })
            }
        }),
{
    reveal(AppView::await_ssh);
    the_commands_of_ssh(app, ip);
    let rest = seq![
        "-o"@,
        "ConnectTimeout=5"@,
        "-o"@,
        "ConnectionAttempts=1"@,
        "/usr/bin/true"@,
    ];
    assert(app.ssh_probe(ip).arguments =~= app.ssh_with(ip, rest).arguments);
}

/// The address of the guest is the one that Tart finds, once SSH answers there.
pub proof fn the_guest_answers_at_its_address(app: AppView, wait: u32, tape: Tape)
    ensures
        ({
            let found = app.vm_ip(wait, tape);
            let step = app.wait_for_ssh(wait, tape);
            &&& found.out is Err ==> step.out == found.out
            &&& found.out matches Ok(ip) ==> {
                &&& found.tape.ahead(0) is None ==> step.waits_for(Ask::Now)
                &&& found.tape.ahead(0) matches Some(Reply::Instant(start)) ==> {
                    let answered = app.await_ssh(ip, start, found.tape.later(1));
                    &&& answered.out is Ok ==> step.out == Ok::<Seq<char>, HaltView>(ip)
                        && step.tape == answered.tape
                    &&& answered.out matches Err(halt) ==> step.out == Err::<Seq<char>, HaltView>(
                        halt,
                    )
                }
            }
        }),
{
    reveal(AppView::wait_for_ssh);
}

/// Connecting is SSH as the guest user at that address, with the words that the user
/// gave.
pub proof fn connecting_is_ssh_to_the_guest(
    app: AppView,
    words: Seq<Seq<char>>,
    tape: Tape,
)
    ensures
        ({
            let ready = app.wait_for_ssh(120, tape);
            let step = app.ssh(words, tape);
            &&& ready.out matches Err(halt) ==> step.out == Err::<(), HaltView>(halt)
            &&& ready.out matches Ok(ip) ==> {
                &&& ready.tape.ahead(0) is None ==> step.waits_for(
                    Ask::Exec(attached(app.ssh_with(ip, words))),
                )
                &&& ready.tape.ahead(0) is Some ==> step.out is Err
            }
        }),
{
    reveal(AppView::ssh);
    if let Ok(ip) = app.wait_for_ssh(120, tape).out {
        lemma_ssh(app, ip, words);
    }
}

/// A VM is used where its storage is available, it exists, was provisioned and is
/// running, and the first of these that fails is the error.
pub proof fn only_a_running_vm_is_used(app: AppView, tape: Tape)
    ensures
        ({
            let ready = app.ensure_storage(StorageAccess::Background, tape);
            let found = app.vm_exists(ready.tape);
            let seen = app.vm_info(found.tape.later(1));
            let step = app.ensure_running(tape);
            &&& ready.out is Err ==> step.out == ready.out
            &&& ready.out is Ok ==> stops_with(step, found)
            &&& ready.out is Ok && found.out == Ok::<bool, HaltView>(false) ==> step.refuses(
                "VM does not exist; rerun '"@ + app.paths.install_hint() + "'"@,
            )
            &&& ready.out is Ok && found.out == Ok::<bool, HaltView>(true) ==> {
                &&& found.tape.ahead(0) is None ==> step.waits_for(
                    Ask::Exists(app.paths.provisioned),
                )
                &&& found.tape.ahead(0) == Some(Reply::Flag(false)) ==> step.refuses(
                    "VM installation is incomplete; rerun '"@ + app.paths.install_hint() + "'"@,
                )
                &&& found.tape.ahead(0) == Some(Reply::Flag(true)) ==> match seen.out {
                    Err(halt) => step.out == Err::<(), HaltView>(halt),
                    Ok(vm) => if vm.state == VmState::Running {
                        step.out is Ok && step.tape == seen.tape
                    } else {
                        step.refuses(
                            "VM is not running; run '"@ + app.paths.command_name() + " start'"@,
                        )
                    },
                }
            }
        }),
{
    reveal(AppView::ensure_running);
}

/// Screen Sharing opens the desktop of the running VM, at the address that Tart finds,
/// from a graphical session.
pub proof fn screen_sharing_opens_the_guest(app: AppView, tape: Tape)
    ensures
        ({
            let running = app.ensure_running(tape);
            let found = app.vm_ip(120, running.tape);
            let graphical = ensure_graphical_session_steps(
                app.paths.command_name(),
                "screen-share"@,
                found.tape,
            );
            let step = app.screen_share(tape);
            &&& running.out is Err ==> step.out == running.out
            &&& running.out is Ok ==> match found.out {
                Err(halt) => step.out == Err::<(), HaltView>(halt),
                Ok(ip) => {
                    let open = graphical.tape;
                    &&& graphical.out is Err ==> step.out == graphical.out
                    &&& graphical.out is Ok ==> {
                        &&& open.ahead(0) is None ==> step.waits_for(
                            Ask::Run(program("/usr/bin/open"@, seq!["vnc://"@ + ip])),
                        )
                        &&& open.ahead(0) matches Some(Reply::Output(output)) ==> {
                            &&& output.code != Some(0i32) ==> step.out is Err
                            &&& output.code == Some(0i32) && open.ahead(1) is None
                                ==> step.waits_for(
                                Ask::Print(
                                    "screen sharing: "@ + app.config.guest_user + "@"@ + ip,
                                ),
                            )
                            &&& output.code == Some(0i32) && open.ahead(1) == Some(Reply::Done)
                                ==> step.out is Ok
                        }
                    }
                },
            }
        }),
{
    reveal(AppView::screen_share);
    if let Ok(ip) = app.vm_ip(120, app.ensure_running(tape).tape).out {
        the_tools_of_the_host(ip, ip, ip, ip, ip);
    }
}

/// The packaged binary is copied into the guest, to a file for the guest user alone.
pub proof fn tailscale_is_uploaded(app: AppView, ip: Seq<char>, tape: Tape)
    ensures
        ({
            let upload = "/Users/"@ + app.config.guest_user + "/.gremvm-tailscaled"@;
            let step = app.upload_tailscale(ip, tape);
            &&& tape.read >= tape.replies.len() ==> step.waits_for(
                Ask::IsFile(app.paths.guest_tailscale),
            )
            &&& tape.ahead(0) == Some(Reply::Flag(false)) ==> step.refuses(
                "the packaged Tailscale binary is missing"@,
            )
            &&& tape.ahead(0) == Some(Reply::Flag(true)) && tape.ahead(1) is None
                ==> step.waits_for(Ask::OpenInput(app.paths.guest_tailscale))
            &&& tape.ahead(0) == Some(Reply::Flag(true)) && tape.ahead(1) == Some(Reply::Done)
                ==> {
                &&& tape.ahead(2) is None ==> step.waits_for(
                    Ask::Run(
                        CommandView {
                            input: InputView::Opened,
                            ..app.ssh_with(
                                ip,
                                seq![
                                    "umask 077; /bin/cat > "@ + upload + " && /bin/chmod 0700 "@
                                        + upload,
                                ],
                            )
                        },
                    ),
                )
                &&& tape.ahead(2) matches Some(Reply::Output(output)) ==> (step.out is Ok
                    <==> output.code == Some(0i32))
            }
            &&& step.out is Ok ==> step.tape == tape.later(3)
        }),
{
    reveal(AppView::upload_tailscale);
    let upload = "/Users/"@ + app.config.guest_user + "/.gremvm-tailscaled"@;
    the_scripts_of_the_guest(app, upload, ""@);
    lemma_ssh(
        app,
        ip,
        seq!["umask 077; /bin/cat > "@ + upload + " && /bin/chmod 0700 "@ + upload],
    );
}

/// The digest is that of the packaged binary.
pub proof fn the_packaged_binary_is_hashed(app: AppView, tape: Tape)
    ensures
        ({
            let step = app.tailscale_digest(tape);
            &&& tape.read >= tape.replies.len() ==> step.waits_for(
                Ask::Run(
                    program("/usr/bin/shasum"@, seq!["-a"@, "256"@, app.paths.guest_tailscale]),
                ),
            )
            &&& step.out matches Ok(digest) ==> {
                &&& tape.ahead(0) matches Some(Reply::Output(output)) && output.code == Some(0i32)
                    && first_word(trimmed(decode_utf8(output.stdout@))) == Some(digest)
                &&& digest_shaped(digest)
                &&& step.tape == tape.later(1)
            }
            &&& tape.ahead(0) matches Some(Reply::Output(output)) ==> {
                let word = first_word(trimmed(decode_utf8(output.stdout@)));
                output.code == Some(0i32) && valid_utf8(output.stdout@) && word is Some
                    && digest_shaped(word->0) ==> step.out is Ok
            }
        }),
{
    reveal(AppView::tailscale_digest);
    let command = CommandView::new("/usr/bin/shasum"@).option("-a"@, "256"@).arg(
        app.paths.guest_tailscale,
    );
    assert(command.arguments =~= seq!["-a"@, "256"@, app.paths.guest_tailscale]);
}

/// Root in the guest installs the upload where it has that digest; the password is the
/// line that `sudo` reads.
pub proof fn tailscale_is_installed_by_its_digest(
    app: AppView,
    ip: Seq<char>,
    digest: Seq<char>,
    password: Seq<char>,
    tape: Tape,
)
    ensures
        ({
            let upload = "/Users/"@ + app.config.guest_user + "/.gremvm-tailscaled"@;
            let step = app.install_tailscale(ip, digest, password, tape);
            &&& tape.read >= tape.replies.len() ==> step.waits_for(
                Ask::Run(
                    CommandView {
                        input: InputView::Bytes(encode_utf8(password + "\n"@)),
                        ..app.ssh_with(
                            ip,
                            seq![
                                crate::tailscale::STAGE_SCRIPT@ + upload
                                    + crate::tailscale::DIGEST_SCRIPT@ + digest
                                    + crate::tailscale::DAEMON_SCRIPT@ + upload
                                    + "; exit $result"@,
                            ],
                        )
                    },
                ),
            )
            &&& tape.ahead(0) matches Some(Reply::Output(output)) ==> (step.out is Ok
                <==> output.code == Some(0i32))
            &&& step.out is Ok ==> step.tape == tape.later(1)
        }),
{
    reveal(AppView::install_tailscale);
    let upload = "/Users/"@ + app.config.guest_user + "/.gremvm-tailscaled"@;
    the_scripts_of_the_guest(app, upload, digest);
    lemma_ssh(app, ip, seq![crate::tailscale::install_script(upload, digest)]);
}

/// Tailscale is connected under the name of the VM, for its guest user, where the user
/// sees the address to authenticate at.
pub proof fn tailscale_joins_under_the_name_of_the_vm(app: AppView, ip: Seq<char>, tape: Tape)
    ensures
        ({
            let step = app.connect_tailscale(ip, tape);
            &&& tape.read >= tape.replies.len() ==> step.waits_for(
                Ask::Print("authenticate using the URL below if Tailscale asks..."@),
            )
            &&& tape.ahead(0) == Some(Reply::Done) && tape.ahead(1) is None ==> step.waits_for(
                Ask::Run(
                    attached(
                        app.ssh_with(
                            ip,
                            seq![
                                "/usr/local/bin/tailscale up --accept-dns=false --hostname="@
                                    + app.config.vm_name + " --operator="@ + app.config.guest_user,
                            ],
                        ),
                    ),
                ),
            )
            &&& tape.ahead(0) == Some(Reply::Done) ==> (tape.ahead(1) matches Some(
                Reply::Output(output),
            ) ==> {
                &&& output.code == Some(0i32) ==> step.out is Ok && step.tape == tape.later(2)
                &&& output.code != Some(0i32) ==> step.refuses(
                    "failed to connect Tailscale in the guest"@,
                )
            })
        }),
{
    reveal(AppView::connect_tailscale);
    the_scripts_of_the_guest(app, ""@, ""@);
    lemma_ssh(
        app,
        ip,
        seq![
            "/usr/local/bin/tailscale up --accept-dns=false --hostname="@ + app.config.vm_name
                + " --operator="@ + app.config.guest_user,
        ],
    );
}

/// Setting up Tailscale uploads the binary, hashes the packaged one, installs the
/// upload by that digest with the guest password, waits until it answers, and connects.
pub proof fn tailscale_is_set_up_in_order(app: AppView, ip: Seq<char>, tape: Tape)
    ensures
        ({
            let uploaded = app.upload_tailscale(ip, tape);
            let hashed = app.tailscale_digest(uploaded.tape);
            let password = app.guest_password(hashed.tape);
            let installed = app.install_tailscale(
                ip,
                hashed.out->Ok_0,
                password.out->Ok_0,
                password.tape,
            );
            let step = app.setup_tailscale(ip, tape);
            &&& uploaded.out is Err ==> step.out == uploaded.out
            &&& uploaded.out is Ok ==> stops_with(step, hashed)
            &&& uploaded.out is Ok && hashed.out is Ok ==> stops_with(step, password)
            &&& uploaded.out is Ok && hashed.out is Ok && password.out is Ok ==> {
                &&& installed.out is Err ==> step.out == installed.out
                &&& installed.out is Ok && installed.tape.ahead(0) is None ==> step.waits_for(
                    Ask::Run(app.ssh_with(ip, seq![crate::tailscale::READY_SCRIPT@])),
                )
                &&& installed.out is Ok ==> (installed.tape.ahead(0) matches Some(
                    Reply::Output(output),
                ) ==> if output.code == Some(0i32) {
                    step == app.connect_tailscale(ip, installed.tape.later(1))
                } else {
                    step.out is Err
                })
            }
        }),
{
    reveal(AppView::setup_tailscale);
    lemma_ssh(app, ip, seq![crate::tailscale::READY_SCRIPT@]);
}

/// The state of Tailscale is what the guest reports.
pub proof fn the_guest_reports_on_tailscale(app: AppView, ip: Seq<char>, tape: Tape)
    ensures
        ({
            let step = app.tailscale_state(ip, tape);
            &&& tape.read >= tape.replies.len() ==> step.waits_for(
                Ask::Run(app.ssh_with(ip, seq![crate::tailscale::STATE_SCRIPT@])),
            )
            &&& tape.ahead(0) matches Some(Reply::Output(output)) ==> {
                &&& output.code != Some(0i32) ==> step.out is Err
                &&& output.code == Some(0i32) && valid_utf8(output.stdout@)
                    ==> match reported_state(trimmed(decode_utf8(output.stdout@))) {
                    Ok(state) => step.out == Ok::<TailscaleStateView, HaltView>(state),
                    Err(messages) => step.out == Err::<TailscaleStateView, HaltView>(
                        HaltView::Failed(messages),
                    ),
                }
            }
            &&& step.out is Ok ==> step.tape == tape.later(1)
        }),
{
    reveal(AppView::tailscale_state);
    lemma_ssh(app, ip, seq![crate::tailscale::STATE_SCRIPT@]);
}

/// What is said about Tailscale: its state; how to set it up where it is not connected,
/// and how to use it where it is.
pub proof fn the_state_of_tailscale_is_told(app: AppView, ip: Seq<char>, tape: Tape)
    requires
        app.tailscale_state(ip, tape).out is Ok,
    ensures
        ({
            let told = app.tailscale_state(ip, tape).tape;
            let step = app.print_tailscale_status(ip, tape);
            match app.tailscale_state(ip, tape).out->Ok_0 {
                TailscaleStateView::Connected { ip: address } => {
                    &&& told.ahead(0) is None ==> step.waits_for(Ask::Print("tailscale: connected"@))
                    &&& told.ahead(0) == Some(Reply::Done) && told.ahead(1) is None
                        ==> step.waits_for(Ask::Print("tailscale-ip: "@ + address))
                    &&& told.ahead(0) == Some(Reply::Done) && told.ahead(1) == Some(Reply::Done)
                        && told.ahead(2) is None ==> step.waits_for(
                        Ask::Print("ssh: ssh "@ + app.config.guest_user + "@"@ + address),
                    )
                    &&& told.ahead(0) == Some(Reply::Done) && told.ahead(1) == Some(Reply::Done)
                        && told.ahead(2) == Some(Reply::Done) && told.ahead(3) is None
                        ==> step.waits_for(Ask::Print("screen-sharing: vnc://"@ + address))
                },
                state => {
                    &&& told.ahead(0) is None ==> step.waits_for(
                        Ask::Print(
                            if state is NotInstalled {
                                "tailscale: not-installed"@
                            } else {
                                "tailscale: disconnected"@
                            },
                        ),
                    )
                    &&& told.ahead(0) == Some(Reply::Done) && told.ahead(1) is None
                        ==> step.waits_for(
                        Ask::Print("next: "@ + app.paths.command_name() + " tailscale setup"@),
                    )
                },
            }
        }),
{
    reveal(AppView::print_tailscale_status);
}

/// Tailscale is managed in a running VM once SSH answers there: set up where that was
/// asked for, and its state is told in any case.
pub proof fn tailscale_is_managed_in_a_running_vm(
    app: AppView,
    action: TailscaleAction,
    tape: Tape,
)
    ensures
        ({
            let running = app.ensure_running(tape);
            let reached = app.wait_for_ssh(120, running.tape);
            let step = app.tailscale(action, tape);
            &&& running.out is Err ==> step.out == running.out
            &&& running.out is Ok ==> match reached.out {
                Err(halt) => step.out == Err::<(), HaltView>(halt),
                Ok(ip) => match action {
                    TailscaleAction::Status => step == app.print_tailscale_status(
                        ip,
                        reached.tape,
                    ),
                    TailscaleAction::Setup => {
                        let ready = app.setup_tailscale(ip, reached.tape);
                        &&& ready.out is Err ==> step.out == ready.out
                        &&& ready.out is Ok ==> step == app.print_tailscale_status(ip, ready.tape)
                    },
                },
            }
        }),
{
    reveal(AppView::tailscale);
}

} // verus!
