//! The life of a VM: started, watched, run by its service and deleted.

use crate::app::AppView;
use crate::command::CommandView;
use crate::facts::{LinkKind, VmInfo, VmState};
use crate::files::{leads_to_steps, remove_if_present_steps, touch_steps};
use crate::machine::validate_bridge_steps;
use crate::path::join;
use crate::promises::{attached, program, stops_with, with_arguments};
use crate::promises::commands::the_commands_of_tart;
use crate::promises::steps::removed_files_are_gone;
use crate::promises::vm::tart_is_the_packaged_one;
use crate::service::service_loaded_steps;
use crate::session::{Ask, HaltView, Reply, Tape};
use crate::text::decimal;
use crate::unlock::KeychainMode;
use crate::volume::StorageAccess;
use vstd::prelude::*;

verus! {

/// A VM can be started exactly where its service is defined, both Keychains are
/// unlocked, its storage is available, it exists, was provisioned and is what the
/// settings say, and the bridge is there.
pub proof fn vms_are_checked_before_they_start(app: AppView, tape: Tape)
    requires
        tape.ahead(0) is Some,
    ensures
        ({
            let installed = tape.ahead(0) == Some(Reply::Flag(true));
            let own = app.ensure_keychain(KeychainMode::Current, tape.later(1));
            let other = app.ensure_keychain(KeychainMode::BackgroundInteractive, own.tape);
            let ready = app.ensure_storage(StorageAccess::Interactive, other.tape);
            let found = app.vm_exists(ready.tape);
            let verified = app.verify_config(found.tape.later(1));
            let bridge = validate_bridge_steps(verified.tape);
            let open = installed && own.out is Ok && other.out is Ok && ready.out is Ok;
            let exists = found.out == Ok::<bool, HaltView>(true);
            let provisioned = found.tape.ahead(0) == Some(Reply::Flag(true));
            let step = app.preflight_start(tape);
            &&& step.out is Ok <==> open && exists && provisioned && verified.out is Ok
                && bridge.out is Ok
            &&& step.out is Ok ==> step.tape == bridge.tape
            &&& tape.ahead(0) == Some(Reply::Flag(false)) ==> step.refuses(
                "run '"@ + app.paths.install_hint() + "' first"@,
            )
            &&& open && found.out == Ok::<bool, HaltView>(false) ==> step.refuses(
                "VM does not exist; rerun '"@ + app.paths.install_hint() + "'"@,
            )
            &&& open && exists && found.tape.ahead(0) is None ==> step.waits_for(
                Ask::Exists(app.paths.provisioned),
            )
            &&& open && exists && found.tape.ahead(0) == Some(Reply::Flag(false)) ==> step.refuses(
                "VM installation is incomplete; rerun '"@ + app.paths.install_hint() + "'"@,
            )
        }),
{
    reveal(AppView::preflight_start);
}

/// Whether a VM was installed is asked first.
pub proof fn the_service_must_be_defined(app: AppView, tape: Tape)
    requires
        tape.read >= tape.replies.len(),
    ensures
        app.preflight_start(tape).waits_for(Ask::IsFile(app.paths.service_plist)),
        app.start(tape).waits_for(Ask::IsFile(app.paths.service_plist)),
        app.restart(tape).waits_for(Ask::IsFile(app.paths.service_plist)),
{
    reveal(AppView::preflight_start);
    reveal(AppView::start);
    reveal(AppView::restart);
}

/// A VM is marked to run, its service is started, and once SSH answers it is said where.
pub proof fn vms_run_until_ssh_answers(app: AppView, tape: Tape)
    ensures
        ({
            let marked = touch_steps(app.paths.state, app.paths.run_marker, tape);
            let started = app.start_service(marked.tape);
            let reached = app.wait_for_ssh(300, started.tape);
            let step = app.start_ready(tape);
            &&& marked.out is Err ==> step.out == marked.out
            &&& marked.out is Ok && started.out is Err ==> step.out == started.out
            &&& marked.out is Ok && started.out is Ok ==> match reached.out {
                Err(halt) => step.out == Err::<(), HaltView>(halt),
                Ok(ip) => {
                    &&& reached.tape.ahead(0) is None ==> step.waits_for(
                        Ask::Print("running: "@ + app.config.guest_user + "@"@ + ip),
                    )
                    &&& reached.tape.ahead(0) == Some(Reply::Done) ==> step.out is Ok
                },
            }
        }),
{
    reveal(AppView::start_ready);
}

/// Starting checks first and then runs; restarting stops in between.
pub proof fn starting_is_checking_and_running(app: AppView, tape: Tape)
    ensures
        ({
            let checked = app.preflight_start(tape);
            let stopped = app.stop(checked.tape);
            &&& checked.out is Err ==> app.start(tape).out == checked.out && app.restart(tape).out
                == checked.out
            &&& checked.out is Ok ==> app.start(tape) == app.start_ready(checked.tape)
            &&& checked.out is Ok && stopped.out is Err ==> app.restart(tape).out == stopped.out
            &&& checked.out is Ok && stopped.out is Ok ==> app.restart(tape) == app.start_ready(
                stopped.tape,
            )
        }),
{
    reveal(AppView::start);
    reveal(AppView::restart);
}

/// A VM is supervised where it is marked to run and launchd knows its service.
pub proof fn supervised_vms_are_marked_and_loaded(app: AppView, tape: Tape)
    ensures
        ({
            let step = app.supervised(tape);
            let known = service_loaded_steps(app.paths.service_target(app.host), tape.later(1));
            &&& tape.read >= tape.replies.len() ==> step.waits_for(
                Ask::Exists(app.paths.run_marker),
            )
            &&& tape.ahead(0) == Some(Reply::Flag(false)) ==> step.out == Ok::<bool, HaltView>(
                false,
            ) && step.tape == tape.later(1)
            &&& tape.ahead(0) == Some(Reply::Flag(true)) ==> step == known
        }),
{
    reveal(AppView::supervised);
}

/// The address of a running VM is what Tart knows without waiting; a VM that does not
/// run has none.
pub proof fn only_running_vms_have_an_address(app: AppView, state: VmState, tape: Tape)
    ensures
        ({
            let found = app.vm_ip(0, tape);
            let step = app.known_ip(state, tape);
            &&& state != VmState::Running ==> step.out == Ok::<Option<Seq<char>>, HaltView>(None)
                && step.tape == tape
            &&& state == VmState::Running ==> match found.out {
                Ok(ip) => step.out == Ok::<Option<Seq<char>>, HaltView>(Some(ip)) && step.tape
                    == found.tape,
                Err(HaltView::Failed(_)) => step.out == Ok::<Option<Seq<char>>, HaltView>(None)
                    && step.tape == found.tape,
                Err(halt) => step.out == Err::<Option<Seq<char>>, HaltView>(halt),
            }
        }),
{
    reveal(AppView::known_ip);
}

/// The status of a VM: its state in a word, and what Tart describes.
pub proof fn the_status_is_told(app: AppView, tape: Tape)
    ensures
        ({
            let found = app.vm_exists(tape);
            let seen = app.vm_info(found.tape);
            let vm = seen.out->Ok_0;
            let known = app.known_ip(vm.state, seen.tape);
            let supervised = app.supervised(known.tape);
            let asked = supervised.tape;
            let step = app.status(tape);
            &&& stops_with(step, found)
            &&& found.out == Ok::<bool, HaltView>(false) && found.tape.ahead(0) is None
                ==> step.waits_for(Ask::Print("state: incomplete"@))
            &&& found.out == Ok::<bool, HaltView>(true) ==> {
                &&& stops_with(step, seen)
                &&& seen.out is Ok ==> stops_with(step, known)
                &&& seen.out is Ok && known.out is Ok ==> stops_with(step, supervised)
                &&& seen.out is Ok && known.out is Ok && supervised.out is Ok ==> {
                    let ip = known.out->Ok_0;
                    let wanted = supervised.out->Ok_0;
                    &&& asked.ahead(0) is None ==> step.waits_for(
                        Ask::Exists(app.paths.provisioned),
                    )
                    &&& asked.ahead(0) == Some(Reply::Flag(false)) && asked.ahead(1) is None
                        ==> step.waits_for(Ask::Print("state: "@ + "incomplete"@))
                    &&& asked.ahead(0) == Some(Reply::Flag(true)) && asked.ahead(1) is None
                        ==> step.waits_for(
                        Ask::Print(
                            "state: "@ + match vm.state {
                                VmState::Running => if ip is Some {
                                    "running"@
                                } else {
                                    "running-address-unknown"@
                                },
                                VmState::Suspended => if wanted {
                                    "starting"@
                                } else {
                                    "suspended"@
                                },
                                VmState::Stopped => if wanted {
                                    "starting"@
                                } else {
                                    "stopped"@
                                },
                            },
                        ),
                    )
                    &&& (asked.ahead(0) matches Some(Reply::Flag(_))) && asked.ahead(1) == Some(
                        Reply::Done,
                    ) ==> {
                        let rest = if ip is Some { asked.later(3) } else { asked.later(2) };
                        &&& ip is Some && asked.ahead(2) is None ==> step.waits_for(
                            Ask::Print("ip: "@ + ip->0),
                        )
                        &&& ip is Some ==> (asked.ahead(2) == Some(Reply::Done) ==> step
                            == app.report_vm(vm, rest))
                        &&& ip is None ==> step == app.report_vm(vm, rest)
                    }
                }
            }
        }),
{
    reveal(AppView::status);
}

/// What is told of a VM: its name and size as Tart describes them, and its network.
pub proof fn a_vm_is_described(app: AppView, vm: VmInfo, tape: Tape)
    ensures
        ({
            let step = app.report_vm(vm, tape);
            &&& tape.read >= tape.replies.len() ==> step.waits_for(
                Ask::Print("name: "@ + app.config.vm_name),
            )
            &&& tape.ahead(0) == Some(Reply::Done) ==> {
                &&& tape.ahead(1) is None ==> step.waits_for(
                    Ask::Print("cpu: "@ + decimal(vm.cpu as nat)),
                )
                &&& tape.ahead(1) == Some(Reply::Done) ==> {
                    &&& tape.ahead(2) is None ==> step.waits_for(
                        Ask::Print("memory-gb: "@ + decimal((vm.memory / 1024) as nat)),
                    )
                    &&& tape.ahead(2) == Some(Reply::Done) ==> {
                        &&& tape.ahead(3) is None ==> step.waits_for(
                            Ask::Print("disk-gb: "@ + decimal(vm.disk as nat)),
                        )
                        &&& tape.ahead(3) == Some(Reply::Done) && tape.ahead(4) is None
                            ==> step.waits_for(Ask::Print("network: bridged:"@ + "en0"@))
                        &&& tape.ahead(3) == Some(Reply::Done) && tape.ahead(4) == Some(
                            Reply::Done,
                        ) ==> step.out is Ok
                    }
                }
            }
        }),
{
}

/// The logs are those of the service, shown by a tool that takes the place of the
/// command.
pub proof fn the_logs_are_those_of_the_service(app: AppView, follow: bool, tape: Tape)
    requires
        tape.read >= tape.replies.len(),
    ensures
        app.logs(follow, tape).waits_for(
            Ask::Exec(
                attached(
                    program(
                        "/usr/bin/tail"@,
                        if follow {
                            seq![
                                "-n"@,
                                "200"@,
                                "-F"@,
                                join(app.paths.logs, "vm.log"@),
                                join(app.paths.logs, "vm.error.log"@),
                            ]
                        } else {
                            seq![
                                "-n"@,
                                "200"@,
                                join(app.paths.logs, "vm.log"@),
                                join(app.paths.logs, "vm.error.log"@),
                            ]
                        },
                    ),
                ),
            ),
        ),
{
    reveal(AppView::logs);
    let tail = CommandView::new("/usr/bin/tail"@).option("-n"@, "200"@);
    let one = join(app.paths.logs, "vm.log"@);
    let other = join(app.paths.logs, "vm.error.log"@);
    assert(tail.arg("-F"@).arg(one).arg(other).arguments =~= seq![
        "-n"@,
        "200"@,
        "-F"@,
        one,
        other,
    ]);
    assert(tail.arg(one).arg(other).arguments =~= seq!["-n"@, "200"@, one, other]);
}

/// The command of a VM is removed where it is a link to the packaged one, and left alone
/// otherwise.
pub proof fn only_the_own_command_is_removed(app: AppView, tape: Tape)
    ensures
        ({
            let link = app.paths.command_link;
            let step = app.remove_command(tape);
            let own = leads_to_steps(Ask::ReadLink(link), app.paths.bin("gremvm"@), tape.later(1));
            &&& tape.read >= tape.replies.len() ==> step.waits_for(Ask::LinkKind(link))
            &&& tape.ahead(0) matches Some(reply) ==> (reply != Reply::Link(LinkKind::Symlink)
                ==> step.out is Ok && step.tape == tape.later(1))
            &&& tape.ahead(0) == Some(Reply::Link(LinkKind::Symlink)) ==> {
                &&& own.out matches Err(halt) ==> step.out == Err::<(), HaltView>(halt)
                &&& own.out == Ok::<bool, HaltView>(false) ==> step.out is Ok && step.tape
                    == own.tape
                &&& own.out == Ok::<bool, HaltView>(true) ==> step == remove_if_present_steps(
                    link,
                    own.tape,
                )
            }
        }),
{
    reveal(AppView::remove_command);
}

/// Deleting a VM makes its storage available, stops and deletes it, and then removes its
/// service definitions, its command and its runtime.
pub proof fn uninstalling_removes_the_vm_and_its_service(app: AppView, tape: Tape)
    ensures
        ({
            let ready = app.ensure_storage(StorageAccess::Interactive, tape);
            let stopped = app.stop_vm(ready.tape);
            let deleted = app.delete_vm(stopped.tape);
            let gone = deleted.tape;
            let good = ready.out is Ok && stopped.out is Ok && deleted.out is Ok;
            let command = app.remove_command(gone.later(2));
            let done = |reply: Option<Reply>|
                reply == Some(Reply::Done) || (reply matches Some(Reply::Missing(_)));
            let step = app.uninstall(tape);
            &&& ready.out is Err ==> step.out == ready.out
            &&& ready.out is Ok && stopped.out is Err ==> step.out == stopped.out
            &&& ready.out is Ok && stopped.out is Ok && deleted.out is Err ==> step.out
                == deleted.out
            &&& good && gone.ahead(0) is None ==> step.waits_for(
                Ask::RemoveFile(app.paths.service_plist),
            )
            &&& good && done(gone.ahead(0)) && gone.ahead(1) is None ==> step.waits_for(
                Ask::RemoveFile(app.paths.autoload_agent()),
            )
            &&& good && done(gone.ahead(0)) && done(gone.ahead(1)) ==> {
                &&& command.out is Err ==> step.out == command.out
                &&& command.out is Ok && command.tape.ahead(0) is None ==> step.waits_for(
                    Ask::RemoveFile(app.paths.runtime),
                )
                &&& command.out is Ok && done(command.tape.ahead(0)) && command.tape.ahead(1) is None
                    ==> step.waits_for(Ask::Print("uninstalled: "@ + app.config.vm_name))
                &&& command.out is Ok && done(command.tape.ahead(0)) && command.tape.ahead(1)
                    == Some(Reply::Done) ==> step.out is Ok
            }
        }),
{
    reveal(AppView::uninstall);
    let gone = app.delete_vm(
        app.stop_vm(app.ensure_storage(StorageAccess::Interactive, tape).tape).tape,
    ).tape;
    removed_files_are_gone(app.paths.service_plist, gone);
    removed_files_are_gone(app.paths.autoload_agent(), gone.later(1));
    removed_files_are_gone(app.paths.runtime, app.remove_command(gone.later(2)).tape);
}

/// The service becomes Tart, which runs the VM without a window on the bridge, where
/// the VM is marked to run and provisioned, the Keychain is unlocked, the storage is
/// available, and the VM exists and is what the settings say. It ends quietly where the
/// VM is not wanted or not there.
pub proof fn the_service_becomes_tart(app: AppView, tape: Tape)
    ensures
        ({
            let own = app.ensure_keychain(KeychainMode::Background, tape.later(2));
            let ready = app.ensure_storage(StorageAccess::Background, own.tape);
            let found = app.vm_exists(ready.tape);
            let bridge = validate_bridge_steps(found.tape);
            let verified = app.verify_config(bridge.tape);
            let tart = app.tart(verified.tape);
            let step = app.internal_run(tape);
            let wanted = tape.ahead(0) == Some(Reply::Flag(true)) && tape.ahead(1) == Some(
                Reply::Flag(true),
            );
            &&& tape.read >= tape.replies.len() ==> step.waits_for(
                Ask::Exists(app.paths.run_marker),
            )
            &&& tape.ahead(0) == Some(Reply::Flag(false)) ==> step.out is Ok
            &&& tape.ahead(0) == Some(Reply::Flag(true)) && tape.ahead(1) is None
                ==> step.waits_for(Ask::Exists(app.paths.provisioned))
            &&& tape.ahead(0) == Some(Reply::Flag(true)) && tape.ahead(1) == Some(
                Reply::Flag(false),
            ) ==> step.out is Ok
            &&& wanted ==> {
                &&& own.out is Err ==> step.out == own.out
                &&& own.out is Ok && ready.out is Err ==> step.out == ready.out
                &&& own.out is Ok && ready.out is Ok ==> stops_with(step, found)
                &&& own.out is Ok && ready.out is Ok && found.out == Ok::<bool, HaltView>(false)
                    ==> step.out is Ok
                &&& own.out is Ok && ready.out is Ok && found.out == Ok::<bool, HaltView>(true) ==> {
                    &&& bridge.out is Err ==> step.out == bridge.out
                    &&& bridge.out is Ok && verified.out is Err ==> step.out == verified.out
                    &&& bridge.out is Ok && verified.out is Ok ==> stops_with(step, tart)
                    &&& bridge.out is Ok && verified.out is Ok && tart.out is Ok
                        && tart.tape.ahead(0) is None ==> step.waits_for(
                        Ask::Exec(
                            attached(
                                CommandView {
                                    arguments: seq![
                                        "run"@,
                                        "--no-graphics"@,
                                        "--suspendable"@,
                                        "--net-bridged="@ + "en0"@,
                                        app.config.vm_name,
                                    ],
                                    ..app.packaged_tart()
                                },
                            ),
                        ),
                    )
                }
            }
        }),
{
    reveal(AppView::internal_run);
    let own = app.ensure_keychain(KeychainMode::Background, tape.later(2));
    let ready = app.ensure_storage(StorageAccess::Background, own.tape);
    let found = app.vm_exists(ready.tape);
    let verified = app.verify_config(validate_bridge_steps(found.tape).tape);
    tart_is_the_packaged_one(app, verified.tape);
    the_commands_of_tart(app, app.packaged_tart(), 0);
    let arguments = seq![
        "run"@,
        "--no-graphics"@,
        "--suspendable"@,
        "--net-bridged="@ + "en0"@,
        app.config.vm_name,
    ];
    assert(with_arguments(app.packaged_tart(), arguments).arguments =~= arguments);
}

} // verus!
