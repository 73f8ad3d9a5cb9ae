//! The VM: how it is found, described, stopped and deleted.

use crate::app::AppView;
use crate::command::{CommandView, VariableView};
use crate::config::StorageView;
use crate::error::Messages;
use crate::facts::{VmInfo, VmState};
use crate::files::remove_if_present_steps;
use crate::machine::{sysctl_steps, validate_bridge_steps};
use crate::promises::{program, stops_with, with_arguments};
use crate::promises::commands::{
    the_commands_of_tart, the_storage_of_a_command, the_tools_of_the_host,
};
use crate::promises::steps::removed_files_are_gone;
use crate::promises::storage::{recorded, stands_at, volumes_are_reported};
use crate::session::{Ask, HaltView, Reply, Tape};
use crate::text::{decimal, lines, number, trimmed};
use crate::volume::{StorageAccess, VolumeKind};
use vstd::prelude::*;
use vstd::utf8::{decode_utf8, valid_utf8};

verus! {

impl AppView {
    /// The packaged Tart, on the storage of the VM.
    pub open spec fn packaged_tart(self) -> CommandView {
        CommandView {
            environment: seq![
                VariableView {
                    name: "TART_HOME"@,
                    value: match self.config.storage {
                        StorageView::Default => None,
                        StorageView::Directory { path } => Some(path),
                        StorageView::PlainVolume(volume) => Some(volume.path),
                        StorageView::EncryptedVolume(volume) => Some(volume.path),
                    },
                },
            ],
            ..program(self.paths.bin("tart"@), Seq::empty())
        }
    }

    /// A command of Tart.
    pub open spec fn tart_with(self, arguments: Seq<Seq<char>>) -> Ask {
        Ask::Run(CommandView { arguments, ..self.packaged_tart() })
    }
}

/// A command becomes one on the storage of the VM once that is available in the
/// background.
pub proof fn commands_get_available_storage(app: AppView, command: CommandView, tape: Tape)
    ensures
        ({
            let ready = app.ensure_storage(StorageAccess::Background, tape);
            let step = app.configure_tart_storage(command, tape);
            &&& ready.out matches Err(halt) ==> step.out == Err::<CommandView, HaltView>(halt)
            &&& ready.out is Ok ==> step.tape == ready.tape && (step.out matches Ok(configured)
                && configured == CommandView {
                environment: command.environment.push(
                    VariableView {
                        name: "TART_HOME"@,
                        value: match app.config.storage {
                            StorageView::Default => None,
                            StorageView::Directory { path } => Some(path),
                            StorageView::PlainVolume(volume) => Some(volume.path),
                            StorageView::EncryptedVolume(volume) => Some(volume.path),
                        },
                    },
                ),
                ..command
            })
        }),
{
    reveal(AppView::configure_tart_storage);
    the_storage_of_a_command(app, command);
}

/// Tart is the packaged one, where it can be executed, on the storage of the VM, once
/// that is available.
pub proof fn tart_is_the_packaged_one(app: AppView, tape: Tape)
    ensures
        ({
            let step = app.tart(tape);
            &&& tape.read >= tape.replies.len() ==> step.waits_for(
                Ask::FileMode(app.paths.bin("tart"@)),
            )
            &&& tape.ahead(0) matches Some(reply) ==> {
                let found = reply matches Reply::Mode { file, mode } && file && mode & 0o111 != 0;
                let ready = app.ensure_storage(StorageAccess::Background, tape.later(1));
                &&& !found ==> step.refuses("Tart is not installed"@)
                &&& found ==> match ready.out {
                    Err(halt) => step.out == Err::<CommandView, HaltView>(halt),
                    Ok(()) => step.out == Ok::<CommandView, HaltView>(app.packaged_tart())
                        && step.tape == ready.tape,
                }
            }
            &&& step.out matches Ok(tart) ==> tart == app.packaged_tart()
        }),
{
    reveal(AppView::tart);
    let bare = program(app.paths.bin("tart"@), Seq::empty());
    commands_get_available_storage(app, bare, tape.later(1));
    assert(bare.environment.push(app.packaged_tart().environment[0])
        =~= app.packaged_tart().environment);
    assert(CommandView::new(app.paths.bin("tart"@)) == bare);
}

/// The VM exists where Tart lists its name on a line of its own.
pub proof fn a_vm_exists_where_tart_lists_it(app: AppView, tape: Tape)
    ensures
        ({
            let ready = app.tart(tape);
            let step = app.vm_exists(tape);
            &&& stops_with(step, ready)
            &&& ready.out is Ok ==> {
                &&& ready.tape.ahead(0) is None ==> step.waits_for(
                    app.tart_with(seq!["list"@, "--source"@, "local"@, "--quiet"@]),
                )
                &&& ready.tape.ahead(0) matches Some(Reply::Output(output)) ==> {
                    &&& output.code != Some(0i32) ==> step.out is Err
                    &&& output.code == Some(0i32) && valid_utf8(output.stdout@) ==> step.out
                        == Ok::<bool, HaltView>(
                        lines(trimmed(decode_utf8(output.stdout@))).contains(app.config.vm_name),
                    )
                }
            }
            &&& step.out is Ok ==> ready.out is Ok && step.tape == ready.tape.later(1)
        }),
{
    reveal(AppView::vm_exists);
    tart_is_the_packaged_one(app, tape);
    the_commands_of_tart(app, app.packaged_tart(), 0);
    assert(with_arguments(
        app.packaged_tart(),
        seq!["list"@, "--source"@, "local"@, "--quiet"@],
    ).arguments =~= seq!["list"@, "--source"@, "local"@, "--quiet"@]);
}

/// What is known of the VM is what Tart describes.
pub proof fn tart_describes_the_vm(app: AppView, tape: Tape)
    ensures
        ({
            let ready = app.tart(tape);
            let step = app.vm_info(tape);
            &&& ready.out matches Err(halt) ==> step.out == Err::<VmInfo, HaltView>(halt)
            &&& ready.out is Ok ==> {
                &&& ready.tape.ahead(0) is None ==> step.waits_for(
                    app.tart_with(seq!["get"@, app.config.vm_name, "--format"@, "json"@]),
                )
                &&& ready.tape.ahead(0) matches Some(Reply::Output(output)) ==> {
                    &&& output.code != Some(0i32) ==> step.out is Err
                    &&& output.code == Some(0i32) && valid_utf8(output.stdout@)
                        && ready.tape.ahead(1) is None ==> step.waits_for(
                        Ask::DecodeVm(trimmed(decode_utf8(output.stdout@))),
                    )
                    &&& output.code == Some(0i32) && valid_utf8(output.stdout@) ==> (
                    ready.tape.ahead(1) matches Some(Reply::Vm(vm)) ==> step.out == Ok::<
                        VmInfo,
                        HaltView,
                    >(vm))
                }
            }
            &&& step.out matches Ok(vm) ==> {
                &&& ready.out is Ok
                &&& step.tape == ready.tape.later(2)
                &&& ready.tape.ahead(1) == Some(Reply::Vm(vm))
                &&& ready.tape.ahead(0) matches Some(Reply::Output(output)) && output.code == Some(
                    0i32,
                )
            }
        }),
{
    reveal(AppView::vm_info);
    tart_is_the_packaged_one(app, tape);
    the_commands_of_tart(app, app.packaged_tart(), 0);
    assert(with_arguments(
        app.packaged_tart(),
        seq!["get"@, app.config.vm_name, "--format"@, "json"@],
    ).arguments =~= seq!["get"@, app.config.vm_name, "--format"@, "json"@]);
}

/// The address of the VM is the one that Tart finds within the time that it is given.
pub proof fn tart_finds_the_address(app: AppView, wait: u32, tape: Tape)
    ensures
        ({
            let ready = app.tart(tape);
            let step = app.vm_ip(wait, tape);
            &&& stops_with(step, ready)
            &&& ready.out is Ok ==> {
                &&& ready.tape.ahead(0) is None ==> step.waits_for(
                    app.tart_with(
                        seq![
                            "ip"@,
                            app.config.vm_name,
                            "--wait"@,
                            decimal(wait as nat),
                            "--resolver"@,
                            "arp"@,
                        ],
                    ),
                )
                &&& ready.tape.ahead(0) matches Some(Reply::Output(output)) ==> {
                    &&& output.code != Some(0i32) ==> step.out is Err
                    &&& output.code == Some(0i32) && valid_utf8(output.stdout@) ==> step.out
                        == Ok::<Seq<char>, HaltView>(trimmed(decode_utf8(output.stdout@)))
                }
            }
            &&& step.out is Ok ==> ready.out is Ok && step.tape == ready.tape.later(1)
        }),
{
    reveal(AppView::vm_ip);
    tart_is_the_packaged_one(app, tape);
    the_commands_of_tart(app, app.packaged_tart(), wait);
    let arguments = seq![
        "ip"@,
        app.config.vm_name,
        "--wait"@,
        decimal(wait as nat),
        "--resolver"@,
        "arp"@,
    ];
    assert(with_arguments(app.packaged_tart(), arguments).arguments =~= arguments);
}

/// A VM is verified exactly where Tart describes what the settings say, and the first
/// difference is the error.
pub proof fn vms_are_held_against_the_settings(app: AppView, tape: Tape)
    ensures
        ({
            let seen = app.vm_info(tape);
            let step = app.verify_config(tape);
            &&& stops_with(step, seen)
            &&& seen.out matches Ok(vm) ==> {
                let cpu = vm.cpu == app.config.cpu_count;
                let memory = vm.memory == app.config.memory_gb * 1024;
                let disk = vm.disk == app.config.disk_gb;
                let macos = vm.os@ == "darwin"@;
                &&& step.out is Ok <==> cpu && memory && disk && macos
                &&& !cpu ==> step.refuses("VM CPU count differs from configuration"@)
                &&& cpu && !memory ==> step.refuses("VM memory differs from configuration"@)
                &&& cpu && memory && !disk ==> step.refuses("VM disk differs from configuration"@)
                &&& cpu && memory && disk && !macos ==> step.refuses(
                    "VM operating system is not macOS"@,
                )
            }
        }),
{
    reveal(AppView::verify_config);
}

/// A VM that exists is deleted, by its name, and is then looked for; one that does not
/// exist needs no deleting.
pub proof fn deleted_vms_are_gone(app: AppView, tape: Tape)
    ensures
        ({
            let before = app.vm_exists(tape);
            let ready = app.tart(before.tape);
            let step = app.delete_vm(tape);
            let after = app.vm_exists(ready.tape.later(1));
            &&& stops_with(step, before)
            &&& before.out == Ok::<bool, HaltView>(false) ==> step.out is Ok && step.tape
                == before.tape
            &&& before.out == Ok::<bool, HaltView>(true) ==> stops_with(step, ready)
            &&& before.out == Ok::<bool, HaltView>(true) && ready.out is Ok ==> {
                &&& ready.tape.ahead(0) is None ==> step.waits_for(
                    app.tart_with(seq!["delete"@, app.config.vm_name]),
                )
                &&& ready.tape.ahead(0) matches Some(Reply::Output(output)) ==> {
                    &&& output.code != Some(0i32) ==> step.out is Err
                    &&& output.code == Some(0i32) ==> stops_with(step, after)
                    &&& output.code == Some(0i32) && after.out == Ok::<bool, HaltView>(false)
                        ==> step.out is Ok
                    &&& output.code == Some(0i32) && after.out == Ok::<bool, HaltView>(true)
                        ==> step.refuses("Tart did not delete the VM"@)
                }
            }
        }),
{
    reveal(AppView::delete_vm);
    tart_is_the_packaged_one(app, app.vm_exists(tape).tape);
    the_commands_of_tart(app, app.packaged_tart(), 0);
    assert(with_arguments(app.packaged_tart(), seq!["delete"@, app.config.vm_name]).arguments
        =~= seq!["delete"@, app.config.vm_name]);
}

/// An incomplete VM is stopped where it is not, and then deleted.
pub proof fn incomplete_vms_are_stopped_first(app: AppView, tape: Tape)
    ensures
        ({
            let seen = app.vm_info(tape);
            let ready = app.tart(seen.tape);
            let step = app.delete_partial_vm(tape);
            &&& stops_with(step, seen)
            &&& seen.out matches Ok(vm) ==> {
                &&& vm.state == VmState::Stopped ==> step == app.delete_vm(seen.tape)
                &&& vm.state != VmState::Stopped ==> stops_with(step, ready)
                &&& vm.state != VmState::Stopped && ready.out is Ok ==> {
                    &&& ready.tape.ahead(0) is None ==> step.waits_for(
                        app.tart_with(seq!["stop"@, app.config.vm_name, "--timeout"@, "30"@]),
                    )
                    &&& ready.tape.ahead(0) matches Some(Reply::Output(output)) ==> if output.code
                        == Some(0i32) {
                        step == app.delete_vm(ready.tape.later(1))
                    } else {
                        step.out is Err
                    }
                }
            }
        }),
{
    reveal(AppView::delete_partial_vm);
    tart_is_the_packaged_one(app, app.vm_info(tape).tape);
    the_commands_of_tart(app, app.packaged_tart(), 0);
    let arguments = seq!["stop"@, app.config.vm_name, "--timeout"@, "30"@];
    assert(with_arguments(app.packaged_tart(), arguments).arguments =~= arguments);
}

/// A VM can be managed where its storage and Tart are there and Tart lists it.
pub proof fn vms_are_managed_where_they_are(app: AppView, tape: Tape)
    ensures
        ({
            let there = app.storage_mounted(tape);
            let step = app.manageable(tape);
            &&& stops_with(step, there)
            &&& there.out is Ok && there.tape.ahead(0) is None ==> step.waits_for(
                Ask::FileMode(app.paths.bin("tart"@)),
            )
            &&& there.out is Ok ==> (there.tape.ahead(0) matches Some(reply) ==> {
                let found = reply matches Reply::Mode { file, mode } && file && mode & 0o111 != 0;
                &&& found && there.out == Ok::<bool, HaltView>(true) ==> step == app.vm_exists(
                    there.tape.later(1),
                )
                &&& !(found && there.out == Ok::<bool, HaltView>(true)) ==> step.out == Ok::<
                    bool,
                    HaltView,
                >(false)
            })
        }),
{
    reveal(AppView::manageable);
}

/// A VM that is not stopped is asked to stop, by its name; that this failed is kept for
/// later.
pub proof fn vms_are_asked_to_stop(app: AppView, tape: Tape)
    ensures
        ({
            let seen = app.vm_info(tape);
            let ready = app.tart(seen.tape);
            let step = app.request_stop(tape);
            &&& seen.out matches Err(halt) ==> step.out == Err::<Result<(), Messages>, HaltView>(
                halt,
            )
            &&& seen.out matches Ok(vm) ==> {
                &&& vm.state == VmState::Stopped ==> step.out == Ok::<
                    Result<(), Messages>,
                    HaltView,
                >(Ok(())) && step.tape == seen.tape
                &&& vm.state != VmState::Stopped ==> stops_with(step, ready)
                &&& vm.state != VmState::Stopped && ready.out is Ok ==> {
                    &&& ready.tape.ahead(0) is None ==> step.waits_for(
                        app.tart_with(seq!["stop"@, app.config.vm_name, "--timeout"@, "30"@]),
                    )
                    &&& ready.tape.ahead(0) matches Some(Reply::Output(output)) ==> (
                    step.out matches Ok(stopped) && (stopped is Ok <==> output.code == Some(0i32)))
                }
            }
        }),
{
    reveal(AppView::request_stop);
    tart_is_the_packaged_one(app, app.vm_info(tape).tape);
    the_commands_of_tart(app, app.packaged_tart(), 0);
    let arguments = seq!["stop"@, app.config.vm_name, "--timeout"@, "30"@];
    assert(with_arguments(app.packaged_tart(), arguments).arguments =~= arguments);
}

/// A VM that can be managed is asked to stop, its service is unloaded, and only then it
/// counts as stopped where Tart says so. Of a VM that cannot be there only the service
/// is unloaded.
pub proof fn stopping_ends_with_a_stopped_vm(app: AppView, tape: Tape)
    ensures
        ({
            let can = app.manageable(tape);
            let tried = app.request_stop(can.tape);
            let unloaded = app.unload_service(tried.tape);
            let seen = app.vm_info(unloaded.tape);
            let step = app.stop_tart(tape);
            &&& stops_with(step, can)
            &&& can.out == Ok::<bool, HaltView>(false) ==> step == app.unload_service(can.tape)
            &&& can.out == Ok::<bool, HaltView>(true) ==> {
                &&& tried.out matches Err(halt) ==> step.out == Err::<(), HaltView>(halt)
                &&& tried.out is Ok && unloaded.out is Err ==> step.out == unloaded.out
                &&& tried.out is Ok && unloaded.out is Ok ==> stops_with(step, seen)
                &&& tried.out is Ok && unloaded.out is Ok ==> (seen.out matches Ok(vm) ==> {
                    &&& step.out is Ok <==> vm.state == VmState::Stopped
                    &&& vm.state != VmState::Stopped ==> match tried.out->Ok_0 {
                        Ok(()) => step.refuses("the VM did not stop"@),
                        Err(messages) => step.out == Err::<(), HaltView>(
                            HaltView::Failed(messages),
                        ),
                    }
                })
            }
        }),
{
    reveal(AppView::stop_tart);
}

/// A running VM on an unlocked volume that stands where it was recorded is asked to
/// stop: where Tart can be executed, lists the VM and describes it as not stopped, the
/// next thing is the command that stops it.
pub proof fn a_vm_on_a_mounted_volume_is_stopped(app: AppView, kind: VolumeKind, tape: Tape)
    requires
        kind == VolumeKind::Plain ==> app.config.storage is PlainVolume,
        kind == VolumeKind::Encrypted ==> app.config.storage is EncryptedVolume,
        tape.ahead(0) == Some(Reply::Flag(true)),
        tape.ahead(1) matches Some(Reply::Output(output)) && output.code == Some(0i32),
        ({
            let storage = match kind {
                VolumeKind::Plain => app.config.storage->PlainVolume_0,
                VolumeKind::Encrypted => app.config.storage->EncryptedVolume_0,
            };
            tape.ahead(2) matches Some(Reply::Volume(volume)) && recorded(volume, storage, kind)
                && !volume.locked && stands_at(volume, storage.mount_point)
        }),
        tape.ahead(3) matches Some(Reply::Mode { file, mode }) && file && mode & 0o111 != 0,
        app.vm_exists(tape.later(4)).out == Ok::<bool, HaltView>(true),
        app.vm_info(app.vm_exists(tape.later(4)).tape).out matches Ok(vm) && vm.state
            != VmState::Stopped,
        app.tart(app.vm_info(app.vm_exists(tape.later(4)).tape).tape).out is Ok,
        app.tart(app.vm_info(app.vm_exists(tape.later(4)).tape).tape).tape.ahead(0) is None,
    ensures
        app.stop_tart(tape).waits_for(
            app.tart_with(seq!["stop"@, app.config.vm_name, "--timeout"@, "30"@]),
        ),
{
    stopping_ends_with_a_stopped_vm(app, tape);
    vms_are_managed_where_they_are(app, tape);
    crate::promises::storage::storage_is_there_with_its_volume(app, tape);
    let storage = match kind {
        VolumeKind::Plain => app.config.storage->PlainVolume_0,
        VolumeKind::Encrypted => app.config.storage->EncryptedVolume_0,
    };
    crate::promises::storage::a_mounted_volume_is_the_recorded_one(
        app,
        storage,
        kind,
        tape.later(1),
    );
    volumes_are_reported(storage.uuid, tape.later(1));
    vms_are_asked_to_stop(app, app.vm_exists(tape.later(4)).tape);
}

/// Before a VM is stopped for good, what a helper left is cleared away and the marker
/// that has it run is removed; that it is stopped is said at the end.
pub proof fn stopping_takes_the_marker_first(app: AppView, tape: Tape)
    ensures
        ({
            let cleared = app.clear_keychain_helper(tape);
            let marker = remove_if_present_steps(app.paths.run_marker, cleared.tape);
            let step = app.stop_vm(tape);
            &&& cleared.out is Err ==> step.out == cleared.out
            &&& cleared.out is Ok && cleared.tape.ahead(0) is None ==> step.waits_for(
                Ask::RemoveFile(app.paths.run_marker),
            )
            &&& cleared.out is Ok && marker.out is Err ==> step.out == marker.out
            &&& cleared.out is Ok && marker.out is Ok ==> step == app.stop_tart(
                cleared.tape.later(1),
            )
        }),
        ({
            let stopped = app.stop_vm(tape);
            let step = app.stop(tape);
            &&& stopped.out is Err ==> step.out == stopped.out
            &&& stopped.out is Ok && stopped.tape.ahead(0) is None ==> step.waits_for(
                Ask::Print("stopped"@),
            )
            &&& stopped.out is Ok && stopped.tape.ahead(0) == Some(Reply::Done) ==> step.out is Ok
                && step.tape == stopped.tape.later(1)
        }),
{
    reveal(AppView::stop_vm);
    reveal(AppView::stop);
    removed_files_are_gone(app.paths.run_marker, app.clear_keychain_helper(tape).tape);
}

/// The host must have the interface that every VM is bridged to.
pub proof fn the_bridge_must_be_there(tape: Tape)
    ensures
        ({
            let step = validate_bridge_steps(tape);
            &&& tape.read >= tape.replies.len() ==> step.waits_for(
                Ask::Run(
                    CommandView {
                        input: crate::command::InputView::Inherited,
                        output: crate::command::Sink::Discarded,
                        errors: crate::command::Sink::Discarded,
                        ..program("/sbin/ifconfig"@, seq!["en0"@])
                    },
                ),
            )
            &&& tape.ahead(0) matches Some(Reply::Output(output)) ==> {
                &&& output.code == Some(0i32) ==> step.out is Ok && step.tape == tape.later(1)
                &&& output.code != Some(0i32) ==> step.refuses(
                    "required bridged interface does not exist: "@ + "en0"@,
                )
            }
        }),
{
    the_tools_of_the_host(""@, ""@, ""@, ""@, ""@);
}

/// A number of the kernel is what it reports.
pub proof fn the_kernel_reports_numbers(name: Seq<char>, tape: Tape)
    ensures
        ({
            let step = sysctl_steps(name, tape);
            &&& tape.read >= tape.replies.len() ==> step.waits_for(
                Ask::Run(program("/usr/sbin/sysctl"@, seq!["-n"@, name])),
            )
            &&& tape.ahead(0) matches Some(Reply::Output(output)) ==> {
                let said = number(trimmed(decode_utf8(output.stdout@)));
                &&& output.code != Some(0i32) ==> step.out is Err
                &&& output.code == Some(0i32) && valid_utf8(output.stdout@) ==> match said {
                    Some(value) => step.out == Ok::<u64, HaltView>(value),
                    None => step.out is Err,
                }
            }
            &&& step.out is Ok ==> step.tape == tape.later(1)
        }),
{
    the_tools_of_the_host(name, name, name, name, name);
}

/// The host must be an Apple one with at least the processors and more than the memory
/// that the VM gets.
pub proof fn the_host_must_hold_the_vm(app: AppView, tape: Tape)
    ensures
        ({
            let processors = sysctl_steps("hw.logicalcpu"@, tape);
            let memory = sysctl_steps("hw.memsize"@, tape.later(1));
            let step = app.validate_host(tape);
            &&& app.host.architecture != "aarch64"@ ==> step.refuses("Tart requires Apple silicon"@)
            &&& app.host.architecture == "aarch64"@ ==> {
                &&& stops_with(step, processors)
                &&& processors.out matches Ok(count) ==> {
                    &&& app.config.cpu_count > count ==> step.refuses(
                        "requested CPU count exceeds the host"@,
                    )
                    &&& app.config.cpu_count <= count ==> stops_with(step, memory)
                    &&& app.config.cpu_count <= count ==> (memory.out matches Ok(bytes) ==> {
                        &&& app.config.memory_gb * 1073741824 >= bytes ==> step.refuses(
                            "requested memory exceeds the host"@,
                        )
                        &&& app.config.memory_gb * 1073741824 < bytes ==> step
                            == validate_bridge_steps(tape.later(2))
                    })
                }
            }
        }),
{
    reveal(AppView::validate_host);
    the_kernel_reports_numbers("hw.logicalcpu"@, tape);
    the_kernel_reports_numbers("hw.memsize"@, tape.later(1));
}

} // verus!
