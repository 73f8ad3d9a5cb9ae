//! The smallest procedures: a program, a file, a service, a password.

use crate::agent::{AgentPlistView, KeepAliveView, PathStateView, PlistView};
use crate::app::AppView;
use crate::command::CommandView;
use crate::encoding::lossy_text;
use crate::facts::Output;
use crate::files::{
    canonical_directory_steps, existing_directory_steps, is_executable_steps, leads_to_steps,
    private_dir_steps, remove_if_present_steps, touch_steps,
};
use crate::path::{join, same_place};
use crate::process::{checked_steps, fed_steps, success_steps};
use crate::promises::{program, stops_with};
use crate::service::{await_unloaded_steps, service_agent, service_loaded_steps, unload_steps};
use crate::session::{Ask, HaltView, Reply, Tape};
use crate::text::trimmed;
use vstd::prelude::*;
use vstd::utf8::{decode_utf8, valid_utf8};

verus! {

/// A program that is to succeed is run as it was given and judged by its exit code;
/// what it wrote is its text, without the white space around it.
pub proof fn programs_are_judged_by_their_code(
    command: CommandView,
    description: Seq<char>,
    tape: Tape,
)
    ensures
        tape.read >= tape.replies.len() ==> {
            &&& success_steps(command, description, tape).waits_for(Ask::Run(command))
            &&& checked_steps(command, description, tape).waits_for(Ask::Run(command))
            &&& fed_steps(command, description, tape).waits_for(Ask::Run(command))
        },
        tape.ahead(0) matches Some(Reply::Output(output)) ==> {
            let said = "failed to "@ + description + ": "@ + trimmed(lossy_text(output.stderr@));
            &&& success_steps(command, description, tape).out is Ok <==> output.code == Some(0i32)
            &&& checked_steps(command, description, tape).out is Ok <==> output.code == Some(0i32)
                && valid_utf8(output.stdout@)
            &&& output.code != Some(0i32) ==> {
                &&& success_steps(command, description, tape).refuses(said)
                &&& checked_steps(command, description, tape).refuses(said)
            }
            &&& checked_steps(command, description, tape).out matches Ok(text) ==> text == trimmed(
                decode_utf8(output.stdout@),
            )
            &&& fed_steps(command, description, tape).out == Ok::<Output, HaltView>(output)
        },
        tape.ahead(0) matches Some(Reply::Failed(reason)) ==> success_steps(
            command,
            description,
            tape,
        ).out == Err::<(), HaltView>(
            HaltView::Failed(seq!["cannot "@ + description] + seq![reason@]),
        ),
{
}

/// A directory is left as it is where it exists, refused where something else is in
/// its place, and created where nothing is.
pub proof fn directories_are_created_once(path: Seq<char>, tape: Tape)
    ensures
        tape.read >= tape.replies.len() ==> private_dir_steps(path, tape).waits_for(
            Ask::Exists(path),
        ),
        tape.ahead(0) == Some(Reply::Flag(false)) && tape.ahead(1) is None ==> private_dir_steps(
            path,
            tape,
        ).waits_for(Ask::CreateDirectory(path)),
        tape.ahead(0) == Some(Reply::Flag(true)) && tape.ahead(1) is None ==> private_dir_steps(
            path,
            tape,
        ).waits_for(Ask::IsDirectory(path)),
        tape.ahead(0) == Some(Reply::Flag(true)) && tape.ahead(1) == Some(Reply::Flag(true))
            ==> private_dir_steps(path, tape).out is Ok,
        tape.ahead(0) == Some(Reply::Flag(true)) && tape.ahead(1) == Some(Reply::Flag(false))
            ==> private_dir_steps(path, tape).refuses("not a directory: "@ + path),
        tape.ahead(0) == Some(Reply::Flag(false)) && tape.ahead(1) == Some(Reply::Done)
            ==> private_dir_steps(path, tape).out is Ok,
        private_dir_steps(path, tape).out is Ok ==> private_dir_steps(path, tape).tape
            == tape.later(2),
{
}

/// A marker is left in its directory once that is there.
pub proof fn markers_are_left_in_their_directory(
    directory: Seq<char>,
    path: Seq<char>,
    tape: Tape,
)
    ensures
        private_dir_steps(directory, tape).out is Err ==> touch_steps(directory, path, tape).out
            == private_dir_steps(directory, tape).out,
        private_dir_steps(directory, tape).out is Ok && tape.ahead(2) is None ==> touch_steps(
            directory,
            path,
            tape,
        ).waits_for(Ask::CreateFile(path)),
        private_dir_steps(directory, tape).out is Ok && tape.ahead(2) == Some(Reply::Done)
            ==> touch_steps(directory, path, tape).out is Ok,
        touch_steps(directory, path, tape).out is Ok ==> touch_steps(directory, path, tape).tape
            == tape.later(3) && tape.ahead(2) == Some(Reply::Done),
{
}

/// A file is removed, or was not there; anything else is an error.
pub proof fn removed_files_are_gone(path: Seq<char>, tape: Tape)
    ensures
        tape.read >= tape.replies.len() ==> remove_if_present_steps(path, tape).waits_for(
            Ask::RemoveFile(path),
        ),
        tape.ahead(0) matches Some(reply) ==> (remove_if_present_steps(path, tape).out is Ok <==> (
        reply is Done || reply is Missing)),
        remove_if_present_steps(path, tape).out is Ok ==> remove_if_present_steps(path, tape).tape
            == tape.later(1),
        tape.read >= tape.replies.len() ==> is_executable_steps(path, tape).waits_for(
            Ask::FileMode(path),
        ),
        tape.ahead(0) matches Some(reply) ==> is_executable_steps(path, tape).out == Ok::<
            bool,
            HaltView,
        >(reply matches Reply::Mode { file, mode } && file && mode & 0o111 != 0),
{
}

/// A link leads to a place where its target is that place; a target that is not UTF-8
/// is another place.
pub proof fn links_are_followed_by_their_target(request: Ask, place: Seq<char>, tape: Tape)
    ensures
        tape.read >= tape.replies.len() ==> leads_to_steps(request, place, tape).waits_for(request),
        tape.ahead(0) matches Some(Reply::Text(target)) ==> leads_to_steps(
            request,
            place,
            tape,
        ).out == Ok::<bool, HaltView>(same_place(target@, place)),
        tape.ahead(0) matches Some(Reply::Foreign(_)) ==> leads_to_steps(request, place, tape).out
            == Ok::<bool, HaltView>(false),
{
}

/// The directory that an option names is found like any other; of an error the
/// outermost message is kept.
pub proof fn named_directories_are_canonical(path: Seq<char>, tape: Tape)
    ensures
        canonical_directory_steps(path, tape).out matches Ok(found) ==> existing_directory_steps(
            path,
            tape,
        ).out == Ok::<Seq<char>, HaltView>(found),
        canonical_directory_steps(path, tape).out matches Err(HaltView::Failed(messages))
            && messages.len() > 0 ==> existing_directory_steps(path, tape).refuses(
            (canonical_directory_steps(path, tape).out->Err_0)->Failed_0[0],
        ),
        path.len() > 0 && path[0] == '/' ==> {
            &&& tape.read >= tape.replies.len() ==> canonical_directory_steps(path, tape).waits_for(
                Ask::IsDirectory(path),
            )
            &&& tape.ahead(0) == Some(Reply::Flag(true)) && tape.ahead(1) is None
                ==> canonical_directory_steps(path, tape).waits_for(Ask::Canonicalize(path))
            &&& tape.ahead(0) == Some(Reply::Flag(true)) && tape.ahead(2) is None ==> (
            tape.ahead(1) matches Some(Reply::Text(found)) ==> canonical_directory_steps(
                path,
                tape,
            ).waits_for(Ask::ProbeWritable(found@)))
        },
{
}

/// launchd knows a service where it prints it, and does not where it ends with its
/// code for that; any other end is an error.
pub proof fn services_are_known_by_a_code(target: Seq<char>, tape: Tape)
    ensures
        tape.read >= tape.replies.len() ==> service_loaded_steps(target, tape).waits_for(
            Ask::Run(program("/bin/launchctl"@, seq!["print"@, target])),
        ),
        tape.ahead(0) matches Some(Reply::Output(output)) ==> {
            &&& output.code == Some(0i32) ==> service_loaded_steps(target, tape).out == Ok::<
                bool,
                HaltView,
            >(true)
            &&& output.code == Some(113i32) ==> service_loaded_steps(target, tape).out == Ok::<
                bool,
                HaltView,
            >(false)
            &&& output.code != Some(0i32) && output.code != Some(113i32) ==> service_loaded_steps(
                target,
                tape,
            ).refuses(
                "cannot inspect launchd service "@ + target + ": "@ + trimmed(
                    lossy_text(output.stderr@),
                ),
            )
        },
        service_loaded_steps(target, tape).out is Ok ==> service_loaded_steps(target, tape).tape
            == tape.later(1),
{
    crate::promises::commands::the_tools_of_the_host(
        "print"@,
        target,
        target,
        target,
        target,
    );
}

/// A service is unloaded where it is loaded, and left alone where it is not.
pub proof fn loaded_services_are_unloaded(
    target: Seq<char>,
    description: Seq<char>,
    tape: Tape,
)
    ensures
        ({
            let known = service_loaded_steps(target, tape);
            let step = unload_steps(target, description, tape);
            &&& known.out == Ok::<bool, HaltView>(false) ==> step.out is Ok && step.tape
                == known.tape
            &&& known.out == Ok::<bool, HaltView>(true) && tape.ahead(1) is None
                ==> step.waits_for(
                Ask::Run(program("/bin/launchctl"@, seq!["bootout"@, target])),
            )
            &&& known.out == Ok::<bool, HaltView>(true) ==> (tape.ahead(1) matches Some(
                Reply::Output(output),
            ) ==> (step.out is Ok <==> output.code == Some(0i32)))
        }),
{
    services_are_known_by_a_code(target, tape);
    crate::promises::commands::the_tools_of_the_host(
        "bootout"@,
        target,
        target,
        target,
        target,
    );
}

/// An unloaded service is gone within five seconds, or that is the error; it is looked
/// for twenty times a second.
pub proof fn services_go_within_five_seconds(target: Seq<char>, start: u64, tape: Tape)
    ensures
        ({
            let step = await_unloaded_steps(target, start, tape);
            let known = service_loaded_steps(target, tape);
            &&& step.out is Ok <==> known.out == Ok::<bool, HaltView>(false)
            &&& known.out == Ok::<bool, HaltView>(true) ==> (tape.ahead(1) matches Some(
                Reply::Instant(now),
            ) ==> {
                &&& now - start >= 5000 ==> step.refuses("service did not unload"@)
                &&& now - start < 5000 && tape.ahead(2) is None ==> step.waits_for(Ask::Sleep(50))
            })
        }),
{
    services_are_known_by_a_code(target, tape);
}

/// The service that an installation defines runs this VM as its service does, with the
/// command of the VM and in its surroundings, while the VM is marked to run.
pub proof fn the_service_runs_the_vm(app: AppView)
    ensures
        service_agent(app) == (AgentPlistView {
            label: app.paths.service_label,
            program_arguments: seq![app.paths.command_link, "internal-run"@],
            home: app.paths.home,
            search_path: app.paths.runtime + "/bin:/usr/bin:/bin:/usr/sbin:/sbin"@,
            keep_alive: KeepAliveView {
                path_state: seq![PathStateView { path: app.paths.run_marker, exists: true }],
            },
            limit_load_to_session_type: "Background"@,
            process_type: "Background"@,
            throttle_interval: 10,
            standard_out_path: join(app.paths.logs, "vm.log"@),
            standard_error_path: join(app.paths.logs, "vm.error.log"@),
        }),
{
}

/// Installing a service ends well only where its definition was staged, launchd no
/// longer knows the old one, the agent that would be loaded at login is gone, and the
/// definition is in place; it loads nothing.
pub proof fn services_are_defined_and_left_unloaded(app: AppView, tape: Tape)
    requires
        private_dir_steps(app.paths.state, tape).out is Ok,
        private_dir_steps(app.paths.logs, tape.later(2)).out is Ok,
        private_dir_steps(app.paths.state, tape.later(4)).out is Ok,
    ensures
        ({
            let target = app.paths.service_target(app.host);
            let step = app.install_service(tape);
            &&& tape.ahead(6) is None ==> step.waits_for(
                Ask::StagePlist {
                    directory: app.paths.state,
                    plist: PlistView::Agent(
                        AgentPlistView {
                            label: app.paths.service_label,
                            program_arguments: seq![app.paths.command_link, "internal-run"@],
                            home: app.paths.home,
                            search_path: app.paths.runtime
                                + "/bin:/usr/bin:/bin:/usr/sbin:/sbin"@,
                            keep_alive: KeepAliveView {
                                path_state: seq![
                                    PathStateView { path: app.paths.run_marker, exists: true },
                                ],
                            },
                            limit_load_to_session_type: "Background"@,
                            process_type: "Background"@,
                            throttle_interval: 10,
                            standard_out_path: join(app.paths.logs, "vm.log"@),
                            standard_error_path: join(app.paths.logs, "vm.error.log"@),
                        },
                    ),
                    mode: 0o644,
                    durable: true,
                },
            )
            &&& tape.ahead(6) == Some(Reply::Done) ==> {
                let known = service_loaded_steps(target, tape.later(7));
                &&& stops_with(step, known)
                &&& known.out == Ok::<bool, HaltView>(true) && tape.ahead(8) is None
                    ==> step.waits_for(
                    Ask::Run(program("/bin/launchctl"@, seq!["bootout"@, target])),
                )
                &&& known.out == Ok::<bool, HaltView>(true) && step.out is Ok ==> {
                    &&& tape.ahead(8) matches Some(Reply::Output(output)) && output.code == Some(
                        0i32,
                    )
                    &&& tape.ahead(9) matches Some(Reply::Instant(start))
                    &&& service_loaded_steps(target, tape.later(10)).out == Ok::<bool, HaltView>(
                        false,
                    )
                }
                &&& known.out == Ok::<bool, HaltView>(false) ==> {
                    &&& tape.ahead(8) is None ==> step.waits_for(
                        Ask::RemoveFile(app.paths.autoload_agent()),
                    )
                    &&& tape.ahead(8) == Some(Reply::Done) && tape.ahead(9) is None
                        ==> step.waits_for(Ask::PublishStaged(app.paths.service_plist))
                    &&& tape.ahead(8) == Some(Reply::Done) && tape.ahead(9) == Some(Reply::Done)
                        ==> step.out is Ok
                }
            }
        }),
{
    reveal(AppView::install_service);
    let target = app.paths.service_target(app.host);
    directories_are_created_once(app.paths.state, tape);
    directories_are_created_once(app.paths.logs, tape.later(2));
    directories_are_created_once(app.paths.state, tape.later(4));
    services_are_known_by_a_code(target, tape.later(7));
    services_are_known_by_a_code(target, tape.later(10));
    the_service_runs_the_vm(app);
    crate::promises::commands::the_tools_of_the_host(
        "bootout"@,
        target,
        target,
        target,
        target,
    );
}

/// The service is loaded from its definition where launchd does not know it, and then
/// started.
pub proof fn services_are_loaded_and_started(app: AppView, tape: Tape)
    ensures
        ({
            let target = app.paths.service_target(app.host);
            let known = service_loaded_steps(target, tape);
            let kick = Ask::Run(program("/bin/launchctl"@, seq!["kickstart"@, target]));
            let step = app.start_service(tape);
            &&& stops_with(step, known)
            &&& known.out == Ok::<bool, HaltView>(false) && tape.ahead(1) is None
                ==> step.waits_for(
                Ask::Run(
                    program(
                        "/bin/launchctl"@,
                        seq!["bootstrap"@, app.host.user_domain(), app.paths.service_plist],
                    ),
                ),
            )
            &&& known.out == Ok::<bool, HaltView>(false) ==> (tape.ahead(1) matches Some(
                Reply::Output(output),
            ) ==> {
                &&& output.code != Some(0i32) ==> step.out is Err
                &&& output.code == Some(0i32) && tape.ahead(2) is None ==> step.waits_for(kick)
                &&& output.code == Some(0i32) ==> (tape.ahead(2) matches Some(Reply::Output(last))
                    ==> (step.out is Ok <==> last.code == Some(0i32)))
            })
            &&& known.out == Ok::<bool, HaltView>(true) && tape.ahead(1) is None
                ==> step.waits_for(kick)
            &&& known.out == Ok::<bool, HaltView>(true) ==> (tape.ahead(1) matches Some(
                Reply::Output(last),
            ) ==> (step.out is Ok <==> last.code == Some(0i32)))
        }),
{
    reveal(AppView::start_service);
    reveal(AppView::bootstrap);
    let target = app.paths.service_target(app.host);
    services_are_known_by_a_code(target, tape);
    crate::promises::commands::the_tools_of_the_host(
        "kickstart"@,
        target,
        target,
        target,
        target,
    );
    let load = crate::service::launchctl("bootstrap"@, app.host.user_domain()).arg(
        app.paths.service_plist,
    );
    assert(load.arguments =~= seq![
        "bootstrap"@,
        app.host.user_domain(),
        app.paths.service_plist,
    ]);
    assert(load.environment =~= Seq::empty());
}

/// Unloading the service of a VM is unloading that service.
pub proof fn the_own_service_is_unloaded(app: AppView, tape: Tape)
    ensures
        ({
            let target = app.paths.service_target(app.host);
            let known = service_loaded_steps(target, tape);
            let step = app.unload_service(tape);
            &&& stops_with(step, known)
            &&& known.out == Ok::<bool, HaltView>(false) ==> step.out is Ok
            &&& known.out == Ok::<bool, HaltView>(true) && tape.ahead(1) is None
                ==> step.waits_for(
                Ask::Run(program("/bin/launchctl"@, seq!["bootout"@, target])),
            )
            &&& known.out == Ok::<bool, HaltView>(true) ==> (tape.ahead(1) matches Some(
                Reply::Output(output),
            ) ==> (step.out is Ok <==> output.code == Some(0i32)))
        }),
{
    reveal(AppView::unload_service);
    loaded_services_are_unloaded(
        app.paths.service_target(app.host),
        "unload the service"@,
        tape,
    );
    services_are_known_by_a_code(app.paths.service_target(app.host), tape);
}

} // verus!
