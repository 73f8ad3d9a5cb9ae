//! Installing a VM: the runtime, the command, the credentials and the VM itself.

use crate::app::AppView;
use crate::command::{CommandView, InputView, Sink};
use crate::facts::LinkKind;
use crate::files::{leads_to_steps, private_dir_steps, remove_if_present_steps, touch_steps};
use crate::install::{
    bundle_of, complete_bundle_steps, install_link_steps, running_bundle_steps, searched,
    InstallPlan,
};
use crate::password::{CredentialPolicy, PasswordChoice};
use crate::path::join;
use crate::promises::{program, stops_with, with_arguments};
use crate::promises::commands::{describes, the_command_of_packer, the_tools_of_an_installation};
use crate::promises::steps::{
    directories_are_created_once, markers_are_left_in_their_directory, removed_files_are_gone,
};
use crate::promises::vm::commands_get_available_storage;
use crate::session::{Ask, HaltView, Reply, Tape};
use crate::text::trimmed;
use crate::unlock::KeychainMode;
use crate::volume::StorageAccess;
use vstd::prelude::*;
use vstd::utf8::valid_utf8;

verus! {

/// The bundle is the one around the running executable, wherever links lead there.
pub proof fn the_running_bundle_is_found(tape: Tape)
    ensures
        ({
            let step = running_bundle_steps(tape);
            &&& tape.read >= tape.replies.len() ==> step.waits_for(Ask::CurrentExecutable)
            &&& tape.ahead(0) matches Some(Reply::Text(running)) ==> {
                &&& tape.ahead(1) is None ==> step.waits_for(Ask::Canonicalize(running@))
                &&& tape.ahead(1) matches Some(Reply::Text(executable)) ==> match bundle_of(
                    executable@,
                ) {
                    Some(bundle) => step.out == Ok::<Seq<char>, HaltView>(bundle) && step.tape
                        == tape.later(2),
                    None => step.refuses("cannot locate the packaged GremVM bundle"@),
                }
            }
            &&& step.out is Ok ==> step.tape == tape.later(2)
        }),
{
}

/// The host said of so many files that they are there.
pub open spec fn files_there(count: nat, tape: Tape) -> bool {
    forall|i: nat| i < count ==> #[trigger] tape.ahead(i) == Some(Reply::Flag(true))
}

/// After the files before it, a file of the bundle is asked for, and refused by its name
/// where it is missing.
pub open spec fn asks_for_file(
    bundle: Seq<char>,
    file: Seq<char>,
    at: nat,
    tape: Tape,
) -> bool {
    let step = complete_bundle_steps(bundle, tape);
    files_there(at, tape) ==> {
        &&& tape.ahead(at) is None ==> step.waits_for(Ask::IsFile(join(bundle, file)))
        &&& tape.ahead(at) == Some(Reply::Flag(false)) ==> step.refuses(
            "packaged file is missing: "@ + file,
        )
    }
}

/// A bundle is complete where each of its seven files is there; the first that is missing
/// is named.
pub proof fn bundles_are_complete(bundle: Seq<char>, tape: Tape)
    ensures
        asks_for_file(bundle, "bin/gremvm"@, 0, tape),
        asks_for_file(bundle, "bin/tart"@, 1, tape),
        asks_for_file(bundle, "bin/packer"@, 2, tape),
        asks_for_file(bundle, "share/gremvm/gremvm.pkr.hcl"@, 3, tape),
        asks_for_file(bundle, "share/gremvm/configure-guest.sh"@, 4, tape),
        asks_for_file(bundle, "share/gremvm/password.expect"@, 5, tape),
        asks_for_file(bundle, "libexec/gremvm/tailscaled"@, 6, tape),
        files_there(7, tape) ==> complete_bundle_steps(bundle, tape).out is Ok,
        complete_bundle_steps(bundle, tape).out is Ok ==> complete_bundle_steps(bundle, tape).tape
            == tape.later(7),
{
    assert(tape.ahead(0) == tape.ahead(0) && tape.ahead(1) == tape.ahead(1));
    assert(tape.ahead(2) == tape.ahead(2) && tape.ahead(3) == tape.ahead(3));
    assert(tape.ahead(4) == tape.ahead(4) && tape.ahead(5) == tape.ahead(5));
    assert(tape.ahead(6) == tape.ahead(6));
}

/// The runtime of a VM is the complete bundle of the running executable, kept by Nix
/// under the link to it, and never takes the place of a directory.
pub proof fn the_runtime_is_the_running_bundle(app: AppView, tape: Tape)
    requires
        private_dir_steps(app.paths.root, tape).out is Ok,
    ensures
        ({
            let found = running_bundle_steps(tape.later(3));
            let bundle = found.out->Ok_0;
            let complete = complete_bundle_steps(bundle, found.tape);
            let kept = complete.tape;
            let step = app.install_runtime(tape);
            &&& tape.ahead(2) is None ==> step.waits_for(Ask::LinkKind(app.paths.runtime))
            &&& tape.ahead(2) == Some(Reply::Link(LinkKind::Directory)) ==> step.refuses(
                "refusing to replace runtime directory: "@ + app.paths.runtime,
            )
            &&& tape.ahead(2) matches Some(reply) ==> (reply != Reply::Link(LinkKind::Directory)
                ==> {
                &&& stops_with(step, found)
                &&& found.out is Ok && complete.out is Err ==> step.out == complete.out
                &&& found.out is Ok && complete.out is Ok ==> {
                    &&& kept.ahead(0) is None ==> step.waits_for(
                        Ask::Run(
                            program(
                                "nix-store"@,
                                seq![
                                    "--realise"@,
                                    bundle,
                                    "--add-root"@,
                                    app.paths.runtime,
                                    "--indirect"@,
                                ],
                            ),
                        ),
                    )
                    &&& kept.ahead(0) matches Some(Reply::Output(output)) ==> {
                        let same = leads_to_steps(
                            Ask::Canonicalize(app.paths.runtime),
                            bundle,
                            kept.later(1),
                        );
                        &&& output.code != Some(0i32) ==> step.out is Err
                        &&& output.code == Some(0i32) && valid_utf8(output.stdout@) ==> match same.out {
                            Err(halt) => step.out == Err::<(), HaltView>(halt),
                            Ok(true) => step.out is Ok,
                            Ok(false) => step.refuses("Nix registered an unexpected runtime"@),
                        }
                    }
                }
            })
        }),
{
    reveal(AppView::install_runtime);
    directories_are_created_once(app.paths.root, tape);
    let found = running_bundle_steps(tape.later(3));
    if let Ok(bundle) = found.out {
        the_tools_of_an_installation(app, bundle);
    }
}

/// A link is put in place where nothing is; one that leads to the same target stays, and
/// nothing else is replaced.
pub proof fn links_replace_nothing(target: Seq<char>, link: Seq<char>, tape: Tape)
    ensures
        ({
            let step = install_link_steps(target, link, tape);
            let same = leads_to_steps(Ask::ReadLink(link), target, tape.later(1));
            &&& tape.read >= tape.replies.len() ==> step.waits_for(Ask::LinkKind(link))
            &&& tape.ahead(0) == Some(Reply::Link(LinkKind::Missing)) && tape.ahead(1) is None
                ==> step.waits_for(Ask::CreateLink { target, link })
            &&& tape.ahead(0) == Some(Reply::Link(LinkKind::Missing)) && tape.ahead(1) == Some(
                Reply::Done,
            ) ==> step.out is Ok
            &&& tape.ahead(0) == Some(Reply::Link(LinkKind::Symlink)) ==> match same.out {
                Err(halt) => step.out == Err::<(), HaltView>(halt),
                Ok(true) => step.out is Ok,
                Ok(false) => step.refuses("refusing to replace command link: "@ + link),
            }
            &&& tape.ahead(0) == Some(Reply::Link(LinkKind::Directory)) || tape.ahead(0) == Some(
                Reply::Link(LinkKind::Other),
            ) ==> step.refuses("refusing to replace command path: "@ + link)
        }),
{
}

/// The command of a VM is a link to the packaged one, in a directory that is searched for
/// commands.
pub proof fn the_command_leads_to_the_packaged_one(app: AppView, tape: Tape)
    ensures
        ({
            let directory = app.paths.command_directory;
            let made = private_dir_steps(directory, tape);
            let step = app.install_command(tape);
            &&& !searched(app.host.search_path, directory) ==> step.refuses(
                directory + " must be in PATH"@,
            )
            &&& searched(app.host.search_path, directory) && made.out is Err ==> step.out
                == made.out
            &&& searched(app.host.search_path, directory) && made.out is Ok ==> step
                == install_link_steps(
                app.paths.bin("gremvm"@),
                app.paths.command_link,
                tape.later(2),
            )
        }),
{
    reveal(AppView::install_command);
    directories_are_created_once(app.paths.command_directory, tape);
}

/// What is done about a VM: one that is not there is created, an incomplete one is
/// removed and created, a complete one is verified and updated, and one that was not
/// created here is refused.
pub proof fn the_markers_decide_an_installation(app: AppView, tape: Tape)
    ensures
        ({
            let found = app.vm_exists(tape);
            let asked = found.tape;
            let provisioned = asked.ahead(0) == Some(Reply::Flag(true));
            let installing = asked.ahead(1) == Some(Reply::Flag(true));
            let known = (asked.ahead(0) matches Some(Reply::Flag(_))) && (
            asked.ahead(1) matches Some(Reply::Flag(_)));
            let removed = app.delete_partial_vm(asked.later(3));
            let verified = app.verify_config(asked.later(2));
            let step = app.install_plan(tape);
            &&& stops_with(step, found)
            &&& found.out is Ok && asked.ahead(0) is None ==> step.waits_for(
                Ask::Exists(app.paths.provisioned),
            )
            &&& found.out is Ok && (asked.ahead(0) matches Some(Reply::Flag(_))) && asked.ahead(
                1,
            ) is None ==> step.waits_for(Ask::Exists(app.paths.installing))
            &&& found.out == Ok::<bool, HaltView>(false) && known ==> step.out == Ok::<
                InstallPlan,
                HaltView,
            >(InstallPlan::Create) && step.tape == asked.later(2)
            &&& found.out == Ok::<bool, HaltView>(true) && known && !provisioned && !installing
                ==> step.refuses(
                "a VM named '"@ + app.config.vm_name
                    + "' exists but was not created by GremVM; rename or remove it before rerunning '"@
                    + app.paths.install_hint() + "'"@,
            )
            &&& found.out == Ok::<bool, HaltView>(true) && known && !provisioned && installing ==> {
                &&& asked.ahead(2) is None ==> step.waits_for(
                    Ask::Print("removing incomplete VM before retrying..."@),
                )
                &&& asked.ahead(2) == Some(Reply::Done) ==> match removed.out {
                    Err(halt) => step.out == Err::<InstallPlan, HaltView>(halt),
                    Ok(()) => step.out == Ok::<InstallPlan, HaltView>(InstallPlan::Create)
                        && step.tape == removed.tape,
                }
            }
            &&& found.out == Ok::<bool, HaltView>(true) && known && provisioned ==> match verified.out {
                Err(halt) => step.out == Err::<InstallPlan, HaltView>(halt),
                Ok(()) => {
                    &&& verified.tape.ahead(0) is None ==> step.waits_for(
                        Ask::RemoveFile(app.paths.installing),
                    )
                    &&& verified.tape.ahead(0) == Some(Reply::Done) ==> step.out == Ok::<
                        InstallPlan,
                        HaltView,
                    >(InstallPlan::Update) && step.tape == verified.tape.later(1)
                },
            }
        }),
{
    reveal(AppView::install_plan);
    let found = app.vm_exists(tape);
    removed_files_are_gone(
        app.paths.installing,
        app.verify_config(found.tape.later(2)).tape,
    );
}

/// The SSH key of a VM has both halves, readable by the user alone and by all; it is made
/// where neither is there and the VM is new.
pub proof fn keys_have_both_halves(app: AppView, policy: CredentialPolicy, tape: Tape)
    requires
        private_dir_steps(app.paths.config_dir, tape).out is Ok,
    ensures
        ({
            let key = app.paths.ssh_key;
            let public = app.paths.public_key();
            let step = app.install_ssh_key(policy, tape);
            &&& tape.ahead(2) is None ==> step.waits_for(Ask::Exists(key))
            &&& tape.ahead(2) == Some(Reply::Flag(false)) && tape.ahead(3) is None
                ==> step.waits_for(Ask::Exists(public))
            &&& tape.ahead(2) == Some(Reply::Flag(false)) && tape.ahead(3) == Some(
                Reply::Flag(false),
            ) ==> match policy {
                CredentialPolicy::Existing => step.refuses(
                    "the SSH key is missing and cannot be regenerated for an existing VM"@,
                ),
                CredentialPolicy::CreateIfMissing => {
                    &&& tape.ahead(4) is None ==> step.waits_for(
                        Ask::Run(
                            program(
                                "/usr/bin/ssh-keygen"@,
                                seq![
                                    "-q"@,
                                    "-t"@,
                                    "ed25519"@,
                                    "-N"@,
                                    ""@,
                                    "-C"@,
                                    "gremvm@"@ + app.config.vm_name,
                                    "-f"@,
                                    key,
                                ],
                            ),
                        ),
                    )
                    &&& tape.ahead(4) matches Some(Reply::Output(output)) ==> if output.code
                        == Some(0i32) {
                        checks_key(app, policy, tape, 5)
                    } else {
                        step.out is Err
                    }
                },
            }
            &&& tape.ahead(2) == Some(Reply::Flag(true)) ==> checks_key(app, policy, tape, 3)
            &&& tape.ahead(2) == Some(Reply::Flag(false)) && tape.ahead(3) == Some(
                Reply::Flag(true),
            ) ==> checks_key(app, policy, tape, 4)
        }),
{
    reveal(AppView::install_ssh_key);
    directories_are_created_once(app.paths.config_dir, tape);
    the_tools_of_an_installation(app, ""@);
}

/// From here on both halves of the key are looked for and given their permissions.
pub open spec fn checks_key(
    app: AppView,
    policy: CredentialPolicy,
    tape: Tape,
    at: nat,
) -> bool {
    let key = app.paths.ssh_key;
    let public = app.paths.public_key();
    let step = app.install_ssh_key(policy, tape);
    let yes = Some(Reply::Flag(true));
    let no = Some(Reply::Flag(false));
    &&& tape.ahead(at) is None ==> step.waits_for(Ask::IsFile(key))
    &&& tape.ahead(at) == no ==> step.refuses("SSH key is incomplete"@)
    &&& tape.ahead(at) == yes ==> {
        &&& tape.ahead(at + 1) is None ==> step.waits_for(Ask::IsFile(public))
        &&& tape.ahead(at + 1) == no ==> step.refuses("SSH key is incomplete"@)
        &&& tape.ahead(at + 1) == yes ==> {
            &&& tape.ahead(at + 2) is None ==> step.waits_for(
                Ask::SetMode { path: key, mode: 0o600 },
            )
            &&& tape.ahead(at + 2) == Some(Reply::Done) && tape.ahead(at + 3) is None
                ==> step.waits_for(Ask::SetMode { path: public, mode: 0o644 })
            &&& tape.ahead(at + 2) == Some(Reply::Done) && tape.ahead(at + 3) == Some(Reply::Done)
                ==> step.out is Ok
        }
    }
}

/// Packer is run with its plugin, on the storage of the VM, and describes the VM that the
/// settings and the credentials give.
pub proof fn packer_builds_the_described_vm(
    app: AppView,
    key: Seq<char>,
    password: Seq<char>,
    tape: Tape,
)
    requires
        private_dir_steps(join(app.paths.state, "packer"@), tape).out is Ok,
    ensures
        ({
            let ready = app.ensure_storage(StorageAccess::Background, tape.later(3));
            let split = join(app.paths.runtime, "bin"@).contains(':');
            let step = app.packer(key, password, tape);
            &&& tape.ahead(2) is None ==> step.waits_for(
                Ask::IsDirectory(
                    join(
                        join(app.paths.runtime, "libexec/packer/plugins"@),
                        "github.com/cirruslabs/tart"@,
                    ),
                ),
            )
            &&& tape.ahead(2) == Some(Reply::Flag(false)) ==> step.refuses(
                "Packer plugin is missing"@,
            )
            &&& tape.ahead(2) == Some(Reply::Flag(true)) ==> {
                &&& ready.out matches Err(halt) ==> step.out == Err::<(), HaltView>(halt)
                &&& ready.out is Ok && split ==> step.refuses("path segment contains separator `:`"@)
                &&& ready.out is Ok && !split && ready.tape.ahead(0) is None ==> (
                step.out matches Err(HaltView::Pending { request: Ask::Run(command), .. })
                    && builds(app, command, key, password))
                &&& ready.out is Ok && !split ==> (ready.tape.ahead(0) matches Some(
                    Reply::Output(output),
                ) ==> if output.code == Some(0i32) {
                    step.out is Ok && step.tape == ready.tape.later(1)
                } else {
                    step.refuses("Packer failed"@)
                })
            }
        }),
{
    reveal(AppView::packer);
    directories_are_created_once(join(app.paths.state, "packer"@), tape);
    let bare = program(app.paths.bin("packer"@), Seq::empty());
    assert(CommandView::new(app.paths.bin("packer"@)) == bare);
    commands_get_available_storage(app, bare, tape.later(3));
    let environment = app.packaged_tart().environment;
    assert(bare.environment.push(environment[0]) =~= environment);
    let packer = CommandView { environment, ..bare };
    the_command_of_packer(app, packer, key, password);
    let arguments = seq![
        "build"@,
        "-color=false"@,
        join(app.paths.runtime, "share/gremvm/gremvm.pkr.hcl"@),
    ];
    assert(with_arguments(packer, arguments).arguments =~= arguments);
}

/// A command that builds the VM of the settings with these credentials, on its storage,
/// from the packaged template, where the user sees what is written.
pub open spec fn builds(
    app: AppView,
    command: CommandView,
    key: Seq<char>,
    password: Seq<char>,
) -> bool {
    &&& describes(app, command, key, password)
    &&& command.environment.len() == 12
    &&& command.environment[0] == app.packaged_tart().environment[0]
    &&& command.program == app.paths.bin("packer"@)
    &&& command.arguments == seq![
        "build"@,
        "-color=false"@,
        join(app.paths.runtime, "share/gremvm/gremvm.pkr.hcl"@),
    ]
    &&& command.directory == Some(join(app.paths.state, "packer"@))
    &&& command.input == InputView::Inherited
    &&& command.output == Sink::Inherited
    &&& command.errors == Sink::Inherited
    &&& !command.own_group
}

/// A VM is built with the public half of its key and the guest password that the Keychain
/// holds.
pub proof fn vms_are_built_with_their_credentials(app: AppView, tape: Tape)
    ensures
        ({
            let password = app.guest_password(tape.later(1));
            let step = app.build_vm(tape);
            &&& tape.read >= tape.replies.len() ==> step.waits_for(
                Ask::ReadText(app.paths.public_key()),
            )
            &&& tape.ahead(0) matches Some(Reply::Text(key)) ==> match password.out {
                Err(halt) => step.out == Err::<(), HaltView>(halt),
                Ok(secret) => {
                    &&& password.tape.ahead(0) is None ==> step.waits_for(
                        Ask::Print(
                            "creating "@ + app.config.vm_name + " from the pinned macOS image..."@,
                        ),
                    )
                    &&& password.tape.ahead(0) == Some(Reply::Done) ==> step == app.packer(
                        trimmed(key@),
                        secret,
                        password.tape.later(1),
                    )
                },
            }
        }),
{
    reveal(AppView::build_vm);
}

/// A VM counts as being installed while it is built, and as provisioned once it exists
/// and is what the settings say.
pub proof fn vms_are_marked_while_they_are_created(app: AppView, tape: Tape)
    ensures
        ({
            let cleared = remove_if_present_steps(app.paths.provisioned, tape);
            let marked = touch_steps(app.paths.state, app.paths.installing, tape.later(1));
            let built = app.build_vm(tape.later(4));
            let found = app.vm_exists(built.tape);
            let verified = app.verify_config(found.tape);
            let done = touch_steps(app.paths.state, app.paths.provisioned, verified.tape);
            let step = app.create_vm(tape);
            let good = cleared.out is Ok && marked.out is Ok && built.out is Ok;
            &&& tape.read >= tape.replies.len() ==> step.waits_for(
                Ask::RemoveFile(app.paths.provisioned),
            )
            &&& cleared.out is Err ==> step.out == cleared.out
            &&& cleared.out is Ok && marked.out is Err ==> step.out == marked.out
            &&& cleared.out is Ok && marked.out is Ok && built.out is Err ==> step.out == built.out
            &&& good ==> stops_with(step, found)
            &&& good && found.out == Ok::<bool, HaltView>(false) ==> step.refuses(
                "Packer completed without creating the VM"@,
            )
            &&& good && found.out == Ok::<bool, HaltView>(true) ==> {
                &&& verified.out is Err ==> step.out == verified.out
                &&& verified.out is Ok && done.out is Err ==> step.out == done.out
                &&& verified.out is Ok && done.out is Ok && done.tape.ahead(0) is None
                    ==> step.waits_for(Ask::RemoveFile(app.paths.installing))
                &&& verified.out is Ok && done.out is Ok && done.tape.ahead(0) == Some(Reply::Done)
                    ==> step.out is Ok
            }
        }),
{
    reveal(AppView::create_vm);
    removed_files_are_gone(app.paths.provisioned, tape);
    markers_are_left_in_their_directory(app.paths.state, app.paths.installing, tape.later(1));
}

/// The VM that an installation creates is the one of the settings: where everything up to
/// there went well, the next thing is Packer, with the name, the guest user and the size
/// that were chosen, the key of the VM and the stored guest password.
pub proof fn the_created_vm_is_the_chosen_one(app: AppView, tape: Tape)
    requires
        tape.ahead(0) == Some(Reply::Done) || (tape.ahead(0) matches Some(Reply::Missing(_))),
        touch_steps(app.paths.state, app.paths.installing, tape.later(1)).out is Ok,
        tape.ahead(4) matches Some(Reply::Text(_)),
        app.guest_password(tape.later(5)).out is Ok,
        ({
            let asked = app.guest_password(tape.later(5)).tape;
            let ready = app.ensure_storage(StorageAccess::Background, asked.later(4));
            &&& asked.ahead(0) == Some(Reply::Done)
            &&& private_dir_steps(join(app.paths.state, "packer"@), asked.later(1)).out is Ok
            &&& asked.ahead(3) == Some(Reply::Flag(true))
            &&& ready.out is Ok
            &&& ready.tape.ahead(0) is None
        }),
        !join(app.paths.runtime, "bin"@).contains(':'),
    ensures
        app.create_vm(tape).out matches Err(
            HaltView::Pending { request: Ask::Run(command), .. },
        ) && tape.ahead(4) matches Some(Reply::Text(key)) && builds(
            app,
            command,
            trimmed(key@),
            app.guest_password(tape.later(5)).out->Ok_0,
        ),
{
    removed_files_are_gone(app.paths.provisioned, tape);
    vms_are_marked_while_they_are_created(app, tape);
    vms_are_built_with_their_credentials(app, tape.later(4));
    let key = (tape.ahead(4)->0)->Text_0;
    let password = app.guest_password(tape.later(5));
    assert(tape.later(4).later(1) == tape.later(5));
    packer_builds_the_described_vm(
        app,
        trimmed(key@),
        password.out->Ok_0,
        password.tape.later(1),
    );
    assert(password.tape.later(1).later(3) == password.tape.later(4));
}

/// Before a VM is touched, the settings are those that are saved, the Keychain is
/// unlocked, the storage is available, the host is fit, and the runtime and the command
/// are in place.
pub proof fn the_tools_come_before_the_vm(app: AppView, tape: Tape)
    ensures
        ({
            let cleared = app.clear_keychain_helper(tape);
            let same = app.config.check_existing(app.paths, cleared.tape);
            let own = app.ensure_keychain(KeychainMode::Current, same.tape);
            let ready = app.ensure_storage(StorageAccess::Interactive, own.tape);
            let host = app.validate_host(ready.tape);
            let runtime = app.install_runtime(host.tape);
            let command = app.install_command(runtime.tape);
            let step = app.install_tools(tape);
            &&& step.out is Ok <==> cleared.out is Ok && same.out is Ok && own.out is Ok
                && ready.out is Ok && host.out is Ok && runtime.out is Ok && command.out is Ok
            &&& step.out is Ok ==> step.tape == command.tape
            &&& cleared.out is Ok && same.out is Err ==> step.out == same.out
            &&& cleared.out is Ok && same.out is Ok && own.out is Err ==> step.out == own.out
            &&& cleared.out is Ok && same.out is Ok && own.out is Ok && ready.out is Err
                ==> step.out == ready.out
            &&& cleared.out is Ok && same.out is Ok && own.out is Ok && ready.out is Ok
                && host.out is Err ==> step.out == host.out
            &&& cleared.out is Ok && same.out is Ok && own.out is Ok && ready.out is Ok
                && host.out is Ok && runtime.out is Err ==> step.out == runtime.out
        }),
{
    reveal(AppView::install_tools);
}

/// An installation leaves the key, the guest password, the saved settings and the service
/// definition of the VM, and no marker that has it run.
pub proof fn an_installation_leaves_credentials_settings_and_a_service(
    app: AppView,
    policy: CredentialPolicy,
    choice: PasswordChoice,
    tape: Tape,
)
    ensures
        ({
            let key = app.install_ssh_key(policy, tape);
            let password = app.prepare_guest_password(policy, choice, key.tape);
            let saved = app.config.persist(app.paths, password.tape);
            let marker = remove_if_present_steps(app.paths.run_marker, saved.tape);
            let step = app.install_state(policy, choice, tape);
            &&& key.out is Err ==> step.out == key.out
            &&& key.out is Ok && password.out is Err ==> step.out == password.out
            &&& key.out is Ok && password.out is Ok && saved.out is Err ==> step.out == saved.out
            &&& key.out is Ok && password.out is Ok && saved.out is Ok && marker.out is Err
                ==> step.out == marker.out
            &&& key.out is Ok && password.out is Ok && saved.out is Ok && marker.out is Ok ==> step
                == app.install_service(saved.tape.later(1))
        }),
{
    reveal(AppView::install_state);
    let saved = app.config.persist(
        app.paths,
        app.prepare_guest_password(
            policy,
            choice,
            app.install_ssh_key(policy, tape).tape,
        ).tape,
    );
    removed_files_are_gone(app.paths.run_marker, saved.tape);
}

/// An installation creates a VM that is to be created, gives only that one new
/// credentials, leaves it stopped, and says what was installed and what comes next.
pub proof fn installing_creates_or_updates(app: AppView, choice: PasswordChoice, tape: Tape)
    ensures
        ({
            let tools = app.install_tools(tape);
            let plan = app.install_plan(tools.tape);
            let create = plan.out == Ok::<InstallPlan, HaltView>(InstallPlan::Create);
            let policy = if create {
                CredentialPolicy::CreateIfMissing
            } else {
                CredentialPolicy::Existing
            };
            let state = app.install_state(policy, choice, plan.tape);
            let created = app.create_vm(state.tape);
            let stopped = app.stop_tart(if create { created.tape } else { state.tape });
            let told = stopped.tape;
            let step = app.install(choice, tape);
            let ready = tools.out is Ok && plan.out is Ok && state.out is Ok && (create
                ==> created.out is Ok);
            &&& tools.out is Err ==> step.out == tools.out
            &&& tools.out is Ok ==> stops_with(step, plan)
            &&& tools.out is Ok && plan.out is Ok && state.out is Err ==> step.out == state.out
            &&& tools.out is Ok && state.out is Ok && create && created.out is Err ==> step.out
                == created.out
            &&& ready && stopped.out is Err ==> step.out == stopped.out
            &&& ready && stopped.out is Ok ==> {
                &&& told.ahead(0) is None ==> step.waits_for(
                    Ask::Print("installed: "@ + app.paths.command_link),
                )
                &&& told.ahead(0) == Some(Reply::Done) && told.ahead(1) is None ==> step.waits_for(
                    Ask::Print("VM: "@ + app.config.vm_name + " (stopped)"@),
                )
                &&& told.ahead(0) == Some(Reply::Done) && told.ahead(1) == Some(Reply::Done)
                    && told.ahead(2) is None ==> step.waits_for(
                    Ask::Print("next: "@ + app.paths.command_name() + " start"@),
                )
                &&& told.ahead(0) == Some(Reply::Done) && told.ahead(1) == Some(Reply::Done)
                    && told.ahead(2) == Some(Reply::Done) ==> step.out is Ok
            }
        }),
{
    reveal(AppView::install);
}

} // verus!
