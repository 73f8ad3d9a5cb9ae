//! The Keychain and the passwords in it.

use crate::agent::{KeychainHelperPlistView, PlistView};
use crate::app::AppView;
use crate::command::{CommandView, InputView, Sink};
use crate::encoding::{hex_text, lossy_text, without_line_ending};
use crate::error::rendered;
use crate::files::private_dir_steps;
use crate::host::PathsView;
use crate::keychain::StoredView;
use crate::password::{
    prompt_guest_password_steps, prompt_password_steps, CredentialPolicy, PasswordChoice,
};
use crate::promises::{attached, program, stops_with};
use crate::promises::commands::passwords_in_the_keychain;
use crate::promises::steps::directories_are_created_once;
use crate::session::{Ask, HaltView, Reply, Tape};
use crate::text::{escaped, trimmed};
use crate::unlock::{
    ask_and_unlock_steps, await_helper_steps, await_unlock_steps, helper_agent, helper_plist,
    helper_result, interactive_terminal_steps, internal_keychain_steps, keychain_unlocked_steps,
    unlock_keychain_steps, KeychainHelperMode, KeychainMode,
};
use vstd::prelude::*;
use vstd::utf8::{decode_utf8, encode_utf8, valid_utf8};

verus! {

/// A stored password is what the tool writes, without the line ending; a code of its
/// own says that there is none.
pub proof fn stored_passwords_are_found(
    app: AppView,
    account: Seq<char>,
    service: Seq<char>,
    tape: Tape,
)
    ensures
        ({
            let step = app.keychain_password(account, service, tape);
            &&& tape.read >= tape.replies.len() ==> step.waits_for(
                Ask::Run(
                    program(
                        "/usr/bin/security"@,
                        seq![
                            "find-generic-password"@,
                            "-a"@,
                            account,
                            "-s"@,
                            service,
                            "-w"@,
                            app.paths.login_keychain(),
                        ],
                    ),
                ),
            )
            &&& tape.ahead(0) matches Some(Reply::Output(output)) ==> {
                let password = without_line_ending(output.stdout@);
                &&& output.code == Some(0i32) && password.len() > 0 ==> step.out == Ok::<
                    StoredView,
                    HaltView,
                >(StoredView::Password(password))
                &&& output.code == Some(0i32) && password.len() == 0 ==> step.refuses(
                    "the stored password is empty"@,
                )
                &&& output.code == Some(44i32) ==> step.out == Ok::<StoredView, HaltView>(
                    StoredView::Absent,
                )
                &&& output.code != Some(0i32) && output.code != Some(44i32) ==> step.refuses(
                    "cannot read a password from Keychain: "@ + trimmed(
                        lossy_text(output.stderr@),
                    ),
                )
            }
            &&& step.out is Ok ==> step.tape == tape.later(1)
        }),
{
    passwords_in_the_keychain(account, service, Seq::empty(), app.paths.login_keychain());
}

/// A password is stored under its account and service in the login Keychain, and that
/// went well where the tool says so.
pub proof fn passwords_are_stored(
    app: AppView,
    account: Seq<char>,
    service: Seq<char>,
    password: Seq<u8>,
    tape: Tape,
)
    ensures
        ({
            let step = app.store_keychain_password(account, service, password, tape);
            &&& tape.read >= tape.replies.len() ==> step.waits_for(
                Ask::Run(
                    CommandView {
                        input: InputView::Bytes(
                            encode_utf8(
                                "add-generic-password -a "@ + account + " -s "@ + service
                                    + " -U -X "@ + hex_text(password) + " \""@ + escaped(
                                    app.paths.login_keychain(),
                                ) + "\"\n"@,
                            ),
                        ),
                        output: Sink::Discarded,
                        ..program("/usr/bin/security"@, seq!["-i"@])
                    },
                ),
            )
            &&& tape.ahead(0) matches Some(Reply::Output(output)) ==> (step.out is Ok
                <==> output.code == Some(0i32))
            &&& step.out is Ok ==> step.tape == tape.later(1)
        }),
{
    passwords_in_the_keychain(account, service, password, app.paths.login_keychain());
}

/// Whether the login Keychain is unlocked is what the tool says of it.
pub proof fn the_keychain_is_looked_at(paths: PathsView, tape: Tape)
    ensures
        ({
            let step = keychain_unlocked_steps(paths, tape);
            &&& tape.read >= tape.replies.len() ==> step.waits_for(
                Ask::Run(
                    CommandView {
                        output: Sink::Discarded,
                        errors: Sink::Discarded,
                        ..program(
                            "/usr/bin/security"@,
                            seq!["show-keychain-info"@, paths.login_keychain()],
                        )
                    },
                ),
            )
            &&& tape.ahead(0) matches Some(Reply::Output(output)) ==> step.out == Ok::<
                bool,
                HaltView,
            >(output.code == Some(0i32))
            &&& step.out is Ok ==> step.tape == tape.later(1)
        }),
{
    let command = CommandView::new("/usr/bin/security"@).arg("show-keychain-info"@).arg(
        paths.login_keychain(),
    );
    assert(command.arguments =~= seq!["show-keychain-info"@, paths.login_keychain()]);
}

/// The user can be asked where both standard input and standard error are terminals.
pub proof fn a_user_is_at_a_terminal(tape: Tape)
    ensures
        ({
            let step = interactive_terminal_steps(tape);
            &&& tape.read >= tape.replies.len() ==> step.waits_for(Ask::Terminals)
            &&& tape.ahead(0) matches Some(Reply::Terminals { input, errors }) ==> {
                &&& !(input && errors) ==> step.refuses(
                    "the host login Keychain is locked; rerun from an interactive terminal"@,
                )
                &&& input && errors && tape.ahead(1) is None ==> step.waits_for(
                    Ask::Run(
                        CommandView {
                            input: InputView::Inherited,
                            ..program("/usr/bin/tty"@, Seq::empty())
                        },
                    ),
                )
                &&& input && errors ==> (tape.ahead(1) matches Some(Reply::Output(output)) ==> (
                step.out matches Ok(terminal) ==> output.code == Some(0i32) && terminal
                    == trimmed(decode_utf8(output.stdout@))))
            }
        }),
{
}

/// A round of waiting for the user: a signal ends the tool and nothing is unlocked; a
/// tool that ended well counts only where the Keychain then is unlocked.
pub proof fn a_password_is_waited_for(paths: PathsView, tape: Tape)
    ensures
        ({
            let step = await_unlock_steps(paths, tape);
            &&& tape.read >= tape.replies.len() ==> step.waits_for(Ask::SignalPending)
            &&& tape.ahead(0) == Some(Reply::Flag(true)) ==> {
                &&& tape.ahead(1) is None ==> step.waits_for(Ask::KillChild)
                &&& tape.ahead(1) is Some ==> step.out == Ok::<bool, HaltView>(false)
            }
            &&& tape.ahead(0) == Some(Reply::Flag(false)) ==> {
                &&& tape.ahead(1) is None ==> step.waits_for(Ask::PollChild)
                &&& tape.ahead(1) == Some(Reply::Running) && tape.ahead(2) is None
                    ==> step.waits_for(Ask::Sleep(10))
                &&& tape.ahead(1) matches Some(Reply::Exited { success, .. }) ==> if success {
                    step == keychain_unlocked_steps(paths, tape.later(2))
                } else {
                    step.out == Ok::<bool, HaltView>(false)
                }
            }
        }),
{
}

/// The Keychain is unlocked by the tool that asks for the password, on the terminal of
/// the user, which does not show it meanwhile.
pub proof fn the_keychain_is_unlocked_unseen(
    paths: PathsView,
    terminal: Seq<char>,
    tape: Tape,
)
    ensures
        ({
            let step = unlock_keychain_steps(paths, terminal, tape);
            let tried = ask_and_unlock_steps(paths, tape.later(2));
            &&& tape.read >= tape.replies.len() ==> step.waits_for(Ask::WatchSignals)
            &&& tape.ahead(0) == Some(Reply::Done) && tape.ahead(1) is None ==> step.waits_for(
                Ask::HideInput(terminal),
            )
            &&& tape.ahead(0) == Some(Reply::Done) && tape.ahead(1) == Some(Reply::Done) ==> {
                &&& tape.ahead(2) is None ==> step.waits_for(
                    Ask::Spawn(
                        attached(
                            program(
                                "/usr/bin/security"@,
                                seq!["unlock-keychain"@, paths.login_keychain()],
                            ),
                        ),
                    ),
                )
                &&& tape.ahead(2) == Some(Reply::Done) ==> tried == await_unlock_steps(
                    paths,
                    tape.later(3),
                )
                &&& tried.out is Ok && tried.tape.ahead(0) is Some && tried.tape.ahead(1) is None
                    ==> step.waits_for(Ask::UnwatchSignals)
                &&& tried.out is Ok && tried.tape.ahead(0) is Some && tried.tape.ahead(1) is Some
                    ==> step.out == tried.out
            }
        }),
{
    let command = CommandView::new("/usr/bin/security"@).arg("unlock-keychain"@).arg(
        paths.login_keychain(),
    );
    assert(command.arguments =~= seq!["unlock-keychain"@, paths.login_keychain()]);
    assert(command.environment =~= Seq::empty());
}

/// What the helper publishes is what it found: whether the Keychain is unlocked, after
/// the user was asked where it was started for that.
pub proof fn the_helper_publishes_what_it_found(
    paths: PathsView,
    mode: KeychainHelperMode,
    unlocked: bool,
    tape: Tape,
)
    requires
        mode == KeychainHelperMode::Check ==> keychain_unlocked_steps(paths, tape).out == Ok::<
            bool,
            HaltView,
        >(unlocked),
        mode == KeychainHelperMode::Unlock ==> (interactive_terminal_steps(tape).out matches Ok(
            terminal,
        ) && unlock_keychain_steps(paths, terminal, interactive_terminal_steps(tape).tape).out
            == Ok::<bool, HaltView>(unlocked)),
    ensures
        ({
            let found = match mode {
                KeychainHelperMode::Check => keychain_unlocked_steps(paths, tape).tape,
                KeychainHelperMode::Unlock => unlock_keychain_steps(
                    paths,
                    interactive_terminal_steps(tape).out->Ok_0,
                    interactive_terminal_steps(tape).tape,
                ).tape,
            };
            let step = internal_keychain_steps(paths, mode, tape);
            &&& private_dir_steps(paths.state, found).out is Ok && found.ahead(2) is None
                ==> step.waits_for(
                Ask::PublishText {
                    directory: paths.state,
                    path: helper_result(paths),
                    text: if unlocked { "unlocked\n"@ } else { "locked\n"@ },
                },
            )
            &&& private_dir_steps(paths.state, found).out is Ok && found.ahead(2) == Some(
                Reply::Done,
            ) ==> step.out is Ok
        }),
{
}

/// The helper runs once, in the background session, with the terminal of the user, and
/// as the command of this VM.
pub proof fn the_helper_is_this_command(paths: PathsView, mode: Seq<char>, terminal: Seq<char>)
    ensures
        helper_agent(paths, mode, terminal) == (KeychainHelperPlistView {
            label: paths.keychain_helper_label,
            program_arguments: seq![paths.command_link, "internal-keychain"@, mode],
            home: paths.home,
            limit_load_to_session_type: "Background"@,
            process_type: "Background"@,
            run_at_load: true,
            standard_in_path: terminal,
            standard_out_path: terminal,
            standard_error_path: terminal,
        }),
{
}

/// A round of waiting for the helper: only the word for it means that the Keychain is
/// unlocked, and a signal or the time limit ends the wait.
pub proof fn the_helper_is_waited_for(paths: PathsView, start: u64, limit: u64, tape: Tape)
    ensures
        ({
            let step = await_helper_steps(paths, start, limit, tape);
            &&& tape.read >= tape.replies.len() ==> step.waits_for(
                Ask::ReadText(helper_result(paths)),
            )
            &&& tape.ahead(0) matches Some(Reply::Text(text)) ==> step.out == Ok::<bool, HaltView>(
                trimmed(text@) == "unlocked"@,
            )
            &&& tape.ahead(0) matches Some(Reply::Missing(_)) ==> {
                &&& tape.ahead(1) is None ==> step.waits_for(Ask::SignalPending)
                &&& tape.ahead(1) == Some(Reply::Flag(true)) ==> step.refuses(
                    "Keychain unlock was interrupted"@,
                )
                &&& tape.ahead(1) == Some(Reply::Flag(false)) && tape.ahead(2) is None
                    ==> step.waits_for(Ask::Now)
                &&& tape.ahead(1) == Some(Reply::Flag(false)) ==> (tape.ahead(2) matches Some(
                    Reply::Instant(now),
                ) ==> {
                    &&& now - start >= limit ==> step.refuses(
                        "timed out waiting for the Keychain helper"@,
                    )
                    &&& now - start < limit && tape.ahead(3) is None ==> step.waits_for(
                        Ask::Sleep(50),
                    )
                })
            }
        }),
{
}

/// What an earlier helper left is removed: its service, its definition and its result.
pub proof fn helpers_leave_nothing(app: AppView, tape: Tape)
    requires
        crate::service::unload_steps(
            app.paths.keychain_helper_target(app.host),
            "unload the Keychain helper"@,
            tape,
        ).out is Ok,
    ensures
        ({
            let gone = crate::service::unload_steps(
                app.paths.keychain_helper_target(app.host),
                "unload the Keychain helper"@,
                tape,
            ).tape;
            let step = app.cleanup_keychain_helper(tape);
            &&& gone.ahead(0) is None ==> step.waits_for(Ask::RemoveFile(helper_plist(app.paths)))
            &&& gone.ahead(0) == Some(Reply::Done) && gone.ahead(1) is None ==> step.waits_for(
                Ask::RemoveFile(helper_result(app.paths)),
            )
            &&& gone.ahead(0) == Some(Reply::Done) && gone.ahead(1) == Some(Reply::Done)
                ==> step.out is Ok
            &&& private_dir_steps(app.paths.state, tape).out is Err
                ==> app.clear_keychain_helper(tape).out is Err
        }),
{
    reveal(AppView::cleanup_keychain_helper);
}

/// Clearing away a helper needs the directory that it left things in.
pub proof fn helpers_are_cleared_away(app: AppView, tape: Tape)
    ensures
        private_dir_steps(app.paths.state, tape).out is Ok ==> app.clear_keychain_helper(tape)
            == app.cleanup_keychain_helper(tape.later(2)),
        app.clear_keychain_helper(tape).out is Ok ==> private_dir_steps(
            app.paths.state,
            tape,
        ).out is Ok,
{
    directories_are_created_once(app.paths.state, tape);
}

/// A helper is defined anew, loaded, waited for and cleared away, whatever came of it.
pub proof fn the_helper_is_run_and_cleared_away(
    app: AppView,
    mode: Seq<char>,
    terminal: Seq<char>,
    limit: u64,
    tape: Tape,
)
    requires
        private_dir_steps(app.paths.state, tape).out is Ok,
        app.cleanup_keychain_helper(tape.later(2)).out is Ok,
    ensures
        ({
            let ready = app.cleanup_keychain_helper(tape.later(2)).tape;
            let step = app.run_keychain_helper_on(mode, terminal, limit, tape);
            let outcome = app.keychain_helper_outcome(limit, ready.later(2));
            let cleanup = app.cleanup_keychain_helper(outcome.tape);
            &&& ready.ahead(0) is None ==> step.waits_for(
                Ask::StagePlist {
                    directory: app.paths.state,
                    plist: PlistView::KeychainHelper(
                        KeychainHelperPlistView {
                            label: app.paths.keychain_helper_label,
                            program_arguments: seq![
                                app.paths.command_link,
                                "internal-keychain"@,
                                mode,
                            ],
                            home: app.paths.home,
                            limit_load_to_session_type: "Background"@,
                            process_type: "Background"@,
                            run_at_load: true,
                            standard_in_path: terminal,
                            standard_out_path: terminal,
                            standard_error_path: terminal,
                        },
                    ),
                    mode: 0o600,
                    durable: false,
                },
            )
            &&& ready.ahead(0) == Some(Reply::Done) && ready.ahead(1) is None ==> step.waits_for(
                Ask::PublishStaged(helper_plist(app.paths)),
            )
            &&& ready.ahead(0) == Some(Reply::Done) && ready.ahead(1) == Some(Reply::Done) ==> {
                &&& ready.ahead(2) is None ==> step.waits_for(
                    Ask::Run(
                        program(
                            "/bin/launchctl"@,
                            seq![
                                "bootstrap"@,
                                app.host.user_domain(),
                                helper_plist(app.paths),
                            ],
                        ),
                    ),
                )
                &&& outcome.out is Ok && cleanup.out is Ok ==> step.out == outcome.out
                &&& outcome.out is Ok ==> stops_with(step, cleanup)
                &&& (outcome.out matches Err(HaltView::Failed(_))) && cleanup.out is Ok
                    ==> step.out == outcome.out
                &&& outcome.out matches Err(HaltView::Failed(messages)) ==> (
                cleanup.out matches Err(HaltView::Failed(second)) ==> step.out == Err::<
                    bool,
                    HaltView,
                >(
                    HaltView::Failed(
                        seq!["Keychain helper cleanup also failed: "@ + rendered(second)]
                            + messages,
                    ),
                ))
            }
            &&& ready.ahead(2) matches Some(Reply::Output(output)) ==> {
                &&& output.code != Some(0i32) ==> outcome.out is Err
                &&& output.code == Some(0i32) && ready.ahead(3) is None ==> outcome.waits_for(
                    Ask::Now,
                )
                &&& output.code == Some(0i32) ==> (ready.ahead(3) matches Some(
                    Reply::Instant(start),
                ) ==> outcome == await_helper_steps(app.paths, start, limit, ready.later(4)))
            }
        }),
{
    reveal(AppView::run_keychain_helper_on);
    directories_are_created_once(app.paths.state, tape);
    the_helper_is_this_command(app.paths, mode, terminal);
    let load = crate::service::launchctl("bootstrap"@, app.host.user_domain()).arg(
        helper_plist(app.paths),
    );
    assert(load.arguments =~= seq![
        "bootstrap"@,
        app.host.user_domain(),
        helper_plist(app.paths),
    ]);
    assert(load.environment =~= Seq::empty());
}

/// The background session is looked at for five seconds without a terminal, and
/// unlocked within five minutes from the terminal of the user.
pub proof fn the_background_is_looked_at_and_unlocked(
    app: AppView,
    terminal: Seq<char>,
    tape: Tape,
)
    requires
        tape.ahead(0) == Some(Reply::Done),
    ensures
        ({
            let looked = app.run_keychain_helper_on("check"@, "/dev/null"@, 5000, tape.later(1));
            &&& looked.out is Ok && looked.tape.ahead(0) is Some ==> app.background_check(
                tape,
            ).out == looked.out
            &&& (looked.out matches Err(HaltView::Failed(_))) && looked.tape.ahead(0) is Some
                ==> app.background_check(tape).out == looked.out
        }),
        ({
            let step = app.background_unlock(terminal, tape);
            let tried = app.run_keychain_helper_on("unlock"@, terminal, 300000, tape.later(2));
            let tty = "/dev/tty"@.is_prefix_of(terminal);
            &&& !tty && tape.ahead(1) is Some ==> step.refuses("invalid terminal path"@)
            &&& tty && tape.ahead(1) is None ==> step.waits_for(Ask::HideInput(terminal))
            &&& tty && tape.ahead(1) == Some(Reply::Done) && tried.out is Ok ==> {
                &&& tried.tape.ahead(0) is None ==> step.waits_for(Ask::RestoreInput)
                &&& tried.tape.ahead(0) is Some && tried.tape.ahead(1) is Some ==> step.out
                    == tried.out
            }
        }),
{
    reveal(AppView::background_check);
    reveal(AppView::background_unlock);
}

/// The Keychain of this session is unlocked once that ends well: it was, or the user
/// unlocked it.
pub proof fn the_keychain_of_this_session(app: AppView, tape: Tape)
    ensures
        ({
            let step = app.ensure_keychain(KeychainMode::Current, tape);
            let known = keychain_unlocked_steps(app.paths, tape);
            let found = interactive_terminal_steps(known.tape);
            let opened = unlock_keychain_steps(app.paths, found.out->Ok_0, found.tape);
            &&& stops_with(step, known)
            &&& known.out == Ok::<bool, HaltView>(true) ==> step.out is Ok && step.tape
                == known.tape
            &&& known.out == Ok::<bool, HaltView>(false) ==> stops_with(step, found)
            &&& known.out == Ok::<bool, HaltView>(false) && found.out is Ok ==> {
                &&& opened.out == Ok::<bool, HaltView>(true) ==> step.out is Ok
                &&& opened.out == Ok::<bool, HaltView>(false) ==> step.refuses(
                    "failed to unlock the host login Keychain"@,
                )
                &&& opened.out matches Err(halt) ==> step.out == Err::<(), HaltView>(halt)
            }
        }),
        ({
            let step = app.ensure_keychain(KeychainMode::Background, tape);
            let known = keychain_unlocked_steps(app.paths, tape);
            &&& stops_with(step, known)
            &&& known.out == Ok::<bool, HaltView>(true) ==> step.out is Ok
            &&& known.out == Ok::<bool, HaltView>(false) ==> step.refuses(
                "the host login Keychain is locked; run '"@ + app.paths.command_name()
                    + " start' from an interactive terminal"@,
            )
        }),
{
    reveal(AppView::ensure_keychain);
    reveal(AppView::ensure_current_keychain);
}

/// So it is with the Keychain of the background session.
pub proof fn the_keychain_of_the_background(app: AppView, tape: Tape)
    ensures
        ({
            let step = app.ensure_keychain(KeychainMode::BackgroundInteractive, tape);
            let known = app.background_check(tape);
            let found = interactive_terminal_steps(known.tape);
            let opened = app.background_unlock(found.out->Ok_0, found.tape);
            &&& stops_with(step, known)
            &&& known.out == Ok::<bool, HaltView>(true) ==> step.out is Ok
            &&& known.out == Ok::<bool, HaltView>(false) ==> stops_with(step, found)
            &&& known.out == Ok::<bool, HaltView>(false) && found.out is Ok ==> {
                &&& opened.out == Ok::<bool, HaltView>(true) ==> step.out is Ok
                &&& opened.out == Ok::<bool, HaltView>(false) ==> step.refuses(
                    "failed to unlock the login Keychain for the Background service"@,
                )
                &&& opened.out matches Err(halt) ==> step.out == Err::<(), HaltView>(halt)
            }
        }),
{
    reveal(AppView::ensure_keychain);
    reveal(AppView::ensure_background_keychain);
}

/// A password that is typed is taken as it is, unless it is empty or has control
/// characters.
pub proof fn typed_passwords_are_taken(prompt: Seq<char>, tape: Tape)
    ensures
        ({
            let step = prompt_password_steps(prompt, tape);
            &&& tape.read >= tape.replies.len() ==> step.waits_for(Ask::PromptPassword(prompt))
            &&& tape.ahead(0) matches Some(Reply::Text(typed)) ==> {
                let control = exists|i: int|
                    0 <= i < typed@.len() && ((#[trigger] typed@[i]) as u32 <= 0x1f || 0x7f
                        <= typed@[i] as u32 <= 0x9f);
                &&& typed@.len() == 0 ==> step.refuses("password must not be empty"@)
                &&& typed@.len() > 0 && control ==> step.refuses(
                    "password must not contain control characters"@,
                )
                &&& typed@.len() > 0 && !control ==> step.out == Ok::<Seq<char>, HaltView>(typed@)
                    && step.tape == tape.later(1)
            }
        }),
{
}

/// A guest password is typed twice, the same both times, and is of an allowed length.
pub proof fn guest_passwords_are_typed_twice(tape: Tape)
    ensures
        ({
            let step = prompt_guest_password_steps(tape);
            let first = prompt_password_steps("guest password: "@, tape);
            let second = prompt_password_steps("confirm guest password: "@, tape.later(1));
            &&& first.out is Err ==> step.out == first.out
            &&& first.out matches Ok(password) ==> {
                &&& !(8 <= password.len() <= 128) ==> step.refuses(
                    "guest password must be 8-128 characters"@,
                )
                &&& 8 <= password.len() <= 128 && second.out is Err ==> step.out == second.out
                &&& 8 <= password.len() <= 128 ==> (second.out matches Ok(again) ==> if again
                    == password {
                    step.out == Ok::<Seq<char>, HaltView>(password)
                } else {
                    step.refuses("guest passwords do not match"@)
                })
            }
        }),
{
}

/// The guest password is the one that the Keychain holds for the guest user and the
/// service of this VM, where it is text of an allowed length.
pub proof fn the_guest_password_is_the_stored_one(app: AppView, tape: Tape)
    requires
        app.ensure_keychain(KeychainMode::Current, tape).out is Ok,
    ensures
        ({
            let step = app.guest_password(tape);
            let ready = app.ensure_keychain(KeychainMode::Current, tape).tape;
            let stored = app.keychain_password(
                app.config.guest_user,
                app.paths.password_service,
                ready,
            );
            &&& stops_with(step, stored)
            &&& stored.out == Ok::<StoredView, HaltView>(StoredView::Absent) ==> step.refuses(
                "the guest password is missing from Keychain"@,
            )
            &&& stored.out matches Ok(StoredView::Password(bytes)) ==> {
                &&& !valid_utf8(bytes) ==> step.out is Err
                &&& valid_utf8(bytes) && 8 <= decode_utf8(bytes).len() <= 128 ==> step.out == Ok::<
                    Seq<char>,
                    HaltView,
                >(decode_utf8(bytes))
                &&& valid_utf8(bytes) && !(8 <= decode_utf8(bytes).len() <= 128) ==> step.refuses(
                    "guest password must be 8-128 characters"@,
                )
            }
        }),
{
    reveal(AppView::guest_password);
}

/// A guest password that is stored is used; one that is missing is created for a new
/// VM alone, from what the user types or from random bytes, and stored for the guest
/// user under the service of the VM.
pub proof fn guest_passwords_are_prepared(
    app: AppView,
    policy: CredentialPolicy,
    choice: PasswordChoice,
    tape: Tape,
)
    requires
        app.ensure_keychain(KeychainMode::Current, tape).out is Ok,
    ensures
        ({
            let step = app.prepare_guest_password(policy, choice, tape);
            let ready = app.ensure_keychain(KeychainMode::Current, tape).tape;
            let stored = app.keychain_password(
                app.config.guest_user,
                app.paths.password_service,
                ready,
            );
            let typed = prompt_guest_password_steps(stored.tape);
            &&& stops_with(step, stored)
            &&& stored.out matches Ok(StoredView::Password(_)) ==> (step.out is Ok
                <==> app.guest_password(stored.tape).out is Ok)
            &&& stored.out == Ok::<StoredView, HaltView>(StoredView::Absent) ==> {
                &&& policy == CredentialPolicy::Existing ==> step.refuses(
                    "the guest password is missing from Keychain and cannot be regenerated for an existing VM"@,
                )
                &&& policy == CredentialPolicy::CreateIfMissing && choice
                    == PasswordChoice::Generate && stored.tape.ahead(0) is None
                    ==> step.waits_for(Ask::RandomBytes(24))
                &&& policy == CredentialPolicy::CreateIfMissing && choice
                    == PasswordChoice::Generate ==> (stored.tape.ahead(0) matches Some(
                    Reply::Bytes(bytes),
                ) ==> (bytes@.len() == 24 ==> step == app.store_keychain_password(
                    app.config.guest_user,
                    app.paths.password_service,
                    encode_utf8(hex_text(bytes@)),
                    stored.tape.later(1),
                )))
                &&& policy == CredentialPolicy::CreateIfMissing && choice == PasswordChoice::Prompt
                    ==> match typed.out {
                    Err(halt) => step.out == Err::<(), HaltView>(halt),
                    Ok(password) => step == app.store_keychain_password(
                        app.config.guest_user,
                        app.paths.password_service,
                        encode_utf8(password),
                        typed.tape,
                    ),
                }
            }
        }),
{
    reveal(AppView::prepare_guest_password);
    reveal(AppView::create_guest_password);
}

} // verus!
