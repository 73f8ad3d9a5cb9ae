//! A VM is installed and managed without a graphical login on the host.

use crate::app::AppView;
use crate::cli::{run_installer_steps, run_steps, ActionView};
use crate::conduct::{
    action_asks, console_session_asks, install_asks, run_bounded, run_installer_bounded,
    tailscale_setup_asks, wait_asks,
};
use crate::config::ConfigView;
use crate::footprint::{current_keychain_asks, keychain_asks, storage_asks};
use crate::host::{HostView, PathsView};
use crate::laws::verb;
use crate::machine::BRIDGE;
use crate::options::InstallOptionsView;
use crate::session::{Ask, HaltView, Tape};
use vstd::prelude::*;

verus! {

/// The first words of the commands that look at the graphical session.
spec fn word_looks(word: Seq<char>) -> bool {
    ||| word == "managername"@
    ||| word == "-n"@
}

/// The first words of other commands are none of those.
proof fn lemma_words()
    ensures
        !word_looks("show-keychain-info"@),
        !word_looks("find-generic-password"@),
        !word_looks("-i"@),
        !word_looks("-a"@),
        !word_looks("-q"@),
        !word_looks("-P"@),
        !word_looks("apfs"@),
        !word_looks("info"@),
        !word_looks("mount"@),
        !word_looks("list"@),
        !word_looks("get"@),
        !word_looks("ip"@),
        !word_looks("stop"@),
        !word_looks("delete"@),
        !word_looks("print"@),
        !word_looks("bootout"@),
        !word_looks("bootstrap"@),
        !word_looks("kickstart"@),
        !word_looks("build"@),
        !word_looks("--realise"@),
        !word_looks(BRIDGE@),
{
    reveal_strlit("managername");
    reveal_strlit("-n");
    reveal_strlit("show-keychain-info");
    reveal_strlit("find-generic-password");
    reveal_strlit("-i");
    reveal_strlit("-a");
    reveal_strlit("-q");
    reveal_strlit("-P");
    reveal_strlit("apfs");
    reveal_strlit("info");
    reveal_strlit("mount");
    reveal_strlit("list");
    reveal_strlit("get");
    reveal_strlit("ip");
    reveal_strlit("stop");
    reveal_strlit("delete");
    reveal_strlit("print");
    reveal_strlit("bootout");
    reveal_strlit("bootstrap");
    reveal_strlit("kickstart");
    reveal_strlit("build");
    reveal_strlit("--realise");
    reveal_strlit("en0");
    assert("managername"@.len() == 11);
    assert("-n"@.len() == 2 && "-n"@[0] == '-' && "-n"@[1] == 'n');
    assert("show-keychain-info"@.len() == 18 && "find-generic-password"@.len() == 21);
    assert("-i"@[1] == 'i' && "-i"@.len() == 2);
    assert("-a"@[1] == 'a' && "-a"@.len() == 2);
    assert("-q"@[1] == 'q' && "-q"@.len() == 2);
    assert("-P"@[1] == 'P' && "-P"@.len() == 2);
    assert("apfs"@.len() == 4 && "info"@.len() == 4 && "mount"@.len() == 5);
    assert("list"@.len() == 4 && "get"@.len() == 3);
    assert("ip"@.len() == 2 && "ip"@[0] == 'i');
    assert("stop"@.len() == 4 && "delete"@.len() == 6 && "print"@.len() == 5);
    assert("bootout"@.len() == 7 && "bootstrap"@.len() == 9 && "kickstart"@.len() == 9);
    assert("build"@.len() == 5 && "--realise"@.len() == 9 && "en0"@.len() == 3);
}

/// A request to look at the graphical session runs a command with such a word.
proof fn lemma_looking(request: Ask)
    requires
        console_session_asks(request),
    ensures
        request is DecodeConsole || (request is Run && verb(request) is Some && word_looks(
            verb(request)->0,
        )),
{
}

proof fn lemma_keychain(app: AppView, request: Ask)
    requires
        keychain_asks(app, request),
    ensures
        !console_session_asks(request),
{
    lemma_words();
    if console_session_asks(request) {
        lemma_looking(request);
    }
}

proof fn lemma_storage(app: AppView, request: Ask)
    requires
        storage_asks(app, request),
    ensures
        !console_session_asks(request),
{
    lemma_words();
    if console_session_asks(request) {
        lemma_looking(request);
    }
    if current_keychain_asks(app.paths, request) {
        lemma_keychain(app, request);
    }
}

proof fn lemma_waiting(app: AppView, request: Ask)
    requires
        wait_asks(app, request),
    ensures
        !console_session_asks(request),
{
    lemma_words();
    if console_session_asks(request) {
        lemma_looking(request);
    }
    if storage_asks(app, request) {
        lemma_storage(app, request);
    }
}

proof fn lemma_tailscale_setup(app: AppView, request: Ask)
    requires
        tailscale_setup_asks(app, request),
    ensures
        !console_session_asks(request),
{
    lemma_words();
    if console_session_asks(request) {
        lemma_looking(request);
    }
}

/// No action but the console and Screen Sharing looks at the graphical session of
/// the host: the others work the same with and without a graphical login.
pub proof fn only_the_desktop_needs_a_graphical_session(
    host: HostView,
    name: Seq<char>,
    action: ActionView,
    tape: Tape,
)
    requires
        tape.valid(),
        action != ActionView::Console,
        action != ActionView::ScreenShare,
    ensures
        run_steps(host, name, action, tape).out matches Err(
            HaltView::Pending { request, .. },
        ) ==> !console_session_asks(request),
{
    run_bounded(host, name, action, tape);
    if let Err(HaltView::Pending { keep, request }) = run_steps(host, name, action, tape).out {
        let paths = PathsView::discover(name, host)->Ok_0;
        lemma_words();
        if console_session_asks(request) {
            lemma_looking(request);
        }
        if exists|config: ConfigView| #[trigger]
            action_asks(AppView { host, paths, config }, action, request) {
            let config = choose|config: ConfigView| #[trigger]
                action_asks(AppView { host, paths, config }, action, request);
            lemma_action(AppView { host, paths, config }, action, request);
        }
    }
}

proof fn lemma_action(app: AppView, action: ActionView, request: Ask)
    requires
        action_asks(app, action, request),
        action != ActionView::Console,
        action != ActionView::ScreenShare,
    ensures
        !console_session_asks(request),
{
    lemma_words();
    if console_session_asks(request) {
        lemma_looking(request);
    }
    if wait_asks(app, request) {
        lemma_waiting(app, request);
    }
    if keychain_asks(app, request) {
        lemma_keychain(app, request);
    }
    if tailscale_setup_asks(app, request) {
        lemma_tailscale_setup(app, request);
    }
}

/// Neither does the installer.
pub proof fn installing_needs_no_graphical_session(
    host: HostView,
    options: InstallOptionsView,
    tape: Tape,
)
    requires
        tape.valid(),
    ensures
        run_installer_steps(host, options, tape).out matches Err(
            HaltView::Pending { request, .. },
        ) ==> !console_session_asks(request),
{
    run_installer_bounded(host, options, tape);
    if let Err(HaltView::Pending { keep, request }) = run_installer_steps(host, options, tape).out {
        let paths = PathsView::discover(options.name, host)->Ok_0;
        lemma_words();
        if console_session_asks(request) {
            lemma_looking(request);
        }
        if exists|config: ConfigView| #[trigger]
            install_asks(AppView { host, paths, config }, request) {
            let config = choose|config: ConfigView| #[trigger]
                install_asks(AppView { host, paths, config }, request);
            lemma_install(AppView { host, paths, config }, request);
        }
    }
}

proof fn lemma_install(app: AppView, request: Ask)
    requires
        install_asks(app, request),
    ensures
        !console_session_asks(request),
{
    lemma_words();
    reveal_strlit("/usr/sbin/sysctl");
    reveal_strlit("/usr/sbin/ioreg");
    reveal_strlit("/bin/launchctl");
    assert("/usr/sbin/sysctl"@.len() == 16 && "/usr/sbin/ioreg"@.len() == 15);
    assert("/bin/launchctl"@.len() == 14);
    if console_session_asks(request) {
        lemma_looking(request);
    }
    if wait_asks(app, request) {
        lemma_waiting(app, request);
    }
    if storage_asks(app, request) {
        lemma_storage(app, request);
    }
    if keychain_asks(app, request) {
        lemma_keychain(app, request);
    }
}

} // verus!
