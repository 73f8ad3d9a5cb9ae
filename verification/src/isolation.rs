//! What keeps the VMs of one user apart.

use crate::app::AppView;
use crate::cli::{lock_file, run_installer_steps};
use crate::conduct::{
    build_vm_bounded, look_asks, run_installer_bounded, uninstall_bounded, verify_config_bounded,
    vm_exists_bounded,
};
use crate::files::{remove_if_present_steps, touch_steps};
use crate::host::{HostView, PathsView};
use crate::instance::{
    base_directory, keychain_helper_label, root_directory, service_label, IdentityView,
};
use crate::laws::{changes_files, lemma_looking_is_calm};
use crate::names::{name_allowed, name_char};
use crate::options::InstallOptionsView;
use crate::path::{components, is_step, join, up};
use crate::session::{Ask, HaltView, Tape};
use crate::text::pieces;
use crate::unlock::{helper_plist, helper_result};
use vstd::prelude::*;

verus! {

// ----------------------------------------------------------------- path steps
pub proof fn lemma_pieces_append(base: Seq<char>, step: Seq<char>)
    requires
        !step.contains('/'),
    ensures
        pieces(base + seq!['/'] + step, '/') == pieces(base, '/').push(step),
    decreases base.len(),
{
    let whole = base + seq!['/'] + step;
    assert(whole[base.len() as int] == '/');
    whole.index_of_first_ensures('/');
    let end = whole.index_of_first('/')->0;
    if base.contains('/') {
        base.index_of_first_ensures('/');
        let first = base.index_of_first('/')->0;
        assert(whole[first] == base[first]);
        assert(forall|i: int| 0 <= i < base.len() ==> whole[i] == base[i]);
        assert(end == first);
        assert(whole.take(end) == base.take(end));
        assert(whole.skip(end + 1) == base.skip(end + 1) + seq!['/'] + step);
        lemma_pieces_append(base.skip(end + 1), step);
        assert(pieces(whole, '/') == pieces(base, '/').push(step));
    } else {
        assert(forall|i: int| 0 <= i < base.len() ==> whole[i] == base[i]);
        assert(end == base.len()) by {
            if end < base.len() {
                assert(base[end] == '/');
            }
        }
        assert(whole.take(end) == base);
        assert(whole.skip(end + 1) == step);
        assert(pieces(step, '/') == seq![step]);
        assert(pieces(whole, '/') == pieces(base, '/').push(step));
    }
}

proof fn lemma_pieces_nonempty(text: Seq<char>)
    ensures
        pieces(text, '/').len() > 0,
{
}

/// A name without slashes that is joined to a path adds one component to it.
pub proof fn joining_adds_one_component(base: Seq<char>, step: Seq<char>)
    requires
        base.len() > 0,
        is_step(step),
        !step.contains('/'),
    ensures
        components(join(base, step)) == components(base).push(step),
{
    assert(step[0] != '/');
    if base.last() == '/' {
        let front = base.drop_last();
        assert(base == front + seq!['/'] + Seq::empty());
        assert(join(base, step) == front + seq!['/'] + step);
        lemma_pieces_append(front, step);
        lemma_pieces_append(front, Seq::empty());
        lemma_pieces_nonempty(front);
        assert(pieces(base, '/').drop_last() == pieces(front, '/'));
        assert(pieces(join(base, step), '/').drop_last() == pieces(front, '/'));
    } else {
        assert(join(base, step) == base + seq!['/'] + step);
        lemma_pieces_append(base, step);
        lemma_pieces_nonempty(base);
        assert(pieces(join(base, step), '/').drop_last() == pieces(base, '/'));
    }
    assert(join(base, step)[0] == base[0]);
    assert(components(join(base, step)) =~= components(base).push(step));
}

/// A name that is allowed is one step of a path and nothing else: it has no
/// slash and leads neither up nor to where it stands.
pub proof fn names_are_single_steps(name: Seq<char>)
    requires
        name_allowed(name),
    ensures
        is_step(name),
        name != up(),
        !name.contains('/'),
{
    assert(name[0] != '.');
    if name.contains('/') {
        let at = choose|at: int| 0 <= at < name.len() && name[at] == '/';
        assert(name_char(name[at]));
    }
}

/// The directory of a VM that has a name of its own is the one of that name,
/// directly below the directory of all such VMs.
pub proof fn named_vms_have_a_directory_each(home: Seq<char>, name: Seq<char>)
    requires
        name_allowed(name),
    ensures
        components(root_directory(home, IdentityView::Named(name))) == components(
            base_directory(home),
        ).push("instances"@).push(name),
{
    names_are_single_steps(name);
    reveal_strlit("instances");
    reveal_strlit("Library/Application Support/GremVM");
    let instances = join(base_directory(home), "instances"@);
    assert(!"instances"@.contains('/'));
    assert(base_directory(home).len() > 0);
    joining_adds_one_component(base_directory(home), "instances"@);
    joining_adds_one_component(instances, name);
}

// ----------------------------------------------------------- distinct VMs
/// A path to which a step can be joined with a slash.
spec fn open_ended(path: Seq<char>) -> bool {
    path.len() > 0 && path.last() != '/'
}

proof fn lemma_join(base: Seq<char>, step: Seq<char>)
    requires
        open_ended(base),
        open_ended(step),
        step[0] != '/',
    ensures
        join(base, step) == base + seq!['/'] + step,
        join(base, step).len() == base.len() + 1 + step.len(),
        open_ended(join(base, step)),
{
    assert(join(base, step).last() == step.last());
}

proof fn lemma_join_keeps_apart(one: Seq<char>, other: Seq<char>, step: Seq<char>)
    requires
        open_ended(one),
        open_ended(other),
        one != other,
        open_ended(step),
        step[0] != '/',
    ensures
        join(one, step) != join(other, step),
        open_ended(join(one, step)),
        open_ended(join(other, step)),
{
    lemma_join(one, step);
    lemma_join(other, step);
    if join(one, step) == join(other, step) {
        assert(one == join(one, step).take(one.len() as int));
        assert(other == join(other, step).take(one.len() as int));
    }
}

proof fn lemma_root(home: Seq<char>, name: Seq<char>)
    requires
        name_allowed(name),
    ensures
        open_ended(base_directory(home)),
        open_ended(PathsView::of(home, name).root),
        name == "gremvm"@ ==> PathsView::of(home, name).root == base_directory(home),
        name != "gremvm"@ ==> PathsView::of(home, name).root == base_directory(home)
            + "/instances/"@ + name,
{
    reveal_strlit("Library/Application Support/GremVM");
    reveal_strlit("instances");
    reveal_strlit("/instances/");
    let base = base_directory(home);
    let tail = "Library/Application Support/GremVM"@;
    assert(base.last() == tail.last());
    if name != "gremvm"@ {
        assert(name[0] != '/');
        assert(name.last() != '/') by {
            assert(name_char(name[name.len() - 1]));
        }
        lemma_join(base, "instances"@);
        let instances = join(base, "instances"@);
        lemma_join(instances, name);
        assert("/instances/"@ =~= seq!['/'] + "instances"@ + seq!['/']);
        assert(instances + seq!['/'] + name =~= base + "/instances/"@ + name);
    }
}

proof fn lemma_roots_differ(home: Seq<char>, one: Seq<char>, other: Seq<char>)
    requires
        name_allowed(one),
        name_allowed(other),
        one != other,
    ensures
        PathsView::of(home, one).root != PathsView::of(home, other).root,
{
    lemma_root(home, one);
    lemma_root(home, other);
    let base = base_directory(home);
    let prefix = base + "/instances/"@;
    let first = PathsView::of(home, one).root;
    let second = PathsView::of(home, other).root;
    if first == second {
        if one != "gremvm"@ && other != "gremvm"@ {
            assert(one == first.skip(prefix.len() as int));
            assert(other == second.skip(prefix.len() as int));
        }
    }
}

/// Two names never share a directory, a marker, a lock, a log, a runtime or
/// settings.
pub proof fn vms_share_no_files(home: Seq<char>, one: Seq<char>, other: Seq<char>)
    requires
        name_allowed(one),
        name_allowed(other),
        one != other,
    ensures
        ({
            let first = PathsView::of(home, one);
            let second = PathsView::of(home, other);
            &&& first.root != second.root
            &&& first.config_dir != second.config_dir
            &&& first.config_file != second.config_file
            &&& first.ssh_key != second.ssh_key
            &&& first.state != second.state
            &&& first.run_marker != second.run_marker
            &&& first.installing != second.installing
            &&& first.provisioned != second.provisioned
            &&& first.service_plist != second.service_plist
            &&& lock_file(first) != lock_file(second)
            &&& helper_plist(first) != helper_plist(second)
            &&& helper_result(first) != helper_result(second)
            &&& first.logs != second.logs
            &&& first.runtime != second.runtime
        }),
{
    let first = PathsView::of(home, one);
    let second = PathsView::of(home, other);
    lemma_root(home, one);
    lemma_root(home, other);
    lemma_roots_differ(home, one, other);
    reveal_strlit("config");
    reveal_strlit("config.json");
    reveal_strlit("id_ed25519");
    reveal_strlit("state");
    reveal_strlit("run");
    reveal_strlit("installing");
    reveal_strlit("provisioned");
    reveal_strlit("service.plist");
    reveal_strlit("management.lock");
    reveal_strlit("keychain.plist");
    reveal_strlit("keychain.result");
    reveal_strlit("logs");
    reveal_strlit("runtime");
    lemma_join_keeps_apart(first.root, second.root, "config"@);
    lemma_join_keeps_apart(first.config_dir, second.config_dir, "config.json"@);
    lemma_join_keeps_apart(first.config_dir, second.config_dir, "id_ed25519"@);
    lemma_join_keeps_apart(first.root, second.root, "state"@);
    lemma_join_keeps_apart(first.state, second.state, "run"@);
    lemma_join_keeps_apart(first.state, second.state, "installing"@);
    lemma_join_keeps_apart(first.state, second.state, "provisioned"@);
    lemma_join_keeps_apart(first.state, second.state, "service.plist"@);
    lemma_join_keeps_apart(first.state, second.state, "management.lock"@);
    lemma_join_keeps_apart(first.state, second.state, "keychain.plist"@);
    lemma_join_keeps_apart(first.state, second.state, "keychain.result"@);
    lemma_join_keeps_apart(first.root, second.root, "logs"@);
    lemma_join_keeps_apart(first.root, second.root, "runtime"@);
}

proof fn lemma_labels_differ(prefix: Seq<char>, short: Seq<char>, one: Seq<char>, other: Seq<char>)
    requires
        one != other,
        short.len() < prefix.len(),
    ensures
        prefix + one != prefix + other,
        prefix + one != short,
{
    if prefix + one == prefix + other {
        assert(one == (prefix + one).skip(prefix.len() as int));
        assert(other == (prefix + other).skip(prefix.len() as int));
    }
    assert((prefix + one).len() > short.len());
}

/// Two names never share a service, a Keychain helper, a password or a command.
pub proof fn vms_share_no_services(home: Seq<char>, one: Seq<char>, other: Seq<char>)
    requires
        name_allowed(one),
        name_allowed(other),
        one != other,
    ensures
        ({
            let first = PathsView::of(home, one);
            let second = PathsView::of(home, other);
            &&& first.service_label != second.service_label
            &&& first.keychain_helper_label != second.keychain_helper_label
            &&& first.password_service != second.password_service
            &&& first.command_name() != second.command_name()
            &&& first.command_link != second.command_link
        }),
{
    let first = PathsView::of(home, one);
    let second = PathsView::of(home, other);
    reveal_strlit("io.gremvm.tart");
    reveal_strlit("io.gremvm.tart.");
    reveal_strlit("io.gremvm.keychain");
    reveal_strlit("io.gremvm.keychain.");
    assert("io.gremvm.tart"@.len() == 14 && "io.gremvm.tart."@.len() == 15);
    assert("io.gremvm.keychain"@.len() == 18 && "io.gremvm.keychain."@.len() == 19);
    lemma_labels_differ("io.gremvm.tart."@, "io.gremvm.tart"@, one, other);
    lemma_labels_differ("io.gremvm.tart."@, "io.gremvm.tart"@, other, one);
    lemma_labels_differ("io.gremvm.keychain."@, "io.gremvm.keychain"@, one, other);
    lemma_labels_differ("io.gremvm.keychain."@, "io.gremvm.keychain"@, other, one);
    names_are_single_steps(one);
    names_are_single_steps(other);
    if first.command_link == second.command_link {
        let front = join(first.command_directory, Seq::empty()).len() as int;
        assert(one[0] != '/' && other[0] != '/');
        assert(one == first.command_link.skip(front));
        assert(other == second.command_link.skip(front));
    }
    if first.password_service == second.password_service {
        let end = first.service_label.len() as int;
        assert(first.password_service.len() == second.password_service.len());
        assert(first.service_label == first.password_service.take(end));
        assert(second.service_label == second.password_service.take(end));
    }
}

/// The markers of an installation do not have the service run the VM.
pub proof fn installing_marks_no_vm_to_run(
    host: HostView,
    options: InstallOptionsView,
    tape: Tape,
)
    requires
        tape.valid(),
    ensures
        run_installer_steps(host, options, tape).out matches Err(
            HaltView::Pending { request: Ask::CreateFile(path), .. },
        ) ==> PathsView::discover(options.name, host) matches Ok(paths) && path
            != paths.run_marker,
{
    run_installer_bounded(host, options, tape);
    if let Ok(paths) = PathsView::discover(options.name, host) {
        lemma_root(paths.home, options.name);
        reveal_strlit("state");
        reveal_strlit("run");
        reveal_strlit("installing");
        reveal_strlit("provisioned");
        lemma_join(paths.root, "state"@);
        lemma_join(paths.state, "run"@);
        lemma_join(paths.state, "installing"@);
        lemma_join(paths.state, "provisioned"@);
        assert("run"@.len() == 3 && "installing"@.len() == 10 && "provisioned"@.len() == 11);
    }
}

/// A VM counts as provisioned only once it was built, is there and is what the
/// settings say. Until then it counts as one that is being installed, so that an
/// interrupted installation can be told and repeated.
pub proof fn provisioned_means_complete(
    app: AppView,
    home: Seq<char>,
    name: Seq<char>,
    tape: Tape,
)
    requires
        tape.valid(),
        name_allowed(name),
        app.paths == PathsView::of(home, name),
    ensures
        ({
            let cleared = remove_if_present_steps(app.paths.provisioned, tape);
            let marked = touch_steps(app.paths.state, app.paths.installing, cleared.tape);
            let built = app.build_vm(marked.tape);
            let found = app.vm_exists(built.tape);
            app.create_vm(tape).out matches Err(HaltView::Pending { request, .. }) ==> {
                &&& request is Run ==> cleared.out is Ok && marked.out is Ok
                &&& request == Ask::CreateFile(app.paths.provisioned) ==> {
                    &&& built.out is Ok
                    &&& found.out == Ok::<bool, HaltView>(true)
                    &&& app.verify_config(found.tape).out is Ok
                }
            }
        }),
{
    broadcast use {build_vm_bounded, vm_exists_bounded, verify_config_bounded};

    reveal(AppView::create_vm);
    lemma_root(home, name);
    reveal_strlit("state");
    reveal_strlit("installing");
    reveal_strlit("provisioned");
    lemma_join(app.paths.root, "state"@);
    lemma_join(app.paths.state, "installing"@);
    lemma_join(app.paths.state, "provisioned"@);
    assert("installing"@.len() == 10 && "provisioned"@.len() == 11);
}

// -------------------------------------------------------------------- removal
/// What a user may want again after a VM was deleted.
pub open spec fn kept(paths: PathsView, path: Seq<char>) -> bool {
    ||| path == paths.config_file
    ||| path == paths.ssh_key
    ||| path == paths.public_key()
    ||| path == join(paths.config_dir, "known_hosts"@)
    ||| path == join(paths.logs, "vm.log"@)
    ||| path == join(paths.logs, "vm.error.log"@)
}

/// The place in a path below the home directory where the path goes on.
spec fn after(home: Seq<char>) -> int {
    if home.last() == '/' {
        home.len() as int
    } else {
        home.len() as int + 1
    }
}

/// What is joined to the home directory, or to a path below that, comes after it.
proof fn lemma_below(home: Seq<char>, step: Seq<char>, below: Seq<char>)
    requires
        home.len() > 0,
        open_ended(step),
        step[0] != '/',
        open_ended(below),
        below[0] != '/',
    ensures
        forall|i: int|
            0 <= i < step.len() ==> join(join(home, step), below)[after(home) + i] == step[i],
        forall|i: int| 0 <= i < step.len() ==> join(home, step)[after(home) + i] == step[i],
        open_ended(join(home, step)),
{
    assert(join(home, step).last() == step.last());
}

/// What is joined to a directory of a VM tells by its first letter which one.
proof fn lemma_inside_root(root: Seq<char>, directory: Seq<char>, file: Seq<char>)
    requires
        open_ended(root),
        open_ended(directory),
        directory[0] != '/',
        open_ended(file),
        file[0] != '/',
    ensures
        forall|i: int| 0 <= i < root.len() ==> join(join(root, directory), file)[i] == root[i],
        join(join(root, directory), file)[root.len() as int + 1] == directory[0],
        join(join(root, directory), file).len() > root.len() + 1,
{
    lemma_join(root, directory);
    lemma_join(join(root, directory), file);
}

proof fn lemma_home_of_root(home: Seq<char>, name: Seq<char>)
    requires
        home.len() > 0,
        name_allowed(name),
    ensures
        ({
            let root = PathsView::of(home, name).root;
            &&& root.len() > after(home) + 8
            &&& root[after(home)] == 'L'
            &&& root[after(home) + 8] == 'A'
        }),
{
    lemma_root(home, name);
    reveal_strlit("Library/Application Support/GremVM");
    reveal_strlit("instances");
    let tail = "Library/Application Support/GremVM"@;
    lemma_below(home, tail, "instances"@);
    let base = base_directory(home);
    assert(base[after(home) + 0] == tail[0]);
    assert(base[after(home) + 8] == tail[8]);
    assert(base.len() == after(home) + tail.len());
}

/// What is kept lies in the settings or the logs of the VM.
proof fn lemma_kept(home: Seq<char>, name: Seq<char>, path: Seq<char>)
    requires
        home.len() > 0,
        name_allowed(name),
        kept(PathsView::of(home, name), path),
    ensures
        ({
            let root = PathsView::of(home, name).root;
            &&& path.len() > root.len() + 1
            &&& path[root.len() as int + 1] == 'c' || path[root.len() as int + 1] == 'l'
            &&& path[after(home)] == 'L'
            &&& path[after(home) + 8] == 'A'
        }),
{
    let paths = PathsView::of(home, name);
    lemma_root(home, name);
    lemma_home_of_root(home, name);
    reveal_strlit("config");
    reveal_strlit("config.json");
    reveal_strlit("id_ed25519");
    reveal_strlit("known_hosts");
    reveal_strlit(".pub");
    reveal_strlit("logs");
    reveal_strlit("vm.log");
    reveal_strlit("vm.error.log");
    lemma_inside_root(paths.root, "config"@, "config.json"@);
    lemma_inside_root(paths.root, "config"@, "id_ed25519"@);
    lemma_inside_root(paths.root, "config"@, "known_hosts"@);
    lemma_inside_root(paths.root, "logs"@, "vm.log"@);
    lemma_inside_root(paths.root, "logs"@, "vm.error.log"@);
    assert(forall|i: int|
        0 <= i < paths.ssh_key.len() ==> paths.public_key()[i] == paths.ssh_key[i]);
}

/// A path inside the state of a VM, or its runtime, is not kept.
proof fn lemma_state_is_not_kept(home: Seq<char>, name: Seq<char>, file: Seq<char>)
    requires
        home.len() > 0,
        name_allowed(name),
        open_ended(file),
        file[0] != '/',
    ensures
        !kept(PathsView::of(home, name), join(PathsView::of(home, name).state, file)),
        !kept(PathsView::of(home, name), PathsView::of(home, name).runtime),
{
    let paths = PathsView::of(home, name);
    lemma_root(home, name);
    reveal_strlit("state");
    reveal_strlit("runtime");
    lemma_inside_root(paths.root, "state"@, file);
    lemma_join(paths.root, "runtime"@);
    assert(paths.runtime[paths.root.len() as int + 1] == 'r');
    if kept(paths, join(paths.state, file)) {
        lemma_kept(home, name, join(paths.state, file));
    }
    if kept(paths, paths.runtime) {
        lemma_kept(home, name, paths.runtime);
    }
}

/// Nor are the command of a VM and the agent that launchd would load.
proof fn lemma_links_are_not_kept(home: Seq<char>, name: Seq<char>)
    requires
        home.len() > 0,
        name_allowed(name),
    ensures
        !kept(PathsView::of(home, name), PathsView::of(home, name).command_link),
        !kept(PathsView::of(home, name), PathsView::of(home, name).autoload_agent()),
{
    let paths = PathsView::of(home, name);
    names_are_single_steps(name);
    assert(name_char(name[name.len() - 1]));
    reveal_strlit(".local/bin");
    reveal_strlit("Library/LaunchAgents");
    reveal_strlit(".plist");
    reveal_strlit("io.gremvm.tart");
    reveal_strlit("io.gremvm.tart.");
    lemma_below(home, ".local/bin"@, name);
    assert(paths.command_link[after(home) + 0] == '.');
    let agent = paths.service_label + ".plist"@;
    assert(agent.last() == ".plist"@.last());
    assert(agent[0] == 'i');
    lemma_below(home, "Library/LaunchAgents"@, agent);
    assert(paths.autoload_agent()[after(home) + 8] == "Library/LaunchAgents"@[8]);
    if kept(paths, paths.command_link) {
        lemma_kept(home, name, paths.command_link);
    }
    if kept(paths, paths.autoload_agent()) {
        lemma_kept(home, name, paths.autoload_agent());
    }
}

/// Deleting a VM removes neither its settings nor its SSH key nor its logs, and
/// changes no other file than those that it removes.
pub proof fn uninstalling_keeps_what_belongs_to_the_user(
    app: AppView,
    home: Seq<char>,
    name: Seq<char>,
    tape: Tape,
)
    requires
        tape.valid(),
        home.len() > 0,
        name_allowed(name),
        app.paths == PathsView::of(home, name),
    ensures
        app.uninstall(tape).out matches Err(HaltView::Pending { request, .. }) ==> {
            &&& request matches Ask::RemoveFile(path) ==> !kept(app.paths, path)
            &&& changes_files(request) ==> request is RemoveFile || request
                == Ask::CreateDirectory(app.paths.state)
        },
{
    uninstall_bounded(app, tape);
    lemma_links_are_not_kept(home, name);
    reveal_strlit("run");
    reveal_strlit("service.plist");
    reveal_strlit("keychain.plist");
    reveal_strlit("keychain.result");
    lemma_state_is_not_kept(home, name, "run"@);
    lemma_state_is_not_kept(home, name, "service.plist"@);
    lemma_state_is_not_kept(home, name, "keychain.plist"@);
    lemma_state_is_not_kept(home, name, "keychain.result"@);
    if let Err(HaltView::Pending { keep, request }) = app.uninstall(tape).out {
        if look_asks(app, request) {
            lemma_looking_is_calm(app, request);
        }
    }
}

} // verus!
