//! What is said where the host could not do what it was asked.

use crate::app::AppView;
use crate::command::CommandView;
use crate::config::{volume_reference, VolumeStorageView};
use crate::encoding::{lossy_text, utf8_error};
use crate::error::Messages;
use crate::facts::VmState;
use crate::files::{canonical_directory_steps, private_dir_steps};
use crate::host::HostView;
use crate::keychain::StoredView;
use crate::machine::{sysctl_command, sysctl_steps};
use crate::names::{digest_shaped, uuid_shaped, volume_name_allowed};
use crate::password::{prompt_password_steps, random_bytes_steps};
use crate::path::{absolute, inside, join, same_place};
use crate::process::{checked_steps, fed_steps, success_steps};
use crate::remote::{ensure_console_session_steps, ensure_graphical_session_steps};
use crate::service::service_loaded_steps;
use crate::session::{Ask, HaltView, Reply, Step, Tape};
use crate::tailscale::{digest_of, reported_state, TailscaleStateView};
use crate::text::{first_word, ipv4_address, lines, number, number_fault, trimmed};
use crate::unlock::{ask_and_unlock_steps, keychain_unlocked_steps, KeychainMode};
use crate::volume::{
    crypto_users_steps, ensure_directory_steps, run_volume_password_steps, volume_info_steps,
    volume_password_command_steps, StorageAccess, VolumeKind,
};
use vstd::prelude::*;
use vstd::utf8::valid_utf8;

verus! {

/// A procedure ended with an error and the host's reason for it.
pub open spec fn explains<T>(step: Step<T>, message: Seq<char>, reason: Seq<char>) -> bool {
    step.out == Err::<T, HaltView>(HaltView::Failed(seq![message] + seq![reason]))
}

/// A program that did not start is an error with the host's reason for it.
pub open spec fn unstarted<T>(step: Step<T>, reply: Option<Reply>, message: Seq<char>) -> bool {
    reply matches Some(Reply::Failed(reason)) ==> explains(step, message, reason@)
}

/// A program that failed is an error with what the program said.
pub open spec fn unsuccessful<T>(
    step: Step<T>,
    reply: Option<Reply>,
    description: Seq<char>,
) -> bool {
    reply matches Some(Reply::Output(output)) ==> output.code != Some(0i32) ==> step.refuses(
        "failed to "@ + description + ": "@ + trimmed(lossy_text(output.stderr@)),
    )
}

/// A program that wrote what is not UTF-8 is an error too, where its text is needed.
pub proof fn programs_must_write_text(command: CommandView, description: Seq<char>, tape: Tape)
    ensures
        tape.ahead(0) matches Some(Reply::Output(output)) ==> output.code == Some(0i32)
            && !valid_utf8(output.stdout@) ==> checked_steps(command, description, tape).refuses(
            utf8_error(output.stdout@),
        ),
        unstarted(checked_steps(command, description, tape), tape.ahead(0), "cannot "@ + description),
        unstarted(success_steps(command, description, tape), tape.ahead(0), "cannot "@ + description),
        unstarted(fed_steps(command, description, tape), tape.ahead(0), description),
        tape.ahead(0) matches Some(Reply::Unfed(reason)) ==> fed_steps(
            command,
            description,
            tape,
        ).refuses(reason@),
        tape.ahead(0) matches Some(Reply::Unawaited(reason)) ==> fed_steps(
            command,
            description,
            tape,
        ).refuses(reason@),
{
}

/// What is said of a recorded volume that is not accepted: the first rule that it breaks.
pub proof fn refused_volumes_say_why(volume: VolumeStorageView)
    requires
        absolute(volume.path),
    ensures
        ({
            let out = volume_reference(volume);
            let placed = absolute(volume.mount_point) && !same_place(volume.mount_point, "/"@);
            let named = volume_name_allowed(volume.name);
            let known = uuid_shaped(volume.uuid);
            let on_it = same_place(volume.path, volume.mount_point) || inside(
                volume.path,
                volume.mount_point,
            );
            &&& !placed ==> out == Err::<(), Messages>(seq!["invalid VM storage mount point"@])
            &&& placed && !named ==> out == Err::<(), Messages>(
                seq!["invalid VM storage volume name"@],
            )
            &&& placed && named && !known ==> out == Err::<(), Messages>(
                seq!["invalid VM storage volume UUID"@],
            )
            &&& placed && named && known && !on_it ==> out == Err::<(), Messages>(
                seq!["VM storage directory is outside its recorded volume: "@ + volume.path],
            )
        }),
{
}

/// What is said of a report on Tailscale that cannot be read.
pub proof fn refused_reports_say_why(report: Seq<char>)
    ensures
        ({
            let rows = lines(report);
            let out = reported_state(report);
            let malformed = Err::<TailscaleStateView, Messages>(
                seq!["Tailscale returned malformed state"@],
            );
            &&& rows.len() > 1 && (rows[0] == "not-installed"@ || rows[0] == "disconnected"@)
                ==> out == malformed
            &&& rows.len() > 2 && rows[0] == "connected"@ && ipv4_address(rows[1]) ==> out
                == malformed
            &&& rows.len() == 1 && rows[0] == "connected"@ ==> out == Err::<
                TailscaleStateView,
                Messages,
            >(seq!["Tailscale did not return an IPv4 address"@])
            &&& rows.len() > 1 && rows[0] == "connected"@ && !ipv4_address(rows[1])
                ==> out == Err::<
                TailscaleStateView,
                Messages,
            >(
                seq![
                    "Tailscale returned an invalid IPv4 address"@,
                    "invalid IPv4 address syntax"@,
                ],
            )
            &&& rows.len() == 0 || (rows[0] != "not-installed"@ && rows[0] != "disconnected"@
                && rows[0] != "connected"@) ==> out == Err::<TailscaleStateView, Messages>(
                seq!["Tailscale returned an unknown state"@],
            )
        }),
{
    reveal_strlit("not-installed");
    reveal_strlit("disconnected");
    reveal_strlit("connected");
    assert("not-installed"@.len() == 13);
    assert("disconnected"@.len() == 12);
    assert("connected"@.len() == 9);
}

/// What is said of a digest that is none.
pub proof fn refused_digests_say_why(report: Seq<char>)
    ensures
        first_word(report) is None ==> digest_of(report) == Err::<Seq<char>, Messages>(
            seq!["shasum returned no digest"@],
        ),
        first_word(report) matches Some(word) ==> !digest_shaped(word) ==> digest_of(report) == Err::<
            Seq<char>,
            Messages,
        >(seq!["shasum returned an invalid digest"@]),
{
}

/// A directory for VMs is refused where it is not there, or cannot be written to.
pub proof fn refused_directories_say_why(path: Seq<char>, tape: Tape)
    requires
        absolute(path),
    ensures
        tape.ahead(0) == Some(Reply::Flag(false)) ==> canonical_directory_steps(path, tape).refuses(
            "storage directory does not exist: "@ + path,
        ),
        tape.ahead(0) == Some(Reply::Flag(true)) ==> (tape.ahead(1) matches Some(
            Reply::Text(place),
        ) ==> unstarted(
            canonical_directory_steps(path, tape),
            tape.ahead(2),
            "storage directory is not writable: "@ + place@,
        )),
{
}

/// A number of the kernel that is none is told with what is wrong with it.
pub proof fn refused_numbers_say_why(name: Seq<char>, tape: Tape)
    ensures
        ({
            let told = checked_steps(sysctl_command(name), "run sysctl"@, tape);
            told.out matches Ok(text) ==> match number(text) {
                Some(value) => sysctl_steps(name, tape).out == Ok::<u64, HaltView>(value),
                None => sysctl_steps(name, tape).out == Err::<u64, HaltView>(
                    HaltView::Failed(seq!["sysctl returned a non-number"@, number_fault(text)]),
                ),
            }
        }),
{
}

/// What is said where the Keychain cannot be read, written, looked at or unlocked.
pub proof fn failures_of_the_keychain(
    app: AppView,
    account: Seq<char>,
    service: Seq<char>,
    password: Seq<u8>,
    tape: Tape,
)
    ensures
        unstarted(
            app.keychain_password(account, service, tape),
            tape.ahead(0),
            "cannot read a password from Keychain"@,
        ),
        unstarted(
            app.store_keychain_password(account, service, password, tape),
            tape.ahead(0),
            "cannot store a password in Keychain"@,
        ),
        unsuccessful(
            app.store_keychain_password(account, service, password, tape),
            tape.ahead(0),
            "store a password in Keychain"@,
        ),
        unstarted(
            keychain_unlocked_steps(app.paths, tape),
            tape.ahead(0),
            "cannot inspect the host login Keychain"@,
        ),
        unstarted(
            ask_and_unlock_steps(app.paths, tape),
            tape.ahead(0),
            "cannot unlock the host login Keychain"@,
        ),
{
}

/// A password that cannot be typed, or is not text, is no password.
pub proof fn failures_of_passwords(app: AppView, prompt: Seq<char>, count: usize, tape: Tape)
    ensures
        unstarted(prompt_password_steps(prompt, tape), tape.ahead(0), "cannot read hidden password"@),
        ({
            let ready = app.ensure_keychain(KeychainMode::Current, tape);
            let stored = app.keychain_password(
                app.config.guest_user,
                app.paths.password_service,
                ready.tape,
            );
            ready.out is Ok ==> (stored.out matches Ok(StoredView::Password(bytes)) ==> !valid_utf8(
                bytes,
            ) ==> explains(
                app.guest_password(tape),
                "the stored guest password is not UTF-8"@,
                utf8_error(bytes),
            ))
        }),
        tape.ahead(0) is None ==> random_bytes_steps(count, tape).waits_for(
            Ask::RandomBytes(count),
        ),
        tape.ahead(0) matches Some(Reply::Bytes(bytes)) ==> (bytes@.len() == count
            ==> random_bytes_steps(count, tape).out == Ok::<Seq<u8>, HaltView>(bytes@)),
        random_bytes_steps(count, tape).out matches Ok(bytes) ==> bytes.len() == count && (
        tape.ahead(0) matches Some(Reply::Bytes(given)) && given@ == bytes),
{
    reveal(AppView::guest_password);
}

/// What is said where the session at the console cannot be looked at.
pub proof fn failures_of_the_console_session(host: HostView, name: Seq<char>, tape: Tape)
    ensures
        ({
            let step = ensure_console_session_steps(host, name, tape);
            let graphical = ensure_graphical_session_steps(name, "console"@, tape);
            let after = graphical.tape;
            graphical.out is Ok ==> {
                &&& unstarted(step, after.ahead(0), "cannot inspect the graphical host session"@)
                &&& unsuccessful(step, after.ahead(0), "inspect the graphical host session"@)
                &&& after.ahead(0) matches Some(Reply::Output(output))
                    ==> (output.code == Some(0i32)
                    ==> unstarted(
                    step,
                    after.ahead(1),
                    "ioreg returned malformed graphical session information"@,
                ))
            }
        }),
{
}

/// What is said where launchd cannot be asked.
pub proof fn failures_of_launchd(target: Seq<char>, tape: Tape)
    ensures
        unstarted(
            service_loaded_steps(target, tape),
            tape.ahead(0),
            "cannot inspect the launchd service"@,
        ),
        tape.ahead(0) matches Some(Reply::Output(output)) ==> (output.code != Some(0i32)
            && output.code != Some(113i32) ==> service_loaded_steps(target, tape).refuses(
            "cannot inspect launchd service "@ + target + ": "@ + trimmed(
                lossy_text(output.stderr@),
            ),
        )),
{
}

/// What is said where Tailscale cannot be brought to the guest, installed or connected.
pub proof fn failures_of_tailscale(
    app: AppView,
    ip: Seq<char>,
    digest: Seq<char>,
    password: Seq<char>,
    tape: Tape,
)
    ensures
        ({
            let step = app.upload_tailscale(ip, tape);
            tape.ahead(0) == Some(Reply::Flag(true)) && tape.ahead(1) == Some(Reply::Done) ==> {
                &&& unstarted(step, tape.ahead(2), "cannot upload Tailscale to the guest"@)
                &&& unsuccessful(step, tape.ahead(2), "upload Tailscale to the guest"@)
            }
        }),
        unstarted(
            app.install_tailscale(ip, digest, password, tape),
            tape.ahead(0),
            "cannot install Tailscale in the guest"@,
        ),
        unsuccessful(
            app.install_tailscale(ip, digest, password, tape),
            tape.ahead(0),
            "install Tailscale in the guest"@,
        ),
        tape.ahead(0) == Some(Reply::Done) ==> unstarted(
            app.connect_tailscale(ip, tape),
            tape.ahead(1),
            "cannot connect Tailscale in the guest"@,
        ),
{
    reveal(AppView::upload_tailscale);
    reveal(AppView::install_tailscale);
    reveal(AppView::connect_tailscale);
}

/// What is said where Tart, asked to stop a VM or to describe it, fails.
pub proof fn failures_of_tart(app: AppView, tape: Tape)
    ensures
        ({
            let seen = app.vm_info(tape);
            let tart = app.tart(seen.tape);
            seen.out is Ok && seen.out->Ok_0.state != VmState::Stopped && tart.out is Ok ==> (
            tart.tape.ahead(0) matches Some(Reply::Output(output)) ==> output.code != Some(0i32)
                ==> app.request_stop(tape).out == Ok::<Result<(), Messages>, HaltView>(
                Err(
                    seq![
                        "failed to stop the VM: "@ + trimmed(lossy_text(output.stderr@)),
                    ],
                ),
            ))
        }),
        ({
            let tart = app.tart(tape);
            let told = checked_steps(app.get_command(tart.out->Ok_0), "run Tart"@, tart.tape);
            tart.out is Ok && told.out is Ok ==> unstarted(
                app.vm_info(tape),
                told.tape.ahead(0),
                "Tart returned malformed VM information"@,
            )
        }),
{
    reveal(AppView::vm_info);
    reveal(AppView::request_stop);
    reveal_strlit("failed to ");
    reveal_strlit("stop the VM");
    reveal_strlit(": ");
    reveal_strlit("failed to stop the VM: ");
    assert("failed to "@ + "stop the VM"@ + ": "@ =~= "failed to stop the VM: "@);
}

/// What is said where `diskutil` cannot describe a volume, list its users or unlock it.
pub proof fn failures_of_diskutil(
    uuid: Seq<char>,
    password: Seq<u8>,
    command: CommandView,
    tape: Tape,
)
    ensures
        ({
            let step = volume_info_steps(uuid, tape);
            &&& unstarted(step, tape.ahead(0), "cannot inspect the VM storage volume"@)
            &&& unsuccessful(step, tape.ahead(0), "inspect the VM storage volume"@)
            &&& tape.ahead(0) matches Some(Reply::Output(output)) ==> (output.code == Some(0i32)
                ==> unstarted(
                step,
                tape.ahead(1),
                "diskutil returned malformed volume information"@,
            ))
        }),
        ({
            let step = crypto_users_steps(uuid, tape);
            &&& unstarted(step, tape.ahead(0), "cannot list the users of the VM storage volume"@)
            &&& unsuccessful(step, tape.ahead(0), "list the users of the VM storage volume"@)
            &&& tape.ahead(0) matches Some(Reply::Output(output)) ==> (output.code == Some(0i32)
                ==> unstarted(
                step,
                tape.ahead(1),
                "diskutil returned malformed user information"@,
            ))
        }),
        ({
            let step = volume_password_command_steps(password, command, tape);
            &&& unstarted(step, tape.ahead(0), "cannot run diskutil"@)
            &&& tape.ahead(0) matches Some(Reply::Unawaited(reason)) ==> explains(
                step,
                "cannot wait for diskutil"@,
                reason@,
            )
            &&& tape.ahead(0) matches Some(Reply::Unfed(reason)) ==> step.refuses(reason@)
        }),
        tape.ahead(0) matches Some(Reply::Output(output)) ==> (output.code != Some(0i32) ==> explains(
            run_volume_password_steps(uuid, password, tape),
            "encrypted volume "@ + uuid,
            "failed to "@ + "unlock the VM storage volume"@ + ": "@ + trimmed(
                lossy_text(output.stderr@),
            ),
        )),
{
}

/// A directory that is not there although its volume is mounted is an error of its own.
pub proof fn failures_of_a_mounted_volume(
    app: AppView,
    storage: VolumeStorageView,
    kind: VolumeKind,
    access: StorageAccess,
    tape: Tape,
)
    ensures
        ({
            let opened = app.unlocked_volume(storage, kind, access, tape);
            let found = ensure_directory_steps(storage.path, opened.tape);
            volume_reference(storage) is Ok ==> (opened.out matches Ok(volume) ==> {
                let there = volume.mount_point matches Some(point) && point@.len() > 0
                    && same_place(point@, storage.mount_point);
                volume.volume_name@ == storage.name && volume.volume_uuid@ == storage.uuid && there
                    && volume.writable_volume ==> (found.out matches Err(HaltView::Failed(messages))
                    ==> app.ensure_volume(storage, kind, access, tape).out == Err::<(), HaltView>(
                    HaltView::Failed(
                        seq!["VM storage directory is unavailable after mounting its volume"@]
                            + messages,
                    ),
                ))
            })
        }),
{
    reveal(AppView::ensure_volume);
}

/// What is said where Packer does not start.
pub proof fn failures_of_packer(app: AppView, key: Seq<char>, password: Seq<char>, tape: Tape)
    ensures
        ({
            let made = private_dir_steps(join(app.paths.state, "packer"@), tape);
            let ready = app.configure_tart_storage(
                CommandView::new(join(join(app.paths.runtime, "bin"@), "packer"@)),
                made.tape.later(1),
            );
            made.out is Ok && made.tape.ahead(0) == Some(Reply::Flag(true)) && ready.out is Ok
                && !join(app.paths.runtime, "bin"@).contains(':') ==> unstarted(
                app.packer(key, password, tape),
                ready.tape.ahead(0),
                "cannot run Packer"@,
            )
        }),
{
    reveal(AppView::packer);
}

/// What is said where the logs cannot be shown.
pub proof fn failures_of_the_logs(app: AppView, follow: bool, tape: Tape)
    ensures
        tape.ahead(0) matches Some(Reply::Failed(reason)) ==> app.logs(follow, tape).refuses(
            "cannot execute "@ + "tail"@ + ": "@ + reason@,
        ),
{
    reveal(AppView::logs);
}

} // verus!
