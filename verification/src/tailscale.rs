//! Tailscale inside the guest.

use crate::app::{App, AppView};
use crate::command::{Command, CommandView, Input, InputView, Sink};
use crate::encoding::utf8_bytes;
use crate::error::{agrees, require, required, Error, Messages};
use crate::facts::Output;
use crate::names::{digest_shaped, is_digest};
use crate::process::{
    check_output, check_output_steps, checked, checked_steps, fed, fed_steps, success,
    success_steps,
};
use crate::session::{
    ask_done, ask_flag, ask_output, done, ensure, ensured, follows, lift, lifted, printed,
    with_context, Ask, Halt, Request, Session, Step, Tape,
};
use crate::text::{
    first_word, first_word_of, ipv4_address, is_ipv4_address, lines, lines_of, same, texts,
};
use vstd::prelude::*;
use vstd::utf8::encode_utf8;

verus! {

/// What the user asks of Tailscale.
#[derive(Clone, Copy, Debug, PartialEq, Eq, Structural)]
pub enum TailscaleAction {
    Setup,
    Status,
}

/// How Tailscale stands in the guest.
#[derive(Debug)]
pub enum TailscaleState {
    NotInstalled,
    Disconnected,
    Connected { ip: String },
}

pub enum TailscaleStateView {
    NotInstalled,
    Disconnected,
    Connected { ip: Seq<char> },
}

impl View for TailscaleState {
    type V = TailscaleStateView;

    open spec fn view(&self) -> TailscaleStateView {
        match self {
            TailscaleState::NotInstalled => TailscaleStateView::NotInstalled,
            TailscaleState::Disconnected => TailscaleStateView::Disconnected,
            TailscaleState::Connected { ip } => TailscaleStateView::Connected { ip: ip@ },
        }
    }
}

// --------------------------------------------------------------------- state
/// What the guest runs to report on Tailscale.
pub const STATE_SCRIPT: &'static str = "if [ ! -x /usr/local/bin/tailscale ]; then printf 'not-installed\\n'; elif /usr/local/bin/tailscale wait --timeout=1s >/dev/null 2>&1 && address=$(/usr/local/bin/tailscale ip -4 2>/dev/null); then printf 'connected\\n%s\\n' \"$address\"; else printf 'disconnected\\n'; fi";

/// The state that a report means: one word, and the address where Tailscale is
/// connected.
pub open spec fn reported_state(report: Seq<char>) -> Result<TailscaleStateView, Messages> {
    let rows = lines(report);
    if rows.len() > 0 && (rows[0] == "not-installed"@ || rows[0] == "disconnected"@) {
        if rows.len() > 1 {
            Err(seq!["Tailscale returned malformed state"@])
        } else if rows[0] == "not-installed"@ {
            Ok(TailscaleStateView::NotInstalled)
        } else {
            Ok(TailscaleStateView::Disconnected)
        }
    } else if rows.len() > 0 && rows[0] == "connected"@ {
        if rows.len() == 1 {
            Err(seq!["Tailscale did not return an IPv4 address"@])
        } else if !ipv4_address(rows[1]) {
            Err(
                seq![
                    "Tailscale returned an invalid IPv4 address"@,
                    "invalid IPv4 address syntax"@,
                ],
            )
        } else if rows.len() > 2 {
            Err(seq!["Tailscale returned malformed state"@])
        } else {
            Ok(TailscaleStateView::Connected { ip: rows[1] })
        }
    } else {
        Err(seq!["Tailscale returned an unknown state"@])
    }
}

pub fn parse_state(report: &str) -> (out: Result<TailscaleState, Error>)
    ensures
        agrees(out, reported_state(report@)),
{
    let rows = lines_of(report);
    assert(texts(rows@).len() == rows@.len());
    if rows.len() == 0 {
        return Err(Error::new("Tailscale returned an unknown state"));
    }
    assert(texts(rows@)[0] == rows@[0]@);
    let word = rows[0].as_str();
    proof {
        reveal_strlit("not-installed");
        reveal_strlit("disconnected");
        reveal_strlit("connected");
        assert("disconnected"@[0] != "connected"@[0]);
        assert("not-installed"@[0] != "connected"@[0]);
        assert("not-installed"@[0] != "disconnected"@[0]);
    }
    if same(word, "not-installed") {
        require(rows.len() == 1, "Tailscale returned malformed state")?;
        return Ok(TailscaleState::NotInstalled);
    }
    if same(word, "disconnected") {
        require(rows.len() == 1, "Tailscale returned malformed state")?;
        return Ok(TailscaleState::Disconnected);
    }
    require(same(word, "connected"), "Tailscale returned an unknown state")?;
    require(rows.len() > 1, "Tailscale did not return an IPv4 address")?;
    assert(texts(rows@)[1] == rows@[1]@);
    if !is_ipv4_address(rows[1].as_str()) {
        let error = Error::new("invalid IPv4 address syntax").context(
            "Tailscale returned an invalid IPv4 address",
        );
        assert(error@ =~= seq![
            "Tailscale returned an invalid IPv4 address"@,
            "invalid IPv4 address syntax"@,
        ]);
        return Err(error);
    }
    require(rows.len() == 2, "Tailscale returned malformed state")?;
    Ok(TailscaleState::Connected { ip: rows[1].clone() })
}

// --------------------------------------------------------------------- setup
/// What root runs in the guest, up to the name of the uploaded file: a copy that
/// only root can change is made first.
pub const STAGE_SCRIPT: &'static str = "/usr/bin/sudo -S -k -p '' /bin/sh -c 'stage=$(/usr/bin/mktemp /private/var/tmp/gremvm-tailscaled.XXXXXX) || exit 1; /bin/cat ";

/// The script from there on, up to the digest that the copy must have.
pub const DIGEST_SCRIPT: &'static str = " > \"$stage\" && /bin/chmod 0700 \"$stage\" && test \"$(/usr/bin/shasum -a 256 \"$stage\" | /usr/bin/cut -d \" \" -f 1)\" = ";

/// The script from there on: only a copy with that digest is executed.
pub const DAEMON_SCRIPT: &'static str = " && \"$stage\" install-system-daemon && /bin/ln -sfn tailscaled /usr/local/bin/tailscale && /bin/launchctl unload /Library/LaunchDaemons/com.tailscale.tailscaled.plist && /usr/bin/plutil -insert KeepAlive -bool true /Library/LaunchDaemons/com.tailscale.tailscaled.plist && /bin/launchctl load /Library/LaunchDaemons/com.tailscale.tailscaled.plist; result=$?; /bin/rm -f \"$stage\"; exit $result'; result=$?; /bin/rm -f ";

/// What the guest runs until Tailscale answers.
pub const READY_SCRIPT: &'static str = "attempt=0; while [ \"$attempt\" -lt 10 ]; do /usr/local/bin/tailscale status --json --peers=false >/dev/null 2>&1 && exit 0; attempt=$((attempt + 1)); /bin/sleep 1; done; exit 1";

/// The script that stores what it reads, for the guest user alone.
pub open spec fn upload_script(upload: Seq<char>) -> Seq<char> {
    "umask 077; /bin/cat > "@ + upload + " && /bin/chmod 0700 "@ + upload
}

/// The script that installs the uploaded file as root, if it has the digest.
pub open spec fn install_script(upload: Seq<char>, digest: Seq<char>) -> Seq<char> {
    STAGE_SCRIPT@ + upload + DIGEST_SCRIPT@ + digest + DAEMON_SCRIPT@ + upload + "; exit $result"@
}

/// The digest that `shasum` wrote first.
pub open spec fn digest_of(report: Seq<char>) -> Result<Seq<char>, Messages> {
    match first_word(report) {
        None => Err(seq!["shasum returned no digest"@]),
        Some(digest) => match required(
            digest_shaped(digest),
            "shasum returned an invalid digest"@,
        ) {
            Ok(()) => Ok(digest),
            Err(messages) => Err(messages),
        },
    }
}

pub fn parse_digest(report: &str) -> (out: Result<String, Error>)
    ensures
        agrees(out, digest_of(report@)),
{
    match first_word_of(report) {
        None => Err(Error::new("shasum returned no digest")),
        Some(digest) => {
            require(is_digest(digest.as_str()), "shasum returned an invalid digest")?;
            Ok(digest)
        },
    }
}

impl AppView {
    #[verifier::opaque]
    pub open spec fn tailscale_state(self, ip: Seq<char>, tape: Tape) -> Step<TailscaleStateView> {
        checked_steps(
            self.ssh_command(ip).arg(STATE_SCRIPT@),
            "inspect Tailscale in the guest"@,
            tape,
        ).and_then(|report: Seq<char>, tape: Tape|
        lifted(reported_state(report), tape))
    }

    pub open spec fn report_tailscale_setup(self, tape: Tape) -> Step<()> {
        printed("next: "@ + self.paths.command_name() + " tailscale setup"@, tape)
    }

    #[verifier::opaque]
    pub open spec fn print_tailscale_status(self, ip: Seq<char>, tape: Tape) -> Step<()> {
        self.tailscale_state(ip, tape).and_then(|state: TailscaleStateView, tape: Tape|
        match state {
            TailscaleStateView::NotInstalled => printed("tailscale: not-installed"@, tape).and_then(|_u: (), tape: Tape|
            self.report_tailscale_setup(tape)),
            TailscaleStateView::Disconnected => printed("tailscale: disconnected"@, tape).and_then(|_u: (), tape: Tape|
            self.report_tailscale_setup(tape)),
            TailscaleStateView::Connected { ip } => printed("tailscale: connected"@, tape).and_then(|_u: (), tape: Tape|
            printed("tailscale-ip: "@ + ip, tape).and_then(|_u: (), tape: Tape|
            printed("ssh: ssh "@ + self.config.guest_user + "@"@ + ip, tape).and_then(|_u: (), tape: Tape|
            printed("screen-sharing: vnc://"@ + ip, tape)))),
        })
    }

    /// Where the guest user gets the Tailscale binary.
    pub open spec fn upload_path(self) -> Seq<char> {
        "/Users/"@ + self.config.guest_user + "/.gremvm-tailscaled"@
    }

    /// Copies the packaged Tailscale binary into the guest.
    #[verifier::opaque]
    pub open spec fn upload_tailscale(self, ip: Seq<char>, tape: Tape) -> Step<()> {
        ask_flag(Ask::IsFile(self.paths.guest_tailscale), tape).and_then(|packaged: bool, tape: Tape|
        ensured(packaged, "the packaged Tailscale binary is missing"@, tape).and_then(|_u: (), tape: Tape|
        ask_done(Ask::OpenInput(self.paths.guest_tailscale), tape).and_then(|_u: (), tape: Tape|
        ask_output(
            Ask::Run(
                self.ssh_command(ip).arg(upload_script(self.upload_path())).input(
                    InputView::Opened,
                ),
            ),
            tape,
        ).context("cannot upload Tailscale to the guest"@).and_then(|output: Output, tape: Tape|
        check_output_steps(output, "upload Tailscale to the guest"@, tape)))))
    }

    /// The digest of the packaged Tailscale binary.
    #[verifier::opaque]
    pub open spec fn tailscale_digest(self, tape: Tape) -> Step<Seq<char>> {
        checked_steps(
            CommandView::new("/usr/bin/shasum"@).option("-a"@, "256"@).arg(
                self.paths.guest_tailscale,
            ),
            "hash the packaged Tailscale binary"@,
            tape,
        ).and_then(|report: Seq<char>, tape: Tape|
        lifted(digest_of(report), tape))
    }

    /// Has root in the guest install the uploaded binary. The password is what
    /// `sudo` reads, and not among the arguments.
    #[verifier::opaque]
    pub open spec fn install_tailscale(
        self,
        ip: Seq<char>,
        digest: Seq<char>,
        password: Seq<char>,
        tape: Tape,
    ) -> Step<()> {
        fed_steps(
            self.ssh_command(ip).arg(install_script(self.upload_path(), digest)).input(
                InputView::Bytes(encode_utf8(password + "\n"@)),
            ),
            "cannot install Tailscale in the guest"@,
            tape,
        ).and_then(|output: Output, tape: Tape|
        check_output_steps(output, "install Tailscale in the guest"@, tape))
    }

    /// The script that connects Tailscale.
    pub open spec fn connect_script(self) -> Seq<char> {
        "/usr/local/bin/tailscale up --accept-dns=false --hostname="@ + self.config.vm_name
            + " --operator="@ + self.config.guest_user
    }

    /// Connects Tailscale in the guest, which may ask the user to authenticate.
    #[verifier::opaque]
    pub open spec fn connect_tailscale(self, ip: Seq<char>, tape: Tape) -> Step<()> {
        printed("authenticate using the URL below if Tailscale asks..."@, tape).and_then(|_u: (), tape: Tape|
        ask_output(
            Ask::Run(
                self.ssh_command(ip).arg(self.connect_script()).input(
                    InputView::Inherited,
                ).streams(Sink::Inherited),
            ),
            tape,
        ).context("cannot connect Tailscale in the guest"@).and_then(|output: Output, tape: Tape|
        ensured(output.succeeded(), "failed to connect Tailscale in the guest"@, tape)))
    }

    #[verifier::opaque]
    pub open spec fn setup_tailscale(self, ip: Seq<char>, tape: Tape) -> Step<()> {
        self.upload_tailscale(ip, tape).and_then(|_u: (), tape: Tape|
        self.tailscale_digest(tape).and_then(|digest: Seq<char>, tape: Tape|
        self.guest_password(tape).and_then(|password: Seq<char>, tape: Tape|
        self.install_tailscale(ip, digest, password, tape).and_then(|_u: (), tape: Tape|
        success_steps(
            self.ssh_command(ip).arg(READY_SCRIPT@),
            "wait for Tailscale in the guest"@,
            tape,
        ).and_then(|_u: (), tape: Tape|
        self.connect_tailscale(ip, tape))))))
    }

    #[verifier::opaque]
    pub open spec fn tailscale(self, action: TailscaleAction, tape: Tape) -> Step<()> {
        self.ensure_running(tape).and_then(|_u: (), tape: Tape|
        self.wait_for_ssh(120, tape).and_then(|ip: Seq<char>, tape: Tape|
        (match action {
            TailscaleAction::Setup => self.setup_tailscale(ip, tape),
            TailscaleAction::Status => done((), tape),
        }).and_then(|_u: (), tape: Tape|
        self.print_tailscale_status(ip, tape))))
    }
}

impl<'a> App<'a> {
    pub fn tailscale_state(&self, session: &mut Session, ip: &str) -> (out: Result<
        TailscaleState,
        Halt,
    >)
        ensures
            follows(out, *final(session), self@.tailscale_state(ip@, old(session)@)),
    {
        proof {
            reveal(AppView::tailscale_state);
        }
        let report = checked(
            session,
            self.ssh_command(ip).arg(STATE_SCRIPT),
            "inspect Tailscale in the guest",
        )?;
        lift(parse_state(report.as_str()))
    }

    fn report_tailscale_setup(&self, session: &mut Session) -> (out: Result<(), Halt>)
        ensures
            follows(out, *final(session), self@.report_tailscale_setup(old(session)@)),
    {
        session.print(
            "next: ".to_owned().concat(self.paths.command_name()).concat(
                " tailscale setup",
            ).as_str(),
        )
    }

    pub fn print_tailscale_status(&self, session: &mut Session, ip: &str) -> (out: Result<(), Halt>)
        ensures
            follows(out, *final(session), self@.print_tailscale_status(ip@, old(session)@)),
    {
        proof {
            reveal(AppView::print_tailscale_status);
        }
        match self.tailscale_state(session, ip)? {
            TailscaleState::NotInstalled => {
                session.print("tailscale: not-installed")?;
                self.report_tailscale_setup(session)
            },
            TailscaleState::Disconnected => {
                session.print("tailscale: disconnected")?;
                self.report_tailscale_setup(session)
            },
            TailscaleState::Connected { ip } => {
                session.print("tailscale: connected")?;
                session.print("tailscale-ip: ".to_owned().concat(ip.as_str()).as_str())?;
                session.print(
                    "ssh: ssh ".to_owned().concat(self.config.guest_user.as_str()).concat(
                        "@",
                    ).concat(ip.as_str()).as_str(),
                )?;
                session.print("screen-sharing: vnc://".to_owned().concat(ip.as_str()).as_str())
            },
        }
    }

    fn upload_path(&self) -> (path: String)
        ensures
            path@ == self@.upload_path(),
    {
        "/Users/".to_owned().concat(self.config.guest_user.as_str()).concat("/.gremvm-tailscaled")
    }

    fn upload_tailscale(&self, session: &mut Session, ip: &str) -> (out: Result<(), Halt>)
        ensures
            follows(out, *final(session), self@.upload_tailscale(ip@, old(session)@)),
    {
        proof {
            reveal(AppView::upload_tailscale);
        }
        let packaged = session.flag(Request::IsFile(self.paths.guest_tailscale.clone()))?;
        ensure(packaged, "the packaged Tailscale binary is missing")?;
        session.done(Request::OpenInput(self.paths.guest_tailscale.clone()))?;
        let upload = self.upload_path();
        let script = "umask 077; /bin/cat > ".to_owned().concat(upload.as_str()).concat(
            " && /bin/chmod 0700 ",
        ).concat(upload.as_str());
        let output = with_context(
            session.output(
                Request::Run(self.ssh_command(ip).arg(script.as_str()).input(Input::Opened)),
            ),
            "cannot upload Tailscale to the guest",
        )?;
        check_output(output, "upload Tailscale to the guest")
    }

    fn tailscale_digest(&self, session: &mut Session) -> (out: Result<String, Halt>)
        ensures
            follows(out, *final(session), self@.tailscale_digest(old(session)@)),
    {
        proof {
            reveal(AppView::tailscale_digest);
        }
        let report = checked(
            session,
            Command::new("/usr/bin/shasum").option("-a", "256").arg(
                self.paths.guest_tailscale.as_str(),
            ),
            "hash the packaged Tailscale binary",
        )?;
        lift(parse_digest(report.as_str()))
    }

    fn install_tailscale(&self, session: &mut Session, ip: &str, digest: &str, password: &str) -> (
    out: Result<(), Halt>)
        ensures
            follows(
                out,
                *final(session),
                self@.install_tailscale(ip@, digest@, password@, old(session)@),
            ),
    {
        proof {
            reveal(AppView::install_tailscale);
        }
        let upload = self.upload_path();
        let script = STAGE_SCRIPT.to_owned().concat(upload.as_str()).concat(DIGEST_SCRIPT).concat(
            digest,
        ).concat(DAEMON_SCRIPT).concat(upload.as_str()).concat("; exit $result");
        let line = password.to_owned().concat("\n");
        let output = fed(
            session,
            self.ssh_command(ip).arg(script.as_str()).input(
                Input::Bytes(utf8_bytes(line.as_str())),
            ),
            "cannot install Tailscale in the guest",
        )?;
        check_output(output, "install Tailscale in the guest")
    }

    fn connect_tailscale(&self, session: &mut Session, ip: &str) -> (out: Result<(), Halt>)
        ensures
            follows(out, *final(session), self@.connect_tailscale(ip@, old(session)@)),
    {
        proof {
            reveal(AppView::connect_tailscale);
        }
        session.print("authenticate using the URL below if Tailscale asks...")?;
        let script = "/usr/local/bin/tailscale up --accept-dns=false --hostname=".to_owned().concat(
            self.config.vm_name.as_str(),
        ).concat(" --operator=").concat(self.config.guest_user.as_str());
        let output = with_context(
            session.output(
                Request::Run(
                    self.ssh_command(ip).arg(script.as_str()).input(Input::Inherited).streams(
                        Sink::Inherited,
                    ),
                ),
            ),
            "cannot connect Tailscale in the guest",
        )?;
        ensure(output.success(), "failed to connect Tailscale in the guest")
    }

    pub fn setup_tailscale(&self, session: &mut Session, ip: &str) -> (out: Result<(), Halt>)
        ensures
            follows(out, *final(session), self@.setup_tailscale(ip@, old(session)@)),
    {
        proof {
            reveal(AppView::setup_tailscale);
        }
        self.upload_tailscale(session, ip)?;
        let digest = self.tailscale_digest(session)?;
        let password = self.guest_password(session)?;
        self.install_tailscale(session, ip, digest.as_str(), password.as_str())?;
        success(
            session,
            self.ssh_command(ip).arg(READY_SCRIPT),
            "wait for Tailscale in the guest",
        )?;
        self.connect_tailscale(session, ip)
    }

    pub fn tailscale(&self, session: &mut Session, action: TailscaleAction) -> (out: Result<
        (),
        Halt,
    >)
        ensures
            follows(out, *final(session), self@.tailscale(action, old(session)@)),
    {
        proof {
            reveal(AppView::tailscale);
        }
        self.ensure_running(session)?;
        let ip = self.wait_for_ssh(session, 120)?;
        match action {
            TailscaleAction::Setup => {
                self.setup_tailscale(session, ip.as_str())?;
            },
            TailscaleAction::Status => {},
        }
        self.print_tailscale_status(session, ip.as_str())
    }
}

} // verus!
