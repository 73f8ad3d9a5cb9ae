//! Passwords that are asked for, generated or looked up.

use crate::app::{App, AppView};
use crate::encoding::{hex_of, hex_text, utf8_bytes};
use crate::error::Error;
use crate::keychain::{Stored, StoredView};
use crate::names::{
    guest_password_allowed, has_control, has_control_character, validate_guest_password,
    PASSWORD_RULE,
};
use crate::process::{text_from, utf8_text};
use crate::session::{
    ask_text, asked, done, ensure, ensured, follows, lift, lifted, no_answer, no_answer_to, refusal,
    refused, with_context, Ask, Halt, HaltView, Reply, Request, Session, Step, Tape,
};
use crate::text::same;
use crate::unlock::KeychainMode;
use vstd::prelude::*;
use vstd::utf8::encode_utf8;

verus! {

/// Asks for a password. It is not empty and has no control characters.
pub open spec fn prompt_password_steps(prompt: Seq<char>, tape: Tape) -> Step<Seq<char>> {
    ask_text(Ask::PromptPassword(prompt), tape).context("cannot read hidden password"@).and_then(|password: Seq<char>, tape: Tape|
    ensured(password.len() > 0, "password must not be empty"@, tape).and_then(|_u: (), tape: Tape|
    ensured(
        !has_control(password),
        "password must not contain control characters"@,
        tape,
    ).and_then(|_u: (), tape: Tape|
    done(password, tape))))
}

pub fn prompt_password(session: &mut Session, prompt: &str) -> (out: Result<String, Halt>)
    ensures
        follows(out, *final(session), prompt_password_steps(prompt@, old(session)@)),
{
    let password = with_context(
        session.text(Request::PromptPassword(prompt.to_owned())),
        "cannot read hidden password",
    )?;
    ensure(!password.as_str().is_empty(), "password must not be empty")?;
    ensure(
        !has_control_character(password.as_str()),
        "password must not contain control characters",
    )?;
    Ok(password)
}

/// Goes on only with a guest password of an allowed length.
pub open spec fn guest_password_checked(password: Seq<char>, tape: Tape) -> Step<()> {
    ensured(guest_password_allowed(password), PASSWORD_RULE@, tape)
}

fn check_guest_password(password: &str) -> (out: Result<(), Halt>)
    ensures
        match out {
            Ok(()) => guest_password_allowed(password@),
            Err(halt) => !guest_password_allowed(password@) && halt@ == HaltView::Failed(
                seq![PASSWORD_RULE@],
            ),
        },
{
    match validate_guest_password(password) {
        Ok(()) => Ok(()),
        Err(message) => Err(refusal(message.as_str())),
    }
}

/// Asks for the guest password, twice.
pub open spec fn prompt_guest_password_steps(tape: Tape) -> Step<Seq<char>> {
    prompt_password_steps("guest password: "@, tape).and_then(|password: Seq<char>, tape: Tape|
    guest_password_checked(password, tape).and_then(|_u: (), tape: Tape|
    prompt_password_steps("confirm guest password: "@, tape).and_then(|again: Seq<char>, tape: Tape|
    ensured(password == again, "guest passwords do not match"@, tape).and_then(|_u: (), tape: Tape|
    done(password, tape)))))
}

pub fn prompt_guest_password(session: &mut Session) -> (out: Result<String, Halt>)
    ensures
        follows(out, *final(session), prompt_guest_password_steps(old(session)@)),
{
    let password = prompt_password(session, "guest password: ")?;
    check_guest_password(password.as_str())?;
    let again = prompt_password(session, "confirm guest password: ")?;
    ensure(same(password.as_str(), again.as_str()), "guest passwords do not match")?;
    Ok(password)
}

/// The random bytes of a generated guest password.
pub const SECRET_BYTES: usize = 24;

/// Random bytes from the host: as many as were asked for.
pub open spec fn random_bytes_steps(count: usize, tape: Tape) -> Step<Seq<u8>> {
    asked(Ask::RandomBytes(count), tape).and_then(|reply: Reply, tape: Tape|
    if reply matches Reply::Bytes(bytes) && bytes@.len() == count {
        done(reply->Bytes_0@, tape)
    } else {
        no_answer(reply, tape)
    })
}

fn drawn_bytes<'s>(session: &mut Session<'s>, count: usize) -> (out: Result<&'s Vec<u8>, Halt>)
    ensures
        follows(out, *final(session), random_bytes_steps(count, old(session)@)),
{
    let reply = session.ask(Request::RandomBytes(count))?;
    match reply {
        Reply::Bytes(bytes) => if bytes.len() == count {
            Ok(bytes)
        } else {
            Err(no_answer_to(reply))
        },
        _ => Err(no_answer_to(reply)),
    }
}

/// Whether credentials of a VM may be created.
#[derive(Clone, Copy, Debug, PartialEq, Eq, Structural)]
pub enum CredentialPolicy {
    /// The VM has its credentials; they are not replaced.
    Existing,
    CreateIfMissing,
}

/// Where a new guest password comes from.
#[derive(Clone, Copy, Debug, PartialEq, Eq, Structural)]
pub enum PasswordChoice {
    Generate,
    Prompt,
}

impl View for PasswordChoice {
    type V = PasswordChoice;

    open spec fn view(&self) -> PasswordChoice {
        *self
    }
}

impl AppView {
    /// The guest password that the Keychain holds.
    #[verifier::opaque]
    pub open spec fn guest_password(self, tape: Tape) -> Step<Seq<char>> {
        self.ensure_keychain(KeychainMode::Current, tape).and_then(|_u: (), tape: Tape|
        self.keychain_password(self.config.guest_user, self.paths.password_service, tape).and_then(|stored: StoredView, tape: Tape|
        match stored {
            StoredView::Absent => refused("the guest password is missing from Keychain"@, tape),
            StoredView::Password(bytes) => lifted(utf8_text(bytes), tape).context(
                "the stored guest password is not UTF-8"@,
            ).and_then(|password: Seq<char>, tape: Tape|
            guest_password_checked(password, tape).and_then(|_u: (), tape: Tape|
            done(password, tape))),
        }))
    }

    /// Creates and stores a guest password: one that the user gives, or random
    /// bytes in hexadecimal.
    #[verifier::opaque]
    pub open spec fn create_guest_password(self, choice: PasswordChoice, tape: Tape) -> Step<()> {
        (match choice {
            PasswordChoice::Prompt => prompt_guest_password_steps(tape),
            PasswordChoice::Generate => random_bytes_steps(SECRET_BYTES, tape).and_then(|bytes: Seq<u8>, tape: Tape|
            done(hex_text(bytes), tape)),
        }).and_then(|password: Seq<char>, tape: Tape|
        self.store_keychain_password(
            self.config.guest_user,
            self.paths.password_service,
            encode_utf8(password),
            tape,
        ))
    }

    /// Makes sure that the Keychain holds a usable guest password. One that is
    /// there is kept; one that is missing is created for a new VM alone.
    #[verifier::opaque]
    pub open spec fn prepare_guest_password(
        self,
        policy: CredentialPolicy,
        choice: PasswordChoice,
        tape: Tape,
    ) -> Step<()> {
        self.ensure_keychain(KeychainMode::Current, tape).and_then(|_u: (), tape: Tape|
        self.keychain_password(self.config.guest_user, self.paths.password_service, tape).and_then(|stored: StoredView, tape: Tape|
        match (stored, policy) {
            (StoredView::Password(_), _) => self.guest_password(tape).and_then(|_password: Seq<char>, tape: Tape|
            done((), tape)),
            (StoredView::Absent, CredentialPolicy::Existing) => refused(
                "the guest password is missing from Keychain and cannot be regenerated for an existing VM"@,
                tape,
            ),
            (StoredView::Absent, CredentialPolicy::CreateIfMissing) => self.create_guest_password(
                choice,
                tape,
            ),
        }))
    }
}

impl<'a> App<'a> {
    pub fn guest_password(&self, session: &mut Session) -> (out: Result<String, Halt>)
        ensures
            follows(out, *final(session), self@.guest_password(old(session)@)),
    {
        proof {
            reveal(AppView::guest_password);
        }
        self.ensure_keychain(session, KeychainMode::Current)?;
        match self.keychain_password(
            session,
            self.config.guest_user.as_str(),
            self.paths.password_service.as_str(),
        )? {
            Stored::Absent => Err(refusal("the guest password is missing from Keychain")),
            Stored::Password(bytes) => {
                let password = with_context(
                    lift(text_from(&bytes)),
                    "the stored guest password is not UTF-8",
                )?;
                check_guest_password(password.as_str())?;
                Ok(password)
            },
        }
    }

    fn create_guest_password(&self, session: &mut Session, choice: PasswordChoice) -> (out: Result<
        (),
        Halt,
    >)
        ensures
            follows(out, *final(session), self@.create_guest_password(choice, old(session)@)),
    {
        proof {
            reveal(AppView::create_guest_password);
        }
        let password = match choice {
            PasswordChoice::Prompt => prompt_guest_password(session)?,
            PasswordChoice::Generate => password_of(drawn_bytes(session, SECRET_BYTES)?),
        };
        self.store_keychain_password(
            session,
            self.config.guest_user.as_str(),
            self.paths.password_service.as_str(),
            &utf8_bytes(password.as_str()),
        )
    }

    pub fn prepare_guest_password(
        &self,
        session: &mut Session,
        policy: CredentialPolicy,
        choice: PasswordChoice,
    ) -> (out: Result<(), Halt>)
        ensures
            follows(
                out,
                *final(session),
                self@.prepare_guest_password(policy, choice, old(session)@),
            ),
    {
        proof {
            reveal(AppView::prepare_guest_password);
        }
        self.ensure_keychain(session, KeychainMode::Current)?;
        match self.keychain_password(
            session,
            self.config.guest_user.as_str(),
            self.paths.password_service.as_str(),
        )? {
            Stored::Password(_) => {
                self.guest_password(session)?;
                Ok(())
            },
            Stored::Absent => match policy {
                CredentialPolicy::Existing => Err(
                    refusal(
                        "the guest password is missing from Keychain and cannot be regenerated for an existing VM",
                    ),
                ),
                CredentialPolicy::CreateIfMissing => self.create_guest_password(session, choice),
            },
        }
    }
}

// ---------------------------------------------------------------- generation
/// `getrandom::fill`: fills the bytes from the system's random number source, or
/// fails with what its error prints. Nothing is claimed of the bytes but that
/// their number stays the same, and nothing of the message: both are up to the
/// system.
#[verifier::external_body]
fn fill_random(bytes: &mut Vec<u8>) -> (out: Result<(), String>)
    ensures
        final(bytes)@.len() == old(bytes)@.len(),
{
    match getrandom::fill(bytes) {
        Ok(()) => Ok(()),
        Err(error) => Err(error.to_string()),
    }
}

/// The password that random bytes make.
pub fn password_of(bytes: &Vec<u8>) -> (password: String)
    ensures
        password@ == hex_text(bytes@),
{
    hex_of(bytes)
}

/// So many random bytes.
pub fn random_bytes(count: usize) -> (bytes: Result<Vec<u8>, Error>)
    ensures
        match bytes {
            Ok(bytes) => bytes@.len() == count,
            Err(error) => error@.len() == 1,
        },
{
    let mut bytes: Vec<u8> = Vec::new();
    while bytes.len() < count
        invariant
            bytes@.len() <= count,
        decreases count - bytes@.len(),
    {
        bytes.push(0);
    }
    match fill_random(&mut bytes) {
        Ok(()) => Ok(bytes),
        Err(message) => Err(Error::new(message.as_str())),
    }
}

} // verus!
