//! Passwords in the login Keychain.

use crate::app::{App, AppView};
use crate::command::{Command, CommandView, Input, InputView, Sink};
use crate::encoding::{
    hex_of, hex_text, lossy_of, lossy_text, strip_line_ending, utf8_bytes, without_line_ending,
};
use crate::facts::Output;
use crate::process::{check_output, check_output_steps, fed, fed_steps};
use crate::session::{
    ask_output, done, ensure, follows, refused, with_context, Ask, Halt, Request, Session, Step,
    Tape,
};
use crate::text::{escape, escaped, trim, trimmed};
use vstd::prelude::*;
use vstd::utf8::encode_utf8;

verus! {

/// A password that the Keychain may hold.
pub enum Stored {
    Absent,
    Password(Vec<u8>),
}

pub enum StoredView {
    Absent,
    Password(Seq<u8>),
}

impl View for Stored {
    type V = StoredView;

    open spec fn view(&self) -> StoredView {
        match self {
            Stored::Absent => StoredView::Absent,
            Stored::Password(password) => StoredView::Password(password@),
        }
    }
}

/// The command that writes out a password of the Keychain.
pub open spec fn find_command(
    account: Seq<char>,
    service: Seq<char>,
    keychain: Seq<char>,
) -> CommandView {
    CommandView::new("/usr/bin/security"@).arg("find-generic-password"@).option(
        "-a"@,
        account,
    ).option("-s"@, service).arg("-w"@).arg(keychain)
}

/// The line that has the `security` tool store a password. The password stands in
/// it in hexadecimal.
pub open spec fn store_line(
    account: Seq<char>,
    service: Seq<char>,
    password: Seq<u8>,
    keychain: Seq<char>,
) -> Seq<char> {
    "add-generic-password -a "@ + account + " -s "@ + service + " -U -X "@ + hex_text(password)
        + " \""@ + escaped(keychain) + "\"\n"@
}

/// The command that stores a password: it reads what to store, and has no
/// argument that depends on it. What it prints besides errors is discarded.
pub open spec fn store_command(
    account: Seq<char>,
    service: Seq<char>,
    password: Seq<u8>,
    keychain: Seq<char>,
) -> CommandView {
    CommandView::new("/usr/bin/security"@).arg("-i"@).input(
        InputView::Bytes(encode_utf8(store_line(account, service, password, keychain))),
    ).output(Sink::Discarded)
}

/// What a look into the Keychain found. The tool ends with code 44 where there is
/// no such password.
pub open spec fn found_password(output: Output, tape: Tape) -> Step<StoredView> {
    if output.succeeded() {
        let password = without_line_ending(output.stdout@);
        if password.len() == 0 {
            refused("the stored password is empty"@, tape)
        } else {
            done(StoredView::Password(password), tape)
        }
    } else if output.code == Some(44i32) {
        done(StoredView::Absent, tape)
    } else {
        refused(
            "cannot read a password from Keychain: "@ + trimmed(lossy_text(output.stderr@)),
            tape,
        )
    }
}

impl AppView {
    pub open spec fn keychain_password(
        self,
        account: Seq<char>,
        service: Seq<char>,
        tape: Tape,
    ) -> Step<StoredView> {
        ask_output(
            Ask::Run(find_command(account, service, self.paths.login_keychain())),
            tape,
        ).context("cannot read a password from Keychain"@).and_then(|output: Output, tape: Tape|
        found_password(output, tape))
    }

    pub open spec fn store_keychain_password(
        self,
        account: Seq<char>,
        service: Seq<char>,
        password: Seq<u8>,
        tape: Tape,
    ) -> Step<()> {
        fed_steps(
            store_command(account, service, password, self.paths.login_keychain()),
            "cannot store a password in Keychain"@,
            tape,
        ).and_then(|output: Output, tape: Tape|
        check_output_steps(output, "store a password in Keychain"@, tape))
    }
}

impl<'a> App<'a> {
    pub fn keychain_password(&self, session: &mut Session, account: &str, service: &str) -> (out:
        Result<Stored, Halt>)
        ensures
            follows(
                out,
                *final(session),
                self@.keychain_password(account@, service@, old(session)@),
            ),
    {
        let command = Command::new("/usr/bin/security").arg("find-generic-password").option(
            "-a",
            account,
        ).option("-s", service).arg("-w").arg(self.paths.login_keychain().as_str());
        let output = with_context(
            session.output(Request::Run(command)),
            "cannot read a password from Keychain",
        )?;
        if output.success() {
            let password = strip_line_ending(&output.stdout);
            ensure(password.len() > 0, "the stored password is empty")?;
            return Ok(Stored::Password(password));
        }
        let absent = match output.code {
            Some(code) => code == 44,
            None => false,
        };
        ensure(
            absent,
            "cannot read a password from Keychain: ".to_owned().concat(
                trim(lossy_of(&output.stderr).as_str()).as_str(),
            ).as_str(),
        )?;
        Ok(Stored::Absent)
    }

    pub fn store_keychain_password(
        &self,
        session: &mut Session,
        account: &str,
        service: &str,
        password: &Vec<u8>,
    ) -> (out: Result<(), Halt>)
        ensures
            follows(
                out,
                *final(session),
                self@.store_keychain_password(account@, service@, password@, old(session)@),
            ),
    {
        let line = "add-generic-password -a ".to_owned().concat(account).concat(" -s ").concat(
            service,
        ).concat(" -U -X ").concat(hex_of(password).as_str()).concat(" \"").concat(
            escape(self.paths.login_keychain().as_str()).as_str(),
        ).concat("\"\n");
        let command = Command::new("/usr/bin/security").arg("-i").input(
            Input::Bytes(utf8_bytes(line.as_str())),
        ).output(Sink::Discarded);
        let output = fed(session, command, "cannot store a password in Keychain")?;
        check_output(output, "store a password in Keychain")
    }
}

} // verus!
