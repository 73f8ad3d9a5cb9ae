//! Running programs to their end.

use crate::command::{Command, CommandView};
use crate::encoding::{lossy_of, lossy_text, utf8_error, utf8_of};
use crate::error::{agrees, Error, Messages};
use crate::facts::Output;
use crate::session::{
    ask_output, asked, done, ensured, follows, lift, lifted, no_answer, no_answer_to, refusal,
    with_context, Ask, Halt, HaltView, Reply, Request, Session, Step, Tape,
};
use crate::text::{trim, trimmed};
use vstd::prelude::*;
use vstd::utf8::{decode_utf8, valid_utf8};

verus! {

/// What is said of a program that failed.
pub open spec fn failure(output: Output, description: Seq<char>) -> Seq<char> {
    "failed to "@ + description + ": "@ + trimmed(lossy_text(output.stderr@))
}

pub open spec fn check_output_steps(output: Output, description: Seq<char>, tape: Tape) -> Step<
    (),
> {
    ensured(output.succeeded(), failure(output, description), tape)
}

pub fn check_output(output: &Output, description: &str) -> (out: Result<(), Halt>)
    ensures
        match out {
            Ok(()) => output.succeeded(),
            Err(halt) => !output.succeeded() && halt@ == HaltView::Failed(
                seq![failure(*output, description@)],
            ),
        },
{
    if output.success() {
        Ok(())
    } else {
        let reason = trim(lossy_of(&output.stderr).as_str());
        Err(
            refusal(
                "failed to ".to_owned().concat(description).concat(": ").concat(
                    reason.as_str(),
                ).as_str(),
            ),
        )
    }
}

/// The text that bytes stand for.
pub open spec fn utf8_text(bytes: Seq<u8>) -> Result<Seq<char>, Messages> {
    if valid_utf8(bytes) {
        Ok(decode_utf8(bytes))
    } else {
        Err(seq![utf8_error(bytes)])
    }
}

pub fn text_from(bytes: &Vec<u8>) -> (out: Result<String, Error>)
    ensures
        agrees(out, utf8_text(bytes@)),
{
    match utf8_of(bytes) {
        Ok(text) => Ok(text),
        Err(message) => Err(Error::new(message.as_str())),
    }
}

/// Runs a program that is to succeed.
pub open spec fn success_steps(command: CommandView, description: Seq<char>, tape: Tape) -> Step<
    (),
> {
    ask_output(Ask::Run(command), tape).context("cannot "@ + description).and_then(
        |output: Output, tape: Tape| check_output_steps(output, description, tape),
    )
}

pub fn success(session: &mut Session, command: Command, description: &str) -> (out: Result<
    (),
    Halt,
>)
    ensures
        follows(out, *final(session), success_steps(command@, description@, old(session)@)),
{
    let output = with_context(
        session.output(Request::Run(command)),
        "cannot ".to_owned().concat(description).as_str(),
    )?;
    check_output(output, description)
}

/// Runs a program that reads what it is given. The message is put around the
/// error of a program that does not start.
pub open spec fn fed_steps(command: CommandView, message: Seq<char>, tape: Tape) -> Step<Output> {
    asked(Ask::Run(command), tape).and_then(|reply: Reply, tape: Tape|
    match reply {
        Reply::Output(output) => done(output, tape),
        Reply::Unfed(_) | Reply::Unawaited(_) => no_answer(reply, tape),
        _ => no_answer(reply, tape).context(message),
    })
}

pub fn fed<'s>(session: &mut Session<'s>, command: Command, message: &str) -> (out: Result<
    &'s Output,
    Halt,
>)
    ensures
        follows(out, *final(session), fed_steps(command@, message@, old(session)@)),
{
    match session.ask(Request::Run(command))? {
        Reply::Output(output) => Ok(output),
        Reply::Unfed(reason) => Err(refusal(reason.as_str())),
        Reply::Unawaited(reason) => Err(refusal(reason.as_str())),
        reply => with_context(Err(no_answer_to(reply)), message),
    }
}

/// Runs a program that is to succeed, for what it writes.
pub open spec fn checked_steps(command: CommandView, description: Seq<char>, tape: Tape) -> Step<
    Seq<char>,
> {
    ask_output(Ask::Run(command), tape).context("cannot "@ + description).and_then(
        |output: Output, tape: Tape|
            check_output_steps(output, description, tape).and_then(
                |_done: (), tape: Tape|
                    lifted(utf8_text(output.stdout@), tape).and_then(
                        |text: Seq<char>, tape: Tape| done(trimmed(text), tape),
                    ),
            ),
    )
}

pub fn checked(session: &mut Session, command: Command, description: &str) -> (out: Result<
    String,
    Halt,
>)
    ensures
        follows(out, *final(session), checked_steps(command@, description@, old(session)@)),
{
    let output = with_context(
        session.output(Request::Run(command)),
        "cannot ".to_owned().concat(description).as_str(),
    )?;
    check_output(output, description)?;
    let text = lift(text_from(&output.stdout))?;
    Ok(trim(text.as_str()))
}

} // verus!
