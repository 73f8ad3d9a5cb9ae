//! Files and directories of the host.

use crate::path::{absolute, is_absolute, is_same_place, same_place};
use crate::session::{
    ask_done, ask_flag, ask_text, asked, done, ensure, ensured, failed, follows, no_answer,
    no_answer_to, with_context, Ask, Halt, Reply, Request, Session, Step, Tape,
};
use vstd::prelude::*;

verus! {

/// Removes a file; one that is not there is as good as removed.
pub open spec fn remove_if_present_steps(path: Seq<char>, tape: Tape) -> Step<()> {
    asked(Ask::RemoveFile(path), tape).and_then(
        |reply: Reply, tape: Tape|
            match reply {
                Reply::Done | Reply::Missing(_) => done((), tape),
                _ => no_answer(reply, tape),
            },
    )
}

pub fn remove_if_present(session: &mut Session, path: &str) -> (out: Result<(), Halt>)
    ensures
        follows(out, *final(session), remove_if_present_steps(path@, old(session)@)),
{
    match session.ask(Request::RemoveFile(path.to_owned()))? {
        Reply::Done => Ok(()),
        Reply::Missing(_) => Ok(()),
        reply => Err(no_answer_to(reply)),
    }
}

/// Makes sure that a directory is there; a new one is for the user alone.
pub open spec fn private_dir_steps(path: Seq<char>, tape: Tape) -> Step<()> {
    ask_flag(Ask::Exists(path), tape).and_then(
        |exists: bool, tape: Tape|
            if exists {
                ask_flag(Ask::IsDirectory(path), tape).and_then(
                    |directory: bool, tape: Tape|
                        ensured(directory, "not a directory: "@ + path, tape),
                )
            } else {
                ask_done(Ask::CreateDirectory(path), tape)
            },
    )
}

pub fn private_dir(session: &mut Session, path: &str) -> (out: Result<(), Halt>)
    ensures
        follows(out, *final(session), private_dir_steps(path@, old(session)@)),
{
    if session.flag(Request::Exists(path.to_owned()))? {
        let directory = session.flag(Request::IsDirectory(path.to_owned()))?;
        ensure(directory, "not a directory: ".to_owned().concat(path).as_str())
    } else {
        session.done(Request::CreateDirectory(path.to_owned()))
    }
}

/// Leaves a marker in a directory.
pub open spec fn touch_steps(directory: Seq<char>, path: Seq<char>, tape: Tape) -> Step<()> {
    private_dir_steps(directory, tape).and_then(
        |_done: (), tape: Tape| ask_done(Ask::CreateFile(path), tape),
    )
}

pub fn touch(session: &mut Session, directory: &str, path: &str) -> (out: Result<(), Halt>)
    ensures
        follows(out, *final(session), touch_steps(directory@, path@, old(session)@)),
{
    private_dir(session, directory)?;
    session.done(Request::CreateFile(path.to_owned()))
}

/// Whether somebody may execute the file.
pub open spec fn executable(reply: Reply) -> bool {
    reply matches Reply::Mode { file, mode } && file && mode & 0o111 != 0
}

pub open spec fn is_executable_steps(path: Seq<char>, tape: Tape) -> Step<bool> {
    asked(Ask::FileMode(path), tape).and_then(
        |reply: Reply, tape: Tape| done(executable(reply), tape),
    )
}

pub fn is_executable(session: &mut Session, path: &str) -> (out: Result<bool, Halt>)
    ensures
        follows(out, *final(session), is_executable_steps(path@, old(session)@)),
{
    match session.ask(Request::FileMode(path.to_owned()))? {
        Reply::Mode { file, mode } => Ok(*file && *mode & 0o111 != 0),
        _ => Ok(false),
    }
}

/// Whether the path that a request finds leads to a place. One that is not UTF-8
/// does not.
pub open spec fn leads_to_steps(request: Ask, place: Seq<char>, tape: Tape) -> Step<bool> {
    asked(request, tape).and_then(
        |reply: Reply, tape: Tape|
            match reply {
                Reply::Text(path) => done(same_place(path@, place), tape),
                Reply::Foreign(_) => done(false, tape),
                _ => no_answer(reply, tape),
            },
    )
}

pub fn leads_to(session: &mut Session, request: Request, place: &str) -> (out: Result<bool, Halt>)
    ensures
        follows(out, *final(session), leads_to_steps(request@, place@, old(session)@)),
{
    match session.ask(request)? {
        Reply::Text(path) => Ok(is_same_place(path.as_str(), place)),
        Reply::Foreign(_) => Ok(false),
        reply => Err(no_answer_to(reply)),
    }
}

/// The canonical path of an existing directory that the user can write to.
pub open spec fn canonical_directory_steps(path: Seq<char>, tape: Tape) -> Step<Seq<char>> {
    ensured(absolute(path), "storage directory must be absolute"@, tape).and_then(
        |_done: (), tape: Tape|
            ask_flag(Ask::IsDirectory(path), tape).and_then(
                |directory: bool, tape: Tape|
                    ensured(directory, "storage directory does not exist: "@ + path, tape).and_then(
                        |_done: (), tape: Tape|
                            ask_text(Ask::Canonicalize(path), tape).and_then(
                                |canonical: Seq<char>, tape: Tape|
                                    ask_done(Ask::ProbeWritable(canonical), tape).context(
                                        "storage directory is not writable: "@ + canonical,
                                    ).and_then(|_done: (), tape: Tape| done(canonical, tape)),
                            ),
                    ),
            ),
    )
}

pub fn canonical_directory(session: &mut Session, path: &str) -> (out: Result<String, Halt>)
    ensures
        follows(out, *final(session), canonical_directory_steps(path@, old(session)@)),
{
    ensure(is_absolute(path), "storage directory must be absolute")?;
    let directory = session.flag(Request::IsDirectory(path.to_owned()))?;
    ensure(directory, "storage directory does not exist: ".to_owned().concat(path).as_str())?;
    let canonical = session.text(Request::Canonicalize(path.to_owned()))?;
    with_context(
        session.done(Request::ProbeWritable(canonical.clone())),
        "storage directory is not writable: ".to_owned().concat(canonical.as_str()).as_str(),
    )?;
    Ok(canonical)
}

/// The storage directory that an option of the installer names. Only the
/// outermost message of an error is kept.
pub open spec fn existing_directory_steps(value: Seq<char>, tape: Tape) -> Step<Seq<char>> {
    canonical_directory_steps(value, tape).attempt().and_then(
        |found: Result<Seq<char>, crate::error::Messages>, tape: Tape|
            match found {
                Ok(canonical) => done(canonical, tape),
                Err(messages) => failed(seq![crate::error::headline(messages)], tape),
            },
    )
}

pub fn existing_directory(session: &mut Session, value: &str) -> (out: Result<String, Halt>)
    ensures
        follows(out, *final(session), existing_directory_steps(value@, old(session)@)),
{
    match canonical_directory(session, value) {
        Ok(canonical) => Ok(canonical),
        Err(Halt::Failed(error)) => Err(Halt::Failed(error.outermost())),
        Err(halt) => Err(halt),
    }
}

} // verus!
