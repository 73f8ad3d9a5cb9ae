//! The dialogue between the policy and the host.
//!
//! A procedure decides what to do from the replies that the host has given so
//! far. It reads them in order; where it needs one more it stops and says what it
//! asks for. The host does that, appends the reply and lets the procedure decide
//! again. What a procedure does is therefore a function of the replies alone, and
//! every step that it can ever take is a request that it makes for some list of
//! replies.
//!
//! A procedure that polls drops the replies of a round that settled nothing: the
//! request says how many replies to keep.

use crate::agent::{Plist, PlistView};
use crate::command::{Command, CommandView};
use crate::config::{Config, ConfigView, StoredConfig};
use crate::error::{Error, Messages};
use crate::facts::{ConsoleInfo, CryptoUser, LinkKind, Output, VmInfo, VolumeInfo};
use vstd::prelude::*;

verus! {

/// Something that the host is to do or to find out.
#[derive(Debug)]
pub enum Request {
    /// Whether the path exists.
    Exists(String),
    IsFile(String),
    IsDirectory(String),
    /// Whether a directory has no entries.
    IsEmpty(String),
    /// The kind and the permissions of a file.
    FileMode(String),
    /// What the path leads to, without following a symbolic link.
    LinkKind(String),
    ReadLink(String),
    Canonicalize(String),
    /// Create a file in the directory and remove it again.
    ProbeWritable(String),
    ReadText(String),
    RemoveFile(String),
    /// Create a directory and those above it, for the user alone.
    CreateDirectory(String),
    /// Create a file for the user alone, unless it is there.
    CreateFile(String),
    SetMode { path: String, mode: u32 },
    CreateLink { target: String, link: String },
    /// Take the lock, unless another process has it.
    Lock(String),
    /// Write a file and put it in place at once.
    PublishText { directory: String, path: String, text: String },
    ReadConfig(String),
    PublishConfig { directory: String, path: String, config: Config },
    /// Write a property list to a temporary file.
    StagePlist { directory: String, plist: Plist, mode: u32, durable: bool },
    /// Put the staged file in place.
    PublishStaged(String),
    /// Open a file for the next program to read.
    OpenInput(String),
    CurrentExecutable,
    /// Run a program to its end.
    Run(Command),
    /// Start a program.
    Spawn(Command),
    /// Whether the started program has ended.
    PollChild,
    KillChild,
    /// Run a program in place of this process.
    Exec(Command),
    /// Note signals that would end the process.
    WatchSignals,
    SignalPending,
    UnwatchSignals,
    /// Whether standard input and standard error are terminals.
    Terminals,
    /// Stop the terminal from showing what is typed.
    HideInput(String),
    RestoreInput,
    PromptPassword(String),
    /// So many random bytes.
    RandomBytes(usize),
    /// The milliseconds of a clock that never goes back.
    Now,
    /// Wait for so many milliseconds.
    Sleep(u64),
    /// Write a line for the user.
    Print(String),
    DecodeVm(String),
    DecodeVolume(Vec<u8>),
    DecodeCryptoUsers(Vec<u8>),
    DecodeConsole(Vec<u8>),
}

/// A request, in terms of characters and bytes.
pub enum Ask {
    Exists(Seq<char>),
    IsFile(Seq<char>),
    IsDirectory(Seq<char>),
    IsEmpty(Seq<char>),
    FileMode(Seq<char>),
    LinkKind(Seq<char>),
    ReadLink(Seq<char>),
    Canonicalize(Seq<char>),
    ProbeWritable(Seq<char>),
    ReadText(Seq<char>),
    RemoveFile(Seq<char>),
    CreateDirectory(Seq<char>),
    CreateFile(Seq<char>),
    SetMode { path: Seq<char>, mode: u32 },
    CreateLink { target: Seq<char>, link: Seq<char> },
    Lock(Seq<char>),
    PublishText { directory: Seq<char>, path: Seq<char>, text: Seq<char> },
    ReadConfig(Seq<char>),
    PublishConfig { directory: Seq<char>, path: Seq<char>, config: ConfigView },
    StagePlist { directory: Seq<char>, plist: PlistView, mode: u32, durable: bool },
    PublishStaged(Seq<char>),
    OpenInput(Seq<char>),
    CurrentExecutable,
    Run(CommandView),
    Spawn(CommandView),
    PollChild,
    KillChild,
    Exec(CommandView),
    WatchSignals,
    SignalPending,
    UnwatchSignals,
    Terminals,
    HideInput(Seq<char>),
    RestoreInput,
    PromptPassword(Seq<char>),
    RandomBytes(usize),
    Now,
    Sleep(u64),
    Print(Seq<char>),
    DecodeVm(Seq<char>),
    DecodeVolume(Seq<u8>),
    DecodeCryptoUsers(Seq<u8>),
    DecodeConsole(Seq<u8>),
}

impl View for Request {
    type V = Ask;

    open spec fn view(&self) -> Ask {
        match self {
            Request::Exists(path) => Ask::Exists(path@),
            Request::IsFile(path) => Ask::IsFile(path@),
            Request::IsDirectory(path) => Ask::IsDirectory(path@),
            Request::IsEmpty(path) => Ask::IsEmpty(path@),
            Request::FileMode(path) => Ask::FileMode(path@),
            Request::LinkKind(path) => Ask::LinkKind(path@),
            Request::ReadLink(path) => Ask::ReadLink(path@),
            Request::Canonicalize(path) => Ask::Canonicalize(path@),
            Request::ProbeWritable(path) => Ask::ProbeWritable(path@),
            Request::ReadText(path) => Ask::ReadText(path@),
            Request::RemoveFile(path) => Ask::RemoveFile(path@),
            Request::CreateDirectory(path) => Ask::CreateDirectory(path@),
            Request::CreateFile(path) => Ask::CreateFile(path@),
            Request::SetMode { path, mode } => Ask::SetMode { path: path@, mode: *mode },
            Request::CreateLink { target, link } => Ask::CreateLink {
                target: target@,
                link: link@,
            },
            Request::Lock(path) => Ask::Lock(path@),
            Request::PublishText { directory, path, text } => Ask::PublishText {
                directory: directory@,
                path: path@,
                text: text@,
            },
            Request::ReadConfig(path) => Ask::ReadConfig(path@),
            Request::PublishConfig { directory, path, config } => Ask::PublishConfig {
                directory: directory@,
                path: path@,
                config: config@,
            },
            Request::StagePlist { directory, plist, mode, durable } => Ask::StagePlist {
                directory: directory@,
                plist: plist@,
                mode: *mode,
                durable: *durable,
            },
            Request::PublishStaged(path) => Ask::PublishStaged(path@),
            Request::OpenInput(path) => Ask::OpenInput(path@),
            Request::CurrentExecutable => Ask::CurrentExecutable,
            Request::Run(command) => Ask::Run(command@),
            Request::Spawn(command) => Ask::Spawn(command@),
            Request::PollChild => Ask::PollChild,
            Request::KillChild => Ask::KillChild,
            Request::Exec(command) => Ask::Exec(command@),
            Request::WatchSignals => Ask::WatchSignals,
            Request::SignalPending => Ask::SignalPending,
            Request::UnwatchSignals => Ask::UnwatchSignals,
            Request::Terminals => Ask::Terminals,
            Request::HideInput(path) => Ask::HideInput(path@),
            Request::RestoreInput => Ask::RestoreInput,
            Request::PromptPassword(prompt) => Ask::PromptPassword(prompt@),
            Request::RandomBytes(count) => Ask::RandomBytes(*count),
            Request::Now => Ask::Now,
            Request::Sleep(time) => Ask::Sleep(*time),
            Request::Print(line) => Ask::Print(line@),
            Request::DecodeVm(text) => Ask::DecodeVm(text@),
            Request::DecodeVolume(bytes) => Ask::DecodeVolume(bytes@),
            Request::DecodeCryptoUsers(bytes) => Ask::DecodeCryptoUsers(bytes@),
            Request::DecodeConsole(bytes) => Ask::DecodeConsole(bytes@),
        }
    }
}

/// What the host answers.
#[derive(Debug)]
pub enum Reply {
    Done,
    Flag(bool),
    Text(String),
    /// A path that is not UTF-8; the text describes it.
    Foreign(String),
    Bytes(Vec<u8>),
    /// The file is not there; the text is what the host says of it.
    Missing(String),
    /// The host could not do it; the text says why.
    Failed(String),
    Mode { file: bool, mode: u32 },
    Link(LinkKind),
    Output(Output),
    /// The program was started but did not take its input; the text says why.
    Unfed(String),
    /// The program was started but its end was missed; the text says why.
    Unawaited(String),
    Running,
    Exited { success: bool, description: String },
    Instant(u64),
    Terminals { input: bool, errors: bool },
    Config(StoredConfig),
    Vm(VmInfo),
    Volume(VolumeInfo),
    CryptoUsers(Vec<CryptoUser>),
    Console(ConsoleInfo),
}

/// Why a procedure stopped before its end.
#[derive(Debug)]
pub enum Halt {
    /// It needs a reply after the first `keep`.
    Pending { keep: usize, request: Request },
    Failed(Error),
}

pub enum HaltView {
    Pending { keep: nat, request: Ask },
    Failed(Messages),
}

impl View for Halt {
    type V = HaltView;

    open spec fn view(&self) -> HaltView {
        match self {
            Halt::Pending { keep, request } => HaltView::Pending {
                keep: *keep as nat,
                request: request@,
            },
            Halt::Failed(error) => HaltView::Failed(error@),
        }
    }
}

/// The replies so far, and how many of them have been read.
pub struct Session<'a> {
    pub replies: &'a Vec<Reply>,
    pub read: usize,
}

pub struct Tape {
    pub replies: Seq<Reply>,
    pub read: nat,
}

impl<'a> View for Session<'a> {
    type V = Tape;

    open spec fn view(&self) -> Tape {
        Tape { replies: self.replies@, read: self.read as nat }
    }
}

/// Where a procedure stands: the replies that it has read, and its value or why
/// it stopped.
pub struct Step<T> {
    pub tape: Tape,
    pub out: Result<T, HaltView>,
}

impl<T> Step<T> {
    /// This procedure, and with its value the next.
    pub open spec fn and_then<U>(self, next: spec_fn(T, Tape) -> Step<U>) -> Step<U> {
        match self.out {
            Ok(value) => next(value, self.tape),
            Err(halt) => Step { tape: self.tape, out: Err(halt) },
        }
    }

    /// This procedure, with a message around its error.
    pub open spec fn context(self, message: Seq<char>) -> Step<T> {
        match self.out {
            Err(HaltView::Failed(messages)) => Step {
                tape: self.tape,
                out: Err(HaltView::Failed(seq![message] + messages)),
            },
            _ => self,
        }
    }

    /// This procedure, which cannot fail: an error becomes a value.
    pub open spec fn attempt(self) -> Step<Result<T, Messages>> {
        match self.out {
            Ok(value) => Step { tape: self.tape, out: Ok(Ok(value)) },
            Err(HaltView::Failed(messages)) => Step { tape: self.tape, out: Ok(Err(messages)) },
            Err(halt) => Step { tape: self.tape, out: Err(halt) },
        }
    }

    /// This procedure and then, whether it failed or not, one more request. What
    /// the host replies to that changes nothing.
    pub open spec fn release(self, request: Ask) -> Step<T> {
        match self.out {
            Err(HaltView::Pending { .. }) => self,
            out => {
                let last = asked(request, self.tape);
                match last.out {
                    Ok(_) => Step { tape: last.tape, out },
                    Err(halt) => Step { tape: last.tape, out: Err(halt) },
                }
            },
        }
    }
}

/// A procedure that ends with a value.
pub open spec fn done<T>(value: T, tape: Tape) -> Step<T> {
    Step { tape, out: Ok(value) }
}

/// A procedure that ends with an error.
pub open spec fn failed<T>(messages: Messages, tape: Tape) -> Step<T> {
    Step { tape, out: Err(HaltView::Failed(messages)) }
}

/// A procedure that ends with an error of one message.
pub open spec fn refused<T>(message: Seq<char>, tape: Tape) -> Step<T> {
    failed(seq![message], tape)
}

/// A procedure that goes on only where the condition holds.
pub open spec fn ensured(condition: bool, message: Seq<char>, tape: Tape) -> Step<()> {
    if condition {
        done((), tape)
    } else {
        refused(message, tape)
    }
}

/// A procedure that takes over a result.
pub open spec fn lifted<T>(result: Result<T, Messages>, tape: Tape) -> Step<T> {
    match result {
        Ok(value) => done(value, tape),
        Err(messages) => failed(messages, tape),
    }
}

/// A procedure that polls again: only the first `mark` replies are kept, and the
/// round that began there starts anew with its first request.
pub open spec fn again<T>(request: Ask, mark: nat, tape: Tape) -> Step<T> {
    Step {
        tape: Tape { read: mark, ..tape },
        out: Err(HaltView::Pending { keep: mark, request }),
    }
}

/// The next reply, which answers the request.
pub open spec fn asked(request: Ask, tape: Tape) -> Step<Reply> {
    if tape.read < tape.replies.len() {
        done(tape.replies[tape.read as int], Tape { read: tape.read + 1, ..tape })
    } else {
        again(request, tape.read, tape)
    }
}

/// The error that a reply means which does not answer the request: the host's
/// own, or an error of the dialogue.
pub open spec fn no_answer_messages(reply: Reply) -> Messages {
    match reply {
        Reply::Failed(message)
        | Reply::Foreign(message)
        | Reply::Missing(message)
        | Reply::Unfed(message)
        | Reply::Unawaited(message) => seq![message@],
        _ => seq!["the host gave an unexpected reply"@],
    }
}

pub open spec fn no_answer<T>(reply: Reply, tape: Tape) -> Step<T> {
    failed(no_answer_messages(reply), tape)
}

pub open spec fn ask_done(request: Ask, tape: Tape) -> Step<()> {
    asked(request, tape).and_then(
        |reply: Reply, tape: Tape|
            match reply {
                Reply::Done => done((), tape),
                _ => no_answer(reply, tape),
            },
    )
}

pub open spec fn ask_flag(request: Ask, tape: Tape) -> Step<bool> {
    asked(request, tape).and_then(
        |reply: Reply, tape: Tape|
            match reply {
                Reply::Flag(flag) => done(flag, tape),
                _ => no_answer(reply, tape),
            },
    )
}

pub open spec fn ask_text(request: Ask, tape: Tape) -> Step<Seq<char>> {
    asked(request, tape).and_then(
        |reply: Reply, tape: Tape|
            match reply {
                Reply::Text(text) => done(text@, tape),
                _ => no_answer(reply, tape),
            },
    )
}

pub open spec fn ask_output(request: Ask, tape: Tape) -> Step<Output> {
    asked(request, tape).and_then(
        |reply: Reply, tape: Tape|
            match reply {
                Reply::Output(output) => done(output, tape),
                _ => no_answer(reply, tape),
            },
    )
}

pub open spec fn ask_instant(tape: Tape) -> Step<u64> {
    asked(Ask::Now, tape).and_then(
        |reply: Reply, tape: Tape|
            match reply {
                Reply::Instant(time) => done(time, tape),
                _ => no_answer(reply, tape),
            },
    )
}

pub open spec fn printed(line: Seq<char>, tape: Tape) -> Step<()> {
    ask_done(Ask::Print(line), tape)
}

pub open spec fn slept(time: u64, tape: Tape) -> Step<()> {
    ask_done(Ask::Sleep(time), tape)
}

/// An executable procedure and what its contract says that it does.
pub open spec fn follows<T: View>(out: Result<T, Halt>, session: Session, step: Step<T::V>) -> bool {
    &&& session@ == step.tape
    &&& match out {
        Ok(value) => step.out == Ok::<T::V, HaltView>(value@),
        Err(halt) => step.out == Err::<T::V, HaltView>(halt@),
    }
}

/// An executable procedure whose value is a reply that the host gave.
pub open spec fn follows_reply(
    out: Result<&Reply, Halt>,
    session: Session,
    step: Step<Reply>,
) -> bool {
    &&& session@ == step.tape
    &&& match out {
        Ok(reply) => step.out == Ok::<Reply, HaltView>(*reply),
        Err(halt) => step.out == Err::<Reply, HaltView>(halt@),
    }
}

/// An error of one message.
pub fn refusal(message: &str) -> (halt: Halt)
    ensures
        halt@ == HaltView::Failed(seq![message@]),
{
    Halt::Failed(Error::new(message))
}

pub fn ensure(condition: bool, message: &str) -> (out: Result<(), Halt>)
    ensures
        match out {
            Ok(()) => condition,
            Err(halt) => !condition && halt@ == HaltView::Failed(seq![message@]),
        },
{
    if condition {
        Ok(())
    } else {
        Err(refusal(message))
    }
}

pub fn lift<T>(result: Result<T, Error>) -> (out: Result<T, Halt>)
    ensures
        match result {
            Ok(value) => out == Ok::<T, Halt>(value),
            Err(error) => out matches Err(halt) && halt@ == HaltView::Failed(error@),
        },
{
    match result {
        Ok(value) => Ok(value),
        Err(error) => Err(Halt::Failed(error)),
    }
}

pub fn with_context<T>(out: Result<T, Halt>, message: &str) -> (result: Result<T, Halt>)
    ensures
        match out {
            Ok(value) => result == Ok::<T, Halt>(value),
            Err(Halt::Failed(error)) => result matches Err(halt) && halt@ == HaltView::Failed(
                seq![message@] + error@,
            ),
            Err(halt) => result == Err::<T, Halt>(halt),
        },
{
    match out {
        Ok(value) => Ok(value),
        Err(Halt::Failed(error)) => Err(Halt::Failed(error.context(message))),
        Err(halt) => Err(halt),
    }
}

/// The error of a procedure as a value.
pub fn attempt<T>(out: Result<T, Halt>) -> (result: Result<Result<T, Error>, Halt>)
    ensures
        match out {
            Ok(value) => result == Ok::<Result<T, Error>, Halt>(Ok(value)),
            Err(Halt::Failed(error)) => result == Ok::<Result<T, Error>, Halt>(Err(error)),
            Err(halt) => result == Err::<Result<T, Error>, Halt>(halt),
        },
{
    match out {
        Ok(value) => Ok(Ok(value)),
        Err(Halt::Failed(error)) => Ok(Err(error)),
        Err(halt) => Err(halt),
    }
}

impl<'a> Session<'a> {
    pub fn new(replies: &'a Vec<Reply>) -> (session: Session<'a>)
        ensures
            session@ == (Tape { replies: replies@, read: 0 }),
    {
        Session { replies, read: 0 }
    }

    /// The next reply, or the request where there is none yet.
    pub fn ask(&mut self, request: Request) -> (out: Result<&'a Reply, Halt>)
        ensures
            follows_reply(out, *final(self), asked(request@, old(self)@)),
    {
        if self.read < self.replies.len() {
            let reply = &self.replies[self.read];
            self.read = self.read + 1;
            Ok(reply)
        } else {
            Err(Halt::Pending { keep: self.read, request })
        }
    }

    /// Starts the round that began at `mark` anew.
    pub fn again<T>(&mut self, request: Request, mark: usize) -> (out: Result<T, Halt>)
        ensures
            final(self)@ == (Tape { read: mark as nat, ..old(self)@ }),
            out matches Err(halt) && halt@ == (HaltView::Pending {
                keep: mark as nat,
                request: request@,
            }),
    {
        self.read = mark;
        Err(Halt::Pending { keep: mark, request })
    }

    /// One more request after a procedure, whether that failed or not.
    pub fn release<T>(&mut self, out: Result<T, Halt>, request: Request) -> (result: Result<T, Halt>)
        ensures
            match out {
                Err(Halt::Pending { .. }) => result == out && final(self)@ == old(self)@,
                _ => {
                    let last = asked(request@, old(self)@);
                    &&& final(self)@ == last.tape
                    &&& match last.out {
                        Ok(_) => result == out,
                        Err(stop) => result matches Err(halt) && halt@ == stop,
                    }
                },
            },
    {
        match out {
            Err(Halt::Pending { keep, request }) => Err(Halt::Pending { keep, request }),
            out => {
                self.ask(request)?;
                out
            },
        }
    }

    pub fn done(&mut self, request: Request) -> (out: Result<(), Halt>)
        ensures
            follows(out, *final(self), ask_done(request@, old(self)@)),
    {
        match self.ask(request)? {
            Reply::Done => Ok(()),
            reply => Err(no_answer_to(reply)),
        }
    }

    pub fn flag(&mut self, request: Request) -> (out: Result<bool, Halt>)
        ensures
            follows(out, *final(self), ask_flag(request@, old(self)@)),
    {
        match self.ask(request)? {
            Reply::Flag(flag) => Ok(*flag),
            reply => Err(no_answer_to(reply)),
        }
    }

    pub fn text(&mut self, request: Request) -> (out: Result<String, Halt>)
        ensures
            follows(out, *final(self), ask_text(request@, old(self)@)),
    {
        match self.ask(request)? {
            Reply::Text(text) => Ok(text.clone()),
            reply => Err(no_answer_to(reply)),
        }
    }

    pub fn output(&mut self, request: Request) -> (out: Result<&'a Output, Halt>)
        ensures
            follows(out, *final(self), ask_output(request@, old(self)@)),
    {
        match self.ask(request)? {
            Reply::Output(output) => Ok(output),
            reply => Err(no_answer_to(reply)),
        }
    }

    pub fn now(&mut self) -> (out: Result<u64, Halt>)
        ensures
            follows(out, *final(self), ask_instant(old(self)@)),
    {
        match self.ask(Request::Now)? {
            Reply::Instant(time) => Ok(*time),
            reply => Err(no_answer_to(reply)),
        }
    }

    pub fn print(&mut self, line: &str) -> (out: Result<(), Halt>)
        ensures
            follows(out, *final(self), printed(line@, old(self)@)),
    {
        self.done(Request::Print(line.to_owned()))
    }

    pub fn sleep(&mut self, time: u64) -> (out: Result<(), Halt>)
        ensures
            follows(out, *final(self), slept(time, old(self)@)),
    {
        self.done(Request::Sleep(time))
    }
}

pub fn no_answer_to(reply: &Reply) -> (halt: Halt)
    ensures
        halt@ == HaltView::Failed(no_answer_messages(*reply)),
{
    match reply {
        Reply::Failed(message) => refusal(message.as_str()),
        Reply::Foreign(message) => refusal(message.as_str()),
        Reply::Missing(message) => refusal(message.as_str()),
        Reply::Unfed(message) => refusal(message.as_str()),
        Reply::Unawaited(message) => refusal(message.as_str()),
        _ => refusal("the host gave an unexpected reply"),
    }
}

} // verus!
