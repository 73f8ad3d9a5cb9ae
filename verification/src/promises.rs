//! What a user can rely on: what each command asks the host for, with every word
//! written out, and what its end means.

pub mod asking;
pub mod commands;
pub mod dialogue;
pub mod failures;
pub mod guest;
pub mod installing;
pub mod keychain;
pub mod lifecycle;
pub mod order;
pub mod polling;
pub mod steps;
pub mod storage;
pub mod values;
pub mod vm;
pub mod window;
pub mod writing;

use crate::command::{CommandView, InputView, Sink, VariableView};
use crate::session::{Ask, HaltView, Step, Tape};
use vstd::prelude::*;

verus! {

impl Tape {
    /// This tape with so many more replies read.
    pub open spec fn later(self, count: nat) -> Tape {
        Tape { read: self.read + count, ..self }
    }
}

impl<T> Step<T> {
    /// The procedure waits for the reply to a request.
    pub open spec fn waits_for(self, request: Ask) -> bool {
        self.out matches Err(HaltView::Pending { request: asked, .. }) && asked == request
    }

    /// The procedure ended with an error of one message.
    pub open spec fn refuses(self, message: Seq<char>) -> bool {
        self.out == Err::<T, HaltView>(HaltView::Failed(seq![message]))
    }
}

/// A procedure ends or waits where this part of it does, with the same error or for the
/// same reply.
pub open spec fn stops_with<T, U>(whole: Step<T>, part: Step<U>) -> bool {
    part.out matches Err(halt) ==> whole.out == Err::<T, HaltView>(halt)
}

/// A program with these arguments, in the surroundings of the command, which reads
/// nothing and whose output and errors are captured.
pub open spec fn program(path: Seq<char>, arguments: Seq<Seq<char>>) -> CommandView {
    CommandView {
        program: path,
        arguments,
        environment: Seq::empty(),
        directory: None,
        input: InputView::Closed,
        output: Sink::Captured,
        errors: Sink::Captured,
        own_group: false,
    }
}

/// The same program with more arguments.
pub open spec fn with_arguments(command: CommandView, arguments: Seq<Seq<char>>) -> CommandView {
    CommandView { arguments: command.arguments + arguments, ..command }
}

/// The same program, which reads and writes where the command itself does.
pub open spec fn attached(command: CommandView) -> CommandView {
    CommandView {
        input: InputView::Inherited,
        output: Sink::Inherited,
        errors: Sink::Inherited,
        ..command
    }
}

/// A variable has a value for a program: the last change of it sets that value.
pub open spec fn sets(command: CommandView, name: Seq<char>, value: Seq<char>) -> bool {
    exists|i: int|
        0 <= i < command.environment.len() && #[trigger] command.environment[i] == (VariableView {
            name,
            value: Some(value),
        }) && last_change(command, name, i)
}

/// No later change concerns the variable.
pub open spec fn last_change(command: CommandView, name: Seq<char>, at: int) -> bool {
    forall|j: int| at < j < command.environment.len() ==> (#[trigger] command.environment[j]).name
        != name
}

} // verus!
