//! Programs to run.

use crate::text::{lemma_texts_push, texts};
use vstd::prelude::*;

verus! {

/// What a program reads.
#[derive(Debug)]
pub enum Input {
    /// Nothing.
    Closed,
    /// What the command itself reads.
    Inherited,
    /// These bytes.
    Bytes(Vec<u8>),
    /// The file that was opened last.
    Opened,
}

pub enum InputView {
    Closed,
    Inherited,
    Bytes(Seq<u8>),
    Opened,
}

impl View for Input {
    type V = InputView;

    open spec fn view(&self) -> InputView {
        match self {
            Input::Closed => InputView::Closed,
            Input::Inherited => InputView::Inherited,
            Input::Bytes(bytes) => InputView::Bytes(bytes@),
            Input::Opened => InputView::Opened,
        }
    }
}

/// Where what a program writes goes.
#[derive(Clone, Copy, Debug, PartialEq, Eq, Structural)]
pub enum Sink {
    Captured,
    Discarded,
    Inherited,
}

/// One change of the environment: a variable that is set, or removed.
#[derive(Debug)]
pub struct Variable {
    pub name: String,
    pub value: Option<String>,
}

pub struct VariableView {
    pub name: Seq<char>,
    pub value: Option<Seq<char>>,
}

impl View for Variable {
    type V = VariableView;

    open spec fn view(&self) -> VariableView {
        VariableView {
            name: self.name@,
            value: match self.value {
                Some(value) => Some(value@),
                None => None,
            },
        }
    }
}

pub open spec fn variables(list: Seq<Variable>) -> Seq<VariableView> {
    list.map_values(|variable: Variable| variable@)
}

/// A program, its arguments and its surroundings.
#[derive(Debug)]
pub struct Command {
    pub program: String,
    pub arguments: Vec<String>,
    pub environment: Vec<Variable>,
    pub directory: Option<String>,
    pub input: Input,
    /// Where standard output goes.
    pub output: Sink,
    /// Where standard error goes.
    pub errors: Sink,
    /// Whether the program gets a process group of its own.
    pub own_group: bool,
}

pub struct CommandView {
    pub program: Seq<char>,
    pub arguments: Seq<Seq<char>>,
    pub environment: Seq<VariableView>,
    pub directory: Option<Seq<char>>,
    pub input: InputView,
    pub output: Sink,
    pub errors: Sink,
    pub own_group: bool,
}

impl View for Command {
    type V = CommandView;

    open spec fn view(&self) -> CommandView {
        CommandView {
            program: self.program@,
            arguments: texts(self.arguments@),
            environment: variables(self.environment@),
            directory: match self.directory {
                Some(directory) => Some(directory@),
                None => None,
            },
            input: self.input@,
            output: self.output,
            errors: self.errors,
            own_group: self.own_group,
        }
    }
}

impl CommandView {
    /// A program without arguments, which reads nothing and whose output and
    /// errors are captured.
    pub open spec fn new(program: Seq<char>) -> CommandView {
        CommandView {
            program,
            arguments: Seq::empty(),
            environment: Seq::empty(),
            directory: None,
            input: InputView::Closed,
            output: Sink::Captured,
            errors: Sink::Captured,
            own_group: false,
        }
    }

    pub open spec fn arg(self, argument: Seq<char>) -> CommandView {
        CommandView { arguments: self.arguments.push(argument), ..self }
    }

    pub open spec fn option(self, name: Seq<char>, value: Seq<char>) -> CommandView {
        self.arg(name).arg(value)
    }

    pub open spec fn args(self, arguments: Seq<Seq<char>>) -> CommandView {
        CommandView { arguments: self.arguments + arguments, ..self }
    }

    pub open spec fn env(self, name: Seq<char>, value: Seq<char>) -> CommandView {
        CommandView {
            environment: self.environment.push(VariableView { name, value: Some(value) }),
            ..self
        }
    }

    pub open spec fn env_remove(self, name: Seq<char>) -> CommandView {
        CommandView {
            environment: self.environment.push(VariableView { name, value: None }),
            ..self
        }
    }

    pub open spec fn current_dir(self, directory: Seq<char>) -> CommandView {
        CommandView { directory: Some(directory), ..self }
    }

    pub open spec fn input(self, input: InputView) -> CommandView {
        CommandView { input, ..self }
    }

    /// Where standard output goes.
    pub open spec fn output(self, output: Sink) -> CommandView {
        CommandView { output, ..self }
    }

    /// Where standard output and standard error go.
    pub open spec fn streams(self, sink: Sink) -> CommandView {
        CommandView { output: sink, errors: sink, ..self }
    }

    pub open spec fn process_group(self) -> CommandView {
        CommandView { own_group: true, ..self }
    }
}

impl Command {
    pub fn new(program: &str) -> (command: Command)
        ensures
            command@ == CommandView::new(program@),
    {
        let command = Command {
            program: program.to_owned(),
            arguments: Vec::new(),
            environment: Vec::new(),
            directory: None,
            input: Input::Closed,
            output: Sink::Captured,
            errors: Sink::Captured,
            own_group: false,
        };
        assert(command@.arguments =~= Seq::empty());
        assert(command@.environment =~= Seq::empty());
        command
    }

    pub fn arg(self, argument: &str) -> (command: Command)
        ensures
            command@ == self@.arg(argument@),
    {
        let mut command = self;
        let argument = argument.to_owned();
        proof {
            lemma_texts_push(command.arguments@, argument);
        }
        command.arguments.push(argument);
        command
    }

    pub fn option(self, name: &str, value: &str) -> (command: Command)
        ensures
            command@ == self@.option(name@, value@),
    {
        self.arg(name).arg(value)
    }

    pub fn args(self, arguments: &Vec<String>) -> (command: Command)
        ensures
            command@ == self@.args(texts(arguments@)),
    {
        let mut command = self;
        let ghost before = command;
        let mut at: usize = 0;
        assert(before@.args(texts(arguments@).take(0)).arguments =~= before@.arguments);
        while at < arguments.len()
            invariant
                at <= arguments@.len(),
                command@ == before@.args(texts(arguments@).take(at as int)),
            decreases arguments@.len() - at,
        {
            command = command.arg(arguments[at].as_str());
            assert(before@.arguments + texts(arguments@).take(at + 1) =~= (before@.arguments
                + texts(arguments@).take(at as int)).push(arguments@[at as int]@));
            at = at + 1;
        }
        assert(texts(arguments@).take(at as int) =~= texts(arguments@));
        command
    }

    fn variable(self, variable: Variable) -> (command: Command)
        ensures
            command@ == (CommandView {
                environment: self@.environment.push(variable@),
                ..self@
            }),
    {
        let mut command = self;
        assert(variables(command.environment@.push(variable)) =~= variables(command.environment@).push(
            variable@,
        ));
        command.environment.push(variable);
        command
    }

    pub fn env(self, name: &str, value: &str) -> (command: Command)
        ensures
            command@ == self@.env(name@, value@),
    {
        self.variable(Variable { name: name.to_owned(), value: Some(value.to_owned()) })
    }

    pub fn env_remove(self, name: &str) -> (command: Command)
        ensures
            command@ == self@.env_remove(name@),
    {
        self.variable(Variable { name: name.to_owned(), value: None })
    }

    pub fn current_dir(self, directory: &str) -> (command: Command)
        ensures
            command@ == self@.current_dir(directory@),
    {
        let mut command = self;
        command.directory = Some(directory.to_owned());
        command
    }

    pub fn input(self, input: Input) -> (command: Command)
        ensures
            command@ == self@.input(input@),
    {
        let mut command = self;
        command.input = input;
        command
    }

    pub fn output(self, output: Sink) -> (command: Command)
        ensures
            command@ == self@.output(output),
    {
        let mut command = self;
        command.output = output;
        command
    }

    pub fn streams(self, sink: Sink) -> (command: Command)
        ensures
            command@ == self@.streams(sink),
    {
        let mut command = self;
        command.output = sink;
        command.errors = sink;
        command
    }

    pub fn process_group(self) -> (command: Command)
        ensures
            command@ == self@.process_group(),
    {
        let mut command = self;
        command.own_group = true;
        command
    }
}

} // verus!
