//! Errors: a chain of messages, from the outermost context to the cause.

use crate::text::texts;
use vstd::prelude::*;

verus! {

/// The messages of an error, the outermost first.
pub type Messages = Seq<Seq<char>>;

#[derive(Debug, PartialEq, Eq)]
pub struct Error {
    pub messages: Vec<String>,
}

impl View for Error {
    type V = Messages;

    open spec fn view(&self) -> Messages {
        texts(self.messages@)
    }
}

/// The messages on one line, with a colon between each and the next.
pub open spec fn rendered(messages: Messages) -> Seq<char>
    decreases messages.len(),
{
    if messages.len() == 0 {
        Seq::empty()
    } else if messages.len() == 1 {
        messages[0]
    } else {
        messages[0] + ": "@ + rendered(messages.skip(1))
    }
}

/// The outermost message.
pub open spec fn headline(messages: Messages) -> Seq<char> {
    if messages.len() == 0 {
        ""@
    } else {
        messages[0]
    }
}

impl Error {
    pub fn new(message: &str) -> (error: Error)
        ensures
            error@ == seq![message@],
    {
        let mut messages: Vec<String> = Vec::new();
        messages.push(message.to_owned());
        let error = Error { messages };
        assert(error@ =~= seq![message@]);
        error
    }

    /// The error with one more message around it.
    pub fn context(self, message: &str) -> (error: Error)
        ensures
            error@ == seq![message@] + self@,
    {
        let ghost before = self.messages@;
        let mut messages = self.messages;
        messages.insert(0, message.to_owned());
        let error = Error { messages };
        assert(error@ =~= seq![message@] + texts(before));
        error
    }

    /// The error with all but its outermost message dropped.
    pub fn outermost(self) -> (error: Error)
        ensures
            error@ == seq![headline(self@)],
    {
        if self.messages.len() == 0 {
            Error::new("")
        } else {
            assert(self@[0] == self.messages@[0]@);
            Error::new(self.messages[0].as_str())
        }
    }

    fn render_from(&self, at: usize) -> (text: String)
        requires
            at <= self.messages@.len(),
        ensures
            text@ == rendered(self@.skip(at as int)),
        decreases self.messages@.len() - at,
    {
        let ghost rest = self@.skip(at as int);
        if at == self.messages.len() {
            return String::new();
        }
        assert(rest[0] == self.messages@[at as int]@);
        if at + 1 == self.messages.len() {
            return self.messages[at].clone();
        }
        assert(rest.skip(1) =~= self@.skip(at + 1));
        self.messages[at].clone().concat(": ").concat(self.render_from(at + 1).as_str())
    }

    /// All the messages on one line.
    pub fn render(&self) -> (text: String)
        ensures
            text@ == rendered(self@),
    {
        assert(self@.skip(0) =~= self@);
        self.render_from(0)
    }
}

/// An executable result and the result that its contract gives.
pub open spec fn agrees<T: View>(out: Result<T, Error>, wanted: Result<T::V, Messages>) -> bool {
    match out {
        Ok(value) => wanted == Ok::<T::V, Messages>(value@),
        Err(error) => wanted == Err::<T::V, Messages>(error@),
    }
}

/// Success where the condition holds, and otherwise the message.
pub open spec fn required(condition: bool, message: Seq<char>) -> Result<(), Messages> {
    if condition {
        Ok(())
    } else {
        Err(seq![message])
    }
}

pub fn require(condition: bool, message: &str) -> (out: Result<(), Error>)
    ensures
        agrees(out, required(condition, message@)),
{
    if condition {
        Ok(())
    } else {
        Err(Error::new(message))
    }
}

} // verus!
