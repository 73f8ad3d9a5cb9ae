//! What a reply of the host means.

use crate::error::Messages;
use crate::session::{
    ask_done, ask_flag, ask_instant, ask_output, ask_text, asked, no_answer_messages, printed,
    slept, Ask, HaltView, Reply, Step, Tape,
};
use vstd::prelude::*;

verus! {

/// Each reply answers one request: where there is one more it is read, and where there is
/// none the request is made, and all replies are kept.
pub proof fn every_reply_is_read_once(request: Ask, tape: Tape)
    ensures
        tape.ahead(0) matches Some(reply) ==> asked(request, tape) == (Step {
            tape: tape.later(1),
            out: Ok::<Reply, HaltView>(reply),
        }),
        tape.ahead(0) is None ==> asked(request, tape) == (Step {
            tape,
            out: Err::<Reply, HaltView>(HaltView::Pending { keep: tape.read, request }),
        }),
{
}

/// A request succeeds with the reply that answers it and with no other.
pub proof fn only_an_answer_is_taken(request: Ask, time: u64, line: Seq<char>, tape: Tape)
    ensures
        ask_done(request, tape).out is Ok <==> tape.ahead(0) == Some(Reply::Done),
        ask_flag(request, tape).out == Ok::<bool, HaltView>(true) <==> tape.ahead(0) == Some(
            Reply::Flag(true),
        ),
        ask_flag(request, tape).out == Ok::<bool, HaltView>(false) <==> tape.ahead(0) == Some(
            Reply::Flag(false),
        ),
        ask_text(request, tape).out matches Ok(text) ==> (tape.ahead(0) matches Some(
            Reply::Text(given),
        ) && given@ == text),
        (tape.ahead(0) matches Some(Reply::Text(_))) ==> ask_text(request, tape).out is Ok,
        ask_output(request, tape).out matches Ok(output) ==> tape.ahead(0) == Some(
            Reply::Output(output),
        ),
        (tape.ahead(0) matches Some(Reply::Output(_))) ==> ask_output(request, tape).out is Ok,
        ask_instant(tape).out matches Ok(now) ==> tape.ahead(0) == Some(Reply::Instant(now)),
        (tape.ahead(0) matches Some(Reply::Instant(_))) ==> ask_instant(tape).out is Ok,
        printed(line, tape).out is Ok <==> tape.ahead(0) == Some(Reply::Done),
        slept(time, tape).out is Ok <==> tape.ahead(0) == Some(Reply::Done),
        tape.ahead(0) is None ==> {
            &&& ask_done(request, tape).waits_for(request)
            &&& ask_flag(request, tape).waits_for(request)
            &&& ask_text(request, tape).waits_for(request)
            &&& ask_output(request, tape).waits_for(request)
            &&& ask_instant(tape).waits_for(Ask::Now)
            &&& printed(line, tape).waits_for(Ask::Print(line))
            &&& slept(time, tape).waits_for(Ask::Sleep(time))
        },
{
}

/// What the host could not do is told in its own words; a reply to something else is an
/// error of the dialogue.
pub proof fn the_host_is_quoted(reply: Reply, request: Ask, tape: Tape)
    requires
        tape.ahead(0) == Some(reply),
    ensures
        match reply {
            Reply::Failed(said)
            | Reply::Foreign(said)
            | Reply::Missing(said)
            | Reply::Unfed(said)
            | Reply::Unawaited(said) => {
                &&& ask_done(request, tape).refuses(said@)
                &&& ask_flag(request, tape).refuses(said@)
                &&& ask_text(request, tape).refuses(said@)
                &&& ask_output(request, tape).refuses(said@)
                &&& no_answer_messages(reply) == seq![said@]
            },
            _ => {
                &&& reply is Done || ask_done(request, tape).refuses(
                    "the host gave an unexpected reply"@,
                )
                &&& reply is Flag || ask_flag(request, tape).refuses(
                    "the host gave an unexpected reply"@,
                )
                &&& reply is Text || ask_text(request, tape).refuses(
                    "the host gave an unexpected reply"@,
                )
                &&& reply is Output || ask_output(request, tape).refuses(
                    "the host gave an unexpected reply"@,
                )
                &&& no_answer_messages(reply) == seq!["the host gave an unexpected reply"@]
            },
        },
{
}

/// What is said around an error stands before it, and nothing else of a procedure changes.
pub proof fn contexts_stand_before_the_cause<T>(step: Step<T>, message: Seq<char>)
    ensures
        step.context(message).tape == step.tape,
        step.out is Ok ==> step.context(message).out == step.out,
        step.out matches Err(HaltView::Pending { .. }) ==> step.context(message).out == step.out,
        step.out matches Err(HaltView::Failed(messages)) ==> (step.context(message).out matches Err(
            HaltView::Failed(told),
        ) && told.len() == messages.len() + 1 && told[0] == message && told.skip(1) == messages),
{
    match step.out {
        Err(HaltView::Failed(messages)) => {
            assert((seq![message] + messages).skip(1) =~= messages);
        },
        _ => {},
    }
}

/// An error that is dealt with is a value; to wait for a reply is none.
pub proof fn attempts_do_not_fail<T>(step: Step<T>)
    ensures
        step.attempt().tape == step.tape,
        step.out matches Ok(value) ==> step.attempt().out == Ok::<Result<T, Messages>, HaltView>(
            Ok(value),
        ),
        step.out matches Err(HaltView::Failed(messages)) ==> step.attempt().out == Ok::<
            Result<T, Messages>,
            HaltView,
        >(Err(messages)),
        step.out matches Err(HaltView::Pending { keep, request }) ==> step.attempt().out == Err::<
            Result<T, Messages>,
            HaltView,
        >(HaltView::Pending { keep, request }),
{
}

/// What was taken is given back at the end, whether the procedure succeeded or failed; how
/// the host replies to that changes nothing.
pub proof fn what_was_taken_is_given_back<T>(step: Step<T>, request: Ask)
    ensures
        (step.out matches Err(HaltView::Pending { .. })) ==> step.release(request) == step,
        !(step.out matches Err(HaltView::Pending { .. })) ==> {
            &&& step.tape.ahead(0) is None ==> step.release(request).waits_for(request)
            &&& step.tape.ahead(0) is Some ==> step.release(request) == (Step {
                tape: step.tape.later(1),
                out: step.out,
            })
        },
{
}

} // verus!
