//! Waiting for a reply that the user may interrupt.
use vstd::prelude::*;

use crate::screen::{performed_all, Screen};
use crate::terminal::{no_ops, ops_view, push_op, push_print, Failure, TermOp};

verus! {

/// How the wait for a reply ended: with the answer or the failure of the
/// request, or interrupted by the user.
#[derive(Debug, PartialEq, Eq)]
pub enum Race {
    Answered(Result<String, String>),
    Interrupted,
}

/// The operations that start the wait. Where no chat goes on and a single query
/// is answered, there are none.
pub open spec fn start_ops(interactive: bool) -> Seq<TermOp<Seq<char>>> {
    if interactive {
        seq![
            TermOp::EnableRawMode(Failure::EnableRawMode),
            TermOp::Print("Thinking... (Press Esc to cancel)"@),
            TermOp::Flush(Failure::FlushStdout),
        ]
    } else {
        seq![]
    }
}

/// The operations that end the wait.
pub open spec fn end_ops(interactive: bool, race: Race) -> Seq<TermOp<Seq<char>>> {
    if !interactive {
        seq![]
    } else {
        match race {
            Race::Answered(_) => seq![
                TermOp::DisableRawMode(Failure::Ignored),
                TermOp::Print("\r"@),
                TermOp::ClearLine(Failure::Ignored),
                TermOp::Flush(Failure::FlushStdout),
            ],
            Race::Interrupted => seq![
                TermOp::DisableRawMode(Failure::Ignored),
                TermOp::Print("\n\x1b[31m[Thinking interrupted by user via Esc]\x1b[0m\n"@),
            ],
        }
    }
}

/// Starts the wait for a reply.
pub fn start_thinking(interactive: bool) -> (r: Vec<TermOp<String>>)
    ensures
        ops_view(r@) == start_ops(interactive),
{
    let mut ops = no_ops();
    if interactive {
        push_op(&mut ops, TermOp::EnableRawMode(Failure::EnableRawMode));
        push_print(&mut ops, "Thinking... (Press Esc to cancel)");
        push_op(&mut ops, TermOp::Flush(Failure::FlushStdout));
    }
    ops
}

/// Ends the wait for a reply: what is to be done on the terminal, and what
/// came of the request, which is no answer where the user interrupted it.
pub fn end_thinking(interactive: bool, race: Race) -> (r: (
    Vec<TermOp<String>>,
    Result<Option<String>, String>,
))
    ensures
        ops_view(r.0@) == end_ops(interactive, race),
        r.1 == match race {
            Race::Answered(Ok(answer)) => Ok(Some(answer)),
            Race::Answered(Err(error)) => Err(error),
            Race::Interrupted => Ok(None),
        },
{
    let mut ops = no_ops();
    match race {
        Race::Answered(result) => {
            if interactive {
                push_op(&mut ops, TermOp::DisableRawMode(Failure::Ignored));
                push_print(&mut ops, "\r");
                push_op(&mut ops, TermOp::ClearLine(Failure::Ignored));
                push_op(&mut ops, TermOp::Flush(Failure::FlushStdout));
            }
            match result {
                Ok(answer) => (ops, Ok(Some(answer))),
                Err(error) => (ops, Err(error)),
            }
        },
        Race::Interrupted => {
            if interactive {
                push_op(&mut ops, TermOp::DisableRawMode(Failure::Ignored));
                push_print(&mut ops, "\n\x1b[31m[Thinking interrupted by user via Esc]\x1b[0m\n");
            }
            (ops, Ok(None))
        },
    }
}

/// However the wait ends, it leaves the terminal out of raw mode if it found
/// it so.
pub proof fn law_raw_mode_ends_with_the_wait(interactive: bool, race: Race, screen: Screen)
    requires
        !screen.raw,
    ensures
        performed_all(start_ops(interactive), screen).raw == interactive,
        !performed_all(
            end_ops(interactive, race),
            performed_all(start_ops(interactive), screen),
        ).raw,
{
    reveal_with_fuel(performed_all, 5);
}

/// The status is shown while a chat waits, and only there: it is printed in raw
/// mode at the start, wiped from its line when the answer or a failure comes,
/// and followed by a word where the user interrupted the wait. A single query
/// leaves the terminal alone.
pub proof fn law_the_status_is_temporary(race: Race)
    ensures
        start_ops(false).len() == 0,
        end_ops(false, race).len() == 0,
        start_ops(true) == seq![
            TermOp::EnableRawMode(Failure::EnableRawMode),
            TermOp::Print("Thinking... (Press Esc to cancel)"@),
            TermOp::Flush(Failure::FlushStdout),
        ],
        race is Answered ==> end_ops(true, race) == seq![
            TermOp::DisableRawMode(Failure::Ignored),
            TermOp::Print("\r"@),
            TermOp::ClearLine(Failure::Ignored),
            TermOp::Flush(Failure::FlushStdout),
        ],
        race is Interrupted ==> end_ops(true, race) == seq![
            TermOp::DisableRawMode(Failure::Ignored),
            TermOp::Print("\n\x1b[31m[Thinking interrupted by user via Esc]\x1b[0m\n"@),
        ],
{
}

} // verus!
