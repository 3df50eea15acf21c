//! A model of what terminal operations do, for the laws about them.
use vstd::prelude::*;

use crate::terminal::{guarded, TermOp};

verus! {

/// What the operations act on: whether the terminal is in raw mode, and the
/// column of its cursor, where each printed character takes one column.
pub struct Screen {
    pub raw: bool,
    pub column: int,
}

/// The screen after one operation.
pub open spec fn performed(op: TermOp<Seq<char>>, screen: Screen) -> Screen {
    match op {
        TermOp::Print(text) => Screen {
            column: if text.len() > 0 && (text.last() == '\r' || text.last() == '\n') {
                0
            } else {
                screen.column + text.len()
            },
            ..screen
        },
        TermOp::EnableRawMode(_) => Screen { raw: true, ..screen },
        TermOp::DisableRawMode(_) => Screen { raw: false, ..screen },
        TermOp::MoveLeft(n, _) => Screen { column: screen.column - n, ..screen },
        TermOp::MoveRight(n, _) => Screen { column: screen.column + n, ..screen },
        TermOp::PrintError(_) | TermOp::Flush(_) | TermOp::ClearLine(_) => screen,
    }
}

/// The screen after some operations.
pub open spec fn performed_all(ops: Seq<TermOp<Seq<char>>>, screen: Screen) -> Screen
    decreases ops.len(),
{
    if ops.len() == 0 {
        screen
    } else {
        performed(ops.last(), performed_all(ops.drop_last(), screen))
    }
}

/// What some operations print, one text behind the other.
pub open spec fn printed(ops: Seq<TermOp<Seq<char>>>) -> Seq<char>
    decreases ops.len(),
{
    if ops.len() == 0 {
        Seq::empty()
    } else {
        printed(ops.drop_last()) + match ops.last() {
            TermOp::Print(text) => text,
            _ => Seq::empty(),
        }
    }
}

/// What is printed first stands first.
pub proof fn lemma_printed_concat(first: Seq<TermOp<Seq<char>>>, second: Seq<TermOp<Seq<char>>>)
    ensures
        printed(first + second) == printed(first) + printed(second),
    decreases second.len(),
{
    if second.len() == 0 {
        assert(first + second =~= first);
        assert(printed(first) + printed(second) =~= printed(first));
    } else {
        lemma_printed_concat(first, second.drop_last());
        assert((first + second).drop_last() =~= first + second.drop_last());
        assert(printed(first + second) =~= printed(first) + printed(second));
    }
}

/// Whatever was done before, and wherever it broke off, the guard leaves the
/// terminal out of raw mode.
pub proof fn law_the_guard_ends_raw_mode(ops: Seq<TermOp<Seq<char>>>, screen: Screen)
    ensures
        !performed_all(ops + guarded(), screen).raw,
{
    lemma_performed_concat(ops, guarded(), screen);
    reveal_with_fuel(performed_all, 2);
}

/// Operations are performed one after the other.
pub proof fn lemma_performed_concat(
    first: Seq<TermOp<Seq<char>>>,
    second: Seq<TermOp<Seq<char>>>,
    screen: Screen,
)
    ensures
        performed_all(first + second, screen) == performed_all(
            second,
            performed_all(first, screen),
        ),
    decreases second.len(),
{
    if second.len() == 0 {
        assert(first + second =~= first);
    } else {
        lemma_performed_concat(first, second.drop_last(), screen);
        assert((first + second).drop_last() =~= first + second.drop_last());
    }
}

} // verus!
