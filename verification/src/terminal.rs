//! Terminal operations that a caller performs, and keys that it reports.
use vstd::prelude::*;

verus! {

/// What it means that a terminal operation fails: nothing, or the end of what
/// is being done, with a word on what could not be done.
#[derive(Debug, Clone, Copy, PartialEq, Eq, Structural)]
pub enum Failure {
    Ignored,
    FlushStdout,
    EnableRawMode,
    ReenableRawMode,
    DisableRawMode,
    ClearLine,
    MoveCursor,
    MoveCursorLeft,
    MoveCursorRight,
    MoveCursorToStart,
    MoveCursorToEnd,
}

impl Failure {
    /// The word on a failure; none where a failure is ignored.
    pub open spec fn message(self) -> Option<Seq<char>> {
        match self {
            Failure::Ignored => None,
            Failure::FlushStdout => Some("Failed to flush stdout"@),
            Failure::EnableRawMode => Some("Failed to enable raw mode"@),
            Failure::ReenableRawMode => Some("Failed to re-enable raw mode"@),
            Failure::DisableRawMode => Some("Failed to disable raw mode"@),
            Failure::ClearLine => Some("Failed to clear line"@),
            Failure::MoveCursor => Some("Failed to move cursor"@),
            Failure::MoveCursorLeft => Some("Failed to move cursor left"@),
            Failure::MoveCursorRight => Some("Failed to move cursor right"@),
            Failure::MoveCursorToStart => Some("Failed to move cursor to start"@),
            Failure::MoveCursorToEnd => Some("Failed to move cursor to end"@),
        }
    }

    /// The word on a failure; none where a failure is ignored.
    pub fn context(self) -> (r: Option<&'static str>)
        ensures
            match r {
                Some(text) => self.message() == Some(text@),
                None => self.message() is None,
            },
    {
        match self {
            Failure::Ignored => None,
            Failure::FlushStdout => Some("Failed to flush stdout"),
            Failure::EnableRawMode => Some("Failed to enable raw mode"),
            Failure::ReenableRawMode => Some("Failed to re-enable raw mode"),
            Failure::DisableRawMode => Some("Failed to disable raw mode"),
            Failure::ClearLine => Some("Failed to clear line"),
            Failure::MoveCursor => Some("Failed to move cursor"),
            Failure::MoveCursorLeft => Some("Failed to move cursor left"),
            Failure::MoveCursorRight => Some("Failed to move cursor right"),
            Failure::MoveCursorToStart => Some("Failed to move cursor to start"),
            Failure::MoveCursorToEnd => Some("Failed to move cursor to end"),
        }
    }
}

/// One operation on the terminal. Texts are of type `T`: strings where the
/// operation is to be performed, character sequences where it is spoken about.
#[derive(Debug, PartialEq, Eq)]
pub enum TermOp<T> {
    /// Write a text to standard output.
    Print(T),
    /// Write a text to standard error.
    PrintError(T),
    /// Flush standard output.
    Flush(Failure),
    EnableRawMode(Failure),
    DisableRawMode(Failure),
    /// Clear the line that the cursor is in.
    ClearLine(Failure),
    /// Move the cursor to the left by some columns.
    MoveLeft(u16, Failure),
    /// Move the cursor to the right by some columns.
    MoveRight(u16, Failure),
}

impl View for TermOp<String> {
    type V = TermOp<Seq<char>>;

    open spec fn view(&self) -> TermOp<Seq<char>> {
        match *self {
            TermOp::Print(text) => TermOp::Print(text@),
            TermOp::PrintError(text) => TermOp::PrintError(text@),
            TermOp::Flush(failure) => TermOp::Flush(failure),
            TermOp::EnableRawMode(failure) => TermOp::EnableRawMode(failure),
            TermOp::DisableRawMode(failure) => TermOp::DisableRawMode(failure),
            TermOp::ClearLine(failure) => TermOp::ClearLine(failure),
            TermOp::MoveLeft(columns, failure) => TermOp::MoveLeft(columns, failure),
            TermOp::MoveRight(columns, failure) => TermOp::MoveRight(columns, failure),
        }
    }
}

/// The operations, with their texts as character sequences.
pub open spec fn ops_view(ops: Seq<TermOp<String>>) -> Seq<TermOp<Seq<char>>> {
    ops.map_values(|op: TermOp<String>| op@)
}

/// Appends an operation.
pub(crate) fn push_op(ops: &mut Vec<TermOp<String>>, op: TermOp<String>)
    ensures
        ops_view(final(ops)@) == ops_view(old(ops)@).push(op@),
{
    ops.push(op);
    assert(ops_view(ops@) =~= ops_view(old(ops)@).push(op@));
}

/// Appends the operation that prints `text`.
pub(crate) fn push_print(ops: &mut Vec<TermOp<String>>, text: &str)
    ensures
        ops_view(final(ops)@) == ops_view(old(ops)@).push(TermOp::Print(text@)),
{
    push_op(ops, TermOp::Print(text.to_string()));
}

/// No operations.
pub(crate) fn no_ops() -> (r: Vec<TermOp<String>>)
    ensures
        ops_view(r@) == Seq::<TermOp<Seq<char>>>::empty(),
{
    let r: Vec<TermOp<String>> = Vec::new();
    assert(ops_view(r@) =~= Seq::empty());
    r
}

/// The operations that follow whenever something was done in raw mode, whether
/// it went well or broke off.
pub open spec fn guarded() -> Seq<TermOp<Seq<char>>> {
    seq![TermOp::DisableRawMode(Failure::Ignored)]
}

/// The operations that follow whenever something was done in raw mode, whether
/// it went well or broke off.
pub fn guard_ops() -> (r: Vec<TermOp<String>>)
    ensures
        ops_view(r@) == guarded(),
{
    let mut ops = no_ops();
    push_op(&mut ops, TermOp::DisableRawMode(Failure::Ignored));
    ops
}

/// The keys that are told apart.
#[derive(Debug, Clone, Copy, PartialEq, Eq, Structural)]
pub enum Key {
    Esc,
    Enter,
    Backspace,
    Delete,
    Left,
    Right,
    Home,
    End,
    Char(char),
    Other,
}

/// What happened to a key.
#[derive(Debug, Clone, Copy, PartialEq, Eq, Structural)]
pub enum KeyKind {
    Press,
    Repeat,
    Release,
}

/// A key event. The modifiers are the bits that `crossterm` reports.
#[derive(Debug, Clone, Copy, PartialEq, Eq, Structural)]
pub struct KeyInput {
    pub code: Key,
    pub kind: KeyKind,
    pub modifiers: u8,
}

/// Whether a key event cancels a request that is under way: Esc does, when it
/// is pressed.
pub fn cancels_request(key: &KeyInput) -> (r: bool)
    ensures
        r == (key.kind == KeyKind::Press && key.code == Key::Esc),
{
    key.kind == KeyKind::Press && key.code == Key::Esc
}

/// Each failure has a word of its own, and only those that are ignored have
/// none.
pub proof fn law_each_failure_has_its_own_word(one: Failure, other: Failure)
    ensures
        one.message() is None <==> one == Failure::Ignored,
        one.message() == other.message() ==> one == other,
        Failure::FlushStdout.message() == Some("Failed to flush stdout"@),
        Failure::EnableRawMode.message() == Some("Failed to enable raw mode"@),
        Failure::ReenableRawMode.message() == Some("Failed to re-enable raw mode"@),
        Failure::DisableRawMode.message() == Some("Failed to disable raw mode"@),
        Failure::ClearLine.message() == Some("Failed to clear line"@),
        Failure::MoveCursor.message() == Some("Failed to move cursor"@),
        Failure::MoveCursorLeft.message() == Some("Failed to move cursor left"@),
        Failure::MoveCursorRight.message() == Some("Failed to move cursor right"@),
        Failure::MoveCursorToStart.message() == Some("Failed to move cursor to start"@),
        Failure::MoveCursorToEnd.message() == Some("Failed to move cursor to end"@),
{
    reveal_strlit("Failed to flush stdout");
    reveal_strlit("Failed to enable raw mode");
    reveal_strlit("Failed to re-enable raw mode");
    reveal_strlit("Failed to disable raw mode");
    reveal_strlit("Failed to clear line");
    reveal_strlit("Failed to move cursor");
    reveal_strlit("Failed to move cursor left");
    reveal_strlit("Failed to move cursor right");
    reveal_strlit("Failed to move cursor to start");
    reveal_strlit("Failed to move cursor to end");
    if one.message() == other.message() && one != Failure::Ignored {
        assert(one.message()->0.len() == other.message()->0.len());
        assert(one.message()->0[10] == other.message()->0[10]);
    }
}

} // verus!
