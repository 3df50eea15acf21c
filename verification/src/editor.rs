//! A line editor: what each key does to the line and to the screen.
use vstd::prelude::*;

use crate::card::{border_row, push_border, written};
use crate::outside::{contains_control, has_control};
use crate::terminal::{no_ops, ops_view, push_op, push_print, Failure, Key, KeyInput, KeyKind, TermOp};
use crate::text::{lines, lines_of, texts};

verus! {

/// A line being edited: its characters, and the cursor, which stands in front
/// of the character with its number or behind the last one.
#[verifier::ext_equal]
pub struct EditState {
    pub text: Seq<char>,
    pub cursor: int,
}

impl EditState {
    pub open spec fn wf(self) -> bool {
        0 <= self.cursor <= self.text.len()
    }
}

/// What an editing key does to a line.
pub open spec fn edited(line: EditState, code: Key) -> EditState {
    let EditState { text, cursor } = line;
    match code {
        Key::Char(c) => EditState { text: text.insert(cursor, c), cursor: cursor + 1 },
        Key::Backspace if cursor > 0 => EditState {
            text: text.remove(cursor - 1),
            cursor: cursor - 1,
        },
        Key::Delete if cursor < text.len() => EditState { text: text.remove(cursor), cursor },
        Key::Left if cursor > 0 => EditState { text, cursor: cursor - 1 },
        Key::Right if cursor < text.len() => EditState { text, cursor: cursor + 1 },
        Key::Home => EditState { text, cursor: 0 },
        Key::End => EditState { text, cursor: text.len() as int },
        _ => line,
    }
}

/// A distance as the terminal takes it: the lowest sixteen bits.
pub open spec fn columns(distance: int) -> u16 {
    (distance % 0x10000) as u16
}

/// The operations that draw the prompt and the line anew and put the cursor
/// where it stands in the line.
pub open spec fn redraw(prompt: Seq<char>, line: EditState) -> Seq<TermOp<Seq<char>>> {
    let behind = line.text.len() - line.cursor;
    seq![
        TermOp::Print("\r"@),
        TermOp::ClearLine(Failure::ClearLine),
        TermOp::Print(prompt + line.text),
    ] + (if behind > 0 {
        seq![TermOp::MoveLeft(columns(behind), Failure::MoveCursor)]
    } else {
        seq![]
    }) + seq![TermOp::Flush(Failure::FlushStdout)]
}

/// The operations that show what an editing key has done to a line.
pub open spec fn edit_ops(prompt: Seq<char>, line: EditState, code: Key) -> Seq<
    TermOp<Seq<char>>,
> {
    let flush = TermOp::Flush(Failure::FlushStdout);
    let behind = line.text.len() - line.cursor;
    match code {
        Key::Char(_) => redraw(prompt, edited(line, code)),
        Key::Backspace if line.cursor > 0 => redraw(prompt, edited(line, code)),
        Key::Delete if behind > 0 => redraw(prompt, edited(line, code)),
        Key::Left if line.cursor > 0 => seq![TermOp::MoveLeft(1, Failure::MoveCursorLeft), flush],
        Key::Right if behind > 0 => seq![TermOp::MoveRight(1, Failure::MoveCursorRight), flush],
        Key::Home if line.cursor > 0 => seq![
            TermOp::MoveLeft(columns(line.cursor), Failure::MoveCursorToStart),
            flush,
        ],
        Key::End if behind > 0 => seq![
            TermOp::MoveRight(columns(behind), Failure::MoveCursorToEnd),
            flush,
        ],
        _ => seq![],
    }
}

/// What a key event asks for.
#[derive(Debug, Clone, Copy, PartialEq, Eq, Structural)]
pub enum KeyMeaning {
    /// Nothing.
    Nothing,
    /// Give the line up.
    Cancel,
    /// Show the output of the last command.
    ShowOutput,
    /// End the program.
    Exit,
    /// Hand the line in.
    Submit,
    /// Edit the line.
    Edit(Key),
}

/// What a key event asks for. A key that is released asks for nothing; `o`,
/// `c` and `d` have a meaning of their own together with Control.
pub open spec fn meaning_of(key: KeyInput) -> KeyMeaning {
    if key.kind == KeyKind::Release {
        KeyMeaning::Nothing
    } else if key.code == Key::Esc {
        KeyMeaning::Cancel
    } else if key.code == Key::Enter {
        KeyMeaning::Submit
    } else if key.code == Key::Char('o') && has_control(key.modifiers) {
        KeyMeaning::ShowOutput
    } else if (key.code == Key::Char('c') || key.code == Key::Char('d')) && has_control(
        key.modifiers,
    ) {
        KeyMeaning::Exit
    } else {
        KeyMeaning::Edit(key.code)
    }
}

/// What a key event asks for.
pub fn key_meaning(key: &KeyInput) -> (r: KeyMeaning)
    ensures
        r == meaning_of(*key),
{
    if key.kind == KeyKind::Release {
        return KeyMeaning::Nothing;
    }
    let control = contains_control(key.modifiers);
    match key.code {
        Key::Esc => KeyMeaning::Cancel,
        Key::Enter => KeyMeaning::Submit,
        Key::Char(c) => {
            if c == 'o' && control {
                KeyMeaning::ShowOutput
            } else if (c == 'c' || c == 'd') && control {
                KeyMeaning::Exit
            } else {
                KeyMeaning::Edit(Key::Char(c))
            }
        },
        code => KeyMeaning::Edit(code),
    }
}

/// Some lines of output, each in the colours of the output view.
pub open spec fn coloured(lines: Seq<Seq<char>>) -> Seq<char>
    decreases lines.len(),
{
    if lines.len() == 0 {
        Seq::empty()
    } else {
        coloured(lines.drop_last()) + "\x1b[38;5;235;48;5;252m"@ + lines.last() + "\x1b[0m\n"@
    }
}

/// The view of a command's output: its lines in colour between two rules, or a
/// remark where there is no output.
pub open spec fn output_view(output: Seq<char>) -> Seq<char> {
    if output.len() == 0 {
        "\x1b[38;5;244m[No command output available yet]\x1b[0m\n"@
    } else {
        "\x1b[1;30;48;5;252m--- Expanded Command Output ---\x1b[0m\n"@ + coloured(lines_of(output))
            + "\x1b[1;30;48;5;252m--------------------------------\x1b[0m\n"@
    }
}

/// The view of a command's output.
pub fn expanded_output(output: &str) -> (r: String)
    ensures
        r@ == output_view(output@),
{
    if output.is_empty() {
        return "\x1b[38;5;244m[No command output available yet]\x1b[0m\n".to_string();
    }
    let rows = lines(output);
    let mut r = "\x1b[1;30;48;5;252m--- Expanded Command Output ---\x1b[0m\n".to_string();
    let ghost head = r@;
    let mut i: usize = 0;
    assert(r@ =~= head + coloured(texts(rows@).take(0)));
    while i < rows.len()
        invariant
            i <= rows@.len(),
            r@ == head + coloured(texts(rows@).take(i as int)),
        decreases rows@.len() - i,
    {
        r.append("\x1b[38;5;235;48;5;252m");
        r.append(rows[i].as_str());
        r.append("\x1b[0m\n");
        assert(texts(rows@).take(i + 1).drop_last() =~= texts(rows@).take(i as int));
        i = i + 1;
        assert(r@ =~= head + coloured(texts(rows@).take(i as int)));
    }
    assert(texts(rows@).take(i as int) =~= texts(rows@));
    r.append("\x1b[1;30;48;5;252m--------------------------------\x1b[0m\n");
    r
}

/// What has become of a line after a key event.
#[derive(Debug, PartialEq, Eq)]
pub enum LineOutcome<T> {
    /// It is still being edited.
    Pending,
    /// It was given up.
    Cancelled,
    /// The program is to end.
    Exit,
    /// It was handed in.
    Submitted(T),
}

impl View for LineOutcome<String> {
    type V = LineOutcome<Seq<char>>;

    open spec fn view(&self) -> LineOutcome<Seq<char>> {
        match *self {
            LineOutcome::Pending => LineOutcome::Pending,
            LineOutcome::Cancelled => LineOutcome::Cancelled,
            LineOutcome::Exit => LineOutcome::Exit,
            LineOutcome::Submitted(text) => LineOutcome::Submitted(text@),
        }
    }
}

/// Whether a line is edited in a frame.
#[derive(Debug, Clone, Copy, PartialEq, Eq, Structural)]
pub enum Frame {
    /// There is no frame.
    Bare,
    /// A row of a border stands above the line and one below it, and the border
    /// goes on in front of the prompt.
    Bordered,
}

/// The width of the content that the frame of a line is made for.
pub const FRAME_WIDTH: usize = 56;

/// The row of the border that stands above a line in a frame.
pub open spec fn upper_row() -> Seq<char> {
    written(border_row("┏"@, "┓"@, FRAME_WIDTH as nat)) + "\n"@
}

/// The row of the border that stands below a line in a frame.
pub open spec fn lower_row() -> Seq<char> {
    written(border_row("┗"@, "┛"@, FRAME_WIDTH as nat)) + "\n"@
}

/// The operations that draw what stands above a line.
pub open spec fn frame_above(frame: Frame) -> Seq<TermOp<Seq<char>>> {
    match frame {
        Frame::Bare => seq![],
        Frame::Bordered => seq![TermOp::Print(upper_row())],
    }
}

/// The operations that draw what stands below a line.
pub open spec fn frame_below(frame: Frame) -> Seq<TermOp<Seq<char>>> {
    match frame {
        Frame::Bare => seq![],
        Frame::Bordered => seq![TermOp::Print(lower_row())],
    }
}

/// The prompt with what stands in front of it.
pub open spec fn framed_prompt(prompt: Seq<char>, frame: Frame) -> Seq<char> {
    match frame {
        Frame::Bare => prompt,
        Frame::Bordered => "\x1b[1;38;5;244m┃ \x1b[0m"@ + prompt,
    }
}

/// An editor: the line, the prompt in front of it and the frame round it, and
/// the output that it shows on demand.
#[verifier::ext_equal]
pub struct EditorView {
    pub prompt: Seq<char>,
    pub frame: Frame,
    pub last_output: Seq<char>,
    pub line: EditState,
}

impl EditorView {
    /// The prompt as it is shown.
    pub open spec fn shown_prompt(self) -> Seq<char> {
        framed_prompt(self.prompt, self.frame)
    }
}

/// An editor with an empty line.
pub open spec fn fresh(prompt: Seq<char>, last_output: Seq<char>, frame: Frame) -> EditorView {
    EditorView {
        prompt,
        frame,
        last_output,
        line: EditState { text: Seq::empty(), cursor: 0 },
    }
}

/// The operations that show an empty line behind its prompt, with the upper row
/// of its frame first.
pub open spec fn opening_ops(prompt: Seq<char>, frame: Frame) -> Seq<TermOp<Seq<char>>> {
    frame_above(frame) + seq![
        TermOp::Print(framed_prompt(prompt, frame)),
        TermOp::Flush(Failure::FlushStdout),
        TermOp::EnableRawMode(Failure::EnableRawMode),
    ]
}

/// The editor after a key event.
pub open spec fn pressed(editor: EditorView, key: KeyInput) -> EditorView {
    match meaning_of(key) {
        KeyMeaning::Edit(code) => EditorView { line: edited(editor.line, code), ..editor },
        _ => editor,
    }
}

/// The operations that leave the line and close its frame.
pub open spec fn leaving_ops(frame: Frame) -> Seq<TermOp<Seq<char>>> {
    seq![TermOp::DisableRawMode(Failure::DisableRawMode), TermOp::Print("\n"@)] + frame_below(
        frame,
    )
}

/// The operations that show the last output, with the frame closed above it,
/// and come back to the line, with the frame opened anew.
pub open spec fn output_ops(last_output: Seq<char>, frame: Frame) -> Seq<TermOp<Seq<char>>> {
    leaving_ops(frame) + seq![TermOp::Print(output_view(last_output))] + frame_above(frame) + seq![
        TermOp::EnableRawMode(Failure::ReenableRawMode),
    ]
}

/// The operations that a key event brings about.
pub open spec fn press_ops(editor: EditorView, key: KeyInput) -> Seq<TermOp<Seq<char>>> {
    match meaning_of(key) {
        KeyMeaning::Nothing => seq![],
        KeyMeaning::Cancel => leaving_ops(editor.frame),
        KeyMeaning::Submit => leaving_ops(editor.frame),
        KeyMeaning::Exit => leaving_ops(editor.frame) + seq![TermOp::Print("Goodbye!\n"@)],
        KeyMeaning::ShowOutput => output_ops(editor.last_output, editor.frame) + redraw(
            editor.shown_prompt(),
            editor.line,
        ),
        KeyMeaning::Edit(code) => edit_ops(editor.shown_prompt(), editor.line, code),
    }
}

/// What becomes of the line with a key event.
pub open spec fn press_outcome(editor: EditorView, key: KeyInput) -> LineOutcome<Seq<char>> {
    match meaning_of(key) {
        KeyMeaning::Cancel => LineOutcome::Cancelled,
        KeyMeaning::Exit => LineOutcome::Exit,
        KeyMeaning::Submit => LineOutcome::Submitted(editor.line.text),
        _ => LineOutcome::Pending,
    }
}

/// An editor for one line of input.
pub struct LineEditor {
    prompt: String,
    frame: Frame,
    last_output: String,
    buffer: String,
    cursor_pos: usize,
}

impl View for LineEditor {
    type V = EditorView;

    closed spec fn view(&self) -> EditorView {
        EditorView {
            prompt: self.prompt@,
            frame: self.frame,
            last_output: self.last_output@,
            line: EditState { text: self.buffer@, cursor: self.cursor_pos as int },
        }
    }
}

/// The lowest sixteen bits of a distance.
fn as_columns(distance: usize) -> (r: u16)
    ensures
        r == columns(distance as int),
{
    assert((distance as u16) as int == distance % 0x10000) by (bit_vector);
    #[verifier::truncate]
    (distance as u16)
}

/// Appends the operations that draw what stands above a line.
fn push_above(ops: &mut Vec<TermOp<String>>, frame: Frame)
    ensures
        ops_view(final(ops)@) == ops_view(old(ops)@) + frame_above(frame),
{
    match frame {
        Frame::Bare => {},
        Frame::Bordered => {
            let mut row = String::new();
            push_border(&mut row, "┏", "┓", FRAME_WIDTH);
            assert(row@ =~= upper_row());
            push_op(ops, TermOp::Print(row));
        },
    }
    assert(ops_view(ops@) =~= ops_view(old(ops)@) + frame_above(frame));
}

/// Appends the operations that draw what stands below a line.
fn push_below(ops: &mut Vec<TermOp<String>>, frame: Frame)
    ensures
        ops_view(final(ops)@) == ops_view(old(ops)@) + frame_below(frame),
{
    match frame {
        Frame::Bare => {},
        Frame::Bordered => {
            let mut row = String::new();
            push_border(&mut row, "┗", "┛", FRAME_WIDTH);
            assert(row@ =~= lower_row());
            push_op(ops, TermOp::Print(row));
        },
    }
    assert(ops_view(ops@) =~= ops_view(old(ops)@) + frame_below(frame));
}

/// Appends the operations that leave the line and close its frame.
fn push_leaving(ops: &mut Vec<TermOp<String>>, frame: Frame)
    ensures
        ops_view(final(ops)@) == ops_view(old(ops)@) + leaving_ops(frame),
{
    push_op(ops, TermOp::DisableRawMode(Failure::DisableRawMode));
    push_print(ops, "\n");
    push_below(ops, frame);
    assert(ops_view(ops@) =~= ops_view(old(ops)@) + leaving_ops(frame));
}

impl LineEditor {
    /// The cursor stands within the line or behind it.
    #[verifier::type_invariant]
    spec fn cursor_within(self) -> bool {
        self.cursor_pos <= self.buffer@.len()
    }

    /// An editor with an empty line, and the operations that show it.
    pub fn new(prompt: &str, last_output: &str, frame: Frame) -> (r: (
        LineEditor,
        Vec<TermOp<String>>,
    ))
        ensures
            r.0@ == fresh(prompt@, last_output@, frame),
            r.0@.line.wf(),
            ops_view(r.1@) == opening_ops(prompt@, frame),
    {
        let editor = LineEditor {
            prompt: prompt.to_string(),
            frame,
            last_output: last_output.to_string(),
            buffer: String::new(),
            cursor_pos: 0,
        };
        let mut ops = no_ops();
        push_above(&mut ops, frame);
        push_op(&mut ops, TermOp::Print(editor.prompt_text()));
        push_op(&mut ops, TermOp::Flush(Failure::FlushStdout));
        push_op(&mut ops, TermOp::EnableRawMode(Failure::EnableRawMode));
        assert(ops_view(ops@) =~= opening_ops(prompt@, frame));
        (editor, ops)
    }

    /// The prompt as it is shown.
    fn prompt_text(&self) -> (r: String)
        ensures
            r@ == self@.shown_prompt(),
    {
        match self.frame {
            Frame::Bare => self.prompt.clone(),
            Frame::Bordered => "\x1b[1;38;5;244m┃ \x1b[0m".to_string().concat(
                self.prompt.as_str(),
            ),
        }
    }

    /// The line as it stands.
    pub fn text(&self) -> (r: String)
        ensures
            r@ == self@.line.text,
    {
        self.buffer.clone()
    }

    /// Where the cursor stands, counted in characters.
    pub fn cursor(&self) -> (r: usize)
        ensures
            r == self@.line.cursor,
            self@.line.wf(),
    {
        proof {
            use_type_invariant(self);
        }
        self.cursor_pos
    }

    /// Appends the operations that draw the prompt and the line anew.
    fn push_redraw(&self, ops: &mut Vec<TermOp<String>>)
        ensures
            ops_view(final(ops)@) == ops_view(old(ops)@) + redraw(
                self@.shown_prompt(),
                self@.line,
            ),
    {
        proof {
            use_type_invariant(self);
        }
        let behind: usize = self.buffer.as_str().unicode_len() - self.cursor_pos;
        push_print(ops, "\r");
        push_op(ops, TermOp::ClearLine(Failure::ClearLine));
        push_op(ops, TermOp::Print(self.prompt_text().concat(self.buffer.as_str())));
        if behind > 0 {
            push_op(ops, TermOp::MoveLeft(as_columns(behind), Failure::MoveCursor));
        }
        push_op(ops, TermOp::Flush(Failure::FlushStdout));
        assert(ops_view(ops@) =~= ops_view(old(ops)@) + redraw(
                self@.shown_prompt(),
                self@.line,
            ));
    }

    /// Puts a character in front of the cursor.
    fn insert(&mut self, c: char)
        ensures
            final(self)@ == (EditorView { line: edited(old(self)@.line, Key::Char(c)), ..old(self)@ }),
    {
        proof {
            use_type_invariant(&*self);
        }
        let pos: usize = self.cursor_pos;
        let len: usize = self.buffer.as_str().unicode_len();
        let mut line = self.buffer.as_str().substring_char(0, pos).to_string();
        line.push(c);
        line.append(self.buffer.as_str().substring_char(pos, len));
        assert(line@ =~= self.buffer@.insert(pos as int, c));
        let new_len: usize = line.as_str().unicode_len();
        assert(pos < new_len);
        self.buffer = line;
        self.cursor_pos = pos + 1;
    }

    /// Takes the character with number `pos` out of the line.
    fn without(&self, pos: usize) -> (r: String)
        requires
            pos < self@.line.text.len(),
        ensures
            r@ == self@.line.text.remove(pos as int),
    {
        let len: usize = self.buffer.as_str().unicode_len();
        let mut line = self.buffer.as_str().substring_char(0, pos).to_string();
        line.append(self.buffer.as_str().substring_char(pos + 1, len));
        assert(line@ =~= self.buffer@.remove(pos as int));
        line
    }

    /// Does what an editing key asks for, and says how it is shown.
    fn edit(&mut self, code: Key) -> (ops: Vec<TermOp<String>>)
        ensures
            final(self)@ == (EditorView { line: edited(old(self)@.line, code), ..old(self)@ }),
            ops_view(ops@) == edit_ops(old(self)@.shown_prompt(), old(self)@.line, code),
    {
        proof {
            use_type_invariant(&*self);
        }
        let mut ops = no_ops();
        let pos: usize = self.cursor_pos;
        let behind: usize = self.buffer.as_str().unicode_len() - pos;
        match code {
            Key::Char(c) => {
                self.insert(c);
                self.push_redraw(&mut ops);
            },
            Key::Backspace => {
                if pos > 0 {
                    let line = self.without(pos - 1);
                    self.cursor_pos = pos - 1;
                    self.buffer = line;
                    self.push_redraw(&mut ops);
                }
            },
            Key::Delete => {
                if behind > 0 {
                    let line = self.without(pos);
                    self.buffer = line;
                    self.push_redraw(&mut ops);
                }
            },
            Key::Left => {
                if pos > 0 {
                    self.cursor_pos = pos - 1;
                    push_op(&mut ops, TermOp::MoveLeft(1, Failure::MoveCursorLeft));
                    push_op(&mut ops, TermOp::Flush(Failure::FlushStdout));
                }
            },
            Key::Right => {
                if behind > 0 {
                    self.cursor_pos = pos + 1;
                    push_op(&mut ops, TermOp::MoveRight(1, Failure::MoveCursorRight));
                    push_op(&mut ops, TermOp::Flush(Failure::FlushStdout));
                }
            },
            Key::Home => {
                if pos > 0 {
                    push_op(
                        &mut ops,
                        TermOp::MoveLeft(as_columns(pos), Failure::MoveCursorToStart),
                    );
                    self.cursor_pos = 0;
                    push_op(&mut ops, TermOp::Flush(Failure::FlushStdout));
                }
            },
            Key::End => {
                if behind > 0 {
                    push_op(
                        &mut ops,
                        TermOp::MoveRight(as_columns(behind), Failure::MoveCursorToEnd),
                    );
                    self.cursor_pos = pos + behind;
                    push_op(&mut ops, TermOp::Flush(Failure::FlushStdout));
                }
            },
            Key::Esc | Key::Enter | Key::Other => {},
        }
        ops
    }

    /// Takes a key event: changes the line, and says what is to be done on the
    /// terminal and what has become of the line.
    pub fn press(&mut self, key: &KeyInput) -> (r: (Vec<TermOp<String>>, LineOutcome<String>))
        ensures
            final(self)@ == pressed(old(self)@, *key),
            final(self)@.line.wf(),
            ops_view(r.0@) == press_ops(old(self)@, *key),
            r.1@ == press_outcome(old(self)@, *key),
    {
        proof {
            use_type_invariant(&*self);
        }
        let mut ops = no_ops();
        match key_meaning(key) {
            KeyMeaning::Nothing => (ops, LineOutcome::Pending),
            KeyMeaning::Cancel => {
                push_leaving(&mut ops, self.frame);
                assert(ops_view(ops@) =~= leaving_ops(self.frame));
                (ops, LineOutcome::Cancelled)
            },
            KeyMeaning::Submit => {
                push_leaving(&mut ops, self.frame);
                assert(ops_view(ops@) =~= leaving_ops(self.frame));
                (ops, LineOutcome::Submitted(self.buffer.clone()))
            },
            KeyMeaning::Exit => {
                push_leaving(&mut ops, self.frame);
                push_print(&mut ops, "Goodbye!\n");
                assert(ops_view(ops@) =~= press_ops(self@, *key));
                (ops, LineOutcome::Exit)
            },
            KeyMeaning::ShowOutput => {
                push_leaving(&mut ops, self.frame);
                push_op(&mut ops, TermOp::Print(expanded_output(self.last_output.as_str())));
                push_above(&mut ops, self.frame);
                push_op(&mut ops, TermOp::EnableRawMode(Failure::ReenableRawMode));
                assert(ops_view(ops@) =~= output_ops(self@.last_output, self.frame));
                self.push_redraw(&mut ops);
                (ops, LineOutcome::Pending)
            },
            KeyMeaning::Edit(code) => {
                let shown = self.edit(code);
                proof {
                    use_type_invariant(&*self);
                }
                (shown, LineOutcome::Pending)
            },
        }
    }
}

} // verus!
