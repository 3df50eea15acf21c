//! What holds of the line editor as a whole.
use vstd::prelude::*;

use crate::card::written;
use crate::editor::{
    coloured, columns, edit_ops, edited, fresh, frame_above, frame_below, framed_prompt, leaving_ops,
    lower_row, meaning_of, opening_ops, output_ops, output_view, press_ops, press_outcome, pressed,
    redraw, upper_row, EditState, EditorView, Frame, KeyMeaning, LineOutcome,
};
use crate::screen::{
    law_the_guard_ends_raw_mode, lemma_performed_concat, lemma_printed_concat, performed_all,
    printed, Screen,
};
use crate::terminal::{guarded, ops_view, Failure, Key, KeyInput, KeyKind, TermOp};
use crate::text::{lines_of, matches_at};

verus! {

/// The cursor stays within the line, whatever is pressed.
pub proof fn law_cursor_stays_within(editor: EditorView, key: KeyInput)
    requires
        editor.line.wf(),
    ensures
        pressed(editor, key).line.wf(),
{
}

/// No key changes the prompt, the frame or the output that can be shown.
pub proof fn law_keys_change_only_the_line(editor: EditorView, key: KeyInput)
    ensures
        pressed(editor, key).prompt == editor.prompt,
        pressed(editor, key).frame == editor.frame,
        pressed(editor, key).last_output == editor.last_output,
{
}

/// Only a character, Backspace and Delete change the text of a line.
pub proof fn law_moves_keep_text(line: EditState, code: Key)
    requires
        !(code is Char),
        code != Key::Backspace,
        code != Key::Delete,
    ensures
        edited(line, code).text == line.text,
{
}

/// Backspace undoes the typing of a character.
pub proof fn law_backspace_undoes_typing(line: EditState, c: char)
    requires
        line.wf(),
    ensures
        edited(edited(line, Key::Char(c)), Key::Backspace) == line,
{
    assert(line.text.insert(line.cursor, c).remove(line.cursor) =~= line.text);
}

/// Typing a character, going back over it and deleting it leaves the line as
/// it was.
pub proof fn law_delete_undoes_typing(line: EditState, c: char)
    requires
        line.wf(),
    ensures
        edited(edited(edited(line, Key::Char(c)), Key::Left), Key::Delete) == line,
{
    assert(line.text.insert(line.cursor, c).remove(line.cursor) =~= line.text);
}

/// Typing back the character that Backspace took out restores the line.
pub proof fn law_typing_undoes_backspace(line: EditState)
    requires
        line.wf(),
        line.cursor > 0,
    ensures
        edited(edited(line, Key::Backspace), Key::Char(line.text[line.cursor - 1])) == line,
{
    let i = line.cursor - 1;
    assert(line.text.remove(i).insert(i, line.text[i]) =~= line.text);
}

/// Behind a character, Backspace does what Left and Delete do.
pub proof fn law_backspace_is_left_and_delete(line: EditState)
    requires
        line.wf(),
        line.cursor > 0,
    ensures
        edited(line, Key::Backspace) == edited(edited(line, Key::Left), Key::Delete),
{
}

/// Right undoes Left wherever Left does something, and the other way round.
pub proof fn law_left_and_right_undo_each_other(line: EditState)
    requires
        line.wf(),
    ensures
        line.cursor > 0 ==> edited(edited(line, Key::Left), Key::Right) == line,
        line.cursor < line.text.len() ==> edited(edited(line, Key::Right), Key::Left) == line,
{
}

/// Whether a key event types the character `c`.
pub open spec fn types(key: KeyInput, c: char) -> bool {
    meaning_of(key) == KeyMeaning::Edit(Key::Char(c))
}

/// The editor after some key events.
pub open spec fn pressed_all(editor: EditorView, keys: Seq<KeyInput>) -> EditorView
    decreases keys.len(),
{
    if keys.len() == 0 {
        editor
    } else {
        pressed(pressed_all(editor, keys.drop_last()), keys.last())
    }
}

/// Keys that type a text put that text in front of the cursor.
pub proof fn law_typed_text_stands_at_the_cursor(
    editor: EditorView,
    keys: Seq<KeyInput>,
    typed: Seq<char>,
)
    requires
        editor.line.wf(),
        keys.len() == typed.len(),
        forall|i: int| 0 <= i < keys.len() ==> types(#[trigger] keys[i], typed[i]),
    ensures
        pressed_all(editor, keys) == (EditorView {
            line: EditState {
                text: editor.line.text.take(editor.line.cursor) + typed + editor.line.text.skip(
                    editor.line.cursor,
                ),
                cursor: editor.line.cursor + typed.len(),
            },
            ..editor
        }),
    decreases keys.len(),
{
    let EditState { text, cursor } = editor.line;
    if keys.len() == 0 {
        assert(text.take(cursor) + typed + text.skip(cursor) =~= text);
    } else {
        law_typed_text_stands_at_the_cursor(editor, keys.drop_last(), typed.drop_last());
        let before = pressed_all(editor, keys.drop_last());
        assert(types(keys.last(), typed.last()));
        assert(before.line.text.insert(before.line.cursor, typed.last()) =~= text.take(cursor)
            + typed + text.skip(cursor));
    }
}

/// What is typed into an empty line is what Enter hands in.
pub proof fn law_enter_hands_in_what_was_typed(
    editor: EditorView,
    keys: Seq<KeyInput>,
    typed: Seq<char>,
    enter: KeyInput,
)
    requires
        editor.line == (EditState { text: Seq::empty(), cursor: 0 }),
        keys.len() == typed.len(),
        forall|i: int| 0 <= i < keys.len() ==> types(#[trigger] keys[i], typed[i]),
        enter.code == Key::Enter,
        enter.kind != KeyKind::Release,
    ensures
        press_outcome(pressed_all(editor, keys), enter) == LineOutcome::Submitted(typed),
{
    law_typed_text_stands_at_the_cursor(editor, keys, typed);
    assert(Seq::<char>::empty().take(0) + typed + Seq::<char>::empty().skip(0) =~= typed);
}

/// At the start of a line the terminal is put in raw mode, and its cursor
/// stands behind the prompt, in which no line break may stand.
pub proof fn law_a_line_starts_behind_its_prompt(
    prompt: Seq<char>,
    frame: Frame,
    screen: Screen,
)
    requires
        screen.column == 0,
        in_one_row(prompt),
    ensures
        performed_all(opening_ops(prompt, frame), screen) == (Screen {
            raw: true,
            column: framed_prompt(prompt, frame).len() as int,
        }),
{
    let own = seq![
        TermOp::Print(framed_prompt(prompt, frame)),
        TermOp::Flush(Failure::FlushStdout),
        TermOp::EnableRawMode(Failure::EnableRawMode),
    ];
    lemma_frame_rows(frame, screen);
    lemma_framed_prompt(prompt, frame);
    lemma_performed_concat(frame_above(frame), own, screen);
    reveal_with_fuel(performed_all, 4);
}

/// The frame changes nothing about where a prompt ends.
proof fn lemma_framed_prompt(prompt: Seq<char>, frame: Frame)
    requires
        in_one_row(prompt),
    ensures
        in_one_row(framed_prompt(prompt, frame)),
{
    reveal_strlit("\x1b[1;38;5;244m┃ \x1b[0m");
}

/// Rows of a frame leave the terminal's mode as it is and, drawn from the
/// first column, its cursor there too.
proof fn lemma_frame_rows(frame: Frame, screen: Screen)
    ensures
        performed_all(frame_above(frame), screen).raw == screen.raw,
        performed_all(frame_below(frame), screen).raw == screen.raw,
        screen.column == 0 ==> performed_all(frame_above(frame), screen).column == 0,
        screen.column == 0 ==> performed_all(frame_below(frame), screen).column == 0,
{
    reveal_strlit("\n");
    reveal_with_fuel(performed_all, 2);
    assert(upper_row().last() == '\n');
    assert(lower_row().last() == '\n');
}

/// Leaving the line ends raw mode and puts the cursor at the start of a row.
proof fn lemma_leaving(frame: Frame, screen: Screen)
    ensures
        !performed_all(leaving_ops(frame), screen).raw,
        performed_all(leaving_ops(frame), screen).column == 0,
{
    let start = seq![
        TermOp::DisableRawMode(Failure::DisableRawMode),
        TermOp::<Seq<char>>::Print("\n"@),
    ];
    reveal_strlit("\n");
    reveal_with_fuel(performed_all, 3);
    lemma_performed_concat(start, frame_below(frame), screen);
    lemma_frame_rows(frame, performed_all(start, screen));
}

/// Having shown the output, the terminal is in raw mode again.
proof fn lemma_output(last_output: Seq<char>, frame: Frame, screen: Screen)
    ensures
        performed_all(output_ops(last_output, frame), screen).raw,
{
    let back = seq![TermOp::<Seq<char>>::EnableRawMode(Failure::ReenableRawMode)];
    lemma_performed_concat(
        leaving_ops(frame) + seq![TermOp::Print(output_view(last_output))] + frame_above(frame),
        back,
        screen,
    );
    reveal_with_fuel(performed_all, 2);
}

/// Between key events the terminal is in raw mode, and once the line is done
/// with it is not.
pub proof fn law_raw_mode_while_pending(editor: EditorView, key: KeyInput, screen: Screen)
    requires
        screen.raw,
    ensures
        performed_all(press_ops(editor, key), screen).raw <==> press_outcome(editor, key)
            is Pending,
{
    let prompt = editor.shown_prompt();
    match meaning_of(key) {
        KeyMeaning::ShowOutput => {
            let start = output_ops(editor.last_output, editor.frame);
            lemma_output(editor.last_output, editor.frame, screen);
            lemma_performed_concat(start, redraw(prompt, editor.line), screen);
            lemma_redraw(prompt, editor.line, performed_all(start, screen));
        },
        KeyMeaning::Exit => {
            let word = seq![TermOp::<Seq<char>>::Print("Goodbye!\n"@)];
            lemma_leaving(editor.frame, screen);
            lemma_performed_concat(leaving_ops(editor.frame), word, screen);
            reveal_with_fuel(performed_all, 2);
        },
        KeyMeaning::Cancel | KeyMeaning::Submit => {
            lemma_leaving(editor.frame, screen);
        },
        KeyMeaning::Edit(code) => {
            reveal_with_fuel(performed_all, 3);
            if redraws(editor.line, key) {
                lemma_redraw(prompt, edited(editor.line, code), screen);
            }
        },
        KeyMeaning::Nothing => {},
    }
}

/// If showing a line breaks off, raw mode has not been entered, for that comes
/// last.
pub proof fn law_raw_mode_stays_off_if_the_opening_fails(
    prompt: Seq<char>,
    frame: Frame,
    n: int,
    screen: Screen,
)
    requires
        !screen.raw,
        0 <= n < opening_ops(prompt, frame).len(),
    ensures
        !performed_all(opening_ops(prompt, frame).take(n), screen).raw,
{
    let done = opening_ops(prompt, frame).take(n);
    lemma_raw_mode_not_entered(done, screen);
}

/// Where nothing enters raw mode, a terminal that is out of it stays out.
proof fn lemma_raw_mode_not_entered(ops: Seq<TermOp<Seq<char>>>, screen: Screen)
    requires
        !screen.raw,
        forall|i: int| 0 <= i < ops.len() ==> !(#[trigger] ops[i] is EnableRawMode),
    ensures
        !performed_all(ops, screen).raw,
    decreases ops.len(),
{
    if ops.len() > 0 {
        let before = ops.drop_last();
        assert forall|i: int| 0 <= i < before.len() implies !(
        #[trigger] before[i] is EnableRawMode) by {
            assert(before[i] == ops[i]);
        }
        lemma_raw_mode_not_entered(before, screen);
        assert(!(ops[ops.len() - 1] is EnableRawMode));
    }
}

/// The operations of some key events, one behind the other.
pub open spec fn press_all_ops(editor: EditorView, keys: Seq<KeyInput>) -> Seq<TermOp<Seq<char>>>
    decreases keys.len(),
{
    if keys.len() == 0 {
        Seq::empty()
    } else {
        press_all_ops(editor, keys.drop_last()) + press_ops(
            pressed_all(editor, keys.drop_last()),
            keys.last(),
        )
    }
}

/// However the reading of a line ends once it has been shown, raw mode is off
/// afterwards: after any key events, with the operations of the last one broken
/// off anywhere, or not even begun because no further key could be read, or all
/// done, the guard sees to it.
pub proof fn law_raw_mode_is_off_however_reading_ends(
    editor: EditorView,
    keys: Seq<KeyInput>,
    last: KeyInput,
    n: int,
    screen: Screen,
)
    requires
        0 <= n <= press_ops(pressed_all(editor, keys), last).len(),
    ensures
        !performed_all(
            opening_ops(editor.prompt, editor.frame) + press_all_ops(editor, keys) + press_ops(
                pressed_all(editor, keys),
                last,
            ).take(n) + guarded(),
            screen,
        ).raw,
{
    law_the_guard_ends_raw_mode(
        opening_ops(editor.prompt, editor.frame) + press_all_ops(editor, keys) + press_ops(
            pressed_all(editor, keys),
            last,
        ).take(n),
        screen,
    );
}

/// What drawing the prompt and the line anew does to the screen.
proof fn lemma_redraw(prompt: Seq<char>, line: EditState, screen: Screen)
    ensures
        performed_all(redraw(prompt, line), screen).raw == screen.raw,
        line.wf() && line.text.len() - line.cursor < 0x10000 && in_one_row(prompt + line.text)
            ==> performed_all(redraw(prompt, line), screen).column == prompt.len() + line.cursor,
{
    reveal_strlit("\r");
    reveal_with_fuel(performed_all, 6);
    let behind = line.text.len() - line.cursor;
    let start = seq![
        TermOp::Print("\r"@),
        TermOp::ClearLine(Failure::ClearLine),
        TermOp::Print(prompt + line.text),
    ];
    let middle: Seq<TermOp<Seq<char>>> = if behind > 0 {
        seq![TermOp::MoveLeft(columns(behind), Failure::MoveCursor)]
    } else {
        seq![]
    };
    let flush = seq![TermOp::<Seq<char>>::Flush(Failure::FlushStdout)];
    lemma_performed_concat(start + middle, flush, screen);
    lemma_performed_concat(start, middle, screen);
}

/// Whether a text stays in the row in which it is printed.
pub open spec fn in_one_row(text: Seq<char>) -> bool {
    forall|i: int| 0 <= i < text.len() ==> #[trigger] text[i] != '\r' && text[i] != '\n'
}

/// Whether a key event has the line drawn anew.
pub open spec fn redraws(line: EditState, key: KeyInput) -> bool {
    match meaning_of(key) {
        KeyMeaning::ShowOutput => true,
        KeyMeaning::Edit(Key::Char(_)) => true,
        KeyMeaning::Edit(Key::Backspace) => line.cursor > 0,
        KeyMeaning::Edit(Key::Delete) => line.cursor < line.text.len(),
        _ => false,
    }
}

/// The longest way that the terminal's cursor is moved at a key event.
pub open spec fn moved_by(editor: EditorView, key: KeyInput) -> int {
    let line = pressed(editor, key).line;
    match meaning_of(key) {
        KeyMeaning::Edit(Key::Home) => editor.line.cursor,
        KeyMeaning::Edit(Key::End) => editor.line.text.len() - editor.line.cursor,
        _ => if redraws(editor.line, key) {
            line.text.len() - line.cursor
        } else {
            1
        },
    }
}

/// The terminal's cursor stands where the editor's cursor stands: as many
/// columns behind the prompt as there are characters in front of it. The two
/// part where the cursor would have to be moved by 65,536 columns or more, and
/// where a line with a line break in it, or in its prompt, is drawn.
pub proof fn law_screen_cursor_follows(editor: EditorView, key: KeyInput, screen: Screen)
    requires
        editor.line.wf(),
        screen.column == editor.shown_prompt().len() + editor.line.cursor,
        press_outcome(editor, key) is Pending,
        moved_by(editor, key) < 0x10000,
        redraws(editor.line, key) ==> in_one_row(
            editor.shown_prompt() + pressed(editor, key).line.text,
        ),
    ensures
        performed_all(press_ops(editor, key), screen).column == editor.shown_prompt().len()
            + pressed(editor, key).line.cursor,
{
    let prompt = editor.shown_prompt();
    match meaning_of(key) {
        KeyMeaning::ShowOutput => {
            let start = output_ops(editor.last_output, editor.frame);
            lemma_performed_concat(start, redraw(prompt, editor.line), screen);
            lemma_redraw(prompt, editor.line, performed_all(start, screen));
        },
        KeyMeaning::Edit(code) => {
            reveal_with_fuel(performed_all, 3);
            if redraws(editor.line, key) {
                lemma_redraw(prompt, edited(editor.line, code), screen);
            }
        },
        _ => {},
    }
}

/// Each key that changes the text has the whole line drawn anew.
pub proof fn law_a_changed_text_is_redrawn(editor: EditorView, key: KeyInput)
    requires
        editor.line.wf(),
        pressed(editor, key).line.text != editor.line.text,
    ensures
        press_ops(editor, key) == redraw(editor.shown_prompt(), pressed(editor, key).line),
{
}

/// Whether no line feed stands in a text.
pub open spec fn one_line(text: Seq<char>) -> bool {
    forall|i: int| 0 <= i < text.len() ==> #[trigger] text[i] != '\n'
}

/// Whether a text ends in a row that stands directly below the upper row of a
/// frame and holds a prompt, at position `at` of the row.
pub open spec fn stands_below(
    text: Seq<char>,
    before: Seq<char>,
    row: Seq<char>,
    prompt: Seq<char>,
    at: int,
) -> bool {
    &&& text == before + upper_row() + row
    &&& one_line(row)
    &&& matches_at(row, prompt, at)
}

/// What follows in the same row does not move it from its place.
proof fn lemma_row_goes_on(
    text: Seq<char>,
    before: Seq<char>,
    row: Seq<char>,
    prompt: Seq<char>,
    at: int,
    more: Seq<char>,
)
    requires
        stands_below(text, before, row, prompt, at),
        one_line(more),
    ensures
        stands_below(text + more, before, row + more, prompt, at),
{
    assert(text + more =~= before + upper_row() + (row + more));
    assert((row + more).subrange(at, at + prompt.len()) =~= row.subrange(at, at + prompt.len()));
}

/// What drawing the prompt and the line anew prints.
proof fn lemma_redraw_prints(prompt: Seq<char>, line: EditState)
    ensures
        printed(redraw(prompt, line)) == "\r"@ + (prompt + line.text),
{
    let start = seq![
        TermOp::Print("\r"@),
        TermOp::ClearLine(Failure::ClearLine),
        TermOp::Print(prompt + line.text),
    ];
    let behind = line.text.len() - line.cursor;
    let middle: Seq<TermOp<Seq<char>>> = if behind > 0 {
        seq![TermOp::MoveLeft(columns(behind), Failure::MoveCursor)]
    } else {
        seq![]
    };
    let flush = seq![TermOp::<Seq<char>>::Flush(Failure::FlushStdout)];
    reveal_with_fuel(printed, 4);
    lemma_printed_concat(start + middle, flush);
    lemma_printed_concat(start, middle);
    assert(printed(start) =~= "\r"@ + (prompt + line.text));
    assert(printed(redraw(prompt, line)) =~= printed(start));
}

/// What leaving a line in a frame prints.
proof fn lemma_leaving_prints()
    ensures
        printed(leaving_ops(Frame::Bordered)) == "\n"@ + lower_row(),
{
    let start = seq![
        TermOp::DisableRawMode(Failure::DisableRawMode),
        TermOp::<Seq<char>>::Print("\n"@),
    ];
    lemma_printed_concat(start, frame_below(Frame::Bordered));
    reveal_with_fuel(printed, 3);
    assert(printed(start) =~= "\n"@);
    assert(printed(frame_below(Frame::Bordered)) =~= lower_row());
}

/// What is printed up to the redrawing when the output is shown ends with the
/// upper row of the frame.
proof fn lemma_output_prints(last_output: Seq<char>)
    ensures
        printed(output_ops(last_output, Frame::Bordered)) == "\n"@ + lower_row() + output_view(
            last_output,
        ) + upper_row(),
{
    let leaving = leaving_ops(Frame::Bordered);
    let shown = seq![TermOp::Print(output_view(last_output))];
    let above = frame_above(Frame::Bordered);
    let back = seq![TermOp::<Seq<char>>::EnableRawMode(Failure::ReenableRawMode)];
    lemma_printed_concat(leaving + shown + above, back);
    lemma_printed_concat(leaving + shown, above);
    lemma_printed_concat(leaving, shown);
    lemma_leaving_prints();
    reveal_with_fuel(printed, 2);
    assert(printed(shown) =~= output_view(last_output));
    assert(printed(above) =~= upper_row());
    assert(printed(back) =~= Seq::<char>::empty());
    assert(printed(output_ops(last_output, Frame::Bordered)) =~= "\n"@ + lower_row() + output_view(
        last_output,
    ) + upper_row());
}

/// Whether a key event goes on with a line and types no line feed into it.
pub open spec fn goes_on(key: KeyInput) -> bool {
    match meaning_of(key) {
        KeyMeaning::Cancel | KeyMeaning::Submit | KeyMeaning::Exit => false,
        KeyMeaning::Edit(code) => code != Key::Char('\n'),
        KeyMeaning::Nothing | KeyMeaning::ShowOutput => true,
    }
}

/// Whether a key event ends a line.
pub open spec fn ends(key: KeyInput) -> bool {
    match meaning_of(key) {
        KeyMeaning::Cancel | KeyMeaning::Submit | KeyMeaning::Exit => true,
        _ => false,
    }
}

/// A line goes on in its place below the upper row, or in a new one like it.
proof fn lemma_a_key_keeps_the_place(
    editor: EditorView,
    key: KeyInput,
    text: Seq<char>,
    before: Seq<char>,
    row: Seq<char>,
    at: int,
) -> (place: (Seq<char>, Seq<char>, int))
    requires
        editor.frame == Frame::Bordered,
        editor.line.wf(),
        one_line(editor.prompt),
        one_line(editor.line.text),
        goes_on(key),
        stands_below(text, before, row, editor.shown_prompt(), at),
    ensures
        one_line(pressed(editor, key).line.text),
        stands_below(
            text + printed(press_ops(editor, key)),
            place.0,
            place.1,
            editor.shown_prompt(),
            place.2,
        ),
{
    let prompt = editor.shown_prompt();
    let after = pressed(editor, key).line;
    let ops = press_ops(editor, key);
    reveal_strlit("\x1b[1;38;5;244m┃ \x1b[0m");
    reveal_strlit("\r");
    assert(one_line(prompt));
    let drawn = "\r"@ + (prompt + after.text);
    assert(one_line(drawn));
    match meaning_of(key) {
        KeyMeaning::ShowOutput => {
            lemma_printed_concat(
                output_ops(editor.last_output, Frame::Bordered),
                redraw(prompt, editor.line),
            );
            lemma_output_prints(editor.last_output);
            lemma_redraw_prints(prompt, editor.line);
            let head = text + ("\n"@ + lower_row() + output_view(editor.last_output));
            assert(text + printed(ops) =~= head + upper_row() + drawn);
            assert(drawn.subrange(1, 1int + prompt.len()) =~= prompt);
            (head, drawn, 1)
        },
        KeyMeaning::Edit(code) => {
            if redraws(editor.line, key) {
                lemma_redraw_prints(prompt, after);
                lemma_row_goes_on(text, before, row, prompt, at, drawn);
                (before, row + drawn, at)
            } else {
                reveal_with_fuel(printed, 3);
                assert(printed(ops) =~= Seq::<char>::empty());
                assert(text + printed(ops) =~= text);
                (before, row, at)
            }
        },
        _ => {
            assert(text + printed(ops) =~= text);
            (before, row, at)
        },
    }
}

/// After its opening and some key events, a line stands below the upper row.
proof fn lemma_a_line_stands_below_the_upper_row(
    prompt: Seq<char>,
    last_output: Seq<char>,
    keys: Seq<KeyInput>,
) -> (place: (Seq<char>, Seq<char>, int))
    requires
        one_line(prompt),
        forall|i: int| 0 <= i < keys.len() ==> goes_on(#[trigger] keys[i]),
    ensures
        ({
            let editor = fresh(prompt, last_output, Frame::Bordered);
            let now = pressed_all(editor, keys);
            &&& now == EditorView { line: now.line, ..editor }
            &&& now.line.wf()
            &&& one_line(now.line.text)
            &&& stands_below(
                printed(opening_ops(prompt, Frame::Bordered) + press_all_ops(editor, keys)),
                place.0,
                place.1,
                framed_prompt(prompt, Frame::Bordered),
                place.2,
            )
        }),
    decreases keys.len(),
{
    let editor = fresh(prompt, last_output, Frame::Bordered);
    let shown = framed_prompt(prompt, Frame::Bordered);
    let start = opening_ops(prompt, Frame::Bordered);
    if keys.len() == 0 {
        let own = seq![
            TermOp::Print(shown),
            TermOp::Flush(Failure::FlushStdout),
            TermOp::EnableRawMode(Failure::EnableRawMode),
        ];
        lemma_printed_concat(frame_above(Frame::Bordered), own);
        reveal_with_fuel(printed, 4);
        assert(printed(own) =~= shown);
        assert(printed(frame_above(Frame::Bordered)) =~= upper_row());
        assert(start + press_all_ops(editor, keys) =~= start);
        assert(printed(start) =~= Seq::<char>::empty() + upper_row() + shown);
        reveal_strlit("\x1b[1;38;5;244m┃ \x1b[0m");
        assert(shown.subrange(0, shown.len() as int) =~= shown);
        (Seq::empty(), shown, 0)
    } else {
        let earlier = keys.drop_last();
        assert forall|i: int| 0 <= i < earlier.len() implies goes_on(#[trigger] earlier[i]) by {
            assert(earlier[i] == keys[i]);
        }
        assert(goes_on(keys[keys.len() - 1]));
        let (before, row, at) = lemma_a_line_stands_below_the_upper_row(
            prompt,
            last_output,
            earlier,
        );
        let was = pressed_all(editor, earlier);
        let own = press_ops(was, keys.last());
        let text = printed(start + press_all_ops(editor, earlier));
        lemma_printed_concat(start + press_all_ops(editor, earlier), own);
        assert(start + press_all_ops(editor, keys) =~= start + press_all_ops(editor, earlier)
            + own);
        lemma_a_key_keeps_the_place(was, keys.last(), text, before, row, at)
    }
}

/// The prompt of a line in a frame stands between the two rows of the border:
/// over the whole life of a line, up to and including the key event that ends
/// it, the row that holds the prompt is printed directly behind the upper row,
/// and directly behind it comes the lower row. No line feed may stand in the
/// prompt or be typed.
pub proof fn law_a_framed_prompt_stands_between_its_borders(
    prompt: Seq<char>,
    last_output: Seq<char>,
    keys: Seq<KeyInput>,
    last: KeyInput,
)
    requires
        one_line(prompt),
        forall|i: int| 0 <= i < keys.len() ==> goes_on(#[trigger] keys[i]),
        ends(last),
    ensures
        ({
            let editor = fresh(prompt, last_output, Frame::Bordered);
            let ops = opening_ops(prompt, Frame::Bordered) + press_all_ops(
                editor,
                keys.push(last),
            );
            let farewell = if meaning_of(last) == KeyMeaning::Exit {
                "Goodbye!\n"@
            } else {
                Seq::empty()
            };
            exists|text: Seq<char>, before: Seq<char>, row: Seq<char>, at: int|
                #[trigger] stands_below(
                    text,
                    before,
                    row,
                    framed_prompt(prompt, Frame::Bordered),
                    at,
                ) && printed(ops) == text + "\n"@ + lower_row() + farewell
        }),
{
    let editor = fresh(prompt, last_output, Frame::Bordered);
    let start = opening_ops(prompt, Frame::Bordered);
    let (before, row, at) = lemma_a_line_stands_below_the_upper_row(prompt, last_output, keys);
    let now = pressed_all(editor, keys);
    let own = press_ops(now, last);
    let text = printed(start + press_all_ops(editor, keys));
    assert(keys.push(last).drop_last() =~= keys);
    assert(start + press_all_ops(editor, keys.push(last)) =~= start + press_all_ops(editor, keys)
        + own);
    lemma_printed_concat(start + press_all_ops(editor, keys), own);
    lemma_leaving_prints();
    let farewell = if meaning_of(last) == KeyMeaning::Exit {
        "Goodbye!\n"@
    } else {
        Seq::empty()
    };
    if meaning_of(last) == KeyMeaning::Exit {
        let word = seq![TermOp::<Seq<char>>::Print("Goodbye!\n"@)];
        lemma_printed_concat(leaving_ops(Frame::Bordered), word);
        reveal_with_fuel(printed, 2);
        assert(printed(word) =~= "Goodbye!\n"@);
    }
    assert(printed(start + press_all_ops(editor, keys.push(last))) =~= text + "\n"@ + lower_row()
        + farewell);
    assert(stands_below(text, before, row, framed_prompt(prompt, Frame::Bordered), at));
}

/// A character that is typed comes to stand where the cursor was, and the cursor
/// behind it; what stood in front stays, and what stood behind moves on by one.
pub proof fn law_a_typed_character_stands_where_the_cursor_was(line: EditState, c: char)
    requires
        line.wf(),
    ensures
        ({
            let after = edited(line, Key::Char(c));
            &&& after.text.len() == line.text.len() + 1
            &&& after.cursor == line.cursor + 1
            &&& after.text[line.cursor] == c
            &&& forall|i: int| 0 <= i < line.cursor ==> #[trigger] after.text[i] == line.text[i]
            &&& forall|i: int|
                line.cursor < i < after.text.len() ==> #[trigger] after.text[i] == line.text[i - 1]
        }),
{
}

/// Backspace takes the one character in front of the cursor out and moves the
/// cursor to its place. At the start of a line it does nothing.
pub proof fn law_backspace_takes_the_character_in_front(line: EditState)
    requires
        line.wf(),
    ensures
        line.cursor == 0 ==> edited(line, Key::Backspace) == line,
        line.cursor > 0 ==> ({
            let after = edited(line, Key::Backspace);
            &&& after.text.len() == line.text.len() - 1
            &&& after.cursor == line.cursor - 1
            &&& forall|i: int|
                0 <= i < after.cursor ==> #[trigger] after.text[i] == line.text[i]
            &&& forall|i: int|
                after.cursor <= i < after.text.len() ==> #[trigger] after.text[i] == line.text[i
                    + 1]
        }),
{
}

/// Delete takes the one character behind the cursor out and leaves the cursor
/// where it is. At the end of a line it does nothing.
pub proof fn law_delete_takes_the_character_behind(line: EditState)
    requires
        line.wf(),
    ensures
        line.cursor == line.text.len() ==> edited(line, Key::Delete) == line,
        line.cursor < line.text.len() ==> ({
            let after = edited(line, Key::Delete);
            &&& after.text.len() == line.text.len() - 1
            &&& after.cursor == line.cursor
            &&& forall|i: int|
                0 <= i < after.cursor ==> #[trigger] after.text[i] == line.text[i]
            &&& forall|i: int|
                after.cursor <= i < after.text.len() ==> #[trigger] after.text[i] == line.text[i
                    + 1]
        }),
{
}

/// Left and Right move the cursor by one character as far as the line goes, Home
/// puts it in front of the first character and End behind the last. No other
/// key moves anything.
pub proof fn law_moves_put_the_cursor_where_they_say(line: EditState)
    requires
        line.wf(),
    ensures
        edited(line, Key::Left).cursor == if line.cursor > 0 {
            line.cursor - 1
        } else {
            0
        },
        edited(line, Key::Right).cursor == if line.cursor < line.text.len() {
            line.cursor + 1
        } else {
            line.text.len() as int
        },
        edited(line, Key::Home).cursor == 0,
        edited(line, Key::End).cursor == line.text.len(),
        edited(line, Key::Left).text == line.text,
        edited(line, Key::Right).text == line.text,
        edited(line, Key::Home).text == line.text,
        edited(line, Key::End).text == line.text,
        edited(line, Key::Other) == line,
        edited(line, Key::Esc) == line,
        edited(line, Key::Enter) == line,
{
}

/// Enter hands in the whole line, wherever the cursor stands, and Esc gives it
/// up, with or without modifiers. Neither changes it.
pub proof fn law_enter_hands_in_the_whole_line(editor: EditorView, key: KeyInput)
    requires
        key.kind != KeyKind::Release,
    ensures
        key.code == Key::Enter ==> press_outcome(editor, key) == LineOutcome::Submitted(
            editor.line.text,
        ) && pressed(editor, key) == editor,
        key.code == Key::Esc ==> press_outcome(editor, key) == LineOutcome::<Seq<char>>::Cancelled
            && pressed(editor, key) == editor,
{
}

/// A line is handed in only by Enter, given up only by Esc, and the program ends
/// only on Control with `c` or `d`, in each case when the key is not released.
pub proof fn law_a_line_ends_only_on_its_keys(editor: EditorView, key: KeyInput)
    ensures
        press_outcome(editor, key) is Submitted <==> key.code == Key::Enter && key.kind
            != KeyKind::Release,
        press_outcome(editor, key) is Cancelled <==> key.code == Key::Esc && key.kind
            != KeyKind::Release,
        press_outcome(editor, key) is Exit <==> (key.code == Key::Char('c') || key.code
            == Key::Char('d')) && key.modifiers & 2 == 2 && key.kind != KeyKind::Release,
{
}

/// A key that is released does nothing at all.
pub proof fn law_released_keys_do_nothing(editor: EditorView, key: KeyInput)
    requires
        key.kind == KeyKind::Release,
    ensures
        pressed(editor, key) == editor,
        press_ops(editor, key).len() == 0,
        press_outcome(editor, key) is Pending,
{
}

/// Every other key edits the line: all but Enter and Esc, and but `o`, `c` and
/// `d` with Control, whatever other modifiers are held.
pub proof fn law_every_other_key_edits(editor: EditorView, key: KeyInput)
    requires
        key.kind != KeyKind::Release,
        key.code != Key::Enter,
        key.code != Key::Esc,
        key.modifiers & 2 == 2 ==> key.code != Key::Char('o') && key.code != Key::Char('c')
            && key.code != Key::Char('d'),
    ensures
        press_outcome(editor, key) is Pending,
        pressed(editor, key) == (EditorView { line: edited(editor.line, key.code), ..editor }),
        press_ops(editor, key) == edit_ops(editor.shown_prompt(), editor.line, key.code),
{
}

/// What is drawn is the prompt and the whole line, in a row that was cleared,
/// and the cursor is then moved back over what stands behind it.
pub proof fn law_redrawing_shows_the_whole_line(prompt: Seq<char>, line: EditState)
    requires
        line.wf(),
    ensures
        ({
            let ops = redraw(prompt, line);
            let behind = line.text.len() - line.cursor;
            &&& ops.len() == if behind > 0 {
                5int
            } else {
                4int
            }
            &&& ops[0] == TermOp::Print("\r"@)
            &&& ops[1] == TermOp::<Seq<char>>::ClearLine(Failure::ClearLine)
            &&& ops[2] == TermOp::Print(prompt + line.text)
            &&& behind > 0 ==> (ops[3] matches TermOp::MoveLeft(n, Failure::MoveCursor) && n
                == behind % 0x10000)
            &&& ops.last() == TermOp::<Seq<char>>::Flush(Failure::FlushStdout)
        }),
{
}

/// Keys that only move the cursor have the terminal move its cursor by as much
/// and in the same direction, and say so to the screen at once; where the cursor
/// does not move, nothing is done.
pub proof fn law_moves_are_shown_as_moves(prompt: Seq<char>, line: EditState, code: Key)
    requires
        line.wf(),
        code == Key::Left || code == Key::Right || code == Key::Home || code == Key::End,
    ensures
        ({
            let ops = edit_ops(prompt, line, code);
            let way = edited(line, code).cursor - line.cursor;
            &&& way == 0 ==> ops.len() == 0
            &&& way != 0 ==> ops.len() == 2 && ops[1] == TermOp::<Seq<char>>::Flush(
                Failure::FlushStdout,
            )
            &&& way < 0 ==> (ops[0] matches TermOp::MoveLeft(n, failure) && n == (-way) % 0x10000
                && failure == if code == Key::Left {
                Failure::MoveCursorLeft
            } else {
                Failure::MoveCursorToStart
            })
            &&& way > 0 ==> (ops[0] matches TermOp::MoveRight(n, failure) && n == way % 0x10000
                && failure == if code == Key::Right {
                Failure::MoveCursorRight
            } else {
                Failure::MoveCursorToEnd
            })
        }),
{
}

/// Keys that change the text have it drawn anew as it then is, and keys that
/// would but cannot do nothing.
pub proof fn law_changes_are_shown_as_they_are(prompt: Seq<char>, line: EditState, code: Key)
    requires
        line.wf(),
        code is Char || code == Key::Backspace || code == Key::Delete || code == Key::Other,
    ensures
        edited(line, code).text.len() != line.text.len() ==> edit_ops(prompt, line, code)
            == redraw(prompt, edited(line, code)),
        edited(line, code).text.len() == line.text.len() ==> edit_ops(prompt, line, code).len()
            == 0,
{
}

/// What is printed at the keys with a meaning of their own: leaving a line goes
/// to a new row and closes the frame; ending the program adds a word; and
/// Control with `o` shows the view of the last output between two rows of the
/// frame and then the line, which it does not change.
pub proof fn law_special_keys_print_what_they_say(editor: EditorView, key: KeyInput)
    requires
        key.kind != KeyKind::Release,
    ensures
        ({
            let ops = press_ops(editor, key);
            let framed = editor.frame == Frame::Bordered;
            let rows = if framed {
                seq![TermOp::Print(lower_row())]
            } else {
                seq![]
            };
            let above = if framed {
                seq![TermOp::Print(upper_row())]
            } else {
                seq![]
            };
            let leave = seq![
                TermOp::DisableRawMode(Failure::DisableRawMode),
                TermOp::Print("\n"@),
            ] + rows;
            &&& key.code == Key::Enter || key.code == Key::Esc ==> ops == leave
            &&& (key.code == Key::Char('c') || key.code == Key::Char('d')) && key.modifiers & 2
                == 2 ==> ops == leave + seq![TermOp::Print("Goodbye!\n"@)] && pressed(editor, key)
                == editor
            &&& key.code == Key::Char('o') && key.modifiers & 2 == 2 ==> {
                &&& ops == leave + seq![TermOp::Print(output_view(editor.last_output))] + above
                    + seq![TermOp::EnableRawMode(Failure::ReenableRawMode)] + redraw(
                    editor.shown_prompt(),
                    editor.line,
                )
                &&& pressed(editor, key) == editor
                &&& press_outcome(editor, key) is Pending
            }
        }),
{
}

/// A line is opened with its prompt, below the upper row of its frame and behind
/// the border where it has one.
pub proof fn law_a_line_opens_with_its_prompt(prompt: Seq<char>)
    ensures
        framed_prompt(prompt, Frame::Bare) == prompt,
        framed_prompt(prompt, Frame::Bordered) == "\x1b[1;38;5;244m┃ \x1b[0m"@ + prompt,
        opening_ops(prompt, Frame::Bare) == seq![
            TermOp::Print(prompt),
            TermOp::Flush(Failure::FlushStdout),
            TermOp::EnableRawMode(Failure::EnableRawMode),
        ],
        opening_ops(prompt, Frame::Bordered) == seq![
            TermOp::Print(upper_row()),
            TermOp::Print("\x1b[1;38;5;244m┃ \x1b[0m"@ + prompt),
            TermOp::Flush(Failure::FlushStdout),
            TermOp::EnableRawMode(Failure::EnableRawMode),
        ],
{
}

/// The two rows of a frame are rows of the card's border, of one width and each
/// with its own corners.
pub proof fn law_the_rows_of_a_frame_are_borders()
    ensures
        upper_row() == "\x1b[1;38;5;244m"@ + "┏"@ + Seq::new(60, |k: int| '━') + "┓"@
            + "\x1b[0m"@ + "\n"@,
        lower_row() == "\x1b[1;38;5;244m"@ + "┗"@ + Seq::new(60, |k: int| '━') + "┛"@
            + "\x1b[0m"@ + "\n"@,
{
    reveal_with_fuel(written, 6);
    assert(upper_row() =~= "\x1b[1;38;5;244m"@ + "┏"@ + Seq::new(60, |k: int| '━') + "┓"@
        + "\x1b[0m"@ + "\n"@);
    assert(lower_row() =~= "\x1b[1;38;5;244m"@ + "┗"@ + Seq::new(60, |k: int| '━') + "┛"@
        + "\x1b[0m"@ + "\n"@);
}

/// The view of an output shows every line of it, one below the other and each in
/// its colours, between the two rules; only no output at all is said to be none.
pub proof fn law_the_output_view_shows_every_line(
    output: Seq<char>,
    first: Seq<Seq<char>>,
    second: Seq<Seq<char>>,
    line: Seq<char>,
)
    ensures
        output.len() == 0 ==> output_view(output)
            == "\x1b[38;5;244m[No command output available yet]\x1b[0m\n"@,
        output.len() > 0 ==> output_view(output)
            == "\x1b[1;30;48;5;252m--- Expanded Command Output ---\x1b[0m\n"@ + coloured(
            lines_of(output),
        ) + "\x1b[1;30;48;5;252m--------------------------------\x1b[0m\n"@,
        coloured(Seq::empty()).len() == 0,
        coloured(seq![line]) == "\x1b[38;5;235;48;5;252m"@ + line + "\x1b[0m\n"@,
        coloured(first + second) == coloured(first) + coloured(second),
    decreases second.len(),
{
    reveal_with_fuel(coloured, 2);
    assert(seq![line].drop_last() =~= Seq::<Seq<char>>::empty());
    assert(coloured(seq![line]) =~= "\x1b[38;5;235;48;5;252m"@ + line + "\x1b[0m\n"@);
    if second.len() == 0 {
        assert(first + second =~= first);
        assert(coloured(first) + coloured(second) =~= coloured(first));
    } else {
        let less = second.drop_last();
        law_the_output_view_shows_every_line(output, first, less, line);
        assert((first + second).drop_last() =~= first + less);
        assert(coloured(first + second) =~= coloured(first) + coloured(second));
    }
}

/// What is said about operations and outcomes leaves nothing out and changes
/// nothing.
pub proof fn law_views_of_operations_are_faithful(
    ops: Seq<TermOp<String>>,
    text: String,
    failure: Failure,
    n: u16,
)
    ensures
        ops_view(ops).len() == ops.len(),
        forall|i: int| 0 <= i < ops.len() ==> #[trigger] ops_view(ops)[i] == ops[i]@,
        TermOp::Print(text)@ == TermOp::Print(text@),
        TermOp::PrintError(text)@ == TermOp::PrintError(text@),
        TermOp::<String>::Flush(failure)@ == TermOp::<Seq<char>>::Flush(failure),
        TermOp::<String>::EnableRawMode(failure)@ == TermOp::<Seq<char>>::EnableRawMode(failure),
        TermOp::<String>::DisableRawMode(failure)@ == TermOp::<Seq<char>>::DisableRawMode(failure),
        TermOp::<String>::ClearLine(failure)@ == TermOp::<Seq<char>>::ClearLine(failure),
        TermOp::<String>::MoveLeft(n, failure)@ == TermOp::<Seq<char>>::MoveLeft(n, failure),
        TermOp::<String>::MoveRight(n, failure)@ == TermOp::<Seq<char>>::MoveRight(n, failure),
        LineOutcome::<String>::Pending@ == LineOutcome::<Seq<char>>::Pending,
        LineOutcome::<String>::Cancelled@ == LineOutcome::<Seq<char>>::Cancelled,
        LineOutcome::<String>::Exit@ == LineOutcome::<Seq<char>>::Exit,
        LineOutcome::Submitted(text)@ == LineOutcome::Submitted(text@),
        guarded() == seq![TermOp::<Seq<char>>::DisableRawMode(Failure::Ignored)],
{
}

/// An editor starts with no text and with the prompt, the output and the frame
/// that it was given.
pub proof fn law_an_editor_starts_with_an_empty_line(
    prompt: Seq<char>,
    last_output: Seq<char>,
    frame: Frame,
)
    ensures
        fresh(prompt, last_output, frame).line.text.len() == 0,
        fresh(prompt, last_output, frame).line.cursor == 0,
        fresh(prompt, last_output, frame).prompt == prompt,
        fresh(prompt, last_output, frame).last_output == last_output,
        fresh(prompt, last_output, frame).frame == frame,
        fresh(prompt, last_output, frame).shown_prompt() == if frame == Frame::Bare {
            prompt
        } else {
            "\x1b[1;38;5;244m┃ \x1b[0m"@ + prompt
        },
{
}

} // verus!
