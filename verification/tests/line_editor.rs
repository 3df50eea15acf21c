use crossterm::event::KeyModifiers;
use shokodex::editor::{expanded_output, key_meaning, Frame, KeyMeaning, LineEditor, LineOutcome};
use shokodex::terminal::{cancels_request, guard_ops, Failure, Key, KeyInput, KeyKind, TermOp};

fn key(code: Key) -> KeyInput {
    KeyInput { code, kind: KeyKind::Press, modifiers: KeyModifiers::NONE.bits() }
}

fn control(c: char) -> KeyInput {
    KeyInput { code: Key::Char(c), kind: KeyKind::Press, modifiers: KeyModifiers::CONTROL.bits() }
}

fn print(text: &str) -> TermOp<String> {
    TermOp::Print(text.to_string())
}

fn flush() -> TermOp<String> {
    TermOp::Flush(Failure::FlushStdout)
}

fn leave() -> TermOp<String> {
    TermOp::DisableRawMode(Failure::DisableRawMode)
}

fn typed(text: &str) -> LineEditor {
    let (mut editor, _) = LineEditor::new("> ", "", Frame::Bare);
    for c in text.chars() {
        let (_, outcome) = editor.press(&key(Key::Char(c)));
        assert_eq!(outcome, LineOutcome::Pending);
    }
    editor
}

fn press_all(editor: &mut LineEditor, codes: &[Key]) {
    for code in codes {
        editor.press(&key(*code));
    }
}

#[test]
fn editor_starts_empty_and_shows_its_prompt() {
    let (editor, ops) = LineEditor::new("> ", "out", Frame::Bare);
    assert_eq!(editor.text(), "");
    assert_eq!(editor.cursor(), 0);
    assert_eq!(
        ops,
        vec![print("> "), flush(), TermOp::EnableRawMode(Failure::EnableRawMode)]
    );
}

#[test]
fn enter_hands_in_what_was_typed() {
    let mut editor = typed("dir ñ");
    assert_eq!(editor.cursor(), 5);
    let (ops, outcome) = editor.press(&key(Key::Enter));
    assert_eq!(ops, vec![leave(), print("\n")]);
    assert_eq!(outcome, LineOutcome::Submitted("dir ñ".to_string()));
}

#[test]
fn escape_gives_the_line_up() {
    let mut editor = typed("dir");
    let (ops, outcome) = editor.press(&key(Key::Esc));
    assert_eq!(ops, vec![leave(), print("\n")]);
    assert_eq!(outcome, LineOutcome::Cancelled);
}

#[test]
fn control_c_and_control_d_end_the_program() {
    for c in ['c', 'd'] {
        let mut editor = typed("x");
        let (ops, outcome) = editor.press(&control(c));
        assert_eq!(ops, vec![leave(), print("\n"), print("Goodbye!\n")]);
        assert_eq!(outcome, LineOutcome::Exit);
        assert_eq!(editor.text(), "x");
    }
}

#[test]
fn letters_with_other_modifiers_are_typed() {
    let mut editor = typed("");
    for (c, modifiers) in [
        ('c', KeyModifiers::NONE),
        ('d', KeyModifiers::ALT),
        ('o', KeyModifiers::SHIFT),
        ('x', KeyModifiers::CONTROL),
        ('C', KeyModifiers::CONTROL),
    ] {
        editor.press(&KeyInput {
            code: Key::Char(c),
            kind: KeyKind::Press,
            modifiers: modifiers.bits(),
        });
    }
    assert_eq!(editor.text(), "cdoxC");
}

#[test]
fn control_is_seen_among_other_modifiers() {
    let both = KeyModifiers::CONTROL | KeyModifiers::SHIFT;
    let input = KeyInput { code: Key::Char('o'), kind: KeyKind::Press, modifiers: both.bits() };
    assert_eq!(key_meaning(&input), KeyMeaning::ShowOutput);
}

#[test]
fn released_keys_do_nothing_and_repeated_keys_count() {
    let (mut editor, _) = LineEditor::new("> ", "", Frame::Bare);
    let released =
        KeyInput { code: Key::Char('a'), kind: KeyKind::Release, modifiers: 0 };
    assert_eq!(editor.press(&released), (vec![], LineOutcome::Pending));
    let released_escape = KeyInput { code: Key::Esc, kind: KeyKind::Release, modifiers: 0 };
    assert_eq!(editor.press(&released_escape), (vec![], LineOutcome::Pending));
    let repeated = KeyInput { code: Key::Char('a'), kind: KeyKind::Repeat, modifiers: 0 };
    editor.press(&repeated);
    assert_eq!(editor.text(), "a");
}

#[test]
fn typing_in_the_middle_redraws_and_moves_back() {
    let mut editor = typed("ac");
    editor.press(&key(Key::Left));
    let (ops, outcome) = editor.press(&key(Key::Char('ß')));
    assert_eq!(outcome, LineOutcome::Pending);
    assert_eq!(editor.text(), "aßc");
    assert_eq!(editor.cursor(), 2);
    assert_eq!(
        ops,
        vec![
            print("\r"),
            TermOp::ClearLine(Failure::ClearLine),
            print("> aßc"),
            TermOp::MoveLeft(1, Failure::MoveCursor),
            flush(),
        ]
    );
}

#[test]
fn typing_at_the_end_does_not_move_back() {
    let mut editor = typed("a");
    let (ops, _) = editor.press(&key(Key::Char('b')));
    assert_eq!(
        ops,
        vec![print("\r"), TermOp::ClearLine(Failure::ClearLine), print("> ab"), flush()]
    );
}

#[test]
fn backspace_takes_the_character_before() {
    let mut editor = typed("aßc");
    press_all(&mut editor, &[Key::Left, Key::Backspace]);
    assert_eq!(editor.text(), "ac");
    assert_eq!(editor.cursor(), 1);
    press_all(&mut editor, &[Key::Home]);
    assert_eq!(editor.press(&key(Key::Backspace)), (vec![], LineOutcome::Pending));
    assert_eq!(editor.text(), "ac");
}

#[test]
fn delete_takes_the_character_behind() {
    let mut editor = typed("aßc");
    assert_eq!(editor.press(&key(Key::Delete)), (vec![], LineOutcome::Pending));
    press_all(&mut editor, &[Key::Home, Key::Right, Key::Delete]);
    assert_eq!(editor.text(), "ac");
    assert_eq!(editor.cursor(), 1);
}

#[test]
fn arrows_home_and_end_move_within_the_line() {
    let mut editor = typed("abc");
    assert_eq!(editor.press(&key(Key::Right)).0, vec![]);
    assert_eq!(editor.press(&key(Key::End)).0, vec![]);
    assert_eq!(
        editor.press(&key(Key::Left)).0,
        vec![TermOp::MoveLeft(1, Failure::MoveCursorLeft), flush()]
    );
    assert_eq!(
        editor.press(&key(Key::Home)).0,
        vec![TermOp::MoveLeft(2, Failure::MoveCursorToStart), flush()]
    );
    assert_eq!(editor.press(&key(Key::Left)).0, vec![]);
    assert_eq!(editor.press(&key(Key::Home)).0, vec![]);
    assert_eq!(
        editor.press(&key(Key::Right)).0,
        vec![TermOp::MoveRight(1, Failure::MoveCursorRight), flush()]
    );
    assert_eq!(
        editor.press(&key(Key::End)).0,
        vec![TermOp::MoveRight(2, Failure::MoveCursorToEnd), flush()]
    );
    assert_eq!(editor.cursor(), 3);
    assert_eq!(editor.text(), "abc");
}

#[test]
fn backspace_undoes_typing() {
    let mut editor = typed("ab");
    press_all(&mut editor, &[Key::Left, Key::Char('x'), Key::Backspace]);
    assert_eq!((editor.text(), editor.cursor()), ("ab".to_string(), 1));
    press_all(&mut editor, &[Key::Char('x'), Key::Left, Key::Delete]);
    assert_eq!((editor.text(), editor.cursor()), ("ab".to_string(), 1));
    press_all(&mut editor, &[Key::Backspace, Key::Char('a')]);
    assert_eq!((editor.text(), editor.cursor()), ("ab".to_string(), 1));
}

#[test]
fn other_keys_do_nothing() {
    let mut editor = typed("ab");
    assert_eq!(editor.press(&key(Key::Other)), (vec![], LineOutcome::Pending));
    assert_eq!(editor.text(), "ab");
}

#[test]
fn distances_are_counted_in_characters() {
    let mut editor = typed("");
    for _ in 0..300 {
        editor.press(&key(Key::Char('x')));
    }
    assert_eq!(
        editor.press(&key(Key::Home)).0,
        vec![TermOp::MoveLeft(300, Failure::MoveCursorToStart), flush()]
    );
}

#[test]
fn control_o_shows_the_output_and_draws_the_line_anew() {
    let (mut editor, _) = LineEditor::new("> ", "one\ntwo\r\n", Frame::Bare);
    press_all(&mut editor, &[Key::Char('a'), Key::Char('b'), Key::Left]);
    let (ops, outcome) = editor.press(&control('o'));
    assert_eq!(outcome, LineOutcome::Pending);
    assert_eq!((editor.text(), editor.cursor()), ("ab".to_string(), 1));
    assert_eq!(
        ops,
        vec![
            leave(),
            print("\n"),
            print(
                "\x1b[1;30;48;5;252m--- Expanded Command Output ---\x1b[0m\n\
                 \x1b[38;5;235;48;5;252mone\x1b[0m\n\
                 \x1b[38;5;235;48;5;252mtwo\x1b[0m\n\
                 \x1b[1;30;48;5;252m--------------------------------\x1b[0m\n"
            ),
            TermOp::EnableRawMode(Failure::ReenableRawMode),
            print("\r"),
            TermOp::ClearLine(Failure::ClearLine),
            print("> ab"),
            TermOp::MoveLeft(1, Failure::MoveCursor),
            flush(),
        ]
    );
}

#[test]
fn no_output_is_said_to_be_none() {
    assert_eq!(
        expanded_output(""),
        "\x1b[38;5;244m[No command output available yet]\x1b[0m\n"
    );
}

#[test]
fn only_a_pressed_escape_cancels_a_request() {
    assert!(cancels_request(&key(Key::Esc)));
    assert!(!cancels_request(&key(Key::Enter)));
    let repeated = KeyInput { code: Key::Esc, kind: KeyKind::Repeat, modifiers: 0 };
    assert!(!cancels_request(&repeated));
    let released = KeyInput { code: Key::Esc, kind: KeyKind::Release, modifiers: 0 };
    assert!(!cancels_request(&released));
}

#[test]
fn failures_say_what_could_not_be_done() {
    assert_eq!(Failure::Ignored.context(), None);
    assert_eq!(Failure::FlushStdout.context(), Some("Failed to flush stdout"));
    assert_eq!(Failure::EnableRawMode.context(), Some("Failed to enable raw mode"));
    assert_eq!(Failure::ReenableRawMode.context(), Some("Failed to re-enable raw mode"));
    assert_eq!(Failure::DisableRawMode.context(), Some("Failed to disable raw mode"));
    assert_eq!(Failure::ClearLine.context(), Some("Failed to clear line"));
    assert_eq!(Failure::MoveCursor.context(), Some("Failed to move cursor"));
    assert_eq!(Failure::MoveCursorLeft.context(), Some("Failed to move cursor left"));
    assert_eq!(Failure::MoveCursorRight.context(), Some("Failed to move cursor right"));
    assert_eq!(Failure::MoveCursorToStart.context(), Some("Failed to move cursor to start"));
    assert_eq!(Failure::MoveCursorToEnd.context(), Some("Failed to move cursor to end"));
}

/// What a terminal that takes one column per character makes of operations.
fn performed(ops: &[TermOp<String>], mut raw: bool, mut column: i64) -> (bool, i64) {
    for op in ops {
        match op {
            TermOp::Print(text) if text.ends_with('\r') || text.ends_with('\n') => column = 0,
            TermOp::Print(text) => column += text.chars().count() as i64,
            TermOp::MoveLeft(n, _) => column -= i64::from(*n),
            TermOp::MoveRight(n, _) => column += i64::from(*n),
            TermOp::EnableRawMode(_) => raw = true,
            TermOp::DisableRawMode(_) => raw = false,
            _ => {}
        }
    }
    (raw, column)
}

#[test]
fn terminal_cursor_follows_and_raw_mode_lasts_while_editing() {
    let (mut editor, ops) = LineEditor::new("> ", "out", Frame::Bare);
    let (mut raw, mut column) = performed(&ops, false, 0);
    assert_eq!((raw, column), (true, 2));
    let codes = [
        Key::Char('a'), Key::Char('b'), Key::Left, Key::Char('é'), Key::Home, Key::Delete,
        Key::Right, Key::Backspace, Key::End, Key::Char('z'), Key::Home, Key::End, Key::Other,
    ];
    for code in codes {
        let (ops, outcome) = editor.press(&key(code));
        assert_eq!(outcome, LineOutcome::Pending);
        (raw, column) = performed(&ops, raw, column);
        assert_eq!((raw, column), (true, 2 + editor.cursor() as i64));
        let (ops, _) = editor.press(&control('o'));
        (raw, column) = performed(&ops, raw, column);
        assert_eq!((raw, column), (true, 2 + editor.cursor() as i64));
    }
    assert_eq!(editor.text(), "bz");
    let (ops, _) = editor.press(&key(Key::Enter));
    assert!(!performed(&ops, raw, column).0);
}

#[test]
fn typed_text_stands_at_the_cursor() {
    let mut editor = typed("ad");
    press_all(&mut editor, &[Key::Left, Key::Char('b'), Key::Char('c')]);
    assert_eq!((editor.text(), editor.cursor()), ("abcd".to_string(), 3));
}

const CHAT_PROMPT: &str = "> \x1b[93m";
const SHOWN_PROMPT: &str = "\x1b[1;38;5;244m┃ \x1b[0m> \x1b[93m";

fn upper() -> String {
    format!("\x1b[1;38;5;244m┏{}┓\x1b[0m\n", "━".repeat(60))
}

fn lower() -> String {
    format!("\x1b[1;38;5;244m┗{}┛\x1b[0m\n", "━".repeat(60))
}

/// What operations print, and an editor in a frame that has been opened.
fn framed() -> (LineEditor, String) {
    let (editor, ops) = LineEditor::new(CHAT_PROMPT, "out", Frame::Bordered);
    (editor, printed(&ops))
}

fn printed(ops: &[TermOp<String>]) -> String {
    let mut all = String::new();
    for op in ops {
        if let TermOp::Print(text) = op {
            all.push_str(text);
        }
    }
    all
}

#[test]
fn a_framed_line_starts_below_the_upper_row() {
    let (_, ops) = LineEditor::new(CHAT_PROMPT, "", Frame::Bordered);
    assert_eq!(
        ops,
        vec![
            print(&upper()),
            print(SHOWN_PROMPT),
            flush(),
            TermOp::EnableRawMode(Failure::EnableRawMode),
        ]
    );
}

#[test]
fn a_framed_line_ends_above_the_lower_row() {
    for (input, word) in [
        (key(Key::Enter), None),
        (key(Key::Esc), None),
        (control('c'), Some("Goodbye!\n")),
        (control('d'), Some("Goodbye!\n")),
    ] {
        let (mut editor, _) = framed();
        let (ops, _) = editor.press(&input);
        let mut expected = vec![leave(), print("\n"), print(&lower())];
        expected.extend(word.map(print));
        assert_eq!(ops, expected);
    }
}

#[test]
fn a_framed_line_is_redrawn_in_its_row() {
    let (mut editor, _) = framed();
    let (ops, _) = editor.press(&key(Key::Char('a')));
    assert_eq!(
        ops,
        vec![
            print("\r"),
            TermOp::ClearLine(Failure::ClearLine),
            print(&format!("{}a", SHOWN_PROMPT)),
            flush(),
        ]
    );
}

#[test]
fn output_is_shown_outside_the_frame() {
    let (mut editor, _) = framed();
    let (ops, _) = editor.press(&control('o'));
    assert_eq!(
        ops[..6],
        [
            leave(),
            print("\n"),
            print(&lower()),
            print(&expanded_output("out")),
            print(&upper()),
            TermOp::EnableRawMode(Failure::ReenableRawMode),
        ]
    );
}

#[test]
fn a_framed_prompt_stands_between_its_borders() {
    let (mut editor, mut all) = framed();
    for input in [key(Key::Char('a')), key(Key::Left), control('o'), key(Key::Char('b'))] {
        all.push_str(&printed(&editor.press(&input).0));
    }
    all.push_str(&printed(&editor.press(&key(Key::Enter)).0));
    let above = all.rfind(&upper()).unwrap() + upper().len();
    let row = all[above..].strip_suffix(&format!("\n{}", lower())).unwrap();
    assert!(!row.contains('\n'));
    assert!(row.contains(SHOWN_PROMPT));
    assert!(row.ends_with("ba"));
}

#[test]
fn the_guard_ends_raw_mode_wherever_things_break_off() {
    assert_eq!(guard_ops(), vec![TermOp::DisableRawMode(Failure::Ignored)]);
    let (mut editor, start) = LineEditor::new(CHAT_PROMPT, "out", Frame::Bordered);
    for n in 0..start.len() {
        assert!(!performed(&start[..n], false, 0).0);
    }
    let (ops, _) = editor.press(&control('o'));
    for n in 0..=ops.len() {
        let (raw, column) = performed(&ops[..n], true, 0);
        assert!(!performed(&guard_ops(), raw, column).0);
    }
}
