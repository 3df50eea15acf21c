use shokodex::chat::{
    first_answer, full_system_prompt, reply_of, set_system_text, ChatChoice,
    ChatCompletionResponse, ChatMessage, ServiceReply,
};
use shokodex::editor::Frame;
use shokodex::session::{is_approval, is_yes, Action, Event, Phase, Session, Step};
use shokodex::startup::SYSTEM_PROMPT;
use shokodex::terminal::{Failure, TermOp};
use shokodex::thinking::{end_thinking, start_thinking, Race};

const PROMPT: &str = "> \x1b[93m";
const CONFIRM: &str = "\x1b[1;36mExecute PowerShell command? (y/N): \x1b[0m";

fn text(s: &str) -> String {
    s.to_string()
}

fn print(s: &str) -> TermOp<String> {
    TermOp::Print(text(s))
}

fn complain(s: &str) -> TermOp<String> {
    TermOp::PrintError(text(s))
}

fn line(s: &str) -> Event<String> {
    Event::Line(Ok(Some(text(s))))
}

fn reply(s: &str) -> Event<String> {
    Event::Reply(Ok(Some(text(s))))
}

fn chat() -> Session {
    Session::start("m", &vec![]).0
}

fn query(arguments: &[&str]) -> (Session, Step) {
    Session::start("m", &arguments.iter().map(|a| text(a)).collect())
}

fn said(session: &Session) -> Vec<(String, String)> {
    session.messages().iter().map(|m| (m.role.clone(), m.content.clone())).collect()
}

fn pair(role: &str, content: &str) -> (String, String) {
    (text(role), text(content))
}

/// A chat that has been asked something and has sent it.
fn asked(question: &str) -> Session {
    let mut session = chat();
    session.step(line(question));
    session.step(Event::Memo(None));
    session
}

/// A chat that waits for a word on the command `ls`.
fn proposed() -> Session {
    let mut session = asked("list");
    session.step(reply("```powershell\nls\n```"));
    session
}

#[test]
fn a_chat_starts_with_the_prompt() {
    let (session, step) = Session::start("m", &vec![text(" "), text("")]);
    assert!(session.is_interactive());
    assert_eq!(step, Step { ops: vec![], action: Action::ReadLine(text(PROMPT), Frame::Bordered) });
    assert_eq!(said(&session), vec![pair("system", SYSTEM_PROMPT)]);
    assert_eq!(session.last_output(), "");
    assert_eq!(session.phase(), &Phase::Prompting);
}

#[test]
fn arguments_make_a_single_query() {
    let (session, step) = query(&["what", "is", " this "]);
    assert!(!session.is_interactive());
    assert_eq!(step, Step { ops: vec![], action: Action::LoadMemo });
    assert_eq!(
        said(&session),
        vec![pair("system", SYSTEM_PROMPT), pair("user", "what is  this ")]
    );
}

#[test]
fn a_line_is_trimmed_and_put_to_the_model() {
    let mut session = chat();
    let step = session.step(line("  hello \t"));
    assert_eq!(
        step,
        Step {
            ops: vec![print("\x1b[0m"), TermOp::Flush(Failure::FlushStdout)],
            action: Action::LoadMemo,
        }
    );
    assert_eq!(said(&session)[1], pair("user", "hello"));
}

#[test]
fn an_empty_line_is_asked_for_again() {
    let mut session = chat();
    let step = session.step(line(" \u{3000}\n"));
    assert_eq!(
        step,
        Step {
            ops: vec![print("\x1b[0m"), TermOp::Flush(Failure::FlushStdout)],
            action: Action::ReadLine(text(PROMPT), Frame::Bordered),
        }
    );
    assert_eq!(said(&session).len(), 1);
}

#[test]
fn a_line_given_up_is_asked_for_again() {
    let mut session = chat();
    let step = session.step(Event::Line(Ok(None)));
    assert_eq!(
        step,
        Step {
            ops: vec![print("(Use 'exit' or 'quit' to exit)\n")],
            action: Action::ReadLine(text(PROMPT), Frame::Bordered),
        }
    );
}

#[test]
fn an_input_error_ends_the_chat() {
    let mut session = chat();
    let step = session.step(Event::Line(Err(text("no terminal"))));
    assert_eq!(
        step,
        Step { ops: vec![complain("Input error: no terminal\n")], action: Action::Quit }
    );
    assert_eq!(session.phase(), &Phase::Ended);
}

#[test]
fn farewells_end_the_chat_in_any_case() {
    for word in ["exit", "quit", " EXIT ", "qUiT"] {
        let mut session = chat();
        let step = session.step(line(word));
        assert_eq!(
            step,
            Step {
                ops: vec![
                    print("\x1b[0m"),
                    TermOp::Flush(Failure::FlushStdout),
                    print("Goodbye!\n"),
                ],
                action: Action::Quit,
            }
        );
    }
    for word in ["exit now", "exi", "qu\u{131}t", "exıt"] {
        let mut session = chat();
        assert_eq!(session.step(line(word)).action, Action::LoadMemo);
    }
}

#[test]
fn the_memo_stands_in_the_system_message_that_is_sent() {
    let mut session = chat();
    session.step(line("hi"));
    let step = session.step(Event::Memo(Some(text("step 1 done"))));
    let full = format!(
        "{}\n\n[MEMO / PROGRESS NOTES - read this to remember your current state]\nstep 1 done\n[END OF MEMO]",
        SYSTEM_PROMPT
    );
    assert_eq!(said(&session), vec![pair("system", &full), pair("user", "hi")]);
    match step.action {
        Action::Send(request) => {
            assert_eq!(request.model, "m");
            assert_eq!(&request.messages, session.messages());
            assert_eq!(request.temperature_tenths, 2);
            assert_eq!(request.max_tokens, 2048);
            assert!(!request.stream);
        }
        other => panic!("{:?}", other),
    }
    session.step(reply("hello"));
    session.step(line("again"));
    session.step(Event::Memo(None));
    assert_eq!(said(&session)[0], pair("system", SYSTEM_PROMPT));
}

#[test]
fn a_plain_reply_is_shown_and_kept() {
    let mut session = asked("hi");
    let step = session.step(reply("hello"));
    assert_eq!(
        step,
        Step { ops: vec![print("\n• hello\n\n")], action: Action::ReadLine(text(PROMPT), Frame::Bordered) }
    );
    assert_eq!(
        said(&session),
        vec![pair("system", SYSTEM_PROMPT), pair("user", "hi"), pair("assistant", "hello")]
    );
}

#[test]
fn an_interrupted_request_leaves_the_question_in_place() {
    let mut session = asked("hi");
    let step = session.step(Event::Reply(Ok(None)));
    assert_eq!(step, Step { ops: vec![], action: Action::ReadLine(text(PROMPT), Frame::Bordered) });
    assert_eq!(said(&session).len(), 2);
}

#[test]
fn a_failed_request_takes_the_question_back() {
    let mut session = asked("hi");
    let step = session.step(Event::Reply(Err(text("down"))));
    assert_eq!(
        step,
        Step { ops: vec![complain("\nError: down\n\n")], action: Action::ReadLine(text(PROMPT), Frame::Bordered) }
    );
    assert_eq!(said(&session), vec![pair("system", SYSTEM_PROMPT)]);
}

#[test]
fn a_failure_after_a_command_takes_its_output_back() {
    let mut session = proposed();
    session.step(line("y"));
    session.step(Event::Ran(Ok((true, text("files")))));
    session.step(Event::Memo(None));
    session.step(Event::Reply(Err(text("down"))));
    assert_eq!(
        said(&session)[1..],
        [pair("user", "list"), pair("assistant", "```powershell\nls\n```")]
    );
    assert_eq!(session.last_output(), "files");
}

#[test]
fn a_command_is_asked_about() {
    let mut session = asked("list");
    let step = session.step(reply("```powershell\nls\n```"));
    assert_eq!(
        step,
        Step {
            ops: vec![print("\n• ```powershell\nls\n```\n\n")],
            action: Action::ReadLine(text(CONFIRM), Frame::Bare),
        }
    );
    assert_eq!(session.phase(), &Phase::Confirming(text("ls")));
}

#[test]
fn an_approved_command_runs() {
    for word in ["y", "Y", "yes", " YES\t", "yEs"] {
        let mut session = proposed();
        let step = session.step(line(word));
        assert_eq!(
            step,
            Step {
                ops: vec![print("\x1b[33mExecuting command via PowerShell...\x1b[0m\n")],
                action: Action::Run(text("ls")),
            }
        );
        assert_eq!(session.phase(), &Phase::Running(text("ls")));
    }
}

#[test]
fn any_other_answer_cancels_the_command() {
    for word in ["", "n", "no", "yess", "ye s", "Ye", "да"] {
        let mut session = proposed();
        let before = said(&session);
        let step = session.step(line(word));
        assert_eq!(
            step,
            Step {
                ops: vec![print("Execution cancelled by user.\n")],
                action: Action::ReadLine(text(PROMPT), Frame::Bordered),
            }
        );
        assert_eq!(said(&session), before);
        assert_eq!(session.last_output(), "");
    }
}

#[test]
fn a_word_given_up_or_unread_cancels_the_command() {
    let mut session = proposed();
    assert_eq!(
        session.step(Event::Line(Ok(None))),
        Step {
            ops: vec![print("Execution sequence interrupted by user.\n")],
            action: Action::ReadLine(text(PROMPT), Frame::Bordered),
        }
    );
    let mut session = proposed();
    assert_eq!(
        session.step(Event::Line(Err(text("gone")))),
        Step {
            ops: vec![complain("Input error: gone\n")],
            action: Action::ReadLine(text(PROMPT), Frame::Bordered),
        }
    );
}

#[test]
fn a_decision_can_be_taken_directly() {
    let mut session = proposed();
    assert_eq!(session.decide(true).action, Action::Run(text("ls")));
    let mut session = proposed();
    assert_eq!(session.decide(false).action, Action::ReadLine(text(PROMPT), Frame::Bordered));
}

#[test]
fn the_model_is_told_what_a_command_printed() {
    for (success, shown) in [
        (
            true,
            "\n\x1b[32m[✔ PowerShell command executed successfully. Press Ctrl+O to expand output]\x1b[0m\n\n",
        ),
        (
            false,
            "\n\x1b[31m[✘ PowerShell command failed. Press Ctrl+O to expand output]\x1b[0m\n\n",
        ),
    ] {
        let mut session = proposed();
        session.step(line("y"));
        let step = session.step(Event::Ran(Ok((success, text("files")))));
        assert_eq!(step, Step { ops: vec![print(shown)], action: Action::LoadMemo });
        assert_eq!(session.last_output(), "files");
        assert_eq!(said(&session)[3], pair("user", "Command output:\nfiles"));
    }
}

#[test]
fn the_model_is_told_that_a_command_could_not_run() {
    let mut session = proposed();
    session.step(line("y"));
    let step = session.step(Event::Ran(Err(text("no shell"))));
    assert_eq!(
        step,
        Step {
            ops: vec![print("\x1b[31mExecution error: no shell\x1b[0m\n")],
            action: Action::LoadMemo,
        }
    );
    assert_eq!(session.last_output(), "");
    assert_eq!(
        said(&session)[3],
        pair("user", "Command execution failed with internal error: no shell")
    );
}

#[test]
fn a_single_query_ends_with_its_answer() {
    let (mut session, _) = query(&["hi"]);
    session.step(Event::Memo(None));
    assert_eq!(session.step(reply("hello")).action, Action::Quit);
    let (mut session, _) = query(&["hi"]);
    session.step(Event::Memo(None));
    assert_eq!(
        session.step(Event::Reply(Err(text("down")))),
        Step { ops: vec![complain("\nExecution Error: down\n\n")], action: Action::Quit }
    );
    let (mut session, _) = query(&["hi"]);
    session.step(Event::Memo(None));
    session.step(reply("```powershell\nls\n```"));
    assert_eq!(session.step(line("n")).action, Action::Quit);
}

#[test]
fn a_single_query_may_run_commands() {
    let (mut session, _) = query(&["list"]);
    session.step(Event::Memo(None));
    session.step(reply("```powershell\nls\n```"));
    assert_eq!(session.step(line("yes")).action, Action::Run(text("ls")));
    assert_eq!(session.step(Event::Ran(Ok((true, text(""))))).action, Action::LoadMemo);
}

#[test]
fn a_session_knows_what_it_waits_for() {
    let mut session = chat();
    assert!(session.expects(&line("x")));
    assert!(!session.expects(&Event::Memo(None)));
    session.step(line("x"));
    assert!(session.expects(&Event::Memo(None)));
    assert!(!session.expects(&reply("x")));
    session.step(Event::Memo(None));
    assert!(session.expects(&reply("x")));
    assert!(!session.expects(&line("x")));
    let mut session = proposed();
    assert!(session.expects(&line("y")));
    session.step(line("y"));
    assert!(session.expects(&Event::Ran(Err(text("x")))));
    assert!(!session.expects(&line("y")));
    let mut session = chat();
    session.step(line("exit"));
    assert!(!session.expects(&line("x")));
}

#[test]
fn approval_is_yes_in_lower_case() {
    assert!(is_yes("y"));
    assert!(is_yes("yes"));
    assert!(!is_yes("Y"));
    assert!(!is_yes(""));
    assert!(is_approval("\u{a0}Yes\r\n"));
    assert!(!is_approval("yeſ"));
}

#[test]
fn the_first_answer_is_taken() {
    let choice = |s: &str| ChatChoice {
        message: ChatMessage { role: text("assistant"), content: text(s) },
    };
    let response = ChatCompletionResponse { choices: vec![choice("a"), choice("b")] };
    assert_eq!(first_answer(&response), "a");
    let none = ChatCompletionResponse { choices: vec![] };
    assert_eq!(first_answer(&none), "No response received.");
}

#[test]
fn a_request_that_fails_says_how() {
    assert_eq!(
        reply_of(ServiceReply::Unsent(text("refused"))),
        Err(text("Failed to send request to LM Studio: refused"))
    );
    assert_eq!(
        reply_of(ServiceReply::Refused(text("404"))),
        Err(text("LM Studio returned an HTTP error: 404"))
    );
    assert_eq!(
        reply_of(ServiceReply::Unparsed(text("eof"))),
        Err(text("Failed to parse JSON response from LM Studio: eof"))
    );
    let choice = ChatChoice {
        message: ChatMessage { role: text("assistant"), content: text("hi") },
    };
    assert_eq!(
        reply_of(ServiceReply::Answered(ChatCompletionResponse { choices: vec![choice] })),
        Ok(text("hi"))
    );
}

#[test]
fn only_a_system_message_is_given_the_prompt() {
    assert_eq!(full_system_prompt("p", &None), "p");
    let mut messages = vec![ChatMessage { role: text("user"), content: text("hi") }];
    set_system_text(&mut messages, text("p"));
    assert_eq!(messages[0].content, "hi");
    let mut none: Vec<ChatMessage> = vec![];
    set_system_text(&mut none, text("p"));
    assert_eq!(none.len(), 0);
}

#[test]
fn the_wait_is_shown_in_a_chat_only() {
    assert_eq!(
        start_thinking(true),
        vec![
            TermOp::EnableRawMode(Failure::EnableRawMode),
            print("Thinking... (Press Esc to cancel)"),
            TermOp::Flush(Failure::FlushStdout),
        ]
    );
    assert_eq!(start_thinking(false), vec![]);
    assert_eq!(
        end_thinking(true, Race::Answered(Ok(text("a")))),
        (
            vec![
                TermOp::DisableRawMode(Failure::Ignored),
                print("\r"),
                TermOp::ClearLine(Failure::Ignored),
                TermOp::Flush(Failure::FlushStdout),
            ],
            Ok(Some(text("a")))
        )
    );
    assert_eq!(
        end_thinking(true, Race::Interrupted),
        (
            vec![
                TermOp::DisableRawMode(Failure::Ignored),
                print("\n\x1b[31m[Thinking interrupted by user via Esc]\x1b[0m\n"),
            ],
            Ok(None)
        )
    );
    assert_eq!(
        end_thinking(false, Race::Answered(Err(text("e")))),
        (vec![], Err(text("e")))
    );
    assert_eq!(end_thinking(false, Race::Interrupted), (vec![], Ok(None)));
}
