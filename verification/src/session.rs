//! A session: a chat, or a single query, with all that it decides.
use vstd::prelude::*;
use vstd::utf8::is_ascii_chars;

use crate::chat::{
    build_request, full_system_prompt, memo_view, message, messages_view, prompt_with_memo,
    request_for, set_system_text, with_system_text, ChatCompletionRequest, ChatMessage,
    MessageView, RequestView,
};
use crate::editor::Frame;
use crate::outside::{ascii_lowered, lowercase, trimmed};
use crate::powershell::{extract_powershell_block, powershell_block};
use crate::startup::SYSTEM_PROMPT;
use crate::terminal::{no_ops, ops_view, push_op, push_print, Failure, TermOp};
use crate::text::{concat3, join, joined, same_text, texts};

verus! {

/// What a session waits for.
#[derive(Debug, PartialEq, Eq)]
pub enum Phase<T> {
    /// A line from the user.
    Prompting,
    /// The memo.
    LoadingMemo,
    /// The reply to a request.
    AwaitingReply,
    /// The user's word on whether a command may run.
    Confirming(T),
    /// The end of a command.
    Running(T),
    /// Nothing more.
    Ended,
}

impl View for Phase<String> {
    type V = Phase<Seq<char>>;

    open spec fn view(&self) -> Phase<Seq<char>> {
        match *self {
            Phase::Prompting => Phase::Prompting,
            Phase::LoadingMemo => Phase::LoadingMemo,
            Phase::AwaitingReply => Phase::AwaitingReply,
            Phase::Confirming(command) => Phase::Confirming(command@),
            Phase::Running(command) => Phase::Running(command@),
            Phase::Ended => Phase::Ended,
        }
    }
}

/// What a session hears. Errors come as the text that describes them.
#[derive(Debug, PartialEq, Eq)]
pub enum Event<T> {
    /// A line that was read, or none where it was given up.
    Line(Result<Option<T>, T>),
    /// The memo, where there is one.
    Memo(Option<T>),
    /// The reply to a request, or none where it was interrupted.
    Reply(Result<Option<T>, T>),
    /// Whether a command succeeded, and what it printed.
    Ran(Result<(bool, T), T>),
}

/// What a read line, or a reply, holds.
pub open spec fn input_view(input: Result<Option<String>, String>) -> Result<
    Option<Seq<char>>,
    Seq<char>,
> {
    match input {
        Ok(Some(text)) => Ok(Some(text@)),
        Ok(None) => Ok(None),
        Err(error) => Err(error@),
    }
}

/// What the result of a command holds.
pub open spec fn result_view(result: Result<(bool, String), String>) -> Result<
    (bool, Seq<char>),
    Seq<char>,
> {
    match result {
        Ok((success, output)) => Ok((success, output@)),
        Err(error) => Err(error@),
    }
}

impl View for Event<String> {
    type V = Event<Seq<char>>;

    open spec fn view(&self) -> Event<Seq<char>> {
        match *self {
            Event::Line(input) => Event::Line(input_view(input)),
            Event::Memo(memo) => Event::Memo(memo_view(memo)),
            Event::Reply(reply) => Event::Reply(input_view(reply)),
            Event::Ran(result) => Event::Ran(result_view(result)),
        }
    }
}

/// What a session asks for next.
#[derive(Debug, PartialEq, Eq)]
pub enum Action<T, R> {
    /// Read a line behind a prompt, in a frame or not.
    ReadLine(T, Frame),
    /// Read the memo.
    LoadMemo,
    /// Send a request.
    Send(R),
    /// Run a command.
    Run(T),
    /// End the program.
    Quit,
}

impl View for Action<String, ChatCompletionRequest> {
    type V = Action<Seq<char>, RequestView>;

    open spec fn view(&self) -> Action<Seq<char>, RequestView> {
        match *self {
            Action::ReadLine(prompt, frame) => Action::ReadLine(prompt@, frame),
            Action::LoadMemo => Action::LoadMemo,
            Action::Send(request) => Action::Send(request@),
            Action::Run(command) => Action::Run(command@),
            Action::Quit => Action::Quit,
        }
    }
}

/// All that a session knows.
#[verifier::ext_equal]
pub struct SessionView {
    /// Whether it is a chat; if not, it is a single query.
    pub interactive: bool,
    pub model: Seq<char>,
    pub messages: Seq<MessageView>,
    /// What the last command printed.
    pub last_output: Seq<char>,
    pub phase: Phase<Seq<char>>,
}

/// What comes of an event: the session after it, what is to be done on the
/// terminal, and then what to do next.
#[verifier::ext_equal]
pub struct StepView {
    pub state: SessionView,
    pub ops: Seq<TermOp<Seq<char>>>,
    pub action: Action<Seq<char>, RequestView>,
}

/// The prompt of the chat, which stands in a frame.
pub open spec fn chat_prompt() -> Seq<char> {
    "> \x1b[93m"@
}

/// The session with one message more.
pub open spec fn with_message(
    state: SessionView,
    role: Seq<char>,
    content: Seq<char>,
) -> SessionView {
    SessionView { messages: state.messages.push(MessageView { role, content }), ..state }
}

/// The session reads the next line of the chat.
pub open spec fn prompt_again(state: SessionView, ops: Seq<TermOp<Seq<char>>>) -> StepView {
    StepView {
        state: SessionView { phase: Phase::Prompting, ..state },
        ops,
        action: Action::ReadLine(chat_prompt(), Frame::Bordered),
    }
}

/// The session is over.
pub open spec fn quit(state: SessionView, ops: Seq<TermOp<Seq<char>>>) -> StepView {
    StepView {
        state: SessionView { phase: Phase::Ended, ..state },
        ops,
        action: Action::Quit,
    }
}

/// The session turns to the model, starting with a look at the memo.
pub open spec fn ask_model(state: SessionView, ops: Seq<TermOp<Seq<char>>>) -> StepView {
    StepView {
        state: SessionView { phase: Phase::LoadingMemo, ..state },
        ops,
        action: Action::LoadMemo,
    }
}

/// The model's turn is over: a chat goes on, a single query is done.
pub open spec fn turn_over(state: SessionView, ops: Seq<TermOp<Seq<char>>>) -> StepView {
    if state.interactive {
        prompt_again(state, ops)
    } else {
        quit(state, ops)
    }
}

/// The request failed. A chat goes on without the message that was not
/// answered.
pub open spec fn turn_failed(state: SessionView, error: Seq<char>) -> StepView {
    if state.interactive {
        prompt_again(
            SessionView {
                messages: if state.messages.len() > 0 {
                    state.messages.drop_last()
                } else {
                    state.messages
                },
                ..state
            },
            seq![TermOp::PrintError("\nError: "@ + error + "\n\n"@)],
        )
    } else {
        quit(state, seq![TermOp::PrintError("\nExecution Error: "@ + error + "\n\n"@)])
    }
}

/// Whether a text is one of the two words that end a chat, in letters of any
/// case.
pub open spec fn is_farewell(text: Seq<char>) -> bool {
    ascii_lowered(text) == ascii_lowered("exit"@) || ascii_lowered(text) == ascii_lowered("quit"@)
}

/// What comes of a line of the chat.
pub open spec fn on_chat_line(
    state: SessionView,
    input: Result<Option<Seq<char>>, Seq<char>>,
) -> StepView {
    match input {
        Ok(Some(text)) => {
            let ops = seq![TermOp::Print("\x1b[0m"@), TermOp::Flush(Failure::FlushStdout)];
            if trimmed(text).len() == 0 {
                prompt_again(state, ops)
            } else if is_farewell(trimmed(text)) {
                quit(state, ops.push(TermOp::Print("Goodbye!\n"@)))
            } else {
                ask_model(with_message(state, "user"@, trimmed(text)), ops)
            }
        },
        Ok(None) => prompt_again(
            state,
            seq![TermOp::Print("(Use 'exit' or 'quit' to exit)\n"@)],
        ),
        Err(error) => quit(state, seq![TermOp::PrintError("Input error: "@ + error + "\n"@)]),
    }
}

/// What comes of the memo: the system prompt is given the memo as it now is,
/// and the conversation is sent.
pub open spec fn on_memo(state: SessionView, memo: Option<Seq<char>>) -> StepView {
    let messages = with_system_text(
        state.messages,
        prompt_with_memo(SYSTEM_PROMPT@, memo),
    );
    StepView {
        state: SessionView { messages, phase: Phase::AwaitingReply, ..state },
        ops: seq![],
        action: Action::Send(request_for(state.model, messages)),
    }
}

/// What comes of a reply: it is shown and kept, and if it holds a command, the
/// user is asked about it.
pub open spec fn on_reply(
    state: SessionView,
    reply: Result<Option<Seq<char>>, Seq<char>>,
) -> StepView {
    match reply {
        Ok(Some(answer)) => {
            let ops = seq![TermOp::Print("\n• "@ + answer + "\n\n"@)];
            let kept = with_message(state, "assistant"@, answer);
            match powershell_block(answer) {
                Some(command) => StepView {
                    state: SessionView { phase: Phase::Confirming(command), ..kept },
                    ops,
                    action: Action::ReadLine(
                        "\x1b[1;36mExecute PowerShell command? (y/N): \x1b[0m"@,
                        Frame::Bare,
                    ),
                },
                None => turn_over(kept, ops),
            }
        },
        Ok(None) => turn_over(state, seq![]),
        Err(error) => turn_failed(state, error),
    }
}

/// Whether a text in lower case means yes.
pub open spec fn says_yes(lowered: Seq<char>) -> bool {
    lowered == "y"@ || lowered == "yes"@
}

/// Whether the user approves: with `y` or `yes`, in letters of any case and
/// with white space round it.
pub open spec fn approves(answer: Seq<char>) -> bool {
    says_yes(lowercase(trimmed(answer)))
}

/// What comes of the user's word on a command: it runs if it was approved.
pub open spec fn on_decision(state: SessionView, command: Seq<char>, approved: bool) -> StepView {
    if approved {
        StepView {
            state: SessionView { phase: Phase::Running(command), ..state },
            ops: seq![TermOp::Print("\x1b[33mExecuting command via PowerShell...\x1b[0m\n"@)],
            action: Action::Run(command),
        }
    } else {
        turn_over(state, seq![TermOp::Print("Execution cancelled by user.\n"@)])
    }
}

/// What comes of the line that was asked for about a command.
pub open spec fn on_confirmation(
    state: SessionView,
    command: Seq<char>,
    input: Result<Option<Seq<char>>, Seq<char>>,
) -> StepView {
    match input {
        Ok(Some(answer)) => on_decision(state, command, approves(answer)),
        Ok(None) => turn_over(
            state,
            seq![TermOp::Print("Execution sequence interrupted by user.\n"@)],
        ),
        Err(error) => turn_over(state, seq![TermOp::PrintError("Input error: "@ + error + "\n"@)]),
    }
}

/// What comes of a command that was run: the model is told.
pub open spec fn on_result(
    state: SessionView,
    result: Result<(bool, Seq<char>), Seq<char>>,
) -> StepView {
    match result {
        Ok((success, output)) => ask_model(
            SessionView {
                last_output: output,
                ..with_message(state, "user"@, "Command output:\n"@ + output)
            },
            seq![
                TermOp::Print(
                    if success {
                        "\n\x1b[32m[✔ PowerShell command executed successfully. Press Ctrl+O to expand output]\x1b[0m\n\n"@
                    } else {
                        "\n\x1b[31m[✘ PowerShell command failed. Press Ctrl+O to expand output]\x1b[0m\n\n"@
                    },
                ),
            ],
        ),
        Err(error) => ask_model(
            with_message(
                state,
                "user"@,
                "Command execution failed with internal error: "@ + error,
            ),
            seq![TermOp::Print("\x1b[31mExecution error: "@ + error + "\x1b[0m\n"@)],
        ),
    }
}

/// Whether an event is one that a session waits for.
pub open spec fn awaits(phase: Phase<Seq<char>>, event: Event<Seq<char>>) -> bool {
    match phase {
        Phase::Prompting | Phase::Confirming(_) => event is Line,
        Phase::LoadingMemo => event is Memo,
        Phase::AwaitingReply => event is Reply,
        Phase::Running(_) => event is Ran,
        Phase::Ended => false,
    }
}

/// What comes of an event that a session waits for.
pub open spec fn next(state: SessionView, event: Event<Seq<char>>) -> StepView
    recommends
        awaits(state.phase, event),
{
    match (state.phase, event) {
        (Phase::Prompting, Event::Line(input)) => on_chat_line(state, input),
        (Phase::Confirming(command), Event::Line(input)) => on_confirmation(state, command, input),
        (Phase::LoadingMemo, Event::Memo(memo)) => on_memo(state, memo),
        (Phase::AwaitingReply, Event::Reply(reply)) => on_reply(state, reply),
        (Phase::Running(_), Event::Ran(result)) => on_result(state, result),
        _ => quit(state, seq![]),
    }
}

/// The start of a session: with arguments that say something it is a single
/// query, which is put to the model, and without them a chat.
pub open spec fn opening(model: Seq<char>, arguments: Seq<Seq<char>>) -> StepView {
    let query = joined(arguments, " "@);
    let system = MessageView { role: "system"@, content: SYSTEM_PROMPT@ };
    let state = SessionView {
        interactive: trimmed(query).len() == 0,
        model,
        messages: seq![system],
        last_output: Seq::empty(),
        phase: Phase::Prompting,
    };
    if state.interactive {
        prompt_again(state, seq![])
    } else {
        ask_model(with_message(state, "user"@, query), seq![])
    }
}

/// Whether a text in lower case means yes.
pub fn is_yes(lowered: &str) -> (r: bool)
    ensures
        r == says_yes(lowered@),
        r == (lowered@ == "y"@ || lowered@ == "yes"@),
{
    same_text(lowered, "y") || same_text(lowered, "yes")
}

/// Whether the user approves. Of ASCII text it is certain: `y` and `yes` do, in
/// letters of either case.
pub fn is_approval(answer: &str) -> (r: bool)
    ensures
        r == approves(answer@),
        is_ascii_chars(trimmed(answer@)) ==> r == says_yes(ascii_lowered(trimmed(answer@))),
{
    let lowered = answer.trim().to_lowercase();
    is_yes(lowered.as_str())
}

/// What is to be done after an event: operations on the terminal, and then an
/// action.
#[derive(Debug, PartialEq, Eq)]
pub struct Step {
    pub ops: Vec<TermOp<String>>,
    pub action: Action<String, ChatCompletionRequest>,
}

impl Step {
    /// Whether this step, and a session as it now is, are what was specified.
    pub open spec fn is(self, state: SessionView, expected: StepView) -> bool {
        &&& state == expected.state
        &&& ops_view(self.ops@) == expected.ops
        &&& self.action@ == expected.action
    }
}

/// A session.
pub struct Session {
    interactive: bool,
    model: String,
    messages: Vec<ChatMessage>,
    last_output: String,
    phase: Phase<String>,
}

impl View for Session {
    type V = SessionView;

    closed spec fn view(&self) -> SessionView {
        SessionView {
            interactive: self.interactive,
            model: self.model@,
            messages: messages_view(self.messages@),
            last_output: self.last_output@,
            phase: self.phase@,
        }
    }
}

impl Session {
    /// Starts a session with a model and the arguments of the program.
    pub fn start(model: &str, arguments: &Vec<String>) -> (r: (Session, Step))
        ensures
            r.1.is(r.0@, opening(model@, texts(arguments@))),
    {
        let query = join(arguments, " ");
        let interactive = query.as_str().trim().is_empty();
        let mut messages: Vec<ChatMessage> = Vec::new();
        messages.push(message("system", SYSTEM_PROMPT));
        let mut session = Session {
            interactive,
            model: model.to_string(),
            messages,
            last_output: String::new(),
            phase: Phase::Prompting,
        };
        assert(session@.messages =~= seq![
            MessageView { role: "system"@, content: SYSTEM_PROMPT@ },
        ]);
        let step = if interactive {
            session.prompt_again(no_ops())
        } else {
            session.add_message("user", query.as_str());
            session.ask_model(no_ops())
        };
        (session, step)
    }

    /// Whether the session is a chat.
    pub fn is_interactive(&self) -> (r: bool)
        ensures
            r == self@.interactive,
    {
        self.interactive
    }

    /// The conversation so far.
    pub fn messages(&self) -> (r: &Vec<ChatMessage>)
        ensures
            messages_view(r@) == self@.messages,
    {
        &self.messages
    }

    /// What the last command printed.
    pub fn last_output(&self) -> (r: &str)
        ensures
            r@ == self@.last_output,
    {
        self.last_output.as_str()
    }

    /// What the session waits for.
    pub fn phase(&self) -> (r: &Phase<String>)
        ensures
            r@ == self@.phase,
    {
        &self.phase
    }

    /// Whether an event is one that the session waits for.
    pub fn expects(&self, event: &Event<String>) -> (r: bool)
        ensures
            r == awaits(self@.phase, event@),
    {
        match (&self.phase, event) {
            (Phase::Prompting, Event::Line(_)) => true,
            (Phase::Confirming(_), Event::Line(_)) => true,
            (Phase::LoadingMemo, Event::Memo(_)) => true,
            (Phase::AwaitingReply, Event::Reply(_)) => true,
            (Phase::Running(_), Event::Ran(_)) => true,
            _ => false,
        }
    }

    fn add_message(&mut self, role: &str, content: &str)
        ensures
            final(self)@ == with_message(old(self)@, role@, content@),
    {
        self.messages.push(message(role, content));
        assert(self@.messages =~= with_message(old(self)@, role@, content@).messages);
    }

    fn prompt_again(&mut self, ops: Vec<TermOp<String>>) -> (step: Step)
        ensures
            step.is(final(self)@, prompt_again(old(self)@, ops_view(ops@))),
    {
        self.phase = Phase::Prompting;
        Step { ops, action: Action::ReadLine("> \x1b[93m".to_string(), Frame::Bordered) }
    }

    fn quit(&mut self, ops: Vec<TermOp<String>>) -> (step: Step)
        ensures
            step.is(final(self)@, quit(old(self)@, ops_view(ops@))),
    {
        self.phase = Phase::Ended;
        Step { ops, action: Action::Quit }
    }

    fn ask_model(&mut self, ops: Vec<TermOp<String>>) -> (step: Step)
        ensures
            step.is(final(self)@, ask_model(old(self)@, ops_view(ops@))),
    {
        self.phase = Phase::LoadingMemo;
        Step { ops, action: Action::LoadMemo }
    }

    fn turn_over(&mut self, ops: Vec<TermOp<String>>) -> (step: Step)
        ensures
            step.is(final(self)@, turn_over(old(self)@, ops_view(ops@))),
    {
        if self.interactive {
            self.prompt_again(ops)
        } else {
            self.quit(ops)
        }
    }

    fn turn_failed(&mut self, error: &str) -> (step: Step)
        ensures
            step.is(final(self)@, turn_failed(old(self)@, error@)),
    {
        let mut ops = no_ops();
        if self.interactive {
            push_op(&mut ops, TermOp::PrintError(concat3("\nError: ", error, "\n\n")));
            self.messages.pop();
            assert(self@.messages =~= (if old(self)@.messages.len() > 0 {
                old(self)@.messages.drop_last()
            } else {
                old(self)@.messages
            }));
            self.prompt_again(ops)
        } else {
            push_op(&mut ops, TermOp::PrintError(concat3("\nExecution Error: ", error, "\n\n")));
            self.quit(ops)
        }
    }

    fn take_chat_line(&mut self, input: Result<Option<String>, String>) -> (step: Step)
        ensures
            step.is(final(self)@, on_chat_line(old(self)@, input_view(input))),
    {
        let mut ops = no_ops();
        match input {
            Ok(Some(text)) => {
                push_print(&mut ops, "\x1b[0m");
                push_op(&mut ops, TermOp::Flush(Failure::FlushStdout));
                assert(ops_view(ops@) =~= seq![
                    TermOp::Print("\x1b[0m"@),
                    TermOp::Flush(Failure::FlushStdout),
                ]);
                let line = text.as_str().trim();
                if line.is_empty() {
                    self.prompt_again(ops)
                } else if line.eq_ignore_ascii_case("exit") || line.eq_ignore_ascii_case("quit") {
                    push_print(&mut ops, "Goodbye!\n");
                    self.quit(ops)
                } else {
                    self.add_message("user", line);
                    self.ask_model(ops)
                }
            },
            Ok(None) => {
                push_print(&mut ops, "(Use 'exit' or 'quit' to exit)\n");
                self.prompt_again(ops)
            },
            Err(error) => {
                push_op(
                    &mut ops,
                    TermOp::PrintError(concat3("Input error: ", error.as_str(), "\n")),
                );
                self.quit(ops)
            },
        }
    }

    fn take_memo(&mut self, memo: Option<String>) -> (step: Step)
        ensures
            step.is(final(self)@, on_memo(old(self)@, memo_view(memo))),
    {
        let text = full_system_prompt(SYSTEM_PROMPT, &memo);
        set_system_text(&mut self.messages, text);
        self.phase = Phase::AwaitingReply;
        let request = build_request(self.model.as_str(), &self.messages);
        Step { ops: no_ops(), action: Action::Send(request) }
    }

    fn take_reply(&mut self, reply: Result<Option<String>, String>) -> (step: Step)
        ensures
            step.is(final(self)@, on_reply(old(self)@, input_view(reply))),
    {
        let mut ops = no_ops();
        match reply {
            Ok(Some(answer)) => {
                push_op(&mut ops, TermOp::Print(concat3("\n• ", answer.as_str(), "\n\n")));
                self.add_message("assistant", answer.as_str());
                match extract_powershell_block(answer.as_str()) {
                    Some(command) => {
                        self.phase = Phase::Confirming(command);
                        Step {
                            ops,
                            action: Action::ReadLine(
                                "\x1b[1;36mExecute PowerShell command? (y/N): \x1b[0m".to_string(),
                                Frame::Bare,
                            ),
                        }
                    },
                    None => self.turn_over(ops),
                }
            },
            Ok(None) => self.turn_over(ops),
            Err(error) => self.turn_failed(error.as_str()),
        }
    }

    /// Takes the user's word on the command that the session asked about: it
    /// runs if it was approved.
    pub fn decide(&mut self, approved: bool) -> (step: Step)
        requires
            old(self)@.phase is Confirming,
        ensures
            step.is(
                final(self)@,
                on_decision(old(self)@, old(self)@.phase->Confirming_0, approved),
            ),
    {
        let command = match &self.phase {
            Phase::Confirming(command) => command.clone(),
            _ => vstd::pervasive::unreached(),
        };
        let mut ops = no_ops();
        if approved {
            push_print(&mut ops, "\x1b[33mExecuting command via PowerShell...\x1b[0m\n");
            self.phase = Phase::Running(command.clone());
            Step { ops, action: Action::Run(command) }
        } else {
            push_print(&mut ops, "Execution cancelled by user.\n");
            self.turn_over(ops)
        }
    }

    fn take_confirmation(&mut self, input: Result<Option<String>, String>) -> (step: Step)
        requires
            old(self)@.phase is Confirming,
        ensures
            step.is(
                final(self)@,
                on_confirmation(old(self)@, old(self)@.phase->Confirming_0, input_view(input)),
            ),
            input_view(input) matches Ok(Some(answer)) ==> is_ascii_chars(trimmed(answer))
                ==> approves(answer) == says_yes(ascii_lowered(trimmed(answer))),
    {
        let mut ops = no_ops();
        match input {
            Ok(Some(answer)) => {
                let approved = is_approval(answer.as_str());
                self.decide(approved)
            },
            Ok(None) => {
                push_print(&mut ops, "Execution sequence interrupted by user.\n");
                self.turn_over(ops)
            },
            Err(error) => {
                push_op(
                    &mut ops,
                    TermOp::PrintError(concat3("Input error: ", error.as_str(), "\n")),
                );
                self.turn_over(ops)
            },
        }
    }

    fn take_result(&mut self, result: Result<(bool, String), String>) -> (step: Step)
        ensures
            step.is(final(self)@, on_result(old(self)@, result_view(result))),
    {
        let mut ops = no_ops();
        match result {
            Ok((success, output)) => {
                if success {
                    push_print(
                        &mut ops,
                        "\n\x1b[32m[✔ PowerShell command executed successfully. Press Ctrl+O to expand output]\x1b[0m\n\n",
                    );
                } else {
                    push_print(
                        &mut ops,
                        "\n\x1b[31m[✘ PowerShell command failed. Press Ctrl+O to expand output]\x1b[0m\n\n",
                    );
                }
                let told = "Command output:\n".to_string().concat(output.as_str());
                self.add_message("user", told.as_str());
                self.last_output = output;
                self.ask_model(ops)
            },
            Err(error) => {
                push_op(
                    &mut ops,
                    TermOp::Print(
                        concat3("\x1b[31mExecution error: ", error.as_str(), "\x1b[0m\n"),
                    ),
                );
                let told = "Command execution failed with internal error: ".to_string().concat(
                    error.as_str(),
                );
                self.add_message("user", told.as_str());
                self.ask_model(ops)
            },
        }
    }

    /// Takes an event, which must be one that the session waits for, and says
    /// what is to be done. Of an answer in ASCII text it is certain whether it
    /// approves of a command.
    pub fn step(&mut self, event: Event<String>) -> (step: Step)
        requires
            awaits(old(self)@.phase, event@),
        ensures
            step.is(final(self)@, next(old(self)@, event@)),
            old(self)@.phase is Confirming ==> (event@ matches Event::Line(Ok(Some(answer)))
                ==> is_ascii_chars(trimmed(answer)) ==> approves(answer) == says_yes(
                ascii_lowered(trimmed(answer)),
            )),
    {
        match event {
            Event::Line(input) => {
                let confirming = match &self.phase {
                    Phase::Confirming(_) => true,
                    _ => false,
                };
                if confirming {
                    self.take_confirmation(input)
                } else {
                    self.take_chat_line(input)
                }
            },
            Event::Memo(memo) => self.take_memo(memo),
            Event::Reply(reply) => self.take_reply(reply),
            Event::Ran(result) => self.take_result(result),
        }
    }
}

} // verus!
