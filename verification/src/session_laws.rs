//! What holds of sessions as a whole.
use vstd::prelude::*;

use crate::chat::{
    prompt_with_memo, request_for, with_system_text, ChatCompletionRequest, MessageView, RequestView,
};
use crate::editor::{
    framed_prompt, fresh, lower_row, meaning_of, opening_ops, Frame, KeyMeaning,
};
use crate::editor_laws::{
    ends, goes_on, law_a_framed_prompt_stands_between_its_borders, press_all_ops, stands_below,
};
use crate::outside::{ascii_lowered, lowercase, trimmed};
use crate::powershell::powershell_block;
use crate::screen::printed;
use crate::session::{
    approves, awaits, chat_prompt, is_farewell, next, on_decision, opening, Action, Event, Phase,
    SessionView, Step, StepView,
};
use crate::startup::SYSTEM_PROMPT;
use crate::terminal::{ops_view, Failure, KeyInput, TermOp};
use crate::text::joined;

verus! {

/// What every session keeps to:
/// - the conversation starts with the system's message;
/// - while the model is asked, the last message is the user's;
/// - a command that is asked about, or that runs, is the one that the last
///   message holds, and that message is the assistant's;
/// - only a chat reads lines of a chat.
pub open spec fn sound(state: SessionView) -> bool {
    &&& state.messages.len() > 0
    &&& state.messages[0].role == "system"@
    &&& match state.phase {
        Phase::Prompting => state.interactive,
        Phase::LoadingMemo | Phase::AwaitingReply => {
            &&& state.messages.len() > 1
            &&& state.messages.last().role == "user"@
        },
        Phase::Confirming(command) | Phase::Running(command) => {
            &&& state.messages.len() > 1
            &&& state.messages.last().role == "assistant"@
            &&& powershell_block(state.messages.last().content) == Some(command)
        },
        Phase::Ended => true,
    }
}

/// A session starts sound.
pub proof fn law_sessions_start_sound(model: Seq<char>, arguments: Seq<Seq<char>>)
    ensures
        sound(opening(model, arguments).state),
{
}

/// A sound session stays sound, whatever it hears.
pub proof fn law_sessions_stay_sound(state: SessionView, event: Event<Seq<char>>)
    requires
        sound(state),
        awaits(state.phase, event),
    ensures
        sound(next(state, event).state),
{
}

/// Whether a session waits for each of some events when it comes.
pub open spec fn awaits_all(state: SessionView, events: Seq<Event<Seq<char>>>) -> bool
    decreases events.len(),
{
    events.len() > 0 ==> awaits_all(state, events.drop_last()) && awaits(
        after(state, events.drop_last()).phase,
        events.last(),
    )
}

/// The session after some events.
pub open spec fn after(state: SessionView, events: Seq<Event<Seq<char>>>) -> SessionView
    decreases events.len(),
{
    if events.len() == 0 {
        state
    } else {
        next(after(state, events.drop_last()), events.last()).state
    }
}

/// A session is sound at every time of its life.
pub proof fn law_sessions_are_always_sound(
    model: Seq<char>,
    arguments: Seq<Seq<char>>,
    events: Seq<Event<Seq<char>>>,
)
    requires
        awaits_all(opening(model, arguments).state, events),
    ensures
        sound(after(opening(model, arguments).state, events)),
    decreases events.len(),
{
    if events.len() == 0 {
        law_sessions_start_sound(model, arguments);
    } else {
        law_sessions_are_always_sound(model, arguments, events.drop_last());
        law_sessions_stay_sound(
            after(opening(model, arguments).state, events.drop_last()),
            events.last(),
        );
    }
}

/// Whether an action is the one that brings what a session waits for.
pub open spec fn action_fits(
    phase: Phase<Seq<char>>,
    action: Action<Seq<char>, RequestView>,
) -> bool {
    match phase {
        Phase::Prompting | Phase::Confirming(_) => action is ReadLine,
        Phase::LoadingMemo => action is LoadMemo,
        Phase::AwaitingReply => action is Send,
        Phase::Running(command) => action == Action::<Seq<char>, RequestView>::Run(command),
        Phase::Ended => action is Quit,
    }
}

/// A session always asks for what it waits for, so that what comes of an
/// action is never unexpected.
pub proof fn law_actions_fit(
    model: Seq<char>,
    arguments: Seq<Seq<char>>,
    state: SessionView,
    event: Event<Seq<char>>,
)
    requires
        awaits(state.phase, event),
    ensures
        action_fits(
            opening(model, arguments).state.phase,
            opening(model, arguments).action,
        ),
        action_fits(next(state, event).state.phase, next(state, event).action),
{
}

/// A command runs only if the user has just approved it, and it is the command
/// that the assistant's last message holds.
pub proof fn law_only_approved_commands_run(
    state: SessionView,
    event: Event<Seq<char>>,
    command: Seq<char>,
)
    requires
        sound(state),
        awaits(state.phase, event),
        next(state, event).action == Action::<Seq<char>, RequestView>::Run(command),
    ensures
        state.phase == Phase::Confirming(command),
        event matches Event::Line(Ok(Some(answer))) && approves(answer),
        state.messages.last().role == "assistant"@,
        powershell_block(state.messages.last().content) == Some(command),
{
}

/// While the user is asked about a command, the last event was the reply that
/// holds it.
proof fn lemma_confirming_follows_a_reply(
    model: Seq<char>,
    arguments: Seq<Seq<char>>,
    events: Seq<Event<Seq<char>>>,
)
    requires
        awaits_all(opening(model, arguments).state, events),
        after(opening(model, arguments).state, events).phase is Confirming,
    ensures
        events.len() > 0,
        events.last() matches Event::Reply(Ok(Some(answer))) && powershell_block(answer) == Some(
            after(opening(model, arguments).state, events).phase->Confirming_0,
        ),
{
}

/// In the whole life of a session, a command runs only directly after the
/// reply that holds it was received and a line that approves was read.
pub proof fn law_a_command_runs_only_after_reply_and_approval(
    model: Seq<char>,
    arguments: Seq<Seq<char>>,
    events: Seq<Event<Seq<char>>>,
    event: Event<Seq<char>>,
    command: Seq<char>,
)
    requires
        awaits_all(opening(model, arguments).state, events),
        awaits(after(opening(model, arguments).state, events).phase, event),
        next(after(opening(model, arguments).state, events), event).action == Action::<
            Seq<char>,
            RequestView,
        >::Run(command),
    ensures
        events.len() > 0,
        events.last() matches Event::Reply(Ok(Some(answer))) && powershell_block(answer) == Some(
            command,
        ),
        event matches Event::Line(Ok(Some(answer))) && approves(answer),
{
    lemma_confirming_follows_a_reply(model, arguments, events);
}

/// No session runs a command at its start.
pub proof fn law_no_command_runs_at_the_start(model: Seq<char>, arguments: Seq<Seq<char>>)
    ensures
        !(opening(model, arguments).action is Run),
{
}

/// A command that is not approved leaves no trace: the conversation and the
/// last output are what they were, and the model's turn is over.
pub proof fn law_a_declined_command_leaves_no_trace(
    state: SessionView,
    event: Event<Seq<char>>,
)
    requires
        state.phase is Confirming,
        awaits(state.phase, event),
        !(event matches Event::Line(Ok(Some(answer))) && approves(answer)),
    ensures
        next(state, event).state == (SessionView {
            phase: if state.interactive {
                Phase::Prompting
            } else {
                Phase::Ended
            },
            ..state
        }),
{
}

/// The user's word, taken directly, runs a command only if it is a yes, and
/// only the one that was asked about, which the assistant's last message holds.
pub proof fn law_a_decision_runs_only_what_was_asked_about(
    state: SessionView,
    asked: Seq<char>,
    approved: bool,
    command: Seq<char>,
)
    requires
        sound(state),
        state.phase == Phase::Confirming(asked),
        on_decision(state, asked, approved).action == Action::<Seq<char>, RequestView>::Run(
            command,
        ),
    ensures
        approved,
        command == asked,
        powershell_block(state.messages.last().content) == Some(command),
{
}

/// An approved command runs.
pub proof fn law_an_approved_command_runs(
    state: SessionView,
    command: Seq<char>,
    answer: Seq<char>,
)
    requires
        state.phase == Phase::Confirming(command),
        approves(answer),
    ensures
        next(state, Event::Line(Ok(Some(answer)))).action == Action::<Seq<char>, RequestView>::Run(
            command,
        ),
{
}

/// Whether a conversation holds what another holds, but for the text of the
/// system's message.
pub open spec fn keeps_history(older: Seq<MessageView>, newer: Seq<MessageView>) -> bool {
    &&& older.len() <= newer.len()
    &&& forall|i: int| 0 < i < older.len() ==> #[trigger] newer[i] == older[i]
    &&& older.len() > 0 ==> newer[0].role == older[0].role
}

/// The conversation is kept: an event adds at most one message and changes
/// none but the system's, and only a request that fails in a chat takes a
/// message away.
pub proof fn law_history_is_kept(state: SessionView, event: Event<Seq<char>>)
    requires
        awaits(state.phase, event),
        !(state.interactive && event matches Event::Reply(Err(_))),
    ensures
        keeps_history(state.messages, next(state, event).state.messages),
        next(state, event).state.messages.len() <= state.messages.len() + 1,
{
}

/// When a request fails in a chat, the message that was not answered is taken
/// back, and it is the user's. Nothing else changes, and the chat goes on.
pub proof fn law_a_failed_request_takes_back_its_message(state: SessionView, error: Seq<char>)
    requires
        sound(state),
        state.interactive,
        state.phase is AwaitingReply,
    ensures
        state.messages.last().role == "user"@,
        next(state, Event::Reply(Err(error))).state == (SessionView {
            messages: state.messages.drop_last(),
            phase: Phase::Prompting,
            ..state
        }),
{
}

/// A line of the chat whose request fails leaves the chat as it was before the
/// line, but for the memo that the system's message was given.
pub proof fn law_a_failed_line_is_rolled_back(
    state: SessionView,
    text: Seq<char>,
    memo: Option<Seq<char>>,
    error: Seq<char>,
)
    requires
        sound(state),
        state.phase is Prompting,
        trimmed(text).len() > 0,
        !is_farewell(trimmed(text)),
    ensures
        awaits_all(
            state,
            seq![Event::Line(Ok(Some(text))), Event::Memo(memo), Event::Reply(Err(error))],
        ),
        after(
            state,
            seq![Event::Line(Ok(Some(text))), Event::Memo(memo), Event::Reply(Err(error))],
        ) == (SessionView {
            messages: with_system_text(state.messages, prompt_with_memo(SYSTEM_PROMPT@, memo)),
            ..state
        }),
{
    let line = Event::Line(Ok(Some(text)));
    let read = Event::Memo(memo);
    let failed = Event::Reply(Err(error));
    let events = seq![line, read, failed];
    assert(events.drop_last() =~= seq![line, read]);
    assert(seq![line, read].drop_last() =~= seq![line]);
    assert(seq![line].drop_last() =~= Seq::empty());
    reveal_with_fuel(after, 4);
    reveal_with_fuel(awaits_all, 4);
    let s1 = next(state, line).state;
    let s2 = next(s1, read).state;
    let s3 = next(s2, failed).state;
    assert(s3.messages =~= with_system_text(
        state.messages,
        prompt_with_memo(SYSTEM_PROMPT@, memo),
    ));
}

/// What is sent is the conversation, with the system prompt and the memo as it
/// has just been read in its first message, and the user's message last.
pub proof fn law_requests_carry_memo_and_history(state: SessionView, memo: Option<Seq<char>>)
    requires
        sound(state),
        state.phase is LoadingMemo,
    ensures
        ({
            let step = next(state, Event::Memo(memo));
            &&& step.action == Action::<Seq<char>, RequestView>::Send(
                request_for(state.model, step.state.messages),
            )
            &&& step.state.messages.len() == state.messages.len()
            &&& step.state.messages[0] == MessageView {
                role: "system"@,
                content: prompt_with_memo(SYSTEM_PROMPT@, memo),
            }
            &&& forall|i: int|
                0 < i < state.messages.len() ==> #[trigger] step.state.messages[i]
                    == state.messages[i]
        }),
{
}

/// The output that can be shown is that of the last command that ran: an event
/// changes it only if it tells of such a command.
pub proof fn law_last_output_is_of_the_last_command(state: SessionView, event: Event<Seq<char>>)
    requires
        awaits(state.phase, event),
    ensures
        next(state, event).state.last_output == match event {
            Event::Ran(Ok((_, output))) => output,
            _ => state.last_output,
        },
{
}

/// The kind of session and the model never change.
pub proof fn law_kind_and_model_never_change(state: SessionView, event: Event<Seq<char>>)
    ensures
        next(state, event).state.interactive == state.interactive,
        next(state, event).state.model == state.model,
{
}

/// A chat ends only with a farewell or where its line cannot be read.
pub proof fn law_a_chat_ends_only_on_request(state: SessionView, event: Event<Seq<char>>)
    requires
        state.interactive,
        awaits(state.phase, event),
        next(state, event).action is Quit,
    ensures
        state.phase is Prompting,
        match event {
            Event::Line(Ok(Some(text))) => is_farewell(trimmed(text)),
            Event::Line(Err(_)) => true,
            _ => false,
        },
{
}

/// The line of a chat is read in a frame, and no other line is.
pub proof fn law_the_line_of_a_chat_is_framed(
    model: Seq<char>,
    arguments: Seq<Seq<char>>,
    state: SessionView,
    event: Event<Seq<char>>,
)
    requires
        awaits(state.phase, event),
    ensures
        opening(model, arguments).action matches Action::ReadLine(prompt, frame) ==> prompt
            == chat_prompt() && frame == Frame::Bordered,
        next(state, event).action matches Action::ReadLine(prompt, frame) ==> if next(
            state,
            event,
        ).state.phase is Prompting {
            prompt == chat_prompt() && frame == Frame::Bordered
        } else {
            frame == Frame::Bare
        },
{
}

/// The prompt of a chat stands between the two rows of its border, whatever is
/// done while the line is edited and however it ends, unless a line feed is
/// typed into it.
pub proof fn law_the_prompt_of_a_chat_stands_between_borders(
    last_output: Seq<char>,
    keys: Seq<KeyInput>,
    last: KeyInput,
)
    requires
        forall|i: int| 0 <= i < keys.len() ==> goes_on(#[trigger] keys[i]),
        ends(last),
    ensures
        ({
            let editor = fresh(chat_prompt(), last_output, Frame::Bordered);
            let ops = opening_ops(chat_prompt(), Frame::Bordered) + press_all_ops(
                editor,
                keys.push(last),
            );
            let farewell = if meaning_of(last) == KeyMeaning::Exit {
                "Goodbye!\n"@
            } else {
                Seq::empty()
            };
            exists|text: Seq<char>, before: Seq<char>, row: Seq<char>, at: int|
                #[trigger] stands_below(
                    text,
                    before,
                    row,
                    framed_prompt(chat_prompt(), Frame::Bordered),
                    at,
                ) && printed(ops) == text + "\n"@ + lower_row() + farewell
        }),
{
    reveal_strlit("> \x1b[93m");
    law_a_framed_prompt_stands_between_its_borders(chat_prompt(), last_output, keys, last);
}

/// A single query never reads a line of a chat: when the model's turn is over,
/// so is the session.
pub proof fn law_a_single_query_ends_with_its_turn(state: SessionView, event: Event<Seq<char>>)
    requires
        sound(state),
        !state.interactive,
        awaits(state.phase, event),
    ensures
        !(next(state, event).state.phase is Prompting),
        state.phase is AwaitingReply && (event matches Event::Reply(Ok(Some(answer)))
            ==> powershell_block(answer) is None) ==> next(state, event).action is Quit,
{
}

/// The memo goes to the model whole: with a memo, the system's message that is
/// sent is the system prompt, the heading, every character of the memo and the
/// mark of its end, and nothing else; without one it is the system prompt alone.
pub proof fn law_the_whole_memo_is_sent(state: SessionView, memo: Option<Seq<char>>)
    requires
        state.phase is LoadingMemo,
        state.messages.len() > 0,
        state.messages[0].role == "system"@,
    ensures
        next(state, Event::Memo(memo)).action matches Action::Send(request) && ({
            let sent = request.messages[0].content;
            let heading
                = "\n\n[MEMO / PROGRESS NOTES - read this to remember your current state]\n"@;
            let end = "\n[END OF MEMO]"@;
            let start = SYSTEM_PROMPT@.len() as int;
            match memo {
                None => sent == SYSTEM_PROMPT@,
                Some(noted) => {
                    let from = start + heading.len();
                    let to = from + noted.len();
                    &&& sent.len() == to + end.len()
                    &&& sent.subrange(0, start) == SYSTEM_PROMPT@
                    &&& sent.subrange(start, from) == heading
                    &&& forall|i: int| 0 <= i < noted.len() ==> sent[from + i] == #[trigger] noted[i]
                    &&& sent.subrange(to, to + end.len()) == end
                },
            }
        }),
{
    if let Some(noted) = memo {
        let heading = "\n\n[MEMO / PROGRESS NOTES - read this to remember your current state]\n"@;
        let end = "\n[END OF MEMO]"@;
        let sent = next(state, Event::Memo(memo)).state.messages[0].content;
        let start = SYSTEM_PROMPT@.len() as int;
        let from = start + heading.len();
        let to = from + noted.len();
        assert(sent =~= SYSTEM_PROMPT@ + heading + noted + end);
        assert(sent.subrange(0, start) =~= SYSTEM_PROMPT@);
        assert(sent.subrange(start, from) =~= heading);
        assert(sent.subrange(to, to + end.len()) =~= end);
    }
}

/// The whole conversation goes to the model: the request holds as many messages
/// as the conversation, with the same role at every place and the same text at
/// every place but the first, which is the system's; it names the session's
/// model; and it asks for what every request asks for. The conversation that is
/// kept is the one that was sent.
pub proof fn law_the_whole_conversation_is_sent(state: SessionView, memo: Option<Seq<char>>)
    requires
        state.phase is LoadingMemo,
    ensures
        ({
            let step = next(state, Event::Memo(memo));
            &&& step.action matches Action::Send(request) && {
                &&& request.model == state.model
                &&& request.messages.len() == state.messages.len()
                &&& forall|i: int|
                    #![trigger request.messages[i]]
                    0 <= i < state.messages.len() ==> request.messages[i].role
                        == state.messages[i].role && (i > 0 || state.messages[0].role != "system"@
                        ==> request.messages[i].content == state.messages[i].content)
                &&& request.messages == step.state.messages
                &&& request.temperature_tenths == 2
                &&& request.max_tokens == 2048
                &&& !request.stream
            }
            &&& step.ops.len() == 0
            &&& step.state.phase is AwaitingReply
            &&& step.state.last_output == state.last_output
            &&& step.state.interactive == state.interactive
            &&& step.state.model == state.model
        }),
{
}

/// As long as no request fails, the conversation only grows: whatever happens,
/// every message keeps its place, and only the system's changes its text.
pub proof fn law_nothing_said_is_forgotten(state: SessionView, events: Seq<Event<Seq<char>>>)
    requires
        awaits_all(state, events),
        forall|i: int|
            0 <= i < events.len() ==> !(#[trigger] events[i] matches Event::Reply(Err(_))),
    ensures
        keeps_history(state.messages, after(state, events).messages),
    decreases events.len(),
{
    if events.len() > 0 {
        let earlier = events.drop_last();
        assert forall|i: int| 0 <= i < earlier.len() implies !(
        #[trigger] earlier[i] matches Event::Reply(Err(_))) by {
            assert(earlier[i] == events[i]);
        }
        assert(!(events[events.len() - 1] matches Event::Reply(Err(_))));
        law_nothing_said_is_forgotten(state, earlier);
        let before = after(state, earlier);
        law_history_is_kept(before, events.last());
        let now = after(state, events);
        assert forall|i: int| 0 < i < state.messages.len() implies #[trigger] now.messages[i]
            == state.messages[i] by {
            assert(before.messages[i] == state.messages[i]);
        }
    }
}

/// Whether a conversation is another with one message more, and nothing else.
pub open spec fn is_extended(
    older: SessionView,
    newer: SessionView,
    role: Seq<char>,
    content: Seq<char>,
) -> bool {
    &&& newer.messages.len() == older.messages.len() + 1
    &&& forall|i: int|
        0 <= i < older.messages.len() ==> #[trigger] newer.messages[i] == older.messages[i]
    &&& newer.messages.last().role == role
    &&& newer.messages.last().content == content
    &&& newer.interactive == older.interactive
    &&& newer.model == older.model
}

/// Whether a chat goes on with its next line, or a single query is done.
pub open spec fn is_turn_over(state: SessionView, step: StepView) -> bool {
    if state.interactive {
        &&& step.state.phase is Prompting
        &&& step.action == Action::<Seq<char>, RequestView>::ReadLine(
            "> \x1b[93m"@,
            Frame::Bordered,
        )
    } else {
        &&& step.state.phase is Ended
        &&& step.action is Quit
    }
}

/// A reply is shown whole and kept whole as the assistant's message, whatever
/// came before. If it holds a command, the user is asked about that command,
/// every time; if it holds none, the turn is over.
pub proof fn law_every_command_is_asked_about(state: SessionView, answer: Seq<char>)
    requires
        state.phase is AwaitingReply,
    ensures
        ({
            let step = next(state, Event::Reply(Ok(Some(answer))));
            &&& step.ops.len() == 1
            &&& step.ops[0] == TermOp::Print("\n• "@ + answer + "\n\n"@)
            &&& is_extended(state, step.state, "assistant"@, answer)
            &&& step.state.last_output == state.last_output
            &&& match powershell_block(answer) {
                Some(command) => {
                    &&& step.state.phase == Phase::Confirming(command)
                    &&& step.action == Action::<Seq<char>, RequestView>::ReadLine(
                        "\x1b[1;36mExecute PowerShell command? (y/N): \x1b[0m"@,
                        Frame::Bare,
                    )
                },
                None => is_turn_over(state, step),
            }
        }),
{
}

/// An interrupted request ends the turn and changes nothing. One that fails says
/// why; in a chat the last message is taken back, and only that.
pub proof fn law_a_request_without_an_answer_ends_the_turn(state: SessionView, error: Seq<char>)
    requires
        state.phase is AwaitingReply,
    ensures
        ({
            let step = next(state, Event::Reply(Ok(None)));
            &&& step.ops.len() == 0
            &&& is_turn_over(state, step)
            &&& step.state == SessionView { phase: step.state.phase, ..state }
        }),
        ({
            let step = next(state, Event::Reply(Err(error)));
            let kept = if state.interactive && state.messages.len() > 0 {
                state.messages.len() - 1
            } else {
                state.messages.len() as int
            };
            let word = if state.interactive {
                "\nError: "@
            } else {
                "\nExecution Error: "@
            };
            &&& step.ops.len() == 1
            &&& step.ops[0] == TermOp::PrintError(word + error + "\n\n"@)
            &&& is_turn_over(state, step)
            &&& step.state.messages.len() == kept
            &&& forall|i: int|
                0 <= i < kept ==> #[trigger] step.state.messages[i] == state.messages[i]
            &&& step.state == SessionView {
                phase: step.state.phase,
                messages: step.state.messages,
                ..state
            }
        }),
{
}

/// The result of a command goes to the model and to the user as it is, whatever
/// ran before: the message that is added, which is the user's, holds exactly
/// what this command printed, and so does the output that can be shown; or it
/// names the error because of which the command could not be run. The user sees
/// which of these it was, and the model is asked again.
pub proof fn law_a_result_is_told_as_it_is(
    state: SessionView,
    success: bool,
    output: Seq<char>,
    error: Seq<char>,
)
    requires
        state.phase is Running,
    ensures
        ({
            let step = next(state, Event::Ran(Ok((success, output))));
            &&& is_extended(state, step.state, "user"@, "Command output:\n"@ + output)
            &&& step.state.last_output == output
            &&& step.state.phase is LoadingMemo
            &&& step.action is LoadMemo
            &&& step.ops.len() == 1
            &&& success ==> step.ops[0] == TermOp::Print(
                "\n\x1b[32m[✔ PowerShell command executed successfully. Press Ctrl+O to expand output]\x1b[0m\n\n"@,
            )
            &&& !success ==> step.ops[0] == TermOp::Print(
                "\n\x1b[31m[✘ PowerShell command failed. Press Ctrl+O to expand output]\x1b[0m\n\n"@,
            )
        }),
        ({
            let step = next(state, Event::Ran(Err(error)));
            &&& is_extended(
                state,
                step.state,
                "user"@,
                "Command execution failed with internal error: "@ + error,
            )
            &&& step.state.last_output == state.last_output
            &&& step.state.phase is LoadingMemo
            &&& step.action is LoadMemo
            &&& step.ops.len() == 1
            &&& step.ops[0] == TermOp::Print(
                "\x1b[31mExecution error: "@ + error + "\x1b[0m\n"@,
            )
        }),
{
}

/// The word that decides on a command is `y` or `yes` in lower case, once the
/// white space round the answer is gone. It runs the command that was asked
/// about; any other answer, or none, says what happened, ends the turn and
/// leaves the session as it was.
pub proof fn law_only_a_yes_runs_the_command(
    state: SessionView,
    command: Seq<char>,
    answer: Seq<char>,
    error: Seq<char>,
)
    requires
        state.phase == Phase::Confirming(command),
    ensures
        ({
            let step = next(state, Event::Line(Ok(Some(answer))));
            let word = lowercase(trimmed(answer));
            &&& step.ops.len() == 1
            &&& step.state == SessionView { phase: step.state.phase, ..state }
            &&& if word == "y"@ || word == "yes"@ {
                &&& step.action == Action::<Seq<char>, RequestView>::Run(command)
                &&& step.state.phase == Phase::Running(command)
                &&& step.ops[0] == TermOp::Print(
                    "\x1b[33mExecuting command via PowerShell...\x1b[0m\n"@,
                )
            } else {
                &&& is_turn_over(state, step)
                &&& step.ops[0] == TermOp::Print("Execution cancelled by user.\n"@)
            }
        }),
        ({
            let step = next(state, Event::Line(Ok(None)));
            &&& step.ops.len() == 1
            &&& step.ops[0] == TermOp::Print("Execution sequence interrupted by user.\n"@)
            &&& is_turn_over(state, step)
            &&& step.state == SessionView { phase: step.state.phase, ..state }
        }),
        ({
            let step = next(state, Event::Line(Err(error)));
            &&& step.ops.len() == 1
            &&& step.ops[0] == TermOp::PrintError("Input error: "@ + error + "\n"@)
            &&& is_turn_over(state, step)
            &&& step.state == SessionView { phase: step.state.phase, ..state }
        }),
{
}

/// The user's word, taken directly, runs the command that was asked about if it
/// is a yes; if it is not, the turn is over. Nothing else changes.
pub proof fn law_a_decision_does_what_the_word_says(state: SessionView, command: Seq<char>)
    ensures
        ({
            let step = on_decision(state, command, true);
            &&& step.action == Action::<Seq<char>, RequestView>::Run(command)
            &&& step.state == SessionView { phase: Phase::Running(command), ..state }
            &&& step.ops.len() == 1
            &&& step.ops[0] == TermOp::Print(
                "\x1b[33mExecuting command via PowerShell...\x1b[0m\n"@,
            )
        }),
        ({
            let step = on_decision(state, command, false);
            &&& is_turn_over(state, step)
            &&& step.state == SessionView { phase: step.state.phase, ..state }
            &&& step.ops.len() == 1
            &&& step.ops[0] == TermOp::Print("Execution cancelled by user.\n"@)
        }),
{
}

/// A line of the chat goes to the model without the white space round it and
/// otherwise as it was typed, in a message behind all others. A line of white
/// space alone is asked for again, and one of the two farewells, in letters of
/// any case, ends the chat; neither becomes a message.
pub proof fn law_a_line_of_the_chat_is_put_to_the_model(state: SessionView, text: Seq<char>)
    requires
        state.phase is Prompting,
    ensures
        ({
            let step = next(state, Event::Line(Ok(Some(text))));
            let said = trimmed(text);
            let lowered = ascii_lowered(said);
            let leaves = lowered == "exit"@ || lowered == "quit"@;
            &&& step.ops.len() == if leaves {
                3int
            } else {
                2int
            }
            &&& step.ops[0] == TermOp::Print("\x1b[0m"@)
            &&& step.ops[1] == TermOp::<Seq<char>>::Flush(Failure::FlushStdout)
            &&& step.state.last_output == state.last_output
            &&& if said.len() == 0 {
                &&& step.state == SessionView { phase: Phase::Prompting, ..state }
                &&& step.action == Action::<Seq<char>, RequestView>::ReadLine(
                    "> \x1b[93m"@,
                    Frame::Bordered,
                )
            } else if leaves {
                &&& step.state == SessionView { phase: Phase::Ended, ..state }
                &&& step.action is Quit
                &&& step.ops[2] == TermOp::Print("Goodbye!\n"@)
            } else {
                &&& is_extended(state, step.state, "user"@, said)
                &&& step.state.phase is LoadingMemo
                &&& step.action is LoadMemo
            }
        }),
{
    reveal_strlit("exit");
    reveal_strlit("quit");
    assert(ascii_lowered("exit"@) =~= "exit"@);
    assert(ascii_lowered("quit"@) =~= "quit"@);
    if trimmed(text).len() == 0 {
        assert(ascii_lowered(trimmed(text)).len() == 0);
    }
}

/// A line of the chat that is given up is asked for again, with a hint. One that
/// cannot be read ends the chat, with the reason. The conversation stays.
pub proof fn law_a_line_that_does_not_come(state: SessionView, error: Seq<char>)
    requires
        state.phase is Prompting,
    ensures
        ({
            let step = next(state, Event::Line(Ok(None)));
            &&& step.state == state
            &&& step.ops.len() == 1
            &&& step.ops[0] == TermOp::Print("(Use 'exit' or 'quit' to exit)\n"@)
            &&& step.action == Action::<Seq<char>, RequestView>::ReadLine(
                "> \x1b[93m"@,
                Frame::Bordered,
            )
        }),
        ({
            let step = next(state, Event::Line(Err(error)));
            &&& step.state == SessionView { phase: Phase::Ended, ..state }
            &&& step.ops.len() == 1
            &&& step.ops[0] == TermOp::PrintError("Input error: "@ + error + "\n"@)
            &&& step.action is Quit
        }),
{
}

/// A session starts with the system's message and nothing printed. The arguments
/// with a space between each two are the query, put to the model as they stand;
/// where they say nothing, a chat begins with its prompt.
pub proof fn law_how_a_session_starts(model: Seq<char>, arguments: Seq<Seq<char>>)
    ensures
        ({
            let step = opening(model, arguments);
            let query = joined(arguments, " "@);
            let messages = step.state.messages;
            &&& step.ops.len() == 0
            &&& step.state.model == model
            &&& step.state.last_output.len() == 0
            &&& step.state.interactive <==> trimmed(query).len() == 0
            &&& messages[0].role == "system"@
            &&& messages[0].content == SYSTEM_PROMPT@
            &&& if step.state.interactive {
                &&& messages.len() == 1
                &&& step.state.phase is Prompting
                &&& step.action == Action::<Seq<char>, RequestView>::ReadLine(
                    "> \x1b[93m"@,
                    Frame::Bordered,
                )
            } else {
                &&& messages.len() == 2
                &&& messages[1].role == "user"@
                &&& messages[1].content == query
                &&& step.state.phase is LoadingMemo
                &&& step.action is LoadMemo
            }
        }),
{
}

/// What a session waits for: a line while it prompts or asks about a command,
/// and the memo, a reply and the end of a command in their phases. Once it has
/// ended, it waits for nothing.
pub proof fn law_what_a_session_waits_for(phase: Phase<Seq<char>>, event: Event<Seq<char>>)
    ensures
        awaits(phase, event) <==> {
            ||| phase is Prompting && event is Line
            ||| phase is Confirming && event is Line
            ||| phase is LoadingMemo && event is Memo
            ||| phase is AwaitingReply && event is Reply
            ||| phase is Running && event is Ran
        },
{
}

/// What is said about events, actions and steps leaves nothing out and changes
/// nothing.
pub proof fn law_views_of_sessions_are_faithful(
    text: String,
    success: bool,
    frame: Frame,
    request: ChatCompletionRequest,
    step: Step,
    state: SessionView,
    expected: StepView,
)
    ensures
        Event::Line(Ok(Some(text)))@ == Event::Line(Ok(Some(text@))),
        Event::Line(Ok(None::<String>))@ == Event::<Seq<char>>::Line(Ok(None)),
        Event::Line(Err(text))@ == Event::Line(Err(text@)),
        Event::Memo(Some(text))@ == Event::Memo(Some(text@)),
        Event::Memo(None::<String>)@ == Event::<Seq<char>>::Memo(None),
        Event::Reply(Ok(Some(text)))@ == Event::Reply(Ok(Some(text@))),
        Event::Reply(Ok(None::<String>))@ == Event::<Seq<char>>::Reply(Ok(None)),
        Event::Reply(Err(text))@ == Event::Reply(Err(text@)),
        Event::Ran(Ok((success, text)))@ == Event::Ran(Ok((success, text@))),
        Event::Ran(Err(text))@ == Event::Ran(Err(text@)),
        Action::<String, ChatCompletionRequest>::ReadLine(text, frame)@ == Action::<
            Seq<char>,
            RequestView,
        >::ReadLine(text@, frame),
        Action::<String, ChatCompletionRequest>::LoadMemo@ is LoadMemo,
        Action::<String, ChatCompletionRequest>::Send(request)@ == Action::<
            Seq<char>,
            RequestView,
        >::Send(request@),
        Action::<String, ChatCompletionRequest>::Run(text)@ == Action::<
            Seq<char>,
            RequestView,
        >::Run(text@),
        Action::<String, ChatCompletionRequest>::Quit@ is Quit,
        Phase::Confirming(text)@ == Phase::Confirming(text@),
        Phase::Running(text)@ == Phase::Running(text@),
        Phase::<String>::Prompting@ is Prompting,
        Phase::<String>::LoadingMemo@ is LoadingMemo,
        Phase::<String>::AwaitingReply@ is AwaitingReply,
        Phase::<String>::Ended@ is Ended,
        step.is(state, expected) ==> state == expected.state && ops_view(step.ops@)
            == expected.ops && step.action@ == expected.action,
{
}

} // verus!
