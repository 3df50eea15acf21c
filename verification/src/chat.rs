//! Messages, and what is sent to and comes back from the chat service.
use vstd::prelude::*;

use crate::text::{concat3, same_text};

verus! {

/// A message of a conversation.
#[derive(Debug, PartialEq, Eq)]
pub struct ChatMessage {
    pub role: String,
    pub content: String,
}

/// What a message holds.
#[verifier::ext_equal]
pub struct MessageView {
    pub role: Seq<char>,
    pub content: Seq<char>,
}

impl View for ChatMessage {
    type V = MessageView;

    open spec fn view(&self) -> MessageView {
        MessageView { role: self.role@, content: self.content@ }
    }
}

/// What some messages hold.
pub open spec fn messages_view(messages: Seq<ChatMessage>) -> Seq<MessageView> {
    messages.map_values(|message: ChatMessage| message@)
}

/// A message of a given role.
pub fn message(role: &str, content: &str) -> (r: ChatMessage)
    ensures
        r@ == (MessageView { role: role@, content: content@ }),
{
    ChatMessage { role: role.to_string(), content: content.to_string() }
}

/// The same messages once more.
pub fn copy_messages(messages: &Vec<ChatMessage>) -> (r: Vec<ChatMessage>)
    ensures
        messages_view(r@) == messages_view(messages@),
        r@.len() == messages@.len(),
        forall|i: int|
            #![trigger r@[i]]
            0 <= i < messages@.len() ==> r@[i].role@ == messages@[i].role@ && r@[i].content@
                == messages@[i].content@,
{
    let mut r: Vec<ChatMessage> = Vec::new();
    let mut i: usize = 0;
    while i < messages.len()
        invariant
            i <= messages@.len(),
            messages_view(r@) == messages_view(messages@).take(i as int),
        decreases messages@.len() - i,
    {
        let ghost before = messages_view(r@);
        r.push(message(messages[i].role.as_str(), messages[i].content.as_str()));
        i = i + 1;
        assert(messages_view(r@) =~= before.push(messages@[i - 1]@));
        assert(messages_view(r@) =~= messages_view(messages@).take(i as int));
    }
    assert(messages_view(r@) =~= messages_view(messages@));
    assert forall|i: int| #![trigger r@[i]] 0 <= i < messages@.len() implies r@[i].role@
        == messages@[i].role@ && r@[i].content@ == messages@[i].content@ by {
        assert(messages_view(r@)[i] == messages_view(messages@)[i]);
    }
    r
}

/// A request to the chat service. The temperature is given in tenths.
#[derive(Debug, PartialEq, Eq)]
pub struct ChatCompletionRequest {
    pub model: String,
    pub messages: Vec<ChatMessage>,
    pub temperature_tenths: u8,
    pub max_tokens: u32,
    pub stream: bool,
}

/// What a request holds.
#[verifier::ext_equal]
pub struct RequestView {
    pub model: Seq<char>,
    pub messages: Seq<MessageView>,
    pub temperature_tenths: u8,
    pub max_tokens: u32,
    pub stream: bool,
}

impl View for ChatCompletionRequest {
    type V = RequestView;

    open spec fn view(&self) -> RequestView {
        RequestView {
            model: self.model@,
            messages: messages_view(self.messages@),
            temperature_tenths: self.temperature_tenths,
            max_tokens: self.max_tokens,
            stream: self.stream,
        }
    }
}

/// The request that asks a model to go on with a conversation.
pub open spec fn request_for(model: Seq<char>, messages: Seq<MessageView>) -> RequestView {
    RequestView { model, messages, temperature_tenths: 2, max_tokens: 2048, stream: false }
}

/// The request that asks a model to go on with a conversation.
pub fn build_request(model: &str, messages: &Vec<ChatMessage>) -> (r: ChatCompletionRequest)
    ensures
        r@ == request_for(model@, messages_view(messages@)),
        r.model@ == model@,
        r.messages@.len() == messages@.len(),
        forall|i: int|
            #![trigger r.messages@[i]]
            0 <= i < messages@.len() ==> r.messages@[i].role@ == messages@[i].role@
                && r.messages@[i].content@ == messages@[i].content@,
        r.temperature_tenths == 2 && r.max_tokens == 2048 && !r.stream,
{
    ChatCompletionRequest {
        model: model.to_string(),
        messages: copy_messages(messages),
        temperature_tenths: 2,
        max_tokens: 2048,
        stream: false,
    }
}

/// An answer that the chat service offers.
#[derive(Debug, PartialEq, Eq)]
pub struct ChatChoice {
    pub message: ChatMessage,
}

/// What comes back from the chat service.
#[derive(Debug, PartialEq, Eq)]
pub struct ChatCompletionResponse {
    pub choices: Vec<ChatChoice>,
}

/// The answer that is taken: the first that is offered, or a remark where none
/// is.
pub open spec fn answer_in(response: ChatCompletionResponse) -> Seq<char> {
    if response.choices@.len() > 0 {
        response.choices@[0].message.content@
    } else {
        "No response received."@
    }
}

/// The answer that is taken: the first that is offered, or a remark where none
/// is.
pub fn first_answer(response: &ChatCompletionResponse) -> (r: String)
    ensures
        r@ == answer_in(*response),
        response.choices@.len() > 0 ==> r@ == response.choices@[0].message.content@,
        response.choices@.len() == 0 ==> r@ == "No response received."@,
{
    if response.choices.len() > 0 {
        response.choices[0].message.content.clone()
    } else {
        "No response received.".to_string()
    }
}

/// How a request ended. Errors come as the text that describes them.
#[derive(Debug, PartialEq, Eq)]
pub enum ServiceReply {
    /// It could not be sent.
    Unsent(String),
    /// The service answered with an HTTP error.
    Refused(String),
    /// What the service sent could not be read.
    Unparsed(String),
    /// The service answered.
    Answered(ChatCompletionResponse),
}

/// The answer that is taken from the way that a request ended, or what went
/// wrong.
pub fn reply_of(reply: ServiceReply) -> (r: Result<String, String>)
    ensures
        match reply {
            ServiceReply::Unsent(cause) => r matches Err(error) && error@
                == "Failed to send request to LM Studio"@ + ": "@ + cause@,
            ServiceReply::Refused(cause) => r matches Err(error) && error@
                == "LM Studio returned an HTTP error"@ + ": "@ + cause@,
            ServiceReply::Unparsed(cause) => r matches Err(error) && error@
                == "Failed to parse JSON response from LM Studio"@ + ": "@ + cause@,
            ServiceReply::Answered(response) => r matches Ok(answer) && answer@
                == answer_in(response),
        },
        reply matches ServiceReply::Answered(response) ==> (r matches Ok(answer) && answer@
            == if response.choices@.len() > 0 {
            response.choices@[0].message.content@
        } else {
            "No response received."@
        }),
{
    match reply {
        ServiceReply::Unsent(cause) => Err(
            concat3("Failed to send request to LM Studio", ": ", cause.as_str()),
        ),
        ServiceReply::Refused(cause) => Err(
            concat3("LM Studio returned an HTTP error", ": ", cause.as_str()),
        ),
        ServiceReply::Unparsed(cause) => Err(
            concat3("Failed to parse JSON response from LM Studio", ": ", cause.as_str()),
        ),
        ServiceReply::Answered(response) => Ok(first_answer(&response)),
    }
}

/// The system prompt with the memo behind it, where there is one.
pub open spec fn prompt_with_memo(system_prompt: Seq<char>, memo: Option<Seq<char>>) -> Seq<char> {
    match memo {
        Some(memo) => system_prompt
            + "\n\n[MEMO / PROGRESS NOTES - read this to remember your current state]\n"@ + memo
            + "\n[END OF MEMO]"@,
        None => system_prompt,
    }
}

/// The memo that may have been read.
pub open spec fn memo_view(memo: Option<String>) -> Option<Seq<char>> {
    match memo {
        Some(memo) => Some(memo@),
        None => None,
    }
}

/// The system prompt with the memo behind it, where there is one.
pub fn full_system_prompt(system_prompt: &str, memo: &Option<String>) -> (r: String)
    ensures
        r@ == prompt_with_memo(system_prompt@, memo_view(*memo)),
        *memo is None ==> r@ == system_prompt@,
        *memo matches Some(noted) ==> r@ == system_prompt@
            + "\n\n[MEMO / PROGRESS NOTES - read this to remember your current state]\n"@ + noted@
            + "\n[END OF MEMO]"@,
{
    let mut r = system_prompt.to_string();
    if let Some(memo) = memo {
        r.append("\n\n[MEMO / PROGRESS NOTES - read this to remember your current state]\n");
        r.append(memo.as_str());
        r.append("\n[END OF MEMO]");
    }
    r
}

/// A conversation whose first message, if it is the system's, holds a given
/// text.
pub open spec fn with_system_text(messages: Seq<MessageView>, text: Seq<char>) -> Seq<MessageView> {
    if messages.len() > 0 && messages[0].role == "system"@ {
        messages.update(0, MessageView { content: text, ..messages[0] })
    } else {
        messages
    }
}

/// Makes the first message, if it is the system's, hold a given text.
pub fn set_system_text(messages: &mut Vec<ChatMessage>, text: String)
    ensures
        messages_view(final(messages)@) == with_system_text(messages_view(old(messages)@), text@),
        final(messages)@.len() == old(messages)@.len(),
        forall|i: int|
            #![trigger final(messages)@[i]]
            0 < i < old(messages)@.len() ==> final(messages)@[i] == old(messages)@[i],
        old(messages)@.len() > 0 ==> final(messages)@[0].role@ == old(messages)@[0].role@,
        old(messages)@.len() > 0 ==> final(messages)@[0].content@ == if old(messages)@[0].role@
            == "system"@ {
            text@
        } else {
            old(messages)@[0].content@
        },
{
    if messages.len() > 0 {
        if same_text(messages[0].role.as_str(), "system") {
            let role = messages[0].role.clone();
            messages.set(0, ChatMessage { role, content: text });
        }
    }
    assert(messages_view(messages@) =~= with_system_text(messages_view(old(messages)@), text@));
}

/// What is said about messages and requests leaves nothing out and changes
/// nothing: each role and each text stands where it stands.
pub proof fn law_views_of_messages_are_faithful(
    messages: Seq<ChatMessage>,
    request: ChatCompletionRequest,
)
    ensures
        messages_view(messages).len() == messages.len(),
        forall|i: int|
            #![trigger messages_view(messages)[i]]
            0 <= i < messages.len() ==> messages_view(messages)[i].role == messages[i].role@
                && messages_view(messages)[i].content == messages[i].content@,
        request@.model == request.model@,
        request@.messages == messages_view(request.messages@),
        request@.temperature_tenths == request.temperature_tenths,
        request@.max_tokens == request.max_tokens,
        request@.stream == request.stream,
{
}

} // verus!
