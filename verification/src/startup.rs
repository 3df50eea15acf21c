//! What happens before the first message: addresses, the model, the greeting.
use vstd::prelude::*;

use crate::card::{
    bordered_card, card_fits, card_text, fits_card, lines_view, Line, Span, SpanView,
};
use crate::text::concat3;

verus! {

/// The system prompt of every conversation.
pub const SYSTEM_PROMPT: &'static str = "You are Shokodex, a helpful assistant with access to the local machine via PowerShell. \
    If you need to query the system, run commands, list files, or perform operations to answer the user, \
    provide the command in a code block formatted as:\n\
    ```powershell\n\
    <commands>\n\
    ```\n\
    The user will be prompted to approve the command before execution. \
    Provide only one code block per turn. Keep explanations brief and precise.\n\
    You have a persistent notes file '.shokodex_memo' in the current directory. \
    You can read/write to it using PowerShell (Get-Content / Set-Content) to record memos of what you do \
    so you do not lose track of your progress across multiple turns.";

/// The address of the service: the one that is configured, or that of a
/// service on this machine.
pub fn base_url(configured: Option<String>) -> (r: String)
    ensures
        r@ == match configured {
            Some(url) => url@,
            None => "http://localhost:1234/v1"@,
        },
{
    match configured {
        Some(url) => url,
        None => "http://localhost:1234/v1".to_string(),
    }
}

/// Where the service lists its models.
pub fn models_url(base_url: &str) -> (r: String)
    ensures
        r@ == base_url@ + "/models"@,
{
    base_url.to_string().concat("/models")
}

/// Where the service answers conversations.
pub fn chat_url(base_url: &str) -> (r: String)
    ensures
        r@ == base_url@ + "/chat/completions"@,
{
    base_url.to_string().concat("/chat/completions")
}

/// A model of the service.
#[derive(Debug, PartialEq, Eq)]
pub struct Model {
    pub id: String,
}

/// The models that the service has loaded.
#[derive(Debug, PartialEq, Eq)]
pub struct ModelList {
    pub data: Vec<Model>,
}

/// Where the name of the model may come from.
#[derive(Debug, PartialEq, Eq)]
pub enum ModelSource {
    /// It is configured, so the service is not asked.
    Configured(String),
    /// The service listed its models.
    Listed(ModelList),
    /// The service sent something else.
    Unparsed,
    /// The service could not be reached.
    Unreachable,
}

/// Where the name of the model comes from without asking the service: from the
/// configuration, if it is configured. The service is asked where it is not,
/// and only there.
pub fn configured_source(configured: Option<String>) -> (r: Option<ModelSource>)
    ensures
        r == match configured {
            Some(name) => Some(ModelSource::Configured(name)),
            None => None,
        },
{
    match configured {
        Some(name) => Some(ModelSource::Configured(name)),
        None => None,
    }
}

/// The model that is used, and what is printed about it.
#[derive(Debug, PartialEq, Eq)]
pub struct ChosenModel {
    pub model: String,
    pub notice: Option<String>,
}

/// Which model is used: the configured one, or else the first that the service
/// lists, which is then announced; or why there is none.
pub fn choose_model(source: ModelSource, base_url: &str) -> (r: Result<ChosenModel, String>)
    ensures
        match source {
            ModelSource::Configured(name) => r matches Ok(chosen) && chosen.model@ == name@
                && chosen.notice is None,
            ModelSource::Listed(list) => if list.data@.len() > 0 {
                &&& r matches Ok(chosen)
                &&& chosen.model@ == list.data@[0].id@
                &&& chosen.notice matches Some(notice)
                &&& notice@ == "Auto-detected model: "@ + list.data@[0].id@ + "\n"@
            } else {
                r matches Err(error) && error@
                    == "No models loaded in LM Studio. Please load a model first in LM Studio."@
            },
            ModelSource::Unparsed => r matches Err(error) && error@
                == "Failed to parse models list from LM Studio."@,
            ModelSource::Unreachable => r matches Err(error) && error@
                == "LMSTUDIO_MODEL environment variable is not set, and failed to connect to LM Studio at "@
                + base_url@
                + ".\nPlease make sure LM Studio is running, or set the LMSTUDIO_MODEL environment variable.\n\nHow to set it on Windows PowerShell:\n$env:LMSTUDIO_MODEL=\"your-model-name\"\ncargo run"@,
        },
{
    match source {
        ModelSource::Configured(name) => Ok(ChosenModel { model: name, notice: None }),
        ModelSource::Listed(list) => {
            if list.data.len() > 0 {
                let id = list.data[0].id.clone();
                let notice = concat3("Auto-detected model: ", id.as_str(), "\n");
                Ok(ChosenModel { model: id, notice: Some(notice) })
            } else {
                Err(
                    "No models loaded in LM Studio. Please load a model first in LM Studio.".to_string(),
                )
            }
        },
        ModelSource::Unparsed => Err("Failed to parse models list from LM Studio.".to_string()),
        ModelSource::Unreachable => Err(
            concat3(
                "LMSTUDIO_MODEL environment variable is not set, and failed to connect to LM Studio at ",
                base_url,
                ".\nPlease make sure LM Studio is running, or set the LMSTUDIO_MODEL environment variable.\n\nHow to set it on Windows PowerShell:\n$env:LMSTUDIO_MODEL=\"your-model-name\"\ncargo run",
            ),
        ),
    }
}

/// A line of the greeting: two spans.
pub open spec fn two_spans(
    first: Seq<char>,
    first_style: Seq<char>,
    second: Seq<char>,
    second_style: Seq<char>,
) -> Seq<SpanView> {
    seq![
        SpanView { content: first, style: first_style },
        SpanView { content: second, style: second_style },
    ]
}

/// The lines on the card that greets the user.
pub open spec fn greeting_lines(model: Seq<char>, directory: Seq<char>) -> Seq<Seq<SpanView>> {
    let white = "\x1b[37m"@;
    let gray = "\x1b[38;5;244m"@;
    seq![
        two_spans("Welcome to Shokodex "@, white, "(v0.0.1 - PowerShell enabled)"@, gray),
        two_spans("model charged : "@, gray, model, white),
        two_spans("directory: "@, gray, directory, white),
    ]
}

fn line_of(
    first: &str,
    first_style: &'static str,
    second: &str,
    second_style: &'static str,
) -> (r: Line)
    ensures
        r@ == two_spans(first@, first_style@, second@, second_style@),
{
    let mut spans: Vec<Span> = Vec::new();
    spans.push(Span { content: first.to_string(), style: first_style });
    spans.push(Span { content: second.to_string(), style: second_style });
    let r = Line { spans };
    assert(r@ =~= two_spans(first@, first_style@, second@, second_style@));
    r
}

/// The lines on the card that greets the user.
pub fn welcome_lines(model: &str, directory: &str) -> (r: Vec<Line>)
    ensures
        lines_view(r@) == greeting_lines(model@, directory@),
{
    let white = "\x1b[37m";
    let gray = "\x1b[38;5;244m";
    let mut r: Vec<Line> = Vec::new();
    r.push(line_of("Welcome to Shokodex ", white, "(v0.0.1 - PowerShell enabled)", gray));
    r.push(line_of("model charged : ", gray, model, white));
    r.push(line_of("directory: ", gray, directory, white));
    assert(lines_view(r@) =~= greeting_lines(model@, directory@));
    r
}

/// The directory that the greeting names, a dot where it is not known.
pub open spec fn shown_directory(directory: Option<String>) -> Seq<char> {
    match directory {
        Some(directory) => directory@,
        None => "."@,
    }
}

/// What greets the user of a chat: the card, and how to leave. There is none
/// where the room that the card takes cannot be counted.
pub fn greeting(model: &str, directory: &Option<String>) -> (r: Option<String>)
    ensures
        r is Some <==> card_fits(greeting_lines(model@, shown_directory(*directory))),
        r matches Some(text) ==> text@ == card_text(
            greeting_lines(model@, shown_directory(*directory)),
        ) + "\nType 'exit' or 'quit' to end the chat session.\n\n"@,
{
    let lines = match directory {
        Some(directory) => welcome_lines(model, directory.as_str()),
        None => welcome_lines(model, "."),
    };
    if fits_card(&lines) {
        let card = bordered_card(&lines);
        Some(card.concat("\nType 'exit' or 'quit' to end the chat session.\n\n"))
    } else {
        None
    }
}

/// What is printed before a session goes on: the user of a chat is greeted, and
/// where a single query is answered nothing is printed. There is no text where
/// the room that the card takes cannot be counted.
pub fn greeting_of(interactive: bool, model: &str, directory: &Option<String>) -> (r: Option<
    String,
>)
    ensures
        !interactive ==> (r matches Some(text) && text@.len() == 0),
        interactive ==> (r is Some <==> card_fits(
            greeting_lines(model@, shown_directory(*directory)),
        )),
        interactive ==> (r matches Some(text) ==> text@ == card_text(
            greeting_lines(model@, shown_directory(*directory)),
        ) + "\nType 'exit' or 'quit' to end the chat session.\n\n"@),
{
    if interactive {
        greeting(model, directory)
    } else {
        Some(String::new())
    }
}

/// The card that greets the user has three lines: the welcome, the model behind
/// its label, and the directory, or a dot, behind its label, each with its
/// label and its value in the two colours.
pub proof fn law_the_greeting_names_model_and_directory(
    model: Seq<char>,
    directory: Option<String>,
)
    ensures
        ({
            let lines = greeting_lines(model, shown_directory(directory));
            let white = "\x1b[37m"@;
            let gray = "\x1b[38;5;244m"@;
            let place = match directory {
                Some(directory) => directory@,
                None => "."@,
            };
            &&& lines.len() == 3
            &&& forall|i: int| 0 <= i < 3 ==> #[trigger] lines[i].len() == 2
            &&& lines[0][0] == SpanView { content: "Welcome to Shokodex "@, style: white }
            &&& lines[0][1] == SpanView {
                content: "(v0.0.1 - PowerShell enabled)"@,
                style: gray,
            }
            &&& lines[1][0] == SpanView { content: "model charged : "@, style: gray }
            &&& lines[1][1] == SpanView { content: model, style: white }
            &&& lines[2][0] == SpanView { content: "directory: "@, style: gray }
            &&& lines[2][1] == SpanView { content: place, style: white }
        }),
{
}

} // verus!
