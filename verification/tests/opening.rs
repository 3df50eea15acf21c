use shokodex::card::{bordered_card, fits_card, Line, Span};
use shokodex::startup::{
    base_url, chat_url, choose_model, configured_source, greeting, greeting_of, models_url,
    ChosenModel, Model, ModelList, ModelSource, SYSTEM_PROMPT,
};

fn span(content: &str) -> Span {
    Span { content: content.to_string(), style: "\x1b[37m" }
}

#[test]
fn width_counts_characters() {
    let line = Line { spans: vec![span("añb"), span(""), span("日本")] };
    assert_eq!(line.width(), 5);
    assert_eq!(Line { spans: vec![] }.width(), 0);
}

#[test]
fn card_without_lines_is_a_border() {
    assert!(fits_card(&vec![]));
    assert_eq!(
        bordered_card(&vec![]),
        "\x1b[1;38;5;244m┏━━━━┓\x1b[0m\n\x1b[1;38;5;244m┗━━━━┛\x1b[0m\n"
    );
}

#[test]
fn card_fills_lines_up() {
    let lines = vec![
        Line { spans: vec![span("a"), span("bc")] },
        Line { spans: vec![span("é")] },
        Line { spans: vec![] },
    ];
    assert!(fits_card(&lines));
    assert_eq!(
        bordered_card(&lines),
        "\x1b[1;38;5;244m┏━━━━━━━┓\x1b[0m\n\
         \x1b[1;38;5;244m┃  \x1b[0m\x1b[37ma\x1b[0m\x1b[37mbc\x1b[0m  \x1b[1;38;5;244m┃\n\
         \x1b[1;38;5;244m┃  \x1b[0m\x1b[37mé\x1b[0m    \x1b[1;38;5;244m┃\n\
         \x1b[1;38;5;244m┃  \x1b[0m     \x1b[1;38;5;244m┃\n\
         \x1b[1;38;5;244m┗━━━━━━━┛\x1b[0m\n"
    );
}

#[test]
fn rows_of_a_card_take_the_same_room() {
    let lines = vec![
        Line { spans: vec![Span { content: "one".to_string(), style: "" }] },
        Line { spans: vec![Span { content: "and two".to_string(), style: "" }] },
    ];
    let card = bordered_card(&lines)
        .replace("\x1b[1;38;5;244m", "")
        .replace("\x1b[0m", "");
    for row in card.lines() {
        assert_eq!(row.chars().count(), 13);
    }
    assert_eq!(card.lines().count(), 4);
}

#[test]
fn greeting_shows_model_and_directory() {
    let shown = greeting("qwen", &Some("C:\\work".to_string())).unwrap();
    let plain = shown
        .replace("\x1b[1;38;5;244m", "")
        .replace("\x1b[38;5;244m", "")
        .replace("\x1b[37m", "")
        .replace("\x1b[0m", "");
    assert_eq!(
        plain,
        "┏━━━━━━━━━━━━━━━━━━━━━━━━━━━━━━━━━━━━━━━━━━━━━━━━━━━━━┓\n\
         ┃  Welcome to Shokodex (v0.0.1 - PowerShell enabled)  ┃\n\
         ┃  model charged : qwen                               ┃\n\
         ┃  directory: C:\\work                                 ┃\n\
         ┗━━━━━━━━━━━━━━━━━━━━━━━━━━━━━━━━━━━━━━━━━━━━━━━━━━━━━┛\n\
         \nType 'exit' or 'quit' to end the chat session.\n\n"
    );
    assert!(shown.contains("\x1b[37mWelcome to Shokodex \x1b[0m\x1b[38;5;244m(v0.0.1"));
    assert!(shown.contains("\x1b[38;5;244mmodel charged : \x1b[0m\x1b[37mqwen\x1b[0m"));
}

#[test]
fn unknown_directory_is_a_dot() {
    let shown = greeting("m", &None).unwrap();
    assert!(shown.contains("\x1b[38;5;244mdirectory: \x1b[0m\x1b[37m.\x1b[0m"));
}

#[test]
fn addresses_follow_the_base() {
    assert_eq!(base_url(None), "http://localhost:1234/v1");
    assert_eq!(base_url(Some("http://h/v1".to_string())), "http://h/v1");
    assert_eq!(models_url("http://h/v1"), "http://h/v1/models");
    assert_eq!(chat_url("http://h/v1"), "http://h/v1/chat/completions");
}

#[test]
fn a_configured_model_is_used() {
    assert_eq!(
        choose_model(ModelSource::Configured("q".to_string()), "u"),
        Ok(ChosenModel { model: "q".to_string(), notice: None })
    );
}

#[test]
fn the_first_listed_model_is_used_and_announced() {
    let list = ModelList {
        data: vec![Model { id: "a".to_string() }, Model { id: "b".to_string() }],
    };
    assert_eq!(
        choose_model(ModelSource::Listed(list), "u"),
        Ok(ChosenModel {
            model: "a".to_string(),
            notice: Some("Auto-detected model: a\n".to_string()),
        })
    );
}

#[test]
fn without_a_model_the_reason_is_given() {
    assert_eq!(
        choose_model(ModelSource::Listed(ModelList { data: vec![] }), "u"),
        Err("No models loaded in LM Studio. Please load a model first in LM Studio.".to_string())
    );
    assert_eq!(
        choose_model(ModelSource::Unparsed, "u"),
        Err("Failed to parse models list from LM Studio.".to_string())
    );
    assert_eq!(
        choose_model(ModelSource::Unreachable, "http://h"),
        Err("LMSTUDIO_MODEL environment variable is not set, and failed to connect to LM Studio at http://h.\n\
             Please make sure LM Studio is running, or set the LMSTUDIO_MODEL environment variable.\n\n\
             How to set it on Windows PowerShell:\n\
             $env:LMSTUDIO_MODEL=\"your-model-name\"\n\
             cargo run"
            .to_string())
    );
}

#[test]
fn the_system_prompt_shows_the_form_of_a_command() {
    assert!(SYSTEM_PROMPT.starts_with(
        "You are Shokodex, a helpful assistant with access to the local machine via PowerShell. If you need"
    ));
    assert!(SYSTEM_PROMPT.contains("formatted as:\n```powershell\n<commands>\n```\nThe user will be"));
    assert!(SYSTEM_PROMPT.ends_with("so you do not lose track of your progress across multiple turns."));
    assert!(!SYSTEM_PROMPT.contains("  "));
}

#[test]
fn only_a_chat_is_greeted() {
    let directory = Some("d".to_string());
    assert_eq!(greeting_of(false, "m", &directory), Some(String::new()));
    assert_eq!(greeting_of(true, "m", &directory), greeting("m", &directory));
    assert!(greeting_of(true, "m", &None).unwrap().contains("Welcome to Shokodex "));
}

#[test]
fn the_service_is_asked_only_without_a_configured_model() {
    assert_eq!(
        configured_source(Some("q".to_string())),
        Some(ModelSource::Configured("q".to_string()))
    );
    assert_eq!(
        configured_source(Some(String::new())),
        Some(ModelSource::Configured(String::new()))
    );
    assert_eq!(configured_source(None), None);
}
