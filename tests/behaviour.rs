use brain_power::bot::{
    finish_prompt, handle_command, handle_inline, run_command, help_text, inline_text, Action,
    InlineAnswer,
};
use brain_power::cmd::Command;
use brain_power::models::{Model, ModelSelection};
use brain_power::zero::{
    bearer, interpret_reply, request_body, ChatCompletionMessage, ChatCompletionResponse,
    ChatError, ChatMessage,
};

fn parsed(text: &str, bot: &str) -> Option<String> {
    match Command::parse(text, bot) {
        None => None,
        Some(Command::Help) => Some("help".to_string()),
        Some(Command::LookModel) => Some("lookmodel".to_string()),
        Some(Command::Meow(p)) => Some(format!("meow:{p}")),
        Some(Command::Model(m)) => Some(format!("model:{m}")),
    }
}

fn reply(text: &str) -> ChatCompletionResponse {
    ChatCompletionResponse {
        choices: vec![ChatCompletionMessage {
            message: ChatMessage { role: "assistant".to_string(), content: text.to_string() },
        }],
    }
}

#[test]
fn aliases_render_canonical_names() {
    assert_eq!(Model::parse("4o").name(), "gpt-4o");
    assert_eq!(Model::parse("4o-mini").name(), "gpt-4o-mini");
    assert_eq!(Model::parse("4om").name(), "gpt-4o-mini");
    assert_eq!(Model::parse("o1-preview").name(), "o1-preview");
    assert_eq!(Model::parse("o1p").name(), "o1-preview");
    assert_eq!(Model::parse("o1-mini").name(), "o1-mini");
    assert_eq!(Model::parse("o1m").name(), "o1-mini");
    assert_eq!(Model::parse("o1").name(), "o1");
    assert_eq!(Model::parse("4om"), Model::parse("4o-mini"));
}

#[test]
fn unknown_alias_is_invalid() {
    assert_eq!(Model::parse("4O"), Model::Invalid);
    assert_eq!(Model::parse(""), Model::Invalid);
    assert_eq!(Model::parse("gpt-4o"), Model::Invalid);
    assert_eq!(Model::Invalid.checked_name(), None);
    assert_eq!(Model::OpenAIGPTo1.checked_name(), Some("o1"));
    assert_eq!(Model::default(), Model::OpenAIGPT4o);
}

#[test]
fn rejected_set_keeps_selection() {
    let mut sel = ModelSelection::new();
    assert_eq!(sel.get(), Model::OpenAIGPT4o);
    assert!(sel.set(Model::OpenAIGPTo1Mini).is_ok());
    assert!(sel.set(Model::Invalid).is_err());
    assert_eq!(sel.get(), Model::OpenAIGPTo1Mini);
}

#[test]
fn parse_prompt_with_mention() {
    assert_eq!(parsed("/meow hello world@anything", "anything"), Some("meow:hello world".to_string()));
    assert_eq!(parsed("/meow", "anything"), Some("meow:".to_string()));
    assert_eq!(parsed("hello", "anything"), None);
}

#[test]
fn parse_other_commands() {
    assert_eq!(parsed("/help", "bot"), Some("help".to_string()));
    assert_eq!(parsed("/help@bot", "bot"), Some("help".to_string()));
    assert_eq!(parsed("/help@other", "bot"), None);
    assert_eq!(parsed("/lookmodel", "bot"), Some("lookmodel".to_string()));
    assert_eq!(parsed("/model  o1m  ", "bot"), Some("model:o1m".to_string()));
    assert_eq!(parsed("/meow  a  b ", "bot"), Some("meow:a  b".to_string()));
    assert_eq!(parsed("/unknown x", "bot"), None);
    assert_eq!(parsed("/help me", "bot"), None);
    assert_eq!(parsed("", "bot"), None);
}

#[test]
fn stranger_is_rejected() {
    let mut sel = ModelSelection::new();
    let a = handle_command(&mut sel, 7, Some(8), Some("/meow hi"), "bot");
    assert!(matches!(a, Action::Reject));
    assert!(matches!(handle_command(&mut sel, 7, Some(8), Some("hello"), "bot"), Action::Reject));
    let a = handle_command(&mut sel, 7, Some(8), Some("/model o1"), "bot");
    assert!(matches!(a, Action::Reject));
    assert_eq!(sel.get(), Model::OpenAIGPT4o);
}

#[test]
fn anonymous_and_plain_text_are_ignored() {
    let mut sel = ModelSelection::new();
    assert!(matches!(handle_command(&mut sel, 7, None, Some("/meow hi"), "bot"), Action::Ignore));
    assert!(matches!(handle_command(&mut sel, 7, Some(7), Some("hello"), "bot"), Action::Ignore));
    assert!(matches!(handle_command(&mut sel, 7, Some(7), None, "bot"), Action::Ignore));
}

#[test]
fn empty_prompt_makes_no_request() {
    let mut sel = ModelSelection::new();
    match handle_command(&mut sel, 7, Some(7), Some("/meow   "), "bot") {
        Action::Reply(t) => assert_eq!(t, "什么都没有!"),
        _ => panic!("expected a reply"),
    }
}

#[test]
fn prompt_uses_current_model() {
    let mut sel = ModelSelection::new();
    match handle_command(&mut sel, 7, Some(7), Some("/model o1p"), "bot") {
        Action::Reply(t) => assert_eq!(t, "Model changed to o1-preview"),
        _ => panic!("expected a reply"),
    }
    match handle_command(&mut sel, 7, Some(7), Some("/meow tell me"), "bot") {
        Action::Generate { prompt, model } => {
            assert_eq!(prompt, "tell me");
            assert_eq!(model, Model::OpenAIGPTo1Preview);
        }
        _ => panic!("expected a request"),
    }
    match run_command(&mut sel, Command::LookModel) {
        Action::Reply(t) => assert_eq!(t, "Current model: o1-preview"),
        _ => panic!("expected a reply"),
    }
    match run_command(&mut sel, Command::Model("bogus".to_string())) {
        Action::Reply(t) => assert_eq!(t, "Invalid model"),
        _ => panic!("expected a reply"),
    }
    assert_eq!(sel.get(), Model::OpenAIGPTo1Preview);
    match run_command(&mut sel, Command::Help) {
        Action::Reply(t) => assert_eq!(t, help_text()),
        _ => panic!("expected a reply"),
    }
}

#[test]
fn empty_choices_keep_raw_body() {
    let raw = "{\"choices\": []}";
    match interpret_reply(raw, Ok(ChatCompletionResponse { choices: vec![] })) {
        Err(ChatError::EmptyResponse(body)) => assert_eq!(body, "{\"choices\": []}"),
        _ => panic!("expected an empty response"),
    }
}

#[test]
fn first_choice_is_returned() {
    let raw = "{\"choices\":[{\"message\":{\"role\":\"assistant\",\"content\":\"hi\"}}]}";
    match interpret_reply(raw, Ok(reply("hi"))) {
        Ok(t) => assert_eq!(t, "hi"),
        _ => panic!("expected text"),
    }
}

#[test]
fn decode_failure_is_its_own_kind() {
    match interpret_reply("oops", Err("expected value".to_string())) {
        Err(ChatError::Decode(m)) => assert_eq!(m, "expected value"),
        _ => panic!("expected a decode failure"),
    }
}

#[test]
fn request_body_escapes_prompt() {
    let b = request_body("say \"hi\"", Model::OpenAIGPT4oMini);
    assert_eq!(
        b,
        "{\"messages\":[{\"role\":\"user\",\"content\":\"say \\\"hi\\\"\"}],\"model\":\"gpt-4o-mini\"}"
    );
    assert_eq!(bearer("abc"), "Bearer abc");
}

#[test]
fn failure_texts() {
    assert_eq!(finish_prompt(&Ok("done".to_string())), "done");
    assert_eq!(
        finish_prompt(&Err(ChatError::EmptyResponse("{}".to_string()))),
        "Failed to generate hint: Error: {}"
    );
    assert_eq!(
        finish_prompt(&Err(ChatError::Transport("refused".to_string()))),
        "Failed to generate hint: refused"
    );
}

#[test]
fn inline_queries() {
    let sel = ModelSelection::new();
    assert!(matches!(handle_inline(&sel, 7, 8, "hi喵"), InlineAnswer::NotMaster));
    assert!(matches!(handle_inline(&sel, 7, 7, "hi"), InlineAnswer::MissingMark));
    let a = handle_inline(&sel, 7, 7, "hi喵喵");
    match &a {
        InlineAnswer::Generate { prompt, model } => {
            assert_eq!(prompt, "hi");
            assert_eq!(*model, Model::OpenAIGPT4o);
        }
        _ => panic!("expected a request"),
    }
    assert_eq!(inline_text(&a, &Ok("yo".to_string())), "Generated from gpt-4o:\nyo");
    assert_eq!(
        inline_text(&InlineAnswer::MissingMark, &Ok(String::new())),
        "Please end your query with 喵"
    );
}

#[test]
fn from_str_matches_parse() {
    assert_eq!(Model::from("o1m"), Model::OpenAIGPTo1Mini);
    assert_eq!(Model::from("nope"), Model::Invalid);
    assert_eq!(parsed("/model\to1\n", "bot"), Some("model:o1".to_string()));
}

#[test]
fn inline_marks_alone_make_no_request() {
    let sel = ModelSelection::new();
    assert!(matches!(handle_inline(&sel, 7, 7, "喵"), InlineAnswer::Nothing));
    assert!(matches!(handle_inline(&sel, 7, 7, "喵喵"), InlineAnswer::Nothing));
    assert_eq!(inline_text(&InlineAnswer::Nothing, &Ok(String::new())), "什么都没有!");
}

#[test]
fn mention_ignores_ascii_case() {
    assert_eq!(parsed("/help@MyBot", "mybot"), Some("help".to_string()));
    assert_eq!(parsed("/meow hi@MYBOT", "MyBot"), Some("meow:hi".to_string()));
    assert_eq!(parsed("/help@MyBot2", "mybot"), None);
}

#[test]
fn request_body_escapes_control_characters() {
    let b = request_body("a\tb\u{1}\\", Model::OpenAIGPTo1);
    assert_eq!(
        b,
        "{\"messages\":[{\"role\":\"user\",\"content\":\"a\\tb\\u0001\\\\\"}],\"model\":\"o1\"}"
    );
}
