use tool_orchestrator::catalog::default_catalog;
use tool_orchestrator::messages::{Message, ToolCall};
use tool_orchestrator::orchestrator::{
    Action, Choice, Config, HttpResponse, Orchestrator, OrchestratorError, ProviderReply,
};
use tool_orchestrator::timestamp::matches_rfc3339;

fn started(user_input: &str) -> Orchestrator {
    let (o, action) = Orchestrator::start(
        Config::default(),
        default_catalog(),
        "Perform function requests for the user".to_string(),
        user_input.to_string(),
    );
    assert!(matches!(action, Action::SubmitCompletion { with_tools: true }));
    o
}

fn call(id: &str, name: &str, arguments: &str) -> ToolCall {
    ToolCall { id: id.to_string(), name: name.to_string(), arguments: arguments.to_string() }
}

fn reply_with_calls(calls: Vec<ToolCall>) -> ProviderReply {
    ProviderReply {
        choices: vec![Choice { finish_tool_calls: true, content: None, tool_calls: calls }],
    }
}

fn text_reply(content: Option<&str>) -> ProviderReply {
    ProviderReply {
        choices: vec![Choice {
            finish_tool_calls: false,
            content: content.map(|c| c.to_string()),
            tool_calls: vec![],
        }],
    }
}

fn message_summary(m: &Message) -> String {
    match m {
        Message::System { text } => format!("system:{}", text),
        Message::User { text } => format!("user:{}", text),
        Message::Assistant { text, tool_calls } => {
            format!("assistant:{}:{}", text, tool_calls.len())
        }
        Message::ToolResult { tool_call_id, tool_name, text } => {
            format!("tool:{}:{}:{}", tool_call_id, tool_name, text)
        }
    }
}

#[test]
fn ignores_message_without_trigger_word() {
    let r = Orchestrator::for_message(
        Config::default(),
        default_catalog(),
        "Perform function requests for the user".to_string(),
        "what time is it",
    );
    assert!(r.is_none());
}

#[test]
fn strips_trigger_word_from_matching_message() {
    let r = Orchestrator::for_message(
        Config::default(),
        default_catalog(),
        "Perform function requests for the user".to_string(),
        "tool_calls what time is it",
    );
    let (o, action) = r.expect("message carries the trigger word");
    assert!(matches!(action, Action::SubmitCompletion { with_tools: true }));
    let messages = o.conversation_messages();
    assert_eq!(messages.len(), 2);
    match &messages[1] {
        Message::User { text } => assert_eq!(text, " what time is it"),
        _ => panic!("second message is not the user turn"),
    }
}

#[test]
fn final_reply_is_top_choice_content_verbatim() {
    let mut o = started("hello");
    let action = o.on_completion(text_reply(Some("plain answer")));
    assert!(matches!(action, Action::SubmitCompletion { with_tools: false }));
    let action = o.on_completion(text_reply(Some("the final words")));
    match action {
        Action::Finish { reply } => assert_eq!(reply, "the final words"),
        _ => panic!("run did not finish"),
    }
}

#[test]
fn final_reply_falls_back_when_content_absent() {
    let mut o = started("hello");
    let action = o.on_completion(text_reply(None));
    assert!(matches!(action, Action::SubmitCompletion { with_tools: false }));
    let action = o.on_completion(text_reply(None));
    match action {
        Action::Finish { reply } => assert_eq!(reply, "no result"),
        _ => panic!("run did not finish"),
    }
}

#[test]
fn final_reply_falls_back_when_no_choice_comes_back() {
    let mut o = started("hello");
    let action = o.on_completion(text_reply(Some("x")));
    assert!(matches!(action, Action::SubmitCompletion { with_tools: false }));
    let action = o.on_completion(ProviderReply { choices: vec![] });
    match action {
        Action::Finish { reply } => assert_eq!(reply, "no result"),
        _ => panic!("run did not finish"),
    }
}

#[test]
fn time_of_day_result_matches_rfc3339_pattern() {
    let mut o = started("the time, please");
    let action = o.on_completion(reply_with_calls(vec![call("c1", "getTimeOfDay", "{}")]));
    assert!(matches!(action, Action::SubmitCompletion { with_tools: false }));
    let messages = o.conversation_messages();
    match messages.last().expect("a tool result was appended") {
        Message::ToolResult { tool_call_id, tool_name, text } => {
            assert_eq!(tool_call_id, "c1");
            assert_eq!(tool_name, "getTimeOfDay");
            assert!(matches_rfc3339(text), "not an RFC 3339 timestamp: {}", text);
        }
        _ => panic!("last message is not a tool result"),
    }
}

#[test]
fn weather_failure_status_yields_fixed_text() {
    let mut o = started("weather in Nowhere");
    let action = o.on_completion(reply_with_calls(vec![call(
        "w1",
        "getWeather",
        "{\"city\":\"Nowhere\"}",
    )]));
    match action {
        Action::HttpGet { url } => {
            assert_eq!(
                url,
                "https://api.openweathermap.org/data/2.5/weather?q=Nowhere&units=metric&appid=fake_api_key"
            );
        }
        _ => panic!("no weather request went out"),
    }
    let action = o.on_weather_response(Some(HttpResponse { status: 500, body: vec![] }));
    assert!(matches!(action, Action::SubmitCompletion { with_tools: false }));
    match o.conversation_messages().last().unwrap() {
        Message::ToolResult { text, .. } => assert_eq!(text, "No city or incorrect spelling"),
        _ => panic!("last message is not a tool result"),
    }
}

#[test]
fn weather_network_failure_yields_fixed_text() {
    let mut o = started("weather in Nowhere");
    o.on_completion(reply_with_calls(vec![call("w1", "getWeather", "{\"city\":\"Nowhere\"}")]));
    o.on_weather_response(None);
    match o.conversation_messages().last().unwrap() {
        Message::ToolResult { text, .. } => assert_eq!(text, "No city or incorrect spelling"),
        _ => panic!("last message is not a tool result"),
    }
}

#[test]
fn weather_success_formats_truncated_summary() {
    let mut o = started("weather in London");
    o.on_completion(reply_with_calls(vec![call("w1", "getWeather", "{\"city\":\"London\"}")]));
    let body = "{\"weather\":[{\"main\":\"Clouds\"}],\"main\":{\"temp_min\":10.0,\"temp_max\":15.9},\"wind\":{\"speed\":5.4}}"
    .as_bytes()
    .to_vec();
    o.on_weather_response(Some(HttpResponse { status: 200, body }));
    match o.conversation_messages().last().unwrap() {
        Message::ToolResult { text, .. } => {
            assert!(text.contains("Today in London"), "{}", text);
            assert!(text.contains("Clouds"), "{}", text);
            assert!(text.contains("Low temperature: 10 \u{b0}C"), "{}", text);
            assert!(text.contains("High temperature: 15 \u{b0}C"), "{}", text);
            assert!(text.contains("Wind Speed: 5 km/h"), "{}", text);
        }
        _ => panic!("last message is not a tool result"),
    }
}

#[test]
fn two_tool_calls_append_results_in_listed_order() {
    let mut o = started("greet and tell the time");
    let action = o.on_completion(reply_with_calls(vec![
        call("a", "helloWorld", "{\"appendString\":\"Ada\"}"),
        call("b", "getTimeOfDay", "{}"),
    ]));
    assert!(matches!(action, Action::SubmitCompletion { with_tools: false }));
    let messages = o.conversation_messages();
    assert_eq!(messages.len(), 5);
    match &messages[3] {
        Message::ToolResult { tool_call_id, tool_name, text } => {
            assert_eq!(tool_call_id, "a");
            assert_eq!(tool_name, "helloWorld");
            assert_eq!(text, "Hello, world! Ada");
        }
        _ => panic!("fourth message is not the first tool result"),
    }
    match &messages[4] {
        Message::ToolResult { tool_call_id, tool_name, .. } => {
            assert_eq!(tool_call_id, "b");
            assert_eq!(tool_name, "getTimeOfDay");
        }
        _ => panic!("fifth message is not the second tool result"),
    }
}

#[test]
fn resubmission_preserves_every_prior_message_verbatim() {
    let mut o = started("scrape something");
    o.on_completion(reply_with_calls(vec![call("s1", "scraper", "{\"url\":\"http://x\"}")]));
    let before: Vec<String> = o.conversation_messages().iter().map(message_summary).collect();
    o.on_page_text(Some("page body".to_string()));
    let after: Vec<String> = o.conversation_messages().iter().map(message_summary).collect();
    assert_eq!(after.len(), before.len() + 1);
    assert_eq!(&after[..before.len()], &before[..]);
    let reply = o.on_completion(text_reply(Some("done")));
    let last: Vec<String> = o.conversation_messages().iter().map(message_summary).collect();
    assert_eq!(last, after);
    assert!(matches!(reply, Action::Finish { .. }));
}

#[test]
fn scraper_fetch_failure_yields_fixed_text() {
    let mut o = started("scrape something");
    let action = o.on_completion(reply_with_calls(vec![call(
        "s1",
        "scraper",
        "{\"url\":\"http://x\"}",
    )]));
    match action {
        Action::FetchPage { url } => assert_eq!(url, "http://x"),
        _ => panic!("no page fetch went out"),
    }
    o.on_page_text(None);
    match o.conversation_messages().last().unwrap() {
        Message::ToolResult { text, .. } => assert_eq!(text, "failed to get webpage"),
        _ => panic!("last message is not a tool result"),
    }
}

#[test]
fn unparseable_arguments_abort_the_run() {
    let mut o = started("greet");
    let action = o.on_completion(reply_with_calls(vec![call("a", "helloWorld", "{not json")]));
    match action {
        Action::Fail { error: OrchestratorError::ArgumentParse { tool } } => {
            assert_eq!(tool, "helloWorld");
        }
        _ => panic!("run did not fail on the malformed payload"),
    }
}

#[test]
fn missing_required_argument_aborts_the_run() {
    let mut o = started("weather");
    let action = o.on_completion(reply_with_calls(vec![call("w", "getWeather", "{}")]));
    match action {
        Action::Fail { error: OrchestratorError::MissingArgument { tool, key } } => {
            assert_eq!(tool, "getWeather");
            assert_eq!(key, "city");
        }
        _ => panic!("run did not fail on the missing key"),
    }
}

#[test]
fn unknown_tool_name_yields_empty_result_and_run_continues() {
    let mut o = started("do something odd");
    let action = o.on_completion(reply_with_calls(vec![
        call("u", "mystery", "{\"x\":\"y\"}"),
        call("h", "helloWorld", "{\"appendString\":\"Bo\"}"),
    ]));
    assert!(matches!(action, Action::SubmitCompletion { with_tools: false }));
    let messages = o.conversation_messages();
    match &messages[3] {
        Message::ToolResult { tool_name, text, .. } => {
            assert_eq!(tool_name, "mystery");
            assert_eq!(text, "");
        }
        _ => panic!("fourth message is not the unknown tool's result"),
    }
    match &messages[4] {
        Message::ToolResult { text, .. } => assert_eq!(text, "Hello, world! Bo"),
        _ => panic!("fifth message is not the greeting result"),
    }
}

#[test]
fn no_tool_use_resubmits_unchanged_conversation() {
    let mut o = started("hello");
    let before: Vec<String> = o.conversation_messages().iter().map(message_summary).collect();
    let action = o.on_completion(text_reply(Some("just words")));
    assert!(matches!(action, Action::SubmitCompletion { with_tools: false }));
    let after: Vec<String> = o.conversation_messages().iter().map(message_summary).collect();
    assert_eq!(after, before);
}

#[test]
fn assistant_turn_records_the_requested_calls() {
    let mut o = started("greet");
    o.on_completion(reply_with_calls(vec![call("a", "helloWorld", "{\"appendString\":\"Z\"}")]));
    match &o.conversation_messages()[2] {
        Message::Assistant { tool_calls, .. } => {
            assert_eq!(tool_calls.len(), 1);
            assert_eq!(tool_calls[0].id, "a");
            assert_eq!(tool_calls[0].name, "helloWorld");
        }
        _ => panic!("third message is not the assistant turn"),
    }
}
