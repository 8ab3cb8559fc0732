use rullm::config::LLMConfig;
use rullm::conversation::{CalendarDate, Message, ToolCall};
use rullm::orchestrator::{
    Choice, LlmError, Orchestrator, OrchestratorError, Phase, Step, DEFAULT_MAX_ROUNDS,
};
use rullm::tool_host::{ContentBlock, FunctionCall, ToolCatalogEntry, ToolHostError};

fn session(max_rounds: u32) -> Orchestrator {
    let today = CalendarDate::new(2024, 5, 17).unwrap();
    Orchestrator::new(&today, vec![], max_rounds)
}

fn text_choice(text: &str) -> Choice {
    Choice { content: Some(text.to_string()), tool_calls: None }
}

fn tool_call(id: &str, name: &str, arguments: &str) -> ToolCall {
    ToolCall {
        id: id.to_string(),
        function: FunctionCall { name: name.to_string(), arguments: arguments.to_string() },
    }
}

fn calls_choice(calls: Vec<ToolCall>) -> Choice {
    Choice { content: None, tool_calls: Some(calls) }
}

#[test]
fn conversation_is_seeded_with_date() {
    let o = session(DEFAULT_MAX_ROUNDS);
    let log = o.conversation().snapshot();
    assert_eq!(
        log,
        &vec![Message::System(
            "You are a helpful assistant. You know that today is 2024-05-17".to_string()
        )]
    );
}

#[test]
fn calendar_date_rejects_missing_days() {
    assert!(CalendarDate::new(2023, 2, 29).is_none());
    assert!(CalendarDate::new(2024, 2, 29).is_some());
    assert!(CalendarDate::new(1900, 2, 29).is_none());
    assert!(CalendarDate::new(2000, 2, 29).is_some());
    assert!(CalendarDate::new(2024, 4, 31).is_none());
    assert!(CalendarDate::new(2024, 13, 1).is_none());
    assert!(CalendarDate::new(0, 1, 1).is_none());
}

#[test]
fn answer_without_tools_joins_texts() {
    let mut o = session(DEFAULT_MAX_ROUNDS);
    assert_eq!(o.start_turn("What is on my list?".to_string()), Step::RequestCompletion);
    let reply = vec![text_choice("Eggs"), Choice { content: None, tool_calls: Some(vec![]) }, text_choice("and milk")];
    let step = o.on_completion(Ok(reply));
    assert_eq!(step, Step::Answer("Eggs\nand milk".to_string()));
    assert_eq!(o.phase(), Phase::Idle);
    let log = o.conversation().snapshot();
    assert_eq!(log.len(), 3);
    assert_eq!(log[1], Message::User("What is on my list?".to_string()));
    assert_eq!(
        log[2],
        Message::Assistant { content: "Eggs\nand milk".to_string(), tool_calls: vec![] }
    );
}

#[test]
fn tool_round_feeds_results_back() {
    let mut o = session(DEFAULT_MAX_ROUNDS);
    o.start_turn("Add eggs".to_string());
    let calls = || {
        vec![
            tool_call("c1", "add_to_list", r#"{"name":"eggs"}"#),
            tool_call("c2", "current_items", "{}"),
        ]
    };
    let step = o.on_completion(Ok(vec![Choice {
        content: Some("On it".to_string()),
        tool_calls: Some(calls()),
    }]));
    match step {
        Step::InvokeTool(inv) => assert_eq!(inv.name, "add_to_list"),
        other => panic!("unexpected {:?}", other),
    }
    let step = o.on_tool_result(Ok(vec![ContentBlock::Text("Successfully added 'eggs'".to_string())]));
    match step {
        Step::InvokeTool(inv) => assert_eq!(inv.name, "current_items"),
        other => panic!("unexpected {:?}", other),
    }
    let step = o.on_tool_result(Ok(vec![
        ContentBlock::Text("[".to_string()),
        ContentBlock::Text("]".to_string()),
    ]));
    assert_eq!(step, Step::RequestCompletion);
    let step = o.on_completion(Ok(vec![text_choice("Done")]));
    assert_eq!(step, Step::Answer("Done".to_string()));
    let log = o.conversation().snapshot();
    assert_eq!(log.len(), 6);
    assert_eq!(log[2], Message::Assistant { content: "On it".to_string(), tool_calls: calls() });
    assert_eq!(
        log[3],
        Message::Tool { tool_call_id: "c1".to_string(), content: "Successfully added 'eggs'".to_string() }
    );
    assert_eq!(log[4], Message::Tool { tool_call_id: "c2".to_string(), content: "[]".to_string() });
    assert_eq!(log[5], Message::Assistant { content: "Done".to_string(), tool_calls: vec![] });
}

#[test]
fn endless_tool_calls_hit_the_round_limit() {
    let mut o = session(DEFAULT_MAX_ROUNDS);
    let mut step = o.start_turn("Loop forever".to_string());
    let mut completions = 0;
    loop {
        step = match step {
            Step::RequestCompletion => {
                completions += 1;
                o.on_completion(Ok(vec![calls_choice(vec![tool_call("c", "current_items", "{}")])]))
            }
            Step::InvokeTool(_) => o.on_tool_result(Ok(vec![ContentBlock::Text("[]".to_string())])),
            Step::Answer(a) => panic!("unexpected answer {}", a),
            Step::Failed(e) => {
                assert_eq!(e, OrchestratorError::ToolCallLimitExceeded);
                break;
            }
        };
    }
    assert_eq!(completions, 5);
    assert_eq!(o.phase(), Phase::Idle);
}

#[test]
fn zero_rounds_fail_at_once() {
    let mut o = session(0);
    let step = o.start_turn("hello".to_string());
    assert_eq!(step, Step::Failed(OrchestratorError::ToolCallLimitExceeded));
    assert_eq!(o.conversation().len(), 2);
}

#[test]
fn array_arguments_fail_before_any_invocation() {
    let mut o = session(DEFAULT_MAX_ROUNDS);
    o.start_turn("Mark it".to_string());
    let step = o.on_completion(Ok(vec![calls_choice(vec![tool_call("c1", "mark_as_done", "[1,2,3]")])]));
    assert_eq!(
        step,
        Step::Failed(OrchestratorError::ToolExecutionFailed(ToolHostError::MalformedArguments(
            "[1,2,3]".to_string()
        )))
    );
    assert_eq!(o.phase(), Phase::Idle);
}

#[test]
fn earlier_tool_results_stay_after_a_failure() {
    let mut o = session(DEFAULT_MAX_ROUNDS);
    o.start_turn("Two things".to_string());
    let step = o.on_completion(Ok(vec![calls_choice(vec![
        tool_call("c1", "current_items", "{}"),
        tool_call("c2", "mark_as_done", "\"eggs\""),
    ])]));
    assert!(matches!(step, Step::InvokeTool(_)));
    let step = o.on_tool_result(Ok(vec![ContentBlock::Text("[]".to_string())]));
    assert!(matches!(
        step,
        Step::Failed(OrchestratorError::ToolExecutionFailed(ToolHostError::MalformedArguments(_)))
    ));
    assert_eq!(o.conversation().len(), 4);
}

#[test]
fn unsupported_content_ends_the_turn() {
    let mut o = session(DEFAULT_MAX_ROUNDS);
    o.start_turn("Picture".to_string());
    o.on_completion(Ok(vec![calls_choice(vec![tool_call("c1", "get_recipes", "{}")])]));
    let step = o.on_tool_result(Ok(vec![ContentBlock::Other("image".to_string())]));
    assert_eq!(
        step,
        Step::Failed(OrchestratorError::ToolExecutionFailed(ToolHostError::UnsupportedContent(
            "image".to_string()
        )))
    );
    assert_eq!(o.conversation().len(), 3);
}

#[test]
fn tool_host_failure_ends_the_turn() {
    let mut o = session(DEFAULT_MAX_ROUNDS);
    o.start_turn("Recipes".to_string());
    o.on_completion(Ok(vec![calls_choice(vec![tool_call("c1", "get_recipes", "{}")])]));
    let failure = ToolHostError::InvocationFailed("server error".to_string());
    let step = o.on_tool_result(Err(failure));
    assert_eq!(
        step,
        Step::Failed(OrchestratorError::ToolExecutionFailed(ToolHostError::InvocationFailed(
            "server error".to_string()
        )))
    );
}

#[test]
fn model_failure_ends_the_turn() {
    let mut o = session(DEFAULT_MAX_ROUNDS);
    o.start_turn("Hi".to_string());
    let step = o.on_completion(Err(LlmError { message: "rate limited".to_string() }));
    assert_eq!(
        step,
        Step::Failed(OrchestratorError::Llm(LlmError { message: "rate limited".to_string() }))
    );
    assert_eq!(o.conversation().len(), 2);
    assert_eq!(o.start_turn("Again".to_string()), Step::RequestCompletion);
}

#[test]
fn catalog_is_converted_once() {
    let today = CalendarDate::new(2024, 1, 1).unwrap();
    let catalog = vec![
        ToolCatalogEntry {
            name: "get_recipes".to_string(),
            description: "Return all the existing recipes".to_string(),
            parameter_schema: serde_json::from_str(r#"{"type":"object"}"#).unwrap(),
        },
        ToolCatalogEntry {
            name: "add_to_list".to_string(),
            description: "Add".to_string(),
            parameter_schema: serde_json::from_str(r#"{"properties":{"name":{}}}"#).unwrap(),
        },
    ];
    let o = Orchestrator::new(&today, catalog, 3);
    let functions = o.functions_for_model();
    assert_eq!(functions.len(), 2);
    assert_eq!(functions[0].name, "get_recipes");
    assert!(functions[0].parameters.is_none());
    assert!(functions[1].parameters.is_some());
}

#[test]
fn model_defaults() {
    let conf = LLMConfig { api_key: "SECRET-REDACTED".to_string(), base_url: None, model: None };
    assert_eq!(conf.model_name(), "gpt-4o");
    assert_eq!(conf.api_base(), "https://api.openai.com/v1");
    let conf = LLMConfig {
        api_key: "k".to_string(),
        base_url: Some("http://localhost:8080/v1".to_string()),
        model: Some("llama3".to_string()),
    };
    assert_eq!(conf.model_name(), "llama3");
    assert_eq!(conf.api_base(), "http://localhost:8080/v1");
}
