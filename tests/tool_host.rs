use rullm::json::JsonObject;
use rullm::tool_host::{
    function_to_tool, tool_result_text, tool_to_function, ContentBlock, FunctionCall,
    ToolCatalogEntry, ToolHostError,
};

fn object(text: &str) -> JsonObject {
    serde_json::from_str(text).unwrap()
}

fn entry(schema: &str) -> ToolCatalogEntry {
    ToolCatalogEntry {
        name: "add_to_list".to_string(),
        description: "Add a new item to the shopping list".to_string(),
        parameter_schema: object(schema),
    }
}

fn call(arguments: &str) -> FunctionCall {
    FunctionCall { name: "add_to_list".to_string(), arguments: arguments.to_string() }
}

#[test]
fn schema_with_properties_is_passed_through() {
    let schema = r#"{"type":"object","properties":{"name":{"type":"string"}}}"#;
    let f = tool_to_function(entry(schema));
    assert_eq!(f.name, "add_to_list");
    assert_eq!(f.description, "Add a new item to the shopping list");
    assert_eq!(f.parameters, Some(object(schema)));
}

#[test]
fn schema_without_properties_means_no_parameters() {
    let f = tool_to_function(entry(r#"{"type":"object"}"#));
    assert_eq!(f.parameters, None);
}

#[test]
fn schema_with_empty_properties_means_no_parameters() {
    let f = tool_to_function(entry(r#"{"type":"object","properties":{}}"#));
    assert_eq!(f.parameters, None);
}

#[test]
fn schema_with_non_object_properties_means_no_parameters() {
    let f = tool_to_function(entry(r#"{"properties":[1]}"#));
    assert_eq!(f.parameters, None);
}

#[test]
fn object_arguments_become_an_invocation() {
    let inv = function_to_tool(&call(r#"{"name":"eggs"}"#)).unwrap();
    assert_eq!(inv.name, "add_to_list");
    assert_eq!(inv.arguments, object(r#"{"name":"eggs"}"#));
}

#[test]
fn array_arguments_are_malformed() {
    let r = function_to_tool(&call("[1,2,3]"));
    assert_eq!(r, Err(ToolHostError::MalformedArguments("[1,2,3]".to_string())));
}

#[test]
fn scalar_and_broken_arguments_are_malformed() {
    assert!(matches!(function_to_tool(&call("42")), Err(ToolHostError::MalformedArguments(_))));
    assert!(matches!(function_to_tool(&call("{\"a\":")), Err(ToolHostError::MalformedArguments(_))));
    assert!(matches!(function_to_tool(&call("")), Err(ToolHostError::MalformedArguments(_))));
}

#[test]
fn text_blocks_are_concatenated() {
    let blocks = vec![ContentBlock::Text("ab".to_string()), ContentBlock::Text("cd".to_string())];
    assert_eq!(tool_result_text(&blocks), Ok("abcd".to_string()));
    assert_eq!(tool_result_text(&vec![]), Ok(String::new()));
}

#[test]
fn non_text_block_is_unsupported() {
    let blocks = vec![
        ContentBlock::Text("ab".to_string()),
        ContentBlock::Other("image".to_string()),
        ContentBlock::Other("audio".to_string()),
    ];
    assert_eq!(
        tool_result_text(&blocks),
        Err(ToolHostError::UnsupportedContent("image".to_string()))
    );
}
