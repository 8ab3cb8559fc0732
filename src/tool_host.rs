//! The library's side of the tool host: how its catalog is advertised to the
//! model, how a model's call becomes an invocation, and how a result becomes
//! the text of a tool message.
use crate::json::{is_object_text, member, object_in, object_members, parse_object, JsonObject};
use vstd::prelude::*;

verus! {

/// A tool as the tool host advertises it.
#[derive(Debug, PartialEq)]
pub struct ToolCatalogEntry {
    pub name: String,
    pub description: String,
    pub parameter_schema: JsonObject,
}

/// A tool as the model is told of it: a function with an optional schema
/// for its parameters.
#[derive(Debug, PartialEq)]
pub struct FunctionSpec {
    pub name: String,
    pub description: String,
    pub parameters: Option<JsonObject>,
}

/// A function call as the model requests it; `arguments` is raw JSON text.
#[derive(Debug, PartialEq)]
pub struct FunctionCall {
    pub name: String,
    pub arguments: String,
}

/// A call as it is sent to the tool host.
#[derive(Debug, PartialEq)]
pub struct ToolInvocation {
    pub name: String,
    pub arguments: JsonObject,
}

/// One block of a tool's result.  Only text is understood; any other kind
/// is kept by its name.
#[derive(Debug, PartialEq)]
pub enum ContentBlock {
    Text(String),
    Other(String),
}

/// Failures of the tool host or of a call to it.
#[derive(Debug, PartialEq)]
pub enum ToolHostError {
    ConnectionLost(String),
    InvocationFailed(String),
    MalformedArguments(String),
    UnsupportedContent(String),
}

/// The content of a [`ToolHostError`].
pub ghost enum ToolHostErrorView {
    ConnectionLost(Seq<char>),
    InvocationFailed(Seq<char>),
    MalformedArguments(Seq<char>),
    UnsupportedContent(Seq<char>),
}

impl View for ToolHostError {
    type V = ToolHostErrorView;

    open spec fn view(&self) -> ToolHostErrorView {
        match self {
            ToolHostError::ConnectionLost(m) => ToolHostErrorView::ConnectionLost(m@),
            ToolHostError::InvocationFailed(m) => ToolHostErrorView::InvocationFailed(m@),
            ToolHostError::MalformedArguments(m) => ToolHostErrorView::MalformedArguments(m@),
            ToolHostError::UnsupportedContent(m) => ToolHostErrorView::UnsupportedContent(m@),
        }
    }
}

/// The content of a [`ContentBlock`].
pub ghost enum ContentBlockView {
    Text(Seq<char>),
    Other(Seq<char>),
}

impl View for ContentBlock {
    type V = ContentBlockView;

    open spec fn view(&self) -> ContentBlockView {
        match self {
            ContentBlock::Text(t) => ContentBlockView::Text(t@),
            ContentBlock::Other(k) => ContentBlockView::Other(k@),
        }
    }
}

/// The views of `blocks`, in order.
pub open spec fn blocks_view(blocks: Seq<ContentBlock>) -> Seq<ContentBlockView> {
    blocks.map_values(|b: ContentBlock| b@)
}

/// `schema` declares at least one parameter: it has a `properties` member
/// that is a non-empty object.
pub open spec fn declares_parameters(schema: JsonObject) -> bool {
    let members = object_members(schema);
    &&& members.contains_key("properties"@)
    &&& object_in(members["properties"@]) matches Some(props)
    &&& object_members(props) != Map::<Seq<char>, serde_json::Value>::empty()
}

/// How a catalog entry is advertised to the model.
pub open spec fn advertised(tool: ToolCatalogEntry) -> FunctionSpec {
    FunctionSpec {
        name: tool.name,
        description: tool.description,
        parameters: if declares_parameters(tool.parameter_schema) {
            Some(tool.parameter_schema)
        } else {
            None
        },
    }
}

/// The kind of the first block of `blocks` that is not text, if any.
pub open spec fn first_unsupported(blocks: Seq<ContentBlockView>) -> Option<Seq<char>>
    decreases blocks.len(),
{
    if blocks.len() == 0 {
        None
    } else {
        match blocks[0] {
            ContentBlockView::Other(kind) => Some(kind),
            ContentBlockView::Text(_) => first_unsupported(blocks.drop_first()),
        }
    }
}

/// The text blocks of `blocks` concatenated in order.
pub open spec fn concat_text(blocks: Seq<ContentBlockView>) -> Seq<char>
    decreases blocks.len(),
{
    if blocks.len() == 0 {
        Seq::empty()
    } else {
        let rest = concat_text(blocks.drop_last());
        match blocks.last() {
            ContentBlockView::Text(t) => rest + t,
            ContentBlockView::Other(_) => rest,
        }
    }
}

fn schema_declares_parameters(schema: &JsonObject) -> (r: bool)
    ensures
        r == declares_parameters(*schema),
{
    match member(schema, "properties") {
        Some(value) => match value.as_object() {
            Some(props) => !props.is_empty(),
            None => false,
        },
        None => false,
    }
}

/// Advertises a catalog entry to the model.  The schema is passed through
/// only when it declares a non-empty `properties` member; otherwise the
/// function is said to take no parameters.
pub fn tool_to_function(tool: ToolCatalogEntry) -> (r: FunctionSpec)
    ensures
        r == advertised(tool),
{
    let parameters = if schema_declares_parameters(&tool.parameter_schema) {
        Some(tool.parameter_schema)
    } else {
        None
    };
    FunctionSpec { name: tool.name, description: tool.description, parameters }
}

/// Turns a call requested by the model into an invocation for the tool host.
/// The argument text must be a JSON object; anything else (an array, a
/// scalar, text that is no JSON) is refused before it reaches the host.
pub fn function_to_tool(function: &FunctionCall) -> (r: Result<ToolInvocation, ToolHostError>)
    ensures
        r is Ok <==> is_object_text(function.arguments@),
        r matches Ok(inv) ==> inv.name@ == function.name@,
        r matches Err(e) ==> e@ == ToolHostErrorView::MalformedArguments(function.arguments@),
{
    match parse_object(function.arguments.as_str()) {
        Some(arguments) => Ok(ToolInvocation { name: function.name.clone(), arguments }),
        None => Err(ToolHostError::MalformedArguments(function.arguments.clone())),
    }
}

/// The text of a tool's result: all of its text blocks, concatenated in
/// order.  A block of any other kind makes the result unusable; the error
/// names the first such kind.
pub fn tool_result_text(content: &Vec<ContentBlock>) -> (r: Result<String, ToolHostError>)
    ensures
        match first_unsupported(blocks_view(content@)) {
            Some(kind) => r matches Err(e) && e@ == ToolHostErrorView::UnsupportedContent(kind),
            None => r matches Ok(text) && text@ == concat_text(blocks_view(content@)),
        },
{
    let ghost all = blocks_view(content@);
    let mut text = String::new();
    assert(all.skip(0) =~= all);
    assert(all.take(0) =~= Seq::<ContentBlockView>::empty());
    for i in 0..content.len()
        invariant
            all == blocks_view(content@),
            first_unsupported(all) == first_unsupported(all.skip(i as int)),
            text@ == concat_text(all.take(i as int)),
    {
        assert(all.skip(i as int)[0] == all[i as int]);
        assert(all.skip(i as int).drop_first() =~= all.skip(i as int + 1));
        assert(all.take(i as int + 1).drop_last() =~= all.take(i as int));
        match &content[i] {
            ContentBlock::Text(t) => {
                text.append(t.as_str());
            },
            ContentBlock::Other(kind) => {
                return Err(ToolHostError::UnsupportedContent(kind.clone()));
            },
        }
    }
    assert(all.take(content.len() as int) =~= all);
    assert(all.skip(content.len() as int) =~= Seq::<ContentBlockView>::empty());
    Ok(text)
}

} // verus!
