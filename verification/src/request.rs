//! The wire codec: canonical requests to the JSON bodies the server reads,
//! and the request a client sends for each.

use crate::json::{
    array, items_view, lemma_lookup_append, lookup, object, push_member, string, Json, JsonNumber,
    JsonNumberView, JsonView,
};
use crate::model::{ChatCompletionsData, EmbeddingsData, Message, MessageRole, Model};
use vstd::prelude::*;

verus! {

/// The wire name of a role.
pub open spec fn role_name(role: MessageRole) -> Seq<char> {
    match role {
        MessageRole::System => "system"@,
        MessageRole::User => "user"@,
        MessageRole::Assistant => "assistant"@,
    }
}

/// A message on the wire: `{role, content}`.
pub open spec fn message_json(m: Message) -> JsonView {
    JsonView::Object(
        seq![("role"@, JsonView::Str(role_name(m.role))), ("content"@, JsonView::Str(m.content@))],
    )
}

/// The messages on the wire, in order.
pub open spec fn messages_json(messages: Seq<Message>) -> Seq<JsonView> {
    Seq::new(messages.len(), |i: int| message_json(messages[i]))
}

/// A function definition on the wire: `{type: "function", function: def}`.
pub open spec fn tool_json(def: JsonView) -> JsonView {
    JsonView::Object(seq![("type"@, JsonView::Str("function"@)), ("function"@, def)])
}

/// The function definitions on the wire, in order.
pub open spec fn tools_json(defs: Seq<Json>) -> Seq<JsonView> {
    Seq::new(defs.len(), |i: int| tool_json(defs[i]@))
}

/// The texts as JSON strings, in order.
pub open spec fn strings_json(texts: Seq<String>) -> Seq<JsonView> {
    Seq::new(texts.len(), |i: int| JsonView::Str(texts[i]@))
}

/// The member `key: value` where there is a value, else none.
pub open spec fn optional_member(key: Seq<char>, value: Option<JsonView>) -> Seq<
    (Seq<char>, JsonView),
> {
    match value {
        Some(v) => seq![(key, v)],
        None => Seq::empty(),
    }
}

/// The `max_tokens` member's value.
pub open spec fn max_tokens_json(model: Model) -> Option<JsonView> {
    match model.max_tokens {
        Some(n) => Some(JsonView::Number(JsonNumberView::from_i64(n))),
        None => None,
    }
}

/// The value of a member that holds a number.
pub open spec fn number_json(n: Option<JsonNumber>) -> Option<JsonView> {
    match n {
        Some(n) => Some(JsonView::Number(n@)),
        None => None,
    }
}

/// The `stream` member's value: `true`, and absent where streaming is off.
pub open spec fn stream_json(stream: bool) -> Option<JsonView> {
    if stream {
        Some(JsonView::Bool(true))
    } else {
        None
    }
}

/// The `tools` member's value.
pub open spec fn functions_json(functions: Option<Vec<Json>>) -> Option<JsonView> {
    match functions {
        Some(defs) => Some(JsonView::Array(tools_json(defs@))),
        None => None,
    }
}

/// The members of a chat request body, in order: `model` and `messages`
/// always, then each of `max_tokens`, `temperature`, `top_p`, `stream` and
/// `tools` where the request or the model gives it.
pub open spec fn chat_members(data: ChatCompletionsData, model: Model) -> Seq<
    (Seq<char>, JsonView),
> {
    seq![
        ("model"@, JsonView::Str(model.name@)),
        ("messages"@, JsonView::Array(messages_json(data.messages@))),
    ] + optional_member("max_tokens"@, max_tokens_json(model)) + optional_member(
        "temperature"@,
        number_json(data.temperature),
    ) + optional_member("top_p"@, number_json(data.top_p)) + optional_member(
        "stream"@,
        stream_json(data.stream),
    ) + optional_member("tools"@, functions_json(data.functions))
}

/// The body of a chat request.
pub open spec fn chat_body(data: ChatCompletionsData, model: Model) -> JsonView {
    JsonView::Object(chat_members(data, model))
}

/// The body of an embeddings request: `{input, model}`.
pub open spec fn embeddings_body(data: EmbeddingsData, model: Model) -> JsonView {
    JsonView::Object(
        seq![
            ("input"@, JsonView::Array(strings_json(data.texts@))),
            ("model"@, JsonView::Str(model.name@)),
        ],
    )
}

/// The wire name of `role`.
fn role_text(role: MessageRole) -> (r: &'static str)
    ensures
        r@ == role_name(role),
{
    match role {
        MessageRole::System => "system",
        MessageRole::User => "user",
        MessageRole::Assistant => "assistant",
    }
}

/// One message as the wire holds it.
fn message_body(m: &Message) -> (r: Json)
    ensures
        r@ == message_json(*m),
{
    let mut entries: Vec<(String, Json)> = Vec::new();
    push_member(&mut entries, "role", string(role_text(m.role)));
    push_member(&mut entries, "content", string(m.content.as_str()));
    let r = object(entries);
    assert(r@->Object_0 =~= message_json(*m)->Object_0);
    r
}

/// One function definition as the wire holds it.
fn tool_body(def: &Json) -> (r: Json)
    ensures
        r@ == tool_json(def@),
{
    let mut entries: Vec<(String, Json)> = Vec::new();
    push_member(&mut entries, "type", string("function"));
    push_member(&mut entries, "function", def.copy());
    let r = object(entries);
    assert(r@->Object_0 =~= tool_json(def@)->Object_0);
    r
}

/// Builds the body of a chat request.
pub fn opencog_build_chat_completions_body(data: ChatCompletionsData, model: &Model) -> (body: Json)
    ensures
        body@ == chat_body(data, *model),
{
    let mut messages: Vec<Json> = Vec::new();
    let mut i: usize = 0;
    while i < data.messages.len()
        invariant
            i <= data.messages@.len(),
            messages@.len() == i,
            forall|k: int| 0 <= k < i ==> (#[trigger] messages@[k])@ == message_json(data.messages@[k]),
        decreases data.messages@.len() - i,
    {
        messages.push(message_body(&data.messages[i]));
        i = i + 1;
    }
    assert(items_view(messages@) =~= messages_json(data.messages@));

    let mut entries: Vec<(String, Json)> = Vec::new();
    push_member(&mut entries, "model", string(model.name.as_str()));
    push_member(&mut entries, "messages", array(messages));
    match model.max_tokens {
        Some(v) => {
            push_member(&mut entries, "max_tokens", Json::Number(JsonNumber::from_i64(v)));
        },
        None => {},
    }
    match &data.temperature {
        Some(v) => {
            push_member(&mut entries, "temperature", Json::Number(v.copy()));
        },
        None => {},
    }
    match &data.top_p {
        Some(v) => {
            push_member(&mut entries, "top_p", Json::Number(v.copy()));
        },
        None => {},
    }
    if data.stream {
        push_member(&mut entries, "stream", Json::Bool(true));
    }
    match &data.functions {
        Some(functions) => {
            let mut tools: Vec<Json> = Vec::new();
            let mut j: usize = 0;
            while j < functions.len()
                invariant
                    j <= functions@.len(),
                    tools@.len() == j,
                    forall|k: int| 0 <= k < j ==> (#[trigger] tools@[k])@ == tool_json(functions@[k]@),
                decreases functions@.len() - j,
            {
                tools.push(tool_body(&functions[j]));
                j = j + 1;
            }
            assert(items_view(tools@) =~= tools_json(functions@));
            push_member(&mut entries, "tools", array(tools));
        },
        None => {},
    }
    let body = object(entries);
    assert(body@->Object_0 =~= chat_members(data, *model));
    body
}

/// Builds the body of an embeddings request.
pub fn opencog_build_embeddings_body(data: &EmbeddingsData, model: &Model) -> (body: Json)
    ensures
        body@ == embeddings_body(*data, *model),
{
    let mut input: Vec<Json> = Vec::new();
    let mut i: usize = 0;
    while i < data.texts.len()
        invariant
            i <= data.texts@.len(),
            input@.len() == i,
            forall|k: int| 0 <= k < i ==> (#[trigger] input@[k])@ == JsonView::Str(data.texts@[k]@),
        decreases data.texts@.len() - i,
    {
        input.push(string(data.texts[i].as_str()));
        i = i + 1;
    }
    assert(items_view(input@) =~= strings_json(data.texts@));
    let mut entries: Vec<(String, Json)> = Vec::new();
    push_member(&mut entries, "input", array(input));
    push_member(&mut entries, "model", string(model.name.as_str()));
    let body = object(entries);
    assert(body@->Object_0 =~= embeddings_body(*data, *model)->Object_0);
    body
}

/// The value under `key` among the members that `optional_member` gives.
proof fn lemma_optional_lookup(name: Seq<char>, value: Option<JsonView>, key: Seq<char>)
    ensures
        lookup(optional_member(name, value), key, optional_member(name, value).len()) == (if name
            == key {
            value
        } else {
            None
        }),
{
    reveal_with_fuel(lookup, 2);
}

/// The seven names of a chat body's members are seven different texts.
proof fn lemma_member_names_differ()
    ensures
        "model"@ != "messages"@,
        "model"@ != "max_tokens"@,
        "model"@ != "temperature"@,
        "model"@ != "top_p"@,
        "model"@ != "stream"@,
        "model"@ != "tools"@,
        "messages"@ != "max_tokens"@,
        "messages"@ != "temperature"@,
        "messages"@ != "top_p"@,
        "messages"@ != "stream"@,
        "messages"@ != "tools"@,
        "max_tokens"@ != "temperature"@,
        "max_tokens"@ != "top_p"@,
        "max_tokens"@ != "stream"@,
        "max_tokens"@ != "tools"@,
        "temperature"@ != "top_p"@,
        "temperature"@ != "stream"@,
        "temperature"@ != "tools"@,
        "top_p"@ != "stream"@,
        "top_p"@ != "tools"@,
        "stream"@ != "tools"@,
{
    reveal_strlit("model");
    reveal_strlit("messages");
    reveal_strlit("max_tokens");
    reveal_strlit("temperature");
    reveal_strlit("top_p");
    reveal_strlit("stream");
    reveal_strlit("tools");
    assert("model"@.len() == 5 && "model"@[0] == 'm');
    assert("messages"@.len() == 8);
    assert("max_tokens"@.len() == 10);
    assert("temperature"@.len() == 11);
    assert("top_p"@.len() == 5 && "top_p"@[0] == 't' && "top_p"@[2] == 'p');
    assert("stream"@.len() == 6);
    assert("tools"@.len() == 5 && "tools"@[0] == 't' && "tools"@[2] == 'o');
}

/// The value of a chat body under any key: the members are looked through
/// from the last to the first.
proof fn lemma_chat_body_lookup(data: ChatCompletionsData, model: Model, key: Seq<char>)
    ensures
        chat_body(data, model).get(key) == (if key == "tools"@ && data.functions is Some {
            functions_json(data.functions)
        } else if key == "stream"@ && data.stream {
            stream_json(data.stream)
        } else if key == "top_p"@ && data.top_p is Some {
            number_json(data.top_p)
        } else if key == "temperature"@ && data.temperature is Some {
            number_json(data.temperature)
        } else if key == "max_tokens"@ && model.max_tokens is Some {
            max_tokens_json(model)
        } else if key == "messages"@ {
            Some(JsonView::Array(messages_json(data.messages@)))
        } else if key == "model"@ {
            Some(JsonView::Str(model.name@))
        } else {
            None
        }),
{
    let m0 = seq![
        ("model"@, JsonView::Str(model.name@)),
        ("messages"@, JsonView::Array(messages_json(data.messages@))),
    ];
    let o1 = optional_member("max_tokens"@, max_tokens_json(model));
    let o2 = optional_member("temperature"@, number_json(data.temperature));
    let o3 = optional_member("top_p"@, number_json(data.top_p));
    let o4 = optional_member("stream"@, stream_json(data.stream));
    let o5 = optional_member("tools"@, functions_json(data.functions));
    lemma_lookup_append(m0, o1, key, o1.len());
    lemma_lookup_append(m0 + o1, o2, key, o2.len());
    lemma_lookup_append(m0 + o1 + o2, o3, key, o3.len());
    lemma_lookup_append(m0 + o1 + o2 + o3, o4, key, o4.len());
    lemma_lookup_append(m0 + o1 + o2 + o3 + o4, o5, key, o5.len());
    lemma_optional_lookup("max_tokens"@, max_tokens_json(model), key);
    lemma_optional_lookup("temperature"@, number_json(data.temperature), key);
    lemma_optional_lookup("top_p"@, number_json(data.top_p), key);
    lemma_optional_lookup("stream"@, stream_json(data.stream), key);
    lemma_optional_lookup("tools"@, functions_json(data.functions), key);
    assert(lookup(m0, key, m0.len()) == (if key == "messages"@ {
        Some(JsonView::Array(messages_json(data.messages@)))
    } else if key == "model"@ {
        Some(JsonView::Str(model.name@))
    } else {
        None
    })) by {
        reveal_with_fuel(lookup, 3);
    }
}

/// A chat body always has `model` and `messages`; it has each of
/// `max_tokens`, `temperature`, `top_p`, `stream` and `tools` exactly where
/// the model or the request gives it, `stream` only as `true`; and it has
/// no other member.
pub proof fn lemma_chat_body_members(data: ChatCompletionsData, model: Model)
    ensures
        chat_body(data, model).get("model"@) == Some(JsonView::Str(model.name@)),
        chat_body(data, model).get("messages"@) == Some(
            JsonView::Array(messages_json(data.messages@)),
        ),
        chat_body(data, model).get("max_tokens"@) == max_tokens_json(model),
        chat_body(data, model).get("temperature"@) == number_json(data.temperature),
        chat_body(data, model).get("top_p"@) == number_json(data.top_p),
        chat_body(data, model).get("stream"@) == stream_json(data.stream),
        chat_body(data, model).get("tools"@) == functions_json(data.functions),
        forall|key: Seq<char>|
            key != "model"@ && key != "messages"@ && key != "max_tokens"@ && key != "temperature"@
                && key != "top_p"@ && key != "stream"@ && key != "tools"@ ==> (
            #[trigger] chat_body(data, model).get(key)) is None,
{
    lemma_member_names_differ();
    lemma_chat_body_lookup(data, model, "model"@);
    lemma_chat_body_lookup(data, model, "messages"@);
    lemma_chat_body_lookup(data, model, "max_tokens"@);
    lemma_chat_body_lookup(data, model, "temperature"@);
    lemma_chat_body_lookup(data, model, "top_p"@);
    lemma_chat_body_lookup(data, model, "stream"@);
    lemma_chat_body_lookup(data, model, "tools"@);
    assert forall|key: Seq<char>|
        key != "model"@ && key != "messages"@ && key != "max_tokens"@ && key != "temperature"@
            && key != "top_p"@ && key != "stream"@ && key != "tools"@ implies (
        #[trigger] chat_body(data, model).get(key)) is None by {
        lemma_chat_body_lookup(data, model, key);
    }
}

} // verus!
