//! Reading one complete response: the classification of a failed status,
//! the extraction of a chat completion and of embeddings.

use crate::json::{
    at_in, at_opt, get_in, get_opt, json_of_text, model_of, str_in, str_opt, text_of_json, u64_in,
    u64_opt, Json, JsonNumber, JsonNumberView, JsonView,
};
use crate::model::{
    calls_view, ChatCompletionsOutput, ChatCompletionsOutputView, ClientError,
    ClientErrorView, ToolCall, ToolCallView,
};
use vstd::prelude::*;

verus! {

/// Whether an HTTP status reports success: 200 to 299.
pub open spec fn is_success(status: u16) -> bool {
    200 <= status <= 299
}

/// Whether `status` reports success.
pub fn status_is_success(status: u16) -> (r: bool)
    ensures
        r == is_success(status),
{
    200 <= status && status <= 299
}

/// The failure a status and its body stand for: the body's `error.message`
/// where that is a string, else the whole body as text.
pub open spec fn classified(status: u16, doc: JsonView) -> ClientErrorView {
    ClientErrorView::HttpStatus {
        status,
        message: match str_in(get_in(doc.get("error"@), "message"@)) {
            Some(m) => m,
            None => text_of_json(doc),
        },
    }
}

/// Classifies the body of a response whose status is no success.
pub fn catch_error(data: &Json, status: u16) -> (r: ClientError)
    ensures
        r@ == classified(status, data@),
{
    let message = match str_opt(get_opt(data.get("error"), "message")) {
        Some(m) => m.to_owned(),
        None => data.to_text(),
    };
    ClientError::HttpStatus { status, message }
}

/// `choices[0].message` of a completion.
pub open spec fn message_of(doc: JsonView) -> Option<JsonView> {
    get_in(at_in(doc.get("choices"@), 0), "message"@)
}

/// The text of a completion: `choices[0].message.content` where it is a
/// string, else the empty text.
pub open spec fn text_in(doc: JsonView) -> Seq<char> {
    match str_in(get_in(message_of(doc), "content"@)) {
        Some(t) => t,
        None => Seq::empty(),
    }
}

/// The raw tool calls of a completion: `choices[0].message.tool_calls`
/// where it is an array, else none.
pub open spec fn raw_calls_in(doc: JsonView) -> Seq<JsonView> {
    match get_in(message_of(doc), "tool_calls"@) {
        Some(JsonView::Array(items)) => items,
        _ => Seq::empty(),
    }
}

/// The three strings of a raw tool call.
pub struct RawCall {
    pub name: Seq<char>,
    pub arguments: Seq<char>,
    pub id: Seq<char>,
}

/// The name, the argument text and the id of a raw tool call, where all
/// three are strings and the name is not empty.
pub open spec fn raw_call(entry: JsonView) -> Option<RawCall> {
    match (
        str_in(get_in(entry.get("function"@), "name"@)),
        str_in(get_in(entry.get("function"@), "arguments"@)),
        str_in(entry.get("id"@)),
    ) {
        (Some(name), Some(arguments), Some(id)) => if name.len() > 0 {
            Some(RawCall { name, arguments, id })
        } else {
            None
        },
        _ => None,
    }
}

/// The tool call of a raw one, given what its argument text reads as: the
/// call with the parsed arguments, or the failure that names the function
/// and the text.
pub open spec fn tool_call_given(raw: RawCall, parsed: Option<JsonView>) -> Result<
    ToolCallView,
    ClientErrorView,
> {
    match parsed {
        Some(a) => Ok(ToolCallView { name: raw.name, arguments: a, id: Some(raw.id) }),
        None => Err(ClientErrorView::ArgumentParse { name: raw.name, arguments: raw.arguments }),
    }
}

/// The tool calls of the first `n` raw entries, in order. An entry that
/// lacks one of its three strings, or whose name is empty, gives no call;
/// the first of the others whose arguments are not JSON fails them all.
pub open spec fn tool_calls_of(entries: Seq<JsonView>, n: nat) -> Result<
    Seq<ToolCallView>,
    ClientErrorView,
>
    decreases n,
{
    if n == 0 || n > entries.len() {
        Ok(Seq::empty())
    } else {
        match tool_calls_of(entries, (n - 1) as nat) {
            Err(e) => Err(e),
            Ok(calls) => match raw_call(entries[n - 1]) {
                None => Ok(calls),
                Some(raw) => match tool_call_given(raw, json_of_text(raw.arguments)) {
                    Ok(call) => Ok(calls.push(call)),
                    Err(e) => Err(e),
                },
            },
        }
    }
}

/// The completion a document holds: its text and tool calls, of which not
/// both may be empty, its id and its token counts.
pub open spec fn extracted(doc: JsonView) -> Result<ChatCompletionsOutputView, ClientErrorView> {
    match tool_calls_of(raw_calls_in(doc), raw_calls_in(doc).len()) {
        Err(e) => Err(e),
        Ok(calls) => if text_in(doc).len() == 0 && calls.len() == 0 {
            Err(ClientErrorView::EmptyResponse { document: text_of_json(doc) })
        } else {
            Ok(
                ChatCompletionsOutputView {
                    text: text_in(doc),
                    tool_calls: calls,
                    id: str_in(doc.get("id"@)),
                    input_tokens: u64_in(get_in(doc.get("usage"@), "prompt_tokens"@)),
                    output_tokens: u64_in(get_in(doc.get("usage"@), "completion_tokens"@)),
                },
            )
        },
    }
}

/// The model of a tool call or the failure in its place.
pub open spec fn call_view(r: Result<ToolCall, ClientError>) -> Result<
    ToolCallView,
    ClientErrorView,
> {
    match r {
        Ok(c) => Ok(c@),
        Err(e) => Err(e@),
    }
}

/// The model of a completion or the failure in its place.
pub open spec fn output_view(r: Result<ChatCompletionsOutput, ClientError>) -> Result<
    ChatCompletionsOutputView,
    ClientErrorView,
> {
    match r {
        Ok(c) => Ok(c@),
        Err(e) => Err(e@),
    }
}

/// Makes the tool call of the three strings of a raw one, given what its
/// argument text reads as. The name is not the empty text.
pub fn tool_call_from(name: &str, arguments: &str, id: &str, parsed: Option<Json>) -> (r: Result<
    ToolCall,
    ClientError,
>)
    requires
        name@.len() > 0,
    ensures
        call_view(r) == tool_call_given(
            RawCall { name: name@, arguments: arguments@, id: id@ },
            model_of(parsed),
        ),
        r matches Ok(call) ==> call@.well_formed(),
{
    match parsed {
        Some(a) => Ok(ToolCall::new(name.to_owned(), a, Some(id.to_owned()))),
        None => Err(
            ClientError::ArgumentParse { name: name.to_owned(), arguments: arguments.to_owned() },
        ),
    }
}

/// Extracts the completion from the document of a successful response.
pub fn opencog_extract_chat_completions(data: &Json) -> (r: Result<
    ChatCompletionsOutput,
    ClientError,
>)
    ensures
        output_view(r) == extracted(data@),
        r matches Ok(out) ==> out@.well_formed(),
{
    proof {
        lemma_completion_is_well_formed(data@);
    }
    let message = get_opt(at_opt(data.get("choices"), 0), "message");
    let text = match str_opt(get_opt(message, "content")) {
        Some(t) => t,
        None => "",
    };
    proof {
        reveal_strlit("");
        assert(text@ =~= text_in(data@));
    }
    let mut tool_calls: Vec<ToolCall> = Vec::new();
    let ghost raw = raw_calls_in(data@);
    assert(calls_view(tool_calls@) =~= Seq::empty());
    match get_opt(message, "tool_calls") {
        Some(list) => {
            match list.as_array() {
                Some(calls) => {
                    let mut i: usize = 0;
                    while i < calls.len()
                        invariant
                            i <= calls@.len(),
                            raw == crate::json::items_view(calls@),
                            raw == raw_calls_in(data@),
                            tool_calls_of(raw, i as nat) == Ok::<
                                Seq<ToolCallView>,
                                ClientErrorView,
                            >(calls_view(tool_calls@)),
                        decreases calls@.len() - i,
                    {
                        let call = &calls[i];
                        assert(raw[i as int] == call@);
                        let function = call.get("function");
                        match (
                            str_opt(get_opt(function, "name")),
                            str_opt(get_opt(function, "arguments")),
                            str_opt(call.get("id")),
                        ) {
                            (Some(name), Some(arguments), Some(id)) => {
                                if !name.is_empty() {
                                    match tool_call_from(
                                        name,
                                        arguments,
                                        id,
                                        Json::parse(arguments),
                                    ) {
                                        Ok(tool_call) => {
                                            let ghost before = calls_view(tool_calls@);
                                            tool_calls.push(tool_call);
                                            assert(calls_view(tool_calls@) =~= before.push(
                                                tool_call@,
                                            ));
                                        },
                                        Err(e) => {
                                            proof {
                                                lemma_failure_stays(
                                                    raw,
                                                    (i + 1) as nat,
                                                    raw.len(),
                                                );
                                            }
                                            return Err(e);
                                        },
                                    }
                                }
                            },
                            _ => {},
                        }
                        i = i + 1;
                    }
                },
                None => {},
            }
        },
        None => {},
    }
    assert(tool_calls_of(raw, raw.len()) == Ok::<Seq<ToolCallView>, ClientErrorView>(
        calls_view(tool_calls@),
    ));
    if text.is_empty() && tool_calls.len() == 0 {
        return Err(ClientError::EmptyResponse { document: data.to_text() });
    }
    let id = match str_opt(data.get("id")) {
        Some(v) => Some(v.to_owned()),
        None => None,
    };
    let usage = data.get("usage");
    Ok(
        ChatCompletionsOutput {
            text: text.to_owned(),
            tool_calls,
            id,
            input_tokens: u64_opt(get_opt(usage, "prompt_tokens")),
            output_tokens: u64_opt(get_opt(usage, "completion_tokens")),
        },
    )
}

/// Once the arguments of a tool call fail to read, the failure is that of
/// the whole list.
pub proof fn lemma_failure_stays(entries: Seq<JsonView>, n: nat, m: nat)
    requires
        n <= m <= entries.len(),
        tool_calls_of(entries, n) is Err,
    ensures
        tool_calls_of(entries, m) == tool_calls_of(entries, n),
    decreases m,
{
    if n < m {
        lemma_failure_stays(entries, n, (m - 1) as nat);
    }
}

/// Reads the response to a chat request: the classified failure where the
/// status is no success, else the completion the document holds.
pub fn opencog_chat_completions(status: u16, data: &Json) -> (r: Result<
    ChatCompletionsOutput,
    ClientError,
>)
    ensures
        output_view(r) == if is_success(status) {
            extracted(data@)
        } else {
            Err(classified(status, data@))
        },
{
    if !status_is_success(status) {
        return Err(catch_error(data, status));
    }
    opencog_extract_chat_completions(data)
}

/// The models of a list of numbers, in order.
pub open spec fn numbers_view(numbers: Seq<JsonNumber>) -> Seq<JsonNumberView> {
    Seq::new(numbers.len(), |i: int| numbers[i]@)
}

/// The models of a list of vectors, in order.
pub open spec fn vectors_view(vectors: Seq<Vec<JsonNumber>>) -> Seq<Seq<JsonNumberView>> {
    Seq::new(vectors.len(), |i: int| numbers_view(vectors[i]@))
}

/// The vector that `items` hold, where every item is a number.
pub open spec fn vector_of(items: Seq<JsonView>) -> Option<Seq<JsonNumberView>> {
    if forall|i: int| 0 <= i < items.len() ==> (#[trigger] items[i]).is_number() {
        Some(Seq::new(items.len(), |i: int| items[i]->Number_0))
    } else {
        None
    }
}

/// The vector of one entry of `data`: its `embedding`, where that is an
/// array of numbers.
pub open spec fn embedding_of(entry: JsonView) -> Option<Seq<JsonNumberView>> {
    match entry.get("embedding"@) {
        Some(JsonView::Array(items)) => vector_of(items),
        _ => None,
    }
}

/// The vectors of an embeddings response, in the order of `data`, where
/// `data` is an array and every entry of it holds a vector.
pub open spec fn embeddings_of(doc: JsonView) -> Option<Seq<Seq<JsonNumberView>>> {
    match doc.get("data"@) {
        Some(JsonView::Array(entries)) => if forall|i: int|
            0 <= i < entries.len() ==> embedding_of(#[trigger] entries[i]) is Some {
            Some(Seq::new(entries.len(), |i: int| embedding_of(entries[i])->Some_0))
        } else {
            None
        },
        _ => None,
    }
}

/// Reads a vector from the items of an array.
fn read_vector(items: &Vec<Json>) -> (r: Option<Vec<JsonNumber>>)
    ensures
        match r {
            Some(v) => vector_of(crate::json::items_view(items@)) == Some(numbers_view(v@)),
            None => vector_of(crate::json::items_view(items@)) is None,
        },
{
    let ghost all = crate::json::items_view(items@);
    let mut out: Vec<JsonNumber> = Vec::new();
    let mut i: usize = 0;
    while i < items.len()
        invariant
            i <= items@.len(),
            all == crate::json::items_view(items@),
            out@.len() == i,
            forall|k: int| 0 <= k < i ==> all[k] == JsonView::Number((#[trigger] out@[k])@),
        decreases items@.len() - i,
    {
        match items[i].as_number() {
            Some(n) => {
                out.push(n.copy());
            },
            None => {
                assert(!all[i as int].is_number());
                return None;
            },
        }
        i = i + 1;
    }
    proof {
        assert forall|k: int| 0 <= k < all.len() implies (#[trigger] all[k]).is_number() by {
            assert(all[k] == JsonView::Number(out@[k]@));
        }
        assert(vector_of(all)->Some_0 =~= numbers_view(out@));
    }
    Some(out)
}

/// Reads the vector of one entry of `data`.
fn read_embedding(entry: &Json) -> (r: Option<Vec<JsonNumber>>)
    ensures
        match r {
            Some(v) => embedding_of(entry@) == Some(numbers_view(v@)),
            None => embedding_of(entry@) is None,
        },
{
    match entry.get("embedding") {
        Some(list) => match list.as_array() {
            Some(items) => read_vector(items),
            None => None,
        },
        None => None,
    }
}

/// Extracts the vectors from the document of a successful embeddings
/// response; a document of any other shape is malformed as a whole.
pub fn opencog_extract_embeddings(data: &Json) -> (r: Result<Vec<Vec<JsonNumber>>, ClientError>)
    ensures
        match r {
            Ok(v) => embeddings_of(data@) == Some(vectors_view(v@)),
            Err(e) => embeddings_of(data@) is None && e@ == ClientErrorView::MalformedPayload,
        },
{
    let entries = match data.get("data") {
        Some(list) => match list.as_array() {
            Some(entries) => entries,
            None => {
                return Err(ClientError::MalformedPayload);
            },
        },
        None => {
            return Err(ClientError::MalformedPayload);
        },
    };
    let ghost all = crate::json::items_view(entries@);
    let mut out: Vec<Vec<JsonNumber>> = Vec::new();
    let mut i: usize = 0;
    while i < entries.len()
        invariant
            i <= entries@.len(),
            all == crate::json::items_view(entries@),
            data@.get("data"@) == Some(JsonView::Array(all)),
            out@.len() == i,
            forall|k: int|
                0 <= k < i ==> embedding_of(all[k]) == Some(numbers_view((#[trigger] out@[k])@)),
        decreases entries@.len() - i,
    {
        match read_embedding(&entries[i]) {
            Some(v) => {
                out.push(v);
            },
            None => {
                assert(embedding_of(all[i as int]) is None);
                return Err(ClientError::MalformedPayload);
            },
        }
        i = i + 1;
    }
    proof {
        assert forall|k: int| 0 <= k < all.len() implies embedding_of(#[trigger] all[k]) is Some by {
            assert(embedding_of(all[k]) == Some(numbers_view(out@[k]@)));
        }
        assert(embeddings_of(data@)->Some_0 =~= vectors_view(out@));
    }
    Ok(out)
}

/// Reads the response to an embeddings request: the classified failure
/// where the status is no success, else the vectors the document holds.
pub fn opencog_embeddings(status: u16, data: &Json) -> (r: Result<Vec<Vec<JsonNumber>>, ClientError>)
    ensures
        match r {
            Ok(v) => is_success(status) && embeddings_of(data@) == Some(vectors_view(v@)),
            Err(e) => if is_success(status) {
                embeddings_of(data@) is None && e@ == ClientErrorView::MalformedPayload
            } else {
                e@ == classified(status, data@)
            },
        },
{
    if !status_is_success(status) {
        return Err(catch_error(data, status));
    }
    opencog_extract_embeddings(data)
}

/// A completion is never empty: where a document gives one, it has text or
/// at least one tool call.
pub proof fn lemma_completion_is_not_empty(doc: JsonView)
    ensures
        extracted(doc) matches Ok(out) ==> out.text.len() > 0 || out.tool_calls.len() > 0,
{
}

/// Every tool call read from raw entries has a name that is not empty, and
/// has an id.
pub proof fn lemma_tool_calls_are_named(entries: Seq<JsonView>, n: nat)
    ensures
        tool_calls_of(entries, n) matches Ok(calls) ==> forall|i: int|
            0 <= i < calls.len() ==> (#[trigger] calls[i]).well_formed() && calls[i].id is Some,
    decreases n,
{
    if n > 0 && n <= entries.len() {
        lemma_tool_calls_are_named(entries, (n - 1) as nat);
    }
}

/// Where a document gives a completion, the completion is well formed: not
/// empty, every tool call of it with a name that is not empty, and every
/// tool call of it with an id.
pub proof fn lemma_completion_is_well_formed(doc: JsonView)
    ensures
        extracted(doc) matches Ok(out) ==> out.well_formed() && forall|i: int|
            0 <= i < out.tool_calls.len() ==> (#[trigger] out.tool_calls[i]).id is Some,
{
    lemma_tool_calls_are_named(raw_calls_in(doc), raw_calls_in(doc).len());
}

/// The vectors of an embeddings response are as many as the entries of
/// `data`, and each is the vector of the entry at its place.
pub proof fn lemma_embeddings_keep_order(doc: JsonView)
    requires
        embeddings_of(doc) is Some,
    ensures
        doc.get("data"@) matches Some(JsonView::Array(entries)) && embeddings_of(doc)->Some_0.len()
            == entries.len() && forall|i: int|
            0 <= i < entries.len() ==> embedding_of(#[trigger] entries[i]) == Some(
                embeddings_of(doc)->Some_0[i],
            ),
{
}

} // verus!
