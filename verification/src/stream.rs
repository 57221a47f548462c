//! The streaming response decoder: a sequential state machine over the
//! payloads of a server-sent event stream.
//!
//! Text fragments go to the [`SseHandler`] as they arrive; the fragments of a
//! tool call gather in a [`StreamAccumulator`] until the terminal sentinel
//! closes the stream.

use crate::json::{
    at_in, at_opt, get_in, get_opt, json_of_text, str_in, str_opt, Json, JsonView,
};
use crate::model::{calls_view, texts_view, ClientError, ClientErrorView, ToolCall, ToolCallView};
use vstd::prelude::*;

verus! {

/// The payload that ends a stream.
pub open spec fn sentinel() -> Seq<char> {
    "[DONE]"@
}

/// The fragments of the one tool call a stream may carry; an empty name or id
/// means that none has been seen.
#[derive(Debug, Clone, PartialEq, Eq)]
pub struct StreamAccumulator {
    pub function_name: String,
    pub function_arguments: String,
    pub function_id: String,
}

/// Model of [`StreamAccumulator`].
pub struct AccumulatorView {
    pub name: Seq<char>,
    pub arguments: Seq<char>,
    pub id: Seq<char>,
}

impl View for StreamAccumulator {
    type V = AccumulatorView;

    open spec fn view(&self) -> AccumulatorView {
        AccumulatorView {
            name: self.function_name@,
            arguments: self.function_arguments@,
            id: self.function_id@,
        }
    }
}

/// What a stream has delivered so far.
#[derive(Debug, Clone, PartialEq, Eq)]
pub struct SseHandler {
    /// The text fragments, in arrival order.
    pub texts: Vec<String>,
    /// The tool calls, in arrival order.
    pub tool_calls: Vec<ToolCall>,
    /// Whether the terminal sentinel has been seen.
    pub done: bool,
}

/// Model of [`SseHandler`].
pub struct SseHandlerView {
    pub texts: Seq<Seq<char>>,
    pub tool_calls: Seq<ToolCallView>,
    pub done: bool,
}

impl View for SseHandler {
    type V = SseHandlerView;

    open spec fn view(&self) -> SseHandlerView {
        SseHandlerView {
            texts: texts_view(self.texts@),
            tool_calls: calls_view(self.tool_calls@),
            done: self.done,
        }
    }
}

/// `choices[0].delta` of an event.
pub open spec fn delta_of(doc: JsonView) -> Option<JsonView> {
    get_in(at_in(get_in(Some(doc), "choices"@), 0), "delta"@)
}

/// The text fragment of an event: `choices[0].delta.content` where it is a
/// string that is not empty.
pub open spec fn delta_text(doc: JsonView) -> Option<Seq<char>> {
    match str_in(get_in(delta_of(doc), "content"@)) {
        Some(t) => if t.len() > 0 {
            Some(t)
        } else {
            None
        },
        None => None,
    }
}

/// `choices[0].delta.tool_calls[0]` of an event.
pub open spec fn delta_call(doc: JsonView) -> Option<JsonView> {
    at_in(get_in(delta_of(doc), "tool_calls"@), 0)
}

/// `choices[0].delta.tool_calls[0].function` of an event, where it is an
/// object.
pub open spec fn delta_function(doc: JsonView) -> Option<JsonView> {
    match get_in(delta_call(doc), "function"@) {
        Some(f) => if f.is_object() {
            Some(f)
        } else {
            None
        },
        None => None,
    }
}

/// `new` where it is there, else `old_text`.
pub open spec fn overwritten(old_text: Seq<char>, new: Option<Seq<char>>) -> Seq<char> {
    match new {
        Some(t) => t,
        None => old_text,
    }
}

/// `old_text` with `new` behind it where it is there.
pub open spec fn appended(old_text: Seq<char>, new: Option<Seq<char>>) -> Seq<char> {
    match new {
        Some(t) => old_text + t,
        None => old_text,
    }
}

impl AccumulatorView {
    /// The accumulator a stream starts with.
    pub open spec fn fresh() -> AccumulatorView {
        AccumulatorView { name: Seq::empty(), arguments: Seq::empty(), id: Seq::empty() }
    }

    /// The accumulator after a delta event: where the event has a function
    /// object, its name and the call's id overwrite, its arguments append.
    pub open spec fn absorb(self, doc: JsonView) -> AccumulatorView {
        match delta_function(doc) {
            Some(f) => AccumulatorView {
                name: overwritten(self.name, str_in(f.get("name"@))),
                arguments: appended(self.arguments, str_in(f.get("arguments"@))),
                id: overwritten(self.id, str_in(get_in(delta_call(doc), "id"@))),
            },
            None => self,
        }
    }

    /// The arguments of the pending call as a document, given what the
    /// gathered text reads as: an empty text stands for the empty object.
    pub open spec fn arguments_given(self, parsed: Option<JsonView>) -> Option<JsonView> {
        if self.arguments.len() == 0 {
            Some(JsonView::Object(Seq::empty()))
        } else {
            parsed
        }
    }

    /// What the sentinel makes of the accumulator, given what the gathered
    /// arguments read as: no call without a name, else the one call, or the
    /// failure that names the function and the text.
    pub open spec fn flush(self, parsed: Option<JsonView>) -> Result<
        Option<ToolCallView>,
        ClientErrorView,
    > {
        if self.name.len() == 0 {
            Ok(None)
        } else {
            match self.arguments_given(parsed) {
                Some(a) => Ok(
                    Some(
                        ToolCallView {
                            name: self.name,
                            arguments: a,
                            id: if self.id.len() == 0 {
                                None
                            } else {
                                Some(self.id)
                            },
                        },
                    ),
                ),
                None => Err(
                    ClientErrorView::ArgumentParse { name: self.name, arguments: self.arguments },
                ),
            }
        }
    }
}

impl SseHandlerView {
    /// The handler a stream starts with.
    pub open spec fn fresh() -> SseHandlerView {
        SseHandlerView { texts: Seq::empty(), tool_calls: Seq::empty(), done: false }
    }

    /// The handler after a fragment that may be absent.
    pub open spec fn with_text(self, t: Option<Seq<char>>) -> SseHandlerView {
        match t {
            Some(t) => SseHandlerView { texts: self.texts.push(t), ..self },
            None => self,
        }
    }

    /// The handler after the sentinel, with the call it brought, if any.
    pub open spec fn closed(self, call: Option<ToolCallView>) -> SseHandlerView {
        match call {
            Some(c) => SseHandlerView {
                tool_calls: self.tool_calls.push(c),
                done: true,
                ..self
            },
            None => SseHandlerView { done: true, ..self },
        }
    }
}

/// A decoder in the middle of a stream: the accumulator, what was delivered,
/// and the failure that stopped it, if one did.
pub struct Run {
    pub acc: AccumulatorView,
    pub sink: SseHandlerView,
    pub failure: Option<ClientErrorView>,
}

impl Run {
    /// The decoder before the first event.
    pub open spec fn start() -> Run {
        Run { acc: AccumulatorView::fresh(), sink: SseHandlerView::fresh(), failure: None }
    }

    /// The decoder after one more event. A closed or failed decoder reads
    /// nothing more; the sentinel flushes the accumulator and closes; any
    /// other payload is a delta event, and fails the stream where it is not
    /// JSON.
    pub open spec fn feed(self, event: Seq<char>) -> Run {
        if self.sink.done || self.failure is Some {
            self
        } else if event == sentinel() {
            match self.acc.flush(json_of_text(self.acc.arguments)) {
                Ok(call) => Run { sink: self.sink.closed(call), ..self },
                Err(e) => Run { failure: Some(e), ..self },
            }
        } else {
            match json_of_text(event) {
                Some(doc) => Run {
                    acc: self.acc.absorb(doc),
                    sink: self.sink.with_text(delta_text(doc)),
                    ..self
                },
                None => Run { failure: Some(ClientErrorView::EventParse { payload: event }), ..self },
            }
        }
    }

    /// The decoder after the first `n` of `events`, fed in order.
    pub open spec fn feed_all(self, events: Seq<Seq<char>>, n: nat) -> Run
        decreases n,
    {
        if n == 0 || n > events.len() {
            self
        } else {
            self.feed_all(events, (n - 1) as nat).feed(events[n - 1])
        }
    }
}

impl SseHandler {
    /// A handler that has received nothing.
    pub fn new() -> (r: SseHandler)
        ensures
            r@ == SseHandlerView::fresh(),
    {
        let r = SseHandler { texts: Vec::new(), tool_calls: Vec::new(), done: false };
        assert(r@.texts =~= Seq::empty());
        assert(r@.tool_calls =~= Seq::empty());
        r
    }

    /// Delivers one text fragment.
    pub fn text(&mut self, fragment: &str)
        ensures
            final(self)@ == old(self)@.with_text(Some(fragment@)),
    {
        self.texts.push(fragment.to_owned());
        assert(self@.texts =~= old(self)@.texts.push(fragment@));
    }

    /// Delivers one tool call, which has a name.
    pub fn tool_call(&mut self, call: ToolCall)
        requires
            call@.well_formed(),
        ensures
            final(self)@ == (SseHandlerView {
                tool_calls: old(self)@.tool_calls.push(call@),
                ..old(self)@
            }),
    {
        self.tool_calls.push(call);
        assert(self@.tool_calls =~= old(self)@.tool_calls.push(call@));
    }
}

impl StreamAccumulator {
    /// The accumulator a stream starts with.
    pub fn new() -> (r: StreamAccumulator)
        ensures
            r@ == AccumulatorView::fresh(),
    {
        StreamAccumulator {
            function_name: String::new(),
            function_arguments: String::new(),
            function_id: String::new(),
        }
    }

    /// Takes in one delta event that has been read as JSON: hands its text
    /// fragment to `handler` and gathers its tool-call fragments.
    pub fn absorb(&mut self, doc: &Json, handler: &mut SseHandler)
        ensures
            final(self)@ == old(self)@.absorb(doc@),
            final(handler)@ == old(handler)@.with_text(delta_text(doc@)),
    {
        let delta = get_opt(at_opt(get_opt(Some(doc), "choices"), 0), "delta");
        match str_opt(get_opt(delta, "content")) {
            Some(t) => {
                if !t.is_empty() {
                    handler.text(t);
                }
            },
            None => {},
        }
        let call = at_opt(get_opt(delta, "tool_calls"), 0);
        match get_opt(call, "function") {
            Some(function) => {
                if function.is_object() {
                    match str_opt(function.get("name")) {
                        Some(name) => {
                            self.function_name = name.to_owned();
                        },
                        None => {},
                    }
                    match str_opt(function.get("arguments")) {
                        Some(arguments) => {
                            self.function_arguments.push_str(arguments);
                        },
                        None => {},
                    }
                    match str_opt(get_opt(call, "id")) {
                        Some(id) => {
                            self.function_id = id.to_owned();
                        },
                        None => {},
                    }
                }
            },
            None => {},
        }
    }

    /// What the sentinel makes of the accumulator, given what its gathered
    /// arguments read as.
    pub fn flush(&self, parsed: Option<Json>) -> (r: Result<Option<ToolCall>, ClientError>)
        ensures
            flush_view(r) == self@.flush(crate::json::model_of(parsed)),
            r matches Ok(Some(call)) ==> call@.well_formed(),
    {
        if self.function_name.as_str().is_empty() {
            return Ok(None);
        }
        let arguments = if self.function_arguments.as_str().is_empty() {
            let empty = Json::Object(Vec::new());
            proof {
                crate::json::lemma_object_view(&empty);
                assert(empty@->Object_0 =~= Seq::empty());
            }
            Some(empty)
        } else {
            parsed
        };
        match arguments {
            Some(a) => {
                let id = if self.function_id.as_str().is_empty() {
                    None
                } else {
                    Some(self.function_id.clone())
                };
                Ok(Some(ToolCall::new(self.function_name.clone(), a, id)))
            },
            None => Err(
                ClientError::ArgumentParse {
                    name: self.function_name.clone(),
                    arguments: self.function_arguments.clone(),
                },
            ),
        }
    }

    /// Reads the gathered arguments as JSON where a call is pending and
    /// there is text to read.
    fn read_arguments(&self) -> (r: Option<Json>)
        ensures
            self@.name.len() > 0 && self@.arguments.len() > 0 ==> crate::json::model_of(r)
                == json_of_text(self@.arguments),
    {
        if self.function_name.as_str().is_empty() || self.function_arguments.as_str().is_empty() {
            None
        } else {
            Json::parse(self.function_arguments.as_str())
        }
    }

    /// Handles one event of the stream. Returns whether the stream has
    /// ended; after the end no event is read.
    pub fn handle(&mut self, event: &str, handler: &mut SseHandler) -> (r: Result<
        bool,
        ClientError,
    >)
        ensures
            ({
                let next = (Run { acc: old(self)@, sink: old(handler)@, failure: None }).feed(
                    event@,
                );
                &&& final(self)@ == next.acc
                &&& final(handler)@ == next.sink
                &&& match r {
                    Ok(done) => next.failure is None && done == next.sink.done,
                    Err(e) => next.failure == Some(e@),
                }
            }),
    {
        if handler.done {
            return Ok(true);
        }
        if event.eq("[DONE]") {
            let parsed = self.read_arguments();
            match self.flush(parsed) {
                Ok(Some(call)) => {
                    handler.tool_call(call);
                    handler.done = true;
                    Ok(true)
                },
                Ok(None) => {
                    handler.done = true;
                    Ok(true)
                },
                Err(e) => Err(e),
            }
        } else {
            match Json::parse(event) {
                Some(doc) => {
                    self.absorb(&doc, handler);
                    Ok(false)
                },
                None => Err(ClientError::EventParse { payload: event.to_owned() }),
            }
        }
    }
}

/// The model of what a flush returns.
pub open spec fn flush_view(r: Result<Option<ToolCall>, ClientError>) -> Result<
    Option<ToolCallView>,
    ClientErrorView,
> {
    match r {
        Ok(Some(c)) => Ok(Some(c@)),
        Ok(None) => Ok(None),
        Err(e) => Err(e@),
    }
}

/// Decodes the events of one streaming call, in order, into `handler`, with
/// an accumulator of its own. Stops at the sentinel or at the first event
/// that fails; what was delivered before a failure stays delivered. Where the
/// events end before the sentinel, the stream is left open.
pub fn opencog_chat_completions_streaming(events: &Vec<String>, handler: &mut SseHandler) -> (r:
    Result<(), ClientError>)
    ensures
        ({
            let end = (Run {
                acc: AccumulatorView::fresh(),
                sink: old(handler)@,
                failure: None,
            }).feed_all(texts_view(events@), events@.len());
            &&& final(handler)@ == end.sink
            &&& match r {
                Ok(_) => end.failure is None,
                Err(e) => end.failure == Some(e@),
            }
        }),
{
    let mut acc = StreamAccumulator::new();
    let ghost start = Run { acc: AccumulatorView::fresh(), sink: old(handler)@, failure: None };
    let ghost evs = texts_view(events@);
    let mut i: usize = 0;
    while i < events.len()
        invariant
            i <= events@.len(),
            evs == texts_view(events@),
            start == (Run { acc: AccumulatorView::fresh(), sink: old(handler)@, failure: None }),
            start.feed_all(evs, i as nat) == (Run { acc: acc@, sink: handler@, failure: None }),
        decreases events@.len() - i,
    {
        let ghost before = start.feed_all(evs, i as nat);
        assert(evs[i as int] == events@[i as int]@);
        let step = acc.handle(events[i].as_str(), handler);
        proof {
            assert(start.feed_all(evs, (i + 1) as nat) == before.feed(evs[i as int]));
        }
        match step {
            Ok(done) => {
                if done {
                    proof {
                        lemma_stopped_stays(start, evs, (i + 1) as nat, events@.len() as nat);
                    }
                    return Ok(());
                }
            },
            Err(e) => {
                proof {
                    lemma_stopped_stays(start, evs, (i + 1) as nat, events@.len() as nat);
                }
                return Err(e);
            },
        }
        i = i + 1;
    }
    Ok(())
}

/// The terminal sentinel ends the stream, and so does a failure: a decoder
/// that is closed or has failed after `n` events is the same after any more.
pub proof fn lemma_stopped_stays(run: Run, events: Seq<Seq<char>>, n: nat, m: nat)
    requires
        n <= m <= events.len(),
        run.feed_all(events, n).failure is Some || run.feed_all(events, n).sink.done,
    ensures
        run.feed_all(events, m) == run.feed_all(events, n),
    decreases m,
{
    if n < m {
        lemma_stopped_stays(run, events, n, (m - 1) as nat);
    }
}

/// A stream delivers at most one tool call, and none before the sentinel:
/// after any number of events, a handler that started with no call holds at
/// most one, holds one only where the stream is closed, and the one it holds
/// has a name.
pub proof fn lemma_at_most_one_call(run: Run, events: Seq<Seq<char>>, n: nat)
    requires
        n <= events.len(),
        run.sink.tool_calls.len() == 0,
    ensures
        run.feed_all(events, n).sink.tool_calls.len() <= 1,
        run.feed_all(events, n).sink.tool_calls.len() == 1 ==> run.feed_all(events, n).sink.done
            && run.feed_all(events, n).sink.tool_calls[0].name.len() > 0,
    decreases n,
{
    if n > 0 {
        lemma_at_most_one_call(run, events, (n - 1) as nat);
    }
}

/// Text is never taken back nor reordered: what has been delivered after
/// `n` events is the beginning of what has been delivered after any more.
pub proof fn lemma_texts_only_grow(run: Run, events: Seq<Seq<char>>, n: nat, m: nat)
    requires
        n <= m <= events.len(),
    ensures
        run.feed_all(events, n).sink.texts.is_prefix_of(run.feed_all(events, m).sink.texts),
    decreases m,
{
    if n < m {
        lemma_texts_only_grow(run, events, n, (m - 1) as nat);
        let mid = run.feed_all(events, (m - 1) as nat);
        assert(mid.sink.texts.is_prefix_of(mid.feed(events[m - 1]).sink.texts));
    }
}

/// Text is never buffered: an open decoder that reads an event with a text
/// fragment delivers that fragment, and nothing else, at once.
pub proof fn lemma_fragment_is_delivered(run: Run, event: Seq<char>, doc: JsonView, t: Seq<char>)
    requires
        !run.sink.done,
        run.failure is None,
        event != sentinel(),
        json_of_text(event) == Some(doc),
        delta_text(doc) == Some(t),
    ensures
        run.feed(event).sink.texts == run.sink.texts.push(t),
        run.feed(event).sink.tool_calls == run.sink.tool_calls,
        run.feed(event).failure is None,
{
}

/// A pending call whose arguments never came is flushed with the empty
/// object for its arguments, whatever the empty text would read as.
pub proof fn lemma_no_arguments_is_empty_object(run: Run)
    requires
        !run.sink.done,
        run.failure is None,
        run.acc.name.len() > 0,
        run.acc.arguments.len() == 0,
    ensures
        run.feed(sentinel()).failure is None,
        run.feed(sentinel()).sink.done,
        run.feed(sentinel()).sink.tool_calls == run.sink.tool_calls.push(
            ToolCallView {
                name: run.acc.name,
                arguments: JsonView::Object(Seq::empty()),
                id: if run.acc.id.len() == 0 {
                    None
                } else {
                    Some(run.acc.id)
                },
            },
        ),
{
}

/// The sentinel always ends an open stream that has no pending call, and
/// brings no call with it.
pub proof fn lemma_sentinel_without_name(run: Run)
    requires
        !run.sink.done,
        run.failure is None,
        run.acc.name.len() == 0,
    ensures
        run.feed(sentinel()) == (Run {
            sink: SseHandlerView { done: true, ..run.sink },
            ..run
        }),
{
}

/// The argument fragment of an event: the `arguments` string of its
/// function object, or the empty text where it has none.
pub open spec fn fragment_of(doc: JsonView) -> Seq<char> {
    match delta_function(doc) {
        Some(f) => match str_in(f.get("arguments"@)) {
            Some(t) => t,
            None => Seq::empty(),
        },
        None => Seq::empty(),
    }
}

/// Argument fragments are gathered by concatenation, in arrival order: after
/// two events the accumulator holds what it held, then the fragment of the
/// first, then that of the second.
pub proof fn lemma_fragments_concatenate(acc: AccumulatorView, first: JsonView, second: JsonView)
    ensures
        acc.absorb(first).arguments == acc.arguments + fragment_of(first),
        acc.absorb(first).absorb(second).arguments == acc.arguments + fragment_of(first)
            + fragment_of(second),
{
    assert(acc.arguments + Seq::<char>::empty() =~= acc.arguments);
    let mid = acc.absorb(first);
    assert(mid.arguments + Seq::<char>::empty() =~= mid.arguments);
}

/// The name of the pending call is the last one seen: an event whose
/// function object has a name replaces whatever name was held.
pub proof fn lemma_last_name_wins(acc: AccumulatorView, doc: JsonView, name: Seq<char>)
    requires
        delta_function(doc) matches Some(f) && str_in(f.get("name"@)) == Some(name),
    ensures
        acc.absorb(doc).name == name,
{
}

/// At the sentinel, a pending call with gathered arguments is delivered with
/// what the whole gathered text reads as, and the stream is closed.
pub proof fn lemma_call_reads_gathered_text(run: Run, arguments: JsonView)
    requires
        !run.sink.done,
        run.failure is None,
        run.acc.name.len() > 0,
        run.acc.arguments.len() > 0,
        json_of_text(run.acc.arguments) == Some(arguments),
    ensures
        run.feed(sentinel()).failure is None,
        run.feed(sentinel()).sink.done,
        run.feed(sentinel()).sink.texts == run.sink.texts,
        run.feed(sentinel()).sink.tool_calls == run.sink.tool_calls.push(
            ToolCallView {
                name: run.acc.name,
                arguments,
                id: if run.acc.id.len() == 0 {
                    None
                } else {
                    Some(run.acc.id)
                },
            },
        ),
{
}

} // verus!
