//! The client's configuration and the requests it prepares.

use crate::json::{Json, JsonView};
use crate::model::{ChatCompletionsData, ClientError, EmbeddingsData, Model};
use crate::request::{
    chat_body, embeddings_body, opencog_build_chat_completions_body,
    opencog_build_embeddings_body,
};
use vstd::prelude::*;

verus! {

/// The endpoint of a server on this machine, used where none is configured.
pub const API_BASE: &'static str = "http://localhost:5000/v1";

/// What a user configures of the client.
#[derive(Debug, Clone, PartialEq, Eq)]
pub struct OpenCogConfig {
    pub name: Option<String>,
    pub api_key: Option<String>,
    pub api_base: Option<String>,
    pub models: Vec<Model>,
}

impl Default for OpenCogConfig {
    fn default() -> (r: OpenCogConfig)
        ensures
            r.name is None,
            r.api_key is None,
            r.api_base is None,
            r.models@.len() == 0,
    {
        OpenCogConfig { name: None, api_key: None, api_base: None, models: Vec::new() }
    }
}

/// A configured client with the model it talks to.
#[derive(Debug, Clone, PartialEq, Eq)]
pub struct OpenCogClient {
    pub config: OpenCogConfig,
    pub model: Model,
}

/// A request ready for the transport.
#[derive(Debug, Clone, PartialEq, Eq)]
pub struct RequestData {
    pub url: String,
    /// Header names and values, in the order they were set.
    pub headers: Vec<(String, String)>,
    pub body: Json,
}

/// Model of [`RequestData`].
pub struct RequestDataView {
    pub url: Seq<char>,
    pub headers: Seq<(Seq<char>, Seq<char>)>,
    pub body: JsonView,
}

impl View for RequestData {
    type V = RequestDataView;

    open spec fn view(&self) -> RequestDataView {
        RequestDataView {
            url: self.url@,
            headers: Seq::new(self.headers@.len(), |i: int| (self.headers@[i].0@, self.headers@[i].1@)),
            body: self.body@,
        }
    }
}

/// `text` without the slashes at its end.
pub open spec fn without_trailing_slashes(text: Seq<char>) -> Seq<char>
    decreases text.len(),
{
    if text.len() > 0 && text.last() == '/' {
        without_trailing_slashes(text.drop_last())
    } else {
        text
    }
}

/// The address of the endpoint `path` under the configured base, or under
/// the default base where none is configured.
pub open spec fn endpoint(api_base: Option<String>, path: Seq<char>) -> Seq<char> {
    let base = match api_base {
        Some(b) => b@,
        None => API_BASE@,
    };
    without_trailing_slashes(base) + path
}

/// The headers of a request: a bearer authorization where a key is
/// configured, else none.
pub open spec fn auth_headers(api_key: Option<String>) -> Seq<(Seq<char>, Seq<char>)> {
    match api_key {
        Some(k) => seq![("authorization"@, "Bearer "@ + k@)],
        None => Seq::empty(),
    }
}

/// The request for `body` at the endpoint `path`.
pub open spec fn request_for(config: OpenCogConfig, path: Seq<char>, body: JsonView) -> RequestDataView {
    RequestDataView {
        url: endpoint(config.api_base, path),
        headers: auth_headers(config.api_key),
        body,
    }
}

/// `str::trim_end_matches` with the pattern `'/'`: the text without the
/// slashes at its end.
#[verifier::external_body]
fn trim_trailing_slashes(text: &str) -> (r: &str)
    ensures
        r@ == without_trailing_slashes(text@),
{
    text.trim_end_matches('/')
}

impl RequestData {
    /// A request to `url` with `body` and no headers.
    pub fn new(url: String, body: Json) -> (r: RequestData)
        ensures
            r@ == (RequestDataView { url: url@, headers: Seq::empty(), body: body@ }),
    {
        let r = RequestData { url, headers: Vec::new(), body };
        assert(r@.headers =~= Seq::empty());
        r
    }

    /// Sets the bearer authorization header.
    pub fn bearer_auth(&mut self, api_key: &str)
        ensures
            final(self)@ == (RequestDataView {
                headers: old(self)@.headers.push(("authorization"@, "Bearer "@ + api_key@)),
                ..old(self)@
            }),
    {
        let mut value = "Bearer ".to_owned();
        value.push_str(api_key);
        self.headers.push(("authorization".to_owned(), value));
        assert(self@.headers =~= old(self)@.headers.push(("authorization"@, "Bearer "@ + api_key@)));
    }
}

/// The request for `body` at `path`, as `config` directs.
fn prepare(config: &OpenCogConfig, path: &str, body: Json) -> (r: RequestData)
    ensures
        r@ == request_for(*config, path@, body@),
{
    let mut url = match &config.api_base {
        Some(base) => trim_trailing_slashes(base.as_str()).to_owned(),
        None => trim_trailing_slashes(API_BASE).to_owned(),
    };
    url.push_str(path);
    let mut request_data = RequestData::new(url, body);
    match &config.api_key {
        Some(api_key) => {
            request_data.bearer_auth(api_key.as_str());
            assert(request_data@.headers =~= auth_headers(config.api_key));
        },
        None => {},
    }
    request_data
}

/// Prepares a chat request: the chat body, addressed to `/chat/completions`
/// under the base, with the bearer token where a key is configured.
pub fn prepare_chat_completions(self_: &OpenCogClient, data: ChatCompletionsData) -> (r: Result<
    RequestData,
    ClientError,
>)
    ensures
        r matches Ok(req) && req@ == request_for(
            self_.config,
            "/chat/completions"@,
            chat_body(data, self_.model),
        ),
{
    let body = opencog_build_chat_completions_body(data, &self_.model);
    Ok(prepare(&self_.config, "/chat/completions", body))
}

/// Prepares an embeddings request: the embeddings body, addressed to
/// `/embeddings` under the base, with the bearer token where a key is
/// configured.
pub fn prepare_embeddings(self_: &OpenCogClient, data: &EmbeddingsData) -> (r: Result<
    RequestData,
    ClientError,
>)
    ensures
        r matches Ok(req) && req@ == request_for(
            self_.config,
            "/embeddings"@,
            embeddings_body(*data, self_.model),
        ),
{
    let body = opencog_build_embeddings_body(data, &self_.model);
    Ok(prepare(&self_.config, "/embeddings", body))
}

} // verus!
