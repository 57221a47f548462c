//! A JSON document as plain data, with the lookups the adapter needs.
//!
//! Parsing and printing are left to `serde_json`; everything else in this
//! module is verified against the mathematical model [`JsonView`].

use serde_json::Value;
use vstd::prelude::*;

verus! {

/// A JSON number, in the three shapes `serde_json` distinguishes.
#[derive(Debug, Clone, PartialEq, Eq)]
pub enum JsonNumber {
    /// A non-negative integer.
    PosInt(u64),
    /// A negative integer.
    NegInt(i64),
    /// Any other number, held as the decimal text `serde_json` prints for it.
    Float(String),
}

/// A JSON document.
#[derive(Debug, PartialEq, Eq)]
pub enum Json {
    Null,
    Bool(bool),
    Number(JsonNumber),
    Str(String),
    Array(Vec<Json>),
    /// Members in document order; on a repeated key the last member counts.
    Object(Vec<(String, Json)>),
}

/// Model of [`JsonNumber`].
pub enum JsonNumberView {
    PosInt(u64),
    NegInt(i64),
    Float(Seq<char>),
}

/// Model of [`Json`].
pub enum JsonView {
    Null,
    Bool(bool),
    Number(JsonNumberView),
    Str(Seq<char>),
    Array(Seq<JsonView>),
    Object(Seq<(Seq<char>, JsonView)>),
}

/// The value of the last of the first `n` members that is named `key`.
pub open spec fn lookup(entries: Seq<(Seq<char>, JsonView)>, key: Seq<char>, n: nat) -> Option<
    JsonView,
>
    decreases n,
{
    if n == 0 || n > entries.len() {
        None
    } else if entries[n - 1].0 == key {
        Some(entries[n - 1].1)
    } else {
        lookup(entries, key, (n - 1) as nat)
    }
}

impl JsonView {
    /// The member named `key`, if this is an object that has one.
    pub open spec fn get(self, key: Seq<char>) -> Option<JsonView> {
        match self {
            JsonView::Object(entries) => lookup(entries, key, entries.len()),
            _ => None,
        }
    }

    /// The item at index `i`, if this is an array that long.
    pub open spec fn at(self, i: int) -> Option<JsonView> {
        match self {
            JsonView::Array(items) => if 0 <= i < items.len() {
                Some(items[i])
            } else {
                None
            },
            _ => None,
        }
    }

    /// The text, if this is a string.
    pub open spec fn as_str(self) -> Option<Seq<char>> {
        match self {
            JsonView::Str(s) => Some(s),
            _ => None,
        }
    }

    /// The items, if this is an array.
    pub open spec fn as_array(self) -> Option<Seq<JsonView>> {
        match self {
            JsonView::Array(items) => Some(items),
            _ => None,
        }
    }

    /// The value, if this is a non-negative integer.
    pub open spec fn as_u64(self) -> Option<u64> {
        match self {
            JsonView::Number(JsonNumberView::PosInt(n)) => Some(n),
            _ => None,
        }
    }

    pub open spec fn is_object(self) -> bool {
        self is Object
    }

    pub open spec fn is_number(self) -> bool {
        self is Number
    }
}

impl View for JsonNumber {
    type V = JsonNumberView;

    open spec fn view(&self) -> JsonNumberView {
        match self {
            JsonNumber::PosInt(n) => JsonNumberView::PosInt(*n),
            JsonNumber::NegInt(n) => JsonNumberView::NegInt(*n),
            JsonNumber::Float(t) => JsonNumberView::Float(t@),
        }
    }
}

impl View for Json {
    type V = JsonView;

    open spec fn view(&self) -> JsonView
        decreases self,
    {
        match self {
            Json::Null => JsonView::Null,
            Json::Bool(b) => JsonView::Bool(*b),
            Json::Number(n) => JsonView::Number(n@),
            Json::Str(s) => JsonView::Str(s@),
            Json::Array(items) => JsonView::Array(
                Seq::new(
                    items@.len(),
                    |i: int|
                        if 0 <= i < items@.len() {
                            items@[i].view()
                        } else {
                            JsonView::Null
                        },
                ),
            ),
            Json::Object(entries) => JsonView::Object(
                Seq::new(
                    entries@.len(),
                    |i: int|
                        if 0 <= i < entries@.len() {
                            (entries@[i].0@, entries@[i].1.view())
                        } else {
                            (Seq::empty(), JsonView::Null)
                        },
                ),
            ),
        }
    }
}

/// The model of an optional borrowed document.
pub open spec fn view_of(r: Option<&Json>) -> Option<JsonView> {
    match r {
        Some(j) => Some(j@),
        None => None,
    }
}

/// The model of an optional borrowed string.
pub open spec fn text_of(r: Option<&str>) -> Option<Seq<char>> {
    match r {
        Some(s) => Some(s@),
        None => None,
    }
}

/// Among the first members of a longer list, a lookup sees only them.
pub proof fn lemma_lookup_prefix(
    a: Seq<(Seq<char>, JsonView)>,
    b: Seq<(Seq<char>, JsonView)>,
    key: Seq<char>,
    k: nat,
)
    requires
        k <= a.len(),
    ensures
        lookup(a + b, key, k) == lookup(a, key, k),
    decreases k,
{
    if k > 0 {
        lemma_lookup_prefix(a, b, key, (k - 1) as nat);
        assert((a + b)[k - 1] == a[k - 1]);
    }
}

/// Members added behind others come first in a lookup: a key is found among
/// the added ones, or else among those that were there.
pub proof fn lemma_lookup_append(
    a: Seq<(Seq<char>, JsonView)>,
    b: Seq<(Seq<char>, JsonView)>,
    key: Seq<char>,
    n: nat,
)
    requires
        n <= b.len(),
    ensures
        lookup(a + b, key, a.len() + n) == (match lookup(b, key, n) {
            Some(v) => Some(v),
            None => lookup(a, key, a.len()),
        }),
    decreases n,
{
    if n == 0 {
        lemma_lookup_prefix(a, b, key, a.len());
    } else {
        lemma_lookup_append(a, b, key, (n - 1) as nat);
        assert((a + b)[a.len() + n - 1] == b[n - 1]);
    }
}

/// What the model of an array is, item by item.
pub proof fn lemma_array_view(j: &Json)
    requires
        j is Array,
    ensures
        j@ is Array,
        j@->Array_0.len() == j->Array_0@.len(),
        forall|i: int| 0 <= i < j->Array_0@.len() ==> (#[trigger] j@->Array_0[i]) == j->Array_0@[i]@,
{
    reveal_with_fuel(<Json as View>::view, 2);
}

/// What the model of an object is, member by member.
pub proof fn lemma_object_view(j: &Json)
    requires
        j is Object,
    ensures
        j@ is Object,
        j@->Object_0.len() == j->Object_0@.len(),
        forall|i: int|
            0 <= i < j->Object_0@.len() ==> (#[trigger] j@->Object_0[i]) == (
                j->Object_0@[i].0@,
                j->Object_0@[i].1@,
            ),
{
    reveal_with_fuel(<Json as View>::view, 2);
}

/// The models of a list of documents, in order.
pub open spec fn items_view(items: Seq<Json>) -> Seq<JsonView> {
    Seq::new(items.len(), |i: int| items[i]@)
}

/// The models of a list of members, in order.
pub open spec fn members_view(entries: Seq<(String, Json)>) -> Seq<(Seq<char>, JsonView)> {
    Seq::new(entries.len(), |i: int| (entries[i].0@, entries[i].1@))
}

/// The array of `items`.
pub fn array(items: Vec<Json>) -> (r: Json)
    ensures
        r@ == JsonView::Array(items_view(items@)),
{
    let r = Json::Array(items);
    proof {
        lemma_array_view(&r);
        assert(r@->Array_0 =~= items_view(items@));
    }
    r
}

/// The object of `entries`.
pub fn object(entries: Vec<(String, Json)>) -> (r: Json)
    ensures
        r@ == JsonView::Object(members_view(entries@)),
{
    let r = Json::Object(entries);
    proof {
        lemma_object_view(&r);
        assert(r@->Object_0 =~= members_view(entries@));
    }
    r
}

/// The string `text`.
pub fn string(text: &str) -> (r: Json)
    ensures
        r@ == JsonView::Str(text@),
{
    Json::Str(text.to_owned())
}

/// Adds the member `key: value` at the end of `entries`.
pub fn push_member(entries: &mut Vec<(String, Json)>, key: &str, value: Json)
    ensures
        members_view(final(entries)@) == members_view(old(entries)@).push((key@, value@)),
{
    entries.push((key.to_owned(), value));
    assert(members_view(entries@) =~= members_view(old(entries)@).push((key@, value@)));
}

/// [`JsonView::get`] on a document that may be absent.
pub open spec fn get_in(o: Option<JsonView>, key: Seq<char>) -> Option<JsonView> {
    match o {
        Some(j) => j.get(key),
        None => None,
    }
}

/// [`JsonView::at`] on a document that may be absent.
pub open spec fn at_in(o: Option<JsonView>, i: int) -> Option<JsonView> {
    match o {
        Some(j) => j.at(i),
        None => None,
    }
}

/// [`JsonView::as_str`] on a document that may be absent.
pub open spec fn str_in(o: Option<JsonView>) -> Option<Seq<char>> {
    match o {
        Some(j) => j.as_str(),
        None => None,
    }
}

/// [`JsonView::as_u64`] on a document that may be absent.
pub open spec fn u64_in(o: Option<JsonView>) -> Option<u64> {
    match o {
        Some(j) => j.as_u64(),
        None => None,
    }
}

/// [`Json::get`] on a document that may be absent.
pub fn get_opt<'a>(o: Option<&'a Json>, key: &str) -> (r: Option<&'a Json>)
    ensures
        view_of(r) == get_in(view_of(o), key@),
{
    match o {
        Some(j) => j.get(key),
        None => None,
    }
}

/// [`Json::at`] on a document that may be absent.
pub fn at_opt<'a>(o: Option<&'a Json>, i: usize) -> (r: Option<&'a Json>)
    ensures
        view_of(r) == at_in(view_of(o), i as int),
{
    match o {
        Some(j) => j.at(i),
        None => None,
    }
}

/// [`Json::as_str`] on a document that may be absent.
pub fn str_opt<'a>(o: Option<&'a Json>) -> (r: Option<&'a str>)
    ensures
        text_of(r) == str_in(view_of(o)),
{
    match o {
        Some(j) => j.as_str(),
        None => None,
    }
}

/// [`Json::as_u64`] on a document that may be absent.
pub fn u64_opt(o: Option<&Json>) -> (r: Option<u64>)
    ensures
        r == u64_in(view_of(o)),
{
    match o {
        Some(j) => j.as_u64(),
        None => None,
    }
}

/// `str`'s `==`: true exactly when both hold the same characters.
pub assume_specification[ <str as PartialEq>::eq ](a: &str, b: &str) -> (r: bool)
    ensures
        r == (a@ == b@),
;

impl Json {
    /// The member named `key`, if this is an object that has one.
    pub fn get<'a>(&'a self, key: &str) -> (r: Option<&'a Json>)
        ensures
            view_of(r) == self@.get(key@),
    {
        match self {
            Json::Object(entries) => {
                proof {
                    lemma_object_view(self);
                }
                let ghost m = self@->Object_0;
                let mut i: usize = entries.len();
                while i > 0
                    invariant
                        i <= entries@.len(),
                        self@ == JsonView::Object(m),
                        m.len() == entries@.len(),
                        lookup(m, key@, m.len()) == lookup(m, key@, i as nat),
                        forall|k: int|
                            0 <= k < m.len() ==> #[trigger] m[k] == (
                                entries@[k].0@,
                                entries@[k].1@,
                            ),
                    decreases i,
                {
                    i = i - 1;
                    if entries[i].0.as_str().eq(key) {
                        return Some(&entries[i].1);
                    }
                }
                None
            },
            _ => None,
        }
    }

    /// The item at index `i`, if this is an array that long.
    pub fn at<'a>(&'a self, i: usize) -> (r: Option<&'a Json>)
        ensures
            view_of(r) == self@.at(i as int),
    {
        match self {
            Json::Array(items) => {
                proof {
                    lemma_array_view(self);
                }
                if i < items.len() {
                    Some(&items[i])
                } else {
                    None
                }
            },
            _ => None,
        }
    }

    /// The text, if this is a string.
    pub fn as_str<'a>(&'a self) -> (r: Option<&'a str>)
        ensures
            text_of(r) == self@.as_str(),
    {
        match self {
            Json::Str(s) => Some(s.as_str()),
            _ => None,
        }
    }

    /// The items, if this is an array.
    pub fn as_array<'a>(&'a self) -> (r: Option<&'a Vec<Json>>)
        ensures
            match r {
                Some(items) => self@.as_array() == Some(items_view(items@)),
                None => self@.as_array() is None,
            },
    {
        match self {
            Json::Array(items) => {
                proof {
                    lemma_array_view(self);
                    assert(self@->Array_0 =~= items_view(items@));
                }
                Some(items)
            },
            _ => None,
        }
    }

    /// The number, if this is one.
    pub fn as_number<'a>(&'a self) -> (r: Option<&'a JsonNumber>)
        ensures
            match r {
                Some(n) => self@ == JsonView::Number(n@),
                None => !self@.is_number(),
            },
    {
        match self {
            Json::Number(n) => Some(n),
            _ => None,
        }
    }

    /// Whether this is an object.
    pub fn is_object(&self) -> (r: bool)
        ensures
            r == self@.is_object(),
    {
        match self {
            Json::Object(_) => {
                proof {
                    lemma_object_view(self);
                }
                true
            },
            _ => false,
        }
    }

    /// The value, if this is a non-negative integer.
    pub fn as_u64(&self) -> (r: Option<u64>)
        ensures
            r == self@.as_u64(),
    {
        match self {
            Json::Number(JsonNumber::PosInt(n)) => Some(*n),
            _ => None,
        }
    }
}

impl JsonNumber {
    /// A number equal to this one.
    pub fn copy(&self) -> (r: JsonNumber)
        ensures
            r@ == self@,
    {
        match self {
            JsonNumber::PosInt(n) => JsonNumber::PosInt(*n),
            JsonNumber::NegInt(n) => JsonNumber::NegInt(*n),
            JsonNumber::Float(t) => JsonNumber::Float(t.clone()),
        }
    }

    /// The number `n` as JSON holds it.
    pub fn from_i64(n: i64) -> (r: JsonNumber)
        ensures
            r@ == JsonNumberView::from_i64(n),
    {
        if n >= 0 {
            JsonNumber::PosInt(n as u64)
        } else {
            JsonNumber::NegInt(n)
        }
    }
}

impl JsonNumberView {
    /// An integer is held as `PosInt` from zero on, as `NegInt` below.
    pub open spec fn from_i64(n: i64) -> JsonNumberView {
        if n >= 0 {
            JsonNumberView::PosInt(n as u64)
        } else {
            JsonNumberView::NegInt(n)
        }
    }
}

impl Json {
    /// A document equal to this one.
    pub fn copy(&self) -> (r: Json)
        ensures
            r@ == self@,
        decreases self,
    {
        match self {
            Json::Null => Json::Null,
            Json::Bool(b) => Json::Bool(*b),
            Json::Number(n) => Json::Number(n.copy()),
            Json::Str(s) => Json::Str(s.clone()),
            Json::Array(items) => {
                let mut out: Vec<Json> = Vec::new();
                let mut i: usize = 0;
                while i < items.len()
                    invariant
                        i <= items@.len(),
                        out@.len() == i,
                        *self is Array && self->Array_0 == *items,
                        forall|k: int| 0 <= k < i ==> (#[trigger] out@[k])@ == items@[k]@,
                    decreases items@.len() - i,
                {
                    proof {
                        vstd::std_specs::vec::axiom_vec_index_decreases(*items, i as int);
                        assert(decreases_to!(*self => self->Array_0));
                    }
                    out.push(items[i].copy());
                    i = i + 1;
                }
                let r = Json::Array(out);
                proof {
                    lemma_array_view(self);
                    lemma_array_view(&r);
                    assert(r@->Array_0 =~= self@->Array_0);
                }
                r
            },
            Json::Object(entries) => {
                let mut out: Vec<(String, Json)> = Vec::new();
                let mut i: usize = 0;
                while i < entries.len()
                    invariant
                        i <= entries@.len(),
                        out@.len() == i,
                        *self is Object && self->Object_0 == *entries,
                        forall|k: int|
                            0 <= k < i ==> (#[trigger] out@[k]).0@ == entries@[k].0@ && out@[k].1@
                                == entries@[k].1@,
                    decreases entries@.len() - i,
                {
                    proof {
                        vstd::std_specs::vec::axiom_vec_index_decreases(*entries, i as int);
                        assert(decreases_to!(*self => self->Object_0));
                    }
                    out.push((entries[i].0.clone(), entries[i].1.copy()));
                    i = i + 1;
                }
                let r = Json::Object(out);
                proof {
                    lemma_object_view(self);
                    lemma_object_view(&r);
                    assert(r@->Object_0 =~= self@->Object_0);
                }
                r
            },
        }
    }

    /// Reads `text` as one JSON document; `None` where it is not one.
    pub fn parse(text: &str) -> (r: Option<Json>)
        ensures
            model_of(r) == json_of_text(text@),
    {
        parse_value(text)
    }

    /// This document as compact JSON text.
    pub fn to_text(&self) -> (r: String)
        ensures
            r@ == text_of_json(self@),
    {
        print_value(self)
    }
}

impl Clone for Json {
    fn clone(&self) -> (r: Json)
        ensures
            r@ == self@,
    {
        self.copy()
    }
}

/// The model of an optional document.
pub open spec fn model_of(r: Option<Json>) -> Option<JsonView> {
    match r {
        Some(j) => Some(j@),
        None => None,
    }
}

/// The document that `serde_json` reads from a text, `None` where it reads
/// none.
pub uninterp spec fn json_of_text(text: Seq<char>) -> Option<JsonView>;

/// The compact text that `serde_json` prints for a document.
pub uninterp spec fn text_of_json(doc: JsonView) -> Seq<char>;

/// `serde_json::Value`, carried as a whole: nothing is known of what is in
/// one.
#[verifier::external_type_specification]
#[verifier::external_body]
pub struct ExValue(serde_json::Value);

/// Rebuilds a `serde_json::Value` as a [`Json`], variant by variant. The
/// three shapes of a number are told apart by `Number::as_u64` and
/// `Number::as_i64`, and the third keeps the text of `to_string`; the
/// members of an object come in the order `serde_json::Map::iter` gives.
/// Nothing is claimed of the result.
#[verifier::external_body]
fn json_of_value(v: &Value) -> Json {
    match v {
        Value::Null => Json::Null,
        Value::Bool(b) => Json::Bool(*b),
        Value::Number(n) => Json::Number(match (n.as_u64(), n.as_i64()) {
            (Some(u), _) => JsonNumber::PosInt(u),
            (_, Some(i)) => JsonNumber::NegInt(i),
            _ => JsonNumber::Float(n.to_string()),
        }),
        Value::String(s) => Json::Str(s.clone()),
        Value::Array(a) => Json::Array(a.iter().map(json_of_value).collect()),
        Value::Object(m) => Json::Object(
            m.iter().map(|(k, v)| (k.clone(), json_of_value(v))).collect(),
        ),
    }
}

/// Rebuilds a [`Json`] as a `Value`, variant by variant. The
/// text of a `Float` is read back with `serde_json::from_str`, and gives
/// `null` where it is no number; an object is collected into a
/// `serde_json::Map`, where the last of two members with one key stays.
/// Nothing is claimed of the result.
#[verifier::external_body]
fn value_of_json(j: &Json) -> Value {
    match j {
        Json::Null => Value::Null,
        Json::Bool(b) => Value::Bool(*b),
        Json::Number(JsonNumber::PosInt(u)) => Value::from(*u),
        Json::Number(JsonNumber::NegInt(i)) => Value::from(*i),
        Json::Number(JsonNumber::Float(t)) => serde_json::from_str(t).map_or(
            Value::Null,
            Value::Number,
        ),
        Json::Str(s) => Value::String(s.clone()),
        Json::Array(a) => Value::Array(a.iter().map(value_of_json).collect()),
        Json::Object(m) => Value::Object(
            m.iter().map(|(k, v)| (k.clone(), value_of_json(v))).collect(),
        ),
    }
}

/// `serde_json::from_str` at `serde_json::Value`: the result is the document
/// read from `text`, a function of the text alone, and `None` where
/// `serde_json` returns an error.
#[verifier::external_body]
fn parse_value(text: &str) -> (r: Option<Json>)
    ensures
        model_of(r) == json_of_text(text@),
{
    match serde_json::from_str::<serde_json::Value>(text) {
        Ok(v) => Some(json_of_value(&v)),
        Err(_) => None,
    }
}

/// `to_string` of a `serde_json::Value`: the result is the compact text of
/// the document, a function of the document alone.
#[verifier::external_body]
fn print_value(doc: &Json) -> (r: String)
    ensures
        r@ == text_of_json(doc@),
{
    value_of_json(doc).to_string()
}

/// `String::push_str`: the text grows by `tail` at its end.
pub assume_specification[ String::push_str ](s: &mut String, tail: &str)
    ensures
        final(s)@ == old(s)@ + tail@,
;

} // verus!
