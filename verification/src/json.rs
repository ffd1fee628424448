//! JSON values as plain data.
use vstd::prelude::*;

use crate::seqs::{prefix_next, whole_prefix};
use crate::text::str_eq;

verus! {

/// `serde_json::Value`, carried through.
#[verifier::external_type_specification]
#[verifier::external_body]
pub struct ExValue(serde_json::Value);

/// `serde_json::Number`, carried through.
#[verifier::external_type_specification]
#[verifier::external_body]
pub struct ExNumber(serde_json::Number);

/// A number of a JSON document. Whole numbers are held as such; any other number
/// is held by its decimal notation.
#[derive(Clone, Debug)]
pub enum JsonNumber {
    Unsigned(u64),
    Negative(i64),
    Decimal(String),
}

/// A JSON document. An object is the list of its fields; of two with one name the
/// later counts. One that was read holds each name once, in the order of the names.
#[derive(Debug)]
pub enum Json {
    Null,
    Bool(bool),
    Number(JsonNumber),
    String(String),
    Array(Vec<Json>),
    Object(Vec<(String, Json)>),
}

/// What a `JsonNumber` stands for.
pub enum NumberView {
    Unsigned(u64),
    Negative(i64),
    Decimal(Seq<char>),
}

/// What a `Json` stands for.
pub enum JsonView {
    Null,
    Bool(bool),
    Number(NumberView),
    String(Seq<char>),
    Array(Seq<JsonView>),
    Object(Seq<(Seq<char>, JsonView)>),
}

impl View for JsonNumber {
    type V = NumberView;

    open spec fn view(&self) -> NumberView {
        match self {
            JsonNumber::Unsigned(n) => NumberView::Unsigned(*n),
            JsonNumber::Negative(n) => NumberView::Negative(*n),
            JsonNumber::Decimal(s) => NumberView::Decimal(s@),
        }
    }
}

/// What a `Json` stands for.
pub open spec fn json_view(json: Json) -> JsonView
    decreases json,
{
    match json {
        Json::Null => JsonView::Null,
        Json::Bool(b) => JsonView::Bool(b),
        Json::Number(n) => JsonView::Number(n@),
        Json::String(s) => JsonView::String(s@),
        Json::Array(items) => JsonView::Array(
            Seq::new(
                items@.len(),
                |i: int|
                    if 0 <= i < items@.len() {
                        json_view(items@[i])
                    } else {
                        JsonView::Null
                    },
            ),
        ),
        Json::Object(fields) => JsonView::Object(
            Seq::new(
                fields@.len(),
                |i: int|
                    if 0 <= i < fields@.len() {
                        (fields@[i].0@, json_view(fields@[i].1))
                    } else {
                        (Seq::empty(), JsonView::Null)
                    },
            ),
        ),
    }
}

impl View for Json {
    type V = JsonView;

    open spec fn view(&self) -> JsonView {
        json_view(*self)
    }
}

/// What a list of documents stands for.
pub open spec fn json_views(items: Seq<Json>) -> Seq<JsonView> {
    Seq::new(items.len(), |i: int| items[i]@)
}

/// What a list of fields stands for.
pub open spec fn field_views(fields: Seq<(String, Json)>) -> Seq<(Seq<char>, JsonView)> {
    Seq::new(fields.len(), |i: int| (fields[i].0@, fields[i].1@))
}

/// What an optional document stands for.
pub open spec fn opt_json(value: Option<Json>) -> Option<JsonView> {
    match value {
        Some(j) => Some(j@),
        None => None,
    }
}

/// An array stands for the list of what its items stand for.
pub proof fn array_view(items: Vec<Json>)
    ensures
        Json::Array(items)@ == JsonView::Array(json_views(items@)),
{
    assert(Json::Array(items)@->Array_0 =~= json_views(items@));
}

/// An object stands for the list of what its fields stand for.
pub proof fn object_view(fields: Vec<(String, Json)>)
    ensures
        Json::Object(fields)@ == JsonView::Object(field_views(fields@)),
{
    assert(Json::Object(fields)@->Object_0 =~= field_views(fields@));
}

/// The last of the fields with a name.
pub open spec fn last_field(fields: Seq<(Seq<char>, JsonView)>, key: Seq<char>) -> Option<JsonView>
    decreases fields.len(),
{
    if fields.len() == 0 {
        None
    } else if fields.last().0 == key {
        Some(fields.last().1)
    } else {
        last_field(fields.drop_last(), key)
    }
}

impl JsonView {
    /// The field of an object with a name.
    pub open spec fn field(self, key: Seq<char>) -> Option<JsonView> {
        match self {
            JsonView::Object(fields) => last_field(fields, key),
            _ => None,
        }
    }

    /// The text of a string.
    pub open spec fn text(self) -> Option<Seq<char>> {
        match self {
            JsonView::String(s) => Some(s),
            _ => None,
        }
    }

    /// The value of a whole number that is not negative.
    pub open spec fn whole(self) -> Option<u64> {
        match self {
            JsonView::Number(NumberView::Unsigned(n)) => Some(n),
            _ => None,
        }
    }

    /// The items of an array.
    pub open spec fn items(self) -> Option<Seq<JsonView>> {
        match self {
            JsonView::Array(items) => Some(items),
            _ => None,
        }
    }

    /// The text of a field.
    pub open spec fn field_text(self, key: Seq<char>) -> Option<Seq<char>> {
        match self.field(key) {
            Some(v) => v.text(),
            None => None,
        }
    }

    /// The whole number in a field.
    pub open spec fn field_whole(self, key: Seq<char>) -> Option<u64> {
        match self.field(key) {
            Some(v) => v.whole(),
            None => None,
        }
    }
}

impl Clone for Json {
    fn clone(&self) -> (r: Json)
        ensures
            r@ == self@,
    {
        self.duplicate()
    }
}

impl JsonNumber {
    /// The same number again.
    pub fn duplicate(&self) -> (r: JsonNumber)
        ensures
            r@ == self@,
    {
        match self {
            JsonNumber::Unsigned(n) => JsonNumber::Unsigned(*n),
            JsonNumber::Negative(n) => JsonNumber::Negative(*n),
            JsonNumber::Decimal(s) => JsonNumber::Decimal(s.clone()),
        }
    }
}

impl Json {
    /// The same document again.
    pub fn duplicate(&self) -> (r: Json)
        ensures
            r@ == self@,
        decreases self,
    {
        match self {
            Json::Null => Json::Null,
            Json::Bool(b) => Json::Bool(*b),
            Json::Number(n) => Json::Number(n.duplicate()),
            Json::String(s) => Json::String(s.clone()),
            Json::Array(items) => {
                let mut out: Vec<Json> = Vec::new();
                let mut i: usize = 0;
                while i < items.len()
                    invariant
                        i <= items@.len(),
                        out@.len() == i,
                        forall|j: int| 0 <= j < i ==> (#[trigger] out@[j])@ == items@[j]@,
                        *self matches Json::Array(own) && own == *items,
                    decreases items@.len() - i,
                {
                    assert(decreases_to!(*self => items@[i as int]));
                    out.push(items[i].duplicate());
                    i = i + 1;
                }
                proof {
                    array_view(out);
                    array_view(*items);
                    assert(json_views(out@) =~= json_views(items@));
                }
                Json::Array(out)
            },
            Json::Object(fields) => {
                let mut out: Vec<(String, Json)> = Vec::new();
                let mut i: usize = 0;
                while i < fields.len()
                    invariant
                        i <= fields@.len(),
                        out@.len() == i,
                        forall|j: int|
                            0 <= j < i ==> (#[trigger] out@[j]).0@ == fields@[j].0@ && out@[j].1@
                                == fields@[j].1@,
                        *self matches Json::Object(own) && own == *fields,
                    decreases fields@.len() - i,
                {
                    assert(decreases_to!(fields@[i as int] => fields@[i as int].1));
                    out.push((fields[i].0.clone(), fields[i].1.duplicate()));
                    i = i + 1;
                }
                proof {
                    object_view(out);
                    object_view(*fields);
                    assert(field_views(out@) =~= field_views(fields@));
                }
                Json::Object(out)
            },
        }
    }

    /// The field of an object with a name; of several, the last.
    pub fn get(&self, key: &str) -> (r: Option<&Json>)
        ensures
            match r {
                Some(v) => self@.field(key@) == Some(v@),
                None => self@.field(key@) is None,
            },
    {
        match self {
            Json::Object(fields) => {
                proof {
                    object_view(*fields);
                    let all = field_views(fields@);
                    assert(all.subrange(0, all.len() as int) =~= all);
                }
                let mut i: usize = fields.len();
                while i > 0
                    invariant
                        i <= fields@.len(),
                        last_field(field_views(fields@), key@) == last_field(
                            field_views(fields@).subrange(0, i as int),
                            key@,
                        ),
                        self@ == JsonView::Object(field_views(fields@)),
                    decreases i,
                {
                    proof {
                        let part = field_views(fields@).subrange(0, i as int);
                        assert(part.last() == field_views(fields@)[i - 1]);
                        assert(part.drop_last() =~= field_views(fields@).subrange(0, i - 1));
                    }
                    if str_eq(fields[i - 1].0.as_str(), key) {
                        return Some(&fields[i - 1].1);
                    }
                    i = i - 1;
                }
                None
            },
            _ => None,
        }
    }

    /// The text of a string.
    pub fn as_str(&self) -> (r: Option<&str>)
        ensures
            match r {
                Some(s) => self@.text() == Some(s@),
                None => self@.text() is None,
            },
    {
        match self {
            Json::String(s) => Some(s.as_str()),
            _ => None,
        }
    }

    /// The value of a whole number that is not negative.
    pub fn as_u64(&self) -> (r: Option<u64>)
        ensures
            r == self@.whole(),
    {
        match self {
            Json::Number(JsonNumber::Unsigned(n)) => Some(*n),
            _ => None,
        }
    }

    /// The value of a truth value.
    pub fn as_bool(&self) -> (r: Option<bool>)
        ensures
            r == (match self@ {
                JsonView::Bool(b) => Some(b),
                _ => None,
            }),
    {
        match self {
            Json::Bool(b) => Some(*b),
            _ => None,
        }
    }

    /// The items of an array.
    pub fn as_array(&self) -> (r: Option<&Vec<Json>>)
        ensures
            match r {
                Some(items) => self@.items() == Some(json_views(items@)),
                None => self@.items() is None,
            },
    {
        match self {
            Json::Array(items) => {
                proof {
                    array_view(*items);
                }
                Some(items)
            },
            _ => None,
        }
    }

    /// Whether this is `null`.
    pub fn is_null(&self) -> (r: bool)
        ensures
            r == (self@ == JsonView::Null),
    {
        matches!(self, Json::Null)
    }

    /// The text of a field.
    pub fn get_str(&self, key: &str) -> (r: Option<&str>)
        ensures
            match r {
                Some(s) => self@.field_text(key@) == Some(s@),
                None => self@.field_text(key@) is None,
            },
    {
        match self.get(key) {
            Some(v) => v.as_str(),
            None => None,
        }
    }

    /// The whole number in a field.
    pub fn get_u64(&self, key: &str) -> (r: Option<u64>)
        ensures
            r == self@.field_whole(key@),
    {
        match self.get(key) {
            Some(v) => v.as_u64(),
            None => None,
        }
    }

    /// A string.
    pub fn text(s: &str) -> (r: Json)
        ensures
            r@ == JsonView::String(s@),
    {
        Json::String(s.to_owned())
    }

    /// A whole number that is not negative.
    pub fn whole(n: u64) -> (r: Json)
        ensures
            r@ == whole_number(n),
    {
        Json::Number(JsonNumber::Unsigned(n))
    }

    /// An array.
    pub fn array(items: Vec<Json>) -> (r: Json)
        ensures
            r@ == JsonView::Array(json_views(items@)),
    {
        proof {
            array_view(items);
        }
        Json::Array(items)
    }

    /// An object.
    pub fn object(fields: Vec<(String, Json)>) -> (r: Json)
        ensures
            r@ == JsonView::Object(field_views(fields@)),
    {
        proof {
            object_view(fields);
        }
        Json::Object(fields)
    }

    /// Reads a document.
    pub fn parse(text: &str) -> (r: Result<Json, String>)
        ensures
            parse_view(r) == json_parsed(text@),
    {
        from_str(text)
    }

    /// Reads a document from bytes.
    pub fn parse_bytes(bytes: &[u8]) -> (r: Result<Json, String>)
        ensures
            parse_view(r) == json_parsed_bytes(bytes@),
    {
        from_slice(bytes)
    }

    /// The document in its compact notation.
    pub fn to_text(&self) -> (r: String)
        ensures
            r@ == json_text(self@),
    {
        to_string(self)
    }

    /// The document in its indented notation.
    pub fn to_pretty_text(&self) -> (r: String)
        ensures
            r@ == json_pretty_text(self@),
    {
        to_string_pretty(self)
    }
}

/// A whole number that is not negative.
pub open spec fn whole_number(n: u64) -> JsonView {
    JsonView::Number(NumberView::Unsigned(n))
}

/// An empty list of fields.
pub fn no_fields() -> (r: Vec<(String, Json)>)
    ensures
        field_views(r@) == Seq::<(Seq<char>, JsonView)>::empty(),
{
    let r: Vec<(String, Json)> = Vec::new();
    assert(field_views(r@) =~= Seq::<(Seq<char>, JsonView)>::empty());
    r
}

/// Writes one more field.
pub fn put(fields: &mut Vec<(String, Json)>, key: &str, value: Json)
    ensures
        field_views(final(fields)@) == field_views(old(fields)@).push((key@, value@)),
{
    let ghost before = field_views(fields@);
    fields.push((key.to_owned(), value));
    assert(field_views(fields@) =~= before.push((key@, value@)));
}

/// Writes one more field with a text.
pub fn put_text(fields: &mut Vec<(String, Json)>, key: &str, value: &str)
    ensures
        field_views(final(fields)@) == field_views(old(fields)@).push(
            (key@, JsonView::String(value@)),
        ),
{
    put(fields, key, Json::text(value));
}

/// Writes one more item.
pub fn put_item(items: &mut Vec<Json>, value: Json)
    ensures
        json_views(final(items)@) == json_views(old(items)@).push(value@),
{
    let ghost before = json_views(items@);
    items.push(value);
    assert(json_views(items@) =~= before.push(value@));
}

/// One field if there is a value for it, nothing otherwise.
pub open spec fn field_if(key: Seq<char>, value: Option<JsonView>) -> Seq<(Seq<char>, JsonView)> {
    match value {
        Some(v) => seq![(key, v)],
        None => Seq::empty(),
    }
}

/// Writes one more field if there is a value for it.
pub fn put_opt(fields: &mut Vec<(String, Json)>, key: &str, value: Option<Json>)
    ensures
        field_views(final(fields)@) == field_views(old(fields)@) + field_if(key@, opt_json(value)),
{
    let ghost before = field_views(fields@);
    match value {
        Some(v) => {
            put(fields, key, v);
            assert(field_views(fields@) =~= before + seq![(key@, v@)]);
        },
        None => {
            assert(before + Seq::<(Seq<char>, JsonView)>::empty() =~= before);
        },
    }
}

/// An optional number as a document.
pub open spec fn number_view(n: Option<JsonNumber>) -> Option<JsonView> {
    match n {
        Some(n) => Some(JsonView::Number(n@)),
        None => None,
    }
}

/// An optional number as a document.
pub fn number_json(n: &Option<JsonNumber>) -> (r: Option<Json>)
    ensures
        opt_json(r) == number_view(*n),
{
    match n {
        Some(n) => Some(Json::Number(n.duplicate())),
        None => None,
    }
}

/// An optional text as a document.
pub open spec fn text_view(s: Option<String>) -> Option<JsonView> {
    match s {
        Some(s) => Some(JsonView::String(s@)),
        None => None,
    }
}

/// An optional text as a document.
pub fn text_json(s: &Option<String>) -> (r: Option<Json>)
    ensures
        opt_json(r) == text_view(*s),
{
    match s {
        Some(s) => Some(Json::String(s.clone())),
        None => None,
    }
}

/// A value, or `null`.
pub open spec fn or_null(value: Option<JsonView>) -> JsonView {
    match value {
        Some(v) => v,
        None => JsonView::Null,
    }
}

/// A text, or `null`.
pub fn text_or_null(s: &Option<String>) -> (r: Json)
    ensures
        r@ == or_null(text_view(*s)),
{
    match s {
        Some(s) => Json::String(s.clone()),
        None => Json::Null,
    }
}

/// A count as a document.
pub open spec fn count_view(n: Option<u32>) -> JsonView {
    match n {
        Some(n) => whole_number(n as u64),
        None => JsonView::Null,
    }
}

/// A count as a document.
pub fn count_json(n: Option<u32>) -> (r: Json)
    ensures
        r@ == count_view(n),
{
    match n {
        Some(n) => Json::whole(n as u64),
        None => Json::Null,
    }
}

/// A truth value as a document.
pub open spec fn bool_view(b: Option<bool>) -> Option<JsonView> {
    match b {
        Some(b) => Some(JsonView::Bool(b)),
        None => None,
    }
}

/// A truth value as a document.
pub fn bool_json(b: Option<bool>) -> (r: Option<Json>)
    ensures
        opt_json(r) == bool_view(b),
{
    match b {
        Some(b) => Some(Json::Bool(b)),
        None => None,
    }
}

/// An optional count as a document.
pub open spec fn opt_count_view(n: Option<u32>) -> Option<JsonView> {
    match n {
        Some(n) => Some(whole_number(n as u64)),
        None => None,
    }
}

/// An optional count as a document.
pub fn opt_count_json(n: Option<u32>) -> (r: Option<Json>)
    ensures
        opt_json(r) == opt_count_view(n),
{
    match n {
        Some(n) => Some(Json::whole(n as u64)),
        None => None,
    }
}

/// Texts as documents.
pub open spec fn text_items(list: Seq<String>) -> Seq<JsonView> {
    Seq::new(list.len(), |i: int| JsonView::String(list[i]@))
}

/// An optional list of texts as a document.
pub open spec fn texts_view(list: Option<Vec<String>>) -> Option<JsonView> {
    match list {
        Some(list) => Some(JsonView::Array(text_items(list@))),
        None => None,
    }
}

/// A list of texts as a document.
pub fn texts_array(list: &Vec<String>) -> (r: Json)
    ensures
        r@ == JsonView::Array(text_items(list@)),
{
    let mut items = no_items();
    let ghost all = text_items(list@);
    let mut i: usize = 0;
    proof {
        whole_prefix(all);
    }
    while i < list.len()
        invariant
            i <= list@.len(),
            all == text_items(list@),
            json_views(items@) == all.subrange(0, i as int),
        decreases list@.len() - i,
    {
        put_item(&mut items, Json::text(list[i].as_str()));
        proof {
            prefix_next(all, i as int);
        }
        i = i + 1;
    }
    proof {
        whole_prefix(all);
    }
    Json::array(items)
}

/// An optional list of texts as a document.
pub fn texts_json(list: &Option<Vec<String>>) -> (r: Option<Json>)
    ensures
        opt_json(r) == texts_view(*list),
{
    match list {
        Some(list) => Some(texts_array(list)),
        None => None,
    }
}

/// An empty list of documents.
pub fn no_items() -> (r: Vec<Json>)
    ensures
        json_views(r@) == Seq::<JsonView>::empty(),
{
    let r: Vec<Json> = Vec::new();
    assert(json_views(r@) =~= Seq::<JsonView>::empty());
    r
}

/// A list as a document, unless it is empty.
pub open spec fn unless_empty(items: Seq<JsonView>) -> Option<JsonView> {
    if items.len() == 0 {
        None
    } else {
        Some(JsonView::Array(items))
    }
}

/// A list as a document, unless it is empty.
pub fn array_unless_empty(items: Vec<Json>) -> (r: Option<Json>)
    ensures
        opt_json(r) == unless_empty(json_views(items@)),
{
    if items.len() == 0 {
        None
    } else {
        Some(Json::array(items))
    }
}

/// A text as a document, unless it is empty.
pub open spec fn text_unless_empty(s: Seq<char>) -> Option<JsonView> {
    if s.len() == 0 {
        None
    } else {
        Some(JsonView::String(s))
    }
}

/// What reading a document gave.
pub open spec fn parse_view(r: Result<Json, String>) -> Result<JsonView, Seq<char>> {
    match r {
        Ok(json) => Ok(json@),
        Err(message) => Err(message@),
    }
}

/// What `serde_json::from_str` gives for a text: the document, or the error's text.
pub uninterp spec fn json_parsed(text: Seq<char>) -> Result<JsonView, Seq<char>>;

/// What `serde_json::from_slice` gives for bytes: the document, or the error's text.
pub uninterp spec fn json_parsed_bytes(bytes: Seq<u8>) -> Result<JsonView, Seq<char>>;

/// What `serde_json::to_string` gives for a document.
pub uninterp spec fn json_text(json: JsonView) -> Seq<char>;

/// What `serde_json::to_string_pretty` gives for a document.
pub uninterp spec fn json_pretty_text(json: JsonView) -> Seq<char>;

/// `serde_json::from_str` into `serde_json::Value`: the document that the text
/// writes, or the text of the error. It depends on the text alone.
#[verifier::external_body]
fn from_str(text: &str) -> (r: Result<Json, String>)
    ensures
        parse_view(r) == json_parsed(text@),
{
    match serde_json::from_str::<serde_json::Value>(text) {
        Ok(value) => Ok(json_of(value)),
        Err(e) => Err(e.to_string()),
    }
}

/// `serde_json::from_slice` into `serde_json::Value`: the document that the bytes
/// write, or the text of the error. It depends on the bytes alone.
#[verifier::external_body]
fn from_slice(bytes: &[u8]) -> (r: Result<Json, String>)
    ensures
        parse_view(r) == json_parsed_bytes(bytes@),
{
    match serde_json::from_slice::<serde_json::Value>(bytes) {
        Ok(value) => Ok(json_of(value)),
        Err(e) => Err(e.to_string()),
    }
}

/// `serde_json::Value::to_string`: the compact notation of a document, which
/// depends on the document alone.
#[verifier::external_body]
fn to_string(json: &Json) -> (r: String)
    ensures
        r@ == json_text(json@),
{
    value_of(json).to_string()
}

/// The alternate form of `serde_json::Value`'s `Display`, which is the notation of
/// `serde_json::to_string_pretty`: it depends on the document alone.
#[verifier::external_body]
fn to_string_pretty(json: &Json) -> (r: String)
    ensures
        r@ == json_pretty_text(json@),
{
    format!("{:#}", value_of(json))
}

/// Takes a `serde_json::Value` over, variant by variant. Nothing is stated of it:
/// the functions that read a document name their whole result.
#[verifier::external_body]
fn json_of(value: serde_json::Value) -> Json {
    match value {
        serde_json::Value::Null => Json::Null,
        serde_json::Value::Bool(b) => Json::Bool(b),
        serde_json::Value::Number(n) => Json::Number(number_of(n)),
        serde_json::Value::String(s) => Json::String(s),
        serde_json::Value::Array(a) => Json::Array(a.into_iter().map(json_of).collect()),
        serde_json::Value::Object(m) => Json::Object(
            m.into_iter().map(|(k, v)| (k, json_of(v))).collect(),
        ),
    }
}

/// Takes a `serde_json::Number` over: as a whole number where it is one, by its
/// decimal notation otherwise. Nothing is stated of it.
#[verifier::external_body]
fn number_of(n: serde_json::Number) -> JsonNumber {
    match (n.as_u64(), n.as_i64()) {
        (Some(u), _) => JsonNumber::Unsigned(u),
        (None, Some(i)) => JsonNumber::Negative(i),
        (None, None) => JsonNumber::Decimal(n.to_string()),
    }
}

/// Gives a document as a `serde_json::Value`, variant by variant. Nothing is stated
/// of it: the functions that write a document name their whole result.
#[verifier::external_body]
fn value_of(json: &Json) -> serde_json::Value {
    match json {
        Json::Null => serde_json::Value::Null,
        Json::Bool(b) => serde_json::Value::Bool(*b),
        Json::Number(JsonNumber::Unsigned(u)) => serde_json::Value::from(*u),
        Json::Number(JsonNumber::Negative(i)) => serde_json::Value::from(*i),
        Json::Number(JsonNumber::Decimal(d)) => serde_json::from_str(d).unwrap_or_default(),
        Json::String(s) => serde_json::Value::String(s.clone()),
        Json::Array(a) => serde_json::Value::Array(a.iter().map(value_of).collect()),
        Json::Object(m) => serde_json::Value::Object(
            m.iter().map(|f| (f.0.clone(), value_of(&f.1))).collect(),
        ),
    }
}

/// Of two lists of fields, one behind the other, a name is looked up in the second
/// first.
pub broadcast proof fn field_of_both(
    a: Seq<(Seq<char>, JsonView)>,
    b: Seq<(Seq<char>, JsonView)>,
    key: Seq<char>,
)
    ensures
        #[trigger] last_field(a + b, key) == (match last_field(b, key) {
            Some(v) => Some(v),
            None => last_field(a, key),
        }),
    decreases b.len(),
{
    if b.len() == 0 {
        assert(a + b =~= a);
    } else {
        assert((a + b).last() == b.last());
        assert((a + b).drop_last() =~= a + b.drop_last());
        field_of_both(a, b.drop_last(), key);
    }
}

/// One more field stands before all others of its name, and hides none of another.
pub broadcast proof fn field_pushed(
    fields: Seq<(Seq<char>, JsonView)>,
    field: (Seq<char>, JsonView),
    key: Seq<char>,
)
    ensures
        #[trigger] last_field(fields.push(field), key) == (if field.0 == key {
            Some(field.1)
        } else {
            last_field(fields, key)
        }),
{
    assert(fields.push(field).last() == field);
    assert(fields.push(field).drop_last() =~= fields);
}

/// Among no fields there is none of any name.
pub broadcast proof fn no_field(key: Seq<char>)
    ensures
        #[trigger] last_field(Seq::empty(), key) is None,
{
}

/// A field that is there if there is a value for it has that value.
pub broadcast proof fn optional_field(name: Seq<char>, value: Option<JsonView>, key: Seq<char>)
    ensures
        #[trigger] last_field(field_if(name, value), key) == (if name == key {
            value
        } else {
            None
        }),
{
    reveal_with_fuel(last_field, 2);
    match value {
        Some(v) => {
            assert(field_if(name, value).last() == (name, v));
            assert(field_if(name, value).drop_last() =~= Seq::empty());
        },
        None => {
            assert(field_if(name, value) =~= Seq::empty());
        },
    }
}

pub broadcast group group_fields {
    field_of_both,
    field_pushed,
    no_field,
    optional_field,
}

/// A value is written as it is: a text as the string with its characters, a number as
/// that number, a truth value as that value; what is not there leaves no trace.
pub proof fn values_are_written_as_they_are(
    text: Option<String>,
    number: Option<JsonNumber>,
    count: Option<u32>,
    truth: Option<bool>,
    list: Option<Vec<String>>,
)
    ensures
        text matches Some(s) ==> text_view(text) == Some(JsonView::String(s@)),
        text is None ==> text_view(text) is None,
        number matches Some(JsonNumber::Unsigned(n)) ==> number_view(number) == Some(
            JsonView::Number(NumberView::Unsigned(n)),
        ),
        number matches Some(JsonNumber::Negative(n)) ==> number_view(number) == Some(
            JsonView::Number(NumberView::Negative(n)),
        ),
        number matches Some(JsonNumber::Decimal(s)) ==> number_view(number) == Some(
            JsonView::Number(NumberView::Decimal(s@)),
        ),
        number is None ==> number_view(number) is None,
        count matches Some(n) ==> count_view(count).whole() == Some(n as u64),
        count is None ==> count_view(count) == JsonView::Null,
        count matches Some(n) ==> opt_count_view(count) == Some(whole_number(n as u64)),
        count is None ==> opt_count_view(count) is None,
        truth matches Some(b) ==> bool_view(truth) == Some(JsonView::Bool(b)),
        truth is None ==> bool_view(truth) is None,
        list is None ==> texts_view(list) is None,
        list matches Some(items) ==> {
            &&& texts_view(list) matches Some(JsonView::Array(written))
            &&& written.len() == items@.len()
            &&& forall|i: int|
                0 <= i < items@.len() ==> #[trigger] written[i] == JsonView::String(items@[i]@)
        },
        or_null(None) == JsonView::Null,
        forall|v: JsonView| #[trigger] or_null(Some(v)) == v,
{
}

/// A list is written with all its items in their order; an empty one is left out where
/// that is asked for, and so is an empty text.
pub proof fn only_what_is_empty_is_left_out(items: Seq<JsonView>, text: Seq<char>)
    ensures
        items.len() == 0 <==> unless_empty(items) is None,
        items.len() > 0 ==> unless_empty(items)->0.items() == Some(items),
        text.len() == 0 <==> text_unless_empty(text) is None,
        text.len() > 0 ==> text_unless_empty(text)->0.text() == Some(text),
{
}

/// The last field of a name is found.
pub proof fn field_found(fields: Seq<(Seq<char>, JsonView)>, at: int)
    requires
        0 <= at < fields.len(),
        forall|j: int| at < j < fields.len() ==> (#[trigger] fields[j]).0 != fields[at].0,
    ensures
        last_field(fields, fields[at].0) == Some(fields[at].1),
    decreases fields.len(),
{
    if at < fields.len() - 1 {
        assert(fields[fields.len() - 1].0 != fields[at].0);
        field_found(fields.drop_last(), at);
    }
}

/// A name that no field has is not found.
pub proof fn field_not_found(fields: Seq<(Seq<char>, JsonView)>, key: Seq<char>)
    requires
        forall|j: int| 0 <= j < fields.len() ==> (#[trigger] fields[j]).0 != key,
    ensures
        last_field(fields, key) is None,
    decreases fields.len(),
{
    if fields.len() > 0 {
        assert(fields[fields.len() - 1].0 != key);
        field_not_found(fields.drop_last(), key);
    }
}

/// Two fields that are listed: the second hides the first only if they share a name.
pub proof fn two_fields(fields: Seq<(Seq<char>, JsonView)>)
    requires
        fields.len() == 2,
    ensures
        forall|key: Seq<char>| #[trigger]
            last_field(fields, key) == (if fields[1].0 == key {
                Some(fields[1].1)
            } else if fields[0].0 == key {
                Some(fields[0].1)
            } else {
                None
            }),
{
    reveal_with_fuel(last_field, 3);
}

} // verus!
