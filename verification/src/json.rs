//! JSON documents as plain data, read from and written to text by `serde_json`.

use vstd::prelude::*;

use crate::order;

verus! {

/// What a JSON document holds. Of a number only this is kept: its value where it is a natural
/// number below 2^64, written without fraction or exponent.
pub enum JsonView {
    Null,
    Bool(bool),
    Number(Option<u64>),
    Text(Seq<char>),
    Array(Seq<JsonView>),
    Object(Seq<(Seq<char>, JsonView)>),
}

/// A JSON document. Of a number only its value as a natural number is kept, where it is one.
pub enum Json {
    Null,
    Bool(bool),
    Number(Option<u64>),
    Text(String),
    Array(Vec<Json>),
    Object(Vec<(String, Json)>),
}

impl Json {
    /// What the document holds.
    pub open spec fn content(self) -> JsonView
        decreases self,
    {
        match self {
            Json::Null => JsonView::Null,
            Json::Bool(flag) => JsonView::Bool(flag),
            Json::Number(natural) => JsonView::Number(natural),
            Json::Text(text) => JsonView::Text(text@),
            Json::Array(items) => JsonView::Array(
                Seq::new(
                    items@.len(),
                    |i: int|
                        if 0 <= i < items@.len() {
                            items@[i].content()
                        } else {
                            JsonView::Null
                        },
                ),
            ),
            Json::Object(fields) => JsonView::Object(
                Seq::new(
                    fields@.len(),
                    |i: int|
                        if 0 <= i < fields@.len() {
                            (fields@[i].0@, fields@[i].1.content())
                        } else {
                            (Seq::empty(), JsonView::Null)
                        },
                ),
            ),
        }
    }
}

impl View for Json {
    type V = JsonView;

    open spec fn view(&self) -> JsonView {
        self.content()
    }
}

/// One level of a `serde_json` value: its parts are `serde_json` values still.
pub enum Level {
    Null,
    Bool(bool),
    Number(Option<u64>),
    Text(String),
    Array(Vec<serde_json::Value>),
    Object(Vec<(String, serde_json::Value)>),
}

#[verifier::external_type_specification]
#[verifier::external_body]
pub struct ExValue(serde_json::Value);

/// What a `serde_json` value holds; the fields of an object in the order of their keys.
pub uninterp spec fn json_content(value: serde_json::Value) -> JsonView;

/// What `serde_json` reads from bytes: a document, or the message of its error.
pub uninterp spec fn parsed_json(bytes: Seq<u8>) -> Result<JsonView, Seq<char>>;

/// The text that `serde_json` writes for a document without white space between its parts.
pub uninterp spec fn json_text(content: JsonView) -> Seq<char>;

/// What a value with this top level holds.
pub open spec fn level_content(level: Level) -> JsonView {
    match level {
        Level::Null => JsonView::Null,
        Level::Bool(flag) => JsonView::Bool(flag),
        Level::Number(natural) => JsonView::Number(natural),
        Level::Text(text) => JsonView::Text(text@),
        Level::Array(items) => JsonView::Array(
            items@.map_values(|item: serde_json::Value| json_content(item)),
        ),
        Level::Object(fields) => JsonView::Object(
            fields@.map_values(
                |field: (String, serde_json::Value)| (field.0@, json_content(field.1)),
            ),
        ),
    }
}

/// The keys of an object's fields stand in order, each once.
pub open spec fn keys_increase(fields: Seq<(Seq<char>, JsonView)>) -> bool {
    forall|i: int, j: int|
        0 <= i < j < fields.len() ==> (#[trigger] fields[i]).0 != (#[trigger] fields[j]).0
            && order::not_after(
            vstd::utf8::encode_utf8(fields[i].0),
            vstd::utf8::encode_utf8(fields[j].0),
        )
}

/// Each number in the document is a natural number, and the keys of its objects stand in order.
pub open spec fn writable(content: JsonView) -> bool
    decreases content,
{
    match content {
        JsonView::Number(natural) => natural is Some,
        JsonView::Array(items) => forall|i: int|
            0 <= i < items.len() ==> writable(#[trigger] items[i]),
        JsonView::Object(fields) => keys_increase(fields) && forall|i: int|
            0 <= i < fields.len() ==> writable((#[trigger] fields[i]).1),
        _ => true,
    }
}

/// `serde_json::from_slice` into a `serde_json::Value`. The result has a name: the document that
/// the bytes spell, or the text of the error.
#[verifier::external_body]
fn read_value(bytes: &[u8]) -> (value: Result<serde_json::Value, String>)
    ensures
        match value {
            Ok(value) => parsed_json(bytes@) == Ok::<JsonView, Seq<char>>(json_content(value)),
            Err(message) => parsed_json(bytes@) == Err::<JsonView, Seq<char>>(message@),
        },
{
    serde_json::from_slice(bytes).map_err(|error| error.to_string())
}

/// Tells the variants of `serde_json::Value` apart; a number is taken by `Number::as_u64`. The
/// level says what the value holds.
#[verifier::external_body]
fn open_value(value: serde_json::Value) -> (level: Level)
    ensures
        level_content(level) == json_content(value),
{
    match value {
        serde_json::Value::Null => Level::Null,
        serde_json::Value::Bool(flag) => Level::Bool(flag),
        serde_json::Value::Number(number) => Level::Number(number.as_u64()),
        serde_json::Value::String(text) => Level::Text(text),
        serde_json::Value::Array(items) => Level::Array(items),
        serde_json::Value::Object(fields) => Level::Object(fields.into_iter().collect()),
    }
}

/// Builds the `serde_json::Value` of each variant. The value holds what the level says; the keys
/// of an object are to be in order and distinct, as a `serde_json::Map` keeps them.
#[verifier::external_body]
fn close_value(level: Level) -> (value: serde_json::Value)
    requires
        level matches Level::Number(natural) ==> natural is Some,
        level_content(level) matches JsonView::Object(fields) ==> keys_increase(fields),
    ensures
        json_content(value) == level_content(level),
{
    match level {
        Level::Null => serde_json::Value::Null,
        Level::Bool(flag) => serde_json::Value::Bool(flag),
        Level::Number(natural) => serde_json::Value::from(natural),
        Level::Text(text) => serde_json::Value::String(text),
        Level::Array(items) => serde_json::Value::Array(items),
        Level::Object(fields) => serde_json::Value::Object(fields.into_iter().collect()),
    }
}

/// `Display` of `serde_json::Value`, which writes compact JSON. The result has a name.
#[verifier::external_body]
fn write_value(value: &serde_json::Value) -> (text: String)
    requires
        writable(json_content(*value)),
    ensures
        text@ == json_text(json_content(*value)),
{
    value.to_string()
}

/// The document that a `serde_json` value holds.
fn unpack(value: serde_json::Value) -> (json: Json)
    ensures
        json@ == json_content(value),
    decreases json_content(value),
{
    match open_value(value) {
        Level::Null => Json::Null,
        Level::Bool(flag) => Json::Bool(flag),
        Level::Number(natural) => Json::Number(natural),
        Level::Text(text) => Json::Text(text),
        Level::Array(items) => {
            let ghost all = items@;
            let ghost contents = all.map_values(|item: serde_json::Value| json_content(item));
            let mut rest = items;
            let mut unpacked: Vec<Json> = Vec::new();
            while rest.len() > 0
                invariant
                    contents == all.map_values(|item: serde_json::Value| json_content(item)),
                    json_content(value) == JsonView::Array(contents),
                    unpacked@.len() <= all.len(),
                    rest@ == all.skip(unpacked@.len() as int),
                    forall|i: int|
                        0 <= i < unpacked@.len() ==> (#[trigger] unpacked@[i])@ == contents[i],
                decreases rest@.len(),
            {
                let item = rest.remove(0);
                assert(json_content(item) == contents[unpacked@.len() as int]);
                assert(decreases_to!(json_content(value) => json_content(value)->Array_0));
                let done = unpack(item);
                unpacked.push(done);
                assert(rest@ == all.skip(unpacked@.len() as int));
            }
            let json = Json::Array(unpacked);
            assert(json@->Array_0 =~= contents);
            json
        },
        Level::Object(fields) => {
            let ghost all = fields@;
            let ghost contents = all.map_values(
                |field: (String, serde_json::Value)| (field.0@, json_content(field.1)),
            );
            let mut rest = fields;
            let mut unpacked: Vec<(String, Json)> = Vec::new();
            while rest.len() > 0
                invariant
                    contents == all.map_values(
                        |field: (String, serde_json::Value)| (field.0@, json_content(field.1)),
                    ),
                    json_content(value) == JsonView::Object(contents),
                    unpacked@.len() <= all.len(),
                    rest@ == all.skip(unpacked@.len() as int),
                    forall|i: int|
                        0 <= i < unpacked@.len() ==> ((#[trigger] unpacked@[i]).0@, unpacked@[i].1@)
                            == contents[i],
                decreases rest@.len(),
            {
                let (key, item) = rest.remove(0);
                let ghost at = unpacked@.len() as int;
                assert((key@, json_content(item)) == contents[at]);
                assert(decreases_to!(json_content(value) => json_content(value)->Object_0));
                assert(decreases_to!(contents => contents[at]));
                assert(decreases_to!(contents[at] => contents[at].1));
                let done = unpack(item);
                unpacked.push((key, done));
                assert(rest@ == all.skip(unpacked@.len() as int));
            }
            let json = Json::Object(unpacked);
            assert(json@->Object_0 =~= contents);
            json
        },
    }
}

/// The `serde_json` value that holds a document.
fn pack(json: &Json) -> (value: serde_json::Value)
    requires
        writable(json@),
    ensures
        json_content(value) == json@,
    decreases json,
{
    let level = match json {
        Json::Null => Level::Null,
        Json::Bool(flag) => Level::Bool(*flag),
        Json::Number(natural) => Level::Number(*natural),
        Json::Text(text) => Level::Text(text.clone()),
        Json::Array(items) => {
            let mut packed: Vec<serde_json::Value> = Vec::new();
            let mut i: usize = 0;
            while i < items.len()
                invariant
                    i <= items@.len(),
                    *json == Json::Array(*items),
                    writable(json@),
                    packed@.len() == i,
                    forall|k: int| 0 <= k < i ==> json_content(#[trigger] packed@[k]) == items@[k]@,
                decreases items@.len() - i,
            {
                assert(json@->Array_0[i as int] == items@[i as int]@);
                packed.push(pack(&items[i]));
                i += 1;
            }
            assert(packed@.map_values(|item: serde_json::Value| json_content(item))
                =~= json@->Array_0);
            Level::Array(packed)
        },
        Json::Object(fields) => {
            let mut packed: Vec<(String, serde_json::Value)> = Vec::new();
            let mut i: usize = 0;
            while i < fields.len()
                invariant
                    i <= fields@.len(),
                    *json == Json::Object(*fields),
                    writable(json@),
                    packed@.len() == i,
                    forall|k: int|
                        0 <= k < i ==> ((#[trigger] packed@[k]).0@, json_content(packed@[k].1)) == (
                        fields@[k].0@,
                        fields@[k].1@,
                        ),
                decreases fields@.len() - i,
            {
                assert(json@->Object_0[i as int] == (fields@[i as int].0@, fields@[i as int].1@));
                packed.push((fields[i].0.clone(), pack(&fields[i].1)));
                i += 1;
            }
            assert(packed@.map_values(
                |field: (String, serde_json::Value)| (field.0@, json_content(field.1)),
            ) =~= json@->Object_0);
            Level::Object(packed)
        },
    };
    close_value(level)
}

/// Reads a JSON document.
pub fn parse_json(bytes: &[u8]) -> (json: Result<Json, String>)
    ensures
        match json {
            Ok(json) => parsed_json(bytes@) == Ok::<JsonView, Seq<char>>(json@),
            Err(message) => parsed_json(bytes@) == Err::<JsonView, Seq<char>>(message@),
        },
{
    match read_value(bytes) {
        Ok(value) => Ok(unpack(value)),
        Err(message) => Err(message),
    }
}

/// Writes a JSON document as compact text.
pub fn encode_json(json: &Json) -> (text: String)
    requires
        writable(json@),
    ensures
        text@ == json_text(json@),
{
    let value = pack(json);
    write_value(&value)
}

/// The value of the first field with this key.
pub open spec fn field_in(fields: Seq<(Seq<char>, JsonView)>, key: Seq<char>) -> Option<JsonView>
    decreases fields.len(),
{
    if fields.len() == 0 {
        None
    } else if fields[0].0 == key {
        Some(fields[0].1)
    } else {
        field_in(fields.drop_first(), key)
    }
}

impl JsonView {
    /// The value that an object has under `key`; other documents have none.
    pub open spec fn field(self, key: Seq<char>) -> Option<JsonView> {
        match self {
            JsonView::Object(fields) => field_in(fields, key),
            _ => None,
        }
    }

    /// The text under `key`, where a text stands there.
    pub open spec fn text_field(self, key: Seq<char>) -> Option<Seq<char>> {
        match self.field(key) {
            Some(JsonView::Text(text)) => Some(text),
            _ => None,
        }
    }
}

/// The characters of an optional text.
pub open spec fn optional_view(text: Option<&str>) -> Option<Seq<char>> {
    match text {
        Some(text) => Some(text@),
        None => None,
    }
}

impl Json {
    /// The value that an object has under `key`; other documents have none.
    pub fn get(&self, key: &str) -> (found: Option<&Json>)
        ensures
            match found {
                Some(json) => self@.field(key@) == Some(json@),
                None => self@.field(key@) is None,
            },
    {
        match self {
            Json::Object(fields) => {
                let ghost all = self@->Object_0;
                let mut i: usize = 0;
                assert(all.skip(0) == all);
                while i < fields.len()
                    invariant
                        i <= fields@.len(),
                        *self == Json::Object(*fields),
                        all == self@->Object_0,
                        all.len() == fields@.len(),
                        field_in(all, key@) == field_in(all.skip(i as int), key@),
                    decreases fields@.len() - i,
                {
                    assert(all.skip(i as int)[0] == (fields@[i as int].0@, fields@[i as int].1@));
                    if fields[i].0.as_str().eq(key) {
                        return Some(&fields[i].1);
                    }
                    assert(all.skip(i as int).drop_first() == all.skip(i + 1));
                    i += 1;
                }
                None
            },
            _ => None,
        }
    }

    /// The text under `key`, where a text stands there.
    pub fn get_text(&self, key: &str) -> (found: Option<&str>)
        ensures
            optional_view(found) == self@.text_field(key@),
    {
        match self.get(key) {
            Some(Json::Text(text)) => Some(text.as_str()),
            _ => None,
        }
    }
}

proof fn lemma_field_in(fields: Seq<(Seq<char>, JsonView)>, key: Seq<char>)
    ensures
        field_in(fields, key) is None <==> forall|i: int|
            0 <= i < fields.len() ==> (#[trigger] fields[i]).0 != key,
        forall|i: int|
            0 <= i < fields.len() && (#[trigger] fields[i]).0 == key && (forall|j: int|
                0 <= j < i ==> (#[trigger] fields[j]).0 != key) ==> field_in(fields, key) == Some(
                fields[i].1,
            ),
    decreases fields.len(),
{
    if fields.len() > 0 {
        let rest = fields.drop_first();
        lemma_field_in(rest, key);
        assert forall|i: int| 0 <= i < rest.len() implies #[trigger] rest[i] == fields[i + 1] by {}
        if fields[0].0 != key {
            if field_in(fields, key) is None {
                assert forall|i: int| 0 <= i < fields.len() implies (#[trigger] fields[i]).0
                    != key by {
                    if i > 0 {
                        assert(rest[i - 1] == fields[i]);
                    }
                }
            }
            if forall|i: int| 0 <= i < fields.len() ==> (#[trigger] fields[i]).0 != key {
                assert forall|i: int| 0 <= i < rest.len() implies (#[trigger] rest[i]).0
                    != key by {
                    assert(fields[i + 1].0 != key);
                }
            }
            assert forall|i: int|
                0 <= i < fields.len() && (#[trigger] fields[i]).0 == key && (forall|j: int|
                    0 <= j < i ==> (#[trigger] fields[j]).0 != key) implies field_in(fields, key)
                == Some(fields[i].1) by {
                assert(rest[i - 1] == fields[i]);
                assert forall|j: int| 0 <= j < i - 1 implies (#[trigger] rest[j]).0 != key by {
                    assert(fields[j + 1].0 != key);
                }
            }
        }
    }
}

/// An object gives what stands under a key, and nothing exactly where nothing stands under it; a
/// document that is no object gives nothing. The text under a key is given where a text stands there.
pub proof fn what_stands_under_a_key_is_found(
    json: Json,
    key: &str,
    found: Option<&Json>,
    text: Option<&str>,
)
    requires
        call_ensures(Json::get, (&json, key), found),
        call_ensures(Json::get_text, (&json, key), text),
    ensures
        json is Object ==> {
            let fields = json->Object_0@;
            &&& found is None <==> forall|i: int|
                0 <= i < fields.len() ==> (#[trigger] fields[i]).0@ != key@
            &&& forall|i: int|
                0 <= i < fields.len() && (#[trigger] fields[i]).0@ == key@ && (forall|j: int|
                    0 <= j < i ==> (#[trigger] fields[j]).0@ != key@) ==> found is Some
                    && found->Some_0@ == fields[i].1@
        },
        !(json is Object) ==> found is None,
        text is Some <==> found is Some && found->Some_0@ is Text,
        text is Some ==> found->Some_0@ == JsonView::Text(text->Some_0@),
{
    if let Json::Object(pairs) = json {
        let fields = pairs@;
        let all = json@->Object_0;
        lemma_field_in(all, key@);
        assert forall|i: int| 0 <= i < fields.len() implies #[trigger] all[i] == (
            fields[i].0@,
            fields[i].1@,
        ) by {}
        if found is None {
            assert forall|i: int| 0 <= i < fields.len() implies (#[trigger] fields[i]).0@
                != key@ by {
                assert(all[i].0 != key@);
            }
        }
        if forall|i: int| 0 <= i < fields.len() ==> (#[trigger] fields[i]).0@ != key@ {
            assert forall|i: int| 0 <= i < all.len() implies (#[trigger] all[i]).0 != key@ by {
                assert(fields[i].0@ != key@);
            }
        }
        assert forall|i: int|
            0 <= i < fields.len() && (#[trigger] fields[i]).0@ == key@ && (forall|j: int|
                0 <= j < i ==> (#[trigger] fields[j]).0@ != key@) implies found is Some
            && found->Some_0@ == fields[i].1@ by {
            assert(all[i].0 == key@);
            assert forall|j: int| 0 <= j < i implies (#[trigger] all[j]).0 != key@ by {
                assert(fields[j].0@ != key@);
            }
        }
    }
}

} // verus!
