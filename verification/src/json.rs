//! The answers of the service, which are JSON objects, member by member.
use vstd::prelude::*;

use crate::text;

verus! {

/// The value of one member of a JSON object, as far as the agent reads it.
#[derive(Debug, PartialEq, Eq)]
pub enum JsonValue {
    Null,
    Flag(bool),
    /// A number, and its value where that is a whole number of 64 bits without
    /// a sign.
    Number(Option<u64>),
    Text(String),
    Array,
    Object,
}

/// What a [`JsonValue`] says.
pub enum JsonValueView {
    Null,
    Flag(bool),
    Number(Option<u64>),
    Text(Seq<char>),
    Array,
    Object,
}

impl View for JsonValue {
    type V = JsonValueView;

    open spec fn view(&self) -> JsonValueView {
        match self {
            JsonValue::Null => JsonValueView::Null,
            JsonValue::Flag(flag) => JsonValueView::Flag(*flag),
            JsonValue::Number(number) => JsonValueView::Number(*number),
            JsonValue::Text(text) => JsonValueView::Text(text@),
            JsonValue::Array => JsonValueView::Array,
            JsonValue::Object => JsonValueView::Object,
        }
    }
}

/// A member of a JSON object.
#[derive(Debug, PartialEq, Eq)]
pub struct JsonMember {
    pub name: String,
    pub value: JsonValue,
}

/// What an answer holds.
#[derive(Debug, PartialEq, Eq)]
pub enum JsonDocument {
    /// The answer is not JSON, or there is none.
    Invalid,
    /// A JSON object with these members.
    Object(Vec<JsonMember>),
    /// Any other JSON value.
    Other,
}

/// What a [`JsonDocument`] says.
pub enum JsonDocumentView {
    Invalid,
    Object(Map<Seq<char>, JsonValueView>),
    Other,
}

/// The members by their names; of two with one name the later counts.
pub open spec fn members_by_name(members: Seq<JsonMember>) -> Map<Seq<char>, JsonValueView>
    decreases members.len(),
{
    if members.len() == 0 {
        Map::empty()
    } else {
        members_by_name(members.drop_last()).insert(members.last().name@, members.last().value@)
    }
}

impl View for JsonDocument {
    type V = JsonDocumentView;

    open spec fn view(&self) -> JsonDocumentView {
        match self {
            JsonDocument::Invalid => JsonDocumentView::Invalid,
            JsonDocument::Object(members) => JsonDocumentView::Object(members_by_name(members@)),
            JsonDocument::Other => JsonDocumentView::Other,
        }
    }
}

impl JsonDocumentView {
    /// The value of the member `name`, and null where there is none.
    pub open spec fn member(self, name: Seq<char>) -> JsonValueView {
        match self {
            JsonDocumentView::Object(members) if members.contains_key(name) => members[name],
            _ => JsonValueView::Null,
        }
    }

    /// The number in the member `name`, if there is a whole number in it.
    pub open spec fn number(self, name: Seq<char>) -> Option<u64> {
        match self.member(name) {
            JsonValueView::Number(number) => number,
            _ => None,
        }
    }

    /// The text in the member `name`, or `default` where there is no text.
    pub open spec fn text_or(self, name: Seq<char>, default: Seq<char>) -> Seq<char> {
        match self.member(name) {
            JsonValueView::Text(text) => text,
            _ => default,
        }
    }

    /// The flag in the member `name`, or `default` where there is no flag.
    pub open spec fn flag_or(self, name: Seq<char>, default: bool) -> bool {
        match self.member(name) {
            JsonValueView::Flag(flag) => flag,
            _ => default,
        }
    }
}

impl JsonDocument {
    /// Finds the value of the member `name`.
    fn find(&self, name: &str) -> (value: Option<&JsonValue>)
        ensures
            match value {
                Some(value) => value@ == self@.member(name@),
                None => self@.member(name@) is Null,
            },
    {
        match self {
            JsonDocument::Object(members) => {
                let mut i: usize = members.len();
                assert(members@.take(i as int) == members@);
                while i > 0
                    invariant
                        *self == JsonDocument::Object(*members),
                        i <= members@.len(),
                        ({
                            let head = members_by_name(members@.take(i as int));
                            let all = members_by_name(members@);
                            &&& head.contains_key(name@) == all.contains_key(name@)
                            &&& all.contains_key(name@) ==> head[name@] == all[name@]
                        }),
                    decreases i,
                {
                    assert(members@.take(i as int).drop_last() == members@.take(i - 1));
                    if text::same_text(members[i - 1].name.as_str(), name) {
                        return Some(&members[i - 1].value);
                    }
                    i = i - 1;
                }
                None
            },
            _ => None,
        }
    }

    /// The number in the member `name`, or `default`.
    pub fn number_or(&self, name: &str, default: u64) -> (number: u64)
        ensures
            number == (match self@.number(name@) {
                Some(number) => number,
                None => default,
            }),
    {
        match self.find(name) {
            Some(JsonValue::Number(Some(number))) => *number,
            _ => default,
        }
    }

    /// The text in the member `name`, or `default`.
    pub fn text_or(&self, name: &str, default: &str) -> (text: String)
        ensures
            text@ == self@.text_or(name@, default@),
    {
        match self.find(name) {
            Some(JsonValue::Text(text)) => text.clone(),
            _ => default.to_string(),
        }
    }

    /// The flag in the member `name`, or `default`.
    pub fn flag_or(&self, name: &str, default: bool) -> (flag: bool)
        ensures
            flag == self@.flag_or(name@, default),
    {
        match self.find(name) {
            Some(JsonValue::Flag(flag)) => *flag,
            _ => default,
        }
    }
}

/// The name of what `serde_json::from_slice` reads from `body`.
pub uninterp spec fn json_document(body: Seq<u8>) -> JsonDocumentView;

/// Calls `serde_json::from_slice` for a `serde_json::Value`. Whether the bytes
/// are JSON, and which one, depends on them alone and is called
/// `json_document`. The members of an object come with their names, each once;
/// of a member that is an array or an object, only that it is one is kept.
#[verifier::external_body]
fn from_slice(body: &[u8]) -> (document: JsonDocument)
    ensures
        document@ == json_document(body@),
{
    match serde_json::from_slice::<serde_json::Value>(body) {
        Ok(serde_json::Value::Object(members)) => JsonDocument::Object(
            members.into_iter().map(|(name, value)| JsonMember { name, value: match value {
                serde_json::Value::Null => JsonValue::Null,
                serde_json::Value::Bool(flag) => JsonValue::Flag(flag),
                serde_json::Value::Number(number) => JsonValue::Number(number.as_u64()),
                serde_json::Value::String(text) => JsonValue::Text(text),
                serde_json::Value::Array(_) => JsonValue::Array,
                serde_json::Value::Object(_) => JsonValue::Object,
            } }).collect(),
        ),
        Ok(_) => JsonDocument::Other,
        Err(_) => JsonDocument::Invalid,
    }
}

/// What the answer `body` holds, where there is one.
pub open spec fn answer(body: Option<&[u8]>) -> JsonDocumentView {
    match body {
        Some(body) => json_document(body@),
        None => JsonDocumentView::Invalid,
    }
}

/// Reads the answer of the service.
pub fn read_answer(body: Option<&[u8]>) -> (document: JsonDocument)
    ensures
        document@ == answer(body),
{
    match body {
        Some(body) => from_slice(body),
        None => JsonDocument::Invalid,
    }
}

/// A member is found by its name, unless a later one has the same name.
pub proof fn law_members_are_found(members: Seq<JsonMember>, i: int)
    requires
        0 <= i < members.len(),
        forall|k: int| i < k < members.len() ==> #[trigger] members[k].name@ != members[i].name@,
    ensures
        members_by_name(members).contains_key(members[i].name@),
        members_by_name(members)[members[i].name@] == members[i].value@,
    decreases members.len(),
{
    let last = members.len() - 1;
    if i < last {
        let earlier = members.drop_last();
        assert(members[last].name@ != members[i].name@);
        assert forall|k: int| i < k < earlier.len() implies #[trigger] earlier[k].name@
            != earlier[i].name@ by {
            assert(members[k].name@ != members[i].name@);
        }
        law_members_are_found(earlier, i);
    }
}

/// What is found by a name is a member.
pub proof fn law_only_members_are_found(members: Seq<JsonMember>, name: Seq<char>)
    requires
        forall|i: int| 0 <= i < members.len() ==> #[trigger] members[i].name@ != name,
    ensures
        !members_by_name(members).contains_key(name),
    decreases members.len(),
{
    if members.len() > 0 {
        let earlier = members.drop_last();
        assert(members[members.len() - 1].name@ != name);
        assert forall|i: int| 0 <= i < earlier.len() implies #[trigger] earlier[i].name@ != name by {
            assert(members[i].name@ != name);
        }
        law_only_members_are_found(earlier, name);
    }
}

/// A document says what it holds, and its texts are whole.
pub proof fn law_documents_say_what_they_hold(
    members: Vec<JsonMember>,
    flag: bool,
    number: Option<u64>,
    text: String,
)
    ensures
        JsonDocument::Object(members)@ == JsonDocumentView::Object(members_by_name(members@)),
        JsonDocument::Invalid@ == JsonDocumentView::Invalid,
        JsonDocument::Other@ == JsonDocumentView::Other,
        JsonValue::Null@ == JsonValueView::Null,
        JsonValue::Flag(flag)@ == JsonValueView::Flag(flag),
        JsonValue::Number(number)@ == JsonValueView::Number(number),
        JsonValue::Text(text)@ == JsonValueView::Text(text@),
        JsonValue::Array@ == JsonValueView::Array,
        JsonValue::Object@ == JsonValueView::Object,
{
}

/// The number, the text or the flag in a member is the one that the object has
/// under that name; under any other name, and of any other kind, there is none.
pub proof fn law_members_are_read_by_kind(
    members: Map<Seq<char>, JsonValueView>,
    name: Seq<char>,
    other: Seq<char>,
    flag: bool,
)
    ensures
        ({
            let document = JsonDocumentView::Object(members);
            &&& forall|n: u64|
                members.contains_pair(name, JsonValueView::Number(Some(n))) <==> #[trigger] document.number(name)
                    == Some(n)
            &&& forall|t: Seq<char>|
                #[trigger] members.contains_pair(name, JsonValueView::Text(t)) ==> document.text_or(
                    name,
                    other,
                ) == t
            &&& (members.contains_key(name) ==> !(members[name] is Text)) ==> document.text_or(
                name,
                other,
            ) == other
            &&& forall|b: bool|
                #[trigger] members.contains_pair(name, JsonValueView::Flag(b)) ==> document.flag_or(
                    name,
                    flag,
                ) == b
            &&& (members.contains_key(name) ==> !(members[name] is Flag)) ==> document.flag_or(
                name,
                flag,
            ) == flag
        }),
{
}

/// An answer that is not there says nothing; one that is there is read whole.
pub proof fn law_answers_are_read_whole(body: &[u8])
    ensures
        answer(None) is Invalid,
        answer(Some(body)) == json_document(body@),
{
}

} // verus!
