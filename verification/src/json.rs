//! JSON documents as plain data.
//!
//! Reading and writing JSON text is left to `serde_json`. What the rest of
//! the library decides about a document it decides on [`Json`], a tree of
//! plain values whose mathematical content is its view, [`JsonValue`].

use vstd::prelude::*;

verus! {

/// A JSON number. Integers are held exactly; any other number is held as the
/// text that `serde_json` prints for it.
#[derive(Debug, Clone, PartialEq, Eq)]
pub enum JsonNumber {
    /// An integer that is zero or more.
    PosInt(u64),
    /// An integer read with a minus sign.
    NegInt(i64),
    /// A number with a fraction or an exponent, as text.
    Float(String),
}

/// One member of a JSON object: a name and the document held under it.
#[derive(Debug, PartialEq, Eq)]
pub struct Member {
    pub name: String,
    pub value: Json,
}

/// A JSON document.
#[derive(Debug, PartialEq, Eq)]
pub enum Json {
    Null,
    Bool(bool),
    Number(JsonNumber),
    String(String),
    Array(Vec<Json>),
    /// The members of an object, in the order in which they are held.
    Object(Vec<Member>),
}

/// What a [`JsonNumber`] stands for: an integer, whichever way it was
/// written down, or the text of another number.
pub enum NumberValue {
    Int(int),
    Float(Seq<char>),
}

/// What a [`Member`] stands for.
pub struct MemberValue {
    pub name: Seq<char>,
    pub value: JsonValue,
}

/// What a [`Json`] stands for.
pub enum JsonValue {
    Null,
    Bool(bool),
    Number(NumberValue),
    String(Seq<char>),
    Array(Seq<JsonValue>),
    Object(Seq<MemberValue>),
}

impl View for JsonNumber {
    type V = NumberValue;

    open spec fn view(&self) -> NumberValue {
        match self {
            JsonNumber::PosInt(n) => NumberValue::Int(*n as int),
            JsonNumber::NegInt(n) => NumberValue::Int(*n as int),
            JsonNumber::Float(text) => NumberValue::Float(text@),
        }
    }
}

impl View for Json {
    type V = JsonValue;

    open spec fn view(&self) -> JsonValue
        decreases self,
    {
        match self {
            Json::Null => JsonValue::Null,
            Json::Bool(b) => JsonValue::Bool(*b),
            Json::Number(n) => JsonValue::Number(n@),
            Json::String(s) => JsonValue::String(s@),
            Json::Array(items) => JsonValue::Array(
                Seq::new(
                    items@.len(),
                    |i: int|
                        if 0 <= i < items@.len() {
                            items@[i].view()
                        } else {
                            JsonValue::Null
                        },
                ),
            ),
            Json::Object(members) => JsonValue::Object(
                Seq::new(
                    members@.len(),
                    |i: int|
                        if 0 <= i < members@.len() {
                            MemberValue {
                                name: members@[i].name@,
                                value: members@[i].value.view(),
                            }
                        } else {
                            MemberValue { name: Seq::empty(), value: JsonValue::Null }
                        },
                ),
            ),
        }
    }
}

/// The views of a list of documents.
pub open spec fn items_view(items: Seq<Json>) -> Seq<JsonValue> {
    Seq::new(items.len(), |i: int| items[i]@)
}

/// The views of an object's members.
pub open spec fn members_view(members: Seq<Member>) -> Seq<MemberValue> {
    Seq::new(
        members.len(),
        |i: int| MemberValue { name: members[i].name@, value: members[i].value@ },
    )
}

/// The view of an array is the list of its items' views.
pub proof fn lemma_array_view(items: Vec<Json>)
    ensures
        Json::Array(items)@ == JsonValue::Array(items_view(items@)),
{
    assert(Json::Array(items)@->Array_0 =~= items_view(items@));
}

/// The view of an object is the list of its members' views.
pub proof fn lemma_object_view(members: Vec<Member>)
    ensures
        Json::Object(members)@ == JsonValue::Object(members_view(members@)),
{
    assert(Json::Object(members)@->Object_0 =~= members_view(members@));
}

/// The view of a document that may be missing.
pub open spec fn json_option_view(doc: Option<Json>) -> Option<JsonValue> {
    match doc {
        Some(d) => Some(d@),
        None => None,
    }
}

/// The view of a text that may be missing.
pub open spec fn text_option_view(text: Option<String>) -> Option<Seq<char>> {
    match text {
        Some(t) => Some(t@),
        None => None,
    }
}

/// The document held under `name`: that of the first member so named.
pub open spec fn member_of(members: Seq<MemberValue>, name: Seq<char>) -> Option<JsonValue>
    decreases members.len(),
{
    if members.len() == 0 {
        None
    } else if members[0].name == name {
        Some(members[0].value)
    } else {
        member_of(members.drop_first(), name)
    }
}

/// A member that follows others, none of which has its name, is the one
/// found under that name.
pub proof fn lemma_member_of_first_match(members: Seq<MemberValue>, name: Seq<char>, at: int)
    requires
        0 <= at < members.len(),
        members[at].name == name,
        forall|j: int| 0 <= j < at ==> members[j].name != name,
    ensures
        member_of(members, name) == Some(members[at].value),
    decreases at,
{
    if at > 0 {
        let rest = members.drop_first();
        assert(rest[at - 1] == members[at]);
        assert forall|j: int| 0 <= j < at - 1 implies rest[j].name != name by {
            assert(rest[j] == members[j + 1]);
        }
        lemma_member_of_first_match(rest, name, at - 1);
    }
}

/// Where no member has the name, nothing is found under it.
pub proof fn lemma_member_of_absent(members: Seq<MemberValue>, name: Seq<char>)
    requires
        forall|j: int| 0 <= j < members.len() ==> members[j].name != name,
    ensures
        member_of(members, name) is None,
    decreases members.len(),
{
    if members.len() > 0 {
        let rest = members.drop_first();
        assert forall|j: int| 0 <= j < rest.len() implies rest[j].name != name by {
            assert(rest[j] == members[j + 1]);
        }
        lemma_member_of_absent(rest, name);
    }
}

impl JsonNumber {
    /// The integer that the number is, if it is one.
    pub fn as_integer(&self) -> (n: Option<i128>)
        ensures
            match n {
                Some(value) => self@ == NumberValue::Int(value as int),
                None => self@ is Float,
            },
    {
        match self {
            JsonNumber::PosInt(value) => Some(*value as i128),
            JsonNumber::NegInt(value) => Some(*value as i128),
            JsonNumber::Float(_) => None,
        }
    }

    /// A copy of the number.
    pub fn duplicate(&self) -> (copy: JsonNumber)
        ensures
            copy == *self,
    {
        match self {
            JsonNumber::PosInt(n) => JsonNumber::PosInt(*n),
            JsonNumber::NegInt(n) => JsonNumber::NegInt(*n),
            JsonNumber::Float(text) => JsonNumber::Float(text.clone()),
        }
    }
}

impl Json {
    /// A copy of the document, member by member.
    pub fn duplicate(&self) -> (copy: Json)
        ensures
            copy@ == self@,
        decreases self,
    {
        match self {
            Json::Null => Json::Null,
            Json::Bool(b) => Json::Bool(*b),
            Json::Number(n) => Json::Number(n.duplicate()),
            Json::String(s) => Json::String(s.clone()),
            Json::Array(items) => {
                let mut copies: Vec<Json> = Vec::new();
                let mut i: usize = 0;
                while i < items.len()
                    invariant
                        *self == Json::Array(*items),
                        i <= items.len(),
                        copies@.len() == i,
                        forall|j: int| 0 <= j < i ==> copies@[j]@ == items@[j]@,
                    decreases items.len() - i,
                {
                    proof {
                        assert(decreases_to!(*self => self->Array_0));
                        assert(decreases_to!(*items => items[i as int]));
                    }
                    let copy = items[i].duplicate();
                    copies.push(copy);
                    i += 1;
                }
                proof {
                    lemma_array_view(copies);
                    lemma_array_view(*items);
                    assert(items_view(copies@) =~= items_view(items@));
                }
                Json::Array(copies)
            },
            Json::Object(members) => {
                let mut copies: Vec<Member> = Vec::new();
                let mut i: usize = 0;
                while i < members.len()
                    invariant
                        *self == Json::Object(*members),
                        i <= members.len(),
                        copies@.len() == i,
                        forall|j: int|
                            0 <= j < i ==> copies@[j].name@ == members@[j].name@ && copies@[j].value@
                                == members@[j].value@,
                    decreases members.len() - i,
                {
                    proof {
                        assert(decreases_to!(*self => self->Object_0));
                        assert(decreases_to!(*members => members[i as int]));
                        assert(decreases_to!(members[i as int] => members[i as int].value));
                    }
                    let name = members[i].name.clone();
                    let value = members[i].value.duplicate();
                    copies.push(Member { name, value });
                    i += 1;
                }
                proof {
                    lemma_object_view(copies);
                    lemma_object_view(*members);
                    assert(members_view(copies@) =~= members_view(members@));
                }
                Json::Object(copies)
            },
        }
    }

    /// The document that an object holds under `name`, if `self` is an
    /// object with such a member. Of several members with one name the
    /// first counts.
    pub fn member<'a>(&'a self, name: &str) -> (found: Option<&'a Json>)
        ensures
            match found {
                Some(value) => self@ is Object && member_of(self@->Object_0, name@) == Some(
                    value@,
                ),
                None => !(self@ is Object) || member_of(self@->Object_0, name@) is None,
            },
    {
        match self {
            Json::Object(members) => {
                proof {
                    lemma_object_view(*members);
                }
                let wanted = name.to_owned();
                let mut i: usize = 0;
                while i < members.len()
                    invariant
                        i <= members.len(),
                        wanted@ == name@,
                        self@ == JsonValue::Object(members_view(members@)),
                        forall|j: int| 0 <= j < i ==> members@[j].name@ != name@,
                    decreases members.len() - i,
                {
                    if members[i].name == wanted {
                        proof {
                            lemma_member_of_first_match(members_view(members@), name@, i as int);
                        }
                        return Some(&members[i].value);
                    }
                    i += 1;
                }
                proof {
                    lemma_member_of_absent(members_view(members@), name@);
                }
                None
            },
            _ => None,
        }
    }
}

/// `serde_json::Value`, the document tree of `serde_json`. Nothing is known
/// of what a value holds.
#[verifier::external_type_specification]
#[verifier::external_body]
pub struct ExValue(serde_json::Value);

/// `serde_json::Number`, a number in a `serde_json::Value`. Nothing is
/// known of what a value holds.
#[verifier::external_type_specification]
#[verifier::external_body]
pub struct ExNumber(serde_json::Number);

/// The document that `serde_json::from_str` reads from a text, or `None`
/// where it reports an error.
pub uninterp spec fn json_of_text(text: Seq<char>) -> Option<JsonValue>;

/// The text that `serde_json::to_string` writes for a document, or `None`
/// where the document holds a number that `serde_json` cannot read.
pub uninterp spec fn text_of_json(doc: JsonValue) -> Option<Seq<char>>;

/// Whether the wire carries a document unchanged: whether `serde_json`
/// writes it as a text, and reads from that text the same document again.
///
/// It does so for the documents it has read itself. It does not for an
/// object whose members are held in another order than `serde_json` keeps
/// them in, or under one name twice, nor for a number whose text is not the
/// one that `serde_json` prints for it.
pub open spec fn carried_unchanged(doc: JsonValue) -> bool {
    match text_of_json(doc) {
        Some(text) => json_of_text(text) == Some(doc),
        None => false,
    }
}

/// Moves a `serde_json::Number` into a [`JsonNumber`]: `as_u64` tells an
/// integer of zero or more, `as_i64` a negative one, and any other number
/// is kept as the text that its `Display` prints.
#[verifier::external_body]
fn number_of_outside(n: &serde_json::Number) -> JsonNumber {
    match (n.as_u64(), n.as_i64()) {
        (Some(u), _) => JsonNumber::PosInt(u),
        (None, Some(i)) => JsonNumber::NegInt(i),
        (None, None) => JsonNumber::Float(n.to_string()),
    }
}

/// Moves a `serde_json::Value` into a [`Json`], variant by variant. The
/// members of an object come in the order in which `serde_json::Map::iter`
/// yields them.
#[verifier::external_body]
pub(crate) fn json_of_outside(value: &serde_json::Value) -> Json {
    match value {
        serde_json::Value::Null => Json::Null,
        serde_json::Value::Bool(b) => Json::Bool(*b),
        serde_json::Value::Number(n) => Json::Number(number_of_outside(n)),
        serde_json::Value::String(s) => Json::String(s.clone()),
        serde_json::Value::Array(items) => Json::Array(items.iter().map(json_of_outside).collect()),
        serde_json::Value::Object(map) => Json::Object(
            map.iter().map(|(k, v)| Member { name: k.clone(), value: json_of_outside(v) }).collect(),
        ),
    }
}

/// Moves a [`JsonNumber`] into a `serde_json::Number`: an integer through
/// `From`, a text through the `FromStr` of `serde_json::Number`, whose error
/// gives `None`.
#[verifier::external_body]
fn outside_of_number(n: &JsonNumber) -> Option<serde_json::Number> {
    match n {
        JsonNumber::PosInt(u) => Some(serde_json::Number::from(*u)),
        JsonNumber::NegInt(i) => Some(serde_json::Number::from(*i)),
        JsonNumber::Float(text) => text.parse::<serde_json::Number>().ok(),
    }
}

/// Moves a [`Member`] into a name and a `serde_json::Value`.
#[verifier::external_body]
fn outside_of_member(member: &Member) -> Option<(String, serde_json::Value)> {
    Some((member.name.clone(), outside_of_json(&member.value)?))
}

/// Moves a [`Json`] into a `serde_json::Value`, variant by variant. It is
/// `None` where a number inside has no `serde_json::Number`.
#[verifier::external_body]
pub(crate) fn outside_of_json(doc: &Json) -> Option<serde_json::Value> {
    Some(match doc {
        Json::Null => serde_json::Value::Null,
        Json::Bool(b) => serde_json::Value::Bool(*b),
        Json::Number(n) => serde_json::Value::Number(outside_of_number(n)?),
        Json::String(s) => serde_json::Value::String(s.clone()),
        Json::Array(a) => serde_json::Value::Array(a.iter().map(outside_of_json).collect::<Option<_>>()?),
        Json::Object(m) => serde_json::Value::Object(m.iter().map(outside_of_member).collect::<Option<_>>()?),
    })
}

/// Reads a document with `serde_json::from_str`. The result is the one that
/// [`json_of_text`] names: it depends on the text alone.
#[verifier::external_body]
pub(crate) fn parse_text(text: &str) -> (doc: Option<Json>)
    ensures
        json_option_view(doc) == json_of_text(text@),
{
    match serde_json::from_str::<serde_json::Value>(text) {
        Ok(value) => Some(json_of_outside(&value)),
        Err(_) => None,
    }
}

/// Writes a document with `serde_json::to_string`. The result is the one
/// that [`text_of_json`] names: it depends on what the document stands for
/// alone.
#[verifier::external_body]
pub(crate) fn render_text(doc: &Json) -> (text: Option<String>)
    ensures
        text_option_view(text) == text_of_json(doc@),
{
    match outside_of_json(doc) {
        Some(value) => serde_json::to_string(&value).ok(),
        None => None,
    }
}

} // verus!
