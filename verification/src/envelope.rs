//! The envelope: the one shape of every frame on the wire.
//!
//! A frame is a JSON object `{ "a": code, "e": event, "i": session id,
//! "d": payload }`. An envelope is read from a document in full or not at
//! all: what does not fit is [`MalformedEnvelope`].

use crate::json::{
    carried_unchanged, json_of_text, lemma_member_of_first_match, lemma_object_view, member_of, members_view,
    parse_text, render_text, text_of_json, text_option_view, Json, JsonNumber, JsonValue, Member,
    MemberValue, NumberValue,
};
use vstd::prelude::*;

verus! {

/// What a frame is for.
#[derive(Debug, Clone, Copy, PartialEq, Eq, Structural)]
pub enum Code {
    /// The connection is closing, on an error or otherwise.
    Disconnect,
    /// The frame carries an event.
    Event,
    /// The frame answers a login.
    UserLogin,
}

/// The kind of an event; only frames coded [`Code::Event`] carry one.
#[derive(Debug, Clone, Copy, PartialEq, Eq, Structural)]
pub enum EventKind {
    /// The client logs in over the socket.
    Login,
    /// A message to a room.
    RoomMessage,
    RoomJoin,
    RoomLeave,
}

/// The credential that a login event carries.
#[derive(Debug, PartialEq, Eq)]
pub struct UserLogin {
    pub token: String,
}

/// What an envelope carries: the credential of a login, or for any other
/// frame a document that the hub passes on unread.
#[derive(Debug, PartialEq, Eq)]
pub enum Payload {
    Credential(UserLogin),
    Opaque(Json),
}

/// One frame.
#[derive(Debug, PartialEq, Eq)]
pub struct Envelope {
    pub code: Code,
    pub event: Option<EventKind>,
    /// Correlates frames of one session; no handler reads it.
    pub session_id: Option<String>,
    pub data: Payload,
}

/// A frame that is no envelope.
#[derive(Debug, Clone, Copy, PartialEq, Eq, Structural)]
pub struct MalformedEnvelope;

/// What a [`Payload`] stands for.
pub enum PayloadView {
    Credential(Seq<char>),
    Opaque(JsonValue),
}

/// What an [`Envelope`] stands for.
pub struct EnvelopeView {
    pub code: Code,
    pub event: Option<EventKind>,
    pub session_id: Option<Seq<char>>,
    pub data: PayloadView,
}

impl View for Payload {
    type V = PayloadView;

    open spec fn view(&self) -> PayloadView {
        match self {
            Payload::Credential(login) => PayloadView::Credential(login.token@),
            Payload::Opaque(doc) => PayloadView::Opaque(doc@),
        }
    }
}

impl View for Envelope {
    type V = EnvelopeView;

    open spec fn view(&self) -> EnvelopeView {
        EnvelopeView {
            code: self.code,
            event: self.event,
            session_id: text_option_view(self.session_id),
            data: self.data@,
        }
    }
}

/// The number that stands for a code on the wire.
pub open spec fn code_number(code: Code) -> int {
    match code {
        Code::Disconnect => 0,
        Code::Event => 1,
        Code::UserLogin => 11,
    }
}

/// The code that a number on the wire stands for.
pub open spec fn code_of_number(n: int) -> Option<Code> {
    if n == 0 {
        Some(Code::Disconnect)
    } else if n == 1 {
        Some(Code::Event)
    } else if n == 11 {
        Some(Code::UserLogin)
    } else {
        None
    }
}

/// The number that stands for an event on the wire.
pub open spec fn event_number(event: EventKind) -> int {
    match event {
        EventKind::Login => 0,
        EventKind::RoomMessage => 1,
        EventKind::RoomJoin => 2,
        EventKind::RoomLeave => 3,
    }
}

/// The event that a number on the wire stands for.
pub open spec fn event_of_number(n: int) -> Option<EventKind> {
    if n == 0 {
        Some(EventKind::Login)
    } else if n == 1 {
        Some(EventKind::RoomMessage)
    } else if n == 2 {
        Some(EventKind::RoomJoin)
    } else if n == 3 {
        Some(EventKind::RoomLeave)
    } else {
        None
    }
}

impl Code {
    /// The number of the code on the wire.
    pub fn to_wire(self) -> (n: u8)
        ensures
            n as int == code_number(self),
    {
        match self {
            Code::Disconnect => 0,
            Code::Event => 1,
            Code::UserLogin => 11,
        }
    }

    /// The code with the number `n`, if there is one.
    pub fn from_wire(n: u8) -> (code: Option<Code>)
        ensures
            code == code_of_number(n as int),
    {
        if n == 0 {
            Some(Code::Disconnect)
        } else if n == 1 {
            Some(Code::Event)
        } else if n == 11 {
            Some(Code::UserLogin)
        } else {
            None
        }
    }
}

impl EventKind {
    /// The number of the event on the wire.
    pub fn to_wire(self) -> (n: u8)
        ensures
            n as int == event_number(self),
    {
        match self {
            EventKind::Login => 0,
            EventKind::RoomMessage => 1,
            EventKind::RoomJoin => 2,
            EventKind::RoomLeave => 3,
        }
    }

    /// The event with the number `n`, if there is one.
    pub fn from_wire(n: u8) -> (event: Option<EventKind>)
        ensures
            event == event_of_number(n as int),
    {
        if n == 0 {
            Some(EventKind::Login)
        } else if n == 1 {
            Some(EventKind::RoomMessage)
        } else if n == 2 {
            Some(EventKind::RoomJoin)
        } else if n == 3 {
            Some(EventKind::RoomLeave)
        } else {
            None
        }
    }
}

/// Every code is the code of its own number.
pub proof fn lemma_code_number_round_trip(code: Code)
    ensures
        code_of_number(code_number(code)) == Some(code),
{
}

/// Every event is the event of its own number.
pub proof fn lemma_event_number_round_trip(event: EventKind)
    ensures
        event_of_number(event_number(event)) == Some(event),
{
}

impl EnvelopeView {
    /// An envelope is valid when exactly the frames coded as events carry
    /// an event, and exactly the login events carry a credential.
    pub open spec fn valid(self) -> bool {
        &&& self.event is Some <==> self.code == Code::Event
        &&& self.data is Credential <==> self.event == Some(EventKind::Login)
    }
}

/// The event that the member `e` of a frame gives: none where the member
/// is missing or null, the event of its number otherwise.
pub open spec fn event_of_member(member: Option<JsonValue>) -> Result<
    Option<EventKind>,
    MalformedEnvelope,
> {
    match member {
        None => Ok(None),
        Some(JsonValue::Null) => Ok(None),
        Some(JsonValue::Number(NumberValue::Int(n))) => match event_of_number(n) {
            Some(event) => Ok(Some(event)),
            None => Err(MalformedEnvelope),
        },
        Some(_) => Err(MalformedEnvelope),
    }
}

/// The session id that the member `i` of a frame gives: none where the
/// member is missing or null, its text where it is a string.
pub open spec fn session_of_member(member: Option<JsonValue>) -> Result<
    Option<Seq<char>>,
    MalformedEnvelope,
> {
    match member {
        None => Ok(None),
        Some(JsonValue::Null) => Ok(None),
        Some(JsonValue::String(text)) => Ok(Some(text)),
        Some(_) => Err(MalformedEnvelope),
    }
}

/// The payload that the member `d` of a frame gives. A login has to carry
/// an object with a string under `token`; any other frame carries what it
/// likes.
pub open spec fn payload_of_member(event: Option<EventKind>, member: JsonValue) -> Result<
    PayloadView,
    MalformedEnvelope,
> {
    if event == Some(EventKind::Login) {
        match member {
            JsonValue::Object(members) => match member_of(members, "token"@) {
                Some(JsonValue::String(token)) => Ok(PayloadView::Credential(token)),
                _ => Err(MalformedEnvelope),
            },
            _ => Err(MalformedEnvelope),
        }
    } else {
        Ok(PayloadView::Opaque(member))
    }
}

/// The envelope that a document is, or [`MalformedEnvelope`].
///
/// The document has to be an object. Its member `a` is the number of a
/// code. Its member `e` is the number of an event where the code is
/// [`Code::Event`], and missing or null otherwise. Its member `i` is a
/// string, or missing or null. Its member `d` is there, and fits the event.
/// Members of other names are passed over.
pub open spec fn envelope_of_json(doc: JsonValue) -> Result<EnvelopeView, MalformedEnvelope> {
    match doc {
        JsonValue::Object(members) => match member_of(members, "a"@) {
            Some(JsonValue::Number(NumberValue::Int(n))) => match (
                code_of_number(n),
                event_of_member(member_of(members, "e"@)),
                session_of_member(member_of(members, "i"@)),
                member_of(members, "d"@),
            ) {
                (Some(code), Ok(event), Ok(session_id), Some(d)) => if (event is Some) != (code
                    == Code::Event) {
                    Err(MalformedEnvelope)
                } else {
                    match payload_of_member(event, d) {
                        Ok(data) => Ok(EnvelopeView { code, event, session_id, data }),
                        Err(e) => Err(e),
                    }
                },
                _ => Err(MalformedEnvelope),
            },
            _ => Err(MalformedEnvelope),
        },
        _ => Err(MalformedEnvelope),
    }
}

/// The document that a payload is written as.
pub open spec fn json_of_payload(data: PayloadView) -> JsonValue {
    match data {
        PayloadView::Credential(token) => JsonValue::Object(
            seq![MemberValue { name: "token"@, value: JsonValue::String(token) }],
        ),
        PayloadView::Opaque(doc) => doc,
    }
}

/// The document that an envelope is written as: an object with the members
/// `a`, `e`, `i` and `d`, in this order, where a missing event or session
/// id is written as null.
pub open spec fn json_of_envelope(envelope: EnvelopeView) -> JsonValue {
    JsonValue::Object(
        seq![
            MemberValue {
                name: "a"@,
                value: JsonValue::Number(NumberValue::Int(code_number(envelope.code))),
            },
            MemberValue {
                name: "e"@,
                value: match envelope.event {
                    Some(event) => JsonValue::Number(NumberValue::Int(event_number(event))),
                    None => JsonValue::Null,
                },
            },
            MemberValue {
                name: "i"@,
                value: match envelope.session_id {
                    Some(text) => JsonValue::String(text),
                    None => JsonValue::Null,
                },
            },
            MemberValue { name: "d"@, value: json_of_payload(envelope.data) },
        ],
    )
}

/// What the result of reading an envelope stands for.
pub open spec fn decoded_view(result: Result<Envelope, MalformedEnvelope>) -> Result<
    EnvelopeView,
    MalformedEnvelope,
> {
    match result {
        Ok(envelope) => Ok(envelope@),
        Err(e) => Err(e),
    }
}

/// What a frame of the given text is: the envelope of the document that the
/// text holds, and malformed where it holds none.
pub open spec fn envelope_of_text(text: Seq<char>) -> Result<EnvelopeView, MalformedEnvelope> {
    match json_of_text(text) {
        Some(doc) => envelope_of_json(doc),
        None => Err(MalformedEnvelope),
    }
}

/// Reading a valid envelope back from the document it was written as gives
/// the envelope again.
///
/// This is the round trip on documents. On the text of a frame it is owed
/// only where the wire carries the document unchanged: see
/// [`lemma_envelope_text_round_trip`].
pub proof fn lemma_envelope_json_round_trip(envelope: EnvelopeView)
    requires
        envelope.valid(),
    ensures
        envelope_of_json(json_of_envelope(envelope)) == Ok::<EnvelopeView, MalformedEnvelope>(
            envelope,
        ),
{
    reveal_strlit("a");
    reveal_strlit("e");
    reveal_strlit("i");
    reveal_strlit("d");
    reveal_strlit("token");
    assert("a"@[0] == 'a' && "e"@[0] == 'e' && "i"@[0] == 'i' && "d"@[0] == 'd');
    let members = json_of_envelope(envelope)->Object_0;
    lemma_member_of_first_match(members, "a"@, 0);
    lemma_member_of_first_match(members, "e"@, 1);
    lemma_member_of_first_match(members, "i"@, 2);
    lemma_member_of_first_match(members, "d"@, 3);
    lemma_code_number_round_trip(envelope.code);
    if let Some(event) = envelope.event {
        lemma_event_number_round_trip(event);
    }
    if let PayloadView::Credential(token) = envelope.data {
        let inner = json_of_payload(envelope.data)->Object_0;
        lemma_member_of_first_match(inner, "token"@, 0);
    }
}

/// Reading a valid envelope back from the text it was written as gives the
/// envelope again, where the wire carries its document unchanged.
///
/// Of other envelopes this does not hold. A payload that is an object with
/// the members `b` and `a`, in this order, is read back with `a` first; a
/// payload that holds a number whose text is no number is not written at
/// all.
pub proof fn lemma_envelope_text_round_trip(envelope: EnvelopeView)
    requires
        envelope.valid(),
        carried_unchanged(json_of_envelope(envelope)),
    ensures
        text_of_json(json_of_envelope(envelope)) matches Some(text) && envelope_of_text(text)
            == Ok::<EnvelopeView, MalformedEnvelope>(envelope),
{
    lemma_envelope_json_round_trip(envelope);
}

/// Whatever envelope a document is read as is valid.
pub proof fn lemma_envelope_of_json_valid(doc: JsonValue)
    ensures
        envelope_of_json(doc) matches Ok(envelope) ==> envelope.valid(),
{
}

/// The code with the number `n`, if there is one.
fn code_of_integer(n: i128) -> (code: Option<Code>)
    ensures
        code == code_of_number(n as int),
{
    if 0 <= n && n <= 255 {
        Code::from_wire(n as u8)
    } else {
        None
    }
}

/// The event with the number `n`, if there is one.
fn event_of_integer(n: i128) -> (event: Option<EventKind>)
    ensures
        event == event_of_number(n as int),
{
    if 0 <= n && n <= 255 {
        EventKind::from_wire(n as u8)
    } else {
        None
    }
}

/// Reads the code of a frame from its member `a`.
fn read_code(member: Option<&Json>) -> (code: Option<Code>)
    ensures
        code == match member {
            Some(value) => match value@ {
                JsonValue::Number(NumberValue::Int(n)) => code_of_number(n),
                _ => None,
            },
            None => None,
        },
{
    match member {
        Some(Json::Number(number)) => match number.as_integer() {
            Some(n) => code_of_integer(n),
            None => None,
        },
        _ => None,
    }
}

/// Reads the event of a frame from its member `e`.
fn read_event(member: Option<&Json>) -> (event: Result<Option<EventKind>, MalformedEnvelope>)
    ensures
        event == event_of_member(
            match member {
                Some(value) => Some(value@),
                None => None,
            },
        ),
{
    match member {
        None => Ok(None),
        Some(Json::Null) => Ok(None),
        Some(Json::Number(number)) => match number.as_integer() {
            Some(n) => match event_of_integer(n) {
                Some(event) => Ok(Some(event)),
                None => Err(MalformedEnvelope),
            },
            None => Err(MalformedEnvelope),
        },
        Some(_) => Err(MalformedEnvelope),
    }
}

/// Reads the session id of a frame from its member `i`.
fn read_session(member: Option<&Json>) -> (session: Result<Option<String>, MalformedEnvelope>)
    ensures
        match session {
            Ok(id) => Ok::<Option<Seq<char>>, MalformedEnvelope>(text_option_view(id)),
            Err(e) => Err(e),
        } == session_of_member(
            match member {
                Some(value) => Some(value@),
                None => None,
            },
        ),
{
    match member {
        None => Ok(None),
        Some(Json::Null) => Ok(None),
        Some(Json::String(text)) => Ok(Some(text.clone())),
        Some(_) => Err(MalformedEnvelope),
    }
}

/// Reads the payload of a frame from its member `d`.
fn read_payload(login: bool, member: &Json) -> (data: Result<Payload, MalformedEnvelope>)
    ensures
        match data {
            Ok(payload) => Ok::<PayloadView, MalformedEnvelope>(payload@),
            Err(e) => Err(e),
        } == payload_of_member(
            if login {
                Some(EventKind::Login)
            } else {
                None
            },
            member@,
        ),
{
    if login {
        match member.member("token") {
            Some(Json::String(token)) => Ok(Payload::Credential(UserLogin { token: token.clone() })),
            _ => Err(MalformedEnvelope),
        }
    } else {
        Ok(Payload::Opaque(member.duplicate()))
    }
}

impl Envelope {
    /// Reads an envelope from a document.
    pub fn from_json(doc: &Json) -> (result: Result<Envelope, MalformedEnvelope>)
        ensures
            decoded_view(result) == envelope_of_json(doc@),
            result matches Ok(envelope) ==> envelope@.valid(),
    {
        let code = match read_code(doc.member("a")) {
            Some(code) => code,
            None => {
                return Err(MalformedEnvelope);
            },
        };
        let event = match read_event(doc.member("e")) {
            Ok(event) => event,
            Err(e) => {
                return Err(e);
            },
        };
        let session_id = match read_session(doc.member("i")) {
            Ok(session_id) => session_id,
            Err(e) => {
                return Err(e);
            },
        };
        let d = match doc.member("d") {
            Some(d) => d,
            None => {
                return Err(MalformedEnvelope);
            },
        };
        let coded_as_event = match code {
            Code::Event => true,
            _ => false,
        };
        if event.is_some() != coded_as_event {
            return Err(MalformedEnvelope);
        }
        let login = match event {
            Some(EventKind::Login) => true,
            _ => false,
        };
        match read_payload(login, d) {
            Ok(data) => Ok(Envelope { code, event, session_id, data }),
            Err(e) => Err(e),
        }
    }

    /// Writes the envelope as a document.
    pub fn to_json(&self) -> (doc: Json)
        ensures
            doc@ == json_of_envelope(self@),
    {
        let event = match self.event {
            Some(event) => Json::Number(JsonNumber::PosInt(event.to_wire() as u64)),
            None => Json::Null,
        };
        let session_id = match &self.session_id {
            Some(text) => Json::String(text.clone()),
            None => Json::Null,
        };
        let data = match &self.data {
            Payload::Credential(login) => {
                let mut inner: Vec<Member> = Vec::new();
                inner.push(
                    Member { name: "token".to_owned(), value: Json::String(login.token.clone()) },
                );
                proof {
                    lemma_object_view(inner);
                    assert(members_view(inner@) =~= json_of_payload(self.data@)->Object_0);
                }
                Json::Object(inner)
            },
            Payload::Opaque(doc) => doc.duplicate(),
        };
        let mut members: Vec<Member> = Vec::new();
        members.push(
            Member {
                name: "a".to_owned(),
                value: Json::Number(JsonNumber::PosInt(self.code.to_wire() as u64)),
            },
        );
        members.push(Member { name: "e".to_owned(), value: event });
        members.push(Member { name: "i".to_owned(), value: session_id });
        members.push(Member { name: "d".to_owned(), value: data });
        proof {
            lemma_object_view(members);
            assert(members_view(members@) =~= json_of_envelope(self@)->Object_0);
        }
        Json::Object(members)
    }
}

/// Reads the envelope that the text of a frame holds.
///
/// The text is read as JSON by `serde_json`; the document it yields is read
/// as [`envelope_of_json`] says. A text that is no JSON is malformed.
pub fn decode(text: &str) -> (result: Result<Envelope, MalformedEnvelope>)
    ensures
        decoded_view(result) == envelope_of_text(text@),
        result matches Ok(envelope) ==> envelope@.valid(),
{
    match parse_text(text) {
        Some(doc) => Envelope::from_json(&doc),
        None => Err(MalformedEnvelope),
    }
}

/// Writes an envelope as the text of a frame: the text that `serde_json`
/// writes for the document of [`json_of_envelope`]. It is `None` only where
/// the payload holds a number that is no JSON number.
///
/// [`decode`] reads the envelope back from the text where the wire carries
/// its document unchanged, and is owed to do so only there.
pub fn encode(envelope: &Envelope) -> (text: Option<String>)
    ensures
        text_option_view(text) == text_of_json(json_of_envelope(envelope@)),
{
    let doc = envelope.to_json();
    render_text(&doc)
}

} // verus!
