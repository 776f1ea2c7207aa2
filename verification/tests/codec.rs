use chat_hub::envelope::{
    decode, encode, Code, Envelope, EventKind, MalformedEnvelope, Payload, UserLogin,
};
use chat_hub::json::{Json, JsonNumber, Member};

fn member(name: &str, value: Json) -> Member {
    Member { name: name.to_string(), value }
}

fn room_message(data: Json) -> Envelope {
    Envelope {
        code: Code::Event,
        event: Some(EventKind::RoomMessage),
        session_id: None,
        data: Payload::Opaque(data),
    }
}

#[test]
fn unrecognized_event_is_malformed() {
    assert_eq!(decode("{\"a\":1,\"e\":99,\"d\":{}}"), Err(MalformedEnvelope));
}

#[test]
fn login_envelope_is_written_and_read_back() {
    let envelope = Envelope {
        code: Code::Event,
        event: Some(EventKind::Login),
        session_id: None,
        data: Payload::Credential(UserLogin { token: "abc".to_string() }),
    };
    let text = encode(&envelope).unwrap();
    assert_eq!(text, "{\"a\":1,\"d\":{\"token\":\"abc\"},\"e\":0,\"i\":null}");
    assert_eq!(decode(&text), Ok(envelope));
}

#[test]
fn login_envelope_is_read_from_the_wire() {
    let decoded = decode("{\"a\":1,\"e\":0,\"i\":null,\"d\":{\"token\":\"t0k3n\"}}");
    assert_eq!(
        decoded,
        Ok(Envelope {
            code: Code::Event,
            event: Some(EventKind::Login),
            session_id: None,
            data: Payload::Credential(UserLogin { token: "t0k3n".to_string() }),
        })
    );
}

#[test]
fn envelopes_of_every_kind_round_trip() {
    let nested = Json::Object(vec![
        member("delta", Json::Number(JsonNumber::NegInt(-3))),
        member("room", Json::Number(JsonNumber::PosInt(7))),
        member("tags", Json::Array(vec![Json::Bool(true), Json::Null])),
        member("text", Json::String("hi \"there\"\n".to_string())),
        member("zoom", Json::Number(JsonNumber::Float("1.5".to_string()))),
    ]);
    let envelopes = vec![
        room_message(nested),
        Envelope {
            code: Code::Event,
            event: Some(EventKind::RoomJoin),
            session_id: Some("s-1".to_string()),
            data: Payload::Opaque(Json::Number(JsonNumber::PosInt(u64::MAX))),
        },
        Envelope {
            code: Code::Event,
            event: Some(EventKind::RoomLeave),
            session_id: None,
            data: Payload::Opaque(Json::Null),
        },
        Envelope {
            code: Code::Disconnect,
            event: None,
            session_id: None,
            data: Payload::Opaque(Json::String("bye".to_string())),
        },
        Envelope {
            code: Code::UserLogin,
            event: None,
            session_id: Some("".to_string()),
            data: Payload::Opaque(Json::Object(vec![])),
        },
        Envelope {
            code: Code::Event,
            event: Some(EventKind::Login),
            session_id: Some("x".to_string()),
            data: Payload::Credential(UserLogin { token: "".to_string() }),
        },
    ];
    for envelope in envelopes {
        let text = encode(&envelope).unwrap();
        assert_eq!(decode(&text), Ok(envelope));
    }
}

#[test]
fn object_members_are_read_back_in_name_order() {
    let written = room_message(Json::Object(vec![
        member("b", Json::Null),
        member("a", Json::Null),
    ]));
    let text = encode(&written).unwrap();
    assert_eq!(text, "{\"a\":1,\"d\":{\"a\":null,\"b\":null},\"e\":1,\"i\":null}");
    let read = room_message(Json::Object(vec![
        member("a", Json::Null),
        member("b", Json::Null),
    ]));
    assert_eq!(decode(&text), Ok(read));
}

#[test]
fn room_message_payload_is_kept_as_it_came() {
    let decoded = decode("{\"a\":1,\"e\":1,\"d\":{\"n\":-2,\"x\":2.5,\"s\":\"v\"}}").unwrap();
    assert_eq!(
        decoded,
        room_message(Json::Object(vec![
            member("n", Json::Number(JsonNumber::NegInt(-2))),
            member("s", Json::String("v".to_string())),
            member("x", Json::Number(JsonNumber::Float("2.5".to_string()))),
        ]))
    );
}

#[test]
fn missing_event_and_session_read_as_none() {
    let decoded = decode("{\"a\":0,\"d\":null}");
    assert_eq!(
        decoded,
        Ok(Envelope {
            code: Code::Disconnect,
            event: None,
            session_id: None,
            data: Payload::Opaque(Json::Null),
        })
    );
}

#[test]
fn other_members_are_passed_over() {
    let decoded = decode("{\"a\":11,\"d\":1,\"z\":[1,2],\"e\":null,\"i\":\"sid\"}");
    assert_eq!(
        decoded,
        Ok(Envelope {
            code: Code::UserLogin,
            event: None,
            session_id: Some("sid".to_string()),
            data: Payload::Opaque(Json::Number(JsonNumber::PosInt(1))),
        })
    );
}

#[test]
fn login_payload_may_hold_more_than_the_token() {
    let decoded = decode("{\"a\":1,\"e\":0,\"d\":{\"extra\":1,\"token\":\"k\"}}");
    assert_eq!(
        decoded,
        Ok(Envelope {
            code: Code::Event,
            event: Some(EventKind::Login),
            session_id: None,
            data: Payload::Credential(UserLogin { token: "k".to_string() }),
        })
    );
}

#[test]
fn text_that_is_no_json_is_malformed() {
    assert_eq!(decode(""), Err(MalformedEnvelope));
    assert_eq!(decode("{\"a\":1,"), Err(MalformedEnvelope));
    assert_eq!(decode("hello"), Err(MalformedEnvelope));
}

#[test]
fn document_that_is_no_object_is_malformed() {
    assert_eq!(decode("[1,1,null,{}]"), Err(MalformedEnvelope));
    assert_eq!(decode("1"), Err(MalformedEnvelope));
    assert_eq!(decode("null"), Err(MalformedEnvelope));
}

#[test]
fn unrecognized_code_is_malformed() {
    assert_eq!(decode("{\"a\":2,\"d\":{}}"), Err(MalformedEnvelope));
    assert_eq!(decode("{\"a\":256,\"d\":{}}"), Err(MalformedEnvelope));
    assert_eq!(decode("{\"a\":-1,\"d\":{}}"), Err(MalformedEnvelope));
    assert_eq!(decode("{\"a\":1.0,\"e\":1,\"d\":{}}"), Err(MalformedEnvelope));
    assert_eq!(decode("{\"a\":\"1\",\"e\":1,\"d\":{}}"), Err(MalformedEnvelope));
}

#[test]
fn missing_code_is_malformed() {
    assert_eq!(decode("{\"e\":1,\"d\":{}}"), Err(MalformedEnvelope));
    assert_eq!(decode("{}"), Err(MalformedEnvelope));
}

#[test]
fn event_on_a_frame_that_is_no_event_is_malformed() {
    assert_eq!(decode("{\"a\":0,\"e\":1,\"d\":{}}"), Err(MalformedEnvelope));
    assert_eq!(decode("{\"a\":11,\"e\":0,\"d\":{\"token\":\"k\"}}"), Err(MalformedEnvelope));
}

#[test]
fn event_frame_without_event_is_malformed() {
    assert_eq!(decode("{\"a\":1,\"d\":{}}"), Err(MalformedEnvelope));
    assert_eq!(decode("{\"a\":1,\"e\":null,\"d\":{}}"), Err(MalformedEnvelope));
}

#[test]
fn event_that_is_no_number_is_malformed() {
    assert_eq!(decode("{\"a\":1,\"e\":\"1\",\"d\":{}}"), Err(MalformedEnvelope));
    assert_eq!(decode("{\"a\":1,\"e\":4,\"d\":{}}"), Err(MalformedEnvelope));
    assert_eq!(decode("{\"a\":1,\"e\":0.5,\"d\":{}}"), Err(MalformedEnvelope));
}

#[test]
fn session_id_that_is_no_string_is_malformed() {
    assert_eq!(decode("{\"a\":1,\"e\":1,\"i\":5,\"d\":{}}"), Err(MalformedEnvelope));
}

#[test]
fn missing_payload_is_malformed() {
    assert_eq!(decode("{\"a\":1,\"e\":1}"), Err(MalformedEnvelope));
    assert_eq!(decode("{\"a\":0}"), Err(MalformedEnvelope));
}

#[test]
fn login_without_a_token_is_malformed() {
    assert_eq!(decode("{\"a\":1,\"e\":0,\"d\":{}}"), Err(MalformedEnvelope));
    assert_eq!(decode("{\"a\":1,\"e\":0,\"d\":{\"token\":5}}"), Err(MalformedEnvelope));
    assert_eq!(decode("{\"a\":1,\"e\":0,\"d\":\"token\"}"), Err(MalformedEnvelope));
    assert_eq!(decode("{\"a\":1,\"e\":0,\"d\":null}"), Err(MalformedEnvelope));
}

#[test]
fn codes_have_their_wire_numbers() {
    assert_eq!(Code::Disconnect.to_wire(), 0);
    assert_eq!(Code::Event.to_wire(), 1);
    assert_eq!(Code::UserLogin.to_wire(), 11);
    assert_eq!(Code::from_wire(0), Some(Code::Disconnect));
    assert_eq!(Code::from_wire(1), Some(Code::Event));
    assert_eq!(Code::from_wire(11), Some(Code::UserLogin));
    assert_eq!(Code::from_wire(2), None);
    assert_eq!(Code::from_wire(10), None);
    assert_eq!(Code::from_wire(255), None);
}

#[test]
fn events_have_their_wire_numbers() {
    assert_eq!(EventKind::Login.to_wire(), 0);
    assert_eq!(EventKind::RoomMessage.to_wire(), 1);
    assert_eq!(EventKind::RoomJoin.to_wire(), 2);
    assert_eq!(EventKind::RoomLeave.to_wire(), 3);
    for n in 0..=255u8 {
        match EventKind::from_wire(n) {
            Some(event) => assert_eq!(event.to_wire(), n),
            None => assert!(n > 3),
        }
    }
}

#[test]
fn envelope_is_read_from_a_document() {
    let doc = Json::Object(vec![
        member("d", Json::Array(vec![])),
        member("a", Json::Number(JsonNumber::NegInt(1))),
        member("e", Json::Number(JsonNumber::PosInt(2))),
        member("e", Json::Number(JsonNumber::PosInt(3))),
    ]);
    assert_eq!(
        Envelope::from_json(&doc),
        Ok(Envelope {
            code: Code::Event,
            event: Some(EventKind::RoomJoin),
            session_id: None,
            data: Payload::Opaque(Json::Array(vec![])),
        })
    );
}

#[test]
fn envelope_is_written_as_a_document() {
    let envelope = Envelope {
        code: Code::Event,
        event: Some(EventKind::Login),
        session_id: Some("s".to_string()),
        data: Payload::Credential(UserLogin { token: "k".to_string() }),
    };
    assert_eq!(
        envelope.to_json(),
        Json::Object(vec![
            member("a", Json::Number(JsonNumber::PosInt(1))),
            member("e", Json::Number(JsonNumber::PosInt(0))),
            member("i", Json::String("s".to_string())),
            member("d", Json::Object(vec![member("token", Json::String("k".to_string()))])),
        ])
    );
    assert_eq!(Envelope::from_json(&envelope.to_json()), Ok(envelope));
}

#[test]
fn number_that_is_no_json_number_cannot_be_written() {
    let envelope = room_message(Json::Number(JsonNumber::Float("one".to_string())));
    assert_eq!(encode(&envelope), None);
}

#[test]
fn integer_is_written_the_same_however_it_is_held() {
    let held_negative = room_message(Json::Number(JsonNumber::NegInt(5)));
    let held_positive = room_message(Json::Number(JsonNumber::PosInt(5)));
    assert_eq!(encode(&held_negative), encode(&held_positive));
    assert_eq!(encode(&held_positive).unwrap(), "{\"a\":1,\"d\":5,\"e\":1,\"i\":null}");
}

#[test]
fn member_of_an_object_is_the_first_of_its_name() {
    let doc = Json::Object(vec![
        member("k", Json::Bool(false)),
        member("k", Json::Bool(true)),
    ]);
    assert_eq!(doc.member("k"), Some(&Json::Bool(false)));
    assert_eq!(doc.member("j"), None);
    assert_eq!(Json::Array(vec![]).member("k"), None);
}

#[test]
fn copy_of_a_document_equals_it() {
    let doc = Json::Object(vec![
        member("list", Json::Array(vec![Json::Null, Json::String("s".to_string())])),
        member("n", Json::Number(JsonNumber::Float("0.25".to_string()))),
    ]);
    assert_eq!(doc.duplicate(), doc);
}

#[test]
fn integer_of_a_number() {
    assert_eq!(JsonNumber::PosInt(u64::MAX).as_integer(), Some(u64::MAX as i128));
    assert_eq!(JsonNumber::NegInt(i64::MIN).as_integer(), Some(i64::MIN as i128));
    assert_eq!(JsonNumber::Float("1.5".to_string()).as_integer(), None);
}
