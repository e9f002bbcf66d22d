use peer_negotiator::codec::{decode, encode, envelope_from_json, envelope_to_json, DecodeError};
use peer_negotiator::json::Json;
use peer_negotiator::message::{
    Candidate, Participants, Room, SDPMessage, SignalingMessage, SocketMessage,
};

fn text(s: &str) -> String {
    String::from(s)
}

fn new_user() -> SocketMessage {
    SocketMessage::NewUser { content: Participants { user_from: text("a"), user_to: text("b") } }
}

fn candidate() -> Candidate {
    Candidate {
        candidate: text("candidate:1 1 UDP 2122252543 192.168.0.2 54321 typ host"),
        sdp_mid: text("0"),
        sdp_m_line_index: 3,
    }
}

fn samples() -> Vec<&'static str> {
    vec![
        r#"{"type":"newUser","content":{"userFrom":"alice","userTo":"bob"}}"#,
        r#"{"type":"joined_room","content":{"room":"r1"}}"#,
        r#"{"type":"signal_message_from_client","content":{"signalType":"userHere","message":7}}"#,
        r#"{"type":"signal_message_from_client","content":{"signalType":"ice_candidate","message":{"candidate":"candidate:1 1 UDP 1 10.0.0.1 9 typ host","sdpMid":"0","sdpMLineIndex":0}}}"#,
        r#"{"type":"signal_message_from_client","content":{"signalType":"SDP","message":{"type":"offer","sdp":"v=0\r\n"}}}"#,
        r#"{"type":"signal_message_from_client","content":{"signalType":"SDP","message":{"type":"answer","sdp":"v=0\r\n"}}}"#,
        r#"{"type":"signal_message_from_client","content":{"signalType":"SDP","message":{"type":"pranswer","sdp":""}}}"#,
        r#"{"type":"signal_message_from_client","content":{"signalType":"SDP","message":{"type":"rollback","sdp":""}}}"#,
        r#"{"type":"signal_message_to_client","content":{"signalType":"userHere","message":65535}}"#,
        r#"{"type":"signal_message_to_client","content":{"signalType":"ice_candidate","message":{"candidate":"c","sdpMid":"data","sdpMLineIndex":2}}}"#,
        r#"{"type":"signal_message_to_client","content":{"signalType":"SDP","message":{"type":"offer","sdp":"s"}}}"#,
    ]
}

#[test]
fn encode_after_decode_gives_the_sample_back() {
    for sample in samples() {
        let envelope = decode(sample).expect("a sample decodes");
        assert_eq!(encode(&envelope), sample);
    }
}

#[test]
fn decode_after_encode_gives_the_envelope_back() {
    let envelopes = vec![
        new_user(),
        SocketMessage::JoinedRoom { content: Room { room: text("r \"1\"\n") } },
        SocketMessage::SignalMessageFromClient {
            content: SignalingMessage::UserHere { message: 0 },
        },
        SocketMessage::SignalMessageToClient {
            content: SignalingMessage::ICECandidate { message: candidate() },
        },
        SocketMessage::SignalMessageToClient {
            content: SignalingMessage::SDP {
                message: SDPMessage { type_: text("no such kind"), sdp: text("v=0\r\n\u{e9}") },
            },
        },
    ];
    for envelope in envelopes {
        assert_eq!(decode(&encode(&envelope)), Ok(envelope));
    }
}

#[test]
fn encode_new_user_exact_text() {
    assert_eq!(
        encode(&new_user()),
        r#"{"type":"newUser","content":{"userFrom":"a","userTo":"b"}}"#
    );
}

#[test]
fn encode_candidate_exact_text() {
    let envelope = SocketMessage::SignalMessageFromClient {
        content: SignalingMessage::ICECandidate { message: candidate() },
    };
    assert_eq!(
        encode(&envelope),
        r#"{"type":"signal_message_from_client","content":{"signalType":"ice_candidate","message":{"candidate":"candidate:1 1 UDP 2122252543 192.168.0.2 54321 typ host","sdpMid":"0","sdpMLineIndex":3}}}"#
    );
}

#[test]
fn encode_escapes_text() {
    let envelope = SocketMessage::JoinedRoom { content: Room { room: text("a\"b\\c\n") } };
    assert_eq!(encode(&envelope), r#"{"type":"joined_room","content":{"room":"a\"b\\c\n"}}"#);
}

#[test]
fn decode_joined_room() {
    assert_eq!(
        decode(r#"{ "type": "joined_room", "content": { "room": "r1" } }"#),
        Ok(SocketMessage::JoinedRoom { content: Room { room: text("r1") } })
    );
}

#[test]
fn decode_accepts_any_order_and_extra_fields() {
    assert_eq!(
        decode(r#"{"content":{"userTo":"b","extra":[1,2],"userFrom":"a"},"id":5,"type":"newUser"}"#),
        Ok(new_user())
    );
}

#[test]
fn decode_user_here_to_client() {
    assert_eq!(
        decode(r#"{"type":"signal_message_to_client","content":{"signalType":"userHere","message":42}}"#),
        Ok(SocketMessage::SignalMessageToClient {
            content: SignalingMessage::UserHere { message: 42 }
        })
    );
}

#[test]
fn decode_unknown_type() {
    assert_eq!(decode(r#"{"type":"bye","content":{}}"#), Err(DecodeError::UnknownType));
    assert_eq!(decode(r#"{"content":{"room":"r1"}}"#), Err(DecodeError::UnknownType));
    assert_eq!(decode(r#"{"type":3,"content":{"room":"r1"}}"#), Err(DecodeError::UnknownType));
    assert_eq!(decode(r#"{}"#), Err(DecodeError::UnknownType));
}

#[test]
fn decode_unknown_signal_type() {
    assert_eq!(
        decode(r#"{"type":"signal_message_to_client","content":{"signalType":"wave","message":1}}"#),
        Err(DecodeError::UnknownType)
    );
    assert_eq!(
        decode(r#"{"type":"signal_message_to_client","content":{"message":1}}"#),
        Err(DecodeError::UnknownType)
    );
}

#[test]
fn decode_malformed_text() {
    assert_eq!(decode(""), Err(DecodeError::Malformed));
    assert_eq!(decode("{\"type\":\"newUser\""), Err(DecodeError::Malformed));
    assert_eq!(decode("not json"), Err(DecodeError::Malformed));
}

#[test]
fn decode_malformed_document() {
    assert_eq!(decode("[]"), Err(DecodeError::Malformed));
    assert_eq!(decode("3"), Err(DecodeError::Malformed));
    assert_eq!(decode("\"newUser\""), Err(DecodeError::Malformed));
}

#[test]
fn decode_malformed_payload() {
    assert_eq!(decode(r#"{"type":"newUser"}"#), Err(DecodeError::Malformed));
    assert_eq!(
        decode(r#"{"type":"newUser","content":{"userFrom":"a"}}"#),
        Err(DecodeError::Malformed)
    );
    assert_eq!(
        decode(r#"{"type":"newUser","content":{"userFrom":"a","userTo":1}}"#),
        Err(DecodeError::Malformed)
    );
    assert_eq!(decode(r#"{"type":"joined_room","content":"r1"}"#), Err(DecodeError::Malformed));
    assert_eq!(
        decode(r#"{"type":"signal_message_to_client"}"#),
        Err(DecodeError::Malformed)
    );
    assert_eq!(
        decode(r#"{"type":"signal_message_to_client","content":3}"#),
        Err(DecodeError::Malformed)
    );
    assert_eq!(
        decode(r#"{"type":"signal_message_to_client","content":{"signalType":"userHere"}}"#),
        Err(DecodeError::Malformed)
    );
    assert_eq!(
        decode(r#"{"type":"signal_message_to_client","content":{"signalType":"SDP","message":{"type":"offer"}}}"#),
        Err(DecodeError::Malformed)
    );
    assert_eq!(
        decode(r#"{"type":"signal_message_to_client","content":{"signalType":"ice_candidate","message":{"candidate":"c","sdpMid":"0"}}}"#),
        Err(DecodeError::Malformed)
    );
}

#[test]
fn decode_channel_id_range() {
    let envelope = |id: &str| {
        format!(
            r#"{{"type":"signal_message_to_client","content":{{"signalType":"userHere","message":{}}}}}"#,
            id
        )
    };
    assert_eq!(
        decode(&envelope("65535")),
        Ok(SocketMessage::SignalMessageToClient {
            content: SignalingMessage::UserHere { message: 65535 }
        })
    );
    assert_eq!(decode(&envelope("65536")), Err(DecodeError::Malformed));
    assert_eq!(decode(&envelope("-1")), Err(DecodeError::Malformed));
    assert_eq!(decode(&envelope("1.5")), Err(DecodeError::Malformed));
    assert_eq!(decode(&envelope("\"1\"")), Err(DecodeError::Malformed));
}

#[test]
fn envelope_to_json_builds_the_tagged_object() {
    let tree = envelope_to_json(&SocketMessage::JoinedRoom { content: Room { room: text("r1") } });
    assert_eq!(
        tree,
        Json::Object(vec![
            (text("type"), Json::Text(text("joined_room"))),
            (text("content"), Json::Object(vec![(text("room"), Json::Text(text("r1")))])),
        ])
    );
}

#[test]
fn envelope_from_json_reads_the_first_of_equal_keys() {
    let tree = Json::Object(vec![
        (text("type"), Json::Text(text("joined_room"))),
        (text("content"), Json::Object(vec![(text("room"), Json::Text(text("first")))])),
        (text("content"), Json::Object(vec![(text("room"), Json::Text(text("second")))])),
    ]);
    assert_eq!(
        envelope_from_json(&tree),
        Ok(SocketMessage::JoinedRoom { content: Room { room: text("first") } })
    );
}

#[test]
fn envelope_from_json_rejects_other_numbers() {
    let tree = Json::Object(vec![
        (text("type"), Json::Text(text("signal_message_to_client"))),
        (
            text("content"),
            Json::Object(vec![
                (text("signalType"), Json::Text(text("userHere"))),
                (text("message"), Json::Number(None)),
            ]),
        ),
    ]);
    assert_eq!(envelope_from_json(&tree), Err(DecodeError::Malformed));
}
