//! The wire form of the signaling envelopes: one JSON object per envelope,
//! tagged by `type`, with the payload under `content`.

use crate::json::{fields_view, json_parsed, json_printed, lemma_object_view, Json, JsonValue};
use crate::message::{
    text_is, Candidate, CandidateView, Participants, ParticipantsView, Room, RoomView, SDPMessage,
    SDPMessageView, SignalingMessage, SignalingMessageView, SocketMessage, SocketMessageView,
};
use vstd::prelude::*;

verus! {

/// Why a text was not accepted as an envelope.
#[derive(Debug, PartialEq, Eq, Structural, Clone, Copy)]
pub enum DecodeError {
    /// The `type` or `signalType` tag is missing, is no string, or names no
    /// known kind.
    UnknownType,
    /// The text is not a JSON object, or the payload lacks a field or holds
    /// one of the wrong shape.
    Malformed,
}

/// A field that holds a string.
pub open spec fn text_entry(key: Seq<char>, value: Seq<char>) -> (Seq<char>, JsonValue) {
    (key, JsonValue::Text(value))
}

/// A field that holds an integer below 2^16.
pub open spec fn number_entry(key: Seq<char>, value: u16) -> (Seq<char>, JsonValue) {
    (key, JsonValue::Number(Some(value as u64)))
}

/// A field that holds an object.
pub open spec fn object_entry(key: Seq<char>, fields: Seq<(Seq<char>, JsonValue)>) -> (
    Seq<char>,
    JsonValue,
) {
    (key, JsonValue::Object(fields))
}

/// The payload object of a signal.
pub open spec fn signal_json(signal: SignalingMessageView) -> Seq<(Seq<char>, JsonValue)> {
    match signal {
        SignalingMessageView::UserHere { message } => seq![
            text_entry("signalType"@, "userHere"@),
            number_entry("message"@, message),
        ],
        SignalingMessageView::ICECandidate { message } => seq![
            text_entry("signalType"@, "ice_candidate"@),
            object_entry(
                "message"@,
                seq![
                    text_entry("candidate"@, message.candidate),
                    text_entry("sdpMid"@, message.sdp_mid),
                    number_entry("sdpMLineIndex"@, message.sdp_m_line_index),
                ],
            ),
        ],
        SignalingMessageView::SDP { message } => seq![
            text_entry("signalType"@, "SDP"@),
            object_entry(
                "message"@,
                seq![text_entry("type"@, message.type_), text_entry("sdp"@, message.sdp)],
            ),
        ],
    }
}

/// The JSON object that stands for an envelope on the wire.
pub open spec fn envelope_json(envelope: SocketMessageView) -> JsonValue {
    match envelope {
        SocketMessageView::NewUser { content } => JsonValue::Object(
            seq![
                text_entry("type"@, "newUser"@),
                object_entry(
                    "content"@,
                    seq![
                        text_entry("userFrom"@, content.user_from),
                        text_entry("userTo"@, content.user_to),
                    ],
                ),
            ],
        ),
        SocketMessageView::JoinedRoom { content } => JsonValue::Object(
            seq![
                text_entry("type"@, "joined_room"@),
                object_entry("content"@, seq![text_entry("room"@, content.room)]),
            ],
        ),
        SocketMessageView::SignalMessageFromClient { content } => JsonValue::Object(
            seq![
                text_entry("type"@, "signal_message_from_client"@),
                object_entry("content"@, signal_json(content)),
            ],
        ),
        SocketMessageView::SignalMessageToClient { content } => JsonValue::Object(
            seq![
                text_entry("type"@, "signal_message_to_client"@),
                object_entry("content"@, signal_json(content)),
            ],
        ),
    }
}

/// The string under `key` of an object.
pub open spec fn text_at(tree: JsonValue, key: Seq<char>) -> Option<Seq<char>> {
    match tree.member(key) {
        Some(value) => value.text(),
        None => None,
    }
}

/// The integer below 2^16 under `key` of an object.
pub open spec fn small_integer_at(tree: JsonValue, key: Seq<char>) -> Option<u16> {
    match tree.member(key) {
        Some(value) => value.small_integer(),
        None => None,
    }
}

/// The participants that the payload of a `newUser` envelope names.
pub open spec fn participants_of(content: JsonValue) -> Option<ParticipantsView> {
    match (text_at(content, "userFrom"@), text_at(content, "userTo"@)) {
        (Some(user_from), Some(user_to)) => Some(ParticipantsView { user_from, user_to }),
        _ => None,
    }
}

/// The room that the payload of a `joined_room` envelope names.
pub open spec fn room_of(content: JsonValue) -> Option<RoomView> {
    match text_at(content, "room"@) {
        Some(room) => Some(RoomView { room }),
        None => None,
    }
}

/// The candidate that the message of an `ice_candidate` signal holds.
pub open spec fn candidate_of(message: JsonValue) -> Option<CandidateView> {
    match (
        text_at(message, "candidate"@),
        text_at(message, "sdpMid"@),
        small_integer_at(message, "sdpMLineIndex"@),
    ) {
        (Some(candidate), Some(sdp_mid), Some(sdp_m_line_index)) => Some(
            CandidateView { candidate, sdp_mid, sdp_m_line_index },
        ),
        _ => None,
    }
}

/// The session description that the message of an `SDP` signal holds.
pub open spec fn description_of(message: JsonValue) -> Option<SDPMessageView> {
    match (text_at(message, "type"@), text_at(message, "sdp"@)) {
        (Some(type_), Some(sdp)) => Some(SDPMessageView { type_, sdp }),
        _ => None,
    }
}

/// The signal that the payload of a signal envelope stands for.
///
/// A payload that is no object is malformed. An object whose `signalType`
/// is missing, is no string or names no kind of signal has an unknown type.
/// Every other defect is malformed.
pub open spec fn decode_signal(content: JsonValue) -> Result<SignalingMessageView, DecodeError> {
    if !(content is Object) {
        Err(DecodeError::Malformed)
    } else {
        match text_at(content, "signalType"@) {
            None => Err(DecodeError::UnknownType),
            Some(tag) => if tag == "userHere"@ {
                match small_integer_at(content, "message"@) {
                    Some(message) => Ok(SignalingMessageView::UserHere { message }),
                    None => Err(DecodeError::Malformed),
                }
            } else if tag == "ice_candidate"@ {
                match content.member("message"@) {
                    Some(inner) => match candidate_of(inner) {
                        Some(message) => Ok(SignalingMessageView::ICECandidate { message }),
                        None => Err(DecodeError::Malformed),
                    },
                    None => Err(DecodeError::Malformed),
                }
            } else if tag == "SDP"@ {
                match content.member("message"@) {
                    Some(inner) => match description_of(inner) {
                        Some(message) => Ok(SignalingMessageView::SDP { message }),
                        None => Err(DecodeError::Malformed),
                    },
                    None => Err(DecodeError::Malformed),
                }
            } else {
                Err(DecodeError::UnknownType)
            },
        }
    }
}

/// The envelope that a JSON document stands for.
///
/// Anything but an object is malformed. An object whose `type` is missing,
/// is no string or names no kind of envelope has an unknown type; so has a
/// signal envelope whose `content` is an object without a known
/// `signalType`. Every other defect of the payload is malformed. Fields
/// that the envelope does not name are passed over, and so is the order of
/// the fields.
pub open spec fn decode_json(tree: JsonValue) -> Result<SocketMessageView, DecodeError> {
    if !(tree is Object) {
        Err(DecodeError::Malformed)
    } else {
        match text_at(tree, "type"@) {
            None => Err(DecodeError::UnknownType),
            Some(tag) => if tag == "newUser"@ {
                match tree.member("content"@) {
                    Some(content) => match participants_of(content) {
                        Some(content) => Ok(SocketMessageView::NewUser { content }),
                        None => Err(DecodeError::Malformed),
                    },
                    None => Err(DecodeError::Malformed),
                }
            } else if tag == "joined_room"@ {
                match tree.member("content"@) {
                    Some(content) => match room_of(content) {
                        Some(content) => Ok(SocketMessageView::JoinedRoom { content }),
                        None => Err(DecodeError::Malformed),
                    },
                    None => Err(DecodeError::Malformed),
                }
            } else if tag == "signal_message_from_client"@ {
                match tree.member("content"@) {
                    Some(content) => match decode_signal(content) {
                        Ok(content) => Ok(SocketMessageView::SignalMessageFromClient { content }),
                        Err(e) => Err(e),
                    },
                    None => Err(DecodeError::Malformed),
                }
            } else if tag == "signal_message_to_client"@ {
                match tree.member("content"@) {
                    Some(content) => match decode_signal(content) {
                        Ok(content) => Ok(SocketMessageView::SignalMessageToClient { content }),
                        Err(e) => Err(e),
                    },
                    None => Err(DecodeError::Malformed),
                }
            } else {
                Err(DecodeError::UnknownType)
            },
        }
    }
}

/// What decoding a text gives: the envelope of the document that the text
/// holds, and `Malformed` where the text is no JSON.
pub open spec fn decode_text(text: Seq<char>) -> Result<SocketMessageView, DecodeError> {
    match json_parsed(text) {
        Some(tree) => decode_json(tree),
        None => Err(DecodeError::Malformed),
    }
}

/// The wire text of an envelope.
pub open spec fn encode_text(envelope: SocketMessageView) -> Seq<char> {
    json_printed(envelope_json(envelope))
}

/// Makes every key and tag of the wire form known by its characters.
pub proof fn lemma_wire_names()
    ensures
        "type"@ != "content"@,
        "signalType"@ != "message"@,
        "userFrom"@ != "userTo"@,
        "candidate"@ != "sdpMid"@,
        "candidate"@ != "sdpMLineIndex"@,
        "sdpMid"@ != "sdpMLineIndex"@,
        "type"@ != "sdp"@,
        "newUser"@ != "joined_room"@,
        "newUser"@ != "signal_message_from_client"@,
        "newUser"@ != "signal_message_to_client"@,
        "joined_room"@ != "signal_message_from_client"@,
        "joined_room"@ != "signal_message_to_client"@,
        "signal_message_from_client"@ != "signal_message_to_client"@,
        "userHere"@ != "ice_candidate"@,
        "userHere"@ != "SDP"@,
        "ice_candidate"@ != "SDP"@,
{
    reveal_strlit("type");
    reveal_strlit("content");
    reveal_strlit("signalType");
    reveal_strlit("message");
    reveal_strlit("userFrom");
    reveal_strlit("userTo");
    reveal_strlit("candidate");
    reveal_strlit("sdpMid");
    reveal_strlit("sdpMLineIndex");
    reveal_strlit("sdp");
    reveal_strlit("newUser");
    reveal_strlit("joined_room");
    reveal_strlit("signal_message_from_client");
    reveal_strlit("signal_message_to_client");
    reveal_strlit("userHere");
    reveal_strlit("ice_candidate");
    reveal_strlit("SDP");
    assert("type"@.len() != "content"@.len());
    assert("signalType"@.len() != "message"@.len());
    assert("userFrom"@.len() != "userTo"@.len());
    assert("candidate"@.len() != "sdpMid"@.len());
    assert("candidate"@.len() != "sdpMLineIndex"@.len());
    assert("sdpMid"@.len() != "sdpMLineIndex"@.len());
    assert("type"@.len() != "sdp"@.len());
    assert("newUser"@.len() != "joined_room"@.len());
    assert("newUser"@.len() != "signal_message_from_client"@.len());
    assert("newUser"@.len() != "signal_message_to_client"@.len());
    assert("joined_room"@.len() != "signal_message_from_client"@.len());
    assert("joined_room"@.len() != "signal_message_to_client"@.len());
    assert("signal_message_from_client"@.len() != "signal_message_to_client"@.len());
    assert("userHere"@.len() != "ice_candidate"@.len());
    assert("userHere"@.len() != "SDP"@.len());
    assert("ice_candidate"@.len() != "SDP"@.len());
}

/// Looking up the first or the second key of an object of two fields.
pub proof fn lemma_member_of_two(a: (Seq<char>, JsonValue), b: (Seq<char>, JsonValue))
    requires
        a.0 != b.0,
    ensures
        JsonValue::Object(seq![a, b]).member(a.0) == Some(a.1),
        JsonValue::Object(seq![a, b]).member(b.0) == Some(b.1),
        JsonValue::Object(seq![a, b]).printable() <==> a.1.printable() && b.1.printable(),
{
    let fields = seq![a, b];
    assert(fields.drop_first() =~= seq![b]);
    assert(fields.drop_first()[0] == b);
    reveal_with_fuel(crate::json::first_with_key, 3);
    if a.1.printable() && b.1.printable() {
        assert forall|i: int| 0 <= i < fields.len() implies (#[trigger] fields[i]).1.printable() by {}
    } else {
        assert(fields[0] == a && fields[1] == b);
    }
}

/// Looking up the keys of an object of three fields.
pub proof fn lemma_member_of_three(
    a: (Seq<char>, JsonValue),
    b: (Seq<char>, JsonValue),
    c: (Seq<char>, JsonValue),
)
    requires
        a.0 != b.0,
        a.0 != c.0,
        b.0 != c.0,
        a.1.printable(),
        b.1.printable(),
        c.1.printable(),
    ensures
        JsonValue::Object(seq![a, b, c]).member(a.0) == Some(a.1),
        JsonValue::Object(seq![a, b, c]).member(b.0) == Some(b.1),
        JsonValue::Object(seq![a, b, c]).member(c.0) == Some(c.1),
        JsonValue::Object(seq![a, b, c]).printable(),
{
    let fields = seq![a, b, c];
    assert(fields.drop_first() =~= seq![b, c]);
    assert(fields.drop_first().drop_first() =~= seq![c]);
    reveal_with_fuel(crate::json::first_with_key, 4);
    assert forall|i: int| 0 <= i < fields.len() implies (#[trigger] fields[i]).1.printable() by {}
}

/// Looking up the key of an object of one field.
pub proof fn lemma_member_of_one(a: (Seq<char>, JsonValue))
    requires
        a.1.printable(),
    ensures
        JsonValue::Object(seq![a]).member(a.0) == Some(a.1),
        JsonValue::Object(seq![a]).printable(),
{
    let fields = seq![a];
    reveal_with_fuel(crate::json::first_with_key, 2);
    assert forall|i: int| 0 <= i < fields.len() implies (#[trigger] fields[i]).1.printable() by {}
}

/// A signal is read back from its payload object, which has a text form.
pub proof fn lemma_signal_round_trip(signal: SignalingMessageView)
    ensures
        decode_signal(JsonValue::Object(signal_json(signal))) == Ok::<
            SignalingMessageView,
            DecodeError,
        >(signal),
        JsonValue::Object(signal_json(signal)).printable(),
{
    lemma_wire_names();
    match signal {
        SignalingMessageView::UserHere { message } => {
            lemma_member_of_two(
                text_entry("signalType"@, "userHere"@),
                number_entry("message"@, message),
            );
        },
        SignalingMessageView::ICECandidate { message } => {
            let inner = seq![
                text_entry("candidate"@, message.candidate),
                text_entry("sdpMid"@, message.sdp_mid),
                number_entry("sdpMLineIndex"@, message.sdp_m_line_index),
            ];
            lemma_member_of_three(
                text_entry("candidate"@, message.candidate),
                text_entry("sdpMid"@, message.sdp_mid),
                number_entry("sdpMLineIndex"@, message.sdp_m_line_index),
            );
            lemma_member_of_two(
                text_entry("signalType"@, "ice_candidate"@),
                object_entry("message"@, inner),
            );
        },
        SignalingMessageView::SDP { message } => {
            let inner = seq![text_entry("type"@, message.type_), text_entry("sdp"@, message.sdp)];
            lemma_member_of_two(
                text_entry("type"@, message.type_),
                text_entry("sdp"@, message.sdp),
            );
            lemma_member_of_two(
                text_entry("signalType"@, "SDP"@),
                object_entry("message"@, inner),
            );
        },
    }
}

/// Round trip: every envelope is read back from the JSON object that stands
/// for it, and that object has a text form.
pub proof fn lemma_round_trip(envelope: SocketMessageView)
    ensures
        decode_json(envelope_json(envelope)) == Ok::<SocketMessageView, DecodeError>(envelope),
        envelope_json(envelope).printable(),
{
    lemma_wire_names();
    match envelope {
        SocketMessageView::NewUser { content } => {
            let inner = seq![
                text_entry("userFrom"@, content.user_from),
                text_entry("userTo"@, content.user_to),
            ];
            lemma_member_of_two(
                text_entry("userFrom"@, content.user_from),
                text_entry("userTo"@, content.user_to),
            );
            lemma_member_of_two(text_entry("type"@, "newUser"@), object_entry("content"@, inner));
        },
        SocketMessageView::JoinedRoom { content } => {
            let inner = seq![text_entry("room"@, content.room)];
            lemma_member_of_one(text_entry("room"@, content.room));
            lemma_member_of_two(
                text_entry("type"@, "joined_room"@),
                object_entry("content"@, inner),
            );
        },
        SocketMessageView::SignalMessageFromClient { content } => {
            lemma_signal_round_trip(content);
            lemma_member_of_two(
                text_entry("type"@, "signal_message_from_client"@),
                object_entry("content"@, signal_json(content)),
            );
        },
        SocketMessageView::SignalMessageToClient { content } => {
            lemma_signal_round_trip(content);
            lemma_member_of_two(
                text_entry("type"@, "signal_message_to_client"@),
                object_entry("content"@, signal_json(content)),
            );
        },
    }
}

fn text_field(key: &str, value: &String) -> (field: (String, Json))
    ensures
        (field.0@, field.1@) == text_entry(key@, value@),
{
    (String::from_str(key), Json::Text(value.clone()))
}

fn tag_field(key: &str, value: &str) -> (field: (String, Json))
    ensures
        (field.0@, field.1@) == text_entry(key@, value@),
{
    (String::from_str(key), Json::Text(String::from_str(value)))
}

fn number_field(key: &str, value: u16) -> (field: (String, Json))
    ensures
        (field.0@, field.1@) == number_entry(key@, value),
{
    (String::from_str(key), Json::Number(Some(value as u64)))
}

fn object_field(key: &str, fields: Vec<(String, Json)>) -> (field: (String, Json))
    ensures
        (field.0@, field.1@) == object_entry(key@, fields_view(fields@)),
{
    proof {
        lemma_object_view(fields);
    }
    (String::from_str(key), Json::Object(fields))
}

fn signal_fields(signal: &SignalingMessage) -> (fields: Vec<(String, Json)>)
    ensures
        fields_view(fields@) == signal_json(signal@),
{
    let fields = match signal {
        SignalingMessage::UserHere { message } => {
            vec![tag_field("signalType", "userHere"), number_field("message", *message)]
        },
        SignalingMessage::ICECandidate { message } => {
            let inner = vec![
                text_field("candidate", &message.candidate),
                text_field("sdpMid", &message.sdp_mid),
                number_field("sdpMLineIndex", message.sdp_m_line_index),
            ];
            assert(fields_view(inner@) =~= signal_json(signal@)[1].1->Object_0);
            vec![tag_field("signalType", "ice_candidate"), object_field("message", inner)]
        },
        SignalingMessage::SDP { message } => {
            let inner = vec![text_field("type", &message.type_), text_field("sdp", &message.sdp)];
            assert(fields_view(inner@) =~= signal_json(signal@)[1].1->Object_0);
            vec![tag_field("signalType", "SDP"), object_field("message", inner)]
        },
    };
    assert(fields_view(fields@) =~= signal_json(signal@));
    fields
}

/// The JSON object that stands for `envelope` on the wire.
pub fn envelope_to_json(envelope: &SocketMessage) -> (tree: Json)
    ensures
        tree@ == envelope_json(envelope@),
{
    let fields = match envelope {
        SocketMessage::NewUser { content } => {
            let inner = vec![
                text_field("userFrom", &content.user_from),
                text_field("userTo", &content.user_to),
            ];
            assert(fields_view(inner@) =~= envelope_json(envelope@)->Object_0[1].1->Object_0);
            vec![tag_field("type", "newUser"), object_field("content", inner)]
        },
        SocketMessage::JoinedRoom { content } => {
            let inner = vec![text_field("room", &content.room)];
            assert(fields_view(inner@) =~= envelope_json(envelope@)->Object_0[1].1->Object_0);
            vec![tag_field("type", "joined_room"), object_field("content", inner)]
        },
        SocketMessage::SignalMessageFromClient { content } => {
            let inner = signal_fields(content);
            vec![tag_field("type", "signal_message_from_client"), object_field("content", inner)]
        },
        SocketMessage::SignalMessageToClient { content } => {
            let inner = signal_fields(content);
            vec![tag_field("type", "signal_message_to_client"), object_field("content", inner)]
        },
    };
    assert(fields_view(fields@) =~= envelope_json(envelope@)->Object_0);
    proof {
        lemma_object_view(fields);
    }
    Json::Object(fields)
}

/// Writes an envelope as its wire text: the compact JSON text of the object
/// that stands for it.
pub fn encode(envelope: &SocketMessage) -> (text: String)
    ensures
        text@ == encode_text(envelope@),
{
    let tree = envelope_to_json(envelope);
    proof {
        lemma_round_trip(envelope@);
    }
    tree.print()
}

fn text_under(tree: &Json, key: &str) -> (res: Option<String>)
    ensures
        res matches Some(text) ==> text_at(tree@, key@) == Some(text@),
        res is None ==> text_at(tree@, key@) is None,
{
    match tree.member(key) {
        Some(value) => value.text(),
        None => None,
    }
}

fn small_integer_under(tree: &Json, key: &str) -> (res: Option<u16>)
    ensures
        res == small_integer_at(tree@, key@),
{
    match tree.member(key) {
        Some(value) => value.small_integer(),
        None => None,
    }
}

fn read_participants(content: &Json) -> (res: Option<Participants>)
    ensures
        res matches Some(found) ==> participants_of(content@) == Some(found@),
        res is None ==> participants_of(content@) is None,
{
    match (text_under(content, "userFrom"), text_under(content, "userTo")) {
        (Some(user_from), Some(user_to)) => Some(Participants { user_from, user_to }),
        _ => None,
    }
}

fn read_room(content: &Json) -> (res: Option<Room>)
    ensures
        res matches Some(found) ==> room_of(content@) == Some(found@),
        res is None ==> room_of(content@) is None,
{
    match text_under(content, "room") {
        Some(room) => Some(Room { room }),
        None => None,
    }
}

fn read_candidate(message: &Json) -> (res: Option<Candidate>)
    ensures
        res matches Some(found) ==> candidate_of(message@) == Some(found@),
        res is None ==> candidate_of(message@) is None,
{
    match (
        text_under(message, "candidate"),
        text_under(message, "sdpMid"),
        small_integer_under(message, "sdpMLineIndex"),
    ) {
        (Some(candidate), Some(sdp_mid), Some(sdp_m_line_index)) => Some(
            Candidate { candidate, sdp_mid, sdp_m_line_index },
        ),
        _ => None,
    }
}

fn read_description(message: &Json) -> (res: Option<SDPMessage>)
    ensures
        res matches Some(found) ==> description_of(message@) == Some(found@),
        res is None ==> description_of(message@) is None,
{
    match (text_under(message, "type"), text_under(message, "sdp")) {
        (Some(type_), Some(sdp)) => Some(SDPMessage { type_, sdp }),
        _ => None,
    }
}

fn is_object(tree: &Json) -> (res: bool)
    ensures
        res == (tree@ is Object),
{
    match tree {
        Json::Object(_) => true,
        _ => false,
    }
}

fn read_signal(content: &Json) -> (res: Result<SignalingMessage, DecodeError>)
    ensures
        res matches Ok(signal) ==> decode_signal(content@) == Ok::<
            SignalingMessageView,
            DecodeError,
        >(signal@),
        res matches Err(e) ==> decode_signal(content@) == Err::<SignalingMessageView, DecodeError>(
            e,
        ),
{
    if !is_object(content) {
        return Err(DecodeError::Malformed);
    }
    let tag = match text_under(content, "signalType") {
        Some(tag) => tag,
        None => { return Err(DecodeError::UnknownType); },
    };
    if text_is(&tag, "userHere") {
        match small_integer_under(content, "message") {
            Some(message) => Ok(SignalingMessage::UserHere { message }),
            None => Err(DecodeError::Malformed),
        }
    } else if text_is(&tag, "ice_candidate") {
        let found = match content.member("message") {
            Some(inner) => read_candidate(inner),
            None => None,
        };
        match found {
            Some(message) => Ok(SignalingMessage::ICECandidate { message }),
            None => Err(DecodeError::Malformed),
        }
    } else if text_is(&tag, "SDP") {
        let found = match content.member("message") {
            Some(inner) => read_description(inner),
            None => None,
        };
        match found {
            Some(message) => Ok(SignalingMessage::SDP { message }),
            None => Err(DecodeError::Malformed),
        }
    } else {
        Err(DecodeError::UnknownType)
    }
}

/// Reads the envelope that a JSON document stands for.
pub fn envelope_from_json(tree: &Json) -> (res: Result<SocketMessage, DecodeError>)
    ensures
        res matches Ok(envelope) ==> decode_json(tree@) == Ok::<SocketMessageView, DecodeError>(
            envelope@,
        ),
        res matches Err(e) ==> decode_json(tree@) == Err::<SocketMessageView, DecodeError>(e),
{
    if !is_object(tree) {
        return Err(DecodeError::Malformed);
    }
    let tag = match text_under(tree, "type") {
        Some(tag) => tag,
        None => { return Err(DecodeError::UnknownType); },
    };
    let from_client = text_is(&tag, "signal_message_from_client");
    if text_is(&tag, "newUser") {
        let found = match tree.member("content") {
            Some(content) => read_participants(content),
            None => None,
        };
        match found {
            Some(content) => Ok(SocketMessage::NewUser { content }),
            None => Err(DecodeError::Malformed),
        }
    } else if text_is(&tag, "joined_room") {
        let found = match tree.member("content") {
            Some(content) => read_room(content),
            None => None,
        };
        match found {
            Some(content) => Ok(SocketMessage::JoinedRoom { content }),
            None => Err(DecodeError::Malformed),
        }
    } else if from_client || text_is(&tag, "signal_message_to_client") {
        proof {
            lemma_wire_names();
        }
        let content = match tree.member("content") {
            Some(content) => content,
            None => { return Err(DecodeError::Malformed); },
        };
        match read_signal(content) {
            Ok(signal) => if from_client {
                Ok(SocketMessage::SignalMessageFromClient { content: signal })
            } else {
                Ok(SocketMessage::SignalMessageToClient { content: signal })
            },
            Err(e) => Err(e),
        }
    } else {
        Err(DecodeError::UnknownType)
    }
}

/// Reads an envelope from its wire text.
///
/// A text that is no JSON is malformed; any other text gives what its
/// document stands for.
pub fn decode(text: &str) -> (res: Result<SocketMessage, DecodeError>)
    ensures
        res matches Ok(envelope) ==> decode_text(text@) == Ok::<SocketMessageView, DecodeError>(
            envelope@,
        ),
        res matches Err(e) ==> decode_text(text@) == Err::<SocketMessageView, DecodeError>(e),
{
    match Json::parse(text) {
        Some(tree) => envelope_from_json(&tree),
        None => Err(DecodeError::Malformed),
    }
}

} // verus!
