//! The negotiation engine: one session, driven by events, answering each
//! with the actions to perform.

use crate::buffer::CandidateBuffer;
use crate::codec::{decode, decode_text, encode, encode_text};
use crate::message::{
    text_is, Candidate, Participants, Room, SDPMessage, SignalingMessage, SocketMessage,
};
use crate::session::{
    actions_view, applying, description_message, message_description, result_view,
    sdp_type_name, sdp_type_named, Action, ActionView, CustomError, DataChannel, Event, Outcome,
    Phase, SdpType, Session, SessionDescription,
};
use vstd::prelude::*;

verus! {

impl SdpType {
    /// The name of the kind on the wire.
    pub fn name(&self) -> (name: String)
        ensures
            name@ == sdp_type_name(*self),
    {
        match self {
            SdpType::Offer => String::from_str("offer"),
            SdpType::Answer => String::from_str("answer"),
            SdpType::Pranswer => String::from_str("pranswer"),
            SdpType::Rollback => String::from_str("rollback"),
        }
    }

    /// The kind that a wire name stands for.
    pub fn named(name: &String) -> (kind: Option<SdpType>)
        ensures
            kind == sdp_type_named(name@),
    {
        if text_is(name, "answer") {
            Some(SdpType::Answer)
        } else if text_is(name, "offer") {
            Some(SdpType::Offer)
        } else if text_is(name, "pranswer") {
            Some(SdpType::Pranswer)
        } else if text_is(name, "rollback") {
            Some(SdpType::Rollback)
        } else {
            None
        }
    }
}

impl Action {
    /// The text to send to the relay, where the action is to send an
    /// envelope.
    pub fn wire_text(&self) -> (text: Option<String>)
        ensures
            match self@ {
                ActionView::Send(envelope) => text matches Some(t) && t@ == encode_text(envelope),
                _ => text is None,
            },
    {
        match self {
            Action::Send(envelope) => Some(encode(envelope)),
            _ => None,
        }
    }
}

impl SDPMessage {
    /// The wire form of a session description.
    pub fn from_description(description: &SessionDescription) -> (message: SDPMessage)
        ensures
            message@ == description_message(description@),
    {
        SDPMessage { type_: description.kind.name(), sdp: description.sdp.clone() }
    }
}

impl SessionDescription {
    /// The session description that a wire message stands for. A kind that
    /// is none of `offer`, `answer`, `pranswer` and `rollback` is an
    /// `InputTypeError`.
    pub fn try_from(message: &SDPMessage) -> (res: Result<SessionDescription, CustomError>)
        ensures
            res matches Ok(description) ==> message_description(message@) == Some(description@),
            res matches Err(e) ==> e == CustomError::InputTypeError && message_description(
                message@,
            ) is None,
    {
        match SdpType::named(&message.type_) {
            Some(kind) => Ok(SessionDescription { kind, sdp: message.sdp.clone() }),
            None => Err(CustomError::InputTypeError),
        }
    }
}

/// The answer to an event that asks for nothing.
fn nothing() -> (res: Result<Vec<Action>, CustomError>)
    ensures
        result_view(res) == Ok::<Seq<ActionView>, CustomError>(Seq::empty()),
{
    let actions: Vec<Action> = Vec::new();
    assert(actions_view(actions@) =~= Seq::empty());
    Ok(actions)
}

/// The answer to an event that asks for one action.
fn only(action: Action) -> (res: Result<Vec<Action>, CustomError>)
    ensures
        result_view(res) == Ok::<Seq<ActionView>, CustomError>(seq![action@]),
{
    let mut actions: Vec<Action> = Vec::new();
    actions.push(action);
    assert(actions_view(actions@) =~= seq![action@]);
    Ok(actions)
}

/// The negotiation engine. It owns the session; its surroundings hand it
/// each event and perform the actions it returns, in their order.
pub struct WebRTC {
    participants: Option<Participants>,
    room: Option<String>,
    is_negotiating: bool,
    settled: bool,
    remote_description_accepted: bool,
    candidates_buffer: CandidateBuffer,
    data_channel: Option<DataChannel>,
    closed: bool,
}

impl View for WebRTC {
    type V = Session;

    closed spec fn view(&self) -> Session {
        Session {
            participants: match self.participants {
                Some(p) => Some(p@),
                None => None,
            },
            room: match self.room {
                Some(r) => Some(r@),
                None => None,
            },
            negotiating: self.is_negotiating,
            settled: self.settled,
            remote_description_accepted: self.remote_description_accepted,
            candidates: self.candidates_buffer@,
            peer_channel: match self.data_channel {
                Some(c) => Some(c@),
                None => None,
            },
            closed: self.closed,
        }
    }
}

impl WebRTC {
    /// An engine whose session is idle.
    pub fn new() -> (engine: Self)
        ensures
            engine@ == Session::initial(),
    {
        WebRTC {
            participants: None,
            room: None,
            is_negotiating: false,
            settled: false,
            remote_description_accepted: false,
            candidates_buffer: CandidateBuffer::new(),
            data_channel: None,
            closed: false,
        }
    }

    /// Where the session stands.
    pub fn phase(&self) -> (phase: Phase)
        ensures
            phase == self@.phase(),
    {
        if self.closed {
            Phase::Closed
        } else if self.is_negotiating {
            Phase::Negotiating
        } else if self.participants.is_none() {
            Phase::Idle
        } else if self.room.is_none() {
            Phase::AwaitingRoom
        } else if self.settled {
            Phase::Stable
        } else {
            Phase::Ready
        }
    }

    /// The room that the relay assigned, once it has.
    pub fn room(&self) -> (room: Option<String>)
        ensures
            room matches Some(name) ==> self@.room == Some(name@),
            room is None ==> self@.room is None,
    {
        match &self.room {
            Some(name) => Some(name.clone()),
            None => None,
        }
    }

    /// Whether an offer/answer cycle is under way.
    pub fn is_negotiating(&self) -> (res: bool)
        ensures
            res == self@.negotiating,
    {
        self.is_negotiating
    }

    /// Whether the data channel has been asked for.
    pub fn signaling_channel_opened(&self) -> (res: bool)
        ensures
            res == self@.signaling_channel_opened(),
    {
        self.data_channel.is_some()
    }

    /// How many remote candidates wait for a remote description.
    pub fn buffered_candidates(&self) -> (n: usize)
        ensures
            n == self@.candidates.len(),
    {
        self.candidates_buffer.len()
    }

    fn set_is_negotiating(&mut self, value: bool)
        ensures
            final(self)@ == (Session { negotiating: value, ..old(self)@ }),
    {
        self.is_negotiating = value;
    }

    /// Asks the relay for a connection between the participants.
    pub fn connect(&mut self, participants: Participants) -> (res: Result<Vec<Action>, CustomError>)
        ensures
            (Outcome { state: final(self)@, result: result_view(res) }) == old(self)@.on_connect(
                participants@,
            ),
    {
        if !self.closed && self.participants.is_none() {
            let announced = participants.clone();
            self.participants = Some(participants);
            only(Action::Send(SocketMessage::NewUser { content: announced }))
        } else {
            nothing()
        }
    }

    /// Gives the order to send a payload to the peer on the data channel.
    /// `channel_open` says whether the data channel is in its open state
    /// now. While the session has no channel, or the channel is not open,
    /// nothing is to be sent and the result is `ChannelNotReady`.
    pub fn send_message(&self, message: &str, channel_open: bool) -> (res: Result<
        Action,
        CustomError,
    >)
        ensures
            res matches Ok(action) ==> self@.send(message@, channel_open) == Ok::<
                ActionView,
                CustomError,
            >(action@),
            res matches Err(e) ==> self@.send(message@, channel_open) == Err::<
                ActionView,
                CustomError,
            >(e),
    {
        match &self.data_channel {
            Some(channel) => if channel_open {
                Ok(Action::SendOnChannel { id: channel.id, payload: String::from_str(message) })
            } else {
                Err(CustomError::ChannelNotReady)
            },
            None => Err(CustomError::ChannelNotReady),
        }
    }

    /// Handles an envelope from the relay.
    pub fn handle_message(&mut self, socket_message: SocketMessage) -> (res: Result<
        Vec<Action>,
        CustomError,
    >)
        ensures
            (Outcome { state: final(self)@, result: result_view(res) }) == old(self)@.on_message(
                socket_message@,
            ),
    {
        match socket_message {
            SocketMessage::JoinedRoom { content } => self.join_room(content),
            SocketMessage::NewUser { .. } => nothing(),
            SocketMessage::SignalMessageToClient { content } => match content {
                SignalingMessage::UserHere { message } => self.handle_user_here(message),
                SignalingMessage::ICECandidate { message } => self.handle_ice_candidate(message),
                SignalingMessage::SDP { message } => self.handle_sdp_message(&message),
            },
            SocketMessage::SignalMessageFromClient { .. } => nothing(),
        }
    }

    /// Binds the room that the relay assigned.
    pub fn join_room(&mut self, content: Room) -> (res: Result<Vec<Action>, CustomError>)
        ensures
            (Outcome { state: final(self)@, result: result_view(res) }) == old(self)@.on_joined_room(
                content.room@,
            ),
    {
        if !self.closed && self.participants.is_some() && self.room.is_none() {
            self.room = Some(content.room);
        }
        nothing()
    }

    /// Handles the peer's announcement of the data channel's id.
    pub fn handle_user_here(&mut self, signaling_id: u16) -> (res: Result<Vec<Action>, CustomError>)
        ensures
            (Outcome { state: final(self)@, result: result_view(res) }) == old(self)@.on_user_here(
                signaling_id,
            ),
    {
        if self.closed || self.data_channel.is_some() {
            return nothing();
        }
        match &self.room {
            Some(room) => {
                let asked = DataChannel { label: room.clone(), id: signaling_id };
                self.data_channel = Some(DataChannel { label: room.clone(), id: signaling_id });
                only(Action::CreateDataChannel(asked))
            },
            None => nothing(),
        }
    }

    /// Handles a candidate of the peer.
    pub fn handle_ice_candidate(&mut self, candidate: Candidate) -> (res: Result<
        Vec<Action>,
        CustomError,
    >)
        ensures
            (Outcome { state: final(self)@, result: result_view(res) })
                == old(self)@.on_ice_candidate(candidate@),
    {
        if self.closed {
            nothing()
        } else if !self.remote_description_accepted {
            self.candidates_buffer.push(candidate);
            nothing()
        } else {
            only(Action::AddIceCandidate(candidate))
        }
    }

    /// Handles a session description of the peer.
    pub fn handle_sdp_message(&mut self, sdp: &SDPMessage) -> (res: Result<Vec<Action>, CustomError>)
        ensures
            (Outcome { state: final(self)@, result: result_view(res) }) == old(self)@.on_sdp_message(
                sdp@,
            ),
    {
        if self.closed {
            return nothing();
        }
        let description = match SessionDescription::try_from(sdp) {
            Ok(description) => description,
            Err(e) => { return Err(e); },
        };
        match description.kind {
            SdpType::Offer => if self.is_negotiating {
                nothing()
            } else {
                self.set_is_negotiating(true);
                only(Action::SetRemoteDescription(description))
            },
            _ => only(Action::SetRemoteDescription(description)),
        }
    }

    /// Handles the peer connection's need for a negotiation.
    pub fn handle_negotiation_needed(&mut self) -> (res: Result<Vec<Action>, CustomError>)
        ensures
            (Outcome { state: final(self)@, result: result_view(res) })
                == old(self)@.on_negotiation_needed(),
    {
        if !self.closed && !self.is_negotiating {
            self.set_is_negotiating(true);
            only(Action::CreateOffer)
        } else {
            nothing()
        }
    }

    /// Handles a change of the peer connection's signaling state.
    pub fn handle_signaling_state(&mut self, stable: bool) -> (res: Result<Vec<Action>, CustomError>)
        ensures
            (Outcome { state: final(self)@, result: result_view(res) })
                == old(self)@.on_signaling_state(stable),
    {
        if stable && !self.closed && self.is_negotiating {
            self.set_is_negotiating(false);
            self.settled = true;
        }
        nothing()
    }

    /// Handles the acceptance of a remote description.
    pub fn handle_remote_description_accepted(&mut self, kind: SdpType) -> (res: Result<
        Vec<Action>,
        CustomError,
    >)
        ensures
            (Outcome { state: final(self)@, result: result_view(res) })
                == old(self)@.on_remote_description_accepted(kind),
    {
        if self.closed {
            return nothing();
        }
        let mut actions: Vec<Action> = Vec::new();
        assert(actions_view(actions@) =~= Seq::empty());
        self.candidates_buffer.drain_into(&mut actions);
        self.remote_description_accepted = true;
        let ghost applied = actions@;
        assert(actions_view(applied) =~= applying(old(self)@.candidates));
        match kind {
            SdpType::Offer => {
                actions.push(Action::CreateAnswer);
                assert(actions_view(actions@) =~= actions_view(applied) + seq![
                    ActionView::CreateAnswer,
                ]);
            },
            _ => {},
        }
        assert(actions_view(actions@) =~= old(self)@.on_remote_description_accepted(
            kind,
        ).result->Ok_0);
        Ok(actions)
    }

    /// Handles a candidate that the peer connection found: it goes to the
    /// peer through the relay.
    pub fn handle_candidate_discovered(&self, candidate: Candidate) -> (res: Result<
        Vec<Action>,
        CustomError,
    >)
        ensures
            (Outcome { state: self@, result: result_view(res) }) == self@.on_candidate_discovered(
                candidate@,
            ),
    {
        if self.closed {
            nothing()
        } else {
            only(
                Action::Send(
                    SocketMessage::SignalMessageFromClient {
                        content: SignalingMessage::ICECandidate { message: candidate },
                    },
                ),
            )
        }
    }

    /// Handles the offer or answer that the peer connection made: it
    /// becomes the local description.
    pub fn handle_description_created(&self, description: SessionDescription) -> (res: Result<
        Vec<Action>,
        CustomError,
    >)
        ensures
            (Outcome { state: self@, result: result_view(res) }) == self@.on_description_created(
                description@,
            ),
    {
        if self.closed {
            nothing()
        } else {
            only(Action::SetLocalDescription(description))
        }
    }

    /// Handles the setting of the local description: the description goes
    /// to the peer through the relay.
    pub fn handle_local_description_set(&self, description: &SessionDescription) -> (res: Result<
        Vec<Action>,
        CustomError,
    >)
        ensures
            (Outcome { state: self@, result: result_view(res) })
                == self@.on_local_description_set(description@),
    {
        if self.closed {
            nothing()
        } else {
            only(
                Action::Send(
                    SocketMessage::SignalMessageFromClient {
                        content: SignalingMessage::SDP {
                            message: SDPMessage::from_description(description),
                        },
                    },
                ),
            )
        }
    }

    /// Handles a payload that arrived on the data channel.
    pub fn handle_channel_message(&self, payload: String) -> (res: Result<Vec<Action>, CustomError>)
        ensures
            (Outcome { state: self@, result: result_view(res) }) == self@.on_channel_message(
                payload@,
            ),
    {
        if self.data_channel.is_some() {
            only(Action::Deliver(payload))
        } else {
            nothing()
        }
    }

    /// Handles the rejection of an operation by the peer connection: the
    /// glare guard comes down, and the failure is returned.
    pub fn handle_capability_failed(&mut self) -> (res: Result<Vec<Action>, CustomError>)
        ensures
            (Outcome { state: final(self)@, result: result_view(res) })
                == old(self)@.on_capability_failed(),
    {
        self.set_is_negotiating(false);
        Err(CustomError::Capability)
    }

    /// Ends the session.
    pub fn teardown(&mut self) -> (res: Result<Vec<Action>, CustomError>)
        ensures
            (Outcome { state: final(self)@, result: result_view(res) }) == old(self)@.on_teardown(),
    {
        if self.closed {
            return nothing();
        }
        self.is_negotiating = false;
        self.candidates_buffer.clear();
        self.data_channel = None;
        self.closed = true;
        only(Action::Release)
    }

    /// Handles one event: the session moves as [`Session::step`] says, and
    /// the result holds the actions to perform, or the error to report.
    pub fn dispatch(&mut self, event: Event) -> (res: Result<Vec<Action>, CustomError>)
        ensures
            (Outcome { state: final(self)@, result: result_view(res) }) == old(self)@.step(event@),
    {
        match event {
            Event::Connect(participants) => self.connect(participants),
            Event::Relay(message) => self.handle_message(message),
            Event::NegotiationNeeded => self.handle_negotiation_needed(),
            Event::SignalingStateChanged { stable } => self.handle_signaling_state(stable),
            Event::CandidateDiscovered(candidate) => self.handle_candidate_discovered(candidate),
            Event::DescriptionCreated(description) => self.handle_description_created(description),
            Event::LocalDescriptionSet(description) => self.handle_local_description_set(
                &description,
            ),
            Event::RemoteDescriptionAccepted(kind) => self.handle_remote_description_accepted(kind),
            Event::ChannelMessage(payload) => self.handle_channel_message(payload),
            Event::CapabilityFailed => self.handle_capability_failed(),
            Event::SendFailed => Err(CustomError::Send),
            Event::Teardown => self.teardown(),
        }
    }

    /// Handles a text from the relay: a text that is no envelope is
    /// reported and leaves the session as it was; an envelope is handled.
    pub fn receive(&mut self, text: &str) -> (res: Result<Vec<Action>, CustomError>)
        ensures
            (Outcome { state: final(self)@, result: result_view(res) }) == old(self)@.on_text(
                decode_text(text@),
            ),
    {
        match decode(text) {
            Ok(message) => self.handle_message(message),
            Err(e) => Err(CustomError::Decode(e)),
        }
    }
}

} // verus!
