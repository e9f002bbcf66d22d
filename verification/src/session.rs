//! The session of one negotiation, the events that reach it and the actions
//! it asks for, as a state machine over plain values.

use crate::codec::DecodeError;
use crate::message::{
    Candidate, CandidateView, Participants, ParticipantsView, SDPMessageView,
    SignalingMessageView, SocketMessage, SocketMessageView,
};
use vstd::prelude::*;

verus! {

/// The kind of a session description.
#[derive(Debug, PartialEq, Eq, Structural, Clone, Copy)]
pub enum SdpType {
    Offer,
    Answer,
    Pranswer,
    Rollback,
}

/// The name of a kind of session description on the wire.
pub open spec fn sdp_type_name(kind: SdpType) -> Seq<char> {
    match kind {
        SdpType::Offer => "offer"@,
        SdpType::Answer => "answer"@,
        SdpType::Pranswer => "pranswer"@,
        SdpType::Rollback => "rollback"@,
    }
}

/// The kind that a wire name stands for.
pub open spec fn sdp_type_named(name: Seq<char>) -> Option<SdpType> {
    if name == "answer"@ {
        Some(SdpType::Answer)
    } else if name == "offer"@ {
        Some(SdpType::Offer)
    } else if name == "pranswer"@ {
        Some(SdpType::Pranswer)
    } else if name == "rollback"@ {
        Some(SdpType::Rollback)
    } else {
        None
    }
}

/// A session description as the peer connection gives and takes it.
#[derive(Debug, PartialEq, Eq, Clone)]
pub struct SessionDescription {
    pub kind: SdpType,
    pub sdp: String,
}

pub struct SessionDescriptionView {
    pub kind: SdpType,
    pub sdp: Seq<char>,
}

impl View for SessionDescription {
    type V = SessionDescriptionView;

    open spec fn view(&self) -> SessionDescriptionView {
        SessionDescriptionView { kind: self.kind, sdp: self.sdp@ }
    }
}

/// The wire form of a session description.
pub open spec fn description_message(description: SessionDescriptionView) -> SDPMessageView {
    SDPMessageView { type_: sdp_type_name(description.kind), sdp: description.sdp }
}

/// The session description that a wire message stands for, where its kind
/// has a known name.
pub open spec fn message_description(message: SDPMessageView) -> Option<SessionDescriptionView> {
    match sdp_type_named(message.type_) {
        Some(kind) => Some(SessionDescriptionView { kind, sdp: message.sdp }),
        None => None,
    }
}

/// The identity of the data channel between the peers: it is agreed on
/// through the relay, so both sides open it under the same label and id.
#[derive(Debug, PartialEq, Eq, Clone)]
pub struct DataChannel {
    pub label: String,
    pub id: u16,
}

pub struct DataChannelView {
    pub label: Seq<char>,
    pub id: u16,
}

impl View for DataChannel {
    type V = DataChannelView;

    open spec fn view(&self) -> DataChannelView {
        DataChannelView { label: self.label@, id: self.id }
    }
}

/// What went wrong while an event was handled. The event is dropped.
#[derive(Debug, PartialEq, Eq, Structural, Clone, Copy)]
pub enum CustomError {
    /// A text from the relay was no envelope.
    Decode(DecodeError),
    /// A session description from the relay names no known kind.
    InputTypeError,
    /// The peer connection rejected an operation.
    Capability,
    /// An envelope or a payload could not be sent.
    Send,
    /// A payload was to be sent before the data channel was there and
    /// open.
    ChannelNotReady,
}

/// Something that happened outside and is handed to the engine.
#[derive(Debug, PartialEq, Eq, Clone)]
pub enum Event {
    /// The local user asks to be connected.
    Connect(Participants),
    /// An envelope arrived from the relay.
    Relay(SocketMessage),
    /// The peer connection needs a negotiation.
    NegotiationNeeded,
    /// The signaling state of the peer connection changed.
    SignalingStateChanged { stable: bool },
    /// The peer connection found a local candidate.
    CandidateDiscovered(Candidate),
    /// The peer connection made the offer or answer it was asked for.
    DescriptionCreated(SessionDescription),
    /// The peer connection took this description as its local one.
    LocalDescriptionSet(SessionDescription),
    /// The peer connection accepted a remote description of this kind.
    RemoteDescriptionAccepted(SdpType),
    /// A payload arrived on the data channel.
    ChannelMessage(String),
    /// The peer connection rejected an operation.
    CapabilityFailed,
    /// The relay or the data channel failed to send what it was given.
    SendFailed,
    /// The session is to end.
    Teardown,
}

pub enum EventView {
    Connect(ParticipantsView),
    Relay(SocketMessageView),
    NegotiationNeeded,
    SignalingStateChanged { stable: bool },
    CandidateDiscovered(CandidateView),
    DescriptionCreated(SessionDescriptionView),
    LocalDescriptionSet(SessionDescriptionView),
    RemoteDescriptionAccepted(SdpType),
    ChannelMessage(Seq<char>),
    CapabilityFailed,
    SendFailed,
    Teardown,
}

impl View for Event {
    type V = EventView;

    open spec fn view(&self) -> EventView {
        match self {
            Event::Connect(p) => EventView::Connect(p@),
            Event::Relay(m) => EventView::Relay(m@),
            Event::NegotiationNeeded => EventView::NegotiationNeeded,
            Event::SignalingStateChanged { stable } => EventView::SignalingStateChanged {
                stable: *stable,
            },
            Event::CandidateDiscovered(c) => EventView::CandidateDiscovered(c@),
            Event::DescriptionCreated(d) => EventView::DescriptionCreated(d@),
            Event::LocalDescriptionSet(d) => EventView::LocalDescriptionSet(d@),
            Event::RemoteDescriptionAccepted(kind) => EventView::RemoteDescriptionAccepted(*kind),
            Event::ChannelMessage(payload) => EventView::ChannelMessage(payload@),
            Event::CapabilityFailed => EventView::CapabilityFailed,
            Event::SendFailed => EventView::SendFailed,
            Event::Teardown => EventView::Teardown,
        }
    }
}

/// Something the engine asks its surroundings to do.
#[derive(Debug, PartialEq, Eq, Clone)]
pub enum Action {
    /// Send the envelope to the relay.
    Send(SocketMessage),
    CreateOffer,
    CreateAnswer,
    SetLocalDescription(SessionDescription),
    SetRemoteDescription(SessionDescription),
    AddIceCandidate(Candidate),
    /// Open the data channel, with this label and this id.
    CreateDataChannel(DataChannel),
    /// Send the payload on the data channel with this id.
    SendOnChannel { id: u16, payload: String },
    /// Hand a payload that arrived on the data channel to the application.
    Deliver(String),
    /// Let go of the peer connection.
    Release,
}

pub enum ActionView {
    Send(SocketMessageView),
    CreateOffer,
    CreateAnswer,
    SetLocalDescription(SessionDescriptionView),
    SetRemoteDescription(SessionDescriptionView),
    AddIceCandidate(CandidateView),
    CreateDataChannel(DataChannelView),
    SendOnChannel { id: u16, payload: Seq<char> },
    Deliver(Seq<char>),
    Release,
}

impl View for Action {
    type V = ActionView;

    open spec fn view(&self) -> ActionView {
        match self {
            Action::Send(m) => ActionView::Send(m@),
            Action::CreateOffer => ActionView::CreateOffer,
            Action::CreateAnswer => ActionView::CreateAnswer,
            Action::SetLocalDescription(d) => ActionView::SetLocalDescription(d@),
            Action::SetRemoteDescription(d) => ActionView::SetRemoteDescription(d@),
            Action::AddIceCandidate(c) => ActionView::AddIceCandidate(c@),
            Action::CreateDataChannel(c) => ActionView::CreateDataChannel(c@),
            Action::SendOnChannel { id, payload } => ActionView::SendOnChannel {
                id: *id,
                payload: payload@,
            },
            Action::Deliver(payload) => ActionView::Deliver(payload@),
            Action::Release => ActionView::Release,
        }
    }
}

/// The actions that apply `candidates` to the peer connection, one each, in
/// their order.
pub open spec fn applying(candidates: Seq<CandidateView>) -> Seq<ActionView> {
    candidates.map_values(|c: CandidateView| ActionView::AddIceCandidate(c))
}

/// The model of a list of actions.
pub open spec fn actions_view(actions: Seq<Action>) -> Seq<ActionView> {
    actions.map_values(|a: Action| a@)
}

/// The model of what handling an event returns.
pub open spec fn result_view(res: Result<Vec<Action>, CustomError>) -> Result<
    Seq<ActionView>,
    CustomError,
> {
    match res {
        Ok(actions) => Ok(actions_view(actions@)),
        Err(e) => Err(e),
    }
}

/// Where a session stands in its life.
#[derive(Debug, PartialEq, Eq, Structural, Clone, Copy)]
pub enum Phase {
    Idle,
    AwaitingRoom,
    Ready,
    Negotiating,
    Stable,
    Closed,
}

/// The state of one negotiation.
pub struct Session {
    /// Who takes part; set by the connect request.
    pub participants: Option<ParticipantsView>,
    /// The room that the relay assigned.
    pub room: Option<Seq<char>>,
    /// Whether an offer/answer cycle is under way: the glare guard.
    pub negotiating: bool,
    /// Whether a cycle has ended in a stable signaling state.
    pub settled: bool,
    /// Whether the peer connection has accepted a remote description.
    pub remote_description_accepted: bool,
    /// The remote candidates that wait for a remote description.
    pub candidates: Seq<CandidateView>,
    /// The data channel, once it was asked for.
    pub peer_channel: Option<DataChannelView>,
    /// Whether the session was torn down.
    pub closed: bool,
}

/// A session together with what handling an event returned.
pub struct Outcome {
    pub state: Session,
    pub result: Result<Seq<ActionView>, CustomError>,
}

impl Session {
    /// The session before anything happened.
    pub open spec fn initial() -> Session {
        Session {
            participants: None,
            room: None,
            negotiating: false,
            settled: false,
            remote_description_accepted: false,
            candidates: Seq::empty(),
            peer_channel: None,
            closed: false,
        }
    }

    /// Where the session stands. A negotiation does not wait for the relay:
    /// while one is under way the session is `Negotiating`, whether or not
    /// the room is bound. Outside a negotiation the phase says first how far
    /// the session is with the relay, then whether a negotiation has ended.
    pub open spec fn phase(self) -> Phase {
        if self.closed {
            Phase::Closed
        } else if self.negotiating {
            Phase::Negotiating
        } else if self.participants is None {
            Phase::Idle
        } else if self.room is None {
            Phase::AwaitingRoom
        } else if self.settled {
            Phase::Stable
        } else {
            Phase::Ready
        }
    }

    /// Whether the data channel has been asked for.
    pub open spec fn signaling_channel_opened(self) -> bool {
        self.peer_channel is Some
    }

    /// What holds of every session that events have led to.
    pub open spec fn wf(self) -> bool {
        &&& self.room is Some ==> self.participants is Some
        &&& self.peer_channel matches Some(channel) ==> self.room == Some(channel.label)
        &&& self.remote_description_accepted ==> self.candidates.len() == 0
        &&& self.closed ==> !self.negotiating && self.candidates.len() == 0
            && self.peer_channel is None
    }

    /// The event changes nothing and asks for nothing.
    pub open spec fn quiet(self) -> Outcome {
        Outcome { state: self, result: Ok(Seq::empty()) }
    }

    /// The connect request: the first in a session, its participants are
    /// kept and announced to the relay.
    pub open spec fn on_connect(self, participants: ParticipantsView) -> Outcome {
        if !self.closed && self.participants is None {
            Outcome {
                state: Session { participants: Some(participants), ..self },
                result: Ok(seq![ActionView::Send(SocketMessageView::NewUser { content: participants })]),
            }
        } else {
            self.quiet()
        }
    }

    /// The relay's acknowledgment: while the room is awaited, that is after
    /// the connect request and before a room is bound, it is bound.
    pub open spec fn on_joined_room(self, room: Seq<char>) -> Outcome {
        if !self.closed && self.participants is Some && self.room is None {
            Outcome { state: Session { room: Some(room), ..self }, result: Ok(Seq::empty()) }
        } else {
            self.quiet()
        }
    }

    /// The peer announces the id of the data channel: the first time in a
    /// session that has its room, the channel is asked for under the room's
    /// name. Opening it is what makes the peer connection ask for a
    /// negotiation, which arrives as an event of its own.
    pub open spec fn on_user_here(self, id: u16) -> Outcome {
        if !self.closed && self.room is Some && self.peer_channel is None {
            let channel = DataChannelView { label: self.room->Some_0, id };
            Outcome {
                state: Session { peer_channel: Some(channel), ..self },
                result: Ok(seq![ActionView::CreateDataChannel(channel)]),
            }
        } else {
            self.quiet()
        }
    }

    /// A remote candidate: it waits in the buffer until a remote
    /// description is accepted, and is applied at once after that.
    pub open spec fn on_ice_candidate(self, candidate: CandidateView) -> Outcome {
        if self.closed {
            self.quiet()
        } else if !self.remote_description_accepted {
            Outcome {
                state: Session { candidates: self.candidates.push(candidate), ..self },
                result: Ok(Seq::empty()),
            }
        } else {
            Outcome { state: self, result: Ok(seq![ActionView::AddIceCandidate(candidate)]) }
        }
    }

    /// A remote session description. One of an unknown kind is an error. An
    /// offer starts a negotiation unless one is under way, in which case it
    /// is dropped; any other description is handed on. Only a closed
    /// session takes none.
    pub open spec fn on_sdp_message(self, message: SDPMessageView) -> Outcome {
        if self.closed {
            self.quiet()
        } else {
            match message_description(message) {
                None => Outcome { state: self, result: Err(CustomError::InputTypeError) },
                Some(description) => if description.kind != SdpType::Offer {
                    Outcome {
                        state: self,
                        result: Ok(seq![ActionView::SetRemoteDescription(description)]),
                    }
                } else if self.negotiating {
                    self.quiet()
                } else {
                    Outcome {
                        state: Session { negotiating: true, ..self },
                        result: Ok(seq![ActionView::SetRemoteDescription(description)]),
                    }
                },
            }
        }
    }

    /// An envelope from the relay. Only the acknowledgment of the room and
    /// the signals addressed to a client are consumed.
    pub open spec fn on_message(self, message: SocketMessageView) -> Outcome {
        match message {
            SocketMessageView::JoinedRoom { content } => self.on_joined_room(content.room),
            SocketMessageView::NewUser { .. } => self.quiet(),
            SocketMessageView::SignalMessageFromClient { .. } => self.quiet(),
            SocketMessageView::SignalMessageToClient { content } => match content {
                SignalingMessageView::UserHere { message } => self.on_user_here(message),
                SignalingMessageView::ICECandidate { message } => self.on_ice_candidate(message),
                SignalingMessageView::SDP { message } => self.on_sdp_message(message),
            },
        }
    }

    /// A text from the relay, as decoded: a text that is no envelope is
    /// reported and changes nothing.
    pub open spec fn on_text(self, decoded: Result<SocketMessageView, DecodeError>) -> Outcome {
        match decoded {
            Ok(message) => self.on_message(message),
            Err(e) => Outcome { state: self, result: Err(CustomError::Decode(e)) },
        }
    }

    /// The peer connection needs a negotiation: unless one is under way, the
    /// glare guard goes up and an offer is asked for.
    pub open spec fn on_negotiation_needed(self) -> Outcome {
        if !self.closed && !self.negotiating {
            Outcome {
                state: Session { negotiating: true, ..self },
                result: Ok(seq![ActionView::CreateOffer]),
            }
        } else {
            self.quiet()
        }
    }

    /// The signaling state changed: a stable state ends the negotiation.
    pub open spec fn on_signaling_state(self, stable: bool) -> Outcome {
        if stable && !self.closed && self.negotiating {
            Outcome {
                state: Session { negotiating: false, settled: true, ..self },
                result: Ok(Seq::empty()),
            }
        } else {
            self.quiet()
        }
    }

    /// A local candidate is passed to the peer through the relay.
    pub open spec fn on_candidate_discovered(self, candidate: CandidateView) -> Outcome {
        if self.closed {
            self.quiet()
        } else {
            Outcome {
                state: self,
                result: Ok(
                    seq![
                        ActionView::Send(
                            SocketMessageView::SignalMessageFromClient {
                                content: SignalingMessageView::ICECandidate { message: candidate },
                            },
                        ),
                    ],
                ),
            }
        }
    }

    /// The offer or answer that was asked for becomes the local description.
    pub open spec fn on_description_created(self, description: SessionDescriptionView) -> Outcome {
        if self.closed {
            self.quiet()
        } else {
            Outcome {
                state: self,
                result: Ok(seq![ActionView::SetLocalDescription(description)]),
            }
        }
    }

    /// The local description is passed to the peer through the relay,
    /// whatever the signaling state has become in the meantime.
    pub open spec fn on_local_description_set(self, description: SessionDescriptionView) -> Outcome {
        if !self.closed {
            Outcome {
                state: self,
                result: Ok(
                    seq![
                        ActionView::Send(
                            SocketMessageView::SignalMessageFromClient {
                                content: SignalingMessageView::SDP {
                                    message: description_message(description),
                                },
                            },
                        ),
                    ],
                ),
            }
        } else {
            self.quiet()
        }
    }

    /// A remote description was accepted: the candidates that waited are
    /// applied in the order in which they came, the buffer is left empty,
    /// and after that an answer is asked for where the description was an
    /// offer.
    pub open spec fn on_remote_description_accepted(self, kind: SdpType) -> Outcome {
        if self.closed {
            self.quiet()
        } else {
            let applied = applying(self.candidates);
            let answer = if kind == SdpType::Offer {
                seq![ActionView::CreateAnswer]
            } else {
                Seq::empty()
            };
            Outcome {
                state: Session {
                    remote_description_accepted: true,
                    candidates: Seq::empty(),
                    ..self
                },
                result: Ok(applied + answer),
            }
        }
    }

    /// A payload from the peer is delivered while the channel is there.
    pub open spec fn on_channel_message(self, payload: Seq<char>) -> Outcome {
        if self.peer_channel is Some {
            Outcome { state: self, result: Ok(seq![ActionView::Deliver(payload)]) }
        } else {
            self.quiet()
        }
    }

    /// The peer connection rejected an operation: the glare guard is
    /// cleared and the failure reported.
    pub open spec fn on_capability_failed(self) -> Outcome {
        Outcome {
            state: Session { negotiating: false, ..self },
            result: Err(CustomError::Capability),
        }
    }

    /// A send failed: the failure is reported, nothing is sent again and the
    /// session stays as it is.
    pub open spec fn on_send_failed(self) -> Outcome {
        Outcome { state: self, result: Err(CustomError::Send) }
    }

    /// The end of the session: what waited is discarded and the peer
    /// connection let go.
    pub open spec fn on_teardown(self) -> Outcome {
        if self.closed {
            self.quiet()
        } else {
            Outcome {
                state: Session {
                    negotiating: false,
                    candidates: Seq::empty(),
                    peer_channel: None,
                    closed: true,
                    ..self
                },
                result: Ok(seq![ActionView::Release]),
            }
        }
    }

    /// The transition of the engine: the session after an event, and what
    /// the event makes the engine ask for or report.
    pub open spec fn step(self, event: EventView) -> Outcome {
        match event {
            EventView::Connect(participants) => self.on_connect(participants),
            EventView::Relay(message) => self.on_message(message),
            EventView::NegotiationNeeded => self.on_negotiation_needed(),
            EventView::SignalingStateChanged { stable } => self.on_signaling_state(stable),
            EventView::CandidateDiscovered(candidate) => self.on_candidate_discovered(candidate),
            EventView::DescriptionCreated(description) => self.on_description_created(description),
            EventView::LocalDescriptionSet(description) => self.on_local_description_set(
                description,
            ),
            EventView::RemoteDescriptionAccepted(kind) => self.on_remote_description_accepted(kind),
            EventView::ChannelMessage(payload) => self.on_channel_message(payload),
            EventView::CapabilityFailed => self.on_capability_failed(),
            EventView::SendFailed => self.on_send_failed(),
            EventView::Teardown => self.on_teardown(),
        }
    }

    /// What a request to send a payload to the peer gives, where
    /// `channel_open` says whether the data channel is in its open state:
    /// the order to send the payload on the channel, or `ChannelNotReady`
    /// while the session has no channel or the channel is not open.
    pub open spec fn send(self, payload: Seq<char>, channel_open: bool) -> Result<
        ActionView,
        CustomError,
    > {
        match self.peer_channel {
            Some(channel) => if channel_open {
                Ok(ActionView::SendOnChannel { id: channel.id, payload })
            } else {
                Err(CustomError::ChannelNotReady)
            },
            None => Err(CustomError::ChannelNotReady),
        }
    }
}

} // verus!
