//! The typed signaling envelopes that travel between a peer and the relay.

use vstd::prelude::*;

verus! {

/// Whether a text is the one that `name` spells.
pub(crate) fn text_is(text: &String, name: &str) -> (res: bool)
    ensures
        res == (text@ == name@),
{
    let wanted = String::from_str(name);
    *text == wanted
}

/// The identity pair of a session: who joins, and whom they want to reach.
#[derive(Debug, PartialEq, Eq)]
pub struct Participants {
    pub user_from: String,
    pub user_to: String,
}

pub struct ParticipantsView {
    pub user_from: Seq<char>,
    pub user_to: Seq<char>,
}

impl View for Participants {
    type V = ParticipantsView;

    open spec fn view(&self) -> ParticipantsView {
        ParticipantsView { user_from: self.user_from@, user_to: self.user_to@ }
    }
}

impl Clone for Participants {
    fn clone(&self) -> (res: Self)
        ensures
            res@ == self@,
    {
        Participants { user_from: self.user_from.clone(), user_to: self.user_to.clone() }
    }
}

/// The room that the relay assigned on joining.
#[derive(Debug, PartialEq, Eq, Clone)]
pub struct Room {
    pub room: String,
}

pub struct RoomView {
    pub room: Seq<char>,
}

impl View for Room {
    type V = RoomView;

    open spec fn view(&self) -> RoomView {
        RoomView { room: self.room@ }
    }
}

/// A session description on the wire: its kind as text, and its body.
#[derive(Debug, PartialEq, Eq)]
pub struct SDPMessage {
    pub type_: String,
    pub sdp: String,
}

pub struct SDPMessageView {
    pub type_: Seq<char>,
    pub sdp: Seq<char>,
}

impl View for SDPMessage {
    type V = SDPMessageView;

    open spec fn view(&self) -> SDPMessageView {
        SDPMessageView { type_: self.type_@, sdp: self.sdp@ }
    }
}

impl Clone for SDPMessage {
    fn clone(&self) -> (res: Self)
        ensures
            res@ == self@,
    {
        SDPMessage { type_: self.type_.clone(), sdp: self.sdp.clone() }
    }
}

/// One possible network path on which a peer may be reached.
#[derive(Debug, PartialEq, Eq)]
pub struct Candidate {
    pub candidate: String,
    pub sdp_mid: String,
    pub sdp_m_line_index: u16,
}

pub struct CandidateView {
    pub candidate: Seq<char>,
    pub sdp_mid: Seq<char>,
    pub sdp_m_line_index: u16,
}

impl View for Candidate {
    type V = CandidateView;

    open spec fn view(&self) -> CandidateView {
        CandidateView {
            candidate: self.candidate@,
            sdp_mid: self.sdp_mid@,
            sdp_m_line_index: self.sdp_m_line_index,
        }
    }
}

impl Clone for Candidate {
    fn clone(&self) -> (res: Self)
        ensures
            res@ == self@,
    {
        Candidate {
            candidate: self.candidate.clone(),
            sdp_mid: self.sdp_mid.clone(),
            sdp_m_line_index: self.sdp_m_line_index,
        }
    }
}

/// What one peer tells the other through the relay.
#[derive(Debug, PartialEq, Eq, Clone)]
pub enum SignalingMessage {
    /// The peer is in the room and names the id of the data channel.
    UserHere { message: u16 },
    ICECandidate { message: Candidate },
    SDP { message: SDPMessage },
}

pub enum SignalingMessageView {
    UserHere { message: u16 },
    ICECandidate { message: CandidateView },
    SDP { message: SDPMessageView },
}

impl View for SignalingMessage {
    type V = SignalingMessageView;

    open spec fn view(&self) -> SignalingMessageView {
        match self {
            SignalingMessage::UserHere { message } => SignalingMessageView::UserHere {
                message: *message,
            },
            SignalingMessage::ICECandidate { message } => SignalingMessageView::ICECandidate {
                message: message@,
            },
            SignalingMessage::SDP { message } => SignalingMessageView::SDP { message: message@ },
        }
    }
}

/// An envelope of the signaling protocol.
#[derive(Debug, PartialEq, Eq, Clone)]
pub enum SocketMessage {
    NewUser { content: Participants },
    SignalMessageFromClient { content: SignalingMessage },
    SignalMessageToClient { content: SignalingMessage },
    JoinedRoom { content: Room },
}

pub enum SocketMessageView {
    NewUser { content: ParticipantsView },
    SignalMessageFromClient { content: SignalingMessageView },
    SignalMessageToClient { content: SignalingMessageView },
    JoinedRoom { content: RoomView },
}

impl View for SocketMessage {
    type V = SocketMessageView;

    open spec fn view(&self) -> SocketMessageView {
        match self {
            SocketMessage::NewUser { content } => SocketMessageView::NewUser { content: content@ },
            SocketMessage::SignalMessageFromClient { content } => {
                SocketMessageView::SignalMessageFromClient { content: content@ }
            },
            SocketMessage::SignalMessageToClient { content } => {
                SocketMessageView::SignalMessageToClient { content: content@ }
            },
            SocketMessage::JoinedRoom { content } => SocketMessageView::JoinedRoom {
                content: content@,
            },
        }
    }
}

} // verus!
