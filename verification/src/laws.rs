//! What holds of every session, proved over the transition function.

use crate::codec::DecodeError;
use crate::message::{CandidateView, SDPMessageView, SignalingMessageView, SocketMessageView};
use crate::session::{
    applying, description_message, message_description, sdp_type_name, sdp_type_named, ActionView,
    CustomError, DataChannelView, EventView, Phase, SdpType, Session, SessionDescriptionView,
};
use vstd::prelude::*;

verus! {

/// The event of a remote candidate that arrives through the relay.
pub open spec fn remote_candidate(candidate: CandidateView) -> EventView {
    EventView::Relay(
        SocketMessageView::SignalMessageToClient {
            content: SignalingMessageView::ICECandidate { message: candidate },
        },
    )
}

/// The event of the peer's announcement of the data channel's id.
pub open spec fn user_here(id: u16) -> EventView {
    EventView::Relay(
        SocketMessageView::SignalMessageToClient {
            content: SignalingMessageView::UserHere { message: id },
        },
    )
}

/// The event of a remote session description that arrives through the relay.
pub open spec fn remote_description(message: SDPMessageView) -> EventView {
    EventView::Relay(
        SocketMessageView::SignalMessageToClient {
            content: SignalingMessageView::SDP { message },
        },
    )
}

/// The session after the remote candidates of `candidates` arrived, one
/// after the other.
pub open spec fn after_candidates(session: Session, candidates: Seq<CandidateView>) -> Session
    decreases candidates.len(),
{
    if candidates.len() == 0 {
        session
    } else {
        after_candidates(session, candidates.drop_last()).step(
            remote_candidate(candidates.last()),
        ).state
    }
}

/// How many of `actions` ask for an offer.
pub open spec fn offers(actions: Result<Seq<ActionView>, CustomError>) -> nat {
    match actions {
        Ok(asked) => asked.filter(|a: ActionView| a is CreateOffer).len(),
        Err(_) => 0,
    }
}

/// The kinds of session description are told apart by their names.
pub proof fn lemma_sdp_type_names(kind: SdpType)
    ensures
        sdp_type_named(sdp_type_name(kind)) == Some(kind),
{
    reveal_strlit("offer");
    reveal_strlit("answer");
    reveal_strlit("pranswer");
    reveal_strlit("rollback");
    assert("offer"@.len() == 5);
    assert("answer"@.len() == 6);
    assert("pranswer"@.len() == 8);
    assert("rollback"@[0] == 'r');
    assert("pranswer"@[0] == 'p');
}

/// A session description is read back from its wire form.
pub proof fn lemma_description_round_trip(description: SessionDescriptionView)
    ensures
        message_description(description_message(description)) == Some(description),
{
    lemma_sdp_type_names(description.kind);
}

/// A fresh session is well formed and idle.
pub proof fn lemma_initial_session()
    ensures
        Session::initial().wf(),
        Session::initial().phase() == Phase::Idle,
{
}

/// No event leads out of the well-formed sessions.
pub proof fn lemma_step_keeps_wf(session: Session, event: EventView)
    requires
        session.wf(),
    ensures
        session.step(event).state.wf(),
{
}

/// A closed session stays as it is and asks for nothing, whatever happens.
pub proof fn lemma_closed_is_final(session: Session, event: EventView)
    requires
        session.wf(),
        session.closed,
    ensures
        session.step(event).state == session,
        session.step(event).result matches Ok(asked) ==> asked.len() == 0,
{
}

/// An event that is answered with an error is dropped: the session stays as
/// it was, but for the glare guard, which a failure of the peer connection
/// brings down.
pub proof fn lemma_error_drops_event(session: Session, event: EventView)
    requires
        session.step(event).result is Err,
    ensures
        event is CapabilityFailed ==> session.step(event).state == (Session {
            negotiating: false,
            ..session
        }),
        !(event is CapabilityFailed) ==> session.step(event).state == session,
{
}

/// A text from the relay that is no envelope changes nothing.
pub proof fn lemma_malformed_text_changes_nothing(session: Session, error: DecodeError)
    ensures
        session.on_text(Err(error)).state == session,
        session.on_text(Err(error)).result == Err::<Seq<ActionView>, CustomError>(
            CustomError::Decode(error),
        ),
{
}

/// The buffer grows by an event exactly where the event is a remote
/// candidate that reaches a session which is not closed and has accepted no
/// remote description yet; the candidate is then the last that waits.
pub proof fn lemma_buffer_grows_only_before_acceptance(session: Session, event: EventView)
    ensures
        session.step(event).state.candidates.len() > session.candidates.len() <==> {
            &&& event matches EventView::Relay(
                SocketMessageView::SignalMessageToClient {
                    content: SignalingMessageView::ICECandidate { .. },
                },
            )
            &&& !session.closed
            &&& !session.remote_description_accepted
        },
        session.step(event).state.candidates.len() > session.candidates.len() ==> {
            &&& event == remote_candidate(session.step(event).state.candidates.last())
            &&& session.step(event).state.candidates.drop_last() == session.candidates
        },
{
    if session.step(event).state.candidates.len() > session.candidates.len() {
        let candidate = event->Relay_0->SignalMessageToClient_content->ICECandidate_message;
        assert(session.candidates.push(candidate).drop_last() =~= session.candidates);
    }
}

/// The glare guard goes up only by a trigger of the peer connection or by
/// an offer of the peer, and only in a session that is not closed.
pub proof fn lemma_guard_goes_up_by_a_trigger(session: Session, event: EventView)
    requires
        !session.negotiating,
        session.step(event).state.negotiating,
    ensures
        !session.closed,
        event is NegotiationNeeded || (exists|sdp: Seq<char>|
            event == remote_description(
                SDPMessageView { type_: sdp_type_name(SdpType::Offer), sdp },
            )),
{
    if !(event is NegotiationNeeded) {
        let message = event->Relay_0->SignalMessageToClient_content->SDP_message;
        assert(sdp_type_named(message.type_) == Some(SdpType::Offer));
        assert(message.type_ == sdp_type_name(SdpType::Offer));
        assert(event == remote_description(
            SDPMessageView { type_: sdp_type_name(SdpType::Offer), sdp: message.sdp },
        ));
    }
}

/// The glare guard comes down only by a stable signaling state, by a failure
/// of the peer connection or by the end of the session.
pub proof fn lemma_guard_comes_down_by_stable_state(session: Session, event: EventView)
    requires
        session.negotiating,
        !session.step(event).state.negotiating,
    ensures
        event == (EventView::SignalingStateChanged { stable: true }) || event is CapabilityFailed
            || event is Teardown,
{
}

/// A trigger of the peer connection that reaches a session which is not
/// closed and has the glare guard down, whether or not its room is bound,
/// raises the guard and asks for an offer; the offer that the peer
/// connection makes becomes the local description and, once it is set, is
/// sent to the peer as one envelope of kind `offer`.
pub proof fn lemma_offer_is_sent(session: Session, offer: SessionDescriptionView)
    requires
        !session.closed,
        !session.negotiating,
        offer.kind == SdpType::Offer,
    ensures
        ({
            let triggered = session.step(EventView::NegotiationNeeded);
            let created = triggered.state.step(EventView::DescriptionCreated(offer));
            let set = created.state.step(EventView::LocalDescriptionSet(offer));
            &&& triggered.result == Ok::<Seq<ActionView>, CustomError>(
                seq![ActionView::CreateOffer],
            )
            &&& triggered.state == (Session { negotiating: true, ..session })
            &&& created.result == Ok::<Seq<ActionView>, CustomError>(
                seq![ActionView::SetLocalDescription(offer)],
            )
            &&& set.result == Ok::<Seq<ActionView>, CustomError>(
                seq![
                    ActionView::Send(
                        SocketMessageView::SignalMessageFromClient {
                            content: SignalingMessageView::SDP {
                                message: SDPMessageView { type_: "offer"@, sdp: offer.sdp },
                            },
                        },
                    ),
                ],
            )
            &&& set.state == triggered.state
        }),
{
}

/// An offer of the peer that reaches a session which is not closed and has
/// the glare guard down, whether or not its room is bound, raises the guard
/// and becomes the remote description; once it is accepted, the candidates
/// that waited are applied in their order and then an answer is asked for;
/// the answer becomes the local description and, once it is set, is sent to
/// the peer as one envelope of kind `answer`.
pub proof fn lemma_answer_is_sent(
    session: Session,
    offer: SessionDescriptionView,
    answer: SessionDescriptionView,
)
    requires
        !session.closed,
        !session.negotiating,
        offer.kind == SdpType::Offer,
        answer.kind == SdpType::Answer,
    ensures
        ({
            let arrived = session.step(remote_description(description_message(offer)));
            let accepted = arrived.state.step(EventView::RemoteDescriptionAccepted(offer.kind));
            let created = accepted.state.step(EventView::DescriptionCreated(answer));
            let set = created.state.step(EventView::LocalDescriptionSet(answer));
            &&& arrived.result == Ok::<Seq<ActionView>, CustomError>(
                seq![ActionView::SetRemoteDescription(offer)],
            )
            &&& arrived.state == (Session { negotiating: true, ..session })
            &&& accepted.result == Ok::<Seq<ActionView>, CustomError>(
                applying(session.candidates) + seq![ActionView::CreateAnswer],
            )
            &&& accepted.state.candidates.len() == 0
            &&& created.result == Ok::<Seq<ActionView>, CustomError>(
                seq![ActionView::SetLocalDescription(answer)],
            )
            &&& set.result == Ok::<Seq<ActionView>, CustomError>(
                seq![
                    ActionView::Send(
                        SocketMessageView::SignalMessageFromClient {
                            content: SignalingMessageView::SDP {
                                message: SDPMessageView { type_: "answer"@, sdp: answer.sdp },
                            },
                        },
                    ),
                ],
            )
        }),
{
    lemma_description_round_trip(offer);
}

/// A local description that was set is sent to the peer by every session
/// that is not closed, whatever the signaling state has become: a stable
/// state that is reported before the setting completes loses no answer.
pub proof fn lemma_local_description_is_sent(session: Session, description: SessionDescriptionView)
    requires
        !session.closed,
    ensures
        ({
            let envelope = ActionView::Send(
                SocketMessageView::SignalMessageFromClient {
                    content: SignalingMessageView::SDP {
                        message: description_message(description),
                    },
                },
            );
            let settled = session.step(EventView::SignalingStateChanged { stable: true }).state;
            &&& session.step(EventView::LocalDescriptionSet(description)).result == Ok::<
                Seq<ActionView>,
                CustomError,
            >(seq![envelope])
            &&& session.step(EventView::LocalDescriptionSet(description)).state == session
            &&& settled.step(EventView::LocalDescriptionSet(description)).result == Ok::<
                Seq<ActionView>,
                CustomError,
            >(seq![envelope])
        }),
{
}

/// A remote candidate that reaches a session which is not closed and has
/// accepted no remote description is appended to the buffer: it is the
/// last that waits, those before it keep their places, and nothing is asked
/// for. A closed session has no buffer left and takes no candidate.
pub proof fn lemma_candidate_is_appended(session: Session, candidate: CandidateView)
    ensures
        !session.closed && !session.remote_description_accepted ==> session.step(
            remote_candidate(candidate),
        ).state == (Session { candidates: session.candidates.push(candidate), ..session }),
        !session.remote_description_accepted ==> session.step(
            remote_candidate(candidate),
        ).result == Ok::<Seq<ActionView>, CustomError>(Seq::empty()),
        session.closed ==> session.step(remote_candidate(candidate)).state == session,
{
}

/// While no remote description was accepted, remote candidates are kept in
/// the order in which they arrive, behind those that wait already, and none
/// is applied.
pub proof fn lemma_candidates_wait(session: Session, candidates: Seq<CandidateView>)
    requires
        !session.closed,
        !session.remote_description_accepted,
    ensures
        after_candidates(session, candidates) == (Session {
            candidates: session.candidates + candidates,
            ..session
        }),
    decreases candidates.len(),
{
    if candidates.len() == 0 {
        assert(session.candidates + candidates =~= session.candidates);
    } else {
        lemma_candidates_wait(session, candidates.drop_last());
        assert((session.candidates + candidates.drop_last()).push(candidates.last())
            =~= session.candidates + candidates);
    }
}

/// Candidates that arrive before a remote description is accepted are
/// applied when it is: each once, in the order of arrival, before an answer
/// is asked for; the buffer is empty after that. From then on nothing waits
/// any more: a later candidate is applied at once and the buffer stays
/// empty, so that nothing is applied a second time.
pub proof fn lemma_candidates_applied_in_order(
    session: Session,
    candidates: Seq<CandidateView>,
    kind: SdpType,
    later: CandidateView,
)
    requires
        !session.closed,
        !session.remote_description_accepted,
        session.candidates.len() == 0,
    ensures
        ({
            let accepted = after_candidates(session, candidates).step(
                EventView::RemoteDescriptionAccepted(kind),
            );
            let answer = if kind == SdpType::Offer {
                seq![ActionView::CreateAnswer]
            } else {
                Seq::empty()
            };
            let next = accepted.state.step(remote_candidate(later));
            &&& accepted.result == Ok::<Seq<ActionView>, CustomError>(
                applying(candidates) + answer,
            )
            &&& applying(candidates).len() == candidates.len()
            &&& forall|i: int|
                0 <= i < candidates.len() ==> #[trigger] applying(candidates)[i]
                    == ActionView::AddIceCandidate(candidates[i])
            &&& accepted.state.candidates.len() == 0
            &&& accepted.state.remote_description_accepted
            &&& next.result == Ok::<Seq<ActionView>, CustomError>(
                seq![ActionView::AddIceCandidate(later)],
            )
            &&& next.state == accepted.state
        }),
{
    lemma_candidates_wait(session, candidates);
    assert(session.candidates + candidates =~= candidates);
}

/// The glare guard: of two triggers of a negotiation in a row, the second
/// changes nothing and asks for nothing, so that at most one offer is asked
/// for, and exactly one where the session was not closed and the guard was
/// down, whether or not its room was bound; the guard is up until the
/// signaling state is stable again, and down after that.
pub proof fn lemma_glare_guard(session: Session)
    requires
        session.wf(),
    ensures
        ({
            let first = session.step(EventView::NegotiationNeeded);
            let second = first.state.step(EventView::NegotiationNeeded);
            let stable = second.state.step(EventView::SignalingStateChanged { stable: true });
            &&& second.state == first.state
            &&& second.result == Ok::<Seq<ActionView>, CustomError>(Seq::empty())
            &&& offers(first.result) + offers(second.result) <= 1
            &&& !session.closed && !session.negotiating ==> {
                &&& first.result == Ok::<Seq<ActionView>, CustomError>(
                    seq![ActionView::CreateOffer],
                )
                &&& first.state == (Session { negotiating: true, ..session })
                &&& offers(first.result) + offers(second.result) == 1
                &&& second.state.negotiating
            }
            &&& !stable.state.negotiating
            &&& stable.result == Ok::<Seq<ActionView>, CustomError>(Seq::empty())
        }),
{
    let first = session.step(EventView::NegotiationNeeded);
    let is_offer = |a: ActionView| a is CreateOffer;
    assert(Seq::<ActionView>::empty().filter(is_offer).len() == 0) by {
        reveal(Seq::filter);
    }
    if !session.closed && !session.negotiating {
        let asked = seq![ActionView::CreateOffer];
        assert(asked.filter(is_offer).len() == 1) by {
            reveal(Seq::filter);
            assert(asked.drop_last() =~= Seq::<ActionView>::empty());
            assert(asked.filter(is_offer) =~= seq![ActionView::CreateOffer]);
        }
    }
}

/// A stable signaling state opens the guard again: trigger, stable state,
/// trigger asks for two offers, one by each trigger, and leaves the guard
/// up.
pub proof fn lemma_stable_state_reopens_guard(session: Session)
    requires
        !session.closed,
        !session.negotiating,
    ensures
        ({
            let first = session.step(EventView::NegotiationNeeded);
            let stable = first.state.step(EventView::SignalingStateChanged { stable: true });
            let second = stable.state.step(EventView::NegotiationNeeded);
            &&& first.result == Ok::<Seq<ActionView>, CustomError>(seq![ActionView::CreateOffer])
            &&& stable.result == Ok::<Seq<ActionView>, CustomError>(Seq::empty())
            &&& !stable.state.negotiating
            &&& second.result == Ok::<Seq<ActionView>, CustomError>(
                seq![ActionView::CreateOffer],
            )
            &&& second.state.negotiating
        }),
{
}

/// While a negotiation is under way, an offer of the peer is dropped: the
/// session stays as it is and nothing is asked for.
pub proof fn lemma_remote_offer_guarded(session: Session, sdp: Seq<char>)
    requires
        session.wf(),
        session.negotiating,
    ensures
        session.step(
            remote_description(SDPMessageView { type_: sdp_type_name(SdpType::Offer), sdp }),
        ) == session.quiet(),
{
    lemma_sdp_type_names(SdpType::Offer);
}

/// A payload cannot be sent exactly while the session has no data channel
/// or the channel is not open; else the order is to send it on the
/// session's channel.
pub proof fn lemma_send_needs_open_channel(
    session: Session,
    payload: Seq<char>,
    channel_open: bool,
)
    ensures
        session.send(payload, channel_open) == Err::<ActionView, CustomError>(
            CustomError::ChannelNotReady,
        ) <==> !session.signaling_channel_opened() || !channel_open,
        session.signaling_channel_opened() && channel_open ==> session.send(payload, channel_open)
            == Ok::<ActionView, CustomError>(
            ActionView::SendOnChannel { id: session.peer_channel->Some_0.id, payload },
        ),
{
}

/// The first announcement of the data channel's id to a session that has
/// its room asks for the channel under the room's name and that id; from
/// then on payloads are sent on it while it is open, and a second
/// announcement changes nothing.
pub proof fn lemma_send_after_user_here(session: Session, id: u16, other: u16, payload: Seq<char>)
    requires
        !session.closed,
        session.room is Some,
        !session.signaling_channel_opened(),
    ensures
        ({
            let announced = session.step(user_here(id));
            let channel = DataChannelView { label: session.room->Some_0, id };
            &&& session.send(payload, true) == Err::<ActionView, CustomError>(
                CustomError::ChannelNotReady,
            )
            &&& announced.result == Ok::<Seq<ActionView>, CustomError>(
                seq![ActionView::CreateDataChannel(channel)],
            )
            &&& announced.state.signaling_channel_opened()
            &&& announced.state.send(payload, true) == Ok::<ActionView, CustomError>(
                ActionView::SendOnChannel { id, payload },
            )
            &&& announced.state.send(payload, false) == Err::<ActionView, CustomError>(
                CustomError::ChannelNotReady,
            )
            &&& announced.state.step(user_here(other)) == announced.state.quiet()
        }),
{
}

/// Whether a session may pass from one phase to the other by one event. A
/// negotiation may start in every phase but `Closed`, and ends where the
/// session stands with the relay.
pub open spec fn phase_follows(from: Phase, to: Phase) -> bool {
    ||| to == from
    ||| to == Phase::Closed
    ||| from != Phase::Closed && to == Phase::Negotiating
    ||| from == Phase::Idle && to == Phase::AwaitingRoom
    ||| from == Phase::AwaitingRoom && (to == Phase::Ready || to == Phase::Stable)
    ||| from == Phase::Negotiating
}

/// A session moves through its phases in their order: from idle to the
/// wait for the room and on to ready or stable, at any time into a
/// negotiation and out of it, until it is closed. A negotiation ends in
/// `Ready` only by a failure of the peer connection in a session that has
/// its room and has never been stable.
pub proof fn lemma_phases_in_order(session: Session, event: EventView)
    requires
        session.wf(),
    ensures
        phase_follows(session.phase(), session.step(event).state.phase()),
        session.phase() == Phase::Closed ==> session.step(event).state.phase() == Phase::Closed,
        session.phase() == Phase::Negotiating && session.step(event).state.phase()
            == Phase::Ready ==> event is CapabilityFailed && !session.settled,
{
}

/// The participants are those of the connect request for as long as the
/// session lasts.
pub proof fn lemma_participants_stay(session: Session, event: EventView)
    requires
        session.participants is Some,
    ensures
        session.step(event).state.participants == session.participants,
{
}

/// The data channel is set once: no event but the end of the session
/// changes it after that.
pub proof fn lemma_channel_set_once(session: Session, event: EventView)
    requires
        session.peer_channel is Some,
        !(event is Teardown),
    ensures
        session.step(event).state.peer_channel == session.peer_channel,
{
}

/// The room is bound once: by the first acknowledgment after the connect
/// request, and no event changes it after that.
pub proof fn lemma_room_bound_once(session: Session, event: EventView)
    requires
        session.room is Some,
    ensures
        session.step(event).state.room == session.room,
{
}

} // verus!
