use peer_negotiator::buffer::CandidateBuffer;
use peer_negotiator::message::Candidate;
use peer_negotiator::session::Action;

fn candidate(n: u16) -> Candidate {
    Candidate { candidate: format!("c{}", n), sdp_mid: String::from("mid"), sdp_m_line_index: n }
}

#[test]
fn new_buffer_is_empty() {
    let mut buffer = CandidateBuffer::new();
    assert_eq!(buffer.len(), 0);
    let mut actions = vec![Action::CreateOffer];
    buffer.drain_into(&mut actions);
    assert_eq!(actions, vec![Action::CreateOffer]);
}

#[test]
fn drain_into_keeps_the_order_and_the_duplicates() {
    let mut buffer = CandidateBuffer::new();
    buffer.push(candidate(2));
    buffer.push(candidate(1));
    buffer.push(candidate(2));
    assert_eq!(buffer.len(), 3);
    let mut actions = vec![Action::Release];
    buffer.drain_into(&mut actions);
    assert_eq!(
        actions,
        vec![
            Action::Release,
            Action::AddIceCandidate(candidate(2)),
            Action::AddIceCandidate(candidate(1)),
            Action::AddIceCandidate(candidate(2)),
        ]
    );
    assert_eq!(buffer.len(), 0);
    let mut again = Vec::new();
    buffer.drain_into(&mut again);
    assert_eq!(again, vec![]);
}

#[test]
fn clear_drops_what_waits() {
    let mut buffer = CandidateBuffer::new();
    buffer.push(candidate(1));
    buffer.clear();
    assert_eq!(buffer.len(), 0);
}
