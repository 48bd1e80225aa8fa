use p2p_node_handshake::handshake_manager::{
    message_kind, outcome_of, run_events, step, DriverAction, DriverEvent, DriverState,
    FailureReason, HandshakeManager, HandshakeOutcome, MessageKind,
};
use p2p_node_handshake::network_messages::Message;
use p2p_node_handshake::peer::PeerAddr;

fn peer() -> PeerAddr {
    PeerAddr { ip_hi: 0, ip_lo: 0x0000_FFFF_0A00_0002, port: 8333 }
}

#[test]
fn compliant_responder_completes() {
    let events = vec![
        DriverEvent::Start,
        DriverEvent::Connected,
        DriverEvent::WriteCompleted,
        DriverEvent::EnvelopeReceived(MessageKind::Version),
        DriverEvent::WriteCompleted,
        DriverEvent::EnvelopeReceived(MessageKind::Verack),
    ];
    let end = run_events(&events);
    assert_eq!(end, DriverState::Concluded(HandshakeOutcome::Completed));
    assert_eq!(outcome_of(&end), Some(HandshakeOutcome::Completed));
}

#[test]
fn completed_outcome_is_reflected_by_the_ledger() {
    let events = vec![
        DriverEvent::Start,
        DriverEvent::Connected,
        DriverEvent::WriteCompleted,
        DriverEvent::EnvelopeReceived(MessageKind::Version),
        DriverEvent::WriteCompleted,
        DriverEvent::EnvelopeReceived(MessageKind::Verack),
    ];
    let completed = run_events(&events) == DriverState::Concluded(HandshakeOutcome::Completed);
    let mut manager = HandshakeManager::default();
    manager.record_handshake(peer(), completed);
    assert_eq!(manager.get_status(peer()), Some(true));
}

#[test]
fn listener_that_closes_without_bytes_never_completes() {
    // The connection is accepted, the local Version is written, and the
    // read then finds the stream closed: a truncated stream.
    let events = vec![
        DriverEvent::Start,
        DriverEvent::Connected,
        DriverEvent::WriteCompleted,
        DriverEvent::DecodeFailed,
    ];
    let end = run_events(&events);
    assert_eq!(
        end,
        DriverState::Concluded(HandshakeOutcome::Failed(FailureReason::DecodeError))
    );

    // The same listener observed as a transport-level read failure.
    let events = vec![
        DriverEvent::Start,
        DriverEvent::Connected,
        DriverEvent::WriteCompleted,
        DriverEvent::ReadFailed,
    ];
    let end = run_events(&events);
    assert_eq!(
        end,
        DriverState::Concluded(HandshakeOutcome::Failed(FailureReason::IoError))
    );
}

#[test]
fn connect_failure_concludes_with_connect_error() {
    let events = vec![DriverEvent::Start, DriverEvent::ConnectFailed];
    assert_eq!(
        run_events(&events),
        DriverState::Concluded(HandshakeOutcome::Failed(FailureReason::ConnectError))
    );
}

#[test]
fn write_failure_concludes_with_io_error() {
    let events = vec![DriverEvent::Start, DriverEvent::Connected, DriverEvent::WriteFailed];
    assert_eq!(
        run_events(&events),
        DriverState::Concluded(HandshakeOutcome::Failed(FailureReason::IoError))
    );
}

#[test]
fn timeout_concludes_and_closes_the_connection() {
    // Wherever the budget elapses, the outcome is TimedOut and the action
    // closes the socket.
    let waiting_states = [
        DriverState::Idle,
        DriverState::Connecting,
        DriverState::VersionSent,
        DriverState::AwaitingRemoteVersion,
        DriverState::AckSent,
        DriverState::AwaitingRemoteAck,
    ];
    for s in waiting_states {
        let (next, action) = step(s, DriverEvent::TimeoutFired);
        assert_eq!(next, DriverState::Concluded(HandshakeOutcome::TimedOut));
        assert_eq!(action, DriverAction::CloseConnection);
    }

    let events = vec![
        DriverEvent::Start,
        DriverEvent::Connected,
        DriverEvent::WriteCompleted,
        DriverEvent::TimeoutFired,
    ];
    assert_eq!(
        run_events(&events),
        DriverState::Concluded(HandshakeOutcome::TimedOut)
    );
}

#[test]
fn acknowledgment_in_place_of_version_is_a_protocol_violation() {
    let events = vec![
        DriverEvent::Start,
        DriverEvent::Connected,
        DriverEvent::WriteCompleted,
        DriverEvent::EnvelopeReceived(MessageKind::Verack),
    ];
    assert_eq!(
        run_events(&events),
        DriverState::Concluded(HandshakeOutcome::Failed(FailureReason::ProtocolViolation))
    );
}

#[test]
fn version_in_place_of_acknowledgment_is_a_protocol_violation() {
    let events = vec![
        DriverEvent::Start,
        DriverEvent::Connected,
        DriverEvent::WriteCompleted,
        DriverEvent::EnvelopeReceived(MessageKind::Version),
        DriverEvent::WriteCompleted,
        DriverEvent::EnvelopeReceived(MessageKind::Version),
    ];
    assert_eq!(
        run_events(&events),
        DriverState::Concluded(HandshakeOutcome::Failed(FailureReason::ProtocolViolation))
    );
}

#[test]
fn concluded_states_absorb_further_events() {
    let concluded = DriverState::Concluded(HandshakeOutcome::TimedOut);
    let (next, action) = step(concluded, DriverEvent::Connected);
    assert_eq!(next, concluded);
    assert_eq!(action, DriverAction::NoAction);
}

#[test]
fn transitions_follow_the_four_step_order() {
    let (s, a) = step(DriverState::Idle, DriverEvent::Start);
    assert_eq!((s, a), (DriverState::Connecting, DriverAction::OpenConnection));
    let (s, a) = step(s, DriverEvent::Connected);
    assert_eq!((s, a), (DriverState::VersionSent, DriverAction::SendVersion));
    let (s, a) = step(s, DriverEvent::WriteCompleted);
    assert_eq!((s, a), (DriverState::AwaitingRemoteVersion, DriverAction::AwaitEnvelope));
    let (s, a) = step(s, DriverEvent::EnvelopeReceived(MessageKind::Version));
    assert_eq!((s, a), (DriverState::AckSent, DriverAction::SendAck));
    let (s, a) = step(s, DriverEvent::WriteCompleted);
    assert_eq!((s, a), (DriverState::AwaitingRemoteAck, DriverAction::AwaitEnvelope));
    let (s, a) = step(s, DriverEvent::EnvelopeReceived(MessageKind::Verack));
    assert_eq!(
        (s, a),
        (DriverState::Concluded(HandshakeOutcome::Completed), DriverAction::CloseConnection)
    );
}

#[test]
fn ledger_overwrites_and_reports_the_last_outcome() {
    let mut manager = HandshakeManager::default();
    let other = PeerAddr { ip_hi: 1, ip_lo: 2, port: 3 };
    assert_eq!(manager.get_status(peer()), None);
    manager.record_handshake(peer(), true);
    manager.record_handshake(other, false);
    assert_eq!(manager.get_status(peer()), Some(true));
    assert_eq!(manager.get_status(other), Some(false));
    manager.record_handshake(peer(), false);
    assert_eq!(manager.get_status(peer()), Some(false));
    assert_eq!(manager.all_statuses().len(), 2);
}

#[test]
fn default_manager_has_two_second_budget_and_empty_ledger() {
    let manager = HandshakeManager::default();
    assert_eq!(manager.timeout_ms(), 2000);
    assert_eq!(manager.all_statuses().len(), 0);
}

#[test]
fn message_kind_distinguishes_the_two_messages() {
    assert_eq!(message_kind(&Message::Verack), MessageKind::Verack);
    let bytes = p2p_node_handshake::network_messages::make_verack_message_serialised();
    let (message, _) = p2p_node_handshake::network_messages::parse_next(&bytes).unwrap();
    assert_eq!(message_kind(&message), MessageKind::Verack);
}

#[test]
fn outcomes_convert_to_the_caller_facing_result() {
    assert_eq!(HandshakeOutcome::Completed.as_result(), Ok(true));
    assert!(HandshakeOutcome::TimedOut.as_result().is_err());
    assert!(HandshakeOutcome::Failed(FailureReason::ConnectError).as_result().is_err());
}

#[test]
fn unconcluded_states_have_no_outcome() {
    assert_eq!(outcome_of(&DriverState::Idle), None);
    assert_eq!(outcome_of(&DriverState::AwaitingRemoteAck), None);
}
