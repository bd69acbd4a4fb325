use swap::bitcoin::EncryptedSignature;
use swap::network::request_response::{ProtocolSupport, TIMEOUT};
use swap::protocol::alice::encrypted_signature::{
    Behaviour, Event, OutEvent, ProtocolViolation, Reaction,
};
use swap::protocol::bob;

fn message(fill: u8) -> bob::EncryptedSignature {
    bob::EncryptedSignature { tx_redeem_encsig: EncryptedSignature { bytes: [fill; 162] } }
}

fn fill_of(event: Option<OutEvent>) -> Option<u8> {
    event.map(|OutEvent::Msg(msg)| msg.tx_redeem_encsig.bytes[0])
}

#[test]
fn default_receives_only_and_waits_a_minute() {
    let mut behaviour = Behaviour::default();
    assert_eq!(TIMEOUT, 60);
    assert_eq!(behaviour.config().request_timeout_secs, 60);
    assert_eq!(behaviour.config().support, ProtocolSupport::Inbound);
    assert!(behaviour.poll().is_none());
}

#[test]
fn request_is_queued_and_acknowledged() {
    let mut behaviour = Behaviour::default();
    assert_eq!(behaviour.inject_event(Event::Request(message(1))), Ok(Reaction::Acknowledge));
    assert_eq!(fill_of(behaviour.poll()), Some(1));
    assert!(behaviour.poll().is_none());
}

#[test]
fn requests_are_handed_on_in_their_order() {
    let mut behaviour = Behaviour::default();
    for fill in [3u8, 1, 2] {
        assert_eq!(
            behaviour.inject_event(Event::Request(message(fill))),
            Ok(Reaction::Acknowledge)
        );
        assert_eq!(behaviour.inject_event(Event::ResponseSent), Ok(Reaction::Nothing));
    }
    assert_eq!(fill_of(behaviour.poll()), Some(3));
    assert_eq!(fill_of(behaviour.poll()), Some(1));
    assert_eq!(fill_of(behaviour.poll()), Some(2));
    assert!(behaviour.poll().is_none());
}

#[test]
fn response_is_a_protocol_violation() {
    let mut behaviour = Behaviour::default();
    assert_eq!(
        behaviour.inject_event(Event::Response),
        Err(ProtocolViolation::UnexpectedResponse)
    );
    assert!(behaviour.poll().is_none());
}

#[test]
fn failures_change_nothing() {
    let mut behaviour = Behaviour::default();
    assert_eq!(behaviour.inject_event(Event::Request(message(9))), Ok(Reaction::Acknowledge));
    assert_eq!(behaviour.inject_event(Event::InboundFailure), Ok(Reaction::Nothing));
    assert_eq!(behaviour.inject_event(Event::OutboundFailure), Ok(Reaction::Nothing));
    assert_eq!(behaviour.inject_event(Event::ResponseSent), Ok(Reaction::Nothing));
    assert_eq!(behaviour.config().request_timeout_secs, TIMEOUT);
    assert_eq!(fill_of(behaviour.poll()), Some(9));
    assert!(behaviour.poll().is_none());
}
