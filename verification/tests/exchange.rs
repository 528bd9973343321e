use qdisc_netem::constants::{NLM_F_ACK, NLM_F_REQUEST};
use qdisc_netem::exchange::{next_state, send_flags, ExchangeEvent, ExchangeState};
use qdisc_netem::message::TcMessage;
use qdisc_netem::request::QDiscNewRequest;

fn run(events: &[ExchangeEvent]) -> ExchangeState {
    events.iter().fold(ExchangeState::Waiting, |s, e| next_state(s, *e))
}

#[test]
fn send_flags_ask_for_ack() {
    let req = QDiscNewRequest::new(TcMessage::with_index(1), 0x600);
    assert_eq!(send_flags(&req), 0x605);
    let req = QDiscNewRequest::new(TcMessage::with_index(1), 0);
    assert_eq!(send_flags(&req), NLM_F_REQUEST | NLM_F_ACK);
}

#[test]
fn error_answer_fails_the_exchange() {
    let ok = ExchangeEvent::Answer { is_error: false };
    let err = ExchangeEvent::Answer { is_error: true };
    assert_eq!(run(&[ok, err]), ExchangeState::Failed);
    assert_eq!(run(&[err, ExchangeEvent::End]), ExchangeState::Failed);
}

#[test]
fn end_of_answers_succeeds() {
    let ok = ExchangeEvent::Answer { is_error: false };
    let err = ExchangeEvent::Answer { is_error: true };
    assert_eq!(run(&[ok, ok, ExchangeEvent::End]), ExchangeState::Succeeded);
    assert_eq!(run(&[ExchangeEvent::End, err]), ExchangeState::Succeeded);
    assert_eq!(run(&[ok]), ExchangeState::Waiting);
    assert_eq!(run(&[]), ExchangeState::Waiting);
}
