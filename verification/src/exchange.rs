//! The exchange with the kernel once a request is built: the flags of the
//! message that carries it, and what each answer means for the outcome.
use crate::constants::{NLM_F_ACK, NLM_F_REQUEST};
use crate::request::QDiscNewRequest;
use vstd::prelude::*;

verus! {

/// Where the exchange for one request stands.
#[derive(Debug, Clone, Copy, PartialEq, Eq, Structural)]
pub enum ExchangeState {
    /// Answers are still coming.
    Waiting,
    /// The answers ended without an error.
    Succeeded,
    /// The kernel answered with an error.
    Failed,
}

/// What happened next in the exchange.
#[derive(Debug, Clone, Copy, PartialEq, Eq, Structural)]
pub enum ExchangeEvent {
    /// An answer arrived; `is_error` tells whether it is an error message.
    Answer { is_error: bool },
    /// No more answers will come.
    End,
}

/// The state after `event`: an error answer fails a waiting exchange, the
/// end of the answers completes it, other answers keep it waiting; a
/// finished exchange stays as it is.
pub open spec fn spec_next_state(state: ExchangeState, event: ExchangeEvent) -> ExchangeState {
    match state {
        ExchangeState::Waiting => match event {
            ExchangeEvent::Answer { is_error } => if is_error {
                ExchangeState::Failed
            } else {
                ExchangeState::Waiting
            },
            ExchangeEvent::End => ExchangeState::Succeeded,
        },
        _ => state,
    }
}

/// The netlink flags of the message that carries `request`: its own flags
/// and the acknowledgement flag.
pub fn send_flags(request: &QDiscNewRequest) -> (f: u16)
    ensures
        f == NLM_F_ACK | request@.flags,
        f & NLM_F_ACK == NLM_F_ACK,
        f & NLM_F_REQUEST == NLM_F_REQUEST,
{
    let flags = request.flags();
    assert((4u16 | flags) & 4u16 == 4u16) by (bit_vector);
    assert(flags & 1u16 == 1u16 ==> (4u16 | flags) & 1u16 == 1u16) by (bit_vector);
    NLM_F_ACK | flags
}

/// The state of the exchange after `event`.
pub fn next_state(state: ExchangeState, event: ExchangeEvent) -> (s: ExchangeState)
    ensures
        s == spec_next_state(state, event),
{
    match state {
        ExchangeState::Waiting => match event {
            ExchangeEvent::Answer { is_error } => if is_error {
                ExchangeState::Failed
            } else {
                ExchangeState::Waiting
            },
            ExchangeEvent::End => ExchangeState::Succeeded,
        },
        _ => state,
    }
}

/// The state reached from `Waiting` by the events of `events`, in order.
pub open spec fn state_after(events: Seq<ExchangeEvent>) -> ExchangeState
    decreases events.len(),
{
    if events.len() == 0 {
        ExchangeState::Waiting
    } else {
        spec_next_state(state_after(events.drop_last()), events.last())
    }
}

/// Every event before position `i` is an answer that is not an error.
pub open spec fn plain_before(events: Seq<ExchangeEvent>, i: int) -> bool {
    forall|j: int| 0 <= j < i ==> #[trigger] events[j] == (ExchangeEvent::Answer { is_error: false })
}

/// The event at `i` is the first that is not a plain answer, and it is an
/// error answer.
pub open spec fn fails_at(events: Seq<ExchangeEvent>, i: int) -> bool {
    &&& 0 <= i < events.len()
    &&& events[i] == (ExchangeEvent::Answer { is_error: true })
    &&& plain_before(events, i)
}

/// The event at `i` is the first that is not a plain answer, and it is the
/// end of the answers.
pub open spec fn ends_at(events: Seq<ExchangeEvent>, i: int) -> bool {
    &&& 0 <= i < events.len()
    &&& events[i] == ExchangeEvent::End
    &&& plain_before(events, i)
}

proof fn lemma_waiting_iff_plain(events: Seq<ExchangeEvent>)
    ensures
        state_after(events) == ExchangeState::Waiting <==> plain_before(events, events.len() as int),
    decreases events.len(),
{
    if events.len() > 0 {
        let prev = events.drop_last();
        lemma_waiting_iff_plain(prev);
        assert forall|j: int| 0 <= j < prev.len() implies prev[j] == events[j] by {}
        if plain_before(events, events.len() as int) {
            assert(plain_before(prev, prev.len() as int));
        }
        if state_after(events) == ExchangeState::Waiting {
            assert(plain_before(prev, prev.len() as int));
        }
    }
}

/// An exchange fails exactly when an error answer arrives before anything
/// but plain answers, and succeeds exactly when the end of the answers
/// arrives first; it waits as long as only plain answers came.
pub proof fn lemma_exchange_outcome(events: Seq<ExchangeEvent>)
    ensures
        state_after(events) == ExchangeState::Failed <==> exists|i: int| fails_at(events, i),
        state_after(events) == ExchangeState::Succeeded <==> exists|i: int| ends_at(events, i),
        state_after(events) == ExchangeState::Waiting <==> plain_before(
            events,
            events.len() as int,
        ),
    decreases events.len(),
{
    lemma_waiting_iff_plain(events);
    if events.len() > 0 {
        let prev = events.drop_last();
        let n = prev.len() as int;
        lemma_exchange_outcome(prev);
        assert forall|j: int| 0 <= j < n implies prev[j] == events[j] by {}
        assert forall|i: int| 0 <= i < n && #[trigger] fails_at(prev, i) implies fails_at(events, i) by {
            assert forall|j: int| 0 <= j < i implies #[trigger] events[j] == (ExchangeEvent::Answer {
                is_error: false,
            }) by {
                assert(prev[j] == events[j]);
            }
        }
        assert forall|i: int| 0 <= i < n && #[trigger] ends_at(prev, i) implies ends_at(events, i) by {
            assert forall|j: int| 0 <= j < i implies #[trigger] events[j] == (ExchangeEvent::Answer {
                is_error: false,
            }) by {
                assert(prev[j] == events[j]);
            }
        }
        assert forall|i: int| 0 <= i < n && #[trigger] fails_at(events, i) implies fails_at(prev, i) by {
            assert forall|j: int| 0 <= j < i implies #[trigger] prev[j] == (ExchangeEvent::Answer {
                is_error: false,
            }) by {
                assert(prev[j] == events[j]);
            }
        }
        assert forall|i: int| 0 <= i < n && #[trigger] ends_at(events, i) implies ends_at(prev, i) by {
            assert forall|j: int| 0 <= j < i implies #[trigger] prev[j] == (ExchangeEvent::Answer {
                is_error: false,
            }) by {
                assert(prev[j] == events[j]);
            }
        }
        if state_after(prev) == ExchangeState::Waiting {
            assert(plain_before(prev, n));
            assert forall|i: int| 0 <= i < n implies !fails_at(events, i) && !ends_at(events, i) by {
                assert(prev[i] == events[i]);
            }
            if events[n] == (ExchangeEvent::Answer { is_error: true }) {
                assert(fails_at(events, n));
            }
            if events[n] == ExchangeEvent::End {
                assert(ends_at(events, n));
            }
        } else if state_after(prev) == ExchangeState::Failed {
            let i = choose|i: int| fails_at(prev, i);
            assert(fails_at(events, i));
            assert(!ends_at(events, n)) by {
                assert(events[i] == prev[i]);
            }
        } else {
            let i = choose|i: int| ends_at(prev, i);
            assert(ends_at(events, i));
            assert(!fails_at(events, n)) by {
                assert(events[i] == prev[i]);
            }
        }
    }
}

} // verus!
