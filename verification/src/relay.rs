//! The relay of one subscription: what to do with each thing that the
//! subscription's stream yields.
//!
//! A relay is `Active` until its stream ends, an event cannot be read, the bus
//! cannot be reached or the subscription is cancelled; from then on it is
//! `Terminated` and emits nothing.  The driver owns the stream and the bus: it
//! hands each event to the relay and does what the relay answers.

use crate::bus::{Address, AddressView, KernelMessage, KernelMessageView, Message, MessageView};
use crate::bus::{Request, RequestView};
use crate::bus::{eth_process, eth_process_id};
use crate::eth::{EthError, EthErrorView, EthResponse, EthResponseView, Json};
use crate::wire::{into_body, response_text, text_bytes, write_response};
use vstd::prelude::*;

verus! {

#[derive(Debug, PartialEq, Eq)]
pub enum RelayState {
    /// Reading the stream.
    Active,
    /// Ended; nothing is emitted any more.
    Terminated,
}

/// The relay of the subscription `sub_id`, which sends what it reads to
/// `target` in the name of the node `our`.
#[derive(Debug, PartialEq, Eq)]
pub struct Relay {
    pub our: String,
    pub sub_id: u64,
    pub target: Address,
    pub state: RelayState,
}

pub struct RelayView {
    pub our: Seq<char>,
    pub sub_id: u64,
    pub target: AddressView,
    pub active: bool,
}

impl View for Relay {
    type V = RelayView;

    open spec fn view(&self) -> RelayView {
        RelayView {
            our: self.our@,
            sub_id: self.sub_id,
            target: self.target@,
            active: self.state is Active,
        }
    }
}

/// What the stream of a subscription yields.
#[derive(Debug, PartialEq, Eq)]
pub enum StreamEvent {
    /// One event of the subscription.
    Item(Json),
    /// Something that is no event of a subscription, with the reason.
    Malformed(String),
    /// The end of the stream, or an error of the stream.
    Closed,
}

pub enum StreamEventView {
    Item(Seq<char>),
    Malformed(Seq<char>),
    Closed,
}

impl View for StreamEvent {
    type V = StreamEventView;

    open spec fn view(&self) -> StreamEventView {
        match self {
            StreamEvent::Item(result) => StreamEventView::Item(result@),
            StreamEvent::Malformed(detail) => StreamEventView::Malformed(detail@),
            StreamEvent::Closed => StreamEventView::Closed,
        }
    }
}

/// What the driver does after it has handed an event to the relay.
#[derive(Debug, PartialEq, Eq)]
pub enum RelayStep {
    /// Send this message into the bus, and go on reading.
    Emit(KernelMessage),
    /// Stop the task; the error says why.
    Exit(EthError),
}

pub enum RelayStepView {
    Emit(KernelMessageView),
    Exit(EthErrorView),
}

impl View for RelayStep {
    type V = RelayStepView;

    open spec fn view(&self) -> RelayStepView {
        match self {
            RelayStep::Emit(message) => RelayStepView::Emit(message@),
            RelayStep::Exit(error) => RelayStepView::Exit(error@),
        }
    }
}

/// The message that carries one event to the owner of the subscription: a
/// request that expects no response, with the correlation id `id`.
pub open spec fn relay_message(relay: RelayView, result: Seq<char>, id: u64) -> KernelMessageView {
    KernelMessageView {
        id,
        source: AddressView { node: relay.our, process: eth_process() },
        target: relay.target,
        rsvp: None,
        message: MessageView::Request(
            RequestView {
                inherit: false,
                expects_response: None,
                body: text_bytes(
                    response_text(EthResponseView::Sub { id: relay.sub_id, result }),
                ),
                metadata: None,
            },
        ),
        lazy_load_blob: None,
    }
}

/// The relay, once it has ended.
pub open spec fn terminated(relay: RelayView) -> RelayView {
    RelayView { active: false, ..relay }
}

/// One step of the relay: the relay after `event`, and what the driver does.
/// `id` is the correlation id of the message, where one is emitted.
pub open spec fn relay_step(relay: RelayView, event: StreamEventView, id: u64) -> (
    RelayView,
    RelayStepView,
) {
    if !relay.active {
        (relay, RelayStepView::Exit(EthErrorView::SubscriptionClosed))
    } else {
        match event {
            StreamEventView::Item(result) => (
                relay,
                RelayStepView::Emit(relay_message(relay, result, id)),
            ),
            StreamEventView::Malformed(detail) => (
                terminated(relay),
                RelayStepView::Exit(EthErrorView::ProviderError(detail)),
            ),
            StreamEventView::Closed => (
                terminated(relay),
                RelayStepView::Exit(EthErrorView::SubscriptionClosed),
            ),
        }
    }
}

/// `rand::random`: a number drawn at random.  Nothing is known of it.
#[verifier::external_body]
fn fresh_id() -> (id: u64) {
    rand::random()
}

impl Relay {
    /// An active relay.
    pub fn new(our: &str, sub_id: u64, target: Address) -> (relay: Self)
        ensures
            relay@ == (RelayView { our: our@, sub_id, target: target@, active: true }),
    {
        Relay { our: String::from_str(our), sub_id, target, state: RelayState::Active }
    }

    pub fn is_active(&self) -> (active: bool)
        ensures
            active == self@.active,
    {
        match self.state {
            RelayState::Active => true,
            RelayState::Terminated => false,
        }
    }

    /// Builds the message that carries `result` to the owner.
    pub fn message(&self, result: &Json, id: u64) -> (message: KernelMessage)
        ensures
            message@ == relay_message(self@, result@, id),
    {
        let event = EthResponse::Sub { id: self.sub_id, result: result.clone() };
        let body = into_body(&write_response(&event));
        KernelMessage {
            id,
            source: Address { node: self.our.clone(), process: eth_process_id() },
            target: self.target.clone(),
            rsvp: None,
            message: Message::Request(
                Request { inherit: false, expects_response: None, body, metadata: None },
            ),
            lazy_load_blob: None,
        }
    }

    /// Takes one event, with the correlation id to use if a message is
    /// emitted for it.
    pub fn advance(&mut self, event: StreamEvent, id: u64) -> (step: RelayStep)
        ensures
            (final(self)@, step@) == relay_step(old(self)@, event@, id),
    {
        if !self.is_active() {
            return RelayStep::Exit(EthError::SubscriptionClosed);
        }
        match event {
            StreamEvent::Item(result) => RelayStep::Emit(self.message(&result, id)),
            StreamEvent::Malformed(detail) => {
                self.state = RelayState::Terminated;
                RelayStep::Exit(EthError::ProviderError(detail))
            },
            StreamEvent::Closed => {
                self.state = RelayState::Terminated;
                RelayStep::Exit(EthError::SubscriptionClosed)
            },
        }
    }

    /// Takes one event.  A message that is emitted for it gets a correlation
    /// id of its own, drawn at random: it answers to no request.
    pub fn on_event(&mut self, event: StreamEvent) -> (step: RelayStep)
        ensures
            exists|id: u64| (final(self)@, step@) == #[trigger] relay_step(old(self)@, event@, id),
    {
        let id = fresh_id();
        self.advance(event, id)
    }

    /// The bus did not take a message: the relay ends.
    pub fn send_failed(&mut self, detail: &str) -> (error: EthError)
        ensures
            final(self)@ == terminated(old(self)@),
            error@ == EthErrorView::ProviderError(detail@),
    {
        self.state = RelayState::Terminated;
        EthError::ProviderError(String::from_str(detail))
    }

    /// The subscription was cancelled: the relay ends.
    pub fn cancel(&mut self)
        ensures
            final(self)@ == terminated(old(self)@),
    {
        self.state = RelayState::Terminated;
    }
}

/// The messages that a relay emits while it takes `events` one after the
/// other, `ids[i]` being the correlation id at hand for `events[i]`.
pub open spec fn emitted(relay: RelayView, events: Seq<StreamEventView>, ids: Seq<u64>) -> Seq<
    KernelMessageView,
>
    decreases events.len(),
{
    if events.len() == 0 {
        Seq::empty()
    } else {
        let (next, step) = relay_step(relay, events[0], ids[0]);
        let rest = emitted(next, events.drop_first(), ids.drop_first());
        match step {
            RelayStepView::Emit(message) => seq![message] + rest,
            RelayStepView::Exit(_) => rest,
        }
    }
}

/// Whether every one of `events` is an event of the subscription.
pub open spec fn all_items(events: Seq<StreamEventView>) -> bool {
    forall|i: int| 0 <= i < events.len() ==> #[trigger] events[i] is Item
}

/// A relay that has ended emits nothing, whatever its stream still yields.
pub proof fn terminated_relay_is_silent(
    relay: RelayView,
    events: Seq<StreamEventView>,
    ids: Seq<u64>,
)
    requires
        !relay.active,
    ensures
        emitted(relay, events, ids) == Seq::<KernelMessageView>::empty(),
    decreases events.len(),
{
    if events.len() > 0 {
        terminated_relay_is_silent(relay, events.drop_first(), ids.drop_first());
    }
}

/// An active relay whose stream yields events only emits one message for each
/// of them, in the order in which they came, each to the relay's target and
/// each with the correlation id that was at hand for it.
pub proof fn relay_keeps_order(relay: RelayView, events: Seq<StreamEventView>, ids: Seq<u64>)
    requires
        relay.active,
        all_items(events),
        ids.len() == events.len(),
    ensures
        emitted(relay, events, ids).len() == events.len(),
        forall|i: int|
            0 <= i < events.len() ==> #[trigger] emitted(relay, events, ids)[i] == relay_message(
                relay,
                events[i]->Item_0,
                ids[i],
            ),
    decreases events.len(),
{
    if events.len() > 0 {
        let rest_events = events.drop_first();
        let rest_ids = ids.drop_first();
        assert(events[0] is Item);
        assert forall|i: int| 0 <= i < rest_events.len() implies #[trigger] rest_events[i] is Item by {
            assert(rest_events[i] == events[i + 1]);
        }
        relay_keeps_order(relay, rest_events, rest_ids);
        let first = relay_message(relay, events[0]->Item_0, ids[0]);
        assert(emitted(relay, events, ids) == seq![first] + emitted(relay, rest_events, rest_ids));
        assert forall|i: int| 0 <= i < events.len() implies #[trigger] emitted(
            relay,
            events,
            ids,
        )[i] == relay_message(relay, events[i]->Item_0, ids[i]) by {
            if i > 0 {
                assert(emitted(relay, events, ids)[i] == emitted(relay, rest_events, rest_ids)[i
                    - 1]);
                assert(rest_events[i - 1] == events[i]);
                assert(rest_ids[i - 1] == ids[i]);
            }
        }
    }
}

/// Whether `message` is the message by which `relay` carries some event to
/// its target.
pub open spec fn is_relay_message(relay: RelayView, message: KernelMessageView) -> bool {
    exists|result: Seq<char>, id: u64| message == #[trigger] relay_message(relay, result, id)
}

/// Whatever its stream yields, a relay emits nothing but messages that carry
/// an event of its own subscription, and each of them goes to the relay's
/// target and to nobody else.
pub proof fn relay_serves_its_target_only(
    relay: RelayView,
    events: Seq<StreamEventView>,
    ids: Seq<u64>,
)
    ensures
        forall|i: int|
            0 <= i < emitted(relay, events, ids).len() ==> {
                &&& is_relay_message(relay, #[trigger] emitted(relay, events, ids)[i])
                &&& emitted(relay, events, ids)[i].target == relay.target
            },
    decreases events.len(),
{
    if events.len() > 0 {
        let (next, step) = relay_step(relay, events[0], ids[0]);
        let rest = emitted(next, events.drop_first(), ids.drop_first());
        relay_serves_its_target_only(next, events.drop_first(), ids.drop_first());
        assert forall|i: int| 0 <= i < emitted(relay, events, ids).len() implies {
            &&& is_relay_message(relay, #[trigger] emitted(relay, events, ids)[i])
            &&& emitted(relay, events, ids)[i].target == relay.target
        } by {
            let message = emitted(relay, events, ids)[i];
            if step is Emit && i == 0 {
                assert(message == relay_message(relay, events[0]->Item_0, ids[0]));
            } else {
                let j = if step is Emit {
                    i - 1
                } else {
                    i
                };
                assert(message == rest[j]);
                assert(is_relay_message(next, rest[j]));
                let (result, id) = choose|result: Seq<char>, id: u64|
                    rest[j] == #[trigger] relay_message(next, result, id);
                assert(message == relay_message(relay, result, id));
            }
        }
    }
}

/// A relay whose stream yields nothing emits nothing.
pub proof fn silent_stream_is_not_relayed(relay: RelayView)
    ensures
        emitted(relay, Seq::<StreamEventView>::empty(), Seq::<u64>::empty()) == Seq::<
            KernelMessageView,
        >::empty(),
{
}

} // verus!
