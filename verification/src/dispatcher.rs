//! The request dispatcher: what one inbound message asks of the bridge, and
//! what is answered.
//!
//! The driver owns the connection and the bus.  For each inbound message it
//! decodes the body, calls `handle_request`, does what the returned `Step`
//! names, reports what came of it to `subscribed` or `called`, and sends the
//! message that `respond` builds, if any.

use crate::bus::{Address, AddressView, KernelMessage, KernelMessageView, Message, MessageView};
use crate::bus::{Response, ResponseView};
use crate::bus::{vfs_process, vfs_process_id};
use crate::eth::{EthAction, EthActionView, EthError, EthErrorView, EthResponse, EthResponseView};
use crate::eth::{Json, Outcome, OutcomeView};
use crate::eth::{is_known_method, outcome_view, to_static_str};
use crate::registry::{Registry, SubscriptionKey, SubscriptionKeyView};
use crate::relay::{Relay, RelayView, StreamEventView};
use crate::relay::{emitted, is_relay_message, terminated};
use crate::relay::{relay_serves_its_target_only, terminated_relay_is_silent};
use crate::wire::{into_body, outcome_text, text_bytes, write_outcome};
use vstd::prelude::*;

verus! {

/// What the driver does next for a request.
#[derive(Debug, PartialEq, Eq)]
pub enum Step {
    /// Call `eth_subscribe` with `arguments`, start a task that runs `relay`
    /// on the stream of the subscription, and report to `subscribed`.
    Subscribe { key: SubscriptionKey, arguments: Json, relay: Relay },
    /// Call `method` with `params`, and report to `called`.
    Call { method: String, params: Json },
    /// Nothing is asked of the node.  Cancel the task `cancel`, if there is
    /// one; `outcome` is what the operation ended in.
    Finish { cancel: Option<u64>, outcome: Outcome },
}

pub enum StepView {
    Subscribe { key: SubscriptionKeyView, arguments: Seq<char>, relay: RelayView },
    Call { method: Seq<char>, params: Seq<char> },
    Finish { cancel: Option<u64>, outcome: OutcomeView },
}

impl View for Step {
    type V = StepView;

    open spec fn view(&self) -> StepView {
        match self {
            Step::Subscribe { key, arguments, relay } => StepView::Subscribe {
                key: key@,
                arguments: arguments@,
                relay: relay@,
            },
            Step::Call { method, params } => StepView::Call { method: method@, params: params@ },
            Step::Finish { cancel, outcome } => StepView::Finish {
                cancel: *cancel,
                outcome: outcome_view(*outcome),
            },
        }
    }
}

/// The key of a subscription that `message` speaks of: the process that the
/// message is addressed to owns it.
pub open spec fn subscription_key(message: KernelMessageView, sub_id: u64) -> SubscriptionKeyView {
    SubscriptionKeyView { owner: message.target.process, sub_id }
}

/// The arguments of the remote call that opens a subscription: the array of
/// the kind and the parameters.
pub open spec fn subscribe_arguments(kind: Seq<char>, params: Seq<char>) -> Seq<char> {
    "["@ + kind + ","@ + params + "]"@
}

/// The error for a message that is no request.
pub open spec fn not_a_request() -> EthErrorView {
    EthErrorView::ProviderError("eth: only accepts requests"@)
}

/// The error for a body that cannot be decoded.
pub open spec fn undecodable(detail: Seq<char>) -> EthErrorView {
    EthErrorView::ProviderError("eth: failed to deserialize request: "@ + detail)
}

/// The error for a method that is not known.
pub open spec fn unknown_method(method: Seq<char>) -> EthErrorView {
    EthErrorView::ProviderError("eth: method not found: "@ + method)
}

/// What is done for `action`, which came in `message`, on the node `our` and
/// with the subscriptions `registry`.
pub open spec fn planned(
    our: Seq<char>,
    message: KernelMessageView,
    action: EthActionView,
    registry: Map<SubscriptionKeyView, u64>,
) -> StepView {
    match action {
        EthActionView::SubscribeLogs { sub_id, kind, params } => StepView::Subscribe {
            key: subscription_key(message, sub_id),
            arguments: subscribe_arguments(kind, params),
            relay: RelayView { our, sub_id, target: message.source, active: true },
        },
        EthActionView::UnsubscribeLogs(sub_id) => {
            let key = subscription_key(message, sub_id);
            if registry.dom().contains(key) {
                StepView::Finish { cancel: Some(registry[key]), outcome: Ok(EthResponseView::Ack) }
            } else {
                StepView::Finish {
                    cancel: None,
                    outcome: Err(EthErrorView::SubscriptionNotFound),
                }
            }
        },
        EthActionView::Request { method, params } => {
            if is_known_method(method) {
                StepView::Call { method, params }
            } else {
                StepView::Finish { cancel: None, outcome: Err(unknown_method(method)) }
            }
        },
    }
}

/// The subscriptions after `action` has been planned: an unsubscription takes
/// its entry out at once, everything else leaves the registry as it is.
pub open spec fn registry_after(
    message: KernelMessageView,
    action: EthActionView,
    registry: Map<SubscriptionKeyView, u64>,
) -> Map<SubscriptionKeyView, u64> {
    match action {
        EthActionView::UnsubscribeLogs(sub_id) => registry.remove(subscription_key(message, sub_id)),
        _ => registry,
    }
}

/// Decides what is done for a decoded operation.
pub fn plan(
    our: &str,
    message: &KernelMessage,
    action: EthAction,
    registry: &mut Registry,
) -> (step: Step)
    ensures
        step@ == planned(our@, message@, action@, old(registry)@),
        final(registry)@ == registry_after(message@, action@, old(registry)@),
{
    match action {
        EthAction::SubscribeLogs { sub_id, kind, params } => {
            let key = SubscriptionKey::new(message.target.process.clone(), sub_id);
            let text = String::from_str("[").concat(kind.as_str()).concat(",").concat(
                params.as_str(),
            ).concat("]");
            let relay = Relay::new(our, sub_id, message.source.clone());
            Step::Subscribe { key, arguments: Json { text }, relay }
        },
        EthAction::UnsubscribeLogs(sub_id) => {
            let key = SubscriptionKey::new(message.target.process.clone(), sub_id);
            match registry.remove(&key) {
                Ok(handle) => Step::Finish { cancel: Some(handle), outcome: Ok(EthResponse::Ack) },
                Err(error) => Step::Finish { cancel: None, outcome: Err(error) },
            }
        },
        EthAction::Request { method, params } => {
            match to_static_str(method.as_str()) {
                Some(known) => Step::Call { method: String::from_str(known), params },
                None => {
                    let detail = String::from_str("eth: method not found: ").concat(
                        method.as_str(),
                    );
                    Step::Finish { cancel: None, outcome: Err(EthError::ProviderError(detail)) }
                },
            }
        },
    }
}

/// The view of a decoded body: the operation, or why there is none.
pub open spec fn decoded_view(decoded: Result<EthAction, String>) -> Result<
    EthActionView,
    Seq<char>,
> {
    match decoded {
        Ok(action) => Ok(action@),
        Err(detail) => Err(detail@),
    }
}

/// What `handle_request` returns.
pub open spec fn handled(
    our: Seq<char>,
    message: KernelMessageView,
    decoded: Result<EthActionView, Seq<char>>,
    registry: Map<SubscriptionKeyView, u64>,
) -> Result<StepView, EthErrorView> {
    if !(message.message is Request) {
        Err(not_a_request())
    } else {
        match decoded {
            Err(detail) => Err(undecodable(detail)),
            Ok(action) => Ok(planned(our, message, action, registry)),
        }
    }
}

/// The subscriptions after `handle_request`.
pub open spec fn registry_after_request(
    message: KernelMessageView,
    decoded: Result<EthActionView, Seq<char>>,
    registry: Map<SubscriptionKeyView, u64>,
) -> Map<SubscriptionKeyView, u64> {
    if !(message.message is Request) {
        registry
    } else {
        match decoded {
            Err(_) => registry,
            Ok(action) => registry_after(message, action, registry),
        }
    }
}

pub open spec fn step_view(step: Result<Step, EthError>) -> Result<StepView, EthErrorView> {
    match step {
        Ok(step) => Ok(step@),
        Err(error) => Err(error@),
    }
}

/// Takes one inbound message, with what decoding its body gave: the
/// operation, or the reason why the body is none.
///
/// A message that is no request, and a request whose body is no operation,
/// are refused with an error: nothing is done for them, and nothing is
/// answered.  For every other message the step to take is returned.
pub fn handle_request(
    our: &str,
    message: &KernelMessage,
    decoded: Result<EthAction, String>,
    registry: &mut Registry,
) -> (step: Result<Step, EthError>)
    ensures
        step_view(step) == handled(our@, message@, decoded_view(decoded), old(registry)@),
        final(registry)@ == registry_after_request(
            message@,
            decoded_view(decoded),
            old(registry)@,
        ),
{
    match &message.message {
        Message::Request(_) => {},
        Message::Response(_, _) => {
            return Err(EthError::ProviderError(String::from_str("eth: only accepts requests")));
        },
    }
    match decoded {
        Ok(action) => Ok(plan(our, message, action, registry)),
        Err(detail) => {
            let text = String::from_str("eth: failed to deserialize request: ").concat(
                detail.as_str(),
            );
            Err(EthError::ProviderError(text))
        },
    }
}

/// What opening a subscription ended in: an acknowledgement where the node
/// opened it, else the failure as a provider error.
pub open spec fn subscribed_outcome(opened: Result<u64, Seq<char>>) -> OutcomeView {
    match opened {
        Ok(_) => Ok(EthResponseView::Ack),
        Err(detail) => Err(EthErrorView::ProviderError(detail)),
    }
}

/// The subscriptions after a subscription was opened, or was not: the handle
/// of the relay task is registered under `key` in the first case, and nothing
/// changes in the second.
pub open spec fn registry_after_subscribed(
    registry: Map<SubscriptionKeyView, u64>,
    key: SubscriptionKeyView,
    opened: Result<u64, Seq<char>>,
) -> Map<SubscriptionKeyView, u64> {
    match opened {
        Ok(handle) => registry.insert(key, handle),
        Err(_) => registry,
    }
}

pub open spec fn opened_view(opened: Result<u64, String>) -> Result<u64, Seq<char>> {
    match opened {
        Ok(handle) => Ok(handle),
        Err(detail) => Err(detail@),
    }
}

/// Takes what came of a `Step::Subscribe`: the handle of the relay task that
/// was started, or the reason why the node opened no subscription.
///
/// The acknowledgement does not wait for an event of the subscription.
pub fn subscribed(
    registry: &mut Registry,
    key: SubscriptionKey,
    opened: Result<u64, String>,
) -> (outcome: Outcome)
    ensures
        outcome_view(outcome) == subscribed_outcome(opened_view(opened)),
        final(registry)@ == registry_after_subscribed(old(registry)@, key@, opened_view(opened)),
{
    match opened {
        Ok(handle) => {
            registry.insert(key, handle);
            Ok(EthResponse::Ack)
        },
        Err(detail) => Err(EthError::ProviderError(detail)),
    }
}

/// What a remote call ended in: the node's result as it is, or the failure.
pub open spec fn called_outcome(returned: Result<Seq<char>, Seq<char>>) -> OutcomeView {
    match returned {
        Ok(result) => Ok(EthResponseView::Request(result)),
        Err(detail) => Err(EthErrorView::ProviderError(detail)),
    }
}

pub open spec fn returned_view(returned: Result<Json, String>) -> Result<Seq<char>, Seq<char>> {
    match returned {
        Ok(result) => Ok(result@),
        Err(detail) => Err(detail@),
    }
}

/// Takes what came of a `Step::Call`: the node's result, or the reason why
/// there is none.
pub fn called(returned: Result<Json, String>) -> (outcome: Outcome)
    ensures
        outcome_view(outcome) == called_outcome(returned_view(returned)),
{
    match returned {
        Ok(result) => Ok(EthResponse::Request(result)),
        Err(detail) => Err(EthError::ProviderError(detail)),
    }
}

/// Where the answer to `message` goes: to `rsvp` if the message names one,
/// else to the sender if the request expects a response, else nowhere.  A
/// message that is no request is not answered.
pub open spec fn reply_target(message: KernelMessageView) -> Option<AddressView> {
    match message.message {
        MessageView::Request(request) => match message.rsvp {
            Some(address) => Some(address),
            None => if request.expects_response is Some {
                Some(message.source)
            } else {
                None
            },
        },
        MessageView::Response(_, _) => None,
    }
}

/// The answer to `message`, for an operation that ended in `outcome`: a
/// response with the correlation id of the request and its metadata.
pub open spec fn reply(our: Seq<char>, message: KernelMessageView, outcome: OutcomeView) -> Option<
    KernelMessageView,
> {
    match reply_target(message) {
        None => None,
        Some(target) => Some(
            KernelMessageView {
                id: message.id,
                source: AddressView { node: our, process: vfs_process() },
                target,
                rsvp: None,
                message: MessageView::Response(
                    ResponseView {
                        inherit: false,
                        body: text_bytes(outcome_text(outcome)),
                        metadata: message.message->Request_0.metadata,
                    },
                    None,
                ),
                lazy_load_blob: None,
            },
        ),
    }
}

pub open spec fn message_view(message: Option<KernelMessage>) -> Option<KernelMessageView> {
    match message {
        Some(m) => Some(m@),
        None => None,
    }
}

/// Builds the answer to `message`, if one is to be sent.
pub fn respond(our: &str, message: &KernelMessage, outcome: &Outcome) -> (answer: Option<
    KernelMessage,
>)
    ensures
        message_view(answer) == reply(our@, message@, outcome_view(*outcome)),
{
    let request = match &message.message {
        Message::Request(request) => request,
        Message::Response(_, _) => {
            return None;
        },
    };
    let target = match &message.rsvp {
        Some(address) => address.clone(),
        None => {
            if request.expects_response.is_some() {
                message.source.clone()
            } else {
                return None;
            }
        },
    };
    let metadata = match &request.metadata {
        Some(text) => Some(text.clone()),
        None => None,
    };
    let body = into_body(&write_outcome(outcome));
    Some(
        KernelMessage {
            id: message.id,
            source: Address { node: String::from_str(our), process: vfs_process_id() },
            target,
            rsvp: None,
            message: Message::Response(Response { inherit: false, body, metadata }, None),
            lazy_load_blob: None,
        },
    )
}

/// A subscription that is opened is registered under the key of its owner,
/// whatever was registered before, and acknowledged; the relay that is
/// started for it sends every event to the sender of the request and to
/// nobody else.
pub proof fn subscribing_registers_and_relays_to_the_caller(
    our: Seq<char>,
    message: KernelMessageView,
    sub_id: u64,
    kind: Seq<char>,
    params: Seq<char>,
    registry: Map<SubscriptionKeyView, u64>,
    handle: u64,
    events: Seq<StreamEventView>,
    ids: Seq<u64>,
)
    ensures
        ({
            let action = EthActionView::SubscribeLogs { sub_id, kind, params };
            let step = planned(our, message, action, registry);
            let key = subscription_key(message, sub_id);
            let after = registry_after_subscribed(
                registry_after(message, action, registry),
                key,
                Ok(handle),
            );
            &&& step is Subscribe
            &&& step->key == key
            &&& step->relay.active
            &&& step->relay.target == message.source
            &&& subscribed_outcome(Ok(handle)) == Ok::<EthResponseView, EthErrorView>(
                EthResponseView::Ack,
            )
            &&& after.dom().contains(key)
            &&& after[key] == handle
            &&& forall|i: int|
                0 <= i < emitted(step->relay, events, ids).len() ==> {
                    &&& is_relay_message(
                        step->relay,
                        #[trigger] emitted(step->relay, events, ids)[i],
                    )
                    &&& emitted(step->relay, events, ids)[i].target == message.source
                }
        }),
{
    let action = EthActionView::SubscribeLogs { sub_id, kind, params };
    let step = planned(our, message, action, registry);
    relay_serves_its_target_only(step->relay, events, ids);
}

/// An unsubscription of a registered subscription is acknowledged, names the
/// task to cancel and takes the entry out of the registry; the relay, once
/// cancelled, emits nothing more.
pub proof fn unsubscribing_ends_the_relay(
    our: Seq<char>,
    message: KernelMessageView,
    sub_id: u64,
    registry: Map<SubscriptionKeyView, u64>,
    relay: RelayView,
    events: Seq<StreamEventView>,
    ids: Seq<u64>,
)
    requires
        registry.dom().contains(subscription_key(message, sub_id)),
    ensures
        ({
            let action = EthActionView::UnsubscribeLogs(sub_id);
            let key = subscription_key(message, sub_id);
            &&& planned(our, message, action, registry) == StepView::Finish {
                cancel: Some(registry[key]),
                outcome: Ok(EthResponseView::Ack),
            }
            &&& !registry_after(message, action, registry).dom().contains(key)
            &&& registry_after(message, action, registry) == registry.remove(key)
            &&& emitted(terminated(relay), events, ids) == Seq::<KernelMessageView>::empty()
        }),
{
    terminated_relay_is_silent(terminated(relay), events, ids);
}

/// An unsubscription of a subscription that is not registered fails with
/// `SubscriptionNotFound`, cancels nothing and leaves the registry as it is.
pub proof fn unsubscribing_the_unknown_changes_nothing(
    our: Seq<char>,
    message: KernelMessageView,
    sub_id: u64,
    registry: Map<SubscriptionKeyView, u64>,
)
    requires
        !registry.dom().contains(subscription_key(message, sub_id)),
    ensures
        planned(our, message, EthActionView::UnsubscribeLogs(sub_id), registry)
            == (StepView::Finish {
            cancel: None,
            outcome: Err(EthErrorView::SubscriptionNotFound),
        }),
        registry_after(message, EthActionView::UnsubscribeLogs(sub_id), registry) == registry,
{
    let key = subscription_key(message, sub_id);
    assert(registry.remove(key) =~= registry);
}

/// A request for a known method is passed to the node as it is, and what the
/// node returns is answered as it is; a request for another method fails with
/// a provider error that names the method, and the node is not asked.  Either
/// way the registry stays as it is.
pub proof fn calls_pass_through(
    our: Seq<char>,
    message: KernelMessageView,
    method: Seq<char>,
    params: Seq<char>,
    registry: Map<SubscriptionKeyView, u64>,
    result: Seq<char>,
)
    ensures
        ({
            let action = EthActionView::Request { method, params };
            &&& is_known_method(method) ==> planned(our, message, action, registry)
                == StepView::Call { method, params }
            &&& !is_known_method(method) ==> planned(our, message, action, registry)
                == StepView::Finish { cancel: None, outcome: Err(unknown_method(method)) }
            &&& registry_after(message, action, registry) == registry
            &&& called_outcome(Ok(result)) == Ok::<EthResponseView, EthErrorView>(
                EthResponseView::Request(result),
            )
            &&& outcome_text(called_outcome(Ok(result))) == "{\"Request\":"@ + result + "}"@
        }),
{
}

/// Whether a request is answered, and to whom, does not depend on what the
/// operation ended in: success or failure, there is an answer exactly where
/// `reply_target` names an address, and the answer goes there, carries the
/// request's correlation id and metadata, and holds the outcome as JSON text.
/// A request that expects a response is owed one: it goes to `rsvp` where the
/// request names one, else to the sender.
pub proof fn one_answer_where_one_is_due(
    our: Seq<char>,
    message: KernelMessageView,
    outcome: OutcomeView,
)
    ensures
        reply(our, message, outcome) is Some <==> reply_target(message) is Some,
        message.message matches MessageView::Request(request) && request.expects_response
            is Some ==> reply_target(message) == Some(
            match message.rsvp {
                Some(address) => address,
                None => message.source,
            },
        ),
        reply(our, message, outcome) matches Some(answer) ==> {
            &&& Some(answer.target) == reply_target(message)
            &&& answer.id == message.id
            &&& answer.rsvp is None
            &&& answer.message matches MessageView::Response(response, context)
            &&& response.body == text_bytes(outcome_text(outcome))
            &&& response.metadata == message.message->Request_0.metadata
        },
{
}

/// The acknowledgement of a subscription is owed as soon as the relay task
/// has a handle: it does not wait for an event.  If the stream never yields
/// one, the acknowledgement is all that is sent.
pub proof fn acknowledgement_needs_no_event(
    our: Seq<char>,
    message: KernelMessageView,
    handle: u64,
    relay: RelayView,
)
    ensures
        subscribed_outcome(Ok(handle)) == Ok::<EthResponseView, EthErrorView>(EthResponseView::Ack),
        outcome_text(subscribed_outcome(Ok(handle))) == "\"Ok\""@,
        reply_target(message) is Some ==> reply(our, message, subscribed_outcome(Ok(handle)))
            is Some,
        emitted(relay, Seq::<StreamEventView>::empty(), Seq::<u64>::empty()) == Seq::<
            KernelMessageView,
        >::empty(),
{
}

} // verus!
