use eth_provider::bus::{
    eth_process_id, vfs_process_id, Address, KernelMessage, LazyLoadBlob, Message, ProcessId,
    Request, Response,
};
use eth_provider::dispatcher::{called, handle_request, plan, respond, subscribed, Step};
use eth_provider::eth::{to_static_str, EthAction, EthError, EthResponse, Json};
use eth_provider::registry::{Registry, SubscriptionKey};
use eth_provider::relay::{Relay, RelayStep, StreamEvent};

const OUR: &str = "alice.os";

fn process_a() -> ProcessId {
    ProcessId::new("indexer", "app", "alice.os")
}

fn address_a() -> Address {
    Address::new(OUR, process_a())
}

fn key_a(sub_id: u64) -> SubscriptionKey {
    SubscriptionKey::new(process_a(), sub_id)
}

/// A request whose envelope names process A both as the sender and as the
/// process that the operation is for.
fn request_from_a(id: u64, expects_response: Option<u64>, rsvp: Option<Address>) -> KernelMessage {
    KernelMessage {
        id,
        source: address_a(),
        target: address_a(),
        rsvp,
        message: Message::Request(Request {
            inherit: false,
            expects_response,
            body: b"{}".to_vec(),
            metadata: Some("meta".to_string()),
        }),
        lazy_load_blob: None,
    }
}

fn answer(id: u64, target: Address, body: &str, metadata: Option<String>) -> KernelMessage {
    KernelMessage {
        id,
        source: Address::new(OUR, ProcessId::new("vfs", "distro", "sys")),
        target,
        rsvp: None,
        message: Message::Response(
            Response { inherit: false, body: body.as_bytes().to_vec(), metadata },
            None,
        ),
        lazy_load_blob: None,
    }
}

fn subscribe_7() -> EthAction {
    EthAction::SubscribeLogs {
        sub_id: 7,
        kind: Json::new("\"logs\""),
        params: Json::new("{\"address\":\"0x00\"}"),
    }
}

#[test]
fn subscribe_registers_and_relays_to_the_caller() {
    let mut registry = Registry::new();
    let message = request_from_a(11, Some(5), None);
    let step = handle_request(OUR, &message, Ok(subscribe_7()), &mut registry);
    let (key, arguments, mut relay) = match step {
        Ok(Step::Subscribe { key, arguments, relay }) => (key, arguments, relay),
        other => panic!("unexpected step: {:?}", other),
    };
    assert_eq!(key, key_a(7));
    assert_eq!(arguments.text, "[\"logs\",{\"address\":\"0x00\"}]");
    assert_eq!(relay, Relay::new(OUR, 7, address_a()));
    assert!(!registry.contains(&key_a(7)));

    let outcome = subscribed(&mut registry, key, Ok(1));
    assert_eq!(outcome, Ok(EthResponse::Ack));
    assert!(registry.contains(&key_a(7)));
    assert_eq!(registry.get(&key_a(7)), Some(1));
    assert_eq!(
        respond(OUR, &message, &outcome),
        Some(answer(11, address_a(), "\"Ok\"", Some("meta".to_string())))
    );

    match relay.advance(StreamEvent::Item(Json::new("{\"x\":\"X\"}")), 77) {
        RelayStep::Emit(event) => {
            assert_eq!(event.id, 77);
            assert_eq!(event.target, address_a());
            assert_eq!(event.source, Address::new(OUR, eth_process_id()));
            assert_eq!(event.rsvp, None);
            assert_eq!(
                event.message,
                Message::Request(Request {
                    inherit: false,
                    expects_response: None,
                    body: b"{\"Sub\":{\"id\":7,\"result\":{\"x\":\"X\"}}}".to_vec(),
                    metadata: None,
                })
            );
        }
        RelayStep::Exit(error) => panic!("the relay ended: {:?}", error),
    }
}

#[test]
fn unsubscribe_cancels_and_deregisters() {
    let mut registry = Registry::new();
    registry.insert(key_a(7), 31);
    let message = request_from_a(12, Some(5), None);
    let step = handle_request(OUR, &message, Ok(EthAction::UnsubscribeLogs(7)), &mut registry);
    assert_eq!(step, Ok(Step::Finish { cancel: Some(31), outcome: Ok(EthResponse::Ack) }));
    assert!(!registry.contains(&key_a(7)));
    assert_eq!(
        respond(OUR, &message, &Ok(EthResponse::Ack)),
        Some(answer(12, address_a(), "\"Ok\"", Some("meta".to_string())))
    );

    let mut relay = Relay::new(OUR, 7, address_a());
    relay.cancel();
    assert_eq!(
        relay.advance(StreamEvent::Item(Json::new("1")), 1),
        RelayStep::Exit(EthError::SubscriptionClosed)
    );
}

#[test]
fn unsubscribe_of_an_unknown_subscription_is_not_found() {
    let mut registry = Registry::new();
    registry.insert(key_a(7), 31);
    let message = request_from_a(13, Some(5), None);
    let step = handle_request(OUR, &message, Ok(EthAction::UnsubscribeLogs(99)), &mut registry);
    assert_eq!(
        step,
        Ok(Step::Finish { cancel: None, outcome: Err(EthError::SubscriptionNotFound) })
    );
    assert_eq!(registry.get(&key_a(7)), Some(31));
    assert!(!registry.contains(&key_a(99)));
    assert_eq!(
        respond(OUR, &message, &Err(EthError::SubscriptionNotFound)),
        Some(answer(13, address_a(), "\"SubscriptionNotFound\"", Some("meta".to_string())))
    );
}

#[test]
fn request_returns_the_result_as_it_is() {
    let mut registry = Registry::new();
    let message = request_from_a(14, Some(5), None);
    let action =
        EthAction::Request { method: "eth_blockNumber".to_string(), params: Json::new("[]") };
    let step = handle_request(OUR, &message, Ok(action), &mut registry);
    assert_eq!(
        step,
        Ok(Step::Call { method: "eth_blockNumber".to_string(), params: Json::new("[]") })
    );
    let outcome = called(Ok(Json::new("\"0x12d687\"")));
    assert_eq!(outcome, Ok(EthResponse::Request(Json::new("\"0x12d687\""))));
    assert_eq!(
        respond(OUR, &message, &outcome),
        Some(answer(14, address_a(), "{\"Request\":\"0x12d687\"}", Some("meta".to_string())))
    );
}

#[test]
fn request_result_keeps_its_spelling() {
    let outcome = called(Ok(Json::new("{ \"a\" : [ 1 , 2 ] }")));
    let message = request_from_a(1, Some(1), None);
    assert_eq!(
        respond(OUR, &message, &outcome),
        Some(answer(
            1,
            address_a(),
            "{\"Request\":{ \"a\" : [ 1 , 2 ] }}",
            Some("meta".to_string())
        ))
    );
}

#[test]
fn unknown_method_fails_with_a_provider_error() {
    let mut registry = Registry::new();
    let message = request_from_a(15, Some(5), None);
    let action = EthAction::Request { method: "eth_fly".to_string(), params: Json::new("[]") };
    let step = handle_request(OUR, &message, Ok(action), &mut registry);
    let outcome = Err(EthError::ProviderError("eth: method not found: eth_fly".to_string()));
    assert_eq!(
        step,
        Ok(Step::Finish {
            cancel: None,
            outcome: Err(EthError::ProviderError("eth: method not found: eth_fly".to_string())),
        })
    );
    assert_eq!(
        respond(OUR, &message, &outcome),
        Some(answer(
            15,
            address_a(),
            "{\"ProviderError\":\"eth: method not found: eth_fly\"}",
            Some("meta".to_string())
        ))
    );
}

#[test]
fn unknown_method_is_answered_by_the_same_rule() {
    let outcome = Err(EthError::ProviderError("eth: method not found: eth_fly".to_string()));
    let silent = request_from_a(15, None, None);
    assert_eq!(respond(OUR, &silent, &outcome), None);
    let elsewhere = Address::new("bob.os", ProcessId::new("inbox", "mail", "bob.os"));
    let redirected = request_from_a(15, None, Some(elsewhere.clone()));
    assert_eq!(
        respond(OUR, &redirected, &outcome),
        Some(answer(
            15,
            elsewhere,
            "{\"ProviderError\":\"eth: method not found: eth_fly\"}",
            Some("meta".to_string())
        ))
    );
}

#[test]
fn method_names_are_matched_exactly() {
    assert_eq!(to_static_str("eth_blockNumber"), Some("eth_blockNumber"));
    assert_eq!(to_static_str("eth_blocknumber"), None);
    assert_eq!(to_static_str("eth_blockNumber "), None);
    assert_eq!(to_static_str(""), None);
    assert_eq!(to_static_str("eth_"), None);
}

#[test]
fn every_known_method_is_accepted() {
    let known = [
        "eth_getBalance",
        "eth_sendRawTransaction",
        "eth_call",
        "eth_chainId",
        "eth_getTransactionReceipt",
        "eth_getTransactionCount",
        "eth_estimateGas",
        "eth_blockNumber",
        "eth_getBlockByHash",
        "eth_getBlockByNumber",
        "eth_getTransactionByHash",
        "eth_getCode",
        "eth_getStorageAt",
        "eth_gasPrice",
        "eth_accounts",
        "eth_hashrate",
        "eth_getLogs",
        "eth_subscribe",
        "eth_unsubscribe",
        "eth_mining",
        "net_version",
        "net_peerCount",
        "net_listening",
        "web3_clientVersion",
        "web3_sha3",
    ];
    for method in known {
        assert_eq!(to_static_str(method), Some(method));
        let mut registry = Registry::new();
        let message = request_from_a(1, None, None);
        let action = EthAction::Request { method: method.to_string(), params: Json::new("[1]") };
        assert_eq!(
            plan(OUR, &message, action, &mut registry),
            Step::Call { method: method.to_string(), params: Json::new("[1]") }
        );
    }
}

#[test]
fn message_that_is_no_request_is_refused_and_not_answered() {
    let mut registry = Registry::new();
    registry.insert(key_a(7), 31);
    let message = KernelMessage {
        id: 16,
        source: address_a(),
        target: address_a(),
        rsvp: Some(address_a()),
        message: Message::Response(
            Response { inherit: false, body: b"{}".to_vec(), metadata: None },
            Some(vec![1, 2]),
        ),
        lazy_load_blob: None,
    };
    let step = handle_request(OUR, &message, Ok(EthAction::UnsubscribeLogs(7)), &mut registry);
    assert_eq!(step, Err(EthError::ProviderError("eth: only accepts requests".to_string())));
    assert_eq!(registry.get(&key_a(7)), Some(31));
    assert_eq!(respond(OUR, &message, &Ok(EthResponse::Ack)), None);
}

#[test]
fn body_that_is_no_operation_is_refused() {
    let mut registry = Registry::new();
    registry.insert(key_a(7), 31);
    let message = request_from_a(17, Some(5), None);
    let step = handle_request(
        OUR,
        &message,
        Err("Error(\"expected value\", line: 1, column: 1)".to_string()),
        &mut registry,
    );
    assert_eq!(
        step,
        Err(EthError::ProviderError(
            "eth: failed to deserialize request: Error(\"expected value\", line: 1, column: 1)"
                .to_string()
        ))
    );
    assert_eq!(registry.get(&key_a(7)), Some(31));
}

#[test]
fn answer_goes_to_rsvp_when_there_is_one() {
    let elsewhere = Address::new("bob.os", ProcessId::new("inbox", "mail", "bob.os"));
    let message = request_from_a(18, Some(5), Some(elsewhere.clone()));
    assert_eq!(
        respond(OUR, &message, &Ok(EthResponse::Ack)),
        Some(answer(18, elsewhere, "\"Ok\"", Some("meta".to_string())))
    );
}

#[test]
fn answer_goes_to_the_sender_when_a_response_is_expected() {
    let mut message = request_from_a(19, Some(30), None);
    message.source = Address::new("carol.os", ProcessId::new("wallet", "app", "carol.os"));
    assert_eq!(
        respond(OUR, &message, &Ok(EthResponse::Ack)),
        Some(answer(
            19,
            Address::new("carol.os", ProcessId::new("wallet", "app", "carol.os")),
            "\"Ok\"",
            Some("meta".to_string())
        ))
    );
}

#[test]
fn nothing_is_answered_when_nothing_is_expected() {
    let message = request_from_a(20, None, None);
    assert_eq!(respond(OUR, &message, &Ok(EthResponse::Ack)), None);
    assert_eq!(respond(OUR, &message, &Err(EthError::SubscriptionNotFound)), None);
}

#[test]
fn answer_echoes_id_and_metadata_and_drops_the_attachment() {
    let mut message = request_from_a(u64::MAX, Some(0), None);
    message.lazy_load_blob = Some(LazyLoadBlob { mime: None, bytes: vec![1, 2, 3] });
    if let Message::Request(request) = &mut message.message {
        request.metadata = None;
    }
    let reply = respond(OUR, &message, &Ok(EthResponse::Ack)).unwrap();
    assert_eq!(reply, answer(u64::MAX, address_a(), "\"Ok\"", None));
    assert_eq!(reply.source.process, vfs_process_id());
}

#[test]
fn subscription_waits_for_no_event() {
    let mut registry = Registry::new();
    let message = request_from_a(21, Some(5), None);
    let step = plan(OUR, &message, subscribe_7(), &mut registry);
    let key = match step {
        Step::Subscribe { key, .. } => key,
        other => panic!("unexpected step: {:?}", other),
    };
    let outcome = subscribed(&mut registry, key, Ok(9));
    let replies: Vec<KernelMessage> = respond(OUR, &message, &outcome).into_iter().collect();
    assert_eq!(replies, vec![answer(21, address_a(), "\"Ok\"", Some("meta".to_string()))]);
}

#[test]
fn subscription_that_the_node_refuses_is_not_registered() {
    let mut registry = Registry::new();
    let message = request_from_a(22, Some(5), None);
    let outcome = subscribed(&mut registry, key_a(7), Err("connection reset".to_string()));
    assert_eq!(outcome, Err(EthError::ProviderError("connection reset".to_string())));
    assert!(!registry.contains(&key_a(7)));
    assert_eq!(
        respond(OUR, &message, &outcome),
        Some(answer(
            22,
            address_a(),
            "{\"ProviderError\":\"connection reset\"}",
            Some("meta".to_string())
        ))
    );
}

#[test]
fn subscribing_again_replaces_the_handle() {
    let mut registry = Registry::new();
    assert_eq!(subscribed(&mut registry, key_a(7), Ok(1)), Ok(EthResponse::Ack));
    assert_eq!(subscribed(&mut registry, key_a(7), Ok(2)), Ok(EthResponse::Ack));
    assert_eq!(registry.get(&key_a(7)), Some(2));
}

#[test]
fn call_that_fails_is_a_provider_error() {
    assert_eq!(
        called(Err("timeout".to_string())),
        Err(EthError::ProviderError("timeout".to_string()))
    );
}

#[test]
fn subscription_belongs_to_the_addressed_process() {
    let mut registry = Registry::new();
    let mut message = request_from_a(23, Some(5), None);
    message.source = Address::new("carol.os", ProcessId::new("wallet", "app", "carol.os"));
    message.target = Address::new(OUR, ProcessId::new("indexer", "app", "alice.os"));
    match plan(OUR, &message, subscribe_7(), &mut registry) {
        Step::Subscribe { key, relay, .. } => {
            assert_eq!(key, key_a(7));
            assert_eq!(
                relay.target,
                Address::new("carol.os", ProcessId::new("wallet", "app", "carol.os"))
            );
        }
        other => panic!("unexpected step: {:?}", other),
    }
}

#[test]
fn unsubscribe_reaches_only_the_addressed_process() {
    let mut registry = Registry::new();
    registry.insert(SubscriptionKey::new(ProcessId::new("other", "app", "alice.os"), 7), 1);
    let message = request_from_a(24, Some(5), None);
    assert_eq!(
        plan(OUR, &message, EthAction::UnsubscribeLogs(7), &mut registry),
        Step::Finish { cancel: None, outcome: Err(EthError::SubscriptionNotFound) }
    );
    assert!(registry.contains(&SubscriptionKey::new(ProcessId::new("other", "app", "alice.os"), 7)));
}

#[test]
fn messages_compare_and_clone() {
    let message = request_from_a(25, Some(5), Some(address_a()));
    assert_eq!(message.clone(), message);
    assert!(process_a().same_as(&ProcessId::new("indexer", "app", "alice.os")));
    assert!(!process_a().same_as(&ProcessId::new("indexer", "app", "bob.os")));
}
