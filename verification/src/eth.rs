//! The operations that a process may ask of the bridge, their results, and the
//! JSON text in which results and errors are written on the bus.

use vstd::prelude::*;

verus! {

/// A JSON document, held as its text.  The bridge passes such documents on
/// without looking inside.
#[derive(Debug, PartialEq, Eq)]
pub struct Json {
    pub text: String,
}

impl View for Json {
    type V = Seq<char>;

    open spec fn view(&self) -> Seq<char> {
        self.text@
    }
}

impl Clone for Json {
    fn clone(&self) -> (copy: Self)
        ensures
            copy@ == self@,
    {
        Json { text: self.text.clone() }
    }
}

impl Json {
    pub fn new(text: &str) -> (json: Self)
        ensures
            json@ == text@,
    {
        Json { text: String::from_str(text) }
    }

    pub fn as_str(&self) -> (text: &str)
        ensures
            text@ == self@,
    {
        self.text.as_str()
    }
}

/// One operation, as decoded from the body of a request.
#[derive(Debug, PartialEq, Eq)]
pub enum EthAction {
    /// Open a remote subscription.  `sub_id` is chosen by the caller and
    /// unique only among the caller's own subscriptions.
    SubscribeLogs { sub_id: u64, kind: Json, params: Json },
    /// Close a subscription that the same process opened.
    UnsubscribeLogs(u64),
    /// One remote call.
    Request { method: String, params: Json },
}

pub enum EthActionView {
    SubscribeLogs { sub_id: u64, kind: Seq<char>, params: Seq<char> },
    UnsubscribeLogs(u64),
    Request { method: Seq<char>, params: Seq<char> },
}

impl View for EthAction {
    type V = EthActionView;

    open spec fn view(&self) -> EthActionView {
        match self {
            EthAction::SubscribeLogs { sub_id, kind, params } => EthActionView::SubscribeLogs {
                sub_id: *sub_id,
                kind: kind@,
                params: params@,
            },
            EthAction::UnsubscribeLogs(sub_id) => EthActionView::UnsubscribeLogs(*sub_id),
            EthAction::Request { method, params } => EthActionView::Request {
                method: method@,
                params: params@,
            },
        }
    }
}

/// What an operation yields.
#[derive(Debug, PartialEq, Eq)]
pub enum EthResponse {
    /// An acknowledgement without content; on the bus it is written `"Ok"`.
    Ack,
    /// The result of one remote call, exactly as the node gave it.
    Request(Json),
    /// One event of the subscription `id`.
    Sub { id: u64, result: Json },
}

pub enum EthResponseView {
    Ack,
    Request(Seq<char>),
    Sub { id: u64, result: Seq<char> },
}

impl View for EthResponse {
    type V = EthResponseView;

    open spec fn view(&self) -> EthResponseView {
        match self {
            EthResponse::Ack => EthResponseView::Ack,
            EthResponse::Request(result) => EthResponseView::Request(result@),
            EthResponse::Sub { id, result } => EthResponseView::Sub { id: *id, result: result@ },
        }
    }
}

/// Why an operation failed, or why a relay ended.
#[derive(Debug, PartialEq, Eq)]
pub enum EthError {
    /// Malformed input, an unknown method, or a failure of the connection,
    /// told in words.
    ProviderError(String),
    /// No subscription is registered under the owner and id given.
    SubscriptionNotFound,
    /// The stream of a subscription has ended.
    SubscriptionClosed,
}

pub enum EthErrorView {
    ProviderError(Seq<char>),
    SubscriptionNotFound,
    SubscriptionClosed,
}

impl View for EthError {
    type V = EthErrorView;

    open spec fn view(&self) -> EthErrorView {
        match self {
            EthError::ProviderError(detail) => EthErrorView::ProviderError(detail@),
            EthError::SubscriptionNotFound => EthErrorView::SubscriptionNotFound,
            EthError::SubscriptionClosed => EthErrorView::SubscriptionClosed,
        }
    }
}

impl Clone for EthError {
    fn clone(&self) -> (copy: Self)
        ensures
            copy@ == self@,
    {
        match self {
            EthError::ProviderError(detail) => EthError::ProviderError(detail.clone()),
            EthError::SubscriptionNotFound => EthError::SubscriptionNotFound,
            EthError::SubscriptionClosed => EthError::SubscriptionClosed,
        }
    }
}

/// How an operation ended.
pub type Outcome = Result<EthResponse, EthError>;

pub type OutcomeView = Result<EthResponseView, EthErrorView>;

pub open spec fn outcome_view(outcome: Outcome) -> OutcomeView {
    match outcome {
        Ok(response) => Ok(response@),
        Err(error) => Err(error@),
    }
}

/// `str`'s `==`: whether two string slices hold the same characters.
pub assume_specification[ <str as PartialEq>::eq ](left: &str, right: &str) -> (same: bool)
    ensures
        same == (left@ == right@),
;

/// The remote methods that a one-shot request may name.
pub open spec fn is_known_method(method: Seq<char>) -> bool {
    ||| method == "eth_getBalance"@
    ||| method == "eth_sendRawTransaction"@
    ||| method == "eth_call"@
    ||| method == "eth_chainId"@
    ||| method == "eth_getTransactionReceipt"@
    ||| method == "eth_getTransactionCount"@
    ||| method == "eth_estimateGas"@
    ||| method == "eth_blockNumber"@
    ||| method == "eth_getBlockByHash"@
    ||| method == "eth_getBlockByNumber"@
    ||| method == "eth_getTransactionByHash"@
    ||| method == "eth_getCode"@
    ||| method == "eth_getStorageAt"@
    ||| method == "eth_gasPrice"@
    ||| method == "eth_accounts"@
    ||| method == "eth_hashrate"@
    ||| method == "eth_getLogs"@
    ||| method == "eth_subscribe"@
    ||| method == "eth_unsubscribe"@
    ||| method == "eth_mining"@
    ||| method == "net_version"@
    ||| method == "net_peerCount"@
    ||| method == "net_listening"@
    ||| method == "web3_clientVersion"@
    ||| method == "web3_sha3"@
}

/// The method's name as a constant, if the method is known.
pub fn to_static_str(method: &str) -> (name: Option<&'static str>)
    ensures
        name is Some <==> is_known_method(method@),
        name matches Some(known) ==> known@ == method@,
{
    if method.eq("eth_getBalance") {
        Some("eth_getBalance")
    } else if method.eq("eth_sendRawTransaction") {
        Some("eth_sendRawTransaction")
    } else if method.eq("eth_call") {
        Some("eth_call")
    } else if method.eq("eth_chainId") {
        Some("eth_chainId")
    } else if method.eq("eth_getTransactionReceipt") {
        Some("eth_getTransactionReceipt")
    } else if method.eq("eth_getTransactionCount") {
        Some("eth_getTransactionCount")
    } else if method.eq("eth_estimateGas") {
        Some("eth_estimateGas")
    } else if method.eq("eth_blockNumber") {
        Some("eth_blockNumber")
    } else if method.eq("eth_getBlockByHash") {
        Some("eth_getBlockByHash")
    } else if method.eq("eth_getBlockByNumber") {
        Some("eth_getBlockByNumber")
    } else if method.eq("eth_getTransactionByHash") {
        Some("eth_getTransactionByHash")
    } else if method.eq("eth_getCode") {
        Some("eth_getCode")
    } else if method.eq("eth_getStorageAt") {
        Some("eth_getStorageAt")
    } else if method.eq("eth_gasPrice") {
        Some("eth_gasPrice")
    } else if method.eq("eth_accounts") {
        Some("eth_accounts")
    } else if method.eq("eth_hashrate") {
        Some("eth_hashrate")
    } else if method.eq("eth_getLogs") {
        Some("eth_getLogs")
    } else if method.eq("eth_subscribe") {
        Some("eth_subscribe")
    } else if method.eq("eth_unsubscribe") {
        Some("eth_unsubscribe")
    } else if method.eq("eth_mining") {
        Some("eth_mining")
    } else if method.eq("net_version") {
        Some("net_version")
    } else if method.eq("net_peerCount") {
        Some("net_peerCount")
    } else if method.eq("net_listening") {
        Some("net_listening")
    } else if method.eq("web3_clientVersion") {
        Some("web3_clientVersion")
    } else if method.eq("web3_sha3") {
        Some("web3_sha3")
    } else {
        None
    }
}

} // verus!
