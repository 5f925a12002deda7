//! The messages that travel on the internal bus, and the addresses they are
//! routed by.
//!
//! Every type has a view that replaces strings and byte vectors by sequences;
//! the contracts of the whole crate are stated over those views.

use vstd::prelude::*;

verus! {

/// The identity of a process: its own name, the package it belongs to, and the
/// node that published the package.
#[derive(Debug, PartialEq, Eq)]
pub struct ProcessId {
    pub process_name: String,
    pub package_name: String,
    pub publisher_node: String,
}

pub struct ProcessIdView {
    pub process_name: Seq<char>,
    pub package_name: Seq<char>,
    pub publisher_node: Seq<char>,
}

impl View for ProcessId {
    type V = ProcessIdView;

    open spec fn view(&self) -> ProcessIdView {
        ProcessIdView {
            process_name: self.process_name@,
            package_name: self.package_name@,
            publisher_node: self.publisher_node@,
        }
    }
}

impl Clone for ProcessId {
    fn clone(&self) -> (copy: Self)
        ensures
            copy@ == self@,
    {
        ProcessId {
            process_name: self.process_name.clone(),
            package_name: self.package_name.clone(),
            publisher_node: self.publisher_node.clone(),
        }
    }
}

impl ProcessId {
    pub fn new(process_name: &str, package_name: &str, publisher_node: &str) -> (id: Self)
        ensures
            id@.process_name == process_name@,
            id@.package_name == package_name@,
            id@.publisher_node == publisher_node@,
    {
        ProcessId {
            process_name: String::from_str(process_name),
            package_name: String::from_str(package_name),
            publisher_node: String::from_str(publisher_node),
        }
    }

    /// Whether two identities name the same process.
    pub fn same_as(&self, other: &ProcessId) -> (same: bool)
        ensures
            same == (self@ == other@),
    {
        self.process_name == other.process_name && self.package_name == other.package_name
            && self.publisher_node == other.publisher_node
    }
}

/// The identity under which the bridge itself sends relayed events.
pub open spec fn eth_process() -> ProcessIdView {
    ProcessIdView { process_name: "eth"@, package_name: "distro"@, publisher_node: "sys"@ }
}

/// The identity with which replies to requests are stamped.
pub open spec fn vfs_process() -> ProcessIdView {
    ProcessIdView { process_name: "vfs"@, package_name: "distro"@, publisher_node: "sys"@ }
}

pub fn eth_process_id() -> (id: ProcessId)
    ensures
        id@ == eth_process(),
{
    ProcessId::new("eth", "distro", "sys")
}

pub fn vfs_process_id() -> (id: ProcessId)
    ensures
        id@ == vfs_process(),
{
    ProcessId::new("vfs", "distro", "sys")
}

/// Where a message comes from or goes to: a process on a node.
#[derive(Debug, PartialEq, Eq)]
pub struct Address {
    pub node: String,
    pub process: ProcessId,
}

pub struct AddressView {
    pub node: Seq<char>,
    pub process: ProcessIdView,
}

impl View for Address {
    type V = AddressView;

    open spec fn view(&self) -> AddressView {
        AddressView { node: self.node@, process: self.process@ }
    }
}

impl Clone for Address {
    fn clone(&self) -> (copy: Self)
        ensures
            copy@ == self@,
    {
        Address { node: self.node.clone(), process: self.process.clone() }
    }
}

impl Address {
    pub fn new(node: &str, process: ProcessId) -> (address: Self)
        ensures
            address@.node == node@,
            address@.process == process@,
    {
        Address { node: String::from_str(node), process }
    }
}

/// The view of an optional address.
pub open spec fn address_view(address: Option<Address>) -> Option<AddressView> {
    match address {
        Some(a) => Some(a@),
        None => None,
    }
}

fn clone_address(address: &Option<Address>) -> (copy: Option<Address>)
    ensures
        address_view(copy) == address_view(*address),
{
    match address {
        Some(a) => Some(a.clone()),
        None => None,
    }
}

fn clone_text(text: &Option<String>) -> (copy: Option<String>)
    ensures
        copy.deep_view() == text.deep_view(),
{
    match text {
        Some(t) => Some(t.clone()),
        None => None,
    }
}

fn clone_bytes(bytes: &Vec<u8>) -> (copy: Vec<u8>)
    ensures
        copy@ == bytes@,
{
    bytes.clone()
}

/// An opaque attachment that travels with a message.
#[derive(Debug, PartialEq, Eq)]
pub struct LazyLoadBlob {
    pub mime: Option<String>,
    pub bytes: Vec<u8>,
}

pub struct LazyLoadBlobView {
    pub mime: Option<Seq<char>>,
    pub bytes: Seq<u8>,
}

impl View for LazyLoadBlob {
    type V = LazyLoadBlobView;

    open spec fn view(&self) -> LazyLoadBlobView {
        LazyLoadBlobView { mime: self.mime.deep_view(), bytes: self.bytes@ }
    }
}

impl Clone for LazyLoadBlob {
    fn clone(&self) -> (copy: Self)
        ensures
            copy@ == self@,
    {
        LazyLoadBlob { mime: clone_text(&self.mime), bytes: clone_bytes(&self.bytes) }
    }
}

/// The view of an optional attachment.
pub open spec fn blob_view(blob: Option<LazyLoadBlob>) -> Option<LazyLoadBlobView> {
    match blob {
        Some(b) => Some(b@),
        None => None,
    }
}

/// A message that asks for something.  When `expects_response` is set, its
/// sender waits for exactly one response.
#[derive(Debug, PartialEq, Eq)]
pub struct Request {
    pub inherit: bool,
    pub expects_response: Option<u64>,
    pub body: Vec<u8>,
    pub metadata: Option<String>,
}

pub struct RequestView {
    pub inherit: bool,
    pub expects_response: Option<u64>,
    pub body: Seq<u8>,
    pub metadata: Option<Seq<char>>,
}

impl View for Request {
    type V = RequestView;

    open spec fn view(&self) -> RequestView {
        RequestView {
            inherit: self.inherit,
            expects_response: self.expects_response,
            body: self.body@,
            metadata: self.metadata.deep_view(),
        }
    }
}

impl Clone for Request {
    fn clone(&self) -> (copy: Self)
        ensures
            copy@ == self@,
    {
        Request {
            inherit: self.inherit,
            expects_response: self.expects_response,
            body: clone_bytes(&self.body),
            metadata: clone_text(&self.metadata),
        }
    }
}

/// A message that answers a request.  `metadata` is the request's, echoed.
#[derive(Debug, PartialEq, Eq)]
pub struct Response {
    pub inherit: bool,
    pub body: Vec<u8>,
    pub metadata: Option<String>,
}

pub struct ResponseView {
    pub inherit: bool,
    pub body: Seq<u8>,
    pub metadata: Option<Seq<char>>,
}

impl View for Response {
    type V = ResponseView;

    open spec fn view(&self) -> ResponseView {
        ResponseView { inherit: self.inherit, body: self.body@, metadata: self.metadata.deep_view() }
    }
}

impl Clone for Response {
    fn clone(&self) -> (copy: Self)
        ensures
            copy@ == self@,
    {
        Response {
            inherit: self.inherit,
            body: clone_bytes(&self.body),
            metadata: clone_text(&self.metadata),
        }
    }
}

/// What a bus message carries: a request, or a response together with the
/// context that its receiver saved when it sent the request.
#[derive(Debug, PartialEq, Eq)]
pub enum Message {
    Request(Request),
    Response(Response, Option<Vec<u8>>),
}

pub enum MessageView {
    Request(RequestView),
    Response(ResponseView, Option<Seq<u8>>),
}

impl View for Message {
    type V = MessageView;

    open spec fn view(&self) -> MessageView {
        match self {
            Message::Request(request) => MessageView::Request(request@),
            Message::Response(response, context) => MessageView::Response(
                response@,
                context.deep_view(),
            ),
        }
    }
}

impl Clone for Message {
    fn clone(&self) -> (copy: Self)
        ensures
            copy@ == self@,
    {
        match self {
            Message::Request(request) => Message::Request(request.clone()),
            Message::Response(response, context) => {
                let context = match context {
                    Some(bytes) => Some(clone_bytes(bytes)),
                    None => None,
                };
                Message::Response(response.clone(), context)
            },
        }
    }
}

/// The envelope in which everything travels on the bus.
#[derive(Debug, PartialEq, Eq)]
pub struct KernelMessage {
    /// Pairs a request with its response.
    pub id: u64,
    pub source: Address,
    pub target: Address,
    /// Where a response goes, when not to `source`.
    pub rsvp: Option<Address>,
    pub message: Message,
    pub lazy_load_blob: Option<LazyLoadBlob>,
}

pub struct KernelMessageView {
    pub id: u64,
    pub source: AddressView,
    pub target: AddressView,
    pub rsvp: Option<AddressView>,
    pub message: MessageView,
    pub lazy_load_blob: Option<LazyLoadBlobView>,
}

impl View for KernelMessage {
    type V = KernelMessageView;

    open spec fn view(&self) -> KernelMessageView {
        KernelMessageView {
            id: self.id,
            source: self.source@,
            target: self.target@,
            rsvp: address_view(self.rsvp),
            message: self.message@,
            lazy_load_blob: blob_view(self.lazy_load_blob),
        }
    }
}

impl Clone for KernelMessage {
    fn clone(&self) -> (copy: Self)
        ensures
            copy@ == self@,
    {
        let lazy_load_blob = match &self.lazy_load_blob {
            Some(blob) => Some(blob.clone()),
            None => None,
        };
        KernelMessage {
            id: self.id,
            source: self.source.clone(),
            target: self.target.clone(),
            rsvp: clone_address(&self.rsvp),
            message: self.message.clone(),
            lazy_load_blob,
        }
    }
}

} // verus!
