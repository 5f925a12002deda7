//! The rule on which node the bridge connects to: one that is reached over a
//! web socket, plain (`ws`) or secure (`wss`).  Anything else is refused before
//! a connection is tried.

use vstd::prelude::*;

verus! {

/// `url::ParseError`, carried as an opaque value.
#[verifier::external_type_specification]
#[verifier::external_body]
pub struct ExParseError(url::ParseError);

/// The scheme of the absolute URL that a text is: lower-cased, and without the
/// colon that ends it.  `None` for a text that is no absolute URL.
pub uninterp spec fn url_scheme(text: Seq<char>) -> Option<Seq<char>>;

/// `url::Url::parse`, then `Url::scheme` on the URL: the scheme of the URL
/// that the text is, or the error for a text that is none.
#[verifier::external_body]
fn parse_scheme(text: &str) -> (parsed: Result<String, url::ParseError>)
    ensures
        parsed is Ok ==> url_scheme(text@) == Some(parsed->Ok_0@),
        parsed is Err ==> url_scheme(text@) is None,
{
    url::Url::parse(text).map(|url| url.scheme().to_string())
}

/// `ToString::to_string` on a `url::ParseError`: the error in words.
#[verifier::external_body]
fn describe(error: &url::ParseError) -> (words: String) {
    error.to_string()
}

/// A text as `Debug` shows it: between double quotes, with the characters
/// escaped that cannot stand there.
pub uninterp spec fn debug_text(text: Seq<char>) -> Seq<char>;

/// `format!` with `{:?}` on a string slice.
#[verifier::external_body]
fn debug_quote(text: &str) -> (quoted: String)
    ensures
        quoted@ == debug_text(text@),
{
    format!("{:?}", text)
}

/// Why the bridge does not start on a node's address.
#[derive(Debug, PartialEq, Eq)]
pub enum EndpointError {
    /// The address is no URL; the words say why.
    NotAUrl(String),
    /// The address is one for HTTP, plain or secure.
    Http,
    /// The address has another scheme that is not a web socket's.
    Unsupported(String),
}

pub enum EndpointErrorView {
    NotAUrl(Seq<char>),
    Http,
    Unsupported(Seq<char>),
}

impl View for EndpointError {
    type V = EndpointErrorView;

    open spec fn view(&self) -> EndpointErrorView {
        match self {
            EndpointError::NotAUrl(words) => EndpointErrorView::NotAUrl(words@),
            EndpointError::Http => EndpointErrorView::Http,
            EndpointError::Unsupported(scheme) => EndpointErrorView::Unsupported(scheme@),
        }
    }
}

/// What is said to someone who gave an HTTP address.
pub open spec fn http_message() -> Seq<char> {
    "eth: you provided a `http(s)://` Ethereum RPC, but only `ws(s)://` is supported. Please try again with a `ws(s)://` provider"@
}

/// What is said to someone who gave an address of another scheme, `quoted`
/// being the scheme as `Debug` shows it.
pub open spec fn unsupported_message(quoted: Seq<char>) -> Seq<char> {
    "eth: you provided a `"@ + quoted
        + "` Ethereum RPC, but only `ws(s)://` is supported. Please try again with a `ws(s)://` provider"@
}

/// An error in words.
pub open spec fn error_message(error: EndpointErrorView) -> Seq<char> {
    match error {
        EndpointErrorView::NotAUrl(words) => words,
        EndpointErrorView::Http => http_message(),
        EndpointErrorView::Unsupported(scheme) => unsupported_message(debug_text(scheme)),
    }
}

/// Writes the message for a scheme that is not supported, from the scheme as
/// `Debug` shows it.
pub fn write_unsupported(quoted: &str) -> (words: String)
    ensures
        words@ == unsupported_message(quoted@),
{
    String::from_str("eth: you provided a `").concat(quoted).concat(
        "` Ethereum RPC, but only `ws(s)://` is supported. Please try again with a `ws(s)://` provider",
    )
}

impl EndpointError {
    /// The error in words, for whoever started the bridge.
    pub fn message(&self) -> (words: String)
        ensures
            words@ == error_message(self@),
    {
        match self {
            EndpointError::NotAUrl(words) => words.clone(),
            EndpointError::Http => String::from_str(
                "eth: you provided a `http(s)://` Ethereum RPC, but only `ws(s)://` is supported. Please try again with a `ws(s)://` provider",
            ),
            EndpointError::Unsupported(scheme) => {
                let quoted = debug_quote(scheme.as_str());
                write_unsupported(quoted.as_str())
            },
        }
    }
}

/// Whether the bridge connects to a node whose address has this scheme, and
/// if not, why not.
pub open spec fn scheme_verdict(scheme: Seq<char>) -> Result<(), EndpointErrorView> {
    if scheme == "ws"@ || scheme == "wss"@ {
        Ok(())
    } else if scheme == "http"@ || scheme == "https"@ {
        Err(EndpointErrorView::Http)
    } else {
        Err(EndpointErrorView::Unsupported(scheme))
    }
}

pub open spec fn verdict_view(verdict: Result<(), EndpointError>) -> Result<(), EndpointErrorView> {
    match verdict {
        Ok(_) => Ok(()),
        Err(error) => Err(error@),
    }
}

/// Decides on a scheme.
pub fn check_scheme(scheme: &str) -> (verdict: Result<(), EndpointError>)
    ensures
        verdict_view(verdict) == scheme_verdict(scheme@),
{
    if scheme.eq("ws") || scheme.eq("wss") {
        Ok(())
    } else if scheme.eq("http") || scheme.eq("https") {
        Err(EndpointError::Http)
    } else {
        Err(EndpointError::Unsupported(String::from_str(scheme)))
    }
}

/// Decides on a node's address, before any connection is tried: the address
/// must be a URL, and its scheme that of a web socket.
pub fn check_rpc_url(rpc_url: &str) -> (verdict: Result<(), EndpointError>)
    ensures
        match url_scheme(rpc_url@) {
            Some(scheme) => verdict_view(verdict) == scheme_verdict(scheme),
            None => verdict matches Err(error) && error is NotAUrl,
        },
{
    match parse_scheme(rpc_url) {
        Ok(scheme) => check_scheme(scheme.as_str()),
        Err(error) => Err(EndpointError::NotAUrl(describe(&error))),
    }
}

} // verus!
