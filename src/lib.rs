use vstd::prelude::*;
use vstd::string::StringExecFns;

pub mod address;
pub mod client;
pub mod error;
pub mod paths;
pub mod urls;
pub mod web;

pub use crate::address::SocketAddress;
pub use crate::error::{Error, ErrorKind, Result};

use crate::urls::{parse_url, parsed_url, parsed_url_has_host, url_has_host};

verus! {

/// Whether a server is spawned by the client or is already running elsewhere.
#[derive(Clone, Debug)]
pub enum TikaMode {
    /// spawn a server bound to this local address
    ClientServer(SocketAddress),
    /// use a running server at this URL (as the `url` crate serialises it)
    ClientOnly(String),
}

/// The text of a spawned server's URL before it is parsed: `http://` and the bind address.
pub open spec fn local_url_text(addr: SocketAddress) -> Seq<char> {
    "http://"@ + addr.text()
}

/// Whether a text is a URL that requests can be sent to: it parses, and has a host.
pub open spec fn usable_url(input: Seq<char>) -> bool {
    parsed_url(input) is Some && parsed_url_has_host(input)
}

impl TikaMode {
    /// The base URL of the server: the URL `http://` and the bind address for a spawned
    /// server, the configured URL unchanged for a remote one. `None` where the local text
    /// is not a URL.
    pub open spec fn endpoint_spec(self) -> Option<Seq<char>> {
        match self {
            TikaMode::ClientServer(addr) => parsed_url(local_url_text(addr)),
            TikaMode::ClientOnly(url) => Some(url@),
        }
    }

    /// The endpoint as a reader sees it: the URL where there is one, else the local text.
    pub open spec fn label_spec(self) -> Seq<char> {
        match self.endpoint_spec() {
            Some(url) => url,
            None => local_url_text(self->ClientServer_0),
        }
    }

    /// A server is to be spawned at the local address `addr`.
    pub fn client_server(addr: SocketAddress) -> (m: TikaMode)
        ensures
            m == TikaMode::ClientServer(addr),
    {
        TikaMode::ClientServer(addr)
    }

    /// The URL of the server, either local and self hosted or remote; a URL error where the
    /// local address does not make a URL.
    pub fn server_endpoint(&self) -> (r: Result<String>)
        ensures
            r is Ok <==> self.endpoint_spec() is Some,
            r is Ok ==> r->Ok_0@ == self.endpoint_spec()->0,
            r is Err ==> r->Err_0.kind is Url,
    {
        match self {
            TikaMode::ClientServer(addr) => {
                let text = String::from_str("http://").concat(addr.to_text().as_str());
                match parse_url(text.as_str()) {
                    Ok(url) => Ok(url),
                    Err(msg) => Err(Error::url(msg.as_str())),
                }
            },
            TikaMode::ClientOnly(url) => Ok(url.clone()),
        }
    }

    /// The endpoint as text, for messages: the URL where there is one, else the local text.
    pub fn endpoint_label(&self) -> (s: String)
        ensures
            s@ == self.label_spec(),
    {
        match self.server_endpoint() {
            Ok(url) => url,
            Err(_) => match self {
                TikaMode::ClientServer(addr) => String::from_str("http://").concat(addr.to_text().as_str()),
                TikaMode::ClientOnly(url) => url.clone(),
            },
        }
    }

    /// A client of a running server at `server_url`; a URL error where the text is not a URL
    /// with a host.
    pub fn client_only(server_url: &str) -> (r: Result<TikaMode>)
        ensures
            r is Ok <==> usable_url(server_url@),
            r is Ok ==> r->Ok_0 is ClientOnly && r->Ok_0->ClientOnly_0@ == parsed_url(server_url@)->0,
            r is Err ==> r->Err_0.kind is Url,
    {
        match parse_url(server_url) {
            Ok(url) => {
                if url_has_host(server_url) {
                    Ok(TikaMode::ClientOnly(url))
                } else {
                    Err(Error::url("the URL has no host to send requests to"))
                }
            },
            Err(msg) => Err(Error::url(msg.as_str())),
        }
    }

    /// The mode that the environment asks for: a remote server where an endpoint is set (a
    /// URL error where it does not parse), else a server spawned at `127.0.0.1:9998`.
    pub fn from_env(endpoint: Option<String>) -> (r: Result<TikaMode>)
        ensures
            endpoint is None ==> r is Ok && r->Ok_0 is ClientServer
                && r->Ok_0->ClientServer_0.ip@ == "127.0.0.1"@
                && !r->Ok_0->ClientServer_0.ipv6
                && r->Ok_0->ClientServer_0.port == 9998,
            endpoint is Some ==> (r is Ok <==> parsed_url(endpoint->0@) is Some),
            endpoint is Some && r is Ok ==> r->Ok_0 is ClientOnly
                && r->Ok_0->ClientOnly_0@ == parsed_url(endpoint->0@)->0,
            r is Err ==> r->Err_0.kind is Url,
    {
        match endpoint {
            Some(url) => match parse_url(url.as_str()) {
                Ok(parsed) => Ok(TikaMode::ClientOnly(parsed)),
                Err(msg) => Err(Error::url(msg.as_str())),
            },
            None => Ok(TikaMode::ClientServer(SocketAddress::localhost(9998))),
        }
    }
}

/// The endpoint of a spawned server is the URL `http://` followed by its bind address; that
/// of a remote server is its URL, unchanged.
pub proof fn lemma_endpoint_of_mode(addr: SocketAddress, url: String)
    ensures
        TikaMode::ClientServer(addr).endpoint_spec() == parsed_url("http://"@ + addr.text()),
        TikaMode::ClientOnly(url).endpoint_spec() == Some(url@),
{
}

} // verus!
