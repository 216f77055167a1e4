use vstd::prelude::*;
use vstd::string::StringExecFns;

verus! {

/// The class of a failure, each with a human-readable message.
#[derive(Clone, Debug)]
pub enum ErrorKind {
    /// A requested type name is not known.
    InvalidTypeName { name: String },
    /// An invalid or missing setting, or an operation the client's mode forbids.
    Config { msg: String },
    /// A filesystem or stream failure.
    IO { msg: String },
    /// A transport failure, a server that exited before it was ready, or one that could
    /// not be shut down.
    Network { msg: String },
    /// A response body that could not be decoded.
    Serde { msg: String },
    /// A malformed endpoint URL.
    Url { msg: String },
    /// A malformed bind address.
    Addr { msg: String },
}

/// An error of this crate.
#[derive(Clone, Debug)]
pub struct Error {
    pub kind: ErrorKind,
}

pub type Result<T> = core::result::Result<T, Error>;

/// The message of an error as it is shown to a user.
pub open spec fn display_text(k: ErrorKind) -> Seq<char> {
    match k {
        ErrorKind::InvalidTypeName { name } => "invalid type name: "@ + name@,
        ErrorKind::Config { msg } => msg@,
        ErrorKind::IO { msg } => "Failed during std::io operation: "@ + msg@,
        ErrorKind::Network { msg } => msg@,
        ErrorKind::Serde { msg } => "invalid serde: "@ + msg@,
        ErrorKind::Url { msg } => "Failed to parse url: "@ + msg@,
        ErrorKind::Addr { msg } => "Failed to parse address: "@ + msg@,
    }
}

impl Error {
    pub fn config(msg: &str) -> (e: Error)
        ensures
            e.kind is Config,
            e.kind->Config_msg@ == msg@,
    {
        Error { kind: ErrorKind::Config { msg: msg.to_string() } }
    }

    pub fn io(msg: &str) -> (e: Error)
        ensures
            e.kind is IO,
            e.kind->IO_msg@ == msg@,
    {
        Error { kind: ErrorKind::IO { msg: msg.to_string() } }
    }

    pub fn network(msg: &str) -> (e: Error)
        ensures
            e.kind is Network,
            e.kind->Network_msg@ == msg@,
    {
        Error { kind: ErrorKind::Network { msg: msg.to_string() } }
    }

    pub fn serde(msg: &str) -> (e: Error)
        ensures
            e.kind is Serde,
            e.kind->Serde_msg@ == msg@,
    {
        Error { kind: ErrorKind::Serde { msg: msg.to_string() } }
    }

    pub fn url(msg: &str) -> (e: Error)
        ensures
            e.kind is Url,
            e.kind->Url_msg@ == msg@,
    {
        Error { kind: ErrorKind::Url { msg: msg.to_string() } }
    }

    pub fn addr(msg: &str) -> (e: Error)
        ensures
            e.kind is Addr,
            e.kind->Addr_msg@ == msg@,
    {
        Error { kind: ErrorKind::Addr { msg: msg.to_string() } }
    }

    pub fn kind(&self) -> (k: &ErrorKind)
        ensures
            *k == self.kind,
    {
        &self.kind
    }

    /// The message shown to a user.
    pub fn message(&self) -> (s: String)
        ensures
            s@ == display_text(self.kind),
    {
        match &self.kind {
            ErrorKind::InvalidTypeName { name } => String::from_str("invalid type name: ").concat(name.as_str()),
            ErrorKind::Config { msg } => msg.clone(),
            ErrorKind::IO { msg } => String::from_str("Failed during std::io operation: ").concat(msg.as_str()),
            ErrorKind::Network { msg } => msg.clone(),
            ErrorKind::Serde { msg } => String::from_str("invalid serde: ").concat(msg.as_str()),
            ErrorKind::Url { msg } => String::from_str("Failed to parse url: ").concat(msg.as_str()),
            ErrorKind::Addr { msg } => String::from_str("Failed to parse address: ").concat(msg.as_str()),
        }
    }
}

} // verus!
