use vstd::prelude::*;

pub mod config;
pub mod response;
pub mod translate;

verus! {

/// A REST endpoint of the server, in its short form.
#[derive(Clone, Debug)]
pub struct Endpoint {
    pub endpoint: String,
    pub produces: Vec<MimeType>,
    pub jvm_class: String,
    pub jvm_method: String,
    pub http_method: String,
}

/// A mime type, in its short form.
#[derive(Clone, Debug)]
pub struct MimeType {
    pub identifier: String,
    pub supertype: Option<String>,
    pub alias: Vec<String>,
    pub parser: Option<String>,
}

/// A mime type under its identifier, in its short form.
#[derive(Clone, Debug)]
pub struct MimeTypeInner {
    pub supertype: Option<String>,
    pub alias: Vec<String>,
    pub parser: Option<String>,
}

/// A parser, named with its class.
#[derive(Clone, Debug)]
pub struct Parser {
    /// the name of the parser
    pub name: String,
    /// the class of the java parser
    pub jvm_class: String,
}

/// The details of a parser.
#[derive(Clone, Debug)]
pub struct ParserDetails {}

/// A detector, in its short form.
#[derive(Debug)]
pub struct Detector {
    pub name: String,
    pub composite: bool,
    pub children: Vec<Detector>,
}

} // verus!
