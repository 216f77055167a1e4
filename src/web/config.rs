use vstd::prelude::*;

verus! {

/// The configuration listings a server offers.
#[derive(Clone, Copy, Debug, PartialEq, Eq, Structural)]
pub enum Config {
    MimeTypes,
    Detectors,
    Parsers,
    ParsersDetails,
}

impl Config {
    /// The path of the listing, relative to the server's endpoint.
    pub open spec fn path_spec(self) -> Seq<char> {
        match self {
            Config::MimeTypes => "mime-types"@,
            Config::Detectors => "detectors"@,
            Config::Parsers => "parsers"@,
            Config::ParsersDetails => "parsers/details"@,
        }
    }

    pub fn path(&self) -> (s: &'static str)
        ensures
            s@ == self.path_spec(),
    {
        match self {
            Config::MimeTypes => "mime-types",
            Config::Detectors => "detectors",
            Config::Parsers => "parsers",
            Config::ParsersDetails => "parsers/details",
        }
    }
}

/// A REST endpoint of the server.
#[derive(Clone, Debug)]
pub struct Endpoint {
    pub endpoint: String,
    pub produces: Vec<MimeType>,
    pub jvm_class: String,
    pub jvm_method: String,
    pub http_method: String,
}

/// A mime type known to the server.
#[derive(Clone, Debug)]
pub struct MimeType {
    pub identifier: String,
    pub supertype: Option<String>,
    pub alias: Vec<String>,
    pub parser: Option<String>,
}

/// A mime type as the server lists it, under its identifier.
#[derive(Clone, Debug)]
pub struct MimeTypeInner {
    pub supertype: Option<String>,
    pub alias: Vec<String>,
    pub parser: Option<String>,
}

impl MimeType {
    /// A mime type known only by its identifier.
    pub fn new(identifier: String) -> (m: MimeType)
        ensures
            m.identifier == identifier,
            m.supertype is None,
            m.alias@.len() == 0,
            m.parser is None,
    {
        MimeType { identifier, supertype: None, alias: Vec::new(), parser: None }
    }

    /// The record of a listed mime type: the identifier from the listing's key, the rest
    /// from its value.
    pub fn from_entry(identifier: String, inner: MimeTypeInner) -> (m: MimeType)
        ensures
            m.identifier == identifier,
            m.supertype == inner.supertype,
            m.alias == inner.alias,
            m.parser == inner.parser,
    {
        MimeType {
            identifier,
            supertype: inner.supertype,
            alias: inner.alias,
            parser: inner.parser,
        }
    }

    /// Flattens the listing of mime types, a map from identifier to record, into a list of
    /// records that carry their identifier, in the order given.
    pub fn from_listing(entries: Vec<(String, MimeTypeInner)>) -> (r: Vec<MimeType>)
        ensures
            r@.len() == entries@.len(),
            forall|i: int|
                0 <= i < entries@.len() ==> {
                    &&& (#[trigger] r@[i]).identifier == entries@[i].0
                    &&& r@[i].supertype == entries@[i].1.supertype
                    &&& r@[i].alias == entries@[i].1.alias
                    &&& r@[i].parser == entries@[i].1.parser
                },
    {
        let mut entries = entries;
        let ghost orig = entries@;
        let mut out: Vec<MimeType> = Vec::new();
        while entries.len() > 0
            invariant
                out@.len() <= orig.len(),
                entries@ == orig.subrange(out@.len() as int, orig.len() as int),
                forall|j: int|
                    0 <= j < out@.len() ==> {
                        &&& (#[trigger] out@[j]).identifier == orig[j].0
                        &&& out@[j].supertype == orig[j].1.supertype
                        &&& out@[j].alias == orig[j].1.alias
                        &&& out@[j].parser == orig[j].1.parser
                    },
            decreases entries@.len(),
        {
            let (identifier, inner) = entries.remove(0);
            out.push(MimeType::from_entry(identifier, inner));
        }
        out
    }
}

/// A parser of the server, with the parsers it contains.
#[derive(Debug)]
pub struct Parser {
    pub children: Vec<Parser>,
    pub composite: bool,
    /// the name of the parser's jvm class
    pub name: String,
    pub decorated: bool,
    pub supported_types: Vec<String>,
}

/// A detector of the server, with the detectors it contains.
#[derive(Debug)]
pub struct Detector {
    pub name: String,
    pub composite: bool,
    pub children: Vec<Detector>,
}

} // verus!
