use vstd::prelude::*;

use crate::web::config::{Detector, MimeType, Parser};

verus! {

/// A configuration listing of the server.
#[derive(Debug)]
pub enum ServerConfig {
    Detectors(Vec<Detector>),
    Parsers(Vec<Parser>),
    MimeTypes(Vec<MimeType>),
    Endpoints,
}

} // verus!
