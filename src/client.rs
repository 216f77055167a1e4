use vstd::prelude::*;
use vstd::string::{StrSliceExecFns, StringExecFns};

use crate::address::{dec_text, SocketAddress};
use crate::error::{Error, Result};
use crate::paths::{join_path, joined_path, locate_executable, path_exists};
use crate::urls::{join_url, joined_url, parsed_url};
use crate::web::config::{Config, MimeType};
use crate::web::translate::{class_name, Language, Translator};
use crate::{usable_url, TikaMode};

verus! {

/// The name of the server executable looked up on the search path.
pub const REST_SERVER_EXECUTABLE: &'static str = "tika-rest-server";

/// The class a runtime starts a server jar at.
pub const SERVER_ENTRY_POINT: &'static str = "org.apache.tika.server.TikaServerCli";

/// The text a starting server writes to its error stream once it serves requests.
pub const READY_BANNER: &'static str = "Started Apache Tika server at";

/// The file name a downloaded server jar is stored under.
pub const DOWNLOADED_JAR: &'static str = "tika-server.jar";

/// The version of the server downloaded where none is configured.
pub const DEFAULT_VERSION: &'static str = "1.20";

/// How a spawned server logs to the parent's console.
#[derive(Clone, Copy, Debug, PartialEq, Eq, Structural)]
pub enum Verbosity {
    /// keep the server's output in pipes
    Silent,
    /// echo the server's log while it starts, then hand its streams to the console
    Verbose,
}

impl Default for Verbosity {
    fn default() -> (v: Verbosity)
        ensures
            v == Verbosity::Silent,
    {
        Verbosity::Silent
    }
}

/// The value of an environment variable, as read.
#[derive(Clone, Debug)]
pub enum EnvVar {
    Unset,
    Text(String),
    /// set, but not valid unicode
    NotUnicode,
}

/// The settings that the environment supplies, read once.
#[derive(Clone, Debug)]
pub struct Environment {
    /// the server version to download
    pub tika_version: Option<String>,
    /// the class name of the translator to use
    pub tika_translator: Option<String>,
    /// the path of a server jar
    pub tika_server_jar: EnvVar,
    /// the URL of a running server
    pub tika_server_endpoint: Option<String>,
    /// the directory for temporary files
    pub temp_dir: String,
}

/// A policy for a managed server.
#[derive(Debug)]
pub struct ServerPolicy {
    addr: Option<SocketAddress>,
    download_missing_jar: bool,
}

impl ServerPolicy {
    pub closed spec fn addr_spec(self) -> Option<SocketAddress> {
        self.addr
    }

    pub closed spec fn downloads_missing_jar(self) -> bool {
        self.download_missing_jar
    }
}

impl Default for ServerPolicy {
    fn default() -> (p: ServerPolicy)
        ensures
            p.addr_spec() is None,
            p.downloads_missing_jar(),
    {
        ServerPolicy { addr: None, download_missing_jar: true }
    }
}

/// A local server executable or jar.
#[derive(Clone, Debug)]
pub enum TikaServerFile {
    /// the `tika-rest-server` executable found on the search path
    PathExecutable(String),
    /// a server jar named by the environment
    EnvVarJar(String),
    /// a downloaded server jar
    Download(String),
}

/// Where the server artifact is: a local file, or the URL to download its jar from.
#[derive(Clone, Debug)]
pub enum TikaServerFileLocation {
    File(TikaServerFile),
    Remote(String),
}

/// The program a server is run by.
#[derive(Clone, Debug)]
pub enum Program {
    /// run this executable directly
    Executable(String),
    /// run the Java runtime found on the search path
    Runtime,
}

/// How to spawn a server process.
#[derive(Clone, Debug)]
pub struct Invocation {
    pub program: Program,
    pub args: Vec<String>,
}

/// The arguments that bind a server to an address.
pub open spec fn address_args(addr: SocketAddress) -> Seq<Seq<char>> {
    seq!["--host"@, addr.ip@, "--port"@, dec_text(addr.port as nat)]
}

impl TikaServerFile {
    pub open spec fn location_spec(self) -> Seq<char> {
        match self {
            TikaServerFile::PathExecutable(p) => p@,
            TikaServerFile::EnvVarJar(p) => p@,
            TikaServerFile::Download(p) => p@,
        }
    }

    /// The arguments of a server run from this file and bound to `addr`.
    pub open spec fn args_spec(self, addr: SocketAddress) -> Seq<Seq<char>> {
        match self {
            TikaServerFile::PathExecutable(_) => address_args(addr),
            _ => seq!["-cp"@, self.location_spec(), SERVER_ENTRY_POINT@] + address_args(addr),
        }
    }

    /// The location of the server executable or jar file.
    pub fn location(&self) -> (p: &String)
        ensures
            p@ == self.location_spec(),
    {
        match self {
            TikaServerFile::PathExecutable(path)
            | TikaServerFile::EnvVarJar(path)
            | TikaServerFile::Download(path) => path,
        }
    }

    /// Whether the file it points to exists.
    pub fn file_exists(&self) -> bool {
        path_exists(self.location().as_str())
    }

    /// The server file chosen from the jar the environment names and the executable found
    /// on the search path: the jar comes first; with neither, a configuration error.
    pub fn from_sources(server_jar: &EnvVar, system_executable: Option<String>) -> (r: Result<TikaServerFile>)
        ensures
            server_jar is Text ==> r is Ok && r->Ok_0 == TikaServerFile::EnvVarJar(server_jar->Text_0),
            server_jar is NotUnicode ==> r is Err && r->Err_0.kind is Config,
            server_jar is Unset && system_executable is Some ==> r is Ok
                && r->Ok_0 == TikaServerFile::PathExecutable(system_executable->0),
            server_jar is Unset && system_executable is None ==> r is Err && r->Err_0.kind is Config,
    {
        match server_jar {
            EnvVar::Text(path) => Ok(TikaServerFile::EnvVarJar(path.clone())),
            EnvVar::NotUnicode => Err(Error::config("TIKA_SERVER_JAR env var found but did not contain valid unicode")),
            EnvVar::Unset => match system_executable {
                Some(path) => Ok(TikaServerFile::PathExecutable(path)),
                None => Err(Error::config("Could not find system wide tika-rest-server executable")),
            },
        }
    }

    /// The server file that the environment points to: the jar it names, else the
    /// `tika-rest-server` executable on the search path.
    pub fn from_env(server_jar: &EnvVar) -> (r: Result<TikaServerFile>)
        ensures
            server_jar is Text ==> r is Ok && r->Ok_0 == TikaServerFile::EnvVarJar(server_jar->Text_0),
            server_jar is NotUnicode ==> r is Err && r->Err_0.kind is Config,
            server_jar is Unset ==> (r is Ok ==> r->Ok_0 is PathExecutable),
            r is Err ==> r->Err_0.kind is Config,
    {
        let found = match server_jar {
            EnvVar::Unset => locate_executable(REST_SERVER_EXECUTABLE),
            _ => None,
        };
        TikaServerFile::from_sources(server_jar, found)
    }

    /// How to spawn a server from this file, bound to `addr`: an executable is run
    /// directly, a jar by the Java runtime with a class path.
    pub fn command(&self, addr: &SocketAddress) -> (c: Invocation)
        ensures
            self is PathExecutable ==> c.program == Program::Executable(self->PathExecutable_0),
            !(self is PathExecutable) ==> c.program is Runtime,
            c.args@.len() == self.args_spec(*addr).len(),
            forall|i: int| 0 <= i < c.args@.len() ==> (#[trigger] c.args@[i])@ == self.args_spec(*addr)[i],
    {
        let mut args: Vec<String> = Vec::new();
        let program = match self {
            TikaServerFile::PathExecutable(path) => Program::Executable(path.clone()),
            TikaServerFile::EnvVarJar(path) | TikaServerFile::Download(path) => {
                args.push(String::from_str("-cp"));
                args.push(path.clone());
                args.push(String::from_str(SERVER_ENTRY_POINT));
                Program::Runtime
            },
        };
        args.push(String::from_str("--host"));
        args.push(addr.ip_text());
        args.push(String::from_str("--port"));
        args.push(addr.port_text());
        Invocation { program, args }
    }
}

/// The URL a server jar of `version` is downloaded from.
pub open spec fn remote_jar_url(version: Seq<char>) -> Seq<char> {
    "http://search.maven.org/remotecontent?filepath=org/apache/tika/tika-server/"@ + version
        + "/tika-server-"@ + version + ".jar"@
}

/// Where a server artifact comes from, in order of precedence.
pub enum Source {
    Environment,
    System,
    Download,
}

/// The source the resolver picks: a jar the environment names, else an executable on the
/// search path, else a download. `None` where the environment's value is not text.
pub open spec fn chosen_source(server_jar: EnvVar, system_found: bool) -> Option<Source> {
    match server_jar {
        EnvVar::NotUnicode => None,
        EnvVar::Text(_) => Some(Source::Environment),
        EnvVar::Unset => if system_found { Some(Source::System) } else { Some(Source::Download) },
    }
}

/// The source a resolved location came from.
pub open spec fn source_of(l: TikaServerFileLocation) -> Source {
    match l {
        TikaServerFileLocation::File(TikaServerFile::EnvVarJar(_)) => Source::Environment,
        TikaServerFileLocation::File(TikaServerFile::PathExecutable(_)) => Source::System,
        _ => Source::Download,
    }
}

/// A location as its source and its path or URL.
pub open spec fn location_view(l: TikaServerFileLocation) -> (Source, Seq<char>) {
    match l {
        TikaServerFileLocation::File(f) => (source_of(l), f.location_spec()),
        TikaServerFileLocation::Remote(url) => (Source::Download, url@),
    }
}

/// The text of an optional string.
pub open spec fn text_of(s: Option<String>) -> Option<Seq<char>> {
    match s {
        Some(t) => Some(t@),
        None => None,
    }
}

/// The location the resolver gives, as its source and its path or URL: a function of the
/// environment's jar variable, the executable found on the search path, and the version.
/// `None` where the jar variable is not text.
pub open spec fn resolution(
    server_jar: EnvVar,
    system_executable: Option<Seq<char>>,
    version: Seq<char>,
) -> Option<(Source, Seq<char>)> {
    match server_jar {
        EnvVar::NotUnicode => None,
        EnvVar::Text(path) => Some((Source::Environment, path@)),
        EnvVar::Unset => match system_executable {
            Some(exe) => Some((Source::System, exe)),
            None => Some((Source::Download, remote_jar_url(version))),
        },
    }
}

impl TikaServerFileLocation {
    /// Resolves where the server artifact is, from the jar the environment names, the
    /// executable found on the search path, and the version to download otherwise.
    pub fn resolve(server_jar: &EnvVar, system_executable: Option<String>, version: &str) -> (r: Result<TikaServerFileLocation>)
        ensures
            chosen_source(*server_jar, system_executable is Some) is None <==> r is Err,
            r is Err ==> r->Err_0.kind is Config,
            r is Ok ==> source_of(r->Ok_0) == chosen_source(*server_jar, system_executable is Some)->0,
            r is Ok ==> location_view(r->Ok_0) == resolution(*server_jar, text_of(system_executable), version@)->0,
            server_jar is Text ==> r is Ok
                && r->Ok_0 == TikaServerFileLocation::File(TikaServerFile::EnvVarJar(server_jar->Text_0)),
            server_jar is Unset && system_executable is Some ==> r is Ok
                && r->Ok_0 == TikaServerFileLocation::File(TikaServerFile::PathExecutable(system_executable->0)),
            server_jar is Unset && system_executable is None ==> r is Ok
                && r->Ok_0 is Remote && r->Ok_0->Remote_0@ == remote_jar_url(version@),
    {
        match server_jar {
            EnvVar::NotUnicode => Err(Error::config("TIKA_SERVER_JAR env var found but did not contain valid unicode")),
            _ => match TikaServerFile::from_sources(server_jar, system_executable) {
                Ok(file) => Ok(TikaServerFileLocation::File(file)),
                Err(_) => Ok(TikaServerFileLocation::Remote(TikaConfig::remote_server_jar(version))),
            },
        }
    }

    /// Resolves where the server artifact is from the environment and the search path.
    pub fn from_env(server_jar: &EnvVar, version: &str) -> (r: Result<TikaServerFileLocation>)
        ensures
            r is Err <==> server_jar is NotUnicode,
            r is Err ==> r->Err_0.kind is Config,
            server_jar is Text ==> r is Ok
                && r->Ok_0 == TikaServerFileLocation::File(TikaServerFile::EnvVarJar(server_jar->Text_0)),
            server_jar is Unset ==> r is Ok && (r->Ok_0 is Remote ==> r->Ok_0->Remote_0@ == remote_jar_url(version@))
                && (r->Ok_0 is File ==> r->Ok_0->File_0 is PathExecutable),
    {
        let found = match server_jar {
            EnvVar::Unset => locate_executable(REST_SERVER_EXECUTABLE),
            _ => None,
        };
        TikaServerFileLocation::resolve(server_jar, found, version)
    }
}

/// The resolver's precedence: a jar named by the environment wins over an executable on
/// the search path, which wins over a download; the choice depends on these two
/// conditions alone.
pub proof fn lemma_resolution_precedence(
    server_jar: EnvVar,
    system_found: bool,
    system_executable: Option<Seq<char>>,
    version: Seq<char>,
)
    requires
        system_found == (system_executable is Some),
    ensures
        resolution(server_jar, system_executable, version) matches Some((source, _))
            ==> source == chosen_source(server_jar, system_found)->0,
        resolution(server_jar, system_executable, version) is None <==> chosen_source(server_jar, system_found) is None,
        server_jar is Text ==> chosen_source(server_jar, system_found) == Some(Source::Environment),
        server_jar is Unset && system_found ==> chosen_source(server_jar, system_found) == Some(Source::System),
        server_jar is Unset && !system_found ==> chosen_source(server_jar, system_found) == Some(Source::Download),
        server_jar is NotUnicode ==> chosen_source(server_jar, system_found) is None,
{
}

/// All configuration of a client.
#[derive(Clone, Debug)]
pub struct TikaConfig {
    /// the version of the server
    pub tika_version: String,
    /// the directory for installation and files
    pub tika_path: String,
    /// where the server artifact is
    pub tika_server_file: TikaServerFileLocation,
    /// whether a server is spawned or already running
    pub tika_mode: TikaMode,
    /// the translator used to translate documents
    pub tika_translator: Translator,
    /// how a spawned server logs
    pub server_verbosity: Verbosity,
}

impl TikaConfig {
    /// The version to download: the configured one, else the default.
    pub fn default_version(configured: Option<String>) -> (v: String)
        ensures
            configured is Some ==> v == configured->0,
            configured is None ==> v@ == DEFAULT_VERSION@,
    {
        match configured {
            Some(v) => v,
            None => String::from_str(DEFAULT_VERSION),
        }
    }

    /// The translator to use: the configured class name, else the default.
    pub fn default_translator(configured: Option<String>) -> (t: Translator)
        ensures
            configured is Some ==> t == Translator::Other(configured->0),
            configured is None ==> t is Lingo24,
    {
        match configured {
            Some(name) => Translator::Other(name),
            None => Translator::Lingo24,
        }
    }

    /// The URL the server jar of `version` is downloaded from.
    pub fn remote_server_jar(version: &str) -> (u: String)
        ensures
            u@ == remote_jar_url(version@),
    {
        String::from_str("http://search.maven.org/remotecontent?filepath=org/apache/tika/tika-server/")
            .concat(version)
            .concat("/tika-server-")
            .concat(version)
            .concat(".jar")
    }

    /// The configuration the environment gives.
    pub fn from_env(env: &Environment) -> (r: Result<TikaConfig>)
        ensures
            r is Ok ==> {
                &&& env.tika_version is Some ==> r->Ok_0.tika_version == env.tika_version->0
                &&& env.tika_version is None ==> r->Ok_0.tika_version@ == DEFAULT_VERSION@
                &&& r->Ok_0.tika_path == env.temp_dir
                &&& r->Ok_0.server_verbosity == Verbosity::Silent
                &&& env.tika_translator is Some ==> r->Ok_0.tika_translator == Translator::Other(env.tika_translator->0)
                &&& env.tika_translator is None ==> r->Ok_0.tika_translator is Lingo24
                &&& env.tika_server_endpoint is None ==> r->Ok_0.tika_mode is ClientServer
            },
            r is Ok ==> {
                &&& env.tika_server_jar is Text ==> r->Ok_0.tika_server_file
                    == TikaServerFileLocation::File(TikaServerFile::EnvVarJar(env.tika_server_jar->Text_0))
                &&& env.tika_server_jar is Unset && r->Ok_0.tika_server_file is Remote
                    ==> r->Ok_0.tika_server_file->Remote_0@ == remote_jar_url(r->Ok_0.tika_version@)
                &&& env.tika_server_endpoint is Some ==> r->Ok_0.tika_mode is ClientOnly
                    && r->Ok_0.tika_mode->ClientOnly_0@ == parsed_url(env.tika_server_endpoint->0@)->0
            },
            env.tika_server_jar is NotUnicode ==> r is Err && r->Err_0.kind is Config,
            r is Ok <==> !(env.tika_server_jar is NotUnicode)
                && (env.tika_server_endpoint is Some ==> parsed_url(env.tika_server_endpoint->0@) is Some),
            r is Err ==> r->Err_0.kind is Config || r->Err_0.kind is Url,
    {
        let tika_version = TikaConfig::default_version(env.tika_version.clone());
        let tika_server_file = TikaServerFileLocation::from_env(&env.tika_server_jar, tika_version.as_str())?;
        let tika_mode = TikaMode::from_env(env.tika_server_endpoint.clone())?;
        Ok(TikaConfig {
            tika_version,
            tika_path: env.temp_dir.clone(),
            tika_server_file,
            tika_mode,
            tika_translator: TikaConfig::default_translator(env.tika_translator.clone()),
            server_verbosity: Verbosity::Silent,
        })
    }
}

/// Whether `p` occurs in `s` at position `i`.
pub open spec fn occurs_at(s: Seq<char>, p: Seq<char>, i: int) -> bool {
    0 <= i && i + p.len() <= s.len() && s.subrange(i, i + p.len()) == p
}

/// Whether `p` occurs in `s`.
pub open spec fn contains(s: Seq<char>, p: Seq<char>) -> bool {
    exists|i: int| occurs_at(s, p, i)
}

/// Whether `pattern` occurs in `text`.
pub fn contains_text(text: &str, pattern: &str) -> (r: bool)
    ensures
        r == contains(text@, pattern@),
{
    let n = text.unicode_len();
    let m = pattern.unicode_len();
    if m > n {
        assert forall|k: int| !occurs_at(text@, pattern@, k) by {}
        return false;
    }
    let mut i: usize = 0;
    while i <= n - m
        invariant
            m <= n,
            n == text@.len(),
            m == pattern@.len(),
            i <= n - m + 1,
            forall|k: int| 0 <= k < i ==> !occurs_at(text@, pattern@, k),
        decreases n - m + 1 - i,
    {
        let mut j: usize = 0;
        let mut same = true;
        while j < m && same
            invariant
                m <= n,
                n == text@.len(),
                m == pattern@.len(),
                i + m <= n,
                j <= m,
                forall|l: int| 0 <= l < j ==> text@[i + l] == pattern@[l],
                !same ==> j < m && text@[i + j] != pattern@[j as int],
            decreases m - j + (if same { 1int } else { 0int }),
        {
            if text.get_char(i + j) != pattern.get_char(j) {
                same = false;
            } else {
                j = j + 1;
            }
        }
        if same {
            assert(text@.subrange(i as int, i + m) =~= pattern@);
            assert(occurs_at(text@, pattern@, i as int));
            return true;
        }
        assert(text@.subrange(i as int, i + m)[j as int] == text@[i + j]);
        i = i + 1;
    }
    assert forall|k: int| !occurs_at(text@, pattern@, k) by {
        if 0 <= k && k + m <= n {
            assert(k < i);
        }
    }
    false
}

/// Builder of a client.
#[derive(Clone, Debug)]
pub struct TikaBuilder {
    /// whether a server is spawned or already running
    pub tika_mode: TikaMode,
    /// the version of the server
    pub tika_version: Option<String>,
    /// the directory for installation and files
    pub tika_path: Option<String>,
    /// where the server artifact is; resolved from the environment where not given
    pub tika_server_file: Option<TikaServerFileLocation>,
    /// the translator used to translate documents
    pub tika_translator: Option<Translator>,
    /// how a spawned server logs
    pub server_verbosity: Verbosity,
}

impl TikaBuilder {
    /// A builder for the mode `tika_mode`, with every other setting left to its default.
    pub fn new(tika_mode: TikaMode) -> (b: TikaBuilder)
        ensures
            b.tika_mode == tika_mode,
            b.tika_version is None,
            b.tika_path is None,
            b.tika_server_file is None,
            b.tika_translator is None,
            b.server_verbosity == Verbosity::Silent,
    {
        TikaBuilder {
            tika_mode,
            tika_version: None,
            tika_path: None,
            tika_server_file: None,
            tika_translator: None,
            server_verbosity: Verbosity::Silent,
        }
    }

    /// A builder for a client of the running server at `server_url`.
    pub fn client_only(server_url: &str) -> (r: Result<TikaBuilder>)
        ensures
            r is Ok <==> usable_url(server_url@),
            r is Ok ==> r->Ok_0.tika_mode is ClientOnly
                && r->Ok_0.tika_mode->ClientOnly_0@ == parsed_url(server_url@)->0
                && r->Ok_0.tika_server_file is None,
            r is Err ==> r->Err_0.kind is Url,
    {
        let mode = TikaMode::client_only(server_url)?;
        Ok(TikaBuilder::new(mode))
    }

    /// A builder for a client that spawns a server at `addr`.
    pub fn with_server(addr: SocketAddress) -> (b: TikaBuilder)
        ensures
            b.tika_mode == TikaMode::ClientServer(addr),
            b.tika_server_file is None,
    {
        TikaBuilder::new(TikaMode::client_server(addr))
    }

    /// The version of the server to download where no jar is configured.
    pub fn version(self, version: &str) -> (b: TikaBuilder)
        ensures
            b.tika_version is Some && b.tika_version->0@ == version@,
            b.tika_mode == self.tika_mode,
            b.tika_path == self.tika_path,
            b.tika_server_file == self.tika_server_file,
            b.tika_translator == self.tika_translator,
            b.server_verbosity == self.server_verbosity,
    {
        TikaBuilder { tika_version: Some(String::from_str(version)), ..self }
    }

    /// The directory where files are stored.
    pub fn path(self, path: &str) -> (b: TikaBuilder)
        ensures
            b.tika_path is Some && b.tika_path->0@ == path@,
            b.tika_mode == self.tika_mode,
            b.tika_version == self.tika_version,
            b.tika_server_file == self.tika_server_file,
            b.tika_translator == self.tika_translator,
            b.server_verbosity == self.server_verbosity,
    {
        TikaBuilder { tika_path: Some(String::from_str(path)), ..self }
    }

    /// The location of the server artifact.
    pub fn server_file(self, server_file: TikaServerFileLocation) -> (b: TikaBuilder)
        ensures
            b.tika_server_file == Some(server_file),
            b.tika_mode == self.tika_mode,
            b.tika_version == self.tika_version,
            b.tika_path == self.tika_path,
            b.tika_translator == self.tika_translator,
            b.server_verbosity == self.server_verbosity,
    {
        TikaBuilder { tika_server_file: Some(server_file), ..self }
    }

    /// The translator the server uses.
    pub fn translator(self, translator: Translator) -> (b: TikaBuilder)
        ensures
            b.tika_translator == Some(translator),
            b.tika_mode == self.tika_mode,
            b.tika_version == self.tika_version,
            b.tika_path == self.tika_path,
            b.tika_server_file == self.tika_server_file,
            b.server_verbosity == self.server_verbosity,
    {
        TikaBuilder { tika_translator: Some(translator), ..self }
    }

    /// How a spawned server logs.
    pub fn server_verbosity(self, server_verbosity: Verbosity) -> (b: TikaBuilder)
        ensures
            b.server_verbosity == server_verbosity,
            b.tika_mode == self.tika_mode,
            b.tika_version == self.tika_version,
            b.tika_path == self.tika_path,
            b.tika_server_file == self.tika_server_file,
            b.tika_translator == self.tika_translator,
    {
        TikaBuilder { server_verbosity, ..self }
    }

    /// The builder that the environment gives.
    pub fn from_env(env: &Environment) -> (r: Result<TikaBuilder>)
        ensures
            r is Ok ==> r->Ok_0.tika_server_file is None && r->Ok_0.tika_version is None
                && r->Ok_0.tika_path is None && r->Ok_0.tika_translator is None
                && r->Ok_0.server_verbosity == Verbosity::Silent,
            env.tika_server_endpoint is None ==> r is Ok && r->Ok_0.tika_mode is ClientServer
                && r->Ok_0.tika_mode->ClientServer_0.ip@ == "127.0.0.1"@
                && r->Ok_0.tika_mode->ClientServer_0.port == 9998,
            env.tika_server_endpoint is Some ==> (r is Ok <==> parsed_url(env.tika_server_endpoint->0@) is Some),
            env.tika_server_endpoint is Some && r is Ok ==> r->Ok_0.tika_mode is ClientOnly
                && r->Ok_0.tika_mode->ClientOnly_0@ == parsed_url(env.tika_server_endpoint->0@)->0,
            r is Err ==> r->Err_0.kind is Url,
    {
        let mode = TikaMode::from_env(env.tika_server_endpoint.clone())?;
        Ok(TikaBuilder::new(mode))
    }

    /// The client this builder describes; settings left open take the environment's
    /// defaults. It has no server running.
    pub fn build(self, env: &Environment) -> (r: Result<TikaClient>)
        ensures
            r is Ok ==> {
                let c = r->Ok_0.config_spec();
                &&& r->Ok_0.state_spec() == ServerState::NoProcess
                &&& c.tika_mode == self.tika_mode
                &&& c.server_verbosity == self.server_verbosity
                &&& self.tika_version is Some ==> c.tika_version == self.tika_version->0
                &&& self.tika_version is None && env.tika_version is Some ==> c.tika_version == env.tika_version->0
                &&& self.tika_version is None && env.tika_version is None ==> c.tika_version@ == DEFAULT_VERSION@
                &&& self.tika_path is Some ==> c.tika_path == self.tika_path->0
                &&& self.tika_path is None ==> c.tika_path == env.temp_dir
                &&& self.tika_server_file is Some ==> c.tika_server_file == self.tika_server_file->0
                &&& self.tika_server_file is None && env.tika_server_jar is Text ==> c.tika_server_file
                    == TikaServerFileLocation::File(TikaServerFile::EnvVarJar(env.tika_server_jar->Text_0))
                &&& self.tika_server_file is None && env.tika_server_jar is Unset ==> {
                    &&& c.tika_server_file is Remote ==> c.tika_server_file->Remote_0@ == remote_jar_url(c.tika_version@)
                    &&& c.tika_server_file is File ==> c.tika_server_file->File_0 is PathExecutable
                }
                &&& self.tika_translator is Some ==> c.tika_translator == self.tika_translator->0
                &&& self.tika_translator is None && env.tika_translator is Some
                    ==> c.tika_translator == Translator::Other(env.tika_translator->0)
                &&& self.tika_translator is None && env.tika_translator is None ==> c.tika_translator is Lingo24
            },
            r is Err <==> self.tika_server_file is None && env.tika_server_jar is NotUnicode,
    {
        let tika_version = match self.tika_version {
            Some(v) => v,
            None => TikaConfig::default_version(env.tika_version.clone()),
        };
        let tika_server_file = match self.tika_server_file {
            Some(f) => f,
            None => TikaServerFileLocation::from_env(&env.tika_server_jar, tika_version.as_str())?,
        };
        let tika_path = match self.tika_path {
            Some(p) => p,
            None => env.temp_dir.clone(),
        };
        let tika_translator = match self.tika_translator {
            Some(t) => t,
            None => TikaConfig::default_translator(env.tika_translator.clone()),
        };
        let config = TikaConfig {
            tika_version,
            tika_path,
            tika_server_file,
            tika_mode: self.tika_mode,
            tika_translator,
            server_verbosity: self.server_verbosity,
        };
        Ok(TikaClient::new(config))
    }
}

/// The life of a managed server.
#[derive(Clone, Copy, Debug, PartialEq, Eq, Structural)]
pub enum ServerState {
    /// no server process
    NoProcess,
    /// a start waits for the server jar to be downloaded
    Fetching,
    /// a start waits for the process to be spawned
    Launching,
    /// the process runs and its log is scanned for the ready banner
    Starting,
    /// the process runs and serves requests
    Ready,
}

/// Whether a process exists in a state.
pub open spec fn has_process(s: ServerState) -> bool {
    s == ServerState::Starting || s == ServerState::Ready
}

/// The next step of a start.
#[derive(Clone, Debug)]
pub enum StartStep {
    /// download the jar at `url` to the file `target`, then report with `download_finished`
    Download { url: String, target: String },
    /// spawn the process with both output streams piped, then report with `spawned`
    Spawn(Invocation),
}

/// What a stop asks for.
#[derive(Clone, Copy, Debug, PartialEq, Eq, Structural)]
pub enum StopStep {
    /// no process runs: nothing to do
    Nothing,
    /// terminate the process and wait for it, then report with `kill_finished`
    Kill,
}

/// What to do with a line of the server's log while it starts.
#[derive(Clone, Copy, Debug, PartialEq, Eq, Structural)]
pub struct LineVerdict {
    /// print the line to the console
    pub echo: bool,
    /// the server is ready: stop scanning
    pub ready: bool,
}

/// The HTTP method of a request.
#[derive(Clone, Copy, Debug, PartialEq, Eq, Structural)]
pub enum Method {
    Get,
    Put,
}

/// A request to send to the server; a `Put` carries the content as its body.
#[derive(Clone, Debug)]
pub struct HttpRequest {
    pub method: Method,
    pub url: String,
    /// the value of the `Accept` header
    pub accept: String,
}

/// The state a stop leaves.
pub open spec fn stop_state(s: ServerState) -> ServerState {
    ServerState::NoProcess
}

/// What a stop asks for in a state.
pub open spec fn stop_step(s: ServerState) -> StopStep {
    if has_process(s) { StopStep::Kill } else { StopStep::Nothing }
}

/// A stop never fails when no process runs, so a second stop in a row asks for nothing and
/// succeeds; either stop leaves no process.
pub proof fn lemma_stop_idempotent(s: ServerState)
    ensures
        stop_state(s) == ServerState::NoProcess,
        !has_process(stop_state(s)),
        stop_step(stop_state(s)) == StopStep::Nothing,
        stop_state(stop_state(s)) == ServerState::NoProcess,
{
}

/// The file a downloaded server jar is stored in.
pub open spec fn download_target(config: TikaConfig) -> Seq<char> {
    joined_path(config.tika_path@, DOWNLOADED_JAR@)
}

/// What a start from `state` with `config` gives and leaves: a configuration error, with the
/// state unchanged, for a client of a remote server or one that already manages a server;
/// else, where the jar is still remote, a download of the configured version's jar, or else
/// the process to spawn.
pub open spec fn start_outcome(
    config: TikaConfig,
    state: ServerState,
    r: Result<StartStep>,
    next: ServerState,
) -> bool {
    if config.tika_mode is ClientOnly || state != ServerState::NoProcess {
        r is Err && r->Err_0.kind is Config && next == state
    } else {
        &&& r is Ok
        &&& match config.tika_server_file {
            TikaServerFileLocation::Remote(_) => {
                &&& next == ServerState::Fetching
                &&& r->Ok_0 is Download
                &&& r->Ok_0->Download_url@ == remote_jar_url(config.tika_version@)
                &&& r->Ok_0->Download_target@ == download_target(config)
            },
            TikaServerFileLocation::File(file) => {
                &&& next == ServerState::Launching
                &&& r->Ok_0 is Spawn
                &&& r->Ok_0->Spawn_0.args@.len() == file.args_spec(config.tika_mode->ClientServer_0).len()
                &&& forall|i: int| 0 <= i < r->Ok_0->Spawn_0.args@.len() ==>
                    (#[trigger] r->Ok_0->Spawn_0.args@[i])@ == file.args_spec(config.tika_mode->ClientServer_0)[i]
                &&& (file is PathExecutable <==> r->Ok_0->Spawn_0.program is Executable)
            },
        }
    }
}

/// The configuration with the mode moved to `addr`, where one is given.
pub open spec fn relocated(config: TikaConfig, addr: Option<SocketAddress>) -> TikaConfig {
    match addr {
        Some(a) => TikaConfig { tika_mode: TikaMode::ClientServer(a), ..config },
        None => config,
    }
}

/// The URL of `path` joined onto the endpoint of a mode; `None` where there is no endpoint
/// or the two do not join.
pub open spec fn endpoint_join(mode: TikaMode, path: Seq<char>) -> Option<Seq<char>> {
    match mode.endpoint_spec() {
        Some(base) => joined_url(base, path),
        None => None,
    }
}

/// The client of a server: its configuration and the state of the server it manages.
#[derive(Debug)]
pub struct TikaClient {
    config: TikaConfig,
    state: ServerState,
}

impl TikaClient {
    #[verifier::type_invariant]
    spec fn remote_has_no_process(self) -> bool {
        self.config.tika_mode is ClientOnly ==> self.state == ServerState::NoProcess
    }

    pub closed spec fn config_spec(self) -> TikaConfig {
        self.config
    }

    pub closed spec fn state_spec(self) -> ServerState {
        self.state
    }

    /// A client with `config` and no server.
    pub fn new(config: TikaConfig) -> (c: TikaClient)
        ensures
            c.config_spec() == config,
            c.state_spec() == ServerState::NoProcess,
    {
        TikaClient { config, state: ServerState::NoProcess }
    }

    pub fn config(&self) -> (c: &TikaConfig)
        ensures
            *c == self.config_spec(),
    {
        &self.config
    }

    pub fn state(&self) -> (s: ServerState)
        ensures
            s == self.state_spec(),
    {
        self.state
    }

    /// Whether a server process runs.
    pub fn is_server_live(&self) -> (r: bool)
        ensures
            r == has_process(self.state_spec()),
            self.config_spec().tika_mode is ClientOnly ==> !r,
    {
        proof {
            use_type_invariant(self);
        }
        match self.state {
            ServerState::Starting | ServerState::Ready => true,
            _ => false,
        }
    }

    /// The URL of the server; a URL error where the local address does not make a URL.
    pub fn server_endpoint(&self) -> (r: Result<String>)
        ensures
            r is Ok <==> self.config_spec().tika_mode.endpoint_spec() is Some,
            r is Ok ==> r->Ok_0@ == self.config_spec().tika_mode.endpoint_spec()->0,
            r is Err ==> r->Err_0.kind is Url,
    {
        self.config.tika_mode.server_endpoint()
    }

    /// Starts a local server: the first step, a download of the configured version's jar
    /// where the jar is still remote, else the process to spawn. Fails with a configuration error for a client of a remote
    /// server, and where a server is already managed.
    pub fn start_server(&mut self) -> (r: Result<StartStep>)
        ensures
            final(self).config_spec() == old(self).config_spec(),
            start_outcome(old(self).config_spec(), old(self).state_spec(), r, final(self).state_spec()),
    {
        match &self.config.tika_mode {
            TikaMode::ClientOnly(_) => Err(Error::config(
                "Client is configured as `ClientOnly` and can't spawn a server instance,",
            )),
            TikaMode::ClientServer(addr) => {
                if self.state != ServerState::NoProcess {
                    return Err(Error::config("A server instance is already managed by this client"));
                }
                match &self.config.tika_server_file {
                    TikaServerFileLocation::Remote(_) => {
                        let target = join_path(self.config.tika_path.as_str(), DOWNLOADED_JAR);
                        let url = TikaConfig::remote_server_jar(self.config.tika_version.as_str());
                        let step = StartStep::Download { url, target };
                        self.state = ServerState::Fetching;
                        Ok(step)
                    },
                    TikaServerFileLocation::File(file) => {
                        let invocation = file.command(addr);
                        self.state = ServerState::Launching;
                        Ok(StartStep::Spawn(invocation))
                    },
                }
            },
        }
    }

    /// Reports the download a start asked for: the number of bytes written, or the failure.
    /// After a download the artifact is the downloaded jar, and the next step is to spawn it.
    pub fn download_finished(&mut self, outcome: Result<u64>) -> (r: Result<Invocation>)
        ensures
            old(self).state_spec() != ServerState::Fetching ==> r is Err && r->Err_0.kind is Config
                && *final(self) == *old(self),
            old(self).state_spec() == ServerState::Fetching && outcome is Err ==> r is Err && r->Err_0 == outcome->Err_0
                && final(self).state_spec() == ServerState::NoProcess
                && final(self).config_spec() == old(self).config_spec(),
            old(self).state_spec() == ServerState::Fetching && outcome is Ok ==> {
                &&& r is Ok
                &&& final(self).state_spec() == ServerState::Launching
                &&& final(self).config_spec().tika_server_file is File
                &&& final(self).config_spec().tika_server_file->File_0 is Download
                &&& final(self).config_spec().tika_server_file->File_0->Download_0@ == download_target(old(self).config_spec())
                &&& final(self).config_spec() == (TikaConfig {
                    tika_server_file: final(self).config_spec().tika_server_file,
                    ..old(self).config_spec()
                })
                &&& r->Ok_0.program is Runtime
                &&& r->Ok_0.args@.len() == final(self).config_spec().tika_server_file->File_0.args_spec(
                    old(self).config_spec().tika_mode->ClientServer_0).len()
                &&& forall|i: int| 0 <= i < r->Ok_0.args@.len() ==>
                    (#[trigger] r->Ok_0.args@[i])@ == final(self).config_spec().tika_server_file->File_0.args_spec(
                        old(self).config_spec().tika_mode->ClientServer_0)[i]
            },
    {
        proof {
            use_type_invariant(&*self);
        }
        if self.state != ServerState::Fetching {
            return Err(Error::config("No download of a server jar was asked for"));
        }
        match outcome {
            Err(e) => {
                self.state = ServerState::NoProcess;
                Err(e)
            },
            Ok(_written) => {
                let target = join_path(self.config.tika_path.as_str(), DOWNLOADED_JAR);
                let file = TikaServerFile::Download(target);
                match &self.config.tika_mode {
                    TikaMode::ClientServer(addr) => {
                        let invocation = file.command(addr);
                        self.config.tika_server_file = TikaServerFileLocation::File(file);
                        self.state = ServerState::Launching;
                        Ok(invocation)
                    },
                    TikaMode::ClientOnly(_) => Err(Error::config("A client of a remote server downloads no jar")),
                }
            },
        }
    }

    /// Reports the spawn a start asked for. After a spawn the server's error stream is
    /// scanned line by line with `scan_line`.
    pub fn spawned(&mut self, outcome: Result<()>) -> (r: Result<()>)
        ensures
            final(self).config_spec() == old(self).config_spec(),
            old(self).state_spec() != ServerState::Launching ==> r is Err && r->Err_0.kind is Config
                && final(self).state_spec() == old(self).state_spec(),
            old(self).state_spec() == ServerState::Launching ==> r == outcome && final(self).state_spec() == (
                if outcome is Ok { ServerState::Starting } else { ServerState::NoProcess }),
    {
        proof {
            use_type_invariant(&*self);
        }
        if self.state != ServerState::Launching {
            return Err(Error::config("No server process was to be spawned"));
        }
        if outcome.is_ok() {
            self.state = ServerState::Starting;
        } else {
            self.state = ServerState::NoProcess;
        }
        outcome
    }

    /// Scans a line of a starting server's error stream: the server is ready once a line
    /// holds the ready banner. While it starts, a verbose client echoes each line.
    pub fn scan_line(&mut self, line: &str) -> (v: LineVerdict)
        ensures
            final(self).config_spec() == old(self).config_spec(),
            old(self).state_spec() == ServerState::Starting ==> {
                &&& v.ready == contains(line@, READY_BANNER@)
                &&& v.echo == (old(self).config_spec().server_verbosity == Verbosity::Verbose)
                &&& final(self).state_spec() == (if v.ready { ServerState::Ready } else { ServerState::Starting })
            },
            old(self).state_spec() != ServerState::Starting ==> !v.ready && !v.echo
                && final(self).state_spec() == old(self).state_spec(),
    {
        proof {
            use_type_invariant(&*self);
        }
        if self.state != ServerState::Starting {
            return LineVerdict { echo: false, ready: false };
        }
        let echo = self.config.server_verbosity == Verbosity::Verbose;
        let ready = contains_text(line, READY_BANNER);
        if ready {
            self.state = ServerState::Ready;
        }
        LineVerdict { echo, ready }
    }

    /// Reports that a starting server's error stream ended before the ready banner: the
    /// process exited, and the start fails with a network error.
    pub fn stream_closed(&mut self) -> (e: Error)
        ensures
            e.kind is Network,
            final(self).config_spec() == old(self).config_spec(),
            old(self).state_spec() == ServerState::Starting ==> final(self).state_spec() == ServerState::NoProcess,
            old(self).state_spec() != ServerState::Starting ==> final(self).state_spec() == old(self).state_spec(),
    {
        if self.state == ServerState::Starting {
            self.state = ServerState::NoProcess;
        }
        Error::network("The server exited before it was ready to serve requests")
    }

    /// Reports a failure to read a starting server's error stream: the start fails with that
    /// error and the process is to be terminated.
    pub fn read_failed(&mut self, error: Error) -> (r: (StopStep, Error))
        ensures
            final(self).config_spec() == old(self).config_spec(),
            r.1 == error,
            old(self).state_spec() == ServerState::Starting ==> r.0 == StopStep::Kill
                && final(self).state_spec() == ServerState::NoProcess,
            old(self).state_spec() != ServerState::Starting ==> r.0 == StopStep::Nothing
                && final(self).state_spec() == old(self).state_spec(),
    {
        if self.state == ServerState::Starting {
            self.state = ServerState::NoProcess;
            (StopStep::Kill, error)
        } else {
            (StopStep::Nothing, error)
        }
    }

    /// Whether the server's output streams go to the console once it is ready.
    pub fn releases_streams(&self) -> (r: bool)
        ensures
            r == (self.config_spec().server_verbosity == Verbosity::Verbose),
    {
        self.config.server_verbosity == Verbosity::Verbose
    }

    /// Shuts down the managed server: no process is left, and the running one, if any, is to
    /// be terminated.
    pub fn stop_server(&mut self) -> (r: StopStep)
        ensures
            final(self).config_spec() == old(self).config_spec(),
            final(self).state_spec() == stop_state(old(self).state_spec()),
            r == stop_step(old(self).state_spec()),
    {
        let step = if self.is_server_live() { StopStep::Kill } else { StopStep::Nothing };
        self.state = ServerState::NoProcess;
        step
    }

    /// The result of a stop, from the outcome of terminating the process: a network error
    /// that names the endpoint where it failed.
    pub fn kill_finished(&self, outcome: core::result::Result<(), String>) -> (r: Result<()>)
        ensures
            outcome is Ok <==> r is Ok,
            r is Err ==> r->Err_0.kind is Network && r->Err_0.kind->Network_msg@
                == "Failed to shutdown the running tika server instance on "@
                + self.config_spec().tika_mode.label_spec() + ": "@ + outcome->Err_0@,
    {
        match outcome {
            Ok(()) => Ok(()),
            Err(msg) => {
                let text = String::from_str("Failed to shutdown the running tika server instance on ")
                    .concat(self.config.tika_mode.endpoint_label().as_str())
                    .concat(": ")
                    .concat(msg.as_str());
                Err(Error::network(text.as_str()))
            },
        }
    }

    /// Starts the server again after a stop, at a new local address where one is given. The
    /// server must be stopped first: where one is still managed, a configuration error, and
    /// nothing changes.
    pub fn restart_server(&mut self, addr: Option<SocketAddress>) -> (r: Result<StartStep>)
        ensures
            old(self).state_spec() != ServerState::NoProcess ==> r is Err && r->Err_0.kind is Config
                && *final(self) == *old(self),
            old(self).state_spec() == ServerState::NoProcess ==> {
                &&& final(self).config_spec() == relocated(old(self).config_spec(), addr)
                &&& start_outcome(
                    relocated(old(self).config_spec(), addr),
                    ServerState::NoProcess,
                    r,
                    final(self).state_spec(),
                )
            },
    {
        if self.state != ServerState::NoProcess {
            return Err(Error::config("The managed server must be stopped before it is restarted"));
        }
        if let Some(addr) = addr {
            self.config.tika_mode = TikaMode::ClientServer(addr);
        }
        self.start_server()
    }
}

/// The path of a translation: `translate/all/<translator class>/[<source>/]<destination>`.
pub open spec fn translate_path_spec(translator: Translator, src_lang: Option<Language>, dest_lang: Language) -> Seq<char> {
    "translate/all/"@ + class_name(translator) + "/"@ + (match src_lang {
        Some(l) => l.0@ + "/"@,
        None => Seq::empty(),
    }) + dest_lang.0@
}

/// The path of a translation of content from `src_lang`, or from a detected language,
/// into `dest_lang` by `translator`.
pub fn translate_path(translator: &Translator, src_lang: &Option<Language>, dest_lang: &Language) -> (s: String)
    ensures
        s@ == translate_path_spec(*translator, *src_lang, *dest_lang),
{
    let mut path = String::from_str("translate/all/").concat(translator.as_str()).concat("/");
    if let Some(src) = src_lang {
        path = path.concat(src.0.as_str()).concat("/");
    }
    path.concat(dest_lang.0.as_str())
}

/// The language a detection answered: a network error where the answer is empty.
pub fn language_from_response(text: String) -> (r: Result<Language>)
    ensures
        text@.len() == 0 ==> r is Err && r->Err_0.kind is Network,
        text@.len() > 0 ==> r is Ok && r->Ok_0.0 == text,
{
    if text.as_str().is_empty() {
        Err(Error::network("Failed to detect language. Got empty response."))
    } else {
        Ok(Language(text))
    }
}

/// The mime type a detection answered, known by its identifier alone.
pub fn mime_from_response(text: String) -> (m: MimeType)
    ensures
        m.identifier == text,
        m.supertype is None,
        m.alias@.len() == 0,
        m.parser is None,
{
    MimeType::new(text)
}

impl TikaClient {
    /// The configured endpoint joined with `path`; a URL error where they do not join.
    pub fn endpoint_url(&self, path: &str) -> (r: Result<String>)
        ensures
            r is Ok <==> endpoint_join(self.config_spec().tika_mode, path@) is Some,
            r is Ok ==> r->Ok_0@ == endpoint_join(self.config_spec().tika_mode, path@)->0,
            r is Err ==> r->Err_0.kind is Url,
    {
        let base = self.server_endpoint()?;
        match join_url(base.as_str(), path) {
            Ok(url) => Ok(url),
            Err(msg) => Err(Error::url(msg.as_str())),
        }
    }

    /// A request of `path` with the response as JSON.
    pub fn json_request(&self, path: &str) -> (r: Result<HttpRequest>)
        ensures
            r is Ok <==> endpoint_join(self.config_spec().tika_mode, path@) is Some,
            r is Ok ==> r->Ok_0.method == Method::Get
                && r->Ok_0.url@ == endpoint_join(self.config_spec().tika_mode, path@)->0
                && r->Ok_0.accept@ == "application/json"@,
            r is Err ==> r->Err_0.kind is Url,
    {
        let url = self.endpoint_url(path)?;
        Ok(HttpRequest { method: Method::Get, url, accept: String::from_str("application/json") })
    }

    /// A request of a configuration listing.
    pub fn config_request(&self, config: Config) -> (r: Result<HttpRequest>)
        ensures
            r is Ok <==> endpoint_join(self.config_spec().tika_mode, config.path_spec()) is Some,
            r is Ok ==> r->Ok_0.method == Method::Get
                && r->Ok_0.url@ == endpoint_join(self.config_spec().tika_mode, config.path_spec())->0
                && r->Ok_0.accept@ == "application/json"@,
            r is Err ==> r->Err_0.kind is Url,
    {
        self.json_request(config.path())
    }

    /// A request to put content to `path`, with the response as plain text.
    fn put_text_request(&self, path: &str) -> (r: Result<HttpRequest>)
        ensures
            r is Ok <==> endpoint_join(self.config_spec().tika_mode, path@) is Some,
            r is Ok ==> r->Ok_0.method == Method::Put
                && r->Ok_0.url@ == endpoint_join(self.config_spec().tika_mode, path@)->0
                && r->Ok_0.accept@ == "text/plain"@,
            r is Err ==> r->Err_0.kind is Url,
    {
        let url = self.endpoint_url(path)?;
        Ok(HttpRequest { method: Method::Put, url, accept: String::from_str("text/plain") })
    }

    /// A request to translate the content it carries; the configured translator serves
    /// where none is given.
    pub fn translate_request(
        &self,
        src_lang: &Option<Language>,
        dest_lang: &Language,
        translator: Option<&Translator>,
    ) -> (r: Result<HttpRequest>)
        ensures
            r is Ok <==> endpoint_join(self.config_spec().tika_mode, translate_path_spec(
                    if translator is Some { *translator->0 } else { self.config_spec().tika_translator },
                    *src_lang,
                    *dest_lang,
                )) is Some,
            r is Ok ==> r->Ok_0.method == Method::Put
                && r->Ok_0.url@ == endpoint_join(self.config_spec().tika_mode, translate_path_spec(
                    if translator is Some { *translator->0 } else { self.config_spec().tika_translator },
                    *src_lang,
                    *dest_lang,
                ))->0
                && r->Ok_0.accept@ == "text/plain"@,
            r is Err ==> r->Err_0.kind is Url,
    {
        let chosen = match translator {
            Some(t) => t,
            None => &self.config.tika_translator,
        };
        let path = translate_path(chosen, src_lang, dest_lang);
        self.put_text_request(path.as_str())
    }

    /// A request to detect the mime type of the content it carries.
    pub fn detect_mime_request(&self) -> (r: Result<HttpRequest>)
        ensures
            r is Ok <==> endpoint_join(self.config_spec().tika_mode, "detect/stream"@) is Some,
            r is Ok ==> r->Ok_0.method == Method::Put
                && r->Ok_0.url@ == endpoint_join(self.config_spec().tika_mode, "detect/stream"@)->0
                && r->Ok_0.accept@ == "text/plain"@,
            r is Err ==> r->Err_0.kind is Url,
    {
        self.put_text_request("detect/stream")
    }

    /// A request to detect the language of the content it carries.
    pub fn detect_language_request(&self) -> (r: Result<HttpRequest>)
        ensures
            r is Ok <==> endpoint_join(self.config_spec().tika_mode, "language/stream"@) is Some,
            r is Ok ==> r->Ok_0.method == Method::Put
                && r->Ok_0.url@ == endpoint_join(self.config_spec().tika_mode, "language/stream"@)->0
                && r->Ok_0.accept@ == "text/plain"@,
            r is Err ==> r->Err_0.kind is Url,
    {
        self.put_text_request("language/stream")
    }
}

} // verus!
