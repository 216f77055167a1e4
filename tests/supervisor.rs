use rustika::client::{
    EnvVar, Environment, Program, ServerState, StartStep, StopStep, TikaBuilder, TikaClient,
    TikaServerFile, TikaServerFileLocation, Verbosity,
};
use rustika::{Error, ErrorKind, SocketAddress};

const BANNER_LINE: &str = "INFO  Started Apache Tika server at http://127.0.0.1:9999/";

fn env() -> Environment {
    Environment {
        tika_version: None,
        tika_translator: None,
        tika_server_jar: EnvVar::Unset,
        tika_server_endpoint: None,
        temp_dir: "/tmp".to_string(),
    }
}

fn managed(file: TikaServerFileLocation, verbosity: Verbosity) -> TikaClient {
    TikaBuilder::with_server(SocketAddress::new("127.0.0.1", false, 9999))
        .path("/tmp/tika")
        .server_file(file)
        .server_verbosity(verbosity)
        .build(&env())
        .unwrap()
}

fn stub() -> TikaServerFileLocation {
    TikaServerFileLocation::File(TikaServerFile::PathExecutable("/bin/stub-server".to_string()))
}

fn started(verbosity: Verbosity) -> TikaClient {
    let mut c = managed(stub(), verbosity);
    let step = c.start_server().unwrap();
    assert!(matches!(step, StartStep::Spawn(_)));
    c.spawned(Ok(())).unwrap();
    c
}

#[test]
fn stub_server_becomes_ready_and_stops() {
    let mut c = managed(stub(), Verbosity::Silent);
    match c.start_server().unwrap() {
        StartStep::Spawn(inv) => {
            match inv.program {
                Program::Executable(p) => assert_eq!(p, "/bin/stub-server"),
                Program::Runtime => panic!("expected the stub itself"),
            }
            assert_eq!(inv.args, vec!["--host", "127.0.0.1", "--port", "9999"]);
        }
        StartStep::Download { .. } => panic!("nothing to download"),
    }
    assert_eq!(c.state(), ServerState::Launching);
    assert!(!c.is_server_live());
    c.spawned(Ok(())).unwrap();
    assert!(c.is_server_live());
    let v = c.scan_line(BANNER_LINE);
    assert!(v.ready);
    assert!(!v.echo);
    assert_eq!(c.state(), ServerState::Ready);
    assert!(!c.releases_streams());
    assert_eq!(c.stop_server(), StopStep::Kill);
    assert!(c.kill_finished(Ok(())).is_ok());
    assert!(!c.is_server_live());
}

#[test]
fn banner_is_matched_as_a_substring() {
    let mut c = started(Verbosity::Silent);
    assert!(!c.scan_line("INFO  Starting the server").ready);
    assert!(!c.scan_line("Started Apache Tika").ready);
    assert_eq!(c.state(), ServerState::Starting);
    assert!(c.scan_line("xx Started Apache Tika server at yy").ready);
    assert_eq!(c.state(), ServerState::Ready);
}

#[test]
fn verbose_server_echoes_and_releases_streams() {
    let mut c = started(Verbosity::Verbose);
    assert!(c.scan_line("some log line").echo);
    assert!(c.scan_line(BANNER_LINE).echo);
    assert!(c.releases_streams());
    assert!(!c.scan_line("after ready").echo);
}

#[test]
fn stream_end_before_banner_is_a_network_error() {
    let mut c = started(Verbosity::Silent);
    assert!(!c.scan_line("INFO  loading").ready);
    let e = c.stream_closed();
    assert!(matches!(e.kind, ErrorKind::Network { .. }));
    assert!(!c.is_server_live());
    assert_eq!(c.state(), ServerState::NoProcess);
}

#[test]
fn read_failure_stops_the_start() {
    let mut c = started(Verbosity::Silent);
    let (step, e) = c.read_failed(Error::io("broken pipe"));
    assert_eq!(step, StopStep::Kill);
    assert!(matches!(e.kind, ErrorKind::IO { .. }));
    assert_eq!(e.message(), "Failed during std::io operation: broken pipe");
    assert!(!c.is_server_live());
}

#[test]
fn stop_twice_never_fails_the_second_time() {
    let mut c = started(Verbosity::Silent);
    c.scan_line(BANNER_LINE);
    assert_eq!(c.stop_server(), StopStep::Kill);
    assert!(!c.is_server_live());
    assert_eq!(c.stop_server(), StopStep::Nothing);
    assert!(!c.is_server_live());
}

#[test]
fn stop_without_a_server_succeeds() {
    let mut c = managed(stub(), Verbosity::Silent);
    assert_eq!(c.stop_server(), StopStep::Nothing);
    assert_eq!(c.state(), ServerState::NoProcess);
}

#[test]
fn failed_kill_is_a_network_error_naming_the_endpoint() {
    let mut c = started(Verbosity::Silent);
    assert_eq!(c.stop_server(), StopStep::Kill);
    let e = c.kill_finished(Err("no such process".to_string())).unwrap_err();
    assert!(matches!(e.kind, ErrorKind::Network { .. }));
    assert_eq!(
        e.message(),
        "Failed to shutdown the running tika server instance on http://127.0.0.1:9999/: no such process"
    );
    assert!(!c.is_server_live());
}

#[test]
fn remote_client_cannot_start_a_server() {
    let mut c = TikaBuilder::client_only("http://localhost:9998").unwrap().build(&env()).unwrap();
    let e = c.start_server().unwrap_err();
    assert!(matches!(e.kind, ErrorKind::Config { .. }));
    assert_eq!(e.message(), "Client is configured as `ClientOnly` and can't spawn a server instance,");
    assert!(!c.is_server_live());
}

#[test]
fn second_start_is_refused() {
    let mut c = started(Verbosity::Silent);
    let e = c.start_server().unwrap_err();
    assert!(matches!(e.kind, ErrorKind::Config { .. }));
    assert!(c.is_server_live());
}

#[test]
fn download_then_spawn_the_jar() {
    let mut c = managed(TikaServerFileLocation::Remote("http://example.org/tika.jar".to_string()), Verbosity::Silent);
    match c.start_server().unwrap() {
        StartStep::Download { url, target } => {
            assert_eq!(
                url,
                "http://search.maven.org/remotecontent?filepath=org/apache/tika/tika-server/1.20/tika-server-1.20.jar"
            );
            assert_eq!(target, "/tmp/tika/tika-server.jar");
        }
        StartStep::Spawn(_) => panic!("expected a download first"),
    }
    assert_eq!(c.state(), ServerState::Fetching);
    let inv = c.download_finished(Ok(1234)).unwrap();
    assert!(matches!(inv.program, Program::Runtime));
    assert_eq!(
        inv.args,
        vec!["-cp", "/tmp/tika/tika-server.jar", "org.apache.tika.server.TikaServerCli", "--host", "127.0.0.1", "--port", "9999"]
    );
    match &c.config().tika_server_file {
        TikaServerFileLocation::File(TikaServerFile::Download(p)) => assert_eq!(p, "/tmp/tika/tika-server.jar"),
        _ => panic!("expected the downloaded jar"),
    }
    assert_eq!(c.state(), ServerState::Launching);
}

#[test]
fn failed_download_leaves_no_process() {
    let mut c = managed(TikaServerFileLocation::Remote("http://example.org/tika.jar".to_string()), Verbosity::Silent);
    c.start_server().unwrap();
    let e = c.download_finished(Err(Error::network("connection refused"))).unwrap_err();
    assert!(matches!(e.kind, ErrorKind::Network { .. }));
    assert_eq!(c.state(), ServerState::NoProcess);
    assert!(matches!(c.config().tika_server_file, TikaServerFileLocation::Remote(_)));
}

#[test]
fn unrequested_download_report_is_refused() {
    let mut c = managed(stub(), Verbosity::Silent);
    assert!(matches!(c.download_finished(Ok(1)).unwrap_err().kind, ErrorKind::Config { .. }));
    assert!(matches!(c.spawned(Ok(())).unwrap_err().kind, ErrorKind::Config { .. }));
}

#[test]
fn failed_spawn_leaves_no_process() {
    let mut c = managed(stub(), Verbosity::Silent);
    c.start_server().unwrap();
    let e = c.spawned(Err(Error::io("not found"))).unwrap_err();
    assert!(matches!(e.kind, ErrorKind::IO { .. }));
    assert_eq!(c.state(), ServerState::NoProcess);
}

#[test]
fn restart_moves_to_a_new_address() {
    let mut c = started(Verbosity::Silent);
    c.scan_line(BANNER_LINE);
    assert_eq!(c.stop_server(), StopStep::Kill);
    let e = c.kill_finished(Err("gone".to_string())).unwrap_err();
    assert!(e.message().contains("http://127.0.0.1:9999/"));
    match c.restart_server(Some(SocketAddress::new("127.0.0.1", false, 9000))).unwrap() {
        StartStep::Spawn(inv) => assert_eq!(inv.args, vec!["--host", "127.0.0.1", "--port", "9000"]),
        StartStep::Download { .. } => panic!("nothing to download"),
    }
    assert_eq!(c.server_endpoint().unwrap(), "http://127.0.0.1:9000/");
    assert_eq!(c.state(), ServerState::Launching);
}

#[test]
fn restart_of_a_running_server_is_refused() {
    let mut c = started(Verbosity::Silent);
    let e = c.restart_server(Some(SocketAddress::new("127.0.0.1", false, 9000))).unwrap_err();
    assert!(matches!(e.kind, ErrorKind::Config { .. }));
    assert_eq!(c.server_endpoint().unwrap(), "http://127.0.0.1:9999/");
    assert!(c.is_server_live());
}

#[test]
fn restart_without_address_keeps_the_endpoint() {
    let mut c = managed(stub(), Verbosity::Silent);
    assert!(matches!(c.restart_server(None).unwrap(), StartStep::Spawn(_)));
    assert_eq!(c.server_endpoint().unwrap(), "http://127.0.0.1:9999/");
}

#[test]
fn remote_client_is_never_live() {
    let mut c = TikaBuilder::client_only("http://localhost:9998").unwrap().build(&env()).unwrap();
    assert!(c.restart_server(None).is_err());
    assert!(!c.is_server_live());
}

#[test]
fn download_follows_the_configured_version() {
    let mut c = TikaBuilder::with_server(SocketAddress::localhost(9998))
        .version("2.9.2")
        .path("/tmp/tika")
        .server_file(TikaServerFileLocation::Remote("http://example.org/other.jar".to_string()))
        .build(&env())
        .unwrap();
    match c.start_server().unwrap() {
        StartStep::Download { url, .. } => assert_eq!(
            url,
            "http://search.maven.org/remotecontent?filepath=org/apache/tika/tika-server/2.9.2/tika-server-2.9.2.jar"
        ),
        StartStep::Spawn(_) => panic!("expected a download first"),
    }
}
