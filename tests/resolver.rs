use rustika::client::{
    EnvVar, Environment, Program, TikaBuilder, TikaConfig, TikaServerFile, TikaServerFileLocation,
};
use rustika::web::translate::Translator;
use rustika::{ErrorKind, SocketAddress, TikaMode};

const JAR_URL: &str =
    "http://search.maven.org/remotecontent?filepath=org/apache/tika/tika-server/1.20/tika-server-1.20.jar";

fn env() -> Environment {
    Environment {
        tika_version: None,
        tika_translator: None,
        tika_server_jar: EnvVar::Unset,
        tika_server_endpoint: None,
        temp_dir: "/tmp".to_string(),
    }
}

fn location_path(l: &TikaServerFileLocation) -> String {
    match l {
        TikaServerFileLocation::File(f) => f.location().clone(),
        TikaServerFileLocation::Remote(u) => u.clone(),
    }
}

#[test]
fn environment_jar_wins_over_system_executable() {
    let jar = EnvVar::Text("/opt/tika/server.jar".to_string());
    let r = TikaServerFileLocation::resolve(&jar, Some("/usr/bin/tika-rest-server".to_string()), "1.20").unwrap();
    assert!(matches!(r, TikaServerFileLocation::File(TikaServerFile::EnvVarJar(_))));
    assert_eq!(location_path(&r), "/opt/tika/server.jar");
}

#[test]
fn environment_jar_is_taken_even_if_missing_on_disk() {
    let jar = EnvVar::Text("/does/not/exist.jar".to_string());
    let r = TikaServerFileLocation::resolve(&jar, None, "1.20").unwrap();
    match r {
        TikaServerFileLocation::File(f) => {
            assert!(matches!(f, TikaServerFile::EnvVarJar(_)));
            assert!(!f.file_exists());
        }
        TikaServerFileLocation::Remote(_) => panic!("expected a file"),
    }
}

#[test]
fn system_executable_wins_over_download() {
    let r = TikaServerFileLocation::resolve(&EnvVar::Unset, Some("/usr/bin/tika-rest-server".to_string()), "1.20").unwrap();
    assert!(matches!(r, TikaServerFileLocation::File(TikaServerFile::PathExecutable(_))));
    assert_eq!(location_path(&r), "/usr/bin/tika-rest-server");
}

#[test]
fn download_is_the_last_resort() {
    let r = TikaServerFileLocation::resolve(&EnvVar::Unset, None, "1.20").unwrap();
    assert!(matches!(r, TikaServerFileLocation::Remote(_)));
    assert_eq!(location_path(&r), JAR_URL);
}

#[test]
fn undecodable_environment_jar_is_a_config_error() {
    for system in [None, Some("/usr/bin/tika-rest-server".to_string())] {
        let r = TikaServerFileLocation::resolve(&EnvVar::NotUnicode, system, "1.20");
        assert!(matches!(r.unwrap_err().kind, ErrorKind::Config { .. }));
    }
    let r = TikaServerFileLocation::from_env(&EnvVar::NotUnicode, "1.20");
    assert!(matches!(r.unwrap_err().kind, ErrorKind::Config { .. }));
}

#[test]
fn resolution_is_the_same_on_the_same_inputs() {
    let jar = EnvVar::Unset;
    let a = TikaServerFileLocation::resolve(&jar, None, "2.9.1").unwrap();
    let b = TikaServerFileLocation::resolve(&jar, None, "2.9.1").unwrap();
    assert_eq!(location_path(&a), location_path(&b));
}

#[test]
fn server_file_from_sources_without_any_is_a_config_error() {
    let r = TikaServerFile::from_sources(&EnvVar::Unset, None);
    assert!(matches!(r.unwrap_err().kind, ErrorKind::Config { .. }));
}

#[test]
fn server_file_from_env_prefers_the_jar() {
    let r = TikaServerFile::from_env(&EnvVar::Text("a.jar".to_string())).unwrap();
    assert!(matches!(r, TikaServerFile::EnvVarJar(_)));
    assert_eq!(r.location(), "a.jar");
}

#[test]
fn remote_server_jar_url() {
    assert_eq!(TikaConfig::remote_server_jar("1.20"), JAR_URL);
    assert_eq!(
        TikaConfig::remote_server_jar("2.0"),
        "http://search.maven.org/remotecontent?filepath=org/apache/tika/tika-server/2.0/tika-server-2.0.jar"
    );
}

#[test]
fn defaults_from_the_environment() {
    assert_eq!(TikaConfig::default_version(None), "1.20");
    assert_eq!(TikaConfig::default_version(Some("1.19".to_string())), "1.19");
    assert!(matches!(TikaConfig::default_translator(None), Translator::Lingo24));
    match TikaConfig::default_translator(Some("x.MyTranslator".to_string())) {
        Translator::Other(s) => assert_eq!(s, "x.MyTranslator"),
        _ => panic!("expected Other"),
    }
}

#[test]
fn config_from_env_uses_its_values() {
    let mut e = env();
    e.tika_version = Some("1.18".to_string());
    e.tika_server_jar = EnvVar::Text("/j.jar".to_string());
    let c = TikaConfig::from_env(&e).unwrap();
    assert_eq!(c.tika_version, "1.18");
    assert_eq!(c.tika_path, "/tmp");
    assert_eq!(location_path(&c.tika_server_file), "/j.jar");
    assert!(matches!(c.tika_mode, TikaMode::ClientServer(_)));
    assert_eq!(c.tika_mode.server_endpoint().unwrap(), "http://127.0.0.1:9998/");
}

#[test]
fn build_takes_builder_values_first() {
    let b = TikaBuilder::with_server(SocketAddress::new("127.0.0.1", false, 9999))
        .version("1.22")
        .path("/var/tika")
        .server_file(TikaServerFileLocation::Remote("http://example.org/s.jar".to_string()))
        .translator(Translator::Google);
    let c = b.build(&env()).unwrap();
    assert_eq!(c.config().tika_version, "1.22");
    assert_eq!(c.config().tika_path, "/var/tika");
    assert_eq!(location_path(&c.config().tika_server_file), "http://example.org/s.jar");
    assert!(matches!(c.config().tika_translator, Translator::Google));
    assert!(!c.is_server_live());
}

#[test]
fn build_without_server_file_and_undecodable_jar_fails() {
    let mut e = env();
    e.tika_server_jar = EnvVar::NotUnicode;
    let r = TikaBuilder::with_server(SocketAddress::localhost(9998)).build(&e);
    assert!(matches!(r.unwrap_err().kind, ErrorKind::Config { .. }));
}

#[test]
fn build_falls_back_to_environment_defaults() {
    let mut e = env();
    e.tika_version = Some("1.21".to_string());
    e.tika_translator = Some("org.example.T".to_string());
    e.tika_server_jar = EnvVar::Text("/e.jar".to_string());
    let c = TikaBuilder::with_server(SocketAddress::localhost(9998)).build(&e).unwrap();
    assert_eq!(c.config().tika_version, "1.21");
    assert_eq!(c.config().tika_path, "/tmp");
    assert_eq!(location_path(&c.config().tika_server_file), "/e.jar");
    assert_eq!(c.config().tika_translator.as_str(), "org.example.T");
}

#[test]
fn jar_command_uses_runtime_and_class_path() {
    let f = TikaServerFile::Download("/tmp/tika-server.jar".to_string());
    let c = f.command(&SocketAddress::new("127.0.0.1", false, 9998));
    assert!(matches!(c.program, Program::Runtime));
    assert_eq!(
        c.args,
        vec!["-cp", "/tmp/tika-server.jar", "org.apache.tika.server.TikaServerCli", "--host", "127.0.0.1", "--port", "9998"]
    );
}

#[test]
fn executable_command_runs_directly() {
    let f = TikaServerFile::PathExecutable("/usr/bin/tika-rest-server".to_string());
    let c = f.command(&SocketAddress::new("::1", true, 80));
    match c.program {
        Program::Executable(p) => assert_eq!(p, "/usr/bin/tika-rest-server"),
        Program::Runtime => panic!("expected an executable"),
    }
    assert_eq!(c.args, vec!["--host", "::1", "--port", "80"]);
}

#[test]
fn builder_from_env_uses_the_endpoint() {
    let mut e = env();
    let b = TikaBuilder::from_env(&e).unwrap();
    assert!(matches!(b.tika_mode, TikaMode::ClientServer(_)));
    e.tika_server_endpoint = Some("http://tika.example:9998".to_string());
    let b = TikaBuilder::from_env(&e).unwrap();
    assert_eq!(b.tika_mode.server_endpoint().unwrap(), "http://tika.example:9998/");
    e.tika_server_endpoint = Some("no url".to_string());
    assert!(matches!(TikaBuilder::from_env(&e).unwrap_err().kind, ErrorKind::Url { .. }));
}

#[test]
fn config_from_env_with_a_bad_endpoint_is_a_url_error() {
    let mut e = env();
    e.tika_server_jar = EnvVar::Text("/j.jar".to_string());
    e.tika_server_endpoint = Some("::not a url::".to_string());
    assert!(matches!(TikaConfig::from_env(&e).unwrap_err().kind, ErrorKind::Url { .. }));
}

#[test]
fn location_from_env_prefers_the_jar() {
    let r = TikaServerFileLocation::from_env(&EnvVar::Text("/x.jar".to_string()), "1.20").unwrap();
    assert!(matches!(r, TikaServerFileLocation::File(TikaServerFile::EnvVarJar(_))));
    assert_eq!(location_path(&r), "/x.jar");
}
