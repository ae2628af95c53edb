use bollard::docker::{ClientType, ClientVersion};
use bollard::errors::UriError;
use bollard::uri::{byte_len, decimal, has_room, Uri, MAX_URL_LEN};

const VERSION: ClientVersion = ClientVersion {
    major_version: 1,
    minor_version: 40,
};

#[test]
fn schemes_of_the_transports() {
    assert_eq!(Uri::socket_scheme(&ClientType::Http), "http");
    assert_eq!(Uri::socket_scheme(&ClientType::SSL), "https");
    assert_eq!(Uri::socket_scheme(&ClientType::Unix), "unix");
    assert_eq!(Uri::socket_scheme(&ClientType::NamedPipe), "net.pipe");
}

#[test]
fn tcp_host_is_the_socket_itself() {
    assert_eq!(
        Uri::socket_host("localhost:2375", &ClientType::Http),
        "localhost:2375"
    );
    assert_eq!(
        Uri::socket_host("docker.example:2376", &ClientType::SSL),
        "docker.example:2376"
    );
}

#[test]
fn socket_path_is_written_in_hexadecimal() {
    assert_eq!(
        Uri::socket_host("/var/run/docker.sock", &ClientType::Unix),
        "2f7661722f72756e2f646f636b65722e736f636b"
    );
    assert_eq!(
        Uri::socket_host("\\\\.\\pipe\\docker_engine", &ClientType::NamedPipe),
        "5c5c2e5c706970655c646f636b65725f656e67696e65"
    );
    assert_eq!(Uri::socket_host("", &ClientType::Unix), "");
    assert_eq!(Uri::socket_host("\u{e9}\n", &ClientType::Unix), "c3a90a");
}

#[test]
fn decimal_writes_numbers_without_padding() {
    assert_eq!(decimal(0), "0");
    assert_eq!(decimal(7), "7");
    assert_eq!(decimal(10), "10");
    assert_eq!(decimal(40), "40");
    assert_eq!(decimal(1234567890), "1234567890");
    assert_eq!(decimal(usize::MAX), usize::MAX.to_string());
}

#[test]
fn address_over_tcp_without_a_query() {
    let uri = Uri::parse(
        "localhost:2375",
        &ClientType::Http,
        "/containers/json",
        None,
        &VERSION,
    )
    .unwrap();
    assert_eq!(uri.as_str(), "http://localhost:2375/containers/json");
}

#[test]
fn address_over_tcp_with_a_relative_path() {
    let uri = Uri::parse("localhost:2375", &ClientType::Http, "", None, &VERSION).unwrap();
    assert_eq!(uri.as_str(), "http://localhost:2375/v1.40");
}

#[test]
fn address_with_a_query() {
    let uri = Uri::parse(
        "localhost:2375",
        &ClientType::SSL,
        "/networks/n1",
        Some(serde_urlencoded::to_string(&[("verbose", "true"), ("scope", "a b")])),
        &VERSION,
    )
    .unwrap();
    assert_eq!(
        uri.as_str(),
        "https://localhost:2375/networks/n1?verbose=true&scope=a+b"
    );
}

#[test]
fn address_through_a_unix_socket() {
    let uri = Uri::parse(
        "/var/run/docker.sock",
        &ClientType::Unix,
        "/version",
        None,
        &ClientVersion {
            major_version: 1,
            minor_version: 24,
        },
    )
    .unwrap();
    assert_eq!(
        uri.as_str(),
        "unix://2f7661722f72756e2f646f636b65722e736f636b/version"
    );
}

#[test]
fn query_that_could_not_be_encoded_is_the_error() {
    let refused = serde_urlencoded::to_string(&7u8);
    let message = refused.clone().unwrap_err().to_string();
    assert!(!message.is_empty());
    let result = Uri::parse(
        "localhost:2375",
        &ClientType::Http,
        "/version",
        Some(refused),
        &VERSION,
    );
    match result {
        Err(UriError::URLEncodedError { message: m }) => assert_eq!(m, message),
        Ok(uri) => panic!("{:?}", uri),
    }
}

#[test]
fn try_parse_agrees_with_parse() {
    let uri = Uri::try_parse(
        "localhost:2375",
        &ClientType::Http,
        "/containers/json",
        Some(Ok("all=true".to_string())),
        &VERSION,
    )
    .unwrap()
    .unwrap();
    assert_eq!(uri.as_str(), "http://localhost:2375/containers/json?all=true");
}

#[test]
fn try_parse_refuses_what_is_no_url() {
    assert!(Uri::try_parse("bad host", &ClientType::Http, "/version", None, &VERSION).is_none());
    assert!(Uri::try_parse(
        "localhost:notaport",
        &ClientType::Http,
        "/version",
        Some(Ok("a=b".to_string())),
        &VERSION
    )
    .is_none());
}

#[test]
fn socket_path_reads_the_host_back() {
    assert_eq!(
        Uri::socket_path(Some("2f7661722f72756e2f646f636b65722e736f636b")),
        Some("/var/run/docker.sock".to_string())
    );
    assert_eq!(
        Uri::socket_path(Some("5C5c2E5c70697065")),
        Some("\\\\.\\pipe".to_string())
    );
    assert_eq!(Uri::socket_path(Some("")), Some(String::new()));
    let host = Uri::socket_host("\\\\.\\pipe\\docker_engine", &ClientType::NamedPipe);
    assert_eq!(
        Uri::socket_path(Some(&host)),
        Some("\\\\.\\pipe\\docker_engine".to_string())
    );
}

#[test]
fn socket_path_of_what_is_no_hexadecimal() {
    assert_eq!(Uri::socket_path(None), None);
    assert_eq!(Uri::socket_path(Some("localhost")), None);
    assert_eq!(Uri::socket_path(Some("2f7")), None);
    assert_eq!(Uri::socket_path(Some("2g")), None);
}

#[test]
fn socket_path_replaces_what_is_no_text() {
    assert_eq!(
        Uri::socket_path(Some("61ff62")),
        Some("a\u{fffd}b".to_string())
    );
}

#[test]
fn destination_address_has_scheme_and_host() {
    assert_eq!(
        Uri::socket_path_dest(Some("5c5c2e5c70697065"), &ClientType::NamedPipe),
        "net.pipe://5c5c2e5c70697065"
    );
    assert_eq!(
        Uri::socket_path_dest(None, &ClientType::Unix),
        "unix://UNKNOWN_HOST"
    );
}

#[test]
fn length_of_a_text_in_bytes() {
    assert_eq!(byte_len(""), 0);
    assert_eq!(byte_len("abc"), 3);
    assert_eq!(byte_len("caf\u{e9} \u{20ac}"), 9);
}

#[test]
fn room_for_a_query_in_a_url() {
    assert_eq!(MAX_URL_LEN, 4294967295);
    assert!(has_room(0, 0));
    assert!(has_room(40, 8));
    assert!(has_room(4294967293, 0));
    assert!(!has_room(4294967294, 0));
    assert!(has_room(1, 1431655764));
    assert!(!has_room(2, 1431655764));
    assert!(has_room(0, 1431655764));
    assert!(!has_room(0, 1431655765));
    assert!(!has_room(usize::MAX, 0));
    assert!(!has_room(0, usize::MAX));
    assert!(!has_room(usize::MAX, usize::MAX));
}

#[test]
fn query_is_set_before_the_fragment() {
    let uri = Uri::try_parse(
        "localhost:2375",
        &ClientType::Http,
        "/containers/json#top",
        Some(Ok("all=true".to_string())),
        &VERSION,
    )
    .unwrap()
    .unwrap();
    assert_eq!(
        uri.as_str(),
        "http://localhost:2375/containers/json?all=true#top"
    );
}

#[test]
fn long_query_that_fits_is_set() {
    let query = "k=\u{e9}".repeat(100_000);
    let uri = Uri::try_parse(
        "localhost:2375",
        &ClientType::Http,
        "/events",
        Some(Ok(query)),
        &VERSION,
    )
    .unwrap()
    .unwrap();
    assert_eq!(
        uri.as_str().len(),
        "http://localhost:2375/events?".len() + 100_000 * "k=%C3%A9".len()
    );
    assert!(uri.as_str().ends_with("k=%C3%A9"));
}
