use cotoxy::consul::{ConsulSettings, Endpoint};
use cotoxy::error::{Direction, Error, Side};
use cotoxy::http::{check_status, is_success_status};
use cotoxy::text::u16_to_dec;
use cotoxy::{ProxyServer, ProxyServerBuilder};

#[test]
fn default_settings_query_the_local_agent() {
    let settings = ConsulSettings::new("web");
    let url = settings.build_query_url();
    assert_eq!(url.host, "127.0.0.1");
    assert_eq!(url.port, 8500);
    assert_eq!(url.path, "/v1/catalog/service/web");
    assert_eq!(url.query, None);
    assert_eq!(url.text(), "http://127.0.0.1:8500/v1/catalog/service/web");
    assert_eq!(url.request_target(), "/v1/catalog/service/web");
}

#[test]
fn filters_appear_in_fixed_order() {
    let mut settings = ConsulSettings::new("web");
    settings.near("_agent");
    settings.dc("dc1");
    settings.tag("primary");
    let url = settings.build_query_url();
    assert_eq!(url.query.as_deref(), Some("dc=dc1&tag=primary&near=_agent"));
    assert_eq!(
        url.text(),
        "http://127.0.0.1:8500/v1/catalog/service/web?dc=dc1&tag=primary&near=_agent"
    );
    assert_eq!(
        url.request_target(),
        "/v1/catalog/service/web?dc=dc1&tag=primary&near=_agent"
    );
}

#[test]
fn node_meta_pairs_are_form_encoded() {
    let mut settings = ConsulSettings::new("web");
    settings.add_node_meta("rack", "r 1");
    settings.add_node_meta("zone", "a");
    let url = settings.build_query_url();
    // The key and value are joined by a colon before encoding, so the colon
    // and the space are escaped by the form encoding.
    assert_eq!(
        url.query.as_deref(),
        Some("node_meta=rack%3Ar+1&node_meta=zone%3Aa")
    );
}

#[test]
fn service_name_is_percent_encoded_in_the_path() {
    let settings = ConsulSettings::new("my web");
    let url = settings.build_query_url();
    assert_eq!(url.path, "/v1/catalog/service/my%20web");
}

#[test]
fn custom_agent_address_is_used() {
    let mut settings = ConsulSettings::new("web");
    settings.consul_addr(Endpoint::new("10.1.1.1".to_string(), 8501));
    let url = settings.build_query_url();
    assert_eq!(url.host, "10.1.1.1");
    assert_eq!(url.port, 8501);
    assert_eq!(url.text(), "http://10.1.1.1:8501/v1/catalog/service/web");
}

#[test]
fn decimal_rendering_of_ports() {
    assert_eq!(u16_to_dec(0), "0");
    assert_eq!(u16_to_dec(7), "7");
    assert_eq!(u16_to_dec(80), "80");
    assert_eq!(u16_to_dec(8080), "8080");
    assert_eq!(u16_to_dec(17382), "17382");
    assert_eq!(u16_to_dec(65535), "65535");
}

#[test]
fn only_the_two_hundreds_are_success() {
    assert!(is_success_status(200));
    assert!(is_success_status(204));
    assert!(is_success_status(299));
    assert!(!is_success_status(199));
    assert!(!is_success_status(301));
    assert!(!is_success_status(404));
    assert!(!is_success_status(500));
}

#[test]
fn non_success_status_is_a_directory_error() {
    assert!(check_status(200).is_ok());
    assert_eq!(check_status(503), Err(Error::DirectoryError));
    assert_eq!(check_status(404), Err(Error::DirectoryError));
}

#[test]
fn builder_defaults_match_the_documented_ones() {
    let builder = ProxyServerBuilder::new("web");
    assert_eq!(builder.bind_addr.host, "0.0.0.0");
    assert_eq!(builder.bind_addr.port, 17382);
    assert_eq!(builder.service_port, None);
    assert_eq!(builder.connect_timeout_ms, 1000);
    assert_eq!(builder.consul().service, "web");
    assert_eq!(builder.consul().consul_addr.host, "127.0.0.1");
    assert_eq!(builder.consul().consul_addr.port, 8500);
}

#[test]
fn builder_settings_reach_the_server() {
    let mut builder = ProxyServerBuilder::new("web");
    builder.bind_addr(Endpoint::new("127.0.0.1".to_string(), 9000));
    builder.service_port(443);
    builder.connect_timeout(250);
    builder.consul.dc("dc2");
    let server = builder.finish();
    assert_eq!(server.bind_addr.host, "127.0.0.1");
    assert_eq!(server.bind_addr.port, 9000);
    assert_eq!(server.service_port, Some(443));
    assert_eq!(server.connect_timeout_ms, 250);
    assert_eq!(
        server.consul.query_url().text(),
        "http://127.0.0.1:8500/v1/catalog/service/web?dc=dc2"
    );
}

#[test]
fn server_new_uses_the_default_builder() {
    let server = ProxyServer::new("web");
    assert_eq!(server.consul.query_url().path, "/v1/catalog/service/web");
    assert_eq!(server.consul.query_url().query, None);
    assert_eq!(server.bind_addr.host, "0.0.0.0");
    assert_eq!(server.bind_addr.port, 17382);
    assert_eq!(server.service_port, None);
    assert_eq!(server.connect_timeout_ms, 1000);
    let sel = server.select_server();
    assert_eq!(sel.connect_timeout_ms, 1000);
    assert_eq!(sel.service_port, None);
}

#[test]
fn error_classes_partition_the_taxonomy() {
    let errors = [
        Error::BindError,
        Error::DirectoryError,
        Error::NoAvailableBackend,
        Error::ConnectAttemptError,
        Error::ConnectTimeout,
        Error::RelayError {
            side: Side::Client,
            direction: Direction::ClientToServer,
        },
    ];
    for e in &errors {
        let classes = [
            e.is_fatal_for_process(),
            e.is_terminal_for_session(),
            e.is_recoverable_per_candidate(),
        ];
        let count = classes.iter().filter(|&&c| c).count();
        assert_eq!(count, 1);
    }
    assert!(Error::BindError.is_fatal_for_process());
    assert!(Error::DirectoryError.is_terminal_for_session());
    assert!(Error::NoAvailableBackend.is_terminal_for_session());
    assert!(Error::ConnectTimeout.is_recoverable_per_candidate());
    assert!(Error::ConnectAttemptError.is_recoverable_per_candidate());
}

#[test]
fn error_labels_name_each_class() {
    assert_eq!(Error::BindError.label(), "bind error");
    assert_eq!(Error::DirectoryError.label(), "directory error");
    assert_eq!(Error::NoAvailableBackend.label(), "no available backend");
    assert_eq!(Error::ConnectAttemptError.label(), "connect attempt error");
    assert_eq!(Error::ConnectTimeout.label(), "connect timeout");
    let relay = Error::RelayError {
        side: Side::Server,
        direction: Direction::ServerToClient,
    };
    assert_eq!(relay.label(), "relay error");
}
