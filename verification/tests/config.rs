use front_gateway::config::resolve_client_url;
use front_gateway::config::resolve_port;
use front_gateway::config::resolve_workers;

#[test]
fn non_numeric_port_falls_back_to_default() {
    assert_eq!(resolve_port(Some(b"abc")), 9296);
    assert_eq!(resolve_port(Some(b"")), 9296);
    assert_eq!(resolve_port(Some(b"80a")), 9296);
}

#[test]
fn absent_port_falls_back_to_default() {
    assert_eq!(resolve_port(None), 9296);
}

#[test]
fn numeric_port_is_adopted() {
    assert_eq!(resolve_port(Some(b"8080")), 8080);
    assert_eq!(resolve_port(Some(b"0")), 0);
    assert_eq!(resolve_port(Some(b"65535")), 65535);
}

#[test]
fn oversized_port_falls_back_to_default() {
    assert_eq!(resolve_port(Some(b"65536")), 9296);
    assert_eq!(resolve_port(Some(b"99999999999999999999999")), 9296);
}

#[test]
fn workers_resolve_with_fallback() {
    assert_eq!(resolve_workers(None), 2);
    assert_eq!(resolve_workers(Some(b"four")), 2);
    assert_eq!(resolve_workers(Some(b"8")), 8);
}

#[test]
fn client_url_is_adopted_verbatim_or_defaulted() {
    assert_eq!(
        resolve_client_url(None).base,
        b"http://127.0.0.1:9596".to_vec()
    );
    assert_eq!(
        resolve_client_url(Some(b"http://backend:1234")).base,
        b"http://backend:1234".to_vec()
    );
}
