use front_gateway::config::resolve_client_url;
use front_gateway::dispatch::conclude;
use front_gateway::dispatch::plan;
use front_gateway::dispatch::Plan;
use front_gateway::forward::ForwardError;
use front_gateway::forward::ForwardOutcome;
use front_gateway::routes::Method;

fn backend() -> front_gateway::config::BackendEndpoint {
    resolve_client_url(None)
}

fn forwarded_url(p: Plan) -> Vec<u8> {
    match p {
        Plan::Forward(url) => url,
        Plan::Respond(r) => panic!("expected a forward, got status {}", r.status),
    }
}

fn response(p: Plan) -> front_gateway::dispatch::Response {
    match p {
        Plan::Respond(r) => r,
        Plan::Forward(_) => panic!("expected an immediate response, got a forward"),
    }
}

#[test]
fn index_responds_hello_world() {
    let p = plan(&backend(), Method::Get, b"/", b"");
    let r = response(p);
    assert_eq!(r.status, 200);
    assert_eq!(r.body, b"Hello world!\r\n".to_vec());
}

#[test]
fn account_forwards_with_account_id() {
    let p = plan(&backend(), Method::Get, b"/customer/account", b"accountId=42");
    let url = forwarded_url(p);
    assert_eq!(
        url,
        b"http://127.0.0.1:9596/customer/account?accountId=42".to_vec()
    );
}

#[test]
fn delivered_response_is_relayed_verbatim() {
    let r = conclude(ForwardOutcome::Delivered(201, b"{\"uuid\":\"x\"}".to_vec()));
    assert_eq!(r.status, 201);
    assert_eq!(r.body, b"{\"uuid\":\"x\"}".to_vec());
}

#[test]
fn non_2xx_status_is_relayed_verbatim() {
    let r = conclude(ForwardOutcome::Delivered(404, b"missing".to_vec()));
    assert_eq!(r.status, 404);
    assert_eq!(r.body, b"missing".to_vec());
}

#[test]
fn account_without_account_id_responds_400() {
    let p = plan(&backend(), Method::Get, b"/customer/account", b"");
    let r = response(p);
    assert_eq!(r.status, 400);
    assert!(r.body.is_empty());
}

#[test]
fn movements_top_forwards_params_in_declaration_order() {
    let p = plan(
        &backend(),
        Method::Get,
        b"/customer/account/movements/top",
        b"accountId=5&totalElements=3&asc=1",
    );
    let url = forwarded_url(p);
    assert_eq!(
        url,
        b"http://127.0.0.1:9596/customer/account/movements/top?accountId=5&totalElements=3&asc=1"
            .to_vec()
    );
}

#[test]
fn movements_top_reorders_query_to_declaration_order() {
    let p = plan(
        &backend(),
        Method::Get,
        b"/customer/account/movements/top",
        b"asc=1&accountId=5&totalElements=3",
    );
    let url = forwarded_url(p);
    assert_eq!(
        url,
        b"http://127.0.0.1:9596/customer/account/movements/top?accountId=5&totalElements=3&asc=1"
            .to_vec()
    );
}

#[test]
fn omitted_numeric_params_forward_as_zero() {
    let p = plan(
        &backend(),
        Method::Get,
        b"/customer/account/movements",
        b"accountId=7",
    );
    let url = forwarded_url(p);
    assert_eq!(
        url,
        b"http://127.0.0.1:9596/customer/account/movements?accountId=7&sort=0&asc=0".to_vec()
    );
}

#[test]
fn omitted_top_params_forward_as_zero() {
    let p = plan(
        &backend(),
        Method::Get,
        b"/customer/account/movements/top",
        b"accountId=7",
    );
    let url = forwarded_url(p);
    assert_eq!(
        url,
        b"http://127.0.0.1:9596/customer/account/movements/top?accountId=7&totalElements=0&asc=0"
            .to_vec()
    );
}

#[test]
fn transport_failure_concludes_502_with_empty_body() {
    let r = conclude(ForwardOutcome::Failed(ForwardError::Transport));
    assert_eq!(r.status, 502);
    assert!(r.body.is_empty());
}

#[test]
fn body_read_failure_concludes_502_with_empty_body() {
    let r = conclude(ForwardOutcome::Failed(ForwardError::BodyRead));
    assert_eq!(r.status, 502);
    assert!(r.body.is_empty());
}

#[test]
fn post_to_known_route_responds_405() {
    let p = plan(&backend(), Method::Post, b"/hello", b"");
    let r = response(p);
    assert_eq!(r.status, 405);
    assert!(r.body.is_empty());
}

#[test]
fn put_to_unknown_route_responds_405() {
    let p = plan(&backend(), Method::Put, b"/nowhere", b"");
    assert_eq!(response(p).status, 405);
}

#[test]
fn get_unknown_path_responds_404() {
    let p = plan(&backend(), Method::Get, b"/nonexistent", b"");
    let r = response(p);
    assert_eq!(r.status, 404);
    assert!(r.body.is_empty());
}

#[test]
fn hello_forwards_without_query() {
    let p = plan(&backend(), Method::Get, b"/hello", b"");
    assert_eq!(forwarded_url(p), b"http://127.0.0.1:9596/hello".to_vec());
}

#[test]
fn parameterless_route_ignores_extra_query() {
    let p = plan(&backend(), Method::Get, b"/customer/accounts", b"x=1&y=2");
    assert_eq!(
        forwarded_url(p),
        b"http://127.0.0.1:9596/customer/accounts".to_vec()
    );
}

#[test]
fn balance_and_detail_forward_account_id() {
    let p = plan(
        &backend(),
        Method::Get,
        b"/customer/account/movements/balance",
        b"accountId=9",
    );
    assert_eq!(
        forwarded_url(p),
        b"http://127.0.0.1:9596/customer/account/movements/balance?accountId=9".to_vec()
    );
    let p = plan(
        &backend(),
        Method::Get,
        b"/customer/account/detail",
        b"accountId=9",
    );
    assert_eq!(
        forwarded_url(p),
        b"http://127.0.0.1:9596/customer/account/detail?accountId=9".to_vec()
    );
}

#[test]
fn string_values_are_percent_encoded() {
    let p = plan(&backend(), Method::Get, b"/customer/account", b"accountId=a b/c");
    assert_eq!(
        forwarded_url(p),
        b"http://127.0.0.1:9596/customer/account?accountId=a%20b%2fc".to_vec()
    );
}

#[test]
fn invalid_numeric_param_responds_400() {
    let p = plan(
        &backend(),
        Method::Get,
        b"/customer/account/movements",
        b"accountId=7&sort=true",
    );
    assert_eq!(response(p).status, 400);
}

#[test]
fn configured_backend_base_prefixes_the_url() {
    let base = resolve_client_url(Some(b"http://backend:9000"));
    let p = plan(&base, Method::Get, b"/hello", b"");
    assert_eq!(forwarded_url(p), b"http://backend:9000/hello".to_vec());
}
