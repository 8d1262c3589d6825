use front_gateway::binder::bind;
use front_gateway::binder::BindError;
use front_gateway::binder::BoundValue;
use front_gateway::handlers::default_elements;
use front_gateway::handlers::default_numeric;
use front_gateway::handlers::index_handler;
use front_gateway::handlers::Parameters;
use front_gateway::handlers::SortedParameters;
use front_gateway::handlers::TopSortedParameters;
use front_gateway::numeric::parse_uint;
use front_gateway::numeric::render_uint;
use front_gateway::routes::match_route;
use front_gateway::routes::route_params;
use front_gateway::routes::Method;
use front_gateway::routes::RouteId;

#[test]
fn index_handler_body_is_fixed() {
    assert_eq!(index_handler(), "Hello world!\r\n");
}

#[test]
fn numeric_defaults_are_zero() {
    assert_eq!(default_numeric(), 0);
    assert_eq!(default_elements(), 0);
}

#[test]
fn parameters_bind_takes_account_id_verbatim() {
    let p = Parameters::bind(b"accountId=42&noise=1").unwrap();
    assert_eq!(p.account_id, b"42".to_vec());
}

#[test]
fn parameters_bind_missing_account_id_fails() {
    assert_eq!(
        Parameters::bind(b"noise=1").unwrap_err(),
        BindError::MissingRequired
    );
    assert_eq!(Parameters::bind(b"").unwrap_err(), BindError::MissingRequired);
}

#[test]
fn first_occurrence_of_a_key_wins() {
    let p = Parameters::bind(b"accountId=1&accountId=2").unwrap();
    assert_eq!(p.account_id, b"1".to_vec());
}

#[test]
fn sorted_parameters_bind_all_present() {
    let p = SortedParameters::bind(b"accountId=11&sort=1&asc=1").unwrap();
    assert_eq!(p.account_id, b"11".to_vec());
    assert_eq!(p.sort, 1);
    assert_eq!(p.asc, 1);
}

#[test]
fn sorted_parameters_default_when_absent() {
    let p = SortedParameters::bind(b"accountId=11").unwrap();
    assert_eq!(p.sort, 0);
    assert_eq!(p.asc, 0);
}

#[test]
fn sorted_parameters_reject_non_numeric() {
    assert_eq!(
        SortedParameters::bind(b"accountId=11&sort=true").unwrap_err(),
        BindError::InvalidType
    );
    assert_eq!(
        SortedParameters::bind(b"accountId=11&asc=-1").unwrap_err(),
        BindError::InvalidType
    );
}

#[test]
fn top_sorted_parameters_bind() {
    let p = TopSortedParameters::bind(b"accountId=5&totalElements=3&asc=1").unwrap();
    assert_eq!(p.account_id, b"5".to_vec());
    assert_eq!(p.total_elements, 3);
    assert_eq!(p.asc, 1);
    let p = TopSortedParameters::bind(b"accountId=5").unwrap();
    assert_eq!(p.total_elements, 0);
    assert_eq!(p.asc, 0);
}

#[test]
fn top_sorted_parameters_missing_account_id_fails() {
    assert_eq!(
        TopSortedParameters::bind(b"totalElements=3").unwrap_err(),
        BindError::MissingRequired
    );
}

#[test]
fn generic_bind_follows_declaration_order() {
    let ps = route_params(RouteId::CustomerAccountMovements);
    let b = bind(&ps, b"asc=1&accountId=8").unwrap();
    assert_eq!(b.values.len(), 3);
    match &b.values[0] {
        BoundValue::Text(v) => assert_eq!(v, &b"8".to_vec()),
        BoundValue::Number(_) => panic!("accountId must bind as text"),
    }
    match &b.values[1] {
        BoundValue::Number(n) => assert_eq!(*n, 0),
        BoundValue::Text(_) => panic!("sort must bind as a number"),
    }
    match &b.values[2] {
        BoundValue::Number(n) => assert_eq!(*n, 1),
        BoundValue::Text(_) => panic!("asc must bind as a number"),
    }
}

#[test]
fn generic_bind_reports_first_failure() {
    let ps = route_params(RouteId::CustomerAccountMovements);
    assert_eq!(bind(&ps, b"sort=x").unwrap_err(), BindError::MissingRequired);
    assert_eq!(
        bind(&ps, b"accountId=1&sort=x&asc=y").unwrap_err(),
        BindError::InvalidType
    );
}

#[test]
fn empty_value_binds_as_empty_text() {
    let p = Parameters::bind(b"accountId=").unwrap();
    assert_eq!(p.account_id, b"".to_vec());
    let p = Parameters::bind(b"accountId").unwrap();
    assert_eq!(p.account_id, b"".to_vec());
}

#[test]
fn parse_uint_accepts_plain_numerals_only() {
    assert_eq!(parse_uint(b"0"), Some(0));
    assert_eq!(parse_uint(b"007"), Some(7));
    assert_eq!(parse_uint(b"9296"), Some(9296));
    assert_eq!(parse_uint(b""), None);
    assert_eq!(parse_uint(b"12a"), None);
    assert_eq!(parse_uint(b"+5"), None);
    assert_eq!(parse_uint(b" 5"), None);
    assert_eq!(parse_uint(b"99999999999999999999999999"), None);
}

#[test]
fn render_uint_gives_canonical_decimals() {
    assert_eq!(render_uint(0), b"0".to_vec());
    assert_eq!(render_uint(10), b"10".to_vec());
    assert_eq!(render_uint(9296), b"9296".to_vec());
    assert_eq!(render_uint(usize::MAX), usize::MAX.to_string().into_bytes());
}

#[test]
fn route_table_matches_exact_get_paths_only() {
    assert_eq!(match_route(Method::Get, b"/"), Some(RouteId::Index));
    assert_eq!(match_route(Method::Get, b"/hello"), Some(RouteId::Hello));
    assert_eq!(
        match_route(Method::Get, b"/customer/accounts"),
        Some(RouteId::CustomerAccounts)
    );
    assert_eq!(
        match_route(Method::Get, b"/customer/account"),
        Some(RouteId::CustomerAccount)
    );
    assert_eq!(
        match_route(Method::Get, b"/customer/account/detail"),
        Some(RouteId::CustomerAccountDetail)
    );
    assert_eq!(
        match_route(Method::Get, b"/customer/account/movements"),
        Some(RouteId::CustomerAccountMovements)
    );
    assert_eq!(
        match_route(Method::Get, b"/customer/account/movements/top"),
        Some(RouteId::CustomerAccountMovementsTop)
    );
    assert_eq!(
        match_route(Method::Get, b"/customer/account/movements/balance"),
        Some(RouteId::CustomerAccountMovementsBalance)
    );
    assert_eq!(match_route(Method::Get, b"/hello/"), None);
    assert_eq!(match_route(Method::Get, b"/customer"), None);
    assert_eq!(match_route(Method::Post, b"/hello"), None);
    assert_eq!(match_route(Method::Other, b"/"), None);
}
