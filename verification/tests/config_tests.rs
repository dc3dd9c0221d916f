use service_config::conf::{
    AuthServiceConfig, BuildFromEnvironment, Config, Environment, EventsManagerConfig, Ipv4Address,
    ServerConfig, SocketAddress,
};
use service_config::decimal::{parse_u16, parse_error_message, u16_to_string, ParseError};
use service_config::errors::{ErrorKind, Exception};

fn full_environment() -> Environment {
    Environment {
        events_manager_host: Some("events.internal".to_string()),
        events_manager_port: Some("8080".to_string()),
        auth_service_host: Some("auth.internal".to_string()),
        auth_service_port: Some("9091".to_string()),
    }
}

#[test]
fn valid_environment_loads_supplied_values() {
    let env = full_environment();
    let config = Config::from_env(&env).unwrap();
    assert_eq!(config.get_events_manager_config().get_host(), "events.internal");
    assert_eq!(config.get_events_manager_config().get_port(), 8080);
    assert_eq!(config.get_auth_service_config().get_host(), "auth.internal");
    assert_eq!(config.get_auth_service_config().get_port(), 9091);
    assert_eq!(
        config.get_server_config().get_socket_address(),
        SocketAddress { ip: Ipv4Address { a: 0, b: 0, c: 0, d: 0 }, port: 80 }
    );
}

#[test]
fn missing_events_manager_host_fails_fast() {
    let mut env = full_environment();
    env.events_manager_host = None;
    // Making the auth-service variables invalid too must not change the
    // outcome: only the first failure is ever reported.
    env.auth_service_host = None;
    env.auth_service_port = Some("junk".to_string());
    let e = Config::from_env(&env).unwrap_err();
    assert_eq!(e.get_kind(), ErrorKind::EnvironmentVariableMissing);
    assert_eq!(e.get_message(), "EVENTS_MANAGER_HOST- environment variable not found");
}

#[test]
fn missing_events_manager_port_names_the_port_variable() {
    let mut env = full_environment();
    env.events_manager_port = None;
    let e = Config::from_env(&env).unwrap_err();
    assert_eq!(e.get_kind(), ErrorKind::EnvironmentVariableMissing);
    assert_eq!(e.get_message(), "EVENTS_MANAGER_PORT- environment variable not found");
}

#[test]
fn non_numeric_events_manager_port_is_a_parse_failure() {
    let mut env = full_environment();
    env.events_manager_port = Some("not_a_number".to_string());
    let e = Config::from_env(&env).unwrap_err();
    assert_eq!(e.get_kind(), ErrorKind::ParseFailure);
    assert_eq!(e.get_message(), "EVENTS_MANAGER_PORT- invalid digit found in string");
}

#[test]
fn out_of_range_events_manager_port_is_a_parse_failure() {
    let mut env = full_environment();
    env.events_manager_port = Some("70000".to_string());
    let e = Config::from_env(&env).unwrap_err();
    assert_eq!(e.get_kind(), ErrorKind::ParseFailure);
    assert_eq!(e.get_message(), "EVENTS_MANAGER_PORT- number too large to fit in target type");
}

#[test]
fn missing_auth_service_host_is_reported_after_events_manager() {
    let mut env = full_environment();
    env.auth_service_host = None;
    let e = Config::from_env(&env).unwrap_err();
    assert_eq!(e.get_kind(), ErrorKind::EnvironmentVariableMissing);
    assert_eq!(e.get_message(), "AUTH_SERVICE_HOST- environment variable not found");
}

#[test]
fn invalid_auth_service_port_names_the_auth_variable() {
    let mut env = full_environment();
    env.auth_service_port = Some("".to_string());
    let e = Config::from_env(&env).unwrap_err();
    assert_eq!(e.get_kind(), ErrorKind::ParseFailure);
    assert_eq!(e.get_message(), "AUTH_SERVICE_PORT- cannot parse integer from empty string");
}

#[test]
fn events_manager_conn_str_is_derived_from_host_and_port() {
    let mut env = full_environment();
    env.events_manager_host = Some("svc.internal".to_string());
    env.events_manager_port = Some("4000".to_string());
    let c = EventsManagerConfig::from_env(&env).unwrap();
    assert_eq!(c.get_conn_str(), "http://svc.internal:4000");
}

#[test]
fn auth_service_conn_str_is_derived_from_host_and_port() {
    let mut env = full_environment();
    env.auth_service_host = Some("auth.svc".to_string());
    env.auth_service_port = Some("0".to_string());
    let c = AuthServiceConfig::from_env(&env).unwrap();
    assert_eq!(c.get_conn_str(), "http://auth.svc:0");
    assert_eq!(c.get_host(), "auth.svc");
    assert_eq!(c.get_port(), 0);
}

#[test]
fn server_binding_ignores_the_environment() {
    let mut env = full_environment();
    env.events_manager_host = None;
    env.auth_service_port = Some("junk".to_string());
    let s = ServerConfig::from_env(&env).unwrap();
    let addr = s.get_socket_address();
    assert_eq!(addr.ip, Ipv4Address { a: 0, b: 0, c: 0, d: 0 });
    assert_eq!(addr.port, 80);
}

#[test]
fn empty_host_string_is_accepted() {
    let mut env = full_environment();
    env.events_manager_host = Some("".to_string());
    let c = EventsManagerConfig::from_env(&env).unwrap();
    assert_eq!(c.get_host(), "");
    assert_eq!(c.get_conn_str(), "http://:8080");
}

#[test]
fn parse_u16_accepts_plain_and_signed_decimals() {
    assert_eq!(parse_u16("0"), Ok(0));
    assert_eq!(parse_u16("80"), Ok(80));
    assert_eq!(parse_u16("+80"), Ok(80));
    assert_eq!(parse_u16("007"), Ok(7));
    assert_eq!(parse_u16("65535"), Ok(65535));
}

#[test]
fn parse_u16_rejects_bad_inputs() {
    assert_eq!(parse_u16(""), Err(ParseError::Empty));
    assert_eq!(parse_u16("+"), Err(ParseError::InvalidDigit));
    assert_eq!(parse_u16("-1"), Err(ParseError::InvalidDigit));
    assert_eq!(parse_u16("-0"), Err(ParseError::InvalidDigit));
    assert_eq!(parse_u16("1x"), Err(ParseError::InvalidDigit));
    assert_eq!(parse_u16(" 1"), Err(ParseError::InvalidDigit));
    assert_eq!(parse_u16("\u{0663}"), Err(ParseError::InvalidDigit));
    assert_eq!(parse_u16("65536"), Err(ParseError::PosOverflow));
    assert_eq!(parse_u16("70000"), Err(ParseError::PosOverflow));
    // Overflow is detected digit by digit, before a later invalid character.
    assert_eq!(parse_u16("99999x"), Err(ParseError::PosOverflow));
}

#[test]
fn parse_u16_matches_the_standard_parser() {
    let cases = [
        "", "+", "-", "0", "-0", "+0", "80", "+80", "007", "65535", "65536", "99999x", "1x",
        " 1", "1 ", "not_a_number", "70000", "4000",
    ];
    for s in cases {
        let expected: Result<u16, String> = s.parse::<u16>().map_err(|e| e.to_string());
        let got: Result<u16, String> =
            parse_u16(s).map_err(|e| parse_error_message(e).to_string());
        assert_eq!(got, expected, "input {:?}", s);
    }
}

#[test]
fn u16_to_string_renders_canonical_decimal() {
    assert_eq!(u16_to_string(0), "0");
    assert_eq!(u16_to_string(7), "7");
    assert_eq!(u16_to_string(80), "80");
    assert_eq!(u16_to_string(4000), "4000");
    assert_eq!(u16_to_string(65535), "65535");
}

#[test]
fn exception_carries_kind_and_message() {
    let e = Exception::new(ErrorKind::ParseFailure, "something went wrong");
    assert_eq!(e.get_kind(), ErrorKind::ParseFailure);
    assert_eq!(e.get_message(), "something went wrong");
    assert_ne!(e.get_kind(), ErrorKind::EnvironmentVariableMissing);
}
