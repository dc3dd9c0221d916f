//! The runtime configuration of the service: a fixed inbound server binding
//! plus the events-manager and auth-service client endpoints, each resolved
//! and validated from named environment variables before anything else runs.
//!
//! Environment lookup itself is process I/O and stays outside the library: a
//! caller captures the relevant variables in an [`Environment`] value and
//! hands it to the builders here, which do all validation and aggregation.

use vstd::prelude::*;
use vstd::string::StringExecFns;

use crate::decimal::{parse_error_text, parse_u16, parse_u16_chars, ParseError, dec_chars};
use crate::errors::{ErrorKind, Exception, ExceptionModel};

verus! {

/// An IPv4 address as its four octets.
#[derive(Clone, Copy, Debug, PartialEq, Eq, Structural)]
pub struct Ipv4Address {
    pub a: u8,
    pub b: u8,
    pub c: u8,
    pub d: u8,
}

/// A resolved network address: an IPv4 address and a port.
#[derive(Clone, Copy, Debug, PartialEq, Eq, Structural)]
pub struct SocketAddress {
    pub ip: Ipv4Address,
    pub port: u16,
}

/// The server binding that loading always resolves to: the any-interface
/// address bound to port 80.
pub open spec fn fixed_server_address() -> SocketAddress {
    SocketAddress { ip: Ipv4Address { a: 0, b: 0, c: 0, d: 0 }, port: 80 }
}

/// The process environment as this library reads it: the value of each of
/// the four required variables, or `None` where the variable is unset (or
/// unreadable). A caller fills this from the real environment.
pub struct Environment {
    pub events_manager_host: Option<String>,
    pub events_manager_port: Option<String>,
    pub auth_service_host: Option<String>,
    pub auth_service_port: Option<String>,
}

/// The mathematical content of a resolved client endpoint: the characters of
/// its host and its port number.
pub struct EndpointModel {
    pub host: Seq<char>,
    pub port: u16,
}

/// The mathematical content of a loaded configuration: the resolved server
/// binding and the two client endpoints.
pub struct ConfigModel {
    pub server: SocketAddress,
    pub events_manager: EndpointModel,
    pub auth_service: EndpointModel,
}

/// The message reported when the variable named `name` is not set.
pub open spec fn missing_message(name: Seq<char>) -> Seq<char> {
    name + "- environment variable not found"@
}

/// The message reported when the variable named `name` held a string that
/// failed to parse with error `e`.
pub open spec fn parse_failure_message(name: Seq<char>, e: ParseError) -> Seq<char> {
    name + "- "@ + parse_error_text(e)
}

/// What resolving one client endpoint from its two named variables yields:
/// the first failure among a missing host variable, a missing port variable,
/// and an unparseable port, or else the host string and port number.
pub open spec fn endpoint_outcome(
    host_name: Seq<char>,
    port_name: Seq<char>,
    host: Option<String>,
    port: Option<String>,
) -> Result<EndpointModel, ExceptionModel> {
    match host {
        Option::None => Err(
            ExceptionModel {
                kind: ErrorKind::EnvironmentVariableMissing,
                message: missing_message(host_name),
            },
        ),
        Option::Some(h) => match port {
            Option::None => Err(
                ExceptionModel {
                    kind: ErrorKind::EnvironmentVariableMissing,
                    message: missing_message(port_name),
                },
            ),
            Option::Some(p) => match parse_u16_chars(p@) {
                Err(e) => Err(
                    ExceptionModel {
                        kind: ErrorKind::ParseFailure,
                        message: parse_failure_message(port_name, e),
                    },
                ),
                Ok(v) => Ok(EndpointModel { host: h@, port: v }),
            },
        },
    }
}

/// What loading the whole configuration from `env` yields: the server
/// binding never fails, the events-manager endpoint is resolved next and the
/// auth-service endpoint last, and the first failure is the result.
pub open spec fn config_outcome(env: Environment) -> Result<ConfigModel, ExceptionModel> {
    match endpoint_outcome(
        "EVENTS_MANAGER_HOST"@,
        "EVENTS_MANAGER_PORT"@,
        env.events_manager_host,
        env.events_manager_port,
    ) {
        Err(e) => Err(e),
        Ok(em) => match endpoint_outcome(
            "AUTH_SERVICE_HOST"@,
            "AUTH_SERVICE_PORT"@,
            env.auth_service_host,
            env.auth_service_port,
        ) {
            Err(e) => Err(e),
            Ok(am) => Ok(
                ConfigModel {
                    server: fixed_server_address(),
                    events_manager: em,
                    auth_service: am,
                },
            ),
        },
    }
}

/// The connection string for a host and port: `http://<host>:<port>` with
/// the port in canonical decimal.
pub open spec fn conn_str_chars(host: Seq<char>, port: u16) -> Seq<char> {
    "http://"@ + host + ":"@ + dec_chars(port as nat)
}

/// The failure value for a variable that is not set.
fn missing_var_exception(name: &str) -> (r: Exception)
    ensures
        r@.kind == ErrorKind::EnvironmentVariableMissing,
        r@.message == missing_message(name@),
{
    let mut m = String::from_str(name);
    m.append("- environment variable not found");
    Exception::new(ErrorKind::EnvironmentVariableMissing, m.as_str())
}

/// The failure value for a port variable whose string did not parse.
fn parse_failure_exception(name: &str, e: ParseError) -> (r: Exception)
    ensures
        r@.kind == ErrorKind::ParseFailure,
        r@.message == parse_failure_message(name@, e),
{
    let mut m = String::from_str(name);
    m.append("- ");
    m.append(crate::decimal::parse_error_message(e));
    Exception::new(ErrorKind::ParseFailure, m.as_str())
}

/// Resolves one client endpoint: the host variable is required, then the
/// port variable is required, then the port string must parse; the first
/// failure wins and names its variable.
fn load_endpoint(
    host_name: &str,
    port_name: &str,
    host: &Option<String>,
    port: &Option<String>,
) -> (r: Result<(String, u16), Exception>)
    ensures
        match endpoint_outcome(host_name@, port_name@, *host, *port) {
            Ok(m) => r matches Ok(hp) && hp.0@ == m.host && hp.1 == m.port,
            Err(e) => r matches Err(x) && x@ == e,
        },
{
    let h: String = match host {
        Option::Some(h) => h.clone(),
        Option::None => {
            return Err(missing_var_exception(host_name));
        },
    };
    let p: &String = match port {
        Option::Some(p) => p,
        Option::None => {
            return Err(missing_var_exception(port_name));
        },
    };
    match parse_u16(p.as_str()) {
        Ok(v) => Ok((h, v)),
        Err(e) => Err(parse_failure_exception(port_name, e)),
    }
}

/// The inbound server binding; its values are fixed, not read from the
/// environment, so it is always valid.
#[derive(Debug)]
pub struct ServerConfig {
    host: Ipv4Address,
    port: u16,
}

impl View for ServerConfig {
    type V = SocketAddress;

    closed spec fn view(&self) -> SocketAddress {
        SocketAddress { ip: self.host, port: self.port }
    }
}

impl ServerConfig {
    /// Combines host and port into the resolved network address.
    pub fn get_socket_address(&self) -> (r: SocketAddress)
        ensures
            r == self@,
    {
        SocketAddress { ip: self.host, port: self.port }
    }
}

/// The client endpoint for the events-manager service, read from
/// `EVENTS_MANAGER_HOST` and `EVENTS_MANAGER_PORT`.
#[derive(Debug)]
pub struct EventsManagerConfig {
    host: String,
    port: u16,
}

impl View for EventsManagerConfig {
    type V = EndpointModel;

    closed spec fn view(&self) -> EndpointModel {
        EndpointModel { host: self.host@, port: self.port }
    }
}

impl EventsManagerConfig {
    /// The configured host.
    pub fn get_host(&self) -> (r: &str)
        ensures
            r@ == self@.host,
    {
        self.host.as_str()
    }

    /// The configured port.
    pub fn get_port(&self) -> (r: u16)
        ensures
            r == self@.port,
    {
        self.port
    }

    /// The single source of the endpoint's URL: `http://<host>:<port>`.
    pub fn get_conn_str(&self) -> (r: String)
        ensures
            r@ == conn_str_chars(self@.host, self@.port),
    {
        let mut s = String::from_str("http://");
        s.append(self.host.as_str());
        s.append(":");
        let p = crate::decimal::u16_to_string(self.port);
        s.append(p.as_str());
        s
    }
}

/// The client endpoint for the auth service, read from `AUTH_SERVICE_HOST`
/// and `AUTH_SERVICE_PORT`.
#[derive(Debug)]
pub struct AuthServiceConfig {
    host: String,
    port: u16,
}

impl View for AuthServiceConfig {
    type V = EndpointModel;

    closed spec fn view(&self) -> EndpointModel {
        EndpointModel { host: self.host@, port: self.port }
    }
}

impl AuthServiceConfig {
    /// The configured host.
    pub fn get_host(&self) -> (r: &str)
        ensures
            r@ == self@.host,
    {
        self.host.as_str()
    }

    /// The configured port.
    pub fn get_port(&self) -> (r: u16)
        ensures
            r == self@.port,
    {
        self.port
    }

    /// The single source of the endpoint's URL: `http://<host>:<port>`.
    pub fn get_conn_str(&self) -> (r: String)
        ensures
            r@ == conn_str_chars(self@.host, self@.port),
    {
        let mut s = String::from_str("http://");
        s.append(self.host.as_str());
        s.append(":");
        let p = crate::decimal::u16_to_string(self.port);
        s.append(p.as_str());
        s
    }
}

/// The aggregate configuration: exactly one of each sub-configuration, all
/// valid whenever the aggregate exists.
#[derive(Debug)]
pub struct Config {
    server: ServerConfig,
    events_manager: EventsManagerConfig,
    auth_service: AuthServiceConfig,
}

impl View for Config {
    type V = ConfigModel;

    closed spec fn view(&self) -> ConfigModel {
        ConfigModel {
            server: self.server@,
            events_manager: self.events_manager@,
            auth_service: self.auth_service@,
        }
    }
}

impl Config {
    /// The inbound server binding.
    pub fn get_server_config(&self) -> (r: &ServerConfig)
        ensures
            r@ == self@.server,
    {
        &self.server
    }

    /// The events-manager client endpoint.
    pub fn get_events_manager_config(&self) -> (r: &EventsManagerConfig)
        ensures
            r@ == self@.events_manager,
    {
        &self.events_manager
    }

    /// The auth-service client endpoint.
    pub fn get_auth_service_config(&self) -> (r: &AuthServiceConfig)
        ensures
            r@ == self@.auth_service,
    {
        &self.auth_service
    }
}

/// The build-from-environment contract every sub-configuration implements:
/// either a fully populated value or the first failure, never a partially
/// constructed instance.
pub trait BuildFromEnvironment: Sized {
    fn from_env(env: &Environment) -> Result<Self, Exception>;
}

impl BuildFromEnvironment for ServerConfig {
    /// Always succeeds with the fixed binding: the any-interface address on
    /// port 80, whatever `env` holds.
    fn from_env(_env: &Environment) -> (r: Result<Self, Exception>)
        ensures
            r matches Ok(s) && s@ == fixed_server_address(),
    {
        let host = Ipv4Address { a: 0, b: 0, c: 0, d: 0 };
        let port: u16 = 80;
        Ok(ServerConfig { host, port })
    }
}

impl BuildFromEnvironment for EventsManagerConfig {
    /// Resolves the endpoint from `EVENTS_MANAGER_HOST` and
    /// `EVENTS_MANAGER_PORT`, exactly as `endpoint_outcome` states.
    fn from_env(env: &Environment) -> (r: Result<Self, Exception>)
        ensures
            match endpoint_outcome(
                "EVENTS_MANAGER_HOST"@,
                "EVENTS_MANAGER_PORT"@,
                env.events_manager_host,
                env.events_manager_port,
            ) {
                Ok(m) => r matches Ok(c) && c@ == m,
                Err(e) => r matches Err(x) && x@ == e,
            },
    {
        match load_endpoint(
            "EVENTS_MANAGER_HOST",
            "EVENTS_MANAGER_PORT",
            &env.events_manager_host,
            &env.events_manager_port,
        ) {
            Ok((host, port)) => Ok(EventsManagerConfig { host, port }),
            Err(e) => Err(e),
        }
    }
}

impl BuildFromEnvironment for AuthServiceConfig {
    /// Resolves the endpoint from `AUTH_SERVICE_HOST` and
    /// `AUTH_SERVICE_PORT`, exactly as `endpoint_outcome` states.
    fn from_env(env: &Environment) -> (r: Result<Self, Exception>)
        ensures
            match endpoint_outcome(
                "AUTH_SERVICE_HOST"@,
                "AUTH_SERVICE_PORT"@,
                env.auth_service_host,
                env.auth_service_port,
            ) {
                Ok(m) => r matches Ok(c) && c@ == m,
                Err(e) => r matches Err(x) && x@ == e,
            },
    {
        match load_endpoint(
            "AUTH_SERVICE_HOST",
            "AUTH_SERVICE_PORT",
            &env.auth_service_host,
            &env.auth_service_port,
        ) {
            Ok((host, port)) => Ok(AuthServiceConfig { host, port }),
            Err(e) => Err(e),
        }
    }
}

impl BuildFromEnvironment for Config {
    /// Builds the server binding, then the events-manager endpoint, then the
    /// auth-service endpoint, propagating the first failure unchanged and
    /// attempting nothing further once one fails.
    fn from_env(env: &Environment) -> (r: Result<Self, Exception>)
        ensures
            match config_outcome(*env) {
                Ok(m) => r matches Ok(c) && c@ == m,
                Err(e) => r matches Err(x) && x@ == e,
            },
    {
        let server: ServerConfig = match ServerConfig::from_env(env) {
            Ok(s) => s,
            Err(e) => {
                return Err(e);
            },
        };
        let events_manager: EventsManagerConfig = match EventsManagerConfig::from_env(env) {
            Ok(c) => c,
            Err(e) => {
                return Err(e);
            },
        };
        let auth_service: AuthServiceConfig = match AuthServiceConfig::from_env(env) {
            Ok(c) => c,
            Err(e) => {
                return Err(e);
            },
        };
        Ok(Config { server, events_manager, auth_service })
    }
}

/// A fully valid environment loads: when all four variables are present,
/// the host strings are non-empty, and both port strings parse as 16-bit
/// unsigned integers, loading succeeds and the configuration holds exactly
/// the supplied values.
pub proof fn lemma_valid_environment_loads(env: Environment)
    requires
        env.events_manager_host is Some,
        env.events_manager_host->Some_0@.len() > 0,
        env.events_manager_port is Some,
        parse_u16_chars(env.events_manager_port->Some_0@) is Ok,
        env.auth_service_host is Some,
        env.auth_service_host->Some_0@.len() > 0,
        env.auth_service_port is Some,
        parse_u16_chars(env.auth_service_port->Some_0@) is Ok,
    ensures
        config_outcome(env) is Ok,
        config_outcome(env)->Ok_0.server == fixed_server_address(),
        config_outcome(env)->Ok_0.events_manager.host == env.events_manager_host->Some_0@,
        config_outcome(env)->Ok_0.events_manager.port == parse_u16_chars(
            env.events_manager_port->Some_0@,
        )->Ok_0,
        config_outcome(env)->Ok_0.auth_service.host == env.auth_service_host->Some_0@,
        config_outcome(env)->Ok_0.auth_service.port == parse_u16_chars(
            env.auth_service_port->Some_0@,
        )->Ok_0,
{
}

/// Loading is fail-fast: when `EVENTS_MANAGER_HOST` is unset, loading fails
/// with the environment-variable-missing kind and a message naming that
/// variable, whatever the auth-service variables hold — they are never
/// consulted.
pub proof fn lemma_missing_events_manager_host_fails_fast(env: Environment)
    requires
        env.events_manager_host is None,
    ensures
        config_outcome(env) is Err,
        config_outcome(env)->Err_0.kind == ErrorKind::EnvironmentVariableMissing,
        config_outcome(env)->Err_0.message == missing_message("EVENTS_MANAGER_HOST"@),
{
}

/// The server binding is fixed: whenever loading succeeds, the resolved
/// server address is the any-interface address on port 80, whatever the
/// environment held.
pub proof fn lemma_server_binding_fixed(env: Environment)
    ensures
        config_outcome(env) matches Ok(m) ==> m.server == fixed_server_address(),
{
}

} // verus!

