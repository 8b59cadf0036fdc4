use vstd::prelude::*;
use crate::error::{EtcdFdwError, ErrorModel};
use crate::options::{OptionList, get_option, lookup, parse_u64, parse_u64_spec};

verus! {

/// Seconds allowed for establishing the connection, unless configured.
pub const DEFAULT_CONNECT_TIMEOUT_SECS: u64 = 10;

/// Seconds allowed for each request, unless configured.
pub const DEFAULT_REQUEST_TIMEOUT_SECS: u64 = 30;

/// How to reach the store: endpoints, TLS material, credentials and timeouts.
pub struct EtcdConfig {
    pub endpoints: Vec<String>,
    pub ca_cert_path: Option<String>,
    pub client_cert_path: Option<String>,
    pub client_key_path: Option<String>,
    pub username: Option<String>,
    pub password: Option<String>,
    pub servername: Option<String>,
    /// Connect timeout, in seconds.
    pub connect_timeout_secs: u64,
    /// Per-request timeout, in seconds.
    pub request_timeout_secs: u64,
}

pub ghost struct ConfigModel {
    pub endpoints: Seq<Seq<char>>,
    pub ca_cert_path: Option<Seq<char>>,
    pub client_cert_path: Option<Seq<char>>,
    pub client_key_path: Option<Seq<char>>,
    pub username: Option<Seq<char>>,
    pub password: Option<Seq<char>>,
    pub servername: Option<Seq<char>>,
    pub connect_timeout_secs: u64,
    pub request_timeout_secs: u64,
}

pub open spec fn opt_view(o: Option<String>) -> Option<Seq<char>> {
    match o {
        Some(s) => Some(s@),
        None => None,
    }
}

impl View for EtcdConfig {
    type V = ConfigModel;

    open spec fn view(&self) -> ConfigModel {
        ConfigModel {
            endpoints: self.endpoints@.map_values(|s: String| s@),
            ca_cert_path: opt_view(self.ca_cert_path),
            client_cert_path: opt_view(self.client_cert_path),
            client_key_path: opt_view(self.client_key_path),
            username: opt_view(self.username),
            password: opt_view(self.password),
            servername: opt_view(self.servername),
            connect_timeout_secs: self.connect_timeout_secs,
            request_timeout_secs: self.request_timeout_secs,
        }
    }
}

/// No endpoint, no TLS material, no credentials and the default timeouts.
pub open spec fn default_config() -> ConfigModel {
    ConfigModel {
        endpoints: Seq::empty(),
        ca_cert_path: None,
        client_cert_path: None,
        client_key_path: None,
        username: None,
        password: None,
        servername: None,
        connect_timeout_secs: DEFAULT_CONNECT_TIMEOUT_SECS,
        request_timeout_secs: DEFAULT_REQUEST_TIMEOUT_SECS,
    }
}

impl Default for EtcdConfig {
    fn default() -> (r: Self)
        ensures
            r@ == default_config(),
    {
        let r = EtcdConfig {
            endpoints: Vec::new(),
            ca_cert_path: None,
            client_cert_path: None,
            client_key_path: None,
            username: None,
            password: None,
            servername: None,
            connect_timeout_secs: DEFAULT_CONNECT_TIMEOUT_SECS,
            request_timeout_secs: DEFAULT_REQUEST_TIMEOUT_SECS,
        };
        assert(r@.endpoints =~= Seq::<Seq<char>>::empty());
        r
    }
}

/// Fails with `err` when exactly one of two options that go together is given.
pub fn require_pair(a: bool, b: bool, err: EtcdFdwError) -> (r: Result<(), EtcdFdwError>)
    ensures
        a == b ==> r is Ok,
        a != b ==> r == Err::<(), EtcdFdwError>(err),
{
    if a != b {
        Err(err)
    } else {
        Ok(())
    }
}

/// The timeout that the option `key` sets, in seconds, or `default` where it is absent.
pub open spec fn timeout_spec(opts: Seq<(String, String)>, key: Seq<char>, default: u64) -> Result<u64, ErrorModel> {
    match lookup(opts, key) {
        None => Ok(default),
        Some(v) => match parse_u64_spec(v) {
            Some(n) => Ok(n),
            None => Err(ErrorModel::InvalidOption(key, v)),
        },
    }
}

/// Reads a timeout in whole seconds from the options.
pub fn parse_timeout(options: &OptionList, key: &str, default: u64) -> (r: Result<u64, EtcdFdwError>)
    ensures
        crate::error::result_model(r) == timeout_spec(options@, key@, default),
{
    match get_option(options, key) {
        Some(val) => match parse_u64(val.as_str()) {
            Some(secs) => Ok(secs),
            None => Err(EtcdFdwError::InvalidOption(key.to_owned(), val)),
        },
        None => Ok(default),
    }
}

/// The configuration that server options describe, or the first fault in them:
/// no `connstr`, a timeout that is not a number, a certificate without its key
/// (or the reverse), a user name without its password (or the reverse).
pub open spec fn config_spec(opts: Seq<(String, String)>) -> Result<ConfigModel, ErrorModel> {
    let cert = lookup(opts, "ssl_cert"@);
    let key = lookup(opts, "ssl_key"@);
    let user = lookup(opts, "username"@);
    let pass = lookup(opts, "password"@);
    let ct = timeout_spec(opts, "connect_timeout"@, DEFAULT_CONNECT_TIMEOUT_SECS);
    let rt = timeout_spec(opts, "request_timeout"@, DEFAULT_REQUEST_TIMEOUT_SECS);
    if lookup(opts, "connstr"@) is None {
        Err(ErrorModel::NoConnStr)
    } else if ct is Err {
        Err(ct->Err_0)
    } else if rt is Err {
        Err(rt->Err_0)
    } else if cert is Some != key is Some {
        Err(ErrorModel::CertKeyMismatch)
    } else if user is Some != pass is Some {
        Err(ErrorModel::UserPassMismatch)
    } else {
        Ok(ConfigModel {
            endpoints: seq![lookup(opts, "connstr"@)->Some_0],
            ca_cert_path: lookup(opts, "ssl_ca"@),
            client_cert_path: cert,
            client_key_path: key,
            username: user,
            password: pass,
            servername: lookup(opts, "ssl_servername"@),
            connect_timeout_secs: ct->Ok_0,
            request_timeout_secs: rt->Ok_0,
        })
    }
}

/// Builds the connection configuration from the server's options.
pub fn config_from_options(options: &OptionList) -> (r: Result<EtcdConfig, EtcdFdwError>)
    ensures
        match r {
            Ok(c) => config_spec(options@) == Ok::<ConfigModel, ErrorModel>(c@),
            Err(e) => config_spec(options@) == Err::<ConfigModel, ErrorModel>(e@),
        },
{
    let connstr = match get_option(options, "connstr") {
        Some(x) => x,
        None => return Err(EtcdFdwError::NoConnStr),
    };
    let cacert_path = get_option(options, "ssl_ca");
    let cert_path = get_option(options, "ssl_cert");
    let key_path = get_option(options, "ssl_key");
    let servername = get_option(options, "ssl_servername");
    let username = get_option(options, "username");
    let password = get_option(options, "password");
    let connect_timeout = parse_timeout(options, "connect_timeout", DEFAULT_CONNECT_TIMEOUT_SECS)?;
    let request_timeout = parse_timeout(options, "request_timeout", DEFAULT_REQUEST_TIMEOUT_SECS)?;
    require_pair(cert_path.is_some(), key_path.is_some(), EtcdFdwError::CertKeyMismatch)?;
    require_pair(username.is_some(), password.is_some(), EtcdFdwError::UserPassMismatch)?;
    let mut endpoints: Vec<String> = Vec::new();
    endpoints.push(connstr);
    let c = EtcdConfig {
        endpoints,
        ca_cert_path: cacert_path,
        client_cert_path: cert_path,
        client_key_path: key_path,
        username,
        password,
        servername,
        connect_timeout_secs: connect_timeout,
        request_timeout_secs: request_timeout,
    };
    assert(c@.endpoints =~= seq![lookup(options@, "connstr"@)->Some_0]);
    Ok(c)
}

/// The first fault of a configuration, if it has one: no endpoint, a
/// certificate path without a key path (or the reverse), a user name without
/// a password (or the reverse).
pub open spec fn config_fault(c: ConfigModel) -> Option<ErrorModel> {
    if c.endpoints.len() == 0 {
        Some(ErrorModel::NoConnStr)
    } else if c.client_cert_path is Some != c.client_key_path is Some {
        Some(ErrorModel::CertKeyMismatch)
    } else if c.username is Some != c.password is Some {
        Some(ErrorModel::UserPassMismatch)
    } else {
        None
    }
}

/// Checks a configuration before any connection is attempted.
pub fn check_config(config: &EtcdConfig) -> (r: Result<(), EtcdFdwError>)
    ensures
        match r {
            Ok(_) => config_fault(config@) is None,
            Err(e) => config_fault(config@) == Some(e@),
        },
{
    if config.endpoints.len() == 0 {
        return Err(EtcdFdwError::NoConnStr);
    }
    require_pair(config.client_cert_path.is_some(), config.client_key_path.is_some(), EtcdFdwError::CertKeyMismatch)?;
    require_pair(config.username.is_some(), config.password.is_some(), EtcdFdwError::UserPassMismatch)?;
    Ok(())
}

/// TLS is used as soon as a CA certificate or a client certificate is configured.
pub open spec fn uses_tls_spec(c: ConfigModel) -> bool {
    c.ca_cert_path is Some || c.client_cert_path is Some
}

/// Whether the connection is to use TLS.
pub fn uses_tls(config: &EtcdConfig) -> (r: bool)
    ensures
        r == uses_tls_spec(config@),
{
    config.ca_cert_path.is_some() || config.client_cert_path.is_some()
}

} // verus!
