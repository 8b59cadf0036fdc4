use vstd::prelude::*;
use etcd_client::{ConnectOptions, GetOptions, TlsOptions};
use crate::config::{ConfigModel, EtcdConfig, opt_view, uses_tls, uses_tls_spec};
use crate::plan::{ScanMode, ScanPlan, SortField};

verus! {

#[verifier::external_type_specification]
#[verifier::external_body]
pub struct ExGetOptions(etcd_client::GetOptions);

#[verifier::external_type_specification]
#[verifier::external_body]
pub struct ExConnectOptions(etcd_client::ConnectOptions);

#[verifier::external_type_specification]
#[verifier::external_body]
pub struct ExTlsOptions(etcd_client::TlsOptions);

/// Relies on etcd_client::GetOptions::new: options for a plain point read.
#[verifier::external_body]
fn get_options_new() -> GetOptions {
    GetOptions::new()
}

/// Relies on etcd_client::GetOptions::with_prefix: read every key under the request key.
#[verifier::external_body]
fn get_with_prefix(o: GetOptions) -> GetOptions {
    o.with_prefix()
}

/// Relies on etcd_client::GetOptions::with_range: read the keys in `[key, end)`.
#[verifier::external_body]
fn get_with_range(o: GetOptions, end: String) -> GetOptions {
    o.with_range(end)
}

/// Relies on etcd_client::GetOptions::with_all_keys: read the whole keyspace.
#[verifier::external_body]
fn get_with_all_keys(o: GetOptions) -> GetOptions {
    o.with_all_keys()
}

/// Relies on etcd_client::GetOptions::with_limit: at most `limit` pairs.
#[verifier::external_body]
fn get_with_limit(o: GetOptions, limit: i64) -> GetOptions {
    o.with_limit(limit)
}

/// Relies on etcd_client::GetOptions::with_keys_only: values are not transferred.
#[verifier::external_body]
fn get_with_keys_only(o: GetOptions) -> GetOptions {
    o.with_keys_only()
}

/// Relies on etcd_client::GetOptions::with_revision: read at a past revision.
#[verifier::external_body]
fn get_with_revision(o: GetOptions, revision: i64) -> GetOptions {
    o.with_revision(revision)
}

/// Relies on etcd_client::GetOptions::with_serializable: member-local reads.
#[verifier::external_body]
fn get_with_serializable(o: GetOptions) -> GetOptions {
    o.with_serializable()
}

/// Relies on etcd_client::GetOptions::with_sort: server-side sort by a target.
#[verifier::external_body]
fn get_with_sort(o: GetOptions, field: SortField, descending: bool) -> GetOptions {
    let target = match field {
        SortField::Key => etcd_client::SortTarget::Key,
        SortField::Version => etcd_client::SortTarget::Version,
        SortField::Create => etcd_client::SortTarget::Create,
        SortField::Mod => etcd_client::SortTarget::Mod,
        SortField::Value => etcd_client::SortTarget::Value,
    };
    let order = if descending { etcd_client::SortOrder::Descend } else { etcd_client::SortOrder::Ascend };
    o.with_sort(target, order)
}

/// The store's read options for a planned scan. Each field of the plan
/// (whose content `plan_scan` states) becomes one builder call, in this
/// order: the key range by the mode, then limit, keys-only, revision,
/// consistency and sort; nothing is decided here.
pub fn get_options(plan: &ScanPlan) -> GetOptions {
    let mut o = get_options_new();
    match &plan.mode {
        ScanMode::Prefix => o = get_with_prefix(o),
        ScanMode::Range(end) => o = get_with_range(o, end.clone()),
        ScanMode::Point => {},
        ScanMode::All => o = get_with_all_keys(o),
    }
    if let Some(limit) = plan.limit {
        o = get_with_limit(o, limit);
    }
    if plan.keys_only {
        o = get_with_keys_only(o);
    }
    if let Some(revision) = plan.revision {
        o = get_with_revision(o, revision);
    }
    if plan.serializable {
        o = get_with_serializable(o);
    }
    if let Some((field, descending)) = plan.sort {
        o = get_with_sort(o, field, descending);
    }
    o
}

/// Relies on etcd_client::ConnectOptions::new: no credentials, no TLS, no timeout.
#[verifier::external_body]
fn connect_options_new() -> ConnectOptions {
    ConnectOptions::new()
}

/// Relies on etcd_client::ConnectOptions::with_timeout: a timeout on each request.
#[verifier::external_body]
fn connect_with_timeout(o: ConnectOptions, secs: u64) -> ConnectOptions {
    o.with_timeout(std::time::Duration::from_secs(secs))
}

/// Relies on etcd_client::ConnectOptions::with_user: authenticate as `user`.
#[verifier::external_body]
fn connect_with_user(o: ConnectOptions, user: String, password: String) -> ConnectOptions {
    o.with_user(user, password)
}

/// Relies on etcd_client::ConnectOptions::with_tls: connect over TLS.
#[verifier::external_body]
fn connect_with_tls(o: ConnectOptions, tls: TlsOptions) -> ConnectOptions {
    o.with_tls(tls)
}

/// Relies on etcd_client::TlsOptions::new (tonic's ClientTlsConfig): an empty TLS setup.
#[verifier::external_body]
fn tls_new() -> TlsOptions {
    TlsOptions::new()
}

/// Relies on etcd_client::TlsOptions::ca_certificate: trust the PEM certificate `pem`.
#[verifier::external_body]
fn tls_with_ca(t: TlsOptions, pem: Vec<u8>) -> TlsOptions {
    t.ca_certificate(etcd_client::Certificate::from_pem(pem))
}

/// Relies on etcd_client::TlsOptions::identity: present the PEM certificate and key.
#[verifier::external_body]
fn tls_with_identity(t: TlsOptions, cert_pem: Vec<u8>, key_pem: Vec<u8>) -> TlsOptions {
    t.identity(etcd_client::Identity::from_pem(cert_pem, key_pem))
}

/// Relies on etcd_client::TlsOptions::domain_name: the name the server's certificate must carry.
#[verifier::external_body]
fn tls_with_domain(t: TlsOptions, domain: String) -> TlsOptions {
    t.domain_name(domain)
}

/// TLS material for a connection: the files to load and the server name to expect.
pub struct TlsSettings {
    pub ca_cert_path: Option<String>,
    /// The client certificate and its key.
    pub identity_paths: Option<(String, String)>,
    pub domain: Option<String>,
}

/// Everything a connection is made with, as plain values.
pub struct ConnectSettings {
    pub endpoints: Vec<String>,
    pub connect_timeout_secs: u64,
    pub request_timeout_secs: u64,
    /// `None` connects without TLS.
    pub tls: Option<TlsSettings>,
    /// User name and password.
    pub credentials: Option<(String, String)>,
}

pub ghost struct TlsModel {
    pub ca_cert_path: Option<Seq<char>>,
    pub identity_paths: Option<(Seq<char>, Seq<char>)>,
    pub domain: Option<Seq<char>>,
}

pub ghost struct SettingsModel {
    pub endpoints: Seq<Seq<char>>,
    pub connect_timeout_secs: u64,
    pub request_timeout_secs: u64,
    pub tls: Option<TlsModel>,
    pub credentials: Option<(Seq<char>, Seq<char>)>,
}

pub open spec fn pair_view(p: Option<(String, String)>) -> Option<(Seq<char>, Seq<char>)> {
    match p {
        Some((a, b)) => Some((a@, b@)),
        None => None,
    }
}

impl View for ConnectSettings {
    type V = SettingsModel;

    open spec fn view(&self) -> SettingsModel {
        SettingsModel {
            endpoints: self.endpoints@.map_values(|s: String| s@),
            connect_timeout_secs: self.connect_timeout_secs,
            request_timeout_secs: self.request_timeout_secs,
            tls: match self.tls {
                Some(t) => Some(TlsModel {
                    ca_cert_path: opt_view(t.ca_cert_path),
                    identity_paths: pair_view(t.identity_paths),
                    domain: opt_view(t.domain),
                }),
                None => None,
            },
            credentials: pair_view(self.credentials),
        }
    }
}

/// Both halves of a pair of options, where both are given.
pub open spec fn both(a: Option<Seq<char>>, b: Option<Seq<char>>) -> Option<(Seq<char>, Seq<char>)> {
    if a is Some && b is Some {
        Some((a->Some_0, b->Some_0))
    } else {
        None
    }
}

/// How a configuration connects. TLS is on exactly when a CA certificate or
/// a client certificate is configured, and then carries the CA, the client
/// certificate with its key (where both are given) and the server name as
/// configured. Credentials go along exactly when both user name and password
/// are given, with or without TLS. Endpoints and timeouts are the configured ones.
pub open spec fn connect_settings_spec(c: ConfigModel) -> SettingsModel {
    SettingsModel {
        endpoints: c.endpoints,
        connect_timeout_secs: c.connect_timeout_secs,
        request_timeout_secs: c.request_timeout_secs,
        tls: if uses_tls_spec(c) {
            Some(TlsModel {
                ca_cert_path: c.ca_cert_path,
                identity_paths: both(c.client_cert_path, c.client_key_path),
                domain: c.servername,
            })
        } else {
            None
        },
        credentials: both(c.username, c.password),
    }
}

fn both_given(a: &Option<String>, b: &Option<String>) -> (r: Option<(String, String)>)
    ensures
        pair_view(r) == both(opt_view(*a), opt_view(*b)),
{
    match (a, b) {
        (Some(x), Some(y)) => Some((x.clone(), y.clone())),
        _ => None,
    }
}

/// Decides how to connect for a configuration.
pub fn connect_settings(config: &EtcdConfig) -> (r: ConnectSettings)
    ensures
        r@ == connect_settings_spec(config@),
{
    let mut endpoints: Vec<String> = Vec::new();
    let mut i: usize = 0;
    while i < config.endpoints.len()
        invariant
            i <= config.endpoints.len(),
            endpoints@.len() == i,
            forall|j: int| 0 <= j < i ==> (#[trigger] endpoints@[j])@ == config.endpoints@[j]@,
        decreases config.endpoints.len() - i,
    {
        endpoints.push(config.endpoints[i].clone());
        i += 1;
    }
    assert(endpoints@.map_values(|s: String| s@) =~= config.endpoints@.map_values(|s: String| s@));
    let tls = if uses_tls(config) {
        Some(TlsSettings {
            ca_cert_path: config.ca_cert_path.clone(),
            identity_paths: both_given(&config.client_cert_path, &config.client_key_path),
            domain: config.servername.clone(),
        })
    } else {
        None
    };
    ConnectSettings {
        endpoints,
        connect_timeout_secs: config.connect_timeout_secs,
        request_timeout_secs: config.request_timeout_secs,
        tls,
        credentials: both_given(&config.username, &config.password),
    }
}

/// The store's connection options for the settings, given the PEM contents
/// of the files that `settings.tls` names. Each field becomes one builder
/// call: the request timeout, TLS with the CA, identity and server name where
/// present, then the credentials; nothing is decided here.
pub fn connect_options(
    settings: &ConnectSettings,
    ca_pem: Option<Vec<u8>>,
    identity_pem: Option<(Vec<u8>, Vec<u8>)>,
) -> ConnectOptions {
    let mut o = connect_options_new();
    o = connect_with_timeout(o, settings.request_timeout_secs);
    if let Some(tls) = &settings.tls {
        let mut t = tls_new();
        if let Some(pem) = ca_pem {
            t = tls_with_ca(t, pem);
        }
        if let Some((cert_pem, key_pem)) = identity_pem {
            t = tls_with_identity(t, cert_pem, key_pem);
        }
        if let Some(domain) = &tls.domain {
            t = tls_with_domain(t, domain.clone());
        }
        o = connect_with_tls(o, t);
    }
    if let Some((user, pass)) = &settings.credentials {
        o = connect_with_user(o, user.clone(), pass.clone());
    }
    o
}

} // verus!
