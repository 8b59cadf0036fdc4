use vstd::prelude::*;
use crate::config::{
    ConfigModel, DEFAULT_CONNECT_TIMEOUT_SECS, DEFAULT_REQUEST_TIMEOUT_SECS, config_fault, config_spec,
    timeout_spec,
};
use crate::cursor::{CursorModel, close_spec, closed_cursor};
use crate::error::ErrorModel;
use crate::options::lookup;
use crate::plan::{SortRequest, plan_spec, sort_field_spec};
use crate::store::connect_settings_spec;
use crate::validate::{OptionCatalog, has_option, validation_fault};

verus! {

/// Server options without `connstr` never give a configuration: the result
/// is the missing-connection-string error.
pub proof fn lemma_no_connstr_rejected(opts: Seq<(String, String)>)
    requires
        lookup(opts, "connstr"@) is None,
    ensures
        config_spec(opts) == Err::<ConfigModel, ErrorModel>(ErrorModel::NoConnStr),
{
}

/// A configuration without endpoints is refused before any connection.
pub proof fn lemma_no_endpoint_rejected(c: ConfigModel)
    requires
        c.endpoints.len() == 0,
    ensures
        config_fault(c) == Some(ErrorModel::NoConnStr),
{
}

/// A client certificate without its key, or a key without its certificate,
/// is refused with the pairing error, from a configuration and from server options.
pub proof fn lemma_unpaired_cert_rejected(c: ConfigModel, opts: Seq<Option<String>>)
    requires
        c.endpoints.len() > 0,
        c.client_cert_path is Some != c.client_key_path is Some,
        has_option(opts, "connstr"@),
        has_option(opts, "ssl_cert"@) != has_option(opts, "ssl_key"@),
    ensures
        config_fault(c) == Some(ErrorModel::CertKeyMismatch),
        validation_fault(opts, OptionCatalog::ForeignServer) == Some(ErrorModel::CertKeyMismatch),
{
}

/// A user name without its password, or a password without its user name,
/// is refused with the pairing error, from a configuration and from server options.
pub proof fn lemma_unpaired_credentials_rejected(c: ConfigModel, opts: Seq<Option<String>>)
    requires
        c.endpoints.len() > 0,
        c.client_cert_path is Some == c.client_key_path is Some,
        c.username is Some != c.password is Some,
        has_option(opts, "connstr"@),
        has_option(opts, "ssl_cert"@) == has_option(opts, "ssl_key"@),
        has_option(opts, "username"@) != has_option(opts, "password"@),
    ensures
        config_fault(c) == Some(ErrorModel::UserPassMismatch),
        validation_fault(opts, OptionCatalog::ForeignServer) == Some(ErrorModel::UserPassMismatch),
{
}

/// Server options that set a certificate without its key (or the reverse),
/// with a connection string and valid timeouts, are refused with the pairing error.
pub proof fn lemma_unpaired_cert_options_rejected(opts: Seq<(String, String)>)
    requires
        lookup(opts, "connstr"@) is Some,
        timeout_spec(opts, "connect_timeout"@, DEFAULT_CONNECT_TIMEOUT_SECS) is Ok,
        timeout_spec(opts, "request_timeout"@, DEFAULT_REQUEST_TIMEOUT_SECS) is Ok,
        lookup(opts, "ssl_cert"@) is Some != lookup(opts, "ssl_key"@) is Some,
    ensures
        config_spec(opts) == Err::<ConfigModel, ErrorModel>(ErrorModel::CertKeyMismatch),
{
}

/// Server options that set a user name without its password (or the
/// reverse), with a connection string, valid timeouts and a certificate paired
/// with its key, are refused with the pairing error.
pub proof fn lemma_unpaired_credentials_options_rejected(opts: Seq<(String, String)>)
    requires
        lookup(opts, "connstr"@) is Some,
        timeout_spec(opts, "connect_timeout"@, DEFAULT_CONNECT_TIMEOUT_SECS) is Ok,
        timeout_spec(opts, "request_timeout"@, DEFAULT_REQUEST_TIMEOUT_SECS) is Ok,
        lookup(opts, "ssl_cert"@) is Some == lookup(opts, "ssl_key"@) is Some,
        lookup(opts, "username"@) is Some != lookup(opts, "password"@) is Some,
    ensures
        config_spec(opts) == Err::<ConfigModel, ErrorModel>(ErrorModel::UserPassMismatch),
{
}

/// A connection uses TLS exactly when a CA certificate or a client
/// certificate is configured; its TLS then carries the configured CA, the
/// client certificate with its key where both are configured, and the
/// configured server name.
pub proof fn lemma_tls_as_configured(c: ConfigModel)
    ensures
        connect_settings_spec(c).tls is Some <==> (c.ca_cert_path is Some || c.client_cert_path is Some),
        connect_settings_spec(c).tls matches Some(t) ==> {
            &&& t.ca_cert_path == c.ca_cert_path
            &&& t.domain == c.servername
            &&& (t.identity_paths is Some <==> (c.client_cert_path is Some && c.client_key_path is Some))
            &&& t.identity_paths matches Some((cert, key)) ==> c.client_cert_path == Some(cert)
                && c.client_key_path == Some(key)
        },
{
}

/// A connection carries credentials `(u, p)` exactly when the user name is
/// `u` and the password is `p`, whether or not it uses TLS.
pub proof fn lemma_credentials_as_configured(c: ConfigModel, u: Seq<char>, p: Seq<char>)
    ensures
        connect_settings_spec(c).credentials == Some((u, p)) <==> (c.username == Some(u) && c.password == Some(p)),
        connect_settings_spec(c).credentials is None <==> (c.username is None || c.password is None),
{
}

/// A connection goes to the configured endpoints, in their order, with the
/// configured connect and request timeouts.
pub proof fn lemma_endpoints_and_timeouts_as_configured(c: ConfigModel)
    ensures
        connect_settings_spec(c).endpoints == c.endpoints,
        connect_settings_spec(c).connect_timeout_secs == c.connect_timeout_secs,
        connect_settings_spec(c).request_timeout_secs == c.request_timeout_secs,
{
}

/// Planning a scan over a table with both `prefix` and `range_end` fails
/// with the conflict, whatever the columns, sorts and limit.
pub proof fn lemma_prefix_and_range_conflict(
    opts: Seq<(String, String)>,
    columns: Seq<String>,
    sorts: Seq<SortRequest>,
    limit: Option<i64>,
)
    requires
        lookup(opts, "prefix"@) is Some,
        lookup(opts, "range_end"@) is Some,
    ensures
        plan_spec(opts, columns, sorts, limit) == Err::<crate::plan::PlanModel, ErrorModel>(
            ErrorModel::ConflictingPrefixAndRange,
        ),
{
}

/// A table defined with both `prefix` and `key` is refused at validation.
pub proof fn lemma_prefix_and_key_conflict(opts: Seq<Option<String>>)
    requires
        has_option(opts, "rowid_column"@),
        has_option(opts, "prefix"@),
        has_option(opts, "key"@),
        !has_option(opts, "range_end"@),
    ensures
        validation_fault(opts, OptionCatalog::ForeignTable) == Some(ErrorModel::ConflictingPrefixAndKey),
{
}

/// A first sort on a name that is no sort target, in any case, fails the
/// plan with that name.
pub proof fn lemma_unknown_sort_field_rejected(
    opts: Seq<(String, String)>,
    columns: Seq<String>,
    sorts: Seq<SortRequest>,
    limit: Option<i64>,
)
    requires
        sorts.len() > 0,
        sort_field_spec(sorts[0].field@) is None,
        !(lookup(opts, "prefix"@) is Some && lookup(opts, "range_end"@) is Some),
    ensures
        plan_spec(opts, columns, sorts, limit) == Err::<crate::plan::PlanModel, ErrorModel>(
            ErrorModel::InvalidSortField(sorts[0].field@),
        ),
{
}

/// A keys-only scan never fills the value column of a row.
pub proof fn lemma_keys_only_fills_key_alone(
    opts: Seq<(String, String)>,
    columns: Seq<String>,
    sorts: Seq<SortRequest>,
    limit: Option<i64>,
)
    requires
        lookup(opts, "keys_only"@) == Some("true"@),
        plan_spec(opts, columns, sorts, limit) is Ok,
    ensures
        plan_spec(opts, columns, sorts, limit)->Ok_0.keys_only,
        !plan_spec(opts, columns, sorts, limit)->Ok_0.fetch_value,
{
}

/// Closing a cursor twice leaves it as closing it once does.
pub proof fn lemma_close_idempotent(c: CursorModel)
    ensures
        close_spec(close_spec(c)) == close_spec(c),
        close_spec(closed_cursor()) == closed_cursor(),
{
}

} // verus!
