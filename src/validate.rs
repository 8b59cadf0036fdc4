use vstd::prelude::*;
use crate::config::require_pair;
use crate::error::{EtcdFdwError, ErrorModel};

verus! {

/// The catalog that a set of options is being defined in.
#[derive(Clone, Copy, Debug, PartialEq, Eq, Structural)]
pub enum OptionCatalog {
    ForeignServer,
    ForeignTable,
    Other,
}

/// Whether `entry` defines the option `name`, that is starts with `name=`.
pub open spec fn defines(entry: Seq<char>, name: Seq<char>) -> bool {
    entry.len() > name.len() && entry.subrange(0, name.len() as int) == name && entry[name.len() as int] == '='
}

/// Whether some entry of a `name=value` list defines the option `name`.
pub open spec fn has_option(opts: Seq<Option<String>>, name: Seq<char>) -> bool {
    exists|i: int| 0 <= i < opts.len() && #[trigger] opts[i] is Some && defines(opts[i]->Some_0@, name)
}

fn defines_option(entry: &str, name: &str) -> (r: bool)
    ensures
        r == defines(entry@, name@),
{
    let n = name.unicode_len();
    let m = entry.unicode_len();
    if m <= n {
        return false;
    }
    let mut i: usize = 0;
    while i < n
        invariant
            n == name@.len(),
            m == entry@.len(),
            n < m,
            i <= n,
            entry@.subrange(0, i as int) == name@.subrange(0, i as int),
        decreases n - i,
    {
        if entry.get_char(i) != name.get_char(i) {
            assert(entry@.subrange(0, n as int)[i as int] != name@[i as int]);
            return false;
        }
        assert(entry@.subrange(0, i + 1) =~= entry@.subrange(0, i as int).push(entry@[i as int]));
        assert(name@.subrange(0, i + 1) =~= name@.subrange(0, i as int).push(name@[i as int]));
        i += 1;
    }
    assert(name@.subrange(0, n as int) =~= name@);
    entry.get_char(n) == '='
}

/// Whether the `name=value` list defines the option `name`.
pub fn option_given(options: &Vec<Option<String>>, name: &str) -> (r: bool)
    ensures
        r == has_option(options@, name@),
{
    let mut i: usize = 0;
    while i < options.len()
        invariant
            i <= options.len(),
            forall|j: int| 0 <= j < i ==> !(#[trigger] options@[j] is Some && defines(options@[j]->Some_0@, name@)),
        decreases options.len() - i,
    {
        match &options[i] {
            Some(entry) => {
                if defines_option(entry.as_str(), name) {
                    return true;
                }
            },
            None => {},
        }
        i += 1;
    }
    false
}

/// The first fault of a set of options, by the catalog it is defined in.
/// A server needs `connstr`, a client certificate with its key and a user name
/// with its password; a table needs `rowid_column` and takes neither `prefix`
/// with `range_end` nor `prefix` with `key`.
pub open spec fn validation_fault(opts: Seq<Option<String>>, catalog: OptionCatalog) -> Option<ErrorModel> {
    match catalog {
        OptionCatalog::ForeignServer => {
            if !has_option(opts, "connstr"@) {
                Some(ErrorModel::OptionsError("connstr"@))
            } else if has_option(opts, "ssl_cert"@) != has_option(opts, "ssl_key"@) {
                Some(ErrorModel::CertKeyMismatch)
            } else if has_option(opts, "username"@) != has_option(opts, "password"@) {
                Some(ErrorModel::UserPassMismatch)
            } else {
                None
            }
        },
        OptionCatalog::ForeignTable => {
            if !has_option(opts, "rowid_column"@) {
                Some(ErrorModel::OptionsError("rowid_column"@))
            } else if has_option(opts, "prefix"@) && has_option(opts, "range_end"@) {
                Some(ErrorModel::ConflictingPrefixAndRange)
            } else if has_option(opts, "prefix"@) && has_option(opts, "key"@) {
                Some(ErrorModel::ConflictingPrefixAndKey)
            } else {
                None
            }
        },
        OptionCatalog::Other => None,
    }
}

/// Checks the options of a server or a table when it is defined.
pub fn validator(options: &Vec<Option<String>>, catalog: OptionCatalog) -> (r: Result<(), EtcdFdwError>)
    ensures
        match r {
            Ok(_) => validation_fault(options@, catalog) is None,
            Err(e) => validation_fault(options@, catalog) == Some(e@),
        },
{
    match catalog {
        OptionCatalog::ForeignServer => {
            if !option_given(options, "connstr") {
                return Err(EtcdFdwError::OptionsError("connstr".to_owned()));
            }
            let cert_exists = option_given(options, "ssl_cert");
            let key_exists = option_given(options, "ssl_key");
            let username_exists = option_given(options, "username");
            let password_exists = option_given(options, "password");
            require_pair(cert_exists, key_exists, EtcdFdwError::CertKeyMismatch)?;
            require_pair(username_exists, password_exists, EtcdFdwError::UserPassMismatch)?;
        },
        OptionCatalog::ForeignTable => {
            if !option_given(options, "rowid_column") {
                return Err(EtcdFdwError::OptionsError("rowid_column".to_owned()));
            }
            let prefix_exists = option_given(options, "prefix");
            let range_exists = option_given(options, "range_end");
            let key_exists = option_given(options, "key");
            if prefix_exists && range_exists {
                return Err(EtcdFdwError::ConflictingPrefixAndRange);
            }
            if prefix_exists && key_exists {
                return Err(EtcdFdwError::ConflictingPrefixAndKey);
            }
        },
        OptionCatalog::Other => {},
    }
    Ok(())
}

} // verus!
