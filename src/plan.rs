use vstd::prelude::*;
use crate::error::{EtcdFdwError, ErrorModel};
use crate::options::{OptionList, get_option, lookup, parse_i64, parse_i64_spec};

verus! {

/// The attribute by which the store can sort a range.
#[derive(Clone, Copy, Debug, PartialEq, Eq, Structural)]
pub enum SortField {
    Key,
    Version,
    Create,
    Mod,
    Value,
}

/// A sort that the host asks for: the column (or target) name, and whether descending.
pub struct SortRequest {
    pub field: String,
    pub reversed: bool,
}

/// Which keys a scan covers, starting from the plan's `key`.
pub enum ScanMode {
    /// Every key that starts with `key`.
    Prefix,
    /// Every key in `[key, end)`.
    Range(String),
    /// The key `key` alone.
    Point,
    /// The whole keyspace.
    All,
}

pub ghost enum ModeModel {
    Prefix,
    Range(Seq<char>),
    Point,
    All,
}

/// The store query that a scan issues.
pub struct ScanPlan {
    pub key: String,
    pub mode: ScanMode,
    pub limit: Option<i64>,
    pub keys_only: bool,
    /// The past revision to read at, always positive; `None` reads the latest.
    pub revision: Option<i64>,
    pub serializable: bool,
    /// The pushed-down sort: the target and whether descending.
    pub sort: Option<(SortField, bool)>,
    pub fetch_key: bool,
    pub fetch_value: bool,
}

pub ghost struct PlanModel {
    pub key: Seq<char>,
    pub mode: ModeModel,
    pub limit: Option<i64>,
    pub keys_only: bool,
    pub revision: Option<i64>,
    pub serializable: bool,
    pub sort: Option<(SortField, bool)>,
    pub fetch_key: bool,
    pub fetch_value: bool,
}

impl View for ScanPlan {
    type V = PlanModel;

    open spec fn view(&self) -> PlanModel {
        PlanModel {
            key: self.key@,
            mode: match self.mode {
                ScanMode::Prefix => ModeModel::Prefix,
                ScanMode::Range(end) => ModeModel::Range(end@),
                ScanMode::Point => ModeModel::Point,
                ScanMode::All => ModeModel::All,
            },
            limit: self.limit,
            keys_only: self.keys_only,
            revision: self.revision,
            serializable: self.serializable,
            sort: self.sort,
            fetch_key: self.fetch_key,
            fetch_value: self.fetch_value,
        }
    }
}

pub open spec fn upper_char(c: char) -> char {
    if 'a' <= c && c <= 'z' {
        (((c as u8) - 32) as u8) as char
    } else {
        c
    }
}

/// A string with its ASCII letters in upper case.
pub open spec fn ascii_upper(s: Seq<char>) -> Seq<char> {
    s.map_values(|c: char| upper_char(c))
}

/// The sort target that a name denotes, compared without regard to ASCII case.
pub open spec fn sort_field_spec(name: Seq<char>) -> Option<SortField> {
    let u = ascii_upper(name);
    if u == "KEY"@ {
        Some(SortField::Key)
    } else if u == "VERSION"@ {
        Some(SortField::Version)
    } else if u == "CREATE"@ {
        Some(SortField::Create)
    } else if u == "MOD"@ {
        Some(SortField::Mod)
    } else if u == "VALUE"@ {
        Some(SortField::Value)
    } else {
        None
    }
}

fn upper(c: char) -> (r: char)
    ensures
        r == upper_char(c),
{
    if 'a' <= c && c <= 'z' {
        ((c as u8) - 32) as char
    } else {
        c
    }
}

/// Whether `s`, in upper case, is `target`.
fn equals_upper(s: &str, target: &str) -> (r: bool)
    ensures
        r == (ascii_upper(s@) == target@),
{
    let n = s.unicode_len();
    if n != target.unicode_len() {
        return false;
    }
    let mut i: usize = 0;
    while i < n
        invariant
            n == s@.len(),
            n == target@.len(),
            i <= n,
            forall|j: int| 0 <= j < i ==> upper_char(s@[j]) == #[trigger] target@[j],
        decreases n - i,
    {
        if upper(s.get_char(i)) != target.get_char(i) {
            assert(ascii_upper(s@)[i as int] != target@[i as int]);
            return false;
        }
        i += 1;
    }
    assert(ascii_upper(s@) =~= target@);
    true
}

/// Resolves a sort target from its name.
pub fn sort_field_from_name(name: &str) -> (r: Option<SortField>)
    ensures
        r == sort_field_spec(name@),
{
    if equals_upper(name, "KEY") {
        Some(SortField::Key)
    } else if equals_upper(name, "VERSION") {
        Some(SortField::Version)
    } else if equals_upper(name, "CREATE") {
        Some(SortField::Create)
    } else if equals_upper(name, "MOD") {
        Some(SortField::Mod)
    } else if equals_upper(name, "VALUE") {
        Some(SortField::Value)
    } else {
        None
    }
}

/// Whether `name` is among the requested columns.
pub fn contains_column(columns: &Vec<String>, name: &str) -> (r: bool)
    ensures
        r == exists|i: int| 0 <= i < columns@.len() && (#[trigger] columns@[i])@ == name@,
{
    let wanted = name.to_owned();
    let mut i: usize = 0;
    while i < columns.len()
        invariant
            i <= columns.len(),
            wanted@ == name@,
            forall|j: int| 0 <= j < i ==> (#[trigger] columns@[j])@ != name@,
        decreases columns.len() - i,
    {
        if columns[i] == wanted {
            return true;
        }
        i += 1;
    }
    false
}

pub open spec fn has_column(columns: Seq<String>, name: Seq<char>) -> bool {
    exists|i: int| 0 <= i < columns.len() && (#[trigger] columns[i])@ == name
}

/// The revision that the `revision` option pins a read to: a positive number.
/// Zero, a negative number, text that is no number or no option at all reads the latest.
pub open spec fn revision_spec(opts: Seq<(String, String)>) -> Option<i64> {
    match lookup(opts, "revision"@) {
        Some(v) => match parse_i64_spec(v) {
            Some(n) => if n > 0 { Some(n) } else { None },
            None => None,
        },
        None => None,
    }
}

/// The store query that a scan with these table options, columns, sorts and
/// limit issues, or the fault that prevents it. Prefix wins over range, range
/// over a fixed key; without any of them the whole keyspace is read, from the
/// smallest key `"\0"`. Only the first sort is pushed down. A keys-only
/// scan transfers no values, so it never fills the value column.
pub open spec fn plan_spec(
    opts: Seq<(String, String)>,
    columns: Seq<String>,
    sorts: Seq<SortRequest>,
    limit: Option<i64>,
) -> Result<PlanModel, ErrorModel> {
    let prefix = lookup(opts, "prefix"@);
    let range_end = lookup(opts, "range_end"@);
    let key_start = lookup(opts, "key"@);
    if prefix is Some && range_end is Some {
        Err(ErrorModel::ConflictingPrefixAndRange)
    } else if sorts.len() > 0 && sort_field_spec(sorts[0].field@) is None {
        Err(ErrorModel::InvalidSortField(sorts[0].field@))
    } else {
        Ok(PlanModel {
            key: if prefix is Some {
                prefix->Some_0
            } else if key_start is Some {
                key_start->Some_0
            } else {
                seq!['\0']
            },
            mode: if prefix is Some {
                ModeModel::Prefix
            } else if range_end is Some {
                ModeModel::Range(range_end->Some_0)
            } else if key_start is Some {
                ModeModel::Point
            } else {
                ModeModel::All
            },
            limit,
            keys_only: lookup(opts, "keys_only"@) == Some("true"@),
            revision: revision_spec(opts),
            serializable: lookup(opts, "consistency"@) == Some("s"@),
            sort: if sorts.len() > 0 {
                Some((sort_field_spec(sorts[0].field@)->Some_0, sorts[0].reversed))
            } else {
                None
            },
            fetch_key: has_column(columns, "key"@),
            fetch_value: has_column(columns, "value"@) && lookup(opts, "keys_only"@) != Some("true"@),
        })
    }
}

fn option_equals(options: &OptionList, name: &str, expected: &str) -> (r: bool)
    ensures
        r == (lookup(options@, name@) == Some(expected@)),
{
    match get_option(options, name) {
        Some(v) => v == expected.to_owned(),
        None => false,
    }
}

/// Plans a scan from the table's options, the requested columns, the
/// requested sorts and the row limit.
pub fn plan_scan(
    options: &OptionList,
    columns: &Vec<String>,
    sorts: &Vec<SortRequest>,
    limit: Option<i64>,
) -> (r: Result<ScanPlan, EtcdFdwError>)
    ensures
        match r {
            Ok(p) => plan_spec(options@, columns@, sorts@, limit) == Ok::<PlanModel, ErrorModel>(p@),
            Err(e) => plan_spec(options@, columns@, sorts@, limit) == Err::<PlanModel, ErrorModel>(e@),
        },
{
    let prefix = get_option(options, "prefix");
    let range_end = get_option(options, "range_end");
    let key_start = get_option(options, "key");
    let keys_only = option_equals(options, "keys_only", "true");
    let serializable = option_equals(options, "consistency", "s");
    let revision: Option<i64> = match get_option(options, "revision") {
        Some(v) => match parse_i64(v.as_str()) {
            Some(n) => if n > 0 { Some(n) } else { None },
            None => None,
        },
        None => None,
    };
    if prefix.is_some() && range_end.is_some() {
        return Err(EtcdFdwError::ConflictingPrefixAndRange);
    }
    let sort = if sorts.len() > 0 {
        match sort_field_from_name(sorts[0].field.as_str()) {
            Some(f) => Some((f, sorts[0].reversed)),
            None => return Err(EtcdFdwError::InvalidSortField(sorts[0].field.clone())),
        }
    } else {
        None
    };
    let mode = match (&prefix, &range_end) {
        (Some(_), _) => ScanMode::Prefix,
        (None, Some(end)) => ScanMode::Range(end.clone()),
        (None, None) => if key_start.is_some() { ScanMode::Point } else { ScanMode::All },
    };
    let key = match prefix {
        Some(p) => p,
        None => match key_start {
            Some(k) => k,
            None => {
                let mut s = String::new();
                s.append("\0");
                proof {
                    reveal_strlit("\0");
                }
                assert(s@ =~= seq!['\0']);
                s
            },
        },
    };
    Ok(ScanPlan {
        key,
        mode,
        limit,
        keys_only,
        revision,
        serializable,
        sort,
        fetch_key: contains_column(columns, "key"),
        fetch_value: contains_column(columns, "value") && !keys_only,
    })
}

} // verus!
