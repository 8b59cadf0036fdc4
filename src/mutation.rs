use vstd::prelude::*;
use crate::error::{EtcdFdwError, ErrorModel};

verus! {

/// A row as the host hands it over: each column's name with its text, `None` for NULL.
pub type RowCells = Vec<(String, Option<String>)>;

/// The number of quote characters that `s` starts with.
pub open spec fn leading_quotes(s: Seq<char>) -> nat
    decreases s.len(),
{
    if s.len() > 0 && s[0] == '\'' {
        1 + leading_quotes(s.drop_first())
    } else {
        0
    }
}

/// The number of quote characters that `s` ends with.
pub open spec fn trailing_quotes(s: Seq<char>) -> nat
    decreases s.len(),
{
    if s.len() > 0 && s.last() == '\'' {
        1 + trailing_quotes(s.drop_last())
    } else {
        0
    }
}

/// `s` without the quote characters around it.
pub open spec fn trim_quotes_spec(s: Seq<char>) -> Seq<char> {
    if leading_quotes(s) == s.len() {
        Seq::empty()
    } else {
        s.subrange(leading_quotes(s) as int, s.len() - trailing_quotes(s))
    }
}

/// Removes the quote characters that surround a literal as the host renders it.
pub fn trim_quotes(s: &str) -> (r: String)
    ensures
        r@ == trim_quotes_spec(s@),
{
    let n = s.unicode_len();
    let mut lo: usize = 0;
    assert(s@.subrange(0, n as int) =~= s@);
    while lo < n && s.get_char(lo) == '\''
        invariant
            n == s@.len(),
            lo <= n,
            leading_quotes(s@) == lo + leading_quotes(s@.subrange(lo as int, n as int)),
        decreases n - lo,
    {
        let ghost t = s@.subrange(lo as int, n as int);
        assert(t.drop_first() =~= s@.subrange(lo + 1, n as int));
        lo += 1;
    }
    assert(leading_quotes(s@.subrange(lo as int, n as int)) == 0);
    if lo == n {
        return String::new();
    }
    let mut hi: usize = n;
    while hi > lo && s.get_char(hi - 1) == '\''
        invariant
            n == s@.len(),
            lo < n,
            s@[lo as int] != '\'',
            lo < hi <= n,
            trailing_quotes(s@) == (n - hi) + trailing_quotes(s@.subrange(0, hi as int)),
        decreases hi,
    {
        let ghost t = s@.subrange(0, hi as int);
        assert(t.drop_last() =~= s@.subrange(0, hi - 1));
        hi -= 1;
    }
    assert(trailing_quotes(s@.subrange(0, hi as int)) == 0);
    s.substring_char(lo, hi).to_owned()
}

/// The text of the last column called `name`: `None` where there is no such
/// column, `Some(None)` where it is NULL.
pub open spec fn last_cell(row: Seq<(String, Option<String>)>, name: Seq<char>) -> Option<Option<Seq<char>>>
    decreases row.len(),
{
    if row.len() == 0 {
        None
    } else if row.last().0@ == name {
        Some(match row.last().1 {
            Some(t) => Some(t@),
            None => None,
        })
    } else {
        last_cell(row.drop_last(), name)
    }
}

/// The text of column `name` with its quotes trimmed, or the missing column
/// (absent or NULL) as an error.
pub open spec fn column_spec(row: Seq<(String, Option<String>)>, name: Seq<char>) -> Result<Seq<char>, ErrorModel> {
    match last_cell(row, name) {
        Some(Some(t)) => Ok(trim_quotes_spec(t)),
        _ => Err(ErrorModel::MissingColumn(name)),
    }
}

/// Reads the column `name` of a row, its quotes trimmed.
pub fn column_text(row: &RowCells, name: &str) -> (r: Result<String, EtcdFdwError>)
    ensures
        match r {
            Ok(t) => column_spec(row@, name@) == Ok::<Seq<char>, ErrorModel>(t@),
            Err(e) => column_spec(row@, name@) == Err::<Seq<char>, ErrorModel>(e@),
        },
{
    let wanted = name.to_owned();
    let mut i: usize = row.len();
    assert(row@.subrange(0, i as int) =~= row@);
    while i > 0
        invariant
            i <= row.len(),
            wanted@ == name@,
            last_cell(row@, name@) == last_cell(row@.subrange(0, i as int), name@),
        decreases i,
    {
        let ghost t = row@.subrange(0, i as int);
        assert(t.drop_last() =~= row@.subrange(0, i - 1));
        if row[i - 1].0 == wanted {
            return match &row[i - 1].1 {
                Some(t) => Ok(trim_quotes(t.as_str())),
                None => Err(EtcdFdwError::MissingColumn(wanted)),
            };
        }
        i -= 1;
    }
    Err(EtcdFdwError::MissingColumn(wanted))
}

/// The key and value that an insert of `row` writes, or the first missing column.
pub open spec fn insert_spec(row: Seq<(String, Option<String>)>) -> Result<(Seq<char>, Seq<char>), ErrorModel> {
    let k = column_spec(row, "key"@);
    let v = column_spec(row, "value"@);
    if k is Err {
        Err(k->Err_0)
    } else if v is Err {
        Err(v->Err_0)
    } else {
        Ok((k->Ok_0, v->Ok_0))
    }
}

/// Takes the key and value of a row to insert, before anything is sent.
pub fn prepare_insert(row: &RowCells) -> (r: Result<(String, String), EtcdFdwError>)
    ensures
        match r {
            Ok((k, v)) => insert_spec(row@) == Ok::<(Seq<char>, Seq<char>), ErrorModel>((k@, v@)),
            Err(e) => insert_spec(row@) == Err::<(Seq<char>, Seq<char>), ErrorModel>(e@),
        },
{
    let key = column_text(row, "key")?;
    let value = column_text(row, "value")?;
    Ok((key, value))
}

/// Takes the key (from the row identifier) and the new value of an update,
/// before anything is sent.
pub fn prepare_update(rowid: &str, new_row: &RowCells) -> (r: Result<(String, String), EtcdFdwError>)
    ensures
        match r {
            Ok((k, v)) => k@ == trim_quotes_spec(rowid@)
                && column_spec(new_row@, "value"@) == Ok::<Seq<char>, ErrorModel>(v@),
            Err(e) => column_spec(new_row@, "value"@) == Err::<Seq<char>, ErrorModel>(e@),
        },
{
    let value = column_text(new_row, "value")?;
    Ok((trim_quotes(rowid), value))
}

/// Whether the key that a point lookup returned first is `key` itself.
pub open spec fn lookup_found(first: Option<Seq<u8>>, key: Seq<char>) -> bool {
    first == Some(vstd::utf8::encode_utf8(key))
}

fn same_bytes(a: &[u8], b: &[u8]) -> (r: bool)
    ensures
        r == (a@ == b@),
{
    if a.len() != b.len() {
        return false;
    }
    let mut i: usize = 0;
    while i < a.len()
        invariant
            a@.len() == b@.len(),
            i <= a@.len(),
            forall|j: int| 0 <= j < i ==> a@[j] == b@[j],
        decreases a.len() - i,
    {
        if a[i] != b[i] {
            return false;
        }
        i += 1;
    }
    assert(a@ =~= b@);
    true
}

fn found(first: &Option<Vec<u8>>, key: &str) -> (r: bool)
    ensures
        r == lookup_found(match first {
            Some(b) => Some(b@),
            None => None,
        }, key@),
{
    match first {
        Some(b) => same_bytes(b.as_slice(), key.as_bytes()),
        None => false,
    }
}

pub open spec fn first_view(first: Option<Vec<u8>>) -> Option<Seq<u8>> {
    match first {
        Some(b) => Some(b@),
        None => None,
    }
}

/// Decides an insert of `key` from the point lookup made before it: the
/// first key returned, or the store's error message. `Ok` means the write may go.
pub fn check_insert(key: &str, lookup: Result<Option<Vec<u8>>, String>) -> (r: Result<(), EtcdFdwError>)
    ensures
        match lookup {
            Err(m) => r matches Err(e) && e@ == ErrorModel::FetchError(m@),
            Ok(first) => if lookup_found(first_view(first), key@) {
                r matches Err(e) && e@ == ErrorModel::KeyAlreadyExists(key@)
            } else {
                r is Ok
            },
        },
{
    match lookup {
        Err(m) => Err(EtcdFdwError::FetchError(m)),
        Ok(first) => {
            if found(&first, key) {
                Err(EtcdFdwError::KeyAlreadyExists(key.to_owned()))
            } else {
                Ok(())
            }
        },
    }
}

/// Decides an update or a delete of `key` from the point lookup made before
/// it. `Ok` means the write may go: the key exists.
pub fn check_exists(key: &str, lookup: Result<Option<Vec<u8>>, String>) -> (r: Result<(), EtcdFdwError>)
    ensures
        match lookup {
            Err(m) => r matches Err(e) && e@ == ErrorModel::FetchError(m@),
            Ok(first) => if lookup_found(first_view(first), key@) {
                r is Ok
            } else {
                r matches Err(e) && e@ == ErrorModel::KeyDoesntExist(key@)
            },
        },
{
    match lookup {
        Err(m) => Err(EtcdFdwError::FetchError(m)),
        Ok(first) => {
            if found(&first, key) {
                Ok(())
            } else {
                Err(EtcdFdwError::KeyDoesntExist(key.to_owned()))
            }
        },
    }
}

/// The outcome of a write, from the store's answer to it.
pub fn finish_put(answer: Result<(), String>) -> (r: Result<(), EtcdFdwError>)
    ensures
        match answer {
            Ok(_) => r is Ok,
            Err(m) => r matches Err(e) && e@ == ErrorModel::UpdateError(m@),
        },
{
    match answer {
        Ok(_) => Ok(()),
        Err(m) => Err(EtcdFdwError::UpdateError(m)),
    }
}

/// The outcome of a delete, from the store's answer to it: the number of
/// keys deleted, or its error message. None deleted after the key was seen
/// is reported, never taken for success.
pub fn finish_delete(answer: Result<i64, String>) -> (r: Result<(), EtcdFdwError>)
    ensures
        match answer {
            Ok(n) => if n != 0 {
                r is Ok
            } else {
                r matches Err(e) && e@ == ErrorModel::UpdateError(
                    "Deletion seemingly successful, but deleted count is 0"@,
                )
            },
            Err(m) => r matches Err(e) && e@ == ErrorModel::UpdateError(m@),
        },
{
    match answer {
        Ok(n) => {
            if n == 0 {
                Err(EtcdFdwError::UpdateError("Deletion seemingly successful, but deleted count is 0".to_owned()))
            } else {
                Ok(())
            }
        },
        Err(m) => Err(EtcdFdwError::UpdateError(m)),
    }
}

} // verus!
