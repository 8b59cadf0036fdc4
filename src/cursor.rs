use vstd::prelude::*;
use vstd::utf8::{encode_utf8, valid_utf8};
use crate::error::{EtcdFdwError, ErrorModel};
use crate::plan::ScanPlan;

verus! {

/// A key and a value as the store returns them, in bytes.
pub type RemoteRow = (Vec<u8>, Vec<u8>);

/// One output row: each column holds text only where it was requested.
pub struct Row {
    pub key: Option<String>,
    pub value: Option<String>,
}

/// The rows of one scan, fetched at once and handed out front first.
pub struct ScanCursor {
    rows: Vec<RemoteRow>,
    fetch_key: bool,
    fetch_value: bool,
}

pub ghost struct CursorModel {
    pub rows: Seq<(Seq<u8>, Seq<u8>)>,
    pub fetch_key: bool,
    pub fetch_value: bool,
}

pub open spec fn remote_row_view(r: RemoteRow) -> (Seq<u8>, Seq<u8>) {
    (r.0@, r.1@)
}

impl View for ScanCursor {
    type V = CursorModel;

    closed spec fn view(&self) -> CursorModel {
        CursorModel {
            rows: self.rows@.map_values(|r: RemoteRow| remote_row_view(r)),
            fetch_key: self.fetch_key,
            fetch_value: self.fetch_value,
        }
    }
}

/// A cursor with nothing buffered and no column requested.
pub open spec fn closed_cursor() -> CursorModel {
    CursorModel { rows: Seq::empty(), fetch_key: false, fetch_value: false }
}

/// The state that closing leaves: always the closed cursor.
pub open spec fn close_spec(c: CursorModel) -> CursorModel {
    closed_cursor()
}

/// Whether `text` is the UTF-8 text that `bytes` encode.
pub open spec fn decodes_to(bytes: Seq<u8>, text: Seq<char>) -> bool {
    valid_utf8(bytes) && encode_utf8(text) == bytes
}

/// Whether a buffered row can be handed out: its key is text, and so is its
/// value where the value was requested.
pub open spec fn row_readable(c: CursorModel) -> bool {
    let (k, v) = c.rows[0];
    valid_utf8(k) && (c.fetch_value ==> valid_utf8(v))
}

/// Relies on std::str::from_utf8: it accepts exactly the valid UTF-8 slices,
/// and the text it returns has the same bytes.
#[verifier::external_body]
fn decode_text(b: &[u8]) -> (r: Option<String>)
    ensures
        r is Some <==> valid_utf8(b@),
        r matches Some(s) ==> encode_utf8(s@) == b@,
{
    match std::str::from_utf8(b) {
        Ok(s) => Some(s.to_string()),
        Err(_) => None,
    }
}

impl ScanCursor {
    /// A cursor before any scan.
    pub fn new() -> (r: Self)
        ensures
            r@ == closed_cursor(),
    {
        let r = ScanCursor { rows: Vec::new(), fetch_key: false, fetch_value: false };
        assert(r@.rows =~= Seq::<(Seq<u8>, Seq<u8>)>::empty());
        r
    }

    /// The rows still buffered.
    pub fn remaining(&self) -> (r: usize)
        ensures
            r == self@.rows.len(),
    {
        self.rows.len()
    }

    /// Starts a scan under `plan` with what the store returned for it: the
    /// rows, in the store's order, or the store's error message.
    pub fn begin(&mut self, plan: &ScanPlan, fetched: Result<Vec<RemoteRow>, String>) -> (r: Result<(), EtcdFdwError>)
        ensures
            final(self)@.fetch_key == plan.fetch_key,
            final(self)@.fetch_value == plan.fetch_value,
            match fetched {
                Ok(rows) => r is Ok && final(self)@.rows == rows@.map_values(|x: RemoteRow| remote_row_view(x)),
                Err(m) => r matches Err(e) && e@ == ErrorModel::FetchError(m@) && final(self)@.rows == old(self)@.rows,
            },
    {
        self.fetch_key = plan.fetch_key;
        self.fetch_value = plan.fetch_value;
        match fetched {
            Ok(rows) => {
                self.rows = rows;
                Ok(())
            },
            Err(m) => Err(EtcdFdwError::FetchError(m)),
        }
    }

    /// Takes the first buffered row, with its key and (if requested) its
    /// value decoded as text; `None` once the buffer is drained.
    pub fn next(&mut self) -> (r: Result<Option<Row>, EtcdFdwError>)
        ensures
            old(self)@.rows.len() == 0 ==> (r matches Ok(None) && final(self)@ == old(self)@),
            old(self)@.rows.len() > 0 ==> {
                &&& final(self)@ == CursorModel { rows: old(self)@.rows.drop_first(), ..old(self)@ }
                &&& (r is Ok <==> row_readable(old(self)@))
                &&& r matches Ok(x) ==> (x matches Some(row) && {
                    &&& (row.key is Some <==> old(self)@.fetch_key)
                    &&& (row.value is Some <==> old(self)@.fetch_value)
                    &&& row.key matches Some(k) ==> decodes_to(old(self)@.rows[0].0, k@)
                    &&& row.value matches Some(v) ==> decodes_to(old(self)@.rows[0].1, v@)
                })
                &&& r matches Err(e) ==> e@ == ErrorModel::FetchError("Row holds bytes that are not valid UTF-8"@)
            },
    {
        if self.rows.len() == 0 {
            return Ok(None);
        }
        let ghost before = self@;
        let (k, v) = self.rows.remove(0);
        assert(self@.rows =~= before.rows.drop_first());
        let key = match decode_text(k.as_slice()) {
            Some(s) => s,
            None => return Err(EtcdFdwError::FetchError("Row holds bytes that are not valid UTF-8".to_owned())),
        };
        let value = if self.fetch_value {
            match decode_text(v.as_slice()) {
                Some(s) => Some(s),
                None => return Err(EtcdFdwError::FetchError("Row holds bytes that are not valid UTF-8".to_owned())),
            }
        } else {
            None
        };
        Ok(Some(Row { key: if self.fetch_key { Some(key) } else { None }, value }))
    }

    /// Ends the scan: drops what is buffered and forgets the requested columns.
    /// Closing a closed cursor changes nothing.
    pub fn close(&mut self)
        ensures
            final(self)@ == close_spec(old(self)@),
    {
        self.rows = Vec::new();
        self.fetch_key = false;
        self.fetch_value = false;
        assert(self@.rows =~= Seq::<(Seq<u8>, Seq<u8>)>::empty());
    }
}

} // verus!
