use vstd::prelude::*;
use std::collections::HashMap;

verus! {

broadcast use vstd::std_specs::hash::group_hash_axioms;

/// The name reported for a syscall identifier that the catalog lacks.
pub open spec fn unknown_name() -> Seq<char> {
    "unknown"@
}

/// The name under which a syscall is reported: its catalog name, or the
/// placeholder when the catalog lacks it.
pub open spec fn display_name_of(m: Map<u64, Seq<char>>, id: u64) -> Seq<char> {
    if m.contains_key(id) {
        m[id]
    } else {
        unknown_name()
    }
}

/// The mapping that a list of (identifier, name) rows describes; where an
/// identifier occurs more than once, its last row counts.
pub open spec fn entries_map(rows: Seq<(u64, Seq<char>)>) -> Map<u64, Seq<char>>
    decreases rows.len(),
{
    if rows.len() == 0 {
        Map::empty()
    } else {
        entries_map(rows.drop_last()).insert(rows.last().0, rows.last().1)
    }
}

/// The rows that a list of entries holds, names taken as text.
pub open spec fn entry_views(entries: Seq<(u64, String)>) -> Seq<(u64, Seq<char>)> {
    entries.map_values(|e: (u64, String)| (e.0, e.1@))
}

/// Read-only mapping from a syscall identifier to its display name.
pub struct SyscallCatalog {
    names: HashMap<u64, String>,
}

impl View for SyscallCatalog {
    type V = Map<u64, Seq<char>>;

    closed spec fn view(&self) -> Map<u64, Seq<char>> {
        Map::new(|k: u64| self.names@.contains_key(k), |k: u64| self.names@[k]@)
    }
}

impl SyscallCatalog {
    /// A catalog with no entries.
    pub fn new() -> (r: SyscallCatalog)
        ensures
            r@ == Map::<u64, Seq<char>>::empty(),
    {
        let r = SyscallCatalog { names: HashMap::new() };
        assert(r@ =~= Map::<u64, Seq<char>>::empty());
        r
    }

    /// Records `name` for `id`, replacing an earlier name.
    pub fn insert(&mut self, id: u64, name: String)
        ensures
            final(self)@ == old(self)@.insert(id, name@),
    {
        self.names.insert(id, name);
        assert(final(self)@ =~= old(self)@.insert(id, name@));
    }

    /// Builds the catalog of the given entries, later entries winning.
    pub fn from_entries(entries: &Vec<(u64, String)>) -> (r: SyscallCatalog)
        ensures
            r@ == entries_map(entry_views(entries@)),
    {
        let mut r = SyscallCatalog::new();
        let mut i: usize = 0;
        while i < entries.len()
            invariant
                i <= entries.len(),
                r@ == entries_map(entry_views(entries@.take(i as int))),
            decreases entries.len() - i,
        {
            let ghost before = entries@.take(i as int);
            r.insert(entries[i].0, entries[i].1.clone());
            i = i + 1;
            assert(entry_views(entries@.take(i as int)).drop_last() =~= entry_views(before));
        }
        assert(entries@.take(entries.len() as int) =~= entries@);
        r
    }

    /// How many identifiers the catalog names.
    pub fn len(&self) -> (r: usize)
        ensures
            r == self@.len(),
    {
        proof {
            assert(self@.dom() =~= self.names@.dom());
        }
        self.names.len()
    }

    /// The name of `id`, if the catalog has one.
    pub fn lookup(&self, id: u64) -> (r: Option<String>)
        ensures
            r is Some <==> self@.contains_key(id),
            r matches Some(s) ==> s@ == self@[id],
    {
        match self.names.get(&id) {
            Some(s) => Some(s.clone()),
            None => None,
        }
    }

    /// The name under which `id` is reported; an identifier the catalog lacks
    /// gets a placeholder rather than ending the trace.
    pub fn display_name(&self, id: u64) -> (r: String)
        ensures
            r@ == display_name_of(self@, id),
    {
        match self.names.get(&id) {
            Some(s) => s.clone(),
            None => String::from_str("unknown"),
        }
    }
}

#[verifier::external_type_specification]
#[verifier::external_body]
pub struct ExJsonValue(serde_json::Value);

/// A JSON document as plain values. A number is kept as the u64 it denotes,
/// or `None` where it denotes none (a negative or fractional number); an
/// object keeps its members in the order serde_json holds them, each key once.
#[derive(Debug)]
pub enum Json {
    Null,
    Bool(bool),
    Number(Option<u64>),
    Str(String),
    Array(Vec<Json>),
    Object(Vec<(String, Json)>),
}

/// Whether serde_json accepts the text as one JSON document.
pub uninterp spec fn json_parses(text: Seq<char>) -> bool;

/// The document that serde_json reads from the text.
pub uninterp spec fn json_doc(text: Seq<char>) -> Json;

/// Relies on serde_json::from_str into a `Value`: whether it succeeds, and
/// the document it gives, depend on the text alone.
#[verifier::external_body]
fn parse_json(text: &str) -> (r: Option<Json>)
    ensures
        r is Some <==> json_parses(text@),
        r matches Some(j) ==> j == json_doc(text@),
{
    serde_json::from_str::<serde_json::Value>(text).ok().map(json_from_value)
}

/// Relies on serde_json::Value's variants and serde_json::Number::as_u64:
/// converts a parsed value one for one into the library's document type.
#[verifier::external_body]
fn json_from_value(v: serde_json::Value) -> (r: Json) {
    match v {
        serde_json::Value::Null => Json::Null,
        serde_json::Value::Bool(b) => Json::Bool(b),
        serde_json::Value::Number(n) => Json::Number(n.as_u64()),
        serde_json::Value::String(s) => Json::Str(s),
        serde_json::Value::Array(a) => Json::Array(a.into_iter().map(json_from_value).collect()),
        serde_json::Value::Object(m) => Json::Object(
            m.into_iter().map(|(k, x)| (k, json_from_value(x))).collect(),
        ),
    }
}

/// Why a syscall table document could not be loaded.
#[derive(Debug, Clone, Copy, PartialEq, Eq)]
pub enum CatalogError {
    /// The text is not JSON.
    InvalidJson,
    /// The document is not an object with a `data` array.
    MissingData,
    /// The row at this index is not an array that starts with an integer
    /// identifier and a string name.
    MalformedEntry(usize),
}

/// The first member of an object under `key`.
pub open spec fn member_of(fields: Seq<(String, Json)>, key: Seq<char>) -> Option<Json>
    decreases fields.len(),
{
    if fields.len() == 0 {
        None
    } else if fields[0].0@ == key {
        Some(fields[0].1)
    } else {
        member_of(fields.drop_first(), key)
    }
}

/// The (identifier, name) pair at the head of a row, if the row is an array
/// that starts with a u64 and a string.
pub open spec fn row_of(row: Json) -> Option<(u64, Seq<char>)> {
    match row {
        Json::Array(cols) => if cols@.len() >= 2 {
            match (cols@[0], cols@[1]) {
                (Json::Number(Some(id)), Json::Str(name)) => Some((id, name@)),
                _ => None,
            }
        } else {
            None
        },
        _ => None,
    }
}

/// The pairs of all rows, or the error of the first row that has none.
pub open spec fn rows_table(rows: Seq<Json>) -> Result<Seq<(u64, Seq<char>)>, CatalogError>
    decreases rows.len(),
{
    if rows.len() == 0 {
        Ok(Seq::empty())
    } else {
        match rows_table(rows.drop_last()) {
            Err(e) => Err(e),
            Ok(t) => match row_of(rows.last()) {
                Some(p) => Ok(t.push(p)),
                None => Err(CatalogError::MalformedEntry((rows.len() - 1) as usize)),
            },
        }
    }
}

/// The rows of a syscall table document: an object whose `data` member is an
/// array of rows `[id, name, ...]`.
pub open spec fn table_of(doc: Json) -> Result<Seq<(u64, Seq<char>)>, CatalogError> {
    match doc {
        Json::Object(fields) => match member_of(fields@, "data"@) {
            Some(Json::Array(rows)) => rows_table(rows@),
            _ => Err(CatalogError::MissingData),
        },
        _ => Err(CatalogError::MissingData),
    }
}

/// Whether a load result is the catalog of the rows, or the same error.
pub open spec fn loads_as(
    r: Result<SyscallCatalog, CatalogError>,
    t: Result<Seq<(u64, Seq<char>)>, CatalogError>,
) -> bool {
    match (r, t) {
        (Ok(c), Ok(rows)) => c@ == entries_map(rows),
        (Err(e), Err(f)) => e == f,
        _ => false,
    }
}

proof fn lemma_rows_table_error_stays(rows: Seq<Json>, j: int)
    requires
        0 <= j <= rows.len(),
        rows_table(rows.take(j)) is Err,
    ensures
        rows_table(rows) == rows_table(rows.take(j)),
    decreases rows.len() - j,
{
    if j < rows.len() {
        assert(rows.take(j + 1).drop_last() =~= rows.take(j));
        lemma_rows_table_error_stays(rows, j + 1);
    } else {
        assert(rows.take(j) =~= rows);
    }
}

fn find_member<'a>(fields: &'a Vec<(String, Json)>, key: &String) -> (r: Option<&'a Json>)
    ensures
        r is None <==> member_of(fields@, key@) is None,
        r matches Some(j) ==> member_of(fields@, key@) == Some(*j),
{
    let mut i: usize = 0;
    assert(fields@.subrange(0, fields@.len() as int) =~= fields@);
    while i < fields.len()
        invariant
            i <= fields.len(),
            member_of(fields@, key@) == member_of(fields@.subrange(i as int, fields@.len() as int), key@),
        decreases fields.len() - i,
    {
        let ghost rest = fields@.subrange(i as int, fields@.len() as int);
        assert(rest[0] == fields@[i as int]);
        if fields[i].0 == *key {
            return Some(&fields[i].1);
        }
        assert(rest.drop_first() =~= fields@.subrange(i + 1, fields@.len() as int));
        i = i + 1;
    }
    assert(fields@.subrange(i as int, fields@.len() as int).len() == 0);
    None
}

fn row_entry(row: &Json) -> (r: Option<(u64, String)>)
    ensures
        r is None <==> row_of(*row) is None,
        r matches Some(e) ==> row_of(*row) == Some((e.0, e.1@)),
{
    match row {
        Json::Array(cols) => {
            if cols.len() < 2 {
                return None;
            }
            match &cols[0] {
                Json::Number(Some(id)) => match &cols[1] {
                    Json::Str(name) => Some((*id, name.clone())),
                    _ => None,
                },
                _ => None,
            }
        },
        _ => None,
    }
}

/// Loads the syscall catalog from its JSON document, an object whose `data`
/// member is an array of rows `[id, name, ...]`: text that is not JSON gives
/// `InvalidJson`, a document without a `data` array `MissingData`, and the
/// first row without an identifier and a name `MalformedEntry`; otherwise the
/// catalog holds exactly the rows, a later row winning over an earlier one.
pub fn fetch_syscall_table(json: &str) -> (r: Result<SyscallCatalog, CatalogError>)
    ensures
        loads_as(
            r,
            if json_parses(json@) {
                table_of(json_doc(json@))
            } else {
                Err(CatalogError::InvalidJson)
            },
        ),
{
    let doc = match parse_json(json) {
        Some(d) => d,
        None => return Err(CatalogError::InvalidJson),
    };
    let fields = match &doc {
        Json::Object(f) => f,
        _ => return Err(CatalogError::MissingData),
    };
    let key = String::from_str("data");
    let rows = match find_member(fields, &key) {
        Some(Json::Array(a)) => a,
        _ => return Err(CatalogError::MissingData),
    };
    assert(table_of(json_doc(json@)) == rows_table(rows@));
    let mut entries: Vec<(u64, String)> = Vec::new();
    let mut i: usize = 0;
    assert(rows@.take(0) =~= Seq::<Json>::empty());
    assert(entry_views(entries@) =~= Seq::<(u64, Seq<char>)>::empty());
    while i < rows.len()
        invariant
            i <= rows.len(),
            json_parses(json@),
            table_of(json_doc(json@)) == rows_table(rows@),
            rows_table(rows@.take(i as int)) == Ok::<Seq<(u64, Seq<char>)>, CatalogError>(
                entry_views(entries@),
            ),
        decreases rows.len() - i,
    {
        assert(rows@.take(i + 1).drop_last() =~= rows@.take(i as int));
        assert(rows@.take(i + 1).last() == rows@[i as int]);
        let ghost before = entries@;
        match row_entry(&rows[i]) {
            Some(e) => {
                entries.push(e);
                assert(entry_views(entries@) =~= entry_views(before).push((e.0, e.1@)));
            },
            None => {
                proof {
                    assert(row_of(rows@[i as int]) is None);
                    assert(rows_table(rows@.take(i + 1)) == Err::<Seq<(u64, Seq<char>)>, CatalogError>(
                        CatalogError::MalformedEntry(i),
                    ));
                    lemma_rows_table_error_stays(rows@, i + 1);
                }
                return Err(CatalogError::MalformedEntry(i));
            },
        }
        i = i + 1;
    }
    assert(rows@.take(rows.len() as int) =~= rows@);
    Ok(SyscallCatalog::from_entries(&entries))
}

} // verus!
