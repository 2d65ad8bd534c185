//! What an index does with the documents it is given and the documents it
//! returns: NDJSON intake, paging, projection onto requested fields, the id a
//! hit is reported under, and the details its tasks report.

use vstd::prelude::*;
use vstd::string::*;

use crate::errors::{BridgeError, BridgeErrorCode, BridgeResult};
use crate::json::{
    clone_value, json_model, json_object_model, json_parse, new_object, object_get,
    object_insert, object_value, parse_json, value_text, value_to_string, JsonDocument,
    JsonModel, JsonObject,
};
use crate::task::{opt_texts, TaskDetails};
use crate::text::{decimal, split_lines, text_lines, trim, trimmed, u128_to_decimal, u32_to_decimal};

verus! {

/// Settings to change on an index; a field left `None` is left as it is.
#[derive(Debug, Clone)]
pub struct IndexSettingsUpdate {
    pub primary_key: Option<String>,
    pub searchable_attributes: Option<Vec<String>>,
    pub displayed_attributes: Option<Vec<String>>,
    pub filterable_attributes: Option<Vec<String>>,
    pub sortable_attributes: Option<Vec<String>>,
}

impl Default for IndexSettingsUpdate {
    fn default() -> (s: Self)
        ensures
            s.primary_key is None,
            s.searchable_attributes is None,
            s.displayed_attributes is None,
            s.filterable_attributes is None,
            s.sortable_attributes is None,
    {
        IndexSettingsUpdate {
            primary_key: None,
            searchable_attributes: None,
            displayed_attributes: None,
            filterable_attributes: None,
            sortable_attributes: None,
        }
    }
}

/// Paging and projection of a listing of stored documents.
#[derive(Debug, Clone)]
pub struct GetDocumentsOptions {
    pub offset: Option<u32>,
    pub limit: Option<u32>,
    pub fields: Option<Vec<String>>,
}

impl Default for GetDocumentsOptions {
    fn default() -> (s: Self)
        ensures
            s.offset is None,
            s.limit is None,
            s.fields is None,
    {
        GetDocumentsOptions { offset: None, limit: None, fields: None }
    }
}

/// Paging and projection of search hits.
#[derive(Debug, Clone)]
pub struct SearchOptions {
    pub offset: Option<u32>,
    pub limit: Option<u32>,
    pub attributes_to_retrieve: Option<Vec<String>>,
}

impl Default for SearchOptions {
    fn default() -> (s: Self)
        ensures
            s.offset is None,
            s.limit is None,
            s.attributes_to_retrieve is None,
    {
        SearchOptions { offset: None, limit: None, attributes_to_retrieve: None }
    }
}

/// A page of stored documents, with the window it covers and the total count.
#[derive(Debug, Clone)]
pub struct GetDocumentsResults {
    pub results: Vec<serde_json::Value>,
    pub offset: u32,
    pub limit: u32,
    pub total: u32,
}

/// The number of documents a page holds when no limit is given.
pub open spec fn default_limit() -> nat {
    20
}

/// The offset a request asks for, 0 when it gives none.
pub open spec fn offset_or_default(offset: Option<u32>) -> nat {
    match offset {
        Some(o) => o as nat,
        None => 0,
    }
}

/// The limit a request asks for, [`default_limit`] when it gives none.
pub open spec fn limit_or_default(limit: Option<u32>) -> nat {
    match limit {
        Some(l) => l as nat,
        None => default_limit(),
    }
}

/// A requested offset and limit are used as given, whatever their size;
/// only absent ones fall back to 0 and 20.
pub proof fn law_window_as_requested(o: u32, l: u32)
    ensures
        offset_or_default(Some(o)) == o,
        limit_or_default(Some(l)) == l,
        offset_or_default(None) == 0,
        limit_or_default(None) == 20,
{
}

fn window(offset: Option<u32>, limit: Option<u32>) -> (w: (usize, usize))
    ensures
        w.0 == offset_or_default(offset),
        w.1 == limit_or_default(limit),
        offset matches Some(x) ==> w.0 == x,
        limit matches Some(l) ==> w.1 == l,
        offset is None ==> w.0 == 0,
        limit is None ==> w.1 == 20,
{
    let o: usize = match offset {
        Some(o) => o as usize,
        None => 0,
    };
    let l: usize = match limit {
        Some(l) => l as usize,
        None => 20,
    };
    (o, l)
}

/// The window `(offset, limit)` of a listing of documents: absent options and
/// absent fields fall back to offset 0 and limit 20.
pub fn document_window(options: &Option<GetDocumentsOptions>) -> (w: (usize, usize))
    ensures
        match options {
            Some(o) => w.0 == offset_or_default(o.offset) && w.1 == limit_or_default(o.limit),
            None => w.0 == 0 && w.1 == default_limit(),
        },
        options is Some && options.unwrap().offset is Some ==> w.0 == options.unwrap().offset.unwrap(),
        options is Some && options.unwrap().limit is Some ==> w.1 == options.unwrap().limit.unwrap(),
        options is Some && options.unwrap().offset is None ==> w.0 == 0,
        options is Some && options.unwrap().limit is None ==> w.1 == 20,
{
    match options {
        Some(o) => window(o.offset, o.limit),
        None => window(None, None),
    }
}

/// The window `(offset, limit)` of search hits: absent options and absent
/// fields fall back to offset 0 and limit 20.
pub fn search_window(options: &Option<SearchOptions>) -> (w: (usize, usize))
    ensures
        match options {
            Some(o) => w.0 == offset_or_default(o.offset) && w.1 == limit_or_default(o.limit),
            None => w.0 == 0 && w.1 == default_limit(),
        },
        options is Some && options.unwrap().offset is Some ==> w.0 == options.unwrap().offset.unwrap(),
        options is Some && options.unwrap().limit is Some ==> w.1 == options.unwrap().limit.unwrap(),
        options is Some && options.unwrap().offset is None ==> w.0 == 0,
        options is Some && options.unwrap().limit is None ==> w.1 == 20,
{
    match options {
        Some(o) => window(o.offset, o.limit),
        None => window(None, None),
    }
}

/// The words searched for: an empty query searches for nothing in particular.
pub fn search_query(query: &str) -> (q: Option<String>)
    ensures
        q is None <==> query@.len() == 0,
        q matches Some(s) ==> s@ == query@,
{
    if query.unicode_len() == 0 {
        None
    } else {
        Some(String::from_str(query))
    }
}

/// `n` as a `u32`, or `u32::MAX` when it does not fit.
pub fn saturate_u64_to_u32(n: u64) -> (r: u32)
    ensures
        r == (if n > u32::MAX { u32::MAX as u64 } else { n }),
{
    if n > 0xffff_ffff {
        0xffff_ffff
    } else {
        n as u32
    }
}

/// `n` as a `u32`, or `u32::MAX` when it does not fit.
pub fn saturate_usize_to_u32(n: usize) -> (r: u32)
    ensures
        r == (if n > u32::MAX { u32::MAX as usize } else { n }),
{
    if n > 0xffff_ffff {
        0xffff_ffff
    } else {
        n as u32
    }
}

/// `n` as a `u32`, or `u32::MAX` when it does not fit.
pub fn saturate_u128_to_u32(n: u128) -> (r: u32)
    ensures
        r == (if n > u32::MAX { u32::MAX as u128 } else { n }),
{
    if n > 0xffff_ffff {
        0xffff_ffff
    } else {
        n as u32
    }
}

/// The low 32 bits of `n`, as `n as u32` keeps them.
pub fn truncate_u64_to_u32(n: u64) -> (r: u32)
    ensures
        r == (n as int) % 0x1_0000_0000,
{
    (n % 0x1_0000_0000) as u32
}

/// The low 32 bits of `n`, as `n as u32` keeps them.
pub fn truncate_usize_to_u32(n: usize) -> (r: u32)
    ensures
        r == (n as int) % 0x1_0000_0000,
{
    ((n as u64) % 0x1_0000_0000) as u32
}

/// A page of documents: the window and the total are reported as `u32`,
/// saturating at `u32::MAX`.
pub fn documents_page(results: Vec<serde_json::Value>, offset: usize, limit: usize, total: u64) -> (page: GetDocumentsResults)
    ensures
        page.results@ == results@,
        page.offset == (if offset > u32::MAX { u32::MAX as usize } else { offset }),
        page.limit == (if limit > u32::MAX { u32::MAX as usize } else { limit }),
        page.total == (if total > u32::MAX { u32::MAX as u64 } else { total }),
{
    GetDocumentsResults {
        results,
        offset: saturate_usize_to_u32(offset),
        limit: saturate_usize_to_u32(limit),
        total: saturate_u64_to_u32(total),
    }
}

/// What a document addition reports when it is enqueued: the number of
/// documents received, kept to its low 32 bits.
pub fn documents_received_details(received: usize) -> (d: TaskDetails)
    ensures
        d.received_documents == Some(((received as int) % 0x1_0000_0000) as u32),
        d.indexed_documents is None,
        d.searchable_attributes is None,
{
    TaskDetails {
        received_documents: Some(truncate_usize_to_u32(received)),
        indexed_documents: None,
        searchable_attributes: None,
    }
}

/// What a finished document addition reports: the documents received and the
/// number indexed, kept to its low 32 bits.
pub fn documents_indexed_details(received: u32, indexed: u64) -> (d: TaskDetails)
    ensures
        d.received_documents == Some(received),
        d.indexed_documents == Some((indexed % 0x1_0000_0000) as u32),
        d.searchable_attributes is None,
{
    TaskDetails {
        received_documents: Some(received),
        indexed_documents: Some(truncate_u64_to_u32(indexed)),
        searchable_attributes: None,
    }
}

fn clone_texts(v: &Vec<String>) -> (c: Vec<String>)
    ensures
        c@.map_values(|s: String| s@) == v@.map_values(|s: String| s@),
{
    let mut c: Vec<String> = Vec::new();
    let mut i: usize = 0;
    while i < v.len()
        invariant
            i <= v@.len(),
            c@.len() == i,
            forall|k: int| 0 <= k < i ==> (#[trigger] c@[k])@ == v@[k]@,
        decreases v@.len() - i,
    {
        c.push(v[i].clone());
        i = i + 1;
    }
    assert(c@.map_values(|s: String| s@) =~= v@.map_values(|s: String| s@));
    c
}

/// What a settings update reports: the searchable attributes it sets, if any.
pub fn settings_details(settings: &IndexSettingsUpdate) -> (d: TaskDetails)
    ensures
        d.received_documents is None,
        d.indexed_documents is None,
        opt_texts(d.searchable_attributes) == opt_texts(settings.searchable_attributes),
{
    let searchable_attributes = match &settings.searchable_attributes {
        Some(v) => Some(clone_texts(v)),
        None => None,
    };
    TaskDetails { received_documents: None, indexed_documents: None, searchable_attributes }
}


/// What one NDJSON line holds, once trimmed.
pub enum LineOutcome {
    /// Nothing but white space: the line is skipped.
    Blank,
    /// A JSON object: a document.
    Document(JsonModel),
    /// A JSON value that is not an object.
    NotObject,
    /// Not JSON; the parser's message.
    Invalid(Seq<char>),
}

/// What the line holds.
pub open spec fn line_outcome(line: Seq<char>) -> LineOutcome {
    let t = trimmed(line);
    if t.len() == 0 {
        LineOutcome::Blank
    } else {
        match json_parse(t) {
            Ok(m) => if m is Object { LineOutcome::Document(m) } else { LineOutcome::NotObject },
            Err(msg) => LineOutcome::Invalid(msg),
        }
    }
}

/// Whether a line stops the intake.
pub open spec fn is_bad_line(line: Seq<char>) -> bool {
    line_outcome(line) is NotObject || line_outcome(line) is Invalid
}

/// The first line at or after `i` that stops the intake, if any.
pub open spec fn first_bad_line(lines: Seq<Seq<char>>, i: int) -> Option<int>
    decreases lines.len() - i,
{
    if i < 0 || i >= lines.len() {
        None
    } else if is_bad_line(lines[i]) {
        Some(i)
    } else {
        first_bad_line(lines, i + 1)
    }
}

/// The message for a line that is JSON but not an object.
pub open spec fn not_object_message() -> Seq<char> {
    "each document must be a JSON object"@
}

/// The message the intake stops with at line index `i` (lines are numbered from 1).
pub open spec fn bad_line_message(lines: Seq<Seq<char>>, i: int) -> Seq<char> {
    match line_outcome(lines[i]) {
        LineOutcome::Invalid(msg) => "line "@ + decimal((i + 1) as nat) + ": "@ + msg,
        _ => not_object_message(),
    }
}

/// The documents of the lines, in order.
pub open spec fn documents_of(lines: Seq<Seq<char>>) -> Seq<JsonModel>
    decreases lines.len(),
{
    if lines.len() == 0 {
        Seq::empty()
    } else {
        let before = documents_of(lines.drop_last());
        match line_outcome(lines.last()) {
            LineOutcome::Document(m) => before.push(m),
            _ => before,
        }
    }
}

/// The contents of a list of values.
pub open spec fn models(values: Seq<serde_json::Value>) -> Seq<JsonModel> {
    values.map_values(|v: serde_json::Value| json_model(v))
}

/// Reads newline-delimited JSON: each line, trimmed, is a JSON object, or is
/// blank and skipped. The first line that is not JSON stops the intake with
/// `"line <n>: <parser message>"`, the first that is JSON but not an object
/// with `"each document must be a JSON object"`; both are `InvalidArgument`.
pub fn parse_ndjson_documents(ndjson: &str) -> (r: BridgeResult<Vec<serde_json::Value>>)
    ensures
        r is Ok <==> first_bad_line(text_lines(ndjson@), 0) is None,
        r matches Err(e) ==> e.code == BridgeErrorCode::InvalidArgument && e.message@
            == bad_line_message(text_lines(ndjson@), first_bad_line(text_lines(ndjson@), 0).unwrap()),
        r matches Ok(docs) ==> models(docs@) == documents_of(text_lines(ndjson@)),
{
    let lines = split_lines(ndjson);
    let ghost ls = text_lines(ndjson@);
    let mut docs: Vec<serde_json::Value> = Vec::new();
    let mut i: usize = 0;
    while i < lines.len()
        invariant
            ls == text_lines(ndjson@),
            lines@.len() == ls.len(),
            forall|k: int| 0 <= k < lines@.len() ==> (#[trigger] lines@[k])@ == ls[k],
            i <= ls.len(),
            first_bad_line(ls, 0) == first_bad_line(ls, i as int),
            models(docs@) == documents_of(ls.subrange(0, i as int)),
        decreases ls.len() - i,
    {
        let ghost line = ls[i as int];
        let t = trim(lines[i].as_str());
        assert(ls.subrange(0, i + 1).drop_last() =~= ls.subrange(0, i as int));
        assert(ls.subrange(0, i + 1).last() == line);
        if t.as_str().unicode_len() != 0 {
            match parse_json(t.as_str()) {
                Ok(JsonDocument::Object(m)) => {
                    let v = object_value(m);
                    let ghost before = docs@;
                    docs.push(v);
                    assert(models(docs@) =~= models(before).push(json_model(v)));
                },
                Ok(JsonDocument::Other(_)) => {
                    assert(first_bad_line(ls, i as int) == Some(i as int));
                    return Err(BridgeError {
                        code: BridgeErrorCode::InvalidArgument,
                        message: String::from_str("each document must be a JSON object"),
                    });
                },
                Err(msg) => {
                    assert(first_bad_line(ls, i as int) == Some(i as int));
                    let mut message = String::from_str("line ");
                    let n = u128_to_decimal(i as u128 + 1);
                    message.append(n.as_str());
                    message.append(": ");
                    message.append(msg.as_str());
                    return Err(BridgeError { code: BridgeErrorCode::InvalidArgument, message });
                },
            }
        }
        i = i + 1;
    }
    assert(ls.subrange(0, ls.len() as int) =~= ls);
    Ok(docs)
}

/// The names of the first `n` requested fields.
pub open spec fn requested_fields(fields: Seq<String>, n: int) -> Set<Seq<char>> {
    Set::new(|k: Seq<char>| exists|j: int| 0 <= j < n && #[trigger] fields[j]@ == k)
}

/// Keeps only the requested fields of a document; a requested field the
/// document lacks is left out, and a field requested twice is kept once. The
/// fields come out ordered by name, as the JSON object keeps them. Without a
/// request the document is kept whole.
pub fn filter_attributes(attributes: JsonObject, fields: Option<&[String]>) -> (r: JsonObject)
    ensures
        match fields {
            None => json_object_model(r) == json_object_model(attributes),
            Some(f) => json_object_model(r) == json_object_model(attributes).restrict(
                requested_fields(f@, f@.len() as int),
            ),
        },
{
    match fields {
        None => attributes,
        Some(f) => {
            let ghost all = json_object_model(attributes);
            let mut out = new_object();
            let mut i: usize = 0;
            assert(json_object_model(out) =~= all.restrict(requested_fields(f@, 0)));
            while i < f.len()
                invariant
                    i <= f@.len(),
                    all == json_object_model(attributes),
                    json_object_model(out) == all.restrict(requested_fields(f@, i as int)),
                decreases f@.len() - i,
            {
                let field = &f[i];
                let ghost before = json_object_model(out);
                match object_get(&attributes, field.as_str()) {
                    Some(v) => {
                        let c = clone_value(v);
                        object_insert(&mut out, field.clone(), c);
                    },
                    None => {},
                }
                assert forall|k: Seq<char>| #[trigger] requested_fields(f@, i + 1).contains(k)
                    <==> (requested_fields(f@, i as int).contains(k) || k == f@[i as int]@) by {
                    if requested_fields(f@, i + 1).contains(k) {
                        let j = choose|j: int| 0 <= j < i + 1 && #[trigger] f@[j]@ == k;
                        if j < i {
                            assert(requested_fields(f@, i as int).contains(k));
                        }
                    }
                    if requested_fields(f@, i as int).contains(k) {
                        let j = choose|j: int| 0 <= j < i && #[trigger] f@[j]@ == k;
                        assert(requested_fields(f@, i + 1).contains(k));
                    }
                    if k == f@[i as int]@ {
                        assert(requested_fields(f@, i + 1).contains(k));
                    }
                }
                assert(json_object_model(out) =~= all.restrict(requested_fields(f@, i + 1)));
                i = i + 1;
            }
            out
        },
    }
}

/// The id a hit is reported under: the text of its primary-key field when the
/// index has a primary key and the document has that field, the internal
/// document id in decimal otherwise.
pub open spec fn external_id(
    attributes: Map<Seq<char>, JsonModel>,
    primary_key: Option<Seq<char>>,
    fallback_docid: u32,
) -> Seq<char> {
    match primary_key {
        Some(f) => if attributes.contains_key(f) {
            value_text(attributes[f])
        } else {
            decimal(fallback_docid as nat)
        },
        None => decimal(fallback_docid as nat),
    }
}

/// The view of an optional string slice.
pub open spec fn opt_str(o: Option<&str>) -> Option<Seq<char>> {
    match o {
        Some(s) => Some(s@),
        None => None,
    }
}

/// The id a hit is reported under.
pub fn extract_external_id(attributes: &JsonObject, primary_key: Option<&str>, fallback_docid: u32) -> (id: String)
    ensures
        id@ == external_id(json_object_model(*attributes), opt_str(primary_key), fallback_docid),
{
    match primary_key {
        Some(field) => match object_get(attributes, field) {
            Some(v) => value_to_string(v),
            None => u32_to_decimal(fallback_docid),
        },
        None => u32_to_decimal(fallback_docid),
    }
}


/// What a search hit shows of a stored document: the id it is reported
/// under, taken from the whole document, and the document projected onto the
/// requested fields.
pub fn hit_fields(
    attributes: JsonObject,
    primary_key: Option<&str>,
    fallback_docid: u32,
    attributes_to_retrieve: Option<&[String]>,
) -> (hit: (String, JsonObject))
    ensures
        hit.0@ == external_id(json_object_model(attributes), opt_str(primary_key), fallback_docid),
        match attributes_to_retrieve {
            None => json_object_model(hit.1) == json_object_model(attributes),
            Some(f) => json_object_model(hit.1) == json_object_model(attributes).restrict(
                requested_fields(f@, f@.len() as int),
            ),
        },
{
    let id = extract_external_id(&attributes, primary_key, fallback_docid);
    let projected = filter_attributes(attributes, attributes_to_retrieve);
    (id, projected)
}

} // verus!
