//! The schema file of a warehouse table: a JSON array with one object for
//! each column. The document is put together here; `serde_json` holds it and
//! writes it out.

use vstd::prelude::*;
use vstd::string::*;

use crate::drivers::bigquery_shared::column::{bq_column_views, BqColumn, BqColumnView};
use crate::drivers::bigquery_shared::table::BqTable;
use crate::error::TransferErrorView;

verus! {

/// `serde_json::Value`: a JSON document in memory.
#[verifier::external_type_specification]
#[verifier::external_body]
pub struct ExJsonValue(serde_json::Value);

/// `serde_json::Error`: why a document could not be written.
#[verifier::external_type_specification]
#[verifier::external_body]
pub struct ExJsonError(serde_json::Error);

/// A JSON document made of texts, lists and records, which is all that a
/// schema file holds. A record has no order and each key once.
pub enum JsonDoc {
    Text(Seq<char>),
    List(Seq<JsonDoc>),
    Record(Map<Seq<char>, JsonDoc>),
}

/// The document that a `serde_json::Value` holds.
pub uninterp spec fn json_doc(value: serde_json::Value) -> JsonDoc;

/// The text that `serde_json::to_string_pretty` gives for a value that holds
/// this document, or `None` where it reports a failure. The text depends on
/// the document alone: a record is written with its keys in ascending order,
/// whatever the order in which it was filled.
pub uninterp spec fn pretty_json(doc: JsonDoc) -> Option<Seq<char>>;

/// A key of a record with its value.
pub type JsonEntry = (Seq<char>, JsonDoc);

/// The keys and documents of `entries`, in order.
pub open spec fn entry_docs(entries: Seq<(String, serde_json::Value)>) -> Seq<JsonEntry> {
    Seq::new(entries.len(), |i: int| (entries[i].0@, json_doc(entries[i].1)))
}

/// The documents of `values`, in order.
pub open spec fn value_docs(values: Seq<serde_json::Value>) -> Seq<JsonDoc> {
    Seq::new(values.len(), |i: int| json_doc(values[i]))
}

/// No two of `entries` have the same key.
pub open spec fn distinct_keys(entries: Seq<JsonEntry>) -> bool {
    forall|i: int, j: int|
        0 <= i < j < entries.len() ==> (#[trigger] entries[i]).0 != (#[trigger] entries[j]).0
}

/// The record that holds `entries`.
pub open spec fn record_of(entries: Seq<JsonEntry>) -> Map<Seq<char>, JsonDoc>
    decreases entries.len(),
{
    if entries.len() == 0 {
        Map::empty()
    } else {
        record_of(entries.drop_last()).insert(entries.last().0, entries.last().1)
    }
}

/// `serde_json::Value::String`: the value that holds `text` as a JSON string.
#[verifier::external_body]
fn json_text(text: &str) -> (r: serde_json::Value)
    ensures
        json_doc(r) == JsonDoc::Text(text@),
{
    serde_json::Value::String(text.to_string())
}

/// `serde_json::Value::Array`: the value that holds `items`, in order, as a
/// JSON array.
#[verifier::external_body]
fn json_list(items: Vec<serde_json::Value>) -> (r: serde_json::Value)
    ensures
        json_doc(r) == JsonDoc::List(value_docs(items@)),
{
    serde_json::Value::Array(items)
}

/// `serde_json::Value::Object` over a `serde_json::Map` collected from
/// `entries`: the value that holds each key with its value as a JSON object.
/// The keys differ, so no entry is dropped.
#[verifier::external_body]
fn json_record(entries: Vec<(String, serde_json::Value)>) -> (r: serde_json::Value)
    requires
        distinct_keys(entry_docs(entries@)),
    ensures
        json_doc(r) == JsonDoc::Record(record_of(entry_docs(entries@))),
{
    serde_json::Value::Object(entries.into_iter().collect())
}

/// `serde_json::to_string_pretty` on a value: the text of its document, which
/// depends on the document alone, or the failure that the call reports.
#[verifier::external_body]
fn json_pretty(value: &serde_json::Value) -> (r: Result<String, serde_json::Error>)
    ensures
        match r {
            Ok(text) => pretty_json(json_doc(*value)) == Some(text@),
            Err(_) => pretty_json(json_doc(*value)) is None,
        },
{
    serde_json::to_string_pretty(value)
}

/// The object that declares `column` in a schema file: its mode, its name and
/// its type, its description if it has one, and its fields if it has any.
pub open spec fn column_doc(column: BqColumnView) -> JsonDoc
    decreases column, 0nat,
{
    let required = Map::<Seq<char>, JsonDoc>::empty().insert(
        "mode"@,
        JsonDoc::Text(column.mode.spec_name()),
    ).insert("name"@, JsonDoc::Text(column.name)).insert(
        "type"@,
        JsonDoc::Text(column.ty.spec_name()),
    );
    let described = match column.description {
        Some(description) => required.insert("description"@, JsonDoc::Text(description)),
        None => required,
    };
    if column.fields.len() > 0 {
        JsonDoc::Record(
            described.insert(
                "fields"@,
                JsonDoc::List(column_docs(column.fields, column.fields.len())),
            ),
        )
    } else {
        JsonDoc::Record(described)
    }
}

/// The objects that declare the first `n` of `columns`.
pub open spec fn column_docs(columns: Seq<BqColumnView>, n: nat) -> Seq<JsonDoc>
    decreases columns, n,
{
    if n == 0 || n > columns.len() {
        Seq::empty()
    } else {
        column_docs(columns, (n - 1) as nat).push(column_doc(columns[n - 1]))
    }
}

/// The schema file of a table with these columns: the array of their objects.
pub open spec fn schema_doc(columns: Seq<BqColumnView>) -> JsonDoc {
    JsonDoc::List(column_docs(columns, columns.len()))
}

/// The keys of `entries`, in order.
pub open spec fn entry_keys(entries: Seq<JsonEntry>) -> Seq<Seq<char>> {
    Seq::new(entries.len(), |i: int| entries[i].0)
}

/// Adds the entry `key`, `value` to `entries`, which has no entry for `key`.
fn push_entry(entries: &mut Vec<(String, serde_json::Value)>, key: &str, value: serde_json::Value)
    requires
        distinct_keys(entry_docs(old(entries)@)),
        !entry_keys(entry_docs(old(entries)@)).contains(key@),
    ensures
        distinct_keys(entry_docs(final(entries)@)),
        entry_keys(entry_docs(final(entries)@)) == entry_keys(entry_docs(old(entries)@)).push(key@),
        record_of(entry_docs(final(entries)@)) == record_of(entry_docs(old(entries)@)).insert(
            key@,
            json_doc(value),
        ),
{
    let ghost before = entry_docs(entries@);
    entries.push((String::from_str(key), value));
    proof {
        let after = entry_docs(entries@);
        assert(after.drop_last() =~= before);
        assert forall|i: int, j: int| 0 <= i < j < after.len() implies (#[trigger] after[i]).0 != (
        #[trigger] after[j]).0 by {
            if j < before.len() {
                assert(after[i] == before[i] && after[j] == before[j]);
            } else {
                assert(entry_keys(before)[i] == after[i].0);
            }
        }
    }
}

/// The value that declares `column` in a schema file.
fn column_value(column: &BqColumn) -> (r: serde_json::Value)
    ensures
        json_doc(r) == column_doc(column@),
    decreases column,
{
    proof {
        reveal_strlit("mode");
        reveal_strlit("name");
        reveal_strlit("type");
        reveal_strlit("description");
        reveal_strlit("fields");
        assert("mode"@[0] != "name"@[0]);
        assert("mode"@[0] != "type"@[0]);
        assert("name"@[0] != "type"@[0]);
    }
    let mut entries: Vec<(String, serde_json::Value)> = Vec::new();
    assert(entry_docs(entries@) =~= Seq::empty());
    assert(entry_keys(entry_docs(entries@)) =~= Seq::empty());
    push_entry(&mut entries, "mode", json_text(column.mode().name()));
    assert(entry_keys(entry_docs(entries@)) =~= seq!["mode"@]);
    push_entry(&mut entries, "name", json_text(column.name()));
    assert(entry_keys(entry_docs(entries@)) =~= seq!["mode"@, "name"@]);
    push_entry(&mut entries, "type", json_text(column.ty().name()));
    assert(entry_keys(entry_docs(entries@)) =~= seq!["mode"@, "name"@, "type"@]);
    match column.description() {
        Some(description) => {
            push_entry(&mut entries, "description", json_text(description.as_str()));
            assert(entry_keys(entry_docs(entries@)) =~= seq![
                "mode"@,
                "name"@,
                "type"@,
                "description"@,
            ]);
        },
        None => {},
    }
    let fields = column.fields();
    if fields.len() > 0 {
        let values = column_values(fields);
        proof {
            let keys = entry_keys(entry_docs(entries@));
            assert forall|i: int| 0 <= i < keys.len() implies keys[i] != "fields"@ by {
                assert(keys[i].len() == 4 || keys[i].len() == 11);
            }
        }
        push_entry(&mut entries, "fields", json_list(values));
    }
    json_record(entries)
}

/// The values that declare `columns` in a schema file.
fn column_values(columns: &Vec<BqColumn>) -> (r: Vec<serde_json::Value>)
    ensures
        value_docs(r@) == column_docs(bq_column_views(columns@), columns@.len()),
    decreases columns,
{
    let ghost views = bq_column_views(columns@);
    let mut values: Vec<serde_json::Value> = Vec::new();
    let mut i: usize = 0;
    while i < columns.len()
        invariant
            i <= columns.len(),
            views == bq_column_views(columns@),
            value_docs(values@) == column_docs(views, i as nat),
        decreases columns.len() - i,
    {
        proof {
            vstd::std_specs::vec::axiom_vec_index_decreases(*columns, i as int);
        }
        let value = column_value(&columns[i]);
        values.push(value);
        i += 1;
    }
    values
}

/// Appends the text of a schema file to `f`, or reports that it could not be
/// written and leaves `f` as it is.
pub fn append_rendered(f: &mut String, rendered: Result<String, serde_json::Error>) -> (r: Result<
    (),
    crate::error::TransferError,
>)
    ensures
        match rendered {
            Ok(text) => r is Ok && final(f)@ == old(f)@ + text@,
            Err(_) => r matches Err(e) && e@ == TransferErrorView::Unserializable && final(f)@
                == old(f)@,
        },
{
    match rendered {
        Ok(text) => {
            f.append(text.as_str());
            Ok(())
        },
        Err(_) => Err(crate::error::TransferError::Unserializable),
    }
}

impl BqTable {
    /// Appends to `f` the schema file of this table, pretty-printed; if it
    /// cannot be written, `f` stays as it is.
    pub fn write_json_schema(&self, f: &mut String) -> (r: Result<(), crate::error::TransferError>)
        ensures
            match r {
                Ok(()) => pretty_json(schema_doc(self@.columns)) matches Some(text) && final(f)@
                    == old(f)@ + text,
                Err(e) => pretty_json(schema_doc(self@.columns)) is None && final(f)@ == old(f)@
                    && e@ == TransferErrorView::Unserializable,
            },
    {
        let values = column_values(self.columns());
        let document = json_list(values);
        append_rendered(f, json_pretty(&document))
    }
}

} // verus!
