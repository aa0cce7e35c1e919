//! The transform: normalize the classification, stamp the queue position,
//! encode the enriched record as one row, and bundle it as a batch result.
//! It is total over decoded records: it never fails.

use vstd::prelude::*;
use vstd::string::StringExecFns;

use crate::encode::encode_object;
use crate::encode::object_text;
use crate::json::JsonVal;
use crate::json::JsonObj;
use crate::record::ProfileMessage;
use crate::record::RecordV;
use crate::record::TransformError;
use crate::record::decode_record;
use crate::record::decode_spec;
use crate::record::is_schema_violation;

verus! {

/// What one processing stage hands downstream: the encoded rows (here
/// always exactly one) and two optional watermark hints, both left unset
/// by this transform.
#[derive(Debug, PartialEq, Eq)]
pub struct InsertBatch {
    pub rows: Vec<String>,
    pub origin_timestamp: Option<i64>,
    pub sentry_received_timestamp: Option<i64>,
}

/// The classification the row carries: the input value where one was set,
/// the empty string otherwise.
pub open spec fn classification_text(m: RecordV) -> Seq<char> {
    match m.device_classification {
        Some(s) => s,
        None => Seq::empty(),
    }
}

/// The record after enrichment: the classification made present, and the
/// queue position written over whatever the input held.
pub open spec fn stamped(m: RecordV, partition: u16, offset: u64) -> RecordV {
    RecordV { device_classification: Some(classification_text(m)), offset, partition, ..m }
}

/// An unset optional string appears as null, a set one as its text.
pub open spec fn opt_str_json(o: Option<Seq<char>>) -> JsonVal<Seq<char>> {
    match o {
        Some(s) => JsonVal::Str(s),
        None => JsonVal::Null,
    }
}

/// An unset optional integer appears as null, a set one as its value.
pub open spec fn opt_u32_json(o: Option<u32>) -> JsonVal<Seq<char>> {
    match o {
        Some(n) => JsonVal::UInt(n as u64),
        None => JsonVal::Null,
    }
}

/// A signed value appears as a non-negative or a negative integer.
pub open spec fn i64_json(n: i64) -> JsonVal<Seq<char>> {
    if n >= 0 {
        JsonVal::UInt(n as u64)
    } else {
        JsonVal::NegInt(n)
    }
}

/// The row's entries: every schema field, in schema order, under its own
/// name. Unset optional fields appear as null, never coerced to a value.
pub open spec fn row_entries_of(m: RecordV) -> Seq<(Seq<char>, JsonVal<Seq<char>>)> {
    seq![
        ("android_api_level"@, opt_u32_json(m.android_api_level)),
        ("architecture"@, opt_str_json(m.architecture)),
        ("device_classification"@, opt_str_json(m.device_classification)),
        ("device_locale"@, JsonVal::Str(m.device_locale)),
        ("device_manufacturer"@, JsonVal::Str(m.device_manufacturer)),
        ("device_model"@, JsonVal::Str(m.device_model)),
        ("device_os_build_number"@, opt_str_json(m.device_os_build_number)),
        ("device_os_name"@, JsonVal::Str(m.device_os_name)),
        ("device_os_version"@, JsonVal::Str(m.device_os_version)),
        ("duration_ns"@, JsonVal::UInt(m.duration_ns)),
        ("environment"@, opt_str_json(m.environment)),
        ("organization_id"@, JsonVal::UInt(m.organization_id)),
        ("platform"@, JsonVal::Str(m.platform)),
        ("profile_id"@, JsonVal::Str(m.profile_id.text)),
        ("project_id"@, JsonVal::UInt(m.project_id)),
        ("received"@, i64_json(m.received)),
        ("retention_days"@, JsonVal::UInt(m.retention_days as u64)),
        ("trace_id"@, JsonVal::Str(m.trace_id.text)),
        ("transaction_id"@, JsonVal::Str(m.transaction_id.text)),
        ("transaction_name"@, JsonVal::Str(m.transaction_name)),
        ("version_code"@, JsonVal::Str(m.version_code)),
        ("version_name"@, JsonVal::Str(m.version_name)),
        ("offset"@, JsonVal::UInt(m.offset)),
        ("partition"@, JsonVal::UInt(m.partition as u64)),
    ]
}

/// The row text the transform owes for an input record and position: the
/// enriched record's entries, rendered.
pub open spec fn row_text_of(m: RecordV, partition: u16, offset: u64) -> Seq<char> {
    object_text(row_entries_of(stamped(m, partition, offset)))
}

/// Builds the row's document form: one entry per schema field.
fn build_row_object(m: &ProfileMessage) -> (o: JsonObj)
    ensures
        o@ == row_entries_of(m@),
{
    let mut entries: Vec<(String, JsonVal<String>)> = Vec::new();
    entries.push(
        (
            "android_api_level".to_owned(),
            match m.android_api_level {
                Some(n) => JsonVal::UInt(n as u64),
                None => JsonVal::Null,
            },
        ),
    );
    entries.push(("architecture".to_owned(), opt_string_json(&m.architecture)));
    entries.push(("device_classification".to_owned(), opt_string_json(&m.device_classification)));
    entries.push(("device_locale".to_owned(), JsonVal::Str(m.device_locale.clone())));
    entries.push(("device_manufacturer".to_owned(), JsonVal::Str(m.device_manufacturer.clone())));
    entries.push(("device_model".to_owned(), JsonVal::Str(m.device_model.clone())));
    entries.push(
        ("device_os_build_number".to_owned(), opt_string_json(&m.device_os_build_number)),
    );
    entries.push(("device_os_name".to_owned(), JsonVal::Str(m.device_os_name.clone())));
    entries.push(("device_os_version".to_owned(), JsonVal::Str(m.device_os_version.clone())));
    entries.push(("duration_ns".to_owned(), JsonVal::UInt(m.duration_ns)));
    entries.push(("environment".to_owned(), opt_string_json(&m.environment)));
    entries.push(("organization_id".to_owned(), JsonVal::UInt(m.organization_id)));
    entries.push(("platform".to_owned(), JsonVal::Str(m.platform.clone())));
    entries.push(("profile_id".to_owned(), JsonVal::Str(m.profile_id.text.clone())));
    entries.push(("project_id".to_owned(), JsonVal::UInt(m.project_id)));
    entries.push(
        (
            "received".to_owned(),
            if m.received >= 0 {
                JsonVal::UInt(m.received as u64)
            } else {
                JsonVal::NegInt(m.received)
            },
        ),
    );
    entries.push(("retention_days".to_owned(), JsonVal::UInt(m.retention_days as u64)));
    entries.push(("trace_id".to_owned(), JsonVal::Str(m.trace_id.text.clone())));
    entries.push(("transaction_id".to_owned(), JsonVal::Str(m.transaction_id.text.clone())));
    entries.push(("transaction_name".to_owned(), JsonVal::Str(m.transaction_name.clone())));
    entries.push(("version_code".to_owned(), JsonVal::Str(m.version_code.clone())));
    entries.push(("version_name".to_owned(), JsonVal::Str(m.version_name.clone())));
    entries.push(("offset".to_owned(), JsonVal::UInt(m.offset)));
    entries.push(("partition".to_owned(), JsonVal::UInt(m.partition as u64)));
    let o = JsonObj { entries };
    proof {
        assert(o@ =~= row_entries_of(m@));
    }
    o
}

/// An unset optional string field as a document value.
fn opt_string_json(o: &Option<String>) -> (r: JsonVal<String>)
    ensures
        r@ == opt_str_json(o.deep_view()),
{
    match o {
        Some(s) => JsonVal::Str(s.clone()),
        None => JsonVal::Null,
    }
}

/// Transforms one decoded record and its queue position into a batch
/// result. Total: for every decoded record and every position it returns
/// exactly one row, the enriched record's text, with both watermark hints
/// unset.
pub fn process_message(msg: ProfileMessage, partition: u16, offset: u64) -> (r: Result<
    InsertBatch,
    TransformError,
>)
    ensures
        r is Ok,
        r->Ok_0.rows@.len() == 1,
        r->Ok_0.rows@[0]@ == row_text_of(msg@, partition, offset),
        r->Ok_0.origin_timestamp is None,
        r->Ok_0.sentry_received_timestamp is None,
{
    let enriched = ProfileMessage {
        device_classification: Some(
            match msg.device_classification {
                Some(s) => s,
                None => String::new(),
            },
        ),
        offset,
        partition,
        ..msg
    };
    assert(enriched@ == stamped(msg@, partition, offset));
    let obj = build_row_object(&enriched);
    let row = encode_object(&obj);
    let mut rows: Vec<String> = Vec::new();
    rows.push(row);
    Ok(InsertBatch { rows, origin_timestamp: None, sentry_received_timestamp: None })
}

/// The whole per-record stage: decode the document, then transform. The
/// result is the batch for a well-shaped document and a schema violation
/// naming the first offending field otherwise.
pub fn process_payload(obj: &JsonObj, partition: u16, offset: u64) -> (r: Result<
    InsertBatch,
    TransformError,
>)
    ensures
        decode_spec(obj@) matches Ok(m) ==> r is Ok && r->Ok_0.rows@.len() == 1
            && r->Ok_0.rows@[0]@ == row_text_of(m, partition, offset)
            && r->Ok_0.origin_timestamp is None && r->Ok_0.sentry_received_timestamp is None,
        decode_spec(obj@) matches Err(field) ==> is_schema_violation(r, field),
{
    let msg = match decode_record(obj) {
        Ok(m) => m,
        Err(e) => return Err(e),
    };
    process_message(msg, partition, offset)
}

} // verus!
