//! The record schema: the typed shape of one incoming profile event, and
//! the decoder from a structured document into it. Required fields must be
//! present with the right type; optional fields may be absent or null; the
//! queue-position fields default to zero before enrichment. The decoder
//! reports the first offending field.

use vstd::prelude::*;

use crate::json::JsonVal;
use crate::json::JsonObj;
use crate::json::find_entry;
use crate::uuid_field::UuidField;
use crate::uuid_field::UuidFieldV;
use crate::uuid_field::uuid_text_of;
use crate::uuid_field::uuid_value_of;

verus! {

/// A failure of one record: an ill-shaped input field, or a row that could
/// not be encoded. Decoding reports the offending field by name.
#[derive(Debug, PartialEq, Eq)]
pub enum TransformError {
    SchemaViolation(String),
    EncodingFailure,
}

/// Whether `r` reports a schema violation naming exactly `field`.
pub open spec fn is_schema_violation<T>(r: Result<T, TransformError>, field: Seq<char>) -> bool {
    match r {
        Err(TransformError::SchemaViolation(f)) => f@ == field,
        _ => false,
    }
}

/// One decoded profile event. Fields mirror the incoming document;
/// `offset` and `partition` stay zero until enrichment stamps them.
#[derive(Clone, Debug, PartialEq, Eq)]
pub struct ProfileMessage {
    pub android_api_level: Option<u32>,
    pub architecture: Option<String>,
    pub device_classification: Option<String>,
    pub device_locale: String,
    pub device_manufacturer: String,
    pub device_model: String,
    pub device_os_build_number: Option<String>,
    pub device_os_name: String,
    pub device_os_version: String,
    pub duration_ns: u64,
    pub environment: Option<String>,
    pub organization_id: u64,
    pub platform: String,
    pub profile_id: UuidField,
    pub project_id: u64,
    pub received: i64,
    pub retention_days: u32,
    pub trace_id: UuidField,
    pub transaction_id: UuidField,
    pub transaction_name: String,
    pub version_code: String,
    pub version_name: String,
    pub offset: u64,
    pub partition: u16,
}

/// The specification-level image of a `ProfileMessage`.
pub struct RecordV {
    pub android_api_level: Option<u32>,
    pub architecture: Option<Seq<char>>,
    pub device_classification: Option<Seq<char>>,
    pub device_locale: Seq<char>,
    pub device_manufacturer: Seq<char>,
    pub device_model: Seq<char>,
    pub device_os_build_number: Option<Seq<char>>,
    pub device_os_name: Seq<char>,
    pub device_os_version: Seq<char>,
    pub duration_ns: u64,
    pub environment: Option<Seq<char>>,
    pub organization_id: u64,
    pub platform: Seq<char>,
    pub profile_id: UuidFieldV,
    pub project_id: u64,
    pub received: i64,
    pub retention_days: u32,
    pub trace_id: UuidFieldV,
    pub transaction_id: UuidFieldV,
    pub transaction_name: Seq<char>,
    pub version_code: Seq<char>,
    pub version_name: Seq<char>,
    pub offset: u64,
    pub partition: u16,
}

impl View for ProfileMessage {
    type V = RecordV;

    open spec fn view(&self) -> RecordV {
        RecordV {
            android_api_level: self.android_api_level,
            architecture: self.architecture.deep_view(),
            device_classification: self.device_classification.deep_view(),
            device_locale: self.device_locale@,
            device_manufacturer: self.device_manufacturer@,
            device_model: self.device_model@,
            device_os_build_number: self.device_os_build_number.deep_view(),
            device_os_name: self.device_os_name@,
            device_os_version: self.device_os_version@,
            duration_ns: self.duration_ns,
            environment: self.environment.deep_view(),
            organization_id: self.organization_id,
            platform: self.platform@,
            profile_id: self.profile_id@,
            project_id: self.project_id,
            received: self.received,
            retention_days: self.retention_days,
            trace_id: self.trace_id@,
            transaction_id: self.transaction_id@,
            transaction_name: self.transaction_name@,
            version_code: self.version_code@,
            version_name: self.version_name@,
            offset: self.offset,
            partition: self.partition,
        }
    }
}

impl RecordV {
    /// Each UUID field carries its value's canonical text.
    pub open spec fn wf(self) -> bool {
        &&& self.profile_id.wf()
        &&& self.trace_id.wf()
        &&& self.transaction_id.wf()
    }
}

impl ProfileMessage {
    /// Each UUID field carries its value's canonical text.
    pub open spec fn wf(self) -> bool {
        self@.wf()
    }
}

// What one field of the document decodes to. Each field kind has an
// acceptance predicate and a value function; the value functions are only
// meaningful where the predicate holds.

/// A required string field: present with string type.
pub open spec fn req_str_ok(obj: Seq<(Seq<char>, JsonVal<Seq<char>>)>, key: Seq<char>) -> bool {
    match find_entry(obj, key) {
        Some(JsonVal::Str(_)) => true,
        _ => false,
    }
}

pub open spec fn req_str_val(obj: Seq<(Seq<char>, JsonVal<Seq<char>>)>, key: Seq<char>) -> Seq<
    char,
> {
    match find_entry(obj, key) {
        Some(JsonVal::Str(s)) => s,
        _ => Seq::empty(),
    }
}

/// A required unsigned 64-bit field: present, integer, non-negative.
pub open spec fn req_u64_ok(obj: Seq<(Seq<char>, JsonVal<Seq<char>>)>, key: Seq<char>) -> bool {
    match find_entry(obj, key) {
        Some(JsonVal::UInt(_)) => true,
        _ => false,
    }
}

pub open spec fn req_u64_val(obj: Seq<(Seq<char>, JsonVal<Seq<char>>)>, key: Seq<char>) -> u64 {
    match find_entry(obj, key) {
        Some(JsonVal::UInt(n)) => n,
        _ => 0,
    }
}

/// A required unsigned 32-bit field: as `req_u64_ok`, within 32-bit width.
pub open spec fn req_u32_ok(obj: Seq<(Seq<char>, JsonVal<Seq<char>>)>, key: Seq<char>) -> bool {
    match find_entry(obj, key) {
        Some(JsonVal::UInt(n)) => n <= u32::MAX,
        _ => false,
    }
}

pub open spec fn req_u32_val(obj: Seq<(Seq<char>, JsonVal<Seq<char>>)>, key: Seq<char>) -> u32 {
    (req_u64_val(obj, key) as u32)
}

/// A required signed 64-bit field: an integer within the signed 64-bit
/// range, of either sign.
pub open spec fn req_i64_ok(obj: Seq<(Seq<char>, JsonVal<Seq<char>>)>, key: Seq<char>) -> bool {
    match find_entry(obj, key) {
        Some(JsonVal::UInt(n)) => n <= i64::MAX,
        Some(JsonVal::NegInt(n)) => n < 0,
        _ => false,
    }
}

pub open spec fn req_i64_val(obj: Seq<(Seq<char>, JsonVal<Seq<char>>)>, key: Seq<char>) -> i64 {
    match find_entry(obj, key) {
        Some(JsonVal::UInt(n)) => n as i64,
        Some(JsonVal::NegInt(n)) => n,
        _ => 0,
    }
}

/// A required UUID field: a string the UUID parser accepts.
pub open spec fn req_uuid_ok(obj: Seq<(Seq<char>, JsonVal<Seq<char>>)>, key: Seq<char>) -> bool {
    match find_entry(obj, key) {
        Some(JsonVal::Str(s)) => uuid_value_of(s) is Some,
        _ => false,
    }
}

pub open spec fn req_uuid_val(
    obj: Seq<(Seq<char>, JsonVal<Seq<char>>)>,
    key: Seq<char>,
) -> UuidFieldV {
    match uuid_value_of(req_str_val(obj, key)) {
        Some(v) => UuidFieldV { value: v, text: uuid_text_of(v) },
        None => UuidFieldV { value: 0, text: Seq::empty() },
    }
}

/// An optional string field: absent and null mean unset; a present value
/// must be a string.
pub open spec fn opt_str_ok(obj: Seq<(Seq<char>, JsonVal<Seq<char>>)>, key: Seq<char>) -> bool {
    match find_entry(obj, key) {
        None => true,
        Some(JsonVal::Null) => true,
        Some(JsonVal::Str(_)) => true,
        _ => false,
    }
}

pub open spec fn opt_str_val(obj: Seq<(Seq<char>, JsonVal<Seq<char>>)>, key: Seq<char>) -> Option<
    Seq<char>,
> {
    match find_entry(obj, key) {
        Some(JsonVal::Str(s)) => Some(s),
        _ => None,
    }
}

/// An optional unsigned 32-bit field: absent and null mean unset; a
/// present value must be a non-negative integer within 32-bit width.
pub open spec fn opt_u32_ok(obj: Seq<(Seq<char>, JsonVal<Seq<char>>)>, key: Seq<char>) -> bool {
    match find_entry(obj, key) {
        None => true,
        Some(JsonVal::Null) => true,
        Some(JsonVal::UInt(n)) => n <= u32::MAX,
        _ => false,
    }
}

pub open spec fn opt_u32_val(obj: Seq<(Seq<char>, JsonVal<Seq<char>>)>, key: Seq<char>) -> Option<
    u32,
> {
    match find_entry(obj, key) {
        Some(JsonVal::UInt(n)) => Some(n as u32),
        _ => None,
    }
}

/// A queue-position field of unsigned 64-bit width: absent means zero; a
/// present value must be a non-negative integer.
pub open spec fn pos_u64_ok(obj: Seq<(Seq<char>, JsonVal<Seq<char>>)>, key: Seq<char>) -> bool {
    match find_entry(obj, key) {
        None => true,
        Some(JsonVal::UInt(_)) => true,
        _ => false,
    }
}

pub open spec fn pos_u64_val(obj: Seq<(Seq<char>, JsonVal<Seq<char>>)>, key: Seq<char>) -> u64 {
    match find_entry(obj, key) {
        Some(JsonVal::UInt(n)) => n,
        _ => 0,
    }
}

/// A queue-position field of unsigned 16-bit width: absent means zero; a
/// present value must be a non-negative integer within 16-bit width.
pub open spec fn pos_u16_ok(obj: Seq<(Seq<char>, JsonVal<Seq<char>>)>, key: Seq<char>) -> bool {
    match find_entry(obj, key) {
        None => true,
        Some(JsonVal::UInt(n)) => n <= u16::MAX,
        _ => false,
    }
}

pub open spec fn pos_u16_val(obj: Seq<(Seq<char>, JsonVal<Seq<char>>)>, key: Seq<char>) -> u16 {
    match find_entry(obj, key) {
        Some(JsonVal::UInt(n)) => n as u16,
        _ => 0,
    }
}

/// The first field, in schema order, that fails its check; `None` when the
/// whole document decodes.
pub open spec fn decode_err(obj: Seq<(Seq<char>, JsonVal<Seq<char>>)>) -> Option<Seq<char>> {
    if !opt_u32_ok(obj, "android_api_level"@) {
        Some("android_api_level"@)
    } else if !opt_str_ok(obj, "architecture"@) {
        Some("architecture"@)
    } else if !opt_str_ok(obj, "device_classification"@) {
        Some("device_classification"@)
    } else if !req_str_ok(obj, "device_locale"@) {
        Some("device_locale"@)
    } else if !req_str_ok(obj, "device_manufacturer"@) {
        Some("device_manufacturer"@)
    } else if !req_str_ok(obj, "device_model"@) {
        Some("device_model"@)
    } else if !opt_str_ok(obj, "device_os_build_number"@) {
        Some("device_os_build_number"@)
    } else if !req_str_ok(obj, "device_os_name"@) {
        Some("device_os_name"@)
    } else if !req_str_ok(obj, "device_os_version"@) {
        Some("device_os_version"@)
    } else if !req_u64_ok(obj, "duration_ns"@) {
        Some("duration_ns"@)
    } else if !opt_str_ok(obj, "environment"@) {
        Some("environment"@)
    } else if !req_u64_ok(obj, "organization_id"@) {
        Some("organization_id"@)
    } else if !req_str_ok(obj, "platform"@) {
        Some("platform"@)
    } else if !req_uuid_ok(obj, "profile_id"@) {
        Some("profile_id"@)
    } else if !req_u64_ok(obj, "project_id"@) {
        Some("project_id"@)
    } else if !req_i64_ok(obj, "received"@) {
        Some("received"@)
    } else if !req_u32_ok(obj, "retention_days"@) {
        Some("retention_days"@)
    } else if !req_uuid_ok(obj, "trace_id"@) {
        Some("trace_id"@)
    } else if !req_uuid_ok(obj, "transaction_id"@) {
        Some("transaction_id"@)
    } else if !req_str_ok(obj, "transaction_name"@) {
        Some("transaction_name"@)
    } else if !req_str_ok(obj, "version_code"@) {
        Some("version_code"@)
    } else if !req_str_ok(obj, "version_name"@) {
        Some("version_name"@)
    } else if !pos_u64_ok(obj, "offset"@) {
        Some("offset"@)
    } else if !pos_u16_ok(obj, "partition"@) {
        Some("partition"@)
    } else {
        None
    }
}

/// The record a well-shaped document decodes to.
pub open spec fn decode_ok(obj: Seq<(Seq<char>, JsonVal<Seq<char>>)>) -> RecordV {
    RecordV {
        android_api_level: opt_u32_val(obj, "android_api_level"@),
        architecture: opt_str_val(obj, "architecture"@),
        device_classification: opt_str_val(obj, "device_classification"@),
        device_locale: req_str_val(obj, "device_locale"@),
        device_manufacturer: req_str_val(obj, "device_manufacturer"@),
        device_model: req_str_val(obj, "device_model"@),
        device_os_build_number: opt_str_val(obj, "device_os_build_number"@),
        device_os_name: req_str_val(obj, "device_os_name"@),
        device_os_version: req_str_val(obj, "device_os_version"@),
        duration_ns: req_u64_val(obj, "duration_ns"@),
        environment: opt_str_val(obj, "environment"@),
        organization_id: req_u64_val(obj, "organization_id"@),
        platform: req_str_val(obj, "platform"@),
        profile_id: req_uuid_val(obj, "profile_id"@),
        project_id: req_u64_val(obj, "project_id"@),
        received: req_i64_val(obj, "received"@),
        retention_days: req_u32_val(obj, "retention_days"@),
        trace_id: req_uuid_val(obj, "trace_id"@),
        transaction_id: req_uuid_val(obj, "transaction_id"@),
        transaction_name: req_str_val(obj, "transaction_name"@),
        version_code: req_str_val(obj, "version_code"@),
        version_name: req_str_val(obj, "version_name"@),
        offset: pos_u64_val(obj, "offset"@),
        partition: pos_u16_val(obj, "partition"@),
    }
}

/// What decoding a document yields: the typed record, or the name of the
/// first offending field.
pub open spec fn decode_spec(obj: Seq<(Seq<char>, JsonVal<Seq<char>>)>) -> Result<
    RecordV,
    Seq<char>,
> {
    match decode_err(obj) {
        Some(field) => Err(field),
        None => Ok(decode_ok(obj)),
    }
}

fn schema_violation(key: &str) -> (r: TransformError)
    ensures
        r matches TransformError::SchemaViolation(f) && f@ == key@,
{
    TransformError::SchemaViolation(key.to_owned())
}

fn req_string(obj: &JsonObj, key: &str) -> (r: Result<String, TransformError>)
    ensures
        req_str_ok(obj@, key@) ==> r is Ok && r->Ok_0@ == req_str_val(obj@, key@),
        !req_str_ok(obj@, key@) ==> is_schema_violation(r, key@),
{
    match obj.get(key) {
        Some(JsonVal::Str(s)) => Ok(s.clone()),
        _ => Err(schema_violation(key)),
    }
}

fn req_u64(obj: &JsonObj, key: &str) -> (r: Result<u64, TransformError>)
    ensures
        req_u64_ok(obj@, key@) ==> r == Ok::<u64, TransformError>(req_u64_val(obj@, key@)),
        !req_u64_ok(obj@, key@) ==> is_schema_violation(r, key@),
{
    match obj.get(key) {
        Some(JsonVal::UInt(n)) => Ok(*n),
        _ => Err(schema_violation(key)),
    }
}

fn req_u32(obj: &JsonObj, key: &str) -> (r: Result<u32, TransformError>)
    ensures
        req_u32_ok(obj@, key@) ==> r == Ok::<u32, TransformError>(req_u32_val(obj@, key@)),
        !req_u32_ok(obj@, key@) ==> is_schema_violation(r, key@),
{
    match obj.get(key) {
        Some(JsonVal::UInt(n)) => {
            if *n <= u32::MAX as u64 {
                Ok(*n as u32)
            } else {
                Err(schema_violation(key))
            }
        },
        _ => Err(schema_violation(key)),
    }
}

fn req_i64(obj: &JsonObj, key: &str) -> (r: Result<i64, TransformError>)
    ensures
        req_i64_ok(obj@, key@) ==> r == Ok::<i64, TransformError>(req_i64_val(obj@, key@)),
        !req_i64_ok(obj@, key@) ==> is_schema_violation(r, key@),
{
    match obj.get(key) {
        Some(JsonVal::UInt(n)) => {
            if *n <= i64::MAX as u64 {
                Ok(*n as i64)
            } else {
                Err(schema_violation(key))
            }
        },
        Some(JsonVal::NegInt(n)) => {
            if *n < 0 {
                Ok(*n)
            } else {
                Err(schema_violation(key))
            }
        },
        _ => Err(schema_violation(key)),
    }
}

fn req_uuid(obj: &JsonObj, key: &str) -> (r: Result<UuidField, TransformError>)
    ensures
        req_uuid_ok(obj@, key@) ==> r is Ok && r->Ok_0@ == req_uuid_val(obj@, key@)
            && r->Ok_0@.wf(),
        !req_uuid_ok(obj@, key@) ==> is_schema_violation(r, key@),
{
    match obj.get(key) {
        Some(JsonVal::Str(s)) => match UuidField::parse(s.as_str()) {
            Some(f) => Ok(f),
            None => Err(schema_violation(key)),
        },
        _ => Err(schema_violation(key)),
    }
}

fn opt_string(obj: &JsonObj, key: &str) -> (r: Result<Option<String>, TransformError>)
    ensures
        opt_str_ok(obj@, key@) ==> r is Ok && r->Ok_0.deep_view() == opt_str_val(obj@, key@),
        !opt_str_ok(obj@, key@) ==> is_schema_violation(r, key@),
{
    match obj.get(key) {
        None => Ok(None),
        Some(JsonVal::Null) => Ok(None),
        Some(JsonVal::Str(s)) => Ok(Some(s.clone())),
        _ => Err(schema_violation(key)),
    }
}

fn opt_u32(obj: &JsonObj, key: &str) -> (r: Result<Option<u32>, TransformError>)
    ensures
        opt_u32_ok(obj@, key@) ==> r == Ok::<Option<u32>, TransformError>(
            opt_u32_val(obj@, key@),
        ),
        !opt_u32_ok(obj@, key@) ==> is_schema_violation(r, key@),
{
    match obj.get(key) {
        None => Ok(None),
        Some(JsonVal::Null) => Ok(None),
        Some(JsonVal::UInt(n)) => {
            if *n <= u32::MAX as u64 {
                Ok(Some(*n as u32))
            } else {
                Err(schema_violation(key))
            }
        },
        _ => Err(schema_violation(key)),
    }
}

fn pos_u64(obj: &JsonObj, key: &str) -> (r: Result<u64, TransformError>)
    ensures
        pos_u64_ok(obj@, key@) ==> r == Ok::<u64, TransformError>(pos_u64_val(obj@, key@)),
        !pos_u64_ok(obj@, key@) ==> is_schema_violation(r, key@),
{
    match obj.get(key) {
        None => Ok(0),
        Some(JsonVal::UInt(n)) => Ok(*n),
        _ => Err(schema_violation(key)),
    }
}

fn pos_u16(obj: &JsonObj, key: &str) -> (r: Result<u16, TransformError>)
    ensures
        pos_u16_ok(obj@, key@) ==> r == Ok::<u16, TransformError>(pos_u16_val(obj@, key@)),
        !pos_u16_ok(obj@, key@) ==> is_schema_violation(r, key@),
{
    match obj.get(key) {
        None => Ok(0),
        Some(JsonVal::UInt(n)) => {
            if *n <= u16::MAX as u64 {
                Ok(*n as u16)
            } else {
                Err(schema_violation(key))
            }
        },
        _ => Err(schema_violation(key)),
    }
}

/// Decodes a structured document into a typed record, exactly as
/// `decode_spec` states: the record on a well-shaped document, otherwise a
/// schema violation naming the first offending field.
pub fn decode_record(obj: &JsonObj) -> (r: Result<ProfileMessage, TransformError>)
    ensures
        decode_spec(obj@) matches Ok(m) ==> r is Ok && r->Ok_0@ == m && r->Ok_0.wf(),
        decode_spec(obj@) matches Err(field) ==> is_schema_violation(r, field),
{
    let android_api_level = match opt_u32(obj, "android_api_level") {
        Ok(v) => v,
        Err(e) => return Err(e),
    };
    let architecture = match opt_string(obj, "architecture") {
        Ok(v) => v,
        Err(e) => return Err(e),
    };
    let device_classification = match opt_string(obj, "device_classification") {
        Ok(v) => v,
        Err(e) => return Err(e),
    };
    let device_locale = match req_string(obj, "device_locale") {
        Ok(v) => v,
        Err(e) => return Err(e),
    };
    let device_manufacturer = match req_string(obj, "device_manufacturer") {
        Ok(v) => v,
        Err(e) => return Err(e),
    };
    let device_model = match req_string(obj, "device_model") {
        Ok(v) => v,
        Err(e) => return Err(e),
    };
    let device_os_build_number = match opt_string(obj, "device_os_build_number") {
        Ok(v) => v,
        Err(e) => return Err(e),
    };
    let device_os_name = match req_string(obj, "device_os_name") {
        Ok(v) => v,
        Err(e) => return Err(e),
    };
    let device_os_version = match req_string(obj, "device_os_version") {
        Ok(v) => v,
        Err(e) => return Err(e),
    };
    let duration_ns = match req_u64(obj, "duration_ns") {
        Ok(v) => v,
        Err(e) => return Err(e),
    };
    let environment = match opt_string(obj, "environment") {
        Ok(v) => v,
        Err(e) => return Err(e),
    };
    let organization_id = match req_u64(obj, "organization_id") {
        Ok(v) => v,
        Err(e) => return Err(e),
    };
    let platform = match req_string(obj, "platform") {
        Ok(v) => v,
        Err(e) => return Err(e),
    };
    let profile_id = match req_uuid(obj, "profile_id") {
        Ok(v) => v,
        Err(e) => return Err(e),
    };
    let project_id = match req_u64(obj, "project_id") {
        Ok(v) => v,
        Err(e) => return Err(e),
    };
    let received = match req_i64(obj, "received") {
        Ok(v) => v,
        Err(e) => return Err(e),
    };
    let retention_days = match req_u32(obj, "retention_days") {
        Ok(v) => v,
        Err(e) => return Err(e),
    };
    let trace_id = match req_uuid(obj, "trace_id") {
        Ok(v) => v,
        Err(e) => return Err(e),
    };
    let transaction_id = match req_uuid(obj, "transaction_id") {
        Ok(v) => v,
        Err(e) => return Err(e),
    };
    let transaction_name = match req_string(obj, "transaction_name") {
        Ok(v) => v,
        Err(e) => return Err(e),
    };
    let version_code = match req_string(obj, "version_code") {
        Ok(v) => v,
        Err(e) => return Err(e),
    };
    let version_name = match req_string(obj, "version_name") {
        Ok(v) => v,
        Err(e) => return Err(e),
    };
    let offset = match pos_u64(obj, "offset") {
        Ok(v) => v,
        Err(e) => return Err(e),
    };
    let partition = match pos_u16(obj, "partition") {
        Ok(v) => v,
        Err(e) => return Err(e),
    };
    Ok(
        ProfileMessage {
            android_api_level,
            architecture,
            device_classification,
            device_locale,
            device_manufacturer,
            device_model,
            device_os_build_number,
            device_os_name,
            device_os_version,
            duration_ns,
            environment,
            organization_id,
            platform,
            profile_id,
            project_id,
            received,
            retention_days,
            trace_id,
            transaction_id,
            transaction_name,
            version_code,
            version_name,
            offset,
            partition,
        },
    )
}

} // verus!
