//! The guarantees the transform and the decoder give, stated over the
//! specification model and proved once for all inputs: the classification
//! in the row is never unset, the queue position in the row is exactly the
//! supplied one, a row decodes back to the enriched record, and decoding
//! rejects ill-shaped fields.

use vstd::prelude::*;

use crate::json::JsonVal;
use crate::json::find_entry;
use crate::json::lemma_find_entry_at;
use crate::record::RecordV;
use crate::record::decode_spec;
use crate::uuid_field::uuid_value_of;
use crate::transform::i64_json;
use crate::transform::opt_str_json;
use crate::transform::opt_u32_json;
use crate::transform::row_entries_of;
use crate::transform::stamped;

verus! {

/// The row's keys are pairwise distinct, so lookup of each schema field
/// lands on the entry the row writer put there.
proof fn lemma_row_keys_distinct(m: RecordV)
    ensures
        forall|i: int, j: int|
            0 <= i < j < row_entries_of(m).len() ==> (#[trigger] row_entries_of(m)[i]).0 != (
            #[trigger] row_entries_of(m)[j]).0,
{
    reveal_strlit("android_api_level");
    reveal_strlit("architecture");
    reveal_strlit("device_classification");
    reveal_strlit("device_locale");
    reveal_strlit("device_manufacturer");
    reveal_strlit("device_model");
    reveal_strlit("device_os_build_number");
    reveal_strlit("device_os_name");
    reveal_strlit("device_os_version");
    reveal_strlit("duration_ns");
    reveal_strlit("environment");
    reveal_strlit("organization_id");
    reveal_strlit("platform");
    reveal_strlit("profile_id");
    reveal_strlit("project_id");
    reveal_strlit("received");
    reveal_strlit("retention_days");
    reveal_strlit("trace_id");
    reveal_strlit("transaction_id");
    reveal_strlit("transaction_name");
    reveal_strlit("version_code");
    reveal_strlit("version_name");
    reveal_strlit("offset");
    reveal_strlit("partition");
    assert("android_api_level"@.len() == 17);
    assert("architecture"@.len() == 12);
    assert("device_classification"@.len() == 21);
    assert("device_locale"@.len() == 13);
    assert("device_manufacturer"@.len() == 19);
    assert("device_model"@.len() == 12);
    assert("device_os_build_number"@.len() == 22);
    assert("device_os_name"@.len() == 14);
    assert("device_os_version"@.len() == 17);
    assert("duration_ns"@.len() == 11);
    assert("environment"@.len() == 11);
    assert("organization_id"@.len() == 15);
    assert("platform"@.len() == 8);
    assert("profile_id"@.len() == 10);
    assert("project_id"@.len() == 10);
    assert("received"@.len() == 8);
    assert("retention_days"@.len() == 14);
    assert("trace_id"@.len() == 8);
    assert("transaction_id"@.len() == 14);
    assert("transaction_name"@.len() == 16);
    assert("version_code"@.len() == 12);
    assert("version_name"@.len() == 12);
    assert("offset"@.len() == 6);
    assert("partition"@.len() == 9);
    assert("android_api_level"@[0] == 'a');
    assert("architecture"@[0] == 'a');
    assert("device_classification"@[0] == 'd');
    assert("device_locale"@[0] == 'd');
    assert("device_manufacturer"@[0] == 'd');
    assert("device_model"@[0] == 'd');
    assert("device_os_build_number"@[0] == 'd');
    assert("device_os_name"@[0] == 'd');
    assert("device_os_version"@[0] == 'd');
    assert("duration_ns"@[0] == 'd');
    assert("environment"@[0] == 'e');
    assert("organization_id"@[0] == 'o');
    assert("platform"@[0] == 'p');
    assert("profile_id"@[0] == 'p');
    assert("project_id"@[0] == 'p');
    assert("received"@[0] == 'r');
    assert("retention_days"@[0] == 'r');
    assert("trace_id"@[0] == 't');
    assert("transaction_id"@[0] == 't');
    assert("transaction_name"@[0] == 't');
    assert("version_code"@[0] == 'v');
    assert("version_name"@[0] == 'v');
    assert("offset"@[0] == 'o');
    assert("partition"@[0] == 'p');
    assert("profile_id"@[3] == 'f');
    assert("project_id"@[3] == 'j');
    assert("version_code"@[8] == 'c');
    assert("version_name"@[8] == 'n');
}

/// Lookup of each schema field in the row lands on the value the row
/// writer put there. The clause order follows the row's entry order.
proof fn lemma_row_lookup(m: RecordV)
    ensures
        find_entry(row_entries_of(m), "android_api_level"@) == Some(
            opt_u32_json(m.android_api_level),
        ),
        find_entry(row_entries_of(m), "architecture"@) == Some(opt_str_json(m.architecture)),
        find_entry(row_entries_of(m), "device_classification"@) == Some(
            opt_str_json(m.device_classification),
        ),
        find_entry(row_entries_of(m), "device_locale"@) == Some(
            JsonVal::Str(m.device_locale),
        ),
        find_entry(row_entries_of(m), "device_manufacturer"@) == Some(
            JsonVal::Str(m.device_manufacturer),
        ),
        find_entry(row_entries_of(m), "device_model"@) == Some(JsonVal::Str(m.device_model)),
        find_entry(row_entries_of(m), "device_os_build_number"@) == Some(
            opt_str_json(m.device_os_build_number),
        ),
        find_entry(row_entries_of(m), "device_os_name"@) == Some(
            JsonVal::Str(m.device_os_name),
        ),
        find_entry(row_entries_of(m), "device_os_version"@) == Some(
            JsonVal::Str(m.device_os_version),
        ),
        find_entry(row_entries_of(m), "duration_ns"@) == Some(JsonVal::<Seq<char>>::UInt(m.duration_ns)),
        find_entry(row_entries_of(m), "environment"@) == Some(opt_str_json(m.environment)),
        find_entry(row_entries_of(m), "organization_id"@) == Some(
            JsonVal::<Seq<char>>::UInt(m.organization_id),
        ),
        find_entry(row_entries_of(m), "platform"@) == Some(JsonVal::Str(m.platform)),
        find_entry(row_entries_of(m), "profile_id"@) == Some(
            JsonVal::Str(m.profile_id.text),
        ),
        find_entry(row_entries_of(m), "project_id"@) == Some(JsonVal::<Seq<char>>::UInt(m.project_id)),
        find_entry(row_entries_of(m), "received"@) == Some(i64_json(m.received)),
        find_entry(row_entries_of(m), "retention_days"@) == Some(
            JsonVal::<Seq<char>>::UInt(m.retention_days as u64),
        ),
        find_entry(row_entries_of(m), "trace_id"@) == Some(JsonVal::Str(m.trace_id.text)),
        find_entry(row_entries_of(m), "transaction_id"@) == Some(
            JsonVal::Str(m.transaction_id.text),
        ),
        find_entry(row_entries_of(m), "transaction_name"@) == Some(
            JsonVal::Str(m.transaction_name),
        ),
        find_entry(row_entries_of(m), "version_code"@) == Some(
            JsonVal::Str(m.version_code),
        ),
        find_entry(row_entries_of(m), "version_name"@) == Some(
            JsonVal::Str(m.version_name),
        ),
        find_entry(row_entries_of(m), "offset"@) == Some(JsonVal::<Seq<char>>::UInt(m.offset)),
        find_entry(row_entries_of(m), "partition"@) == Some(
            JsonVal::<Seq<char>>::UInt(m.partition as u64),
        ),
{
    lemma_row_keys_distinct(m);
    let row = row_entries_of(m);
    assert forall|j: int| 0 <= j < row.len() implies find_entry(row, (#[trigger] row[j]).0)
        == Some(row[j].1) by {
        lemma_find_entry_at(row, j);
    }
}

/// The enriched record never leaves the classification unset, whatever the
/// input held.
pub proof fn lemma_classification_present(m: RecordV, partition: u16, offset: u64)
    ensures
        stamped(m, partition, offset).device_classification is Some,
{
}

/// Where the input's classification is unset or empty, the encoded row's
/// classification field is the empty string.
pub proof fn lemma_classification_defaulted(m: RecordV, partition: u16, offset: u64)
    requires
        m.device_classification is None || m.device_classification == Some(
            Seq::<char>::empty(),
        ),
    ensures
        find_entry(row_entries_of(stamped(m, partition, offset)), "device_classification"@)
            == Some(JsonVal::<Seq<char>>::Str(Seq::empty())),
{
    lemma_row_lookup(stamped(m, partition, offset));
}

/// Where the input's classification is a non-empty string, the encoded
/// row's classification field is that string unchanged.
pub proof fn lemma_classification_kept(m: RecordV, partition: u16, offset: u64, s: Seq<char>)
    requires
        m.device_classification == Some(s),
        s.len() > 0,
    ensures
        find_entry(row_entries_of(stamped(m, partition, offset)), "device_classification"@)
            == Some(JsonVal::<Seq<char>>::Str(s)),
{
    lemma_row_lookup(stamped(m, partition, offset));
}

/// The encoded row's offset and partition fields are exactly the supplied
/// position, whatever the record held before stamping.
pub proof fn lemma_position_stamped(m: RecordV, partition: u16, offset: u64)
    ensures
        find_entry(row_entries_of(stamped(m, partition, offset)), "offset"@) == Some(
            JsonVal::<Seq<char>>::UInt(offset),
        ),
        find_entry(row_entries_of(stamped(m, partition, offset)), "partition"@) == Some(
            JsonVal::<Seq<char>>::UInt(partition as u64),
        ),
{
    lemma_row_lookup(stamped(m, partition, offset));
}

/// Round trip: decoding the encoded row's entries with the schema decoder
/// yields exactly the enriched record.
pub proof fn lemma_round_trip(m: RecordV, partition: u16, offset: u64)
    requires
        m.wf(),
    ensures
        decode_spec(row_entries_of(stamped(m, partition, offset))) == Ok::<RecordV, Seq<char>>(
            stamped(m, partition, offset),
        ),
{
    let e = stamped(m, partition, offset);
    lemma_row_lookup(e);
}

/// Whether `key` names one of the schema's required fields.
pub open spec fn is_required_key(key: Seq<char>) -> bool {
    ||| key == "device_locale"@
    ||| key == "device_manufacturer"@
    ||| key == "device_model"@
    ||| key == "device_os_name"@
    ||| key == "device_os_version"@
    ||| key == "duration_ns"@
    ||| key == "organization_id"@
    ||| key == "platform"@
    ||| key == "profile_id"@
    ||| key == "project_id"@
    ||| key == "received"@
    ||| key == "retention_days"@
    ||| key == "trace_id"@
    ||| key == "transaction_id"@
    ||| key == "transaction_name"@
    ||| key == "version_code"@
    ||| key == "version_name"@
}

/// A document that lacks a required field does not decode.
pub proof fn lemma_missing_required_fails(
    obj: Seq<(Seq<char>, JsonVal<Seq<char>>)>,
    key: Seq<char>,
)
    requires
        is_required_key(key),
        find_entry(obj, key) is None,
    ensures
        decode_spec(obj) is Err,
{
}

/// Whether `key` names one of the schema's UUID fields.
pub open spec fn is_uuid_key(key: Seq<char>) -> bool {
    ||| key == "profile_id"@
    ||| key == "trace_id"@
    ||| key == "transaction_id"@
}

/// A document whose UUID field holds text the UUID parser rejects does not
/// decode.
pub proof fn lemma_bad_uuid_fails(
    obj: Seq<(Seq<char>, JsonVal<Seq<char>>)>,
    key: Seq<char>,
    s: Seq<char>,
)
    requires
        is_uuid_key(key),
        find_entry(obj, key) == Some(JsonVal::<Seq<char>>::Str(s)),
        uuid_value_of(s) is None,
    ensures
        decode_spec(obj) is Err,
{
}

/// Whether `key` names one of the schema's unsigned integer fields.
pub open spec fn is_unsigned_key(key: Seq<char>) -> bool {
    ||| key == "android_api_level"@
    ||| key == "duration_ns"@
    ||| key == "organization_id"@
    ||| key == "project_id"@
    ||| key == "retention_days"@
    ||| key == "offset"@
    ||| key == "partition"@
}

/// A document whose unsigned integer field holds a negative value does not
/// decode.
pub proof fn lemma_negative_unsigned_fails(
    obj: Seq<(Seq<char>, JsonVal<Seq<char>>)>,
    key: Seq<char>,
    n: i64,
)
    requires
        is_unsigned_key(key),
        find_entry(obj, key) == Some(JsonVal::<Seq<char>>::NegInt(n)),
    ensures
        decode_spec(obj) is Err,
{
}

} // verus!
