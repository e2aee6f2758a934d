//! Decoding of the query response: the structured listing the external
//! cluster CLI emits is parsed by serde_json behind trusted wrappers, and
//! the fields of each pod entry are assembled into a `PodRecord`, with the
//! documented default filled in for every absent field.

use vstd::prelude::*;

use crate::record::{PodRecord, QueryError};

verus! {

#[verifier::external_type_specification]
#[verifier::external_body]
pub struct ExValue(serde_json::Value);

#[verifier::external_type_specification]
#[verifier::external_body]
pub struct ExJsonError(serde_json::Error);

/// The document a byte sequence parses to, `None` when it is not
/// well-formed to serde_json's parser; parsing depends on the bytes alone.
pub uninterp spec fn json_doc_of(bytes: Seq<u8>) -> Option<serde_json::Value>;

/// The member of an object value under a key, `None` on any other value or
/// an absent key; the lookup depends on the value and the key alone.
pub uninterp spec fn json_member_of(v: serde_json::Value, key: Seq<char>) -> Option<
    serde_json::Value,
>;

/// The characters a string value holds, `None` on any other value.
pub uninterp spec fn json_str_of(v: serde_json::Value) -> Option<Seq<char>>;

/// The integer a number value holds when it is representable as a u64,
/// `None` otherwise.
pub uninterp spec fn json_u64_of(v: serde_json::Value) -> Option<u64>;

/// The elements of an array value, in order, `None` on any other value.
pub uninterp spec fn json_array_of(v: serde_json::Value) -> Option<Seq<serde_json::Value>>;

/// The epoch seconds of an RFC 3339 timestamp string, or `None` when the
/// string does not parse as one; the result depends on the characters
/// alone.
pub uninterp spec fn rfc3339_secs(s: Seq<char>) -> Option<i64>;

/// Relies on serde_json::from_slice: it returns `Ok` exactly on the byte
/// sequences that parse as one JSON document, and then the parsed
/// document, a function of the bytes alone.
#[verifier::external_body]
fn parse_json(bytes: &[u8]) -> (r: Result<serde_json::Value, serde_json::Error>)
    ensures
        r.is_ok() == (json_doc_of(bytes@) is Some),
        r matches Ok(v) ==> json_doc_of(bytes@) == Some(v),
{
    serde_json::from_slice(bytes)
}

/// Relies on serde_json::Value::get: the member of an object under a key,
/// `None` on any other value or an absent key.
#[verifier::external_body]
fn json_get<'a>(v: &'a serde_json::Value, key: &str) -> (r: Option<&'a serde_json::Value>)
    ensures
        r matches Some(m) ==> json_member_of(*v, key@) == Some(*m),
        r is None ==> json_member_of(*v, key@) is None,
{
    v.get(key)
}

/// Relies on serde_json::Value::as_str: the string a string value holds,
/// `None` on any other value.
#[verifier::external_body]
fn json_as_str<'a>(v: &'a serde_json::Value) -> (r: Option<&'a str>)
    ensures
        r matches Some(s) ==> json_str_of(*v) == Some(s@),
        r is None ==> json_str_of(*v) is None,
{
    v.as_str()
}

/// Relies on serde_json::Value::as_u64: the integer a number value holds
/// when it is representable as a u64, `None` otherwise.
#[verifier::external_body]
fn json_as_u64(v: &serde_json::Value) -> (r: Option<u64>)
    ensures
        r == json_u64_of(*v),
{
    v.as_u64()
}

/// Relies on serde_json::Value::as_array: the elements of an array value,
/// `None` on any other value.
#[verifier::external_body]
fn json_as_array<'a>(v: &'a serde_json::Value) -> (r: Option<&'a Vec<serde_json::Value>>)
    ensures
        r matches Some(a) ==> json_array_of(*v) == Some(a@),
        r is None ==> json_array_of(*v) is None,
{
    v.as_array()
}

/// Relies on chrono's DateTime::parse_from_rfc3339 followed by its
/// timestamp accessor: whether and to which epoch second a timestamp
/// string parses depends on the characters alone.
#[verifier::external_body]
fn parse_rfc3339_secs(s: &str) -> (r: Option<i64>)
    ensures
        r == rfc3339_secs(s@),
{
    chrono::DateTime::parse_from_rfc3339(s).ok().map(|dt| dt.timestamp())
}

/// Assembles one record from the fields a pod entry carried, filling in
/// the documented default for each absent one: `"unknown"` for the name
/// and the namespace, `"Unknown"` for the phase, zero restarts, and the
/// unknown-age sentinel for the creation time.
pub fn record_from_parts(
    name: Option<String>,
    namespace: Option<String>,
    phase: Option<String>,
    restart_count: Option<u64>,
    created_at: Option<i64>,
) -> (r: PodRecord)
    ensures
        r.name@ == (match name {
            Option::Some(n) => n@,
            Option::None => "unknown"@,
        }),
        r.namespace@ == (match namespace {
            Option::Some(n) => n@,
            Option::None => "unknown"@,
        }),
        r.phase@ == (match phase {
            Option::Some(p) => p@,
            Option::None => "Unknown"@,
        }),
        r.restart_count == (match restart_count {
            Option::Some(c) => c,
            Option::None => 0u64,
        }),
        r.created_at == created_at,
{
    PodRecord {
        name: match name {
            Option::Some(n) => n,
            Option::None => String::from_str("unknown"),
        },
        namespace: match namespace {
            Option::Some(n) => n,
            Option::None => String::from_str("unknown"),
        },
        phase: match phase {
            Option::Some(p) => p,
            Option::None => String::from_str("Unknown"),
        },
        restart_count: match restart_count {
            Option::Some(c) => c,
            Option::None => 0,
        },
        created_at,
    }
}

/// The string under `v[k1][k2]`, when every step of that path is there.
pub open spec fn nested_str_of(v: serde_json::Value, k1: Seq<char>, k2: Seq<char>) -> Option<
    Seq<char>,
> {
    match json_member_of(v, k1) {
        Option::Some(inner) => match json_member_of(inner, k2) {
            Option::Some(field) => json_str_of(field),
            Option::None => Option::None,
        },
        Option::None => Option::None,
    }
}

fn nested_str(v: &serde_json::Value, k1: &str, k2: &str) -> (r: Option<String>)
    ensures
        r matches Some(s) ==> nested_str_of(*v, k1@, k2@) == Some(s@),
        r is None ==> nested_str_of(*v, k1@, k2@) is None,
{
    match json_get(v, k1) {
        Option::Some(inner) => match json_get(inner, k2) {
            Option::Some(field) => match json_as_str(field) {
                Option::Some(s) => Option::Some(s.to_owned()),
                Option::None => Option::None,
            },
            Option::None => Option::None,
        },
        Option::None => Option::None,
    }
}

/// The restart count of the first reported container status, when one is
/// reported with a representable count.
pub open spec fn first_restart_of(v: serde_json::Value) -> Option<u64> {
    match json_member_of(v, "status"@) {
        Option::Some(status) => match json_member_of(status, "containerStatuses"@) {
            Option::Some(statuses) => match json_array_of(statuses) {
                Option::Some(arr) => {
                    if arr.len() > 0 {
                        match json_member_of(arr[0], "restartCount"@) {
                            Option::Some(c) => json_u64_of(c),
                            Option::None => Option::None,
                        }
                    } else {
                        Option::None
                    }
                },
                Option::None => Option::None,
            },
            Option::None => Option::None,
        },
        Option::None => Option::None,
    }
}

fn first_restart_count(v: &serde_json::Value) -> (r: Option<u64>)
    ensures
        r == first_restart_of(*v),
{
    match json_get(v, "status") {
        Option::Some(status) => match json_get(status, "containerStatuses") {
            Option::Some(statuses) => match json_as_array(statuses) {
                Option::Some(arr) => {
                    if arr.len() > 0 {
                        match json_get(&arr[0], "restartCount") {
                            Option::Some(c) => json_as_u64(c),
                            Option::None => Option::None,
                        }
                    } else {
                        Option::None
                    }
                },
                Option::None => Option::None,
            },
            Option::None => Option::None,
        },
        Option::None => Option::None,
    }
}

/// How one pod entry of the listing decodes to a record: each field of the
/// entry that is in its expected place and type, and its documented
/// default for every other, as `record_from_parts` fills them in.
pub open spec fn record_decodes(v: serde_json::Value, r: PodRecord) -> bool {
    &&& r.name@ == (match nested_str_of(v, "metadata"@, "name"@) {
        Option::Some(s) => s,
        Option::None => "unknown"@,
    })
    &&& r.namespace@ == (match nested_str_of(v, "metadata"@, "namespace"@) {
        Option::Some(s) => s,
        Option::None => "unknown"@,
    })
    &&& r.phase@ == (match nested_str_of(v, "status"@, "phase"@) {
        Option::Some(s) => s,
        Option::None => "Unknown"@,
    })
    &&& r.restart_count == (match first_restart_of(v) {
        Option::Some(c) => c,
        Option::None => 0u64,
    })
    &&& r.created_at == (match nested_str_of(v, "metadata"@, "creationTimestamp"@) {
        Option::Some(ts) => rfc3339_secs(ts),
        Option::None => Option::<i64>::None,
    })
}

/// Decodes one pod entry of the listing.  Every field the entry does not
/// carry in the expected place and type takes its documented default; an
/// unparsable creation timestamp takes the unknown-age sentinel rather
/// than failing the decode.
pub fn record_from_value(v: &serde_json::Value) -> (r: PodRecord)
    ensures
        record_decodes(*v, r),
{
    let name = nested_str(v, "metadata", "name");
    let namespace = nested_str(v, "metadata", "namespace");
    let phase = nested_str(v, "status", "phase");
    let restart_count = first_restart_count(v);
    let created_at = match nested_str(v, "metadata", "creationTimestamp") {
        Option::Some(ts) => parse_rfc3339_secs(ts.as_str()),
        Option::None => Option::None,
    };
    record_from_parts(name, namespace, phase, restart_count, created_at)
}

/// How a whole parsed listing decodes: one record per element of its
/// `items` array, in response order — none skipped, duplicated or
/// reordered — and the empty listing when `items` is absent or not an
/// array.
pub open spec fn listing_decodes(doc: serde_json::Value, records: Seq<PodRecord>) -> bool {
    match json_member_of(doc, "items"@) {
        Option::Some(items) => match json_array_of(items) {
            Option::Some(arr) => {
                &&& records.len() == arr.len()
                &&& forall|i: int| 0 <= i < arr.len() ==> record_decodes(#[trigger] arr[i], records[i])
            },
            Option::None => records.len() == 0,
        },
        Option::None => records.len() == 0,
    }
}

/// Decodes a whole query response.  The bytes parse as one JSON document
/// if and only if the result is `Ok`, and the records are then the decoded
/// `items` of that document, as `listing_decodes` states.  The only error
/// is `DecodeFailure`: transport errors are the caller's, before the bytes
/// reach the decoder.
pub fn decode_pod_list(bytes: &[u8]) -> (r: Result<Vec<PodRecord>, QueryError>)
    ensures
        r.is_ok() == (json_doc_of(bytes@) is Some),
        r matches Err(e) ==> e == QueryError::DecodeFailure,
        r matches Ok(records) ==> listing_decodes(json_doc_of(bytes@)->Some_0, records@),
{
    let parsed = match parse_json(bytes) {
        Ok(v) => v,
        Err(_) => {
            return Err(QueryError::DecodeFailure);
        },
    };
    let mut records: Vec<PodRecord> = Vec::new();
    let items = match json_get(&parsed, "items") {
        Option::Some(items) => items,
        Option::None => {
            return Ok(records);
        },
    };
    let arr = match json_as_array(items) {
        Option::Some(arr) => arr,
        Option::None => {
            return Ok(records);
        },
    };
    let n = arr.len();
    let mut i: usize = 0;
    while i < n
        invariant
            i <= n,
            n == arr@.len(),
            records@.len() == i,
            forall|j: int| 0 <= j < i ==> record_decodes(#[trigger] arr@[j], records@[j]),
        decreases n - i,
    {
        let record = record_from_value(&arr[i]);
        records.push(record);
        i += 1;
    }
    Ok(records)
}

} // verus!
