//! The library's own tree of document values, and the trusted boundary
//! that obtains one from TOML text.

use vstd::prelude::*;

use crate::gamedata::CalDate;
use crate::gamedata::DateStamp;
use crate::gamedata::TimeOfDay;
use crate::gamedata::UtcOffset;
use crate::text::str_eq;

verus! {

/// One value of a parsed submission document: a string, an integer, a
/// boolean, a timestamp, an ordered list, a named map, or a value of a
/// kind the decoder has no use for.
pub enum DocValue {
    Str(String),
    Int(i64),
    Bool(bool),
    Date(DateStamp),
    Array(Vec<DocValue>),
    Table(Vec<(String, DocValue)>),
    Other,
}

#[verifier::external_type_specification]
#[verifier::external_body]
pub struct ExTomlValue(toml::Value);

#[verifier::external_type_specification]
#[verifier::external_body]
pub struct ExTomlDatetime(toml::value::Datetime);

/// The value tree that a well-formed TOML document denotes, or `None`
/// for text that is not valid TOML; it depends on the text alone.
pub uninterp spec fn parsed_doc(s: Seq<char>) -> Option<DocValue>;

/// Relies on `toml::from_str`: parses TOML text into a value tree whose
/// root is a table; the result is a function of the text alone.
#[verifier::external_body]
pub fn parse_document(s: &str) -> (r: Option<DocValue>)
    ensures
        r == parsed_doc(s@),
{
    match toml::from_str::<toml::Value>(s) {
        Ok(v) => Some(value_from_toml(v)),
        Err(_) => None,
    }
}

/// Relies on `toml::Value`: carries each variant of the parsed tree into
/// the library's own value tree, one arm per variant.
#[verifier::external_body]
fn value_from_toml(v: toml::Value) -> DocValue {
    match v {
        toml::Value::String(s) => DocValue::Str(s),
        toml::Value::Integer(i) => DocValue::Int(i),
        toml::Value::Float(_) => DocValue::Other,
        toml::Value::Boolean(b) => DocValue::Bool(b),
        toml::Value::Datetime(d) => DocValue::Date(stamp_from_toml(d)),
        toml::Value::Array(a) => DocValue::Array(a.into_iter().map(value_from_toml).collect()),
        toml::Value::Table(t) => DocValue::Table(
            t.into_iter().map(|(k, x)| (k, value_from_toml(x))).collect(),
        ),
    }
}

/// Relies on `toml::value::Datetime`: moves the date, time and offset
/// fields into the library's timestamp representation.
#[verifier::external_body]
fn stamp_from_toml(d: toml::value::Datetime) -> DateStamp {
    DateStamp {
        date: d.date.map(|x| CalDate { year: x.year, month: x.month, day: x.day }),
        time: d.time.map(
            |x| TimeOfDay { hour: x.hour, minute: x.minute, second: x.second, nanosecond: x.nanosecond },
        ),
        offset: d.offset.map(
            |x| match x {
                toml::value::Offset::Z => UtcOffset::Zulu,
                toml::value::Offset::Custom { minutes } => UtcOffset::Minutes(minutes),
            },
        ),
    }
}

/// The value under the first entry of `entries` whose key reads `key`,
/// if any.
pub open spec fn table_get(entries: Seq<(String, DocValue)>, key: Seq<char>) -> Option<DocValue>
    decreases entries.len(),
{
    if entries.len() == 0 {
        None
    } else if entries[0].0@ == key {
        Some(entries[0].1)
    } else {
        table_get(entries.drop_first(), key)
    }
}

/// Look up a key in a table, implementing [`table_get`].
pub fn table_lookup<'a>(entries: &'a Vec<(String, DocValue)>, key: &str) -> (r: Option<&'a DocValue>)
    ensures
        match r {
            Some(v) => table_get(entries@, key@) == Some(*v),
            None => table_get(entries@, key@) is None,
        },
{
    proof {
        assert(entries@.skip(0) =~= entries@);
    }
    table_lookup_from(entries, 0, key)
}

fn table_lookup_from<'a>(entries: &'a Vec<(String, DocValue)>, i: usize, key: &str) -> (r: Option<
    &'a DocValue,
>)
    requires
        i <= entries.len(),
    ensures
        match r {
            Some(v) => table_get(entries@.skip(i as int), key@) == Some(*v),
            None => table_get(entries@.skip(i as int), key@) is None,
        },
    decreases entries.len() - i,
{
    if i == entries.len() {
        proof {
            assert(entries@.skip(i as int).len() == 0);
        }
        None
    } else {
        proof {
            assert(entries@.skip(i as int)[0] == entries@[i as int]);
            assert(entries@.skip(i as int).drop_first() =~= entries@.skip(i as int + 1));
        }
        if str_eq(entries[i].0.as_str(), key) {
            Some(&entries[i].1)
        } else {
            table_lookup_from(entries, i + 1, key)
        }
    }
}

} // verus!
