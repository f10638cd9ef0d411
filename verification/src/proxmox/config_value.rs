//! Guest configuration values and their coercing readers.
//!
//! Proxmox returns configuration values with mixed JSON typing (integers for
//! `cores`, strings for `net0`, sometimes numeric strings for `memory`); they
//! are kept as raw values and read through coercing getters.

use vstd::prelude::*;
use crate::string_map::StringMap;
use crate::text::{decimal, is_digit, is_ws, lemma_decimal_digits, lemma_decimal_parses_back, owned, opt_str,
    parse_decimal_u64, parse_u64, trim, trim_end_ws, trim_start_ws, trim_ws};

verus! {

/// A raw configuration value as the API returned it.
#[derive(Debug, Clone, PartialEq, Eq)]
pub enum ConfigValue {
    /// A JSON string.
    Str(String),
    /// A JSON number: its textual form and, when it is a non-negative
    /// integer that fits, its `u64` value.
    Number { text: String, as_u64: Option<u64> },
    /// A JSON boolean.
    Bool(bool),
    /// `null`, an array or an object.
    Other,
}

/// A value read as text: strings as they are, numbers and booleans in their
/// textual form.
pub open spec fn value_text(v: ConfigValue) -> Option<Seq<char>> {
    match v {
        ConfigValue::Str(s) => Some(s@),
        ConfigValue::Number { text, .. } => Some(text@),
        ConfigValue::Bool(b) => Some(
            if b {
                "true"@
            } else {
                "false"@
            },
        ),
        ConfigValue::Other => None,
    }
}

/// A value read as an unsigned integer: integral numbers, and strings that
/// parse as one after trimming.
pub open spec fn value_u64(v: ConfigValue) -> Option<u64> {
    match v {
        ConfigValue::Number { as_u64, .. } => as_u64,
        ConfigValue::Str(s) => parse_u64(trim_ws(s@)),
        _ => None,
    }
}

/// Read a value as a string, coercing numbers/bools to their text form.
pub fn value_as_string(value: &ConfigValue) -> (r: Option<String>)
    ensures
        opt_str(r) == value_text(*value),
        *value matches ConfigValue::Str(s) ==> r == Some(s),
        *value matches ConfigValue::Number { text, .. } ==> r == Some(text),
        *value matches ConfigValue::Bool(b) ==> r is Some && r.unwrap()@ == (if b {
            "true"@
        } else {
            "false"@
        }),
        *value is Other ==> r is None,
{
    match value {
        ConfigValue::Str(s) => Some(s.clone()),
        ConfigValue::Number { text, .. } => Some(text.clone()),
        ConfigValue::Bool(b) => Some(
            if *b {
                owned("true")
            } else {
                owned("false")
            },
        ),
        ConfigValue::Other => None,
    }
}

/// Read a value as an unsigned integer (parsing numeric strings too).
pub fn value_as_u64(value: &ConfigValue) -> (r: Option<u64>)
    ensures
        r == value_u64(*value),
{
    match value {
        ConfigValue::Number { as_u64, .. } => *as_u64,
        ConfigValue::Str(s) => {
            let t = trim(s.as_str());
            parse_decimal_u64(t.as_str())
        },
        _ => None,
    }
}

/// The text of the value under `key`, if any.
pub open spec fn field_text(fields: Map<Seq<char>, ConfigValue>, key: Seq<char>) -> Option<Seq<char>> {
    if fields.dom().contains(key) {
        value_text(fields[key])
    } else {
        None
    }
}

/// The unsigned integer under `key`, if any.
pub open spec fn field_u64(fields: Map<Seq<char>, ConfigValue>, key: Seq<char>) -> Option<u64> {
    if fields.dom().contains(key) {
        value_u64(fields[key])
    } else {
        None
    }
}

/// Read the field `key` as a string.
pub fn lookup_str(fields: &StringMap<ConfigValue>, key: &str) -> (r: Option<String>)
    ensures
        opt_str(r) == field_text(fields@, key@),
{
    match fields.get(key) {
        Some(v) => value_as_string(v),
        None => None,
    }
}

/// Read the field `key` as an unsigned integer.
pub fn lookup_u64(fields: &StringMap<ConfigValue>, key: &str) -> (r: Option<u64>)
    ensures
        r == field_u64(fields@, key@),
{
    match fields.get(key) {
        Some(v) => value_as_u64(v),
        None => None,
    }
}


/// A number sent as a decimal parameter reads back as that number, whether
/// the API returns it as a JSON number or as a numeric string.
pub proof fn lemma_decimal_reads_back(n: u64, text: String)
    requires
        text@ == decimal(n as nat),
    ensures
        value_u64(ConfigValue::Str(text)) == Some(n),
        value_u64(ConfigValue::Number { text, as_u64: Some(n) }) == Some(n),
        value_text(ConfigValue::Str(text)) == Some(decimal(n as nat)),
{
    let d = decimal(n as nat);
    lemma_decimal_digits(n as nat);
    lemma_decimal_parses_back(n);
    assert(is_digit(d[0]) && !is_ws(d[0]));
    assert(trim_start_ws(d) == d);
    assert(is_digit(d.last()) && !is_ws(d.last()));
    assert(trim_end_ws(d) == d);
}


/// Reading a value as text coerces every scalar: a string is itself, a number
/// its textual form, a boolean `true` or `false`; only `null`, arrays and
/// objects have no text.
pub proof fn lemma_value_text_coerces(v: ConfigValue)
    ensures
        v matches ConfigValue::Str(s) ==> value_text(v) == Some(s@),
        v matches ConfigValue::Number { text, .. } ==> value_text(v) == Some(text@),
        v matches ConfigValue::Bool(b) ==> value_text(v) == Some(
            if b {
                "true"@
            } else {
                "false"@
            },
        ),
        value_text(v) is None <==> v is Other,
{
}

/// A field read as text is the text of the value stored under its key, and
/// there is none for a missing key.
pub proof fn lemma_field_text_reads_value(fields: Map<Seq<char>, ConfigValue>, key: Seq<char>)
    ensures
        !fields.dom().contains(key) ==> field_text(fields, key) is None,
        fields.dom().contains(key) ==> (fields[key] matches ConfigValue::Number { text, .. }
            ==> field_text(fields, key) == Some(text@)),
        fields.dom().contains(key) ==> (fields[key] matches ConfigValue::Str(s) ==> field_text(
            fields,
            key,
        ) == Some(s@)),
{
}

} // verus!
