//! Checked decoding of the JSON columns of the community store: member
//! language lists and custom profile fields.

use vstd::prelude::*;
use vstd::utf8::encode_utf8;
use std::collections::HashMap;
use crate::text::{owned, push_str, push_decimal, decimal, views};

verus! {

/// Largest JSON payload accepted, in bytes.
pub const MAX_JSON_SIZE: usize = 1024 * 1024;

/// Most languages a member may list.
pub const MAX_ARRAY_LENGTH: usize = 1000;

/// Most custom fields a profile may hold.
pub const MAX_CUSTOM_FIELDS: usize = 50;

/// Why a JSON column was refused.
#[derive(Debug, Clone, PartialEq, Eq)]
pub enum DeserializationError {
    /// The payload exceeds the size limit.
    PayloadTooLarge { size: usize, max_size: usize },
    /// The payload is not JSON of the expected shape.
    InvalidFormat(String),
    /// The decoded value breaks a limit on its contents.
    SecurityValidation(String),
}

/// A refused JSON column, with an explanation for the user.
#[derive(Debug, Clone, PartialEq, Eq)]
pub struct DeserializationFailure {
    pub message: String,
    pub context: String,
    pub suggestion: String,
    pub source: Option<DeserializationError>,
}

/// What `serde_json::from_str::<Vec<String>>` makes of a text: the strings
/// of a JSON array of strings, or the parser's error message. It depends
/// on the text alone.
pub uninterp spec fn json_string_array(s: Seq<char>) -> Result<Seq<Seq<char>>, Seq<char>>;

/// What `serde_json::from_str::<HashMap<String, String>>` makes of a text:
/// the entries of a JSON object of strings (a repeated key keeps its last
/// value), or the parser's error message. It depends on the text alone.
pub uninterp spec fn json_string_map(s: Seq<char>) -> Result<Map<Seq<char>, Seq<char>>, Seq<char>>;

/// Whether `char::is_alphanumeric` holds of a character (the Unicode
/// `Alphabetic` or `Numeric` property, a fixed table).
pub uninterp spec fn alphanumeric(c: char) -> bool;

/// A result with its strings as characters.
pub open spec fn array_result_view(r: Result<Vec<String>, String>) -> Result<Seq<Seq<char>>, Seq<char>> {
    match r {
        Ok(v) => Ok(views(v@)),
        Err(e) => Err(e@),
    }
}

/// A decoded object with its entries as a map.
pub open spec fn map_result_view(r: Result<Vec<(String, String)>, String>) -> Result<Map<Seq<char>, Seq<char>>, Seq<char>> {
    match r {
        Ok(v) => Ok(pairs_map(v@)),
        Err(e) => Err(e@),
    }
}

/// The entries of a list of pairs as a map.
pub open spec fn pairs_map(v: Seq<(String, String)>) -> Map<Seq<char>, Seq<char>> {
    Map::new(
        |k: Seq<char>| exists|i: int| 0 <= i < v.len() && (#[trigger] v[i]).0@ == k,
        |k: Seq<char>| v[choose|i: int| 0 <= i < v.len() && (#[trigger] v[i]).0@ == k].1@,
    )
}

/// No key occurs twice.
pub open spec fn distinct_keys(v: Seq<(String, String)>) -> bool {
    forall|i: int, j: int| 0 <= i < j < v.len() ==> (#[trigger] v[i]).0@ != (#[trigger] v[j]).0@
}

/// `serde_json::from_str::<Vec<String>>`. Trusted to return, for a text,
/// the strings of the JSON array it holds or the error message, as the
/// named parse gives them.
#[verifier::external_body]
pub(crate) fn parse_string_array(json_str: &str) -> (r: Result<Vec<String>, String>)
    ensures
        array_result_view(r) == json_string_array(json_str@),
{
    serde_json::from_str::<Vec<String>>(json_str).map_err(|e| e.to_string())
}

/// `serde_json::from_str::<HashMap<String, String>>`. Trusted to return,
/// for a text, the entries of the JSON object it holds, each key once and
/// in no particular order, or the error message, as the named parse gives
/// them.
#[verifier::external_body]
fn parse_string_map(json_str: &str) -> (r: Result<Vec<(String, String)>, String>)
    ensures
        r matches Ok(v) ==> distinct_keys(v@),
        map_result_view(r) == json_string_map(json_str@),
{
    match serde_json::from_str::<HashMap<String, String>>(json_str) {
        Ok(m) => Ok(m.into_iter().collect()),
        Err(e) => Err(e.to_string()),
    }
}

/// `char::is_alphanumeric`.
#[verifier::external_body]
fn is_alphanumeric(c: char) -> (r: bool)
    ensures
        r == alphanumeric(c),
{
    c.is_alphanumeric()
}

/// The byte length of a text.
pub open spec fn byte_len(s: Seq<char>) -> nat {
    encode_utf8(s).len()
}

/// A language code: at most 50 bytes of letters, digits, `-` and `_`.
pub open spec fn valid_language(l: Seq<char>) -> bool {
    byte_len(l) <= 50 && forall|i: int| 0 <= i < l.len() ==> (alphanumeric(#[trigger] l[i]) || l[i] == '-' || l[i] == '_')
}

/// The first language, in list order, that is not a valid code.
pub open spec fn first_invalid_language(ls: Seq<Seq<char>>) -> Option<Seq<char>>
    decreases ls.len(),
{
    if ls.len() == 0 {
        None
    } else if !valid_language(ls[0]) {
        Some(ls[0])
    } else {
        first_invalid_language(ls.drop_first())
    }
}

/// The failure reported for a text that is too large.
pub open spec fn too_large(size: nat, context: Seq<char>) -> (Seq<char>, Seq<char>, Seq<char>) {
    ("JSON payload too large: "@ + decimal(size) + " bytes"@, context, "Reduce payload size or increase limits"@)
}

/// The outcome of decoding a member's language list: the size limit, the
/// JSON parse, the length limit and the code format are checked in turn.
pub open spec fn languages_outcome(s: Seq<char>) -> Result<Seq<Seq<char>>, (Seq<char>, DeserializationErrorKind)> {
    if byte_len(s) > MAX_JSON_SIZE {
        Err(("JSON payload too large: "@ + decimal(byte_len(s)) + " bytes"@, DeserializationErrorKind::PayloadTooLarge))
    } else {
        match json_string_array(s) {
            Err(m) => Err(("Invalid JSON format: "@ + m, DeserializationErrorKind::InvalidFormat)),
            Ok(ls) => if ls.len() > MAX_ARRAY_LENGTH {
                Err(("Languages array too large: "@ + decimal(ls.len()) + " items"@, DeserializationErrorKind::SecurityValidation))
            } else {
                match first_invalid_language(ls) {
                    Some(l) => Err(("Invalid language format: "@ + l, DeserializationErrorKind::SecurityValidation)),
                    None => Ok(ls),
                }
            },
        }
    }
}

/// The kind of a refusal.
#[derive(Debug, Clone, Copy, PartialEq, Eq, Structural)]
pub enum DeserializationErrorKind {
    PayloadTooLarge,
    InvalidFormat,
    SecurityValidation,
}

/// The kind of an error.
pub open spec fn kind_of(e: DeserializationError) -> DeserializationErrorKind {
    match e {
        DeserializationError::PayloadTooLarge { .. } => DeserializationErrorKind::PayloadTooLarge,
        DeserializationError::InvalidFormat(_) => DeserializationErrorKind::InvalidFormat,
        DeserializationError::SecurityValidation(_) => DeserializationErrorKind::SecurityValidation,
    }
}

/// A failure's message and kind.
pub open spec fn failure_view(f: DeserializationFailure) -> (Seq<char>, DeserializationErrorKind) {
    (f.message@, match f.source {
        Some(e) => kind_of(e),
        None => DeserializationErrorKind::InvalidFormat,
    })
}

fn failure(message: String, context: &str, suggestion: &str, source: DeserializationError) -> (f: DeserializationFailure)
    ensures
        f.message@ == message@,
        f.context@ == context@,
        f.suggestion@ == suggestion@,
        f.source == Some(source),
{
    DeserializationFailure { message, context: owned(context), suggestion: owned(suggestion), source: Some(source) }
}

fn described(prefix: &str, n: usize, suffix: &str) -> (s: String)
    ensures
        s@ == prefix@ + decimal(n as nat) + suffix@,
{
    let mut s = owned(prefix);
    push_decimal(&mut s, n as u64);
    push_str(&mut s, suffix);
    s
}

fn prefixed(prefix: &str, rest: &str) -> (s: String)
    ensures
        s@ == prefix@ + rest@,
{
    let mut s = owned(prefix);
    push_str(&mut s, rest);
    s
}

fn language_ok(l: &str) -> (r: bool)
    ensures
        r == valid_language(l@),
{
    if l.as_bytes().len() > 50 {
        return false;
    }
    let cs = crate::text::chars_of(l);
    let mut i: usize = 0;
    while i < cs.len()
        invariant
            i <= cs.len(),
            cs@ == l@,
            byte_len(l@) <= 50,
            forall|k: int| 0 <= k < i ==> (alphanumeric(#[trigger] l@[k]) || l@[k] == '-' || l@[k] == '_'),
        decreases cs.len() - i,
    {
        let c = cs[i];
        if !(is_alphanumeric(c) || c == '-' || c == '_') {
            return false;
        }
        i = i + 1;
    }
    true
}

/// Decodes a member's language list, refusing payloads over 1 MiB, text
/// that is not a JSON array of strings, more than 1000 entries, and codes
/// that are longer than 50 bytes or hold anything but letters, digits,
/// `-` and `_`.
pub fn deserialize_languages(json_str: &str) -> (r: Result<Vec<String>, DeserializationFailure>)
    ensures
        match r {
            Ok(v) => languages_outcome(json_str@) == Ok::<Seq<Seq<char>>, (Seq<char>, DeserializationErrorKind)>(views(v@)),
            Err(f) => languages_outcome(json_str@) == Err::<Seq<Seq<char>>, (Seq<char>, DeserializationErrorKind)>(failure_view(f))
                && f.context@ == "languages deserialization"@,
        },
{
    let size = json_str.as_bytes().len();
    if size > MAX_JSON_SIZE {
        return Err(failure(
            described("JSON payload too large: ", size, " bytes"),
            "languages deserialization",
            "Reduce payload size or increase limits",
            DeserializationError::PayloadTooLarge { size, max_size: MAX_JSON_SIZE },
        ));
    }
    let languages = match parse_string_array(json_str) {
        Ok(v) => v,
        Err(e) => {
            return Err(failure(
                prefixed("Invalid JSON format: ", e.as_str()),
                "languages deserialization",
                "Check JSON syntax and structure",
                DeserializationError::InvalidFormat(e),
            ));
        },
    };
    if languages.len() > MAX_ARRAY_LENGTH {
        let message = described("Languages array too large: ", languages.len(), " items");
        let detail = described("Languages array too large: ", languages.len(), " items");
        return Err(failure(
            message,
            "languages deserialization",
            "Reduce number of languages or increase limits",
            DeserializationError::SecurityValidation(detail),
        ));
    }
    let ghost ls = views(languages@);
    assert(ls.subrange(0, ls.len() as int) =~= ls);
    let mut i: usize = 0;
    while i < languages.len()
        invariant
            i <= languages.len(),
            ls == views(languages@),
            json_string_array(json_str@) matches Ok(x) && x == ls,
            byte_len(json_str@) <= MAX_JSON_SIZE,
            ls.len() <= MAX_ARRAY_LENGTH,
            first_invalid_language(ls) == first_invalid_language(ls.subrange(i as int, ls.len() as int)),
        decreases languages.len() - i,
    {
        proof {
            let rest = ls.subrange(i as int, ls.len() as int);
            assert(rest.drop_first() =~= ls.subrange(i + 1, ls.len() as int));
            assert(rest[0] == languages@[i as int]@);
        }
        if !language_ok(languages[i].as_str()) {
            proof {
                let rest = ls.subrange(i as int, ls.len() as int);
                assert(rest[0] == ls[i as int]);
                assert(first_invalid_language(rest) == Some(ls[i as int]));
                assert(languages_outcome(json_str@) == Err::<Seq<Seq<char>>, (Seq<char>, DeserializationErrorKind)>(("Invalid language format: "@ + ls[i as int], DeserializationErrorKind::SecurityValidation)));
            }
            let message = prefixed("Invalid language format: ", languages[i].as_str());
            let detail = prefixed("Invalid language format: ", languages[i].as_str());
            return Err(failure(
                message,
                "languages deserialization",
                "Use valid language codes (alphanumeric, hyphens, underscores only)",
                DeserializationError::SecurityValidation(detail),
            ));
        }
        i = i + 1;
    }
    proof {
        assert(ls.subrange(ls.len() as int, ls.len() as int) =~= Seq::<Seq<char>>::empty());
    }
    Ok(languages)
}

/// Some entry has a key over 100 bytes or a value over 1000 bytes.
pub open spec fn oversized_entry(m: Map<Seq<char>, Seq<char>>) -> bool {
    exists|k: Seq<char>| m.dom().contains(k) && (byte_len(k) > 100 || byte_len(#[trigger] m[k]) > 1000)
}

/// The outcome of decoding a member's custom fields: the size limit, the
/// JSON parse, the field count and the key and value lengths are checked
/// in turn.
pub open spec fn custom_fields_outcome(s: Seq<char>) -> Result<Map<Seq<char>, Seq<char>>, (Seq<char>, DeserializationErrorKind)> {
    if byte_len(s) > MAX_JSON_SIZE {
        Err(("JSON payload too large: "@ + decimal(byte_len(s)) + " bytes"@, DeserializationErrorKind::PayloadTooLarge))
    } else {
        match json_string_map(s) {
            Err(m) => Err(("Invalid JSON format: "@ + m, DeserializationErrorKind::InvalidFormat)),
            Ok(m) => if m.dom().len() > MAX_CUSTOM_FIELDS {
                Err(("Too many custom fields: "@ + decimal(m.dom().len()), DeserializationErrorKind::SecurityValidation))
            } else if oversized_entry(m) {
                Err(("Custom field key or value too large"@, DeserializationErrorKind::SecurityValidation))
            } else {
                Ok(m)
            },
        }
    }
}

/// The keys of a list of pairs.
pub open spec fn keys_of(v: Seq<(String, String)>) -> Seq<Seq<char>> {
    v.map_values(|e: (String, String)| e.0@)
}

proof fn lemma_pairs_map_facts(v: Seq<(String, String)>)
    requires
        distinct_keys(v),
    ensures
        pairs_map(v).dom().len() == v.len(),
        forall|i: int| 0 <= i < v.len() ==> pairs_map(v).dom().contains(#[trigger] v[i].0@)
            && pairs_map(v)[v[i].0@] == v[i].1@,
{
    let ks = keys_of(v);
    assert(pairs_map(v).dom() =~= ks.to_set()) by {
        assert forall|k: Seq<char>| pairs_map(v).dom().contains(k) <==> ks.to_set().contains(k) by {
            if pairs_map(v).dom().contains(k) {
                let i = choose|i: int| 0 <= i < v.len() && (#[trigger] v[i]).0@ == k;
                assert(ks[i] == k);
            }
            if ks.to_set().contains(k) {
                let i = choose|i: int| 0 <= i < ks.len() && ks[i] == k;
                assert(v[i].0@ == k);
            }
        }
    }
    assert(ks.no_duplicates()) by {
        assert forall|a: int, b: int| 0 <= a < ks.len() && 0 <= b < ks.len() && a != b implies ks[a] != ks[b] by {
            if a < b {
                assert(v[a].0@ != v[b].0@);
            } else {
                assert(v[b].0@ != v[a].0@);
            }
        }
    }
    ks.unique_seq_to_set();
    assert forall|i: int| 0 <= i < v.len() implies pairs_map(v).dom().contains(#[trigger] v[i].0@)
        && pairs_map(v)[v[i].0@] == v[i].1@ by {
        let k = v[i].0@;
        let j = choose|j: int| 0 <= j < v.len() && (#[trigger] v[j]).0@ == k;
        if j != i {
            if j < i {
                assert(v[j].0@ != v[i].0@);
            } else {
                assert(v[i].0@ != v[j].0@);
            }
        }
    }
}

fn entry_too_long(key: &String, value: &String) -> (r: bool)
    ensures
        r == (byte_len(key@) > 100 || byte_len(value@) > 1000),
{
    key.as_str().as_bytes().len() > 100 || value.as_str().as_bytes().len() > 1000
}

/// Decodes a member's custom fields, refusing payloads over 1 MiB, text
/// that is not a JSON object of strings, more than 50 fields, and keys over
/// 100 bytes or values over 1000 bytes. The fields come back each key
/// once, in no particular order.
pub fn deserialize_custom_fields(json_str: &str) -> (r: Result<Vec<(String, String)>, DeserializationFailure>)
    ensures
        match r {
            Ok(v) => distinct_keys(v@) && (custom_fields_outcome(json_str@) matches Ok(m) && m == pairs_map(v@)),
            Err(f) => (custom_fields_outcome(json_str@) matches Err(e) && e == failure_view(f))
                && f.context@ == "custom fields deserialization"@,
        },
{
    let size = json_str.as_bytes().len();
    if size > MAX_JSON_SIZE {
        return Err(failure(
            described("JSON payload too large: ", size, " bytes"),
            "custom fields deserialization",
            "Reduce payload size or increase limits",
            DeserializationError::PayloadTooLarge { size, max_size: MAX_JSON_SIZE },
        ));
    }
    let fields = match parse_string_map(json_str) {
        Ok(v) => v,
        Err(e) => {
            return Err(failure(
                prefixed("Invalid JSON format: ", e.as_str()),
                "custom fields deserialization",
                "Check JSON syntax and structure",
                DeserializationError::InvalidFormat(e),
            ));
        },
    };
    proof {
        lemma_pairs_map_facts(fields@);
    }
    if fields.len() > MAX_CUSTOM_FIELDS {
        let message = described("Too many custom fields: ", fields.len(), "");
        let detail = described("Too many custom fields: ", fields.len(), "");
        proof {
            reveal_strlit("");
            assert(message@ =~= "Too many custom fields: "@ + decimal(fields@.len()));
        }
        return Err(failure(
            message,
            "custom fields deserialization",
            "Reduce number of custom fields",
            DeserializationError::SecurityValidation(detail),
        ));
    }
    let mut i: usize = 0;
    while i < fields.len()
        invariant
            i <= fields.len(),
            distinct_keys(fields@),
            json_string_map(json_str@) matches Ok(x) && x == pairs_map(fields@),
            byte_len(json_str@) <= MAX_JSON_SIZE,
            pairs_map(fields@).dom().len() <= MAX_CUSTOM_FIELDS,
            forall|j: int| 0 <= j < fields@.len() ==> pairs_map(fields@).dom().contains(#[trigger] fields@[j].0@)
                && pairs_map(fields@)[fields@[j].0@] == fields@[j].1@,
            forall|j: int| 0 <= j < i ==> !(byte_len((#[trigger] fields@[j]).0@) > 100 || byte_len(fields@[j].1@) > 1000),
        decreases fields.len() - i,
    {
        if entry_too_long(&fields[i].0, &fields[i].1) {
            proof {
                let k = fields@[i as int].0@;
                assert(pairs_map(fields@).dom().contains(k));
                assert(pairs_map(fields@)[k] == fields@[i as int].1@);
            }
            return Err(failure(
                owned("Custom field key or value too large"),
                "custom fields deserialization",
                "Reduce field key/value length (max 100/1000 chars)",
                DeserializationError::SecurityValidation(owned("Custom field key or value too large")),
            ));
        }
        i = i + 1;
    }
    proof {
        let m = pairs_map(fields@);
        assert(!oversized_entry(m)) by {
            if oversized_entry(m) {
                let k = choose|k: Seq<char>| m.dom().contains(k) && (byte_len(k) > 100 || byte_len(#[trigger] m[k]) > 1000);
                let j = choose|j: int| 0 <= j < fields@.len() && (#[trigger] fields@[j]).0@ == k;
                assert(m[fields@[j].0@] == fields@[j].1@);
            }
        }
    }
    Ok(fields)
}

} // verus!
