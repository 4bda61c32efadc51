//! Extraction of the generated message from the service's reply.
//!
//! The remote service answers with a JSON document; only the path
//! `choices[0].message.content` is consumed.  The document is modelled by
//! [`JsonValue`], and extraction is best-effort: whenever a key is absent
//! or a value has the wrong shape, the result degrades to the empty
//! string rather than an error.

use vstd::prelude::*;
use vstd::string::*;

verus! {

/// A structured document as handed back by the remote service.
///
/// Numbers are held as their literal text; the extraction below never
/// reads one, it only tells shapes apart.
pub enum JsonValue {
    Null,
    Boolean(bool),
    Number(String),
    Text(String),
    List(Vec<JsonValue>),
    Object(Vec<(String, JsonValue)>),
}

/// The value under `key` in an object's entries: the first entry whose
/// name equals `key`, or `None` when no entry has that name.
pub open spec fn lookup(entries: Seq<(String, JsonValue)>, key: Seq<char>) -> Option<JsonValue>
    decreases entries.len(),
{
    if entries.len() == 0 {
        None
    } else if entries[0].0@ == key {
        Some(entries[0].1)
    } else {
        lookup(entries.drop_first(), key)
    }
}

fn obj_get<'a>(entries: &'a Vec<(String, JsonValue)>, key: &String) -> (r: Option<&'a JsonValue>)
    ensures
        match r {
            Some(v) => lookup(entries@, key@) == Some(*v),
            None => lookup(entries@, key@) is None,
        },
{
    let mut i: usize = 0;
    assert(entries@.skip(0) =~= entries@);
    while i < entries.len()
        invariant
            i <= entries@.len(),
            lookup(entries@, key@) == lookup(entries@.skip(i as int), key@),
        decreases entries@.len() - i,
    {
        if entries[i].0 == *key {
            assert(entries@.skip(i as int)[0] == entries@[i as int]);
            return Some(&entries[i].1);
        }
        assert(entries@.skip(i as int).drop_first() =~= entries@.skip(i as int + 1));
        i = i + 1;
    }
    assert(entries@.skip(i as int) =~= Seq::<(String, JsonValue)>::empty());
    None
}

/// `s` with a single enclosing pair of quote characters removed; any
/// other string is returned unchanged.
pub open spec fn strip_quote_pair_spec(s: Seq<char>) -> Seq<char> {
    if s.len() >= 2 && s[0] == '"' && s[s.len() - 1] == '"' {
        s.subrange(1, s.len() - 1)
    } else {
        s
    }
}

/// Removes one enclosing quote pair from the outer edges of `s`, and
/// only from the outer edges: inner quotes are kept.
pub fn strip_quote_pair(s: &str) -> (r: String)
    ensures
        r@ == strip_quote_pair_spec(s@),
{
    let n: usize = s.unicode_len();
    if n >= 2 && s.get_char(0) == '"' && s.get_char(n - 1) == '"' {
        let inner = s.substring_char(1, n - 1);
        inner.to_owned()
    } else {
        s.to_owned()
    }
}

/// The text under `choices[0].message.content`, when every step of the
/// path is present with the expected shape, and nothing otherwise.
pub open spec fn content_text(doc: JsonValue) -> Option<Seq<char>> {
    match doc {
        JsonValue::Object(entries) => match lookup(entries@, "choices"@) {
            Some(JsonValue::List(items)) => if items@.len() > 0 {
                match items@[0] {
                    JsonValue::Object(choice_entries) => match lookup(
                        choice_entries@,
                        "message"@,
                    ) {
                        Some(JsonValue::Object(message_entries)) => match lookup(
                            message_entries@,
                            "content"@,
                        ) {
                            Some(JsonValue::Text(s)) => Some(s@),
                            _ => None,
                        },
                        _ => None,
                    },
                    _ => None,
                }
            } else {
                None
            },
            _ => None,
        },
        _ => None,
    }
}

/// The message carried by a reply document.  Extraction is best-effort
/// and never fails: a document that carries a text at
/// `choices[0].message.content` yields that text with one enclosing
/// quote pair stripped, and every other document — a missing key, an
/// empty `choices`, a value of the wrong shape anywhere on the path —
/// yields the empty message.
pub open spec fn extracted_message(doc: JsonValue) -> Seq<char> {
    match content_text(doc) {
        Some(s) => strip_quote_pair_spec(s),
        None => Seq::<char>::empty(),
    }
}

/// Extracts the generated message from a reply document.
///
/// Never fails: a document of an unexpected shape yields the empty
/// string.
pub fn extract_message(doc: &JsonValue) -> (r: String)
    ensures
        r@ == extracted_message(*doc),
{
    let key_choices = String::from_str("choices");
    let key_message = String::from_str("message");
    let key_content = String::from_str("content");
    match doc {
        JsonValue::Object(entries) => match obj_get(entries, &key_choices) {
            Some(JsonValue::List(items)) => {
                if items.len() > 0 {
                    match &items[0] {
                        JsonValue::Object(choice_entries) => match obj_get(
                            choice_entries,
                            &key_message,
                        ) {
                            Some(JsonValue::Object(message_entries)) => match obj_get(
                                message_entries,
                                &key_content,
                            ) {
                                Some(JsonValue::Text(s)) => strip_quote_pair(s.as_str()),
                                _ => String::new(),
                            },
                            _ => String::new(),
                        },
                        _ => String::new(),
                    }
                } else {
                    String::new()
                }
            },
            _ => String::new(),
        },
        _ => String::new(),
    }
}

} // verus!
