//! JSON documents held as text: what is read out of them and how they are
//! written.

use crate::error::Error;
use crate::text::{push_words, single_line};
use vstd::prelude::*;

verus! {

/// What `serde_json` makes of a byte string: the compact text of the JSON
/// document that the bytes spell, or nothing where they spell none.
pub uninterp spec fn json_compact(bytes: Seq<u8>) -> Option<Seq<char>>;

/// What `serde_json` finds under `key` in the JSON document `text`: the
/// compact text of the member, or nothing where the document is no object or
/// has no such member.
pub uninterp spec fn json_member(text: Seq<char>, key: Seq<char>) -> Option<Seq<char>>;

/// The compact texts of the elements of the JSON document `text` as
/// `serde_json` lists them, or nothing where the document is no array.
pub uninterp spec fn json_elements(text: Seq<char>) -> Option<Seq<Seq<char>>>;

/// The string that the JSON document `text` is, as `serde_json` reads it, or
/// nothing where the document is no string.
pub uninterp spec fn json_string(text: Seq<char>) -> Option<Seq<char>>;

/// The integer that the JSON document `text` is, as `serde_json` reads it
/// into 64 bits, or nothing where the document is no such integer.
pub uninterp spec fn json_integer(text: Seq<char>) -> Option<int>;

/// What `serde_json` writes for a string: the text between double quotes,
/// with the characters escaped that JSON does not take as they are.
pub uninterp spec fn json_quoted(s: Seq<char>) -> Seq<char>;

/// `serde_json::from_slice` into a `serde_json::Value`, printed again by the
/// value's `Display`, which writes compact JSON. The result is a function of
/// the bytes alone and is named `json_compact`; of the parser's error only
/// its `Display` text is kept, of which nothing is claimed. Compact JSON
/// has no white space between its tokens and escapes the control characters
/// inside its strings, so the text holds no line feed.
#[verifier::external_body]
fn compact_json(bytes: &[u8]) -> (parsed: Result<String, String>)
    ensures
        parsed is Ok <==> json_compact(bytes@) is Some,
        parsed matches Ok(text) ==> json_compact(bytes@) == Some(text@) && single_line(text@),
{
    match serde_json::from_slice::<serde_json::Value>(bytes) {
        Ok(value) => Ok(value.to_string()),
        Err(e) => Err(e.to_string()),
    }
}

/// `serde_json::Value::get` with a string key, on the document that `text`
/// spells; the member found is printed compactly, so without line feed.
/// The result is a function of the two texts alone and is named
/// `json_member`.
#[verifier::external_body]
fn member_text(text: &str, key: &str) -> (found: Option<String>)
    ensures
        found is Some <==> json_member(text@, key@) is Some,
        found matches Some(m) ==> json_member(text@, key@) == Some(m@) && single_line(m@),
{
    match serde_json::from_str::<serde_json::Value>(text) {
        Ok(value) => value.get(key).map(|member| member.to_string()),
        Err(_) => None,
    }
}

/// `serde_json::Value::as_array` on the document that `text` spells; each
/// element is printed compactly, so without line feed. The result is a
/// function of the text alone and is named `json_elements`.
#[verifier::external_body]
fn element_texts(text: &str) -> (found: Option<Vec<String>>)
    ensures
        found is Some <==> json_elements(text@) is Some,
        found matches Some(items) ==> {
            &&& json_elements(text@) == Some(Seq::new(items@.len(), |i: int| items@[i]@))
            &&& forall|i: int| 0 <= i < items@.len() ==> single_line(#[trigger] items@[i]@)
        },
{
    match serde_json::from_str::<serde_json::Value>(text) {
        Ok(value) => value.as_array().map(|items| items.iter().map(|i| i.to_string()).collect()),
        Err(_) => None,
    }
}

/// `serde_json::Value::as_str` on the document that `text` spells. The
/// result is a function of the text alone and is named `json_string`.
#[verifier::external_body]
fn string_value(text: &str) -> (found: Option<String>)
    ensures
        found is Some <==> json_string(text@) is Some,
        found matches Some(s) ==> json_string(text@) == Some(s@),
{
    match serde_json::from_str::<serde_json::Value>(text) {
        Ok(value) => value.as_str().map(|s| s.to_string()),
        Err(_) => None,
    }
}

/// `serde_json::Value::as_i64` on the document that `text` spells. The
/// result is a function of the text alone and is named `json_integer`.
#[verifier::external_body]
fn integer_value(text: &str) -> (found: Option<i64>)
    ensures
        found is Some <==> json_integer(text@) is Some,
        found matches Some(n) ==> json_integer(text@) == Some(n as int),
{
    match serde_json::from_str::<serde_json::Value>(text) {
        Ok(value) => value.as_i64(),
        Err(_) => None,
    }
}

/// `serde_json::to_string` on a string slice. It cannot fail on a string, and
/// its result is a function of the string alone, named `json_quoted`. Every
/// control character is written as an escape, so the result holds no line
/// feed.
#[verifier::external_body]
fn quote(s: &str) -> (quoted: String)
    ensures
        quoted@ == json_quoted(s@),
        single_line(quoted@),
{
    serde_json::to_string(s).unwrap_or_default()
}

/// Appends `s` as a JSON string.
pub fn push_quoted(out: &mut String, s: &str)
    ensures
        final(out)@ == old(out)@ + json_quoted(s@),
        single_line(old(out)@) ==> single_line(final(out)@),
{
    let quoted = quote(s);
    push_words(out, quoted.as_str());
}

/// The string under `key` in the document `text`, where there is one.
pub open spec fn json_string_member(text: Seq<char>, key: Seq<char>) -> Option<Seq<char>> {
    match json_member(text, key) {
        Some(member) => json_string(member),
        None => None,
    }
}

/// The integer under `key` in the document `text`, where there is one that
/// fits in 32 bits.
pub open spec fn json_i32_member(text: Seq<char>, key: Seq<char>) -> Option<i32> {
    match json_member(text, key) {
        Some(member) => match json_integer(member) {
            Some(n) => if i32::MIN <= n <= i32::MAX {
                Some(n as i32)
            } else {
                None
            },
            None => None,
        },
        None => None,
    }
}

/// The integer under `key` in the document `text`, where there is one that
/// fits in 64 bits.
pub open spec fn json_i64_member(text: Seq<char>, key: Seq<char>) -> Option<i64> {
    match json_member(text, key) {
        Some(member) => match json_integer(member) {
            Some(n) => if i64::MIN <= n <= i64::MAX {
                Some(n as i64)
            } else {
                None
            },
            None => None,
        },
        None => None,
    }
}

/// The member under `key` in the document `text`, where there is one other
/// than `null`.
pub open spec fn json_present_member(text: Seq<char>, key: Seq<char>) -> Option<Seq<char>> {
    match json_member(text, key) {
        Some(member) => if member == "null"@ {
            None
        } else {
            Some(member)
        },
        None => None,
    }
}

/// The texts of `items` with a comma between each two.
pub open spec fn comma_joined(items: Seq<Seq<char>>) -> Seq<char>
    decreases items.len(),
{
    if items.len() == 0 {
        Seq::empty()
    } else if items.len() == 1 {
        items[0]
    } else {
        comma_joined(items.drop_last()) + ","@ + items.last()
    }
}

/// The JSON array that holds `items` in their order.
pub open spec fn json_array(items: Seq<Seq<char>>) -> Seq<char> {
    "["@ + comma_joined(items) + "]"@
}

/// The compact texts of a list of documents.
pub open spec fn texts_of(documents: Seq<JsonText>) -> Seq<Seq<char>> {
    Seq::new(documents.len(), |i: int| documents[i]@)
}

/// Appends the JSON array of the documents.
pub fn push_documents(out: &mut String, documents: &Vec<JsonText>)
    ensures
        final(out)@ == old(out)@ + json_array(texts_of(documents@)),
        single_line(old(out)@) ==> single_line(final(out)@),
{
    let ghost start = out@;
    let ghost texts = texts_of(documents@);
    proof {
        reveal_strlit("[");
        reveal_strlit(",");
        reveal_strlit("]");
    }
    push_words(out, "[");
    let mut i: usize = 0;
    while i < documents.len()
        invariant
            i <= documents@.len(),
            texts == texts_of(documents@),
            out@ == start + "["@ + comma_joined(texts.take(i as int)),
            single_line(start) ==> single_line(out@),
            single_line(","@),
        decreases documents@.len() - i,
    {
        let ghost before = texts.take(i as int);
        let ghost after = texts.take(i + 1);
        assert(after.drop_last() == before);
        if i > 0 {
            push_words(out, ",");
        }
        push_words(out, documents[i].as_str());
        assert(out@ == start + "["@ + comma_joined(after));
        i += 1;
    }
    assert(texts.take(documents@.len() as int) == texts);
    push_words(out, "]");
}

/// A JSON document held as its compact text.
#[derive(Debug)]
pub struct JsonText {
    text: String,
}

impl View for JsonText {
    type V = Seq<char>;

    closed spec fn view(&self) -> Seq<char> {
        self.text@
    }
}

impl JsonText {
    /// The text of a document holds no line feed.
    #[verifier::type_invariant]
    spec fn one_line(self) -> bool {
        single_line(self.text@)
    }

    /// Reads a JSON document from the bytes of a response body. A body that
    /// is no JSON document is reported as a JSON error.
    pub fn parse(bytes: &[u8]) -> (parsed: Result<JsonText, Error>)
        ensures
            parsed is Ok <==> json_compact(bytes@) is Some,
            parsed matches Ok(doc) ==> json_compact(bytes@) == Some(doc@),
            parsed matches Err(e) ==> e is Json,
    {
        match compact_json(bytes) {
            Ok(text) => Ok(JsonText { text }),
            Err(reason) => Err(Error::Json(reason)),
        }
    }

    /// The compact text of the document, which holds no line feed.
    pub fn as_str(&self) -> (text: &str)
        ensures
            text@ == self@,
            single_line(text@),
    {
        proof {
            use_type_invariant(self);
        }
        self.text.as_str()
    }

    /// The member under `key`, where the document is an object that has one.
    pub fn member(&self, key: &str) -> (found: Option<JsonText>)
        ensures
            found is Some <==> json_member(self@, key@) is Some,
            found matches Some(m) ==> json_member(self@, key@) == Some(m@),
    {
        match member_text(self.text.as_str(), key) {
            Some(text) => Some(JsonText { text }),
            None => None,
        }
    }

    /// The elements of the document, where it is an array.
    pub fn elements(&self) -> (found: Option<Vec<JsonText>>)
        ensures
            found is Some <==> json_elements(self@) is Some,
            found matches Some(items) ==> json_elements(self@) == Some(texts_of(items@)),
    {
        match element_texts(self.text.as_str()) {
            None => None,
            Some(texts) => {
                let mut items: Vec<JsonText> = Vec::new();
                let mut i: usize = 0;
                while i < texts.len()
                    invariant
                        i <= texts@.len(),
                        items@.len() == i,
                        forall|j: int| 0 <= j < i ==> (#[trigger] items@[j])@ == texts@[j]@,
                        forall|j: int| 0 <= j < texts@.len() ==> single_line(#[trigger] texts@[j]@),
                    decreases texts@.len() - i,
                {
                    items.push(JsonText { text: texts[i].clone() });
                    i += 1;
                }
                Some(items)
            },
        }
    }

    /// The string that the document is, where it is one.
    pub fn as_string(&self) -> (found: Option<String>)
        ensures
            found is Some <==> json_string(self@) is Some,
            found matches Some(s) ==> json_string(self@) == Some(s@),
    {
        string_value(self.text.as_str())
    }

    /// The integer that the document is, where it is one of 64 bits.
    pub fn as_integer(&self) -> (found: Option<i64>)
        ensures
            found is Some <==> json_integer(self@) is Some,
            found matches Some(n) ==> json_integer(self@) == Some(n as int),
    {
        integer_value(self.text.as_str())
    }

    /// The string stored under `key` in the document, if there is one.
    pub fn string_member(&self, key: &str) -> (found: Option<String>)
        ensures
            found is Some <==> json_string_member(self@, key@) is Some,
            found matches Some(s) ==> json_string_member(self@, key@) == Some(s@),
    {
        match self.member(key) {
            Some(member) => member.as_string(),
            None => None,
        }
    }

    /// The integer stored under `key` in the document, if there is one that
    /// fits in 64 bits.
    pub fn i64_member(&self, key: &str) -> (found: Option<i64>)
        ensures
            found == json_i64_member(self@, key@),
    {
        match self.member(key) {
            Some(member) => member.as_integer(),
            None => None,
        }
    }

    /// The member stored under `key` in the document, if there is one other
    /// than `null`.
    pub fn present_member(&self, key: &str) -> (found: Option<JsonText>)
        ensures
            found is Some <==> json_present_member(self@, key@) is Some,
            found matches Some(m) ==> json_present_member(self@, key@) == Some(m@),
    {
        match self.member(key) {
            Some(member) => {
                let null = String::from_str("null");
                if member.text == null {
                    None
                } else {
                    Some(member)
                }
            },
            None => None,
        }
    }

    /// The integer stored under `key` in the document, if there is one that
    /// fits in 32 bits.
    pub fn i32_member(&self, key: &str) -> (found: Option<i32>)
        ensures
            found == json_i32_member(self@, key@),
    {
        match self.member(key) {
            Some(member) => match member.as_integer() {
                Some(n) => if -2147483648 <= n && n <= 2147483647 {
                    Some(n as i32)
                } else {
                    None
                },
                None => None,
            },
            None => None,
        }
    }
}

} // verus!
