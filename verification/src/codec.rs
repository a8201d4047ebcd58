//! How a content is written into a row and read back from it, as a JSON
//! document.

use vstd::prelude::*;
use vstd::string::*;
use crate::data::{Content, ContentModel, Tag, texts};
use crate::store::StoreError;

verus! {

/// Why `serde_json` could not write or read a document. Nothing is known of
/// what it holds.
#[verifier::external_type_specification]
#[verifier::external_body]
pub struct ExJsonError(serde_json::Error);

/// The JSON string literal that stands for the text `s`, quotes included.
pub uninterp spec fn json_text(s: Seq<char>) -> Seq<char>;

/// What reading the member `key` of the JSON document `doc` gives: `None`
/// where `doc` is no JSON document, `Some(Some(text))` where it is an object
/// whose member `key` is the string `text`, and `Some(None)` otherwise.
pub uninterp spec fn json_member(doc: Seq<char>, key: Seq<char>) -> Option<Option<Seq<char>>>;

/// Writes a text as a JSON string literal.
///
/// Calls `serde_json::to_string` on a `str`. That call writes the escaped
/// text into a byte vector, which has no failing path, so it always
/// succeeds; its result is the literal for the text.
#[verifier::external_body]
fn json_quote(s: &str) -> (quoted: Result<String, serde_json::Error>)
    ensures
        quoted is Ok,
        quoted matches Ok(t) ==> t@ == json_text(s@),
{
    serde_json::to_string(s)
}

/// Reads one string member of a JSON document.
///
/// Calls `serde_json::from_str` for a `serde_json::Value`, then `Value::get`
/// with the key and `Value::as_str` on what it finds. The error is the one of
/// `from_str`; a document that is no object, has no such member, or has one
/// that is no string, gives `Ok(None)`.
#[verifier::external_body]
fn json_string_member(doc: &str, key: &str) -> (member: Result<Option<String>, serde_json::Error>)
    ensures
        match member {
            Ok(Some(text)) => json_member(doc@, key@) == Some(Some(text@)),
            Ok(None) => json_member(doc@, key@) == Some(None::<Seq<char>>),
            Err(_) => json_member(doc@, key@) is None,
        },
{
    let value: serde_json::Value = serde_json::from_str(doc)?;
    Ok(value.get(key).and_then(|v| v.as_str()).map(|s| s.to_owned()))
}

/// The name under which a content's kind is stored.
pub open spec fn content_type_tag(content: ContentModel) -> Seq<char> {
    match content {
        ContentModel::Text { .. } => "text"@,
        ContentModel::Code { .. } => "code"@,
    }
}

/// The document of a text content, given its text as a JSON literal.
pub open spec fn text_document(text: Seq<char>) -> Seq<char> {
    "{\"text\":"@ + text + "}"@
}

/// The document of a code content, given its language and its code as JSON
/// literals.
pub open spec fn code_document(language: Seq<char>, code: Seq<char>) -> Seq<char> {
    "{\"language\":"@ + language + ",\"code\":"@ + code + "}"@
}

/// The document that a content is stored as.
pub open spec fn content_document(content: ContentModel) -> Seq<char> {
    match content {
        ContentModel::Text { text } => text_document(json_text(text)),
        ContentModel::Code { language, code } => code_document(
            json_text(language),
            json_text(code),
        ),
    }
}

/// The content that three members of a document stand for: a text where the
/// member `text` is a string, else code where `language` and `code` both
/// are, else none.
pub open spec fn content_of_members(
    text: Option<Seq<char>>,
    language: Option<Seq<char>>,
    code: Option<Seq<char>>,
) -> Option<ContentModel> {
    match text {
        Some(text) => Some(ContentModel::Text { text }),
        None => match (language, code) {
            (Some(language), Some(code)) => Some(ContentModel::Code { language, code }),
            _ => None,
        },
    }
}

/// The content that a stored document stands for, if any.
pub open spec fn decoded_content(doc: Seq<char>) -> Option<ContentModel> {
    match json_member(doc, "text"@) {
        None => None,
        Some(Some(text)) => Some(ContentModel::Text { text }),
        Some(None) => match (json_member(doc, "language"@), json_member(doc, "code"@)) {
            (Some(language), Some(code)) => content_of_members(None, language, code),
            _ => None,
        },
    }
}

/// Whether a content, written as a document, is read back as it was.
pub open spec fn reads_back(content: ContentModel) -> bool {
    decoded_content(content_document(content)) == Some(content)
}

/// The text of an optional string.
pub open spec fn optional_text(s: Option<String>) -> Option<Seq<char>> {
    match s {
        Some(s) => Some(s@),
        None => None,
    }
}

/// Puts the document of a text content together from its text as a JSON
/// literal.
pub fn write_text_document(text: &str) -> (doc: String)
    ensures
        doc@ == text_document(text@),
{
    let mut doc = String::from_str("{\"text\":");
    doc.append(text);
    doc.append("}");
    doc
}

/// Puts the document of a code content together from its language and its
/// code as JSON literals.
pub fn write_code_document(language: &str, code: &str) -> (doc: String)
    ensures
        doc@ == code_document(language@, code@),
{
    let mut doc = String::from_str("{\"language\":");
    doc.append(language);
    doc.append(",\"code\":");
    doc.append(code);
    doc.append("}");
    doc
}

/// Picks the content that three members of a document stand for.
pub fn read_members(text: Option<String>, language: Option<String>, code: Option<String>) -> (content:
    Option<Content>)
    ensures
        match content {
            Some(c) => content_of_members(
                optional_text(text),
                optional_text(language),
                optional_text(code),
            ) == Some(c@),
            None => content_of_members(
                optional_text(text),
                optional_text(language),
                optional_text(code),
            ) is None,
        },
{
    match text {
        Some(text) => Some(Content::Text { text }),
        None => match (language, code) {
            (Some(language), Some(code)) => Some(Content::Code { language, code }),
            _ => None,
        },
    }
}

/// A copy of the content.
pub fn clone_content(content: &Content) -> (copy: Content)
    ensures
        copy@ == content@,
{
    match content {
        Content::Text { text } => Content::Text { text: text.clone() },
        Content::Code { language, code } => Content::Code {
            language: language.clone(),
            code: code.clone(),
        },
    }
}

/// Whether two contents are the same.
pub fn same_content(a: &Content, b: &Content) -> (same: bool)
    ensures
        same == (a@ == b@),
{
    match (a, b) {
        (Content::Text { text: s }, Content::Text { text: t }) => *s == *t,
        (
            Content::Code { language: k, code: c },
            Content::Code { language: l, code: d },
        ) => *k == *l && *c == *d,
        _ => false,
    }
}

/// A copy of the tags.
pub fn clone_tags(tags: &Vec<Tag>) -> (copy: Vec<Tag>)
    ensures
        texts(copy@) == texts(tags@),
{
    let mut copy: Vec<Tag> = Vec::new();
    let mut i: usize = 0;
    while i < tags.len()
        invariant
            i <= tags.len(),
            texts(copy@) =~= texts(tags@).take(i as int),
        decreases tags.len() - i,
    {
        let ghost before = copy@;
        let tag = tags[i].clone();
        copy.push(tag);
        proof {
            assert(tag@ == tags@[i as int]@);
            assert(texts(copy@) =~= texts(before).push(tags@[i as int]@));
        }
        i += 1;
    }
    proof {
        assert(texts(tags@).take(i as int) =~= texts(tags@));
    }
    copy
}

/// The document and the kind name under which a content is stored.
pub fn content_to_string(content: Content) -> (result: Result<(String, String), StoreError>)
    ensures
        result matches Ok(stored) && stored.0@ == content_document(content@) && stored.1@
            == content_type_tag(content@),
{
    match content {
        Content::Text { text } => match json_quote(text.as_str()) {
            Ok(text) => Ok((write_text_document(text.as_str()), String::from_str("text"))),
            Err(_) => Err(StoreError::ValidationError),
        },
        Content::Code { language, code } => match json_quote(language.as_str()) {
            Ok(language) => match json_quote(code.as_str()) {
                Ok(code) => Ok(
                    (
                        write_code_document(language.as_str(), code.as_str()),
                        String::from_str("code"),
                    ),
                ),
                Err(_) => Err(StoreError::ValidationError),
            },
            Err(_) => Err(StoreError::ValidationError),
        },
    }
}

/// The content that a stored document stands for.
pub fn map_content(doc: &str) -> (result: Result<Content, StoreError>)
    ensures
        match result {
            Ok(content) => decoded_content(doc@) == Some(content@),
            Err(e) => e == StoreError::ValidationError && decoded_content(doc@) is None,
        },
{
    match json_string_member(doc, "text") {
        Err(_) => Err(StoreError::ValidationError),
        Ok(Some(text)) => Ok(Content::Text { text }),
        Ok(None) => match json_string_member(doc, "language") {
            Err(_) => Err(StoreError::ValidationError),
            Ok(language) => match json_string_member(doc, "code") {
                Err(_) => Err(StoreError::ValidationError),
                Ok(code) => match read_members(None, language, code) {
                    Some(content) => Ok(content),
                    None => Err(StoreError::ValidationError),
                },
            },
        },
    }
}

} // verus!
