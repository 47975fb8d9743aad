//! The structured format of a stored note: a JSON object with the members
//! `title`, `content` and `date`, the last an object with the members
//! `day`, `month` and `year`.

use crate::date::Date;
use crate::error::NoteError;
use crate::json::{
    json_entries, json_get, json_member, json_parse, json_parsed, json_render, json_str, json_text,
    json_u64,
};
use crate::note::{read_view, written_view, Note, NoteView};
use serde_json::Value;
use vstd::prelude::*;

verus! {

/// The text that a JSON object holds under `key`, if it holds a string
/// there.
pub open spec fn text_field(doc: Value, key: Seq<char>) -> Option<Seq<char>> {
    match json_member(doc, key) {
        Some(member) => json_str(member),
        None => None,
    }
}

/// The number that a JSON object holds under `key`, if it holds there an
/// unsigned integer of at most 32 bits.
pub open spec fn number_field(doc: Value, key: Seq<char>) -> Option<u32> {
    match json_member(doc, key) {
        Some(member) => match json_u64(member) {
            Some(number) => if number <= u32::MAX {
                Some(number as u32)
            } else {
                None
            },
            None => None,
        },
        None => None,
    }
}

/// The date that a JSON object holds in its members `day`, `month` and
/// `year`, if all three are there. The three numbers are taken as they
/// are: a stored date need not be a day of the calendar.
pub open spec fn document_date(doc: Value) -> Option<Date> {
    match (number_field(doc, "day"@), number_field(doc, "month"@), number_field(doc, "year"@)) {
        (Some(day), Some(month), Some(year)) => Some(Date { day, month, year }),
        _ => None,
    }
}

/// The date that a JSON object holds under `date`.
pub open spec fn date_field(doc: Value) -> Option<Date> {
    match json_member(doc, "date"@) {
        Some(member) => document_date(member),
        None => None,
    }
}

/// The note that a JSON value stands for: `Schema` where a member is
/// missing or of the wrong type. Members beyond those of a note are
/// passed over.
pub open spec fn document_note(doc: Value) -> Result<NoteView, NoteError> {
    match (text_field(doc, "title"@), text_field(doc, "content"@), date_field(doc)) {
        (Some(title), Some(content), Some(date)) => Ok(NoteView { title, content, date }),
        _ => Err(NoteError::Schema),
    }
}

/// The note that a text in the structured format stands for: `Decode`
/// where the text is not well-formed JSON, `Schema` where it is, but is
/// no note.
pub open spec fn structured_note(text: Seq<char>) -> Result<NoteView, NoteError> {
    match json_parsed(text) {
        Some(doc) => document_note(doc),
        None => Err(NoteError::Decode),
    }
}

/// What becomes of a text that was written for a note: it is handed out
/// where it decodes to the note; `Persist` where it does not, or where no
/// text was written.
pub open spec fn confirmed(note: NoteView, text: Option<Seq<char>>) -> Result<
    Seq<char>,
    NoteError,
> {
    match text {
        Some(text) => if structured_note(text) == Ok::<NoteView, NoteError>(note) {
            Ok(text)
        } else {
            Err(NoteError::Persist)
        },
        None => Err(NoteError::Persist),
    }
}

/// Whether `written` is what encoding the note gives: there is a JSON
/// value that stands for the note, and `written` is what becomes of the
/// text that `serde_json` writes for it.
pub open spec fn encoded(note: NoteView, written: Result<Seq<char>, NoteError>) -> bool {
    exists|doc: Value| #[trigger]
        document_note(doc) == Ok::<NoteView, NoteError>(note) && written == confirmed(
            note,
            json_text(doc),
        )
}

/// The text that a JSON object holds under `key`.
fn read_text(doc: &Value, key: &str) -> (text: Option<String>)
    ensures
        text is Some <==> text_field(*doc, key@) is Some,
        text is Some ==> text_field(*doc, key@) == Some(text.unwrap()@),
{
    match json_get(doc, key) {
        Some(member) => match member.as_str() {
            Some(text) => Some(String::from_str(text)),
            None => None,
        },
        None => None,
    }
}

/// The number that a JSON object holds under `key`.
fn read_number(doc: &Value, key: &str) -> (number: Option<u32>)
    ensures
        number == number_field(*doc, key@),
{
    match json_get(doc, key) {
        Some(member) => match member.as_u64() {
            Some(number) => if number <= u32::MAX as u64 {
                Some(number as u32)
            } else {
                None
            },
            None => None,
        },
        None => None,
    }
}

/// The date that a JSON object holds in its members.
fn read_date(doc: &Value) -> (date: Option<Date>)
    ensures
        date == document_date(*doc),
{
    let day = read_number(doc, "day");
    let month = read_number(doc, "month");
    let year = read_number(doc, "year");
    match (day, month, year) {
        (Some(day), Some(month), Some(year)) => Some(Date { day, month, year }),
        _ => None,
    }
}

/// The note that a JSON value stands for.
pub fn note_from_document(doc: &Value) -> (read: Result<Note, NoteError>)
    ensures
        read_view(read) == document_note(*doc),
{
    let title = read_text(doc, "title");
    let content = read_text(doc, "content");
    let date = match json_get(doc, "date") {
        Some(member) => read_date(member),
        None => None,
    };
    match (title, content, date) {
        (Some(title), Some(content), Some(date)) => Ok(Note { title, content, date }),
        _ => Err(NoteError::Schema),
    }
}

/// The note that a text in the structured format stands for.
pub fn decode(text: &str) -> (read: Result<Note, NoteError>)
    ensures
        read_view(read) == structured_note(text@),
{
    match json_parse(text) {
        Ok(doc) => note_from_document(&doc),
        Err(_) => Err(NoteError::Decode),
    }
}

/// The JSON object that stands for a date.
fn date_to_document(date: Date) -> (doc: Value)
    ensures
        document_date(doc) == Some(date),
{
    let mut members = serde_json::Map::new();
    let day = Value::from(date.day as u64);
    let month = Value::from(date.month as u64);
    let year = Value::from(date.year as u64);
    members.insert(String::from_str("day"), day);
    members.insert(String::from_str("month"), month);
    members.insert(String::from_str("year"), year);
    let ghost entries = json_entries(members);
    let doc = Value::from(members);
    proof {
        reveal_strlit("day");
        reveal_strlit("month");
        reveal_strlit("year");
        // the keys differ in length, so each holds what was put under it
        assert("day"@.len() == 3 && "month"@.len() == 5 && "year"@.len() == 4);
        assert(entries["day"@] == day && entries["month"@] == month && entries["year"@] == year);
    }
    doc
}

/// The JSON object that stands for a note. Read back, it gives the note
/// again.
pub fn note_to_document(note: &Note) -> (doc: Value)
    ensures
        document_note(doc) == Ok::<NoteView, NoteError>(note@),
{
    let mut members = serde_json::Map::new();
    let title = Value::from(note.title.clone());
    let content = Value::from(note.content.clone());
    let date = date_to_document(note.date);
    members.insert(String::from_str("title"), title);
    members.insert(String::from_str("content"), content);
    members.insert(String::from_str("date"), date);
    let ghost entries = json_entries(members);
    let doc = Value::from(members);
    proof {
        reveal_strlit("title");
        reveal_strlit("content");
        reveal_strlit("date");
        // the keys differ in length, so each holds what was put under it
        assert("title"@.len() == 5 && "content"@.len() == 7 && "date"@.len() == 4);
        assert(entries["title"@] == title && entries["content"@] == content && entries["date"@]
            == date);
    }
    doc
}

/// Hands out a text that was written for a note, if it stands for the
/// note.
///
/// The text is read back: it is handed out where it decodes to the note,
/// and `Persist` is the result where it does not.
pub fn confirm(note: &Note, text: String) -> (written: Result<String, NoteError>)
    ensures
        written_view(written) == confirmed(note@, Some(text@)),
        written is Ok ==> written == Ok::<String, NoteError>(text),
{
    match decode(text.as_str()) {
        Ok(read) => if read.same_as(note) {
            Ok(text)
        } else {
            Err(NoteError::Persist)
        },
        Err(_) => Err(NoteError::Persist),
    }
}

/// The text in the structured format that stands for a note: the JSON
/// object of the note, written out by `serde_json` on indented lines,
/// the members in the order of their names.
///
/// The result is what becomes of the text that `serde_json` writes for
/// the object of the note. A text that comes out of here decodes to the
/// note it was made from; `Persist` where `serde_json` wrote no text, or
/// one that does not.
pub fn encode(note: &Note) -> (written: Result<String, NoteError>)
    ensures
        encoded(note@, written_view(written)),
        written is Ok ==> structured_note(written.unwrap()@) == Ok::<NoteView, NoteError>(note@),
        written is Err ==> written == Err::<String, NoteError>(NoteError::Persist),
{
    let doc = note_to_document(note);
    match json_render(&doc) {
        Ok(text) => confirm(note, text),
        Err(_) => Err(NoteError::Persist),
    }
}

} // verus!
