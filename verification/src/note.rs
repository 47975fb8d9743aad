//! A note: a title, a body and the date it was written.

use crate::date::Date;
use crate::error::NoteError;
use crate::text::chars_of;
use vstd::prelude::*;

verus! {

/// The number of characters that a front end should let a title grow to.
pub const TITLE_LIMIT: usize = 100;

/// The number of characters that a front end should let a body grow to.
pub const CONTENT_LIMIT: usize = 1000;

/// Whether `c` is white space: one of the 25 characters to which Unicode
/// gives the property `White_Space`.
pub open spec fn is_whitespace(c: char) -> bool {
    let n = c as u32;
    ||| 0x09 <= n <= 0x0D
    ||| n == 0x20
    ||| n == 0x85
    ||| n == 0xA0
    ||| n == 0x1680
    ||| 0x2000 <= n <= 0x200A
    ||| n == 0x2028
    ||| n == 0x2029
    ||| n == 0x202F
    ||| n == 0x205F
    ||| n == 0x3000
}

/// Whether `text` holds nothing but white space. The empty text is blank.
pub open spec fn is_blank(text: Seq<char>) -> bool {
    forall|i: int| 0 <= i < text.len() ==> is_whitespace(#[trigger] text[i])
}

/// The title that a new note starts with.
pub open spec fn default_title() -> Seq<char> {
    "New Note"@
}

/// Whether `c` is white space.
pub fn whitespace(c: char) -> (white: bool)
    ensures
        white == is_whitespace(c),
{
    let n: u32 = c as u32;
    (0x09 <= n && n <= 0x0D) || n == 0x20 || n == 0x85 || n == 0xA0 || n == 0x1680 || (0x2000 <= n
        && n <= 0x200A) || n == 0x2028 || n == 0x2029 || n == 0x202F || n == 0x205F || n == 0x3000
}

/// Whether `text` holds nothing but white space.
pub fn blank(text: &str) -> (all_white: bool)
    ensures
        all_white == is_blank(text@),
{
    let chars = chars_of(text);
    let mut i: usize = 0;
    while i < chars.len()
        invariant
            i <= chars.len(),
            chars@ == text@,
            forall|j: int| 0 <= j < i ==> is_whitespace(#[trigger] chars@[j]),
        decreases chars.len() - i,
    {
        if !whitespace(chars[i]) {
            return false;
        }
        i += 1;
    }
    true
}

/// What a note holds, as mathematical values.
pub struct NoteView {
    pub title: Seq<char>,
    pub content: Seq<char>,
    pub date: Date,
}

impl NoteView {
    /// Whether this is a note as a user should have it: the title holds a
    /// character that is not white space, and the date is a day of the
    /// calendar.
    pub open spec fn valid(self) -> bool {
        !is_blank(self.title) && self.date.valid()
    }

    /// Whether title and body stay within the recommended lengths.
    pub open spec fn within_limits(self) -> bool {
        self.title.len() <= TITLE_LIMIT && self.content.len() <= CONTENT_LIMIT
    }
}

/// A note.
///
/// The fields are open: a note read from a file is kept as it was stored,
/// and a front end edits title and body freely. `is_valid` tells whether a
/// note is one that a user should have.
#[derive(Clone, Debug, PartialEq, Eq)]
pub struct Note {
    pub title: String,
    pub content: String,
    pub date: Date,
}

impl View for Note {
    type V = NoteView;

    open spec fn view(&self) -> NoteView {
        NoteView { title: self.title@, content: self.content@, date: self.date }
    }
}

/// What the result of reading a note holds, as mathematical values.
pub open spec fn read_view(read: Result<Note, NoteError>) -> Result<NoteView, NoteError> {
    match read {
        Ok(note) => Ok(note@),
        Err(error) => Err(error),
    }
}

/// What the result of writing a note holds, as mathematical values.
pub open spec fn written_view(written: Result<String, NoteError>) -> Result<Seq<char>, NoteError> {
    match written {
        Ok(text) => Ok(text@),
        Err(error) => Err(error),
    }
}

impl Note {
    /// The note that a session starts with: the title "New Note", an empty
    /// body and today's date.
    pub fn new_default() -> (note: Note)
        ensures
            note@.title == default_title(),
            note@.content == Seq::<char>::empty(),
            note@.date.valid(),
            note@.valid(),
            note@.within_limits(),
    {
        let note = Note {
            title: String::from_str("New Note"),
            content: String::new(),
            date: Date::today(),
        };
        proof {
            reveal_strlit("New Note");
            assert(!is_whitespace(note@.title[0]));
        }
        note
    }

    /// Whether this is a note as a user should have it.
    pub fn is_valid(&self) -> (ok: bool)
        ensures
            ok == self@.valid(),
    {
        !blank(self.title.as_str()) && self.date.is_valid()
    }

    /// Whether title and body stay within the recommended lengths, counted
    /// in characters.
    pub fn within_limits(&self) -> (ok: bool)
        ensures
            ok == self@.within_limits(),
    {
        self.title.as_str().unicode_len() <= TITLE_LIMIT && self.content.as_str().unicode_len()
            <= CONTENT_LIMIT
    }

    /// Whether two notes hold the same title, body and date.
    pub fn same_as(&self, other: &Note) -> (same: bool)
        ensures
            same == (self@ == other@),
    {
        self.title == other.title && self.content == other.content && self.date == other.date
    }
}

impl Default for Note {
    /// The note that a session starts with.
    fn default() -> (note: Note)
        ensures
            note@.title == default_title(),
            note@.content == Seq::<char>::empty(),
            note@.date.valid(),
            note@.valid(),
            note@.within_limits(),
    {
        Note::new_default()
    }
}

} // verus!
