//! The ways in which an operation on notes can fail.

use vstd::prelude::*;

verus! {

/// Why an operation was refused or did not complete.
#[derive(Clone, Copy, Debug, PartialEq, Eq, Structural)]
pub enum NoteError {
    /// Day, month and year do not name a day of the calendar.
    InvalidDate,
    /// A stored text is not well formed in the format of its file.
    Decode,
    /// A stored text is well formed, but a field of the note is missing or
    /// has the wrong type.
    Schema,
    /// A file or the notes directory could not be read or removed.
    File,
    /// A note could not be written.
    Persist,
}

impl NoteError {
    /// The sentence shown to the user for this failure.
    pub open spec fn message_text(self) -> Seq<char> {
        match self {
            NoteError::InvalidDate => "The date is not a day of the calendar."@,
            NoteError::Decode => "The file is not a well-formed note."@,
            NoteError::Schema => "The file lacks a part of a note or holds a wrong one."@,
            NoteError::File => "The file could not be read or removed."@,
            NoteError::Persist => "The note could not be written."@,
        }
    }

    /// The sentence shown to the user for this failure, as a string.
    pub fn message(&self) -> (text: String)
        ensures
            text@ == self.message_text(),
    {
        match self {
            NoteError::InvalidDate => String::from_str("The date is not a day of the calendar."),
            NoteError::Decode => String::from_str("The file is not a well-formed note."),
            NoteError::Schema => String::from_str(
                "The file lacks a part of a note or holds a wrong one.",
            ),
            NoteError::File => String::from_str("The file could not be read or removed."),
            NoteError::Persist => String::from_str("The note could not be written."),
        }
    }
}

} // verus!
