//! The editing session: the one note that is open, the name it will be
//! saved under, the search that narrows the list of files, and the word
//! on how the last operation went.
//!
//! The session decides and computes. Its caller does the reading, writing
//! and removing of files, and tells the session how that went.

use crate::catalog::{entry_path, entry_path_text, filter_entries, listing, texts};
use crate::codec::{
    default_save_path, derive_default_save_path, lemma_default_path_tells_titles_apart, Codec,
};
use crate::date::Date;
use crate::error::NoteError;
use crate::note::{default_title, Note, NoteView};
use vstd::prelude::*;

verus! {

/// What a session holds, as mathematical values.
pub struct SessionView {
    /// The note that is open.
    pub note: NoteView,
    /// The file name that the user has set for saving, if any.
    pub save_path: Option<Seq<char>>,
    /// How the last operation went, if there was one since the note was
    /// started.
    pub status: Option<Seq<char>>,
    /// The search that narrows the list of files.
    pub search_query: Seq<char>,
    /// The format that a note is saved in unless the user names a file of
    /// another one.
    pub codec: Codec,
}

/// A file to be written: where, and what.
#[derive(Clone, Debug, PartialEq, Eq)]
pub struct StoredFile {
    /// The place of the file, under the notes directory.
    pub path: String,
    /// The text of the file.
    pub contents: String,
}

/// The word on a save that went well.
pub open spec fn saved_text() -> Seq<char> {
    "Note saved successfully!"@
}

/// The word on a load that went well.
pub open spec fn loaded_text() -> Seq<char> {
    "Note loaded."@
}

/// The word on a removal that went well.
pub open spec fn deleted_text() -> Seq<char> {
    "Note deleted."@
}

/// The text of the file that a save asks to be written, or why there is
/// none.
pub open spec fn contents_view(file: Result<StoredFile, NoteError>) -> Result<
    Seq<char>,
    NoteError,
> {
    match file {
        Ok(file) => Ok(file.contents@),
        Err(error) => Err(error),
    }
}

/// What loading a file gives: `File` where the file could not be read,
/// else what its text decodes to in the format that its name calls for.
pub open spec fn load_outcome(file_name: Seq<char>, contents: Option<&str>) -> Result<
    NoteView,
    NoteError,
> {
    match contents {
        Some(text) => Codec::of_name(file_name).decoded(text@),
        None => Err(NoteError::File),
    }
}

impl SessionView {
    /// Whether this is a session as it stands right after a note was
    /// started: the title "New Note", an empty body, a date that is a day
    /// of the calendar, no file name set and no word on an operation.
    pub open spec fn fresh(self) -> bool {
        &&& self.note.title == default_title()
        &&& self.note.content == Seq::<char>::empty()
        &&& self.note.date.valid()
        &&& self.save_path is None
        &&& self.status is None
    }

    /// The file name that the next save writes to: the one the user has
    /// set, else the one that follows from the title.
    pub open spec fn effective_save_path(self) -> Seq<char> {
        match self.save_path {
            Some(path) => path,
            None => default_save_path(self.note.title, self.codec),
        }
    }

    /// This session with another title.
    pub open spec fn with_title(self, title: Seq<char>) -> SessionView {
        SessionView { note: NoteView { title, ..self.note }, ..self }
    }

    /// This session with another body.
    pub open spec fn with_content(self, content: Seq<char>) -> SessionView {
        SessionView { note: NoteView { content, ..self.note }, ..self }
    }

    /// This session with another date on its note.
    pub open spec fn with_date(self, date: Date) -> SessionView {
        SessionView { note: NoteView { date, ..self.note }, ..self }
    }

    /// This session with another note.
    pub open spec fn with_note(self, note: NoteView) -> SessionView {
        SessionView { note, ..self }
    }

    /// This session with another word on the last operation.
    pub open spec fn with_status(self, status: Seq<char>) -> SessionView {
        SessionView { status: Some(status), ..self }
    }
}

/// The title moves the file name of the next save exactly when it changes
/// and the user has set no file name.
pub proof fn lemma_title_moves_save_path(session: SessionView, title: Seq<char>)
    ensures
        session.with_title(title).effective_save_path() != session.effective_save_path() <==> (
        title != session.note.title && session.save_path is None),
{
    lemma_default_path_tells_titles_apart(title, session.note.title, session.codec);
}

/// An editing session.
#[derive(Clone, Debug)]
pub struct NoteApp {
    note: Note,
    save_path: Option<String>,
    status: Option<String>,
    search_query: String,
    codec: Codec,
}

impl View for NoteApp {
    type V = SessionView;

    closed spec fn view(&self) -> SessionView {
        SessionView {
            note: self.note@,
            save_path: match self.save_path {
                Some(path) => Some(path@),
                None => None,
            },
            status: match self.status {
                Some(status) => Some(status@),
                None => None,
            },
            search_query: self.search_query@,
            codec: self.codec,
        }
    }
}

impl NoteApp {
    /// A session with a new note, an empty search and the structured
    /// format.
    pub fn new() -> (session: NoteApp)
        ensures
            session@.fresh(),
            session@.search_query == Seq::<char>::empty(),
            session@.codec == Codec::Structured,
    {
        NoteApp {
            note: Note::new_default(),
            save_path: None,
            status: None,
            search_query: String::new(),
            codec: Codec::Structured,
        }
    }

    /// The note that is open.
    pub fn note(&self) -> (note: &Note)
        ensures
            note@ == self@.note,
    {
        &self.note
    }

    /// The file name that the user has set for saving, if any.
    pub fn save_path_override(&self) -> (path: &Option<String>)
        ensures
            path is Some <==> self@.save_path is Some,
            path is Some ==> self@.save_path == Some(path.unwrap()@),
    {
        &self.save_path
    }

    /// How the last operation went.
    pub fn status(&self) -> (status: &Option<String>)
        ensures
            status is Some <==> self@.status is Some,
            status is Some ==> self@.status == Some(status.unwrap()@),
    {
        &self.status
    }

    /// The search that narrows the list of files.
    pub fn search_query(&self) -> (query: &str)
        ensures
            query@ == self@.search_query,
    {
        self.search_query.as_str()
    }

    /// The format that a note is saved in unless the user names a file of
    /// another one.
    pub fn codec(&self) -> (codec: Codec)
        ensures
            codec == self@.codec,
    {
        self.codec
    }

    /// The file name that the next save writes to.
    pub fn save_path(&self) -> (path: String)
        ensures
            path@ == self@.effective_save_path(),
    {
        match &self.save_path {
            Some(path) => path.clone(),
            None => derive_default_save_path(&self.note, self.codec),
        }
    }

    /// Starts a new note: the note becomes the default note of today, and
    /// the file name that the user had set and the word on the last
    /// operation are forgotten. Search and format stay.
    pub fn new_note(&mut self)
        ensures
            final(self)@.fresh(),
            final(self)@.search_query == old(self)@.search_query,
            final(self)@.codec == old(self)@.codec,
    {
        self.note = Note::new_default();
        self.save_path = None;
        self.status = None;
    }

    /// Gives the note another title. The file name of the next save
    /// follows the title unless the user has set one.
    pub fn set_title(&mut self, title: String)
        ensures
            final(self)@ == old(self)@.with_title(title@),
    {
        self.note.title = title;
    }

    /// Gives the note another body.
    pub fn set_content(&mut self, content: String)
        ensures
            final(self)@ == old(self)@.with_content(content@),
    {
        self.note.content = content;
    }

    /// Gives the note another date. The date is taken as it is; one made
    /// by `Date::from_parts` is a day of the calendar.
    pub fn set_date(&mut self, date: Date)
        ensures
            final(self)@ == old(self)@.with_date(date),
    {
        self.note.date = date;
    }

    /// Sets the file name of the next save. It stays until a new note is
    /// started, whatever happens to the title.
    pub fn set_save_path(&mut self, path: String)
        ensures
            final(self)@ == (SessionView { save_path: Some(path@), ..old(self)@ }),
    {
        self.save_path = Some(path);
    }

    /// Sets the search that narrows the list of files.
    pub fn set_search_query(&mut self, query: String)
        ensures
            final(self)@ == (SessionView { search_query: query@, ..old(self)@ }),
    {
        self.search_query = query;
    }

    /// Empties the search, so that the list shows every file.
    pub fn clear_search(&mut self)
        ensures
            final(self)@ == (SessionView { search_query: Seq::<char>::empty(), ..old(self)@ }),
    {
        self.search_query = String::new();
    }

    /// Sets the format that a note is saved in unless the user names a
    /// file of another one.
    pub fn set_codec(&mut self, codec: Codec)
        ensures
            final(self)@ == (SessionView { codec, ..old(self)@ }),
    {
        self.codec = codec;
    }

    /// The names out of `names`, the files of the notes directory, that
    /// the search shows.
    pub fn list_notes(&self, names: &Vec<String>) -> (shown: Vec<String>)
        ensures
            texts(shown@) == listing(texts(names@), self@.search_query),
            self@.search_query.len() == 0 ==> texts(shown@) == texts(names@),
    {
        filter_entries(names, self.search_query.as_str())
    }

    /// The file that saving the note writes: its place under the notes
    /// directory, and its text in the format that the file name calls for.
    ///
    /// The text is what encoding the note in that format gives, and it
    /// decodes to the note. Where no such text can be made the result is
    /// `Persist`, and nothing is to be written.
    pub fn save_note(&self) -> (file: Result<StoredFile, NoteError>)
        ensures
            Codec::of_name(self@.effective_save_path()).encoded(self@.note, contents_view(file)),
            file is Ok ==> file.unwrap().path@ == entry_path_text(self@.effective_save_path()),
            file is Ok ==> Codec::of_name(self@.effective_save_path()).decoded(
                file.unwrap().contents@,
            ) == Ok::<NoteView, NoteError>(self@.note),
            file is Err ==> file == Err::<StoredFile, NoteError>(NoteError::Persist),
    {
        let name = self.save_path();
        let codec = Codec::for_file_name(name.as_str());
        match codec.encode(&self.note) {
            Ok(contents) => Ok(StoredFile { path: entry_path(name.as_str()), contents }),
            Err(error) => Err(error),
        }
    }

    /// Takes note of how the writing of a saved file went: `Persist` where
    /// it was not written. The note stays as it is either way.
    pub fn save_finished(&mut self, written: bool) -> (outcome: Result<(), NoteError>)
        ensures
            written ==> outcome is Ok && final(self)@ == old(self)@.with_status(saved_text()),
            !written ==> outcome == Err::<(), NoteError>(NoteError::Persist) && final(self)@ == old(
                self,
            )@.with_status(NoteError::Persist.message_text()),
    {
        if written {
            self.status = Some(String::from_str("Note saved successfully!"));
            Ok(())
        } else {
            self.status = Some(NoteError::Persist.message());
            Err(NoteError::Persist)
        }
    }

    /// Opens the note of a file: `contents` is the text that was read from
    /// the file with this name, `None` where it could not be read.
    ///
    /// Where the text decodes to a note, that note is open afterwards.
    /// Where it does not, or was not read, the open note stays as it is,
    /// and the result says why.
    pub fn load_note(&mut self, file_name: &str, contents: Option<&str>) -> (outcome: Result<
        (),
        NoteError,
    >)
        ensures
            load_outcome(file_name@, contents) matches Ok(note) ==> outcome is Ok && final(self)@
                == old(self)@.with_note(note).with_status(loaded_text()),
            load_outcome(file_name@, contents) matches Err(error) ==> outcome == Err::<
                (),
                NoteError,
            >(error) && final(self)@ == old(self)@.with_status(error.message_text()),
    {
        let read = match contents {
            Some(text) => Codec::for_file_name(file_name).decode(text),
            None => Err(NoteError::File),
        };
        match read {
            Ok(note) => {
                self.note = note;
                self.status = Some(String::from_str("Note loaded."));
                Ok(())
            },
            Err(error) => {
                self.status = Some(error.message());
                Err(error)
            },
        }
    }

    /// Takes note of how the removal of a file went: `File` where it was
    /// not removed. The open note stays as it is, also where it came from
    /// that file.
    pub fn delete_note(&mut self, removed: bool) -> (outcome: Result<(), NoteError>)
        ensures
            removed ==> outcome is Ok && final(self)@ == old(self)@.with_status(deleted_text()),
            !removed ==> outcome == Err::<(), NoteError>(NoteError::File) && final(self)@ == old(
                self,
            )@.with_status(NoteError::File.message_text()),
    {
        if removed {
            self.status = Some(String::from_str("Note deleted."));
            Ok(())
        } else {
            self.status = Some(NoteError::File.message());
            Err(NoteError::File)
        }
    }
}

impl Default for NoteApp {
    /// A session with a new note.
    fn default() -> (session: NoteApp)
        ensures
            session@.fresh(),
            session@.search_query == Seq::<char>::empty(),
            session@.codec == Codec::Structured,
    {
        NoteApp::new()
    }
}

} // verus!
