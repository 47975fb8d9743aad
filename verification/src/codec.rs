//! The formats a note can be stored in, and the rule that picks one by the
//! name of the file.

use crate::error::NoteError;
use crate::legacy;
use crate::note::{read_view, written_view, Note, NoteView};
use crate::structured;
use crate::text::{chars_of, ends_with, has_suffix};
use vstd::prelude::*;

verus! {

/// A format of stored notes.
#[derive(Clone, Copy, Debug, PartialEq, Eq, Structural)]
pub enum Codec {
    /// A JSON object with the members of a note; files end in `.json`.
    Structured,
    /// Labelled lines of plain text; files end in `.txt`.
    Legacy,
}

/// The name under which a note with this title is stored unless the user
/// says otherwise: the title, then the ending of the format's files.
pub open spec fn default_save_path(title: Seq<char>, codec: Codec) -> Seq<char> {
    title + codec.extension_text()
}

impl Codec {
    /// The ending of this format's file names.
    pub open spec fn extension_text(self) -> Seq<char> {
        match self {
            Codec::Structured => ".json"@,
            Codec::Legacy => ".txt"@,
        }
    }

    /// The format of the file with this name: the plain-text format for a
    /// name that ends in `.txt`, the structured format for every other.
    pub open spec fn of_name(name: Seq<char>) -> Codec {
        if has_suffix(name, ".txt"@) {
            Codec::Legacy
        } else {
            Codec::Structured
        }
    }

    /// The note that a text in this format stands for.
    pub open spec fn decoded(self, text: Seq<char>) -> Result<NoteView, NoteError> {
        match self {
            Codec::Structured => structured::structured_note(text),
            Codec::Legacy => legacy::legacy_note(text),
        }
    }

    /// Whether `written` is what encoding the note in this format gives.
    ///
    /// In the plain-text format that is the text of the note, or `Persist`
    /// where the title holds a line break. In the structured format it is
    /// what becomes of the text that `serde_json` writes for the JSON
    /// object of the note.
    pub open spec fn encoded(self, note: NoteView, written: Result<Seq<char>, NoteError>) -> bool {
        match self {
            Codec::Structured => structured::encoded(note, written),
            Codec::Legacy => written == legacy::encoded(note),
        }
    }

    /// The ending of this format's file names.
    pub fn extension(&self) -> (ending: &'static str)
        ensures
            ending@ == self.extension_text(),
    {
        match self {
            Codec::Structured => ".json",
            Codec::Legacy => ".txt",
        }
    }

    /// The format of the file with this name.
    pub fn for_file_name(name: &str) -> (codec: Codec)
        ensures
            codec == Codec::of_name(name@),
    {
        let chars = chars_of(name);
        let ending = chars_of(".txt");
        if ends_with(&chars, &ending) {
            Codec::Legacy
        } else {
            Codec::Structured
        }
    }

    /// The note that a text in this format stands for: `Decode` where the
    /// text is not well formed, `Schema` where it is well formed and is no
    /// note. The date is taken as it was stored, valid or not.
    pub fn decode(&self, text: &str) -> (read: Result<Note, NoteError>)
        ensures
            read_view(read) == self.decoded(text@),
            read is Err ==> read_view(read) == Err::<NoteView, NoteError>(NoteError::Decode)
                || read_view(read) == Err::<NoteView, NoteError>(NoteError::Schema),
            self == Codec::Legacy && read is Err ==> read_view(read) == Err::<NoteView, NoteError>(
                NoteError::Decode,
            ),
    {
        match self {
            Codec::Structured => structured::decode(text),
            Codec::Legacy => legacy::decode(text),
        }
    }

    /// The text in this format that stands for a note.
    ///
    /// A text that comes out of here decodes to the note it was made from.
    /// Where no such text can be made the result is `Persist`; in the
    /// plain-text format that is the case exactly where the title holds a
    /// line break.
    pub fn encode(&self, note: &Note) -> (written: Result<String, NoteError>)
        ensures
            self.encoded(note@, written_view(written)),
            written is Ok ==> self.decoded(written.unwrap()@) == Ok::<NoteView, NoteError>(note@),
            written is Err ==> written == Err::<String, NoteError>(NoteError::Persist),
    {
        match self {
            Codec::Structured => structured::encode(note),
            Codec::Legacy => legacy::encode(note),
        }
    }
}

/// The name under which a note is stored unless the user says otherwise.
pub fn derive_default_save_path(note: &Note, codec: Codec) -> (path: String)
    ensures
        path@ == default_save_path(note@.title, codec),
{
    note.title.clone().concat(codec.extension())
}

/// A file stored under its default name is read in the format it was
/// written in.
pub proof fn lemma_default_path_keeps_codec(title: Seq<char>, codec: Codec)
    ensures
        Codec::of_name(default_save_path(title, codec)) == codec,
{
    reveal_strlit(".json");
    reveal_strlit(".txt");
    let path = default_save_path(title, codec);
    match codec {
        Codec::Structured => {
            // the name ends in `n`, not in `t`
            if has_suffix(path, ".txt"@) {
                let tail = path.subrange(path.len() - 4, path.len() as int);
                assert(tail[3] == path[path.len() - 1]);
            }
        },
        Codec::Legacy => {
            assert(path.subrange(path.len() - 4, path.len() as int) =~= ".txt"@);
        },
    }
}

/// Two titles give the same default name only if they are the same title.
pub proof fn lemma_default_path_tells_titles_apart(
    first: Seq<char>,
    second: Seq<char>,
    codec: Codec,
)
    ensures
        default_save_path(first, codec) == default_save_path(second, codec) <==> first == second,
{
    let ending = codec.extension_text();
    if default_save_path(first, codec) == default_save_path(second, codec) {
        assert(first =~= (first + ending).take(first.len() as int));
        assert(second =~= (second + ending).take(second.len() as int));
    }
}

} // verus!
