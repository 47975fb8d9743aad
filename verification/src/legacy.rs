//! The plain-text format of a stored note, kept readable for the files of
//! earlier days:
//!
//! ```text
//! Title: <title>
//! Date: <dd>-<mm>-<yyyy>
//!
//! <body>
//! ```
//!
//! The title ends with its line, so a note whose title holds a line break
//! cannot be written in this format.

use crate::date::Date;
use crate::decimal::{
    all_digits, is_digit, lemma_padded, number_of, padded, parse_number, push_padded,
};
use crate::error::NoteError;
use crate::note::{read_view, written_view, Note, NoteView};
use crate::text::{chars_of, has_prefix, matches_at, string_of_range};
use vstd::prelude::*;

verus! {

/// The words that open the first line.
pub open spec fn title_label() -> Seq<char> {
    "Title: "@
}

/// The words that open the second line.
pub open spec fn date_label() -> Seq<char> {
    "Date: "@
}

/// A date as the format writes it: day and month in two digits or more,
/// the year in four or more, with hyphens between them.
pub open spec fn date_text(date: Date) -> Seq<char> {
    padded(date.day as nat, 2) + seq!['-'] + padded(date.month as nat, 2) + seq!['-'] + padded(
        date.year as nat,
        4,
    )
}

/// A note as the format writes it.
pub open spec fn legacy_text(note: NoteView) -> Seq<char> {
    title_label() + note.title + seq!['\n'] + date_label() + date_text(note.date) + seq![
        '\n',
        '\n',
    ] + note.content
}

/// What encoding a note gives: its text in this format, or `Persist`
/// where the title holds a line break, which the format cannot hold.
pub open spec fn encoded(note: NoteView) -> Result<Seq<char>, NoteError> {
    if note.title.contains('\n') {
        Err(NoteError::Persist)
    } else {
        Ok(legacy_text(note))
    }
}

/// What follows `prefix` in `text`, if `text` begins with it.
pub open spec fn strip_prefix(text: Seq<char>, prefix: Seq<char>) -> Option<Seq<char>> {
    if has_prefix(text, prefix) {
        Some(text.skip(prefix.len() as int))
    } else {
        None
    }
}

/// What stands before the first `mark` in `text`, and what stands after
/// it, if there is one.
pub open spec fn split_first(text: Seq<char>, mark: char) -> Option<(Seq<char>, Seq<char>)> {
    match text.index_of_first(mark) {
        Some(at) => Some((text.take(at), text.skip(at + 1))),
        None => None,
    }
}

/// The date that a line of the form `<day>-<month>-<year>` stands for.
/// The numbers are taken as they are, whether or not they name a day of
/// the calendar.
pub open spec fn line_date(line: Seq<char>) -> Option<Date> {
    match split_first(line, '-') {
        Some((day, rest)) => match split_first(rest, '-') {
            Some((month, year)) => match (number_of(day), number_of(month), number_of(year)) {
                (Some(day), Some(month), Some(year)) => Some(Date { day, month, year }),
                _ => None,
            },
            None => None,
        },
        None => None,
    }
}

/// The title of a text in this format, and what follows the title's line.
pub open spec fn title_line(text: Seq<char>) -> Option<(Seq<char>, Seq<char>)> {
    match strip_prefix(text, title_label()) {
        Some(rest) => split_first(rest, '\n'),
        None => None,
    }
}

/// The date of a text in this format, taken from what follows the
/// title's line, and what follows the date's line.
pub open spec fn date_line(text: Seq<char>) -> Option<(Date, Seq<char>)> {
    match strip_prefix(text, date_label()) {
        Some(rest) => match split_first(rest, '\n') {
            Some((line, after)) => match line_date(line) {
                Some(date) => Some((date, after)),
                None => None,
            },
            None => None,
        },
        None => None,
    }
}

/// The note that a text in this format stands for; `Decode` where the
/// text does not have the form.
pub open spec fn legacy_note(text: Seq<char>) -> Result<NoteView, NoteError> {
    match title_line(text) {
        Some((title, after_title)) => match date_line(after_title) {
            Some((date, after_date)) => match strip_prefix(after_date, seq!['\n']) {
                Some(content) => Ok(NoteView { title, content, date }),
                None => Err(NoteError::Decode),
            },
            None => Err(NoteError::Decode),
        },
        None => Err(NoteError::Decode),
    }
}

/// A text that begins with `prefix` goes on with the rest.
pub proof fn lemma_strip_prefix(prefix: Seq<char>, rest: Seq<char>)
    ensures
        strip_prefix(prefix + rest, prefix) == Some(rest),
{
    let text = prefix + rest;
    assert(text.subrange(0, prefix.len() as int) =~= prefix);
}

/// A text splits at its first `mark` into what stood before it and what
/// stands after it.
pub proof fn lemma_split_first(before: Seq<char>, mark: char, after: Seq<char>)
    requires
        !before.contains(mark),
    ensures
        split_first(before + seq![mark] + after, mark) == Some((before, after)),
{
    let text = before + seq![mark] + after;
    text.index_of_first_ensures(mark);
    assert(text[before.len() as int] == mark);
    let at = text.index_of_first(mark).unwrap();
    if at < before.len() {
        assert(before[at] == mark);
    }
}

/// A text of digits holds nothing but digits.
pub proof fn lemma_digits_hold_no(text: Seq<char>, mark: char)
    requires
        all_digits(text),
        !is_digit(mark),
    ensures
        !text.contains(mark),
{
    if text.contains(mark) {
        let i = choose|i: int| 0 <= i < text.len() && text[i] == mark;
        assert(is_digit(text[i]));
    }
}

/// A date that was written is read as the same date.
pub proof fn lemma_date_round_trip(date: Date)
    ensures
        line_date(date_text(date)) == Some(date),
        !date_text(date).contains('\n'),
{
    let day = padded(date.day as nat, 2);
    let month = padded(date.month as nat, 2);
    let year = padded(date.year as nat, 4);
    lemma_padded(date.day as nat, 2);
    lemma_padded(date.month as nat, 2);
    lemma_padded(date.year as nat, 4);
    lemma_digits_hold_no(day, '-');
    lemma_digits_hold_no(month, '-');
    let rest = month + seq!['-'] + year;
    assert(date_text(date) =~= day + seq!['-'] + rest);
    lemma_split_first(day, '-', rest);
    lemma_split_first(month, '-', year);
    let line = date_text(date);
    if line.contains('\n') {
        let i = choose|i: int| 0 <= i < line.len() && line[i] == '\n';
        if i < day.len() {
            assert(is_digit(day[i]));
        } else if day.len() < i < day.len() + 1 + month.len() {
            assert(is_digit(month[i - day.len() - 1]));
        } else if i > day.len() + 1 + month.len() {
            assert(is_digit(year[i - day.len() - 1 - month.len() - 1]));
        }
    }
}

/// A note that was written is read as the same note, as long as its
/// title holds no line break.
pub proof fn lemma_legacy_round_trip(note: NoteView)
    requires
        !note.title.contains('\n'),
    ensures
        legacy_note(legacy_text(note)) == Ok::<NoteView, NoteError>(note),
{
    let line = date_text(note.date);
    let after_date = seq!['\n'] + note.content;
    let after_date_label = line + seq!['\n'] + after_date;
    let after_title = date_label() + after_date_label;
    let after_title_label = note.title + seq!['\n'] + after_title;
    assert(legacy_text(note) =~= title_label() + after_title_label);
    lemma_strip_prefix(title_label(), after_title_label);
    lemma_split_first(note.title, '\n', after_title);
    lemma_strip_prefix(date_label(), after_date_label);
    lemma_date_round_trip(note.date);
    lemma_split_first(line, '\n', after_date);
    lemma_strip_prefix(seq!['\n'], note.content);
}

/// A text that begins with a prefix is the prefix and what follows it.
pub proof fn lemma_strip_prefix_joins(text: Seq<char>, prefix: Seq<char>)
    requires
        strip_prefix(text, prefix) is Some,
    ensures
        text == prefix + strip_prefix(text, prefix).unwrap(),
{
}

/// A text that splits at a mark is what stands before the mark, the mark
/// and what stands after it, and the mark does not stand before itself.
pub proof fn lemma_split_first_joins(text: Seq<char>, mark: char)
    requires
        split_first(text, mark) is Some,
    ensures
        text == split_first(text, mark).unwrap().0 + seq![mark] + split_first(
            text,
            mark,
        ).unwrap().1,
        !split_first(text, mark).unwrap().0.contains(mark),
{
    text.index_of_first_ensures(mark);
    let at = text.index_of_first(mark).unwrap();
    let before = text.take(at);
    if before.contains(mark) {
        let i = choose|i: int| 0 <= i < before.len() && before[i] == mark;
        assert(text[i] == mark);
    }
}

/// Only a text of the form is read as a note: the label of the title, a
/// title without a line break, a line break, the label of the date, a
/// line that stands for the date, two line breaks, and the body.
pub proof fn lemma_legacy_note_has_the_form(text: Seq<char>)
    requires
        legacy_note(text) is Ok,
    ensures
        !legacy_note(text).unwrap().title.contains('\n'),
        exists|line: Seq<char>|
            #![trigger line_date(line)]
            line_date(line) == Some(legacy_note(text).unwrap().date) && !line.contains('\n')
                && text == title_label() + legacy_note(text).unwrap().title + seq!['\n']
                + date_label() + line + seq!['\n', '\n'] + legacy_note(text).unwrap().content,
{
    let after_title_label = strip_prefix(text, title_label()).unwrap();
    lemma_strip_prefix_joins(text, title_label());
    let after_title = split_first(after_title_label, '\n').unwrap().1;
    lemma_split_first_joins(after_title_label, '\n');
    let after_date_label = strip_prefix(after_title, date_label()).unwrap();
    lemma_strip_prefix_joins(after_title, date_label());
    let (line, after_date) = split_first(after_date_label, '\n').unwrap();
    lemma_split_first_joins(after_date_label, '\n');
    lemma_strip_prefix_joins(after_date, seq!['\n']);
}

/// The place of the first `mark` among the characters from `from` up to
/// `to`.
fn find(chars: &Vec<char>, from: usize, to: usize, mark: char) -> (found: Option<usize>)
    requires
        from <= to <= chars.len(),
    ensures
        found is Some ==> from <= found.unwrap() < to && split_first(
            chars@.subrange(from as int, to as int),
            mark,
        ) == Some(
            (
                chars@.subrange(from as int, found.unwrap() as int),
                chars@.subrange(found.unwrap() + 1, to as int),
            ),
        ),
        found is None ==> split_first(chars@.subrange(from as int, to as int), mark) is None,
{
    let ghost window = chars@.subrange(from as int, to as int);
    let mut at: usize = from;
    while at < to
        invariant
            from <= at <= to <= chars.len(),
            window == chars@.subrange(from as int, to as int),
            forall|j: int| 0 <= j < at - from ==> window[j] != mark,
        decreases to - at,
    {
        if chars[at] == mark {
            proof {
                window.index_of_first_ensures(mark);
                assert(window[at - from] == mark);
            }
            return Some(at);
        }
        at += 1;
    }
    proof {
        window.index_of_first_ensures(mark);
    }
    None
}

/// The place behind `label`, if the characters from `from` up to `to`
/// begin with it.
fn skip_label(chars: &Vec<char>, from: usize, to: usize, label: &Vec<char>) -> (next: Option<
    usize,
>)
    requires
        from <= to <= chars.len(),
    ensures
        next is Some ==> next.unwrap() == from + label.len() && next.unwrap() <= to
            && strip_prefix(chars@.subrange(from as int, to as int), label@) == Some(
            chars@.subrange(next.unwrap() as int, to as int),
        ),
        next is None ==> strip_prefix(chars@.subrange(from as int, to as int), label@) is None,
{
    let ghost window = chars@.subrange(from as int, to as int);
    if label.len() > to - from {
        return None;
    }
    proof {
        assert(window.subrange(0, label.len() as int) =~= chars@.subrange(
            from as int,
            from + label.len(),
        ));
    }
    if matches_at(label, chars, from) {
        Some(from + label.len())
    } else {
        None
    }
}

/// The date that the characters from `from` up to `to` stand for.
fn parse_date(chars: &Vec<char>, from: usize, to: usize) -> (date: Option<Date>)
    requires
        from <= to <= chars.len(),
    ensures
        date == line_date(chars@.subrange(from as int, to as int)),
{
    let first = match find(chars, from, to, '-') {
        Some(at) => at,
        None => {
            return None;
        },
    };
    let second = match find(chars, first + 1, to, '-') {
        Some(at) => at,
        None => {
            return None;
        },
    };
    let day = parse_number(chars, from, first);
    let month = parse_number(chars, first + 1, second);
    let year = parse_number(chars, second + 1, to);
    match (day, month, year) {
        (Some(day), Some(month), Some(year)) => Some(Date { day, month, year }),
        _ => None,
    }
}

/// The note that a text in this format stands for.
pub fn decode(text: &str) -> (read: Result<Note, NoteError>)
    ensures
        read_view(read) == legacy_note(text@),
{
    let chars = chars_of(text);
    let end: usize = chars.len();
    assert(chars@.subrange(0, end as int) =~= text@);
    let title_words = chars_of("Title: ");
    let date_words = chars_of("Date: ");
    let title_from = match skip_label(&chars, 0, end, &title_words) {
        Some(next) => next,
        None => {
            return Err(NoteError::Decode);
        },
    };
    let title_to = match find(&chars, title_from, end, '\n') {
        Some(at) => at,
        None => {
            return Err(NoteError::Decode);
        },
    };
    let date_from = match skip_label(&chars, title_to + 1, end, &date_words) {
        Some(next) => next,
        None => {
            return Err(NoteError::Decode);
        },
    };
    let date_to = match find(&chars, date_from, end, '\n') {
        Some(at) => at,
        None => {
            return Err(NoteError::Decode);
        },
    };
    let date = match parse_date(&chars, date_from, date_to) {
        Some(date) => date,
        None => {
            return Err(NoteError::Decode);
        },
    };
    let mut line_break: Vec<char> = Vec::new();
    line_break.push('\n');
    let content_from = match skip_label(&chars, date_to + 1, end, &line_break) {
        Some(next) => next,
        None => {
            return Err(NoteError::Decode);
        },
    };
    let title = string_of_range(&chars, title_from, title_to);
    let content = string_of_range(&chars, content_from, end);
    Ok(Note { title, content, date })
}

/// Whether `text` holds a line break.
fn holds_line_break(text: &str) -> (found: bool)
    ensures
        found == text@.contains('\n'),
{
    let chars = chars_of(text);
    let mut i: usize = 0;
    while i < chars.len()
        invariant
            i <= chars.len(),
            chars@ == text@,
            forall|j: int| 0 <= j < i ==> chars@[j] != '\n',
        decreases chars.len() - i,
    {
        if chars[i] == '\n' {
            return true;
        }
        i += 1;
    }
    false
}

/// A date as the format writes it.
pub fn date_string(date: Date) -> (text: String)
    ensures
        text@ == date_text(date),
{
    let mut text = String::new();
    push_padded(&mut text, date.day, 2);
    text.push('-');
    push_padded(&mut text, date.month, 2);
    text.push('-');
    push_padded(&mut text, date.year, 4);
    text
}

/// The text in this format that stands for a note; `Persist` where the
/// title holds a line break, which the format cannot hold.
pub fn encode(note: &Note) -> (written: Result<String, NoteError>)
    ensures
        written_view(written) == encoded(note@),
        written is Ok ==> legacy_note(written.unwrap()@) == Ok::<NoteView, NoteError>(note@),
{
    if holds_line_break(note.title.as_str()) {
        return Err(NoteError::Persist);
    }
    let mut text = String::from_str("Title: ");
    text.append(note.title.as_str());
    text.push('\n');
    text.append("Date: ");
    text.append(date_string(note.date).as_str());
    text.push('\n');
    text.push('\n');
    text.append(note.content.as_str());
    proof {
        assert(text@ =~= legacy_text(note@));
        lemma_legacy_round_trip(note@);
    }
    Ok(text)
}

} // verus!
