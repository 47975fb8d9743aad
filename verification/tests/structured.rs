use noteapp::structured::{confirm, decode, encode, note_from_document, note_to_document};
use noteapp::{Codec, Date, Note, NoteError};
use serde_json::Value;

fn sample() -> Note {
    Note {
        title: "Ideas".to_string(),
        content: "first line\nsecond \"line\"".to_string(),
        date: Date { day: 5, month: 3, year: 2024 },
    }
}

fn object(members: Vec<(&str, Value)>) -> Value {
    let mut map = serde_json::Map::new();
    for (key, value) in members {
        map.insert(key.to_string(), value);
    }
    Value::from(map)
}

fn date_object(day: u64, month: u64, year: u64) -> Value {
    object(vec![
        ("day", Value::from(day)),
        ("month", Value::from(month)),
        ("year", Value::from(year)),
    ])
}

#[test]
fn encode_writes_the_members_by_name_on_indented_lines() {
    let text = encode(&sample()).unwrap();
    let expected = [
        "{",
        "  \"content\": \"first line\\nsecond \\\"line\\\"\",",
        "  \"date\": {",
        "    \"day\": 5,",
        "    \"month\": 3,",
        "    \"year\": 2024",
        "  },",
        "  \"title\": \"Ideas\"",
        "}",
    ]
    .join("\n");
    assert_eq!(text, expected);
}

#[test]
fn encode_writes_date_numbers_without_padding() {
    let note = Note {
        title: "t".to_string(),
        content: String::new(),
        date: Date { day: 1, month: 2, year: 987 },
    };
    let text = encode(&note).unwrap();
    assert!(text.contains("\"day\": 1,"));
    assert!(text.contains("\"month\": 2,"));
    assert!(text.contains("\"year\": 987\n"));
}

#[test]
fn structured_round_trip() {
    let note = sample();
    assert_eq!(decode(&encode(&note).unwrap()), Ok(note));
}

#[test]
fn structured_round_trip_of_hard_texts() {
    let titles = ["a", "Ünïcödé ✓", "tab\there", "quote\"back\\slash", "line\nbreak", " lead", "{}[]:,"];
    let bodies = ["", "\u{0000}\u{001f}", "multi\nline\r\ntext", "日本語", "emoji 😀", "</script>"];
    for title in titles {
        for body in bodies {
            let note = Note {
                title: title.to_string(),
                content: body.to_string(),
                date: Date { day: 29, month: 2, year: 2024 },
            };
            assert_eq!(decode(&encode(&note).unwrap()), Ok(note));
        }
    }
}

#[test]
fn structured_round_trip_keeps_a_date_that_is_no_day() {
    let note = Note {
        title: "odd".to_string(),
        content: String::new(),
        date: Date { day: 0, month: 99, year: u32::MAX },
    };
    assert_eq!(decode(&encode(&note).unwrap()), Ok(note));
}

#[test]
fn decode_reads_a_note() {
    let text = "{\"title\":\"Ideas\",\"content\":\"body\",\"date\":{\"day\":5,\"month\":3,\"year\":2024}}";
    assert_eq!(
        decode(text),
        Ok(Note {
            title: "Ideas".to_string(),
            content: "body".to_string(),
            date: Date { day: 5, month: 3, year: 2024 },
        })
    );
}

#[test]
fn decode_does_not_mind_the_order_of_members() {
    let text = "{\"date\":{\"year\":2024,\"day\":5,\"month\":3},\"content\":\"body\",\"title\":\"Ideas\"}";
    assert_eq!(
        decode(text),
        Ok(Note {
            title: "Ideas".to_string(),
            content: "body".to_string(),
            date: Date { day: 5, month: 3, year: 2024 },
        })
    );
}

#[test]
fn decode_passes_over_members_it_does_not_know() {
    let text = "{\"title\":\"Ideas\",\"tags\":[1,2],\"content\":\"body\",\"date\":{\"day\":5,\"month\":3,\"year\":2024,\"era\":\"CE\"}}";
    assert_eq!(
        decode(text),
        Ok(Note {
            title: "Ideas".to_string(),
            content: "body".to_string(),
            date: Date { day: 5, month: 3, year: 2024 },
        })
    );
}

#[test]
fn decode_takes_a_stored_date_as_it_is() {
    let text = "{\"title\":\"Ideas\",\"content\":\"\",\"date\":{\"day\":31,\"month\":2,\"year\":0}}";
    let note = decode(text).unwrap();
    assert_eq!(note.date, Date { day: 31, month: 2, year: 0 });
    assert!(!note.date.is_valid());
}

#[test]
fn decode_takes_a_blank_title_as_it_is() {
    let text = "{\"title\":\"\",\"content\":\"\",\"date\":{\"day\":1,\"month\":2,\"year\":2024}}";
    assert_eq!(decode(text).unwrap().title, "");
}

#[test]
fn decode_fails_on_text_that_is_not_json() {
    assert_eq!(decode(""), Err(NoteError::Decode));
    assert_eq!(decode("not json"), Err(NoteError::Decode));
    assert_eq!(decode("{\"title\":\"Ideas\",\"content\":\"bo"), Err(NoteError::Decode));
    assert_eq!(decode("{\"title\":\"Ideas\",}"), Err(NoteError::Decode));
    assert_eq!(
        decode("{\"title\":\"a\",\"content\":\"b\",\"date\":{\"day\":1,\"month\":2,\"year\":2024}} x"),
        Err(NoteError::Decode)
    );
    assert_eq!(decode("Title: a\nDate: 01-02-2024\n\nbody"), Err(NoteError::Decode));
}

#[test]
fn decode_fails_on_json_that_is_no_note() {
    assert_eq!(decode("{}"), Err(NoteError::Schema));
    assert_eq!(decode("null"), Err(NoteError::Schema));
    assert_eq!(decode("[\"a\",\"b\",{\"day\":1,\"month\":2,\"year\":3}]"), Err(NoteError::Schema));
    assert_eq!(decode("\"title\""), Err(NoteError::Schema));
    assert_eq!(decode("42"), Err(NoteError::Schema));
}

#[test]
fn decode_fails_on_each_missing_member() {
    let texts = [
        "{\"content\":\"b\",\"date\":{\"day\":1,\"month\":2,\"year\":2024}}",
        "{\"title\":\"a\",\"date\":{\"day\":1,\"month\":2,\"year\":2024}}",
        "{\"title\":\"a\",\"content\":\"b\"}",
        "{\"title\":\"a\",\"content\":\"b\",\"date\":{\"month\":2,\"year\":2024}}",
        "{\"title\":\"a\",\"content\":\"b\",\"date\":{\"day\":1,\"year\":2024}}",
        "{\"title\":\"a\",\"content\":\"b\",\"date\":{\"day\":1,\"month\":2}}",
    ];
    for text in texts {
        assert_eq!(decode(text), Err(NoteError::Schema), "{}", text);
    }
}

#[test]
fn decode_fails_on_members_of_the_wrong_type() {
    let texts = [
        "{\"title\":1,\"content\":\"b\",\"date\":{\"day\":1,\"month\":2,\"year\":2024}}",
        "{\"title\":null,\"content\":\"b\",\"date\":{\"day\":1,\"month\":2,\"year\":2024}}",
        "{\"title\":\"a\",\"content\":[\"b\"],\"date\":{\"day\":1,\"month\":2,\"year\":2024}}",
        "{\"title\":\"a\",\"content\":\"b\",\"date\":\"01-02-2024\"}",
        "{\"title\":\"a\",\"content\":\"b\",\"date\":[1,2,2024]}",
        "{\"title\":\"a\",\"content\":\"b\",\"date\":{\"day\":\"1\",\"month\":2,\"year\":2024}}",
        "{\"title\":\"a\",\"content\":\"b\",\"date\":{\"day\":1.0,\"month\":2,\"year\":2024}}",
        "{\"title\":\"a\",\"content\":\"b\",\"date\":{\"day\":1,\"month\":-2,\"year\":2024}}",
        "{\"title\":\"a\",\"content\":\"b\",\"date\":{\"day\":1,\"month\":2,\"year\":4294967296}}",
        "{\"title\":\"a\",\"content\":\"b\",\"date\":{\"day\":1,\"month\":2,\"year\":1e3}}",
    ];
    for text in texts {
        assert_eq!(decode(text), Err(NoteError::Schema), "{}", text);
    }
}

#[test]
fn decode_takes_the_largest_number_that_fits() {
    let text = "{\"title\":\"a\",\"content\":\"b\",\"date\":{\"day\":4294967295,\"month\":0,\"year\":7}}";
    assert_eq!(decode(text).unwrap().date, Date { day: u32::MAX, month: 0, year: 7 });
}

#[test]
fn note_from_document_reads_a_built_object() {
    let doc = object(vec![
        ("title", Value::from("Ideas".to_string())),
        ("content", Value::from("body".to_string())),
        ("date", date_object(5, 3, 2024)),
    ]);
    assert_eq!(
        note_from_document(&doc),
        Ok(Note {
            title: "Ideas".to_string(),
            content: "body".to_string(),
            date: Date { day: 5, month: 3, year: 2024 },
        })
    );
}

#[test]
fn note_from_document_rejects_what_is_no_note() {
    let no_title = object(vec![
        ("content", Value::from("body".to_string())),
        ("date", date_object(5, 3, 2024)),
    ]);
    assert_eq!(note_from_document(&no_title), Err(NoteError::Schema));
    let number_title = object(vec![
        ("title", Value::from(7u64)),
        ("content", Value::from("body".to_string())),
        ("date", date_object(5, 3, 2024)),
    ]);
    assert_eq!(note_from_document(&number_title), Err(NoteError::Schema));
    let big_day = object(vec![
        ("title", Value::from("Ideas".to_string())),
        ("content", Value::from("body".to_string())),
        ("date", date_object(1 << 32, 3, 2024)),
    ]);
    assert_eq!(note_from_document(&big_day), Err(NoteError::Schema));
    let text_date = object(vec![
        ("title", Value::from("Ideas".to_string())),
        ("content", Value::from("body".to_string())),
        ("date", Value::from("05-03-2024".to_string())),
    ]);
    assert_eq!(note_from_document(&text_date), Err(NoteError::Schema));
    assert_eq!(note_from_document(&Value::from(3u64)), Err(NoteError::Schema));
}

#[test]
fn note_to_document_builds_the_members_of_a_note() {
    let note = sample();
    let doc = note_to_document(&note);
    assert_eq!(doc.get("title").and_then(Value::as_str), Some("Ideas"));
    assert_eq!(doc.get("content").and_then(Value::as_str), Some("first line\nsecond \"line\""));
    let date = doc.get("date").unwrap();
    assert_eq!(date.get("day").and_then(Value::as_u64), Some(5));
    assert_eq!(date.get("month").and_then(Value::as_u64), Some(3));
    assert_eq!(date.get("year").and_then(Value::as_u64), Some(2024));
    assert_eq!(doc.as_object().unwrap().len(), 3);
    assert_eq!(date.as_object().unwrap().len(), 3);
    assert_eq!(note_from_document(&doc), Ok(note));
}

#[test]
fn the_codec_dispatches_to_the_structured_format() {
    let note = sample();
    let text = Codec::Structured.encode(&note).unwrap();
    assert_eq!(text, encode(&note).unwrap());
    assert_eq!(Codec::Structured.decode(&text), Ok(note));
    assert_eq!(Codec::Structured.decode("{"), Err(NoteError::Decode));
    assert_eq!(Codec::Structured.decode("{}"), Err(NoteError::Schema));
}

#[test]
fn confirm_hands_out_only_a_text_that_stands_for_the_note() {
    let note = sample();
    let good = "{\"date\":{\"year\":2024,\"month\":3,\"day\":5},\"content\":\"first line\\nsecond \\\"line\\\"\",\"title\":\"Ideas\"}";
    assert_eq!(confirm(&note, good.to_string()), Ok(good.to_string()));
    let other_title = "{\"title\":\"Idea\",\"content\":\"first line\\nsecond \\\"line\\\"\",\"date\":{\"day\":5,\"month\":3,\"year\":2024}}";
    assert_eq!(confirm(&note, other_title.to_string()), Err(NoteError::Persist));
    let other_day = "{\"title\":\"Ideas\",\"content\":\"first line\\nsecond \\\"line\\\"\",\"date\":{\"day\":6,\"month\":3,\"year\":2024}}";
    assert_eq!(confirm(&note, other_day.to_string()), Err(NoteError::Persist));
    assert_eq!(confirm(&note, "{}".to_string()), Err(NoteError::Persist));
    assert_eq!(confirm(&note, "{".to_string()), Err(NoteError::Persist));
    assert_eq!(confirm(&note, String::new()), Err(NoteError::Persist));
}

#[test]
fn encode_hands_out_what_serde_json_writes_for_the_object_of_the_note() {
    for note in [
        sample(),
        Note { title: String::new(), content: String::new(), date: Date { day: 0, month: 0, year: 0 } },
        Note {
            title: "New Note".to_string(),
            content: String::new(),
            date: Date { day: 28, month: 10, year: 2026 },
        },
    ] {
        let written = serde_json::to_string_pretty(&note_to_document(&note)).unwrap();
        assert_eq!(encode(&note), Ok(written.clone()));
        assert_eq!(confirm(&note, written.clone()), Ok(written));
    }
}
