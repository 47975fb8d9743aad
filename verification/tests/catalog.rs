use noteapp::catalog::{display_name, entry_path, filter_entries, matches_query};
use noteapp::codec::derive_default_save_path;
use noteapp::text::{chars_of, contains, ends_with, matches_at, remove_all, string_of_range};
use noteapp::{Codec, Date, Note};

fn chars(text: &str) -> Vec<char> {
    text.chars().collect()
}

fn names(all: &[&str]) -> Vec<String> {
    all.iter().map(|name| name.to_string()).collect()
}

#[test]
fn an_empty_query_lists_every_file() {
    let all = names(&["Ideas.json", "plans.txt", "", "Ünïcödé.json", "Ideas.json"]);
    assert_eq!(filter_entries(&all, ""), all);
    assert_eq!(filter_entries(&Vec::new(), ""), Vec::<String>::new());
}

#[test]
fn a_query_lists_the_names_that_hold_it_in_any_case() {
    let all = names(&["abc.json", "xABCx.txt", "AbC", "ab-c.json", "cba.json", "", "aabcc"]);
    assert_eq!(filter_entries(&all, "abc"), names(&["abc.json", "xABCx.txt", "AbC", "aabcc"]));
    assert_eq!(filter_entries(&all, "ABC"), names(&["abc.json", "xABCx.txt", "AbC", "aabcc"]));
    assert_eq!(filter_entries(&all, ".JSON"), names(&["abc.json", "ab-c.json", "cba.json"]));
    assert_eq!(filter_entries(&all, "zzz"), Vec::<String>::new());
}

#[test]
fn a_listing_is_part_of_the_full_listing() {
    let all = names(&["Ideas.json", "ideas v2.json", "plans.txt", "IDEAS", "plan.json"]);
    let full = filter_entries(&all, "");
    for query in ["ideas", "IDEAS v2", ".json", "o", "nothing", " "] {
        let shown = filter_entries(&all, query);
        let mut from = 0;
        for name in &shown {
            let at = full[from..].iter().position(|other| other == name).unwrap();
            from += at + 1;
            assert!(name.to_lowercase().contains(&query.to_lowercase()));
        }
        for name in &full {
            if name.to_lowercase().contains(&query.to_lowercase()) {
                assert!(shown.contains(name));
            }
        }
    }
}

#[test]
fn a_query_matches_beyond_ascii() {
    assert!(matches_query("ÄRGER.json", "ärger"));
    assert!(matches_query("ärger.json", "ÄRGER"));
    assert!(matches_query("ΣΟΦΙΑ", "σοφ"));
    assert!(!matches_query("arger.json", "ärger"));
}

#[test]
fn a_query_matches_a_name() {
    assert!(matches_query("Ideas.json", ""));
    assert!(matches_query("", ""));
    assert!(matches_query("Ideas.json", "ideas"));
    assert!(matches_query("Ideas.json", "IDEAS.JSON"));
    assert!(matches_query("Ideas.json", "s.j"));
    assert!(!matches_query("Ideas.json", "ideas.jsonx"));
    assert!(!matches_query("", "a"));
    assert!(!matches_query("Ideas.json", "idea s"));
}

#[test]
fn entries_lie_directly_under_the_notes_directory() {
    assert_eq!(entry_path("Ideas.json"), "notes/Ideas.json");
    assert_eq!(entry_path(""), "notes/");
    assert_eq!(entry_path("New Note.json"), "notes/New Note.json");
}

#[test]
fn the_default_save_path_is_the_title_and_the_ending() {
    let mut note = Note {
        title: "Ideas".to_string(),
        content: "body".to_string(),
        date: Date { day: 5, month: 3, year: 2024 },
    };
    assert_eq!(derive_default_save_path(&note, Codec::Structured), "Ideas.json");
    assert_eq!(derive_default_save_path(&note, Codec::Legacy), "Ideas.txt");
    note.title = String::new();
    assert_eq!(derive_default_save_path(&note, Codec::Structured), ".json");
    note.title = "a.txt".to_string();
    assert_eq!(derive_default_save_path(&note, Codec::Structured), "a.txt.json");
}

#[test]
fn the_ending_of_a_name_picks_the_format() {
    assert_eq!(Codec::for_file_name("Ideas.json"), Codec::Structured);
    assert_eq!(Codec::for_file_name("Ideas.txt"), Codec::Legacy);
    assert_eq!(Codec::for_file_name(".txt"), Codec::Legacy);
    assert_eq!(Codec::for_file_name("txt"), Codec::Structured);
    assert_eq!(Codec::for_file_name("Ideas.TXT"), Codec::Structured);
    assert_eq!(Codec::for_file_name("Ideas.txt.json"), Codec::Structured);
    assert_eq!(Codec::for_file_name("Ideas.json.txt"), Codec::Legacy);
    assert_eq!(Codec::for_file_name("Ideas"), Codec::Structured);
    assert_eq!(Codec::for_file_name(""), Codec::Structured);
    assert_eq!(Codec::Structured.extension(), ".json");
    assert_eq!(Codec::Legacy.extension(), ".txt");
}

#[test]
fn a_default_save_path_picks_the_format_it_was_made_for() {
    for title in ["Ideas", "", "a.txt", "a.json", ".tx", "x.t"] {
        let note = Note {
            title: title.to_string(),
            content: String::new(),
            date: Date { day: 5, month: 3, year: 2024 },
        };
        for codec in [Codec::Structured, Codec::Legacy] {
            let path = derive_default_save_path(&note, codec);
            assert_eq!(Codec::for_file_name(&path), codec);
        }
    }
}

#[test]
fn texts_become_characters_and_back() {
    assert_eq!(chars_of(""), Vec::<char>::new());
    assert_eq!(chars_of("aé😀"), vec!['a', 'é', '😀']);
    let all = chars("hello world");
    assert_eq!(string_of_range(&all, 0, all.len()), "hello world");
    assert_eq!(string_of_range(&all, 6, 11), "world");
    assert_eq!(string_of_range(&all, 3, 3), "");
}

#[test]
fn one_text_stands_in_another() {
    assert!(contains(&chars("hello world"), &chars("lo w")));
    assert!(contains(&chars("hello world"), &chars("hello world")));
    assert!(contains(&chars("hello world"), &chars("")));
    assert!(contains(&chars(""), &chars("")));
    assert!(contains(&chars("aab"), &chars("ab")));
    assert!(contains(&chars("hello"), &chars("o")));
    assert!(!contains(&chars("hello world"), &chars("low")));
    assert!(!contains(&chars("hello"), &chars("hello!")));
    assert!(!contains(&chars(""), &chars("a")));
}

#[test]
fn contains_agrees_with_the_standard_library() {
    let texts = ["", "a", "ab", "ba", "aab", "aba", "abab", "bbb", "abc", "cab"];
    for hay in texts {
        for needle in texts {
            assert_eq!(contains(&chars(hay), &chars(needle)), hay.contains(needle));
            assert_eq!(ends_with(&chars(hay), &chars(needle)), hay.ends_with(needle));
        }
    }
}

#[test]
fn one_text_stands_at_a_place_in_another() {
    let hay = chars("hello");
    assert!(matches_at(&chars("he"), &hay, 0));
    assert!(matches_at(&chars("lo"), &hay, 3));
    assert!(matches_at(&chars(""), &hay, 5));
    assert!(!matches_at(&chars(""), &hay, 6));
    assert!(!matches_at(&chars("lo"), &hay, 4));
    assert!(!matches_at(&chars("lo"), &hay, usize::MAX));
    assert!(!matches_at(&chars("el"), &hay, 0));
}

#[test]
fn the_list_shows_names_without_the_ending() {
    assert_eq!(display_name("Ideas.json"), "Ideas");
    assert_eq!(display_name("New Note.json"), "New Note");
    assert_eq!(display_name("plans.txt"), "plans.txt");
    assert_eq!(display_name("a.json.b.json"), "a.b");
    assert_eq!(display_name(".json"), "");
    assert_eq!(display_name(""), "");
    assert_eq!(display_name(".js.jsonon"), ".json");
    assert_eq!(display_name("Ideas.JSON"), "Ideas.JSON");
}

#[test]
fn remove_all_agrees_with_the_standard_library() {
    let texts = ["", "a", "ab", "aab", "aba", "abab", "ababab", "aaa", "aaaa", "baab", "xyz"];
    let patterns = ["a", "ab", "aa", "aba", "ba", "abab", "q"];
    for text in texts {
        for pattern in patterns {
            let kept: String = remove_all(&chars(text), &chars(pattern)).into_iter().collect();
            assert_eq!(kept, text.replace(pattern, ""), "{:?} without {:?}", text, pattern);
        }
        let kept: String = remove_all(&chars(text), &chars("")).into_iter().collect();
        assert_eq!(kept, text);
    }
}
