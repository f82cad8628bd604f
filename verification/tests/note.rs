use flashcards::fields::Fields;
use flashcards::note::{
    get_card_from_fields, get_note_md, heading, parse_lines, parse_note_into_fields, preview_note,
    render_back, render_front, render_note_card, Note, NoteCard,
};

fn fields_of(pairs: &[(&str, &str)]) -> Fields {
    let mut fields = Fields::new();
    for (name, value) in pairs {
        fields.insert(name.to_string(), value.to_string());
    }
    fields
}

#[test]
fn preview_note_basic() {
    let mut fields = Fields::new();
    fields.insert("Front".into(), "Front Text".into());
    fields.insert("Back".into(), "Back Text".into());

    let preview = preview_note(fields, "basic".into(), 1, true);

    assert_eq!("<p>Front Text</p>\n<hr />\n<p>Back Text</p>\n", preview);
}

#[test]
fn preview_note_basic_front_only() {
    let mut fields = Fields::new();
    fields.insert("Front".into(), "Front Text".into());
    fields.insert("Back".into(), "Back Text".into());

    let preview = preview_note(fields, "basic".into(), 1, false);

    assert_eq!("<p>Front Text</p>\n", preview);
}

#[test]
fn preview_note_basic_no_back_data() {
    let mut fields = Fields::new();
    fields.insert("Front".into(), "Front Text".into());

    let preview = preview_note(fields, "basic".into(), 1, true);

    assert_eq!("<p>Front Text</p>\n<hr />\n", preview);
}

#[test]
fn parsing_a_basic_note_gives_question_and_answer() {
    let fields = parse_note_into_fields("# Front\nQuestion\n# Back\nAnswer\n".to_string());
    assert_eq!(fields.get("Front").unwrap(), "Question");
    assert_eq!(fields.get("Back").unwrap(), "Answer");
    assert_eq!(fields.len(), 2);
    assert_eq!(fields.get("Middle"), None);
}

#[test]
fn field_text_is_joined_and_trimmed() {
    let fields = parse_note_into_fields(
        "preamble\n# Front\n\n\n  first line\nsecond line  \n\n# Back\n".to_string(),
    );
    assert_eq!(fields.get("Front").unwrap(), "first line\nsecond line");
    assert_eq!(fields.get("Back").unwrap(), "");
    assert_eq!(fields.len(), 2);
}

#[test]
fn a_repeated_heading_replaces_the_earlier_text() {
    let fields = parse_note_into_fields("# Front\nold\n# Back\nb\n# Front\nnew".to_string());
    assert_eq!(fields.entries, vec![
        ("Front".to_string(), "new".to_string()),
        ("Back".to_string(), "b".to_string()),
    ]);
}

#[test]
fn a_note_without_headings_has_no_fields() {
    assert_eq!(parse_note_into_fields("just text\nmore text".to_string()).len(), 0);
    assert_eq!(parse_note_into_fields(String::new()).len(), 0);
}

#[test]
fn heading_is_what_follows_the_first_hash_and_space() {
    assert_eq!(heading("# Front"), Some("Front".to_string()));
    assert_eq!(heading("## Front"), Some("Front".to_string()));
    assert_eq!(heading("see # here # there"), Some("here # there".to_string()));
    assert_eq!(heading("# "), Some(String::new()));
    assert_eq!(heading("#Front"), None);
    assert_eq!(heading("Front"), None);
    assert_eq!(heading(""), None);
}

#[test]
fn parse_lines_goes_by_the_headings_it_is_given() {
    let lines: Vec<String> = ["a", "b", "c", "d"].iter().map(|line| line.to_string()).collect();
    let headings = vec![Some("One".to_string()), None, Some("Two".to_string()), None];
    let fields = parse_lines(&lines, &headings);
    assert_eq!(fields.entries, vec![
        ("One".to_string(), "b".to_string()),
        ("Two".to_string(), "d".to_string()),
    ]);
    let short = parse_lines(&lines, &headings[..1].to_vec());
    assert_eq!(short.entries, vec![("One".to_string(), String::new())]);
}

#[test]
fn card_takes_front_and_back_from_the_fields() {
    let card = get_card_from_fields(
        fields_of(&[("Back", "Answer"), ("Extra", "x"), ("Front", "Question")]),
        "basic",
        1,
    );
    assert_eq!(card, NoteCard { front: "Question".to_string(), back: "Answer".to_string() });
    let empty = get_card_from_fields(Fields::new(), "basic", 1);
    assert_eq!(empty, NoteCard { front: String::new(), back: String::new() });
}

#[test]
fn note_markdown_lists_the_fields_in_order() {
    let md = get_note_md(fields_of(&[("Front", "Question"), ("Back", "Answer")]));
    assert_eq!(md, "# Front\nQuestion\n# Back\nAnswer\n");
    assert_eq!(get_note_md(Fields::new()), "");
}

#[test]
fn written_fields_are_read_back() {
    let fields = fields_of(&[("Front", "What is\nthe answer?"), ("Back", "42")]);
    assert_eq!(parse_note_into_fields(get_note_md(fields.clone())), fields);
}

#[test]
fn rendering_turns_markdown_into_html() {
    let fields = fields_of(&[("Front", "*Front* Text"), ("Back", "Back Text")]);
    assert_eq!(render_front(fields.clone(), "basic", 1), "<p><em>Front</em> Text</p>\n");
    assert_eq!(
        render_back(fields, "basic", 1),
        "<p><em>Front</em> Text</p>\n<hr />\n<p>Back Text</p>\n"
    );
}

#[test]
fn a_note_is_rendered_from_its_text() {
    let md = "# Front\nFront Text\n# Back\nBack Text\n".to_string();
    assert_eq!(render_note_card(md.clone(), "basic", 1, false), "<p>Front Text</p>\n");
    assert_eq!(
        render_note_card(md, "basic", 1, true),
        "<p>Front Text</p>\n<hr />\n<p>Back Text</p>\n"
    );
}

#[test]
fn note_path_names_identifier_and_template() {
    let note = Note::new("123".to_string(), "basicdeck".to_string(), "basic".to_string());
    assert_eq!(note.get_path("/tmp/collection"), "/tmp/collection/basicdeck/123_basic.md");
}

#[test]
fn note_keeps_what_it_was_made_from() {
    let note = Note::new("123".to_string(), "basicdeck".to_string(), "basic".to_string());
    assert_eq!(
        note,
        Note {
            note_id: "123".to_string(),
            deck_id: "basicdeck".to_string(),
            template: "basic".to_string(),
        }
    );
    let card = NoteCard { front: "Question".to_string(), back: "Answer".to_string() };
    assert_eq!(card.clone(), card);
}

#[test]
fn a_created_note_is_named_by_time_and_template() {
    let note = Note::new("draft".to_string(), "deck".to_string(), "basic".to_string());
    let stamped = note.stamped(1_700_000_000);
    assert_eq!(
        stamped,
        Note::new("1700000000_basic".to_string(), "deck".to_string(), "basic".to_string())
    );
    assert_eq!(stamped.get_path("c"), "c/deck/1700000000_basic_basic.md");
}
