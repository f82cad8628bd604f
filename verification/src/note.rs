//! Notes: markdown files whose headings name the fields of a card.

use vstd::prelude::*;
use vstd::string::StringExecFns;
use crate::deck::{get_deck_path, join_path, path_join};
use crate::fields::{inserted, lookup, Fields};
use crate::pattern::{captured, regex_captures};
use crate::text::{decimal, decimal_of, lines, split_lines, trim, trimmed, views, NEWLINE};

verus! {

/// A note of a deck, named by its identifier and its template.
#[derive(Clone, Debug, PartialEq, Eq)]
pub struct Note {
    pub note_id: String,
    pub deck_id: String,
    pub template: String,
}

/// The two sides of a card.
#[derive(Clone, Debug, PartialEq, Eq)]
pub struct NoteCard {
    pub front: String,
    pub back: String,
}

/// The name of a note's file: identifier, underscore, template, `.md`.
pub open spec fn note_file_name(note_id: Seq<char>, template: Seq<char>) -> Seq<char> {
    note_id + seq!['_'] + template + seq!['.', 'm', 'd']
}

impl Note {
    pub fn new(note_id: String, deck_id: String, template: String) -> (note: Note)
        ensures
            note.note_id == note_id,
            note.deck_id == deck_id,
            note.template == template,
    {
        Note { note_id, deck_id, template }
    }

    /// The note under the identifier that it gets when it is created at
    /// `seconds` after the Unix epoch: the seconds in decimal notation, an
    /// underscore and the template.
    pub fn stamped(self, seconds: u64) -> (note: Note)
        ensures
            note.note_id@ == decimal_of(seconds as nat) + seq!['_'] + self.template@,
            note.deck_id == self.deck_id,
            note.template == self.template,
    {
        proof {
            reveal_strlit("_");
            assert("_"@ =~= seq!['_']);
        }
        let note_id = decimal(seconds).concat("_").concat(self.template.as_str());
        Note { note_id, deck_id: self.deck_id, template: self.template }
    }

    /// The file of the note, in its deck's directory under `collection`.
    pub fn get_path(&self, collection: &str) -> (path: String)
        ensures
            path@ == path_join(
                path_join(collection@, self.deck_id@),
                note_file_name(self.note_id@, self.template@),
            ),
    {
        proof {
            reveal_strlit("_");
            reveal_strlit(".md");
            assert("_"@ =~= seq!['_']);
            assert(".md"@ =~= seq!['.', 'm', 'd']);
        }
        let name = self.note_id.clone().concat("_").concat(self.template.as_str()).concat(".md");
        let deck = get_deck_path(collection, self.deck_id.as_str());
        join_path(deck.as_str(), name.as_str())
    }
}

/// The name that a line gives to a field, where the line is a heading: it
/// is what the pattern `# (.*)` captures in the line.
pub open spec fn heading_of(line: Seq<char>) -> Option<Seq<char>> {
    match captured("# (.*)"@, line) {
        Some((Some(name), _)) => Some(name),
        _ => None,
    }
}

/// The headings of some lines, line by line.
pub open spec fn headings_of(lines: Seq<Seq<char>>) -> Seq<Option<Seq<char>>> {
    Seq::new(lines.len(), |i: int| heading_of(lines[i]))
}

/// The texts of some optional strings.
pub open spec fn optional_views(strings: Seq<Option<String>>) -> Seq<Option<Seq<char>>> {
    Seq::new(strings.len(), |i: int| strings[i].deep_view())
}

/// The text of a field with one more line: lines are joined by newlines,
/// and empty lines at the start are dropped.
pub open spec fn accumulated(body: Seq<char>, line: Seq<char>) -> Seq<char> {
    if body.len() == 0 {
        line
    } else {
        body + seq![NEWLINE] + line
    }
}

/// The fields once the field that is being read, if any, has got its
/// text, trimmed.
pub open spec fn closed(
    fields: Seq<(Seq<char>, Seq<char>)>,
    current: Option<Seq<char>>,
    body: Seq<char>,
) -> Seq<(Seq<char>, Seq<char>)> {
    match current {
        Some(name) => inserted(fields, name, trimmed(body)),
        None => fields,
    }
}

/// The fields of a note, read from its line `at` on: a heading closes the
/// field before it and opens one of its name, any other line is added to the
/// text of the open field, and the end of the note closes the last field.
/// Lines before the first heading belong to no field.
pub open spec fn parsed_from(
    lines: Seq<Seq<char>>,
    headings: Seq<Option<Seq<char>>>,
    at: int,
    fields: Seq<(Seq<char>, Seq<char>)>,
    current: Option<Seq<char>>,
    body: Seq<char>,
) -> Seq<(Seq<char>, Seq<char>)>
    decreases lines.len() - at,
{
    if at < 0 || at >= lines.len() || at >= headings.len() {
        closed(fields, current, body)
    } else {
        match headings[at] {
            Some(name) => parsed_from(
                lines,
                headings,
                at + 1,
                closed(fields, current, body),
                Some(name),
                Seq::empty(),
            ),
            None => parsed_from(
                lines,
                headings,
                at + 1,
                fields,
                current,
                accumulated(body, lines[at]),
            ),
        }
    }
}

/// The fields of a note with the given lines, of which `headings` tells
/// which are headings.
pub open spec fn parsed_lines(lines: Seq<Seq<char>>, headings: Seq<Option<Seq<char>>>) -> Seq<
    (Seq<char>, Seq<char>),
> {
    parsed_from(lines, headings, 0, Seq::empty(), None, Seq::empty())
}

/// The fields of a note.
pub open spec fn parsed(markdown: Seq<char>) -> Seq<(Seq<char>, Seq<char>)> {
    parsed_lines(lines(markdown), headings_of(lines(markdown)))
}

/// The name of the field that a line opens, if the line is a heading.
pub fn heading(line: &str) -> (name: Option<String>)
    ensures
        name.deep_view() == heading_of(line@),
{
    match regex_captures("# (.*)", line) {
        Some((Some(name), _)) => Some(name),
        _ => None,
    }
}

/// Reads the fields of a note from its lines and their headings; lines
/// past the shorter of the two are not read.
pub fn parse_lines(lines: &Vec<String>, headings: &Vec<Option<String>>) -> (fields: Fields)
    ensures
        fields@ == parsed_lines(views(lines@), optional_views(headings@)),
        fields.wf(),
{
    let mut fields = Fields::new();
    let mut current: Option<String> = None;
    let mut body: String = String::new();
    let mut at: usize = 0;
    while at < lines.len() && at < headings.len()
        invariant
            fields.wf(),
            parsed_lines(views(lines@), optional_views(headings@)) == parsed_from(
                views(lines@),
                optional_views(headings@),
                at as int,
                fields@,
                current.deep_view(),
                body@,
            ),
        decreases lines.len() - at,
    {
        match &headings[at] {
            Some(name) => {
                if let Some(open) = current {
                    fields.insert(open, trim(body.as_str()));
                }
                current = Some(name.clone());
                body = String::new();
            },
            None => {
                if body.as_str().is_empty() {
                    body = lines[at].clone();
                } else {
                    proof {
                        reveal_strlit("\n");
                        assert("\n"@ =~= seq![NEWLINE]);
                    }
                    body = body.concat("\n").concat(lines[at].as_str());
                }
            },
        }
        at += 1;
    }
    if let Some(open) = current {
        fields.insert(open, trim(body.as_str()));
    }
    fields
}

/// Reads the fields of a note from its markdown text.
pub fn parse_note_into_fields(md: String) -> (fields: Fields)
    ensures
        fields@ == parsed(md@),
        fields.wf(),
{
    let lines = split_lines(md.as_str());
    let mut headings: Vec<Option<String>> = Vec::new();
    let mut at: usize = 0;
    while at < lines.len()
        invariant
            at <= lines.len(),
            headings@.len() == at,
            optional_views(headings@) =~= headings_of(views(lines@)).subrange(0, at as int),
        decreases lines.len() - at,
    {
        let ghost before = headings@;
        headings.push(heading(lines[at].as_str()));
        at += 1;
    }
    assert(optional_views(headings@) =~= headings_of(views(lines@)));
    parse_lines(&lines, &headings)
}

/// The value of a field, or the empty text where there is no such field.
pub open spec fn field_or_empty(fields: Seq<(Seq<char>, Seq<char>)>, name: Seq<char>) -> Seq<
    char,
> {
    match lookup(fields, name) {
        Some(value) => value,
        None => Seq::empty(),
    }
}

/// The value of a field, or the empty string where there is no such field.
fn field_text(fields: &Fields, name: &str) -> (text: String)
    ensures
        text@ == field_or_empty(fields@, name@),
{
    match fields.get(name) {
        Some(value) => value,
        None => String::new(),
    }
}

/// The card that a note's fields describe: its front is the field `Front`,
/// its back the field `Back`, whatever the template and the card's number.
pub fn get_card_from_fields(fields: Fields, _template: &str, _card_num: u32) -> (card: NoteCard)
    ensures
        card.front@ == field_or_empty(fields@, "Front"@),
        card.back@ == field_or_empty(fields@, "Back"@),
{
    NoteCard { front: field_text(&fields, "Front"), back: field_text(&fields, "Back") }
}

/// The markdown text of some fields: for each field in turn a heading
/// line with its name, then its value and a newline.
pub open spec fn note_md(fields: Seq<(Seq<char>, Seq<char>)>) -> Seq<char>
    decreases fields.len(),
{
    if fields.len() == 0 {
        Seq::empty()
    } else {
        note_md(fields.drop_last()) + seq!['#', ' '] + fields.last().0 + seq![NEWLINE]
            + fields.last().1 + seq![NEWLINE]
    }
}

/// Writes fields down as the markdown text of a note.
pub fn get_note_md(fields: Fields) -> (md: String)
    ensures
        md@ == note_md(fields@),
{
    let mut md = String::new();
    let mut at: usize = 0;
    while at < fields.entries.len()
        invariant
            at <= fields.entries.len(),
            md@ == note_md(fields@.subrange(0, at as int)),
        decreases fields.entries.len() - at,
    {
        proof {
            reveal_strlit("# ");
            reveal_strlit("\n");
            assert("# "@ =~= seq!['#', ' ']);
            assert("\n"@ =~= seq![NEWLINE]);
            let next = fields@.subrange(0, at + 1);
            assert(next.drop_last() =~= fields@.subrange(0, at as int));
            assert(next.last() == fields@[at as int]);
        }
        md = md.concat("# ").concat(fields.entries[at].0.as_str()).concat("\n").concat(
            fields.entries[at].1.as_str(),
        ).concat("\n");
        at += 1;
    }
    assert(fields@.subrange(0, at as int) =~= fields@);
    md
}

/// The HTML that `comrak` renders a markdown text to, with its default
/// options.
pub uninterp spec fn rendered_html(markdown: Seq<char>) -> Seq<char>;

/// Calls `comrak::markdown_to_html` with `comrak::Options::default()`.
///
/// Trusted: the HTML depends on the markdown text alone; nothing is claimed
/// of what it is.
#[verifier::external_body]
fn markdown_to_html(markdown: &str) -> (html: String)
    ensures
        html@ == rendered_html(markdown@),
{
    comrak::markdown_to_html(markdown, &comrak::Options::default())
}

/// The markdown text of the back of a card: the front, a horizontal rule,
/// the back.
pub open spec fn back_markdown(front: Seq<char>, back: Seq<char>) -> Seq<char> {
    front + seq![NEWLINE, NEWLINE, '-', '-', '-', NEWLINE, NEWLINE] + back
}

/// The HTML of the front of a card.
pub fn render_front(fields: Fields, _template: &str, _card_num: u32) -> (html: String)
    ensures
        html@ == rendered_html(field_or_empty(fields@, "Front"@)),
{
    let front = field_text(&fields, "Front");
    markdown_to_html(front.as_str())
}

/// The HTML of the back of a card, which shows the front above the back.
pub fn render_back(fields: Fields, template: &str, card_num: u32) -> (html: String)
    ensures
        html@ == rendered_html(
            back_markdown(field_or_empty(fields@, "Front"@), field_or_empty(fields@, "Back"@)),
        ),
{
    let card = get_card_from_fields(fields, template, card_num);
    proof {
        reveal_strlit("\n\n---\n\n");
        assert("\n\n---\n\n"@ =~= seq![NEWLINE, NEWLINE, '-', '-', '-', NEWLINE, NEWLINE]);
    }
    let markdown = card.front.concat("\n\n---\n\n").concat(card.back.as_str());
    markdown_to_html(markdown.as_str())
}

/// The HTML of one side of the card that some fields describe.
pub open spec fn previewed(fields: Seq<(Seq<char>, Seq<char>)>, back: bool) -> Seq<char> {
    if back {
        rendered_html(
            back_markdown(field_or_empty(fields, "Front"@), field_or_empty(fields, "Back"@)),
        )
    } else {
        rendered_html(field_or_empty(fields, "Front"@))
    }
}

/// Renders one side of the card that some fields describe.
pub fn preview_note(fields: Fields, template: String, card_num: u32, back: bool) -> (html: String)
    ensures
        html@ == previewed(fields@, back),
{
    if back {
        render_back(fields, template.as_str(), card_num)
    } else {
        render_front(fields, template.as_str(), card_num)
    }
}

/// Renders one side of a card from the markdown text of its note.
pub fn render_note_card(md: String, template: &str, card_num: u32, back: bool) -> (html: String)
    ensures
        html@ == previewed(parsed(md@), back),
{
    let fields = parse_note_into_fields(md);
    if back {
        render_back(fields, template, card_num)
    } else {
        render_front(fields, template, card_num)
    }
}

impl View for Note {
    type V = (Seq<char>, Seq<char>, Seq<char>);

    /// Identifier, deck and template.
    open spec fn view(&self) -> (Seq<char>, Seq<char>, Seq<char>) {
        (self.note_id@, self.deck_id@, self.template@)
    }
}

/// The views of some notes.
pub open spec fn note_views(notes: Seq<Note>) -> Seq<(Seq<char>, Seq<char>, Seq<char>)> {
    Seq::new(notes.len(), |i: int| notes[i]@)
}

/// What stands for an identifier or a template that a file name does not
/// give.
pub open spec fn basic() -> Seq<char> {
    seq!['b', 'a', 's', 'i', 'c']
}

/// The text of a capture group, or `basic` where the group took no part.
pub open spec fn or_basic(group: Option<Seq<char>>) -> Seq<char> {
    match group {
        Some(text) => text,
        None => basic(),
    }
}

/// The note of a deck that capture groups name: identifier and template are
/// the two groups. Where nothing was captured there is no note.
pub open spec fn named_note(
    deck: Seq<char>,
    groups: Option<(Option<Seq<char>>, Option<Seq<char>>)>,
) -> Option<(Seq<char>, Seq<char>, Seq<char>)> {
    match groups {
        Some((note_id, template)) => Some((or_basic(note_id), deck, or_basic(template))),
        None => None,
    }
}

/// The note that a file of a deck holds, by the file's name: what the
/// pattern `([^_]*)?_?(.*).md` captures in the name.
pub open spec fn note_of_file(deck: Seq<char>, file_name: Seq<char>) -> Option<
    (Seq<char>, Seq<char>, Seq<char>),
> {
    named_note(deck, captured("([^_]*)?_?(.*).md"@, file_name))
}

/// The notes of those file names that hold one, in the order of the names.
pub open spec fn notes_of_files(deck: Seq<char>, file_names: Seq<Seq<char>>) -> Seq<
    (Seq<char>, Seq<char>, Seq<char>),
>
    decreases file_names.len(),
{
    if file_names.len() == 0 {
        Seq::empty()
    } else {
        match note_of_file(deck, file_names.last()) {
            Some(note) => notes_of_files(deck, file_names.drop_last()).push(note),
            None => notes_of_files(deck, file_names.drop_last()),
        }
    }
}

/// A captured text, or `basic` where there is none.
fn text_or_basic(group: Option<String>) -> (text: String)
    ensures
        text@ == or_basic(group.deep_view()),
{
    match group {
        Some(text) => text,
        None => {
            proof {
                reveal_strlit("basic");
                assert("basic"@ =~= basic());
            }
            String::from_str("basic")
        },
    }
}

/// The note of a deck that the capture groups of a file name stand for.
pub fn note_from_captures(deck: &str, groups: Option<(Option<String>, Option<String>)>) -> (note:
    Option<Note>)
    ensures
        note.is_some() == groups.is_some(),
        note matches Some(found) ==> Some(found@) == named_note(deck@, groups.deep_view()),
{
    match groups {
        Some((note_id, template)) => Some(
            Note {
                deck_id: String::from_str(deck),
                note_id: text_or_basic(note_id),
                template: text_or_basic(template),
            },
        ),
        None => None,
    }
}

/// The note that a file of a deck holds, by the file's name.
pub fn note_from_file_name(deck: &str, file_name: &str) -> (note: Option<Note>)
    ensures
        note.is_some() == note_of_file(deck@, file_name@).is_some(),
        note matches Some(found) ==> Some(found@) == note_of_file(deck@, file_name@),
{
    note_from_captures(deck, regex_captures("([^_]*)?_?(.*).md", file_name))
}

/// The notes of a deck, from the names of the files in its directory.
pub fn get_notes_from_paths(deck: &str, paths: &Vec<String>) -> (notes: Vec<Note>)
    ensures
        note_views(notes@) == notes_of_files(deck@, views(paths@)),
{
    let mut notes: Vec<Note> = Vec::new();
    let mut at: usize = 0;
    assert(views(paths@).subrange(0, 0) =~= Seq::<Seq<char>>::empty());
    while at < paths.len()
        invariant
            at <= paths.len(),
            note_views(notes@) =~= notes_of_files(deck@, views(paths@).subrange(0, at as int)),
        decreases paths.len() - at,
    {
        proof {
            let next = views(paths@).subrange(0, at + 1);
            assert(next.drop_last() =~= views(paths@).subrange(0, at as int));
            assert(next.last() == paths@[at as int]@);
        }
        if let Some(note) = note_from_file_name(deck, paths[at].as_str()) {
            notes.push(note);
        }
        at += 1;
    }
    assert(views(paths@).subrange(0, at as int) =~= views(paths@));
    notes
}

} // verus!
