//! Cards: a note of a deck together with its schedule.

use vstd::prelude::*;
use vstd::string::StringExecFns;
use crate::deck::{get_deck_path, join_path, path_join};
use crate::instant::Instant;
use crate::note::{basic, or_basic, previewed, parsed, render_note_card, Note};
use crate::pattern::{captured, regex_captures};
use crate::review::{
    score_card, scored, ErrorKind, Review, ReviewScore, ReviewState, INITIAL_EASE, INITIAL_INTERVAL,
};
use crate::text::views;

verus! {

/// A card as it is written to the review log.
#[derive(Clone, Debug, PartialEq, Eq)]
pub struct Card {
    pub note_id: String,
    pub deck_id: String,
    pub card_num: u32,
    /// Days between reviews, in millionths of a day.
    pub interval: u64,
    pub due: Option<Instant>,
    /// Ease factor, in millionths.
    pub ease: u64,
    pub state: ReviewState,
    pub steps: u32,
    pub template: String,
    /// The score of the last review.
    pub score: ReviewScore,
}

/// What a card holds, with texts in place of strings.
pub struct CardView {
    pub note_id: Seq<char>,
    pub deck_id: Seq<char>,
    pub card_num: u32,
    pub interval: u64,
    pub due: Option<Instant>,
    pub ease: u64,
    pub state: ReviewState,
    pub steps: u32,
    pub template: Seq<char>,
    pub score: ReviewScore,
}

impl View for Card {
    type V = CardView;

    open spec fn view(&self) -> CardView {
        CardView {
            note_id: self.note_id@,
            deck_id: self.deck_id@,
            card_num: self.card_num,
            interval: self.interval,
            due: self.due,
            ease: self.ease,
            state: self.state,
            steps: self.steps,
            template: self.template@,
            score: self.score,
        }
    }
}

impl CardView {
    /// The schedule of the card.
    pub open spec fn review(self) -> Review {
        Review {
            due: self.due,
            interval: self.interval,
            ease: self.ease,
            state: self.state,
            steps: self.steps,
        }
    }

    /// The card with a new schedule and the score that led to it.
    pub open spec fn updated(self, review: Review, score: ReviewScore) -> CardView {
        CardView {
            due: review.due,
            interval: review.interval,
            ease: review.ease,
            state: review.state,
            steps: review.steps,
            score,
            ..self
        }
    }

    /// Whether the card is to be reviewed at `now`: it has no due date yet,
    /// or its due date lies before `now`.
    pub open spec fn is_due(self, now: Instant) -> bool {
        match self.due {
            Some(due) => due.is_before(now),
            None => true,
        }
    }
}

/// The card that has never been reviewed: of the note and the deck `test`,
/// with an interval of one day and an ease factor of 2.5.
pub open spec fn default_card() -> CardView {
    CardView {
        note_id: seq!['t', 'e', 's', 't'],
        deck_id: seq!['t', 'e', 's', 't'],
        card_num: 1,
        interval: INITIAL_INTERVAL,
        due: None,
        ease: INITIAL_EASE,
        state: ReviewState::New,
        steps: 0,
        template: basic(),
        score: ReviewScore::Good,
    }
}

impl Default for Card {
    fn default() -> (card: Card)
        ensures
            card@ == default_card(),
    {
        proof {
            reveal_strlit("test");
            reveal_strlit("basic");
            assert("test"@ =~= seq!['t', 'e', 's', 't']);
            assert("basic"@ =~= basic());
        }
        Card {
            note_id: String::from_str("test"),
            card_num: 1,
            interval: INITIAL_INTERVAL,
            ease: INITIAL_EASE,
            steps: 0,
            template: String::from_str("basic"),
            due: None,
            deck_id: String::from_str("test"),
            state: ReviewState::New,
            score: ReviewScore::Good,
        }
    }
}

impl Card {
    /// The schedule of the card.
    pub fn review(&self) -> (review: Review)
        ensures
            review == self@.review(),
    {
        Review::new(self.due, self.interval, self.ease, self.state, self.steps)
    }

    /// The card with a new schedule and the score that led to it.
    pub fn update_from_review(self, review: Review, score: ReviewScore) -> (card: Card)
        ensures
            card@ == self@.updated(review, score),
    {
        Card {
            due: review.due,
            interval: review.interval,
            ease: review.ease,
            state: review.state,
            steps: review.steps,
            score,
            ..self
        }
    }

    /// Tells whether the card is to be reviewed at `now`.
    pub fn is_due(&self, now: &Instant) -> (due: bool)
        ensures
            due == self@.is_due(*now),
    {
        match &self.due {
            Some(due) => due.before(now),
            None => true,
        }
    }
}

impl From<Card> for Review {
    /// The schedule of the card.
    fn from(card: Card) -> (review: Review) {
        Review::new(card.due, card.interval, card.ease, card.state, card.steps)
    }
}

impl vstd::std_specs::convert::FromSpecImpl<Card> for Review {
    open spec fn obeys_from_spec() -> bool {
        true
    }

    open spec fn from_spec(card: Card) -> Review {
        card@.review()
    }
}

impl From<Card> for Note {
    /// The note that the card belongs to.
    fn from(card: Card) -> (note: Note) {
        Note::new(card.note_id, card.deck_id, card.template)
    }
}

impl vstd::std_specs::convert::FromSpecImpl<Card> for Note {
    open spec fn obeys_from_spec() -> bool {
        true
    }

    open spec fn from_spec(card: Card) -> Note {
        Note { note_id: card.note_id, deck_id: card.deck_id, template: card.template }
    }
}

/// The name of the file that logs the reviews of a note.
pub open spec fn review_file_name(note_id: Seq<char>) -> Seq<char> {
    note_id + seq!['.', 'j', 's', 'o', 'n', 'l']
}

/// The directory of a deck's review logs, below the deck's directory.
pub open spec fn reviews_directory() -> Seq<char> {
    seq!['r', 'e', 'v', 'i', 'e', 'w', 's']
}

/// The file that logs the reviews of a card's note.
pub fn get_review_path(card: Card, collection: &str) -> (path: String)
    ensures
        path@ == path_join(
            path_join(path_join(collection@, card.deck_id@), reviews_directory()),
            review_file_name(card.note_id@),
        ),
{
    proof {
        reveal_strlit("reviews");
        reveal_strlit(".jsonl");
        assert("reviews"@ =~= reviews_directory());
        assert(".jsonl"@ =~= seq!['.', 'j', 's', 'o', 'n', 'l']);
    }
    let deck = get_deck_path(collection, card.deck_id.as_str());
    let reviews = join_path(deck.as_str(), "reviews");
    let name = card.note_id.concat(".jsonl");
    join_path(reviews.as_str(), name.as_str())
}

/// Scores a card at `now`: the card with the schedule that follows from
/// its own, and with the score, or the error that scoring its schedule gives.
pub fn review_card(card: Card, now: Instant, score: ReviewScore) -> (r: Result<Card, ErrorKind>)
    requires
        now.wf(),
    ensures
        match scored(card@.review(), now, score) {
            Ok(review) => r matches Ok(next) && next@ == card@.updated(review, score),
            Err(error) => r matches Err(e) && e == error,
        },
{
    match score_card(card.review(), now, score) {
        Ok(review) => Ok(card.update_from_review(review, score)),
        Err(error) => Err(error),
    }
}

/// Renders one side of a card from the markdown text of its note.
pub fn render_card(card: Card, md: String, back: bool) -> (html: String)
    ensures
        html@ == previewed(parsed(md@), back),
{
    render_note_card(md, card.template.as_str(), card.card_num, back)
}

/// The card of a deck that capture groups name: a card that has never been
/// reviewed, of the note that the first group names.
pub open spec fn named_card(
    deck: Seq<char>,
    groups: Option<(Option<Seq<char>>, Option<Seq<char>>)>,
) -> Option<CardView> {
    match groups {
        Some((note_id, _)) => Some(
            CardView { deck_id: deck, note_id: or_basic(note_id), ..default_card() },
        ),
        None => None,
    }
}

/// The card that a file of a deck holds, by the file's name: what the
/// pattern `([^_]*)?_?(.*).md` captures in the name.
pub open spec fn card_of_file(deck: Seq<char>, file_name: Seq<char>) -> Option<CardView> {
    named_card(deck, captured("([^_]*)?_?(.*).md"@, file_name))
}

/// The cards of those file names that hold one and are due at `now`, in
/// the order of the names.
pub open spec fn due_cards_of_files(deck: Seq<char>, file_names: Seq<Seq<char>>, now: Instant) -> Seq<
    CardView,
>
    decreases file_names.len(),
{
    if file_names.len() == 0 {
        Seq::empty()
    } else {
        match card_of_file(deck, file_names.last()) {
            Some(card) if card.is_due(now) => due_cards_of_files(
                deck,
                file_names.drop_last(),
                now,
            ).push(card),
            _ => due_cards_of_files(deck, file_names.drop_last(), now),
        }
    }
}

/// The views of some cards.
pub open spec fn card_views(cards: Seq<Card>) -> Seq<CardView> {
    Seq::new(cards.len(), |i: int| cards[i]@)
}

/// The card of a deck that the capture groups of a file name stand for.
pub fn card_from_captures(deck: &str, groups: Option<(Option<String>, Option<String>)>) -> (card:
    Option<Card>)
    ensures
        card.is_some() == groups.is_some(),
        card matches Some(found) ==> Some(found@) == named_card(deck@, groups.deep_view()),
{
    match groups {
        Some((note_id, _)) => {
            let blank = Card::default();
            let note_id = match note_id {
                Some(text) => text,
                None => {
                    proof {
                        reveal_strlit("basic");
                        assert("basic"@ =~= basic());
                    }
                    String::from_str("basic")
                },
            };
            Some(Card { deck_id: String::from_str(deck), note_id, ..blank })
        },
        None => None,
    }
}

/// The cards of a deck that are due at `now`, from the names of the files in
/// the deck's directory.
pub fn get_due_cards_from_paths(deck: &str, paths: &Vec<String>, now: &Instant) -> (cards: Vec<
    Card,
>)
    ensures
        card_views(cards@) == due_cards_of_files(deck@, views(paths@), *now),
{
    let mut cards: Vec<Card> = Vec::new();
    let mut at: usize = 0;
    assert(views(paths@).subrange(0, 0) =~= Seq::<Seq<char>>::empty());
    while at < paths.len()
        invariant
            at <= paths.len(),
            card_views(cards@) =~= due_cards_of_files(
                deck@,
                views(paths@).subrange(0, at as int),
                *now,
            ),
        decreases paths.len() - at,
    {
        proof {
            let next = views(paths@).subrange(0, at + 1);
            assert(next.drop_last() =~= views(paths@).subrange(0, at as int));
            assert(next.last() == paths@[at as int]@);
        }
        let groups = regex_captures("([^_]*)?_?(.*).md", paths[at].as_str());
        if let Some(card) = card_from_captures(deck, groups) {
            if card.is_due(now) {
                cards.push(card);
            }
        }
        at += 1;
    }
    assert(views(paths@).subrange(0, at as int) =~= views(paths@));
    cards
}

} // verus!
