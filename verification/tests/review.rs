use chrono::{DateTime, Duration, Utc};
use flashcards::instant::Instant;
use flashcards::review::{score_card, ErrorKind, Review, ReviewScore, ReviewState};

const EASY_BONUS: f64 = 1.3;
const GRADUATION_INTERVAL: i64 = 1;
const NEW_STEPS: [i64; 2] = [1, 10];
const RELEARNING_STEPS: [i64; 1] = [10];

fn fixed(value: f64) -> u64 {
    (value * 1_000_000.0).round() as u64
}

fn instant_of(time: DateTime<Utc>) -> Instant {
    Instant::new(time.timestamp(), time.timestamp_subsec_nanos()).unwrap()
}

fn datetime_of(instant: Instant) -> DateTime<Utc> {
    DateTime::from_timestamp(instant.secs, instant.nanos).unwrap()
}

#[allow(clippy::too_many_arguments)]
fn test_card(
    message: &str,
    interval: f64,
    ease: f64,
    steps: u32,
    state: ReviewState,
    score: ReviewScore,
    expected_interval: f64,
    expected_ease: f64,
    expected_steps: u32,
    expected_duration: Duration,
    expected_state: ReviewState,
) {
    let card = Review {
        interval: fixed(interval),
        ease: fixed(ease),
        steps,
        due: Some(instant_of(Utc::now())),
        state,
    };
    let time = Utc::now();
    let review = score_card(card, instant_of(time), score).unwrap();
    assert_eq!(
        review.state, expected_state,
        "Test: {}\nIssue: Card state doesn't match",
        message
    );
    assert_eq!(
        datetime_of(review.due.unwrap()).signed_duration_since(time),
        expected_duration,
        "Test: {}\nIssue: Duration doesn't match",
        message
    );
    assert_eq!(
        review.interval,
        fixed(expected_interval),
        "Test: {}\nIssue: Interval doesn't match",
        message
    );
    assert_eq!(
        review.ease,
        fixed(expected_ease),
        "Test: {}\nIssue: Ease factor doesn't match",
        message
    );
    assert_eq!(
        review.steps, expected_steps,
        "Test: {}\nIssue: Review steps don't match",
        message
    );
}

#[test]
fn new_card_scored_easy() {
    test_card(
        "New card scored easy should graduate immediately",
        1.0,
        2.5,
        0,
        ReviewState::New,
        ReviewScore::Easy,
        4.0,
        2.5,
        0,
        Duration::days(GRADUATION_INTERVAL),
        ReviewState::Learned,
    );
}

#[test]
fn new_card_scored_again() {
    test_card(
        "New card scored again should reset steps",
        1.0,
        2.5,
        1,
        ReviewState::New,
        ReviewScore::Again,
        1.0,
        2.5,
        0,
        Duration::minutes(NEW_STEPS[0]),
        ReviewState::New,
    );
}

#[test]
fn new_card_scored_hard() {
    test_card(
        "New card scored hard should reset steps",
        1.0,
        2.5,
        0,
        ReviewState::New,
        ReviewScore::Hard,
        1.0,
        2.5,
        0,
        Duration::minutes(1),
        ReviewState::New,
    );
}

#[test]
fn new_card_scored_good() {
    test_card(
        "New card scored good should go up one in steps, but stay in new state",
        1.0,
        2.5,
        0,
        ReviewState::New,
        ReviewScore::Good,
        1.0,
        2.5,
        1,
        Duration::minutes(NEW_STEPS[1]),
        ReviewState::New,
    );
    test_card(
        "New card scored good with one step should graduate",
        1.0,
        2.5,
        1,
        ReviewState::New,
        ReviewScore::Good,
        1.0,
        2.5,
        0,
        Duration::days(GRADUATION_INTERVAL),
        ReviewState::Learned,
    );
}

#[test]
fn learned_card_scored_good() {
    test_card(
        "Learned card scored good should keep same ease factor, extend interval",
        1.0,
        2.5,
        0,
        ReviewState::Learned,
        ReviewScore::Good,
        2.5,
        2.5,
        0,
        Duration::days(2) + Duration::hours(12),
        ReviewState::Learned,
    );
    test_card(
        "Learned card scored good with 1.5 ease factor should be reviewed in 1.5 days",
        1.0,
        1.5,
        0,
        ReviewState::Learned,
        ReviewScore::Good,
        1.5,
        1.5,
        0,
        Duration::days(1) + Duration::hours(12),
        ReviewState::Learned,
    );
}

#[test]
fn learned_card_scored_easy() {
    test_card(
        "Learned card scored good should keep same ease factor, extend interval",
        1.0,
        2.5,
        0,
        ReviewState::Learned,
        ReviewScore::Easy,
        3.25,
        2.65,
        0,
        Duration::seconds((1.0 * EASY_BONUS * 2.5 * 60.0 * 60.0 * 24.0).round() as i64),
        ReviewState::Learned,
    );
}

#[test]
fn learned_card_scored_hard() {
    test_card(
        "Learned card scored hard should multiply interval by 1.2, decrease ease score by .15",
        1.0,
        2.5,
        0,
        ReviewState::Learned,
        ReviewScore::Hard,
        1.2,
        2.35,
        0,
        Duration::seconds((1.2 * 60.0 * 60.0 * 24.0 as f64).round() as i64),
        ReviewState::Learned,
    );

    test_card(
        "Learned card scored hard should not go below 1.3 ease factor",
        1.0,
        1.3,
        0,
        ReviewState::Learned,
        ReviewScore::Hard,
        1.2,
        1.3,
        0,
        Duration::seconds((1.2 * 60.0 * 60.0 * 24.0 as f64).round() as i64),
        ReviewState::Learned,
    );
}

#[test]
fn learned_card_scored_again() {
    test_card(
        "Learned card scored again should multiply interval by 1.2, decrease ease score by .15",
        2.0,
        2.5,
        0,
        ReviewState::Learned,
        ReviewScore::Again,
        1.4,
        2.3,
        0,
        Duration::minutes(10),
        ReviewState::Relearning,
    );

    test_card(
        "Learned card scored again should not go below 1.3 ease factor",
        2.0,
        1.3,
        0,
        ReviewState::Learned,
        ReviewScore::Again,
        1.4,
        1.3,
        0,
        Duration::minutes(10),
        ReviewState::Relearning,
    );
}

#[test]
fn relearning_card_scored_again() {
    test_card(
        "Relearning card scored again should reset steps, review again in a minute",
        1.0,
        2.5,
        1,
        ReviewState::Relearning,
        ReviewScore::Again,
        1.0,
        2.5,
        0,
        Duration::minutes(RELEARNING_STEPS[0]),
        ReviewState::Relearning,
    );
}

#[test]
fn relearning_card_scored_hard() {
    test_card(
        "Relearning card scored again should reset steps, review again in a minute",
        1.0,
        2.5,
        1,
        ReviewState::Relearning,
        ReviewScore::Hard,
        1.0,
        2.5,
        0,
        Duration::minutes(RELEARNING_STEPS[0]),
        ReviewState::Relearning,
    );
}

#[test]
fn relearning_card_scored_good() {
    test_card(
        "Relearning card scored good should return card to learned state",
        1.0,
        2.5,
        0,
        ReviewState::Relearning,
        ReviewScore::Good,
        1.0,
        2.5,
        0,
        Duration::days(1),
        ReviewState::Learned,
    );
}

#[test]
fn relearning_card_scored_easy() {
    test_card(
        "Relearning card scored easy should return card to learned state",
        1.0,
        2.5,
        0,
        ReviewState::Relearning,
        ReviewScore::Easy,
        1.0,
        2.5,
        0,
        Duration::days(1),
        ReviewState::Learned,
    );
}

#[test]
fn due_date_past_the_last_instant_is_an_error() {
    let last = Instant::new(8_210_266_876_799, 999_999_999).unwrap();
    let card = Review::new(None, fixed(1.0), fixed(2.5), ReviewState::New, 0);
    assert_eq!(
        score_card(card, last, ReviewScore::Hard),
        Err(ErrorKind::DueDateOverflow)
    );
    let minute_before = Instant::new(8_210_266_876_799 - 60, 7).unwrap();
    let scored = score_card(card, minute_before, ReviewScore::Hard).unwrap();
    assert_eq!(scored.due, Some(Instant { secs: 8_210_266_876_799, nanos: 7 }));
}

#[test]
fn huge_interval_is_an_error_not_a_stale_due_date() {
    let now = Instant::new(1_700_000_000, 0).unwrap();
    let card = Review::new(None, u64::MAX, u64::MAX, ReviewState::Learned, 0);
    for score in [ReviewScore::Good, ReviewScore::Easy, ReviewScore::Hard] {
        assert_eq!(score_card(card, now, score), Err(ErrorKind::DueDateOverflow));
    }
    let lapsed = score_card(card, now, ReviewScore::Again).unwrap();
    assert_eq!(lapsed.state, ReviewState::Relearning);
    assert_eq!(lapsed.due, Some(Instant { secs: 1_700_000_600, nanos: 0 }));
}
