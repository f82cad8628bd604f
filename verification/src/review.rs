//! The review scheduler: what a recall score does to a card's schedule.
//!
//! Intervals (in days) and ease factors are fixed-point numbers in
//! millionths, see [`crate::fixed`].

use vstd::prelude::*;
use crate::fixed::{round_millionths, scale, scaled_product, whole_units};
use crate::fixed::{lemma_overflowing_product_is_large, lemma_scaled_product_grows};
use crate::instant::{Instant, SECONDS_PER_DAY, SECONDS_PER_MINUTE};

verus! {

/// Interval, in days, of a card that has never been reviewed.
pub const INITIAL_INTERVAL: u64 = 1_000_000;

/// Ease factor of a card that has never been reviewed.
pub const INITIAL_EASE: u64 = 2_500_000;

/// Interval, in days, of a new card that is scored easy.
pub const EASY_INTERVAL: u64 = 4_000_000;

/// Extra factor on the interval of a learned card that is scored easy.
pub const EASY_BONUS: u64 = 1_300_000;

/// Days until a card is due when it leaves the new state.
pub const GRADUATION_INTERVAL: i64 = 1;

/// Number of learning steps of a new card.
pub const NEW_STEP_COUNT: u32 = 2;

/// Minutes until a new card is due when it is scored hard.
pub const HARD_STEP: i64 = 1;

/// Minutes until a lapsed card is due.
pub const RELEARNING_STEP: i64 = 10;

/// Floor of the interval, in days, after a lapse.
pub const MINIMUM_INTERVAL: u64 = 1_000_000;

/// Floor of the ease factor.
pub const MINIMUM_EASE: u64 = 1_300_000;

/// Factor on the interval of a learned card that is scored hard.
pub const HARD_FACTOR: u64 = 1_200_000;

/// Factor on the interval of a learned card that lapses.
pub const LAPSE_FACTOR: u64 = 700_000;

/// What the ease factor gains when a learned card is scored easy.
pub const EASY_EASE_GAIN: u64 = 150_000;

/// What the ease factor loses when a learned card is scored hard.
pub const HARD_EASE_LOSS: u64 = 150_000;

/// What the ease factor loses when a learned card lapses.
pub const LAPSE_EASE_LOSS: u64 = 200_000;

/// Minutes until a new card is due, by the number of steps it has taken.
pub open spec fn new_steps() -> Seq<int> {
    seq![1int, 10int]
}

#[derive(Clone, Copy, Debug, PartialEq, Eq, Structural)]
pub enum ReviewState {
    New,
    Learned,
    Relearning,
}

#[derive(Clone, Copy, Debug, PartialEq, Eq, Structural)]
pub enum ReviewScore {
    Again,
    Hard,
    Good,
    Easy,
}

/// Why a card could not be scored.
#[derive(Clone, Copy, Debug, PartialEq, Eq, Structural)]
pub enum ErrorKind {
    /// The next due date lies beyond the last representable instant.
    DueDateOverflow,
}

/// The schedule of one card.
#[derive(Clone, Copy, Debug, PartialEq, Eq, Structural)]
pub struct Review {
    /// When the card is due next; `None` until it is first scored.
    pub due: Option<Instant>,
    /// Days between reviews, in millionths of a day.
    pub interval: u64,
    /// Factor by which a good review stretches the interval, in millionths.
    pub ease: u64,
    pub state: ReviewState,
    /// Learning steps taken so far in the new state.
    pub steps: u32,
}

impl Default for Review {
    /// The schedule of a card that has never been reviewed: new, with no
    /// step taken and no due date.
    fn default() -> (r: Review)
        ensures
            r == (Review {
                due: None,
                interval: INITIAL_INTERVAL,
                ease: INITIAL_EASE,
                state: ReviewState::New,
                steps: 0,
            }),
            r.wf(),
    {
        Review {
            due: None,
            interval: INITIAL_INTERVAL,
            ease: INITIAL_EASE,
            state: ReviewState::New,
            steps: 0,
        }
    }
}

impl Review {
    /// A schedule as the scheduler produces it: the interval is positive,
    /// the ease factor is at its floor or above, and a new card has a
    /// learning step left to take.
    pub open spec fn wf(self) -> bool {
        &&& self.interval > 0
        &&& self.ease >= MINIMUM_EASE
        &&& self.state == ReviewState::New ==> self.steps < NEW_STEP_COUNT
    }

    pub fn new(
        due: Option<Instant>,
        interval: u64,
        ease: u64,
        state: ReviewState,
        steps: u32,
    ) -> (r: Review)
        ensures
            r == (Review { due, interval, ease, state, steps }),
    {
        Review { due, interval, ease, state, steps }
    }
}

/// Whether the score takes a new card out of the new state: an easy score
/// does, and so does a good score on the last learning step.
pub open spec fn graduates(review: Review, score: ReviewScore) -> bool {
    review.state == ReviewState::New && (score == ReviewScore::Easy || (score == ReviewScore::Good
        && review.steps + 1 >= new_steps().len()))
}

/// The state of the card after the score.
pub open spec fn next_state(review: Review, score: ReviewScore) -> ReviewState {
    match review.state {
        ReviewState::New => if graduates(review, score) {
            ReviewState::Learned
        } else {
            ReviewState::New
        },
        ReviewState::Learned => match score {
            ReviewScore::Again => ReviewState::Relearning,
            _ => ReviewState::Learned,
        },
        ReviewState::Relearning => match score {
            ReviewScore::Good | ReviewScore::Easy => ReviewState::Learned,
            _ => ReviewState::Relearning,
        },
    }
}

/// The step counter after the score.
pub open spec fn next_steps(review: Review, score: ReviewScore) -> int {
    match review.state {
        ReviewState::New => match score {
            ReviewScore::Hard => review.steps as int,
            ReviewScore::Good => if graduates(review, score) {
                0
            } else {
                review.steps + 1
            },
            _ => 0,
        },
        ReviewState::Learned => match score {
            ReviewScore::Again => 0,
            _ => review.steps as int,
        },
        ReviewState::Relearning => match score {
            ReviewScore::Good | ReviewScore::Easy => review.steps as int,
            _ => 0,
        },
    }
}

/// The interval after the score, in millionths of a day.
pub open spec fn next_interval(review: Review, score: ReviewScore) -> int {
    match review.state {
        ReviewState::New => match score {
            ReviewScore::Easy => EASY_INTERVAL as int,
            _ => review.interval as int,
        },
        ReviewState::Learned => match score {
            ReviewScore::Good => scaled_product(review.interval as int, review.ease as int),
            ReviewScore::Easy => scaled_product(
                review.interval as int,
                scaled_product(review.ease as int, EASY_BONUS as int),
            ),
            ReviewScore::Hard => scaled_product(review.interval as int, HARD_FACTOR as int),
            ReviewScore::Again => {
                let lapsed = scaled_product(review.interval as int, LAPSE_FACTOR as int);
                if lapsed >= MINIMUM_INTERVAL {
                    lapsed
                } else {
                    MINIMUM_INTERVAL as int
                }
            },
        },
        ReviewState::Relearning => review.interval as int,
    }
}

/// `ease - loss`, but not less than `MINIMUM_EASE`.
pub open spec fn lowered_ease(ease: int, loss: int) -> int {
    if ease - loss >= MINIMUM_EASE {
        ease - loss
    } else {
        MINIMUM_EASE as int
    }
}

/// The ease factor after the score, in millionths. A gain stops at the
/// largest number that the field can hold.
pub open spec fn next_ease(review: Review, score: ReviewScore) -> int {
    match review.state {
        ReviewState::Learned => match score {
            ReviewScore::Good => review.ease as int,
            ReviewScore::Easy => if review.ease + EASY_EASE_GAIN <= u64::MAX {
                review.ease + EASY_EASE_GAIN
            } else {
                u64::MAX as int
            },
            ReviewScore::Hard => lowered_ease(review.ease as int, HARD_EASE_LOSS as int),
            ReviewScore::Again => lowered_ease(review.ease as int, LAPSE_EASE_LOSS as int),
        },
        _ => review.ease as int,
    }
}

/// Seconds from the moment of the review until the card is due again.
pub open spec fn due_offset(review: Review, score: ReviewScore) -> int {
    match review.state {
        ReviewState::New => if graduates(review, score) {
            GRADUATION_INTERVAL * SECONDS_PER_DAY
        } else {
            match score {
                ReviewScore::Again => new_steps()[0] * SECONDS_PER_MINUTE,
                ReviewScore::Hard => HARD_STEP * SECONDS_PER_MINUTE,
                _ => new_steps()[review.steps + 1] * SECONDS_PER_MINUTE,
            }
        },
        ReviewState::Learned => match score {
            ReviewScore::Again => RELEARNING_STEP * SECONDS_PER_MINUTE,
            _ => whole_units(next_interval(review, score), SECONDS_PER_DAY as int),
        },
        ReviewState::Relearning => match score {
            ReviewScore::Good | ReviewScore::Easy => whole_units(
                review.interval as int,
                SECONDS_PER_DAY as int,
            ),
            _ => RELEARNING_STEP * SECONDS_PER_MINUTE,
        },
    }
}

/// The schedule that a score at `time` leads to: every field by its
/// function above and the due date `due_offset` seconds after `time`, or
/// `DueDateOverflow` where that instant cannot be represented.
pub open spec fn scored(review: Review, time: Instant, score: ReviewScore) -> Result<
    Review,
    ErrorKind,
> {
    match time.shifted(due_offset(review, score)) {
        Some(due) => Ok(
            Review {
                due: Some(due),
                interval: next_interval(review, score) as u64,
                ease: next_ease(review, score) as u64,
                state: next_state(review, score),
                steps: next_steps(review, score) as u32,
            },
        ),
        None => Err(ErrorKind::DueDateOverflow),
    }
}

/// Minutes until a new card is due once it has taken `step` steps.
fn new_step(step: u32) -> (minutes: i64)
    requires
        step < NEW_STEP_COUNT,
    ensures
        minutes == new_steps()[step as int],
{
    if step == 0 {
        1
    } else {
        10
    }
}

/// The ease factor after a loss, held at its floor.
fn lower_ease(ease: u64, loss: u64) -> (r: u64)
    ensures
        r == lowered_ease(ease as int, loss as int),
{
    if ease >= loss && ease - loss >= MINIMUM_EASE {
        ease - loss
    } else {
        MINIMUM_EASE
    }
}

/// The length of an interval in seconds, rounded to the nearest second.
fn interval_seconds(interval: u64) -> (secs: i64)
    ensures
        secs == whole_units(interval as int, SECONDS_PER_DAY as int),
{
    let millionths: u128 = (interval as u128) * 86_400;
    round_millionths(millionths) as i64
}

/// Sets the due date `offset` seconds after `time`.
fn schedule(review: Review, time: Instant, offset: i64) -> (r: Result<Review, ErrorKind>)
    requires
        time.wf(),
    ensures
        r == match time.shifted(offset as int) {
            Some(due) => Ok(Review { due: Some(due), ..review }),
            None => Err(ErrorKind::DueDateOverflow),
        },
{
    match time.checked_add_seconds(offset) {
        Some(due) => Ok(Review { due: Some(due), ..review }),
        None => Err(ErrorKind::DueDateOverflow),
    }
}

/// Sets the interval, and the due date that many days after `time`. An
/// interval that was too large to compute is `None`.
fn schedule_interval(review: Review, time: Instant, interval: Option<u128>) -> (r: Result<
    Review,
    ErrorKind,
>)
    requires
        time.wf(),
    ensures
        interval matches Some(days) ==> r == match time.shifted(
            whole_units(days as int, SECONDS_PER_DAY as int),
        ) {
            Some(due) => Ok(Review { due: Some(due), interval: days as u64, ..review }),
            None => Err(ErrorKind::DueDateOverflow),
        },
        interval.is_none() ==> r == Err::<Review, ErrorKind>(ErrorKind::DueDateOverflow),
        r matches Ok(next) ==> interval == Some(next.interval as u128),
{
    match interval {
        Some(days) => {
            if days > u64::MAX as u128 {
                Err(ErrorKind::DueDateOverflow)
            } else {
                let days: u64 = days as u64;
                schedule(Review { interval: days, ..review }, time, interval_seconds(days))
            }
        },
        None => Err(ErrorKind::DueDateOverflow),
    }
}

/// Scores a card: the schedule that follows from `review` when the card is
/// reviewed at `time` with the given score.
///
/// The result is a function of the three arguments. An ease factor at its
/// floor or above stays there, a positive interval stays positive, and a card
/// that stays new has a learning step left.
pub fn score_card(review: Review, time: Instant, score: ReviewScore) -> (r: Result<
    Review,
    ErrorKind,
>)
    requires
        time.wf(),
    ensures
        r == scored(review, time, score),
        r matches Ok(next) ==> {
            &&& next.due == time.shifted(due_offset(review, score))
            &&& next.interval == next_interval(review, score)
            &&& next.ease == next_ease(review, score)
            &&& next.state == next_state(review, score)
            &&& next.steps == next_steps(review, score)
        },
        r matches Ok(next) ==> next.due matches Some(due) && due.wf(),
        review.wf() ==> (r matches Ok(next) ==> next.wf()),
{
    match review.state {
        ReviewState::New => match score {
            ReviewScore::Easy => schedule(
                Review { state: ReviewState::Learned, interval: EASY_INTERVAL, steps: 0, ..review },
                time,
                GRADUATION_INTERVAL * SECONDS_PER_DAY,
            ),
            ReviewScore::Again => schedule(
                Review { steps: 0, ..review },
                time,
                new_step(0) * SECONDS_PER_MINUTE,
            ),
            ReviewScore::Hard => schedule(review, time, HARD_STEP * SECONDS_PER_MINUTE),
            ReviewScore::Good => {
                if review.steps >= NEW_STEP_COUNT - 1 {
                    schedule(
                        Review { state: ReviewState::Learned, steps: 0, ..review },
                        time,
                        GRADUATION_INTERVAL * SECONDS_PER_DAY,
                    )
                } else {
                    let steps: u32 = review.steps + 1;
                    schedule(Review { steps, ..review }, time, new_step(steps) * SECONDS_PER_MINUTE)
                }
            },
        },
        ReviewState::Learned => match score {
            ReviewScore::Good => {
                let grown = scale(review.interval as u128, review.ease as u128);
                proof {
                    if grown.is_none() {
                        lemma_overflowing_product_is_large(
                            review.interval as int,
                            review.ease as int,
                        );
                    }
                    if review.wf() {
                        lemma_scaled_product_grows(review.interval as int, review.ease as int);
                    }
                }
                schedule_interval(review, time, grown)
            },
            ReviewScore::Easy => {
                let factor = round_millionths((review.ease as u128) * (EASY_BONUS as u128));
                let grown = scale(review.interval as u128, factor);
                proof {
                    if grown.is_none() {
                        lemma_overflowing_product_is_large(review.interval as int, factor as int);
                    }
                    if review.wf() {
                        lemma_scaled_product_grows(review.ease as int, EASY_BONUS as int);
                        lemma_scaled_product_grows(review.interval as int, factor as int);
                    }
                }
                schedule_interval(
                    Review { ease: review.ease.saturating_add(EASY_EASE_GAIN), ..review },
                    time,
                    grown,
                )
            },
            ReviewScore::Hard => {
                let grown = scale(review.interval as u128, HARD_FACTOR as u128);
                proof {
                    lemma_scaled_product_grows(review.interval as int, HARD_FACTOR as int);
                }
                schedule_interval(
                    Review { ease: lower_ease(review.ease, HARD_EASE_LOSS), ..review },
                    time,
                    grown,
                )
            },
            ReviewScore::Again => {
                let lapsed = round_millionths((review.interval as u128) * (LAPSE_FACTOR as u128));
                let interval: u64 = if lapsed >= MINIMUM_INTERVAL as u128 {
                    lapsed as u64
                } else {
                    MINIMUM_INTERVAL
                };
                schedule(
                    Review {
                        state: ReviewState::Relearning,
                        steps: 0,
                        interval,
                        ease: lower_ease(review.ease, LAPSE_EASE_LOSS),
                        ..review
                    },
                    time,
                    RELEARNING_STEP * SECONDS_PER_MINUTE,
                )
            },
        },
        ReviewState::Relearning => match score {
            ReviewScore::Good | ReviewScore::Easy => schedule(
                Review { state: ReviewState::Learned, ..review },
                time,
                interval_seconds(review.interval),
            ),
            ReviewScore::Hard | ReviewScore::Again => schedule(
                Review { steps: 0, ..review },
                time,
                RELEARNING_STEP * SECONDS_PER_MINUTE,
            ),
        },
    }
}

/// Where a card can be scored, no field of the new schedule is cut short
/// by its machine type: each holds the value that its function gives.
pub proof fn lemma_scored_fields(review: Review, time: Instant, score: ReviewScore)
    requires
        time.wf(),
    ensures
        scored(review, time, score) matches Ok(next) ==> {
            &&& next.due == time.shifted(due_offset(review, score))
            &&& next.interval == next_interval(review, score)
            &&& next.ease == next_ease(review, score)
            &&& next.state == next_state(review, score)
            &&& next.steps == next_steps(review, score)
        },
{
    if review.state == ReviewState::Learned && score == ReviewScore::Easy {
        let factor = scaled_product(review.ease as int, EASY_BONUS as int);
        if review.interval * factor > u128::MAX {
            lemma_overflowing_product_is_large(review.interval as int, factor);
        }
    }
    if review.state == ReviewState::Learned && score == ReviewScore::Good {
        if review.interval * review.ease > u128::MAX {
            lemma_overflowing_product_is_large(review.interval as int, review.ease as int);
        }
    }
}

/// The ease factor never falls below its floor: a schedule whose ease is at
/// `MINIMUM_EASE` or above is followed, whatever the score, by one whose
/// ease is so too.
pub proof fn lemma_ease_stays_above_floor(review: Review, time: Instant, score: ReviewScore)
    requires
        time.wf(),
        review.ease >= MINIMUM_EASE,
    ensures
        next_ease(review, score) >= MINIMUM_EASE,
        scored(review, time, score) matches Ok(next) ==> next.ease >= MINIMUM_EASE,
{
    lemma_scored_fields(review, time, score);
}

/// A learned or relearning card keeps a positive interval, whatever the
/// score.
pub proof fn lemma_interval_stays_positive(review: Review, time: Instant, score: ReviewScore)
    requires
        time.wf(),
        review.wf(),
        review.state == ReviewState::Learned || review.state == ReviewState::Relearning,
    ensures
        next_interval(review, score) > 0,
        scored(review, time, score) matches Ok(next) ==> next.interval > 0,
{
    lemma_scored_fields(review, time, score);
    lemma_scaled_product_grows(review.interval as int, review.ease as int);
    lemma_scaled_product_grows(review.ease as int, EASY_BONUS as int);
    lemma_scaled_product_grows(
        review.interval as int,
        scaled_product(review.ease as int, EASY_BONUS as int),
    );
    lemma_scaled_product_grows(review.interval as int, HARD_FACTOR as int);
}

/// A well-formed schedule is followed by a well-formed schedule.
pub proof fn lemma_scoring_preserves_wf(review: Review, time: Instant, score: ReviewScore)
    requires
        time.wf(),
        review.wf(),
    ensures
        scored(review, time, score) matches Ok(next) ==> next.wf(),
{
    lemma_scored_fields(review, time, score);
    lemma_ease_stays_above_floor(review, time, score);
    if review.state != ReviewState::New {
        lemma_interval_stays_positive(review, time, score);
    }
}

/// Scoring is a function: equal schedules, scored at equal instants with
/// equal scores, give equal results, down to the last field.
pub proof fn lemma_scoring_is_deterministic(
    first: Review,
    second: Review,
    first_time: Instant,
    second_time: Instant,
    first_score: ReviewScore,
    second_score: ReviewScore,
)
    requires
        first == second,
        first_time == second_time,
        first_score == second_score,
    ensures
        scored(first, first_time, first_score) == scored(second, second_time, second_score),
{
}

/// A new card becomes learned in two ways only: by an easy score, or by a
/// good score on its last learning step.
pub proof fn lemma_graduation_needs_good_or_easy(review: Review, score: ReviewScore)
    requires
        review.state == ReviewState::New,
        next_state(review, score) == ReviewState::Learned,
    ensures
        score == ReviewScore::Easy || (score == ReviewScore::Good && review.steps + 1
            >= new_steps().len()),
{
}

/// A card that is new after a score has a learning step left, and a good
/// score that takes the last step makes the card learned in that same call.
pub proof fn lemma_new_card_has_a_step_left(review: Review, score: ReviewScore)
    requires
        review.wf(),
    ensures
        next_state(review, score) == ReviewState::New ==> 0 <= next_steps(review, score)
            < new_steps().len(),
        review.state == ReviewState::New && score == ReviewScore::Good && review.steps + 1
            >= new_steps().len() ==> next_state(review, score) == ReviewState::Learned
            && next_steps(review, score) == 0,
{
}

} // verus!
