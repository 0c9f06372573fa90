//! Judging an answer to a riddle, and what the verdict does to the user's
//! score, level and solved history.

use crate::error::Error;
use crate::model::{Riddle, RiddleAttempt, RiddleView, Timestamp, User, UserView};
use crate::text::{lowercased, percent_decode, percent_decoded, str_eq, to_lowercase};
use vstd::prelude::*;

verus! {

/// Whether an answer, its percent-escapes resolved, is the riddle's
/// solution: the same text, or, where the riddle ignores case, the same text
/// once both are put in lower case.
pub open spec fn solution_matches(riddle: RiddleView, answer: Seq<char>) -> bool {
    if riddle.folds_case() {
        lowercased(riddle.solution) == lowercased(answer)
    } else {
        riddle.solution == answer
    }
}

/// Whether a submitted text solves the riddle.
pub open spec fn is_correct(riddle: RiddleView, submitted: Seq<char>) -> bool {
    solution_matches(riddle, percent_decoded(submitted))
}

/// Compares an answer whose percent-escapes are resolved with the riddle's
/// solution.
pub fn matches_solution(riddle: &Riddle, answer: &str) -> (r: bool)
    ensures
        r == solution_matches(riddle@, answer@),
{
    if riddle.folds_case() {
        let solution = to_lowercase(riddle.solution.as_str());
        let given = to_lowercase(answer);
        str_eq(solution.as_str(), given.as_str())
    } else {
        str_eq(riddle.solution.as_str(), answer)
    }
}

/// Judges a submitted text: resolves its percent-escapes and compares.
pub fn check_answer(riddle: &Riddle, submitted: &str) -> (r: bool)
    ensures
        r == is_correct(riddle@, submitted@),
        !submitted@.contains('%') ==> r == solution_matches(riddle@, submitted@),
{
    let answer = percent_decode(submitted);
    matches_solution(riddle, answer.as_str())
}

/// The greater of two levels.
pub open spec fn higher(a: u32, b: u32) -> u32 {
    if a >= b {
        a
    } else {
        b
    }
}

/// The entry that a solved riddle leaves in the history: first shown when
/// the current attempt began, solved at `now`.
pub open spec fn solved_entry(user: UserView, riddle: RiddleView, now: Timestamp) -> RiddleAttempt {
    RiddleAttempt {
        riddle_id: riddle.id,
        t0: user.current_riddle_attempt.unwrap().t0,
        t_solved: Some(now),
    }
}

/// The user after a right answer: the riddle joins the solved history, the
/// level rises to the riddle's where that is higher, and the score grows by
/// the riddle's difficulty.
pub open spec fn rewarded(user: UserView, riddle: RiddleView, now: Timestamp) -> UserView {
    UserView {
        solved: user.solved.push(solved_entry(user, riddle, now)),
        level: higher(user.level, riddle.level),
        score: (user.score + riddle.difficulty) as i32,
        ..user
    }
}

/// The user after a wrong answer: the score shrinks by the riddle's penalty,
/// and nothing else changes.
pub open spec fn penalised(user: UserView, riddle: RiddleView) -> UserView {
    UserView { score: (user.score - riddle.penalty()) as i32, ..user }
}

/// What an answer does to the user. An answer to a riddle that the user was
/// not shown is refused, and so is a right answer to a riddle that the user
/// has solved before.
pub open spec fn attempt_outcome(
    user: UserView,
    riddle: RiddleView,
    correct: bool,
    now: Timestamp,
) -> Result<UserView, Error> {
    if !user.has_seen(riddle.id) {
        Err(Error::RiddleHasNotBeenSeenByUser)
    } else if !correct {
        Ok(penalised(user, riddle))
    } else if user.has_solved(riddle.id) {
        Err(Error::AlreadySolved)
    } else {
        Ok(rewarded(user, riddle, now))
    }
}

/// Whether the score that an answer leads to is one that the score's type
/// can hold.
pub open spec fn score_fits(user: UserView, riddle: RiddleView, correct: bool) -> bool {
    if correct {
        i32::MIN <= user.score + riddle.difficulty <= i32::MAX
    } else {
        i32::MIN <= user.score - riddle.penalty() <= i32::MAX
    }
}

/// Whether the score that an answer leads to is one that the score's type
/// can hold.
pub fn attempt_fits(user: &User, riddle: &Riddle, correct: bool) -> (r: bool)
    ensures
        r == score_fits(user@, riddle@, correct),
{
    let after: i64 = if correct {
        user.score as i64 + riddle.difficulty as i64
    } else {
        user.score as i64 - riddle.penalty() as i64
    };
    -2147483648 <= after && after <= 2147483647
}

impl User {
    /// Whether the solved history holds the riddle.
    pub fn has_solved(&self, riddle_id: &crate::ident::Oid) -> (r: bool)
        ensures
            r == self@.has_solved(*riddle_id),
    {
        let mut i: usize = 0;
        while i < self.solved.len()
            invariant
                i <= self.solved.len(),
                forall|j: int| 0 <= j < i ==> (#[trigger] self@.solved[j]).riddle_id != *riddle_id,
            decreases self.solved.len() - i,
        {
            if self.solved[i].riddle_id == *riddle_id {
                return true;
            }
            i += 1;
        }
        false
    }

    /// Whether the user was shown the riddle and is working on it.
    pub fn has_seen(&self, riddle_id: &crate::ident::Oid) -> (r: bool)
        ensures
            r == self@.has_seen(*riddle_id),
    {
        match self.current_riddle_attempt {
            Some(a) => a.riddle_id == *riddle_id && a.t0.is_some(),
            None => false,
        }
    }
}

/// Applies the verdict on an answer to the user. On an error the user is
/// left as they were.
pub fn record_attempt(user: &mut User, riddle: &Riddle, correct: bool, now: Timestamp) -> (r:
    Result<(), Error>)
    requires
        attempt_outcome(old(user)@, riddle@, correct, now) is Ok ==> score_fits(
            old(user)@,
            riddle@,
            correct,
        ),
    ensures
        match attempt_outcome(old(user)@, riddle@, correct, now) {
            Ok(after) => r is Ok && final(user)@ == after,
            Err(e) => r == Err::<(), Error>(e) && final(user)@ == old(user)@,
        },
{
    if !user.has_seen(&riddle.id) {
        return Err(Error::RiddleHasNotBeenSeenByUser);
    }
    if !correct {
        user.score = user.score - riddle.penalty();
        return Ok(());
    }
    if user.has_solved(&riddle.id) {
        return Err(Error::AlreadySolved);
    }
    let t0 = match user.current_riddle_attempt {
        Some(a) => a.t0,
        None => None,
    };
    user.solved.push(RiddleAttempt { riddle_id: riddle.id, t0, t_solved: Some(now) });
    if riddle.level > user.level {
        user.level = riddle.level;
    }
    user.score = user.score + riddle.difficulty;
    Ok(())
}

} // verus!
