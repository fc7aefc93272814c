//! The driver's state: a strictly linear, single-pass run over the quiz
//! set. The run presents question `index`, accumulates the running correct
//! count, and once every question is scored renders the final report.

use vstd::prelude::*;

use crate::eval::{is_correct, is_correct_spec};
use crate::model::QuizSet;
use crate::num::{dec_chars, digit_char, push_char, push_dec, push_digit};

verus! {

/// The final percentage in hundredths of a percent: `100 * score / total`
/// carried to two decimal places, rounded half up. A run of zero questions
/// reports zero rather than dividing by zero.
pub open spec fn pct_hundredths(score: int, total: int) -> int {
    if total == 0 {
        0
    } else {
        (20000 * score + total) / (2 * total)
    }
}

/// The percentage rendered with two decimal places.
pub open spec fn pct_chars(p: int) -> Seq<char> {
    dec_chars(p / 100) + seq!['.', digit_char((p % 100) / 10), digit_char(p % 100 % 10)]
}

/// The final report line for a finished run.
pub open spec fn report_chars(score: int, total: int) -> Seq<char> {
    "You got "@ + dec_chars(score) + " out of "@ + dec_chars(total) + " correct ("@ + pct_chars(
        pct_hundredths(score, total),
    ) + ")%."@
}

fn pct_exec(score: usize, total: usize) -> (p: u64)
    requires
        score <= total,
    ensures
        p == pct_hundredths(score as int, total as int),
        p <= 10000,
{
    if total == 0 {
        0
    } else {
        let num: u128 = 20000u128 * (score as u128) + (total as u128);
        let den: u128 = 2u128 * (total as u128);
        let q = num / den;
        proof {
            assert(q <= 10000) by (nonlinear_arith)
                requires
                    score <= total,
                    total >= 1,
                    num == 20000 * (score as int) + total,
                    den == 2 * (total as int),
                    q == num / den,
            ;
        }
        q as u64
    }
}

/// Renders the final report: the correct count, the total, and the
/// percentage with two decimal places.
pub fn format_report(score: usize, total: usize) -> (r: String)
    requires
        score <= total,
    ensures
        r@ == report_chars(score as int, total as int),
{
    let mut s = String::from_str("You got ");
    push_dec(&mut s, score as u64);
    s.append(" out of ");
    push_dec(&mut s, total as u64);
    s.append(" correct (");
    let p = pct_exec(score, total);
    push_dec(&mut s, p / 100);
    push_char(&mut s, '.');
    push_digit(&mut s, (p % 100) / 10);
    push_digit(&mut s, (p % 100) % 10);
    s.append(")%.");
    proof {
        assert(s@ =~= report_chars(score as int, total as int));
    }
    s
}

/// The note reported when the loaded document held no questions.
pub fn empty_note() -> (r: String)
    ensures
        r@ == "No questions were found."@,
{
    String::from_str("No questions were found.")
}

/// One linear run over a quiz set: `index` questions are already scored,
/// `score` of them correct. The run is finished when `index` reaches the
/// set's length; no question is skipped, re-asked, or reordered.
pub struct QuizRun {
    pub set: QuizSet,
    pub index: usize,
    pub score: usize,
}

impl QuizRun {
    /// Well-formedness: the run never scores more answers than questions
    /// presented, nor presents past the end of the set.
    pub open spec fn wf(&self) -> bool {
        self.score <= self.index && self.index <= self.set@.len()
    }

    /// Starts a run at the first question with no score.
    pub fn new(set: QuizSet) -> (r: QuizRun)
        ensures
            r.set == set,
            r.index == 0,
            r.score == 0,
            r.wf(),
    {
        QuizRun { set, index: 0, score: 0 }
    }

    /// Whether every question has been presented and scored.
    pub fn is_finished(&self) -> (b: bool)
        ensures
            b == (self.index == self.set@.len()),
    {
        self.index == self.set.len()
    }

    /// The question currently presented.
    pub fn current(&self) -> (q: &crate::model::Question)
        requires
            self.index < self.set@.len(),
        ensures
            q@ == self.set@[self.index as int],
    {
        self.set.get(self.index)
    }

    /// Scores one answer for the current question and moves to the next:
    /// the index advances by one, and the score by one exactly when the
    /// answer was correct. The set itself never changes.
    pub fn submit(&mut self, raw: &str) -> (correct: bool)
        requires
            old(self).wf(),
            old(self).index < old(self).set@.len(),
        ensures
            final(self).wf(),
            correct == is_correct_spec(old(self).set@[old(self).index as int], raw@),
            final(self).set == old(self).set,
            final(self).index == old(self).index + 1,
            final(self).score == old(self).score + if correct {
                1int
            } else {
                0int
            },
    {
        let q = self.set.get(self.index);
        let correct = is_correct(q, raw);
        let n = self.set.len();
        proof {
            assert(self.index < n);
        }
        self.index = self.index + 1;
        if correct {
            self.score = self.score + 1;
        }
        correct
    }

    /// The final report of a finished run.
    pub fn report(&self) -> (r: String)
        requires
            self.wf(),
            self.index == self.set@.len(),
        ensures
            r@ == report_chars(self.score as int, self.set@.len() as int),
    {
        format_report(self.score, self.set.len())
    }
}

} // verus!
