//! Rendering a question for display: the prompt, then each option prefixed
//! with its positional letter label, and the feedback line after an answer.

use vstd::prelude::*;

use crate::model::Question;
use crate::num::push_char;

verus! {

/// The single-letter label of option position `i`: `A` for the first
/// option, `B` for the second, and so on.
pub open spec fn label_char(i: int) -> char {
    ((65 + i) as u8) as char
}

/// The displayed line of the option at position `i`: its label, a colon and
/// a space, then the option text.
pub open spec fn option_line(i: int, text: Seq<char>) -> Seq<char> {
    seq![label_char(i), ':', ' '] + text
}

/// The letter label assigned to option position `i`. Labels are defined for
/// the first 26 positions only: beyond `Z` the label alphabet is exhausted.
pub fn label(i: usize) -> (c: char)
    requires
        i < 26,
    ensures
        c == label_char(i as int),
{
    let b: u8 = 65 + (i as u8);
    b as char
}

/// The lines displayed for one question: the prompt first, then one line
/// per option in input order, each prefixed with its letter label.
pub fn render_lines(q: &Question) -> (r: Vec<String>)
    requires
        q@.options.len() <= 26,
    ensures
        r@.len() == 1 + q@.options.len(),
        r@[0]@ == q@.text,
        forall|i: int|
            0 <= i < q@.options.len() ==> (#[trigger] r@[i + 1])@ == option_line(
                i,
                q@.options[i],
            ),
{
    let mut out: Vec<String> = Vec::new();
    out.push(q.text.clone());
    let n = q.options.len();
    let mut i: usize = 0;
    while i < n
        invariant
            n == q.options@.len(),
            n <= 26,
            i <= n,
            out@.len() == i + 1,
            out@[0]@ == q@.text,
            forall|j: int|
                0 <= j < i ==> (#[trigger] out@[j + 1])@ == option_line(j, q@.options[j]),
        decreases n - i,
    {
        let mut line = String::new();
        push_char(&mut line, label(i));
        push_char(&mut line, ':');
        push_char(&mut line, ' ');
        line.append(q.options[i].as_str());
        proof {
            assert(q@.options[i as int] == q.options@[i as int]@);
            assert(line@ =~= option_line(i as int, q@.options[i as int]));
        }
        out.push(line);
        i = i + 1;
    }
    out
}

/// The feedback line shown after evaluating an answer: an affirmation, or
/// the recorded correct token.
pub open spec fn feedback_chars(correct: bool, token: Seq<char>) -> Seq<char> {
    if correct {
        "Correct!"@
    } else {
        "Wrong! The correct answer is "@ + token + "."@
    }
}

/// Renders the feedback line for a question after an answer was evaluated.
pub fn feedback(q: &Question, correct: bool) -> (r: String)
    ensures
        r@ == feedback_chars(correct, q@.correct),
{
    if correct {
        String::from_str("Correct!")
    } else {
        let mut s = String::from_str("Wrong! The correct answer is ");
        s.append(q.correct.as_str());
        s.append(".");
        proof {
            assert(s@ =~= feedback_chars(false, q@.correct));
        }
        s
    }
}

} // verus!
