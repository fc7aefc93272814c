//! The data model: a question record, the quiz set loaded for one run, and
//! the errors a load can end in.

use vstd::prelude::*;

verus! {

/// The mathematical model of a [`Question`].
pub struct QuestionV {
    pub text: Seq<char>,
    pub options: Seq<Seq<char>>,
    pub correct: Seq<char>,
}

/// One quiz item: a prompt, the ordered choices (their order assigns the
/// displayed labels), and the token naming the correct choice.
#[derive(Debug)]
pub struct Question {
    pub text: String,
    pub options: Vec<String>,
    pub correct: String,
}

impl View for Question {
    type V = QuestionV;

    open spec fn view(&self) -> QuestionV {
        QuestionV { text: self.text@, options: self.options.deep_view(), correct: self.correct@ }
    }
}

/// The immutable ordered collection of questions for one run, modelled as
/// the sequence of its records.
#[derive(Debug)]
pub struct QuizSet {
    pub questions: Vec<Question>,
}

impl View for QuizSet {
    type V = Seq<QuestionV>;

    open spec fn view(&self) -> Seq<QuestionV> {
        Seq::new(self.questions@.len(), |i: int| self.questions@[i]@)
    }
}

impl QuizSet {
    /// The number of questions.
    pub fn len(&self) -> (n: usize)
        ensures
            n == self@.len(),
    {
        self.questions.len()
    }

    /// The question at a position.
    pub fn get(&self, i: usize) -> (q: &Question)
        requires
            i < self@.len(),
        ensures
            q@ == self@[i as int],
    {
        &self.questions[i]
    }
}

/// Why a load failed. Both are terminal: one bad record, or an unreadable
/// source, invalidates the whole run.
#[derive(Debug)]
pub enum LoadError {
    /// The question document could not be retrieved.
    SourceUnavailable(String),
    /// The retrieved content does not parse into the expected record shape.
    MalformedDocument(String),
}

impl LoadError {
    /// The descriptive message carried by the error.
    pub fn message(&self) -> (r: &String)
        ensures
            self matches LoadError::SourceUnavailable(m) ==> r@ == m@,
            self matches LoadError::MalformedDocument(m) ==> r@ == m@,
    {
        match self {
            LoadError::SourceUnavailable(m) => m,
            LoadError::MalformedDocument(m) => m,
        }
    }
}

} // verus!
