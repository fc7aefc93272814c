//! A small quiz runner: loads multiple-choice questions from a YAML
//! document, evaluates answers with case-insensitive, whitespace-trimmed
//! matching, and reports a final score.


pub mod eval;
pub mod loader;
pub mod model;
pub mod num;
pub mod render;
pub mod run;
pub mod text;
pub mod yaml;

pub use eval::is_correct;
pub use loader::{load, quiz_of_tree};
pub use model::{LoadError, Question, QuizSet};
pub use render::{feedback, label, render_lines};
pub use run::{empty_note, format_report, QuizRun};
pub use text::trim_ws;
pub use yaml::Node;

