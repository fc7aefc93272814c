use quizrun::{LoadError, Node, Question, QuizRun};

fn sample_yaml() -> &'static str {
    r#"
- question: What is Rust?
  options:
    - A programming language
    - A kind of cheese
    - A car brand
    - A planet
  correct: A

- question: What does 'let' do in Rust?
  options:
    - Declares a variable
    - Prints text
    - Imports a crate
    - Ends a program
  correct: A
"#
}

fn sample_question() -> Question {
    Question {
        text: "What is Rust?".to_string(),
        options: vec![
            "A programming language".to_string(),
            "A kind of cheese".to_string(),
            "A car brand".to_string(),
            "A planet".to_string(),
        ],
        correct: "A".to_string(),
    }
}

#[test]
fn test_read_quiz_file_from_str() {
    let questions = quizrun::load(sample_yaml()).unwrap();
    assert_eq!(questions.len(), 2);
    assert_eq!(questions.questions[0].text, "What is Rust?");
    assert_eq!(questions.questions[0].options[2], "A car brand");
    assert_eq!(questions.questions[1].correct, "A");
}

#[test]
fn test_answer_checking() {
    let q = sample_question();
    assert!(quizrun::is_correct(&q, "A"));
    assert!(quizrun::is_correct(&q, "a"));
    assert!(!quizrun::is_correct(&q, "B"));
}

#[test]
fn load_preserves_order_and_fields() {
    let set = quizrun::load(sample_yaml()).unwrap();
    assert_eq!(set.len(), 2);
    assert_eq!(set.questions[0].options.len(), 4);
    assert_eq!(set.questions[0].options[0], "A programming language");
    assert_eq!(set.questions[0].correct, "A");
    assert_eq!(set.questions[1].text, "What does 'let' do in Rust?");
    assert_eq!(set.questions[1].options[3], "Ends a program");
}

#[test]
fn case_and_whitespace_invariance() {
    let q = sample_question();
    assert!(quizrun::is_correct(&q, "A"));
    assert!(quizrun::is_correct(&q, "a"));
    assert!(quizrun::is_correct(&q, " A\n"));
    assert!(quizrun::is_correct(&q, "\t a \r\n"));
}

#[test]
fn negative_match_is_wrong_answer() {
    let q = sample_question();
    assert!(!quizrun::is_correct(&q, "B"));
    assert!(!quizrun::is_correct(&q, ""));
    assert!(!quizrun::is_correct(&q, "  "));
    assert!(!quizrun::is_correct(&q, "AB"));
    assert!(!quizrun::is_correct(&q, "A programming language"));
}

#[test]
fn trim_removes_edge_whitespace_only() {
    assert_eq!(quizrun::trim_ws("  a b\t\n"), "a b");
    assert_eq!(quizrun::trim_ws(""), "");
    assert_eq!(quizrun::trim_ws(" \n\t"), "");
    assert_eq!(quizrun::trim_ws("x"), "x");
}

#[test]
fn labels_are_positional_letters() {
    assert_eq!(quizrun::label(0), 'A');
    assert_eq!(quizrun::label(1), 'B');
    assert_eq!(quizrun::label(25), 'Z');
    let q = sample_question();
    let lines = quizrun::render_lines(&q);
    assert_eq!(lines.len(), 5);
    assert_eq!(lines[0], "What is Rust?");
    assert_eq!(lines[1], "A: A programming language");
    assert_eq!(lines[2], "B: A kind of cheese");
    assert_eq!(lines[3], "C: A car brand");
    assert_eq!(lines[4], "D: A planet");
}

#[test]
fn feedback_lines() {
    let q = sample_question();
    assert_eq!(quizrun::feedback(&q, true), "Correct!");
    assert_eq!(quizrun::feedback(&q, false), "Wrong! The correct answer is A.");
}

#[test]
fn score_aggregation_all_correct() {
    let set = quizrun::load(sample_yaml()).unwrap();
    let mut run = QuizRun::new(set);
    assert!(!run.is_finished());
    assert_eq!(run.current().text, "What is Rust?");
    assert!(run.submit("A"));
    assert!(run.submit("a"));
    assert!(run.is_finished());
    assert_eq!(run.report(), "You got 2 out of 2 correct (100.00)%.");
}

#[test]
fn score_aggregation_one_of_two() {
    let set = quizrun::load(sample_yaml()).unwrap();
    let mut run = QuizRun::new(set);
    assert!(run.submit("A"));
    assert!(!run.submit("B"));
    assert_eq!(run.report(), "You got 1 out of 2 correct (50.00)%.");
}

#[test]
fn report_rounds_to_two_decimals() {
    assert_eq!(quizrun::format_report(2, 3), "You got 2 out of 3 correct (66.67)%.");
    assert_eq!(quizrun::format_report(1, 3), "You got 1 out of 3 correct (33.33)%.");
    assert_eq!(quizrun::format_report(0, 7), "You got 0 out of 7 correct (0.00)%.");
}

#[test]
fn missing_correct_field_rejected() {
    let doc = r#"
- question: What is Rust?
  options:
    - A programming language
"#;
    match quizrun::load(doc) {
        Err(LoadError::MalformedDocument(m)) => {
            assert_eq!(m, "missing field `correct`");
        }
        other => panic!("expected MalformedDocument, got {:?}", other),
    }
}

#[test]
fn malformed_yaml_rejected() {
    assert!(matches!(
        quizrun::load("["),
        Err(LoadError::MalformedDocument(_))
    ));
}

#[test]
fn non_sequence_document_rejected() {
    match quizrun::load("question: alone") {
        Err(LoadError::MalformedDocument(m)) => {
            assert_eq!(m, "document is not a sequence of records");
        }
        other => panic!("expected MalformedDocument, got {:?}", other),
    }
}

#[test]
fn wrong_field_types_rejected() {
    let doc = "- question: 3\n  options: []\n  correct: A\n";
    match quizrun::load(doc) {
        Err(LoadError::MalformedDocument(m)) => {
            assert_eq!(m, "field `question` is not a string");
        }
        other => panic!("expected MalformedDocument, got {:?}", other),
    }
    let doc2 = "- question: q\n  options: x\n  correct: A\n";
    match quizrun::load(doc2) {
        Err(LoadError::MalformedDocument(m)) => {
            assert_eq!(m, "field `options` is not a sequence");
        }
        other => panic!("expected MalformedDocument, got {:?}", other),
    }
    let doc3 = "- question: q\n  options: [1, 2]\n  correct: A\n";
    match quizrun::load(doc3) {
        Err(LoadError::MalformedDocument(m)) => {
            assert_eq!(m, "an entry of `options` is not a string");
        }
        other => panic!("expected MalformedDocument, got {:?}", other),
    }
}

#[test]
fn empty_document_reports_zero_outcome() {
    let set = quizrun::load("[]").unwrap();
    assert_eq!(set.len(), 0);
    let run = QuizRun::new(set);
    assert!(run.is_finished());
    assert_eq!(run.report(), "You got 0 out of 0 correct (0.00)%.");
    assert_eq!(quizrun::empty_note(), "No questions were found.");
}

#[test]
fn quiz_of_tree_validates_directly() {
    let record = Node::Obj(vec![
        (Node::Str("question".to_string()), Node::Str("q".to_string())),
        (
            Node::Str("options".to_string()),
            Node::Arr(vec![Node::Str("one".to_string()), Node::Str("two".to_string())]),
        ),
        (Node::Str("correct".to_string()), Node::Str("B".to_string())),
    ]);
    let set = quizrun::quiz_of_tree(&Node::Arr(vec![record])).unwrap();
    assert_eq!(set.len(), 1);
    assert_eq!(set.questions[0].text, "q");
    assert_eq!(set.questions[0].options, vec!["one", "two"]);
    assert_eq!(set.questions[0].correct, "B");

    match quizrun::quiz_of_tree(&Node::Arr(vec![Node::Str("q".to_string())])) {
        Err(LoadError::MalformedDocument(m)) => {
            assert_eq!(m, "record is not a mapping");
        }
        other => panic!("expected MalformedDocument, got {:?}", other),
    }
}

#[test]
fn decimal_rendering() {
    assert_eq!(quizrun::num::dec_string(0), "0");
    assert_eq!(quizrun::num::dec_string(7), "7");
    assert_eq!(quizrun::num::dec_string(1230), "1230");
}

#[test]
fn error_messages_are_exposed() {
    let e = LoadError::SourceUnavailable("could not read file".to_string());
    assert_eq!(e.message(), "could not read file");
    let m = LoadError::MalformedDocument("bad shape".to_string());
    assert_eq!(m.message(), "bad shape");
}
