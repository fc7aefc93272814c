//! The evaluator: a raw answer is correct exactly when, trimmed of leading
//! and trailing whitespace, it equals the recorded correct token up to ASCII
//! case. A pure function of its two inputs; no input is ever an error.

use vstd::prelude::*;

use crate::model::{Question, QuestionV};
use crate::text::{
    ascii_lower, ascii_upper, eq_icase, eq_ignore_case, fold_code, is_ws_char, lemma_trim_back_at,
    lemma_trim_front_at, lower_seq, trim_back, trim_front, trim_ws, trimmed, upper_seq,
};

verus! {

/// The meaning of answer evaluation: the raw answer, trimmed, matches the
/// recorded correct token case-insensitively.
pub open spec fn is_correct_spec(q: QuestionV, raw: Seq<char>) -> bool {
    eq_icase(trimmed(raw), q.correct)
}

/// Decides whether a raw answer is correct. Deliberately permissive: any
/// input that is not a normalized match — blank, nonsensical, or naming no
/// displayed label — is simply a wrong answer, never an error.
pub fn is_correct(q: &Question, raw: &str) -> (r: bool)
    ensures
        r == is_correct_spec(q@, raw@),
{
    eq_ignore_case(trim_ws(raw), q.correct.as_str())
}

proof fn lemma_trim_front_len(s: Seq<char>)
    ensures
        trim_front(s).len() <= s.len(),
    decreases s.len(),
{
    if s.len() > 0 && is_ws_char(s[0]) {
        lemma_trim_front_len(s.drop_first());
    }
}

proof fn lemma_trim_back_len(s: Seq<char>)
    ensures
        trim_back(s).len() <= s.len(),
    decreases s.len(),
{
    if s.len() > 0 && is_ws_char(s.last()) {
        lemma_trim_back_len(s.drop_last());
    }
}

proof fn lemma_trimmed_fixed_edges(c: Seq<char>)
    requires
        trimmed(c) == c,
        c.len() > 0,
    ensures
        !is_ws_char(c[0]),
        !is_ws_char(c[c.len() - 1]),
{
    if is_ws_char(c[0]) {
        lemma_trim_front_len(c.drop_first());
        lemma_trim_back_len(trim_front(c));
        assert(false);
    }
    if is_ws_char(c[c.len() - 1]) {
        assert(c.last() == c[c.len() - 1]);
        assert(trim_front(c) == c);
        lemma_trim_back_len(c.drop_last());
        assert(false);
    }
}

proof fn lemma_fold_upper(c: char)
    ensures
        fold_code(ascii_upper(c)) == fold_code(c),
        is_ws_char(ascii_upper(c)) == is_ws_char(c),
{
}

proof fn lemma_fold_lower(c: char)
    ensures
        fold_code(ascii_lower(c)) == fold_code(c),
        is_ws_char(ascii_lower(c)) == is_ws_char(c),
{
}

proof fn lemma_trim_front_upper(s: Seq<char>)
    ensures
        trim_front(upper_seq(s)) == upper_seq(trim_front(s)),
    decreases s.len(),
{
    if s.len() == 0 {
        assert(trim_front(upper_seq(s)) =~= upper_seq(trim_front(s)));
    } else {
        lemma_fold_upper(s[0]);
        assert(upper_seq(s)[0] == ascii_upper(s[0]));
        if is_ws_char(s[0]) {
            assert(upper_seq(s).drop_first() =~= upper_seq(s.drop_first()));
            lemma_trim_front_upper(s.drop_first());
        } else {
            assert(trim_front(upper_seq(s)) == upper_seq(s));
        }
    }
}

proof fn lemma_trim_back_upper(s: Seq<char>)
    ensures
        trim_back(upper_seq(s)) == upper_seq(trim_back(s)),
    decreases s.len(),
{
    if s.len() == 0 {
        assert(trim_back(upper_seq(s)) =~= upper_seq(trim_back(s)));
    } else {
        lemma_fold_upper(s.last());
        assert(upper_seq(s).last() == ascii_upper(s.last()));
        if is_ws_char(s.last()) {
            assert(upper_seq(s).drop_last() =~= upper_seq(s.drop_last()));
            lemma_trim_back_upper(s.drop_last());
        } else {
            assert(trim_back(upper_seq(s)) == upper_seq(s));
        }
    }
}

proof fn lemma_trim_front_lower(s: Seq<char>)
    ensures
        trim_front(lower_seq(s)) == lower_seq(trim_front(s)),
    decreases s.len(),
{
    if s.len() == 0 {
        assert(trim_front(lower_seq(s)) =~= lower_seq(trim_front(s)));
    } else {
        lemma_fold_lower(s[0]);
        assert(lower_seq(s)[0] == ascii_lower(s[0]));
        if is_ws_char(s[0]) {
            assert(lower_seq(s).drop_first() =~= lower_seq(s.drop_first()));
            lemma_trim_front_lower(s.drop_first());
        } else {
            assert(trim_front(lower_seq(s)) == lower_seq(s));
        }
    }
}

proof fn lemma_trim_back_lower(s: Seq<char>)
    ensures
        trim_back(lower_seq(s)) == lower_seq(trim_back(s)),
    decreases s.len(),
{
    if s.len() == 0 {
        assert(trim_back(lower_seq(s)) =~= lower_seq(trim_back(s)));
    } else {
        lemma_fold_lower(s.last());
        assert(lower_seq(s).last() == ascii_lower(s.last()));
        if is_ws_char(s.last()) {
            assert(lower_seq(s).drop_last() =~= lower_seq(s.drop_last()));
            lemma_trim_back_lower(s.drop_last());
        } else {
            assert(trim_back(lower_seq(s)) == lower_seq(s));
        }
    }
}

/// Law: for a recorded correct token free of leading and trailing
/// whitespace, the token itself, its ASCII upper-casing, its ASCII
/// lower-casing, and the token padded with surrounding whitespace are all
/// accepted as correct answers.
pub proof fn lemma_case_whitespace_invariance(q: QuestionV, c: Seq<char>)
    requires
        c == q.correct,
        trimmed(c) == c,
    ensures
        is_correct_spec(q, c),
        is_correct_spec(q, upper_seq(c)),
        is_correct_spec(q, lower_seq(c)),
        is_correct_spec(q, seq![' '] + c + seq!['\n']),
{
    assert(eq_icase(c, c));
    lemma_trim_front_upper(c);
    lemma_trim_back_upper(trim_front(c));
    assert(trimmed(upper_seq(c)) == upper_seq(c));
    assert forall|i: int| 0 <= i < c.len() implies fold_code(upper_seq(c)[i]) == fold_code(
        c[i],
    ) by {
        lemma_fold_upper(c[i]);
    }
    assert(eq_icase(upper_seq(c), c));
    lemma_trim_front_lower(c);
    lemma_trim_back_lower(trim_front(c));
    assert(trimmed(lower_seq(c)) == lower_seq(c));
    assert forall|i: int| 0 <= i < c.len() implies fold_code(lower_seq(c)[i]) == fold_code(
        c[i],
    ) by {
        lemma_fold_lower(c[i]);
    }
    assert(eq_icase(lower_seq(c), c));
    let p = seq![' '] + c + seq!['\n'];
    if c.len() == 0 {
        assert(forall|i: int| 0 <= i < 2 ==> is_ws_char(p[i]));
        lemma_trim_front_at(p, 2);
        assert(trim_front(p) =~= Seq::<char>::empty());
        assert(trimmed(p) =~= c);
    } else {
        lemma_trimmed_fixed_edges(c);
        assert(p[1] == c[0]);
        lemma_trim_front_at(p, 1);
        let t = p.subrange(1, p.len() as int);
        assert(t =~= c + seq!['\n']);
        assert(forall|i: int| c.len() <= i < t.len() ==> is_ws_char(t[i]));
        assert(t[c.len() - 1] == c[c.len() - 1]);
        lemma_trim_back_at(t, c.len() as int);
        assert(t.subrange(0, c.len() as int) =~= c);
    }
}

/// Law: any raw answer whose trimmed form does not case-insensitively equal
/// the recorded correct token is evaluated as wrong.
pub proof fn lemma_negative_match(q: QuestionV, raw: Seq<char>)
    requires
        !eq_icase(trimmed(raw), q.correct),
    ensures
        !is_correct_spec(q, raw),
{
}

} // verus!
