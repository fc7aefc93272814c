//! The loader: validates a parsed YAML tree against the record schema
//! (`question`: string, `options`: sequence of strings, `correct`: string)
//! and extracts the quiz set, preserving document order exactly. One bad
//! record invalidates the whole document.

use vstd::prelude::*;

use crate::model::{LoadError, Question, QuestionV, QuizSet};
use crate::text::str_eq;
use crate::yaml::{node_view, parse_yaml, yaml_doc, Node, YamlV};

verus! {

/// The value at the first entry of `es` whose key is the string `k`, if any.
pub open spec fn obj_lookup(es: Seq<(YamlV, YamlV)>, k: Seq<char>) -> Option<YamlV>
    decreases es.len(),
{
    if es.len() == 0 {
        None
    } else if es[0].0 == YamlV::Str(k) {
        Some(es[0].1)
    } else {
        obj_lookup(es.drop_first(), k)
    }
}

/// An `options` value is well-formed when it is a sequence of strings.
pub open spec fn opts_ok(v: YamlV) -> bool {
    v is Arr && (forall|i: int| 0 <= i < v->Arr_0.len() ==> (#[trigger] v->Arr_0[i]) is Str)
}

/// The strings of a well-formed `options` value, in order.
pub open spec fn opts_view(v: YamlV) -> Seq<Seq<char>> {
    Seq::new(v->Arr_0.len(), |i: int| v->Arr_0[i]->Str_0)
}

/// A record is well-formed when it is a mapping carrying a string under
/// `question`, a sequence of strings under `options`, and a string under
/// `correct`.
pub open spec fn record_ok(v: YamlV) -> bool {
    &&& v is Obj
    &&& obj_lookup(v->Obj_0, "question"@) matches Some(q) && q is Str
    &&& obj_lookup(v->Obj_0, "options"@) matches Some(o) && opts_ok(o)
    &&& obj_lookup(v->Obj_0, "correct"@) matches Some(c) && c is Str
}

/// The question a well-formed record denotes.
pub open spec fn record_view(v: YamlV) -> QuestionV {
    QuestionV {
        text: obj_lookup(v->Obj_0, "question"@)->Some_0->Str_0,
        options: opts_view(obj_lookup(v->Obj_0, "options"@)->Some_0),
        correct: obj_lookup(v->Obj_0, "correct"@)->Some_0->Str_0,
    }
}

/// A document is well-formed when it is a sequence of well-formed records.
pub open spec fn doc_ok(t: YamlV) -> bool {
    t is Arr && (forall|i: int| 0 <= i < t->Arr_0.len() ==> record_ok(#[trigger] t->Arr_0[i]))
}

/// The quiz set a well-formed document denotes, in document order.
pub open spec fn doc_view(t: YamlV) -> Seq<QuestionV> {
    Seq::new(t->Arr_0.len(), |i: int| record_view(t->Arr_0[i]))
}

/// The models of a vector of mapping entries, in order.
pub open spec fn entries_v(es: Seq<(Node, Node)>) -> Seq<(YamlV, YamlV)> {
    Seq::new(es.len(), |i: int| (node_view(es[i].0), node_view(es[i].1)))
}

/// The models of a vector of sequence elements, in order.
pub open spec fn elems_v(s: Seq<Node>) -> Seq<YamlV> {
    Seq::new(s.len(), |i: int| node_view(s[i]))
}

proof fn lemma_obj_lookup_at(es: Seq<(YamlV, YamlV)>, k: Seq<char>, i: int)
    requires
        0 <= i <= es.len(),
        forall|j: int| 0 <= j < i ==> (#[trigger] es[j]).0 != YamlV::Str(k),
        i < es.len() ==> es[i].0 == YamlV::Str(k),
    ensures
        i < es.len() ==> obj_lookup(es, k) == Some(es[i].1),
        i == es.len() ==> obj_lookup(es, k) is None,
    decreases i,
{
    if i == 0 {
        if es.len() > 0 && es[0].0 == YamlV::Str(k) {
        } else {
        }
    } else {
        assert(es[0].0 != YamlV::Str(k));
        let tail = es.drop_first();
        assert(forall|j: int| 0 <= j < i - 1 ==> (#[trigger] tail[j]).0 == es[j + 1].0);
        lemma_obj_lookup_at(tail, k, i - 1);
        if i < es.len() {
            assert(tail[i - 1] == es[i]);
        }
    }
}

/// Finds the value stored under a string key in a mapping's entries,
/// taking the first occurrence.
fn obj_get<'a>(es: &'a Vec<(Node, Node)>, key: &str) -> (r: Option<&'a Node>)
    ensures
        r matches Some(v) ==> obj_lookup(entries_v(es@), key@) == Some(v@),
        r is None ==> obj_lookup(entries_v(es@), key@) is None,
{
    let ghost m = entries_v(es@);
    let n = es.len();
    let mut i: usize = 0;
    while i < n
        invariant
            n == es@.len(),
            i <= n,
            m == entries_v(es@),
            forall|j: int| 0 <= j < i ==> (#[trigger] m[j]).0 != YamlV::Str(key@),
        decreases n - i,
    {
        let pair = &es[i];
        match &pair.0 {
            Node::Str(s) => {
                if str_eq(s.as_str(), key) {
                    proof {
                        assert(m[i as int].0 == YamlV::Str(key@));
                        lemma_obj_lookup_at(m, key@, i as int);
                    }
                    return Some(&pair.1);
                }
            },
            _ => {},
        }
        proof {
            assert(m[i as int].0 != YamlV::Str(key@));
        }
        i = i + 1;
    }
    proof {
        lemma_obj_lookup_at(m, key@, n as int);
    }
    None
}

/// Collects the option strings of a record, rejecting any element that is
/// not a string.
fn parse_options(items: &Vec<Node>) -> (r: Result<Vec<String>, LoadError>)
    ensures
        r is Ok <==> opts_ok(YamlV::Arr(elems_v(items@))),
        r matches Ok(v) ==> v.deep_view() == opts_view(YamlV::Arr(elems_v(items@))),
        r is Err ==> r->Err_0 is MalformedDocument,
{
    let ghost m = elems_v(items@);
    let n = items.len();
    let mut out: Vec<String> = Vec::new();
    let mut i: usize = 0;
    while i < n
        invariant
            n == items@.len(),
            i <= n,
            m == elems_v(items@),
            out@.len() == i,
            forall|j: int| 0 <= j < i ==> (#[trigger] m[j]) is Str,
            forall|j: int| 0 <= j < i ==> (#[trigger] out@[j])@ == m[j]->Str_0,
        decreases n - i,
    {
        match &items[i] {
            Node::Str(s) => {
                out.push(s.clone());
            },
            _ => {
                proof {
                    assert(!(m[i as int] is Str));
                }
                return Err(
                    LoadError::MalformedDocument(
                        String::from_str("an entry of `options` is not a string"),
                    ),
                );
            },
        }
        i = i + 1;
    }
    proof {
        assert(opts_ok(YamlV::Arr(m)));
        assert(out.deep_view() =~= opts_view(YamlV::Arr(m)));
    }
    Ok(out)
}

/// Validates one record of the document and extracts its question.
fn parse_record(n: &Node) -> (r: Result<Question, LoadError>)
    ensures
        r is Ok <==> record_ok(n@),
        r matches Ok(q) ==> q@ == record_view(n@),
        r is Err ==> r->Err_0 is MalformedDocument,
{
    match n {
        Node::Obj(es) => {
            proof {
                assert(n@->Obj_0 =~= entries_v(es@));
            }
            let text: String = match obj_get(es, "question") {
                Some(Node::Str(s)) => s.clone(),
                Some(_) => {
                    return Err(
                        LoadError::MalformedDocument(
                            String::from_str("field `question` is not a string"),
                        ),
                    );
                },
                None => {
                    return Err(
                        LoadError::MalformedDocument(String::from_str("missing field `question`")),
                    );
                },
            };
            let options: Vec<String> = match obj_get(es, "options") {
                Some(Node::Arr(items)) => {
                    proof {
                        let o = obj_lookup(entries_v(es@), "options"@)->Some_0;
                        assert(o->Arr_0 =~= elems_v(items@));
                    }
                    match parse_options(items) {
                        Ok(v) => v,
                        Err(e) => {
                            return Err(e);
                        },
                    }
                },
                Some(_) => {
                    return Err(
                        LoadError::MalformedDocument(
                            String::from_str("field `options` is not a sequence"),
                        ),
                    );
                },
                None => {
                    return Err(
                        LoadError::MalformedDocument(String::from_str("missing field `options`")),
                    );
                },
            };
            let correct: String = match obj_get(es, "correct") {
                Some(Node::Str(s)) => s.clone(),
                Some(_) => {
                    return Err(
                        LoadError::MalformedDocument(
                            String::from_str("field `correct` is not a string"),
                        ),
                    );
                },
                None => {
                    return Err(
                        LoadError::MalformedDocument(String::from_str("missing field `correct`")),
                    );
                },
            };
            Ok(Question { text, options, correct })
        },
        _ => Err(LoadError::MalformedDocument(String::from_str("record is not a mapping"))),
    }
}

/// Validates a whole parsed document tree and extracts the quiz set.
pub fn quiz_of_tree(n: &Node) -> (r: Result<QuizSet, LoadError>)
    ensures
        r is Ok <==> doc_ok(n@),
        r matches Ok(qs) ==> qs@ == doc_view(n@),
        r is Err ==> r->Err_0 is MalformedDocument,
{
    match n {
        Node::Arr(items) => {
            proof {
                assert(n@->Arr_0 =~= elems_v(items@));
            }
            let count = items.len();
            let mut out: Vec<Question> = Vec::new();
            let mut i: usize = 0;
            while i < count
                invariant
                    count == items@.len(),
                    i <= count,
                    n@->Arr_0 == elems_v(items@),
                    out@.len() == i,
                    forall|j: int| 0 <= j < i ==> record_ok(#[trigger] n@->Arr_0[j]),
                    forall|j: int| 0 <= j < i ==> (#[trigger] out@[j])@ == record_view(
                        n@->Arr_0[j],
                    ),
                decreases count - i,
            {
                match parse_record(&items[i]) {
                    Ok(q) => {
                        out.push(q);
                    },
                    Err(e) => {
                        proof {
                            assert(!record_ok(n@->Arr_0[i as int]));
                        }
                        return Err(e);
                    },
                }
                i = i + 1;
            }
            let qs = QuizSet { questions: out };
            proof {
                assert(qs@ =~= doc_view(n@));
            }
            Ok(qs)
        },
        _ => Err(
            LoadError::MalformedDocument(String::from_str("document is not a sequence of records")),
        ),
    }
}

/// Parses a document text and validates it into the quiz set it denotes.
/// Any failure is terminal: either the text is not a YAML document, or some
/// record does not fit the schema.
pub fn load(doc: &str) -> (r: Result<QuizSet, LoadError>)
    ensures
        r is Ok <==> (yaml_doc(doc@) matches Some(t) && doc_ok(t)),
        r matches Ok(qs) ==> qs@ == doc_view(yaml_doc(doc@)->Some_0),
        r is Err ==> r->Err_0 is MalformedDocument,
{
    match parse_yaml(doc) {
        Ok(n) => quiz_of_tree(&n),
        Err(m) => Err(LoadError::MalformedDocument(m)),
    }
}

/// Law: loading a well-formed document of `N` records yields exactly `N`
/// questions, each record's `question`, `options` and `correct` fields
/// carried over unchanged and in document order.
pub proof fn lemma_load_preserves_records(t: YamlV)
    requires
        doc_ok(t),
    ensures
        doc_view(t).len() == t->Arr_0.len(),
        forall|i: int| 0 <= i < t->Arr_0.len() ==> doc_view(t)[i] == record_view(
            #[trigger] t->Arr_0[i],
        ),
{
}

/// Law: a document with a record that lacks the `correct` field is not
/// well-formed, so loading it fails rather than yielding any questions.
pub proof fn lemma_missing_correct_rejected(t: YamlV, i: int)
    requires
        t is Arr,
        0 <= i < t->Arr_0.len(),
        t->Arr_0[i] is Obj,
        obj_lookup(t->Arr_0[i]->Obj_0, "correct"@) is None,
    ensures
        !doc_ok(t),
{
    assert(!record_ok(t->Arr_0[i]));
}

} // verus!
