//! A YAML document as a tree of plain values, and the trusted boundary to
//! serde_yaml that produces it. All schema validation happens on this tree,
//! in verified code.

use vstd::prelude::*;

verus! {

broadcast use
    vstd::std_specs::vec::axiom_vec_decreases_to_view,
    vstd::seq::axiom_seq_index_decreases;

/// The mathematical model of a parsed YAML document: what [`Node`] holds,
/// with every string a sequence of characters.
pub enum YamlV {
    Null,
    Bool(bool),
    Num(Seq<char>),
    Str(Seq<char>),
    Arr(Seq<YamlV>),
    Obj(Seq<(YamlV, YamlV)>),
    Tagged(Seq<char>, Box<YamlV>),
}

/// A parsed YAML document held as plain values: null, booleans, numbers
/// (carried as their rendered text), strings, sequences, mappings in
/// document order, and tagged values.
pub enum Node {
    Null,
    Bool(bool),
    Num(String),
    Str(String),
    Arr(Vec<Node>),
    Obj(Vec<(Node, Node)>),
    Tagged(String, Box<Node>),
}

/// The model of an exec tree.
pub open spec fn node_view(n: Node) -> YamlV
    decreases n,
{
    match n {
        Node::Null => YamlV::Null,
        Node::Bool(b) => YamlV::Bool(b),
        Node::Num(s) => YamlV::Num(s@),
        Node::Str(s) => YamlV::Str(s@),
        Node::Arr(v) => YamlV::Arr(
            Seq::new(
                v@.len(),
                |i: int|
                    if 0 <= i < v@.len() {
                        node_view(v@[i])
                    } else {
                        YamlV::Null
                    },
            ),
        ),
        Node::Obj(v) => YamlV::Obj(
            Seq::new(
                v@.len(),
                |i: int|
                    if 0 <= i < v@.len() {
                        (node_view(v@[i].0), node_view(v@[i].1))
                    } else {
                        (YamlV::Null, YamlV::Null)
                    },
            ),
        ),
        Node::Tagged(t, b) => YamlV::Tagged(t@, Box::new(node_view(*b))),
    }
}

impl View for Node {
    type V = YamlV;

    open spec fn view(&self) -> YamlV {
        node_view(*self)
    }
}

/// The tree that parsing a given document text yields, or `None` where the
/// text is not a well-formed YAML document. This names the result of
/// `serde_yaml::from_str`, which depends on the text alone.
pub uninterp spec fn yaml_doc(s: Seq<char>) -> Option<YamlV>;

/// Relies on the shape of serde_yaml::Value: each variant is carried over to
/// the library's own tree, one arm per variant, with numbers and tags
/// rendered as their text.
#[verifier::external_body]
fn node_of_value(v: serde_yaml::Value) -> Node {
    match v {
        serde_yaml::Value::Null => Node::Null,
        serde_yaml::Value::Bool(b) => Node::Bool(b),
        serde_yaml::Value::Number(n) => Node::Num(n.to_string()),
        serde_yaml::Value::String(s) => Node::Str(s),
        serde_yaml::Value::Sequence(xs) => Node::Arr(xs.into_iter().map(node_of_value).collect()),
        serde_yaml::Value::Mapping(m) => Node::Obj(
            m.into_iter().map(|(k, w)| (node_of_value(k), node_of_value(w))).collect(),
        ),
        serde_yaml::Value::Tagged(t) => Node::Tagged(
            t.tag.to_string(),
            Box::new(node_of_value(t.value)),
        ),
    }
}

/// Declares serde_yaml's dynamically typed value so that it can stand in the
/// signature of the conversion above.
#[verifier::external_type_specification]
#[verifier::external_body]
pub struct ExYamlValue(serde_yaml::Value);

/// Relies on serde_yaml::from_str: what a given text parses to is a function
/// of the text alone. On success the parsed value, carried over to the
/// library's tree, is the one tree `yaml_doc` assigns to the text; on failure
/// the error's rendered message is returned.
#[verifier::external_body]
pub(crate) fn parse_yaml(s: &str) -> (r: Result<Node, String>)
    ensures
        r is Ok <==> yaml_doc(s@) is Some,
        r matches Ok(n) ==> yaml_doc(s@) == Some(n@),
{
    match serde_yaml::from_str::<serde_yaml::Value>(s) {
        Ok(v) => Ok(node_of_value(v)),
        Err(e) => Err(e.to_string()),
    }
}

} // verus!
