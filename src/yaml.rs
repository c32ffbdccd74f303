//! A YAML document as a tree of plain values.

use vstd::prelude::*;

verus! {

/// A YAML node. Numbers that are not integers in the `i64` range are kept
/// only as the fact that a number stood there; mappings keep their entries
/// in document order.
#[derive(Debug, PartialEq, Eq)]
pub enum Yaml {
    Null,
    Bool(bool),
    Int(i64),
    OtherNumber,
    Str(String),
    List(Vec<Yaml>),
    Dict(Vec<(Yaml, Yaml)>),
}

/// The tree that the YAML reader builds from `bytes`, or `None` where the
/// bytes are not a well-formed YAML document.
pub uninterp spec fn yaml_tree_of(bytes: Seq<u8>) -> Option<Yaml>;

/// Relies on serde_yaml::from_slice into serde_yaml::Value: it reads the
/// bytes as one YAML document, and the tree it yields is a function of the
/// bytes alone.
#[verifier::external_body]
pub(crate) fn read_yaml(bytes: &[u8]) -> (r: Result<Yaml, String>)
    ensures
        r is Ok <==> yaml_tree_of(bytes@) is Some,
        r is Ok ==> yaml_tree_of(bytes@) == Some(r->Ok_0),
{
    match serde_yaml::from_slice::<serde_yaml::Value>(bytes) {
        Ok(v) => Ok(tree_of_value(v)),
        Err(e) => Err(e.to_string()),
    }
}

/// The reader's own tree, which the library only moves into `Yaml`.
#[verifier::external_type_specification]
#[verifier::external_body]
pub struct ExYamlValue(serde_yaml::Value);

/// Moves a serde_yaml::Value into the library's tree, variant by variant;
/// relies on serde_yaml::Number::as_i64 to tell integers apart.
#[verifier::external_body]
fn tree_of_value(v: serde_yaml::Value) -> Yaml {
    match v {
        serde_yaml::Value::Null => Yaml::Null,
        serde_yaml::Value::Bool(b) => Yaml::Bool(b),
        serde_yaml::Value::Number(n) => match n.as_i64() {
            Some(i) => Yaml::Int(i),
            None => Yaml::OtherNumber,
        },
        serde_yaml::Value::String(s) => Yaml::Str(s),
        serde_yaml::Value::Sequence(xs) => Yaml::List(xs.into_iter().map(tree_of_value).collect()),
        serde_yaml::Value::Mapping(m) => Yaml::Dict(
            m.into_iter().map(|(k, x)| (tree_of_value(k), tree_of_value(x))).collect(),
        ),
    }
}

} // verus!
