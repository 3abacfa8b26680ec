//! From YAML text to the configuration tree, through `serde_yaml`.
//!
//! Parsing is `serde_yaml`'s work and is not proved here. What the library
//! adds is the step from `serde_yaml`'s document to its own tree, node for
//! node, and the error of its own that a text without a document becomes.

use crate::config::tree::{Mapping, Node};
use vstd::prelude::*;

verus! {

/// `serde_yaml::Value`, a parsed YAML document.
#[verifier::external_type_specification]
#[verifier::external_body]
pub struct ExYamlValue(serde_yaml::Value);

/// `serde_yaml::Number`, the number of a YAML scalar.
#[verifier::external_type_specification]
#[verifier::external_body]
pub struct ExYamlNumber(serde_yaml::Number);

/// `serde_yaml::Error`, why a text is no YAML document.
#[verifier::external_type_specification]
#[verifier::external_body]
pub struct ExYamlError(serde_yaml::Error);

/// The configuration tree that `text` holds as YAML, if it holds one: what
/// `serde_yaml::from_str` makes of the text, taken node for node.
pub uninterp spec fn yaml_tree(text: Seq<char>) -> Option<Node>;

/// The node for a number of `serde_yaml`, told apart by `Number::as_u64`,
/// `Number::as_i64` and `Number::as_f64`: a whole number that is not
/// negative, a whole number below zero, or the bits of a real number.
/// Nothing is promised of the result.
#[verifier::external_body]
fn number_of(number: &serde_yaml::Number) -> Node {
    match (number.as_u64(), number.as_i64()) {
        (Some(unsigned), _) => Node::Unsigned(unsigned),
        (None, Some(negative)) => Node::Negative(negative),
        (None, None) => Node::Real(number.as_f64().map_or(0, |float| float.to_bits())),
    }
}

/// The node for a key of a mapping of `serde_yaml`: a tagged key stays
/// tagged, since `serde_yaml` does not find it by its text; any other key is
/// the tree of its node. Nothing is promised of the result.
#[verifier::external_body]
fn key_of(key: &serde_yaml::Value) -> Node {
    match key {
        serde_yaml::Value::Tagged(tagged) => Node::Tagged(Box::new(tree_of(&tagged.value))),
        plain => tree_of(plain),
    }
}

/// The tree for a document of `serde_yaml`, one node per node: the variants
/// of `serde_yaml::Value` are matched and their fields moved over. A tagged
/// value counts as the node it tags, as it does for `serde_yaml`'s own
/// accessors. Nothing is promised of the result.
#[verifier::external_body]
fn tree_of(document: &serde_yaml::Value) -> Node {
    match document {
        serde_yaml::Value::Null => Node::Null,
        serde_yaml::Value::Bool(flag) => Node::Bool(*flag),
        serde_yaml::Value::Number(number) => number_of(number),
        serde_yaml::Value::String(text) => Node::Text(text.clone()),
        serde_yaml::Value::Sequence(items) => Node::Sequence(items.iter().map(tree_of).collect()),
        serde_yaml::Value::Mapping(mapping) => Node::Mapping(
            Mapping { entries: mapping.iter().map(|(k, v)| (key_of(k), tree_of(v))).collect() },
        ),
        serde_yaml::Value::Tagged(tagged) => tree_of(&tagged.value),
    }
}

/// `serde_yaml::from_str` into a `serde_yaml::Value`, and the tree of the
/// document it returns.
///
/// The result depends on the text alone, so it has a name: `yaml_tree`.
/// Nothing else is claimed of it.
#[verifier::external_body]
fn read_yaml(text: &str) -> (read: Result<Node, serde_yaml::Error>)
    ensures
        match read {
            Ok(tree) => yaml_tree(text@) == Some(tree),
            Err(_) => yaml_tree(text@) is None,
        },
{
    serde_yaml::from_str::<serde_yaml::Value>(text).map(|document| tree_of(&document))
}

/// `ToString::to_string` on a `serde_yaml::Error`: the parser's own account
/// of what is wrong and where. Nothing is promised of the text.
#[verifier::external_body]
fn yaml_error_text(error: &serde_yaml::Error) -> String {
    error.to_string()
}

/// Why a text could not be read as a configuration document.
#[derive(Debug)]
pub struct DocumentError {
    /// The parser's account of what is wrong with the text.
    pub reason: String,
}

/// Reads a configuration document from YAML text.
///
/// Returns the tree that the text holds, and an error exactly where the text
/// holds none.
pub fn parse_document(text: &str) -> (document: Result<Node, DocumentError>)
    ensures
        match document {
            Ok(tree) => yaml_tree(text@) == Some(tree),
            Err(_) => yaml_tree(text@) is None,
        },
{
    match read_yaml(text) {
        Ok(tree) => Ok(tree),
        Err(error) => Err(DocumentError { reason: yaml_error_text(&error) }),
    }
}

} // verus!
