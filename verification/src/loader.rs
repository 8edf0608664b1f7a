//! Reading YAML text into document trees, by way of the `yaml-rust` crate.

use crate::node::{trees_of, Entry, Node, Tree};
use vstd::prelude::*;
use yaml_rust::{ScanError, Yaml, YamlLoader};

verus! {

/// `yaml_rust::Yaml`, a parsed YAML node. Nothing is stated of its inside.
#[verifier::external_type_specification]
#[verifier::external_body]
pub struct ExYaml(yaml_rust::Yaml);

/// `yaml_rust::ScanError`, the scanner's diagnostic for malformed YAML.
/// Nothing is stated of its inside.
#[verifier::external_type_specification]
#[verifier::external_body]
pub struct ExScanError(yaml_rust::ScanError);

/// The documents that `yaml_rust::YamlLoader::load_from_str` reads out of
/// `source`, in order, or `None` where it reports a scan error. The parser
/// works from the text alone, so one text always gives one result.
pub uninterp spec fn yaml_documents(source: Seq<char>) -> Option<Seq<Tree>>;

/// Moves a `yaml_rust::Yaml` into a [`Node`], variant by variant; a hash
/// gives its entries in the order in which `linked_hash_map` walks them, which
/// is the order of insertion.
#[verifier::external_body]
fn node_of(yaml: Yaml) -> Node {
    match yaml {
        Yaml::Real(s) => Node::Real(s),
        Yaml::Integer(i) => Node::Integer(i),
        Yaml::String(s) => Node::Text(s),
        Yaml::Boolean(b) => Node::Boolean(b),
        Yaml::Array(v) => Node::Sequence(v.into_iter().map(node_of).collect()),
        Yaml::Hash(h) => Node::Mapping(h.into_iter().map(entry_of).collect()),
        Yaml::Alias(a) => Node::Alias(a),
        Yaml::Null => Node::Null,
        Yaml::BadValue => Node::BadValue,
    }
}

/// Moves one key and value of a `yaml_rust` hash into an [`Entry`].
#[verifier::external_body]
fn entry_of(pair: (Yaml, Yaml)) -> Entry {
    Entry { key: node_of(pair.0), value: node_of(pair.1) }
}

/// Calls `yaml_rust::YamlLoader::load_from_str`. The contract claims only
/// that the outcome is the one that [`yaml_documents`] names for this text:
/// the documents on success, an error exactly where it names none. It speaks
/// of calls that return.
#[verifier::external_body]
pub(crate) fn load_from_str(source: &str) -> (r: Result<Vec<Node>, ScanError>)
    ensures
        match r {
            Ok(docs) => yaml_documents(source@) == Some(trees_of(docs@)),
            Err(_) => yaml_documents(source@) is None,
        },
{
    match YamlLoader::load_from_str(source) {
        Ok(docs) => Ok(docs.into_iter().map(node_of).collect()),
        Err(e) => Err(e),
    }
}

} // verus!
