use vstd::prelude::*;

verus! {

/// A YAML node, held as plain values: the tree on which the decoders work.
///
/// A mapping keeps its entries in the order of the source document.
pub enum Node {
    /// A floating-point scalar, kept as the text that the document wrote.
    Real(String),
    Integer(i64),
    Text(String),
    Boolean(bool),
    Array(Vec<Node>),
    Hash(Vec<(Node, Node)>),
    Alias(usize),
    Null,
    BadValue,
}

/// The documents that the YAML loader reads from a text, or `None` where the
/// text is not well-formed YAML.
pub uninterp spec fn yaml_load(text: Seq<char>) -> Option<Seq<Node>>;

/// Relies on `yaml_rust2::YamlLoader::load_from_str`: it fails exactly where
/// the text is not well-formed, and otherwise returns the documents, which
/// depend on the text alone. Each document is copied into a `Node` variant for
/// variant, a mapping in its insertion order.
#[verifier::external_body]
pub(crate) fn load_documents(text: &str) -> (r: Result<Vec<Node>, yaml_rust2::ScanError>)
    ensures
        match r {
            Ok(docs) => yaml_load(text@) == Some(docs@),
            Err(_) => yaml_load(text@) is None,
        },
{
    yaml_rust2::YamlLoader::load_from_str(text).map(|docs| docs.iter().map(node_from_yaml).collect())
}

/// Copies a `yaml_rust2::Yaml` tree into a `Node`, one variant for another;
/// used by `load_documents` alone.
#[verifier::external_body]
fn node_from_yaml(y: &yaml_rust2::Yaml) -> Node {
    match y {
        yaml_rust2::Yaml::Real(s) => Node::Real(s.clone()),
        yaml_rust2::Yaml::Integer(i) => Node::Integer(*i),
        yaml_rust2::Yaml::String(s) => Node::Text(s.clone()),
        yaml_rust2::Yaml::Boolean(b) => Node::Boolean(*b),
        yaml_rust2::Yaml::Array(a) => Node::Array(a.iter().map(node_from_yaml).collect()),
        yaml_rust2::Yaml::Hash(h) => Node::Hash(
            h.iter().map(|(k, v)| (node_from_yaml(k), node_from_yaml(v))).collect(),
        ),
        yaml_rust2::Yaml::Alias(n) => Node::Alias(*n),
        yaml_rust2::Yaml::Null => Node::Null,
        yaml_rust2::Yaml::BadValue => Node::BadValue,
    }
}

#[verifier::external_type_specification]
#[verifier::external_body]
pub struct ExYaml(yaml_rust2::Yaml);

#[verifier::external_type_specification]
#[verifier::external_body]
pub struct ExScanError(yaml_rust2::ScanError);

/// Relies on the `Display` impl of `yaml_rust2::ScanError`: a readable account
/// of the error and where it stands.
#[verifier::external_body]
pub(crate) fn scan_error_text(e: &yaml_rust2::ScanError) -> String {
    e.to_string()
}

} // verus!
