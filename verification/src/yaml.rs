//! A minimal document tree for parsed YAML, and the trusted parser
//! behind it.
//!
//! The configuration schema only ever reads strings, sequences and
//! string-keyed mapping entries, so [`YamlNode`] holds exactly those
//! shapes as plain values; every other scalar collapses to
//! [`YamlNode::Other`]. Turning text into a tree is the work of the
//! `serde_yaml` crate and stands behind trusted items; everything
//! that reads the tree is verified.

use vstd::prelude::*;

verus! {

/// One `key: value` entry of a YAML mapping, with the key kept as a
/// full node so that the conversion from the external tree is purely
/// structural (non-string keys survive as [`YamlNode::Other`]).
pub struct YamlEntry {
    pub key: YamlNode,
    pub value: YamlNode,
}

/// A parsed YAML document, reduced to the shapes the configuration
/// schema can mention.
pub enum YamlNode {
    /// A string scalar.
    Str(String),
    /// A sequence of nodes.
    List(Vec<YamlNode>),
    /// A mapping, with entries in document order.
    Mapping(Vec<YamlEntry>),
    /// Any other value (null, boolean, number, tagged value).
    Other,
}

/// The value under the first entry of `es` whose key is the string
/// `key`, if any.
pub open spec fn lookup(es: Seq<YamlEntry>, key: Seq<char>) -> Option<YamlNode>
    decreases es.len(),
{
    if es.len() == 0 {
        None
    } else {
        match es[0].key {
            YamlNode::Str(s) => if s@ == key {
                Some(es[0].value)
            } else {
                lookup(es.drop_first(), key)
            },
            _ => lookup(es.drop_first(), key),
        }
    }
}

/// String equality by character content.
pub fn str_eq(a: &str, b: &str) -> (r: bool)
    ensures
        r == (a@ == b@),
{
    let x: String = a.to_owned();
    let y: String = b.to_owned();
    x == y
}

/// The value under the first entry of `es` keyed by the string `key`.
pub fn find_key<'a>(es: &'a Vec<YamlEntry>, key: &str) -> (r: Option<&'a YamlNode>)
    ensures
        match r {
            Some(n) => lookup(es@, key@) == Some(*n),
            None => lookup(es@, key@) is None,
        },
{
    let mut i: usize = 0;
    proof {
        assert(es@.skip(0) =~= es@);
    }
    while i < es.len()
        invariant
            i <= es@.len(),
            lookup(es@, key@) == lookup(es@.skip(i as int), key@),
        decreases es@.len() - i,
    {
        proof {
            assert(es@.skip(i as int)[0] == es@[i as int]);
            assert(es@.skip(i as int).drop_first() =~= es@.skip(i as int + 1));
        }
        match &es[i].key {
            YamlNode::Str(s) => {
                if str_eq(s.as_str(), key) {
                    return Some(&es[i].value);
                }
            },
            _ => {},
        }
        i = i + 1;
    }
    proof {
        assert(es@.skip(i as int) =~= Seq::<YamlEntry>::empty());
    }
    None
}

/// Declares `serde_yaml::Value`, the external parser's own document
/// tree, so that the conversion below may take it; the library never
/// looks inside one.
#[verifier::external_type_specification]
#[verifier::external_body]
pub struct ExValue(serde_yaml::Value);

/// The document tree that the text parses to, or `None` where the
/// text is not a well-formed YAML document. YAML's grammar is the
/// `serde_yaml` crate's business, so the result only carries a name.
pub uninterp spec fn yaml_doc_of(text: Seq<char>) -> Option<YamlNode>;

/// Relies on the variants of `serde_yaml::Value`: rebuilds the
/// external tree as a [`YamlNode`], one variant to one shape, keys
/// and values carried over unchanged. Sequence elements and mapping
/// entries keep their order (the external mapping is index-backed
/// and iterates in insertion order).
#[verifier::external_body]
fn node_of_value(v: &serde_yaml::Value) -> YamlNode {
    match v {
        serde_yaml::Value::Null => YamlNode::Other,
        serde_yaml::Value::Bool(_) => YamlNode::Other,
        serde_yaml::Value::Number(_) => YamlNode::Other,
        serde_yaml::Value::String(s) => YamlNode::Str(s.clone()),
        serde_yaml::Value::Sequence(xs) => YamlNode::List(xs.iter().map(node_of_value).collect()),
        serde_yaml::Value::Mapping(m) => YamlNode::Mapping(
            m.iter().map(|(k, w)| YamlEntry { key: node_of_value(k), value: node_of_value(w) }).collect(),
        ),
        serde_yaml::Value::Tagged(_) => YamlNode::Other,
    }
}

/// Relies on `serde_yaml::from_str::<Value>`: parses the text as one
/// YAML document, returning `None` exactly on text that is not one.
/// The tree it returns depends on the characters alone, so the
/// result is stated through [`yaml_doc_of`].
#[verifier::external_body]
pub(crate) fn parse_yaml_text(text: &str) -> (r: Option<YamlNode>)
    ensures
        r == yaml_doc_of(text@),
{
    match serde_yaml::from_str::<serde_yaml::Value>(text) {
        Ok(v) => Some(node_of_value(&v)),
        Err(_) => None,
    }
}

} // verus!
