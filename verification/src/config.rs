//! The mirror configuration and its loader.
//!
//! A configuration document is a mapping with a `mirrors` key whose
//! value is a sequence; every element must itself be a mapping with
//! string values under both `from` and `to`. [`parse_result`] states
//! exactly which documents are accepted and what they parse to;
//! [`parse_document`] and [`parse_config`] are proved against it.

use vstd::prelude::*;

use crate::yaml::{find_key, lookup, parse_yaml_text, yaml_doc_of, YamlNode};

verus! {

/// One configured mirror: the source repository URL to clone and the
/// destination repository URL to push to.
#[derive(Debug)]
pub struct MirrorSpec {
    pub from: String,
    pub to: String,
}

impl View for MirrorSpec {
    type V = (Seq<char>, Seq<char>);

    open spec fn view(&self) -> (Seq<char>, Seq<char>) {
        (self.from@, self.to@)
    }
}

/// The whole configuration: mirrors in document order, which is also
/// the processing order.
#[derive(Debug)]
pub struct MirrorConfig {
    pub mirrors: Vec<MirrorSpec>,
}

impl View for MirrorConfig {
    type V = Seq<(Seq<char>, Seq<char>)>;

    open spec fn view(&self) -> Seq<(Seq<char>, Seq<char>)> {
        self.mirrors@.map_values(|m: MirrorSpec| m@)
    }
}

/// Why a configuration document was rejected.
#[derive(Clone, Copy, Debug, PartialEq, Eq, Structural)]
pub enum ParseError {
    /// The text is not a well-formed YAML document.
    Syntax,
    /// The document is not a mapping with a `mirrors` key.
    MissingMirrors,
    /// The value under `mirrors` is not a sequence.
    MirrorsNotList,
    /// Some sequence element is not a mapping with string values
    /// under both `from` and `to`.
    BadEntry,
}

/// The `(from, to)` pair of one well-formed sequence element, `None`
/// where the element is malformed.
pub open spec fn entry_pair(n: YamlNode) -> Option<(Seq<char>, Seq<char>)> {
    match n {
        YamlNode::Mapping(es) => match (lookup(es@, "from"@), lookup(es@, "to"@)) {
            (Some(YamlNode::Str(f)), Some(YamlNode::Str(t))) => Some((f@, t@)),
            _ => None,
        },
        _ => None,
    }
}

/// The node under the document's `mirrors` key, `None` where the
/// document is not a mapping or has no such key.
pub open spec fn mirrors_value(doc: YamlNode) -> Option<YamlNode> {
    match doc {
        YamlNode::Mapping(es) => lookup(es@, "mirrors"@),
        _ => None,
    }
}

/// Every element of the sequence is a well-formed mirror entry.
pub open spec fn all_entries_wf(xs: Seq<YamlNode>) -> bool {
    forall|i: int| 0 <= i < xs.len() ==> #[trigger] entry_pair(xs[i]) is Some
}

/// The `(from, to)` pairs of a sequence of well-formed entries, in
/// sequence order.
pub open spec fn pairs_of(xs: Seq<YamlNode>) -> Seq<(Seq<char>, Seq<char>)>
    recommends
        all_entries_wf(xs),
{
    xs.map_values(|n: YamlNode| entry_pair(n)->Some_0)
}

/// What a document parses to: the ordered pairs of every entry, or
/// the one error that rejects it.
pub open spec fn parse_result(doc: Option<YamlNode>) -> Result<
    Seq<(Seq<char>, Seq<char>)>,
    ParseError,
> {
    match doc {
        None => Err(ParseError::Syntax),
        Some(d) => match mirrors_value(d) {
            None => Err(ParseError::MissingMirrors),
            Some(m) => match m {
                YamlNode::List(xs) => if all_entries_wf(xs@) {
                    Ok(pairs_of(xs@))
                } else {
                    Err(ParseError::BadEntry)
                },
                _ => Err(ParseError::MirrorsNotList),
            },
        },
    }
}

/// Parses one element of the `mirrors` sequence.
pub fn parse_entry(n: &YamlNode) -> (r: Option<MirrorSpec>)
    ensures
        match r {
            Some(m) => entry_pair(*n) == Some(m@),
            None => entry_pair(*n) is None,
        },
{
    match n {
        YamlNode::Mapping(es) => {
            let f = find_key(es, "from");
            let t = find_key(es, "to");
            match (f, t) {
                (Some(YamlNode::Str(fs)), Some(YamlNode::Str(ts))) => Some(
                    MirrorSpec { from: fs.clone(), to: ts.clone() },
                ),
                _ => None,
            }
        },
        _ => None,
    }
}

/// Parses a whole document into the ordered mirror list; accepts a
/// document exactly when [`parse_result`] does, and then returns one
/// spec per entry, in document order.
#[verifier::loop_isolation(false)]
pub fn parse_document(doc: &YamlNode) -> (r: Result<MirrorConfig, ParseError>)
    ensures
        match r {
            Ok(c) => parse_result(Some(*doc)) == Ok::<_, ParseError>(c@),
            Err(e) => parse_result(Some(*doc)) == Err::<Seq<(Seq<char>, Seq<char>)>, _>(e),
        },
{
    match doc {
        YamlNode::Mapping(des) => match find_key(des, "mirrors") {
            None => Err(ParseError::MissingMirrors),
            Some(YamlNode::List(xs)) => {
                let mut mirrors: Vec<MirrorSpec> = Vec::new();
                let mut i: usize = 0;
                while i < xs.len()
                    invariant
                        i <= xs@.len(),
                        mirrors@.len() == i,
                        forall|j: int| 0 <= j < i ==> #[trigger] entry_pair(xs@[j]) is Some,
                        forall|j: int|
                            0 <= j < i ==> mirrors@[j]@ == entry_pair(#[trigger] xs@[j])->Some_0,
                    decreases xs@.len() - i,
                {
                    match parse_entry(&xs[i]) {
                        Some(ms) => mirrors.push(ms),
                        None => {
                            proof {
                                assert(entry_pair(xs@[i as int]) is None);
                            }
                            return Err(ParseError::BadEntry);
                        },
                    }
                    i = i + 1;
                }
                let c = MirrorConfig { mirrors };
                proof {
                    assert(c@ =~= pairs_of(xs@));
                }
                Ok(c)
            },
            Some(_) => Err(ParseError::MirrorsNotList),
        },
        _ => Err(ParseError::MissingMirrors),
    }
}

/// Parses YAML text into the mirror configuration: the Config Loader
/// minus the file read, which the caller supplies.
pub fn parse_config(text: &str) -> (r: Result<MirrorConfig, ParseError>)
    ensures
        match r {
            Ok(c) => parse_result(yaml_doc_of(text@)) == Ok::<_, ParseError>(c@),
            Err(e) => parse_result(yaml_doc_of(text@)) == Err::<
                Seq<(Seq<char>, Seq<char>)>,
                _,
            >(e),
        },
{
    match parse_yaml_text(text) {
        None => Err(ParseError::Syntax),
        Some(doc) => parse_document(&doc),
    }
}

/// Every document whose `mirrors` key holds a list of well-formed
/// entries parses successfully, to exactly one pair per entry, in
/// document order — also where entries duplicate one another, since
/// the i-th parsed pair is pinned to the i-th entry.
pub proof fn lemma_wellformed_document_parses(
    doc: YamlNode,
    entries: Seq<YamlNode>,
    pairs: Seq<(Seq<char>, Seq<char>)>,
)
    requires
        mirrors_value(doc) matches Some(m) && m matches YamlNode::List(xs) && xs@ == entries,
        entries.len() == pairs.len(),
        forall|i: int| 0 <= i < entries.len() ==> #[trigger] entry_pair(entries[i]) == Some(
            pairs[i],
        ),
    ensures
        parse_result(Some(doc)) == Ok::<_, ParseError>(pairs),
{
    assert(all_entries_wf(entries));
    assert(pairs_of(entries) =~= pairs);
}

/// One malformed entry — one missing `from`, missing `to`, or not a
/// string-valued mapping at all — fails the whole parse: no partial
/// or defaulted configuration is ever produced.
pub proof fn lemma_bad_entry_fails_whole_parse(doc: YamlNode, entries: Seq<YamlNode>, i: int)
    requires
        mirrors_value(doc) matches Some(m) && m matches YamlNode::List(xs) && xs@ == entries,
        0 <= i < entries.len(),
        entry_pair(entries[i]) is None,
    ensures
        parse_result(Some(doc)) == Err::<Seq<(Seq<char>, Seq<char>)>, ParseError>(
            ParseError::BadEntry,
        ),
{
    assert(!all_entries_wf(entries));
}

} // verus!
