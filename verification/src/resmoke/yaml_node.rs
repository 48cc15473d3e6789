//! YAML documents.

use vstd::prelude::*;
use yaml_rust::{ScanError, Yaml, YamlLoader};

use crate::utils::text::str_eq;
use crate::utils::yaml_events::is_loadable;

verus! {

/// A YAML node as the loader gives it, which is only converted.
#[verifier::external_type_specification]
#[verifier::external_body]
pub struct ExYaml(yaml_rust::Yaml);

/// A node of a YAML document.
#[derive(Debug, PartialEq)]
pub enum YamlNode {
    /// A number with a fraction, as it is written.
    Real(String),
    /// A whole number.
    Integer(i64),
    /// A text.
    String(String),
    /// A truth value.
    Boolean(bool),
    /// A list.
    Array(Vec<YamlNode>),
    /// A map, as pairs of a key and a value.
    Hash(Vec<(YamlNode, YamlNode)>),
    /// A reference to another node.
    Alias(usize),
    /// No value.
    Null,
    /// A value that is not as its tag says, or a document without any.
    BadValue,
}

/// What a [`YamlNode`] holds.
pub enum YamlNodeView {
    Real(Seq<char>),
    Integer(i64),
    String(Seq<char>),
    Boolean(bool),
    Array(Seq<YamlNodeView>),
    Hash(Seq<(YamlNodeView, YamlNodeView)>),
    Alias(usize),
    Null,
    BadValue,
}

impl YamlNode {
    /// What a node holds.
    pub open spec fn content(self) -> YamlNodeView
        decreases self,
    {
        match self {
            YamlNode::Real(text) => YamlNodeView::Real(text@),
            YamlNode::Integer(number) => YamlNodeView::Integer(number),
            YamlNode::String(text) => YamlNodeView::String(text@),
            YamlNode::Boolean(truth) => YamlNodeView::Boolean(truth),
            YamlNode::Array(items) => YamlNodeView::Array(
                Seq::new(
                    items@.len(),
                    |i: int|
                        if 0 <= i < items@.len() {
                            items@[i].content()
                        } else {
                            YamlNodeView::Null
                        },
                ),
            ),
            YamlNode::Hash(entries) => YamlNodeView::Hash(
                Seq::new(
                    entries@.len(),
                    |i: int|
                        if 0 <= i < entries@.len() {
                            (entries@[i].0.content(), entries@[i].1.content())
                        } else {
                            (YamlNodeView::Null, YamlNodeView::Null)
                        },
                ),
            ),
            YamlNode::Alias(id) => YamlNodeView::Alias(id),
            YamlNode::Null => YamlNodeView::Null,
            YamlNode::BadValue => YamlNodeView::BadValue,
        }
    }
}

impl DeepView for YamlNode {
    type V = YamlNodeView;

    open spec fn deep_view(&self) -> YamlNodeView {
        self.content()
    }
}

/// The value of the first entry that has the given text as its key.
pub open spec fn entry_value(entries: Seq<(YamlNodeView, YamlNodeView)>, key: Seq<char>) -> Option<
    YamlNodeView,
>
    decreases entries.len(),
{
    if entries.len() == 0 {
        None
    } else if entries[0].0 == YamlNodeView::String(key) {
        Some(entries[0].1)
    } else {
        entry_value(entries.drop_first(), key)
    }
}

/// What a node holds under a key, if it is a map that has the key.
pub open spec fn value_at(node: YamlNodeView, key: Seq<char>) -> Option<YamlNodeView> {
    match node {
        YamlNodeView::Hash(entries) => entry_value(entries, key),
        _ => None,
    }
}

impl YamlNode {
    /// Is the node a map?
    pub fn is_map(&self) -> (map: bool)
        ensures
            map == (self.deep_view() is Hash),
    {
        matches!(self, YamlNode::Hash(_))
    }

    /// Get what the node holds under a key, if it is a map that has the key.
    ///
    /// # Arguments
    ///
    /// * `key` - Text that the value stands under.
    pub fn get(&self, key: &str) -> (value: Option<&YamlNode>)
        ensures
            value.deep_view() == value_at(self.deep_view(), key@),
    {
        let entries: &Vec<(YamlNode, YamlNode)> = match self {
            YamlNode::Hash(entries) => entries,
            _ => {
                return None;
            },
        };
        let ghost all = self.deep_view()->Hash_0;
        let mut i: usize = 0;
        assert(all.skip(0) =~= all);
        while i < entries.len()
            invariant
                i <= entries@.len(),
                self.deep_view() == YamlNodeView::Hash(all),
                all.len() == entries@.len(),
                forall|j: int|
                    0 <= j < entries@.len() ==> #[trigger] all[j] == (
                        entries@[j].0.content(),
                        entries@[j].1.content(),
                    ),
                entry_value(all, key@) == entry_value(all.skip(i as int), key@),
            decreases entries@.len() - i,
        {
            assert(all.skip(i as int)[0] == all[i as int]);
            assert(all.skip(i as int).drop_first() =~= all.skip(i + 1));
            if let YamlNode::String(text) = &entries[i].0 {
                if str_eq(text.as_str(), key) {
                    return Some(&entries[i].1);
                }
            }
            i += 1;
        }
        None
    }
}

/// The YAML documents of a text, if it is YAML.
pub uninterp spec fn yaml_documents(text: Seq<char>) -> Option<Seq<YamlNodeView>>;

/// Converts a `yaml_rust::Yaml` one for one, with all the nodes in it. Nothing is claimed of it by
/// itself: [`load_documents`] names what comes out.
#[verifier::external_body]
fn to_node(yaml: Yaml) -> (node: YamlNode) {
    match yaml {
        Yaml::Real(text) => YamlNode::Real(text),
        Yaml::Integer(number) => YamlNode::Integer(number),
        Yaml::String(text) => YamlNode::String(text),
        Yaml::Boolean(truth) => YamlNode::Boolean(truth),
        Yaml::Array(items) => YamlNode::Array(items.into_iter().map(to_node).collect()),
        Yaml::Hash(entries) => YamlNode::Hash(
            entries.into_iter().map(|entry| (to_node(entry.0), to_node(entry.1))).collect(),
        ),
        Yaml::Alias(id) => YamlNode::Alias(id),
        Yaml::Null => YamlNode::Null,
        Yaml::BadValue => YamlNode::BadValue,
    }
}

/// Calls `yaml_rust::YamlLoader::load_from_str` and converts the documents one for one. The contract
/// names the documents, and says that there are none to name where the text is refused. Loading
/// calls itself for each level of nodes inside one another, and copies named nodes: texts for which
/// that could exhaust the stack or the memory are left out. Nothing is said of the error.
#[verifier::external_body]
pub(crate) fn load_documents(text: &str) -> (documents: Result<Vec<YamlNode>, ScanError>)
    requires
        is_loadable(text@),
    ensures
        match documents {
            Ok(documents) => yaml_documents(text@) == Some(documents.deep_view()),
            Err(_) => yaml_documents(text@) is None,
        },
{
    Ok(YamlLoader::load_from_str(text)?.into_iter().map(to_node).collect())
}

} // verus!
