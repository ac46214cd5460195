//! What rule inspection reads of a knowledge base: the rule index, symbol by
//! symbol, and the registry of source texts, as plain owned values.

use std::collections::HashMap;
use vstd::prelude::*;

verus! {

/// Where a rule came from.
#[derive(Clone, Copy, Debug, PartialEq, Eq)]
pub enum SourceInfo {
    /// Parsed from a registered source text.
    Parser {
        /// Key of the source text in the registry of the knowledge base.
        src_id: u64,
        /// Character position in that text where the rule starts.
        left: usize,
        /// Character position in that text where the rule ends.
        right: usize,
    },
    /// Made for a temporary variable.
    TemporaryVariable,
    /// Handed in by a host application.
    Ffi,
    /// Made for a test.
    Test,
}

/// A registered source text.
#[derive(Clone, Debug)]
pub struct Source {
    /// The file it was loaded from, if it came from a file.
    pub filename: Option<String>,
    /// The full text.
    pub src: String,
}

/// One clause: a name, its parameters as they are written in the rule
/// language, and where it came from.
#[derive(Clone, Debug)]
pub struct Rule {
    pub name: String,
    /// Each parameter in the textual notation of the rule language.
    pub params: Vec<String>,
    pub source_info: SourceInfo,
}

/// All the rules that share one predicate symbol, each with its identifier.
#[derive(Clone, Debug)]
pub struct GenericRule {
    pub name: String,
    pub rules: Vec<(u64, Rule)>,
}

/// The rule index and the source registry of a knowledge base.
#[derive(Clone, Debug)]
pub struct KnowledgeBase {
    /// The generic rules, in the order in which the index yields them.
    pub rules: Vec<GenericRule>,
    /// The registered source texts by identifier.
    pub sources: HashMap<u64, Source>,
}

/// A source text as mathematical values.
pub ghost struct SourceView {
    pub filename: Option<Seq<char>>,
    pub src: Seq<char>,
}

/// A rule as mathematical values.
pub ghost struct RuleView {
    pub name: Seq<char>,
    pub params: Seq<Seq<char>>,
    pub source_info: SourceInfo,
}

/// A generic rule as mathematical values.
pub ghost struct GenericRuleView {
    pub name: Seq<char>,
    pub rules: Seq<(u64, RuleView)>,
}

/// A knowledge base as mathematical values.
pub ghost struct KnowledgeBaseView {
    pub rules: Seq<GenericRuleView>,
    pub sources: Map<u64, SourceView>,
}

impl View for Source {
    type V = SourceView;

    open spec fn view(&self) -> SourceView {
        SourceView { filename: self.filename.deep_view(), src: self.src@ }
    }
}

impl DeepView for Source {
    type V = SourceView;

    open spec fn deep_view(&self) -> SourceView {
        self@
    }
}

impl View for Rule {
    type V = RuleView;

    open spec fn view(&self) -> RuleView {
        RuleView {
            name: self.name@,
            params: self.params.deep_view(),
            source_info: self.source_info,
        }
    }
}

impl DeepView for Rule {
    type V = RuleView;

    open spec fn deep_view(&self) -> RuleView {
        self@
    }
}

impl View for GenericRule {
    type V = GenericRuleView;

    open spec fn view(&self) -> GenericRuleView {
        GenericRuleView { name: self.name@, rules: self.rules.deep_view() }
    }
}

impl DeepView for GenericRule {
    type V = GenericRuleView;

    open spec fn deep_view(&self) -> GenericRuleView {
        self@
    }
}

impl View for KnowledgeBase {
    type V = KnowledgeBaseView;

    open spec fn view(&self) -> KnowledgeBaseView {
        KnowledgeBaseView {
            rules: self.rules.deep_view(),
            sources: Map::new(
                |id: u64| self.sources@.contains_key(id),
                |id: u64| self.sources@[id]@,
            ),
        }
    }
}

impl KnowledgeBase {
    /// A knowledge base without rules and without source texts.
    pub fn new() -> (kb: KnowledgeBase)
        ensures
            kb@.rules == Seq::<GenericRuleView>::empty(),
            kb@.sources == Map::<u64, SourceView>::empty(),
    {
        KnowledgeBase { rules: Vec::new(), sources: HashMap::new() }
    }

    /// The source text registered under `src_id`, if there is one.
    pub fn get_source(&self, src_id: u64) -> (found: Option<&Source>)
        ensures
            found is Some <==> self@.sources.contains_key(src_id),
            found is Some ==> *found->0 == self.sources@[src_id],
            found is Some ==> found->0@ == self@.sources[src_id],
    {
        broadcast use vstd::std_specs::hash::group_hash_axioms;

        self.sources.get(&src_id)
    }
}

} // verus!
