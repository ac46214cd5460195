//! The description of each rule of a knowledge base: its signature, taken
//! from the source text where there is one and rebuilt from the rule's name
//! and parameters where there is none, and its place in that text.

use crate::kb::{GenericRuleView, KnowledgeBase, KnowledgeBaseView, Rule, RuleView, SourceInfo, SourceView};
use crate::laws::lemma_one_info_for_each_rule;
use crate::text::{char_slice, char_span, join, join_strings};
use vstd::prelude::*;
use vstd::string::*;

verus! {

/// The description of one rule.
#[derive(Debug, PartialEq, Eq)]
pub struct RuleInfo {
    /// The predicate symbol under which the rule is indexed.
    pub symbol: String,
    /// The text to show for the rule.
    pub signature: String,
    /// File name, start and end of the rule in its source text, the two
    /// positions counted in characters; `(None, 0, 0)` where the place is
    /// not known.
    pub location: (Option<String>, usize, usize),
}

/// A rule's description as mathematical values.
pub ghost struct RuleInfoView {
    pub symbol: Seq<char>,
    pub signature: Seq<char>,
    pub location: (Option<Seq<char>>, usize, usize),
}

impl View for RuleInfo {
    type V = RuleInfoView;

    open spec fn view(&self) -> RuleInfoView {
        RuleInfoView {
            symbol: self.symbol@,
            signature: self.signature@,
            location: (self.location.0.deep_view(), self.location.1, self.location.2),
        }
    }
}

impl Clone for RuleInfo {
    fn clone(&self) -> (copy: RuleInfo)
        ensures
            copy@ == self@,
    {
        let filename = match &self.location.0 {
            Some(name) => Some(name.clone()),
            None => None,
        };
        RuleInfo {
            symbol: self.symbol.clone(),
            signature: self.signature.clone(),
            location: (filename, self.location.1, self.location.2),
        }
    }
}

impl DeepView for RuleInfo {
    type V = RuleInfoView;

    open spec fn deep_view(&self) -> RuleInfoView {
        self@
    }
}

/// The source text that a rule was parsed from: the entry of `sources`
/// under the rule's source identifier, where the rule comes from the parser
/// and the registry has that entry.
pub open spec fn parsed_source(sources: Map<u64, SourceView>, info: SourceInfo) -> Option<
    SourceView,
> {
    match info {
        SourceInfo::Parser { src_id, left, right } => if sources.contains_key(src_id) {
            Some(sources[src_id])
        } else {
            None
        },
        _ => None,
    }
}

/// The start and end that a rule's provenance names; both zero for a rule
/// that does not come from the parser.
pub open spec fn span_of(info: SourceInfo) -> (usize, usize) {
    match info {
        SourceInfo::Parser { src_id, left, right } => (left, right),
        _ => (0, 0),
    }
}

/// A signature in the form of a call: the name, then the parameters between
/// parentheses, separated by a comma and a space.
pub open spec fn call_signature(name: Seq<char>, params: Seq<Seq<char>>) -> Seq<char> {
    name + "("@ + join(params, ", "@) + ")"@
}

/// The signature of `rule`: the span of its source text as it was written,
/// where that text is known, and else the rule's name and parameters in the
/// form of a call.
pub open spec fn signature_of(sources: Map<u64, SourceView>, rule: RuleView) -> Seq<char> {
    match parsed_source(sources, rule.source_info) {
        Some(source) => char_span(
            source.src,
            span_of(rule.source_info).0 as nat,
            span_of(rule.source_info).1 as nat,
        ),
        None => call_signature(rule.name, rule.params),
    }
}

/// The location of `rule`: the file name of its source text with the span's
/// two positions, where that text is known, and else `(None, 0, 0)`.
pub open spec fn location_of(sources: Map<u64, SourceView>, rule: RuleView) -> (
    Option<Seq<char>>,
    usize,
    usize,
) {
    match parsed_source(sources, rule.source_info) {
        Some(source) => (
            source.filename,
            span_of(rule.source_info).0,
            span_of(rule.source_info).1,
        ),
        None => (None, 0, 0),
    }
}

/// The description of `rule` as indexed under `symbol`.
pub open spec fn info_of(sources: Map<u64, SourceView>, symbol: Seq<char>, rule: RuleView)
    -> RuleInfoView {
    RuleInfoView {
        symbol,
        signature: signature_of(sources, rule),
        location: location_of(sources, rule),
    }
}

/// The descriptions of the rules of one generic rule, in their order, each
/// under the symbol of the generic rule.
pub open spec fn group_infos(sources: Map<u64, SourceView>, group: GenericRuleView) -> Seq<
    RuleInfoView,
> {
    Seq::new(group.rules.len(), |j: int| info_of(sources, group.name, group.rules[j].1))
}

/// The descriptions of the rules of the first `count` generic rules of the
/// index, one generic rule after the other.
pub open spec fn infos_of_first(kb: KnowledgeBaseView, count: nat) -> Seq<RuleInfoView>
    decreases count,
{
    if count == 0 {
        Seq::empty()
    } else {
        infos_of_first(kb, (count - 1) as nat) + group_infos(
            kb.sources,
            kb.rules[count - 1],
        )
    }
}

/// The descriptions of all the rules of `kb`, in the order of the index.
pub open spec fn rule_infos(kb: KnowledgeBaseView) -> Seq<RuleInfoView> {
    infos_of_first(kb, kb.rules.len())
}

/// The number of rules in the first `count` generic rules of the index.
pub open spec fn rules_in_first(kb: KnowledgeBaseView, count: nat) -> nat
    decreases count,
{
    if count == 0 {
        0
    } else {
        rules_in_first(kb, (count - 1) as nat) + kb.rules[count - 1].rules.len()
    }
}

/// The number of rules in the whole index, over all symbols.
pub open spec fn rule_count(kb: KnowledgeBaseView) -> nat {
    rules_in_first(kb, kb.rules.len())
}

/// Whether the index of `kb` has a rule at place `j` of generic rule `g`.
pub open spec fn has_rule(kb: KnowledgeBaseView, g: int, j: int) -> bool {
    0 <= g < kb.rules.len() && 0 <= j < kb.rules[g].rules.len()
}

/// Where the description of rule `j` of generic rule `g` stands in the
/// output: behind those of all the rules of the generic rules before `g`,
/// and of the rules before `j` in `g`.
pub open spec fn position_of(kb: KnowledgeBaseView, g: int, j: int) -> int {
    rules_in_first(kb, g as nat) + j
}

/// The signature of `r`, to show to a reader: the text of the rule as it
/// stands in its source, where `r` comes from the parser and `kb` holds that
/// source, and else `r`'s name with its parameters in parentheses.
pub fn get_rule_signature(kb: &KnowledgeBase, r: &Rule) -> (signature: String)
    ensures
        signature@ == signature_of(kb@.sources, r@),
{
    match r.source_info {
        SourceInfo::Parser { src_id, left, right } => {
            if let Some(source) = kb.get_source(src_id) {
                return char_slice(source.src.as_str(), left, right);
            }
        },
        _ => {},
    }
    let params = join_strings(&r.params, ", ");
    let mut signature = r.name.clone();
    signature.append("(");
    signature.append(params.as_str());
    signature.append(")");
    signature
}

/// The location of `r`: file name, start and end in the source that `r` was
/// parsed from, where `kb` holds that source, and else `(None, 0, 0)`.
pub fn get_rule_location(kb: &KnowledgeBase, r: &Rule) -> (location: (
    Option<String>,
    usize,
    usize,
))
    ensures
        (location.0.deep_view(), location.1, location.2) == location_of(kb@.sources, r@),
{
    match r.source_info {
        SourceInfo::Parser { src_id, left, right } => {
            if let Some(source) = kb.get_source(src_id) {
                return (source.filename.clone(), left, right);
            }
        },
        _ => {},
    }
    (None, 0, 0)
}

/// The descriptions of all the rules of `kb`: one for each rule of each
/// generic rule, in the order of the index, none left out and none twice.
pub fn get_rule_information(kb: &KnowledgeBase) -> (infos: Vec<RuleInfo>)
    ensures
        infos.deep_view() == rule_infos(kb@),
        infos.len() == rule_count(kb@),
{
    let mut infos: Vec<RuleInfo> = Vec::new();
    let mut g: usize = 0;
    while g < kb.rules.len()
        invariant
            g <= kb.rules.len(),
            infos.deep_view() == infos_of_first(kb@, g as nat),
        decreases kb.rules.len() - g,
    {
        let generic_rule = &kb.rules[g];
        let ghost before = infos.deep_view();
        let mut j: usize = 0;
        while j < generic_rule.rules.len()
            invariant
                j <= generic_rule.rules.len(),
                infos.deep_view() == before + group_infos(kb@.sources, generic_rule@).take(
                    j as int,
                ),
            decreases generic_rule.rules.len() - j,
        {
            let r = &generic_rule.rules[j].1;
            let info = RuleInfo {
                symbol: generic_rule.name.clone(),
                signature: get_rule_signature(kb, r),
                location: get_rule_location(kb, r),
            };
            let ghost previous = infos.deep_view();
            infos.push(info);
            proof {
                assert(infos.deep_view() =~= previous.push(info@));
            }
            j += 1;
        }
        g += 1;
    }
    proof {
        lemma_one_info_for_each_rule(kb@);
    }
    infos
}

} // verus!
