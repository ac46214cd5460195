//! What holds of the descriptions of every knowledge base: which rule
//! stands where in the output, what its description says, and how many
//! descriptions there are.

use crate::kb::{KnowledgeBase, KnowledgeBaseView, RuleView, SourceInfo, SourceView};
use crate::rules::{
    call_signature, group_infos, has_rule, info_of, infos_of_first, location_of, position_of,
    rule_count, rule_infos, rules_in_first, signature_of, RuleInfo, RuleInfoView,
};
use crate::text::{char_span, join};
use vstd::prelude::*;

verus! {

/// The descriptions of the first `count` generic rules are as many as their
/// rules.
pub proof fn lemma_infos_of_first_len(kb: KnowledgeBaseView, count: nat)
    requires
        count <= kb.rules.len(),
    ensures
        infos_of_first(kb, count).len() == rules_in_first(kb, count),
    decreases count,
{
    if count > 0 {
        lemma_infos_of_first_len(kb, (count - 1) as nat);
    }
}

/// The number of rules before a generic rule grows with its place in the
/// index, by at least the rules of each generic rule passed.
pub proof fn lemma_rules_in_first_grows(kb: KnowledgeBaseView, fewer: nat, more: nat)
    requires
        fewer < more <= kb.rules.len(),
    ensures
        rules_in_first(kb, fewer) + kb.rules[fewer as int].rules.len() <= rules_in_first(
            kb,
            more,
        ),
    decreases more,
{
    if fewer + 1 < more {
        lemma_rules_in_first_grows(kb, fewer, (more - 1) as nat);
    }
}

/// What the descriptions of the first `count` generic rules hold does not
/// change when more generic rules are taken.
proof fn lemma_infos_of_first_prefix(kb: KnowledgeBaseView, fewer: nat, more: nat, i: int)
    requires
        fewer <= more <= kb.rules.len(),
        0 <= i < infos_of_first(kb, fewer).len(),
    ensures
        i < infos_of_first(kb, more).len(),
        infos_of_first(kb, more)[i] == infos_of_first(kb, fewer)[i],
    decreases more,
{
    if fewer < more {
        lemma_infos_of_first_prefix(kb, fewer, (more - 1) as nat, i);
    }
}

/// The output holds as many descriptions as the index holds
/// rules, over all symbols.
pub proof fn lemma_one_info_for_each_rule(kb: KnowledgeBaseView)
    ensures
        rule_infos(kb).len() == rule_count(kb),
{
    lemma_infos_of_first_len(kb, kb.rules.len());
}

/// No rule is left out: every rule of the index has its description in the
/// output, at its position, under the symbol of its generic rule.
pub proof fn lemma_info_at_position(kb: KnowledgeBaseView, g: int, j: int)
    requires
        has_rule(kb, g, j),
    ensures
        0 <= position_of(kb, g, j) < rule_infos(kb).len(),
        rule_infos(kb)[position_of(kb, g, j)] == info_of(
            kb.sources,
            kb.rules[g].name,
            kb.rules[g].rules[j].1,
        ),
{
    let upto = (g + 1) as nat;
    lemma_infos_of_first_len(kb, g as nat);
    lemma_infos_of_first_len(kb, upto);
    let group = group_infos(kb.sources, kb.rules[g]);
    assert(infos_of_first(kb, upto) == infos_of_first(kb, g as nat) + group);
    assert(infos_of_first(kb, upto)[position_of(kb, g, j)] == group[j]);
    lemma_infos_of_first_prefix(kb, upto, kb.rules.len(), position_of(kb, g, j));
}

/// No rule is described twice: two different rules of the index have their
/// descriptions at different positions of the output.
pub proof fn lemma_positions_differ(kb: KnowledgeBaseView, g1: int, j1: int, g2: int, j2: int)
    requires
        has_rule(kb, g1, j1),
        has_rule(kb, g2, j2),
        g1 != g2 || j1 != j2,
    ensures
        position_of(kb, g1, j1) != position_of(kb, g2, j2),
{
    if g1 < g2 {
        lemma_rules_in_first_grows(kb, g1 as nat, g2 as nat);
    } else if g2 < g1 {
        lemma_rules_in_first_grows(kb, g2 as nat, g1 as nat);
    }
}

/// Nothing is made up: every position of the output is that of a rule of the
/// index.
pub proof fn lemma_position_has_rule(kb: KnowledgeBaseView, position: int)
    requires
        0 <= position < rule_infos(kb).len(),
    ensures
        exists|g: int, j: int| has_rule(kb, g, j) && position_of(kb, g, j) == position,
{
    lemma_position_within_first(kb, kb.rules.len(), position);
}

/// Every position within the descriptions of the first `count` generic
/// rules is that of a rule of one of them.
proof fn lemma_position_within_first(kb: KnowledgeBaseView, count: nat, position: int)
    requires
        count <= kb.rules.len(),
        0 <= position < infos_of_first(kb, count).len(),
    ensures
        exists|g: int, j: int|
            g < count && has_rule(kb, g, j) && position_of(kb, g, j) == position,
    decreases count,
{
    let earlier = (count - 1) as nat;
    lemma_infos_of_first_len(kb, count);
    lemma_infos_of_first_len(kb, earlier);
    if position < rules_in_first(kb, earlier) {
        lemma_position_within_first(kb, earlier, position);
    } else {
        let g = count - 1;
        let j = position - rules_in_first(kb, earlier);
        assert(g < count && has_rule(kb, g, j) && position_of(kb, g, j) == position);
    }
}

/// A knowledge base without rules has no descriptions.
pub proof fn lemma_no_rules_no_infos(kb: KnowledgeBaseView)
    requires
        rule_count(kb) == 0,
    ensures
        rule_infos(kb) == Seq::<RuleInfoView>::empty(),
{
    lemma_one_info_for_each_rule(kb);
    assert(rule_infos(kb) =~= Seq::<RuleInfoView>::empty());
}

/// A rule that was parsed from a registered source text is described by that
/// text: its signature is the text between the rule's two positions, as it
/// was written, and its location is the text's file name with the two
/// positions.
pub proof fn lemma_parsed_rule_shows_its_source(
    kb: KnowledgeBaseView,
    g: int,
    j: int,
    src_id: u64,
    left: usize,
    right: usize,
)
    requires
        has_rule(kb, g, j),
        kb.rules[g].rules[j].1.source_info == (SourceInfo::Parser { src_id, left, right }),
        kb.sources.contains_key(src_id),
    ensures
        rule_infos(kb)[position_of(kb, g, j)].signature == char_span(
            kb.sources[src_id].src,
            left as nat,
            right as nat,
        ),
        rule_infos(kb)[position_of(kb, g, j)].location == (
            kb.sources[src_id].filename,
            left,
            right,
        ),
{
    lemma_info_at_position(kb, g, j);
}

/// A rule without a registered source text, because it does not come from
/// the parser or because the registry does not hold its source, is described
/// by its name and parameters: its signature is the name, then the
/// parameters between parentheses with a comma and a space between them, and
/// its location is `(None, 0, 0)`.
pub proof fn lemma_other_rule_shows_its_call(kb: KnowledgeBaseView, g: int, j: int)
    requires
        has_rule(kb, g, j),
        match kb.rules[g].rules[j].1.source_info {
            SourceInfo::Parser { src_id, left, right } => !kb.sources.contains_key(src_id),
            _ => true,
        },
    ensures
        rule_infos(kb)[position_of(kb, g, j)].signature == kb.rules[g].rules[j].1.name + "("@
            + join(kb.rules[g].rules[j].1.params, ", "@) + ")"@,
        rule_infos(kb)[position_of(kb, g, j)].location == (None::<Seq<char>>, 0usize, 0usize),
{
    lemma_info_at_position(kb, g, j);
}

/// A parsed rule whose span is empty has the empty signature, taken from its
/// source text and not rebuilt from its name.
pub proof fn lemma_empty_span_empty_signature(
    sources: Map<u64, SourceView>,
    rule: RuleView,
    src_id: u64,
    at: usize,
)
    requires
        rule.source_info == (SourceInfo::Parser { src_id, left: at, right: at }),
        sources.contains_key(src_id),
    ensures
        signature_of(sources, rule) == Seq::<char>::empty(),
        signature_of(sources, rule) != call_signature(rule.name, rule.params),
        location_of(sources, rule) == (sources[src_id].filename, at, at),
{
    reveal_strlit("(");
    assert(signature_of(sources, rule) =~= Seq::<char>::empty());
    assert(call_signature(rule.name, rule.params).len() > 0);
}

/// A location is either that of a registered source text, with the span
/// that the rule names, or `(None, 0, 0)`: a file name or a position other
/// than zero is there only for a rule parsed from a text that is known.
pub proof fn lemma_location_is_known_or_zero(sources: Map<u64, SourceView>, rule: RuleView)
    ensures
        location_of(sources, rule) == (None::<Seq<char>>, 0usize, 0usize) || (exists|
            src_id: u64,
            left: usize,
            right: usize,
        |
            rule.source_info == (SourceInfo::Parser { src_id, left, right })
                && sources.contains_key(src_id) && location_of(sources, rule) == (
                sources[src_id].filename,
                left,
                right,
            )),
{
    match rule.source_info {
        SourceInfo::Parser { src_id, left, right } => {
            if sources.contains_key(src_id) {
                assert(rule.source_info == (SourceInfo::Parser { src_id, left, right })
                    && sources.contains_key(src_id) && location_of(sources, rule) == (
                    sources[src_id].filename,
                    left,
                    right,
                ));
            }
        },
        _ => {},
    }
}

/// Describing the same knowledge base twice gives the same descriptions in
/// the same order.
pub proof fn lemma_same_infos_each_time(
    kb: KnowledgeBase,
    first: Vec<RuleInfo>,
    second: Vec<RuleInfo>,
)
    requires
        first.deep_view() == rule_infos(kb@),
        second.deep_view() == rule_infos(kb@),
    ensures
        first.len() == second.len(),
        forall|i: int| 0 <= i < first.len() ==> #[trigger] first[i]@ == second[i]@,
{
    assert(first.deep_view().len() == first.len());
    assert(second.deep_view().len() == second.len());
    assert forall|i: int| 0 <= i < first.len() implies #[trigger] first[i]@ == second[i]@ by {
        assert(first.deep_view()[i] == first[i]@);
        assert(second.deep_view()[i] == second[i]@);
    }
}

} // verus!
