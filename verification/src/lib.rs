//! Descriptions of the rules of a knowledge base for editors, debuggers and
//! documentation tools: for every rule a signature to show and the place in
//! the source text where it was written.

pub mod kb;
pub mod laws;
pub mod rules;
pub mod text;

pub use kb::{GenericRule, KnowledgeBase, Rule, Source, SourceInfo};
pub use rules::{get_rule_information, get_rule_location, get_rule_signature, RuleInfo};
