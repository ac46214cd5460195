use polar_analyzer::kb::{KnowledgeBase, Rule, Source, SourceInfo};
use polar_analyzer::rules::{get_rule_location, get_rule_signature};
use polar_analyzer::text::{char_slice, join_strings};

fn rule(name: &str, params: &[&str], source_info: SourceInfo) -> Rule {
    Rule {
        name: name.to_string(),
        params: params.iter().map(|p| p.to_string()).collect(),
        source_info,
    }
}

fn kb_with_source(src_id: u64, filename: Option<&str>, src: &str) -> KnowledgeBase {
    let mut kb = KnowledgeBase::new();
    kb.sources.insert(
        src_id,
        Source {
            filename: filename.map(|f| f.to_string()),
            src: src.to_string(),
        },
    );
    kb
}

#[test]
fn parsed_rule_takes_signature_from_source() {
    let text = "allow(actor, action) if true;";
    let kb = kb_with_source(1, Some("policy.polar"), text);
    let r = rule(
        "allow",
        &["actor", "action"],
        SourceInfo::Parser {
            src_id: 1,
            left: 0,
            right: 29,
        },
    );
    assert_eq!(get_rule_signature(&kb, &r), "allow(actor, action) if true;");
    assert_eq!(get_rule_signature(&kb, &r), &text[0..29]);
    assert_eq!(
        get_rule_location(&kb, &r),
        (Some("policy.polar".to_string()), 0, 29)
    );
}

#[test]
fn synthetic_rule_is_rebuilt_from_name_and_parameters() {
    let kb = KnowledgeBase::new();
    let r = rule("internal_rule", &["x"], SourceInfo::Test);
    assert_eq!(get_rule_signature(&kb, &r), "internal_rule(x)");
    assert_eq!(get_rule_location(&kb, &r), (None, 0, 0));
}

#[test]
fn every_unparsed_origin_is_rebuilt() {
    let kb = kb_with_source(0, Some("policy.polar"), "f(x);");
    for info in [SourceInfo::TemporaryVariable, SourceInfo::Ffi, SourceInfo::Test] {
        let r = rule("f", &["x", "y: Integer"], info);
        assert_eq!(get_rule_signature(&kb, &r), "f(x, y: Integer)");
        assert_eq!(get_rule_location(&kb, &r), (None, 0, 0));
    }
}

#[test]
fn unknown_source_id_falls_back_to_call_form() {
    let kb = kb_with_source(1, Some("policy.polar"), "allow(actor, action) if true;");
    let r = rule(
        "allow",
        &["actor", "action"],
        SourceInfo::Parser {
            src_id: 2,
            left: 0,
            right: 29,
        },
    );
    assert_eq!(get_rule_signature(&kb, &r), "allow(actor, action)");
    assert_eq!(get_rule_location(&kb, &r), (None, 0, 0));
}

#[test]
fn rule_without_parameters_has_empty_parentheses() {
    let kb = KnowledgeBase::new();
    let r = rule("ready", &[], SourceInfo::Ffi);
    assert_eq!(get_rule_signature(&kb, &r), "ready()");
}

#[test]
fn three_parameters_are_separated_by_comma_and_space() {
    let kb = KnowledgeBase::new();
    let r = rule("has_role", &["actor", "\"admin\"", "resource: Repo"], SourceInfo::Test);
    assert_eq!(
        get_rule_signature(&kb, &r),
        "has_role(actor, \"admin\", resource: Repo)"
    );
}

#[test]
fn source_without_filename_keeps_the_span() {
    let kb = kb_with_source(7, None, "f(x) if x = 1;");
    let r = rule(
        "f",
        &["x"],
        SourceInfo::Parser {
            src_id: 7,
            left: 0,
            right: 4,
        },
    );
    assert_eq!(get_rule_signature(&kb, &r), "f(x)");
    assert_eq!(get_rule_location(&kb, &r), (None, 0, 4));
}

#[test]
fn span_in_the_middle_of_a_source() {
    let kb = kb_with_source(3, Some("a.polar"), "f(1);\ng(x, y) if x = y;\n");
    let r = rule(
        "g",
        &["x", "y"],
        SourceInfo::Parser {
            src_id: 3,
            left: 6,
            right: 13,
        },
    );
    assert_eq!(get_rule_signature(&kb, &r), "g(x, y)");
    assert_eq!(get_rule_location(&kb, &r), (Some("a.polar".to_string()), 6, 13));
}

#[test]
fn empty_span_gives_empty_signature_not_call_form() {
    let kb = kb_with_source(1, Some("policy.polar"), "allow(actor, action) if true;");
    let r = rule(
        "allow",
        &["actor", "action"],
        SourceInfo::Parser {
            src_id: 1,
            left: 5,
            right: 5,
        },
    );
    assert_eq!(get_rule_signature(&kb, &r), "");
    assert_eq!(
        get_rule_location(&kb, &r),
        (Some("policy.polar".to_string()), 5, 5)
    );
}

#[test]
fn zero_span_of_a_known_source_keeps_its_filename() {
    let kb = kb_with_source(1, Some("policy.polar"), "allow();");
    let r = rule(
        "allow",
        &[],
        SourceInfo::Parser {
            src_id: 1,
            left: 0,
            right: 0,
        },
    );
    assert_eq!(get_rule_signature(&kb, &r), "");
    assert_eq!(
        get_rule_location(&kb, &r),
        (Some("policy.polar".to_string()), 0, 0)
    );
}

#[test]
fn left_beyond_right_gives_empty_signature() {
    let kb = kb_with_source(1, None, "allow(actor, action) if true;");
    let r = rule(
        "allow",
        &["actor", "action"],
        SourceInfo::Parser {
            src_id: 1,
            left: 10,
            right: 4,
        },
    );
    assert_eq!(get_rule_signature(&kb, &r), "");
    assert_eq!(get_rule_location(&kb, &r), (None, 10, 4));
}

#[test]
fn span_past_the_end_is_cut_to_the_text() {
    let kb = kb_with_source(1, None, "f(x);");
    let inside = rule(
        "f",
        &["x"],
        SourceInfo::Parser {
            src_id: 1,
            left: 2,
            right: 100,
        },
    );
    assert_eq!(get_rule_signature(&kb, &inside), "x);");
    assert_eq!(get_rule_location(&kb, &inside), (None, 2, 100));
    let outside = rule(
        "f",
        &["x"],
        SourceInfo::Parser {
            src_id: 1,
            left: 50,
            right: 100,
        },
    );
    assert_eq!(get_rule_signature(&kb, &outside), "");
    let largest = rule(
        "f",
        &["x"],
        SourceInfo::Parser {
            src_id: 1,
            left: usize::MAX,
            right: usize::MAX,
        },
    );
    assert_eq!(get_rule_signature(&kb, &largest), "");
}

#[test]
fn positions_count_characters_not_bytes() {
    let text = "größe(x) if x = \"é\";";
    let kb = kb_with_source(4, Some("umlaut.polar"), text);
    let r = rule(
        "größe",
        &["x"],
        SourceInfo::Parser {
            src_id: 4,
            left: 0,
            right: 8,
        },
    );
    assert_eq!(get_rule_signature(&kb, &r), "größe(x)");
    let tail = rule(
        "größe",
        &["x"],
        SourceInfo::Parser {
            src_id: 4,
            left: 16,
            right: 19,
        },
    );
    assert_eq!(get_rule_signature(&kb, &tail), "\"é\"");
}

#[test]
fn char_slice_matches_take_then_skip() {
    let text = "héllo wörld";
    for left in 0..14usize {
        for right in 0..14usize {
            let expected: String = text.chars().take(right).skip(left).collect();
            assert_eq!(char_slice(text, left, right), expected);
        }
    }
}

#[test]
fn char_slice_exact_values() {
    assert_eq!(char_slice("hello", 1, 3), "el");
    assert_eq!(char_slice("hello", 0, 5), "hello");
    assert_eq!(char_slice("hello", 0, 0), "");
    assert_eq!(char_slice("hello", 4, 9), "o");
    assert_eq!(char_slice("hello", 5, 9), "");
    assert_eq!(char_slice("hello", 3, 1), "");
    assert_eq!(char_slice("", 0, 3), "");
}

#[test]
fn join_strings_exact_values() {
    let none: Vec<String> = Vec::new();
    assert_eq!(join_strings(&none, ", "), "");
    let one = vec!["a".to_string()];
    assert_eq!(join_strings(&one, ", "), "a");
    let three = vec!["a".to_string(), "".to_string(), "c".to_string()];
    assert_eq!(join_strings(&three, ", "), "a, , c");
    assert_eq!(join_strings(&three, ""), "ac");
}

#[test]
fn get_source_finds_registered_texts_only() {
    let kb = kb_with_source(9, Some("nine.polar"), "nine();");
    let found = kb.get_source(9);
    assert!(found.is_some());
    assert_eq!(found.unwrap().src, "nine();");
    assert_eq!(found.unwrap().filename, Some("nine.polar".to_string()));
    assert!(kb.get_source(8).is_none());
    assert!(KnowledgeBase::new().get_source(9).is_none());
}
