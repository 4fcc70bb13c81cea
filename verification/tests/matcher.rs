use judger::matcher::{match_rule_from_i32, output_matches, JudgeMatchRule};

fn b(s: &str) -> Vec<u8> {
    s.as_bytes().to_vec()
}

#[test]
fn exact_match_accepts_equal_bytes() {
    assert!(output_matches(&b("5"), &b("5"), JudgeMatchRule::ExactSame));
}

#[test]
fn exact_match_rejects_different_bytes() {
    assert!(!output_matches(&b("5"), &b("6"), JudgeMatchRule::ExactSame));
}

#[test]
fn exact_match_rejects_trailing_newline() {
    assert!(!output_matches(&b("5\n"), &b("5"), JudgeMatchRule::ExactSame));
}

#[test]
fn exact_match_empty_outputs() {
    assert!(output_matches(&b(""), &b(""), JudgeMatchRule::ExactSame));
}

#[test]
fn ignore_snl_trims_trailing_spaces_per_line() {
    assert!(output_matches(&b("a  \nb \n"), &b("a\nb"), JudgeMatchRule::IgnoreSnl));
}

#[test]
fn ignore_snl_trims_final_newlines() {
    assert!(output_matches(&b("a\n\n\n"), &b("a"), JudgeMatchRule::IgnoreSnl));
}

#[test]
fn ignore_snl_keeps_leading_spaces() {
    assert!(!output_matches(&b("  a"), &b("a"), JudgeMatchRule::IgnoreSnl));
}

#[test]
fn ignore_snl_keeps_inner_empty_lines() {
    assert!(!output_matches(&b("a\n\nb"), &b("a\nb"), JudgeMatchRule::IgnoreSnl));
}

#[test]
fn ignore_snl_whitespace_only_output_equals_empty() {
    assert!(output_matches(&b("   \n  \n"), &b(""), JudgeMatchRule::IgnoreSnl));
}

#[test]
fn skip_snl_collapses_whitespace_runs() {
    assert!(output_matches(&b(" 1 \t2\n\n3 "), &b("1 2 3"), JudgeMatchRule::SkipSnl));
}

#[test]
fn skip_snl_rejects_different_words() {
    assert!(!output_matches(&b("1 2 3"), &b("1 2 4"), JudgeMatchRule::SkipSnl));
}

#[test]
fn skip_snl_rejects_joined_words() {
    assert!(!output_matches(&b("12"), &b("1 2"), JudgeMatchRule::SkipSnl));
}

#[test]
fn skip_snl_empty_equals_whitespace() {
    assert!(output_matches(&b("\n\t "), &b(""), JudgeMatchRule::SkipSnl));
}

#[test]
fn match_rule_decodes_known_values() {
    assert_eq!(match_rule_from_i32(0), Some(JudgeMatchRule::ExactSame));
    assert_eq!(match_rule_from_i32(1), Some(JudgeMatchRule::IgnoreSnl));
    assert_eq!(match_rule_from_i32(2), Some(JudgeMatchRule::SkipSnl));
}

#[test]
fn match_rule_rejects_unknown_values() {
    assert_eq!(match_rule_from_i32(3), None);
    assert_eq!(match_rule_from_i32(-1), None);
}
