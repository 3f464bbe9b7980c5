use regex::Regex;
use tty_override::config::{Config, Profile, Rule};
use tty_override::engine::{applicable_rules, apply, apply_rules, rewrite_chunk};
use tty_override::text::join_lines;

fn rule(pattern: &str, replacement: &str) -> Rule {
    Rule { pattern: Regex::new(pattern).unwrap(), replacement: replacement.to_string() }
}

fn profile(program: &str, argmatch: &str, rules: Vec<Rule>) -> Profile {
    Profile { program: program.to_string(), argmatch: argmatch.to_string(), rules }
}

fn run(rules: &Vec<Rule>, text: &str) -> String {
    let refs: Vec<&Rule> = rules.iter().collect();
    apply_rules(&refs, text.to_string())
}

#[test]
fn the_same_rules_and_text_give_the_same_result() {
    let rules = vec![rule("a+", "b"), rule("b", "cc")];
    assert_eq!(run(&rules, "xaaay"), run(&rules, "xaaay"));
    assert_eq!(run(&rules, "xaaay"), "xccy");
}

#[test]
fn rule_order_matters() {
    let forward = vec![rule("a", "b"), rule("b", "c")];
    let backward = vec![rule("b", "c"), rule("a", "b")];
    assert_eq!(run(&forward, "a"), "c");
    assert_eq!(run(&backward, "a"), "b");
}

#[test]
fn one_more_rule_sees_what_the_others_left() {
    let two = vec![rule("a", "b"), rule("b", "c")];
    let three = vec![rule("a", "b"), rule("b", "c"), rule("c+", "d")];
    let after_two = run(&two, "abca");
    assert_eq!(after_two, "cccc");
    assert_eq!(run(&three, "abca"), run(&vec![rule("c+", "d")], &after_two));
    assert_eq!(run(&three, "abca"), "d");
}

#[test]
fn no_rules_leave_the_text() {
    assert_eq!(run(&Vec::new(), "as it\r\nis\n"), "as it\r\nis\n");
}

#[test]
fn collapsing_blank_lines_twice_changes_nothing_more() {
    let rules = vec![rule("\n\n", "\n")];
    let once = run(&rules, "a\n\nb\n\nc\n");
    assert_eq!(once, "a\nb\nc\n");
    assert_eq!(run(&rules, &once), once);
}

#[test]
fn every_match_is_replaced_and_groups_expand() {
    let rules = vec![rule("(\\w+)@(\\w+)", "$2 at $1")];
    assert_eq!(run(&rules, "a@b, c@d"), "b at a, d at c");
}

#[test]
fn banner_lines_are_removed() {
    let rules = vec![
        rule("Welcome.*\n", ""),
        rule("version.*\n", ""),
        rule("I'm powered.*\n", ""),
        rule("\n\n", "\n"),
    ];
    let text = "Welcome to tool\nversion 1.0\nI'm powered by X\n\n\nREADY\n";
    assert_eq!(run(&rules, text), "\nREADY\n");
    assert_eq!(run(&rules, "Welcome to tool\nversion 1.0\nI'm powered by X\nREADY\n"), "READY\n");
    assert_eq!(run(&rules[..3].iter().map(|r| rule(r.pattern.as_str(), &r.replacement)).collect(), text), "\n\nREADY\n");
}

#[test]
fn all_profiles_apply_to_every_command() {
    let cfg = Config {
        profiles: vec![
            profile("gh-copilot", "*", vec![rule("a", "b"), rule("x", "y")]),
            profile("kubectl", "version", vec![rule("b", "c")]),
        ],
    };
    for (program, args) in [("gh-copilot", vec![]), ("kubectl", vec!["version".to_string()]), ("ls", vec!["-l".to_string()])] {
        let rules = applicable_rules(&cfg.profiles, program, &args);
        let patterns: Vec<&str> = rules.iter().map(|r| r.pattern.as_str()).collect();
        assert_eq!(patterns, vec!["a", "x", "b"]);
        assert_eq!(apply(&cfg, program, &args, "ax".to_string()), "cy");
    }
}

#[test]
fn no_profiles_give_no_rules() {
    let cfg = Config { profiles: vec![] };
    assert!(applicable_rules(&cfg.profiles, "any", &Vec::new()).is_empty());
    assert_eq!(apply(&cfg, "any", &Vec::new(), "text".to_string()), "text");
}

#[test]
fn a_chunk_is_decoded_rewritten_and_framed() {
    let cfg = Config {
        profiles: vec![profile(
            "tool",
            "*",
            vec![
                rule("Welcome.*\n", ""),
                rule("version.*\n", ""),
                rule("I'm powered.*\n", ""),
                rule("\n\n", "\n"),
            ],
        )],
    };
    let chunk = b"Welcome to tool\nversion 1.0\nI'm powered by X\n\n\nREADY\n";
    assert_eq!(rewrite_chunk(&cfg, "tool", &Vec::new(), chunk), b"\nREADY".to_vec());
    assert_eq!(rewrite_chunk(&cfg, "tool", &Vec::new(), b"one\r\ntwo"), b"one\ntwo".to_vec());
}

#[test]
fn bytes_that_are_no_text_become_the_replacement_character() {
    let cfg = Config { profiles: vec![profile("p", "", vec![rule("\u{FFFD}", "?")])] };
    assert_eq!(rewrite_chunk(&cfg, "p", &Vec::new(), &[b'a', 0xFF, b'b']), b"a?b".to_vec());
    let plain = Config { profiles: vec![] };
    assert_eq!(rewrite_chunk(&plain, "p", &Vec::new(), &[b'a', 0xFF, b'b']), "a\u{FFFD}b".as_bytes().to_vec());
    assert_eq!(rewrite_chunk(&plain, "p", &Vec::new(), "h\u{e9}".as_bytes()), "h\u{e9}".as_bytes().to_vec());
}

#[test]
fn split_multibyte_character_is_replaced_at_the_chunk_boundary() {
    let cfg = Config { profiles: vec![] };
    let whole = "\u{e9}".as_bytes();
    assert_eq!(whole, &[0xC3u8, 0xA9u8][..]);
    let mut received: Vec<u8> = Vec::new();
    received.extend(rewrite_chunk(&cfg, "p", &Vec::new(), &whole[..1]));
    received.extend(rewrite_chunk(&cfg, "p", &Vec::new(), &whole[1..]));
    assert_eq!(received, "\u{FFFD}\u{FFFD}".as_bytes().to_vec());
    assert_ne!(received, whole.to_vec());
    assert_eq!(rewrite_chunk(&cfg, "p", &Vec::new(), whole), whole.to_vec());
}

fn framed_by_std(text: &str) -> Vec<u8> {
    let lines: Vec<String> = text.lines().map(|line| line.to_string()).collect();
    lines.join("\n").into_bytes()
}

#[test]
fn framing_has_exact_results() {
    assert_eq!(join_lines(b""), b"".to_vec());
    assert_eq!(join_lines(b"\n"), b"".to_vec());
    assert_eq!(join_lines(b"a"), b"a".to_vec());
    assert_eq!(join_lines(b"a\n"), b"a".to_vec());
    assert_eq!(join_lines(b"a\r\n"), b"a".to_vec());
    assert_eq!(join_lines(b"a\r\nb\r\n"), b"a\nb".to_vec());
    assert_eq!(join_lines(b"a\n\n"), b"a\n".to_vec());
    assert_eq!(join_lines(b"\r\r\n"), b"\r".to_vec());
    assert_eq!(join_lines(b"a\rb"), b"a\rb".to_vec());
    assert_eq!(join_lines(b"a\r"), b"a\r".to_vec());
    assert_eq!(join_lines(b"\n\na"), b"\n\na".to_vec());
}

#[test]
fn framing_is_splitting_into_lines_and_joining() {
    for text in ["", "\n", "\r\n", "a", "a\n", "a\r\n", "a\r", "a\rb\n", "a\n\nb", "a\r\n\r\nb\r\n", "\r\r\n\n", "h\u{e9}\r\nz\n", "x\ny\nz"] {
        assert_eq!(join_lines(text.as_bytes()), framed_by_std(text), "{:?}", text);
    }
}

#[test]
fn framing_keeps_text_without_line_ends_to_drop() {
    for text in ["", "abc", "a\nb", "a\rb", "\n\nx"] {
        let out = join_lines(text.as_bytes());
        assert_eq!(out, text.as_bytes().to_vec());
        assert!(out.len() <= text.len());
    }
    assert!(join_lines(b"a\r\nb\n").len() <= 6);
}

#[test]
fn a_rule_without_a_match_leaves_the_text() {
    let rules = vec![rule("x+", "y"), rule("^z", "")];
    assert_eq!(run(&rules, "abc\nabc"), "abc\nabc");
    assert_eq!(run(&rules, ""), "");
    let empty_match = vec![rule("x*", "-")];
    assert_eq!(run(&empty_match, "ab"), "-a-b-");
    assert_eq!(run(&empty_match, ""), "-");
}

#[test]
fn a_rule_applies_only_where_its_pattern_matches() {
    let rules = vec![rule("b", "c"), rule("a", "b")];
    assert_eq!(run(&rules, "b"), "c");
    assert_eq!(run(&rules, "a"), "b");
    assert_eq!(run(&rules, "ab"), "bc");
}
