use regex::Regex;
use toml::value::Table;
use tty_override::config::{Config, ConfigError, Profile, ProfileSource, Rule, RuleSource};
use tty_override::config::{read_profiles, read_rule, read_rules};

#[test]
fn test_config_from_toml() {
    let toml = r#"
			[gh-copilot."*"]
			rules = [
				["Welcome.*\n", ""],
				["version.*\n", ""],
				["I'm powered.*\n", ""],
				["\n\n", "\n"],
			]
			
			[kubectl." "]
			rules = [
				["Find more.*\n", ""],
			]

			[kubectl."version"]
			rules = [
				["\n\n", "\n"],
			]
		"#;
    let value: Table = toml::from_str(toml).unwrap();
    let conf = Config::from_toml(value).unwrap();
    let want: Config = Config {
        profiles: vec![
            Profile {
                program: "gh-copilot".to_string(),
                argmatch: "*".to_string(),
                rules: vec![
                    Rule {
                        pattern: Regex::new("Welcome.*\n").unwrap(),
                        replacement: "".to_string(),
                    },
                    Rule {
                        pattern: Regex::new("version.*\n").unwrap(),
                        replacement: "".to_string(),
                    },
                    Rule {
                        pattern: Regex::new("I'm powered.*\n").unwrap(),
                        replacement: "".to_string(),
                    },
                    Rule {
                        pattern: Regex::new("\n\n").unwrap(),
                        replacement: "\n".to_string(),
                    },
                ],
            },
            Profile {
                program: "kubectl".to_string(),
                argmatch: " ".to_string(),
                rules: vec![Rule {
                    pattern: Regex::new("Find more.*\n").unwrap(),
                    replacement: "".to_string(),
                }],
            },
            Profile {
                program: "kubectl".to_string(),
                argmatch: "version".to_string(),
                rules: vec![Rule {
                    pattern: Regex::new("\n\n").unwrap(),
                    replacement: "\n".to_string(),
                }],
            },
        ],
    };
    assert_eq!(conf.profiles.len(), want.profiles.len());
    for (i, profile) in conf.profiles.iter().enumerate() {
        assert_eq!(profile.program, want.profiles[i].program);
        assert_eq!(profile.argmatch, want.profiles[i].argmatch);
        assert_eq!(profile.rules.len(), want.profiles[i].rules.len());
        for (j, rule) in profile.rules.iter().enumerate() {
            assert_eq!(
                rule.pattern.as_str(),
                want.profiles[i].rules[j].pattern.as_str()
            );
            assert_eq!(rule.replacement, want.profiles[i].rules[j].replacement);
        }
    }
}

fn texts(cfg: &Config) -> Vec<(String, String, Vec<(String, String)>)> {
    cfg.profiles
        .iter()
        .map(|p| {
            (
                p.program.clone(),
                p.argmatch.clone(),
                p.rules
                    .iter()
                    .map(|r| (r.pattern_source().to_string(), r.replacement.clone()))
                    .collect(),
            )
        })
        .collect()
}

#[test]
fn from_str_reads_profiles_in_document_order() {
    let cfg = Config::from_str("[b.x]\nrules = [[\"1\", \"2\"]]\n[a.y]\nrules = []\n[a.x]\nrules = [[\"p+\", \"q\", \"ignored\"]]\n").unwrap();
    assert_eq!(
        texts(&cfg),
        vec![
            ("a".to_string(), "x".to_string(), vec![("p+".to_string(), "q".to_string())]),
            ("a".to_string(), "y".to_string(), vec![]),
            ("b".to_string(), "x".to_string(), vec![("1".to_string(), "2".to_string())]),
        ]
    );
}

#[test]
fn from_str_of_an_empty_document_has_no_profiles() {
    let cfg = Config::from_str("").unwrap();
    assert_eq!(cfg.profiles.len(), 0);
}

#[test]
fn from_str_rejects_text_that_is_no_document() {
    assert_eq!(Config::from_str("[unclosed").err(), Some(ConfigError::Syntax));
    assert_eq!(Config::from_str("a = ").err(), Some(ConfigError::Syntax));
}

#[test]
fn from_str_rejects_a_document_of_another_shape() {
    assert_eq!(Config::from_str("a = 1\n").err(), Some(ConfigError::Shape));
    assert_eq!(Config::from_str("[a]\nb = 1\n").err(), Some(ConfigError::Shape));
    assert_eq!(Config::from_str("[a.b]\nother = []\n").err(), Some(ConfigError::Shape));
    assert_eq!(Config::from_str("[a.b]\nrules = 3\n").err(), Some(ConfigError::Shape));
    assert_eq!(Config::from_str("[a.b]\nrules = [[\"x\"]]\n").err(), Some(ConfigError::Shape));
    assert_eq!(Config::from_str("[a.b]\nrules = [[\"x\", 1]]\n").err(), Some(ConfigError::Shape));
    assert_eq!(Config::from_str("[a.b]\nrules = [\"x\"]\n").err(), Some(ConfigError::Shape));
}

#[test]
fn from_str_rejects_a_pattern_that_does_not_compile() {
    assert_eq!(Config::from_str("[a.b]\nrules = [[\"(\", \"\"]]\n").err(), Some(ConfigError::Pattern));
}

#[test]
fn shape_is_reported_before_patterns_are_compiled() {
    let text = "[a.b]\nrules = [[\"(\", \"\"]]\n[z.z]\nrules = 1\n";
    assert_eq!(Config::from_str(text).err(), Some(ConfigError::Shape));
}

#[test]
fn from_toml_gives_the_errors_of_from_str() {
    let shape: Table = toml::from_str("a = true\n").unwrap();
    assert_eq!(Config::from_toml(shape).err(), Some(ConfigError::Shape));
    let pattern: Table = toml::from_str("[a.b]\nrules = [[\"[\", \"\"]]\n").unwrap();
    assert_eq!(Config::from_toml(pattern).err(), Some(ConfigError::Pattern));
}

#[test]
fn read_rule_takes_the_first_two_strings() {
    let doc: Table = toml::from_str("ok = [\"a\", \"b\"]\nlong = [\"a\", \"b\", \"c\"]\nshort = [\"a\"]\nnumber = [1, 2]\ntext = \"ab\"\n").unwrap();
    let ok = read_rule(doc.get("ok").unwrap()).unwrap();
    assert_eq!((ok.pattern.as_str(), ok.replacement.as_str()), ("a", "b"));
    let long = read_rule(doc.get("long").unwrap()).unwrap();
    assert_eq!((long.pattern.as_str(), long.replacement.as_str()), ("a", "b"));
    assert!(read_rule(doc.get("short").unwrap()).is_none());
    assert!(read_rule(doc.get("number").unwrap()).is_none());
    assert!(read_rule(doc.get("text").unwrap()).is_none());
}

#[test]
fn read_rules_wants_an_array_under_rules() {
    let doc: Table = toml::from_str("[good]\nrules = [[\"a\", \"b\"], [\"c\", \"d\"]]\n[none]\nx = 1\n[bad]\nrules = [[\"a\", \"b\"], [\"c\"]]\n").unwrap();
    let good = read_rules(doc.get("good").unwrap()).unwrap();
    assert_eq!(good.len(), 2);
    assert_eq!((good[1].pattern.as_str(), good[1].replacement.as_str()), ("c", "d"));
    assert!(read_rules(doc.get("none").unwrap()).is_none());
    assert!(read_rules(doc.get("bad").unwrap()).is_none());
}

#[test]
fn read_profiles_keeps_texts_uncompiled() {
    let doc: Table = toml::from_str("[a.b]\nrules = [[\"(\", \"x\"]]\n").unwrap();
    let profiles = read_profiles(&doc).unwrap();
    assert_eq!(profiles.len(), 1);
    assert_eq!(profiles[0].program, "a");
    assert_eq!(profiles[0].argmatch, "b");
    assert_eq!(profiles[0].rules[0].pattern, "(");
    assert_eq!(profiles[0].rules[0].replacement, "x");
}

#[test]
fn from_sources_compiles_each_pattern() {
    let sources = vec![
        ProfileSource {
            program: "p".to_string(),
            argmatch: "*".to_string(),
            rules: vec![RuleSource { pattern: "a+".to_string(), replacement: "b".to_string() }],
        },
        ProfileSource { program: "q".to_string(), argmatch: "".to_string(), rules: vec![] },
    ];
    let cfg = Config::from_sources(&sources).unwrap();
    assert_eq!(
        texts(&cfg),
        vec![
            ("p".to_string(), "*".to_string(), vec![("a+".to_string(), "b".to_string())]),
            ("q".to_string(), "".to_string(), vec![]),
        ]
    );
    assert!(cfg.profiles[0].rules[0].pattern.is_match("caab"));
    assert!(!cfg.profiles[0].rules[0].pattern.is_match("cb"));
}

#[test]
fn from_sources_without_rules_always_succeeds() {
    let sources = vec![ProfileSource { program: "(".to_string(), argmatch: "[".to_string(), rules: vec![] }];
    assert!(Config::from_sources(&sources).is_ok());
    assert!(Config::from_sources(&Vec::new()).is_ok());
}

#[test]
fn from_compiled_maps_the_outcome() {
    let rule = Rule::from_compiled(Regex::new("x"), "y".to_string()).unwrap();
    assert_eq!(rule.pattern_source(), "x");
    assert_eq!(rule.replacement, "y");
    assert_eq!(Rule::from_compiled(Regex::new("("), "y".to_string()).err(), Some(ConfigError::Pattern));
}

#[test]
fn from_source_fails_only_on_the_pattern() {
    let bad = RuleSource { pattern: "a{".to_string() + "2,1}", replacement: "".to_string() };
    assert_eq!(Rule::from_source(&bad).err(), Some(ConfigError::Pattern));
    let good = RuleSource { pattern: "a{1,2}".to_string(), replacement: "$0$0".to_string() };
    let rule = Rule::from_source(&good).unwrap();
    assert_eq!(rule.pattern_source(), "a{1,2}");
    assert_eq!(rule.replacement, "$0$0");
    assert!(Profile::from_source(&ProfileSource { program: "p".to_string(), argmatch: "a".to_string(), rules: vec![bad] }).is_err());
}

#[test]
fn from_str_compiles_a_single_rule() {
    let cfg = Config::from_str("[a.b]\nrules = [['x+', 'y']]").unwrap();
    assert_eq!(
        texts(&cfg),
        vec![("a".to_string(), "b".to_string(), vec![("x+".to_string(), "y".to_string())])]
    );
    assert!(cfg.profiles[0].rules[0].pattern.is_match("axxb"));
}

#[test]
fn a_profile_set_comes_exactly_where_every_pattern_compiles() {
    let source = |patterns: &[&str]| ProfileSource {
        program: "p".to_string(),
        argmatch: "*".to_string(),
        rules: patterns
            .iter()
            .map(|p| RuleSource { pattern: p.to_string(), replacement: "".to_string() })
            .collect(),
    };
    assert!(Config::from_sources(&vec![source(&["a", "b+"]), source(&["[c]"])]).is_ok());
    assert_eq!(
        Config::from_sources(&vec![source(&["a", "b+"]), source(&["[c"])]).err(),
        Some(ConfigError::Pattern)
    );
    assert_eq!(Profile::from_source(&source(&["a", "(", "b"])).err(), Some(ConfigError::Pattern));
    assert!(Profile::from_source(&source(&["a", "()", "b"])).is_ok());
}

#[test]
fn a_copy_of_a_profile_set_has_the_same_rules() {
    let cfg = Config::from_str("[a.b]\nrules = [['x+', 'y'], ['z', '']]\n[c.d]\nrules = []\n").unwrap();
    let copy = cfg.clone();
    assert_eq!(texts(&copy), texts(&cfg));
    assert_eq!(copy.profiles[0].rules[0].pattern.replace_all("axxb", "y"), "ayb");
    let rule = cfg.profiles[0].rules[1].clone();
    assert_eq!(rule.pattern_source(), "z");
    let profile = cfg.profiles[1].clone();
    assert_eq!((profile.program.as_str(), profile.argmatch.as_str(), profile.rules.len()), ("c", "d", 0));
}
