//! Rules, profiles and the profile set, and how a profile set is read from a
//! configuration document.

use vstd::prelude::*;
use crate::pattern::{
    compile, compiled, compiles, has_match, pattern_str, pattern_text, replaced_all,
};
use crate::document::{
    as_array, as_table, as_text, entries, member, parse_table, parsed_table, table_entries,
    value_array, value_member, value_table, value_text,
};

verus! {

/// One rewrite rule: every match of `pattern` becomes `replacement`.
#[derive(Clone)]
pub struct Rule {
    pub pattern: regex::Regex,
    pub replacement: String,
}

/// A named group of rules. `program` and `argmatch` say which command the
/// group is meant for; the selection policy decides whether they are read.
#[derive(Clone)]
pub struct Profile {
    pub program: String,
    pub argmatch: String,
    pub rules: Vec<Rule>,
}

/// The profile set, in the order of the configuration.
#[derive(Clone)]
pub struct Config {
    pub profiles: Vec<Profile>,
}

/// A rule as the configuration writes it.
#[derive(Clone, Debug)]
pub struct RuleSource {
    pub pattern: String,
    pub replacement: String,
}

/// A profile as the configuration writes it.
#[derive(Clone, Debug)]
pub struct ProfileSource {
    pub program: String,
    pub argmatch: String,
    pub rules: Vec<RuleSource>,
}

/// Why no profile set came of a configuration.
#[derive(Clone, Copy, Debug, PartialEq, Eq, Structural)]
pub enum ConfigError {
    /// The text is no TOML document.
    Syntax,
    /// The document does not have the shape of a profile set.
    Shape,
    /// A pattern is no regular expression.
    Pattern,
}

/// The texts of a rule.
pub struct RuleText {
    pub pattern: Seq<char>,
    pub replacement: Seq<char>,
}

/// The texts of a profile.
pub struct ProfileText {
    pub program: Seq<char>,
    pub argmatch: Seq<char>,
    pub rules: Seq<RuleText>,
}

impl Rule {
    /// What the rule makes of a text: a text in which the pattern has a
    /// match gets every match replaced, any other text stays as it is.
    pub open spec fn rewrite(self, text: Seq<char>) -> Seq<char> {
        if has_match(self.pattern, text) {
            replaced_all(self.pattern, text, self.replacement@)
        } else {
            text
        }
    }

    /// The pattern and the replacement as texts.
    pub open spec fn text(self) -> RuleText {
        RuleText { pattern: pattern_text(self.pattern), replacement: self.replacement@ }
    }

    /// Whether the expression is the one that compiling its own text gives.
    pub open spec fn is_compiled(self) -> bool {
        compiled(pattern_text(self.pattern)) == Some(self.pattern)
    }

    /// The text of the pattern.
    pub fn pattern_source(&self) -> (s: &str)
        ensures
            s@ == self.text().pattern,
    {
        pattern_str(&self.pattern)
    }

    /// The rule that comes of a compiled pattern, or the error where the
    /// pattern did not compile.
    pub fn from_compiled(compiled: Result<regex::Regex, regex::Error>, replacement: String) -> (r: Result<Rule, ConfigError>)
        ensures
            match compiled {
                Ok(re) => r matches Ok(rule) && rule.pattern == re && rule.replacement == replacement,
                Err(_) => r matches Err(e) && e == ConfigError::Pattern,
            },
    {
        match compiled {
            Ok(pattern) => Ok(Rule { pattern, replacement }),
            Err(_) => Err(ConfigError::Pattern),
        }
    }

    /// Compiles the pattern of a written rule. A rule comes of it exactly
    /// where the pattern compiles: it has the texts of the written one and the
    /// expression that the pattern compiles to. The only error is `Pattern`.
    pub fn from_source(source: &RuleSource) -> (r: Result<Rule, ConfigError>)
        ensures
            r is Ok <==> compiles(source.pattern@),
            match r {
                Ok(rule) => rule.text() == source.text() && rule.is_compiled(),
                Err(e) => e == ConfigError::Pattern,
            },
    {
        let compiled = compile(source.pattern.as_str());
        Rule::from_compiled(compiled, source.replacement.clone())
    }
}

impl RuleSource {
    /// The pattern and the replacement as texts.
    pub open spec fn text(self) -> RuleText {
        RuleText { pattern: self.pattern@, replacement: self.replacement@ }
    }
}

/// The texts of a list of rules.
pub open spec fn rule_texts(rules: Seq<Rule>) -> Seq<RuleText> {
    Seq::new(rules.len(), |j: int| rules[j].text())
}

/// The texts of a list of written rules.
pub open spec fn rule_source_texts(rules: Seq<RuleSource>) -> Seq<RuleText> {
    Seq::new(rules.len(), |j: int| rules[j].text())
}

/// Whether every pattern of the rules compiles.
pub open spec fn all_compile(rules: Seq<RuleText>) -> bool {
    forall|m: int| 0 <= m < rules.len() ==> compiles((#[trigger] rules[m]).pattern)
}

/// Whether every pattern of every profile compiles.
pub open spec fn profiles_compile(profiles: Seq<ProfileText>) -> bool {
    forall|i: int| 0 <= i < profiles.len() ==> all_compile((#[trigger] profiles[i]).rules)
}

impl Profile {
    /// The texts of the profile.
    pub open spec fn text(self) -> ProfileText {
        ProfileText { program: self.program@, argmatch: self.argmatch@, rules: rule_texts(self.rules@) }
    }

    /// Whether each rule holds the expression that its text compiles to.
    pub open spec fn is_compiled(self) -> bool {
        forall|j: int| 0 <= j < self.rules@.len() ==> (#[trigger] self.rules@[j]).is_compiled()
    }
}

impl ProfileSource {
    /// The texts of the profile.
    pub open spec fn text(self) -> ProfileText {
        ProfileText {
            program: self.program@,
            argmatch: self.argmatch@,
            rules: rule_source_texts(self.rules@),
        }
    }
}

/// The texts of a list of profiles.
pub open spec fn profile_texts(profiles: Seq<Profile>) -> Seq<ProfileText> {
    Seq::new(profiles.len(), |i: int| profiles[i].text())
}

/// The texts of a list of written profiles.
pub open spec fn profile_source_texts(profiles: Seq<ProfileSource>) -> Seq<ProfileText> {
    Seq::new(profiles.len(), |i: int| profiles[i].text())
}

/// Whether a node is a rule: an array that starts with two strings.
pub open spec fn is_rule(node: toml::Value) -> bool {
    match value_array(node) {
        Some(pair) => pair.len() >= 2 && value_text(pair[0]) is Some && value_text(pair[1]) is Some,
        None => false,
    }
}

/// The texts of a node that is a rule.
pub open spec fn rule_of(node: toml::Value) -> RuleText {
    let pair = value_array(node).unwrap();
    RuleText { pattern: value_text(pair[0]).unwrap(), replacement: value_text(pair[1]).unwrap() }
}

/// The array under the key `rules` of a node, if it has one.
pub open spec fn rule_nodes(node: toml::Value) -> Option<Seq<toml::Value>> {
    match value_member(node, "rules"@) {
        Some(list) => value_array(list),
        None => None,
    }
}

/// Whether a node is a profile: a table whose `rules` are an array of rules.
pub open spec fn is_profile(node: toml::Value) -> bool {
    match rule_nodes(node) {
        Some(list) => forall|j: int| 0 <= j < list.len() ==> is_rule(#[trigger] list[j]),
        None => false,
    }
}

/// The rules of a node that is a profile.
pub open spec fn rules_of_profile(node: toml::Value) -> Seq<RuleText> {
    let list = rule_nodes(node).unwrap();
    Seq::new(list.len(), |j: int| rule_of(list[j]))
}

/// Whether a node is a group of profiles: a table of profiles.
pub open spec fn is_group(node: toml::Value) -> bool {
    match value_table(node) {
        Some(table) => forall|k: int|
            0 <= k < table_entries(table).len() ==> is_profile((#[trigger] table_entries(table)[k]).1),
        None => false,
    }
}

/// The profiles of a group written under the key `program`: one for each
/// entry of the group's table, in the table's order.
pub open spec fn profiles_of_group(program: Seq<char>, node: toml::Value) -> Seq<ProfileText> {
    let inner = table_entries(value_table(node).unwrap());
    Seq::new(
        inner.len(),
        |k: int| ProfileText { program, argmatch: inner[k].0, rules: rules_of_profile(inner[k].1) },
    )
}

/// Whether each of the entries is a group of profiles.
pub open spec fn all_groups(outer: Seq<(Seq<char>, toml::Value)>) -> bool {
    forall|i: int| 0 <= i < outer.len() ==> is_group((#[trigger] outer[i]).1)
}

/// The profiles of the groups, one group after the other.
pub open spec fn profiles_of_groups(outer: Seq<(Seq<char>, toml::Value)>) -> Seq<ProfileText>
    decreases outer.len(),
{
    if outer.len() == 0 {
        Seq::empty()
    } else {
        profiles_of_groups(outer.drop_last()) + profiles_of_group(outer.last().0, outer.last().1)
    }
}

/// Whether a document has the shape of a profile set: every top-level entry
/// is a group of profiles.
pub open spec fn well_shaped(document: toml::map::Map<String, toml::Value>) -> bool {
    all_groups(table_entries(document))
}

/// The profiles that a document writes, in the document's order.
pub open spec fn written_profiles(document: toml::map::Map<String, toml::Value>) -> Seq<ProfileText> {
    profiles_of_groups(table_entries(document))
}

/// Whether no profile has a rule.
pub open spec fn without_rules(profiles: Seq<ProfileText>) -> bool {
    forall|i: int| 0 <= i < profiles.len() ==> (#[trigger] profiles[i]).rules.len() == 0
}

/// Profiles without rules have no pattern that could fail to compile.
pub proof fn law_no_rules_compile(profiles: Seq<ProfileText>)
    requires
        without_rules(profiles),
    ensures
        profiles_compile(profiles),
{
}

/// Reads one rule: `None` exactly where the node is no rule.
pub fn read_rule(node: &toml::Value) -> (r: Option<RuleSource>)
    ensures
        r is Some <==> is_rule(*node),
        r matches Some(rule) ==> rule.text() == rule_of(*node),
{
    let pair = match as_array(node) {
        Some(pair) => pair,
        None => { return None; },
    };
    if pair.len() < 2 {
        return None;
    }
    let pattern = match as_text(&pair[0]) {
        Some(text) => text,
        None => { return None; },
    };
    let replacement = match as_text(&pair[1]) {
        Some(text) => text,
        None => { return None; },
    };
    Some(RuleSource { pattern: pattern.to_owned(), replacement: replacement.to_owned() })
}

/// Reads the rules of one profile: `None` exactly where the node is no
/// profile.
pub fn read_rules(node: &toml::Value) -> (r: Option<Vec<RuleSource>>)
    ensures
        r is Some <==> is_profile(*node),
        r matches Some(rules) ==> rule_source_texts(rules@) == rules_of_profile(*node),
{
    let list = match member(node, "rules") {
        Some(list) => list,
        None => { return None; },
    };
    let items = match as_array(list) {
        Some(items) => items,
        None => { return None; },
    };
    let mut rules: Vec<RuleSource> = Vec::new();
    let mut j: usize = 0;
    while j < items.len()
        invariant
            j <= items.len(),
            rule_nodes(*node) == Some(items@),
            rules@.len() == j,
            forall|m: int| 0 <= m < j ==> is_rule(#[trigger] items@[m]),
            forall|m: int| 0 <= m < j ==> (#[trigger] rules@[m]).text() == rule_of(items@[m]),
        decreases items.len() - j,
    {
        match read_rule(&items[j]) {
            Some(rule) => {
                rules.push(rule);
            },
            None => {
                assert(!is_rule(rule_nodes(*node).unwrap()[j as int]));
                return None;
            },
        }
        j += 1;
    }
    assert(rule_source_texts(rules@) =~= rules_of_profile(*node));
    Some(rules)
}

/// Reads one group written under `program` and appends its profiles. `false`
/// exactly where the node is no group; what was appended before stays.
pub fn read_group(program: &String, node: &toml::Value, out: &mut Vec<ProfileSource>) -> (ok: bool)
    ensures
        ok <==> is_group(*node),
        ok ==> profile_source_texts(final(out)@) == profile_source_texts(old(out)@) + profiles_of_group(
            program@,
            *node,
        ),
{
    let table = match as_table(node) {
        Some(table) => table,
        None => { return false; },
    };
    let inner = entries(table);
    let ghost before = out@;
    let mut k: usize = 0;
    while k < inner.len()
        invariant
            k <= inner.len(),
            value_table(*node) == Some(*table),
            inner@.len() == table_entries(*table).len(),
            forall|i: int| 0 <= i < inner@.len() ==> {
                &&& (#[trigger] inner@[i]).0@ == table_entries(*table)[i].0
                &&& *inner@[i].1 == table_entries(*table)[i].1
            },
            forall|m: int| 0 <= m < k ==> is_profile((#[trigger] table_entries(*table)[m]).1),
            out@.len() == before.len() + k,
            forall|m: int| 0 <= m < before.len() ==> out@[m] == before[m],
            forall|m: int| before.len() <= m < out@.len() ==> (#[trigger] out@[m]).text()
                == profiles_of_group(program@, *node)[m - before.len()],
        decreases inner.len() - k,
    {
        let argmatch = inner[k].0;
        let body = inner[k].1;
        assert(*body == table_entries(*table)[k as int].1);
        match read_rules(body) {
            Some(rules) => {
                out.push(ProfileSource { program: program.clone(), argmatch: argmatch.clone(), rules });
            },
            None => {
                assert(!is_profile(table_entries(value_table(*node).unwrap())[k as int].1));
                return false;
            },
        }
        k += 1;
    }
    assert(profile_source_texts(out@) =~= profile_source_texts(before) + profiles_of_group(program@, *node));
    true
}

/// Reads the profiles that a document writes. The error is `Shape`, and it
/// comes exactly where the document is not well shaped.
pub fn read_profiles(document: &toml::map::Map<String, toml::Value>) -> (r: Result<Vec<ProfileSource>, ConfigError>)
    ensures
        r is Ok <==> well_shaped(*document),
        r matches Ok(profiles) ==> profile_source_texts(profiles@) == written_profiles(*document),
        r matches Err(e) ==> e == ConfigError::Shape,
{
    let outer = entries(document);
    let ghost all = table_entries(*document);
    let mut profiles: Vec<ProfileSource> = Vec::new();
    let mut i: usize = 0;
    assert(all.take(0) =~= Seq::empty());
    assert(profile_source_texts(profiles@) =~= Seq::empty());
    while i < outer.len()
        invariant
            i <= outer.len(),
            all == table_entries(*document),
            outer@.len() == all.len(),
            forall|m: int| 0 <= m < outer@.len() ==> {
                &&& (#[trigger] outer@[m]).0@ == all[m].0
                &&& *outer@[m].1 == all[m].1
            },
            forall|m: int| 0 <= m < i ==> is_group((#[trigger] all[m]).1),
            profile_source_texts(profiles@) == profiles_of_groups(all.take(i as int)),
        decreases outer.len() - i,
    {
        let program = outer[i].0;
        let node = outer[i].1;
        assert(*node == all[i as int].1);
        proof {
            assert(all.take(i + 1).drop_last() =~= all.take(i as int));
            assert(all.take(i + 1).last() == all[i as int]);
        }
        if !read_group(program, node, &mut profiles) {
            assert(!is_group(all[i as int].1));
            return Err(ConfigError::Shape);
        }
        i += 1;
    }
    assert(all.take(i as int) =~= all);
    Ok(profiles)
}

impl Profile {
    /// Compiles the rules of a written profile. A profile comes of it
    /// exactly where every pattern compiles: it has the texts of the written
    /// one and the expressions that the patterns compile to. The only error
    /// is `Pattern`.
    pub fn from_source(source: &ProfileSource) -> (r: Result<Profile, ConfigError>)
        ensures
            r is Ok <==> all_compile(source.text().rules),
            match r {
                Ok(profile) => profile.text() == source.text() && profile.is_compiled(),
                Err(e) => e == ConfigError::Pattern,
            },
    {
        let mut rules: Vec<Rule> = Vec::new();
        let mut j: usize = 0;
        while j < source.rules.len()
            invariant
                j <= source.rules.len(),
                rules@.len() == j,
                forall|m: int| 0 <= m < j ==> (#[trigger] rules@[m]).text() == source.rules@[m].text(),
                forall|m: int| 0 <= m < j ==> (#[trigger] rules@[m]).is_compiled(),
                forall|m: int| 0 <= m < j ==> compiles((#[trigger] source.rules@[m]).pattern@),
            decreases source.rules.len() - j,
        {
            match Rule::from_source(&source.rules[j]) {
                Ok(rule) => {
                    rules.push(rule);
                },
                Err(e) => {
                    assert(!compiles(source.text().rules[j as int].pattern));
                    return Err(e);
                },
            }
            j += 1;
        }
        assert(rule_texts(rules@) =~= rule_source_texts(source.rules@));
        assert forall|m: int| 0 <= m < source.text().rules.len() implies compiles(
            (#[trigger] source.text().rules[m]).pattern,
        ) by {
            assert(compiles(source.rules@[m].pattern@));
        }
        Ok(Profile { program: source.program.clone(), argmatch: source.argmatch.clone(), rules })
    }
}

impl Config {
    /// The texts of the profile set.
    pub open spec fn text(self) -> Seq<ProfileText> {
        profile_texts(self.profiles@)
    }

    /// Whether each rule holds the expression that its text compiles to.
    pub open spec fn is_compiled(self) -> bool {
        forall|i: int| 0 <= i < self.profiles@.len() ==> (#[trigger] self.profiles@[i]).is_compiled()
    }

    /// Compiles the rules of written profiles, in their order. A profile set
    /// comes of it exactly where every pattern compiles: it has the texts of
    /// the written profiles and the expressions that the patterns compile
    /// to. The only error is `Pattern`.
    pub fn from_sources(sources: &Vec<ProfileSource>) -> (r: Result<Config, ConfigError>)
        ensures
            r is Ok <==> profiles_compile(profile_source_texts(sources@)),
            match r {
                Ok(cfg) => cfg.text() == profile_source_texts(sources@) && cfg.is_compiled(),
                Err(e) => e == ConfigError::Pattern,
            },
    {
        let mut profiles: Vec<Profile> = Vec::new();
        let mut i: usize = 0;
        while i < sources.len()
            invariant
                i <= sources.len(),
                profiles@.len() == i,
                forall|m: int| 0 <= m < i ==> (#[trigger] profiles@[m]).text() == sources@[m].text(),
                forall|m: int| 0 <= m < i ==> (#[trigger] profiles@[m]).is_compiled(),
                forall|m: int| 0 <= m < i ==> all_compile((#[trigger] sources@[m]).text().rules),
            decreases sources.len() - i,
        {
            match Profile::from_source(&sources[i]) {
                Ok(profile) => {
                    profiles.push(profile);
                },
                Err(e) => {
                    assert(!all_compile(profile_source_texts(sources@)[i as int].rules));
                    return Err(e);
                },
            }
            i += 1;
        }
        assert(profile_texts(profiles@) =~= profile_source_texts(sources@));
        assert forall|m: int| 0 <= m < sources@.len() implies all_compile(
            (#[trigger] profile_source_texts(sources@)[m]).rules,
        ) by {
            assert(all_compile(sources@[m].text().rules));
        }
        Ok(Config { profiles })
    }

    /// The profile set that a document writes. `Shape` comes exactly where
    /// the document is not well shaped, `Pattern` exactly where it is well
    /// shaped and one of its patterns does not compile. Otherwise the profile
    /// set has the written profiles in the document's order, each rule with
    /// the expression that its pattern compiles to.
    pub fn from_toml(value: toml::map::Map<String, toml::Value>) -> (r: Result<Config, ConfigError>)
        ensures
            r is Ok <==> well_shaped(value) && profiles_compile(written_profiles(value)),
            r == Err::<Config, ConfigError>(ConfigError::Shape) <==> !well_shaped(value),
            r matches Err(e) ==> e == ConfigError::Shape || e == ConfigError::Pattern,
            r matches Ok(cfg) ==> cfg.text() == written_profiles(value) && cfg.is_compiled(),
    {
        match read_profiles(&value) {
            Ok(sources) => Config::from_sources(&sources),
            Err(e) => Err(e),
        }
    }

    /// The profile set that a configuration text writes. `Syntax` comes
    /// exactly where the text is no TOML document; otherwise the result is
    /// that of `from_toml` on the parsed document.
    pub fn from_str(cfg: &str) -> (r: Result<Config, ConfigError>)
        ensures
            r == Err::<Config, ConfigError>(ConfigError::Syntax) <==> parsed_table(cfg@) is None,
            parsed_table(cfg@) matches Some(value) ==> {
                &&& r is Ok <==> well_shaped(value) && profiles_compile(written_profiles(value))
                &&& r == Err::<Config, ConfigError>(ConfigError::Shape) <==> !well_shaped(value)
                &&& r matches Err(e) ==> e == ConfigError::Shape || e == ConfigError::Pattern
                &&& r matches Ok(set) ==> set.text() == written_profiles(value) && set.is_compiled()
            },
    {
        match parse_table(cfg) {
            Ok(value) => Config::from_toml(value),
            Err(_) => Err(ConfigError::Syntax),
        }
    }
}

} // verus!
