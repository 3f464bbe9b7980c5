//! The rule engine and the selection policy.

use vstd::prelude::*;
use crate::config::{Rule, Profile, Config};
use crate::pattern::{has_match, is_match, replace_all};
use crate::text::{decode_lossy, join_lines, kept, line_joined, lossy_text, law_framing_keeps_plain_text};
use vstd::utf8::{decode_utf8, decode_utf8_encode_utf8, encode_utf8, valid_utf8};

verus! {

/// The rules of all profiles, one profile after the other.
pub open spec fn all_rules(profiles: Seq<Profile>) -> Seq<Rule>
    decreases profiles.len(),
{
    if profiles.len() == 0 {
        Seq::empty()
    } else {
        all_rules(profiles.drop_last()) + profiles.last().rules@
    }
}

/// The text after each rule in turn has rewritten what the one before it left.
pub open spec fn rewritten(rules: Seq<Rule>, text: Seq<char>) -> Seq<char>
    decreases rules.len(),
{
    if rules.len() == 0 {
        text
    } else {
        rules.last().rewrite(rewritten(rules.drop_last(), text))
    }
}

/// The rules behind a sequence of borrowed rules.
pub open spec fn rules_of(refs: Seq<&Rule>) -> Seq<Rule> {
    refs.map_values(|r: &Rule| *r)
}

/// The selection policy: every profile applies to every command, so the
/// result is the rules of all profiles in profile order, whatever `program`
/// and `args` are.
pub fn applicable_rules<'a>(profiles: &'a Vec<Profile>, program: &str, args: &Vec<String>) -> (out: Vec<&'a Rule>)
    ensures
        rules_of(out@) == all_rules(profiles@),
{
    let mut out: Vec<&'a Rule> = Vec::new();
    let mut i: usize = 0;
    assert(profiles@.take(0) =~= Seq::empty());
    while i < profiles.len()
        invariant
            i <= profiles.len(),
            rules_of(out@) =~= all_rules(profiles@.take(i as int)),
        decreases profiles.len() - i,
    {
        let rules = &profiles[i].rules;
        let ghost before = out@;
        let mut j: usize = 0;
        while j < rules.len()
            invariant
                j <= rules.len(),
                rules_of(out@) =~= rules_of(before) + rules@.take(j as int),
            decreases rules.len() - j,
        {
            let ghost prior = out@;
            out.push(&rules[j]);
            proof {
                assert(rules_of(out@) =~= rules_of(prior).push(rules@[j as int]));
                assert(rules@.take(j + 1) =~= rules@.take(j as int).push(rules@[j as int]));
            }
            j += 1;
        }
        proof {
            assert(rules@.take(j as int) =~= rules@);
            assert(profiles@.take(i + 1).drop_last() =~= profiles@.take(i as int));
        }
        i += 1;
    }
    proof {
        assert(profiles@.take(i as int) =~= profiles@);
    }
    out
}

/// Applies the rules in order: each rule rewrites the text that the rule
/// before it produced.
pub fn apply_rules(rules: &Vec<&Rule>, text: String) -> (out: String)
    ensures
        out@ == rewritten(rules_of(rules@), text@),
{
    let mut out = text;
    let mut i: usize = 0;
    while i < rules.len()
        invariant
            i <= rules.len(),
            out@ == rewritten(rules_of(rules@).take(i as int), text@),
        decreases rules.len() - i,
    {
        let rule = rules[i];
        proof {
            assert(rules_of(rules@).take(i + 1).drop_last() =~= rules_of(rules@).take(i as int));
        }
        if is_match(&rule.pattern, out.as_str()) {
            out = replace_all(&rule.pattern, out.as_str(), rule.replacement.as_str());
        }
        i += 1;
    }
    proof {
        assert(rules_of(rules@).take(i as int) =~= rules_of(rules@));
    }
    out
}

/// The rule engine over a profile set: the rules that the selection policy
/// gives for the command, applied in order.
pub fn apply(cfg: &Config, program: &str, args: &Vec<String>, text: String) -> (out: String)
    ensures
        out@ == rewritten(all_rules(cfg.profiles@), text@),
{
    let rules = applicable_rules(&cfg.profiles, program, args);
    apply_rules(&rules, text)
}

/// What one chunk of the wrapped program's output becomes: the bytes of the
/// permissively decoded text, rewritten by all rules and framed line by line.
pub open spec fn chunk_rewritten(profiles: Seq<Profile>, chunk: Seq<u8>) -> Seq<u8> {
    line_joined(encode_utf8(rewritten(all_rules(profiles), lossy_text(chunk))))
}

/// What a chunk of valid UTF-8 becomes: as any chunk, with the text that the
/// chunk encodes in place of the permissively decoded one.
pub open spec fn text_chunk_rewritten(profiles: Seq<Profile>, chunk: Seq<u8>) -> Seq<u8> {
    line_joined(encode_utf8(rewritten(all_rules(profiles), decode_utf8(chunk))))
}

/// Rewrites one chunk: decodes it on its own, runs the rule engine over the
/// text, frames the lines and gives the bytes to write.
pub fn rewrite_chunk(cfg: &Config, program: &str, args: &Vec<String>, chunk: &[u8]) -> (out: Vec<u8>)
    ensures
        out@ == chunk_rewritten(cfg.profiles@, chunk@),
        valid_utf8(chunk@) ==> out@ == text_chunk_rewritten(cfg.profiles@, chunk@),
{
    let decoded = decode_lossy(chunk);
    let text = apply(cfg, program, args, decoded);
    join_lines(text.as_str().as_bytes())
}

/// The engine is a function of its input: equal rules and equal texts give
/// equal results.
pub proof fn law_rewriting_is_deterministic(rules_a: Seq<Rule>, rules_b: Seq<Rule>, text_a: Seq<char>, text_b: Seq<char>)
    requires
        rules_a == rules_b,
        text_a == text_b,
    ensures
        rewritten(rules_a, text_a) == rewritten(rules_b, text_b),
{
}

/// Applying a list of rules and then one more rule is applying the longer
/// list: each rule sees what the rules before it left.
pub proof fn law_rules_apply_in_sequence(rules: Seq<Rule>, next: Rule, text: Seq<char>)
    ensures
        rewritten(rules.push(next), text) == next.rewrite(rewritten(rules, text)),
{
    assert(rules.push(next).drop_last() =~= rules);
}

/// One more profile adds its rules behind those of the profiles before it,
/// so the rules of two profiles are those of the first and then those of the
/// second.
pub proof fn law_profiles_concatenate(profiles: Seq<Profile>, next: Profile)
    ensures
        all_rules(profiles.push(next)) == all_rules(profiles) + next.rules@,
        all_rules(seq![next]) == next.rules@,
{
    assert(profiles.push(next).drop_last() =~= profiles);
    assert(seq![next].drop_last() =~= Seq::<Profile>::empty());
    assert(all_rules(Seq::<Profile>::empty()) + next.rules@ =~= next.rules@);
}

/// The rules of two lists of profiles, one after the other, are the rules of
/// the first list and then the rules of the second.
pub proof fn law_profile_lists_concatenate(first: Seq<Profile>, second: Seq<Profile>)
    ensures
        all_rules(first + second) == all_rules(first) + all_rules(second),
    decreases second.len(),
{
    if second.len() == 0 {
        assert(first + second =~= first);
        assert(all_rules(first) + all_rules(second) =~= all_rules(first));
    } else {
        law_profile_lists_concatenate(first, second.drop_last());
        assert((first + second).drop_last() =~= first + second.drop_last());
        assert((all_rules(first) + all_rules(second.drop_last())) + second.last().rules@ =~= all_rules(first)
            + (all_rules(second.drop_last()) + second.last().rules@));
    }
}

/// Applying two lists of rules, one after the other, is applying the first
/// list and then the second to what it left.
pub proof fn law_rule_lists_compose(first: Seq<Rule>, second: Seq<Rule>, text: Seq<char>)
    ensures
        rewritten(first + second, text) == rewritten(second, rewritten(first, text)),
    decreases second.len(),
{
    if second.len() == 0 {
        assert(first + second =~= first);
    } else {
        law_rule_lists_compose(first, second.drop_last(), text);
        assert((first + second).drop_last() =~= first + second.drop_last());
    }
}

/// A rule whose pattern has no match in a text leaves the text, however
/// often it is applied: on a text that it has already settled, a second
/// application changes nothing.
pub proof fn law_rule_without_match_keeps_text(rule: Rule, text: Seq<char>)
    requires
        !has_match(rule.pattern, text),
    ensures
        rule.rewrite(text) == text,
        rewritten(seq![rule], text) == text,
        rewritten(seq![rule, rule], text) == text,
{
    law_rules_without_match_keep_text(seq![rule], text);
    law_rules_without_match_keep_text(seq![rule, rule], text);
}

/// Rules of which none has a match in a text leave the text.
pub proof fn law_rules_without_match_keep_text(rules: Seq<Rule>, text: Seq<char>)
    requires
        forall|k: int| 0 <= k < rules.len() ==> !has_match((#[trigger] rules[k]).pattern, text),
    ensures
        rewritten(rules, text) == text,
    decreases rules.len(),
{
    if rules.len() > 0 {
        law_rules_without_match_keep_text(rules.drop_last(), text);
    }
}

/// A chunk of valid UTF-8 in whose text no rule has a match, and which holds
/// no line end that framing drops, is written out byte for byte.
pub proof fn law_settled_chunk_passes(profiles: Seq<Profile>, chunk: Seq<u8>)
    requires
        valid_utf8(chunk),
        forall|k: int|
            0 <= k < all_rules(profiles).len() ==> !has_match(
                (#[trigger] all_rules(profiles)[k]).pattern,
                decode_utf8(chunk),
            ),
        forall|i: int| 0 <= i < chunk.len() ==> kept(chunk, i),
    ensures
        text_chunk_rewritten(profiles, chunk) == chunk,
{
    law_rules_without_match_keep_text(all_rules(profiles), decode_utf8(chunk));
    decode_utf8_encode_utf8(chunk);
    law_framing_keeps_plain_text(chunk);
}

/// With no rules the text is unchanged.
pub proof fn law_no_rules_no_change(text: Seq<char>)
    ensures
        rewritten(Seq::empty(), text) == text,
{
}

} // verus!
