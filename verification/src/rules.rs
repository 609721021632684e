//! The mathematical model of rules and verdicts, and what the policy says
//! over it.

use crate::segment::split_spec;
use vstd::prelude::*;

verus! {

/// A rule as the policy sees it: the texts it matches and the reason it
/// gives for denying them.
pub struct RuleModel {
    pub texts: Set<Seq<char>>,
    pub reason: Seq<char>,
}

/// The outcome of a check: the command may run, or it is denied for a reason.
pub enum Verdict {
    Allow,
    Deny(Seq<char>),
}

/// A user rule set: deny rules and the allow rules that override them.
pub struct ConfigModel {
    pub deny: Seq<RuleModel>,
    pub allow: Seq<RuleModel>,
}

/// The index of the first rule at or after `from` that matches `text`.
pub open spec fn first_match_from(rules: Seq<RuleModel>, text: Seq<char>, from: int) -> Option<int>
    decreases rules.len() - from,
{
    if from < 0 || from >= rules.len() {
        None
    } else if rules[from].texts.contains(text) {
        Some(from)
    } else {
        first_match_from(rules, text, from + 1)
    }
}

/// The index of the first rule that matches `text`.
pub open spec fn first_match(rules: Seq<RuleModel>, text: Seq<char>) -> Option<int> {
    first_match_from(rules, text, 0)
}

/// Whether some rule matches `text`.
pub open spec fn any_match(rules: Seq<RuleModel>, text: Seq<char>) -> bool {
    exists|i: int| 0 <= i < rules.len() && #[trigger] rules[i].texts.contains(text)
}

/// The verdict of a list of deny rules on one text: the reason of the first
/// rule that matches, if any does.
pub open spec fn denial(rules: Seq<RuleModel>, text: Seq<char>) -> Verdict {
    match first_match(rules, text) {
        Some(i) => Verdict::Deny(rules[i].reason),
        None => Verdict::Allow,
    }
}

/// The first denial that the deny rules give to a text of `texts` at or
/// after `from`.
pub open spec fn denial_from(rules: Seq<RuleModel>, texts: Seq<Seq<char>>, from: int) -> Verdict
    decreases texts.len() - from,
{
    if from < 0 || from >= texts.len() {
        Verdict::Allow
    } else if denial(rules, texts[from]) is Deny {
        denial(rules, texts[from])
    } else {
        denial_from(rules, texts, from + 1)
    }
}

/// The verdict of the built-in rules: they see the command as written, then
/// each of its segments in order.
pub open spec fn command_verdict(rules: Seq<RuleModel>, cmd: Seq<char>) -> Verdict {
    if denial(rules, cmd) is Deny {
        denial(rules, cmd)
    } else {
        denial_from(rules, split_spec(cmd), 0)
    }
}

/// The verdict of a user rule set on one segment: a segment that an allow
/// rule matches passes, any other is held against the deny rules.
pub open spec fn segment_verdict(config: ConfigModel, segment: Seq<char>) -> Verdict {
    if any_match(config.allow, segment) {
        Verdict::Allow
    } else {
        denial(config.deny, segment)
    }
}

/// The first denial that a user rule set gives to a segment at or after
/// `from`.
pub open spec fn segments_verdict_from(
    config: ConfigModel,
    segments: Seq<Seq<char>>,
    from: int,
) -> Verdict
    decreases segments.len() - from,
{
    if from < 0 || from >= segments.len() {
        Verdict::Allow
    } else if segment_verdict(config, segments[from]) is Deny {
        segment_verdict(config, segments[from])
    } else {
        segments_verdict_from(config, segments, from + 1)
    }
}

/// The verdict of a user rule set on a command. An allow rule that matches
/// the command as written passes it outright. Else the deny rules see the
/// command as written, and then each segment that no allow rule matches.
pub open spec fn config_verdict(config: ConfigModel, cmd: Seq<char>) -> Verdict {
    if any_match(config.allow, cmd) {
        Verdict::Allow
    } else if denial(config.deny, cmd) is Deny {
        denial(config.deny, cmd)
    } else {
        segments_verdict_from(config, split_spec(cmd), 0)
    }
}

/// The verdict on a command: the built-in rules first, which no user rule
/// overrides, then the user rule set.
pub open spec fn decide_spec(builtin: Seq<RuleModel>, user: ConfigModel, cmd: Seq<char>) -> Verdict {
    if command_verdict(builtin, cmd) is Deny {
        command_verdict(builtin, cmd)
    } else {
        config_verdict(user, cmd)
    }
}

/// `first_match_from` finds a match exactly where one exists at or after
/// `from`, and finds the first.
pub proof fn lemma_first_match_from(rules: Seq<RuleModel>, text: Seq<char>, from: int)
    requires
        0 <= from,
    ensures
        match first_match_from(rules, text, from) {
            Some(i) => {
                &&& from <= i < rules.len()
                &&& rules[i].texts.contains(text)
                &&& forall|j: int| from <= j < i ==> !(#[trigger] rules[j].texts.contains(text))
            },
            None => forall|j: int|
                from <= j < rules.len() ==> !(#[trigger] rules[j].texts.contains(text)),
        },
    decreases rules.len() - from,
{
    if from < rules.len() && !rules[from].texts.contains(text) {
        lemma_first_match_from(rules, text, from + 1);
    }
}

/// Some rule matches exactly where there is a first match.
pub proof fn lemma_any_match(rules: Seq<RuleModel>, text: Seq<char>)
    ensures
        any_match(rules, text) <==> first_match(rules, text) is Some,
        any_match(rules, text) <==> denial(rules, text) is Deny,
{
    lemma_first_match_from(rules, text, 0);
}

} // verus!
