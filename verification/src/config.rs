//! The user's rule document, its compiled form, and the check against it.

use crate::compile::{
    compile_entries, compile_pattern, lemma_compile_next, refused_patterns, EntryModel,
    PatternError,
};
use crate::matcher::matched_texts;
use crate::rules::{
    any_match, config_verdict, denial, first_match, first_match_from, lemma_first_match_from,
    segments_verdict_from, ConfigModel, RuleModel, Verdict,
};
use crate::segment::{split_command, split_spec};
use regex::Regex;
use vstd::prelude::*;

verus! {

/// One rule of the document, as written.
#[derive(Debug)]
pub struct ConfigPattern {
    pub pattern: String,
    pub reason: String,
}

impl View for ConfigPattern {
    type V = EntryModel;

    open spec fn view(&self) -> EntryModel {
        EntryModel { pattern: self.pattern@, reason: self.reason@ }
    }
}

impl DeepView for ConfigPattern {
    type V = EntryModel;

    open spec fn deep_view(&self) -> EntryModel {
        self@
    }
}

/// The user's rule document: a version and two lists of rules. A list that
/// the document leaves out is empty, a version that it leaves out is 0.
#[derive(Debug)]
pub struct PatternsConfig {
    pub version: u32,
    pub deny: Vec<ConfigPattern>,
    pub allow: Vec<ConfigPattern>,
}

/// A rule document as the policy sees it.
pub struct DocumentModel {
    pub version: u32,
    pub deny: Seq<EntryModel>,
    pub allow: Seq<EntryModel>,
}

impl View for PatternsConfig {
    type V = DocumentModel;

    open spec fn view(&self) -> DocumentModel {
        DocumentModel {
            version: self.version,
            deny: self.deny.deep_view(),
            allow: self.allow.deep_view(),
        }
    }
}

impl Default for PatternsConfig {
    fn default() -> (config: PatternsConfig)
        ensures
            config@ == (DocumentModel { version: 0, deny: Seq::empty(), allow: Seq::empty() }),
    {
        let config = PatternsConfig { version: 0, deny: Vec::new(), allow: Vec::new() };
        assert(config@.deny =~= Seq::empty());
        assert(config@.allow =~= Seq::empty());
        config
    }
}

/// A compiled user rule.
pub struct CompiledPattern {
    pub re: Regex,
    pub reason: String,
}

impl View for CompiledPattern {
    type V = RuleModel;

    open spec fn view(&self) -> RuleModel {
        RuleModel { texts: matched_texts(self.re), reason: self.reason@ }
    }
}

impl DeepView for CompiledPattern {
    type V = RuleModel;

    open spec fn deep_view(&self) -> RuleModel {
        self@
    }
}

/// The compiled user rule set.
pub struct CompiledConfig {
    pub deny: Vec<CompiledPattern>,
    pub allow: Vec<CompiledPattern>,
}

impl View for CompiledConfig {
    type V = ConfigModel;

    open spec fn view(&self) -> ConfigModel {
        ConfigModel { deny: self.deny.deep_view(), allow: self.allow.deep_view() }
    }
}

impl Default for CompiledConfig {
    fn default() -> (config: CompiledConfig)
        ensures
            config@ == empty_config(),
    {
        let config = CompiledConfig { deny: Vec::new(), allow: Vec::new() };
        assert(config@.deny =~= Seq::empty());
        assert(config@.allow =~= Seq::empty());
        config
    }
}

/// What loading a document gives: the compiled rule set, and the patterns
/// that were refused and so left out of it.
pub struct LoadedConfig {
    pub config: CompiledConfig,
    pub refused_deny: Vec<PatternError>,
    pub refused_allow: Vec<PatternError>,
}

/// The rule set without rules.
pub open spec fn empty_config() -> ConfigModel {
    ConfigModel { deny: Seq::empty(), allow: Seq::empty() }
}

/// The rule set that a document compiles to. No document gives no rules.
pub open spec fn load_spec(document: Option<DocumentModel>) -> ConfigModel {
    match document {
        Some(doc) => ConfigModel {
            deny: compile_entries(doc.deny),
            allow: compile_entries(doc.allow),
        },
        None => empty_config(),
    }
}

/// The verdict that a result of `check_config` stands for.
pub open spec fn verdict_of(result: Result<(), String>) -> Verdict {
    match result {
        Ok(_) => Verdict::Allow,
        Err(reason) => Verdict::Deny(reason@),
    }
}

/// Compiles a list of rules. A rule whose pattern is refused is left out of
/// the compiled rules and reported; the others keep their order.
pub fn compile_rules(entries: &Vec<ConfigPattern>) -> (out: (Vec<CompiledPattern>, Vec<PatternError>))
    ensures
        out.0.deep_view() == compile_entries(entries.deep_view()),
        out.1.deep_view() == refused_patterns(entries.deep_view()),
{
    let mut rules: Vec<CompiledPattern> = Vec::new();
    let mut refused: Vec<PatternError> = Vec::new();
    let mut i: usize = 0;
    let ghost all = entries.deep_view();
    assert(all.take(0) =~= Seq::empty());
    assert(rules.deep_view() =~= compile_entries(all.take(0)));
    assert(refused.deep_view() =~= refused_patterns(all.take(0)));
    while i < entries.len()
        invariant
            i <= entries.len(),
            all == entries.deep_view(),
            rules.deep_view() == compile_entries(all.take(i as int)),
            refused.deep_view() == refused_patterns(all.take(i as int)),
        decreases entries.len() - i,
    {
        let entry = &entries[i];
        let ghost rules_before = rules.deep_view();
        let ghost refused_before = refused.deep_view();
        proof {
            lemma_compile_next(all, i as int);
            assert(all[i as int] == entry@);
        }
        match compile_pattern(entry.pattern.as_str()) {
            Ok(re) => {
                let rule = CompiledPattern { re, reason: entry.reason.clone() };
                rules.push(rule);
                assert(rules.deep_view() =~= rules_before.push(rule@));
            },
            Err(e) => {
                refused.push(e);
                assert(refused.deep_view() =~= refused_before.push(e@));
            },
        }
        i += 1;
    }
    assert(all.take(i as int) =~= all);
    (rules, refused)
}

/// Compiles the user's rule document. Without a document the rule set is
/// empty. A rule whose pattern is refused is left out and reported; every
/// other rule is loaded, in the document's order.
pub fn load_config(document: Option<&PatternsConfig>) -> (loaded: LoadedConfig)
    ensures
        loaded.config@ == load_spec(
            match document {
                Some(doc) => Some(doc@),
                None => None,
            },
        ),
        loaded.refused_deny.deep_view() == match document {
            Some(doc) => refused_patterns(doc@.deny),
            None => Seq::empty(),
        },
        loaded.refused_allow.deep_view() == match document {
            Some(doc) => refused_patterns(doc@.allow),
            None => Seq::empty(),
        },
{
    match document {
        Some(doc) => {
            let (deny, refused_deny) = compile_rules(&doc.deny);
            let (allow, refused_allow) = compile_rules(&doc.allow);
            LoadedConfig { config: CompiledConfig { deny, allow }, refused_deny, refused_allow }
        },
        None => {
            let loaded = LoadedConfig {
                config: CompiledConfig::default(),
                refused_deny: Vec::new(),
                refused_allow: Vec::new(),
            };
            assert(loaded.refused_deny.deep_view() =~= Seq::empty());
            assert(loaded.refused_allow.deep_view() =~= Seq::empty());
            loaded
        },
    }
}

/// The index of the first rule that matches `text`.
pub fn first_matching(rules: &Vec<CompiledPattern>, text: &str) -> (found: Option<usize>)
    ensures
        match found {
            Some(i) => i < rules.len() && first_match(rules.deep_view(), text@) == Some(i as int),
            None => first_match(rules.deep_view(), text@) is None,
        },
{
    let mut i: usize = 0;
    while i < rules.len()
        invariant
            i <= rules.len(),
            first_match(rules.deep_view(), text@) == first_match_from(
                rules.deep_view(),
                text@,
                i as int,
            ),
        decreases rules.len() - i,
    {
        if rules[i].re.is_match(text) {
            return Some(i);
        }
        i += 1;
    }
    None
}

/// Whether some rule matches `text`.
pub fn matches_any(rules: &Vec<CompiledPattern>, text: &str) -> (found: bool)
    ensures
        found == any_match(rules.deep_view(), text@),
{
    proof {
        lemma_first_match_from(rules.deep_view(), text@, 0);
    }
    first_matching(rules, text).is_some()
}

/// Checks a command against the user's rule set. An allow rule that matches
/// the command as written passes it. Else a deny rule that matches the
/// command as written denies it; else each segment that no allow rule
/// matches is held against the deny rules, in order.
pub fn check_config(cmd: &str, config: &CompiledConfig) -> (result: Result<(), String>)
    ensures
        verdict_of(result) == config_verdict(config@, cmd@),
{
    if matches_any(&config.allow, cmd) {
        return Ok(());
    }
    if let Some(k) = first_matching(&config.deny, cmd) {
        return Err(config.deny[k].reason.clone());
    }
    let segments = split_command(cmd);
    let mut i: usize = 0;
    while i < segments.len()
        invariant
            i <= segments.len(),
            segments.deep_view() == split_spec(cmd@),
            !any_match(config@.allow, cmd@),
            denial(config@.deny, cmd@) is Allow,
            segments_verdict_from(config@, split_spec(cmd@), 0) == segments_verdict_from(
                config@,
                split_spec(cmd@),
                i as int,
            ),
        decreases segments.len() - i,
    {
        let segment = segments[i].as_str();
        assert(segment@ == segments.deep_view()[i as int]);
        if !matches_any(&config.allow, segment) {
            if let Some(k) = first_matching(&config.deny, segment) {
                return Err(config.deny[k].reason.clone());
            }
        }
        i += 1;
    }
    Ok(())
}

} // verus!
