//! The built-in deny rules and the checks against them.

use crate::compile::{
    all_compile, compile_entries, compile_pattern, compiled_rule, compiles, lemma_all_compile_next,
    lemma_compile_all, lemma_compile_next, lemma_first_refused, refused_patterns, EntryModel,
    PatternError,
};
use crate::matcher::{compiled, matched_texts};
use crate::rules::{command_verdict, denial, denial_from, first_match_from, RuleModel, Verdict};
use crate::segment::{split_command, split_spec};
use regex::Regex;
use vstd::prelude::*;

verus! {

/// A built-in deny rule: the compiled expression and the reason it gives.
pub struct DenyPattern {
    pub re: Regex,
    pub reason: &'static str,
}

impl View for DenyPattern {
    type V = RuleModel;

    open spec fn view(&self) -> RuleModel {
        RuleModel { texts: matched_texts(self.re), reason: self.reason@ }
    }
}

impl DeepView for DenyPattern {
    type V = RuleModel;

    open spec fn deep_view(&self) -> RuleModel {
        self@
    }
}

/// The number of built-in rules.
pub const BUILTIN_COUNT: usize = 38;

/// The built-in rules as written, pattern and reason, in order of
/// precedence. They are always active, and no user rule overrides them.
pub const BUILTIN_RULES: [(&'static str, &'static str); 38] = [
    // Destructive file operations. `rm` must stand in command position, so
    // that a quoted argument such as in `grep 'rm -rf'` passes.
    (
        r"(?i)(?:^|[\s;|&])\s*rm\s+(-\S*[rR]\S*[fF]\S*|-\S*[fF]\S*[rR]\S*)\b",
        "Destructive: rm -rf",
    ),
    (r"(?i)(?:^|[\s;|&])\s*rm\s+-[rR]\b", "Destructive: rm -r"),
    (r"(?i)\brmdir\b", "Destructive: rmdir"),
    (r"(?i)\bmkfs\b", "Destructive: mkfs (overwrites filesystem)"),
    (r"(?i)\bdd\s+if=", "Destructive: dd if= (disk write)"),
    (r"(?i)\bshred\b", "Destructive: shred (secure file deletion)"),
    // Destructive git. A forced push is `-f` or `--force` as a whole flag:
    // `--force-with-lease` is not one.
    (r"(?i)\bgit\s+push\s+.*(-f|--force)(?:[^\w-]|$)", "Destructive: git force push"),
    (r"(?i)\bgit\s+reset\s+--hard\b", "Destructive: git reset --hard"),
    (r"(?i)\bgit\s+clean\b", "Destructive: git clean"),
    (r"(?i)\bgit\s+checkout\s+--\s", "Destructive: git checkout --"),
    (r"(?i)\bgit\s+restore\b", "Destructive: git restore"),
    (r"\bgit\s+branch\s+(-D|--delete\s+-f)\b", "Destructive: git branch -D"),
    // Permission bombs.
    (r"(?i)\bchmod\s+-R\s+777\b", "Dangerous: chmod -R 777"),
    (r"(?i)\bchmod\s+777\s+/", "Dangerous: chmod 777 /"),
    // Shell injection and embedded dangerous commands.
    (
        r#"(?i)\b(bash|sh|zsh|ksh|dash)\s+-c\s+["']?[^"']*\brm\s+-(rf|fr|r)\b"#,
        "Shell injection: rm inside shell -c",
    ),
    (
        r#"(?i)\b(bash|sh|zsh|ksh|dash)\s+-c\s+["']?[^"']*\b(mkfs|dd\s+if=|shred)\b"#,
        "Shell injection: destructive command inside shell -c",
    ),
    (r"(?i)\beval\s+", "Dangerous: eval execution"),
    (r"(?i)\|\s*(bash|sh|zsh|ksh|dash)\b", "Shell injection: pipe to shell"),
    // Exfiltration.
    (r"(?i)\|\s*curl\s+.*-X\s+POST\b", "Exfiltration: pipe to curl POST"),
    (r"(?i)\|\s*curl\b", "Exfiltration: pipe to curl"),
    (r"(?i)\b(nc|netcat)\s+", "Exfiltration: netcat"),
    // Reads of sensitive files.
    (r"(?i)\b(cat|head|tail|less|more|bat)\s+.*~?/?\.?ssh/", "Sensitive: reading SSH key"),
    (r"(?i)\b(cat|head|tail|less|more|bat)\s+.*~?/?\.?aws/", "Sensitive: reading AWS credentials"),
    (r"(?i)\b(cat|head|tail|less|more|bat)\s+.*\.env\b", "Sensitive: reading .env file"),
    (r"(?i)\b(cat|head|tail|less|more|bat)\s+.*\.env\.", "Sensitive: reading .env.* file"),
    // Destructive calls of the GitHub CLI.
    (r"(?i)\bgh\s+api\s+.*-X\s+DELETE\b", "Destructive: gh api DELETE"),
    (r"(?i)\bgh\s+api\s+.*-X\s+PUT\b", "Destructive: gh api PUT"),
    (r"(?i)\bgh\s+api\s+.*-X\s+POST\b", "Destructive: gh api POST"),
    // Truncation of a file by a redirect, or by a pipe into `tee` without
    // an option such as `-a`.
    (r"(?m)^\s*>\s*\S", "Destructive: file truncation (> file)"),
    (r";\s*>\s*\S", "Destructive: file truncation (> file) in chain"),
    (r"&&\s*>\s*\S", "Destructive: file truncation (> file) in chain"),
    (r"(?i)\|\s*tee\s+[^-\s]", "Destructive: pipe to tee overwrites file"),
    // Edits in place.
    (r"(?i)\bsed\s+(-[a-zA-Z]*i[a-zA-Z]*|--in-place)\b", "Destructive: sed -i (in-place edit)"),
    // Destructive to the system.
    (r":\(\)\s*\{.*:\s*\|.*:.*&", "System: fork bomb"),
    (r"(?i)\bshutdown\b", "System: shutdown"),
    (r"(?i)\breboot\b", "System: reboot"),
    (r"(?i)\bkill\s+-9\s+-1\b", "System: kill -9 -1 (kill all processes)"),
    (r"(?i)\bpkill\s+-9\s+-1\b", "System: pkill -9 -1 (kill all processes)"),
];

/// The built-in rules as written.
pub open spec fn builtin_entries() -> Seq<EntryModel> {
    BUILTIN_RULES@.map_values(
        |r: (&'static str, &'static str)| EntryModel { pattern: r.0@, reason: r.1@ },
    )
}

impl DenyPattern {
    /// Compiles a rule. The rule matches what its pattern compiles to and
    /// gives `reason`; a pattern that the engine refuses is an error.
    pub fn new(pattern: &'static str, reason: &'static str) -> (r: Result<DenyPattern, PatternError>)
        ensures
            match r {
                Ok(rule) => {
                    let entry = EntryModel { pattern: pattern@, reason: reason@ };
                    compiles(entry) && rule@ == compiled_rule(entry)
                },
                Err(e) => compiled(pattern@) is None && e@ == pattern@,
            },
    {
        match compile_pattern(pattern) {
            Ok(re) => Ok(DenyPattern { re, reason }),
            Err(e) => Err(e),
        }
    }
}

/// The built-in deny rules, compiled, in order of precedence. Every pattern
/// of the table is expected to compile; should the engine refuse one, the
/// error names the first that it refused.
pub fn hardcoded_deny_patterns() -> (r: Result<Vec<DenyPattern>, PatternError>)
    ensures
        match r {
            Ok(patterns) => {
                &&& all_compile(builtin_entries())
                &&& patterns.deep_view() == builtin_entries().map_values(
                    |e: EntryModel| compiled_rule(e),
                )
            },
            Err(e) => {
                &&& !all_compile(builtin_entries())
                &&& refused_patterns(builtin_entries()).len() > 0
                &&& e@ == refused_patterns(builtin_entries())[0]
            },
        },
{
    let mut patterns: Vec<DenyPattern> = Vec::new();
    let mut i: usize = 0;
    let ghost entries = builtin_entries();
    assert(patterns.deep_view() =~= compile_entries(entries.take(0)));
    while i < BUILTIN_COUNT
        invariant
            i <= BUILTIN_COUNT == entries.len(),
            entries == builtin_entries(),
            all_compile(entries.take(i as int)),
            patterns.deep_view() == compile_entries(entries.take(i as int)),
        decreases BUILTIN_COUNT - i,
    {
        let (pattern, reason) = BUILTIN_RULES[i];
        assert(entries[i as int] == EntryModel { pattern: pattern@, reason: reason@ });
        let ghost before = patterns.deep_view();
        match DenyPattern::new(pattern, reason) {
            Ok(rule) => {
                patterns.push(rule);
                proof {
                    assert(patterns.deep_view() =~= before.push(rule@));
                    lemma_compile_next(entries, i as int);
                    lemma_all_compile_next(entries, i as int);
                }
            },
            Err(e) => {
                proof {
                    lemma_first_refused(entries, i as int);
                }
                return Err(e);
            },
        }
        i += 1;
    }
    proof {
        assert(entries.take(i as int) =~= entries);
        lemma_compile_all(entries);
    }
    Ok(patterns)
}

/// The result of a check: the command may run, or it is denied for a reason.
#[derive(Debug, PartialEq, Eq)]
pub enum CheckResult {
    Allow,
    Deny(String),
}

impl View for CheckResult {
    type V = Verdict;

    open spec fn view(&self) -> Verdict {
        match self {
            CheckResult::Allow => Verdict::Allow,
            CheckResult::Deny(reason) => Verdict::Deny(reason@),
        }
    }
}

/// Checks one text against the deny rules, in order: the first rule that
/// matches denies it.
pub fn check_segment(segment: &str, patterns: &[DenyPattern]) -> (result: CheckResult)
    ensures
        result@ == denial(patterns.deep_view(), segment@),
{
    let mut i: usize = 0;
    while i < patterns.len()
        invariant
            i <= patterns.len(),
            first_match_from(patterns.deep_view(), segment@, 0) == first_match_from(
                patterns.deep_view(),
                segment@,
                i as int,
            ),
        decreases patterns.len() - i,
    {
        if patterns[i].re.is_match(segment) {
            return CheckResult::Deny(patterns[i].reason.to_owned());
        }
        i += 1;
    }
    CheckResult::Allow
}

/// Checks a command against the deny rules: first as written, then segment
/// by segment.
pub fn check_command(cmd: &str, patterns: &[DenyPattern]) -> (result: CheckResult)
    ensures
        result@ == command_verdict(patterns.deep_view(), cmd@),
{
    let whole = check_segment(cmd, patterns);
    if let CheckResult::Deny(reason) = whole {
        return CheckResult::Deny(reason);
    }
    let segments = split_command(cmd);
    let mut i: usize = 0;
    while i < segments.len()
        invariant
            i <= segments.len(),
            segments.deep_view() == split_spec(cmd@),
            denial(patterns.deep_view(), cmd@) is Allow,
            denial_from(patterns.deep_view(), split_spec(cmd@), 0) == denial_from(
                patterns.deep_view(),
                split_spec(cmd@),
                i as int,
            ),
        decreases segments.len() - i,
    {
        let found = check_segment(segments[i].as_str(), patterns);
        assert(segments[i as int]@ == segments.deep_view()[i as int]);
        if let CheckResult::Deny(reason) = found {
            return CheckResult::Deny(reason);
        }
        i += 1;
    }
    CheckResult::Allow
}

} // verus!
