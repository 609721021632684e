//! Compiling rule patterns, and what becomes of a list of rules when some of
//! its patterns are refused.

use crate::matcher::{compiled, error_text, matched_texts};
use crate::rules::RuleModel;
use regex::Regex;
use vstd::prelude::*;

verus! {

/// A rule as written: the text of its pattern and the reason it gives.
pub struct EntryModel {
    pub pattern: Seq<char>,
    pub reason: Seq<char>,
}

/// A pattern that the engine refused, with the engine's message.
#[derive(Debug)]
pub struct PatternError {
    pub pattern: String,
    pub message: String,
}

impl View for PatternError {
    type V = Seq<char>;

    /// The pattern that was refused. Nothing is known of the message.
    open spec fn view(&self) -> Seq<char> {
        self.pattern@
    }
}

impl DeepView for PatternError {
    type V = Seq<char>;

    open spec fn deep_view(&self) -> Seq<char> {
        self@
    }
}

/// Whether the engine accepts the pattern of `entry`.
pub open spec fn compiles(entry: EntryModel) -> bool {
    compiled(entry.pattern) is Some
}

/// The rule that `entry` compiles to.
pub open spec fn compiled_rule(entry: EntryModel) -> RuleModel
    recommends
        compiles(entry),
{
    RuleModel { texts: compiled(entry.pattern)->0, reason: entry.reason }
}

/// The rule that `entry` compiles to, if its pattern is accepted.
pub open spec fn rule_of(entry: EntryModel) -> Option<RuleModel> {
    if compiles(entry) {
        Some(compiled_rule(entry))
    } else {
        None
    }
}

/// The rules that `entries` compile to, in order, without the entries whose
/// pattern is refused.
pub open spec fn compile_entries(entries: Seq<EntryModel>) -> Seq<RuleModel> {
    entries.filter_map(|e: EntryModel| rule_of(e))
}

/// The patterns of `entries` that are refused, in order.
pub open spec fn refused_patterns(entries: Seq<EntryModel>) -> Seq<Seq<char>> {
    entries.filter_map(
        |e: EntryModel|
            if compiles(e) {
                None
            } else {
                Some(e.pattern)
            },
    )
}

/// Whether every pattern of `entries` is accepted.
pub open spec fn all_compile(entries: Seq<EntryModel>) -> bool {
    forall|i: int| 0 <= i < entries.len() ==> compiles(#[trigger] entries[i])
}

/// Compiles one pattern. The error names the pattern and carries the
/// engine's message.
pub fn compile_pattern(pattern: &str) -> (r: Result<Regex, PatternError>)
    ensures
        match r {
            Ok(re) => compiled(pattern@) == Some(matched_texts(re)),
            Err(e) => compiled(pattern@) is None && e@ == pattern@,
        },
{
    match Regex::new(pattern) {
        Ok(re) => Ok(re),
        Err(e) => Err(PatternError { pattern: pattern.to_owned(), message: error_text(&e) }),
    }
}

/// Taking one more entry adds its rule, if its pattern is accepted, and else
/// adds its pattern to those refused.
pub proof fn lemma_compile_next(entries: Seq<EntryModel>, i: int)
    requires
        0 <= i < entries.len(),
    ensures
        compile_entries(entries.take(i + 1)) == if compiles(entries[i]) {
            compile_entries(entries.take(i)).push(compiled_rule(entries[i]))
        } else {
            compile_entries(entries.take(i))
        },
        refused_patterns(entries.take(i + 1)) == if compiles(entries[i]) {
            refused_patterns(entries.take(i))
        } else {
            refused_patterns(entries.take(i)).push(entries[i].pattern)
        },
{
    let next = entries.take(i + 1);
    assert(next.drop_last() =~= entries.take(i));
    assert(next.last() == entries[i]);
    if compiles(entries[i]) {
        assert(compile_entries(entries.take(i)) + seq![compiled_rule(entries[i])]
            =~= compile_entries(entries.take(i)).push(compiled_rule(entries[i])));
    } else {
        assert(refused_patterns(entries.take(i)) + seq![entries[i].pattern] =~= refused_patterns(
            entries.take(i),
        ).push(entries[i].pattern));
    }
}

/// Where every pattern is accepted, the compiled rules are the entries' own,
/// one for one.
pub proof fn lemma_compile_all(entries: Seq<EntryModel>)
    requires
        all_compile(entries),
    ensures
        compile_entries(entries) == entries.map_values(|e: EntryModel| compiled_rule(e)),
        refused_patterns(entries) == Seq::<Seq<char>>::empty(),
    decreases entries.len(),
{
    if entries.len() > 0 {
        let i = entries.len() - 1;
        lemma_compile_all(entries.take(i));
        lemma_compile_next(entries, i);
        assert(entries.take(i + 1) =~= entries);
        assert(compile_entries(entries.take(i)).push(compiled_rule(entries[i]))
            =~= entries.map_values(|e: EntryModel| compiled_rule(e)));
    } else {
        assert(compile_entries(entries) =~= entries.map_values(|e: EntryModel| compiled_rule(e)));
    }
}

/// Where the first `i` patterns are accepted and the next one is too, the
/// first `i + 1` are.
pub proof fn lemma_all_compile_next(entries: Seq<EntryModel>, i: int)
    requires
        0 <= i < entries.len(),
        all_compile(entries.take(i)),
        compiles(entries[i]),
    ensures
        all_compile(entries.take(i + 1)),
{
    assert forall|j: int| 0 <= j < i + 1 implies compiles(#[trigger] entries.take(i + 1)[j]) by {
        if j < i {
            assert(entries.take(i)[j] == entries.take(i + 1)[j]);
        }
    }
}

/// Where the first `i` patterns are accepted and the next one is refused,
/// that one is the first of the refused patterns.
pub proof fn lemma_first_refused(entries: Seq<EntryModel>, i: int)
    requires
        0 <= i < entries.len(),
        all_compile(entries.take(i)),
        !compiles(entries[i]),
    ensures
        !all_compile(entries),
        refused_patterns(entries).len() > 0,
        refused_patterns(entries)[0] == entries[i].pattern,
{
    lemma_compile_all(entries.take(i));
    lemma_compile_next(entries, i);
    lemma_refused_prefix(entries, i + 1);
    assert(refused_patterns(entries.take(i + 1)) =~= seq![entries[i].pattern]);
    assert(refused_patterns(entries.take(i + 1))[0] == refused_patterns(entries)[0]);
}

/// The patterns refused among the first `k` entries come first among those
/// refused in all of `entries`.
pub proof fn lemma_refused_prefix(entries: Seq<EntryModel>, k: int)
    requires
        0 <= k <= entries.len(),
    ensures
        refused_patterns(entries.take(k)).is_prefix_of(refused_patterns(entries)),
    decreases entries.len() - k,
{
    if k < entries.len() {
        lemma_compile_next(entries, k);
        lemma_refused_prefix(entries, k + 1);
    } else {
        assert(entries.take(k) =~= entries);
    }
}

} // verus!
