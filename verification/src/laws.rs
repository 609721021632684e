//! What holds of every command and every rule set, proved over the model
//! that the functions' contracts speak of.

use crate::compile::{compile_entries, compiled_rule, compiles, EntryModel};
use crate::config::{load_spec, DocumentModel};
use crate::matcher::compiled;
use crate::policy::{diagnostic_spec, evaluate_spec, exit_code_spec, HookModel, SHELL_TOOL};
use crate::rules::{
    any_match, command_verdict, config_verdict, decide_spec, denial, denial_from, first_match,
    lemma_any_match, lemma_first_match_from, segments_verdict_from, ConfigModel, RuleModel,
    Verdict,
};
use crate::segment::{
    operator_len, pieces_from, quote_at, quote_step_spec, raw_pieces, segments_of, split_spec,
    Quote,
};
use crate::text::{is_whitespace_spec, trim, trim_end, trim_start};
use vstd::prelude::*;

verus! {

/// Whether no rule of `rules` matches the command as written or any of its
/// segments.
pub open spec fn untouched_by(rules: Seq<RuleModel>, cmd: Seq<char>) -> bool {
    &&& !any_match(rules, cmd)
    &&& forall|k: int|
        0 <= k < split_spec(cmd).len() ==> !any_match(rules, #[trigger] split_spec(cmd)[k])
}

/// Whether the user's rules deny nothing of the command: an allow rule
/// matches it as written, or no deny rule matches it as written and every
/// segment that a deny rule matches is matched by an allow rule too.
pub open spec fn passes_user_rules(user: ConfigModel, cmd: Seq<char>) -> bool {
    ||| any_match(user.allow, cmd)
    ||| {
        &&& !any_match(user.deny, cmd)
        &&& forall|k: int|
            0 <= k < split_spec(cmd).len() ==> {
                ||| any_match(user.allow, #[trigger] split_spec(cmd)[k])
                ||| !any_match(user.deny, split_spec(cmd)[k])
            }
    }
}

/// Whether no operator stands outside quotes anywhere in `s`.
pub open spec fn has_no_operator(s: Seq<char>) -> bool {
    forall|i: int|
        0 <= i < s.len() && quote_at(s, i) == Quote::Outside ==> #[trigger] operator_len(s, i)
            == 0
}

/// The deny rules pass every text from `from` on exactly where none of
/// those texts is matched.
pub proof fn lemma_denial_from(rules: Seq<RuleModel>, texts: Seq<Seq<char>>, from: int)
    requires
        0 <= from,
    ensures
        denial_from(rules, texts, from) is Allow <==> forall|k: int|
            from <= k < texts.len() ==> !any_match(rules, #[trigger] texts[k]),
    decreases texts.len() - from,
{
    if from < texts.len() {
        lemma_any_match(rules, texts[from]);
        lemma_denial_from(rules, texts, from + 1);
    }
}

/// The user's rules pass every segment from `from` on exactly where each of
/// those segments is matched by an allow rule or by no deny rule.
pub proof fn lemma_segments_verdict_from(
    config: ConfigModel,
    segments: Seq<Seq<char>>,
    from: int,
)
    requires
        0 <= from,
    ensures
        segments_verdict_from(config, segments, from) is Allow <==> forall|k: int|
            from <= k < segments.len() ==> {
                ||| any_match(config.allow, #[trigger] segments[k])
                ||| !any_match(config.deny, segments[k])
            },
    decreases segments.len() - from,
{
    if from < segments.len() {
        lemma_any_match(config.deny, segments[from]);
        lemma_segments_verdict_from(config, segments, from + 1);
    }
}

/// A command is allowed exactly where no built-in rule matches it or any of
/// its segments, and the user's rules deny nothing of it. In particular a
/// command that no deny rule touches is allowed.
pub proof fn lemma_allow_when_nothing_matches(
    builtin: Seq<RuleModel>,
    user: ConfigModel,
    cmd: Seq<char>,
)
    ensures
        decide_spec(builtin, user, cmd) is Allow <==> untouched_by(builtin, cmd)
            && passes_user_rules(user, cmd),
{
    lemma_any_match(builtin, cmd);
    lemma_any_match(user.deny, cmd);
    lemma_denial_from(builtin, split_spec(cmd), 0);
    lemma_segments_verdict_from(user, split_spec(cmd), 0);
}

/// No user rule overrides a built-in rule: a command that a built-in rule
/// matches is denied whatever the user's rule set holds, and the reason is
/// that of the first built-in rule that matches.
pub proof fn lemma_builtin_never_overridden(
    builtin: Seq<RuleModel>,
    user: ConfigModel,
    cmd: Seq<char>,
)
    requires
        any_match(builtin, cmd),
    ensures
        decide_spec(builtin, user, cmd) is Deny,
        decide_spec(builtin, user, cmd) == denial(builtin, cmd),
{
    lemma_any_match(builtin, cmd);
}

/// A built-in rule that matches a segment of the command denies the command
/// too, whatever the user's rule set holds.
pub proof fn lemma_builtin_segment_never_overridden(
    builtin: Seq<RuleModel>,
    user: ConfigModel,
    cmd: Seq<char>,
    k: int,
)
    requires
        0 <= k < split_spec(cmd).len(),
        any_match(builtin, split_spec(cmd)[k]),
    ensures
        decide_spec(builtin, user, cmd) is Deny,
        decide_spec(builtin, user, cmd) == command_verdict(builtin, cmd),
{
    lemma_any_match(builtin, cmd);
    lemma_denial_from(builtin, split_spec(cmd), 0);
}

/// An allow rule that matches one segment does not pass the others: where
/// no allow rule matches the command as written, a segment that a deny rule
/// matches and no allow rule matches has the command denied.
pub proof fn lemma_segment_allow_does_not_leak(
    builtin: Seq<RuleModel>,
    user: ConfigModel,
    cmd: Seq<char>,
    k: int,
)
    requires
        !any_match(user.allow, cmd),
        0 <= k < split_spec(cmd).len(),
        any_match(user.deny, split_spec(cmd)[k]),
        !any_match(user.allow, split_spec(cmd)[k]),
    ensures
        config_verdict(user, cmd) is Deny,
        decide_spec(builtin, user, cmd) is Deny,
{
    lemma_segments_verdict_from(user, split_spec(cmd), 0);
}

/// Input that cannot be read as an invocation, an invocation of another
/// tool, and one without a command each pass: exit code 0 and no line
/// written.
pub proof fn lemma_structural_errors_pass(
    input: Option<HookModel>,
    builtin: Seq<RuleModel>,
    user: ConfigModel,
)
    requires
        input is None || input->0.tool_name != SHELL_TOOL@ || input->0.command is None,
    ensures
        evaluate_spec(input, builtin, user) == Verdict::Allow,
        exit_code_spec(evaluate_spec(input, builtin, user)) == 0,
        diagnostic_spec(evaluate_spec(input, builtin, user)) is None,
{
}

/// Whether `rule` is what the entry at `j` compiles to.
pub open spec fn is_rule_of(entries: Seq<EntryModel>, j: int, rule: RuleModel) -> bool {
    &&& 0 <= j < entries.len()
    &&& compiles(entries[j])
    &&& rule == compiled_rule(entries[j])
}

/// Whether `rule` is what some entry compiles to.
pub open spec fn has_source(entries: Seq<EntryModel>, rule: RuleModel) -> bool {
    exists|j: int| is_rule_of(entries, j, rule)
}

/// Every compiled rule comes from an entry whose pattern is accepted, and
/// every such entry has its rule among the compiled ones.
pub proof fn lemma_compiled_members(entries: Seq<EntryModel>)
    ensures
        forall|i: int|
            0 <= i < compile_entries(entries).len() ==> has_source(
                entries,
                #[trigger] compile_entries(entries)[i],
            ),
        forall|j: int|
            0 <= j < entries.len() && compiles(#[trigger] entries[j]) ==> compile_entries(
                entries,
            ).contains(compiled_rule(entries[j])),
    decreases entries.len(),
{
    let rules = compile_entries(entries);
    if entries.len() > 0 {
        let rest = entries.drop_last();
        lemma_compiled_members(rest);
        let before = compile_entries(rest);
        assert forall|i: int| 0 <= i < rules.len() implies has_source(
            entries,
            #[trigger] rules[i],
        ) by {
            if i < before.len() {
                assert(rules[i] == before[i]);
                let j = choose|j: int| is_rule_of(rest, j, before[i]);
                assert(is_rule_of(entries, j, rules[i]));
            } else {
                assert(is_rule_of(entries, entries.len() - 1, rules[i]));
            }
        }
        assert forall|j: int| 0 <= j < entries.len() && compiles(
            #[trigger] entries[j],
        ) implies rules.contains(compiled_rule(entries[j])) by {
            if j < rest.len() {
                assert(entries[j] == rest[j]);
                let i = choose|i: int|
                    0 <= i < before.len() && before[i] == compiled_rule(rest[j]);
                assert(rules[i] == compiled_rule(entries[j]));
            } else {
                assert(rules[rules.len() - 1] == compiled_rule(entries[j]));
            }
        }
    }
}

/// A loaded document gives each of its rules back: where a command matches
/// exactly one deny entry of the document, no allow rule of the document
/// matches the command as written, and the built-in rules pass it, the
/// command is denied with that entry's reason.
pub proof fn lemma_round_trip(
    builtin: Seq<RuleModel>,
    document: DocumentModel,
    cmd: Seq<char>,
    k: int,
)
    requires
        0 <= k < document.deny.len(),
        compiles(document.deny[k]),
        compiled_rule(document.deny[k]).texts.contains(cmd),
        forall|j: int|
            0 <= j < document.deny.len() && j != k && compiles(#[trigger] document.deny[j])
                ==> !compiled_rule(document.deny[j]).texts.contains(cmd),
        !any_match(compile_entries(document.allow), cmd),
        command_verdict(builtin, cmd) is Allow,
    ensures
        config_verdict(load_spec(Some(document)), cmd) == Verdict::Deny(document.deny[k].reason),
        decide_spec(builtin, load_spec(Some(document)), cmd) == Verdict::Deny(
            document.deny[k].reason,
        ),
{
    let rules = compile_entries(document.deny);
    lemma_compiled_members(document.deny);
    let at = choose|i: int| 0 <= i < rules.len() && rules[i] == compiled_rule(document.deny[k]);
    assert(rules[at].texts.contains(cmd));
    lemma_first_match_from(rules, cmd, 0);
    let first = first_match(rules, cmd)->0;
    let j = choose|j: int| is_rule_of(document.deny, j, rules[first]);
    assert(j == k);
}

/// The pieces of a text without operators outside quotes are one piece: the
/// piece under way and the rest of the text.
pub proof fn lemma_pieces_without_operator(s: Seq<char>, i: int, piece: Seq<char>)
    requires
        has_no_operator(s),
        0 <= i <= s.len(),
    ensures
        pieces_from(s, i, quote_at(s, i), piece) == seq![piece + s.skip(i)],
    decreases s.len() - i,
{
    if i < s.len() {
        assert(quote_at(s, i) == Quote::Outside ==> operator_len(s, i) == 0);
        lemma_pieces_without_operator(s, i + 1, piece.push(s[i]));
        assert(piece.push(s[i]) + s.skip(i + 1) =~= piece + s.skip(i));
    } else {
        assert(piece + s.skip(i) =~= piece);
    }
}

/// Splitting a command without operators outside quotes gives the command
/// itself, trimmed, as its one segment, or no segment where the command is
/// blank.
pub proof fn lemma_single_segment(s: Seq<char>)
    requires
        has_no_operator(s),
    ensures
        split_spec(s) == if trim(s).len() > 0 {
            seq![trim(s)]
        } else {
            Seq::<Seq<char>>::empty()
        },
{
    lemma_pieces_without_operator(s, 0, Seq::empty());
    assert(Seq::<char>::empty() + s.skip(0) =~= s);
    let none = Seq::<Seq<char>>::empty();
    assert(none.push(s) =~= seq![s]);
    crate::segment::lemma_segments_push(none, s);
    reveal(Seq::filter);
    assert(none.map_values(|p: Seq<char>| trim(p)) =~= none);
    assert(segments_of(none) =~= none);
    assert(none.push(trim(s)) =~= seq![trim(s)]);
}

/// Whether `part` is a stretch of `s`: some characters of `s` that follow
/// one another, in their order.
pub open spec fn is_part_of(part: Seq<char>, s: Seq<char>) -> bool {
    exists|from: int, to: int| 0 <= from <= to <= s.len() && part == #[trigger] s.subrange(from, to)
}

/// Whether `s` neither starts nor ends with whitespace.
pub open spec fn is_trimmed(s: Seq<char>) -> bool {
    s.len() > 0 ==> !is_whitespace_spec(s[0]) && !is_whitespace_spec(s.last())
}

/// Trimming the start of a stretch of `s` leaves a stretch of `s` that ends
/// where it did and does not start with whitespace.
pub proof fn lemma_trim_start_part(s: Seq<char>, from: int, to: int) -> (start: int)
    requires
        0 <= from <= to <= s.len(),
    ensures
        from <= start <= to,
        trim_start(s.subrange(from, to)) == s.subrange(start, to),
        start < to ==> !is_whitespace_spec(s[start]),
    decreases to - from,
{
    let part = s.subrange(from, to);
    if part.len() > 0 && is_whitespace_spec(part[0]) {
        assert(part.skip(1) =~= s.subrange(from + 1, to));
        lemma_trim_start_part(s, from + 1, to)
    } else {
        from
    }
}

/// Trimming the end of a stretch of `s` leaves a stretch of `s` that starts
/// where it did and does not end with whitespace.
pub proof fn lemma_trim_end_part(s: Seq<char>, from: int, to: int) -> (end: int)
    requires
        0 <= from <= to <= s.len(),
    ensures
        from <= end <= to,
        trim_end(s.subrange(from, to)) == s.subrange(from, end),
        from < end ==> !is_whitespace_spec(s[end - 1]),
    decreases to - from,
{
    let part = s.subrange(from, to);
    if part.len() > 0 && is_whitespace_spec(part.last()) {
        assert(part.drop_last() =~= s.subrange(from, to - 1));
        lemma_trim_end_part(s, from, to - 1)
    } else {
        to
    }
}

/// A stretch of `s`, trimmed, is a stretch of `s` that neither starts nor
/// ends with whitespace.
pub proof fn lemma_trim_part(s: Seq<char>, part: Seq<char>)
    requires
        is_part_of(part, s),
    ensures
        is_part_of(trim(part), s),
        is_trimmed(trim(part)),
{
    let (from, to) = choose|from: int, to: int|
        0 <= from <= to <= s.len() && part == #[trigger] s.subrange(from, to);
    let start = lemma_trim_start_part(s, from, to);
    let end = lemma_trim_end_part(s, start, to);
    assert(trim(part) == s.subrange(start, end));
    if start < end {
        assert(s.subrange(start, end)[0] == s[start]);
        assert(s.subrange(start, end).last() == s[end - 1]);
    }
}

/// Each piece from `i` on is a stretch of `s`, where the piece under way is
/// the stretch from `start` to `i`.
pub proof fn lemma_pieces_are_parts(s: Seq<char>, i: int, q: Quote, start: int)
    requires
        0 <= start <= i <= s.len(),
    ensures
        forall|k: int|
            0 <= k < pieces_from(s, i, q, s.subrange(start, i)).len() ==> is_part_of(
                #[trigger] pieces_from(s, i, q, s.subrange(start, i))[k],
                s,
            ),
    decreases s.len() - i,
{
    let piece = s.subrange(start, i);
    let pieces = pieces_from(s, i, q, piece);
    if i >= s.len() {
        assert(is_part_of(piece, s));
        assert(pieces =~= seq![piece]);
        assert forall|k: int| 0 <= k < pieces.len() implies is_part_of(#[trigger] pieces[k], s) by {
            assert(pieces[k] == piece);
        }
    } else if q == Quote::Outside && operator_len(s, i) > 0 {
        let next = i + operator_len(s, i);
        let seed_from = if s[i] == '|' && operator_len(s, i) == 1 {
            i
        } else {
            next
        };
        assert(crate::segment::seed_after(s, i) =~= s.subrange(seed_from, next));
        lemma_pieces_are_parts(s, next, Quote::Outside, seed_from);
        let rest = pieces_from(s, next, Quote::Outside, s.subrange(seed_from, next));
        assert(pieces =~= seq![piece] + rest);
        assert(is_part_of(piece, s));
        assert forall|k: int| 0 <= k < pieces.len() implies is_part_of(#[trigger] pieces[k], s) by {
            if k > 0 {
                assert(pieces[k] == rest[k - 1]);
            }
        }
    } else {
        assert(piece.push(s[i]) =~= s.subrange(start, i + 1));
        lemma_pieces_are_parts(s, i + 1, quote_step_spec(q, s[i]), start);
        assert(pieces == pieces_from(s, i + 1, quote_step_spec(q, s[i]), s.subrange(start, i + 1)));
    }
}

/// Every segment of a command is a stretch of the command, is not empty,
/// and neither starts nor ends with whitespace.
pub proof fn lemma_segments_are_trimmed_parts(s: Seq<char>)
    ensures
        forall|k: int|
            0 <= k < split_spec(s).len() ==> {
                &&& is_part_of(#[trigger] split_spec(s)[k], s)
                &&& split_spec(s)[k].len() > 0
                &&& is_trimmed(split_spec(s)[k])
            },
{
    let pieces = raw_pieces(s);
    let trimmed = pieces.map_values(|p: Seq<char>| trim(p));
    let kept = |p: Seq<char>| p.len() > 0;
    assert(s.subrange(0, 0) =~= Seq::<char>::empty());
    lemma_pieces_are_parts(s, 0, Quote::Outside, 0);
    assert forall|k: int| 0 <= k < split_spec(s).len() implies {
        &&& is_part_of(#[trigger] split_spec(s)[k], s)
        &&& split_spec(s)[k].len() > 0
        &&& is_trimmed(split_spec(s)[k])
    } by {
        let segment = split_spec(s)[k];
        trimmed.lemma_filter_pred(kept, k);
        assert(trimmed.filter(kept).contains(segment));
        trimmed.lemma_filter_contains_rev(kept, segment);
        let j = choose|j: int| 0 <= j < trimmed.len() && trimmed[j] == segment;
        assert(is_part_of(pieces[j], s));
        lemma_trim_part(s, pieces[j]);
    }
}

/// A command of which no stretch is matched by a built-in rule, and of
/// which the user's rules deny nothing, is allowed.
pub proof fn lemma_allow_when_no_part_matches(
    builtin: Seq<RuleModel>,
    user: ConfigModel,
    cmd: Seq<char>,
)
    requires
        forall|part: Seq<char>| is_part_of(part, cmd) ==> !any_match(builtin, part),
        passes_user_rules(user, cmd),
    ensures
        decide_spec(builtin, user, cmd) is Allow,
{
    assert(cmd.subrange(0, cmd.len() as int) =~= cmd);
    assert(is_part_of(cmd, cmd));
    lemma_segments_are_trimmed_parts(cmd);
    lemma_allow_when_nothing_matches(builtin, user, cmd);
}

} // verus!
