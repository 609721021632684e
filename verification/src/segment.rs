//! Quote-aware splitting of a compound shell command into its sub-commands.
//!
//! The splitter is lexical: it knows single quotes, double quotes and the
//! operators `&&`, `||`, `;` and `|`, and nothing else of the shell grammar.

use crate::text::{chars_of, string_of, trim, trim_bounds};
use vstd::prelude::*;

verus! {

/// Where the scan stands with respect to quotes.
#[derive(Clone, Copy, Debug, PartialEq, Eq, Structural)]
pub enum Quote {
    Outside,
    Single,
    Double,
}

/// The quote state after reading `c` in state `q`.
pub open spec fn quote_step_spec(q: Quote, c: char) -> Quote {
    if c == '\'' && q != Quote::Double {
        if q == Quote::Single {
            Quote::Outside
        } else {
            Quote::Single
        }
    } else if c == '"' && q != Quote::Single {
        if q == Quote::Double {
            Quote::Outside
        } else {
            Quote::Double
        }
    } else {
        q
    }
}

/// The quote state in which the character at `i` is read: the state after
/// the first `i` characters of `s`.
pub open spec fn quote_at(s: Seq<char>, i: int) -> Quote
    decreases i,
{
    if i <= 0 || i > s.len() {
        Quote::Outside
    } else {
        quote_step_spec(quote_at(s, i - 1), s[i - 1])
    }
}

/// The length of the operator that starts at `i`, read outside quotes:
/// 2 for `&&` and `||`, 1 for `;` and for a `|` that is not doubled,
/// 0 where no operator starts (a lone `&` is none).
pub open spec fn operator_len(s: Seq<char>, i: int) -> int
    recommends
        0 <= i < s.len(),
{
    if s[i] == ';' {
        1
    } else if s[i] == '|' {
        if i + 1 < s.len() && s[i + 1] == '|' {
            2
        } else {
            1
        }
    } else if s[i] == '&' && i + 1 < s.len() && s[i + 1] == '&' {
        2
    } else {
        0
    }
}

/// What the piece after the operator at `i` starts with: a `|` after a
/// single pipe, nothing after the other operators.
pub open spec fn seed_after(s: Seq<char>, i: int) -> Seq<char>
    recommends
        0 <= i < s.len(),
{
    if s[i] == '|' && operator_len(s, i) == 1 {
        seq!['|']
    } else {
        Seq::empty()
    }
}

/// The pieces of `s` from `i` on, where the piece under way holds `piece`
/// and the scan stands in quote state `q`.
pub open spec fn pieces_from(s: Seq<char>, i: int, q: Quote, piece: Seq<char>) -> Seq<Seq<char>>
    decreases s.len() - i,
{
    if i < 0 || i >= s.len() {
        seq![piece]
    } else if q == Quote::Outside && operator_len(s, i) > 0 {
        seq![piece] + pieces_from(s, i + operator_len(s, i), Quote::Outside, seed_after(s, i))
    } else {
        pieces_from(s, i + 1, quote_step_spec(q, s[i]), piece.push(s[i]))
    }
}

/// The pieces into which the operators outside quotes cut `s`, untrimmed.
pub open spec fn raw_pieces(s: Seq<char>) -> Seq<Seq<char>> {
    pieces_from(s, 0, Quote::Outside, Seq::empty())
}

/// The pieces trimmed, without those that are then empty.
pub open spec fn segments_of(pieces: Seq<Seq<char>>) -> Seq<Seq<char>> {
    pieces.map_values(|p: Seq<char>| trim(p)).filter(|p: Seq<char>| p.len() > 0)
}

/// The segments of the command `s`.
pub open spec fn split_spec(s: Seq<char>) -> Seq<Seq<char>> {
    segments_of(raw_pieces(s))
}

/// Adding a piece adds its trimmed text as the last segment, unless that
/// text is empty.
pub proof fn lemma_segments_push(pieces: Seq<Seq<char>>, piece: Seq<char>)
    ensures
        segments_of(pieces.push(piece)) == if trim(piece).len() > 0 {
            segments_of(pieces).push(trim(piece))
        } else {
            segments_of(pieces)
        },
{
    reveal(Seq::filter);
    let f = |p: Seq<char>| trim(p);
    let all = pieces.push(piece);
    assert(all.map_values(f).drop_last() =~= pieces.map_values(f));
    assert(all.map_values(f).last() == trim(piece));
}

/// The quote state after reading `c` in state `q`.
pub fn quote_step(q: Quote, c: char) -> (r: Quote)
    ensures
        r == quote_step_spec(q, c),
{
    if c == '\'' && q != Quote::Double {
        if q == Quote::Single {
            Quote::Outside
        } else {
            Quote::Single
        }
    } else if c == '"' && q != Quote::Single {
        if q == Quote::Double {
            Quote::Outside
        } else {
            Quote::Double
        }
    } else {
        q
    }
}

/// The length of the operator that starts at `i`, or 0.
pub fn operator_at(chars: &Vec<char>, i: usize) -> (n: usize)
    requires
        i < chars.len(),
    ensures
        n == operator_len(chars@, i as int),
        i + n <= chars.len(),
{
    let c = chars[i];
    let doubled = i + 1 < chars.len() && chars[i + 1] == c;
    if c == ';' {
        1
    } else if c == '|' {
        if doubled {
            2
        } else {
            1
        }
    } else if c == '&' && doubled {
        2
    } else {
        0
    }
}

/// Ends the piece `piece`: its trimmed text becomes the last segment, unless
/// that text is empty.
fn close_piece(segments: &mut Vec<String>, piece: &Vec<char>)
    ensures
        final(segments).deep_view() == if trim(piece@).len() > 0 {
            old(segments).deep_view().push(trim(piece@))
        } else {
            old(segments).deep_view()
        },
{
    let (from, to) = trim_bounds(piece);
    if from < to {
        segments.push(string_of(piece, from, to));
        assert(segments.deep_view() =~= old(segments).deep_view().push(trim(piece@)));
    }
}

/// Splits a command at the operators `&&`, `||`, `;` and `|` that stand
/// outside quotes. Each segment is trimmed, empty segments are left out, and
/// the segment after a single `|` starts with that `|`.
pub fn split_command(cmd: &str) -> (segments: Vec<String>)
    ensures
        segments.deep_view() == split_spec(cmd@),
{
    let chars = chars_of(cmd);
    let mut segments: Vec<String> = Vec::new();
    let mut current: Vec<char> = Vec::new();
    let mut quote = Quote::Outside;
    let mut i: usize = 0;
    let ghost mut done: Seq<Seq<char>> = Seq::empty();
    assert(segments.deep_view() =~= segments_of(done));
    while i < chars.len()
        invariant
            chars@ == cmd@,
            i <= chars.len(),
            raw_pieces(cmd@) == done + pieces_from(cmd@, i as int, quote, current@),
            segments.deep_view() == segments_of(done),
        decreases chars.len() - i,
    {
        let c = chars[i];
        let step: usize = if quote == Quote::Outside {
            operator_at(&chars, i)
        } else {
            0
        };
        if step > 0 {
            close_piece(&mut segments, &current);
            proof {
                lemma_segments_push(done, current@);
                assert(done + (seq![current@] + pieces_from(
                    cmd@,
                    i + step,
                    Quote::Outside,
                    seed_after(cmd@, i as int),
                )) =~= done.push(current@) + pieces_from(
                    cmd@,
                    i + step,
                    Quote::Outside,
                    seed_after(cmd@, i as int),
                ));
                done = done.push(current@);
            }
            current = Vec::new();
            if c == '|' && step == 1 {
                current.push('|');
            }
            assert(current@ =~= seed_after(cmd@, i as int));
            i += step;
        } else {
            quote = quote_step(quote, c);
            current.push(c);
            i += 1;
        }
    }
    close_piece(&mut segments, &current);
    proof {
        lemma_segments_push(done, current@);
        assert(done + seq![current@] =~= done.push(current@));
    }
    segments
}

} // verus!
