//! The refresh of the user's rule document: when one is due, and what it
//! runs. Nothing here touches the disk, the clock or the network: the caller
//! reads the marker's time and the clock, and carries out the plan.

use crate::text::chars_of;
use vstd::prelude::*;

verus! {

/// The seconds after which the marker counts as stale: one hour.
pub const UPDATE_INTERVAL_SECS: u64 = 3600;

/// A point in time: whole seconds since the Unix epoch, and the nanoseconds
/// beyond them.
#[derive(Clone, Copy, Debug, PartialEq, Eq, Structural)]
pub struct Timestamp {
    pub secs: u64,
    pub nanos: u32,
}

impl Timestamp {
    /// The nanoseconds since the Unix epoch.
    pub open spec fn total_nanos(self) -> int {
        self.secs * 1_000_000_000 + self.nanos
    }
}

/// What a due refresh has the caller do: write `marker_text` to
/// `marker_path`, then hand `command` to `sh -c` without waiting for it.
#[derive(Debug)]
pub struct RefreshPlan {
    pub marker_path: String,
    pub marker_text: String,
    pub command: String,
}

/// `dir` with the file name `name` under it: a `/` stands between them
/// unless `dir` is empty or ends in one.
pub open spec fn join_path(dir: Seq<char>, name: Seq<char>) -> Seq<char> {
    if dir.len() == 0 || dir.last() == '/' {
        dir + name
    } else {
        dir + seq!['/'] + name
    }
}

/// The path of the staleness marker under `hooks_dir`.
pub open spec fn last_update_path_spec(hooks_dir: Seq<char>) -> Seq<char> {
    join_path(hooks_dir, "safe-bash-patterns.last_update"@)
}

/// The path of the rule document under `hooks_dir`.
pub open spec fn patterns_path_spec(hooks_dir: Seq<char>) -> Seq<char> {
    join_path(hooks_dir, "safe-bash-patterns.json"@)
}

/// Whether a refresh is due: the marker is missing, lies in the future, or
/// is older than the interval.
pub open spec fn is_stale(marker: Option<Timestamp>, now: Timestamp) -> bool {
    match marker {
        None => true,
        Some(written) => {
            ||| now.total_nanos() < written.total_nanos()
            ||| now.total_nanos() - written.total_nanos() > UPDATE_INTERVAL_SECS * 1_000_000_000
        },
    }
}

/// The character of the decimal digit `d`.
pub open spec fn digit_char(d: nat) -> char {
    if d == 0 {
        '0'
    } else if d == 1 {
        '1'
    } else if d == 2 {
        '2'
    } else if d == 3 {
        '3'
    } else if d == 4 {
        '4'
    } else if d == 5 {
        '5'
    } else if d == 6 {
        '6'
    } else if d == 7 {
        '7'
    } else if d == 8 {
        '8'
    } else {
        '9'
    }
}

/// `n` in decimal, without leading zeros.
pub open spec fn decimal(n: nat) -> Seq<char>
    decreases n,
{
    if n < 10 {
        seq![digit_char(n)]
    } else {
        decimal(n / 10).push(digit_char(n % 10))
    }
}

/// What a character becomes inside single quotes: a single quote closes the
/// quotes, stands escaped, and opens them again; any other stands as it is.
pub open spec fn quoted_char(c: char) -> Seq<char> {
    if c == '\'' {
        seq!['\'', '\\', '\'', '\'']
    } else {
        seq![c]
    }
}

/// The characters of `s`, each as it stands inside single quotes.
pub open spec fn quoted_body(s: Seq<char>) -> Seq<char>
    decreases s.len(),
{
    if s.len() == 0 {
        Seq::empty()
    } else {
        quoted_body(s.drop_last()) + quoted_char(s.last())
    }
}

/// `s` as one word of a shell command, in single quotes.
pub open spec fn shell_quote_spec(s: Seq<char>) -> Seq<char> {
    seq!['\''] + quoted_body(s) + seq!['\'']
}

/// The temporary file that a fetch downloads to.
pub open spec fn temp_path_spec(hooks_dir: Seq<char>) -> Seq<char> {
    patterns_path_spec(hooks_dir) + ".tmp"@
}

/// The first step of a fetch: download the document at `url` to the
/// temporary file.
pub open spec fn download_step(url: Seq<char>, temp: Seq<char>) -> Seq<char> {
    "curl -fsSL "@ + shell_quote_spec(url) + " -o "@ + shell_quote_spec(temp)
}

/// The second step: check that the temporary file is well-formed JSON.
pub open spec fn validate_step(temp: Seq<char>) -> Seq<char> {
    " && jq empty "@ + shell_quote_spec(temp) + " 2>/dev/null"@
}

/// The third step: move the temporary file over the rule document.
pub open spec fn replace_step(temp: Seq<char>, target: Seq<char>) -> Seq<char> {
    " && mv "@ + shell_quote_spec(temp) + " "@ + shell_quote_spec(target)
}

/// What is done if a step fails: remove the temporary file.
pub open spec fn discard_step(temp: Seq<char>) -> Seq<char> {
    " || rm -f "@ + shell_quote_spec(temp)
}

/// The fetch of the document at `url`. Each step runs only if the one
/// before it succeeded, so the rule document is replaced, by a rename, only
/// with a file that was downloaded in full and found well-formed; in every
/// other case it stays as it was and the temporary file is removed.
pub open spec fn fetch_script(url: Seq<char>, hooks_dir: Seq<char>) -> Seq<char> {
    let temp = temp_path_spec(hooks_dir);
    let target = patterns_path_spec(hooks_dir);
    download_step(url, temp) + validate_step(temp) + replace_step(temp, target) + discard_step(
        temp,
    )
}

/// The fetch as handed to `sh -c`: detached, its output discarded.
pub open spec fn update_command_spec(url: Seq<char>, hooks_dir: Seq<char>) -> Seq<char> {
    fetch_script(url, hooks_dir) + " >/dev/null 2>&1 &"@
}

/// What a refresh does, if one is due.
pub open spec fn plan_matches(
    plan: RefreshPlan,
    url: Seq<char>,
    hooks_dir: Seq<char>,
    now: Timestamp,
) -> bool {
    &&& plan.marker_path@ == last_update_path_spec(hooks_dir)
    &&& plan.marker_text@ == decimal(now.secs as nat)
    &&& plan.command@ == update_command_spec(url, hooks_dir)
}

/// `dir` with the file name `name` under it.
fn join(dir: &str, name: &str) -> (path: String)
    ensures
        path@ == join_path(dir@, name@),
{
    let chars = chars_of(dir);
    let mut path = String::from_str(dir);
    if chars.len() > 0 && chars[chars.len() - 1] != '/' {
        path.push('/');
    }
    path.append(name);
    path
}

/// The path of the staleness marker under `hooks_dir`.
pub fn last_update_path(hooks_dir: &str) -> (path: String)
    ensures
        path@ == last_update_path_spec(hooks_dir@),
{
    join(hooks_dir, "safe-bash-patterns.last_update")
}

/// The path of the rule document under `hooks_dir`.
pub fn patterns_path(hooks_dir: &str) -> (path: String)
    ensures
        path@ == patterns_path_spec(hooks_dir@),
{
    join(hooks_dir, "safe-bash-patterns.json")
}

/// Whether a refresh is due, given when the marker was last written (`None`
/// where there is no marker or its time cannot be read) and the time now.
pub fn update_needed(marker: Option<Timestamp>, now: Timestamp) -> (needed: bool)
    ensures
        needed == is_stale(marker, now),
{
    match marker {
        None => true,
        Some(written) => {
            let then: u128 = written.secs as u128 * 1_000_000_000 + written.nanos as u128;
            let at: u128 = now.secs as u128 * 1_000_000_000 + now.nanos as u128;
            at < then || at - then > UPDATE_INTERVAL_SECS as u128 * 1_000_000_000
        },
    }
}

/// The character of the decimal digit `d`.
fn digit(d: u64) -> (c: char)
    requires
        d < 10,
    ensures
        c == digit_char(d as nat),
{
    if d == 0 {
        '0'
    } else if d == 1 {
        '1'
    } else if d == 2 {
        '2'
    } else if d == 3 {
        '3'
    } else if d == 4 {
        '4'
    } else if d == 5 {
        '5'
    } else if d == 6 {
        '6'
    } else if d == 7 {
        '7'
    } else if d == 8 {
        '8'
    } else {
        '9'
    }
}

/// The text written to the marker: the seconds in decimal.
pub fn timestamp_text(secs: u64) -> (text: String)
    ensures
        text@ == decimal(secs as nat),
{
    let mut digits: Vec<char> = Vec::new();
    let mut rest: u64 = secs;
    while rest >= 10
        invariant
            decimal(secs as nat) == decimal(rest as nat) + digits@.reverse(),
        decreases rest,
    {
        let ghost before = digits@;
        digits.push(digit(rest % 10));
        proof {
            assert(digits@.reverse() =~= seq![digit_char((rest % 10) as nat)] + before.reverse());
            assert(decimal(rest as nat) + before.reverse() =~= decimal((rest / 10) as nat)
                + digits@.reverse());
        }
        rest = rest / 10;
    }
    let ghost before = digits@;
    digits.push(digit(rest));
    assert(digits@.reverse() =~= decimal(rest as nat) + before.reverse());
    let mut text = String::new();
    let mut i: usize = digits.len();
    while i > 0
        invariant
            i <= digits.len(),
            text@ == digits@.reverse().take(digits.len() - i),
        decreases i,
    {
        i -= 1;
        text.push(digits[i]);
        assert(digits@.reverse().take(digits.len() - i) =~= digits@.reverse().take(
            digits.len() - i - 1,
        ).push(digits@[i as int]));
    }
    assert(digits@.reverse().take(digits.len() as int) =~= digits@.reverse());
    text
}

/// `s` as one word of a shell command: in single quotes, each single quote
/// of `s` written as `'\''`.
pub fn shell_quote(s: &str) -> (quoted: String)
    ensures
        quoted@ == shell_quote_spec(s@),
{
    let chars = chars_of(s);
    let mut quoted = String::new();
    quoted.push('\'');
    let mut i: usize = 0;
    assert(chars@.take(0) =~= Seq::empty());
    while i < chars.len()
        invariant
            i <= chars.len(),
            chars@ == s@,
            quoted@ == seq!['\''] + quoted_body(chars@.take(i as int)),
        decreases chars.len() - i,
    {
        let c = chars[i];
        let ghost before = quoted@;
        if c == '\'' {
            quoted.append("'\\''");
            proof {
                reveal_strlit("'\\''");
                assert("'\\''"@ =~= quoted_char(c));
            }
        } else {
            quoted.push(c);
            assert(before.push(c) =~= before + quoted_char(c));
        }
        proof {
            assert(chars@.take(i + 1).drop_last() =~= chars@.take(i as int));
            assert(quoted@ =~= seq!['\''] + quoted_body(chars@.take(i + 1)));
        }
        i += 1;
    }
    assert(chars@.take(i as int) =~= chars@);
    quoted.push('\'');
    assert(quoted@ =~= shell_quote_spec(s@));
    quoted
}

/// The command of a fetch, for `sh -c`. It downloads the document at `url`
/// to a temporary file beside the rule document, has the file checked, and
/// only then moves it over the document; the shell is left to run it in the
/// background.
pub fn update_command(url: &str, hooks_dir: &str) -> (command: String)
    ensures
        command@ == update_command_spec(url@, hooks_dir@),
{
    let target_path = patterns_path(hooks_dir);
    let mut temp_path = patterns_path(hooks_dir);
    temp_path.append(".tmp");
    let temp = shell_quote(temp_path.as_str());
    let target = shell_quote(target_path.as_str());
    let source = shell_quote(url);
    let mut command = String::from_str("curl -fsSL ");
    command.append(source.as_str());
    command.append(" -o ");
    command.append(temp.as_str());
    assert(command@ =~= download_step(url@, temp_path@));
    command.append(" && jq empty ");
    command.append(temp.as_str());
    command.append(" 2>/dev/null");
    assert(command@ =~= download_step(url@, temp_path@) + validate_step(temp_path@));
    command.append(" && mv ");
    command.append(temp.as_str());
    command.append(" ");
    command.append(target.as_str());
    assert(command@ =~= download_step(url@, temp_path@) + validate_step(temp_path@)
        + replace_step(temp_path@, target_path@));
    command.append(" || rm -f ");
    command.append(temp.as_str());
    assert(command@ =~= fetch_script(url@, hooks_dir@));
    command.append(" >/dev/null 2>&1 &");
    command
}

/// Decides whether to refresh. While the marker is fresh nothing is to be
/// done. Once it is stale the marker is written first, so that invocations
/// that follow do not fetch again, and then the fetch is started.
pub fn maybe_update(
    url: &str,
    hooks_dir: &str,
    marker: Option<Timestamp>,
    now: Timestamp,
) -> (plan: Option<RefreshPlan>)
    ensures
        plan is Some <==> is_stale(marker, now),
        plan is Some ==> plan_matches(plan->0, url@, hooks_dir@, now),
{
    if !update_needed(marker, now) {
        return None;
    }
    Some(
        RefreshPlan {
            marker_path: last_update_path(hooks_dir),
            marker_text: timestamp_text(now.secs),
            command: update_command(url, hooks_dir),
        },
    )
}

} // verus!
