//! Command-line helpers: the textual part of parsing a memory size such as
//! "512m" or "1.5G", and the tracing sub-commands.
use vstd::prelude::*;
use crate::text::{chars_of, string_of_range};

verus! {

/// The tracing sub-commands.
#[derive(Debug, Clone, Copy, PartialEq, Eq, Structural)]
pub enum EbpfCmd {
    /// Trace process execution system-wide.
    Trace,
}

/// Unicode white space (the `White_Space` property), as `char::is_whitespace` tests it.
pub open spec fn is_white_space(c: char) -> bool {
    ('\u{9}' <= c && c <= '\u{d}') || c == ' ' || c == '\u{85}' || c == '\u{a0}' || c == '\u{1680}'
        || ('\u{2000}' <= c && c <= '\u{200a}') || c == '\u{2028}' || c == '\u{2029}' || c == '\u{202f}'
        || c == '\u{205f}' || c == '\u{3000}'
}

/// `s` without leading white space.
pub open spec fn trim_start_ws(s: Seq<char>) -> Seq<char>
    decreases s.len(),
{
    if s.len() > 0 && is_white_space(s[0]) {
        trim_start_ws(s.drop_first())
    } else {
        s
    }
}

/// `s` without trailing white space.
pub open spec fn trim_end_ws(s: Seq<char>) -> Seq<char>
    decreases s.len(),
{
    if s.len() > 0 && is_white_space(s.last()) {
        trim_end_ws(s.drop_last())
    } else {
        s
    }
}

/// The text with leading and trailing white space removed.
pub open spec fn trimmed(s: Seq<char>) -> Seq<char> {
    trim_end_ws(trim_start_ws(s))
}

/// The text in lower case, as `str::to_lowercase` gives it.
pub uninterp spec fn lowercased(s: Seq<char>) -> Seq<char>;

/// `str::trim`: removes leading and trailing white space, white space being
/// the characters with the Unicode `White_Space` property.
#[verifier::external_body]
fn trim_text(s: &str) -> (r: String)
    ensures
        r@ == trimmed(s@),
{
    s.trim().to_string()
}

/// `str::to_lowercase`: maps every character to lower case by the Unicode
/// tables. The result is named `lowercased` of the input.
#[verifier::external_body]
fn lowercase_text(s: &str) -> (r: String)
    ensures
        r@ == lowercased(s@),
{
    s.to_lowercase()
}

/// Why a memory size was refused.
#[derive(Debug, PartialEq, Eq)]
pub enum MemoryError {
    /// Nothing is left after trimming.
    Empty,
    /// The size has a suffix other than k, kb, m, mb, g, gb.
    UnknownSuffix(String),
}

/// A memory size split into its number and its unit suffix.
pub struct MemorySpec {
    /// The leading digits and dots.
    pub number: String,
    /// Everything after them.
    pub suffix: String,
}

/// Whether a character belongs to the number part: an ASCII digit or a '.'.
pub open spec fn is_number_char(c: char) -> bool {
    ('0' <= c && c <= '9') || c == '.'
}

/// Length of the number part at the start of `s`.
pub open spec fn number_len(s: Seq<char>) -> int
    decreases s.len(),
{
    if s.len() > 0 && is_number_char(s[0]) {
        1 + number_len(s.drop_first())
    } else {
        0
    }
}

proof fn lemma_number_len(s: Seq<char>)
    ensures
        0 <= number_len(s) <= s.len(),
        forall|i: int| 0 <= i < number_len(s) ==> is_number_char(#[trigger] s[i]),
        number_len(s) < s.len() ==> !is_number_char(s[number_len(s)]),
    decreases s.len(),
{
    if s.len() > 0 && is_number_char(s[0]) {
        lemma_number_len(s.drop_first());
        assert forall|i: int| 0 <= i < number_len(s) implies is_number_char(#[trigger] s[i]) by {
            if i > 0 {
                assert(s[i] == s.drop_first()[i - 1]);
            }
        }
    }
}

/// Splits a normalized (trimmed, lower-case) memory size into the leading
/// digits and dots and the rest; an empty text is refused.
pub fn split_memory_spec(normalized: &str) -> (r: Result<MemorySpec, MemoryError>)
    ensures
        normalized@.len() == 0 <==> r is Err,
        r matches Err(e) ==> e == MemoryError::Empty,
        r matches Ok(m) ==> m.number@ == normalized@.take(number_len(normalized@)) && m.suffix@
            == normalized@.skip(number_len(normalized@)),
{
    let chars = chars_of(normalized);
    if chars.len() == 0 {
        return Err(MemoryError::Empty);
    }
    proof {
        lemma_number_len(chars@);
    }
    let mut n: usize = 0;
    while n < chars.len() && (('0' <= chars[n] && chars[n] <= '9') || chars[n] == '.')
        invariant
            n <= chars@.len(),
            forall|i: int| 0 <= i < n ==> is_number_char(#[trigger] chars@[i]),
            0 <= number_len(chars@) <= chars@.len(),
            forall|i: int| 0 <= i < number_len(chars@) ==> is_number_char(#[trigger] chars@[i]),
            number_len(chars@) < chars@.len() ==> !is_number_char(chars@[number_len(chars@)]),
        decreases chars@.len() - n,
    {
        n += 1;
    }
    assert(n == number_len(chars@));
    assert(chars@.subrange(0, n as int) =~= chars@.take(n as int));
    assert(chars@.subrange(n as int, chars@.len() as int) =~= chars@.skip(n as int));
    Ok(MemorySpec { number: string_of_range(&chars, 0, n), suffix: string_of_range(&chars, n, chars.len()) })
}

/// Splits a memory size as typed by a user: white space around it is
/// removed and it is lower-cased first.
pub fn memory_spec_parts(s: &str) -> (r: Result<MemorySpec, MemoryError>)
    ensures
        lowercased(trimmed(s@)).len() == 0 <==> r is Err,
        r matches Err(e) ==> e == MemoryError::Empty,
        r matches Ok(m) ==> m.number@ == lowercased(trimmed(s@)).take(number_len(lowercased(trimmed(s@))))
            && m.suffix@ == lowercased(trimmed(s@)).skip(number_len(lowercased(trimmed(s@)))),
{
    let t = trim_text(s);
    let l = lowercase_text(t.as_str());
    split_memory_spec(l.as_str())
}

/// The multiplier of a unit suffix: "", k, kb, m, mb, g, gb (powers of 1024).
pub open spec fn suffix_multiplier(suffix: Seq<char>) -> Option<u64> {
    if suffix == seq!['k'] || suffix == seq!['k', 'b'] {
        Some(1024)
    } else if suffix == seq!['m'] || suffix == seq!['m', 'b'] {
        Some(0x10_0000u64)
    } else if suffix == seq!['g'] || suffix == seq!['g', 'b'] {
        Some(0x4000_0000u64)
    } else if suffix.len() == 0 {
        Some(1)
    } else {
        None
    }
}

/// The multiplier for a unit suffix; any other suffix is refused.
pub fn suffix_factor(suffix: &str) -> (r: Result<u64, MemoryError>)
    ensures
        match suffix_multiplier(suffix@) {
            Some(f) => r == Ok::<u64, MemoryError>(f),
            None => r matches Err(MemoryError::UnknownSuffix(s)) && s@ == suffix@,
        },
{
    let c = chars_of(suffix);
    let n = c.len();
    if n == 1 || (n == 2 && c[1] == 'b') {
        let unit = c[0];
        assert(n == 2 ==> c@ == seq![unit, 'b']);
        assert(n == 1 ==> c@ == seq![unit]);
        if unit == 'k' {
            return Ok(1024);
        } else if unit == 'm' {
            return Ok(1024 * 1024);
        } else if unit == 'g' {
            return Ok(1024 * 1024 * 1024);
        }
    } else if n == 0 {
        return Ok(1);
    }
    proof {
        if n == 2 {
            assert(c@ != seq!['k'] && c@ != seq!['m'] && c@ != seq!['g']);
            if c@ == seq!['k', 'b'] || c@ == seq!['m', 'b'] || c@ == seq!['g', 'b'] {
                assert(c@[1] == 'b');
            }
        }
        if n > 2 {
            assert(c@.len() != 1 && c@.len() != 2);
        }
    }
    Err(MemoryError::UnknownSuffix(suffix.to_owned()))
}

/// The sub-commands of the command-line front end.
#[derive(Clone, Copy, Debug, PartialEq, Eq, Structural)]
pub enum CommandKind {
    Pull,
    Create,
    Start,
    Stop,
    Remove,
    Ps,
    Logs,
    Run,
    NetworkInit,
    Monitor,
    Ebpf,
}

/// Where a command goes when a daemon is reachable.
#[derive(Clone, Copy, Debug, PartialEq, Eq, Structural)]
pub enum DaemonRoute {
    /// Sent to the daemon.
    Remote,
    /// Refused: a foreground run cannot go through the daemon.
    RefuseForegroundRun,
    /// Refused: the host network must be set up locally, as root.
    RefuseNetworkInit,
    /// Run on this host.
    Local,
}

/// The routing of a command when a daemon is reachable: the container
/// commands go to the daemon, a run only when detached, network set-up is
/// refused, and monitoring and tracing run locally.
pub fn daemon_route(kind: CommandKind, detach: bool) -> (r: DaemonRoute)
    ensures
        r == (match kind {
            CommandKind::Run => if detach {
                DaemonRoute::Remote
            } else {
                DaemonRoute::RefuseForegroundRun
            },
            CommandKind::NetworkInit => DaemonRoute::RefuseNetworkInit,
            CommandKind::Monitor | CommandKind::Ebpf => DaemonRoute::Local,
            _ => DaemonRoute::Remote,
        }),
{
    match kind {
        CommandKind::Run => if detach {
            DaemonRoute::Remote
        } else {
            DaemonRoute::RefuseForegroundRun
        },
        CommandKind::NetworkInit => DaemonRoute::RefuseNetworkInit,
        CommandKind::Monitor | CommandKind::Ebpf => DaemonRoute::Local,
        _ => DaemonRoute::Remote,
    }
}

} // verus!
