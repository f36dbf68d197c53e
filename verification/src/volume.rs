//! Reading the output volume from what the audio service reports.
//!
//! The service lists its sinks. Each entry says whether the sink is muted
//! and gives its average volume as a text such as ` 45%`. The volume of the
//! bar is that of the entry that came last.

use vstd::prelude::*;
use vstd::slice::slice_subrange;
use vstd::string::StringExecFns;
use crate::text::chars_of;

verus! {

/// Why no volume could be read.
#[derive(Debug, Clone, Copy, PartialEq, Eq, Structural)]
pub enum VolumeError {
    /// The service listed no sink.
    Unchanged,
    /// No digits stand before the last character.
    Empty,
    /// Something other than a decimal digit stands where one is expected.
    InvalidDigit,
    /// The number is greater than 255.
    Overflow,
}

/// One entry of the list of sinks.
pub struct SinkInfo {
    pub mute: bool,
    /// The average volume over the channels, as the service prints it.
    pub volume_text: String,
}

/// The state of the connection to the audio service.
#[derive(Debug, Clone, Copy, PartialEq, Eq, Structural)]
pub enum ContextState {
    Unconnected,
    Connecting,
    Authorizing,
    SettingName,
    Ready,
    Failed,
    Terminated,
}

/// What to do next while the connection is being set up.
#[derive(Debug, Clone, Copy, PartialEq, Eq, Structural)]
pub enum ConnectStep {
    /// The connection is ready for use.
    Proceed,
    /// The connection has failed or was terminated.
    GiveUp,
    /// Run the main loop of the service once and look again.
    Iterate,
}

/// Whether `c` is white space: a character with the Unicode property
/// `White_Space`.
pub open spec fn is_space(c: char) -> bool {
    ||| '\u{9}' <= c <= '\u{D}'
    ||| c == ' '
    ||| c == '\u{85}'
    ||| c == '\u{A0}'
    ||| c == '\u{1680}'
    ||| '\u{2000}' <= c <= '\u{200A}'
    ||| c == '\u{2028}'
    ||| c == '\u{2029}'
    ||| c == '\u{202F}'
    ||| c == '\u{205F}'
    ||| c == '\u{3000}'
}

/// `s` without the white space at its start.
pub open spec fn trim_front(s: Seq<char>) -> Seq<char>
    decreases s.len(),
{
    if s.len() > 0 && is_space(s[0]) {
        trim_front(s.drop_first())
    } else {
        s
    }
}

/// `s` without the white space at its end.
pub open spec fn trim_back(s: Seq<char>) -> Seq<char>
    decreases s.len(),
{
    if s.len() > 0 && is_space(s.last()) {
        trim_back(s.drop_last())
    } else {
        s
    }
}

/// `s` without the white space at either end.
pub open spec fn trimmed(s: Seq<char>) -> Seq<char> {
    trim_back(trim_front(s))
}

/// The value of a decimal digit, if `c` is one.
pub open spec fn decimal_digit(c: char) -> Option<int> {
    if '0' <= c <= '9' {
        Some(c as int - '0' as int)
    } else {
        None
    }
}

/// The number that `acc` followed by the digits `s` denotes. The digits are
/// read from the left, and the first character that is no digit, or that
/// takes the number past 255, decides the error.
pub open spec fn number_from(s: Seq<char>, acc: int) -> Result<u8, VolumeError>
    decreases s.len(),
{
    if s.len() == 0 {
        Ok(acc as u8)
    } else {
        match decimal_digit(s[0]) {
            None => Err(VolumeError::InvalidDigit),
            Some(d) => if acc * 10 + d > 255 {
                Err(VolumeError::Overflow)
            } else {
                number_from(s.drop_first(), acc * 10 + d)
            },
        }
    }
}

/// The number that `s` denotes: decimal digits, with or without a plus sign
/// in front of them.
pub open spec fn number(s: Seq<char>) -> Result<u8, VolumeError> {
    if s.len() == 0 {
        Err(VolumeError::Empty)
    } else if s[0] == '+' {
        if s.len() == 1 {
            Err(VolumeError::InvalidDigit)
        } else {
            number_from(s.drop_first(), 0)
        }
    } else {
        number_from(s, 0)
    }
}

/// The volume that a printed percentage denotes: white space at both ends
/// is dropped, then the last character, which is the percent sign, and what
/// is left is read as a number.
pub open spec fn percent(text: Seq<char>) -> Result<u8, VolumeError> {
    let core = trimmed(text);
    if core.len() == 0 {
        Err(VolumeError::Empty)
    } else {
        number(core.drop_last())
    }
}

/// The volume of one sink: 0 when it is muted, else what its text denotes.
pub open spec fn sink_reading(sink: SinkInfo) -> Result<u8, VolumeError> {
    if sink.mute {
        Ok(0u8)
    } else {
        percent(sink.volume_text@)
    }
}

/// The volume that a list of sinks gives: that of the last entry.
pub open spec fn reading(sinks: Seq<SinkInfo>) -> Result<u8, VolumeError> {
    if sinks.len() == 0 {
        Err(VolumeError::Unchanged)
    } else {
        sink_reading(sinks.last())
    }
}

fn is_space_char(c: char) -> (space: bool)
    ensures
        space == is_space(c),
{
    ('\u{9}' <= c && c <= '\u{D}') || c == ' ' || c == '\u{85}' || c == '\u{A0}' || c
        == '\u{1680}' || ('\u{2000}' <= c && c <= '\u{200A}') || c == '\u{2028}' || c
        == '\u{2029}' || c == '\u{202F}' || c == '\u{205F}' || c == '\u{3000}'
}

fn trim(chars: &[char]) -> (core: &[char])
    ensures
        core@ == trimmed(chars@),
{
    let n: usize = chars.len();
    let mut start: usize = 0;
    assert(chars@.skip(0) =~= chars@);
    while start < n && is_space_char(chars[start])
        invariant
            start <= n,
            n == chars@.len(),
            trim_front(chars@) == trim_front(chars@.skip(start as int)),
        decreases n - start,
    {
        assert(chars@.skip(start as int).drop_first() =~= chars@.skip(start + 1));
        start += 1;
    }
    let ghost front = chars@.skip(start as int);
    assert(trim_front(chars@) == front);
    let mut end: usize = n;
    assert(front.take(end - start) =~= front);
    while end > start && is_space_char(chars[end - 1])
        invariant
            start <= end <= n,
            n == chars@.len(),
            front == chars@.skip(start as int),
            trim_back(front) == trim_back(front.take(end - start)),
        decreases end,
    {
        assert(front.take(end - start).drop_last() =~= front.take(end - start - 1));
        end -= 1;
    }
    assert(front.take(end - start) =~= chars@.subrange(start as int, end as int));
    slice_subrange(chars, start, end)
}

fn parse_number(digits: &[char]) -> (value: Result<u8, VolumeError>)
    ensures
        value == number(digits@),
{
    let n: usize = digits.len();
    if n == 0 {
        return Err(VolumeError::Empty);
    }
    let mut i: usize = 0;
    if digits[0] == '+' {
        if n == 1 {
            return Err(VolumeError::InvalidDigit);
        }
        i = 1;
        assert(digits@.drop_first() =~= digits@.skip(1));
    } else {
        assert(digits@ =~= digits@.skip(0));
    }
    let mut acc: u8 = 0;
    while i < n
        invariant
            i <= n,
            n == digits@.len(),
            number(digits@) == number_from(digits@.skip(i as int), acc as int),
        decreases n - i,
    {
        let c: char = digits[i];
        assert(digits@.skip(i as int).drop_first() =~= digits@.skip(i + 1));
        if c < '0' || c > '9' {
            return Err(VolumeError::InvalidDigit);
        }
        let d: u32 = c as u32 - '0' as u32;
        let next: u32 = acc as u32 * 10 + d;
        if next > 255 {
            return Err(VolumeError::Overflow);
        }
        acc = next as u8;
        i += 1;
    }
    Ok(acc)
}

/// Reads the volume from a printed percentage such as ` 45%`.
pub fn parse_percent(text: &str) -> (value: Result<u8, VolumeError>)
    ensures
        value == percent(text@),
{
    let chars = chars_of(text);
    let core = trim(chars.as_slice());
    let n: usize = core.len();
    if n == 0 {
        return Err(VolumeError::Empty);
    }
    assert(core@.drop_last() =~= core@.subrange(0, n - 1));
    parse_number(slice_subrange(core, 0, n - 1))
}

/// Reads the volume of one sink.
pub fn sink_volume(sink: &SinkInfo) -> (value: Result<u8, VolumeError>)
    ensures
        value == sink_reading(*sink),
{
    if sink.mute {
        Ok(0)
    } else {
        parse_percent(sink.volume_text.as_str())
    }
}

/// Reads the volume from the list of sinks that the service reported.
pub fn read_volume(sinks: &[SinkInfo]) -> (value: Result<u8, VolumeError>)
    ensures
        value == reading(sinks@),
{
    let n: usize = sinks.len();
    if n == 0 {
        Err(VolumeError::Unchanged)
    } else {
        sink_volume(&sinks[n - 1])
    }
}

/// Decides from the state of the connection how its setup goes on.
pub fn connect_step(state: ContextState) -> (step: ConnectStep)
    ensures
        step == match state {
            ContextState::Ready => ConnectStep::Proceed,
            ContextState::Failed | ContextState::Terminated => ConnectStep::GiveUp,
            _ => ConnectStep::Iterate,
        },
{
    match state {
        ContextState::Failed | ContextState::Terminated => ConnectStep::GiveUp,
        ContextState::Ready => ConnectStep::Proceed,
        _ => ConnectStep::Iterate,
    }
}

impl VolumeError {
    /// The error in words.
    pub open spec fn text(self) -> Seq<char> {
        match self {
            VolumeError::Unchanged => "Value wasn't changed"@,
            VolumeError::Empty => "cannot parse integer from empty string"@,
            VolumeError::InvalidDigit => "invalid digit found in string"@,
            VolumeError::Overflow => "number too large to fit in target type"@,
        }
    }

    /// The error in words.
    pub fn message(&self) -> (text: String)
        ensures
            text@ == self.text(),
    {
        match self {
            VolumeError::Unchanged => String::from_str("Value wasn't changed"),
            VolumeError::Empty => String::from_str("cannot parse integer from empty string"),
            VolumeError::InvalidDigit => String::from_str("invalid digit found in string"),
            VolumeError::Overflow => String::from_str("number too large to fit in target type"),
        }
    }
}

} // verus!
