//! The colours of the bar and the text file that sets them.
//!
//! The file is read line by line. A line that begins with `background=`
//! sets the colour of the bar, one that begins with `foreground=` sets the
//! colour of the text; the colour follows the `=` as six hexadecimal
//! digits. Every other line is skipped, and a later line overrides an
//! earlier one. A carriage return before the line feed needs no care: a
//! carriage return is no digit, and nothing behind the six digits is read.

use vstd::prelude::*;
use vstd::slice::slice_subrange;
use vstd::string::StringExecFns;
use crate::color::Color;
use crate::text::{chars_of, find_next, lemma_next_index_of, next_index_of};

verus! {

/// The colours of the bar.
#[derive(Debug, Clone, Copy, PartialEq, Eq, Structural)]
pub struct ConfigState {
    pub bar_color: Color,
    pub text_color: Color,
}

/// A line that names a colour setting and does not spell a colour.
#[derive(Debug, Clone, Copy, PartialEq, Eq, Structural)]
pub struct InvalidColor {
    /// The number of the line, counted from 0.
    pub line: usize,
}

/// Where the configuration file lies below the home directory.
pub const CONFIG_FILE: &'static str = "/.config/svbar/config";

/// What a line that sets the colour of the bar begins with.
pub const BACKGROUND_KEY: &'static str = "background=";

/// What a line that sets the colour of the text begins with.
pub const FOREGROUND_KEY: &'static str = "foreground=";

/// The colours in use where no file sets them: a black bar, white text.
pub open spec fn default_config() -> ConfigState {
    ConfigState {
        bar_color: Color { r: 0, g: 0, b: 0 },
        text_color: Color { r: 255, g: 255, b: 255 },
    }
}

/// The end of the line that starts at `from`: the position of the next line
/// feed, or the length of `s` if there is none.
pub open spec fn line_end(s: Seq<char>, from: int) -> int {
    next_index_of(s, from, '\n')
}

/// The configuration after `line` has been read, or `None` if the line
/// names a setting and no colour follows.
pub open spec fn with_line(config: ConfigState, line: Seq<char>) -> Option<ConfigState> {
    if BACKGROUND_KEY@.is_prefix_of(line) {
        match Color::parse(line.skip(BACKGROUND_KEY@.len() as int)) {
            Some(bar_color) => Some(ConfigState { bar_color, ..config }),
            None => None,
        }
    } else if FOREGROUND_KEY@.is_prefix_of(line) {
        match Color::parse(line.skip(FOREGROUND_KEY@.len() as int)) {
            Some(text_color) => Some(ConfigState { text_color, ..config }),
            None => None,
        }
    } else {
        Some(config)
    }
}

/// The configuration after the lines of `s` from position `from` on have
/// been read on top of `config`, where `from` starts line number `line`; or
/// the first line that names a setting and spells no colour.
pub open spec fn read_lines(s: Seq<char>, from: int, config: ConfigState, line: int) -> Result<
    ConfigState,
    InvalidColor,
>
    decreases s.len() + 1 - from,
{
    if from < 0 || from >= s.len() {
        Ok(config)
    } else {
        let end = line_end(s, from);
        match with_line(config, s.subrange(from, end)) {
            None => Err(InvalidColor { line: line as usize }),
            Some(next) => {
                proof {
                    lemma_next_index_of(s, from, '\n');
                }
                read_lines(s, end + 1, next, line + 1)
            },
        }
    }
}

fn has_prefix(line: &[char], prefix: &[char]) -> (found: bool)
    ensures
        found == prefix@.is_prefix_of(line@),
{
    let n: usize = prefix.len();
    if line.len() < n {
        return false;
    }
    let mut i: usize = 0;
    while i < n
        invariant
            i <= n,
            n == prefix@.len(),
            n <= line@.len(),
            forall|k: int| 0 <= k < i ==> line@[k] == prefix@[k],
        decreases n - i,
    {
        if line[i] != prefix[i] {
            assert(line@.subrange(0, n as int)[i as int] != prefix@[i as int]);
            return false;
        }
        i += 1;
    }
    assert(line@.subrange(0, n as int) =~= prefix@);
    true
}

fn read_line(config: ConfigState, line: &[char]) -> (next: Option<ConfigState>)
    ensures
        next == with_line(config, line@),
{
    let background = chars_of(BACKGROUND_KEY);
    let foreground = chars_of(FOREGROUND_KEY);
    if has_prefix(line, background.as_slice()) {
        let value = slice_subrange(line, background.len(), line.len());
        match Color::from_chars(value) {
            Some(bar_color) => Some(ConfigState { bar_color, ..config }),
            None => None,
        }
    } else if has_prefix(line, foreground.as_slice()) {
        let value = slice_subrange(line, foreground.len(), line.len());
        match Color::from_chars(value) {
            Some(text_color) => Some(ConfigState { text_color, ..config }),
            None => None,
        }
    } else {
        Some(config)
    }
}

impl ConfigState {
    /// What the contents of a configuration file set, read on top of the
    /// default colours.
    pub open spec fn parsed(contents: Seq<char>) -> Result<ConfigState, InvalidColor> {
        read_lines(contents, 0, default_config(), 0)
    }

    /// Reads the contents of a configuration file. The result is an error
    /// exactly when some line names a setting without spelling a colour,
    /// and then names the first such line.
    pub fn parse(contents: &str) -> (config: Result<ConfigState, InvalidColor>)
        ensures
            config == ConfigState::parsed(contents@),
    {
        let chars = chars_of(contents);
        let n: usize = chars.len();
        let mut config = ConfigState::default();
        let mut from: usize = 0;
        let mut line: usize = 0;
        while from < n
            invariant
                n == chars@.len(),
                chars@ == contents@,
                line <= from,
                ConfigState::parsed(contents@) == read_lines(
                    chars@,
                    from as int,
                    config,
                    line as int,
                ),
            decreases n - from,
        {
            let end: usize = find_next(chars.as_slice(), from, '\n');
            proof {
                let next = with_line(config, chars@.subrange(from as int, end as int));
                if next is Some && end == n {
                    assert(read_lines(chars@, end + 1, next.unwrap(), line + 1) == Ok::<
                        ConfigState,
                        InvalidColor,
                    >(next.unwrap()));
                }
            }
            match read_line(config, slice_subrange(chars.as_slice(), from, end)) {
                None => {
                    return Err(InvalidColor { line });
                },
                Some(next) => {
                    config = next;
                },
            }
            if end == n {
                return Ok(config);
            }
            from = end + 1;
            line += 1;
        }
        Ok(config)
    }

    /// The path of the configuration file for the home directory `home`.
    pub fn path_under(home: &str) -> (path: String)
        ensures
            path@ == home@ + CONFIG_FILE@,
    {
        let mut path = String::from_str(home);
        path.append(CONFIG_FILE);
        path
    }
}

impl Default for ConfigState {
    fn default() -> (config: ConfigState)
        ensures
            config == default_config(),
    {
        ConfigState {
            bar_color: Color { r: 0, g: 0, b: 0 },
            text_color: Color { r: 255, g: 255, b: 255 },
        }
    }
}

} // verus!
