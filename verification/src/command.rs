//! Command lines: a program and its arguments in one string, with single
//! spaces between them.

use vstd::prelude::*;
use vstd::string::{StrSliceExecFns, StringExecFns};
use crate::text::{chars_of, find_next, lemma_next_index_of, next_index_of, texts};

verus! {

/// The command that opens the window overview.
pub const OVERVIEW_COMMAND: &'static str = "niri msg action open-overview";

/// The words of `s` from position `from` on: the stretches between spaces.
/// Two spaces in a row have an empty word between them, and so has a space
/// at the end behind it.
pub open spec fn words_from(s: Seq<char>, from: int) -> Seq<Seq<char>>
    decreases s.len() + 1 - from,
{
    if from < 0 || from > s.len() {
        Seq::empty()
    } else {
        let end = next_index_of(s, from, ' ');
        let word = s.subrange(from, end);
        if end >= s.len() {
            seq![word]
        } else {
            proof {
                lemma_next_index_of(s, from, ' ');
            }
            seq![word] + words_from(s, end + 1)
        }
    }
}

/// The words of a command line; the first is the program, the others are
/// its arguments.
pub open spec fn words(s: Seq<char>) -> Seq<Seq<char>> {
    words_from(s, 0)
}

/// Splits a command line at its spaces.
pub fn split_command(command: &str) -> (argv: Vec<String>)
    ensures
        texts(argv@) == words(command@),
        argv@.len() >= 1,
{
    let chars = chars_of(command);
    let n: usize = chars.len();
    let mut argv: Vec<String> = Vec::new();
    let mut from: usize = 0;
    assert(texts(argv@) + words_from(chars@, 0) =~= words(command@));
    loop
        invariant_except_break
            from <= n,
            texts(argv@) + words_from(chars@, from as int) == words(command@),
        invariant
            n == chars@.len(),
            chars@ == command@,
        ensures
            texts(argv@) == words(command@),
            argv@.len() >= 1,
        decreases n - from,
    {
        let end: usize = find_next(chars.as_slice(), from, ' ');
        let word = String::from_str(command.substring_char(from, end));
        let ghost before = texts(argv@);
        argv.push(word);
        assert(texts(argv@) =~= before + seq![chars@.subrange(from as int, end as int)]);
        if end == n {
            assert(texts(argv@) =~= before + words_from(chars@, from as int));
            break ;
        }
        assert(texts(argv@) + words_from(chars@, end + 1) =~= before + words_from(
            chars@,
            from as int,
        ));
        from = end + 1;
    }
    argv
}

} // verus!
