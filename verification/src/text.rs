//! Helpers for reading and building strings character by character.

use vstd::prelude::*;
use vstd::string::StringExecFns;

verus! {

/// The characters of `s`, in order.
pub fn chars_of(s: &str) -> (chars: Vec<char>)
    ensures
        chars@ == s@,
{
    let mut chars: Vec<char> = Vec::new();
    for c in it: s.chars()
        invariant
            it.seq() == s@,
            chars@ == s@.take(it.index() as int),
    {
        chars.push(c);
        assert(s@.take(it.index() + 1) =~= s@.take(it.index() as int).push(c));
    }
    assert(s@.take(s@.len() as int) =~= s@);
    chars
}

/// The character that writes the decimal digit `d`.
pub open spec fn digit_char(d: int) -> char {
    (d + '0' as int) as char
}

/// The decimal notation of `n`, without leading zeros.
pub open spec fn decimal(n: nat) -> Seq<char>
    decreases n,
{
    if n < 10 {
        seq![digit_char(n as int)]
    } else {
        decimal(n / 10).push(digit_char((n % 10) as int))
    }
}

/// `parts` from the last to the first, with one space between neighbours.
pub open spec fn join_reversed(parts: Seq<Seq<char>>) -> Seq<char>
    decreases parts.len(), 0int,
{
    if parts.len() == 0 {
        Seq::empty()
    } else {
        parts.last() + spaced(parts.drop_last())
    }
}

/// Nothing for no parts, else a space and `join_reversed(parts)`.
pub open spec fn spaced(parts: Seq<Seq<char>>) -> Seq<char>
    decreases parts.len(), 1int,
{
    if parts.len() == 0 {
        Seq::empty()
    } else {
        seq![' '] + join_reversed(parts)
    }
}

/// The contents of each string of `parts`.
pub open spec fn texts(parts: Seq<String>) -> Seq<Seq<char>> {
    Seq::new(parts.len(), |i: int| parts[i]@)
}

fn digit_str(d: u8) -> (text: &'static str)
    requires
        d < 10,
    ensures
        text@ == seq![digit_char(d as int)],
{
    proof {
        reveal_strlit("0");
        reveal_strlit("1");
        reveal_strlit("2");
        reveal_strlit("3");
        reveal_strlit("4");
        reveal_strlit("5");
        reveal_strlit("6");
        reveal_strlit("7");
        reveal_strlit("8");
        reveal_strlit("9");
    }
    let text = if d == 0 {
        "0"
    } else if d == 1 {
        "1"
    } else if d == 2 {
        "2"
    } else if d == 3 {
        "3"
    } else if d == 4 {
        "4"
    } else if d == 5 {
        "5"
    } else if d == 6 {
        "6"
    } else if d == 7 {
        "7"
    } else if d == 8 {
        "8"
    } else {
        "9"
    };
    assert(text@ =~= seq![digit_char(d as int)]);
    text
}

/// Writes `value` in decimal.
pub fn decimal_text(value: u8) -> (text: String)
    ensures
        text@ == decimal(value as nat),
{
    let mut text = String::new();
    if value >= 100 {
        text.append(digit_str(value / 100));
    }
    if value >= 10 {
        text.append(digit_str((value / 10) % 10));
    }
    text.append(digit_str(value % 10));
    proof {
        reveal_with_fuel(decimal, 3);
        assert(text@ =~= decimal(value as nat));
    }
    text
}

/// Joins `parts` from the last to the first, with one space between
/// neighbours.
pub fn join_from_last(parts: &Vec<String>) -> (text: String)
    ensures
        text@ == join_reversed(texts(parts@)),
{
    let ghost all = texts(parts@);
    let mut text = String::new();
    let mut left: usize = parts.len();
    proof {
        reveal_strlit(" ");
        assert(all.take(left as int) =~= all);
    }
    if left > 0 {
        left -= 1;
        text.append(parts[left].as_str());
        assert(all.drop_last() =~= all.take(left as int));
    }
    while left > 0
        invariant
            left <= parts@.len(),
            all == texts(parts@),
            " "@ == seq![' '],
            join_reversed(all) == text@ + spaced(all.take(left as int)),
        decreases left,
    {
        left -= 1;
        proof {
            let before = all.take(left + 1);
            assert(before.last() == parts@[left as int]@);
            assert(before.drop_last() =~= all.take(left as int));
            assert(text@ + spaced(before) =~= text@ + seq![' '] + parts@[left as int]@ + spaced(
                all.take(left as int),
            ));
        }
        text.append(" ");
        text.append(parts[left].as_str());
    }
    assert(text@ + spaced(all.take(0)) =~= text@);
    text
}

/// The position of the first `mark` in `s` at or after `from`, or the
/// length of `s` if there is none.
pub open spec fn next_index_of(s: Seq<char>, from: int, mark: char) -> int
    decreases s.len() - from,
{
    if from < 0 || from >= s.len() || s[from] == mark {
        from
    } else {
        next_index_of(s, from + 1, mark)
    }
}

/// `next_index_of` stays within the text, stops at a `mark` and passes
/// none.
pub proof fn lemma_next_index_of(s: Seq<char>, from: int, mark: char)
    requires
        0 <= from <= s.len(),
    ensures
        from <= next_index_of(s, from, mark) <= s.len(),
        next_index_of(s, from, mark) < s.len() ==> s[next_index_of(s, from, mark)] == mark,
        forall|k: int| from <= k < next_index_of(s, from, mark) ==> s[k] != mark,
    decreases s.len() - from,
{
    if from < s.len() && s[from] != mark {
        lemma_next_index_of(s, from + 1, mark);
    }
}

/// Finds the first `mark` in `chars` at or after `from`.
pub fn find_next(chars: &[char], from: usize, mark: char) -> (end: usize)
    requires
        from <= chars@.len(),
    ensures
        end == next_index_of(chars@, from as int, mark),
        from <= end <= chars@.len(),
{
    let n: usize = chars.len();
    let mut end: usize = from;
    while end < n && chars[end] != mark
        invariant
            from <= end <= n,
            n == chars@.len(),
            next_index_of(chars@, from as int, mark) == next_index_of(chars@, end as int, mark),
        decreases n - end,
    {
        end += 1;
    }
    end
}

} // verus!
