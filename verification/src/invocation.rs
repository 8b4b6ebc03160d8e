//! Turning a registered invocation string into a program and its arguments.
//!
//! An invocation string is cut at every single space and nowhere else. No
//! other character has a meaning: quotes, semicolons, pipes and dollar signs
//! stay in the piece they were written in, so what is spawned is always the
//! literal argument vector that the string spells out.

use vstd::prelude::*;

verus! {

/// The character that separates the pieces of an invocation string.
pub const SEPARATOR: char = ' ';

/// Position of the first `sep` in `s`, or `s.len()` when `s` holds none.
pub open spec fn first_index_of(s: Seq<char>, sep: char) -> int
    decreases s.len(),
{
    if s.len() == 0 || s[0] == sep {
        0
    } else {
        1 + first_index_of(s.drop_first(), sep)
    }
}

/// The pieces of `s` that lie between occurrences of `sep`, in order.
///
/// Every occurrence of `sep` ends one piece and starts the next, so a string
/// with `n` separators has `n + 1` pieces, some of which may be empty.
pub open spec fn split_on(s: Seq<char>, sep: char) -> Seq<Seq<char>>
    decreases s.len(),
{
    let i = first_index_of(s, sep);
    if 0 <= i < s.len() {
        seq![s.take(i)] + split_on(s.skip(i + 1), sep)
    } else {
        seq![s]
    }
}

/// The pieces written one after another with one `sep` between neighbours.
pub open spec fn join(pieces: Seq<Seq<char>>, sep: char) -> Seq<char>
    decreases pieces.len(),
{
    if pieces.len() == 0 {
        Seq::empty()
    } else if pieces.len() == 1 {
        pieces[0]
    } else {
        pieces[0] + seq![sep] + join(pieces.drop_first(), sep)
    }
}

/// How many times `sep` occurs in `s`.
pub open spec fn count_of(s: Seq<char>, sep: char) -> nat
    decreases s.len(),
{
    if s.len() == 0 {
        0
    } else if s[0] == sep {
        1 + count_of(s.drop_first(), sep)
    } else {
        count_of(s.drop_first(), sep)
    }
}

/// True when no piece holds `sep`.
pub open spec fn free_of(pieces: Seq<Seq<char>>, sep: char) -> bool {
    forall|i: int, k: int|
        0 <= i < pieces.len() && 0 <= k < pieces[i].len() ==> #[trigger] pieces[i][k] != sep
}

/// `first_index_of` stays within the string, passes over no separator, and
/// stops on one unless it reaches the end.
pub proof fn lemma_first_index_of(s: Seq<char>, sep: char)
    ensures
        0 <= first_index_of(s, sep) <= s.len(),
        forall|k: int| 0 <= k < first_index_of(s, sep) ==> s[k] != sep,
        first_index_of(s, sep) < s.len() ==> s[first_index_of(s, sep)] == sep,
    decreases s.len(),
{
    if s.len() == 0 || s[0] == sep {
    } else {
        let rest = s.drop_first();
        lemma_first_index_of(rest, sep);
        assert forall|k: int| 0 <= k < first_index_of(s, sep) implies s[k] != sep by {
            if k > 0 {
                assert(s[k] == rest[k - 1]);
            }
        }
    }
}

/// A position that holds `sep`, or is the end of the string, and has no
/// `sep` before it is the one that `first_index_of` finds.
pub proof fn lemma_first_index_is(s: Seq<char>, sep: char, j: int)
    requires
        0 <= j <= s.len(),
        forall|k: int| 0 <= k < j ==> s[k] != sep,
        j < s.len() ==> s[j] == sep,
    ensures
        first_index_of(s, sep) == j,
{
    lemma_first_index_of(s, sep);
}

/// Splitting always yields at least one piece.
pub proof fn lemma_split_nonempty(s: Seq<char>, sep: char)
    ensures
        split_on(s, sep).len() >= 1,
{
}

/// Up to and including the first separator a string holds exactly one
/// separator, and none at all if it holds none.
proof fn lemma_count_from_first(s: Seq<char>, sep: char)
    ensures
        first_index_of(s, sep) < s.len() ==> count_of(s, sep) == 1 + count_of(
            s.skip(first_index_of(s, sep) + 1),
            sep,
        ),
        first_index_of(s, sep) >= s.len() ==> count_of(s, sep) == 0,
    decreases s.len(),
{
    lemma_first_index_of(s, sep);
    if s.len() == 0 {
    } else if s[0] == sep {
        assert(s.skip(1) == s.drop_first());
    } else {
        let rest = s.drop_first();
        lemma_count_from_first(rest, sep);
        lemma_first_index_of(rest, sep);
        let i = first_index_of(s, sep);
        if i < s.len() {
            assert(rest.skip(first_index_of(rest, sep) + 1) == s.skip(i + 1));
        }
    }
}

/// A string falls into one more piece than it holds separators.
pub proof fn lemma_split_len(s: Seq<char>, sep: char)
    ensures
        split_on(s, sep).len() == count_of(s, sep) + 1,
    decreases s.len(),
{
    lemma_first_index_of(s, sep);
    lemma_count_from_first(s, sep);
    let i = first_index_of(s, sep);
    if 0 <= i < s.len() {
        lemma_split_len(s.skip(i + 1), sep);
    }
}

/// A string without a separator is its own single piece, whatever else it
/// holds.
pub proof fn lemma_split_without_separator(s: Seq<char>, sep: char)
    requires
        !s.contains(sep),
    ensures
        split_on(s, sep) == seq![s],
{
    lemma_first_index_of(s, sep);
    let i = first_index_of(s, sep);
    if i < s.len() {
        assert(s.contains(s[i]));
    }
}

/// No piece of a split holds the separator.
pub proof fn lemma_split_free_of_separator(s: Seq<char>, sep: char)
    ensures
        free_of(split_on(s, sep), sep),
    decreases s.len(),
{
    lemma_first_index_of(s, sep);
    let i = first_index_of(s, sep);
    let pieces = split_on(s, sep);
    if 0 <= i < s.len() {
        let rest = split_on(s.skip(i + 1), sep);
        lemma_split_free_of_separator(s.skip(i + 1), sep);
        assert forall|p: int, k: int| 0 <= p < pieces.len() && 0 <= k < pieces[p].len() implies
            #[trigger] pieces[p][k] != sep by {
            if p > 0 {
                assert(pieces[p] == rest[p - 1]);
            }
        }
    }
}

/// Joining the pieces of a split gives the string back: splitting drops
/// nothing but the separators it cut at, adds nothing and keeps the order.
pub proof fn lemma_join_split(s: Seq<char>, sep: char)
    ensures
        join(split_on(s, sep), sep) == s,
    decreases s.len(),
{
    lemma_first_index_of(s, sep);
    let i = first_index_of(s, sep);
    if 0 <= i < s.len() {
        let rest = split_on(s.skip(i + 1), sep);
        let pieces = split_on(s, sep);
        lemma_join_split(s.skip(i + 1), sep);
        lemma_split_nonempty(s.skip(i + 1), sep);
        assert(pieces.drop_first() == rest);
    }
}

/// Splitting a join gives the pieces back, provided there is at least one
/// piece and none of them holds the separator: `split_on` is the only way to
/// cut a string into such pieces.
pub proof fn lemma_split_join(pieces: Seq<Seq<char>>, sep: char)
    requires
        pieces.len() >= 1,
        free_of(pieces, sep),
    ensures
        split_on(join(pieces, sep), sep) == pieces,
    decreases pieces.len(),
{
    let joined = join(pieces, sep);
    let head = pieces[0];
    assert forall|k: int| 0 <= k < head.len() implies head[k] != sep by {
        assert(pieces[0][k] != sep);
    }
    if pieces.len() == 1 {
        lemma_first_index_is(head, sep, head.len() as int);
    } else {
        let rest = pieces.drop_first();
        assert(free_of(rest, sep)) by {
            assert forall|i: int, k: int| 0 <= i < rest.len() && 0 <= k < rest[i].len() implies
                #[trigger] rest[i][k] != sep by {
                assert(rest[i] == pieces[i + 1]);
            }
        }
        lemma_split_join(rest, sep);
        lemma_first_index_is(joined, sep, head.len() as int);
        assert(joined.take(head.len() as int) == head);
        assert(joined.skip(head.len() as int + 1) == join(rest, sep));
    }
}

/// `String::push` of the standard library: the character is appended to the
/// end of the string and nothing else changes.
pub assume_specification[ String::push ](s: &mut String, c: char)
    ensures
        final(s)@ == old(s)@.push(c),
;

/// Cuts `text` at every space.
pub fn tokens(text: &str) -> (out: Vec<String>)
    ensures
        out.deep_view() == split_on(text@, SEPARATOR),
{
    let mut out: Vec<String> = Vec::new();
    let mut current = String::new();
    let ghost start: int = 0;
    assert(text@.skip(0) == text@);
    for c in it: text.chars()
        invariant
            it.seq() == text@,
            0 <= start <= it.index() <= text@.len(),
            current@ == text@.subrange(start, it.index() as int),
            forall|k: int| start <= k < it.index() ==> text@[k] != SEPARATOR,
            split_on(text@, SEPARATOR) == out.deep_view() + split_on(
                text@.skip(start),
                SEPARATOR,
            ),
    {
        let ghost i = it.index() as int;
        let ghost tail = text@.skip(start);
        if c == SEPARATOR {
            proof {
                lemma_first_index_is(tail, SEPARATOR, i - start);
                assert(tail.take(i - start) == current@);
                assert(tail.skip(i - start + 1) == text@.skip(i + 1));
                assert(out.deep_view().push(current@) + split_on(text@.skip(i + 1), SEPARATOR)
                    == out.deep_view() + split_on(tail, SEPARATOR));
            }
            out.push(current);
            current = String::new();
            proof {
                start = i + 1;
            }
        } else {
            current.push(c);
        }
    }
    proof {
        let tail = text@.skip(start);
        lemma_first_index_is(tail, SEPARATOR, tail.len() as int);
    }
    out.push(current);
    out
}

/// A program and the arguments it is spawned with.
#[derive(Debug, PartialEq, Eq)]
pub struct Invocation {
    /// The program, looked up on the executable search path when spawned.
    pub program: String,
    /// The arguments, handed to the program as they stand.
    pub args: Vec<String>,
}

/// What an [`Invocation`] holds, as plain sequences of characters.
pub ghost struct InvocationView {
    pub program: Seq<char>,
    pub args: Seq<Seq<char>>,
}

impl View for Invocation {
    type V = InvocationView;

    open spec fn view(&self) -> InvocationView {
        InvocationView { program: self.program@, args: self.args.deep_view() }
    }
}

impl InvocationView {
    /// The argument vector: the program followed by its arguments.
    pub open spec fn argv(self) -> Seq<Seq<char>> {
        seq![self.program] + self.args
    }
}

/// The invocation that an invocation string spells out: its first piece is
/// the program, the pieces after it are the arguments.
pub open spec fn invocation_of(line: Seq<char>) -> InvocationView {
    let pieces = split_on(line, SEPARATOR);
    InvocationView { program: pieces[0], args: pieces.drop_first() }
}

/// The argument vector of an invocation string is its split, so it holds no
/// space in any entry and, joined by spaces, is the string itself.
pub proof fn lemma_invocation_is_literal(line: Seq<char>)
    ensures
        invocation_of(line).argv() == split_on(line, SEPARATOR),
        free_of(invocation_of(line).argv(), SEPARATOR),
        join(invocation_of(line).argv(), SEPARATOR) == line,
{
    lemma_split_nonempty(line, SEPARATOR);
    lemma_split_free_of_separator(line, SEPARATOR);
    lemma_join_split(line, SEPARATOR);
}

impl Invocation {
    /// Reads an invocation string.
    pub fn parse(line: &str) -> (inv: Invocation)
        ensures
            inv@ == invocation_of(line@),
    {
        let mut pieces = tokens(line);
        let ghost all = pieces.deep_view();
        proof {
            lemma_split_nonempty(line@, SEPARATOR);
        }
        let program = pieces.remove(0);
        assert(pieces.deep_view() == all.drop_first());
        Invocation { program, args: pieces }
    }
}

} // verus!
