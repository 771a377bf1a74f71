//! Operations on text that the other modules share.

use vstd::prelude::*;
use vstd::string::*;

verus! {

/// Whether two texts hold the same characters.
pub fn same_text(a: &str, b: &str) -> (same: bool)
    ensures
        same == (a@ == b@),
{
    a.to_owned() == b.to_owned()
}

/// What a character becomes when quotes are doubled: two single quotes for
/// a single quote, itself otherwise.
pub open spec fn quote_doubled(c: char) -> Seq<char> {
    if c == '\'' {
        seq!['\'', '\'']
    } else {
        seq![c]
    }
}

/// `s` with every single quote doubled.
pub open spec fn quotes_doubled(s: Seq<char>) -> Seq<char>
    decreases s.len(),
{
    if s.len() == 0 {
        Seq::empty()
    } else {
        quotes_doubled(s.drop_last()) + quote_doubled(s.last())
    }
}

/// Whether a text can stand between single quotes without ending the
/// quotation: every single quote in it is followed by a second one, the two
/// together standing for one quote.
pub open spec fn stays_quoted(text: Seq<char>) -> bool
    decreases text.len(),
{
    if text.len() == 0 {
        true
    } else if text.first() != '\'' {
        stays_quoted(text.drop_first())
    } else {
        text.len() >= 2 && text[1] == '\'' && stays_quoted(text.skip(2))
    }
}

/// The text that a quoted text stands for: each pair of single quotes read
/// as one.
pub open spec fn quotes_halved(text: Seq<char>) -> Seq<char>
    decreases text.len(),
{
    if text.len() == 0 {
        Seq::empty()
    } else if text.first() == '\'' && text.len() >= 2 && text[1] == '\'' {
        seq!['\''] + quotes_halved(text.skip(2))
    } else {
        seq![text.first()] + quotes_halved(text.drop_first())
    }
}

/// Appends one character to a text: `String::push` of the standard library,
/// which puts the character at the end and leaves the rest as it was.
#[verifier::external_body]
fn push_char(text: &mut String, c: char)
    ensures
        final(text)@ == old(text)@.push(c),
{
    text.push(c);
}

/// A copy of `s` with every single quote doubled. Between single quotes the
/// copy stands for `s` and cannot end the quotation, whatever `s` holds: see
/// [`lemma_doubled_quotes_stay_quoted`].
pub fn double_quotes(s: &str) -> (out: String)
    ensures
        out@ == quotes_doubled(s@),
{
    let mut out = String::new();
    for c in it: s.chars()
        invariant
            it.seq() == s@,
            out@ == quotes_doubled(s@.take(it.index())),
    {
        assert(s@.take(it.index() + 1).drop_last() == s@.take(it.index()));
        push_char(&mut out, c);
        if c == '\'' {
            push_char(&mut out, c);
        }
    }
    assert(s@.take(s@.len() as int) == s@);
    out
}

/// Doubling works from the front as it does from the back: the first
/// character is doubled or kept, and the rest follows.
pub proof fn lemma_quotes_doubled_from_front(s: Seq<char>)
    requires
        s.len() > 0,
    ensures
        quotes_doubled(s) == quote_doubled(s.first()) + quotes_doubled(s.drop_first()),
    decreases s.len(),
{
    if s.len() == 1 {
        assert(s.drop_last() =~= Seq::<char>::empty());
        assert(s.drop_first() =~= Seq::<char>::empty());
        assert(quotes_doubled(s) =~= quote_doubled(s.first()) + quotes_doubled(s.drop_first()));
    } else {
        let front = s.drop_last();
        let back = s.drop_first();
        lemma_quotes_doubled_from_front(front);
        assert(front.drop_first() =~= back.drop_last());
        assert(front.first() == s.first());
        assert(back.last() == s.last());
        assert(quotes_doubled(s) =~= quote_doubled(s.first()) + quotes_doubled(back));
    }
}

/// A text with its quotes doubled cannot end a quotation that it stands in,
/// and stands there for the text itself.
pub proof fn lemma_doubled_quotes_stay_quoted(s: Seq<char>)
    ensures
        stays_quoted(quotes_doubled(s)),
        quotes_halved(quotes_doubled(s)) == s,
    decreases s.len(),
{
    if s.len() > 0 {
        let rest = s.drop_first();
        lemma_quotes_doubled_from_front(s);
        lemma_doubled_quotes_stay_quoted(rest);
        let doubled = quotes_doubled(s);
        if s.first() == '\'' {
            assert(doubled.skip(2) =~= quotes_doubled(rest));
            assert(seq!['\''] + rest =~= s);
        } else {
            assert(doubled.drop_first() =~= quotes_doubled(rest));
            assert(seq![s.first()] + rest =~= s);
        }
    }
}

/// Whether a character is white space: what `char::is_whitespace` of the
/// standard library answers, the characters with the Unicode property
/// `White_Space`.
pub uninterp spec fn white_space(c: char) -> bool;

/// Asks `char::is_whitespace` of the standard library, whose answer
/// [`white_space`] names.
#[verifier::external_body]
fn is_white_space(c: char) -> (answer: bool)
    ensures
        answer == white_space(c),
{
    c.is_whitespace()
}

/// `s` from its first character that is not white space on.
pub open spec fn without_leading_space(s: Seq<char>) -> Seq<char>
    decreases s.len(),
{
    if s.len() > 0 && white_space(s.first()) {
        without_leading_space(s.drop_first())
    } else {
        s
    }
}

/// `s` up to its last character that is not white space.
pub open spec fn without_trailing_space(s: Seq<char>) -> Seq<char>
    decreases s.len(),
{
    if s.len() > 0 && white_space(s.last()) {
        without_trailing_space(s.drop_last())
    } else {
        s
    }
}

/// `s` without the white space at its two ends.
pub open spec fn trimmed(s: Seq<char>) -> Seq<char> {
    without_trailing_space(without_leading_space(s))
}

/// Where the first `start` characters of `s` are white space and the next one
/// is not, `s` without leading white space starts there.
proof fn lemma_leading_space(s: Seq<char>, start: int)
    requires
        0 <= start <= s.len(),
        forall|j: int| 0 <= j < start ==> white_space(#[trigger] s[j]),
        start < s.len() ==> !white_space(s[start]),
    ensures
        without_leading_space(s) == s.skip(start),
    decreases start,
{
    if start == 0 {
        assert(s.skip(0) =~= s);
    } else {
        assert(white_space(s[0]));
        let rest = s.drop_first();
        assert forall|j: int| 0 <= j < start - 1 implies white_space(#[trigger] rest[j]) by {
            assert(rest[j] == s[j + 1]);
        }
        lemma_leading_space(rest, start - 1);
        assert(rest.skip(start - 1) =~= s.skip(start));
    }
}

/// Where the characters of `s` from `end` on are white space and the one
/// before `end` is not, `s` without trailing white space ends there.
proof fn lemma_trailing_space(s: Seq<char>, end: int)
    requires
        0 <= end <= s.len(),
        forall|j: int| end <= j < s.len() ==> white_space(#[trigger] s[j]),
        end > 0 ==> !white_space(s[end - 1]),
    ensures
        without_trailing_space(s) == s.take(end),
    decreases s.len() - end,
{
    if end == s.len() {
        assert(s.take(end) =~= s);
    } else {
        assert(white_space(s[s.len() - 1]));
        let rest = s.drop_last();
        assert forall|j: int| end <= j < rest.len() implies white_space(#[trigger] rest[j]) by {
            assert(rest[j] == s[j]);
        }
        lemma_trailing_space(rest, end);
        assert(rest.take(end) =~= s.take(end));
    }
}

/// A copy of `s` without the white space at its two ends.
pub fn trim(s: &str) -> (out: String)
    ensures
        out@ == trimmed(s@),
{
    let length = s.unicode_len();
    let mut start: usize = 0;
    let mut end: usize = 0;
    let mut i: usize = 0;
    for c in it: s.chars()
        invariant
            it.seq() == s@,
            length == s@.len(),
            i == it.index(),
            start <= end <= i,
            end == 0 ==> start == 0,
            forall|j: int| 0 <= j < start ==> white_space(#[trigger] s@[j]),
            forall|j: int| end <= j < i ==> white_space(#[trigger] s@[j]),
            end > 0 ==> !white_space(s@[start as int]) && !white_space(s@[end - 1]),
    {
        if !is_white_space(c) {
            if end == 0 {
                start = i;
            }
            end = i + 1;
        }
        i = i + 1;
    }
    proof {
        let text = s@;
        if end == 0 {
            lemma_leading_space(text, text.len() as int);
            assert(text.skip(text.len() as int) =~= Seq::<char>::empty());
            assert(text.subrange(0, 0) =~= Seq::<char>::empty());
        } else {
            lemma_leading_space(text, start as int);
            let tail = text.skip(start as int);
            assert forall|j: int| end - start <= j < tail.len() implies white_space(
                #[trigger] tail[j],
            ) by {
                assert(tail[j] == text[j + start]);
            }
            lemma_trailing_space(tail, end - start);
            assert(tail.take(end - start) =~= text.subrange(start as int, end as int));
        }
    }
    s.substring_char(start, end).to_string()
}

} // verus!
