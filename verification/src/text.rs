//! Lines as sequences of characters: white space, fields, tokens and the
//! word that ends a session.
//!
//! Every notion is a spec function over `Seq<char>`; the executable
//! functions compute them on `&str` and on slices of characters.

use vstd::prelude::*;

verus! {

/// White space: the characters that Unicode marks as `White_Space`.
pub open spec fn white_space(c: char) -> bool {
    ||| '\u{9}' <= c <= '\u{d}'
    ||| c == ' '
    ||| c == '\u{85}'
    ||| c == '\u{a0}'
    ||| c == '\u{1680}'
    ||| '\u{2000}' <= c <= '\u{200a}'
    ||| c == '\u{2028}'
    ||| c == '\u{2029}'
    ||| c == '\u{202f}'
    ||| c == '\u{205f}'
    ||| c == '\u{3000}'
}

/// `s` without the white space at its end.
pub open spec fn trim_end(s: Seq<char>) -> Seq<char>
    decreases s.len(),
{
    if s.len() > 0 && white_space(s.last()) {
        trim_end(s.drop_last())
    } else {
        s
    }
}

/// The fields of `s`: the stretches of characters between its spaces.
///
/// A text with `n` spaces has `n + 1` fields; two spaces in a row, or a space
/// at either end, bound an empty field. Read from the left: a space closes
/// the last field and opens an empty one, any other character joins the last
/// field.
pub open spec fn split(s: Seq<char>) -> Seq<Seq<char>>
    decreases s.len(),
{
    if s.len() == 0 {
        seq![Seq::<char>::empty()]
    } else {
        let before = split(s.drop_last());
        if s.last() == ' ' {
            before.push(Seq::<char>::empty())
        } else {
            before.drop_last().push(before.last().push(s.last()))
        }
    }
}

/// The tokens of a line: its fields, each without the white space at its end.
pub open spec fn tokens(s: Seq<char>) -> Seq<Seq<char>> {
    Seq::new(split(s).len(), |k: int| trim_end(split(s)[k]))
}

/// The three characters `end` stand in `s` from position `i` on.
pub open spec fn end_at(s: Seq<char>, i: int) -> bool {
    &&& 0 <= i
    &&& i + 3 <= s.len()
    &&& s[i] == 'e'
    &&& s[i + 1] == 'n'
    &&& s[i + 2] == 'd'
}

/// `s` holds the word `end` somewhere, as a word of its own or inside another.
pub open spec fn has_end(s: Seq<char>) -> bool {
    exists|i: int| end_at(s, i)
}

/// A stretch of a text, by the positions of its first character and of the
/// character after its last.
#[derive(Clone, Copy, Debug, PartialEq, Eq, Structural)]
pub struct Span {
    pub start: usize,
    pub end: usize,
}

impl Span {
    /// The span lies inside `s`.
    pub open spec fn within(self, s: Seq<char>) -> bool {
        self.start <= self.end <= s.len()
    }

    /// The characters of `s` that the span covers.
    pub open spec fn of(self, s: Seq<char>) -> Seq<char> {
        s.subrange(self.start as int, self.end as int)
    }
}

/// Tells whether `c` is white space.
pub fn is_white_space(c: char) -> (r: bool)
    ensures
        r == white_space(c),
{
    match c {
        '\u{9}'..='\u{d}' | ' ' | '\u{85}' | '\u{a0}' | '\u{1680}' => true,
        '\u{2000}'..='\u{200a}' | '\u{2028}' | '\u{2029}' | '\u{202f}' => true,
        '\u{205f}' | '\u{3000}' => true,
        _ => false,
    }
}

/// The characters of `s`, in order.
pub fn chars_of(s: &str) -> (chars: Vec<char>)
    ensures
        chars@ == s@,
{
    let mut chars: Vec<char> = Vec::new();
    let source = s.chars();
    for c in it: source
        invariant
            it.seq() == s@,
            chars@ == s@.take(it.index()),
    {
        chars.push(c);
    }
    chars
}

/// Tells whether the word `end` stands somewhere in `chars`.
pub fn contains_end(chars: &[char]) -> (r: bool)
    ensures
        r == has_end(chars@),
{
    let n = chars.len();
    if n < 3 {
        return false;
    }
    let mut i: usize = 0;
    while i + 2 < n
        invariant
            n == chars@.len(),
            3 <= n,
            i + 2 <= n,
            forall|j: int| 0 <= j < i ==> !end_at(chars@, j),
        decreases n - i,
    {
        if chars[i] == 'e' && chars[i + 1] == 'n' && chars[i + 2] == 'd' {
            assert(end_at(chars@, i as int));
            return true;
        }
        i += 1;
    }
    false
}

/// The end of the stretch from `start` to `end` once the white space before
/// `end` is left out.
fn trimmed_end(chars: &[char], start: usize, end: usize) -> (e: usize)
    requires
        start <= end <= chars@.len(),
    ensures
        start <= e <= end,
        chars@.subrange(start as int, e as int) == trim_end(
            chars@.subrange(start as int, end as int),
        ),
{
    let mut e = end;
    while e > start && is_white_space(chars[e - 1])
        invariant
            start <= e <= end <= chars@.len(),
            trim_end(chars@.subrange(start as int, e as int)) == trim_end(
                chars@.subrange(start as int, end as int),
            ),
        decreases e,
    {
        assert(chars@.subrange(start as int, e as int).drop_last() == chars@.subrange(
            start as int,
            e - 1,
        ));
        e -= 1;
    }
    e
}

/// Finds the tokens of a line: one span for each, in order, covering the
/// token's characters in `chars`.
pub fn token_spans(chars: &[char]) -> (spans: Vec<Span>)
    ensures
        spans@.len() == tokens(chars@).len(),
        forall|k: int|
            0 <= k < spans@.len() ==> (#[trigger] spans@[k]).within(chars@) && spans@[k].of(
                chars@,
            ) == tokens(chars@)[k],
{
    let n = chars.len();
    let mut spans: Vec<Span> = Vec::new();
    let mut start: usize = 0;
    let mut i: usize = 0;
    while i < n
        invariant
            n == chars@.len(),
            start <= i <= n,
            split(chars@.take(i as int)).len() == spans@.len() + 1,
            split(chars@.take(i as int)).last() == chars@.subrange(start as int, i as int),
            forall|k: int|
                0 <= k < spans@.len() ==> (#[trigger] spans@[k]).within(chars@) && spans@[k].of(
                    chars@,
                ) == trim_end(split(chars@.take(i as int))[k]),
        decreases n - i,
    {
        assert(chars@.take(i + 1).drop_last() == chars@.take(i as int));
        if chars[i] == ' ' {
            let end = trimmed_end(chars, start, i);
            spans.push(Span { start, end });
            start = i + 1;
        }
        i += 1;
    }
    assert(chars@.take(n as int) == chars@);
    let end = trimmed_end(chars, start, n);
    spans.push(Span { start, end });
    spans
}

} // verus!
