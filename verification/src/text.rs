//! The characters of a protocol line and the words they form.

use vstd::prelude::*;
use vstd::slice::slice_subrange;
use vstd::std_specs::iter::IteratorSpec;

verus! {

/// Whether `c` separates words: the characters with the Unicode property
/// `White_Space`.
pub open spec fn is_space(c: char) -> bool {
    let n = c as u32;
    ||| 0x09 <= n <= 0x0d
    ||| n == 0x20
    ||| n == 0x85
    ||| n == 0xa0
    ||| n == 0x1680
    ||| 0x2000 <= n <= 0x200a
    ||| n == 0x2028
    ||| n == 0x2029
    ||| n == 0x202f
    ||| n == 0x205f
    ||| n == 0x3000
}

/// The words of `s`: its longest runs of characters that are not spaces, from
/// left to right.
///
/// Read from the right: a space ends a word and adds none; any other
/// character lengthens the word that the character before it belongs to, or
/// begins a new word where there is no such character.
pub open spec fn words(s: Seq<char>) -> Seq<Seq<char>>
    decreases s.len(),
{
    if s.len() == 0 {
        Seq::empty()
    } else {
        let front = s.drop_last();
        let before = words(front);
        if is_space(s.last()) {
            before
        } else if front.len() > 0 && !is_space(front.last()) {
            before.drop_last().push(before.last().push(s.last()))
        } else {
            before.push(seq![s.last()])
        }
    }
}

/// Whether `w` can be a word: it is not empty and holds no space.
pub open spec fn is_word(w: Seq<char>) -> bool {
    w.len() > 0 && forall|i: int| 0 <= i < w.len() ==> !is_space(#[trigger] w[i])
}

/// A space after a text adds no word to it.
pub proof fn lemma_words_push_space(s: Seq<char>, c: char)
    requires
        is_space(c),
    ensures
        words(s.push(c)) == words(s),
{
    assert(s.push(c).drop_last() == s);
}

/// A word after a text that is empty or ends in a space is one more word.
pub proof fn lemma_words_add_word(s: Seq<char>, w: Seq<char>)
    requires
        is_word(w),
        s.len() == 0 || is_space(s.last()),
    ensures
        words(s + w) == words(s).push(w),
    decreases w.len(),
{
    let c = w.last();
    let rest = w.drop_last();
    assert((s + w).drop_last() == s + rest);
    if rest.len() == 0 {
        assert(w == seq![c]);
    } else {
        lemma_words_add_word(s, rest);
        assert(rest.push(c) == w);
    }
}

/// A word alone is one word.
pub proof fn lemma_words_of_word(w: Seq<char>)
    requires
        is_word(w),
    ensures
        words(w) == seq![w],
{
    lemma_words_add_word(Seq::empty(), w);
}

/// A space and a word after a text are one more word.
pub proof fn lemma_words_next_word(s: Seq<char>, c: char, w: Seq<char>)
    requires
        is_space(c),
        is_word(w),
    ensures
        words(s.push(c) + w) == words(s).push(w),
{
    lemma_words_push_space(s, c);
    lemma_words_add_word(s.push(c), w);
}

/// Whether `c` separates words.
pub fn is_whitespace(c: char) -> (space: bool)
    ensures
        space == is_space(c),
{
    let n: u32 = c as u32;
    (0x09 <= n && n <= 0x0d) || n == 0x20 || n == 0x85 || n == 0xa0 || n == 0x1680 || (0x2000 <= n
        && n <= 0x200a) || n == 0x2028 || n == 0x2029 || n == 0x202f || n == 0x205f || n == 0x3000
}

/// The characters of `s`, in order.
pub fn chars_of(s: &str) -> (chars: Vec<char>)
    ensures
        chars@ == s@,
{
    let mut chars: Vec<char> = Vec::new();
    for c in iter: s.chars()
        invariant
            iter.seq() == s@,
            chars@ == iter.seq().take(iter.index() as int),
    {
        chars.push(c);
    }
    chars
}

/// A line cut into its words.
pub struct Words {
    chars: Vec<char>,
    spans: Vec<(usize, usize)>,
}

/// The pieces of `chars` that `spans` marks, each from its first index up to
/// its second.
spec fn pieces(chars: Seq<char>, spans: Seq<(usize, usize)>) -> Seq<Seq<char>> {
    Seq::new(spans.len(), |i: int| chars.subrange(spans[i].0 as int, spans[i].1 as int))
}

/// Whether every span of `spans` lies within a text of `len` characters.
spec fn spans_within(spans: Seq<(usize, usize)>, len: nat) -> bool {
    forall|i: int| 0 <= i < spans.len() ==> (#[trigger] spans[i]).0 <= spans[i].1 <= len
}

impl View for Words {
    type V = Seq<Seq<char>>;

    /// The words, in order.
    closed spec fn view(&self) -> Seq<Seq<char>> {
        pieces(self.chars@, self.spans@)
    }
}

impl Words {
    #[verifier::type_invariant]
    spec fn well_formed(&self) -> bool {
        spans_within(self.spans@, self.chars@.len())
    }

    /// Cuts `line` into its words.
    pub fn split(line: &str) -> (cut: Words)
        ensures
            cut@ == words(line@),
    {
        let chars = chars_of(line);
        let mut spans: Vec<(usize, usize)> = Vec::new();
        let mut i: usize = 0;
        while i < chars.len()
            invariant
                i <= chars.len(),
                spans_within(spans@, i as nat),
                pieces(chars@, spans@) == words(chars@.take(i as int)),
                i > 0 && !is_space(chars@[i - 1]) ==> spans.len() > 0 && spans@.last().1 == i,
            decreases chars.len() - i,
        {
            let ghost before = spans@;
            proof {
                assert(chars@.take(i + 1).drop_last() == chars@.take(i as int));
            }
            if !is_whitespace(chars[i]) {
                if i > 0 && !is_whitespace(chars[i - 1]) {
                    let last: usize = spans.len() - 1;
                    let start: usize = spans[last].0;
                    spans.set(last, (start, i + 1));
                    proof {
                        assert(chars@.subrange(start as int, i + 1) == pieces(
                            chars@,
                            before,
                        ).last().push(chars@[i as int]));
                    }
                } else {
                    spans.push((i, i + 1));
                    proof {
                        assert(chars@.subrange(i as int, i + 1) == seq![chars@[i as int]]);
                    }
                }
            }
            i += 1;
        }
        proof {
            assert(chars@.take(i as int) == chars@);
        }
        Words { chars, spans }
    }

    /// The number of words.
    pub fn len(&self) -> (n: usize)
        ensures
            n == self@.len(),
    {
        self.spans.len()
    }

    /// The word at position `i`.
    pub fn word(&self, i: usize) -> (w: &[char])
        requires
            i < self@.len(),
        ensures
            w@ == self@[i as int],
    {
        proof {
            use_type_invariant(self);
        }
        let (start, end) = self.spans[i];
        slice_subrange(self.chars.as_slice(), start, end)
    }
}

} // verus!
