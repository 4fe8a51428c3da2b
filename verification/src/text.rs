//! Splitting a line into words, and comparing words.

use vstd::prelude::*;
use vstd::string::*;
use vstd::utf8::*;

verus! {

/// `c` is white space: one of the 25 characters that Unicode gives the
/// property `White_Space`.
pub open spec fn is_space(c: char) -> bool {
    let u = c as u32;
    ||| 0x09 <= u <= 0x0d
    ||| u == 0x20
    ||| u == 0x85
    ||| u == 0xa0
    ||| u == 0x1680
    ||| 0x2000 <= u <= 0x200a
    ||| u == 0x2028
    ||| u == 0x2029
    ||| u == 0x202f
    ||| u == 0x205f
    ||| u == 0x3000
}

/// `word` has at least one character and no white space.
pub open spec fn is_solid(word: Seq<char>) -> bool {
    word.len() > 0 && forall|k: int| 0 <= k < word.len() ==> !is_space(#[trigger] word[k])
}

/// Where the word that starts at `from` ends: the place of the next white
/// space, or the end of the line.
pub open spec fn word_end(s: Seq<char>, from: int) -> int
    decreases s.len() - from,
{
    if 0 <= from < s.len() && !is_space(s[from]) {
        word_end(s, from + 1)
    } else {
        from
    }
}

/// The words of a line from `from` on: white space is skipped, and each
/// word runs up to the next white space.
pub open spec fn words_from(s: Seq<char>, from: int) -> Seq<Seq<char>>
    decreases s.len() - from,
    via words_from_decreases
{
    if from < 0 || from >= s.len() {
        Seq::empty()
    } else if is_space(s[from]) {
        words_from(s, from + 1)
    } else {
        seq![s.subrange(from, word_end(s, from))] + words_from(s, word_end(s, from))
    }
}

#[via_fn]
proof fn words_from_decreases(s: Seq<char>, from: int) {
    if 0 <= from < s.len() && !is_space(s[from]) {
        lemma_word_end(s, from);
    }
}

/// The words of a line: its longest runs of characters that are not white
/// space, in their order.
pub open spec fn words(s: Seq<char>) -> Seq<Seq<char>> {
    words_from(s, 0)
}

/// A word ends behind its start and within the line; it holds no white
/// space, and white space follows it unless the line ends there.
pub proof fn lemma_word_end(s: Seq<char>, from: int)
    requires
        0 <= from <= s.len(),
    ensures
        from <= word_end(s, from) <= s.len(),
        from < s.len() && !is_space(s[from]) ==> from < word_end(s, from),
        forall|k: int| from <= k < word_end(s, from) ==> !is_space(#[trigger] s[k]),
        word_end(s, from) < s.len() ==> is_space(s[word_end(s, from)]),
    decreases s.len() - from,
{
    if from < s.len() && !is_space(s[from]) {
        lemma_word_end(s, from + 1);
    }
}

/// No word is empty, and no word holds white space.
pub proof fn lemma_words_are_solid(s: Seq<char>, from: int)
    requires
        0 <= from <= s.len(),
    ensures
        forall|i: int|
            0 <= i < words_from(s, from).len() ==> is_solid(#[trigger] words_from(s, from)[i]),
    decreases s.len() - from,
{
    if from < s.len() {
        if is_space(s[from]) {
            lemma_words_are_solid(s, from + 1);
            assert(words_from(s, from) == words_from(s, from + 1));
        } else {
            let end = word_end(s, from);
            let word = s.subrange(from, end);
            lemma_word_end(s, from);
            lemma_words_are_solid(s, end);
            assert(is_solid(word)) by {
                assert forall|k: int| 0 <= k < word.len() implies !is_space(#[trigger] word[k]) by {
                    assert(word[k] == s[from + k]);
                }
            }
            assert forall|i: int| 0 <= i < words_from(s, from).len() implies is_solid(
                #[trigger] words_from(s, from)[i],
            ) by {
                if i > 0 {
                    assert(words_from(s, from)[i] == words_from(s, end)[i - 1]);
                }
            }
        }
    }
}

/// What stands before a place has no say in the words from that place
/// on.
proof fn lemma_words_from_shift(before: Seq<char>, s: Seq<char>, from: int)
    requires
        0 <= from <= s.len(),
    ensures
        word_end(before + s, before.len() + from) == before.len() + word_end(s, from),
        words_from(before + s, before.len() + from) == words_from(s, from),
    decreases s.len() - from,
{
    if from < s.len() {
        let end = word_end(s, from);
        lemma_word_end(s, from);
        lemma_words_from_shift(before, s, from + 1);
        if !is_space(s[from]) {
            lemma_words_from_shift(before, s, end);
            assert((before + s).subrange(before.len() + from, before.len() + end) =~= s.subrange(
                from,
                end,
            ));
        }
    }
}

/// Up to a white space, the words of a line are those of the part before
/// it; the words of the part behind it follow.
proof fn lemma_words_from_split(a: Seq<char>, c: char, b: Seq<char>, from: int)
    requires
        is_space(c),
        0 <= from <= a.len(),
    ensures
        from < a.len() ==> word_end(a + seq![c] + b, from) == word_end(a, from),
        words_from(a + seq![c] + b, from) == words_from(a, from) + words(b),
    decreases a.len() - from,
{
    let s = a + seq![c] + b;
    if from == a.len() {
        lemma_words_from_shift(a + seq![c], b, 0);
    } else {
        lemma_words_from_split(a, c, b, from + 1);
        if !is_space(a[from]) {
            let end = word_end(a, from);
            lemma_word_end(a, from);
            assert(word_end(s, from) == word_end(s, from + 1));
            lemma_words_from_split(a, c, b, end);
            assert(s.subrange(from, end) =~= a.subrange(from, end));
        }
    }
}

/// A text without white space is one word, unless it is empty.
pub proof fn lemma_words_of_solid(word: Seq<char>)
    requires
        is_solid(word),
    ensures
        words(word) == seq![word],
{
    let end = word_end(word, 0);
    lemma_word_end(word, 0);
    assert(end == word.len());
    assert(word.subrange(0, end) =~= word);
    assert(words_from(word, end) =~= Seq::empty());
}

/// A white space parts a line: the words of the line are the words
/// before the white space, then the words behind it.
///
/// Together with `lemma_words_of_solid` and the empty line, which has no
/// words, this says what `words` is on every line.
pub proof fn lemma_words_split(a: Seq<char>, c: char, b: Seq<char>)
    requires
        is_space(c),
    ensures
        words(a + seq![c] + b) == words(a) + words(b),
{
    lemma_words_from_split(a, c, b, 0);
}

/// Once the words before `start` are taken, taking the word from `start`
/// to `end` leaves the words from `end` on.
proof fn lemma_take_word(s: Seq<char>, taken: Seq<Seq<char>>, start: int, end: int)
    requires
        0 <= start < end <= s.len(),
        word_end(s, start) == end,
        taken + words_from(s, start) == words(s),
    ensures
        taken.push(s.subrange(start, end)) + words_from(s, end) == words(s),
{
    let word = s.subrange(start, end);
    assert(taken.push(word) + words_from(s, end) =~= taken + (seq![word] + words_from(s, end)));
}

/// Tells whether `c` is white space.
pub fn is_blank(c: char) -> (blank: bool)
    ensures
        blank == is_space(c),
{
    let u = c as u32;
    (0x09 <= u && u <= 0x0d) || u == 0x20 || u == 0x85 || u == 0xa0 || u == 0x1680
        || (0x2000 <= u && u <= 0x200a) || u == 0x2028 || u == 0x2029 || u == 0x202f
        || u == 0x205f || u == 0x3000
}

/// Splits a line into its words.
pub fn tokenize<'a>(line: &'a str) -> (tokens: Vec<&'a str>)
    ensures
        tokens.deep_view() == words(line@),
        forall|i: int| 0 <= i < tokens.len() ==> is_solid(#[trigger] tokens.deep_view()[i]),
{
    proof {
        lemma_words_are_solid(line@, 0);
    }
    let n = line.unicode_len();
    let mut tokens: Vec<&'a str> = Vec::new();
    let mut inside = false;
    let mut start: usize = 0;
    let mut i: usize = 0;
    for c in it: line.chars()
        invariant
            n == line@.len(),
            it.seq() == line@,
            i == it.index(),
            start <= i,
            inside ==> start < i && word_end(line@, start as int) == word_end(line@, i as int),
            tokens.deep_view() + words_from(line@, if inside { start as int } else { i as int })
                == words(line@),
    {
        if is_blank(c) {
            if inside {
                proof {
                    lemma_take_word(line@, tokens.deep_view(), start as int, i as int);
                }
                tokens.push(line.substring_char(start, i));
                inside = false;
            }
        } else if !inside {
            inside = true;
            start = i;
        }
        i += 1;
    }
    if inside {
        proof {
            lemma_take_word(line@, tokens.deep_view(), start as int, i as int);
        }
        tokens.push(line.substring_char(start, i));
    }
    tokens
}

/// Tells whether two pieces of text hold the same characters.
///
/// The comparison runs over the bytes; two texts have the same bytes
/// exactly when they have the same characters.
pub fn same_text(a: &str, b: &str) -> (same: bool)
    ensures
        same == (a@ == b@),
{
    let x = a.as_bytes();
    let y = b.as_bytes();
    if x.len() != y.len() {
        return false;
    }
    let mut i: usize = 0;
    while i < x.len()
        invariant
            x@ == a.spec_bytes(),
            y@ == b.spec_bytes(),
            x.len() == y.len(),
            i <= x.len(),
            forall|j: int| 0 <= j < i ==> x@[j] == y@[j],
        decreases x.len() - i,
    {
        if x[i] != y[i] {
            return false;
        }
        i += 1;
    }
    proof {
        assert(x@ =~= y@);
        encode_utf8_decode_utf8(a@);
        encode_utf8_decode_utf8(b@);
    }
    true
}

} // verus!
