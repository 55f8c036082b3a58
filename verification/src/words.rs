//! Splitting an input line into words on runs of whitespace.

use vstd::prelude::*;

verus! {

/// Whether `c` is whitespace: a character with the Unicode property
/// `White_Space`.
pub open spec fn is_whitespace(c: char) -> bool {
    let n = c as u32;
    ||| 0x09 <= n <= 0x0D
    ||| n == 0x20
    ||| n == 0x85
    ||| n == 0xA0
    ||| n == 0x1680
    ||| 0x2000 <= n <= 0x200A
    ||| n == 0x2028
    ||| n == 0x2029
    ||| n == 0x202F
    ||| n == 0x205F
    ||| n == 0x3000
}

/// Decides [`is_whitespace`].
pub fn char_is_whitespace(c: char) -> (r: bool)
    ensures
        r == is_whitespace(c),
{
    let n: u32 = c as u32;
    (0x09 <= n && n <= 0x0D) || n == 0x20 || n == 0x85 || n == 0xA0 || n == 0x1680 || (0x2000 <= n
        && n <= 0x200A) || n == 0x2028 || n == 0x2029 || n == 0x202F || n == 0x205F || n == 0x3000
}

/// The length of the longest prefix of `s` that holds no whitespace.
pub open spec fn word_len(s: Seq<char>) -> nat
    decreases s.len(),
{
    if s.len() == 0 || is_whitespace(s[0]) {
        0
    } else {
        1 + word_len(s.drop_first())
    }
}

/// The words of `s`: its maximal runs of characters that are not
/// whitespace, in order.
pub open spec fn words(s: Seq<char>) -> Seq<Seq<char>>
    decreases s.len(),
{
    if s.len() == 0 {
        Seq::empty()
    } else if is_whitespace(s[0]) {
        words(s.drop_first())
    } else {
        let n = word_len(s) as int;
        if 0 < n <= s.len() {
            seq![s.take(n)] + words(s.skip(n))
        } else {
            Seq::empty()
        }
    }
}

/// A word's length never exceeds what is left of the line, and is positive
/// where the line starts with a character that is not whitespace.
pub proof fn lemma_word_len_bounds(s: Seq<char>)
    ensures
        word_len(s) <= s.len(),
        s.len() > 0 && !is_whitespace(s[0]) ==> word_len(s) > 0,
        forall|k: int| 0 <= k < word_len(s) ==> !is_whitespace(#[trigger] s[k]),
        word_len(s) < s.len() ==> is_whitespace(s[word_len(s) as int]),
    decreases s.len(),
{
    if s.len() > 0 && !is_whitespace(s[0]) {
        let rest = s.drop_first();
        lemma_word_len_bounds(rest);
        assert forall|k: int| 0 <= k < word_len(s) implies !is_whitespace(#[trigger] s[k]) by {
            if k > 0 {
                assert(s[k] == rest[k - 1]);
            }
        }
    }
}

/// A run without whitespace that ends at the line's end or at a whitespace
/// character is the word that starts there.
pub proof fn lemma_word_len_is(s: Seq<char>, n: int)
    requires
        0 <= n <= s.len(),
        forall|k: int| 0 <= k < n ==> !is_whitespace(#[trigger] s[k]),
        n < s.len() ==> is_whitespace(s[n]),
    ensures
        word_len(s) == n,
    decreases n,
{
    if n > 0 {
        let rest = s.drop_first();
        assert forall|k: int| 0 <= k < n - 1 implies !is_whitespace(#[trigger] rest[k]) by {}
        lemma_word_len_is(rest, n - 1);
    }
}

/// Whether `w` can be a word: it is non-empty and holds no whitespace.
pub open spec fn is_word(w: Seq<char>) -> bool {
    &&& w.len() > 0
    &&& forall|k: int| 0 <= k < w.len() ==> !is_whitespace(#[trigger] w[k])
}

/// Every word that [`words`] yields is non-empty and free of whitespace.
pub proof fn lemma_words_are_words(s: Seq<char>)
    ensures
        forall|i: int| 0 <= i < words(s).len() ==> is_word(#[trigger] words(s)[i]),
    decreases s.len(),
{
    if s.len() == 0 {
    } else if is_whitespace(s[0]) {
        lemma_words_are_words(s.drop_first());
        assert(words(s) == words(s.drop_first()));
    } else {
        lemma_word_len_bounds(s);
        let n = word_len(s) as int;
        lemma_words_are_words(s.skip(n));
        let tail = words(s.skip(n));
        assert forall|i: int| 0 <= i < words(s).len() implies is_word(#[trigger] words(s)[i]) by {
            if i > 0 {
                assert(words(s)[i] == tail[i - 1]);
            }
        }
    }
}

/// A word at the start of a line, followed by nothing or by whitespace, is
/// the line's first word.
pub proof fn lemma_words_first(w: Seq<char>, rest: Seq<char>)
    requires
        is_word(w),
        rest.len() > 0 ==> is_whitespace(rest[0]),
    ensures
        words(w + rest) == seq![w] + words(rest),
{
    let s = w + rest;
    let n = w.len() as int;
    assert forall|k: int| 0 <= k < n implies !is_whitespace(#[trigger] s[k]) by {}
    lemma_word_len_is(s, n);
    assert(s.take(n) == w);
    assert(s.skip(n) == rest);
}

/// A word appended to a line after one whitespace character becomes the
/// line's last word, and the words before it stay as they were.
pub proof fn lemma_words_push(x: Seq<char>, c: char, w: Seq<char>)
    requires
        is_whitespace(c),
        is_word(w),
    ensures
        words(x + seq![c] + w) == words(x).push(w),
    decreases x.len(),
{
    let s = x + seq![c] + w;
    if x.len() == 0 {
        assert(s.drop_first() == w);
        lemma_words_first(w, Seq::empty());
    } else if is_whitespace(x[0]) {
        let rest = x.drop_first();
        assert(s.drop_first() == rest + seq![c] + w);
        lemma_words_push(rest, c, w);
    } else {
        lemma_word_len_bounds(x);
        let n = word_len(x) as int;
        assert forall|k: int| 0 <= k < n implies !is_whitespace(#[trigger] s[k]) by {}
        lemma_word_len_is(s, n);
        assert(s.take(n) == x.take(n));
        assert(s.skip(n) == x.skip(n) + seq![c] + w);
        lemma_words_push(x.skip(n), c, w);
    }
}

/// The characters of `s`, for access by position.
pub fn chars_of(s: &str) -> (chars: Vec<char>)
    ensures
        chars@ == s@,
{
    let mut chars: Vec<char> = Vec::new();
    for c in it: s.chars()
        invariant
            chars@ == it.seq().take(it.index()),
    {
        chars.push(c);
    }
    chars
}

/// Splits `line` into its words. Leading and trailing whitespace yields no
/// word, so a blank line has none.
pub fn split_words<'a>(line: &'a str) -> (found: Vec<&'a str>)
    ensures
        found.deep_view() == words(line@),
{
    let chars = chars_of(line);
    let mut found: Vec<&'a str> = Vec::new();
    let mut i: usize = 0;
    assert(line@.skip(0) == line@);
    while i < chars.len()
        invariant
            chars@ == line@,
            i <= chars.len(),
            found.deep_view() + words(line@.skip(i as int)) == words(line@),
        decreases chars.len() - i,
    {
        let ghost rest = line@.skip(i as int);
        if char_is_whitespace(chars[i]) {
            assert(rest.drop_first() == line@.skip(i + 1));
            i += 1;
        } else {
            let mut j: usize = i + 1;
            while j < chars.len() && !char_is_whitespace(chars[j])
                invariant
                    chars@ == line@,
                    i < j <= chars.len(),
                    forall|k: int| i <= k < j ==> !is_whitespace(#[trigger] chars[k]),
                decreases chars.len() - j,
            {
                j += 1;
            }
            let word = line.substring_char(i, j);
            proof {
                let n = j - i;
                assert forall|k: int| 0 <= k < n implies !is_whitespace(#[trigger] rest[k]) by {}
                lemma_word_len_is(rest, n);
                assert(rest.take(n) == line@.subrange(i as int, j as int));
                assert(rest.skip(n) == line@.skip(j as int));
            }
            found.push(word);
            i = j;
        }
    }
    found
}

} // verus!
