//! Helpers on text: comparison, joining and splitting into words.

use vstd::prelude::*;
use vstd::string::{StrSliceExecFns, StringExecFns};
use vstd::utf8::{encode_utf8, encode_utf8_decode_utf8};

verus! {

/// The view of an optional string slice.
pub open spec fn text_of(s: Option<&str>) -> Option<Seq<char>> {
    match s {
        Some(s) => Some(s@),
        None => None,
    }
}

/// The view of an optional string.
pub open spec fn view_of(s: Option<String>) -> Option<Seq<char>> {
    match s {
        Some(s) => Some(s@),
        None => None,
    }
}

/// The characters of each string, in order.
pub open spec fn texts_of(strings: Seq<String>) -> Seq<Seq<char>> {
    Seq::new(strings.len(), |i: int| strings[i]@)
}

/// Whether two string slices hold the same characters.
pub fn same_text(a: &str, b: &str) -> (same: bool)
    ensures
        same == (a@ == b@),
{
    let x = a.as_bytes();
    let y = b.as_bytes();
    proof {
        encode_utf8_decode_utf8(a@);
        encode_utf8_decode_utf8(b@);
    }
    if x.len() != y.len() {
        return false;
    }
    let mut i: usize = 0;
    while i < x.len()
        invariant
            i <= x@.len(),
            x@.len() == y@.len(),
            x@ == encode_utf8(a@),
            y@ == encode_utf8(b@),
            forall|k: int| 0 <= k < i ==> x@[k] == y@[k],
        decreases x@.len() - i,
    {
        if x[i] != y[i] {
            return false;
        }
        i = i + 1;
    }
    assert(x@ =~= y@);
    true
}

/// `a`, `b` and `c` joined in this order.
pub fn join3(a: &str, b: &str, c: &str) -> (joined: String)
    ensures
        joined@ == a@ + b@ + c@,
{
    let mut joined = a.to_owned();
    joined.append(b);
    joined.append(c);
    joined
}

/// Whether `c` separates words: whether it has Unicode's White_Space
/// property, as std's `char::is_whitespace` tells it.
pub uninterp spec fn is_white_space(c: char) -> bool;

/// Asks std's `char::is_whitespace`. Not proved: that the answer is
/// `is_white_space` of the character, which is to say that it depends on the
/// character alone.
#[verifier::external_body]
pub(crate) fn is_space(c: char) -> (space: bool)
    ensures
        space == is_white_space(c),
{
    c.is_whitespace()
}

/// The word `pending`, if it has a character.
pub open spec fn finished(pending: Seq<char>) -> Seq<Seq<char>> {
    if pending.len() == 0 {
        Seq::empty()
    } else {
        seq![pending]
    }
}

/// The words of `pending` followed by `s`, where `pending` holds no
/// separator: reading `s` from the left, a separator ends the word read so
/// far, and any other character extends it.
pub open spec fn words_after(pending: Seq<char>, s: Seq<char>) -> Seq<Seq<char>>
    decreases s.len(),
{
    if s.len() == 0 {
        finished(pending)
    } else if is_white_space(s[0]) {
        finished(pending) + words_after(Seq::empty(), s.skip(1))
    } else {
        words_after(pending.push(s[0]), s.skip(1))
    }
}

/// The words of `s`: its longest stretches without a separator, in order.
pub open spec fn words_of(s: Seq<char>) -> Seq<Seq<char>> {
    words_after(Seq::empty(), s)
}

/// `word` has a character, and none of its characters is a separator.
pub open spec fn is_word(word: Seq<char>) -> bool {
    &&& word.len() > 0
    &&& forall|k: int| 0 <= k < word.len() ==> !is_white_space(#[trigger] word[k])
}

/// Every word that `words_after` yields is a word, provided the word read so
/// far holds no separator.
pub proof fn lemma_words_after_are_words(pending: Seq<char>, s: Seq<char>, i: int)
    requires
        forall|k: int| 0 <= k < pending.len() ==> !is_white_space(#[trigger] pending[k]),
        0 <= i < words_after(pending, s).len(),
    ensures
        is_word(words_after(pending, s)[i]),
    decreases s.len(),
{
    if s.len() == 0 {
    } else if is_white_space(s[0]) {
        let head = finished(pending);
        if i >= head.len() {
            lemma_words_after_are_words(Seq::empty(), s.skip(1), i - head.len());
        }
    } else {
        lemma_words_after_are_words(pending.push(s[0]), s.skip(1), i);
    }
}

/// Every one of the words of a text has a character and holds no separator.
pub proof fn lemma_words_are_words(s: Seq<char>, i: int)
    requires
        0 <= i < words_of(s).len(),
    ensures
        is_word(words_of(s)[i]),
{
    lemma_words_after_are_words(Seq::empty(), s, i);
}

/// Splits `text` into its words.
pub fn split_words(text: &str) -> (words: Vec<String>)
    ensures
        texts_of(words@) == words_of(text@),
{
    let n: usize = text.unicode_len();
    let mut words: Vec<String> = Vec::new();
    let mut start: usize = 0;
    let mut i: usize = 0;
    assert(text@.skip(0) =~= text@);
    assert(text@.subrange(0, 0) =~= Seq::<char>::empty());
    assert(texts_of(words@) =~= Seq::<Seq<char>>::empty());
    while i < n
        invariant
            n == text@.len(),
            start <= i <= n,
            texts_of(words@) + words_after(
                text@.subrange(start as int, i as int),
                text@.skip(i as int),
            ) =~= words_of(text@),
        decreases n - i,
    {
        let ghost pending = text@.subrange(start as int, i as int);
        let ghost rest = text@.skip(i as int);
        let ghost before = words@;
        assert(rest.skip(1) =~= text@.skip(i + 1));
        assert(rest[0] == text@[i as int]);
        let c = text.get_char(i);
        if is_space(c) {
            if start < i {
                words.push(text.substring_char(start, i).to_owned());
                assert(texts_of(words@) =~= texts_of(before) + seq![pending]);
            }
            assert(texts_of(words@) =~= texts_of(before) + finished(pending));
            start = i + 1;
            assert(text@.subrange(start as int, i + 1) =~= Seq::<char>::empty());
        } else {
            assert(pending.push(rest[0]) =~= text@.subrange(start as int, i + 1));
        }
        i = i + 1;
    }
    let ghost before = words@;
    let ghost pending = text@.subrange(start as int, i as int);
    if start < i {
        words.push(text.substring_char(start, i).to_owned());
        assert(texts_of(words@) =~= texts_of(before) + seq![pending]);
    }
    assert(texts_of(words@) =~= texts_of(before) + finished(pending));
    words
}

} // verus!
