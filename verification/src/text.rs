//! Words, spaces and letter case.
//!
//! Messages are cut at every single space, so two spaces in a row enclose an
//! empty word and nothing is trimmed. Answers are compared letter by letter
//! with the ASCII capitals folded to small letters.

use vstd::prelude::*;
use vstd::string::*;

verus! {

/// Position of the first space in `s`, or `s.len()` when it holds none.
pub open spec fn first_space(s: Seq<char>) -> int
    decreases s.len(),
{
    if s.len() == 0 || s[0] == ' ' {
        0
    } else {
        1 + first_space(s.drop_first())
    }
}

/// The words of `s`: the pieces between single spaces, in order.
///
/// There is always at least one word; the empty text has one empty word.
pub open spec fn words(s: Seq<char>) -> Seq<Seq<char>>
    decreases s.len(),
{
    let cut = first_space(s);
    if 0 <= cut < s.len() {
        seq![s.take(cut)] + words(s.skip(cut + 1))
    } else {
        seq![s]
    }
}

/// The words of `ws` written out with one space between neighbours.
pub open spec fn joined(ws: Seq<Seq<char>>) -> Seq<char>
    decreases ws.len(),
{
    if ws.len() == 0 {
        Seq::empty()
    } else if ws.len() == 1 {
        ws[0]
    } else {
        joined(ws.drop_last()) + seq![' '] + ws.last()
    }
}

/// `first_space` is the one position that holds a space and has none before it.
pub proof fn lemma_first_space(s: Seq<char>, cut: int)
    requires
        0 <= cut <= s.len(),
        forall|k: int| 0 <= k < cut ==> s[k] != ' ',
        cut < s.len() ==> s[cut] == ' ',
    ensures
        first_space(s) == cut,
    decreases s.len(),
{
    if cut > 0 {
        let rest = s.drop_first();
        assert forall|k: int| 0 <= k < cut - 1 implies rest[k] != ' ' by {
            assert(rest[k] == s[k + 1]);
        }
        lemma_first_space(rest, cut - 1);
    }
}

/// `first_space` stays inside the text, and nothing before it is a space.
pub proof fn lemma_first_space_bounds(s: Seq<char>)
    ensures
        0 <= first_space(s) <= s.len(),
        forall|k: int| 0 <= k < first_space(s) ==> s[k] != ' ',
        first_space(s) < s.len() ==> s[first_space(s)] == ' ',
    decreases s.len(),
{
    if !(s.len() == 0 || s[0] == ' ') {
        let rest = s.drop_first();
        lemma_first_space_bounds(rest);
        assert forall|k: int| 0 <= k < first_space(s) implies s[k] != ' ' by {
            if k > 0 {
                assert(s[k] == rest[k - 1]);
            }
        }
    }
}

/// Splits `text` at every single space.
pub fn split_words(text: &str) -> (out: Vec<String>)
    ensures
        out.deep_view() == words(text@),
{
    let n = text.unicode_len();
    let mut out: Vec<String> = Vec::new();
    let mut start: usize = 0;
    let mut i: usize = 0;
    proof {
        assert(text@.skip(0) == text@);
        assert(out.deep_view() == Seq::<Seq<char>>::empty());
    }
    while i < n
        invariant
            n == text@.len(),
            start <= i <= n,
            forall|k: int| start <= k < i ==> text@[k] != ' ',
            words(text@) == out.deep_view() + words(text@.skip(start as int)),
        decreases n - i,
    {
        if text.get_char(i) == ' ' {
            let word = text.substring_char(start, i).to_owned();
            proof {
                let rest = text@.skip(start as int);
                lemma_first_space(rest, i - start);
                assert(rest.take(i - start) == text@.subrange(start as int, i as int));
                assert(rest.skip(i - start + 1) == text@.skip(i + 1));
                let before = out.deep_view();
                assert(before.push(word@) == before + seq![word@]);
            }
            let ghost before = out.deep_view();
            out.push(word);
            proof {
                assert(out.deep_view() == before.push(word@));
            }
            start = i + 1;
        }
        i += 1;
    }
    let word = text.substring_char(start, n).to_owned();
    proof {
        let rest = text@.skip(start as int);
        lemma_first_space(rest, n - start);
        assert(rest == text@.subrange(start as int, n as int));
    }
    let ghost before = out.deep_view();
    out.push(word);
    proof {
        assert(out.deep_view() == before.push(word@));
        assert(before.push(word@) == before + seq![word@]);
    }
    out
}

/// Writes the words from position `from` on with one space between neighbours.
pub fn join_words(words: &Vec<String>, from: usize) -> (text: String)
    requires
        from <= words.len(),
    ensures
        text@ == joined(words.deep_view().skip(from as int)),
{
    let ghost all = words.deep_view();
    let mut text = String::new();
    let mut i: usize = from;
    proof {
        reveal_strlit(" ");
        assert(all.subrange(from as int, from as int) == Seq::<Seq<char>>::empty());
    }
    while i < words.len()
        invariant
            from <= i <= words.len(),
            all == words.deep_view(),
            " "@ == seq![' '],
            text@ == joined(all.subrange(from as int, i as int)),
        decreases words.len() - i,
    {
        if i > from {
            text.append(" ");
        }
        text.append(words[i].as_str());
        proof {
            let longer = all.subrange(from as int, i + 1);
            assert(longer.drop_last() == all.subrange(from as int, i as int));
            assert(longer.last() == words[i as int]@);
        }
        i += 1;
    }
    proof {
        assert(all.subrange(from as int, i as int) == all.skip(from as int));
    }
    text
}

/// A word put in front of others is written first, with a space after it.
pub proof fn lemma_joined_prepend(word: Seq<char>, rest: Seq<Seq<char>>)
    requires
        rest.len() > 0,
    ensures
        joined(seq![word] + rest) == word + seq![' '] + joined(rest),
    decreases rest.len(),
{
    let all = seq![word] + rest;
    let space = seq![' '];
    assert(all.last() == rest.last());
    assert(joined(all) == joined(all.drop_last()) + space + rest.last());
    if rest.len() == 1 {
        assert(all.drop_last() == seq![word]);
        assert(joined(seq![word]) == word);
        assert(joined(rest) == rest.last());
    } else {
        let front = rest.drop_last();
        assert(all.drop_last() == seq![word] + front);
        lemma_joined_prepend(word, front);
        assert(joined(rest) == joined(front) + space + rest.last());
        assert((word + space + joined(front)) + space + rest.last() == word + space + (joined(
            front,
        ) + space + rest.last()));
    }
}

/// A text always has a first word.
pub proof fn lemma_words_nonempty(s: Seq<char>)
    ensures
        words(s).len() >= 1,
    decreases s.len(),
{
    let cut = first_space(s);
    if 0 <= cut < s.len() {
        lemma_words_nonempty(s.skip(cut + 1));
    }
}

/// Cutting a text into words and joining them again gives the text back.
pub proof fn lemma_join_split(s: Seq<char>)
    ensures
        joined(words(s)) == s,
    decreases s.len(),
{
    let cut = first_space(s);
    if 0 <= cut < s.len() {
        let rest = s.skip(cut + 1);
        lemma_join_split(rest);
        lemma_words_nonempty(rest);
        lemma_joined_prepend(s.take(cut), words(rest));
        lemma_first_space_bounds(s);
        assert(s.take(cut) + seq![' '] + rest == s);
    }
}

/// The small letter for an ASCII capital; every other character is itself.
pub open spec fn lower(c: char) -> char {
    if 'A' <= c <= 'Z' {
        ((c as u8) + 32) as char
    } else {
        c
    }
}

/// `s` with its ASCII capitals replaced by small letters.
pub open spec fn lowercase(s: Seq<char>) -> Seq<char> {
    Seq::new(s.len(), |i: int| lower(s[i]))
}

/// Calls `str::to_ascii_lowercase`.
///
/// Trusted: the result has the characters of `s` in order, with `'A'..='Z'`
/// mapped to `'a'..='z'` and everything else, non-ASCII letters included,
/// unchanged, as the standard library documents.
#[verifier::external_body]
pub(crate) fn ascii_lowercase(s: &str) -> (low: String)
    ensures
        low@ == lowercase(s@),
{
    s.to_ascii_lowercase()
}

/// Whether two texts are equal once ASCII letter case is set aside.
pub fn same_ignoring_case(a: &str, b: &str) -> (same: bool)
    ensures
        same == (lowercase(a@) == lowercase(b@)),
{
    ascii_lowercase(a) == ascii_lowercase(b)
}

/// Whether two texts hold the same characters.
pub fn same_text(a: &str, b: &str) -> (same: bool)
    ensures
        same == (a@ == b@),
{
    a.to_owned() == b.to_owned()
}

/// Folding case twice is folding it once.
pub proof fn lemma_lowercase_idempotent(s: Seq<char>)
    ensures
        lowercase(lowercase(s)) == lowercase(s),
{
    assert forall|i: int| 0 <= i < s.len() implies lower(lower(s[i])) == lower(s[i]) by {
        let c = s[i];
        if 'A' <= c <= 'Z' {
            assert(!('A' <= lower(c) <= 'Z'));
        }
    }
    assert(lowercase(lowercase(s)) =~= lowercase(s));
}

} // verus!
