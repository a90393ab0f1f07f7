//! Text operations of the completion engine, each with its meaning on
//! sequences of characters.

use std::sync::Arc;
use vstd::prelude::*;
use vstd::utf8::*;

verus! {

/// `String::push` appends one character to the end of the string.
pub assume_specification[ String::push ](s: &mut String, c: char)
    ensures
        final(s)@ == old(s)@.push(c),
;

/// The character that separates the components of a path.
pub open spec fn path_separator() -> char {
    '/'
}

/// Position of the first character of `text` that is one of `separators`;
/// the length of `text` where it holds none.
pub open spec fn first_separator(text: Seq<char>, separators: Seq<char>) -> int
    decreases text.len(),
{
    if text.len() == 0 || separators.contains(text[0]) {
        0
    } else {
        1 + first_separator(text.drop_first(), separators)
    }
}

/// The words of `text`: the stretch before the first separator, then the
/// words of what follows that separator. A text without separator is one
/// word, also where it is empty, and two separators in a row enclose an
/// empty word.
pub open spec fn split_words(text: Seq<char>, separators: Seq<char>) -> Seq<Seq<char>>
    decreases text.len(),
{
    let cut = first_separator(text, separators);
    if 0 <= cut < text.len() {
        seq![text.take(cut)] + split_words(text.skip(cut + 1), separators)
    } else {
        seq![text]
    }
}

/// `first_separator` is where the first separator stands.
pub proof fn lemma_first_separator(text: Seq<char>, separators: Seq<char>, at: int)
    requires
        0 <= at <= text.len(),
        forall|i: int| 0 <= i < at ==> !separators.contains(#[trigger] text[i]),
        at < text.len() ==> separators.contains(text[at]),
    ensures
        first_separator(text, separators) == at,
    decreases text.len(),
{
    if at > 0 {
        lemma_first_separator(text.drop_first(), separators, at - 1);
    }
}

/// No separator stands before `first_separator`, and one stands there unless
/// the text holds none.
pub proof fn lemma_first_separator_bounds(text: Seq<char>, separators: Seq<char>)
    ensures
        0 <= first_separator(text, separators) <= text.len(),
        forall|i: int|
            0 <= i < first_separator(text, separators) ==> !separators.contains(#[trigger] text[i]),
        first_separator(text, separators) < text.len() ==> separators.contains(
            text[first_separator(text, separators)],
        ),
    decreases text.len(),
{
    if text.len() > 0 && !separators.contains(text[0]) {
        let rest = text.drop_first();
        lemma_first_separator_bounds(rest, separators);
        assert forall|i: int| 0 <= i < first_separator(text, separators) implies !separators.contains(
            #[trigger] text[i],
        ) by {
            if i > 0 {
                assert(text[i] == rest[i - 1]);
            }
        }
    }
}

/// A text without separator is one word.
pub proof fn lemma_split_words_single(text: Seq<char>, separators: Seq<char>)
    requires
        forall|i: int| 0 <= i < text.len() ==> !separators.contains(#[trigger] text[i]),
    ensures
        split_words(text, separators) == seq![text],
{
    lemma_first_separator(text, separators, text.len() as int);
}

/// The words of a text with a separator in it are the words before that
/// separator, then the words behind it.
pub proof fn lemma_split_words_at_separator(
    before: Seq<char>,
    separator: char,
    behind: Seq<char>,
    separators: Seq<char>,
)
    requires
        separators.contains(separator),
    ensures
        split_words(before + seq![separator] + behind, separators) == split_words(
            before,
            separators,
        ) + split_words(behind, separators),
    decreases before.len(),
{
    let text = before + seq![separator] + behind;
    let cut = first_separator(before, separators);
    lemma_first_separator_bounds(before, separators);
    assert forall|i: int| 0 <= i < cut implies !separators.contains(#[trigger] text[i]) by {
    }
    lemma_first_separator(text, separators, cut);
    assert(text.take(cut) =~= before.take(cut));
    if cut < before.len() {
        assert(text.skip(cut + 1) =~= before.skip(cut + 1) + seq![separator] + behind);
        lemma_split_words_at_separator(before.skip(cut + 1), separator, behind, separators);
    } else {
        assert(text.skip(cut + 1) =~= behind);
        assert(before.take(cut) =~= before);
    }
}

/// No word holds a separator.
pub proof fn lemma_split_words_hold_no_separator(text: Seq<char>, separators: Seq<char>)
    ensures
        forall|i: int, j: int|
            #![trigger split_words(text, separators)[i][j]]
            0 <= i < split_words(text, separators).len() && 0 <= j < split_words(
                text,
                separators,
            )[i].len() ==> !separators.contains(split_words(text, separators)[i][j]),
    decreases text.len(),
{
    let cut = first_separator(text, separators);
    let words = split_words(text, separators);
    lemma_first_separator_bounds(text, separators);
    if cut < text.len() {
        let rest = split_words(text.skip(cut + 1), separators);
        lemma_split_words_hold_no_separator(text.skip(cut + 1), separators);
        assert forall|i: int, j: int| 0 <= i < words.len() && 0 <= j < words[i].len() implies
            !separators.contains(#[trigger] words[i][j]) by {
            if i == 0 {
            } else {
            }
        }
    } else {
        assert forall|i: int, j: int| 0 <= i < words.len() && 0 <= j < words[i].len() implies
            !separators.contains(#[trigger] words[i][j]) by {
        }
    }
}

/// Whether `c` occurs in `separators`.
pub fn is_separator(separators: &Vec<char>, c: char) -> (found: bool)
    ensures
        found == separators@.contains(c),
{
    let mut i: usize = 0;
    while i < separators.len()
        invariant
            i <= separators.len(),
            forall|j: int| 0 <= j < i ==> separators@[j] != c,
        decreases separators.len() - i,
    {
        if separators[i] == c {
            return true;
        }
        i += 1;
    }
    false
}

/// The characters of `text`, in order.
pub fn chars_of(text: &str) -> (chars: Vec<char>)
    ensures
        chars@ == text@,
{
    let mut chars: Vec<char> = Vec::new();
    for c in it: text.chars()
        invariant
            it.seq() == text@,
            chars@ == text@.take(it.index() as int),
    {
        chars.push(c);
    }
    chars
}

/// Splits `text` at every character that occurs in `separators`.
pub fn split(text: &str, separators: &str) -> (words: Vec<Arc<String>>)
    ensures
        words.deep_view() == split_words(text@, separators@),
{
    let chars = chars_of(text);
    let seps = chars_of(separators);
    let mut words: Vec<Arc<String>> = Vec::new();
    let mut word = String::new();
    let ghost mut start: int = 0;
    let mut i: usize = 0;
    assert(text@.skip(0) =~= text@);
    while i < chars.len()
        invariant
            chars@ == text@,
            seps@ == separators@,
            0 <= start <= i <= chars.len(),
            word@ == text@.subrange(start, i as int),
            forall|j: int| start <= j < i ==> !separators@.contains(#[trigger] text@[j]),
            split_words(text@, separators@) == words.deep_view() + split_words(
                text@.skip(start),
                separators@,
            ),
        decreases chars.len() - i,
    {
        let c = chars[i];
        if is_separator(&seps, c) {
            proof {
                let rest = text@.skip(start);
                lemma_first_separator(rest, separators@, i - start);
                assert(rest.take(i - start) =~= word@);
                assert(rest.skip(i - start + 1) =~= text@.skip(i + 1));
            }
            words.push(Arc::new(word));
            word = String::new();
            proof {
                start = i + 1;
            }
        } else {
            word.push(c);
        }
        i += 1;
    }
    proof {
        let rest = text@.skip(start);
        lemma_first_separator(rest, separators@, rest.len() as int);
    }
    words.push(Arc::new(word));
    words
}

/// Whether `text` ends with the path separator.
pub open spec fn ends_with_separator(text: Seq<char>) -> bool {
    text.len() > 0 && text.last() == path_separator()
}

/// `text` without a leading `./`.
pub open spec fn without_current_dir(text: Seq<char>) -> Seq<char> {
    if text.len() >= 2 && text[0] == '.' && text[1] == path_separator() {
        text.skip(2)
    } else {
        text
    }
}

/// A path that begins with `./` loses exactly that prefix.
pub proof fn lemma_without_current_dir(rest: Seq<char>)
    ensures
        without_current_dir(seq!['.', '/'] + rest) == rest,
{
}

/// Whether the last character of `text` is the path separator.
pub fn has_trailing_separator(text: &str) -> (r: bool)
    ensures
        r == ends_with_separator(text@),
{
    let n = text.unicode_len();
    n > 0 && text.get_char(n - 1) == '/'
}

/// Whether the path separator occurs in `text`.
pub fn has_separator(text: &str) -> (r: bool)
    ensures
        r == text@.contains(path_separator()),
{
    let chars = chars_of(text);
    let mut i: usize = 0;
    while i < chars.len()
        invariant
            i <= chars.len(),
            chars@ == text@,
            forall|j: int| 0 <= j < i ==> text@[j] != path_separator(),
        decreases chars.len() - i,
    {
        if chars[i] == '/' {
            return true;
        }
        i += 1;
    }
    false
}

/// Removes a leading `./` from `path`.
pub fn strip_current_dir(path: &str) -> (stripped: &str)
    ensures
        stripped@ == without_current_dir(path@),
{
    let n = path.unicode_len();
    if n >= 2 && path.get_char(0) == '.' && path.get_char(1) == '/' {
        let stripped = path.substring_char(2, n);
        stripped
    } else {
        path
    }
}

/// Number of bytes that `text` takes in UTF-8.
pub open spec fn byte_len(text: Seq<char>) -> nat {
    encode_utf8(text).len()
}

/// The characters of `text` that lie before byte offset `at`. Empty where
/// `at` is past the end or falls inside a character.
pub open spec fn text_before(text: Seq<char>, at: int) -> Seq<char> {
    let bytes = encode_utf8(text);
    if is_char_boundary(bytes, at) {
        decode_utf8(bytes.subrange(0, at))
    } else {
        Seq::empty()
    }
}

/// The characters of `text` from byte offset `at` on. Empty where `at` is
/// past the end or falls inside a character.
pub open spec fn text_from(text: Seq<char>, at: int) -> Seq<char> {
    let bytes = encode_utf8(text);
    if is_char_boundary(bytes, at) {
        decode_utf8(bytes.subrange(at, bytes.len() as int))
    } else {
        Seq::empty()
    }
}

/// `text` with the `len` bytes from byte offset `offset` on replaced by
/// `replacement`.
pub open spec fn splice(text: Seq<char>, offset: int, len: int, replacement: Seq<char>) -> Seq<
    char,
> {
    text_before(text, offset) + replacement + text_from(text, offset + len)
}

/// The encoding of a text is the encoding of its parts, one after the other.
pub proof fn lemma_encode_concat(a: Seq<char>, b: Seq<char>)
    ensures
        encode_utf8(a + b) == encode_utf8(a) + encode_utf8(b),
    decreases a.len(),
{
    if a.len() == 0 {
    } else {
        assert((a + b).drop_first() =~= a.drop_first() + b);
        lemma_encode_concat(a.drop_first(), b);
    }
}

/// The byte offset behind a stretch of characters is a character boundary.
pub proof fn lemma_boundary_behind(a: Seq<char>, b: Seq<char>)
    ensures
        is_char_boundary(encode_utf8(a + b), byte_len(a) as int),
    decreases a.len(),
{
    let bytes = encode_utf8(a + b);
    encode_utf8_valid_utf8(a + b);
    if a.len() > 0 {
        let rest = a.drop_first();
        encode_utf8_first_scalar(a + b);
        lemma_encode_concat(a, b);
        assert((a + b).drop_first() =~= rest + b);
        assert(pop_first_scalar(bytes) =~= encode_utf8(rest + b));
        lemma_boundary_behind(rest, b);
    }
}

/// A text cut at the byte offset behind its first part falls into its two
/// parts.
pub proof fn lemma_cut_between(a: Seq<char>, b: Seq<char>)
    ensures
        text_before(a + b, byte_len(a) as int) == a,
        text_from(a + b, byte_len(a) as int) == b,
{
    let bytes = encode_utf8(a + b);
    let at = byte_len(a) as int;
    lemma_encode_concat(a, b);
    lemma_boundary_behind(a, b);
    assert(bytes.subrange(0, at) =~= encode_utf8(a));
    assert(bytes.subrange(at, bytes.len() as int) =~= encode_utf8(b));
    encode_utf8_decode_utf8(a);
    encode_utf8_decode_utf8(b);
}

/// Replacing a word at its place in a line leaves what stands before and
/// behind it: in the line `before + word + behind`, the word begins at byte
/// offset `byte_len(before)` and takes `byte_len(word)` bytes. The
/// replacement then ends at byte offset `byte_len(before)` plus its own
/// length.
pub proof fn lemma_splice_word(
    before: Seq<char>,
    word: Seq<char>,
    behind: Seq<char>,
    replacement: Seq<char>,
)
    ensures
        splice(
            before + word + behind,
            byte_len(before) as int,
            byte_len(word) as int,
            replacement,
        ) == before + replacement + behind,
        byte_len(before) + byte_len(replacement) == byte_len(before + replacement),
{
    assert(before + word + behind =~= before + (word + behind));
    lemma_cut_between(before, word + behind);
    lemma_cut_between(before + word, behind);
    lemma_encode_concat(before, word);
    lemma_encode_concat(before, replacement);
}

/// A text of ASCII characters takes one byte for each character.
pub proof fn lemma_byte_len_ascii(text: Seq<char>)
    requires
        is_ascii_chars(text),
    ensures
        byte_len(text) == text.len(),
{
    is_ascii_chars_encode_utf8(text);
}

/// The part of `text` before byte offset `at`.
pub fn head(text: &str, at: usize) -> (part: &str)
    ensures
        part@ == text_before(text@, at as int),
{
    if text.is_char_boundary(at) {
        let (part, _) = text.split_at(at);
        proof {
            encode_utf8_decode_utf8(part@);
        }
        part
    } else {
        let part = "";
        proof {
            reveal_strlit("");
        }
        part
    }
}

/// The part of `text` from byte offset `at` on.
pub fn tail(text: &str, at: usize) -> (part: &str)
    ensures
        part@ == text_from(text@, at as int),
{
    if text.is_char_boundary(at) {
        let (_, part) = text.split_at(at);
        proof {
            encode_utf8_decode_utf8(part@);
        }
        part
    } else {
        let part = "";
        proof {
            reveal_strlit("");
        }
        part
    }
}

/// Replaces the `len` bytes of `text` from byte offset `offset` on by
/// `replacement`. An end of the range that is no character boundary of
/// `text` contributes nothing: the text on that side is dropped.
pub fn replace_range(text: &str, offset: usize, len: usize, replacement: &str) -> (out: String)
    ensures
        out@ == splice(text@, offset as int, len as int, replacement@),
{
    let size = text.as_bytes().len();
    let mut out = head(text, offset).to_owned();
    out.append(replacement);
    if len <= size && offset <= size - len {
        out.append(tail(text, offset + len));
    } else {
        assert(!is_char_boundary(encode_utf8(text@), offset + len)) by {
            encode_utf8_valid_utf8(text@);
        }
    }
    out
}

} // verus!
