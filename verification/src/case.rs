//! Letter-case conversions between `snake_case` and `CamelCase` names.

use vstd::prelude::*;
use vstd::string::*;

verus! {

/// Whether `c` has the Unicode `Uppercase` property, as `char::is_uppercase` reports it.
pub uninterp spec fn char_is_uppercase(c: char) -> bool;

/// The lowercase mapping of `c`, as `char::to_lowercase` yields it.
pub uninterp spec fn char_lowercase(c: char) -> Seq<char>;

/// The uppercase mapping of `c`, as `char::to_uppercase` yields it.
pub uninterp spec fn char_uppercase(c: char) -> Seq<char>;

/// `char::is_uppercase`: the result is a function of the character alone.
#[verifier::external_body]
fn is_uppercase(c: char) -> (b: bool)
    ensures
        b == char_is_uppercase(c),
{
    c.is_uppercase()
}

/// `char::to_lowercase`, collected: the mapping is a function of the character
/// alone and holds one or more characters.
#[verifier::external_body]
fn to_lowercase(c: char) -> (r: Vec<char>)
    ensures
        r@ == char_lowercase(c),
        r@.len() >= 1,
{
    c.to_lowercase().collect()
}

/// `char::to_uppercase`, collected: the mapping is a function of the character
/// alone and holds one or more characters.
#[verifier::external_body]
fn to_uppercase(c: char) -> (r: Vec<char>)
    ensures
        r@ == char_uppercase(c),
        r@.len() >= 1,
{
    c.to_uppercase().collect()
}

/// `String::push`: appends one character.
#[verifier::external_body]
pub(crate) fn push_char(s: &mut String, c: char)
    ensures
        final(s)@ == old(s)@.push(c),
{
    s.push(c)
}

/// Appends the characters of `chars` to `out`, in their order.
pub(crate) fn append_chars(out: &mut String, chars: &Vec<char>)
    ensures
        final(out)@ == old(out)@ + chars@,
{
    let mut i: usize = 0;
    while i < chars.len()
        invariant
            i <= chars@.len(),
            out@ == old(out)@ + chars@.take(i as int),
        decreases chars@.len() - i,
    {
        push_char(out, chars[i]);
        proof {
            assert(chars@.take(i + 1) == chars@.take(i as int).push(chars@[i as int]));
        }
        i += 1;
    }
    proof {
        assert(chars@.take(chars@.len() as int) == chars@);
    }
}

/// The characters of `s`, in their order.
pub(crate) fn chars_of(s: &str) -> (r: Vec<char>)
    ensures
        r@ == s@,
{
    let mut chars: Vec<char> = Vec::new();
    for c in it: s.chars()
        invariant
            it.seq() == s@,
            chars@ == s@.take(it.index() as int),
    {
        chars.push(c);
        proof {
            assert(s@.take(it.index() + 1) == s@.take(it.index() as int).push(c));
        }
    }
    proof {
        assert(s@.take(s@.len() as int) == s@);
    }
    chars
}

/// The first character of a mapping, where it has one.
pub open spec fn first_of(mapping: Seq<char>) -> Seq<char> {
    if mapping.len() > 0 {
        seq![mapping[0]]
    } else {
        Seq::empty()
    }
}

/// What one character of a `CamelCase` name contributes to its `snake_case`
/// form: an uppercase character is replaced by the first character of its
/// lowercase mapping, preceded by an underscore unless it opens the name.
pub open spec fn snake_piece(first: bool, c: char, upper: bool, lower: Seq<char>) -> Seq<char> {
    if upper {
        if first {
            first_of(lower)
        } else {
            seq!['_'] + first_of(lower)
        }
    } else {
        seq![c]
    }
}

/// The `snake_case` form of a `CamelCase` name.
pub open spec fn camel_to_snake_spec(s: Seq<char>) -> Seq<char>
    decreases s.len(),
{
    if s.len() == 0 {
        Seq::empty()
    } else {
        camel_to_snake_spec(s.drop_last()) + snake_piece(
            s.len() == 1,
            s.last(),
            char_is_uppercase(s.last()),
            char_lowercase(s.last()),
        )
    }
}

/// Appends to `out` what the character `c` contributes, given whether it is
/// uppercase and what its lowercase mapping is.
pub fn push_snake_piece(out: &mut String, first: bool, c: char, upper: bool, lower: &Vec<char>)
    ensures
        final(out)@ == old(out)@ + snake_piece(first, c, upper, lower@),
{
    if upper {
        if !first {
            push_char(out, '_');
        }
        if lower.len() > 0 {
            push_char(out, lower[0]);
        }
    } else {
        push_char(out, c);
    }
}

/// Converts a `CamelCase` name to `snake_case`.
pub fn camel_to_snake(s: String) -> (r: String)
    ensures
        r@ == camel_to_snake_spec(s@),
{
    let mut snake_case = String::new();
    let mut first = true;
    for ch in it: s.as_str().chars()
        invariant
            it.seq() == s@,
            first == (it.index() == 0),
            snake_case@ == camel_to_snake_spec(s@.take(it.index() as int)),
    {
        let upper = is_uppercase(ch);
        let lower = to_lowercase(ch);
        push_snake_piece(&mut snake_case, first, ch, upper, &lower);
        first = false;
        proof {
            assert(s@.take(it.index() + 1).drop_last() == s@.take(it.index() as int));
        }
    }
    proof {
        assert(s@.take(s@.len() as int) == s@);
    }
    snake_case
}

/// A word with its first character replaced by `upper`; the empty word stays empty.
pub open spec fn capitalize_with_spec(word: Seq<char>, upper: Seq<char>) -> Seq<char> {
    if word.len() == 0 {
        word
    } else {
        upper + word.drop_first()
    }
}

/// A word with its first character replaced by that character's uppercase mapping.
pub open spec fn capitalize_spec(word: Seq<char>) -> Seq<char> {
    if word.len() == 0 {
        word
    } else {
        capitalize_with_spec(word, char_uppercase(word[0]))
    }
}

/// Replaces the first character of `word` by `upper`.
pub fn capitalize_with(word: &str, upper: &Vec<char>) -> (r: String)
    ensures
        r@ == capitalize_with_spec(word@, upper@),
{
    let chars = chars_of(word);
    let mut out = String::new();
    if chars.len() == 0 {
        return out;
    }
    append_chars(&mut out, upper);
    let mut i: usize = 1;
    while i < chars.len()
        invariant
            1 <= i <= chars@.len(),
            chars@ == word@,
            out@ == upper@ + word@.subrange(1, i as int),
        decreases chars@.len() - i,
    {
        push_char(&mut out, chars[i]);
        proof {
            assert(word@.subrange(1, i + 1) == word@.subrange(1, i as int).push(word@[i as int]));
        }
        i += 1;
    }
    proof {
        assert(word@.subrange(1, word@.len() as int) == word@.drop_first());
    }
    out
}

/// Capitalizes a word: its first character is replaced by its uppercase mapping.
pub fn capitalize_word(word: &str) -> (r: String)
    ensures
        r@ == capitalize_spec(word@),
{
    let n = word.unicode_len();
    if n == 0 {
        String::new()
    } else {
        let upper = to_uppercase(word.get_char(0));
        capitalize_with(word, &upper)
    }
}

} // verus!
