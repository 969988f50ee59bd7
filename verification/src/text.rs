//! What a text may be made of.

use vstd::prelude::*;

verus! {

pub open spec fn is_digit(c: char) -> bool {
    '0' <= c <= '9'
}

pub open spec fn is_lower(c: char) -> bool {
    'a' <= c <= 'z'
}

pub open spec fn is_upper(c: char) -> bool {
    'A' <= c <= 'Z'
}

pub open spec fn is_alphanumeric(c: char) -> bool {
    is_digit(c) || is_lower(c) || is_upper(c)
}

/// A closed set of characters that some kind of name is made of.
#[derive(Clone, Copy, Debug, PartialEq, Eq, Structural)]
pub enum Alphabet {
    /// What a header may be called: the token characters of HTTP.
    Token,
    /// What a header may say: visible ASCII, spaces and tabs.
    Visible,
    /// What a stored secret may be called.
    SecretName,
    /// What a stored value may be called.
    Key,
    /// What an application may be called by the system.
    AppId,
    /// A digest in lowercase hexadecimal.
    Hex,
    /// A pairing code, without the characters that read alike.
    LinkCode,
    /// A version.
    Version,
    /// A language code.
    Language,
}

impl Alphabet {
    /// Whether a character is one of the set.
    pub open spec fn holds(self, c: char) -> bool {
        match self {
            Alphabet::Token => is_alphanumeric(c) || c == '!' || c == '#' || c == '$' || c == '%'
                || c == '&' || c == '\'' || c == '*' || c == '+' || c == '-' || c == '.' || c == '^'
                || c == '_' || c == '`' || c == '|' || c == '~',
            Alphabet::Visible => ' ' <= c <= '~' || c == '\t',
            Alphabet::SecretName => is_alphanumeric(c) || c == '-' || c == '_',
            Alphabet::Key => is_lower(c) || is_digit(c) || c == '.' || c == '-' || c == '_',
            Alphabet::AppId => is_lower(c) || is_digit(c) || c == '-',
            Alphabet::Hex => is_digit(c) || 'a' <= c <= 'f',
            Alphabet::LinkCode => '2' <= c <= '9' || 'A' <= c <= 'H' || 'J' <= c <= 'N' || 'P' <= c
                <= 'Z',
            Alphabet::Version => is_alphanumeric(c) || c == '.' || c == '-' || c == '+',
            Alphabet::Language => is_alphanumeric(c) || c == '-',
        }
    }

    fn has(self, c: char) -> (found: bool)
        ensures
            found == self.holds(c),
    {
        let digit = '0' <= c && c <= '9';
        let lower = 'a' <= c && c <= 'z';
        let upper = 'A' <= c && c <= 'Z';
        let alphanumeric = digit || lower || upper;
        match self {
            Alphabet::Token => alphanumeric || c == '!' || c == '#' || c == '$' || c == '%' || c
                == '&' || c == '\'' || c == '*' || c == '+' || c == '-' || c == '.' || c == '^' || c
                == '_' || c == '`' || c == '|' || c == '~',
            Alphabet::Visible => (' ' <= c && c <= '~') || c == '\t',
            Alphabet::SecretName => alphanumeric || c == '-' || c == '_',
            Alphabet::Key => lower || digit || c == '.' || c == '-' || c == '_',
            Alphabet::AppId => lower || digit || c == '-',
            Alphabet::Hex => digit || ('a' <= c && c <= 'f'),
            Alphabet::LinkCode => ('2' <= c && c <= '9') || ('A' <= c && c <= 'H') || ('J' <= c && c
                <= 'N') || ('P' <= c && c <= 'Z'),
            Alphabet::Version => alphanumeric || c == '.' || c == '-' || c == '+',
            Alphabet::Language => alphanumeric || c == '-',
        }
    }
}

/// Whether every character of a text is one of the set.
pub open spec fn is_drawn_from(text: Seq<char>, alphabet: Alphabet) -> bool {
    forall|i: int| 0 <= i < text.len() ==> alphabet.holds(#[trigger] text[i])
}

/// Whether every character of a text is one of the set.
pub fn drawn_from(text: &str, alphabet: Alphabet) -> (drawn: bool)
    ensures
        drawn == is_drawn_from(text@, alphabet),
{
    for c in letters: text.chars()
        invariant
            letters.seq() == text@,
            forall|i: int| 0 <= i < letters.index() ==> alphabet.holds(#[trigger] text@[i]),
    {
        if !alphabet.has(c) {
            return false;
        }
    }
    true
}

/// Whether a text starts with another.
pub open spec fn has_prefix(text: Seq<char>, prefix: Seq<char>) -> bool {
    prefix.len() <= text.len() && prefix == text.take(prefix.len() as int)
}

/// Whether a text starts with another.
pub fn begins_with(text: &str, prefix: &str) -> (begins: bool)
    ensures
        begins == has_prefix(text@, prefix@),
{
    let length: usize = prefix.unicode_len();
    if length > text.unicode_len() {
        return false;
    }
    let mut index: usize = 0;
    while index < length
        invariant
            index <= length,
            length == prefix@.len(),
            length <= text@.len(),
            forall|i: int| 0 <= i < index ==> #[trigger] prefix@[i] == text@[i],
        decreases length - index,
    {
        if prefix.get_char(index) != text.get_char(index) {
            assert(prefix@[index as int] != text@.take(length as int)[index as int]);
            return false;
        }
        index = index + 1;
    }
    assert(prefix@ =~= text@.take(length as int));
    true
}

/// The characters Unicode calls white space.
pub open spec fn is_blank(c: char) -> bool {
    ||| '\u{9}' <= c <= '\u{d}'
    ||| c == ' '
    ||| c == '\u{85}'
    ||| c == '\u{a0}'
    ||| c == '\u{1680}'
    ||| '\u{2000}' <= c <= '\u{200a}'
    ||| c == '\u{2028}'
    ||| c == '\u{2029}'
    ||| c == '\u{202f}'
    ||| c == '\u{205f}'
    ||| c == '\u{3000}'
}

/// Whether nothing but white space is in a text.
pub open spec fn all_blank(text: Seq<char>) -> bool {
    forall|i: int| 0 <= i < text.len() ==> is_blank(#[trigger] text[i])
}

/// Whether nothing but white space is in a text.
pub fn says_nothing(text: &str) -> (nothing: bool)
    ensures
        nothing == all_blank(text@),
{
    for c in letters: text.chars()
        invariant
            letters.seq() == text@,
            forall|i: int| 0 <= i < letters.index() ==> is_blank(#[trigger] text@[i]),
    {
        let blank = ('\u{9}' <= c && c <= '\u{d}') || c == ' ' || c == '\u{85}' || c == '\u{a0}'
            || c == '\u{1680}' || ('\u{2000}' <= c && c <= '\u{200a}') || c == '\u{2028}' || c
            == '\u{2029}' || c == '\u{202f}' || c == '\u{205f}' || c == '\u{3000}';
        if !blank {
            return false;
        }
    }
    true
}

/// The characters of each alphabet, by their numbers.
pub proof fn law_alphabets_hold_these_characters(c: char)
    ensures
        ({
            let n = c as int;
            let digit = 48 <= n <= 57;
            let upper = 65 <= n <= 90;
            let lower = 97 <= n <= 122;
            &&& Alphabet::Hex.holds(c) <==> digit || 97 <= n <= 102
            &&& Alphabet::AppId.holds(c) <==> digit || lower || n == 45
            &&& Alphabet::Key.holds(c) <==> digit || lower || n == 45 || n == 46 || n == 95
            &&& Alphabet::SecretName.holds(c) <==> digit || lower || upper || n == 45 || n == 95
            &&& Alphabet::Language.holds(c) <==> digit || lower || upper || n == 45
            &&& Alphabet::Version.holds(c) <==> digit || lower || upper || n == 43 || n == 45 || n
                == 46
            &&& Alphabet::LinkCode.holds(c) <==> 50 <= n <= 57 || upper && n != 73 && n != 79
            &&& Alphabet::Visible.holds(c) <==> 32 <= n <= 126 || n == 9
            &&& Alphabet::Token.holds(c) <==> 33 <= n <= 126 && n != 34 && n != 40 && n != 41 && n
                != 44 && n != 47 && !(58 <= n <= 64) && !(91 <= n <= 93) && n != 123 && n != 125
        }),
{
}

/// The alphabets lie in one another: what may be an identity may be a key, what
/// may name a secret may name a header, and what may name a header may be seen.
pub proof fn law_alphabets_lie_in_one_another(c: char)
    ensures
        Alphabet::Hex.holds(c) ==> Alphabet::AppId.holds(c),
        Alphabet::AppId.holds(c) ==> Alphabet::Key.holds(c),
        Alphabet::AppId.holds(c) ==> Alphabet::Language.holds(c),
        Alphabet::Key.holds(c) ==> Alphabet::Token.holds(c),
        Alphabet::Language.holds(c) ==> Alphabet::SecretName.holds(c),
        Alphabet::LinkCode.holds(c) ==> Alphabet::Language.holds(c),
        Alphabet::SecretName.holds(c) ==> Alphabet::Token.holds(c),
        Alphabet::Version.holds(c) ==> Alphabet::Token.holds(c),
        Alphabet::Token.holds(c) ==> Alphabet::Visible.holds(c) && !is_blank(c),
{
}

/// A text is drawn from an alphabet exactly when its parts are.
pub proof fn law_drawing_goes_letter_by_letter(a: Seq<char>, b: Seq<char>, alphabet: Alphabet)
    ensures
        is_drawn_from(a + b, alphabet) <==> is_drawn_from(a, alphabet) && is_drawn_from(
            b,
            alphabet,
        ),
        is_drawn_from(Seq::empty(), alphabet),
        all_blank(a + b) <==> all_blank(a) && all_blank(b),
        all_blank(Seq::empty()),
{
    let both = a + b;
    assert forall|i: int| 0 <= i < a.len() implies #[trigger] a[i] == both[i] by {}
    assert forall|i: int| 0 <= i < b.len() implies #[trigger] b[i] == both[a.len() + i] by {}
}

/// A text starts with another exactly when something follows the other in it, if
/// only nothing.
pub proof fn law_a_prefix_comes_first(prefix: Seq<char>, rest: Seq<char>, text: Seq<char>)
    ensures
        has_prefix(prefix + rest, prefix),
        has_prefix(text, prefix) <==> prefix.len() <= text.len() && text == prefix + text.skip(
            prefix.len() as int,
        ),
{
    assert((prefix + rest).take(prefix.len() as int) =~= prefix);
    if prefix.len() <= text.len() {
        assert(text.take(prefix.len() as int) + text.skip(prefix.len() as int) =~= text);
        if text == prefix + text.skip(prefix.len() as int) {
            assert(text.take(prefix.len() as int) =~= prefix);
        }
    }
}

} // verus!
