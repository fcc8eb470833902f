//! Text as sequences of characters: the few string operations that the
//! configuration is made of, each with its meaning.
use vstd::prelude::*;

verus! {

/// What each string of a list holds.
pub open spec fn texts(list: Seq<String>) -> Seq<Seq<char>> {
    list.map_values(|text: String| text@)
}

/// The characters with the Unicode property White_Space.
pub open spec fn is_space(c: char) -> bool {
    ||| '\u{9}' <= c <= '\u{D}'
    ||| c == ' '
    ||| c == '\u{85}'
    ||| c == '\u{A0}'
    ||| c == '\u{1680}'
    ||| '\u{2000}' <= c <= '\u{200A}'
    ||| c == '\u{2028}'
    ||| c == '\u{2029}'
    ||| c == '\u{202F}'
    ||| c == '\u{205F}'
    ||| c == '\u{3000}'
}

/// The length of the run of characters other than white space at the start.
pub open spec fn word_len(s: Seq<char>) -> nat
    decreases s.len(),
{
    if s.len() == 0 || is_space(s[0]) {
        0
    } else {
        1 + word_len(s.skip(1))
    }
}

/// The maximal runs of characters other than white space, in order.
pub open spec fn words_of(s: Seq<char>) -> Seq<Seq<char>>
    decreases s.len(),
    via words_of_shrinks
{
    if s.len() == 0 {
        Seq::empty()
    } else if is_space(s[0]) {
        words_of(s.skip(1))
    } else {
        seq![s.take(word_len(s) as int)] + words_of(s.skip(word_len(s) as int))
    }
}

#[via_fn]
proof fn words_of_shrinks(s: Seq<char>) {
    lemma_word_len_bound(s);
}

proof fn lemma_word_len_bound(s: Seq<char>)
    ensures
        word_len(s) <= s.len(),
        s.len() > 0 && !is_space(s[0]) ==> word_len(s) > 0,
    decreases s.len(),
{
    if s.len() > 0 && !is_space(s[0]) {
        lemma_word_len_bound(s.skip(1));
    }
}

/// The first word is a run of characters other than white space, and as long as can be.
pub(crate) proof fn lemma_word_len_is_maximal(s: Seq<char>)
    ensures
        word_len(s) <= s.len(),
        forall|i: int| 0 <= i < word_len(s) ==> !is_space(#[trigger] s[i]),
        word_len(s) < s.len() ==> is_space(s[word_len(s) as int]),
        s.len() > 0 && !is_space(s[0]) ==> word_len(s) > 0,
    decreases s.len(),
{
    if s.len() > 0 && !is_space(s[0]) {
        let rest = s.skip(1);
        lemma_word_len_is_maximal(rest);
        assert forall|i: int| 0 <= i < word_len(s) implies !is_space(#[trigger] s[i]) by {
            if i > 0 {
                assert(s[i] == rest[i - 1]);
            }
        }
        if word_len(s) < s.len() {
            assert(s[word_len(s) as int] == rest[word_len(rest) as int]);
        }
    }
}

/// A run of `n` characters other than white space that is followed by white space or by the
/// end is the first word.
pub(crate) proof fn lemma_word_len(s: Seq<char>, n: int)
    requires
        0 <= n <= s.len(),
        forall|i: int| 0 <= i < n ==> !is_space(#[trigger] s[i]),
        n < s.len() ==> is_space(s[n]),
    ensures
        word_len(s) == n,
    decreases n,
{
    if n > 0 {
        assert(!is_space(s[0]));
        assert forall|i: int| 0 <= i < n - 1 implies !is_space(#[trigger] s.skip(1)[i]) by {
            assert(s.skip(1)[i] == s[i + 1]);
        }
        lemma_word_len(s.skip(1), n - 1);
    }
}

/// `text` with spaces behind it up to `width` characters.
pub open spec fn padded_text(text: Seq<char>, width: int) -> Seq<char> {
    if text.len() < width {
        text + Seq::new((width - text.len()) as nat, |i: int| ' ')
    } else {
        text
    }
}

pub open spec fn digit_of(d: int) -> char {
    (d + '0' as int) as char
}

/// `n` in decimal digits, without leading zeros.
pub open spec fn decimal_text(n: nat) -> Seq<char>
    decreases n,
{
    if n < 10 {
        seq![digit_of(n as int)]
    } else {
        decimal_text(n / 10).push(digit_of((n % 10) as int))
    }
}

pub open spec fn truth_text(value: bool) -> Seq<char> {
    if value {
        "true"@
    } else {
        "false"@
    }
}

pub open spec fn is_digit(c: char) -> bool {
    '0' <= c <= '9'
}

/// The number that a run of decimal digits stands for.
pub open spec fn digits_value(s: Seq<char>) -> int
    decreases s.len(),
{
    if s.len() == 0 {
        0
    } else {
        10 * digits_value(s.drop_last()) + (s.last() as int - '0' as int)
    }
}

/// At least one decimal digit and nothing else, for a number that 16 bits hold.
pub open spec fn is_u16_digits(s: Seq<char>) -> bool {
    &&& s.len() > 0
    &&& forall|i: int| 0 <= i < s.len() ==> is_digit(#[trigger] s[i])
    &&& digits_value(s) <= u16::MAX
}

/// Such digits, with or without a `+` in front of them.
pub open spec fn is_u16_text(s: Seq<char>) -> bool {
    ||| is_u16_digits(s)
    ||| s.len() > 0 && s[0] == '+' && is_u16_digits(s.skip(1))
}

proof fn lemma_digits_value_bound(s: Seq<char>)
    requires
        forall|i: int| 0 <= i < s.len() ==> is_digit(#[trigger] s[i]),
    ensures
        digits_value(s) >= 0,
    decreases s.len(),
{
    if s.len() > 0 {
        lemma_digits_value_bound(s.drop_last());
        assert(is_digit(s[s.len() - 1]));
    }
}

fn is_whitespace(c: char) -> (space: bool)
    ensures
        space == is_space(c),
{
    ('\u{9}' <= c && c <= '\u{D}') || c == ' ' || c == '\u{85}' || c == '\u{A0}' || c == '\u{1680}'
        || ('\u{2000}' <= c && c <= '\u{200A}') || c == '\u{2028}' || c == '\u{2029}' || c
        == '\u{202F}' || c == '\u{205F}' || c == '\u{3000}'
}

/// Whether the characters from `start` on are decimal digits for a number that 16 bits hold.
fn digits_fit_u16(chars: &Vec<char>, start: usize) -> (fit: bool)
    requires
        start <= chars.len(),
    ensures
        fit == is_u16_digits(chars@.skip(start as int)),
{
    let ghost digits = chars@.skip(start as int);
    if start == chars.len() {
        return false;
    }
    let mut value: u32 = 0;
    let mut fits = true;
    let mut i: usize = start;
    assert(digits.take(0) =~= Seq::empty());
    while i < chars.len()
        invariant
            start <= i <= chars.len(),
            digits == chars@.skip(start as int),
            forall|j: int| 0 <= j < i - start ==> is_digit(#[trigger] digits[j]),
            fits == (digits_value(digits.take(i - start)) <= u16::MAX),
            fits ==> value == digits_value(digits.take(i - start)),
        decreases chars.len() - i,
    {
        let c = chars[i];
        assert(digits[i - start] == c);
        if !('0' <= c && c <= '9') {
            return false;
        }
        let ghost seen = digits.take(i - start);
        let ghost longer = digits.take(i + 1 - start);
        proof {
            assert(longer.drop_last() =~= seen);
            lemma_digits_value_bound(seen);
        }
        if fits {
            value = value * 10 + (c as u32 - '0' as u32);
            fits = value <= 65535;
        }
        i += 1;
    }
    assert(digits.take(i - start) =~= digits);
    fits
}

/// Whether a text is a number that 16 bits hold, with or without a `+` in front.
pub fn parses_as_u16(text: &str) -> (parses: bool)
    ensures
        parses == is_u16_text(text@),
{
    let chars = chars_of(text);
    assert(chars@.skip(0) =~= chars@);
    digits_fit_u16(&chars, 0) || (chars.len() > 0 && chars[0] == '+' && digits_fit_u16(&chars, 1))
}

/// Whether two strings hold the same characters.
pub fn same_text(a: &str, b: &str) -> (same: bool)
    ensures
        same == (a@ == b@),
{
    a.to_owned() == b.to_owned()
}

/// The characters of a string.
pub fn chars_of(text: &str) -> (chars: Vec<char>)
    ensures
        chars@ == text@,
{
    let mut chars: Vec<char> = Vec::new();
    for c in iter: text.chars()
        invariant
            iter.seq() == text@,
            chars@ == text@.take(iter.index()),
    {
        chars.push(c);
    }
    chars
}

pub fn contains_char(text: &str, wanted: char) -> (found: bool)
    ensures
        found == text@.contains(wanted),
{
    let chars = chars_of(text);
    let mut i: usize = 0;
    while i < chars.len()
        invariant
            chars@ == text@,
            i <= chars.len(),
            forall|j: int| 0 <= j < i ==> chars[j] != wanted,
        decreases chars.len() - i,
    {
        if chars[i] == wanted {
            assert(text@[i as int] == wanted);
            return true;
        }
        i += 1;
    }
    false
}

pub fn starts_with(text: &str, prefix: &str) -> (starts: bool)
    ensures
        starts == prefix@.is_prefix_of(text@),
{
    let chars = chars_of(text);
    let wanted = chars_of(prefix);
    if wanted.len() > chars.len() {
        return false;
    }
    let mut i: usize = 0;
    while i < wanted.len()
        invariant
            chars@ == text@,
            wanted@ == prefix@,
            i <= wanted.len() <= chars.len(),
            forall|j: int| 0 <= j < i ==> chars[j] == wanted[j],
        decreases wanted.len() - i,
    {
        if chars[i] != wanted[i] {
            assert(text@.subrange(0, prefix@.len() as int)[i as int] != prefix@[i as int]);
            return false;
        }
        i += 1;
    }
    assert(text@.subrange(0, prefix@.len() as int) =~= prefix@);
    true
}

/// What stands in front of `suffix`, where `text` ends in it.
pub fn strip_suffix(text: &str, suffix: &str) -> (rest: Option<String>)
    ensures
        match rest {
            Some(rest) => text@ == rest@ + suffix@,
            None => forall|front: Seq<char>| text@ != #[trigger] (front + suffix@),
        },
{
    let chars = chars_of(text);
    let wanted = chars_of(suffix);
    if wanted.len() > chars.len() {
        assert forall|front: Seq<char>| text@ != #[trigger] (front + suffix@) by {
            assert((front + suffix@).len() >= suffix@.len());
        }
        return None;
    }
    let cut: usize = chars.len() - wanted.len();
    let mut i: usize = 0;
    while i < wanted.len()
        invariant
            chars@ == text@,
            wanted@ == suffix@,
            i <= wanted.len(),
            cut + wanted.len() == chars.len(),
            forall|j: int| 0 <= j < i ==> chars[cut + j] == wanted[j],
        decreases wanted.len() - i,
    {
        if chars[cut + i] != wanted[i] {
            assert forall|front: Seq<char>| text@ != #[trigger] (front + suffix@) by {
                if text@ == front + suffix@ {
                    assert((front + suffix@)[cut + i] == suffix@[i as int]);
                }
            }
            return None;
        }
        i += 1;
    }
    let rest = text.substring_char(0, cut).to_owned();
    assert(text@ =~= rest@ + suffix@);
    Some(rest)
}

/// Splits at runs of white space, which belong to no word.
pub fn words(text: &str) -> (found: Vec<String>)
    ensures
        texts(found@) == words_of(text@),
{
    let chars = chars_of(text);
    let mut found: Vec<String> = Vec::new();
    let mut i: usize = 0;
    assert(text@.skip(0) =~= text@);
    assert(texts(found@) =~= Seq::empty());
    while i < chars.len()
        invariant
            chars@ == text@,
            i <= chars.len(),
            words_of(text@) == texts(found@) + words_of(text@.skip(i as int)),
        decreases chars.len() - i,
    {
        let ghost rest = text@.skip(i as int);
        if is_whitespace(chars[i]) {
            assert(rest.skip(1) =~= text@.skip(i + 1));
            i += 1;
        } else {
            let start = i;
            let ghost before = texts(found@);
            while i < chars.len() && !is_whitespace(chars[i])
                invariant
                    chars@ == text@,
                    start <= i <= chars.len(),
                    forall|j: int| start <= j < i ==> !is_space(#[trigger] text@[j]),
                ensures
                    start <= i <= chars.len(),
                    forall|j: int| start <= j < i ==> !is_space(#[trigger] text@[j]),
                    i < chars.len() ==> is_space(text@[i as int]),
                decreases chars.len() - i,
            {
                i += 1;
            }
            assert(i > start);
            let ghost n = i - start;
            proof {
                assert forall|j: int| 0 <= j < n implies !is_space(#[trigger] rest[j]) by {
                    assert(rest[j] == text@[start + j]);
                }
                lemma_word_len(rest, n);
                assert(rest.take(n) =~= text@.subrange(start as int, i as int));
                assert(rest.skip(n) =~= text@.skip(i as int));
            }
            found.push(text.substring_char(start, i).to_owned());
            assert(texts(found@) =~= before.push(rest.take(n)));
            assert(before.push(rest.take(n)) + words_of(text@.skip(i as int)) =~= before + (
            seq![rest.take(n)] + words_of(rest.skip(n))));
        }
    }
    assert(text@.skip(i as int).len() == 0);
    assert(texts(found@) =~= words_of(text@));
    found
}

pub fn padded(text: &str, width: usize) -> (line: String)
    ensures
        line@ == padded_text(text@, width as int),
{
    let len = text.unicode_len();
    let mut line = text.to_owned();
    let mut i: usize = len;
    proof {
        reveal_strlit(" ");
    }
    while i < width
        invariant
            len == text@.len(),
            len <= i,
            i <= width || i == len,
            line@ == text@ + Seq::new((i - len) as nat, |j: int| ' '),
            " "@ == seq![' '],
        decreases width - i,
    {
        line.append(" ");
        i += 1;
        assert(line@ =~= text@ + Seq::new((i - len) as nat, |j: int| ' '));
    }
    assert(line@ =~= padded_text(text@, width as int));
    line
}

fn digit(d: usize) -> (text: &'static str)
    requires
        d < 10,
    ensures
        text@ == seq![digit_of(d as int)],
{
    proof {
        reveal_strlit("0");
        reveal_strlit("1");
        reveal_strlit("2");
        reveal_strlit("3");
        reveal_strlit("4");
        reveal_strlit("5");
        reveal_strlit("6");
        reveal_strlit("7");
        reveal_strlit("8");
        reveal_strlit("9");
    }
    let text = match d {
        0 => "0",
        1 => "1",
        2 => "2",
        3 => "3",
        4 => "4",
        5 => "5",
        6 => "6",
        7 => "7",
        8 => "8",
        _ => "9",
    };
    assert(text@ =~= seq![digit_of(d as int)]);
    text
}

pub fn decimal(n: usize) -> (text: String)
    ensures
        text@ == decimal_text(n as nat),
    decreases n,
{
    if n < 10 {
        digit(n).to_owned()
    } else {
        let text = decimal(n / 10).concat(digit(n % 10));
        assert(text@ =~= decimal_text(n as nat));
        text
    }
}

pub fn truth(value: bool) -> (text: &'static str)
    ensures
        text@ == truth_text(value),
{
    if value {
        "true"
    } else {
        "false"
    }
}

} // verus!
