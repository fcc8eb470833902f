//! What the texts are that a user types and is shown: words, numbers and truth values.
use crate::text::{
    decimal, decimal_text, digits_value, is_space, is_u16_digits, is_u16_text, lemma_word_len,
    lemma_word_len_is_maximal, padded, texts, truth, word_len, words, words_of,
};
use vstd::prelude::*;

verus! {

/// White space is what Unicode says it is: these characters, and no other.
pub proof fn law_white_space(c: char)
    ensures
        is_space(c) <==> {
            let code = c as int;
            ||| 9 <= code <= 13
            ||| code == 32
            ||| code == 0x85
            ||| code == 0xA0
            ||| code == 0x1680
            ||| 0x2000 <= code <= 0x200A
            ||| code == 0x2028
            ||| code == 0x2029
            ||| code == 0x202F
            ||| code == 0x205F
            ||| code == 0x3000
        },
{
}

/// There is no word in white space.
pub proof fn law_blanks_hold_no_word(blanks: Seq<char>)
    requires
        forall|i: int| 0 <= i < blanks.len() ==> is_space(#[trigger] blanks[i]),
    ensures
        words_of(blanks).len() == 0,
    decreases blanks.len(),
{
    if blanks.len() > 0 {
        assert forall|i: int| 0 <= i < blanks.skip(1).len() implies is_space(
            #[trigger] blanks.skip(1)[i],
        ) by {
            assert(blanks.skip(1)[i] == blanks[i + 1]);
        }
        law_blanks_hold_no_word(blanks.skip(1));
    }
}

/// A word by itself is one word.
pub proof fn law_word_is_one_word(word: Seq<char>)
    requires
        word.len() > 0,
        forall|i: int| 0 <= i < word.len() ==> !is_space(#[trigger] word[i]),
    ensures
        words_of(word) == seq![word],
{
    lemma_word_len(word, word.len() as int);
    assert(word.take(word.len() as int) =~= word);
    assert(word.skip(word.len() as int) =~= Seq::empty());
    assert(!is_space(word[0]));
    assert(words_of(Seq::<char>::empty()) =~= Seq::empty());
    assert(words_of(word) =~= seq![word]);
}

/// White space keeps the words in front of it apart from those behind it.
pub proof fn law_white_space_parts_words(front: Seq<char>, blank: char, back: Seq<char>)
    requires
        is_space(blank),
    ensures
        words_of(front + seq![blank] + back) == words_of(front) + words_of(back),
    decreases front.len(),
{
    let s = front + seq![blank] + back;
    if front.len() == 0 {
        assert(s.skip(1) =~= back);
        assert(words_of(front) =~= Seq::empty());
        assert(s[0] == blank);
    } else if is_space(front[0]) {
        assert(s[0] == front[0]);
        assert(s.skip(1) =~= front.skip(1) + seq![blank] + back);
        law_white_space_parts_words(front.skip(1), blank, back);
    } else {
        lemma_word_len_is_maximal(front);
        let n = word_len(front) as int;
        assert forall|i: int| 0 <= i < n implies !is_space(#[trigger] s[i]) by {
            assert(s[i] == front[i]);
        }
        assert(s[n] == (if n < front.len() {
            front[n]
        } else {
            blank
        }));
        lemma_word_len(s, n);
        assert(s[0] == front[0]);
        assert(s.take(n) =~= front.take(n));
        assert(s.skip(n) =~= front.skip(n) + seq![blank] + back);
        law_white_space_parts_words(front.skip(n), blank, back);
        assert(words_of(s) =~= words_of(front) + words_of(back));
    }
}

/// Splitting a text gives its words, each as it stands there and all in their order.
pub proof fn law_splitting_gives_the_words(text: &str, found: Vec<String>)
    requires
        call_ensures(words, (text,), found),
    ensures
        found@.len() == words_of(text@).len(),
        forall|i: int| 0 <= i < found@.len() ==> (#[trigger] found@[i])@ == words_of(text@)[i],
{
    assert forall|i: int| 0 <= i < found@.len() implies (#[trigger] found@[i])@ == words_of(
        text@,
    )[i] by {
        assert(texts(found@)[i] == found@[i]@);
    }
}

/// The value of digits: none is zero, and each further one counts after ten times those before.
pub proof fn law_value_of_digits(front: Seq<char>, digit: char)
    ensures
        digits_value(Seq::empty()) == 0,
        digits_value(front.push(digit)) == 10 * digits_value(front) + (digit as int - 48),
{
    assert(front.push(digit).drop_last() =~= front);
}

/// A number of 16 bits is written with at least one decimal digit and a value up to 65535, and
/// a plus sign may stand in front.
pub proof fn law_numbers_of_16_bits(text: Seq<char>)
    ensures
        is_u16_text(text) <==> exists|digits: Seq<char>|
            {
                &&& text == #[trigger] (Seq::<char>::empty() + digits) || text == seq!['+'] + digits
                &&& digits.len() > 0
                &&& forall|i: int|
                    0 <= i < digits.len() ==> 48 <= (#[trigger] digits[i]) as int <= 57
                &&& digits_value(digits) <= 65535
            },
{
    let shape = |digits: Seq<char>|
        {
            &&& digits.len() > 0
            &&& forall|i: int| 0 <= i < digits.len() ==> 48 <= (#[trigger] digits[i]) as int <= 57
            &&& digits_value(digits) <= 65535
        };
    if is_u16_text(text) {
        if is_u16_digits(text) {
            assert(text =~= Seq::<char>::empty() + text);
            assert(shape(text));
        } else {
            let digits = text.skip(1);
            assert(text =~= seq!['+'] + digits);
            assert(Seq::<char>::empty() + digits =~= digits);
            assert(shape(digits));
        }
    }
    assert forall|digits: Seq<char>|
        (text == #[trigger] (Seq::<char>::empty() + digits) || text == seq!['+'] + digits) && shape(
            digits,
        ) implies is_u16_text(text) by {
        assert(Seq::<char>::empty() + digits =~= digits);
        assert((seq!['+'] + digits).skip(1) =~= digits);
    }
}

/// A number is shown in decimal digits that have its value, and without a zero in front.
pub proof fn law_numbers_read_back(n: nat)
    ensures
        decimal_text(n).len() > 0,
        forall|i: int|
            0 <= i < decimal_text(n).len() ==> 48 <= (#[trigger] decimal_text(n)[i]) as int <= 57,
        digits_value(decimal_text(n)) == n,
        n > 0 ==> decimal_text(n)[0] != '0',
    decreases n,
{
    if n < 10 {
        assert(decimal_text(n).drop_last() =~= Seq::empty());
        assert(digits_value(Seq::<char>::empty()) == 0);
    } else {
        let front = decimal_text(n / 10);
        law_numbers_read_back(n / 10);
        assert(decimal_text(n).drop_last() =~= front);
        assert(decimal_text(n)[0] == front[0]);
        assert forall|i: int| 0 <= i < decimal_text(n).len() implies 48 <= (
        #[trigger] decimal_text(n)[i]) as int <= 57 by {
            if i < front.len() {
                assert(decimal_text(n)[i] == front[i]);
            }
        }
    }
}

/// Two numbers are shown alike only where they are the same.
pub proof fn law_numbers_are_told_apart(n: usize, m: usize, one: String, other: String)
    requires
        call_ensures(decimal, (n,), one),
        call_ensures(decimal, (m,), other),
    ensures
        one@ == other@ <==> n == m,
        digits_value(one@) == n,
{
    law_numbers_read_back(n as nat);
    law_numbers_read_back(m as nat);
}

/// A truth value is shown as `true` or `false`.
pub proof fn law_truth_is_shown(value: bool, text: &'static str)
    requires
        call_ensures(truth, (value,), text),
    ensures
        value ==> text@ == "true"@,
        !value ==> text@ == "false"@,
{
}

/// A text that is padded stands in front, as it is, and nothing but spaces follow it; it fills the
/// width, or is as long as it was.
pub proof fn law_padding_only_adds_spaces(text: &str, width: usize, line: String)
    requires
        call_ensures(padded, (text, width), line),
    ensures
        line@.len() == (if text@.len() < width {
            width as int
        } else {
            text@.len() as int
        }),
        line@.take(text@.len() as int) == text@,
        forall|i: int| text@.len() <= i < line@.len() ==> #[trigger] line@[i] == ' ',
{
    assert(line@.take(text@.len() as int) =~= text@);
}

} // verus!
