//! Words and decimal numbers.

use vstd::prelude::*;
use vstd::string::*;

verus! {

/// Whether a character has the Unicode property `White_Space`.
pub open spec fn white_space(c: char) -> bool {
    ||| '\u{9}' <= c <= '\u{d}'
    ||| c == '\u{20}'
    ||| c == '\u{85}'
    ||| c == '\u{a0}'
    ||| c == '\u{1680}'
    ||| '\u{2000}' <= c <= '\u{200a}'
    ||| '\u{2028}' <= c <= '\u{2029}'
    ||| c == '\u{202f}'
    ||| c == '\u{205f}'
    ||| c == '\u{3000}'
}

/// Tells whether a character has the Unicode property `White_Space`.
pub fn is_white_space(c: char) -> (space: bool)
    ensures
        space == white_space(c),
{
    ('\u{9}' <= c && c <= '\u{d}') || c == '\u{20}' || c == '\u{85}' || c == '\u{a0}' || c
        == '\u{1680}' || ('\u{2000}' <= c && c <= '\u{200a}') || ('\u{2028}' <= c && c
        <= '\u{2029}') || c == '\u{202f}' || c == '\u{205f}' || c == '\u{3000}'
}

/// The length of the run of other characters that stands before the first white
/// space.
pub open spec fn word_length(text: Seq<char>) -> nat
    decreases text.len(),
{
    if text.len() == 0 || white_space(text[0]) {
        0
    } else {
        1 + word_length(text.skip(1))
    }
}

/// The words of a text: its longest runs of characters other than white space, in
/// the order in which they stand.
pub open spec fn words(text: Seq<char>) -> Seq<Seq<char>>
    decreases text.len(),
{
    if text.len() == 0 {
        Seq::empty()
    } else if white_space(text[0]) {
        words(text.skip(1))
    } else {
        let length = word_length(text) as int;
        proof {
            lemma_word_length(text);
        }
        seq![text.take(length)] + words(text.skip(length))
    }
}

/// A word that starts the text is not empty, holds no white space, and ends with
/// the text or before white space.
pub proof fn lemma_word_length(text: Seq<char>)
    ensures
        word_length(text) <= text.len(),
        text.len() > 0 && !white_space(text[0]) ==> word_length(text) > 0,
        forall|i: int| 0 <= i < word_length(text) ==> !white_space(#[trigger] text[i]),
        word_length(text) < text.len() ==> white_space(text[word_length(text) as int]),
    decreases text.len(),
{
    if text.len() > 0 && !white_space(text[0]) {
        lemma_word_length(text.skip(1));
        assert forall|i: int| 0 <= i < word_length(text) implies !white_space(
            #[trigger] text[i],
        ) by {
            if i > 0 {
                assert(text.skip(1)[i - 1] == text[i]);
            }
        }
    }
}

/// Splits a text into its words.
pub fn split_words(text: &str) -> (list: Vec<String>)
    ensures
        list.deep_view() == words(text@),
{
    let mut list: Vec<String> = Vec::new();
    let length: usize = text.unicode_len();
    let mut start: usize = 0;
    assert(text@.skip(0) =~= text@);
    assert(list.deep_view() =~= Seq::<Seq<char>>::empty());
    while start < length
        invariant
            start <= length == text@.len(),
            words(text@) == list.deep_view() + words(text@.skip(start as int)),
        decreases length - start,
    {
        let ghost rest = text@.skip(start as int);
        if is_white_space(text.get_char(start)) {
            assert(rest.skip(1) =~= text@.skip(start + 1));
            start = start + 1;
        } else {
            let mut end: usize = start + 1;
            proof {
                lemma_word_length(rest);
                assert(rest.skip(1) =~= text@.skip(end as int));
            }
            while end < length && !is_white_space(text.get_char(end))
                invariant
                    start < end <= length == text@.len(),
                    word_length(rest) == end - start + word_length(text@.skip(end as int)),
                decreases length - end,
            {
                assert(text@.skip(end as int).skip(1) =~= text@.skip(end + 1));
                end = end + 1;
            }
            let ghost before = list.deep_view();
            list.push(text.substring_char(start, end).to_owned());
            assert(list.deep_view() =~= before.push(text@.subrange(start as int, end as int)));
            assert(rest.take(end - start) =~= text@.subrange(start as int, end as int));
            assert(rest.skip(end - start) =~= text@.skip(end as int));
            start = end;
        }
    }
    assert(words(text@.skip(start as int)) =~= Seq::<Seq<char>>::empty());
    assert(words(text@) =~= list.deep_view());
    list
}

/// The decimal digit of a number below ten.
pub open spec fn digit(value: nat) -> char {
    if value == 0 {
        '0'
    } else if value == 1 {
        '1'
    } else if value == 2 {
        '2'
    } else if value == 3 {
        '3'
    } else if value == 4 {
        '4'
    } else if value == 5 {
        '5'
    } else if value == 6 {
        '6'
    } else if value == 7 {
        '7'
    } else if value == 8 {
        '8'
    } else {
        '9'
    }
}

/// The decimal digits of a number, without leading zeros.
pub open spec fn decimal(value: nat) -> Seq<char>
    decreases value,
{
    if value < 10 {
        seq![digit(value)]
    } else {
        decimal(value / 10).push(digit(value % 10))
    }
}

fn digit_text(value: u128) -> (text: &'static str)
    requires
        value < 10,
    ensures
        text@ == seq![digit(value as nat)],
{
    proof {
        reveal_strlit("0");
        reveal_strlit("1");
        reveal_strlit("2");
        reveal_strlit("3");
        reveal_strlit("4");
        reveal_strlit("5");
        reveal_strlit("6");
        reveal_strlit("7");
        reveal_strlit("8");
        reveal_strlit("9");
    }
    match value {
        0 => "0",
        1 => "1",
        2 => "2",
        3 => "3",
        4 => "4",
        5 => "5",
        6 => "6",
        7 => "7",
        8 => "8",
        _ => "9",
    }
}

/// Writes a number in decimal digits.
pub fn decimal_text(value: u128) -> (text: String)
    ensures
        text@ == decimal(value as nat),
    decreases value,
{
    if value < 10 {
        digit_text(value).to_owned()
    } else {
        let mut text = decimal_text(value / 10);
        text.append(digit_text(value % 10));
        assert(text@ =~= decimal(value as nat));
        text
    }
}

/// A number has at least one digit, and no digit is a hyphen.
pub proof fn lemma_digits(value: nat)
    ensures
        decimal(value).len() > 0,
        forall|i: int| 0 <= i < decimal(value).len() ==> #[trigger] decimal(value)[i] != '-',
    decreases value,
{
    if value >= 10 {
        lemma_digits(value / 10);
    }
}

/// Different numbers have different digits.
pub proof fn lemma_decimal(left: nat, right: nat)
    requires
        decimal(left) == decimal(right),
    ensures
        left == right,
    decreases left,
{
    if left >= 10 {
        lemma_digits(left / 10);
    }
    if right >= 10 {
        lemma_digits(right / 10);
    }
    assert(decimal(left).last() == digit(left % 10));
    assert(decimal(right).last() == digit(right % 10));
    assert(decimal(left).len() == decimal(right).len());
    if left >= 10 && right >= 10 {
        assert(decimal(left).drop_last() =~= decimal(left / 10));
        assert(decimal(right).drop_last() =~= decimal(right / 10));
        lemma_decimal(left / 10, right / 10);
    }
}

} // verus!
