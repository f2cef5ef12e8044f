//! What holds of the text functions.

use crate::log_tail::LineSeverity;
use crate::text::{
    capital, decimal, decimal_text, has_word, is_blank, prefix_text, signed_decimal,
    signed_decimal_text, white_space, word_at,
};
use vstd::prelude::*;

verus! {

/// The number that a row of decimal digits stands for.
pub open spec fn number_in(digits: Seq<char>) -> int
    decreases digits.len(),
{
    if digits.len() == 0 {
        0
    } else {
        10 * number_in(digits.drop_last()) + (digits.last() as int - '0' as int)
    }
}

/// Whether `text` is a number as it is usually written: digits, and no zero before others.
pub open spec fn well_written(text: Seq<char>) -> bool {
    &&& text.len() > 0
    &&& forall|i: int| 0 <= i < text.len() ==> '0' <= #[trigger] text[i] <= '9'
    &&& text.len() > 1 ==> text[0] != '0'
}

/// The decimal form of a number reads back as that number.
pub proof fn lemma_decimal_reads_back(n: nat)
    ensures
        well_written(decimal(n)),
        number_in(decimal(n)) == n,
        n > 0 ==> decimal(n)[0] != '0',
    decreases n,
{
    if n >= 10 {
        lemma_decimal_reads_back(n / 10);
        let d = (0x30 + n % 10) as char;
        assert(decimal(n) == decimal(n / 10).push(d));
        assert(decimal(n).drop_last() =~= decimal(n / 10));
    } else {
        assert(decimal(n).drop_last() =~= Seq::empty());
        reveal_with_fuel(number_in, 2);
    }
}

/// A number is written so that it reads back as itself.
pub proof fn law_number_reads_back(n: u64, text: String)
    requires
        call_ensures(decimal_text, (n,), text),
    ensures
        well_written(text@),
        number_in(text@) == n,
{
    lemma_decimal_reads_back(n as nat);
}

/// A signed number is written so that it reads back as itself, a negative one behind a minus sign.
pub proof fn law_signed_number_reads_back(n: i64, text: String)
    requires
        call_ensures(signed_decimal_text, (n,), text),
    ensures
        n >= 0 ==> well_written(text@) && number_in(text@) == n,
        n < 0 ==> {
            &&& text@.len() > 0
            &&& text@[0] == '-'
            &&& well_written(text@.skip(1))
            &&& number_in(text@.skip(1)) == -n
        },
{
    lemma_signed_decimal_reads_back(n as int);
}

/// The signed decimal form of a number reads back as that number.
pub proof fn lemma_signed_decimal_reads_back(n: int)
    ensures
        n >= 0 ==> well_written(signed_decimal(n)) && number_in(signed_decimal(n)) == n,
        n < 0 ==> {
            &&& signed_decimal(n).len() > 0
            &&& signed_decimal(n)[0] == '-'
            &&& well_written(signed_decimal(n).skip(1))
            &&& number_in(signed_decimal(n).skip(1)) == -n
        },
{
    if n >= 0 {
        lemma_decimal_reads_back(n as nat);
    } else {
        lemma_decimal_reads_back((-n) as nat);
        assert(signed_decimal(n).skip(1) =~= decimal((-n) as nat));
    }
}

/// A prefix is the beginning of its text, as long as asked for or else the whole text.
pub proof fn law_prefix_is_the_beginning(s: &str, n: usize, text: String)
    requires
        call_ensures(prefix_text, (s, n), text),
    ensures
        text@.len() <= n,
        text@.len() == n || text@ == s@,
        text@.is_prefix_of(s@),
{
}

/// A text is blank unless some character of it is not white space.
pub proof fn law_blank_has_white_space_only(s: &str, yes: bool)
    requires
        call_ensures(is_blank, (s,), yes),
    ensures
        !yes <==> exists|i: int| 0 <= i < s@.len() && !white_space(#[trigger] s@[i]),
{
}

/// Visible ASCII characters are no white space; the blank, the tab and the line ends are.
pub proof fn law_ascii_white_space(c: char)
    requires
        (c as int) < 0x80,
    ensures
        c == ' ' || c == '\t' || c == '\n' || c == '\r' ==> white_space(c),
        '!' <= c <= '~' ==> !white_space(c),
{
}

/// Whether `word` is written in capitals only.
pub open spec fn in_capitals(word: Seq<char>) -> bool {
    forall|i: int| 0 <= i < word.len() ==> 'A' <= #[trigger] word[i] <= 'Z'
}

/// Whether `letter` is `capital`, or its small form.
pub open spec fn same_letter(letter: char, capital: char) -> bool {
    letter == capital || letter as int == capital as int + 'a' as int - 'A' as int
}

/// Whether the word in capitals stands in `s` somewhere, each letter in capitals or small.
pub open spec fn mentions(s: Seq<char>, word: Seq<char>) -> bool {
    exists|i: int| #[trigger] mentions_at(s, word, i)
}

/// Whether the word in capitals stands in `s` at `i`, each letter in capitals or small.
pub open spec fn mentions_at(s: Seq<char>, word: Seq<char>, i: int) -> bool {
    &&& 0 <= i <= s.len() - word.len()
    &&& forall|j: int| 0 <= j < word.len() ==> same_letter(s[i + j], #[trigger] word[j])
}

/// Looking for a word finds it just where it is mentioned.
pub proof fn law_words_are_found_in_either_case(s: Seq<char>, word: Seq<char>)
    requires
        in_capitals(word),
    ensures
        has_word(s, word) <==> mentions(s, word),
{
    assert forall|i: int| word_at(s, word, i) <==> #[trigger] mentions_at(s, word, i) by {
        if word_at(s, word, i) {
            assert forall|j: int| 0 <= j < word.len() implies same_letter(
                s[i + j],
                #[trigger] word[j],
            ) by {
                assert(capital(s[i + j]) == word[j]);
            }
        }
        if mentions_at(s, word, i) {
            assert forall|j: int| 0 <= j < word.len() implies capital(s[i + j])
                == #[trigger] word[j] by {
                assert(same_letter(s[i + j], word[j]));
                assert('A' <= word[j] <= 'Z');
            }
        }
    }
    if has_word(s, word) {
        let i = choose|i: int| word_at(s, word, i);
        assert(mentions_at(s, word, i));
    }
    if mentions(s, word) {
        let i = choose|i: int| #[trigger] mentions_at(s, word, i);
        assert(word_at(s, word, i));
    }
}

/// The words that severities go by are written in capitals.
proof fn lemma_severity_words()
    ensures
        in_capitals("ERROR"@),
        in_capitals("FATAL"@),
        in_capitals("WARN"@),
        in_capitals("INFO"@),
        in_capitals("DEBUG"@),
        in_capitals("TRACE"@),
{
    reveal_strlit("ERROR");
    reveal_strlit("FATAL");
    reveal_strlit("WARN");
    reveal_strlit("INFO");
    reveal_strlit("DEBUG");
    reveal_strlit("TRACE");
}

/// A line that mentions an error is an error whatever else it says, and so on down to the line that
/// mentions none of the words.
pub proof fn law_gravest_word_decides(text: &str, severity: LineSeverity)
    requires
        call_ensures(LineSeverity::classify, (text,), severity),
    ensures
        ({
            let error = mentions(text@, "ERROR"@) || mentions(text@, "FATAL"@);
            let warn = mentions(text@, "WARN"@);
            let info = mentions(text@, "INFO"@);
            let debug = mentions(text@, "DEBUG"@) || mentions(text@, "TRACE"@);
            &&& severity == LineSeverity::Error <==> error
            &&& severity == LineSeverity::Warn <==> !error && warn
            &&& severity == LineSeverity::Info <==> !error && !warn && info
            &&& severity == LineSeverity::Debug <==> !error && !warn && !info && debug
            &&& severity == LineSeverity::Plain <==> !error && !warn && !info && !debug
        }),
{
    lemma_severity_words();
    law_words_are_found_in_either_case(text@, "ERROR"@);
    law_words_are_found_in_either_case(text@, "FATAL"@);
    law_words_are_found_in_either_case(text@, "WARN"@);
    law_words_are_found_in_either_case(text@, "INFO"@);
    law_words_are_found_in_either_case(text@, "DEBUG"@);
    law_words_are_found_in_either_case(text@, "TRACE"@);
}

} // verus!
