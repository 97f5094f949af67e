//! Text: what the crate needs of strings beyond joining them.

use vstd::prelude::*;

verus! {

/// The character of a decimal digit.
pub open spec fn digit_char(d: nat) -> char {
    (('0' as nat) + d) as char
}

/// Whether a character is one of `0` to `9`.
pub open spec fn is_digit(c: char) -> bool {
    '0' <= c <= '9'
}

/// The number that a run of digits stands for in base ten.
pub open spec fn digits_value(digits: Seq<char>) -> nat
    decreases digits.len(),
{
    if digits.len() == 0 {
        0
    } else {
        digits_value(digits.drop_last()) * 10 + (digits.last() as nat - '0' as nat) as nat
    }
}

/// A number in base ten, without leading zeros.
pub open spec fn decimal(n: nat) -> Seq<char>
    decreases n,
{
    if n < 10 {
        seq![digit_char(n)]
    } else {
        decimal(n / 10).push(digit_char(n % 10))
    }
}

/// The text behind an optional leading `+`.
pub open spec fn after_plus(text: Seq<char>) -> Seq<char> {
    if text.len() > 0 && text[0] == '+' {
        text.drop_first()
    } else {
        text
    }
}

/// The unsigned number that a text is: an optional `+`, then one or more
/// digits, with a value that fits in 64 bits.
pub open spec fn unsigned_value(text: Seq<char>) -> Option<u64> {
    let digits = after_plus(text);
    if digits.len() > 0 && (forall|i: int|
        0 <= i < digits.len() ==> is_digit(#[trigger] digits[i])) && digits_value(digits)
        <= u64::MAX {
        Some(digits_value(digits) as u64)
    } else {
        None
    }
}

/// What a list of texts says.
pub open spec fn text_views(texts: Seq<String>) -> Seq<Seq<char>> {
    texts.map_values(|text: String| text@)
}

/// What `String::from_utf8_lossy` makes of bytes.
pub uninterp spec fn utf8_lossy(bytes: Seq<u8>) -> Seq<char>;

/// The text in `bytes`, with a replacement character for what is no UTF-8.
///
/// Calls `String::from_utf8_lossy` of std, which keeps valid UTF-8 as it is.
/// How many replacement characters stand for bytes that are not valid is left
/// to the name [`utf8_lossy`].
#[verifier::external_body]
pub(crate) fn lossy_text(bytes: &[u8]) -> (res: String)
    ensures
        res@ == utf8_lossy(bytes@),
        vstd::utf8::valid_utf8(bytes@) ==> res@ == vstd::utf8::decode_utf8(bytes@),
{
    String::from_utf8_lossy(bytes).into_owned()
}

/// The one-character text of `c`.
///
/// Calls `char::to_string` of std, which yields a string with that character
/// and nothing else.
#[verifier::external_body]
pub(crate) fn char_text(c: char) -> (res: String)
    ensures
        res@ == seq![c],
{
    c.to_string()
}

/// Reads `text` as an unsigned number, see [`unsigned_value`].
pub fn parse_unsigned(text: &str) -> (res: Option<u64>)
    ensures
        res == unsigned_value(text@),
{
    let len: usize = text.unicode_len();
    let start: usize = if len > 0 && text.get_char(0) == '+' {
        1
    } else {
        0
    };
    let ghost digits = after_plus(text@);
    assert(digits == text@.subrange(start as int, len as int));
    if start == len {
        return None;
    }
    let mut value: u64 = 0;
    let mut i: usize = start;
    while i < len
        invariant
            start <= i <= len,
            start <= 1,
            len == text@.len(),
            digits == after_plus(text@),
            digits == text@.subrange(start as int, len as int),
            forall|k: int| 0 <= k < i - start ==> is_digit(#[trigger] digits[k]),
            value == digits_value(digits.take(i - start)),
        decreases len - i,
    {
        let c: char = text.get_char(i);
        let ghost k = i - start;
        assert(digits[k] == c);
        assert(digits.take(k + 1).drop_last() == digits.take(k));
        if !(c >= '0' && c <= '9') {
            assert(!is_digit(digits[k]));
            return None;
        }
        let digit: u64 = c as u64 - '0' as u64;
        proof {
            lemma_value_grows(digits, k + 1);
        }
        if value > (u64::MAX - digit) / 10 {
            return None;
        }
        value = value * 10 + digit;
        i = i + 1;
    }
    assert(digits.take(len - start) == digits);
    Some(value)
}

/// Writes `n` in base ten.
pub fn decimal_text(n: u64) -> (res: String)
    ensures
        res@ == decimal(n as nat),
    decreases n,
{
    if n < 10 {
        char_text(digit_of(n))
    } else {
        let mut res: String = decimal_text(n / 10);
        let last: String = char_text(digit_of(n % 10));
        res.append(last.as_str());
        res
    }
}

fn digit_of(d: u64) -> (c: char)
    requires
        d < 10,
    ensures
        c == digit_char(d as nat),
{
    (('0' as u8) + (d as u8)) as char
}

/// A run of digits is worth at least what any shorter beginning of it is.
proof fn lemma_value_grows(digits: Seq<char>, k: int)
    requires
        0 <= k <= digits.len(),
    ensures
        digits_value(digits.take(k)) <= digits_value(digits),
    decreases digits.len(),
{
    if k == digits.len() {
        assert(digits.take(k) == digits);
    } else {
        lemma_value_grows(digits.drop_last(), k);
        assert(digits.drop_last().take(k) == digits.take(k));
    }
}

/// Writing a number and reading it back gives the number.
pub proof fn law_decimal_read_back(n: u64)
    ensures
        unsigned_value(decimal(n as nat)) == Some(n),
{
    lemma_decimal_value(n as nat);
    let digits = decimal(n as nat);
    assert(is_digit(digits[0]));
    assert(after_plus(digits) == digits);
}

proof fn lemma_decimal_value(n: nat)
    ensures
        decimal(n).len() > 0,
        forall|i: int| 0 <= i < decimal(n).len() ==> is_digit(#[trigger] decimal(n)[i]),
        digits_value(decimal(n)) == n,
    decreases n,
{
    if n < 10 {
        let digits = seq![digit_char(n)];
        assert(decimal(n) == digits);
        assert(digits.drop_last() == Seq::<char>::empty());
        assert(digits_value(digits.drop_last()) == 0);
    } else {
        lemma_decimal_value(n / 10);
        assert(decimal(n).drop_last() == decimal(n / 10));
    }
}

/// A text that begins a number is read on digit by digit: a further digit
/// makes the value ten times as large and adds its own, up to what 64 bits
/// hold. Anything else behind a number makes it none, and what is no number
/// does not become one.
pub proof fn law_number_is_read_digit_by_digit(text: Seq<char>, c: char)
    requires
        text.len() > 0,
        text != seq!['+'],
    ensures
        ({
            let digit = c as int - '0' as int;
            match unsigned_value(text) {
                Some(value) => if '0' <= c && c <= '9' && value * 10 + digit
                    <= 0xffff_ffff_ffff_ffff {
                    unsigned_value(text.push(c)) is Some && unsigned_value(text.push(c))->0
                        == value * 10 + digit
                } else {
                    unsigned_value(text.push(c)) is None
                },
                None => unsigned_value(text.push(c)) is None,
            }
        }),
{
    let digits = after_plus(text);
    let longer = text.push(c);
    if text[0] == '+' {
        assert(text.len() > 1) by {
            if text.len() == 1 {
                assert(text =~= seq!['+']);
            }
        }
        assert(longer.drop_first() =~= digits.push(c));
    }
    assert(after_plus(longer) == digits.push(c));
    assert(digits.push(c).drop_last() =~= digits);
    assert(digits.push(c).last() == c);
    assert(digits_value(digits.push(c)) == digits_value(digits) * 10 + (c as nat
        - '0' as nat) as nat);
    assert(digits.push(c)[digits.len() as int] == c);
    assert forall|i: int| 0 <= i < digits.len() implies #[trigger] digits[i] == digits.push(c)[i] by {}
}

/// The shortest numbers are single digits, worth their place behind zero, with
/// or without a plus sign; an empty text and a lone plus sign are none.
pub proof fn law_shortest_numbers(c: char)
    ensures
        unsigned_value(seq![]) is None,
        unsigned_value(seq!['+']) is None,
        unsigned_value(seq![c]) is Some <==> '0' <= c && c <= '9',
        unsigned_value(seq![c]) is Some ==> unsigned_value(seq![c])->0 == c as int - '0' as int,
        c != '+' ==> unsigned_value(seq!['+', c]) == unsigned_value(seq![c]),
        unsigned_value(seq!['+', '+']) is None,
{
    let one = seq![c];
    assert(one.drop_last() =~= seq![]);
    assert(digits_value(one.drop_last()) == 0);
    assert(one[0] == c);
    assert(seq!['+'].drop_first() =~= seq![]);
    assert(seq!['+', c].drop_first() =~= one);
    let plus = seq!['+', '+'].drop_first();
    assert(plus =~= seq!['+']);
    assert(!is_digit(plus[0]));
    if c == '+' {
        assert(one.drop_first() =~= seq![]);
    }
}

/// A number is written with digits alone, and with no zero in front of
/// another digit.
pub proof fn law_decimal_has_no_leading_zero(n: nat)
    ensures
        decimal(n).len() > 0,
        forall|i: int|
            0 <= i < decimal(n).len() ==> '0' <= #[trigger] decimal(n)[i] && decimal(n)[i] <= '9',
        n > 0 ==> decimal(n)[0] != '0',
        n == 0 ==> decimal(n) == seq!['0'],
    decreases n,
{
    lemma_decimal_value(n);
    if n >= 10 {
        law_decimal_has_no_leading_zero(n / 10);
        assert(decimal(n)[0] == decimal(n / 10)[0]);
    }
}

/// A list of texts says what each of them says, in the same order.
pub proof fn law_texts_say_their_characters(texts: Seq<String>)
    ensures
        text_views(texts).len() == texts.len(),
        forall|i: int| 0 <= i < texts.len() ==> #[trigger] text_views(texts)[i] == texts[i]@,
{
}

} // verus!
