//! Questions about texts, answered character by character.

use vstd::prelude::*;
use vstd::string::{StrSliceExecFns, StringExecFns};

verus! {

/// Whether `pattern` occurs in `text`.
pub open spec fn has_substring(text: Seq<char>, pattern: Seq<char>) -> bool {
    exists|i: int|
        0 <= i <= text.len() - pattern.len() && #[trigger] text.subrange(i, i + pattern.len())
            == pattern
}

/// The characters with the Unicode property `White_Space`.
pub open spec fn white_space(c: char) -> bool {
    ||| 0x09 <= c as u32 <= 0x0d
    ||| c as u32 == 0x20
    ||| c as u32 == 0x85
    ||| c as u32 == 0xa0
    ||| c as u32 == 0x1680
    ||| 0x2000 <= c as u32 <= 0x200a
    ||| 0x2028 <= c as u32 <= 0x2029
    ||| c as u32 == 0x202f
    ||| c as u32 == 0x205f
    ||| c as u32 == 0x3000
}

/// `text` without the white space that it starts with.
pub open spec fn trimmed_start(text: Seq<char>) -> Seq<char>
    decreases text.len(),
{
    if text.len() > 0 && white_space(text.first()) {
        trimmed_start(text.drop_first())
    } else {
        text
    }
}

/// `text` without the white space that it ends with.
pub open spec fn trimmed_end(text: Seq<char>) -> Seq<char>
    decreases text.len(),
{
    if text.len() > 0 && white_space(text.last()) {
        trimmed_end(text.drop_last())
    } else {
        text
    }
}

/// `text` without white space at either end.
pub open spec fn trimmed(text: Seq<char>) -> Seq<char> {
    trimmed_end(trimmed_start(text))
}

/// `text` without the slashes that it ends with.
pub open spec fn without_end_slashes(text: Seq<char>) -> Seq<char>
    decreases text.len(),
{
    if text.len() > 0 && text.last() == '/' {
        without_end_slashes(text.drop_last())
    } else {
        text
    }
}

/// `a` stands before `b` in the order of a dictionary of code points.
pub open spec fn lex_less(a: Seq<char>, b: Seq<char>) -> bool
    decreases a.len(),
{
    if b.len() == 0 {
        false
    } else if a.len() == 0 {
        true
    } else if a.first() != b.first() {
        (a.first() as u32) < (b.first() as u32)
    } else {
        lex_less(a.drop_first(), b.drop_first())
    }
}

/// Of two different texts, exactly one stands before the other.
pub proof fn lex_less_is_total(a: Seq<char>, b: Seq<char>)
    ensures
        lex_less(a, b) || lex_less(b, a) || a == b,
        !(lex_less(a, b) && lex_less(b, a)),
        !lex_less(a, a),
    decreases a.len(),
{
    if a.len() > 0 {
        lex_less_is_total(a.drop_first(), a.drop_first());
    }
    if a.len() > 0 && b.len() > 0 {
        lex_less_is_total(a.drop_first(), b.drop_first());
        if a.first() == b.first() && a.drop_first() == b.drop_first() {
            assert(a =~= seq![a.first()] + a.drop_first());
            assert(b =~= seq![b.first()] + b.drop_first());
        }
        if a.first() != b.first() {
            vstd::utf8::char_u32_cast(a.first(), a.first() as u32);
            vstd::utf8::char_u32_cast(b.first(), b.first() as u32);
        }
    } else if a.len() == 0 && b.len() == 0 {
        assert(a =~= b);
    }
}

/// What stands before a text stands before all that follows it.
pub proof fn lex_less_is_transitive(a: Seq<char>, b: Seq<char>, c: Seq<char>)
    requires
        lex_less(a, b),
        lex_less(b, c),
    ensures
        lex_less(a, c),
    decreases a.len(),
{
    if a.len() > 0 && a.first() == b.first() && b.first() == c.first() {
        lex_less_is_transitive(a.drop_first(), b.drop_first(), c.drop_first());
    }
}

/// What a result says.
pub open spec fn viewed<T: View, E>(r: Result<T, E>) -> Result<T::V, E> {
    match r {
        Ok(value) => Ok(value@),
        Err(error) => Err(error),
    }
}

/// What a result says, with what its error says.
pub open spec fn outcome<T: DeepView, E: View>(r: Result<T, E>) -> Result<T::V, E::V> {
    match r {
        Ok(value) => Ok(value.deep_view()),
        Err(error) => Err(error@),
    }
}

/// Whether two texts are the same.
pub fn text_eq(a: &str, b: &str) -> (r: bool)
    ensures
        r == (a@ == b@),
{
    a.to_string() == b.to_string()
}

/// Whether an optional text is present and the same as `b`.
pub fn option_text_eq(a: &Option<String>, b: &str) -> (r: bool)
    ensures
        r == (a.deep_view() == Some(b@)),
{
    match a {
        Some(a) => text_eq(a.as_str(), b),
        None => false,
    }
}

/// A copy of an optional text.
pub fn clone_option_text(text: &Option<String>) -> (r: Option<String>)
    ensures
        r.deep_view() == text.deep_view(),
{
    match text {
        Some(text) => Some(text.clone()),
        None => None,
    }
}

/// Whether `pattern` occurs in `text`.
pub fn contains(text: &str, pattern: &str) -> (r: bool)
    ensures
        r == has_substring(text@, pattern@),
{
    let len: usize = text.unicode_len();
    let width: usize = pattern.unicode_len();
    if width > len {
        return false;
    }
    let mut i: usize = 0;
    while i <= len - width
        invariant
            len == text@.len(),
            width == pattern@.len(),
            width <= len,
            i <= len - width + 1,
            forall|j: int|
                0 <= j < i ==> #[trigger] text@.subrange(j, j + pattern@.len()) != pattern@,
        decreases len - width + 1 - i,
    {
        if text_eq(text.substring_char(i, i + width), pattern) {
            assert(text@.subrange(i as int, i + pattern@.len()) == pattern@);
            return true;
        }
        if i == len - width {
            return false;
        }
        i = i + 1;
    }
    false
}

/// Whether `text` starts with `c`.
pub fn starts_with_char(text: &str, c: char) -> (r: bool)
    ensures
        r == (text@.len() > 0 && text@[0] == c),
{
    text.unicode_len() > 0 && text.get_char(0) == c
}

/// What follows `prefix` in `text`, where `text` starts with it.
pub fn strip_prefix(text: &str, prefix: &str) -> (r: Option<String>)
    ensures
        r.deep_view() == (if prefix@.len() <= text@.len() && text@.subrange(
            0,
            prefix@.len() as int,
        ) == prefix@ {
            Some(text@.subrange(prefix@.len() as int, text@.len() as int))
        } else {
            None
        }),
{
    let len: usize = text.unicode_len();
    let width: usize = prefix.unicode_len();
    if width <= len && text_eq(text.substring_char(0, width), prefix) {
        Some(text.substring_char(width, len).to_string())
    } else {
        None
    }
}

/// Whether `c` has the Unicode property `White_Space`.
pub fn is_white_space(c: char) -> (r: bool)
    ensures
        r == white_space(c),
{
    let n: u32 = c as u32;
    (0x09 <= n && n <= 0x0d) || n == 0x20 || n == 0x85 || n == 0xa0 || n == 0x1680 || (0x2000 <= n
        && n <= 0x200a) || (0x2028 <= n && n <= 0x2029) || n == 0x202f || n == 0x205f || n == 0x3000
}

/// `text` without the white space that it starts with.
pub fn trim_start(text: &str) -> (r: &str)
    ensures
        r@ == trimmed_start(text@),
{
    let len: usize = text.unicode_len();
    let mut i: usize = 0;
    assert(text@.skip(0) =~= text@);
    while i < len && is_white_space(text.get_char(i))
        invariant
            len == text@.len(),
            i <= len,
            trimmed_start(text@.skip(i as int)) == trimmed_start(text@),
        decreases len - i,
    {
        assert(text@.skip(i as int).drop_first() =~= text@.skip(i + 1));
        i = i + 1;
    }
    assert(text@.subrange(i as int, len as int) =~= text@.skip(i as int));
    text.substring_char(i, len)
}

/// `text` without white space at either end.
pub fn trim(text: &str) -> (r: &str)
    ensures
        r@ == trimmed(text@),
{
    let text = trim_start(text);
    let mut end: usize = text.unicode_len();
    assert(text@.take(end as int) =~= text@);
    while end > 0 && is_white_space(text.get_char(end - 1))
        invariant
            end <= text@.len(),
            trimmed_end(text@.take(end as int)) == trimmed_end(text@),
        decreases end,
    {
        assert(text@.take(end as int).drop_last() =~= text@.take(end - 1));
        end = end - 1;
    }
    assert(text@.subrange(0, end as int) =~= text@.take(end as int));
    text.substring_char(0, end)
}

/// Whether `text` holds white space only.
pub fn is_blank(text: &str) -> (r: bool)
    ensures
        r == (trimmed(text@).len() == 0),
{
    trim(text).is_empty()
}

/// `text` without the slashes that it ends with.
pub fn trim_end_slashes(text: &str) -> (r: &str)
    ensures
        r@ == without_end_slashes(text@),
{
    let mut end: usize = text.unicode_len();
    assert(text@.take(end as int) =~= text@);
    while end > 0 && text.get_char(end - 1) == '/'
        invariant
            end <= text@.len(),
            without_end_slashes(text@.take(end as int)) == without_end_slashes(text@),
        decreases end,
    {
        assert(text@.take(end as int).drop_last() =~= text@.take(end - 1));
        end = end - 1;
    }
    assert(text@.subrange(0, end as int) =~= text@.take(end as int));
    text.substring_char(0, end)
}

/// Whether `a` stands before `b` in the order of a dictionary of code points.
pub fn text_less(a: &str, b: &str) -> (r: bool)
    ensures
        r == lex_less(a@, b@),
{
    let a_len: usize = a.unicode_len();
    let b_len: usize = b.unicode_len();
    let mut i: usize = 0;
    assert(a@.skip(0) =~= a@ && b@.skip(0) =~= b@);
    while i < a_len && i < b_len
        invariant
            a_len == a@.len(),
            b_len == b@.len(),
            i <= a_len,
            i <= b_len,
            lex_less(a@.skip(i as int), b@.skip(i as int)) == lex_less(a@, b@),
        decreases a_len - i,
    {
        let x: char = a.get_char(i);
        let y: char = b.get_char(i);
        if x != y {
            return (x as u32) < (y as u32);
        }
        assert(a@.skip(i as int).drop_first() =~= a@.skip(i + 1));
        assert(b@.skip(i as int).drop_first() =~= b@.skip(i + 1));
        i = i + 1;
    }
    i < b_len
}

/// The value of a character as a decimal digit.
pub open spec fn digit(c: char) -> int {
    c as u32 - 48
}

/// Every character is a decimal digit.
pub open spec fn all_digits(text: Seq<char>) -> bool {
    forall|i: int| 0 <= i < text.len() ==> 0 <= digit(#[trigger] text[i]) <= 9
}

/// The number that decimal digits write.
pub open spec fn digits_value(text: Seq<char>) -> int
    decreases text.len(),
{
    if text.len() == 0 {
        0
    } else {
        10 * digits_value(text.drop_last()) + digit(text.last())
    }
}

/// The digits of a decimal number with an optional sign in front of them.
pub open spec fn unsigned_part(text: Seq<char>) -> Seq<char> {
    if text.len() > 0 && (text[0] == '-' || text[0] == '+') {
        text.skip(1)
    } else {
        text
    }
}

/// The integer that a text writes in decimal, with an optional sign.
pub open spec fn signed_value(text: Seq<char>) -> int {
    if text.len() > 0 && text[0] == '-' {
        -digits_value(unsigned_part(text))
    } else {
        digits_value(unsigned_part(text))
    }
}

/// A text that writes an integer that fits into 64 bits: an optional sign, then decimal digits.
pub open spec fn writes_i64(text: Seq<char>) -> bool {
    &&& unsigned_part(text).len() > 0
    &&& all_digits(unsigned_part(text))
    &&& i64::MIN <= signed_value(text) <= i64::MAX
}

proof fn lemma_digits_grow(text: Seq<char>, n: int)
    requires
        all_digits(text),
        0 <= n <= text.len(),
    ensures
        0 <= digits_value(text.take(n)) <= digits_value(text),
    decreases text.len() - n, text.len(),
{
    if n == text.len() {
        assert(text.take(n) =~= text);
        if n > 0 {
            assert(all_digits(text.drop_last())) by {
                assert forall|i: int| 0 <= i < text.drop_last().len() implies 0 <= digit(
                    #[trigger] text.drop_last()[i],
                ) <= 9 by {
                    assert(text.drop_last()[i] == text[i]);
                }
            }
            lemma_digits_grow(text.drop_last(), n - 1);
            assert(text.drop_last().take(n - 1) =~= text.drop_last());
        }
    } else {
        lemma_digits_grow(text, n + 1);
        assert(text.take(n + 1).drop_last() =~= text.take(n));
        let front = text.take(n);
        assert(all_digits(front)) by {
            assert forall|i: int| 0 <= i < front.len() implies 0 <= digit(#[trigger] front[i])
                <= 9 by {
                assert(front[i] == text[i]);
            }
        }
        lemma_digits_grow(front, front.len() as int);
        assert(front.take(front.len() as int) =~= front);
        assert(text.take(n + 1).last() == text[n]);
    }
}

/// Reads an integer written in decimal.
pub fn parse_i64(text: &str) -> (r: Option<i64>)
    ensures
        r is Some == writes_i64(text@),
        r matches Some(n) ==> n == signed_value(text@),
{
    let len: usize = text.unicode_len();
    let negative: bool = len > 0 && text.get_char(0) == '-';
    let signed: bool = negative || (len > 0 && text.get_char(0) == '+');
    let start: usize = if signed {
        1
    } else {
        0
    };
    let ghost body = unsigned_part(text@);
    if start == len {
        return None;
    }
    let mut i: usize = start;
    let mut value: i128 = 0;
    let mut fits: bool = true;
    while i < len
        invariant
            len == text@.len(),
            start <= i <= len,
            start <= 1,
            body == text@.skip(start as int),
            body == unsigned_part(text@),
            all_digits(body.take(i - start)),
            fits ==> value == digits_value(body.take(i - start)),
            !fits ==> digits_value(body.take(i - start)) > 0x8000_0000_0000_0000,
            fits ==> 0 <= value <= 0x8000_0000_0000_0000,
        decreases len - i,
    {
        let c: char = text.get_char(i);
        let n: u32 = c as u32;
        assert(body[i - start] == c);
        assert(body.take(i - start + 1).drop_last() =~= body.take(i - start));
        assert(body.take(i - start + 1).last() == c);
        if n < 48 || n > 57 {
            proof {
                assert(!(0 <= digit(body[i - start]) <= 9));
            }
            return None;
        }
        assert forall|j: int| 0 <= j < i - start + 1 implies 0 <= digit(
            #[trigger] body.take(i - start + 1)[j],
        ) <= 9 by {
            if j < i - start {
                assert(body.take(i - start)[j] == body[j]);
            }
        }
        if fits {
            value = value * 10 + (n - 48) as i128;
            if value > 0x8000_0000_0000_0000 {
                fits = false;
            }
        }
        i = i + 1;
    }
    assert(body.take(len - start) =~= body);
    if !fits {
        return None;
    }
    let total: i128 = if negative {
        -value
    } else {
        value
    };
    if total < -0x8000_0000_0000_0000 || total > 0x7fff_ffff_ffff_ffff {
        return None;
    }
    Some(total as i64)
}

/// The decimal digits of a number, without leading zeros.
pub open spec fn decimal(n: nat) -> Seq<char>
    decreases n,
{
    if n < 10 {
        seq![(48 + n) as char]
    } else {
        decimal(n / 10).push((48 + n % 10) as char)
    }
}

/// Writes one decimal digit.
fn digit_text(n: u64) -> (r: String)
    requires
        n < 10,
    ensures
        r@ == seq![(48 + n) as char],
{
    let digits = "0123456789";
    proof {
        reveal_strlit("0123456789");
    }
    let r = digits.substring_char(n as usize, n as usize + 1);
    assert(r@ =~= seq![(48 + n) as char]);
    r.to_string()
}

/// Writes a number in decimal.
pub fn decimal_text(n: u64) -> (r: String)
    ensures
        r@ == decimal(n as nat),
    decreases n,
{
    if n < 10 {
        digit_text(n)
    } else {
        let r = decimal_text(n / 10).concat(digit_text(n % 10).as_str());
        assert(r@ =~= decimal((n / 10) as nat).push((48 + n % 10) as char));
        r
    }
}

/// The decimal digits of a number, behind a minus sign where it is below zero.
pub open spec fn signed_decimal(n: int) -> Seq<char> {
    if n < 0 {
        "-"@ + decimal((-n) as nat)
    } else {
        decimal(n as nat)
    }
}

/// Writes a number in decimal.
pub fn signed_decimal_text(n: i64) -> (r: String)
    ensures
        r@ == signed_decimal(n as int),
{
    if n < 0 {
        "-".to_string().concat(decimal_text((-(n as i128)) as u64).as_str())
    } else {
        decimal_text(n as u64)
    }
}

} // verus!
