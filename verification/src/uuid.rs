//! Random identifiers in the form of a version 4 UUID.

use rand::Rng;
use vstd::prelude::*;
use vstd::string::{StrSliceExecFns, StringExecFns};

verus! {

/// The digits of base sixteen, in small letters.
pub open spec fn hex_digit(n: int) -> char {
    if n < 10 {
        (48 + n) as char
    } else {
        (87 + n) as char
    }
}

/// A byte in two hexadecimal digits.
pub open spec fn hex_byte(b: u8) -> Seq<char> {
    seq![hex_digit(b as int / 16), hex_digit(b as int % 16)]
}

/// The bytes from `from` up to `to`, in hexadecimal digits.
pub open spec fn hex_bytes(bytes: Seq<u8>, from: int, to: int) -> Seq<char>
    decreases to - from,
{
    if from >= to {
        Seq::empty()
    } else {
        hex_bytes(bytes, from, to - 1) + hex_byte(bytes[to - 1])
    }
}

/// The bytes with the marks of version 4 and of the variant set.
pub open spec fn marked(bytes: Seq<u8>) -> Seq<u8> {
    bytes.update(6, (bytes[6] & 0x0f) | 0x40).update(8, (bytes[8] & 0x3f) | 0x80)
}

/// The text form of sixteen bytes: groups of four, two, two, two and six bytes.
pub open spec fn grouped(bytes: Seq<u8>) -> Seq<char> {
    hex_bytes(bytes, 0, 4) + "-"@ + hex_bytes(bytes, 4, 6) + "-"@ + hex_bytes(bytes, 6, 8) + "-"@
        + hex_bytes(bytes, 8, 10) + "-"@ + hex_bytes(bytes, 10, 16)
}

/// A small hexadecimal digit.
pub open spec fn is_hex_digit(c: char) -> bool {
    48 <= c as u32 <= 57 || 97 <= c as u32 <= 102
}

/// The places of the dashes.
pub open spec fn is_dash_place(i: int) -> bool {
    i == 8 || i == 13 || i == 18 || i == 23
}

/// The form of a version 4 UUID: 36 characters, dashes in their places, small hexadecimal digits
/// elsewhere, the version and the variant in theirs.
pub open spec fn is_uuid_v4(text: Seq<char>) -> bool {
    &&& text.len() == 36
    &&& forall|i: int|
        0 <= i < 36 ==> if is_dash_place(i) {
            #[trigger] text[i] == '-'
        } else {
            is_hex_digit(text[i])
        }
    &&& text[14] == '4'
    &&& (text[19] == '8' || text[19] == '9' || text[19] == 'a' || text[19] == 'b')
}

/// Draws a byte from the random generator of the thread: `rand::rng` and `Rng::random`. Nothing
/// is promised of its value.
#[verifier::external_body]
fn random_byte() -> (r: u8) {
    rand::rng().random()
}

/// A byte in two hexadecimal digits.
fn hex_text(b: u8) -> (r: String)
    ensures
        r@ == hex_byte(b),
{
    let digits = "0123456789abcdef";
    proof {
        reveal_strlit("0123456789abcdef");
    }
    let high: usize = (b / 16) as usize;
    let low: usize = (b % 16) as usize;
    let r = digits.substring_char(high, high + 1).to_string().concat(
        digits.substring_char(low, low + 1),
    );
    assert(r@ =~= hex_byte(b));
    r
}

/// The bytes from `from` up to `to`, in hexadecimal digits.
fn hex_range(bytes: &Vec<u8>, from: usize, to: usize) -> (r: String)
    requires
        from <= to <= bytes.len(),
    ensures
        r@ == hex_bytes(bytes@, from as int, to as int),
{
    let mut r = String::new();
    let mut i: usize = from;
    while i < to
        invariant
            from <= i <= to <= bytes.len(),
            r@ == hex_bytes(bytes@, from as int, i as int),
        decreases to - i,
    {
        r.append(hex_text(bytes[i]).as_str());
        i = i + 1;
    }
    r
}

proof fn lemma_hex_bytes(bytes: Seq<u8>, from: int, to: int)
    requires
        0 <= from <= to <= bytes.len(),
    ensures
        hex_bytes(bytes, from, to).len() == 2 * (to - from),
        forall|i: int|
            0 <= i < to - from ==> (#[trigger] hex_bytes(bytes, from, to)[2 * i]) == hex_digit(
                bytes[from + i] as int / 16,
            ),
        forall|i: int|
            0 <= i < to - from ==> (#[trigger] hex_bytes(bytes, from, to)[2 * i + 1]) == hex_digit(
                bytes[from + i] as int % 16,
            ),
        forall|i: int|
            0 <= i < 2 * (to - from) ==> is_hex_digit(#[trigger] hex_bytes(bytes, from, to)[i]),
    decreases to - from,
{
    if from < to {
        lemma_hex_bytes(bytes, from, to - 1);
        let front = hex_bytes(bytes, from, to - 1);
        let whole = hex_bytes(bytes, from, to);
        assert forall|i: int| 0 <= i < to - from implies (#[trigger] whole[2 * i]) == hex_digit(
            bytes[from + i] as int / 16,
        ) by {
            if i < to - 1 - from {
                assert(whole[2 * i] == front[2 * i]);
            }
        }
        assert forall|i: int| 0 <= i < to - from implies (#[trigger] whole[2 * i + 1]) == hex_digit(
            bytes[from + i] as int % 16,
        ) by {
            if i < to - 1 - from {
                assert(whole[2 * i + 1] == front[2 * i + 1]);
            }
        }
        assert forall|i: int| 0 <= i < 2 * (to - from) implies is_hex_digit(#[trigger] whole[i]) by {
            if i < front.len() {
                assert(whole[i] == front[i]);
            }
        }
    }
}

proof fn lemma_marked_is_uuid(bytes: Seq<u8>)
    requires
        bytes.len() == 16,
    ensures
        is_uuid_v4(grouped(marked(bytes))),
{
    let m = marked(bytes);
    let b6 = bytes[6];
    let b8 = bytes[8];
    assert(((b6 & 0x0fu8) | 0x40u8) / 16u8 == 4u8) by (bit_vector);
    assert(8u8 <= ((b8 & 0x3fu8) | 0x80u8) / 16u8 && ((b8 & 0x3fu8) | 0x80u8) / 16u8 <= 11u8)
        by (bit_vector);
    reveal_strlit("-");
    lemma_hex_bytes(m, 0, 4);
    lemma_hex_bytes(m, 4, 6);
    lemma_hex_bytes(m, 6, 8);
    lemma_hex_bytes(m, 8, 10);
    lemma_hex_bytes(m, 10, 16);
    let text = grouped(m);
    let a = hex_bytes(m, 0, 4);
    let b = hex_bytes(m, 4, 6);
    let c = hex_bytes(m, 6, 8);
    let d = hex_bytes(m, 8, 10);
    let e = hex_bytes(m, 10, 16);
    assert(text.len() == 36);
    assert forall|i: int| 0 <= i < 36 implies if is_dash_place(i) {
        #[trigger] text[i] == '-'
    } else {
        is_hex_digit(text[i])
    } by {
        if i < 8 {
            assert(text[i] == a[i]);
        } else if 9 <= i < 13 {
            assert(text[i] == b[i - 9]);
        } else if 14 <= i < 18 {
            assert(text[i] == c[i - 14]);
        } else if 19 <= i < 23 {
            assert(text[i] == d[i - 19]);
        } else if 24 <= i {
            assert(text[i] == e[i - 24]);
        }
    }
    assert(text[14] == c[2 * 0int]);
    assert(text[19] == d[2 * 0int]);
}

/// The place of the first digit of a byte: two digits for each byte before it, and a dash behind
/// the fourth, sixth, eighth and tenth byte.
pub open spec fn digit_place(i: int) -> int {
    2 * i + (if i >= 4 {
        1int
    } else {
        0
    }) + (if i >= 6 {
        1int
    } else {
        0
    }) + (if i >= 8 {
        1int
    } else {
        0
    }) + (if i >= 10 {
        1int
    } else {
        0
    })
}

/// Every byte is written in its place, in two hexadecimal digits; the marks of the version and of
/// the variant take the upper digit of their byte, all of it or all but two bits.
pub proof fn every_byte_is_written_in_its_place(bytes: Seq<u8>, i: int)
    requires
        bytes.len() == 16,
        0 <= i < 16,
    ensures
        ({
            let text = grouped(marked(bytes));
            let high = bytes[i] as int / 16;
            let low = bytes[i] as int % 16;
            &&& text[digit_place(i) + 1] == hex_digit(low)
            &&& i != 6 && i != 8 ==> text[digit_place(i)] == hex_digit(high)
            &&& i == 6 ==> text[digit_place(i)] == hex_digit(4)
            &&& i == 8 ==> text[digit_place(i)] == hex_digit(8 + high % 4)
        }),
{
    let m = marked(bytes);
    let b6 = bytes[6];
    let b8 = bytes[8];
    assert(((b6 & 0x0fu8) | 0x40u8) / 16u8 == 4u8 && ((b6 & 0x0fu8) | 0x40u8) % 16u8 == b6 % 16u8)
        by (bit_vector);
    assert(((b8 & 0x3fu8) | 0x80u8) / 16u8 == 8u8 + (b8 / 16u8) % 4u8 && ((b8 & 0x3fu8) | 0x80u8)
        % 16u8 == b8 % 16u8) by (bit_vector);
    reveal_strlit("-");
    lemma_hex_bytes(m, 0, 4);
    lemma_hex_bytes(m, 4, 6);
    lemma_hex_bytes(m, 6, 8);
    lemma_hex_bytes(m, 8, 10);
    lemma_hex_bytes(m, 10, 16);
    let from: int = if i < 4 {
        0
    } else if i < 6 {
        4
    } else if i < 8 {
        6
    } else if i < 10 {
        8
    } else {
        10
    };
    let to: int = if i < 4 {
        4
    } else if i < 6 {
        6
    } else if i < 8 {
        8
    } else if i < 10 {
        10
    } else {
        16
    };
    let text = grouped(m);
    let part = hex_bytes(m, from, to);
    let k = i - from;
    assert(part[2 * k] == hex_digit(m[from + k] as int / 16));
    assert(part[2 * k + 1] == hex_digit(m[from + k] as int % 16));
    assert(text[digit_place(i)] == part[2 * k]);
    assert(text[digit_place(i) + 1] == part[2 * k + 1]);
}

/// The version 4 UUID that sixteen bytes give.
pub fn uuid_of_bytes(bytes: Vec<u8>) -> (r: String)
    requires
        bytes.len() == 16,
    ensures
        r@ == grouped(marked(bytes@)),
        is_uuid_v4(r@),
{
    let mut bytes = bytes;
    let ghost drawn = bytes@;
    let version: u8 = (bytes[6] & 0x0f) | 0x40;
    let variant: u8 = (bytes[8] & 0x3f) | 0x80;
    bytes.set(6, version);
    bytes.set(8, variant);
    assert(bytes@ =~= marked(drawn));
    proof {
        lemma_marked_is_uuid(drawn);
    }
    hex_range(&bytes, 0, 4).concat("-").concat(hex_range(&bytes, 4, 6).as_str()).concat("-").concat(
        hex_range(&bytes, 6, 8).as_str(),
    ).concat("-").concat(hex_range(&bytes, 8, 10).as_str()).concat("-").concat(
        hex_range(&bytes, 10, 16).as_str(),
    )
}

/// A new random identifier.
pub fn uuid_v4() -> (r: String)
    ensures
        is_uuid_v4(r@),
{
    let mut bytes: Vec<u8> = Vec::new();
    while bytes.len() < 16
        invariant
            bytes.len() <= 16,
        decreases 16 - bytes.len(),
    {
        bytes.push(random_byte());
    }
    uuid_of_bytes(bytes)
}

} // verus!
