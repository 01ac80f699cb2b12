//! Reading an IPv4 address back from its dotted-decimal text.
//!
//! The text of an address is fixed by `Ipv4Address::dotted`: four decimal
//! numerals, none with a leading zero, none above 255, with a dot between
//! them and nothing else. A text stands for an address exactly where it is
//! the text of that address, and then it stands for no other.

use vstd::prelude::*;
use vstd::string::is_ascii_spec_bytes;
use vstd::utf8::is_ascii_chars;
use crate::address::Ipv4Address;
use crate::text::{decimal, digit_char};

verus! {

/// The byte of the digit `0` in ASCII.
const ZERO: u8 = 48;

/// The byte of the digit `9` in ASCII.
const NINE: u8 = 57;

/// The byte of the dot in ASCII.
const DOT: u8 = 46;

/// The address that `text` stands for, if it stands for one.
pub open spec fn address_of(text: Seq<char>) -> Option<Ipv4Address> {
    if exists|address: Ipv4Address| #[trigger] address.dotted() == text {
        Some(choose|address: Ipv4Address| #[trigger] address.dotted() == text)
    } else {
        None
    }
}

/// Whether the character is a decimal digit.
spec fn is_digit(c: char) -> bool {
    '0' <= c <= '9'
}

/// The number that a decimal digit stands for.
spec fn digit_value(c: char) -> int
    recommends
        is_digit(c),
{
    c as int - '0' as int
}

/// The numeral of an octet that starts at place `i` of `text`, with the
/// place just behind it: one to three digits, as many as there are, no
/// leading zero before another digit, no more than 255.
#[verifier::opaque]
spec fn octet_at(text: Seq<char>, i: int) -> Option<(u8, int)> {
    if 0 <= i < text.len() && is_digit(text[i]) {
        let d0 = digit_value(text[i]);
        if i + 1 < text.len() && is_digit(text[i + 1]) {
            let d1 = digit_value(text[i + 1]);
            if d0 == 0 {
                None
            } else if i + 2 < text.len() && is_digit(text[i + 2]) {
                let d2 = digit_value(text[i + 2]);
                if 100 * d0 + 10 * d1 + d2 <= 255 {
                    Some(((100 * d0 + 10 * d1 + d2) as u8, i + 3))
                } else {
                    None
                }
            } else {
                Some(((10 * d0 + d1) as u8, i + 2))
            }
        } else {
            Some((d0 as u8, i + 1))
        }
    } else {
        None
    }
}

/// Whether place `i` of `text` holds a dot.
spec fn dot_at(text: Seq<char>, i: int) -> bool {
    0 <= i < text.len() && text[i] == '.'
}

/// What reading `text` from its first place to its last gives: four octets
/// with a dot between them, and the text at its end.
spec fn scanned(text: Seq<char>) -> Option<Ipv4Address> {
    match octet_at(text, 0) {
        Some((a, after_a)) if dot_at(text, after_a) => match octet_at(text, after_a + 1) {
            Some((b, after_b)) if dot_at(text, after_b) => match octet_at(text, after_b + 1) {
                Some((c, after_c)) if dot_at(text, after_c) => match octet_at(text, after_c + 1) {
                    Some((d, after_d)) if after_d == text.len() => Some(Ipv4Address { a, b, c, d }),
                    _ => None,
                },
                _ => None,
            },
            _ => None,
        },
        _ => None,
    }
}

/// The numeral of an octet has one, two or three digits, by its size.
proof fn lemma_decimal_octet(n: u8)
    ensures
        n < 10 ==> decimal(n as nat) =~= seq![digit_char(n as nat)],
        10 <= n < 100 ==> decimal(n as nat) =~= seq![
            digit_char((n / 10) as nat),
            digit_char((n % 10) as nat),
        ],
        100 <= n ==> decimal(n as nat) =~= seq![
            digit_char((n / 100) as nat),
            digit_char(((n / 10) % 10) as nat),
            digit_char((n % 10) as nat),
        ],
{
    reveal_with_fuel(decimal, 3);
}

/// A numeral that is read at a place of a text is the numeral of the octet
/// that the reading gives.
proof fn lemma_octet_at_sound(text: Seq<char>, i: int)
    requires
        octet_at(text, i) is Some,
    ensures
        0 <= i,
        octet_at(text, i) matches Some((octet, end)) && i < end <= text.len() && text.subrange(
            i,
            end,
        ) =~= decimal(octet as nat),
{
    reveal(octet_at);
    let (n, end) = octet_at(text, i)->0;
    lemma_decimal_octet(n);
}

/// Where the numeral of an octet stands at a place of a text, and no digit
/// follows it, reading at that place gives the octet.
proof fn lemma_octet_at_complete(text: Seq<char>, i: int, n: u8)
    requires
        0 <= i,
        i + decimal(n as nat).len() <= text.len(),
        text.subrange(i, i + decimal(n as nat).len()) == decimal(n as nat),
        i + decimal(n as nat).len() == text.len() || !is_digit(text[i + decimal(n as nat).len()]),
    ensures
        octet_at(text, i) == Some((n, i + decimal(n as nat).len())),
{
    reveal(octet_at);
    lemma_decimal_octet(n);
    let numeral = text.subrange(i, i + decimal(n as nat).len());
    assert(forall|d: nat|
        d < 10 ==> digit_value(#[trigger] digit_char(d)) == d && is_digit(digit_char(d)));
    assert(numeral[0] == text[i]);
    if n >= 10 {
        assert(numeral[1] == text[i + 1]);
    }
    if n >= 100 {
        assert(numeral[2] == text[i + 2]);
    }
}

/// Where the four numerals and the three dots stand in the text of an
/// address.
proof fn lemma_dotted_layout(address: Ipv4Address)
    ensures
        ({
            let text = address.dotted();
            let la = decimal(address.a as nat).len() as int;
            let lb = decimal(address.b as nat).len() as int;
            let lc = decimal(address.c as nat).len() as int;
            let ld = decimal(address.d as nat).len() as int;
            &&& 1 <= la <= 3 && 1 <= lb <= 3 && 1 <= lc <= 3 && 1 <= ld <= 3
            &&& text.len() == la + lb + lc + ld + 3
            &&& text.subrange(0, la) == decimal(address.a as nat)
            &&& text[la] == '.'
            &&& text.subrange(la + 1, la + 1 + lb) == decimal(address.b as nat)
            &&& text[la + 1 + lb] == '.'
            &&& text.subrange(la + lb + 2, la + lb + 2 + lc) == decimal(address.c as nat)
            &&& text[la + lb + 2 + lc] == '.'
            &&& text.subrange(la + lb + lc + 3, la + lb + lc + 3 + ld) == decimal(address.d as nat)
        }),
{
    lemma_decimal_octet(address.a);
    lemma_decimal_octet(address.b);
    lemma_decimal_octet(address.c);
    lemma_decimal_octet(address.d);
}

/// What is read from a text is an address that the text is the text of.
proof fn lemma_scanned_sound(text: Seq<char>)
    requires
        scanned(text) is Some,
    ensures
        text == scanned(text)->0.dotted(),
{
    let (a, after_a) = octet_at(text, 0)->0;
    let (b, after_b) = octet_at(text, after_a + 1)->0;
    let (c, after_c) = octet_at(text, after_b + 1)->0;
    let (d, after_d) = octet_at(text, after_c + 1)->0;
    lemma_octet_at_sound(text, 0);
    lemma_octet_at_sound(text, after_a + 1);
    lemma_octet_at_sound(text, after_b + 1);
    lemma_octet_at_sound(text, after_c + 1);
    let address = Ipv4Address { a, b, c, d };
    assert(text =~= text.subrange(0, after_a) + seq!['.'] + text.subrange(after_a + 1, after_b)
        + seq!['.'] + text.subrange(after_b + 1, after_c) + seq!['.'] + text.subrange(
        after_c + 1,
        after_d,
    ));
}

/// Reading the text of an address gives the address.
proof fn lemma_scanned_dotted(address: Ipv4Address)
    ensures
        scanned(address.dotted()) == Some(address),
{
    let text = address.dotted();
    let la = decimal(address.a as nat).len() as int;
    let lb = decimal(address.b as nat).len() as int;
    let lc = decimal(address.c as nat).len() as int;
    lemma_dotted_layout(address);
    lemma_octet_at_complete(text, 0, address.a);
    lemma_octet_at_complete(text, la + 1, address.b);
    lemma_octet_at_complete(text, la + lb + 2, address.c);
    lemma_octet_at_complete(text, la + lb + lc + 3, address.d);
}

/// Every character in the text of an address is a digit or a dot.
proof fn lemma_dotted_is_ascii(address: Ipv4Address)
    ensures
        is_ascii_chars(address.dotted()),
{
    let text = address.dotted();
    let la = decimal(address.a as nat).len() as int;
    let lb = decimal(address.b as nat).len() as int;
    let lc = decimal(address.c as nat).len() as int;
    let ld = decimal(address.d as nat).len() as int;
    lemma_dotted_layout(address);
    lemma_decimal_octet(address.a);
    lemma_decimal_octet(address.b);
    lemma_decimal_octet(address.c);
    lemma_decimal_octet(address.d);
    assert forall|i: int| 0 <= i < text.len() implies '\0' <= #[trigger] text[i] <= '\u{7f}' by {
        if i < la {
            assert(text[i] == text.subrange(0, la)[i]);
        } else if i == la {
        } else if i < la + 1 + lb {
            assert(text[i] == text.subrange(la + 1, la + 1 + lb)[i - la - 1]);
        } else if i == la + 1 + lb {
        } else if i < la + lb + 2 + lc {
            assert(text[i] == text.subrange(la + lb + 2, la + lb + 2 + lc)[i - la - lb - 2]);
        } else if i == la + lb + 2 + lc {
        } else {
            assert(text[i] == text.subrange(la + lb + lc + 3, la + lb + lc + 3 + ld)[i - la - lb
                - lc - 3]);
        }
    }
}

/// Two addresses with the same text are the same address.
pub proof fn lemma_dotted_injective(first: Ipv4Address, second: Ipv4Address)
    requires
        first.dotted() == second.dotted(),
    ensures
        first == second,
{
    lemma_scanned_dotted(first);
    lemma_scanned_dotted(second);
}

/// The text of an address stands for that address.
pub proof fn lemma_address_of_dotted(address: Ipv4Address)
    ensures
        address_of(address.dotted()) == Some(address),
{
    let chosen = choose|other: Ipv4Address| #[trigger] other.dotted() == address.dotted();
    lemma_dotted_injective(chosen, address);
}

/// A text stands for an address only where it is the text of that address.
pub proof fn lemma_address_of_is_dotted(text: Seq<char>)
    ensures
        address_of(text) matches Some(address) ==> address.dotted() == text,
        address_of(text) is None ==> forall|address: Ipv4Address| #[trigger]
            address.dotted() != text,
{
}

/// Reading a text gives the address that the text stands for.
proof fn lemma_scanned_is_address_of(text: Seq<char>)
    ensures
        scanned(text) == address_of(text),
{
    if scanned(text) is Some {
        lemma_scanned_sound(text);
        lemma_address_of_dotted(scanned(text)->0);
    } else {
        assert forall|address: Ipv4Address| #[trigger] address.dotted() != text by {
            lemma_scanned_dotted(address);
        }
    }
}

/// Reads the numeral of an octet that starts at byte `start`.
fn read_octet(text: &str, start: usize) -> (read: Option<(u8, usize)>)
    requires
        text.is_ascii(),
    ensures
        match read {
            Some((octet, end)) => octet_at(text@, start as int) == Some((octet, end as int)),
            None => octet_at(text@, start as int) is None,
        },
{
    broadcast use is_ascii_spec_bytes;

    reveal(octet_at);
    let bytes = text.as_bytes();
    let len: usize = bytes.len();
    if start >= len || !is_digit_byte(bytes[start]) {
        return None;
    }
    let d0: u8 = bytes[start] - ZERO;
    if len - start < 2 || !is_digit_byte(bytes[start + 1]) {
        return Some((d0, start + 1));
    }
    let d1: u8 = bytes[start + 1] - ZERO;
    if d0 == 0 {
        return None;
    }
    if len - start < 3 || !is_digit_byte(bytes[start + 2]) {
        return Some((10 * d0 + d1, start + 2));
    }
    let d2: u8 = bytes[start + 2] - ZERO;
    let value: u16 = 100 * (d0 as u16) + 10 * (d1 as u16) + d2 as u16;
    if value <= 255 {
        Some((value as u8, start + 3))
    } else {
        None
    }
}

/// Whether the byte is that of a decimal digit.
fn is_digit_byte(byte: u8) -> (digit: bool)
    ensures
        digit == (ZERO <= byte <= NINE),
{
    ZERO <= byte && byte <= NINE
}

/// Whether byte `at` is a dot.
fn read_dot(text: &str, at: usize) -> (dot: bool)
    requires
        text.is_ascii(),
    ensures
        dot == dot_at(text@, at as int),
{
    broadcast use is_ascii_spec_bytes;

    let bytes = text.as_bytes();
    at < bytes.len() && bytes[at] == DOT
}

/// Reads an address from a text of ASCII characters.
fn scan(text: &str) -> (address: Option<Ipv4Address>)
    requires
        text.is_ascii(),
    ensures
        address == scanned(text@),
{
    broadcast use is_ascii_spec_bytes;

    let len: usize = text.as_bytes().len();
    let (a, after_a) = match read_octet(text, 0) {
        Some(read) => read,
        None => return None,
    };
    if !read_dot(text, after_a) {
        return None;
    }
    let (b, after_b) = match read_octet(text, after_a + 1) {
        Some(read) => read,
        None => return None,
    };
    if !read_dot(text, after_b) {
        return None;
    }
    let (c, after_c) = match read_octet(text, after_b + 1) {
        Some(read) => read,
        None => return None,
    };
    if !read_dot(text, after_c) {
        return None;
    }
    let (d, after_d) = match read_octet(text, after_c + 1) {
        Some(read) => read,
        None => return None,
    };
    if after_d == len {
        Some(Ipv4Address { a, b, c, d })
    } else {
        None
    }
}

impl Ipv4Address {
    /// Reads an address from its dotted-decimal text. The result is the
    /// address whose text `text` is; there is none where `text` is the text
    /// of no address.
    pub fn parse(text: &str) -> (address: Option<Ipv4Address>)
        ensures
            address == address_of(text@),
            address matches Some(read) ==> read.dotted() == text@,
            address is None ==> forall|other: Ipv4Address| #[trigger] other.dotted() != text@,
    {
        if text.is_ascii() {
            proof {
                lemma_scanned_is_address_of(text@);
            }
            scan(text)
        } else {
            proof {
                assert forall|other: Ipv4Address| #[trigger] other.dotted() != text@ by {
                    lemma_dotted_is_ascii(other);
                }
            }
            None
        }
    }
}

} // verus!
