use vstd::prelude::*;
use vstd::string::*;
use vstd::utf8::{encode_utf8, is_ascii_chars, is_ascii_chars_encode_utf8};
use crate::strings::{push_char, push_text};

verus! {

/// The lowercase hexadecimal digit of `n`, for `n < 16`.
pub open spec fn hex_lower(n: u8) -> char {
    if n < 10 {
        (48 + n) as char
    } else {
        (87 + n) as char
    }
}

/// The uppercase hexadecimal digit of `n`, for `n < 16`.
pub open spec fn hex_upper(n: u8) -> char {
    if n < 10 {
        (48 + n) as char
    } else {
        (55 + n) as char
    }
}

/// `\xHH`, with two lowercase hexadecimal digits.
pub open spec fn byte_escape(b: u8) -> Seq<char> {
    seq!['\\', 'x', hex_lower(b / 16), hex_lower(b % 16)]
}

/// Every byte written as `\xHH`, one after the other.
pub open spec fn bytes_escaped(bs: Seq<u8>) -> Seq<char>
    decreases bs.len(),
{
    if bs.len() == 0 {
        Seq::empty()
    } else {
        bytes_escaped(bs.drop_last()) + byte_escape(bs.last())
    }
}

/// An ASCII letter or digit.
pub open spec fn is_alnum(b: u8) -> bool {
    (48 <= b <= 57) || (65 <= b <= 90) || (97 <= b <= 122)
}

/// The percent-encoding of one byte: letters and digits stay, every other
/// byte becomes `%` and two uppercase hexadecimal digits.
pub open spec fn pct_byte(b: u8) -> Seq<char> {
    if is_alnum(b) {
        seq![b as char]
    } else {
        seq!['%', hex_upper(b / 16), hex_upper(b % 16)]
    }
}

/// The percent-encoding of a byte sequence.
pub open spec fn url_encoded(bs: Seq<u8>) -> Seq<char>
    decreases bs.len(),
{
    if bs.len() == 0 {
        Seq::empty()
    } else {
        pct_byte(bs[0]) + url_encoded(bs.drop_first())
    }
}

/// A character that may stand in a percent-encoded string.
pub open spec fn is_url_safe(c: char) -> bool {
    ('0' <= c <= '9') || ('A' <= c <= 'Z') || ('a' <= c <= 'z') || c == '%'
}

fn hex_digit_lower(n: u8) -> (c: char)
    requires
        n < 16,
    ensures
        c == hex_lower(n),
{
    if n < 10 {
        (48 + n) as char
    } else {
        (87 + n) as char
    }
}

/// Writes one byte as `\xHH`.
pub fn encode_byte(b: u8) -> (r: String)
    ensures
        r@ == byte_escape(b),
{
    let mut out = String::new();
    push_char(&mut out, '\\');
    push_char(&mut out, 'x');
    push_char(&mut out, hex_digit_lower(b / 16));
    push_char(&mut out, hex_digit_lower(b % 16));
    out
}

/// Writes every byte as `\xHH`.
pub fn encode_bytes(bytes: &[u8]) -> (r: String)
    ensures
        r@ == bytes_escaped(bytes@),
{
    let mut out = String::new();
    let mut i: usize = 0;
    while i < bytes.len()
        invariant
            i <= bytes@.len(),
            out@ == bytes_escaped(bytes@.subrange(0, i as int)),
        decreases bytes@.len() - i,
    {
        let b = bytes[i];
        let ghost prev = out@;
        let e = encode_byte(b);
        push_text(&mut out, e.as_str());
        proof {
            let next = bytes@.subrange(0, i + 1);
            assert(next.drop_last() =~= bytes@.subrange(0, i as int));
            assert(out@ =~= prev + byte_escape(b));
        }
        i = i + 1;
    }
    assert(bytes@.subrange(0, bytes@.len() as int) =~= bytes@);
    out
}

/// Relies on `percent_encoding::percent_encode` with the set
/// `NON_ALPHANUMERIC`, shown as a string: each byte that is not an ASCII
/// letter or digit becomes `%` and two uppercase hexadecimal digits, the
/// others are kept as they are.
#[verifier::external_body]
pub(crate) fn escape_url(s: &str) -> (r: String)
    ensures
        r@ == url_encoded(s.spec_bytes()),
{
    percent_encoding::percent_encode(s.as_bytes(), percent_encoding::NON_ALPHANUMERIC).to_string()
}

/// Percent-encoding only ever writes ASCII letters, digits and `%`.
pub proof fn lemma_url_encoded_safe(bs: Seq<u8>)
    ensures
        forall|i: int| 0 <= i < url_encoded(bs).len() ==> is_url_safe(#[trigger] url_encoded(bs)[i]),
    decreases bs.len(),
{
    if bs.len() > 0 {
        lemma_url_encoded_safe(bs.drop_first());
        let b = bs[0];
        let h = b / 16;
        let l = b % 16;
        assert(is_url_safe(hex_upper(h)));
        assert(is_url_safe(hex_upper(l)));
        assert(forall|i: int| 0 <= i < pct_byte(b).len() ==> is_url_safe(#[trigger] pct_byte(b)[i]));
        let r = url_encoded(bs);
        assert forall|i: int| 0 <= i < r.len() implies is_url_safe(#[trigger] r[i]) by {
            if i >= pct_byte(b).len() {
                assert(r[i] == url_encoded(bs.drop_first())[i - pct_byte(b).len()]);
            }
        }
    }
}

/// Bytes that are all ASCII letters and digits are left as they are.
pub proof fn lemma_url_encoded_alnum(bs: Seq<u8>)
    requires
        forall|i: int| 0 <= i < bs.len() ==> is_alnum(#[trigger] bs[i]),
    ensures
        url_encoded(bs) == bs.map_values(|b: u8| b as char),
    decreases bs.len(),
{
    if bs.len() > 0 {
        lemma_url_encoded_alnum(bs.drop_first());
        assert(bs.map_values(|b: u8| b as char) =~= seq![bs[0] as char] + bs.drop_first().map_values(
            |b: u8| b as char,
        ));
    } else {
        assert(bs.map_values(|b: u8| b as char) =~= Seq::<char>::empty());
    }
}

/// A text made of ASCII letters and digits only.
pub open spec fn is_alnum_text(s: Seq<char>) -> bool {
    forall|i: int|
        0 <= i < s.len() ==> ('0' <= #[trigger] s[i] <= '9') || ('A' <= s[i] <= 'Z') || ('a' <= s[i]
            <= 'z')
}

/// Percent-encoding a text of ASCII letters and digits gives the same text
/// back.
pub proof fn lemma_url_encode_alnum_text(s: Seq<char>)
    requires
        is_alnum_text(s),
    ensures
        url_encoded(encode_utf8(s)) == s,
{
    assert(is_ascii_chars(s));
    is_ascii_chars_encode_utf8(s);
    let bs = encode_utf8(s);
    assert forall|i: int| 0 <= i < bs.len() implies is_alnum(#[trigger] bs[i]) by {
        assert(s[i] as u8 == bs[i]);
    }
    lemma_url_encoded_alnum(bs);
    assert forall|i: int| 0 <= i < s.len() implies (bs[i] as char) == s[i] by {
        assert(s[i] as u8 == bs[i]);
    }
    assert(bs.map_values(|b: u8| b as char) =~= s);
}

} // verus!
