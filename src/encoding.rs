use vstd::prelude::*;
use vstd::utf8::*;
use vstd::string::*;

verus! {

broadcast use vstd::utf8::group_utf8_lib;

pub const PERCENT: u8 = 0x25;
pub const AMPERSAND: u8 = 0x26;
pub const EQUALS: u8 = 0x3d;
pub const HYPHEN: u8 = 0x2d;
pub const DOT: u8 = 0x2e;
pub const UNDERSCORE: u8 = 0x5f;
pub const TILDE: u8 = 0x7e;
pub const DIGIT_0: u8 = 0x30;
pub const DIGIT_9: u8 = 0x39;
pub const UPPER_A: u8 = 0x41;
pub const UPPER_F: u8 = 0x46;
pub const UPPER_Z: u8 = 0x5a;
pub const LOWER_A: u8 = 0x61;
pub const LOWER_F: u8 = 0x66;
pub const LOWER_Z: u8 = 0x7a;

/// Bytes that percent-encoding leaves as they are: ASCII letters, digits, `-`, `.`, `_` and `~`.
pub open spec fn is_unreserved(b: u8) -> bool {
    (UPPER_A <= b <= UPPER_Z) || (LOWER_A <= b <= LOWER_Z) || (DIGIT_0 <= b <= DIGIT_9) || b == HYPHEN || b == DOT
        || b == UNDERSCORE || b == TILDE
}

/// The upper-case hexadecimal digit for a value below 16.
pub open spec fn hex_digit(n: u8) -> u8
    recommends
        n < 16,
{
    if n < 10 {
        (DIGIT_0 + n) as u8
    } else {
        (UPPER_A + (n - 10)) as u8
    }
}

/// The value of a hexadecimal digit of either case, if the byte is one.
pub open spec fn hex_value(c: u8) -> Option<u8> {
    if DIGIT_0 <= c <= DIGIT_9 {
        Some((c - DIGIT_0) as u8)
    } else if UPPER_A <= c <= UPPER_F {
        Some((c - UPPER_A + 10) as u8)
    } else if LOWER_A <= c <= LOWER_F {
        Some((c - LOWER_A + 10) as u8)
    } else {
        None
    }
}

/// One byte, percent-encoded: itself when unreserved, else `%` and two hex digits.
pub open spec fn encode_byte(b: u8) -> Seq<u8> {
    if is_unreserved(b) {
        seq![b]
    } else {
        seq![PERCENT, hex_digit(b / 16), hex_digit(b % 16)]
    }
}

/// Percent-encoding of a byte sequence.
pub open spec fn url_encode(b: Seq<u8>) -> Seq<u8>
    decreases b.len(),
{
    if b.len() == 0 {
        seq![]
    } else {
        encode_byte(b[0]) + url_encode(b.drop_first())
    }
}

/// Percent-decoding of a byte sequence; `None` where a `%` is not followed by two hex digits.
pub open spec fn url_decode(b: Seq<u8>) -> Option<Seq<u8>>
    decreases b.len(),
{
    if b.len() == 0 {
        Some(seq![])
    } else if b[0] == PERCENT {
        if b.len() >= 3 && hex_value(b[1]) is Some && hex_value(b[2]) is Some {
            match url_decode(b.subrange(3, b.len() as int)) {
                Some(rest) => Some(
                    seq![(16 * hex_value(b[1]).unwrap() + hex_value(b[2]).unwrap()) as u8] + rest,
                ),
                None => None,
            }
        } else {
            None
        }
    } else {
        match url_decode(b.drop_first()) {
            Some(rest) => Some(seq![b[0]] + rest),
            None => None,
        }
    }
}

/// ASCII bytes read as characters.
pub open spec fn ascii_chars(b: Seq<u8>) -> Seq<char> {
    b.map_values(|x: u8| x as char)
}

pub open spec fn all_ascii(b: Seq<u8>) -> bool {
    forall|i: int| 0 <= i < b.len() ==> #[trigger] b[i] < 128
}

/// Text percent-encoded over its UTF-8 bytes.
pub open spec fn encode_text(s: Seq<char>) -> Seq<char> {
    ascii_chars(url_encode(encode_utf8(s)))
}

/// Text percent-decoded over its UTF-8 bytes; `None` where a `%` escape is malformed or the
/// decoded bytes are not UTF-8.
pub open spec fn decode_text(s: Seq<char>) -> Option<Seq<char>> {
    match url_decode(encode_utf8(s)) {
        Some(b) => if valid_utf8(b) {
            Some(decode_utf8(b))
        } else {
            None
        },
        None => None,
    }
}

/// Decimal digits of a number, most significant first, without leading zeros.
pub open spec fn decimal(n: nat) -> Seq<u8>
    decreases n,
{
    if n < 10 {
        seq![(DIGIT_0 + n) as u8]
    } else {
        decimal(n / 10).push((DIGIT_0 + n % 10) as u8)
    }
}

/// The decimal form of a number as text.
pub open spec fn decimal_text(n: nat) -> Seq<char> {
    ascii_chars(decimal(n))
}

pub proof fn lemma_hex_round_trip(n: u8)
    requires
        n < 16,
    ensures
        hex_value(hex_digit(n)) == Some(n),
        hex_digit(n) < 128,
        !is_unreserved(PERCENT),
{
}

pub proof fn lemma_encode_byte_ascii(b: u8)
    ensures
        all_ascii(encode_byte(b)),
        forall|i: int| 0 <= i < encode_byte(b).len() ==> #[trigger] encode_byte(b)[i] != AMPERSAND
            && encode_byte(b)[i] != EQUALS,
{
    if !is_unreserved(b) {
        lemma_hex_round_trip(b / 16);
        lemma_hex_round_trip(b % 16);
    }
}

/// Percent-encoded bytes are ASCII and hold neither `&` nor `=`.
pub proof fn lemma_url_encode_ascii(b: Seq<u8>)
    ensures
        all_ascii(url_encode(b)),
        forall|i: int| 0 <= i < url_encode(b).len() ==> #[trigger] url_encode(b)[i] != AMPERSAND
            && url_encode(b)[i] != EQUALS,
    decreases b.len(),
{
    if b.len() > 0 {
        lemma_encode_byte_ascii(b[0]);
        lemma_url_encode_ascii(b.drop_first());
        let e = encode_byte(b[0]);
        let r = url_encode(b.drop_first());
        assert forall|i: int| 0 <= i < url_encode(b).len() implies #[trigger] url_encode(b)[i] < 128
            && url_encode(b)[i] != AMPERSAND && url_encode(b)[i] != EQUALS by {
            if i < e.len() {
                assert(url_encode(b)[i] == e[i]);
            } else {
                assert(url_encode(b)[i] == r[i - e.len()]);
            }
        }
    }
}

/// Decoding undoes encoding.
pub proof fn lemma_url_round_trip(b: Seq<u8>)
    ensures
        url_decode(url_encode(b)) == Some(b),
    decreases b.len(),
{
    if b.len() > 0 {
        let rest = b.drop_first();
        lemma_url_round_trip(rest);
        let e = url_encode(b);
        if is_unreserved(b[0]) {
            assert(e.drop_first() =~= url_encode(rest));
        } else {
            lemma_hex_round_trip(b[0] / 16);
            lemma_hex_round_trip(b[0] % 16);
            assert(e.subrange(3, e.len() as int) =~= url_encode(rest));
        }
        assert(seq![b[0]] + rest =~= b);
    }
}

/// ASCII bytes are UTF-8 and decode to the characters with the same codes.
pub proof fn lemma_ascii_utf8(b: Seq<u8>)
    requires
        all_ascii(b),
    ensures
        valid_utf8(b),
        decode_utf8(b) == ascii_chars(b),
        encode_utf8(ascii_chars(b)) == b,
{
    let c = ascii_chars(b);
    assert(is_ascii_chars(c)) by {
        assert forall|i: int| 0 <= i < c.len() implies '\0' <= #[trigger] c[i] <= '\u{7f}' by {
            assert(b[i] < 128);
        }
    }
    is_ascii_chars_encode_utf8(c);
    assert(encode_utf8(c) =~= b) by {
        assert forall|i: int| 0 <= i < b.len() implies #[trigger] encode_utf8(c)[i] == b[i] by {
            assert(c[i] as u8 == encode_utf8(c)[i]);
            assert(b[i] < 128);
        }
    }
}

/// Decoding undoes encoding, on text.
pub proof fn lemma_text_round_trip(s: Seq<char>)
    ensures
        decode_text(encode_text(s)) == Some(s),
{
    let e = url_encode(encode_utf8(s));
    lemma_url_encode_ascii(encode_utf8(s));
    lemma_ascii_utf8(e);
    lemma_url_round_trip(encode_utf8(s));
}

/// Relies on `String::from_utf8`: it accepts exactly the UTF-8 byte sequences, keeping their
/// characters.
#[verifier::external_body]
fn string_from_utf8(v: Vec<u8>) -> (r: Option<String>)
    ensures
        r is Some <==> valid_utf8(v@),
        r matches Some(s) ==> s@ == decode_utf8(v@),
{
    String::from_utf8(v).ok()
}

/// The text that ASCII bytes spell.
pub fn ascii_string(v: Vec<u8>) -> (r: String)
    requires
        all_ascii(v@),
    ensures
        r@ == ascii_chars(v@),
{
    proof {
        lemma_ascii_utf8(v@);
    }
    match string_from_utf8(v) {
        Some(s) => s,
        None => String::new(),
    }
}

pub fn is_unreserved_byte(b: u8) -> (r: bool)
    ensures
        r == is_unreserved(b),
{
    (UPPER_A <= b && b <= UPPER_Z) || (LOWER_A <= b && b <= LOWER_Z) || (DIGIT_0 <= b && b <= DIGIT_9) || b == HYPHEN
        || b == DOT || b == UNDERSCORE || b == TILDE
}

fn hex_digit_byte(n: u8) -> (r: u8)
    requires
        n < 16,
    ensures
        r == hex_digit(n),
{
    if n < 10 {
        DIGIT_0 + n
    } else {
        UPPER_A + (n - 10)
    }
}

fn hex_value_byte(c: u8) -> (r: Option<u8>)
    ensures
        r == hex_value(c),
{
    if DIGIT_0 <= c && c <= DIGIT_9 {
        Some(c - DIGIT_0)
    } else if UPPER_A <= c && c <= UPPER_F {
        Some(c - UPPER_A + 10)
    } else if LOWER_A <= c && c <= LOWER_F {
        Some(c - LOWER_A + 10)
    } else {
        None
    }
}

/// Appends the percent-encoding of `b` to `out`.
pub fn url_encode_into(out: &mut Vec<u8>, b: &[u8])
    ensures
        final(out)@ == old(out)@ + url_encode(b@),
{
    let mut i: usize = 0;
    assert(b@.subrange(0, b@.len() as int) =~= b@);
    while i < b.len()
        invariant
            i <= b@.len(),
            old(out)@ + url_encode(b@) == out@ + url_encode(b@.subrange(i as int, b@.len() as int)),
        decreases b@.len() - i,
    {
        let x = b[i];
        let ghost before = out@;
        let ghost tail = b@.subrange(i as int, b@.len() as int);
        assert(tail.drop_first() =~= b@.subrange(i + 1, b@.len() as int));
        assert(tail[0] == x);
        if is_unreserved_byte(x) {
            out.push(x);
        } else {
            out.push(PERCENT);
            out.push(hex_digit_byte(x / 16));
            out.push(hex_digit_byte(x % 16));
        }
        assert(out@ =~= before + encode_byte(x));
        assert(before + url_encode(tail) =~= out@ + url_encode(
            b@.subrange(i + 1, b@.len() as int),
        ));
        i = i + 1;
    }
    assert(b@.subrange(b@.len() as int, b@.len() as int) =~= Seq::<u8>::empty());
    assert(out@ + Seq::<u8>::empty() =~= out@);
}

pub open spec fn prepend(p: Seq<u8>, r: Option<Seq<u8>>) -> Option<Seq<u8>> {
    match r {
        Some(x) => Some(p + x),
        None => None,
    }
}

/// Percent-decoding of `b`, or `None` where a `%` is not followed by two hex digits.
pub fn url_decode_bytes(b: &[u8]) -> (r: Option<Vec<u8>>)
    ensures
        r matches Some(v) ==> url_decode(b@) == Some(v@),
        r is None ==> url_decode(b@) is None,
{
    let mut out: Vec<u8> = Vec::new();
    let mut i: usize = 0;
    assert(b@.subrange(0, b@.len() as int) =~= b@);
    assert(Seq::<u8>::empty() + b@ =~= b@);
    while i < b.len()
        invariant
            i <= b@.len(),
            url_decode(b@) == prepend(out@, url_decode(b@.subrange(i as int, b@.len() as int))),
        decreases b@.len() - i,
    {
        let ghost tail = b@.subrange(i as int, b@.len() as int);
        let ghost before = out@;
        if b[i] == PERCENT {
            if b.len() - i > 2 {
                let hi = hex_value_byte(b[i + 1]);
                let lo = hex_value_byte(b[i + 2]);
                match (hi, lo) {
                    (Some(h), Some(l)) => {
                        assert(tail.subrange(3, tail.len() as int) =~= b@.subrange(
                            i + 3,
                            b@.len() as int,
                        ));
                        out.push(16 * h + l);
                        i = i + 3;
                        proof {
                            let rest = url_decode(b@.subrange(i as int, b@.len() as int));
                            if rest is Some {
                                assert(before + (seq![(16 * h + l) as u8] + rest.unwrap()) =~= out@
                                    + rest.unwrap());
                            }
                        }
                    },
                    _ => {
                        return None;
                    },
                }
            } else {
                return None;
            }
        } else {
            assert(tail.drop_first() =~= b@.subrange(i + 1, b@.len() as int));
            out.push(b[i]);
            i = i + 1;
            proof {
                let rest = url_decode(b@.subrange(i as int, b@.len() as int));
                if rest is Some {
                    assert(before + (seq![tail[0]] + rest.unwrap()) =~= out@ + rest.unwrap());
                }
            }
        }
    }
    assert(b@.subrange(b@.len() as int, b@.len() as int) =~= Seq::<u8>::empty());
    assert(out@ + Seq::<u8>::empty() =~= out@);
    Some(out)
}

/// Appends the decimal digits of `n` to `out`.
pub fn decimal_into(out: &mut Vec<u8>, n: u64)
    ensures
        final(out)@ == old(out)@ + decimal(n as nat),
    decreases n,
{
    if n >= 10 {
        decimal_into(out, n / 10);
    }
    out.push(DIGIT_0 + (n % 10) as u8);
    assert(out@ =~= old(out)@ + decimal(n as nat));
}

pub proof fn lemma_decimal_ascii(n: nat)
    ensures
        all_ascii(decimal(n)),
        decimal(n).len() >= 1,
    decreases n,
{
    if n >= 10 {
        lemma_decimal_ascii(n / 10);
        assert forall|i: int| 0 <= i < decimal(n).len() implies #[trigger] decimal(n)[i] < 128 by {
            if i < decimal(n / 10).len() {
                assert(decimal(n)[i] == decimal(n / 10)[i]);
            }
        }
    }
}

/// The decimal form of `n` as text.
pub fn decimal_string(n: u64) -> (r: String)
    ensures
        r@ == decimal_text(n as nat),
{
    let mut v: Vec<u8> = Vec::new();
    decimal_into(&mut v, n);
    proof {
        lemma_decimal_ascii(n as nat);
        assert(v@ =~= decimal(n as nat));
    }
    ascii_string(v)
}

/// The percent-encoding of the UTF-8 bytes of `s`, as text.
pub fn encode_component(s: &str) -> (r: String)
    ensures
        r@ == encode_text(s@),
{
    let mut v: Vec<u8> = Vec::new();
    url_encode_into(&mut v, s.as_bytes());
    proof {
        lemma_url_encode_ascii(encode_utf8(s@));
        assert(v@ =~= url_encode(encode_utf8(s@)));
    }
    ascii_string(v)
}

/// The percent-decoding of `s`, or `None` where an escape is malformed or the bytes it spells
/// are not UTF-8.
pub fn decode_component(s: &str) -> (r: Option<String>)
    ensures
        r matches Some(t) ==> decode_text(s@) == Some(t@),
        r is None ==> decode_text(s@) is None,
{
    match url_decode_bytes(s.as_bytes()) {
        Some(v) => string_from_utf8(v),
        None => None,
    }
}

} // verus!
