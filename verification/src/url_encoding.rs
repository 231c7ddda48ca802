//! The `application/x-www-form-urlencoded` byte serializer, as used to put
//! request parameters into query strings.

use vstd::prelude::*;
use vstd::utf8::encode_utf8;

verus! {

/// Bytes that the serializer copies unchanged: `*`, `-`, `.`, `_`, ASCII
/// digits and ASCII letters.
pub open spec fn passes_unchanged(b: u8) -> bool {
    b == 42 || b == 45 || b == 46 || b == 95 || (48 <= b <= 57) || (65 <= b <= 90) || (97 <= b
        <= 122)
}

/// The upper-case hexadecimal digit of a value below sixteen.
pub open spec fn hex_digit(d: nat) -> char {
    if d < 10 {
        (48 + d) as char
    } else {
        (55 + d) as char
    }
}

/// How the serializer writes one byte: unchanged bytes stay, a space becomes
/// `+`, every other byte becomes `%` and two upper-case hexadecimal digits.
pub open spec fn encode_byte(b: u8) -> Seq<char> {
    if passes_unchanged(b) {
        seq![b as char]
    } else if b == 32 {
        seq!['+']
    } else {
        seq!['%', hex_digit(b as nat / 16), hex_digit(b as nat % 16)]
    }
}

/// The serialization of a byte string.
pub open spec fn form_encoded(bytes: Seq<u8>) -> Seq<char>
    decreases bytes.len(),
{
    if bytes.len() == 0 {
        Seq::empty()
    } else {
        encode_byte(bytes[0]) + form_encoded(bytes.drop_first())
    }
}

/// Serializes the UTF-8 bytes of `input` with `url::form_urlencoded::byte_serialize`
/// and collects the pieces into one string. Trusted: the contract states, byte
/// by byte, what the crate's serializer writes (bytes in its unchanged set are
/// copied, a space becomes `+`, any other byte becomes `%XX` in upper-case hex).
#[verifier::external_body]
pub(crate) fn form_urlencode(input: &str) -> (res: String)
    ensures
        res@ == form_encoded(encode_utf8(input@)),
{
    url::form_urlencoded::byte_serialize(input.as_bytes()).collect()
}

/// The characters a form-encoded text is made of: ASCII letters and digits,
/// `*`, `-`, `.`, `_`, and the `%` and `+` of encoded bytes. None of them is
/// a separator of a query string.
pub open spec fn query_safe(c: char) -> bool {
    let u = c as u32;
    u == 42 || u == 45 || u == 46 || u == 95 || u == 37 || u == 43 || (48 <= u <= 57) || (65 <= u
        <= 90) || (97 <= u <= 122)
}

proof fn lemma_hex_digit_safe(d: nat)
    requires
        d < 16,
    ensures
        query_safe(hex_digit(d)),
{
    if d < 10 {
        assert(hex_digit(d) as u32 == 48 + d);
    } else {
        assert(hex_digit(d) as u32 == 55 + d);
    }
}

/// Form-encoding leaves no character that separates query parameters
/// (`&`, `=`, `#`, space, ...): every character of the result is
/// `query_safe`, so each encoded value stays one parameter.
pub proof fn form_encoded_is_query_safe(bytes: Seq<u8>)
    ensures
        forall|i: int| 0 <= i < form_encoded(bytes).len() ==> query_safe(#[trigger] form_encoded(bytes)[i]),
    decreases bytes.len(),
{
    if bytes.len() > 0 {
        let b = bytes[0];
        let head = encode_byte(b);
        let rest = form_encoded(bytes.drop_first());
        form_encoded_is_query_safe(bytes.drop_first());
        if passes_unchanged(b) {
            assert((b as char) as u32 == b as u32);
        } else if b != 32 {
            lemma_hex_digit_safe(b as nat / 16);
            lemma_hex_digit_safe(b as nat % 16);
        }
        assert forall|i: int| 0 <= i < head.len() implies query_safe(#[trigger] head[i]) by {
            if passes_unchanged(b) {
            } else if b == 32 {
            } else {
                lemma_hex_digit_safe(b as nat / 16);
                lemma_hex_digit_safe(b as nat % 16);
            }
        }
        assert forall|i: int| 0 <= i < form_encoded(bytes).len() implies query_safe(
            #[trigger] form_encoded(bytes)[i],
        ) by {
            assert(form_encoded(bytes) == head + rest);
            if i < head.len() {
                assert(form_encoded(bytes)[i] == head[i]);
            } else {
                assert(form_encoded(bytes)[i] == rest[i - head.len()]);
            }
        }
    }
}

} // verus!
