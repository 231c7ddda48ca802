//! Decoding of the obfuscated stream identifiers that the catalogue hands
//! out for its stream sources.

use vstd::prelude::*;
use vstd::utf8::is_char_boundary;
use vstd::utf8::encode_utf8;

verus! {

/// The character that a two-byte code stands for in an obfuscated stream
/// identifier, if the code is one of the known ones.
pub open spec fn decode_pair(a: u8, b: u8) -> Option<char> {
    if a == 48 && b == 49 {
        Some('9')
    } else if a == 48 && b == 56 {
        Some('0')
    } else if a == 48 && b == 53 {
        Some('=')
    } else if a == 48 && b == 97 {
        Some('2')
    } else if a == 48 && b == 98 {
        Some('3')
    } else if a == 48 && b == 99 {
        Some('4')
    } else if a == 48 && b == 55 {
        Some('?')
    } else if a == 48 && b == 48 {
        Some('8')
    } else if a == 53 && b == 99 {
        Some('d')
    } else if a == 48 && b == 102 {
        Some('7')
    } else if a == 53 && b == 101 {
        Some('f')
    } else if a == 49 && b == 55 {
        Some('/')
    } else if a == 53 && b == 52 {
        Some('l')
    } else if a == 48 && b == 57 {
        Some('1')
    } else if a == 52 && b == 56 {
        Some('p')
    } else if a == 52 && b == 102 {
        Some('w')
    } else if a == 48 && b == 101 {
        Some('6')
    } else if a == 53 && b == 98 {
        Some('c')
    } else if a == 53 && b == 100 {
        Some('e')
    } else if a == 48 && b == 100 {
        Some('5')
    } else if a == 53 && b == 51 {
        Some('k')
    } else if a == 49 && b == 101 {
        Some('&')
    } else if a == 53 && b == 97 {
        Some('b')
    } else if a == 53 && b == 57 {
        Some('a')
    } else if a == 52 && b == 97 {
        Some('r')
    } else if a == 52 && b == 99 {
        Some('t')
    } else if a == 52 && b == 101 {
        Some('v')
    } else if a == 53 && b == 55 {
        Some('o')
    } else if a == 53 && b == 49 {
        Some('i')
    } else {
        None
    }
}

/// The characters of an obfuscated identifier given by its bytes: each
/// consecutive two-byte code is replaced by the character it stands for,
/// unknown codes are dropped, and a trailing odd byte is ignored.
pub open spec fn substituted(bytes: Seq<u8>) -> Seq<char>
    decreases bytes.len(),
{
    if bytes.len() < 2 {
        Seq::empty()
    } else {
        let head = match decode_pair(bytes[0], bytes[1]) {
            Some(c) => seq![c],
            None => Seq::empty(),
        };
        head + substituted(bytes.skip(2))
    }
}

/// Whether every two-byte code of the text lies between character
/// boundaries of its UTF-8 encoding, so that it can be sliced out.
pub open spec fn pairs_on_boundaries(s: Seq<char>) -> bool {
    codes_on_boundaries(encode_utf8(s))
}

/// Whether every two-byte code of a UTF-8 byte string ends on a character
/// boundary.
pub open spec fn codes_on_boundaries(bytes: Seq<u8>) -> bool {
    forall|k: int| 1 <= k <= bytes.len() / 2 ==> #[trigger] is_char_boundary(bytes, 2 * k)
}

/// The one-character text a known two-byte code stands for.
fn decode_pair_str(a: u8, b: u8) -> (r: Option<&'static str>)
    ensures
        match r {
            Some(s) => decode_pair(a, b) matches Some(c) && s@ == seq![c],
            None => decode_pair(a, b) is None,
        },
{
    proof {
        reveal_strlit("9");
        reveal_strlit("0");
        reveal_strlit("=");
        reveal_strlit("2");
        reveal_strlit("3");
        reveal_strlit("4");
        reveal_strlit("?");
        reveal_strlit("8");
        reveal_strlit("d");
        reveal_strlit("7");
        reveal_strlit("f");
        reveal_strlit("/");
        reveal_strlit("l");
        reveal_strlit("1");
        reveal_strlit("p");
        reveal_strlit("w");
        reveal_strlit("6");
        reveal_strlit("c");
        reveal_strlit("e");
        reveal_strlit("5");
        reveal_strlit("k");
        reveal_strlit("&");
        reveal_strlit("b");
        reveal_strlit("a");
        reveal_strlit("r");
        reveal_strlit("t");
        reveal_strlit("v");
        reveal_strlit("o");
        reveal_strlit("i");
    }
    if a == 48 && b == 49 {
        Some("9")
    } else if a == 48 && b == 56 {
        Some("0")
    } else if a == 48 && b == 53 {
        Some("=")
    } else if a == 48 && b == 97 {
        Some("2")
    } else if a == 48 && b == 98 {
        Some("3")
    } else if a == 48 && b == 99 {
        Some("4")
    } else if a == 48 && b == 55 {
        Some("?")
    } else if a == 48 && b == 48 {
        Some("8")
    } else if a == 53 && b == 99 {
        Some("d")
    } else if a == 48 && b == 102 {
        Some("7")
    } else if a == 53 && b == 101 {
        Some("f")
    } else if a == 49 && b == 55 {
        Some("/")
    } else if a == 53 && b == 52 {
        Some("l")
    } else if a == 48 && b == 57 {
        Some("1")
    } else if a == 52 && b == 56 {
        Some("p")
    } else if a == 52 && b == 102 {
        Some("w")
    } else if a == 48 && b == 101 {
        Some("6")
    } else if a == 53 && b == 98 {
        Some("c")
    } else if a == 53 && b == 100 {
        Some("e")
    } else if a == 48 && b == 100 {
        Some("5")
    } else if a == 53 && b == 51 {
        Some("k")
    } else if a == 49 && b == 101 {
        Some("&")
    } else if a == 53 && b == 97 {
        Some("b")
    } else if a == 53 && b == 57 {
        Some("a")
    } else if a == 52 && b == 97 {
        Some("r")
    } else if a == 52 && b == 99 {
        Some("t")
    } else if a == 52 && b == 101 {
        Some("v")
    } else if a == 53 && b == 55 {
        Some("o")
    } else if a == 53 && b == 49 {
        Some("i")
    } else {
        None
    }
}

/// Decodes an obfuscated stream identifier: the text is read as two-byte
/// codes, each known code becomes the character it stands for and unknown
/// codes are dropped.
pub fn substitute_id(input_id: String) -> (output_id: String)
    requires
        pairs_on_boundaries(input_id@),
    ensures
        output_id@ == substituted(encode_utf8(input_id@)),
{
    let bytes = input_id.as_str().as_bytes();
    let ghost all = bytes@;
    let mut output_id = String::new();
    let n = bytes.len() / 2;
    let mut i: usize = 0;
    assert(all.skip(0) =~= all);
    while i < n
        invariant
            n == all.len() / 2,
            all.len() == bytes.len(),
            bytes@ == all,
            i <= n,
            substituted(all) == output_id@ + substituted(all.skip(2 * i)),
        decreases n - i,
    {
        let a = bytes[2 * i];
        let b = bytes[2 * i + 1];
        let ghost rest = all.skip(2 * i);
        assert(rest.skip(2) =~= all.skip(2 * i + 2));
        assert(rest[0] == a && rest[1] == b);
        match decode_pair_str(a, b) {
            Some(s) => {
                output_id.append(s);
            },
            None => {},
        }
        i = i + 1;
    }
    assert(substituted(all.skip(2 * i)) =~= Seq::<char>::empty());
    output_id
}

/// The two-byte code of a character that obfuscated identifiers can carry.
pub open spec fn code_of(c: char) -> Option<Seq<u8>> {
    if c == '9' {
        Some(seq![48u8, 49u8])
    } else if c == '0' {
        Some(seq![48u8, 56u8])
    } else if c == '=' {
        Some(seq![48u8, 53u8])
    } else if c == '2' {
        Some(seq![48u8, 97u8])
    } else if c == '3' {
        Some(seq![48u8, 98u8])
    } else if c == '4' {
        Some(seq![48u8, 99u8])
    } else if c == '?' {
        Some(seq![48u8, 55u8])
    } else if c == '8' {
        Some(seq![48u8, 48u8])
    } else if c == 'd' {
        Some(seq![53u8, 99u8])
    } else if c == '7' {
        Some(seq![48u8, 102u8])
    } else if c == 'f' {
        Some(seq![53u8, 101u8])
    } else if c == '/' {
        Some(seq![49u8, 55u8])
    } else if c == 'l' {
        Some(seq![53u8, 52u8])
    } else if c == '1' {
        Some(seq![48u8, 57u8])
    } else if c == 'p' {
        Some(seq![52u8, 56u8])
    } else if c == 'w' {
        Some(seq![52u8, 102u8])
    } else if c == '6' {
        Some(seq![48u8, 101u8])
    } else if c == 'c' {
        Some(seq![53u8, 98u8])
    } else if c == 'e' {
        Some(seq![53u8, 100u8])
    } else if c == '5' {
        Some(seq![48u8, 100u8])
    } else if c == 'k' {
        Some(seq![53u8, 51u8])
    } else if c == '&' {
        Some(seq![49u8, 101u8])
    } else if c == 'b' {
        Some(seq![53u8, 97u8])
    } else if c == 'a' {
        Some(seq![53u8, 57u8])
    } else if c == 'r' {
        Some(seq![52u8, 97u8])
    } else if c == 't' {
        Some(seq![52u8, 99u8])
    } else if c == 'v' {
        Some(seq![52u8, 101u8])
    } else if c == 'o' {
        Some(seq![53u8, 55u8])
    } else if c == 'i' {
        Some(seq![53u8, 49u8])
    } else {
        None
    }
}

/// The obfuscated form of a text made of codable characters: each character
/// replaced by its two-byte code.
pub open spec fn encoded(s: Seq<char>) -> Seq<u8>
    decreases s.len(),
{
    if s.len() == 0 {
        Seq::empty()
    } else {
        code_of(s[0])->0 + encoded(s.drop_first())
    }
}

/// Whether every character of a text has a code.
pub open spec fn codable(s: Seq<char>) -> bool {
    forall|i: int| 0 <= i < s.len() ==> (#[trigger] code_of(s[i])) is Some
}

proof fn lemma_code_decodes(c: char)
    requires
        code_of(c) is Some,
    ensures
        code_of(c)->0.len() == 2,
        decode_pair(code_of(c)->0[0], code_of(c)->0[1]) == Some(c),
{
}

/// Decoding recovers every text of codable characters from its codes: the
/// table of codes is one-to-one.
pub proof fn substitution_recovers_text(s: Seq<char>)
    requires
        codable(s),
    ensures
        substituted(encoded(s)) == s,
    decreases s.len(),
{
    if s.len() > 0 {
        let rest = s.drop_first();
        assert(codable(rest)) by {
            assert forall|i: int| 0 <= i < rest.len() implies (#[trigger] code_of(rest[i])) is Some by {
                assert(rest[i] == s[i + 1]);
            }
        }
        substitution_recovers_text(rest);
        assert(code_of(s[0]) is Some);
        lemma_code_decodes(s[0]);
        let e = encoded(s);
        let code = code_of(s[0])->0;
        assert(e =~= code + encoded(rest));
        assert(e.skip(2) =~= encoded(rest));
        assert(e[0] == code[0] && e[1] == code[1]);
        assert(s =~= seq![s[0]] + rest);
    }
}

/// A decoded identifier has at most one character per two bytes of input.
pub proof fn substitution_length(bytes: Seq<u8>)
    ensures
        substituted(bytes).len() <= bytes.len() / 2,
    decreases bytes.len(),
{
    if bytes.len() >= 2 {
        substitution_length(bytes.skip(2));
    }
}

} // verus!
