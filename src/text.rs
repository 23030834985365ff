use vstd::prelude::*;
use vstd::string::{StringExecFns, StringSliceAdditionalSpecFns};
use vstd::utf8::{
    char_is_scalar, decode_utf8, encode_scalar, encode_utf8, has_width_1_encoding, valid_utf8,
};

use crate::errors::{Error, Result};

verus! {

/// The bytes handed to the engine for `s`: its UTF-8 encoding and a final NUL.
pub open spec fn c_string_bytes(s: &str) -> Seq<u8> {
    s.spec_bytes().push(0u8)
}

/// Whether a string cannot be passed as a C string: a NUL byte would cut it short.
pub open spec fn has_nul(s: &str) -> bool {
    s.spec_bytes().contains(0u8)
}

/// The encoding of one character holds a zero byte exactly when the
/// character is `'\0'`: every byte of a longer encoding has its top bit set.
proof fn scalar_encoding_nul(c: char)
    ensures
        encode_scalar(c as u32).contains(0u8) <==> c == '\0',
{
    let v = c as u32;
    broadcast use char_is_scalar;
    let e = encode_scalar(v);
    if has_width_1_encoding(v) {
        assert(v <= 0x7f);
        assert(((v & 0x7f) as u8 == 0u8) <==> v == 0) by (bit_vector)
            requires
                v <= 0x7f,
        ;
        assert(e.len() == 1 && e[0] == (v & 0x7f) as u8);
        if e.contains(0u8) {
            assert(v == 0);
            assert(c == '\0');
        }
        if c == '\0' {
            assert(e[0] == 0u8);
        }
    } else {
        assert(forall|x: u8| #[trigger] (0xC0u8 | x) != 0u8) by (bit_vector);
        assert(forall|x: u8| #[trigger] (0xE0u8 | x) != 0u8) by (bit_vector);
        assert(forall|x: u8| #[trigger] (0xF0u8 | x) != 0u8) by (bit_vector);
        assert(forall|x: u8| #[trigger] (0x80u8 | x) != 0u8) by (bit_vector);
        assert forall|i: int| 0 <= i < e.len() implies e[i] != 0u8 by {}
        assert(v != 0);
    }
}

/// The UTF-8 encoding of a text holds a zero byte exactly when the text
/// holds the character `'\0'`.
pub proof fn nul_byte_iff_nul_char(chars: Seq<char>)
    ensures
        encode_utf8(chars).contains(0u8) <==> chars.contains('\0'),
    decreases chars.len(),
{
    if chars.len() == 0 {
        assert(encode_utf8(chars) =~= Seq::<u8>::empty());
    } else {
        let rest = chars.drop_first();
        let head = encode_scalar(chars[0] as u32);
        let tail = encode_utf8(rest);
        nul_byte_iff_nul_char(rest);
        scalar_encoding_nul(chars[0]);
        let all = encode_utf8(chars);
        assert(all == head + tail);
        if all.contains(0u8) {
            let k = choose|k: int| 0 <= k < all.len() && all[k] == 0u8;
            if k < head.len() {
                assert(head[k] == 0u8);
                assert(chars[0] == '\0');
            } else {
                assert(tail[k - head.len()] == 0u8);
                let j = choose|j: int| 0 <= j < rest.len() && rest[j] == '\0';
                assert(chars[j + 1] == '\0');
            }
        }
        if chars.contains('\0') {
            let j = choose|j: int| 0 <= j < chars.len() && chars[j] == '\0';
            if j == 0 {
                let k = choose|k: int| 0 <= k < head.len() && head[k] == 0u8;
                assert(all[k] == 0u8);
            } else {
                assert(rest[j - 1] == '\0');
                let k = choose|k: int| 0 <= k < tail.len() && tail[k] == 0u8;
                assert(all[head.len() + k] == 0u8);
            }
        }
    }
}

/// Encodes `s` as a NUL-terminated C string, refusing one with a NUL inside.
pub fn nul_terminated(s: &str) -> (r: Result<Vec<u8>>)
    ensures
        r is Err <==> has_nul(s),
        r is Err <==> s@.contains('\0'),
        r matches Err(e) ==> e is NulBytesFound,
        r matches Ok(v) ==> v@ == c_string_bytes(s),
{
    let bytes = s.as_bytes();
    let mut out: Vec<u8> = Vec::new();
    let mut i: usize = 0;
    while i < bytes.len()
        invariant
            bytes@ == s.spec_bytes(),
            i <= bytes@.len(),
            out@ == bytes@.subrange(0, i as int),
            forall|k: int| 0 <= k < i ==> bytes@[k] != 0u8,
        decreases bytes@.len() - i,
    {
        if bytes[i] == 0u8 {
            assert(bytes@[i as int] == 0u8);
            assert(bytes@.contains(0u8));
            proof {
                nul_byte_iff_nul_char(s@);
            }
            return Err(Error::NulBytesFound);
        }
        out.push(bytes[i]);
        i = i + 1;
        assert(out@ == bytes@.subrange(0, i as int));
    }
    assert(out@ == bytes@);
    proof {
        nul_byte_iff_nul_char(s@);
    }
    out.push(0u8);
    Ok(out)
}

/// Relies on `String::from_utf8`: it succeeds exactly on valid UTF-8 and then
/// holds the characters those bytes encode.
#[verifier::external_body]
fn string_from_utf8(bytes: Vec<u8>) -> (r: core::result::Result<String, std::string::FromUtf8Error>)
    ensures
        r is Ok <==> valid_utf8(bytes@),
        r matches Ok(s) ==> s@ == decode_utf8(bytes@),
{
    String::from_utf8(bytes)
}

/// Turns the text a native call returned into a string: nothing at all is
/// [`Error::Unknown`], bytes that are not UTF-8 are [`Error::Utf8Error`].
pub fn text_from_native(raw: Option<Vec<u8>>) -> (r: Result<String>)
    ensures
        raw is None ==> (r matches Err(e) && e is Unknown),
        raw matches Some(b) ==> {
            &&& valid_utf8(b@) ==> (r matches Ok(s) && s@ == decode_utf8(b@))
            &&& !valid_utf8(b@) ==> (r matches Err(e) && e is Utf8Error)
        },
{
    match raw {
        None => Err(Error::Unknown),
        Some(bytes) => match string_from_utf8(bytes) {
            Ok(s) => Ok(s),
            Err(e) => Err(Error::Utf8Error(e)),
        },
    }
}

/// The text of a transcript from the texts of its tokens: each token
/// followed by one space.
pub open spec fn spaced_text(tokens: Seq<String>) -> Seq<char>
    decreases tokens.len(),
{
    if tokens.len() == 0 {
        Seq::empty()
    } else {
        spaced_text(tokens.drop_last()) + tokens.last()@ + seq![' ']
    }
}

/// Writes the texts of a transcript's tokens one after another, each
/// followed by one space.
pub fn transcript_text(tokens: &Vec<String>) -> (r: String)
    ensures
        r@ == spaced_text(tokens@),
{
    let mut out = String::new();
    let mut i: usize = 0;
    proof {
        reveal_strlit(" ");
        assert(tokens@.subrange(0, 0) =~= Seq::<String>::empty());
    }
    while i < tokens.len()
        invariant
            i <= tokens@.len(),
            out@ == spaced_text(tokens@.subrange(0, i as int)),
            " "@ == seq![' '],
        decreases tokens@.len() - i,
    {
        out.append(tokens[i].as_str());
        out.append(" ");
        proof {
            let next = tokens@.subrange(0, i + 1);
            assert(next.drop_last() =~= tokens@.subrange(0, i as int));
            assert(next.last() == tokens@[i as int]);
        }
        i = i + 1;
    }
    proof {
        assert(tokens@.subrange(0, tokens@.len() as int) =~= tokens@);
    }
    out
}

} // verus!
