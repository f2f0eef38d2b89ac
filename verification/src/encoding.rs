//! Byte-level encodings used by the OAuth protocol machinery: base64 in the
//! three variants the protocol needs, SHA-256 digests, and a source of
//! cryptographically secure random bytes.

use vstd::prelude::*;

use base64::Engine;
use vstd::string::StringSliceAdditionalSpecFns;

verus! {

/// Alphabet of URL-safe base64 (RFC 4648 section 5).
pub const B64_URL_ALPHABET: [char; 64] = [
    'A', 'B', 'C', 'D', 'E', 'F', 'G', 'H', 'I', 'J', 'K', 'L', 'M', 'N', 'O', 'P', 'Q', 'R', 'S',
    'T', 'U', 'V', 'W', 'X', 'Y', 'Z', 'a', 'b', 'c', 'd', 'e', 'f', 'g', 'h', 'i', 'j', 'k', 'l',
    'm', 'n', 'o', 'p', 'q', 'r', 's', 't', 'u', 'v', 'w', 'x', 'y', 'z', '0', '1', '2', '3', '4',
    '5', '6', '7', '8', '9', '-', '_',
];

/// Alphabet of standard base64 (RFC 4648 section 4).
pub const B64_STD_ALPHABET: [char; 64] = [
    'A', 'B', 'C', 'D', 'E', 'F', 'G', 'H', 'I', 'J', 'K', 'L', 'M', 'N', 'O', 'P', 'Q', 'R', 'S',
    'T', 'U', 'V', 'W', 'X', 'Y', 'Z', 'a', 'b', 'c', 'd', 'e', 'f', 'g', 'h', 'i', 'j', 'k', 'l',
    'm', 'n', 'o', 'p', 'q', 'r', 's', 't', 'u', 'v', 'w', 'x', 'y', 'z', '0', '1', '2', '3', '4',
    '5', '6', '7', '8', '9', '+', '/',
];

/// The unpadded base64 encoding of `b` over the alphabet `alph`: every full
/// group of three bytes becomes four characters of six bits each, and a final
/// group of one or two bytes becomes two or three characters with the unused
/// low bits of the last character set to zero.
pub open spec fn b64_groups(b: Seq<u8>, alph: Seq<char>) -> Seq<char>
    decreases b.len(),
{
    if b.len() == 0 {
        Seq::<char>::empty()
    } else if b.len() == 1 {
        seq![alph[b[0] as int / 4], alph[(b[0] as int % 4) * 16]]
    } else if b.len() == 2 {
        seq![
            alph[b[0] as int / 4],
            alph[(b[0] as int % 4) * 16 + b[1] as int / 16],
            alph[(b[1] as int % 16) * 4],
        ]
    } else {
        seq![
            alph[b[0] as int / 4],
            alph[(b[0] as int % 4) * 16 + b[1] as int / 16],
            alph[(b[1] as int % 16) * 4 + b[2] as int / 64],
            alph[b[2] as int % 64],
        ] + b64_groups(b.skip(3), alph)
    }
}

/// URL-safe base64 without padding.
pub open spec fn base64url_nopad(b: Seq<u8>) -> Seq<char> {
    b64_groups(b, B64_URL_ALPHABET@)
}

/// URL-safe base64 with `=` padding up to a multiple of four characters.
pub open spec fn base64url_pad(b: Seq<u8>) -> Seq<char> {
    if b.len() % 3 == 1 {
        b64_groups(b, B64_URL_ALPHABET@) + seq!['=', '=']
    } else if b.len() % 3 == 2 {
        b64_groups(b, B64_URL_ALPHABET@) + seq!['=']
    } else {
        b64_groups(b, B64_URL_ALPHABET@)
    }
}

/// Standard base64 without padding.
pub open spec fn base64std_nopad(b: Seq<u8>) -> Seq<char> {
    b64_groups(b, B64_STD_ALPHABET@)
}

/// Relies on base64's `BASE64_URL_SAFE_NO_PAD` engine: URL-safe alphabet,
/// no padding characters.
#[verifier::external_body]
pub fn b64url_nopad_encode(bytes: &[u8]) -> (r: String)
    ensures
        r@ == base64url_nopad(bytes@),
{
    base64::prelude::BASE64_URL_SAFE_NO_PAD.encode(bytes)
}

/// Relies on base64's `BASE64_URL_SAFE` engine: URL-safe alphabet, padded
/// with `=` to a multiple of four characters.
#[verifier::external_body]
pub fn b64url_pad_encode(bytes: &[u8]) -> (r: String)
    ensures
        r@ == base64url_pad(bytes@),
{
    base64::prelude::BASE64_URL_SAFE.encode(bytes)
}

/// Relies on base64's `BASE64_STANDARD_NO_PAD` engine, applied to the UTF-8
/// bytes of `s`: standard alphabet, no padding characters.
#[verifier::external_body]
pub fn b64std_nopad_encode_text(s: &str) -> (r: String)
    ensures
        r@ == base64std_nopad(s.spec_bytes()),
{
    base64::prelude::BASE64_STANDARD_NO_PAD.encode(s.as_bytes())
}

/// The SHA-256 digest of a byte sequence, named but not written out: the
/// digest function itself is supplied by an outside cryptography crate.
pub uninterp spec fn sha256_of(b: Seq<u8>) -> Seq<u8>;

/// Relies on ring's `digest` with the SHA-256 algorithm, applied to the
/// UTF-8 bytes of `s`; a SHA-256 digest is always 32 bytes long.
#[verifier::external_body]
pub fn sha256_text(s: &str) -> (r: Vec<u8>)
    ensures
        r@ == sha256_of(s.spec_bytes()),
        r@.len() == 32,
{
    ring::digest::digest(&ring::digest::SHA256, s.as_bytes()).as_ref().to_vec()
}

/// Relies on ring's `SystemRandom::fill`: on success the buffer holds `len`
/// bytes drawn from the system's secure random source. Nothing can be said
/// of the bytes themselves.
#[verifier::external_body]
pub fn secure_random_bytes(len: usize) -> (r: Option<Vec<u8>>)
    ensures
        r matches Some(v) ==> v@.len() == len,
{
    let mut buf = vec![0u8; len];
    match ring::rand::SecureRandom::fill(&ring::rand::SystemRandom::new(), &mut buf) {
        Ok(()) => Some(buf),
        Err(_) => None,
    }
}

/// Pins the encoding specifications to known vectors of RFC 4648: the trusted
/// wrappers promise these functions of their input, and here the functions
/// themselves are computed on the test vectors `f`, `fo`, `foo` and a byte
/// that tells the URL-safe alphabet from the standard one.
pub proof fn lemma_base64_known_vectors()
    ensures
        base64url_nopad(seq![0x66u8]) == "Zg"@,
        base64url_nopad(seq![0x66u8, 0x6f]) == "Zm8"@,
        base64url_nopad(seq![0x66u8, 0x6f, 0x6f]) == "Zm9v"@,
        base64url_pad(seq![0x66u8]) == "Zg=="@,
        base64url_pad(seq![0x66u8, 0x6f]) == "Zm8="@,
        base64url_nopad(seq![0xfbu8, 0xff, 0xfe]) == "-__-"@,
        base64std_nopad(seq![0xfbu8, 0xff, 0xfe]) == "+//+"@,
{
    reveal_with_fuel(b64_groups, 3);
    reveal_strlit("Zg");
    reveal_strlit("Zm8");
    reveal_strlit("Zm9v");
    reveal_strlit("Zg==");
    reveal_strlit("Zm8=");
    reveal_strlit("-__-");
    reveal_strlit("+//+");
    assert(base64url_nopad(seq![0x66u8]) =~= "Zg"@);
    assert(base64url_nopad(seq![0x66u8, 0x6f]) =~= "Zm8"@);
    assert(base64url_nopad(seq![0x66u8, 0x6f, 0x6f]) =~= "Zm9v"@);
    assert(base64url_pad(seq![0x66u8]) =~= "Zg=="@);
    assert(base64url_pad(seq![0x66u8, 0x6f]) =~= "Zm8="@);
    assert(base64url_nopad(seq![0xfbu8, 0xff, 0xfe]) =~= "-__-"@);
    assert(base64std_nopad(seq![0xfbu8, 0xff, 0xfe]) =~= "+//+"@);
}

} // verus!
