//! Password digests, and the encryption of request bodies.

use vstd::prelude::*;
use openssl::hash::MessageDigest;
use openssl::rsa::{Padding, Rsa};
use openssl::symm::Cipher;
use rand::RngCore;
use vstd::utf8::encode_utf8;
use crate::json::hex_lower;
use crate::query::{hex_upper, url_encoded, Query};

verus! {

/// The name for the MD5 digest of `data`, as OpenSSL computes it.
pub uninterp spec fn md5_digest(data: Seq<u8>) -> Seq<u8>;

/// `openssl::hash::hash(MessageDigest::md5(), data)`: the digest, or `None`
/// where OpenSSL reports an error (which inputs make it fail is not stated).
#[verifier::external_body]
fn md5(data: &[u8]) -> (r: Option<Vec<u8>>)
    ensures
        r matches Some(d) ==> d@ == md5_digest(data@),
{
    openssl::hash::hash(MessageDigest::md5(), data).ok().map(|d| d.to_vec())
}

/// Each byte as two lower-case hexadecimal digits, high half first.
pub open spec fn hex_text(data: Seq<u8>) -> Seq<char>
    decreases data.len(),
{
    if data.len() == 0 {
        Seq::empty()
    } else {
        seq![hex_lower(data[0] as int / 16), hex_lower(data[0] as int % 16)] + hex_text(
            data.drop_first(),
        )
    }
}

/// `hex::encode`: every byte as two lower-case hexadecimal digits.
#[verifier::external_body]
fn hex_encode(data: &[u8]) -> (s: String)
    ensures
        s@ == hex_text(data@),
{
    hex::encode(data)
}

/// The text sent for a password: the hexadecimal MD5 digest of its UTF-8 bytes.
pub open spec fn password_hash(password: Seq<char>) -> Seq<char> {
    hex_text(md5_digest(vstd::utf8::encode_utf8(password)))
}

/// The text sent for a password's digest: its bytes in lower-case
/// hexadecimal.
pub fn digest_text(digest: &[u8]) -> (s: String)
    ensures
        s@ == hex_text(digest@),
{
    hex_encode(digest)
}

/// Digests a password; `None` where OpenSSL fails.
pub fn hash_password(password: &str) -> (r: Option<String>)
    ensures
        r matches Some(h) ==> h@ == password_hash(password@),
{
    let bytes = password.as_bytes();
    match md5(bytes) {
        Some(d) => Some(digest_text(d.as_slice())),
        None => None,
    }
}

/// The first key of the web scheme.
pub const PRESET_KEY: &'static str = "0CoJUm6Qyw8W8jud";

/// The initialisation vector of the web scheme.
pub const IV: &'static str = "0102030405060708";

/// The key of the Linux client scheme.
pub const LINUXAPI_KEY: &'static str = "rFgB&h#%2?^eDg:Q";

/// The public key that the web scheme's secret key is sent under.
pub const RSA_PUBLIC_KEY: &'static str = "-----BEGIN PUBLIC KEY-----\nMIGfMA0GCSqGSIb3DQEBAQUAA4GNADCBiQKBgQDgtQn2JZ34ZC28NWYpAUd98iZ37BUrX/aKzmFbt7clFSs6sXqHauqKWqdtLkF2KexO40H1YTX8z2lSgBBOAxLsvaklV8k4cBFK9snQXE9/DDaFt6Rr7iVZMldczhC0JNgTz+SHXT6CBHuX3e9SdB1Ua44oncaTWz7OBGLbCiK45wIDAQAB\n-----END PUBLIC KEY-----";

proof fn lemma_key_lengths()
    ensures
        encode_utf8(PRESET_KEY@).len() == 16,
        encode_utf8(IV@).len() == 16,
        encode_utf8(LINUXAPI_KEY@).len() == 16,
{
    reveal_strlit("0CoJUm6Qyw8W8jud");
    reveal_strlit("0102030405060708");
    reveal_strlit("rFgB&h#%2?^eDg:Q");
    assert(vstd::utf8::is_ascii_chars(PRESET_KEY@));
    assert(vstd::utf8::is_ascii_chars(IV@));
    assert(vstd::utf8::is_ascii_chars(LINUXAPI_KEY@));
    vstd::utf8::is_ascii_chars_encode_utf8(PRESET_KEY@);
    vstd::utf8::is_ascii_chars_encode_utf8(IV@);
    vstd::utf8::is_ascii_chars_encode_utf8(LINUXAPI_KEY@);
}

/// The name for what OpenSSL gives for AES-128 in CBC mode with PKCS#7 padding.
pub uninterp spec fn aes_cbc_encrypted(key: Seq<u8>, iv: Seq<u8>, data: Seq<u8>) -> Seq<u8>;

/// The name for what OpenSSL gives for AES-128 in ECB mode with PKCS#7 padding.
pub uninterp spec fn aes_ecb_encrypted(key: Seq<u8>, data: Seq<u8>) -> Seq<u8>;

/// The name for what OpenSSL gives for RSA without padding under the public
/// key in PEM form `pem`, as a buffer of the key's size.
pub uninterp spec fn rsa_raw_encrypted(pem: Seq<u8>, data: Seq<u8>) -> Seq<u8>;

/// `openssl::symm::encrypt(Cipher::aes_128_cbc(), key, Some(iv), data)`, with
/// `key` and `iv` of the cipher's own length, 16 bytes; `None` where OpenSSL
/// reports an error.
#[verifier::external_body]
fn aes_cbc(key: &[u8], iv: &[u8], data: &[u8]) -> (r: Option<Vec<u8>>)
    requires
        key@.len() == 16,
        iv@.len() == 16,
    ensures
        r matches Some(c) ==> c@ == aes_cbc_encrypted(key@, iv@, data@),
{
    openssl::symm::encrypt(Cipher::aes_128_cbc(), key, Some(iv), data).ok()
}

/// `openssl::symm::encrypt(Cipher::aes_128_ecb(), key, None, data)`, with
/// `key` of the cipher's own length, 16 bytes; `None` where OpenSSL reports
/// an error.
#[verifier::external_body]
fn aes_ecb(key: &[u8], data: &[u8]) -> (r: Option<Vec<u8>>)
    requires
        key@.len() == 16,
    ensures
        r matches Some(c) ==> c@ == aes_ecb_encrypted(key@, data@),
{
    openssl::symm::encrypt(Cipher::aes_128_ecb(), key, None, data).ok()
}

/// `Rsa::public_key_from_pem(pem)` then `public_encrypt(data, buf,
/// Padding::NONE)` into a buffer of the key's size; `None` where OpenSSL
/// reports an error (a bad key, or data not of the key's size).
#[verifier::external_body]
fn rsa_raw(pem: &[u8], data: &[u8]) -> (r: Option<Vec<u8>>)
    ensures
        r matches Some(c) ==> c@ == rsa_raw_encrypted(pem@, data@),
{
    let rsa = Rsa::public_key_from_pem(pem).ok()?;
    let mut buf = vec![0u8; rsa.size() as usize];
    rsa.public_encrypt(data, &mut buf, Padding::NONE).ok()?;
    Some(buf)
}

/// A character of the standard base64 alphabet.
pub open spec fn base64_char(n: int) -> char {
    if n < 26 {
        (65 + n) as char
    } else if n < 52 {
        (97 + n - 26) as char
    } else if n < 62 {
        (48 + n - 52) as char
    } else if n == 62 {
        '+'
    } else {
        '/'
    }
}

/// Standard base64 with `=` padding: every three bytes as four characters.
pub open spec fn base64_text(d: Seq<u8>) -> Seq<char>
    decreases d.len(),
{
    if d.len() == 0 {
        Seq::empty()
    } else if d.len() == 1 {
        seq![base64_char(d[0] as int / 4), base64_char((d[0] as int % 4) * 16), '=', '=']
    } else if d.len() == 2 {
        seq![
            base64_char(d[0] as int / 4),
            base64_char((d[0] as int % 4) * 16 + d[1] as int / 16),
            base64_char((d[1] as int % 16) * 4),
            '=',
        ]
    } else {
        seq![
            base64_char(d[0] as int / 4),
            base64_char((d[0] as int % 4) * 16 + d[1] as int / 16),
            base64_char((d[1] as int % 16) * 4 + d[2] as int / 64),
            base64_char(d[2] as int % 64),
        ] + base64_text(d.skip(3))
    }
}

/// `base64::encode`: standard alphabet, padded.
#[verifier::external_body]
fn base64_encode(data: &[u8]) -> (s: String)
    ensures
        s@ == base64_text(data@),
{
    base64::encode(data)
}

/// Each byte as two upper-case hexadecimal digits, high half first.
pub open spec fn hex_text_upper(data: Seq<u8>) -> Seq<char>
    decreases data.len(),
{
    if data.len() == 0 {
        Seq::empty()
    } else {
        seq![hex_upper(data[0] as int / 16), hex_upper(data[0] as int % 16)] + hex_text_upper(
            data.drop_first(),
        )
    }
}

/// `hex::encode_upper`: every byte as two upper-case hexadecimal digits.
#[verifier::external_body]
fn hex_encode_upper(data: &[u8]) -> (s: String)
    ensures
        s@ == hex_text_upper(data@),
{
    hex::encode_upper(data)
}

/// `OsRng.fill_bytes` on 16 bytes: bytes from the system's source of
/// randomness; which ones is left open.
#[verifier::external_body]
fn random_16() -> (r: Vec<u8>)
    ensures
        r@.len() == 16,
{
    let mut bytes = [0u8; 16];
    rand::rngs::OsRng.fill_bytes(&mut bytes);
    bytes.to_vec()
}

/// A character of the secret key alphabet (`a-z`, `A-Z`, `0-9`), as a byte.
pub open spec fn base62_byte(n: int) -> u8 {
    if n < 26 {
        (97 + n) as u8
    } else if n < 52 {
        (65 + n - 26) as u8
    } else {
        (48 + n - 52) as u8
    }
}

/// The secret key drawn from random bytes: each byte picks a character.
pub open spec fn secret_key_of(random: Seq<u8>) -> Seq<u8> {
    random.map_values(|b: u8| base62_byte(b as int % 62))
}

fn secret_key(random: &Vec<u8>) -> (k: Vec<u8>)
    ensures
        k@ == secret_key_of(random@),
{
    let mut k: Vec<u8> = Vec::new();
    let mut i: usize = 0;
    while i < random.len()
        invariant
            i <= random@.len(),
            k@ == secret_key_of(random@.take(i as int)),
        decreases random@.len() - i,
    {
        let n: u8 = random[i] % 62;
        let b: u8 = if n < 26 {
            97 + n
        } else if n < 52 {
            65 + (n - 26)
        } else {
            48 + (n - 52)
        };
        k.push(b);
        assert(secret_key_of(random@.take(i + 1)) =~= secret_key_of(random@.take(i as int)).push(b));
        i = i + 1;
    }
    assert(random@.take(random@.len() as int) =~= random@);
    k
}

/// What RSA is given for the secret key: the key reversed, after zeros up to
/// 128 bytes.
pub open spec fn rsa_input(key: Seq<u8>) -> Seq<u8> {
    Seq::new((128 - key.len()) as nat, |i: int| 0u8) + key.reverse()
}

fn rsa_block(key: &[u8]) -> (b: Vec<u8>)
    requires
        key@.len() <= 128,
    ensures
        b@ == rsa_input(key@),
{
    let mut b: Vec<u8> = Vec::new();
    let pad: usize = 128 - key.len();
    let mut i: usize = 0;
    while i < pad
        invariant
            pad == 128 - key@.len(),
            i <= pad,
            b@ == Seq::new(i as nat, |j: int| 0u8),
        decreases pad - i,
    {
        b.push(0u8);
        assert(b@ =~= Seq::new((i + 1) as nat, |j: int| 0u8));
        i = i + 1;
    }
    let mut j: usize = key.len();
    while j > 0
        invariant
            j <= key@.len(),
            key@.len() <= 128,
            b@ == Seq::new((128 - key@.len()) as nat, |x: int| 0u8) + key@.reverse().take(
                key@.len() - j,
            ),
        decreases j,
    {
        j = j - 1;
        let ghost before = b@;
        b.push(key[j]);
        assert(key@.reverse()[key@.len() - j - 1] == key@[j as int]);
        assert(key@.reverse().take(key@.len() - j) =~= key@.reverse().take(key@.len() - j - 1).push(
            key@[j as int],
        ));
    }
    assert(key@.reverse().take(key@.len() as int) =~= key@.reverse());
    b
}

/// The body of a web scheme request for `text` under the secret `key`: the
/// text encrypted with the preset key, in base64, encrypted again with the
/// secret key; and the secret key under RSA.
pub open spec fn weapi_body(text: Seq<char>, key: Seq<u8>) -> Seq<char> {
    let first = base64_text(
        aes_cbc_encrypted(encode_utf8(PRESET_KEY@), encode_utf8(IV@), encode_utf8(text)),
    );
    weapi_form(
        aes_cbc_encrypted(key, encode_utf8(IV@), encode_utf8(first)),
        rsa_raw_encrypted(encode_utf8(RSA_PUBLIC_KEY@), rsa_input(key)),
    )
}

/// The form of a web scheme request, from the text encrypted twice and the
/// secret key under RSA: the first in base64, the second in hexadecimal.
pub open spec fn weapi_form(params: Seq<u8>, secret: Seq<u8>) -> Seq<char> {
    url_encoded(seq![("params"@, base64_text(params)), ("encSecKey"@, hex_text(secret))])
}

/// Writes the form of a web scheme request.
pub fn weapi_form_of(params: &[u8], secret: &[u8]) -> (r: String)
    ensures
        r@ == weapi_form(params@, secret@),
{
    let mut pairs: Vec<(String, String)> = Vec::new();
    pairs.push(("params".to_owned(), base64_encode(params)));
    pairs.push(("encSecKey".to_owned(), hex_encode(secret)));
    let form = Query { pairs };
    assert(form@ =~= seq![("params"@, base64_text(params@)), ("encSecKey"@, hex_text(secret@))]);
    form.stringify()
}

/// The web scheme body of `text` under the 16-byte secret `key`; `None`
/// where OpenSSL fails.
pub fn weapi_with_key(text: &str, key: &[u8]) -> (r: Option<String>)
    requires
        key@.len() == 16,
    ensures
        r matches Some(b) ==> b@ == weapi_body(text@, key@),
{
    proof {
        lemma_key_lengths();
    }
    let first_bytes = match aes_cbc(PRESET_KEY.as_bytes(), IV.as_bytes(), text.as_bytes()) {
        Some(c) => c,
        None => return None,
    };
    let first = base64_encode(first_bytes.as_slice());
    let second = match aes_cbc(key, IV.as_bytes(), first.as_str().as_bytes()) {
        Some(c) => c,
        None => return None,
    };
    let block = rsa_block(key);
    let secret = match rsa_raw(RSA_PUBLIC_KEY.as_bytes(), block.as_slice()) {
        Some(c) => c,
        None => return None,
    };
    Some(weapi_form_of(second.as_slice(), secret.as_slice()))
}

/// The web scheme body of `text`, under a secret key drawn at random.
pub fn weapi(text: &str) -> (r: Option<String>)
    ensures
        r matches Some(b) ==> exists|random: Seq<u8>|
            random.len() == 16 && b@ == weapi_body(text@, secret_key_of(random)),
{
    let random = random_16();
    let key = secret_key(&random);
    weapi_with_key(text, key.as_slice())
}

/// The form of a Linux client request, from the encrypted text: upper-case
/// hexadecimal as the field `eparams`.
pub open spec fn linuxapi_form(cipher: Seq<u8>) -> Seq<char> {
    url_encoded(seq![("eparams"@, hex_text_upper(cipher))])
}

/// Writes the form of a Linux client request.
pub fn linuxapi_form_of(cipher: &[u8]) -> (r: String)
    ensures
        r@ == linuxapi_form(cipher@),
{
    let mut pairs: Vec<(String, String)> = Vec::new();
    pairs.push(("eparams".to_owned(), hex_encode_upper(cipher)));
    let form = Query { pairs };
    assert(form@ =~= seq![("eparams"@, hex_text_upper(cipher@))]);
    form.stringify()
}

/// The body of a Linux client request for `text`: the text encrypted with
/// the Linux key.
pub open spec fn linuxapi_body(text: Seq<char>) -> Seq<char> {
    linuxapi_form(aes_ecb_encrypted(encode_utf8(LINUXAPI_KEY@), encode_utf8(text)))
}

/// The Linux client body of `text`; `None` where OpenSSL fails.
pub fn linuxapi(text: &str) -> (r: Option<String>)
    ensures
        r matches Some(b) ==> b@ == linuxapi_body(text@),
{
    proof {
        lemma_key_lengths();
    }
    match aes_ecb(LINUXAPI_KEY.as_bytes(), text.as_bytes()) {
        Some(c) => Some(linuxapi_form_of(c.as_slice())),
        None => None,
    }
}

} // verus!
