//! Decryption of the platform's proprietary encrypted media files.
//!
//! A file is laid out as three regions: a 16-byte reserved header, a 32-byte
//! verification tag (the lowercase-hex MD5 of the lowercase-hex MD5 of the
//! per-file verify code), and the AES-128-CBC cipher payload. The verify code
//! also supplies the cipher key: its UTF-8 bytes, truncated or zero-padded to
//! 16 bytes. The initialization vector is fixed. Decryption is pure and
//! stateless; each failure is reported under its own reserved envelope code.

use vstd::prelude::*;
use vstd::slice::slice_subrange;
use vstd::string::StringSliceAdditionalSpecFns;
use md5::Digest;
use block_modes::BlockMode;

use crate::errors::APIError;

verus! {

/// Byte value of the lowercase hexadecimal digit for `n` (`n < 16`).
pub open spec fn hex_digit(n: u8) -> u8 {
    if n < 10 {
        (48 + n) as u8
    } else {
        (87 + n) as u8
    }
}

/// Lowercase hexadecimal ASCII rendering of a byte sequence, two digits per byte.
pub open spec fn hex_ascii(s: Seq<u8>) -> Seq<u8> {
    Seq::new(
        s.len() * 2,
        |i: int|
            if i % 2 == 0 {
                hex_digit(s[i / 2] / 16)
            } else {
                hex_digit(s[i / 2] % 16)
            },
    )
}

/// The MD5 digest (16 bytes) of a byte sequence, as the md5 crate computes it.
pub uninterp spec fn md5_of(data: Seq<u8>) -> Seq<u8>;

/// AES-128-CBC encryption with PKCS#7 padding of `plain` under `key` and `iv`.
pub uninterp spec fn aes_cbc_enc(key: Seq<u8>, iv: Seq<u8>, plain: Seq<u8>) -> Seq<u8>;

/// AES-128-CBC decryption with PKCS#7 depadding of `cipher` under `key` and
/// `iv`; `None` when the input is misaligned or the padding comes out invalid.
pub uninterp spec fn aes_cbc_dec(key: Seq<u8>, iv: Seq<u8>, cipher: Seq<u8>) -> Option<Seq<u8>>;

/// The verification tag embedded in a file for a verify code: the double MD5,
/// where the second hash is taken over the lowercase-hex ASCII of the first.
pub open spec fn double_tag(code: Seq<u8>) -> Seq<u8> {
    hex_ascii(md5_of(hex_ascii(md5_of(code))))
}

/// The 16-byte cipher key derived from a verify code's UTF-8 bytes:
/// truncated to 16 bytes, or zero-padded on the right when shorter.
pub open spec fn key_of(code: Seq<u8>) -> Seq<u8> {
    Seq::new(16, |i: int| if i < code.len() { code[i] } else { 0u8 })
}

/// The fixed initialization vector: the ASCII bytes '0' through '7',
/// then eight zero bytes.
pub open spec fn fixed_iv() -> Seq<u8> {
    seq![48u8, 49u8, 50u8, 51u8, 52u8, 53u8, 54u8, 55u8, 0u8, 0u8, 0u8, 0u8, 0u8, 0u8, 0u8, 0u8]
}

/// What `decrypt` returns on a file's bytes and a verify code's UTF-8 bytes:
/// the plaintext, or the reserved code of the failure.
pub open spec fn decrypt_model(data: Seq<u8>, code: Seq<u8>) -> Result<Seq<u8>, Seq<char>> {
    if data.len() <= 48 {
        Err("901"@)
    } else if data.subrange(16, 48) != double_tag(code) {
        Err("902"@)
    } else {
        match aes_cbc_dec(key_of(code), fixed_iv(), data.subrange(48, data.len() as int)) {
            Some(p) => Ok(p),
            None => Err("903"@),
        }
    }
}

/// The file `encrypt` builds for a plaintext and a verify code: a zeroed
/// header, the verification tag, and the cipher payload.
pub open spec fn encrypt_model(plain: Seq<u8>, code: Seq<u8>) -> Seq<u8> {
    Seq::new(16, |i: int| 0u8) + double_tag(code) + aes_cbc_enc(key_of(code), fixed_iv(), plain)
}

/// Relies on `md5::Md5` through `Digest::digest`: the 16-byte MD5 digest of
/// the input, a function of the input bytes alone.
#[verifier::external_body]
fn md5_digest(data: &[u8]) -> (r: Vec<u8>)
    ensures
        r@ == md5_of(data@),
        r@.len() == 16,
{
    md5::Md5::digest(data).to_vec()
}

/// Relies on `block_modes::Cbc<Aes128, Pkcs7>`: `new_from_slices` accepts any
/// 16-byte key and IV, and `decrypt_vec` rejects input whose length is not a
/// multiple of 16, then strips PKCS#7 padding, rejecting invalid padding.
#[verifier::external_body]
fn aes128_cbc_decrypt(key: &[u8], iv: &[u8], data: &[u8]) -> (r: Option<Vec<u8>>)
    requires
        key@.len() == 16,
        iv@.len() == 16,
    ensures
        (match r {
            Some(p) => aes_cbc_dec(key@, iv@, data@) == Some(p@),
            None => aes_cbc_dec(key@, iv@, data@) is None,
        }),
        data@.len() % 16 != 0 ==> r is None,
{
    let cipher = match block_modes::Cbc::<aes::Aes128, block_modes::block_padding::Pkcs7>::new_from_slices(key, iv) {
        Ok(c) => c,
        Err(_) => return None,
    };
    match cipher.decrypt_vec(data) {
        Ok(p) => Some(p),
        Err(_) => None,
    }
}

/// Relies on `block_modes::Cbc<Aes128, Pkcs7>`: `encrypt_vec` pads the input
/// with PKCS#7 to the next multiple of 16 and encrypts it, and `decrypt_vec`
/// under the same key and IV inverts it exactly.
#[verifier::external_body]
fn aes128_cbc_encrypt(key: &[u8], iv: &[u8], data: &[u8]) -> (r: Vec<u8>)
    requires
        key@.len() == 16,
        iv@.len() == 16,
        data@.len() + 16 <= usize::MAX,
    ensures
        r@ == aes_cbc_enc(key@, iv@, data@),
        r@.len() == (data@.len() / 16 + 1) * 16,
        aes_cbc_dec(key@, iv@, r@) == Some(data@),
{
    let cipher = block_modes::Cbc::<aes::Aes128, block_modes::block_padding::Pkcs7>::new_from_slices(key, iv)
        .expect("a 16-byte key and IV are always accepted");
    cipher.encrypt_vec(data)
}

/// Lowercase hexadecimal digit for `n`.
fn hex_digit_exec(n: u8) -> (r: u8)
    requires
        n < 16,
    ensures
        r == hex_digit(n),
{
    if n < 10 {
        48 + n
    } else {
        87 + n
    }
}

/// Lowercase hexadecimal ASCII rendering of `data`, two digits per byte.
pub fn to_hex_ascii(data: &[u8]) -> (r: Vec<u8>)
    ensures
        r@ == hex_ascii(data@),
{
    let mut r: Vec<u8> = Vec::new();
    let mut i: usize = 0;
    while i < data.len()
        invariant
            i <= data@.len(),
            r@ == hex_ascii(data@).subrange(0, 2 * i as int),
        decreases data@.len() - i,
    {
        let b = data[i];
        r.push(hex_digit_exec(b / 16));
        r.push(hex_digit_exec(b % 16));
        i += 1;
        proof {
            assert(r@ =~= hex_ascii(data@).subrange(0, 2 * i as int));
        }
    }
    proof {
        assert(hex_ascii(data@).subrange(0, 2 * data@.len() as int) =~= hex_ascii(data@));
    }
    r
}

/// Lowercase hexadecimal MD5 digest of `data`: 32 ASCII bytes.
pub fn md5_hex(data: &[u8]) -> (r: Vec<u8>)
    ensures
        r@ == hex_ascii(md5_of(data@)),
        r@.len() == 32,
{
    let d = md5_digest(data);
    to_hex_ascii(d.as_slice())
}

/// Byte-for-byte equality of two slices.
pub fn bytes_eq(a: &[u8], b: &[u8]) -> (r: bool)
    ensures
        r == (a@ == b@),
{
    if a.len() != b.len() {
        return false;
    }
    let mut i: usize = 0;
    while i < a.len()
        invariant
            a@.len() == b@.len(),
            i <= a@.len(),
            forall|j: int| 0 <= j < i ==> a@[j] == b@[j],
        decreases a@.len() - i,
    {
        if a[i] != b[i] {
            return false;
        }
        i += 1;
    }
    proof {
        assert(a@ =~= b@);
    }
    true
}

/// The 16-byte cipher key for a verify code's UTF-8 bytes.
fn derive_key(code: &[u8]) -> (r: Vec<u8>)
    ensures
        r@ == key_of(code@),
{
    let mut key: Vec<u8> = Vec::new();
    let mut i: usize = 0;
    while i < 16
        invariant
            i <= 16,
            key@.len() == i,
            forall|j: int| 0 <= j < i ==> key@[j] == key_of(code@)[j],
        decreases 16 - i,
    {
        if i < code.len() {
            key.push(code[i]);
        } else {
            key.push(0u8);
        }
        i += 1;
    }
    proof {
        assert(key@ =~= key_of(code@));
    }
    key
}

/// The fixed initialization vector as bytes.
fn fixed_iv_exec() -> (r: Vec<u8>)
    ensures
        r@ == fixed_iv(),
{
    let r: Vec<u8> = vec![48u8, 49u8, 50u8, 51u8, 52u8, 53u8, 54u8, 55u8, 0u8, 0u8, 0u8, 0u8, 0u8, 0u8, 0u8, 0u8];
    proof {
        assert(r@ =~= fixed_iv());
    }
    r
}

/// Decrypts one encrypted media file.
///
/// `data` holds the whole file; `verify_code` is the per-file secret supplied
/// out of band. The verification tag at bytes 16..48 must equal the double MD5
/// of the code before any cipher work is attempted. Failures are final and
/// distinguishable: `"901"` for a malformed buffer, `"902"` for a tag
/// mismatch, `"903"` for a cipher or padding failure.
pub fn decrypt(data: &[u8], verify_code: &str) -> (r: Result<Vec<u8>, APIError>)
    ensures
        (match r {
            Ok(p) => decrypt_model(data@, verify_code.spec_bytes()) == Ok::<Seq<u8>, Seq<char>>(p@),
            Err(e) => decrypt_model(data@, verify_code.spec_bytes()) == Err::<Seq<u8>, Seq<char>>(e.code@),
        }),
        data@.len() <= 48 ==> r is Err && r->Err_0.code@ == "901"@,
        data@.len() > 48 && data@.subrange(16, 48) != double_tag(verify_code.spec_bytes())
            ==> r is Err && r->Err_0.code@ == "902"@,
        data@.len() > 48 && data@.subrange(16, 48) == double_tag(verify_code.spec_bytes())
            && (data@.len() - 48) % 16 != 0 ==> r is Err && r->Err_0.code@ == "903"@,
        r is Ok <==> (data@.len() > 48 && data@.subrange(16, 48) == double_tag(
            verify_code.spec_bytes(),
        ) && aes_cbc_dec(
            key_of(verify_code.spec_bytes()),
            fixed_iv(),
            data@.subrange(48, data@.len() as int),
        ) is Some),
{
    if data.len() <= 48 {
        return Err(APIError {
            code: String::from_str("901"),
            message: String::from_str("invalid crypt data"),
        });
    }
    let code_bytes = verify_code.as_bytes();
    let first = md5_hex(code_bytes);
    let tag = md5_hex(first.as_slice());
    let embedded = slice_subrange(data, 16, 48);
    if !bytes_eq(tag.as_slice(), embedded) {
        return Err(APIError {
            code: String::from_str("902"),
            message: String::from_str("crypt data and verify code not match"),
        });
    }
    let key = derive_key(code_bytes);
    let iv = fixed_iv_exec();
    let content = slice_subrange(data, 48, data.len());
    match aes128_cbc_decrypt(key.as_slice(), iv.as_slice(), content) {
        Some(p) => Ok(p),
        None => Err(APIError {
            code: String::from_str("903"),
            message: String::from_str("decrypt fail"),
        }),
    }
}

/// Builds an encrypted media file that `decrypt` accepts: a zeroed 16-byte
/// header, the verification tag for `verify_code`, and the cipher payload.
///
/// The second clause is the round trip: for any plaintext and verify code,
/// `decrypt` on the result with the same code yields the plaintext exactly.
pub fn encrypt(plain: &[u8], verify_code: &str) -> (r: Vec<u8>)
    requires
        plain@.len() + 16 <= usize::MAX,
    ensures
        r@ == encrypt_model(plain@, verify_code.spec_bytes()),
        decrypt_model(r@, verify_code.spec_bytes()) == Ok::<Seq<u8>, Seq<char>>(plain@),
{
    let code_bytes = verify_code.as_bytes();
    let first = md5_hex(code_bytes);
    let tag = md5_hex(first.as_slice());
    let key = derive_key(code_bytes);
    let iv = fixed_iv_exec();
    let cipher = aes128_cbc_encrypt(key.as_slice(), iv.as_slice(), plain);
    let mut out: Vec<u8> = Vec::new();
    let mut i: usize = 0;
    while i < 16
        invariant
            i <= 16,
            out@ == Seq::new(i as nat, |j: int| 0u8),
        decreases 16 - i,
    {
        out.push(0u8);
        proof {
            assert(out@ =~= Seq::new((i + 1) as nat, |j: int| 0u8));
        }
        i += 1;
    }
    out.extend_from_slice(tag.as_slice());
    out.extend_from_slice(cipher.as_slice());
    proof {
        let code = verify_code.spec_bytes();
        assert(out@ =~= encrypt_model(plain@, code));
        assert(out@.len() == 48 + (plain@.len() / 16 + 1) * 16);
        assert(out@.subrange(16, 48) =~= double_tag(code));
        assert(out@.subrange(48, out@.len() as int) =~= cipher@);
    }
    out
}

} // verus!
