//! Request signing for private REST calls: the form body is flattened to
//! `key=value` pairs joined by `&` in the exact order supplied, hashed
//! together with the nonce, and authenticated with the base64-decoded secret
//! under a keyed 512-bit hash. The hash and codec primitives come from
//! outside crates and are named, not restated; everything around them is
//! verified.

use vstd::prelude::*;

use hmac::Mac;
use sha2::Digest;

use crate::error::KrakenError;
use crate::json::spec_digits;
use crate::json::u64_to_string;

verus! {

/// The SHA-256 digest of a string's UTF-8 bytes.
pub uninterp spec fn sha256_of(s: Seq<char>) -> Seq<u8>;

/// The HMAC-SHA-512 digest, under `key`, of the UTF-8 bytes of `path`
/// followed by `tail`.
pub uninterp spec fn hmac_sha512_of(key: Seq<u8>, path: Seq<char>, tail: Seq<u8>) -> Seq<u8>;

/// The standard-alphabet base64 encoding of a byte string.
pub uninterp spec fn b64_encode_of(data: Seq<u8>) -> Seq<char>;

/// What a string decodes to under the standard base64 alphabet, when it does.
pub uninterp spec fn b64_decode_of(s: Seq<char>) -> Option<Seq<u8>>;

/// Relies on sha2's `Sha256`: a 32-byte digest of the input's UTF-8 bytes,
/// a function of those bytes alone.
#[verifier::external_body]
fn sha256_utf8(s: &str) -> (r: Vec<u8>)
    ensures
        r@ == sha256_of(s@),
        r@.len() == 32,
{
    sha2::Sha256::digest(s.as_bytes()).to_vec()
}

/// Relies on hmac's `Hmac<Sha512>`: a 64-byte keyed digest of the UTF-8
/// bytes of `path` followed by `tail`, a function of key and message alone.
/// `new_from_slice` accepts keys of every length for this type, so the
/// unwrap cannot fail.
#[verifier::external_body]
fn hmac_sha512_sign(key: &Vec<u8>, path: &str, tail: &Vec<u8>) -> (r: Vec<u8>)
    ensures
        r@ == hmac_sha512_of(key@, path@, tail@),
        r@.len() == 64,
{
    let mut mac = hmac::Hmac::<sha2::Sha512>::new_from_slice(key.as_slice()).unwrap();
    mac.update(path.as_bytes());
    mac.update(tail.as_slice());
    mac.finalize().into_bytes().to_vec()
}

/// Relies on base64 (0.13) `encode`: the standard-alphabet, padded encoding,
/// a function of the bytes alone.
#[verifier::external_body]
fn base64_encode(data: &Vec<u8>) -> (r: String)
    ensures
        r@ == b64_encode_of(data@),
{
    base64::encode(data.as_slice())
}

/// Relies on base64 (0.13) `decode`: which strings decode under the standard
/// alphabet, and to what bytes, is a function of the string alone.
#[verifier::external_body]
fn base64_decode(s: &str) -> (r: Option<Vec<u8>>)
    ensures
        match r {
            Some(b) => b64_decode_of(s@) == Some(b@),
            None => b64_decode_of(s@) is None,
        },
{
    match base64::decode(s) {
        Ok(b) => Some(b),
        Err(_) => None,
    }
}

/// The field-wise view of an ordered form-field list.
pub open spec fn fields_view(fields: Seq<(String, String)>) -> Seq<(Seq<char>, Seq<char>)> {
    Seq::new(fields.len(), |i: int| (fields[i].0@, fields[i].1@))
}

/// `key=value` pairs joined by `&`, in the exact order supplied.
pub open spec fn spec_post_data(fields: Seq<(Seq<char>, Seq<char>)>) -> Seq<char>
    decreases fields.len(),
{
    if fields.len() == 0 {
        Seq::empty()
    } else if fields.len() == 1 {
        fields[0].0 + seq!['='] + fields[0].1
    } else {
        fields[0].0 + seq!['='] + fields[0].1 + seq!['&'] + spec_post_data(fields.drop_first())
    }
}

/// The signature of a private request: the keyed 512-bit digest, under the
/// base64-decoded secret, of the path followed by the 256-bit digest of
/// `nonce || post-data`, base64-encoded. `None` when the secret is not
/// valid base64.
pub open spec fn spec_signature(
    secret: Seq<char>,
    path: Seq<char>,
    fields: Seq<(Seq<char>, Seq<char>)>,
    nonce: u64,
) -> Option<Seq<char>> {
    match b64_decode_of(secret) {
        None => None,
        Some(key) => Some(
            b64_encode_of(
                hmac_sha512_of(
                    key,
                    path,
                    sha256_of(spec_digits(nonce as nat) + spec_post_data(fields)),
                ),
            ),
        ),
    }
}

fn encode_form_from(fields: &Vec<(String, String)>, from: usize, out: &mut String)
    requires
        from <= fields@.len(),
    ensures
        final(out)@ == old(out)@ + spec_post_data(fields_view(fields@).skip(from as int)),
    decreases fields@.len() - from,
{
    let ghost fv = fields_view(fields@);
    if from < fields.len() {
        out.append(fields[from].0.as_str());
        out.push('=');
        out.append(fields[from].1.as_str());
        if from + 1 < fields.len() {
            out.push('&');
            encode_form_from(fields, from + 1, out);
            proof {
                assert(fv.skip(from as int)[0] == fv[from as int]);
                assert(fv.skip(from as int).drop_first() =~= fv.skip(from + 1));
                assert(out@ =~= old(out)@ + spec_post_data(fv.skip(from as int)));
            }
        } else {
            proof {
                assert(fv.skip(from as int).len() == 1);
                assert(fv.skip(from as int)[0] == fv[from as int]);
                assert(out@ =~= old(out)@ + spec_post_data(fv.skip(from as int)));
            }
        }
    } else {
        assert(fv.skip(from as int).len() == 0);
        assert(out@ =~= old(out)@ + spec_post_data(fv.skip(from as int)));
    }
}

/// The form body as it is sent: `key=value` pairs joined by `&`, in the
/// exact order supplied.
pub fn encode_form(fields: &Vec<(String, String)>) -> (out: String)
    ensures
        out@ == spec_post_data(fields_view(fields@)),
{
    let mut out = String::new();
    encode_form_from(fields, 0, &mut out);
    proof {
        assert(fields_view(fields@).skip(0) =~= fields_view(fields@));
        assert(out@ =~= spec_post_data(fields_view(fields@)));
    }
    out
}

/// Compute the signature for a private request. The field list must carry
/// the nonce exactly as the peer will reconstruct it; the caller puts it
/// first. Fails exactly when the secret is not valid base64.
pub fn sign(secret: &str, path: &str, form_data: &Vec<(String, String)>, nonce: u64) -> (r: Result<
    String,
    KrakenError,
>)
    ensures
        match r {
            Ok(sig) => spec_signature(secret@, path@, fields_view(form_data@), nonce) == Some(
                sig@,
            ),
            Err(e) => {
                &&& spec_signature(secret@, path@, fields_view(form_data@), nonce) is None
                &&& e matches KrakenError::InvalidUsage(m) && m@
                    == "Could not decode API secret from base64"@
            },
        },
{
    match base64_decode(secret) {
        None => Err(
            KrakenError::InvalidUsage(
                String::from_str("Could not decode API secret from base64"),
            ),
        ),
        Some(key) => {
            let mut payload = u64_to_string(nonce);
            let post = encode_form(form_data);
            payload.append(post.as_str());
            let digest = sha256_utf8(payload.as_str());
            let mac = hmac_sha512_sign(&key, path, &digest);
            Ok(base64_encode(&mac))
        },
    }
}

/// Signing is deterministic: signing the same secret, path, ordered field
/// list and nonce twice yields the same signature.
pub proof fn lemma_sign_deterministic(
    secret1: Seq<char>,
    path1: Seq<char>,
    fields1: Seq<(Seq<char>, Seq<char>)>,
    nonce1: u64,
    secret2: Seq<char>,
    path2: Seq<char>,
    fields2: Seq<(Seq<char>, Seq<char>)>,
    nonce2: u64,
)
    requires
        secret1 == secret2,
        path1 == path2,
        fields1 == fields2,
        nonce1 == nonce2,
    ensures
        spec_signature(secret1, path1, fields1, nonce1) == spec_signature(
            secret2,
            path2,
            fields2,
            nonce2,
        ),
{
}

} // verus!
