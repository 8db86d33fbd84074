//! Cache-backend support: the options the backends are built from, the
//! hashed storage key shared by the object-storage style backends, and the
//! basic-authentication header of the WebDAV client.
//!
//! The backends' I/O lives in the application; what is verified here is the
//! key material and credentials they are given.

use base64::prelude::{Engine, BASE64_STANDARD};
use sha2::Digest;
use vstd::prelude::*;
use vstd::string::StrSliceExecFns;
use vstd::string::StringExecFns;
use vstd::string::StringSliceAdditionalSpecFns;

verus! {

/// What an object-storage cache backend is built from.
pub struct S3CacheProviderOptions {
    pub region: String,
    pub access_key: String,
    pub secret_key: String,
    pub endpoint_url: String,
    pub bucket_name: String,
}

/// What a WebDAV cache backend is built from.
pub struct WebDavCacheProviderOptions {
    pub user_id: String,
    pub user_password: String,
    pub webdav_url: String,
}

/// What a SQL cache backend is built from, beside its connection pool.
pub struct SqlCacheProviderOptions {
    pub connection_string: String,
}

/// The SHA-256 digest of a byte sequence.
pub uninterp spec fn sha256_of(data: Seq<u8>) -> Seq<u8>;

/// Relies on sha2's `Sha256`, via the `Digest::digest` convenience method:
/// the digest is a function of the input bytes alone, and is 32 bytes long.
#[verifier::external_body]
fn sha256_digest(data: &[u8]) -> (r: Vec<u8>)
    ensures
        r@ == sha256_of(data@),
        r@.len() == 32,
{
    sha2::Sha256::digest(data).as_slice().to_vec()
}

/// The value of one lower-case hexadecimal digit.
pub open spec fn hex_digit(n: u8) -> char
    recommends
        n < 16,
{
    if n < 10 {
        ((48 + n) as u8) as char
    } else {
        ((87 + n) as u8) as char
    }
}

/// The lower-case hexadecimal rendering of a byte sequence, two digits per
/// byte, high nibble first.
pub open spec fn hex_of(data: Seq<u8>) -> Seq<char>
    decreases data.len(),
{
    if data.len() == 0 {
        Seq::empty()
    } else {
        hex_of(data.drop_last()) + seq![
            hex_digit(data.last() / 16),
            hex_digit(data.last() % 16),
        ]
    }
}

fn hex_digit_str(n: u8) -> (r: &'static str)
    requires
        n < 16,
    ensures
        r@ =~= seq![hex_digit(n)],
{
    proof {
        reveal_strlit("0123456789abcdef");
    }
    let digits = "0123456789abcdef";
    let r = digits.substring_ascii(n as usize, n as usize + 1);
    proof {
        assert(r@ =~= seq![hex_digit(n)]) by {
            assert(r@.len() == 1);
            assert(r@[0] == digits@[n as int]);
        }
    }
    r
}

/// The storage key under which a raw title is cached by the hashed-key
/// backends: the lower-case hex form of the title's SHA-256 digest, so the
/// key is URL- and filesystem-safe and of fixed length.
pub fn hashed_cache_key(key: &str) -> (r: String)
    ensures
        r@ == hex_of(sha256_of(key.spec_bytes())),
        r@.len() == 64,
{
    let digest = sha256_digest(key.as_bytes());
    let mut out = String::new();
    let n = digest.len();
    for i in 0..n
        invariant
            n == digest@.len(),
            n == 32,
            digest@ == sha256_of(key.spec_bytes()),
            out@ =~= hex_of(digest@.take(i as int)),
            out@.len() == 2 * i,
    {
        let b = digest[i];
        out.append(hex_digit_str(b / 16));
        out.append(hex_digit_str(b % 16));
        proof {
            assert(digest@.take(i + 1).drop_last() =~= digest@.take(i as int));
            assert(digest@.take(i + 1).last() == digest@[i as int]);
            assert(out@ =~= hex_of(digest@.take(i + 1)));
        }
    }
    proof {
        assert(digest@.take(n as int) =~= digest@);
    }
    out
}

/// The standard base64 encoding (with padding) of a byte sequence.
pub uninterp spec fn base64_of(data: Seq<u8>) -> Seq<char>;

/// Relies on base64's `BASE64_STANDARD` engine: standard-alphabet, padded
/// encoding, a function of the input bytes alone.  The encoded size always
/// fits, since a string slice holds at most `isize::MAX` bytes.
#[verifier::external_body]
fn base64_encode(data: &str) -> (r: String)
    ensures
        r@ == base64_of(data.spec_bytes()),
{
    BASE64_STANDARD.encode(data.as_bytes())
}

/// The `Authorization` header value of the WebDAV client: HTTP basic
/// authentication over `user:password`.
pub fn basic_auth_header(user_id: &str, user_password: &str) -> (r: String)
    ensures
        r@ == "Basic "@ + base64_of(vstd::utf8::encode_utf8(
            user_id@ + ":"@ + user_password@)),
{
    let mut credentials = user_id.to_owned();
    credentials.append(":");
    credentials.append(user_password);
    proof {
        assert(credentials@ =~= user_id@ + ":"@ + user_password@);
    }
    let encoded = base64_encode(credentials.as_str());
    let mut r = String::from_str("Basic ");
    r.append(encoded.as_str());
    r
}

} // verus!
