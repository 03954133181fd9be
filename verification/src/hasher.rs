//! Cache keys: the SHA-256 of the upper-cased method, the URL and the body,
//! separated by NUL bytes, written as 64 lower-case hex digits.

use vstd::prelude::*;
use sha2::Digest;
use vstd::string::*;

verus! {

/// What `Sha256::digest` of the `sha2` crate returns for the given bytes.
pub uninterp spec fn sha256(data: Seq<u8>) -> Seq<u8>;

/// ASCII upper-casing of one byte: `a`..`z` become `A`..`Z`, all else stays.
pub open spec fn ascii_upper_byte(b: u8) -> u8 {
    if 97 <= b && b <= 122 {
        (b - 32) as u8
    } else {
        b
    }
}

/// ASCII upper-casing of a byte string, byte by byte.
pub open spec fn ascii_upper(s: Seq<u8>) -> Seq<u8> {
    Seq::new(s.len(), |i: int| ascii_upper_byte(s[i]))
}

/// The bytes that are hashed for a request: the upper-cased method, a NUL
/// byte, the URL, a NUL byte, and the body.
pub open spec fn key_preimage(url: Seq<u8>, method: Seq<u8>, body: Seq<u8>) -> Seq<u8> {
    ascii_upper(method) + seq![0u8] + url + seq![0u8] + body
}

/// The lower-case hex digit of a number below 16.
pub open spec fn hex_digit(n: int) -> char {
    if n < 10 {
        (48 + n) as char
    } else {
        (87 + n) as char
    }
}

/// Lower-case hex encoding: two digits per byte, high nibble first.
pub open spec fn hex_lower(bytes: Seq<u8>) -> Seq<char> {
    Seq::new(
        2 * bytes.len(),
        |i: int|
            if i % 2 == 0 {
                hex_digit(bytes[i / 2] as int / 16)
            } else {
                hex_digit(bytes[i / 2] as int % 16)
            },
    )
}

/// A character among `0`..`9` and `a`..`f`.
pub open spec fn is_lower_hex_char(c: char) -> bool {
    ('0' <= c && c <= '9') || ('a' <= c && c <= 'f')
}

/// The cache key of a request, given the UTF-8 bytes of its URL and method.
pub open spec fn cache_key(url: Seq<u8>, method: Seq<u8>, body: Seq<u8>) -> Seq<char> {
    hex_lower(sha256(key_preimage(url, method, body)))
}

/// Calls `sha2::Sha256::digest` on `data`. Its result is the SHA-256 digest,
/// named `sha256` here; the digest of SHA-256 is 32 bytes long.
#[verifier::external_body]
fn sha256_digest(data: &[u8]) -> (digest: Vec<u8>)
    ensures
        digest@ == sha256(data@),
        digest@.len() == 32,
{
    sha2::Sha256::digest(data).to_vec()
}

/// Calls `hex::encode`, which writes each byte as two lower-case hex digits,
/// high nibble first (the table `0123456789abcdef` indexed by `b >> 4` and
/// `b & 0x0f`).
#[verifier::external_body]
fn hex_encode(bytes: &[u8]) -> (text: String)
    ensures
        text@ == hex_lower(bytes@),
{
    hex::encode(bytes)
}

/// Appends the ASCII upper-cased copy of `src` to `out`.
pub(crate) fn push_ascii_upper(out: &mut Vec<u8>, src: &[u8])
    ensures
        final(out)@ == old(out)@ + ascii_upper(src@),
{
    let ghost start = out@;
    let n = src.len();
    let mut i: usize = 0;
    while i < n
        invariant
            n == src@.len(),
            0 <= i <= n,
            out@ == start + ascii_upper(src@.subrange(0, i as int)),
        decreases n - i,
    {
        let b = src[i];
        let u: u8 = if 97 <= b && b <= 122 { b - 32 } else { b };
        out.push(u);
        i = i + 1;
        assert(ascii_upper(src@.subrange(0, i as int)) =~= ascii_upper(
            src@.subrange(0, (i - 1) as int),
        ).push(u));
    }
    assert(src@.subrange(0, n as int) =~= src@);
}

/// Appends a copy of `src` to `out`.
fn push_bytes(out: &mut Vec<u8>, src: &[u8])
    ensures
        final(out)@ == old(out)@ + src@,
{
    let ghost start = out@;
    let n = src.len();
    let mut i: usize = 0;
    while i < n
        invariant
            n == src@.len(),
            0 <= i <= n,
            out@ == start + src@.subrange(0, i as int),
        decreases n - i,
    {
        out.push(src[i]);
        i = i + 1;
        assert(src@.subrange(0, i as int) =~= src@.subrange(0, (i - 1) as int).push(src@[i - 1]));
    }
    assert(src@.subrange(0, n as int) =~= src@);
}

/// The bytes that are hashed for a request (see `key_preimage`).
pub fn build_key_preimage(url: &[u8], method: &[u8], body: &[u8]) -> (data: Vec<u8>)
    ensures
        data@ == key_preimage(url@, method@, body@),
{
    let mut data: Vec<u8> = Vec::new();
    push_ascii_upper(&mut data, method);
    data.push(0u8);
    push_bytes(&mut data, url);
    data.push(0u8);
    push_bytes(&mut data, body);
    assert(data@ =~= key_preimage(url@, method@, body@));
    data
}

/// Computes the cache key of a request: the SHA-256 of the upper-cased
/// method, a NUL byte, the URL, a NUL byte and the body, as 64 lower-case hex
/// digits. The same request always gets the same key, whatever the case of
/// its method.
pub fn compute_cache_key(url: &str, method: &str, body: &[u8]) -> (key: String)
    ensures
        key@ == cache_key(url.spec_bytes(), method.spec_bytes(), body@),
        key@.len() == 64,
        forall|i: int| 0 <= i < key@.len() ==> is_lower_hex_char(#[trigger] key@[i]),
{
    let data = build_key_preimage(url.as_bytes(), method.as_bytes(), body);
    let digest = sha256_digest(data.as_slice());
    let key = hex_encode(digest.as_slice());
    proof {
        lemma_hex_lower_chars(digest@);
    }
    key
}

/// Hex text has two characters per byte, each a lower-case hex digit.
pub proof fn lemma_hex_lower_chars(bytes: Seq<u8>)
    ensures
        hex_lower(bytes).len() == 2 * bytes.len(),
        forall|i: int|
            0 <= i < hex_lower(bytes).len() ==> is_lower_hex_char(#[trigger] hex_lower(bytes)[i]),
{
    assert forall|i: int| 0 <= i < hex_lower(bytes).len() implies is_lower_hex_char(
        #[trigger] hex_lower(bytes)[i],
    ) by {
        let b = bytes[i / 2] as int;
        assert(0 <= b / 16 < 16);
        assert(0 <= b % 16 < 16);
    }
}

/// The key does not depend on the case of the method: two methods that are
/// equal once ASCII upper-cased give the same key for the same URL and body.
pub proof fn lemma_cache_key_ignores_method_case(
    url: Seq<u8>,
    method_a: Seq<u8>,
    method_b: Seq<u8>,
    body: Seq<u8>,
)
    requires
        ascii_upper(method_a) == ascii_upper(method_b),
    ensures
        cache_key(url, method_a, body) == cache_key(url, method_b, body),
{
    assert(key_preimage(url, method_a, body) =~= key_preimage(url, method_b, body));
}

/// No byte of `s` is NUL.
pub open spec fn has_no_nul(s: Seq<u8>) -> bool {
    forall|i: int| 0 <= i < s.len() ==> s[i] != 0u8
}

/// The NUL separators keep the parts apart: when neither method nor URL holds
/// a NUL byte, requests whose (upper-cased) method, URL or body differ are
/// hashed from different bytes.
pub proof fn lemma_key_preimage_separates_parts(
    url_a: Seq<u8>,
    method_a: Seq<u8>,
    body_a: Seq<u8>,
    url_b: Seq<u8>,
    method_b: Seq<u8>,
    body_b: Seq<u8>,
)
    requires
        has_no_nul(url_a),
        has_no_nul(url_b),
        has_no_nul(method_a),
        has_no_nul(method_b),
        key_preimage(url_a, method_a, body_a) == key_preimage(url_b, method_b, body_b),
    ensures
        ascii_upper(method_a) == ascii_upper(method_b),
        url_a == url_b,
        body_a == body_b,
{
    let p = key_preimage(url_a, method_a, body_a);
    let ma = ascii_upper(method_a);
    let mb = ascii_upper(method_b);
    assert(has_no_nul(ma));
    assert(has_no_nul(mb));
    // the first NUL byte of the preimage closes the method
    if ma.len() < mb.len() {
        assert(p[ma.len() as int] == 0u8);
        assert(p[ma.len() as int] == mb[ma.len() as int]);
        assert(false);
    }
    if mb.len() < ma.len() {
        assert(p[mb.len() as int] == 0u8);
        assert(p[mb.len() as int] == ma[mb.len() as int]);
        assert(false);
    }
    assert(ma =~= p.subrange(0, ma.len() as int));
    assert(mb =~= p.subrange(0, mb.len() as int));
    let off: int = ma.len() as int + 1;
    // the next NUL byte closes the URL
    if url_a.len() < url_b.len() {
        assert(p[off + url_a.len()] == 0u8);
        assert(p[off + url_a.len()] == url_b[url_a.len() as int]);
        assert(false);
    }
    if url_b.len() < url_a.len() {
        assert(p[off + url_b.len()] == 0u8);
        assert(p[off + url_b.len()] == url_a[url_b.len() as int]);
        assert(false);
    }
    assert(url_a =~= p.subrange(off, off + url_a.len()));
    assert(url_b =~= p.subrange(off, off + url_b.len()));
    let boff: int = off + url_a.len() as int + 1;
    assert(body_a =~= p.subrange(boff, p.len() as int));
    assert(body_b =~= p.subrange(boff, p.len() as int));
}

} // verus!
