//! Token hashing: HMAC-SHA256 tags and their lowercase hex encoding.

use vstd::prelude::*;

use crate::text::push_char;

verus! {

/// The lowercase hex digit for a value below sixteen.
pub open spec fn hex_digit(n: int) -> char
    recommends
        0 <= n < 16,
{
    if n < 10 {
        ((n + 48) as u8) as char
    } else {
        ((n - 10 + 97) as u8) as char
    }
}

/// Lowercase hex, two digits per byte, high nibble first.
pub open spec fn lower_hex(bytes: Seq<u8>) -> Seq<char>
    decreases bytes.len(),
{
    if bytes.len() == 0 {
        Seq::empty()
    } else {
        let b = bytes.last();
        lower_hex(bytes.drop_last()) + seq![hex_digit(b as int / 16), hex_digit(b as int % 16)]
    }
}

/// `true` for the sixteen characters `0-9` and `a-f`.
pub open spec fn is_lower_hex_char(c: char) -> bool {
    ('0' <= c && c <= '9') || ('a' <= c && c <= 'f')
}

fn hex_digit_char(n: u8) -> (c: char)
    requires
        n < 16,
    ensures
        c == hex_digit(n as int),
{
    if n < 10 {
        ((n + 48) as u8) as char
    } else {
        ((n - 10 + 97) as u8) as char
    }
}

/// Encodes bytes as lowercase hex, the form `{:x}` gives a digest.
pub fn to_lower_hex(bytes: &[u8]) -> (hex: String)
    ensures
        hex@ == lower_hex(bytes@),
{
    let mut out = String::new();
    let mut i: usize = 0;
    while i < bytes.len()
        invariant
            i <= bytes@.len(),
            out@ == lower_hex(bytes@.take(i as int)),
        decreases bytes@.len() - i,
    {
        let b = bytes[i];
        push_char(&mut out, hex_digit_char(b / 16));
        push_char(&mut out, hex_digit_char(b % 16));
        assert(bytes@.take(i + 1).drop_last() =~= bytes@.take(i as int));
        i = i + 1;
    }
    assert(bytes@.take(bytes@.len() as int) =~= bytes@);
    out
}


/// Length of the hex text: two digits per byte.
pub proof fn lemma_lower_hex_len(bytes: Seq<u8>)
    ensures
        lower_hex(bytes).len() == 2 * bytes.len(),
    decreases bytes.len(),
{
    if bytes.len() > 0 {
        lemma_lower_hex_len(bytes.drop_last());
    }
}

/// Digit `2i` is the high nibble of byte `i`, digit `2i + 1` its low nibble.
pub proof fn lemma_lower_hex_index(bytes: Seq<u8>, i: int)
    requires
        0 <= i < bytes.len(),
    ensures
        lower_hex(bytes).len() == 2 * bytes.len(),
        lower_hex(bytes)[2 * i] == hex_digit(bytes[i] as int / 16),
        lower_hex(bytes)[2 * i + 1] == hex_digit(bytes[i] as int % 16),
    decreases bytes.len(),
{
    lemma_lower_hex_len(bytes);
    let init = bytes.drop_last();
    lemma_lower_hex_len(init);
    if i < bytes.len() - 1 {
        lemma_lower_hex_index(init, i);
    }
}

proof fn lemma_hex_digit_facts(n: int)
    requires
        0 <= n < 16,
    ensures
        is_lower_hex_char(hex_digit(n)),
        forall|m: int| 0 <= m < 16 && hex_digit(m) == hex_digit(n) ==> m == n,
{
    assert forall|m: int| 0 <= m < 16 && hex_digit(m) == hex_digit(n) implies m == n by {
        assert(hex_digit(m) as u32 == hex_digit(n) as u32);
    }
}

/// Every character of the hex text is one of `0-9a-f`.
pub proof fn lemma_lower_hex_chars(bytes: Seq<u8>)
    ensures
        forall|k: int| 0 <= k < lower_hex(bytes).len() ==> is_lower_hex_char(#[trigger] lower_hex(bytes)[k]),
    decreases bytes.len(),
{
    if bytes.len() > 0 {
        let b = bytes.last();
        let prefix = lower_hex(bytes.drop_last());
        let tail = seq![hex_digit(b as int / 16), hex_digit(b as int % 16)];
        lemma_lower_hex_chars(bytes.drop_last());
        lemma_hex_digit_facts(b as int / 16);
        lemma_hex_digit_facts(b as int % 16);
        assert forall|k: int| 0 <= k < lower_hex(bytes).len() implies is_lower_hex_char(
            #[trigger] lower_hex(bytes)[k],
        ) by {
            if k < prefix.len() {
                assert(lower_hex(bytes)[k] == prefix[k]);
            } else {
                assert(lower_hex(bytes)[k] == tail[k - prefix.len()]);
            }
        }
    }
}

/// Hex encoding loses nothing: equal texts come only from equal bytes.
pub proof fn lemma_lower_hex_injective(a: Seq<u8>, b: Seq<u8>)
    requires
        lower_hex(a) == lower_hex(b),
    ensures
        a == b,
{
    lemma_lower_hex_len(a);
    lemma_lower_hex_len(b);
    assert forall|i: int| 0 <= i < a.len() implies a[i] == b[i] by {
        lemma_lower_hex_index(a, i);
        lemma_lower_hex_index(b, i);
        lemma_hex_digit_facts(a[i] as int / 16);
        lemma_hex_digit_facts(a[i] as int % 16);
        lemma_hex_digit_facts(b[i] as int / 16);
        lemma_hex_digit_facts(b[i] as int % 16);
    }
    assert(a =~= b);
}


/// The HMAC-SHA256 tag of `message` under `key`.
pub uninterp spec fn hmac_sha256(key: Seq<u8>, message: Seq<u8>) -> Seq<u8>;

/// The SHA-256 digest of `message`.
pub uninterp spec fn sha256(message: Seq<u8>) -> Seq<u8>;

/// Calls `hmac::Hmac::<sha2::Sha256>` (`new_from_slice`, `update`,
/// `finalize`). Claimed: the tag is the named HMAC-SHA256 of the key and
/// the message, and it is 32 bytes long (SHA-256's output size). HMAC takes
/// keys of any length, so `new_from_slice` never fails.
#[verifier::external_body]
fn hmac_sha256_tag(key: &[u8], message: &[u8]) -> (tag: Vec<u8>)
    ensures
        tag@ == hmac_sha256(key@, message@),
        tag@.len() == 32,
{
    let mut mac = <hmac::Hmac<sha2::Sha256> as hmac::Mac>::new_from_slice(key)
        .expect("HMAC takes keys of any length");
    hmac::Mac::update(&mut mac, message);
    hmac::Mac::finalize(mac).into_bytes().to_vec()
}

/// Calls `sha2::Sha256::digest`. Claimed: the digest is the named SHA-256 of
/// the message and is 32 bytes long.
#[verifier::external_body]
fn sha256_digest(message: &[u8]) -> (digest: Vec<u8>)
    ensures
        digest@ == sha256(message@),
        digest@.len() == 32,
{
    <sha2::Sha256 as sha2::Digest>::digest(message).to_vec()
}

/// What `hash_agent_token` returns: the lowercase hex of the HMAC-SHA256 tag
/// of the token's UTF-8 bytes under the secret's UTF-8 bytes.
pub open spec fn agent_token_hash(secret: Seq<char>, token: Seq<char>) -> Seq<char> {
    lower_hex(hmac_sha256(vstd::utf8::encode_utf8(secret), vstd::utf8::encode_utf8(token)))
}

/// Hashes an agent token with HMAC-SHA256 under the application secret and
/// returns the tag as 64 lowercase hex characters.
pub fn hash_agent_token(secret: &str, token: &str) -> (hash: String)
    ensures
        hash@ == agent_token_hash(secret@, token@),
        hash@.len() == 64,
        forall|k: int| 0 <= k < hash@.len() ==> is_lower_hex_char(#[trigger] hash@[k]),
{
    let tag = hmac_sha256_tag(secret.as_bytes(), token.as_bytes());
    let hash = to_lower_hex(tag.as_slice());
    proof {
        lemma_lower_hex_len(tag@);
        lemma_lower_hex_chars(tag@);
    }
    hash
}

/// What `hash_token` returns: the lowercase hex SHA-256 digest of the token's
/// UTF-8 bytes.
pub open spec fn plain_token_hash(token: Seq<char>) -> Seq<char> {
    lower_hex(sha256(vstd::utf8::encode_utf8(token)))
}

/// The unkeyed SHA-256 hash of a token, in lowercase hex. Stored token
/// hashes are keyed (`hash_agent_token`); this one is not what servers are
/// looked up by.
pub fn hash_token(token: &str) -> (hash: String)
    ensures
        hash@ == plain_token_hash(token@),
        hash@.len() == 64,
        forall|k: int| 0 <= k < hash@.len() ==> is_lower_hex_char(#[trigger] hash@[k]),
{
    let digest = sha256_digest(token.as_bytes());
    let hash = to_lower_hex(digest.as_slice());
    proof {
        lemma_lower_hex_len(digest@);
        lemma_lower_hex_chars(digest@);
    }
    hash
}

/// The key used when `TOKEN_HASH_SECRET` is unset in a debug build.
pub open spec fn default_token_secret_text() -> Seq<char> {
    "vk-default-dev-secret-change-in-production"@
}

/// The development fallback key.
pub fn default_token_secret() -> (secret: String)
    ensures
        secret@ == default_token_secret_text(),
{
    String::from_str("vk-default-dev-secret-change-in-production")
}

/// Chooses the HMAC key from the configured value of `TOKEN_HASH_SECRET`.
/// A non-empty configured value is used as is; otherwise a debug build falls
/// back to the development key and a release build has none (`None`: the
/// caller must refuse to run).
pub fn resolve_token_secret(configured: Option<&str>, release_build: bool) -> (secret: Option<String>)
    ensures
        match configured {
            Some(c) if c@.len() > 0 => secret is Some && secret->0@ == c@,
            _ => if release_build {
                secret is None
            } else {
                secret is Some && secret->0@ == default_token_secret_text()
            },
        },
{
    match configured {
        Some(c) => {
            if !c.is_empty() {
                return Some(c.to_owned());
            }
        },
        None => {},
    }
    if release_build {
        None
    } else {
        Some(default_token_secret())
    }
}

} // verus!
