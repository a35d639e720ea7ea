//! The crypto adapters of API keys: the generator of secrets (a CSPRNG) and
//! the hasher (SHA-256, in hexadecimal).

use sha2::Digest;
use vstd::prelude::*;

use crate::application::ports::{ApiKeyFactory, ApiKeyHasher};
use crate::domain::openapi::{ApiKeyHash, ApiKeyToken};
use crate::infrastructure::auth::random_alphanumeric;
use crate::text::{is_alnum, is_token_char, lemma_first_bad_all_ok, token_rule};

verus! {

/// The SHA-256 digest of the UTF-8 bytes of a text.
pub uninterp spec fn spec_sha256(text: Seq<char>) -> Seq<u8>;

/// `Sha256::digest` of the text's UTF-8 bytes. The claims: the digest is the
/// named function of the text, and it is 32 bytes long (SHA-256's output).
#[verifier::external_body]
fn sha256_digest(text: &str) -> (r: Vec<u8>)
    ensures
        r@ == spec_sha256(text@),
        r@.len() == 32,
{
    sha2::Sha256::digest(text.as_bytes()).to_vec()
}

/// The lowercase hexadecimal digit of a value below 16.
pub open spec fn hex_digit(n: int) -> char {
    if n < 10 {
        (48 + n) as char
    } else {
        (87 + n) as char
    }
}

/// Bytes written in lowercase hexadecimal, two digits each, high half first.
pub open spec fn hex_seq(bytes: Seq<u8>) -> Seq<char>
    decreases bytes.len(),
{
    if bytes.len() == 0 {
        Seq::empty()
    } else {
        hex_seq(bytes.drop_last()) + seq![
            hex_digit(bytes.last() as int / 16),
            hex_digit(bytes.last() as int % 16),
        ]
    }
}

fn hex_char(n: u8) -> (r: char)
    requires
        n < 16,
    ensures
        r == hex_digit(n as int),
{
    if n < 10 {
        (48 + n) as char
    } else {
        (87 + n) as char
    }
}

/// The bytes in lowercase hexadecimal (as `{:02x}` writes each).
pub fn hex_lower(bytes: &Vec<u8>) -> (r: String)
    ensures
        r@ == hex_seq(bytes@),
{
    let mut out = String::new();
    for i in 0..bytes.len()
        invariant
            out@ == hex_seq(bytes@.take(i as int)),
    {
        let b = bytes[i];
        proof {
            assert(bytes@.take(i + 1).drop_last() =~= bytes@.take(i as int));
            assert(bytes@.take(i + 1).last() == b);
        }
        out.push(hex_char(b / 16));
        out.push(hex_char(b % 16));
        proof {
            assert(out@ =~= hex_seq(bytes@.take(i + 1)));
        }
    }
    proof {
        assert(bytes@.take(bytes@.len() as int) =~= bytes@);
    }
    out
}

/// Secrets of API keys: the prefix `bbg_` (so that a key is recognised) and 40
/// ASCII letters and digits from a CSPRNG (about 238 bits), an alphabet that
/// [`ApiKeyToken`] accepts.
pub struct RandomApiKeyFactory;

impl ApiKeyFactory for RandomApiKeyFactory {
    fn generate(&self) -> (r: ApiKeyToken)
        ensures
            r@.len() == 44,
            r@.take(4) == "bbg_"@,
            forall|i: int| 4 <= i < 44 ==> #[trigger] is_alnum(r@[i]),
    {
        let suffix = random_alphanumeric(40);
        let mut raw = String::new();
        raw.push_str("bbg_");
        raw.push_str(suffix.as_str());
        proof {
            reveal_strlit("bbg_");
            let s = raw@;
            assert(s =~= "bbg_"@ + suffix@);
            assert forall|k: int| 0 <= k < s.len() implies #[trigger] token_rule()(k, s[k]) by {
                if k >= 4 {
                    assert(s[k] == suffix@[k - 4]);
                    assert(is_alnum(suffix@[k - 4]));
                }
            }
            lemma_first_bad_all_ok(s, token_rule(), 0);
            assert(s.take(4) =~= "bbg_"@);
        }
        ApiKeyToken::parse(raw.as_str()).unwrap()
    }
}

/// Hashing of API keys with SHA-256, in lowercase hexadecimal. A fast
/// deterministic hash: the key has high entropy, and the lookup by hash runs on
/// every request.
pub struct Sha256ApiKeyHasher;

impl ApiKeyHasher for Sha256ApiKeyHasher {
    fn hash(&self, token: &ApiKeyToken) -> (r: ApiKeyHash)
        ensures
            r@ == hex_seq(spec_sha256(token@)),
            r@.len() == 64,
    {
        let digest = sha256_digest(token.as_str());
        let hex = hex_lower(&digest);
        proof {
            lemma_hex_len(digest@);
        }
        ApiKeyHash::from_storage(hex)
    }
}

/// Two digits a byte.
pub proof fn lemma_hex_len(bytes: Seq<u8>)
    ensures
        hex_seq(bytes).len() == 2 * bytes.len(),
    decreases bytes.len(),
{
    if bytes.len() > 0 {
        lemma_hex_len(bytes.drop_last());
    }
}

} // verus!
