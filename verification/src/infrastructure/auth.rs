//! The crypto adapters of auth: the password hasher (argon2id) and the
//! generator of session tokens (a CSPRNG).

use rand::Rng;
use argon2::password_hash::PasswordHasher as _;
use argon2::password_hash::PasswordVerifier as _;
use vstd::prelude::*;

use crate::application::ports::{PasswordHasher, SessionTokenFactory};
use crate::domain::auth::{Password, PasswordHash, SessionToken};
use crate::text::{is_alnum, is_token_char, lemma_first_bad_all_ok, token_rule};

verus! {

/// The PHC string that argon2id, with the crate's default parameters, makes of
/// a password and the salt with these bytes.
pub uninterp spec fn spec_argon2_phc(password: Seq<char>, salt: Seq<u8>) -> Seq<char>;

/// Whether argon2 accepts a password against a PHC string.
pub uninterp spec fn spec_argon2_verify(password: Seq<char>, phc: Seq<char>) -> bool;

/// `rand::random::<[u8; 16]>()`: sixteen random bytes for a salt. Nothing is
/// claimed of them.
#[verifier::external_body]
fn random_salt() -> (r: [u8; 16]) {
    rand::random()
}

/// `SaltString::encode_b64` of the salt bytes, then `Argon2::default()
/// .hash_password` of the password's UTF-8 bytes, as a PHC string. The claims:
/// the string is the named function of the password and the salt, and
/// `verify_password` accepts the same password against it (it recomputes the
/// hash with the salt and the parameters written in the string). Neither call
/// fails here: sixteen bytes are a valid salt, and a password of at most 200
/// characters is far below argon2's length limit.
#[verifier::external_body]
fn argon2_phc(password: &str, salt: [u8; 16]) -> (r: String)
    requires
        password@.len() <= 200,
    ensures
        r@ == spec_argon2_phc(password@, salt@),
        spec_argon2_verify(password@, r@),
{
    let salt = argon2::password_hash::SaltString::encode_b64(&salt).expect("16 bytes are a valid salt");
    argon2::Argon2::default()
        .hash_password(password.as_bytes(), &salt)
        .expect("argon2 hashes a valid password")
        .to_string()
}

/// `PasswordHash::new` of the PHC string, then `Argon2::default()
/// .verify_password`; a string that does not parse is no match. The claim: the
/// answer is the named function of the password and the string.
#[verifier::external_body]
fn argon2_verify(password: &str, phc: &str) -> (r: bool)
    ensures
        r == spec_argon2_verify(password@, phc@),
{
    match argon2::password_hash::PasswordHash::new(phc) {
        Ok(parsed) => argon2::Argon2::default().verify_password(password.as_bytes(), &parsed).is_ok(),
        Err(_) => false,
    }
}

/// Password hashing with argon2id and the crate's default parameters. Each
/// password gets a fresh random salt; the result is a PHC string, opaque to
/// the domain.
pub struct Argon2PasswordHasher;

impl PasswordHasher for Argon2PasswordHasher {
    fn hash(&self, password: &Password) -> (r: PasswordHash)
        ensures
            exists|salt: Seq<u8>| salt.len() == 16 && r@ == spec_argon2_phc(password@, salt),
            spec_argon2_verify(password@, r@),
    {
        let salt = random_salt();
        let phc = argon2_phc(password.expose(), salt);
        proof {
            broadcast use vstd::array::array_len_matches_n;
            assert(salt@.len() == 16);
            assert(phc@ == spec_argon2_phc(password@, salt@));
        }
        PasswordHash::from_storage(phc)
    }

    fn verify(&self, password: &Password, hash: &PasswordHash) -> (r: bool)
        ensures
            r == spec_argon2_verify(password@, hash@),
    {
        argon2_verify(password.expose(), hash.as_str())
    }
}

/// `rand::thread_rng().sample_iter(&Alphanumeric).take(len)`, collected into a
/// text. The claim is what the distribution draws from: `len` characters, each
/// an ASCII letter or digit. Which ones is left to chance and is not stated.
#[verifier::external_body]
pub(crate) fn random_alphanumeric(len: usize) -> (r: String)
    ensures
        r@.len() == len,
        forall|i: int| 0 <= i < len ==> #[trigger] is_alnum(r@[i]),
{
    rand::thread_rng().sample_iter(&rand::distributions::Alphanumeric).take(len).map(char::from).collect()
}

/// Session tokens: 48 ASCII letters and digits from a CSPRNG (about 285 bits),
/// an alphabet inside the one [`SessionToken`] accepts.
pub struct RandomSessionTokenFactory;

impl SessionTokenFactory for RandomSessionTokenFactory {
    fn generate(&self) -> (r: SessionToken)
        ensures
            r@.len() == 48,
            forall|i: int| 0 <= i < 48 ==> #[trigger] is_alnum(r@[i]),
    {
        let raw = random_alphanumeric(48);
        proof {
            let s = raw@;
            assert forall|k: int| 0 <= k < s.len() implies #[trigger] token_rule()(k, s[k]) by {
                assert(is_alnum(s[k]));
            }
            lemma_first_bad_all_ok(s, token_rule(), 0);
        }
        SessionToken::parse(raw.as_str()).unwrap()
    }
}

} // verus!
