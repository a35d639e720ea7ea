//! Random invite codes.

use vstd::prelude::*;

use crate::application::ports::InviteCodeFactory;
use crate::domain::identity::InviteCode;
use crate::text::{
    alnum_rule, is_alnum, is_digit, is_lower, lemma_first_bad_all_ok, lemma_trim_alnum,
    to_ascii_uppercase, upper_char, upper_seq,
};

verus! {

/// A lowercase hexadecimal digit.
pub open spec fn is_hex_lower(c: char) -> bool {
    is_digit(c) || ('a' <= c && c <= 'f')
}

/// `uuid::Uuid::new_v4().simple().to_string()`: a random version-4 UUID in its
/// simple form. The claim is the form the crate writes: 32 lowercase
/// hexadecimal digits. Which digits is left to chance and is not stated.
#[verifier::external_body]
fn uuid_v4_simple() -> (r: String)
    ensures
        r@.len() == 32,
        forall|i: int| 0 <= i < 32 ==> #[trigger] is_hex_lower(r@[i]),
{
    uuid::Uuid::new_v4().simple().to_string()
}

/// A random invite code. The entropy is a version-4 UUID: 32 hexadecimal
/// characters in upper case, letters and digits, which the domain accepts.
pub struct RandomInviteCodeFactory;

impl InviteCodeFactory for RandomInviteCodeFactory {
    fn generate(&self) -> (r: InviteCode)
        ensures
            r@.len() == 32,
            forall|i: int| 0 <= i < 32 ==> #[trigger] is_alnum(r@[i]),
    {
        let simple = uuid_v4_simple();
        let raw = to_ascii_uppercase(simple.as_str());
        proof {
            let s = raw@;
            assert forall|i: int| 0 <= i < s.len() implies #[trigger] is_alnum(s[i]) by {
                assert(s[i] == upper_char(simple@[i]));
                assert(is_hex_lower(simple@[i]));
            }
            lemma_trim_alnum(s);
            assert forall|k: int| 0 <= k < s.len() implies #[trigger] alnum_rule()(k, s[k]) by {
                assert(is_alnum(s[k]));
            }
            lemma_first_bad_all_ok(s, alnum_rule(), 0);
        }
        InviteCode::parse(raw.as_str()).unwrap()
    }
}

} // verus!
