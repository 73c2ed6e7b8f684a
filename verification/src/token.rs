//! Confirmation-token generation.
//!
//! A token is a 25-character case-sensitive string drawn uniformly from
//! the alphanumeric alphabet, so that the space of 62^25 values makes a
//! guess or a collision negligible. The draw consumes the process-wide
//! random source; everything around it is verified.

use rand::Rng;
use vstd::prelude::*;
use vstd::string::StringExecFns;

verus! {

/// A character the token alphabet allows: ASCII alphanumeric.
pub open spec fn is_token_char(c: char) -> bool {
    ||| (65 <= c as u32 && c as u32 <= 90)
    ||| (97 <= c as u32 && c as u32 <= 122)
    ||| (48 <= c as u32 && c as u32 <= 57)
}

/// The shape every issued token has: exactly 25 characters, all from
/// the alphanumeric alphabet.
pub open spec fn valid_token(s: Seq<char>) -> bool {
    &&& s.len() == 25
    &&& forall|i: int| 0 <= i < s.len() ==> is_token_char(#[trigger] s[i])
}

/// The process-wide random generator. Declared so that a handle to it
/// can flow through verified code; its state stays opaque.
#[verifier::external_type_specification]
#[verifier::external_body]
pub struct ExThreadRng(rand::rngs::ThreadRng);

/// Relies on `rand::thread_rng`: a handle to the thread-local
/// generator. Nothing is promised of the state it starts in.
#[verifier::external_body]
fn new_rng() -> rand::rngs::ThreadRng {
    rand::thread_rng()
}

/// Relies on `rand::Rng::sample` with the `Alphanumeric` distribution:
/// the drawn byte is always one of `A-Z a-z 0-9`. Which one comes out
/// depends on the generator, so nothing more is promised of it.
#[verifier::external_body]
fn sample_alphanumeric(rng: &mut rand::rngs::ThreadRng) -> (r: String)
    ensures
        r@.len() == 1,
        is_token_char(r@[0]),
{
    String::from(char::from(rng.sample(rand::distributions::Alphanumeric)))
}

/// Generates a subscription token: 25 case-sensitive characters from
/// the alphanumeric alphabet, sampled from the process-wide random
/// source.
pub fn gen_subscription_token() -> (t: String)
    ensures
        valid_token(t@),
{
    let mut rng = new_rng();
    let mut token = String::new();
    let mut i: usize = 0;
    while i < 25
        invariant
            0 <= i <= 25,
            token@.len() == i,
            forall|j: int| 0 <= j < i ==> is_token_char(#[trigger] token@[j]),
        decreases 25 - i,
    {
        let c = sample_alphanumeric(&mut rng);
        token.append(c.as_str());
        i = i + 1;
    }
    token
}

} // verus!
