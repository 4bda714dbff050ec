//! Password hashing, address validation and random identifiers.

use vstd::prelude::*;

verus! {

/// Whether `s` is a syntactically valid email address.
pub uninterp spec fn email_valid(s: Seq<char>) -> bool;

/// Whether `pass` verifies against the bcrypt hash `hash`.
pub uninterp spec fn bcrypt_accepts(pass: Seq<char>, hash: Seq<char>) -> bool;

/// Relies on email_address's `EmailAddress::is_valid`: whether the text
/// parses as an address; the answer depends on the text alone.
#[verifier::external_body]
pub(crate) fn is_valid_email(s: &str) -> (r: bool)
    ensures
        r == email_valid(s@),
{
    email_address::EmailAddress::is_valid(s)
}

/// Relies on bcrypt's `verify`: it reads the cost and salt out of the hash,
/// hashes the password again with them and compares; a malformed hash counts
/// as a mismatch.
#[verifier::external_body]
pub(crate) fn password_matches(pass: &str, hash: &str) -> (r: bool)
    ensures
        r == bcrypt_accepts(pass@, hash@),
{
    bcrypt::verify(pass, hash).unwrap_or(false)
}

/// Relies on bcrypt's `hash`: a fresh random salt for every call, so the hash
/// is not a function of the password, but `verify` accepts the password
/// against it.  It fails only where the system's randomness fails.
#[verifier::external_body]
pub(crate) fn hash_password(pass: &str, cost: u32) -> (r: Option<String>)
    requires
        4 <= cost <= 31,
    ensures
        r is Some ==> bcrypt_accepts(pass@, r.unwrap()@),
{
    bcrypt::hash(pass, cost).ok()
}

/// Relies on uuid's `Uuid::new_v4`: a random identifier in its hyphenated
/// text form.
#[verifier::external_body]
pub(crate) fn new_uuid() -> (r: String) {
    uuid::Uuid::new_v4().to_string()
}

/// An ASCII letter or digit.
pub open spec fn is_alphanumeric(c: char) -> bool {
    ('A' <= c <= 'Z') || ('a' <= c <= 'z') || ('0' <= c <= '9')
}

/// Relies on rand's `Alphanumeric` distribution through `DistString`: `len`
/// characters, each drawn from `A-Z`, `a-z` and `0-9`.
#[verifier::external_body]
pub(crate) fn random_alphanumeric(len: usize) -> (r: String)
    ensures
        r@.len() == len,
        forall|i: int| 0 <= i < r@.len() ==> is_alphanumeric(#[trigger] r@[i]),
{
    rand::distributions::DistString::sample_string(
        &rand::distributions::Alphanumeric,
        &mut rand::thread_rng(),
        len,
    )
}

/// A bcrypt cost that bcrypt accepts: from 4 to 31.
#[derive(Debug, Clone, Copy)]
pub struct HashCost {
    cost: u32,
}

impl HashCost {
    #[verifier::type_invariant]
    spec fn inv(self) -> bool {
        4 <= self.cost <= 31
    }

    pub closed spec fn spec_get(self) -> u32 {
        self.cost
    }

    /// The cost `cost`, if bcrypt accepts it.
    pub fn new(cost: u32) -> (r: Option<HashCost>)
        ensures
            r is Some <==> 4 <= cost <= 31,
            r matches Some(h) ==> h.spec_get() == cost,
    {
        if 4 <= cost && cost <= 31 {
            Some(HashCost { cost })
        } else {
            None
        }
    }

    /// bcrypt's default cost, 12.
    pub fn default() -> (r: HashCost)
        ensures
            r.spec_get() == 12,
    {
        HashCost { cost: 12 }
    }

    pub fn get(&self) -> (r: u32)
        ensures
            r == self.spec_get(),
            4 <= r <= 31,
    {
        proof {
            use_type_invariant(self);
        }
        self.cost
    }
}

} // verus!
