//! Signed session tokens: compact JWS texts (header, JSON claims, HS256
//! signature) written and read by jsonwebtoken.
//!
//! The claims object has the fields `aud` (audience), `com` (issuing
//! company), `sub` (user uuid), `exp` (expiry, seconds since the epoch) and
//! `acc` (privilege flag; `null` in session tokens).

use vstd::prelude::*;

verus! {

/// The claim fields read out of a token: audience, issuer, subject, expiry,
/// and the privilege flag where there is one.
pub type JwtFields = (Seq<char>, Seq<char>, Seq<char>, u64, Option<bool>);

/// The JWT text that jsonwebtoken's `encode` writes for these claims under
/// `secret`, with the default HS256 header.
pub uninterp spec fn jwt_of(
    secret: Seq<u8>,
    aud: Seq<char>,
    com: Seq<char>,
    sub: Seq<char>,
    exp: u64,
    acc: Option<bool>,
) -> Seq<char>;

/// The claim fields that jsonwebtoken's `decode` reads out of `token` once
/// its HS256 signature under `secret` checks, if the token decodes and holds
/// them.
pub uninterp spec fn jwt_fields_of(secret: Seq<u8>, token: Seq<char>) -> Option<JwtFields>;

/// The views of decoded claim fields.
pub open spec fn fields_view(f: Option<(String, String, String, u64, Option<bool>)>) -> Option<
    JwtFields,
> {
    match f {
        Some((aud, com, sub, exp, acc)) => Some((aud@, com@, sub@, exp, acc)),
        None => None,
    }
}

/// Relies on jsonwebtoken's `encode` with `Header::default()` (HS256) and an
/// HMAC key made from the secret: the claims object is serialised to JSON,
/// header and claims are base64url-encoded and signed.  With an HMAC key and
/// an HS256 header it never fails.
#[verifier::external_body]
pub(crate) fn jwt_encode(
    secret: &[u8],
    aud: &str,
    com: &str,
    sub: &str,
    exp: u64,
    acc: Option<bool>,
) -> (r: Option<String>)
    ensures
        r is Some,
        r is Some ==> r.unwrap()@ == jwt_of(secret@, aud@, com@, sub@, exp, acc),
{
    let mut claims = serde_json::Map::new();
    claims.insert("aud".to_string(), aud.into());
    claims.insert("com".to_string(), com.into());
    claims.insert("sub".to_string(), sub.into());
    claims.insert("exp".to_string(), exp.into());
    claims.insert("acc".to_string(), acc.into());
    let key = jsonwebtoken::EncodingKey::from_secret(secret);
    jsonwebtoken::encode(&jsonwebtoken::Header::default(), &claims, &key).ok()
}

/// Relies on jsonwebtoken's `decode` with HS256 and the expiry, audience and
/// required-claim checks switched off: it checks the framing and the
/// signature, and reads the JSON claims back.  What `encode` wrote for the
/// same secret reads back as the same fields.
#[verifier::external_body]
pub(crate) fn jwt_decode(secret: &[u8], token: &str) -> (r: Option<
    (String, String, String, u64, Option<bool>),
>)
    ensures
        fields_view(r) == jwt_fields_of(secret@, token@),
        forall|aud: Seq<char>, com: Seq<char>, sub: Seq<char>, exp: u64, acc: Option<bool>|
            #[trigger] jwt_of(secret@, aud, com, sub, exp, acc) == token@ ==> fields_view(r)
                == Some((aud, com, sub, exp, acc)),
{
    let mut check = jsonwebtoken::Validation::new(jsonwebtoken::Algorithm::HS256);
    check.validate_exp = false;
    check.validate_aud = false;
    check.required_spec_claims.clear();
    let key = jsonwebtoken::DecodingKey::from_secret(secret);
    let c = jsonwebtoken::decode::<serde_json::Value>(token, &key, &check).ok()?.claims;
    let text = (c["aud"].as_str()?, c["com"].as_str()?, c["sub"].as_str()?);
    Some((text.0.to_string(), text.1.to_string(), text.2.to_string(), c["exp"].as_u64()?, c["acc"].as_bool()))
}

} // verus!
