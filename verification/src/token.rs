//! Bearer-token claims and the signing/verification calls into
//! `jsonwebtoken`, each behind a contract the rest of the library builds on.
use vstd::prelude::*;

verus! {

/// The decoded payload of a verified bearer token: the subject identity and
/// the expiry timestamp (seconds since the Unix epoch).
#[derive(Debug)]
pub struct Claims {
    pub sub: String,
    pub exp: u64,
}

/// The mathematical image of a claim set.
pub struct ClaimsView {
    pub sub: Seq<char>,
    pub exp: u64,
}

impl View for Claims {
    type V = ClaimsView;

    open spec fn view(&self) -> ClaimsView {
        ClaimsView { sub: self.sub@, exp: self.exp }
    }
}

/// The token that signing the claims `(sub, exp)` with `secret` produces.
/// The result is a function of the claims and the secret alone.
pub uninterp spec fn jwt_token_of(sub: Seq<char>, exp: u64, secret: Seq<char>) -> Seq<char>;

/// The claim set carried by `token` when its signature verifies under
/// `secret`, `None` when it does not. A function of the token and the
/// secret alone; expiry is checked separately, against the clock, by the
/// verifying call.
pub uninterp spec fn jwt_claims_of(token: Seq<char>, secret: Seq<char>) -> Option<ClaimsView>;

/// Relies on `jsonwebtoken::encode` with the default (HS256) header and a
/// plain secret key: the token is a deterministic function of the claims
/// and the secret, and `jsonwebtoken::decode` under the same secret
/// recovers exactly these claims. For these inputs encode has no failure
/// path: the key's family matches the header's algorithm, serializing the
/// default header and this two-field JSON object cannot fail, and HMAC
/// signing is total.
#[verifier::external_body]
pub fn sign_claims(sub: &str, exp: u64, secret: &str) -> (r: String)
    ensures
        r@ == jwt_token_of(sub@, exp, secret@),
        jwt_claims_of(r@, secret@) == Some(ClaimsView { sub: sub@, exp }),
{
    let mut payload = serde_json::Map::new();
    payload.insert("sub".to_string(), serde_json::Value::String(sub.to_string()));
    payload.insert("exp".to_string(), serde_json::Value::from(exp));
    let key = jsonwebtoken::EncodingKey::from_secret(secret.as_bytes());
    jsonwebtoken::encode(&jsonwebtoken::Header::default(), &serde_json::Value::Object(payload), &key)
        .expect("HS256 signing over a plain secret key cannot fail")
}

/// Relies on `jsonwebtoken::decode` with the default (HS256) validation: a
/// token it accepts carries a signature made with this very secret, and the
/// claims handed back are the token's own. `None` covers every rejection:
/// malformed token, wrong signature, or expiry in the past at the time of
/// the call — so no clause here may promise acceptance.
#[verifier::external_body]
pub fn verify_token(token: &str, secret: &str) -> (r: Option<Claims>)
    ensures
        r matches Some(c) ==> jwt_claims_of(token@, secret@) == Some(c@),
{
    let key = jsonwebtoken::DecodingKey::from_secret(secret.as_bytes());
    let data = jsonwebtoken::decode::<serde_json::Value>(
        token,
        &key,
        &jsonwebtoken::Validation::default(),
    ).ok()?;
    let sub = data.claims.get("sub")?.as_str()?.to_string();
    let exp = data.claims.get("exp")?.as_u64()?;
    Some(Claims { sub, exp })
}

} // verus!
