//! The login flow: validate the form, look the stored password hash up,
//! check the password against it, and on a match issue a signed bearer
//! token that expires a fixed time from now.
use vstd::prelude::*;

use crate::response::HttpReply;
use crate::response::error_reply;
use crate::response::json_error_body;
use crate::response::json_login_ok_body;
use crate::response::login_ok_body;
use crate::store::StoreError;
use crate::token::jwt_token_of;
use crate::token::sign_claims;

verus! {

/// How long an issued token lives, in seconds.
pub const TOKEN_LIFETIME_SECONDS: u64 = 28800;

/// The login form: both fields must be present.
pub struct UserLogin {
    pub user_id: Option<String>,
    pub password: Option<String>,
}

impl UserLogin {
    /// Whether the form is complete.
    pub open spec fn valid(&self) -> bool {
        self.user_id is Some && self.password is Some
    }

    /// Checks the form; names the first missing field.
    pub fn validate(&self) -> (r: Result<(), &'static str>)
        ensures
            r is Ok <==> self.valid(),
            self.user_id is None ==> (r matches Err(m) && m@ == "username is required"@),
            self.user_id is Some && self.password is None ==> (r matches Err(m) && m@
                == "password is required"@),
    {
        if self.user_id.is_none() {
            Err("username is required")
        } else if self.password.is_none() {
            Err("password is required")
        } else {
            Ok(())
        }
    }
}

/// Whether `password` matches the bcrypt hash `hashed`; `None` when the
/// hash cannot be parsed. A function of the two strings alone.
pub uninterp spec fn bcrypt_verdict(password: Seq<char>, hashed: Seq<char>) -> Option<bool>;

/// Relies on `bcrypt::verify`: the verdict on a password against a stored
/// bcrypt hash, `None` for an unparsable hash.
#[verifier::external_body]
pub fn check_password(password: &str, hashed: &str) -> (r: Option<bool>)
    ensures
        r == bcrypt_verdict(password@, hashed@),
{
    bcrypt::verify(password, hashed).ok()
}

/// Issues the bearer token for `user_id`, expiring `TOKEN_LIFETIME_SECONDS`
/// after `now`.
pub fn create_jwt(user_id: &str, now: u64, secret: &str) -> (r: String)
    requires
        now + TOKEN_LIFETIME_SECONDS <= u64::MAX,
    ensures
        r@ == jwt_token_of(user_id@, (now + TOKEN_LIFETIME_SECONDS) as u64, secret@),
{
    sign_claims(user_id, now + TOKEN_LIFETIME_SECONDS, secret)
}

/// The reply once the stored hash (or its absence) is known, for a form
/// that passed validation. A missing row answers 404; a password that does
/// not match the stored bcrypt hash answers 401 (the wire format carries
/// the fixed login message in that envelope too); a match answers 200,
/// always, with a freshly signed token in the body.
pub fn login_decision(
    user_id: &str,
    password: &str,
    lookup: Result<String, StoreError>,
    now: u64,
    secret: &str,
) -> (r: HttpReply)
    requires
        now + TOKEN_LIFETIME_SECONDS <= u64::MAX,
    ensures
        lookup is Err ==> r.status == 404 && r.body@ == json_error_body("No found record"@),
        lookup matches Ok(hash) && bcrypt_verdict(password@, hash@) != Some(true) ==> r.status
            == 401 && r.body@ == json_error_body("Success Login"@),
        lookup matches Ok(hash) && bcrypt_verdict(password@, hash@) == Some(true) ==> r.status
            == 200 && r.body@ == json_login_ok_body(
            jwt_token_of(user_id@, (now + TOKEN_LIFETIME_SECONDS) as u64, secret@),
        ),
{
    match lookup {
        Err(_) => error_reply(404, "No found record"),
        Ok(hash) => {
            let verdict = check_password(password, hash.as_str());
            let matched = match verdict {
                Some(true) => true,
                _ => false,
            };
            if matched {
                let token = create_jwt(user_id, now, secret);
                HttpReply { status: 200, body: login_ok_body(token.as_str()) }
            } else {
                error_reply(401, "Success Login")
            }
        },
    }
}

} // verus!
