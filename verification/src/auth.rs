//! The authentication guard: allow-listed paths pass untouched, every other
//! path must present a bearer token that verifies under the configured
//! secret. The decision is a function of the path, the header and the
//! verifier's verdict, stated by `guard_spec` and proved of `check_request`.
use vstd::prelude::*;

use crate::response::HttpReply;
use crate::response::error_reply;
use crate::response::json_error_body;
use crate::strutil::starts_with_str;
use crate::strutil::str_eq;
use crate::strutil::suffix_from;
use crate::token::Claims;
use crate::token::ClaimsView;
use crate::token::jwt_claims_of;
use crate::token::verify_token;

verus! {

/// Why the guard turned a request away.
#[derive(Clone, Copy, Debug, PartialEq, Eq, Structural)]
pub enum AuthError {
    /// No `Authorization` header, or one without the `Bearer ` prefix.
    NoToken,
    /// A bearer token was presented but did not verify.
    InvalidToken,
}

/// The verdict on one request: let it through, carrying the decoded
/// claims when a token was verified, or short-circuit with an error.
pub enum GuardVerdict {
    Authorized(Option<Claims>),
    Rejected(AuthError),
}

/// The mathematical image of a guard verdict.
pub enum GuardVerdictView {
    Authorized(Option<ClaimsView>),
    Rejected(AuthError),
}

impl View for GuardVerdict {
    type V = GuardVerdictView;

    open spec fn view(&self) -> GuardVerdictView {
        match self {
            GuardVerdict::Authorized(c) => GuardVerdictView::Authorized(
                match c {
                    Some(cl) => Some(cl@),
                    None => None,
                },
            ),
            GuardVerdict::Rejected(e) => GuardVerdictView::Rejected(*e),
        }
    }
}

/// The view of an optional header value.
pub open spec fn opt_header_view(h: Option<&str>) -> Option<Seq<char>> {
    match h {
        Some(s) => Some(s@),
        None => None,
    }
}

/// The token carried by an `Authorization` header: the characters after
/// the `Bearer ` prefix, `None` when the header is absent or shaped
/// otherwise.
pub open spec fn bearer_of(header: Option<Seq<char>>) -> Option<Seq<char>> {
    match header {
        None => None,
        Some(h) => if h.len() >= 7 && h.subrange(0, 7) == "Bearer "@ {
            Some(h.subrange(7, h.len() as int))
        } else {
            None
        },
    }
}

/// Whether `path` is one of the allow-listed paths.
pub open spec fn in_allow_list(allow: Seq<Seq<char>>, path: Seq<char>) -> bool {
    exists|i: int| 0 <= i < allow.len() && allow[i] == path
}

/// The guard's decision as a function of the configuration, the request
/// line, and the verifier's verdict on the presented token (`verified` is
/// what token verification returned; it is only consulted when a bearer
/// token is present).
pub open spec fn guard_spec(
    allow: Seq<Seq<char>>,
    path: Seq<char>,
    header: Option<Seq<char>>,
    verified: Option<ClaimsView>,
) -> GuardVerdictView {
    if in_allow_list(allow, path) {
        GuardVerdictView::Authorized(None)
    } else {
        match bearer_of(header) {
            None => GuardVerdictView::Rejected(AuthError::NoToken),
            Some(_) => match verified {
                Some(c) => GuardVerdictView::Authorized(Some(c)),
                None => GuardVerdictView::Rejected(AuthError::InvalidToken),
            },
        }
    }
}

/// Extracts the token from a `Bearer `-prefixed header value.
pub fn bearer_token(header: &str) -> (r: Option<&str>)
    ensures
        r matches Some(t) ==> bearer_of(Some(header@)) == Some(t@),
        r is None ==> bearer_of(Some(header@)) is None,
{
    proof {
        reveal_strlit("Bearer ");
    }
    if starts_with_str(header, "Bearer ") {
        Some(suffix_from(header, 7))
    } else {
        None
    }
}

/// The authentication middleware as configured at startup: the shared
/// token secret.
pub struct JwtMiddleware {
    pub jwt_secret: String,
}

impl JwtMiddleware {
    pub fn new(jwt_secret: String) -> (r: Self)
        ensures
            r.jwt_secret == jwt_secret,
    {
        Self { jwt_secret }
    }

    /// The per-request service for this configuration, guarding everything
    /// but the login path.
    pub fn service(&self) -> (r: JwtMiddlewareService)
        ensures
            r.jwt_secret@ == self.jwt_secret@,
            r.allow_view() =~= seq!["/precise/api/auth/login"@],
    {
        let mut allow_list: Vec<String> = Vec::new();
        allow_list.push("/precise/api/auth/login".to_owned());
        JwtMiddlewareService { jwt_secret: self.jwt_secret.clone(), allow_list }
    }
}

/// The guard with its full configuration: the secret and the allow-list of
/// paths exempt from authentication. Both are fixed at construction; the
/// service only ever reads them, so one instance serves any number of
/// concurrent requests.
pub struct JwtMiddlewareService {
    pub jwt_secret: String,
    pub allow_list: Vec<String>,
}

impl JwtMiddlewareService {
    /// The allow-list as a sequence of character sequences.
    pub open spec fn allow_view(&self) -> Seq<Seq<char>> {
        self.allow_list@.map_values(|s: String| s@)
    }

    /// Whether `path` is exempt from authentication.
    pub fn path_allowed(&self, path: &str) -> (r: bool)
        ensures
            r == in_allow_list(self.allow_view(), path@),
    {
        let n = self.allow_list.len();
        let mut i: usize = 0;
        while i < n
            invariant
                i <= n,
                n == self.allow_list@.len(),
                forall|j: int| 0 <= j < i ==> self.allow_view()[j] != path@,
            decreases n - i,
        {
            if str_eq(path, self.allow_list[i].as_str()) {
                assert(self.allow_view()[i as int] == path@);
                return true;
            }
            i = i + 1;
        }
        false
    }

    /// The guard's decision for one request. Exactly `guard_spec`, where the
    /// verifier's verdict is whatever `verify_token` returned for the
    /// presented token: an accepted token's claims are the token's own
    /// under this secret, and a token without valid claims under this
    /// secret is always rejected.
    pub fn check_request(&self, path: &str, auth_header: Option<&str>) -> (r: GuardVerdict)
        ensures
            in_allow_list(self.allow_view(), path@) ==> r@ == GuardVerdictView::Authorized(None),
            !in_allow_list(self.allow_view(), path@) && bearer_of(opt_header_view(auth_header))
                is None ==> r@ == GuardVerdictView::Rejected(AuthError::NoToken),
            !in_allow_list(self.allow_view(), path@) ==> (bearer_of(opt_header_view(auth_header))
                matches Some(tok) ==> (exists|verified: Option<ClaimsView>|
                {
                    &&& r@ == guard_spec(self.allow_view(), path@, opt_header_view(auth_header), verified)
                    &&& (verified matches Some(c) ==> jwt_claims_of(tok, self.jwt_secret@) == Some(c))
                })),
            !in_allow_list(self.allow_view(), path@) ==> ((bearer_of(opt_header_view(auth_header))
                matches Some(tok) && jwt_claims_of(tok, self.jwt_secret@) is None) ==> r@
                == GuardVerdictView::Rejected(AuthError::InvalidToken)),
    {
        if self.path_allowed(path) {
            return GuardVerdict::Authorized(None);
        }
        let token = match auth_header {
            Some(h) => bearer_token(h),
            None => None,
        };
        match token {
            None => GuardVerdict::Rejected(AuthError::NoToken),
            Some(t) => match verify_token(t, self.jwt_secret.as_str()) {
                Some(c) => {
                    let ghost verified = Some(c@);
                    let r = GuardVerdict::Authorized(Some(c));
                    proof {
                        assert(r@ == guard_spec(
                            self.allow_view(),
                            path@,
                            opt_header_view(auth_header),
                            verified,
                        ));
                    }
                    r
                },
                None => {
                    let ghost verified = None::<ClaimsView>;
                    let r = GuardVerdict::Rejected(AuthError::InvalidToken);
                    proof {
                        assert(r@ == guard_spec(
                            self.allow_view(),
                            path@,
                            opt_header_view(auth_header),
                            verified,
                        ));
                    }
                    r
                },
            },
        }
    }
}

/// The response a rejection short-circuits with: HTTP 401 and the JSON
/// error envelope carrying the rejection's reason.
pub fn rejection_reply(e: &AuthError) -> (r: HttpReply)
    ensures
        r.status == 401,
        e is NoToken ==> r.body@ == json_error_body("no access to endpoint"@),
        e is InvalidToken ==> r.body@ == json_error_body("invalid token"@),
{
    match e {
        AuthError::NoToken => error_reply(401, "no access to endpoint"),
        AuthError::InvalidToken => error_reply(401, "invalid token"),
    }
}

/// For every path outside the allow-list, a request without a usable
/// `Authorization` header is turned away with the no-access reason —
/// whatever the token verifier would have said, since it is never
/// consulted.
pub proof fn lemma_missing_header_rejected(
    allow: Seq<Seq<char>>,
    path: Seq<char>,
    verified: Option<ClaimsView>,
)
    requires
        !in_allow_list(allow, path),
    ensures
        guard_spec(allow, path, None, verified) == GuardVerdictView::Rejected(AuthError::NoToken),
{
}

/// For every path outside the allow-list, a presented bearer token that
/// does not verify — wrong secret, damaged, or expired — is turned away
/// with the invalid-token reason; the request is never passed on.
pub proof fn lemma_unverified_token_rejected(
    allow: Seq<Seq<char>>,
    path: Seq<char>,
    header: Option<Seq<char>>,
)
    requires
        !in_allow_list(allow, path),
        bearer_of(header) is Some,
    ensures
        guard_spec(allow, path, header, None) == GuardVerdictView::Rejected(AuthError::InvalidToken),
        !(guard_spec(allow, path, header, None) is Authorized),
{
}

/// An allow-listed path passes the guard with no claims attached, whatever
/// headers the request carries: the handler behind the guard is reached
/// without any token at all.
pub proof fn lemma_allow_listed_path_passes(
    allow: Seq<Seq<char>>,
    path: Seq<char>,
    header: Option<Seq<char>>,
    verified: Option<ClaimsView>,
)
    requires
        in_allow_list(allow, path),
    ensures
        guard_spec(allow, path, header, verified) == GuardVerdictView::Authorized(None),
{
}

} // verus!
