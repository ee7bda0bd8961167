use precise_api::auth::{AuthError, GuardVerdict, JwtMiddleware, rejection_reply};
use precise_api::login::create_jwt;
use precise_api::routes::{DispatchPlan, Dispatcher, Method};
use precise_api::token::{sign_claims, verify_token};

fn now() -> u64 {
    jsonwebtoken::get_current_timestamp()
}

#[test]
fn no_header_is_rejected_with_no_access() {
    let service = JwtMiddleware::new("s3cr3t".to_string()).service();
    let verdict = service.check_request("/precise/api/master/countries", None);
    match verdict {
        GuardVerdict::Rejected(AuthError::NoToken) => {}
        _ => panic!("expected a no-token rejection"),
    }
    let reply = rejection_reply(&AuthError::NoToken);
    assert_eq!(reply.status, 401);
    assert_eq!(
        reply.body,
        "{\"status\":\"error\",\"message\":\"no access to endpoint\"}"
    );
}

#[test]
fn malformed_header_is_rejected_with_no_access() {
    let service = JwtMiddleware::new("s3cr3t".to_string()).service();
    let header = "Token abc".to_string();
    let verdict = service.check_request("/precise/api/master/countries", Some(header.as_str()));
    assert!(matches!(verdict, GuardVerdict::Rejected(AuthError::NoToken)));
}

#[test]
fn token_signed_with_other_secret_is_rejected() {
    let token = create_jwt("u1", now(), "the-other-secret");
    let service = JwtMiddleware::new("the-right-secret".to_string()).service();
    let header = format!("Bearer {token}");
    let verdict = service.check_request("/precise/api/master/countries", Some(header.as_str()));
    assert!(matches!(verdict, GuardVerdict::Rejected(AuthError::InvalidToken)));
    let reply = rejection_reply(&AuthError::InvalidToken);
    assert_eq!(reply.status, 401);
    assert_eq!(reply.body, "{\"status\":\"error\",\"message\":\"invalid token\"}");
}

#[test]
fn expired_token_is_rejected() {
    // Validation allows 60 seconds of leeway, so expire well in the past.
    let token = sign_claims("u1", now() - 7200, "s3cr3t");
    let service = JwtMiddleware::new("s3cr3t".to_string()).service();
    let header = format!("Bearer {token}");
    let verdict = service.check_request("/precise/api/master/countries", Some(header.as_str()));
    assert!(matches!(verdict, GuardVerdict::Rejected(AuthError::InvalidToken)));
}

#[test]
fn rejected_request_never_reaches_a_handler() {
    let dispatcher = Dispatcher { guard: JwtMiddleware::new("s3cr3t".to_string()).service() };
    let plan = dispatcher.plan_request(Method::Get, "/precise/api/master/countries", None);
    match plan {
        DispatchPlan::Respond(reply) => {
            assert_eq!(reply.status, 401);
            assert_eq!(
                reply.body,
                "{\"status\":\"error\",\"message\":\"no access to endpoint\"}"
            );
        }
        DispatchPlan::Run(..) => panic!("the handler must not be reached"),
    }
}

#[test]
fn allow_listed_login_path_reaches_the_handler_without_header() {
    let service = JwtMiddleware::new("s3cr3t".to_string()).service();
    let verdict = service.check_request("/precise/api/auth/login", None);
    match verdict {
        GuardVerdict::Authorized(None) => {}
        _ => panic!("the login path must pass without a token"),
    }
    let dispatcher = Dispatcher { guard: service };
    let plan = dispatcher.plan_request(Method::Post, "/precise/api/auth/login", None);
    assert!(matches!(plan, DispatchPlan::Run(..)));
}

#[test]
fn valid_token_passes_with_its_claims() {
    let exp = now() + 28800;
    let token = sign_claims("user-17", exp, "s3cr3t");
    let service = JwtMiddleware::new("s3cr3t".to_string()).service();
    let header = format!("Bearer {token}");
    let verdict = service.check_request("/precise/api/master/states", Some(header.as_str()));
    match verdict {
        GuardVerdict::Authorized(Some(claims)) => {
            assert_eq!(claims.sub, "user-17");
            assert_eq!(claims.exp, exp);
        }
        _ => panic!("a valid token must pass with its claims"),
    }
}

#[test]
fn verify_token_decodes_rather_than_echoes() {
    let exp = now() + 600;
    let token = sign_claims("alice", exp, "k");
    assert_ne!(token, "alice");
    let claims = verify_token(token.as_str(), "k").expect("claims");
    assert_eq!(claims.sub, "alice");
    assert_eq!(claims.exp, exp);
    assert!(verify_token("not-a-token", "k").is_none());
}
