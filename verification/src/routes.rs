//! The route table and the outer composition: match the request line to a
//! handler, hold the matched request to the authentication guard, and
//! either short-circuit with the guard's reply or hand the handler the
//! request with the decoded claims attached.
use vstd::prelude::*;

use crate::auth::GuardVerdict;
use crate::auth::JwtMiddlewareService;
use crate::auth::bearer_of;
use crate::auth::in_allow_list;
use crate::auth::opt_header_view;
use crate::auth::rejection_reply;
use crate::response::HttpReply;
use crate::response::error_reply;
use crate::response::json_error_body;
use crate::strutil::contains_char;
use crate::strutil::starts_with_str;
use crate::strutil::str_eq;
use crate::strutil::suffix_from;
use crate::token::Claims;
use crate::token::jwt_claims_of;

verus! {

/// The request methods the route table knows.
#[derive(Clone, Copy, Debug, PartialEq, Eq, Structural)]
pub enum Method {
    Get,
    Post,
    Put,
}

/// How one entity's sub-path is carved up under its base path.
pub enum EntityTail {
    /// The base path itself.
    Index,
    /// `/exists/name` under the base.
    ExistsName,
    /// `/exists/code` under the base.
    ExistsCode,
    /// `/{id}` under the base: one non-empty segment.
    Item(String),
}

/// The mathematical image of an entity sub-path.
pub enum EntityTailView {
    Index,
    ExistsName,
    ExistsCode,
    Item(Seq<char>),
}

impl View for EntityTail {
    type V = EntityTailView;

    open spec fn view(&self) -> EntityTailView {
        match self {
            EntityTail::Index => EntityTailView::Index,
            EntityTail::ExistsName => EntityTailView::ExistsName,
            EntityTail::ExistsCode => EntityTailView::ExistsCode,
            EntityTail::Item(id) => EntityTailView::Item(id@),
        }
    }
}

/// The view of an optional entity sub-path.
pub open spec fn opt_tail_view(r: Option<EntityTail>) -> Option<EntityTailView> {
    match r {
        Some(t) => Some(t@),
        None => None,
    }
}

/// How `path` falls under the entity base path `base`: the base itself,
/// one of the two existence probes, or a single non-empty id segment.
pub open spec fn entity_tail_spec(path: Seq<char>, base: Seq<char>) -> Option<EntityTailView> {
    if path.len() >= base.len() && path.subrange(0, base.len() as int) == base {
        let tail = path.subrange(base.len() as int, path.len() as int);
        if tail.len() == 0 {
            Some(EntityTailView::Index)
        } else if tail == "/exists/name"@ {
            Some(EntityTailView::ExistsName)
        } else if tail == "/exists/code"@ {
            Some(EntityTailView::ExistsCode)
        } else if tail[0] == '/' && tail.len() > 1 && !tail.subrange(1, tail.len() as int).contains(
            '/',
        ) {
            Some(EntityTailView::Item(tail.subrange(1, tail.len() as int)))
        } else {
            None
        }
    } else {
        None
    }
}

/// Carves `path` up under `base`, as `entity_tail_spec` has it.
pub fn entity_tail(path: &str, base: &str) -> (r: Option<EntityTail>)
    ensures
        opt_tail_view(r) == entity_tail_spec(path@, base@),
{
    if !starts_with_str(path, base) {
        return None;
    }
    let bl = base.unicode_len();
    let tail = suffix_from(path, bl);
    if tail.is_empty() {
        return Some(EntityTail::Index);
    }
    if str_eq(tail, "/exists/name") {
        return Some(EntityTail::ExistsName);
    }
    if str_eq(tail, "/exists/code") {
        return Some(EntityTail::ExistsCode);
    }
    if tail.get_char(0) == '/' {
        let tl = tail.unicode_len();
        if tl > 1 {
            let id = suffix_from(tail, 1);
            if !contains_char(id, '/') {
                return Some(EntityTail::Item(id.to_owned()));
            }
        }
    }
    None
}

/// One handler of the route table, with the id segment where the route
/// carries one.
pub enum RouteTarget {
    Login,
    GetAllCities,
    InsertCity,
    GetCity(String),
    UpdateCity(String),
    ExistsCitiesName,
    ExistsCitiesCode,
    GetAllCountries,
    CreateCountry,
    GetCountry(String),
    UpdateCountry(String),
    ExistsCountryName,
    ExistsCountryCode,
    GetAllStates,
    CreateState,
    GetState(String),
    UpdateState(String),
    ExistsStateName,
    ExistsStateCode,
}

/// The mathematical image of a route target.
pub enum RouteTargetView {
    Login,
    GetAllCities,
    InsertCity,
    GetCity(Seq<char>),
    UpdateCity(Seq<char>),
    ExistsCitiesName,
    ExistsCitiesCode,
    GetAllCountries,
    CreateCountry,
    GetCountry(Seq<char>),
    UpdateCountry(Seq<char>),
    ExistsCountryName,
    ExistsCountryCode,
    GetAllStates,
    CreateState,
    GetState(Seq<char>),
    UpdateState(Seq<char>),
    ExistsStateName,
    ExistsStateCode,
}

impl View for RouteTarget {
    type V = RouteTargetView;

    open spec fn view(&self) -> RouteTargetView {
        match self {
            RouteTarget::Login => RouteTargetView::Login,
            RouteTarget::GetAllCities => RouteTargetView::GetAllCities,
            RouteTarget::InsertCity => RouteTargetView::InsertCity,
            RouteTarget::GetCity(id) => RouteTargetView::GetCity(id@),
            RouteTarget::UpdateCity(id) => RouteTargetView::UpdateCity(id@),
            RouteTarget::ExistsCitiesName => RouteTargetView::ExistsCitiesName,
            RouteTarget::ExistsCitiesCode => RouteTargetView::ExistsCitiesCode,
            RouteTarget::GetAllCountries => RouteTargetView::GetAllCountries,
            RouteTarget::CreateCountry => RouteTargetView::CreateCountry,
            RouteTarget::GetCountry(id) => RouteTargetView::GetCountry(id@),
            RouteTarget::UpdateCountry(id) => RouteTargetView::UpdateCountry(id@),
            RouteTarget::ExistsCountryName => RouteTargetView::ExistsCountryName,
            RouteTarget::ExistsCountryCode => RouteTargetView::ExistsCountryCode,
            RouteTarget::GetAllStates => RouteTargetView::GetAllStates,
            RouteTarget::CreateState => RouteTargetView::CreateState,
            RouteTarget::GetState(id) => RouteTargetView::GetState(id@),
            RouteTarget::UpdateState(id) => RouteTargetView::UpdateState(id@),
            RouteTarget::ExistsStateName => RouteTargetView::ExistsStateName,
            RouteTarget::ExistsStateCode => RouteTargetView::ExistsStateCode,
        }
    }
}

/// The view of an optional route target.
pub open spec fn opt_route_view(r: Option<RouteTarget>) -> Option<RouteTargetView> {
    match r {
        Some(t) => Some(t@),
        None => None,
    }
}

/// The city routes, by method and sub-path.
pub open spec fn city_route_spec(m: Method, t: EntityTailView) -> Option<RouteTargetView> {
    match (m, t) {
        (Method::Get, EntityTailView::Index) => Some(RouteTargetView::GetAllCities),
        (Method::Post, EntityTailView::Index) => Some(RouteTargetView::InsertCity),
        (Method::Get, EntityTailView::ExistsName) => Some(RouteTargetView::ExistsCitiesName),
        (Method::Get, EntityTailView::ExistsCode) => Some(RouteTargetView::ExistsCitiesCode),
        (Method::Get, EntityTailView::Item(id)) => Some(RouteTargetView::GetCity(id)),
        (Method::Put, EntityTailView::Item(id)) => Some(RouteTargetView::UpdateCity(id)),
        _ => None,
    }
}

/// The country routes, by method and sub-path.
pub open spec fn country_route_spec(m: Method, t: EntityTailView) -> Option<RouteTargetView> {
    match (m, t) {
        (Method::Get, EntityTailView::Index) => Some(RouteTargetView::GetAllCountries),
        (Method::Post, EntityTailView::Index) => Some(RouteTargetView::CreateCountry),
        (Method::Get, EntityTailView::ExistsName) => Some(RouteTargetView::ExistsCountryName),
        (Method::Get, EntityTailView::ExistsCode) => Some(RouteTargetView::ExistsCountryCode),
        (Method::Get, EntityTailView::Item(id)) => Some(RouteTargetView::GetCountry(id)),
        (Method::Put, EntityTailView::Item(id)) => Some(RouteTargetView::UpdateCountry(id)),
        _ => None,
    }
}

/// The state routes, by method and sub-path.
pub open spec fn state_route_spec(m: Method, t: EntityTailView) -> Option<RouteTargetView> {
    match (m, t) {
        (Method::Get, EntityTailView::Index) => Some(RouteTargetView::GetAllStates),
        (Method::Post, EntityTailView::Index) => Some(RouteTargetView::CreateState),
        (Method::Get, EntityTailView::ExistsName) => Some(RouteTargetView::ExistsStateName),
        (Method::Get, EntityTailView::ExistsCode) => Some(RouteTargetView::ExistsStateCode),
        (Method::Get, EntityTailView::Item(id)) => Some(RouteTargetView::GetState(id)),
        (Method::Put, EntityTailView::Item(id)) => Some(RouteTargetView::UpdateState(id)),
        _ => None,
    }
}

/// The whole route table: the login endpoint and the three master-data
/// entities under their base paths.
pub open spec fn route_spec(m: Method, path: Seq<char>) -> Option<RouteTargetView> {
    if m is Post && path == "/precise/api/auth/login"@ {
        Some(RouteTargetView::Login)
    } else if entity_tail_spec(path, "/precise/api/master/cities"@) is Some {
        city_route_spec(m, entity_tail_spec(path, "/precise/api/master/cities"@)->Some_0)
    } else if entity_tail_spec(path, "/precise/api/master/countries"@) is Some {
        country_route_spec(m, entity_tail_spec(path, "/precise/api/master/countries"@)->Some_0)
    } else if entity_tail_spec(path, "/precise/api/master/states"@) is Some {
        state_route_spec(m, entity_tail_spec(path, "/precise/api/master/states"@)->Some_0)
    } else {
        None
    }
}

/// Matches one request line against the route table.
pub fn match_route(m: Method, path: &str) -> (r: Option<RouteTarget>)
    ensures
        opt_route_view(r) == route_spec(m, path@),
{
    if matches!(m, Method::Post) && str_eq(path, "/precise/api/auth/login") {
        return Some(RouteTarget::Login);
    }
    if let Some(t) = entity_tail(path, "/precise/api/master/cities") {
        return match (m, t) {
            (Method::Get, EntityTail::Index) => Some(RouteTarget::GetAllCities),
            (Method::Post, EntityTail::Index) => Some(RouteTarget::InsertCity),
            (Method::Get, EntityTail::ExistsName) => Some(RouteTarget::ExistsCitiesName),
            (Method::Get, EntityTail::ExistsCode) => Some(RouteTarget::ExistsCitiesCode),
            (Method::Get, EntityTail::Item(id)) => Some(RouteTarget::GetCity(id)),
            (Method::Put, EntityTail::Item(id)) => Some(RouteTarget::UpdateCity(id)),
            _ => None,
        };
    }
    if let Some(t) = entity_tail(path, "/precise/api/master/countries") {
        return match (m, t) {
            (Method::Get, EntityTail::Index) => Some(RouteTarget::GetAllCountries),
            (Method::Post, EntityTail::Index) => Some(RouteTarget::CreateCountry),
            (Method::Get, EntityTail::ExistsName) => Some(RouteTarget::ExistsCountryName),
            (Method::Get, EntityTail::ExistsCode) => Some(RouteTarget::ExistsCountryCode),
            (Method::Get, EntityTail::Item(id)) => Some(RouteTarget::GetCountry(id)),
            (Method::Put, EntityTail::Item(id)) => Some(RouteTarget::UpdateCountry(id)),
            _ => None,
        };
    }
    if let Some(t) = entity_tail(path, "/precise/api/master/states") {
        return match (m, t) {
            (Method::Get, EntityTail::Index) => Some(RouteTarget::GetAllStates),
            (Method::Post, EntityTail::Index) => Some(RouteTarget::CreateState),
            (Method::Get, EntityTail::ExistsName) => Some(RouteTarget::ExistsStateName),
            (Method::Get, EntityTail::ExistsCode) => Some(RouteTarget::ExistsStateCode),
            (Method::Get, EntityTail::Item(id)) => Some(RouteTarget::GetState(id)),
            (Method::Put, EntityTail::Item(id)) => Some(RouteTarget::UpdateState(id)),
            _ => None,
        };
    }
    None
}

/// What the composed pipeline decides for one request: answer right away
/// (no route, or the guard said no), or run the matched handler with the
/// claims the guard decoded.
pub enum DispatchPlan {
    Respond(HttpReply),
    Run(RouteTarget, Option<Claims>),
}

/// The composed request pipeline: the route table wrapped by the guard.
/// The request log wraps this whole composition from outside, so rejected
/// and unmatched requests are logged like any other.
pub struct Dispatcher {
    pub guard: JwtMiddlewareService,
}

impl Dispatcher {
    /// Decides one request: an unmatched route answers 404 untouched by
    /// the guard; a matched route passes the guard or is answered with the
    /// guard's 401; a passed request reaches its handler with the decoded
    /// claims attached, and only then.
    pub fn plan_request(&self, m: Method, path: &str, auth_header: Option<&str>) -> (r:
        DispatchPlan)
        ensures
            route_spec(m, path@) is None ==> (r matches DispatchPlan::Respond(rep) && rep.status
                == 404 && rep.body@ == json_error_body("Url Not found"@)),
            route_spec(m, path@) is Some && in_allow_list(self.guard.allow_view(), path@) ==> (
            r matches DispatchPlan::Run(t, c) && c is None && Some(t@) == route_spec(m, path@)),
            route_spec(m, path@) is Some && !in_allow_list(self.guard.allow_view(), path@)
                && bearer_of(opt_header_view(auth_header)) is None ==> (r matches
                DispatchPlan::Respond(rep) && rep.status == 401 && rep.body@ == json_error_body(
                "no access to endpoint"@,
            )),
            route_spec(m, path@) is Some && !in_allow_list(self.guard.allow_view(), path@) ==> (
            (bearer_of(opt_header_view(auth_header)) matches Some(tok) && jwt_claims_of(
                tok,
                self.guard.jwt_secret@,
            ) is None) ==> (r matches DispatchPlan::Respond(rep) && rep.status == 401 && rep.body@
                == json_error_body("invalid token"@))),
            r matches DispatchPlan::Run(t, _) ==> Some(t@) == route_spec(m, path@),
            r matches DispatchPlan::Run(t, c) ==> (c matches Some(claims) ==> (bearer_of(
                opt_header_view(auth_header),
            ) matches Some(tok) && jwt_claims_of(tok, self.guard.jwt_secret@) == Some(claims@))),
    {
        let target = match match_route(m, path) {
            None => {
                return DispatchPlan::Respond(error_reply(404, "Url Not found"));
            },
            Some(t) => t,
        };
        match self.guard.check_request(path, auth_header) {
            GuardVerdict::Rejected(e) => DispatchPlan::Respond(rejection_reply(&e)),
            GuardVerdict::Authorized(c) => DispatchPlan::Run(target, c),
        }
    }
}

} // verus!
