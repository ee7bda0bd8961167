use precise_api::auth::JwtMiddleware;
use precise_api::docs::path_json_file;
use precise_api::routes::{DispatchPlan, Dispatcher, Method, RouteTarget, match_route};

#[test]
fn route_table_matches_each_endpoint() {
    assert!(matches!(
        match_route(Method::Post, "/precise/api/auth/login"),
        Some(RouteTarget::Login)
    ));
    assert!(matches!(
        match_route(Method::Get, "/precise/api/master/cities"),
        Some(RouteTarget::GetAllCities)
    ));
    assert!(matches!(
        match_route(Method::Post, "/precise/api/master/cities"),
        Some(RouteTarget::InsertCity)
    ));
    assert!(matches!(
        match_route(Method::Get, "/precise/api/master/cities/exists/name"),
        Some(RouteTarget::ExistsCitiesName)
    ));
    assert!(matches!(
        match_route(Method::Get, "/precise/api/master/cities/exists/code"),
        Some(RouteTarget::ExistsCitiesCode)
    ));
    assert!(matches!(
        match_route(Method::Get, "/precise/api/master/countries"),
        Some(RouteTarget::GetAllCountries)
    ));
    assert!(matches!(
        match_route(Method::Post, "/precise/api/master/countries"),
        Some(RouteTarget::CreateCountry)
    ));
    assert!(matches!(
        match_route(Method::Get, "/precise/api/master/countries/exists/name"),
        Some(RouteTarget::ExistsCountryName)
    ));
    assert!(matches!(
        match_route(Method::Get, "/precise/api/master/countries/exists/code"),
        Some(RouteTarget::ExistsCountryCode)
    ));
    assert!(matches!(
        match_route(Method::Get, "/precise/api/master/states"),
        Some(RouteTarget::GetAllStates)
    ));
    assert!(matches!(
        match_route(Method::Post, "/precise/api/master/states"),
        Some(RouteTarget::CreateState)
    ));
    assert!(matches!(
        match_route(Method::Get, "/precise/api/master/states/exists/name"),
        Some(RouteTarget::ExistsStateName)
    ));
    assert!(matches!(
        match_route(Method::Get, "/precise/api/master/states/exists/code"),
        Some(RouteTarget::ExistsStateCode)
    ));
}

#[test]
fn id_routes_carry_their_segment() {
    match match_route(Method::Get, "/precise/api/master/cities/12") {
        Some(RouteTarget::GetCity(id)) => assert_eq!(id, "12"),
        _ => panic!("expected the city read route"),
    }
    match match_route(Method::Put, "/precise/api/master/countries/5") {
        Some(RouteTarget::UpdateCountry(id)) => assert_eq!(id, "5"),
        _ => panic!("expected the country update route"),
    }
    match match_route(Method::Put, "/precise/api/master/states/3") {
        Some(RouteTarget::UpdateState(id)) => assert_eq!(id, "3"),
        _ => panic!("expected the state update route"),
    }
    // A single segment that is not one of the fixed sub-paths is an id.
    match match_route(Method::Get, "/precise/api/master/cities/exists") {
        Some(RouteTarget::GetCity(id)) => assert_eq!(id, "exists"),
        _ => panic!("expected an id match"),
    }
}

#[test]
fn unmatched_requests_answer_url_not_found() {
    assert!(match_route(Method::Get, "/precise/api/auth/login").is_none());
    assert!(match_route(Method::Get, "/precise/api/master/planets").is_none());
    assert!(match_route(Method::Put, "/precise/api/master/cities").is_none());
    assert!(match_route(Method::Get, "/precise/api/master/cities/1/2").is_none());
    assert!(match_route(Method::Get, "/precise/api/master/cities/").is_none());
    assert!(match_route(Method::Get, "/precise/api/master/citiesX").is_none());

    let dispatcher = Dispatcher { guard: JwtMiddleware::new("s3cr3t".to_string()).service() };
    match dispatcher.plan_request(Method::Get, "/nowhere", None) {
        DispatchPlan::Respond(reply) => {
            assert_eq!(reply.status, 404);
            assert_eq!(reply.body, "{\"status\":\"error\",\"message\":\"Url Not found\"}");
        }
        DispatchPlan::Run(..) => panic!("nothing should run for an unmatched route"),
    }
}

#[test]
fn openapi_documents_have_fixed_paths() {
    assert_eq!(path_json_file("master", "country"), "/master/openapi-country.json");
    assert_eq!(path_json_file("master", "city"), "/master/openapi-city.json");
}
