use precise_api::audit::{KindTransaction, ReasonRequestSchema, audit_reason_for};
use precise_api::city::{
    CitySchema, InsertCitySchema, exists_cities_code, exists_cities_name, get_city, insert_city,
    update_city, validate_city_code,
};
use precise_api::country::{
    CountrySchema, InsertCountrySchema, UpdateCountrySchema, create_country, exists_country_name,
    get_all_countries, get_country, validate_country_code, validate_country_id,
};
use precise_api::response::ApiResponse;
use precise_api::state::{
    StatesSchema, get_all_states, get_state, validate_state_code, validate_state_id,
};
use precise_api::store::{ExecResult, StoreError};

fn country_row() -> CountrySchema {
    CountrySchema {
        country_id: 5,
        country_code: "DEU".to_string(),
        country_name: "Germany".to_string(),
        created_on: Some(1_700_000_000),
        created_by: "seed".to_string(),
        updated_on: None,
        updated_by: None,
    }
}

fn state_row() -> StatesSchema {
    StatesSchema {
        state_id: 3,
        state_code: "BAV".to_string(),
        state_name: "Bavaria".to_string(),
        country_id: 5,
        country_name: "Germany".to_string(),
        created_on: None,
        created_by: "seed".to_string(),
        updated_on: None,
        updated_by: None,
    }
}

#[test]
fn envelope_constructors_fill_the_fields() {
    let ok = ApiResponse::success("Data retrieved successfully", 7u8);
    assert_eq!(ok.status, 200);
    assert_eq!(ok.message, "Data retrieved successfully");
    assert_eq!(ok.data, Some(7u8));
    let err: ApiResponse<u8> = ApiResponse::error(500, "Failed to fetch data");
    assert_eq!(err.status, 500);
    assert_eq!(err.message, "Failed to fetch data");
    assert_eq!(err.data, None);
}

#[test]
fn insert_country_form_names_the_first_failing_rule() {
    let mut form = InsertCountrySchema {
        country_code: "DE".to_string(),
        country_name: "Germany".to_string(),
        created_by: Some("seed".to_string()),
    };
    assert_eq!(form.validate(), Err("country code must be at least 3 characters"));
    form.country_code = "DEU".to_string();
    form.country_name = "De".to_string();
    assert_eq!(form.validate(), Err("country name must be at least 3 characters"));
    form.country_name = "Germany".to_string();
    form.created_by = None;
    assert_eq!(form.validate(), Err("created_by is required"));
    form.created_by = Some("seed".to_string());
    assert!(form.validate().is_ok());
}

#[test]
fn update_country_form_requires_actor_and_reason() {
    let mut form = UpdateCountrySchema {
        country_code: "DEU".to_string(),
        country_name: "Germany".to_string(),
        updated_by: None,
        reason: Some("why".to_string()),
    };
    assert_eq!(form.validate(), Err("updated_by is required"));
    form.updated_by = Some("clerk".to_string());
    form.reason = None;
    assert_eq!(form.validate(), Err("reason is required"));
    form.reason = Some("why".to_string());
    assert!(form.validate().is_ok());
}

#[test]
fn insert_city_form_names_the_first_failing_rule() {
    let mut form = InsertCitySchema {
        city_code: "MU".to_string(),
        city_name: "Munich".to_string(),
        state_id: Some(3),
        created_by: Some("seed".to_string()),
    };
    assert_eq!(form.validate(), Err("city code must be at least 3 characters"));
    form.city_code = "MUC".to_string();
    form.state_id = None;
    assert_eq!(form.validate(), Err("state_id is required"));
    form.state_id = Some(3);
    assert!(form.validate().is_ok());
}

#[test]
fn reads_map_each_store_outcome() {
    let reply = get_all_countries(Ok(vec![country_row()]));
    assert_eq!(reply.status, 200);
    assert_eq!(reply.message, "Data retrieved successfully");
    assert_eq!(reply.data.as_ref().map(Vec::len), Some(1));
    let reply = get_all_countries(Err(StoreError));
    assert_eq!(reply.status, 500);
    assert_eq!(reply.message, "Failed to fetch data");
    let reply = get_country(Ok(Some(country_row())));
    assert_eq!(reply.status, 200);
    assert_eq!(reply.data.map(|c| c.country_code), Some("DEU".to_string()));
}

#[test]
fn single_row_reads_answer_not_found_for_an_absent_id() {
    let reply = get_country(Ok(None));
    assert_eq!(reply.status, 404);
    assert_eq!(reply.message, "Data not found");
    assert!(reply.data.is_none());
    let reply = get_country(Err(StoreError));
    assert_eq!(reply.status, 500);
    assert_eq!(reply.message, "Failed to fetch data");

    let reply = get_state(Ok(Some(state_row())));
    assert_eq!(reply.status, 200);
    assert_eq!(reply.message, "Data found");
    let reply = get_state(Ok(None));
    assert_eq!(reply.status, 404);
    assert_eq!(reply.message, "Data not found");

    let city = CitySchema {
        city_id: 9,
        city_code: "MUC".to_string(),
        city_name: "Munich".to_string(),
        state_id: 3,
    };
    let reply = get_city(Ok(Some(city)));
    assert_eq!(reply.status, 200);
    assert_eq!(reply.data.map(|c| c.city_code), Some("MUC".to_string()));
    let reply = get_city(Ok(None));
    assert_eq!(reply.status, 404);
    assert_eq!(reply.message, "Data not found");
}

#[test]
fn state_reads_say_whether_anything_was_found() {
    let reply = get_all_states(Ok(vec![state_row()]));
    assert_eq!(reply.message, "Data found");
    let reply = get_all_states(Ok(Vec::new()));
    assert_eq!(reply.message, "Data not found");
    assert_eq!(reply.data.map(|rows| rows.len()), Some(0));
    let reply = get_all_states(Err(StoreError));
    assert_eq!(reply.status, 500);
}

#[test]
fn create_country_confirms_with_the_body() {
    let form = InsertCountrySchema {
        country_code: "DEU".to_string(),
        country_name: "Germany".to_string(),
        created_by: Some("seed".to_string()),
    };
    let reply = create_country(form, Ok(()));
    assert_eq!(reply.status, 200);
    assert_eq!(reply.message, "Data inserted successfully");
    assert_eq!(reply.data.map(|f| f.country_code), Some("DEU".to_string()));
}

#[test]
fn existence_probes_report_presence() {
    let reply = exists_country_name(Ok(1));
    assert_eq!(reply.message, "Data exists");
    assert_eq!(reply.data, Some(1));
    let reply = exists_country_name(Ok(0));
    assert_eq!(reply.message, "Data not exists");
    let reply = exists_country_name(Err(StoreError));
    assert_eq!(reply.status, 500);

    let reply = exists_cities_name(Ok(1));
    assert_eq!(reply.data, Some(true));
    let reply = exists_cities_code(Ok(0));
    assert_eq!(reply.data, Some(false));
}

#[test]
fn city_writes_report_the_assigned_id_or_the_miss() {
    let reply = insert_city(Ok(ExecResult { rows_affected: 1, last_insert_id: 99 }));
    assert_eq!(reply.status, 200);
    assert_eq!(reply.data, Some(99));
    let reply = insert_city(Err(StoreError));
    assert_eq!(reply.message, "Failed to insert data");

    let reply = update_city(Ok(ExecResult { rows_affected: 0, last_insert_id: 0 }));
    assert_eq!(reply.status, 404);
    assert_eq!(reply.message, "Data not found");
    let reply = update_city(Ok(ExecResult { rows_affected: 1, last_insert_id: 12 }));
    assert_eq!(reply.status, 200);
    assert_eq!(reply.message, "Data updated successfully");
    let reply = update_city(Err(StoreError));
    assert_eq!(reply.status, 500);
    assert_eq!(reply.message, "Failed to update data");
}

#[test]
fn store_side_checks_judge_the_counts() {
    assert!(validate_country_id(Ok(1)).is_ok());
    assert_eq!(validate_country_id(Ok(0)), Err("Country ID not found"));
    assert_eq!(validate_country_id(Err(StoreError)), Err("Country ID not found"));
    assert!(validate_country_code(Ok(0)).is_ok());
    assert_eq!(validate_country_code(Ok(2)), Err("Country Code already exists"));
    assert!(validate_state_id(Ok(4)).is_ok());
    assert_eq!(validate_state_id(Ok(0)), Err("State ID not found"));
    assert!(validate_state_code(Ok(0)).is_ok());
    assert_eq!(validate_state_code(Ok(1)), Err("State code already exists"));
    assert!(validate_city_code(Ok(0)).is_ok());
    assert_eq!(validate_city_code(Ok(1)), Err("City Code already exists"));
    assert_eq!(validate_city_code(Err(StoreError)), Err("City Code already exists"));
}

#[test]
fn audit_reason_names_the_actor_by_kind() {
    let schema = ReasonRequestSchema {
        reason: "boundary change".to_string(),
        updated_by: Some("clerk".to_string()),
        deleted_by: Some("admin".to_string()),
    };
    let record = audit_reason_for(KindTransaction::Update, &schema);
    assert_eq!(record.acting_user, Some("clerk".to_string()));
    assert_eq!(record.reason_text, "boundary change");
    let record = audit_reason_for(KindTransaction::Delete, &schema);
    assert_eq!(record.acting_user, Some("admin".to_string()));

    let empty = ReasonRequestSchema {
        reason: String::new(),
        updated_by: None,
        deleted_by: None,
    };
    assert_eq!(empty.validate(), Err("You should provide a reason"));
    assert!(schema.validate().is_ok());
}
