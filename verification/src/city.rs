//! City master data: the row and request shapes, the field checks, and the
//! response each handler gives for each store outcome.
use vstd::prelude::*;

use crate::response::ApiResponse;
use crate::store::ExecResult;
use crate::store::StoreError;

verus! {

/// A city row joined with its state's and country's names; the two
/// instants are seconds since the Unix epoch.
pub struct CitiesSchema {
    pub city_id: u8,
    pub city_code: String,
    pub city_name: String,
    pub state_name: String,
    pub country_name: String,
    pub created_on: Option<i64>,
    pub created_by: String,
    pub updated_on: Option<i64>,
    pub updated_by: Option<String>,
}

/// A city row on its own.
pub struct CitySchema {
    pub city_id: u8,
    pub city_code: String,
    pub city_name: String,
    pub state_id: u8,
}

/// The body of a city-creating request.
pub struct InsertCitySchema {
    pub city_code: String,
    pub city_name: String,
    pub state_id: Option<u8>,
    pub created_by: Option<String>,
}

/// The body of a city-updating request.
pub struct UpdateCitySchema {
    pub city_code: String,
    pub city_name: String,
    pub updated_by: Option<String>,
}

/// The query string of a name-existence check.
pub struct CityNameQuery {
    pub city_name: String,
}

/// The query string of a code-existence check.
pub struct CityCodeQuery {
    pub city_code: String,
}

impl InsertCitySchema {
    /// Every field rule at once.
    pub open spec fn valid(&self) -> bool {
        &&& self.city_code@.len() >= 3
        &&& self.city_name@.len() >= 3
        &&& self.state_id is Some
        &&& self.created_by is Some
    }

    /// Checks the fields; names the first failing rule.
    pub fn validate(&self) -> (r: Result<(), &'static str>)
        ensures
            r is Ok <==> self.valid(),
            self.city_code@.len() < 3 ==> (r matches Err(m) && m@
                == "city code must be at least 3 characters"@),
            self.city_code@.len() >= 3 && self.city_name@.len() < 3 ==> (r matches Err(m) && m@
                == "city name must be at least 3 characters"@),
            self.city_code@.len() >= 3 && self.city_name@.len() >= 3 && self.state_id is None
                ==> (r matches Err(m) && m@ == "state_id is required"@),
            self.city_code@.len() >= 3 && self.city_name@.len() >= 3 && self.state_id is Some
                && self.created_by is None ==> (r matches Err(m) && m@
                == "created_by is required"@),
    {
        if self.city_code.as_str().unicode_len() < 3 {
            Err("city code must be at least 3 characters")
        } else if self.city_name.as_str().unicode_len() < 3 {
            Err("city name must be at least 3 characters")
        } else if self.state_id.is_none() {
            Err("state_id is required")
        } else if self.created_by.is_none() {
            Err("created_by is required")
        } else {
            Ok(())
        }
    }
}

/// The reply for the whole-table read.
pub fn get_all_cities(fetched: Result<Vec<CitiesSchema>, StoreError>) -> (r: ApiResponse<
    Vec<CitiesSchema>,
>)
    ensures
        fetched matches Ok(rows) ==> r.status == 200 && r.message@
            == "Data retrieved successfully"@ && r.data == Some(rows),
        fetched is Err ==> r.status == 500 && r.message@ == "Failed to fetch data"@ && r.data
            is None,
{
    match fetched {
        Ok(rows) => ApiResponse::success("Data retrieved successfully", rows),
        Err(_) => ApiResponse::error(500, "Failed to fetch data"),
    }
}

/// The reply for the single-row read: the row when the id names one, 404
/// when the lookup finds none, 500 only for a genuine store failure.
pub fn get_city(fetched: Result<Option<CitySchema>, StoreError>) -> (r: ApiResponse<CitySchema>)
    ensures
        fetched matches Ok(Some(row)) ==> r.status == 200 && r.message@
            == "Data retrieved successfully"@ && r.data == Some(row),
        fetched matches Ok(row) ==> (row is None ==> r.status == 404 && r.message@
            == "Data not found"@ && r.data is None),
        fetched is Err ==> r.status == 500 && r.message@ == "Failed to fetch data"@ && r.data
            is None,
{
    match fetched {
        Ok(Some(row)) => ApiResponse::success("Data retrieved successfully", row),
        Ok(None) => ApiResponse::error(404, "Data not found"),
        Err(_) => ApiResponse::error(500, "Failed to fetch data"),
    }
}

/// The reply for an insert whose form passed `validate` and whose store
/// checks passed; the payload is the id the store assigned.
pub fn insert_city(executed: Result<ExecResult, StoreError>) -> (r: ApiResponse<u64>)
    ensures
        executed matches Ok(e) ==> r.status == 200 && r.message@ == "Data inserted successfully"@
            && r.data == Some(e.last_insert_id),
        executed is Err ==> r.status == 500 && r.message@ == "Failed to insert data"@ && r.data
            is None,
{
    match executed {
        Ok(e) => ApiResponse::success("Data inserted successfully", e.last_insert_id),
        Err(_) => ApiResponse::error(500, "Failed to insert data"),
    }
}

/// The reply for the plain city update: zero touched rows means no such
/// city.
pub fn update_city(executed: Result<ExecResult, StoreError>) -> (r: ApiResponse<u64>)
    ensures
        executed matches Ok(e) ==> (if e.rows_affected == 0 {
            r.status == 404 && r.message@ == "Data not found"@ && r.data is None
        } else {
            r.status == 200 && r.message@ == "Data updated successfully"@ && r.data == Some(
                e.last_insert_id,
            )
        }),
        executed is Err ==> r.status == 500 && r.message@ == "Failed to update data"@ && r.data
            is None,
{
    match executed {
        Ok(e) => if e.rows_affected == 0 {
            ApiResponse::error(404, "Data not found")
        } else {
            ApiResponse::success("Data updated successfully", e.last_insert_id)
        },
        Err(_) => ApiResponse::error(500, "Failed to update data"),
    }
}

/// The reply for an existence probe; the store answers `1` for present.
pub fn exists_cities_name(fetched: Result<i64, StoreError>) -> (r: ApiResponse<bool>)
    ensures
        fetched matches Ok(v) ==> (if v == 1 {
            r.status == 200 && r.message@ == "Data exists"@ && r.data == Some(true)
        } else {
            r.status == 200 && r.message@ == "Data not exists"@ && r.data == Some(false)
        }),
        fetched is Err ==> r.status == 500 && r.message@ == "Failed to fetch data"@ && r.data
            is None,
{
    match fetched {
        Ok(v) => if v == 1 {
            ApiResponse::success("Data exists", true)
        } else {
            ApiResponse::success("Data not exists", false)
        },
        Err(_) => ApiResponse::error(500, "Failed to fetch data"),
    }
}

/// The reply for the code-existence probe; same shape as the name probe.
pub fn exists_cities_code(fetched: Result<i64, StoreError>) -> (r: ApiResponse<bool>)
    ensures
        fetched matches Ok(v) ==> (if v == 1 {
            r.status == 200 && r.message@ == "Data exists"@ && r.data == Some(true)
        } else {
            r.status == 200 && r.message@ == "Data not exists"@ && r.data == Some(false)
        }),
        fetched is Err ==> r.status == 500 && r.message@ == "Failed to fetch data"@ && r.data
            is None,
{
    exists_cities_name(fetched)
}

/// Whether a new city code is still free, from the store's row count: no
/// row may carry it yet, and a failed count fails the check too.
pub fn validate_city_code(count: Result<i64, StoreError>) -> (r: Result<(), &'static str>)
    ensures
        r is Ok <==> (count matches Ok(c) && c == 0),
        r matches Err(m) ==> m@ == "City Code already exists"@,
{
    match count {
        Ok(c) => if c == 0 {
            Ok(())
        } else {
            Err("City Code already exists")
        },
        Err(_) => Err("City Code already exists"),
    }
}

} // verus!
