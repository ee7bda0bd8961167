//! Country master data: the row and request shapes, the field checks, and
//! the response each handler gives for each store outcome. The update
//! handler runs the update-with-reason workflow and answers by its
//! terminal phase.
use vstd::prelude::*;

use crate::response::ApiResponse;
use crate::store::StoreError;
use crate::txn::MutationError;
use crate::txn::MutationPhase;
use crate::txn::mutation_error_response;

verus! {

/// A country row as the store holds it; the two instants are seconds
/// since the Unix epoch.
pub struct CountrySchema {
    pub country_id: u8,
    pub country_code: String,
    pub country_name: String,
    pub created_on: Option<i64>,
    pub created_by: String,
    pub updated_on: Option<i64>,
    pub updated_by: Option<String>,
}

/// The body of a country-creating request.
pub struct InsertCountrySchema {
    pub country_code: String,
    pub country_name: String,
    pub created_by: Option<String>,
}

/// The body of a country-updating request; it carries the audit reason.
pub struct UpdateCountrySchema {
    pub country_code: String,
    pub country_name: String,
    pub updated_by: Option<String>,
    pub reason: Option<String>,
}

/// The query string of a name-existence check.
pub struct CountryNameQuery {
    pub country_name: String,
}

/// The query string of a code-existence check.
pub struct CountryCodeQuery {
    pub country_code: String,
}

impl InsertCountrySchema {
    /// Every field rule at once.
    pub open spec fn valid(&self) -> bool {
        &&& self.country_code@.len() >= 3
        &&& self.country_name@.len() >= 3
        &&& self.created_by is Some
    }

    /// Checks the fields; names the first failing rule.
    pub fn validate(&self) -> (r: Result<(), &'static str>)
        ensures
            r is Ok <==> self.valid(),
            self.country_code@.len() < 3 ==> (r matches Err(m) && m@
                == "country code must be at least 3 characters"@),
            self.country_code@.len() >= 3 && self.country_name@.len() < 3 ==> (r matches Err(m)
                && m@ == "country name must be at least 3 characters"@),
            self.country_code@.len() >= 3 && self.country_name@.len() >= 3 && self.created_by
                is None ==> (r matches Err(m) && m@ == "created_by is required"@),
    {
        if self.country_code.as_str().unicode_len() < 3 {
            Err("country code must be at least 3 characters")
        } else if self.country_name.as_str().unicode_len() < 3 {
            Err("country name must be at least 3 characters")
        } else if self.created_by.is_none() {
            Err("created_by is required")
        } else {
            Ok(())
        }
    }
}

impl UpdateCountrySchema {
    /// Every field rule at once.
    pub open spec fn valid(&self) -> bool {
        &&& self.country_code@.len() >= 3
        &&& self.country_name@.len() >= 3
        &&& self.updated_by is Some
        &&& self.reason is Some
    }

    /// Checks the fields; names the first failing rule.
    pub fn validate(&self) -> (r: Result<(), &'static str>)
        ensures
            r is Ok <==> self.valid(),
            self.country_code@.len() < 3 ==> (r matches Err(m) && m@
                == "country code must be at least 3 characters"@),
            self.country_code@.len() >= 3 && self.country_name@.len() < 3 ==> (r matches Err(m)
                && m@ == "country name must be at least 3 characters"@),
            self.country_code@.len() >= 3 && self.country_name@.len() >= 3 && self.updated_by
                is None ==> (r matches Err(m) && m@ == "updated_by is required"@),
            self.country_code@.len() >= 3 && self.country_name@.len() >= 3 && self.updated_by
                is Some && self.reason is None ==> (r matches Err(m) && m@
                == "reason is required"@),
    {
        if self.country_code.as_str().unicode_len() < 3 {
            Err("country code must be at least 3 characters")
        } else if self.country_name.as_str().unicode_len() < 3 {
            Err("country name must be at least 3 characters")
        } else if self.updated_by.is_none() {
            Err("updated_by is required")
        } else if self.reason.is_none() {
            Err("reason is required")
        } else {
            Ok(())
        }
    }
}

/// The reply for the whole-table read.
pub fn get_all_countries(fetched: Result<Vec<CountrySchema>, StoreError>) -> (r: ApiResponse<
    Vec<CountrySchema>,
>)
    ensures
        fetched matches Ok(rows) ==> r.status == 200 && r.message@
            == "Data retrieved successfully"@ && r.data == Some(rows),
        fetched is Err ==> r.status == 500 && r.message@ == "Failed to fetch data"@ && r.data
            is None,
{
    match fetched {
        Ok(rows) => ApiResponse::success("Data retrieved successfully", rows),
        Err(_) => ApiResponse::error(500, "Failed to fetch data"),
    }
}

/// The reply for the single-row read: the row when the id names one, 404
/// when the lookup finds none, 500 only for a genuine store failure.
pub fn get_country(fetched: Result<Option<CountrySchema>, StoreError>) -> (r: ApiResponse<CountrySchema>)
    ensures
        fetched matches Ok(Some(row)) ==> r.status == 200 && r.message@
            == "Data retrieved successfully"@ && r.data == Some(row),
        fetched matches Ok(row) ==> (row is None ==> r.status == 404 && r.message@
            == "Data not found"@ && r.data is None),
        fetched is Err ==> r.status == 500 && r.message@ == "Failed to fetch data"@ && r.data
            is None,
{
    match fetched {
        Ok(Some(row)) => ApiResponse::success("Data retrieved successfully", row),
        Ok(None) => ApiResponse::error(404, "Data not found"),
        Err(_) => ApiResponse::error(500, "Failed to fetch data"),
    }
}

/// The reply for a creating request whose fields passed `validate`; the
/// caller rejects an invalid form with HTTP 400 before any store work.
pub fn create_country(form: InsertCountrySchema, inserted: Result<(), StoreError>) -> (r:
    ApiResponse<InsertCountrySchema>)
    requires
        form.valid(),
    ensures
        inserted is Ok ==> r.status == 200 && r.message@ == "Data inserted successfully"@
            && r.data == Some(form),
        inserted is Err ==> r.status == 500 && r.message@ == "Failed to insert data"@ && r.data
            is None,
{
    match inserted {
        Ok(_) => ApiResponse::success("Data inserted successfully", form),
        Err(_) => ApiResponse::error(500, "Failed to insert data"),
    }
}

/// The reply for the update-with-reason run, by its terminal phase: the
/// committed run confirms with the updated body, and each abort reason
/// keeps its own status and message.
pub fn update_country(form: UpdateCountrySchema, phase: MutationPhase) -> (r: ApiResponse<
    UpdateCountrySchema,
>)
    requires
        phase is Committed || phase is Aborted,
    ensures
        phase is Committed ==> r.status == 200 && r.message@ == "Data updated successfully"@
            && r.data == Some(form),
        phase matches MutationPhase::Aborted(e) ==> {
            &&& r.data is None
            &&& e is UpdateFailed ==> r.status == 500 && r.message@ == "Failed to update data"@
            &&& e is NotFound ==> r.status == 404 && r.message@ == "Data not found"@
            &&& e is CommitFailed ==> r.status == 500 && r.message@
                == "Failed to commit transaction"@
        },
{
    match phase {
        MutationPhase::Committed => ApiResponse::success("Data updated successfully", form),
        MutationPhase::Aborted(e) => mutation_error_response(e),
        _ => mutation_error_response(MutationError::UpdateFailed),
    }
}

/// The reply for an existence probe; the store answers `1` for present.
pub fn exists_country_name(fetched: Result<i64, StoreError>) -> (r: ApiResponse<i64>)
    ensures
        fetched matches Ok(v) ==> (if v == 1 {
            r.status == 200 && r.message@ == "Data exists"@ && r.data == Some(v)
        } else {
            r.status == 200 && r.message@ == "Data not exists"@ && r.data == Some(v)
        }),
        fetched is Err ==> r.status == 500 && r.message@ == "Failed to fetch data"@ && r.data
            is None,
{
    match fetched {
        Ok(v) => if v == 1 {
            ApiResponse::success("Data exists", v)
        } else {
            ApiResponse::success("Data not exists", v)
        },
        Err(_) => ApiResponse::error(500, "Failed to fetch data"),
    }
}

/// The reply for the code-existence probe; same shape as the name probe.
pub fn exists_country_code(fetched: Result<i64, StoreError>) -> (r: ApiResponse<i64>)
    ensures
        fetched matches Ok(v) ==> (if v == 1 {
            r.status == 200 && r.message@ == "Data exists"@ && r.data == Some(v)
        } else {
            r.status == 200 && r.message@ == "Data not exists"@ && r.data == Some(v)
        }),
        fetched is Err ==> r.status == 500 && r.message@ == "Failed to fetch data"@ && r.data
            is None,
{
    exists_country_name(fetched)
}

/// Whether a country with the given id exists, from the store's row
/// count: the id must name at least one row.
pub fn validate_country_id(count: Result<i64, StoreError>) -> (r: Result<(), &'static str>)
    ensures
        r is Ok <==> (count matches Ok(c) && c > 0),
        r matches Err(m) ==> m@ == "Country ID not found"@,
{
    match count {
        Ok(c) => if c > 0 {
            Ok(())
        } else {
            Err("Country ID not found")
        },
        Err(_) => Err("Country ID not found"),
    }
}

/// Whether a new country code is still free, from the store's row count:
/// no row may carry it yet.
pub fn validate_country_code(count: Result<i64, StoreError>) -> (r: Result<(), &'static str>)
    ensures
        r is Ok <==> (count matches Ok(c) && c == 0),
        r matches Err(m) ==> m@ == "Country Code already exists"@,
{
    match count {
        Ok(c) => if c == 0 {
            Ok(())
        } else {
            Err("Country Code already exists")
        },
        Err(_) => Err("Country Code already exists"),
    }
}

} // verus!
