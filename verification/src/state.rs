//! State master data: the row and request shapes, the field checks, and
//! the response each handler gives for each store outcome. The update
//! handler runs the update-with-reason workflow and answers by its
//! terminal phase.
use vstd::prelude::*;

use crate::response::ApiResponse;
use crate::store::StoreError;
use crate::txn::MutationError;
use crate::txn::MutationPhase;
use crate::txn::mutation_error_response;

verus! {

/// A state row joined with its country's name; the two instants are
/// seconds since the Unix epoch.
pub struct StatesSchema {
    pub state_id: u8,
    pub state_code: String,
    pub state_name: String,
    pub country_id: u8,
    pub country_name: String,
    pub created_on: Option<i64>,
    pub created_by: String,
    pub updated_on: Option<i64>,
    pub updated_by: Option<String>,
}

/// The body of a state-creating request.
pub struct InsertStatesSchema {
    pub state_code: String,
    pub state_name: String,
    pub country_id: u8,
    pub created_by: Option<String>,
}

/// The body of a state-updating request.
pub struct UpdateStatesSchema {
    pub state_code: String,
    pub state_name: String,
    pub country_id: u8,
    pub updated_by: String,
}

/// The query string of a name-existence check.
pub struct StateNameQuery {
    pub state_name: String,
}

/// The query string of a code-existence check.
pub struct StateCodeQuery {
    pub state_code: String,
}

/// The reply for the whole-table read; the message says whether anything
/// was found.
pub fn get_all_states(fetched: Result<Vec<StatesSchema>, StoreError>) -> (r: ApiResponse<
    Vec<StatesSchema>,
>)
    ensures
        fetched matches Ok(rows) ==> (if rows@.len() > 0 {
            r.status == 200 && r.message@ == "Data found"@ && r.data == Some(rows)
        } else {
            r.status == 200 && r.message@ == "Data not found"@ && r.data == Some(rows)
        }),
        fetched is Err ==> r.status == 500 && r.message@ == "Failed to fetch data"@ && r.data
            is None,
{
    match fetched {
        Ok(rows) => if rows.len() > 0 {
            ApiResponse::success("Data found", rows)
        } else {
            ApiResponse::success("Data not found", rows)
        },
        Err(_) => ApiResponse::error(500, "Failed to fetch data"),
    }
}

/// The reply for the single-row read: the row when the id names one, 404
/// when the lookup finds none, 500 only for a genuine store failure.
pub fn get_state(fetched: Result<Option<StatesSchema>, StoreError>) -> (r: ApiResponse<
    StatesSchema,
>)
    ensures
        fetched matches Ok(Some(row)) ==> r.status == 200 && r.message@ == "Data found"@
            && r.data == Some(row),
        fetched matches Ok(row) ==> (row is None ==> r.status == 404 && r.message@
            == "Data not found"@ && r.data is None),
        fetched is Err ==> r.status == 500 && r.message@ == "Failed to fetch data"@ && r.data
            is None,
{
    match fetched {
        Ok(Some(row)) => ApiResponse::success("Data found", row),
        Ok(None) => ApiResponse::error(404, "Data not found"),
        Err(_) => ApiResponse::error(500, "Failed to fetch data"),
    }
}

/// The reply for a creating request.
pub fn create_state(state: InsertStatesSchema, inserted: Result<(), StoreError>) -> (r:
    ApiResponse<InsertStatesSchema>)
    ensures
        inserted is Ok ==> r.status == 200 && r.message@ == "Data inserted"@ && r.data == Some(
            state,
        ),
        inserted is Err ==> r.status == 500 && r.message@ == "Failed to insert data"@ && r.data
            is None,
{
    match inserted {
        Ok(_) => ApiResponse::success("Data inserted", state),
        Err(_) => ApiResponse::error(500, "Failed to insert data"),
    }
}

/// The reply for the update-with-reason run, by its terminal phase.
pub fn update_state(form: UpdateStatesSchema, phase: MutationPhase) -> (r: ApiResponse<
    UpdateStatesSchema,
>)
    requires
        phase is Committed || phase is Aborted,
    ensures
        phase is Committed ==> r.status == 200 && r.message@ == "Data updated successfully"@
            && r.data == Some(form),
        phase matches MutationPhase::Aborted(e) ==> {
            &&& r.data is None
            &&& e is UpdateFailed ==> r.status == 500 && r.message@ == "Failed to update data"@
            &&& e is NotFound ==> r.status == 404 && r.message@ == "Data not found"@
            &&& e is CommitFailed ==> r.status == 500 && r.message@
                == "Failed to commit transaction"@
        },
{
    match phase {
        MutationPhase::Committed => ApiResponse::success("Data updated successfully", form),
        MutationPhase::Aborted(e) => mutation_error_response(e),
        _ => mutation_error_response(MutationError::UpdateFailed),
    }
}

/// The reply for an existence probe; the store answers `1` for present.
pub fn exists_state_name(fetched: Result<i64, StoreError>) -> (r: ApiResponse<i64>)
    ensures
        fetched matches Ok(v) ==> (if v == 1 {
            r.status == 200 && r.message@ == "Data exists"@ && r.data == Some(v)
        } else {
            r.status == 200 && r.message@ == "Data not exists"@ && r.data == Some(v)
        }),
        fetched is Err ==> r.status == 500 && r.message@ == "Failed to fetch data"@ && r.data
            is None,
{
    match fetched {
        Ok(v) => if v == 1 {
            ApiResponse::success("Data exists", v)
        } else {
            ApiResponse::success("Data not exists", v)
        },
        Err(_) => ApiResponse::error(500, "Failed to fetch data"),
    }
}

/// The reply for the code-existence probe; same shape as the name probe.
pub fn exists_state_code(fetched: Result<i64, StoreError>) -> (r: ApiResponse<i64>)
    ensures
        fetched matches Ok(v) ==> (if v == 1 {
            r.status == 200 && r.message@ == "Data exists"@ && r.data == Some(v)
        } else {
            r.status == 200 && r.message@ == "Data not exists"@ && r.data == Some(v)
        }),
        fetched is Err ==> r.status == 500 && r.message@ == "Failed to fetch data"@ && r.data
            is None,
{
    exists_state_name(fetched)
}

/// Whether a state with the given id exists, from the store's row count:
/// the id must name at least one row.
pub fn validate_state_id(count: Result<i64, StoreError>) -> (r: Result<(), &'static str>)
    ensures
        r is Ok <==> (count matches Ok(c) && c > 0),
        r matches Err(m) ==> m@ == "State ID not found"@,
{
    match count {
        Ok(c) => if c > 0 {
            Ok(())
        } else {
            Err("State ID not found")
        },
        Err(_) => Err("State ID not found"),
    }
}

/// Whether a new state code is still free, from the store's row count: no
/// row may carry it yet.
pub fn validate_state_code(count: Result<i64, StoreError>) -> (r: Result<(), &'static str>)
    ensures
        r is Ok <==> (count matches Ok(c) && c == 0),
        r matches Err(m) ==> m@ == "State code already exists"@,
{
    match count {
        Ok(c) => if c == 0 {
            Ok(())
        } else {
            Err("State code already exists")
        },
        Err(_) => Err("State code already exists"),
    }
}

} // verus!
