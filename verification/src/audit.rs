//! The audit reason that precedes every mutation: who acts and why. The
//! record is written inside the mutation's own transaction (the
//! record-reason action of the mutation run), so it never survives a
//! rolled-back mutation.
use vstd::prelude::*;

verus! {

/// Which kind of mutation the reason record accompanies; it decides which
/// actor field of the request names the acting user.
#[derive(Clone, Copy, Debug, PartialEq, Eq, Structural)]
pub enum KindTransaction {
    Update,
    Delete,
}

/// The reason block every mutating request carries.
pub struct ReasonRequestSchema {
    pub reason: String,
    pub updated_by: Option<String>,
    pub deleted_by: Option<String>,
}

impl ReasonRequestSchema {
    /// A usable reason is non-empty.
    pub open spec fn valid(&self) -> bool {
        self.reason@.len() >= 1
    }

    /// Checks the reason text.
    pub fn validate(&self) -> (r: Result<(), &'static str>)
        ensures
            r is Ok <==> self.valid(),
            r matches Err(m) ==> m@ == "You should provide a reason"@,
    {
        if self.reason.as_str().is_empty() {
            Err("You should provide a reason")
        } else {
            Ok(())
        }
    }
}

/// What one audit record binds: the acting user and the justification.
/// The transaction context is the run it is recorded in.
pub struct AuditReason {
    pub acting_user: Option<String>,
    pub reason_text: String,
}

/// The parameters of the reason record for this transaction kind: an
/// update names `updated_by` as the actor, a delete names `deleted_by`;
/// the justification is the request's reason text either way.
pub fn audit_reason_for(kind: KindTransaction, schema: &ReasonRequestSchema) -> (r: AuditReason)
    ensures
        kind is Update ==> r.acting_user == schema.updated_by,
        kind is Delete ==> r.acting_user == schema.deleted_by,
        r.reason_text == schema.reason,
{
    let acting_user = match kind {
        KindTransaction::Update => match &schema.updated_by {
            Some(s) => Some(s.clone()),
            None => None,
        },
        KindTransaction::Delete => match &schema.deleted_by {
            Some(s) => Some(s.clone()),
            None => None,
        },
    };
    AuditReason { acting_user, reason_text: schema.reason.clone() }
}

} // verus!
