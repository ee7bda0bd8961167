//! The update-with-reason workflow: one transaction carries first the
//! audit-reason write and then the domain mutation, committed together or
//! rolled back together. The store acts; this module decides. Each store
//! outcome comes back as a `StoreEvent`, the machine answers with the next
//! `StoreAction`, and a spec-level store model shows that the two writes
//! land all-or-nothing.
use vstd::prelude::*;

use crate::response::ApiResponse;

verus! {

/// Why a mutation run ended without a committed change.
#[derive(Clone, Copy, Debug, PartialEq, Eq, Structural)]
pub enum MutationError {
    /// The transaction could not be opened, the reason write failed, or
    /// the mutation itself failed: one uniform surface for all three.
    UpdateFailed,
    /// The mutation touched zero rows: no entity under the given id.
    NotFound,
    /// The final commit failed; reported apart, since the data's state is
    /// then in the store's hands.
    CommitFailed,
}

/// What the store reported back for the action last asked of it.
#[derive(Clone, Copy, Debug, PartialEq, Eq, Structural)]
pub enum StoreEvent {
    BeginOk,
    BeginFailed,
    ReasonOk,
    ReasonFailed,
    /// The mutation ran; the payload is the number of rows it touched.
    MutationOk(u64),
    MutationFailed,
    CommitOk,
    CommitFailed,
    /// The rollback was attempted; its own failure is not distinguished.
    RolledBack,
}

/// What the machine asks of the store next.
#[derive(Clone, Copy, Debug, PartialEq, Eq, Structural)]
pub enum StoreAction {
    /// Write the audit reason inside the open transaction.
    RecordReason,
    /// Run the domain mutation inside the same transaction.
    RunMutation,
    Commit,
    Rollback,
    /// The run is over; nothing more to do.
    Finish,
}

/// Where a mutation run stands.
#[derive(Clone, Copy, Debug, PartialEq, Eq, Structural)]
pub enum MutationPhase {
    /// Waiting for the transaction handle.
    BeginPending,
    /// Transaction open; the audit-reason write is outstanding.
    ReasonPending,
    /// Reason recorded; the domain mutation is outstanding.
    MutationPending,
    /// Both writes done; the commit is outstanding.
    CommitPending,
    /// Aborting; the rollback is outstanding.
    RollbackPending(MutationError),
    /// The run committed.
    Committed,
    /// The run ended without a commit.
    Aborted(MutationError),
}

/// Which events the store can answer with in each phase.
pub open spec fn event_fits(phase: MutationPhase, ev: StoreEvent) -> bool {
    match phase {
        MutationPhase::BeginPending => ev is BeginOk || ev is BeginFailed,
        MutationPhase::ReasonPending => ev is ReasonOk || ev is ReasonFailed,
        MutationPhase::MutationPending => ev is MutationOk || ev is MutationFailed,
        MutationPhase::CommitPending => ev is CommitOk || ev is CommitFailed,
        MutationPhase::RollbackPending(_) => ev is RolledBack,
        MutationPhase::Committed => false,
        MutationPhase::Aborted(_) => false,
    }
}

/// The transition function: from the current phase and the store's event
/// to the next phase and the next action.
pub open spec fn step_spec(phase: MutationPhase, ev: StoreEvent) -> (MutationPhase, StoreAction) {
    match (phase, ev) {
        (MutationPhase::BeginPending, StoreEvent::BeginOk) => (
            MutationPhase::ReasonPending,
            StoreAction::RecordReason,
        ),
        (MutationPhase::BeginPending, _) => (
            MutationPhase::Aborted(MutationError::UpdateFailed),
            StoreAction::Finish,
        ),
        (MutationPhase::ReasonPending, StoreEvent::ReasonOk) => (
            MutationPhase::MutationPending,
            StoreAction::RunMutation,
        ),
        (MutationPhase::ReasonPending, _) => (
            MutationPhase::RollbackPending(MutationError::UpdateFailed),
            StoreAction::Rollback,
        ),
        (MutationPhase::MutationPending, StoreEvent::MutationOk(rows)) => if rows == 0 {
            (MutationPhase::RollbackPending(MutationError::NotFound), StoreAction::Rollback)
        } else {
            (MutationPhase::CommitPending, StoreAction::Commit)
        },
        (MutationPhase::MutationPending, _) => (
            MutationPhase::RollbackPending(MutationError::UpdateFailed),
            StoreAction::Rollback,
        ),
        (MutationPhase::CommitPending, StoreEvent::CommitOk) => (
            MutationPhase::Committed,
            StoreAction::Finish,
        ),
        (MutationPhase::CommitPending, _) => (
            MutationPhase::Aborted(MutationError::CommitFailed),
            StoreAction::Finish,
        ),
        (MutationPhase::RollbackPending(e), _) => (MutationPhase::Aborted(e), StoreAction::Finish),
        (MutationPhase::Committed, _) => (phase, StoreAction::Finish),
        (MutationPhase::Aborted(_), _) => (phase, StoreAction::Finish),
    }
}

/// One update-with-reason run. The caller opens the run, then hands every
/// store outcome to `step` and performs the action it returns, until
/// `is_done`.
pub struct TransactionalMutation {
    pub phase: MutationPhase,
}

impl TransactionalMutation {
    /// A fresh run, waiting for its transaction handle.
    pub fn new() -> (r: Self)
        ensures
            r.phase == MutationPhase::BeginPending,
    {
        TransactionalMutation { phase: MutationPhase::BeginPending }
    }

    /// Feeds the store's outcome in; answers with the next action.
    pub fn step(&mut self, ev: StoreEvent) -> (action: StoreAction)
        requires
            event_fits(old(self).phase, ev),
        ensures
            (final(self).phase, action) == step_spec(old(self).phase, ev),
    {
        let (next, action) = match (self.phase, ev) {
            (MutationPhase::BeginPending, StoreEvent::BeginOk) => (
                MutationPhase::ReasonPending,
                StoreAction::RecordReason,
            ),
            (MutationPhase::BeginPending, _) => (
                MutationPhase::Aborted(MutationError::UpdateFailed),
                StoreAction::Finish,
            ),
            (MutationPhase::ReasonPending, StoreEvent::ReasonOk) => (
                MutationPhase::MutationPending,
                StoreAction::RunMutation,
            ),
            (MutationPhase::ReasonPending, _) => (
                MutationPhase::RollbackPending(MutationError::UpdateFailed),
                StoreAction::Rollback,
            ),
            (MutationPhase::MutationPending, StoreEvent::MutationOk(rows)) => if rows == 0 {
                (MutationPhase::RollbackPending(MutationError::NotFound), StoreAction::Rollback)
            } else {
                (MutationPhase::CommitPending, StoreAction::Commit)
            },
            (MutationPhase::MutationPending, _) => (
                MutationPhase::RollbackPending(MutationError::UpdateFailed),
                StoreAction::Rollback,
            ),
            (MutationPhase::CommitPending, StoreEvent::CommitOk) => (
                MutationPhase::Committed,
                StoreAction::Finish,
            ),
            (MutationPhase::CommitPending, _) => (
                MutationPhase::Aborted(MutationError::CommitFailed),
                StoreAction::Finish,
            ),
            (MutationPhase::RollbackPending(e), _) => (
                MutationPhase::Aborted(e),
                StoreAction::Finish,
            ),
            (MutationPhase::Committed, _) => (self.phase, StoreAction::Finish),
            (MutationPhase::Aborted(_), _) => (self.phase, StoreAction::Finish),
        };
        self.phase = next;
        action
    }

    /// Whether the run has ended, in commit or abort.
    pub fn is_done(&self) -> (r: bool)
        ensures
            r == (self.phase is Committed || self.phase is Aborted),
    {
        match self.phase {
            MutationPhase::Committed => true,
            MutationPhase::Aborted(_) => true,
            _ => false,
        }
    }
}

/// A spec-level model of the store as one run sees it: writes made inside
/// the open transaction are pending, a commit makes every pending write
/// durable at once, a rollback or failed commit discards them all.
pub struct StoreModel {
    pub committed_reasons: nat,
    pub committed_mutations: nat,
    pub pending_reasons: nat,
    pub pending_mutations: nat,
}

/// How one store event changes the store, given the phase that asked for
/// the work it answers.
pub open spec fn store_after(s: StoreModel, phase: MutationPhase, ev: StoreEvent) -> StoreModel {
    match (phase, ev) {
        (MutationPhase::ReasonPending, StoreEvent::ReasonOk) => StoreModel {
            pending_reasons: s.pending_reasons + 1,
            ..s
        },
        (MutationPhase::MutationPending, StoreEvent::MutationOk(rows)) => if rows == 0 {
            s
        } else {
            StoreModel { pending_mutations: s.pending_mutations + 1, ..s }
        },
        (MutationPhase::CommitPending, StoreEvent::CommitOk) => StoreModel {
            committed_reasons: s.committed_reasons + s.pending_reasons,
            committed_mutations: s.committed_mutations + s.pending_mutations,
            pending_reasons: 0,
            pending_mutations: 0,
        },
        (MutationPhase::CommitPending, StoreEvent::CommitFailed) => StoreModel {
            pending_reasons: 0,
            pending_mutations: 0,
            ..s
        },
        (MutationPhase::RollbackPending(_), StoreEvent::RolledBack) => StoreModel {
            pending_reasons: 0,
            pending_mutations: 0,
            ..s
        },
        _ => s,
    }
}

/// The phase a run reaches after the given events.
pub open spec fn run_phase(phase: MutationPhase, evs: Seq<StoreEvent>) -> MutationPhase
    decreases evs.len(),
{
    if evs.len() == 0 {
        phase
    } else {
        run_phase(step_spec(phase, evs[0]).0, evs.drop_first())
    }
}

/// The store a run leaves behind after the given events.
pub open spec fn run_store(phase: MutationPhase, s: StoreModel, evs: Seq<StoreEvent>) -> StoreModel
    decreases evs.len(),
{
    if evs.len() == 0 {
        s
    } else {
        run_store(step_spec(phase, evs[0]).0, store_after(s, phase, evs[0]), evs.drop_first())
    }
}

/// Whether each event answers the action its phase asked for.
pub open spec fn valid_events(phase: MutationPhase, evs: Seq<StoreEvent>) -> bool
    decreases evs.len(),
{
    evs.len() == 0 || (event_fits(phase, evs[0]) && valid_events(
        step_spec(phase, evs[0]).0,
        evs.drop_first(),
    ))
}

/// The actions a run issues for the given events. A function of the
/// events alone: the machine never reads the store, so no other request's
/// writes can steer it.
pub open spec fn actions_of(phase: MutationPhase, evs: Seq<StoreEvent>) -> Seq<StoreAction>
    decreases evs.len(),
{
    if evs.len() == 0 {
        Seq::empty()
    } else {
        seq![step_spec(phase, evs[0]).1] + actions_of(step_spec(phase, evs[0]).0, evs.drop_first())
    }
}

/// What each phase guarantees of the store, relative to the store `s0`
/// the run started from.
pub open spec fn run_inv(s0: StoreModel, phase: MutationPhase, s: StoreModel) -> bool {
    match phase {
        MutationPhase::BeginPending | MutationPhase::ReasonPending => {
            &&& s.committed_reasons == s0.committed_reasons
            &&& s.committed_mutations == s0.committed_mutations
            &&& s.pending_reasons == 0
            &&& s.pending_mutations == 0
        },
        MutationPhase::MutationPending => {
            &&& s.committed_reasons == s0.committed_reasons
            &&& s.committed_mutations == s0.committed_mutations
            &&& s.pending_reasons == 1
            &&& s.pending_mutations == 0
        },
        MutationPhase::CommitPending => {
            &&& s.committed_reasons == s0.committed_reasons
            &&& s.committed_mutations == s0.committed_mutations
            &&& s.pending_reasons == 1
            &&& s.pending_mutations == 1
        },
        MutationPhase::RollbackPending(_) => {
            &&& s.committed_reasons == s0.committed_reasons
            &&& s.committed_mutations == s0.committed_mutations
        },
        MutationPhase::Committed => {
            &&& s.committed_reasons == s0.committed_reasons + 1
            &&& s.committed_mutations == s0.committed_mutations + 1
            &&& s.pending_reasons == 0
            &&& s.pending_mutations == 0
        },
        MutationPhase::Aborted(_) => {
            &&& s.committed_reasons == s0.committed_reasons
            &&& s.committed_mutations == s0.committed_mutations
            &&& s.pending_reasons == 0
            &&& s.pending_mutations == 0
        },
    }
}

/// Each step of a run preserves `run_inv`.
pub proof fn lemma_run_preserves_inv(
    s0: StoreModel,
    phase: MutationPhase,
    s: StoreModel,
    evs: Seq<StoreEvent>,
)
    requires
        run_inv(s0, phase, s),
        valid_events(phase, evs),
    ensures
        run_inv(s0, run_phase(phase, evs), run_store(phase, s, evs)),
    decreases evs.len(),
{
    if evs.len() > 0 {
        let next = step_spec(phase, evs[0]).0;
        let s1 = store_after(s, phase, evs[0]);
        assert(run_inv(s0, next, s1));
        lemma_run_preserves_inv(s0, next, s1, evs.drop_first());
    }
}

/// All-or-nothing: a run that commits makes exactly one reason write and
/// one mutation durable, and a run that aborts — at whatever stage —
/// makes neither durable; either way nothing is left pending in the
/// transaction.
pub proof fn lemma_mutation_all_or_nothing(s0: StoreModel, evs: Seq<StoreEvent>)
    requires
        s0.pending_reasons == 0,
        s0.pending_mutations == 0,
        valid_events(MutationPhase::BeginPending, evs),
    ensures
        run_phase(MutationPhase::BeginPending, evs) is Committed ==> {
            let s = run_store(MutationPhase::BeginPending, s0, evs);
            &&& s.committed_reasons == s0.committed_reasons + 1
            &&& s.committed_mutations == s0.committed_mutations + 1
            &&& s.pending_reasons == 0
            &&& s.pending_mutations == 0
        },
        run_phase(MutationPhase::BeginPending, evs) is Aborted ==> {
            let s = run_store(MutationPhase::BeginPending, s0, evs);
            &&& s.committed_reasons == s0.committed_reasons
            &&& s.committed_mutations == s0.committed_mutations
            &&& s.pending_reasons == 0
            &&& s.pending_mutations == 0
        },
{
    lemma_run_preserves_inv(s0, MutationPhase::BeginPending, s0, evs);
}

/// A run that has ended takes no further events.
pub proof fn lemma_terminal_takes_no_events(p: MutationPhase, evs: Seq<StoreEvent>)
    requires
        valid_events(p, evs),
        p is Committed || p is Aborted,
    ensures
        evs.len() == 0,
        run_phase(p, evs) == p,
{
    if evs.len() > 0 {
        assert(!event_fits(p, evs[0]));
    }
}

/// A rollback, once begun, can only end in an abort.
pub proof fn lemma_rollback_ends_aborted(e: MutationError, evs: Seq<StoreEvent>)
    requires
        valid_events(MutationPhase::RollbackPending(e), evs),
    ensures
        !(run_phase(MutationPhase::RollbackPending(e), evs) is Committed),
{
    let p = MutationPhase::RollbackPending(e);
    if evs.len() > 0 {
        assert(run_phase(p, evs) == run_phase(MutationPhase::Aborted(e), evs.drop_first()));
        lemma_terminal_takes_no_events(MutationPhase::Aborted(e), evs.drop_first());
    }
}

/// A committed run has exactly one shape: the transaction opens, the
/// reason write lands, the mutation touches at least one row, the commit
/// lands — and the actions issued are record-reason, run-mutation,
/// commit, finish, in that order. In particular the audit write always
/// precedes the mutation, inside the same run.
pub proof fn lemma_committed_run_shape(evs: Seq<StoreEvent>)
    requires
        valid_events(MutationPhase::BeginPending, evs),
        run_phase(MutationPhase::BeginPending, evs) is Committed,
    ensures
        evs.len() == 4,
        evs[0] is BeginOk,
        evs[1] is ReasonOk,
        evs[2] matches StoreEvent::MutationOk(rows) && rows > 0,
        evs[3] is CommitOk,
        actions_of(MutationPhase::BeginPending, evs) =~= seq![
            StoreAction::RecordReason,
            StoreAction::RunMutation,
            StoreAction::Commit,
            StoreAction::Finish,
        ],
{
    assert(evs.len() > 0);
    let r1 = evs.drop_first();
    let p1 = step_spec(MutationPhase::BeginPending, evs[0]).0;
    assert(run_phase(MutationPhase::BeginPending, evs) == run_phase(p1, r1));
    assert(valid_events(p1, r1));
    if evs[0] is BeginFailed {
        lemma_terminal_takes_no_events(p1, r1);
        assert(false);
    }
    assert(p1 == MutationPhase::ReasonPending);
    assert(r1.len() > 0);

    let r2 = r1.drop_first();
    let p2 = step_spec(p1, r1[0]).0;
    assert(run_phase(p1, r1) == run_phase(p2, r2));
    assert(valid_events(p2, r2));
    if r1[0] is ReasonFailed {
        lemma_rollback_ends_aborted(MutationError::UpdateFailed, r2);
        assert(false);
    }
    assert(p2 == MutationPhase::MutationPending);
    assert(r2.len() > 0);

    let r3 = r2.drop_first();
    let p3 = step_spec(p2, r2[0]).0;
    assert(run_phase(p2, r2) == run_phase(p3, r3));
    assert(valid_events(p3, r3));
    if r2[0] is MutationFailed {
        lemma_rollback_ends_aborted(MutationError::UpdateFailed, r3);
        assert(false);
    }
    if r2[0]->MutationOk_0 == 0 {
        lemma_rollback_ends_aborted(MutationError::NotFound, r3);
        assert(false);
    }
    assert(p3 == MutationPhase::CommitPending);
    assert(r3.len() > 0);

    let r4 = r3.drop_first();
    let p4 = step_spec(p3, r3[0]).0;
    assert(run_phase(p3, r3) == run_phase(p4, r4));
    assert(valid_events(p4, r4));
    if r3[0] is CommitFailed {
        lemma_terminal_takes_no_events(p4, r4);
        assert(false);
    }
    assert(p4 == MutationPhase::Committed);
    lemma_terminal_takes_no_events(p4, r4);

    assert(evs[1] == r1[0]);
    assert(evs[2] == r2[0]);
    assert(evs[3] == r3[0]);

    assert(actions_of(p4, r4) =~= Seq::<StoreAction>::empty());
    assert(actions_of(p3, r3) =~= seq![StoreAction::Finish] + actions_of(p4, r4));
    assert(actions_of(p2, r2) =~= seq![StoreAction::Commit] + actions_of(p3, r3));
    assert(actions_of(p1, r1) =~= seq![StoreAction::RunMutation] + actions_of(p2, r2));
    assert(actions_of(MutationPhase::BeginPending, evs) =~= seq![StoreAction::RecordReason]
        + actions_of(p1, r1));
}

/// Sequential isolation: when two update requests run one after the
/// other, the first leaves nothing pending for the second to observe, the
/// second's phases and actions are those of a run against a fresh store
/// (they are functions of its own events alone), and two committed runs
/// make exactly two reason writes and two mutations durable.
pub proof fn lemma_sequential_runs_isolated(
    s0: StoreModel,
    evs1: Seq<StoreEvent>,
    evs2: Seq<StoreEvent>,
)
    requires
        s0.pending_reasons == 0,
        s0.pending_mutations == 0,
        valid_events(MutationPhase::BeginPending, evs1),
        valid_events(MutationPhase::BeginPending, evs2),
        run_phase(MutationPhase::BeginPending, evs1) is Committed,
        run_phase(MutationPhase::BeginPending, evs2) is Committed,
    ensures
        run_store(MutationPhase::BeginPending, s0, evs1).pending_reasons == 0,
        run_store(MutationPhase::BeginPending, s0, evs1).pending_mutations == 0,
        ({
            let s2 = run_store(
                MutationPhase::BeginPending,
                run_store(MutationPhase::BeginPending, s0, evs1),
                evs2,
            );
            &&& s2.committed_reasons == s0.committed_reasons + 2
            &&& s2.committed_mutations == s0.committed_mutations + 2
            &&& s2.pending_reasons == 0
            &&& s2.pending_mutations == 0
        }),
{
    let s1 = run_store(MutationPhase::BeginPending, s0, evs1);
    lemma_mutation_all_or_nothing(s0, evs1);
    lemma_mutation_all_or_nothing(s1, evs2);
}

/// The response each terminal phase maps to: the committed run confirms,
/// each abort reason keeps its own status and message.
pub fn mutation_error_response<T>(e: MutationError) -> (r: ApiResponse<T>)
    ensures
        r.data is None,
        e is UpdateFailed ==> r.status == 500 && r.message@ == "Failed to update data"@,
        e is NotFound ==> r.status == 404 && r.message@ == "Data not found"@,
        e is CommitFailed ==> r.status == 500 && r.message@ == "Failed to commit transaction"@,
{
    match e {
        MutationError::UpdateFailed => ApiResponse::error(500, "Failed to update data"),
        MutationError::NotFound => ApiResponse::error(404, "Data not found"),
        MutationError::CommitFailed => ApiResponse::error(500, "Failed to commit transaction"),
    }
}

} // verus!
