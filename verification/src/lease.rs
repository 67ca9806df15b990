//! Leased reconciliations: one row for each subscription, which a worker may claim, hand back or
//! settle only with the token of its own lease.

use vstd::prelude::*;

use crate::clock::Instant;
use crate::contract::{failure, RuntimeFailure};
use crate::crypto::{random_bytes, sha256, sha256_digest};
use crate::store::{out_of_range, quoted, quoted_text, StoreError, OUT_OF_RANGE};
use crate::subscription::BillingSubject;
use crate::text::{clone_text, opt_bytes, opt_text, same, same_bytes};
use crate::webhook::ReconciliationTarget;

verus! {

/// Where a reconciliation stands.
#[derive(Clone, Copy, Debug, PartialEq, Eq, Structural)]
pub enum ReconciliationState {
    Pending,
    Running,
    Converged,
}

/// The stored name of a state.
pub open spec fn state_text(state: ReconciliationState) -> Seq<char> {
    match state {
        ReconciliationState::Pending => "pending"@,
        ReconciliationState::Running => "running"@,
        ReconciliationState::Converged => "converged"@,
    }
}

/// The state that a stored name stands for.
pub open spec fn state_of(text: Seq<char>) -> Option<ReconciliationState> {
    if text == "pending"@ {
        Some(ReconciliationState::Pending)
    } else if text == "running"@ {
        Some(ReconciliationState::Running)
    } else if text == "converged"@ {
        Some(ReconciliationState::Converged)
    } else {
        None
    }
}

impl ReconciliationState {
    /// The stored name.
    pub fn as_str(self) -> (r: &'static str)
        ensures
            r@ == state_text(self),
    {
        match self {
            ReconciliationState::Pending => "pending",
            ReconciliationState::Running => "running",
            ReconciliationState::Converged => "converged",
        }
    }

    /// Reads a stored name.
    pub fn parse(value: &str) -> (r: Result<Self, StoreError>)
        ensures
            match state_of(value@) {
                Some(state) => r == Ok::<Self, StoreError>(state),
                None => r matches Err(StoreError::Invariant(message)) && message@ == quoted_text(
                    "unknown persisted Stripe reconciliation state"@,
                    value@,
                ),
            },
    {
        if same(value, "pending") {
            Ok(ReconciliationState::Pending)
        } else if same(value, "running") {
            Ok(ReconciliationState::Running)
        } else if same(value, "converged") {
            Ok(ReconciliationState::Converged)
        } else {
            Err(StoreError::Invariant(quoted("unknown persisted Stripe reconciliation state", value)))
        }
    }
}

/// Reading back the stored name of a state gives it.
pub proof fn law_stored_states_read_back(state: ReconciliationState)
    ensures
        state_of(state_text(state)) == Some(state),
{
    reveal_strlit("pending");
    reveal_strlit("running");
    reveal_strlit("converged");
    assert("pending"@.len() == 7 && "running"@.len() == 7 && "converged"@.len() == 9);
    assert("pending"@[0] == 'p' && "running"@[0] == 'r');
}

/// The reconciliation of a subscription. Its times are microseconds since the Unix epoch.
pub struct ReconciliationRow {
    pub subscription_id: String,
    pub customer_id: String,
    pub state: ReconciliationState,
    pub attempts: i64,
    pub lease_generation: i64,
    pub lease_owner: Option<String>,
    pub lease_token_hash: Option<Vec<u8>>,
    pub lease_expires_at: Option<i64>,
    pub last_failure_code: Option<String>,
    pub updated_at: i64,
}

/// A claimed reconciliation.
pub struct ReconciliationClaim {
    pub subscription_id: String,
    pub customer_id: String,
    pub token_hash: Vec<u8>,
}

/// Whether this is the digest of a lease token, if there is one.
pub open spec fn hashes(
    token: Result<Vec<u8>, String>,
    hash: Result<Vec<u8>, RuntimeFailure>,
) -> bool {
    match token {
        Ok(token) => hash is Ok && hash->Ok_0@ == sha256_digest(token@) && hash->Ok_0@.len() == 32,
        Err(detail) => hash == Err::<Vec<u8>, RuntimeFailure>(RuntimeFailure { detail }),
    }
}

/// The digest of a lease token, if there is one.
pub fn lease_hash(token: Result<Vec<u8>, String>) -> (r: Result<Vec<u8>, RuntimeFailure>)
    ensures
        hashes(token, r),
{
    match token {
        Ok(token) => Ok(sha256(token.as_slice())),
        Err(detail) => Err(failure(detail)),
    }
}

/// Draws a lease token and gives its digest. It fails where the random source does.
pub fn new_lease_hash() -> (r: Result<Vec<u8>, RuntimeFailure>)
    ensures
        r is Ok ==> r->Ok_0@.len() == 32 && exists|token: Seq<u8>|
            token.len() == 32 && r->Ok_0@ == #[trigger] sha256_digest(token),
{
    lease_hash(random_bytes(32))
}

/// What became of an attempt to change a row.
#[derive(Clone, Copy, Debug, PartialEq, Eq, Structural)]
pub enum RowChange {
    /// The row was changed.
    Changed,
    /// The change did not apply; the row is as it was.
    Unchanged,
    /// A counter or a time would leave its range; the row is as it was.
    OutOfRange,
}

/// The row that a new event leaves: pending again, and free of any lease.
pub open spec fn is_enqueued(
    existing: Option<ReconciliationRow>,
    row: ReconciliationRow,
    target: ReconciliationTarget,
    now: i64,
) -> bool {
    &&& row.subscription_id == match existing {
        Some(before) => before.subscription_id,
        None => target.subscription_id,
    }
    &&& row.customer_id == target.customer_id
    &&& row.state == ReconciliationState::Pending
    &&& row.attempts == match existing {
        Some(before) => before.attempts,
        None => 0,
    }
    &&& row.lease_generation == match existing {
        Some(before) => before.lease_generation,
        None => 0,
    }
    &&& row.lease_owner is None
    &&& row.lease_token_hash is None
    &&& row.lease_expires_at is None
    &&& row.last_failure_code is None
    &&& row.updated_at == now
}

/// Enqueues the reconciliation that an event asks for: there is one row for each subscription,
/// however many events ask.
pub fn enqueue(
    existing: Option<ReconciliationRow>,
    target: &ReconciliationTarget,
    now: i64,
) -> (r: ReconciliationRow)
    ensures
        is_enqueued(existing, r, *target, now),
{
    let (subscription_id, attempts, lease_generation) = match existing {
        Some(before) => (before.subscription_id, before.attempts, before.lease_generation),
        None => (target.subscription_id.clone(), 0, 0),
    };
    ReconciliationRow {
        subscription_id,
        customer_id: target.customer_id.clone(),
        state: ReconciliationState::Pending,
        attempts,
        lease_generation,
        lease_owner: None,
        lease_token_hash: None,
        lease_expires_at: None,
        last_failure_code: None,
        updated_at: now,
    }
}

/// Whether a reconciliation may be claimed: it is pending, or its lease has expired.
pub open spec fn claimable(row: ReconciliationRow, now: i64) -> bool {
    row.state == ReconciliationState::Pending || (row.state == ReconciliationState::Running
        && row.lease_expires_at is Some && row.lease_expires_at->0 <= now)
}

/// When a lease that begins now expires.
pub open spec fn lease_end(now: int, lease_seconds: int) -> int {
    now + lease_seconds * 1000000
}

/// Whether the counters and the expiry of a new lease are in range.
pub open spec fn lease_in_range(row: ReconciliationRow, lease_seconds: i64, now: i64) -> bool {
    row.attempts < i64::MAX && row.lease_generation < i64::MAX && i64::MIN <= lease_end(
        now as int,
        lease_seconds as int,
    ) <= i64::MAX
}

/// A row under a new lease.
pub open spec fn leased(
    row: ReconciliationRow,
    worker: String,
    token_hash: Vec<u8>,
    lease_seconds: i64,
    now: i64,
) -> ReconciliationRow {
    ReconciliationRow {
        state: ReconciliationState::Running,
        attempts: (row.attempts + 1) as i64,
        lease_generation: (row.lease_generation + 1) as i64,
        lease_owner: Some(worker),
        lease_token_hash: Some(token_hash),
        lease_expires_at: Some(lease_end(now as int, lease_seconds as int) as i64),
        updated_at: now,
        ..row
    }
}

/// What becomes of an attempt to claim a row.
pub open spec fn claim_change(row: ReconciliationRow, lease_seconds: i64, now: i64) -> RowChange {
    if !claimable(row, now) {
        RowChange::Unchanged
    } else if !lease_in_range(row, lease_seconds, now) {
        RowChange::OutOfRange
    } else {
        RowChange::Changed
    }
}

/// A row after an attempt to claim it.
pub open spec fn after_claim(
    row: ReconciliationRow,
    worker: String,
    token_hash: Vec<u8>,
    lease_seconds: i64,
    now: i64,
) -> ReconciliationRow {
    if claim_change(row, lease_seconds, now) == RowChange::Changed {
        leased(row, worker, token_hash, lease_seconds, now)
    } else {
        row
    }
}

/// Whether a row is running under the lease with this token.
pub open spec fn runs_under(row: ReconciliationRow, token_hash: Seq<u8>) -> bool {
    row.state == ReconciliationState::Running && opt_bytes(row.lease_token_hash) == Some(token_hash)
}

/// Whether the lease with this token still holds a row.
pub open spec fn still_owned(row: ReconciliationRow, token_hash: Seq<u8>, now: i64) -> bool {
    runs_under(row, token_hash) && row.lease_expires_at is Some && row.lease_expires_at->0 > now
}

/// A row that was handed back.
pub open spec fn released(row: ReconciliationRow, failure_code: String, now: i64) -> ReconciliationRow {
    ReconciliationRow {
        state: ReconciliationState::Pending,
        lease_owner: None,
        lease_token_hash: None,
        lease_expires_at: None,
        last_failure_code: Some(failure_code),
        updated_at: now,
        ..row
    }
}

/// A row after an attempt to hand it back.
pub open spec fn after_retry(
    row: ReconciliationRow,
    token_hash: Seq<u8>,
    failure_code: String,
    now: i64,
) -> ReconciliationRow {
    if runs_under(row, token_hash) {
        released(row, failure_code, now)
    } else {
        row
    }
}

/// A row that was settled.
pub open spec fn settled(row: ReconciliationRow, now: i64) -> ReconciliationRow {
    ReconciliationRow {
        state: ReconciliationState::Converged,
        lease_owner: None,
        lease_token_hash: None,
        lease_expires_at: None,
        last_failure_code: None,
        updated_at: now,
        ..row
    }
}

impl ReconciliationRow {
    /// Decides [`claimable`].
    pub fn may_be_claimed(&self, now: i64) -> (r: bool)
        ensures
            r == claimable(*self, now),
    {
        let expired = match self.lease_expires_at {
            Some(expires_at) => expires_at <= now,
            None => false,
        };
        self.state == ReconciliationState::Pending || (self.state == ReconciliationState::Running
            && expired)
    }

    /// Claims a row for a worker under a new lease.
    pub fn claim(&mut self, worker: String, token_hash: Vec<u8>, lease_seconds: i64, now: i64) -> (r:
        RowChange)
        ensures
            r == claim_change(*old(self), lease_seconds, now),
            *final(self) == after_claim(*old(self), worker, token_hash, lease_seconds, now),
    {
        if !self.may_be_claimed(now) {
            return RowChange::Unchanged;
        }
        let end: i128 = now as i128 + lease_seconds as i128 * 1000000;
        if self.attempts == i64::MAX || self.lease_generation == i64::MAX || end < i64::MIN as i128
            || end > i64::MAX as i128 {
            return RowChange::OutOfRange;
        }
        self.state = ReconciliationState::Running;
        self.attempts = self.attempts + 1;
        self.lease_generation = self.lease_generation + 1;
        self.lease_owner = Some(worker);
        self.lease_token_hash = Some(token_hash);
        self.lease_expires_at = Some(end as i64);
        self.updated_at = now;
        RowChange::Changed
    }

    fn under_token(&self, token_hash: &[u8]) -> (r: bool)
        ensures
            r == runs_under(*self, token_hash@),
    {
        let matches = match &self.lease_token_hash {
            Some(stored) => same_bytes(stored.as_slice(), token_hash),
            None => false,
        };
        self.state == ReconciliationState::Running && matches
    }

    /// Hands a row back with a failure code, if the lease with this token still runs, expired or
    /// not.
    pub fn retry(&mut self, token_hash: &[u8], failure_code: String, now: i64) -> (r: bool)
        ensures
            r == runs_under(*old(self), token_hash@),
            *final(self) == after_retry(*old(self), token_hash@, failure_code, now),
    {
        if !self.under_token(token_hash) {
            return false;
        }
        self.state = ReconciliationState::Pending;
        self.lease_owner = None;
        self.lease_token_hash = None;
        self.lease_expires_at = None;
        self.last_failure_code = Some(failure_code);
        self.updated_at = now;
        true
    }

    /// Decides whether the lease with this token still holds.
    pub fn owned(&self, token_hash: &[u8], now: i64) -> (r: bool)
        ensures
            r == still_owned(*self, token_hash@, now),
    {
        let current = match self.lease_expires_at {
            Some(expires_at) => expires_at > now,
            None => false,
        };
        self.under_token(token_hash) && current
    }
}

/// Whether the row at `i` is the one to be claimed next: it may be claimed, and of those that may
/// it has waited longest; of rows that have waited equally long it is the first.
pub open spec fn is_next_claimable(rows: Seq<ReconciliationRow>, now: i64, i: int) -> bool {
    &&& 0 <= i < rows.len()
    &&& claimable(rows[i], now)
    &&& forall|j: int|
        0 <= j < rows.len() && claimable(#[trigger] rows[j], now) ==> rows[i].updated_at
            <= rows[j].updated_at && (rows[i].updated_at == rows[j].updated_at ==> i <= j)
}

/// Whether no row may be claimed.
pub open spec fn none_claimable(rows: Seq<ReconciliationRow>, now: i64) -> bool {
    forall|j: int| 0 <= j < rows.len() ==> !claimable(#[trigger] rows[j], now)
}

/// Finds the row to be claimed next.
pub fn next_claimable(rows: &Vec<ReconciliationRow>, now: i64) -> (r: Option<usize>)
    ensures
        match r {
            Some(i) => is_next_claimable(rows@, now, i as int),
            None => none_claimable(rows@, now),
        },
{
    let mut found: Option<usize> = None;
    let mut i: usize = 0;
    while i < rows.len()
        invariant
            i <= rows@.len(),
            match found {
                Some(next) => next < i && is_next_claimable(rows@.take(i as int), now, next as int),
                None => none_claimable(rows@.take(i as int), now),
            },
        decreases rows@.len() - i,
    {
        let ghost seen = rows@.take(i as int);
        let ghost more = rows@.take(i + 1);
        assert(forall|j: int| 0 <= j < i ==> #[trigger] more[j] == seen[j]);
        assert(more[i as int] == rows@[i as int]);
        if rows[i].may_be_claimed(now) {
            match found {
                Some(next) => {
                    assert(more[next as int] == seen[next as int]);
                    if rows[i].updated_at < rows[next].updated_at {
                        found = Some(i);
                    }
                },
                None => {
                    found = Some(i);
                },
            }
        }
        i += 1;
    }
    assert(rows@.take(i as int) == rows@);
    found
}

/// Whether a claim is one of this row under this token.
pub open spec fn is_claim_of(
    claim: ReconciliationClaim,
    row: ReconciliationRow,
    token_hash: Seq<u8>,
) -> bool {
    &&& claim.subscription_id == row.subscription_id
    &&& claim.customer_id == row.customer_id
    &&& claim.token_hash@ == token_hash
}

/// Whether a claim, or that there is none, is what these rows give, and what it does to them.
pub open spec fn claims(
    before: Seq<ReconciliationRow>,
    after: Seq<ReconciliationRow>,
    worker: String,
    token_hash: Vec<u8>,
    lease_seconds: i64,
    now: i64,
    claimed: Result<Option<ReconciliationClaim>, StoreError>,
) -> bool {
    match claimed {
        Ok(None) => none_claimable(before, now) && after == before,
        Ok(Some(claim)) => exists|i: int|
            {
                &&& #[trigger] is_next_claimable(before, now, i)
                &&& lease_in_range(before[i], lease_seconds, now)
                &&& is_claim_of(claim, before[i], token_hash@)
                &&& after == before.update(
                    i,
                    leased(before[i], worker, token_hash, lease_seconds, now),
                )
            },
        Err(error) => {
            &&& exists|i: int| #[trigger]
                is_next_claimable(before, now, i) && !lease_in_range(before[i], lease_seconds, now)
            &&& error matches StoreError::Database(detail) && detail@ == OUT_OF_RANGE@
            &&& after == before
        },
    }
}

/// Claims, for a worker and under a new lease, the row that has waited longest. No other row
/// changes, and none does where a counter or the lease's end would leave its range.
pub fn claim_reconciliation(
    rows: &mut Vec<ReconciliationRow>,
    worker: String,
    token_hash: Vec<u8>,
    lease_seconds: i64,
    now: i64,
) -> (r: Result<Option<ReconciliationClaim>, StoreError>)
    ensures
        claims(old(rows)@, final(rows)@, worker, token_hash, lease_seconds, now, r),
{
    let i = match next_claimable(rows, now) {
        Some(i) => i,
        None => return Ok(None),
    };
    assert(is_next_claimable(rows@, now, i as int));
    let ghost before = rows@;
    let claim = ReconciliationClaim {
        subscription_id: rows[i].subscription_id.clone(),
        customer_id: rows[i].customer_id.clone(),
        token_hash: token_hash.clone(),
    };
    assert(claim.token_hash@ == token_hash@);
    let row = &mut rows[i];
    match row.claim(worker, token_hash, lease_seconds, now) {
        RowChange::Changed => Ok(Some(claim)),
        _ => {
            assert(rows@ == before);
            Err(out_of_range())
        },
    }
}

/// Of all rows exactly one is the next to be claimed, if any may be, and it is never one whose
/// lease still holds.
pub proof fn law_next_claim_is_determined(
    rows: Seq<ReconciliationRow>,
    now: i64,
    i: int,
    j: int,
    token_hash: Seq<u8>,
)
    requires
        is_next_claimable(rows, now, i),
    ensures
        is_next_claimable(rows, now, j) ==> i == j,
        !none_claimable(rows, now),
        !still_owned(rows[i], token_hash, now),
{
}

/// Where rows that have waited equally long stand in the order of their subscriptions, whatever
/// order that is, the row to be claimed next comes before every other that may be claimed: it has
/// waited longer, or equally long and its subscription comes first.
pub proof fn law_claims_follow_time_and_subscription(
    rows: Seq<ReconciliationRow>,
    now: i64,
    i: int,
    precedes: spec_fn(Seq<char>, Seq<char>) -> bool,
)
    requires
        is_next_claimable(rows, now, i),
        forall|a: int, b: int|
            0 <= a < b < rows.len() && (#[trigger] rows[a]).updated_at == (
            #[trigger] rows[b]).updated_at ==> precedes(
                rows[a].subscription_id@,
                rows[b].subscription_id@,
            ),
    ensures
        forall|j: int|
            0 <= j < rows.len() && j != i && claimable(#[trigger] rows[j], now) ==> {
                ||| rows[i].updated_at < rows[j].updated_at
                ||| rows[i].updated_at == rows[j].updated_at && precedes(
                    rows[i].subscription_id@,
                    rows[j].subscription_id@,
                )
            },
{
}

/// The projected state of a subscription, to be stored.
pub struct CanonicalState {
    pub subscription_id: String,
    pub customer_id: String,
    pub price_alias: Option<String>,
    pub status: String,
    pub cancel_at_period_end: bool,
    pub current_period_end: Option<Instant>,
    pub entitlement_state: String,
}

/// Whether a projected state is one of a subject: it has the subscription or the customer.
pub open spec fn concerns(subject: BillingSubject, state: CanonicalState) -> bool {
    opt_text(subject.subscription_id) == Some(state.subscription_id@) || subject.customer_id@
        == state.customer_id@
}

/// A subject with a projected state.
pub open spec fn projected(subject: BillingSubject, state: CanonicalState) -> BillingSubject {
    BillingSubject {
        customer_id: state.customer_id,
        subscription_id: Some(state.subscription_id),
        price_alias: state.price_alias,
        subscription_status: state.status,
        cancel_at_period_end: state.cancel_at_period_end,
        current_period_end: state.current_period_end,
        entitlement_state: state.entitlement_state,
        revision: (subject.revision + 1) as i64,
        ..subject
    }
}

/// A subject after a projection: changed where the state concerns it.
pub open spec fn after_projection(subject: BillingSubject, state: CanonicalState) -> BillingSubject {
    if concerns(subject, state) {
        projected(subject, state)
    } else {
        subject
    }
}

/// The position of the first subject that a state concerns, or the number of subjects.
pub open spec fn first_concerned(subjects: Seq<BillingSubject>, state: CanonicalState) -> int
    decreases subjects.len(),
{
    if subjects.len() == 0 || concerns(subjects[0], state) {
        0
    } else {
        1 + first_concerned(subjects.skip(1), state)
    }
}

fn state_concerns(subject: &BillingSubject, state: &CanonicalState) -> (r: bool)
    ensures
        r == concerns(*subject, *state),
{
    let subscribed = match &subject.subscription_id {
        Some(subscription_id) => same(subscription_id.as_str(), state.subscription_id.as_str()),
        None => false,
    };
    subscribed || same(subject.customer_id.as_str(), state.customer_id.as_str())
}

/// What became of an attempt to settle a reconciliation.
#[derive(Clone, Copy, Debug, PartialEq, Eq, Structural)]
pub enum Convergence {
    /// Settled; this is the new revision of the subject.
    Converged(i64),
    /// The lease is lost, or no subject is linked; nothing was changed.
    Refused,
    /// A revision would leave its range; nothing was changed.
    OutOfRange,
}

/// What settling a reconciliation comes to.
pub open spec fn convergence_of(
    row: ReconciliationRow,
    subjects: Seq<BillingSubject>,
    token_hash: Seq<u8>,
    state: CanonicalState,
    now: i64,
) -> Convergence {
    let first = first_concerned(subjects, state);
    if !still_owned(row, token_hash, now) || first >= subjects.len() {
        Convergence::Refused
    } else if exists|i: int|
        0 <= i < subjects.len() && concerns(#[trigger] subjects[i], state) && subjects[i].revision
            == i64::MAX {
        Convergence::OutOfRange
    } else {
        Convergence::Converged((subjects[first].revision + 1) as i64)
    }
}

/// Whether settling a reconciliation comes to this, and what it does to the row and the subjects.
pub open spec fn converges(
    row: ReconciliationRow,
    subjects: Seq<BillingSubject>,
    token_hash: Seq<u8>,
    state: CanonicalState,
    now: i64,
    convergence: Convergence,
    row_after: ReconciliationRow,
    subjects_after: Seq<BillingSubject>,
) -> bool {
    &&& convergence == convergence_of(row, subjects, token_hash, state, now)
    &&& convergence is Converged ==> row_after == settled(row, now)
    &&& convergence is Converged ==> subjects_after == subjects.map_values(
        |subject: BillingSubject| after_projection(subject, state),
    )
    &&& !(convergence is Converged) ==> row_after == row && subjects_after == subjects
}

/// Settles a reconciliation: under a lease that still holds, the subjects that the state concerns
/// take it on, and the row is done.
pub fn converge_reconciliation(
    row: &mut ReconciliationRow,
    subjects: &mut Vec<BillingSubject>,
    token_hash: &[u8],
    state: &CanonicalState,
    now: i64,
) -> (r: Convergence)
    ensures
        converges(
            *old(row),
            old(subjects)@,
            token_hash@,
            *state,
            now,
            r,
            *final(row),
            final(subjects)@,
        ),
{
    let ghost before = subjects@;
    if !row.owned(token_hash, now) {
        return Convergence::Refused;
    }
    let mut revision: Option<i64> = None;
    let mut overflow = false;
    let mut i: usize = 0;
    assert(before.skip(0) == before);
    while i < subjects.len()
        invariant
            i <= subjects@.len(),
            subjects@ == before,
            overflow == exists|j: int|
                0 <= j < i && concerns(#[trigger] before[j], *state) && before[j].revision
                    == i64::MAX,
            match revision {
                Some(revision) => 0 <= first_concerned(before, *state) < i && revision
                    == before[first_concerned(before, *state)].revision,
                None => first_concerned(before, *state) == i + first_concerned(
                    before.skip(i as int),
                    *state,
                ),
            },
        decreases subjects@.len() - i,
    {
        assert(before.skip(i as int)[0] == before[i as int]);
        assert(before.skip(i as int).skip(1) == before.skip(i + 1));
        if state_concerns(&subjects[i], state) {
            if revision.is_none() {
                revision = Some(subjects[i].revision);
            }
            if subjects[i].revision == i64::MAX {
                overflow = true;
                assert(concerns(before[i as int], *state));
            }
        }
        i += 1;
    }
    assert(before.skip(i as int).len() == 0);
    let revision = match revision {
        Some(revision) => revision,
        None => return Convergence::Refused,
    };
    if overflow {
        return Convergence::OutOfRange;
    }
    assert(concerns(before[first_concerned(before, *state)], *state)) by {
        lemma_first_concerned(before, *state);
    }
    project_all(subjects, state);
    row.state = ReconciliationState::Converged;
    row.lease_owner = None;
    row.lease_token_hash = None;
    row.lease_expires_at = None;
    row.last_failure_code = None;
    row.updated_at = now;
    Convergence::Converged(revision + 1)
}

proof fn lemma_first_concerned(subjects: Seq<BillingSubject>, state: CanonicalState)
    ensures
        0 <= first_concerned(subjects, state) <= subjects.len(),
        first_concerned(subjects, state) < subjects.len() ==> concerns(
            subjects[first_concerned(subjects, state)],
            state,
        ),
    decreases subjects.len(),
{
    if subjects.len() > 0 && !concerns(subjects[0], state) {
        lemma_first_concerned(subjects.skip(1), state);
    }
}

fn project_all(subjects: &mut Vec<BillingSubject>, state: &CanonicalState)
    requires
        forall|i: int|
            0 <= i < old(subjects)@.len() && concerns(#[trigger] old(subjects)@[i], *state)
                ==> old(subjects)@[i].revision < i64::MAX,
    ensures
        final(subjects)@ == old(subjects)@.map_values(
            |subject: BillingSubject| after_projection(subject, *state),
        ),
{
    let ghost before = subjects@;
    let mut i: usize = 0;
    while i < subjects.len()
        invariant
            i <= subjects@.len(),
            subjects@.len() == before.len(),
            forall|j: int|
                0 <= j < before.len() && concerns(#[trigger] before[j], *state)
                    ==> before[j].revision < i64::MAX,
            forall|j: int| 0 <= j < i ==> #[trigger] subjects@[j] == after_projection(
                before[j],
                *state,
            ),
            forall|j: int| i <= j < subjects@.len() ==> #[trigger] subjects@[j] == before[j],
        decreases subjects@.len() - i,
    {
        if state_concerns(&subjects[i], state) {
            let subject = &mut subjects[i];
            subject.customer_id = state.customer_id.clone();
            subject.subscription_id = Some(state.subscription_id.clone());
            subject.price_alias = clone_text(&state.price_alias);
            subject.subscription_status = state.status.clone();
            subject.cancel_at_period_end = state.cancel_at_period_end;
            subject.current_period_end = state.current_period_end;
            subject.entitlement_state = state.entitlement_state.clone();
            subject.revision = subject.revision + 1;
        }
        i += 1;
    }
    assert(subjects@ == before.map_values(
        |subject: BillingSubject| after_projection(subject, *state),
    ));
}

/// What every row holds: a lease exactly while it is running.
pub open spec fn lease_wf(row: ReconciliationRow) -> bool {
    &&& (row.state == ReconciliationState::Running) == (row.lease_token_hash is Some)
    &&& (row.state == ReconciliationState::Running) == (row.lease_expires_at is Some)
    &&& (row.state == ReconciliationState::Running) == (row.lease_owner is Some)
}

/// Claiming, handing back, settling and enqueueing keep that a row has a lease exactly while it is
/// running.
pub proof fn law_leases_belong_to_running_rows(
    row: ReconciliationRow,
    enqueued: ReconciliationRow,
    target: ReconciliationTarget,
    worker: String,
    token_hash: Vec<u8>,
    failure_code: String,
    lease_seconds: i64,
    now: i64,
)
    requires
        lease_wf(row),
        is_enqueued(Some(row), enqueued, target, now),
    ensures
        lease_wf(leased(row, worker, token_hash, lease_seconds, now)),
        lease_wf(released(row, failure_code, now)),
        lease_wf(settled(row, now)),
        lease_wf(enqueued),
{
}

/// Once another worker has claimed a row, a worker with the earlier token can neither settle it
/// nor hand it back.
pub proof fn law_stale_workers_are_fenced(
    row: ReconciliationRow,
    worker: String,
    token_hash: Vec<u8>,
    lease_seconds: i64,
    now: i64,
    stale_token: Seq<u8>,
    subjects: Seq<BillingSubject>,
    state: CanonicalState,
    later: i64,
)
    requires
        stale_token != token_hash@,
    ensures
        ({
            let claimed = leased(row, worker, token_hash, lease_seconds, now);
            &&& !runs_under(claimed, stale_token)
            &&& convergence_of(claimed, subjects, stale_token, state, later) == Convergence::Refused
        }),
{
}

/// A lease settles nothing once it has expired, and from then on the row may be claimed anew.
pub proof fn law_expired_leases_are_claimable(
    row: ReconciliationRow,
    worker: String,
    token_hash: Vec<u8>,
    lease_seconds: i64,
    now: i64,
    subjects: Seq<BillingSubject>,
    state: CanonicalState,
    later: i64,
)
    requires
        lease_in_range(row, lease_seconds, now),
        lease_end(now as int, lease_seconds as int) <= later,
    ensures
        ({
            let claimed = leased(row, worker, token_hash, lease_seconds, now);
            &&& convergence_of(claimed, subjects, token_hash@, state, later) == Convergence::Refused
            &&& claimable(claimed, later)
        }),
{
}

/// While a lease holds, the row is no one else's to claim.
pub proof fn law_live_leases_are_exclusive(
    row: ReconciliationRow,
    worker: String,
    token_hash: Vec<u8>,
    lease_seconds: i64,
    now: i64,
    later: i64,
)
    requires
        lease_in_range(row, lease_seconds, now),
        later < lease_end(now as int, lease_seconds as int),
    ensures
        !claimable(leased(row, worker, token_hash, lease_seconds, now), later),
        still_owned(leased(row, worker, token_hash, lease_seconds, now), token_hash@, later),
{
}

/// An event that arrives during a run takes the row away from it: no token settles the row, and it
/// waits to be claimed again.
pub proof fn law_new_events_fence_running_work(
    row: ReconciliationRow,
    enqueued: ReconciliationRow,
    target: ReconciliationTarget,
    now: i64,
    token_hash: Seq<u8>,
    subjects: Seq<BillingSubject>,
    state: CanonicalState,
    later: i64,
)
    requires
        is_enqueued(Some(row), enqueued, target, now),
    ensures
        claimable(enqueued, later),
        !runs_under(enqueued, token_hash),
        convergence_of(enqueued, subjects, token_hash, state, later) == Convergence::Refused,
{
}

/// A row that was handed back is pending, never converged, and may be claimed at once; a converged
/// row is not claimed until an event asks for it again.
pub proof fn law_failures_leave_work_pending(
    row: ReconciliationRow,
    failure_code: String,
    now: i64,
    later: i64,
)
    ensures
        released(row, failure_code, now).state == ReconciliationState::Pending,
        released(row, failure_code, now).last_failure_code == Some(failure_code),
        claimable(released(row, failure_code, now), later),
        settled(row, now).state == ReconciliationState::Converged,
        !claimable(settled(row, now), later),
{
}

/// An event leaves its reconciliation waiting, for its own customer, free of any lease and of any
/// earlier failure. A new row is that of the event's subscription and starts from nothing; an
/// existing one keeps its subscription and its counters.
pub proof fn law_events_are_enqueued(
    existing: Option<ReconciliationRow>,
    row: ReconciliationRow,
    target: ReconciliationTarget,
    now: i64,
)
    requires
        is_enqueued(existing, row, target, now),
    ensures
        row.state == ReconciliationState::Pending,
        row.customer_id@ == target.customer_id@,
        row.lease_owner is None && row.lease_token_hash is None && row.lease_expires_at is None,
        row.last_failure_code is None,
        row.updated_at == now,
        existing is None ==> row.subscription_id@ == target.subscription_id@ && row.attempts == 0
            && row.lease_generation == 0,
        existing is Some ==> row.subscription_id@ == existing->0.subscription_id@ && row.attempts
            == existing->0.attempts && row.lease_generation == existing->0.lease_generation,
{
}

/// A claim takes a row that was waiting or whose lease had expired, and of all those the one that
/// was changed longest ago. It is of that row's subscription and customer; the row runs under the
/// worker's name and token for the seconds of the lease, one attempt and one lease later, and every
/// other row is as it was.
pub proof fn law_claims_lease_the_longest_waiting_row(
    before: Seq<ReconciliationRow>,
    after: Seq<ReconciliationRow>,
    worker: String,
    token_hash: Vec<u8>,
    lease_seconds: i64,
    now: i64,
    claim: ReconciliationClaim,
    j: int,
)
    requires
        claims(before, after, worker, token_hash, lease_seconds, now, Ok(Some(claim))),
        0 <= j < before.len(),
    ensures
        after.len() == before.len(),
        claim.token_hash@ == token_hash@,
        exists|i: int|
            {
                &&& 0 <= i < before.len()
                &&& (#[trigger] before[i]).state == ReconciliationState::Pending || (before[i].state
                    == ReconciliationState::Running && before[i].lease_expires_at is Some
                    && before[i].lease_expires_at->0 <= now)
                &&& before[i].subscription_id@ == claim.subscription_id@
                &&& before[i].customer_id@ == claim.customer_id@
                &&& before[j].state == ReconciliationState::Pending ==> before[i].updated_at
                    <= before[j].updated_at
                &&& j != i ==> after[j] == before[j]
                &&& after[i].subscription_id == before[i].subscription_id
                &&& after[i].customer_id == before[i].customer_id
                &&& after[i].state == ReconciliationState::Running
                &&& opt_text(after[i].lease_owner) == Some(worker@)
                &&& opt_bytes(after[i].lease_token_hash) == Some(token_hash@)
                &&& after[i].lease_expires_at is Some
                &&& after[i].lease_expires_at->0 == now + lease_seconds * 1000000
                &&& after[i].attempts == before[i].attempts + 1
                &&& after[i].lease_generation == before[i].lease_generation + 1
                &&& after[i].updated_at == now
                &&& after[i].last_failure_code == before[i].last_failure_code
            },
{
    let i = choose|i: int|
        {
            &&& #[trigger] is_next_claimable(before, now, i)
            &&& lease_in_range(before[i], lease_seconds, now)
            &&& is_claim_of(claim, before[i], token_hash@)
            &&& after == before.update(
                i,
                leased(before[i], worker, token_hash, lease_seconds, now),
            )
        };
    assert(claimable(before[j], now) ==> before[i].updated_at <= before[j].updated_at);
    assert(before[i].subscription_id@ == claim.subscription_id@);
}

/// A row is claimed exactly where it waits or its lease has expired, and the lease can be counted
/// and timed; what is not claimed is as it was.
pub proof fn law_rows_are_claimed_when_free(
    row: ReconciliationRow,
    worker: String,
    token_hash: Vec<u8>,
    lease_seconds: i64,
    now: i64,
)
    ensures
        ({
            let change = claim_change(row, lease_seconds, now);
            let after = after_claim(row, worker, token_hash, lease_seconds, now);
            let free = row.state == ReconciliationState::Pending || row.state
                == ReconciliationState::Running && row.lease_expires_at is Some
                && row.lease_expires_at->0 <= now;
            let counted = row.attempts < i64::MAX && row.lease_generation < i64::MAX && i64::MIN
                <= now + lease_seconds * 1000000 <= i64::MAX;
            &&& (change == RowChange::Changed) == (free && counted)
            &&& (change == RowChange::OutOfRange) == (free && !counted)
            &&& change != RowChange::Changed ==> after == row
            &&& change == RowChange::Changed ==> {
                &&& after.state == ReconciliationState::Running
                &&& opt_text(after.lease_owner) == Some(worker@)
                &&& opt_bytes(after.lease_token_hash) == Some(token_hash@)
                &&& after.lease_expires_at is Some
                &&& after.lease_expires_at->0 == now + lease_seconds * 1000000
                &&& after.attempts == row.attempts + 1
                &&& after.lease_generation == row.lease_generation + 1
                &&& after.updated_at == now
                &&& after.subscription_id == row.subscription_id
                &&& after.customer_id == row.customer_id
            }
        }),
{
}

/// Nothing is claimed exactly where no row waits and no lease has expired; then, and where a claim
/// fails, every row is as it was.
pub proof fn law_idle_claims_change_nothing(
    before: Seq<ReconciliationRow>,
    after: Seq<ReconciliationRow>,
    worker: String,
    token_hash: Vec<u8>,
    lease_seconds: i64,
    now: i64,
    claimed: Result<Option<ReconciliationClaim>, StoreError>,
    j: int,
)
    requires
        claims(before, after, worker, token_hash, lease_seconds, now, claimed),
        0 <= j < before.len(),
    ensures
        claimed == Ok::<Option<ReconciliationClaim>, StoreError>(None) ==> before[j].state
            != ReconciliationState::Pending && (before[j].state == ReconciliationState::Running
            && before[j].lease_expires_at is Some ==> before[j].lease_expires_at->0 > now),
        !(claimed matches Ok(Some(_))) ==> after == before,
        claimed is Err ==> (claimed matches Err(StoreError::Database(detail)) && detail@
            == "error returned from database: bigint out of range"@),
        claimed is Err ==> exists|i: int|
            0 <= i < before.len() && ((#[trigger] before[i]).attempts == i64::MAX
                || before[i].lease_generation == i64::MAX || now + lease_seconds * 1000000
                > i64::MAX || now + lease_seconds * 1000000 < i64::MIN),
{
    if claimed == Ok::<Option<ReconciliationClaim>, StoreError>(None) {
        assert(!claimable(before[j], now));
    }
    if claimed is Err {
        let i = choose|i: int| #[trigger]
            is_next_claimable(before, now, i) && !lease_in_range(before[i], lease_seconds, now);
        assert(0 <= i < before.len() && (before[i].attempts == i64::MAX
            || before[i].lease_generation == i64::MAX || now + lease_seconds * 1000000 > i64::MAX
            || now + lease_seconds * 1000000 < i64::MIN));
    }
}

/// Whoever holds the token of a running lease hands the row back, and no one else: it then waits
/// without a lease, with the failure's code, and keeps all else.
pub proof fn law_tokens_hand_rows_back(
    row: ReconciliationRow,
    token_hash: Seq<u8>,
    failure_code: String,
    now: i64,
)
    ensures
        runs_under(row, token_hash) == (row.state == ReconciliationState::Running
            && row.lease_token_hash is Some && row.lease_token_hash->0@ == token_hash),
        !runs_under(row, token_hash) ==> after_retry(row, token_hash, failure_code, now) == row,
        runs_under(row, token_hash) ==> {
            let after = after_retry(row, token_hash, failure_code, now);
            &&& after.state == ReconciliationState::Pending
            &&& after.lease_owner is None
            &&& after.lease_token_hash is None
            &&& after.lease_expires_at is None
            &&& opt_text(after.last_failure_code) == Some(failure_code@)
            &&& after.updated_at == now
            &&& after.subscription_id == row.subscription_id
            &&& after.customer_id == row.customer_id
            &&& after.attempts == row.attempts
            &&& after.lease_generation == row.lease_generation
        },
{
}

/// Settling needs the token of a running lease that has not expired, and a subject to settle for;
/// else the row and the subjects are as they were. Once settled, the row has no lease and no
/// failure, and keeps its subscription and its counters.
pub proof fn law_settling_needs_a_live_lease(
    row: ReconciliationRow,
    subjects: Seq<BillingSubject>,
    token_hash: Seq<u8>,
    state: CanonicalState,
    now: i64,
    convergence: Convergence,
    row_after: ReconciliationRow,
    subjects_after: Seq<BillingSubject>,
)
    requires
        converges(
            row,
            subjects,
            token_hash,
            state,
            now,
            convergence,
            row_after,
            subjects_after,
        ),
    ensures
        ({
            let live = row.state == ReconciliationState::Running && row.lease_token_hash is Some
                && row.lease_token_hash->0@ == token_hash && row.lease_expires_at is Some
                && row.lease_expires_at->0 > now;
            let linked = exists|i: int|
                0 <= i < subjects.len() && (opt_text((#[trigger] subjects[i]).subscription_id)
                    == Some(state.subscription_id@) || subjects[i].customer_id@
                    == state.customer_id@);
            &&& (convergence == Convergence::Refused) == !(live && linked)
            &&& !(convergence is Converged) ==> row_after == row && subjects_after == subjects
            &&& convergence is Converged ==> {
                &&& row_after.state == ReconciliationState::Converged
                &&& row_after.lease_owner is None
                &&& row_after.lease_token_hash is None
                &&& row_after.lease_expires_at is None
                &&& row_after.last_failure_code is None
                &&& row_after.updated_at == now
                &&& row_after.subscription_id == row.subscription_id
                &&& row_after.customer_id == row.customer_id
                &&& row_after.attempts == row.attempts
                &&& row_after.lease_generation == row.lease_generation
            }
        }),
{
    lemma_first_concerned(subjects, state);
    let first = first_concerned(subjects, state);
    if first < subjects.len() {
        assert(concerns(subjects[first], state));
    }
    if exists|i: int|
        0 <= i < subjects.len() && (opt_text((#[trigger] subjects[i]).subscription_id) == Some(
            state.subscription_id@,
        ) || subjects[i].customer_id@ == state.customer_id@) {
        let i = choose|i: int|
            0 <= i < subjects.len() && (opt_text((#[trigger] subjects[i]).subscription_id) == Some(
                state.subscription_id@,
            ) || subjects[i].customer_id@ == state.customer_id@);
        lemma_concerned_is_found(subjects, state, i);
    }
}

proof fn lemma_concerned_is_found(subjects: Seq<BillingSubject>, state: CanonicalState, i: int)
    requires
        0 <= i < subjects.len(),
        concerns(subjects[i], state),
    ensures
        first_concerned(subjects, state) <= i,
    decreases subjects.len(),
{
    if !concerns(subjects[0], state) {
        assert(subjects.skip(1)[i - 1] == subjects[i]);
        lemma_concerned_is_found(subjects.skip(1), state, i - 1);
    }
}

/// Settling gives each subject with the subscription or the customer the whole of the state, at its
/// next revision and under its own identity; every other subject is as it was. The reported revision
/// is the new one of the first of them.
pub proof fn law_settling_projects_the_state(
    row: ReconciliationRow,
    subjects: Seq<BillingSubject>,
    token_hash: Seq<u8>,
    state: CanonicalState,
    now: i64,
    revision: i64,
    row_after: ReconciliationRow,
    subjects_after: Seq<BillingSubject>,
    i: int,
)
    requires
        converges(
            row,
            subjects,
            token_hash,
            state,
            now,
            Convergence::Converged(revision),
            row_after,
            subjects_after,
        ),
        0 <= i < subjects.len(),
    ensures
        subjects_after.len() == subjects.len(),
        ({
            let concerned = opt_text(subjects[i].subscription_id) == Some(state.subscription_id@)
                || subjects[i].customer_id@ == state.customer_id@;
            &&& !concerned ==> subjects_after[i] == subjects[i]
            &&& concerned ==> {
                &&& subjects_after[i].scope_kind == subjects[i].scope_kind
                &&& subjects_after[i].scope_id == subjects[i].scope_id
                &&& subjects_after[i].subject == subjects[i].subject
                &&& subjects_after[i].customer_id == state.customer_id
                &&& subjects_after[i].subscription_id == Some(state.subscription_id)
                &&& subjects_after[i].price_alias == state.price_alias
                &&& subjects_after[i].subscription_status == state.status
                &&& subjects_after[i].cancel_at_period_end == state.cancel_at_period_end
                &&& subjects_after[i].current_period_end == state.current_period_end
                &&& subjects_after[i].entitlement_state == state.entitlement_state
                &&& subjects_after[i].revision == subjects[i].revision + 1
            }
            &&& concerned && (forall|j: int|
                0 <= j < i ==> opt_text((#[trigger] subjects[j]).subscription_id) != Some(
                    state.subscription_id@,
                ) && subjects[j].customer_id@ != state.customer_id@) ==> revision
                == subjects_after[i].revision
        }),
{
    lemma_first_concerned(subjects, state);
    if concerns(subjects[i], state) {
        lemma_concerned_is_found(subjects, state, i);
        let first = first_concerned(subjects, state);
        assert(subjects[i].revision != i64::MAX);
        if first < i {
            assert(concerns(subjects[first], state));
        }
    }
}

/// The stored names of the states.
pub proof fn law_states_are_named()
    ensures
        state_text(ReconciliationState::Pending) == "pending"@,
        state_text(ReconciliationState::Running) == "running"@,
        state_text(ReconciliationState::Converged) == "converged"@,
{
}

/// A lease is known by the digest of its token, never by the token itself; without a token there is
/// no lease.
pub proof fn law_leases_are_known_by_their_digest(
    token: Vec<u8>,
    detail: String,
    hash: Result<Vec<u8>, RuntimeFailure>,
)
    ensures
        hashes(Ok(token), hash) ==> hash is Ok && hash->Ok_0@ == sha256_digest(token@)
            && hash->Ok_0@.len() == 32,
        hashes(Err(detail), hash) ==> hash is Err && hash->Err_0.detail@ == detail@,
{
}

} // verus!
