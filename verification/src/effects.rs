//! The ledger of Checkout and Portal effects: one row for each caller, operation and idempotency
//! key, which moves from `prepared` over `in_flight` to an outcome.

use vstd::prelude::*;

use crate::store::{quoted, quoted_text, StoreError};
use crate::text::{same, same_bytes};

verus! {

/// The external operation of an effect.
#[derive(Clone, Copy, Debug, PartialEq, Eq, Structural)]
pub enum EffectOperation {
    /// Creating a Checkout Session.
    Checkout,
    /// Creating a Customer Portal session.
    Portal,
}

/// The stored name of an operation.
pub open spec fn operation_text(operation: EffectOperation) -> Seq<char> {
    match operation {
        EffectOperation::Checkout => "checkout"@,
        EffectOperation::Portal => "portal"@,
    }
}

/// The operation that a stored name stands for.
pub open spec fn operation_of(text: Seq<char>) -> Option<EffectOperation> {
    if text == "checkout"@ {
        Some(EffectOperation::Checkout)
    } else if text == "portal"@ {
        Some(EffectOperation::Portal)
    } else {
        None
    }
}

impl EffectOperation {
    /// The stored name.
    pub fn as_str(self) -> (r: &'static str)
        ensures
            r@ == operation_text(self),
    {
        match self {
            EffectOperation::Checkout => "checkout",
            EffectOperation::Portal => "portal",
        }
    }

    /// Reads a stored name.
    pub fn parse(value: &str) -> (r: Result<Self, StoreError>)
        ensures
            match operation_of(value@) {
                Some(operation) => r == Ok::<Self, StoreError>(operation),
                None => r matches Err(StoreError::Invariant(message)) && message@ == quoted_text(
                    "unknown persisted Stripe effect operation"@,
                    value@,
                ),
            },
    {
        if same(value, "checkout") {
            Ok(EffectOperation::Checkout)
        } else if same(value, "portal") {
            Ok(EffectOperation::Portal)
        } else {
            Err(StoreError::Invariant(quoted("unknown persisted Stripe effect operation", value)))
        }
    }
}

/// How far an effect has come.
#[derive(Clone, Copy, Debug, PartialEq, Eq, Structural)]
pub enum EffectStatus {
    /// Recorded, not yet sent.
    Prepared,
    /// Sent, or about to be.
    InFlight,
    /// Stripe accepted it, and the receipt is stored.
    Accepted,
    /// Stripe or the library refused it.
    KnownFailure,
    /// Whether Stripe performed it is not known.
    EffectUnknown,
}

/// The stored name of a status.
pub open spec fn status_text(status: EffectStatus) -> Seq<char> {
    match status {
        EffectStatus::Prepared => "prepared"@,
        EffectStatus::InFlight => "in_flight"@,
        EffectStatus::Accepted => "accepted"@,
        EffectStatus::KnownFailure => "known_failure"@,
        EffectStatus::EffectUnknown => "effect_unknown"@,
    }
}

/// The status that a stored name stands for.
pub open spec fn status_of(text: Seq<char>) -> Option<EffectStatus> {
    if text == "prepared"@ {
        Some(EffectStatus::Prepared)
    } else if text == "in_flight"@ {
        Some(EffectStatus::InFlight)
    } else if text == "accepted"@ {
        Some(EffectStatus::Accepted)
    } else if text == "known_failure"@ {
        Some(EffectStatus::KnownFailure)
    } else if text == "effect_unknown"@ {
        Some(EffectStatus::EffectUnknown)
    } else {
        None
    }
}

impl EffectStatus {
    /// The stored name.
    pub fn as_str(self) -> (r: &'static str)
        ensures
            r@ == status_text(self),
    {
        match self {
            EffectStatus::Prepared => "prepared",
            EffectStatus::InFlight => "in_flight",
            EffectStatus::Accepted => "accepted",
            EffectStatus::KnownFailure => "known_failure",
            EffectStatus::EffectUnknown => "effect_unknown",
        }
    }

    /// Reads a stored name.
    pub fn parse(value: &str) -> (r: Result<Self, StoreError>)
        ensures
            match status_of(value@) {
                Some(status) => r == Ok::<Self, StoreError>(status),
                None => r matches Err(StoreError::Invariant(message)) && message@ == quoted_text(
                    "unknown persisted Stripe effect status"@,
                    value@,
                ),
            },
    {
        if same(value, "prepared") {
            Ok(EffectStatus::Prepared)
        } else if same(value, "in_flight") {
            Ok(EffectStatus::InFlight)
        } else if same(value, "accepted") {
            Ok(EffectStatus::Accepted)
        } else if same(value, "known_failure") {
            Ok(EffectStatus::KnownFailure)
        } else if same(value, "effect_unknown") {
            Ok(EffectStatus::EffectUnknown)
        } else {
            Err(StoreError::Invariant(quoted("unknown persisted Stripe effect status", value)))
        }
    }
}

/// Reading back the stored name of an operation or a status gives it.
pub proof fn law_stored_names_read_back(operation: EffectOperation, status: EffectStatus)
    ensures
        operation_of(operation_text(operation)) == Some(operation),
        status_of(status_text(status)) == Some(status),
{
    reveal_strlit("checkout");
    reveal_strlit("portal");
    reveal_strlit("prepared");
    reveal_strlit("in_flight");
    reveal_strlit("accepted");
    reveal_strlit("known_failure");
    reveal_strlit("effect_unknown");
    assert("checkout"@.len() == 8 && "portal"@.len() == 6);
    assert("prepared"@.len() == 8 && "in_flight"@.len() == 9 && "accepted"@.len() == 8);
    assert("known_failure"@.len() == 13 && "effect_unknown"@.len() == 14);
    assert("prepared"@[0] == 'p' && "accepted"@[0] == 'a');
}

/// An effect to be recorded.
pub struct NewEffect {
    pub effect_id: String,
    pub caller_instance: String,
    pub operation: EffectOperation,
    pub idempotency_key: String,
    pub request_hash: Vec<u8>,
    pub scope_kind: String,
    pub scope_id: String,
    pub subject: String,
    pub price_alias: Option<String>,
}

/// A recorded effect.
pub struct EffectRecord {
    pub effect_id: String,
    pub operation: EffectOperation,
    pub request_hash: Vec<u8>,
    pub status: EffectStatus,
    pub stripe_object_id: Option<String>,
    pub response_nonce: Option<Vec<u8>>,
    pub response_ciphertext: Option<Vec<u8>>,
    pub failure_code: Option<String>,
}

/// The stored columns of an effect.
pub struct StoredEffect {
    pub effect_id: String,
    pub operation: String,
    pub request_hash: Vec<u8>,
    pub status: String,
    pub stripe_object_id: Option<String>,
    pub response_nonce: Option<Vec<u8>>,
    pub response_ciphertext: Option<Vec<u8>>,
    pub failure_code: Option<String>,
}

/// Whether this is what the stored columns of an effect hold.
pub open spec fn decodes_effect(stored: StoredEffect, decoded: Result<EffectRecord, StoreError>) -> bool {
    match (operation_of(stored.operation@), status_of(stored.status@)) {
        (Some(operation), Some(status)) => decoded == Ok::<EffectRecord, StoreError>(
            EffectRecord {
                effect_id: stored.effect_id,
                operation,
                request_hash: stored.request_hash,
                status,
                stripe_object_id: stored.stripe_object_id,
                response_nonce: stored.response_nonce,
                response_ciphertext: stored.response_ciphertext,
                failure_code: stored.failure_code,
            },
        ),
        (None, _) => decoded matches Err(StoreError::Invariant(message)) && message@ == quoted_text(
            "unknown persisted Stripe effect operation"@,
            stored.operation@,
        ),
        (Some(_), None) => decoded matches Err(StoreError::Invariant(message)) && message@
            == quoted_text("unknown persisted Stripe effect status"@, stored.status@),
    }
}

/// Reads the stored columns of an effect.
pub fn decode_effect(stored: StoredEffect) -> (r: Result<EffectRecord, StoreError>)
    ensures
        decodes_effect(stored, r),
{
    let operation = match EffectOperation::parse(stored.operation.as_str()) {
        Ok(operation) => operation,
        Err(error) => return Err(error),
    };
    let status = match EffectStatus::parse(stored.status.as_str()) {
        Ok(status) => status,
        Err(error) => return Err(error),
    };
    Ok(
        EffectRecord {
            effect_id: stored.effect_id,
            operation,
            request_hash: stored.request_hash,
            status,
            stripe_object_id: stored.stripe_object_id,
            response_nonce: stored.response_nonce,
            response_ciphertext: stored.response_ciphertext,
            failure_code: stored.failure_code,
        },
    )
}

/// A row of the ledger. Its times are microseconds since the Unix epoch.
pub struct EffectRow {
    pub record: EffectRecord,
    pub updated_at: i64,
    pub completed_at: Option<i64>,
}

/// An operator's decision on an effect of unknown outcome.
pub struct ManualResolution {
    pub target_status: EffectStatus,
    pub stripe_object_id: Option<String>,
    pub nonce: Option<Vec<u8>>,
    pub ciphertext: Option<Vec<u8>>,
    pub failure_code: Option<String>,
}

/// A guarded change of a row.
pub enum EffectChange {
    /// Starts the one dispatch of a prepared effect.
    BeginDispatch,
    /// Gives up on an effect that has been in flight for longer than the window.
    Recover { uncertainty_seconds: i64 },
    /// Stores the receipt of an effect in flight.
    Accept { stripe_object_id: String, nonce: Vec<u8>, ciphertext: Vec<u8> },
    /// Stores the failure of an effect in flight.
    Fail { failure_code: String },
    /// Records that the outcome of an effect in flight is not known.
    MarkUnknown,
    /// Settles an effect of unknown outcome.
    Resolve(ManualResolution),
}

/// Whether a row that was last updated then has been in flight for the whole window.
pub open spec fn window_passed(updated_at: int, uncertainty_seconds: int, now: int) -> bool {
    updated_at + uncertainty_seconds * 1000000 <= now
}

/// Decides [`window_passed`].
pub fn has_window_passed(updated_at: i64, uncertainty_seconds: i64, now: i64) -> (r: bool)
    ensures
        r == window_passed(updated_at as int, uncertainty_seconds as int, now as int),
{
    updated_at as i128 + uncertainty_seconds as i128 * 1000000 <= now as i128
}

/// Whether a change applies to a row.
pub open spec fn effect_guard(row: EffectRow, change: EffectChange, now: i64) -> bool {
    match change {
        EffectChange::BeginDispatch => row.record.status == EffectStatus::Prepared,
        EffectChange::Recover { uncertainty_seconds } => row.record.status == EffectStatus::InFlight
            && window_passed(row.updated_at as int, uncertainty_seconds as int, now as int),
        EffectChange::Accept { .. } => row.record.status == EffectStatus::InFlight,
        EffectChange::Fail { .. } => row.record.status == EffectStatus::InFlight,
        EffectChange::MarkUnknown => row.record.status == EffectStatus::InFlight,
        EffectChange::Resolve(_) => row.record.status == EffectStatus::EffectUnknown,
    }
}

/// A record with another status.
pub open spec fn with_status(record: EffectRecord, status: EffectStatus) -> EffectRecord {
    EffectRecord { status, ..record }
}

/// A row after a change that applies to it.
pub open spec fn effect_changed(row: EffectRow, change: EffectChange, now: i64) -> EffectRow {
    match change {
        EffectChange::BeginDispatch => EffectRow {
            record: with_status(row.record, EffectStatus::InFlight),
            updated_at: now,
            ..row
        },
        EffectChange::Recover { .. } => EffectRow {
            record: with_status(row.record, EffectStatus::EffectUnknown),
            updated_at: now,
            ..row
        },
        EffectChange::Accept { stripe_object_id, nonce, ciphertext } => EffectRow {
            record: EffectRecord {
                status: EffectStatus::Accepted,
                stripe_object_id: Some(stripe_object_id),
                response_nonce: Some(nonce),
                response_ciphertext: Some(ciphertext),
                failure_code: None,
                ..row.record
            },
            updated_at: now,
            completed_at: Some(now),
        },
        EffectChange::Fail { failure_code } => EffectRow {
            record: EffectRecord {
                status: EffectStatus::KnownFailure,
                failure_code: Some(failure_code),
                ..row.record
            },
            updated_at: now,
            completed_at: Some(now),
        },
        EffectChange::MarkUnknown => EffectRow {
            record: with_status(row.record, EffectStatus::EffectUnknown),
            updated_at: now,
            ..row
        },
        EffectChange::Resolve(resolution) => EffectRow {
            record: EffectRecord {
                status: resolution.target_status,
                stripe_object_id: resolution.stripe_object_id,
                response_nonce: resolution.nonce,
                response_ciphertext: resolution.ciphertext,
                failure_code: resolution.failure_code,
                ..row.record
            },
            updated_at: now,
            completed_at: Some(now),
        },
    }
}

/// A row after a change: untouched where the change does not apply.
pub open spec fn effect_step(row: EffectRow, change: EffectChange, now: i64) -> EffectRow {
    if effect_guard(row, change, now) {
        effect_changed(row, change, now)
    } else {
        row
    }
}

impl EffectRow {
    /// Applies a change where its guard holds, and says whether it did.
    pub fn apply(&mut self, change: EffectChange, now: i64) -> (r: bool)
        ensures
            r == effect_guard(*old(self), change, now),
            *final(self) == effect_step(*old(self), change, now),
    {
        match change {
            EffectChange::BeginDispatch => {
                if self.record.status != EffectStatus::Prepared {
                    return false;
                }
                self.record.status = EffectStatus::InFlight;
            },
            EffectChange::Recover { uncertainty_seconds } => {
                if self.record.status != EffectStatus::InFlight || !has_window_passed(
                    self.updated_at,
                    uncertainty_seconds,
                    now,
                ) {
                    return false;
                }
                self.record.status = EffectStatus::EffectUnknown;
            },
            EffectChange::Accept { stripe_object_id, nonce, ciphertext } => {
                if self.record.status != EffectStatus::InFlight {
                    return false;
                }
                self.record.status = EffectStatus::Accepted;
                self.record.stripe_object_id = Some(stripe_object_id);
                self.record.response_nonce = Some(nonce);
                self.record.response_ciphertext = Some(ciphertext);
                self.record.failure_code = None;
                self.completed_at = Some(now);
            },
            EffectChange::Fail { failure_code } => {
                if self.record.status != EffectStatus::InFlight {
                    return false;
                }
                self.record.status = EffectStatus::KnownFailure;
                self.record.failure_code = Some(failure_code);
                self.completed_at = Some(now);
            },
            EffectChange::MarkUnknown => {
                if self.record.status != EffectStatus::InFlight {
                    return false;
                }
                self.record.status = EffectStatus::EffectUnknown;
            },
            EffectChange::Resolve(resolution) => {
                if self.record.status != EffectStatus::EffectUnknown {
                    return false;
                }
                self.record.status = resolution.target_status;
                self.record.stripe_object_id = resolution.stripe_object_id;
                self.record.response_nonce = resolution.nonce;
                self.record.response_ciphertext = resolution.ciphertext;
                self.record.failure_code = resolution.failure_code;
                self.completed_at = Some(now);
            },
        }
        self.updated_at = now;
        true
    }
}

/// How many rows a recovery changes.
pub open spec fn recoverable(rows: Seq<EffectRow>, uncertainty_seconds: i64, now: i64) -> nat
    decreases rows.len(),
{
    if rows.len() == 0 {
        0
    } else {
        recoverable(rows.drop_last(), uncertainty_seconds, now) + if effect_guard(
            rows.last(),
            EffectChange::Recover { uncertainty_seconds },
            now,
        ) {
            1nat
        } else {
            0nat
        }
    }
}

/// What a recovery does to the rows, and how many it changes.
pub open spec fn recovers(
    before: Seq<EffectRow>,
    after: Seq<EffectRow>,
    uncertainty_seconds: i64,
    now: i64,
    count: int,
) -> bool {
    &&& count == recoverable(before, uncertainty_seconds, now)
    &&& after == before.map_values(
        |row: EffectRow| effect_step(row, EffectChange::Recover { uncertainty_seconds }, now),
    )
}

/// Gives up on every effect that has been in flight for longer than the window, and counts them.
pub fn recover_stranded_effects(rows: &mut Vec<EffectRow>, uncertainty_seconds: i64, now: i64) -> (r:
    usize)
    ensures
        recovers(old(rows)@, final(rows)@, uncertainty_seconds, now, r as int),
{
    let ghost before = rows@;
    let ghost step = |row: EffectRow|
        effect_step(row, EffectChange::Recover { uncertainty_seconds }, now);
    let mut count: usize = 0;
    let mut i: usize = 0;
    while i < rows.len()
        invariant
            i <= rows@.len(),
            rows@.len() == before.len(),
            count <= i,
            count == recoverable(before.take(i as int), uncertainty_seconds, now),
            step == (|row: EffectRow|
                effect_step(row, EffectChange::Recover { uncertainty_seconds }, now)),
            forall|j: int| 0 <= j < i ==> #[trigger] rows@[j] == step(before[j]),
            forall|j: int| i <= j < rows@.len() ==> #[trigger] rows@[j] == before[j],
        decreases rows@.len() - i,
    {
        assert(before.take(i + 1).drop_last() == before.take(i as int));
        let row = &mut rows[i];
        if row.apply(EffectChange::Recover { uncertainty_seconds }, now) {
            count += 1;
        }
        i += 1;
    }
    assert(before.take(i as int) == before);
    assert(rows@ == before.map_values(step));
    count
}

/// Whether a resolution settles an effect: accepted with an object and its receipt, or failed with
/// a code.
pub open spec fn settles(resolution: ManualResolution) -> bool {
    match resolution.target_status {
        EffectStatus::Accepted => resolution.stripe_object_id is Some && resolution.nonce is Some
            && resolution.nonce->0@.len() == 12 && resolution.ciphertext is Some
            && resolution.failure_code is None,
        EffectStatus::KnownFailure => resolution.stripe_object_id is None && resolution.nonce is None
            && resolution.ciphertext is None && resolution.failure_code is Some,
        _ => false,
    }
}

/// Whether a change is one that the library makes.
pub open spec fn change_wf(change: EffectChange) -> bool {
    match change {
        EffectChange::Accept { nonce, .. } => nonce@.len() == 12,
        EffectChange::Resolve(resolution) => settles(resolution),
        _ => true,
    }
}

/// What every row holds: an accepted effect has its object and its sealed receipt, a failed one
/// its code.
pub open spec fn row_wf(row: EffectRow) -> bool {
    &&& row.record.status == EffectStatus::Accepted ==> row.record.stripe_object_id is Some
        && row.record.response_nonce is Some && row.record.response_nonce->0@.len() == 12
        && row.record.response_ciphertext is Some
    &&& row.record.status == EffectStatus::KnownFailure ==> row.record.failure_code is Some
}

/// Whether a status is an outcome that stands.
pub open spec fn is_terminal(status: EffectStatus) -> bool {
    status == EffectStatus::Accepted || status == EffectStatus::KnownFailure
}

/// Whether an effect may go from one status to another.
pub open spec fn is_edge(from: EffectStatus, to: EffectStatus) -> bool {
    match from {
        EffectStatus::Prepared => to == EffectStatus::InFlight,
        EffectStatus::InFlight => to == EffectStatus::Accepted || to == EffectStatus::KnownFailure
            || to == EffectStatus::EffectUnknown,
        EffectStatus::EffectUnknown => is_terminal(to),
        _ => false,
    }
}

/// A change leaves a row alone or moves it along one edge; an effect of unknown outcome moves only
/// by a resolution, an effect in flight is given up only after the window, and an accepted effect
/// always has its receipt.
pub proof fn law_effect_moves_along_edges(row: EffectRow, change: EffectChange, now: i64)
    requires
        row_wf(row),
        change_wf(change),
    ensures
        row_wf(effect_step(row, change, now)),
        effect_step(row, change, now) == row || is_edge(
            row.record.status,
            effect_step(row, change, now).record.status,
        ),
        row.record.status == EffectStatus::EffectUnknown && effect_step(row, change, now) != row
            ==> change is Resolve,
        change is Recover && effect_step(row, change, now) != row ==> window_passed(
            row.updated_at as int,
            change->uncertainty_seconds as int,
            now as int,
        ),
{
}

/// What a change never touches: the identity of the effect and the fingerprint of its request.
pub proof fn law_effect_keeps_identity(row: EffectRow, change: EffectChange, now: i64)
    ensures
        effect_step(row, change, now).record.effect_id == row.record.effect_id,
        effect_step(row, change, now).record.operation == row.record.operation,
        effect_step(row, change, now).record.request_hash == row.record.request_hash,
{
}

/// A row after a history of changes, each at its time.
pub open spec fn effect_run(row: EffectRow, history: Seq<(EffectChange, i64)>) -> EffectRow
    decreases history.len(),
{
    if history.len() == 0 {
        row
    } else {
        effect_step(effect_run(row, history.drop_last()), history.last().0, history.last().1)
    }
}

/// How many dispatches a history of changes starts.
pub open spec fn dispatches(row: EffectRow, history: Seq<(EffectChange, i64)>) -> nat
    decreases history.len(),
{
    if history.len() == 0 {
        0
    } else {
        dispatches(row, history.drop_last()) + if history.last().0 is BeginDispatch && effect_guard(
            effect_run(row, history.drop_last()),
            history.last().0,
            history.last().1,
        ) {
            1nat
        } else {
            0nat
        }
    }
}

/// Whatever happens to a row, its effect is dispatched at most once, and never where the row did
/// not start out prepared.
pub proof fn law_effect_is_dispatched_at_most_once(row: EffectRow, history: Seq<(EffectChange, i64)>)
    requires
        forall|i: int| 0 <= i < history.len() ==> change_wf(#[trigger] history[i].0),
    ensures
        dispatches(row, history) <= 1,
        row.record.status != EffectStatus::Prepared ==> dispatches(row, history) == 0,
        dispatches(row, history) == 1 ==> effect_run(row, history).record.status
            != EffectStatus::Prepared,
        row.record.status != EffectStatus::Prepared ==> effect_run(row, history).record.status
            != EffectStatus::Prepared,
    decreases history.len(),
{
    if history.len() > 0 {
        law_effect_is_dispatched_at_most_once(row, history.drop_last());
        assert(change_wf(history.last().0));
    }
}

/// An accepted or failed effect stays as it is, whatever happens.
pub proof fn law_settled_effects_stay(row: EffectRow, history: Seq<(EffectChange, i64)>)
    requires
        is_terminal(row.record.status),
    ensures
        effect_run(row, history) == row,
    decreases history.len(),
{
    if history.len() > 0 {
        law_settled_effects_stay(row, history.drop_last());
    }
}

/// What a caller may do with an effect.
pub enum EffectClaim {
    /// The effect is this caller's to dispatch, now.
    Dispatch(EffectRecord),
    /// The effect was recorded before; this is its durable state.
    Existing(EffectRecord),
    /// The key was used for another request.
    Conflict,
}

/// What a claim needs next.
pub enum ClaimStep {
    /// Apply [`EffectChange::Recover`] to the record's row.
    Recover(EffectRecord),
    /// Apply [`EffectChange::BeginDispatch`] to the record's row.
    Begin(EffectRecord),
    /// Load the record with this identifier again.
    Reload(String),
    /// Nothing: the claim is decided.
    Done(EffectClaim),
}

/// The first step of a claim, once the row of its key is there: whether this claim inserted it,
/// and what it holds.
pub open spec fn claim_of_loaded(request_hash: Seq<u8>, inserted: bool, record: EffectRecord) -> ClaimStep {
    if record.request_hash@ != request_hash {
        ClaimStep::Done(EffectClaim::Conflict)
    } else if inserted || record.status == EffectStatus::Prepared {
        ClaimStep::Begin(record)
    } else if record.status == EffectStatus::InFlight {
        ClaimStep::Recover(record)
    } else {
        ClaimStep::Done(EffectClaim::Existing(record))
    }
}

/// Begins a claim.
pub fn claim_loaded(effect: &NewEffect, inserted: bool, record: EffectRecord) -> (r: ClaimStep)
    ensures
        r == claim_of_loaded(effect.request_hash@, inserted, record),
{
    if !same_bytes(record.request_hash.as_slice(), effect.request_hash.as_slice()) {
        return ClaimStep::Done(EffectClaim::Conflict);
    }
    if inserted || record.status == EffectStatus::Prepared {
        return ClaimStep::Begin(record);
    }
    if record.status == EffectStatus::InFlight {
        return ClaimStep::Recover(record);
    }
    ClaimStep::Done(EffectClaim::Existing(record))
}

/// The step after the attempt to give up on an effect in flight.
pub open spec fn claim_of_recovered(record: EffectRecord, recovered: bool) -> ClaimStep {
    ClaimStep::Done(
        EffectClaim::Existing(
            if recovered {
                with_status(record, EffectStatus::EffectUnknown)
            } else {
                record
            },
        ),
    )
}

/// Continues a claim after the attempt to give up on an effect in flight.
pub fn claim_recovered(record: EffectRecord, recovered: bool) -> (r: ClaimStep)
    ensures
        r == claim_of_recovered(record, recovered),
{
    let mut record = record;
    if recovered {
        record.status = EffectStatus::EffectUnknown;
    }
    ClaimStep::Done(EffectClaim::Existing(record))
}

/// The step after the attempt to start the dispatch.
pub open spec fn claim_of_begun(record: EffectRecord, changed: bool) -> ClaimStep {
    if changed {
        ClaimStep::Done(EffectClaim::Dispatch(with_status(record, EffectStatus::InFlight)))
    } else {
        ClaimStep::Reload(record.effect_id)
    }
}

/// Continues a claim after the attempt to start the dispatch.
pub fn claim_begun(record: EffectRecord, changed: bool) -> (r: ClaimStep)
    ensures
        r == claim_of_begun(record, changed),
{
    if !changed {
        return ClaimStep::Reload(record.effect_id);
    }
    let mut record = record;
    record.status = EffectStatus::InFlight;
    ClaimStep::Done(EffectClaim::Dispatch(record))
}

/// The decision of a claim whose dispatch another claim started first, where the record is still
/// there.
pub open spec fn claim_of_reloaded(current: Option<EffectRecord>) -> Option<EffectClaim> {
    match current {
        Some(record) => Some(EffectClaim::Existing(record)),
        None => None,
    }
}

/// Whether this ends a claim whose dispatch another claim started first.
pub open spec fn ends_reloaded(
    current: Option<EffectRecord>,
    claim: Result<EffectClaim, StoreError>,
) -> bool {
    match claim_of_reloaded(current) {
        Some(decided) => claim == Ok::<EffectClaim, StoreError>(decided),
        None => claim matches Err(StoreError::Invariant(message)) && message@
            == "Stripe effect disappeared"@,
    }
}

/// Ends a claim whose dispatch another claim started first.
pub fn claim_reloaded(current: Option<EffectRecord>) -> (r: Result<EffectClaim, StoreError>)
    ensures
        ends_reloaded(current, r),
{
    match current {
        Some(record) => Ok(EffectClaim::Existing(record)),
        None => Err(StoreError::Invariant("Stripe effect disappeared".to_owned())),
    }
}

/// How many steps may still follow a step of a claim.
pub open spec fn claim_rank(step: ClaimStep) -> nat {
    match step {
        ClaimStep::Recover(_) => 2,
        ClaimStep::Begin(_) => 2,
        ClaimStep::Reload(_) => 1,
        ClaimStep::Done(_) => 0,
    }
}

/// What following the steps of a claim makes of a row that nothing else touches meanwhile: the row
/// afterwards, and the decision.
pub open spec fn claim_follows(
    step: ClaimStep,
    row: EffectRow,
    uncertainty_seconds: i64,
    now: i64,
) -> (EffectRow, Option<EffectClaim>)
    decreases claim_rank(step),
{
    match step {
        ClaimStep::Recover(record) => {
            let change = EffectChange::Recover { uncertainty_seconds };
            claim_follows(
                claim_of_recovered(record, effect_guard(row, change, now)),
                effect_step(row, change, now),
                uncertainty_seconds,
                now,
            )
        },
        ClaimStep::Begin(record) => {
            let change = EffectChange::BeginDispatch;
            claim_follows(
                claim_of_begun(record, effect_guard(row, change, now)),
                effect_step(row, change, now),
                uncertainty_seconds,
                now,
            )
        },
        ClaimStep::Reload(_) => (row, claim_of_reloaded(Some(row.record))),
        ClaimStep::Done(claim) => (row, Some(claim)),
    }
}

/// What a claim makes of the row of its key.
pub open spec fn claim_run(
    row: EffectRow,
    request_hash: Seq<u8>,
    inserted: bool,
    uncertainty_seconds: i64,
    now: i64,
) -> (EffectRow, Option<EffectClaim>) {
    claim_follows(
        claim_of_loaded(request_hash, inserted, row.record),
        row,
        uncertainty_seconds,
        now,
    )
}

/// Two claims of one key: the same request is dispatched by the first alone, and the second gets
/// the durable state; another request gets a conflict and changes nothing.
pub proof fn law_retries_return_the_durable_state(
    row: EffectRow,
    request_hash: Seq<u8>,
    other_hash: Seq<u8>,
    uncertainty_seconds: i64,
    now: i64,
    later: i64,
)
    requires
        row.record.status == EffectStatus::Prepared,
        row.record.request_hash@ == request_hash,
        other_hash != request_hash,
    ensures
        ({
            let (first, claim) = claim_run(row, request_hash, true, uncertainty_seconds, now);
            let (second, retry) = claim_run(first, request_hash, false, uncertainty_seconds, later);
            let (third, conflict) = claim_run(first, other_hash, false, uncertainty_seconds, later);
            &&& claim == Some(EffectClaim::Dispatch(first.record))
            &&& first.record.status == EffectStatus::InFlight
            &&& retry == Some(EffectClaim::Existing(second.record))
            &&& second.record.status == if window_passed(
                now as int,
                uncertainty_seconds as int,
                later as int,
            ) {
                EffectStatus::EffectUnknown
            } else {
                EffectStatus::InFlight
            }
            &&& conflict == Some(EffectClaim::Conflict)
            &&& third == first
        }),
{
    reveal_with_fuel(claim_follows, 3);
}

/// A claim of a settled or unknown effect returns exactly what is stored, and changes nothing.
pub proof fn law_outcomes_are_returned(
    row: EffectRow,
    uncertainty_seconds: i64,
    now: i64,
)
    requires
        is_terminal(row.record.status) || row.record.status == EffectStatus::EffectUnknown,
    ensures
        claim_run(row, row.record.request_hash@, false, uncertainty_seconds, now) == (
            row,
            Some(EffectClaim::Existing(row.record)),
        ),
{
    reveal_with_fuel(claim_follows, 3);
}

/// The stored names of the operations and the statuses, and that no other name is read.
pub proof fn law_effect_names(text: Seq<char>)
    ensures
        operation_text(EffectOperation::Checkout) == "checkout"@,
        operation_text(EffectOperation::Portal) == "portal"@,
        status_text(EffectStatus::Prepared) == "prepared"@,
        status_text(EffectStatus::InFlight) == "in_flight"@,
        status_text(EffectStatus::Accepted) == "accepted"@,
        status_text(EffectStatus::KnownFailure) == "known_failure"@,
        status_text(EffectStatus::EffectUnknown) == "effect_unknown"@,
        operation_of(text) is Some ==> operation_text(operation_of(text)->0) == text,
        status_of(text) is Some ==> status_text(status_of(text)->0) == text,
{
}

/// What was stored of an effect is read as it was: under the names of its operation and its status
/// a record is read back unchanged, column by column.
pub proof fn law_stored_effects_read_back(
    record: EffectRecord,
    stored: StoredEffect,
    decoded: Result<EffectRecord, StoreError>,
)
    requires
        stored.effect_id == record.effect_id,
        stored.operation@ == operation_text(record.operation),
        stored.request_hash == record.request_hash,
        stored.status@ == status_text(record.status),
        stored.stripe_object_id == record.stripe_object_id,
        stored.response_nonce == record.response_nonce,
        stored.response_ciphertext == record.response_ciphertext,
        stored.failure_code == record.failure_code,
        decodes_effect(stored, decoded),
    ensures
        decoded == Ok::<EffectRecord, StoreError>(record),
{
    law_stored_names_read_back(record.operation, record.status);
}

/// An effect has been in flight for the whole window from the microsecond on at which the window's
/// seconds have passed since it was sent, and not before.
pub proof fn law_windows_pass_to_the_microsecond(sent: int, seconds: int)
    ensures
        window_passed(sent, seconds, sent + seconds * 1000000),
        !window_passed(sent, seconds, sent + seconds * 1000000 - 1),
        window_passed(sent, 1, sent + 1000000) && !window_passed(sent, 1, sent + 999999),
{
}

/// Each change applies to one status only: a prepared effect is dispatched; one in flight is
/// accepted, failed or marked as unknown, and given up on once its window has passed; one of
/// unknown outcome is resolved. Where it does not apply nothing changes, and where it does the time
/// is noted.
pub proof fn law_changes_apply_to_one_status(
    row: EffectRow,
    change: EffectChange,
    now: i64,
)
    ensures
        effect_guard(row, change, now) == (match change {
            EffectChange::BeginDispatch => row.record.status == EffectStatus::Prepared,
            EffectChange::Resolve(_) => row.record.status == EffectStatus::EffectUnknown,
            EffectChange::Recover { uncertainty_seconds } => row.record.status
                == EffectStatus::InFlight && row.updated_at + uncertainty_seconds * 1000000 <= now,
            _ => row.record.status == EffectStatus::InFlight,
        }),
        !effect_guard(row, change, now) ==> effect_step(row, change, now) == row,
        effect_guard(row, change, now) ==> effect_step(row, change, now).updated_at == now,
{
}

/// A dispatch puts an effect in flight; giving up on it, or marking it, makes its outcome unknown;
/// neither completes it, and neither touches anything else of the record.
pub proof fn law_open_effects_keep_their_record(row: EffectRow, seconds: i64, now: i64)
    ensures
        row.record.status == EffectStatus::Prepared ==> {
            let after = effect_step(row, EffectChange::BeginDispatch, now);
            &&& after.record == (EffectRecord { status: EffectStatus::InFlight, ..row.record })
            &&& after.completed_at == row.completed_at
        },
        row.record.status == EffectStatus::InFlight ==> {
            let after = effect_step(row, EffectChange::MarkUnknown, now);
            &&& after.record == (EffectRecord { status: EffectStatus::EffectUnknown, ..row.record })
            &&& after.completed_at == row.completed_at
        },
        row.record.status == EffectStatus::InFlight && row.updated_at + seconds * 1000000 <= now
            ==> {
            let after = effect_step(
                row,
                EffectChange::Recover { uncertainty_seconds: seconds },
                now,
            );
            &&& after.record == (EffectRecord { status: EffectStatus::EffectUnknown, ..row.record })
            &&& after.completed_at == row.completed_at
        },
{
}

/// What is accepted, failed or resolved is stored as it was handed over, and completed at that
/// time.
pub proof fn law_outcomes_are_stored(
    row: EffectRow,
    stripe_object_id: String,
    nonce: Vec<u8>,
    ciphertext: Vec<u8>,
    failure_code: String,
    resolution: ManualResolution,
    now: i64,
)
    ensures
        row.record.status == EffectStatus::InFlight ==> {
            let after = effect_step(
                row,
                EffectChange::Accept { stripe_object_id, nonce, ciphertext },
                now,
            );
            &&& after.record.status == EffectStatus::Accepted
            &&& after.record.stripe_object_id == Some(stripe_object_id)
            &&& after.record.response_nonce == Some(nonce)
            &&& after.record.response_ciphertext == Some(ciphertext)
            &&& after.record.failure_code is None
            &&& after.completed_at == Some(now)
        },
        row.record.status == EffectStatus::InFlight ==> {
            let after = effect_step(row, EffectChange::Fail { failure_code }, now);
            &&& after.record.status == EffectStatus::KnownFailure
            &&& after.record.failure_code == Some(failure_code)
            &&& after.record.stripe_object_id == row.record.stripe_object_id
            &&& after.record.response_nonce == row.record.response_nonce
            &&& after.record.response_ciphertext == row.record.response_ciphertext
            &&& after.completed_at == Some(now)
        },
        row.record.status == EffectStatus::EffectUnknown ==> {
            let after = effect_step(row, EffectChange::Resolve(resolution), now);
            &&& after.record.status == resolution.target_status
            &&& after.record.stripe_object_id == resolution.stripe_object_id
            &&& after.record.response_nonce == resolution.nonce
            &&& after.record.response_ciphertext == resolution.ciphertext
            &&& after.record.failure_code == resolution.failure_code
            &&& after.completed_at == Some(now)
        },
{
}

/// A recovery gives up on exactly those effects that have been in flight for the whole window, and
/// leaves every other row as it was.
pub proof fn law_recovery_gives_up_on_stranded_effects(
    before: Seq<EffectRow>,
    after: Seq<EffectRow>,
    seconds: i64,
    now: i64,
    count: int,
    i: int,
)
    requires
        recovers(before, after, seconds, now, count),
        0 <= i < before.len(),
    ensures
        after.len() == before.len(),
        ({
            let stranded = before[i].record.status == EffectStatus::InFlight && before[i].updated_at
                + seconds * 1000000 <= now;
            &&& stranded ==> after[i].record.status == EffectStatus::EffectUnknown
                && after[i].updated_at == now && after[i].record.effect_id
                == before[i].record.effect_id
            &&& !stranded ==> after[i] == before[i]
        }),
{
}

/// A recovery counts the effects that it gives up on, one by one: none where there are none, and
/// one more with a further row exactly where that row's effect has been in flight for the whole
/// window.
pub proof fn law_recovery_counts(
    rows: Seq<EffectRow>,
    row: EffectRow,
    after: Seq<EffectRow>,
    after_more: Seq<EffectRow>,
    seconds: i64,
    now: i64,
    count: int,
    count_more: int,
)
    requires
        recovers(rows, after, seconds, now, count),
        recovers(rows.push(row), after_more, seconds, now, count_more),
    ensures
        rows.len() == 0 ==> count == 0,
        count_more == count + (if row.record.status == EffectStatus::InFlight && row.updated_at
            + seconds * 1000000 <= now {
            1int
        } else {
            0int
        }),
{
    assert(rows.push(row).drop_last() == rows);
}

/// How a claim goes on from the recorded effect: another fingerprint is a conflict; a new or
/// prepared effect is to be dispatched; one in flight may have to be given up on; and any other is
/// returned as it is.
pub proof fn law_claims_follow_the_record(request_hash: Seq<u8>, inserted: bool, record: EffectRecord)
    ensures
        ({
            let step = claim_of_loaded(request_hash, inserted, record);
            &&& record.request_hash@ != request_hash ==> step == ClaimStep::Done(
                EffectClaim::Conflict,
            )
            &&& record.request_hash@ == request_hash && (inserted || record.status
                == EffectStatus::Prepared) ==> step == ClaimStep::Begin(record)
            &&& record.request_hash@ == request_hash && !inserted && record.status
                == EffectStatus::InFlight ==> step == ClaimStep::Recover(record)
            &&& record.request_hash@ == request_hash && !inserted && (record.status
                == EffectStatus::Accepted || record.status == EffectStatus::KnownFailure
                || record.status == EffectStatus::EffectUnknown) ==> step == ClaimStep::Done(
                EffectClaim::Existing(record),
            )
        }),
{
}

/// How a claim ends: a dispatch that was started is this claim's, and the record says that it is in
/// flight; one that was not started is looked up again under its own identifier; an effect that was
/// given up on is returned as unknown, and one that was not as it is.
pub proof fn law_claims_end_with_the_record(
    record: EffectRecord,
    claim: Result<EffectClaim, StoreError>,
)
    ensures
        claim_of_begun(record, true) == ClaimStep::Done(
            EffectClaim::Dispatch(EffectRecord { status: EffectStatus::InFlight, ..record }),
        ),
        claim_of_begun(record, false) == ClaimStep::Reload(record.effect_id),
        claim_of_recovered(record, true) == ClaimStep::Done(
            EffectClaim::Existing(EffectRecord { status: EffectStatus::EffectUnknown, ..record }),
        ),
        claim_of_recovered(record, false) == ClaimStep::Done(EffectClaim::Existing(record)),
        ends_reloaded(Some(record), claim) ==> claim == Ok::<EffectClaim, StoreError>(
            EffectClaim::Existing(record),
        ),
        ends_reloaded(None, claim) ==> (claim matches Err(StoreError::Invariant(message)) && message@
            == "Stripe effect disappeared"@),
{
}

/// Stored columns that name no operation, or no status, are told with what is stored.
pub proof fn law_unreadable_effects_are_told(
    stored: StoredEffect,
    decoded: Result<EffectRecord, StoreError>,
)
    requires
        decodes_effect(stored, decoded),
    ensures
        decoded is Ok == (operation_of(stored.operation@) is Some && status_of(
            stored.status@,
        ) is Some),
        operation_of(stored.operation@) is None ==> (decoded matches Err(
            StoreError::Invariant(message),
        ) && message@ == quoted_text(
            "unknown persisted Stripe effect operation"@,
            stored.operation@,
        )),
        operation_of(stored.operation@) is Some && status_of(stored.status@) is None ==> (
        decoded matches Err(StoreError::Invariant(message)) && message@ == quoted_text(
            "unknown persisted Stripe effect status"@,
            stored.status@,
        )),
{
}

} // verus!
