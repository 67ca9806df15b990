//! The ledger of published usage events: one row for each delivery, which moves from `prepared`
//! over `in_flight` to an outcome.

use vstd::prelude::*;

use crate::clock::Instant;
use crate::effects::{
    has_window_passed, law_stored_names_read_back, status_of, status_text, window_passed,
    EffectOperation, EffectStatus,
};
use crate::store::{quoted_text, StoreError};
use crate::text::{opt_text, same, same_bytes};

verus! {

/// A usage event to be recorded.
pub struct NewMeterEffect {
    pub delivery_id: String,
    pub caller_instance: String,
    pub request_hash: Vec<u8>,
    pub scope_kind: String,
    pub scope_id: String,
    pub subject: String,
    pub meter_alias: String,
    pub stripe_event_name: String,
    pub quantity: String,
    pub occurred_at: Instant,
}

/// A recorded usage event.
pub struct MeterEffectRecord {
    pub delivery_id: String,
    pub caller_instance: String,
    pub request_hash: Vec<u8>,
    pub status: EffectStatus,
    pub provider_reference: Option<String>,
    pub failure_code: Option<String>,
}

/// The stored columns of a usage event.
pub struct StoredMeterEffect {
    pub delivery_id: String,
    pub caller_instance: String,
    pub request_hash: Vec<u8>,
    pub status: String,
    pub provider_reference: Option<String>,
    pub failure_code: Option<String>,
}

/// Whether this is what the stored columns of a usage event hold.
pub open spec fn decodes_meter_effect(
    stored: StoredMeterEffect,
    decoded: Result<MeterEffectRecord, StoreError>,
) -> bool {
    match status_of(stored.status@) {
        Some(status) => decoded == Ok::<MeterEffectRecord, StoreError>(
            MeterEffectRecord {
                delivery_id: stored.delivery_id,
                caller_instance: stored.caller_instance,
                request_hash: stored.request_hash,
                status,
                provider_reference: stored.provider_reference,
                failure_code: stored.failure_code,
            },
        ),
        None => decoded matches Err(StoreError::Invariant(message)) && message@ == quoted_text(
            "unknown persisted Stripe effect status"@,
            stored.status@,
        ),
    }
}

/// Reads the stored columns of a usage event.
pub fn decode_meter_effect(stored: StoredMeterEffect) -> (r: Result<MeterEffectRecord, StoreError>)
    ensures
        decodes_meter_effect(stored, r),
{
    let status = match EffectStatus::parse(stored.status.as_str()) {
        Ok(status) => status,
        Err(error) => return Err(error),
    };
    Ok(
        MeterEffectRecord {
            delivery_id: stored.delivery_id,
            caller_instance: stored.caller_instance,
            request_hash: stored.request_hash,
            status,
            provider_reference: stored.provider_reference,
            failure_code: stored.failure_code,
        },
    )
}

/// A row of the ledger. Its times are microseconds since the Unix epoch.
pub struct MeterEffectRow {
    pub record: MeterEffectRecord,
    pub updated_at: i64,
    pub completed_at: Option<i64>,
}

/// A guarded change of a row.
pub enum MeterChange {
    /// Starts the one dispatch of a prepared event.
    BeginDispatch,
    /// Gives up on an event that has been in flight for longer than the window.
    Recover { uncertainty_seconds: i64 },
    /// Stores Stripe's reference of an event in flight.
    Accept { provider_reference: String },
    /// Stores the failure of an event in flight.
    Fail { failure_code: String },
    /// Records that the outcome of an event in flight is not known.
    MarkUnknown,
}

/// Whether a change applies to a row.
pub open spec fn meter_guard(row: MeterEffectRow, change: MeterChange, now: i64) -> bool {
    match change {
        MeterChange::BeginDispatch => row.record.status == EffectStatus::Prepared,
        MeterChange::Recover { uncertainty_seconds } => row.record.status == EffectStatus::InFlight
            && window_passed(row.updated_at as int, uncertainty_seconds as int, now as int),
        MeterChange::Accept { .. } => row.record.status == EffectStatus::InFlight,
        MeterChange::Fail { .. } => row.record.status == EffectStatus::InFlight,
        MeterChange::MarkUnknown => row.record.status == EffectStatus::InFlight,
    }
}

/// A record with another status.
pub open spec fn meter_with_status(record: MeterEffectRecord, status: EffectStatus) -> MeterEffectRecord {
    MeterEffectRecord { status, ..record }
}

/// A row after a change that applies to it.
pub open spec fn meter_changed(row: MeterEffectRow, change: MeterChange, now: i64) -> MeterEffectRow {
    match change {
        MeterChange::BeginDispatch => MeterEffectRow {
            record: meter_with_status(row.record, EffectStatus::InFlight),
            updated_at: now,
            ..row
        },
        MeterChange::Recover { .. } => MeterEffectRow {
            record: meter_with_status(row.record, EffectStatus::EffectUnknown),
            updated_at: now,
            ..row
        },
        MeterChange::Accept { provider_reference } => MeterEffectRow {
            record: MeterEffectRecord {
                status: EffectStatus::Accepted,
                provider_reference: Some(provider_reference),
                failure_code: None,
                ..row.record
            },
            updated_at: now,
            completed_at: Some(now),
        },
        MeterChange::Fail { failure_code } => MeterEffectRow {
            record: MeterEffectRecord {
                status: EffectStatus::KnownFailure,
                provider_reference: None,
                failure_code: Some(failure_code),
                ..row.record
            },
            updated_at: now,
            completed_at: Some(now),
        },
        MeterChange::MarkUnknown => MeterEffectRow {
            record: meter_with_status(row.record, EffectStatus::EffectUnknown),
            updated_at: now,
            ..row
        },
    }
}

/// A row after a change: untouched where the change does not apply.
pub open spec fn meter_step(row: MeterEffectRow, change: MeterChange, now: i64) -> MeterEffectRow {
    if meter_guard(row, change, now) {
        meter_changed(row, change, now)
    } else {
        row
    }
}

impl MeterEffectRow {
    /// Applies a change where its guard holds, and says whether it did.
    pub fn apply(&mut self, change: MeterChange, now: i64) -> (r: bool)
        ensures
            r == meter_guard(*old(self), change, now),
            *final(self) == meter_step(*old(self), change, now),
    {
        match change {
            MeterChange::BeginDispatch => {
                if self.record.status != EffectStatus::Prepared {
                    return false;
                }
                self.record.status = EffectStatus::InFlight;
            },
            MeterChange::Recover { uncertainty_seconds } => {
                if self.record.status != EffectStatus::InFlight || !has_window_passed(
                    self.updated_at,
                    uncertainty_seconds,
                    now,
                ) {
                    return false;
                }
                self.record.status = EffectStatus::EffectUnknown;
            },
            MeterChange::Accept { provider_reference } => {
                if self.record.status != EffectStatus::InFlight {
                    return false;
                }
                self.record.status = EffectStatus::Accepted;
                self.record.provider_reference = Some(provider_reference);
                self.record.failure_code = None;
                self.completed_at = Some(now);
            },
            MeterChange::Fail { failure_code } => {
                if self.record.status != EffectStatus::InFlight {
                    return false;
                }
                self.record.status = EffectStatus::KnownFailure;
                self.record.provider_reference = None;
                self.record.failure_code = Some(failure_code);
                self.completed_at = Some(now);
            },
            MeterChange::MarkUnknown => {
                if self.record.status != EffectStatus::InFlight {
                    return false;
                }
                self.record.status = EffectStatus::EffectUnknown;
            },
        }
        self.updated_at = now;
        true
    }
}

/// How many rows a recovery changes.
pub open spec fn meter_recoverable(rows: Seq<MeterEffectRow>, uncertainty_seconds: i64, now: i64) -> nat
    decreases rows.len(),
{
    if rows.len() == 0 {
        0
    } else {
        meter_recoverable(rows.drop_last(), uncertainty_seconds, now) + if meter_guard(
            rows.last(),
            MeterChange::Recover { uncertainty_seconds },
            now,
        ) {
            1nat
        } else {
            0nat
        }
    }
}

/// What a recovery does to the rows, and how many it changes.
pub open spec fn meter_recovers(
    before: Seq<MeterEffectRow>,
    after: Seq<MeterEffectRow>,
    uncertainty_seconds: i64,
    now: i64,
    count: int,
) -> bool {
    &&& count == meter_recoverable(before, uncertainty_seconds, now)
    &&& after == before.map_values(
        |row: MeterEffectRow| meter_step(row, MeterChange::Recover { uncertainty_seconds }, now),
    )
}

/// Gives up on every event that has been in flight for longer than the window, and counts them.
pub fn recover_stranded_meter_effects(
    rows: &mut Vec<MeterEffectRow>,
    uncertainty_seconds: i64,
    now: i64,
) -> (r: usize)
    ensures
        meter_recovers(old(rows)@, final(rows)@, uncertainty_seconds, now, r as int),
{
    let ghost before = rows@;
    let ghost step = |row: MeterEffectRow|
        meter_step(row, MeterChange::Recover { uncertainty_seconds }, now);
    let mut count: usize = 0;
    let mut i: usize = 0;
    while i < rows.len()
        invariant
            i <= rows@.len(),
            rows@.len() == before.len(),
            count <= i,
            count == meter_recoverable(before.take(i as int), uncertainty_seconds, now),
            step == (|row: MeterEffectRow|
                meter_step(row, MeterChange::Recover { uncertainty_seconds }, now)),
            forall|j: int| 0 <= j < i ==> #[trigger] rows@[j] == step(before[j]),
            forall|j: int| i <= j < rows@.len() ==> #[trigger] rows@[j] == before[j],
        decreases rows@.len() - i,
    {
        assert(before.take(i + 1).drop_last() == before.take(i as int));
        let row = &mut rows[i];
        if row.apply(MeterChange::Recover { uncertainty_seconds }, now) {
            count += 1;
        }
        i += 1;
    }
    assert(before.take(i as int) == before);
    assert(rows@ == before.map_values(step));
    count
}

/// What every row holds: an accepted event has the reference that Stripe gave it, which is the
/// delivery's own identifier, and a failed one has its code.
pub open spec fn meter_row_wf(row: MeterEffectRow) -> bool {
    &&& row.record.status == EffectStatus::Accepted ==> opt_text(row.record.provider_reference)
        == Some(row.record.delivery_id@)
    &&& row.record.status == EffectStatus::KnownFailure ==> row.record.failure_code is Some
}

/// Whether a change is one that the library makes to the row of this delivery: it accepts an event
/// only with the delivery's own identifier as reference.
pub open spec fn meter_change_wf(change: MeterChange, delivery_id: Seq<char>) -> bool {
    match change {
        MeterChange::Accept { provider_reference } => provider_reference@ == delivery_id,
        _ => true,
    }
}

/// A change leaves a row alone or moves it one step towards an outcome; what has an outcome, known
/// or not, stays as it is.
pub proof fn law_meter_effect_moves_forward(row: MeterEffectRow, change: MeterChange, now: i64)
    requires
        meter_row_wf(row),
        meter_change_wf(change, row.record.delivery_id@),
    ensures
        ({
            let after = meter_step(row, change, now);
            &&& meter_row_wf(after)
            &&& after == row || (row.record.status == EffectStatus::Prepared && after.record.status
                == EffectStatus::InFlight) || (row.record.status == EffectStatus::InFlight
                && after.record.status != EffectStatus::Prepared && after.record.status
                != EffectStatus::InFlight)
            &&& after.record.delivery_id == row.record.delivery_id
            &&& after.record.caller_instance == row.record.caller_instance
            &&& after.record.request_hash == row.record.request_hash
            &&& change is Recover && after != row ==> window_passed(
                row.updated_at as int,
                change->uncertainty_seconds as int,
                now as int,
            )
        }),
{
}

/// A row after a history of changes, each at its time.
pub open spec fn meter_run(row: MeterEffectRow, history: Seq<(MeterChange, i64)>) -> MeterEffectRow
    decreases history.len(),
{
    if history.len() == 0 {
        row
    } else {
        meter_step(meter_run(row, history.drop_last()), history.last().0, history.last().1)
    }
}

/// Whatever happens to a row, what every row holds stays so, and the row keeps its identity: an
/// event is never accepted under a reference other than its delivery's own identifier.
pub proof fn law_meter_rows_stay_well_formed(row: MeterEffectRow, history: Seq<(MeterChange, i64)>)
    requires
        meter_row_wf(row),
        forall|i: int|
            0 <= i < history.len() ==> meter_change_wf(
                (#[trigger] history[i]).0,
                row.record.delivery_id@,
            ),
    ensures
        meter_row_wf(meter_run(row, history)),
        meter_run(row, history).record.delivery_id == row.record.delivery_id,
        meter_run(row, history).record.caller_instance == row.record.caller_instance,
        meter_run(row, history).record.request_hash == row.record.request_hash,
    decreases history.len(),
{
    if history.len() > 0 {
        law_meter_rows_stay_well_formed(row, history.drop_last());
        assert(meter_change_wf(history[history.len() - 1].0, row.record.delivery_id@));
    }
}

/// How many dispatches a history of changes starts.
pub open spec fn meter_dispatches(row: MeterEffectRow, history: Seq<(MeterChange, i64)>) -> nat
    decreases history.len(),
{
    if history.len() == 0 {
        0
    } else {
        meter_dispatches(row, history.drop_last()) + if history.last().0 is BeginDispatch
            && meter_guard(
            meter_run(row, history.drop_last()),
            history.last().0,
            history.last().1,
        ) {
            1nat
        } else {
            0nat
        }
    }
}

/// Whatever happens to a row, its event is dispatched at most once.
pub proof fn law_meter_effect_is_dispatched_at_most_once(
    row: MeterEffectRow,
    history: Seq<(MeterChange, i64)>,
)
    ensures
        meter_dispatches(row, history) <= 1,
        row.record.status != EffectStatus::Prepared ==> meter_dispatches(row, history) == 0,
        meter_dispatches(row, history) == 1 ==> meter_run(row, history).record.status
            != EffectStatus::Prepared,
        row.record.status != EffectStatus::Prepared ==> meter_run(row, history).record.status
            != EffectStatus::Prepared,
    decreases history.len(),
{
    if history.len() > 0 {
        law_meter_effect_is_dispatched_at_most_once(row, history.drop_last());
    }
}

/// What a caller may do with a usage event.
pub enum MeterEffectClaim {
    /// The event is this caller's to dispatch, now.
    Dispatch(MeterEffectRecord),
    /// The event was recorded before; this is its durable state.
    Existing(MeterEffectRecord),
    /// The delivery was used for another request.
    Conflict,
}

/// What a claim needs next.
pub enum MeterClaimStep {
    /// Apply [`MeterChange::Recover`] to the record's row.
    Recover(MeterEffectRecord),
    /// Apply [`MeterChange::BeginDispatch`] to the record's row.
    Begin(MeterEffectRecord),
    /// Load the record of this delivery again.
    Reload(String),
    /// Nothing: the claim is decided.
    Done(MeterEffectClaim),
}

/// The first step of a claim, once the row of its delivery is there.
pub open spec fn meter_claim_of_loaded(
    caller: Seq<char>,
    request_hash: Seq<u8>,
    inserted: bool,
    record: MeterEffectRecord,
) -> MeterClaimStep {
    if record.caller_instance@ != caller || record.request_hash@ != request_hash {
        MeterClaimStep::Done(MeterEffectClaim::Conflict)
    } else if inserted || record.status == EffectStatus::Prepared {
        MeterClaimStep::Begin(record)
    } else if record.status == EffectStatus::InFlight {
        MeterClaimStep::Recover(record)
    } else {
        MeterClaimStep::Done(MeterEffectClaim::Existing(record))
    }
}

/// Begins a claim.
pub fn meter_claim_loaded(effect: &NewMeterEffect, inserted: bool, record: MeterEffectRecord) -> (r:
    MeterClaimStep)
    ensures
        r == meter_claim_of_loaded(
            effect.caller_instance@,
            effect.request_hash@,
            inserted,
            record,
        ),
{
    if !same(record.caller_instance.as_str(), effect.caller_instance.as_str()) || !same_bytes(
        record.request_hash.as_slice(),
        effect.request_hash.as_slice(),
    ) {
        return MeterClaimStep::Done(MeterEffectClaim::Conflict);
    }
    if inserted || record.status == EffectStatus::Prepared {
        return MeterClaimStep::Begin(record);
    }
    if record.status == EffectStatus::InFlight {
        return MeterClaimStep::Recover(record);
    }
    MeterClaimStep::Done(MeterEffectClaim::Existing(record))
}

/// The step after the attempt to give up on an event in flight.
pub open spec fn meter_claim_of_recovered(record: MeterEffectRecord, recovered: bool) -> MeterClaimStep {
    MeterClaimStep::Done(
        MeterEffectClaim::Existing(
            if recovered {
                meter_with_status(record, EffectStatus::EffectUnknown)
            } else {
                record
            },
        ),
    )
}

/// Continues a claim after the attempt to give up on an event in flight.
pub fn meter_claim_recovered(record: MeterEffectRecord, recovered: bool) -> (r: MeterClaimStep)
    ensures
        r == meter_claim_of_recovered(record, recovered),
{
    let mut record = record;
    if recovered {
        record.status = EffectStatus::EffectUnknown;
    }
    MeterClaimStep::Done(MeterEffectClaim::Existing(record))
}

/// The step after the attempt to start the dispatch.
pub open spec fn meter_claim_of_begun(record: MeterEffectRecord, changed: bool) -> MeterClaimStep {
    if changed {
        MeterClaimStep::Done(
            MeterEffectClaim::Dispatch(meter_with_status(record, EffectStatus::InFlight)),
        )
    } else {
        MeterClaimStep::Reload(record.delivery_id)
    }
}

/// Continues a claim after the attempt to start the dispatch.
pub fn meter_claim_begun(record: MeterEffectRecord, changed: bool) -> (r: MeterClaimStep)
    ensures
        r == meter_claim_of_begun(record, changed),
{
    if !changed {
        return MeterClaimStep::Reload(record.delivery_id);
    }
    let mut record = record;
    record.status = EffectStatus::InFlight;
    MeterClaimStep::Done(MeterEffectClaim::Dispatch(record))
}

/// The decision of a claim whose dispatch another claim started first, where the record is still
/// there.
pub open spec fn meter_claim_of_reloaded(current: Option<MeterEffectRecord>) -> Option<
    MeterEffectClaim,
> {
    match current {
        Some(record) => Some(MeterEffectClaim::Existing(record)),
        None => None,
    }
}

/// Whether this ends a claim whose dispatch another claim started first.
pub open spec fn ends_meter_reloaded(
    current: Option<MeterEffectRecord>,
    claim: Result<MeterEffectClaim, StoreError>,
) -> bool {
    match meter_claim_of_reloaded(current) {
        Some(decided) => claim == Ok::<MeterEffectClaim, StoreError>(decided),
        None => claim matches Err(StoreError::Invariant(message)) && message@
            == "Stripe meter effect disappeared"@,
    }
}

/// Ends a claim whose dispatch another claim started first.
pub fn meter_claim_reloaded(current: Option<MeterEffectRecord>) -> (r: Result<
    MeterEffectClaim,
    StoreError,
>)
    ensures
        ends_meter_reloaded(current, r),
{
    match current {
        Some(record) => Ok(MeterEffectClaim::Existing(record)),
        None => Err(StoreError::Invariant("Stripe meter effect disappeared".to_owned())),
    }
}

/// How many steps may still follow a step of a claim.
pub open spec fn meter_claim_rank(step: MeterClaimStep) -> nat {
    match step {
        MeterClaimStep::Recover(_) => 2,
        MeterClaimStep::Begin(_) => 2,
        MeterClaimStep::Reload(_) => 1,
        MeterClaimStep::Done(_) => 0,
    }
}

/// What following the steps of a claim makes of a row that nothing else touches meanwhile: the row
/// afterwards, and the decision.
pub open spec fn meter_claim_follows(
    step: MeterClaimStep,
    row: MeterEffectRow,
    uncertainty_seconds: i64,
    now: i64,
) -> (MeterEffectRow, Option<MeterEffectClaim>)
    decreases meter_claim_rank(step),
{
    match step {
        MeterClaimStep::Recover(record) => {
            let change = MeterChange::Recover { uncertainty_seconds };
            meter_claim_follows(
                meter_claim_of_recovered(record, meter_guard(row, change, now)),
                meter_step(row, change, now),
                uncertainty_seconds,
                now,
            )
        },
        MeterClaimStep::Begin(record) => {
            let change = MeterChange::BeginDispatch;
            meter_claim_follows(
                meter_claim_of_begun(record, meter_guard(row, change, now)),
                meter_step(row, change, now),
                uncertainty_seconds,
                now,
            )
        },
        MeterClaimStep::Reload(_) => (row, meter_claim_of_reloaded(Some(row.record))),
        MeterClaimStep::Done(claim) => (row, Some(claim)),
    }
}

/// What a claim makes of the row of its delivery.
pub open spec fn meter_claim_run(
    row: MeterEffectRow,
    caller: Seq<char>,
    request_hash: Seq<u8>,
    inserted: bool,
    uncertainty_seconds: i64,
    now: i64,
) -> (MeterEffectRow, Option<MeterEffectClaim>) {
    meter_claim_follows(
        meter_claim_of_loaded(caller, request_hash, inserted, row.record),
        row,
        uncertainty_seconds,
        now,
    )
}

/// Two claims of one delivery: the same request is dispatched by the first alone, and the second
/// gets the durable state; another request, or another caller, gets a conflict and changes
/// nothing.
pub proof fn law_meter_retries_return_the_durable_state(
    row: MeterEffectRow,
    other_caller: Seq<char>,
    other_hash: Seq<u8>,
    uncertainty_seconds: i64,
    now: i64,
    later: i64,
)
    requires
        row.record.status == EffectStatus::Prepared,
        other_hash != row.record.request_hash@ || other_caller != row.record.caller_instance@,
    ensures
        ({
            let caller = row.record.caller_instance@;
            let hash = row.record.request_hash@;
            let (first, claim) = meter_claim_run(row, caller, hash, true, uncertainty_seconds, now);
            let (second, retry) = meter_claim_run(
                first,
                caller,
                hash,
                false,
                uncertainty_seconds,
                later,
            );
            let (third, conflict) = meter_claim_run(
                first,
                other_caller,
                other_hash,
                false,
                uncertainty_seconds,
                later,
            );
            &&& claim == Some(MeterEffectClaim::Dispatch(first.record))
            &&& first.record.status == EffectStatus::InFlight
            &&& retry == Some(MeterEffectClaim::Existing(second.record))
            &&& second.record.status == if window_passed(
                now as int,
                uncertainty_seconds as int,
                later as int,
            ) {
                EffectStatus::EffectUnknown
            } else {
                EffectStatus::InFlight
            }
            &&& conflict == Some(MeterEffectClaim::Conflict)
            &&& third == first
        }),
{
    reveal_with_fuel(meter_claim_follows, 3);
}

/// What was stored of a usage event is read as it was: under the name of its status a record is
/// read back unchanged, column by column.
pub proof fn law_stored_meter_effects_read_back(
    record: MeterEffectRecord,
    stored: StoredMeterEffect,
    decoded: Result<MeterEffectRecord, StoreError>,
)
    requires
        stored.delivery_id == record.delivery_id,
        stored.caller_instance == record.caller_instance,
        stored.request_hash == record.request_hash,
        stored.status@ == status_text(record.status),
        stored.provider_reference == record.provider_reference,
        stored.failure_code == record.failure_code,
        decodes_meter_effect(stored, decoded),
    ensures
        decoded == Ok::<MeterEffectRecord, StoreError>(record),
{
    law_stored_names_read_back(EffectOperation::Checkout, record.status);
}

/// Each change applies to one status only: a prepared event is dispatched; one in flight is
/// accepted, failed or marked as unknown, and given up on once its window has passed; what has an
/// outcome, known or not, takes no change. Where a change does not apply nothing changes, and where
/// it does the time is noted.
pub proof fn law_meter_changes_apply_to_one_status(
    row: MeterEffectRow,
    change: MeterChange,
    now: i64,
)
    ensures
        meter_guard(row, change, now) == (match change {
            MeterChange::BeginDispatch => row.record.status == EffectStatus::Prepared,
            MeterChange::Recover { uncertainty_seconds } => row.record.status
                == EffectStatus::InFlight && row.updated_at + uncertainty_seconds * 1000000 <= now,
            _ => row.record.status == EffectStatus::InFlight,
        }),
        !meter_guard(row, change, now) ==> meter_step(row, change, now) == row,
        meter_guard(row, change, now) ==> meter_step(row, change, now).updated_at == now,
{
}

/// A dispatch puts an event in flight; giving up on it, or marking it, makes its outcome unknown;
/// neither completes it, and neither touches anything else of the record.
pub proof fn law_open_meter_effects_keep_their_record(row: MeterEffectRow, seconds: i64, now: i64)
    ensures
        row.record.status == EffectStatus::Prepared ==> {
            let after = meter_step(row, MeterChange::BeginDispatch, now);
            &&& after.record == (MeterEffectRecord { status: EffectStatus::InFlight, ..row.record })
            &&& after.completed_at == row.completed_at
        },
        row.record.status == EffectStatus::InFlight ==> {
            let after = meter_step(row, MeterChange::MarkUnknown, now);
            &&& after.record == (MeterEffectRecord {
                status: EffectStatus::EffectUnknown,
                ..row.record
            })
            &&& after.completed_at == row.completed_at
        },
        row.record.status == EffectStatus::InFlight && row.updated_at + seconds * 1000000 <= now
            ==> {
            let after = meter_step(
                row,
                MeterChange::Recover { uncertainty_seconds: seconds },
                now,
            );
            &&& after.record == (MeterEffectRecord {
                status: EffectStatus::EffectUnknown,
                ..row.record
            })
            &&& after.completed_at == row.completed_at
        },
{
}

/// What is accepted or failed is stored as it was handed over, and completed at that time.
pub proof fn law_meter_outcomes_are_stored(
    row: MeterEffectRow,
    provider_reference: String,
    failure_code: String,
    now: i64,
)
    requires
        row.record.status == EffectStatus::InFlight,
    ensures
        ({
            let after = meter_step(row, MeterChange::Accept { provider_reference }, now);
            &&& after.record.status == EffectStatus::Accepted
            &&& after.record.provider_reference == Some(provider_reference)
            &&& after.record.failure_code is None
            &&& after.completed_at == Some(now)
        }),
        ({
            let after = meter_step(row, MeterChange::Fail { failure_code }, now);
            &&& after.record.status == EffectStatus::KnownFailure
            &&& after.record.provider_reference is None
            &&& after.record.failure_code == Some(failure_code)
            &&& after.completed_at == Some(now)
        }),
{
}

/// A recovery gives up on exactly those events that have been in flight for the whole window, and
/// leaves every other row as it was.
pub proof fn law_meter_recovery_gives_up_on_stranded_events(
    before: Seq<MeterEffectRow>,
    after: Seq<MeterEffectRow>,
    seconds: i64,
    now: i64,
    count: int,
    i: int,
)
    requires
        meter_recovers(before, after, seconds, now, count),
        0 <= i < before.len(),
    ensures
        after.len() == before.len(),
        ({
            let stranded = before[i].record.status == EffectStatus::InFlight && before[i].updated_at
                + seconds * 1000000 <= now;
            &&& stranded ==> after[i].record.status == EffectStatus::EffectUnknown
                && after[i].updated_at == now && after[i].record.delivery_id
                == before[i].record.delivery_id
            &&& !stranded ==> after[i] == before[i]
        }),
{
}

/// A recovery counts the events that it gives up on, one by one: none where there are none, and
/// one more with a further row exactly where that row's event has been in flight for the whole
/// window.
pub proof fn law_meter_recovery_counts(
    rows: Seq<MeterEffectRow>,
    row: MeterEffectRow,
    after: Seq<MeterEffectRow>,
    after_more: Seq<MeterEffectRow>,
    seconds: i64,
    now: i64,
    count: int,
    count_more: int,
)
    requires
        meter_recovers(rows, after, seconds, now, count),
        meter_recovers(rows.push(row), after_more, seconds, now, count_more),
    ensures
        rows.len() == 0 ==> count == 0,
        count_more == count + (if row.record.status == EffectStatus::InFlight && row.updated_at
            + seconds * 1000000 <= now {
            1int
        } else {
            0int
        }),
{
    assert(rows.push(row).drop_last() == rows);
}

/// How a claim goes on from the recorded event: another caller or another fingerprint is a conflict;
/// a new or prepared event is to be dispatched; one in flight may have to be given up on; and any
/// other is returned as it is.
pub proof fn law_meter_claims_follow_the_record(
    caller: Seq<char>,
    request_hash: Seq<u8>,
    inserted: bool,
    record: MeterEffectRecord,
)
    ensures
        ({
            let step = meter_claim_of_loaded(caller, request_hash, inserted, record);
            let own = record.caller_instance@ == caller && record.request_hash@ == request_hash;
            &&& !own ==> step == MeterClaimStep::Done(MeterEffectClaim::Conflict)
            &&& own && (inserted || record.status == EffectStatus::Prepared) ==> step
                == MeterClaimStep::Begin(record)
            &&& own && !inserted && record.status == EffectStatus::InFlight ==> step
                == MeterClaimStep::Recover(record)
            &&& own && !inserted && (record.status == EffectStatus::Accepted || record.status
                == EffectStatus::KnownFailure || record.status == EffectStatus::EffectUnknown)
                ==> step == MeterClaimStep::Done(MeterEffectClaim::Existing(record))
        }),
{
}

/// How a claim ends: a dispatch that was started is this claim's, and the record says that it is in
/// flight; one that was not started is looked up again under its own delivery; an event that was
/// given up on is returned as unknown, and one that was not as it is.
pub proof fn law_meter_claims_end_with_the_record(
    record: MeterEffectRecord,
    claim: Result<MeterEffectClaim, StoreError>,
)
    ensures
        meter_claim_of_begun(record, true) == MeterClaimStep::Done(
            MeterEffectClaim::Dispatch(
                MeterEffectRecord { status: EffectStatus::InFlight, ..record },
            ),
        ),
        meter_claim_of_begun(record, false) == MeterClaimStep::Reload(record.delivery_id),
        meter_claim_of_recovered(record, true) == MeterClaimStep::Done(
            MeterEffectClaim::Existing(
                MeterEffectRecord { status: EffectStatus::EffectUnknown, ..record },
            ),
        ),
        meter_claim_of_recovered(record, false) == MeterClaimStep::Done(
            MeterEffectClaim::Existing(record),
        ),
        ends_meter_reloaded(Some(record), claim) ==> claim == Ok::<MeterEffectClaim, StoreError>(
            MeterEffectClaim::Existing(record),
        ),
        ends_meter_reloaded(None, claim) ==> (claim matches Err(StoreError::Invariant(message))
            && message@ == "Stripe meter effect disappeared"@),
{
}

/// Stored columns that name no status are told with what is stored.
pub proof fn law_unreadable_meter_effects_are_told(
    stored: StoredMeterEffect,
    decoded: Result<MeterEffectRecord, StoreError>,
)
    requires
        decodes_meter_effect(stored, decoded),
        status_of(stored.status@) is None,
    ensures
        decoded matches Err(StoreError::Invariant(message)) && message@ == quoted_text(
            "unknown persisted Stripe effect status"@,
            stored.status@,
        ),
{
}

} // verus!
