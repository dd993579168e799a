//! Recording one subscription: the row to insert, with its generated
//! identifier and time, and the reply owed for the storage outcome.

use vstd::prelude::*;

verus! {

/// A subscription request as the HTTP boundary hands it over, both fields
/// present.
#[derive(Clone, Debug, PartialEq, Eq)]
pub struct Subscription {
    pub name: String,
    pub email: String,
}

/// A UTC instant: whole seconds since the Unix epoch and the nanoseconds
/// within that second.
#[derive(Clone, Copy, Debug, PartialEq, Eq, Structural)]
pub struct Timestamp {
    pub secs: i64,
    pub nanos: u32,
}

/// The row recorded for one subscription.
#[derive(Clone, Debug, PartialEq, Eq)]
pub struct SubscriptionRow {
    pub id: u128,
    pub email: String,
    pub name: String,
    pub subscribed_at: Timestamp,
}

/// One received request: the row to insert and the identifier that tags the
/// request's log events, which is never stored.
#[derive(Clone, Debug, PartialEq, Eq)]
pub struct Intake {
    pub request_id: u128,
    pub row: SubscriptionRow,
}

/// How the handling of one subscription ended.
#[derive(Clone, Debug, PartialEq, Eq)]
pub enum IntakeResult {
    /// The row was written.
    Accepted,
    /// The store refused or failed the insert, for the cause given.
    StorageFailed(String),
}

/// `id` is a random (version 4, RFC 4122 variant) UUID read as a big-endian
/// integer.
pub open spec fn is_random_uuid(id: u128) -> bool {
    &&& (id >> 76u128) & 0xfu128 == 4
    &&& (id >> 62u128) & 0x3u128 == 2
}

/// `t` is a time the system clock can report: nanoseconds below one second.
pub open spec fn is_clock_time(t: Timestamp) -> bool {
    t.nanos < 1_000_000_000
}

/// `a` is not later than `b`.
pub open spec fn not_later(a: Timestamp, b: Timestamp) -> bool {
    a.secs < b.secs || (a.secs == b.secs && a.nanos <= b.nanos)
}

/// The row for `payload`, identified by `id` and stamped with `at`.
pub open spec fn row_of(payload: Subscription, id: u128, at: Timestamp) -> SubscriptionRow {
    SubscriptionRow { id, email: payload.email, name: payload.name, subscribed_at: at }
}

/// The result owed for what the store answered to the insert.
pub open spec fn result_of(outcome: Result<(), String>) -> IntakeResult {
    match outcome {
        Ok(()) => IntakeResult::Accepted,
        Err(cause) => IntakeResult::StorageFailed(cause),
    }
}

/// The HTTP status that stands for a result.
pub open spec fn status_of(r: IntakeResult) -> u16 {
    match r {
        IntakeResult::Accepted => 200,
        IntakeResult::StorageFailed(_) => 500,
    }
}

/// Relies on `uuid::Uuid::new_v4`, read with `Uuid::as_u128`: random bits with
/// the version field set to 4 and the variant field to RFC 4122.
#[verifier::external_body]
fn random_uuid() -> (r: u128)
    ensures
        is_random_uuid(r),
{
    uuid::Uuid::new_v4().as_u128()
}

/// Relies on chrono's `From<SystemTime> for DateTime<Utc>`, read with
/// `DateTime::timestamp` and `DateTime::timestamp_subsec_nanos`: the system
/// clock as seconds and nanoseconds, the nanoseconds below one second, times
/// before the epoch included.
#[verifier::external_body]
fn utc_now() -> (r: Timestamp)
    ensures
        is_clock_time(r),
{
    let now = chrono::DateTime::<chrono::Utc>::from(std::time::SystemTime::now());
    Timestamp { secs: now.timestamp(), nanos: now.timestamp_subsec_nanos() }
}

/// The row for `payload`, identified by `id` and stamped with `at`.
pub fn new_row(payload: Subscription, id: u128, at: Timestamp) -> (r: SubscriptionRow)
    ensures
        r == row_of(payload, id, at),
{
    SubscriptionRow { id, email: payload.email, name: payload.name, subscribed_at: at }
}

/// Takes in a subscription: draws a fresh identifier for the row and another
/// one for the request's log events, and stamps the row with the current time.
pub fn receive(payload: Subscription) -> (r: Intake)
    ensures
        r.row == row_of(payload, r.row.id, r.row.subscribed_at),
        is_random_uuid(r.row.id),
        is_random_uuid(r.request_id),
        is_clock_time(r.row.subscribed_at),
{
    let request_id = random_uuid();
    let id = random_uuid();
    let at = utc_now();
    Intake { request_id, row: new_row(payload, id, at) }
}

/// The result of a request, from what the store answered to its insert.
pub fn conclude(outcome: Result<(), String>) -> (r: IntakeResult)
    ensures
        r == result_of(outcome),
{
    match outcome {
        Ok(()) => IntakeResult::Accepted,
        Err(cause) => IntakeResult::StorageFailed(cause),
    }
}

impl IntakeResult {
    /// The HTTP status of the reply: 200 once accepted, 500 on a storage
    /// failure.
    pub fn status_code(&self) -> (r: u16)
        ensures
            r == status_of(*self),
    {
        match self {
            IntakeResult::Accepted => 200,
            IntakeResult::StorageFailed(_) => 500,
        }
    }
}

/// Two requests handled with distinct identifiers give two distinct rows with
/// those identifiers, and their times keep the order in which the clock gave
/// them.
pub proof fn lemma_two_intakes_two_rows(
    first: Subscription,
    second: Subscription,
    id1: u128,
    id2: u128,
    at1: Timestamp,
    at2: Timestamp,
)
    requires
        id1 != id2,
    ensures
        row_of(first, id1, at1) != row_of(second, id2, at2),
        row_of(first, id1, at1).id != row_of(second, id2, at2).id,
        not_later(at1, at2) ==> not_later(
            row_of(first, id1, at1).subscribed_at,
            row_of(second, id2, at2).subscribed_at,
        ),
{
}

/// A store that fails the insert makes the request end in a storage failure,
/// answered with a server error, carrying the store's cause.
pub proof fn lemma_failing_store_server_error(cause: String)
    ensures
        result_of(Err(cause)) == IntakeResult::StorageFailed(cause),
        status_of(result_of(Err(cause))) == 500,
{
}

} // verus!
