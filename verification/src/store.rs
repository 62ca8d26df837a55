//! What the store hands back, and the identifiers and timestamps that
//! new rows receive.

use vstd::prelude::*;

verus! {

/// A point in time: whole seconds since the Unix epoch and the
/// nanoseconds past that second (above 999_999_999 only in a leap second).
#[derive(Debug, Clone, Copy, PartialEq, Eq)]
pub struct Timestamp {
    pub secs: i64,
    pub nanos: u32,
}

/// An error reported by the database layer, with its text.
/// `UniqueViolation` is the database refusing a row because a unique or
/// primary key already holds its value; `Database` is any other error that
/// the database itself returned (another constraint, a locked database, a
/// missing table); `Other` is any other failure (connection, pool,
/// decoding).
#[derive(Debug, Clone, PartialEq, Eq)]
pub enum DbError {
    UniqueViolation(String),
    Database(String),
    Other(String),
}

impl DbError {
    /// The text of the error.
    pub open spec fn text(&self) -> String {
        match self {
            DbError::UniqueViolation(s) => *s,
            DbError::Database(s) => *s,
            DbError::Other(s) => *s,
        }
    }

    /// The text of the error, as it is shown to clients.
    pub fn message(&self) -> (m: String)
        ensures
            m == self.text(),
    {
        match self {
            DbError::UniqueViolation(s) => s.clone(),
            DbError::Database(s) => s.clone(),
            DbError::Other(s) => s.clone(),
        }
    }
}

/// A version-4 (random) UUID of the RFC 4122 variant, read as a
/// big-endian `u128`: the version nibble is 4 and the two variant
/// bits are `10`.
pub open spec fn is_v4(id: u128) -> bool {
    id & 0xF000_C000_0000_0000_0000u128 == 0x4000_8000_0000_0000_0000u128
}

/// Draws a fresh identifier with `uuid::Uuid::new_v4` and reads it with
/// `Uuid::as_u128`. The value is random; the contract states only what
/// `new_v4` fixes of every outcome: it masks in version 4 and the
/// RFC 4122 variant.
#[verifier::external_body]
pub(crate) fn new_id() -> (id: u128)
    ensures
        is_v4(id),
{
    uuid::Uuid::new_v4().as_u128()
}

/// An id that the library drew for a new row with `fresh_id`. Its
/// definition, the version-4 shape, is closed: outside this module the
/// predicate is known only of the ids that `fresh_id` returned, so a
/// contract that asks for it asks for an id drawn by the call, not any
/// value of the right shape.
pub closed spec fn is_drawn_id(id: u128) -> bool {
    is_v4(id)
}

/// A drawn id has the version-4 shape.
pub proof fn lemma_drawn_id_is_v4(id: u128)
    requires
        is_drawn_id(id),
    ensures
        is_v4(id),
{
}

/// Draws the id of a new row.
pub fn fresh_id() -> (id: u128)
    ensures
        is_drawn_id(id),
        is_v4(id),
{
    new_id()
}

/// A time that `now` read from the clock. Its definition (whole seconds
/// since the epoch and less than a second of nanoseconds) is closed:
/// outside this module the predicate is known only of the timestamps that
/// `now` answered, so a contract that asks for it asks for the clock's
/// reading, not any timestamp in range.
pub closed spec fn is_clock_reading(t: Timestamp) -> bool {
    t.secs >= 0 && t.nanos < 1_000_000_000
}

/// A clock reading lies at or after the epoch, with less than a second
/// of nanoseconds.
pub proof fn lemma_clock_reading_bounds(t: Timestamp)
    requires
        is_clock_reading(t),
    ensures
        t.secs >= 0,
        t.nanos < 1_000_000_000,
{
}

/// Reads the system clock with `std::time::SystemTime::elapsed` on
/// `std::time::UNIX_EPOCH`, and splits the `Duration` with `as_secs` and
/// `subsec_nanos`. `elapsed` answers `Err` when the clock reads before the
/// epoch; that becomes `None`. The reading depends on the time, so the
/// contract states only what holds of every outcome: `subsec_nanos` is
/// documented to stay below one billion.
#[verifier::external_body]
fn clock_since_epoch() -> (r: Option<(u64, u32)>)
    ensures
        r matches Some(d) ==> d.1 < 1_000_000_000,
{
    match std::time::UNIX_EPOCH.elapsed() {
        Ok(d) => Some((d.as_secs(), d.subsec_nanos())),
        Err(_) => None,
    }
}

/// The timestamp `secs` seconds and `nanos` nanoseconds after the Unix
/// epoch, or `None` when the seconds do not fit an `i64`.
pub open spec fn timestamp_after_epoch(secs: u64, nanos: u32) -> Option<Timestamp> {
    if secs <= 0x7fff_ffff_ffff_ffffu64 {
        Some(Timestamp { secs: secs as i64, nanos })
    } else {
        None
    }
}

/// Computes `timestamp_after_epoch`.
pub fn timestamp_since_epoch(secs: u64, nanos: u32) -> (r: Option<Timestamp>)
    ensures
        r == timestamp_after_epoch(secs, nanos),
{
    if secs <= 0x7fff_ffff_ffff_ffffu64 {
        Some(Timestamp { secs: secs as i64, nanos })
    } else {
        None
    }
}

/// The current time, or `None` when the clock cannot be read as a time
/// since the Unix epoch (it reads before the epoch, or too far after it
/// for an `i64` of seconds). A reading of the clock is turned into the
/// answer by `timestamp_since_epoch`.
pub fn now() -> (r: Option<Timestamp>)
    ensures
        r matches Some(t) ==> is_clock_reading(t) && t.secs >= 0 && t.nanos < 1_000_000_000,
{
    match clock_since_epoch() {
        Some((secs, nanos)) => timestamp_since_epoch(secs, nanos),
        None => None,
    }
}

/// The text of the error that stands for a clock that could not be read.
pub open spec fn is_clock_error(e: DbError) -> bool {
    e matches DbError::Other(s) && s@ == "the system clock cannot be read as a time since the Unix epoch"@
}

/// The error reported when a new row cannot be stamped with the time
/// because the clock could not be read.
pub fn clock_error() -> (e: DbError)
    ensures
        is_clock_error(e),
{
    DbError::Other("the system clock cannot be read as a time since the Unix epoch".to_owned())
}

} // verus!
