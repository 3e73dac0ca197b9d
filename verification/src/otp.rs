//! The decisions of the OTP repository: the cooldown that limits how often
//! an OTP is re-issued for an address, how the reply to that replacement is
//! read, and which documents go when one address has several OTPs.
use crate::error::{duplicate_key_violation, is_duplicate_key_error, AppError, DatabaseError};
use crate::model::Otp;
use vstd::prelude::*;

verus! {

/// The instants, in milliseconds since the Unix epoch, that chrono's
/// `DateTime<Utc>` can hold: from `DateTime::<Utc>::MIN_UTC` (1 January of
/// the year -262143) to `DateTime::<Utc>::MAX_UTC` (the last millisecond of
/// 31 December 262142).
pub open spec fn in_chrono_range(ms: int) -> bool {
    -8334601315200000 <= ms <= 8210266876799999
}

/// The instant `seconds` seconds before `ms`.
pub open spec fn seconds_before(ms: int, seconds: int) -> int {
    ms - seconds * 1000
}

/// chrono can compute the cooldown cutoff of an OTP issued at
/// `created_at_ms`: the issue time is a `DateTime<Utc>`, the cooldown a
/// `TimeDelta` (at most `i64::MAX / 1000` seconds either way) and the
/// difference again a `DateTime<Utc>`.
pub open spec fn cooldown_computable(created_at_ms: int, cooldown_seconds: int) -> bool {
    &&& in_chrono_range(created_at_ms)
    &&& -(i64::MAX / 1000) <= cooldown_seconds <= i64::MAX / 1000
    &&& in_chrono_range(seconds_before(created_at_ms, cooldown_seconds))
}

/// Calls chrono: `DateTime::<Utc>::from_timestamp_millis(millis)`, minus
/// `Duration::seconds(seconds)`, read back with `timestamp_millis`.  chrono
/// subtracts the whole seconds exactly; it panics when the duration or the
/// result is out of its range, which `requires` rules out (and
/// `from_timestamp_millis` then returns `Some`).
#[verifier::external_body]
fn chrono_seconds_before(millis: i64, seconds: i64) -> (earlier: i64)
    requires
        cooldown_computable(millis as int, seconds as int),
    ensures
        earlier == seconds_before(millis as int, seconds as int),
{
    let at = chrono::DateTime::<chrono::Utc>::from_timestamp_millis(millis).unwrap();
    (at - chrono::Duration::seconds(seconds)).timestamp_millis()
}

/// The filter of the OTP replacement: the stored OTP of `email` issued no
/// later than `issued_no_later_than_ms`.
#[derive(Clone, Debug)]
pub struct OtpReplaceFilter {
    pub email: String,
    pub issued_no_later_than_ms: i64,
}

/// The filter selects `stored`.
pub open spec fn selects(filter: OtpReplaceFilter, stored: Otp) -> bool {
    stored.email@ == filter.email@ && stored.created_at_ms <= filter.issued_no_later_than_ms
}

/// The filter under which a new OTP replaces the stored one of its address:
/// only a stored OTP issued at least `cooldown_seconds` before the new one.
pub fn otp_replace_filter(otp: &Otp, cooldown_seconds: i64) -> (filter: OtpReplaceFilter)
    requires
        cooldown_computable(otp.created_at_ms as int, cooldown_seconds as int),
    ensures
        filter.email@ == otp.email@,
        filter.issued_no_later_than_ms == seconds_before(otp.created_at_ms as int, cooldown_seconds as int),
{
    OtpReplaceFilter {
        email: otp.email.clone(),
        issued_no_later_than_ms: chrono_seconds_before(otp.created_at_ms, cooldown_seconds),
    }
}

/// The cooldown: the replacement filter of a new OTP selects a stored OTP of
/// the same address exactly when that one was issued at least
/// `cooldown_seconds` before the new one; one issued within the cooldown is
/// never replaced.
pub proof fn lemma_cooldown_protects_recent_otp(
    new_otp: Otp,
    cooldown_seconds: int,
    filter: OtpReplaceFilter,
    stored: Otp,
)
    requires
        filter.email@ == new_otp.email@,
        filter.issued_no_later_than_ms == seconds_before(new_otp.created_at_ms as int, cooldown_seconds),
        stored.email@ == new_otp.email@,
    ensures
        selects(filter, stored) <==> stored.created_at_ms + cooldown_seconds * 1000 <= new_otp.created_at_ms,
{
}

/// The text of the refusal of an OTP re-issued within its cooldown.
pub open spec fn rate_limit_text() -> Seq<char> {
    "OTP request rate limit exceeded. Please try again later."@
}

/// The result of the upsert of `otp`, given the server's reply: the OTP on
/// success; a rate-limit refusal when the server reports a duplicate key
/// (the address still has an OTP within its cooldown); the database failure
/// otherwise.
pub fn otp_upsert_outcome(otp: Otp, reply: Result<(), DatabaseError>) -> (res: Result<Otp, AppError>)
    ensures
        match reply {
            Ok(()) => res == Ok::<Otp, AppError>(otp),
            Err(err) => if duplicate_key_violation(err) {
                res matches Err(AppError::BadRequest(msg)) && msg@ == rate_limit_text()
                    && msg@ == "OTP request rate limit exceeded. Please try again later."@
            } else {
                res == Err::<Otp, AppError>(AppError::Database(err))
            },
        },
{
    match reply {
        Ok(()) => Ok(otp),
        Err(err) => {
            if is_duplicate_key_error(&err) {
                Err(AppError::BadRequest(String::from_str("OTP request rate limit exceeded. Please try again later.")))
            } else {
                Err(AppError::Database(err))
            }
        },
    }
}

/// Of the ids of the OTPs stored for one address, those to delete so that
/// only the first remains; nothing when there is at most one.
pub fn surplus_ids<T>(ids: Vec<T>) -> (surplus: Option<Vec<T>>)
    ensures
        surplus is Some <==> ids.len() > 1,
        surplus matches Some(rest) ==> rest@ == ids@.drop_first(),
{
    if ids.len() <= 1 {
        return None;
    }
    let mut rest = ids;
    rest.remove(0);
    Some(rest)
}

/// Removing the surplus keeps exactly one OTP per address: the first id and
/// the surplus together are all the ids, and the first is not among the
/// surplus when the ids are distinct.
pub proof fn lemma_surplus_keeps_first<T>(ids: Seq<T>, surplus: Seq<T>)
    requires
        ids.len() > 1,
        surplus == ids.drop_first(),
    ensures
        ids == seq![ids[0]] + surplus,
        ids.no_duplicates() ==> !surplus.contains(ids[0]),
{
    assert(ids =~= seq![ids[0]] + surplus);
    if ids.no_duplicates() && surplus.contains(ids[0]) {
        let k = choose|k: int| 0 <= k < surplus.len() && surplus[k] == ids[0];
        assert(ids[k + 1] == ids[0]);
    }
}

} // verus!
