//! What a command makes up where it is not told: new identifiers and the current time.

use vstd::prelude::*;

use crate::text::{Id, digit, id_digit};
use crate::time::Timestamp;

verus! {

/// Whether an identifier says of itself that it is random: version 4, of the usual variant.
pub open spec fn random(id: Id) -> bool {
    &&& id_digit(id, 12) == digit(4)
    &&& id_digit(id, 16) == digit(8) || id_digit(id, 16) == digit(9) || id_digit(id, 16) == digit(
        10,
    ) || id_digit(id, 16) == digit(11)
}

/// Whether a moment lies in the Unix era and is no leap second.
pub open spec fn ordinary(moment: Timestamp) -> bool {
    moment.seconds >= 0 && moment.nanos < 1_000_000_000
}

/// Calls `uuid::Uuid::new_v4`, which gives 122 random bits and marks them as version 4.
/// That the bits differ from call to call is left unsaid: it rests on chance.
#[verifier::external_body]
pub(crate) fn fresh_id() -> (result: Id)
    ensures
        random(result),
{
    uuid::Uuid::new_v4().as_u128()
}

/// Calls `chrono::Utc::now`, which gives the machine's clock time since the Unix epoch, in
/// seconds and nanoseconds. Which time that is is left unsaid: it rests on the machine.
#[verifier::external_body]
pub(crate) fn current_time() -> (result: Timestamp)
    ensures
        ordinary(result),
{
    let now = chrono::Utc::now();
    Timestamp { seconds: now.timestamp(), nanos: now.timestamp_subsec_nanos() }
}

} // verus!
