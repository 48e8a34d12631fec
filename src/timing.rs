//! Kernel timings from the device's profiling timestamps.

use crate::error::{ErrorKind, GenError, GenResult};
use vstd::prelude::*;

verus! {

/// The timestamps are all present and consistent: neither the start nor the
/// enqueue time lies after the end.
pub open spec fn timestamps_usable(queued: Option<u64>, start: Option<u64>, end: Option<u64>) -> bool {
    (queued, start, end) matches (Some(q), Some(s), Some(e)) && s <= e && q <= e
}

/// From the enqueue, start and end timestamps of a kernel run (in
/// nanoseconds, `None` where the device did not report one), the kernel's
/// own execution time and the total time since it was enqueued.
pub fn get_execution_time_ns(queued: Option<u64>, start: Option<u64>, end: Option<u64>) -> (r:
    GenResult<(u64, u64)>)
    ensures
        r is Ok <==> timestamps_usable(queued, start, end),
        r matches Ok((kernel, total)) ==> (queued, start, end) matches (Some(q), Some(s), Some(e))
            && kernel == e - s && total == e - q,
        r matches Err(err) ==> err.kind == ErrorKind::ProfilingUnavailable,
        !((queued, start, end) matches (Some(_), Some(_), Some(_))) ==> (r matches Err(err)
            && err.message@ == "Unable to obtain kernel profiling info"@),
        (queued, start, end) matches (Some(_), Some(_), Some(_)) && !timestamps_usable(
            queued,
            start,
            end,
        ) ==> (r matches Err(err) && err.message@
            == "Kernel profiling timestamps are out of order"@),
{
    match (queued, start, end) {
        (Some(q), Some(s), Some(e)) => {
            if s <= e && q <= e {
                Ok((e - s, e - q))
            } else {
                Err(
                    GenError::with_text(
                        ErrorKind::ProfilingUnavailable,
                        "Kernel profiling timestamps are out of order",
                    ),
                )
            }
        },
        _ => Err(
            GenError::with_text(
                ErrorKind::ProfilingUnavailable,
                "Unable to obtain kernel profiling info",
            ),
        ),
    }
}

} // verus!
