//! Wall-clock access for the one place the merge engine needs it: the
//! `created` fallback of an injected custom model.

use vstd::prelude::*;

verus! {

/// Relies on chrono::Utc::now: seconds of the current Unix time. Nothing can
/// be promised of a clock reading, so callers state what holds of every
/// returned value.
#[verifier::external_body]
pub(crate) fn now_unix_seconds() -> i64 {
    chrono::Utc::now().timestamp()
}

} // verus!
