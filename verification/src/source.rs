//! Normalization of what an upstream listing call returned: every id is
//! mapped to its lowercase image before the list enters the cache or the
//! merge engine.

use vstd::prelude::*;
use crate::lower::{lower_of, lowercase};
use crate::records::{ModelRecord, ModelRecordView};

verus! {

/// The record with its id replaced by the lowercase image, other fields
/// unchanged.
pub open spec fn spec_normalize_record(m: ModelRecordView) -> ModelRecordView {
    ModelRecordView { id: lower_of(m.id), object: m.object, created: m.created, owned_by: m.owned_by }
}

/// Elementwise id normalization of an upstream list.
pub open spec fn spec_normalize_records(ms: Seq<ModelRecordView>) -> Seq<ModelRecordView> {
    ms.map_values(|m: ModelRecordView| spec_normalize_record(m))
}

/// Lowercase every record's id, keeping order and the other fields. Applied
/// to the result of either upstream listing call before it is surfaced.
pub fn normalize_records(models: &Vec<ModelRecord>) -> (r: Vec<ModelRecord>)
    ensures
        r.deep_view() == spec_normalize_records(models.deep_view()),
{
    let mut out: Vec<ModelRecord> = Vec::new();
    let mut i: usize = 0;
    while i < models.len()
        invariant
            i <= models.len(),
            out@.len() == i,
            forall|k: int|
                0 <= k < i ==> #[trigger] out@[k]@ == spec_normalize_record(models@[k]@),
        decreases models.len() - i,
    {
        let m = &models[i];
        out.push(
            ModelRecord {
                id: lowercase(&m.id),
                object: m.object.clone(),
                created: m.created,
                owned_by: m.owned_by.clone(),
            },
        );
        i = i + 1;
    }
    proof {
        assert(out.deep_view() =~= spec_normalize_records(models.deep_view()));
    }
    out
}

} // verus!
