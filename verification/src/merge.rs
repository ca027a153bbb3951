//! The catalog merge engine: a pure combination of the cached upstream list
//! with the operator's per-model rules and custom entries. Upstream order is
//! preserved, custom entries are appended in their own order, and a renamed
//! id colliding with another record is deliberately left as-is (first writer
//! wins; the engine does not de-duplicate renames).
//!
//! `merge_normalized` is the engine proper: it takes every id as given and
//! its contract is exact. `merge` lowercases ids, override keys, rename
//! targets and custom ids first, and then runs the engine.

use vstd::prelude::*;
use crate::lower::{lower_of, lowercase};
use crate::records::{
    CustomModelEntry, CustomModelEntryView, ModelRecord, ModelRecordView, OverrideEntry,
    OverrideEntryView,
};
use crate::source::{normalize_records, spec_normalize_records};

verus! {

/// The first override whose key equals `id`, if any.
pub open spec fn spec_find_override(ovs: Seq<OverrideEntryView>, id: Seq<char>) -> Option<
    OverrideEntryView,
>
    decreases ovs.len(),
{
    if ovs.len() == 0 {
        None
    } else if ovs[0].id == id {
        Some(ovs[0])
    } else {
        spec_find_override(ovs.drop_first(), id)
    }
}

/// What one upstream record contributes to the merged list: dropped when its
/// override disables it, renamed when its override maps it, and otherwise
/// passed through unchanged.
pub open spec fn spec_apply_override(m: ModelRecordView, ovs: Seq<OverrideEntryView>) -> Seq<
    ModelRecordView,
> {
    match spec_find_override(ovs, m.id) {
        None => seq![m],
        Some(ov) => if !ov.enable {
            Seq::empty()
        } else {
            match ov.mapping {
                Some(target) => seq![
                    ModelRecordView {
                        id: target,
                        object: m.object,
                        created: m.created,
                        owned_by: m.owned_by,
                    },
                ],
                None => seq![m],
            }
        },
    }
}

/// The upstream phase of the merge: each record's contribution, in upstream
/// order.
pub open spec fn spec_merged_upstream(
    up: Seq<ModelRecordView>,
    ovs: Seq<OverrideEntryView>,
) -> Seq<ModelRecordView>
    decreases up.len(),
{
    if up.len() == 0 {
        Seq::empty()
    } else {
        spec_apply_override(up[0], ovs) + spec_merged_upstream(up.drop_first(), ovs)
    }
}

/// Whether some emitted record already carries `id`.
pub open spec fn spec_contains_id(ms: Seq<ModelRecordView>, id: Seq<char>) -> bool {
    exists|i: int| 0 <= i < ms.len() && (#[trigger] ms[i]).id == id
}

/// The record emitted for a custom entry: fixed object string, the entry's
/// `created` or the current time, the entry's `owned_by` or the backend's
/// canonical owner string.
pub open spec fn spec_custom_record(c: CustomModelEntryView, now: int) -> ModelRecordView {
    ModelRecordView {
        id: c.id,
        object: "model"@,
        created: match c.created {
            Some(t) => t,
            None => now,
        },
        owned_by: match c.owned_by {
            Some(o) => o,
            None => "poe"@,
        },
    }
}

/// A custom entry is skipped when its id is already emitted or its override
/// explicitly disables it.
pub open spec fn spec_custom_skipped(
    acc: Seq<ModelRecordView>,
    ovs: Seq<OverrideEntryView>,
    c: CustomModelEntryView,
) -> bool {
    spec_contains_id(acc, c.id) || (match spec_find_override(ovs, c.id) {
        Some(ov) => !ov.enable,
        None => false,
    })
}

/// The custom phase of the merge: append each surviving custom entry to the
/// list accumulated so far, in declaration order.
pub open spec fn spec_append_customs(
    acc: Seq<ModelRecordView>,
    customs: Seq<CustomModelEntryView>,
    ovs: Seq<OverrideEntryView>,
    now: int,
) -> Seq<ModelRecordView>
    decreases customs.len(),
{
    if customs.len() == 0 {
        acc
    } else {
        let acc2 = if spec_custom_skipped(acc, ovs, customs[0]) {
            acc
        } else {
            acc.push(spec_custom_record(customs[0], now))
        };
        spec_append_customs(acc2, customs.drop_first(), ovs, now)
    }
}

/// The whole merged catalog for a given reading `now` of the clock, every id
/// taken exactly as it stands.
pub open spec fn spec_merge(
    up: Seq<ModelRecordView>,
    ovs: Seq<OverrideEntryView>,
    customs: Seq<CustomModelEntryView>,
    now: int,
) -> Seq<ModelRecordView> {
    spec_append_customs(spec_merged_upstream(up, ovs), customs, ovs, now)
}

/// Override keys and rename targets with their lowercase images, rules
/// otherwise unchanged.
pub open spec fn spec_normalize_overrides(ovs: Seq<OverrideEntryView>) -> Seq<OverrideEntryView> {
    ovs.map_values(
        |o: OverrideEntryView|
            OverrideEntryView {
                id: lower_of(o.id),
                enable: o.enable,
                mapping: match o.mapping {
                    Some(t) => Some(lower_of(t)),
                    None => None,
                },
            },
    )
}

/// Custom entry ids with their lowercase images, the rest unchanged.
pub open spec fn spec_normalize_customs(cs: Seq<CustomModelEntryView>) -> Seq<
    CustomModelEntryView,
> {
    cs.map_values(
        |c: CustomModelEntryView|
            CustomModelEntryView { id: lower_of(c.id), created: c.created, owned_by: c.owned_by },
    )
}

pub proof fn lemma_merged_upstream_push(
    s: Seq<ModelRecordView>,
    x: ModelRecordView,
    ovs: Seq<OverrideEntryView>,
)
    ensures
        spec_merged_upstream(s.push(x), ovs) == spec_merged_upstream(s, ovs) + spec_apply_override(
            x,
            ovs,
        ),
    decreases s.len(),
{
    if s.len() == 0 {
        assert(s.push(x)[0] == x);
        assert(s.push(x).drop_first() =~= s);
        assert(spec_merged_upstream(s.push(x), ovs) == spec_apply_override(x, ovs)
            + spec_merged_upstream(s, ovs));
        assert(spec_apply_override(x, ovs) + Seq::<ModelRecordView>::empty() =~= spec_apply_override(
            x,
            ovs,
        ));
        assert(Seq::<ModelRecordView>::empty() + spec_apply_override(x, ovs)
            =~= spec_apply_override(x, ovs));
    } else {
        lemma_merged_upstream_push(s.drop_first(), x, ovs);
        assert(s.push(x)[0] == s[0]);
        assert(s.push(x).drop_first() =~= s.drop_first().push(x));
        assert(spec_apply_override(s[0], ovs) + (spec_merged_upstream(s.drop_first(), ovs)
            + spec_apply_override(x, ovs)) =~= (spec_apply_override(s[0], ovs)
            + spec_merged_upstream(s.drop_first(), ovs)) + spec_apply_override(x, ovs));
    }
}

pub proof fn lemma_find_override_none(ovs: Seq<OverrideEntryView>, id: Seq<char>)
    requires
        forall|k: int| 0 <= k < ovs.len() ==> (#[trigger] ovs[k]).id != id,
    ensures
        spec_find_override(ovs, id) is None,
    decreases ovs.len(),
{
    if ovs.len() > 0 {
        assert(ovs[0].id != id);
        assert(forall|k: int|
            0 <= k < ovs.drop_first().len() ==> (#[trigger] ovs.drop_first()[k]) == ovs[k + 1]);
        lemma_find_override_none(ovs.drop_first(), id);
    }
}

pub proof fn lemma_find_override_first_match(ovs: Seq<OverrideEntryView>, id: Seq<char>, i: int)
    requires
        0 <= i < ovs.len(),
        forall|k: int| 0 <= k < i ==> (#[trigger] ovs[k]).id != id,
        ovs[i].id == id,
    ensures
        spec_find_override(ovs, id) == Some(ovs[i]),
    decreases i,
{
    if i == 0 {
    } else {
        assert(ovs[0].id != id);
        assert(forall|k: int|
            0 <= k < ovs.drop_first().len() ==> (#[trigger] ovs.drop_first()[k]) == ovs[k + 1]);
        lemma_find_override_first_match(ovs.drop_first(), id, i - 1);
    }
}

/// The first override entry whose key equals `id`, scanning in declaration
/// order.
pub fn find_override<'a>(ovs: &'a Vec<OverrideEntry>, id: &String) -> (r: Option<&'a OverrideEntry>)
    ensures
        r.deep_view() == spec_find_override(ovs.deep_view(), id@),
{
    let mut i: usize = 0;
    while i < ovs.len()
        invariant
            i <= ovs.len(),
            forall|k: int| 0 <= k < i ==> (#[trigger] ovs@[k]@).id != id@,
        decreases ovs.len() - i,
    {
        if ovs[i].id == *id {
            proof {
                assert(forall|k: int|
                    0 <= k < ovs.deep_view().len() ==> (#[trigger] ovs.deep_view()[k]) == ovs@[k]@);
                lemma_find_override_first_match(ovs.deep_view(), id@, i as int);
            }
            return Some(&ovs[i]);
        }
        i = i + 1;
    }
    proof {
        assert(forall|k: int|
            0 <= k < ovs.deep_view().len() ==> (#[trigger] ovs.deep_view()[k]) == ovs@[k]@);
        lemma_find_override_none(ovs.deep_view(), id@);
    }
    None
}

/// Whether some already-emitted record carries exactly `id`.
pub fn contains_record_id(ms: &Vec<ModelRecord>, id: &String) -> (r: bool)
    ensures
        r == spec_contains_id(ms.deep_view(), id@),
{
    let mut i: usize = 0;
    while i < ms.len()
        invariant
            i <= ms.len(),
            forall|k: int| 0 <= k < i ==> (#[trigger] ms@[k]@).id != id@,
        decreases ms.len() - i,
    {
        if ms[i].id == *id {
            proof {
                assert(ms.deep_view()[i as int].id == id@);
            }
            return true;
        }
        i = i + 1;
    }
    proof {
        assert(forall|k: int|
            0 <= k < ms.deep_view().len() ==> (#[trigger] ms.deep_view()[k]) == ms@[k]@);
    }
    false
}

/// Lowercase every override key and rename target, keeping the rules
/// themselves unchanged. Operator configuration is keyed case-insensitively;
/// the engine itself looks keys up by exact equality.
pub fn normalize_overrides(ovs: &Vec<OverrideEntry>) -> (r: Vec<OverrideEntry>)
    ensures
        r.deep_view() == spec_normalize_overrides(ovs.deep_view()),
{
    let mut out: Vec<OverrideEntry> = Vec::new();
    let mut i: usize = 0;
    while i < ovs.len()
        invariant
            i <= ovs.len(),
            out@.len() == i,
            forall|k: int|
                0 <= k < i ==> (#[trigger] out@[k]@) == (OverrideEntryView {
                    id: lower_of(ovs@[k]@.id),
                    enable: ovs@[k]@.enable,
                    mapping: match ovs@[k]@.mapping {
                        Some(t) => Some(lower_of(t)),
                        None => None,
                    },
                }),
        decreases ovs.len() - i,
    {
        let o = &ovs[i];
        let mapping = match &o.mapping {
            Some(t) => Some(lowercase(t)),
            None => None,
        };
        out.push(OverrideEntry { id: lowercase(&o.id), enable: o.enable, mapping });
        i = i + 1;
    }
    proof {
        assert(out.deep_view() =~= spec_normalize_overrides(ovs.deep_view()));
    }
    out
}

/// Lowercase every custom entry's id, keeping the other fields.
pub fn normalize_customs(cs: &Vec<CustomModelEntry>) -> (r: Vec<CustomModelEntry>)
    ensures
        r.deep_view() == spec_normalize_customs(cs.deep_view()),
{
    let mut out: Vec<CustomModelEntry> = Vec::new();
    let mut i: usize = 0;
    while i < cs.len()
        invariant
            i <= cs.len(),
            out@.len() == i,
            forall|k: int|
                0 <= k < i ==> (#[trigger] out@[k]@) == (CustomModelEntryView {
                    id: lower_of(cs@[k]@.id),
                    created: cs@[k]@.created,
                    owned_by: cs@[k]@.owned_by,
                }),
        decreases cs.len() - i,
    {
        let c = &cs[i];
        let owned_by = match &c.owned_by {
            Some(o) => Some(o.clone()),
            None => None,
        };
        out.push(CustomModelEntry { id: lowercase(&c.id), created: c.created, owned_by });
        i = i + 1;
    }
    proof {
        assert(out.deep_view() =~= spec_normalize_customs(cs.deep_view()));
    }
    out
}

/// The merge engine on normalized inputs: every id, override key, rename
/// target and custom id is taken exactly as it stands. Pure and
/// deterministic — the result is `spec_merge` of the inputs.
pub fn merge_normalized(
    upstream: &Vec<ModelRecord>,
    overrides: &Vec<OverrideEntry>,
    customs: &Vec<CustomModelEntry>,
    now: i64,
) -> (r: Vec<ModelRecord>)
    ensures
        r.deep_view() == spec_merge(
            upstream.deep_view(),
            overrides.deep_view(),
            customs.deep_view(),
            now as int,
        ),
{
    let ghost up_dv = upstream.deep_view();
    let ghost ovs_dv = overrides.deep_view();
    let ghost cus_dv = customs.deep_view();
    let mut out: Vec<ModelRecord> = Vec::new();
    let mut i: usize = 0;
    while i < upstream.len()
        invariant
            i <= upstream.len(),
            up_dv == upstream.deep_view(),
            ovs_dv == overrides.deep_view(),
            out.deep_view() == spec_merged_upstream(up_dv.take(i as int), ovs_dv),
        decreases upstream.len() - i,
    {
        let ghost prev = out.deep_view();
        let m = &upstream[i];
        proof {
            assert(m@ == up_dv[i as int]);
        }
        let found = find_override(overrides, &m.id);
        match found {
            None => {
                out.push(m.duplicate());
                proof {
                    assert(out.deep_view() =~= prev + spec_apply_override(up_dv[i as int], ovs_dv));
                }
            },
            Some(cfg) => {
                if cfg.enable {
                    let final_id = match &cfg.mapping {
                        Some(target) => target.clone(),
                        None => m.id.clone(),
                    };
                    out.push(
                        ModelRecord {
                            id: final_id,
                            object: m.object.clone(),
                            created: m.created,
                            owned_by: m.owned_by.clone(),
                        },
                    );
                    proof {
                        assert(out.deep_view() =~= prev + spec_apply_override(
                            up_dv[i as int],
                            ovs_dv,
                        ));
                    }
                } else {
                    proof {
                        assert(out.deep_view() =~= prev + spec_apply_override(
                            up_dv[i as int],
                            ovs_dv,
                        ));
                    }
                }
            },
        }
        proof {
            lemma_merged_upstream_push(up_dv.take(i as int), up_dv[i as int], ovs_dv);
            assert(up_dv.take(i + 1) =~= up_dv.take(i as int).push(up_dv[i as int]));
        }
        i = i + 1;
    }
    proof {
        assert(up_dv.take(up_dv.len() as int) =~= up_dv);
        assert(cus_dv.skip(0) =~= cus_dv);
    }
    let mut j: usize = 0;
    while j < customs.len()
        invariant
            j <= customs.len(),
            up_dv == upstream.deep_view(),
            ovs_dv == overrides.deep_view(),
            cus_dv == customs.deep_view(),
            spec_append_customs(out.deep_view(), cus_dv.skip(j as int), ovs_dv, now as int)
                == spec_merge(up_dv, ovs_dv, cus_dv, now as int),
        decreases customs.len() - j,
    {
        let ghost acc = out.deep_view();
        let c = &customs[j];
        proof {
            assert(c@ == cus_dv[j as int]);
        }
        let dup = contains_record_id(&out, &c.id);
        let mut disabled = false;
        if !dup {
            match find_override(overrides, &c.id) {
                Some(cfg) => {
                    disabled = !cfg.enable;
                },
                None => {},
            }
        }
        proof {
            assert((dup || disabled) == spec_custom_skipped(acc, ovs_dv, cus_dv[j as int]));
        }
        if !dup && !disabled {
            let created = match c.created {
                Some(t) => t,
                None => now,
            };
            let owned = match &c.owned_by {
                Some(o) => o.clone(),
                None => "poe".to_owned(),
            };
            out.push(
                ModelRecord {
                    id: c.id.clone(),
                    object: "model".to_owned(),
                    created,
                    owned_by: owned,
                },
            );
            proof {
                assert(out.deep_view() =~= acc.push(
                    spec_custom_record(cus_dv[j as int], now as int),
                ));
            }
        }
        proof {
            assert(cus_dv.skip(j as int)[0] == cus_dv[j as int]);
            assert(cus_dv.skip(j as int).drop_first() =~= cus_dv.skip(j + 1));
        }
        j = j + 1;
    }
    proof {
        assert(cus_dv.skip(cus_dv.len() as int) =~= Seq::<CustomModelEntryView>::empty());
    }
    out
}

/// Merge raw inputs for the clock reading `now`: lowercase upstream ids,
/// override keys, rename targets and custom ids, then run the engine.
pub fn merge(
    upstream: &Vec<ModelRecord>,
    overrides: &Vec<OverrideEntry>,
    customs: &Vec<CustomModelEntry>,
    now: i64,
) -> (r: Vec<ModelRecord>)
    ensures
        r.deep_view() == spec_merge(
            spec_normalize_records(upstream.deep_view()),
            spec_normalize_overrides(overrides.deep_view()),
            spec_normalize_customs(customs.deep_view()),
            now as int,
        ),
{
    let up = normalize_records(upstream);
    let ovs = normalize_overrides(overrides);
    let cus = normalize_customs(customs);
    merge_normalized(&up, &ovs, &cus, now)
}

/// Merge raw inputs at the current clock: whatever the clock returned, the
/// result is the pure merge of the normalized inputs for that reading.
pub fn merge_catalog(
    upstream: &Vec<ModelRecord>,
    overrides: &Vec<OverrideEntry>,
    customs: &Vec<CustomModelEntry>,
) -> (r: Vec<ModelRecord>)
    ensures
        exists|now: int|
            r.deep_view() == spec_merge(
                spec_normalize_records(upstream.deep_view()),
                spec_normalize_overrides(overrides.deep_view()),
                spec_normalize_customs(customs.deep_view()),
                now,
            ),
{
    let now = crate::clock::now_unix_seconds();
    let r = merge(upstream, overrides, customs, now);
    proof {
        assert(r.deep_view() == spec_merge(
            spec_normalize_records(upstream.deep_view()),
            spec_normalize_overrides(overrides.deep_view()),
            spec_normalize_customs(customs.deep_view()),
            now as int,
        ));
    }
    r
}

/// No two records of `ms` share an id.
pub open spec fn spec_unique_ids(ms: Seq<ModelRecordView>) -> bool {
    forall|p: int, q: int|
        0 <= p < q < ms.len() ==> (#[trigger] ms[p]).id != (#[trigger] ms[q]).id
}

/// The custom phase never introduces a duplicate id: an entry whose id is
/// already emitted is skipped, and each appended record immediately guards
/// the entries after it. So whenever the upstream phase emits no duplicate
/// ids, the whole merged output is free of them.
pub proof fn lemma_append_customs_preserves_unique(
    acc: Seq<ModelRecordView>,
    customs: Seq<CustomModelEntryView>,
    ovs: Seq<OverrideEntryView>,
    now: int,
)
    requires
        spec_unique_ids(acc),
    ensures
        spec_unique_ids(spec_append_customs(acc, customs, ovs, now)),
    decreases customs.len(),
{
    if customs.len() > 0 {
        if spec_custom_skipped(acc, ovs, customs[0]) {
            lemma_append_customs_preserves_unique(acc, customs.drop_first(), ovs, now);
        } else {
            let rec = spec_custom_record(customs[0], now);
            let acc2 = acc.push(rec);
            assert(spec_unique_ids(acc2)) by {
                assert(forall|p: int| 0 <= p < acc.len() ==> (#[trigger] acc[p]).id != rec.id) by {
                    assert(!spec_contains_id(acc, customs[0].id));
                }
                assert(forall|p: int, q: int|
                    0 <= p < q < acc2.len() ==> (#[trigger] acc2[p]).id != (#[trigger] acc2[q]).id)
                    by {
                    assert(forall|p: int| 0 <= p < acc.len() ==> acc2[p] == acc[p]);
                    assert(acc2[acc.len() as int] == rec);
                }
            }
            lemma_append_customs_preserves_unique(acc2, customs.drop_first(), ovs, now);
        }
    }
}

} // verus!
