//! Data model of the catalog subsystem: client-visible model records,
//! operator override rules, operator-declared custom models, and the error
//! taxonomy of catalog retrieval.

use vstd::prelude::*;

verus! {

/// One client-visible model entry. Every id surfaced anywhere in the system
/// is lowercase.
#[derive(Clone, Debug, PartialEq, Eq)]
pub struct ModelRecord {
    pub id: String,
    pub object: String,
    pub created: i64,
    pub owned_by: String,
}

/// Mathematical value of a `ModelRecord`.
pub struct ModelRecordView {
    pub id: Seq<char>,
    pub object: Seq<char>,
    pub created: int,
    pub owned_by: Seq<char>,
}

impl View for ModelRecord {
    type V = ModelRecordView;

    open spec fn view(&self) -> ModelRecordView {
        ModelRecordView {
            id: self.id@,
            object: self.object@,
            created: self.created as int,
            owned_by: self.owned_by@,
        }
    }
}

impl DeepView for ModelRecord {
    type V = ModelRecordView;

    open spec fn deep_view(&self) -> ModelRecordView {
        self@
    }
}

impl ModelRecord {
    /// An independent copy holding the same field values.
    pub fn duplicate(&self) -> (r: ModelRecord)
        ensures
            r == *self,
    {
        ModelRecord {
            id: self.id.clone(),
            object: self.object.clone(),
            created: self.created,
            owned_by: self.owned_by.clone(),
        }
    }
}

/// An independent copy of a whole record list.
pub fn duplicate_records(models: &Vec<ModelRecord>) -> (r: Vec<ModelRecord>)
    ensures
        r@ == models@,
{
    let mut out: Vec<ModelRecord> = Vec::new();
    let mut i: usize = 0;
    while i < models.len()
        invariant
            i <= models.len(),
            out@ == models@.take(i as int),
        decreases models.len() - i,
    {
        out.push(models[i].duplicate());
        proof {
            assert(out@ =~= models@.take(i + 1));
        }
        i = i + 1;
    }
    proof {
        assert(models@.take(models@.len() as int) =~= models@);
    }
    out
}

/// One operator rule for a single upstream model, keyed by lowercase id:
/// exclude it (`enable == false`) or rename it (`mapping`).
#[derive(Clone, Debug, PartialEq, Eq)]
pub struct OverrideEntry {
    pub id: String,
    pub enable: bool,
    pub mapping: Option<String>,
}

/// Mathematical value of an `OverrideEntry`.
pub struct OverrideEntryView {
    pub id: Seq<char>,
    pub enable: bool,
    pub mapping: Option<Seq<char>>,
}

impl View for OverrideEntry {
    type V = OverrideEntryView;

    open spec fn view(&self) -> OverrideEntryView {
        OverrideEntryView { id: self.id@, enable: self.enable, mapping: self.mapping.deep_view() }
    }
}

impl DeepView for OverrideEntry {
    type V = OverrideEntryView;

    open spec fn deep_view(&self) -> OverrideEntryView {
        self@
    }
}

/// An operator-declared model, not necessarily present upstream. Missing
/// `created` / `owned_by` fall back to the current time and the backend's
/// canonical owner string when the entry is emitted.
#[derive(Clone, Debug, PartialEq, Eq)]
pub struct CustomModelEntry {
    pub id: String,
    pub created: Option<i64>,
    pub owned_by: Option<String>,
}

/// Mathematical value of a `CustomModelEntry`.
pub struct CustomModelEntryView {
    pub id: Seq<char>,
    pub created: Option<int>,
    pub owned_by: Option<Seq<char>>,
}

impl View for CustomModelEntry {
    type V = CustomModelEntryView;

    open spec fn view(&self) -> CustomModelEntryView {
        CustomModelEntryView {
            id: self.id@,
            created: match self.created {
                Some(t) => Some(t as int),
                None => None,
            },
            owned_by: self.owned_by.deep_view(),
        }
    }
}

impl DeepView for CustomModelEntry {
    type V = CustomModelEntryView;

    open spec fn deep_view(&self) -> CustomModelEntryView {
        self@
    }
}

/// The mathematical value of a `Result` over the deep views of its payloads.
pub open spec fn result_dv<T: DeepView, E: DeepView>(r: Result<T, E>) -> Result<T::V, E::V> {
    match r {
        Ok(t) => Ok(t.deep_view()),
        Err(e) => Err(e.deep_view()),
    }
}

/// Why catalog retrieval failed.
#[derive(Clone, Debug, PartialEq, Eq)]
pub enum CatalogError {
    /// Token-based listing was configured without a credential; not retried.
    MissingCredential,
    /// Transport or parse failure contacting the backend, with its message.
    UpstreamFailure(String),
    /// A miss-triggered cache fetch failed; the slot was left unchanged. The
    /// message of the underlying failure is embedded.
    CachePopulationFailure(String),
}

/// Mathematical value of a `CatalogError`.
pub enum CatalogErrorView {
    MissingCredential,
    UpstreamFailure(Seq<char>),
    CachePopulationFailure(Seq<char>),
}

impl View for CatalogError {
    type V = CatalogErrorView;

    open spec fn view(&self) -> CatalogErrorView {
        match self {
            CatalogError::MissingCredential => CatalogErrorView::MissingCredential,
            CatalogError::UpstreamFailure(m) => CatalogErrorView::UpstreamFailure(m@),
            CatalogError::CachePopulationFailure(m) => CatalogErrorView::CachePopulationFailure(
                m@,
            ),
        }
    }
}

impl DeepView for CatalogError {
    type V = CatalogErrorView;

    open spec fn deep_view(&self) -> CatalogErrorView {
        self@
    }
}

/// Human-readable message carried by an error value.
pub open spec fn spec_describe(e: CatalogErrorView) -> Seq<char> {
    match e {
        CatalogErrorView::MissingCredential => "token-based listing is configured but no credential was supplied"@,
        CatalogErrorView::UpstreamFailure(m) => m,
        CatalogErrorView::CachePopulationFailure(m) => m,
    }
}

impl CatalogError {
    /// The message a requester sees for this failure.
    pub fn describe(&self) -> (r: String)
        ensures
            r@ == spec_describe(self@),
    {
        match self {
            CatalogError::MissingCredential => "token-based listing is configured but no credential was supplied".to_owned(),
            CatalogError::UpstreamFailure(m) => m.clone(),
            CatalogError::CachePopulationFailure(m) => m.clone(),
        }
    }
}

} // verus!
