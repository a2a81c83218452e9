use vstd::prelude::*;

verus! {

/// A typed scalar stored in the cache and merged into events.
#[derive(Clone, Debug, PartialEq, Eq, Hash)]
pub enum FieldValue {
    Bytes(String),
    Integer(i64),
    Timestamp { secs: i64, nanos: u32 },
}

impl FieldValue {
    /// A copy of the value, equal to it.
    pub fn duplicate(&self) -> (r: FieldValue)
        ensures
            r == *self,
    {
        match self {
            FieldValue::Bytes(s) => FieldValue::Bytes(s.clone()),
            FieldValue::Integer(i) => FieldValue::Integer(*i),
            FieldValue::Timestamp { secs, nanos } => FieldValue::Timestamp { secs: *secs, nanos: *nanos },
        }
    }
}

/// A (field key, field value) pair as the contracts see it.
pub type PairModel = (Seq<char>, FieldValue);

pub open spec fn pair_view(p: (String, FieldValue)) -> PairModel {
    (p.0@, p.1)
}

pub open spec fn pairs_view(s: Seq<(String, FieldValue)>) -> Seq<PairModel> {
    s.map_values(|p: (String, FieldValue)| pair_view(p))
}

/// Copies a (key, value) pair.
pub fn duplicate_pair(p: &(String, FieldValue)) -> (r: (String, FieldValue))
    ensures
        pair_view(r) == pair_view(*p),
{
    (p.0.clone(), p.1.duplicate())
}

} // verus!
