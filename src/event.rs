use vstd::prelude::*;
use crate::value::{pair_view, pairs_view, FieldValue, PairModel};

verus! {

/// The value of key `k` among `s`: the first pair with that key wins.
pub open spec fn find(s: Seq<PairModel>, k: Seq<char>) -> Option<FieldValue>
    decreases s.len(),
{
    if s.len() == 0 {
        None
    } else if s[0].0 == k {
        Some(s[0].1)
    } else {
        find(s.drop_first(), k)
    }
}

proof fn lemma_find_first(s: Seq<PairModel>, k: Seq<char>, i: int)
    requires
        0 <= i < s.len(),
        s[i].0 == k,
        forall|j: int| 0 <= j < i ==> s[j].0 != k,
    ensures
        find(s, k) == Some(s[i].1),
    decreases i,
{
    if i > 0 {
        assert(s[0].0 != k);
        lemma_find_first(s.drop_first(), k, i - 1);
    }
}

proof fn lemma_find_none(s: Seq<PairModel>, k: Seq<char>)
    requires
        forall|j: int| 0 <= j < s.len() ==> s[j].0 != k,
    ensures
        find(s, k) is None,
    decreases s.len(),
{
    if s.len() > 0 {
        assert(s[0].0 != k);
        lemma_find_none(s.drop_first(), k);
    }
}

proof fn lemma_find_update_other(s: Seq<PairModel>, i: int, p: PairModel, k: Seq<char>)
    requires
        0 <= i < s.len(),
        p.0 != k,
        s[i].0 != k,
    ensures
        find(s.update(i, p), k) == find(s, k),
    decreases s.len(),
{
    if i == 0 {
        assert(s.update(i, p).drop_first() =~= s.drop_first());
    } else {
        assert(s.update(i, p).drop_first() =~= s.drop_first().update(i - 1, p));
        if s[0].0 != k {
            lemma_find_update_other(s.drop_first(), i - 1, p, k);
        }
    }
}

proof fn lemma_find_push_other(s: Seq<PairModel>, p: PairModel, k: Seq<char>)
    requires
        p.0 != k,
    ensures
        find(s.push(p), k) == find(s, k),
    decreases s.len(),
{
    if s.len() == 0 {
        assert(s.push(p).drop_first() =~= s);
    } else {
        assert(s.push(p).drop_first() =~= s.drop_first().push(p));
        if s[0].0 != k {
            lemma_find_push_other(s.drop_first(), p, k);
        }
    }
}

/// A log event: named fields holding typed values.
#[derive(Clone, Debug, PartialEq, Eq)]
pub struct LogEvent {
    fields: Vec<(String, FieldValue)>,
}

impl View for LogEvent {
    type V = Map<Seq<char>, FieldValue>;

    closed spec fn view(&self) -> Map<Seq<char>, FieldValue> {
        Map::new(
            |k: Seq<char>| find(pairs_view(self.fields@), k) is Some,
            |k: Seq<char>| find(pairs_view(self.fields@), k)->Some_0,
        )
    }
}

impl LogEvent {
    /// An event with no field.
    pub fn new() -> (r: LogEvent)
        ensures
            r@ == Map::<Seq<char>, FieldValue>::empty(),
    {
        let r = LogEvent { fields: Vec::new() };
        assert(r@ =~= Map::<Seq<char>, FieldValue>::empty());
        r
    }

    /// The value of field `key`, if the event has it.
    pub fn get(&self, key: &String) -> (r: Option<&FieldValue>)
        ensures
            match r {
                Some(v) => self@.contains_key(key@) && self@[key@] == *v,
                None => !self@.contains_key(key@),
            },
    {
        let ghost s = pairs_view(self.fields@);
        let mut i: usize = 0;
        while i < self.fields.len()
            invariant
                i <= self.fields@.len(),
                s == pairs_view(self.fields@),
                forall|j: int| 0 <= j < i ==> s[j].0 != key@,
            decreases self.fields@.len() - i,
        {
            if self.fields[i].0 == *key {
                proof {
                    lemma_find_first(s, key@, i as int);
                }
                return Some(&self.fields[i].1);
            }
            i = i + 1;
        }
        proof {
            lemma_find_none(s, key@);
        }
        None
    }

    /// Sets field `key` to `value`, replacing what it held.
    pub fn insert(&mut self, key: String, value: FieldValue)
        ensures
            final(self)@ == old(self)@.insert(key@, value),
    {
        let ghost s = pairs_view(self.fields@);
        let ghost p: PairModel = (key@, value);
        let mut i: usize = 0;
        while i < self.fields.len()
            invariant
                i <= self.fields@.len(),
                *self == *old(self),
                p == (key@, value),
                s == pairs_view(self.fields@),
                forall|j: int| 0 <= j < i ==> s[j].0 != key@,
            decreases self.fields@.len() - i,
        {
            if self.fields[i].0 == key {
                self.fields.set(i, (key, value));
                proof {
                    let t = pairs_view(self.fields@);
                    assert(t =~= s.update(i as int, p));
                    lemma_find_first(t, p.0, i as int);
                    assert forall|k: Seq<char>| k != p.0 implies find(t, k) == find(s, k) by {
                        lemma_find_update_other(s, i as int, p, k);
                    }
                    assert(self@ =~= old(self)@.insert(p.0, value));
                }
                return;
            }
            i = i + 1;
        }
        self.fields.push((key, value));
        proof {
            let t = pairs_view(self.fields@);
            assert(t =~= s.push(p));
            lemma_find_first(t, p.0, s.len() as int);
            assert forall|k: Seq<char>| k != p.0 implies find(t, k) == find(s, k) by {
                lemma_find_push_other(s, p, k);
            }
            assert(self@ =~= old(self)@.insert(p.0, value));
        }
    }
}

/// The event after every pair of `pairs` was set in it, in order.
pub open spec fn merged(e: Map<Seq<char>, FieldValue>, pairs: Seq<PairModel>) -> Map<Seq<char>, FieldValue>
    decreases pairs.len(),
{
    if pairs.len() == 0 {
        e
    } else {
        merged(e, pairs.drop_last()).insert(pairs.last().0, pairs.last().1)
    }
}

/// Sets each pair of `pairs` in the event, overwriting fields of the same name.
pub fn merge_fields(event: &mut LogEvent, pairs: &Vec<(String, FieldValue)>)
    ensures
        final(event)@ == merged(old(event)@, pairs_view(pairs@)),
{
    let mut i: usize = 0;
    while i < pairs.len()
        invariant
            i <= pairs@.len(),
            event@ == merged(old(event)@, pairs_view(pairs@).take(i as int)),
        decreases pairs@.len() - i,
    {
        event.insert(pairs[i].0.clone(), pairs[i].1.duplicate());
        assert(pairs_view(pairs@).take(i + 1).drop_last() =~= pairs_view(pairs@).take(i as int));
        i = i + 1;
    }
    assert(pairs_view(pairs@).take(pairs@.len() as int) =~= pairs_view(pairs@));
}

} // verus!
