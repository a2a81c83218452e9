use vstd::prelude::*;
use vstd::multiset::Multiset;
use crate::value::{pairs_view, pair_view, FieldValue, PairModel};

verus! {

/// The contents of one generation: each identity that was ever updated,
/// with the unordered collection of its (key, value) pairs.
pub type Contents = Map<Seq<char>, Multiset<PairModel>>;

/// The pairs of `uid` in a generation, or `None` when it was never updated.
pub open spec fn lookup_spec(m: Contents, uid: Seq<char>) -> Option<Multiset<PairModel>> {
    if m.contains_key(uid) {
        Some(m[uid])
    } else {
        None
    }
}

/// The generation after `uid` has been given exactly `pairs`.
pub open spec fn update_spec(m: Contents, uid: Seq<char>, pairs: Seq<PairModel>) -> Contents {
    m.insert(uid, pairs.to_multiset())
}

/// The generation after a run of updates, applied in order.
pub open spec fn apply_updates(m: Contents, ups: Seq<(Seq<char>, Seq<PairModel>)>) -> Contents
    decreases ups.len(),
{
    if ups.len() == 0 {
        m
    } else {
        let last = ups.last();
        update_spec(apply_updates(m, ups.drop_last()), last.0, last.1)
    }
}

/// The generation that holds no identity.
pub open spec fn empty_contents() -> Contents {
    Map::empty()
}

/// Whether a run of updates touches `uid`.
pub open spec fn touches(ups: Seq<(Seq<char>, Seq<PairModel>)>, uid: Seq<char>) -> bool {
    exists|i: int| 0 <= i < ups.len() && (#[trigger] ups[i]).0 == uid
}

/// The writer side of the cache, with a read handle of its own. Writes are
/// staged, and readers see them only once they are published.
#[verifier::external_body]
pub struct MetadataStore {
    writer: evmap::WriteHandle<String, Box<(String, FieldValue)>>,
    reader: evmap::ReadHandle<String, Box<(String, FieldValue)>>,
}

/// A read handle on the published generation, for a reader elsewhere.
#[verifier::external_body]
pub struct MetadataReader {
    reader: evmap::ReadHandle<String, Box<(String, FieldValue)>>,
}

/// What the writer has staged, published or not.
pub uninterp spec fn staged_of(s: MetadataStore) -> Contents;

/// What readers see: the generation of the last publication.
pub uninterp spec fn published_of(s: MetadataStore) -> Contents;

/// Relies on evmap::new: both sides start empty, and before the first
/// refresh a read finds no key.
#[verifier::external_body]
fn new_map() -> (r: MetadataStore)
    ensures
        staged_of(r) == empty_contents(),
        published_of(r) == empty_contents(),
{
    let (reader, writer) = evmap::new();
    MetadataStore { writer, reader }
}

impl MetadataStore {
    /// Relies on evmap::WriteHandle::clear: the key's value-set becomes
    /// empty (or is created empty), visible to readers after the next refresh.
    #[verifier::external_body]
    fn clear_staged(&mut self, uid: String)
        ensures
            staged_of(*final(self)) == staged_of(*old(self)).insert(uid@, Multiset::empty()),
            published_of(*final(self)) == published_of(*old(self)),
    {
        self.writer.clear(uid);
    }

    /// Relies on evmap::WriteHandle::insert: the value joins the key's
    /// value-set, visible to readers after the next refresh.
    #[verifier::external_body]
    fn insert_staged(&mut self, uid: String, pair: (String, FieldValue))
        ensures
            staged_of(*final(self)) == staged_of(*old(self)).insert(
                uid@,
                (if staged_of(*old(self)).contains_key(uid@) {
                    staged_of(*old(self))[uid@]
                } else {
                    Multiset::empty()
                }).insert(pair_view(pair)),
            ),
            published_of(*final(self)) == published_of(*old(self)),
    {
        self.writer.insert(uid, Box::new(pair));
    }

    /// Relies on evmap::WriteHandle::refresh: readers then see every write
    /// staged so far.
    #[verifier::external_body]
    fn refresh(&mut self)
        ensures
            staged_of(*final(self)) == staged_of(*old(self)),
            published_of(*final(self)) == staged_of(*old(self)),
    {
        self.writer.refresh();
    }

    /// Relies on evmap::ReadHandle::get_and: the value-set of the key in the
    /// last refreshed generation, or none when the key is not there.
    #[verifier::external_body]
    fn read_published(&self, uid: &String) -> (r: Option<Vec<(String, FieldValue)>>)
        ensures
            match r {
                None => !published_of(*self).contains_key(uid@),
                Some(v) => published_of(*self).contains_key(uid@)
                    && pairs_view(v@).to_multiset() == published_of(*self)[uid@],
            },
    {
        self.reader.get_and(uid.as_str(), |values| values.iter().map(|b| (**b).clone()).collect())
    }

    /// Relies on evmap::ReadHandle::clone: another handle on the same map.
    #[verifier::external_body]
    fn clone_reader(&self) -> (r: MetadataReader) {
        MetadataReader { reader: self.reader.clone() }
    }
}

impl MetadataReader {
    /// Relies on evmap::ReadHandle::get_and. What it finds depends on the
    /// writer, which runs elsewhere, so nothing is promised of it.
    #[verifier::external_body]
    fn read(&self, uid: &String) -> (r: Option<Vec<(String, FieldValue)>>) {
        self.reader.get_and(uid.as_str(), |values| values.iter().map(|b| (**b).clone()).collect())
    }

    /// The pairs published for `uid` at the moment of the call, if any.
    pub fn lookup(&self, uid: &String) -> (r: Option<Vec<(String, FieldValue)>>) {
        self.read(uid)
    }
}

impl MetadataStore {
    /// An empty store: nothing staged, nothing published.
    pub fn new() -> (r: MetadataStore)
        ensures
            staged_of(r) == empty_contents(),
            published_of(r) == empty_contents(),
    {
        new_map()
    }

    /// Stages the replacement of every pair of `uid` by `pairs`. Readers go
    /// on seeing the published generation unchanged.
    pub fn stage(&mut self, uid: &String, pairs: &Vec<(String, FieldValue)>)
        ensures
            staged_of(*final(self)) == update_spec(staged_of(*old(self)), uid@, pairs_view(pairs@)),
            published_of(*final(self)) == published_of(*old(self)),
    {
        self.clear_staged(uid.clone());
        proof {
            let t = pairs_view(pairs@).take(0);
            t.to_multiset_ensures();
            vstd::multiset::lemma_multiset_empty_len(t.to_multiset());
        }
        let mut i: usize = 0;
        while i < pairs.len()
            invariant
                i <= pairs@.len(),
                staged_of(*self) == staged_of(*old(self)).insert(uid@, pairs_view(pairs@).take(i as int).to_multiset()),
                published_of(*self) == published_of(*old(self)),
            decreases pairs@.len() - i,
        {
            let p = (pairs[i].0.clone(), pairs[i].1.duplicate());
            self.insert_staged(uid.clone(), p);
            proof {
                let t = pairs_view(pairs@).take(i as int);
                assert(pairs_view(pairs@).take(i + 1) =~= t.push(pair_view(p)));
                t.to_multiset_ensures();
            }
            i = i + 1;
        }
        proof {
            assert(pairs_view(pairs@).take(pairs@.len() as int) =~= pairs_view(pairs@));
            assert(staged_of(*self) =~= update_spec(staged_of(*old(self)), uid@, pairs_view(pairs@)));
        }
    }

    /// Makes everything staged visible to readers at once.
    pub fn publish(&mut self)
        ensures
            staged_of(*final(self)) == staged_of(*old(self)),
            published_of(*final(self)) == staged_of(*old(self)),
    {
        self.refresh();
    }

    /// Replaces the pairs of `uid` by `pairs` and publishes the result.
    pub fn update(&mut self, uid: &String, pairs: &Vec<(String, FieldValue)>)
        ensures
            staged_of(*final(self)) == update_spec(staged_of(*old(self)), uid@, pairs_view(pairs@)),
            published_of(*final(self)) == staged_of(*final(self)),
    {
        self.stage(uid, pairs);
        self.publish();
    }

    /// The published pairs of `uid`, or `None` when `uid` was never updated.
    pub fn lookup(&self, uid: &String) -> (r: Option<Vec<(String, FieldValue)>>)
        ensures
            match r {
                None => lookup_spec(published_of(*self), uid@) is None,
                Some(v) => lookup_spec(published_of(*self), uid@) == Some(pairs_view(v@).to_multiset()),
            },
    {
        self.read_published(uid)
    }

    /// A read handle for a reader elsewhere; it sees each generation as it
    /// is published.
    pub fn reader(&self) -> (r: MetadataReader) {
        self.clone_reader()
    }
}

/// An update leaves `uid` with exactly the pairs that extraction gave,
/// whatever `uid` held before.
pub proof fn lemma_update_replaces(
    m: Contents,
    uid: Seq<char>,
    fields: Seq<crate::fields::PodField>,
    pod: crate::pod::PodSnapshot,
)
    ensures
        lookup_spec(update_spec(m, uid, crate::fields::extract_all(fields, pod)), uid)
            == Some(crate::fields::extract_all(fields, pod).to_multiset()),
{
}

/// Updates of other identities leave what `uid` holds as it was: an entry
/// is never evicted.
pub proof fn lemma_no_eviction(m: Contents, ups: Seq<(Seq<char>, Seq<PairModel>)>, uid: Seq<char>)
    requires
        !touches(ups, uid),
    ensures
        lookup_spec(apply_updates(m, ups), uid) == lookup_spec(m, uid),
    decreases ups.len(),
{
    if ups.len() > 0 {
        assert(!touches(ups.drop_last(), uid)) by {
            if touches(ups.drop_last(), uid) {
                let i = choose|i: int| 0 <= i < ups.drop_last().len() && (#[trigger] ups.drop_last()[i]).0 == uid;
                assert(ups[i] == ups.drop_last()[i]);
            }
        }
        assert(ups[ups.len() - 1].0 != uid);
        lemma_no_eviction(m, ups.drop_last(), uid);
    }
}

/// An identity that no update has touched is absent from the cache, which
/// is not the same as present with no pairs.
pub proof fn lemma_unknown_identity_absent(ups: Seq<(Seq<char>, Seq<PairModel>)>, uid: Seq<char>)
    requires
        !touches(ups, uid),
    ensures
        lookup_spec(apply_updates(empty_contents(), ups), uid) is None,
{
    lemma_no_eviction(empty_contents(), ups, uid);
}

} // verus!
