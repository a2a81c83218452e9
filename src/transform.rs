use vstd::prelude::*;
use crate::event::{merge_fields, merged, LogEvent};
use crate::fields::{all_fields, catalog, default_fields, field_name, prefixed, with_prefix, PodField};
use crate::reconcile::{initial_state, BuildError, MetadataClient};
use crate::store::{empty_contents, published_of, staged_of, MetadataReader, MetadataStore};
use crate::value::{pairs_view, FieldValue, PairModel};

verus! {

/// The variable that holds the name of the node this process runs on.
pub const NODE_NAME_ENV: &'static str = "VECTOR_NODE_NAME";

/// Configuration of the enrichment: the names of the fields to extract.
#[derive(Clone, Debug, PartialEq, Eq)]
pub struct KubePodMetadata {
    pub fields: Vec<String>,
}

pub open spec fn names_view(names: Seq<String>) -> Seq<Seq<char>> {
    names.map_values(|s: String| s@)
}

/// The active fields: the catalog, in its order, kept to the names that
/// the configuration lists. Names outside the catalog are ignored.
pub open spec fn selected(names: Seq<Seq<char>>) -> Seq<PodField> {
    catalog().filter(|f: PodField| names.contains(field_name(f)))
}

impl KubePodMetadata {
    /// A configuration that selects the fields named.
    pub fn new(fields: Vec<String>) -> (r: KubePodMetadata)
        ensures
            r.fields == fields,
    {
        KubePodMetadata { fields }
    }

    /// The configuration used when none names its fields.
    pub fn with_default_fields() -> (r: KubePodMetadata)
        ensures
            names_view(r.fields@) == seq!["name"@, "namespace"@, "labels"@, "annotations"@, "node_name"@],
    {
        KubePodMetadata { fields: default_fields() }
    }

    /// Sets up the enrichment for the node named `node_name`, the value of
    /// the variable `NODE_NAME_ENV`: an empty store, the client that will
    /// fill it, and the step that reads it. Without a node name the setup
    /// fails.
    pub fn build(&self, node_name: Option<String>) -> (r: Result<(String, MetadataClient, KubernetesPodMetadata), BuildError>)
        ensures
            node_name is None <==> r is Err,
            r matches Err(e) ==> (e matches BuildError::MissingNodeName { env } && env@ == NODE_NAME_ENV@),
            r matches Ok((node, client, _)) ==> {
                &&& node_name == Some(node)
                &&& client.active() == selected(names_view(self.fields@))
                &&& client.loop_state() == initial_state()
                &&& client.wf()
                &&& staged_of(client.store()) == empty_contents()
                &&& published_of(client.store()) == empty_contents()
            },
    {
        match node_name {
            None => Err(BuildError::MissingNodeName { env: String::from_str(NODE_NAME_ENV) }),
            Some(node) => {
                let store = MetadataStore::new();
                let reader = store.reader();
                let client = MetadataClient::new(self, store);
                Ok((node, client, KubernetesPodMetadata::new(reader)))
            },
        }
    }

    /// The active fields that this configuration selects.
    pub fn active_fields(&self) -> (r: Vec<PodField>)
        ensures
            r@ == selected(names_view(self.fields@)),
    {
        select_fields(&self.fields)
    }
}

fn lists_name(names: &Vec<String>, name: &str) -> (r: bool)
    ensures
        r == names_view(names@).contains(name@),
{
    let wanted = String::from_str(name);
    let mut i: usize = 0;
    while i < names.len()
        invariant
            i <= names@.len(),
            wanted@ == name@,
            forall|j: int| 0 <= j < i ==> names@[j]@ != name@,
        decreases names@.len() - i,
    {
        if names[i] == wanted {
            assert(names_view(names@)[i as int] == name@);
            return true;
        }
        i = i + 1;
    }
    assert(!names_view(names@).contains(name@)) by {
        if names_view(names@).contains(name@) {
            let j = choose|j: int| 0 <= j < names_view(names@).len() && names_view(names@)[j] == name@;
            assert(names@[j]@ == name@);
        }
    }
    false
}

/// The catalog kept to the fields that `names` lists, in catalog order.
pub fn select_fields(names: &Vec<String>) -> (r: Vec<PodField>)
    ensures
        r@ == selected(names_view(names@)),
{
    let all = all_fields();
    let ghost pred = |f: PodField| names_view(names@).contains(field_name(f));
    let mut r: Vec<PodField> = Vec::new();
    let mut i: usize = 0;
    while i < all.len()
        invariant
            i <= all@.len(),
            all@ == catalog(),
            pred == (|f: PodField| names_view(names@).contains(field_name(f))),
            r@ == all@.take(i as int).filter(pred),
        decreases all@.len() - i,
    {
        let f = all[i];
        proof {
            assert(all@.take(i + 1) =~= all@.take(i as int).push(f));
            all@.take(i as int).lemma_filter_push(f, pred);
        }
        if lists_name(names, f.name()) {
            r.push(f);
        }
        i = i + 1;
    }
    assert(all@.take(all@.len() as int) =~= all@);
    r
}

/// The key under which events carry the identity of their pod.
pub open spec fn pod_uid_key_spec() -> Seq<char> {
    prefixed("pod_uid"@)
}

pub fn pod_uid_key() -> (r: String)
    ensures
        r@ == pod_uid_key_spec(),
{
    with_prefix("pod_uid")
}

/// The identity an event carries: the bytes under the pod identity key.
pub open spec fn identity_of(e: Map<Seq<char>, FieldValue>) -> Option<String> {
    if e.contains_key(pod_uid_key_spec()) {
        match e[pod_uid_key_spec()] {
            FieldValue::Bytes(s) => Some(s),
            _ => None,
        }
    } else {
        None
    }
}

/// The identity an event carries, if any.
pub fn identity(event: &LogEvent) -> (r: Option<String>)
    ensures
        r == identity_of(event@),
{
    let key = pod_uid_key();
    match event.get(&key) {
        Some(FieldValue::Bytes(s)) => Some(s.clone()),
        _ => None,
    }
}

/// The event after a lookup that found `found`: unchanged on a miss,
/// every pair set in it on a hit.
pub open spec fn enriched(e: Map<Seq<char>, FieldValue>, found: Option<Seq<PairModel>>) -> Map<Seq<char>, FieldValue> {
    match found {
        None => e,
        Some(p) => merged(e, p),
    }
}

pub open spec fn found_view(found: Option<Vec<(String, FieldValue)>>) -> Option<Seq<PairModel>> {
    match found {
        None => None,
        Some(v) => Some(pairs_view(v@)),
    }
}

/// Merges what a lookup found into the event.
pub fn enrich(event: LogEvent, found: Option<Vec<(String, FieldValue)>>) -> (r: LogEvent)
    ensures
        r@ == enriched(event@, found_view(found)),
{
    let mut event = event;
    match found {
        Some(pairs) => merge_fields(&mut event, &pairs),
        None => {},
    }
    event
}

/// The enrichment step: looks up the identity an event carries and merges
/// the cached fields into it. Every event comes out again.
pub struct KubernetesPodMetadata {
    metadata: MetadataReader,
}

impl KubernetesPodMetadata {
    pub fn new(metadata: MetadataReader) -> (r: KubernetesPodMetadata) {
        KubernetesPodMetadata { metadata }
    }

    /// An event without an identity passes unchanged; otherwise it is
    /// enriched with whatever the published generation holds for it at the
    /// moment of the lookup.
    pub fn transform(&mut self, event: LogEvent) -> (r: Option<LogEvent>)
        ensures
            *final(self) == *old(self),
            r is Some,
            identity_of(event@) is None ==> r->Some_0@ == event@,
            identity_of(event@) is Some ==> exists|found: Option<Seq<PairModel>>|
                r->Some_0@ == #[trigger] enriched(event@, found),
    {
        match identity(&event) {
            None => Some(event),
            Some(uid) => {
                let found = self.metadata.lookup(&uid);
                let ghost fv = found_view(found);
                let r = enrich(event, found);
                assert(r@ == enriched(event@, fv));
                Some(r)
            },
        }
    }
}

proof fn lemma_merged_untouched(e: Map<Seq<char>, FieldValue>, p: Seq<PairModel>, k: Seq<char>)
    requires
        forall|i: int| 0 <= i < p.len() ==> p[i].0 != k,
    ensures
        merged(e, p).contains_key(k) == e.contains_key(k),
        e.contains_key(k) ==> merged(e, p)[k] == e[k],
    decreases p.len(),
{
    if p.len() > 0 {
        assert(p[p.len() - 1].0 != k);
        lemma_merged_untouched(e, p.drop_last(), k);
    }
}

proof fn lemma_merged_last(e: Map<Seq<char>, FieldValue>, p: Seq<PairModel>, i: int)
    requires
        0 <= i < p.len(),
        forall|j: int| i < j < p.len() ==> p[j].0 != p[i].0,
    ensures
        merged(e, p).contains_key(p[i].0),
        merged(e, p)[p[i].0] == p[i].1,
    decreases p.len(),
{
    if i < p.len() - 1 {
        assert(p[p.len() - 1].0 != p[i].0);
        lemma_merged_last(e, p.drop_last(), i);
    }
}

/// Enrichment never loses an event: on a miss the event is unchanged; on a
/// hit each cached key holds its cached value (the last one given, where a
/// key repeats), and every other field keeps its value.
pub proof fn lemma_enrichment_fallback(e: Map<Seq<char>, FieldValue>, found: Option<Seq<PairModel>>)
    ensures
        found is None ==> enriched(e, found) == e,
        found matches Some(p) ==> forall|i: int|
            0 <= i < p.len() && (forall|j: int| i < j < p.len() ==> p[j].0 != p[i].0) ==> {
                &&& enriched(e, found).contains_key(#[trigger] p[i].0)
                &&& enriched(e, found)[p[i].0] == p[i].1
            },
        found matches Some(p) ==> forall|k: Seq<char>|
            (forall|i: int| 0 <= i < p.len() ==> p[i].0 != k) ==> {
                &&& #[trigger] enriched(e, found).contains_key(k) == e.contains_key(k)
                &&& e.contains_key(k) ==> enriched(e, found)[k] == e[k]
            },
{
    if let Some(p) = found {
        assert forall|i: int|
            0 <= i < p.len() && (forall|j: int| i < j < p.len() ==> p[j].0 != p[i].0) implies {
                &&& enriched(e, found).contains_key(#[trigger] p[i].0)
                &&& enriched(e, found)[p[i].0] == p[i].1
            } by {
            lemma_merged_last(e, p, i);
        }
        assert forall|k: Seq<char>|
            (forall|i: int| 0 <= i < p.len() ==> p[i].0 != k) implies {
                &&& #[trigger] enriched(e, found).contains_key(k) == e.contains_key(k)
                &&& e.contains_key(k) ==> enriched(e, found)[k] == e[k]
            } by {
            lemma_merged_untouched(e, p, k);
        }
    }
}

} // verus!
