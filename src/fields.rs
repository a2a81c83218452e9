use vstd::prelude::*;
use crate::pod::{PodSnapshot, Timestamp};
use crate::value::{duplicate_pair, pairs_view, FieldValue, PairModel};

verus! {

/// The namespace under which every extracted field key is placed: the
/// Kubernetes key of the default event schema.
pub const KUBERNETES_KEY: &'static str = "kubernetes";

/// `<namespace>.<name>`
pub open spec fn prefixed(name: Seq<char>) -> Seq<char> {
    KUBERNETES_KEY@ + "."@ + name
}

/// Places a field name under the Kubernetes namespace of the event.
pub fn with_prefix(name: &str) -> (r: String)
    ensures
        r@ == prefixed(name@),
{
    let mut key = String::from_str(KUBERNETES_KEY);
    key.append(".");
    key.append(name);
    key
}

/// The field names selected when the configuration names none.
pub fn default_fields() -> (r: Vec<String>)
    ensures
        r@.map_values(|s: String| s@) == seq!["name"@, "namespace"@, "labels"@, "annotations"@, "node_name"@],
{
    let mut r: Vec<String> = Vec::new();
    r.push(String::from_str("name"));
    r.push(String::from_str("namespace"));
    r.push(String::from_str("labels"));
    r.push(String::from_str("annotations"));
    r.push(String::from_str("node_name"));
    assert(r@.map_values(|s: String| s@) =~= seq!["name"@, "namespace"@, "labels"@, "annotations"@, "node_name"@]);
    r
}

/// One entry of the catalog of extractable pod fields.
#[derive(Clone, Copy, Debug, PartialEq, Eq, Hash)]
pub enum PodField {
    Name,
    Namespace,
    CreationTimestamp,
    DeletionTimestamp,
    Labels,
    Annotations,
    NodeName,
    Hostname,
    Priority,
    PriorityClassName,
    ServiceAccountName,
    Subdomain,
    HostIp,
    Ip,
}

pub open spec fn field_name(f: PodField) -> Seq<char> {
    match f {
        PodField::Name => "name"@,
        PodField::Namespace => "namespace"@,
        PodField::CreationTimestamp => "creation_timestamp"@,
        PodField::DeletionTimestamp => "deletion_timestamp"@,
        PodField::Labels => "labels"@,
        PodField::Annotations => "annotations"@,
        PodField::NodeName => "node_name"@,
        PodField::Hostname => "hostname"@,
        PodField::Priority => "priority"@,
        PodField::PriorityClassName => "priority_class_name"@,
        PodField::ServiceAccountName => "service_account_name"@,
        PodField::Subdomain => "subdomain"@,
        PodField::HostIp => "host_ip"@,
        PodField::Ip => "ip"@,
    }
}

/// The catalog, in its fixed order.
pub open spec fn catalog() -> Seq<PodField> {
    seq![
        PodField::Name,
        PodField::Namespace,
        PodField::CreationTimestamp,
        PodField::DeletionTimestamp,
        PodField::Labels,
        PodField::Annotations,
        PodField::NodeName,
        PodField::Hostname,
        PodField::Priority,
        PodField::PriorityClassName,
        PodField::ServiceAccountName,
        PodField::Subdomain,
        PodField::HostIp,
        PodField::Ip,
    ]
}

pub open spec fn text(o: Option<String>) -> Option<FieldValue> {
    match o {
        Some(s) => Some(FieldValue::Bytes(s)),
        None => None,
    }
}

pub open spec fn time(o: Option<Timestamp>) -> Option<FieldValue> {
    match o {
        Some(t) => Some(FieldValue::Timestamp { secs: t.secs, nanos: t.nanos }),
        None => None,
    }
}

pub open spec fn integer(o: Option<i32>) -> Option<FieldValue> {
    match o {
        Some(i) => Some(FieldValue::Integer(i as i64)),
        None => None,
    }
}

/// A scalar field gives one pair when present and none when absent.
pub open spec fn scalar_pairs(f: PodField, v: Option<FieldValue>) -> Seq<PairModel> {
    match v {
        Some(x) => seq![(prefixed(field_name(f)), x)],
        None => seq![],
    }
}

pub open spec fn entry_key(f: PodField, key: Seq<char>) -> Seq<char> {
    prefixed(field_name(f)) + "."@ + key
}

/// A map-valued field gives one pair per entry, keyed `<prefix>.<field>.<entry key>`.
pub open spec fn entry_pairs(f: PodField, m: Option<Vec<(String, String)>>) -> Seq<PairModel> {
    match m {
        Some(v) => entry_list(f, v@),
        None => seq![],
    }
}

pub open spec fn entry_list(f: PodField, entries: Seq<(String, String)>) -> Seq<PairModel> {
    entries.map_values(|e: (String, String)| (entry_key(f, e.0@), FieldValue::Bytes(e.1)))
}

/// What one catalog entry extracts from a pod.
pub open spec fn extract_field(f: PodField, pod: PodSnapshot) -> Seq<PairModel> {
    match f {
        PodField::Name => scalar_pairs(f, text(pod.name)),
        PodField::Namespace => scalar_pairs(f, text(pod.namespace)),
        PodField::CreationTimestamp => scalar_pairs(f, time(pod.creation_timestamp)),
        PodField::DeletionTimestamp => scalar_pairs(f, time(pod.deletion_timestamp)),
        PodField::Labels => entry_pairs(f, pod.labels),
        PodField::Annotations => entry_pairs(f, pod.annotations),
        PodField::NodeName => scalar_pairs(f, text(pod.node_name)),
        PodField::Hostname => scalar_pairs(f, text(pod.hostname)),
        PodField::Priority => scalar_pairs(f, integer(pod.priority)),
        PodField::PriorityClassName => scalar_pairs(f, text(pod.priority_class_name)),
        PodField::ServiceAccountName => scalar_pairs(f, text(pod.service_account_name)),
        PodField::Subdomain => scalar_pairs(f, text(pod.subdomain)),
        PodField::HostIp => scalar_pairs(f, text(pod.host_ip)),
        PodField::Ip => scalar_pairs(f, text(pod.pod_ip)),
    }
}

/// What a list of active fields extracts from a pod, field after field.
pub open spec fn extract_all(fields: Seq<PodField>, pod: PodSnapshot) -> Seq<PairModel>
    decreases fields.len(),
{
    if fields.len() == 0 {
        seq![]
    } else {
        extract_all(fields.drop_last(), pod) + extract_field(fields.last(), pod)
    }
}

impl PodField {
    pub fn name(&self) -> (r: &'static str)
        ensures
            r@ == field_name(*self),
    {
        match self {
            PodField::Name => "name",
            PodField::Namespace => "namespace",
            PodField::CreationTimestamp => "creation_timestamp",
            PodField::DeletionTimestamp => "deletion_timestamp",
            PodField::Labels => "labels",
            PodField::Annotations => "annotations",
            PodField::NodeName => "node_name",
            PodField::Hostname => "hostname",
            PodField::Priority => "priority",
            PodField::PriorityClassName => "priority_class_name",
            PodField::ServiceAccountName => "service_account_name",
            PodField::Subdomain => "subdomain",
            PodField::HostIp => "host_ip",
            PodField::Ip => "ip",
        }
    }
}

/// Every supported field, in catalog order.
pub fn all_fields() -> (r: Vec<PodField>)
    ensures
        r@ == catalog(),
{
    let r = vec![
        PodField::Name,
        PodField::Namespace,
        PodField::CreationTimestamp,
        PodField::DeletionTimestamp,
        PodField::Labels,
        PodField::Annotations,
        PodField::NodeName,
        PodField::Hostname,
        PodField::Priority,
        PodField::PriorityClassName,
        PodField::ServiceAccountName,
        PodField::Subdomain,
        PodField::HostIp,
        PodField::Ip,
    ];
    assert(r@ =~= catalog());
    r
}

/// The pairs of a scalar field: one when the value is present.
pub fn field(f: PodField, value: Option<FieldValue>) -> (r: Vec<(String, FieldValue)>)
    ensures
        pairs_view(r@) == scalar_pairs(f, value),
{
    let mut r: Vec<(String, FieldValue)> = Vec::new();
    match value {
        Some(x) => {
            r.push((with_prefix(f.name()), x));
        },
        None => {},
    }
    assert(pairs_view(r@) =~= scalar_pairs(f, value));
    r
}

/// The pairs of a map-valued field: one per entry.
pub fn collection_field(f: PodField, entries: &Vec<(String, String)>) -> (r: Vec<(String, FieldValue)>)
    ensures
        pairs_view(r@) == entry_list(f, entries@),
{
    let mut r: Vec<(String, FieldValue)> = Vec::new();
    let mut prefix = with_prefix(f.name());
    prefix.append(".");
    let mut i: usize = 0;
    while i < entries.len()
        invariant
            i <= entries@.len(),
            prefix@ == prefixed(field_name(f)) + "."@,
            pairs_view(r@) == entry_list(f, entries@).take(i as int),
        decreases entries@.len() - i,
    {
        let mut key = prefix.clone();
        key.append(entries[i].0.as_str());
        let ghost prev = r@;
        r.push((key, FieldValue::Bytes(entries[i].1.clone())));
        assert(pairs_view(r@) =~= pairs_view(prev).push(entry_list(f, entries@)[i as int]));
        assert(pairs_view(r@) =~= entry_list(f, entries@).take(i + 1));
        i = i + 1;
    }
    assert(entry_list(f, entries@).take(entries@.len() as int) =~= entry_list(f, entries@));
    r
}

fn collection_value(f: PodField, entries: &Option<Vec<(String, String)>>) -> (r: Vec<(String, FieldValue)>)
    ensures
        pairs_view(r@) == entry_pairs(f, *entries),
{
    match entries {
        Some(v) => collection_field(f, v),
        None => {
            let r: Vec<(String, FieldValue)> = Vec::new();
            assert(pairs_view(r@) =~= seq![]);
            r
        },
    }
}

fn text_value(o: &Option<String>) -> (r: Option<FieldValue>)
    ensures
        r == text(*o),
{
    match o {
        Some(s) => Some(FieldValue::Bytes(s.clone())),
        None => None,
    }
}

fn time_value(o: &Option<Timestamp>) -> (r: Option<FieldValue>)
    ensures
        r == time(*o),
{
    match o {
        Some(t) => Some(t.to_value()),
        None => None,
    }
}

/// Runs one catalog entry on a pod.
pub fn extract_field_pairs(f: PodField, pod: &PodSnapshot) -> (r: Vec<(String, FieldValue)>)
    ensures
        pairs_view(r@) == extract_field(f, *pod),
{
    match f {
        PodField::Name => field(f, text_value(&pod.name)),
        PodField::Namespace => field(f, text_value(&pod.namespace)),
        PodField::CreationTimestamp => field(f, time_value(&pod.creation_timestamp)),
        PodField::DeletionTimestamp => field(f, time_value(&pod.deletion_timestamp)),
        PodField::Labels => collection_value(f, &pod.labels),
        PodField::Annotations => collection_value(f, &pod.annotations),
        PodField::NodeName => field(f, text_value(&pod.node_name)),
        PodField::Hostname => field(f, text_value(&pod.hostname)),
        PodField::Priority => {
            let v = match pod.priority {
                Some(i) => Some(FieldValue::Integer(i as i64)),
                None => None,
            };
            field(f, v)
        },
        PodField::PriorityClassName => field(f, text_value(&pod.priority_class_name)),
        PodField::ServiceAccountName => field(f, text_value(&pod.service_account_name)),
        PodField::Subdomain => field(f, text_value(&pod.subdomain)),
        PodField::HostIp => field(f, text_value(&pod.host_ip)),
        PodField::Ip => field(f, text_value(&pod.pod_ip)),
    }
}

/// Runs every active field on a pod and concatenates what they give.
pub fn extract(fields: &Vec<PodField>, pod: &PodSnapshot) -> (r: Vec<(String, FieldValue)>)
    ensures
        pairs_view(r@) == extract_all(fields@, *pod),
{
    let mut r: Vec<(String, FieldValue)> = Vec::new();
    let mut i: usize = 0;
    while i < fields.len()
        invariant
            i <= fields@.len(),
            pairs_view(r@) == extract_all(fields@.take(i as int), *pod),
        decreases fields@.len() - i,
    {
        let part = extract_field_pairs(fields[i], pod);
        let mut j: usize = 0;
        let ghost before = r@;
        while j < part.len()
            invariant
                j <= part@.len(),
                pairs_view(r@) == pairs_view(before) + pairs_view(part@).take(j as int),
            decreases part@.len() - j,
        {
            let ghost prev = r@;
            r.push(duplicate_pair(&part[j]));
            assert(pairs_view(r@) =~= pairs_view(prev).push(pairs_view(part@)[j as int]));
            assert(pairs_view(r@) =~= pairs_view(before) + pairs_view(part@).take(j + 1));
            j = j + 1;
        }
        assert(pairs_view(part@).take(part@.len() as int) =~= pairs_view(part@));
        assert(fields@.take(i + 1).drop_last() =~= fields@.take(i as int));
        i = i + 1;
    }
    assert(fields@.take(fields@.len() as int) =~= fields@);
    r
}

} // verus!
