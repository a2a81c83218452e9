use vstd::prelude::*;
use crate::value::FieldValue;

verus! {

/// A point in time as seconds and nanoseconds since the Unix epoch.
#[derive(Clone, Copy, Debug, PartialEq, Eq, Hash)]
pub struct Timestamp {
    pub secs: i64,
    pub nanos: u32,
}

impl Timestamp {
    pub fn to_value(&self) -> (r: FieldValue)
        ensures
            r == (FieldValue::Timestamp { secs: self.secs, nanos: self.nanos }),
    {
        FieldValue::Timestamp { secs: self.secs, nanos: self.nanos }
    }
}

/// What the cache reads of a pod resource: its identity, resume token and
/// the fields that extraction may select. Map-valued fields hold their
/// entries as a list of (key, value), which extraction follows in order.
#[derive(Clone, Debug, PartialEq, Eq)]
pub struct PodSnapshot {
    pub uid: Option<String>,
    pub resource_version: Option<String>,
    pub name: Option<String>,
    pub namespace: Option<String>,
    pub creation_timestamp: Option<Timestamp>,
    pub deletion_timestamp: Option<Timestamp>,
    pub labels: Option<Vec<(String, String)>>,
    pub annotations: Option<Vec<(String, String)>>,
    pub node_name: Option<String>,
    pub hostname: Option<String>,
    pub priority: Option<i32>,
    pub priority_class_name: Option<String>,
    pub service_account_name: Option<String>,
    pub subdomain: Option<String>,
    pub host_ip: Option<String>,
    pub pod_ip: Option<String>,
}

impl PodSnapshot {
    /// A snapshot with every field absent.
    pub fn empty() -> (r: PodSnapshot)
        ensures
            r.uid is None,
            r.resource_version is None,
            r.name is None,
            r.namespace is None,
            r.creation_timestamp is None,
            r.deletion_timestamp is None,
            r.labels is None,
            r.annotations is None,
            r.node_name is None,
            r.hostname is None,
            r.priority is None,
            r.priority_class_name is None,
            r.service_account_name is None,
            r.subdomain is None,
            r.host_ip is None,
            r.pod_ip is None,
    {
        PodSnapshot {
            uid: None,
            resource_version: None,
            name: None,
            namespace: None,
            creation_timestamp: None,
            deletion_timestamp: None,
            labels: None,
            annotations: None,
            node_name: None,
            hostname: None,
            priority: None,
            priority_class_name: None,
            service_account_name: None,
            subdomain: None,
            host_ip: None,
            pod_ip: None,
        }
    }
}

} // verus!
