use kube_metadata::event::LogEvent;
use kube_metadata::fields::{default_fields, extract, with_prefix, PodField};
use kube_metadata::pod::{PodSnapshot, Timestamp};
use kube_metadata::reconcile::{BuildError, LoopAction, LoopEvent, LoopState, MetadataClient, RuntimeError};
use kube_metadata::store::MetadataStore;
use kube_metadata::tls::{check_identity, IdentityStore, TlsConfig, TlsError, TlsOptions};
use kube_metadata::transform::{enrich, identity, pod_uid_key, select_fields, KubePodMetadata};
use kube_metadata::value::FieldValue;

fn text(s: &str) -> FieldValue {
    FieldValue::Bytes(s.to_string())
}

fn sorted(mut v: Vec<(String, FieldValue)>) -> Vec<(String, FieldValue)> {
    v.sort_by(|a, b| a.0.cmp(&b.0));
    v
}

fn pod(uid: &str, node: &str) -> PodSnapshot {
    let mut p = PodSnapshot::empty();
    p.uid = Some(uid.to_string());
    p.name = Some("echo".to_string());
    p.namespace = Some("default".to_string());
    p.node_name = Some(node.to_string());
    p.resource_version = Some("42".to_string());
    p.labels = Some(vec![("app".to_string(), "echo".to_string()), ("tier".to_string(), "web".to_string())]);
    p
}

fn config(names: &[&str]) -> KubePodMetadata {
    KubePodMetadata::new(names.iter().map(|s| s.to_string()).collect())
}

#[test]
fn prefix_is_namespaced() {
    assert_eq!(with_prefix("node_name"), "kubernetes.node_name");
    assert_eq!(pod_uid_key(), "kubernetes.pod_uid");
}

#[test]
fn default_field_names() {
    assert_eq!(default_fields(), vec!["name", "namespace", "labels", "annotations", "node_name"]);
    assert_eq!(KubePodMetadata::with_default_fields().fields, default_fields());
}

#[test]
fn selection_keeps_catalog_order_and_ignores_unknown_names() {
    let names = vec!["labels".to_string(), "bogus".to_string(), "name".to_string()];
    assert_eq!(select_fields(&names), vec![PodField::Name, PodField::Labels]);
    assert!(select_fields(&vec!["bogus".to_string()]).is_empty());
}

#[test]
fn node_name_selection_gives_one_pair() {
    let fields = config(&["node_name"]).active_fields();
    let p = pod("uid-1", "node-7");
    let pairs = extract(&fields, &p);
    assert_eq!(pairs, vec![("kubernetes.node_name".to_string(), text("node-7"))]);

    let mut store = MetadataStore::new();
    store.update(&"uid-1".to_string(), &pairs);
    let found = store.lookup(&"uid-1".to_string()).unwrap();
    assert_eq!(found, vec![("kubernetes.node_name".to_string(), text("node-7"))]);
}

#[test]
fn map_fields_expand_per_entry() {
    let fields = vec![PodField::Labels];
    let pairs = extract(&fields, &pod("u", "n"));
    assert_eq!(
        pairs,
        vec![
            ("kubernetes.labels.app".to_string(), text("echo")),
            ("kubernetes.labels.tier".to_string(), text("web")),
        ]
    );
}

#[test]
fn scalar_kinds_and_absent_fields() {
    let mut p = PodSnapshot::empty();
    p.priority = Some(7);
    p.creation_timestamp = Some(Timestamp { secs: 1_600_000_000, nanos: 5 });
    let fields = vec![PodField::Priority, PodField::CreationTimestamp, PodField::Hostname, PodField::Annotations];
    let pairs = extract(&fields, &p);
    assert_eq!(
        pairs,
        vec![
            ("kubernetes.priority".to_string(), FieldValue::Integer(7)),
            (
                "kubernetes.creation_timestamp".to_string(),
                FieldValue::Timestamp { secs: 1_600_000_000, nanos: 5 }
            ),
        ]
    );
}

#[test]
fn update_replaces_previous_pairs() {
    let mut store = MetadataStore::new();
    let uid = "uid-1".to_string();
    store.update(&uid, &vec![("a".to_string(), text("1")), ("b".to_string(), text("2"))]);
    store.update(&uid, &vec![("c".to_string(), text("3"))]);
    assert_eq!(store.lookup(&uid), Some(vec![("c".to_string(), text("3"))]));
}

#[test]
fn unknown_identity_is_absent_not_empty() {
    let mut store = MetadataStore::new();
    assert_eq!(store.lookup(&"nobody".to_string()), None);
    store.update(&"other".to_string(), &vec![("a".to_string(), text("1"))]);
    assert_eq!(store.lookup(&"nobody".to_string()), None);
    store.update(&"bare".to_string(), &vec![]);
    assert_eq!(store.lookup(&"bare".to_string()), Some(vec![]));
}

#[test]
fn entries_are_never_evicted() {
    let mut store = MetadataStore::new();
    let uid = "gone".to_string();
    store.update(&uid, &vec![("a".to_string(), text("1"))]);
    for i in 0..20 {
        store.update(&format!("pod-{}", i), &vec![("x".to_string(), FieldValue::Integer(i))]);
    }
    assert_eq!(store.lookup(&uid), Some(vec![("a".to_string(), text("1"))]));
}

#[test]
fn staged_writes_stay_invisible_until_published() {
    let mut store = MetadataStore::new();
    let uid = "uid-1".to_string();
    store.update(&uid, &vec![("a".to_string(), text("old"))]);
    let reader = store.reader();
    store.stage(&uid, &vec![("a".to_string(), text("new")), ("b".to_string(), text("new"))]);
    assert_eq!(store.lookup(&uid), Some(vec![("a".to_string(), text("old"))]));
    assert_eq!(reader.lookup(&uid), Some(vec![("a".to_string(), text("old"))]));
    store.publish();
    let expected = vec![("a".to_string(), text("new")), ("b".to_string(), text("new"))];
    assert_eq!(sorted(store.lookup(&uid).unwrap()), expected);
    assert_eq!(sorted(reader.lookup(&uid).unwrap()), expected);
}

fn event_with(fields: &[(&str, FieldValue)]) -> LogEvent {
    let mut e = LogEvent::new();
    for (k, v) in fields {
        e.insert(k.to_string(), v.clone());
    }
    e
}

#[test]
fn event_insert_overwrites() {
    let mut e = event_with(&[("a", text("1")), ("b", text("2"))]);
    e.insert("a".to_string(), FieldValue::Integer(3));
    assert_eq!(e.get(&"a".to_string()), Some(&FieldValue::Integer(3)));
    assert_eq!(e.get(&"b".to_string()), Some(&text("2")));
    assert_eq!(e.get(&"c".to_string()), None);
}

#[test]
fn enrichment_fallbacks() {
    let mut store = MetadataStore::new();
    store.update(
        &"uid-1".to_string(),
        &vec![("kubernetes.name".to_string(), text("echo")), ("message".to_string(), text("cached"))],
    );
    let config = config(&["name"]);
    let (node, _client, mut transform) = config.build(Some("node-7".to_string())).unwrap();
    assert_eq!(node, "node-7");

    // Without the identity attribute: unchanged.
    let plain = event_with(&[("message", text("hi"))]);
    assert_eq!(identity(&plain), None);
    assert_eq!(transform.transform(plain.clone()), Some(plain.clone()));

    // An identity with no cache entry: unchanged.
    let unknown = event_with(&[("message", text("hi")), ("kubernetes.pod_uid", text("uid-9"))]);
    assert_eq!(transform.transform(unknown.clone()), Some(unknown.clone()));

    // A hit merges every cached pair, overwriting fields of the same name.
    let hit = event_with(&[("message", text("hi")), ("kubernetes.pod_uid", text("uid-1"))]);
    assert_eq!(identity(&hit), Some("uid-1".to_string()));
    let found = store.lookup(&"uid-1".to_string());
    let out = enrich(hit, found);
    assert_eq!(out.get(&"message".to_string()), Some(&text("cached")));
    assert_eq!(out.get(&"kubernetes.name".to_string()), Some(&text("echo")));
    assert_eq!(out.get(&"kubernetes.pod_uid".to_string()), Some(&text("uid-1")));

    let miss = event_with(&[("message", text("hi"))]);
    assert_eq!(enrich(miss.clone(), None), miss);
}

#[test]
fn transform_reads_what_the_loop_wrote() {
    let config = config(&["node_name"]);
    let (_node, mut client, mut transform) = config.build(Some("node-7".to_string())).unwrap();
    assert!(matches!(client.step(LoopEvent::Connected), LoopAction::Pull));
    assert!(matches!(client.step(LoopEvent::Item { pod: pod("uid-1", "node-7") }), LoopAction::Pull));
    let event = event_with(&[("kubernetes.pod_uid", text("uid-1"))]);
    let out = transform.transform(event).unwrap();
    assert_eq!(out.get(&"kubernetes.node_name".to_string()), Some(&text("node-7")));
    assert_eq!(out.get(&"kubernetes.name".to_string()), None);
}

#[test]
fn build_requires_node_name() {
    match config(&["name"]).build(None) {
        Err(BuildError::MissingNodeName { env }) => assert_eq!(env, "VECTOR_NODE_NAME"),
        _ => panic!("expected a missing node name"),
    }
}

fn new_client(names: &[&str]) -> MetadataClient {
    MetadataClient::new(&config(names), MetadataStore::new())
}

#[test]
fn first_connect_failure_is_fatal() {
    let mut client = new_client(&["name"]);
    assert_eq!(client.pending_action(), LoopAction::Connect { version: None, failure: None });
    let error = BuildError::WatchStreamBuild { message: "denied".to_string() };
    assert_eq!(
        client.step(LoopEvent::ConnectFailed { message: "denied".to_string() }),
        LoopAction::Stop { error: error.clone() }
    );
    assert_eq!(client.step(LoopEvent::Tick { now: 1_000_000 }), LoopAction::Stop { error: error.clone() });
    assert_eq!(client.step(LoopEvent::Connected), LoopAction::Stop { error });
}

#[test]
fn stream_failure_backs_off_then_reconnects() {
    let mut client = new_client(&["name"]);
    client.step(LoopEvent::Connected);
    client.step(LoopEvent::Item { pod: pod("uid-1", "n") });
    assert_eq!(client.state(), &LoopState::Streaming { version: Some("42".to_string()) });
    let failed = client.step(LoopEvent::StreamFailed { message: "reset".to_string(), now: 10_000 });
    assert_eq!(failed, LoopAction::Sleep { until: 12_000 });
    assert_eq!(client.step(LoopEvent::Tick { now: 11_999 }), LoopAction::Sleep { until: 12_000 });
    assert_eq!(
        client.step(LoopEvent::Tick { now: 12_000 }),
        LoopAction::Connect {
            version: Some("42".to_string()),
            failure: Some(RuntimeError::WatchFailed { message: "reset".to_string() }),
        }
    );
    assert_eq!(client.step(LoopEvent::Connected), LoopAction::Pull);
}

#[test]
fn graceful_end_is_recorded_as_failure() {
    let mut client = new_client(&["name"]);
    client.step(LoopEvent::Connected);
    assert_eq!(client.step(LoopEvent::StreamEnded { now: 5 }), LoopAction::Sleep { until: 2005 });
    assert_eq!(
        client.step(LoopEvent::Tick { now: 3000 }),
        LoopAction::Connect { version: None, failure: Some(RuntimeError::WatchUnexpectedlyEnded) }
    );
}

#[test]
fn version_advances_only_on_tokens() {
    let mut client = new_client(&["name"]);
    client.step(LoopEvent::Connected);
    client.step(LoopEvent::Item { pod: pod("uid-1", "n") });
    let mut no_token = pod("uid-2", "n");
    no_token.resource_version = None;
    client.step(LoopEvent::Item { pod: no_token });
    assert_eq!(client.state(), &LoopState::Streaming { version: Some("42".to_string()) });
    let mut no_uid = pod("uid-3", "n");
    no_uid.uid = None;
    no_uid.resource_version = Some("99".to_string());
    client.step(LoopEvent::Item { pod: no_uid });
    assert_eq!(client.state(), &LoopState::Streaming { version: Some("42".to_string()) });
}

#[test]
fn update_without_uid_leaves_store() {
    let mut client = new_client(&["name"]);
    let reader = client.reader();
    let mut p = pod("uid-1", "n");
    p.uid = None;
    assert_eq!(client.update(&p), None);
    assert_eq!(reader.lookup(&"uid-1".to_string()), None);
    assert_eq!(client.update(&pod("uid-1", "n")), Some("42".to_string()));
    assert_eq!(reader.lookup(&"uid-1".to_string()), Some(vec![("kubernetes.name".to_string(), text("echo"))]));
}

#[test]
fn tls_checks() {
    let mut options = TlsOptions::default();
    assert_eq!(options.check_key_pair(), Ok(()));
    assert!(options.verifies_certificate());
    assert!(options.verifies_hostname());
    options.key_path = Some("key.pem".to_string());
    assert_eq!(options.check_key_pair(), Err(TlsError::MissingCrtKeyFile));
    options.crt_path = Some("crt.pem".to_string());
    assert_eq!(options.check_key_pair(), Ok(()));
    options.verify_hostname = Some(false);
    assert!(!options.verifies_hostname());

    assert!(!TlsConfig::is_enabled(&None));
    assert!(!TlsConfig::is_enabled(&Some(TlsConfig::default())));
    let on = TlsConfig { enabled: Some(true), options: TlsOptions::default() };
    assert!(TlsConfig::is_enabled(&Some(on)));

    assert_eq!(check_identity(true, &None), Err(TlsError::MissingRequiredIdentity));
    assert_eq!(check_identity(false, &None), Ok(()));
    assert_eq!(check_identity(true, &Some(IdentityStore(vec![1, 2], String::new()))), Ok(()));
}
