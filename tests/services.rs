use tanic::config::ConnectionDetails;
use tanic::keyed::{find, upsert};
use tanic::message::NamespaceDeets;
use tanic::orchestrator::{concerns_state, FetchCommand, IcebergContextManager};
use tanic::state::{TanicAction, TanicAppState, TanicIcebergState, TanicUiState};
use tanic::store::AppStateManager;
use tanic::text::{join, split};

fn conn(uri: &str) -> ConnectionDetails {
    ConnectionDetails { id: 7, name: "n".to_string(), uri: uri.to_string() }
}

fn names(v: &[&str]) -> Vec<String> {
    v.iter().map(|s| s.to_string()).collect()
}

#[test]
fn from_parts_joins_with_dots() {
    let d = NamespaceDeets::from_parts(names(&["a", "b", "c"]));
    assert_eq!(d.name, "a.b.c");
    assert_eq!(d.parts, names(&["a", "b", "c"]));
    assert_eq!(d.table_count, 0);
    assert_eq!(NamespaceDeets::from_parts(vec![]).name, "");
    assert_eq!(NamespaceDeets::from_parts(names(&["solo"])).name, "solo");
}

#[test]
fn join_and_split() {
    assert_eq!(join(&names(&["x", "", "y"]), "::"), "x::::y");
    assert_eq!(split("a.b", '.'), names(&["a", "b"]));
    assert_eq!(split("", '.'), names(&[""]));
    assert_eq!(split(".a.", '.'), names(&["", "a", ""]));
}

#[test]
fn new_anon_keeps_uri_and_names_randomly() {
    let d = ConnectionDetails::new_anon("http://cat/".to_string());
    assert_eq!(d.uri, "http://cat/");
    assert!(!d.name.is_empty());
    assert!(d.name.contains('-'));
    let e = ConnectionDetails::new_anon("http://cat/".to_string());
    assert_ne!(d.id, e.id);
    assert!(d == e);
}

#[test]
fn connection_equality_is_by_uri() {
    let a = ConnectionDetails { id: 1, name: "a".to_string(), uri: "http://x".to_string() };
    let b = ConnectionDetails { id: 2, name: "b".to_string(), uri: "http://x".to_string() };
    let c = ConnectionDetails { id: 1, name: "a".to_string(), uri: "http://y".to_string() };
    assert!(a == b);
    assert!(a != c);
}

#[test]
fn catalog_base_uri_drops_trailing_slash() {
    assert_eq!(conn("http://a/").catalog_base_uri(), "http://a");
    assert_eq!(conn("http://a/api").catalog_base_uri(), "http://a/api");
    assert_eq!(conn("").catalog_base_uri(), "");
}

#[test]
fn upsert_overwrites_in_place() {
    let mut v: Vec<(String, u32)> = vec![];
    upsert(&mut v, "p1".to_string(), 1);
    upsert(&mut v, "p2".to_string(), 2);
    upsert(&mut v, "p1".to_string(), 3);
    assert_eq!(v, vec![("p1".to_string(), 3), ("p2".to_string(), 2)]);
    assert_eq!(find(&v, "p2"), Some(&2));
    assert_eq!(find(&v, "p3"), None);
}

#[test]
fn store_applies_in_order_and_stops_on_exit() {
    let mut store = AppStateManager::new();
    assert!(store.is_running());
    assert!(store.apply(TanicAction::ConnectTo(conn("http://a"))));
    assert!(store.apply(TanicAction::UpdateNamespacesList(names(&["ns"]))));
    assert!(matches!(store.get_state().iceberg, TanicIcebergState::Connected(_)));
    assert!(!store.apply(TanicAction::Exit));
    assert!(!store.is_running());
    assert_eq!(store.get_state().ui, TanicUiState::Exiting);
}

#[test]
fn orchestrator_connects_once_per_uri() {
    let mut o = IcebergContextManager::new();
    let s = TanicAppState::initial().update(TanicAction::ConnectTo(conn("http://a")));
    assert!(matches!(o.observe(&s), Some(FetchCommand::Connect(d)) if d.uri == "http://a"));
    let mut other = conn("http://a");
    other.name = "again".to_string();
    let s = s.update(TanicAction::ConnectTo(other));
    assert!(o.observe(&s).is_none());
    let s = s.update(TanicAction::ConnectTo(conn("http://b")));
    assert!(matches!(o.observe(&s), Some(FetchCommand::Connect(d)) if d.uri == "http://b"));
    let s = s.update(TanicAction::Exit);
    assert!(matches!(o.observe(&s), Some(FetchCommand::Stop)));
}

#[test]
fn orchestrator_requests_unknown_tables_once() {
    let mut o = IcebergContextManager::new();
    let s = TanicAppState::initial().update(TanicAction::ConnectTo(conn("http://a")));
    o.observe(&s);
    let s = s.update(TanicAction::UpdateNamespacesList(names(&["ns1", "ns2"])));
    assert!(o.observe(&s).is_none());
    let s = s.update(TanicAction::SelectNamespace);
    match o.observe(&s) {
        Some(FetchCommand::ListTables { connection, namespace }) => {
            assert_eq!(connection.uri, "http://a");
            assert_eq!(namespace, "ns1");
        }
        other => panic!("unexpected {:?}", other),
    }
    assert!(o.observe(&s).is_none());
    let a = o.tables_fetched(&s, &conn("http://a"), "ns1".to_string(), None);
    assert!(a.is_none());
    assert!(matches!(o.observe(&s), Some(FetchCommand::ListTables { .. })));
    let a = o.tables_fetched(&s, &conn("http://a"), "ns1".to_string(), Some(names(&["t"])));
    let s = s.update(a.unwrap());
    assert!(o.observe(&s).is_none());
}

#[test]
fn stale_results_are_discarded() {
    let mut o = IcebergContextManager::new();
    let s = TanicAppState::initial().update(TanicAction::ConnectTo(conn("http://a")));
    o.observe(&s);
    let s = s.update(TanicAction::UpdateNamespacesList(names(&["ns1"])));
    let s = s.update(TanicAction::ConnectTo(conn("http://b")));
    o.observe(&s);
    let s = s.update(TanicAction::UpdateNamespacesList(names(&["other"])));
    assert!(!concerns_state(&s, &conn("http://a")));
    assert!(concerns_state(&s, &conn("http://b")));
    assert!(!concerns_state(&TanicAppState::initial(), &conn("http://b")));
    let stale = o.tables_fetched(&s, &conn("http://a"), "other".to_string(), Some(names(&["t"])));
    assert!(stale.is_none());
    assert!(IcebergContextManager::namespaces_fetched(&s, &conn("http://a"), vec![names(&["x"])]).is_none());
    match IcebergContextManager::namespaces_fetched(&s, &conn("http://b"), vec![names(&["x", "y"]), names(&["z"])]) {
        Some(TanicAction::UpdateNamespacesList(n)) => assert_eq!(n, names(&["x.y", "z"])),
        other => panic!("unexpected {:?}", other),
    }
    let fresh = o.tables_fetched(&s, &conn("http://b"), "other".to_string(), Some(names(&["t"])));
    assert!(matches!(fresh, Some(TanicAction::UpdateNamespaceTableList(ns, t)) if ns == "other" && t == names(&["t"])));
}
