use tanic::config::ConnectionDetails;
use tanic::keys::{on_key, Key};
use tanic::state::{TanicAction, TanicAppState, TanicUiState};
use tanic::view_model::{namespace_list_items, shown_namespace_name, table_list_items, ListItem};

fn conn(uri: &str) -> ConnectionDetails {
    ConnectionDetails { id: 3, name: "c".to_string(), uri: uri.to_string() }
}

fn names(v: &[&str]) -> Vec<String> {
    v.iter().map(|s| s.to_string()).collect()
}

fn listed() -> TanicAppState {
    TanicAppState::initial()
        .update(TanicAction::ConnectTo(conn("http://a")))
        .update(TanicAction::UpdateNamespacesList(names(&["ns1", "ns2"])))
}

#[test]
fn keys_map_by_screen() {
    let ns = listed().ui;
    assert!(matches!(on_key(ns, Key::Char('q')), Some(TanicAction::Exit)));
    assert!(matches!(on_key(ns, Key::Left), Some(TanicAction::FocusPrevNamespace)));
    assert!(matches!(on_key(ns, Key::Right), Some(TanicAction::FocusNextNamespace)));
    assert!(matches!(on_key(ns, Key::Enter), Some(TanicAction::SelectNamespace)));
    assert!(on_key(ns, Key::Esc).is_none());
    let tables = listed().update(TanicAction::SelectNamespace).ui;
    assert!(matches!(on_key(tables, Key::Left), Some(TanicAction::FocusPrevTable)));
    assert!(matches!(on_key(tables, Key::Right), Some(TanicAction::FocusNextTable)));
    assert!(matches!(on_key(tables, Key::Enter), Some(TanicAction::SelectTable)));
    assert!(matches!(on_key(tables, Key::Esc), Some(TanicAction::Escape)));
    assert!(on_key(TanicUiState::SplashScreen, Key::Enter).is_none());
    assert!(matches!(on_key(TanicUiState::SplashScreen, Key::Char('q')), Some(TanicAction::Exit)));
    assert!(on_key(ns, Key::Char('x')).is_none());
    assert!(on_key(ns, Key::Other).is_none());
}

#[test]
fn namespace_items_follow_catalog_order() {
    let s = listed()
        .update(TanicAction::FocusNextNamespace)
        .update(TanicAction::SelectNamespace)
        .update(TanicAction::UpdateNamespaceTableList("ns2".to_string(), names(&["a", "b"])))
        .update(TanicAction::Escape);
    assert_eq!(
        namespace_list_items(&s),
        vec![
            ListItem { name: "ns1".to_string(), size: 0, selected: false },
            ListItem { name: "ns2".to_string(), size: 2, selected: true },
        ]
    );
    assert!(table_list_items(&s).is_empty());
    assert!(shown_namespace_name(&s).is_none());
}

#[test]
fn table_items_weigh_by_row_count() {
    let s = listed()
        .update(TanicAction::SelectNamespace)
        .update(TanicAction::UpdateNamespaceTableList("ns1".to_string(), names(&["a", "b"])))
        .update(TanicAction::UpdateTableSummary {
            namespace: "ns1".to_string(),
            table_name: "b".to_string(),
            table_summary: vec![("row-count".to_string(), "99".to_string())],
        });
    assert_eq!(
        table_list_items(&s),
        vec![
            ListItem { name: "a".to_string(), size: 1, selected: true },
            ListItem { name: "b".to_string(), size: 99, selected: false },
        ]
    );
    assert_eq!(shown_namespace_name(&s), Some("ns1".to_string()));
    assert!(namespace_list_items(&s).is_empty());
}
