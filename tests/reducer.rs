use tanic::config::ConnectionDetails;
use tanic::reducer::move_selection;
use tanic::state::{
    TanicAction, TanicAppState, TanicIcebergState, TanicUiState, ViewingNamespacesListState,
    ViewingTablesListState,
};

fn conn(uri: &str) -> ConnectionDetails {
    ConnectionDetails { id: 1, name: "test".to_string(), uri: uri.to_string() }
}

fn names(v: &[&str]) -> Vec<String> {
    v.iter().map(|s| s.to_string()).collect()
}

fn namespace_keys(state: &TanicAppState) -> Vec<String> {
    match &state.iceberg {
        TanicIcebergState::Connected(m) => m.namespaces.keys().cloned().collect(),
        _ => panic!("not connected"),
    }
}

fn namespaces_selection(state: &TanicAppState) -> Option<usize> {
    match state.ui {
        TanicUiState::ViewingNamespacesList(v) => v.selected_idx,
        other => panic!("not viewing namespaces: {:?}", other),
    }
}

fn scenario_a() -> TanicAppState {
    let s = TanicAppState::initial();
    let s = s.update(TanicAction::ConnectTo(conn("http://a")));
    assert!(matches!(s.iceberg, TanicIcebergState::ConnectingTo(_)));
    s.update(TanicAction::UpdateNamespacesList(names(&["ns1", "ns2"])))
}

fn scenario_c() -> TanicAppState {
    scenario_a().update(TanicAction::SelectNamespace)
}

#[test]
fn scenario_a_connect_then_list_namespaces() {
    let s = scenario_a();
    assert_eq!(namespaces_selection(&s), Some(0));
    assert_eq!(namespace_keys(&s), names(&["ns1", "ns2"]));
    match &s.iceberg {
        TanicIcebergState::Connected(m) => {
            assert_eq!(m.connection.uri, "http://a");
            for (_, n) in m.namespaces.iter() {
                assert!(n.tables.is_none());
                assert!(n.properties.is_none());
            }
        }
        _ => panic!("not connected"),
    }
}

#[test]
fn scenario_b_focus_next_namespace_wraps() {
    let s = scenario_a().update(TanicAction::FocusNextNamespace);
    assert_eq!(namespaces_selection(&s), Some(1));
    let s = s.update(TanicAction::FocusNextNamespace);
    assert_eq!(namespaces_selection(&s), Some(0));
}

#[test]
fn scenario_c_select_namespace_then_table_list() {
    let s = scenario_c();
    assert_eq!(
        s.ui,
        TanicUiState::ViewingTablesList(ViewingTablesListState {
            namespaces: ViewingNamespacesListState { selected_idx: Some(0) },
            selected_idx: None,
        })
    );
    let s = s.update(TanicAction::UpdateNamespaceTableList("ns1".to_string(), names(&["t1"])));
    match &s.iceberg {
        TanicIcebergState::Connected(m) => {
            let tables = m.namespaces.get("ns1").unwrap().tables.as_ref().unwrap();
            assert_eq!(tables.keys().cloned().collect::<Vec<_>>(), names(&["t1"]));
            assert_eq!(tables.get("t1").unwrap().name, "t1");
            assert_eq!(tables.get("t1").unwrap().namespace, names(&["ns1"]));
            assert!(m.namespaces.get("ns2").unwrap().tables.is_none());
        }
        _ => panic!("not connected"),
    }
    // the shown list is no longer empty: its first table is focused
    match s.ui {
        TanicUiState::ViewingTablesList(t) => assert_eq!(t.selected_idx, Some(0)),
        other => panic!("unexpected ui {:?}", other),
    }
}

#[test]
fn scenario_d_empty_namespace_list() {
    let s = scenario_a().update(TanicAction::UpdateNamespacesList(vec![]));
    assert_eq!(namespaces_selection(&s), None);
    assert!(namespace_keys(&s).is_empty());
    let s2 = s.clone().update(TanicAction::FocusNextNamespace);
    assert_eq!(s2.ui, s.ui);
    assert!(namespace_keys(&s2).is_empty());
    let s3 = s2.update(TanicAction::SelectNamespace);
    assert_eq!(s3.ui, s.ui);
}

#[test]
fn scenario_e_escape_keeps_namespace_selection() {
    let s = scenario_a().update(TanicAction::FocusNextNamespace);
    let s = s.update(TanicAction::SelectNamespace);
    let s = s.update(TanicAction::Escape);
    assert_eq!(namespaces_selection(&s), Some(1));
    let s = scenario_c().update(TanicAction::Escape);
    assert_eq!(namespaces_selection(&s), Some(0));
}

#[test]
fn focus_next_namespace_n_times_returns_to_first() {
    let s = TanicAppState::initial()
        .update(TanicAction::ConnectTo(conn("http://a")))
        .update(TanicAction::UpdateNamespacesList(names(&["a", "b", "c"])));
    let mut s = s;
    for step in 1..=3 {
        s = s.update(TanicAction::FocusNextNamespace);
        assert_eq!(namespaces_selection(&s), Some(step % 3));
    }
}

#[test]
fn focus_prev_namespace_wraps_to_last() {
    let s = scenario_a().update(TanicAction::FocusPrevNamespace);
    assert_eq!(namespaces_selection(&s), Some(1));
    let s = s.update(TanicAction::FocusPrevNamespace);
    assert_eq!(namespaces_selection(&s), Some(0));
}

#[test]
fn single_namespace_focus_is_a_no_op() {
    let s = TanicAppState::initial()
        .update(TanicAction::ConnectTo(conn("http://a")))
        .update(TanicAction::UpdateNamespacesList(names(&["only"])));
    let s = s.update(TanicAction::FocusNextNamespace);
    assert_eq!(namespaces_selection(&s), Some(0));
    let s = s.update(TanicAction::FocusPrevNamespace);
    assert_eq!(namespaces_selection(&s), Some(0));
}

#[test]
fn repeated_namespace_names_keep_first_place() {
    let s = TanicAppState::initial()
        .update(TanicAction::ConnectTo(conn("http://a")))
        .update(TanicAction::UpdateNamespacesList(names(&["x", "y", "x"])));
    assert_eq!(namespace_keys(&s), names(&["x", "y"]));
}

#[test]
fn table_focus_wraps_and_selection_follows_refetch() {
    let s = scenario_c()
        .update(TanicAction::UpdateNamespaceTableList("ns1".to_string(), names(&["t1", "t2"])));
    let s = s.update(TanicAction::FocusNextTable);
    let sel = |s: &TanicAppState| match s.ui {
        TanicUiState::ViewingTablesList(t) => t.selected_idx,
        other => panic!("unexpected ui {:?}", other),
    };
    assert_eq!(sel(&s), Some(1));
    let s = s.update(TanicAction::FocusNextTable);
    assert_eq!(sel(&s), Some(0));
    let s = s.update(TanicAction::FocusPrevTable);
    assert_eq!(sel(&s), Some(1));
    // the table list shrinks to nothing: the selection goes with it
    let s = s.update(TanicAction::UpdateNamespaceTableList("ns1".to_string(), vec![]));
    assert_eq!(sel(&s), None);
    let s = s.update(TanicAction::FocusNextTable);
    assert_eq!(sel(&s), None);
}

#[test]
fn reconnect_to_other_uri_discards_metadata() {
    let s = scenario_c()
        .update(TanicAction::UpdateNamespaceTableList("ns1".to_string(), names(&["t1"])));
    let s = s.update(TanicAction::ConnectTo(conn("http://b")));
    assert!(matches!(&s.iceberg, TanicIcebergState::ConnectingTo(d) if d.uri == "http://b"));
    assert_eq!(s.ui, TanicUiState::SplashScreen);
    let s = s.update(TanicAction::UpdateNamespacesList(names(&["ns1"])));
    match &s.iceberg {
        TanicIcebergState::Connected(m) => {
            assert_eq!(m.connection.uri, "http://b");
            assert!(m.namespaces.get("ns1").unwrap().tables.is_none());
            assert!(m.namespaces.get("ns2").is_none());
        }
        _ => panic!("not connected"),
    }
}

#[test]
fn exit_is_terminal() {
    let s = scenario_a().update(TanicAction::Exit);
    assert!(matches!(s.iceberg, TanicIcebergState::Exiting));
    assert_eq!(s.ui, TanicUiState::Exiting);
    let s = s.update(TanicAction::ConnectTo(conn("http://a")));
    assert!(matches!(s.iceberg, TanicIcebergState::Exiting));
    let s = s.update(TanicAction::UpdateNamespacesList(names(&["ns1"])));
    assert!(matches!(s.iceberg, TanicIcebergState::Exiting));
    assert_eq!(s.ui, TanicUiState::Exiting);
}

#[test]
fn meaningless_actions_are_no_ops() {
    let s = TanicAppState::initial();
    let s = s.update(TanicAction::FocusNextTable);
    let s = s.update(TanicAction::SelectNamespace);
    let s = s.update(TanicAction::Escape);
    let s = s.update(TanicAction::UpdateNamespaceTableList("ns1".to_string(), names(&["t"])));
    let s = s.update(TanicAction::UpdateNamespacesList(names(&["ns1"])));
    assert!(matches!(s.iceberg, TanicIcebergState::Initializing));
    assert_eq!(s.ui, TanicUiState::SplashScreen);

    let a = scenario_a();
    let b = a.clone().update(TanicAction::FocusNextTable);
    assert_eq!(b.ui, a.ui);
    let b = b.update(TanicAction::UpdateNamespaceTableList("missing".to_string(), names(&["t"])));
    assert_eq!(namespace_keys(&b), names(&["ns1", "ns2"]));
    let b = b.update(TanicAction::SelectTable);
    assert_eq!(b.ui, a.ui);
}

#[test]
fn table_summary_arrives_for_known_table_only() {
    let s = scenario_c()
        .update(TanicAction::UpdateNamespaceTableList("ns1".to_string(), names(&["t1"])));
    let summary = vec![("row-count".to_string(), "42".to_string())];
    let s = s.update(TanicAction::UpdateTableSummary {
        namespace: "ns1".to_string(),
        table_name: "t1".to_string(),
        table_summary: summary.clone(),
    });
    let s = s.update(TanicAction::UpdateTableSummary {
        namespace: "ns1".to_string(),
        table_name: "nope".to_string(),
        table_summary: summary.clone(),
    });
    match &s.iceberg {
        TanicIcebergState::Connected(m) => {
            let tables = m.namespaces.get("ns1").unwrap().tables.as_ref().unwrap();
            assert_eq!(tables.len(), 1);
            assert_eq!(tables.get("t1").unwrap().current_snapshot_summary, Some(summary));
        }
        _ => panic!("not connected"),
    }
}

#[test]
fn namespace_properties_are_stored() {
    let props = vec![("owner".to_string(), "me".to_string())];
    let s = scenario_a()
        .update(TanicAction::UpdateNamespaceProperties("ns2".to_string(), props.clone()));
    match &s.iceberg {
        TanicIcebergState::Connected(m) => {
            assert_eq!(m.namespaces.get("ns2").unwrap().properties, Some(props));
            assert!(m.namespaces.get("ns1").unwrap().properties.is_none());
        }
        _ => panic!("not connected"),
    }
}

#[test]
fn move_selection_exact_values() {
    assert_eq!(move_selection(Some(0), 3, true), Some(1));
    assert_eq!(move_selection(Some(2), 3, true), Some(0));
    assert_eq!(move_selection(Some(0), 3, false), Some(2));
    assert_eq!(move_selection(Some(1), 3, false), Some(0));
    assert_eq!(move_selection(None, 3, true), None);
    assert_eq!(move_selection(Some(0), 0, true), Some(0));
}

#[test]
fn row_count_reads_the_summary() {
    let with = |summary: Vec<(&str, &str)>| {
        let s = scenario_c()
            .update(TanicAction::UpdateNamespaceTableList("ns1".to_string(), names(&["t1"])))
            .update(TanicAction::UpdateTableSummary {
                namespace: "ns1".to_string(),
                table_name: "t1".to_string(),
                table_summary: summary
                    .iter()
                    .map(|(k, v)| (k.to_string(), v.to_string()))
                    .collect(),
            });
        match &s.iceberg {
            TanicIcebergState::Connected(m) => m
                .namespaces
                .get("ns1")
                .unwrap()
                .tables
                .as_ref()
                .unwrap()
                .get("t1")
                .unwrap()
                .row_count(),
            _ => panic!("not connected"),
        }
    };
    assert_eq!(with(vec![("total-files", "3"), ("row-count", "1234")]), Some(1234));
    assert_eq!(with(vec![("row-count", "+7")]), Some(7));
    assert_eq!(with(vec![("row-count", "18446744073709551615")]), Some(u64::MAX));
    assert_eq!(with(vec![("row-count", "18446744073709551616")]), None);
    assert_eq!(with(vec![("row-count", "-1")]), None);
    assert_eq!(with(vec![("row-count", "")]), None);
    assert_eq!(with(vec![("row-count", "12 ")]), None);
    assert_eq!(with(vec![("rows", "5")]), None);
}

#[test]
fn default_state_is_initializing_on_splash_screen() {
    let s = TanicAppState::default();
    assert!(matches!(s.iceberg, TanicIcebergState::Initializing));
    assert_eq!(s.ui, TanicUiState::SplashScreen);
}
