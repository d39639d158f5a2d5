//! What the user interface draws, read off a state snapshot.
use vstd::prelude::*;
use crate::index_map::{namespace_entries, namespaces_at, namespaces_len, table_entries, tables_len};
use crate::reducer::{row_count_of, table_count};
use crate::state::{
    IcebergView, NamespaceView, TableView, TanicAppState, TanicIcebergState, TanicUiState,
    namespace_views, table_views,
};

verus! {

/// One box of a list: a name, a size to weigh it by, and whether it has the focus.
#[derive(Clone, Debug, PartialEq, Eq)]
pub struct ListItem {
    pub name: String,
    pub size: u64,
    pub selected: bool,
}

/// A table's weight on screen: its row count where known, else one.
pub open spec fn table_weight(t: TableView) -> u64 {
    match row_count_of(t.summary) {
        Some(n) => n,
        None => 1,
    }
}

/// The namespaces of the connected catalog while the namespace list is shown.
pub open spec fn shown_namespaces(s: crate::state::AppView) -> Option<(Seq<(Seq<char>, NamespaceView)>, Option<usize>)> {
    match s.iceberg {
        IcebergView::Connected(c) => match s.ui {
            TanicUiState::ViewingNamespacesList(v) => Some((c.namespaces, v.selected_idx)),
            _ => None,
        },
        _ => None,
    }
}

/// The tables of the selected namespace while its table list is shown and known.
pub open spec fn shown_tables(s: crate::state::AppView) -> Option<(Seq<(Seq<char>, TableView)>, Option<usize>)> {
    match s.iceberg {
        IcebergView::Connected(c) => match s.ui {
            TanicUiState::ViewingTablesList(t) => match t.namespaces.selected_idx {
                Some(i) => if i < c.namespaces.len() {
                    match c.namespaces[i as int].1.tables {
                        Some(ts) => Some((ts, t.selected_idx)),
                        None => None,
                    }
                } else {
                    None
                },
                None => None,
            },
            _ => None,
        },
        _ => None,
    }
}

/// The boxes of the namespace list: one per namespace in catalog order,
/// weighed by its number of known tables, the focused one marked.
pub fn namespace_list_items(state: &TanicAppState) -> (r: Vec<ListItem>)
    ensures
        match shown_namespaces(state@) {
            Some((nss, sel)) => r@.len() == nss.len() && forall|k: int|
                0 <= k < nss.len() ==> {
                    &&& (#[trigger] r@[k]).name@ == nss[k].1.name
                    &&& r@[k].size == table_count(nss[k].1)
                    &&& r@[k].selected == (sel == Some(k as usize))
                },
            None => r@.len() == 0,
        },
{
    let mut items: Vec<ListItem> = Vec::new();
    match &state.iceberg {
        TanicIcebergState::Connected(m) => match state.ui {
            TanicUiState::ViewingNamespacesList(v) => {
                let ghost nss = namespace_views(namespace_entries(m.namespaces));
                let n = namespaces_len(&m.namespaces);
                let mut k: usize = 0;
                while k < n
                    invariant
                        k <= n,
                        n == nss.len(),
                        nss == namespace_views(namespace_entries(m.namespaces)),
                        items@.len() == k,
                        forall|j: int|
                            0 <= j < k ==> {
                                &&& (#[trigger] items@[j]).name@ == nss[j].1.name
                                &&& items@[j].size == table_count(nss[j].1)
                                &&& items@[j].selected == (v.selected_idx == Some(j as usize))
                            },
                    decreases n - k,
                {
                    let ns = namespaces_at(&m.namespaces, k);
                    assert(nss[k as int].1 == ns@);
                    let selected = match v.selected_idx {
                        Some(s) => s == k,
                        None => false,
                    };
                    items.push(
                        ListItem { name: ns.name.clone(), size: ns.table_count() as u64, selected },
                    );
                    k = k + 1;
                }
            },
            _ => {},
        },
        _ => {},
    }
    items
}

/// The boxes of the shown table list: one per table in catalog order,
/// weighed by its row count where known, the focused one marked.
pub fn table_list_items(state: &TanicAppState) -> (r: Vec<ListItem>)
    ensures
        match shown_tables(state@) {
            Some((ts, sel)) => r@.len() == ts.len() && forall|k: int|
                0 <= k < ts.len() ==> {
                    &&& (#[trigger] r@[k]).name@ == ts[k].1.name
                    &&& r@[k].size == table_weight(ts[k].1)
                    &&& r@[k].selected == (sel == Some(k as usize))
                },
            None => r@.len() == 0,
        },
{
    let mut items: Vec<ListItem> = Vec::new();
    match &state.iceberg {
        TanicIcebergState::Connected(m) => match state.ui {
            TanicUiState::ViewingTablesList(t) => match t.namespaces.selected_idx {
                Some(i) => {
                    if i < namespaces_len(&m.namespaces) {
                        let ns = namespaces_at(&m.namespaces, i);
                        assert(namespace_views(namespace_entries(m.namespaces))[i as int].1 == ns@);
                        match &ns.tables {
                            Some(tm) => {
                                let ghost ts = table_views(table_entries(*tm));
                                let n = tables_len(tm);
                                let mut k: usize = 0;
                                while k < n
                                    invariant
                                        k <= n,
                                        n == ts.len(),
                                        ts == table_views(table_entries(*tm)),
                                        items@.len() == k,
                                        forall|j: int|
                                            0 <= j < k ==> {
                                                &&& (#[trigger] items@[j]).name@ == ts[j].1.name
                                                &&& items@[j].size == table_weight(ts[j].1)
                                                &&& items@[j].selected == (t.selected_idx == Some(
                                                    j as usize,
                                                ))
                                            },
                                    decreases n - k,
                                {
                                    let td = crate::index_map::tables_at(tm, k);
                                    assert(ts[k as int].1 == td@);
                                    let selected = match t.selected_idx {
                                        Some(s) => s == k,
                                        None => false,
                                    };
                                    let size = match td.row_count() {
                                        Some(c) => c,
                                        None => 1,
                                    };
                                    items.push(ListItem { name: td.name.clone(), size, selected });
                                    k = k + 1;
                                }
                            },
                            None => {},
                        }
                    }
                },
                None => {},
            },
            _ => {},
        },
        _ => {},
    }
    items
}

/// The name of the namespace whose tables are shown.
pub fn shown_namespace_name(state: &TanicAppState) -> (r: Option<String>)
    ensures
        match state@.iceberg {
            IcebergView::Connected(c) => match state@.ui {
                TanicUiState::ViewingTablesList(t) => match t.namespaces.selected_idx {
                    Some(i) => if i < c.namespaces.len() {
                        r matches Some(n) && n@ == c.namespaces[i as int].1.name
                    } else {
                        r is None
                    },
                    None => r is None,
                },
                _ => r is None,
            },
            _ => r is None,
        },
{
    match &state.iceberg {
        TanicIcebergState::Connected(m) => match state.ui {
            TanicUiState::ViewingTablesList(t) => match t.namespaces.selected_idx {
                Some(i) => {
                    if i < namespaces_len(&m.namespaces) {
                        let ns = namespaces_at(&m.namespaces, i);
                        assert(namespace_views(namespace_entries(m.namespaces))[i as int].1 == ns@);
                        Some(ns.name.clone())
                    } else {
                        None
                    }
                },
                None => None,
            },
            _ => None,
        },
        _ => None,
    }
}

} // verus!
