//! Properties that hold of every state and every run of the reducer and the
//! orchestrator.
use vstd::prelude::*;
use crate::config::{ConnectionDetails, ConnectionView};
use crate::keyed::{has_key, key_index, lemma_key_index_valid};
use crate::orchestrator::{CommandView, ContextView, admitted_table_list, applied, observed};
use crate::reducer::{
    TableChange, active_connection, blank_namespace, catalog_properties_set, catalog_table_changed,
    catalog_table_list_set, fresh_namespaces, fresh_tables, namespace_path, reduce, table_changed,
    table_count, table_list_arrived,
};
use crate::state::{
    AppView, CatalogView, IcebergView, TanicAction, TanicUiState, ViewingNamespacesListState,
    pair_views,
};
use crate::text::string_views;

verus! {

/// A selection fits a list: `Some(i)` lies inside it, and `None` exactly
/// when it is empty.
pub open spec fn selection_fits(sel: Option<usize>, len: nat) -> bool {
    match sel {
        Some(i) => i < len,
        None => len == 0,
    }
}

/// Every selection on screen fits the list it selects in.
pub open spec fn selections_valid(s: AppView) -> bool {
    match s.ui {
        TanicUiState::ViewingNamespacesList(v) => match s.iceberg {
            IcebergView::Connected(c) => selection_fits(v.selected_idx, c.namespaces.len()),
            _ => false,
        },
        TanicUiState::ViewingTablesList(t) => match s.iceberg {
            IcebergView::Connected(c) => match t.namespaces.selected_idx {
                Some(i) => i < c.namespaces.len() && selection_fits(
                    t.selected_idx,
                    table_count(c.namespaces[i as int].1),
                ),
                None => false,
            },
            _ => false,
        },
        _ => true,
    }
}

/// The two catalogs have the same namespaces in number, each with as many
/// known tables.
pub open spec fn same_shape(a: CatalogView, b: CatalogView) -> bool {
    &&& a.namespaces.len() == b.namespaces.len()
    &&& forall|k: int|
        0 <= k < a.namespaces.len() ==> table_count(#[trigger] a.namespaces[k].1) == table_count(
            b.namespaces[k].1,
        )
}

proof fn lemma_change_keeps_shape(c: CatalogView, ns: Seq<char>, t: Seq<char>, ch: TableChange)
    ensures
        same_shape(c, catalog_table_changed(c, ns, t, ch)),
{
    if has_key(c.namespaces, ns) {
        lemma_key_index_valid(c.namespaces, ns);
        let i = key_index(c.namespaces, ns);
        if let Some(ts) = c.namespaces[i].1.tables {
            if has_key(ts, t) {
                lemma_key_index_valid(ts, t);
            }
        }
    }
}

proof fn lemma_properties_keep_shape(c: CatalogView, ns: Seq<char>, p: Seq<(Seq<char>, Seq<char>)>)
    ensures
        same_shape(c, catalog_properties_set(c, ns, p)),
{
    if has_key(c.namespaces, ns) {
        lemma_key_index_valid(c.namespaces, ns);
    }
}

proof fn lemma_same_shape_valid(s: AppView, c2: CatalogView)
    requires
        selections_valid(s),
        s.iceberg matches IcebergView::Connected(c) && same_shape(c, c2),
    ensures
        selections_valid(AppView { iceberg: IcebergView::Connected(c2), ui: s.ui }),
{
}

/// The starting state's selections are valid.
pub proof fn lemma_initial_selections_valid()
    ensures
        selections_valid(AppView { iceberg: IcebergView::Initializing, ui: TanicUiState::SplashScreen }),
{
}

/// Selection invariant: in every state reached from valid selections, a
/// selected index lies inside its list and an empty list has no selection.
pub proof fn lemma_reduce_keeps_selections_valid(s: AppView, a: TanicAction)
    requires
        selections_valid(s),
    ensures
        selections_valid(reduce(s, a)),
{
    if !(s.iceberg is Exiting) {
        match a {
            TanicAction::UpdateNamespaceProperties(ns, props) => {
                if let IcebergView::Connected(c) = s.iceberg {
                    let p = pair_views(props@);
                    lemma_properties_keep_shape(c, ns@, p);
                    lemma_same_shape_valid(s, catalog_properties_set(c, ns@, p));
                }
            },
            TanicAction::UpdateNamespaceTableList(ns, names) => {
                table_list_valid(s, ns@, string_views(names@));
            },
            TanicAction::UpdateTable { namespace, table_name, table } => {
                table_change_valid(s, namespace@, table_name@, TableChange::Table(table));
            },
            TanicAction::UpdateTableSummary { namespace, table_name, table_summary } => {
                table_change_valid(
                    s,
                    namespace@,
                    table_name@,
                    TableChange::Summary(table_summary),
                );
            },
            TanicAction::UpdateTableCurrentSnapshot { namespace, table_name, snapshot } => {
                table_change_valid(
                    s,
                    namespace@,
                    table_name@,
                    TableChange::Snapshot(snapshot),
                );
            },
            TanicAction::UpdateTableCurrentManifestList { namespace, table_name, manifest_list } => {
                table_change_valid(
                    s,
                    namespace@,
                    table_name@,
                    TableChange::ManifestList(manifest_list),
                );
            },
            TanicAction::UpdateTableManifest { namespace, table_name, manifest, file_path } => {
                table_change_valid(
                    s,
                    namespace@,
                    table_name@,
                    TableChange::Manifest(file_path, manifest),
                );
            },
            TanicAction::UpdateTableDataFile { namespace, table_name, file_path, data_file } => {
                table_change_valid(
                    s,
                    namespace@,
                    table_name@,
                    TableChange::DataFile(file_path, data_file),
                );
            },
            TanicAction::UpdateTableParquetMetaData { namespace, table_name, file_path, metadata } => {
                table_change_valid(
                    s,
                    namespace@,
                    table_name@,
                    TableChange::ParquetMetaData(file_path, metadata),
                );
            },
            _ => {},
        }
    }
}

/// The state after applying the actions one after another, in order.
pub open spec fn run(s: AppView, actions: Seq<TanicAction>) -> AppView
    decreases actions.len(),
{
    if actions.len() == 0 {
        s
    } else {
        reduce(run(s, actions.drop_last()), actions.last())
    }
}

/// Selection invariant over whole runs: in every state reachable from the
/// starting state, a selected index lies inside its list and an empty list
/// has no selection.
pub proof fn lemma_reachable_selections_valid(actions: Seq<TanicAction>)
    ensures
        selections_valid(
            run(AppView { iceberg: IcebergView::Initializing, ui: TanicUiState::SplashScreen }, actions),
        ),
    decreases actions.len(),
{
    if actions.len() > 0 {
        lemma_reachable_selections_valid(actions.drop_last());
        lemma_reduce_keeps_selections_valid(
            run(
                AppView { iceberg: IcebergView::Initializing, ui: TanicUiState::SplashScreen },
                actions.drop_last(),
            ),
            actions.last(),
        );
    }
}

proof fn table_list_valid(s: AppView, ns: Seq<char>, names: Seq<Seq<char>>)
    requires
        selections_valid(s),
    ensures
        selections_valid(table_list_arrived(s, ns, names)),
{
    if let IcebergView::Connected(c) = s.iceberg {
        if has_key(c.namespaces, ns) {
            lemma_key_index_valid(c.namespaces, ns);
            let i = key_index(c.namespaces, ns);
            let c2 = catalog_table_list_set(c, ns, names);
            assert(c2.namespaces.len() == c.namespaces.len());
            assert(table_count(c2.namespaces[i].1) == fresh_tables(names, namespace_path(ns)).len());
            assert forall|k: int| 0 <= k < c.namespaces.len() && k != i implies table_count(
                #[trigger] c2.namespaces[k].1,
            ) == table_count(c.namespaces[k].1) by {}
        }
    }
}

proof fn table_change_valid(s: AppView, ns: Seq<char>, t: Seq<char>, ch: TableChange)
    requires
        selections_valid(s),
    ensures
        selections_valid(table_changed(s, ns, t, ch)),
{
    if let IcebergView::Connected(c) = s.iceberg {
        lemma_change_keeps_shape(c, ns, t, ch);
        lemma_same_shape_valid(s, catalog_table_changed(c, ns, t, ch));
    }
}

/// Every namespace of a fresh listing is blank: no properties and no tables.
pub proof fn lemma_fresh_namespaces_blank(names: Seq<Seq<char>>)
    ensures
        forall|k: int|
            0 <= k < fresh_namespaces(names).len() ==> #[trigger] fresh_namespaces(names)[k].1
                == blank_namespace(fresh_namespaces(names)[k].0),
    decreases names.len(),
{
    if names.len() > 0 {
        let prev = fresh_namespaces(names.drop_last());
        lemma_fresh_namespaces_blank(names.drop_last());
        if has_key(prev, names.last()) {
            lemma_key_index_valid(prev, names.last());
        }
        let cur = fresh_namespaces(names);
        assert forall|k: int| 0 <= k < cur.len() implies #[trigger] cur[k].1 == blank_namespace(
            cur[k].0,
        ) by {
            if k < prev.len() {
                assert(prev[k].1 == blank_namespace(prev[k].0));
            }
        }
    }
}

/// Switching to another connection discards what was retrieved over the
/// previous one: right after `ConnectTo` the state holds no catalog metadata,
/// and the next namespace listing builds metadata from that listing alone,
/// with no property and no table known.
pub proof fn lemma_connect_discards_metadata(s: AppView, d2: ConnectionDetails, names: Vec<String>)
    requires
        s.iceberg matches IcebergView::Connected(c) && c.connection.uri != d2@.uri,
    ensures
        reduce(s, TanicAction::ConnectTo(d2)).iceberg == IcebergView::ConnectingTo(d2@),
        reduce(reduce(s, TanicAction::ConnectTo(d2)), TanicAction::UpdateNamespacesList(names)).iceberg
            == IcebergView::Connected(
            CatalogView { connection: d2@, namespaces: fresh_namespaces(string_views(names@)) },
        ),
        forall|k: int|
            0 <= k < fresh_namespaces(string_views(names@)).len() ==> (#[trigger] fresh_namespaces(
                string_views(names@),
            )[k].1).tables is None && fresh_namespaces(string_views(names@))[k].1.properties is None,
{
    lemma_fresh_namespaces_blank(string_views(names@));
    assert forall|k: int| 0 <= k < fresh_namespaces(string_views(names@)).len() implies (
    #[trigger] fresh_namespaces(string_views(names@))[k].1).tables is None && fresh_namespaces(
        string_views(names@),
    )[k].1.properties is None by {
        let f = fresh_namespaces(string_views(names@));
        assert(f[k].1 == blank_namespace(f[k].0));
    }
}

/// Reconnecting is idempotent: once the orchestrator has observed the state
/// after `ConnectTo(d)`, observing the state after a second `ConnectTo` with
/// the same URI issues no fetch and leaves the orchestrator as it was.
pub proof fn lemma_reconnect_is_idempotent(
    o: ContextView,
    s: AppView,
    d: ConnectionDetails,
    d2: ConnectionDetails,
)
    requires
        !(s.iceberg is Exiting),
        d2@.uri == d@.uri,
    ensures
        ({
            let s1 = reduce(s, TanicAction::ConnectTo(d));
            let o1 = observed(o, s1).0;
            let s2 = reduce(s1, TanicAction::ConnectTo(d2));
            observed(o1, s2) == (o1, None::<CommandView>)
        }),
{
}

/// The state after applying `a` to `s` `n` times.
pub open spec fn repeated(s: AppView, a: TanicAction, n: nat) -> AppView
    decreases n,
{
    if n == 0 {
        s
    } else {
        reduce(repeated(s, a, (n - 1) as nat), a)
    }
}

proof fn lemma_focus_next_steps(s: AppView, k: nat)
    requires
        s.iceberg matches IcebergView::Connected(c) && k < c.namespaces.len() <= usize::MAX,
        s.ui == TanicUiState::ViewingNamespacesList(ViewingNamespacesListState { selected_idx: Some(0) }),
    ensures
        repeated(s, TanicAction::FocusNextNamespace, k) == (AppView {
            ui: TanicUiState::ViewingNamespacesList(
                ViewingNamespacesListState { selected_idx: Some(k as usize) },
            ),
            ..s
        }),
    decreases k,
{
    if k > 0 {
        lemma_focus_next_steps(s, (k - 1) as nat);
    }
}

/// Wrap-around: on a list of `N` namespaces with the first focused, `N`
/// steps of `FocusNextNamespace` come back to the first.
pub proof fn lemma_focus_next_wraps(s: AppView)
    requires
        s.iceberg matches IcebergView::Connected(c) && 0 < c.namespaces.len() <= usize::MAX,
        s.ui == TanicUiState::ViewingNamespacesList(ViewingNamespacesListState { selected_idx: Some(0) }),
    ensures
        s.iceberg matches IcebergView::Connected(c) && repeated(
            s,
            TanicAction::FocusNextNamespace,
            c.namespaces.len(),
        ) == s,
{
    if let IcebergView::Connected(c) = s.iceberg {
        let n = c.namespaces.len();
        lemma_focus_next_steps(s, (n - 1) as nat);
        assert(repeated(s, TanicAction::FocusNextNamespace, n) == reduce(
            repeated(s, TanicAction::FocusNextNamespace, (n - 1) as nat),
            TanicAction::FocusNextNamespace,
        ));
    }
}

/// Staleness: a table listing fetched over a connection other than the
/// active one is discarded, so applying it leaves the state, and the
/// metadata of the active connection, unchanged.
pub proof fn lemma_stale_table_list_ignored(
    s: AppView,
    active: ConnectionView,
    tag: ConnectionDetails,
    namespace: String,
    tables: Option<Vec<String>>,
)
    requires
        active_connection(s.iceberg) == Some(active),
        tag@.uri != active.uri,
    ensures
        applied(s, admitted_table_list(s, tag@, namespace, tables)) == s,
{
}

} // verus!
