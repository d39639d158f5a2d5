//! The navigation reducer: a total function from a state and an action to the
//! next state. An action that means nothing in the current state leaves the
//! state as it is.
use vstd::prelude::*;
use iceberg::spec::{DataFile, Manifest, ManifestList, Snapshot};
use iceberg::table::Table;
use parquet::file::metadata::ParquetMetaData;
use crate::config::{ConnectionDetails, ConnectionView};
use crate::index_map::{
    namespace_entries, namespaces_at, namespaces_at_mut, namespaces_index_of, namespaces_insert,
    namespaces_len, namespaces_new, table_entries, tables_at_mut, tables_index_of, tables_insert,
    tables_len, tables_new, manifests_insert, manifests_new,
};
use crate::keyed::{
    has_key, is_first_key_index, key_index, key_views, lemma_first_key_index, lemma_same_keys_index,
    same_keys, upsert, upserted, find, lookup,
};
use crate::number::{parse_u64, parsed_u64};
use crate::laws::{lemma_reduce_keeps_selections_valid, selections_valid};
use crate::state::{
    AppView, CatalogView, IcebergView, NamespaceDescriptor, NamespaceView, RetrievedIcebergMetadata,
    TableDescriptor, TableView, TanicAction, TanicAppState, TanicIcebergState, TanicUiState,
    ViewingNamespacesListState, ViewingTablesListState, namespace_views,
    pair_views, table_views,
};
use crate::text::{split, split_on, string_views};

verus! {

/// One piece of table metadata that has arrived.
pub enum TableChange {
    Table(Table),
    Summary(Vec<(String, String)>),
    Snapshot(Snapshot),
    ManifestList(ManifestList),
    Manifest(String, Manifest),
    DataFile(String, DataFile),
    ParquetMetaData(String, ParquetMetaData),
}

/// A table after a piece of its metadata arrived: an optional part becomes
/// known, a keyed part gains or overwrites the entry under its path.
pub open spec fn changed(t: TableView, c: TableChange) -> TableView {
    match c {
        TableChange::Table(x) => TableView { table: Some(x), ..t },
        TableChange::Summary(s) => TableView { summary: Some(pair_views(s@)), ..t },
        TableChange::Snapshot(x) => TableView { snapshot: Some(x), ..t },
        TableChange::ManifestList(x) => TableView { manifest_list: Some(x), ..t },
        TableChange::Manifest(p, x) => TableView { manifests: upserted(t.manifests, p@, x), ..t },
        TableChange::DataFile(p, x) => TableView { data_files: upserted(t.data_files, p@, x), ..t },
        TableChange::ParquetMetaData(p, x) => TableView {
            parquet_metadata: upserted(t.parquet_metadata, p@, x),
            ..t
        },
    }
}

/// A table of which nothing but its name and namespace path is known yet.
pub open spec fn blank_table(name: Seq<char>, path: Seq<Seq<char>>) -> TableView {
    TableView {
        name,
        namespace: path,
        summary: None,
        table: None,
        snapshot: None,
        manifest_list: None,
        manifests: Seq::empty(),
        data_files: Seq::empty(),
        parquet_metadata: Seq::empty(),
    }
}

/// A namespace of which nothing but its name is known yet.
pub open spec fn blank_namespace(name: Seq<char>) -> NamespaceView {
    NamespaceView { name, properties: None, tables: None }
}

/// The namespaces built from a listing: one blank entry per name, in listing
/// order, a repeated name keeping its first place.
pub open spec fn fresh_namespaces(names: Seq<Seq<char>>) -> Seq<(Seq<char>, NamespaceView)>
    decreases names.len(),
{
    if names.len() == 0 {
        Seq::empty()
    } else {
        upserted(fresh_namespaces(names.drop_last()), names.last(), blank_namespace(names.last()))
    }
}

/// The tables built from a listing, each with the namespace path `path`.
pub open spec fn fresh_tables(names: Seq<Seq<char>>, path: Seq<Seq<char>>) -> Seq<
    (Seq<char>, TableView),
>
    decreases names.len(),
{
    if names.len() == 0 {
        Seq::empty()
    } else {
        upserted(
            fresh_tables(names.drop_last(), path),
            names.last(),
            blank_table(names.last(), path),
        )
    }
}

/// The namespace path of a namespace name: its dot-separated parts.
pub open spec fn namespace_path(ns: Seq<char>) -> Seq<Seq<char>> {
    split_on(ns, '.')
}

/// The number of known tables of a namespace.
pub open spec fn table_count(n: NamespaceView) -> nat {
    match n.tables {
        Some(t) => t.len(),
        None => 0,
    }
}

/// The selection of a freshly shown list: its first item, if it has one.
pub open spec fn first_selection(len: nat) -> Option<usize> {
    if len == 0 {
        None
    } else {
        Some(0)
    }
}

pub open spec fn next_index(i: usize, len: nat) -> usize {
    if i + 1 >= len {
        0
    } else {
        (i + 1) as usize
    }
}

pub open spec fn prev_index(i: usize, len: nat) -> usize {
    if i == 0 || i >= len {
        (len - 1) as usize
    } else {
        (i - 1) as usize
    }
}

/// A selection moved one step forward or back, wrapping around; nothing
/// moves in an empty list or where nothing is selected.
pub open spec fn moved(sel: Option<usize>, len: nat, forward: bool) -> Option<usize> {
    match sel {
        Some(i) => if len == 0 {
            sel
        } else if forward {
            Some(next_index(i, len))
        } else {
            Some(prev_index(i, len))
        },
        None => None,
    }
}

/// The catalog with a namespace's properties set, where that namespace exists.
pub open spec fn catalog_properties_set(
    c: CatalogView,
    ns: Seq<char>,
    props: Seq<(Seq<char>, Seq<char>)>,
) -> CatalogView {
    if has_key(c.namespaces, ns) {
        let i = key_index(c.namespaces, ns);
        let n = c.namespaces[i].1;
        CatalogView {
            namespaces: c.namespaces.update(
                i,
                (c.namespaces[i].0, NamespaceView { properties: Some(props), ..n }),
            ),
            ..c
        }
    } else {
        c
    }
}

/// The catalog with a namespace's table list replaced, where that namespace exists.
pub open spec fn catalog_table_list_set(c: CatalogView, ns: Seq<char>, names: Seq<Seq<char>>) -> CatalogView {
    if has_key(c.namespaces, ns) {
        let i = key_index(c.namespaces, ns);
        let n = c.namespaces[i].1;
        CatalogView {
            namespaces: c.namespaces.update(
                i,
                (
                    c.namespaces[i].0,
                    NamespaceView { tables: Some(fresh_tables(names, namespace_path(ns))), ..n },
                ),
            ),
            ..c
        }
    } else {
        c
    }
}

/// The catalog with a piece of a table's metadata stored, where the
/// namespace exists, its table list is known and holds the table.
pub open spec fn catalog_table_changed(
    c: CatalogView,
    ns: Seq<char>,
    t: Seq<char>,
    ch: TableChange,
) -> CatalogView {
    if has_key(c.namespaces, ns) {
        let i = key_index(c.namespaces, ns);
        let n = c.namespaces[i].1;
        match n.tables {
            Some(ts) => if has_key(ts, t) {
                let j = key_index(ts, t);
                CatalogView {
                    namespaces: c.namespaces.update(
                        i,
                        (
                            c.namespaces[i].0,
                            NamespaceView {
                                tables: Some(ts.update(j, (ts[j].0, changed(ts[j].1, ch)))),
                                ..n
                            },
                        ),
                    ),
                    ..c
                }
            } else {
                c
            },
            None => c,
        }
    } else {
        c
    }
}

/// The connection the state is connecting or connected to, if any.
pub open spec fn active_connection(i: IcebergView) -> Option<ConnectionView> {
    match i {
        IcebergView::ConnectingTo(d) => Some(d),
        IcebergView::Connected(c) => Some(c.connection),
        _ => None,
    }
}

/// A namespace listing arrived: fresh metadata for the active connection,
/// shown as the namespace list with its first entry focused.
pub open spec fn namespaces_listed(s: AppView, names: Seq<Seq<char>>) -> AppView {
    match active_connection(s.iceberg) {
        Some(d) => {
            let nss = fresh_namespaces(names);
            AppView {
                iceberg: IcebergView::Connected(CatalogView { connection: d, namespaces: nss }),
                ui: TanicUiState::ViewingNamespacesList(
                    ViewingNamespacesListState { selected_idx: first_selection(nss.len()) },
                ),
            }
        },
        None => s,
    }
}

/// A table listing arrived for `ns`. Where that namespace's tables are on
/// screen, the focus goes back to the first table.
pub open spec fn table_list_arrived(s: AppView, ns: Seq<char>, names: Seq<Seq<char>>) -> AppView {
    match s.iceberg {
        IcebergView::Connected(c) => if has_key(c.namespaces, ns) {
            let i = key_index(c.namespaces, ns);
            let c2 = catalog_table_list_set(c, ns, names);
            AppView {
                iceberg: IcebergView::Connected(c2),
                ui: match s.ui {
                    TanicUiState::ViewingTablesList(t) => if t.namespaces.selected_idx matches Some(k)
                        && k == i {
                        TanicUiState::ViewingTablesList(
                            ViewingTablesListState {
                                selected_idx: first_selection(
                                    fresh_tables(names, namespace_path(ns)).len(),
                                ),
                                ..t
                            },
                        )
                    } else {
                        s.ui
                    },
                    _ => s.ui,
                },
            }
        } else {
            s
        },
        _ => s,
    }
}

/// The state with its connected catalog changed by `f`; other states stay.
pub open spec fn with_catalog(s: AppView, f: spec_fn(CatalogView) -> CatalogView) -> AppView {
    match s.iceberg {
        IcebergView::Connected(c) => AppView { iceberg: IcebergView::Connected(f(c)), ui: s.ui },
        _ => s,
    }
}

/// The namespace focus moved, while the namespace list is shown.
pub open spec fn namespace_focus_moved(s: AppView, forward: bool) -> AppView {
    match s.ui {
        TanicUiState::ViewingNamespacesList(v) => match s.iceberg {
            IcebergView::Connected(c) => AppView {
                ui: TanicUiState::ViewingNamespacesList(
                    ViewingNamespacesListState {
                        selected_idx: moved(v.selected_idx, c.namespaces.len(), forward),
                    },
                ),
                ..s
            },
            _ => s,
        },
        _ => s,
    }
}

/// The focused namespace opened: its table list is shown.
pub open spec fn namespace_selected(s: AppView) -> AppView {
    match s.ui {
        TanicUiState::ViewingNamespacesList(v) => match v.selected_idx {
            Some(i) => match s.iceberg {
                IcebergView::Connected(c) => if i < c.namespaces.len() {
                    AppView {
                        ui: TanicUiState::ViewingTablesList(
                            ViewingTablesListState {
                                namespaces: v,
                                selected_idx: first_selection(
                                    table_count(c.namespaces[i as int].1),
                                ),
                            },
                        ),
                        ..s
                    }
                } else {
                    s
                },
                _ => s,
            },
            None => s,
        },
        _ => s,
    }
}

/// The table focus moved, while a table list is shown.
pub open spec fn table_focus_moved(s: AppView, forward: bool) -> AppView {
    match s.ui {
        TanicUiState::ViewingTablesList(t) => match t.namespaces.selected_idx {
            Some(i) => match s.iceberg {
                IcebergView::Connected(c) => if i < c.namespaces.len() {
                    AppView {
                        ui: TanicUiState::ViewingTablesList(
                            ViewingTablesListState {
                                selected_idx: moved(
                                    t.selected_idx,
                                    table_count(c.namespaces[i as int].1),
                                    forward,
                                ),
                                ..t
                            },
                        ),
                        ..s
                    }
                } else {
                    s
                },
                _ => s,
            },
            None => s,
        },
        _ => s,
    }
}

/// Back from a table list to the namespace list, with the namespace focus
/// as it was.
pub open spec fn escaped(s: AppView) -> AppView {
    match s.ui {
        TanicUiState::ViewingTablesList(t) => AppView {
            ui: TanicUiState::ViewingNamespacesList(t.namespaces),
            ..s
        },
        _ => s,
    }
}

/// A piece of table metadata arrived for `ns`/`t`.
pub open spec fn table_changed(s: AppView, ns: Seq<char>, t: Seq<char>, ch: TableChange) -> AppView {
    with_catalog(s, |c: CatalogView| catalog_table_changed(c, ns, t, ch))
}

/// The next state. Once exiting, nothing changes any more.
pub open spec fn reduce(s: AppView, a: TanicAction) -> AppView {
    if s.iceberg is Exiting {
        s
    } else {
        match a {
            TanicAction::Exit => AppView { iceberg: IcebergView::Exiting, ui: TanicUiState::Exiting },
            TanicAction::ConnectTo(d) => AppView {
                iceberg: IcebergView::ConnectingTo(d@),
                ui: TanicUiState::SplashScreen,
            },
            TanicAction::UpdateNamespacesList(names) => namespaces_listed(s, string_views(names@)),
            TanicAction::UpdateNamespaceProperties(ns, props) => with_catalog(
                s,
                |c: CatalogView| catalog_properties_set(c, ns@, pair_views(props@)),
            ),
            TanicAction::UpdateNamespaceTableList(ns, names) => table_list_arrived(
                s,
                ns@,
                string_views(names@),
            ),
            TanicAction::UpdateTable { namespace, table_name, table } => table_changed(
                s,
                namespace@,
                table_name@,
                TableChange::Table(table),
            ),
            TanicAction::UpdateTableSummary { namespace, table_name, table_summary } => table_changed(
                s,
                namespace@,
                table_name@,
                TableChange::Summary(table_summary),
            ),
            TanicAction::UpdateTableCurrentSnapshot { namespace, table_name, snapshot } => table_changed(
                s,
                namespace@,
                table_name@,
                TableChange::Snapshot(snapshot),
            ),
            TanicAction::UpdateTableCurrentManifestList { namespace, table_name, manifest_list } =>
                table_changed(
                s,
                namespace@,
                table_name@,
                TableChange::ManifestList(manifest_list),
            ),
            TanicAction::UpdateTableManifest { namespace, table_name, manifest, file_path } =>
                table_changed(
                s,
                namespace@,
                table_name@,
                TableChange::Manifest(file_path, manifest),
            ),
            TanicAction::UpdateTableDataFile { namespace, table_name, file_path, data_file } =>
                table_changed(
                s,
                namespace@,
                table_name@,
                TableChange::DataFile(file_path, data_file),
            ),
            TanicAction::UpdateTableParquetMetaData { namespace, table_name, file_path, metadata } =>
                table_changed(
                s,
                namespace@,
                table_name@,
                TableChange::ParquetMetaData(file_path, metadata),
            ),
            TanicAction::FocusPrevNamespace => namespace_focus_moved(s, false),
            TanicAction::FocusNextNamespace => namespace_focus_moved(s, true),
            TanicAction::SelectNamespace => namespace_selected(s),
            TanicAction::FocusPrevTable => table_focus_moved(s, false),
            TanicAction::FocusNextTable => table_focus_moved(s, true),
            TanicAction::Escape => escaped(s),
            _ => s,
        }
    }
}

proof fn lemma_table_views_upserted(e: Seq<(Seq<char>, TableDescriptor)>, k: Seq<char>, v: TableDescriptor)
    ensures
        table_views(upserted(e, k, v)) == upserted(table_views(e), k, v@),
{
    let w = table_views(e);
    assert(same_keys(e, w));
    lemma_same_keys_index(e, w, k);
    assert(table_views(upserted(e, k, v)) =~= upserted(w, k, v@));
}

proof fn lemma_namespace_views_upserted(
    e: Seq<(Seq<char>, NamespaceDescriptor)>,
    k: Seq<char>,
    v: NamespaceDescriptor,
)
    ensures
        namespace_views(upserted(e, k, v)) == upserted(namespace_views(e), k, v@),
{
    let w = namespace_views(e);
    assert(same_keys(e, w));
    lemma_same_keys_index(e, w, k);
    assert(namespace_views(upserted(e, k, v)) =~= upserted(w, k, v@));
}

/// The summary key under which a snapshot records its row count.
pub open spec fn row_count_key() -> Seq<char> {
    seq!['r', 'o', 'w', '-', 'c', 'o', 'u', 'n', 't']
}

/// The row count a snapshot summary records, if it records a readable one.
pub open spec fn row_count_of(summary: Option<Seq<(Seq<char>, Seq<char>)>>) -> Option<u64> {
    match summary {
        Some(s) => match lookup(s, row_count_key()) {
            Some(x) => parsed_u64(x),
            None => None,
        },
        None => None,
    }
}

impl TableDescriptor {
    /// A table of which only its name and namespace path are known.
    pub fn blank(name: String, namespace: Vec<String>) -> (r: Self)
        ensures
            r@ == blank_table(name@, string_views(namespace@)),
    {
        let r = TableDescriptor {
            name,
            namespace,
            current_snapshot_summary: None,
            table: None,
            current_snapshot: None,
            current_manifest_list: None,
            manifests: manifests_new(),
            datafiles: Vec::new(),
            parquet_metadata: Vec::new(),
        };
        assert(key_views(r.datafiles@) =~= Seq::empty());
        assert(key_views(r.parquet_metadata@) =~= Seq::empty());
        r
    }

    /// The row count of the current snapshot, as its summary records it
    /// under `row-count`.
    pub fn row_count(&self) -> (r: Option<u64>)
        ensures
            r == row_count_of(self@.summary),
    {
        match &self.current_snapshot_summary {
            Some(summary) => {
                let key = "row-count";
                proof {
                    reveal_strlit("row-count");
                }
                assert(key@ =~= row_count_key());
                let ghost kv = key_views(summary@);
                let ghost pv = pair_views(summary@);
                assert(same_keys(kv, pv));
                proof {
                    lemma_same_keys_index(kv, pv, key@);
                }
                match find(summary, key) {
                    Some(v) => {
                        assert(pv[key_index(kv, key@)].1 == kv[key_index(kv, key@)].1@);
                        parse_u64(v.as_str())
                    },
                    None => None,
                }
            },
            None => None,
        }
    }

    /// Stores a piece of this table's metadata.
    pub fn apply(&mut self, c: TableChange)
        ensures
            final(self)@ == changed(old(self)@, c),
    {
        match c {
            TableChange::Table(x) => {
                self.table = Some(x);
            },
            TableChange::Summary(s) => {
                self.current_snapshot_summary = Some(s);
            },
            TableChange::Snapshot(x) => {
                self.current_snapshot = Some(x);
            },
            TableChange::ManifestList(x) => {
                self.current_manifest_list = Some(x);
            },
            TableChange::Manifest(p, x) => {
                manifests_insert(&mut self.manifests, p, x);
            },
            TableChange::DataFile(p, x) => {
                upsert(&mut self.datafiles, p, x);
            },
            TableChange::ParquetMetaData(p, x) => {
                upsert(&mut self.parquet_metadata, p, x);
            },
        }
    }
}

/// The tables of a listing, each blank, with the namespace path of `ns`.
fn build_tables(ns: &str, names: &Vec<String>) -> (r: indexmap::IndexMap<String, TableDescriptor>)
    ensures
        table_views(table_entries(r)) == fresh_tables(string_views(names@), namespace_path(ns@)),
{
    let ghost v = string_views(names@);
    let ghost path = namespace_path(ns@);
    let mut m = tables_new();
    assert(table_views(table_entries(m)) =~= Seq::empty());
    let mut i: usize = 0;
    while i < names.len()
        invariant
            i <= names.len(),
            v == string_views(names@),
            path == namespace_path(ns@),
            table_views(table_entries(m)) == fresh_tables(v.take(i as int), path),
        decreases names.len() - i,
    {
        assert(v.take(i as int + 1).drop_last() =~= v.take(i as int));
        let t = TableDescriptor::blank(names[i].clone(), split(ns, '.'));
        let ghost before = table_entries(m);
        tables_insert(&mut m, names[i].clone(), t);
        proof {
            lemma_table_views_upserted(before, names@[i as int]@, t);
        }
        i = i + 1;
    }
    assert(v.take(names.len() as int) =~= v);
    m
}

impl NamespaceDescriptor {
    /// The number of known tables.
    pub fn table_count(&self) -> (r: usize)
        ensures
            r == table_count(self@),
    {
        match &self.tables {
            Some(t) => tables_len(t),
            None => 0,
        }
    }
}

impl RetrievedIcebergMetadata {
    /// Fresh metadata for a namespace listing of `connection`.
    pub fn listed(connection: ConnectionDetails, names: &Vec<String>) -> (r: Self)
        ensures
            r@ == (CatalogView {
                connection: connection@,
                namespaces: fresh_namespaces(string_views(names@)),
            }),
    {
        let ghost v = string_views(names@);
        let mut m = namespaces_new();
        assert(namespace_views(namespace_entries(m)) =~= Seq::empty());
        let mut i: usize = 0;
        while i < names.len()
            invariant
                i <= names.len(),
                v == string_views(names@),
                namespace_views(namespace_entries(m)) == fresh_namespaces(v.take(i as int)),
            decreases names.len() - i,
        {
            assert(v.take(i as int + 1).drop_last() =~= v.take(i as int));
            let n = NamespaceDescriptor { name: names[i].clone(), properties: None, tables: None };
            let ghost before = namespace_entries(m);
            namespaces_insert(&mut m, names[i].clone(), n);
            proof {
                lemma_namespace_views_upserted(before, names@[i as int]@, n);
            }
            i = i + 1;
        }
        assert(v.take(names.len() as int) =~= v);
        RetrievedIcebergMetadata { connection, namespaces: m }
    }

    /// Sets the properties of namespace `ns`, where it exists.
    pub fn set_properties(&mut self, ns: &str, props: Vec<(String, String)>)
        ensures
            final(self)@ == catalog_properties_set(old(self)@, ns@, pair_views(props@)),
    {
        let ghost e = namespace_entries(self.namespaces);
        proof {
            lemma_same_keys_index(e, namespace_views(e), ns@);
        }
        match namespaces_index_of(&self.namespaces, ns) {
            Some(i) => {
                proof {
                    lemma_first_key_index(e, ns@, i as int);
                }
                let n = namespaces_at_mut(&mut self.namespaces, i);
                n.properties = Some(props);
                assert(namespace_views(namespace_entries(self.namespaces)) =~= catalog_properties_set(
                    old(self)@,
                    ns@,
                    pair_views(props@),
                ).namespaces);
            },
            None => {},
        }
    }

    /// Replaces the table list of namespace `ns`, where it exists, and tells
    /// that namespace's position.
    pub fn set_table_list(&mut self, ns: &str, names: &Vec<String>) -> (r: Option<usize>)
        ensures
            final(self)@ == catalog_table_list_set(old(self)@, ns@, string_views(names@)),
            r matches Some(i) ==> has_key(old(self)@.namespaces, ns@) && i == key_index(
                old(self)@.namespaces,
                ns@,
            ) && is_first_key_index(old(self)@.namespaces, ns@, i as int),
            r is None ==> !has_key(old(self)@.namespaces, ns@),
    {
        let ghost e = namespace_entries(self.namespaces);
        proof {
            lemma_same_keys_index(e, namespace_views(e), ns@);
        }
        match namespaces_index_of(&self.namespaces, ns) {
            Some(i) => {
                proof {
                    lemma_first_key_index(e, ns@, i as int);
                }
                let tables = build_tables(ns, names);
                let n = namespaces_at_mut(&mut self.namespaces, i);
                n.tables = Some(tables);
                assert(namespace_views(namespace_entries(self.namespaces)) =~= catalog_table_list_set(
                    old(self)@,
                    ns@,
                    string_views(names@),
                ).namespaces);
                Some(i)
            },
            None => None,
        }
    }

    /// Stores a piece of metadata of table `t` in namespace `ns`, where both exist.
    pub fn change_table(&mut self, ns: &str, t: &str, ch: TableChange)
        ensures
            final(self)@ == catalog_table_changed(old(self)@, ns@, t@, ch),
    {
        let ghost e = namespace_entries(self.namespaces);
        proof {
            lemma_same_keys_index(e, namespace_views(e), ns@);
        }
        match namespaces_index_of(&self.namespaces, ns) {
            Some(i) => {
                proof {
                    lemma_first_key_index(e, ns@, i as int);
                }
                let n = namespaces_at_mut(&mut self.namespaces, i);
                change_table_of(n, t, ch);
                assert(namespace_views(namespace_entries(self.namespaces)) =~= catalog_table_changed(
                    old(self)@,
                    ns@,
                    t@,
                    ch,
                ).namespaces);
            },
            None => {},
        }
    }
}

/// Stores a piece of metadata of table `t` of namespace `n`, where its table
/// list is known and holds `t`.
fn change_table_of(n: &mut NamespaceDescriptor, t: &str, ch: TableChange)
    ensures
        final(n)@ == (match old(n)@.tables {
            Some(ts) => if has_key(ts, t@) {
                let j = key_index(ts, t@);
                NamespaceView {
                    tables: Some(ts.update(j, (ts[j].0, changed(ts[j].1, ch)))),
                    ..old(n)@
                }
            } else {
                old(n)@
            },
            None => old(n)@,
        }),
{
    match &mut n.tables {
        Some(tm) => {
            let ghost te = table_entries(*tm);
            proof {
                lemma_same_keys_index(te, table_views(te), t@);
            }
            match tables_index_of(tm, t) {
                Some(j) => {
                    proof {
                        lemma_first_key_index(te, t@, j as int);
                    }
                    let td = tables_at_mut(tm, j);
                    td.apply(ch);
                    assert(table_views(table_entries(*tm)) =~= table_views(te).update(
                        j as int,
                        (te[j as int].0, changed(te[j as int].1@, ch)),
                    ));
                },
                None => {},
            }
        },
        None => {},
    }
}

/// A selection moved one step, wrapping around.
pub fn move_selection(sel: Option<usize>, len: usize, forward: bool) -> (r: Option<usize>)
    ensures
        r == moved(sel, len as nat, forward),
{
    match sel {
        Some(i) => {
            if len == 0 {
                sel
            } else if forward {
                if i >= len - 1 {
                    Some(0)
                } else {
                    Some(i + 1)
                }
            } else if i == 0 || i >= len {
                Some(len - 1)
            } else {
                Some(i - 1)
            }
        },
        None => None,
    }
}

fn focus_namespace(iceberg: &TanicIcebergState, ui: TanicUiState, forward: bool) -> (r: TanicUiState)
    ensures
        (AppView { iceberg: iceberg@, ui: r }) == namespace_focus_moved(
            AppView { iceberg: iceberg@, ui },
            forward,
        ),
{
    match ui {
        TanicUiState::ViewingNamespacesList(v) => match iceberg {
            TanicIcebergState::Connected(m) => {
                let len = namespaces_len(&m.namespaces);
                TanicUiState::ViewingNamespacesList(
                    ViewingNamespacesListState {
                        selected_idx: move_selection(v.selected_idx, len, forward),
                    },
                )
            },
            _ => ui,
        },
        _ => ui,
    }
}

fn select_namespace(iceberg: &TanicIcebergState, ui: TanicUiState) -> (r: TanicUiState)
    ensures
        (AppView { iceberg: iceberg@, ui: r }) == namespace_selected(AppView { iceberg: iceberg@, ui }),
{
    match ui {
        TanicUiState::ViewingNamespacesList(v) => match v.selected_idx {
            Some(i) => match iceberg {
                TanicIcebergState::Connected(m) => {
                    if i < namespaces_len(&m.namespaces) {
                        let count = namespaces_at(&m.namespaces, i).table_count();
                        TanicUiState::ViewingTablesList(
                            ViewingTablesListState {
                                namespaces: v,
                                selected_idx: if count == 0 {
                                    None
                                } else {
                                    Some(0)
                                },
                            },
                        )
                    } else {
                        ui
                    }
                },
                _ => ui,
            },
            None => ui,
        },
        _ => ui,
    }
}

fn focus_table(iceberg: &TanicIcebergState, ui: TanicUiState, forward: bool) -> (r: TanicUiState)
    ensures
        (AppView { iceberg: iceberg@, ui: r }) == table_focus_moved(
            AppView { iceberg: iceberg@, ui },
            forward,
        ),
{
    match ui {
        TanicUiState::ViewingTablesList(t) => match t.namespaces.selected_idx {
            Some(i) => match iceberg {
                TanicIcebergState::Connected(m) => {
                    if i < namespaces_len(&m.namespaces) {
                        let count = namespaces_at(&m.namespaces, i).table_count();
                        TanicUiState::ViewingTablesList(
                            ViewingTablesListState {
                                namespaces: t.namespaces,
                                selected_idx: move_selection(t.selected_idx, count, forward),
                            },
                        )
                    } else {
                        ui
                    }
                },
                _ => ui,
            },
            None => ui,
        },
        _ => ui,
    }
}

fn escape(ui: TanicUiState) -> (r: TanicUiState)
    ensures
        forall|i: IcebergView|
            (AppView { iceberg: i, ui: r }) == #[trigger] escaped(AppView { iceberg: i, ui }),
{
    match ui {
        TanicUiState::ViewingTablesList(t) => TanicUiState::ViewingNamespacesList(t.namespaces),
        _ => ui,
    }
}

impl Default for TanicAppState {
    /// The state in which the application starts.
    fn default() -> (r: Self)
        ensures
            r@ == (AppView { iceberg: IcebergView::Initializing, ui: TanicUiState::SplashScreen }),
    {
        TanicAppState::initial()
    }
}

impl TanicAppState {
    /// The state in which the application starts.
    pub fn initial() -> (r: Self)
        ensures
            r@ == (AppView { iceberg: IcebergView::Initializing, ui: TanicUiState::SplashScreen }),
    {
        TanicAppState { iceberg: TanicIcebergState::Initializing, ui: TanicUiState::SplashScreen }
    }

    fn listing_shown(connection: ConnectionDetails, names: &Vec<String>) -> (r: Self)
        ensures
            r@ == (AppView {
                iceberg: IcebergView::Connected(
                    CatalogView {
                        connection: connection@,
                        namespaces: fresh_namespaces(string_views(names@)),
                    },
                ),
                ui: TanicUiState::ViewingNamespacesList(
                    ViewingNamespacesListState {
                        selected_idx: first_selection(fresh_namespaces(string_views(names@)).len()),
                    },
                ),
            }),
    {
        let m = RetrievedIcebergMetadata::listed(connection, names);
        let len = namespaces_len(&m.namespaces);
        let selected_idx = if len == 0 {
            None
        } else {
            Some(0)
        };
        TanicAppState {
            iceberg: TanicIcebergState::Connected(m),
            ui: TanicUiState::ViewingNamespacesList(ViewingNamespacesListState { selected_idx }),
        }
    }

    fn table_list_shown(iceberg: TanicIcebergState, ui: TanicUiState, ns: &str, names: &Vec<String>) -> (r: Self)
        ensures
            r@ == table_list_arrived(AppView { iceberg: iceberg@, ui }, ns@, string_views(names@)),
    {
        match iceberg {
            TanicIcebergState::Connected(mut m) => {
                let ghost before = m@;
                let found = m.set_table_list(ns, names);
                assert(m@.namespaces.len() == before.namespaces.len());
                assert(namespace_views(namespace_entries(m.namespaces)).len() == namespace_entries(
                    m.namespaces,
                ).len());
                let ui2 = match found {
                    Some(i) => match ui {
                        TanicUiState::ViewingTablesList(t) => {
                            let viewing = match t.namespaces.selected_idx {
                                Some(k) => k == i,
                                None => false,
                            };
                            if viewing {
                                assert(namespace_views(namespace_entries(m.namespaces))[i as int].1
                                    == namespace_entries(m.namespaces)[i as int].1@);
                                let count = namespaces_at(&m.namespaces, i).table_count();
                                TanicUiState::ViewingTablesList(
                                    ViewingTablesListState {
                                        namespaces: t.namespaces,
                                        selected_idx: if count == 0 {
                                            None
                                        } else {
                                            Some(0)
                                        },
                                    },
                                )
                            } else {
                                ui
                            }
                        },
                        _ => ui,
                    },
                    None => ui,
                };
                TanicAppState { iceberg: TanicIcebergState::Connected(m), ui: ui2 }
            },
            other => TanicAppState { iceberg: other, ui },
        }
    }

    fn table_changed_in(iceberg: TanicIcebergState, ui: TanicUiState, ns: &str, t: &str, ch: TableChange) -> (r: Self)
        ensures
            r@ == table_changed(AppView { iceberg: iceberg@, ui }, ns@, t@, ch),
    {
        match iceberg {
            TanicIcebergState::Connected(mut m) => {
                m.change_table(ns, t, ch);
                TanicAppState { iceberg: TanicIcebergState::Connected(m), ui }
            },
            other => TanicAppState { iceberg: other, ui },
        }
    }

    /// The state after `action`. Every action is defined in every state; one
    /// that means nothing there leaves the state unchanged, and once exiting
    /// the state never changes again.
    pub fn update(self, action: TanicAction) -> (r: Self)
        ensures
            r@ == reduce(self@, action),
            selections_valid(self@) ==> selections_valid(r@),
    {
        proof {
            if selections_valid(self@) {
                lemma_reduce_keeps_selections_valid(self@, action);
            }
        }
        let TanicAppState { iceberg, ui } = self;
        if let TanicIcebergState::Exiting = iceberg {
            return TanicAppState { iceberg, ui };
        }
        match action {
            TanicAction::Exit => TanicAppState {
                iceberg: TanicIcebergState::Exiting,
                ui: TanicUiState::Exiting,
            },
            TanicAction::ConnectTo(d) => TanicAppState {
                iceberg: TanicIcebergState::ConnectingTo(d),
                ui: TanicUiState::SplashScreen,
            },
            TanicAction::UpdateNamespacesList(names) => match iceberg {
                TanicIcebergState::ConnectingTo(d) => Self::listing_shown(d, &names),
                TanicIcebergState::Connected(m) => Self::listing_shown(m.connection, &names),
                other => TanicAppState { iceberg: other, ui },
            },
            TanicAction::UpdateNamespaceProperties(ns, props) => match iceberg {
                TanicIcebergState::Connected(mut m) => {
                    m.set_properties(&ns, props);
                    TanicAppState { iceberg: TanicIcebergState::Connected(m), ui }
                },
                other => TanicAppState { iceberg: other, ui },
            },
            TanicAction::UpdateNamespaceTableList(ns, names) => Self::table_list_shown(
                iceberg,
                ui,
                &ns,
                &names,
            ),
            TanicAction::UpdateTable { namespace, table_name, table } => Self::table_changed_in(
                iceberg,
                ui,
                &namespace,
                &table_name,
                TableChange::Table(table),
            ),
            TanicAction::UpdateTableSummary { namespace, table_name, table_summary } =>
                Self::table_changed_in(
                iceberg,
                ui,
                &namespace,
                &table_name,
                TableChange::Summary(table_summary),
            ),
            TanicAction::UpdateTableCurrentSnapshot { namespace, table_name, snapshot } =>
                Self::table_changed_in(
                iceberg,
                ui,
                &namespace,
                &table_name,
                TableChange::Snapshot(snapshot),
            ),
            TanicAction::UpdateTableCurrentManifestList { namespace, table_name, manifest_list } =>
                Self::table_changed_in(
                iceberg,
                ui,
                &namespace,
                &table_name,
                TableChange::ManifestList(manifest_list),
            ),
            TanicAction::UpdateTableManifest { namespace, table_name, manifest, file_path } =>
                Self::table_changed_in(
                iceberg,
                ui,
                &namespace,
                &table_name,
                TableChange::Manifest(file_path, manifest),
            ),
            TanicAction::UpdateTableDataFile { namespace, table_name, file_path, data_file } =>
                Self::table_changed_in(
                iceberg,
                ui,
                &namespace,
                &table_name,
                TableChange::DataFile(file_path, data_file),
            ),
            TanicAction::UpdateTableParquetMetaData { namespace, table_name, file_path, metadata } =>
                Self::table_changed_in(
                iceberg,
                ui,
                &namespace,
                &table_name,
                TableChange::ParquetMetaData(file_path, metadata),
            ),
            TanicAction::FocusPrevNamespace => {
                let ui = focus_namespace(&iceberg, ui, false);
                TanicAppState { iceberg, ui }
            },
            TanicAction::FocusNextNamespace => {
                let ui = focus_namespace(&iceberg, ui, true);
                TanicAppState { iceberg, ui }
            },
            TanicAction::SelectNamespace => {
                let ui = select_namespace(&iceberg, ui);
                TanicAppState { iceberg, ui }
            },
            TanicAction::FocusPrevTable => {
                let ui = focus_table(&iceberg, ui, false);
                TanicAppState { iceberg, ui }
            },
            TanicAction::FocusNextTable => {
                let ui = focus_table(&iceberg, ui, true);
                TanicAppState { iceberg, ui }
            },
            TanicAction::Escape => {
                let ui = escape(ui);
                TanicAppState { iceberg, ui }
            },
            _ => TanicAppState { iceberg, ui },
        }
    }
}

} // verus!
