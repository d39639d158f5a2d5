//! The application state, its mathematical view, and the actions that drive it.
use vstd::prelude::*;
use indexmap::IndexMap;
use iceberg::spec::{DataFile, Manifest, ManifestList, Snapshot};
use iceberg::table::Table;
use parquet::file::metadata::ParquetMetaData;
use crate::config::{ConnectionDetails, ConnectionView};
use crate::index_map::{manifest_entries, namespace_entries, table_entries};
use crate::keyed::key_views;
use crate::text::string_views;

verus! {

/// A message describing an intended change of state, sent by the user
/// interface or by a completed background fetch.
#[derive(Debug)]
pub enum TanicAction {
    Exit,
    ConnectTo(ConnectionDetails),
    UpdateNamespacesList(Vec<String>),
    UpdateNamespaceProperties(String, Vec<(String, String)>),
    UpdateNamespaceTableList(String, Vec<String>),
    UpdateTable { namespace: String, table_name: String, table: Table },
    UpdateTableSummary { namespace: String, table_name: String, table_summary: Vec<(String, String)> },
    UpdateTableCurrentSnapshot { namespace: String, table_name: String, snapshot: Snapshot },
    UpdateTableCurrentManifestList {
        namespace: String,
        table_name: String,
        manifest_list: ManifestList,
    },
    UpdateTableManifest { namespace: String, table_name: String, manifest: Manifest, file_path: String },
    UpdateTableDataFile { namespace: String, table_name: String, file_path: String, data_file: DataFile },
    UpdateTableParquetMetaData {
        namespace: String,
        table_name: String,
        file_path: String,
        metadata: ParquetMetaData,
    },
    FocusPrevNamespace,
    FocusNextNamespace,
    SelectNamespace,
    FocusPrevTable,
    FocusNextTable,
    SelectTable,
    Escape,
    FocusNextPartition,
    FocusPrevPartition,
    SelectPartition,
    FocusNextDataFile,
    FocusPrevDataFile,
    SelectDataFile,
}

/// The whole state: what is known of the catalog, and what the user sees.
#[derive(Clone, Debug)]
pub struct TanicAppState {
    pub iceberg: TanicIcebergState,
    pub ui: TanicUiState,
}

/// Where the connection to a catalog stands.
#[derive(Clone, Debug)]
pub enum TanicIcebergState {
    Initializing,
    ConnectingTo(ConnectionDetails),
    Connected(RetrievedIcebergMetadata),
    Exiting,
}

/// What has been retrieved from the connected catalog: its namespaces, in the
/// order in which the catalog listed them.
#[derive(Clone, Debug)]
pub struct RetrievedIcebergMetadata {
    /// The connection this metadata was retrieved over.
    pub connection: ConnectionDetails,
    pub namespaces: IndexMap<String, NamespaceDescriptor>,
}

/// A namespace. `tables` is `None` until its table list has arrived.
#[derive(Clone, Debug)]
pub struct NamespaceDescriptor {
    pub name: String,
    pub properties: Option<Vec<(String, String)>>,
    pub tables: Option<IndexMap<String, TableDescriptor>>,
}

/// A table. Each optional or keyed part is filled in on its own as its fetch
/// completes; absence means "not fetched yet".
#[derive(Clone, Debug)]
pub struct TableDescriptor {
    pub name: String,
    pub namespace: Vec<String>,
    pub current_snapshot_summary: Option<Vec<(String, String)>>,
    pub table: Option<Table>,
    pub current_snapshot: Option<Snapshot>,
    pub current_manifest_list: Option<ManifestList>,
    pub manifests: IndexMap<String, Manifest>,
    pub datafiles: Vec<(String, DataFile)>,
    pub parquet_metadata: Vec<(String, ParquetMetaData)>,
}

/// What the user is looking at.
#[derive(Clone, Copy, Debug, PartialEq, Eq, Structural)]
pub enum TanicUiState {
    SplashScreen,
    ViewingNamespacesList(ViewingNamespacesListState),
    ViewingTablesList(ViewingTablesListState),
    Exiting,
}

/// The namespace list, with the position of the focused namespace.
#[derive(Clone, Copy, Debug, PartialEq, Eq, Structural)]
pub struct ViewingNamespacesListState {
    pub selected_idx: Option<usize>,
}

/// The table list of the selected namespace, with the position of the
/// focused table.
#[derive(Clone, Copy, Debug, PartialEq, Eq, Structural)]
pub struct ViewingTablesListState {
    pub namespaces: ViewingNamespacesListState,
    pub selected_idx: Option<usize>,
}

/// A table as a mathematical value.
pub struct TableView {
    pub name: Seq<char>,
    pub namespace: Seq<Seq<char>>,
    pub summary: Option<Seq<(Seq<char>, Seq<char>)>>,
    pub table: Option<Table>,
    pub snapshot: Option<Snapshot>,
    pub manifest_list: Option<ManifestList>,
    pub manifests: Seq<(Seq<char>, Manifest)>,
    pub data_files: Seq<(Seq<char>, DataFile)>,
    pub parquet_metadata: Seq<(Seq<char>, ParquetMetaData)>,
}

/// A namespace as a mathematical value.
pub struct NamespaceView {
    pub name: Seq<char>,
    pub properties: Option<Seq<(Seq<char>, Seq<char>)>>,
    pub tables: Option<Seq<(Seq<char>, TableView)>>,
}

/// Retrieved metadata as a mathematical value.
pub struct CatalogView {
    pub connection: ConnectionView,
    pub namespaces: Seq<(Seq<char>, NamespaceView)>,
}

pub enum IcebergView {
    Initializing,
    ConnectingTo(ConnectionView),
    Connected(CatalogView),
    Exiting,
}

/// The whole state as a mathematical value.
pub struct AppView {
    pub iceberg: IcebergView,
    pub ui: TanicUiState,
}

/// Pairs of strings seen as characters.
pub open spec fn pair_views(s: Seq<(String, String)>) -> Seq<(Seq<char>, Seq<char>)> {
    s.map_values(|e: (String, String)| (e.0@, e.1@))
}

pub open spec fn option_pair_views(o: Option<Vec<(String, String)>>) -> Option<
    Seq<(Seq<char>, Seq<char>)>,
> {
    match o {
        Some(v) => Some(pair_views(v@)),
        None => None,
    }
}

pub open spec fn table_views(s: Seq<(Seq<char>, TableDescriptor)>) -> Seq<(Seq<char>, TableView)> {
    s.map_values(|e: (Seq<char>, TableDescriptor)| (e.0, e.1@))
}

pub open spec fn namespace_views(s: Seq<(Seq<char>, NamespaceDescriptor)>) -> Seq<
    (Seq<char>, NamespaceView),
> {
    s.map_values(|e: (Seq<char>, NamespaceDescriptor)| (e.0, e.1@))
}

impl View for TableDescriptor {
    type V = TableView;

    open spec fn view(&self) -> TableView {
        TableView {
            name: self.name@,
            namespace: string_views(self.namespace@),
            summary: option_pair_views(self.current_snapshot_summary),
            table: self.table,
            snapshot: self.current_snapshot,
            manifest_list: self.current_manifest_list,
            manifests: manifest_entries(self.manifests),
            data_files: key_views(self.datafiles@),
            parquet_metadata: key_views(self.parquet_metadata@),
        }
    }
}

impl View for NamespaceDescriptor {
    type V = NamespaceView;

    open spec fn view(&self) -> NamespaceView {
        NamespaceView {
            name: self.name@,
            properties: option_pair_views(self.properties),
            tables: match self.tables {
                Some(t) => Some(table_views(table_entries(t))),
                None => None,
            },
        }
    }
}

impl View for RetrievedIcebergMetadata {
    type V = CatalogView;

    open spec fn view(&self) -> CatalogView {
        CatalogView {
            connection: self.connection@,
            namespaces: namespace_views(namespace_entries(self.namespaces)),
        }
    }
}

impl View for TanicIcebergState {
    type V = IcebergView;

    open spec fn view(&self) -> IcebergView {
        match self {
            TanicIcebergState::Initializing => IcebergView::Initializing,
            TanicIcebergState::ConnectingTo(d) => IcebergView::ConnectingTo(d@),
            TanicIcebergState::Connected(m) => IcebergView::Connected(m@),
            TanicIcebergState::Exiting => IcebergView::Exiting,
        }
    }
}

impl View for TanicAppState {
    type V = AppView;

    open spec fn view(&self) -> AppView {
        AppView { iceberg: self.iceberg@, ui: self.ui }
    }
}

} // verus!
