//! Decisions of the catalog fetch orchestrator. It watches published state
//! snapshots, decides which fetch to start, and admits a fetch result only
//! while the connection it was issued for is still the active one. Running
//! the fetches is left to the caller.
use vstd::prelude::*;
use crate::config::{ConnectionDetails, ConnectionView};
use crate::index_map::{namespace_entries, namespaces_at, namespaces_len};
use crate::message::{NamespaceDeets, namespace_name};
use crate::reducer::{active_connection, reduce};
use crate::state::{
    AppView, IcebergView, TanicAction, TanicAppState, TanicIcebergState, TanicUiState, namespace_views,
};
use crate::text::{contains, copy_strings, removed, string_views, without};

verus! {

/// What the fetch runner is to do.
#[derive(Debug)]
pub enum FetchCommand {
    /// Abort every fetch unit of the previous connection, open a catalog
    /// handle for this one and request its namespace list.
    Connect(ConnectionDetails),
    /// Request the table list of a namespace, tagged with the connection it
    /// is issued over.
    ListTables { connection: ConnectionDetails, namespace: String },
    /// The application is exiting: stop watching.
    Stop,
}

pub enum CommandView {
    Connect(ConnectionView),
    ListTables(ConnectionView, Seq<char>),
    Stop,
}

impl View for FetchCommand {
    type V = CommandView;

    open spec fn view(&self) -> CommandView {
        match self {
            FetchCommand::Connect(d) => CommandView::Connect(d@),
            FetchCommand::ListTables { connection, namespace } => CommandView::ListTables(
                connection@,
                namespace@,
            ),
            FetchCommand::Stop => CommandView::Stop,
        }
    }
}

pub open spec fn command_view(c: Option<FetchCommand>) -> Option<CommandView> {
    match c {
        Some(x) => Some(x@),
        None => None,
    }
}

/// The orchestrator's own memory: the connection it last connected to, and
/// the namespaces whose table list is being fetched over it.
pub struct IcebergContextManager {
    connection: Option<ConnectionDetails>,
    pending_tables: Vec<String>,
}

pub struct ContextView {
    pub connection: Option<ConnectionView>,
    pub pending_tables: Seq<Seq<char>>,
}

impl View for IcebergContextManager {
    type V = ContextView;

    closed spec fn view(&self) -> ContextView {
        ContextView {
            connection: match self.connection {
                Some(c) => Some(c@),
                None => None,
            },
            pending_tables: string_views(self.pending_tables@),
        }
    }
}

/// `c` is a connection with the same URI as `d`.
pub open spec fn same_uri(c: Option<ConnectionView>, d: ConnectionView) -> bool {
    c matches Some(x) && x.uri == d.uri
}

/// The result of a fetch issued over `tag` still concerns the state: the
/// state is connecting or connected to a catalog with the same URI.
pub open spec fn is_current(s: AppView, tag: ConnectionView) -> bool {
    same_uri(active_connection(s.iceberg), tag)
}

/// The namespace whose tables are shown but not known yet, with the
/// connection of the catalog.
pub open spec fn wanted_namespace(s: AppView) -> Option<(ConnectionView, Seq<char>)> {
    match s.iceberg {
        IcebergView::Connected(c) => match s.ui {
            TanicUiState::ViewingTablesList(t) => match t.namespaces.selected_idx {
                Some(i) => if i < c.namespaces.len() && c.namespaces[i as int].1.tables is None {
                    Some((c.connection, c.namespaces[i as int].1.name))
                } else {
                    None
                },
                None => None,
            },
            _ => None,
        },
        _ => None,
    }
}

/// What observing a published state does: stop on exit; connect to a new
/// connection (nothing for a reconnect to the same URI); request the table
/// list of a shown namespace whose tables are unknown, unless that request is
/// already out.
pub open spec fn observed(o: ContextView, s: AppView) -> (ContextView, Option<CommandView>) {
    match s.iceberg {
        IcebergView::Exiting => (o, Some(CommandView::Stop)),
        IcebergView::ConnectingTo(d) => if same_uri(o.connection, d) {
            (o, None)
        } else {
            (
                ContextView { connection: Some(d), pending_tables: Seq::empty() },
                Some(CommandView::Connect(d)),
            )
        },
        _ => match wanted_namespace(s) {
            Some((c, n)) => if o.pending_tables.contains(n) {
                (o, None)
            } else {
                (
                    ContextView { pending_tables: o.pending_tables.push(n), ..o },
                    Some(CommandView::ListTables(c, n)),
                )
            },
            None => (o, None),
        },
    }
}

/// The names of a namespace listing: each path's parts joined by dots.
pub open spec fn listing_names(listing: Seq<Vec<String>>) -> Seq<Seq<char>> {
    listing.map_values(|p: Vec<String>| namespace_name(string_views(p@)))
}

/// The memory after a table fetch over `tag` finished: the namespace is no
/// longer pending, where `tag` is the orchestrator's connection.
pub open spec fn table_fetch_finished(o: ContextView, tag: ConnectionView, ns: Seq<char>) -> ContextView {
    if same_uri(o.connection, tag) {
        ContextView { pending_tables: removed(o.pending_tables, ns), ..o }
    } else {
        o
    }
}

/// The action a table listing turns into: the listing, where it succeeded
/// and is still current; nothing otherwise.
pub open spec fn admitted_table_list(
    s: AppView,
    tag: ConnectionView,
    namespace: String,
    tables: Option<Vec<String>>,
) -> Option<TanicAction> {
    match tables {
        Some(t) => if is_current(s, tag) {
            Some(TanicAction::UpdateNamespaceTableList(namespace, t))
        } else {
            None
        },
        None => None,
    }
}

/// The state after an admitted result, if any, is applied.
pub open spec fn applied(s: AppView, a: Option<TanicAction>) -> AppView {
    match a {
        Some(x) => reduce(s, x),
        None => s,
    }
}

/// Whether a result fetched over `tag` still concerns the state.
pub fn concerns_state(state: &TanicAppState, tag: &ConnectionDetails) -> (r: bool)
    ensures
        r == is_current(state@, tag@),
{
    match &state.iceberg {
        TanicIcebergState::ConnectingTo(d) => d.uri == tag.uri,
        TanicIcebergState::Connected(m) => m.connection.uri == tag.uri,
        _ => false,
    }
}

fn wanted(state: &TanicAppState) -> (r: Option<(ConnectionDetails, String)>)
    ensures
        match r {
            Some((c, n)) => wanted_namespace(state@) == Some((c@, n@)),
            None => wanted_namespace(state@) is None,
        },
{
    match &state.iceberg {
        TanicIcebergState::Connected(m) => match state.ui {
            TanicUiState::ViewingTablesList(t) => match t.namespaces.selected_idx {
                Some(i) => {
                    if i < namespaces_len(&m.namespaces) {
                        let n = namespaces_at(&m.namespaces, i);
                        assert(namespace_views(namespace_entries(m.namespaces))[i as int].1
                            == namespace_entries(m.namespaces)[i as int].1@);
                        match &n.tables {
                            None => Some((m.connection.duplicate(), n.name.clone())),
                            Some(_) => None,
                        }
                    } else {
                        None
                    }
                },
                None => None,
            },
            _ => None,
        },
        _ => None,
    }
}

impl IcebergContextManager {
    /// An orchestrator that has connected to nothing yet.
    pub fn new() -> (r: Self)
        ensures
            r@ == (ContextView { connection: None, pending_tables: Seq::empty() }),
    {
        let r = IcebergContextManager { connection: None, pending_tables: Vec::new() };
        assert(string_views(r.pending_tables@) =~= Seq::empty());
        r
    }

    /// Decides what to do on observing a published state.
    pub fn observe(&mut self, state: &TanicAppState) -> (r: Option<FetchCommand>)
        ensures
            (final(self)@, command_view(r)) == observed(old(self)@, state@),
    {
        match &state.iceberg {
            TanicIcebergState::Exiting => Some(FetchCommand::Stop),
            TanicIcebergState::ConnectingTo(d) => {
                let same = match &self.connection {
                    Some(c) => c.uri == d.uri,
                    None => false,
                };
                if same {
                    None
                } else {
                    self.connection = Some(d.duplicate());
                    self.pending_tables = Vec::new();
                    assert(string_views(self.pending_tables@) =~= Seq::empty());
                    Some(FetchCommand::Connect(d.duplicate()))
                }
            },
            _ => match wanted(state) {
                Some((c, n)) => {
                    if contains(&self.pending_tables, n.as_str()) {
                        None
                    } else {
                        let ghost before = self.pending_tables@;
                        self.pending_tables.push(n.clone());
                        assert(string_views(self.pending_tables@) =~= string_views(before).push(
                            n@,
                        ));
                        Some(FetchCommand::ListTables { connection: c, namespace: n })
                    }
                },
                None => None,
            },
        }
    }

    /// The action a namespace listing fetched over `tag` turns into: the
    /// listed names, while `tag` is still the active connection; nothing once
    /// the state has moved to another connection.
    pub fn namespaces_fetched(state: &TanicAppState, tag: &ConnectionDetails, listing: Vec<Vec<String>>) -> (r: Option<TanicAction>)
        ensures
            is_current(state@, tag@) ==> (r matches Some(TanicAction::UpdateNamespacesList(names))
                && string_views(names@) == listing_names(listing@)),
            !is_current(state@, tag@) ==> r is None,
    {
        let current = concerns_state(state, tag);
        if !current {
            return None;
        }
        let ghost target = listing_names(listing@);
        let mut names: Vec<String> = Vec::new();
        let mut i: usize = 0;
        while i < listing.len()
            invariant
                i <= listing.len(),
                target == listing_names(listing@),
                string_views(names@) == target.take(i as int),
            decreases listing.len() - i,
        {
            let deets = NamespaceDeets::from_parts(copy_strings(&listing[i]));
            assert(target[i as int] == namespace_name(string_views(listing@[i as int]@)));
            let ghost before = names@;
            names.push(deets.name);
            assert(string_views(names@) =~= string_views(before).push(deets.name@));
            assert(string_views(names@) =~= target.take(i as int + 1));
            i = i + 1;
        }
        assert(target.take(listing.len() as int) =~= target);
        Some(TanicAction::UpdateNamespacesList(names))
    }

    /// The action a table listing of `namespace` fetched over `tag` turns
    /// into (`None` for a failed fetch), and the end of that fetch.
    pub fn tables_fetched(
        &mut self,
        state: &TanicAppState,
        tag: &ConnectionDetails,
        namespace: String,
        tables: Option<Vec<String>>,
    ) -> (r: Option<TanicAction>)
        ensures
            final(self)@ == table_fetch_finished(old(self)@, tag@, namespace@),
            r == admitted_table_list(state@, tag@, namespace, tables),
    {
        let ours = match &self.connection {
            Some(c) => c.uri == tag.uri,
            None => false,
        };
        if ours {
            self.pending_tables = without(&self.pending_tables, namespace.as_str());
        }
        let current = concerns_state(state, tag);
        match tables {
            Some(t) => if current {
                Some(TanicAction::UpdateNamespaceTableList(namespace, t))
            } else {
                None
            },
            None => None,
        }
    }
}

} // verus!
